//! The method-call side of the LoLa runtime: the zero-copy argument allocator, the return
//! sample, and the call protocol a caller and a handler follow.
use vstd::prelude::*;

use crate::args_layout::{aligned_offset, field_offset, fields_end, fields_wf, lemma_aligned_offset_bounds,
    lemma_field_placement, lemma_fields_end_monotone, lemma_fields_end_nonneg, splice, FieldLayout};
use crate::args_layout::{args_layout, args_layout_spec, max_align, field_bytes, lemma_max_align_positive, lemma_aligned_offset_bounds as lemma_aligned_bounds, read_args};
use crate::concept::{ConsumerFailedReason, Error, MethodInArgAllocator, MethodInArgMaybeUninit, MethodInArgPtr, MethodReturnSample, ZeroCopyArgs};
use crate::method_call::{do_call_start, CallAction, CallPhase, MethodCall, MethodFailedReason};

verus! {

/// Return sample of a method call on the consumer side: owns the value that was read out of
/// the return-value buffer.
pub struct LolaMethodReturnSample<T> {
    value: T,
}

impl<T> LolaMethodReturnSample<T> {
    /// The value held.
    pub closed spec fn spec_value(&self) -> T {
        self.value
    }

    /// Wraps a value read out of the return-value buffer.
    pub fn new(value: T) -> (s: Self)
        ensures
            s.spec_value() == value,
    {
        LolaMethodReturnSample { value }
    }
}

impl<T> MethodReturnSample<T> for LolaMethodReturnSample<T> {
    fn value(&self) -> (r: &T)
        ensures
            *r == self.spec_value(),
    {
        &self.value
    }
}

/// A fully initialised argument: the place in the in-args buffer that holds it.
#[derive(Debug, Clone, Copy, PartialEq, Eq)]
pub struct LolaMethodInArgPtr {
    pub offset: usize,
    pub size: usize,
}

impl MethodInArgPtr for LolaMethodInArgPtr {}

/// A pre-allocated, not yet written argument slot in the in-args buffer.
#[derive(Debug, Clone, Copy, PartialEq, Eq)]
pub struct LolaMethodInArgMaybeUninit {
    pub offset: usize,
    pub size: usize,
}

impl MethodInArgMaybeUninit for LolaMethodInArgMaybeUninit {
    type Ptr = LolaMethodInArgPtr;

    open spec fn spec_offset(&self) -> int {
        self.offset as int
    }

    open spec fn spec_size(&self) -> int {
        self.size as int
    }

    /// Writes the argument's bytes into its slot of the in-args buffer.
    fn write(self, buf: &mut Vec<u8>, val: &[u8]) -> (r: ZeroCopyArgs<LolaMethodInArgPtr>)
        ensures
            r.0 == (LolaMethodInArgPtr { offset: self.offset, size: self.size }),
    {
        let ghost before = buf@;
        let buf_len = buf.len();
        let mut k: usize = 0;
        while k < self.size
            invariant
                k <= self.size,
                self.size == val@.len(),
                self.offset + self.size <= buf_len,
                buf_len == before.len(),
                buf@.len() == before.len(),
                buf@ == splice(before, self.offset as int, val@.take(k as int)),
            decreases self.size - k,
        {
            buf.set(self.offset + k, val[k]);
            assert(buf@ =~= splice(before, self.offset as int, val@.take(k + 1)));
            k = k + 1;
        }
        assert(val@.take(self.size as int) =~= val@);
        ZeroCopyArgs(LolaMethodInArgPtr { offset: self.offset, size: self.size })
    }

    /// Treats the slot as already written.
    fn assume_init(self) -> (r: ZeroCopyArgs<LolaMethodInArgPtr>)
        ensures
            r.0 == (LolaMethodInArgPtr { offset: self.offset, size: self.size }),
    {
        ZeroCopyArgs(LolaMethodInArgPtr { offset: self.offset, size: self.size })
    }
}

/// Hands out one argument slot per `allocate` call, each at the next offset of the shared
/// in-args buffer that suits its alignment: the same placement the copy path uses.
pub struct LolaMethodInArgAllocator {
    buffer_len: usize,
    offset: usize,
}

impl LolaMethodInArgAllocator {
    /// Length of the in-args buffer slots are handed out from.
    pub closed spec fn spec_buffer_len(&self) -> usize {
        self.buffer_len
    }

    /// Offset just past the last slot handed out.
    pub closed spec fn spec_offset(&self) -> usize {
        self.offset
    }

    /// An allocator over an in-args buffer of `buffer_len` bytes, nothing handed out yet.
    pub fn new(buffer_len: usize) -> (a: Self)
        ensures
            a.spec_buffer_len() == buffer_len,
            a.spec_offset() == 0,
    {
        LolaMethodInArgAllocator { buffer_len, offset: 0 }
    }
}

impl MethodInArgAllocator for LolaMethodInArgAllocator {
    type MethodInArgMaybeUninit = LolaMethodInArgMaybeUninit;

    open spec fn spec_can_allocate(&self, field: FieldLayout) -> bool {
        &&& field.align > 0
        &&& aligned_offset(self.spec_offset() as int, field.align as int) + field.size <= self.spec_buffer_len()
    }

    /// Hands out the slot for the next argument, at the next offset that suits its alignment.
    fn allocate(&mut self, field: FieldLayout) -> (slot: LolaMethodInArgMaybeUninit)
        ensures
            slot.offset == aligned_offset(old(self).spec_offset() as int, field.align as int),
            slot.size == field.size,
            final(self).spec_offset() == slot.offset + field.size,
            final(self).spec_buffer_len() == old(self).spec_buffer_len(),
    {
        proof {
            lemma_aligned_offset_bounds(self.offset as int, field.align as int);
        }
        let current = self.offset;
        let padding: usize = if current % field.align == 0 { 0 } else { field.align - (current % field.align) };
        let field_offset = current + padding;
        self.offset = field_offset + field.size;
        LolaMethodInArgMaybeUninit { offset: field_offset, size: field.size }
    }
}

/// One `allocate` call as its contract states it: from an allocator at offset `before`, the
/// slot for `field` lies at `slot_offset` and the allocator moves on to `after`.
pub open spec fn allocate_step(before: int, field: FieldLayout, slot_offset: int, after: int) -> bool {
    &&& slot_offset == aligned_offset(before, field.align as int)
    &&& after == slot_offset + field.size
}

/// Slot placement over separate `allocate` calls: from a fresh allocator (offset 0), one
/// `allocate` per argument field, in order, puts slot `i` exactly where the argument layout
/// places field `i`: aligned for it, after the previous slot, and the last one ending within
/// the layout's size.
pub proof fn lemma_allocate_sequence(fields: Seq<FieldLayout>, offsets: Seq<int>, slot_offsets: Seq<int>)
    requires
        fields_wf(fields),
        offsets.len() == fields.len() + 1,
        slot_offsets.len() == fields.len(),
        offsets[0] == 0,
        forall|i: int| 0 <= i < fields.len() ==> #[trigger] allocate_step(offsets[i], fields[i], slot_offsets[i], offsets[i + 1]),
    ensures
        forall|i: int| 0 <= i < fields.len() ==> #[trigger] slot_offsets[i] == field_offset(fields, i),
        forall|i: int| 0 <= i < fields.len() ==> #[trigger] slot_offsets[i] % (fields[i].align as int) == 0,
        forall|i: int| 0 <= i < fields.len() - 1 ==> #[trigger] slot_offsets[i] + fields[i].size <= slot_offsets[i + 1],
        fields.len() > 0 ==> slot_offsets[fields.len() - 1] + fields[fields.len() - 1].size <= args_layout_spec(fields).0,
{
    assert forall|i: int| 0 <= i <= fields.len() implies #[trigger] offsets[i] == fields_end(fields.take(i)) by {
        lemma_allocate_offsets(fields, offsets, slot_offsets, i);
    }
    assert forall|i: int| 0 <= i < fields.len() implies #[trigger] slot_offsets[i] == field_offset(fields, i) by {
        assert(allocate_step(offsets[i], fields[i], slot_offsets[i], offsets[i + 1]));
        assert(offsets[i] == fields_end(fields.take(i)));
    }
    assert forall|i: int| 0 <= i < fields.len() implies #[trigger] slot_offsets[i] % (fields[i].align as int) == 0 by {
        assert(slot_offsets[i] == field_offset(fields, i));
        lemma_field_placement(fields, i);
    }
    assert forall|i: int| 0 <= i < fields.len() - 1 implies #[trigger] slot_offsets[i] + fields[i].size <= slot_offsets[i + 1] by {
        assert(slot_offsets[i] == field_offset(fields, i));
        assert(slot_offsets[i + 1] == field_offset(fields, i + 1));
        lemma_field_placement(fields, i);
    }
    if fields.len() > 0 {
        let n = fields.len() - 1;
        assert(slot_offsets[n] == field_offset(fields, n));
        lemma_field_placement(fields, n);
    }
}

/// Before the `i`-th call the allocator's offset is the end of the first `i` fields.
proof fn lemma_allocate_offsets(fields: Seq<FieldLayout>, offsets: Seq<int>, slot_offsets: Seq<int>, i: int)
    requires
        offsets.len() == fields.len() + 1,
        slot_offsets.len() == fields.len(),
        offsets[0] == 0,
        forall|k: int| 0 <= k < fields.len() ==> #[trigger] allocate_step(offsets[k], fields[k], slot_offsets[k], offsets[k + 1]),
        0 <= i <= fields.len(),
    ensures
        offsets[i] == fields_end(fields.take(i)),
    decreases i,
{
    if i == 0 {
        assert(fields.take(0) =~= Seq::<FieldLayout>::empty());
    } else {
        let k = i - 1;
        lemma_allocate_offsets(fields, offsets, slot_offsets, k);
        assert(allocate_step(offsets[k], fields[k], slot_offsets[k], offsets[k + 1]));
        assert(fields.take(i).drop_last() =~= fields.take(i - 1));
        assert(fields.take(i).last() == fields[i - 1]);
    }
}

/// Allocates one slot per argument field, in declaration order, from a fresh allocator over a
/// buffer of `buffer_len` bytes. Each slot lies exactly where the copy path writes that field.
pub fn alloc_uninit(buffer_len: usize, fields: &[FieldLayout]) -> (slots: Vec<LolaMethodInArgMaybeUninit>)
    requires
        fields_wf(fields@),
        fields_end(fields@) <= buffer_len,
    ensures
        slots@.len() == fields@.len(),
        forall|i: int|
            0 <= i < fields@.len() ==> (#[trigger] slots@[i]).offset == field_offset(fields@, i) && slots@[i].size
                == fields@[i].size,
{
    let mut allocator = LolaMethodInArgAllocator::new(buffer_len);
    let mut slots: Vec<LolaMethodInArgMaybeUninit> = Vec::new();
    let mut i: usize = 0;
    while i < fields.len()
        invariant
            i <= fields@.len(),
            fields_wf(fields@),
            fields_end(fields@) <= buffer_len,
            allocator.spec_buffer_len() == buffer_len,
            allocator.spec_offset() == fields_end(fields@.take(i as int)),
            slots@.len() == i,
            forall|j: int|
                0 <= j < i ==> (#[trigger] slots@[j]).offset == field_offset(fields@, j) && slots@[j].size
                    == fields@[j].size,
        decreases fields@.len() - i,
    {
        proof {
            lemma_field_placement(fields@, i as int);
            assert(fields@.take(i + 1).drop_last() =~= fields@.take(i as int));
        }
        let slot = allocator.allocate(fields[i]);
        slots.push(slot);
        i = i + 1;
        proof {
            assert(fields@.take(i as int).last() == fields@[i - 1]);
        }
    }
    slots
}


/// Opaque handle of a method binding resolved on the native side.
pub type BindingHandle = u64;

/// The byte layout of a method's signature: its argument fields, and its return value's
/// layout, or `None` for a method that returns nothing.
pub struct MethodSignature {
    pub args: Vec<FieldLayout>,
    pub ret: Option<FieldLayout>,
}

impl MethodSignature {
    /// The argument fields are well formed and their buffer size fits in memory.
    pub open spec fn wf(&self) -> bool {
        &&& fields_wf(self.args@)
        &&& args_layout_spec(self.args@).0 <= usize::MAX
    }
}

/// Whether the method returns nothing.
pub fn is_void(sig: &MethodSignature) -> (r: bool)
    ensures
        r == sig.ret is None,
{
    sig.ret.is_none()
}

/// Opaque handle of a native proxy created for one method caller.
pub type ProxyHandle = u64;

/// What creating a method caller comes to: the caller, or why it could not be made; and the
/// proxy that was created but is not kept, which must be destroyed before returning.
pub struct CallerCreation<C> {
    pub result: Result<C, Error>,
    pub destroy_proxy: Option<ProxyHandle>,
}

/// The caller of one method on the consumer side. It owns the native proxy it was created with.
pub struct LolaMethodCaller {
    binding: BindingHandle,
    proxy: ProxyHandle,
    signature: MethodSignature,
}

/// What `LolaMethodCaller::new` returns, by the outcome of each creation step: the service
/// handle lookup, the proxy creation and the method binding lookup.
pub open spec fn caller_creation_spec(
    handle_found: bool,
    proxy: Result<ProxyHandle, Error>,
    binding: Option<BindingHandle>,
) -> (Result<(BindingHandle, ProxyHandle), Error>, Option<ProxyHandle>) {
    if !handle_found {
        (Err(Error::ConsumerError(ConsumerFailedReason::ServiceHandleNotFound)), None)
    } else {
        match proxy {
            Err(e) => (Err(e), None),
            Ok(p) => match binding {
                None => (Err(Error::MethodError(MethodFailedReason::MethodCallerCreationFailed)), Some(p)),
                Some(b) => (Ok((b, p)), None),
            },
        }
    }
}

impl LolaMethodCaller {
    /// The resolved method binding.
    pub closed spec fn spec_binding(&self) -> BindingHandle {
        self.binding
    }

    /// The native proxy this caller owns.
    pub closed spec fn spec_proxy(&self) -> ProxyHandle {
        self.proxy
    }

    /// The method's signature layout.
    pub closed spec fn spec_signature(&self) -> &MethodSignature {
        &self.signature
    }

    /// Creates the caller from the outcome of each creation step, taken in order: no service
    /// handle is `ServiceHandleNotFound`; a failed proxy creation (`proxy`) is returned
    /// unchanged; no method binding on the created proxy is `MethodCallerCreationFailed`, and
    /// that proxy is handed back to be destroyed. Steps after a failed one are not looked at.
    pub fn new(
        handle_found: bool,
        proxy: Result<ProxyHandle, Error>,
        binding: Option<BindingHandle>,
        signature: MethodSignature,
    ) -> (r: CallerCreation<Self>)
        requires
            signature.wf(),
        ensures
            r.destroy_proxy == caller_creation_spec(handle_found, proxy, binding).1,
            match caller_creation_spec(handle_found, proxy, binding).0 {
                Err(e) => r.result == Err::<Self, Error>(e),
                Ok((b, p)) => r.result matches Ok(c) && c.spec_binding() == b && c.spec_proxy() == p
                    && *c.spec_signature() == signature && c.spec_signature().wf(),
            },
    {
        if !handle_found {
            return CallerCreation {
                result: Err(Error::ConsumerError(ConsumerFailedReason::ServiceHandleNotFound)),
                destroy_proxy: None,
            };
        }
        let p = match proxy {
            Ok(p) => p,
            Err(e) => return CallerCreation { result: Err(e), destroy_proxy: None },
        };
        match binding {
            Some(b) => CallerCreation { result: Ok(LolaMethodCaller { binding: b, proxy: p, signature }), destroy_proxy: None },
            None => CallerCreation {
                result: Err(Error::MethodError(MethodFailedReason::MethodCallerCreationFailed)),
                destroy_proxy: Some(p),
            },
        }
    }

    /// Starts a copy-path call: the in-args buffer is needed exactly when the arguments take
    /// bytes.
    pub fn invoke_with_copy(&self) -> (r: (MethodCall, CallAction))
        requires
            self.spec_signature().wf(),
        ensures
            r.0.args_size == args_layout_spec(self.spec_signature().args@).0,
            r.0.is_void == self.spec_signature().ret is None,
            r.0.args_size > 0 ==> r.0.phase == CallPhase::AwaitingInArgsBuffer && r.1 == CallAction::GetInArgsBuffer,
            r.0.args_size == 0 ==> (r.0.phase, r.1) == do_call_start(r.0.is_void),
    {
        let (size, _align) = args_layout(self.signature.args.as_slice());
        MethodCall::start_copy(size, is_void(&self.signature))
    }

    /// Starts a zero-copy call: the arguments were already written through allocated slots.
    pub fn invoke_zero_copy(&self) -> (r: (MethodCall, CallAction))
        ensures
            r.0.args_size == 0,
            r.0.is_void == self.spec_signature().ret is None,
            (r.0.phase, r.1) == do_call_start(r.0.is_void),
    {
        MethodCall::start_zero_copy(is_void(&self.signature))
    }

    /// Whether allocating argument slots needs the in-args buffer: exactly when the
    /// arguments take bytes.
    pub fn allocate_needs_buffer(&self) -> (r: bool)
        requires
            self.spec_signature().wf(),
        ensures
            r == (args_layout_spec(self.spec_signature().args@).0 > 0),
    {
        let (size, _align) = args_layout(self.signature.args.as_slice());
        size > 0
    }

    /// Allocates one slot per argument for a zero-copy call. `in_args_buffer` is the length of
    /// the in-args buffer when it was asked for and obtained; when the arguments take bytes and
    /// it is missing, the allocation fails with `InArgsBufferUnavailable`.
    pub fn allocate(&self, in_args_buffer: Option<usize>) -> (r: Result<Vec<LolaMethodInArgMaybeUninit>, Error>)
        requires
            self.spec_signature().wf(),
            in_args_buffer matches Some(len) ==> len >= args_layout_spec(self.spec_signature().args@).0,
        ensures
            args_layout_spec(self.spec_signature().args@).0 > 0 && in_args_buffer is None ==> r
                == Err::<Vec<LolaMethodInArgMaybeUninit>, Error>(Error::MethodError(MethodFailedReason::InArgsBufferUnavailable)),
            !(args_layout_spec(self.spec_signature().args@).0 > 0 && in_args_buffer is None) ==> (r matches Ok(slots)
                && slots@.len() == self.spec_signature().args@.len() && forall|i: int|
                0 <= i < slots@.len() ==> (#[trigger] slots@[i]).offset == field_offset(self.spec_signature().args@, i)
                    && slots@[i].size == self.spec_signature().args@[i].size),
    {
        let fields = self.signature.args.as_slice();
        let (size, _align) = args_layout(fields);
        let buffer_len: usize = if size > 0 {
            match in_args_buffer {
                Some(len) => len,
                None => return Err(Error::MethodError(MethodFailedReason::InArgsBufferUnavailable)),
            }
        } else {
            0
        };
        proof {
            lemma_max_align_positive(fields@);
            if fields@.len() > 0 {
                lemma_field_placement(fields@, 0);
            }
        }
        Ok(alloc_uninit(buffer_len, fields))
    }
}

/// Caller of a field's get operation: a method without arguments returning the field's value,
/// registered under the field's `{name}_get` member name.
pub struct LolaFieldGetCaller {
    pub inner: LolaMethodCaller,
}

impl LolaFieldGetCaller {
    /// Creates the get caller of a field whose value has layout `value`, from the outcome of
    /// each creation step as `LolaMethodCaller::new` takes them.
    pub fn new(
        handle_found: bool,
        proxy: Result<ProxyHandle, Error>,
        binding: Option<BindingHandle>,
        value: FieldLayout,
    ) -> (r: CallerCreation<Self>)
        ensures
            r.destroy_proxy == caller_creation_spec(handle_found, proxy, binding).1,
            match caller_creation_spec(handle_found, proxy, binding).0 {
                Err(e) => r.result == Err::<Self, Error>(e),
                Ok((b, p)) => r.result matches Ok(c) && c.inner.spec_binding() == b && c.inner.spec_proxy() == p
                    && c.inner.spec_signature().args@.len() == 0 && c.inner.spec_signature().ret == Some(value)
                    && c.inner.spec_signature().wf(),
            },
    {
        let args: Vec<FieldLayout> = Vec::new();
        let sig = MethodSignature { args, ret: Some(value) };
        assert(args_layout_spec(sig.args@).0 == 0);
        let created = LolaMethodCaller::new(handle_found, proxy, binding, sig);
        let result = match created.result {
            Ok(inner) => Ok(LolaFieldGetCaller { inner }),
            Err(e) => Err(e),
        };
        CallerCreation { result, destroy_proxy: created.destroy_proxy }
    }
}

/// Caller of a field's set operation: a method taking the new value and returning the
/// confirmed value, registered under the field's `{name}_set` member name.
pub struct LolaFieldSetCaller {
    pub inner: LolaMethodCaller,
}

impl LolaFieldSetCaller {
    /// Creates the set caller of a field whose value has layout `value`, from the outcome of
    /// each creation step as `LolaMethodCaller::new` takes them.
    pub fn new(
        handle_found: bool,
        proxy: Result<ProxyHandle, Error>,
        binding: Option<BindingHandle>,
        value: FieldLayout,
    ) -> (r: CallerCreation<Self>)
        requires
            value.align > 0,
            value.size + value.align <= usize::MAX,
        ensures
            r.destroy_proxy == caller_creation_spec(handle_found, proxy, binding).1,
            match caller_creation_spec(handle_found, proxy, binding).0 {
                Err(e) => r.result == Err::<Self, Error>(e),
                Ok((b, p)) => r.result matches Ok(c) && c.inner.spec_binding() == b && c.inner.spec_proxy() == p
                    && c.inner.spec_signature().args@ == seq![value] && c.inner.spec_signature().ret == Some(value)
                    && c.inner.spec_signature().wf(),
            },
    {
        let mut args: Vec<FieldLayout> = Vec::new();
        args.push(value);
        let sig = MethodSignature { args, ret: Some(value) };
        proof {
            let f = sig.args@;
            assert(f.drop_last() =~= Seq::<FieldLayout>::empty());
            assert(f.last() == value);
            assert(fields_end(f.drop_last()) == 0);
            assert(max_align(f.drop_last()) == 1);
            assert(aligned_offset(0, value.align as int) == 0);
            assert(fields_end(f) == value.size);
            assert(max_align(f) == value.align as int);
            lemma_aligned_bounds(value.size as int, value.align as int);
        }
        let created = LolaMethodCaller::new(handle_found, proxy, binding, sig);
        let result = match created.result {
            Ok(inner) => Ok(LolaFieldSetCaller { inner }),
            Err(e) => Err(e),
        };
        CallerCreation { result, destroy_proxy: created.destroy_proxy }
    }
}

/// `buf` after writing each of `values` into the slot at the same position, in order.
pub open spec fn write_slots_spec(buf: Seq<u8>, slots: Seq<LolaMethodInArgMaybeUninit>, values: Seq<Seq<u8>>) -> Seq<u8>
    decreases slots.len(),
{
    if slots.len() == 0 || values.len() == 0 {
        buf
    } else {
        splice(write_slots_spec(buf, slots.drop_last(), values.drop_last()), slots.last().offset as int, values.last())
    }
}

/// Zero-copy agrees with copy: writing the arguments through the slots the allocator handed
/// out, in order, leaves the in-args buffer exactly as the copy path's `write_args` leaves it.
pub proof fn lemma_zero_copy_matches_copy(
    buf: Seq<u8>,
    fields: Seq<FieldLayout>,
    slots: Seq<LolaMethodInArgMaybeUninit>,
    values: Seq<Seq<u8>>,
)
    requires
        slots.len() == fields.len(),
        forall|i: int| 0 <= i < fields.len() ==> (#[trigger] slots[i]).offset == field_offset(fields, i),
    ensures
        write_slots_spec(buf, slots, values) == crate::args_layout::write_args_spec(buf, fields, values),
    decreases fields.len(),
{
    if fields.len() > 0 && values.len() > 0 {
        let n = fields.len() - 1;
        assert forall|i: int| 0 <= i < fields.drop_last().len() implies (#[trigger] slots.drop_last()[i]).offset
            == field_offset(fields.drop_last(), i) by {
            crate::args_layout::lemma_field_offset_prefix(fields, n, i);
            assert(fields.drop_last() =~= fields.take(n));
        }
        lemma_zero_copy_matches_copy(buf, fields.drop_last(), slots.drop_last(), values.drop_last());
    }
}

/// The handler of one method on the producer side.
pub struct LolaMethodHandler {
    binding: BindingHandle,
}

impl LolaMethodHandler {
    /// The resolved method binding.
    pub closed spec fn spec_binding(&self) -> BindingHandle {
        self.binding
    }

    /// Creates the handler from the outcome of resolving the method binding on the skeleton;
    /// no binding is `MethodHandlerCreationFailed`.
    pub fn new(binding: Option<BindingHandle>) -> (r: Result<Self, Error>)
        ensures
            binding is None ==> r == Err::<Self, Error>(Error::MethodError(MethodFailedReason::MethodHandlerCreationFailed)),
            binding matches Some(b) ==> (r matches Ok(h) && h.spec_binding() == b),
    {
        match binding {
            Some(b) => Ok(LolaMethodHandler { binding: b }),
            None => Err(Error::MethodError(MethodFailedReason::MethodHandlerCreationFailed)),
        }
    }
}

/// Writes `result` at the start of the return-value buffer, when there is one.
pub(crate) fn write_result(return_buf: &mut Option<Vec<u8>>, result: &Vec<u8>)
    requires
        *old(return_buf) matches Some(b) ==> result@.len() <= b@.len(),
    ensures
        match *old(return_buf) {
            Some(b) => (*final(return_buf) matches Some(nb) && nb@ == splice(b@, 0, result@)),
            None => *final(return_buf) is None,
        },
{
    match return_buf.take() {
        Some(mut b) => {
            let slot = LolaMethodInArgMaybeUninit { offset: 0, size: result.len() };
            slot.write(&mut b, result.as_slice());
            *return_buf = Some(b);
        },
        None => {},
    }
}

/// The handler side of one incoming copy-path call: reads the arguments out of the in-args
/// buffer (there is none for a method without arguments), hands them to `handler`, and writes
/// its result at the start of the return-value buffer when there is one (a method that returns
/// nothing has none).
pub fn dispatch_method_call<F: Fn(&Vec<Vec<u8>>) -> Vec<u8>>(
    handler: &F,
    fields: &[FieldLayout],
    in_args: Option<&[u8]>,
    return_buf: &mut Option<Vec<u8>>,
) -> (result: Vec<u8>)
    requires
        fields_wf(fields@),
        in_args matches Some(b) ==> args_layout_spec(fields@).0 <= b@.len(),
        in_args is None ==> fields@.len() == 0,
        forall|a: &Vec<Vec<u8>>| #[trigger] handler.requires((a,)),
        *old(return_buf) matches Some(b) ==> forall|a: &Vec<Vec<u8>>, out: Vec<u8>| #[trigger] handler.ensures((a,), out) ==> out@.len() <= b@.len(),
    ensures
        exists|args: Vec<Vec<u8>>|
            {
                &&& args@.len() == fields@.len()
                &&& forall|i: int| 0 <= i < fields@.len() ==> (#[trigger] args@[i])@ == field_bytes(in_args->0@, fields@, i)
                &&& handler.ensures((&args,), result)
            },
        match *old(return_buf) {
            Some(b) => (*final(return_buf) matches Some(nb) && nb@ == splice(b@, 0, result@)),
            None => *final(return_buf) is None,
        },
{
    let args: Vec<Vec<u8>> = match in_args {
        Some(b) => read_args(b, fields),
        None => Vec::new(),
    };
    let result = handler(&args);
    write_result(return_buf, &result);
    result
}

} // verus!
