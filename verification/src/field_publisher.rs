//! The producer side of a field in the LoLa runtime. A field may carry a notifier (the
//! `WithNotifier` tag: updates are published as events), a get handler (`WithGetter`) and a set
//! handler (`WithSetter`); the get and set handlers are ordinary method bindings registered
//! under the field's `{name}_get` and `{name}_set` member names. A piece the field lacks is
//! simply absent: using it reports an error instead of failing to construct the publisher.
use vstd::prelude::*;
use vstd::string::StringExecFns;

use crate::args_layout::{splice, FieldLayout};
use crate::concept::{Error, EventFailedReason};
use crate::lola_method::{write_result, BindingHandle};

verus! {

/// The member name under which a field's get handler is registered.
pub fn get_method_name(identifier: &str) -> (name: String)
    ensures
        name@ == identifier@ + "_get"@,
{
    String::from_str(identifier).concat("_get")
}

/// The member name under which a field's set handler is registered.
pub fn set_method_name(identifier: &str) -> (name: String)
    ensures
        name@ == identifier@ + "_set"@,
{
    String::from_str(identifier).concat("_set")
}

/// What a field publisher asks of its notifier event.
#[derive(Debug, PartialEq, Eq)]
pub enum NotifierAction {
    /// Allocate a sample from the notifier; its outcome goes to `allocate_outcome`.
    Allocate,
    /// Send this value through the notifier; its result goes to `update_outcome`.
    Send(Vec<u8>),
    /// Ask nothing of the notifier: the operation fails with this error.
    Fail(Error),
}

/// A field sample allocated from the notifier, not yet written: the notifier's own sample.
#[derive(Debug, PartialEq, Eq)]
pub struct LolaFieldSampleMaybeUninit<S> {
    pub inner: S,
}

/// Which pieces a field publisher has.
pub struct LolaFieldPublisher {
    has_notifier: bool,
    get_binding: Option<BindingHandle>,
    set_binding: Option<BindingHandle>,
}

impl LolaFieldPublisher {
    /// The field publishes updates to subscribers.
    pub closed spec fn spec_has_notifier(&self) -> bool {
        self.has_notifier
    }

    /// The get handler binding, when the field has one.
    pub closed spec fn spec_get_binding(&self) -> Option<BindingHandle> {
        self.get_binding
    }

    /// The set handler binding, when the field has one.
    pub closed spec fn spec_set_binding(&self) -> Option<BindingHandle> {
        self.set_binding
    }

    /// Creates the publisher from what the skeleton offers for this field: whether its
    /// notifier event exists, and the bindings found under `{name}_get` and `{name}_set`.
    /// A missing piece is recorded as absent; creation itself never fails.
    pub fn new(notifier_available: bool, get_binding: Option<BindingHandle>, set_binding: Option<BindingHandle>) -> (p: Self)
        ensures
            p.spec_has_notifier() == notifier_available,
            p.spec_get_binding() == get_binding,
            p.spec_set_binding() == set_binding,
    {
        LolaFieldPublisher { has_notifier: notifier_available, get_binding, set_binding }
    }

    /// The first step of allocating a sample for a zero-copy update: with a notifier, allocate
    /// from it; without one the allocation fails with `EventNotAvailable` and nothing is asked
    /// of the notifier.
    pub fn allocate(&self) -> (a: NotifierAction)
        ensures
            a == if self.spec_has_notifier() {
                NotifierAction::Allocate
            } else {
                NotifierAction::Fail(Error::EventError(EventFailedReason::EventNotAvailable))
            },
    {
        if self.has_notifier {
            NotifierAction::Allocate
        } else {
            NotifierAction::Fail(Error::EventError(EventFailedReason::EventNotAvailable))
        }
    }

    /// The second step of `allocate`: the notifier's allocation outcome `allocated`, with a
    /// sample wrapped as a field sample and an error passed on unchanged.
    pub fn allocate_outcome<S>(&self, allocated: Result<S, Error>) -> (r: Result<LolaFieldSampleMaybeUninit<S>, Error>)
        ensures
            !self.spec_has_notifier() ==> r == Err::<LolaFieldSampleMaybeUninit<S>, Error>(
                Error::EventError(EventFailedReason::EventNotAvailable),
            ),
            self.spec_has_notifier() ==> match allocated {
                Ok(s) => r == Ok::<LolaFieldSampleMaybeUninit<S>, Error>(LolaFieldSampleMaybeUninit { inner: s }),
                Err(e) => r == Err::<LolaFieldSampleMaybeUninit<S>, Error>(e),
            },
    {
        if !self.has_notifier {
            return Err(Error::EventError(EventFailedReason::EventNotAvailable));
        }
        match allocated {
            Ok(s) => Ok(LolaFieldSampleMaybeUninit { inner: s }),
            Err(e) => Err(e),
        }
    }

    /// The first step of publishing a new value: with a notifier, send `value` through it;
    /// without one the update fails with `EventNotAvailable` and the value is dropped unsent.
    pub fn update(&self, value: Vec<u8>) -> (a: NotifierAction)
        ensures
            a == if self.spec_has_notifier() {
                NotifierAction::Send(value)
            } else {
                NotifierAction::Fail(Error::EventError(EventFailedReason::EventNotAvailable))
            },
    {
        if self.has_notifier {
            NotifierAction::Send(value)
        } else {
            NotifierAction::Fail(Error::EventError(EventFailedReason::EventNotAvailable))
        }
    }

    /// The second step of `update`: the result of the notifier's send, `sent`, unchanged.
    pub fn update_outcome(&self, sent: Result<(), Error>) -> (r: Result<(), Error>)
        ensures
            r == if self.spec_has_notifier() {
                sent
            } else {
                Err(Error::EventError(EventFailedReason::EventNotAvailable))
            },
    {
        if self.has_notifier {
            sent
        } else {
            Err(Error::EventError(EventFailedReason::EventNotAvailable))
        }
    }

    /// Where a set handler is registered: the set binding, or nowhere (the handler is not
    /// registered) when the field has none.
    pub fn register_set_handler(&self) -> (target: Option<BindingHandle>)
        ensures
            target == self.spec_set_binding(),
    {
        self.set_binding
    }

    /// Where a get handler is registered: the get binding, or nowhere (the handler is not
    /// registered) when the field has none.
    pub fn register_get_handler(&self) -> (target: Option<BindingHandle>)
        ensures
            target == self.spec_get_binding(),
    {
        self.get_binding
    }
}

/// One incoming set call: the new value is the single argument at the start of the in-args
/// buffer; `callback` gets it by value and its confirmed value is written back.
pub fn dispatch_set_handler<F: Fn(Vec<u8>) -> Vec<u8>>(
    callback: &F,
    field: FieldLayout,
    in_args: &[u8],
    return_buf: &mut Option<Vec<u8>>,
) -> (result: Vec<u8>)
    requires
        field.size <= in_args@.len(),
        forall|v: Vec<u8>| #[trigger] callback.requires((v,)),
        *old(return_buf) matches Some(b) ==> forall|v: Vec<u8>, out: Vec<u8>| #[trigger] callback.ensures((v,), out) ==> out@.len() <= b@.len(),
    ensures
        exists|v: Vec<u8>| v@ == in_args@.subrange(0, field.size as int) && #[trigger] callback.ensures((v,), result),
        match *old(return_buf) {
            Some(b) => (*final(return_buf) matches Some(nb) && nb@ == splice(b@, 0, result@)),
            None => *final(return_buf) is None,
        },
{
    let mut value: Vec<u8> = Vec::new();
    let mut k: usize = 0;
    while k < field.size
        invariant
            k <= field.size,
            field.size <= in_args@.len(),
            value@ == in_args@.subrange(0, k as int),
        decreases field.size - k,
    {
        value.push(in_args[k]);
        assert(value@ =~= in_args@.subrange(0, k + 1));
        k = k + 1;
    }
    let ghost v = value;
    let result = callback(value);
    write_result(return_buf, &result);
    assert(callback.ensures((v,), result));
    result
}

/// One incoming get call: `callback`'s value is written into the return-value buffer.
pub fn dispatch_get_handler<F: Fn() -> Vec<u8>>(callback: &F, return_buf: &mut Option<Vec<u8>>) -> (result: Vec<u8>)
    requires
        callback.requires(()),
        *old(return_buf) matches Some(b) ==> forall|out: Vec<u8>| #[trigger] callback.ensures((), out) ==> out@.len() <= b@.len(),
    ensures
        callback.ensures((), result),
        match *old(return_buf) {
            Some(b) => (*final(return_buf) matches Some(nb) && nb@ == splice(b@, 0, result@)),
            None => *final(return_buf) is None,
        },
{
    let result = callback();
    write_result(return_buf, &result);
    result
}

} // verus!
