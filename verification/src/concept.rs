//! Runtime-independent pieces of the method API that every runtime shares.
use vstd::prelude::*;

use crate::args_layout::{splice, FieldLayout};

verus! {

/// Access to the value a method call returned, on the consumer side.
pub trait MethodReturnSample<T> {
    /// The returned value.
    fn value(&self) -> &T;
}

/// Marker for a runtime's handle to a fully initialised, pre-allocated method argument.
pub trait MethodInArgPtr {}

/// Wrapper around the pre-allocated argument handles that selects the zero-copy call path.
pub struct ZeroCopyArgs<P>(pub P);

/// A pre-allocated, not yet written argument slot of the zero-copy path: a place of
/// `spec_size()` bytes at `spec_offset()` in the in-args buffer.
pub trait MethodInArgMaybeUninit: Sized {
    /// The handle the slot becomes once written.
    type Ptr: MethodInArgPtr;

    /// Where the slot starts in the in-args buffer.
    spec fn spec_offset(&self) -> int;

    /// How many bytes the slot holds.
    spec fn spec_size(&self) -> int;

    /// Writes the argument's bytes into the slot and hands out its handle.
    fn write(self, buf: &mut Vec<u8>, val: &[u8]) -> (r: ZeroCopyArgs<Self::Ptr>)
        requires
            val@.len() == self.spec_size(),
            0 <= self.spec_offset(),
            self.spec_offset() + self.spec_size() <= old(buf)@.len(),
        ensures
            final(buf)@ == splice(old(buf)@, self.spec_offset(), val@),
    ;

    /// Treats the slot as already written and hands out its handle.
    fn assume_init(self) -> (r: ZeroCopyArgs<Self::Ptr>);
}

/// Hands out the argument slots of the zero-copy path, one per argument.
pub trait MethodInArgAllocator {
    /// The slot type handed out.
    type MethodInArgMaybeUninit: MethodInArgMaybeUninit;

    /// A slot for an argument of layout `field` still fits.
    spec fn spec_can_allocate(&self, field: FieldLayout) -> bool;

    /// Hands out the slot for the next argument, of layout `field`.
    fn allocate(&mut self, field: FieldLayout) -> (slot: Self::MethodInArgMaybeUninit)
        requires
            old(self).spec_can_allocate(field),
        ensures
            slot.spec_size() == field.size,
    ;
}

/// A handler for a method taking `Args` and returning `Return`, registered on the producer
/// side; arguments are passed by reference, the result by value.
pub trait MethodHandlerCall<Args, Return> {
    fn call(&self, args: &Args) -> Return;
}


/// Why a consumer could not be set up.
#[derive(Debug, Clone, Copy, PartialEq, Eq)]
pub enum ConsumerFailedReason {
    ServiceHandleNotFound,
}

/// Why an event or field notification could not be used.
#[derive(Debug, Clone, Copy, PartialEq, Eq)]
pub enum EventFailedReason {
    EventNotAvailable,
}

/// Errors of the communication API.
#[derive(Debug, Clone, Copy, PartialEq, Eq)]
pub enum Error {
    MethodError(crate::method_call::MethodFailedReason),
    ConsumerError(ConsumerFailedReason),
    EventError(EventFailedReason),
}

} // verus!
