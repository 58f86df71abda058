//! Received samples of the mock runtime. Each sample gets the next number of a sample counter
//! when it is made; samples compare and order by that number alone.
use vstd::prelude::*;

use core::cmp::Ordering;
use vstd::std_specs::cmp::PartialEqSpec;
use vstd::std_specs::cmp::PartialOrdSpec;

verus! {

/// The counter samples take their numbers from. It wraps around after `usize::MAX`.
pub struct SampleIdCounter {
    next: usize,
}

/// The number after `id`, wrapping around after `usize::MAX`.
pub open spec fn next_sample_id(id: usize) -> usize {
    if id == usize::MAX {
        0
    } else {
        (id + 1) as usize
    }
}

impl SampleIdCounter {
    /// The number the next sample gets.
    pub closed spec fn spec_next(&self) -> usize {
        self.next
    }

    /// A counter that starts at zero.
    pub fn new() -> (c: Self)
        ensures
            c.spec_next() == 0,
    {
        SampleIdCounter { next: 0 }
    }

    /// Takes the next number.
    fn take(&mut self) -> (id: usize)
        ensures
            id == old(self).spec_next(),
            final(self).spec_next() == next_sample_id(id),
    {
        let id = self.next;
        self.next = if id == usize::MAX { 0 } else { id + 1 };
        id
    }
}

/// A received sample: its number and its value.
pub struct MockSample<T> {
    id: usize,
    value: T,
}

impl<T> MockSample<T> {
    /// The sample's number.
    pub closed spec fn spec_id(&self) -> usize {
        self.id
    }

    /// The sample's value.
    pub closed spec fn spec_value(&self) -> T {
        self.value
    }

    /// Makes a sample of `value` with the counter's next number.
    pub fn from(value: T, ids: &mut SampleIdCounter) -> (s: Self)
        ensures
            s.spec_id() == old(ids).spec_next(),
            s.spec_value() == value,
            final(ids).spec_next() == next_sample_id(old(ids).spec_next()),
    {
        let id = ids.take();
        MockSample { id, value }
    }

    /// The sample's value.
    pub fn value(&self) -> (r: &T)
        ensures
            *r == self.spec_value(),
    {
        &self.value
    }
}

impl<T> PartialEq for MockSample<T> {
    fn eq(&self, other: &Self) -> (r: bool) {
        self.id == other.id
    }
}

impl<T> vstd::std_specs::cmp::PartialEqSpecImpl for MockSample<T> {
    open spec fn obeys_eq_spec() -> bool {
        true
    }

    open spec fn eq_spec(&self, other: &Self) -> bool {
        self.spec_id() == other.spec_id()
    }
}

impl<T> PartialOrd for MockSample<T> {
    fn partial_cmp(&self, other: &Self) -> (r: Option<Ordering>) {
        if self.id < other.id {
            Some(Ordering::Less)
        } else if self.id == other.id {
            Some(Ordering::Equal)
        } else {
            Some(Ordering::Greater)
        }
    }
}

impl<T> vstd::std_specs::cmp::PartialOrdSpecImpl for MockSample<T> {
    open spec fn obeys_partial_cmp_spec() -> bool {
        true
    }

    open spec fn partial_cmp_spec(&self, other: &Self) -> Option<Ordering> {
        if self.spec_id() < other.spec_id() {
            Some(Ordering::Less)
        } else if self.spec_id() == other.spec_id() {
            Some(Ordering::Equal)
        } else {
            Some(Ordering::Greater)
        }
    }
}

/// A sample made right after another from the same counter never equals it, and, unless the
/// counter wrapped around in between, orders after it.
pub proof fn lemma_consecutive_samples_differ<T>(a: MockSample<T>, b: MockSample<T>)
    requires
        b.spec_id() == next_sample_id(a.spec_id()),
    ensures
        !a.eq_spec(&b),
        a.spec_id() < usize::MAX ==> a.partial_cmp_spec(&b) == Some(Ordering::Less),
{
}

} // verus!
