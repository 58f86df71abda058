//! A mock runtime for tests and development: no IPC, every piece keeps its data in process.
use vstd::prelude::*;

use core::marker::PhantomData;

use crate::concept::{MethodInArgPtr, MethodReturnSample};

verus! {

/// The mock runtime.
pub struct MockRuntimeImpl {}

impl MockRuntimeImpl {
    /// Service discovery for an instance; the mock's discovery finds nothing.
    pub fn find_service<I>(&self, _instance_specifier: &str) -> (d: MockConsumerDiscovery<I>) {
        MockConsumerDiscovery { _interface: PhantomData }
    }

    /// A builder for a producer of the given instance.
    pub fn producer_builder<I>(&self, instance_specifier: String) -> (b: MockProducerBuilder<I>)
        ensures
            b.instance_specifier == instance_specifier,
    {
        MockProducerBuilder::new(self, instance_specifier)
    }
}

/// Producer-side instance information of the mock runtime.
pub struct MockProviderInfo {
    pub instance_specifier: String,
}

/// Consumer-side instance information of the mock runtime.
pub struct MockConsumerInfo {
    pub instance_specifier: String,
}

/// Builds the mock runtime.
pub struct RuntimeBuilderImpl {}

impl RuntimeBuilderImpl {
    /// Creates a new builder of the mock runtime.
    pub fn new() -> (b: Self)
        ensures
            b == (RuntimeBuilderImpl {}),
    {
        RuntimeBuilderImpl {}
    }

    /// Builds the runtime; this never fails.
    pub fn build(self) -> (r: Result<MockRuntimeImpl, ()>)
        ensures
            r is Ok,
    {
        Ok(MockRuntimeImpl {})
    }
}

impl Default for RuntimeBuilderImpl {
    /// The same builder as `new`.
    fn default() -> (b: Self)
        ensures
            b == (RuntimeBuilderImpl {}),
    {
        Self::new()
    }
}

/// Mock event publisher.
pub struct MockPublisher<T> {
    _data: PhantomData<T>,
}

impl<T> Default for MockPublisher<T> {
    /// The same publisher as `new`.
    fn default() -> (p: Self)
        ensures
            p == Self::spec_new(),
    {
        Self::new()
    }
}

impl<T> MockPublisher<T> {
    /// The publisher `new` makes.
    pub closed spec fn spec_new() -> Self {
        MockPublisher { _data: PhantomData }
    }

    /// Creates a publisher.
    pub fn new() -> (p: Self)
        ensures
            p == Self::spec_new(),
    {
        MockPublisher { _data: PhantomData }
    }

    /// Allocates a sample to be written; this never fails.
    pub fn allocate(&self) -> (r: Result<MockSampleMaybeUninit<T>, ()>)
        ensures
            r matches Ok(s) && s.spec_data() is None,
    {
        Ok(MockSampleMaybeUninit { data: None })
    }
}

/// An allocated event sample, possibly not written yet.
pub struct MockSampleMaybeUninit<T> {
    data: Option<T>,
}

/// A written event sample.
pub struct MockSampleMut<T> {
    data: T,
}

impl<T> MockSampleMaybeUninit<T> {
    /// The value written so far, if any.
    pub closed spec fn spec_data(&self) -> Option<T> {
        self.data
    }

    /// Writes the sample's value.
    pub fn write(self, val: T) -> (m: MockSampleMut<T>)
        ensures
            m.spec_data() == val,
    {
        MockSampleMut { data: val }
    }

    /// Takes the sample as written; it must have been written through `as_mut`.
    pub fn assume_init(self) -> (m: MockSampleMut<T>)
        requires
            self.spec_data() is Some,
        ensures
            m.spec_data() == self.spec_data()->0,
    {
        MockSampleMut { data: self.data.unwrap() }
    }

    /// Writes the value in place.
    pub fn as_mut(&mut self, val: T)
        ensures
            final(self).spec_data() == Some(val),
    {
        self.data = Some(val);
    }
}

impl<T> MockSampleMut<T> {
    /// The sample's value.
    pub closed spec fn spec_data(&self) -> T {
        self.data
    }

    /// The sample's value.
    pub fn value(&self) -> (r: &T)
        ensures
            *r == self.spec_data(),
    {
        &self.data
    }

    /// Replaces the sample's value before it is sent.
    pub fn set(&mut self, val: T)
        ensures
            final(self).spec_data() == val,
    {
        self.data = val;
    }
}

/// Mock field publisher.
pub struct MockFieldPublisher<T> {
    _data: PhantomData<T>,
}

impl<T> MockFieldPublisher<T> {
    /// Creates a field publisher; this never fails.
    pub fn new(_identifier: &str, _instance_info: &MockProviderInfo) -> (r: Result<Self, ()>)
        ensures
            r is Ok,
    {
        Ok(MockFieldPublisher { _data: PhantomData })
    }

    /// Allocates a field sample to be written; this never fails.
    pub fn allocate(&self) -> (r: Result<MockFieldSampleMaybeUninit<T>, ()>)
        ensures
            r matches Ok(s) && s.spec_data() is None,
    {
        Ok(MockFieldSampleMaybeUninit { data: None })
    }
}

/// An allocated field sample, possibly not written yet.
pub struct MockFieldSampleMaybeUninit<T> {
    data: Option<T>,
}

/// A written field sample.
pub struct MockFieldSampleMut<T> {
    data: T,
}

impl<T> MockFieldSampleMaybeUninit<T> {
    /// The value written so far, if any.
    pub closed spec fn spec_data(&self) -> Option<T> {
        self.data
    }

    /// Writes the field's new value.
    pub fn write(self, value: T) -> (m: MockFieldSampleMut<T>)
        ensures
            m.spec_data() == value,
    {
        MockFieldSampleMut { data: value }
    }

    /// Takes the sample as written; it must have been written through `as_mut`.
    pub fn assume_init(self) -> (m: MockFieldSampleMut<T>)
        requires
            self.spec_data() is Some,
        ensures
            m.spec_data() == self.spec_data()->0,
    {
        MockFieldSampleMut { data: self.data.unwrap() }
    }

    /// Writes the value in place.
    pub fn as_mut(&mut self, val: T)
        ensures
            final(self).spec_data() == Some(val),
    {
        self.data = Some(val);
    }
}

impl<T> MockFieldSampleMut<T> {
    /// The sample's value.
    pub closed spec fn spec_data(&self) -> T {
        self.data
    }

    /// The sample's value.
    pub fn value(&self) -> (r: &T)
        ensures
            *r == self.spec_data(),
    {
        &self.data
    }

    /// Replaces the sample's value before the field is updated with it.
    pub fn set(&mut self, val: T)
        ensures
            final(self).spec_data() == val,
    {
        self.data = val;
    }
}

/// Mock field subscriber, not yet subscribed.
pub struct MockFieldSubscriber<T> {
    pub identifier: String,
    pub instance_info: MockConsumerInfo,
    pub _data: PhantomData<T>,
}

/// Mock field subscription.
pub struct MockFieldSubscription<T> {
    identifier: String,
    instance_info: MockConsumerInfo,
    _data: PhantomData<T>,
}

impl<T> MockFieldSubscriber<T> {
    /// Creates a subscriber for a field of an instance; this never fails.
    pub fn new(identifier: String, instance_info: MockConsumerInfo) -> (r: Result<Self, ()>)
        ensures
            r matches Ok(s) && s.identifier == identifier && s.instance_info == instance_info,
    {
        Ok(MockFieldSubscriber { identifier, instance_info, _data: PhantomData })
    }

    /// Subscribes to the field; this never fails.
    pub fn subscribe(self, _max_num_samples: usize) -> (r: Result<MockFieldSubscription<T>, ()>)
        ensures
            r matches Ok(s) && s.spec_identifier() == self.identifier && s.spec_instance_info() == self.instance_info,
    {
        Ok(MockFieldSubscription { identifier: self.identifier, instance_info: self.instance_info, _data: PhantomData })
    }
}

impl<T> MockFieldSubscription<T> {
    /// The field this subscription is for.
    pub closed spec fn spec_identifier(&self) -> String {
        self.identifier
    }

    /// The instance this subscription is for.
    pub closed spec fn spec_instance_info(&self) -> MockConsumerInfo {
        self.instance_info
    }

    /// Ends the subscription.
    pub fn unsubscribe(self) -> (s: MockFieldSubscriber<T>)
        ensures
            s.identifier == self.spec_identifier(),
            s.instance_info == self.spec_instance_info(),
    {
        MockFieldSubscriber { identifier: self.identifier, instance_info: self.instance_info, _data: PhantomData }
    }
}

/// Mock producer-side handler of one method.
pub struct MockMethodHandler<Args, Return> {
    _phantom: PhantomData<(Args, Return)>,
}

impl<Args, Return> MockMethodHandler<Args, Return> {
    /// Creates the handler of a method of an instance; this never fails.
    pub fn new(_method_name: &str, _instance_info: &MockProviderInfo) -> (r: Result<Self, ()>)
        ensures
            r is Ok,
    {
        Ok(MockMethodHandler { _phantom: PhantomData })
    }
}

/// Mock consumer-side caller of one method.
pub struct MockMethodCaller<Args, Return> {
    _phantom: PhantomData<(Args, Return)>,
}

impl<Args, Return> MockMethodCaller<Args, Return> {
    /// Creates the caller of a method of an instance; this never fails.
    pub fn new(_method_name: &str, _instance_info: &MockConsumerInfo) -> (r: Result<Self, ()>)
        ensures
            r is Ok,
    {
        Ok(MockMethodCaller { _phantom: PhantomData })
    }
}

/// Mock service discovery: finds no instances.
pub struct MockConsumerDiscovery<I> {
    _interface: PhantomData<I>,
}

impl<I> MockConsumerDiscovery<I> {
    /// Creates a discovery for an instance specifier of the given runtime.
    pub fn new(_runtime: &MockRuntimeImpl, _instance_specifier: &str) -> (d: Self) {
        MockConsumerDiscovery { _interface: PhantomData }
    }

    /// The instances available; the mock never finds any.
    pub fn get_available_instances(&self) -> (r: Result<Vec<MockConsumerBuilder<I>>, ()>)
        ensures
            r matches Ok(v) && v@.len() == 0,
    {
        Ok(Vec::new())
    }
}

/// Builds the producer of one instance.
pub struct MockProducerBuilder<I> {
    pub instance_specifier: String,
    pub _interface: PhantomData<I>,
}

impl<I> MockProducerBuilder<I> {
    /// A builder for the given instance of the given runtime.
    pub fn new(_runtime: &MockRuntimeImpl, instance_specifier: String) -> (b: Self)
        ensures
            b.instance_specifier == instance_specifier,
    {
        MockProducerBuilder { instance_specifier, _interface: PhantomData }
    }

    /// Builds the producer: hands the instance's provider information to the interface's
    /// producer constructor `make_producer` and returns what it gives.
    pub fn build<P, F: FnOnce(MockProviderInfo) -> P>(self, make_producer: F) -> (p: P)
        requires
            make_producer.requires(((MockProviderInfo { instance_specifier: self.instance_specifier }),)),
        ensures
            make_producer.ensures(((MockProviderInfo { instance_specifier: self.instance_specifier }),), p),
    {
        let instance_info = MockProviderInfo { instance_specifier: self.instance_specifier };
        make_producer(instance_info)
    }
}

/// Describes a consumer of an interface; carries nothing at run time.
pub struct SampleConsumerDescriptor<I> {
    pub _interface: PhantomData<I>,
}

impl<I> Clone for SampleConsumerDescriptor<I> {
    fn clone(&self) -> (c: Self) {
        SampleConsumerDescriptor { _interface: PhantomData }
    }
}

/// Builds the consumer of one found instance.
pub struct MockConsumerBuilder<I> {
    pub instance_specifier: String,
    pub _interface: PhantomData<I>,
}

impl<I> MockConsumerBuilder<I> {
    /// Builds the consumer: hands the instance's consumer information to the interface's
    /// consumer constructor `make_consumer`; this never fails.
    pub fn build<C, F: FnOnce(MockConsumerInfo) -> C>(self, make_consumer: F) -> (r: Result<C, ()>)
        requires
            make_consumer.requires(((MockConsumerInfo { instance_specifier: self.instance_specifier }),)),
        ensures
            r matches Ok(c) && make_consumer.ensures(((MockConsumerInfo { instance_specifier: self.instance_specifier }),), c),
    {
        let instance_info = MockConsumerInfo { instance_specifier: self.instance_specifier };
        Ok(make_consumer(instance_info))
    }
}

/// Mock event subscriber, not yet subscribed.
pub struct MockSubscribableImpl<T> {
    pub identifier: String,
    pub instance_info: MockConsumerInfo,
    pub _data: PhantomData<T>,
}

/// Mock subscription: keeps the samples added to it, newest first.
pub struct MockSubscriberImpl<T> {
    identifier: String,
    instance_info: MockConsumerInfo,
    data: Vec<T>,
}

impl<T> MockSubscribableImpl<T> {
    /// Creates a subscriber for an event of an instance; this never fails.
    pub fn new(identifier: String, instance_info: MockConsumerInfo) -> (r: Result<Self, ()>)
        ensures
            r matches Ok(s) && s.identifier == identifier && s.instance_info == instance_info,
    {
        Ok(MockSubscribableImpl { identifier, instance_info, _data: PhantomData })
    }

    /// Subscribes; the subscription starts with no samples.
    pub fn subscribe(self, _max_num_samples: usize) -> (r: Result<MockSubscriberImpl<T>, ()>)
        ensures
            r matches Ok(s) && s.spec_identifier() == self.identifier && s.spec_instance_info() == self.instance_info && s.spec_data()
                == Seq::<T>::empty(),
    {
        Ok(MockSubscriberImpl { identifier: self.identifier, instance_info: self.instance_info, data: Vec::new() })
    }
}

impl<T> MockSubscriberImpl<T> {
    /// The event this subscription is for.
    pub closed spec fn spec_identifier(&self) -> String {
        self.identifier
    }

    /// The instance this subscription is for.
    pub closed spec fn spec_instance_info(&self) -> MockConsumerInfo {
        self.instance_info
    }

    /// The samples held, newest first.
    pub closed spec fn spec_data(&self) -> Seq<T> {
        self.data@
    }

    /// Adds a sample in front of the ones held.
    pub fn add_data(&mut self, data: T)
        ensures
            final(self).spec_data() == seq![data] + old(self).spec_data(),
            final(self).spec_identifier() == old(self).spec_identifier(),
            final(self).spec_instance_info() == old(self).spec_instance_info(),
    {
        self.data.insert(0, data);
        assert(self.data@ =~= seq![data] + old(self).spec_data());
    }

    /// Ends the subscription.
    pub fn unsubscribe(self) -> (s: MockSubscribableImpl<T>)
        ensures
            s.identifier == self.spec_identifier(),
            s.instance_info == self.spec_instance_info(),
    {
        MockSubscribableImpl { identifier: self.identifier, instance_info: self.instance_info, _data: PhantomData }
    }
}

/// Mock zero-copy argument slot.
pub struct MockMethodInArgMaybeUninit<T> {
    _phantom: PhantomData<T>,
}

/// Mock zero-copy argument handle.
pub struct MockMethodInArgPtr<T> {
    _phantom: PhantomData<T>,
}

impl<T> MethodInArgPtr for MockMethodInArgPtr<T> {}

/// Mock zero-copy argument allocator.
pub struct MockMethodInArgAllocator;

/// Mock return sample: owns the returned value.
pub struct MockMethodReturnSample<T> {
    value: T,
}

impl<T> MockMethodReturnSample<T> {
    /// The value held.
    pub closed spec fn spec_value(&self) -> T {
        self.value
    }

    /// Wraps a returned value.
    pub fn new(value: T) -> (s: Self)
        ensures
            s.spec_value() == value,
    {
        MockMethodReturnSample { value }
    }
}

impl<T> MethodReturnSample<T> for MockMethodReturnSample<T> {
    fn value(&self) -> (r: &T)
        ensures
            *r == self.spec_value(),
    {
        &self.value
    }
}

} // verus!
