use com_api::concept::MethodReturnSample;
use com_api::mock_runtime::{
    MockConsumerBuilder, MockConsumerDiscovery, MockConsumerInfo, MockFieldPublisher, MockFieldSubscriber,
    MockMethodCaller, MockMethodHandler, MockMethodReturnSample, MockProviderInfo, MockPublisher,
    MockSubscribableImpl, RuntimeBuilderImpl, SampleConsumerDescriptor,
};
use com_api::mock_sample::{MockSample, SampleIdCounter};
use std::marker::PhantomData;

#[test]
fn runtime_builds_and_finds_nothing() {
    let runtime = RuntimeBuilderImpl::new().build().expect("build");
    let discovery = MockConsumerDiscovery::<u32>::new(&runtime, "/test_instance");
    assert_eq!(discovery.get_available_instances().unwrap().len(), 0);
    let found = runtime.find_service::<u32>("/test_instance");
    assert!(found.get_available_instances().unwrap().is_empty());
}

#[test]
fn publisher_allocates_and_writes() {
    let publisher = MockPublisher::<u32>::new();
    let sample = publisher.allocate().expect("Couldn't allocate sample");
    let sample = sample.write(42);
    assert_eq!(*sample.value(), 42);
    let mut slot = publisher.allocate().unwrap();
    slot.as_mut(7);
    assert_eq!(*slot.assume_init().value(), 7);
}

#[test]
fn subscription_keeps_newest_first() {
    let info = MockConsumerInfo { instance_specifier: "/test_instance".to_string() };
    let subscriber = MockSubscribableImpl::<u32>::new("speed".to_string(), info).ok().unwrap();
    let mut subscription = subscriber.subscribe(10).ok().unwrap();
    subscription.add_data(1);
    subscription.add_data(2);
    let back = subscription.unsubscribe();
    assert_eq!(back.identifier, "speed");
}

#[test]
fn field_publisher_and_return_sample() {
    let info = MockProviderInfo { instance_specifier: "/test_instance".to_string() };
    let publisher = MockFieldPublisher::<u8>::new("speed", &info).ok().unwrap();
    let sample = publisher.allocate().unwrap().write(3);
    assert_eq!(*sample.value(), 3);
    let ret = MockMethodReturnSample::new(5u64);
    assert_eq!(*ret.value(), 5);
}

#[test]
fn producer_builder_hands_over_instance() {
    let runtime = RuntimeBuilderImpl::new().build().expect("build");
    let builder = runtime.producer_builder::<u32>("/producer".to_string());
    let producer = builder.build(|info: MockProviderInfo| info.instance_specifier);
    assert_eq!(producer, "/producer");
}

#[test]
fn consumer_builder_hands_over_instance() {
    let builder = MockConsumerBuilder::<u32> { instance_specifier: "/consumer".to_string(), _interface: PhantomData };
    let consumer = builder.build(|info: MockConsumerInfo| info.instance_specifier.len()).unwrap();
    assert_eq!(consumer, "/consumer".len());
    let descriptor = SampleConsumerDescriptor::<u32> { _interface: PhantomData };
    let _copy = descriptor.clone();
}

#[test]
fn field_sample_and_subscription() {
    let info = MockProviderInfo { instance_specifier: "/test_instance".to_string() };
    let publisher = MockFieldPublisher::<u16>::new("speed", &info).ok().unwrap();
    let mut slot = publisher.allocate().unwrap();
    slot.as_mut(11);
    let mut sample = slot.assume_init();
    assert_eq!(*sample.value(), 11);
    sample.set(12);
    assert_eq!(*sample.value(), 12);

    let consumer_info = MockConsumerInfo { instance_specifier: "/test_instance".to_string() };
    let subscriber = MockFieldSubscriber::<u16>::new("speed".to_string(), consumer_info).ok().unwrap();
    let subscription = subscriber.subscribe(4).ok().unwrap();
    let back = subscription.unsubscribe();
    assert_eq!(back.identifier, "speed");
    assert_eq!(back.instance_info.instance_specifier, "/test_instance");
}

#[test]
fn method_handler_and_caller_create() {
    let provider = MockProviderInfo { instance_specifier: "/i".to_string() };
    let consumer = MockConsumerInfo { instance_specifier: "/i".to_string() };
    assert!(MockMethodHandler::<(u32,), u32>::new("add", &provider).is_ok());
    assert!(MockMethodCaller::<(u32,), u32>::new("add", &consumer).is_ok());
}

#[test]
fn samples_compare_by_creation_order() {
    let mut ids = SampleIdCounter::new();
    let first = MockSample::from(7u32, &mut ids);
    let second = MockSample::from(7u32, &mut ids);
    assert!(first != second);
    assert!(first < second);
    assert!(first == first);
    assert_eq!(*second.value(), 7);
}

#[test]
fn defaults_match_new() {
    let runtime = RuntimeBuilderImpl::default().build().expect("build");
    let discovery = MockConsumerDiscovery::<u32>::new(&runtime, "/test_instance");
    assert!(discovery.get_available_instances().unwrap().is_empty());
    let publisher = MockPublisher::<u32>::default();
    assert_eq!(*publisher.allocate().unwrap().write(9).value(), 9);
}
