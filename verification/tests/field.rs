use com_api::args_layout::{args_layout, write_args, FieldLayout};
use com_api::concept::{Error, EventFailedReason};
use com_api::field_publisher::{
    dispatch_get_handler, dispatch_set_handler, get_method_name, set_method_name, LolaFieldPublisher,
    LolaFieldSampleMaybeUninit, NotifierAction,
};
use com_api::lola_method::{LolaFieldGetCaller, LolaFieldSetCaller};
use com_api::method_call::MethodFailedReason;

const PROXY: u64 = 40;

const I32: FieldLayout = FieldLayout { size: 4, align: 4 };

fn value_of(bytes: &[u8]) -> i32 {
    i32::from_ne_bytes(bytes[0..4].try_into().unwrap())
}

#[test]
fn test_field_get_set_round_trip() {
    let publisher = LolaFieldPublisher::new(false, Some(11), Some(10));

    // Set round trip: consumer calls set_{name}(10), handler adds 1, returns 11.
    let set_binding = publisher.register_set_handler().expect("register_set_handler should have registered a handler");
    assert_eq!(set_binding, 10);
    let in_args_size = args_layout(&[I32]).0;
    let mut set_in_buf = vec![0u8; in_args_size];
    write_args(&mut set_in_buf, &[I32], &vec![10i32.to_ne_bytes().to_vec()]);
    let mut set_return_buf = Some(vec![0u8; 4]);
    let add_one = |v: Vec<u8>| (value_of(&v) + 1).to_ne_bytes().to_vec();
    dispatch_set_handler(&add_one, I32, &set_in_buf, &mut set_return_buf);
    assert_eq!(value_of(&set_return_buf.unwrap()), 11);

    // Get round trip: consumer calls get_{name}(), handler returns a fixed value.
    let get_binding = publisher.register_get_handler().expect("register_get_handler should have registered a handler");
    assert_eq!(get_binding, 11);
    let mut get_return_buf = Some(vec![0u8; 4]);
    let fixed = || 99i32.to_ne_bytes().to_vec();
    dispatch_get_handler(&fixed, &mut get_return_buf);
    assert_eq!(value_of(&get_return_buf.unwrap()), 99);
}

#[test]
fn member_names_of_field_accessors() {
    assert_eq!(get_method_name("speed"), "speed_get");
    assert_eq!(set_method_name("speed"), "speed_set");
}

#[test]
fn missing_pieces_are_reported_not_fatal() {
    let not_available = Error::EventError(EventFailedReason::EventNotAvailable);
    let bare = LolaFieldPublisher::new(false, None, None);
    assert_eq!(bare.update(vec![1, 2]), NotifierAction::Fail(not_available));
    assert_eq!(bare.update_outcome(Ok(())), Err(not_available));
    assert_eq!(bare.allocate(), NotifierAction::Fail(not_available));
    assert_eq!(bare.allocate_outcome(Ok(5u8)), Err(not_available));
    assert_eq!(bare.register_set_handler(), None);
    assert_eq!(bare.register_get_handler(), None);
}

#[test]
fn notifier_outcomes_are_passed_on() {
    let refused = Error::MethodError(MethodFailedReason::CallFailed);
    let notifying = LolaFieldPublisher::new(true, None, None);
    assert_eq!(notifying.update(vec![1, 2]), NotifierAction::Send(vec![1, 2]));
    assert_eq!(notifying.update_outcome(Ok(())), Ok(()));
    assert_eq!(notifying.update_outcome(Err(refused)), Err(refused));
    assert_eq!(notifying.allocate(), NotifierAction::Allocate);
    assert_eq!(notifying.allocate_outcome(Ok(5u8)), Ok(LolaFieldSampleMaybeUninit { inner: 5u8 }));
    assert_eq!(notifying.allocate_outcome::<u8>(Err(refused)), Err(refused));
}

#[test]
fn field_callers_have_method_signatures() {
    let get = LolaFieldGetCaller::new(true, Ok(PROXY), Some(1), I32).result.unwrap();
    assert!(!get.inner.allocate_needs_buffer());
    let set = LolaFieldSetCaller::new(true, Ok(PROXY), Some(2), I32).result.unwrap();
    assert!(set.inner.allocate_needs_buffer());
    assert!(LolaFieldSetCaller::new(false, Ok(PROXY), Some(2), I32).result.is_err());
}

#[test]
fn set_handler_without_return_buffer_writes_nothing() {
    let mut ret: Option<Vec<u8>> = None;
    let identity = |v: Vec<u8>| v;
    let out = dispatch_set_handler(&identity, I32, &7i32.to_ne_bytes(), &mut ret);
    assert_eq!(value_of(&out), 7);
    assert!(ret.is_none());
}
