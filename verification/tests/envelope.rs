use com_api::args_layout::{args_layout, read_args, write_args, FieldLayout};
use com_api::envelope::{
    check_header, handle_protected_request, header_counter, protect_header, E2ECheckError, ProtectedCallState,
};
use com_api::lola_method::{dispatch_method_call, LolaMethodCaller, MethodSignature};
use com_api::method_call::{CallAction, CallEvent, MethodFailedReason};

const PROXY: u64 = 40;

const E2E_TEST_DATA_ID: u32 = 0x0a0b0c0d;

/// A 16-byte header followed by an `i32`, as one argument of 20 bytes aligned to 4.
const PROTECTED: FieldLayout = FieldLayout { size: 20, align: 4 };

fn split(bytes: &[u8]) -> ([u8; 16], Vec<u8>) {
    let mut header = [0u8; 16];
    header.copy_from_slice(&bytes[0..16]);
    (header, bytes[16..].to_vec())
}

fn join(header: &[u8; 16], payload: &[u8]) -> Vec<u8> {
    let mut v = header.to_vec();
    v.extend_from_slice(payload);
    v
}

fn value_of(payload: &[u8]) -> i32 {
    i32::from_ne_bytes(payload.try_into().unwrap())
}

/// Runs one copy-path call of a method taking and returning a protected value, with
/// `skeleton` playing the handler on `DoCall`.
fn call_protected<S: FnMut(&mut Vec<u8>, &mut Option<Vec<u8>>) -> bool>(
    request: Vec<u8>,
    mut skeleton: S,
) -> Result<Vec<u8>, MethodFailedReason> {
    let fields = vec![PROTECTED];
    let caller = LolaMethodCaller::new(true, Ok(PROXY), Some(7), MethodSignature { args: fields.clone(), ret: Some(PROTECTED) })
        .result.expect("mock binding allocation should not fail");
    let mut in_args = vec![0u8; args_layout(&fields).0];
    let mut ret = Some(vec![0u8; 20]);
    let (mut call, mut action) = caller.invoke_with_copy();
    let mut returned = Vec::new();
    loop {
        let ev = match action {
            CallAction::GetInArgsBuffer => CallEvent::InArgsBuffer(Some(in_args.len())),
            CallAction::WriteArgs => {
                write_args(&mut in_args, &fields, &vec![request.clone()]);
                CallEvent::ArgsWritten
            }
            CallAction::GetReturnBuffer => CallEvent::ReturnBuffer(true),
            CallAction::DoCall => CallEvent::CallCompleted(skeleton(&mut in_args, &mut ret)),
            CallAction::ReadReturnValue => {
                returned = ret.clone().unwrap();
                CallEvent::ReturnValueRead
            }
            CallAction::Finish(r) => return r.map(|_| returned),
        };
        action = call.on_event(ev);
    }
}

#[test]
fn test_method_call_with_e2e_protection_round_trip() {
    let request_value: i32 = 21;
    let request_counter: u16 = 0;
    let request_header = protect_header(E2E_TEST_DATA_ID, request_counter, false, &request_value.to_be_bytes());
    let request = join(&request_header, &request_value.to_ne_bytes());

    let response = call_protected(request, |in_args, ret| {
        let arg = read_args(in_args, &[PROTECTED]).remove(0);
        let (header, payload) = split(&arg);
        let value = value_of(&payload);
        let counter = check_header(&header, &value.to_be_bytes(), E2E_TEST_DATA_ID)
            .expect("request should check out - it was never corrupted in this test");
        let result_value = value * 2;
        let response_header = protect_header(E2E_TEST_DATA_ID, counter, true, &result_value.to_be_bytes());
        let handler = |_a: &Vec<Vec<u8>>| join(&response_header, &result_value.to_ne_bytes());
        dispatch_method_call(&handler, &[PROTECTED], Some(in_args), ret);
        true
    })
    .expect("invoke_with_copy should succeed with a fully-mocked FFI round trip");

    let (header, payload) = split(&response);
    let value = value_of(&payload);
    assert_eq!(value, 42);
    check_header(&header, &value.to_be_bytes(), E2E_TEST_DATA_ID)
        .expect("response should check out - the real end-to-end path protected it correctly");
}

#[test]
fn test_method_call_with_e2e_protection_catches_corruption() {
    let request_value: i32 = 21;
    let request_header = protect_header(E2E_TEST_DATA_ID, 0, false, &request_value.to_be_bytes());
    let request = join(&request_header, &request_value.to_ne_bytes());

    let result = call_protected(request, |in_args, _ret| {
        in_args[16 + 3] ^= 0xFF;
        let arg = read_args(in_args, &[PROTECTED]).remove(0);
        let (header, payload) = split(&arg);
        let check_result = check_header(&header, &value_of(&payload).to_be_bytes(), E2E_TEST_DATA_ID);
        assert_eq!(
            check_result,
            Err(E2ECheckError::WrongCrc),
            "corrupted request should be rejected by check(), not silently processed"
        );
        false
    });
    assert!(result.is_err(), "the call should fail (CallFailed) since the mocked handler rejected it");
    assert_eq!(result, Err(MethodFailedReason::CallFailed));
}

#[test]
fn test_protected_method_caller_generic_round_trip() {
    let mut caller = ProtectedCallState::new(E2E_TEST_DATA_ID);
    let args = 21i32.to_ne_bytes();
    let header = caller.protect_request(&args);
    let request = join(&header, &args);

    let response = call_protected(request, |in_args, ret| {
        let wrapped = read_args(in_args, &[PROTECTED]).remove(0);
        let (header, payload) = split(&wrapped);
        let answer = match check_header(&header, &payload, E2E_TEST_DATA_ID) {
            Ok(_) => {
                let result = (value_of(&payload) * 2).to_ne_bytes();
                join(&protect_header(E2E_TEST_DATA_ID, header_counter(&header), true, &result), &result)
            }
            Err(_) => vec![0u8; 20],
        };
        let handler = |_a: &Vec<Vec<u8>>| answer.clone();
        dispatch_method_call(&handler, &[PROTECTED], Some(in_args), ret);
        true
    })
    .expect("protected call should succeed");

    let (header, payload) = split(&response);
    assert_eq!(caller.accept_reply(&header, &payload), Ok(()));
    assert_eq!(value_of(&payload), 42);
    assert_eq!(header_counter(&header), 0);
}

#[test]
fn test_protected_method_caller_generic_catches_corruption() {
    let mut caller = ProtectedCallState::new(E2E_TEST_DATA_ID);
    let args = 21i32.to_ne_bytes();
    let header = caller.protect_request(&args);
    let request = join(&header, &args);

    let result = call_protected(request, |in_args, _ret| {
        in_args[16] ^= 0xFF;
        let wrapped = read_args(in_args, &[PROTECTED]).remove(0);
        let (header, payload) = split(&wrapped);
        assert_eq!(
            check_header(&header, &payload, E2E_TEST_DATA_ID),
            Err(E2ECheckError::WrongCrc),
            "corrupted request should be rejected, not silently processed"
        );
        false
    });
    assert!(result.is_err(), "the call should fail since the mocked handler rejected the corrupted request");
}

#[test]
fn test_protected_method_handler_generic_round_trip() {
    let args = 21i32.to_ne_bytes();
    let request_header = protect_header(E2E_TEST_DATA_ID, 0, false, &args);
    let handler = |payload: &[u8]| (value_of(payload) * 2).to_ne_bytes().to_vec();
    let (response_header, response) = handle_protected_request(E2E_TEST_DATA_ID, &request_header, &args, &handler, 4);
    let counter = check_header(&response_header, &response, E2E_TEST_DATA_ID).expect("response header should check out");
    assert_eq!(counter, 0);
    assert_eq!(value_of(&response), 42);
}

#[test]
fn refused_request_is_answered_with_a_zero_header() {
    let args = 21i32.to_ne_bytes();
    let mut request_header = protect_header(E2E_TEST_DATA_ID, 3, false, &args);
    request_header[9] ^= 0x10;
    let handler = |payload: &[u8]| payload.to_vec();
    let (response_header, response) = handle_protected_request(E2E_TEST_DATA_ID, &request_header, &args, &handler, 4);
    assert_eq!(response_header, [0u8; 16]);
    assert_eq!(response, vec![0u8; 4]);
    assert_eq!(check_header(&response_header, &response, E2E_TEST_DATA_ID), Err(E2ECheckError::WrongDataId));
}

#[test]
fn caller_counter_advances_and_wraps() {
    let mut caller = ProtectedCallState::new(1);
    let h0 = caller.protect_request(&[]);
    let h1 = caller.protect_request(&[]);
    assert_eq!(header_counter(&h0), 0);
    assert_eq!(header_counter(&h1), 1);
    for _ in 2..65536u32 {
        caller.protect_request(&[]);
    }
    let wrapped = caller.protect_request(&[]);
    assert_eq!(header_counter(&wrapped), 0);
}

#[test]
fn envelope_wrong_data_id() {
    let h = protect_header(1, 0, false, b"p");
    assert_eq!(check_header(&h, b"p", 2), Err(E2ECheckError::WrongDataId));
    assert_eq!(check_header(&h, b"q", 1), Err(E2ECheckError::WrongCrc));
    assert_eq!(check_header(&h, b"p", 1), Ok(0));
}

#[test]
fn reply_failing_its_check_is_a_failed_call() {
    let caller = ProtectedCallState::new(5);
    let h = protect_header(5, 0, true, b"ok");
    assert_eq!(caller.accept_reply(&h, b"ok"), Ok(()));
    assert_eq!(caller.accept_reply(&h, b"no"), Err(MethodFailedReason::CallFailed));
}
