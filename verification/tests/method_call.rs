use com_api::args_layout::{args_layout, read_args, write_args, FieldLayout};
use com_api::concept::{Error, MethodInArgAllocator, MethodInArgMaybeUninit, MethodReturnSample};
use com_api::lola_method::{
    dispatch_method_call, is_void, LolaMethodCaller, LolaMethodHandler, LolaMethodInArgAllocator, LolaMethodInArgPtr,
    LolaMethodReturnSample, MethodSignature,
};
use com_api::method_call::{CallAction, CallEvent, MethodCall, MethodFailedReason};

const PROXY: u64 = 40;

const I32: FieldLayout = FieldLayout { size: 4, align: 4 };

/// Plays the transport: answers each action of `call` against the given buffers, running
/// `skeleton` on `DoCall`, until the call finishes.
fn drive<S: FnMut(&[u8], &mut Option<Vec<u8>>) -> bool>(
    mut call: MethodCall,
    mut action: CallAction,
    in_args: &mut Option<Vec<u8>>,
    ret: &mut Option<Vec<u8>>,
    fields: &[FieldLayout],
    args: &Vec<Vec<u8>>,
    mut skeleton: S,
    trace: &mut Vec<CallAction>,
) -> Result<Option<Vec<u8>>, MethodFailedReason> {
    let mut returned = None;
    loop {
        trace.push(action);
        let ev = match action {
            CallAction::GetInArgsBuffer => CallEvent::InArgsBuffer(in_args.as_ref().map(|b| b.len())),
            CallAction::WriteArgs => {
                write_args(in_args.as_mut().unwrap(), fields, args);
                CallEvent::ArgsWritten
            }
            CallAction::GetReturnBuffer => CallEvent::ReturnBuffer(ret.is_some()),
            CallAction::DoCall => {
                let empty = Vec::new();
                let buf = in_args.as_ref().unwrap_or(&empty);
                CallEvent::CallCompleted(skeleton(buf, ret))
            }
            CallAction::ReadReturnValue => {
                returned = ret.clone();
                CallEvent::ReturnValueRead
            }
            CallAction::Finish(r) => return r.map(|_| returned),
        };
        action = call.on_event(ev);
    }
}

fn doubling_handler(args: &Vec<Vec<u8>>) -> Vec<u8> {
    let v = i32::from_ne_bytes(args[0].clone().try_into().unwrap());
    (v * 2).to_ne_bytes().to_vec()
}

#[test]
fn test_method_call_round_trip_copy_path() {
    let sig = MethodSignature { args: vec![I32], ret: Some(I32) };
    let caller = LolaMethodCaller::new(true, Ok(PROXY), Some(1), sig).result.expect("binding resolved");
    let fields = vec![I32];
    let in_args_size = args_layout(&fields).0;
    let mut in_args = Some(vec![0u8; in_args_size]);
    let mut ret = Some(vec![0u8; 4]);
    let args = vec![21i32.to_ne_bytes().to_vec()];
    let (call, first) = caller.invoke_with_copy();
    let mut trace = Vec::new();
    let skeleton = |buf: &[u8], ret: &mut Option<Vec<u8>>| {
        dispatch_method_call(&doubling_handler, &fields, Some(buf), ret);
        true
    };
    let value = drive(call, first, &mut in_args, &mut ret, &fields, &args, skeleton, &mut trace)
        .expect("invoke_with_copy should succeed with a fully-mocked FFI round trip")
        .expect("a value-returning method reads its return value");
    let sample = LolaMethodReturnSample::new(i32::from_ne_bytes(value.try_into().unwrap()));
    assert_eq!(*sample.value(), 42);
    assert_eq!(
        trace,
        vec![
            CallAction::GetInArgsBuffer,
            CallAction::WriteArgs,
            CallAction::GetReturnBuffer,
            CallAction::DoCall,
            CallAction::ReadReturnValue,
            CallAction::Finish(Ok(())),
        ]
    );
}

#[test]
fn missing_in_args_buffer_fails_before_the_call() {
    let sig = MethodSignature { args: vec![I32], ret: Some(I32) };
    let caller = LolaMethodCaller::new(true, Ok(PROXY), Some(1), sig).result.unwrap();
    let (mut call, first) = caller.invoke_with_copy();
    assert_eq!(first, CallAction::GetInArgsBuffer);
    assert_eq!(
        call.on_event(CallEvent::InArgsBuffer(None)),
        CallAction::Finish(Err(MethodFailedReason::InArgsBufferUnavailable))
    );
}

#[test]
fn missing_return_buffer_fails_before_the_call() {
    let (mut call, first) = MethodCall::start_zero_copy(false);
    assert_eq!(first, CallAction::GetReturnBuffer);
    assert_eq!(
        call.on_event(CallEvent::ReturnBuffer(false)),
        CallAction::Finish(Err(MethodFailedReason::ReturnValueBufferUnavailable))
    );
}

#[test]
fn failed_call_reports_call_failed() {
    let (mut call, first) = MethodCall::start_copy(0, true);
    assert_eq!(first, CallAction::DoCall);
    assert_eq!(call.on_event(CallEvent::CallCompleted(false)), CallAction::Finish(Err(MethodFailedReason::CallFailed)));
}

#[test]
fn void_method_without_arguments_only_calls() {
    let sig = MethodSignature { args: vec![], ret: None };
    assert!(is_void(&sig));
    let caller = LolaMethodCaller::new(true, Ok(PROXY), Some(3), sig).result.unwrap();
    let (mut call, first) = caller.invoke_with_copy();
    assert_eq!(first, CallAction::DoCall);
    assert_eq!(call.on_event(CallEvent::CallCompleted(true)), CallAction::Finish(Ok(())));
}

#[test]
fn caller_creation_errors() {
    let sig = || MethodSignature { args: vec![], ret: None };
    let no_handle = LolaMethodCaller::new(false, Ok(PROXY), Some(1), sig());
    assert!(matches!(
        no_handle.result,
        Err(Error::ConsumerError(com_api::concept::ConsumerFailedReason::ServiceHandleNotFound))
    ));
    assert_eq!(no_handle.destroy_proxy, None);
    let no_proxy = LolaMethodCaller::new(true, Err(Error::MethodError(MethodFailedReason::CallFailed)), Some(1), sig());
    assert!(matches!(no_proxy.result, Err(Error::MethodError(MethodFailedReason::CallFailed))));
    assert_eq!(no_proxy.destroy_proxy, None);
    let no_binding = LolaMethodCaller::new(true, Ok(PROXY), None, sig());
    assert!(matches!(
        no_binding.result,
        Err(Error::MethodError(MethodFailedReason::MethodCallerCreationFailed))
    ));
    assert_eq!(no_binding.destroy_proxy, Some(PROXY));
    let created = LolaMethodCaller::new(true, Ok(PROXY), Some(1), sig());
    assert!(created.result.is_ok());
    assert_eq!(created.destroy_proxy, None);
    assert!(matches!(
        LolaMethodHandler::new(None),
        Err(Error::MethodError(MethodFailedReason::MethodHandlerCreationFailed))
    ));
    assert!(LolaMethodHandler::new(Some(5)).is_ok());
}

#[test]
fn layout_follows_sequential_natural_alignment() {
    let fields = vec![
        FieldLayout { size: 1, align: 1 },
        FieldLayout { size: 4, align: 4 },
        FieldLayout { size: 2, align: 2 },
    ];
    assert_eq!(args_layout(&fields), (12, 4));
    assert_eq!(args_layout(&[]), (0, 0));
    assert_eq!(args_layout(&[FieldLayout { size: 16, align: 1 }, I32]), (20, 4));
    assert_eq!(args_layout(&[FieldLayout { size: 3, align: 1 }]), (3, 1));
    assert_eq!(args_layout(&[FieldLayout { size: 8, align: 8 }, FieldLayout { size: 1, align: 1 }]), (16, 8));
}

#[test]
fn read_gives_back_what_write_wrote() {
    let fields = vec![
        FieldLayout { size: 1, align: 1 },
        FieldLayout { size: 4, align: 4 },
        FieldLayout { size: 2, align: 2 },
    ];
    let values = vec![vec![9u8], vec![1, 2, 3, 4], vec![5, 6]];
    let mut buf = vec![0xEEu8; 12];
    write_args(&mut buf, &fields, &values);
    assert_eq!(buf, vec![9, 0xEE, 0xEE, 0xEE, 1, 2, 3, 4, 5, 6, 0xEE, 0xEE]);
    assert_eq!(read_args(&buf, &fields), values);
}

#[test]
fn zero_copy_slots_sit_where_the_copy_path_writes() {
    let fields = vec![
        FieldLayout { size: 1, align: 1 },
        FieldLayout { size: 4, align: 4 },
        FieldLayout { size: 2, align: 2 },
    ];
    let caller = LolaMethodCaller::new(true, Ok(PROXY), Some(1), MethodSignature { args: fields.clone(), ret: None }).result.unwrap();
    assert!(caller.allocate_needs_buffer());
    assert!(matches!(
        caller.allocate(None),
        Err(Error::MethodError(MethodFailedReason::InArgsBufferUnavailable))
    ));
    let slots = caller.allocate(Some(12)).unwrap();
    let offsets: Vec<usize> = slots.iter().map(|s| s.offset).collect();
    assert_eq!(offsets, vec![0, 4, 8]);
    let values = vec![vec![9u8], vec![1, 2, 3, 4], vec![5, 6]];
    let mut zero_copy = vec![0u8; 12];
    for (slot, v) in slots.into_iter().zip(values.iter()) {
        slot.write(&mut zero_copy, v);
    }
    let mut copy = vec![0u8; 12];
    write_args(&mut copy, &fields, &values);
    assert_eq!(zero_copy, copy);
    let (call, first) = caller.invoke_zero_copy();
    assert_eq!(first, CallAction::DoCall);
    assert_eq!(call.args_size, 0);
}

#[test]
fn allocation_without_argument_bytes_needs_no_buffer() {
    let caller = LolaMethodCaller::new(true, Ok(PROXY), Some(1), MethodSignature { args: vec![], ret: Some(I32) }).result.unwrap();
    assert!(!caller.allocate_needs_buffer());
    assert_eq!(caller.allocate(None).unwrap().len(), 0);
}

#[test]
fn void_handler_call_writes_no_return_value() {
    let mut ret: Option<Vec<u8>> = None;
    let handler = |_args: &Vec<Vec<u8>>| Vec::new();
    let result = dispatch_method_call(&handler, &[], None, &mut ret);
    assert!(result.is_empty());
    assert!(ret.is_none());
}

#[test]
fn allocator_aligns_each_slot_after_the_previous_one() {
    let mut allocator = LolaMethodInArgAllocator::new(24);
    let a = allocator.allocate(FieldLayout { size: 1, align: 1 });
    let b = allocator.allocate(FieldLayout { size: 8, align: 8 });
    let c = allocator.allocate(FieldLayout { size: 2, align: 2 });
    assert_eq!((a.offset, a.size), (0, 1));
    assert_eq!((b.offset, b.size), (8, 8));
    assert_eq!((c.offset, c.size), (16, 2));
    let ptr = c.assume_init();
    assert_eq!(ptr.0, LolaMethodInArgPtr { offset: 16, size: 2 });
    let mut buf = vec![0u8; 24];
    let written = b.write(&mut buf, &[1, 2, 3, 4, 5, 6, 7, 8]);
    assert_eq!(written.0, LolaMethodInArgPtr { offset: 8, size: 8 });
    assert_eq!(&buf[8..16], &[1, 2, 3, 4, 5, 6, 7, 8]);
    assert!(buf[..8].iter().chain(buf[16..].iter()).all(|&x| x == 0));
}
