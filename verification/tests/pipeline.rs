use gpu_readback::codec::decode_result;
use gpu_readback::commands::{encode, Command};
use gpu_readback::errors::gpu_error;
use gpu_readback::resources::{binding_plan, device_buffer_plan, host_buffer_plan};
use gpu_readback::session::{Session, Stage};

fn run_to_mapped(session: &mut Session) {
    session
        .adapter_result(Some(String::from("Test Adapter")))
        .unwrap();
    session.device_result(Ok(())).unwrap();
    session.resources_result(Ok(())).unwrap();
    let _commands = session.record();
    session.submitted();
    session.map_requested();
    session.completion(Some(Ok(()))).unwrap();
}

fn run_to_finished(bytes: &Vec<u8>) -> u32 {
    let mut session = Session::new();
    run_to_mapped(&mut session);
    let result = session.read_mapped(bytes);
    session.unmapped();
    assert_eq!(session.result(), result);
    result
}

#[test]
fn decodes_forty_two() {
    let bytes: Vec<u8> = vec![0x2A, 0x00, 0x00, 0x00];
    assert_eq!(decode_result(&bytes), 42);
}

#[test]
fn decodes_sentinel() {
    let bytes: Vec<u8> = vec![0xEF, 0xBE, 0xAD, 0xDE];
    assert_eq!(decode_result(&bytes), 0xDEADBEEF);
}

#[test]
fn decodes_zero_and_max() {
    assert_eq!(decode_result(&vec![0, 0, 0, 0]), 0);
    assert_eq!(decode_result(&vec![0xFF, 0xFF, 0xFF, 0xFF]), u32::MAX);
}

#[test]
fn buffers_are_exactly_four_bytes() {
    let device = device_buffer_plan();
    let host = host_buffer_plan();
    assert_eq!(device.size, 4);
    assert_eq!(host.size, 4);
}

#[test]
fn device_buffer_capabilities() {
    let device = device_buffer_plan();
    assert!(device.storage);
    assert!(device.copy_src);
    assert!(!device.map_read);
    assert!(!device.copy_dst);
    assert!(!device.mapped_at_creation);
}

#[test]
fn host_buffer_capabilities() {
    let host = host_buffer_plan();
    assert!(host.map_read);
    assert!(host.copy_dst);
    assert!(!host.storage);
    assert!(!host.copy_src);
    assert!(!host.mapped_at_creation);
}

#[test]
fn binding_is_single_slot_main() {
    let binding = binding_plan();
    assert_eq!(binding.group, 0);
    assert_eq!(binding.slot, 0);
    assert_eq!(binding.entry_point, "main");
}

#[test]
fn encode_records_the_fixed_sequence() {
    let sequence = encode();
    let expected = vec![
        Command::BeginComputePass,
        Command::SetPipeline,
        Command::SetBindGroup { group: 0 },
        Command::DispatchWorkgroups { x: 1, y: 1, z: 1 },
        Command::EndComputePass,
        Command::CopyBufferToBuffer {
            src_offset: 0,
            dst_offset: 0,
            size: 4,
        },
    ];
    assert_eq!(sequence.commands(), &expected);
}

#[test]
fn encode_orders_copy_after_dispatch() {
    let sequence = encode();
    let commands = sequence.commands();
    let dispatch_at = commands
        .iter()
        .position(|c| matches!(c, Command::DispatchWorkgroups { .. }))
        .unwrap();
    let copy_at = commands
        .iter()
        .position(|c| matches!(c, Command::CopyBufferToBuffer { .. }))
        .unwrap();
    assert!(dispatch_at < copy_at);
}

#[test]
fn gpu_error_keeps_its_message() {
    let error = gpu_error("no adapter found");
    assert_eq!(error.message(), "no adapter found");
}

#[test]
fn full_run_reports_the_mapped_scalar() {
    let result = run_to_finished(&vec![0x2A, 0x00, 0x00, 0x00]);
    assert_eq!(result, 42);
}

#[test]
fn repeated_runs_are_deterministic() {
    let bytes: Vec<u8> = vec![0xEF, 0xBE, 0xAD, 0xDE];
    let first = run_to_finished(&bytes);
    let second = run_to_finished(&bytes);
    assert_eq!(first, second);
    assert_eq!(first, 0xDEADBEEF);
}

#[test]
fn stages_advance_in_order() {
    let mut session = Session::new();
    assert_eq!(session.stage(), Stage::Negotiating);
    session.adapter_result(Some(String::from("A"))).unwrap();
    assert_eq!(session.stage(), Stage::AdapterReady);
    session.device_result(Ok(())).unwrap();
    assert_eq!(session.stage(), Stage::DeviceReady);
    session.resources_result(Ok(())).unwrap();
    assert_eq!(session.stage(), Stage::ResourcesReady);
    let _commands = session.record();
    assert_eq!(session.stage(), Stage::Encoded);
    session.submitted();
    assert_eq!(session.stage(), Stage::Submitted);
    session.map_requested();
    assert_eq!(session.stage(), Stage::MapPending);
    session.completion(Some(Ok(()))).unwrap();
    assert_eq!(session.stage(), Stage::Mapped);
    let bytes: Vec<u8> = vec![7, 0, 0, 0];
    assert_eq!(session.read_mapped(&bytes), 7);
    assert_eq!(session.stage(), Stage::ResultRead);
    session.unmapped();
    assert_eq!(session.stage(), Stage::Finished);
    assert_eq!(session.result(), 7);
}

#[test]
fn adapter_name_is_recorded() {
    let mut session = Session::new();
    session
        .adapter_result(Some(String::from("Test Adapter")))
        .unwrap();
    assert_eq!(session.adapter_name(), "Test Adapter");
}

#[test]
fn no_adapter_fails_without_result() {
    let mut session = Session::new();
    let error = session.adapter_result(None).unwrap_err();
    assert_eq!(error.message(), "no adapter found");
    assert_eq!(session.stage(), Stage::Failed);
}

#[test]
fn device_rejection_propagates_its_reason() {
    let mut session = Session::new();
    session.adapter_result(Some(String::from("A"))).unwrap();
    let error = session
        .device_result(Err(String::from("feature set unsupported")))
        .unwrap_err();
    assert_eq!(error.message(), "feature set unsupported");
    assert_eq!(session.stage(), Stage::Failed);
}

#[test]
fn compile_failure_propagates_its_diagnostics() {
    let mut session = Session::new();
    session.adapter_result(Some(String::from("A"))).unwrap();
    session.device_result(Ok(())).unwrap();
    let error = session
        .resources_result(Err(String::from("shader parse error")))
        .unwrap_err();
    assert_eq!(error.message(), "shader parse error");
    assert_eq!(session.stage(), Stage::Failed);
}

#[test]
fn lost_completion_channel_fails() {
    let mut session = Session::new();
    session.adapter_result(Some(String::from("A"))).unwrap();
    session.device_result(Ok(())).unwrap();
    session.resources_result(Ok(())).unwrap();
    let _commands = session.record();
    session.submitted();
    session.map_requested();
    let error = session.completion(None).unwrap_err();
    assert_eq!(error.message(), "failed to run shader on GPU");
    assert_eq!(session.stage(), Stage::Failed);
}

#[test]
fn explicit_map_failure_propagates_its_payload() {
    let mut session = Session::new();
    session.adapter_result(Some(String::from("A"))).unwrap();
    session.device_result(Ok(())).unwrap();
    session.resources_result(Ok(())).unwrap();
    let _commands = session.record();
    session.submitted();
    session.map_requested();
    let error = session
        .completion(Some(Err(String::from("validation failed"))))
        .unwrap_err();
    assert_eq!(error.message(), "validation failed");
    assert_eq!(session.stage(), Stage::Failed);
}
