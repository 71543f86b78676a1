use opencarpanel::plugin::guest::{frame_output, prepare_output, result_code, DecodeResult};
use opencarpanel::plugin::runtime::PluginDecodeOutput;
use opencarpanel::telemetry::state::TelemetryUpdate;

fn empty_output() -> PluginDecodeOutput {
    PluginDecodeOutput { schema_version: 0, updates: Vec::new(), events: Vec::new() }
}

#[test]
fn encodes_recognized_and_control_results_without_allocation_contract_leaks() {
    let mut output = vec![0_u8; 1_024];
    assert_eq!(result_code(&DecodeResult::Unrecognized), Some(0));
    assert_eq!(result_code(&DecodeResult::Invalid), Some(-1));
    assert_eq!(result_code(&DecodeResult::Recognized(empty_output())), None);
    let prepared = prepare_output(empty_output()).expect("within bounds");
    assert_eq!(prepared.schema_version, 1);
    let encoded = format!(
        "{{\"schemaVersion\":{},\"updates\":[],\"events\":[]}}",
        prepared.schema_version
    )
    .into_bytes();
    let length = frame_output(Some(&encoded), &mut output);
    assert!(length > 0);
    let value: serde_json::Value =
        serde_json::from_slice(&output[..usize::try_from(length).unwrap_or_default()]).unwrap_or_default();
    assert_eq!(value["schemaVersion"], 1);
}

#[test]
fn oversized_or_unserializable_responses_get_negative_codes() {
    let too_many = PluginDecodeOutput {
        schema_version: 7,
        updates: (0..9).map(|_| TelemetryUpdate::default()).collect(),
        events: Vec::new(),
    };
    assert_eq!(prepare_output(too_many).err(), Some(-2));
    let mut small = vec![9_u8; 4];
    assert_eq!(frame_output(None, &mut small), -3);
    assert_eq!(frame_output(Some(b"12345"), &mut small), -4);
    assert_eq!(small, vec![9, 9, 9, 9]);
    assert_eq!(frame_output(Some(b"ab"), &mut small), 2);
    assert_eq!(small, vec![b'a', b'b', 9, 9]);
}
