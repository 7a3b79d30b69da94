//! Device resolution and the transcription history.

use whisgo::devices::list_input_devices;
use whisgo::devices::resolve_device;
use whisgo::devices::DeviceError;
use whisgo::history::history_file_name;
use whisgo::history::TranscriptionHistory;
use whisgo::history::TranscriptionRecord;

fn two_devices() -> Vec<String> {
    vec!["USB Microphone".to_string(), "Line In".to_string()]
}

#[test]
fn empty_enumeration_is_refused() {
    assert_eq!(list_input_devices(Vec::new()).unwrap_err(), DeviceError::NoDevicesFound);
}

#[test]
fn nonempty_enumeration_is_indexed_in_order() {
    let descriptors = list_input_devices(two_devices()).unwrap();
    assert_eq!(descriptors.len(), 2);
    assert_eq!(descriptors[0].index, 0);
    assert_eq!(descriptors[0].name, "USB Microphone");
    assert_eq!(descriptors[1].index, 1);
    assert_eq!(descriptors[1].name, "Line In");
}

#[test]
fn missing_selection_resolves_to_default() {
    assert_eq!(resolve_device(&two_devices(), Some(1), &None), Ok(1));
}

#[test]
fn missing_selection_without_default_fails() {
    assert_eq!(resolve_device(&two_devices(), None, &None), Err(DeviceError::NoDefaultDevice));
}

#[test]
fn matching_selection_resolves_to_first_match() {
    let names = vec!["Line In".to_string(), "USB Microphone".to_string(), "Line In".to_string()];
    assert_eq!(resolve_device(&names, Some(1), &Some("Line In".to_string())), Ok(0));
}

#[test]
fn vanished_selection_falls_back_to_default() {
    assert_eq!(
        resolve_device(&two_devices(), Some(0), &Some("Unplugged Headset".to_string())),
        Ok(0)
    );
}

#[test]
fn vanished_selection_without_default_fails() {
    assert_eq!(
        resolve_device(&two_devices(), None, &Some("Unplugged Headset".to_string())),
        Err(DeviceError::NoDefaultDevice)
    );
}

fn record(filename: &str, text: &str, timestamp: u64) -> TranscriptionRecord {
    TranscriptionRecord {
        filename: filename.to_string(),
        transcription: text.to_string(),
        timestamp,
    }
}

#[test]
fn history_appends_in_order() {
    let mut h = TranscriptionHistory::new();
    assert_eq!(h.list_records().len(), 0);
    h.add_record(record("recording_1.wav", "first", 1));
    h.add_record(record("recording_2.wav", "second", 2));
    let records = h.list_records();
    assert_eq!(records.len(), 2);
    assert_eq!(records[0].transcription, "first");
    assert_eq!(records[1].transcription, "second");
    assert_eq!(records[1].timestamp, 2);
}

#[test]
fn menu_selection_is_one_based_and_bounded() {
    let mut h = TranscriptionHistory::new();
    h.add_record(record("recording_1.wav", "first", 1));
    h.add_record(record("recording_2.wav", "second", 2));
    assert!(h.select_record(0).is_none());
    assert_eq!(h.select_record(1).unwrap().filename, "recording_1.wav");
    assert_eq!(h.select_record(2).unwrap().filename, "recording_2.wav");
    assert!(h.select_record(3).is_none());
}

#[test]
fn history_file_has_the_expected_name() {
    assert_eq!(history_file_name(), "transcription_history.json");
}
