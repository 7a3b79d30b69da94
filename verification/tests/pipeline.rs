//! The full capture pipeline: start, write blocks, stop, and the file
//! image that comes out, cross-checked against an independent WAV
//! implementation.

use std::io::Cursor;

use whisgo::recorder::AudioRecorder;
use whisgo::recorder::StopOutcome;
use whisgo::wav::SampleSink;
use whisgo::wav::WavFormat;

fn fmt_stereo() -> WavFormat {
    WavFormat { channels: 2, sample_rate: 44100 }
}

#[test]
fn start_while_recording_is_a_no_op() {
    let mut rec = AudioRecorder::new();
    assert!(rec.start_recording(fmt_stereo(), 1_700_000_000));
    let first_name = rec.current_filename.clone();
    assert!(!rec.start_recording(fmt_stereo(), 1_700_000_999));
    assert_eq!(rec.current_filename, first_name);
    assert_eq!(rec.file_name_history.len(), 1);
}

#[test]
fn stop_while_idle_returns_none_and_touches_nothing() {
    let mut rec = AudioRecorder::new();
    assert!(matches!(rec.stop_recording(true), StopOutcome::NotRecording));
    assert!(!rec.is_recording);
    assert_eq!(rec.file_name_history.len(), 0);
}

#[test]
fn full_cycle_produces_matching_header_and_data_size() {
    let mut rec = AudioRecorder::new();
    assert!(rec.start_recording(fmt_stereo(), 1_700_000_000));
    rec.write_block(&vec![0, 500_000, -500_000, 1_000_000]);
    rec.write_block(&vec![-1_000_000, 1_500_000]);
    match rec.stop_recording(true) {
        StopOutcome::Finished { filename, wav } => {
            assert_eq!(filename, "recording_1700000000.wav");
            assert_eq!(wav.len(), 44 + 2 * 6);
            assert_eq!(&wav[0..4], b"RIFF");
            assert_eq!(&wav[8..12], b"WAVE");
            assert_eq!(u16::from_le_bytes([wav[22], wav[23]]), 2);
            assert_eq!(u32::from_le_bytes([wav[24], wav[25], wav[26], wav[27]]), 44100);
            assert_eq!(u32::from_le_bytes([wav[40], wav[41], wav[42], wav[43]]), 12);

            let mut reader = hound::WavReader::new(Cursor::new(wav)).unwrap();
            let spec = reader.spec();
            assert_eq!(spec.channels, 2);
            assert_eq!(spec.sample_rate, 44100);
            assert_eq!(spec.bits_per_sample, 16);
            assert!(matches!(spec.sample_format, hound::SampleFormat::Int));
            let samples: Vec<i16> = reader.samples::<i16>().map(|s| s.unwrap()).collect();
            assert_eq!(samples, vec![0, 16384, -16384, 32767, -32767, 32767]);
        },
        _ => panic!("expected a finished recording"),
    }
}

#[test]
fn file_image_matches_independent_wav_writer() {
    let mut sink = SampleSink::new(fmt_stereo());
    sink.write_block(&vec![0, 500_000, -500_000, 1_000_000, -1_000_000, 250_000]);
    let ours = sink.finalize();

    let spec = hound::WavSpec {
        channels: 2,
        sample_rate: 44100,
        bits_per_sample: 16,
        sample_format: hound::SampleFormat::Int,
    };
    let mut theirs: Vec<u8> = Vec::new();
    {
        let cursor = Cursor::new(&mut theirs);
        let mut writer = hound::WavWriter::new(cursor, spec).unwrap();
        for s in [0i16, 16384, -16384, 32767, -32767, 8192] {
            writer.write_sample(s).unwrap();
        }
        writer.finalize().unwrap();
    }
    assert_eq!(ours, theirs);
}

#[test]
fn stop_without_exclusive_writer_leaves_file_unfinalized() {
    let mut rec = AudioRecorder::new();
    assert!(rec.start_recording(fmt_stereo(), 42));
    rec.write_block(&vec![100_000]);
    match rec.stop_recording(false) {
        StopOutcome::WriterStillShared { filename } => {
            assert_eq!(filename, "recording_42.wav");
        },
        _ => panic!("expected the writer to be reported as still shared"),
    }
    assert!(!rec.is_recording);
    assert_eq!(rec.file_name_history.len(), 1);
}

#[test]
fn writes_after_deactivation_are_excluded_whole() {
    let mut sink = SampleSink::new(fmt_stereo());
    sink.write_block(&vec![100_000, 200_000]);
    sink.deactivate();
    sink.write_block(&vec![300_000, 400_000]);
    let bytes = sink.finalize();
    // Only the first block's two samples made it into the file.
    assert_eq!(bytes.len(), 44 + 2 * 2);
    assert_eq!(u32::from_le_bytes([bytes[40], bytes[41], bytes[42], bytes[43]]), 4);
}

#[test]
fn writes_after_stop_land_nowhere() {
    let mut rec = AudioRecorder::new();
    assert!(rec.start_recording(fmt_stereo(), 7));
    rec.write_block(&vec![100_000]);
    let stopped = rec.stop_recording(true);
    assert!(matches!(stopped, StopOutcome::Finished { .. }));
    rec.write_block(&vec![200_000]);
    assert!(!rec.is_recording);
    assert!(rec.writer.is_none());
}

#[test]
fn toggle_runs_a_whole_session() {
    let mut rec = AudioRecorder::new();
    assert!(rec.toggle_recording(fmt_stereo(), 1000, true).is_none());
    assert!(rec.is_recording);
    rec.write_block(&vec![500_000]);
    let finished = rec.toggle_recording(fmt_stereo(), 2000, true).unwrap();
    assert_eq!(finished.filename, "recording_1000.wav");
    assert_eq!(finished.wav.len(), 44 + 2);
    assert!(!rec.is_recording);
}

#[test]
fn toggle_stop_with_shared_writer_yields_nothing() {
    let mut rec = AudioRecorder::new();
    assert!(rec.toggle_recording(fmt_stereo(), 1, true).is_none());
    assert!(rec.toggle_recording(fmt_stereo(), 2, false).is_none());
    assert!(!rec.is_recording);
}

#[test]
fn abort_start_returns_to_idle_and_forgets_the_name() {
    let mut rec = AudioRecorder::new();
    assert!(rec.start_recording(fmt_stereo(), 5));
    assert_eq!(rec.file_name_history.len(), 1);
    rec.abort_start();
    assert!(!rec.is_recording);
    assert_eq!(rec.file_name_history.len(), 0);
}

#[test]
fn empty_recording_is_a_bare_header() {
    let mut rec = AudioRecorder::new();
    assert!(rec.start_recording(WavFormat { channels: 1, sample_rate: 8000 }, 0));
    match rec.stop_recording(true) {
        StopOutcome::Finished { filename, wav } => {
            assert_eq!(filename, "recording_0.wav");
            assert_eq!(wav.len(), 44);
            let reader = hound::WavReader::new(Cursor::new(wav)).unwrap();
            assert_eq!(reader.spec().channels, 1);
            assert_eq!(reader.spec().sample_rate, 8000);
            assert_eq!(reader.len(), 0);
        },
        _ => panic!("expected a finished recording"),
    }
}
