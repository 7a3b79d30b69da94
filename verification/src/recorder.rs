//! The start/stop state machine that owns a capture session.
//!
//! At most one session is live at a time.  Starting opens a fresh sample
//! sink and names the output file after the moment the session began;
//! stopping quiesces the sink first and finalizes it only when the caller
//! has reclaimed the writer exclusively, so a still-draining callback can
//! never race the finalize.  The hardware stream itself lives outside;
//! it hands sample blocks in through [`AudioRecorder::write_block`] and
//! reports whether the writer came back exclusive when stopping.

use vstd::prelude::*;
use vstd::string::StringExecFns;

use crate::text::dec_digits;
use crate::text::u64_to_dec;
use crate::wav::SampleSink;
use crate::wav::WavFormat;
use crate::wav::accepted_samples;
use crate::wav::wav_bytes;

verus! {

/// The name a recording begun at `ts` seconds is stored under.
pub open spec fn recording_filename(ts: int) -> Seq<char> {
    "recording_"@ + dec_digits(ts) + ".wav"@
}

/// Build the file name of a recording begun at `timestamp` seconds.
pub fn make_recording_filename(timestamp: u64) -> (s: String)
    ensures
        s@ == recording_filename(timestamp as int),
{
    let prefix = String::from_str("recording_");
    let digits = u64_to_dec(timestamp);
    let named = prefix.concat(digits.as_str());
    let full = named.concat(".wav");
    proof {
        assert(full@ =~= recording_filename(timestamp as int));
    }
    full
}

/// A finished recording: the file's name and its complete WAV image,
/// ready to be stored and transcribed.
pub struct FinishedRecording {
    pub filename: String,
    pub wav: Vec<u8>,
}

/// One line of the recording history: which file a session wrote and
/// when the session began.  Kept for display only.
#[derive(Clone, Debug)]
pub struct RecordingHistoryEntry {
    pub filename: String,
    pub started_at: u64,
}

/// What a stop attempt came to.
pub enum StopOutcome {
    /// No session was live; nothing was touched.
    NotRecording,
    /// The writer was still shared with a draining callback after the
    /// grace period; the file is left unfinalized rather than risk a
    /// racing write.
    WriterStillShared { filename: String },
    /// The session ended cleanly with a complete file image.
    Finished { filename: String, wav: Vec<u8> },
}

/// The recording state machine: idle, or holding one live session.
pub struct AudioRecorder {
    /// Whether a session is live; what the control thread flips and the
    /// callback path consults.
    pub is_recording: bool,
    /// The live session's sink, present exactly while recording.
    pub writer: Option<SampleSink>,
    /// The live session's output file name.
    pub current_filename: Option<String>,
    /// One entry per session that started, oldest first.
    pub file_name_history: Vec<RecordingHistoryEntry>,
}

impl AudioRecorder {
    /// A consistent recorder: the sink and the file name exist exactly
    /// while a session is live, and a live sink is well formed and
    /// accepting.
    pub open spec fn wf(self) -> bool {
        &&& self.is_recording <==> self.writer is Some
        &&& self.is_recording <==> self.current_filename is Some
        &&& self.writer matches Some(w) ==> w.wf() && w.active
    }

    /// A recorder that has never recorded: idle, with no history.
    pub fn new() -> (r: AudioRecorder)
        ensures
            r.wf(),
            !r.is_recording,
            r.file_name_history@.len() == 0,
    {
        AudioRecorder {
            is_recording: false,
            writer: None,
            current_filename: None,
            file_name_history: Vec::new(),
        }
    }

    /// Begin a session with the negotiated format, naming the file after
    /// the moment `timestamp`.  A call while a session is already live
    /// is a no-op and opens no new session.
    pub fn start_recording(&mut self, fmt: WavFormat, timestamp: u64) -> (started: bool)
        requires
            old(self).wf(),
            fmt.wf(),
        ensures
            final(self).wf(),
            old(self).is_recording ==> *final(self) == *old(self) && !started,
            !old(self).is_recording ==> ({
                &&& started
                &&& final(self).is_recording
                &&& (final(self).writer matches Some(w)
                    && w.format == fmt
                    && w.data@ == Seq::<i16>::empty()
                    && w.active)
                &&& (final(self).current_filename matches Some(f)
                    && f@ == recording_filename(timestamp as int)
                    && final(self).file_name_history@ == old(self).file_name_history@.push(
                        (RecordingHistoryEntry { filename: f, started_at: timestamp }),
                    ))
            }),
    {
        if self.is_recording {
            return false;
        }
        let filename = make_recording_filename(timestamp);
        self.writer = Some(SampleSink::new(fmt));
        self.current_filename = Some(filename.clone());
        self.file_name_history.push(RecordingHistoryEntry { filename, started_at: timestamp });
        self.is_recording = true;
        true
    }

    /// Undo a start whose stream never came up: discard the untouched
    /// sink and the just-recorded name, returning to idle.
    pub fn abort_start(&mut self)
        requires
            old(self).wf(),
            old(self).is_recording,
            old(self).file_name_history@.len() > 0,
        ensures
            final(self).wf(),
            !final(self).is_recording,
            final(self).file_name_history@ == old(self).file_name_history@.drop_last(),
    {
        self.is_recording = false;
        self.writer = None;
        self.current_filename = None;
        self.file_name_history.pop();
    }

    /// Hand one callback block of fixed-point samples to the live sink.
    /// When no session is live the block is discarded whole: a write
    /// that arrives after the session ended lands nowhere, it never
    /// tears the file.
    pub fn write_block(&mut self, block: &Vec<i64>)
        requires
            old(self).wf(),
        ensures
            final(self).wf(),
            final(self).is_recording == old(self).is_recording,
            final(self).current_filename == old(self).current_filename,
            final(self).file_name_history == old(self).file_name_history,
            !old(self).is_recording ==> *final(self) == *old(self),
            old(self).writer matches Some(w) ==> (final(self).writer matches Some(w2)
                && w2.format == w.format
                && w2.active
                && w2.data@ == w.data@ + accepted_samples(true, w.data@.len() as int, block@)),
    {
        match &mut self.writer {
            Some(w) => {
                w.write_block(block);
            },
            None => {},
        }
    }

    /// End the live session.  The sink is quiesced before anything else;
    /// only when the caller reclaimed the writer exclusively is the file
    /// finalized, and it then contains exactly the samples accepted
    /// before this call.  A call while idle touches nothing and writes
    /// nothing.
    pub fn stop_recording(&mut self, writer_exclusive: bool) -> (r: StopOutcome)
        requires
            old(self).wf(),
        ensures
            final(self).wf(),
            !old(self).is_recording ==> *final(self) == *old(self) && r is NotRecording,
            old(self).is_recording ==> ({
                &&& !final(self).is_recording
                &&& final(self).file_name_history == old(self).file_name_history
                &&& writer_exclusive ==> (r matches StopOutcome::Finished { filename, wav }
                    && filename == old(self).current_filename->0
                    && wav@ == wav_bytes(old(self).writer->0.format, old(self).writer->0.data@))
                &&& !writer_exclusive ==> (r matches StopOutcome::WriterStillShared { filename }
                    && filename == old(self).current_filename->0)
            }),
    {
        if !self.is_recording {
            return StopOutcome::NotRecording;
        }
        self.is_recording = false;
        let filename = self.current_filename.take().unwrap();
        let mut sink = self.writer.take().unwrap();
        sink.deactivate();
        if writer_exclusive {
            let bytes = sink.finalize();
            StopOutcome::Finished { filename, wav: bytes }
        } else {
            StopOutcome::WriterStillShared { filename }
        }
    }

    /// The single control entry point: start when idle, stop when
    /// recording.  Starting returns nothing; a clean stop returns the
    /// finished recording; a stop whose writer was still shared returns
    /// nothing and leaves the file unfinalized.
    pub fn toggle_recording(&mut self, fmt: WavFormat, timestamp: u64, writer_exclusive: bool) -> (r:
        Option<FinishedRecording>)
        requires
            old(self).wf(),
            fmt.wf(),
        ensures
            final(self).wf(),
            !old(self).is_recording ==> ({
                &&& r is None
                &&& final(self).is_recording
                &&& (final(self).current_filename matches Some(f)
                    && f@ == recording_filename(timestamp as int)
                    && final(self).file_name_history@ == old(self).file_name_history@.push(
                        (RecordingHistoryEntry { filename: f, started_at: timestamp }),
                    ))
            }),
            old(self).is_recording ==> ({
                &&& !final(self).is_recording
                &&& final(self).file_name_history == old(self).file_name_history
                &&& writer_exclusive ==> (r matches Some(fin)
                    && fin.filename == old(self).current_filename->0
                    && fin.wav@ == wav_bytes(old(self).writer->0.format, old(self).writer->0.data@))
                &&& !writer_exclusive ==> r is None
            }),
    {
        if self.is_recording {
            match self.stop_recording(writer_exclusive) {
                StopOutcome::Finished { filename, wav } => Some(
                    FinishedRecording { filename, wav },
                ),
                StopOutcome::WriterStillShared { filename: _ } => None,
                StopOutcome::NotRecording => None,
            }
        } else {
            self.start_recording(fmt, timestamp);
            None
        }
    }
}

} // verus!
