//! The transcription history: an append-only, in-memory list of what
//! was recorded and what the transcription service returned for it.
//!
//! Persisting the list — a JSON file next to the executable — is I/O
//! and lives outside; this module owns the list itself and the name of
//! the file it is stored under.

use vstd::prelude::*;
use vstd::string::StringExecFns;

verus! {

/// One transcribed recording: the audio file's name, the text that came
/// back, and the moment in seconds it was transcribed.
#[derive(Clone, Debug)]
pub struct TranscriptionRecord {
    pub filename: String,
    pub transcription: String,
    pub timestamp: u64,
}

/// Every transcription made so far, oldest first.
#[derive(Debug)]
pub struct TranscriptionHistory {
    pub records: Vec<TranscriptionRecord>,
}

impl TranscriptionHistory {
    /// An empty history.
    pub fn new() -> (h: TranscriptionHistory)
        ensures
            h.records@.len() == 0,
    {
        TranscriptionHistory { records: Vec::new() }
    }

    /// Append one record; the existing records stand untouched.
    pub fn add_record(&mut self, record: TranscriptionRecord)
        ensures
            final(self).records@ == old(self).records@.push(record),
    {
        self.records.push(record);
    }

    /// Every record, oldest first.
    pub fn list_records(&self) -> (r: &[TranscriptionRecord])
        ensures
            r@ == self.records@,
    {
        self.records.as_slice()
    }

    /// Look up a one-based menu selection: a number between one and the
    /// record count names a record, anything else names none.
    pub fn select_record(&self, index: usize) -> (r: Option<&TranscriptionRecord>)
        ensures
            r is Some <==> 1 <= index <= self.records@.len(),
            r matches Some(rec) ==> *rec == self.records@[index - 1],
    {
        if 1 <= index && index <= self.records.len() {
            Some(&self.records[index - 1])
        } else {
            None
        }
    }
}

/// The name of the file the history is persisted under.
pub fn history_file_name() -> (s: String)
    ensures
        s@ == "transcription_history.json"@,
{
    String::from_str("transcription_history.json")
}

} // verus!
