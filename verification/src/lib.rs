//! Core of a push-to-talk audio recorder: the capture-to-disk pipeline
//! (sample conversion, WAV container, start/stop state machine), the
//! shortcut debouncer, device resolution, and the transcription history.
//!
//! Audio hardware, the keyboard hook, the clipboard, the network and the
//! file system live outside this crate; they hand plain values in and take
//! plain values (or finished WAV bytes) back out.

pub mod devices;
pub mod history;
pub mod pcm;
pub mod recorder;
pub mod shortcut;
pub mod text;
pub mod wav;
