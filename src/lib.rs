//! MIDI playback for a pull-based audio pipeline: a note model, the state
//! machine of the background synthesis task, and the non-blocking sample
//! stream that the audio thread reads from.

mod note;
mod stream;
mod task;

pub use note::{frames_in, max_frames, MidiAudio, MidiNote, NoteDuration, NANOS_PER_SEC, SAMPLE_RATE};
pub use stream::{pull, MidiFileDecoder, TryRead, CHANNELS, CHANNEL_CAPACITY};
pub use task::{
    interleaved, lemma_empty_sequence_closes, lemma_interleaved_order, lemma_note_sample_count,
    lemma_receiver_gone_stops, next_block, start_note, transition, Action, Event, Phase, SynthesisTask, TaskState, FILE_BLOCK_FRAMES};
