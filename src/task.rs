use crate::note::{frames_in, max_frames, MidiAudio, MidiNote, SAMPLE_RATE};
use itertools::Itertools;
use vstd::prelude::*;

verus! {

/// Frames rendered per block while a MIDI file plays: one second of audio.
pub const FILE_BLOCK_FRAMES: usize = SAMPLE_RATE;

/// Where the synthesis task stands.
#[derive(Clone, Copy, Debug, PartialEq, Eq, Structural)]
pub enum Phase {
    /// The engine (and, for a file, the sequencer) is being built.
    Init,
    /// A block of the file is being rendered.
    FileRender,
    /// A rendered block of the file is being written to the channel.
    FileSend,
    /// Note `index` has been struck and `frames` of it are being rendered.
    NoteRender { index: usize, frames: usize },
    /// The samples of note `index` are being written to the channel.
    NoteSend { index: usize },
    /// Note `index` is being released.
    NoteRelease { index: usize },
    /// The task has nothing more to do.
    Finished,
}

/// What the runner of the task reports after carrying out an action.
#[derive(Clone, Copy, Debug, PartialEq, Eq, Structural)]
pub enum Event {
    /// The last action was carried out. For a MIDI file, `end_of_sequence`
    /// tells whether the sequencer has reached the end of the file; it is
    /// ignored for a note sequence.
    Done { end_of_sequence: bool },
    /// The engine could not be built: the soundfont or the file is malformed.
    Failed,
    /// A write failed because the consuming side has been dropped.
    ReceiverGone,
}

/// What the runner of the task is to do next.
#[derive(Clone, Copy, Debug, PartialEq, Eq, Structural)]
pub enum Action {
    /// Render `frames` frames of the file, then hand them to `rendered` and
    /// write the samples it returns to the channel, in order.
    RenderBlock { frames: usize },
    /// Select `preset` on `channel`, strike `key` with `velocity`, render
    /// `frames` frames, then hand them to `rendered` and write the samples it
    /// returns to the channel, in order.
    StartNote { channel: i32, preset: i32, key: i32, velocity: i32, frames: usize },
    /// Release `key` on `channel`.
    ReleaseNote { channel: i32, key: i32 },
    /// Close the channel and stop: the audio has been played to its end.
    Close,
    /// Stop without closing: the engine failed or the consumer is gone.
    Exit,
}

/// The abstract state of a synthesis task.
pub struct TaskState {
    /// Where the task stands.
    pub phase: Phase,
    /// True where a MIDI file is played, false for a note sequence.
    pub file: bool,
    /// The notes of a sequence; empty for a file.
    pub notes: Seq<MidiNote>,
}

/// The step that plays note `i` of `notes`, or closes after the last one.
/// A note whose samples would not fit in memory stops the task.
pub open spec fn start_note(notes: Seq<MidiNote>, i: int) -> (Phase, Action) {
    if i >= notes.len() {
        (Phase::Finished, Action::Close)
    } else {
        let n = notes[i];
        let f = frames_in(n.duration@);
        if f > max_frames() {
            (Phase::Finished, Action::Exit)
        } else {
            (
                Phase::NoteRender { index: i as usize, frames: f as usize },
                Action::StartNote {
                    channel: n.channel,
                    preset: n.preset,
                    key: n.key,
                    velocity: n.velocity,
                    frames: f as usize,
                },
            )
        }
    }
}

/// The step that renders the next block of a file, or closes at its end.
pub open spec fn next_block(end_of_sequence: bool) -> (Phase, Action) {
    if end_of_sequence {
        (Phase::Finished, Action::Close)
    } else {
        (Phase::FileRender, Action::RenderBlock { frames: FILE_BLOCK_FRAMES })
    }
}

/// The next phase and action of a task in state `s` on event `e`.
pub open spec fn transition(s: TaskState, e: Event) -> (Phase, Action) {
    match e {
        Event::Failed => (Phase::Finished, Action::Exit),
        Event::ReceiverGone => (Phase::Finished, Action::Exit),
        Event::Done { end_of_sequence } => match s.phase {
            Phase::Init => if s.file {
                next_block(end_of_sequence)
            } else {
                start_note(s.notes, 0)
            },
            Phase::FileSend => next_block(end_of_sequence),
            Phase::NoteSend { index } => (
                Phase::NoteRelease { index },
                Action::ReleaseNote {
                    channel: s.notes[index as int].channel,
                    key: s.notes[index as int].key,
                },
            ),
            Phase::NoteRelease { index } => start_note(s.notes, index + 1),
            _ => (Phase::Finished, Action::Exit),
        },
    }
}

/// Samples of two channels of equal length, alternating: left, right, left, ...
pub open spec fn interleaved<T>(left: Seq<T>, right: Seq<T>) -> Seq<T> {
    Seq::new(2 * left.len(), |k: int| if k % 2 == 0 { left[k / 2] } else { right[k / 2] })
}

/// Relies on `Itertools::interleave`: it yields an item of the first iterator,
/// then one of the second, in turn.
#[verifier::external_body]
fn interleave_channels<T: Copy>(left: &Vec<T>, right: &Vec<T>) -> (r: Vec<T>)
    requires
        left@.len() == right@.len(),
    ensures
        r@ == interleaved(left@, right@),
{
    left.iter().interleave(right.iter()).copied().collect()
}

/// The decisions of the background task that turns a `MidiAudio` into
/// samples. The task is driven from outside: each `step` or `rendered` call
/// says what to do next, and the runner reports back how it went.
pub struct SynthesisTask {
    phase: Phase,
    audio: MidiAudio,
}

impl SynthesisTask {
    pub closed spec fn view(&self) -> TaskState {
        TaskState {
            phase: self.phase,
            file: self.audio is File,
            notes: match self.audio {
                MidiAudio::File(_) => Seq::empty(),
                MidiAudio::Sequence(v) => v@,
            },
        }
    }

    /// The phases name only notes that exist.
    pub closed spec fn wf(&self) -> bool {
        let s = self@;
        match s.phase {
            Phase::NoteRender { index, .. } => !s.file && index < s.notes.len(),
            Phase::NoteSend { index } => !s.file && index < s.notes.len(),
            Phase::NoteRelease { index } => !s.file && index < s.notes.len(),
            Phase::FileRender => s.file,
            Phase::FileSend => s.file,
            _ => true,
        }
    }

    /// A task that has yet to build its engine.
    pub fn new(audio: MidiAudio) -> (r: SynthesisTask)
        ensures
            r.wf(),
            r@.phase == Phase::Init,
            r@.file == (audio is File),
            audio matches MidiAudio::Sequence(v) ==> r@.notes == v@,
    {
        SynthesisTask { phase: Phase::Init, audio }
    }

    /// The MIDI audio being rendered.
    pub fn audio(&self) -> (r: &MidiAudio)
        ensures
            r is File == self@.file,
            r matches MidiAudio::Sequence(v) ==> v@ == self@.notes,
    {
        &self.audio
    }

    /// Where the task stands.
    pub fn phase(&self) -> (r: Phase)
        ensures
            r == self@.phase,
    {
        self.phase
    }

    fn note_step(&self, i: usize) -> (r: (Phase, Action))
        requires
            self.wf(),
            !self@.file,
            i <= self@.notes.len(),
        ensures
            r == start_note(self@.notes, i as int),
    {
        match &self.audio {
            MidiAudio::Sequence(notes) => {
                if i >= notes.len() {
                    (Phase::Finished, Action::Close)
                } else {
                    let n = notes[i];
                    match n.duration.frame_count() {
                        None => (Phase::Finished, Action::Exit),
                        Some(frames) => (
                            Phase::NoteRender { index: i, frames },
                            Action::StartNote {
                                channel: n.channel,
                                preset: n.preset,
                                key: n.key,
                                velocity: n.velocity,
                                frames,
                            },
                        ),
                    }
                }
            },
            MidiAudio::File(_) => (Phase::Finished, Action::Exit),
        }
    }

    fn block_step(end_of_sequence: bool) -> (r: (Phase, Action))
        ensures
            r == next_block(end_of_sequence),
    {
        if end_of_sequence {
            (Phase::Finished, Action::Close)
        } else {
            (Phase::FileRender, Action::RenderBlock { frames: FILE_BLOCK_FRAMES })
        }
    }

    /// Takes the runner's report on the last action and returns the next one.
    pub fn step(&mut self, event: Event) -> (r: Action)
        requires
            old(self).wf(),
        ensures
            final(self).wf(),
            final(self)@.file == old(self)@.file,
            final(self)@.notes == old(self)@.notes,
            (final(self)@.phase, r) == transition(old(self)@, event),
    {
        let (phase, action) = match event {
            Event::Failed => (Phase::Finished, Action::Exit),
            Event::ReceiverGone => (Phase::Finished, Action::Exit),
            Event::Done { end_of_sequence } => match self.phase {
                Phase::Init => {
                    if self.audio.is_file() {
                        Self::block_step(end_of_sequence)
                    } else {
                        self.note_step(0)
                    }
                },
                Phase::FileSend => Self::block_step(end_of_sequence),
                Phase::NoteSend { index } => match &self.audio {
                    MidiAudio::Sequence(notes) => (
                        Phase::NoteRelease { index },
                        Action::ReleaseNote { channel: notes[index].channel, key: notes[index].key },
                    ),
                    MidiAudio::File(_) => (Phase::Finished, Action::Exit),
                },
                Phase::NoteRelease { index } => match &self.audio {
                    MidiAudio::Sequence(notes) => {
                        if index < notes.len() {
                            self.note_step(index + 1)
                        } else {
                            (Phase::Finished, Action::Exit)
                        }
                    },
                    MidiAudio::File(_) => (Phase::Finished, Action::Exit),
                },
                _ => (Phase::Finished, Action::Exit),
            },
        };
        self.phase = phase;
        action
    }

    /// Takes the block that the last render action produced, one vector per
    /// channel, and returns its samples interleaved, left first, for the
    /// runner to send. A block of another length than was asked for stops the
    /// task, and `None` is returned, as it is in any phase but a render.
    pub fn rendered<T: Copy>(&mut self, left: &Vec<T>, right: &Vec<T>) -> (r: Option<Vec<T>>)
        requires
            old(self).wf(),
        ensures
            final(self).wf(),
            final(self)@.file == old(self)@.file,
            final(self)@.notes == old(self)@.notes,
            old(self)@.phase == Phase::FileRender && left@.len() == FILE_BLOCK_FRAMES
                && right@.len() == FILE_BLOCK_FRAMES ==> {
                &&& final(self)@.phase == Phase::FileSend
                &&& r matches Some(s) && s@ == interleaved(left@, right@)
            },
            (old(self)@.phase matches Phase::NoteRender { index, frames } && left@.len() == frames
                && right@.len() == frames) ==> {
                &&& final(self)@.phase == (Phase::NoteSend { index: old(self)@.phase->NoteRender_index })
                &&& r matches Some(s) && s@ == interleaved(left@, right@)
            },
            r is None <==> final(self)@.phase == Phase::Finished,
            r is None <==> !(old(self)@.phase == Phase::FileRender && left@.len() == FILE_BLOCK_FRAMES
                && right@.len() == FILE_BLOCK_FRAMES) && !(old(self)@.phase matches Phase::NoteRender {
                frames,
                ..
            } && left@.len() == frames && right@.len() == frames),
    {
        let next = match self.phase {
            Phase::FileRender => {
                if left.len() == FILE_BLOCK_FRAMES && right.len() == FILE_BLOCK_FRAMES {
                    Some(Phase::FileSend)
                } else {
                    None
                }
            },
            Phase::NoteRender { index, frames } => {
                if left.len() == frames && right.len() == frames {
                    Some(Phase::NoteSend { index })
                } else {
                    None
                }
            },
            _ => None,
        };
        match next {
            Some(phase) => {
                self.phase = phase;
                Some(interleave_channels(left, right))
            },
            None => {
                self.phase = Phase::Finished;
                None
            },
        }
    }
}

/// A task over an empty note sequence closes the channel on its first step,
/// before anything is rendered, and after that only ever stops.
pub proof fn lemma_empty_sequence_closes(s: TaskState, end_of_sequence: bool, later: Event)
    requires
        s.phase == Phase::Init,
        !s.file,
        s.notes.len() == 0,
    ensures
        transition(s, Event::Done { end_of_sequence }) == (Phase::Finished, Action::Close),
        transition(TaskState { phase: Phase::Finished, ..s }, later) == (Phase::Finished, Action::Exit),
{
}

/// A single note of duration `d` is rendered as `floor(d × 44100)` frames,
/// whatever its channel, preset, key and velocity, and a block of that many
/// frames per channel gives twice as many interleaved samples.
pub proof fn lemma_note_sample_count<T>(note: MidiNote, other: MidiNote, left: Seq<T>, right: Seq<T>)
    requires
        frames_in(note.duration@) <= max_frames(),
        other.duration == note.duration,
        left.len() == frames_in(note.duration@),
        right.len() == frames_in(note.duration@),
    ensures
        start_note(seq![note], 0).1 matches Action::StartNote { frames, .. } && frames == frames_in(note.duration@),
        start_note(seq![other], 0).1 matches Action::StartNote { frames, .. } && frames == frames_in(note.duration@),
        interleaved(left, right).len() == 2 * frames_in(note.duration@),
{
}

/// Sample `2i` of an interleaved block is frame `i` of the left channel and
/// sample `2i + 1` is frame `i` of the right channel.
pub proof fn lemma_interleaved_order<T>(left: Seq<T>, right: Seq<T>, i: int)
    requires
        left.len() == right.len(),
        0 <= i < left.len(),
    ensures
        interleaved(left, right).len() == 2 * left.len(),
        interleaved(left, right)[2 * i] == left[i],
        interleaved(left, right)[2 * i + 1] == right[i],
{
    assert((2 * i) % 2 == 0 && (2 * i) / 2 == i);
    assert((2 * i + 1) % 2 == 1 && (2 * i + 1) / 2 == i);
}

/// Once a write fails because the consumer is gone, the task stops at once,
/// in whatever phase it was, and a stopped task never asks for work again.
pub proof fn lemma_receiver_gone_stops(s: TaskState, later: Event)
    ensures
        transition(s, Event::ReceiverGone) == (Phase::Finished, Action::Exit),
        transition(TaskState { phase: Phase::Finished, ..s }, later) == (Phase::Finished, Action::Exit),
{
}

impl MidiAudio {
    /// Whether this is a MIDI file rather than a note sequence.
    pub fn is_file(&self) -> (r: bool)
        ensures
            r == (self is File),
    {
        match self {
            MidiAudio::File(_) => true,
            MidiAudio::Sequence(_) => false,
        }
    }
}

} // verus!
