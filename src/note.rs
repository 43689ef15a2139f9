use vstd::prelude::*;

verus! {

/// Frames per second of every rendered stream.
pub const SAMPLE_RATE: usize = 44100;

/// Nanoseconds in one second.
pub const NANOS_PER_SEC: u32 = 1_000_000_000;

/// Number of whole frames that fit in `nanos` nanoseconds at `SAMPLE_RATE`:
/// `floor(d × sample_rate)` for a duration `d`.
pub open spec fn frames_in(nanos: int) -> int {
    nanos * (SAMPLE_RATE as int) / (NANOS_PER_SEC as int)
}

/// Largest frame count whose interleaved stereo samples still fit in a `usize`.
pub open spec fn max_frames() -> int {
    (usize::MAX as int) / 2
}

/// A span of time, in whole seconds and the nanoseconds beyond them.
#[derive(Clone, Copy, Debug, PartialEq, Eq)]
pub struct NoteDuration {
    secs: u64,
    nanos: u32,
}

impl NoteDuration {
    /// The nanoseconds beyond the whole seconds stay below one second.
    #[verifier::type_invariant]
    spec fn inv(&self) -> bool {
        self.nanos < NANOS_PER_SEC
    }

    proof fn lemma_parts(&self)
        requires
            self.nanos < NANOS_PER_SEC,
        ensures
            self.secs as int == self@ / NANOS_PER_SEC as int,
            self.nanos as int == self@ % NANOS_PER_SEC as int,
    {
        let s = self.secs as int;
        let n = self.nanos as int;
        vstd::arithmetic::div_mod::lemma_fundamental_div_mod_converse(s * 1_000_000_000 + n, 1_000_000_000, s, n);
    }

    /// The duration in nanoseconds.
    pub closed spec fn view(&self) -> int {
        self.secs as int * NANOS_PER_SEC as int + self.nanos as int
    }

    /// `secs` seconds and `nanos` nanoseconds; `nanos` is below one second.
    pub fn new(secs: u64, nanos: u32) -> (r: NoteDuration)
        requires
            nanos < NANOS_PER_SEC,
        ensures
            r@ == secs as int * NANOS_PER_SEC as int + nanos as int,
    {
        NoteDuration { secs, nanos }
    }

    /// Whole seconds.
    pub fn from_secs(secs: u64) -> (r: NoteDuration)
        ensures
            r@ == secs as int * NANOS_PER_SEC as int,
    {
        NoteDuration { secs, nanos: 0 }
    }

    /// Whole milliseconds.
    pub fn from_millis(millis: u64) -> (r: NoteDuration)
        ensures
            r@ == millis as int * 1_000_000,
    {
        let secs = millis / 1000;
        let rest = (millis % 1000) as u32;
        NoteDuration { secs, nanos: rest * 1_000_000 }
    }

    /// The whole seconds of the duration.
    pub fn as_secs(&self) -> (r: u64)
        ensures
            r as int == self@ / NANOS_PER_SEC as int,
    {
        proof {
            use_type_invariant(self);
            self.lemma_parts();
        }
        self.secs
    }

    /// The nanoseconds beyond the whole seconds.
    pub fn subsec_nanos(&self) -> (r: u32)
        ensures
            r as int == self@ % NANOS_PER_SEC as int,
    {
        proof {
            use_type_invariant(self);
            self.lemma_parts();
        }
        self.nanos
    }

    /// Frames of audio that a note of this duration renders, `floor(d × 44100)`;
    /// `None` where twice that count does not fit in a `usize`.
    pub fn frame_count(&self) -> (r: Option<usize>)
        ensures
            frames_in(self@) <= max_frames() ==> r == Some(frames_in(self@) as usize),
            frames_in(self@) > max_frames() ==> r is None,
    {
        let secs = self.secs as u128;
        let nanos = self.nanos as u128;
        assert(secs * 1_000_000_000 <= 18_446_744_073_709_551_615u128 * 1_000_000_000) by (nonlinear_arith)
            requires secs <= 18_446_744_073_709_551_615u128;
        let total: u128 = secs * 1_000_000_000 + nanos;
        assert(total * 44100 <= (18_446_744_073_709_551_615u128 * 1_000_000_000 + 4_294_967_295) * 44100) by (nonlinear_arith)
            requires total <= 18_446_744_073_709_551_615u128 * 1_000_000_000 + 4_294_967_295;
        let frames: u128 = total * (SAMPLE_RATE as u128) / (NANOS_PER_SEC as u128);
        if frames <= (usize::MAX / 2) as u128 {
            Some(frames as usize)
        } else {
            None
        }
    }
}

/// One note of an explicit sequence.
#[derive(Clone, Copy, Debug, PartialEq, Eq)]
pub struct MidiNote {
    /// Channel to play the note on.
    pub channel: i32,
    /// Preset (instrument) to play the note with, as General MIDI numbers them.
    pub preset: i32,
    /// Key to play; 60 is middle C.
    pub key: i32,
    /// Velocity to strike the key with.
    pub velocity: i32,
    /// How long the note is held.
    pub duration: NoteDuration,
}

impl Default for MidiNote {
    /// Middle C on channel 0 with preset 0, velocity 100, held for one second.
    fn default() -> (r: MidiNote)
        ensures
            r.channel == 0,
            r.preset == 0,
            r.key == 60,
            r.velocity == 100,
            r.duration@ == NANOS_PER_SEC as int,
    {
        MidiNote { channel: 0, preset: 0, key: 60, velocity: 100, duration: NoteDuration::from_secs(1) }
    }
}

/// What one playback plays.
#[derive(Clone, Debug)]
pub enum MidiAudio {
    /// The bytes of a MIDI file, checked only when synthesis starts.
    File(Vec<u8>),
    /// An ordered list of notes, played one after another.
    Sequence(Vec<MidiNote>),
}

} // verus!
