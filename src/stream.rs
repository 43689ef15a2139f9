use crate::note::{NoteDuration, SAMPLE_RATE};
use async_channel::{Receiver, Sender, TryRecvError};
use vstd::prelude::*;

verus! {

/// Interleaved channels of every stream: left and right.
pub const CHANNELS: u16 = 2;

/// Samples the channel holds before the producer has to wait: two seconds
/// of stereo audio.
pub const CHANNEL_CAPACITY: usize = 2 * SAMPLE_RATE * 2;

/// The producer's end of an `async_channel` channel, carried through opaque.
#[verifier::external_type_specification]
#[verifier::external_body]
#[verifier::reject_recursive_types(T)]
pub struct ExSender<T>(Sender<T>);

/// The consumer's end of an `async_channel` channel, carried through opaque.
#[verifier::external_type_specification]
#[verifier::external_body]
#[verifier::reject_recursive_types(T)]
pub struct ExReceiver<T>(Receiver<T>);

/// What a non-blocking read of the channel found.
#[derive(Clone, Copy, Debug, PartialEq, Eq)]
pub enum TryRead<T> {
    /// The oldest unread sample.
    Sample(T),
    /// Nothing buffered, but the producer may still write.
    Empty,
    /// Nothing buffered, and nothing will ever be written.
    Closed,
}

/// Relies on `async_channel::bounded`, which panics on a zero capacity and
/// otherwise returns the two ends of a new channel.
#[verifier::external_body]
fn bounded_channel<T>(capacity: usize) -> (r: (Sender<T>, Receiver<T>))
    requires
        capacity > 0,
{
    async_channel::bounded(capacity)
}

/// Relies on `Receiver::try_recv`, which never waits. What it finds depends
/// on the producer's progress, so nothing is stated of it.
#[verifier::external_body]
fn try_read<T>(stream: &Receiver<T>) -> (r: TryRead<T>) {
    match stream.try_recv() {
        Ok(v) => TryRead::Sample(v),
        Err(TryRecvError::Empty) => TryRead::Empty,
        Err(TryRecvError::Closed) => TryRead::Closed,
    }
}

/// The sample handed to the audio pipeline for what a read found: the sample
/// itself, `silence` on an underrun, and the end of the stream (`None`) only
/// once the channel is closed and drained.
pub fn pull<T>(read: TryRead<T>, silence: T) -> (r: Option<T>)
    ensures
        read matches TryRead::Sample(v) ==> r == Some(v),
        read is Empty ==> r == Some(silence),
        r is None <==> read is Closed,
{
    match read {
        TryRead::Sample(v) => Some(v),
        TryRead::Empty => Some(silence),
        TryRead::Closed => None,
    }
}

/// The consuming end of one playback: hands out one sample per call and never
/// waits for the producer.
#[verifier::reject_recursive_types(T)]
pub struct MidiFileDecoder<T> {
    stream: Receiver<T>,
    silence: T,
}

impl<T: Copy> MidiFileDecoder<T> {
    /// A decoder reading a new channel of `CHANNEL_CAPACITY` samples, and
    /// the sending end of that channel for the producer. `silence` is the
    /// sample given out when the producer lags behind.
    pub fn new(silence: T) -> (r: (MidiFileDecoder<T>, Sender<T>))
        ensures
            r.0.silence() == silence,
    {
        let (tx, rx) = bounded_channel(CHANNEL_CAPACITY);
        (MidiFileDecoder { stream: rx, silence }, tx)
    }

    /// The sample given out on an underrun.
    pub closed spec fn silence(&self) -> T {
        self.silence
    }

    /// The next sample, `silence` if none is buffered yet, or `None` once the
    /// stream has ended.
    pub fn next_sample(&mut self) -> (r: Option<T>)
        ensures
            final(self).silence() == old(self).silence(),
    {
        let read = try_read(&self.stream);
        pull(read, self.silence)
    }

    /// Samples per call are not fixed: the stream is open-ended.
    pub fn current_frame_len(&self) -> (r: Option<usize>)
        ensures
            r is None,
    {
        None
    }

    /// Two channels, interleaved.
    pub fn channels(&self) -> (r: u16)
        ensures
            r == CHANNELS,
    {
        CHANNELS
    }

    /// Frames per second.
    pub fn sample_rate(&self) -> (r: u32)
        ensures
            r == SAMPLE_RATE,
    {
        SAMPLE_RATE as u32
    }

    /// The length of the stream is not known in advance.
    pub fn total_duration(&self) -> (r: Option<NoteDuration>)
        ensures
            r is None,
    {
        None
    }
}

} // verus!
