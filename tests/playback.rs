use async_channel::TrySendError;
use bevy_rustysynth::{
    pull, Action, Event, MidiAudio, MidiFileDecoder, MidiNote, NoteDuration, Phase, SynthesisTask,
    TryRead, CHANNELS, CHANNEL_CAPACITY, FILE_BLOCK_FRAMES, SAMPLE_RATE,
};

fn note(channel: i32, preset: i32, key: i32, velocity: i32, duration: NoteDuration) -> MidiNote {
    MidiNote { channel, preset, key, velocity, duration }
}

#[test]
fn default_note_is_one_second_of_middle_c() {
    let n = MidiNote::default();
    assert_eq!(n.channel, 0);
    assert_eq!(n.preset, 0);
    assert_eq!(n.key, 60);
    assert_eq!(n.velocity, 100);
    assert_eq!(n.duration, NoteDuration::from_secs(1));
}

#[test]
fn durations_keep_seconds_and_nanos() {
    let d = NoteDuration::from_millis(2750);
    assert_eq!(d.as_secs(), 2);
    assert_eq!(d.subsec_nanos(), 750_000_000);
    let e = NoteDuration::new(3, 5);
    assert_eq!(e.as_secs(), 3);
    assert_eq!(e.subsec_nanos(), 5);
}

#[test]
fn frame_count_is_floor_of_duration_times_rate() {
    assert_eq!(NoteDuration::from_secs(1).frame_count(), Some(44100));
    assert_eq!(NoteDuration::from_millis(500).frame_count(), Some(22050));
    assert_eq!(NoteDuration::from_secs(0).frame_count(), Some(0));
    assert_eq!(NoteDuration::new(0, 22_675).frame_count(), Some(0));
    assert_eq!(NoteDuration::new(0, 22_676).frame_count(), Some(1));
    assert_eq!(NoteDuration::new(2, 500_000_000).frame_count(), Some(110_250));
}

#[test]
fn frame_count_too_large_for_memory_is_none() {
    assert_eq!(NoteDuration::from_secs(u64::MAX).frame_count(), None);
}

#[test]
fn empty_sequence_closes_without_rendering() {
    let mut task = SynthesisTask::new(MidiAudio::Sequence(vec![]));
    assert_eq!(task.phase(), Phase::Init);
    assert_eq!(task.step(Event::Done { end_of_sequence: false }), Action::Close);
    assert_eq!(task.phase(), Phase::Finished);
    assert_eq!(task.step(Event::Done { end_of_sequence: false }), Action::Exit);
}

#[test]
fn single_note_sample_count_is_twice_its_frames() {
    for (key, velocity, preset) in [(60, 100, 0), (30, 1, 40)] {
        let mut task = SynthesisTask::new(MidiAudio::Sequence(vec![note(
            1,
            preset,
            key,
            velocity,
            NoteDuration::from_millis(250),
        )]));
        assert_eq!(
            task.step(Event::Done { end_of_sequence: false }),
            Action::StartNote { channel: 1, preset, key, velocity, frames: 11025 }
        );
        let left = vec![0.25f32; 11025];
        let right = vec![-0.25f32; 11025];
        let samples = task.rendered(&left, &right).unwrap();
        assert_eq!(samples.len(), 2 * 11025);
    }
}

#[test]
fn rendered_samples_alternate_left_and_right() {
    // 68_030 ns hold three whole frames at 44100 Hz.
    let mut task = SynthesisTask::new(MidiAudio::Sequence(vec![note(0, 0, 60, 100, NoteDuration::new(0, 68_030))]));
    assert_eq!(
        task.step(Event::Done { end_of_sequence: false }),
        Action::StartNote { channel: 0, preset: 0, key: 60, velocity: 100, frames: 3 }
    );
    let samples = task.rendered(&vec![1.0f32, 2.0, 3.0], &vec![10.0f32, 20.0, 30.0]).unwrap();
    assert_eq!(samples, vec![1.0, 10.0, 2.0, 20.0, 3.0, 30.0]);
    assert_eq!(task.phase(), Phase::NoteSend { index: 0 });
}

#[test]
fn sequence_plays_each_note_then_closes() {
    let first = note(0, 5, 60, 100, NoteDuration::new(0, 68_030));
    let second = note(2, 7, 64, 90, NoteDuration::from_secs(0));
    let mut task = SynthesisTask::new(MidiAudio::Sequence(vec![first, second]));
    assert_eq!(
        task.step(Event::Done { end_of_sequence: false }),
        Action::StartNote { channel: 0, preset: 5, key: 60, velocity: 100, frames: 3 }
    );
    assert_eq!(task.rendered(&vec![1u8, 2, 3], &vec![4u8, 5, 6]), Some(vec![1, 4, 2, 5, 3, 6]));
    assert_eq!(task.step(Event::Done { end_of_sequence: false }), Action::ReleaseNote { channel: 0, key: 60 });
    assert_eq!(task.phase(), Phase::NoteRelease { index: 0 });
    assert_eq!(
        task.step(Event::Done { end_of_sequence: false }),
        Action::StartNote { channel: 2, preset: 7, key: 64, velocity: 90, frames: 0 }
    );
    assert_eq!(task.rendered::<u8>(&vec![], &vec![]), Some(vec![]));
    assert_eq!(task.step(Event::Done { end_of_sequence: true }), Action::ReleaseNote { channel: 2, key: 64 });
    assert_eq!(task.step(Event::Done { end_of_sequence: true }), Action::Close);
    assert_eq!(task.phase(), Phase::Finished);
}

#[test]
fn file_renders_blocks_until_end_of_sequence() {
    let mut task = SynthesisTask::new(MidiAudio::File(vec![0x4d, 0x54, 0x68, 0x64]));
    assert!(task.audio().is_file());
    assert_eq!(task.step(Event::Done { end_of_sequence: false }), Action::RenderBlock { frames: FILE_BLOCK_FRAMES });
    let left = vec![1i16; FILE_BLOCK_FRAMES];
    let right = vec![2i16; FILE_BLOCK_FRAMES];
    let samples = task.rendered(&left, &right).unwrap();
    assert_eq!(samples.len(), 2 * FILE_BLOCK_FRAMES);
    assert_eq!(&samples[..4], &[1, 2, 1, 2]);
    assert_eq!(task.step(Event::Done { end_of_sequence: false }), Action::RenderBlock { frames: FILE_BLOCK_FRAMES });
    assert!(task.rendered(&left, &right).is_some());
    assert_eq!(task.step(Event::Done { end_of_sequence: true }), Action::Close);
}

#[test]
fn file_already_at_end_closes_at_once() {
    let mut task = SynthesisTask::new(MidiAudio::File(vec![]));
    assert_eq!(task.step(Event::Done { end_of_sequence: true }), Action::Close);
}

#[test]
fn engine_failure_stops_without_closing() {
    let mut task = SynthesisTask::new(MidiAudio::File(vec![1, 2, 3]));
    assert_eq!(task.step(Event::Failed), Action::Exit);
    assert_eq!(task.phase(), Phase::Finished);
    let mut seq = SynthesisTask::new(MidiAudio::Sequence(vec![MidiNote::default()]));
    assert_eq!(seq.step(Event::Failed), Action::Exit);
}

#[test]
fn consumer_gone_stops_the_task_on_the_failed_write() {
    let mut task = SynthesisTask::new(MidiAudio::Sequence(vec![MidiNote::default(), MidiNote::default()]));
    assert!(matches!(task.step(Event::Done { end_of_sequence: false }), Action::StartNote { frames: 44100, .. }));
    assert!(task.rendered(&vec![0u8; 44100], &vec![0u8; 44100]).is_some());
    assert_eq!(task.step(Event::ReceiverGone), Action::Exit);
    assert_eq!(task.phase(), Phase::Finished);
    assert_eq!(task.step(Event::Done { end_of_sequence: false }), Action::Exit);
}

#[test]
fn block_of_wrong_length_stops_the_task() {
    let mut task = SynthesisTask::new(MidiAudio::Sequence(vec![MidiNote::default()]));
    task.step(Event::Done { end_of_sequence: false });
    assert_eq!(task.rendered(&vec![0u8; 10], &vec![0u8; 10]), None);
    assert_eq!(task.phase(), Phase::Finished);
}

#[test]
fn rendered_outside_a_render_phase_is_refused() {
    let mut task = SynthesisTask::new(MidiAudio::File(vec![]));
    assert_eq!(task.rendered::<u8>(&vec![], &vec![]), None);
    assert_eq!(task.phase(), Phase::Finished);
}

#[test]
fn done_while_a_render_is_awaited_stops_the_task() {
    let mut task = SynthesisTask::new(MidiAudio::File(vec![]));
    task.step(Event::Done { end_of_sequence: false });
    assert_eq!(task.step(Event::Done { end_of_sequence: false }), Action::Exit);
}

#[test]
fn pull_gives_sample_silence_or_end() {
    assert_eq!(pull(TryRead::Sample(0.75f32), 0.0), Some(0.75));
    assert_eq!(pull(TryRead::Empty, 0.0f32), Some(0.0));
    assert_eq!(pull(TryRead::<f32>::Closed, 0.0), None);
}

#[test]
fn decoder_reports_its_format() {
    let (decoder, _tx) = MidiFileDecoder::new(0.0f32);
    assert_eq!(decoder.channels(), CHANNELS);
    assert_eq!(CHANNELS, 2);
    assert_eq!(decoder.sample_rate(), 44100);
    assert_eq!(SAMPLE_RATE, 44100);
    assert_eq!(decoder.current_frame_len(), None);
    assert_eq!(decoder.total_duration(), None);
}

#[test]
fn underrun_gives_exact_silence() {
    let (mut decoder, tx) = MidiFileDecoder::new(0.0f32);
    tx.try_send(0.5).unwrap();
    assert_eq!(decoder.next_sample(), Some(0.5));
    assert_eq!(decoder.next_sample(), Some(0.0));
    assert_eq!(decoder.next_sample(), Some(0.0));
}

#[test]
fn closed_stream_drains_before_ending() {
    let (mut decoder, tx) = MidiFileDecoder::new(0.0f32);
    tx.try_send(0.25).unwrap();
    tx.try_send(-0.25).unwrap();
    tx.close();
    assert_eq!(decoder.next_sample(), Some(0.25));
    assert_eq!(decoder.next_sample(), Some(-0.25));
    assert_eq!(decoder.next_sample(), None);
    assert_eq!(decoder.next_sample(), None);
}

#[test]
fn dropped_sender_ends_the_stream() {
    let (mut decoder, tx) = MidiFileDecoder::new(0.0f32);
    drop(tx);
    assert_eq!(decoder.next_sample(), None);
}

#[test]
fn full_channel_holds_back_the_producer_until_read() {
    let (mut decoder, tx) = MidiFileDecoder::new(0u32);
    assert_eq!(CHANNEL_CAPACITY, 2 * 44100 * 2);
    for i in 0..CHANNEL_CAPACITY {
        tx.try_send(i as u32 + 1).unwrap();
    }
    assert_eq!(tx.len(), CHANNEL_CAPACITY);
    assert!(matches!(tx.try_send(7), Err(TrySendError::Full(7))));
    assert_eq!(tx.len(), CHANNEL_CAPACITY);
    assert_eq!(decoder.next_sample(), Some(1));
    tx.try_send(7).unwrap();
    assert_eq!(decoder.next_sample(), Some(2));
}

#[test]
fn dropping_the_decoder_fails_the_next_write() {
    let (decoder, tx) = MidiFileDecoder::new(0.0f32);
    tx.try_send(1.0).unwrap();
    drop(decoder);
    assert!(matches!(tx.try_send(2.0), Err(TrySendError::Closed(_))));
}
