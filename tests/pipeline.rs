use earwig::capture::SampleBuffer;
use earwig::command::RecordingCommand::{Start, Stop};
use earwig::command::{RawEvent, RecordingCommand, BTN_LEFT, EV_KEY};
use earwig::controller::{Directive, RecorderState};
use earwig::recorder::{AudioRecorder, FinishedRecording};
use earwig::wav::{encode_recording, HEADER_LEN, SAMPLE_RATE};
use std::io::Cursor;

/// A stand-in for one capture session: the buffer that its stream fills.
struct Session {
    id: usize,
    buffer: SampleBuffer,
}

/// Drives the controller through `cmds`. Acquisition `k` (counting from 0)
/// succeeds where `acquire_ok[k]` holds; each session receives `samples`.
fn drive(
    cmds: &[RecordingCommand],
    acquire_ok: &[bool],
    samples: &[i16],
) -> (Vec<FinishedRecording>, usize, RecorderState<Session>) {
    let recorder = AudioRecorder::new("/tmp/memos".to_string(), "default".to_string());
    let mut state: RecorderState<Session> = RecorderState::new();
    let mut acquisitions = 0usize;
    let mut open_sessions = 0usize;
    let mut emitted = Vec::new();
    for &cmd in cmds {
        match state.decide(cmd) {
            Directive::AcquireDevice => {
                assert_eq!(open_sessions, 0, "acquisition while a session is open");
                let ok = acquire_ok[acquisitions];
                acquisitions += 1;
                let outcome: Result<Session, String> = if ok {
                    let mut buffer = SampleBuffer::new();
                    buffer.extend(samples);
                    Ok(Session { id: acquisitions, buffer })
                } else {
                    Err("device busy".to_string())
                };
                if state.acquired(outcome).is_none() {
                    open_sessions += 1;
                }
            }
            Directive::Finalize => {
                let mut session = state.finish();
                assert!(session.id > 0);
                open_sessions -= 1;
                let drained = session.buffer.take();
                assert!(session.buffer.is_empty());
                let finished = recorder.finalize(&drained, "20240102_030405").unwrap();
                emitted.push(finished);
            }
            Directive::IgnoreStart | Directive::IgnoreStop => {}
        }
        assert!(open_sessions <= 1);
    }
    (emitted, acquisitions, state)
}

fn decode(bytes: &[u8]) -> (hound::WavSpec, Vec<i16>) {
    let reader = hound::WavReader::new(Cursor::new(bytes.to_vec())).unwrap();
    let spec = reader.spec();
    let samples: Vec<i16> = reader.into_samples::<i16>().map(|s| s.unwrap()).collect();
    (spec, samples)
}

fn pattern(n: usize) -> Vec<i16> {
    (0..n).map(|i| ((i as i32 * 37) % 65536 - 32768) as i16).collect()
}

#[test]
fn burst_gives_two_sessions_without_overlap() {
    let (files, acquisitions, state) =
        drive(&[Start, Start, Stop, Start, Stop], &[true, true], &[1, 2, 3]);
    assert_eq!(files.len(), 2);
    assert_eq!(acquisitions, 2);
    assert!(!state.is_recording());
}

#[test]
fn stop_while_idle_emits_nothing() {
    let state: RecorderState<Session> = RecorderState::new();
    assert_eq!(state.decide(RecordingCommand::Stop), Directive::IgnoreStop);
    let (files, acquisitions, state) = drive(&[RecordingCommand::Stop], &[], &[]);
    assert!(files.is_empty());
    assert_eq!(acquisitions, 0);
    assert!(!state.is_recording());
}

#[test]
fn failed_start_stays_idle_and_accepts_next_start() {
    let mut state: RecorderState<Session> = RecorderState::new();
    assert_eq!(state.decide(RecordingCommand::Start), Directive::AcquireDevice);
    let err = state.acquired::<String>(Err("no device".to_string()));
    assert_eq!(err, Some("no device".to_string()));
    assert!(!state.is_recording());
    assert_eq!(state.decide(RecordingCommand::Start), Directive::AcquireDevice);
}

#[test]
fn empty_session_still_gives_a_valid_file() {
    let (files, _, _) = drive(&[RecordingCommand::Start, RecordingCommand::Stop], &[true], &[]);
    assert_eq!(files.len(), 1);
    assert_eq!(files[0].contents.len(), HEADER_LEN);
    assert_eq!(&files[0].contents[0..4], b"RIFF");
    assert_eq!(&files[0].contents[40..44], &[0, 0, 0, 0]);
    let (spec, samples) = decode(&files[0].contents);
    assert_eq!(spec.channels, 1);
    assert_eq!(spec.sample_rate, 16000);
    assert_eq!(spec.bits_per_sample, 16);
    assert!(samples.is_empty());
}

#[test]
fn samples_round_trip_through_the_container() {
    for n in [0usize, 1, 2, 7, 1000] {
        let input = pattern(n);
        let bytes = encode_recording(&input).unwrap();
        assert_eq!(bytes.len(), HEADER_LEN + 2 * n);
        let (_, decoded) = decode(&bytes);
        assert_eq!(decoded, input);
    }
    let extremes = vec![i16::MIN, -1, 0, 1, i16::MAX];
    let (_, decoded) = decode(&encode_recording(&extremes).unwrap());
    assert_eq!(decoded, extremes);
}

#[test]
fn two_second_pattern_is_one_file() {
    let input = pattern(32000);
    let (files, _, _) =
        drive(&[RecordingCommand::Start, RecordingCommand::Stop], &[true], &input);
    assert_eq!(files.len(), 1);
    assert_eq!(files[0].path, "/tmp/memos/memo_20240102_030405.wav");
    let (spec, decoded) = decode(&files[0].contents);
    assert_eq!(spec.sample_rate, SAMPLE_RATE);
    assert_eq!(decoded.len() as u32 / spec.sample_rate, 2);
    assert_eq!(decoded, input);
}

#[test]
fn second_start_is_ignored() {
    let (files, acquisitions, _) = drive(&[Start, Start, Stop], &[true], &[5, 6]);
    assert_eq!(files.len(), 1);
    assert_eq!(acquisitions, 1);
    let (_, decoded) = decode(&files[0].contents);
    assert_eq!(decoded, vec![5, 6]);
}

#[test]
fn failed_acquisition_then_successful_start() {
    let (files, _, _) = drive(&[Start, Stop], &[false], &[1]);
    assert!(files.is_empty());
    let (files, acquisitions, _) = drive(&[Start, Stop, Start, Stop], &[false, true], &[9]);
    assert_eq!(files.len(), 1);
    assert_eq!(acquisitions, 2);
}

#[test]
fn encoding_is_not_the_raw_samples() {
    let bytes = encode_recording(&vec![0x0102, -2]).unwrap();
    assert_eq!(
        bytes,
        vec![
            b'R', b'I', b'F', b'F', 40, 0, 0, 0, b'W', b'A', b'V', b'E', b'f', b'm', b't', b' ',
            16, 0, 0, 0, 1, 0, 1, 0, 0x80, 0x3e, 0, 0, 0, 0x7d, 0, 0, 2, 0, 16, 0, b'd', b'a',
            b't', b'a', 4, 0, 0, 0, 0x02, 0x01, 0xfe, 0xff,
        ]
    );
}

#[test]
fn button_events_translate_to_commands() {
    assert_eq!(RawEvent::new(EV_KEY, BTN_LEFT, 1).command(), Some(RecordingCommand::Start));
    assert_eq!(RawEvent::new(EV_KEY, BTN_LEFT, 0).command(), Some(RecordingCommand::Stop));
    assert_eq!(RawEvent::new(EV_KEY, BTN_LEFT, 2).command(), None);
    assert_eq!(RawEvent::new(EV_KEY, 0x111, 1).command(), None);
    assert_eq!(RawEvent::new(2, BTN_LEFT, 1).command(), None);
}

#[test]
fn buffer_appends_and_takes_everything() {
    let mut buffer = SampleBuffer::new();
    assert!(buffer.is_empty());
    buffer.push(3);
    buffer.extend(&[4, 5]);
    assert_eq!(buffer.len(), 3);
    assert_eq!(buffer.take(), vec![3, 4, 5]);
    assert_eq!(buffer.len(), 0);
    assert_eq!(buffer.take(), Vec::<i16>::new());
}
