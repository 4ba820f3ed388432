use human_detector::event::{ErrorKind, PipelineError, Progress, ProgressEvent};
use human_detector::geometry::BoundingBox;
use human_detector::processor::{Command, Phase, RunState, Signal, Step, VideoProcessor};
use human_detector::stream::VideoStreamDescriptor;

fn stream_of(frame_count: i64) -> VideoStreamDescriptor {
    VideoStreamDescriptor { width: 640, height: 480, fps_bits: 30.0f64.to_bits(), frame_count }
}

fn failed(kind: ErrorKind, details: &str) -> Option<ProgressEvent> {
    Some(ProgressEvent::Done(Err(PipelineError::new(kind, String::from(details)))))
}

fn share(processed: u64, total: u64) -> Option<ProgressEvent> {
    Some(ProgressEvent::Progress(Progress::new(processed, total).unwrap()))
}

/// Takes one frame through detection and writing and returns the event of
/// the write.
fn pass_frame(run: &mut VideoProcessor, boxes: Vec<BoundingBox>) -> Option<ProgressEvent> {
    assert_eq!(
        run.advance(Signal::Decoded),
        Some(Step { command: Command::Detect, event: None })
    );
    let drawn = run.advance(Signal::Detected(boxes)).unwrap();
    assert!(matches!(drawn.command, Command::Write(_)));
    assert_eq!(drawn.event, None);
    let written = run.advance(Signal::Written).unwrap();
    assert_eq!(written.command, Command::Decode);
    written.event
}

#[test]
fn fresh_run_is_idle() {
    let run = VideoProcessor::new();
    assert_eq!(run.state(), RunState::Idle);
    assert_eq!(run.phase(), Phase::Idle);
    assert!(!run.is_finished());
    assert_eq!(run.frames_read(), 0);
    assert_eq!(run.frames_written(), 0);
    assert_eq!(
        run.stream(),
        VideoStreamDescriptor { width: 0, height: 0, fps_bits: 0, frame_count: 0 }
    );
}

#[test]
fn ten_frames_with_a_figure_in_each() {
    let mut run = VideoProcessor::new();
    let stream = stream_of(10);
    assert_eq!(
        run.advance(Signal::Opened(stream)),
        Some(Step { command: Command::Decode, event: None })
    );
    assert_eq!(run.state(), RunState::Running);
    assert_eq!(run.stream(), stream);
    let mut events: Vec<ProgressEvent> = Vec::new();
    for frame in 1..=10u64 {
        assert_eq!(
            run.advance(Signal::Decoded),
            Some(Step { command: Command::Detect, event: None })
        );
        assert_eq!(run.frames_read(), frame);
        assert_eq!(run.frames_written(), frame - 1);
        let figure = BoundingBox::new(40 + frame as i32, 60, 64, 128);
        let drawn = run.advance(Signal::Detected(vec![figure])).unwrap();
        assert_eq!(drawn, Step { command: Command::Write(vec![figure]), event: None });
        let written = run.advance(Signal::Written).unwrap();
        assert_eq!(written.command, Command::Decode);
        assert_eq!(written.event, share(frame, 10));
        assert_eq!(run.frames_written(), frame);
        events.push(written.event.unwrap());
    }
    let end = run.advance(Signal::EndOfStream).unwrap();
    assert_eq!(end, Step { command: Command::Halt, event: Some(ProgressEvent::Done(Ok(()))) });
    events.push(end.event.unwrap());
    assert_eq!(run.state(), RunState::Completed);
    assert!(run.is_finished());
    assert_eq!(run.frames_read(), 10);
    assert_eq!(run.frames_written(), 10);
    assert_eq!(run.stream(), stream);
    assert_eq!(events.len(), 11);
    assert_eq!(events[9], ProgressEvent::Progress(Progress::new(10, 10).unwrap()));
    assert_eq!(events[10], ProgressEvent::Done(Ok(())));
    let dones = events.iter().filter(|e| matches!(e, ProgressEvent::Done(_))).count();
    assert_eq!(dones, 1);
}

#[test]
fn progress_of_a_run_never_goes_back() {
    let mut run = VideoProcessor::new();
    run.advance(Signal::Opened(stream_of(4)));
    let mut last = Progress::zero();
    for _ in 0..6 {
        match pass_frame(&mut run, Vec::new()) {
            Some(ProgressEvent::Progress(p)) => {
                assert!(p.is_at_least(&last));
                assert!(p.processed() <= p.total());
                last = p;
            }
            other => panic!("expected a progress report, got {:?}", other),
        }
    }
    assert!(last.is_complete());
}

#[test]
fn input_that_cannot_be_opened_fails_the_run_before_any_frame() {
    let mut run = VideoProcessor::new();
    let answer = run.advance(Signal::OpenFailed(String::from("no such file: in.mp4")));
    assert_eq!(
        answer,
        Some(Step {
            command: Command::Halt,
            event: failed(ErrorKind::Open, "no such file: in.mp4"),
        })
    );
    assert_eq!(run.state(), RunState::Failed);
    assert_eq!(run.frames_read(), 0);
    assert_eq!(run.frames_written(), 0);
    assert_eq!(run.advance(Signal::Decoded), None);
    assert_eq!(run.advance(Signal::Written), None);
    assert_eq!(run.frames_written(), 0);
}

#[test]
fn output_that_cannot_be_written_fails_the_run_on_the_first_frame() {
    let mut run = VideoProcessor::new();
    run.advance(Signal::Opened(stream_of(10)));
    assert_eq!(run.state(), RunState::Running);
    run.advance(Signal::Decoded);
    run.advance(Signal::Detected(vec![BoundingBox::new(1, 1, 5, 5)]));
    assert_eq!(run.state(), RunState::Running);
    let answer = run.advance(Signal::WriteFailed(String::from("read-only file system")));
    assert_eq!(
        answer,
        Some(Step {
            command: Command::Halt,
            event: failed(ErrorKind::Encode, "read-only file system"),
        })
    );
    assert_eq!(run.state(), RunState::Failed);
    assert_eq!(run.frames_read(), 1);
    assert_eq!(run.frames_written(), 0);
}

#[test]
fn input_without_frames_completes_with_done_alone() {
    let mut run = VideoProcessor::new();
    assert_eq!(
        run.advance(Signal::Opened(stream_of(0))),
        Some(Step { command: Command::Decode, event: None })
    );
    assert_eq!(
        run.advance(Signal::EndOfStream),
        Some(Step { command: Command::Halt, event: Some(ProgressEvent::Done(Ok(()))) })
    );
    assert_eq!(run.state(), RunState::Completed);
    assert_eq!(run.frames_read(), 0);
    assert_eq!(run.frames_written(), 0);
}

#[test]
fn frame_that_cannot_be_decoded_fails_the_run() {
    let mut run = VideoProcessor::new();
    run.advance(Signal::Opened(stream_of(3)));
    assert_eq!(pass_frame(&mut run, Vec::new()), share(1, 3));
    let answer = run.advance(Signal::DecodeFailed(String::from("corrupt frame")));
    assert_eq!(
        answer,
        Some(Step { command: Command::Halt, event: failed(ErrorKind::Decode, "corrupt frame") })
    );
    assert_eq!(run.state(), RunState::Failed);
    assert_eq!(run.frames_read(), 1);
    assert_eq!(run.frames_written(), 1);
}

#[test]
fn detector_failure_fails_the_run() {
    let mut run = VideoProcessor::new();
    run.advance(Signal::Opened(stream_of(3)));
    run.advance(Signal::Decoded);
    let answer = run.advance(Signal::DetectFailed(String::from("bad frame size")));
    assert_eq!(
        answer,
        Some(Step { command: Command::Halt, event: failed(ErrorKind::Detect, "bad frame size") })
    );
    assert_eq!(run.state(), RunState::Failed);
    assert_eq!(run.frames_read(), 1);
    assert_eq!(run.frames_written(), 0);
}

#[test]
fn run_that_is_over_accepts_nothing() {
    let mut run = VideoProcessor::new();
    run.advance(Signal::Opened(stream_of(1)));
    assert_eq!(pass_frame(&mut run, Vec::new()), share(1, 1));
    run.advance(Signal::EndOfStream);
    assert_eq!(run.state(), RunState::Completed);
    let late = vec![
        Signal::Opened(stream_of(5)),
        Signal::OpenFailed(String::from("x")),
        Signal::Decoded,
        Signal::EndOfStream,
        Signal::DecodeFailed(String::from("x")),
        Signal::Detected(Vec::new()),
        Signal::DetectFailed(String::from("x")),
        Signal::Written,
        Signal::WriteFailed(String::from("x")),
    ];
    for signal in late {
        assert_eq!(run.advance(signal), None);
        assert_eq!(run.state(), RunState::Completed);
        assert_eq!(run.frames_read(), 1);
        assert_eq!(run.frames_written(), 1);
        assert_eq!(run.stream(), stream_of(1));
    }
}

#[test]
fn signal_out_of_turn_is_left_unanswered() {
    let mut run = VideoProcessor::new();
    assert_eq!(run.advance(Signal::Decoded), None);
    assert_eq!(run.advance(Signal::EndOfStream), None);
    assert_eq!(run.advance(Signal::Written), None);
    assert_eq!(run.state(), RunState::Idle);
    run.advance(Signal::Opened(stream_of(2)));
    assert_eq!(run.advance(Signal::Opened(stream_of(9))), None);
    assert_eq!(run.stream(), stream_of(2));
    assert_eq!(run.advance(Signal::Written), None);
    assert_eq!(run.advance(Signal::Detected(Vec::new())), None);
    assert_eq!(run.phase(), Phase::AwaitingFrame);
    run.advance(Signal::Decoded);
    assert_eq!(run.advance(Signal::Decoded), None);
    assert_eq!(run.advance(Signal::EndOfStream), None);
    assert_eq!(run.advance(Signal::WriteFailed(String::from("x"))), None);
    assert_eq!(run.phase(), Phase::AwaitingDetection);
    assert_eq!(run.frames_read(), 1);
    run.advance(Signal::Detected(Vec::new()));
    assert_eq!(run.advance(Signal::Detected(Vec::new())), None);
    assert_eq!(run.advance(Signal::DecodeFailed(String::from("x"))), None);
    assert_eq!(run.phase(), Phase::AwaitingWrite);
    assert_eq!(run.frames_written(), 0);
}

#[test]
fn stream_of_unknown_length_reports_no_progress() {
    for count in [0i64, -1, i64::MIN] {
        let mut run = VideoProcessor::new();
        run.advance(Signal::Opened(stream_of(count)));
        for _ in 0..3 {
            assert_eq!(pass_frame(&mut run, Vec::new()), None);
        }
        assert_eq!(
            run.advance(Signal::EndOfStream).unwrap().event,
            Some(ProgressEvent::Done(Ok(())))
        );
        assert_eq!(run.frames_written(), 3);
    }
}

#[test]
fn stream_longer_than_announced_stays_at_the_whole() {
    let mut run = VideoProcessor::new();
    run.advance(Signal::Opened(stream_of(2)));
    assert_eq!(pass_frame(&mut run, Vec::new()), share(1, 2));
    assert_eq!(pass_frame(&mut run, Vec::new()), share(2, 2));
    assert_eq!(pass_frame(&mut run, Vec::new()), share(2, 2));
    assert_eq!(run.frames_written(), 3);
}

#[test]
fn stream_shorter_than_announced_ends_below_the_whole() {
    let mut run = VideoProcessor::new();
    run.advance(Signal::Opened(stream_of(5)));
    assert_eq!(pass_frame(&mut run, Vec::new()), share(1, 5));
    assert_eq!(pass_frame(&mut run, Vec::new()), share(2, 5));
    assert_eq!(
        run.advance(Signal::EndOfStream).unwrap().event,
        Some(ProgressEvent::Done(Ok(())))
    );
    assert_eq!(run.state(), RunState::Completed);
}

#[test]
fn detections_are_cut_to_the_frame_before_they_are_drawn() {
    let mut run = VideoProcessor::new();
    run.advance(Signal::Opened(stream_of(1)));
    run.advance(Signal::Decoded);
    let boxes = vec![
        BoundingBox::new(-20, 100, 64, 128),
        BoundingBox::new(1000, 100, 64, 128),
        BoundingBox::new(600, 400, 64, 128),
        BoundingBox::new(100, 100, 64, 128),
    ];
    assert_eq!(
        run.advance(Signal::Detected(boxes)),
        Some(Step {
            command: Command::Write(vec![
                BoundingBox::new(0, 100, 44, 128),
                BoundingBox::new(600, 400, 40, 80),
                BoundingBox::new(100, 100, 64, 128),
            ]),
            event: None,
        })
    );
}

#[test]
fn frame_without_detections_is_written_as_it_is() {
    let mut run = VideoProcessor::new();
    run.advance(Signal::Opened(stream_of(1)));
    run.advance(Signal::Decoded);
    assert_eq!(
        run.advance(Signal::Detected(Vec::new())),
        Some(Step { command: Command::Write(Vec::new()), event: None })
    );
}

#[test]
fn equal_reports_are_answered_equally() {
    let boxes = vec![BoundingBox::new(-5, 10, 64, 128), BoundingBox::new(300, 200, 64, 128)];
    let mut first = VideoProcessor::new();
    let mut second = VideoProcessor::new();
    for run in [&mut first, &mut second] {
        run.advance(Signal::Opened(stream_of(7)));
        run.advance(Signal::Decoded);
    }
    let a = first.advance(Signal::Detected(boxes.clone()));
    let b = second.advance(Signal::Detected(boxes));
    assert_eq!(a, b);
    assert_eq!(first.advance(Signal::Written), second.advance(Signal::Written));
    assert_eq!(first.frames_written(), second.frames_written());
}
