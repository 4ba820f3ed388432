//! The pipeline run: which stage works next, and what is published.
//!
//! A run decodes a frame, has the detector look at it, draws the detections
//! and writes the frame, over and over until the input ends. The stages are
//! the caller's. The run decides: the caller reports what a stage returned as
//! a [`Signal`], and [`VideoProcessor::advance`] answers with the next
//! [`Command`] and with the event to publish, if there is one.

use vstd::prelude::*;
use crate::channel::RunSender;
use crate::event::{
    fraction_after, ErrorKind, PipelineError, PipelineErrorView, Progress, ProgressEvent,
    ProgressEventView,
};
use crate::geometry::{clamp_boxes, clamped_all, BoundingBox};
use crate::stream::VideoStreamDescriptor;

verus! {

/// Where a run stands.
#[derive(Clone, Copy, Debug, PartialEq, Eq, Structural)]
pub enum Phase {
    /// Nothing is open yet.
    Idle,
    /// Input and output are open; the next frame is to be decoded.
    AwaitingFrame,
    /// A frame was decoded and is with the detector.
    AwaitingDetection,
    /// The detections were drawn and the frame is being written.
    AwaitingWrite,
    /// The input ended and every frame was written.
    Completed,
    /// A stage failed.
    Failed,
}

/// The state of a run as the control surface sees it.
#[derive(Clone, Copy, Debug, PartialEq, Eq, Structural)]
pub enum RunState {
    Idle,
    Running,
    Completed,
    Failed,
}

impl Phase {
    /// The run is over: no signal is accepted any more.
    pub open spec fn is_terminal(self) -> bool {
        self is Completed || self is Failed
    }

    /// A frame was decoded and is not written yet.
    pub open spec fn holds_frame(self) -> bool {
        self is AwaitingDetection || self is AwaitingWrite
    }

    /// The phase as the control surface sees it: every phase between the
    /// opening and the end counts as running.
    pub open spec fn state(self) -> RunState {
        match self {
            Phase::Idle => RunState::Idle,
            Phase::AwaitingFrame | Phase::AwaitingDetection | Phase::AwaitingWrite => RunState::Running,
            Phase::Completed => RunState::Completed,
            Phase::Failed => RunState::Failed,
        }
    }
}

/// What a stage reported.
#[derive(Debug, PartialEq, Eq)]
pub enum Signal {
    /// Input and output were opened; the input's metadata.
    Opened(VideoStreamDescriptor),
    /// The input or the output could not be opened.
    OpenFailed(String),
    /// A frame was decoded.
    Decoded,
    /// The input has no further frame.
    EndOfStream,
    /// A frame could not be decoded.
    DecodeFailed(String),
    /// The detector's boxes for the current frame.
    Detected(Vec<BoundingBox>),
    /// The detector failed on the current frame.
    DetectFailed(String),
    /// The current frame was written.
    Written,
    /// The current frame could not be written.
    WriteFailed(String),
}

/// Mathematical value of a [`Signal`].
pub enum SignalView {
    Opened(VideoStreamDescriptor),
    OpenFailed(Seq<char>),
    Decoded,
    EndOfStream,
    DecodeFailed(Seq<char>),
    Detected(Seq<BoundingBox>),
    DetectFailed(Seq<char>),
    Written,
    WriteFailed(Seq<char>),
}

impl View for Signal {
    type V = SignalView;

    open spec fn view(&self) -> SignalView {
        match self {
            Signal::Opened(stream) => SignalView::Opened(*stream),
            Signal::OpenFailed(details) => SignalView::OpenFailed(details@),
            Signal::Decoded => SignalView::Decoded,
            Signal::EndOfStream => SignalView::EndOfStream,
            Signal::DecodeFailed(details) => SignalView::DecodeFailed(details@),
            Signal::Detected(boxes) => SignalView::Detected(boxes@),
            Signal::DetectFailed(details) => SignalView::DetectFailed(details@),
            Signal::Written => SignalView::Written,
            Signal::WriteFailed(details) => SignalView::WriteFailed(details@),
        }
    }
}

/// What the caller does next.
#[derive(Debug, PartialEq, Eq)]
pub enum Command {
    /// Decode the next frame.
    Decode,
    /// Run the detector on the current frame.
    Detect,
    /// Draw the outline of each of these boxes on the current frame, then
    /// write the frame. Every box lies inside the frame.
    Write(Vec<BoundingBox>),
    /// Stop: the run is over.
    Halt,
}

/// Mathematical value of a [`Command`].
pub enum CommandView {
    Decode,
    Detect,
    Write(Seq<BoundingBox>),
    Halt,
}

impl View for Command {
    type V = CommandView;

    open spec fn view(&self) -> CommandView {
        match self {
            Command::Decode => CommandView::Decode,
            Command::Detect => CommandView::Detect,
            Command::Write(boxes) => CommandView::Write(boxes@),
            Command::Halt => CommandView::Halt,
        }
    }
}

/// The answer to an accepted signal.
#[derive(Debug, PartialEq, Eq)]
pub struct Step {
    /// What to do next.
    pub command: Command,
    /// What to publish before doing it.
    pub event: Option<ProgressEvent>,
}

/// Mathematical value of a [`Step`].
pub struct StepView {
    pub command: CommandView,
    pub event: Option<ProgressEventView>,
}

impl View for Step {
    type V = StepView;

    open spec fn view(&self) -> StepView {
        StepView {
            command: self.command@,
            event: match self.event {
                Some(e) => Some(e@),
                None => None,
            },
        }
    }
}

/// Mathematical value of a [`VideoProcessor`].
pub struct RunModel {
    pub phase: Phase,
    /// Metadata of the input; all zero until the input is open.
    pub stream: VideoStreamDescriptor,
    /// Frames decoded so far.
    pub frames_read: nat,
    /// Frames written so far.
    pub frames_written: nat,
}

/// The failure of the given stage, as it is published.
pub open spec fn failure(kind: ErrorKind, details: Seq<char>) -> ProgressEventView {
    ProgressEventView::Done(Err(PipelineErrorView { kind, details }))
}

/// The progress report that follows the `written`-th frame, if one is due.
pub open spec fn report_after(written: nat, frame_count: int) -> Option<ProgressEventView> {
    match fraction_after(written, frame_count) {
        Some(f) => Some(ProgressEventView::Progress(f)),
        None => None,
    }
}

impl RunModel {
    /// A run that has not opened anything.
    pub open spec fn fresh() -> RunModel {
        RunModel {
            phase: Phase::Idle,
            stream: VideoStreamDescriptor { width: 0, height: 0, fps_bits: 0, frame_count: 0 },
            frames_read: 0,
            frames_written: 0,
        }
    }

    /// How the two frame counters relate in each phase: a frame that was
    /// decoded is either written or the one being worked on.
    pub open spec fn is_consistent(self) -> bool {
        match self.phase {
            Phase::Idle => self.frames_read == 0 && self.frames_written == 0,
            Phase::AwaitingFrame | Phase::Completed => self.frames_read == self.frames_written,
            Phase::AwaitingDetection | Phase::AwaitingWrite => self.frames_read
                == self.frames_written + 1,
            Phase::Failed => self.frames_written <= self.frames_read <= self.frames_written + 1,
        }
    }

    /// Whether the signal is one that the run waits for in its phase. Any
    /// other signal is left unanswered and changes nothing.
    pub open spec fn accepts(self, signal: SignalView) -> bool {
        match self.phase {
            Phase::Idle => signal is Opened || signal is OpenFailed,
            Phase::AwaitingFrame => signal is Decoded || signal is EndOfStream
                || signal is DecodeFailed,
            Phase::AwaitingDetection => signal is Detected || signal is DetectFailed,
            Phase::AwaitingWrite => signal is Written || signal is WriteFailed,
            Phase::Completed | Phase::Failed => false,
        }
    }

    /// The run after the signal.
    pub open spec fn next(self, signal: SignalView) -> RunModel {
        if !self.accepts(signal) {
            self
        } else {
            match signal {
                SignalView::Opened(stream) => RunModel {
                    phase: Phase::AwaitingFrame,
                    stream,
                    ..self
                },
                SignalView::Decoded => RunModel {
                    phase: Phase::AwaitingDetection,
                    frames_read: self.frames_read + 1,
                    ..self
                },
                SignalView::EndOfStream => RunModel { phase: Phase::Completed, ..self },
                SignalView::Detected(_) => RunModel { phase: Phase::AwaitingWrite, ..self },
                SignalView::Written => RunModel {
                    phase: Phase::AwaitingFrame,
                    frames_written: self.frames_written + 1,
                    ..self
                },
                SignalView::OpenFailed(_) | SignalView::DecodeFailed(_) | SignalView::DetectFailed(
                    _,
                ) | SignalView::WriteFailed(_) => RunModel { phase: Phase::Failed, ..self },
            }
        }
    }

    /// What the run tells the caller to do after the signal.
    pub open spec fn command(self, signal: SignalView) -> CommandView {
        match signal {
            SignalView::Opened(_) | SignalView::Written => CommandView::Decode,
            SignalView::Decoded => CommandView::Detect,
            SignalView::Detected(boxes) => CommandView::Write(
                clamped_all(boxes, self.stream.width as int, self.stream.height as int),
            ),
            SignalView::EndOfStream | SignalView::OpenFailed(_) | SignalView::DecodeFailed(_)
            | SignalView::DetectFailed(_) | SignalView::WriteFailed(_) => CommandView::Halt,
        }
    }

    /// What the run publishes on the signal.
    pub open spec fn event(self, signal: SignalView) -> Option<ProgressEventView> {
        match signal {
            SignalView::Opened(_) | SignalView::Decoded | SignalView::Detected(_) => None,
            SignalView::Written => report_after(
                self.frames_written + 1,
                self.stream.frame_count as int,
            ),
            SignalView::EndOfStream => Some(ProgressEventView::Done(Ok(()))),
            SignalView::OpenFailed(details) => Some(failure(ErrorKind::Open, details)),
            SignalView::DecodeFailed(details) => Some(failure(ErrorKind::Decode, details)),
            SignalView::DetectFailed(details) => Some(failure(ErrorKind::Detect, details)),
            SignalView::WriteFailed(details) => Some(failure(ErrorKind::Encode, details)),
        }
    }

    /// The answer to the signal: none if the run does not accept it.
    pub open spec fn respond(self, signal: SignalView) -> Option<StepView> {
        if self.accepts(signal) {
            Some(StepView { command: self.command(signal), event: self.event(signal) })
        } else {
            None
        }
    }
}

/// The mathematical value of an answer of [`VideoProcessor::advance`].
pub open spec fn answer_view(answer: Option<Step>) -> Option<StepView> {
    match answer {
        Some(step) => Some(step@),
        None => None,
    }
}

/// The command of an answer, if there is an answer.
pub open spec fn command_of(answer: Option<StepView>) -> Option<CommandView> {
    match answer {
        Some(step) => Some(step.command),
        None => None,
    }
}

/// The mathematical value of an optional command.
pub open spec fn command_view(command: Option<Command>) -> Option<CommandView> {
    match command {
        Some(c) => Some(c@),
        None => None,
    }
}

/// The events that an answer hands to a producer handle: the answer's event,
/// unless the handle is closed.
pub open spec fn handed_over(closed: bool, answer: Option<StepView>) -> Seq<ProgressEventView> {
    match answer {
        Some(step) => match step.event {
            Some(event) => if closed {
                Seq::empty()
            } else {
                seq![event]
            },
            None => Seq::empty(),
        },
        None => Seq::empty(),
    }
}

/// Whether an answer publishes the closing event of the run.
pub open spec fn closes(answer: Option<StepView>) -> bool {
    answer matches Some(step) && step.event matches Some(event) && event is Done
}

/// One pass of one input through the pipeline.
#[derive(Debug)]
pub struct VideoProcessor {
    phase: Phase,
    stream: VideoStreamDescriptor,
    frames_read: u64,
    frames_written: u64,
}

impl View for VideoProcessor {
    type V = RunModel;

    closed spec fn view(&self) -> RunModel {
        RunModel {
            phase: self.phase,
            stream: self.stream,
            frames_read: self.frames_read as nat,
            frames_written: self.frames_written as nat,
        }
    }
}

impl VideoProcessor {
    #[verifier::type_invariant]
    spec fn holds(self) -> bool {
        self@.is_consistent()
    }

    /// A run that has not opened anything. It waits for `Opened` or
    /// `OpenFailed`.
    pub fn new() -> (run: VideoProcessor)
        ensures
            run@ == RunModel::fresh(),
    {
        VideoProcessor {
            phase: Phase::Idle,
            stream: VideoStreamDescriptor { width: 0, height: 0, fps_bits: 0, frame_count: 0 },
            frames_read: 0,
            frames_written: 0,
        }
    }

    /// Takes what a stage reported and answers with what to do next and what
    /// to publish.
    ///
    /// A signal that the run does not wait for in its phase gets no answer and
    /// changes nothing; a run that is over accepts no signal. Any failure ends
    /// the run at once, with the one `Done` that names the stage. The end of
    /// the input ends it with `Done(Ok)`. Each written frame is followed by a
    /// progress report where the length of the stream is known.
    pub fn advance(&mut self, signal: Signal) -> (answer: Option<Step>)
        requires
            signal is Decoded ==> old(self)@.frames_read < u64::MAX,
        ensures
            final(self)@ == old(self)@.next(signal@),
            answer is Some <==> old(self)@.accepts(signal@),
            answer_view(answer) == old(self)@.respond(signal@),
            old(self)@.is_consistent(),
            final(self)@.is_consistent(),
    {
        proof {
            use_type_invariant(&*self);
        }
        match self.phase {
            Phase::Idle => match signal {
                Signal::Opened(stream) => {
                    *self =
                    VideoProcessor {
                        phase: Phase::AwaitingFrame,
                        stream,
                        frames_read: 0,
                        frames_written: 0,
                    };
                    Some(Step { command: Command::Decode, event: None })
                },
                Signal::OpenFailed(details) => Some(self.fail(ErrorKind::Open, details)),
                _ => None,
            },
            Phase::AwaitingFrame => match signal {
                Signal::Decoded => {
                    *self =
                    VideoProcessor {
                        phase: Phase::AwaitingDetection,
                        stream: self.stream,
                        frames_read: self.frames_read + 1,
                        frames_written: self.frames_written,
                    };
                    Some(Step { command: Command::Detect, event: None })
                },
                Signal::EndOfStream => {
                    self.phase = Phase::Completed;
                    Some(Step { command: Command::Halt, event: Some(ProgressEvent::Done(Ok(()))) })
                },
                Signal::DecodeFailed(details) => Some(self.fail(ErrorKind::Decode, details)),
                _ => None,
            },
            Phase::AwaitingDetection => match signal {
                Signal::Detected(boxes) => {
                    let drawn = clamp_boxes(&boxes, self.stream.width, self.stream.height);
                    self.phase = Phase::AwaitingWrite;
                    Some(Step { command: Command::Write(drawn), event: None })
                },
                Signal::DetectFailed(details) => Some(self.fail(ErrorKind::Detect, details)),
                _ => None,
            },
            Phase::AwaitingWrite => match signal {
                Signal::Written => {
                    let written: u64 = self.frames_written + 1;
                    *self =
                    VideoProcessor {
                        phase: Phase::AwaitingFrame,
                        stream: self.stream,
                        frames_read: self.frames_read,
                        frames_written: written,
                    };
                    let event = match Progress::after(written, self.stream.frame_count) {
                        Some(p) => Some(ProgressEvent::Progress(p)),
                        None => None,
                    };
                    Some(Step { command: Command::Decode, event })
                },
                Signal::WriteFailed(details) => Some(self.fail(ErrorKind::Encode, details)),
                _ => None,
            },
            Phase::Completed | Phase::Failed => None,
        }
    }

    /// Does what [`VideoProcessor::advance`] does and hands the event, if
    /// there is one, to the run's producer handle, waiting there while the
    /// channel is full. Returns the command.
    ///
    /// The handle closes with the run: it has taken a `Done` exactly if it
    /// had before or the run ended on this signal.
    pub fn drive(&mut self, signal: Signal, sender: &mut RunSender) -> (command: Option<Command>)
        requires
            signal is Decoded ==> old(self)@.frames_read < u64::MAX,
        ensures
            final(self)@ == old(self)@.next(signal@),
            command_view(command) == command_of(old(self)@.respond(signal@)),
            final(sender).handed() == old(sender).handed() + handed_over(
                old(sender).is_closed(),
                old(self)@.respond(signal@),
            ),
            closes(old(self)@.respond(signal@)) <==> !old(self)@.phase.is_terminal()
                && old(self)@.next(signal@).phase.is_terminal(),
    {
        let command = match self.advance(signal) {
            Some(step) => {
                match step.event {
                    Some(event) => {
                        sender.publish(event);
                    },
                    None => {},
                }
                Some(step.command)
            },
            None => None,
        };
        proof {
            let given = handed_over(old(sender).is_closed(), old(self)@.respond(signal@));
            if given.len() == 0 {
                assert(old(sender).handed() + given =~= old(sender).handed());
            } else {
                assert(old(sender).handed() + given =~= old(sender).handed().push(given[0]));
            }
        }
        command
    }

    /// Ends the run on a failure of the given stage.
    fn fail(&mut self, kind: ErrorKind, details: String) -> (step: Step)
        requires
            !old(self)@.phase.is_terminal(),
        ensures
            final(self)@ == (RunModel { phase: Phase::Failed, ..old(self)@ }),
            step@ == (StepView { command: CommandView::Halt, event: Some(failure(kind, details@)) }),
    {
        proof {
            use_type_invariant(&*self);
        }
        self.phase = Phase::Failed;
        Step {
            command: Command::Halt,
            event: Some(ProgressEvent::Done(Err(PipelineError::new(kind, details)))),
        }
    }

    /// The state of the run.
    pub fn state(&self) -> (state: RunState)
        ensures
            state == self@.phase.state(),
    {
        match self.phase {
            Phase::Idle => RunState::Idle,
            Phase::AwaitingFrame | Phase::AwaitingDetection | Phase::AwaitingWrite => RunState::Running,
            Phase::Completed => RunState::Completed,
            Phase::Failed => RunState::Failed,
        }
    }

    /// The phase of the run.
    pub fn phase(&self) -> (phase: Phase)
        ensures
            phase == self@.phase,
    {
        self.phase
    }

    /// Whether the run is over.
    pub fn is_finished(&self) -> (over: bool)
        ensures
            over == self@.phase.is_terminal(),
    {
        match self.phase {
            Phase::Completed | Phase::Failed => true,
            _ => false,
        }
    }

    /// Metadata of the input; all zero until the input is open.
    pub fn stream(&self) -> (stream: VideoStreamDescriptor)
        ensures
            stream == self@.stream,
    {
        self.stream
    }

    /// Frames decoded so far.
    pub fn frames_read(&self) -> (n: u64)
        ensures
            n == self@.frames_read,
            self@.is_consistent(),
    {
        proof {
            use_type_invariant(self);
        }
        self.frames_read
    }

    /// Frames written so far.
    pub fn frames_written(&self) -> (n: u64)
        ensures
            n == self@.frames_written,
            self@.is_consistent(),
    {
        proof {
            use_type_invariant(self);
        }
        self.frames_written
    }
}

} // verus!
