//! The control surface: what the user selected, whether a run is active,
//! and what is shown of it.
//!
//! The control surface never waits. On each of its turns it takes the events
//! that the channel holds and applies them in order; a run is started only
//! where both paths are there and no other run is active.

use vstd::prelude::*;
use crate::channel::{views, ProgressChannel, RunSender, CHANNEL_CAPACITY};
use crate::event::{Fraction, Progress, ProgressEvent, ProgressEventView};

verus! {

/// Why a run was not started.
#[derive(Clone, Copy, Debug, PartialEq, Eq, Structural)]
pub enum ValidationError {
    /// A run is active: its `Done` has not been applied yet.
    AlreadyRunning,
    /// No input path was given.
    MissingInput,
    /// No output path was given.
    MissingOutput,
}

/// What a worker needs to carry out a run.
pub struct RunRequest {
    pub input_path: String,
    pub output_path: String,
    /// Where the run publishes its events.
    pub sender: RunSender,
}

/// What the user did on the control surface.
#[derive(Debug, PartialEq, Eq)]
pub enum Interaction {
    /// The input dialog was closed, with a path or without one.
    InputPicked(Option<String>),
    /// The output dialog was closed, with a path or without one.
    OutputPicked(Option<String>),
    /// The user asked for the video to be processed.
    ProcessClicked,
}

/// The mathematical value of an optional path.
pub open spec fn path_view(path: Option<String>) -> Option<Seq<char>> {
    match path {
        Some(p) => Some(p@),
        None => None,
    }
}

/// Mathematical value of an [`Interaction`].
pub enum InteractionView {
    InputPicked(Option<Seq<char>>),
    OutputPicked(Option<Seq<char>>),
    ProcessClicked,
}

impl View for Interaction {
    type V = InteractionView;

    open spec fn view(&self) -> InteractionView {
        match self {
            Interaction::InputPicked(path) => InteractionView::InputPicked(path_view(*path)),
            Interaction::OutputPicked(path) => InteractionView::OutputPicked(path_view(*path)),
            Interaction::ProcessClicked => InteractionView::ProcessClicked,
        }
    }
}

/// The message shown after a run that succeeded.
pub open spec fn completion_message() -> Seq<char> {
    "Processing complete!"@
}

/// The message shown after a run that failed with the given description.
pub open spec fn failure_message(details: Seq<char>) -> Seq<char> {
    "Error: "@ + details
}

/// Mathematical value of a [`DetectorApp`].
pub struct AppModel {
    pub input_path: Option<Seq<char>>,
    pub output_path: Option<Seq<char>>,
    /// A run is active.
    pub processing: bool,
    /// The share of the run that is shown as done.
    pub progress: Fraction,
    /// The outcome of the last run; empty while there is none to show.
    pub message: Seq<char>,
}

impl AppModel {
    /// The control surface before anything was selected.
    pub open spec fn fresh() -> AppModel {
        AppModel {
            input_path: None,
            output_path: None,
            processing: false,
            progress: Fraction { numerator: 0, denominator: 1 },
            message: Seq::empty(),
        }
    }

    /// Whether a run on the given paths may start.
    pub open spec fn validate(
        self,
        input_path: Option<Seq<char>>,
        output_path: Option<Seq<char>>,
    ) -> Result<(), ValidationError> {
        if self.processing {
            Err(ValidationError::AlreadyRunning)
        } else if input_path is None {
            Err(ValidationError::MissingInput)
        } else if output_path is None {
            Err(ValidationError::MissingOutput)
        } else {
            Ok(())
        }
    }

    /// The control surface after a request to start a run on the given
    /// paths: unchanged where the request is refused.
    pub open spec fn started(
        self,
        input_path: Option<Seq<char>>,
        output_path: Option<Seq<char>>,
    ) -> AppModel {
        if self.validate(input_path, output_path) is Ok {
            AppModel { input_path, output_path, processing: true, message: Seq::empty(), ..self }
        } else {
            self
        }
    }

    /// The control surface after an event of the run.
    pub open spec fn applied(self, event: ProgressEventView) -> AppModel {
        match event {
            ProgressEventView::Progress(share) => AppModel { progress: share, ..self },
            ProgressEventView::Done(Ok(_)) => AppModel {
                processing: false,
                message: completion_message(),
                ..self
            },
            ProgressEventView::Done(Err(error)) => AppModel {
                processing: false,
                message: failure_message(error.details),
                ..self
            },
        }
    }

    /// The control surface after the given events, applied in order.
    pub open spec fn replayed(self, events: Seq<ProgressEventView>) -> AppModel
        decreases events.len(),
    {
        if events.len() == 0 {
            self
        } else {
            self.replayed(events.drop_last()).applied(events.last())
        }
    }

    /// The control surface after something the user did.
    pub open spec fn interacted(self, interaction: InteractionView) -> AppModel {
        match interaction {
            InteractionView::InputPicked(Some(path)) => AppModel { input_path: Some(path), ..self },
            InteractionView::OutputPicked(Some(path)) => AppModel {
                output_path: Some(path),
                ..self
            },
            InteractionView::InputPicked(None) | InteractionView::OutputPicked(None) => self,
            InteractionView::ProcessClicked => self.started(self.input_path, self.output_path),
        }
    }
}

/// The state of the control surface, with its end of the channel.
pub struct DetectorApp {
    input_path: Option<String>,
    output_path: Option<String>,
    processing: bool,
    progress: Progress,
    message: String,
    channel: ProgressChannel,
}

impl View for DetectorApp {
    type V = AppModel;

    closed spec fn view(&self) -> AppModel {
        AppModel {
            input_path: path_view(self.input_path),
            output_path: path_view(self.output_path),
            processing: self.processing,
            progress: self.progress@,
            message: self.message@,
        }
    }
}

fn copy_of(path: &Option<String>) -> (copy: Option<String>)
    ensures
        copy == *path,
{
    match path {
        Some(p) => Some(p.clone()),
        None => None,
    }
}

impl DetectorApp {
    /// A control surface with nothing selected and no run active, and with a
    /// channel of its own.
    pub fn new() -> (app: DetectorApp)
        ensures
            app@ == AppModel::fresh(),
    {
        DetectorApp {
            input_path: None,
            output_path: None,
            processing: false,
            progress: Progress::zero(),
            message: String::new(),
            channel: ProgressChannel::new(),
        }
    }

    /// Starts a run on the given paths, or says why not.
    ///
    /// A run starts where no run is active and both paths are given. The
    /// control surface then counts as processing until the run's `Done` is
    /// applied, the message of the run before is cleared, and the request
    /// carries the paths and a producer handle for the worker. Where the run
    /// does not start, nothing changes.
    pub fn start(&mut self, input_path: Option<String>, output_path: Option<String>) -> (outcome:
        Result<RunRequest, ValidationError>)
        ensures
            final(self)@ == old(self)@.started(path_view(input_path), path_view(output_path)),
            outcome is Ok <==> old(self)@.validate(path_view(input_path), path_view(output_path))
                is Ok,
            outcome matches Ok(request) ==> {
                &&& old(self)@.validate(path_view(input_path), path_view(output_path)) is Ok
                &&& Some(request.input_path@) == path_view(input_path)
                &&& Some(request.output_path@) == path_view(output_path)
                &&& request.sender.handed() == Seq::<ProgressEventView>::empty()
            },
            outcome matches Err(error) ==> old(self)@.validate(
                path_view(input_path),
                path_view(output_path),
            ) == Err::<(), ValidationError>(error),
    {
        if self.processing {
            return Err(ValidationError::AlreadyRunning);
        }
        match (input_path, output_path) {
            (None, _) => Err(ValidationError::MissingInput),
            (Some(_), None) => Err(ValidationError::MissingOutput),
            (Some(input), Some(output)) => {
                self.input_path = Some(input.clone());
                self.output_path = Some(output.clone());
                self.processing = true;
                self.message = String::new();
                Ok(
                    RunRequest {
                        input_path: input,
                        output_path: output,
                        sender: self.channel.run_sender(),
                    },
                )
            },
        }
    }

    /// Applies one event of the run: a progress report replaces the share
    /// shown; `Done` ends the processing and sets the message.
    pub fn apply(&mut self, event: &ProgressEvent)
        ensures
            final(self)@ == old(self)@.applied(event@),
    {
        match event {
            ProgressEvent::Progress(share) => {
                self.progress = *share;
            },
            ProgressEvent::Done(Ok(_)) => {
                self.processing = false;
                self.message = String::from_str("Processing complete!");
            },
            ProgressEvent::Done(Err(error)) => {
                self.processing = false;
                self.message = String::from_str("Error: ").concat(error.details.as_str());
            },
        }
    }

    /// Applies a batch of events in order.
    pub fn apply_all(&mut self, events: &Vec<ProgressEvent>)
        ensures
            final(self)@ == old(self)@.replayed(views(events@)),
    {
        let mut done: usize = 0;
        while done < events.len()
            invariant
                done <= events@.len(),
                self@ == old(self)@.replayed(views(events@.take(done as int))),
            decreases events@.len() - done,
        {
            proof {
                let shown = views(events@.take(done + 1));
                assert(shown.drop_last() =~= views(events@.take(done as int)));
                assert(shown.last() == events@[done as int]@);
            }
            self.apply(&events[done]);
            done = done + 1;
        }
        proof {
            assert(events@.take(done as int) =~= events@);
        }
    }

    /// One turn of the control surface: takes the events that the channel
    /// holds at this moment, without waiting, and applies them in order.
    /// Returns the events taken.
    pub fn poll(&mut self) -> (events: Vec<ProgressEvent>)
        ensures
            final(self)@ == old(self)@.replayed(views(events@)),
            events@.len() <= CHANNEL_CAPACITY,
    {
        let events = self.channel.drain();
        self.apply_all(&events);
        events
    }

    /// Takes what the user did: a picked path replaces the selection, a
    /// dialog closed without a path changes nothing, and a request to process
    /// starts a run on the selected paths if one may start. Returns the
    /// request of the run that was started, if one was.
    pub fn ui(&mut self, interaction: Interaction) -> (request: Option<RunRequest>)
        ensures
            final(self)@ == old(self)@.interacted(interaction@),
            request is Some <==> interaction is ProcessClicked && old(self)@.validate(
                old(self)@.input_path,
                old(self)@.output_path,
            ) is Ok,
            request matches Some(r) ==> {
                &&& Some(r.input_path@) == old(self)@.input_path
                &&& Some(r.output_path@) == old(self)@.output_path
                &&& r.sender.handed() == Seq::<ProgressEventView>::empty()
            },
    {
        match interaction {
            Interaction::InputPicked(Some(path)) => {
                self.input_path = Some(path);
                None
            },
            Interaction::OutputPicked(Some(path)) => {
                self.output_path = Some(path);
                None
            },
            Interaction::InputPicked(None) | Interaction::OutputPicked(None) => None,
            Interaction::ProcessClicked => {
                let input = copy_of(&self.input_path);
                let output = copy_of(&self.output_path);
                match self.start(input, output) {
                    Ok(request) => Some(request),
                    Err(_) => None,
                }
            },
        }
    }

    /// The selected input path.
    pub fn input_path(&self) -> (path: &Option<String>)
        ensures
            path_view(*path) == self@.input_path,
    {
        &self.input_path
    }

    /// The selected output path.
    pub fn output_path(&self) -> (path: &Option<String>)
        ensures
            path_view(*path) == self@.output_path,
    {
        &self.output_path
    }

    /// Whether a run is active.
    pub fn is_processing(&self) -> (active: bool)
        ensures
            active == self@.processing,
    {
        self.processing
    }

    /// The share of the run that is shown as done.
    pub fn progress(&self) -> (share: Progress)
        ensures
            share@ == self@.progress,
    {
        self.progress
    }

    /// The outcome of the last run; empty while there is none to show.
    pub fn message(&self) -> (text: &String)
        ensures
            text@ == self@.message,
    {
        &self.message
    }

    /// The number of events that the channel holds before a run has to wait.
    pub fn channel_capacity(&self) -> (bound: Option<usize>)
        ensures
            bound == Some(CHANNEL_CAPACITY),
    {
        self.channel.capacity()
    }
}

/// Progress reports do not add up: after a run of them the control surface
/// shows the last one, and nothing else has changed. So reports may be
/// skipped as long as a later one is applied.
pub proof fn law_reports_coalesce(app: AppModel, events: Seq<ProgressEventView>)
    requires
        forall|i: int| 0 <= i < events.len() ==> (#[trigger] events[i]) is Progress,
    ensures
        events.len() == 0 ==> app.replayed(events) == app,
        events.len() > 0 ==> app.replayed(events) == app.applied(events.last()),
        app.replayed(events).processing == app.processing,
        app.replayed(events).message == app.message,
    decreases events.len(),
{
    if events.len() > 0 {
        law_reports_coalesce(app, events.drop_last());
    }
}

/// Only one run at a time: once a run has started, every further request is
/// refused as `AlreadyRunning`, whatever its paths, for as long as only
/// progress reports have been applied.
pub proof fn law_single_flight(
    app: AppModel,
    input_path: Option<Seq<char>>,
    output_path: Option<Seq<char>>,
    reports: Seq<ProgressEventView>,
    next_input: Option<Seq<char>>,
    next_output: Option<Seq<char>>,
)
    requires
        app.validate(input_path, output_path) is Ok,
        forall|i: int| 0 <= i < reports.len() ==> (#[trigger] reports[i]) is Progress,
    ensures
        app.started(input_path, output_path).replayed(reports).validate(next_input, next_output)
            == Err::<(), ValidationError>(ValidationError::AlreadyRunning),
        app.started(input_path, output_path).replayed(reports).started(next_input, next_output)
            == app.started(input_path, output_path).replayed(reports),
{
    law_reports_coalesce(app.started(input_path, output_path), reports);
}

/// `Done` is never lost in a batch: after a batch that ends with `Done` no
/// run is active and the message tells the outcome, whatever came before.
pub proof fn law_done_releases(app: AppModel, events: Seq<ProgressEventView>)
    requires
        events.len() > 0,
        events.last() is Done,
    ensures
        !app.replayed(events).processing,
        events.last() == ProgressEventView::Done(Ok(())) ==> app.replayed(events).message
            == completion_message(),
        events.last() matches ProgressEventView::Done(Err(error)) ==> app.replayed(events).message
            == failure_message(error.details),
        app.replayed(events).validate(
            app.replayed(events).input_path,
            app.replayed(events).output_path,
        ) != Err::<(), ValidationError>(ValidationError::AlreadyRunning),
{
}

/// Applying events in two batches gives what applying them in one gives.
pub proof fn law_batches_compose(
    app: AppModel,
    first: Seq<ProgressEventView>,
    second: Seq<ProgressEventView>,
)
    ensures
        app.replayed(first + second) == app.replayed(first).replayed(second),
    decreases second.len(),
{
    if second.len() == 0 {
        assert(first + second =~= first);
    } else {
        law_batches_compose(app, first, second.drop_last());
        assert((first + second).drop_last() =~= first + second.drop_last());
        assert((first + second).last() == second.last());
    }
}

} // verus!
