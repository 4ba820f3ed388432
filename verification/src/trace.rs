//! What holds of every run, whatever the stages report.
//!
//! A run is the fresh state followed by any sequence of signals. The laws
//! below speak of the state that such a sequence leads to and of the events
//! that it publishes on the way.

use vstd::prelude::*;
use crate::event::{fraction_after, ErrorKind, ProgressEventView};
use crate::channel::ends_with_done;
use crate::processor::{failure, handed_over, report_after, RunModel, SignalView};
use crate::stream::VideoStreamDescriptor;
use crate::ui::{
    completion_message, failure_message, law_done_releases, law_reports_coalesce, AppModel,
};

verus! {

/// The state of a fresh run after the given signals, in order.
pub open spec fn run(signals: Seq<SignalView>) -> RunModel
    decreases signals.len(),
{
    if signals.len() == 0 {
        RunModel::fresh()
    } else {
        run(signals.drop_last()).next(signals.last())
    }
}

/// The events that a fresh run publishes on the given signals, in order.
pub open spec fn published(signals: Seq<SignalView>) -> Seq<ProgressEventView>
    decreases signals.len(),
{
    if signals.len() == 0 {
        Seq::empty()
    } else {
        let before = published(signals.drop_last());
        match run(signals.drop_last()).respond(signals.last()) {
            Some(step) => match step.event {
                Some(event) => before.push(event),
                None => before,
            },
            None => before,
        }
    }
}

/// The progress reports of the first `written` frames of a stream that
/// announced `frame_count` frames.
pub open spec fn reports(written: nat, frame_count: int) -> Seq<ProgressEventView>
    decreases written,
{
    if written == 0 {
        Seq::empty()
    } else {
        let before = reports((written - 1) as nat, frame_count);
        match report_after(written, frame_count) {
            Some(event) => before.push(event),
            None => before,
        }
    }
}

/// A stream of unknown length has no reports; one of known length has one per
/// frame, the `k`-th being the share of `k` frames.
pub proof fn lemma_reports(written: nat, frame_count: int)
    ensures
        frame_count <= 0 ==> reports(written, frame_count).len() == 0,
        frame_count > 0 ==> reports(written, frame_count).len() == written,
        forall|k: int|
            0 <= k < reports(written, frame_count).len() ==> Some(
                #[trigger] reports(written, frame_count)[k],
            ) == report_after((k + 1) as nat, frame_count),
    decreases written,
{
    if written > 0 {
        lemma_reports((written - 1) as nat, frame_count);
    }
}

/// The events of a run are the reports of the frames written so far, followed
/// by the closing event once the run is over.
pub proof fn lemma_published_shape(signals: Seq<SignalView>)
    ensures
        run(signals).is_consistent(),
        !run(signals).phase.is_terminal() ==> published(signals) == reports(
            run(signals).frames_written,
            run(signals).stream.frame_count as int,
        ),
        run(signals).phase.is_terminal() ==> {
            &&& published(signals).len() > 0
            &&& published(signals).drop_last() == reports(
                run(signals).frames_written,
                run(signals).stream.frame_count as int,
            )
            &&& published(signals).last() is Done
            &&& run(signals).phase is Completed ==> published(signals).last()
                == ProgressEventView::Done(Ok(()))
            &&& run(signals).phase is Failed ==> published(signals).last() matches ProgressEventView::Done(
                Err(_),
            )
        },
    decreases signals.len(),
{
    if signals.len() > 0 {
        let earlier = signals.drop_last();
        let before = run(earlier);
        lemma_published_shape(earlier);
        if before.accepts(signals.last()) {
            let event = before.event(signals.last());
            if event is Some {
                assert(published(signals).drop_last() =~= published(earlier));
            }
        }
    }
}

/// No frame is lost and none is written twice: at every moment of a run each
/// decoded frame is written or is the one being worked on, and a run that
/// completed has written exactly the frames that it decoded.
pub proof fn law_frames_balance(signals: Seq<SignalView>)
    ensures
        run(signals).is_consistent(),
        run(signals).frames_written <= run(signals).frames_read <= run(signals).frames_written + 1,
        run(signals).phase.holds_frame() ==> run(signals).frames_read == run(
            signals,
        ).frames_written + 1,
        run(signals).phase is Completed ==> run(signals).frames_read == run(
            signals,
        ).frames_written,
{
    lemma_published_shape(signals);
}

/// A run publishes `Done` once it is over and not before, and nothing after
/// it: an event is `Done` exactly if the run is over and the event is the last.
pub proof fn law_single_done(signals: Seq<SignalView>)
    ensures
        forall|i: int|
            0 <= i < published(signals).len() ==> ((#[trigger] published(signals)[i]) is Done <==> (
            run(signals).phase.is_terminal() && i == published(signals).len() - 1)),
        run(signals).phase.is_terminal() ==> published(signals).len() > 0,
        run(signals).phase is Completed ==> published(signals).last() == ProgressEventView::Done(
            Ok(()),
        ),
        run(signals).phase is Failed ==> published(signals).last() matches ProgressEventView::Done(
            Err(_),
        ),
{
    lemma_published_shape(signals);
    let m = run(signals);
    lemma_reports(m.frames_written, m.stream.frame_count as int);
    let shown = reports(m.frames_written, m.stream.frame_count as int);
    assert forall|i: int| 0 <= i < published(signals).len() implies ((#[trigger] published(
        signals,
    )[i]) is Done <==> (m.phase.is_terminal() && i == published(signals).len() - 1)) by {
        if m.phase.is_terminal() {
            if i < published(signals).len() - 1 {
                assert(published(signals)[i] == published(signals).drop_last()[i]);
                assert(Some(shown[i]) == report_after((i + 1) as nat, m.stream.frame_count as int));
            }
        } else {
            assert(Some(shown[i]) == report_after((i + 1) as nat, m.stream.frame_count as int));
        }
    }
}

/// Over one denominator the share of fewer frames is the smaller one.
proof fn lemma_shares_grow(earlier: nat, later: nat, frame_count: int)
    requires
        earlier <= later,
        frame_count > 0,
    ensures
        fraction_after(earlier, frame_count) matches Some(a) && fraction_after(
            later,
            frame_count,
        ) matches Some(b) && a.is_proper() && b.is_proper() && a.at_most(b),
{
    let a = fraction_after(earlier, frame_count)->0;
    let b = fraction_after(later, frame_count)->0;
    assert(a.numerator * b.denominator <= b.numerator * a.denominator) by (nonlinear_arith)
        requires
            a.numerator <= b.numerator,
            a.denominator == b.denominator,
    ;
}

/// Every progress report of a run is a share between 0 and 1, and no report
/// is smaller than one published before it.
pub proof fn law_progress_monotone(signals: Seq<SignalView>)
    ensures
        forall|i: int|
            0 <= i < published(signals).len() ==> ((#[trigger] published(
                signals,
            )[i]) matches ProgressEventView::Progress(f) ==> f.is_proper()),
        forall|i: int, j: int|
            0 <= i <= j < published(signals).len() ==> ((#[trigger] published(signals)[i], #[trigger] published(
                signals,
            )[j]) matches (ProgressEventView::Progress(a), ProgressEventView::Progress(b))
                ==> a.at_most(b)),
{
    lemma_published_shape(signals);
    let m = run(signals);
    let count = m.stream.frame_count as int;
    lemma_reports(m.frames_written, count);
    let shown = reports(m.frames_written, count);
    let all = published(signals);
    assert forall|i: int| 0 <= i < shown.len() implies all[i] == #[trigger] shown[i] by {
        if m.phase.is_terminal() {
            assert(all.drop_last()[i] == all[i]);
        }
    }
    assert forall|i: int| 0 <= i < all.len() implies ((#[trigger] all[i]) matches ProgressEventView::Progress(
        f,
    ) ==> f.is_proper()) by {
        if i < shown.len() {
            assert(all[i] == shown[i]);
            lemma_shares_grow((i + 1) as nat, (i + 1) as nat, count);
        }
    }
    assert forall|i: int, j: int| 0 <= i <= j < all.len() implies ((#[trigger] all[i], #[trigger] all[j]) matches (
        ProgressEventView::Progress(a),
        ProgressEventView::Progress(b),
    ) ==> a.at_most(b)) by {
        if j < shown.len() {
            assert(all[i] == shown[i]);
            assert(all[j] == shown[j]);
            lemma_shares_grow((i + 1) as nat, (j + 1) as nat, count);
        }
    }
}

/// A run that completed on a stream of known length, and wrote at least the
/// announced number of frames, reported the whole just before `Done`.
pub proof fn law_progress_ends_whole(signals: Seq<SignalView>)
    requires
        run(signals).phase is Completed,
        0 < run(signals).stream.frame_count <= run(signals).frames_written,
    ensures
        published(signals).len() >= 2,
        published(signals)[published(signals).len() - 2] matches ProgressEventView::Progress(f)
            && f.is_whole(),
{
    lemma_published_shape(signals);
    let m = run(signals);
    let count = m.stream.frame_count as int;
    lemma_reports(m.frames_written, count);
    let all = published(signals);
    let at = all.len() - 2;
    assert(all.drop_last()[at] == all[at]);
}

/// An input without frames completes with the one event `Done(Ok)`.
pub proof fn law_empty_stream(stream: VideoStreamDescriptor)
    ensures
        run(seq![SignalView::Opened(stream), SignalView::EndOfStream]).phase is Completed,
        run(seq![SignalView::Opened(stream), SignalView::EndOfStream]).frames_written == 0,
        published(seq![SignalView::Opened(stream), SignalView::EndOfStream])
            == seq![ProgressEventView::Done(Ok(()))],
{
    let both = seq![SignalView::Opened(stream), SignalView::EndOfStream];
    let first = seq![SignalView::Opened(stream)];
    assert(both.drop_last() =~= first);
    assert(first.drop_last() =~= Seq::<SignalView>::empty());
    reveal_with_fuel(run, 3);
    reveal_with_fuel(published, 3);
    assert(run(first).phase is AwaitingFrame);
    assert(published(first) =~= Seq::<ProgressEventView>::empty());
    assert(published(both) =~= seq![ProgressEventView::Done(Ok(()))]);
}

/// A run whose input or output cannot be opened fails at once with the one
/// event `Done` that carries the description, and no frame is ever read or
/// written, whatever is reported afterwards.
pub proof fn law_open_failure_reads_nothing(details: Seq<char>, more: Seq<SignalView>)
    ensures
        run(seq![SignalView::OpenFailed(details)] + more).phase is Failed,
        run(seq![SignalView::OpenFailed(details)] + more).frames_read == 0,
        run(seq![SignalView::OpenFailed(details)] + more).frames_written == 0,
        published(seq![SignalView::OpenFailed(details)] + more) == seq![
            failure(ErrorKind::Open, details),
        ],
    decreases more.len(),
{
    let first = seq![SignalView::OpenFailed(details)];
    if more.len() == 0 {
        assert(first + more =~= first);
        assert(first.drop_last() =~= Seq::<SignalView>::empty());
        reveal_with_fuel(run, 2);
        reveal_with_fuel(published, 2);
        assert(published(first) =~= seq![failure(ErrorKind::Open, details)]);
    } else {
        law_open_failure_reads_nothing(details, more.drop_last());
        assert(first + more =~= (first + more.drop_last()).push(more.last()));
        law_terminal_absorbs(first + more.drop_last(), more.last());
    }
}

/// A run that is over stays as it is and publishes nothing more.
pub proof fn law_terminal_absorbs(signals: Seq<SignalView>, more: SignalView)
    requires
        run(signals).phase.is_terminal(),
    ensures
        run(signals.push(more)) == run(signals),
        published(signals.push(more)) == published(signals),
{
    assert(signals.push(more).drop_last() =~= signals);
}

/// The events that a new producer handle has handed to the channel after it
/// was driven along a fresh run by the given signals.
pub open spec fn delivered(signals: Seq<SignalView>) -> Seq<ProgressEventView>
    decreases signals.len(),
{
    if signals.len() == 0 {
        Seq::empty()
    } else {
        let before = delivered(signals.drop_last());
        before + handed_over(
            ends_with_done(before),
            run(signals.drop_last()).respond(signals.last()),
        )
    }
}

/// A producer handle that serves one run from its start hands every event of
/// the run to the channel: it never has to drop one.
pub proof fn law_handle_carries_run(signals: Seq<SignalView>)
    ensures
        delivered(signals) == published(signals),
    decreases signals.len(),
{
    if signals.len() > 0 {
        let earlier = signals.drop_last();
        law_handle_carries_run(earlier);
        law_single_done(earlier);
        let answer = run(earlier).respond(signals.last());
        let given = handed_over(ends_with_done(published(earlier)), answer);
        if given.len() == 0 {
            assert(published(earlier) + given =~= published(earlier));
        } else {
            assert(published(earlier) + given =~= published(earlier).push(given[0]));
        }
    }
}

/// A control surface that applies the events of a run shows a run as active
/// for as long as the run is not over, and the run's outcome once it is.
pub proof fn law_surface_follows_run(app: AppModel, signals: Seq<SignalView>)
    ensures
        !run(signals).phase.is_terminal() ==> {
            &&& app.replayed(published(signals)).processing == app.processing
            &&& app.replayed(published(signals)).message == app.message
        },
        run(signals).phase.is_terminal() ==> !app.replayed(published(signals)).processing,
        run(signals).phase is Completed ==> app.replayed(published(signals)).message
            == completion_message(),
        run(signals).phase is Failed ==> (published(signals).last() matches ProgressEventView::Done(
            Err(error),
        ) && app.replayed(published(signals)).message == failure_message(error.details)),
{
    law_single_done(signals);
    if run(signals).phase.is_terminal() {
        law_done_releases(app, published(signals));
    } else {
        law_reports_coalesce(app, published(signals));
    }
}

} // verus!
