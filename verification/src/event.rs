//! Events that a pipeline run publishes to the control surface.

use vstd::prelude::*;

verus! {

/// The stage at which a run failed.
#[derive(Clone, Copy, Debug, PartialEq, Eq, Structural)]
pub enum ErrorKind {
    /// The input could not be read or the output could not be created.
    Open,
    /// A frame could not be decoded.
    Decode,
    /// The detector could not evaluate a frame.
    Detect,
    /// A frame could not be written to the output.
    Encode,
}

/// Why a run failed: the stage, and what the stage reported.
#[derive(Debug, PartialEq, Eq)]
pub struct PipelineError {
    pub kind: ErrorKind,
    pub details: String,
}

/// Mathematical value of a [`PipelineError`].
pub struct PipelineErrorView {
    pub kind: ErrorKind,
    pub details: Seq<char>,
}

impl View for PipelineError {
    type V = PipelineErrorView;

    open spec fn view(&self) -> PipelineErrorView {
        PipelineErrorView { kind: self.kind, details: self.details@ }
    }
}

impl Clone for PipelineError {
    fn clone(&self) -> (out: PipelineError)
        ensures
            out@ == self@,
    {
        PipelineError { kind: self.kind, details: self.details.clone() }
    }
}

impl PipelineError {
    /// A failure of the given stage with the stage's own description.
    pub fn new(kind: ErrorKind, details: String) -> (out: PipelineError)
        ensures
            out@ == (PipelineErrorView { kind, details: details@ }),
    {
        PipelineError { kind, details }
    }
}

/// A share of the work: `numerator` parts out of `denominator`.
pub struct Fraction {
    pub numerator: nat,
    pub denominator: nat,
}

impl Fraction {
    /// The fraction denotes a number between 0 and 1, both included.
    pub open spec fn is_proper(self) -> bool {
        0 < self.denominator && self.numerator <= self.denominator
    }

    /// The fraction denotes 1.
    pub open spec fn is_whole(self) -> bool {
        0 < self.denominator && self.numerator == self.denominator
    }

    /// `self <= other` as rational numbers, for fractions with positive
    /// denominators.
    pub open spec fn at_most(self, other: Fraction) -> bool {
        self.numerator * other.denominator <= other.numerator * self.denominator
    }
}

/// The share of a run that is done. Always a number between 0 and 1: the
/// number of frames written so far over the number of frames expected, never
/// more than the whole.
#[derive(Clone, Copy, Debug, PartialEq, Eq)]
pub struct Progress {
    processed: u64,
    total: u64,
}

impl View for Progress {
    type V = Fraction;

    closed spec fn view(&self) -> Fraction {
        Fraction { numerator: self.processed as nat, denominator: self.total as nat }
    }
}

/// What is reported after `processed` frames of a stream that announced
/// `frame_count` frames. A count of zero or less means that the length of the
/// stream is unknown, and nothing is reported. A stream that turns out longer
/// than announced stays at the whole.
pub open spec fn fraction_after(processed: nat, frame_count: int) -> Option<Fraction> {
    if frame_count <= 0 {
        None
    } else if processed <= frame_count {
        Some(Fraction { numerator: processed, denominator: frame_count as nat })
    } else {
        Some(Fraction { numerator: frame_count as nat, denominator: frame_count as nat })
    }
}

proof fn lemma_product_fits(a: u64, b: u64)
    ensures
        0 <= a * b <= u128::MAX,
{
    assert(0 <= a * b <= 0xffff_ffff_ffff_ffff * 0xffff_ffff_ffff_ffff) by (nonlinear_arith)
        requires
            0 <= a <= 0xffff_ffff_ffff_ffff,
            0 <= b <= 0xffff_ffff_ffff_ffff,
    ;
}

impl Progress {
    #[verifier::type_invariant]
    spec fn holds(self) -> bool {
        0 < self.total && self.processed <= self.total
    }

    /// `processed` parts of `total`, where that is a share between 0 and 1.
    pub fn new(processed: u64, total: u64) -> (out: Option<Progress>)
        ensures
            out is Some <==> 0 < total && processed <= total,
            out matches Some(p) ==> p@ == (Fraction {
                numerator: processed as nat,
                denominator: total as nat,
            }),
    {
        if 0 < total && processed <= total {
            Some(Progress { processed, total })
        } else {
            None
        }
    }

    /// Nothing done yet.
    pub fn zero() -> (out: Progress)
        ensures
            out@ == (Fraction { numerator: 0, denominator: 1 }),
    {
        Progress { processed: 0, total: 1 }
    }

    /// The share to report after `processed` frames were written.
    pub fn after(processed: u64, frame_count: i64) -> (out: Option<Progress>)
        ensures
            out is Some <==> fraction_after(processed as nat, frame_count as int) is Some,
            out matches Some(p) ==> Some(p@) == fraction_after(processed as nat, frame_count as int),
            out matches Some(p) ==> p@.is_proper(),
    {
        if frame_count <= 0 {
            None
        } else {
            let total: u64 = frame_count as u64;
            if processed <= total {
                Some(Progress { processed, total })
            } else {
                Some(Progress { processed: total, total })
            }
        }
    }

    /// The parts done.
    pub fn processed(&self) -> (n: u64)
        ensures
            n == self@.numerator,
            self@.is_proper(),
    {
        proof {
            use_type_invariant(self);
        }
        self.processed
    }

    /// The parts that make the whole.
    pub fn total(&self) -> (n: u64)
        ensures
            n == self@.denominator,
            self@.is_proper(),
    {
        proof {
            use_type_invariant(self);
        }
        self.total
    }

    /// Whether everything is done.
    pub fn is_complete(&self) -> (whole: bool)
        ensures
            whole == self@.is_whole(),
            self@.is_proper(),
    {
        proof {
            use_type_invariant(self);
        }
        self.processed == self.total
    }

    /// Whether this share is no smaller than `earlier`.
    pub fn is_at_least(&self, earlier: &Progress) -> (later: bool)
        ensures
            later == earlier@.at_most(self@),
    {
        proof {
            lemma_product_fits(self.processed, earlier.total);
            lemma_product_fits(earlier.processed, self.total);
        }
        let mine: u128 = self.processed as u128 * earlier.total as u128;
        let theirs: u128 = earlier.processed as u128 * self.total as u128;
        theirs <= mine
    }
}

/// What a run tells the control surface.
#[derive(Debug, PartialEq, Eq)]
pub enum ProgressEvent {
    /// A further frame was written; the share of the run that is done.
    Progress(Progress),
    /// The run is over. Published once per run, after every other event.
    Done(Result<(), PipelineError>),
}

/// Mathematical value of a [`ProgressEvent`].
pub enum ProgressEventView {
    Progress(Fraction),
    Done(Result<(), PipelineErrorView>),
}

impl View for ProgressEvent {
    type V = ProgressEventView;

    open spec fn view(&self) -> ProgressEventView {
        match self {
            ProgressEvent::Progress(p) => ProgressEventView::Progress(p@),
            ProgressEvent::Done(Ok(_)) => ProgressEventView::Done(Ok(())),
            ProgressEvent::Done(Err(e)) => ProgressEventView::Done(Err(e@)),
        }
    }
}

impl Clone for ProgressEvent {
    fn clone(&self) -> (out: ProgressEvent)
        ensures
            out@ == self@,
    {
        match self {
            ProgressEvent::Progress(p) => ProgressEvent::Progress(*p),
            ProgressEvent::Done(Ok(_)) => ProgressEvent::Done(Ok(())),
            ProgressEvent::Done(Err(e)) => ProgressEvent::Done(Err(e.clone())),
        }
    }
}

} // verus!
