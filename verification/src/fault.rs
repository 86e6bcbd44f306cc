//! Fault classification for subsystems.
//!
//! A failing operation inside a subsystem reports one of a closed set of
//! causes, classified as either recoverable (`NonFatal`), unrecoverable
//! (`Fatal`), or unclassified upstream (`Fault::Other`). The wrapping
//! `Error` type is the subsystem's public error type; every conversion into
//! it keeps the original cause, so nothing is silently dropped.

use vstd::prelude::*;
use vstd::std_specs::convert::FromSpec;

verus! {

/// Unrecoverable cause reported by the runtime-query collaborator,
/// carried through unchanged for diagnostics.
#[derive(Clone, Copy, Debug, PartialEq, Eq, Structural)]
pub struct RuntimeFatalCause {
    /// Diagnostic identifier of the underlying runtime failure.
    pub code: u64,
}

/// Recoverable cause reported by the runtime-query collaborator,
/// carried through unchanged for diagnostics.
#[derive(Clone, Copy, Debug, PartialEq, Eq, Structural)]
pub struct RuntimeNonFatalCause {
    /// Diagnostic identifier of the underlying runtime failure.
    pub code: u64,
}

/// Signal from the task-spawning collaborator that a background task could
/// not be started.
#[derive(Clone, Copy, Debug, PartialEq, Eq, Structural)]
pub struct SubsystemSpawnCause {
    /// Diagnostic identifier of the underlying spawn failure.
    pub code: u64,
}

/// Cause from a collaborator that does not itself distinguish fatal from
/// non-fatal failures; its recoverability is unknown here.
#[derive(Clone, Copy, Debug, PartialEq, Eq, Structural)]
pub struct OpaqueCause {
    /// Diagnostic identifier of the underlying failure.
    pub code: u64,
}

/// Non-fatal errors of this subsystem: the caller may log them and keep
/// serving other requests.
#[derive(Clone, Copy, Debug, PartialEq, Eq, Structural)]
pub enum NonFatal {
    /// We need available active heads for finding relevant authorities.
    NoActiveHeads,
    /// This error likely indicates a bug in the coordinator.
    AskActiveDisputesCanceled,
    /// Recoverable error delegated from the runtime-query collaborator.
    Runtime(RuntimeNonFatalCause),
}

/// Fatal errors of this subsystem: the caller must tear the subsystem down.
#[derive(Clone, Copy, Debug, PartialEq, Eq, Structural)]
pub enum Fatal {
    /// Spawning a subsystem task failed.
    SpawnTask(SubsystemSpawnCause),
    /// Unrecoverable error delegated from the runtime-query collaborator.
    Runtime(RuntimeFatalCause),
}

/// Error of the runtime-query collaborator, which already distinguishes
/// fatal from non-fatal causes of its own.
#[derive(Clone, Copy, Debug, PartialEq, Eq, Structural)]
pub enum RuntimeError {
    /// The collaborator classified its failure as recoverable.
    NonFatal(RuntimeNonFatalCause),
    /// The collaborator classified its failure as unrecoverable.
    Fatal(RuntimeFatalCause),
}

/// A classified fault: exactly one variant is populated, chosen at the point
/// the failing operation is mapped into it, and never changed afterwards.
#[derive(Clone, Copy, Debug, PartialEq, Eq)]
pub enum Fault<N, F> {
    /// Recoverable cause.
    NonFatal(N),
    /// Unrecoverable cause.
    Fatal(F),
    /// Cause from a collaborator whose recoverability is unknown.
    Other(OpaqueCause),
}

impl<N, F> Fault<N, F> {
    /// Classifies a recoverable cause.
    pub fn from_non_fatal(e: N) -> (r: Self)
        ensures
            r == Fault::<N, F>::NonFatal(e),
    {
        Fault::NonFatal(e)
    }

    /// Classifies an unrecoverable cause.
    pub fn from_fatal(f: F) -> (r: Self)
        ensures
            r == Fault::<N, F>::Fatal(f),
    {
        Fault::Fatal(f)
    }

    /// Wraps a foreign cause that carries no fatal/non-fatal distinction.
    ///
    /// Only such foreign opaque causes are accepted here — never this
    /// component's own `Error` — so a cause is wrapped exactly once and an
    /// `Error` can never be nested inside another `Error`.
    pub fn from_other(o: OpaqueCause) -> (r: Self)
        ensures
            r == Fault::<N, F>::Other(o),
    {
        Fault::Other(o)
    }
}

/// The subsystem's public error type: a transparent wrapper over the
/// classified fault.
#[derive(Clone, Copy, Debug, PartialEq, Eq)]
pub struct Error(pub Fault<NonFatal, Fatal>);

/// The fault that a collaborator error with its own fatal/non-fatal
/// distinction classifies into: each runtime cause lands in the matching
/// local variant, never in `Fault::Other`.
pub open spec fn fault_of_runtime(e: RuntimeError) -> Fault<NonFatal, Fatal> {
    match e {
        RuntimeError::NonFatal(c) => Fault::NonFatal(NonFatal::Runtime(c)),
        RuntimeError::Fatal(c) => Fault::Fatal(Fatal::Runtime(c)),
    }
}

impl From<NonFatal> for Error {
    /// A recoverable cause always classifies as `Fault::NonFatal`.
    fn from(e: NonFatal) -> (r: Self) {
        Error(Fault::from_non_fatal(e))
    }
}

impl vstd::std_specs::convert::FromSpecImpl<NonFatal> for Error {
    open spec fn obeys_from_spec() -> bool {
        true
    }

    open spec fn from_spec(e: NonFatal) -> Self {
        Error(Fault::NonFatal(e))
    }
}

impl From<Fatal> for Error {
    /// An unrecoverable cause always classifies as `Fault::Fatal`.
    fn from(f: Fatal) -> (r: Self) {
        Error(Fault::from_fatal(f))
    }
}

impl vstd::std_specs::convert::FromSpecImpl<Fatal> for Error {
    open spec fn obeys_from_spec() -> bool {
        true
    }

    open spec fn from_spec(f: Fatal) -> Self {
        Error(Fault::Fatal(f))
    }
}

impl From<RuntimeNonFatalCause> for NonFatal {
    /// A recoverable runtime cause is delegated into `NonFatal::Runtime`,
    /// with the upstream cause kept as the source.
    fn from(c: RuntimeNonFatalCause) -> (r: Self) {
        NonFatal::Runtime(c)
    }
}

impl vstd::std_specs::convert::FromSpecImpl<RuntimeNonFatalCause> for NonFatal {
    open spec fn obeys_from_spec() -> bool {
        true
    }

    open spec fn from_spec(c: RuntimeNonFatalCause) -> Self {
        NonFatal::Runtime(c)
    }
}

impl From<RuntimeFatalCause> for Fatal {
    /// An unrecoverable runtime cause is delegated into `Fatal::Runtime`,
    /// with the upstream cause kept as the source.
    fn from(c: RuntimeFatalCause) -> (r: Self) {
        Fatal::Runtime(c)
    }
}

impl vstd::std_specs::convert::FromSpecImpl<RuntimeFatalCause> for Fatal {
    open spec fn obeys_from_spec() -> bool {
        true
    }

    open spec fn from_spec(c: RuntimeFatalCause) -> Self {
        Fatal::Runtime(c)
    }
}

impl From<RuntimeNonFatalCause> for Error {
    /// A recoverable runtime cause classifies as
    /// `Fault::NonFatal(NonFatal::Runtime(_))`, never as fatal.
    fn from(c: RuntimeNonFatalCause) -> (r: Self) {
        Error(Fault::from_non_fatal(NonFatal::Runtime(c)))
    }
}

impl vstd::std_specs::convert::FromSpecImpl<RuntimeNonFatalCause> for Error {
    open spec fn obeys_from_spec() -> bool {
        true
    }

    open spec fn from_spec(c: RuntimeNonFatalCause) -> Self {
        Error(Fault::NonFatal(NonFatal::Runtime(c)))
    }
}

impl From<RuntimeFatalCause> for Error {
    /// An unrecoverable runtime cause classifies as
    /// `Fault::Fatal(Fatal::Runtime(_))`, never as non-fatal or other.
    fn from(c: RuntimeFatalCause) -> (r: Self) {
        Error(Fault::from_fatal(Fatal::Runtime(c)))
    }
}

impl vstd::std_specs::convert::FromSpecImpl<RuntimeFatalCause> for Error {
    open spec fn obeys_from_spec() -> bool {
        true
    }

    open spec fn from_spec(c: RuntimeFatalCause) -> Self {
        Error(Fault::Fatal(Fatal::Runtime(c)))
    }
}

impl From<RuntimeError> for Error {
    /// A collaborator error that distinguishes fatal from non-fatal lands in
    /// the matching local variant, keeping the upstream cause.
    fn from(o: RuntimeError) -> (r: Self) {
        match o {
            RuntimeError::NonFatal(c) => Error(Fault::from_non_fatal(NonFatal::Runtime(c))),
            RuntimeError::Fatal(c) => Error(Fault::from_fatal(Fatal::Runtime(c))),
        }
    }
}

impl vstd::std_specs::convert::FromSpecImpl<RuntimeError> for Error {
    open spec fn obeys_from_spec() -> bool {
        true
    }

    open spec fn from_spec(o: RuntimeError) -> Self {
        Error(fault_of_runtime(o))
    }
}

impl From<OpaqueCause> for Error {
    /// A collaborator cause with no fatal/non-fatal distinction is wrapped
    /// as `Fault::Other`, never silently dropped.
    fn from(o: OpaqueCause) -> (r: Self) {
        Error(Fault::from_other(o))
    }
}

impl vstd::std_specs::convert::FromSpecImpl<OpaqueCause> for Error {
    open spec fn obeys_from_spec() -> bool {
        true
    }

    open spec fn from_spec(o: OpaqueCause) -> Self {
        Error(Fault::Other(o))
    }
}

impl NonFatal {
    /// The human-readable rendering of this cause.
    pub open spec fn spec_message(self) -> Seq<char> {
        match self {
            NonFatal::NoActiveHeads => "No active heads available - needed for finding relevant authorities."@,
            NonFatal::AskActiveDisputesCanceled => "Oneshot for asking dispute coordinator for active disputes got canceled."@,
            NonFatal::Runtime(_) => "Error while accessing runtime information"@,
        }
    }

    /// Renders this cause for logging.
    pub fn message(&self) -> (r: String)
        ensures
            r@ == self.spec_message(),
    {
        match self {
            NonFatal::NoActiveHeads => "No active heads available - needed for finding relevant authorities.".to_owned(),
            NonFatal::AskActiveDisputesCanceled => "Oneshot for asking dispute coordinator for active disputes got canceled.".to_owned(),
            NonFatal::Runtime(_) => "Error while accessing runtime information".to_owned(),
        }
    }
}

impl Fatal {
    /// The human-readable rendering of this cause.
    pub open spec fn spec_message(self) -> Seq<char> {
        match self {
            Fatal::SpawnTask(_) => "Spawning subsystem task failed"@,
            Fatal::Runtime(_) => "Error while accessing runtime information"@,
        }
    }

    /// Renders this cause for logging.
    pub fn message(&self) -> (r: String)
        ensures
            r@ == self.spec_message(),
    {
        match self {
            Fatal::SpawnTask(_) => "Spawning subsystem task failed".to_owned(),
            Fatal::Runtime(_) => "Error while accessing runtime information".to_owned(),
        }
    }
}

impl OpaqueCause {
    /// The human-readable rendering of this cause.
    pub open spec fn spec_message(self) -> Seq<char> {
        "Unclassified error from a collaborating subsystem"@
    }

    /// Renders this cause for logging.
    pub fn message(&self) -> (r: String)
        ensures
            r@ == self.spec_message(),
    {
        "Unclassified error from a collaborating subsystem".to_owned()
    }
}

impl Error {
    /// The human-readable rendering of this error: exactly that of the
    /// wrapped cause, with nothing added.
    pub open spec fn spec_message(self) -> Seq<char> {
        match self.0 {
            Fault::NonFatal(n) => n.spec_message(),
            Fault::Fatal(f) => f.spec_message(),
            Fault::Other(o) => o.spec_message(),
        }
    }

    /// Renders this error transparently: the text equals the wrapped
    /// cause's own rendering.
    pub fn message(&self) -> (r: String)
        ensures
            r@ == self.spec_message(),
    {
        match &self.0 {
            Fault::NonFatal(n) => n.message(),
            Fault::Fatal(f) => f.message(),
            Fault::Other(o) => o.message(),
        }
    }

    /// True exactly when the caller must terminate the subsystem's run
    /// loop: for a `Fatal` cause, and for an unclassified `Other` cause,
    /// which is treated as fatal by default since its recoverability is
    /// unknown. A `NonFatal` cause is the only one to continue on.
    pub fn must_terminate(&self) -> (r: bool)
        ensures
            r == !(self.0 is NonFatal),
    {
        match &self.0 {
            Fault::NonFatal(_) => false,
            Fault::Fatal(_) => true,
            Fault::Other(_) => true,
        }
    }
}

impl<N, F> Fault<N, F> {
    /// True exactly when this fault carries a recoverable cause.
    pub fn is_non_fatal(&self) -> (r: bool)
        ensures
            r == (self is NonFatal),
    {
        match self {
            Fault::NonFatal(_) => true,
            _ => false,
        }
    }

    /// True exactly when this fault carries an unrecoverable cause.
    pub fn is_fatal(&self) -> (r: bool)
        ensures
            r == (self is Fatal),
    {
        match self {
            Fault::Fatal(_) => true,
            _ => false,
        }
    }

    /// True exactly when this fault carries an unclassified foreign cause.
    pub fn is_other(&self) -> (r: bool)
        ensures
            r == (self is Other),
    {
        match self {
            Fault::Other(_) => true,
            _ => false,
        }
    }
}

/// Round trip for recoverable causes: converting any `NonFatal` value into
/// `Error` yields `Fault::NonFatal`, and matching on it gives back a cause
/// equal to the one put in.
pub proof fn lemma_non_fatal_round_trip(n: NonFatal)
    ensures
        <Error as FromSpec<NonFatal>>::from_spec(n).0 == Fault::<NonFatal, Fatal>::NonFatal(n),
{
}

/// Round trip for unrecoverable causes: converting any `Fatal` value into
/// `Error` yields `Fault::Fatal`, and matching on it gives back a cause
/// equal to the one put in.
pub proof fn lemma_fatal_round_trip(f: Fatal)
    ensures
        <Error as FromSpec<Fatal>>::from_spec(f).0 == Fault::<NonFatal, Fatal>::Fatal(f),
{
}

/// Any unrecoverable runtime cause classifies as `Fatal::Runtime` wrapping
/// that very cause — never as `NonFatal` and never as `Other`.
pub proof fn lemma_runtime_fatal_classifies_fatal(r: RuntimeFatalCause)
    ensures
        <Error as FromSpec<RuntimeFatalCause>>::from_spec(r).0 == Fault::<NonFatal, Fatal>::Fatal(
            Fatal::Runtime(r),
        ),
        !(<Error as FromSpec<RuntimeFatalCause>>::from_spec(r).0 is NonFatal),
        !(<Error as FromSpec<RuntimeFatalCause>>::from_spec(r).0 is Other),
{
}

/// Any recoverable runtime cause classifies as `NonFatal::Runtime` wrapping
/// that very cause — never as `Fatal` and never as `Other`.
pub proof fn lemma_runtime_non_fatal_classifies_non_fatal(r: RuntimeNonFatalCause)
    ensures
        <Error as FromSpec<RuntimeNonFatalCause>>::from_spec(r).0 == Fault::<
            NonFatal,
            Fatal,
        >::NonFatal(NonFatal::Runtime(r)),
        !(<Error as FromSpec<RuntimeNonFatalCause>>::from_spec(r).0 is Fatal),
        !(<Error as FromSpec<RuntimeNonFatalCause>>::from_spec(r).0 is Other),
{
}

/// A collaborator error that distinguishes fatal from non-fatal always lands
/// in the matching local variant with its cause kept, and never in
/// `Fault::Other`.
pub proof fn lemma_runtime_error_lands_in_matching_variant(e: RuntimeError)
    ensures
        e matches RuntimeError::NonFatal(c) ==> <Error as FromSpec<RuntimeError>>::from_spec(e).0
            == Fault::<NonFatal, Fatal>::NonFatal(NonFatal::Runtime(c)),
        e matches RuntimeError::Fatal(c) ==> <Error as FromSpec<RuntimeError>>::from_spec(e).0
            == Fault::<NonFatal, Fatal>::Fatal(Fatal::Runtime(c)),
        !(<Error as FromSpec<RuntimeError>>::from_spec(e).0 is Other),
{
}

/// Wrapping a foreign opaque cause into `Error` applies exactly one layer:
/// the fault is `Fault::Other` holding that very cause. Only foreign cause
/// types convert this way — the component's own `Error` is not among the
/// types `Fault::from_other` accepts, so an `Error` can never be re-wrapped
/// into another `Error`.
pub proof fn lemma_other_wraps_exactly_once(o: OpaqueCause)
    ensures
        <Error as FromSpec<OpaqueCause>>::from_spec(o).0 == Fault::<NonFatal, Fatal>::Other(o),
{
}

} // verus!
