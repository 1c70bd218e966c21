//! A model of the facade's process-wide state: the set-once backend
//! registration slot and the mutable severity threshold. The transitions
//! mirror what the initialization entry points do to that state, so the
//! filtering behaviour they produce can be stated and proved here.

use vstd::prelude::*;

use crate::level::Level;
use crate::level::level_passes;
use crate::level::passes;
use crate::level::severity;

verus! {

/// The facade's threshold filter: `Off` forwards nothing, `At(m)` forwards
/// exactly the records at or above `m` in severity.
#[derive(Clone, Copy, PartialEq, Eq, Structural, Debug)]
pub enum Filter {
    Off,
    At(Level),
}

/// Whether a record at level `l` passes the filter `f`.
pub open spec fn filter_allows(f: Filter, l: Level) -> bool {
    match f {
        Filter::Off => false,
        Filter::At(m) => passes(l, m),
    }
}

/// Decides whether a record at level `l` passes the filter `f`.
pub fn filter_allows_level(f: Filter, l: Level) -> (r: bool)
    ensures
        r == filter_allows(f, l),
{
    match f {
        Filter::Off => false,
        Filter::At(m) => level_passes(l, m),
    }
}

/// The error on an attempt to register a backend while one is already
/// active. The registration slot is set-once, so the host treats this as
/// fatal rather than retrying.
#[derive(Clone, Copy, PartialEq, Eq, Structural, Debug)]
pub struct RegistrationError;

/// The facade's state as this backend sees it: whether a backend has been
/// registered, and the current severity threshold.
#[derive(Clone, Copy, PartialEq, Eq, Structural, Debug)]
pub struct Facade {
    /// Whether the set-once registration slot is taken. It moves from false
    /// to true at most once and never back.
    pub registered: bool,
    /// The current threshold; mutable at any time, last write wins.
    pub max: Filter,
}

impl Facade {
    /// The state before any initialization: no backend, nothing forwarded.
    pub open spec fn spec_initial() -> Facade {
        Facade { registered: false, max: Filter::Off }
    }

    /// A record at level `l` is forwarded to the sink exactly when a backend
    /// is registered and the record passes the current threshold.
    pub open spec fn forwards(self, l: Level) -> bool {
        self.registered && filter_allows(self.max, l)
    }

    /// The state with the threshold set to `level`.
    pub open spec fn with_max(self, level: Level) -> Facade {
        Facade { max: Filter::At(level), ..self }
    }

    /// The state with the registration slot taken.
    pub open spec fn with_registered(self) -> Facade {
        Facade { registered: true, ..self }
    }

    /// The state at process start.
    pub fn new() -> (s: Facade)
        ensures
            s == Facade::spec_initial(),
    {
        Facade { registered: false, max: Filter::Off }
    }

    /// Updates the threshold and touches nothing else. Callable at any time
    /// and any number of times; the most recent value wins.
    pub fn set_max(&mut self, level: Level)
        ensures
            *final(self) == old(self).with_max(level),
    {
        self.max = Filter::At(level);
    }

    /// Claims the set-once registration slot. The claim fails exactly when a
    /// backend is already active, and the state is then unchanged.
    pub fn register(&mut self) -> (r: Result<(), RegistrationError>)
        ensures
            r is Ok <==> !old(self).registered,
            *final(self) == old(self).with_registered(),
    {
        if self.registered {
            Err(RegistrationError)
        } else {
            self.registered = true;
            Ok(())
        }
    }

    /// Sets the threshold to `level`, then registers the backend. The
    /// threshold is updated even when registration fails, since the
    /// threshold store precedes the claim on the registration slot.
    pub fn init_with_level(&mut self, level: Level) -> (r: Result<(), RegistrationError>)
        ensures
            r is Ok <==> !old(self).registered,
            *final(self) == old(self).with_max(level).with_registered(),
    {
        self.set_max(level);
        self.register()
    }

    /// Registers the backend with the most permissive threshold, so every
    /// record is forwarded.
    pub fn init(&mut self) -> (r: Result<(), RegistrationError>)
        ensures
            r is Ok <==> !old(self).registered,
            *final(self) == old(self).with_max(Level::Trace).with_registered(),
    {
        self.init_with_level(Level::Trace)
    }

    /// Decides whether a record at level `l` is forwarded to the sink.
    pub fn forwards_record(&self, l: Level) -> (r: bool)
        ensures
            r == self.forwards(l),
    {
        self.registered && filter_allows_level(self.max, l)
    }
}

/// A record at level `l` is forwarded iff `l` is at or above the registered
/// threshold `m` in severity ordering.
pub proof fn lemma_forwarded_iff_at_or_above(s: Facade, l: Level, m: Level)
    requires
        s.registered,
        s.max == Filter::At(m),
    ensures
        s.forwards(l) <==> severity(l) <= severity(m),
{
}

/// After initialization at the most permissive threshold, a record at any
/// level is forwarded.
pub proof fn lemma_init_forwards_every_level(s: Facade, l: Level)
    ensures
        s.with_max(Level::Trace).with_registered().forwards(l),
{
}

/// After initialization at `Info`, a record is forwarded iff it is at
/// `Info` or a more severe level.
pub proof fn lemma_init_at_info_filters(s: Facade, l: Level)
    ensures
        s.with_max(Level::Info).with_registered().forwards(l) <==> severity(l) <= severity(
            Level::Info,
        ),
{
}

/// Setting the threshold never touches registration, governs forwarding
/// immediately, and the most recent of several settings wins.
pub proof fn lemma_set_max_governs(s: Facade, x: Level, y: Level, l: Level)
    ensures
        s.with_max(x).registered == s.registered,
        s.with_max(x).forwards(l) <==> s.registered && passes(l, x),
        s.with_max(x).with_max(y) == s.with_max(y),
{
}

} // verus!
