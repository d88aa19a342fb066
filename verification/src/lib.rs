//! Notification model for a live configuration-inspection ("tap") feature of a
//! data-pipeline observability system.
//!
//! When an operator subscribes to observe data flowing through components
//! selected by a glob-like pattern, the system reports whether the pattern
//! currently matches an eligible component, matches nothing, or matches
//! components that are structurally ineligible for tapping. Those reports are
//! immutable value records unified behind the [`Notification`] union, with
//! [`EventNotification`] as a thin presentation wrapper that flattens the
//! human-readable message next to the tagged payload.
//!
//! Pattern evaluation, subscription machinery and transport are external
//! collaborators: this crate only defines the shape of the values and the
//! message-rendering rule, and proves that rendering is exactly the documented
//! template of the pattern.

use vstd::prelude::*;
use vstd::string::StringExecFns;

verus! {

/// The message announcing that a pattern currently matches a component:
/// `[tap] Pattern '<pattern>' successfully matched.`
pub open spec fn matched_message(pattern: Seq<char>) -> Seq<char> {
    "[tap] Pattern '"@ + pattern + "' successfully matched."@
}

/// A component was found that matched the provided pattern.
#[derive(Debug, Clone, PartialEq)]
pub struct Matched {
    /// Human-readable rendering, derived from `pattern` at construction time
    /// and never mutated afterwards. It backs message dispatch only; the
    /// presentation layer serializes the pattern and the union discriminant,
    /// never this field.
    pub message: String,
    /// Pattern that raised the notification.
    pub pattern: String,
}

impl Matched {
    /// The constructor's invariant: the message is exactly the rendering of
    /// the pattern.
    pub open spec fn wf(&self) -> bool {
        self.message@ == matched_message(self.pattern@)
    }

    /// Builds the notification, deriving the message from `pattern` alone.
    pub fn new(pattern: String) -> (r: Matched)
        ensures
            r.pattern == pattern,
            r.message@ == matched_message(pattern@),
            r.wf(),
    {
        let mut message = "[tap] Pattern '".to_owned();
        message.append(pattern.as_str());
        message.append("' successfully matched.");
        Matched { message, pattern }
    }
}

/// The message announcing that a pattern matches no component at present:
/// `[tap] Pattern '<pattern>' failed to match: will retry on configuration reload.`
pub open spec fn not_matched_message(pattern: Seq<char>) -> Seq<char> {
    "[tap] Pattern '"@ + pattern + "' failed to match: will retry on configuration reload."@
}

/// There isn't currently a component that matches this pattern.
#[derive(Debug, Clone, PartialEq)]
pub struct NotMatched {
    /// Human-readable rendering, derived from `pattern` at construction time
    /// and never mutated afterwards. The wording promises the operator that
    /// the pattern is re-evaluated on configuration reload.
    pub message: String,
    /// Pattern that raised the notification.
    pub pattern: String,
}

impl NotMatched {
    /// The constructor's invariant: the message is exactly the rendering of
    /// the pattern.
    pub open spec fn wf(&self) -> bool {
        self.message@ == not_matched_message(self.pattern@)
    }

    /// Builds the notification, deriving the message from `pattern` alone.
    pub fn new(pattern: String) -> (r: NotMatched)
        ensures
            r.pattern == pattern,
            r.message@ == not_matched_message(pattern@),
            r.wf(),
    {
        let mut message = "[tap] Pattern '".to_owned();
        message.append(pattern.as_str());
        message.append("' failed to match: will retry on configuration reload.");
        NotMatched { message, pattern }
    }
}

/// The pattern matched source(s) which cannot be tapped for inputs or sink(s)
/// which cannot be tapped for outputs.
#[derive(Debug, Clone, PartialEq)]
pub struct InvalidMatch {
    /// Human-readable explanation, supplied by the caller: unlike the other
    /// two variants, the reason a match is invalid depends on context the
    /// constructor does not have.
    pub message: String,
    /// Pattern that raised the notification.
    pub pattern: String,
    /// The component identifiers that matched the pattern but are ineligible
    /// for the requested tap direction.
    pub invalid_matches: Vec<String>,
}

impl InvalidMatch {
    /// Stores all three arguments unchanged: no validation, no derivation.
    pub fn new(message: String, pattern: String, invalid_matches: Vec<String>) -> (r: InvalidMatch)
        ensures
            r.message == message,
            r.pattern == pattern,
            r.invalid_matches == invalid_matches,
    {
        InvalidMatch { message, pattern, invalid_matches }
    }
}

/// A notification regarding events observation: a closed union over exactly
/// the three variants, exactly one active per instance.
#[derive(Debug, Clone, PartialEq)]
pub enum Notification {
    Matched(Matched),
    NotMatched(NotMatched),
    InvalidMatch(InvalidMatch),
}

impl Notification {
    /// The stored message of whichever variant is active.
    pub open spec fn spec_message(&self) -> Seq<char> {
        match self {
            Notification::Matched(n) => n.message@,
            Notification::NotMatched(n) => n.message@,
            Notification::InvalidMatch(n) => n.message@,
        }
    }

    /// Returns the active variant's stored message verbatim, never
    /// re-deriving or transforming it. Total over the closed set of variants,
    /// with no fallback arm: adding a variant breaks this match at compile
    /// time.
    pub fn to_string(&self) -> (r: String)
        ensures
            r@ == self.spec_message(),
    {
        match self {
            Notification::Matched(n) => n.message.clone(),
            Notification::NotMatched(n) => n.message.clone(),
            Notification::InvalidMatch(n) => n.message.clone(),
        }
    }
}

/// This wrapper hoists `message` up from [`Notification`] for a flat querying
/// shape, for consumers that cannot traverse a nested discriminated union.
/// The message is computed on access, never stored redundantly, so it can
/// never desynchronize from the union it wraps.
#[derive(Debug, Clone)]
pub struct EventNotification {
    pub notification: Notification,
}

impl EventNotification {
    /// Notification details: the wrapped union, unchanged.
    pub fn notification(&self) -> (r: &Notification)
        ensures
            *r == self.notification,
    {
        &self.notification
    }

    /// The human-readable message associated with the notification: always
    /// the dispatch on the wrapped union.
    pub fn message(&self) -> (r: String)
        ensures
            r@ == self.notification.spec_message(),
    {
        self.notification.to_string()
    }
}

/// Law: constructing `Matched` from a pattern is deterministic. Two
/// well-formed values over equal patterns agree on the message too, so equal
/// patterns yield value-equal notifications — no hidden state, such as a
/// timestamp, can tell them apart.
pub proof fn lemma_matched_deterministic(a: Matched, b: Matched)
    requires
        a.wf(),
        b.wf(),
        a.pattern@ == b.pattern@,
    ensures
        a.message@ == b.message@,
{
}

/// Law: constructing `NotMatched` from a pattern is deterministic, as for
/// `Matched`.
pub proof fn lemma_not_matched_deterministic(a: NotMatched, b: NotMatched)
    requires
        a.wf(),
        b.wf(),
        a.pattern@ == b.pattern@,
    ensures
        a.message@ == b.message@,
{
}

} // verus!
