//! The time capability: a logical start point with an elapsed-duration query.
use vstd::prelude::*;

verus! {

use vstd::string::StringExecFns;
use crate::duration::duration_text;
use crate::duration::render_duration;

/// A time source anchored at a logical start point.
///
/// `admits_elapsed` says which elapsed values (in nanoseconds) this source
/// can report; `may_render` says which texts its render operation can
/// produce. The null source admits only zero and renders no text, so timing
/// is pinned down exactly; a real clock admits any value.
pub trait TimeProvider: Sized {
    /// Whether `ns` is a possible result of `elapsed`.
    spec fn admits_elapsed(&self, ns: u64) -> bool;

    /// Whether `text` is a possible result of `render`.
    spec fn may_render(&self, text: Seq<char>) -> bool;

    /// A source anchored at the current instant (or at a fixed epoch for
    /// the null source).
    fn now() -> Self;

    /// Nanoseconds since anchoring; monotonic and never failing.
    fn elapsed(&self) -> (ns: u64)
        ensures
            self.admits_elapsed(ns),
    ;

    /// The elapsed value as text, ready to stand in a record.
    fn render(&self) -> (text: String)
        ensures
            self.may_render(text@),
    ;
}

/// Whether `snap` behaves like `orig` as a time source: it admits the same
/// elapsed values and renders the same texts.
pub open spec fn snapshot_time<T: TimeProvider>(orig: T, snap: T) -> bool {
    (forall|ns: u64| #[trigger] snap.admits_elapsed(ns) <==> orig.admits_elapsed(ns))
        && (forall|text: Seq<char>| #[trigger] snap.may_render(text) <==> orig.may_render(text))
}

/// A time capability that can be duplicated for a snapshot: the duplicate
/// admits the same elapsed values and renders the same texts.
pub trait DuplicableTime: TimeProvider {
    /// A duplicate that behaves like the original.
    fn duplicate(&self) -> (r: Self)
        ensures
            snapshot_time(*self, r),
    ;
}

/// The null time source: elapsed is always zero and nothing is rendered,
/// so timing is compiled out entirely.
impl TimeProvider for () {
    open spec fn admits_elapsed(&self, ns: u64) -> bool {
        ns == 0
    }

    open spec fn may_render(&self, text: Seq<char>) -> bool {
        text == Seq::<char>::empty()
    }

    fn now() -> Self {
    }

    fn elapsed(&self) -> (ns: u64) {
        0
    }

    fn render(&self) -> (text: String) {
        String::new()
    }
}

impl DuplicableTime for () {
    fn duplicate(&self) -> (r: Self) {
    }
}

#[verifier::external_type_specification]
#[verifier::external_body]
pub struct ExInstant(std::time::Instant);

/// Relies on std::time::Instant::now: an opaque reading of the monotonic
/// clock, used as the anchor of a real-time source.
#[verifier::external_body]
fn clock_anchor() -> (r: std::time::Instant) {
    std::time::Instant::now()
}

/// Relies on std::time::Instant::elapsed: the time since that instant,
/// as an opaque duration that depends on the clock.
#[verifier::external_body]
fn clock_elapsed(i: &std::time::Instant) -> (r: core::time::Duration) {
    std::time::Instant::elapsed(i)
}

/// Relies on core::time::Duration::as_nanos: the whole duration counted in
/// nanoseconds; nothing further is assumed of the value.
pub assume_specification[ core::time::Duration::as_nanos ](d: &core::time::Duration) -> (r: u128);

/// The real-clock time source: anchored by `now`, it reports however many
/// nanoseconds the monotonic clock has advanced (saturating at `u64::MAX`)
/// and renders them humanized with a trailing colon.
impl TimeProvider for std::time::Instant {
    open spec fn admits_elapsed(&self, ns: u64) -> bool {
        true
    }

    open spec fn may_render(&self, text: Seq<char>) -> bool {
        exists|ns: u64| text == duration_text(ns as nat) + ":"@
    }

    fn now() -> Self {
        clock_anchor()
    }

    fn elapsed(&self) -> (ns: u64) {
        let d = clock_elapsed(self);
        let whole = d.as_nanos();
        if whole > u64::MAX as u128 {
            u64::MAX
        } else {
            whole as u64
        }
    }

    fn render(&self) -> (text: String) {
        let ns = TimeProvider::elapsed(self);
        let mut out = render_duration(ns);
        out.append(":");
        proof {
            assert(out@ == duration_text(ns as nat) + ":"@);
        }
        out
    }
}

impl DuplicableTime for std::time::Instant {
    fn duplicate(&self) -> (r: Self) {
        *self
    }
}

} // verus!
