//! The storage capability: the sink that receives formatted record text.
use vstd::prelude::*;

verus! {

use std::io::Write;
use crate::status::StatusLevel;

/// A sink for formatted record fragments. A write never fails observably:
/// an implementation absorbs any internal failure instead of surfacing it.
///
/// `contents` models everything the sink has been handed so far, in input
/// order, each fragment together with the severity it was written under.
/// `write_data` appends exactly one fragment and reorders nothing, so
/// fragments of one record stay contiguous whenever their writes are.
pub trait StorageProvider: Sized {
    /// Everything written so far, in order.
    spec fn contents(&self) -> Seq<(StatusLevel, Seq<char>)>;

    /// Hands one formatted fragment to the sink.
    fn write_data(&mut self, fragment: &str, debuglevel: &StatusLevel)
        ensures
            final(self).contents() == old(self).contents().push((*debuglevel, fragment@)),
    ;
}

/// A storage capability that can be duplicated for a snapshot: the duplicate
/// reports the same contents as the original, and the two evolve
/// independently afterwards.
pub trait DuplicableStorage: StorageProvider {
    /// A duplicate with the same recorded contents.
    fn duplicate(&self) -> (r: Self)
        ensures
            r.contents() == self.contents(),
    ;
}

/// An in-memory capturing sink: every fragment is kept, with its severity,
/// in write order.
pub struct MemorySink {
    /// The captured fragments, oldest first.
    pub records: Vec<(StatusLevel, String)>,
}

impl MemorySink {
    /// A sink that has captured nothing yet.
    pub fn new() -> (r: Self)
        ensures
            r.contents() == Seq::<(StatusLevel, Seq<char>)>::empty(),
    {
        let r = MemorySink { records: Vec::new() };
        proof {
            assert(r.contents() =~= Seq::<(StatusLevel, Seq<char>)>::empty());
        }
        r
    }
}

impl StorageProvider for MemorySink {
    open spec fn contents(&self) -> Seq<(StatusLevel, Seq<char>)> {
        self.records@.map_values(|r: (StatusLevel, String)| (r.0, r.1@))
    }

    fn write_data(&mut self, fragment: &str, debuglevel: &StatusLevel) {
        self.records.push((*debuglevel, fragment.to_owned()));
        proof {
            assert(self.contents() =~= old(self).contents().push((*debuglevel, fragment@)));
        }
    }
}

impl DuplicableStorage for MemorySink {
    fn duplicate(&self) -> (r: Self) {
        let mut copied: Vec<(StatusLevel, String)> = Vec::new();
        let n = self.records.len();
        let mut i: usize = 0;
        while i < n
            invariant
                n == self.records@.len(),
                i <= n,
                copied@.len() == i,
                forall|j: int| 0 <= j < i ==> copied@[j] == self.records@[j],
            decreases n - i,
        {
            let entry = (self.records[i].0, self.records[i].1.clone());
            copied.push(entry);
            i = i + 1;
        }
        let r = MemorySink { records: copied };
        proof {
            assert(r.records@ =~= self.records@);
        }
        r
    }
}

/// The default console sink: every fragment goes to standard output. What
/// was written is tracked only as ghost state; an underlying I/O failure
/// is absorbed, never surfaced, so a log call cannot become a source of
/// propagated error.
pub struct ConsoleSink {
    /// Ghost history of everything written, mirroring the sink model.
    pub log: Ghost<Seq<(StatusLevel, Seq<char>)>>,
}

impl ConsoleSink {
    /// A console sink with an empty history.
    pub fn new() -> (r: Self)
        ensures
            r.contents() == Seq::<(StatusLevel, Seq<char>)>::empty(),
    {
        ConsoleSink { log: Ghost(Seq::empty()) }
    }
}

/// Relies on std::io::stdout: the fragment is written to the process's
/// standard output stream; a failure of the underlying write is dropped
/// rather than surfaced.
#[verifier::external_body]
fn console_write(fragment: &str) {
    let _ = write!(std::io::stdout(), "{}", fragment);
}

impl StorageProvider for ConsoleSink {
    open spec fn contents(&self) -> Seq<(StatusLevel, Seq<char>)> {
        self.log@
    }

    fn write_data(&mut self, fragment: &str, debuglevel: &StatusLevel) {
        console_write(fragment);
        self.log = Ghost(self.log@.push((*debuglevel, fragment@)));
    }
}

impl DuplicableStorage for ConsoleSink {
    fn duplicate(&self) -> (r: Self) {
        ConsoleSink { log: Ghost(self.log@) }
    }
}

} // verus!
