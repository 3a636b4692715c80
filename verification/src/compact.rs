//! Compact rendering: the logging engine variants that emit each record as
//! a sequence of discrete fragments instead of one allocated string.
use vstd::prelude::*;

verus! {

use vstd::pervasive::unreached;
use crate::duration::render_duration;
use crate::record::fragment_group;
use crate::status::StatusLevel;
use crate::status::reset_str;
use crate::storage::DuplicableStorage;
use crate::storage::StorageProvider;
use crate::time::DuplicableTime;
use crate::time::TimeProvider;
use crate::time::snapshot_time;

/// Whether one compact log call turned the engine state `(pre_t, pre_s)`
/// into `(post_t, post_s)` by appending exactly the six fragments of one
/// record for `level` and `msg`, contiguously and in order: the time
/// source is untouched, and the elapsed fragment humanizes a value the
/// time source admits.
pub open spec fn fragments_written<T: TimeProvider, S: StorageProvider>(
    pre_t: T,
    pre_s: S,
    post_t: T,
    post_s: S,
    level: StatusLevel,
    msg: Seq<char>,
) -> bool {
    post_t == pre_t && exists|ns: u64|
        #[trigger] pre_t.admits_elapsed(ns) && post_s.contents() == pre_s.contents()
            + fragment_group(level, ns, msg)
}

/// Under the null time source a compact log call is pinned down exactly:
/// the six appended fragments humanize an elapsed time of zero, whatever
/// the wall clock did.
pub proof fn lemma_null_time_fragments<S: StorageProvider>(
    pre_t: (),
    pre_s: S,
    post_t: (),
    post_s: S,
    level: StatusLevel,
    msg: Seq<char>,
)
    requires
        fragments_written(pre_t, pre_s, post_t, post_s, level, msg),
    ensures
        post_s.contents() == pre_s.contents() + fragment_group(level, 0, msg),
{
}

/// The single-owner compact engine: one record becomes six discrete
/// fragment writes, avoiding one large allocation.
pub struct ULogger<T: TimeProvider, S: StorageProvider>(pub T, pub S);

/// The cloneable compact engine: both capabilities are duplicable, so a
/// fallible attempt works on a snapshot and the original stays usable.
pub struct MultiULogger<T: TimeProvider, S: StorageProvider>(pub T, pub S);

/// Whether `snap` is a snapshot of the compact engine `orig`.
pub open spec fn usnapshot_of<T: TimeProvider, S: StorageProvider>(
    orig: MultiULogger<T, S>,
    snap: MultiULogger<T, S>,
) -> bool {
    snapshot_time(orig.0, snap.0) && snap.1.contents() == orig.1.contents()
}

/// The engine state that `ULogger::try_get` hands to the recovery handler
/// on failure: the caller's engine with exactly one Warning record, as six
/// fragments, appended for the error text.
pub open spec fn uwarning_handoff<T: TimeProvider, S: StorageProvider>(
    pre: ULogger<T, S>,
    handed: ULogger<T, S>,
    err: Seq<char>,
) -> bool {
    fragments_written(pre.0, pre.1, handed.0, handed.1, StatusLevel::Warning, err)
}

/// The engine state that `MultiULogger::try_get` hands to the recovery
/// handler on failure: a snapshot of the caller's engine with exactly one
/// Warning record, as six fragments, appended for the error text.
pub open spec fn usnapshot_warning_handoff<T: TimeProvider, S: StorageProvider>(
    pre: MultiULogger<T, S>,
    handed: MultiULogger<T, S>,
    err: Seq<char>,
) -> bool {
    snapshot_time(pre.0, handed.0) && exists|ns: u64|
        #[trigger] pre.0.admits_elapsed(ns) && handed.1.contents() == pre.1.contents()
            + fragment_group(StatusLevel::Warning, ns, err)
}

impl<T: TimeProvider, S: StorageProvider> ULogger<T, S> {
    /// Emits one record as six fragments for a value's structured
    /// representation, rendered by the caller into plain text.
    pub fn log(&mut self, level: StatusLevel, msg: &str)
        ensures
            fragments_written(old(self).0, old(self).1, final(self).0, final(self).1, level, msg@),
    {
        let ns = self.0.elapsed();
        let head = level.header();
        self.1.write_data(head.as_str(), &level);
        let dur = render_duration(ns);
        self.1.write_data(dur.as_str(), &level);
        self.1.write_data(level.to_color(), &level);
        self.1.write_data(msg, &level);
        self.1.write_data(reset_str(), &level);
        self.1.write_data("\n", &level);
        proof {
            assert(self.1.contents() =~= old(self).1.contents() + fragment_group(
                level,
                ns,
                msg@,
            ));
            assert(old(self).0.admits_elapsed(ns) && self.1.contents() == old(self).1.contents()
                + fragment_group(level, ns, msg@));
        }
    }

    /// Emits one record as six fragments for a value's plain display text.
    pub fn logdisp(&mut self, level: StatusLevel, msg: &str)
        ensures
            fragments_written(old(self).0, old(self).1, final(self).0, final(self).1, level, msg@),
    {
        self.log(level, msg);
    }

    /// Emits one Ok record.
    pub fn log_ok(&mut self, msg: &str)
        ensures
            fragments_written(
                old(self).0,
                old(self).1,
                final(self).0,
                final(self).1,
                StatusLevel::Okay,
                msg@,
            ),
    {
        self.logdisp(StatusLevel::Okay, msg);
    }

    /// Emits one Info record.
    pub fn log_info(&mut self, msg: &str)
        ensures
            fragments_written(
                old(self).0,
                old(self).1,
                final(self).0,
                final(self).1,
                StatusLevel::Info,
                msg@,
            ),
    {
        self.logdisp(StatusLevel::Info, msg);
    }

    /// Emits one Warning record.
    pub fn log_warn(&mut self, msg: &str)
        ensures
            fragments_written(
                old(self).0,
                old(self).1,
                final(self).0,
                final(self).1,
                StatusLevel::Warning,
                msg@,
            ),
    {
        self.logdisp(StatusLevel::Warning, msg);
    }

    /// Emits one Error record.
    pub fn log_err(&mut self, msg: &str)
        ensures
            fragments_written(
                old(self).0,
                old(self).1,
                final(self).0,
                final(self).1,
                StatusLevel::Error,
                msg@,
            ),
    {
        self.logdisp(StatusLevel::Error, msg);
    }

    /// Fire-and-forget: logs an error at Error severity and always returns,
    /// so the caller continues unconditionally. A success is not recorded.
    pub fn try_run<O>(&mut self, tryresult: Result<O, String>)
        ensures
            tryresult is Ok ==> *final(self) == *old(self),
            tryresult is Err ==> fragments_written(
                old(self).0,
                old(self).1,
                final(self).0,
                final(self).1,
                StatusLevel::Error,
                tryresult->Err_0@,
            ),
    {
        if let Err(err) = tryresult {
            self.log(StatusLevel::Error, err.as_str());
        }
    }

    /// The central combinator in compact rendering. On success it returns
    /// the unwrapped value together with the engine, untouched — no
    /// fragment is written. On failure it logs the error at Warning
    /// severity and hands the engine to the recovery handler, a terminal
    /// action that performs last-resort reporting and then terminates the
    /// host or parks forever instead of returning, so the call never
    /// returns to its caller.
    pub fn try_get<O>(self, tryresult: Result<O, String>, redirectfn: impl FnOnce(Self)) -> (r: (
        O,
        Self,
    ))
        requires
            tryresult is Err ==> forall|handed: Self|
                uwarning_handoff(self, handed, tryresult->Err_0@) ==> #[trigger] call_requires(
                    redirectfn,
                    (handed,),
                ),
            tryresult is Err ==> forall|handed: Self, ret: ()|
                #[trigger] call_ensures(redirectfn, (handed,), ret) ==> false,
        ensures
            tryresult is Ok,
            r.0 == tryresult->Ok_0,
            r.1 == self,
    {
        match tryresult {
            Ok(x) => (x, self),
            Err(err) => {
                let mut engine = self;
                engine.log(StatusLevel::Warning, err.as_str());
                proof {
                    assert(uwarning_handoff(self, engine, err@));
                }
                redirectfn(engine);
                unreached()
            },
        }
    }
}

impl<T: DuplicableTime, S: DuplicableStorage> Clone for MultiULogger<T, S> {
    /// Takes a snapshot: a duplicate engine whose time source behaves the
    /// same and whose sink reports the same contents.
    fn clone(&self) -> (r: Self)
        ensures
            usnapshot_of(*self, r),
    {
        MultiULogger(self.0.duplicate(), self.1.duplicate())
    }
}

impl<T: TimeProvider, S: StorageProvider> MultiULogger<T, S> {
    /// Emits one record as six fragments for a value's structured
    /// representation, rendered by the caller into plain text.
    pub fn log(&mut self, level: StatusLevel, msg: &str)
        ensures
            fragments_written(old(self).0, old(self).1, final(self).0, final(self).1, level, msg@),
    {
        let ns = self.0.elapsed();
        let head = level.header();
        self.1.write_data(head.as_str(), &level);
        let dur = render_duration(ns);
        self.1.write_data(dur.as_str(), &level);
        self.1.write_data(level.to_color(), &level);
        self.1.write_data(msg, &level);
        self.1.write_data(reset_str(), &level);
        self.1.write_data("\n", &level);
        proof {
            assert(self.1.contents() =~= old(self).1.contents() + fragment_group(
                level,
                ns,
                msg@,
            ));
            assert(old(self).0.admits_elapsed(ns) && self.1.contents() == old(self).1.contents()
                + fragment_group(level, ns, msg@));
        }
    }

    /// Emits one record as six fragments for a value's plain display text.
    pub fn logdisp(&mut self, level: StatusLevel, msg: &str)
        ensures
            fragments_written(old(self).0, old(self).1, final(self).0, final(self).1, level, msg@),
    {
        self.log(level, msg);
    }

    /// Emits one Ok record.
    pub fn log_ok(&mut self, msg: &str)
        ensures
            fragments_written(
                old(self).0,
                old(self).1,
                final(self).0,
                final(self).1,
                StatusLevel::Okay,
                msg@,
            ),
    {
        self.logdisp(StatusLevel::Okay, msg);
    }

    /// Emits one Info record.
    pub fn log_info(&mut self, msg: &str)
        ensures
            fragments_written(
                old(self).0,
                old(self).1,
                final(self).0,
                final(self).1,
                StatusLevel::Info,
                msg@,
            ),
    {
        self.logdisp(StatusLevel::Info, msg);
    }

    /// Emits one Warning record.
    pub fn log_warn(&mut self, msg: &str)
        ensures
            fragments_written(
                old(self).0,
                old(self).1,
                final(self).0,
                final(self).1,
                StatusLevel::Warning,
                msg@,
            ),
    {
        self.logdisp(StatusLevel::Warning, msg);
    }

    /// Emits one Error record.
    pub fn log_err(&mut self, msg: &str)
        ensures
            fragments_written(
                old(self).0,
                old(self).1,
                final(self).0,
                final(self).1,
                StatusLevel::Error,
                msg@,
            ),
    {
        self.logdisp(StatusLevel::Error, msg);
    }

    /// Fire-and-forget: logs an error at Error severity and always returns,
    /// so the caller continues unconditionally. A success is not recorded.
    pub fn try_run<O>(&mut self, tryresult: Result<O, String>)
        ensures
            tryresult is Ok ==> *final(self) == *old(self),
            tryresult is Err ==> fragments_written(
                old(self).0,
                old(self).1,
                final(self).0,
                final(self).1,
                StatusLevel::Error,
                tryresult->Err_0@,
            ),
    {
        if let Err(err) = tryresult {
            self.log(StatusLevel::Error, err.as_str());
        }
    }
}

impl<T: DuplicableTime, S: DuplicableStorage> MultiULogger<T, S> {
    /// The central combinator in compact rendering, on a snapshot. The
    /// caller's own engine is untouched either way. On success it returns
    /// the unwrapped value and a fresh snapshot — no fragment is written
    /// anywhere. On failure the snapshot logs the error at Warning
    /// severity and is handed to the recovery handler, a terminal action
    /// that performs last-resort reporting and then terminates the host or
    /// parks forever instead of returning, so the call never returns to
    /// its caller.
    pub fn try_get<O>(
        &mut self,
        tryresult: Result<O, String>,
        redirectfn: impl FnOnce(Self),
    ) -> (r: (O, Self))
        requires
            tryresult is Err ==> forall|handed: Self|
                usnapshot_warning_handoff(*old(self), handed, tryresult->Err_0@)
                    ==> #[trigger] call_requires(redirectfn, (handed,)),
            tryresult is Err ==> forall|handed: Self, ret: ()|
                #[trigger] call_ensures(redirectfn, (handed,), ret) ==> false,
        ensures
            *final(self) == *old(self),
            tryresult is Ok,
            r.0 == tryresult->Ok_0,
            usnapshot_of(*old(self), r.1),
    {
        let new_self = self.clone();
        match tryresult {
            Ok(x) => (x, new_self),
            Err(err) => {
                let mut snap = new_self;
                snap.log(StatusLevel::Warning, err.as_str());
                proof {
                    assert(usnapshot_warning_handoff(*old(self), snap, err@));
                }
                redirectfn(snap);
                unreached()
            },
        }
    }
}

} // verus!
