//! The logging engine: single-owner and cloneable variants, with the
//! error-handling combinators `try_run` and `try_get`.
use vstd::prelude::*;

verus! {

use vstd::pervasive::unreached;
use crate::record::record_seq;
use crate::record::render_record;
use crate::status::StatusLevel;
use crate::storage::DuplicableStorage;
use crate::storage::StorageProvider;
use crate::time::DuplicableTime;
use crate::time::TimeProvider;
use crate::time::snapshot_time;

/// Whether one log call turned the engine state `(pre_t, pre_s)` into
/// `(post_t, post_s)` by appending exactly one record for `level` and
/// `msg`: the time source is untouched, and the sink gained one full
/// record whose elapsed text is one the time source can render.
pub open spec fn record_written<T: TimeProvider, S: StorageProvider>(
    pre_t: T,
    pre_s: S,
    post_t: T,
    post_s: S,
    level: StatusLevel,
    msg: Seq<char>,
) -> bool {
    post_t == pre_t && exists|e: Seq<char>|
        #[trigger] pre_t.may_render(e) && post_s.contents() == pre_s.contents().push(
            (level, record_seq(level, e, msg)),
        )
}

/// Under the null time source a log call is pinned down exactly: the one
/// appended record has an empty elapsed text, whatever the wall clock did.
pub proof fn lemma_null_time_record<S: StorageProvider>(
    pre_t: (),
    pre_s: S,
    post_t: (),
    post_s: S,
    level: StatusLevel,
    msg: Seq<char>,
)
    requires
        record_written(pre_t, pre_s, post_t, post_s, level, msg),
    ensures
        post_s.contents() == pre_s.contents().push(
            (level, record_seq(level, Seq::<char>::empty(), msg)),
        ),
{
}

/// The single-owner logging engine: owns one time capability and one
/// storage capability. Fallible attempts pass the engine by value and hand
/// it back, modeling a linear resource.
pub struct Logger<T: TimeProvider, S: StorageProvider>(pub T, pub S);

/// The cloneable logging engine: both capabilities are duplicable, so a
/// fallible attempt works on a snapshot and the original stays usable.
pub struct MultiLogger<T: TimeProvider, S: StorageProvider>(pub T, pub S);

/// Whether `snap` is a snapshot of the engine `orig`: its time source
/// behaves the same and its sink reports the same contents.
pub open spec fn snapshot_of<T: TimeProvider, S: StorageProvider>(
    orig: MultiLogger<T, S>,
    snap: MultiLogger<T, S>,
) -> bool {
    snapshot_time(orig.0, snap.0) && snap.1.contents() == orig.1.contents()
}

/// The engine state that `Logger::try_get` hands to the recovery handler
/// on failure: the caller's engine with exactly one Warning record for the
/// error text appended.
pub open spec fn warning_handoff<T: TimeProvider, S: StorageProvider>(
    pre: Logger<T, S>,
    handed: Logger<T, S>,
    err: Seq<char>,
) -> bool {
    record_written(pre.0, pre.1, handed.0, handed.1, StatusLevel::Warning, err)
}

/// The engine state that `MultiLogger::try_get` hands to the recovery
/// handler on failure: a snapshot of the caller's engine with exactly one
/// Warning record for the error text appended.
pub open spec fn snapshot_warning_handoff<T: TimeProvider, S: StorageProvider>(
    pre: MultiLogger<T, S>,
    handed: MultiLogger<T, S>,
    err: Seq<char>,
) -> bool {
    snapshot_time(pre.0, handed.0) && exists|e: Seq<char>|
        #[trigger] pre.0.may_render(e) && handed.1.contents() == pre.1.contents().push(
            (StatusLevel::Warning, record_seq(StatusLevel::Warning, e, err)),
        )
}

impl<T: TimeProvider, S: StorageProvider> Logger<T, S> {
    /// Emits one record for a value's structured representation, rendered
    /// by the caller into plain text.
    pub fn log(&mut self, level: StatusLevel, msg: &str)
        ensures
            record_written(old(self).0, old(self).1, final(self).0, final(self).1, level, msg@),
    {
        let elapsed = self.0.render();
        let rec = render_record(level, elapsed.as_str(), msg);
        self.1.write_data(rec.as_str(), &level);
        proof {
            assert(old(self).0.may_render(elapsed@) && self.1.contents() == old(
                self,
            ).1.contents().push((level, record_seq(level, elapsed@, msg@))));
        }
    }

    /// Emits one record for a value's plain display text.
    pub fn logdisp(&mut self, level: StatusLevel, msg: &str)
        ensures
            record_written(old(self).0, old(self).1, final(self).0, final(self).1, level, msg@),
    {
        let elapsed = self.0.render();
        let rec = render_record(level, elapsed.as_str(), msg);
        self.1.write_data(rec.as_str(), &level);
        proof {
            assert(old(self).0.may_render(elapsed@) && self.1.contents() == old(
                self,
            ).1.contents().push((level, record_seq(level, elapsed@, msg@))));
        }
    }

    /// Emits one Ok record.
    pub fn log_ok(&mut self, msg: &str)
        ensures
            record_written(
                old(self).0,
                old(self).1,
                final(self).0,
                final(self).1,
                StatusLevel::Okay,
                msg@,
            ),
    {
        self.logdisp(StatusLevel::Okay, msg);
    }

    /// Emits one Info record.
    pub fn log_info(&mut self, msg: &str)
        ensures
            record_written(
                old(self).0,
                old(self).1,
                final(self).0,
                final(self).1,
                StatusLevel::Info,
                msg@,
            ),
    {
        self.logdisp(StatusLevel::Info, msg);
    }

    /// Emits one Warning record.
    pub fn log_warn(&mut self, msg: &str)
        ensures
            record_written(
                old(self).0,
                old(self).1,
                final(self).0,
                final(self).1,
                StatusLevel::Warning,
                msg@,
            ),
    {
        self.logdisp(StatusLevel::Warning, msg);
    }

    /// Emits one Error record.
    pub fn log_err(&mut self, msg: &str)
        ensures
            record_written(
                old(self).0,
                old(self).1,
                final(self).0,
                final(self).1,
                StatusLevel::Error,
                msg@,
            ),
    {
        self.logdisp(StatusLevel::Error, msg);
    }

    /// Fire-and-forget: logs an error at Error severity and always returns,
    /// so the caller continues unconditionally. A success is not recorded.
    pub fn try_run<O>(&mut self, tryresult: Result<O, String>)
        ensures
            tryresult is Ok ==> *final(self) == *old(self),
            tryresult is Err ==> record_written(
                old(self).0,
                old(self).1,
                final(self).0,
                final(self).1,
                StatusLevel::Error,
                tryresult->Err_0@,
            ),
    {
        if let Err(err) = tryresult {
            self.log(StatusLevel::Error, err.as_str());
        }
    }

    /// The central combinator. On success it returns the unwrapped value
    /// together with the engine, untouched — no record is written. On
    /// failure it logs the error at Warning severity and hands the engine —
    /// now holding exactly that one new record — to the recovery handler,
    /// a terminal action that performs last-resort reporting and then
    /// terminates the host or parks forever instead of returning, so the
    /// call never returns to its caller. That the call returns at all
    /// therefore proves the result was a success.
    pub fn try_get<O>(self, tryresult: Result<O, String>, redirectfn: impl FnOnce(Self)) -> (r: (
        O,
        Self,
    ))
        requires
            tryresult is Err ==> forall|handed: Self|
                warning_handoff(self, handed, tryresult->Err_0@) ==> #[trigger] call_requires(
                    redirectfn,
                    (handed,),
                ),
            tryresult is Err ==> forall|handed: Self, ret: ()|
                #[trigger] call_ensures(redirectfn, (handed,), ret) ==> false,
        ensures
            tryresult is Ok,
            r.0 == tryresult->Ok_0,
            r.1 == self,
    {
        match tryresult {
            Ok(x) => (x, self),
            Err(err) => {
                let mut engine = self;
                engine.log(StatusLevel::Warning, err.as_str());
                proof {
                    assert(warning_handoff(self, engine, err@));
                }
                redirectfn(engine);
                unreached()
            },
        }
    }
}

impl<T: DuplicableTime, S: DuplicableStorage> Clone for MultiLogger<T, S> {
    /// Takes a snapshot: a duplicate engine whose time source behaves the
    /// same and whose sink reports the same contents.
    fn clone(&self) -> (r: Self)
        ensures
            snapshot_of(*self, r),
    {
        MultiLogger(self.0.duplicate(), self.1.duplicate())
    }
}

impl<T: TimeProvider, S: StorageProvider> MultiLogger<T, S> {
    /// Emits one record for a value's structured representation, rendered
    /// by the caller into plain text.
    pub fn log(&mut self, level: StatusLevel, msg: &str)
        ensures
            record_written(old(self).0, old(self).1, final(self).0, final(self).1, level, msg@),
    {
        let elapsed = self.0.render();
        let rec = render_record(level, elapsed.as_str(), msg);
        self.1.write_data(rec.as_str(), &level);
        proof {
            assert(old(self).0.may_render(elapsed@) && self.1.contents() == old(
                self,
            ).1.contents().push((level, record_seq(level, elapsed@, msg@))));
        }
    }

    /// Emits one record for a value's plain display text.
    pub fn logdisp(&mut self, level: StatusLevel, msg: &str)
        ensures
            record_written(old(self).0, old(self).1, final(self).0, final(self).1, level, msg@),
    {
        let elapsed = self.0.render();
        let rec = render_record(level, elapsed.as_str(), msg);
        self.1.write_data(rec.as_str(), &level);
        proof {
            assert(old(self).0.may_render(elapsed@) && self.1.contents() == old(
                self,
            ).1.contents().push((level, record_seq(level, elapsed@, msg@))));
        }
    }

    /// Emits one Ok record.
    pub fn log_ok(&mut self, msg: &str)
        ensures
            record_written(
                old(self).0,
                old(self).1,
                final(self).0,
                final(self).1,
                StatusLevel::Okay,
                msg@,
            ),
    {
        self.logdisp(StatusLevel::Okay, msg);
    }

    /// Emits one Info record.
    pub fn log_info(&mut self, msg: &str)
        ensures
            record_written(
                old(self).0,
                old(self).1,
                final(self).0,
                final(self).1,
                StatusLevel::Info,
                msg@,
            ),
    {
        self.logdisp(StatusLevel::Info, msg);
    }

    /// Emits one Warning record.
    pub fn log_warn(&mut self, msg: &str)
        ensures
            record_written(
                old(self).0,
                old(self).1,
                final(self).0,
                final(self).1,
                StatusLevel::Warning,
                msg@,
            ),
    {
        self.logdisp(StatusLevel::Warning, msg);
    }

    /// Emits one Error record.
    pub fn log_err(&mut self, msg: &str)
        ensures
            record_written(
                old(self).0,
                old(self).1,
                final(self).0,
                final(self).1,
                StatusLevel::Error,
                msg@,
            ),
    {
        self.logdisp(StatusLevel::Error, msg);
    }

    /// Fire-and-forget: logs an error at Error severity and always returns,
    /// so the caller continues unconditionally. A success is not recorded.
    pub fn try_run<O>(&mut self, tryresult: Result<O, String>)
        ensures
            tryresult is Ok ==> *final(self) == *old(self),
            tryresult is Err ==> record_written(
                old(self).0,
                old(self).1,
                final(self).0,
                final(self).1,
                StatusLevel::Error,
                tryresult->Err_0@,
            ),
    {
        if let Err(err) = tryresult {
            self.log(StatusLevel::Error, err.as_str());
        }
    }
}

impl<T: DuplicableTime, S: DuplicableStorage> MultiLogger<T, S> {
    /// The central combinator, on a snapshot. The caller's own engine is
    /// untouched either way. On success it returns the unwrapped value and
    /// a fresh snapshot — no record is written anywhere. On failure the
    /// snapshot logs the error at Warning severity and is handed to the
    /// recovery handler, a terminal action that performs last-resort
    /// reporting and then terminates the host or parks forever instead of
    /// returning, so the call never returns to its caller. That the call
    /// returns at all therefore proves the result was a success.
    pub fn try_get<O>(
        &mut self,
        tryresult: Result<O, String>,
        redirectfn: impl FnOnce(Self),
    ) -> (r: (O, Self))
        requires
            tryresult is Err ==> forall|handed: Self|
                snapshot_warning_handoff(*old(self), handed, tryresult->Err_0@)
                    ==> #[trigger] call_requires(redirectfn, (handed,)),
            tryresult is Err ==> forall|handed: Self, ret: ()|
                #[trigger] call_ensures(redirectfn, (handed,), ret) ==> false,
        ensures
            *final(self) == *old(self),
            tryresult is Ok,
            r.0 == tryresult->Ok_0,
            snapshot_of(*old(self), r.1),
    {
        let new_self = self.clone();
        match tryresult {
            Ok(x) => (x, new_self),
            Err(err) => {
                let mut snap = new_self;
                snap.log(StatusLevel::Warning, err.as_str());
                proof {
                    assert(snapshot_warning_handoff(*old(self), snap, err@));
                }
                redirectfn(snap);
                unreached()
            },
        }
    }
}

} // verus!
