//! The durable statistics ledger: session history, weekly counters,
//! notes, and the startup daily/weekly reset rule.

use vstd::prelude::*;

verus! {

/// One line of the session history, immutable once created.
#[derive(Debug)]
pub struct SessionRecord {
    pub timestamp: String,
    pub phase_type: String,
    /// Configured length of the phase, in whole minutes.
    pub duration: u64,
    /// True when the countdown ran (nearly) to zero rather than being skipped.
    pub completed: bool,
}

/// Mathematical image of a `SessionRecord`.
#[verifier::ext_equal]
pub ghost struct SessionRecordV {
    pub timestamp: Seq<char>,
    pub phase_type: Seq<char>,
    pub duration: u64,
    pub completed: bool,
}

impl DeepView for SessionRecord {
    type V = SessionRecordV;

    open spec fn deep_view(&self) -> SessionRecordV {
        SessionRecordV {
            timestamp: self.timestamp@,
            phase_type: self.phase_type@,
            duration: self.duration,
            completed: self.completed,
        }
    }
}

/// A timestamped free-text annotation.
#[derive(Debug)]
pub struct Note {
    pub timestamp: String,
    pub content: String,
    /// Slug of the phase that was running when the note was created.
    pub phase: String,
}

/// Mathematical image of a `Note`.
#[verifier::ext_equal]
pub ghost struct NoteV {
    pub timestamp: Seq<char>,
    pub content: Seq<char>,
    pub phase: Seq<char>,
}

impl DeepView for Note {
    type V = NoteV;

    open spec fn deep_view(&self) -> NoteV {
        NoteV { timestamp: self.timestamp@, content: self.content@, phase: self.phase@ }
    }
}

/// The durable progress ledger.
#[derive(Debug)]
pub struct Statistics {
    pub total_sessions: u32,
    /// Cumulative completed work time, in whole minutes.
    pub total_work_time: u64,
    /// Cumulative completed break time, in whole minutes.
    pub total_break_time: u64,
    pub sessions_today: u32,
    /// Calendar date (`YYYY-MM-DD`, local time) of the last recorded activity.
    pub last_session_date: String,
    /// Bounded most-recent-first-evicting history (at most 100 entries).
    pub session_history: Vec<SessionRecord>,
    /// Per-weekday session counts; index 0 is Monday. Always 7 entries.
    pub weekly_sessions: Vec<u32>,
    /// All notes, in insertion order.
    pub notes: Vec<Note>,
}

/// Mathematical image of `Statistics`.
#[verifier::ext_equal]
pub ghost struct StatisticsV {
    pub total_sessions: u32,
    pub total_work_time: u64,
    pub total_break_time: u64,
    pub sessions_today: u32,
    pub last_session_date: Seq<char>,
    pub session_history: Seq<SessionRecordV>,
    pub weekly_sessions: Seq<u32>,
    pub notes: Seq<NoteV>,
}

impl DeepView for Statistics {
    type V = StatisticsV;

    open spec fn deep_view(&self) -> StatisticsV {
        StatisticsV {
            total_sessions: self.total_sessions,
            total_work_time: self.total_work_time,
            total_break_time: self.total_break_time,
            sessions_today: self.sessions_today,
            last_session_date: self.last_session_date@,
            session_history: self.session_history.deep_view(),
            weekly_sessions: self.weekly_sessions@,
            notes: self.notes.deep_view(),
        }
    }
}

/// Capacity of the session history.
pub const HISTORY_CAP: usize = 100;

impl StatisticsV {
    /// Structural invariant of the ledger.
    pub open spec fn wf(self) -> bool {
        &&& self.weekly_sessions.len() == 7
        &&& self.session_history.len() <= HISTORY_CAP
    }
}

/// Appending to the bounded history: a 101st entry evicts the oldest
/// (index 0), keeping the order of the rest.
pub open spec fn history_push(h: Seq<SessionRecordV>, r: SessionRecordV) -> Seq<SessionRecordV> {
    if h.len() < HISTORY_CAP {
        h.push(r)
    } else {
        h.push(r).drop_first()
    }
}

/// The bounded history never exceeds its capacity, and eviction keeps
/// the surviving entries in order: after appending to a full history,
/// entry `i` is the old entry `i + 1` and the new record sits at the end.
pub proof fn lemma_history_capacity(h: Seq<SessionRecordV>, r: SessionRecordV)
    requires
        h.len() <= HISTORY_CAP,
    ensures
        history_push(h, r).len() <= HISTORY_CAP,
        h.len() < HISTORY_CAP ==> history_push(h, r) == h.push(r),
        h.len() == HISTORY_CAP ==> {
            let out = history_push(h, r);
            &&& out.len() == HISTORY_CAP
            &&& forall|i: int| 0 <= i < HISTORY_CAP - 1 ==> out[i] == h[i + 1]
            &&& out[HISTORY_CAP - 1] == r
        },
{
}

/// The once-at-startup daily reset: when the recorded date is not today,
/// zero today's counter, stamp today, and age the weekly array by one
/// day (rotate left, fresh zero for today); otherwise leave everything.
pub open spec fn daily_reset(st: StatisticsV, today: Seq<char>) -> StatisticsV {
    if st.last_session_date == today {
        st
    } else {
        StatisticsV {
            sessions_today: 0,
            last_session_date: today,
            weekly_sessions: st.weekly_sessions.drop_first().push(0u32),
            ..st
        }
    }
}

/// Applying the daily reset twice on the same day changes nothing after
/// the first application.
pub proof fn lemma_daily_reset_idempotent(st: StatisticsV, today: Seq<char>)
    ensures
        daily_reset(daily_reset(st, today), today) == daily_reset(st, today),
{
}

impl Statistics {
    /// A fresh ledger with built-in defaults, stamped with today's date.
    pub fn fresh(today: String) -> (r: Statistics)
        ensures
            r.deep_view() == (StatisticsV {
                total_sessions: 0,
                total_work_time: 0,
                total_break_time: 0,
                sessions_today: 0,
                last_session_date: today@,
                session_history: Seq::<SessionRecordV>::empty(),
                weekly_sessions: seq![0u32, 0u32, 0u32, 0u32, 0u32, 0u32, 0u32],
                notes: Seq::<NoteV>::empty(),
            }),
            r.deep_view().wf(),
    {
        let r = Statistics {
            total_sessions: 0,
            total_work_time: 0,
            total_break_time: 0,
            sessions_today: 0,
            last_session_date: today,
            session_history: Vec::new(),
            weekly_sessions: vec![0u32, 0u32, 0u32, 0u32, 0u32, 0u32, 0u32],
            notes: Vec::new(),
        };
        proof {
            assert(r.deep_view().session_history =~= Seq::<SessionRecordV>::empty());
            assert(r.deep_view().notes =~= Seq::<NoteV>::empty());
            assert(r.deep_view().weekly_sessions =~= seq![0u32, 0u32, 0u32, 0u32, 0u32, 0u32, 0u32]);
            assert(r.deep_view() =~= (StatisticsV {
                total_sessions: 0,
                total_work_time: 0,
                total_break_time: 0,
                sessions_today: 0,
                last_session_date: r.last_session_date@,
                session_history: Seq::<SessionRecordV>::empty(),
                weekly_sessions: seq![0u32, 0u32, 0u32, 0u32, 0u32, 0u32, 0u32],
                notes: Seq::<NoteV>::empty(),
            }));
        }
        r
    }

    /// Repairs a ledger read back from disk so the structural invariant
    /// holds again: a malformed weekly array is replaced by seven zeros,
    /// and an over-long history keeps only its newest 100 entries.
    pub fn normalize(&mut self)
        ensures
            final(self).deep_view().wf(),
            final(self).deep_view() == (StatisticsV {
                weekly_sessions: if old(self).weekly_sessions@.len() == 7 {
                    old(self).deep_view().weekly_sessions
                } else {
                    seq![0u32, 0u32, 0u32, 0u32, 0u32, 0u32, 0u32]
                },
                session_history: if old(self).session_history@.len() <= HISTORY_CAP {
                    old(self).deep_view().session_history
                } else {
                    old(self).deep_view().session_history.skip(
                        old(self).session_history@.len() - HISTORY_CAP,
                    )
                },
                ..old(self).deep_view()
            }),
    {
        if self.weekly_sessions.len() != 7 {
            self.weekly_sessions = vec![0u32, 0u32, 0u32, 0u32, 0u32, 0u32, 0u32];
            proof {
                assert(self.weekly_sessions@ =~= seq![0u32, 0u32, 0u32, 0u32, 0u32, 0u32, 0u32]);
            }
        }
        proof {
            assert(self.deep_view() =~= (StatisticsV {
                weekly_sessions: if old(self).weekly_sessions@.len() == 7 {
                    old(self).deep_view().weekly_sessions
                } else {
                    seq![0u32, 0u32, 0u32, 0u32, 0u32, 0u32, 0u32]
                },
                ..old(self).deep_view()
            }));
        }
        let ghost base = self.deep_view();
        let ghost orig = self.deep_view().session_history;
        let ghost n = orig.len() as int;
        while self.session_history.len() > HISTORY_CAP
            invariant
                n == orig.len(),
                self.deep_view().session_history
                    =~= orig.skip(n - self.session_history@.len()),
                self.session_history@.len() <= n,
                self.session_history@.len() >= HISTORY_CAP || self.session_history@.len() == n,
                self.deep_view() == (StatisticsV {
                    session_history: self.deep_view().session_history,
                    ..base
                }),
            decreases self.session_history@.len(),
        {
            let ghost pre = self.session_history@;
            let ghost pre_dv = self.deep_view().session_history;
            self.session_history.remove(0);
            proof {
                pre.remove_ensures(0);
                let ghost prelen = pre.len() as int;
                let ghost newlen = self.session_history@.len() as int;
                assert(newlen == prelen - 1);
                assert(pre_dv == orig.skip(n - prelen));
                assert forall|i: int| 0 <= i < newlen implies #[trigger] self
                    .deep_view().session_history[i] == orig.skip(n - newlen)[i] by {
                    assert(self.session_history@[i] == pre[i + 1]);
                    assert(self.deep_view().session_history[i] == pre_dv[i + 1]);
                    assert(pre_dv[i + 1] == orig.skip(n - prelen)[i + 1]);
                    assert(orig.skip(n - prelen)[i + 1] == orig[n - prelen + i + 1]);
                    assert(orig.skip(n - newlen)[i] == orig[n - newlen + i]);
                }
                assert(self.deep_view().session_history
                    =~= orig.skip(n - self.session_history@.len()));
                assert(self.deep_view() =~= (StatisticsV {
                    session_history: self.deep_view().session_history,
                    ..base
                }));
            }
        }
        proof {
            assert(self.deep_view() =~= (StatisticsV {
                weekly_sessions: if old(self).weekly_sessions@.len() == 7 {
                    old(self).deep_view().weekly_sessions
                } else {
                    seq![0u32, 0u32, 0u32, 0u32, 0u32, 0u32, 0u32]
                },
                session_history: if old(self).session_history@.len() <= HISTORY_CAP {
                    old(self).deep_view().session_history
                } else {
                    old(self).deep_view().session_history.skip(
                        old(self).session_history@.len() - HISTORY_CAP,
                    )
                },
                ..old(self).deep_view()
            }));
        }
    }

    /// The startup daily/weekly reset, applied before any other logic.
    pub fn reset_daily_stats_if_needed(&mut self, today: String)
        requires
            old(self).deep_view().wf(),
        ensures
            final(self).deep_view() == daily_reset(old(self).deep_view(), today@),
            final(self).deep_view().wf(),
    {
        if !(self.last_session_date == today) {
            self.sessions_today = 0;
            self.last_session_date = today;
            self.weekly_sessions.remove(0);
            self.weekly_sessions.push(0);
            proof {
                assert(self.deep_view().weekly_sessions
                    =~= old(self).deep_view().weekly_sessions.drop_first().push(0u32));
                assert(self.deep_view() =~= daily_reset(old(self).deep_view(), today@));
            }
        }
    }
}

} // verus!
