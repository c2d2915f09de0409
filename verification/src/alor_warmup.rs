use vstd::prelude::*;

use crate::alor_usdrubf_hybrid::{
    is_model_session_bar, spec_persisted, spec_zone_offset, utc_to_local,
    AlorUsdrubfHybridStrategy, BarGuard, OrderTracking,
};
use crate::clock::{tod_at, tod_le, LocalDateTime, TimeOfDay, TIMESTAMP_LIMIT};

verus! {

broadcast use vstd::string::group_string_axioms;

/// A history bar as warm-up reads it: its symbol and close time.
#[derive(Debug, Clone)]
pub struct HistoryBar {
    pub symbol: String,
    pub close_time_utc: i64,
}

/// What warm-up did with one history bar: skipped it (another symbol, or not after the
/// last processed bar), counted it as processed outside the model session, or fed its
/// prices into the session aggregates of local day `day`, starting that day afresh when
/// `new_day`.
#[derive(Debug, Clone, Copy, PartialEq, Eq, Structural)]
pub enum WarmupStep {
    Skipped,
    OutsideSession,
    Aggregated { day: i32, new_day: bool },
}

/// What warm-up did: the bars fed into the aggregates and, bar by bar, the step taken.
#[derive(Debug, Clone)]
pub struct WarmupOutcome {
    pub processed: usize,
    pub steps: Vec<WarmupStep>,
}

/// What warm-up tracks from bar to bar.
pub struct WarmView {
    pub last_processed: Option<i64>,
    pub last_bar: Option<i64>,
    pub day: Option<i32>,
    pub bo_long: bool,
    pub bo_short: bool,
    pub processed: nat,
}

/// What warm-up tracks from bar to bar, as the strategy holds it.
pub struct WarmTrack {
    pub last_processed: Option<i64>,
    pub last_bar: Option<i64>,
    pub day: Option<i32>,
    pub bo_long: bool,
    pub bo_short: bool,
    pub processed: usize,
}

impl View for WarmTrack {
    type V = WarmView;

    open spec fn view(&self) -> WarmView {
        WarmView {
            last_processed: self.last_processed,
            last_bar: self.last_bar,
            day: self.day,
            bo_long: self.bo_long,
            bo_short: self.bo_short,
            processed: self.processed as nat,
        }
    }
}

/// `l` is a local time that `utc_to_local` may give for `ts` in zone `tz`.
pub open spec fn local_of(ts: i64, tz: i32, l: LocalDateTime) -> bool {
    &&& l.wf()
    &&& l.stamp() == ts + spec_zone_offset(tz) || l.stamp() == spec_zone_offset(tz)
    &&& (-TIMESTAMP_LIMIT <= ts <= TIMESTAMP_LIMIT && -TIMESTAMP_LIMIT <= ts + spec_zone_offset(tz)
        <= TIMESTAMP_LIMIT ==> l.stamp() == ts + spec_zone_offset(tz))
}

/// Warm-up on one bar at local time `l`, for symbol `sym` and the model session from
/// `start` to `end`.
pub open spec fn warm_step(
    sym: Seq<char>,
    start: TimeOfDay,
    end: TimeOfDay,
    w: WarmView,
    bar: HistoryBar,
    l: LocalDateTime,
) -> (WarmView, WarmupStep) {
    let ts = bar.close_time_utc;
    if bar.symbol@ != sym || (w.last_processed matches Some(t) && ts <= t) {
        (w, WarmupStep::Skipped)
    } else if !(tod_le(start, tod_at(l.secs as int)) && tod_le(tod_at(l.secs as int), end)) {
        (WarmView { last_processed: Some(ts), ..w }, WarmupStep::OutsideSession)
    } else {
        let new_day = w.day != Some(l.day);
        (
            WarmView {
                last_processed: Some(ts),
                last_bar: Some(ts),
                day: Some(l.day),
                bo_long: if new_day {
                    false
                } else {
                    w.bo_long
                },
                bo_short: if new_day {
                    false
                } else {
                    w.bo_short
                },
                processed: w.processed + 1,
            },
            WarmupStep::Aggregated { day: l.day, new_day },
        )
    }
}

/// Warm-up over `bars` at local times `ls`, from `w`: what it tracks at the end and the
/// step taken on each bar.
pub open spec fn warm_fold(
    sym: Seq<char>,
    start: TimeOfDay,
    end: TimeOfDay,
    w: WarmView,
    bars: Seq<HistoryBar>,
    ls: Seq<LocalDateTime>,
) -> (WarmView, Seq<WarmupStep>)
    decreases bars.len(),
{
    if bars.len() == 0 {
        (w, Seq::empty())
    } else {
        let (w1, steps) = warm_fold(sym, start, end, w, bars.drop_last(), ls.take(bars.len() - 1));
        let (w2, st) = warm_step(sym, start, end, w1, bars.last(), ls[bars.len() - 1]);
        (w2, steps.push(st))
    }
}

/// What warm-up tracks of strategy `s`.
pub open spec fn warm_view(s: AlorUsdrubfHybridStrategy) -> WarmView {
    WarmView {
        last_processed: s.guard.last_processed_bar_ts,
        last_bar: s.tracking.last_bar_ts,
        day: s.current_day,
        bo_long: s.bo_was_long_today,
        bo_short: s.bo_was_short_today,
        processed: 0,
    }
}

/// `f` is `s` with what warm-up tracked set to `w`: the guard takes the last processed
/// bar (and the last bar when a bar fed the aggregates), the order tracking the last bar,
/// and the session day and its breakout sides are `w`'s.
pub open spec fn warm_applied(s: AlorUsdrubfHybridStrategy, f: AlorUsdrubfHybridStrategy, w: WarmView) -> bool {
    &&& f.guard == (BarGuard {
        last_processed_bar_ts: w.last_processed,
        last_bar_ts: if w.processed > 0 {
            w.last_bar
        } else {
            s.guard.last_bar_ts
        },
        lifecycle_stage: f.guard.lifecycle_stage,
        ..s.guard
    })
    &&& f.tracking == (OrderTracking {
        last_bar_ts: w.last_bar,
        lifecycle_stage: f.tracking.lifecycle_stage,
        ..s.tracking
    })
    &&& f.current_day == w.day
    &&& f.bo_was_long_today == w.bo_long
    &&& f.bo_was_short_today == w.bo_short
    &&& f == (AlorUsdrubfHybridStrategy {
        guard: f.guard,
        tracking: f.tracking,
        current_day: f.current_day,
        bo_was_long_today: f.bo_was_long_today,
        bo_was_short_today: f.bo_was_short_today,
        persisted: f.persisted,
        ..s
    })
}

impl AlorUsdrubfHybridStrategy {
    /// Warm-up from history bars, which only feeds the session aggregates: a strategy with
    /// a pending entry or an open position is left as it is. Otherwise each bar of the
    /// strategy's symbol after the last processed one counts as processed; outside the
    /// model session (from `start` to `end`, in zone `tz`) that is all, inside it a new
    /// local day starts afresh (no breakout side traded yet) and the bar feeds the day's
    /// aggregates, which the price model keeps. When a bar fed them the stage is
    /// `warmed_up` and the state is synchronized.
    #[verifier::spinoff_prover]
    #[verifier::rlimit(40)]
    pub fn warmup_from_history(
        &mut self,
        bars: &Vec<HistoryBar>,
        tz: i32,
        start: TimeOfDay,
        end: TimeOfDay,
    ) -> (r: WarmupOutcome)
        ensures
            (old(self).pending_entry is Some || old(self).open_position is Some) ==> r.processed == 0
                && r.steps@.len() == 0 && *final(self) == *old(self),
            (old(self).pending_entry is None && old(self).open_position is None) ==> exists|
                ls: Seq<LocalDateTime>,
            |
                #![trigger warm_fold(old(self).symbol@, start, end, warm_view(*old(self)), bars@, ls)]
                {
                    let (w, steps) = warm_fold(
                        old(self).symbol@,
                        start,
                        end,
                        warm_view(*old(self)),
                        bars@,
                        ls,
                    );
                    &&& ls.len() == bars@.len()
                    &&& forall|i: int|
                        0 <= i < ls.len() ==> local_of(bars@[i].close_time_utc, tz, #[trigger] ls[i])
                    &&& r.steps@ == steps
                    &&& r.processed == w.processed
                    &&& warm_applied(*old(self), *final(self), w)
                    &&& if w.processed > 0 {
                        &&& final(self).guard.lifecycle_stage@ == "warmed_up"@
                        &&& final(self).tracking.lifecycle_stage@ == "warmed_up"@
                        &&& spec_persisted(*final(self), final(self).persisted)
                    } else {
                        &&& final(self).guard.lifecycle_stage == old(self).guard.lifecycle_stage
                        &&& final(self).tracking.lifecycle_stage == old(self).tracking.lifecycle_stage
                        &&& final(self).persisted == old(self).persisted
                    }
                },
    {
        if self.pending_entry.is_some() || self.open_position.is_some() {
            return WarmupOutcome { processed: 0, steps: Vec::new() };
        }
        let ghost s0 = *self;
        let (t, steps) = self.warm_bars(bars, tz, start, end);
        let ghost ls = choose|ls: Seq<LocalDateTime>|
            #![trigger warm_fold(s0.symbol@, start, end, warm_view(s0), bars@, ls)]
            {
                let (w, st) = warm_fold(s0.symbol@, start, end, warm_view(s0), bars@, ls);
                &&& ls.len() == bars@.len()
                &&& forall|i: int|
                    0 <= i < ls.len() ==> local_of(bars@[i].close_time_utc, tz, #[trigger] ls[i])
                &&& steps@ == st
                &&& t@ == w
            };
        let ghost w = warm_fold(s0.symbol@, start, end, warm_view(s0), bars@, ls).0;
        assert(t@ == w);
        if t.processed > 0 {
            self.guard.last_bar_ts = t.last_bar;
        }
        self.guard.last_processed_bar_ts = t.last_processed;
        self.tracking.last_bar_ts = t.last_bar;
        self.current_day = t.day;
        self.bo_was_long_today = t.bo_long;
        self.bo_was_short_today = t.bo_short;
        if t.processed > 0 {
            self.guard.lifecycle_stage = String::from_str("warmed_up");
            self.tracking.lifecycle_stage = String::from_str("warmed_up");
            self.sync_state();
        }
        assert(warm_applied(s0, *self, w));
        WarmupOutcome { processed: t.processed, steps }
    }

    /// Warm-up over `bars` without changing the strategy: what it tracks at the end and
    /// the step taken on each bar.
    #[verifier::spinoff_prover]
    #[verifier::rlimit(40)]
    fn warm_bars(
        &self,
        bars: &Vec<HistoryBar>,
        tz: i32,
        start: TimeOfDay,
        end: TimeOfDay,
    ) -> (r: (WarmTrack, Vec<WarmupStep>))
        ensures
            exists|ls: Seq<LocalDateTime>|
                #![trigger warm_fold(self.symbol@, start, end, warm_view(*self), bars@, ls)]
                {
                    let (w, steps) = warm_fold(self.symbol@, start, end, warm_view(*self), bars@, ls);
                    &&& ls.len() == bars@.len()
                    &&& forall|i: int|
                        0 <= i < ls.len() ==> local_of(bars@[i].close_time_utc, tz, #[trigger] ls[i])
                    &&& r.1@ == steps
                    &&& r.0@ == w
                },
    {
        let ghost w0 = warm_view(*self);
        let ghost mut ls: Seq<LocalDateTime> = Seq::empty();
        let mut steps: Vec<WarmupStep> = Vec::new();
        let mut t = WarmTrack {
            last_processed: self.guard.last_processed_bar_ts,
            last_bar: self.tracking.last_bar_ts,
            day: self.current_day,
            bo_long: self.bo_was_long_today,
            bo_short: self.bo_was_short_today,
            processed: 0,
        };
        let mut i: usize = 0;
        while i < bars.len()
            invariant
                i <= bars@.len(),
                ls.len() == i,
                forall|k: int| 0 <= k < i ==> local_of(bars@[k].close_time_utc, tz, #[trigger] ls[k]),
                t.processed <= i,
                w0 == warm_view(*self),
                warm_fold(self.symbol@, start, end, w0, bars@.take(i as int), ls) == (t@, steps@),
            decreases bars@.len() - i,
        {
            let bar = &bars[i];
            let l = utc_to_local(bar.close_time_utc, tz);
            proof {
                let next = bars@.take(i + 1);
                assert(next.drop_last() =~= bars@.take(i as int));
                assert(ls.push(l).take(i as int) =~= ls);
                ls = ls.push(l);
            }
            let duplicate = match t.last_processed {
                Some(x) => bar.close_time_utc <= x,
                None => false,
            };
            if !crate::text::str_eq(bar.symbol.as_str(), self.symbol.as_str()) || duplicate {
                steps.push(WarmupStep::Skipped);
            } else if !is_model_session_bar(start, end, l) {
                t.last_processed = Some(bar.close_time_utc);
                steps.push(WarmupStep::OutsideSession);
            } else {
                let new_day = t.day != Some(l.day);
                if new_day {
                    t.bo_long = false;
                    t.bo_short = false;
                }
                t.day = Some(l.day);
                t.last_processed = Some(bar.close_time_utc);
                t.last_bar = Some(bar.close_time_utc);
                t.processed = t.processed + 1;
                steps.push(WarmupStep::Aggregated { day: l.day, new_day });
            }
            i = i + 1;
        }
        proof {
            assert(bars@.take(bars@.len() as int) =~= bars@);
        }
        (t, steps)
    }
}

} // verus!
