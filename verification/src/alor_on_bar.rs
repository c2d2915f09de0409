use vstd::prelude::*;

use crate::alor_paper_bar::{spec_paper_bar, PaperBarActions};
use crate::alor_usdrubf_hybrid::{
    guard_stepped, is_model_session_bar, spec_bar_opened, spec_bar_verdict, spec_day_reset,
    spec_bracket_emitted, spec_bracket_serves_exit, spec_exit_blocked, spec_live_bar, spec_live_bar_rest, spec_persisted, utc_to_local, AlorUsdrubfHybridStrategy,
    BarGuard, BarVerdict, LiveBarActions, OrderTracking, Owner, PositionSide,
};
use crate::alor_warmup::local_of;
use crate::clock::{tod_at, tod_le, LocalDateTime, TimeOfDay};
use crate::host::DataOrigin;

verus! {

broadcast use vstd::string::group_string_axioms;

/// What the strategy did with a bar: ignored it, stopped it at the replay guard with the
/// verdict given, counted it as processed outside the model session, or stepped the live
/// or the paper model on it.
#[derive(Debug, Clone)]
pub enum BarOutcome {
    Ignored,
    Guarded(BarVerdict),
    OutsideSession,
    Live(LiveBarActions),
    Paper(PaperBarActions),
}

/// `f` is `s` after the replay guard judged a bar of symbol `bar_symbol` at `bar_ts` with
/// verdict `v` (see `AlorUsdrubfHybridStrategy::gate_bar`).
pub open spec fn spec_gated(
    s: AlorUsdrubfHybridStrategy,
    f: AlorUsdrubfHybridStrategy,
    v: BarVerdict,
    bar_symbol: Seq<char>,
    live_run: bool,
    enable_live_execution: bool,
    now_ts_utc: i64,
    bar_ts: i64,
    origin: DataOrigin,
    max_silence_bars_sec: u64,
) -> bool {
    &&& v == spec_bar_verdict(
        s.guard,
        bar_symbol == s.symbol@,
        live_run,
        enable_live_execution,
        now_ts_utc,
        bar_ts,
        origin,
        max_silence_bars_sec,
    )
    &&& guard_stepped(s.guard, f.guard, v, bar_ts)
    &&& v is Ignored ==> f.tracking == s.tracking
    &&& !(v is Ignored) ==> f.tracking == (OrderTracking {
        last_bar_ts: Some(bar_ts),
        lifecycle_stage: f.guard.lifecycle_stage,
        ..s.tracking
    })
    &&& f == (AlorUsdrubfHybridStrategy {
        guard: f.guard,
        tracking: f.tracking,
        persisted: f.persisted,
        ..s
    })
    &&& (v is Ignored || v is Proceed) ==> f.persisted == s.persisted
    &&& !(v is Ignored || v is Proceed) ==> spec_persisted(f, f.persisted)
}

/// `f` is `s` after a bar at `bar_ts` outside the model session: processed, with the
/// stage saying so, and the state synchronized.
pub open spec fn spec_suppressed(s: AlorUsdrubfHybridStrategy, f: AlorUsdrubfHybridStrategy, bar_ts: i64) -> bool {
    &&& f.guard == (BarGuard {
        last_processed_bar_ts: Some(bar_ts),
        lifecycle_stage: f.guard.lifecycle_stage,
        ..s.guard
    })
    &&& f.guard.lifecycle_stage@ == "outside_model_session_suppressed"@
    &&& f.tracking == (OrderTracking { lifecycle_stage: f.tracking.lifecycle_stage, ..s.tracking })
    &&& f.tracking.lifecycle_stage@ == "outside_model_session_suppressed"@
    &&& f == (AlorUsdrubfHybridStrategy {
        guard: f.guard,
        tracking: f.tracking,
        persisted: f.persisted,
        ..s
    })
    &&& spec_persisted(f, f.persisted)
}

/// Whether local time `l` lies in the model session from `start` to `end`, bounds included.
pub open spec fn in_session(start: TimeOfDay, end: TimeOfDay, l: LocalDateTime) -> bool {
    tod_le(start, tod_at(l.secs as int)) && tod_le(tod_at(l.secs as int), end)
}

/// Whether an exit reason is a mean-reversion take or stop.
pub open spec fn is_mr_bracket_reason(reason: Option<Seq<char>>) -> bool {
    reason == Some("mr_take"@) || reason == Some("mr_stop"@)
}

/// While a live entry is in flight and nothing is open, a live model bar of the same day
/// sends no second entry and the entry stays in flight.
pub proof fn lemma_no_second_entry_in_flight(
    s: AlorUsdrubfHybridStrategy,
    f: AlorUsdrubfHybridStrategy,
    r: LiveBarActions,
    sid: Seq<char>,
    day: i32,
    bar_ts: i64,
    has_take_price: bool,
    has_stop_price: bool,
    exit_reason: Option<Seq<char>>,
    signal: Option<(Owner, PositionSide)>,
    size_at_open: u64,
    size_at_close: u64,
)
    requires
        spec_live_bar(
            s,
            f,
            r,
            sid,
            day,
            bar_ts,
            has_take_price,
            has_stop_price,
            exit_reason,
            signal,
            size_at_open,
            size_at_close,
        ),
        s.tracking.entry_intent_inflight,
        s.open_position is None,
        s.current_day == Some(day),
    ensures
        r.entry is None,
        f.tracking.entry_intent_inflight,
{
    let (m, d, m2) = choose|
        m: AlorUsdrubfHybridStrategy,
        d: AlorUsdrubfHybridStrategy,
        m2: AlorUsdrubfHybridStrategy,
    |
        #![trigger spec_bracket_emitted(spec_bar_opened(m, day, bar_ts), d, r.brackets, sid, bar_ts, has_take_price, has_stop_price), spec_live_bar_rest(d, m2, r, bar_ts, exit_reason, signal, size_at_open, size_at_close)]
        {
        &&& if s.current_day != Some(day) {
            spec_day_reset(s, m)
        } else {
            m == s
        }
        &&& spec_bracket_emitted(
            spec_bar_opened(m, day, bar_ts),
            d,
            r.brackets,
            sid,
            bar_ts,
            has_take_price,
            has_stop_price,
        )
        &&& spec_live_bar_rest(
            d,
            m2,
            r,
            bar_ts,
            exit_reason,
            signal,
            size_at_open,
            size_at_close,
        )
        &&& f == (AlorUsdrubfHybridStrategy { persisted: f.persisted, ..m2 })
    };
    assert(m == s);
    let o = spec_bar_opened(m, day, bar_ts);
    assert(o.tracking.entry_intent_inflight);
    assert(d.tracking.entry_intent_inflight);
    assert(d.open_position is None);
    assert(m2 == d);
}

/// With no position open other than a mean-reversion one, a live model bar whose exit is
/// a mean-reversion take or stop sends no market exit: the bracket on the exchange serves
/// it.
#[verifier::spinoff_prover]
pub proof fn lemma_mr_take_and_stop_left_to_bracket(
    s: AlorUsdrubfHybridStrategy,
    f: AlorUsdrubfHybridStrategy,
    r: LiveBarActions,
    sid: Seq<char>,
    day: i32,
    bar_ts: i64,
    has_take_price: bool,
    has_stop_price: bool,
    exit_reason: Option<Seq<char>>,
    signal: Option<(Owner, PositionSide)>,
    size_at_open: u64,
    size_at_close: u64,
)
    requires
        spec_live_bar(
            s,
            f,
            r,
            sid,
            day,
            bar_ts,
            has_take_price,
            has_stop_price,
            exit_reason,
            signal,
            size_at_open,
            size_at_close,
        ),
        is_mr_bracket_reason(exit_reason),
        s.open_position matches Some(p) ==> p.owner == Owner::MeanRev,
    ensures
        r.exit is None,
{
    let (m, d, m2) = choose|
        m: AlorUsdrubfHybridStrategy,
        d: AlorUsdrubfHybridStrategy,
        m2: AlorUsdrubfHybridStrategy,
    |
        #![trigger spec_bracket_emitted(spec_bar_opened(m, day, bar_ts), d, r.brackets, sid, bar_ts, has_take_price, has_stop_price), spec_live_bar_rest(d, m2, r, bar_ts, exit_reason, signal, size_at_open, size_at_close)]
        {
        &&& if s.current_day != Some(day) {
            spec_day_reset(s, m)
        } else {
            m == s
        }
        &&& spec_bracket_emitted(
            spec_bar_opened(m, day, bar_ts),
            d,
            r.brackets,
            sid,
            bar_ts,
            has_take_price,
            has_stop_price,
        )
        &&& spec_live_bar_rest(
            d,
            m2,
            r,
            bar_ts,
            exit_reason,
            signal,
            size_at_open,
            size_at_close,
        )
        &&& f == (AlorUsdrubfHybridStrategy { persisted: f.persisted, ..m2 })
    };
    let o = spec_bar_opened(m, day, bar_ts);
    assert(o.open_position == m.open_position);
    assert(d.open_position == o.open_position);
    assert(d.open_position matches Some(p) ==> p.owner == Owner::MeanRev);
    let reason = exit_reason->0;
    if d.open_position is Some {
        assert(spec_bracket_serves_exit(d, reason));
    } else {
        assert(spec_exit_blocked(d, bar_ts));
    }
}

impl AlorUsdrubfHybridStrategy {
    /// A bar of symbol `bar_symbol` closing at `bar_ts`, in a live run or not: the replay
    /// guard judges it (see `gate_bar`); a bar that proceeds and lies outside the model
    /// session (from `session_start` to `session_end` in zone `timezone_offset_hours`)
    /// only counts as processed; any other goes to the live or the paper model step with
    /// the research model's reading of it: whether the open position has take and stop
    /// levels, its exit reason, its signal and the entry sizes at the bar's open and close.
    /// A live bar first sees to the mean-reversion bracket of strategy `strategy_id`.
    pub fn on_bar(
        &mut self,
        strategy_id: &str,
        bar_symbol: &str,
        bar_ts: i64,
        origin: DataOrigin,
        live_run: bool,
        enable_live_execution: bool,
        now_ts_utc: i64,
        max_silence_bars_sec: u64,
        timezone_offset_hours: i32,
        session_start: TimeOfDay,
        session_end: TimeOfDay,
        has_take_price: bool,
        has_stop_price: bool,
        exit_reason: Option<&str>,
        signal: Option<(Owner, PositionSide)>,
        size_at_open: u64,
        size_at_close: u64,
    ) -> (r: BarOutcome)
        ensures
            (bar_symbol@ != old(self).symbol@ || (old(self).guard.last_processed_bar_ts matches Some(
                t,
            ) && bar_ts <= t)) ==> r is Ignored && *final(self) == *old(self),
            exists|g: AlorUsdrubfHybridStrategy, v: BarVerdict, l: LocalDateTime|
                #![trigger spec_gated(*old(self), g, v, bar_symbol@, live_run, enable_live_execution, now_ts_utc, bar_ts, origin, max_silence_bars_sec), local_of(bar_ts, timezone_offset_hours, l)]
                {
                    &&& spec_gated(
                        *old(self),
                        g,
                        v,
                        bar_symbol@,
                        live_run,
                        enable_live_execution,
                        now_ts_utc,
                        bar_ts,
                        origin,
                        max_silence_bars_sec,
                    )
                    &&& local_of(bar_ts, timezone_offset_hours, l)
                    &&& if v is Ignored {
                        r is Ignored && *final(self) == *old(self)
                    } else if !(v is Proceed) {
                        r == BarOutcome::Guarded(v) && *final(self) == g
                    } else if !in_session(session_start, session_end, l) {
                        r is OutsideSession && spec_suppressed(g, *final(self), bar_ts)
                    } else if live_run {
                        r matches BarOutcome::Live(x) && spec_live_bar(
                            g,
                            *final(self),
                            x,
                            strategy_id@,
                            l.day,
                            bar_ts,
                            has_take_price,
                            has_stop_price,
                            match exit_reason {
                                Some(t) => Some(t@),
                                None => None,
                            },
                            signal,
                            size_at_open,
                            size_at_close,
                        )
                    } else {
                        r matches BarOutcome::Paper(x) && spec_paper_bar(
                            g,
                            *final(self),
                            x,
                            l.day,
                            bar_ts,
                            match exit_reason {
                                Some(t) => Some(t@),
                                None => None,
                            },
                            signal,
                            size_at_open,
                        )
                    }
                },
    {
        let ghost a = *self;
        let v = self.gate_bar(
            bar_symbol,
            live_run,
            enable_live_execution,
            now_ts_utc,
            bar_ts,
            origin,
            max_silence_bars_sec,
        );
        let local = utc_to_local(bar_ts, timezone_offset_hours);
        proof {
            assert(spec_gated(
                a,
                *self,
                v,
                bar_symbol@,
                live_run,
                enable_live_execution,
                now_ts_utc,
                bar_ts,
                origin,
                max_silence_bars_sec,
            ));
            assert(local_of(bar_ts, timezone_offset_hours, local));
        }
        match v {
            BarVerdict::Ignored => {
                return BarOutcome::Ignored;
            },
            BarVerdict::Proceed { .. } => {},
            _ => {
                return BarOutcome::Guarded(v);
            },
        }
        if !is_model_session_bar(session_start, session_end, local) {
            self.suppress_outside_session(bar_ts);
            return BarOutcome::OutsideSession;
        }
        if live_run {
            BarOutcome::Live(
                self.on_live_model_bar(
                    strategy_id,
                    local.day,
                    bar_ts,
                    has_take_price,
                    has_stop_price,
                    exit_reason,
                    signal,
                    size_at_open,
                    size_at_close,
                ),
            )
        } else {
            BarOutcome::Paper(
                self.on_paper_model_bar(local.day, bar_ts, exit_reason, signal, size_at_open),
            )
        }
    }
}

} // verus!
