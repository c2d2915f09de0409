use vstd::prelude::*;

use crate::host::{DataOrigin, LiveGate, PaperExecutionMode, TradeMode};
use crate::hybrid_intraday_runtime::{
    can_emit_now, can_execute_now, lemma_live_orders_need_permission, spec_can_emit, spec_can_execute, spec_entry_submitted,
    spec_exit_submitted, spec_repaired, spec_replay_guarded, spec_tail_cleared,
    stop_end_computable, EntryShape, HybridIntradayRuntimeStrategy, HybridOrder, Owner,
    RepairPlan, Side,
};
use crate::text::str_eq;

verus! {

broadcast use vstd::string::group_string_axioms;

/// What the signal engine asks for on a bar: an entry of an owner on a side with its
/// shape, the exit of an owner's position, or arming the overnight exit (which sends
/// nothing).
#[derive(Debug, Clone, Copy, PartialEq, Eq, Structural)]
pub enum HybridAction {
    SubmitEntry { owner: Owner, side: Side, shape: EntryShape },
    SubmitExit { owner: Owner },
    ArmOvernightExit,
}

/// How a bar starts: ignored (another symbol, not after the last processed bar, or no
/// local time), held back by the startup replay guard (the signal engine only warms up on
/// it), or going on to the signal engine.
#[derive(Debug, Clone, Copy, PartialEq, Eq, Structural)]
pub enum HybridBarStart {
    Ignored,
    ReplayHeld { entry_dropped: bool },
    Proceed,
}

/// `f` is `s` after action `a` of a bar at `ts`, under request `id`, giving order `o`.
pub open spec fn spec_action_applied(
    s: HybridIntradayRuntimeStrategy,
    f: HybridIntradayRuntimeStrategy,
    sid: Seq<char>,
    ts: i64,
    can_emit: bool,
    can_execute: bool,
    position_qty: Option<i64>,
    a: HybridAction,
    id: u128,
    o: Option<HybridOrder>,
) -> bool {
    match a {
        HybridAction::SubmitEntry { owner, side, shape } => spec_entry_submitted(
            s,
            f,
            sid,
            owner,
            side,
            shape,
            ts,
            can_emit,
            can_execute,
            id,
            o,
        ),
        HybridAction::SubmitExit { owner } => spec_exit_submitted(
            s,
            f,
            sid,
            owner,
            ts,
            can_emit,
            can_execute,
            position_qty,
            id,
            o,
        ),
        HybridAction::ArmOvernightExit => o is None && f == s,
    }
}

/// `f` is `s` after the actions `acts` of a bar at `ts`, in order, under requests `ids`,
/// giving the orders `outs` (one per action, `None` where the action sends nothing).
pub open spec fn spec_actions_applied(
    s: HybridIntradayRuntimeStrategy,
    f: HybridIntradayRuntimeStrategy,
    sid: Seq<char>,
    ts: i64,
    can_emit: bool,
    can_execute: bool,
    position_qty: Option<i64>,
    acts: Seq<HybridAction>,
    ids: Seq<u128>,
    outs: Seq<Option<HybridOrder>>,
) -> bool
    decreases acts.len(),
{
    if acts.len() == 0 {
        outs.len() == 0 && f == s
    } else {
        &&& outs.len() == acts.len()
        &&& exists|m: HybridIntradayRuntimeStrategy|
            #![trigger spec_action_applied(m, f, sid, ts, can_emit, can_execute, position_qty, acts.last(), ids[acts.len() - 1], outs.last())]
            {
                &&& spec_actions_applied(
                    s,
                    m,
                    sid,
                    ts,
                    can_emit,
                    can_execute,
                    position_qty,
                    acts.drop_last(),
                    ids,
                    outs.drop_last(),
                )
                &&& spec_action_applied(
                    m,
                    f,
                    sid,
                    ts,
                    can_emit,
                    can_execute,
                    position_qty,
                    acts.last(),
                    ids[acts.len() - 1],
                    outs.last(),
                )
            }
    }
}

/// `s` with the bar at `ts` counted as processed.
pub open spec fn processed_at(s: HybridIntradayRuntimeStrategy, ts: i64) -> HybridIntradayRuntimeStrategy {
    HybridIntradayRuntimeStrategy { last_processed_bar_ts: Some(ts), ..s }
}

/// The broker quantity, zero when unknown.
pub open spec fn qty_or_zero(q: Option<i64>) -> i64 {
    match q {
        Some(v) => v,
        None => 0,
    }
}

/// Whether a bar of symbol `bar_symbol` at `bar_ts` is ignored: another symbol, not after
/// the last processed bar, or no local time.
pub open spec fn spec_bar_ignored(
    s: HybridIntradayRuntimeStrategy,
    bar_symbol: Seq<char>,
    bar_ts: i64,
    has_local_time: bool,
) -> bool {
    ||| bar_symbol != s.config.symbol@
    ||| (s.last_processed_bar_ts matches Some(t) && bar_ts <= t)
    ||| !has_local_time
}

impl HybridIntradayRuntimeStrategy {
    /// The start of a bar of symbol `bar_symbol` closing at `bar_ts`. An ignored bar (see
    /// `spec_bar_ignored`) changes nothing. Otherwise the startup replay guard judges it; a
    /// bar it holds back counts as processed and stale pending requests are collected with
    /// broker quantity `position_qty`; any other goes on to the signal engine, and then to
    /// `finish_bar`.
    pub fn begin_bar(
        &mut self,
        bar_symbol: &str,
        bar_ts: i64,
        has_local_time: bool,
        live_run: bool,
        origin: DataOrigin,
        position_qty: i64,
    ) -> (r: HybridBarStart)
        ensures
            spec_bar_ignored(*old(self), bar_symbol@, bar_ts, has_local_time) ==> r is Ignored
                && *final(self) == *old(self),
            !spec_bar_ignored(*old(self), bar_symbol@, bar_ts, has_local_time) ==> exists|
                g: HybridIntradayRuntimeStrategy,
                held: bool,
            |
                #![trigger spec_replay_guarded(*old(self), g, live_run, origin, bar_ts, held)]
                {
                    &&& spec_replay_guarded(*old(self), g, live_run, origin, bar_ts, held)
                    &&& if held {
                        r matches HybridBarStart::ReplayHeld { entry_dropped } && spec_tail_cleared(
                            processed_at(g, bar_ts),
                            *final(self),
                            bar_ts,
                            position_qty,
                            entry_dropped,
                        )
                    } else {
                        r is Proceed && *final(self) == g
                    }
                },
    {
        let duplicate = match self.last_processed_bar_ts {
            Some(t) => bar_ts <= t,
            None => false,
        };
        if !str_eq(bar_symbol, self.config.symbol.as_str()) || duplicate || !has_local_time {
            return HybridBarStart::Ignored;
        }
        let ghost a = *self;
        let held = self.suppress_startup_replay_bar(live_run, origin, bar_ts);
        let ghost g = *self;
        assert(spec_replay_guarded(a, g, live_run, origin, bar_ts, held));
        if held {
            self.last_processed_bar_ts = Some(bar_ts);
            let entry_dropped = self.clear_stale_pending_tail(bar_ts, position_qty);
            HybridBarStart::ReplayHeld { entry_dropped }
        } else {
            HybridBarStart::Proceed
        }
    }

    /// The rest of a bar at `bar_ts` that went on to the signal engine, with the engine's
    /// actions `actions` and a request id for each: the bar counts as processed, stale
    /// pending requests are collected, the bracket is repaired (see
    /// `maybe_emit_repair_intents`) and then each action is submitted in order; whether an
    /// order may go out is `can_emit_now`, whether it is tracked as sent is `can_execute_now`.
    pub fn finish_bar(
        &mut self,
        strategy_id: &str,
        bar_ts: i64,
        gate: LiveGate,
        paper: PaperExecutionMode,
        is_live_bar: bool,
        position_qty: Option<i64>,
        tp_request_id: u128,
        sl_request_id: u128,
        actions: &Vec<HybridAction>,
        request_ids: &Vec<u128>,
    ) -> (r: (RepairPlan, Vec<Option<HybridOrder>>))
        requires
            stop_end_computable(bar_ts),
            request_ids@.len() == actions@.len(),
        ensures
            exists|m1: HybridIntradayRuntimeStrategy, m2: HybridIntradayRuntimeStrategy, d: bool|
                #![trigger spec_tail_cleared(processed_at(*old(self), bar_ts), m1, bar_ts, qty_or_zero(position_qty), d), spec_repaired(m1, m2, gate, paper, qty_or_zero(position_qty), bar_ts, tp_request_id, sl_request_id, r.0)]
                {
                    let q = qty_or_zero(position_qty);
                    &&& spec_tail_cleared(
                        processed_at(*old(self), bar_ts),
                        m1,
                        bar_ts,
                        q,
                        d,
                    )
                    &&& spec_repaired(m1, m2, gate, paper, q, bar_ts, tp_request_id, sl_request_id, r.0)
                    &&& spec_actions_applied(
                        m2,
                        *final(self),
                        strategy_id@,
                        bar_ts,
                        spec_can_emit(gate, paper, is_live_bar),
                        spec_can_execute(gate, paper, is_live_bar),
                        position_qty,
                        actions@,
                        request_ids@,
                        r.1@,
                    )
                },
    {
        let q: i64 = match position_qty {
            Some(v) => v,
            None => 0,
        };
        let ghost s0 = *self;
        self.last_processed_bar_ts = Some(bar_ts);
        assert(*self == processed_at(s0, bar_ts));
        let d = self.clear_stale_pending_tail(bar_ts, q);
        let ghost m1 = *self;
        let can_emit = can_emit_now(gate, paper, is_live_bar);
        let can_execute = can_execute_now(gate, paper, is_live_bar);
        let plan = self.repair_for_bar(gate, paper, q, bar_ts, tp_request_id, sl_request_id);
        let ghost m2 = *self;
        assert(q == qty_or_zero(position_qty));
        assert(spec_tail_cleared(processed_at(s0, bar_ts), m1, bar_ts, qty_or_zero(position_qty), d));
        assert(spec_repaired(m1, m2, gate, paper, qty_or_zero(position_qty), bar_ts, tp_request_id, sl_request_id, plan));
        let outs = self.apply_actions(strategy_id, bar_ts, can_emit, can_execute, position_qty, actions, request_ids);
        let r = (plan, outs);
        assert(spec_repaired(m1, m2, gate, paper, qty_or_zero(position_qty), bar_ts, tp_request_id, sl_request_id, r.0));
        assert(spec_actions_applied(
            m2,
            *self,
            strategy_id@,
            bar_ts,
            spec_can_emit(gate, paper, is_live_bar),
            spec_can_execute(gate, paper, is_live_bar),
            position_qty,
            actions@,
            request_ids@,
            r.1@,
        ));
        r
    }

    /// One repair round for a bar (see `maybe_emit_repair_intents`).
    fn repair_for_bar(
        &mut self,
        gate: LiveGate,
        paper: PaperExecutionMode,
        q: i64,
        bar_ts: i64,
        tp_request_id: u128,
        sl_request_id: u128,
    ) -> (plan: RepairPlan)
        requires
            stop_end_computable(bar_ts),
        ensures
            spec_repaired(*old(self), *final(self), gate, paper, q, bar_ts, tp_request_id, sl_request_id, plan),
    {
        self.maybe_emit_repair_intents(gate, paper, q, bar_ts, tp_request_id, sl_request_id)
    }

    /// Submits the actions of a bar in order (see `spec_actions_applied`).
    fn apply_actions(
        &mut self,
        strategy_id: &str,
        bar_ts: i64,
        can_emit: bool,
        can_execute: bool,
        position_qty: Option<i64>,
        actions: &Vec<HybridAction>,
        request_ids: &Vec<u128>,
    ) -> (outs: Vec<Option<HybridOrder>>)
        requires
            request_ids@.len() == actions@.len(),
        ensures
            spec_actions_applied(
                *old(self),
                *final(self),
                strategy_id@,
                bar_ts,
                can_emit,
                can_execute,
                position_qty,
                actions@,
                request_ids@,
                outs@,
            ),
    {
        let ghost s0 = *self;
        let mut outs: Vec<Option<HybridOrder>> = Vec::new();
        let mut i: usize = 0;
        while i < actions.len()
            invariant
                i <= actions@.len(),
                request_ids@.len() == actions@.len(),
                spec_actions_applied(
                    s0,
                    *self,
                    strategy_id@,
                    bar_ts,
                    can_emit,
                    can_execute,
                    position_qty,
                    actions@.take(i as int),
                    request_ids@,
                    outs@,
                ),
            decreases actions@.len() - i,
        {
            let ghost m = *self;
            let ghost prev = outs@;
            let a = actions[i];
            let id = request_ids[i];
            let o = match a {
                HybridAction::SubmitEntry { owner, side, shape } => self.submit_entry(
                    strategy_id,
                    owner,
                    side,
                    shape,
                    bar_ts,
                    can_emit,
                    can_execute,
                    id,
                ),
                HybridAction::SubmitExit { owner } => self.submit_exit(
                    strategy_id,
                    owner,
                    bar_ts,
                    can_emit,
                    can_execute,
                    position_qty,
                    id,
                ),
                HybridAction::ArmOvernightExit => None,
            };
            outs.push(o);
            proof {
                let t = actions@.take(i + 1);
                assert(t.drop_last() =~= actions@.take(i as int));
                assert(t.last() == a);
                assert(outs@.drop_last() =~= prev);
                assert(spec_action_applied(
                    m,
                    *self,
                    strategy_id@,
                    bar_ts,
                    can_emit,
                    can_execute,
                    position_qty,
                    t.last(),
                    request_ids@[t.len() - 1],
                    outs@.last(),
                ));
            }
            i = i + 1;
        }
        proof {
            assert(actions@.take(actions@.len() as int) =~= actions@);
        }
        outs
    }
}

/// Actions submitted while no order may be emitted send nothing and change nothing: each
/// action gives no order and the strategy is left as it was.
pub proof fn lemma_withheld_actions_send_nothing(
    s: HybridIntradayRuntimeStrategy,
    f: HybridIntradayRuntimeStrategy,
    sid: Seq<char>,
    ts: i64,
    can_execute: bool,
    position_qty: Option<i64>,
    acts: Seq<HybridAction>,
    ids: Seq<u128>,
    outs: Seq<Option<HybridOrder>>,
)
    requires
        spec_actions_applied(s, f, sid, ts, false, can_execute, position_qty, acts, ids, outs),
    ensures
        f == s,
        outs.len() == acts.len(),
        forall|i: int| 0 <= i < outs.len() ==> outs[i] is None,
    decreases acts.len(),
{
    if acts.len() > 0 {
        let m = choose|m: HybridIntradayRuntimeStrategy|
            #![trigger spec_action_applied(m, f, sid, ts, false, can_execute, position_qty, acts.last(), ids[acts.len() - 1], outs.last())]
            {
                &&& spec_actions_applied(
                    s,
                    m,
                    sid,
                    ts,
                    false,
                    can_execute,
                    position_qty,
                    acts.drop_last(),
                    ids,
                    outs.drop_last(),
                )
                &&& spec_action_applied(
                    m,
                    f,
                    sid,
                    ts,
                    false,
                    can_execute,
                    position_qty,
                    acts.last(),
                    ids[acts.len() - 1],
                    outs.last(),
                )
            };
        lemma_withheld_actions_send_nothing(
            s,
            m,
            sid,
            ts,
            can_execute,
            position_qty,
            acts.drop_last(),
            ids,
            outs.drop_last(),
        );
        assert forall|i: int| 0 <= i < outs.len() implies outs[i] is None by {
            if i < outs.len() - 1 {
                assert(outs[i] == outs.drop_last()[i]);
            }
        }
    }
}

/// In a live run without permission for live orders, the actions of a bar (see
/// `finish_bar`) send no order and leave the strategy as the bracket repair left it,
/// whatever the actions, the bar and the gateway.
pub proof fn lemma_no_live_orders_without_permission(
    gate: LiveGate,
    paper: PaperExecutionMode,
    is_live_bar: bool,
    s: HybridIntradayRuntimeStrategy,
    f: HybridIntradayRuntimeStrategy,
    sid: Seq<char>,
    ts: i64,
    position_qty: Option<i64>,
    acts: Seq<HybridAction>,
    ids: Seq<u128>,
    outs: Seq<Option<HybridOrder>>,
)
    requires
        gate.trade_mode == TradeMode::Live,
        !gate.allow_live_orders,
        spec_actions_applied(
            s,
            f,
            sid,
            ts,
            spec_can_emit(gate, paper, is_live_bar),
            spec_can_execute(gate, paper, is_live_bar),
            position_qty,
            acts,
            ids,
            outs,
        ),
    ensures
        f == s,
        forall|i: int| 0 <= i < outs.len() ==> outs[i] is None,
{
    lemma_live_orders_need_permission(gate, paper, is_live_bar);
    lemma_withheld_actions_send_nothing(
        s,
        f,
        sid,
        ts,
        spec_can_execute(gate, paper, is_live_bar),
        position_qty,
        acts,
        ids,
        outs,
    );
}

} // verus!
