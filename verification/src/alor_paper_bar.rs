use vstd::prelude::*;

use crate::alor_usdrubf_hybrid::{
    spec_day_reset, spec_entry_side, spec_exit_side, spec_owner_word, spec_persisted,
    spec_signal_taken, AlorUsdrubfHybridStrategy, BarGuard, ExitTracking, HybridState,
    OpenHolding, OrderTracking, Owner, PositionSide,
};
use crate::host::OrderSide;
use crate::text::concat_str;

verus! {

broadcast use vstd::string::group_string_axioms;

/// A fill that a paper run books on a bar: its side, its lots and its comment. The fill
/// price is the bar's, which the price model knows.
#[derive(Debug, Clone)]
pub struct PaperFill {
    pub side: OrderSide,
    pub qty: u64,
    pub comment: String,
}

/// What a paper model bar did: the pending entry filled at the open, the position closed,
/// and whether a new signal became the pending entry.
#[derive(Debug, Clone)]
pub struct PaperBarActions {
    pub entry: Option<PaperFill>,
    pub exit: Option<PaperFill>,
    pub signal_accepted: bool,
}

/// The order tracking once a fill settled the position: nothing in flight, no bracket,
/// and the state `hs`.
pub open spec fn spec_settled(t: OrderTracking, f: OrderTracking, hs: HybridState) -> bool {
    &&& f.protection.pending_tp_bar_ts_utc is None
    &&& f.protection.pending_sl_bar_ts_utc is None
    &&& f.protection.tp_order_id is None
    &&& f.protection.sl_stop_order_id is None
    &&& f.protection.sl_exchange_order_id is None
    &&& f == (OrderTracking {
        entry_intent_inflight: false,
        exit: ExitTracking { exit_intent_inflight: false, ..t.exit },
        protection: f.protection,
        hybrid_state: hs,
        ..t
    })
}

/// The pending entry of `s` filled at the bar's open with `size` lots: it becomes the open
/// position; with none pending nothing happens.
pub open spec fn spec_paper_filled(
    s: AlorUsdrubfHybridStrategy,
    f: AlorUsdrubfHybridStrategy,
    r: Option<PaperFill>,
    size: u64,
) -> bool {
    match s.pending_entry {
        Some(p) => {
            &&& r matches Some(x) && x.side == spec_entry_side(p.side) && x.qty == size
                && x.comment@ == s.symbol@ + "|entry|"@ + spec_owner_word(p.owner)
            &&& spec_settled(s.tracking, f.tracking, HybridState::Open)
            &&& f == (AlorUsdrubfHybridStrategy {
                pending_entry: None,
                open_position: Some(OpenHolding { owner: p.owner, side: p.side, size }),
                tracking: f.tracking,
                ..s
            })
        },
        None => r is None && f == s,
    }
}

/// The open position of `s` closed for `reason`; with none open nothing happens.
pub open spec fn spec_paper_exited(
    s: AlorUsdrubfHybridStrategy,
    f: AlorUsdrubfHybridStrategy,
    r: Option<PaperFill>,
    reason: Seq<char>,
) -> bool {
    match s.open_position {
        Some(pos) => {
            &&& r matches Some(x) && x.side == spec_exit_side(pos.side) && x.qty == pos.size
                && x.comment@ == s.symbol@ + "|exit|"@ + reason
            &&& spec_settled(s.tracking, f.tracking, HybridState::Flat)
            &&& f == (AlorUsdrubfHybridStrategy { open_position: None, tracking: f.tracking, ..s })
        },
        None => r is None && f == s,
    }
}

/// The strategy at the start of a paper model bar of day `day` at `bar_ts`: the session
/// is `day` and the bar counts as processed.
pub open spec fn spec_paper_opened(s: AlorUsdrubfHybridStrategy, day: i32, bar_ts: i64) -> AlorUsdrubfHybridStrategy {
    AlorUsdrubfHybridStrategy {
        current_day: Some(day),
        guard: BarGuard { last_processed_bar_ts: Some(bar_ts), ..s.guard },
        ..s
    }
}

/// The rest of a paper model bar from the opened strategy `d` (`exit` and `signal` are
/// the price model's): the pending entry fills at the open with `fill_size` lots; then an
/// exit closes the position, or, with nothing open or pending, a signal becomes the
/// pending entry.
pub open spec fn spec_paper_bar_rest(
    d: AlorUsdrubfHybridStrategy,
    f: AlorUsdrubfHybridStrategy,
    r: PaperBarActions,
    exit: Option<Seq<char>>,
    signal: Option<(Owner, PositionSide)>,
    fill_size: u64,
) -> bool {
    exists|f1: AlorUsdrubfHybridStrategy| {
        &&& spec_paper_filled(d, f1, r.entry, fill_size)
        &&& match exit {
            Some(reason) => !r.signal_accepted && spec_paper_exited(f1, f, r.exit, reason),
            None => {
                &&& r.exit is None
                &&& if f1.open_position is None && f1.pending_entry is None && signal is Some {
                    let (o, sd) = signal->0;
                    r.signal_accepted && f == spec_signal_taken(f1, o, sd)
                } else {
                    !r.signal_accepted && f == f1
                }
            },
        }
    }
}

/// `f` is `s` after a paper model bar of local day `day` at `bar_ts` with actions `r`:
/// a new day first resets the strategy, the bar opens (`spec_paper_opened`), the rest is
/// `spec_paper_bar_rest`, and the state is synchronized.
pub open spec fn spec_paper_bar(
    s: AlorUsdrubfHybridStrategy,
    f: AlorUsdrubfHybridStrategy,
    r: PaperBarActions,
    day: i32,
    bar_ts: i64,
    exit: Option<Seq<char>>,
    signal: Option<(Owner, PositionSide)>,
    fill_size: u64,
) -> bool {
    &&& exists|m: AlorUsdrubfHybridStrategy, m2: AlorUsdrubfHybridStrategy| {
        &&& if s.current_day != Some(day) {
            spec_day_reset(s, m)
        } else {
            m == s
        }
        &&& spec_paper_bar_rest(spec_paper_opened(m, day, bar_ts), m2, r, exit, signal, fill_size)
        &&& f == (AlorUsdrubfHybridStrategy { persisted: f.persisted, ..m2 })
    }
    &&& spec_persisted(f, f.persisted)
}

impl AlorUsdrubfHybridStrategy {
    /// Fills the pending entry at the bar's open with `size` lots (see `spec_paper_filled`).
    fn fill_pending_entry(&mut self, size: u64) -> (r: Option<PaperFill>)
        ensures
            spec_paper_filled(*old(self), *final(self), r, size),
    {
        let p = match self.pending_entry {
            Some(p) => p,
            None => return None,
        };
        let c1 = concat_str(self.symbol.as_str(), "|entry|");
        let comment = concat_str(c1.as_str(), p.owner.as_str());
        self.open_position = Some(OpenHolding { owner: p.owner, side: p.side, size });
        self.pending_entry = None;
        self.tracking.entry_intent_inflight = false;
        self.tracking.exit.exit_intent_inflight = false;
        self.tracking.protection.clear();
        self.tracking.hybrid_state = HybridState::Open;
        Some(PaperFill { side: p.side.entry_side(), qty: size, comment })
    }

    /// Closes the open position for `reason` (see `spec_paper_exited`).
    fn close_paper_position(&mut self, reason: &str) -> (r: Option<PaperFill>)
        ensures
            spec_paper_exited(*old(self), *final(self), r, reason@),
    {
        let pos = match self.open_position {
            Some(p) => p,
            None => return None,
        };
        let c1 = concat_str(self.symbol.as_str(), "|exit|");
        let comment = concat_str(c1.as_str(), reason);
        self.open_position = None;
        self.tracking.entry_intent_inflight = false;
        self.tracking.exit.exit_intent_inflight = false;
        self.tracking.protection.clear();
        self.tracking.hybrid_state = HybridState::Flat;
        Some(PaperFill { side: pos.side.exit_side(), qty: pos.size, comment })
    }

    /// The decisions of a paper model bar, before the state is synchronized.
    #[verifier::spinoff_prover]
    #[verifier::rlimit(50)]
    fn paper_model_bar_step(
        &mut self,
        day: i32,
        bar_ts: i64,
        exit: Option<&str>,
        signal: Option<(Owner, PositionSide)>,
        fill_size: u64,
    ) -> (r: PaperBarActions)
        ensures
            exists|m: AlorUsdrubfHybridStrategy| {
                &&& if old(self).current_day != Some(day) {
                    spec_day_reset(*old(self), m)
                } else {
                    m == *old(self)
                }
                &&& spec_paper_bar_rest(
                    spec_paper_opened(m, day, bar_ts),
                    *final(self),
                    r,
                    match exit {
                        Some(t) => Some(t@),
                        None => None,
                    },
                    signal,
                    fill_size,
                )
            },
    {
        if self.current_day != Some(day) {
            self.reset_day();
        }
        let ghost m = *self;
        self.current_day = Some(day);
        self.guard.last_processed_bar_ts = Some(bar_ts);
        assert(*self == spec_paper_opened(m, day, bar_ts));
        let ghost d = *self;
        let entry = self.fill_pending_entry(fill_size);
        let ghost f1 = *self;
        assert(spec_paper_filled(d, f1, entry, fill_size));
        match exit {
            Some(reason) => {
                let closed = self.close_paper_position(reason);
                return PaperBarActions { entry, exit: closed, signal_accepted: false };
            },
            None => {},
        }
        let mut signal_accepted = false;
        if self.open_position.is_none() && self.pending_entry.is_none() {
            match signal {
                Some((owner, side)) => {
                    if owner == Owner::Breakout {
                        if side == PositionSide::Long {
                            self.bo_was_long_today = true;
                        } else {
                            self.bo_was_short_today = true;
                        }
                    }
                    self.pending_entry = Some(
                        crate::alor_usdrubf_hybrid::PendingHolding {
                            owner,
                            side,
                            target_qty: self.live_target_qty,
                            partial_started_ms: None,
                        },
                    );
                    self.tracking.hybrid_state = HybridState::Pending;
                    signal_accepted = true;
                },
                None => {},
            }
        }
        PaperBarActions { entry, exit: None, signal_accepted }
    }

    /// A paper bar of local day `day` at `bar_ts` that the replay guard let through and
    /// that lies in the model session. A new day first resets the strategy (see
    /// `reset_day`); the bar counts as processed. The research model, which works on
    /// prices, hands in its exit reason, its signal and the lots of a fill at the bar's
    /// open; the decisions are in `spec_paper_bar_rest`.
    pub fn on_paper_model_bar(
        &mut self,
        day: i32,
        bar_ts: i64,
        exit: Option<&str>,
        signal: Option<(Owner, PositionSide)>,
        fill_size: u64,
    ) -> (r: PaperBarActions)
        ensures
            spec_paper_bar(
                *old(self),
                *final(self),
                r,
                day,
                bar_ts,
                match exit {
                    Some(t) => Some(t@),
                    None => None,
                },
                signal,
                fill_size,
            ),
            spec_persisted(*final(self), final(self).persisted),
    {
        let r = self.paper_model_bar_step(day, bar_ts, exit, signal, fill_size);
        let ghost m2 = *self;
        self.sync_state();
        assert(*self == (AlorUsdrubfHybridStrategy { persisted: self.persisted, ..m2 }));
        r
    }
}

} // verus!
