use vstd::prelude::*;

use crate::clock::{datetime_text, tod_lt, LocalDateTime, TimeOfDay, TIMESTAMP_LIMIT};
use crate::host::{DataOrigin, OrderSide};
use crate::moex_author41_42::spec_is_model_bar;
use crate::ri_author41_42_live::{
    instant_ok, instant_text, spec_observed, journal_views, keep_last, keeps_feed, opt_view, prospective_settled,
    spec_blocks_fresh_entries, spec_operational_break, spec_candidate, spec_component_word, spec_entry_side,
    spec_exit_side, spec_journal, works_decision, DecisionView, RiAuthor4142CandidateRole,
    RiAuthor4142Component, RiAuthor4142DecisionAction, RiAuthor4142JournalDecision,
    RiAuthor4142LiveConfig, RiAuthor4142LiveStrategy, RiAuthor4142Side, RiMarketOrder,
    JOURNAL_CAPACITY,
};
use crate::text::concat_str;

verus! {

broadcast use vstd::string::group_string_axioms;

/// A live model position of one component: its side, the bar it entered on and the key of
/// the decision that opened it. Its prices stay with the price model.
#[derive(Debug, Clone, PartialEq, Eq)]
pub struct RiLiveModelPosition {
    pub side: RiAuthor4142Side,
    pub entry_ts_local: LocalDateTime,
    pub decision_key: String,
}

/// A breakout order that the model scheduled for the next bar's open.
#[derive(Debug, Clone, PartialEq, Eq)]
pub enum RiBoPending {
    Entry(RiAuthor4142Side),
    Exit(String),
}

/// The live adapter's book of its own model positions: the mean-reversion day, entries
/// and position, and the breakout day, position, scheduled order and the sides it already
/// traded that day.
#[derive(Debug, Clone, PartialEq, Eq)]
pub struct RiLiveBook {
    pub mr_day: Option<i32>,
    pub mr_entries_today: u32,
    pub mr_position: Option<RiLiveModelPosition>,
    pub bo_day: Option<i32>,
    pub bo_position: Option<RiLiveModelPosition>,
    pub bo_pending: Option<RiBoPending>,
    pub bo_was_long_today: bool,
    pub bo_was_short_today: bool,
}

/// The book a strategy starts with: nothing held, no day seen.
pub open spec fn empty_book(k: RiLiveBook) -> bool {
    &&& k.mr_day is None
    &&& k.mr_entries_today == 0
    &&& k.mr_position is None
    &&& k.bo_day is None
    &&& k.bo_position is None
    &&& k.bo_pending is None
    &&& !k.bo_was_long_today
    &&& !k.bo_was_short_today
}

impl RiLiveBook {
    /// An empty book.
    pub fn new() -> (k: Self)
        ensures
            empty_book(k),
    {
        RiLiveBook {
            mr_day: None,
            mr_entries_today: 0,
            mr_position: None,
            bo_day: None,
            bo_position: None,
            bo_pending: None,
            bo_was_long_today: false,
            bo_was_short_today: false,
        }
    }

    /// The positions of the book entered at instants that chrono can write.
    pub open spec fn wf(self) -> bool {
        &&& (self.mr_position matches Some(p) ==> instant_ok(p.entry_ts_local))
        &&& (self.bo_position matches Some(p) ==> instant_ok(p.entry_ts_local))
    }
}

/// The debug text of a position side.
pub open spec fn side_debug(s: RiAuthor4142Side) -> Seq<char> {
    match s {
        RiAuthor4142Side::Long => "Long"@,
        RiAuthor4142Side::Short => "Short"@,
    }
}

/// The key of a decision that the live adapter takes on its own model: profile,
/// component, bar, side and `live_prospective`, joined by `|`.
pub open spec fn live_key(
    profile_id: Seq<char>,
    component: RiAuthor4142Component,
    bar: LocalDateTime,
    side: RiAuthor4142Side,
) -> Seq<char> {
    profile_id + "|"@ + spec_component_word(component) + "|"@ + instant_text(bar) + "|Some("@
        + side_debug(side) + ")|live_prospective"@
}

/// The route of an order: the configured order symbol where it differs from the
/// strategy's symbol.
pub open spec fn order_route(c: RiAuthor4142LiveConfig) -> Option<Seq<char>> {
    match opt_view(c.order_symbol) {
        Some(s) => if s != c.symbol@ {
            Some(s)
        } else {
            None
        },
        None => None,
    }
}

/// How the adapter journals the candidates it handles.
pub open spec fn adapter_word(c: RiAuthor4142LiveConfig) -> RiAuthor4142JournalDecision {
    if c.spec_runs_prospective_adapter() {
        RiAuthor4142JournalDecision::ProspectiveIntentSuppressed
    } else {
        RiAuthor4142JournalDecision::IntentEmitted
    }
}

/// `b` is `a` after it sent `o` for decision `d` as a candidate of `role` on order side
/// `side` at bar `ts`: the candidate is journaled, the decision becomes the position
/// worked, and nothing else of the strategy but its state and journal changed.
pub open spec fn sent(
    a: RiAuthor4142LiveStrategy,
    b: RiAuthor4142LiveStrategy,
    o: RiMarketOrder,
    d: DecisionView,
    role: RiAuthor4142CandidateRole,
    side: OrderSide,
    ts: LocalDateTime,
) -> bool {
    let c = spec_candidate(a.config.profile_id@, d, role, side, ts);
    &&& journal_views(b.journal_records@) == keep_last(
        journal_views(a.journal_records@).push(spec_journal(d, adapter_word(a.config), Some(c), None)),
        JOURNAL_CAPACITY as nat,
    )
    &&& o.side == side
    &&& o.comment@ == c.comment
    &&& o.intent_class == c.intent_class
    &&& opt_view(o.symbol) == order_route(a.config)
    &&& works_decision(b.state, d)
    &&& keeps_feed(a.state, b.state)
    &&& b == (RiAuthor4142LiveStrategy { state: b.state, journal_records: b.journal_records, ..a })
}

/// The decision by which the adapter enters `side` of `component` on bar `ts`.
pub open spec fn entry_decision(
    component: RiAuthor4142Component,
    side: RiAuthor4142Side,
    ts: LocalDateTime,
    reason: Seq<char>,
    key: Seq<char>,
) -> DecisionView {
    DecisionView {
        action: RiAuthor4142DecisionAction::Enter,
        component,
        side: Some(side),
        model_signal_ts_local: ts,
        scheduled_entry_ts_local: Some(ts),
        scheduled_exit_ts_local: None,
        reason,
        overlap_decision: "Accepted"@,
        decision_key: key,
    }
}

/// The decision by which the adapter leaves position `p` of `component` on bar `ts`.
pub open spec fn exit_decision(
    component: RiAuthor4142Component,
    p: RiLiveModelPosition,
    ts: LocalDateTime,
    reason: Seq<char>,
) -> DecisionView {
    DecisionView {
        action: RiAuthor4142DecisionAction::Enter,
        component,
        side: Some(p.side),
        model_signal_ts_local: p.entry_ts_local,
        scheduled_entry_ts_local: Some(p.entry_ts_local),
        scheduled_exit_ts_local: Some(ts),
        reason,
        overlap_decision: "Accepted"@,
        decision_key: p.decision_key@,
    }
}

/// `b` is `a` after sending the entry of `side` of `component` on bar `ts` under key
/// `key`: a pending live entry recorded with `transition`, no request pending yet.
pub open spec fn sent_entry(
    a: RiAuthor4142LiveStrategy,
    b: RiAuthor4142LiveStrategy,
    o: RiMarketOrder,
    component: RiAuthor4142Component,
    side: RiAuthor4142Side,
    ts: LocalDateTime,
    reason: Seq<char>,
    transition: Seq<char>,
    key: Seq<char>,
) -> bool {
    &&& sent(
        a,
        b,
        o,
        entry_decision(component, side, ts, reason, key),
        RiAuthor4142CandidateRole::Entry,
        spec_entry_side(side),
        ts,
    )
    &&& b.state.phase@ == "live_pending_entry"@
    &&& opt_view(b.state.last_transition_reason) == Some(transition)
    &&& b.state.pending_entry_request_id is None
    &&& b.state.pending_exit_request_id is None
}

/// `b` is `a` after sending the exit of position `p` of `component` on bar `ts`: a
/// pending live exit recorded with `transition`, `:` and `reason`; the pending entry
/// request is kept.
pub open spec fn sent_exit(
    a: RiAuthor4142LiveStrategy,
    b: RiAuthor4142LiveStrategy,
    o: RiMarketOrder,
    component: RiAuthor4142Component,
    p: RiLiveModelPosition,
    ts: LocalDateTime,
    reason: Seq<char>,
    transition: Seq<char>,
) -> bool {
    &&& sent(
        a,
        b,
        o,
        exit_decision(component, p, ts, reason),
        RiAuthor4142CandidateRole::Exit,
        spec_exit_side(p.side),
        ts,
    )
    &&& b.state.phase@ == "live_pending_exit"@
    &&& opt_view(b.state.last_transition_reason) == Some(transition + ":"@ + reason)
    &&& b.state.pending_entry_request_id == a.state.pending_entry_request_id
    &&& b.state.pending_exit_request_id is None
}

/// Whether the adapter waits on an order in flight in phase `phase`.
pub open spec fn awaits_order(phase: Seq<char>) -> bool {
    phase == "live_pending_entry"@ || phase == "live_pending_exit"@
}

/// The mean-reversion book on bar day `day`: a new day clears the day's entries and, when
/// the strategy is flat, the position.
pub open spec fn mr_rolled(k: RiLiveBook, day: i32, flat: bool) -> RiLiveBook {
    if k.mr_day != Some(day) {
        RiLiveBook {
            mr_day: Some(day),
            mr_entries_today: 0,
            mr_position: if flat {
                None
            } else {
                k.mr_position
            },
            ..k
        }
    } else {
        k
    }
}

/// One bar of the mean-reversion model on the live adapter, from strategy `a` and book
/// `ka` to `b` and `kb`, with the order `o` it sends. The price model reports the exit
/// that fires for the held position (`exit`) and the entry signal of the bar (`entry`).
/// - While an order is in flight, or a phase blocks fresh entries, nothing happens; in a
///   deferred exit the held position's exit is sent again.
/// - Otherwise, after the day roll, a held position is left when its exit fires; else a
///   signal opens a position, at most two a day and none beside a breakout position.
pub open spec fn mr_stepped(
    a: RiAuthor4142LiveStrategy,
    b: RiAuthor4142LiveStrategy,
    ka: RiLiveBook,
    kb: RiLiveBook,
    bar: LocalDateTime,
    exit: Option<Seq<char>>,
    entry: Option<RiAuthor4142Side>,
    o: Option<RiMarketOrder>,
) -> bool {
    let ph = a.state.phase@;
    let mr = RiAuthor4142Component::Author41Mr;
    if awaits_order(ph) || spec_blocks_fresh_entries(ph) {
        o is None && b == a && kb == ka
    } else if ph == "live_deferred_exit"@ {
        &&& kb == ka
        &&& match ka.mr_position {
            Some(p) => o matches Some(x) && sent_exit(
                a,
                b,
                x,
                mr,
                p,
                bar,
                "deferred_exit_reissue"@,
                "live_deferred_exit_reissued"@,
            ),
            None => o is None && b == a,
        }
    } else {
        let k1 = mr_rolled(ka, bar.day, ph == "flat"@);
        match k1.mr_position {
            Some(p) => {
                &&& kb == k1
                &&& match exit {
                    Some(r) => o matches Some(x) && sent_exit(a, b, x, mr, p, bar, r, "live_exit_emitted"@),
                    None => o is None && b == a,
                }
            },
            None => match entry {
                Some(side) => if k1.mr_entries_today < 2 && ka.bo_position is None {
                    let key = live_key(a.config.profile_id@, mr, bar, side);
                    &&& o matches Some(x) && sent_entry(
                        a,
                        b,
                        x,
                        mr,
                        side,
                        bar,
                        "live_entry"@,
                        "live_entry_emitted"@,
                        key,
                    )
                    &&& kb.mr_position matches Some(q) && q.side == side && q.entry_ts_local == bar
                        && q.decision_key@ == key
                    &&& kb == (RiLiveBook {
                        mr_entries_today: (k1.mr_entries_today + 1) as u32,
                        mr_position: kb.mr_position,
                        ..k1
                    })
                } else {
                    o is None && b == a && kb == k1
                },
                None => o is None && b == a && kb == k1,
            },
        }
    }
}

/// The breakout book on bar day `day`: a new day starts an empty breakout session.
pub open spec fn bo_rolled(k: RiLiveBook, day: i32) -> RiLiveBook {
    if k.bo_day != Some(day) {
        RiLiveBook {
            bo_day: Some(day),
            bo_position: None,
            bo_pending: None,
            bo_was_long_today: false,
            bo_was_short_today: false,
            ..k
        }
    } else {
        k
    }
}

/// Whether bar `bar` is at or after the breakout exit time `exit_time`.
pub open spec fn at_or_after(bar: LocalDateTime, exit_time: TimeOfDay) -> bool {
    !tod_lt(TimeOfDay { secs: bar.secs, frac: 0 }, exit_time)
}

/// The scheduled breakout entry taken up on bar `bar`: with no position of either model it
/// is sent and opens the position, which records its side as traded today; otherwise it
/// lapses. Any scheduled order is consumed.
pub open spec fn bo_opened(
    a: RiAuthor4142LiveStrategy,
    b: RiAuthor4142LiveStrategy,
    ka: RiLiveBook,
    kb: RiLiveBook,
    bar: LocalDateTime,
    o: Seq<RiMarketOrder>,
) -> bool {
    let bo = RiAuthor4142Component::Author42Bo;
    let lapsed = o.len() == 0 && b == a && kb == (RiLiveBook { bo_pending: None, ..ka });
    match ka.bo_pending {
        Some(RiBoPending::Entry(side)) => if ka.mr_position is None && ka.bo_position is None {
            let key = live_key(a.config.profile_id@, bo, bar, side);
            &&& o.len() == 1
            &&& sent_entry(a, b, o[0], bo, side, bar, "live_entry_next_bar"@, "live_bo_entry_emitted"@, key)
            &&& kb.bo_position matches Some(q) && q.side == side && q.entry_ts_local == bar
                && q.decision_key@ == key
            &&& kb == (RiLiveBook {
                bo_pending: None,
                bo_position: kb.bo_position,
                bo_was_long_today: ka.bo_was_long_today || side == RiAuthor4142Side::Long,
                bo_was_short_today: ka.bo_was_short_today || side == RiAuthor4142Side::Short,
                ..ka
            })
        } else {
            lapsed
        },
        _ => lapsed,
    }
}

/// The held breakout position judged on bar `bar`: at or after the exit time it is left
/// at the bar's close; before, a stop the model reports (`stop`) schedules its exit for the
/// next open. With neither model holding a position and nothing scheduled, an entry the
/// model signals before the exit time is scheduled for the next open.
pub open spec fn bo_held(
    a: RiAuthor4142LiveStrategy,
    b: RiAuthor4142LiveStrategy,
    ka: RiLiveBook,
    kb: RiLiveBook,
    bar: LocalDateTime,
    late: bool,
    stop: Option<Seq<char>>,
    entry: Option<RiAuthor4142Side>,
    o: Seq<RiMarketOrder>,
) -> bool {
    let bo = RiAuthor4142Component::Author42Bo;
    match ka.bo_position {
        Some(p) => if late {
            &&& o.len() == 1
            &&& sent_exit(a, b, o[0], bo, p, bar, "time_exit_same_bar_close"@, "live_bo_exit_emitted"@)
            &&& kb == ka
        } else {
            &&& o.len() == 0
            &&& b == a
            &&& match stop {
                Some(r) => kb.bo_pending matches Some(RiBoPending::Exit(t)) && t@ == r && kb == (
                RiLiveBook { bo_pending: kb.bo_pending, ..ka }),
                None => kb == ka,
            }
        },
        None => {
            &&& o.len() == 0
            &&& b == a
            &&& match entry {
                Some(side) => if ka.bo_pending is None && ka.mr_position is None && !late {
                    kb == (RiLiveBook { bo_pending: Some(RiBoPending::Entry(side)), ..ka })
                } else {
                    kb == ka
                },
                None => kb == ka,
            }
        },
    }
}

/// One bar of the breakout model on the live adapter, from strategy `a` and book `ka` to
/// `b` and `kb`, with the orders `o` it sends. The price model reports a stop of the held
/// position (`stop`) and a breakout entry signal (`entry`).
/// - While an order is in flight, or a phase blocks fresh entries, nothing happens; in a
///   deferred exit the held position's exit is sent again.
/// - Otherwise, after the day roll, a scheduled exit of the held position is sent at the
///   open and ends the bar; else the scheduled entry is taken up (`bo_opened`) and the
///   position judged (`bo_held`).
pub open spec fn bo_stepped(
    a: RiAuthor4142LiveStrategy,
    b: RiAuthor4142LiveStrategy,
    ka: RiLiveBook,
    kb: RiLiveBook,
    bar: LocalDateTime,
    stop: Option<Seq<char>>,
    entry: Option<RiAuthor4142Side>,
    o: Seq<RiMarketOrder>,
) -> bool {
    let ph = a.state.phase@;
    let bo = RiAuthor4142Component::Author42Bo;
    if awaits_order(ph) || spec_blocks_fresh_entries(ph) {
        o.len() == 0 && b == a && kb == ka
    } else if ph == "live_deferred_exit"@ {
        &&& kb == ka
        &&& match ka.bo_position {
            Some(p) => o.len() == 1 && sent_exit(
                a,
                b,
                o[0],
                bo,
                p,
                bar,
                "deferred_exit_reissue"@,
                "live_bo_deferred_exit_reissued"@,
            ),
            None => o.len() == 0 && b == a,
        }
    } else {
        let k1 = bo_rolled(ka, bar.day);
        let exit_now = match k1.bo_pending {
            Some(RiBoPending::Exit(_)) => k1.bo_position is Some,
            _ => false,
        };
        if exit_now {
            &&& k1.bo_pending matches Some(RiBoPending::Exit(r)) && o.len() == 1 && sent_exit(
                a,
                b,
                o[0],
                bo,
                k1.bo_position->0,
                bar,
                r@,
                "live_bo_exit_emitted"@,
            )
            &&& kb == (RiLiveBook { bo_pending: None, ..k1 })
        } else {
            exists|m: RiAuthor4142LiveStrategy, k2: RiLiveBook, o1: Seq<RiMarketOrder>, o2: Seq<RiMarketOrder>|
                {
                    &&& bo_opened(a, m, k1, k2, bar, o1)
                    &&& bo_held(m, b, k2, kb, bar, at_or_after(bar, a.author42_exit_time), stop, entry, o2)
                    &&& o == o1 + o2
                }
        }
    }
}

/// The characters of an optional text.
pub open spec fn opt_chars(o: Option<&str>) -> Option<Seq<char>> {
    match o {
        Some(r) => Some(r@),
        None => None,
    }
}

/// The order of `o`, if any, as a sequence.
pub open spec fn opt_seq(o: Option<RiMarketOrder>) -> Seq<RiMarketOrder> {
    match o {
        Some(x) => seq![x],
        None => Seq::empty(),
    }
}

/// Whether the live adapter works a bar at local time `dt` with origin `origin`: it may
/// send orders in a live run that allows them, or it runs prospectively; the bar is live
/// and a model bar of the session, outside the observed clearing breaks and the excluded
/// dates.
pub open spec fn spec_adapter_bar(
    s: RiAuthor4142LiveStrategy,
    dt: LocalDateTime,
    origin: DataOrigin,
    live_run: bool,
    allow_live_orders: bool,
) -> bool {
    &&& (s.config.spec_can_emit_orders() && live_run && allow_live_orders)
        || s.config.spec_runs_prospective_adapter()
    &&& origin == DataOrigin::Live
    &&& spec_is_model_bar(s.session_policy, dt)
    &&& !spec_operational_break(s.config.mode, dt)
    &&& !s.excluded_model_dates@.contains(dt.day)
}

/// `r` is what `adapter_model_bar` gives for a bar at `ts_utc` of origin `origin` on
/// strategy `s`.
pub open spec fn spec_adapter_result(
    s: RiAuthor4142LiveStrategy,
    ts_utc: i64,
    origin: DataOrigin,
    live_run: bool,
    allow_live_orders: bool,
    r: Option<LocalDateTime>,
) -> bool {
    &&& (match r {
                Some(dt) => {
                    &&& instant_ok(dt)
                    &&& dt.stamp() == ts_utc + s.config.timezone_offset_hours * 3600
                    &&& spec_adapter_bar(s, dt, origin, live_run, allow_live_orders)
                },
                None => forall|dt: LocalDateTime|
                    #![trigger dt.stamp()]
                    instant_ok(dt) && dt.stamp() == ts_utc + s.config.timezone_offset_hours * 3600
                        && -TIMESTAMP_LIMIT <= ts_utc <= TIMESTAMP_LIMIT && -TIMESTAMP_LIMIT <= dt.stamp()
                        <= TIMESTAMP_LIMIT ==> !spec_adapter_bar(s, dt, origin, live_run, allow_live_orders),
            })
}

/// `f` and `kb` are `s` and `ka` after both models of the live adapter worked model bar
/// `bar` with the price model's reading, sending `orders`: the mean-reversion step
/// (`mr_stepped`), then the breakout step (`bo_stepped`); a prospective shadow adapter
/// then assumes its orders filled (`prospective_settled`) and sends nothing.
pub open spec fn spec_model_bar(
    s: RiAuthor4142LiveStrategy,
    f: RiAuthor4142LiveStrategy,
    ka: RiLiveBook,
    kb: RiLiveBook,
    bar: LocalDateTime,
    mr_exit: Option<Seq<char>>,
    mr_entry: Option<RiAuthor4142Side>,
    bo_stop: Option<Seq<char>>,
    bo_entry: Option<RiAuthor4142Side>,
    orders: Seq<RiMarketOrder>,
) -> bool {
    &&& s.config.spec_runs_prospective_adapter() ==> orders.len() == 0
    &&& exists|m1: RiAuthor4142LiveStrategy, m2: RiAuthor4142LiveStrategy, k1: RiLiveBook, x: Option<
        RiMarketOrder,
    >, y: Seq<RiMarketOrder>|
        #![trigger mr_stepped(s, m1, ka, k1, bar, mr_exit, mr_entry, x), bo_stepped(m1, m2, k1, kb, bar, bo_stop, bo_entry, y)]
        {
            &&& mr_stepped(s, m1, ka, k1, bar, mr_exit, mr_entry, x)
            &&& bo_stepped(m1, m2, k1, kb, bar, bo_stop, bo_entry, y)
            &&& if s.config.spec_runs_prospective_adapter() {
                prospective_settled(m2, f)
            } else {
                f == m2 && orders == opt_seq(x) + y
            }
        }
}

impl RiAuthor4142LiveStrategy {
    /// The key of a decision the adapter takes on its own model.
    fn live_decision_key(
        &self,
        component: RiAuthor4142Component,
        bar: LocalDateTime,
        side: RiAuthor4142Side,
    ) -> (k: String)
        requires
            instant_ok(bar),
        ensures
            k@ == live_key(self.config.profile_id@, component, bar, side),
    {
        let side_text = match side {
            RiAuthor4142Side::Long => "Long",
            RiAuthor4142Side::Short => "Short",
        };
        let a = concat_str(self.config.profile_id.as_str(), "|");
        let b = concat_str(a.as_str(), component.as_str());
        let c = concat_str(b.as_str(), "|");
        let d = concat_str(c.as_str(), datetime_text(bar).as_str());
        let e = concat_str(d.as_str(), "|Some(");
        let f = concat_str(e.as_str(), side_text);
        concat_str(f.as_str(), ")|live_prospective")
    }

    /// Sends the entry of `side` of `component` on bar `bar` under `key` and moves to a
    /// pending live entry recorded with `transition`.
    fn send_entry(
        &mut self,
        component: RiAuthor4142Component,
        side: RiAuthor4142Side,
        bar: LocalDateTime,
        reason: &str,
        transition: &str,
        key: String,
    ) -> (o: RiMarketOrder)
        requires
            instant_ok(bar),
        ensures
            sent_entry(*old(self), *final(self), o, component, side, bar, reason@, transition@, key@),
    {
        let decision = self.live_decision(component, side, bar, Some(bar), None, reason, key);
        let candidate = self.build_candidate_intent(
            &decision,
            RiAuthor4142CandidateRole::Entry,
            side.entry_order_side(),
            bar,
        );
        let order = self.emit_live_candidate(candidate, &decision);
        self.transition_live_pending_entry(&decision, transition);
        order
    }

    /// Sends the exit of position `p` of `component` on bar `bar` and moves to a pending
    /// live exit.
    fn send_exit(
        &mut self,
        component: RiAuthor4142Component,
        p: &RiLiveModelPosition,
        bar: LocalDateTime,
        reason: &str,
        transition: &str,
    ) -> (o: RiMarketOrder)
        requires
            instant_ok(bar),
            instant_ok(p.entry_ts_local),
        ensures
            sent_exit(*old(self), *final(self), o, component, *p, bar, reason@, transition@),
    {
        self.emit_exit_intent(
            component,
            p.side,
            p.entry_ts_local,
            bar,
            reason,
            transition,
            p.decision_key.clone(),
        )
    }

    /// One bar of the mean-reversion model on the live adapter (see `mr_stepped`).
    pub fn live_mr_intents_for_bar(
        &mut self,
        book: &mut RiLiveBook,
        bar: LocalDateTime,
        exit: Option<&str>,
        entry: Option<RiAuthor4142Side>,
    ) -> (o: Option<RiMarketOrder>)
        requires
            instant_ok(bar),
            old(book).wf(),
        ensures
            final(book).wf(),
            mr_stepped(
                *old(self),
                *final(self),
                *old(book),
                *final(book),
                bar,
                match exit {
                    Some(r) => Some(r@),
                    None => None,
                },
                entry,
                o,
            ),
    {
        let mr = RiAuthor4142Component::Author41Mr;
        if self.phase_is("live_pending_entry") || self.phase_is("live_pending_exit") {
            return None;
        }
        if self.phase_blocks_fresh_entries() {
            return None;
        }
        if self.phase_is("live_deferred_exit") {
            return match &book.mr_position {
                Some(p) => Some(
                    self.send_exit(mr, p, bar, "deferred_exit_reissue", "live_deferred_exit_reissued"),
                ),
                None => None,
            };
        }
        if book.mr_day != Some(bar.day) {
            book.mr_day = Some(bar.day);
            book.mr_entries_today = 0;
            if self.phase_is("flat") {
                book.mr_position = None;
            }
        }
        match &book.mr_position {
            Some(p) => {
                return match exit {
                    Some(r) => Some(self.send_exit(mr, p, bar, r, "live_exit_emitted")),
                    None => None,
                };
            },
            None => {},
        }
        if book.mr_entries_today >= 2 || book.bo_position.is_some() {
            return None;
        }
        match entry {
            Some(side) => {
                book.mr_entries_today = book.mr_entries_today + 1;
                let key = self.live_decision_key(mr, bar, side);
                let order = self.send_entry(mr, side, bar, "live_entry", "live_entry_emitted", key.clone());
                book.mr_position = Some(RiLiveModelPosition { side, entry_ts_local: bar, decision_key: key });
                Some(order)
            },
            None => None,
        }
    }

    /// Takes up the scheduled breakout entry on bar `bar` (see `bo_opened`).
    fn bo_take_pending_entry(&mut self, book: &mut RiLiveBook, bar: LocalDateTime) -> (o: Vec<RiMarketOrder>)
        requires
            instant_ok(bar),
            old(book).wf(),
        ensures
            final(book).wf(),
            bo_opened(*old(self), *final(self), *old(book), *final(book), bar, o@),
    {
        let bo = RiAuthor4142Component::Author42Bo;
        let pending = book.bo_pending.take();
        let mut o: Vec<RiMarketOrder> = Vec::new();
        match pending {
            Some(RiBoPending::Entry(side)) => {
                if book.mr_position.is_none() && book.bo_position.is_none() {
                    let key = self.live_decision_key(bo, bar, side);
                    let order = self.send_entry(
                        bo,
                        side,
                        bar,
                        "live_entry_next_bar",
                        "live_bo_entry_emitted",
                        key.clone(),
                    );
                    book.bo_position = Some(RiLiveModelPosition { side, entry_ts_local: bar, decision_key: key });
                    match side {
                        RiAuthor4142Side::Long => book.bo_was_long_today = true,
                        RiAuthor4142Side::Short => book.bo_was_short_today = true,
                    }
                    o.push(order);
                }
            },
            _ => {},
        }
        o
    }

    /// Judges the held breakout position on bar `bar` and schedules the model's entry (see
    /// `bo_held`).
    fn bo_judge_position(
        &mut self,
        book: &mut RiLiveBook,
        bar: LocalDateTime,
        late: bool,
        stop: Option<&str>,
        entry: Option<RiAuthor4142Side>,
    ) -> (o: Vec<RiMarketOrder>)
        requires
            instant_ok(bar),
            old(book).wf(),
        ensures
            final(book).wf(),
            bo_held(
                *old(self),
                *final(self),
                *old(book),
                *final(book),
                bar,
                late,
                match stop {
                    Some(r) => Some(r@),
                    None => None,
                },
                entry,
                o@,
            ),
    {
        let bo = RiAuthor4142Component::Author42Bo;
        let mut o: Vec<RiMarketOrder> = Vec::new();
        match &book.bo_position {
            Some(p) => {
                if late {
                    let order = self.send_exit(bo, p, bar, "time_exit_same_bar_close", "live_bo_exit_emitted");
                    o.push(order);
                } else {
                    match stop {
                        Some(r) => {
                            book.bo_pending = Some(RiBoPending::Exit(String::from_str(r)));
                        },
                        None => {},
                    }
                }
            },
            None => {
                match entry {
                    Some(side) => {
                        if book.bo_pending.is_none() && book.mr_position.is_none() && !late {
                            book.bo_pending = Some(RiBoPending::Entry(side));
                        }
                    },
                    None => {},
                }
            },
        }
        o
    }

    /// One bar of the breakout model on the live adapter (see `bo_stepped`).
    pub fn live_bo_intents_for_bar(
        &mut self,
        book: &mut RiLiveBook,
        bar: LocalDateTime,
        stop: Option<&str>,
        entry: Option<RiAuthor4142Side>,
    ) -> (o: Vec<RiMarketOrder>)
        requires
            instant_ok(bar),
            old(book).wf(),
        ensures
            final(book).wf(),
            bo_stepped(
                *old(self),
                *final(self),
                *old(book),
                *final(book),
                bar,
                match stop {
                    Some(r) => Some(r@),
                    None => None,
                },
                entry,
                o@,
            ),
    {
        let bo = RiAuthor4142Component::Author42Bo;
        let mut o: Vec<RiMarketOrder> = Vec::new();
        if self.phase_is("live_pending_entry") || self.phase_is("live_pending_exit") {
            return o;
        }
        if self.phase_blocks_fresh_entries() {
            return o;
        }
        if self.phase_is("live_deferred_exit") {
            match &book.bo_position {
                Some(p) => {
                    let order = self.send_exit(
                        bo,
                        p,
                        bar,
                        "deferred_exit_reissue",
                        "live_bo_deferred_exit_reissued",
                    );
                    o.push(order);
                },
                None => {},
            }
            return o;
        }
        if book.bo_day != Some(bar.day) {
            book.bo_day = Some(bar.day);
            book.bo_position = None;
            book.bo_pending = None;
            book.bo_was_long_today = false;
            book.bo_was_short_today = false;
        }
        let exit_now = match &book.bo_pending {
            Some(RiBoPending::Exit(_)) => book.bo_position.is_some(),
            _ => false,
        };
        if exit_now {
            let pending = book.bo_pending.take();
            match (pending, &book.bo_position) {
                (Some(RiBoPending::Exit(r)), Some(p)) => {
                    let order = self.send_exit(bo, p, bar, r.as_str(), "live_bo_exit_emitted");
                    o.push(order);
                },
                _ => {},
            }
            return o;
        }
        let bar_time = TimeOfDay { secs: bar.secs, frac: 0 };
        let late = !bar_time.lt(&self.author42_exit_time);
        let ghost a = *self;
        let ghost k1 = *book;
        let mut o1 = self.bo_take_pending_entry(book, bar);
        let ghost m = *self;
        let ghost k2 = *book;
        let mut o2 = self.bo_judge_position(book, bar, late, stop, entry);
        let ghost s1 = o1@;
        let ghost s2 = o2@;
        o1.append(&mut o2);
        proof {
            assert(m.author42_exit_time == a.author42_exit_time);
            assert(bo_opened(a, m, k1, k2, bar, s1));
            assert(o1@ == s1 + s2);
        }
        o1
    }


    /// The local time of a bar that the live adapter works (see `spec_adapter_bar`);
    /// `None` for any other bar, or one with no local time in chrono's calendar (a
    /// timestamp beyond `TIMESTAMP_LIMIT` seconds of the epoch, before or after the shift).
    pub fn adapter_model_bar(
        &self,
        ts_utc: i64,
        origin: DataOrigin,
        live_run: bool,
        allow_live_orders: bool,
    ) -> (r: Option<LocalDateTime>)
        ensures
            spec_adapter_result(*self, ts_utc, origin, live_run, allow_live_orders, r),

    {
        let allowed = (self.can_emit_orders() && live_run && allow_live_orders)
            || self.config.runs_prospective_adapter();
        if !allowed {
            return None;
        }
        match origin {
            DataOrigin::Live => {},
            _ => {
                return None;
            },
        }
        let dt = match self.local_dt(ts_utc) {
            Some(dt) => dt,
            None => {
                return None;
            },
        };
        if !self.session_policy.is_model_bar(dt) || self.is_operational_shadow_break_bar(dt)
            || self.is_excluded_date(dt.day) {
            return None;
        }
        Some(dt)
    }

    /// Both models of the live adapter on one model bar: the mean-reversion step
    /// (`mr_stepped`), then the breakout step (`bo_stepped`). A prospective shadow adapter
    /// then assumes its orders filled (`prospective_settled`) and sends nothing.
    pub fn on_model_bar(
        &mut self,
        book: &mut RiLiveBook,
        bar: LocalDateTime,
        mr_exit: Option<&str>,
        mr_entry: Option<RiAuthor4142Side>,
        bo_stop: Option<&str>,
        bo_entry: Option<RiAuthor4142Side>,
    ) -> (orders: Vec<RiMarketOrder>)
        requires
            instant_ok(bar),
            old(book).wf(),
        ensures
            final(book).wf(),
            spec_model_bar(
                *old(self),
                *final(self),
                *old(book),
                *final(book),
                bar,
                opt_chars(mr_exit),
                mr_entry,
                opt_chars(bo_stop),
                bo_entry,
                orders@,
            ),

    {
        let ghost a = *self;
        let x = self.live_mr_intents_for_bar(book, bar, mr_exit, mr_entry);
        let ghost m1 = *self;
        let ghost k1 = *book;
        let mut y = self.live_bo_intents_for_bar(book, bar, bo_stop, bo_entry);
        let ghost m2 = *self;
        let ghost ys = y@;
        assert(m1.config == a.config);
        assert(m2.config == a.config);
        if self.config.runs_prospective_adapter() {
            self.finalize_prospective_adapter_transition();
            return Vec::new();
        }
        let mut orders: Vec<RiMarketOrder> = Vec::new();
        match x {
            Some(o) => orders.push(o),
            None => {},
        }
        let ghost xs = orders@;
        orders.append(&mut y);
        assert(orders@ == xs + ys);
        orders
    }


    /// A bar of the feed at `ts_utc` with origin `origin`: it is counted in the feed
    /// statistics (see `observe_bar`); a bar that the live adapter works (see
    /// `adapter_model_bar`) then goes to both models with the price model's reading (see
    /// `on_model_bar`). A prospective shadow adapter sends no order on any bar.
    pub fn on_bar(
        &mut self,
        book: &mut RiLiveBook,
        ts_utc: i64,
        origin: DataOrigin,
        live_run: bool,
        allow_live_orders: bool,
        mr_exit: Option<&str>,
        mr_entry: Option<RiAuthor4142Side>,
        bo_stop: Option<&str>,
        bo_entry: Option<RiAuthor4142Side>,
    ) -> (orders: Vec<RiMarketOrder>)
        requires
            old(book).wf(),
        ensures
            final(book).wf(),
            old(self).config.spec_runs_prospective_adapter() ==> orders@.len() == 0,
            exists|m: RiAuthor4142LiveStrategy, obs: Option<(LocalDateTime, bool)>, a: Option<LocalDateTime>|
                #![trigger spec_observed(*old(self), m, ts_utc, origin, obs), spec_adapter_result(m, ts_utc, origin, live_run, allow_live_orders, a)]
                {
                    &&& spec_observed(*old(self), m, ts_utc, origin, obs)
                    &&& spec_adapter_result(m, ts_utc, origin, live_run, allow_live_orders, a)
                    &&& match a {
                        None => orders@.len() == 0 && *final(self) == m && *final(book) == *old(book),
                        Some(dt) => spec_model_bar(
                            m,
                            *final(self),
                            *old(book),
                            *final(book),
                            dt,
                            opt_chars(mr_exit),
                            mr_entry,
                            opt_chars(bo_stop),
                            bo_entry,
                            orders@,
                        ),
                    }
                },
    {
        let ghost s0 = *self;
        let obs = self.observe_bar(ts_utc, origin);
        let ghost m = *self;
        let a = self.adapter_model_bar(ts_utc, origin, live_run, allow_live_orders);
        assert(spec_observed(s0, m, ts_utc, origin, obs));
        assert(spec_adapter_result(m, ts_utc, origin, live_run, allow_live_orders, a));
        match a {
            None => Vec::new(),
            Some(dt) => self.on_model_bar(book, dt, mr_exit, mr_entry, bo_stop, bo_entry),
        }
    }

}

} // verus!
