use vstd::prelude::*;

use crate::host::{
    cleanup_intents, opt_chars, spec_cleanup, CleanupIntent, DataOrigin, IntentClass,
    OrderSide, StopLimitCondition, StrategyExitRiskStatus,
};
use crate::hybrid_intraday_runtime::{
    hex_char, spec_stop_fired, spec_stop_withdrawn, BootstrapOrder, BootstrapStopOrder,
};
use crate::clock::{
    chrono_date_text, chrono_epoch_day, date_text, day_in_range, fixed_offset_secs, parse_epoch_day,
    shift_timestamp, LocalDateTime, TIMESTAMP_LIMIT,
};
use crate::idset::{set_insert_id, set_remove_id, set_remove_request};
use crate::sat::{clamp_i64, sat_sub_i64, u64_as_i64, u64_to_i64};
use crate::text::{
    ascii_lower_seq, lowered, trim_seq, trimmed, chars_of, concat_str, contains_seq, contains_str, push_char, str_eq};

verus! {

broadcast use vstd::string::group_string_axioms;

/// Where the USD/RUB hybrid strategy stands.
#[derive(Debug, Clone, Copy, PartialEq, Eq, Structural)]
pub enum HybridState {
    Flat,
    Pending,
    Open,
}

/// The word recorded for a strategy state.
pub open spec fn spec_hybrid_state_word(s: HybridState) -> Seq<char> {
    match s {
        HybridState::Flat => "flat"@,
        HybridState::Pending => "pending"@,
        HybridState::Open => "open"@,
    }
}

impl HybridState {
    /// The word recorded for the state.
    pub fn as_str(self) -> (s: &'static str)
        ensures
            s@ == spec_hybrid_state_word(self),
    {
        match self {
            HybridState::Flat => "flat",
            HybridState::Pending => "pending",
            HybridState::Open => "open",
        }
    }
}

/// The model that owns a position.
#[derive(Debug, Clone, Copy, PartialEq, Eq, Structural)]
pub enum Owner {
    MeanRev,
    Breakout,
}

/// The word recorded for an owner.
pub open spec fn spec_owner_word(o: Owner) -> Seq<char> {
    match o {
        Owner::MeanRev => "mean_rev"@,
        Owner::Breakout => "day_breakout_waitfix"@,
    }
}

impl Owner {
    /// The word recorded for the owner.
    pub fn as_str(self) -> (s: &'static str)
        ensures
            s@ == spec_owner_word(self),
    {
        match self {
            Owner::MeanRev => "mean_rev",
            Owner::Breakout => "day_breakout_waitfix",
        }
    }
}

/// Direction of a position.
#[derive(Debug, Clone, Copy, PartialEq, Eq, Structural)]
pub enum PositionSide {
    Long,
    Short,
}

/// The word recorded for a position direction.
pub open spec fn spec_position_side_word(s: PositionSide) -> Seq<char> {
    match s {
        PositionSide::Long => "long"@,
        PositionSide::Short => "short"@,
    }
}

/// The order side that opens a position of the given direction.
pub open spec fn spec_entry_side(s: PositionSide) -> OrderSide {
    match s {
        PositionSide::Long => OrderSide::Buy,
        PositionSide::Short => OrderSide::Sell,
    }
}

/// The order side that closes a position of the given direction.
pub open spec fn spec_exit_side(s: PositionSide) -> OrderSide {
    match s {
        PositionSide::Long => OrderSide::Sell,
        PositionSide::Short => OrderSide::Buy,
    }
}

impl PositionSide {
    /// The word recorded for the direction.
    pub fn as_str(self) -> (s: &'static str)
        ensures
            s@ == spec_position_side_word(self),
    {
        match self {
            PositionSide::Long => "long",
            PositionSide::Short => "short",
        }
    }

    /// The order side that opens the position.
    pub fn entry_side(self) -> (s: OrderSide)
        ensures
            s == spec_entry_side(self),
    {
        match self {
            PositionSide::Long => OrderSide::Buy,
            PositionSide::Short => OrderSide::Sell,
        }
    }

    /// The order side that closes the position.
    pub fn exit_side(self) -> (s: OrderSide)
        ensures
            s == spec_exit_side(self),
    {
        match self {
            PositionSide::Long => OrderSide::Sell,
            PositionSide::Short => OrderSide::Buy,
        }
    }
}

/// Which leg of the mean-reversion bracket an order is.
#[derive(Debug, Clone, Copy, PartialEq, Eq, Structural)]
pub enum ProtectionRole {
    Tp,
    Sl,
}

/// The word written for a bracket leg.
pub open spec fn spec_role_word(r: ProtectionRole) -> Seq<char> {
    match r {
        ProtectionRole::Tp => "TP"@,
        ProtectionRole::Sl => "SL"@,
    }
}

impl ProtectionRole {
    /// The word written for the leg.
    pub fn as_str(self) -> (s: &'static str)
        ensures
            s@ == spec_role_word(self),
    {
        match self {
            ProtectionRole::Tp => "TP",
            ProtectionRole::Sl => "SL",
        }
    }
}

/// The owner that a recorded word names.
pub open spec fn spec_parse_owner(value: Seq<char>) -> Option<Owner> {
    if value == "mean_rev"@ {
        Some(Owner::MeanRev)
    } else if value == "day_breakout_waitfix"@ {
        Some(Owner::Breakout)
    } else {
        None
    }
}

/// The position direction that a recorded word names.
pub open spec fn spec_parse_position_side(value: Seq<char>) -> Option<PositionSide> {
    if value == "long"@ {
        Some(PositionSide::Long)
    } else if value == "short"@ {
        Some(PositionSide::Short)
    } else {
        None
    }
}

/// Reads an owner from its recorded word.
pub fn parse_owner(value: &str) -> (r: Option<Owner>)
    ensures
        r == spec_parse_owner(value@),
{
    if str_eq(value, "mean_rev") {
        Some(Owner::MeanRev)
    } else if str_eq(value, "day_breakout_waitfix") {
        Some(Owner::Breakout)
    } else {
        None
    }
}

/// Reads a position direction from its recorded word.
pub fn parse_position_side(value: &str) -> (r: Option<PositionSide>)
    ensures
        r == spec_parse_position_side(value@),
{
    if str_eq(value, "long") {
        Some(PositionSide::Long)
    } else if str_eq(value, "short") {
        Some(PositionSide::Short)
    } else {
        None
    }
}

/// The direction of a broker position given in lots: short below zero, long otherwise.
pub fn snapshot_position_side(qty: i64) -> (s: PositionSide)
    ensures
        s == (if qty >= 0 { PositionSide::Long } else { PositionSide::Short }),
{
    if qty >= 0 {
        PositionSide::Long
    } else {
        PositionSide::Short
    }
}

/// The trigger condition of the stop that protects a position.
pub fn stop_condition_for_position_side(side: PositionSide) -> (c: StopLimitCondition)
    ensures
        c == (match side {
            PositionSide::Long => StopLimitCondition::LessOrEqual,
            PositionSide::Short => StopLimitCondition::MoreOrEqual,
        }),
{
    match side {
        PositionSide::Long => StopLimitCondition::LessOrEqual,
        PositionSide::Short => StopLimitCondition::MoreOrEqual,
    }
}

/// Seconds for which a protective stop stays on the exchange: twelve hours.
pub const STOP_LIFETIME_SEC: i64 = 43200;

/// When a protective stop created at `created_ts_utc` expires (saturating).
pub fn stop_end_unix_time(created_ts_utc: i64) -> (t: i64)
    ensures
        t == (if created_ts_utc + STOP_LIFETIME_SEC > i64::MAX {
            i64::MAX as int
        } else {
            created_ts_utc + STOP_LIFETIME_SEC
        }),
{
    if created_ts_utc > i64::MAX - STOP_LIFETIME_SEC {
        i64::MAX
    } else {
        created_ts_utc + STOP_LIFETIME_SEC
    }
}

/// Whether a bar comes from history, a history gap or a replay rather than the live feed.
pub fn is_recovered_or_non_live_bar_origin(origin: DataOrigin) -> (b: bool)
    ensures
        b == (origin == DataOrigin::History || origin == DataOrigin::HistoryGap || origin
            == DataOrigin::Replay),
{
    match origin {
        DataOrigin::History | DataOrigin::HistoryGap | DataOrigin::Replay => true,
        DataOrigin::Live => false,
    }
}

/// Whether a live bar is older than the allowed silence: its age at `now_ts_utc`
/// (saturating) exceeds `max_silence_bars_sec` read as an `i64`.
pub fn is_live_startup_bar_stale(now_ts_utc: i64, bar_ts_utc: i64, max_silence_bars_sec: u64) -> (b:
    bool)
    ensures
        b == (clamp_i64(now_ts_utc - bar_ts_utc) > u64_as_i64(max_silence_bars_sec)),
{
    let age = sat_sub_i64(now_ts_utc, bar_ts_utc);
    let limit = u64_to_i64(max_silence_bars_sec);
    age > limit
}

/// Milliseconds during which a filled bracket leg waits for the broker to report flat.
pub const BRACKET_TERMINAL_RECONCILE_GRACE_MS: i64 = 3000;

/// Whether the grace after a filled bracket leg is still running at `now_ms`.
pub fn bracket_terminal_reconcile_active(started_ms: Option<i64>, now_ms: i64) -> (b: bool)
    ensures
        b == (started_ms matches Some(s) && clamp_i64(now_ms - s)
            < BRACKET_TERMINAL_RECONCILE_GRACE_MS),
{
    match started_ms {
        Some(s) => sat_sub_i64(now_ms, s) < BRACKET_TERMINAL_RECONCILE_GRACE_MS,
        None => false,
    }
}

/// The ASCII characters of `s`, in order.
pub open spec fn keep_ascii(s: Seq<char>) -> Seq<char>
    decreases s.len(),
{
    if s.len() == 0 {
        s
    } else if (s.last() as u32) < 128 {
        keep_ascii(s.drop_last()).push(s.last())
    } else {
        keep_ascii(s.drop_last())
    }
}

/// At most the first `n` elements of `s`.
pub open spec fn capped(s: Seq<char>, n: nat) -> Seq<char> {
    if s.len() <= n {
        s
    } else {
        s.take(n as int)
    }
}

/// Longest comment the broker keeps.
pub const COMMENT_MAX_CHARS: usize = 100;

/// A comment as the broker receives it: its ASCII characters, at most a hundred.
pub open spec fn spec_broker_comment(raw: Seq<char>) -> Seq<char> {
    capped(keep_ascii(raw), COMMENT_MAX_CHARS as nat)
}

/// Keeps the ASCII characters of a comment, at most a hundred of them.
pub fn broker_comment(raw: &str) -> (s: String)
    ensures
        s@ == spec_broker_comment(raw@),
{
    let cs = chars_of(raw);
    let mut out = String::new();
    let mut n: usize = 0;
    let mut i: usize = 0;
    proof {
        assert(raw@.take(0) =~= Seq::<char>::empty());
    }
    while i < cs.len()
        invariant
            cs@ == raw@,
            i <= cs@.len(),
            n == out@.len(),
            out@ == capped(keep_ascii(raw@.take(i as int)), COMMENT_MAX_CHARS as nat),
        decreases cs@.len() - i,
    {
        let c = cs[i];
        let ghost before = keep_ascii(raw@.take(i as int));
        proof {
            assert(raw@.take(i + 1).drop_last() =~= raw@.take(i as int));
            assert(raw@.take(i + 1).last() == c);
        }
        if (c as u32) < 128 {
            if n < COMMENT_MAX_CHARS {
                push_char(&mut out, c);
                n = n + 1;
                proof {
                    assert(before.len() < 100);
                    assert(keep_ascii(raw@.take(i + 1)) == before.push(c));
                }
            } else {
                proof {
                    assert(before.len() >= 100);
                    assert(before.push(c).take(100) =~= before.take(100));
                }
            }
        }
        i = i + 1;
    }
    proof {
        assert(raw@.take(cs@.len() as int) =~= raw@);
    }
    out
}

/// The comment on a leg of the mean-reversion bracket.
pub open spec fn spec_mr_protection_comment(sid: Seq<char>, role: ProtectionRole) -> Seq<char> {
    spec_broker_comment("AUS|sid="@ + sid + "|o=MR|r="@ + spec_role_word(role))
}

/// Writes the comment on a leg of the mean-reversion bracket.
pub fn mr_protection_comment(strategy_id: &str, role: ProtectionRole) -> (s: String)
    ensures
        s@ == spec_mr_protection_comment(strategy_id@, role),
{
    let a = concat_str("AUS|sid=", strategy_id);
    let b = concat_str(a.as_str(), "|o=MR|r=");
    let c = concat_str(b.as_str(), role.as_str());
    broker_comment(c.as_str())
}

/// Reads which bracket leg an order comment names.
pub fn parse_mr_protection_role(comment: Option<&str>) -> (r: Option<ProtectionRole>)
    ensures
        r == (match comment {
            None => None,
            Some(c) => if contains_seq(c@, "|o=MR|r=TP"@) {
                Some(ProtectionRole::Tp)
            } else if contains_seq(c@, "|o=MR|r=SL"@) {
                Some(ProtectionRole::Sl)
            } else {
                None
            },
        }),
{
    match comment {
        None => None,
        Some(c) => {
            if contains_str(c, "|o=MR|r=TP") {
                Some(ProtectionRole::Tp)
            } else if contains_str(c, "|o=MR|r=SL") {
                Some(ProtectionRole::Sl)
            } else {
                None
            }
        },
    }
}

/// The lower-case hexadecimal digits of `n`, most significant first, without leading
/// zeros.
pub open spec fn hex_digits(n: nat) -> Seq<char>
    decreases n,
{
    if n < 16 {
        seq![hex_char(n as int)]
    } else {
        hex_digits(n / 16) + seq![hex_char((n % 16) as int)]
    }
}

/// `s` with zeros put in front until it has at least `w` characters.
pub open spec fn zero_padded(s: Seq<char>, w: nat) -> Seq<char>
    decreases w - s.len(),
{
    if s.len() >= w {
        s
    } else {
        zero_padded(seq!['0'] + s, w)
    }
}

fn hex_digit_char(v: u64) -> (c: char)
    requires
        v < 16,
    ensures
        c == hex_char(v as int),
{
    if v < 10 {
        ((v as u8) + 48) as char
    } else {
        ((v as u8) + 87) as char
    }
}

/// Lower-case hexadecimal of `n`, at least eight digits.
pub fn hex8(n: u64) -> (s: String)
    ensures
        s@ == zero_padded(hex_digits(n as nat), 8),
{
    let mut acc: Vec<char> = Vec::new();
    let mut rem: u64 = n;
    while rem >= 16
        invariant
            hex_digits(n as nat) == hex_digits(rem as nat) + acc@,
        decreases rem,
    {
        let d = hex_digit_char(rem % 16);
        let ghost old_acc = acc@;
        acc.insert(0, d);
        proof {
            assert(hex_digits(rem as nat) == hex_digits((rem / 16) as nat) + seq![hex_char((rem % 16) as int)]);
            assert(acc@ =~= seq![d] + old_acc);
            assert(hex_digits(n as nat) =~= hex_digits((rem / 16) as nat) + acc@);
        }
        rem = rem / 16;
    }
    let ghost old_acc = acc@;
    acc.insert(0, hex_digit_char(rem));
    assert(acc@ =~= hex_digits(n as nat));
    while acc.len() < 8
        invariant
            zero_padded(acc@, 8) == zero_padded(hex_digits(n as nat), 8),
        decreases 8 - acc@.len(),
    {
        let ghost before = acc@;
        acc.insert(0, '0');
        assert(acc@ =~= seq!['0'] + before);
    }
    crate::text::string_from_chars(&acc)
}

/// The word of the comment tag for an order of the given class.
pub open spec fn spec_class_tag(class: IntentClass) -> Seq<char> {
    match class {
        IntentClass::Entry => "ENTRY"@,
        IntentClass::Exit => "EXIT"@,
        IntentClass::CancelCleanup => "CANCEL"@,
        IntentClass::ProtectiveRepair => "REPAIR"@,
    }
}

/// The comment tag of an order: the strategy id, the creation time as at least eight
/// lower-case hex digits (negative times as zero) and the order's class.
pub open spec fn spec_comment_tag(sid: Seq<char>, created_ts_utc: i64, class: IntentClass) -> Seq<
    char,
> {
    spec_broker_comment(
        "AUS|sid="@ + sid + "|c="@ + zero_padded(
            hex_digits(if created_ts_utc < 0 { 0 } else { created_ts_utc as nat }),
            8,
        ) + "|r="@ + spec_class_tag(class),
    )
}

fn class_tag(class: IntentClass) -> (s: &'static str)
    ensures
        s@ == spec_class_tag(class),
{
    match class {
        IntentClass::Entry => "ENTRY",
        IntentClass::Exit => "EXIT",
        IntentClass::CancelCleanup => "CANCEL",
        IntentClass::ProtectiveRepair => "REPAIR",
    }
}

/// The comment tag the strategy puts on an order it sends.
pub fn intent_comment_tag(strategy_id: &str, created_ts_utc: i64, intent_class: IntentClass) -> (r:
    Option<String>)
    ensures
        r matches Some(s) && s@ == spec_comment_tag(strategy_id@, created_ts_utc, intent_class),
{
    let t: u64 = if created_ts_utc < 0 {
        0
    } else {
        created_ts_utc as u64
    };
    let cycle = hex8(t);
    let a = concat_str("AUS|sid=", strategy_id);
    let b = concat_str(a.as_str(), "|c=");
    let c = concat_str(b.as_str(), cycle.as_str());
    let d = concat_str(c.as_str(), "|r=");
    let e = concat_str(d.as_str(), class_tag(intent_class));
    Some(broker_comment(e.as_str()))
}

/// What the strategy knows of the mean-reversion bracket on the exchange.
#[derive(Debug, Clone)]
pub struct MrProtection {
    pub pending_tp_bar_ts_utc: Option<i64>,
    pub pending_sl_bar_ts_utc: Option<i64>,
    pub tp_order_id: Option<i64>,
    pub sl_stop_order_id: Option<String>,
    pub sl_exchange_order_id: Option<i64>,
}

impl MrProtection {
    /// Forgets the whole bracket.
    pub fn clear(&mut self)
        ensures
            final(self).pending_tp_bar_ts_utc is None,
            final(self).pending_sl_bar_ts_utc is None,
            final(self).tp_order_id is None,
            final(self).sl_stop_order_id is None,
            final(self).sl_exchange_order_id is None,
    {
        self.pending_tp_bar_ts_utc = None;
        self.pending_sl_bar_ts_utc = None;
        self.tp_order_id = None;
        self.sl_stop_order_id = None;
        self.sl_exchange_order_id = None;
    }

    /// Forgets the bracket and returns the orders that cancel what of it is on the
    /// exchange.
    pub fn emit_cancel_all_protection(&mut self, side: Option<OrderSide>) -> (r: Vec<
        CleanupIntent,
    >)
        ensures
            r@.map_values(|c: CleanupIntent| c@) == spec_cleanup(
                old(self).tp_order_id,
                opt_chars(old(self).sl_stop_order_id),
                old(self).sl_exchange_order_id,
                side,
            ),
            final(self).pending_tp_bar_ts_utc is None,
            final(self).pending_sl_bar_ts_utc is None,
            final(self).tp_order_id is None,
            final(self).sl_stop_order_id is None,
            final(self).sl_exchange_order_id is None,
    {
        self.pending_tp_bar_ts_utc = None;
        self.pending_sl_bar_ts_utc = None;
        let tp = self.tp_order_id.take();
        let sl = self.sl_stop_order_id.take();
        let ex = self.sl_exchange_order_id.take();
        cleanup_intents(tp, sl, ex, side)
    }
}

/// The exit-side flags that the host reads to describe the strategy's open risk.
#[derive(Debug, Clone, Copy, PartialEq, Eq, Structural)]
pub struct ExitTracking {
    pub exit_reject_deferred_until_bar_ts: Option<i64>,
    pub exit_intent_inflight: bool,
}

impl ExitTracking {
    /// The exit risk the strategy reports: with an open position, a deferred retry after
    /// a rejected exit, or else an exit in flight, is an active exit recovery; otherwise
    /// nothing is reported.
    pub fn exit_risk_status(&self, has_open_position: bool) -> (r: StrategyExitRiskStatus)
        ensures
            (self.exit_reject_deferred_until_bar_ts is Some && has_open_position) ==> {
                &&& r.phase_override matches Some(p) && p@ == "ExitRejectDeferredRetry"@
                &&& r.exit_recovery_active
                &&& !r.operator_intervention_required
                &&& r.open_risk_position_unflattened
            },
            (!(self.exit_reject_deferred_until_bar_ts is Some && has_open_position)
                && self.exit_intent_inflight && has_open_position) ==> {
                &&& r.phase_override matches Some(p) && p@ == "ExitIntentInflight"@
                &&& r.exit_recovery_active
                &&& !r.operator_intervention_required
                &&& r.open_risk_position_unflattened
            },
            !has_open_position ==> {
                &&& r.phase_override is None
                &&& !r.exit_recovery_active
                &&& !r.operator_intervention_required
                &&& !r.open_risk_position_unflattened
            },
            (has_open_position && self.exit_reject_deferred_until_bar_ts is None
                && !self.exit_intent_inflight) ==> {
                &&& r.phase_override is None
                &&& !r.exit_recovery_active
                &&& !r.operator_intervention_required
                &&& !r.open_risk_position_unflattened
            },
    {
        if self.exit_reject_deferred_until_bar_ts.is_some() && has_open_position {
            return StrategyExitRiskStatus {
                phase_override: Some(String::from_str("ExitRejectDeferredRetry")),
                exit_recovery_active: true,
                operator_intervention_required: false,
                open_risk_position_unflattened: true,
            };
        }
        if self.exit_intent_inflight && has_open_position {
            return StrategyExitRiskStatus {
                phase_override: Some(String::from_str("ExitIntentInflight")),
                exit_recovery_active: true,
                operator_intervention_required: false,
                open_risk_position_unflattened: true,
            };
        }
        StrategyExitRiskStatus {
            phase_override: None,
            exit_recovery_active: false,
            operator_intervention_required: false,
            open_risk_position_unflattened: false,
        }
    }
}

/// Every owner reads back from its recorded word.
pub proof fn lemma_owner_word_round_trip(owner: Owner)
    ensures
        spec_parse_owner(spec_owner_word(owner)) == Some(owner),
{
    reveal_strlit("mean_rev");
    reveal_strlit("day_breakout_waitfix");
    assert("mean_rev"@.len() != "day_breakout_waitfix"@.len());
}

/// Every position direction reads back from its recorded word.
pub proof fn lemma_position_side_word_round_trip(side: PositionSide)
    ensures
        spec_parse_position_side(spec_position_side_word(side)) == Some(side),
{
    reveal_strlit("long");
    reveal_strlit("short");
    assert("long"@.len() != "short"@.len());
}

proof fn lemma_keep_ascii_all(s: Seq<char>)
    requires
        forall|i: int| 0 <= i < s.len() ==> (#[trigger] s[i] as u32) < 128,
    ensures
        keep_ascii(s) == s,
    decreases s.len(),
{
    if s.len() > 0 {
        lemma_keep_ascii_all(s.drop_last());
        assert(s.drop_last().push(s.last()) =~= s);
    }
}

/// The bracket comment names its leg, and reads back as that leg, whenever the strategy
/// id is ASCII, has no `|` and leaves the comment within the broker's hundred characters.
pub proof fn lemma_mr_protection_role_round_trip(sid: Seq<char>, role: ProtectionRole)
    requires
        forall|i: int| 0 <= i < sid.len() ==> (#[trigger] sid[i] as u32) < 128 && sid[i] != '|',
        sid.len() + 18 <= 100,
    ensures
        ({
            let c = spec_mr_protection_comment(sid, role);
            (if contains_seq(c, "|o=MR|r=TP"@) {
                Some(ProtectionRole::Tp)
            } else if contains_seq(c, "|o=MR|r=SL"@) {
                Some(ProtectionRole::Sl)
            } else {
                None
            }) == Some(role)
        }),
{
    reveal_strlit("AUS|sid=");
    reveal_strlit("|o=MR|r=");
    reveal_strlit("TP");
    reveal_strlit("SL");
    reveal_strlit("|o=MR|r=TP");
    reveal_strlit("|o=MR|r=SL");
    let raw = "AUS|sid="@ + sid + "|o=MR|r="@ + spec_role_word(role);
    let n: int = 8 + sid.len() as int;
    assert(raw.len() == n + 10);
    assert forall|i: int| 0 <= i < raw.len() implies (#[trigger] raw[i] as u32) < 128 by {
        if 8 <= i < n {
            assert(raw[i] == sid[i - 8]);
        }
    }
    lemma_keep_ascii_all(raw);
    let c = spec_mr_protection_comment(sid, role);
    assert(c == raw);
    let tp = "|o=MR|r=TP"@;
    let sl = "|o=MR|r=SL"@;
    let own = if role == ProtectionRole::Tp { tp } else { sl };
    assert(raw.subrange(n, n + 10) =~= own);
    if role == ProtectionRole::Sl {
        if contains_seq(raw, tp) {
            let i = choose|i: int|
                0 <= i && i + tp.len() <= raw.len() && #[trigger] raw.subrange(i, i + tp.len())
                    == tp;
            assert(raw.subrange(i, i + 10)[0] == raw[i]);
            assert(raw[i] == '|');
            if i < 8 {
                assert(raw.subrange(i, i + 10)[1] == raw[i + 1]);
            } else if i < n {
                assert(raw[i] == sid[i - 8]);
            } else {
                assert(i == n);
                assert(raw.subrange(i, i + 10)[8] == raw[n + 8]);
            }
        }
    }
}

/// What a position update means for the strategy, read from the broker position in
/// lots and what the strategy holds.
#[derive(Debug, Clone, Copy, PartialEq, Eq, Structural)]
pub enum PositionUpdate {
    /// The broker is flat: cancel protection (closing on the given side) and forget the
    /// position.
    BrokerFlat { closing_side: Option<OrderSide> },
    /// A multi-lot entry filled on the wrong side or beyond its target: flatten.
    PartialEntryInvalid,
    /// A multi-lot entry is still filling: wait for the target.
    PartialEntryWaiting,
    /// A position appeared that the strategy neither holds nor expects: flatten it.
    UnexpectedResidual { side: PositionSide, size: u64 },
    /// An exit is in flight or a filled bracket leg is settling: wait for flat.
    AwaitingBrokerFlat,
    /// A bracket leg filled in part: wait for the rest to settle.
    BracketPartialProgress,
    /// The broker position differs from the strategy's: flatten the residual.
    SizeChanged { sign_flip: bool, side: PositionSide, size: u64 },
    /// The position is open as the broker reports it.
    Opened { side: PositionSide, size: u64 },
}

/// What the strategy holds of a pending multi-lot entry.
#[derive(Debug, Clone, Copy, PartialEq, Eq, Structural)]
pub struct PendingFill {
    pub side: PositionSide,
    pub target_qty: u64,
}

/// What the strategy holds of its open position.
#[derive(Debug, Clone, Copy, PartialEq, Eq, Structural)]
pub struct OpenHolding {
    pub owner: Owner,
    pub side: PositionSide,
    pub size: u64,
}

/// The size of a broker position in lots.
pub open spec fn lots(q: i64) -> int {
    if q < 0 {
        -q
    } else {
        q as int
    }
}

/// Whether a mean-reversion bracket leg filled in part: the broker still holds the same
/// direction, but less than the position.
pub open spec fn spec_bracket_partial(open: OpenHolding, qty: i64) -> bool {
    open.owner == Owner::MeanRev && qty != 0 && open.size > 0 && (qty > 0) == (open.side
        == PositionSide::Long) && lots(qty) < open.size
}

/// The meaning of a position update of `qty` lots.
pub open spec fn spec_position_update(
    qty: i64,
    existing: bool,
    pending: Option<PendingFill>,
    open: Option<OpenHolding>,
    exit_intent_inflight: bool,
    reconcile_active: bool,
) -> PositionUpdate {
    let side = if qty > 0 { PositionSide::Long } else { PositionSide::Short };
    let size = lots(qty) as u64;
    if qty == 0 {
        PositionUpdate::BrokerFlat {
            closing_side: match open {
                Some(o) => Some(spec_exit_side(o.side)),
                None => None,
            },
        }
    } else if pending matches Some(p) && p.target_qty > 1 && (side != p.side || lots(qty)
        > p.target_qty) {
        PositionUpdate::PartialEntryInvalid
    } else if pending matches Some(p) && p.target_qty > 1 && lots(qty) < p.target_qty {
        PositionUpdate::PartialEntryWaiting
    } else if open is None && pending is None && !existing {
        PositionUpdate::UnexpectedResidual { side, size }
    } else if open is Some && (exit_intent_inflight || reconcile_active) {
        PositionUpdate::AwaitingBrokerFlat
    } else if open is Some && spec_bracket_partial(open->0, qty) {
        PositionUpdate::BracketPartialProgress
    } else if open is Some && (if open->0.side == PositionSide::Long {
        open->0.size as int
    } else {
        -(open->0.size as int)
    }) != qty {
        PositionUpdate::SizeChanged {
            sign_flip: (open->0.side == PositionSide::Long) != (qty > 0),
            side,
            size,
        }
    } else {
        PositionUpdate::Opened { side, size }
    }
}

fn lots_of(q: i64) -> (n: u64)
    ensures
        n == lots(q),
{
    if q < 0 {
        ((-(q + 1)) as u64) + 1
    } else {
        q as u64
    }
}

/// Classifies a position update for the strategy's symbol: `qty` is the broker position
/// in lots, `existing` whether the broker reports it as held before the session,
/// `reconcile_active` whether a filled bracket leg is still within its settling grace.
pub fn classify_position_update(
    qty: i64,
    existing: bool,
    pending: Option<PendingFill>,
    open: Option<OpenHolding>,
    exit_intent_inflight: bool,
    reconcile_active: bool,
) -> (u: PositionUpdate)
    ensures
        u == spec_position_update(qty, existing, pending, open, exit_intent_inflight, reconcile_active),
{
    if qty == 0 {
        let closing_side = match open {
            Some(o) => Some(o.side.exit_side()),
            None => None,
        };
        return PositionUpdate::BrokerFlat { closing_side };
    }
    let side = if qty > 0 {
        PositionSide::Long
    } else {
        PositionSide::Short
    };
    let size = lots_of(qty);
    if let Some(p) = pending {
        if p.target_qty > 1 {
            if side != p.side || size > p.target_qty {
                return PositionUpdate::PartialEntryInvalid;
            }
            if size < p.target_qty {
                return PositionUpdate::PartialEntryWaiting;
            }
        }
    }
    if open.is_none() && pending.is_none() && !existing {
        return PositionUpdate::UnexpectedResidual { side, size };
    }
    if let Some(o) = open {
        if exit_intent_inflight || reconcile_active {
            return PositionUpdate::AwaitingBrokerFlat;
        }
        if o.owner == Owner::MeanRev && o.size > 0 && (qty > 0) == (o.side == PositionSide::Long)
            && size < o.size {
            return PositionUpdate::BracketPartialProgress;
        }
        let same = if o.side == PositionSide::Long {
            qty > 0 && size == o.size
        } else {
            qty < 0 && size == o.size
        };
        if !same {
            return PositionUpdate::SizeChanged {
                sign_flip: (o.side == PositionSide::Long) != (qty > 0),
                side,
                size,
            };
        }
    }
    PositionUpdate::Opened { side, size }
}

/// A market order that flattens a broker residual.
#[derive(Debug, Clone)]
pub struct ResidualExit {
    pub side: OrderSide,
    pub qty: u64,
    pub comment: String,
}

/// The flattening order for a broker residual of `qty` lots: none while an exit is in
/// flight or the broker is flat; otherwise a market order on the closing side for the
/// whole residual, commented `<symbol>|exit|<reason>`.
pub fn residual_exit_order(symbol: &str, qty: i64, reason: &str, exit_intent_inflight: bool) -> (r:
    Option<ResidualExit>)
    ensures
        (exit_intent_inflight || qty == 0) ==> r is None,
        !(exit_intent_inflight || qty == 0) ==> (r matches Some(e) && e.side == (if qty > 0 {
            OrderSide::Sell
        } else {
            OrderSide::Buy
        }) && e.qty == lots(qty) && e.comment@ == symbol@ + "|exit|"@ + reason@),
{
    if exit_intent_inflight || qty == 0 {
        return None;
    }
    let side = if qty > 0 {
        OrderSide::Sell
    } else {
        OrderSide::Buy
    };
    let a = concat_str(symbol, "|exit|");
    let comment = concat_str(a.as_str(), reason);
    Some(ResidualExit { side, qty: lots_of(qty), comment })
}

/// What the bootstrap snapshot's position for the strategy's symbol means.
#[derive(Debug, Clone, Copy, PartialEq, Eq, Structural)]
pub enum BootstrapPosition {
    /// The snapshot has no position for the symbol: nothing changes.
    Absent,
    /// A position is open: adopt it under the given owner; the owner is confirmed only
    /// when the strategy's own state named it.
    Adopt { owner: Owner, owner_confirmed: bool, side: PositionSide, size: u64 },
    /// Flat and nothing works on the exchange.
    Flat,
    /// Flat but orders still work: block entries until they settle.
    PendingReconcile,
}

/// The meaning of the bootstrap position of `qty` lots, given the owner the strategy's
/// state names (`inferred_owner`) and whether working orders of the symbol were found.
pub open spec fn spec_bootstrap_position(
    qty: Option<i64>,
    inferred_owner: Option<Owner>,
    has_working_orders: bool,
) -> BootstrapPosition {
    match qty {
        None => BootstrapPosition::Absent,
        Some(q) => if q != 0 {
            BootstrapPosition::Adopt {
                owner: match inferred_owner {
                    Some(o) => o,
                    None => Owner::Breakout,
                },
                owner_confirmed: inferred_owner is Some,
                side: if q >= 0 { PositionSide::Long } else { PositionSide::Short },
                size: lots(q) as u64,
            }
        } else if has_working_orders {
            BootstrapPosition::PendingReconcile
        } else {
            BootstrapPosition::Flat
        },
    }
}

/// Classifies the bootstrap snapshot's position for the strategy's symbol.
pub fn classify_bootstrap_position(
    qty: Option<i64>,
    inferred_owner: Option<Owner>,
    has_working_orders: bool,
) -> (b: BootstrapPosition)
    ensures
        b == spec_bootstrap_position(qty, inferred_owner, has_working_orders),
{
    match qty {
        None => BootstrapPosition::Absent,
        Some(q) => {
            if q != 0 {
                let owner = match inferred_owner {
                    Some(o) => o,
                    None => Owner::Breakout,
                };
                BootstrapPosition::Adopt {
                    owner,
                    owner_confirmed: inferred_owner.is_some(),
                    side: snapshot_position_side(q),
                    size: lots_of(q),
                }
            } else if has_working_orders {
                BootstrapPosition::PendingReconcile
            } else {
                BootstrapPosition::Flat
            }
        },
    }
}

/// The take-profit leg among working orders (id and comment, in the order given): the
/// last one whose comment names the take-profit leg.
pub open spec fn spec_adopted_tp(orders: Seq<(i64, Option<Seq<char>>)>) -> Option<i64>
    decreases orders.len(),
{
    if orders.len() == 0 {
        None
    } else {
        let (id, c) = orders.last();
        if c matches Some(t) && contains_seq(t, "|o=MR|r=TP"@) {
            Some(id)
        } else {
            spec_adopted_tp(orders.drop_last())
        }
    }
}

/// The characters of an optional comment.
pub open spec fn comment_chars(c: Option<String>) -> Option<Seq<char>> {
    match c {
        Some(s) => Some(s@),
        None => None,
    }
}

/// Finds the take-profit leg among the working orders of the snapshot.
pub fn adopt_take_profit(orders: &Vec<(i64, Option<String>)>) -> (r: Option<i64>)
    ensures
        r == spec_adopted_tp(orders@.map_values(|o: (i64, Option<String>)| (o.0, comment_chars(o.1)))),
{
    let ghost view = orders@.map_values(|o: (i64, Option<String>)| (o.0, comment_chars(o.1)));
    let mut found: Option<i64> = None;
    let mut i: usize = 0;
    proof {
        assert(view.take(0) =~= Seq::<(i64, Option<Seq<char>>)>::empty());
    }
    while i < orders.len()
        invariant
            i <= orders@.len(),
            view == orders@.map_values(|o: (i64, Option<String>)| (o.0, comment_chars(o.1))),
            found == spec_adopted_tp(view.take(i as int)),
        decreases orders@.len() - i,
    {
        let is_tp = match &orders[i].1 {
            Some(c) => contains_str(c.as_str(), "|o=MR|r=TP"),
            None => false,
        };
        proof {
            assert(view.take(i + 1).drop_last() =~= view.take(i as int));
            assert(view.take(i + 1).last() == view[i as int]);
        }
        if is_tp {
            found = Some(orders[i].0);
        }
        i = i + 1;
    }
    proof {
        assert(view.take(orders@.len() as int) =~= view);
    }
    found
}

/// How the replay guard judges a bar of the configured symbol.
#[derive(Debug, Clone, Copy, PartialEq, Eq, Structural)]
pub enum BarVerdict {
    /// A bar of another symbol, or not later than the last processed one.
    Ignored,
    /// Live execution is switched off.
    LiveExecutionDisabled,
    /// A bar from before the start-up silence limit; `first` for the first such bar.
    ReplayTailSuppressed { first: bool },
    /// Still waiting for a bar from the live feed; `first` for the first such bar.
    AwaitingLiveOrigin { first: bool },
    /// A recovered or replayed bar in a live run; `first` for the first since live-ready.
    RecoveredSuppressed { first: bool },
    /// The bar goes on to the model; `became_live_ready` when it cleared the guard.
    Proceed { became_live_ready: bool },
}

/// The replay guard of the USD/RUB hybrid strategy: which bars reach the model after a
/// start-up, and the stage it records.
#[derive(Debug, Clone)]
pub struct BarGuard {
    pub last_processed_bar_ts: Option<i64>,
    pub last_bar_ts: Option<i64>,
    pub lifecycle_stage: String,
    pub live_ready: bool,
    pub startup_replay_tail_info_emitted: bool,
    pub awaiting_live_bar_info_emitted: bool,
    pub recovered_bar_suppressed_info_emitted: bool,
}

/// The verdict of the replay guard on a bar.
pub open spec fn spec_bar_verdict(
    g: BarGuard,
    same_symbol: bool,
    live_run: bool,
    enable_live_execution: bool,
    now_ts_utc: i64,
    bar_ts: i64,
    origin: DataOrigin,
    max_silence_bars_sec: u64,
) -> BarVerdict {
    let recovered = origin == DataOrigin::History || origin == DataOrigin::HistoryGap || origin
        == DataOrigin::Replay;
    if !same_symbol || (g.last_processed_bar_ts matches Some(l) && bar_ts <= l) {
        BarVerdict::Ignored
    } else if live_run && !enable_live_execution {
        BarVerdict::LiveExecutionDisabled
    } else if live_run && !g.live_ready && clamp_i64(now_ts_utc - bar_ts) > u64_as_i64(
        max_silence_bars_sec,
    ) {
        BarVerdict::ReplayTailSuppressed { first: !g.startup_replay_tail_info_emitted }
    } else if live_run && !g.live_ready && origin != DataOrigin::Live {
        BarVerdict::AwaitingLiveOrigin { first: !g.awaiting_live_bar_info_emitted }
    } else if live_run && g.live_ready && recovered {
        BarVerdict::RecoveredSuppressed { first: !g.recovered_bar_suppressed_info_emitted }
    } else {
        BarVerdict::Proceed { became_live_ready: live_run && !g.live_ready }
    }
}

/// In a live run only bars from the live feed reach the model: a bar from history, a
/// history gap or a replay never goes on, whether or not the guard is live-ready; once it
/// is live-ready such a bar of the symbol, after the last processed one and with live
/// execution on, is suppressed as recovered (its notice first only while none was given).
/// Outside a live run every new bar of the symbol goes on to the model.
pub proof fn lemma_live_model_sees_only_live_bars(
    g: BarGuard,
    same_symbol: bool,
    live_run: bool,
    enable_live_execution: bool,
    now_ts_utc: i64,
    bar_ts: i64,
    origin: DataOrigin,
    max_silence_bars_sec: u64,
)
    ensures
        ({
            let v = spec_bar_verdict(
                g,
                same_symbol,
                live_run,
                enable_live_execution,
                now_ts_utc,
                bar_ts,
                origin,
                max_silence_bars_sec,
            );
            let fresh = same_symbol && !(g.last_processed_bar_ts matches Some(l) && bar_ts <= l);
            &&& live_run && (origin == DataOrigin::History || origin == DataOrigin::HistoryGap
                || origin == DataOrigin::Replay) ==> !(v is Proceed)
            &&& live_run && v is Proceed ==> origin == DataOrigin::Live
            &&& live_run && fresh && enable_live_execution && g.live_ready && origin
                != DataOrigin::Live ==> v == BarVerdict::RecoveredSuppressed {
                first: !g.recovered_bar_suppressed_info_emitted,
            }
            &&& !live_run && fresh ==> v == BarVerdict::Proceed { became_live_ready: false }
        }),
{
}

impl BarGuard {
    /// Re-arms the replay guard after a bootstrap snapshot or a runtime restore: the
    /// strategy waits for a fresh live bar again and each first notice may be given again.
    /// The stage records the event; the bar times seen are kept.
    pub fn rearm(&mut self, stage: &str)
        ensures
            !final(self).live_ready,
            !final(self).startup_replay_tail_info_emitted,
            !final(self).awaiting_live_bar_info_emitted,
            !final(self).recovered_bar_suppressed_info_emitted,
            final(self).lifecycle_stage@ == stage@,
            final(self).last_processed_bar_ts == old(self).last_processed_bar_ts,
            final(self).last_bar_ts == old(self).last_bar_ts,
    {
        self.live_ready = false;
        self.startup_replay_tail_info_emitted = false;
        self.awaiting_live_bar_info_emitted = false;
        self.recovered_bar_suppressed_info_emitted = false;
        self.lifecycle_stage = String::from_str(stage);
    }
}

/// The replay guard after a bar with outcome `v`: an ignored bar leaves it as it was; any
/// other bar sets the last bar time and the stage, and counts as processed unless it goes
/// on to the model.
pub open spec fn guard_stepped(s: BarGuard, f: BarGuard, v: BarVerdict, bar_ts: i64) -> bool {
    &&& v is Ignored ==> f == s
    &&& !(v is Ignored) ==> f.last_bar_ts == Some(bar_ts)
    &&& match v {
        BarVerdict::Ignored => true,
        BarVerdict::LiveExecutionDisabled => {
            &&& f.lifecycle_stage@ == "live"@
            &&& f.last_processed_bar_ts == Some(bar_ts)
            &&& f.live_ready == s.live_ready
        },
        BarVerdict::ReplayTailSuppressed { .. } => {
            &&& f.lifecycle_stage@ == "replay_tail_suppressed"@
            &&& f.startup_replay_tail_info_emitted
            &&& f.last_processed_bar_ts == Some(bar_ts)
            &&& !f.live_ready
        },
        BarVerdict::AwaitingLiveOrigin { .. } => {
            &&& f.lifecycle_stage@ == "awaiting_fresh_live_origin_bar"@
            &&& f.awaiting_live_bar_info_emitted
            &&& f.last_processed_bar_ts == Some(bar_ts)
            &&& !f.live_ready
        },
        BarVerdict::RecoveredSuppressed { .. } => {
            &&& f.lifecycle_stage@ == "recovered_bar_suppressed"@
            &&& f.recovered_bar_suppressed_info_emitted
            &&& f.last_processed_bar_ts == Some(bar_ts)
            &&& f.live_ready
        },
        BarVerdict::Proceed { became_live_ready } => {
            &&& f.lifecycle_stage@ == (if became_live_ready {
                "live_ready"@
            } else {
                "live"@
            })
            &&& f.last_processed_bar_ts == s.last_processed_bar_ts
            &&& f.live_ready == (s.live_ready || became_live_ready)
            &&& became_live_ready ==> !f.recovered_bar_suppressed_info_emitted
        },
    }
}

impl BarGuard {
    /// Judges a bar and records what the guard saw: the bar time, the stage and whether
    /// its first notice was given. Every bar but an ignored one counts as processed, except
    /// that a bar that proceeds is marked processed by the caller once the model ran.
    pub fn gate_bar(
        &mut self,
        symbol: &str,
        bar_symbol: &str,
        live_run: bool,
        enable_live_execution: bool,
        now_ts_utc: i64,
        bar_ts: i64,
        origin: DataOrigin,
        max_silence_bars_sec: u64,
    ) -> (v: BarVerdict)
        ensures
            v == spec_bar_verdict(
                *old(self),
                bar_symbol@ == symbol@,
                live_run,
                enable_live_execution,
                now_ts_utc,
                bar_ts,
                origin,
                max_silence_bars_sec,
            ),
            live_run && origin != DataOrigin::Live ==> !(v is Proceed),
            guard_stepped(*old(self), *final(self), v, bar_ts),
    {
        if !str_eq(bar_symbol, symbol) {
            return BarVerdict::Ignored;
        }
        if let Some(l) = self.last_processed_bar_ts {
            if bar_ts <= l {
                return BarVerdict::Ignored;
            }
        }
        self.lifecycle_stage = String::from_str("live");
        self.last_bar_ts = Some(bar_ts);
        if live_run && !enable_live_execution {
            self.last_processed_bar_ts = Some(bar_ts);
            return BarVerdict::LiveExecutionDisabled;
        }
        let mut became_live_ready = false;
        if live_run && !self.live_ready {
            if is_live_startup_bar_stale(now_ts_utc, bar_ts, max_silence_bars_sec) {
                self.lifecycle_stage = String::from_str("replay_tail_suppressed");
                let first = !self.startup_replay_tail_info_emitted;
                self.startup_replay_tail_info_emitted = true;
                self.last_processed_bar_ts = Some(bar_ts);
                return BarVerdict::ReplayTailSuppressed { first };
            }
            if origin != DataOrigin::Live {
                self.lifecycle_stage = String::from_str("awaiting_fresh_live_origin_bar");
                let first = !self.awaiting_live_bar_info_emitted;
                self.awaiting_live_bar_info_emitted = true;
                self.last_processed_bar_ts = Some(bar_ts);
                return BarVerdict::AwaitingLiveOrigin { first };
            }
            self.live_ready = true;
            self.lifecycle_stage = String::from_str("live_ready");
            self.recovered_bar_suppressed_info_emitted = false;
            became_live_ready = true;
        }
        if live_run && is_recovered_or_non_live_bar_origin(origin) {
            self.lifecycle_stage = String::from_str("recovered_bar_suppressed");
            let first = !self.recovered_bar_suppressed_info_emitted;
            self.recovered_bar_suppressed_info_emitted = true;
            self.last_processed_bar_ts = Some(bar_ts);
            return BarVerdict::RecoveredSuppressed { first };
        }
        BarVerdict::Proceed { became_live_ready }
    }
}

/// The zone offset in seconds for a whole-hour setting: the hours times 3600, saturated,
/// where that is strictly within a day, else zero.
pub open spec fn spec_zone_offset(hours: i32) -> int {
    let s = crate::sat::clamp_i32(hours * 3600);
    if -86400 < s && s < 86400 {
        s
    } else {
        0
    }
}

/// The wall-clock time of a unix timestamp in the zone `timezone_offset_hours` east of UTC
/// (zero where that offset is not within a day). A timestamp outside the calendar reads as
/// 1970-01-01 00:00:00 UTC.
pub fn utc_to_local(ts_utc: i64, timezone_offset_hours: i32) -> (r: LocalDateTime)
    ensures
        r.wf(),
        r.stamp() == ts_utc + spec_zone_offset(timezone_offset_hours) || r.stamp()
            == spec_zone_offset(timezone_offset_hours),
        -TIMESTAMP_LIMIT <= ts_utc <= TIMESTAMP_LIMIT && -TIMESTAMP_LIMIT <= ts_utc
            + spec_zone_offset(timezone_offset_hours) <= TIMESTAMP_LIMIT ==> r.stamp() == ts_utc
            + spec_zone_offset(timezone_offset_hours),
{
    let raw = crate::sat::sat_mul_i32(timezone_offset_hours, 3600);
    let off: i32 = match fixed_offset_secs(raw) {
        Some(v) => v,
        None => 0,
    };
    match shift_timestamp(ts_utc, off as i64) {
        Some(l) => l,
        None => match shift_timestamp(0, off as i64) {
            Some(l) => l,
            None => LocalDateTime { day: 0, secs: 0 },
        },
    }
}

/// Whether a bar at local time `local` lies in the model session, bounds included.
pub fn is_model_session_bar(
    start: crate::clock::TimeOfDay,
    end: crate::clock::TimeOfDay,
    local: crate::clock::LocalDateTime,
) -> (b: bool)
    requires
        local.wf(),
    ensures
        b == (crate::clock::tod_le(start, crate::clock::tod_at(local.secs as int))
            && crate::clock::tod_le(crate::clock::tod_at(local.secs as int), end)),
{
    let t = crate::clock::TimeOfDay { secs: local.secs, frac: 0 };
    start.le(&t) && t.le(&end)
}

/// How a refused command was answered.
#[derive(Debug, Clone, Copy, PartialEq, Eq, Structural)]
pub enum RejectPolicy {
    /// The acknowledgement was not a refusal.
    NotRejected,
    /// A refused exit of an open position is retried after the next bar.
    ExitDeferred,
    /// A refused entry is retried after the next bar.
    EntryDeferred,
    /// Any other refusal clears the in-flight flags.
    ClearedInflight,
}

/// The order tracking of the USD/RUB hybrid strategy: requests and orders in flight, the
/// retry deferrals after refusals, and the mean-reversion bracket.
#[derive(Debug, Clone)]
pub struct OrderTracking {
    pub pending_request_ids: Vec<u128>,
    pub tracked_order_ids: Vec<i64>,
    pub entry_intent_inflight: bool,
    pub entry_reject_deferred_until_bar_ts: Option<i64>,
    pub exit: ExitTracking,
    pub lifecycle_stage: String,
    pub last_bar_ts: Option<i64>,
    pub bracket_terminal_reconcile_started_ms: Option<i64>,
    pub protection: MrProtection,
    pub hybrid_state: HybridState,
}

/// Whether an order status ends the order's tracking.
pub open spec fn spec_untracked_status(st: Seq<char>) -> bool {
    st == "filled"@ || st == "cancelled"@ || st == "canceled"@ || st == "rejected"@
}

/// Whether an order status means the take-profit leg is gone without a fill.
pub open spec fn spec_leg_withdrawn(st: Seq<char>) -> bool {
    st == "cancelled"@ || st == "canceled"@ || st == "rejected"@ || st == "expired"@
}

/// The order tracking `f` after an acknowledgement over `s` with outcome `p` (see `on_ack`).
pub open spec fn ack_applied(
    s: OrderTracking,
    f: OrderTracking,
    p: RejectPolicy,
    request_id: u128,
    broker_order_id: Option<i64>,
    status: crate::host::AckStatus,
    has_open_position: bool,
    has_pending_entry: bool,
) -> bool {
    &&& f.pending_request_ids@.to_set() == s.pending_request_ids@.to_set().remove(request_id)
    &&& f.tracked_order_ids@.to_set() == (match broker_order_id {
        Some(id) => s.tracked_order_ids@.to_set().insert(id),
        None => s.tracked_order_ids@.to_set()
    })
    &&& f.last_bar_ts == s.last_bar_ts
    &&& f.bracket_terminal_reconcile_started_ms == s.bracket_terminal_reconcile_started_ms
    &&& f.protection == s.protection
    &&& f.hybrid_state == s.hybrid_state
    &&& ({
        let ts = match s.last_bar_ts {
            Some(t) => t,
            None => 0,
        };
        if crate::host::ack_is_positive(status) {
            &&& p == RejectPolicy::NotRejected
            &&& f.entry_intent_inflight == s.entry_intent_inflight
            &&& f.exit == s.exit
            &&& f.entry_reject_deferred_until_bar_ts == s.entry_reject_deferred_until_bar_ts
            &&& f.lifecycle_stage == s.lifecycle_stage
        } else {
            &&& !f.entry_intent_inflight && !f.exit.exit_intent_inflight
            &&& if s.exit.exit_intent_inflight && has_open_position {
                &&& p == RejectPolicy::ExitDeferred
                &&& f.exit.exit_reject_deferred_until_bar_ts == Some(ts)
                &&& f.entry_reject_deferred_until_bar_ts == s.entry_reject_deferred_until_bar_ts
                &&& f.lifecycle_stage@ == "exit_reject_deferred_retry"@
            } else if s.entry_intent_inflight && has_pending_entry {
                &&& p == RejectPolicy::EntryDeferred
                &&& f.entry_reject_deferred_until_bar_ts == Some(ts)
                &&& f.exit.exit_reject_deferred_until_bar_ts == s.exit.exit_reject_deferred_until_bar_ts
                &&& f.lifecycle_stage@ == "entry_reject_deferred_retry"@
            } else {
                &&& p == RejectPolicy::ClearedInflight
                &&& f.entry_reject_deferred_until_bar_ts == s.entry_reject_deferred_until_bar_ts
                &&& f.exit.exit_reject_deferred_until_bar_ts == s.exit.exit_reject_deferred_until_bar_ts
                &&& f.lifecycle_stage@ == "broker_ack_rejected"@
            }
        }
    })
}

/// The order tracking `f` after an order update over `s` (see `on_order`): one of another
/// symbol or without a broker id changes nothing.
pub open spec fn order_applied(
    s: OrderTracking,
    f: OrderTracking,
    same_symbol: bool,
    order_id: i64,
    request_id: Option<u128>,
    status: Seq<char>,
    comment: Option<Seq<char>>,
    mr_position_open: bool,
    has_open_position: bool,
    has_pending_entry: bool,
    now_ms: i64,
) -> bool {
    if !(same_symbol && order_id > 0) {
        f == s
    } else {
        let st = ascii_lower_seq(status);
        let is_tp = mr_position_open && (match comment {
            Some(c) => contains_seq(c, "|o=MR|r=TP"@),
            None => false,
        });
        let tp_filled = is_tp && st == "filled"@;
        let ids = if spec_untracked_status(st) {
            s.tracked_order_ids@.to_set().insert(order_id).remove(order_id)
        } else {
            s.tracked_order_ids@.to_set().insert(order_id)
        };
        let settled = ids.len() == 0 && !has_open_position;
        &&& f.tracked_order_ids@.to_set() == ids
        &&& f.pending_request_ids@.to_set() == (match request_id {
            Some(r) => s.pending_request_ids@.to_set().remove(r),
            None => s.pending_request_ids@.to_set(),
        })
        &&& f.protection.pending_tp_bar_ts_utc == (if is_tp {
            None
        } else {
            s.protection.pending_tp_bar_ts_utc
        })
        &&& f.protection.tp_order_id == (if is_tp {
            if st == "filled"@ || spec_leg_withdrawn(st) {
                None
            } else {
                Some(order_id)
            }
        } else {
            s.protection.tp_order_id
        })
        &&& f.protection.pending_sl_bar_ts_utc == s.protection.pending_sl_bar_ts_utc
        &&& f.protection.sl_stop_order_id == s.protection.sl_stop_order_id
        &&& f.protection.sl_exchange_order_id == s.protection.sl_exchange_order_id
        &&& f.bracket_terminal_reconcile_started_ms == (if tp_filled {
            Some(now_ms)
        } else {
            s.bracket_terminal_reconcile_started_ms
        })
        &&& f.exit.exit_intent_inflight == (tp_filled || s.exit.exit_intent_inflight)
        &&& f.exit.exit_reject_deferred_until_bar_ts == s.exit.exit_reject_deferred_until_bar_ts
        &&& (tp_filled ==> f.lifecycle_stage@ == "mr_tp_filled_awaiting_broker_flat"@)
        &&& (!tp_filled ==> f.lifecycle_stage == s.lifecycle_stage)
        &&& f.entry_intent_inflight == (if settled { false } else { s.entry_intent_inflight })
        &&& f.hybrid_state == (if settled && !has_pending_entry {
            HybridState::Flat
        } else {
            s.hybrid_state
        })
        &&& f.entry_reject_deferred_until_bar_ts == s.entry_reject_deferred_until_bar_ts
        &&& f.last_bar_ts == s.last_bar_ts
    }
}

/// The order tracking `f` and cleanup `r` after a stop-order update over `s` (see
/// `on_stop_order`): one that does not apply changes nothing.
pub open spec fn stop_order_applied(
    s: OrderTracking,
    f: OrderTracking,
    r: Vec<CleanupIntent>,
    applies: bool,
    stop_order_id: Seq<char>,
    status: Seq<char>,
    exchange_order_id: Option<i64>,
    now_ms: i64,
) -> bool {
    if !applies {
        r@.len() == 0 && f == s
    } else {
        let st = ascii_lower_seq(status);
        let fired = spec_stop_fired(st);
        let finished = fired || spec_stop_withdrawn(st);
        &&& r@.map_values(|x: CleanupIntent| x@) =~= (if fired {
            spec_cleanup(s.protection.tp_order_id, None, None, None)
        } else {
            Seq::empty()
        })
        &&& f.protection.pending_sl_bar_ts_utc is None
        &&& f.protection.pending_tp_bar_ts_utc == s.protection.pending_tp_bar_ts_utc
        &&& f.protection.tp_order_id == (if fired { None } else { s.protection.tp_order_id })
        &&& (if finished {
            f.protection.sl_stop_order_id is None
        } else if trim_seq(stop_order_id).len() > 0 {
            f.protection.sl_stop_order_id matches Some(x) && x@ == stop_order_id
        } else {
            f.protection.sl_stop_order_id == s.protection.sl_stop_order_id
        })
        &&& f.protection.sl_exchange_order_id == (if spec_stop_withdrawn(st) {
            None
        } else if exchange_order_id is Some {
            exchange_order_id
        } else {
            s.protection.sl_exchange_order_id
        })
        &&& f.bracket_terminal_reconcile_started_ms == (if fired {
            Some(now_ms)
        } else {
            s.bracket_terminal_reconcile_started_ms
        })
        &&& f.exit.exit_intent_inflight == (fired || s.exit.exit_intent_inflight)
        &&& f.exit.exit_reject_deferred_until_bar_ts == s.exit.exit_reject_deferred_until_bar_ts
        &&& (fired ==> f.lifecycle_stage@ == "mr_sl_filled_awaiting_broker_flat"@)
        &&& (!fired ==> f.lifecycle_stage == s.lifecycle_stage)
        &&& f.pending_request_ids == s.pending_request_ids
        &&& f.tracked_order_ids == s.tracked_order_ids
        &&& f.entry_intent_inflight == s.entry_intent_inflight
        &&& f.entry_reject_deferred_until_bar_ts == s.entry_reject_deferred_until_bar_ts
        &&& f.last_bar_ts == s.last_bar_ts
        &&& f.hybrid_state == s.hybrid_state
    }
}

impl OrderTracking {
    /// Handles an acknowledgement: the request is no longer pending and a reported broker
    /// order is tracked. A refusal of an exit of an open position defers the exit to
    /// after the last bar seen; a refusal of a pending entry defers the entry the same
    /// way; any other refusal clears the in-flight flags.
    pub fn on_ack(
        &mut self,
        request_id: u128,
        broker_order_id: Option<i64>,
        status: crate::host::AckStatus,
        has_open_position: bool,
        has_pending_entry: bool,
    ) -> (p: RejectPolicy)
        ensures
            ack_applied(*old(self), *final(self), p, request_id, broker_order_id, status, has_open_position, has_pending_entry),
    {
        set_remove_request(&mut self.pending_request_ids, request_id);
        if let Some(id) = broker_order_id {
            set_insert_id(&mut self.tracked_order_ids, id);
        }
        if crate::host::is_positive_ack(status) {
            return RejectPolicy::NotRejected;
        }
        let reject_ts: i64 = match self.last_bar_ts {
            Some(t) => t,
            None => 0,
        };
        if self.exit.exit_intent_inflight && has_open_position {
            self.entry_intent_inflight = false;
            self.exit.exit_intent_inflight = false;
            self.exit.exit_reject_deferred_until_bar_ts = Some(reject_ts);
            self.lifecycle_stage = String::from_str("exit_reject_deferred_retry");
            RejectPolicy::ExitDeferred
        } else if self.entry_intent_inflight && has_pending_entry {
            self.entry_intent_inflight = false;
            self.exit.exit_intent_inflight = false;
            self.entry_reject_deferred_until_bar_ts = Some(reject_ts);
            self.lifecycle_stage = String::from_str("entry_reject_deferred_retry");
            RejectPolicy::EntryDeferred
        } else {
            self.entry_intent_inflight = false;
            self.exit.exit_intent_inflight = false;
            self.lifecycle_stage = String::from_str("broker_ack_rejected");
            RejectPolicy::ClearedInflight
        }
    }

    /// Handles an order update of the strategy's symbol with a broker id: the order is
    /// tracked until it finishes and its request is no longer pending. With a
    /// mean-reversion position open, the take-profit leg is recorded; its fill starts the
    /// settling grace at `now_ms` and waits for the broker to report flat. When nothing is
    /// tracked and no position is open, entries are no longer in flight.
    pub fn on_order(
        &mut self,
        same_symbol: bool,
        order_id: i64,
        request_id: Option<u128>,
        status: &str,
        comment: Option<&str>,
        mr_position_open: bool,
        has_open_position: bool,
        has_pending_entry: bool,
        now_ms: i64,
    )
        ensures
            order_applied(
                *old(self),
                *final(self),
                same_symbol,
                order_id,
                request_id,
                status@,
                match comment {
                    Some(c) => Some(c@),
                    None => None,
                },
                mr_position_open,
                has_open_position,
                has_pending_entry,
                now_ms,
            ),
    {
        if !(same_symbol && order_id > 0) {
            return;
        }
        set_insert_id(&mut self.tracked_order_ids, order_id);
        if let Some(r) = request_id {
            set_remove_request(&mut self.pending_request_ids, r);
        }
        let st = lowered(&chars_of(status));
        let filled = crate::text::chars_eq_str(&st, "filled");
        let withdrawn = crate::text::chars_eq_str(&st, "cancelled") || crate::text::chars_eq_str(
            &st,
            "canceled",
        ) || crate::text::chars_eq_str(&st, "rejected") || crate::text::chars_eq_str(&st, "expired");
        if mr_position_open {
            let role = parse_mr_protection_role(comment);
            if role == Some(ProtectionRole::Tp) {
                self.protection.pending_tp_bar_ts_utc = None;
                self.protection.tp_order_id = Some(order_id);
                if filled {
                    self.bracket_terminal_reconcile_started_ms = Some(now_ms);
                    self.exit.exit_intent_inflight = true;
                    self.lifecycle_stage = String::from_str("mr_tp_filled_awaiting_broker_flat");
                    self.protection.tp_order_id = None;
                } else if withdrawn {
                    self.protection.tp_order_id = None;
                }
            }
        }
        let untracked = filled || crate::text::chars_eq_str(&st, "cancelled")
            || crate::text::chars_eq_str(&st, "canceled") || crate::text::chars_eq_str(
            &st,
            "rejected",
        );
        if untracked {
            set_remove_id(&mut self.tracked_order_ids, order_id);
        }
        if self.tracked_order_ids.len() == 0 && !has_open_position {
            self.entry_intent_inflight = false;
            if !has_pending_entry {
                self.hybrid_state = HybridState::Flat;
            }
        }
        proof {
            let ids = self.tracked_order_ids@.to_set();
            if self.tracked_order_ids@.len() == 0 {
                assert(ids =~= Set::<i64>::empty());
            } else {
                assert(ids.contains(self.tracked_order_ids@[0]));
            }
        }
    }

    /// Handles a stop-order update of the strategy's symbol that names the stop-loss leg
    /// while a mean-reversion position is open: the leg and its exchange order are
    /// recorded; a fired stop starts the settling grace at `now_ms`, waits for flat and
    /// cancels the take-profit (returned as cleanup).
    pub fn on_stop_order(
        &mut self,
        applies: bool,
        stop_order_id: &str,
        status: &str,
        exchange_order_id: Option<i64>,
        now_ms: i64,
    ) -> (r: Vec<CleanupIntent>)
        ensures
            stop_order_applied(*old(self), *final(self), r, applies, stop_order_id@, status@, exchange_order_id, now_ms),
    {
        if !applies {
            return Vec::new();
        }
        let st = lowered(&chars_of(status));
        let fired = crate::text::chars_eq_str(&st, "filled") || crate::text::chars_eq_str(
            &st,
            "executed",
        ) || crate::text::chars_eq_str(&st, "triggered") || crate::text::chars_eq_str(&st, "done")
            || crate::text::chars_eq_str(&st, "completed");
        let withdrawn = crate::text::chars_eq_str(&st, "cancelled") || crate::text::chars_eq_str(
            &st,
            "canceled",
        ) || crate::text::chars_eq_str(&st, "rejected") || crate::text::chars_eq_str(&st, "expired");
        self.protection.pending_sl_bar_ts_utc = None;
        if trimmed(stop_order_id).len() > 0 {
            self.protection.sl_stop_order_id = Some(String::from_str(stop_order_id));
        }
        if let Some(e) = exchange_order_id {
            self.protection.sl_exchange_order_id = Some(e);
        }
        let mut cleanup: Vec<CleanupIntent> = Vec::new();
        if fired {
            self.bracket_terminal_reconcile_started_ms = Some(now_ms);
            self.exit.exit_intent_inflight = true;
            self.lifecycle_stage = String::from_str("mr_sl_filled_awaiting_broker_flat");
            let tp = self.protection.tp_order_id.take();
            cleanup = cleanup_intents(tp, None, None, None);
        }
        if fired || withdrawn {
            self.protection.sl_stop_order_id = None;
        }
        if withdrawn {
            self.protection.sl_exchange_order_id = None;
        }
        cleanup
    }

    /// Forgets the retry deferrals whose bar has passed.
    pub fn clear_expired_deferrals(&mut self, bar_ts: i64)
        ensures
            final(self).entry_reject_deferred_until_bar_ts == (match old(
                self,
            ).entry_reject_deferred_until_bar_ts {
                Some(t) => if bar_ts > t { None } else { Some(t) },
                None => None,
            }),
            final(self).exit.exit_reject_deferred_until_bar_ts == (match old(
                self,
            ).exit.exit_reject_deferred_until_bar_ts {
                Some(t) => if bar_ts > t { None } else { Some(t) },
                None => None,
            }),
            final(self).exit.exit_intent_inflight == old(self).exit.exit_intent_inflight,
            final(self).pending_request_ids == old(self).pending_request_ids,
            final(self).tracked_order_ids == old(self).tracked_order_ids,
            final(self).entry_intent_inflight == old(self).entry_intent_inflight,
            final(self).lifecycle_stage == old(self).lifecycle_stage,
            final(self).last_bar_ts == old(self).last_bar_ts,
            final(self).bracket_terminal_reconcile_started_ms == old(
                self,
            ).bracket_terminal_reconcile_started_ms,
            final(self).protection == old(self).protection,
            final(self).hybrid_state == old(self).hybrid_state,
    {
        if let Some(t) = self.entry_reject_deferred_until_bar_ts {
            if bar_ts > t {
                self.entry_reject_deferred_until_bar_ts = None;
            }
        }
        if let Some(t) = self.exit.exit_reject_deferred_until_bar_ts {
            if bar_ts > t {
                self.exit.exit_reject_deferred_until_bar_ts = None;
            }
        }
    }
}


/// The orders that flatten a broker residual: cancels of the protection left on the
/// exchange, then the market exit.
#[derive(Debug, Clone)]
pub struct EmergencyExit {
    pub cleanup: Vec<CleanupIntent>,
    pub exit: ResidualExit,
}

/// What the periodic timer decided.
#[derive(Debug, Clone)]
pub enum TimerOutcome {
    /// Nothing to do.
    Idle,
    /// The grace after a filled bracket leg ran out with a residual left: flatten it.
    ReconcileTimeout { flatten: EmergencyExit },
    /// A partially filled entry waited too long: cancel its tracked orders and flatten what
    /// filled; the pending entry is dropped.
    PartialEntryTimeout { cancel_order_ids: Vec<i64>, flatten: Option<EmergencyExit> },
}

/// How long a partially filled entry may wait for the rest of its fill, in milliseconds.
pub const PARTIAL_ENTRY_TIMEOUT_MS: i64 = 3000;

/// The side that closes a residual of `qty` lots (positive long).
pub open spec fn closing_side(qty: i64) -> OrderSide {
    if qty > 0 {
        OrderSide::Sell
    } else {
        OrderSide::Buy
    }
}

/// `f` is `s` after flattening a residual of `qty` lots for `reason`: the protection is
/// cancelled and forgotten and an exit is in flight.
pub open spec fn flattened(
    s: OrderTracking,
    f: OrderTracking,
    e: EmergencyExit,
    symbol: Seq<char>,
    qty: i64,
    reason: Seq<char>,
) -> bool {
    &&& e.cleanup@.map_values(|c: CleanupIntent| c@) == spec_cleanup(
        s.protection.tp_order_id,
        opt_chars(s.protection.sl_stop_order_id),
        s.protection.sl_exchange_order_id,
        Some(closing_side(qty)),
    )
    &&& e.exit.side == closing_side(qty)
    &&& e.exit.qty == lots(qty)
    &&& e.exit.comment@ == symbol + "|exit|"@ + reason
    &&& f.protection.pending_tp_bar_ts_utc is None
    &&& f.protection.pending_sl_bar_ts_utc is None
    &&& f.protection.tp_order_id is None
    &&& f.protection.sl_stop_order_id is None
    &&& f.protection.sl_exchange_order_id is None
    &&& f.exit.exit_intent_inflight
    &&& f.exit.exit_reject_deferred_until_bar_ts == s.exit.exit_reject_deferred_until_bar_ts
    &&& f.pending_request_ids == s.pending_request_ids
    &&& f.tracked_order_ids == s.tracked_order_ids
    &&& f.entry_intent_inflight == s.entry_intent_inflight
    &&& f.entry_reject_deferred_until_bar_ts == s.entry_reject_deferred_until_bar_ts
    &&& f.last_bar_ts == s.last_bar_ts
    &&& f.hybrid_state == s.hybrid_state
}

/// What one timer round does to the order tracking: an expired bracket grace with a
/// residual flattens it; otherwise a partly filled multi-lot entry that waited too long is
/// given up; otherwise nothing happens but the grace running out.
pub open spec fn timer_stepped(
    s: OrderTracking,
    f: OrderTracking,
    r: TimerOutcome,
    symbol: Seq<char>,
    position_qty: i64,
    now_ms: i64,
    pending_target_qty: Option<u64>,
    partial_started_ms: Option<i64>,
) -> bool {
    let reconcile_due = s.bracket_terminal_reconcile_started_ms matches Some(started)
        && clamp_i64(now_ms - started) >= BRACKET_TERMINAL_RECONCILE_GRACE_MS
        && position_qty != 0;
    let partial_due = match (pending_target_qty, partial_started_ms) {
        (Some(t), Some(p)) => t > 1 && position_qty != 0 && clamp_i64(now_ms - p)
            >= PARTIAL_ENTRY_TIMEOUT_MS,
        _ => false,
    };
    if reconcile_due {
        r matches TimerOutcome::ReconcileTimeout { flatten } && flattened(
            s,
            f,
            flatten,
            symbol,
            position_qty,
            "bracket_terminal_reconcile_timeout"@,
        ) && f.bracket_terminal_reconcile_started_ms is None
            && f.lifecycle_stage@ == "bracket_terminal_reconcile_timeout"@
    } else if partial_due {
        &&& r matches TimerOutcome::PartialEntryTimeout { cancel_order_ids, flatten }
        &&& cancel_order_ids@ == s.tracked_order_ids@
        &&& (match flatten {
            Some(e) => !s.exit.exit_intent_inflight && flattened(
                s,
                f,
                e,
                symbol,
                position_qty,
                "partial_entry_fill_timeout"@,
            ),
            None => s.exit.exit_intent_inflight && f.protection == s.protection
                && f.exit == s.exit,
        })
        &&& f.lifecycle_stage@ == "partial_entry_timeout_flatten"@
        &&& f.tracked_order_ids == s.tracked_order_ids
        &&& f.bracket_terminal_reconcile_started_ms == (
        match s.bracket_terminal_reconcile_started_ms {
            Some(started) => if clamp_i64(now_ms - started)
                >= BRACKET_TERMINAL_RECONCILE_GRACE_MS {
                None
            } else {
                Some(started)
            },
            None => None,
        })
    } else {
        &&& r is Idle
        &&& f.protection == s.protection
        &&& f.exit == s.exit
        &&& f.lifecycle_stage == s.lifecycle_stage
        &&& f.tracked_order_ids == s.tracked_order_ids
        &&& f.bracket_terminal_reconcile_started_ms == (
        match s.bracket_terminal_reconcile_started_ms {
            Some(started) => if clamp_i64(now_ms - started)
                >= BRACKET_TERMINAL_RECONCILE_GRACE_MS {
                None
            } else {
                Some(started)
            },
            None => None,
        })
    }
}

impl OrderTracking {
    /// Flattens a broker residual of `qty` lots (positive long) for `reason`: nothing while
    /// an exit is in flight or the broker is flat; otherwise the protection is cancelled,
    /// a market exit of the whole residual is issued and the exit is in flight.
    pub fn emit_broker_residual_emergency_exit(&mut self, symbol: &str, qty: i64, reason: &str) -> (r:
        Option<EmergencyExit>)
        ensures
            (old(self).exit.exit_intent_inflight || qty == 0) ==> {
                &&& r is None
                &&& final(self).protection == old(self).protection
                &&& final(self).exit == old(self).exit
                &&& final(self).lifecycle_stage == old(self).lifecycle_stage
            },
            !(old(self).exit.exit_intent_inflight || qty == 0) ==> {
                &&& r matches Some(e) && flattened(*old(self), *final(self), e, symbol@, qty, reason@)
                &&& final(self).lifecycle_stage@ == reason@
            },
            final(self).bracket_terminal_reconcile_started_ms == old(self).bracket_terminal_reconcile_started_ms,
            final(self).pending_request_ids == old(self).pending_request_ids,
            final(self).tracked_order_ids == old(self).tracked_order_ids,
            final(self).entry_intent_inflight == old(self).entry_intent_inflight,
            final(self).entry_reject_deferred_until_bar_ts == old(self).entry_reject_deferred_until_bar_ts,
            final(self).last_bar_ts == old(self).last_bar_ts,
            final(self).hybrid_state == old(self).hybrid_state,
    {
        let exit = match residual_exit_order(symbol, qty, reason, self.exit.exit_intent_inflight) {
            Some(e) => e,
            None => {
                return None;
            },
        };
        let cleanup = self.protection.emit_cancel_all_protection(Some(exit.side));
        self.exit.exit_intent_inflight = true;
        self.lifecycle_stage = String::from_str(reason);
        Some(EmergencyExit { cleanup, exit })
    }

    /// Once the grace after a filled bracket leg has run out at `now_ms`, ends it: with the
    /// broker flat nothing else happens; with a residual of `position_qty` lots the exit is
    /// no longer counted in flight and the residual is flattened.
    pub fn emit_bracket_reconcile_timeout_exit(&mut self, symbol: &str, position_qty: i64, now_ms: i64) -> (r:
        Option<EmergencyExit>)
        ensures
            ({
                let s = *old(self);
                let f = *final(self);
                match s.bracket_terminal_reconcile_started_ms {
                    None => r is None && f == s,
                    Some(started) => if clamp_i64(now_ms - started) < BRACKET_TERMINAL_RECONCILE_GRACE_MS {
                        r is None && f == s
                    } else if position_qty == 0 {
                        &&& r is None
                        &&& f.bracket_terminal_reconcile_started_ms is None
                        &&& f.protection == s.protection
                        &&& f.exit == s.exit
                        &&& f.lifecycle_stage == s.lifecycle_stage
                        &&& f.pending_request_ids == s.pending_request_ids
                        &&& f.tracked_order_ids == s.tracked_order_ids
                        &&& f.entry_intent_inflight == s.entry_intent_inflight
                        &&& f.entry_reject_deferred_until_bar_ts == s.entry_reject_deferred_until_bar_ts
                        &&& f.last_bar_ts == s.last_bar_ts
                        &&& f.hybrid_state == s.hybrid_state
                    } else {
                        &&& r matches Some(e) && flattened(
                            s,
                            f,
                            e,
                            symbol@,
                            position_qty,
                            "bracket_terminal_reconcile_timeout"@,
                        )
                        &&& f.bracket_terminal_reconcile_started_ms is None
                        &&& f.lifecycle_stage@ == "bracket_terminal_reconcile_timeout"@
                    },
                }
            }),
    {
        let started = match self.bracket_terminal_reconcile_started_ms {
            Some(s) => s,
            None => {
                return None;
            },
        };
        if sat_sub_i64(now_ms, started) < BRACKET_TERMINAL_RECONCILE_GRACE_MS {
            return None;
        }
        self.bracket_terminal_reconcile_started_ms = None;
        if position_qty == 0 {
            return None;
        }
        self.exit.exit_intent_inflight = false;
        self.emit_broker_residual_emergency_exit(symbol, position_qty, "bracket_terminal_reconcile_timeout")
    }

    /// The periodic timer at `now_ms` with the broker holding `position_qty` lots. An
    /// expired bracket grace with a residual flattens it. Otherwise a pending entry whose
    /// target is more than one lot, which filled partly at `partial_started_ms` and has
    /// waited at least `PARTIAL_ENTRY_TIMEOUT_MS` with a position open, is given up: its
    /// tracked orders are cancelled, the residual is flattened and the stage records the
    /// timeout.
    pub fn on_timer(
        &mut self,
        symbol: &str,
        position_qty: i64,
        now_ms: i64,
        pending_target_qty: Option<u64>,
        partial_started_ms: Option<i64>,
    ) -> (r: TimerOutcome)
        ensures
            timer_stepped(
                *old(self),
                *final(self),
                r,
                symbol@,
                position_qty,
                now_ms,
                pending_target_qty,
                partial_started_ms,
            ),
            final(self).pending_request_ids == old(self).pending_request_ids,
            final(self).entry_intent_inflight == old(self).entry_intent_inflight,
            final(self).entry_reject_deferred_until_bar_ts == old(self).entry_reject_deferred_until_bar_ts,
            final(self).last_bar_ts == old(self).last_bar_ts,
            final(self).hybrid_state == old(self).hybrid_state,
    {
        let reconcile = self.emit_bracket_reconcile_timeout_exit(symbol, position_qty, now_ms);
        match reconcile {
            Some(flatten) => {
                return TimerOutcome::ReconcileTimeout { flatten };
            },
            None => {},
        }
        let target = match pending_target_qty {
            Some(t) => t,
            None => {
                return TimerOutcome::Idle;
            },
        };
        let started_at_ms = match partial_started_ms {
            Some(p) => p,
            None => {
                return TimerOutcome::Idle;
            },
        };
        if target <= 1 || position_qty == 0 || sat_sub_i64(now_ms, started_at_ms)
            < PARTIAL_ENTRY_TIMEOUT_MS {
            return TimerOutcome::Idle;
        }
        let mut cancel_order_ids: Vec<i64> = Vec::new();
        let mut i: usize = 0;
        while i < self.tracked_order_ids.len()
            invariant
                i <= self.tracked_order_ids@.len(),
                cancel_order_ids@ == self.tracked_order_ids@.take(i as int),
            decreases self.tracked_order_ids@.len() - i,
        {
            cancel_order_ids.push(self.tracked_order_ids[i]);
            proof {
                assert(self.tracked_order_ids@.take(i + 1) =~= self.tracked_order_ids@.take(
                    i as int,
                ).push(self.tracked_order_ids@[i as int]));
            }
            i = i + 1;
        }
        proof {
            assert(self.tracked_order_ids@.take(self.tracked_order_ids@.len() as int)
                =~= self.tracked_order_ids@);
        }
        let flatten = self.emit_broker_residual_emergency_exit(
            symbol,
            position_qty,
            "partial_entry_fill_timeout",
        );
        self.lifecycle_stage = String::from_str("partial_entry_timeout_flatten");
        TimerOutcome::PartialEntryTimeout { cancel_order_ids, flatten }
    }
}


/// The owner that the strategy's own state names: the open position's, else the pending
/// entry's.
pub fn infer_owner_from_existing_state(open_owner: Option<Owner>, pending_owner: Option<Owner>) -> (r:
    Option<Owner>)
    ensures
        r == (if open_owner is Some {
            open_owner
        } else {
            pending_owner
        }),
{
    match open_owner {
        Some(o) => Some(o),
        None => pending_owner,
    }
}

/// The owner to credit a broker position to when its comment names none: the owner the
/// strategy's state names, else breakout.
pub fn snapshot_owner_fallback(open_owner: Option<Owner>, pending_owner: Option<Owner>) -> (r: Owner)
    ensures
        r == (match open_owner {
            Some(o) => o,
            None => match pending_owner {
                Some(o) => o,
                None => Owner::Breakout,
            },
        }),
{
    match infer_owner_from_existing_state(open_owner, pending_owner) {
        Some(o) => o,
        None => Owner::Breakout,
    }
}

/// Whether a broker position of `broker_qty` lots (positive long) shows a mean-reversion
/// bracket partly filled: the open position is mean reversion, and the broker still holds
/// some of it on the same side, but less than its `size` lots.
pub fn mr_bracket_protective_partial_progress(
    owner: Owner,
    side: PositionSide,
    size: u64,
    broker_qty: i64,
) -> (b: bool)
    ensures
        b == (owner == Owner::MeanRev && size > 0 && broker_qty != 0 && ((side == PositionSide::Long)
            == (broker_qty > 0)) && lots(broker_qty) < size),
{
    if owner != Owner::MeanRev || broker_qty == 0 || size == 0 {
        return false;
    }
    let same_side = match side {
        PositionSide::Long => broker_qty > 0,
        PositionSide::Short => broker_qty < 0,
    };
    same_side && lots_of(broker_qty) < size
}

impl OrderTracking {
    /// A mean-reversion bracket filled partly: the settling grace starts at `now_ms` and
    /// the exit counts as in flight until the broker reports flat.
    pub fn mark_mr_bracket_partial_reconcile(&mut self, now_ms: i64)
        ensures
            final(self).bracket_terminal_reconcile_started_ms == Some(now_ms),
            final(self).exit.exit_intent_inflight,
            final(self).exit.exit_reject_deferred_until_bar_ts == old(self).exit.exit_reject_deferred_until_bar_ts,
            final(self).lifecycle_stage@ == "mr_bracket_partial_awaiting_broker_flat"@,
            final(self).protection == old(self).protection,
            final(self).pending_request_ids == old(self).pending_request_ids,
            final(self).tracked_order_ids == old(self).tracked_order_ids,
            final(self).entry_intent_inflight == old(self).entry_intent_inflight,
            final(self).entry_reject_deferred_until_bar_ts == old(self).entry_reject_deferred_until_bar_ts,
            final(self).last_bar_ts == old(self).last_bar_ts,
            final(self).hybrid_state == old(self).hybrid_state,
    {
        self.bracket_terminal_reconcile_started_ms = Some(now_ms);
        self.exit.exit_intent_inflight = true;
        self.lifecycle_stage = String::from_str("mr_bracket_partial_awaiting_broker_flat");
    }
}


/// The orders a position update sends: cancels of the bracket when the broker went flat,
/// or the flattening of a residual.
#[derive(Debug, Clone)]
pub struct PositionActions {
    pub cleanup: Vec<CleanupIntent>,
    pub flatten: Option<EmergencyExit>,
}

/// The reason a residual is flattened for, by the kind of update.
pub open spec fn flatten_reason(u: PositionUpdate) -> Seq<char> {
    match u {
        PositionUpdate::PartialEntryInvalid => "partial_entry_invalid"@,
        PositionUpdate::UnexpectedResidual { .. } => "unexpected_broker_residual"@,
        PositionUpdate::SizeChanged { sign_flip, .. } => if sign_flip {
            "broker_position_sign_flip"@
        } else {
            "broker_position_size_changed"@
        },
        _ => Seq::empty(),
    }
}

/// Whether an update flattens a residual.
pub open spec fn flattens(u: PositionUpdate) -> bool {
    u is PartialEntryInvalid || u is UnexpectedResidual || u is SizeChanged
}

/// `f` is `s` with its order tracking fields and protection as they were.
pub open spec fn same_tracking(s: OrderTracking, f: OrderTracking) -> bool {
    &&& f.pending_request_ids == s.pending_request_ids
    &&& f.entry_reject_deferred_until_bar_ts == s.entry_reject_deferred_until_bar_ts
    &&& f.exit.exit_reject_deferred_until_bar_ts == s.exit.exit_reject_deferred_until_bar_ts
    &&& f.last_bar_ts == s.last_bar_ts
}

/// `f` is `s` after carrying out a position update of `qty` lots, with the orders `r`.
pub open spec fn position_applied(
    s: OrderTracking,
    f: OrderTracking,
    r: PositionActions,
    symbol: Seq<char>,
    qty: i64,
    update: PositionUpdate,
    opened_owner: Owner,
    has_pending_entry: bool,
    now_ms: i64,
) -> bool {
    &&& same_tracking(s, f)
    &&& match update {
        PositionUpdate::BrokerFlat { closing_side } => {
            &&& r.flatten is None
            &&& r.cleanup@.map_values(|c: CleanupIntent| c@) == spec_cleanup(
                s.protection.tp_order_id,
                opt_chars(s.protection.sl_stop_order_id),
                s.protection.sl_exchange_order_id,
                closing_side,
            )
            &&& f.protection.tp_order_id is None
            &&& f.protection.sl_stop_order_id is None
            &&& f.protection.sl_exchange_order_id is None
            &&& f.protection.pending_tp_bar_ts_utc is None
            &&& f.protection.pending_sl_bar_ts_utc is None
            &&& !f.exit.exit_intent_inflight
            &&& f.bracket_terminal_reconcile_started_ms is None
            &&& f.tracked_order_ids@.len() == 0
            &&& f.hybrid_state == (if has_pending_entry {
                HybridState::Pending
            } else {
                HybridState::Flat
            })
            &&& f.lifecycle_stage@ == "broker_position_flat"@
            &&& f.entry_intent_inflight == s.entry_intent_inflight
        },
        PositionUpdate::PartialEntryInvalid | PositionUpdate::UnexpectedResidual { .. }
        | PositionUpdate::SizeChanged { .. } => {
            &&& r.cleanup@.len() == 0
            &&& if s.exit.exit_intent_inflight {
                &&& r.flatten is None
                &&& f.protection == s.protection
                &&& f.exit == s.exit
                &&& f.lifecycle_stage == s.lifecycle_stage
            } else {
                &&& r.flatten matches Some(e) && flattened(
                    s,
                    f.with_state(s.hybrid_state),
                    e,
                    symbol,
                    qty,
                    flatten_reason(update),
                )
                &&& f.lifecycle_stage@ == flatten_reason(update)
            }
            &&& f.hybrid_state == (if update is PartialEntryInvalid {
                s.hybrid_state
            } else {
                HybridState::Open
            })
            &&& f.tracked_order_ids == s.tracked_order_ids
            &&& f.entry_intent_inflight == s.entry_intent_inflight
            &&& f.bracket_terminal_reconcile_started_ms == s.bracket_terminal_reconcile_started_ms
        },
        PositionUpdate::PartialEntryWaiting | PositionUpdate::AwaitingBrokerFlat => {
            &&& r.cleanup@.len() == 0 && r.flatten is None
            &&& f.lifecycle_stage@ == (if update is PartialEntryWaiting {
                "partial_entry_waiting_target"@
            } else {
                "exit_filled_awaiting_broker_flat"@
            })
            &&& f.protection == s.protection
            &&& f.exit == s.exit
            &&& f.tracked_order_ids == s.tracked_order_ids
            &&& f.entry_intent_inflight == s.entry_intent_inflight
            &&& f.bracket_terminal_reconcile_started_ms == s.bracket_terminal_reconcile_started_ms
            &&& f.hybrid_state == s.hybrid_state
        },
        PositionUpdate::BracketPartialProgress => {
            &&& r.cleanup@.len() == 0 && r.flatten is None
            &&& f.bracket_terminal_reconcile_started_ms == Some(now_ms)
            &&& f.exit.exit_intent_inflight
            &&& f.lifecycle_stage@ == "mr_bracket_partial_awaiting_broker_flat"@
            &&& f.protection == s.protection
            &&& f.tracked_order_ids == s.tracked_order_ids
            &&& f.entry_intent_inflight == s.entry_intent_inflight
            &&& f.hybrid_state == s.hybrid_state
        },
        PositionUpdate::Opened { .. } => {
            &&& r.cleanup@.len() == 0 && r.flatten is None
            &&& !f.entry_intent_inflight
            &&& !f.exit.exit_intent_inflight
            &&& (if opened_owner != Owner::MeanRev {
                &&& f.protection.tp_order_id is None
                &&& f.protection.sl_stop_order_id is None
                &&& f.protection.sl_exchange_order_id is None
                &&& f.protection.pending_tp_bar_ts_utc is None
                &&& f.protection.pending_sl_bar_ts_utc is None
            } else {
                f.protection == s.protection
            })
            &&& f.hybrid_state == HybridState::Open
            &&& f.lifecycle_stage@ == "broker_position_open"@
            &&& f.tracked_order_ids == s.tracked_order_ids
            &&& f.bracket_terminal_reconcile_started_ms == s.bracket_terminal_reconcile_started_ms
        },
    }
}

impl OrderTracking {
    /// Carries out what a position update of `qty` lots means (see
    /// `classify_position_update`). Flat: the bracket is cancelled (closing on the given
    /// side), nothing is in flight or tracked any more, and the state is pending or flat.
    /// An invalid partial entry, an unexpected residual and a changed size flatten the
    /// residual; the latter two leave the position open. A partial entry waits, an exit in
    /// flight waits for flat, and a partly filled bracket starts its settling grace at
    /// `now_ms`. An opened position of `opened_owner` clears the in-flight flags, and the
    /// bracket unless it is mean reversion.
    pub fn apply_position_update(
        &mut self,
        symbol: &str,
        qty: i64,
        update: PositionUpdate,
        opened_owner: Owner,
        has_pending_entry: bool,
        now_ms: i64,
    ) -> (r: PositionActions)
        requires
            flattens(update) ==> qty != 0,
        ensures
            position_applied(
                *old(self),
                *final(self),
                r,
                symbol@,
                qty,
                update,
                opened_owner,
                has_pending_entry,
                now_ms,
            ),
    {
        match update {
            PositionUpdate::BrokerFlat { closing_side } => {
                let cleanup = self.protection.emit_cancel_all_protection(closing_side);
                self.exit.exit_intent_inflight = false;
                self.bracket_terminal_reconcile_started_ms = None;
                self.tracked_order_ids = Vec::new();
                self.hybrid_state = if has_pending_entry {
                    HybridState::Pending
                } else {
                    HybridState::Flat
                };
                self.lifecycle_stage = String::from_str("broker_position_flat");
                PositionActions { cleanup, flatten: None }
            },
            PositionUpdate::PartialEntryInvalid => {
                let flatten = self.emit_broker_residual_emergency_exit(symbol, qty, "partial_entry_invalid");
                PositionActions { cleanup: Vec::new(), flatten }
            },
            PositionUpdate::PartialEntryWaiting => {
                self.lifecycle_stage = String::from_str("partial_entry_waiting_target");
                PositionActions { cleanup: Vec::new(), flatten: None }
            },
            PositionUpdate::UnexpectedResidual { .. } => {
                let flatten = self.emit_broker_residual_emergency_exit(
                    symbol,
                    qty,
                    "unexpected_broker_residual",
                );
                self.hybrid_state = HybridState::Open;
                PositionActions { cleanup: Vec::new(), flatten }
            },
            PositionUpdate::AwaitingBrokerFlat => {
                self.lifecycle_stage = String::from_str("exit_filled_awaiting_broker_flat");
                PositionActions { cleanup: Vec::new(), flatten: None }
            },
            PositionUpdate::BracketPartialProgress => {
                self.mark_mr_bracket_partial_reconcile(now_ms);
                PositionActions { cleanup: Vec::new(), flatten: None }
            },
            PositionUpdate::SizeChanged { sign_flip, .. } => {
                let reason = if sign_flip {
                    "broker_position_sign_flip"
                } else {
                    "broker_position_size_changed"
                };
                let flatten = self.emit_broker_residual_emergency_exit(symbol, qty, reason);
                self.hybrid_state = HybridState::Open;
                PositionActions { cleanup: Vec::new(), flatten }
            },
            PositionUpdate::Opened { .. } => {
                self.entry_intent_inflight = false;
                self.exit.exit_intent_inflight = false;
                if opened_owner != Owner::MeanRev {
                    self.protection.clear();
                }
                self.hybrid_state = HybridState::Open;
                self.lifecycle_stage = String::from_str("broker_position_open");
                PositionActions { cleanup: Vec::new(), flatten: None }
            },
        }
    }

    /// The same tracking in another strategy state.
    pub open spec fn with_state(self, state: HybridState) -> OrderTracking {
        OrderTracking { hybrid_state: state, ..self }
    }
}


impl OrderTracking {
    /// Handles a broker position update: one for another symbol changes nothing; one for
    /// the strategy's symbol of `qty` lots is classified against the pending multi-lot
    /// entry, the open position, the exit in flight and the settling grace at `now_ms`
    /// (see `classify_position_update`), and carried out (see `apply_position_update`).
    /// `opened_owner` is the owner of the position the strategy holds once it is open.
    pub fn on_position(
        &mut self,
        symbol: &str,
        pos_symbol: &str,
        qty: i64,
        existing: bool,
        pending: Option<PendingFill>,
        open: Option<OpenHolding>,
        opened_owner: Owner,
        now_ms: i64,
    ) -> (r: Option<(PositionUpdate, PositionActions)>)
        ensures
            pos_symbol@ != symbol@ ==> r is None && *final(self) == *old(self),
            pos_symbol@ == symbol@ ==> match r {
                Some((u, a)) => {
                    &&& u == spec_position_update(
                        qty,
                        existing,
                        pending,
                        open,
                        old(self).exit.exit_intent_inflight,
                        old(self).bracket_terminal_reconcile_started_ms matches Some(st) && clamp_i64(
                            now_ms - st,
                        ) < BRACKET_TERMINAL_RECONCILE_GRACE_MS,
                    )
                    &&& position_applied(
                        *old(self),
                        *final(self),
                        a,
                        symbol@,
                        qty,
                        u,
                        opened_owner,
                        pending is Some,
                        now_ms,
                    )
                },
                None => false,
            },
    {
        if !str_eq(pos_symbol, symbol) {
            return None;
        }
        let reconcile = bracket_terminal_reconcile_active(self.bracket_terminal_reconcile_started_ms, now_ms);
        let u = classify_position_update(qty, existing, pending, open, self.exit.exit_intent_inflight, reconcile);
        let a = self.apply_position_update(symbol, qty, u, opened_owner, pending.is_some(), now_ms);
        Some((u, a))
    }
}


/// The bracket leg that a comment names.
pub open spec fn spec_mr_role(c: Option<String>) -> Option<ProtectionRole> {
    match c {
        None => None,
        Some(t) => if contains_seq(t@, "|o=MR|r=TP"@) {
            Some(ProtectionRole::Tp)
        } else if contains_seq(t@, "|o=MR|r=SL"@) {
            Some(ProtectionRole::Sl)
        } else {
            None
        },
    }
}

/// The ids of the snapshot's working orders of the symbol.
pub open spec fn symbol_order_ids(os: Seq<BootstrapOrder>, symbol: Seq<char>) -> Set<i64> {
    Set::new(
        |id: i64| exists|i: int| 0 <= i < os.len() && (#[trigger] os[i]).symbol@ == symbol && os[i].order_id == id,
    )
}

/// Whether the snapshot has a working order of the symbol.
pub open spec fn has_symbol_order(os: Seq<BootstrapOrder>, symbol: Seq<char>) -> bool {
    exists|i: int| 0 <= i < os.len() && (#[trigger] os[i]).symbol@ == symbol
}

/// The last working order of the symbol that is the bracket's take profit.
pub open spec fn last_mr_tp(os: Seq<BootstrapOrder>, symbol: Seq<char>) -> Option<i64>
    decreases os.len(),
{
    if os.len() == 0 {
        None
    } else if os.last().symbol@ == symbol && spec_mr_role(os.last().comment) == Some(ProtectionRole::Tp) {
        Some(os.last().order_id)
    } else {
        last_mr_tp(os.drop_last(), symbol)
    }
}

/// The last working stop order of the symbol that is the bracket's stop loss: its id and
/// its exchange order.
pub open spec fn last_mr_sl(ss: Seq<BootstrapStopOrder>, symbol: Seq<char>) -> Option<(Seq<char>, Option<i64>)>
    decreases ss.len(),
{
    if ss.len() == 0 {
        None
    } else if ss.last().symbol@ == symbol && spec_mr_role(ss.last().comment) == Some(ProtectionRole::Sl) {
        Some((ss.last().stop_order_id@, ss.last().exchange_order_id))
    } else {
        last_mr_sl(ss.drop_last(), symbol)
    }
}

/// The text of an optional string.
fn opt_text_ref(c: &Option<String>) -> (r: Option<&str>)
    ensures
        match c {
            Some(x) => r matches Some(y) && y@ == x@,
            None => r is None,
        },
{
    match c {
        Some(x) => Some(x.as_str()),
        None => None,
    }
}

/// The order tracking `f` after a bootstrap snapshot over `s` with outcome `b`.
pub open spec fn bootstrap_applied(
    s: OrderTracking,
    f: OrderTracking,
    b: BootstrapPosition,
    symbol: Seq<char>,
    orders: Seq<BootstrapOrder>,
    stop_orders: Seq<BootstrapStopOrder>,
    position_qty: Option<i64>,
    inferred_owner: Option<Owner>,
) -> bool {
    let ids = symbol_order_ids(orders, symbol);
    &&& b == spec_bootstrap_position(position_qty, inferred_owner, has_symbol_order(orders, symbol))
    &&& f.tracked_order_ids@.to_set() == ids
    &&& f.pending_request_ids@.len() == 0
    &&& f.entry_reject_deferred_until_bar_ts is None
    &&& f.exit.exit_reject_deferred_until_bar_ts is None
    &&& !f.exit.exit_intent_inflight
    &&& f.protection.pending_tp_bar_ts_utc is None
    &&& f.protection.pending_sl_bar_ts_utc is None
    &&& f.protection.tp_order_id == last_mr_tp(orders, symbol)
    &&& match last_mr_sl(stop_orders, symbol) {
        Some((id, ex)) => opt_chars(f.protection.sl_stop_order_id) == Some(id)
            && f.protection.sl_exchange_order_id == ex,
        None => f.protection.sl_stop_order_id is None && f.protection.sl_exchange_order_id is None,
    }
    &&& f.last_bar_ts == s.last_bar_ts
    &&& f.bracket_terminal_reconcile_started_ms == s.bracket_terminal_reconcile_started_ms
    &&& match b {
        BootstrapPosition::Adopt { owner_confirmed, .. } => {
            &&& !f.entry_intent_inflight
            &&& f.hybrid_state == HybridState::Open
            &&& f.lifecycle_stage@ == (if owner_confirmed {
                "bootstrap_non_flat_adopted"@
            } else {
                "bootstrap_non_flat_owner_unconfirmed"@
            })
        },
        BootstrapPosition::Flat => {
            &&& !f.entry_intent_inflight
            &&& f.hybrid_state == HybridState::Flat
            &&& f.lifecycle_stage@ == "bootstrapped"@
        },
        BootstrapPosition::PendingReconcile => {
            &&& f.entry_intent_inflight
            &&& f.hybrid_state == HybridState::Pending
            &&& f.lifecycle_stage@ == "bootstrap_working_orders_pending_reconcile"@
        },
        BootstrapPosition::Absent => {
            &&& !f.entry_intent_inflight
            &&& f.hybrid_state == s.hybrid_state
            &&& f.lifecycle_stage@ == "bootstrapped"@
        },
    }
}

impl OrderTracking {
    /// Reconciles with the broker's bootstrap snapshot: nothing is in flight, deferred or
    /// pending any more; the working orders of the symbol are tracked; the bracket is
    /// rebuilt from the last working take-profit order and the last working stop-loss
    /// stop order of the symbol; and the position of `position_qty` lots (none when the
    /// snapshot has none for the symbol) is classified with the owner the strategy's state
    /// names (see `classify_bootstrap_position`): an adopted position is open, a flat one is
    /// flat, and a flat one with working orders blocks entries until they settle.
    pub fn on_bootstrap_snapshot(
        &mut self,
        symbol: &str,
        orders: &Vec<BootstrapOrder>,
        stop_orders: &Vec<BootstrapStopOrder>,
        position_qty: Option<i64>,
        inferred_owner: Option<Owner>,
    ) -> (b: BootstrapPosition)
        ensures
            bootstrap_applied(
                *old(self),
                *final(self),
                b,
                symbol@,
                orders@,
                stop_orders@,
                position_qty,
                inferred_owner,
            ),
    {
        self.lifecycle_stage = String::from_str("bootstrapped");
        self.entry_intent_inflight = false;
        self.exit.exit_intent_inflight = false;
        self.entry_reject_deferred_until_bar_ts = None;
        self.exit.exit_reject_deferred_until_bar_ts = None;
        self.pending_request_ids = Vec::new();
        self.protection.clear();
        let ghost s1 = *self;
        let ghost os = orders@;
        let ghost sym = symbol@;
        let mut ids: Vec<i64> = Vec::new();
        let mut i: usize = 0;
        proof {
            assert(os.take(0) =~= Seq::<BootstrapOrder>::empty());
            assert(ids@.to_set() =~= symbol_order_ids(os.take(0), sym));
        }
        while i < orders.len()
            invariant
                i <= os.len(),
                os == orders@,
                sym == symbol@,
                ids@.to_set() == symbol_order_ids(os.take(i as int), sym),
                *self == (OrderTracking { protection: self.protection, ..s1 }),
                self.protection.tp_order_id == last_mr_tp(os.take(i as int), sym),
                self.protection.pending_tp_bar_ts_utc is None,
                self.protection.pending_sl_bar_ts_utc is None,
                self.protection.sl_stop_order_id is None,
                self.protection.sl_exchange_order_id is None,
            decreases os.len() - i,
        {
            let o = &orders[i];
            let ghost prefix = os.take(i as int);
            proof {
                assert(os.take(i + 1).drop_last() =~= prefix);
                assert(os.take(i + 1).last() == os[i as int]);
            }
            if str_eq(o.symbol.as_str(), symbol) {
                set_insert_id(&mut ids, o.order_id);
                if parse_mr_protection_role(opt_text_ref(&o.comment)) == Some(ProtectionRole::Tp) {
                    self.protection.tp_order_id = Some(o.order_id);
                }
                proof {
                    assert forall|id: i64| #[trigger] symbol_order_ids(os.take(i + 1), sym).contains(id) <==> (
                        symbol_order_ids(prefix, sym).contains(id) || id == o.order_id) by {
                        if symbol_order_ids(os.take(i + 1), sym).contains(id) {
                            let k = choose|k: int| 0 <= k < os.take(i + 1).len() && (#[trigger] os.take(i + 1)[k]).symbol@ == sym && os.take(i + 1)[k].order_id == id;
                            if k < i {
                                assert(prefix[k] == os.take(i + 1)[k]);
                            }
                        }
                        if symbol_order_ids(prefix, sym).contains(id) {
                            let k = choose|k: int| 0 <= k < prefix.len() && (#[trigger] prefix[k]).symbol@ == sym && prefix[k].order_id == id;
                            assert(prefix[k] == os.take(i + 1)[k]);
                        }
                        if id == o.order_id {
                            assert(os.take(i + 1)[i as int] == *o);
                        }
                    }
                    assert(ids@.to_set() =~= symbol_order_ids(os.take(i + 1), sym));
                }
            } else {
                proof {
                    assert forall|id: i64| #[trigger] symbol_order_ids(os.take(i + 1), sym).contains(id) <==>
                        symbol_order_ids(prefix, sym).contains(id) by {
                        if symbol_order_ids(os.take(i + 1), sym).contains(id) {
                            let k = choose|k: int| 0 <= k < os.take(i + 1).len() && (#[trigger] os.take(i + 1)[k]).symbol@ == sym && os.take(i + 1)[k].order_id == id;
                            if k < i {
                                assert(prefix[k] == os.take(i + 1)[k]);
                            }
                        }
                        if symbol_order_ids(prefix, sym).contains(id) {
                            let k = choose|k: int| 0 <= k < prefix.len() && (#[trigger] prefix[k]).symbol@ == sym && prefix[k].order_id == id;
                            assert(prefix[k] == os.take(i + 1)[k]);
                        }
                    }
                    assert(symbol_order_ids(os.take(i + 1), sym) =~= symbol_order_ids(prefix, sym));
                }
            }
            i = i + 1;
        }
        proof {
            assert(os.take(os.len() as int) =~= os);
        }
        let ghost ss = stop_orders@;
        let mut j: usize = 0;
        proof {
            assert(ss.take(0) =~= Seq::<BootstrapStopOrder>::empty());
        }
        while j < stop_orders.len()
            invariant
                j <= ss.len(),
                ss == stop_orders@,
                sym == symbol@,
                match last_mr_sl(ss.take(j as int), sym) {
                    Some((id, ex)) => opt_chars(self.protection.sl_stop_order_id) == Some(id)
                        && self.protection.sl_exchange_order_id == ex,
                    None => self.protection.sl_stop_order_id is None && self.protection.sl_exchange_order_id is None,
                },
                self.protection.tp_order_id == last_mr_tp(os, sym),
                self.protection.pending_tp_bar_ts_utc is None,
                self.protection.pending_sl_bar_ts_utc is None,
                *self == (OrderTracking { protection: self.protection, ..s1 }),
            decreases ss.len() - j,
        {
            let o = &stop_orders[j];
            proof {
                assert(ss.take(j + 1).drop_last() =~= ss.take(j as int));
                assert(ss.take(j + 1).last() == ss[j as int]);
            }
            if str_eq(o.symbol.as_str(), symbol) && parse_mr_protection_role(opt_text_ref(&o.comment))
                == Some(ProtectionRole::Sl) {
                self.protection.sl_stop_order_id = Some(o.stop_order_id.clone());
                self.protection.sl_exchange_order_id = o.exchange_order_id;
            }
            j = j + 1;
        }
        proof {
            assert(ss.take(ss.len() as int) =~= ss);
        }
        let has_working = ids.len() > 0;
        proof {
            if has_working {
                assert(ids@.to_set().contains(ids@[0]));
                assert(symbol_order_ids(os, sym).contains(ids@[0]));
                let k = choose|k: int| 0 <= k < os.len() && (#[trigger] os[k]).symbol@ == sym && os[k].order_id == ids@[0];
                assert(has_symbol_order(os, sym));
            } else {
                if has_symbol_order(os, sym) {
                    let k = choose|k: int| 0 <= k < os.len() && (#[trigger] os[k]).symbol@ == sym;
                    assert(symbol_order_ids(os, sym).contains(os[k].order_id));
                    assert(ids@.to_set().contains(os[k].order_id));
                }
            }
        }
        self.tracked_order_ids = ids;
        let b = classify_bootstrap_position(position_qty, inferred_owner, has_working);
        match b {
            BootstrapPosition::Adopt { owner_confirmed, .. } => {
                self.entry_intent_inflight = false;
                self.exit.exit_intent_inflight = false;
                self.hybrid_state = HybridState::Open;
                self.lifecycle_stage = if owner_confirmed {
                    String::from_str("bootstrap_non_flat_adopted")
                } else {
                    String::from_str("bootstrap_non_flat_owner_unconfirmed")
                };
            },
            BootstrapPosition::Flat => {
                self.entry_intent_inflight = false;
                self.hybrid_state = HybridState::Flat;
            },
            BootstrapPosition::PendingReconcile => {
                self.entry_intent_inflight = true;
                self.hybrid_state = HybridState::Pending;
                self.lifecycle_stage = String::from_str("bootstrap_working_orders_pending_reconcile");
            },
            BootstrapPosition::Absent => {},
        }
        b
    }
}


impl OrderTracking {
    /// After the runtime restored its persisted state: the restored pending requests and
    /// known orders are tracked (as sets), nothing is in flight or deferred, and the bracket
    /// is forgotten until the broker reports it again.
    pub fn on_runtime_state_restored(&mut self, pending_requests: &Vec<u128>, known_order_ids: &Vec<i64>)
        ensures
            final(self).pending_request_ids@.to_set() == pending_requests@.to_set(),
            final(self).tracked_order_ids@.to_set() == known_order_ids@.to_set(),
            !final(self).entry_intent_inflight,
            !final(self).exit.exit_intent_inflight,
            final(self).entry_reject_deferred_until_bar_ts is None,
            final(self).exit.exit_reject_deferred_until_bar_ts is None,
            final(self).protection.tp_order_id is None,
            final(self).protection.sl_stop_order_id is None,
            final(self).protection.sl_exchange_order_id is None,
            final(self).protection.pending_tp_bar_ts_utc is None,
            final(self).protection.pending_sl_bar_ts_utc is None,
            final(self).lifecycle_stage@ == "runtime_state_restored"@,
            final(self).last_bar_ts == old(self).last_bar_ts,
            final(self).bracket_terminal_reconcile_started_ms == old(self).bracket_terminal_reconcile_started_ms,
            final(self).hybrid_state == old(self).hybrid_state,
    {
        self.lifecycle_stage = String::from_str("runtime_state_restored");
        let mut requests: Vec<u128> = Vec::new();
        let mut i: usize = 0;
        while i < pending_requests.len()
            invariant
                i <= pending_requests@.len(),
                requests@ == pending_requests@.take(i as int),
            decreases pending_requests@.len() - i,
        {
            requests.push(pending_requests[i]);
            proof {
                assert(pending_requests@.take(i + 1) =~= pending_requests@.take(i as int).push(
                    pending_requests@[i as int],
                ));
            }
            i = i + 1;
        }
        proof {
            assert(pending_requests@.take(pending_requests@.len() as int) =~= pending_requests@);
        }
        let mut orders: Vec<i64> = Vec::new();
        let mut j: usize = 0;
        while j < known_order_ids.len()
            invariant
                j <= known_order_ids@.len(),
                orders@ == known_order_ids@.take(j as int),
            decreases known_order_ids@.len() - j,
        {
            orders.push(known_order_ids[j]);
            proof {
                assert(known_order_ids@.take(j + 1) =~= known_order_ids@.take(j as int).push(
                    known_order_ids@[j as int],
                ));
            }
            j = j + 1;
        }
        proof {
            assert(known_order_ids@.take(known_order_ids@.len() as int) =~= known_order_ids@);
        }
        self.pending_request_ids = requests;
        self.tracked_order_ids = orders;
        self.entry_intent_inflight = false;
        self.exit.exit_intent_inflight = false;
        self.entry_reject_deferred_until_bar_ts = None;
        self.exit.exit_reject_deferred_until_bar_ts = None;
        self.protection.clear();
    }
}

impl OrderTracking {
    /// The broker orders tracked, ascending, each once.
    pub fn tracked_order_ids(&self) -> (r: Vec<i64>)
        ensures
            crate::idset::ids_ascending(r@),
            r@.to_set() == self.tracked_order_ids@.to_set(),
    {
        crate::idset::ascending_ids(&self.tracked_order_ids)
    }

    /// The requests still awaiting an answer, ascending, each once.
    pub fn pending_request_ids(&self) -> (r: Vec<u128>)
        ensures
            crate::idset::requests_ascending(r@),
            r@.to_set() == self.pending_request_ids@.to_set(),
    {
        crate::idset::ascending_requests(&self.pending_request_ids)
    }
}

/// What the strategy holds of an entry sent and not yet filled: its owner, direction,
/// target size in lots and, for a multi-lot entry, when it first filled in part.
#[derive(Debug, Clone, Copy, PartialEq, Eq, Structural)]
pub struct PendingHolding {
    pub owner: Owner,
    pub side: PositionSide,
    pub target_qty: u64,
    pub partial_started_ms: Option<i64>,
}

/// The owner of the position once it is open: the pending entry's, else the open
/// position's, else the breakout model's.
pub open spec fn spec_opened_owner(pending: Option<PendingHolding>, open: Option<OpenHolding>) -> Owner {
    match pending {
        Some(p) => p.owner,
        None => match open {
            Some(o) => o.owner,
            None => Owner::Breakout,
        },
    }
}

/// The pending entry as the position classification sees it.
pub open spec fn spec_pending_fill(pending: Option<PendingHolding>) -> Option<PendingFill> {
    match pending {
        Some(p) => Some(PendingFill { side: p.side, target_qty: p.target_qty }),
        None => None,
    }
}

/// The pending entry after a position update: dropped when its fill was invalid or it
/// opened the position; a partial fill records when it started, the first time.
pub open spec fn spec_pending_after(
    u: PositionUpdate,
    pending: Option<PendingHolding>,
    now_ms: i64,
) -> Option<PendingHolding> {
    match u {
        PositionUpdate::PartialEntryInvalid => None,
        PositionUpdate::Opened { .. } => None,
        PositionUpdate::PartialEntryWaiting => match pending {
            Some(p) => Some(
                PendingHolding {
                    partial_started_ms: if p.partial_started_ms is Some {
                        p.partial_started_ms
                    } else {
                        Some(now_ms)
                    },
                    ..p
                },
            ),
            None => None,
        },
        _ => pending,
    }
}

/// The open position after a position update: gone when the broker is flat; an
/// unexpected residual is held as a breakout position; a changed size or an opened
/// position takes the broker's direction and size under the owner it opens for.
pub open spec fn spec_open_after(
    u: PositionUpdate,
    pending: Option<PendingHolding>,
    open: Option<OpenHolding>,
) -> Option<OpenHolding> {
    match u {
        PositionUpdate::BrokerFlat { .. } => None,
        PositionUpdate::UnexpectedResidual { side, size } => Some(
            OpenHolding { owner: Owner::Breakout, side, size },
        ),
        PositionUpdate::SizeChanged { side, size, .. } => Some(
            OpenHolding { owner: spec_opened_owner(None, open), side, size },
        ),
        PositionUpdate::Opened { side, size } => Some(
            OpenHolding { owner: spec_opened_owner(pending, open), side, size },
        ),
        _ => open,
    }
}

/// The hybrid state a persisted word names: `pending`, `open`, else flat.
pub open spec fn spec_parse_hybrid_state(w: Seq<char>) -> HybridState {
    if w == "pending"@ {
        HybridState::Pending
    } else if w == "open"@ {
        HybridState::Open
    } else {
        HybridState::Flat
    }
}

/// The persisted state of the USD/RUB hybrid strategy that its decisions read back. The
/// day's price aggregates, cash and price levels stay with the caller; the open size is
/// given in whole lots.
#[derive(Debug, Clone)]
pub struct AlorUsdrubfHybridState {
    pub lifecycle_stage: String,
    pub last_bar_ts: Option<i64>,
    pub last_processed_bar_ts: Option<i64>,
    pub bootstrap_seen: bool,
    pub runtime_state_restored: bool,
    pub live_ready: bool,
    pub hybrid_state: String,
    pub current_date_local: Option<String>,
    pub bo_was_long_today: bool,
    pub bo_was_short_today: bool,
    pub pending_entry_owner: Option<String>,
    pub pending_entry_side: Option<String>,
    pub pending_request_ids: Vec<u128>,
    pub tracked_order_ids: Vec<i64>,
    pub entry_intent_inflight: bool,
    pub open_position_owner: Option<String>,
    pub open_position_side: Option<String>,
    pub exit_intent_inflight: bool,
    pub open_position_lots: i64,
}

/// The USD/RUB hybrid strategy's runtime side: the replay guard, the order tracking and
/// what it holds of its pending entry and open position.
#[derive(Debug)]
pub struct AlorUsdrubfHybridStrategy {
    pub symbol: String,
    /// The size in lots of a live entry, as configured (at least one).
    pub live_target_qty: u64,
    pub guard: BarGuard,
    pub tracking: OrderTracking,
    pub pending_entry: Option<PendingHolding>,
    pub open_position: Option<OpenHolding>,
    pub bootstrap_seen: bool,
    pub runtime_state_restored: bool,
    pub owner_confirmed_by_live_event: bool,
    pub bo_was_long_today: bool,
    pub bo_was_short_today: bool,
    /// The local day (days since 1970-01-01) of the session in progress, if any.
    pub current_day: Option<i32>,
    /// The state as last synchronized or restored: what `state` gives back.
    pub persisted: AlorUsdrubfHybridState,
}

fn copy_requests(v: &Vec<u128>) -> (r: Vec<u128>)
    ensures
        r@ == v@,
{
    let mut r: Vec<u128> = Vec::new();
    let mut i: usize = 0;
    while i < v.len()
        invariant
            i <= v@.len(),
            r@ == v@.take(i as int),
        decreases v@.len() - i,
    {
        r.push(v[i]);
        i = i + 1;
        assert(r@ =~= v@.take(i as int));
    }
    assert(v@.take(v@.len() as int) =~= v@);
    r
}

fn copy_ids(v: &Vec<i64>) -> (r: Vec<i64>)
    ensures
        r@ == v@,
{
    let mut r: Vec<i64> = Vec::new();
    let mut i: usize = 0;
    while i < v.len()
        invariant
            i <= v@.len(),
            r@ == v@.take(i as int),
        decreases v@.len() - i,
    {
        r.push(v[i]);
        i = i + 1;
        assert(r@ =~= v@.take(i as int));
    }
    assert(v@.take(v@.len() as int) =~= v@);
    r
}

fn parse_opt_owner(v: &Option<String>) -> (r: Option<Owner>)
    ensures
        r == (match *v {
            Some(t) => spec_parse_owner(t@),
            None => None,
        }),
{
    match v {
        Some(t) => parse_owner(t.as_str()),
        None => None,
    }
}

fn parse_opt_side(v: &Option<String>) -> (r: Option<PositionSide>)
    ensures
        r == (match *v {
            Some(t) => spec_parse_position_side(t@),
            None => None,
        }),
{
    match v {
        Some(t) => parse_position_side(t.as_str()),
        None => None,
    }
}

/// `f` is `s` after a position update of symbol `pos_symbol` with broker quantity `qty`
/// (see `OrderTracking::on_position`), before the bracket is seen to.
pub open spec fn spec_position_event(
    s: AlorUsdrubfHybridStrategy,
    f: AlorUsdrubfHybridStrategy,
    pos_symbol: Seq<char>,
    qty: i64,
    existing: bool,
    now_ms: i64,
    r: Option<(PositionUpdate, PositionActions)>,
) -> bool {
    &&& pos_symbol != s.symbol@ ==> r is None && f.tracking == s.tracking && f.pending_entry
        == s.pending_entry && f.open_position == s.open_position
    &&& pos_symbol == s.symbol@ ==> match r {
        Some((u, a)) => {
            &&& u == spec_position_update(
                qty,
                existing,
                spec_pending_fill(s.pending_entry),
                s.open_position,
                s.tracking.exit.exit_intent_inflight,
                s.tracking.bracket_terminal_reconcile_started_ms matches Some(st) && clamp_i64(
                    now_ms - st,
                ) < BRACKET_TERMINAL_RECONCILE_GRACE_MS,
            )
            &&& position_applied(
                s.tracking,
                f.tracking,
                a,
                s.symbol@,
                qty,
                u,
                spec_opened_owner(s.pending_entry, s.open_position),
                s.pending_entry is Some,
                now_ms,
            )
            &&& f.pending_entry == spec_pending_after(u, s.pending_entry, now_ms)
            &&& f.open_position == spec_open_after(u, s.pending_entry, s.open_position)
        },
        None => false,
    }
    &&& f.symbol == s.symbol
    &&& f.guard == s.guard
    &&& r is Some ==> spec_persisted(f, f.persisted)
    &&& r is None ==> f.persisted == s.persisted
}

/// The outcome of a position update without its bracket legs.
pub open spec fn without_plan(r: Option<(PositionUpdate, PositionActions, BracketPlan)>) -> Option<
    (PositionUpdate, PositionActions),
> {
    match r {
        Some((u, a, _)) => Some((u, a)),
        None => None,
    }
}

/// `f` is `s` after a position update (see `spec_position_event`) whose outcome is `r`;
/// once the position is open as the broker reports it, the bracket of an open
/// mean-reversion position is seen to at `ts_utc` (see `spec_bracket_emitted`).
pub open spec fn spec_position_handled(
    s: AlorUsdrubfHybridStrategy,
    f: AlorUsdrubfHybridStrategy,
    sid: Seq<char>,
    pos_symbol: Seq<char>,
    qty: i64,
    existing: bool,
    ts_utc: i64,
    now_ms: i64,
    has_take_price: bool,
    has_stop_price: bool,
    r: Option<(PositionUpdate, PositionActions, BracketPlan)>,
) -> bool {
    exists|m: AlorUsdrubfHybridStrategy|
        #![trigger spec_position_event(s, m, pos_symbol, qty, existing, now_ms, without_plan(r))]
        {
        &&& spec_position_event(s, m, pos_symbol, qty, existing, now_ms, without_plan(r))
        &&& match r {
            Some((u, _, b)) => if u is Opened {
                spec_bracket_emitted(m, f, b, sid, ts_utc, has_take_price, has_stop_price)
            } else {
                b.take_profit is None && b.stop_loss is None && f == m
            },
            None => f == m,
        }
    }
}

impl AlorUsdrubfHybridStrategy {
    /// A strategy for `symbol` that has seen nothing: stage `created`, flat, nothing
    /// tracked or in flight, the guard waiting for live bars. Live entries are sized at
    /// `live_target_qty` lots, at least one.
    pub fn new(symbol: String, live_target_qty: u64) -> (s: Self)
        ensures
            s.symbol == symbol,
            s.live_target_qty == (if live_target_qty < 1 { 1 } else { live_target_qty }),
            s.guard.lifecycle_stage@ == "created"@,
            s.guard.last_processed_bar_ts is None,
            s.guard.last_bar_ts is None,
            !s.guard.live_ready,
            !s.guard.startup_replay_tail_info_emitted,
            !s.guard.awaiting_live_bar_info_emitted,
            !s.guard.recovered_bar_suppressed_info_emitted,
            s.tracking.lifecycle_stage@ == "created"@,
            s.tracking.pending_request_ids@.len() == 0,
            s.tracking.tracked_order_ids@.len() == 0,
            !s.tracking.entry_intent_inflight,
            s.tracking.entry_reject_deferred_until_bar_ts is None,
            !s.tracking.exit.exit_intent_inflight,
            s.tracking.exit.exit_reject_deferred_until_bar_ts is None,
            s.tracking.last_bar_ts is None,
            s.tracking.bracket_terminal_reconcile_started_ms is None,
            s.tracking.protection.tp_order_id is None,
            s.tracking.protection.sl_stop_order_id is None,
            s.tracking.protection.sl_exchange_order_id is None,
            s.tracking.protection.pending_tp_bar_ts_utc is None,
            s.tracking.protection.pending_sl_bar_ts_utc is None,
            s.tracking.hybrid_state == HybridState::Flat,
            s.pending_entry is None,
            s.open_position is None,
            !s.bootstrap_seen,
            !s.runtime_state_restored,
            s.owner_confirmed_by_live_event,
            !s.bo_was_long_today,
            !s.bo_was_short_today,
            s.current_day is None,
            spec_persisted(s, s.persisted),
    {
        let mut s = AlorUsdrubfHybridStrategy {
            symbol,
            live_target_qty: if live_target_qty < 1 { 1 } else { live_target_qty },
            guard: BarGuard {
                last_processed_bar_ts: None,
                last_bar_ts: None,
                lifecycle_stage: String::from_str("created"),
                live_ready: false,
                startup_replay_tail_info_emitted: false,
                awaiting_live_bar_info_emitted: false,
                recovered_bar_suppressed_info_emitted: false,
            },
            tracking: OrderTracking {
                pending_request_ids: Vec::new(),
                tracked_order_ids: Vec::new(),
                entry_intent_inflight: false,
                entry_reject_deferred_until_bar_ts: None,
                exit: ExitTracking { exit_reject_deferred_until_bar_ts: None, exit_intent_inflight: false },
                lifecycle_stage: String::from_str("created"),
                last_bar_ts: None,
                bracket_terminal_reconcile_started_ms: None,
                protection: MrProtection {
                    pending_tp_bar_ts_utc: None,
                    pending_sl_bar_ts_utc: None,
                    tp_order_id: None,
                    sl_stop_order_id: None,
                    sl_exchange_order_id: None,
                },
                hybrid_state: HybridState::Flat,
            },
            pending_entry: None,
            open_position: None,
            bootstrap_seen: false,
            runtime_state_restored: false,
            owner_confirmed_by_live_event: true,
            bo_was_long_today: false,
            bo_was_short_today: false,
            current_day: None,
            persisted: AlorUsdrubfHybridState {
                lifecycle_stage: String::new(),
                last_bar_ts: None,
                last_processed_bar_ts: None,
                bootstrap_seen: false,
                runtime_state_restored: false,
                live_ready: false,
                hybrid_state: String::new(),
                current_date_local: None,
                bo_was_long_today: false,
                bo_was_short_today: false,
                pending_entry_owner: None,
                pending_entry_side: None,
                pending_request_ids: Vec::new(),
                tracked_order_ids: Vec::new(),
                entry_intent_inflight: false,
                open_position_owner: None,
                open_position_side: None,
                exit_intent_inflight: false,
                open_position_lots: 0,
            },
        };
        s.sync_state();
        s
    }

    /// After the runtime restored its persisted state: the order tracking takes the
    /// restored requests and orders and forgets what was in flight, the replay guard is
    /// re-armed, and the owner counts as confirmed.
    pub fn on_runtime_state_restored(&mut self, pending_requests: &Vec<u128>, known_order_ids: &Vec<i64>)
        ensures
            final(self).tracking.pending_request_ids@.to_set() == pending_requests@.to_set(),
            final(self).tracking.tracked_order_ids@.to_set() == known_order_ids@.to_set(),
            !final(self).tracking.entry_intent_inflight,
            !final(self).tracking.exit.exit_intent_inflight,
            final(self).tracking.entry_reject_deferred_until_bar_ts is None,
            final(self).tracking.exit.exit_reject_deferred_until_bar_ts is None,
            final(self).tracking.protection.tp_order_id is None,
            final(self).tracking.protection.sl_stop_order_id is None,
            final(self).tracking.protection.sl_exchange_order_id is None,
            final(self).tracking.lifecycle_stage@ == "runtime_state_restored"@,
            final(self).tracking.hybrid_state == old(self).tracking.hybrid_state,
            !final(self).guard.live_ready,
            !final(self).guard.startup_replay_tail_info_emitted,
            !final(self).guard.awaiting_live_bar_info_emitted,
            !final(self).guard.recovered_bar_suppressed_info_emitted,
            final(self).guard.lifecycle_stage@ == "runtime_state_restored"@,
            final(self).guard.last_processed_bar_ts == old(self).guard.last_processed_bar_ts,
            final(self).runtime_state_restored,
            final(self).owner_confirmed_by_live_event,
            final(self).pending_entry == old(self).pending_entry,
            final(self).open_position == old(self).open_position,
            final(self).bootstrap_seen == old(self).bootstrap_seen,
            spec_persisted(*final(self), final(self).persisted),
    {
        self.tracking.on_runtime_state_restored(pending_requests, known_order_ids);
        self.guard.rearm("runtime_state_restored");
        self.runtime_state_restored = true;
        self.owner_confirmed_by_live_event = true;
        self.sync_state();
    }

    /// A broker position update, classified against the pending entry and the open
    /// position the strategy holds (see `OrderTracking::on_position`); the holdings follow
    /// the update, and the owner counts as confirmed except while a multi-lot entry waits.
    fn apply_position_event(&mut self, pos_symbol: &str, qty: i64, existing: bool, now_ms: i64) -> (r:
        Option<(PositionUpdate, PositionActions)>)
        ensures
            spec_position_event(*old(self), *final(self), pos_symbol@, qty, existing, now_ms, r),
    {
        let pending = match self.pending_entry {
            Some(p) => Some(PendingFill { side: p.side, target_qty: p.target_qty }),
            None => None,
        };
        let owner = match self.pending_entry {
            Some(p) => p.owner,
            None => match self.open_position {
                Some(o) => o.owner,
                None => Owner::Breakout,
            },
        };
        let r = self.tracking.on_position(
            self.symbol.as_str(),
            pos_symbol,
            qty,
            existing,
            pending,
            self.open_position,
            owner,
            now_ms,
        );
        match &r {
            Some((u, _)) => {
                match *u {
                    PositionUpdate::BrokerFlat { .. } => {
                        self.open_position = None;
                        self.owner_confirmed_by_live_event = true;
                    },
                    PositionUpdate::PartialEntryInvalid => {
                        self.pending_entry = None;
                    },
                    PositionUpdate::PartialEntryWaiting => {
                        match self.pending_entry {
                            Some(p) => {
                                if p.partial_started_ms.is_none() {
                                    self.pending_entry = Some(
                                        PendingHolding { partial_started_ms: Some(now_ms), ..p },
                                    );
                                }
                            },
                            None => {},
                        }
                    },
                    PositionUpdate::UnexpectedResidual { side, size } => {
                        self.open_position = Some(OpenHolding { owner: Owner::Breakout, side, size });
                        self.owner_confirmed_by_live_event = true;
                    },
                    PositionUpdate::SizeChanged { side, size, .. } => {
                        let o = match self.open_position {
                            Some(o) => o.owner,
                            None => Owner::Breakout,
                        };
                        self.open_position = Some(OpenHolding { owner: o, side, size });
                        self.owner_confirmed_by_live_event = true;
                    },
                    PositionUpdate::Opened { side, size } => {
                        self.open_position = Some(OpenHolding { owner, side, size });
                        self.pending_entry = None;
                        self.owner_confirmed_by_live_event = true;
                    },
                    _ => {},
                }
                self.sync_state();
            },
            None => {},
        }
        r
    }

    /// A position update of symbol `pos_symbol` with broker quantity `qty`, reported at
    /// `ts_utc` (seconds) and handled at `now_ms` (see `spec_position_handled`): the update
    /// as the order tracking classifies and applies it, then, once the position is open as
    /// the broker reports it, the missing legs of a mean-reversion bracket for strategy
    /// `strategy_id`. The price model says whether the position has take and stop levels.
    pub fn on_position(
        &mut self,
        strategy_id: &str,
        pos_symbol: &str,
        qty: i64,
        existing: bool,
        ts_utc: i64,
        now_ms: i64,
        has_take_price: bool,
        has_stop_price: bool,
    ) -> (r: Option<(PositionUpdate, PositionActions, BracketPlan)>)
        ensures
            spec_position_handled(
                *old(self),
                *final(self),
                strategy_id@,
                pos_symbol@,
                qty,
                existing,
                ts_utc,
                now_ms,
                has_take_price,
                has_stop_price,
                r,
            ),
    {
        let r = self.apply_position_event(pos_symbol, qty, existing, now_ms);
        let ghost m = *self;
        match r {
            Some((u, a)) => {
                let opened = match u {
                    PositionUpdate::Opened { .. } => true,
                    _ => false,
                };
                let b = if opened {
                    self.maybe_emit_live_mr_brackets(strategy_id, ts_utc, has_take_price, has_stop_price)
                } else {
                    BracketPlan { take_profit: None, stop_loss: None }
                };
                let out = Some((u, a, b));
                assert(spec_position_event(*old(self), m, pos_symbol@, qty, existing, now_ms, without_plan(out)));
                out
            },
            None => None,
        }
    }

    /// The periodic timer (see `OrderTracking::on_timer`) with the pending entry the
    /// strategy holds; a pending entry that timed out is dropped.
    pub fn on_timer(&mut self, position_qty: i64, now_ms: i64) -> (r: TimerOutcome)
        ensures
            timer_stepped(
                old(self).tracking,
                final(self).tracking,
                r,
                old(self).symbol@,
                position_qty,
                now_ms,
                match old(self).pending_entry {
                    Some(p) => Some(p.target_qty),
                    None => None,
                },
                match old(self).pending_entry {
                    Some(p) => p.partial_started_ms,
                    None => None,
                },
            ),
            final(self).pending_entry == (if r is PartialEntryTimeout {
                None
            } else {
                old(self).pending_entry
            }),
            final(self).open_position == old(self).open_position,
            final(self).symbol == old(self).symbol,
            !(r is Idle) ==> spec_persisted(*final(self), final(self).persisted),
            r is Idle ==> final(self).persisted == old(self).persisted,
    {
        let (target, started) = match self.pending_entry {
            Some(p) => (Some(p.target_qty), p.partial_started_ms),
            None => (None, None),
        };
        let r = self.tracking.on_timer(self.symbol.as_str(), position_qty, now_ms, target, started);
        if let TimerOutcome::PartialEntryTimeout { .. } = &r {
            self.pending_entry = None;
        }
        let idle = match &r {
            TimerOutcome::Idle => true,
            _ => false,
        };
        if !idle {
            self.sync_state();
        }
        r
    }

    /// Restores a persisted state: the guard and tracking take its stage, bar times,
    /// readiness, hybrid state, request and order sets and in-flight flags; the bracket
    /// and the retry deferrals are forgotten; a pending entry is read back (at the
    /// configured live size) where its owner and direction read back, and an open position
    /// where they do and it holds at least one lot. The owner counts as confirmed unless
    /// the stage says a non-flat bootstrap left it unconfirmed.
    #[verifier::spinoff_prover]
    #[verifier::rlimit(50)]
    pub fn set_state(&mut self, state: AlorUsdrubfHybridState)
        ensures
            spec_restored(*old(self), state, *final(self)),
            final(self).persisted == state,
    {
        self.tracking.protection.clear();
        let confirmed = !str_eq(state.lifecycle_stage.as_str(), "bootstrap_non_flat_owner_unconfirmed");
        self.tracking.lifecycle_stage = state.lifecycle_stage.clone();
        self.guard.lifecycle_stage = state.lifecycle_stage.clone();
        self.guard.last_bar_ts = state.last_bar_ts;
        self.tracking.last_bar_ts = state.last_bar_ts;
        self.guard.last_processed_bar_ts = state.last_processed_bar_ts;
        self.guard.live_ready = state.live_ready;
        self.bootstrap_seen = state.bootstrap_seen;
        self.runtime_state_restored = state.runtime_state_restored;
        self.tracking.hybrid_state = if str_eq(state.hybrid_state.as_str(), "pending") {
            HybridState::Pending
        } else if str_eq(state.hybrid_state.as_str(), "open") {
            HybridState::Open
        } else {
            HybridState::Flat
        };
        self.bo_was_long_today = state.bo_was_long_today;
        self.bo_was_short_today = state.bo_was_short_today;
        self.current_day = match &state.current_date_local {
            Some(t) => parse_epoch_day(t.as_str()),
            None => None,
        };
        let po = parse_opt_owner(&state.pending_entry_owner);
        let ps = parse_opt_side(&state.pending_entry_side);
        self.pending_entry = match (po, ps) {
            (Some(owner), Some(side)) => Some(
                PendingHolding { owner, side, target_qty: self.live_target_qty, partial_started_ms: None },
            ),
            _ => None,
        };
        self.tracking.pending_request_ids = copy_requests(&state.pending_request_ids);
        self.tracking.tracked_order_ids = copy_ids(&state.tracked_order_ids);
        self.tracking.entry_intent_inflight = state.entry_intent_inflight;
        let oo = parse_opt_owner(&state.open_position_owner);
        let os = parse_opt_side(&state.open_position_side);
        self.open_position = match (oo, os) {
            (Some(owner), Some(side)) => if state.open_position_lots >= 1 {
                Some(OpenHolding { owner, side, size: state.open_position_lots as u64 })
            } else {
                None
            },
            _ => None,
        };
        self.tracking.exit.exit_intent_inflight = state.exit_intent_inflight;
        self.owner_confirmed_by_live_event = confirmed;
        self.tracking.entry_reject_deferred_until_bar_ts = None;
        self.tracking.exit.exit_reject_deferred_until_bar_ts = None;
        self.persisted = state;
    }
}

/// The strategy `f` that restoring `state` over `s` gives (see `set_state`).
pub open spec fn spec_restored(
    s: AlorUsdrubfHybridStrategy,
    state: AlorUsdrubfHybridState,
    f: AlorUsdrubfHybridStrategy,
) -> bool {
    &&& f.tracking.lifecycle_stage@ == state.lifecycle_stage@
    &&& f.guard.lifecycle_stage@ == state.lifecycle_stage@
    &&& f.guard.last_bar_ts == state.last_bar_ts
    &&& f.tracking.last_bar_ts == state.last_bar_ts
    &&& f.guard.last_processed_bar_ts == state.last_processed_bar_ts
    &&& f.guard.live_ready == state.live_ready
    &&& f.bootstrap_seen == state.bootstrap_seen
    &&& f.runtime_state_restored == state.runtime_state_restored
    &&& f.tracking.hybrid_state == spec_parse_hybrid_state(state.hybrid_state@)
    &&& f.bo_was_long_today == state.bo_was_long_today
    &&& f.bo_was_short_today == state.bo_was_short_today
    &&& f.current_day == (match state.current_date_local {
        Some(t) => chrono_epoch_day(t@),
        None => None,
    })
    &&& f.tracking.pending_request_ids@ == state.pending_request_ids@
    &&& f.tracking.tracked_order_ids@ == state.tracked_order_ids@
    &&& f.tracking.entry_intent_inflight == state.entry_intent_inflight
    &&& f.tracking.exit.exit_intent_inflight == state.exit_intent_inflight
    &&& f.tracking.entry_reject_deferred_until_bar_ts is None
    &&& f.tracking.exit.exit_reject_deferred_until_bar_ts is None
    &&& f.tracking.protection.tp_order_id is None
    &&& f.tracking.protection.sl_stop_order_id is None
    &&& f.tracking.protection.sl_exchange_order_id is None
    &&& f.tracking.protection.pending_tp_bar_ts_utc is None
    &&& f.tracking.protection.pending_sl_bar_ts_utc is None
    &&& f.pending_entry == (match (
        match state.pending_entry_owner {
            Some(t) => spec_parse_owner(t@),
            None => None,
        },
        match state.pending_entry_side {
            Some(t) => spec_parse_position_side(t@),
            None => None,
        },
    ) {
        (Some(o), Some(sd)) => Some(
            PendingHolding {
                owner: o,
                side: sd,
                target_qty: s.live_target_qty,
                partial_started_ms: None,
            },
        ),
        _ => None,
    })
    &&& f.open_position == (match (
        match state.open_position_owner {
            Some(t) => spec_parse_owner(t@),
            None => None,
        },
        match state.open_position_side {
            Some(t) => spec_parse_position_side(t@),
            None => None,
        },
    ) {
        (Some(o), Some(sd)) => if state.open_position_lots >= 1 {
            Some(OpenHolding { owner: o, side: sd, size: state.open_position_lots as u64 })
        } else {
            None
        },
        _ => None,
    })
    &&& f.owner_confirmed_by_live_event == (state.lifecycle_stage@
        != "bootstrap_non_flat_owner_unconfirmed"@)
    &&& f.symbol == s.symbol
    &&& f.live_target_qty == s.live_target_qty
    &&& f.tracking.bracket_terminal_reconcile_started_ms == s.tracking.bracket_terminal_reconcile_started_ms
}

/// A live market order the strategy sends: its side, size in lots and comment.
#[derive(Debug, Clone, PartialEq, Eq)]
pub struct LiveMarketOrder {
    pub side: OrderSide,
    pub qty: u64,
    pub comment: String,
}

/// Whether the live entry of the pending entry cannot go out on the bar at `bar_ts`:
/// there is none, its retry is deferred past this bar, an entry is in flight or a
/// position is open.
pub open spec fn spec_entry_blocked(s: AlorUsdrubfHybridStrategy, bar_ts: i64) -> bool {
    ||| s.pending_entry is None
    ||| s.tracking.entry_reject_deferred_until_bar_ts == Some(bar_ts)
    ||| s.tracking.entry_intent_inflight
    ||| s.open_position is Some
}

/// Whether the live exit cannot go out on the bar at `bar_ts`: no position is open, its
/// retry is deferred past this bar, or an exit is in flight.
pub open spec fn spec_exit_blocked(s: AlorUsdrubfHybridStrategy, bar_ts: i64) -> bool {
    ||| s.open_position is None
    ||| s.tracking.exit.exit_reject_deferred_until_bar_ts == Some(bar_ts)
    ||| s.tracking.exit.exit_intent_inflight
}

/// The strategy after sending the live entry of its pending entry with `size` lots.
pub open spec fn spec_entry_sent(s: AlorUsdrubfHybridStrategy, f: AlorUsdrubfHybridStrategy, size: u64) -> bool {
    &&& f.pending_entry == Some(
        PendingHolding { target_qty: size, partial_started_ms: None, ..s.pending_entry->0 },
    )
    &&& f.tracking == (OrderTracking {
        entry_intent_inflight: true,
        hybrid_state: HybridState::Pending,
        lifecycle_stage: f.tracking.lifecycle_stage,
        ..s.tracking
    })
    &&& f.tracking.lifecycle_stage@ == "live_entry_intent_emitted"@
    &&& f == (AlorUsdrubfHybridStrategy { pending_entry: f.pending_entry, tracking: f.tracking, ..s })
}

/// The live entry order of the pending entry with `size` lots.
pub open spec fn spec_entry_order(s: AlorUsdrubfHybridStrategy, o: LiveMarketOrder, size: u64) -> bool {
    &&& o.side == spec_entry_side(s.pending_entry->0.side)
    &&& o.qty == size
    &&& o.comment@ == s.symbol@ + "|entry|"@ + spec_owner_word(s.pending_entry->0.owner)
}

/// The day is over: nothing carries into the new session.
pub open spec fn spec_day_reset(s: AlorUsdrubfHybridStrategy, f: AlorUsdrubfHybridStrategy) -> bool {
    &&& f.pending_entry is None
    &&& f.open_position is None
    &&& f.tracking.pending_request_ids@.len() == 0
    &&& f.tracking.tracked_order_ids@.len() == 0
    &&& f.tracking == (OrderTracking {
        pending_request_ids: f.tracking.pending_request_ids,
        tracked_order_ids: f.tracking.tracked_order_ids,
        entry_intent_inflight: false,
        exit: ExitTracking { exit_intent_inflight: false, ..s.tracking.exit },
        hybrid_state: HybridState::Flat,
        ..s.tracking
    })
    &&& !f.bo_was_long_today
    &&& !f.bo_was_short_today
    &&& f == (AlorUsdrubfHybridStrategy {
        pending_entry: None,
        open_position: None,
        tracking: f.tracking,
        bo_was_long_today: false,
        bo_was_short_today: false,
        ..s
    })
}


/// One live-entry attempt on the bar at `bar_ts` with `size` lots: nothing when blocked,
/// else the entry order goes out and the strategy waits for it.
pub open spec fn spec_entry_stepped(
    s: AlorUsdrubfHybridStrategy,
    f: AlorUsdrubfHybridStrategy,
    r: Option<LiveMarketOrder>,
    bar_ts: i64,
    size: u64,
) -> bool {
    &&& spec_entry_blocked(s, bar_ts) ==> r is None && f == s
    &&& !spec_entry_blocked(s, bar_ts) ==> (r matches Some(o) && spec_entry_order(s, o, size)
        && spec_entry_sent(s, f, size))
}

/// One live-exit attempt on the bar at `bar_ts` for `reason`: nothing when blocked, else
/// the bracket is cancelled and the whole position closed at market.
pub open spec fn spec_exit_stepped(
    s: AlorUsdrubfHybridStrategy,
    f: AlorUsdrubfHybridStrategy,
    r: Option<(Vec<CleanupIntent>, LiveMarketOrder)>,
    reason: Seq<char>,
    bar_ts: i64,
) -> bool {
    &&& spec_exit_blocked(s, bar_ts) ==> r is None && f == s
    &&& !spec_exit_blocked(s, bar_ts) ==> (r matches Some((cleanup, o)) && {
        let pos = s.open_position->0;
        &&& cleanup@.map_values(|c: CleanupIntent| c@) == spec_cleanup(
            s.tracking.protection.tp_order_id,
            opt_chars(s.tracking.protection.sl_stop_order_id),
            s.tracking.protection.sl_exchange_order_id,
            Some(spec_exit_side(pos.side)),
        )
        &&& o.side == spec_exit_side(pos.side)
        &&& o.qty == pos.size
        &&& o.comment@ == s.symbol@ + "|exit|"@ + reason
        &&& f.tracking.protection.tp_order_id is None
        &&& f.tracking.protection.sl_stop_order_id is None
        &&& f.tracking.protection.sl_exchange_order_id is None
        &&& f.tracking.protection.pending_tp_bar_ts_utc is None
        &&& f.tracking.protection.pending_sl_bar_ts_utc is None
        &&& f.tracking.lifecycle_stage@ == "live_exit_intent_emitted"@
        &&& f.tracking == (OrderTracking {
            exit: ExitTracking { exit_intent_inflight: true, ..s.tracking.exit },
            protection: f.tracking.protection,
            lifecycle_stage: f.tracking.lifecycle_stage,
            ..s.tracking
        })
        &&& f == (AlorUsdrubfHybridStrategy { tracking: f.tracking, ..s })
    })
}

impl AlorUsdrubfHybridStrategy {
    /// Starts a new trading day: the strategy carries nothing across sessions, so the
    /// pending entry, the open position, the tracked requests and orders and the in-flight
    /// flags are dropped, the state is flat and no breakout has fired today.
    pub fn reset_day(&mut self)
        ensures
            spec_day_reset(*old(self), *final(self)),
    {
        self.pending_entry = None;
        self.open_position = None;
        self.tracking.pending_request_ids = Vec::new();
        self.tracking.tracked_order_ids = Vec::new();
        self.tracking.entry_intent_inflight = false;
        self.tracking.exit.exit_intent_inflight = false;
        self.tracking.hybrid_state = HybridState::Flat;
        self.bo_was_long_today = false;
        self.bo_was_short_today = false;
    }

    /// Sends the live entry of the pending entry on the bar at `bar_ts`, sized at `size`
    /// lots (which becomes the entry's target), unless it is blocked (see
    /// `spec_entry_blocked`).
    pub fn maybe_emit_live_entry_intent(&mut self, bar_ts: i64, size: u64) -> (r: Option<LiveMarketOrder>)
        ensures
            spec_entry_stepped(*old(self), *final(self), r, bar_ts, size),
    {
        let p = match self.pending_entry {
            Some(p) => p,
            None => return None,
        };
        if self.tracking.entry_reject_deferred_until_bar_ts == Some(bar_ts) {
            return None;
        }
        if self.tracking.entry_intent_inflight || self.open_position.is_some() {
            return None;
        }
        self.pending_entry = Some(PendingHolding { target_qty: size, partial_started_ms: None, ..p });
        let c1 = concat_str(self.symbol.as_str(), "|entry|");
        let comment = concat_str(c1.as_str(), p.owner.as_str());
        self.tracking.entry_intent_inflight = true;
        self.tracking.hybrid_state = HybridState::Pending;
        self.tracking.lifecycle_stage = String::from_str("live_entry_intent_emitted");
        Some(LiveMarketOrder { side: p.side.entry_side(), qty: size, comment })
    }

    /// Sends the live exit of the open position on the bar at `bar_ts` for `reason`, unless
    /// it is blocked (see `spec_exit_blocked`): the bracket on the exchange is cancelled
    /// first, then the whole position is closed at market and the exit is in flight.
    pub fn maybe_emit_live_exit_intent(&mut self, reason: &str, bar_ts: i64) -> (r: Option<
        (Vec<CleanupIntent>, LiveMarketOrder),
    >)
        ensures
            spec_exit_stepped(*old(self), *final(self), r, reason@, bar_ts),
    {
        let pos = match self.open_position {
            Some(p) => p,
            None => return None,
        };
        if self.tracking.exit.exit_reject_deferred_until_bar_ts == Some(bar_ts) {
            return None;
        }
        if self.tracking.exit.exit_intent_inflight {
            return None;
        }
        let side = pos.side.exit_side();
        let cleanup = self.tracking.protection.emit_cancel_all_protection(Some(side));
        let c1 = concat_str(self.symbol.as_str(), "|exit|");
        let comment = concat_str(c1.as_str(), reason);
        self.tracking.exit.exit_intent_inflight = true;
        self.tracking.lifecycle_stage = String::from_str("live_exit_intent_emitted");
        Some((cleanup, LiveMarketOrder { side, qty: pos.size, comment }))
    }
}

/// The take-profit leg of the mean-reversion bracket: a limit order on the closing side for
/// the position's size, commented for its role. The caller prices it at the take level.
#[derive(Debug, Clone)]
pub struct TakeProfitLeg {
    pub side: OrderSide,
    pub qty: u64,
    pub comment: String,
}

/// The stop-loss leg of the mean-reversion bracket: a stop-limit order on the closing side
/// for the position's size, with its trigger condition, its lifetime and its comment. The
/// caller prices it at the stop level.
#[derive(Debug, Clone)]
pub struct StopLossLeg {
    pub side: OrderSide,
    pub qty: u64,
    pub condition: StopLimitCondition,
    pub stop_end_unix_time: i64,
    pub comment: String,
}

/// The bracket legs sent for an open mean-reversion position.
#[derive(Debug, Clone)]
pub struct BracketPlan {
    pub take_profit: Option<TakeProfitLeg>,
    pub stop_loss: Option<StopLossLeg>,
}

/// Whether the take-profit leg goes out: the position has a take level and neither a
/// take-profit order nor one in flight exists.
pub open spec fn spec_tp_ready(s: AlorUsdrubfHybridStrategy, has_take_price: bool) -> bool {
    has_take_price && s.tracking.protection.tp_order_id is None
        && s.tracking.protection.pending_tp_bar_ts_utc is None
}

/// Whether the stop-loss leg goes out: the position has a stop level and neither a stop
/// order nor one in flight exists.
pub open spec fn spec_sl_ready(s: AlorUsdrubfHybridStrategy, has_stop_price: bool) -> bool {
    has_stop_price && s.tracking.protection.sl_stop_order_id is None
        && s.tracking.protection.pending_sl_bar_ts_utc is None
}

/// Whether `s` protects its position with a bracket now: a mean-reversion position is open
/// and no exit is in flight (a filled leg is terminal for the bracket until the broker
/// confirms flat).
pub open spec fn spec_bracket_due(s: AlorUsdrubfHybridStrategy) -> bool {
    !s.tracking.exit.exit_intent_inflight && (s.open_position matches Some(p) && p.owner
        == Owner::MeanRev)
}

/// `f` is `s` after the bracket of its position was seen to at `ts` (seconds) for strategy
/// `sid`, with the legs `r`: each missing leg of a due bracket goes out on the closing side
/// for the position's size and is marked in flight since `ts`; nothing else changes.
pub open spec fn spec_bracket_emitted(
    s: AlorUsdrubfHybridStrategy,
    f: AlorUsdrubfHybridStrategy,
    r: BracketPlan,
    sid: Seq<char>,
    ts: i64,
    has_take_price: bool,
    has_stop_price: bool,
) -> bool {
    if !spec_bracket_due(s) {
        r.take_profit is None && r.stop_loss is None && f == s
    } else {
        let p = s.open_position->0;
        let tp = spec_tp_ready(s, has_take_price);
        let sl = spec_sl_ready(s, has_stop_price);
        &&& (if tp {
            r.take_profit matches Some(x) && x.side == spec_exit_side(p.side) && x.qty == p.size
                && x.comment@ == spec_mr_protection_comment(sid, ProtectionRole::Tp)
        } else {
            r.take_profit is None
        })
        &&& (if sl {
            r.stop_loss matches Some(x) && x.side == spec_exit_side(p.side) && x.qty == p.size
                && x.condition == (match p.side {
                PositionSide::Long => StopLimitCondition::LessOrEqual,
                PositionSide::Short => StopLimitCondition::MoreOrEqual,
            }) && x.stop_end_unix_time == (if ts + STOP_LIFETIME_SEC > i64::MAX {
                i64::MAX as int
            } else {
                ts + STOP_LIFETIME_SEC
            }) && x.comment@ == spec_mr_protection_comment(sid, ProtectionRole::Sl)
        } else {
            r.stop_loss is None
        })
        &&& f == (AlorUsdrubfHybridStrategy {
            tracking: OrderTracking {
                protection: MrProtection {
                    pending_tp_bar_ts_utc: if tp {
                        Some(ts)
                    } else {
                        s.tracking.protection.pending_tp_bar_ts_utc
                    },
                    pending_sl_bar_ts_utc: if sl {
                        Some(ts)
                    } else {
                        s.tracking.protection.pending_sl_bar_ts_utc
                    },
                    ..s.tracking.protection
                },
                ..s.tracking
            },
            ..s
        })
    }
}

impl AlorUsdrubfHybridStrategy {
    /// Sees to the bracket of an open mean-reversion position at `ts_utc` for strategy
    /// `strategy_id` (see `spec_bracket_emitted`). The price model says whether the position
    /// has a take level and a stop level. A leg whose outcome is still unknown stays in
    /// flight and is not sent again: a second take profit could over-close the position.
    pub fn maybe_emit_live_mr_brackets(
        &mut self,
        strategy_id: &str,
        ts_utc: i64,
        has_take_price: bool,
        has_stop_price: bool,
    ) -> (r: BracketPlan)
        ensures
            spec_bracket_emitted(
                *old(self),
                *final(self),
                r,
                strategy_id@,
                ts_utc,
                has_take_price,
                has_stop_price,
            ),
    {
        let mut plan = BracketPlan { take_profit: None, stop_loss: None };
        if self.tracking.exit.exit_intent_inflight {
            return plan;
        }
        let pos = match self.open_position {
            Some(p) => p,
            None => return plan,
        };
        if pos.owner != Owner::MeanRev {
            return plan;
        }
        let side = pos.side.exit_side();
        let tp = has_take_price && self.tracking.protection.tp_order_id.is_none()
            && self.tracking.protection.pending_tp_bar_ts_utc.is_none();
        let sl = has_stop_price && self.tracking.protection.sl_stop_order_id.is_none()
            && self.tracking.protection.pending_sl_bar_ts_utc.is_none();
        if tp {
            plan.take_profit = Some(
                TakeProfitLeg {
                    side,
                    qty: pos.size,
                    comment: mr_protection_comment(strategy_id, ProtectionRole::Tp),
                },
            );
            self.tracking.protection.pending_tp_bar_ts_utc = Some(ts_utc);
        }
        if sl {
            plan.stop_loss = Some(
                StopLossLeg {
                    side,
                    qty: pos.size,
                    condition: stop_condition_for_position_side(pos.side),
                    stop_end_unix_time: stop_end_unix_time(ts_utc),
                    comment: mr_protection_comment(strategy_id, ProtectionRole::Sl),
                },
            );
            self.tracking.protection.pending_sl_bar_ts_utc = Some(ts_utc);
        }
        plan
    }
}

/// What a live model bar did: the bracket legs sent for an open mean-reversion position,
/// the exit sent (with the bracket cancelled first), the entry
/// sent, whether a mean-reversion take or stop was left to the bracket on the exchange,
/// and whether a new signal became the pending entry.
#[derive(Debug, Clone)]
pub struct LiveBarActions {
    pub brackets: BracketPlan,
    pub exit: Option<(Vec<CleanupIntent>, LiveMarketOrder)>,
    pub entry: Option<LiveMarketOrder>,
    pub exit_left_to_bracket: bool,
    pub signal_accepted: bool,
}

/// A retry deferral that lapses once a later bar arrives.
pub open spec fn spec_deferral_after(d: Option<i64>, bar_ts: i64) -> Option<i64> {
    match d {
        Some(t) => if bar_ts > t {
            None
        } else {
            Some(t)
        },
        None => None,
    }
}

/// The strategy at the start of a model bar of day `day` at `bar_ts`: the bar counts as
/// processed, the session is `day`, and lapsed retry deferrals are forgotten.
pub open spec fn spec_bar_opened(s: AlorUsdrubfHybridStrategy, day: i32, bar_ts: i64) -> AlorUsdrubfHybridStrategy {
    AlorUsdrubfHybridStrategy {
        current_day: Some(day),
        guard: BarGuard { last_processed_bar_ts: Some(bar_ts), ..s.guard },
        tracking: OrderTracking {
            entry_reject_deferred_until_bar_ts: spec_deferral_after(
                s.tracking.entry_reject_deferred_until_bar_ts,
                bar_ts,
            ),
            exit: ExitTracking {
                exit_reject_deferred_until_bar_ts: spec_deferral_after(
                    s.tracking.exit.exit_reject_deferred_until_bar_ts,
                    bar_ts,
                ),
                ..s.tracking.exit
            },
            ..s.tracking
        },
        ..s
    }
}

/// Whether an exit reason is a mean-reversion take or stop of an open mean-reversion
/// position, which the bracket on the exchange serves.
pub open spec fn spec_bracket_serves_exit(s: AlorUsdrubfHybridStrategy, reason: Seq<char>) -> bool {
    s.open_position matches Some(p) && p.owner == Owner::MeanRev && (reason == "mr_take"@ || reason
        == "mr_stop"@)
}

/// The strategy once a research signal became its pending entry.
pub open spec fn spec_signal_taken(
    s: AlorUsdrubfHybridStrategy,
    owner: Owner,
    side: PositionSide,
) -> AlorUsdrubfHybridStrategy {
    AlorUsdrubfHybridStrategy {
        pending_entry: Some(
            PendingHolding { owner, side, target_qty: s.live_target_qty, partial_started_ms: None },
        ),
        tracking: OrderTracking { hybrid_state: HybridState::Pending, ..s.tracking },
        bo_was_long_today: s.bo_was_long_today || (owner == Owner::Breakout && side
            == PositionSide::Long),
        bo_was_short_today: s.bo_was_short_today || (owner == Owner::Breakout && side
            == PositionSide::Short),
        ..s
    }
}

/// The rest of a live model bar from the opened strategy `d`: an exit signal is served by
/// the bracket or sent; otherwise the pending entry is sent (sized for the bar's open),
/// or, with nothing pending, open or in flight, a research signal becomes the pending
/// entry and is sent at once (sized for the bar's close).
pub open spec fn spec_live_bar_rest(
    d: AlorUsdrubfHybridStrategy,
    f: AlorUsdrubfHybridStrategy,
    r: LiveBarActions,
    bar_ts: i64,
    exit_reason: Option<Seq<char>>,
    signal: Option<(Owner, PositionSide)>,
    size_at_open: u64,
    size_at_close: u64,
) -> bool {
    match exit_reason {
        Some(reason) => if spec_bracket_serves_exit(d, reason) {
            &&& r.exit_left_to_bracket
            &&& r.exit is None && r.entry is None && !r.signal_accepted
            &&& f == d
        } else {
            &&& !r.exit_left_to_bracket && r.entry is None && !r.signal_accepted
            &&& spec_exit_stepped(d, f, r.exit, reason, bar_ts)
        },
        None => {
            &&& !r.exit_left_to_bracket && r.exit is None
            &&& if !spec_entry_blocked(d, bar_ts) {
                !r.signal_accepted && spec_entry_stepped(d, f, r.entry, bar_ts, size_at_open)
            } else if d.open_position is None && d.pending_entry is None
                && !d.tracking.entry_intent_inflight && signal is Some {
                let (o, sd) = signal->0;
                r.signal_accepted && spec_entry_stepped(
                    spec_signal_taken(d, o, sd),
                    f,
                    r.entry,
                    bar_ts,
                    size_at_close,
                )
            } else {
                !r.signal_accepted && r.entry is None && f == d
            }
        },
    }
}

/// `f` is `s` after a live model bar of local day `day` at `bar_ts` with actions `r`, for
/// strategy `sid`: a new day first resets the strategy, the bar opens (`spec_bar_opened`),
/// the bracket of an open mean-reversion position is seen to (`spec_bracket_emitted`), the
/// rest is `spec_live_bar_rest`, and the state is synchronized.
pub open spec fn spec_live_bar(
    s: AlorUsdrubfHybridStrategy,
    f: AlorUsdrubfHybridStrategy,
    r: LiveBarActions,
    sid: Seq<char>,
    day: i32,
    bar_ts: i64,
    has_take_price: bool,
    has_stop_price: bool,
    exit_reason: Option<Seq<char>>,
    signal: Option<(Owner, PositionSide)>,
    size_at_open: u64,
    size_at_close: u64,
) -> bool {
    &&& exists|m: AlorUsdrubfHybridStrategy, d: AlorUsdrubfHybridStrategy, m2: AlorUsdrubfHybridStrategy|
        #![trigger spec_bracket_emitted(spec_bar_opened(m, day, bar_ts), d, r.brackets, sid, bar_ts, has_take_price, has_stop_price), spec_live_bar_rest(d, m2, r, bar_ts, exit_reason, signal, size_at_open, size_at_close)]
        {
        &&& if s.current_day != Some(day) {
            spec_day_reset(s, m)
        } else {
            m == s
        }
        &&& spec_bracket_emitted(
            spec_bar_opened(m, day, bar_ts),
            d,
            r.brackets,
            sid,
            bar_ts,
            has_take_price,
            has_stop_price,
        )
        &&& spec_live_bar_rest(d, m2, r, bar_ts, exit_reason, signal, size_at_open, size_at_close)
        &&& f == (AlorUsdrubfHybridStrategy { persisted: f.persisted, ..m2 })
    }
    &&& spec_persisted(f, f.persisted)
}

impl AlorUsdrubfHybridStrategy {
    /// A live bar of local day `day` at `bar_ts` that the replay guard let through and that
    /// lies in the model session. A new day first resets the strategy (see `reset_day`);
    /// lapsed retry deferrals are dropped and the bar counts as processed. The research
    /// model, which works on prices, hands in its exit reason, its signal and the entry
    /// sizes for the bar's open and close; the decisions are in `spec_live_bar_rest`.
    pub fn on_live_model_bar(
        &mut self,
        strategy_id: &str,
        day: i32,
        bar_ts: i64,
        has_take_price: bool,
        has_stop_price: bool,
        exit_reason: Option<&str>,
        signal: Option<(Owner, PositionSide)>,
        size_at_open: u64,
        size_at_close: u64,
    ) -> (r: LiveBarActions)
        ensures
            spec_live_bar(
                *old(self),
                *final(self),
                r,
                strategy_id@,
                day,
                bar_ts,
                has_take_price,
                has_stop_price,
                match exit_reason {
                    Some(t) => Some(t@),
                    None => None,
                },
                signal,
                size_at_open,
                size_at_close,
            ),
            spec_persisted(*final(self), final(self).persisted),
    {
        let r = self.live_model_bar_step(
            strategy_id,
            day,
            bar_ts,
            has_take_price,
            has_stop_price,
            exit_reason,
            signal,
            size_at_open,
            size_at_close,
        );
        let ghost m2 = *self;
        self.sync_state();
        assert(*self == (AlorUsdrubfHybridStrategy { persisted: self.persisted, ..m2 }));
        r
    }

    /// The decisions of a live model bar, before the state is synchronized (see
    /// `on_live_model_bar`).
    fn live_model_bar_step(
        &mut self,
        strategy_id: &str,
        day: i32,
        bar_ts: i64,
        has_take_price: bool,
        has_stop_price: bool,
        exit_reason: Option<&str>,
        signal: Option<(Owner, PositionSide)>,
        size_at_open: u64,
        size_at_close: u64,
    ) -> (r: LiveBarActions)
        ensures
            exists|m: AlorUsdrubfHybridStrategy, d: AlorUsdrubfHybridStrategy| {
                &&& if old(self).current_day != Some(day) {
                    spec_day_reset(*old(self), m)
                } else {
                    m == *old(self)
                }
                &&& spec_bracket_emitted(
                    spec_bar_opened(m, day, bar_ts),
                    d,
                    r.brackets,
                    strategy_id@,
                    bar_ts,
                    has_take_price,
                    has_stop_price,
                )
                &&& spec_live_bar_rest(
                    d,
                    *final(self),
                    r,
                    bar_ts,
                    match exit_reason {
                        Some(t) => Some(t@),
                        None => None,
                    },
                    signal,
                    size_at_open,
                    size_at_close,
                )
            },
    {
        if self.current_day != Some(day) {
            self.reset_day();
        }
        let ghost m = *self;
        self.current_day = Some(day);
        self.guard.last_processed_bar_ts = Some(bar_ts);
        self.tracking.clear_expired_deferrals(bar_ts);
        assert(*self == spec_bar_opened(m, day, bar_ts));
        let brackets = self.maybe_emit_live_mr_brackets(strategy_id, bar_ts, has_take_price, has_stop_price);
        let mut actions = LiveBarActions {
            brackets,
            exit: None,
            entry: None,
            exit_left_to_bracket: false,
            signal_accepted: false,
        };
        match exit_reason {
            Some(reason) => {
                let bracket = match self.open_position {
                    Some(p) => p.owner == Owner::MeanRev && (str_eq(reason, "mr_take") || str_eq(
                        reason,
                        "mr_stop",
                    )),
                    None => false,
                };
                if bracket {
                    actions.exit_left_to_bracket = true;
                } else {
                    actions.exit = self.maybe_emit_live_exit_intent(reason, bar_ts);
                }
                return actions;
            },
            None => {},
        }
        let blocked = match self.pending_entry {
            None => true,
            Some(_) => self.tracking.entry_reject_deferred_until_bar_ts == Some(bar_ts)
                || self.tracking.entry_intent_inflight || self.open_position.is_some(),
        };
        if !blocked {
            actions.entry = self.maybe_emit_live_entry_intent(bar_ts, size_at_open);
            return actions;
        }
        if self.open_position.is_none() && self.pending_entry.is_none()
            && !self.tracking.entry_intent_inflight {
            match signal {
                Some((owner, side)) => {
                    if owner == Owner::Breakout {
                        if side == PositionSide::Long {
                            self.bo_was_long_today = true;
                        } else {
                            self.bo_was_short_today = true;
                        }
                    }
                    self.pending_entry = Some(
                        PendingHolding {
                            owner,
                            side,
                            target_qty: self.live_target_qty,
                            partial_started_ms: None,
                        },
                    );
                    self.tracking.hybrid_state = HybridState::Pending;
                    actions.signal_accepted = true;
                    actions.entry = self.maybe_emit_live_entry_intent(bar_ts, size_at_close);
                },
                None => {},
            }
        }
        actions
    }
}

/// The persisted form of a strategy (see `AlorUsdrubfHybridStrategy::state`).
pub open spec fn spec_persisted(s: AlorUsdrubfHybridStrategy, st: AlorUsdrubfHybridState) -> bool {
    &&& st.lifecycle_stage@ == s.tracking.lifecycle_stage@
    &&& st.last_bar_ts == s.tracking.last_bar_ts
    &&& st.last_processed_bar_ts == s.guard.last_processed_bar_ts
    &&& st.bootstrap_seen == s.bootstrap_seen
    &&& st.runtime_state_restored == s.runtime_state_restored
    &&& st.live_ready == s.guard.live_ready
    &&& st.hybrid_state@ == spec_hybrid_state_word(s.tracking.hybrid_state)
    &&& (match st.current_date_local {
        Some(t) => s.current_day matches Some(d) && day_in_range(d as int) && t@ == chrono_date_text(d),
        None => !(s.current_day matches Some(d) && day_in_range(d as int)),
    })
    &&& st.bo_was_long_today == s.bo_was_long_today
    &&& st.bo_was_short_today == s.bo_was_short_today
    &&& (match st.pending_entry_owner {
        Some(t) => s.pending_entry matches Some(p) && t@ == spec_owner_word(p.owner),
        None => s.pending_entry is None,
    })
    &&& (match st.pending_entry_side {
        Some(t) => s.pending_entry matches Some(p) && t@ == spec_position_side_word(p.side),
        None => s.pending_entry is None,
    })
    &&& crate::idset::requests_ascending(st.pending_request_ids@)
    &&& st.pending_request_ids@.to_set() == s.tracking.pending_request_ids@.to_set()
    &&& crate::idset::ids_ascending(st.tracked_order_ids@)
    &&& st.tracked_order_ids@.to_set() == s.tracking.tracked_order_ids@.to_set()
    &&& st.entry_intent_inflight == s.tracking.entry_intent_inflight
    &&& st.exit_intent_inflight == s.tracking.exit.exit_intent_inflight
    &&& (match st.open_position_owner {
        Some(t) => s.open_position matches Some(p) && t@ == spec_owner_word(p.owner),
        None => s.open_position is None,
    })
    &&& (match st.open_position_side {
        Some(t) => s.open_position matches Some(p) && t@ == spec_position_side_word(p.side),
        None => s.open_position is None,
    })
    &&& st.open_position_lots == (match s.open_position {
        Some(p) => if p.size <= i64::MAX {
            p.size as int
        } else {
            i64::MAX as int
        },
        None => 0,
    })
}

impl AlorUsdrubfHybridStrategy {
    /// The state to persist: the stage, bar times and readiness, the hybrid state and the
    /// session day as words, the pending entry's and open position's owner and direction
    /// as words, the open size in lots (saturated), the requests and orders tracked
    /// (ascending, each once) and the in-flight flags.
    fn snapshot(&self) -> (st: AlorUsdrubfHybridState)
        ensures
            spec_persisted(*self, st),
    {
        let current_date_local = match self.current_day {
            Some(d) => if crate::clock::MIN_EPOCH_DAY <= d && d <= crate::clock::MAX_EPOCH_DAY {
                Some(date_text(d))
            } else {
                None
            },
            None => None,
        };
        let (po, ps) = match self.pending_entry {
            Some(p) => (Some(String::from_str(p.owner.as_str())), Some(String::from_str(p.side.as_str()))),
            None => (None, None),
        };
        let (oo, os, lots) = match self.open_position {
            Some(p) => (
                Some(String::from_str(p.owner.as_str())),
                Some(String::from_str(p.side.as_str())),
                if p.size <= 9_223_372_036_854_775_807u64 {
                    p.size as i64
                } else {
                    i64::MAX
                },
            ),
            None => (None, None, 0i64),
        };
        AlorUsdrubfHybridState {
            lifecycle_stage: self.tracking.lifecycle_stage.clone(),
            last_bar_ts: self.tracking.last_bar_ts,
            last_processed_bar_ts: self.guard.last_processed_bar_ts,
            bootstrap_seen: self.bootstrap_seen,
            runtime_state_restored: self.runtime_state_restored,
            live_ready: self.guard.live_ready,
            hybrid_state: String::from_str(self.tracking.hybrid_state.as_str()),
            current_date_local,
            bo_was_long_today: self.bo_was_long_today,
            bo_was_short_today: self.bo_was_short_today,
            pending_entry_owner: po,
            pending_entry_side: ps,
            pending_request_ids: self.tracking.pending_request_ids(),
            tracked_order_ids: self.tracking.tracked_order_ids(),
            entry_intent_inflight: self.tracking.entry_intent_inflight,
            open_position_owner: oo,
            open_position_side: os,
            exit_intent_inflight: self.tracking.exit.exit_intent_inflight,
            open_position_lots: lots,
        }
    }

    /// Records the strategy's current state as the one to persist (see `snapshot`).
    pub fn sync_state(&mut self)
        ensures
            spec_persisted(*final(self), final(self).persisted),
            *final(self) == (AlorUsdrubfHybridStrategy { persisted: final(self).persisted, ..*old(self) }),
    {
        self.persisted = self.snapshot();
    }

    /// The state last synchronized or restored: after `set_state` it is the restored state
    /// itself, until the next event that synchronizes the strategy.
    pub fn state(&self) -> (st: &AlorUsdrubfHybridState)
        ensures
            *st == self.persisted,
    {
        &self.persisted
    }

    /// Judges a bar with the replay guard (see `BarGuard::gate_bar`); a bar that is not
    /// ignored also becomes the order tracking's last bar and stage.
    pub fn gate_bar(
        &mut self,
        bar_symbol: &str,
        live_run: bool,
        enable_live_execution: bool,
        now_ts_utc: i64,
        bar_ts: i64,
        origin: DataOrigin,
        max_silence_bars_sec: u64,
    ) -> (v: BarVerdict)
        ensures
            v == spec_bar_verdict(
                old(self).guard,
                bar_symbol@ == old(self).symbol@,
                live_run,
                enable_live_execution,
                now_ts_utc,
                bar_ts,
                origin,
                max_silence_bars_sec,
            ),
            guard_stepped(old(self).guard, final(self).guard, v, bar_ts),
            v is Ignored ==> final(self).tracking == old(self).tracking,
            !(v is Ignored) ==> final(self).tracking == (OrderTracking {
                last_bar_ts: Some(bar_ts),
                lifecycle_stage: final(self).guard.lifecycle_stage,
                ..old(self).tracking
            }),
            *final(self) == (AlorUsdrubfHybridStrategy {
                guard: final(self).guard,
                tracking: final(self).tracking,
                persisted: final(self).persisted,
                ..*old(self)
            }),
            (v is Ignored || v is Proceed) ==> final(self).persisted == old(self).persisted,
            !(v is Ignored || v is Proceed) ==> spec_persisted(*final(self), final(self).persisted),
    {
        let v = self.guard.gate_bar(
            self.symbol.as_str(),
            bar_symbol,
            live_run,
            enable_live_execution,
            now_ts_utc,
            bar_ts,
            origin,
            max_silence_bars_sec,
        );
        let ignored = match v {
            BarVerdict::Ignored => true,
            _ => false,
        };
        if !ignored {
            self.tracking.last_bar_ts = Some(bar_ts);
            self.tracking.lifecycle_stage = self.guard.lifecycle_stage.clone();
        }
        let proceeds = match v {
            BarVerdict::Proceed { .. } => true,
            _ => false,
        };
        if !ignored && !proceeds {
            self.sync_state();
        }
        v
    }

    /// A bar that proceeded past the guard but lies outside the model session: it counts
    /// as processed and the stage says so.
    pub fn suppress_outside_session(&mut self, bar_ts: i64)
        ensures
            final(self).guard == (BarGuard {
                last_processed_bar_ts: Some(bar_ts),
                lifecycle_stage: final(self).guard.lifecycle_stage,
                ..old(self).guard
            }),
            final(self).guard.lifecycle_stage@ == "outside_model_session_suppressed"@,
            final(self).tracking == (OrderTracking {
                lifecycle_stage: final(self).tracking.lifecycle_stage,
                ..old(self).tracking
            }),
            final(self).tracking.lifecycle_stage@ == "outside_model_session_suppressed"@,
            *final(self) == (AlorUsdrubfHybridStrategy {
                guard: final(self).guard,
                tracking: final(self).tracking,
                persisted: final(self).persisted,
                ..*old(self)
            }),
            spec_persisted(*final(self), final(self).persisted),
    {
        self.guard.last_processed_bar_ts = Some(bar_ts);
        self.guard.lifecycle_stage = String::from_str("outside_model_session_suppressed");
        self.tracking.lifecycle_stage = String::from_str("outside_model_session_suppressed");
        self.sync_state();
    }
}

/// Every hybrid state reads back from its recorded word.
pub proof fn lemma_hybrid_state_word_round_trip(h: HybridState)
    ensures
        spec_parse_hybrid_state(spec_hybrid_state_word(h)) == h,
{
    reveal_strlit("flat");
    reveal_strlit("pending");
    reveal_strlit("open");
    assert("flat"@ != "pending"@ && "flat"@ != "open"@) by {
        assert("flat"@[0] != "pending"@[0]);
        assert("flat"@[0] != "open"@[0]);
    }
    assert("open"@ != "pending"@) by {
        assert("open"@[0] != "pending"@[0]);
    }
}

/// Restoring the state a strategy persisted gives back what it holds: its stage, bar
/// times and readiness, hybrid state, breakout flags, in-flight flags, the requests and
/// orders tracked (as sets), the owner and direction of its pending entry, and its open
/// position whenever that holds from one to `i64::MAX` lots. The restored pending entry takes the
/// configured live size and has no partial fill yet; the bracket and retry deferrals are
/// not persisted.
pub proof fn lemma_state_round_trip(
    s: AlorUsdrubfHybridStrategy,
    st: AlorUsdrubfHybridState,
    g: AlorUsdrubfHybridStrategy,
    f: AlorUsdrubfHybridStrategy,
)
    requires
        spec_persisted(s, st),
        spec_restored(g, st, f),
        s.open_position matches Some(p) ==> 1 <= p.size <= i64::MAX,
    ensures
        f.tracking.lifecycle_stage@ == s.tracking.lifecycle_stage@,
        f.tracking.last_bar_ts == s.tracking.last_bar_ts,
        f.guard.last_processed_bar_ts == s.guard.last_processed_bar_ts,
        f.guard.live_ready == s.guard.live_ready,
        f.bootstrap_seen == s.bootstrap_seen,
        f.runtime_state_restored == s.runtime_state_restored,
        f.tracking.hybrid_state == s.tracking.hybrid_state,
        f.bo_was_long_today == s.bo_was_long_today,
        f.bo_was_short_today == s.bo_was_short_today,
        f.tracking.entry_intent_inflight == s.tracking.entry_intent_inflight,
        f.tracking.exit.exit_intent_inflight == s.tracking.exit.exit_intent_inflight,
        f.tracking.pending_request_ids@.to_set() == s.tracking.pending_request_ids@.to_set(),
        f.tracking.tracked_order_ids@.to_set() == s.tracking.tracked_order_ids@.to_set(),
        f.open_position == s.open_position,
        match s.pending_entry {
            Some(p) => f.pending_entry == Some(
                PendingHolding {
                    owner: p.owner,
                    side: p.side,
                    target_qty: g.live_target_qty,
                    partial_started_ms: None,
                },
            ),
            None => f.pending_entry is None,
        },
{
    lemma_hybrid_state_word_round_trip(s.tracking.hybrid_state);
    match s.pending_entry {
        Some(p) => {
            lemma_owner_word_round_trip(p.owner);
            lemma_position_side_word_round_trip(p.side);
        },
        None => {},
    }
    match s.open_position {
        Some(p) => {
            lemma_owner_word_round_trip(p.owner);
            lemma_position_side_word_round_trip(p.side);
        },
        None => {},
    }
}

/// The owner the strategy's own holdings name: the open position's, else the pending
/// entry's.
pub open spec fn spec_held_owner(s: AlorUsdrubfHybridStrategy) -> Option<Owner> {
    match s.open_position {
        Some(o) => Some(o.owner),
        None => match s.pending_entry {
            Some(p) => Some(p.owner),
            None => None,
        },
    }
}

impl AlorUsdrubfHybridStrategy {
    /// A bootstrap snapshot with the broker position `position_qty` (if the snapshot has
    /// one for the symbol): the order tracking is rebuilt from the snapshot (see
    /// `OrderTracking::on_bootstrap_snapshot`), with the owner the holdings name; the
    /// replay guard is re-armed under the resulting stage. An open position is adopted
    /// (the pending entry dropped), and a flat one drops both holdings.
    pub fn on_bootstrap_snapshot(
        &mut self,
        orders: &Vec<BootstrapOrder>,
        stop_orders: &Vec<BootstrapStopOrder>,
        position_qty: Option<i64>,
    ) -> (b: BootstrapPosition)
        ensures
            bootstrap_applied(
                old(self).tracking,
                final(self).tracking,
                b,
                old(self).symbol@,
                orders@,
                stop_orders@,
                position_qty,
                spec_held_owner(*old(self)),
            ),
            !final(self).guard.live_ready,
            !final(self).guard.startup_replay_tail_info_emitted,
            !final(self).guard.awaiting_live_bar_info_emitted,
            !final(self).guard.recovered_bar_suppressed_info_emitted,
            final(self).guard.lifecycle_stage@ == final(self).tracking.lifecycle_stage@,
            final(self).guard.last_processed_bar_ts == old(self).guard.last_processed_bar_ts,
            final(self).bootstrap_seen,
            match b {
                BootstrapPosition::Adopt { owner, owner_confirmed, side, size } => {
                    &&& final(self).open_position == Some(OpenHolding { owner, side, size })
                    &&& final(self).pending_entry is None
                    &&& final(self).owner_confirmed_by_live_event == owner_confirmed
                },
                BootstrapPosition::Flat | BootstrapPosition::PendingReconcile => {
                    &&& final(self).open_position is None
                    &&& final(self).pending_entry is None
                    &&& final(self).owner_confirmed_by_live_event
                },
                BootstrapPosition::Absent => {
                    &&& final(self).open_position == old(self).open_position
                    &&& final(self).pending_entry == old(self).pending_entry
                    &&& final(self).owner_confirmed_by_live_event == old(self).owner_confirmed_by_live_event
                },
            },
            final(self).symbol == old(self).symbol,
            spec_persisted(*final(self), final(self).persisted),
    {
        let inferred = infer_owner_from_existing_state(
            match self.open_position {
                Some(o) => Some(o.owner),
                None => None,
            },
            match self.pending_entry {
                Some(p) => Some(p.owner),
                None => None,
            },
        );
        let b = self.tracking.on_bootstrap_snapshot(
            self.symbol.as_str(),
            orders,
            stop_orders,
            position_qty,
            inferred,
        );
        let stage = self.tracking.lifecycle_stage.clone();
        self.guard.rearm(stage.as_str());
        self.bootstrap_seen = true;
        match b {
            BootstrapPosition::Adopt { owner, owner_confirmed, side, size } => {
                self.open_position = Some(OpenHolding { owner, side, size });
                self.pending_entry = None;
                self.owner_confirmed_by_live_event = owner_confirmed;
            },
            BootstrapPosition::Flat | BootstrapPosition::PendingReconcile => {
                self.open_position = None;
                self.pending_entry = None;
                self.owner_confirmed_by_live_event = true;
            },
            BootstrapPosition::Absent => {},
        }
        self.sync_state();
        b
    }
}

impl AlorUsdrubfHybridStrategy {
    /// A command acknowledgement, handled by the order tracking (see `OrderTracking::on_ack`)
    /// against the open position and the pending entry the strategy holds.
    pub fn on_ack(
        &mut self,
        request_id: u128,
        broker_order_id: Option<i64>,
        status: crate::host::AckStatus,
    ) -> (p: RejectPolicy)
        ensures
            ack_applied(
                old(self).tracking,
                final(self).tracking,
                p,
                request_id,
                broker_order_id,
                status,
                old(self).open_position is Some,
                old(self).pending_entry is Some,
            ),
            *final(self) == (AlorUsdrubfHybridStrategy {
                tracking: final(self).tracking,
                persisted: final(self).persisted,
                ..*old(self)
            }),
            crate::host::ack_is_positive(status) ==> final(self).persisted == old(self).persisted,
            !crate::host::ack_is_positive(status) ==> spec_persisted(*final(self), final(self).persisted),
    {
        let has_open = self.open_position.is_some();
        let has_pending = self.pending_entry.is_some();
        let p = self.tracking.on_ack(request_id, broker_order_id, status, has_open, has_pending);
        if !crate::host::is_positive_ack(status) {
            self.sync_state();
        }
        p
    }
}

impl AlorUsdrubfHybridStrategy {
    /// An order update, handled by the order tracking (see `OrderTracking::on_order`)
    /// against what the strategy holds: a mean-reversion position open, any position open,
    /// a pending entry.
    pub fn on_order(
        &mut self,
        order_symbol: &str,
        order_id: i64,
        request_id: Option<u128>,
        status: &str,
        comment: Option<&str>,
        now_ms: i64,
    )
        ensures
            order_applied(
                old(self).tracking,
                final(self).tracking,
                order_symbol@ == old(self).symbol@,
                order_id,
                request_id,
                status@,
                match comment {
                    Some(c) => Some(c@),
                    None => None,
                },
                old(self).open_position matches Some(p) && p.owner == Owner::MeanRev,
                old(self).open_position is Some,
                old(self).pending_entry is Some,
                now_ms,
            ),
            *final(self) == (AlorUsdrubfHybridStrategy {
                tracking: final(self).tracking,
                persisted: final(self).persisted,
                ..*old(self)
            }),
            !(order_symbol@ == old(self).symbol@ && order_id > 0) ==> final(self).persisted == old(
                self,
            ).persisted,
            (order_symbol@ == old(self).symbol@ && order_id > 0) ==> spec_persisted(*final(self), final(self).persisted),
    {
        let same = str_eq(order_symbol, self.symbol.as_str());
        let mr_open = match self.open_position {
            Some(p) => p.owner == Owner::MeanRev,
            None => false,
        };
        let has_open = self.open_position.is_some();
        let has_pending = self.pending_entry.is_some();
        self.tracking.on_order(same, order_id, request_id, status, comment, mr_open, has_open, has_pending, now_ms);
        if same && order_id > 0 {
            self.sync_state();
        }
    }
}

impl AlorUsdrubfHybridStrategy {
    /// A stop-order update: it applies to the order tracking (see
    /// `OrderTracking::on_stop_order`) only for the strategy's symbol, with a
    /// mean-reversion position held and a comment that names the stop-loss leg.
    pub fn on_stop_order(
        &mut self,
        order_symbol: &str,
        comment: Option<&str>,
        stop_order_id: &str,
        status: &str,
        exchange_order_id: Option<i64>,
        now_ms: i64,
    ) -> (r: Vec<CleanupIntent>)
        ensures
            stop_order_applied(
                old(self).tracking,
                final(self).tracking,
                r,
                order_symbol@ == old(self).symbol@ && (old(self).open_position matches Some(p)
                    && p.owner == Owner::MeanRev) && (match comment {
                    Some(c) => !contains_seq(c@, "|o=MR|r=TP"@) && contains_seq(c@, "|o=MR|r=SL"@),
                    None => false,
                }),
                stop_order_id@,
                status@,
                exchange_order_id,
                now_ms,
            ),
            *final(self) == (AlorUsdrubfHybridStrategy {
                tracking: final(self).tracking,
                persisted: final(self).persisted,
                ..*old(self)
            }),
            spec_persisted(*final(self), final(self).persisted),
    {
        let mr_open = match self.open_position {
            Some(p) => p.owner == Owner::MeanRev,
            None => false,
        };
        let is_sl = match parse_mr_protection_role(comment) {
            Some(ProtectionRole::Sl) => true,
            _ => false,
        };
        let applies = str_eq(order_symbol, self.symbol.as_str()) && mr_open && is_sl;
        let r = self.tracking.on_stop_order(applies, stop_order_id, status, exchange_order_id, now_ms);
        self.sync_state();
        r
    }
}

} // verus!
