use vstd::prelude::*;

use crate::clock::{
    chrono_date_error, chrono_epoch_day, chrono_time_error, chrono_time_of_day, date_parse_error,
    parse_epoch_day, parse_time_of_day, time_parse_error, tod_lt, TimeOfDay,
};
use crate::host::{IntentClass, OrderSide};
use crate::moex_author41_42::{Component, OverlapDecision, ProfileId, ShadowJournalRecord, ShadowSide};
use crate::text::{
    chars_eq_str, concat_str, decimal_text, text_less, text_lt, lemma_text_lt_transitive,
    lemma_text_lt_irreflexive, join_strings, joined, normalize, normalized,
    starts_with_seq, starts_with_str, str_eq, string_from_chars, trim_seq, trimmed, usize_text,
    i64_text,
};
use crate::clock::{shift_timestamp, tod_le, LocalDateTime, day_in_range, TIMESTAMP_LIMIT};
use crate::clock::{
    chrono_compact_stamp, chrono_datetime_debug, chrono_datetime_text, compact_stamp, datetime_debug,
    datetime_text,
};
use crate::host::{AckStatus, DataOrigin, ack_is_positive, StrategyExitRiskStatus};
use crate::moex_author41_42::{RegularSessionPolicy, spec_is_model_bar};
use crate::idset::{holds_text, set_insert_text, sorted_insert_text, texts, texts_sorted};

verus! {

broadcast use vstd::string::group_string_axioms;

/// The views of a sequence of strings.
pub open spec fn views(v: Seq<String>) -> Seq<Seq<char>> {
    v.map_values(|s: String| s@)
}

/// Runtime modes of the RI author41/42 strategy.
#[derive(Debug, Clone, Copy, PartialEq, Eq, Structural)]
pub enum RiAuthor4142RuntimeMode {
    Shadow,
    ProspectiveShadow,
    DryRun,
    MicroLive,
}

/// The mode that a normalized configuration word names, if any.
pub open spec fn spec_mode_from_word(n: Seq<char>) -> Option<RiAuthor4142RuntimeMode> {
    if n == ""@ || n == "shadow"@ || n == "shadow_only"@ {
        Some(RiAuthor4142RuntimeMode::Shadow)
    } else if n == "prospective_shadow"@ || n == "shadow_prospective"@ {
        Some(RiAuthor4142RuntimeMode::ProspectiveShadow)
    } else if n == "dry_run"@ || n == "dryrun"@ {
        Some(RiAuthor4142RuntimeMode::DryRun)
    } else if n == "micro_live"@ || n == "live_micro"@ {
        Some(RiAuthor4142RuntimeMode::MicroLive)
    } else {
        None
    }
}

/// Only the micro-live mode may send orders.
pub open spec fn spec_mode_can_emit(mode: RiAuthor4142RuntimeMode) -> bool {
    mode is MicroLive
}

/// Only the prospective shadow mode runs the live adapter without orders.
pub open spec fn spec_mode_runs_prospective(mode: RiAuthor4142RuntimeMode) -> bool {
    mode is ProspectiveShadow
}

/// Which rule of the configuration a value broke.
#[derive(Debug, Clone, Copy, PartialEq, Eq, Structural)]
pub enum RiConfigCheck {
    UnsupportedMode,
    UnsupportedExecutionPath,
    ExecutionPathNotActionScoped,
    ModeEmissionMismatch,
    TimeframeNot10m,
    InvalidDate,
    InvalidModelTime,
    SessionOrder,
    InvalidAnchorTime,
    MissingTransitionDate,
    IncompleteTransition,
    RolloverOrder,
}

/// A rejected configuration: the rule and the texts that the message quotes.
#[derive(Debug, Clone, PartialEq, Eq)]
pub struct RiConfigError {
    pub check: RiConfigCheck,
    pub values: Vec<String>,
}

/// The message of a configuration error.
pub open spec fn spec_config_message(check: RiConfigCheck, v: Seq<Seq<char>>) -> Seq<char> {
    match check {
        RiConfigCheck::UnsupportedMode => "unsupported ri_author41_42 mode: "@ + v[0],
        RiConfigCheck::UnsupportedExecutionPath => "unsupported ri_author41_42 execution_path: "@
            + v[0],
        RiConfigCheck::ExecutionPathNotActionScoped =>
            "ri_author41_42 requires action_scoped_only execution"@,
        RiConfigCheck::ModeEmissionMismatch =>
            "ri_author41_42 requires mode=micro_live and allow_order_emission=true to be paired"@,
        RiConfigCheck::TimeframeNot10m => "ri_author41_42 frozen model requires 10m timeframe, got "@
            + v[0],
        RiConfigCheck::InvalidDate => "invalid "@ + v[0] + " "@ + v[1] + ": "@ + v[2],
        RiConfigCheck::InvalidModelTime => "invalid ri_author41_42 "@ + v[0] + " "@ + v[1] + ": "@
            + v[2],
        RiConfigCheck::SessionOrder =>
            "ri_author41_42 requires session_start_time < session_end_time, got "@ + v[0] + " >= "@
            + v[1],
        RiConfigCheck::InvalidAnchorTime => "invalid "@ + v[0] + " "@ + v[1] + ": "@ + v[2],
        RiConfigCheck::MissingTransitionDate =>
            "anchor transition requires anchor_transition_date"@,
        RiConfigCheck::IncompleteTransition =>
            "anchor transition requires pre_transition_min_anchor_bars and both pre_transition anchor times"@,
        RiConfigCheck::RolloverOrder =>
            "ri_author41_42 rollover requires target_sessions_before > 0 and fallback >= target"@,
    }
}

/// The number of texts that each kind of error quotes.
pub open spec fn spec_value_count(check: RiConfigCheck) -> nat {
    match check {
        RiConfigCheck::UnsupportedMode | RiConfigCheck::UnsupportedExecutionPath
        | RiConfigCheck::TimeframeNot10m => 1,
        RiConfigCheck::SessionOrder => 2,
        RiConfigCheck::InvalidDate | RiConfigCheck::InvalidModelTime
        | RiConfigCheck::InvalidAnchorTime => 3,
        _ => 0,
    }
}

impl RiConfigError {
    /// An error quoting no text.
    fn plain(check: RiConfigCheck) -> (e: Self)
        ensures
            e.check == check,
            views(e.values@) == Seq::<Seq<char>>::empty(),
    {
        let e = RiConfigError { check, values: Vec::new() };
        assert(views(e.values@) =~= Seq::<Seq<char>>::empty());
        e
    }

    /// An error quoting one text.
    fn quoting(check: RiConfigCheck, a: &str) -> (e: Self)
        ensures
            e.check == check,
            views(e.values@) == seq![a@],
    {
        let mut values: Vec<String> = Vec::new();
        values.push(String::from_str(a));
        assert(views(values@) =~= seq![a@]);
        RiConfigError { check, values }
    }

    /// An error quoting two texts.
    fn quoting2(check: RiConfigCheck, a: &str, b: &str) -> (e: Self)
        ensures
            e.check == check,
            views(e.values@) == seq![a@, b@],
    {
        let mut values: Vec<String> = Vec::new();
        values.push(String::from_str(a));
        values.push(String::from_str(b));
        assert(views(values@) =~= seq![a@, b@]);
        RiConfigError { check, values }
    }

    /// An error quoting a field, its text and the reason chrono gave for refusing it.
    fn refusing(check: RiConfigCheck, field: &str, raw: &str, reason: String) -> (e: Self)
        ensures
            e.check == check,
            views(e.values@) == seq![field@, raw@, reason@],
    {
        let mut values: Vec<String> = Vec::new();
        values.push(String::from_str(field));
        values.push(String::from_str(raw));
        values.push(reason);
        assert(views(values@) =~= seq![field@, raw@, reason@]);
        RiConfigError { check, values }
    }

    /// The human-readable message of the error.
    pub fn message(&self) -> (s: String)
        requires
            self.values@.len() == spec_value_count(self.check),
        ensures
            s@ == spec_config_message(self.check, views(self.values@)),
    {
        match self.check {
            RiConfigCheck::UnsupportedMode => concat_str(
                "unsupported ri_author41_42 mode: ",
                self.values[0].as_str(),
            ),
            RiConfigCheck::UnsupportedExecutionPath => concat_str(
                "unsupported ri_author41_42 execution_path: ",
                self.values[0].as_str(),
            ),
            RiConfigCheck::ExecutionPathNotActionScoped => String::from_str(
                "ri_author41_42 requires action_scoped_only execution",
            ),
            RiConfigCheck::ModeEmissionMismatch => String::from_str(
                "ri_author41_42 requires mode=micro_live and allow_order_emission=true to be paired",
            ),
            RiConfigCheck::TimeframeNot10m => concat_str(
                "ri_author41_42 frozen model requires 10m timeframe, got ",
                self.values[0].as_str(),
            ),
            RiConfigCheck::InvalidDate | RiConfigCheck::InvalidAnchorTime => {
                let a = concat_str("invalid ", self.values[0].as_str());
                let b = concat_str(a.as_str(), " ");
                let c = concat_str(b.as_str(), self.values[1].as_str());
                let d = concat_str(c.as_str(), ": ");
                let s = concat_str(d.as_str(), self.values[2].as_str());
                assert(s@ == "invalid "@ + self.values@[0]@ + " "@ + self.values@[1]@ + ": "@
                    + self.values@[2]@);
                s
            },
            RiConfigCheck::InvalidModelTime => {
                let a = concat_str("invalid ri_author41_42 ", self.values[0].as_str());
                let b = concat_str(a.as_str(), " ");
                let c = concat_str(b.as_str(), self.values[1].as_str());
                let d = concat_str(c.as_str(), ": ");
                concat_str(d.as_str(), self.values[2].as_str())
            },
            RiConfigCheck::SessionOrder => {
                let a = concat_str(
                    "ri_author41_42 requires session_start_time < session_end_time, got ",
                    self.values[0].as_str(),
                );
                let b = concat_str(a.as_str(), " >= ");
                concat_str(b.as_str(), self.values[1].as_str())
            },
            RiConfigCheck::MissingTransitionDate => String::from_str(
                "anchor transition requires anchor_transition_date",
            ),
            RiConfigCheck::IncompleteTransition => String::from_str(
                "anchor transition requires pre_transition_min_anchor_bars and both pre_transition anchor times",
            ),
            RiConfigCheck::RolloverOrder => String::from_str(
                "ri_author41_42 rollover requires target_sessions_before > 0 and fallback >= target",
            ),
        }
    }
}

impl RiAuthor4142RuntimeMode {
    /// Reads a mode from configuration; the word is trimmed and compared in ASCII lower case.
    pub fn parse(raw: &str) -> (r: Result<Self, RiConfigError>)
        ensures
            match spec_mode_from_word(normalized(raw@)) {
                Some(m) => r matches Ok(x) && x == m,
                None => r matches Err(e) && e.check == RiConfigCheck::UnsupportedMode && views(
                    e.values@,
                ) == seq![normalized(raw@)],
            },
    {
        let n = normalize(raw);
        if chars_eq_str(&n, "") || chars_eq_str(&n, "shadow") || chars_eq_str(&n, "shadow_only") {
            Ok(RiAuthor4142RuntimeMode::Shadow)
        } else if chars_eq_str(&n, "prospective_shadow") || chars_eq_str(&n, "shadow_prospective") {
            Ok(RiAuthor4142RuntimeMode::ProspectiveShadow)
        } else if chars_eq_str(&n, "dry_run") || chars_eq_str(&n, "dryrun") {
            Ok(RiAuthor4142RuntimeMode::DryRun)
        } else if chars_eq_str(&n, "micro_live") || chars_eq_str(&n, "live_micro") {
            Ok(RiAuthor4142RuntimeMode::MicroLive)
        } else {
            let other = string_from_chars(&n);
            Err(RiConfigError::quoting(RiConfigCheck::UnsupportedMode, other.as_str()))
        }
    }

    /// Whether the mode may send orders.
    pub fn can_emit_orders(self) -> (b: bool)
        ensures
            b == spec_mode_can_emit(self),
    {
        match self {
            RiAuthor4142RuntimeMode::MicroLive => true,
            _ => false,
        }
    }

    /// Whether the mode runs the live adapter without sending orders.
    pub fn runs_prospective_adapter(self) -> (b: bool)
        ensures
            b == spec_mode_runs_prospective(self),
    {
        match self {
            RiAuthor4142RuntimeMode::ProspectiveShadow => true,
            _ => false,
        }
    }

    /// The configuration word of the mode.
    pub fn as_str(self) -> (s: &'static str)
        ensures
            s@ == spec_mode_word(self),
    {
        match self {
            RiAuthor4142RuntimeMode::Shadow => "shadow",
            RiAuthor4142RuntimeMode::ProspectiveShadow => "prospective_shadow",
            RiAuthor4142RuntimeMode::DryRun => "dry_run",
            RiAuthor4142RuntimeMode::MicroLive => "micro_live",
        }
    }
}

/// How live orders are routed; only action-scoped commands are supported.
#[derive(Debug, Clone, Copy, PartialEq, Eq, Structural)]
pub enum RiAuthor4142ExecutionPath {
    ActionScopedOnly,
}

impl RiAuthor4142ExecutionPath {
    /// Reads an execution path; the word is trimmed and compared in ASCII lower case.
    pub fn parse(raw: &str) -> (r: Result<Self, RiConfigError>)
        ensures
            ({
                let n = normalized(raw@);
                if n == ""@ || n == "action_scoped_only"@ || n == "action-scoped-only"@ {
                    r matches Ok(x) && x == RiAuthor4142ExecutionPath::ActionScopedOnly
                } else {
                    r matches Err(e) && e.check == RiConfigCheck::UnsupportedExecutionPath
                        && views(e.values@) == seq![n]
                }
            }),
    {
        let n = normalize(raw);
        if chars_eq_str(&n, "") || chars_eq_str(&n, "action_scoped_only") || chars_eq_str(
            &n,
            "action-scoped-only",
        ) {
            Ok(RiAuthor4142ExecutionPath::ActionScopedOnly)
        } else {
            let other = string_from_chars(&n);
            Err(RiConfigError::quoting(RiConfigCheck::UnsupportedExecutionPath, other.as_str()))
        }
    }

    /// The configuration word of the path.
    pub fn as_str(self) -> (s: &'static str)
        ensures
            s@ == "action_scoped_only"@,
    {
        "action_scoped_only"
    }
}

/// Settings of the RI author41/42 strategy that govern its model feed, its decisions and
/// whether it may send orders.
#[derive(Debug, Clone)]
pub struct RiAuthor4142LiveConfig {
    pub symbol: String,
    pub profile_id: String,
    pub timeframe: String,
    pub mode: RiAuthor4142RuntimeMode,
    pub allow_order_emission: bool,
    pub execution_path: RiAuthor4142ExecutionPath,
    pub order_symbol: Option<String>,
    pub session_start_time: String,
    pub session_end_time: String,
    pub author41_entry_end_time: String,
    pub author41_time_exit: String,
    pub author42_exit_time: String,
    pub excluded_model_dates: Vec<String>,
    pub min_anchor_bars: usize,
    pub anchor_first_bar_at_or_before: String,
    pub anchor_last_bar_at_or_after: String,
    pub anchor_transition_date: Option<String>,
    pub pre_transition_min_anchor_bars: Option<usize>,
    pub pre_transition_anchor_first_bar_at_or_before: Option<String>,
    pub pre_transition_anchor_last_bar_at_or_after: Option<String>,
    pub actual_expiry_date: Option<String>,
    pub roll_target_sessions_before: u32,
    pub roll_fallback_sessions_before: u32,
    pub timezone_offset_hours: i32,
}

/// Whether chrono reads the text as a time of day.
pub open spec fn time_ok(raw: Seq<char>) -> bool {
    chrono_time_of_day(raw) is Some
}

/// The first text of the list that chrono does not read as a date.
pub open spec fn first_bad_date(dates: Seq<Seq<char>>) -> Option<Seq<char>>
    decreases dates.len(),
{
    if dates.len() == 0 {
        None
    } else if chrono_epoch_day(dates[0]) is None {
        Some(dates[0])
    } else {
        first_bad_date(dates.drop_first())
    }
}

/// Whether any of the anchor-transition settings is present.
pub open spec fn spec_transition_configured(c: RiAuthor4142LiveConfig) -> bool {
    ||| c.anchor_transition_date is Some
    ||| c.pre_transition_min_anchor_bars is Some
    ||| c.pre_transition_anchor_first_bar_at_or_before is Some
    ||| c.pre_transition_anchor_last_bar_at_or_after is Some
}

/// The first rule that the anchor-transition settings break, with the quoted texts.
pub open spec fn spec_transition_failure(c: RiAuthor4142LiveConfig) -> Option<
    (RiConfigCheck, Seq<Seq<char>>),
> {
    if !spec_transition_configured(c) {
        None
    } else if c.anchor_transition_date is None {
        Some((RiConfigCheck::MissingTransitionDate, seq![]))
    } else if chrono_epoch_day(c.anchor_transition_date->0@) is None {
        Some((RiConfigCheck::InvalidDate, seq!["anchor_transition_date"@, c.anchor_transition_date->0@, chrono_date_error(c.anchor_transition_date->0@)]))
    } else if c.pre_transition_min_anchor_bars is None
        || c.pre_transition_anchor_first_bar_at_or_before is None
        || c.pre_transition_anchor_last_bar_at_or_after is None {
        Some((RiConfigCheck::IncompleteTransition, seq![]))
    } else if !time_ok(c.pre_transition_anchor_first_bar_at_or_before->0@) {
        Some(
            (
                RiConfigCheck::InvalidAnchorTime,
                seq![
                    "pre_transition_anchor_first_bar_at_or_before"@,
                    c.pre_transition_anchor_first_bar_at_or_before->0@,
                    chrono_time_error(c.pre_transition_anchor_first_bar_at_or_before->0@),
                ],
            ),
        )
    } else if !time_ok(c.pre_transition_anchor_last_bar_at_or_after->0@) {
        Some(
            (
                RiConfigCheck::InvalidAnchorTime,
                seq![
                    "pre_transition_anchor_last_bar_at_or_after"@,
                    c.pre_transition_anchor_last_bar_at_or_after->0@,
                    chrono_time_error(c.pre_transition_anchor_last_bar_at_or_after->0@),
                ],
            ),
        )
    } else {
        None
    }
}

/// The rules after the anchor transition: the expiry date and the rollover offsets.
pub open spec fn spec_tail_failure(c: RiAuthor4142LiveConfig) -> Option<
    (RiConfigCheck, Seq<Seq<char>>),
> {
    if c.actual_expiry_date is Some && chrono_epoch_day(c.actual_expiry_date->0@) is None {
        Some((RiConfigCheck::InvalidDate, seq!["actual_expiry_date"@, c.actual_expiry_date->0@, chrono_date_error(c.actual_expiry_date->0@)]))
    } else if c.roll_target_sessions_before == 0 || c.roll_fallback_sessions_before
        < c.roll_target_sessions_before {
        Some((RiConfigCheck::RolloverOrder, seq![]))
    } else {
        None
    }
}

/// The rules on the model clock times, in the order they are checked.
pub open spec fn spec_time_failure(c: RiAuthor4142LiveConfig) -> Option<
    (RiConfigCheck, Seq<Seq<char>>),
> {
    if !time_ok(c.session_start_time@) {
        Some((RiConfigCheck::InvalidModelTime, seq!["session_start_time"@, c.session_start_time@, chrono_time_error(c.session_start_time@)]))
    } else if !time_ok(c.session_end_time@) {
        Some((RiConfigCheck::InvalidModelTime, seq!["session_end_time"@, c.session_end_time@, chrono_time_error(c.session_end_time@)]))
    } else if !tod_lt(
        chrono_time_of_day(c.session_start_time@)->0,
        chrono_time_of_day(c.session_end_time@)->0,
    ) {
        Some((RiConfigCheck::SessionOrder, seq![c.session_start_time@, c.session_end_time@]))
    } else if !time_ok(c.author41_entry_end_time@) {
        Some(
            (
                RiConfigCheck::InvalidModelTime,
                seq!["author41_entry_end_time"@, c.author41_entry_end_time@, chrono_time_error(c.author41_entry_end_time@)],
            ),
        )
    } else if !time_ok(c.author41_time_exit@) {
        Some((RiConfigCheck::InvalidModelTime, seq!["author41_time_exit"@, c.author41_time_exit@, chrono_time_error(c.author41_time_exit@)]))
    } else if !time_ok(c.author42_exit_time@) {
        Some((RiConfigCheck::InvalidModelTime, seq!["author42_exit_time"@, c.author42_exit_time@, chrono_time_error(c.author42_exit_time@)]))
    } else if !time_ok(c.anchor_first_bar_at_or_before@) {
        Some(
            (
                RiConfigCheck::InvalidAnchorTime,
                seq!["anchor_first_bar_at_or_before"@, c.anchor_first_bar_at_or_before@, chrono_time_error(c.anchor_first_bar_at_or_before@)],
            ),
        )
    } else if !time_ok(c.anchor_last_bar_at_or_after@) {
        Some(
            (
                RiConfigCheck::InvalidAnchorTime,
                seq!["anchor_last_bar_at_or_after"@, c.anchor_last_bar_at_or_after@, chrono_time_error(c.anchor_last_bar_at_or_after@)],
            ),
        )
    } else {
        None
    }
}

/// The first rule that the configuration breaks, with the texts its message quotes; `None`
/// when the configuration is valid.
pub open spec fn spec_config_failure(c: RiAuthor4142LiveConfig) -> Option<
    (RiConfigCheck, Seq<Seq<char>>),
> {
    if c.execution_path != RiAuthor4142ExecutionPath::ActionScopedOnly {
        Some((RiConfigCheck::ExecutionPathNotActionScoped, seq![]))
    } else if spec_mode_can_emit(c.mode) != c.allow_order_emission {
        Some((RiConfigCheck::ModeEmissionMismatch, seq![]))
    } else if trim_seq(c.timeframe@) != "10m"@ {
        Some((RiConfigCheck::TimeframeNot10m, seq![c.timeframe@]))
    } else if first_bad_date(views(c.excluded_model_dates@)) is Some {
        Some(
            (
                RiConfigCheck::InvalidDate,
                seq![
                    "excluded_model_dates value"@,
                    first_bad_date(views(c.excluded_model_dates@))->0,
                    chrono_date_error(first_bad_date(views(c.excluded_model_dates@))->0),
                ],
            ),
        )
    } else if spec_time_failure(c) is Some {
        spec_time_failure(c)
    } else if spec_transition_failure(c) is Some {
        spec_transition_failure(c)
    } else {
        spec_tail_failure(c)
    }
}

/// The error that reports a failed rule.
pub open spec fn reports(e: RiConfigError, failure: (RiConfigCheck, Seq<Seq<char>>)) -> bool {
    e.check == failure.0 && views(e.values@) == failure.1
}

proof fn lemma_first_bad_date_none(dates: Seq<Seq<char>>)
    requires
        forall|k: int| 0 <= k < dates.len() ==> chrono_epoch_day(#[trigger] dates[k]) is Some,
    ensures
        first_bad_date(dates) is None,
    decreases dates.len(),
{
    if dates.len() > 0 {
        let t = dates.drop_first();
        assert forall|k: int| 0 <= k < t.len() implies chrono_epoch_day(#[trigger] t[k]) is Some by {
            assert(t[k] == dates[k + 1]);
        }
        lemma_first_bad_date_none(t);
    }
}

proof fn lemma_first_bad_date_at(dates: Seq<Seq<char>>, i: int)
    requires
        0 <= i < dates.len(),
        forall|k: int| 0 <= k < i ==> chrono_epoch_day(#[trigger] dates[k]) is Some,
        chrono_epoch_day(dates[i]) is None,
    ensures
        first_bad_date(dates) == Some(dates[i]),
    decreases i,
{
    if i > 0 {
        let t = dates.drop_first();
        assert forall|k: int| 0 <= k < i - 1 implies chrono_epoch_day(#[trigger] t[k]) is Some by {
            assert(t[k] == dates[k + 1]);
        }
        lemma_first_bad_date_at(t, i - 1);
    }
}

impl RiAuthor4142LiveConfig {
    /// Orders go out only in micro-live mode with emission allowed.
    pub open spec fn spec_can_emit_orders(&self) -> bool {
        spec_mode_can_emit(self.mode) && self.allow_order_emission
    }

    /// The prospective adapter runs in prospective shadow mode when emission is not allowed.
    pub open spec fn spec_runs_prospective_adapter(&self) -> bool {
        spec_mode_runs_prospective(self.mode) && !self.allow_order_emission
    }

    /// Whether the strategy may send orders.
    pub fn can_emit_orders(&self) -> (b: bool)
        ensures
            b == self.spec_can_emit_orders(),
    {
        self.mode.can_emit_orders() && self.allow_order_emission
    }

    /// Whether the strategy runs the live adapter without sending orders.
    pub fn runs_prospective_adapter(&self) -> (b: bool)
        ensures
            b == self.spec_runs_prospective_adapter(),
    {
        self.mode.runs_prospective_adapter() && !self.allow_order_emission
    }

    fn validate_times(&self) -> (r: Result<(), RiConfigError>)
        ensures
            match spec_time_failure(*self) {
                None => r is Ok,
                Some(f) => r matches Err(e) && reports(e, f),
            },
    {
        let start = parse_time_of_day(self.session_start_time.as_str());
        if start.is_none() {
            return Err(RiConfigError::refusing(RiConfigCheck::InvalidModelTime, "session_start_time", self.session_start_time.as_str(), time_parse_error(self.session_start_time.as_str())));
        }
        let end = parse_time_of_day(self.session_end_time.as_str());
        if end.is_none() {
            return Err(RiConfigError::refusing(RiConfigCheck::InvalidModelTime, "session_end_time", self.session_end_time.as_str(), time_parse_error(self.session_end_time.as_str())));
        }
        let start = start.unwrap();
        let end = end.unwrap();
        if !start.lt(&end) {
            return Err(RiConfigError::quoting2(RiConfigCheck::SessionOrder, self.session_start_time.as_str(), self.session_end_time.as_str()));
        }
        if parse_time_of_day(self.author41_entry_end_time.as_str()).is_none() {
            return Err(RiConfigError::refusing(RiConfigCheck::InvalidModelTime, "author41_entry_end_time", self.author41_entry_end_time.as_str(), time_parse_error(self.author41_entry_end_time.as_str())));
        }
        if parse_time_of_day(self.author41_time_exit.as_str()).is_none() {
            return Err(RiConfigError::refusing(RiConfigCheck::InvalidModelTime, "author41_time_exit", self.author41_time_exit.as_str(), time_parse_error(self.author41_time_exit.as_str())));
        }
        if parse_time_of_day(self.author42_exit_time.as_str()).is_none() {
            return Err(RiConfigError::refusing(RiConfigCheck::InvalidModelTime, "author42_exit_time", self.author42_exit_time.as_str(), time_parse_error(self.author42_exit_time.as_str())));
        }
        if parse_time_of_day(self.anchor_first_bar_at_or_before.as_str()).is_none() {
            return Err(RiConfigError::refusing(RiConfigCheck::InvalidAnchorTime, "anchor_first_bar_at_or_before", self.anchor_first_bar_at_or_before.as_str(), time_parse_error(self.anchor_first_bar_at_or_before.as_str())));
        }
        if parse_time_of_day(self.anchor_last_bar_at_or_after.as_str()).is_none() {
            return Err(RiConfigError::refusing(RiConfigCheck::InvalidAnchorTime, "anchor_last_bar_at_or_after", self.anchor_last_bar_at_or_after.as_str(), time_parse_error(self.anchor_last_bar_at_or_after.as_str())));
        }
        Ok(())
    }

    fn validate_transition(&self) -> (r: Result<(), RiConfigError>)
        ensures
            match spec_transition_failure(*self) {
                None => r is Ok,
                Some(f) => r matches Err(e) && reports(e, f),
            },
    {
        let configured = self.anchor_transition_date.is_some()
            || self.pre_transition_min_anchor_bars.is_some()
            || self.pre_transition_anchor_first_bar_at_or_before.is_some()
            || self.pre_transition_anchor_last_bar_at_or_after.is_some();
        if !configured {
            return Ok(());
        }
        match &self.anchor_transition_date {
            None => {
                return Err(RiConfigError::plain(RiConfigCheck::MissingTransitionDate));
            },
            Some(date) => {
                if parse_epoch_day(date.as_str()).is_none() {
                    return Err(RiConfigError::refusing(RiConfigCheck::InvalidDate, "anchor_transition_date", date.as_str(), date_parse_error(date.as_str())));
                }
            },
        }
        if self.pre_transition_min_anchor_bars.is_none()
            || self.pre_transition_anchor_first_bar_at_or_before.is_none()
            || self.pre_transition_anchor_last_bar_at_or_after.is_none() {
            return Err(RiConfigError::plain(RiConfigCheck::IncompleteTransition));
        }
        match &self.pre_transition_anchor_first_bar_at_or_before {
            Some(first) => {
                if parse_time_of_day(first.as_str()).is_none() {
                    return Err(RiConfigError::refusing(RiConfigCheck::InvalidAnchorTime, "pre_transition_anchor_first_bar_at_or_before", first.as_str(), time_parse_error(first.as_str())));
                }
            },
            None => {},
        }
        match &self.pre_transition_anchor_last_bar_at_or_after {
            Some(last) => {
                if parse_time_of_day(last.as_str()).is_none() {
                    return Err(RiConfigError::refusing(RiConfigCheck::InvalidAnchorTime, "pre_transition_anchor_last_bar_at_or_after", last.as_str(), time_parse_error(last.as_str())));
                }
            },
            None => {},
        }
        Ok(())
    }

    fn validate_excluded_dates(&self) -> (r: Result<(), RiConfigError>)
        ensures
            match first_bad_date(views(self.excluded_model_dates@)) {
                None => r is Ok,
                Some(bad) => r matches Err(e) && reports(
                    e,
                    (RiConfigCheck::InvalidDate, seq!["excluded_model_dates value"@, bad, chrono_date_error(bad)]),
                ),
            },
    {
        let ghost dates = views(self.excluded_model_dates@);
        let mut i: usize = 0;
        while i < self.excluded_model_dates.len()
            invariant
                i <= self.excluded_model_dates@.len(),
                dates == views(self.excluded_model_dates@),
                forall|k: int| 0 <= k < i ==> chrono_epoch_day(#[trigger] dates[k]) is Some,
            decreases self.excluded_model_dates@.len() - i,
        {
            let raw = self.excluded_model_dates[i].as_str();
            if parse_epoch_day(raw).is_none() {
                proof {
                    lemma_first_bad_date_at(dates, i as int);
                }
                return Err(RiConfigError::refusing(RiConfigCheck::InvalidDate, "excluded_model_dates value", raw, date_parse_error(raw)));
            }
            i = i + 1;
        }
        proof {
            lemma_first_bad_date_none(dates);
        }
        Ok(())
    }

    /// Checks the configuration and reports the first rule it breaks: the execution path,
    /// the pairing of micro-live mode with order emission, the 10m timeframe, the excluded
    /// dates, the model clock times and their order, the anchor-transition settings, the
    /// expiry date and the rollover offsets.
    pub fn validate(&self) -> (r: Result<(), RiConfigError>)
        ensures
            match spec_config_failure(*self) {
                None => r is Ok,
                Some(f) => r matches Err(e) && reports(e, f),
            },
    {
        if self.execution_path != RiAuthor4142ExecutionPath::ActionScopedOnly {
            return Err(RiConfigError::plain(RiConfigCheck::ExecutionPathNotActionScoped));
        }
        if self.mode.can_emit_orders() != self.allow_order_emission {
            return Err(RiConfigError::plain(RiConfigCheck::ModeEmissionMismatch));
        }
        let tf = trimmed(self.timeframe.as_str());
        if !chars_eq_str(&tf, "10m") {
            return Err(RiConfigError::quoting(RiConfigCheck::TimeframeNot10m, self.timeframe.as_str()));
        }
        let dates = self.validate_excluded_dates();
        if dates.is_err() {
            return dates;
        }
        let times = self.validate_times();
        if times.is_err() {
            return times;
        }
        let transition = self.validate_transition();
        if transition.is_err() {
            return transition;
        }
        match &self.actual_expiry_date {
            Some(raw) => {
                if parse_epoch_day(raw.as_str()).is_none() {
                    return Err(RiConfigError::refusing(RiConfigCheck::InvalidDate, "actual_expiry_date", raw.as_str(), date_parse_error(raw.as_str())));
                }
            },
            None => {},
        }
        if self.roll_target_sessions_before == 0
            || self.roll_fallback_sessions_before < self.roll_target_sessions_before {
            return Err(RiConfigError::plain(RiConfigCheck::RolloverOrder));
        }
        Ok(())
    }
}

/// The view of an optional string.
pub open spec fn opt_view(o: Option<String>) -> Option<Seq<char>> {
    match o {
        Some(s) => Some(s@),
        None => None,
    }
}

/// An optional text, or `unknown` when absent.
pub open spec fn or_unknown(o: Option<Seq<char>>) -> Seq<char> {
    match o {
        Some(s) => s,
        None => "unknown"@,
    }
}

/// Completeness rule for a prior session to serve as the model anchor.
#[derive(Debug, Clone, Copy, PartialEq, Eq, Structural)]
pub struct RiAnchorCompletenessRule {
    pub min_bars: usize,
    pub first_bar_at_or_before: TimeOfDay,
    pub last_bar_at_or_after: TimeOfDay,
}

/// A change of anchor rule: sessions before `starts_on` (a day number) use the
/// pre-transition rule.
#[derive(Debug, Clone, Copy, PartialEq, Eq, Structural)]
pub struct RiAnchorTransitionRule {
    pub starts_on: i32,
    pub pre_transition: RiAnchorCompletenessRule,
}

/// What the host does with an order intent that its live guard blocked.
#[derive(Debug, Clone, Copy, PartialEq, Eq, Structural)]
pub enum IntentBlockDisposition {
    Rollback,
    KeepStrategyState,
}

/// The persisted lifecycle state of the RI strategy.
#[derive(Debug, Clone)]
pub struct RiAuthor4142LiveState {
    pub mode: String,
    pub profile_id: String,
    pub timeframe: String,
    pub allow_order_emission: bool,
    pub execution_path: String,
    pub last_bar_ts: Option<i64>,
    pub last_model_bar_ts: Option<i64>,
    pub model_bars_seen: u64,
    pub suppressed_service_bars: u64,
    pub model_decisions_seen: u64,
    pub last_decision_key: Option<String>,
    pub phase: String,
    pub current_component: Option<String>,
    pub current_side: Option<String>,
    pub current_cycle_id: Option<String>,
    pub current_entry_ts_local: Option<String>,
    pub current_exit_ts_local: Option<String>,
    pub last_transition_reason: Option<String>,
    pub live_adapter_enabled: bool,
    pub pending_entry_request_id: Option<u128>,
    pub pending_exit_request_id: Option<u128>,
}

/// The fields that phase transitions leave alone.
pub open spec fn keeps_feed(a: RiAuthor4142LiveState, b: RiAuthor4142LiveState) -> bool {
    &&& b.mode == a.mode
    &&& b.profile_id == a.profile_id
    &&& b.timeframe == a.timeframe
    &&& b.allow_order_emission == a.allow_order_emission
    &&& b.execution_path == a.execution_path
    &&& b.last_bar_ts == a.last_bar_ts
    &&& b.last_model_bar_ts == a.last_model_bar_ts
    &&& b.model_bars_seen == a.model_bars_seen
    &&& b.suppressed_service_bars == a.suppressed_service_bars
    &&& b.model_decisions_seen == a.model_decisions_seen
    &&& b.last_decision_key == a.last_decision_key
    &&& b.live_adapter_enabled == a.live_adapter_enabled
}

/// The position being worked is unchanged.
pub open spec fn keeps_current(a: RiAuthor4142LiveState, b: RiAuthor4142LiveState) -> bool {
    &&& b.current_component == a.current_component
    &&& b.current_side == a.current_side
    &&& b.current_cycle_id == a.current_cycle_id
    &&& b.current_entry_ts_local == a.current_entry_ts_local
    &&& b.current_exit_ts_local == a.current_exit_ts_local
}

/// No position is being worked.
pub open spec fn no_current(b: RiAuthor4142LiveState) -> bool {
    &&& b.current_component is None
    &&& b.current_side is None
    &&& b.current_cycle_id is None
    &&& b.current_entry_ts_local is None
    &&& b.current_exit_ts_local is None
}

/// `b` is `a` moved to the flat phase for the given reason.
pub open spec fn moved_flat(a: RiAuthor4142LiveState, b: RiAuthor4142LiveState, reason: Seq<char>) -> bool {
    &&& keeps_feed(a, b)
    &&& b.phase@ == "flat"@
    &&& no_current(b)
    &&& opt_view(b.last_transition_reason) == Some(reason)
    &&& b.pending_entry_request_id is None
    &&& b.pending_exit_request_id is None
}

/// `b` is `a` moved to a deferred exit for the given reason.
pub open spec fn moved_deferred(a: RiAuthor4142LiveState, b: RiAuthor4142LiveState, reason: Seq<char>) -> bool {
    &&& keeps_feed(a, b)
    &&& keeps_current(a, b)
    &&& b.phase@ == "live_deferred_exit"@
    &&& opt_view(b.last_transition_reason) == Some(reason)
    &&& b.pending_entry_request_id == a.pending_entry_request_id
    &&& b.pending_exit_request_id is None
}

/// `b` is `a` stopped for an operator, for the given reason.
pub open spec fn moved_manual(a: RiAuthor4142LiveState, b: RiAuthor4142LiveState, reason: Seq<char>) -> bool {
    &&& keeps_feed(a, b)
    &&& b.phase@ == "manual_intervention_required"@
    &&& no_current(b)
    &&& opt_view(b.last_transition_reason) == Some(reason)
    &&& b.pending_entry_request_id == a.pending_entry_request_id
    &&& b.pending_exit_request_id == a.pending_exit_request_id
}

/// `b` is `a` after a prospective shadow adapter assumed its order filled: a pending entry
/// becomes a position, an exit in flight becomes flat (dropping the live model positions);
/// in any other phase nothing changes.
pub open spec fn prospective_settled(a: RiAuthor4142LiveStrategy, b: RiAuthor4142LiveStrategy) -> bool {
    let x = a.state;
    let y = b.state;
    &&& b == (RiAuthor4142LiveStrategy {
        state: y,
        live_positions_dropped: b.live_positions_dropped,
        ..a
    })
    &&& if x.phase@ == "live_pending_entry"@ {
        &&& keeps_feed(x, y)
        &&& keeps_current(x, y)
        &&& y.phase@ == "live_in_position"@
        &&& opt_view(y.last_transition_reason) == Some("prospective_shadow_entry_assumed_filled"@)
        &&& y.pending_entry_request_id is None
        &&& y.pending_exit_request_id is None
        &&& b.live_positions_dropped == a.live_positions_dropped
    } else if x.phase@ == "live_pending_exit"@ || x.phase@ == "live_deferred_exit"@ {
        moved_flat(x, y, "prospective_shadow_exit_assumed_filled"@) && b.live_positions_dropped
    } else {
        b == a
    }
}

/// Phases in which the strategy does not open fresh entries.
pub open spec fn spec_blocks_fresh_entries(phase: Seq<char>) -> bool {
    phase == "dry_run_in_position"@ || phase == "manual_intervention_required"@ || phase
        == "live_entry_missed_runtime_not_ready"@
}

/// A guard reason that only says the runtime is not ready yet.
pub open spec fn is_readiness_reason(r: Seq<char>) -> bool {
    ||| r == "gateway_ready=false"@
    ||| r == "gateway_health_stale"@
    ||| r == "ws_connected=false"@
    ||| r == "cws_authorized=false"@
    ||| r == "bootstrap:not_ready"@
    ||| starts_with_seq(r, "phase="@)
}

/// The error code and message of a rejected acknowledgement, as transition reasons quote them.
pub open spec fn ack_detail(code: Option<Seq<char>>, msg: Option<Seq<char>>) -> Seq<char> {
    ":"@ + or_unknown(code) + ":"@ + or_unknown(msg)
}

/// The lifecycle of the RI author41/42 strategy: its validated configuration, the model
/// feed policy derived from it, and the phase machine that tracks live orders.
#[derive(Debug)]
pub struct RiAuthor4142LiveStrategy {
    pub config: RiAuthor4142LiveConfig,
    pub session_policy: RegularSessionPolicy,
    pub excluded_model_dates: Vec<i32>,
    pub canonical_anchor_rule: RiAnchorCompletenessRule,
    pub anchor_transition_rule: Option<RiAnchorTransitionRule>,
    pub author41_entry_end: TimeOfDay,
    pub author41_time_exit: TimeOfDay,
    pub author42_exit_time: TimeOfDay,
    pub state: RiAuthor4142LiveState,
    /// Set when the strategy drops its in-memory live model positions; whoever holds those
    /// positions clears them and resets the flag.
    pub live_positions_dropped: bool,
    /// The observation journal rows not yet drained, oldest first.
    pub journal_records: Vec<RiAuthor4142JournalRecord>,
    /// The keys of the decisions already taken, as a set.
    pub emitted_decision_keys: Vec<String>,
    /// The shadow portfolio path by day, days in increasing order.
    pub shadow_path_keys_by_date: Vec<ShadowPathDay>,
    /// The last finalized decision seen under each key.
    pub shadow_decisions_by_key: Vec<RiAuthor4142ModelDecision>,
}

/// The day numbers of the excluded dates, in configuration order.
pub open spec fn parsed_dates(raws: Seq<Seq<char>>, days: Seq<i32>) -> bool {
    &&& days.len() == raws.len()
    &&& forall|i: int| 0 <= i < raws.len() ==> chrono_epoch_day(#[trigger] raws[i]) == Some(days[i])
}

impl RiAuthor4142LiveStrategy {
    /// The strategy as `new` builds it from a valid configuration.
    pub open spec fn built_from(self, c: RiAuthor4142LiveConfig) -> bool {
        &&& self.config == c
        &&& self.session_policy == RegularSessionPolicy {
            start: chrono_time_of_day(c.session_start_time@)->0,
            end: chrono_time_of_day(c.session_end_time@)->0,
            weekdays_only: true,
        }
        &&& parsed_dates(views(c.excluded_model_dates@), self.excluded_model_dates@)
        &&& self.canonical_anchor_rule == RiAnchorCompletenessRule {
            min_bars: c.min_anchor_bars,
            first_bar_at_or_before: chrono_time_of_day(c.anchor_first_bar_at_or_before@)->0,
            last_bar_at_or_after: chrono_time_of_day(c.anchor_last_bar_at_or_after@)->0,
        }
        &&& match c.anchor_transition_date {
            None => self.anchor_transition_rule is None,
            Some(d) => self.anchor_transition_rule == Some(
                RiAnchorTransitionRule {
                    starts_on: chrono_epoch_day(d@)->0,
                    pre_transition: RiAnchorCompletenessRule {
                        min_bars: c.pre_transition_min_anchor_bars->0,
                        first_bar_at_or_before: chrono_time_of_day(
                            c.pre_transition_anchor_first_bar_at_or_before->0@,
                        )->0,
                        last_bar_at_or_after: chrono_time_of_day(
                            c.pre_transition_anchor_last_bar_at_or_after->0@,
                        )->0,
                    },
                },
            ),
        }
        &&& self.author41_entry_end == chrono_time_of_day(c.author41_entry_end_time@)->0
        &&& self.author41_time_exit == chrono_time_of_day(c.author41_time_exit@)->0
        &&& self.author42_exit_time == chrono_time_of_day(c.author42_exit_time@)->0
        &&& self.state.mode@ == spec_mode_word(c.mode)
        &&& self.state.profile_id@ == c.profile_id@
        &&& self.state.timeframe@ == c.timeframe@
        &&& self.state.allow_order_emission == c.allow_order_emission
        &&& self.state.execution_path@ == "action_scoped_only"@
        &&& self.state.last_bar_ts is None
        &&& self.state.last_model_bar_ts is None
        &&& self.state.model_bars_seen == 0
        &&& self.state.suppressed_service_bars == 0
        &&& self.state.model_decisions_seen == 0
        &&& self.state.last_decision_key is None
        &&& self.state.phase@ == "flat"@
        &&& no_current(self.state)
        &&& self.state.last_transition_reason is None
        &&& self.state.live_adapter_enabled == c.spec_can_emit_orders()
        &&& self.state.pending_entry_request_id is None
        &&& self.state.pending_exit_request_id is None
        &&& !self.live_positions_dropped
        &&& self.journal_records@.len() == 0
        &&& self.emitted_decision_keys@.len() == 0
        &&& self.shadow_path_keys_by_date@.len() == 0
        &&& self.shadow_decisions_by_key@.len() == 0
    }

    fn parsed_time(raw: &str) -> (t: TimeOfDay)
        requires
            time_ok(raw@),
        ensures
            chrono_time_of_day(raw@) == Some(t),
    {
        parse_time_of_day(raw).unwrap()
    }

    fn parsed_dates_of(raws: &Vec<String>) -> (days: Vec<i32>)
        requires
            first_bad_date(views(raws@)) is None,
        ensures
            parsed_dates(views(raws@), days@),
    {
        let ghost v = views(raws@);
        let mut days: Vec<i32> = Vec::new();
        let mut i: usize = 0;
        while i < raws.len()
            invariant
                i <= raws@.len(),
                v == views(raws@),
                first_bad_date(v) is None,
                days@.len() == i,
                forall|k: int| 0 <= k < i ==> chrono_epoch_day(#[trigger] v[k]) == Some(days@[k]),
            decreases raws@.len() - i,
        {
            let d = parse_epoch_day(raws[i].as_str());
            proof {
                if d is None {
                    assert forall|k: int| 0 <= k < i implies chrono_epoch_day(#[trigger] v[k]) is Some by {}
                    lemma_first_bad_date_at(v, i as int);
                }
            }
            days.push(d.unwrap());
            i = i + 1;
        }
        days
    }

    /// Validates the configuration and builds the strategy in the flat phase.
    pub fn new(config: RiAuthor4142LiveConfig) -> (r: Result<Self, RiConfigError>)
        ensures
            match spec_config_failure(config) {
                None => r matches Ok(s) && s.built_from(config),
                Some(f) => r matches Err(e) && reports(e, f),
            },
    {
        let checked = config.validate();
        if checked.is_err() {
            return Err(checked.unwrap_err());
        }
        proof {
            assert(spec_time_failure(config) is None);
            assert(spec_transition_failure(config) is None);
        }
        let session_start = Self::parsed_time(config.session_start_time.as_str());
        let session_end = Self::parsed_time(config.session_end_time.as_str());
        let session_policy = RegularSessionPolicy::new(session_start, session_end, true);
        let excluded_model_dates = Self::parsed_dates_of(&config.excluded_model_dates);
        let canonical_anchor_rule = RiAnchorCompletenessRule {
            min_bars: config.min_anchor_bars,
            first_bar_at_or_before: Self::parsed_time(config.anchor_first_bar_at_or_before.as_str()),
            last_bar_at_or_after: Self::parsed_time(config.anchor_last_bar_at_or_after.as_str()),
        };
        let anchor_transition_rule = match &config.anchor_transition_date {
            None => None,
            Some(starts_on) => {
                let first = match &config.pre_transition_anchor_first_bar_at_or_before {
                    Some(f) => Self::parsed_time(f.as_str()),
                    None => { assert(false); TimeOfDay { secs: 0, frac: 0 } },
                };
                let last = match &config.pre_transition_anchor_last_bar_at_or_after {
                    Some(l) => Self::parsed_time(l.as_str()),
                    None => { assert(false); TimeOfDay { secs: 0, frac: 0 } },
                };
                let min_bars = match config.pre_transition_min_anchor_bars {
                    Some(m) => m,
                    None => { assert(false); 0 },
                };
                Some(
                    RiAnchorTransitionRule {
                        starts_on: parse_epoch_day(starts_on.as_str()).unwrap(),
                        pre_transition: RiAnchorCompletenessRule {
                            min_bars,
                            first_bar_at_or_before: first,
                            last_bar_at_or_after: last,
                        },
                    },
                )
            },
        };
        let author41_entry_end = Self::parsed_time(config.author41_entry_end_time.as_str());
        let author41_time_exit = Self::parsed_time(config.author41_time_exit.as_str());
        let author42_exit_time = Self::parsed_time(config.author42_exit_time.as_str());
        let live_adapter_enabled = config.can_emit_orders();
        let state = RiAuthor4142LiveState {
            mode: String::from_str(config.mode.as_str()),
            profile_id: config.profile_id.clone(),
            timeframe: config.timeframe.clone(),
            allow_order_emission: config.allow_order_emission,
            execution_path: String::from_str(config.execution_path.as_str()),
            last_bar_ts: None,
            last_model_bar_ts: None,
            model_bars_seen: 0,
            suppressed_service_bars: 0,
            model_decisions_seen: 0,
            last_decision_key: None,
            phase: String::from_str(RiAuthor4142Phase::Flat.as_str()),
            current_component: None,
            current_side: None,
            current_cycle_id: None,
            current_entry_ts_local: None,
            current_exit_ts_local: None,
            last_transition_reason: None,
            live_adapter_enabled,
            pending_entry_request_id: None,
            pending_exit_request_id: None,
        };
        Ok(
            RiAuthor4142LiveStrategy {
                config,
                session_policy,
                excluded_model_dates,
                canonical_anchor_rule,
                anchor_transition_rule,
                author41_entry_end,
                author41_time_exit,
                author42_exit_time,
                state,
                live_positions_dropped: false,
                journal_records: Vec::new(),
                emitted_decision_keys: Vec::new(),
                shadow_path_keys_by_date: Vec::new(),
                shadow_decisions_by_key: Vec::new(),
            },
        )
    }
}

/// The configuration word of a mode.
pub open spec fn spec_mode_word(mode: RiAuthor4142RuntimeMode) -> Seq<char> {
    match mode {
        RiAuthor4142RuntimeMode::Shadow => "shadow"@,
        RiAuthor4142RuntimeMode::ProspectiveShadow => "prospective_shadow"@,
        RiAuthor4142RuntimeMode::DryRun => "dry_run"@,
        RiAuthor4142RuntimeMode::MicroLive => "micro_live"@,
    }
}

/// Phases of the dry-run adapter.
#[derive(Debug, Clone, Copy, PartialEq, Eq, Structural)]
pub enum RiAuthor4142Phase {
    Flat,
    DryRunInPosition,
    LiveEntryMissedRuntimeNotReady,
    ManualInterventionRequired,
}

impl RiAuthor4142Phase {
    /// The word that the persisted state holds for the phase.
    pub fn as_str(self) -> (s: &'static str)
        ensures
            s@ == (match self {
                RiAuthor4142Phase::Flat => "flat"@,
                RiAuthor4142Phase::DryRunInPosition => "dry_run_in_position"@,
                RiAuthor4142Phase::LiveEntryMissedRuntimeNotReady =>
                    "live_entry_missed_runtime_not_ready"@,
                RiAuthor4142Phase::ManualInterventionRequired => "manual_intervention_required"@,
            }),
    {
        match self {
            RiAuthor4142Phase::Flat => "flat",
            RiAuthor4142Phase::DryRunInPosition => "dry_run_in_position",
            RiAuthor4142Phase::LiveEntryMissedRuntimeNotReady => "live_entry_missed_runtime_not_ready",
            RiAuthor4142Phase::ManualInterventionRequired => "manual_intervention_required",
        }
    }
}

impl RiAuthor4142LiveStrategy {
    /// Whether the strategy may send orders.
    pub fn can_emit_orders(&self) -> (b: bool)
        ensures
            b == self.config.spec_can_emit_orders(),
    {
        self.config.can_emit_orders()
    }

    /// The current phase word.
    pub fn phase_for_test(&self) -> (p: Option<String>)
        ensures
            p matches Some(x) && x@ == self.state.phase@,
    {
        Some(self.state.phase.clone())
    }

    /// Whether the current phase is the given word.
    pub fn phase_is(&self, expected: &str) -> (b: bool)
        ensures
            b == (self.state.phase@ == expected@),
    {
        str_eq(self.state.phase.as_str(), expected)
    }

    /// Whether the current phase keeps the strategy from opening fresh entries.
    pub fn phase_blocks_fresh_entries(&self) -> (b: bool)
        ensures
            b == spec_blocks_fresh_entries(self.state.phase@),
    {
        self.phase_is("dry_run_in_position") || self.phase_is("manual_intervention_required")
            || self.phase_is("live_entry_missed_runtime_not_ready")
    }

    /// Whether every guard reason only says that the runtime is not ready yet (and there is
    /// at least one).
    pub fn guard_reasons_are_runtime_readiness_only(reasons: &Vec<String>) -> (b: bool)
        ensures
            b == (reasons@.len() > 0 && forall|i: int|
                0 <= i < reasons@.len() ==> is_readiness_reason(#[trigger] reasons@[i]@)),
    {
        if reasons.len() == 0 {
            return false;
        }
        let mut i: usize = 0;
        while i < reasons.len()
            invariant
                i <= reasons@.len(),
                forall|k: int| 0 <= k < i ==> is_readiness_reason(#[trigger] reasons@[k]@),
            decreases reasons@.len() - i,
        {
            let r = reasons[i].as_str();
            let ok = str_eq(r, "gateway_ready=false") || str_eq(r, "gateway_health_stale") || str_eq(
                r,
                "ws_connected=false",
            ) || str_eq(r, "cws_authorized=false") || str_eq(r, "bootstrap:not_ready")
                || starts_with_str(r, "phase=");
            if !ok {
                return false;
            }
            i = i + 1;
        }
        true
    }

    fn clear_live_positions(&mut self)
        ensures
            final(self).live_positions_dropped,
            final(self).config == old(self).config,
            final(self).state == old(self).state,
            *final(self) == (RiAuthor4142LiveStrategy {
                state: final(self).state,
                live_positions_dropped: final(self).live_positions_dropped,
                ..*old(self)
            }),
    {
        self.live_positions_dropped = true;
    }

    /// Moves to the flat phase for the given reason and drops the live model positions.
    pub fn transition_live_flat_with_reason(&mut self, reason: String)
        ensures
            moved_flat(old(self).state, final(self).state, reason@),
            final(self).live_positions_dropped,
            final(self).config == old(self).config,
            *final(self) == (RiAuthor4142LiveStrategy {
                state: final(self).state,
                live_positions_dropped: final(self).live_positions_dropped,
                ..*old(self)
            }),
    {
        self.clear_live_positions();
        self.state.phase = String::from_str(RiAuthor4142Phase::Flat.as_str());
        self.state.current_component = None;
        self.state.current_side = None;
        self.state.current_cycle_id = None;
        self.state.current_entry_ts_local = None;
        self.state.current_exit_ts_local = None;
        self.state.last_transition_reason = Some(reason);
        self.state.pending_entry_request_id = None;
        self.state.pending_exit_request_id = None;
    }

    /// Moves to a deferred exit (the exit order will be issued again) for the given reason.
    pub fn transition_live_deferred_exit(&mut self, reason: String)
        ensures
            moved_deferred(old(self).state, final(self).state, reason@),
            final(self).live_positions_dropped == old(self).live_positions_dropped,
            final(self).config == old(self).config,
    {
        self.state.phase = String::from_str("live_deferred_exit");
        self.state.last_transition_reason = Some(reason);
        self.state.pending_exit_request_id = None;
    }

    /// Stops the strategy until an operator intervenes.
    pub fn enter_manual_intervention_required(&mut self, reason: String)
        ensures
            moved_manual(old(self).state, final(self).state, reason@),
            final(self).live_positions_dropped == old(self).live_positions_dropped,
            final(self).config == old(self).config,
            final(self).journal_records == old(self).journal_records,
            final(self).emitted_decision_keys == old(self).emitted_decision_keys,
            final(self).shadow_decisions_by_key == old(self).shadow_decisions_by_key,
            final(self).shadow_path_keys_by_date == old(self).shadow_path_keys_by_date,
    {
        self.state.phase = String::from_str(RiAuthor4142Phase::ManualInterventionRequired.as_str());
        self.state.current_component = None;
        self.state.current_side = None;
        self.state.current_cycle_id = None;
        self.state.current_entry_ts_local = None;
        self.state.current_exit_ts_local = None;
        self.state.last_transition_reason = Some(reason);
    }

    /// Handles a command acknowledgement. Only a rejected, expired or failed command that
    /// matches the pending request changes the state: an exit moves to flat when the broker
    /// is flat, to a deferred exit when the trading window is closed, and otherwise stops
    /// for an operator; an entry moves to flat unless the broker holds a position, which
    /// stops for an operator. `broker_position_flat` is `None` when the broker position is
    /// unknown.
    pub fn on_ack(
        &mut self,
        status: AckStatus,
        request_id: u128,
        error_code: Option<String>,
        error_msg: Option<String>,
        broker_position_flat: Option<bool>,
    )
        ensures
            final(self).config == old(self).config,
            ({
                let a = old(self).state;
                let b = final(self).state;
                let detail = ack_detail(opt_view(error_code), opt_view(error_msg));
                let exit_phase = a.phase@ == "live_pending_exit"@ || a.phase@ == "live_deferred_exit"@;
                let entry_phase = a.phase@ == "live_pending_entry"@ || a.phase@ == "live_in_position"@;
                if !old(self).config.spec_can_emit_orders() || ack_is_positive(status) {
                    b == a && final(self).live_positions_dropped == old(self).live_positions_dropped
                } else if exit_phase {
                    if a.pending_exit_request_id is Some && a.pending_exit_request_id != Some(request_id) {
                        b == a && final(self).live_positions_dropped == old(self).live_positions_dropped
                    } else if broker_position_flat == Some(true) {
                        moved_flat(a, b, "live_exit_ack_rejected_but_broker_flat"@ + detail)
                            && final(self).live_positions_dropped
                    } else if opt_view(error_code) == Some("trading_window_closed"@) {
                        moved_deferred(a, b, "live_exit_deferred"@ + detail)
                    } else {
                        moved_manual(a, b, "live_exit_ack_rejected_with_broker_position"@ + detail)
                    }
                } else if entry_phase {
                    if a.pending_entry_request_id is Some && a.pending_entry_request_id != Some(request_id) {
                        b == a && final(self).live_positions_dropped == old(self).live_positions_dropped
                    } else if broker_position_flat != Some(false) {
                        moved_flat(a, b, "live_entry_ack_rejected"@ + detail)
                            && final(self).live_positions_dropped
                    } else {
                        moved_manual(a, b, "live_ack_rejected_with_broker_position"@ + detail)
                    }
                } else {
                    b == a && final(self).live_positions_dropped == old(self).live_positions_dropped
                }
            }),
    {
        if !self.can_emit_orders() {
            return;
        }
        if crate::host::is_positive_ack(status) {
            return;
        }
        let code = match &error_code {
            Some(c) => c.clone(),
            None => String::from_str("unknown"),
        };
        let msg = match &error_msg {
            Some(m) => m.clone(),
            None => String::from_str("unknown"),
        };
        let d1 = concat_str(":", code.as_str());
        let d2 = concat_str(d1.as_str(), ":");
        let detail = concat_str(d2.as_str(), msg.as_str());
        assert(detail@ == ack_detail(opt_view(error_code), opt_view(error_msg)));
        if self.phase_is("live_pending_exit") || self.phase_is("live_deferred_exit") {
            match self.state.pending_exit_request_id {
                Some(expected) => {
                    if expected != request_id {
                        return;
                    }
                },
                None => {},
            }
            let window_closed = match &error_code {
                Some(c) => str_eq(c.as_str(), "trading_window_closed"),
                None => false,
            };
            if broker_position_flat == Some(true) {
                let reason = concat_str("live_exit_ack_rejected_but_broker_flat", detail.as_str());
                self.transition_live_flat_with_reason(reason);
            } else if window_closed {
                let reason = concat_str("live_exit_deferred", detail.as_str());
                self.transition_live_deferred_exit(reason);
            } else {
                let reason = concat_str("live_exit_ack_rejected_with_broker_position", detail.as_str());
                self.enter_manual_intervention_required(reason);
            }
        } else if self.phase_is("live_pending_entry") || self.phase_is("live_in_position") {
            match self.state.pending_entry_request_id {
                Some(expected) => {
                    if expected != request_id {
                        return;
                    }
                },
                None => {},
            }
            if broker_position_flat != Some(false) {
                let reason = concat_str("live_entry_ack_rejected", detail.as_str());
                self.transition_live_flat_with_reason(reason);
            } else {
                let reason = concat_str("live_ack_rejected_with_broker_position", detail.as_str());
                self.enter_manual_intervention_required(reason);
            }
        }
    }
}

impl RiAuthor4142LiveStrategy {
    /// A position update: a pending entry becomes a position once the broker holds one;
    /// a position or exit in flight becomes flat once the broker is flat. Only when the
    /// strategy may send orders.
    pub fn on_position(&mut self, position_flat: bool)
        ensures
            final(self).config == old(self).config,
            ({
                let a = old(self).state;
                let b = final(self).state;
                if !old(self).config.spec_can_emit_orders() {
                    b == a && final(self).live_positions_dropped == old(self).live_positions_dropped
                } else if (a.phase@ == "live_pending_exit"@ || a.phase@ == "live_deferred_exit"@
                    || a.phase@ == "live_in_position"@) && position_flat {
                    moved_flat(a, b, "live_position_flat_confirmed"@)
                        && final(self).live_positions_dropped
                } else if a.phase@ == "live_pending_entry"@ && !position_flat {
                    &&& keeps_feed(a, b)
                    &&& keeps_current(a, b)
                    &&& b.phase@ == "live_in_position"@
                    &&& opt_view(b.last_transition_reason) == Some("live_position_confirmed"@)
                    &&& b.pending_entry_request_id is None
                    &&& b.pending_exit_request_id == a.pending_exit_request_id
                    &&& final(self).live_positions_dropped == old(self).live_positions_dropped
                } else {
                    b == a && final(self).live_positions_dropped == old(self).live_positions_dropped
                }
            }),
    {
        if !self.can_emit_orders() {
            return;
        }
        let mut mark_flat = false;
        let mut clear_pending_entry = false;
        if self.phase_is("live_pending_entry") && !position_flat {
            self.state.phase = String::from_str("live_in_position");
            self.state.last_transition_reason = Some(String::from_str("live_position_confirmed"));
            clear_pending_entry = true;
        }
        if (self.phase_is("live_pending_exit") || self.phase_is("live_deferred_exit")
            || self.phase_is("live_in_position")) && position_flat {
            mark_flat = true;
        }
        if mark_flat {
            self.transition_live_flat_with_reason(String::from_str("live_position_flat_confirmed"));
        } else if clear_pending_entry {
            self.state.pending_entry_request_id = None;
        }
    }

    /// Records the request id of a prepared command against the phase it belongs to: an
    /// entry while the entry is pending, an exit while the exit is pending or deferred.
    pub fn on_command_prepared(&mut self, intent_class: IntentClass, request_id: u128)
        ensures
            final(self).config == old(self).config,
            final(self).live_positions_dropped == old(self).live_positions_dropped,
            ({
                let a = old(self).state;
                let b = final(self).state;
                if old(self).config.spec_can_emit_orders() && a.phase@ == "live_pending_entry"@
                    && intent_class == IntentClass::Entry {
                    b.pending_entry_request_id == Some(request_id) && b.pending_exit_request_id
                        == a.pending_exit_request_id && keeps_feed(a, b) && keeps_current(a, b)
                        && b.phase == a.phase && b.last_transition_reason == a.last_transition_reason
                } else if old(self).config.spec_can_emit_orders() && (a.phase@ == "live_pending_exit"@
                    || a.phase@ == "live_deferred_exit"@) && intent_class == IntentClass::Exit {
                    b.pending_exit_request_id == Some(request_id) && b.pending_entry_request_id
                        == a.pending_entry_request_id && keeps_feed(a, b) && keeps_current(a, b)
                        && b.phase == a.phase && b.last_transition_reason == a.last_transition_reason
                } else {
                    b == a
                }
            }),
    {
        if !self.can_emit_orders() {
            return;
        }
        if self.phase_is("live_pending_entry") && intent_class == IntentClass::Entry {
            self.state.pending_entry_request_id = Some(request_id);
        } else if (self.phase_is("live_pending_exit") || self.phase_is("live_deferred_exit"))
            && intent_class == IntentClass::Exit {
            self.state.pending_exit_request_id = Some(request_id);
        }
    }

    /// An entry blocked by the live guard only because the runtime is not ready yet marks
    /// the entry as missed and keeps the strategy state; every other blocked intent is
    /// rolled back by the host.
    pub fn on_intent_blocked(
        &mut self,
        reason: &str,
        intent_class: IntentClass,
        guard_reasons: &Vec<String>,
        created_ts_utc: i64,
    ) -> (d: IntentBlockDisposition)
        ensures
            final(self).config == old(self).config,
            ({
                let a = old(self).state;
                let b = final(self).state;
                let missed = old(self).config.spec_can_emit_orders() && reason@ == "live_guard"@
                    && intent_class == IntentClass::Entry && a.phase@ == "live_pending_entry"@
                    && guard_reasons@.len() > 0 && (forall|i: int|
                    0 <= i < guard_reasons@.len() ==> is_readiness_reason(
                        #[trigger] guard_reasons@[i]@,
                    ));
                if missed {
                    &&& d == IntentBlockDisposition::KeepStrategyState
                    &&& keeps_feed(a, b)
                    &&& keeps_current(a, b)
                    &&& b.phase@ == "live_entry_missed_runtime_not_ready"@
                    &&& opt_view(b.last_transition_reason) == Some(
                        "missed_due_runtime_not_ready:"@ + decimal_text(created_ts_utc as int) + ":"@
                            + joined(guard_reasons@.map_values(|g: String| g@), ","@),
                    )
                    &&& b.pending_entry_request_id is None
                    &&& b.pending_exit_request_id is None
                    &&& final(self).live_positions_dropped
                } else {
                    &&& d == IntentBlockDisposition::Rollback
                    &&& b == a
                    &&& final(self).live_positions_dropped == old(self).live_positions_dropped
                }
            }),
    {
        if !self.can_emit_orders() {
            return IntentBlockDisposition::Rollback;
        }
        if str_eq(reason, "live_guard") && intent_class == IntentClass::Entry && self.phase_is(
            "live_pending_entry",
        ) && Self::guard_reasons_are_runtime_readiness_only(guard_reasons) {
            self.clear_live_positions();
            let ts = i64_text(created_ts_utc);
            let joined_reasons = join_strings(guard_reasons, ",");
            let r1 = concat_str("missed_due_runtime_not_ready:", ts.as_str());
            let r2 = concat_str(r1.as_str(), ":");
            let r3 = concat_str(r2.as_str(), joined_reasons.as_str());
            self.state.phase = String::from_str(
                RiAuthor4142Phase::LiveEntryMissedRuntimeNotReady.as_str(),
            );
            self.state.last_transition_reason = Some(r3);
            self.state.pending_entry_request_id = None;
            self.state.pending_exit_request_id = None;
            return IntentBlockDisposition::KeepStrategyState;
        }
        IntentBlockDisposition::Rollback
    }

    /// The request id of the entry in flight, if any.
    pub fn pending_entry_request_id(&self) -> (r: Option<u128>)
        ensures
            r == self.state.pending_entry_request_id,
    {
        self.state.pending_entry_request_id
    }

    /// The request id of the exit in flight, if any.
    pub fn pending_exit_request_id(&self) -> (r: Option<u128>)
        ensures
            r == self.state.pending_exit_request_id,
    {
        self.state.pending_exit_request_id
    }

    /// Forgets the request id of the entry in flight; nothing else changes.
    pub fn clear_pending_entry_request_id(&mut self)
        ensures
            final(self).state.pending_entry_request_id is None,
            final(self).state.pending_exit_request_id == old(self).state.pending_exit_request_id,
            final(self).state.phase == old(self).state.phase,
            final(self).state.last_transition_reason == old(self).state.last_transition_reason,
            keeps_feed(old(self).state, final(self).state),
            keeps_current(old(self).state, final(self).state),
            final(self).config == old(self).config,
            final(self).live_positions_dropped == old(self).live_positions_dropped,
    {
        self.state.pending_entry_request_id = None;
    }

    /// The request ids the strategy waits on: the pending entry, then the pending exit.
    pub fn pending_request_ids(&self) -> (ids: Vec<u128>)
        ensures
            ids@ == (match (self.state.pending_entry_request_id, self.state.pending_exit_request_id) {
                (Some(e), Some(x)) => seq![e, x],
                (Some(e), None) => seq![e],
                (None, Some(x)) => seq![x],
                (None, None) => Seq::<u128>::empty(),
            }),
    {
        let mut ids: Vec<u128> = Vec::new();
        match self.state.pending_entry_request_id {
            Some(e) => ids.push(e),
            None => {},
        }
        match self.state.pending_exit_request_id {
            Some(x) => ids.push(x),
            None => {},
        }
        assert(ids@ =~= (match (self.state.pending_entry_request_id, self.state.pending_exit_request_id) {
            (Some(e), Some(x)) => seq![e, x],
            (Some(e), None) => seq![e],
            (None, Some(x)) => seq![x],
            (None, None) => Seq::<u128>::empty(),
        }));
        ids
    }

    /// The exit risk the strategy reports: an operator is needed in the manual and missed
    /// phases; an exit in flight with an open position is close-only degraded, recovering
    /// when deferred; otherwise nothing to report.
    pub fn exit_risk_status(&self, has_open_position: bool) -> (r: StrategyExitRiskStatus)
        ensures
            ({
                let p = self.state.phase@;
                if p == "manual_intervention_required"@ || p == "live_entry_missed_runtime_not_ready"@ {
                    &&& opt_view(r.phase_override) == Some(p)
                    &&& !r.exit_recovery_active
                    &&& r.operator_intervention_required
                    &&& r.open_risk_position_unflattened == has_open_position
                } else if (p == "live_pending_exit"@ || p == "live_deferred_exit"@) && has_open_position {
                    &&& opt_view(r.phase_override) == Some("CloseOnlyDegraded"@)
                    &&& r.exit_recovery_active == (p == "live_deferred_exit"@)
                    &&& !r.operator_intervention_required
                    &&& r.open_risk_position_unflattened
                } else {
                    &&& r.phase_override is None
                    &&& !r.exit_recovery_active
                    &&& !r.operator_intervention_required
                    &&& !r.open_risk_position_unflattened
                }
            }),
    {
        if self.phase_is("manual_intervention_required") || self.phase_is(
            "live_entry_missed_runtime_not_ready",
        ) {
            return StrategyExitRiskStatus {
                phase_override: Some(self.state.phase.clone()),
                exit_recovery_active: false,
                operator_intervention_required: true,
                open_risk_position_unflattened: has_open_position,
            };
        }
        if (self.phase_is("live_pending_exit") || self.phase_is("live_deferred_exit"))
            && has_open_position {
            return StrategyExitRiskStatus {
                phase_override: Some(String::from_str("CloseOnlyDegraded")),
                exit_recovery_active: self.phase_is("live_deferred_exit"),
                operator_intervention_required: false,
                open_risk_position_unflattened: true,
            };
        }
        StrategyExitRiskStatus {
            phase_override: None,
            exit_recovery_active: false,
            operator_intervention_required: false,
            open_risk_position_unflattened: false,
        }
    }

    /// Restores a persisted state. Request ids that do not belong to the restored phase are
    /// dropped, and unless the phase holds a live position the in-memory live positions are
    /// dropped too.
    pub fn set_state(&mut self, state: RiAuthor4142LiveState)
        ensures
            final(self).config == old(self).config,
            final(self).state.phase == state.phase,
            keeps_feed(state, final(self).state),
            keeps_current(state, final(self).state),
            final(self).state.last_transition_reason == state.last_transition_reason,
            final(self).state.pending_entry_request_id == (if state.phase@ == "live_pending_entry"@ {
                state.pending_entry_request_id
            } else {
                None
            }),
            final(self).state.pending_exit_request_id == (if state.phase@ == "live_pending_exit"@
                || state.phase@ == "live_deferred_exit"@ {
                state.pending_exit_request_id
            } else {
                None
            }),
            final(self).live_positions_dropped == (old(self).live_positions_dropped || !(state.phase@
                == "live_in_position"@ || state.phase@ == "live_pending_exit"@ || state.phase@
                == "live_deferred_exit"@)),
    {
        let mut state = state;
        let p = state.phase.as_str();
        if !(str_eq(p, "live_in_position") || str_eq(p, "live_pending_exit") || str_eq(
            p,
            "live_deferred_exit",
        )) {
            self.clear_live_positions();
        }
        if !str_eq(state.phase.as_str(), "live_pending_entry") {
            state.pending_entry_request_id = None;
        }
        if !(str_eq(state.phase.as_str(), "live_pending_exit") || str_eq(
            state.phase.as_str(),
            "live_deferred_exit",
        )) {
            state.pending_exit_request_id = None;
        }
        self.state = state;
    }

    /// In prospective shadow mode the adapter assumes its orders filled: a pending entry
    /// becomes a position, an exit in flight becomes flat.
    pub fn finalize_prospective_adapter_transition(&mut self)
        ensures
            prospective_settled(*old(self), *final(self)),
    {
        if self.phase_is("live_pending_entry") {
            self.state.phase = String::from_str("live_in_position");
            self.state.last_transition_reason = Some(
                String::from_str("prospective_shadow_entry_assumed_filled"),
            );
            self.state.pending_entry_request_id = None;
            self.state.pending_exit_request_id = None;
        } else if self.phase_is("live_pending_exit") || self.phase_is("live_deferred_exit") {
            self.transition_live_flat_with_reason(
                String::from_str("prospective_shadow_exit_assumed_filled"),
            );
        }
    }

    /// A restored runtime with pending requests or known orders needs an operator, except
    /// in prospective shadow mode, which ignores the event.
    pub fn on_runtime_state_restored(&mut self, pending_requests: usize, known_order_ids: usize)
        ensures
            final(self).config == old(self).config,
            final(self).live_positions_dropped == old(self).live_positions_dropped,
            ({
                let a = old(self).state;
                let b = final(self).state;
                if old(self).config.spec_runs_prospective_adapter() {
                    b == a
                } else if pending_requests > 0 {
                    moved_manual(a, b, "runtime_restore_pending_requests:"@ + decimal_text(pending_requests as int))
                } else if known_order_ids > 0 {
                    moved_manual(a, b, "runtime_restore_known_order_ids:"@ + decimal_text(known_order_ids as int))
                } else {
                    b == a
                }
            }),
    {
        if self.config.runs_prospective_adapter() {
            return;
        }
        if pending_requests > 0 {
            let reason = concat_str("runtime_restore_pending_requests:", usize_text(pending_requests).as_str());
            self.enter_manual_intervention_required(reason);
        } else if known_order_ids > 0 {
            let reason = concat_str("runtime_restore_known_order_ids:", usize_text(known_order_ids).as_str());
            self.enter_manual_intervention_required(reason);
        }
    }

    /// A bootstrap snapshot that shows a position, working orders or working stop orders for
    /// the strategy's symbol needs an operator, except in prospective shadow mode.
    /// `position_qty_text` is the printed broker quantity when the position is not flat.
    pub fn on_bootstrap_snapshot(
        &mut self,
        position_qty_text: Option<&str>,
        working_orders: usize,
        working_stop_orders: usize,
    )
        ensures
            final(self).config == old(self).config,
            final(self).live_positions_dropped == old(self).live_positions_dropped,
            ({
                let a = old(self).state;
                let b = final(self).state;
                if old(self).config.spec_runs_prospective_adapter() {
                    b == a
                } else if position_qty_text is Some {
                    moved_manual(a, b, "bootstrap_non_flat_position_qty:"@ + position_qty_text->0@)
                } else if working_orders > 0 {
                    moved_manual(a, b, "bootstrap_working_orders:"@ + decimal_text(working_orders as int))
                } else if working_stop_orders > 0 {
                    moved_manual(a, b, "bootstrap_working_stop_orders:"@ + decimal_text(working_stop_orders as int))
                } else {
                    b == a
                }
            }),
    {
        if self.config.runs_prospective_adapter() {
            return;
        }
        match position_qty_text {
            Some(q) => {
                let reason = concat_str("bootstrap_non_flat_position_qty:", q);
                self.enter_manual_intervention_required(reason);
            },
            None => {
                if working_orders > 0 {
                    let reason = concat_str("bootstrap_working_orders:", usize_text(working_orders).as_str());
                    self.enter_manual_intervention_required(reason);
                } else if working_stop_orders > 0 {
                    let reason = concat_str(
                        "bootstrap_working_stop_orders:",
                        usize_text(working_stop_orders).as_str(),
                    );
                    self.enter_manual_intervention_required(reason);
                }
            },
        }
    }
}

/// The model modes that only observe (shadow and prospective shadow).
pub open spec fn spec_observing_mode(mode: RiAuthor4142RuntimeMode) -> bool {
    mode is Shadow || mode is ProspectiveShadow
}

/// The MOEX clearing breaks (14:00:00-14:04:59 and 18:50:00-19:04:59) that the observing
/// modes leave out of the model feed.
pub open spec fn spec_operational_break(mode: RiAuthor4142RuntimeMode, dt: LocalDateTime) -> bool {
    spec_observing_mode(mode) && ((14 * 3600 <= dt.secs <= 14 * 3600 + 4 * 60 + 59) || (18 * 3600
        + 50 * 60 <= dt.secs <= 19 * 3600 + 4 * 60 + 59))
}

/// Bars before 09:00 on days before the anchor transition, which the observing modes leave
/// out of the model feed.
pub open spec fn spec_pre_transition_service(
    mode: RiAuthor4142RuntimeMode,
    transition: Option<RiAnchorTransitionRule>,
    dt: LocalDateTime,
) -> bool {
    match transition {
        None => false,
        Some(t) => spec_observing_mode(mode) && dt.day < t.starts_on && dt.secs < 9 * 3600,
    }
}

impl RiAuthor4142LiveStrategy {
    /// Whether a model bar at `dt` falls into a clearing break that the observing modes skip.
    pub fn is_operational_shadow_break_bar(&self, dt: LocalDateTime) -> (b: bool)
        ensures
            b == spec_operational_break(self.config.mode, dt),
    {
        match self.config.mode {
            RiAuthor4142RuntimeMode::Shadow | RiAuthor4142RuntimeMode::ProspectiveShadow => {},
            _ => {
                return false;
            },
        }
        (50400 <= dt.secs && dt.secs <= 50699) || (67800 <= dt.secs && dt.secs <= 68699)
    }

    /// Whether a bar is a pre-session service bar on a day before the anchor transition.
    pub fn is_pre_transition_service_bar(&self, dt: LocalDateTime) -> (b: bool)
        ensures
            b == spec_pre_transition_service(self.config.mode, self.anchor_transition_rule, dt),
    {
        match self.anchor_transition_rule {
            None => false,
            Some(t) => {
                let observing = match self.config.mode {
                    RiAuthor4142RuntimeMode::Shadow | RiAuthor4142RuntimeMode::ProspectiveShadow => true,
                    _ => false,
                };
                observing && dt.day < t.starts_on && dt.secs < 32400
            },
        }
    }

    /// Whether the day number is one of the configured excluded dates.
    pub fn is_excluded_date(&self, day: i32) -> (b: bool)
        ensures
            b == self.excluded_model_dates@.contains(day),
    {
        let mut i: usize = 0;
        while i < self.excluded_model_dates.len()
            invariant
                i <= self.excluded_model_dates@.len(),
                forall|k: int| 0 <= k < i ==> self.excluded_model_dates@[k] != day,
            decreases self.excluded_model_dates@.len() - i,
        {
            if self.excluded_model_dates[i] == day {
                return true;
            }
            i = i + 1;
        }
        false
    }

    /// The local wall-clock time of a unix timestamp under the configured offset.
    pub fn local_dt(&self, ts_utc: i64) -> (r: Option<LocalDateTime>)
        ensures
            r matches Some(l) ==> l.wf() && day_in_range(l.day as int) && l.stamp() == ts_utc
                + self.config.timezone_offset_hours * 3600,
            -TIMESTAMP_LIMIT <= ts_utc <= TIMESTAMP_LIMIT && -TIMESTAMP_LIMIT <= ts_utc
                + self.config.timezone_offset_hours * 3600 <= TIMESTAMP_LIMIT ==> r is Some,
    {
        let offset: i64 = (self.config.timezone_offset_hours as i64) * 3600;
        shift_timestamp(ts_utc, offset)
    }

    /// Whether a bar at `dt` with the given origin feeds the model: inside the session, not
    /// in an observed clearing break, not a pre-transition service bar, not on an excluded
    /// date and not a history gap.
    pub open spec fn spec_feeds_model(self, dt: LocalDateTime, origin: DataOrigin) -> bool {
        &&& spec_is_model_bar(self.session_policy, dt)
        &&& !spec_operational_break(self.config.mode, dt)
        &&& !spec_pre_transition_service(self.config.mode, self.anchor_transition_rule, dt)
        &&& !self.excluded_model_dates@.contains(dt.day)
        &&& origin != DataOrigin::HistoryGap
    }

    /// Counts a bar in the feed statistics and tells whether it feeds the model. Gives
    /// `None`, changing nothing, when the timestamp has no local time in chrono's calendar.
    pub fn observe_bar(&mut self, ts_utc: i64, origin: DataOrigin) -> (r: Option<(LocalDateTime, bool)>)
        ensures
            spec_observed(*old(self), *final(self), ts_utc, origin, r),

    {
        let dt = match self.local_dt(ts_utc) {
            Some(d) => d,
            None => {
                return None;
            },
        };
        let excluded = self.is_excluded_date(dt.day);
        let is_model = self.session_policy.is_model_bar(dt) && !self.is_operational_shadow_break_bar(
            dt,
        ) && !self.is_pre_transition_service_bar(dt) && !excluded && origin != DataOrigin::HistoryGap;
        self.state.last_bar_ts = Some(ts_utc);
        if is_model {
            self.state.last_model_bar_ts = Some(ts_utc);
            self.state.model_bars_seen = self.state.model_bars_seen.saturating_add(1);
        } else {
            self.state.suppressed_service_bars = self.state.suppressed_service_bars.saturating_add(1);
        }
        Some((dt, is_model))
    }

    /// The anchor rule for a prior session on the given day: the pre-transition rule before
    /// the transition date, the canonical rule otherwise.
    pub fn anchor_rule_for_date(&self, day: i32) -> (rule: RiAnchorCompletenessRule)
        ensures
            rule == (match self.anchor_transition_rule {
                Some(t) => if day < t.starts_on {
                    t.pre_transition
                } else {
                    self.canonical_anchor_rule
                },
                None => self.canonical_anchor_rule,
            }),
    {
        match self.anchor_transition_rule {
            Some(t) => {
                if day < t.starts_on {
                    t.pre_transition
                } else {
                    self.canonical_anchor_rule
                }
            },
            None => self.canonical_anchor_rule,
        }
    }

    /// Whether a day lies between 21 May and 1 July of its year, both included.
    pub fn in_author_june_window(day: i32) -> (b: bool)
        requires
            day_in_range(day as int),
        ensures
            b == (match (
                crate::clock::chrono_ymd_day(crate::clock::chrono_year(day), 5, 21),
                crate::clock::chrono_ymd_day(crate::clock::chrono_year(day), 7, 1),
            ) {
                (Some(start), Some(end)) => start <= day <= end,
                _ => false,
            }),
    {
        let year = crate::clock::year_of_day(day);
        let start = match crate::clock::ymd_day(year, 5, 21) {
            Some(d) => d,
            None => return false,
        };
        let end = match crate::clock::ymd_day(year, 7, 1) {
            Some(d) => d,
            None => return false,
        };
        start <= day && day <= end
    }

    /// Whether a prior session with the given bar count and first and last bar times is
    /// complete enough to anchor the model.
    pub fn is_eligible_anchor_session(
        &self,
        day: i32,
        bars: usize,
        first_bar: TimeOfDay,
        last_bar: TimeOfDay,
    ) -> (b: bool)
        ensures
            ({
                let rule = match self.anchor_transition_rule {
                    Some(t) => if day < t.starts_on {
                        t.pre_transition
                    } else {
                        self.canonical_anchor_rule
                    },
                    None => self.canonical_anchor_rule,
                };
                b == (bars >= rule.min_bars && tod_le(first_bar, rule.first_bar_at_or_before)
                    && tod_le(rule.last_bar_at_or_after, last_bar))
            }),
    {
        let rule = self.anchor_rule_for_date(day);
        bars >= rule.min_bars && first_bar.le(&rule.first_bar_at_or_before)
            && rule.last_bar_at_or_after.le(&last_bar)
    }

    /// Counts a new model decision and remembers its key.
    pub fn record_decision_state(&mut self, decision_key: String)
        ensures
            final(self).state.model_decisions_seen == (if old(self).state.model_decisions_seen
                < u64::MAX {
                (old(self).state.model_decisions_seen + 1) as u64
            } else {
                old(self).state.model_decisions_seen
            }),
            final(self).state.last_decision_key == Some(decision_key),
            final(self).state.phase == old(self).state.phase,
            final(self).config == old(self).config,
            final(self).live_positions_dropped == old(self).live_positions_dropped,
            final(self).journal_records == old(self).journal_records,
            final(self).emitted_decision_keys == old(self).emitted_decision_keys,
            final(self).shadow_decisions_by_key == old(self).shadow_decisions_by_key,
            final(self).shadow_path_keys_by_date == old(self).shadow_path_keys_by_date,
            same_but_decisions(old(self).state, final(self).state),
    {
        self.state.model_decisions_seen = self.state.model_decisions_seen.saturating_add(1);
        self.state.last_decision_key = Some(decision_key);
    }
}

/// What the adapter does with a model decision.
#[derive(Debug, Clone, Copy, PartialEq, Eq, Structural)]
pub enum RiAuthor4142DecisionAction {
    Enter,
    Suppress,
}

/// The two traded model components.
#[derive(Debug, Clone, Copy, PartialEq, Eq, Structural)]
pub enum RiAuthor4142Component {
    Author41Mr,
    Author42Bo,
}

impl RiAuthor4142Component {
    /// The traded component of a journal component; the combo row is not traded.
    pub fn from_shadow(component: Component) -> (r: Option<Self>)
        ensures
            r == (match component {
                Component::Author41Mr => Some(RiAuthor4142Component::Author41Mr),
                Component::Author42Bo => Some(RiAuthor4142Component::Author42Bo),
                Component::Combo => None,
            }),
    {
        match component {
            Component::Author41Mr => Some(RiAuthor4142Component::Author41Mr),
            Component::Author42Bo => Some(RiAuthor4142Component::Author42Bo),
            Component::Combo => None,
        }
    }

    /// The component label used in journals and comments.
    pub fn as_str(self) -> (s: &'static str)
        ensures
            s@ == spec_component_word(self),
    {
        match self {
            RiAuthor4142Component::Author41Mr => "author41_mr",
            RiAuthor4142Component::Author42Bo => "author42_bo",
        }
    }
}

/// The label of a traded component.
pub open spec fn spec_component_word(c: RiAuthor4142Component) -> Seq<char> {
    match c {
        RiAuthor4142Component::Author41Mr => "author41_mr"@,
        RiAuthor4142Component::Author42Bo => "author42_bo"@,
    }
}

/// Position direction of a traded decision.
#[derive(Debug, Clone, Copy, PartialEq, Eq, Structural)]
pub enum RiAuthor4142Side {
    Long,
    Short,
}

impl RiAuthor4142Side {
    /// The side of a shadow journal row.
    pub fn from_shadow(side: ShadowSide) -> (r: Self)
        ensures
            r == (match side {
                ShadowSide::Long => RiAuthor4142Side::Long,
                ShadowSide::Short => RiAuthor4142Side::Short,
            }),
    {
        match side {
            ShadowSide::Long => RiAuthor4142Side::Long,
            ShadowSide::Short => RiAuthor4142Side::Short,
        }
    }

    /// The side label used in journals.
    pub fn as_str(self) -> (s: &'static str)
        ensures
            s@ == (match self {
                RiAuthor4142Side::Long => "long"@,
                RiAuthor4142Side::Short => "short"@,
            }),
    {
        match self {
            RiAuthor4142Side::Long => "long",
            RiAuthor4142Side::Short => "short",
        }
    }

    /// The order side that opens a position on this side.
    pub fn entry_order_side(self) -> (r: OrderSide)
        ensures
            r == (match self {
                RiAuthor4142Side::Long => OrderSide::Buy,
                RiAuthor4142Side::Short => OrderSide::Sell,
            }),
    {
        match self {
            RiAuthor4142Side::Long => OrderSide::Buy,
            RiAuthor4142Side::Short => OrderSide::Sell,
        }
    }

    /// The order side that closes a position on this side.
    pub fn exit_order_side(self) -> (r: OrderSide)
        ensures
            r == (match self {
                RiAuthor4142Side::Long => OrderSide::Sell,
                RiAuthor4142Side::Short => OrderSide::Buy,
            }),
    {
        match self {
            RiAuthor4142Side::Long => OrderSide::Sell,
            RiAuthor4142Side::Short => OrderSide::Buy,
        }
    }
}

/// Whether a candidate order opens or closes the position.
#[derive(Debug, Clone, Copy, PartialEq, Eq, Structural)]
pub enum RiAuthor4142CandidateRole {
    Entry,
    Exit,
}

impl RiAuthor4142CandidateRole {
    /// The role label used in journals and comments.
    pub fn as_str(self) -> (s: &'static str)
        ensures
            s@ == (match self {
                RiAuthor4142CandidateRole::Entry => "entry"@,
                RiAuthor4142CandidateRole::Exit => "exit"@,
            }),
    {
        match self {
            RiAuthor4142CandidateRole::Entry => "entry",
            RiAuthor4142CandidateRole::Exit => "exit",
        }
    }

    /// The gateway class of the role's orders.
    pub fn intent_class(self) -> (c: IntentClass)
        ensures
            c == (match self {
                RiAuthor4142CandidateRole::Entry => IntentClass::Entry,
                RiAuthor4142CandidateRole::Exit => IntentClass::Exit,
            }),
    {
        match self {
            RiAuthor4142CandidateRole::Entry => IntentClass::Entry,
            RiAuthor4142CandidateRole::Exit => IntentClass::Exit,
        }
    }
}

/// What the adapter did with a decision, as the observation journal records it.
#[derive(Debug, Clone, Copy, PartialEq, Eq, Structural)]
pub enum RiAuthor4142JournalDecision {
    ShadowRecorded,
    ShadowPathActive,
    ShadowPathSuperseded,
    ProspectiveIntentSuppressed,
    IntentSuppressed,
    IntentEmitted,
    ManualInterventionRequired,
}

/// Decisions of the same entry time are ordered mean reversion first.
pub fn decision_component_sort_key(component: RiAuthor4142Component) -> (k: u8)
    ensures
        k == (match component {
            RiAuthor4142Component::Author41Mr => 0u8,
            RiAuthor4142Component::Author42Bo => 1u8,
        }),
{
    match component {
        RiAuthor4142Component::Author41Mr => 0,
        RiAuthor4142Component::Author42Bo => 1,
    }
}

/// Why an accepted decision cannot be worked safely: an exit scheduled before its entry, or
/// on another day. Decisions without both times are not judged here.
pub fn decision_safety_reject_reason(
    scheduled_entry: Option<LocalDateTime>,
    scheduled_exit: Option<LocalDateTime>,
) -> (r: Option<&'static str>)
    requires
        scheduled_entry matches Some(e) ==> e.wf(),
        scheduled_exit matches Some(x) ==> x.wf(),
    ensures
        match (scheduled_entry, scheduled_exit) {
            (Some(e), Some(x)) => if x.stamp() < e.stamp() {
                r matches Some(t) && t@ == "exit_before_entry_not_allowed"@
            } else if x.day != e.day {
                r matches Some(t) && t@ == "cross_day_exit_not_allowed"@
            } else {
                r is None
            },
            _ => r is None,
        },
{
    match (scheduled_entry, scheduled_exit) {
        (Some(entry_ts), Some(exit_ts)) => {
            if exit_ts.is_before(&entry_ts) {
                Some("exit_before_entry_not_allowed")
            } else if exit_ts.day != entry_ts.day {
                Some("cross_day_exit_not_allowed")
            } else {
                None
            }
        },
        _ => None,
    }
}

/// Whether a shadow record is final at the current bar: its exit is scheduled and not in
/// the future, and a forced close at the last bar counts only once its day is over.
pub open spec fn spec_is_finalized(r: ShadowJournalRecord, current: LocalDateTime) -> bool {
    match r.scheduled_exit_ts_local {
        None => false,
        Some(x) => x.stamp() <= current.stamp() && !(opt_text(r.exit_reason) == Some(
            "forced_last_bar_close"@,
        ) && x.day == current.day),
    }
}

/// Whether a shadow record is final at the current bar: its exit is scheduled and not in
/// the future, and a forced close at the last bar counts only once its day is over.
pub fn is_finalized_record(record: &ShadowJournalRecord, current: LocalDateTime) -> (b: bool)
    requires
        current.wf(),
        record.scheduled_exit_ts_local matches Some(x) ==> x.wf(),
    ensures
        b == spec_is_finalized(*record, current),
{
    let exit_ts = match record.scheduled_exit_ts_local {
        None => {
            return false;
        },
        Some(x) => x,
    };
    if current.is_before(&exit_ts) {
        return false;
    }
    let forced = match &record.exit_reason {
        Some(r) => str_eq(r.as_str(), "forced_last_bar_close"),
        None => false,
    };
    if forced && exit_ts.day == current.day {
        return false;
    }
    true
}

/// Whether a model bar at `ts` is an author42 hourly check: minute 50 and more than 50
/// minutes after the first model bar of the day.
pub fn is_author42_hour_check(ts: LocalDateTime, start_ts: Option<LocalDateTime>) -> (b: bool)
    requires
        ts.wf(),
        start_ts matches Some(s) ==> s.wf(),
    ensures
        b == (match start_ts {
            None => false,
            Some(s) => (ts.secs / 60) % 60 == 50 && ts.stamp() > s.stamp() + 50 * 60,
        }),
{
    let start = match start_ts {
        None => {
            return false;
        },
        Some(s) => s,
    };
    if ts.minute() != 50 {
        return false;
    }
    let ts_stamp: i64 = (ts.day as i64) * 86400 + (ts.secs as i64);
    let start_stamp: i64 = (start.day as i64) * 86400 + (start.secs as i64);
    ts_stamp > start_stamp + 3000
}

/// Every runtime mode reads back from its configuration word.
pub proof fn lemma_mode_word_round_trip(mode: RiAuthor4142RuntimeMode)
    ensures
        spec_mode_from_word(normalized(spec_mode_word(mode))) == Some(mode),
{
    reveal_strlit("");
    reveal_strlit("shadow");
    reveal_strlit("shadow_only");
    reveal_strlit("prospective_shadow");
    reveal_strlit("shadow_prospective");
    reveal_strlit("dry_run");
    reveal_strlit("dryrun");
    reveal_strlit("micro_live");
    reveal_strlit("live_micro");
    let w = spec_mode_word(mode);
    assert(forall|i: int| 0 <= i < w.len() ==> ('a' <= #[trigger] w[i] <= 'z') || w[i] == '_');
    crate::text::lemma_plain_word_normalized(w);
    assert("prospective_shadow"@ != "shadow"@ && "prospective_shadow"@ != "shadow_only"@
        && "prospective_shadow"@ != ""@) by {
        assert("prospective_shadow"@.len() != "shadow"@.len());
        assert("prospective_shadow"@.len() != "shadow_only"@.len());
    }
    assert("dry_run"@ != "shadow"@ && "dry_run"@ != "shadow_only"@ && "dry_run"@ != ""@
        && "dry_run"@ != "prospective_shadow"@ && "dry_run"@ != "shadow_prospective"@) by {
        assert("dry_run"@.len() != ""@.len());
        assert("dry_run"@[0] != "shadow"@[0]);
        assert("dry_run"@[0] != "shadow_only"@[0]);
        assert("dry_run"@[0] != "prospective_shadow"@[0]);
        assert("dry_run"@[0] != "shadow_prospective"@[0]);
    }
    assert("micro_live"@ != "shadow"@ && "micro_live"@ != "shadow_only"@ && "micro_live"@
        != ""@ && "micro_live"@ != "prospective_shadow"@ && "micro_live"@
        != "shadow_prospective"@ && "micro_live"@ != "dry_run"@ && "micro_live"@ != "dryrun"@) by {
        assert("micro_live"@.len() != ""@.len());
        assert("micro_live"@[0] != "shadow"@[0]);
        assert("micro_live"@[0] != "shadow_only"@[0]);
        assert("micro_live"@[0] != "prospective_shadow"@[0]);
        assert("micro_live"@[0] != "shadow_prospective"@[0]);
        assert("micro_live"@[0] != "dry_run"@[0]);
        assert("micro_live"@[0] != "dryrun"@[0]);
    }
}

/// A mode word written in any ASCII case and surrounded by any whitespace reads back as
/// its mode.
pub proof fn lemma_mode_word_read_back_loosely(
    mode: RiAuthor4142RuntimeMode,
    l: Seq<char>,
    w: Seq<char>,
    r: Seq<char>,
)
    requires
        forall|i: int| 0 <= i < l.len() ==> crate::text::is_unicode_whitespace(#[trigger] l[i]),
        forall|i: int| 0 <= i < r.len() ==> crate::text::is_unicode_whitespace(#[trigger] r[i]),
        crate::text::ascii_lower_seq(w) == spec_mode_word(mode),
    ensures
        spec_mode_from_word(normalized(l + w + r)) == Some(mode),
{
    reveal_strlit("shadow");
    reveal_strlit("prospective_shadow");
    reveal_strlit("dry_run");
    reveal_strlit("micro_live");
    let word = spec_mode_word(mode);
    assert(forall|i: int| 0 <= i < word.len() ==> ('a' <= #[trigger] word[i] <= 'z') || word[i] == '_');
    assert(word.len() > 0);
    assert(crate::text::ascii_lower_seq(w)[0] == crate::text::ascii_lower(w[0]));
    assert(crate::text::ascii_lower_seq(w)[w.len() - 1] == crate::text::ascii_lower(w.last()));
    crate::text::lemma_padded_word_normalized(l, w, r);
    crate::text::lemma_plain_word_normalized(word);
    lemma_mode_word_round_trip(mode);
}

/// Reading back a mode's word gives the mode: `RiAuthor4142RuntimeMode::parse(m.as_str())`
/// is `Ok(m)`, and so is the parse of the word in any ASCII case and surrounded by any
/// whitespace.
pub proof fn lemma_parse_of_mode_word(mode: RiAuthor4142RuntimeMode, l: Seq<char>, w: Seq<char>, r: Seq<char>)
    requires
        forall|i: int| 0 <= i < l.len() ==> crate::text::is_unicode_whitespace(#[trigger] l[i]),
        forall|i: int| 0 <= i < r.len() ==> crate::text::is_unicode_whitespace(#[trigger] r[i]),
        crate::text::ascii_lower_seq(w) == spec_mode_word(mode),
    ensures
        spec_mode_from_word(normalized(spec_mode_word(mode))) == Some(mode),
        spec_mode_from_word(normalized(l + w + r)) == Some(mode),
{
    reveal_strlit("shadow");
    reveal_strlit("prospective_shadow");
    reveal_strlit("dry_run");
    reveal_strlit("micro_live");
    let word = spec_mode_word(mode);
    assert(crate::text::ascii_lower_seq(word) =~= word);
    lemma_mode_word_read_back_loosely(mode, Seq::empty(), word, Seq::empty());
    assert(Seq::<char>::empty() + word + Seq::<char>::empty() =~= word);
    lemma_mode_word_read_back_loosely(mode, l, w, r);
}

/// A mode's word is written in ASCII lower case.
pub proof fn lemma_mode_word_is_lower(mode: RiAuthor4142RuntimeMode)
    ensures
        crate::text::ascii_lower_seq(spec_mode_word(mode)) == spec_mode_word(mode),
{
    reveal_strlit("shadow");
    reveal_strlit("prospective_shadow");
    reveal_strlit("dry_run");
    reveal_strlit("micro_live");
    assert(crate::text::ascii_lower_seq(spec_mode_word(mode)) =~= spec_mode_word(mode));
}

/// Distinct modes have distinct words.
pub proof fn lemma_mode_words_distinct(a: RiAuthor4142RuntimeMode, b: RiAuthor4142RuntimeMode)
    requires
        spec_mode_word(a) == spec_mode_word(b),
    ensures
        a == b,
{
    lemma_mode_word_is_lower(a);
    lemma_mode_word_is_lower(b);
    lemma_parse_of_mode_word(a, Seq::empty(), spec_mode_word(a), Seq::empty());
    lemma_parse_of_mode_word(b, Seq::empty(), spec_mode_word(b), Seq::empty());
}

/// The execution path's configuration word is accepted when read back.
pub proof fn lemma_execution_path_word_round_trip()
    ensures
        normalized("action_scoped_only"@) == "action_scoped_only"@,
{
    reveal_strlit("action_scoped_only");
    let w = "action_scoped_only"@;
    assert(forall|i: int| 0 <= i < w.len() ==> ('a' <= #[trigger] w[i] <= 'z') || w[i] == '_');
    crate::text::lemma_plain_word_normalized(w);
}

/// A configuration that passes validation may send orders exactly when it runs in
/// micro-live mode, and then it does allow order emission.
pub proof fn lemma_validated_config_emits_only_in_micro_live(c: RiAuthor4142LiveConfig)
    requires
        spec_config_failure(c) is None,
    ensures
        c.allow_order_emission == (c.mode == RiAuthor4142RuntimeMode::MicroLive),
        c.spec_can_emit_orders() == (c.mode == RiAuthor4142RuntimeMode::MicroLive),
        c.spec_can_emit_orders() ==> !c.spec_runs_prospective_adapter(),
{
}


proof fn lemma_no_bad_date_all_parse(dates: Seq<Seq<char>>)
    requires
        first_bad_date(dates) is None,
    ensures
        forall|k: int| 0 <= k < dates.len() ==> chrono_epoch_day(#[trigger] dates[k]) is Some,
    decreases dates.len(),
{
    if dates.len() > 0 {
        let t = dates.drop_first();
        lemma_no_bad_date_all_parse(t);
        assert forall|k: int| 0 <= k < dates.len() implies chrono_epoch_day(#[trigger] dates[k]) is Some by {
            if k > 0 {
                assert(dates[k] == t[k - 1]);
            }
        }
    }
}

/// A configuration that passes validation keeps every rule: the action-scoped path, the
/// mode agreeing with the emission permission, a 10-minute timeframe, excluded dates that
/// all read as dates, model and anchor clock times that all read as times with the session
/// starting before it ends, complete and readable anchor-transition settings when any is
/// given, a readable expiry date when given, and rollover offsets with
/// `1 <= target <= fallback`.
pub proof fn lemma_validated_config_keeps_every_rule(c: RiAuthor4142LiveConfig)
    requires
        spec_config_failure(c) is None,
    ensures
        c.execution_path == RiAuthor4142ExecutionPath::ActionScopedOnly,
        spec_mode_can_emit(c.mode) == c.allow_order_emission,
        trim_seq(c.timeframe@) == "10m"@,
        forall|k: int| 0 <= k < c.excluded_model_dates@.len() ==> chrono_epoch_day(
            #[trigger] c.excluded_model_dates@[k]@,
        ) is Some,
        time_ok(c.session_start_time@),
        time_ok(c.session_end_time@),
        tod_lt(
            chrono_time_of_day(c.session_start_time@)->0,
            chrono_time_of_day(c.session_end_time@)->0,
        ),
        time_ok(c.author41_entry_end_time@),
        time_ok(c.author41_time_exit@),
        time_ok(c.author42_exit_time@),
        time_ok(c.anchor_first_bar_at_or_before@),
        time_ok(c.anchor_last_bar_at_or_after@),
        spec_transition_configured(c) ==> {
            &&& c.anchor_transition_date matches Some(d) && chrono_epoch_day(d@) is Some
            &&& c.pre_transition_min_anchor_bars is Some
            &&& c.pre_transition_anchor_first_bar_at_or_before matches Some(t) && time_ok(t@)
            &&& c.pre_transition_anchor_last_bar_at_or_after matches Some(t) && time_ok(t@)
        },
        c.actual_expiry_date matches Some(d) ==> chrono_epoch_day(d@) is Some,
        1 <= c.roll_target_sessions_before <= c.roll_fallback_sessions_before,
{
    let dates = views(c.excluded_model_dates@);
    lemma_no_bad_date_all_parse(dates);
    assert forall|k: int| 0 <= k < c.excluded_model_dates@.len() implies chrono_epoch_day(
        #[trigger] c.excluded_model_dates@[k]@,
    ) is Some by {
        assert(dates[k] == c.excluded_model_dates@[k]@);
    }
}

/// The most observation journal rows the strategy keeps; older rows are dropped first.
pub const JOURNAL_CAPACITY: usize = 10000;

/// The last `n` items of a sequence.
pub open spec fn keep_last<T>(s: Seq<T>, n: nat) -> Seq<T> {
    if s.len() > n {
        s.skip(s.len() - n)
    } else {
        s
    }
}

/// Appending to the kept tail keeps the same tail as appending to the whole sequence.
pub proof fn lemma_keep_last_push<T>(s: Seq<T>, x: T, n: nat)
    requires
        n > 0,
    ensures
        keep_last(keep_last(s, n).push(x), n) == keep_last(s.push(x), n),
{
    let k = keep_last(s, n);
    assert(keep_last(k.push(x), n) =~= keep_last(s.push(x), n));
}

/// A local instant that chrono can write: a second within the day of a representable day.
pub open spec fn instant_ok(t: LocalDateTime) -> bool {
    t.wf() && day_in_range(t.day as int)
}

/// An optional instant that chrono can write when present.
pub open spec fn opt_instant_ok(t: Option<LocalDateTime>) -> bool {
    match t {
        Some(x) => instant_ok(x),
        None => true,
    }
}

/// chrono's text of a local instant.
pub open spec fn instant_text(t: LocalDateTime) -> Seq<char> {
    chrono_datetime_text(t.day, t.secs)
}

/// A model decision that the adapter works: enter or suppress one trade of a component.
#[derive(Debug, Clone, PartialEq, Eq)]
pub struct RiAuthor4142ModelDecision {
    pub action: RiAuthor4142DecisionAction,
    pub component: RiAuthor4142Component,
    pub side: Option<RiAuthor4142Side>,
    pub model_signal_ts_local: LocalDateTime,
    pub scheduled_entry_ts_local: Option<LocalDateTime>,
    pub scheduled_exit_ts_local: Option<LocalDateTime>,
    pub reason: String,
    pub overlap_decision: String,
    pub decision_key: String,
}

/// What a model decision holds, with its texts as characters.
#[verifier::ext_equal]
pub struct DecisionView {
    pub action: RiAuthor4142DecisionAction,
    pub component: RiAuthor4142Component,
    pub side: Option<RiAuthor4142Side>,
    pub model_signal_ts_local: LocalDateTime,
    pub scheduled_entry_ts_local: Option<LocalDateTime>,
    pub scheduled_exit_ts_local: Option<LocalDateTime>,
    pub reason: Seq<char>,
    pub overlap_decision: Seq<char>,
    pub decision_key: Seq<char>,
}

impl View for RiAuthor4142ModelDecision {
    type V = DecisionView;

    open spec fn view(&self) -> DecisionView {
        DecisionView {
            action: self.action,
            component: self.component,
            side: self.side,
            model_signal_ts_local: self.model_signal_ts_local,
            scheduled_entry_ts_local: self.scheduled_entry_ts_local,
            scheduled_exit_ts_local: self.scheduled_exit_ts_local,
            reason: self.reason@,
            overlap_decision: self.overlap_decision@,
            decision_key: self.decision_key@,
        }
    }
}

impl DecisionView {
    /// Every instant of the decision can be written.
    pub open spec fn wf(self) -> bool {
        &&& instant_ok(self.model_signal_ts_local)
        &&& opt_instant_ok(self.scheduled_entry_ts_local)
        &&& opt_instant_ok(self.scheduled_exit_ts_local)
    }
}

/// The label of a position side.
pub open spec fn spec_side_word(s: RiAuthor4142Side) -> Seq<char> {
    match s {
        RiAuthor4142Side::Long => "long"@,
        RiAuthor4142Side::Short => "short"@,
    }
}

/// The label of a candidate role.
pub open spec fn spec_role_word(r: RiAuthor4142CandidateRole) -> Seq<char> {
    match r {
        RiAuthor4142CandidateRole::Entry => "entry"@,
        RiAuthor4142CandidateRole::Exit => "exit"@,
    }
}

/// The gateway class of a candidate role.
pub open spec fn spec_role_class(r: RiAuthor4142CandidateRole) -> IntentClass {
    match r {
        RiAuthor4142CandidateRole::Entry => IntentClass::Entry,
        RiAuthor4142CandidateRole::Exit => IntentClass::Exit,
    }
}

/// The order side that opens a position on a side.
pub open spec fn spec_entry_side(s: RiAuthor4142Side) -> OrderSide {
    match s {
        RiAuthor4142Side::Long => OrderSide::Buy,
        RiAuthor4142Side::Short => OrderSide::Sell,
    }
}

/// The order side that closes a position on a side.
pub open spec fn spec_exit_side(s: RiAuthor4142Side) -> OrderSide {
    match s {
        RiAuthor4142Side::Long => OrderSide::Sell,
        RiAuthor4142Side::Short => OrderSide::Buy,
    }
}

/// The cycle of a decision: its component and the compact stamp of its model signal.
pub open spec fn spec_cycle_id(d: DecisionView) -> Seq<char> {
    spec_component_word(d.component) + ":"@ + chrono_compact_stamp(
        d.model_signal_ts_local.day,
        d.model_signal_ts_local.secs,
    )
}

/// Why an accepted decision with both times scheduled cannot be worked safely.
pub open spec fn spec_safety_reason(
    entry: Option<LocalDateTime>,
    exit: Option<LocalDateTime>,
) -> Option<Seq<char>> {
    match (entry, exit) {
        (Some(e), Some(x)) => if x.stamp() < e.stamp() {
            Some("exit_before_entry_not_allowed"@)
        } else if x.day != e.day {
            Some("cross_day_exit_not_allowed"@)
        } else {
            None
        },
        _ => None,
    }
}

/// One order that a decision would send, held back while the adapter runs dry.
#[derive(Debug, Clone, PartialEq, Eq)]
pub struct RiAuthor4142CandidateIntent {
    pub role: RiAuthor4142CandidateRole,
    pub component: RiAuthor4142Component,
    pub side: OrderSide,
    pub order_style: &'static str,
    pub intent_class: IntentClass,
    pub scheduled_ts_local: LocalDateTime,
    pub comment: String,
    pub execution_path: RiAuthor4142ExecutionPath,
    pub decision_key: String,
}

/// What a candidate order holds, with its texts as characters.
#[verifier::ext_equal]
pub struct CandidateView {
    pub role: RiAuthor4142CandidateRole,
    pub component: RiAuthor4142Component,
    pub side: OrderSide,
    pub order_style: Seq<char>,
    pub intent_class: IntentClass,
    pub scheduled_ts_local: LocalDateTime,
    pub comment: Seq<char>,
    pub execution_path: RiAuthor4142ExecutionPath,
    pub decision_key: Seq<char>,
}

impl View for RiAuthor4142CandidateIntent {
    type V = CandidateView;

    open spec fn view(&self) -> CandidateView {
        CandidateView {
            role: self.role,
            component: self.component,
            side: self.side,
            order_style: self.order_style@,
            intent_class: self.intent_class,
            scheduled_ts_local: self.scheduled_ts_local,
            comment: self.comment@,
            execution_path: self.execution_path,
            decision_key: self.decision_key@,
        }
    }
}

/// The comment of a candidate order: the profile, the component and the role.
pub open spec fn spec_candidate_comment(
    profile_id: Seq<char>,
    component: RiAuthor4142Component,
    role: RiAuthor4142CandidateRole,
) -> Seq<char> {
    "ri_author41_42:"@ + profile_id + ":"@ + spec_component_word(component) + ":"@
        + spec_role_word(role)
}

/// The candidate order of a decision for a role, side and scheduled time.
pub open spec fn spec_candidate(
    profile_id: Seq<char>,
    d: DecisionView,
    role: RiAuthor4142CandidateRole,
    side: OrderSide,
    ts: LocalDateTime,
) -> CandidateView {
    CandidateView {
        role,
        component: d.component,
        side,
        order_style: "market_p0"@,
        intent_class: spec_role_class(role),
        scheduled_ts_local: ts,
        comment: spec_candidate_comment(profile_id, d.component, role),
        execution_path: RiAuthor4142ExecutionPath::ActionScopedOnly,
        decision_key: d.decision_key,
    }
}

/// The candidate orders of a decision: none unless it enters with a side; then an entry at
/// its scheduled entry and an exit at its scheduled exit, each where scheduled.
pub open spec fn spec_candidates(profile_id: Seq<char>, d: DecisionView) -> Seq<CandidateView> {
    if d.action != RiAuthor4142DecisionAction::Enter {
        Seq::empty()
    } else {
        match d.side {
            None => Seq::empty(),
            Some(s) => {
                let entry = match d.scheduled_entry_ts_local {
                    Some(e) => seq![
                        spec_candidate(profile_id, d, RiAuthor4142CandidateRole::Entry, spec_entry_side(s), e),
                    ],
                    None => Seq::empty(),
                };
                let exit = match d.scheduled_exit_ts_local {
                    Some(x) => seq![
                        spec_candidate(profile_id, d, RiAuthor4142CandidateRole::Exit, spec_exit_side(s), x),
                    ],
                    None => Seq::empty(),
                };
                entry + exit
            },
        }
    }
}

/// One row of the adapter's observation journal.
#[derive(Debug, Clone, PartialEq, Eq)]
pub struct RiAuthor4142JournalRecord {
    pub component: String,
    pub cycle_id: String,
    pub model_signal_ts_local: String,
    pub bar_ts_local: String,
    pub side: Option<String>,
    pub role: Option<String>,
    pub entry_exit_reason: String,
    pub no_overlap_decision: String,
    pub adapter_decision: RiAuthor4142JournalDecision,
    pub request_id: Option<String>,
    pub broker_order_id: Option<String>,
    pub candidate_order_side: Option<OrderSide>,
    pub candidate_order_style: Option<String>,
    pub candidate_intent_class: Option<IntentClass>,
    pub candidate_scheduled_ts_local: Option<String>,
    pub execution_path: String,
    pub decision_key: String,
}

/// What a journal row holds, with its texts as characters.
#[verifier::ext_equal]
pub struct JournalView {
    pub component: Seq<char>,
    pub cycle_id: Seq<char>,
    pub model_signal_ts_local: Seq<char>,
    pub bar_ts_local: Seq<char>,
    pub side: Option<Seq<char>>,
    pub role: Option<Seq<char>>,
    pub entry_exit_reason: Seq<char>,
    pub no_overlap_decision: Seq<char>,
    pub adapter_decision: RiAuthor4142JournalDecision,
    pub request_id: Option<Seq<char>>,
    pub broker_order_id: Option<Seq<char>>,
    pub candidate_order_side: Option<OrderSide>,
    pub candidate_order_style: Option<Seq<char>>,
    pub candidate_intent_class: Option<IntentClass>,
    pub candidate_scheduled_ts_local: Option<Seq<char>>,
    pub execution_path: Seq<char>,
    pub decision_key: Seq<char>,
}

impl View for RiAuthor4142JournalRecord {
    type V = JournalView;

    open spec fn view(&self) -> JournalView {
        JournalView {
            component: self.component@,
            cycle_id: self.cycle_id@,
            model_signal_ts_local: self.model_signal_ts_local@,
            bar_ts_local: self.bar_ts_local@,
            side: opt_view(self.side),
            role: opt_view(self.role),
            entry_exit_reason: self.entry_exit_reason@,
            no_overlap_decision: self.no_overlap_decision@,
            adapter_decision: self.adapter_decision,
            request_id: opt_view(self.request_id),
            broker_order_id: opt_view(self.broker_order_id),
            candidate_order_side: self.candidate_order_side,
            candidate_order_style: opt_view(self.candidate_order_style),
            candidate_intent_class: self.candidate_intent_class,
            candidate_scheduled_ts_local: opt_view(self.candidate_scheduled_ts_local),
            execution_path: self.execution_path@,
            decision_key: self.decision_key@,
        }
    }
}

/// The journal row of a decision, for what the adapter did with it, the candidate order it
/// concerns if any, and a reason that replaces the decision's own.
pub open spec fn spec_journal(
    d: DecisionView,
    adapter: RiAuthor4142JournalDecision,
    candidate: Option<CandidateView>,
    reason: Option<Seq<char>>,
) -> JournalView {
    JournalView {
        component: spec_component_word(d.component),
        cycle_id: spec_cycle_id(d),
        model_signal_ts_local: instant_text(d.model_signal_ts_local),
        bar_ts_local: instant_text(d.model_signal_ts_local),
        side: match d.side {
            Some(s) => Some(spec_side_word(s)),
            None => None,
        },
        role: match candidate {
            Some(c) => Some(spec_role_word(c.role)),
            None => None,
        },
        entry_exit_reason: match reason {
            Some(r) => r,
            None => d.reason,
        },
        no_overlap_decision: d.overlap_decision,
        adapter_decision: adapter,
        request_id: None,
        broker_order_id: None,
        candidate_order_side: match candidate {
            Some(c) => Some(c.side),
            None => None,
        },
        candidate_order_style: match candidate {
            Some(c) => Some(c.order_style),
            None => None,
        },
        candidate_intent_class: match candidate {
            Some(c) => Some(c.intent_class),
            None => None,
        },
        candidate_scheduled_ts_local: match candidate {
            Some(c) => Some(instant_text(c.scheduled_ts_local)),
            None => None,
        },
        execution_path: match candidate {
            Some(c) => "action_scoped_only"@,
            None => "not_applicable_pre_go"@,
        },
        decision_key: d.decision_key,
    }
}

/// The views of a sequence of journal rows.
pub open spec fn journal_views(v: Seq<RiAuthor4142JournalRecord>) -> Seq<JournalView> {
    v.map_values(|r: RiAuthor4142JournalRecord| r@)
}

/// The views of a sequence of candidate orders.
pub open spec fn candidate_views(v: Seq<RiAuthor4142CandidateIntent>) -> Seq<CandidateView> {
    v.map_values(|c: RiAuthor4142CandidateIntent| c@)
}

/// The reason journaled when an accepted decision yields no complete candidate.
pub open spec fn incomplete_candidate_reason() -> Seq<char> {
    "accepted_model_decision_without_complete_entry_exit_candidate"@
}

/// The journal rows that working a decision dry adds: a suppression row for a suppressed
/// decision; for an entered one, a manual-intervention row when it is unsafe or yields no
/// candidate, and otherwise a suppression row per candidate order.
pub open spec fn spec_dry_run_rows(profile_id: Seq<char>, d: DecisionView) -> Seq<JournalView> {
    if d.action == RiAuthor4142DecisionAction::Suppress {
        seq![spec_journal(d, RiAuthor4142JournalDecision::IntentSuppressed, None, None)]
    } else {
        match spec_safety_reason(d.scheduled_entry_ts_local, d.scheduled_exit_ts_local) {
            Some(r) => seq![
                spec_journal(d, RiAuthor4142JournalDecision::ManualInterventionRequired, None, Some(r)),
            ],
            None => {
                let cands = spec_candidates(profile_id, d);
                if cands.len() == 0 {
                    seq![
                        spec_journal(
                            d,
                            RiAuthor4142JournalDecision::ManualInterventionRequired,
                            None,
                            Some(incomplete_candidate_reason()),
                        ),
                    ]
                } else {
                    cands.map_values(
                        |c: CandidateView|
                            spec_journal(d, RiAuthor4142JournalDecision::IntentSuppressed, Some(c), None),
                    )
                }
            },
        }
    }
}

/// `b` is `a` after a dry-run position on the decision opened and closed at its scheduled
/// exit: flat, nothing worked, the exit reason recorded.
pub open spec fn moved_dry_round_trip(
    a: RiAuthor4142LiveState,
    b: RiAuthor4142LiveState,
    reason: Seq<char>,
) -> bool {
    &&& keeps_feed(a, b)
    &&& b.phase@ == "flat"@
    &&& no_current(b)
    &&& opt_view(b.last_transition_reason) == Some("dry_run_exit:"@ + reason)
    &&& b.pending_entry_request_id == a.pending_entry_request_id
    &&& b.pending_exit_request_id == a.pending_exit_request_id
}

impl RiAuthor4142ModelDecision {
    /// A copy of the decision.
    pub fn duplicate(&self) -> (r: Self)
        ensures
            r@ == self@,
    {
        RiAuthor4142ModelDecision {
            action: self.action,
            component: self.component,
            side: self.side,
            model_signal_ts_local: self.model_signal_ts_local,
            scheduled_entry_ts_local: self.scheduled_entry_ts_local,
            scheduled_exit_ts_local: self.scheduled_exit_ts_local,
            reason: self.reason.clone(),
            overlap_decision: self.overlap_decision.clone(),
            decision_key: self.decision_key.clone(),
        }
    }

    /// The cycle id of the decision.
    pub fn cycle_id(&self) -> (s: String)
        requires
            self@.wf(),
        ensures
            s@ == spec_cycle_id(self@),
    {
        let a = concat_str(self.component.as_str(), ":");
        let b = compact_stamp(self.model_signal_ts_local);
        concat_str(a.as_str(), b.as_str())
    }
}

/// chrono's text of an optional instant.
fn opt_instant_text(t: Option<LocalDateTime>) -> (r: Option<String>)
    requires
        opt_instant_ok(t),
    ensures
        opt_view(r) == (match t {
            Some(x) => Some(instant_text(x)),
            None => None,
        }),
{
    match t {
        Some(x) => Some(datetime_text(x)),
        None => None,
    }
}

impl RiAuthor4142JournalRecord {
    /// The journal row of a decision, for what the adapter did with it, the candidate order
    /// it concerns if any, and a reason that replaces the decision's own.
    pub fn from_decision(
        decision: &RiAuthor4142ModelDecision,
        adapter_decision: RiAuthor4142JournalDecision,
        candidate: Option<&RiAuthor4142CandidateIntent>,
        reason_override: Option<&str>,
    ) -> (r: Self)
        requires
            decision@.wf(),
            candidate matches Some(c) ==> instant_ok(c.scheduled_ts_local),
        ensures
            r@ == spec_journal(
                decision@,
                adapter_decision,
                match candidate {
                    Some(c) => Some(c@),
                    None => None,
                },
                match reason_override {
                    Some(x) => Some(x@),
                    None => None,
                },
            ),
    {
        let signal = datetime_text(decision.model_signal_ts_local);
        let side = match decision.side {
            Some(s) => Some(String::from_str(s.as_str())),
            None => None,
        };
        let reason = match reason_override {
            Some(x) => String::from_str(x),
            None => decision.reason.clone(),
        };
        let (role, order_side, style, class, scheduled, path) = match candidate {
            Some(c) => (
                Some(String::from_str(c.role.as_str())),
                Some(c.side),
                Some(String::from_str(c.order_style)),
                Some(c.intent_class),
                Some(datetime_text(c.scheduled_ts_local)),
                String::from_str(c.execution_path.as_str()),
            ),
            None => (None, None, None, None, None, String::from_str("not_applicable_pre_go")),
        };
        RiAuthor4142JournalRecord {
            component: String::from_str(decision.component.as_str()),
            cycle_id: decision.cycle_id(),
            model_signal_ts_local: signal.clone(),
            bar_ts_local: signal,
            side,
            role,
            entry_exit_reason: reason,
            no_overlap_decision: decision.overlap_decision.clone(),
            adapter_decision,
            request_id: None,
            broker_order_id: None,
            candidate_order_side: order_side,
            candidate_order_style: style,
            candidate_intent_class: class,
            candidate_scheduled_ts_local: scheduled,
            execution_path: path,
            decision_key: decision.decision_key.clone(),
        }
    }
}


impl RiAuthor4142LiveStrategy {
    /// The comment of a candidate order of the decision for the role.
    pub fn candidate_comment(
        &self,
        decision: &RiAuthor4142ModelDecision,
        role: RiAuthor4142CandidateRole,
    ) -> (s: String)
        ensures
            s@ == spec_candidate_comment(self.config.profile_id@, decision.component, role),
    {
        let a = concat_str("ri_author41_42:", self.config.profile_id.as_str());
        let b = concat_str(a.as_str(), ":");
        let c = concat_str(b.as_str(), decision.component.as_str());
        let d = concat_str(c.as_str(), ":");
        concat_str(d.as_str(), role.as_str())
    }

    /// The candidate order of the decision for a role, side and scheduled time.
    pub fn build_candidate_intent(
        &self,
        decision: &RiAuthor4142ModelDecision,
        role: RiAuthor4142CandidateRole,
        side: OrderSide,
        scheduled_ts_local: LocalDateTime,
    ) -> (c: RiAuthor4142CandidateIntent)
        ensures
            c@ == spec_candidate(self.config.profile_id@, decision@, role, side, scheduled_ts_local),
    {
        RiAuthor4142CandidateIntent {
            role,
            component: decision.component,
            side,
            order_style: "market_p0",
            intent_class: role.intent_class(),
            scheduled_ts_local,
            comment: self.candidate_comment(decision, role),
            execution_path: self.config.execution_path,
            decision_key: decision.decision_key.clone(),
        }
    }

    /// The candidate orders of a decision: none unless it enters with a side; then an entry
    /// at its scheduled entry and an exit at its scheduled exit, each where scheduled.
    pub fn candidate_intents_for_decision(&self, decision: &RiAuthor4142ModelDecision) -> (r: Vec<
        RiAuthor4142CandidateIntent,
    >)
        ensures
            candidate_views(r@) == spec_candidates(self.config.profile_id@, decision@),
    {
        let mut candidates: Vec<RiAuthor4142CandidateIntent> = Vec::new();
        if decision.action != RiAuthor4142DecisionAction::Enter {
            assert(candidate_views(candidates@) =~= Seq::<CandidateView>::empty());
            return candidates;
        }
        let model_side = match decision.side {
            Some(s) => s,
            None => {
                assert(candidate_views(candidates@) =~= Seq::<CandidateView>::empty());
                return candidates;
            },
        };
        let ghost profile = self.config.profile_id@;
        if let Some(entry_ts) = decision.scheduled_entry_ts_local {
            candidates.push(
                self.build_candidate_intent(
                    decision,
                    RiAuthor4142CandidateRole::Entry,
                    model_side.entry_order_side(),
                    entry_ts,
                ),
            );
        }
        if let Some(exit_ts) = decision.scheduled_exit_ts_local {
            candidates.push(
                self.build_candidate_intent(
                    decision,
                    RiAuthor4142CandidateRole::Exit,
                    model_side.exit_order_side(),
                    exit_ts,
                ),
            );
        }
        assert(candidate_views(candidates@) =~= spec_candidates(profile, decision@));
        candidates
    }

    /// Appends a row to the observation journal, dropping the oldest rows beyond its
    /// capacity.
    pub fn push_journal_record(&mut self, record: RiAuthor4142JournalRecord)
        ensures
            final(self).journal_records@ == keep_last(
                old(self).journal_records@.push(record),
                JOURNAL_CAPACITY as nat,
            ),
            final(self).state == old(self).state,
            final(self).config == old(self).config,
            final(self).live_positions_dropped == old(self).live_positions_dropped,
            final(self).emitted_decision_keys == old(self).emitted_decision_keys,
            final(self).shadow_decisions_by_key == old(self).shadow_decisions_by_key,
            final(self).shadow_path_keys_by_date == old(self).shadow_path_keys_by_date,
            *final(self) == (RiAuthor4142LiveStrategy { journal_records: final(self).journal_records, ..*old(self) }),
    {
        self.journal_records.push(record);
        let len = self.journal_records.len();
        if len > JOURNAL_CAPACITY {
            let excess = len - JOURNAL_CAPACITY;
            let kept = self.journal_records.split_off(excess);
            self.journal_records = kept;
        }
    }

    /// Journals a decision as seen from the shadow model.
    pub fn record_shadow_journal(&mut self, decision: &RiAuthor4142ModelDecision)
        requires
            decision@.wf(),
        ensures
            journal_views(final(self).journal_records@) == keep_last(
                journal_views(old(self).journal_records@).push(
                    spec_journal(decision@, RiAuthor4142JournalDecision::ShadowRecorded, None, None),
                ),
                JOURNAL_CAPACITY as nat,
            ),
            final(self).state == old(self).state,
            final(self).config == old(self).config,
            final(self).live_positions_dropped == old(self).live_positions_dropped,
    {
        let record = RiAuthor4142JournalRecord::from_decision(
            decision,
            RiAuthor4142JournalDecision::ShadowRecorded,
            None,
            None,
        );
        self.push_record_view(record);
    }

    /// Appends a row and states the result over the rows' views.
    fn push_record_view(&mut self, record: RiAuthor4142JournalRecord)
        ensures
            journal_views(final(self).journal_records@) == keep_last(
                journal_views(old(self).journal_records@).push(record@),
                JOURNAL_CAPACITY as nat,
            ),
            final(self).state == old(self).state,
            final(self).config == old(self).config,
            final(self).live_positions_dropped == old(self).live_positions_dropped,
            final(self).emitted_decision_keys == old(self).emitted_decision_keys,
            final(self).shadow_decisions_by_key == old(self).shadow_decisions_by_key,
            final(self).shadow_path_keys_by_date == old(self).shadow_path_keys_by_date,
            *final(self) == (RiAuthor4142LiveStrategy { journal_records: final(self).journal_records, ..*old(self) }),
    {
        let ghost before = self.journal_records@;
        let ghost rv = record@;
        self.push_journal_record(record);
        proof {
            let pushed = before.push(record);
            assert(journal_views(pushed) =~= journal_views(before).push(rv));
            if pushed.len() > JOURNAL_CAPACITY as nat {
                assert(journal_views(pushed.skip(pushed.len() - JOURNAL_CAPACITY as nat))
                    =~= journal_views(pushed).skip(pushed.len() - JOURNAL_CAPACITY as nat));
            }
        }
    }

    /// Opens a dry-run position on the decision: the component, side, cycle and scheduled
    /// times are recorded with the decision's reason.
    pub fn transition_to_dry_run_in_position(&mut self, decision: &RiAuthor4142ModelDecision)
        requires
            decision@.wf(),
        ensures
            keeps_feed(old(self).state, final(self).state),
            final(self).state.phase@ == "dry_run_in_position"@,
            opt_view(final(self).state.current_component) == Some(
                spec_component_word(decision.component),
            ),
            opt_view(final(self).state.current_side) == (match decision.side {
                Some(s) => Some(spec_side_word(s)),
                None => None,
            }),
            opt_view(final(self).state.current_cycle_id) == Some(spec_cycle_id(decision@)),
            opt_view(final(self).state.current_entry_ts_local) == (
            match decision.scheduled_entry_ts_local {
                Some(x) => Some(instant_text(x)),
                None => None,
            }),
            opt_view(final(self).state.current_exit_ts_local) == (
            match decision.scheduled_exit_ts_local {
                Some(x) => Some(instant_text(x)),
                None => None,
            }),
            opt_view(final(self).state.last_transition_reason) == Some(decision.reason@),
            final(self).state.pending_entry_request_id == old(self).state.pending_entry_request_id,
            final(self).state.pending_exit_request_id == old(self).state.pending_exit_request_id,
            final(self).config == old(self).config,
            final(self).live_positions_dropped == old(self).live_positions_dropped,
            final(self).journal_records == old(self).journal_records,
            final(self).emitted_decision_keys == old(self).emitted_decision_keys,
            final(self).shadow_decisions_by_key == old(self).shadow_decisions_by_key,
            final(self).shadow_path_keys_by_date == old(self).shadow_path_keys_by_date,
    {
        let cycle_id = decision.cycle_id();
        self.state.phase = String::from_str(RiAuthor4142Phase::DryRunInPosition.as_str());
        self.state.current_component = Some(String::from_str(decision.component.as_str()));
        self.state.current_side = match decision.side {
            Some(s) => Some(String::from_str(s.as_str())),
            None => None,
        };
        self.state.current_cycle_id = Some(cycle_id);
        self.state.current_entry_ts_local = opt_instant_text(decision.scheduled_entry_ts_local);
        self.state.current_exit_ts_local = opt_instant_text(decision.scheduled_exit_ts_local);
        self.state.last_transition_reason = Some(decision.reason.clone());
    }

    /// Closes the dry-run position at the decision's scheduled exit: back to flat with
    /// nothing worked and `dry_run_exit:` and the decision's reason recorded.
    pub fn transition_to_flat_after_scheduled_exit(&mut self, decision: &RiAuthor4142ModelDecision)
        ensures
            moved_dry_round_trip(old(self).state, final(self).state, decision.reason@),
            final(self).config == old(self).config,
            final(self).live_positions_dropped == old(self).live_positions_dropped,
            final(self).journal_records == old(self).journal_records,
            final(self).emitted_decision_keys == old(self).emitted_decision_keys,
            final(self).shadow_decisions_by_key == old(self).shadow_decisions_by_key,
            final(self).shadow_path_keys_by_date == old(self).shadow_path_keys_by_date,
    {
        self.state.phase = String::from_str(RiAuthor4142Phase::Flat.as_str());
        self.state.current_component = None;
        self.state.current_side = None;
        self.state.current_cycle_id = None;
        self.state.current_entry_ts_local = None;
        self.state.current_exit_ts_local = None;
        self.state.last_transition_reason = Some(concat_str("dry_run_exit:", decision.reason.as_str()));
    }

    /// Works a model decision without sending orders. A suppressed decision is journaled
    /// as suppressed. An entered one that is unsafe (exit before entry, or on another day)
    /// is journaled and stops the strategy for an operator; one without a complete
    /// candidate is journaled for an operator and leaves the state; otherwise each
    /// candidate order is journaled as suppressed and the dry-run position opens and
    /// closes again at its scheduled exit.
    pub fn apply_dry_run_decision(&mut self, decision: &RiAuthor4142ModelDecision)
        requires
            decision@.wf(),
        ensures
            journal_views(final(self).journal_records@) == keep_last(
                journal_views(old(self).journal_records@) + spec_dry_run_rows(
                    old(self).config.profile_id@,
                    decision@,
                ),
                JOURNAL_CAPACITY as nat,
            ),
            decision.action == RiAuthor4142DecisionAction::Suppress ==> final(self).state == old(
                self,
            ).state,
            decision.action == RiAuthor4142DecisionAction::Enter ==> match spec_safety_reason(
                decision.scheduled_entry_ts_local,
                decision.scheduled_exit_ts_local,
            ) {
                Some(r) => moved_manual(old(self).state, final(self).state, r),
                None => if spec_candidates(old(self).config.profile_id@, decision@).len() == 0 {
                    final(self).state == old(self).state
                } else {
                    moved_dry_round_trip(old(self).state, final(self).state, decision.reason@)
                },
            },
            final(self).config == old(self).config,
            final(self).live_positions_dropped == old(self).live_positions_dropped,
            final(self).emitted_decision_keys == old(self).emitted_decision_keys,
            final(self).shadow_decisions_by_key == old(self).shadow_decisions_by_key,
            final(self).shadow_path_keys_by_date == old(self).shadow_path_keys_by_date,
    {
        let ghost before = journal_views(self.journal_records@);
        let ghost profile = self.config.profile_id@;
        match decision.action {
            RiAuthor4142DecisionAction::Suppress => {
                let record = RiAuthor4142JournalRecord::from_decision(
                    decision,
                    RiAuthor4142JournalDecision::IntentSuppressed,
                    None,
                    None,
                );
                self.push_record_view(record);
                assert(before + spec_dry_run_rows(profile, decision@) =~= before.push(
                    spec_journal(decision@, RiAuthor4142JournalDecision::IntentSuppressed, None, None),
                ));
            },
            RiAuthor4142DecisionAction::Enter => {
                let unsafe_reason = decision_safety_reject_reason(
                    decision.scheduled_entry_ts_local,
                    decision.scheduled_exit_ts_local,
                );
                if let Some(reason) = unsafe_reason {
                    let record = RiAuthor4142JournalRecord::from_decision(
                        decision,
                        RiAuthor4142JournalDecision::ManualInterventionRequired,
                        None,
                        Some(reason),
                    );
                    self.push_record_view(record);
                    assert(before + spec_dry_run_rows(profile, decision@) =~= before.push(
                        spec_journal(
                            decision@,
                            RiAuthor4142JournalDecision::ManualInterventionRequired,
                            None,
                            Some(reason@),
                        ),
                    ));
                    self.enter_manual_intervention_required(String::from_str(reason));
                    return;
                }
                let candidates = self.candidate_intents_for_decision(decision);
                if candidates.len() == 0 {
                    let record = RiAuthor4142JournalRecord::from_decision(
                        decision,
                        RiAuthor4142JournalDecision::ManualInterventionRequired,
                        None,
                        Some("accepted_model_decision_without_complete_entry_exit_candidate"),
                    );
                    self.push_record_view(record);
                    assert(before + spec_dry_run_rows(profile, decision@) =~= before.push(
                        spec_journal(
                            decision@,
                            RiAuthor4142JournalDecision::ManualInterventionRequired,
                            None,
                            Some(incomplete_candidate_reason()),
                        ),
                    ));
                    return;
                }
                let ghost rows = spec_dry_run_rows(profile, decision@);
                let ghost st = self.state;
                let mut i: usize = 0;
                while i < candidates.len()
                    invariant
                        i <= candidates@.len(),
                        decision@.wf(),
                        candidate_views(candidates@) == spec_candidates(profile, decision@),
                        candidates@.len() > 0,
                        rows == candidate_views(candidates@).map_values(
                            |c: CandidateView|
                                spec_journal(
                                    decision@,
                                    RiAuthor4142JournalDecision::IntentSuppressed,
                                    Some(c),
                                    None,
                                ),
                        ),
                        i == 0 ==> journal_views(self.journal_records@) == before,
                        i > 0 ==> journal_views(self.journal_records@) == keep_last(
                            before + rows.take(i as int),
                            JOURNAL_CAPACITY as nat,
                        ),
                        self.state == st,
                        self.config.profile_id@ == profile,
                        self.config == old(self).config,
                        self.live_positions_dropped == old(self).live_positions_dropped,
                        self.emitted_decision_keys == old(self).emitted_decision_keys,
                        self.shadow_decisions_by_key == old(self).shadow_decisions_by_key,
                        self.shadow_path_keys_by_date == old(self).shadow_path_keys_by_date,
                    decreases candidates@.len() - i,
                {
                    let c = &candidates[i];
                    proof {
                        assert(candidate_views(candidates@)[i as int] == c@);
                        assert(spec_candidates(profile, decision@)[i as int] == c@);
                    }
                    let record = RiAuthor4142JournalRecord::from_decision(
                        decision,
                        RiAuthor4142JournalDecision::IntentSuppressed,
                        Some(c),
                        None,
                    );
                    let ghost prior = before + rows.take(i as int);
                    self.push_record_view(record);
                    proof {
                        if i > 0 {
                            lemma_keep_last_push(prior, record@, JOURNAL_CAPACITY as nat);
                        }
                        assert(prior.push(record@) =~= before + rows.take(i + 1));
                    }
                    i = i + 1;
                }
                proof {
                    assert(rows.take(candidates@.len() as int) =~= rows);
                }
                self.transition_to_dry_run_in_position(decision);
                self.transition_to_flat_after_scheduled_exit(decision);
            },
        }
    }

    /// The observation journal rows not yet drained, oldest first.
    pub fn journal_records_for_test(&self) -> (r: &[RiAuthor4142JournalRecord])
        ensures
            r@ == self.journal_records@,
    {
        self.journal_records.as_slice()
    }

    /// Hands out the observation journal rows, oldest first, and empties the journal.
    pub fn drain_observation_journal_records(&mut self) -> (r: Vec<RiAuthor4142JournalRecord>)
        ensures
            r@ == old(self).journal_records@,
            final(self).journal_records@.len() == 0,
            final(self).state == old(self).state,
            final(self).config == old(self).config,
            final(self).live_positions_dropped == old(self).live_positions_dropped,
    {
        let mut drained: Vec<RiAuthor4142JournalRecord> = Vec::new();
        std::mem::swap(&mut drained, &mut self.journal_records);
        drained
    }
}


/// The identifier word of a model profile.
pub open spec fn spec_profile_word(p: ProfileId) -> Seq<char> {
    match p {
        ProfileId::ImoexfAuthor41_42PrimaryComboCost2 => "imoexf_author41_42_primary_combo_cost2"@,
        ProfileId::RiAuthor41_42PrimaryComboCost2 => "ri_author41_42_primary_combo_cost2"@,
    }
}

/// The label of a journal component, the combo row included.
pub open spec fn spec_shadow_component_word(c: Component) -> Seq<char> {
    match c {
        Component::Author41Mr => "author41_mr"@,
        Component::Author42Bo => "author42_bo"@,
        Component::Combo => "combo"@,
    }
}

/// The debug text of an optional shadow side.
pub open spec fn spec_side_debug(s: Option<ShadowSide>) -> Seq<char> {
    match s {
        Some(ShadowSide::Long) => "Some(Long)"@,
        Some(ShadowSide::Short) => "Some(Short)"@,
        None => "None"@,
    }
}

/// The debug text of an optional local instant.
pub open spec fn spec_instant_debug(t: Option<LocalDateTime>) -> Seq<char> {
    match t {
        Some(x) => "Some("@ + chrono_datetime_debug(x.day, x.secs) + ")"@,
        None => "None"@,
    }
}

/// The debug text of a no-overlap outcome.
pub open spec fn spec_overlap_debug(o: OverlapDecision) -> Seq<char> {
    match o {
        OverlapDecision::Accepted => "Accepted"@,
        OverlapDecision::DroppedMrOverlap => "DroppedMrOverlap"@,
        OverlapDecision::NotApplicable => "NotApplicable"@,
    }
}

/// The texts of a shadow record's optional reason.
pub open spec fn opt_text(o: Option<String>) -> Option<Seq<char>> {
    match o {
        Some(s) => Some(s@),
        None => None,
    }
}

/// The instants of a shadow record can be written.
pub open spec fn record_instants_ok(r: ShadowJournalRecord) -> bool {
    &&& instant_ok(r.bar_ts_local)
    &&& opt_instant_ok(r.scheduled_entry_ts_local)
    &&& opt_instant_ok(r.scheduled_exit_ts_local)
}

/// The key that identifies a shadow record's decision: profile, component, bar time, side,
/// scheduled exit and exit reason.
pub open spec fn spec_decision_key(r: ShadowJournalRecord) -> Seq<char> {
    spec_profile_word(r.profile_id) + "|"@ + spec_shadow_component_word(r.component) + "|"@
        + instant_text(r.bar_ts_local) + "|"@ + spec_side_debug(r.side) + "|"@
        + spec_instant_debug(r.scheduled_exit_ts_local) + "|"@ + match opt_text(r.exit_reason) {
        Some(x) => x,
        None => "none"@,
    }
}

/// The reason a decision carries: the record's skip reason, else its exit reason, else
/// `model_decision`.
pub open spec fn spec_decision_reason(r: ShadowJournalRecord) -> Seq<char> {
    match opt_text(r.skip_reason) {
        Some(x) => x,
        None => match opt_text(r.exit_reason) {
            Some(x) => x,
            None => "model_decision"@,
        },
    }
}

/// The decision read from a shadow record under a key; the combo row gives none.
pub open spec fn spec_decision_of(r: ShadowJournalRecord, key: Seq<char>) -> Option<DecisionView> {
    match r.component {
        Component::Combo => None,
        _ => Some(
            DecisionView {
                action: if r.overlap_decision == OverlapDecision::DroppedMrOverlap {
                    RiAuthor4142DecisionAction::Suppress
                } else {
                    RiAuthor4142DecisionAction::Enter
                },
                component: if r.component == Component::Author41Mr {
                    RiAuthor4142Component::Author41Mr
                } else {
                    RiAuthor4142Component::Author42Bo
                },
                side: match r.side {
                    Some(ShadowSide::Long) => Some(RiAuthor4142Side::Long),
                    Some(ShadowSide::Short) => Some(RiAuthor4142Side::Short),
                    None => None,
                },
                model_signal_ts_local: r.bar_ts_local,
                scheduled_entry_ts_local: r.scheduled_entry_ts_local,
                scheduled_exit_ts_local: r.scheduled_exit_ts_local,
                reason: spec_decision_reason(r),
                overlap_decision: spec_overlap_debug(r.overlap_decision),
                decision_key: key,
            },
        ),
    }
}

/// The debug text of a no-overlap outcome.
fn overlap_debug(o: OverlapDecision) -> (s: &'static str)
    ensures
        s@ == spec_overlap_debug(o),
{
    match o {
        OverlapDecision::Accepted => "Accepted",
        OverlapDecision::DroppedMrOverlap => "DroppedMrOverlap",
        OverlapDecision::NotApplicable => "NotApplicable",
    }
}

/// The key that identifies a shadow record's decision: profile, component, bar time, side,
/// scheduled exit and exit reason, joined by `|`.
pub fn decision_key(record: &ShadowJournalRecord) -> (s: String)
    requires
        record_instants_ok(*record),
    ensures
        s@ == spec_decision_key(*record),
{
    let component = match record.component {
        Component::Author41Mr => "author41_mr",
        Component::Author42Bo => "author42_bo",
        Component::Combo => "combo",
    };
    let side = match record.side {
        Some(ShadowSide::Long) => "Some(Long)",
        Some(ShadowSide::Short) => "Some(Short)",
        None => "None",
    };
    let exit = match record.scheduled_exit_ts_local {
        Some(x) => {
            let a = concat_str("Some(", datetime_debug(x).as_str());
            concat_str(a.as_str(), ")")
        },
        None => String::from_str("None"),
    };
    let reason = match &record.exit_reason {
        Some(r) => r.as_str(),
        None => "none",
    };
    let a = concat_str(record.profile_id.as_str(), "|");
    let b = concat_str(a.as_str(), component);
    let c = concat_str(b.as_str(), "|");
    let d = concat_str(c.as_str(), datetime_text(record.bar_ts_local).as_str());
    let e = concat_str(d.as_str(), "|");
    let f = concat_str(e.as_str(), side);
    let g = concat_str(f.as_str(), "|");
    let h = concat_str(g.as_str(), exit.as_str());
    let i = concat_str(h.as_str(), "|");
    concat_str(i.as_str(), reason)
}

impl RiAuthor4142ModelDecision {
    /// The decision of a shadow record under the given key: the combo row gives none; a
    /// record dropped by the no-overlap rule is suppressed and any other is entered.
    pub fn from_shadow_record(record: ShadowJournalRecord, decision_key: String) -> (r: Option<Self>)
        ensures
            match spec_decision_of(record, decision_key@) {
                None => r is None,
                Some(v) => r matches Some(d) && d@ == v,
            },
    {
        Self::of_record(&record, decision_key)
    }
}


/// The instant at which a decision enters: its scheduled entry, else its model signal.
pub open spec fn entry_stamp(d: DecisionView) -> int {
    match d.scheduled_entry_ts_local {
        Some(e) => e.stamp(),
        None => d.model_signal_ts_local.stamp(),
    }
}

/// The rank of a component among decisions entering at the same time.
pub open spec fn component_rank(c: RiAuthor4142Component) -> int {
    match c {
        RiAuthor4142Component::Author41Mr => 0,
        RiAuthor4142Component::Author42Bo => 1,
    }
}

/// Order of optional exits: none first, then by time.
pub open spec fn exit_lt(a: Option<LocalDateTime>, b: Option<LocalDateTime>) -> bool {
    match (a, b) {
        (None, Some(_)) => true,
        (Some(x), Some(y)) => x.stamp() < y.stamp(),
        _ => false,
    }
}

/// Optional exits at the same time, or both absent.
pub open spec fn exit_same(a: Option<LocalDateTime>, b: Option<LocalDateTime>) -> bool {
    match (a, b) {
        (None, None) => true,
        (Some(x), Some(y)) => x.stamp() == y.stamp(),
        _ => false,
    }
}

/// Whether decision `a` comes strictly before `b`: by entry time, then mean reversion
/// first, then by scheduled exit, then by key.
pub open spec fn decision_lt(a: DecisionView, b: DecisionView) -> bool {
    let ea = entry_stamp(a);
    let eb = entry_stamp(b);
    let ca = component_rank(a.component);
    let cb = component_rank(b.component);
    ||| ea < eb
    ||| ea == eb && ca < cb
    ||| ea == eb && ca == cb && exit_lt(a.scheduled_exit_ts_local, b.scheduled_exit_ts_local)
    ||| ea == eb && ca == cb && exit_same(a.scheduled_exit_ts_local, b.scheduled_exit_ts_local)
        && text_lt(a.decision_key, b.decision_key)
}

/// The order of decisions is transitive.
pub proof fn lemma_decision_lt_transitive(a: DecisionView, b: DecisionView, c: DecisionView)
    requires
        decision_lt(a, b),
        decision_lt(b, c),
    ensures
        decision_lt(a, c),
{
    if entry_stamp(a) == entry_stamp(b) && entry_stamp(b) == entry_stamp(c) && component_rank(
        a.component,
    ) == component_rank(b.component) && component_rank(b.component) == component_rank(c.component)
        && exit_same(a.scheduled_exit_ts_local, b.scheduled_exit_ts_local) && exit_same(
        b.scheduled_exit_ts_local,
        c.scheduled_exit_ts_local,
    ) {
        lemma_text_lt_transitive(a.decision_key, b.decision_key, c.decision_key);
    }
}

/// No decision comes before itself.
pub proof fn lemma_decision_lt_irreflexive(a: DecisionView)
    ensures
        !decision_lt(a, a),
{
    lemma_text_lt_irreflexive(a.decision_key);
}

/// The views of a sequence of decisions.
pub open spec fn decision_views(v: Seq<RiAuthor4142ModelDecision>) -> Seq<DecisionView> {
    v.map_values(|d: RiAuthor4142ModelDecision| d@)
}

/// No decision comes before an earlier one.
pub open spec fn decisions_sorted(s: Seq<DecisionView>) -> bool {
    forall|i: int, j: int| 0 <= i < j < s.len() ==> !decision_lt(#[trigger] s[j], #[trigger] s[i])
}

/// Every decision of the sequence can be written.
pub open spec fn decisions_wf(s: Seq<DecisionView>) -> bool {
    forall|i: int| 0 <= i < s.len() ==> (#[trigger] s[i]).wf()
}

/// The instant as seconds of the zone.
fn stamp_of(t: LocalDateTime) -> (s: i64)
    ensures
        s == t.stamp(),
{
    (t.day as i64) * 86400 + (t.secs as i64)
}

/// Whether decision `a` comes strictly before `b`.
pub fn decision_less(a: &RiAuthor4142ModelDecision, b: &RiAuthor4142ModelDecision) -> (r: bool)
    ensures
        r == decision_lt(a@, b@),
{
    let ea = match a.scheduled_entry_ts_local {
        Some(e) => stamp_of(e),
        None => stamp_of(a.model_signal_ts_local),
    };
    let eb = match b.scheduled_entry_ts_local {
        Some(e) => stamp_of(e),
        None => stamp_of(b.model_signal_ts_local),
    };
    if ea != eb {
        return ea < eb;
    }
    let ca = decision_component_sort_key(a.component);
    let cb = decision_component_sort_key(b.component);
    if ca != cb {
        return ca < cb;
    }
    match (a.scheduled_exit_ts_local, b.scheduled_exit_ts_local) {
        (None, Some(_)) => true,
        (Some(_), None) => false,
        (Some(x), Some(y)) => {
            let sx = stamp_of(x);
            let sy = stamp_of(y);
            if sx != sy {
                sx < sy
            } else {
                text_less(a.decision_key.as_str(), b.decision_key.as_str())
            }
        },
        (None, None) => text_less(a.decision_key.as_str(), b.decision_key.as_str()),
    }
}

/// Inserts a decision after every decision it does not come before, keeping the order.
fn insert_in_order(v: &mut Vec<RiAuthor4142ModelDecision>, d: RiAuthor4142ModelDecision)
    requires
        decisions_sorted(decision_views(old(v)@)),
    ensures
        decisions_sorted(decision_views(final(v)@)),
        decision_views(final(v)@).to_multiset() == decision_views(old(v)@).to_multiset().insert(
            d@,
        ),
{
    let ghost s = decision_views(v@);
    let ghost dv = d@;
    let mut p: usize = 0;
    while p < v.len()
        invariant
            p <= v@.len(),
            s == decision_views(v@),
            dv == d@,
            forall|k: int| 0 <= k < p ==> !decision_lt(dv, #[trigger] s[k]),
        ensures
            p <= v@.len(),
            s == decision_views(v@),
            forall|k: int| 0 <= k < p ==> !decision_lt(dv, #[trigger] s[k]),
            p < s.len() ==> decision_lt(dv, s[p as int]),
        decreases v@.len() - p,
    {
        let later = decision_less(&d, &v[p]);
        proof {
            assert(s[p as int] == v@[p as int]@);
        }
        if later {
            break;
        }
        p = p + 1;
    }
    v.insert(p, d);
    proof {
        let t = decision_views(v@);
        assert(t =~= s.insert(p as int, dv));
        vstd::seq_lib::to_multiset_insert(s, p as int, dv);
        assert forall|i: int, j: int| 0 <= i < j < t.len() implies !decision_lt(
            #[trigger] t[j],
            #[trigger] t[i],
        ) by {
            if j < p {
                assert(t[i] == s[i] && t[j] == s[j]);
                assert(!decision_lt(s[j], s[i]));
            } else if j == p {
                assert(t[i] == s[i] && t[j] == dv);
                assert(!decision_lt(dv, s[i]));
            } else if i == p {
                assert(t[j] == s[j - 1] && t[i] == dv);
                if decision_lt(s[j - 1], dv) {
                    lemma_decision_lt_transitive(s[j - 1], dv, s[p as int]);
                    if j - 1 > p {
                        assert(!decision_lt(s[j - 1], s[p as int]));
                    } else {
                        lemma_decision_lt_irreflexive(s[p as int]);
                    }
                }
            } else if i < p {
                assert(t[i] == s[i] && t[j] == s[j - 1]);
                assert(!decision_lt(s[j - 1], s[i]));
            } else {
                assert(t[i] == s[i - 1] && t[j] == s[j - 1]);
                assert(!decision_lt(s[j - 1], s[i - 1]));
            }
        }
    }
}

/// The decisions of the final records among `recs`, in record order.
pub open spec fn finalized_views(recs: Seq<ShadowJournalRecord>, current: LocalDateTime) -> Seq<
    DecisionView,
>
    decreases recs.len(),
{
    if recs.len() == 0 {
        Seq::empty()
    } else {
        let prev = finalized_views(recs.drop_last(), current);
        let r = recs.last();
        if spec_is_finalized(r, current) {
            match spec_decision_of(r, spec_decision_key(r)) {
                Some(d) => prev.push(d),
                None => prev,
            }
        } else {
            prev
        }
    }
}

impl RiAuthor4142ModelDecision {
    /// The decision of a borrowed shadow record under the given key.
    pub fn of_record(record: &ShadowJournalRecord, decision_key: String) -> (r: Option<Self>)
        ensures
            match spec_decision_of(*record, decision_key@) {
                None => r is None,
                Some(v) => r matches Some(d) && d@ == v,
            },
    {
        let component = match RiAuthor4142Component::from_shadow(record.component) {
            Some(c) => c,
            None => {
                return None;
            },
        };
        let side = match record.side {
            Some(s) => Some(RiAuthor4142Side::from_shadow(s)),
            None => None,
        };
        let action = if record.overlap_decision == OverlapDecision::DroppedMrOverlap {
            RiAuthor4142DecisionAction::Suppress
        } else {
            RiAuthor4142DecisionAction::Enter
        };
        let reason = match &record.skip_reason {
            Some(s) => s.clone(),
            None => match &record.exit_reason {
                Some(e) => e.clone(),
                None => String::from_str("model_decision"),
            },
        };
        Some(
            RiAuthor4142ModelDecision {
                action,
                component,
                side,
                model_signal_ts_local: record.bar_ts_local,
                scheduled_entry_ts_local: record.scheduled_entry_ts_local,
                scheduled_exit_ts_local: record.scheduled_exit_ts_local,
                reason,
                overlap_decision: String::from_str(overlap_debug(record.overlap_decision)),
                decision_key,
            },
        )
    }
}

/// The decisions of the records that are final at the current bar, ordered by entry time,
/// then mean reversion first, then by scheduled exit, then by key. Records of the combo
/// row give no decision.
pub fn finalized_decisions_from_records(
    records: Vec<ShadowJournalRecord>,
    current_dt_local: LocalDateTime,
) -> (r: Vec<RiAuthor4142ModelDecision>)
    requires
        current_dt_local.wf(),
        forall|i: int| 0 <= i < records@.len() ==> record_instants_ok(#[trigger] records@[i]),
    ensures
        decisions_sorted(decision_views(r@)),
        decision_views(r@).to_multiset() == finalized_views(records@, current_dt_local).to_multiset(),
{
    let mut decisions: Vec<RiAuthor4142ModelDecision> = Vec::new();
    let mut i: usize = 0;
    proof {
        assert(decision_views(decisions@) =~= Seq::<DecisionView>::empty());
        assert(records@.take(0) =~= Seq::<ShadowJournalRecord>::empty());
    }
    while i < records.len()
        invariant
            i <= records@.len(),
            current_dt_local.wf(),
            forall|k: int| 0 <= k < records@.len() ==> record_instants_ok(#[trigger] records@[k]),
            decisions_sorted(decision_views(decisions@)),
            decision_views(decisions@).to_multiset() == finalized_views(
                records@.take(i as int),
                current_dt_local,
            ).to_multiset(),
        decreases records@.len() - i,
    {
        let record = &records[i];
        let ghost prev = finalized_views(records@.take(i as int), current_dt_local);
        proof {
            assert(records@.take(i + 1).drop_last() =~= records@.take(i as int));
            assert(records@.take(i + 1).last() == records@[i as int]);
            assert(record_instants_ok(records@[i as int]));
        }
        if is_finalized_record(record, current_dt_local) {
            let key = decision_key(record);
            match RiAuthor4142ModelDecision::of_record(record, key) {
                Some(d) => {
                    let ghost dv = d@;
                    insert_in_order(&mut decisions, d);
                    proof {
                        assert(finalized_views(records@.take(i + 1), current_dt_local) == prev.push(dv));
                        vstd::seq_lib::to_multiset_build(prev, dv);
                    }
                },
                None => {
                    assert(finalized_views(records@.take(i + 1), current_dt_local) == prev);
                },
            }
        } else {
            assert(finalized_views(records@.take(i + 1), current_dt_local) == prev);
        }
        i = i + 1;
    }
    proof {
        assert(records@.take(records@.len() as int) =~= records@);
    }
    decisions
}


/// The journal rows after appending `rows` one at a time, each append dropping the oldest
/// rows beyond the capacity.
pub open spec fn journal_after(before: Seq<JournalView>, rows: Seq<JournalView>) -> Seq<JournalView> {
    if rows.len() == 0 {
        before
    } else {
        keep_last(before + rows, JOURNAL_CAPACITY as nat)
    }
}

/// Appending one more row extends the appended rows.
pub proof fn lemma_journal_after_push(before: Seq<JournalView>, rows: Seq<JournalView>, x: JournalView)
    ensures
        keep_last(journal_after(before, rows).push(x), JOURNAL_CAPACITY as nat) == journal_after(
            before,
            rows.push(x),
        ),
{
    if rows.len() == 0 {
        assert(before.push(x) =~= before + rows.push(x));
    } else {
        lemma_keep_last_push(before + rows, x, JOURNAL_CAPACITY as nat);
        assert((before + rows).push(x) =~= before + rows.push(x));
    }
}

/// The decisions among `ds` whose key was not seen before, in order; each decision's key
/// counts as seen for the ones after it.
pub open spec fn fresh_decisions(seen: Set<Seq<char>>, ds: Seq<DecisionView>) -> Seq<DecisionView>
    decreases ds.len(),
{
    if ds.len() == 0 {
        Seq::empty()
    } else if seen.contains(ds[0].decision_key) {
        fresh_decisions(seen, ds.drop_first())
    } else {
        seq![ds[0]] + fresh_decisions(seen.insert(ds[0].decision_key), ds.drop_first())
    }
}

/// The keys of a sequence of decisions.
pub open spec fn decision_keys(ds: Seq<DecisionView>) -> Set<Seq<char>> {
    ds.map_values(|d: DecisionView| d.decision_key).to_set()
}

/// A counter raised by `k` that stops at `u64::MAX`.
pub open spec fn counter_plus(n: u64, k: nat) -> u64 {
    if n + k > u64::MAX {
        u64::MAX
    } else {
        (n + k) as u64
    }
}

/// The shadow-recorded journal rows of decisions.
pub open spec fn shadow_rows(ds: Seq<DecisionView>) -> Seq<JournalView> {
    ds.map_values(
        |d: DecisionView| spec_journal(d, RiAuthor4142JournalDecision::ShadowRecorded, None, None),
    )
}

impl RiAuthor4142LiveStrategy {
    /// Takes the decisions whose key was not taken before, in order: each is counted,
    /// remembered as the last decision, journaled as seen from the shadow model, and
    /// returned.
    pub fn collect_incremental_decisions(&mut self, finalized: Vec<RiAuthor4142ModelDecision>) -> (r:
        Vec<RiAuthor4142ModelDecision>)
        requires
            decisions_wf(decision_views(finalized@)),
        ensures
            decision_views(r@) == fresh_decisions(
                texts(old(self).emitted_decision_keys@).to_set(),
                decision_views(finalized@),
            ),
            texts(final(self).emitted_decision_keys@).to_set() == texts(
                old(self).emitted_decision_keys@,
            ).to_set().union(decision_keys(decision_views(finalized@))),
            journal_views(final(self).journal_records@) == journal_after(
                journal_views(old(self).journal_records@),
                shadow_rows(decision_views(r@)),
            ),
            final(self).state.model_decisions_seen == counter_plus(
                old(self).state.model_decisions_seen,
                r@.len(),
            ),
            opt_view(final(self).state.last_decision_key) == (if r@.len() == 0 {
                opt_view(old(self).state.last_decision_key)
            } else {
                Some(decision_views(r@).last().decision_key)
            }),
            same_but_decisions(old(self).state, final(self).state),
            final(self).config == old(self).config,
            final(self).live_positions_dropped == old(self).live_positions_dropped,
            final(self).shadow_decisions_by_key == old(self).shadow_decisions_by_key,
            final(self).shadow_path_keys_by_date == old(self).shadow_path_keys_by_date,
    {
        let ghost ds = decision_views(finalized@);
        let ghost seen0 = texts(self.emitted_decision_keys@).to_set();
        let ghost before = journal_views(self.journal_records@);
        let ghost old_count = self.state.model_decisions_seen;
        let ghost old_last = self.state.last_decision_key;
        let mut decisions: Vec<RiAuthor4142ModelDecision> = Vec::new();
        let mut i: usize = 0;
        proof {
            assert(ds.skip(0) =~= ds);
            assert(ds.take(0).map_values(|d: DecisionView| d.decision_key) =~= Seq::<Seq<char>>::empty());
            assert(seen0.union(decision_keys(ds.take(0))) =~= seen0);
            assert(decision_views(decisions@) =~= Seq::<DecisionView>::empty());
            assert(shadow_rows(Seq::<DecisionView>::empty()) =~= Seq::<JournalView>::empty());
        }
        while i < finalized.len()
            invariant
                i <= finalized@.len(),
                ds == decision_views(finalized@),
                decisions_wf(ds),
                texts(self.emitted_decision_keys@).to_set() == seen0.union(
                    decision_keys(ds.take(i as int)),
                ),
                decision_views(decisions@) + fresh_decisions(
                    texts(self.emitted_decision_keys@).to_set(),
                    ds.skip(i as int),
                ) == fresh_decisions(seen0, ds),
                journal_views(self.journal_records@) == journal_after(
                    before,
                    shadow_rows(decision_views(decisions@)),
                ),
                self.state.model_decisions_seen == counter_plus(old_count, decisions@.len()),
                opt_view(self.state.last_decision_key) == (if decisions@.len() == 0 {
                    opt_view(old_last)
                } else {
                    Some(decision_views(decisions@).last().decision_key)
                }),
                same_but_decisions(old(self).state, self.state),
                self.config == old(self).config,
                self.live_positions_dropped == old(self).live_positions_dropped,
                self.shadow_decisions_by_key == old(self).shadow_decisions_by_key,
                self.shadow_path_keys_by_date == old(self).shadow_path_keys_by_date,
            decreases finalized@.len() - i,
        {
            let d = &finalized[i];
            let ghost seen = texts(self.emitted_decision_keys@).to_set();
            let ghost dv = d@;
            proof {
                assert(ds[i as int] == dv);
                assert(ds.skip(i as int)[0] == dv);
                assert(ds.skip(i as int).drop_first() =~= ds.skip(i + 1));
                assert(ds.take(i + 1).map_values(|d: DecisionView| d.decision_key) =~= ds.take(
                    i as int,
                ).map_values(|d: DecisionView| d.decision_key).push(dv.decision_key));
                ds.take(i as int).map_values(|d: DecisionView| d.decision_key).lemma_push_to_set_commute(
                    dv.decision_key,
                );
                assert(seen0.union(decision_keys(ds.take(i + 1))) =~= seen.insert(dv.decision_key));
            }
            let known = holds_text(&self.emitted_decision_keys, d.decision_key.as_str());
            if known {
                proof {
                    assert(seen.insert(dv.decision_key) =~= seen);
                }
            } else {
                set_insert_text(&mut self.emitted_decision_keys, d.decision_key.as_str());
                self.record_decision_state(d.decision_key.clone());
                let ghost prior = decision_views(decisions@);
                let record = RiAuthor4142JournalRecord::from_decision(
                    d,
                    RiAuthor4142JournalDecision::ShadowRecorded,
                    None,
                    None,
                );
                self.push_record_view(record);
                decisions.push(d.duplicate());
                proof {
                    assert(decision_views(decisions@) =~= prior.push(dv));
                    assert(shadow_rows(prior.push(dv)) =~= shadow_rows(prior).push(
                        spec_journal(dv, RiAuthor4142JournalDecision::ShadowRecorded, None, None),
                    ));
                    lemma_journal_after_push(
                        before,
                        shadow_rows(prior),
                        spec_journal(dv, RiAuthor4142JournalDecision::ShadowRecorded, None, None),
                    );
                    assert(prior.push(dv) + fresh_decisions(seen.insert(dv.decision_key), ds.skip(i + 1))
                        =~= prior + (seq![dv] + fresh_decisions(
                        seen.insert(dv.decision_key),
                        ds.skip(i + 1),
                    )));
                }
            }
            i = i + 1;
        }
        proof {
            assert(ds.skip(finalized@.len() as int) =~= Seq::<DecisionView>::empty());
            assert(ds.take(finalized@.len() as int) =~= ds);
            assert(decision_views(decisions@) + Seq::<DecisionView>::empty() =~= decision_views(decisions@));
        }
        decisions
    }
}


/// A market order that the live adapter sends for a candidate.
#[derive(Debug, Clone, PartialEq, Eq)]
pub struct RiMarketOrder {
    pub side: OrderSide,
    pub comment: String,
    pub intent_class: IntentClass,
    /// The symbol the order is routed to when it differs from the strategy's symbol.
    pub symbol: Option<String>,
}

/// `b` is `a` with the decision recorded as the position being worked.
pub open spec fn works_decision(b: RiAuthor4142LiveState, d: DecisionView) -> bool {
    &&& opt_view(b.current_component) == Some(spec_component_word(d.component))
    &&& opt_view(b.current_side) == (match d.side {
        Some(s) => Some(spec_side_word(s)),
        None => None,
    })
    &&& opt_view(b.current_cycle_id) == Some(spec_cycle_id(d))
    &&& opt_view(b.current_entry_ts_local) == (match d.scheduled_entry_ts_local {
        Some(x) => Some(instant_text(x)),
        None => None,
    })
    &&& opt_view(b.current_exit_ts_local) == (match d.scheduled_exit_ts_local {
        Some(x) => Some(instant_text(x)),
        None => None,
    })
}

impl RiAuthor4142LiveStrategy {
    /// Records the decision as the position being worked.
    fn work_decision(&mut self, decision: &RiAuthor4142ModelDecision)
        requires
            decision@.wf(),
        ensures
            works_decision(final(self).state, decision@),
            keeps_feed(old(self).state, final(self).state),
            final(self).state.phase == old(self).state.phase,
            final(self).state.last_transition_reason == old(self).state.last_transition_reason,
            final(self).state.pending_entry_request_id == old(self).state.pending_entry_request_id,
            final(self).state.pending_exit_request_id == old(self).state.pending_exit_request_id,
            final(self).config == old(self).config,
            final(self).live_positions_dropped == old(self).live_positions_dropped,
            final(self).journal_records == old(self).journal_records,
            final(self).emitted_decision_keys == old(self).emitted_decision_keys,
            *final(self) == (RiAuthor4142LiveStrategy { state: final(self).state, ..*old(self) }),
    {
        let cycle_id = decision.cycle_id();
        self.state.current_component = Some(String::from_str(decision.component.as_str()));
        self.state.current_side = match decision.side {
            Some(s) => Some(String::from_str(s.as_str())),
            None => None,
        };
        self.state.current_cycle_id = Some(cycle_id);
        self.state.current_entry_ts_local = opt_instant_text(decision.scheduled_entry_ts_local);
        self.state.current_exit_ts_local = opt_instant_text(decision.scheduled_exit_ts_local);
    }

    /// Moves to a pending live entry on the decision for the given reason; no request is
    /// pending yet.
    pub fn transition_live_pending_entry(&mut self, decision: &RiAuthor4142ModelDecision, reason: &str)
        requires
            decision@.wf(),
        ensures
            works_decision(final(self).state, decision@),
            keeps_feed(old(self).state, final(self).state),
            final(self).state.phase@ == "live_pending_entry"@,
            opt_view(final(self).state.last_transition_reason) == Some(reason@),
            final(self).state.pending_entry_request_id is None,
            final(self).state.pending_exit_request_id is None,
            final(self).config == old(self).config,
            final(self).live_positions_dropped == old(self).live_positions_dropped,
            final(self).journal_records == old(self).journal_records,
            final(self).emitted_decision_keys == old(self).emitted_decision_keys,
            *final(self) == (RiAuthor4142LiveStrategy { state: final(self).state, ..*old(self) }),
    {
        self.work_decision(decision);
        self.state.phase = String::from_str("live_pending_entry");
        self.state.last_transition_reason = Some(String::from_str(reason));
        self.state.pending_entry_request_id = None;
        self.state.pending_exit_request_id = None;
    }

    /// Moves to a pending live exit on the decision; the reason recorded is the given one,
    /// `:` and the decision's. The pending entry request is kept.
    pub fn transition_live_pending_exit(&mut self, decision: &RiAuthor4142ModelDecision, reason: &str)
        requires
            decision@.wf(),
        ensures
            works_decision(final(self).state, decision@),
            keeps_feed(old(self).state, final(self).state),
            final(self).state.phase@ == "live_pending_exit"@,
            opt_view(final(self).state.last_transition_reason) == Some(
                reason@ + ":"@ + decision.reason@,
            ),
            final(self).state.pending_entry_request_id == old(self).state.pending_entry_request_id,
            final(self).state.pending_exit_request_id is None,
            final(self).config == old(self).config,
            final(self).live_positions_dropped == old(self).live_positions_dropped,
            final(self).journal_records == old(self).journal_records,
            final(self).emitted_decision_keys == old(self).emitted_decision_keys,
            *final(self) == (RiAuthor4142LiveStrategy { state: final(self).state, ..*old(self) }),
    {
        self.work_decision(decision);
        self.state.phase = String::from_str("live_pending_exit");
        let a = concat_str(reason, ":");
        self.state.last_transition_reason = Some(concat_str(a.as_str(), decision.reason.as_str()));
        self.state.pending_exit_request_id = None;
    }

    /// Journals a candidate order that the live adapter handles: as emitted, or as held
    /// back when the adapter only runs prospectively.
    pub fn record_candidate_emitted_journal(
        &mut self,
        candidate: &RiAuthor4142CandidateIntent,
        decision: &RiAuthor4142ModelDecision,
    )
        requires
            decision@.wf(),
            instant_ok(candidate.scheduled_ts_local),
        ensures
            journal_views(final(self).journal_records@) == keep_last(
                journal_views(old(self).journal_records@).push(
                    spec_journal(
                        decision@,
                        if old(self).config.spec_runs_prospective_adapter() {
                            RiAuthor4142JournalDecision::ProspectiveIntentSuppressed
                        } else {
                            RiAuthor4142JournalDecision::IntentEmitted
                        },
                        Some(candidate@),
                        None,
                    ),
                ),
                JOURNAL_CAPACITY as nat,
            ),
            final(self).state == old(self).state,
            final(self).config == old(self).config,
            final(self).live_positions_dropped == old(self).live_positions_dropped,
            final(self).emitted_decision_keys == old(self).emitted_decision_keys,
            *final(self) == (RiAuthor4142LiveStrategy { journal_records: final(self).journal_records, ..*old(self) }),
    {
        let adapter_decision = if self.config.runs_prospective_adapter() {
            RiAuthor4142JournalDecision::ProspectiveIntentSuppressed
        } else {
            RiAuthor4142JournalDecision::IntentEmitted
        };
        let record = RiAuthor4142JournalRecord::from_decision(
            decision,
            adapter_decision,
            Some(candidate),
            None,
        );
        self.push_record_view(record);
    }

    /// Journals a candidate order and builds the market order that sends it, routed to the
    /// configured order symbol when that differs from the strategy's symbol.
    pub fn emit_live_candidate(
        &mut self,
        candidate: RiAuthor4142CandidateIntent,
        decision: &RiAuthor4142ModelDecision,
    ) -> (o: RiMarketOrder)
        requires
            decision@.wf(),
            instant_ok(candidate.scheduled_ts_local),
        ensures
            journal_views(final(self).journal_records@) == keep_last(
                journal_views(old(self).journal_records@).push(
                    spec_journal(
                        decision@,
                        if old(self).config.spec_runs_prospective_adapter() {
                            RiAuthor4142JournalDecision::ProspectiveIntentSuppressed
                        } else {
                            RiAuthor4142JournalDecision::IntentEmitted
                        },
                        Some(candidate@),
                        None,
                    ),
                ),
                JOURNAL_CAPACITY as nat,
            ),
            o.side == candidate.side,
            o.comment@ == candidate.comment@,
            o.intent_class == candidate.intent_class,
            opt_view(o.symbol) == (match opt_view(old(self).config.order_symbol) {
                Some(s) => if s != old(self).config.symbol@ {
                    Some(s)
                } else {
                    None
                },
                None => None,
            }),
            final(self).state == old(self).state,
            final(self).config == old(self).config,
            final(self).live_positions_dropped == old(self).live_positions_dropped,
            final(self).emitted_decision_keys == old(self).emitted_decision_keys,
            *final(self) == (RiAuthor4142LiveStrategy { journal_records: final(self).journal_records, ..*old(self) }),
    {
        self.record_candidate_emitted_journal(&candidate, decision);
        let symbol = match &self.config.order_symbol {
            Some(s) => if str_eq(s.as_str(), self.config.symbol.as_str()) {
                None
            } else {
                Some(s.clone())
            },
            None => None,
        };
        RiMarketOrder {
            side: candidate.side,
            comment: candidate.comment,
            intent_class: candidate.intent_class,
            symbol,
        }
    }

    /// The decision the live adapter takes on its own model: an accepted entry on the given
    /// side.
    pub fn live_decision(
        &self,
        component: RiAuthor4142Component,
        side: RiAuthor4142Side,
        model_signal_ts_local: LocalDateTime,
        scheduled_entry_ts_local: Option<LocalDateTime>,
        scheduled_exit_ts_local: Option<LocalDateTime>,
        reason: &str,
        decision_key: String,
    ) -> (d: RiAuthor4142ModelDecision)
        ensures
            d@ == (DecisionView {
                action: RiAuthor4142DecisionAction::Enter,
                component,
                side: Some(side),
                model_signal_ts_local,
                scheduled_entry_ts_local,
                scheduled_exit_ts_local,
                reason: reason@,
                overlap_decision: "Accepted"@,
                decision_key: decision_key@,
            }),
    {
        RiAuthor4142ModelDecision {
            action: RiAuthor4142DecisionAction::Enter,
            component,
            side: Some(side),
            model_signal_ts_local,
            scheduled_entry_ts_local,
            scheduled_exit_ts_local,
            reason: String::from_str(reason),
            overlap_decision: String::from_str("Accepted"),
            decision_key,
        }
    }
}


/// The shadow portfolio path of one day: the keys of its accepted decisions, in
/// increasing order.
#[derive(Debug, Clone)]
pub struct ShadowPathDay {
    pub day: i32,
    pub keys: Vec<String>,
}

/// Days strictly increase and each day's keys strictly increase.
pub open spec fn path_wf(v: Seq<ShadowPathDay>) -> bool {
    &&& forall|i: int, j: int| 0 <= i < j < v.len() ==> (#[trigger] v[i]).day < (#[trigger] v[j]).day
    &&& forall|i: int| 0 <= i < v.len() ==> texts_sorted(texts((#[trigger] v[i]).keys@))
}

/// Whether the path has an entry for the day.
pub open spec fn path_has(v: Seq<ShadowPathDay>, day: i32) -> bool {
    exists|i: int| 0 <= i < v.len() && (#[trigger] v[i]).day == day
}

/// The keys the path holds for a day, empty when it has no entry for it.
pub open spec fn path_keys(v: Seq<ShadowPathDay>, day: i32) -> Seq<Seq<char>> {
    if path_has(v, day) {
        texts(v[choose|i: int| 0 <= i < v.len() && (#[trigger] v[i]).day == day].keys@)
    } else {
        Seq::empty()
    }
}

/// In a path with increasing days the entry of a day is found at its index.
pub proof fn lemma_path_keys_at(v: Seq<ShadowPathDay>, i: int)
    requires
        path_wf(v),
        0 <= i < v.len(),
    ensures
        path_has(v, v[i].day),
        path_keys(v, v[i].day) == texts(v[i].keys@),
{
    assert(path_has(v, v[i].day));
    let k = choose|k: int| 0 <= k < v.len() && (#[trigger] v[k]).day == v[i].day;
    if k < i {
        assert(v[k].day < v[i].day);
    } else if k > i {
        assert(v[i].day < v[k].day);
    }
}

/// Where a day's entry is, or where it would be inserted to keep the days increasing.
fn path_position(v: &Vec<ShadowPathDay>, day: i32) -> (p: usize)
    requires
        path_wf(v@),
    ensures
        p <= v@.len(),
        forall|k: int| 0 <= k < p ==> (#[trigger] v@[k]).day < day,
        p < v@.len() ==> v@[p as int].day >= day,
{
    let mut p: usize = 0;
    while p < v.len()
        invariant
            p <= v@.len(),
            forall|k: int| 0 <= k < p ==> (#[trigger] v@[k]).day < day,
        ensures
            p <= v@.len(),
            forall|k: int| 0 <= k < p ==> (#[trigger] v@[k]).day < day,
            p < v@.len() ==> v@[p as int].day >= day,
        decreases v@.len() - p,
    {
        if v[p].day >= day {
            break;
        }
        p = p + 1;
    }
    p
}

/// Whether a day is on the path: its position holds it.
proof fn lemma_path_position(v: Seq<ShadowPathDay>, day: i32, p: int)
    requires
        path_wf(v),
        0 <= p <= v.len(),
        forall|k: int| 0 <= k < p ==> (#[trigger] v[k]).day < day,
        p < v.len() ==> v[p].day >= day,
    ensures
        path_has(v, day) <==> (p < v.len() && v[p].day == day),
{
    if path_has(v, day) {
        let k = choose|k: int| 0 <= k < v.len() && (#[trigger] v[k]).day == day;
        if k < p {
            assert(v[k].day < day);
        } else if k > p {
            assert(v[p].day < v[k].day);
        }
    }
}

/// The path after replacing the entry at `p`, which holds `day`, by new keys for it.
fn path_replace_at(v: &mut Vec<ShadowPathDay>, p: usize, day: i32, keys: Vec<String>)
    requires
        path_wf(old(v)@),
        p < old(v)@.len(),
        old(v)@[p as int].day == day,
        texts_sorted(texts(keys@)),
    ensures
        path_wf(final(v)@),
        path_has(final(v)@, day),
        path_keys(final(v)@, day) == texts(keys@),
        forall|d: i32| d != day ==> (#[trigger] path_has(final(v)@, d)) == path_has(old(v)@, d),
        forall|d: i32| d != day ==> #[trigger] path_keys(final(v)@, d) == path_keys(old(v)@, d),
{
    let ghost s = v@;
    v.set(p, ShadowPathDay { day, keys });
    proof {
        let t = v@;
        assert forall|i: int, j: int| 0 <= i < j < t.len() implies (#[trigger] t[i]).day < (
        #[trigger] t[j]).day by {
            assert(s[i].day < s[j].day);
        }
        assert(path_wf(t));
        lemma_path_keys_at(t, p as int);
        assert forall|d: i32| d != day implies (#[trigger] path_has(t, d)) == path_has(s, d)
            && path_keys(t, d) == path_keys(s, d) by {
            if path_has(s, d) {
                let k = choose|k: int| 0 <= k < s.len() && (#[trigger] s[k]).day == d;
                assert(t[k] == s[k]);
                lemma_path_keys_at(s, k);
                lemma_path_keys_at(t, k);
            }
            if path_has(t, d) {
                let k = choose|k: int| 0 <= k < t.len() && (#[trigger] t[k]).day == d;
                assert(t[k] == s[k]);
            }
        }
    }
}

/// The path after inserting a new day at `p`, its position among the days.
#[verifier::rlimit(30)]
fn path_insert_at(v: &mut Vec<ShadowPathDay>, p: usize, day: i32, keys: Vec<String>)
    requires
        path_wf(old(v)@),
        p <= old(v)@.len(),
        forall|k: int| 0 <= k < p ==> (#[trigger] old(v)@[k]).day < day,
        p < old(v)@.len() ==> old(v)@[p as int].day > day,
        texts_sorted(texts(keys@)),
    ensures
        path_wf(final(v)@),
        path_has(final(v)@, day),
        path_keys(final(v)@, day) == texts(keys@),
        forall|d: i32| d != day ==> (#[trigger] path_has(final(v)@, d)) == path_has(old(v)@, d),
        forall|d: i32| d != day ==> #[trigger] path_keys(final(v)@, d) == path_keys(old(v)@, d),
{
    let ghost s = v@;
    v.insert(p, ShadowPathDay { day, keys });
    proof {
        let t = v@;
        assert forall|i: int, j: int| 0 <= i < j < t.len() implies (#[trigger] t[i]).day < (
        #[trigger] t[j]).day by {
            if j < p {
                assert(t[i] == s[i] && t[j] == s[j]);
            } else if j == p {
                assert(t[i] == s[i]);
            } else if i == p {
                assert(t[j] == s[j - 1]);
                if j - 1 > p {
                    assert(s[p as int].day < s[j - 1].day);
                }
            } else if i < p {
                assert(t[i] == s[i] && t[j] == s[j - 1]);
            } else {
                assert(t[i] == s[i - 1] && t[j] == s[j - 1]);
            }
        }
        assert forall|i: int| 0 <= i < t.len() implies texts_sorted(
            texts((#[trigger] t[i]).keys@),
        ) by {
            if i < p {
                assert(t[i] == s[i]);
            } else if i > p {
                assert(t[i] == s[i - 1]);
            }
        }
        assert(path_wf(t));
        lemma_path_keys_at(t, p as int);
        assert forall|d: i32| d != day implies (#[trigger] path_has(t, d)) == path_has(s, d)
            && path_keys(t, d) == path_keys(s, d) by {
            if path_has(s, d) {
                let k = choose|k: int| 0 <= k < s.len() && (#[trigger] s[k]).day == d;
                lemma_path_keys_at(s, k);
                if k < p {
                    assert(t[k] == s[k]);
                    lemma_path_keys_at(t, k);
                } else {
                    assert(t[k + 1] == s[k]);
                    lemma_path_keys_at(t, k + 1);
                }
            }
            if path_has(t, d) {
                let k = choose|k: int| 0 <= k < t.len() && (#[trigger] t[k]).day == d;
                if k < p {
                    assert(t[k] == s[k]);
                } else if k > p {
                    assert(t[k] == s[k - 1]);
                }
            }
        }
    }
}

/// Sets the keys of a day on the path, adding the day where it is missing; other days
/// keep theirs.
fn path_set_day(v: &mut Vec<ShadowPathDay>, day: i32, keys: Vec<String>)
    requires
        path_wf(old(v)@),
        texts_sorted(texts(keys@)),
    ensures
        path_wf(final(v)@),
        path_has(final(v)@, day),
        path_keys(final(v)@, day) == texts(keys@),
        forall|d: i32| d != day ==> (#[trigger] path_has(final(v)@, d)) == path_has(old(v)@, d),
        forall|d: i32| d != day ==> #[trigger] path_keys(final(v)@, d) == path_keys(old(v)@, d),
{
    let p = path_position(v, day);
    if p < v.len() && v[p].day == day {
        path_replace_at(v, p, day, keys);
    } else {
        path_insert_at(v, p, day, keys);
    }
}

/// The keys the path holds for a day, in increasing order.
fn path_keys_of(v: &Vec<ShadowPathDay>, day: i32) -> (r: Vec<String>)
    requires
        path_wf(v@),
    ensures
        texts(r@) == path_keys(v@, day),
        texts_sorted(texts(r@)),
{
    let p = path_position(v, day);
    proof {
        lemma_path_position(v@, day, p as int);
    }
    if p < v.len() && v[p].day == day {
        proof {
            lemma_path_keys_at(v@, p as int);
        }
        copy_texts(&v[p].keys)
    } else {
        let r: Vec<String> = Vec::new();
        assert(texts(r@) =~= Seq::<Seq<char>>::empty());
        r
    }
}

/// A copy of a list of strings.
fn copy_texts(v: &Vec<String>) -> (r: Vec<String>)
    ensures
        texts(r@) == texts(v@),
{
    let mut r: Vec<String> = Vec::new();
    let mut i: usize = 0;
    proof {
        assert(texts(r@) =~= texts(v@).take(0));
    }
    while i < v.len()
        invariant
            i <= v@.len(),
            texts(r@) == texts(v@).take(i as int),
        decreases v@.len() - i,
    {
        let ghost before = texts(r@);
        r.push(v[i].clone());
        proof {
            assert(texts(r@) =~= before.push(v@[i as int]@));
            assert(texts(v@).take(i + 1) =~= texts(v@).take(i as int).push(texts(v@)[i as int]));
        }
        i = i + 1;
    }
    proof {
        assert(texts(v@).take(v@.len() as int) =~= texts(v@));
    }
    r
}


/// Whether an accepted decision with both times scheduled belongs on the shadow
/// portfolio path.
pub open spec fn path_member(d: DecisionView) -> bool {
    &&& d.action == RiAuthor4142DecisionAction::Enter
    &&& d.overlap_decision == "Accepted"@
    &&& d.scheduled_entry_ts_local is Some
    &&& d.scheduled_exit_ts_local is Some
}

/// The day on which a decision enters.
pub open spec fn entry_day(d: DecisionView) -> i32 {
    match d.scheduled_entry_ts_local {
        Some(e) => e.day,
        None => d.model_signal_ts_local.day,
    }
}

/// Whether a decision belongs on the shadow portfolio path.
pub fn is_shadow_portfolio_path_member(decision: &RiAuthor4142ModelDecision) -> (b: bool)
    ensures
        b == path_member(decision@),
{
    decision.action == RiAuthor4142DecisionAction::Enter && str_eq(
        decision.overlap_decision.as_str(),
        "Accepted",
    ) && decision.scheduled_entry_ts_local.is_some() && decision.scheduled_exit_ts_local.is_some()
}

/// The day on which a decision enters.
pub fn decision_entry_date(decision: &RiAuthor4142ModelDecision) -> (d: i32)
    ensures
        d == entry_day(decision@),
{
    match decision.scheduled_entry_ts_local {
        Some(e) => e.day,
        None => decision.model_signal_ts_local.day,
    }
}

/// Whether some path member among `ds` enters on the day.
pub open spec fn member_day(ds: Seq<DecisionView>, day: i32) -> bool {
    exists|i: int| 0 <= i < ds.len() && path_member(#[trigger] ds[i]) && entry_day(ds[i]) == day
}

/// The keys of the path members among `ds` that enter on the day.
pub open spec fn member_keys(ds: Seq<DecisionView>, day: i32) -> Set<Seq<char>> {
    Set::new(
        |k: Seq<char>|
            exists|i: int|
                0 <= i < ds.len() && path_member(#[trigger] ds[i]) && entry_day(ds[i]) == day
                    && ds[i].decision_key == k,
    )
}

/// The shadow path of the decisions `ds` at the current day: the current day and every day
/// on which a member enters, each with its members' keys.
pub open spec fn is_new_path(l: Seq<ShadowPathDay>, ds: Seq<DecisionView>, current_day: i32) -> bool {
    &&& path_wf(l)
    &&& forall|d: i32| #[trigger] path_has(l, d) <==> (d == current_day || member_day(ds, d))
    &&& forall|d: i32| #[trigger] path_keys(l, d).to_set() == member_keys(ds, d)
}

/// Builds the shadow path of the decisions at the current day.
fn build_new_path(ds: &Vec<RiAuthor4142ModelDecision>, current_day: i32) -> (l: Vec<ShadowPathDay>)
    ensures
        is_new_path(l@, decision_views(ds@), current_day),
{
    let ghost dv = decision_views(ds@);
    let mut l: Vec<ShadowPathDay> = Vec::new();
    l.push(ShadowPathDay { day: current_day, keys: Vec::new() });
    proof {
        lemma_path_keys_at(l@, 0);
        assert(texts(l@[0].keys@) =~= Seq::<Seq<char>>::empty());
        assert forall|d: i32| #[trigger] path_has(l@, d) <==> (d == current_day || member_day(
            dv.take(0),
            d,
        )) by {
            if path_has(l@, d) {
                let k = choose|k: int| 0 <= k < l@.len() && (#[trigger] l@[k]).day == d;
                assert(k == 0);
            }
        }
        assert forall|d: i32| #[trigger] path_keys(l@, d).to_set() == member_keys(dv.take(0), d) by {
            assert(member_keys(dv.take(0), d) =~= Set::<Seq<char>>::empty());
            if d == current_day {
                assert(path_keys(l@, d) =~= Seq::<Seq<char>>::empty());
            } else {
                if path_has(l@, d) {
                    let k = choose|k: int| 0 <= k < l@.len() && (#[trigger] l@[k]).day == d;
                    assert(k == 0);
                }
            }
            assert(path_keys(l@, d).to_set() =~= Set::<Seq<char>>::empty());
        }
    }
    let mut i: usize = 0;
    while i < ds.len()
        invariant
            i <= ds@.len(),
            dv == decision_views(ds@),
            path_wf(l@),
            forall|d: i32| #[trigger] path_has(l@, d) <==> (d == current_day || member_day(
                dv.take(i as int),
                d,
            )),
            forall|d: i32| #[trigger] path_keys(l@, d).to_set() == member_keys(dv.take(i as int), d),
        decreases ds@.len() - i,
    {
        let d = &ds[i];
        let ghost x = d@;
        let ghost before = l@;
        proof {
            assert(dv[i as int] == x);
            assert(dv.take(i + 1) =~= dv.take(i as int).push(x));
        }
        if is_shadow_portfolio_path_member(d) {
            let day = decision_entry_date(d);
            let mut keys = path_keys_of(&l, day);
            let ghost old_keys = texts(keys@);
            sorted_insert_text(&mut keys, d.decision_key.as_str());
            let ghost new_keys = texts(keys@);
            path_set_day(&mut l, day, keys);
            proof {
                assert forall|e: i32| #[trigger] path_has(l@, e) <==> (e == current_day || member_day(
                    dv.take(i + 1),
                    e,
                )) by {
                    if member_day(dv.take(i + 1), e) && e != day {
                        let k = choose|k: int|
                            0 <= k < dv.take(i + 1).len() && path_member(#[trigger] dv.take(i + 1)[k])
                                && entry_day(dv.take(i + 1)[k]) == e;
                        assert(k < i);
                        assert(dv.take(i as int)[k] == dv.take(i + 1)[k]);
                    }
                    if member_day(dv.take(i as int), e) {
                        let k = choose|k: int|
                            0 <= k < dv.take(i as int).len() && path_member(#[trigger] dv.take(i as int)[k])
                                && entry_day(dv.take(i as int)[k]) == e;
                        assert(dv.take(i + 1)[k] == dv.take(i as int)[k]);
                    }
                    if e == day {
                        assert(dv.take(i + 1)[i as int] == x);
                    }
                }
                assert forall|e: i32| #[trigger] path_keys(l@, e).to_set() == member_keys(dv.take(i + 1), e) by {
                    assert forall|k: Seq<char>| member_keys(dv.take(i + 1), e).contains(k) <==> (
                        member_keys(dv.take(i as int), e).contains(k) || (e == day && k == x.decision_key)) by {
                        if member_keys(dv.take(i + 1), e).contains(k) {
                            let j = choose|j: int|
                                0 <= j < dv.take(i + 1).len() && path_member(#[trigger] dv.take(i + 1)[j])
                                    && entry_day(dv.take(i + 1)[j]) == e && dv.take(i + 1)[j].decision_key == k;
                            if j < i {
                                assert(dv.take(i as int)[j] == dv.take(i + 1)[j]);
                            }
                        }
                        if member_keys(dv.take(i as int), e).contains(k) {
                            let j = choose|j: int|
                                0 <= j < dv.take(i as int).len() && path_member(#[trigger] dv.take(i as int)[j])
                                    && entry_day(dv.take(i as int)[j]) == e && dv.take(i as int)[j].decision_key == k;
                            assert(dv.take(i + 1)[j] == dv.take(i as int)[j]);
                        }
                        if e == day && k == x.decision_key {
                            assert(dv.take(i + 1)[i as int] == x);
                        }
                    }
                    if e == day {
                        assert(path_keys(l@, e) == new_keys);
                        assert(new_keys.to_set() == old_keys.to_set().insert(x.decision_key));
                        assert(old_keys == path_keys(before, day));
                        assert(path_keys(before, day).to_set() == member_keys(dv.take(i as int), day));
                        assert(path_keys(l@, e).to_set() =~= member_keys(dv.take(i + 1), e));
                    } else {
                        assert(path_keys(l@, e).to_set() =~= member_keys(dv.take(i + 1), e));
                    }
                }
            }
        } else {
            proof {
                assert forall|e: i32| #[trigger] path_has(l@, e) <==> (e == current_day || member_day(
                    dv.take(i + 1),
                    e,
                )) by {
                    if member_day(dv.take(i + 1), e) {
                        let k = choose|k: int|
                            0 <= k < dv.take(i + 1).len() && path_member(#[trigger] dv.take(i + 1)[k])
                                && entry_day(dv.take(i + 1)[k]) == e;
                        assert(k < i);
                        assert(dv.take(i as int)[k] == dv.take(i + 1)[k]);
                    }
                    if member_day(dv.take(i as int), e) {
                        let k = choose|k: int|
                            0 <= k < dv.take(i as int).len() && path_member(#[trigger] dv.take(i as int)[k])
                                && entry_day(dv.take(i as int)[k]) == e;
                        assert(dv.take(i + 1)[k] == dv.take(i as int)[k]);
                    }
                }
                assert forall|e: i32| #[trigger] path_keys(l@, e).to_set() == member_keys(dv.take(i + 1), e) by {
                    assert forall|k: Seq<char>| member_keys(dv.take(i + 1), e).contains(k) <==>
                        member_keys(dv.take(i as int), e).contains(k) by {
                        if member_keys(dv.take(i + 1), e).contains(k) {
                            let j = choose|j: int|
                                0 <= j < dv.take(i + 1).len() && path_member(#[trigger] dv.take(i + 1)[j])
                                    && entry_day(dv.take(i + 1)[j]) == e && dv.take(i + 1)[j].decision_key == k;
                            assert(j < i);
                            assert(dv.take(i as int)[j] == dv.take(i + 1)[j]);
                        }
                        if member_keys(dv.take(i as int), e).contains(k) {
                            let j = choose|j: int|
                                0 <= j < dv.take(i as int).len() && path_member(#[trigger] dv.take(i as int)[j])
                                    && entry_day(dv.take(i as int)[j]) == e && dv.take(i as int)[j].decision_key == k;
                            assert(dv.take(i + 1)[j] == dv.take(i as int)[j]);
                        }
                    }
                    assert(member_keys(dv.take(i + 1), e) =~= member_keys(dv.take(i as int), e));
                }
            }
        }
        i = i + 1;
    }
    proof {
        assert(dv.take(ds@.len() as int) =~= dv);
    }
    l
}


/// No two stored decisions share a key.
pub open spec fn store_unique(v: Seq<RiAuthor4142ModelDecision>) -> bool {
    forall|i: int, j: int|
        0 <= i < j < v.len() ==> (#[trigger] v[i]).decision_key@ != (#[trigger] v[j]).decision_key@
}

/// Whether a decision with the key is stored.
pub open spec fn store_has(v: Seq<RiAuthor4142ModelDecision>, k: Seq<char>) -> bool {
    exists|i: int| 0 <= i < v.len() && (#[trigger] v[i]).decision_key@ == k
}

/// The stored decision with the key.
pub open spec fn store_get(v: Seq<RiAuthor4142ModelDecision>, k: Seq<char>) -> DecisionView {
    v[choose|i: int| 0 <= i < v.len() && (#[trigger] v[i]).decision_key@ == k]@
}

/// In a store with unique keys each decision is found under its key.
pub proof fn lemma_store_get_at(v: Seq<RiAuthor4142ModelDecision>, i: int)
    requires
        store_unique(v),
        0 <= i < v.len(),
    ensures
        store_has(v, v[i].decision_key@),
        store_get(v, v[i].decision_key@) == v[i]@,
{
    assert(store_has(v, v[i].decision_key@));
    let k = choose|k: int| 0 <= k < v.len() && (#[trigger] v[k]).decision_key@ == v[i].decision_key@;
    if k < i {
        assert(v[k].decision_key@ != v[i].decision_key@);
    } else if k > i {
        assert(v[i].decision_key@ != v[k].decision_key@);
    }
}

/// Where the decision with the key is stored.
fn store_find(v: &Vec<RiAuthor4142ModelDecision>, k: &str) -> (r: Option<usize>)
    ensures
        match r {
            Some(i) => i < v@.len() && v@[i as int].decision_key@ == k@,
            None => !store_has(v@, k@),
        },
{
    let mut i: usize = 0;
    while i < v.len()
        invariant
            i <= v@.len(),
            forall|j: int| 0 <= j < i ==> (#[trigger] v@[j]).decision_key@ != k@,
        decreases v@.len() - i,
    {
        if str_eq(v[i].decision_key.as_str(), k) {
            return Some(i);
        }
        i = i + 1;
    }
    None
}

/// The last decision among `ds` with the key.
pub open spec fn last_with_key(ds: Seq<DecisionView>, k: Seq<char>) -> Option<DecisionView>
    decreases ds.len(),
{
    if ds.len() == 0 {
        None
    } else if ds.last().decision_key == k {
        Some(ds.last())
    } else {
        last_with_key(ds.drop_last(), k)
    }
}

/// Stores a decision under its key, replacing the one stored before.
fn store_put(v: &mut Vec<RiAuthor4142ModelDecision>, d: &RiAuthor4142ModelDecision)
    requires
        store_unique(old(v)@),
    ensures
        store_unique(final(v)@),
        store_has(final(v)@, d.decision_key@),
        store_get(final(v)@, d.decision_key@) == d@,
        forall|k: Seq<char>|
            k != d.decision_key@ ==> (#[trigger] store_has(final(v)@, k)) == store_has(old(v)@, k),
        forall|k: Seq<char>|
            k != d.decision_key@ && store_has(old(v)@, k) ==> #[trigger] store_get(final(v)@, k)
                == store_get(old(v)@, k),
        forall|i: int| 0 <= i < final(v)@.len() ==> ((#[trigger] final(v)@[i])@ == d@ || exists|j: int|
            0 <= j < old(v)@.len() && old(v)@[j] == final(v)@[i]),
{
    let ghost s = v@;
    match store_find(v, d.decision_key.as_str()) {
        Some(i) => {
            v.set(i, d.duplicate());
            proof {
                let t = v@;
                assert forall|a: int, b: int| 0 <= a < b < t.len() implies (#[trigger] t[a]).decision_key@
                    != (#[trigger] t[b]).decision_key@ by {
                    assert(s[a].decision_key@ != s[b].decision_key@);
                }
                lemma_store_get_at(t, i as int);
                assert forall|k: Seq<char>| k != d.decision_key@ && store_has(s, k) implies #[trigger] store_get(t, k)
                    == store_get(s, k) by {
                    let j = choose|j: int| 0 <= j < s.len() && (#[trigger] s[j]).decision_key@ == k;
                    assert(t[j] == s[j]);
                    lemma_store_get_at(s, j);
                    lemma_store_get_at(t, j);
                }
                assert forall|k: Seq<char>| k != d.decision_key@ implies (#[trigger] store_has(t, k))
                    == store_has(s, k) by {
                    if store_has(s, k) {
                        let j = choose|j: int| 0 <= j < s.len() && (#[trigger] s[j]).decision_key@ == k;
                        assert(t[j] == s[j]);
                        lemma_store_get_at(s, j);
                        lemma_store_get_at(t, j);
                    }
                    if store_has(t, k) {
                        let j = choose|j: int| 0 <= j < t.len() && (#[trigger] t[j]).decision_key@ == k;
                        assert(t[j] == s[j]);
                    }
                }
                assert forall|a: int| 0 <= a < t.len() implies ((#[trigger] t[a])@ == d@ || exists|j: int|
                    0 <= j < s.len() && s[j] == t[a]) by {
                    if a != i {
                        assert(s[a] == t[a]);
                    }
                }
            }
        },
        None => {
            v.push(d.duplicate());
            proof {
                let t = v@;
                let n = s.len() as int;
                assert forall|a: int, b: int| 0 <= a < b < t.len() implies (#[trigger] t[a]).decision_key@
                    != (#[trigger] t[b]).decision_key@ by {
                    if b < n {
                        assert(s[a].decision_key@ != s[b].decision_key@);
                    } else {
                        assert(t[a] == s[a]);
                        assert(!store_has(s, d.decision_key@));
                        if s[a].decision_key@ == d.decision_key@ {
                            assert(store_has(s, d.decision_key@));
                        }
                    }
                }
                lemma_store_get_at(t, n);
                assert forall|k: Seq<char>| k != d.decision_key@ && store_has(s, k) implies #[trigger] store_get(t, k)
                    == store_get(s, k) by {
                    let j = choose|j: int| 0 <= j < s.len() && (#[trigger] s[j]).decision_key@ == k;
                    assert(t[j] == s[j]);
                    lemma_store_get_at(s, j);
                    lemma_store_get_at(t, j);
                }
                assert forall|k: Seq<char>| k != d.decision_key@ implies (#[trigger] store_has(t, k))
                    == store_has(s, k) by {
                    if store_has(s, k) {
                        let j = choose|j: int| 0 <= j < s.len() && (#[trigger] s[j]).decision_key@ == k;
                        assert(t[j] == s[j]);
                        lemma_store_get_at(s, j);
                        lemma_store_get_at(t, j);
                    }
                    if store_has(t, k) {
                        let j = choose|j: int| 0 <= j < t.len() && (#[trigger] t[j]).decision_key@ == k;
                        if j < n {
                            assert(t[j] == s[j]);
                        }
                    }
                }
                assert forall|a: int| 0 <= a < t.len() implies ((#[trigger] t[a])@ == d@ || exists|j: int|
                    0 <= j < s.len() && s[j] == t[a]) by {
                    if a < n {
                        assert(s[a] == t[a]);
                    }
                }
            }
        },
    }
}

/// The journal row that marks a decision as no longer on the shadow path.
pub open spec fn superseded_row(d: DecisionView) -> JournalView {
    spec_journal(
        d,
        RiAuthor4142JournalDecision::ShadowPathSuperseded,
        None,
        Some("shadow_path_recomputed"@),
    )
}

/// The journal row that marks a decision as on the shadow path.
pub open spec fn active_row(d: DecisionView) -> JournalView {
    spec_journal(d, RiAuthor4142JournalDecision::ShadowPathActive, None, None)
}

/// The superseded rows of the keys of `prev` that are not in `cur` and have a stored
/// decision, in the order of `prev`.
pub open spec fn removed_rows(
    prev: Seq<Seq<char>>,
    cur: Seq<Seq<char>>,
    store: Seq<RiAuthor4142ModelDecision>,
) -> Seq<JournalView>
    decreases prev.len(),
{
    if prev.len() == 0 {
        Seq::empty()
    } else {
        let r = removed_rows(prev.drop_last(), cur, store);
        let k = prev.last();
        if !cur.contains(k) && store_has(store, k) {
            r.push(superseded_row(store_get(store, k)))
        } else {
            r
        }
    }
}

/// The active rows of the keys of `cur` that are not in `prev` and have a stored
/// decision, in the order of `cur`.
pub open spec fn added_rows(
    cur: Seq<Seq<char>>,
    prev: Seq<Seq<char>>,
    store: Seq<RiAuthor4142ModelDecision>,
) -> Seq<JournalView>
    decreases cur.len(),
{
    if cur.len() == 0 {
        Seq::empty()
    } else {
        let r = added_rows(cur.drop_last(), prev, store);
        let k = cur.last();
        if !prev.contains(k) && store_has(store, k) {
            r.push(active_row(store_get(store, k)))
        } else {
            r
        }
    }
}

/// Nothing is removed from keys that are all kept.
proof fn lemma_removed_rows_none(
    prev: Seq<Seq<char>>,
    cur: Seq<Seq<char>>,
    store: Seq<RiAuthor4142ModelDecision>,
)
    requires
        forall|i: int| 0 <= i < prev.len() ==> cur.contains(#[trigger] prev[i]),
    ensures
        removed_rows(prev, cur, store) == Seq::<JournalView>::empty(),
    decreases prev.len(),
{
    if prev.len() > 0 {
        assert(cur.contains(prev[prev.len() - 1]));
        lemma_removed_rows_none(prev.drop_last(), cur, store);
    }
}

/// Nothing is added to keys that were all there.
proof fn lemma_added_rows_none(
    cur: Seq<Seq<char>>,
    prev: Seq<Seq<char>>,
    store: Seq<RiAuthor4142ModelDecision>,
)
    requires
        forall|i: int| 0 <= i < cur.len() ==> prev.contains(#[trigger] cur[i]),
    ensures
        added_rows(cur, prev, store) == Seq::<JournalView>::empty(),
    decreases cur.len(),
{
    if cur.len() > 0 {
        assert(prev.contains(cur[cur.len() - 1]));
        lemma_added_rows_none(cur.drop_last(), prev, store);
    }
}

/// The journal rows of a changed day of the shadow path: superseded decisions, then
/// active ones.
pub open spec fn day_rows(
    prev: Seq<Seq<char>>,
    cur: Seq<Seq<char>>,
    store: Seq<RiAuthor4142ModelDecision>,
) -> Seq<JournalView> {
    removed_rows(prev, cur, store) + added_rows(cur, prev, store)
}

/// The journal rows of recomputing the shadow path on the days of `l`, in day order,
/// against the path held before.
pub open spec fn path_rows(
    l: Seq<ShadowPathDay>,
    old_path: Seq<ShadowPathDay>,
    store: Seq<RiAuthor4142ModelDecision>,
) -> Seq<JournalView>
    decreases l.len(),
{
    if l.len() == 0 {
        Seq::empty()
    } else {
        path_rows(l.drop_last(), old_path, store) + day_rows(
            path_keys(old_path, l.last().day),
            texts(l.last().keys@),
            store,
        )
    }
}

/// Every stored decision can be written.
pub open spec fn store_wf(v: Seq<RiAuthor4142ModelDecision>) -> bool {
    forall|i: int| 0 <= i < v.len() ==> (#[trigger] v[i])@.wf()
}

/// Whether two lists of strings hold the same texts in the same order.
fn same_texts(a: &Vec<String>, b: &Vec<String>) -> (r: bool)
    ensures
        r == (texts(a@) == texts(b@)),
{
    if a.len() != b.len() {
        proof {
            assert(texts(a@).len() != texts(b@).len());
        }
        return false;
    }
    let mut i: usize = 0;
    while i < a.len()
        invariant
            i <= a@.len(),
            a@.len() == b@.len(),
            forall|k: int| 0 <= k < i ==> a@[k]@ == b@[k]@,
        decreases a@.len() - i,
    {
        if !str_eq(a[i].as_str(), b[i].as_str()) {
            proof {
                assert(texts(a@)[i as int] != texts(b@)[i as int]);
            }
            return false;
        }
        i = i + 1;
    }
    proof {
        assert(texts(a@) =~= texts(b@));
    }
    true
}


impl RiAuthor4142LiveStrategy {
    /// Journals the change of one day of the shadow path from `prev` to `cur`: each key
    /// dropped with a stored decision as superseded, then each new key with a stored
    /// decision as active.
    fn journal_day_changes(&mut self, prev: &Vec<String>, cur: &Vec<String>)
        requires
            store_unique(old(self).shadow_decisions_by_key@),
            store_wf(old(self).shadow_decisions_by_key@),
        ensures
            journal_views(final(self).journal_records@) == journal_after(
                journal_views(old(self).journal_records@),
                day_rows(texts(prev@), texts(cur@), old(self).shadow_decisions_by_key@),
            ),
            final(self).shadow_decisions_by_key == old(self).shadow_decisions_by_key,
            final(self).shadow_path_keys_by_date == old(self).shadow_path_keys_by_date,
            final(self).state == old(self).state,
            final(self).config == old(self).config,
            final(self).live_positions_dropped == old(self).live_positions_dropped,
            final(self).emitted_decision_keys == old(self).emitted_decision_keys,
    {
        let ghost before = journal_views(self.journal_records@);
        let ghost store = self.shadow_decisions_by_key@;
        let ghost p = texts(prev@);
        let ghost c = texts(cur@);
        let mut j: usize = 0;
        proof {
            assert(p.take(0) =~= Seq::<Seq<char>>::empty());
        }
        while j < prev.len()
            invariant
                j <= prev@.len(),
                p == texts(prev@),
                c == texts(cur@),
                store == self.shadow_decisions_by_key@,
                self.shadow_decisions_by_key == old(self).shadow_decisions_by_key,
                store_unique(store),
                store_wf(store),
                journal_views(self.journal_records@) == journal_after(
                    before,
                    removed_rows(p.take(j as int), c, store),
                ),
                self.shadow_path_keys_by_date == old(self).shadow_path_keys_by_date,
                self.state == old(self).state,
                self.config == old(self).config,
                self.live_positions_dropped == old(self).live_positions_dropped,
                self.emitted_decision_keys == old(self).emitted_decision_keys,
            decreases prev@.len() - j,
        {
            let key = prev[j].as_str();
            let ghost k = key@;
            let ghost rows = removed_rows(p.take(j as int), c, store);
            proof {
                assert(p[j as int] == k);
                assert(p.take(j + 1).drop_last() =~= p.take(j as int));
                assert(p.take(j + 1).last() == k);
            }
            let kept = holds_text(cur, key);
            if !kept {
                match store_find(&self.shadow_decisions_by_key, key) {
                    Some(idx) => {
                        proof {
                            lemma_store_get_at(store, idx as int);
                            assert(store[idx as int]@.wf());
                        }
                        let record = RiAuthor4142JournalRecord::from_decision(
                            &self.shadow_decisions_by_key[idx],
                            RiAuthor4142JournalDecision::ShadowPathSuperseded,
                            None,
                            Some("shadow_path_recomputed"),
                        );
                        let ghost x = record@;
                        self.push_record_view(record);
                        proof {
                            assert(x == superseded_row(store_get(store, k)));
                            lemma_journal_after_push(before, rows, x);
                        }
                    },
                    None => {
                        assert(removed_rows(p.take(j + 1), c, store) == rows);
                    },
                }
            } else {
                assert(removed_rows(p.take(j + 1), c, store) == rows);
            }
            j = j + 1;
        }
        proof {
            assert(p.take(prev@.len() as int) =~= p);
        }
        let ghost removed = removed_rows(p, c, store);
        let mut j: usize = 0;
        proof {
            assert(c.take(0) =~= Seq::<Seq<char>>::empty());
            assert(removed + added_rows(c.take(0), p, store) =~= removed);
        }
        while j < cur.len()
            invariant
                j <= cur@.len(),
                p == texts(prev@),
                c == texts(cur@),
                store == self.shadow_decisions_by_key@,
                self.shadow_decisions_by_key == old(self).shadow_decisions_by_key,
                store_unique(store),
                store_wf(store),
                removed == removed_rows(p, c, store),
                journal_views(self.journal_records@) == journal_after(
                    before,
                    removed + added_rows(c.take(j as int), p, store),
                ),
                self.shadow_path_keys_by_date == old(self).shadow_path_keys_by_date,
                self.state == old(self).state,
                self.config == old(self).config,
                self.live_positions_dropped == old(self).live_positions_dropped,
                self.emitted_decision_keys == old(self).emitted_decision_keys,
            decreases cur@.len() - j,
        {
            let key = cur[j].as_str();
            let ghost k = key@;
            let ghost rows = removed + added_rows(c.take(j as int), p, store);
            proof {
                assert(c[j as int] == k);
                assert(c.take(j + 1).drop_last() =~= c.take(j as int));
                assert(c.take(j + 1).last() == k);
            }
            let known = holds_text(prev, key);
            if !known {
                match store_find(&self.shadow_decisions_by_key, key) {
                    Some(idx) => {
                        proof {
                            lemma_store_get_at(store, idx as int);
                            assert(store[idx as int]@.wf());
                        }
                        let record = RiAuthor4142JournalRecord::from_decision(
                            &self.shadow_decisions_by_key[idx],
                            RiAuthor4142JournalDecision::ShadowPathActive,
                            None,
                            None,
                        );
                        let ghost x = record@;
                        self.push_record_view(record);
                        proof {
                            assert(x == active_row(store_get(store, k)));
                            lemma_journal_after_push(before, rows, x);
                            assert(rows.push(x) =~= removed + added_rows(c.take(j + 1), p, store));
                        }
                    },
                    None => {
                        assert(rows =~= removed + added_rows(c.take(j + 1), p, store));
                    },
                }
            } else {
                assert(rows =~= removed + added_rows(c.take(j + 1), p, store));
            }
            j = j + 1;
        }
        proof {
            assert(c.take(cur@.len() as int) =~= c);
        }
    }
}


/// Dropping the oldest rows before appending more keeps the same tail.
pub proof fn lemma_keep_last_append<T>(s: Seq<T>, d: Seq<T>, n: nat)
    requires
        n > 0,
    ensures
        keep_last(keep_last(s, n) + d, n) == keep_last(s + d, n),
    decreases d.len(),
{
    if d.len() == 0 {
        assert(keep_last(s, n) + d =~= keep_last(s, n));
        assert(s + d =~= s);
        assert(keep_last(keep_last(s, n), n) =~= keep_last(s, n));
    } else {
        let e = d.drop_last();
        let x = d.last();
        lemma_keep_last_append(s, e, n);
        assert(keep_last(s, n) + d =~= (keep_last(s, n) + e).push(x));
        assert(s + d =~= (s + e).push(x));
        lemma_keep_last_push(keep_last(s, n) + e, x, n);
        lemma_keep_last_push(s + e, x, n);
    }
}

/// Appending two batches of rows appends them together.
pub proof fn lemma_journal_after_concat(b: Seq<JournalView>, r1: Seq<JournalView>, r2: Seq<JournalView>)
    ensures
        journal_after(journal_after(b, r1), r2) == journal_after(b, r1 + r2),
{
    if r2.len() == 0 {
        assert(r1 + r2 =~= r1);
    } else if r1.len() == 0 {
        assert(r1 + r2 =~= r2);
    } else {
        lemma_keep_last_append(b + r1, r2, JOURNAL_CAPACITY as nat);
        assert(b + r1 + r2 =~= b + (r1 + r2));
    }
}

/// The first days of a path with increasing days form such a path.
proof fn lemma_path_take_wf(l: Seq<ShadowPathDay>, n: int)
    requires
        path_wf(l),
        0 <= n <= l.len(),
    ensures
        path_wf(l.take(n)),
{
    let a = l.take(n);
    assert forall|x: int, y: int| 0 <= x < y < a.len() implies (#[trigger] a[x]).day < (#[trigger] a[y]).day by {
        assert(l[x].day < l[y].day);
    }
    assert forall|x: int| 0 <= x < a.len() implies texts_sorted(texts((#[trigger] a[x]).keys@)) by {
        assert(a[x] == l[x]);
    }
}

/// Taking one more day of a path changes nothing for the other days.
proof fn lemma_path_take(l: Seq<ShadowPathDay>, i: int, d: i32)
    requires
        path_wf(l),
        0 <= i < l.len(),
        d != l[i].day,
    ensures
        path_has(l.take(i + 1), d) == path_has(l.take(i), d),
        path_keys(l.take(i + 1), d) == path_keys(l.take(i), d),
{
    let a = l.take(i);
    let b = l.take(i + 1);
    lemma_path_take_wf(l, i);
    lemma_path_take_wf(l, i + 1);
    if path_has(b, d) {
        let k = choose|k: int| 0 <= k < b.len() && (#[trigger] b[k]).day == d;
        assert(k < i);
        assert(a[k] == b[k]);
        lemma_path_keys_at(a, k);
        lemma_path_keys_at(b, k);
    }
    if path_has(a, d) {
        let k = choose|k: int| 0 <= k < a.len() && (#[trigger] a[k]).day == d;
        assert(a[k] == b[k]);
    }
}

/// The day added last to the first days of a path.
proof fn lemma_path_take_last(l: Seq<ShadowPathDay>, i: int)
    requires
        path_wf(l),
        0 <= i < l.len(),
    ensures
        !path_has(l.take(i), l[i].day),
        path_has(l.take(i + 1), l[i].day),
        path_keys(l.take(i + 1), l[i].day) == texts(l[i].keys@),
{
    let a = l.take(i);
    let b = l.take(i + 1);
    if path_has(a, l[i].day) {
        let k = choose|k: int| 0 <= k < a.len() && (#[trigger] a[k]).day == l[i].day;
        assert(l[k].day < l[i].day);
    }
    lemma_path_take_wf(l, i + 1);
    assert(b[i] == l[i]);
    lemma_path_keys_at(b, i);
}

impl RiAuthor4142LiveStrategy {
    /// Recomputes the shadow portfolio path from the finalized decisions at the current
    /// bar. Every finalized decision is stored under its key. The new path holds the
    /// current day and every day on which an accepted decision with both times enters,
    /// each with those decisions' keys; for each of its days, in increasing order, the keys
    /// that left the path are journaled as superseded and the keys that joined it as
    /// active (each in increasing order, and only for keys with a stored decision), and the
    /// day's keys are replaced.
    pub fn update_shadow_portfolio_path(
        &mut self,
        finalized: &Vec<RiAuthor4142ModelDecision>,
        current_dt_local: LocalDateTime,
    )
        requires
            path_wf(old(self).shadow_path_keys_by_date@),
            store_unique(old(self).shadow_decisions_by_key@),
            store_wf(old(self).shadow_decisions_by_key@),
            decisions_wf(decision_views(finalized@)),
        ensures
            path_wf(final(self).shadow_path_keys_by_date@),
            store_unique(final(self).shadow_decisions_by_key@),
            store_wf(final(self).shadow_decisions_by_key@),
            forall|k: Seq<char>| #[trigger] store_has(final(self).shadow_decisions_by_key@, k) == (
            store_has(old(self).shadow_decisions_by_key@, k) || last_with_key(
                decision_views(finalized@),
                k,
            ) is Some),
            forall|k: Seq<char>| #[trigger]
                store_has(final(self).shadow_decisions_by_key@, k) ==> store_get(
                    final(self).shadow_decisions_by_key@,
                    k,
                ) == match last_with_key(decision_views(finalized@), k) {
                    Some(d) => d,
                    None => store_get(old(self).shadow_decisions_by_key@, k),
                },
            exists|l: Seq<ShadowPathDay>| {
                &&& is_new_path(l, decision_views(finalized@), current_dt_local.day)
                &&& journal_views(final(self).journal_records@) == journal_after(
                    journal_views(old(self).journal_records@),
                    path_rows(l, old(self).shadow_path_keys_by_date@, final(self).shadow_decisions_by_key@),
                )
                &&& forall|d: i32| #[trigger]
                    path_keys(final(self).shadow_path_keys_by_date@, d) == if path_has(l, d) {
                        path_keys(l, d)
                    } else {
                        path_keys(old(self).shadow_path_keys_by_date@, d)
                    }
            },
            final(self).state == old(self).state,
            final(self).config == old(self).config,
            final(self).live_positions_dropped == old(self).live_positions_dropped,
            final(self).emitted_decision_keys == old(self).emitted_decision_keys,
    {
        let ghost views = decision_views(finalized@);
        let ghost store0 = self.shadow_decisions_by_key@;
        let mut i: usize = 0;
        proof {
            assert(views.take(0) =~= Seq::<DecisionView>::empty());
        }
        while i < finalized.len()
            invariant
                i <= finalized@.len(),
                views == decision_views(finalized@),
                decisions_wf(views),
                store_unique(self.shadow_decisions_by_key@),
                store_wf(self.shadow_decisions_by_key@),
                forall|k: Seq<char>| #[trigger] store_has(self.shadow_decisions_by_key@, k) == (
                store_has(store0, k) || last_with_key(views.take(i as int), k) is Some),
                forall|k: Seq<char>| #[trigger]
                    store_has(self.shadow_decisions_by_key@, k) ==> store_get(
                        self.shadow_decisions_by_key@,
                        k,
                    ) == match last_with_key(views.take(i as int), k) {
                        Some(d) => d,
                        None => store_get(store0, k),
                    },
                self.shadow_path_keys_by_date == old(self).shadow_path_keys_by_date,
                self.journal_records == old(self).journal_records,
                self.state == old(self).state,
                self.config == old(self).config,
                self.live_positions_dropped == old(self).live_positions_dropped,
                self.emitted_decision_keys == old(self).emitted_decision_keys,
            decreases finalized@.len() - i,
        {
            let d = &finalized[i];
            let ghost s = self.shadow_decisions_by_key@;
            proof {
                assert(views[i as int] == d@);
                assert(views.take(i + 1).drop_last() =~= views.take(i as int));
                assert(views.take(i + 1).last() == d@);
            }
            store_put(&mut self.shadow_decisions_by_key, d);
            proof {
                let t = self.shadow_decisions_by_key@;
                assert forall|a: int| 0 <= a < t.len() implies (#[trigger] t[a])@.wf() by {
                    if t[a]@ != d@ {
                        let j = choose|j: int| 0 <= j < s.len() && s[j] == t[a];
                        assert(s[j]@.wf());
                    }
                }
                assert forall|k: Seq<char>| #[trigger] store_has(t, k) == (store_has(store0, k)
                    || last_with_key(views.take(i + 1), k) is Some) by {
                    if k != d.decision_key@ {
                        assert(last_with_key(views.take(i + 1), k) == last_with_key(views.take(i as int), k));
                    }
                }
                assert forall|k: Seq<char>| #[trigger] store_has(t, k) implies store_get(t, k) == match last_with_key(
                    views.take(i + 1),
                    k,
                ) {
                    Some(x) => x,
                    None => store_get(store0, k),
                } by {
                    if k != d.decision_key@ {
                        assert(last_with_key(views.take(i + 1), k) == last_with_key(views.take(i as int), k));
                        assert(store_has(s, k));
                    }
                }
            }
            i = i + 1;
        }
        proof {
            assert(views.take(finalized@.len() as int) =~= views);
        }
        let l = build_new_path(finalized, current_dt_local.day);
        let ghost old_path = self.shadow_path_keys_by_date@;
        let ghost store = self.shadow_decisions_by_key@;
        let ghost before = journal_views(self.journal_records@);
        let mut i: usize = 0;
        proof {
            assert(l@.take(0) =~= Seq::<ShadowPathDay>::empty());
            assert forall|d: i32| #[trigger] path_keys(self.shadow_path_keys_by_date@, d) == if path_has(
                l@.take(0),
                d,
            ) {
                path_keys(l@.take(0), d)
            } else {
                path_keys(old_path, d)
            } by {
                if path_has(l@.take(0), d) {
                    let k = choose|k: int| 0 <= k < l@.take(0).len() && (#[trigger] l@.take(0)[k]).day == d;
                }
            }
        }
        while i < l.len()
            invariant
                i <= l@.len(),
                is_new_path(l@, views, current_dt_local.day),
                path_wf(self.shadow_path_keys_by_date@),
                store == self.shadow_decisions_by_key@,
                store_unique(store),
                store_wf(store),
                journal_views(self.journal_records@) == journal_after(
                    before,
                    path_rows(l@.take(i as int), old_path, store),
                ),
                forall|d: i32| #[trigger] path_keys(self.shadow_path_keys_by_date@, d) == if path_has(
                    l@.take(i as int),
                    d,
                ) {
                    path_keys(l@.take(i as int), d)
                } else {
                    path_keys(old_path, d)
                },
                self.state == old(self).state,
                self.config == old(self).config,
                self.live_positions_dropped == old(self).live_positions_dropped,
                self.emitted_decision_keys == old(self).emitted_decision_keys,
            decreases l@.len() - i,
        {
            let day = l[i].day;
            let ghost path_before = self.shadow_path_keys_by_date@;
            let ghost rows = path_rows(l@.take(i as int), old_path, store);
            proof {
                lemma_path_take_last(l@, i as int);
                assert(l@.take(i + 1).drop_last() =~= l@.take(i as int));
                assert(l@.take(i + 1).last() == l@[i as int]);
            }
            let prev = path_keys_of(&self.shadow_path_keys_by_date, day);
            let cur = copy_texts(&l[i].keys);
            proof {
                assert(texts(prev@) == path_keys(old_path, day));
                assert(texts_sorted(texts(l@[i as int].keys@)));
            }
            if same_texts(&prev, &cur) {
                proof {
                    let p = texts(prev@);
                    assert forall|j: int| 0 <= j < p.len() implies p.contains(#[trigger] p[j]) by {}
                    lemma_removed_rows_none(p, p, store);
                    lemma_added_rows_none(p, p, store);
                    assert(day_rows(p, p, store) =~= Seq::<JournalView>::empty());
                    assert(rows + day_rows(p, p, store) =~= rows);
                    assert forall|d: i32| #[trigger] path_keys(self.shadow_path_keys_by_date@, d) == if path_has(
                        l@.take(i + 1),
                        d,
                    ) {
                        path_keys(l@.take(i + 1), d)
                    } else {
                        path_keys(old_path, d)
                    } by {
                        if d != day {
                            lemma_path_take(l@, i as int, d);
                        }
                    }
                }
            } else {
                self.journal_day_changes(&prev, &cur);
                proof {
                    lemma_journal_after_concat(before, rows, day_rows(texts(prev@), texts(cur@), store));
                }
                path_set_day(&mut self.shadow_path_keys_by_date, day, cur);
                proof {
                    assert forall|d: i32| #[trigger] path_keys(self.shadow_path_keys_by_date@, d) == if path_has(
                        l@.take(i + 1),
                        d,
                    ) {
                        path_keys(l@.take(i + 1), d)
                    } else {
                        path_keys(old_path, d)
                    } by {
                        if d != day {
                            lemma_path_take(l@, i as int, d);
                            assert(path_keys(path_before, d) == path_keys(self.shadow_path_keys_by_date@, d));
                        }
                    }
                }
            }
            i = i + 1;
        }
        proof {
            assert(l@.take(l@.len() as int) =~= l@);
            assert(is_new_path(l@, views, current_dt_local.day));
        }
    }
}


/// `b` is `a` with at most the decision counter and the last decision key changed.
pub open spec fn same_but_decisions(a: RiAuthor4142LiveState, b: RiAuthor4142LiveState) -> bool {
    &&& b.mode == a.mode
    &&& b.profile_id == a.profile_id
    &&& b.timeframe == a.timeframe
    &&& b.allow_order_emission == a.allow_order_emission
    &&& b.execution_path == a.execution_path
    &&& b.last_bar_ts == a.last_bar_ts
    &&& b.last_model_bar_ts == a.last_model_bar_ts
    &&& b.model_bars_seen == a.model_bars_seen
    &&& b.suppressed_service_bars == a.suppressed_service_bars
    &&& b.phase == a.phase
    &&& keeps_current(a, b)
    &&& b.last_transition_reason == a.last_transition_reason
    &&& b.live_adapter_enabled == a.live_adapter_enabled
    &&& b.pending_entry_request_id == a.pending_entry_request_id
    &&& b.pending_exit_request_id == a.pending_exit_request_id
}

/// The phase part of the persisted state, as texts: the phase, the position being worked
/// and the last transition reason.
pub struct PhaseView {
    pub phase: Seq<char>,
    pub component: Option<Seq<char>>,
    pub side: Option<Seq<char>>,
    pub cycle_id: Option<Seq<char>>,
    pub entry_ts: Option<Seq<char>>,
    pub exit_ts: Option<Seq<char>>,
    pub reason: Option<Seq<char>>,
}

/// The phase part of a state.
pub open spec fn phase_view(s: RiAuthor4142LiveState) -> PhaseView {
    PhaseView {
        phase: s.phase@,
        component: opt_view(s.current_component),
        side: opt_view(s.current_side),
        cycle_id: opt_view(s.current_cycle_id),
        entry_ts: opt_view(s.current_entry_ts_local),
        exit_ts: opt_view(s.current_exit_ts_local),
        reason: opt_view(s.last_transition_reason),
    }
}

/// The phase part after working one decision dry.
pub open spec fn dry_step(p: PhaseView, profile_id: Seq<char>, d: DecisionView) -> PhaseView {
    if d.action == RiAuthor4142DecisionAction::Suppress {
        p
    } else {
        match spec_safety_reason(d.scheduled_entry_ts_local, d.scheduled_exit_ts_local) {
            Some(r) => PhaseView {
                phase: "manual_intervention_required"@,
                component: None,
                side: None,
                cycle_id: None,
                entry_ts: None,
                exit_ts: None,
                reason: Some(r),
            },
            None => if spec_candidates(profile_id, d).len() == 0 {
                p
            } else {
                PhaseView {
                    phase: "flat"@,
                    component: None,
                    side: None,
                    cycle_id: None,
                    entry_ts: None,
                    exit_ts: None,
                    reason: Some("dry_run_exit:"@ + d.reason),
                }
            },
        }
    }
}

/// The phase part after working decisions dry one after the other.
pub open spec fn dry_steps(p: PhaseView, profile_id: Seq<char>, ds: Seq<DecisionView>) -> PhaseView
    decreases ds.len(),
{
    if ds.len() == 0 {
        p
    } else {
        dry_step(dry_steps(p, profile_id, ds.drop_last()), profile_id, ds.last())
    }
}

/// The journal rows of working decisions dry one after the other.
pub open spec fn dry_rows(profile_id: Seq<char>, ds: Seq<DecisionView>) -> Seq<JournalView>
    decreases ds.len(),
{
    if ds.len() == 0 {
        Seq::empty()
    } else {
        dry_rows(profile_id, ds.drop_last()) + spec_dry_run_rows(profile_id, ds.last())
    }
}

/// Working a decision dry journals at least one row.
proof fn lemma_dry_run_rows_nonempty(profile_id: Seq<char>, d: DecisionView)
    ensures
        spec_dry_run_rows(profile_id, d).len() > 0,
{
}

impl RiAuthor4142LiveStrategy {
    /// Works each new decision dry, in order.
    fn apply_dry_run_decisions(&mut self, decisions: &Vec<RiAuthor4142ModelDecision>)
        requires
            decisions_wf(decision_views(decisions@)),
        ensures
            phase_view(final(self).state) == dry_steps(
                phase_view(old(self).state),
                old(self).config.profile_id@,
                decision_views(decisions@),
            ),
            keeps_feed(old(self).state, final(self).state),
            final(self).state.pending_entry_request_id == old(self).state.pending_entry_request_id,
            final(self).state.pending_exit_request_id == old(self).state.pending_exit_request_id,
            journal_views(final(self).journal_records@) == journal_after(
                journal_views(old(self).journal_records@),
                dry_rows(old(self).config.profile_id@, decision_views(decisions@)),
            ),
            final(self).config == old(self).config,
            final(self).live_positions_dropped == old(self).live_positions_dropped,
            final(self).emitted_decision_keys == old(self).emitted_decision_keys,
            final(self).shadow_decisions_by_key == old(self).shadow_decisions_by_key,
            final(self).shadow_path_keys_by_date == old(self).shadow_path_keys_by_date,
    {
        let ghost views = decision_views(decisions@);
        let ghost profile = self.config.profile_id@;
        let ghost before = journal_views(self.journal_records@);
        let mut i: usize = 0;
        proof {
            assert(views.take(0) =~= Seq::<DecisionView>::empty());
        }
        while i < decisions.len()
            invariant
                i <= decisions@.len(),
                views == decision_views(decisions@),
                decisions_wf(views),
                profile == self.config.profile_id@,
                phase_view(self.state) == dry_steps(phase_view(old(self).state), profile, views.take(i as int)),
                keeps_feed(old(self).state, self.state),
                self.state.pending_entry_request_id == old(self).state.pending_entry_request_id,
                self.state.pending_exit_request_id == old(self).state.pending_exit_request_id,
                journal_views(self.journal_records@) == journal_after(
                    before,
                    dry_rows(profile, views.take(i as int)),
                ),
                self.config == old(self).config,
                self.live_positions_dropped == old(self).live_positions_dropped,
                self.emitted_decision_keys == old(self).emitted_decision_keys,
                self.shadow_decisions_by_key == old(self).shadow_decisions_by_key,
                self.shadow_path_keys_by_date == old(self).shadow_path_keys_by_date,
            decreases decisions@.len() - i,
        {
            let d = &decisions[i];
            let ghost dv = d@;
            let ghost prior = journal_views(self.journal_records@);
            let ghost rows = dry_rows(profile, views.take(i as int));
            proof {
                assert(views[i as int] == dv);
                assert(views.take(i + 1).drop_last() =~= views.take(i as int));
                assert(views.take(i + 1).last() == dv);
                assert(dv.wf());
                lemma_dry_run_rows_nonempty(profile, dv);
            }
            self.apply_dry_run_decision(d);
            proof {
                let new_rows = spec_dry_run_rows(profile, dv);
                assert(journal_after(prior, new_rows) == keep_last(prior + new_rows, JOURNAL_CAPACITY as nat));
                lemma_journal_after_concat(before, rows, new_rows);
            }
            i = i + 1;
        }
        proof {
            assert(views.take(decisions@.len() as int) =~= views);
        }
    }

    /// Takes the finalized decisions of a shadow run: the new ones are counted and
    /// journaled, and unless the adapter only runs prospectively each is worked dry; then
    /// the shadow portfolio path is recomputed from all of them. Returns the new decisions.
    pub fn collect_shadow_decisions(
        &mut self,
        finalized: Vec<RiAuthor4142ModelDecision>,
        current_dt_local: LocalDateTime,
    ) -> (r: Vec<RiAuthor4142ModelDecision>)
        requires
            decisions_wf(decision_views(finalized@)),
            path_wf(old(self).shadow_path_keys_by_date@),
            store_unique(old(self).shadow_decisions_by_key@),
            store_wf(old(self).shadow_decisions_by_key@),
        ensures
            decision_views(r@) == fresh_decisions(
                texts(old(self).emitted_decision_keys@).to_set(),
                decision_views(finalized@),
            ),
            texts(final(self).emitted_decision_keys@).to_set() == texts(
                old(self).emitted_decision_keys@,
            ).to_set().union(decision_keys(decision_views(finalized@))),
            final(self).state.model_decisions_seen == counter_plus(
                old(self).state.model_decisions_seen,
                r@.len(),
            ),
            opt_view(final(self).state.last_decision_key) == (if r@.len() == 0 {
                opt_view(old(self).state.last_decision_key)
            } else {
                Some(decision_views(r@).last().decision_key)
            }),
            phase_view(final(self).state) == (if old(self).config.spec_runs_prospective_adapter() {
                phase_view(old(self).state)
            } else {
                dry_steps(phase_view(old(self).state), old(self).config.profile_id@, decision_views(r@))
            }),
            final(self).state.pending_entry_request_id == old(self).state.pending_entry_request_id,
            final(self).state.pending_exit_request_id == old(self).state.pending_exit_request_id,
            path_wf(final(self).shadow_path_keys_by_date@),
            store_unique(final(self).shadow_decisions_by_key@),
            store_wf(final(self).shadow_decisions_by_key@),
            forall|k: Seq<char>| #[trigger] store_has(final(self).shadow_decisions_by_key@, k) == (
            store_has(old(self).shadow_decisions_by_key@, k) || last_with_key(
                decision_views(finalized@),
                k,
            ) is Some),
            forall|k: Seq<char>| #[trigger]
                store_has(final(self).shadow_decisions_by_key@, k) ==> store_get(
                    final(self).shadow_decisions_by_key@,
                    k,
                ) == match last_with_key(decision_views(finalized@), k) {
                    Some(d) => d,
                    None => store_get(old(self).shadow_decisions_by_key@, k),
                },
            exists|l: Seq<ShadowPathDay>| {
                &&& is_new_path(l, decision_views(finalized@), current_dt_local.day)
                &&& journal_views(final(self).journal_records@) == journal_after(
                    journal_views(old(self).journal_records@),
                    shadow_rows(decision_views(r@)) + (if old(
                        self,
                    ).config.spec_runs_prospective_adapter() {
                        Seq::<JournalView>::empty()
                    } else {
                        dry_rows(old(self).config.profile_id@, decision_views(r@))
                    }) + path_rows(
                        l,
                        old(self).shadow_path_keys_by_date@,
                        final(self).shadow_decisions_by_key@,
                    ),
                )
                &&& forall|d: i32| #[trigger]
                    path_keys(final(self).shadow_path_keys_by_date@, d) == if path_has(l, d) {
                        path_keys(l, d)
                    } else {
                        path_keys(old(self).shadow_path_keys_by_date@, d)
                    }
            },
            final(self).config == old(self).config,
            final(self).live_positions_dropped == old(self).live_positions_dropped,
    {
        let ghost before = journal_views(self.journal_records@);
        let ghost views = decision_views(finalized@);
        let copies = duplicate_decisions(&finalized);
        let new_decisions = self.collect_incremental_decisions(copies);
        let ghost after_new = journal_views(self.journal_records@);
        let ghost fresh = decision_views(new_decisions@);
        proof {
            assert forall|j: int| 0 <= j < fresh.len() implies (#[trigger] fresh[j]).wf() by {
                lemma_fresh_from(texts(old(self).emitted_decision_keys@).to_set(), views, fresh[j]);
            }
        }
        let ghost mid_state = self.state;
        if !self.config.runs_prospective_adapter() {
            self.apply_dry_run_decisions(&new_decisions);
            proof {
                lemma_journal_after_concat(before, shadow_rows(fresh), dry_rows(self.config.profile_id@, fresh));
            }
        } else {
            proof {
                assert(shadow_rows(fresh) + Seq::<JournalView>::empty() =~= shadow_rows(fresh));
            }
        }
        let ghost after_dry = journal_views(self.journal_records@);
        let ghost rows_so_far = shadow_rows(fresh) + (if old(self).config.spec_runs_prospective_adapter() {
            Seq::<JournalView>::empty()
        } else {
            dry_rows(old(self).config.profile_id@, fresh)
        });
        self.update_shadow_portfolio_path(&finalized, current_dt_local);
        proof {
            let l = choose|l: Seq<ShadowPathDay>| {
                &&& is_new_path(l, views, current_dt_local.day)
                &&& journal_views(self.journal_records@) == journal_after(
                    after_dry,
                    path_rows(l, old(self).shadow_path_keys_by_date@, self.shadow_decisions_by_key@),
                )
                &&& forall|d: i32| #[trigger]
                    path_keys(self.shadow_path_keys_by_date@, d) == if path_has(l, d) {
                        path_keys(l, d)
                    } else {
                        path_keys(old(self).shadow_path_keys_by_date@, d)
                    }
            };
            lemma_journal_after_concat(
                before,
                rows_so_far,
                path_rows(l, old(self).shadow_path_keys_by_date@, self.shadow_decisions_by_key@),
            );
            assert(is_new_path(l, views, current_dt_local.day));
        }
        new_decisions
    }
}

/// Every decision taken as new is one of the decisions offered.
proof fn lemma_fresh_from(seen: Set<Seq<char>>, ds: Seq<DecisionView>, x: DecisionView)
    requires
        fresh_decisions(seen, ds).contains(x),
    ensures
        ds.contains(x),
    decreases ds.len(),
{
    if ds.len() > 0 {
        let rest = ds.drop_first();
        if seen.contains(ds[0].decision_key) {
            lemma_fresh_from(seen, rest, x);
            let k = choose|k: int| 0 <= k < rest.len() && rest[k] == x;
            assert(ds[k + 1] == x);
        } else if x != ds[0] {
            let f = fresh_decisions(seen.insert(ds[0].decision_key), rest);
            let k = choose|k: int| 0 <= k < (seq![ds[0]] + f).len() && (seq![ds[0]] + f)[k] == x;
            assert(f[k - 1] == x);
            lemma_fresh_from(seen.insert(ds[0].decision_key), rest, x);
            let m = choose|m: int| 0 <= m < rest.len() && rest[m] == x;
            assert(ds[m + 1] == x);
        } else {
            assert(ds[0] == x);
        }
    }
}

/// Copies of a list of decisions.
fn duplicate_decisions(v: &Vec<RiAuthor4142ModelDecision>) -> (r: Vec<RiAuthor4142ModelDecision>)
    ensures
        decision_views(r@) == decision_views(v@),
{
    let mut r: Vec<RiAuthor4142ModelDecision> = Vec::new();
    let mut i: usize = 0;
    proof {
        assert(decision_views(r@) =~= decision_views(v@).take(0));
    }
    while i < v.len()
        invariant
            i <= v@.len(),
            decision_views(r@) == decision_views(v@).take(i as int),
        decreases v@.len() - i,
    {
        let ghost prior = decision_views(r@);
        r.push(v[i].duplicate());
        proof {
            assert(decision_views(r@) =~= prior.push(v@[i as int]@));
            assert(decision_views(v@).take(i + 1) =~= decision_views(v@).take(i as int).push(
                decision_views(v@)[i as int],
            ));
        }
        i = i + 1;
    }
    proof {
        assert(decision_views(v@).take(v@.len() as int) =~= decision_views(v@));
    }
    r
}


impl RiAuthor4142LiveStrategy {
    /// The keys on the shadow portfolio path for a day, in increasing order.
    pub fn shadow_path_keys(&self, day: i32) -> (r: Vec<String>)
        requires
            path_wf(self.shadow_path_keys_by_date@),
        ensures
            texts(r@) == path_keys(self.shadow_path_keys_by_date@, day),
    {
        path_keys_of(&self.shadow_path_keys_by_date, day)
    }
}


/// Decisions whose keys were all seen yield nothing new.
proof fn lemma_fresh_of_seen(seen: Set<Seq<char>>, ds: Seq<DecisionView>)
    requires
        forall|i: int| 0 <= i < ds.len() ==> seen.contains(#[trigger] ds[i].decision_key),
    ensures
        fresh_decisions(seen, ds) == Seq::<DecisionView>::empty(),
    decreases ds.len(),
{
    if ds.len() > 0 {
        assert(seen.contains(ds[0].decision_key));
        let rest = ds.drop_first();
        assert forall|i: int| 0 <= i < rest.len() implies seen.contains(#[trigger] rest[i].decision_key) by {
            assert(rest[i] == ds[i + 1]);
        }
        lemma_fresh_of_seen(seen, rest);
    }
}

/// Offering the same decisions again, after they were taken, takes none of them.
pub proof fn lemma_recollect_takes_nothing(seen: Set<Seq<char>>, ds: Seq<DecisionView>)
    ensures
        fresh_decisions(seen.union(decision_keys(ds)), ds).len() == 0,
{
    let all = seen.union(decision_keys(ds));
    assert forall|i: int| 0 <= i < ds.len() implies all.contains(#[trigger] ds[i].decision_key) by {
        let keys = ds.map_values(|d: DecisionView| d.decision_key);
        assert(keys[i] == ds[i].decision_key);
        assert(keys.contains(ds[i].decision_key));
    }
    lemma_fresh_of_seen(all, ds);
}

/// Recomputing a shadow path that already holds every day's keys journals nothing.
pub proof fn lemma_unchanged_path_journals_nothing(
    l: Seq<ShadowPathDay>,
    old_path: Seq<ShadowPathDay>,
    store: Seq<RiAuthor4142ModelDecision>,
)
    requires
        forall|i: int| 0 <= i < l.len() ==> path_keys(old_path, (#[trigger] l[i]).day) == texts(l[i].keys@),
    ensures
        path_rows(l, old_path, store).len() == 0,
    decreases l.len(),
{
    if l.len() > 0 {
        let rest = l.drop_last();
        assert forall|i: int| 0 <= i < rest.len() implies path_keys(old_path, (#[trigger] rest[i]).day)
            == texts(rest[i].keys@) by {
            assert(rest[i] == l[i]);
        }
        lemma_unchanged_path_journals_nothing(rest, old_path, store);
        let p = texts(l.last().keys@);
        assert(path_keys(old_path, l.last().day) == p);
        assert forall|j: int| 0 <= j < p.len() implies p.contains(#[trigger] p[j]) by {}
        lemma_removed_rows_none(p, p, store);
        lemma_added_rows_none(p, p, store);
    }
}


impl RiAuthor4142LiveStrategy {
    /// Sends the exit of a live model position: the accepted decision on the position,
    /// scheduled to exit at the bar `exit_ts_local`, is journaled with its exit candidate,
    /// which is sent as a market order, and the strategy moves to a pending exit recorded
    /// with `transition_reason`, `:` and `reason`.
    pub fn emit_exit_intent(
        &mut self,
        component: RiAuthor4142Component,
        side: RiAuthor4142Side,
        entry_ts_local: LocalDateTime,
        exit_ts_local: LocalDateTime,
        reason: &str,
        transition_reason: &str,
        decision_key: String,
    ) -> (o: RiMarketOrder)
        requires
            instant_ok(entry_ts_local),
            instant_ok(exit_ts_local),
        ensures
            ({
                let d = DecisionView {
                    action: RiAuthor4142DecisionAction::Enter,
                    component,
                    side: Some(side),
                    model_signal_ts_local: entry_ts_local,
                    scheduled_entry_ts_local: Some(entry_ts_local),
                    scheduled_exit_ts_local: Some(exit_ts_local),
                    reason: reason@,
                    overlap_decision: "Accepted"@,
                    decision_key: decision_key@,
                };
                let c = spec_candidate(
                    old(self).config.profile_id@,
                    d,
                    RiAuthor4142CandidateRole::Exit,
                    spec_exit_side(side),
                    exit_ts_local,
                );
                &&& journal_views(final(self).journal_records@) == keep_last(
                    journal_views(old(self).journal_records@).push(
                        spec_journal(
                            d,
                            if old(self).config.spec_runs_prospective_adapter() {
                                RiAuthor4142JournalDecision::ProspectiveIntentSuppressed
                            } else {
                                RiAuthor4142JournalDecision::IntentEmitted
                            },
                            Some(c),
                            None,
                        ),
                    ),
                    JOURNAL_CAPACITY as nat,
                )
                &&& o.side == spec_exit_side(side)
                &&& o.comment@ == c.comment
                &&& o.intent_class == IntentClass::Exit
                &&& opt_view(o.symbol) == (match opt_view(old(self).config.order_symbol) {
                    Some(s) => if s != old(self).config.symbol@ {
                        Some(s)
                    } else {
                        None
                    },
                    None => None,
                })
                &&& works_decision(final(self).state, d)
                &&& keeps_feed(old(self).state, final(self).state)
                &&& final(self).state.phase@ == "live_pending_exit"@
                &&& opt_view(final(self).state.last_transition_reason) == Some(
                    transition_reason@ + ":"@ + reason@,
                )
                &&& final(self).state.pending_entry_request_id == old(self).state.pending_entry_request_id
                &&& final(self).state.pending_exit_request_id is None
            }),
            final(self).config == old(self).config,
            final(self).live_positions_dropped == old(self).live_positions_dropped,
            final(self).emitted_decision_keys == old(self).emitted_decision_keys,
            *final(self) == (RiAuthor4142LiveStrategy {
                state: final(self).state,
                journal_records: final(self).journal_records,
                ..*old(self)
            }),
    {
        let decision = self.live_decision(
            component,
            side,
            entry_ts_local,
            Some(entry_ts_local),
            Some(exit_ts_local),
            reason,
            decision_key,
        );
        let candidate = self.build_candidate_intent(
            &decision,
            RiAuthor4142CandidateRole::Exit,
            side.exit_order_side(),
            exit_ts_local,
        );
        let order = self.emit_live_candidate(candidate, &decision);
        self.transition_live_pending_exit(&decision, transition_reason);
        order
    }
}

/// `f` is `s` after a bar at `ts_utc` of origin `origin` was counted in the feed
/// statistics, with result `r` (see `observe_bar`).
pub open spec fn spec_observed(
    s: RiAuthor4142LiveStrategy,
    f: RiAuthor4142LiveStrategy,
    ts_utc: i64,
    origin: DataOrigin,
    r: Option<(LocalDateTime, bool)>,
) -> bool {
    &&& (f.config == s.config)
    &&& (f.session_policy == s.session_policy)
    &&& (f.excluded_model_dates == s.excluded_model_dates)
    &&& (f.anchor_transition_rule == s.anchor_transition_rule)
    &&& (f.live_positions_dropped == s.live_positions_dropped)
    &&& (match r {
                None => f.state == s.state,
                Some((dt, is_model)) => {
                    let a = s.state;
                    let b = f.state;
                    &&& dt.wf()
                    &&& dt.stamp() == ts_utc + s.config.timezone_offset_hours * 3600
                    &&& is_model == s.spec_feeds_model(dt, origin)
                    &&& b.last_bar_ts == Some(ts_utc)
                    &&& b.last_model_bar_ts == (if is_model { Some(ts_utc) } else { a.last_model_bar_ts })
                    &&& b.model_bars_seen == (if is_model && a.model_bars_seen < u64::MAX {
                        (a.model_bars_seen + 1) as u64
                    } else {
                        a.model_bars_seen
                    })
                    &&& b.suppressed_service_bars == (if !is_model && a.suppressed_service_bars
                        < u64::MAX {
                        (a.suppressed_service_bars + 1) as u64
                    } else {
                        a.suppressed_service_bars
                    })
                    &&& b.phase == a.phase
                    &&& keeps_current(a, b)
                    &&& b.last_transition_reason == a.last_transition_reason
                    &&& b.pending_entry_request_id == a.pending_entry_request_id
                    &&& b.pending_exit_request_id == a.pending_exit_request_id
                    &&& b.model_decisions_seen == a.model_decisions_seen
                    &&& b.last_decision_key == a.last_decision_key
                    &&& b.mode == a.mode && b.profile_id == a.profile_id && b.timeframe == a.timeframe
                    &&& b.allow_order_emission == a.allow_order_emission
                    &&& b.execution_path == a.execution_path
                    &&& b.live_adapter_enabled == a.live_adapter_enabled
                },
            })
    &&& (-TIMESTAMP_LIMIT <= ts_utc <= TIMESTAMP_LIMIT && -TIMESTAMP_LIMIT <= ts_utc
                + s.config.timezone_offset_hours * 3600 <= TIMESTAMP_LIMIT ==> r is Some)
}

} // verus!
