use vstd::prelude::*;

use crate::clock::{
    tod_at, tod_le, weekday_from_monday, weekday_number, LocalDateTime, TimeOfDay, day_in_range,
};
use crate::text::{
    ascii_lower_seq, chars_eq_str, chars_of, concat_str, lowered, str_eq, string_from_chars, trim_seq,
    trimmed,
};

verus! {

broadcast use vstd::string::group_string_axioms;

/// Instruments covered by the frozen MOEX research models.
#[derive(Debug, Clone, Copy, PartialEq, Eq, Structural)]
pub enum Instrument {
    Imoexf,
    Ri,
}

impl Instrument {
    /// Ticker-like label of the instrument.
    pub fn as_str(self) -> (s: &'static str)
        ensures
            s@ == (match self {
                Instrument::Imoexf => "IMOEXF"@,
                Instrument::Ri => "RI"@,
            }),
    {
        match self {
            Instrument::Imoexf => "IMOEXF",
            Instrument::Ri => "RI",
        }
    }
}

/// Identifiers of the frozen model profiles.
#[derive(Debug, Clone, Copy, PartialEq, Eq, Structural)]
pub enum ProfileId {
    ImoexfAuthor41_42PrimaryComboCost2,
    RiAuthor41_42PrimaryComboCost2,
}

impl ProfileId {
    /// The identifier as it appears in handoff artifacts.
    pub fn as_str(self) -> (s: &'static str)
        ensures
            s@ == (match self {
                ProfileId::ImoexfAuthor41_42PrimaryComboCost2 =>
                    "imoexf_author41_42_primary_combo_cost2"@,
                ProfileId::RiAuthor41_42PrimaryComboCost2 => "ri_author41_42_primary_combo_cost2"@,
            }),
    {
        match self {
            ProfileId::ImoexfAuthor41_42PrimaryComboCost2 => "imoexf_author41_42_primary_combo_cost2",
            ProfileId::RiAuthor41_42PrimaryComboCost2 => "ri_author41_42_primary_combo_cost2",
        }
    }
}

/// The model component a journal row belongs to.
#[derive(Debug, Clone, Copy, PartialEq, Eq, Structural)]
pub enum Component {
    Author41Mr,
    Author42Bo,
    Combo,
}

/// Position direction in the shadow models.
#[derive(Debug, Clone, Copy, PartialEq, Eq, Structural)]
pub enum ShadowSide {
    Long,
    Short,
}

/// How the no-overlap rule treated a model trade.
#[derive(Debug, Clone, Copy, PartialEq, Eq, Structural)]
pub enum OverlapDecision {
    Accepted,
    DroppedMrOverlap,
    NotApplicable,
}

/// Runtime modes of the shadow models; none of them sends orders.
#[derive(Debug, Clone, Copy, PartialEq, Eq, Structural)]
pub enum ShadowRuntimeMode {
    ReplayOnly,
    ShadowOnly,
}

impl ShadowRuntimeMode {
    /// Shadow modes never emit orders.
    pub fn can_emit_orders(self) -> (b: bool)
        ensures
            !b,
    {
        false
    }
}

/// Which sides the author41 mean-reversion model trades.
#[derive(Debug, Clone, Copy, PartialEq, Eq, Structural)]
pub enum Author41SideMode {
    Long,
    Short,
    Dual,
}

/// The regular session in which bars feed the models: a closed window of times of day,
/// optionally on weekdays only.
#[derive(Debug, Clone, Copy, PartialEq, Eq, Structural)]
pub struct RegularSessionPolicy {
    pub start: TimeOfDay,
    pub end: TimeOfDay,
    pub weekdays_only: bool,
}

/// Whether a local bar time falls in the session window of the policy.
pub open spec fn spec_is_model_bar(policy: RegularSessionPolicy, dt: LocalDateTime) -> bool {
    &&& !(policy.weekdays_only && weekday_number(dt.day as int) > 5)
    &&& tod_le(policy.start, tod_at(dt.secs as int))
    &&& tod_le(tod_at(dt.secs as int), policy.end)
}

/// A weekdays-only policy never takes a weekend bar: whatever the time of day, a bar on a
/// Saturday or a Sunday (day number six or seven, counting from Monday as one) does not
/// feed the model, so a bar that does feed it falls on Monday to Friday. A policy open
/// every day judges by the time of day alone.
pub proof fn lemma_weekend_bars_never_feed_model(policy: RegularSessionPolicy, dt: LocalDateTime)
    ensures
        policy.weekdays_only && weekday_number(dt.day as int) >= 6 ==> !spec_is_model_bar(
            policy,
            dt,
        ),
        policy.weekdays_only && spec_is_model_bar(policy, dt) ==> 1 <= weekday_number(
            dt.day as int,
        ) <= 5,
        !policy.weekdays_only ==> (spec_is_model_bar(policy, dt) <==> tod_le(
            policy.start,
            tod_at(dt.secs as int),
        ) && tod_le(tod_at(dt.secs as int), policy.end)),
{
    assert(1 <= weekday_number(dt.day as int) <= 7);
}

impl RegularSessionPolicy {
    /// A policy with the given window.
    pub fn new(start: TimeOfDay, end: TimeOfDay, weekdays_only: bool) -> (p: Self)
        ensures
            p == (RegularSessionPolicy { start, end, weekdays_only }),
    {
        RegularSessionPolicy { start, end, weekdays_only }
    }

    /// The MOEX 10-minute model session: weekdays, 09:00:00 to 23:49:59.
    pub fn moex_10m() -> (p: Self)
        ensures
            p.start == tod_at(9 * 3600int),
            p.end == tod_at(23 * 3600 + 49 * 60 + 59int),
            p.weekdays_only,
    {
        RegularSessionPolicy {
            start: TimeOfDay { secs: 32400, frac: 0 },
            end: TimeOfDay { secs: 85799, frac: 0 },
            weekdays_only: true,
        }
    }

    /// Whether a bar at the given local time feeds the model.
    pub fn is_model_bar(self, dt: LocalDateTime) -> (b: bool)
        requires
            dt.wf(),
            day_in_range(dt.day as int),
        ensures
            b == spec_is_model_bar(self, dt),
            self.weekdays_only && weekday_number(dt.day as int) >= 6 ==> !b,
    {
        if self.weekdays_only && weekday_from_monday(dt.day) > 5 {
            return false;
        }
        let t = TimeOfDay { secs: dt.secs, frac: 0 };
        self.start.le(&t) && t.le(&self.end)
    }
}

/// A frozen model profile: which instrument and timeframe it covers, its session, and the
/// variant names of its components.
#[derive(Debug, Clone, Copy, PartialEq, Eq)]
pub struct ModelProfile {
    pub profile_id: ProfileId,
    pub instrument: Instrument,
    pub timeframe: &'static str,
    pub session_policy: RegularSessionPolicy,
    pub author41_variant: &'static str,
    pub author42_variant: &'static str,
    pub combo_variant: &'static str,
    pub no_overlap_enforced: bool,
    pub source_package: &'static str,
}

impl ModelProfile {
    /// The RI primary combo profile on 10-minute bars.
    pub fn ri_shadow_10m() -> (p: Self)
        ensures
            p.profile_id == ProfileId::RiAuthor41_42PrimaryComboCost2,
            p.instrument == Instrument::Ri,
            p.timeframe@ == "10m"@,
            p.session_policy.start == tod_at(9 * 3600int),
            p.session_policy.end == tod_at(23 * 3600 + 49 * 60 + 59int),
            p.session_policy.weekdays_only,
            p.author41_variant@ == "dual_no_overlap_plateau"@,
            p.author42_variant@ == "grid_k0.42_both"@,
            p.combo_variant@ == "ri_41dual_42best_cost2_nooverlap"@,
            p.no_overlap_enforced,
            p.source_package@ == "analiz_alpha_si/moex_imoexf_ri_author41_42_fixed_2026_04"@,
    {
        ModelProfile {
            profile_id: ProfileId::RiAuthor41_42PrimaryComboCost2,
            instrument: Instrument::Ri,
            timeframe: "10m",
            session_policy: RegularSessionPolicy::moex_10m(),
            author41_variant: "dual_no_overlap_plateau",
            author42_variant: "grid_k0.42_both",
            combo_variant: "ri_41dual_42best_cost2_nooverlap",
            no_overlap_enforced: true,
            source_package: "analiz_alpha_si/moex_imoexf_ri_author41_42_fixed_2026_04",
        }
    }

    /// The IMOEXF passive combo profile on 10-minute bars.
    pub fn imoexf_passive_shadow_10m() -> (p: Self)
        ensures
            p.profile_id == ProfileId::ImoexfAuthor41_42PrimaryComboCost2,
            p.instrument == Instrument::Imoexf,
            p.timeframe@ == "10m"@,
            p.session_policy.start == tod_at(9 * 3600int),
            p.session_policy.end == tod_at(23 * 3600 + 49 * 60 + 59int),
            p.session_policy.weekdays_only,
            p.author41_variant@ == "author41_boundary_short"@,
            p.author42_variant@ == "grid_k0.44_both"@,
            p.combo_variant@ == "imoexf_41short_42best_cost2_nooverlap"@,
            p.no_overlap_enforced,
            p.source_package@ == "analiz_alpha_si/moex_imoexf_ri_author41_42_fixed_2026_04"@,
    {
        ModelProfile {
            profile_id: ProfileId::ImoexfAuthor41_42PrimaryComboCost2,
            instrument: Instrument::Imoexf,
            timeframe: "10m",
            session_policy: RegularSessionPolicy::moex_10m(),
            author41_variant: "author41_boundary_short",
            author42_variant: "grid_k0.44_both",
            combo_variant: "imoexf_41short_42best_cost2_nooverlap",
            no_overlap_enforced: true,
            source_package: "analiz_alpha_si/moex_imoexf_ri_author41_42_fixed_2026_04",
        }
    }

    /// The variant name of a component of the profile.
    pub fn variant_of(&self, component: Component) -> (s: &'static str)
        ensures
            s@ == spec_variant_of(*self, component),
    {
        match component {
            Component::Author41Mr => self.author41_variant,
            Component::Author42Bo => self.author42_variant,
            Component::Combo => self.combo_variant,
        }
    }
}

/// The variant name of a component of a profile.
pub open spec fn spec_variant_of(p: ModelProfile, component: Component) -> Seq<char> {
    match component {
        Component::Author41Mr => p.author41_variant@,
        Component::Author42Bo => p.author42_variant@,
        Component::Combo => p.combo_variant@,
    }
}

/// One row of the shadow model journal: what a component decided at a bar, when its trade
/// was scheduled to enter and exit, and how the no-overlap rule treated it.
#[derive(Debug, Clone, PartialEq, Eq)]
pub struct ShadowJournalRecord {
    pub instrument: Instrument,
    pub profile_id: ProfileId,
    pub component: Component,
    pub model_variant_id: String,
    pub bar_ts_local: LocalDateTime,
    pub timeframe: String,
    pub prev_regular_date: Option<i32>,
    pub side: Option<ShadowSide>,
    pub skip_reason: Option<String>,
    pub scheduled_entry_ts_local: Option<LocalDateTime>,
    pub scheduled_exit_ts_local: Option<LocalDateTime>,
    pub exit_reason: Option<String>,
    pub overlap_decision: OverlapDecision,
    pub feed_quality_flags: Vec<String>,
}

impl ShadowJournalRecord {
    /// The row of a component that skipped the bar for the given reason: no trade, no anchor,
    /// and the no-overlap rule not applicable.
    pub fn skipped(
        profile: &ModelProfile,
        component: Component,
        bar_ts_local: LocalDateTime,
        reason: &str,
    ) -> (r: Self)
        ensures
            r.instrument == profile.instrument,
            r.profile_id == profile.profile_id,
            r.component == component,
            r.model_variant_id@ == spec_variant_of(*profile, component),
            r.bar_ts_local == bar_ts_local,
            r.timeframe@ == profile.timeframe@,
            r.prev_regular_date is None,
            r.side is None,
            r.skip_reason matches Some(x) && x@ == reason@,
            r.scheduled_entry_ts_local is None,
            r.scheduled_exit_ts_local is None,
            r.exit_reason is None,
            r.overlap_decision == OverlapDecision::NotApplicable,
            r.feed_quality_flags@.len() == 0,
    {
        ShadowJournalRecord {
            instrument: profile.instrument,
            profile_id: profile.profile_id,
            component,
            model_variant_id: String::from_str(profile.variant_of(component)),
            bar_ts_local,
            timeframe: String::from_str(profile.timeframe),
            prev_regular_date: None,
            side: None,
            skip_reason: Some(String::from_str(reason)),
            scheduled_entry_ts_local: None,
            scheduled_exit_ts_local: None,
            exit_reason: None,
            overlap_decision: OverlapDecision::NotApplicable,
            feed_quality_flags: Vec::new(),
        }
    }
}

/// A field of a source artifact that could not be read.
#[derive(Debug, Clone, PartialEq, Eq)]
pub enum SourceFieldError {
    UnsupportedSide { value: String },
}

impl SourceFieldError {
    /// Human-readable description of the error.
    pub fn message(&self) -> (s: String)
        ensures
            match self {
                SourceFieldError::UnsupportedSide { value } => s@ == "unsupported side \""@
                    + value@ + "\""@,
            },
    {
        match self {
            SourceFieldError::UnsupportedSide { value } => {
                let head = concat_str("unsupported side \"", value.as_str());
                concat_str(head.as_str(), "\"")
            },
        }
    }
}

/// Reads a side column: exactly `long` or `short`.
pub fn parse_side(value: &str) -> (r: Result<ShadowSide, SourceFieldError>)
    ensures
        value@ == "long"@ ==> r == Ok::<ShadowSide, SourceFieldError>(ShadowSide::Long),
        value@ == "short"@ ==> r == Ok::<ShadowSide, SourceFieldError>(ShadowSide::Short),
        value@ != "long"@ && value@ != "short"@ ==> (r matches Err(
            SourceFieldError::UnsupportedSide { value: v },
        ) && v@ == value@),
{
    proof {
        reveal_strlit("long");
        reveal_strlit("short");
        assert("long"@.len() != "short"@.len());
    }
    let cs = chars_of(value);
    if chars_eq_str(&cs, "long") {
        Ok(ShadowSide::Long)
    } else if chars_eq_str(&cs, "short") {
        Ok(ShadowSide::Short)
    } else {
        Err(SourceFieldError::UnsupportedSide { value: string_from_chars(&cs) })
    }
}

/// The texts of a list of strings.
pub open spec fn cells(v: Seq<String>) -> Seq<Seq<char>> {
    v.map_values(|x: String| x@)
}

/// The position of the first header equal to `name`, or -1.
pub open spec fn header_index(headers: Seq<Seq<char>>, name: Seq<char>) -> int
    decreases headers.len(),
{
    if headers.len() == 0 {
        -1
    } else {
        let r = header_index(headers.drop_last(), name);
        if r >= 0 {
            r
        } else if headers.last() == name {
            headers.len() - 1
        } else {
            -1
        }
    }
}

/// The value of a named column in an artifact row: the cell under the first header with
/// that name, trimmed; missing, empty and `nan` (in any case) cells give nothing.
pub open spec fn spec_field(headers: Seq<Seq<char>>, record: Seq<Seq<char>>, name: Seq<char>) -> Option<
    Seq<char>,
> {
    let i = header_index(headers, name);
    if i < 0 || i >= record.len() {
        None
    } else {
        let v = trim_seq(record[i]);
        if v.len() == 0 || ascii_lower_seq(v) == "nan"@ {
            None
        } else {
            Some(v)
        }
    }
}

proof fn lemma_header_index_prefix(headers: Seq<Seq<char>>, name: Seq<char>, i: int)
    requires
        0 <= i <= headers.len(),
        forall|k: int| 0 <= k < i ==> headers[k] != name,
    ensures
        header_index(headers.take(i), name) == -1,
    decreases i,
{
    if i > 0 {
        assert(headers.take(i).drop_last() =~= headers.take(i - 1));
        lemma_header_index_prefix(headers, name, i - 1);
    }
}

proof fn lemma_header_index_found(headers: Seq<Seq<char>>, name: Seq<char>, i: int, j: int)
    requires
        0 <= i < j <= headers.len(),
        forall|k: int| 0 <= k < i ==> headers[k] != name,
        headers[i] == name,
    ensures
        header_index(headers.take(j), name) == i,
    decreases j,
{
    if j == i + 1 {
        assert(headers.take(j).drop_last() =~= headers.take(i));
        lemma_header_index_prefix(headers, name, i);
    } else {
        assert(headers.take(j).drop_last() =~= headers.take(j - 1));
        lemma_header_index_found(headers, name, i, j - 1);
    }
}

/// Reads a named column of an artifact row.
pub fn field(headers: &Vec<String>, record: &Vec<String>, name: &str) -> (r: Option<String>)
    ensures
        match spec_field(cells(headers@), cells(record@), name@) {
            Some(v) => r matches Some(x) && x@ == v,
            None => r is None,
        },
{
    let ghost hs = cells(headers@);
    let mut i: usize = 0;
    while i < headers.len()
        invariant
            i <= headers@.len(),
            hs == cells(headers@),
            forall|k: int| 0 <= k < i ==> hs[k] != name@,
        ensures
            i <= headers@.len(),
            hs == cells(headers@),
            forall|k: int| 0 <= k < i ==> hs[k] != name@,
            i < headers@.len() ==> hs[i as int] == name@,
        decreases headers@.len() - i,
    {
        if str_eq(headers[i].as_str(), name) {
            break;
        }
        i = i + 1;
    }
    if i == headers.len() {
        proof {
            lemma_header_index_prefix(hs, name@, hs.len() as int);
            assert(hs.take(hs.len() as int) =~= hs);
        }
        return None;
    }
    proof {
        lemma_header_index_found(hs, name@, i as int, hs.len() as int);
        assert(hs.take(hs.len() as int) =~= hs);
    }
    if i >= record.len() {
        return None;
    }
    let v = trimmed(record[i].as_str());
    if v.len() == 0 || chars_eq_str(&lowered(&v), "nan") {
        return None;
    }
    Some(string_from_chars(&v))
}

} // verus!
