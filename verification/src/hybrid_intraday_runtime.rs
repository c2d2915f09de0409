use vstd::prelude::*;

use crate::clock::{
    fixed_offset_secs, local_to_timestamp, shift_timestamp, weekday_from_monday,
    weekday_number, day_in_range, LocalDateTime, MAX_EPOCH_DAY, SECS_PER_DAY, TIMESTAMP_LIMIT,
};
use crate::host::{
    cleanup_intents, opt_chars, spec_cleanup, CleanupIntent, GatewayPhase, LiveGate,
    OrderSide, PaperExecutionMode, StopLimitCondition, TradeMode,
};
use crate::idset::{set_insert_id, set_insert_text, set_remove_id, set_remove_text, texts};
use crate::market_buy_and_close::MarketBuyAndCloseLiveOrderStyle;
use crate::sat::{
    clamp_i32, clamp_i64, clamp_u64, sat_add_i64, sat_mul_i32, sat_mul_u64, sat_sub_i64,
    u64_as_i64, u64_to_i64,
};
use crate::text::{
    ascii_lower_seq, chars_eq_str, chars_of, concat_str, lowered, str_eq, push_char,
    trim_seq, trimmed,
};

verus! {

broadcast use vstd::string::group_string_axioms;

/// The hybrid strategy's two sub-models.
#[derive(Debug, Clone, Copy, PartialEq, Eq, Structural)]
pub enum Owner {
    MeanReversion,
    IntradayBreakout,
}

/// Position direction of the hybrid strategy.
#[derive(Debug, Clone, Copy, PartialEq, Eq, Structural)]
pub enum Side {
    Long,
    Short,
}

/// What an order tagged by the hybrid strategy is for.
#[derive(Debug, Clone, Copy, PartialEq, Eq, Structural)]
pub enum TagRole {
    Entry,
    Tp,
    Sl,
    Exit,
    Cancel,
}

/// The owner code written into order comments.
pub open spec fn spec_owner_code(owner: Owner) -> Seq<char> {
    match owner {
        Owner::MeanReversion => "MR"@,
        Owner::IntradayBreakout => "BO"@,
    }
}

/// The role code written into order comments.
pub open spec fn spec_role_code(role: TagRole) -> Seq<char> {
    match role {
        TagRole::Entry => "ENTRY"@,
        TagRole::Tp => "TP"@,
        TagRole::Sl => "SL"@,
        TagRole::Exit => "EXIT"@,
        TagRole::Cancel => "CANCEL"@,
    }
}

/// The owner that a comment code names.
pub open spec fn spec_owner_from_code(v: Seq<char>) -> Option<Owner> {
    if v == "MR"@ {
        Some(Owner::MeanReversion)
    } else if v == "BO"@ {
        Some(Owner::IntradayBreakout)
    } else {
        None
    }
}

/// The role that a comment code names.
pub open spec fn spec_role_from_code(v: Seq<char>) -> Option<TagRole> {
    if v == "ENTRY"@ {
        Some(TagRole::Entry)
    } else if v == "TP"@ {
        Some(TagRole::Tp)
    } else if v == "SL"@ {
        Some(TagRole::Sl)
    } else if v == "EXIT"@ {
        Some(TagRole::Exit)
    } else if v == "CANCEL"@ {
        Some(TagRole::Cancel)
    } else {
        None
    }
}

/// The comment code of an owner.
pub fn owner_code(owner: Owner) -> (s: &'static str)
    ensures
        s@ == spec_owner_code(owner),
{
    match owner {
        Owner::MeanReversion => "MR",
        Owner::IntradayBreakout => "BO",
    }
}

/// The comment code of a role.
pub fn role_code(role: TagRole) -> (s: &'static str)
    ensures
        s@ == spec_role_code(role),
{
    match role {
        TagRole::Entry => "ENTRY",
        TagRole::Tp => "TP",
        TagRole::Sl => "SL",
        TagRole::Exit => "EXIT",
        TagRole::Cancel => "CANCEL",
    }
}

/// Lower-case hexadecimal digit of a value below sixteen.
pub open spec fn hex_char(v: int) -> char {
    if v < 10 {
        ((v + 48) as u32) as char
    } else {
        ((v + 87) as u32) as char
    }
}

/// The byte of a lower-case hexadecimal digit.
pub open spec fn hex_byte(v: int) -> u8 {
    if v < 10 {
        (v + 48) as u8
    } else {
        (v + 87) as u8
    }
}

/// The ten-byte cycle id made of a timestamp and a sequence number: the low 32 bits of the
/// (non-negative) timestamp as eight lower-case hex digits, then the low 8 bits of the
/// sequence number as two.
pub open spec fn spec_cycle_id(ts_utc: i64, seq: u32) -> Seq<u8> {
    let t = (if ts_utc < 0 { 0 } else { ts_utc as int }) % 0x1_0000_0000;
    let s = (seq as int) % 0x100;
    Seq::new(
        10,
        |i: int|
            if i < 8 {
                hex_byte((t / pow16(7 - i)) % 16)
            } else {
                hex_byte((s / pow16(9 - i)) % 16)
            },
    )
}

/// Sixteen to the power `k`.
pub open spec fn pow16(k: int) -> int
    decreases k,
{
    if k <= 0 {
        1
    } else {
        16 * pow16(k - 1)
    }
}

fn hex_digit_byte(v: u64) -> (b: u8)
    requires
        v < 16,
    ensures
        b == hex_byte(v as int),
{
    if v < 10 {
        (v as u8) + 48
    } else {
        (v as u8) + 87
    }
}

/// Builds the cycle id for a timestamp and sequence number.
pub fn make_cycle_id(ts_utc: i64, seq: u32) -> (id: [u8; 10])
    ensures
        id@ == spec_cycle_id(ts_utc, seq),
{
    let t: u64 = if ts_utc < 0 { 0 } else { ts_utc as u64 } & 0xffff_ffff;
    let s: u64 = (seq as u64) & 0xff;
    assert(t == (if ts_utc < 0 { 0 } else { ts_utc as int }) % 0x1_0000_0000) by {
        let x: u64 = if ts_utc < 0 { 0 } else { ts_utc as u64 };
        assert(x & 0xffff_ffff == x % 0x1_0000_0000) by (bit_vector);
    }
    assert(s == (seq as int) % 0x100) by {
        let x: u64 = seq as u64;
        assert(x & 0xff == x % 0x100) by (bit_vector);
    }
    let mut out: [u8; 10] = [48u8; 10];
    let mut i: usize = 0;
    while i < 8
        invariant
            0 <= i <= 8,
            t < 0x1_0000_0000,
            s < 0x100,
            t == (if ts_utc < 0 { 0 } else { ts_utc as int }) % 0x1_0000_0000,
            s == (seq as int) % 0x100,
            forall|k: int| 0 <= k < i ==> out@[k] == hex_byte((t as int / pow16(7 - k)) % 16),
        decreases 8 - i,
    {
        let shift: u64 = ((7 - i) * 4) as u64;
        let nib = (t >> shift) & 0xf;
        assert(nib == (t as int / pow16(7 - i)) % 16) by {
            reveal_with_fuel(pow16, 8);
            assert(shift == 28 ==> pow16(7 - i) == 0x1000_0000);
            assert(shift == 24 ==> pow16(7 - i) == 0x100_0000);
            assert(shift == 20 ==> pow16(7 - i) == 0x10_0000);
            assert(shift == 16 ==> pow16(7 - i) == 0x1_0000);
            assert(shift == 12 ==> pow16(7 - i) == 0x1000);
            assert(shift == 8 ==> pow16(7 - i) == 0x100);
            assert(shift == 4 ==> pow16(7 - i) == 0x10);
            assert(shift == 0 ==> pow16(7 - i) == 1);
            assert(((t >> 28u64) & 0xf) == (t / 0x1000_0000) % 16) by (bit_vector);
            assert(((t >> 24u64) & 0xf) == (t / 0x100_0000) % 16) by (bit_vector);
            assert(((t >> 20u64) & 0xf) == (t / 0x10_0000) % 16) by (bit_vector);
            assert(((t >> 16u64) & 0xf) == (t / 0x1_0000) % 16) by (bit_vector);
            assert(((t >> 12u64) & 0xf) == (t / 0x1000) % 16) by (bit_vector);
            assert(((t >> 8u64) & 0xf) == (t / 0x100) % 16) by (bit_vector);
            assert(((t >> 4u64) & 0xf) == (t / 0x10) % 16) by (bit_vector);
            assert(((t >> 0u64) & 0xf) == (t / 1) % 16) by (bit_vector);
        }
        assert(nib < 16) by (bit_vector)
            requires
                nib == (t >> shift) & 0xf,
        ;
        out[i] = hex_digit_byte(nib);
        i = i + 1;
    }
    let hi = (s >> 4u64) & 0xf;
    let lo = s & 0xf;
    assert(hi == (s / 16) % 16 && lo == s % 16 && hi < 16 && lo < 16) by (bit_vector)
        requires
            hi == (s >> 4u64) & 0xf,
            lo == s & 0xf,
    ;
    out[8] = hex_digit_byte(hi);
    out[9] = hex_digit_byte(lo);
    assert(out@ =~= spec_cycle_id(ts_utc, seq)) by {
        reveal_with_fuel(pow16, 3);
    }
    out
}

/// The text of a cycle id: each byte read as a character.
pub open spec fn spec_cycle_text(id: Seq<u8>) -> Seq<char> {
    id.map_values(|b: u8| b as char)
}

/// Whether a character is an ASCII hexadecimal digit.
pub open spec fn is_hex_char(c: char) -> bool {
    ('0' <= c && c <= '9') || ('a' <= c && c <= 'f') || ('A' <= c && c <= 'F')
}

/// The cycle id that a comment's cycle text names: ten ASCII hexadecimal digits.
pub open spec fn spec_parse_cycle(raw: Seq<char>) -> Option<Seq<u8>> {
    if vstd::utf8::is_ascii_chars(raw) && raw.len() == 10 && (forall|i: int|
        0 <= i < 10 ==> is_hex_char(#[trigger] raw[i])) {
        Some(raw.map_values(|c: char| c as u8))
    } else {
        None
    }
}

/// The text of a cycle id.
pub fn format_cycle_id(cycle: &[u8; 10]) -> (s: String)
    ensures
        s@ == spec_cycle_text(cycle@),
{
    let mut out = String::new();
    let mut i: usize = 0;
    while i < 10
        invariant
            i <= 10,
            out@ == spec_cycle_text(cycle@.take(i as int)),
        decreases 10 - i,
    {
        push_char(&mut out, cycle[i] as char);
        i = i + 1;
        assert(spec_cycle_text(cycle@.take(i as int)) =~= spec_cycle_text(cycle@.take((i - 1) as int)).push(
            cycle@[i - 1] as char,
        ));
    }
    assert(cycle@.take(10) =~= cycle@);
    out
}

fn is_hex_digit(c: char) -> (b: bool)
    ensures
        b == is_hex_char(c),
{
    ('0' <= c && c <= '9') || ('a' <= c && c <= 'f') || ('A' <= c && c <= 'F')
}

/// Reads a cycle id from its text: exactly ten ASCII hexadecimal digits.
pub fn parse_cycle_id(raw: &str) -> (r: Option<[u8; 10]>)
    ensures
        match spec_parse_cycle(raw@) {
            Some(v) => r matches Some(id) && id@ == v,
            None => r is None,
        },
{
    if !raw.is_ascii() {
        return None;
    }
    let cs = chars_of(raw);
    if cs.len() != 10 {
        return None;
    }
    let mut out: [u8; 10] = [48u8; 10];
    let mut i: usize = 0;
    while i < 10
        invariant
            i <= 10,
            cs@ == raw@,
            cs@.len() == 10,
            vstd::utf8::is_ascii_chars(raw@),
            forall|k: int| 0 <= k < i ==> is_hex_char(#[trigger] cs@[k]),
            forall|k: int| 0 <= k < i ==> out@[k] == cs@[k] as u8,
        decreases 10 - i,
    {
        if !is_hex_digit(cs[i]) {
            return None;
        }
        out[i] = cs[i] as u8;
        i = i + 1;
    }
    assert(out@ =~= raw@.map_values(|c: char| c as u8));
    Some(out)
}

/// The value of an ASCII hexadecimal digit byte.
pub open spec fn hex_value(b: u8) -> int {
    if 48 <= b <= 57 {
        b - 48
    } else if 97 <= b <= 102 {
        b - 87
    } else {
        b - 55
    }
}

/// Whether a byte is an ASCII hexadecimal digit.
pub open spec fn is_hex_byte(b: u8) -> bool {
    (48 <= b <= 57) || (97 <= b <= 102) || (65 <= b <= 70)
}

/// The number that a run of hexadecimal digit bytes spells.
pub open spec fn hex_number(d: Seq<u8>) -> int
    decreases d.len(),
{
    if d.len() == 0 {
        0
    } else {
        hex_number(d.drop_last()) * 16 + hex_value(d.last())
    }
}

/// The creation timestamp that a cycle id records: its first eight bytes read as a signed
/// hexadecimal number (an optional sign, then digits), as `i64::from_str_radix` reads them.
pub open spec fn spec_cycle_ts(id: Seq<u8>) -> Option<int> {
    let d = id.subrange(0, 8);
    if forall|i: int| 0 <= i < 8 ==> is_hex_byte(#[trigger] d[i]) {
        Some(hex_number(d))
    } else if (d[0] == 43 || d[0] == 45) && (forall|i: int| 1 <= i < 8 ==> is_hex_byte(#[trigger] d[i])) {
        if d[0] == 45 {
            Some(-hex_number(d.subrange(1, 8)))
        } else {
            Some(hex_number(d.subrange(1, 8)))
        }
    } else {
        None
    }
}

fn hex_digit_value(b: u8) -> (v: i64)
    requires
        is_hex_byte(b),
    ensures
        v == hex_value(b),
        0 <= v < 16,
{
    if 48 <= b && b <= 57 {
        (b - 48) as i64
    } else if 97 <= b && b <= 102 {
        (b - 87) as i64
    } else {
        (b - 55) as i64
    }
}

proof fn lemma_hex_number_bound(d: Seq<u8>)
    requires
        forall|i: int| 0 <= i < d.len() ==> is_hex_byte(#[trigger] d[i]),
    ensures
        0 <= hex_number(d) < pow16(d.len() as int),
    decreases d.len(),
{
    if d.len() > 0 {
        let p = d.drop_last();
        assert forall|i: int| 0 <= i < p.len() implies is_hex_byte(#[trigger] p[i]) by {
            assert(p[i] == d[i]);
        }
        lemma_hex_number_bound(p);
        assert(is_hex_byte(d[d.len() - 1]));
        assert(pow16(d.len() as int) == 16 * pow16(p.len() as int));
    }
}

fn hex_run_value(id: &[u8; 10], from: usize) -> (v: i64)
    requires
        from <= 1,
        forall|i: int| from <= i < 8 ==> is_hex_byte(#[trigger] id@[i]),
    ensures
        v == hex_number(id@.subrange(from as int, 8)),
        0 <= v,
{
    let mut acc: i64 = 0;
    let mut i: usize = from;
    while i < 8
        invariant
            from <= i <= 8,
            from <= 1,
            forall|k: int| from <= k < 8 ==> is_hex_byte(#[trigger] id@[k]),
            acc == hex_number(id@.subrange(from as int, i as int)),
        decreases 8 - i,
    {
        let ghost prefix = id@.subrange(from as int, i as int);
        proof {
            assert forall|k: int| 0 <= k < prefix.len() implies is_hex_byte(#[trigger] prefix[k]) by {
                assert(prefix[k] == id@[from + k]);
            }
            lemma_hex_number_bound(prefix);
            reveal_with_fuel(pow16, 9);
            assert(pow16(prefix.len() as int) <= pow16(8)) by {
                assert(prefix.len() <= 7);
            }
        }
        let d = hex_digit_value(id[i]);
        acc = acc * 16 + d;
        i = i + 1;
        assert(id@.subrange(from as int, i as int).drop_last() =~= prefix);
    }
    proof {
        let whole = id@.subrange(from as int, 8);
        assert forall|k: int| 0 <= k < whole.len() implies is_hex_byte(#[trigger] whole[k]) by {
            assert(whole[k] == id@[from + k]);
        }
        lemma_hex_number_bound(whole);
    }
    acc
}

/// The creation timestamp recorded in a cycle id, if its first eight bytes read as a
/// hexadecimal number.
pub fn cycle_ts_utc(id: &[u8; 10]) -> (r: Option<i64>)
    ensures
        match spec_cycle_ts(id@) {
            Some(v) => r matches Some(x) && x == v,
            None => r is None,
        },
{
    let ghost d = id@.subrange(0, 8);
    let mut all_hex = true;
    let mut tail_hex = true;
    let mut i: usize = 0;
    while i < 8
        invariant
            i <= 8,
            d == id@.subrange(0, 8),
            all_hex == (forall|k: int| 0 <= k < i ==> is_hex_byte(#[trigger] id@[k])),
            tail_hex == (forall|k: int| 1 <= k < i ==> is_hex_byte(#[trigger] id@[k])),
        decreases 8 - i,
    {
        let h = 48 <= id[i] && id[i] <= 57 || 97 <= id[i] && id[i] <= 102 || 65 <= id[i] && id[i] <= 70;
        if !h {
            all_hex = false;
            if i >= 1 {
                tail_hex = false;
            }
        }
        i = i + 1;
    }
    proof {
        assert((forall|k: int| 0 <= k < 8 ==> is_hex_byte(#[trigger] d[k])) == all_hex) by {
            if all_hex {
                assert forall|k: int| 0 <= k < 8 implies is_hex_byte(#[trigger] d[k]) by {
                    assert(d[k] == id@[k]);
                }
            } else {
                let k = choose|k: int| 0 <= k < 8 && !is_hex_byte(#[trigger] id@[k]);
                assert(d[k] == id@[k]);
            }
        }
        assert((forall|k: int| 1 <= k < 8 ==> is_hex_byte(#[trigger] d[k])) == tail_hex) by {
            if tail_hex {
                assert forall|k: int| 1 <= k < 8 implies is_hex_byte(#[trigger] d[k]) by {
                    assert(d[k] == id@[k]);
                }
            } else {
                let k = choose|k: int| 1 <= k < 8 && !is_hex_byte(#[trigger] id@[k]);
                assert(d[k] == id@[k]);
            }
        }
        assert(d.subrange(1, 8) =~= id@.subrange(1, 8));
        assert(d[0] == id@[0]);
    }
    if all_hex {
        Some(hex_run_value(id, 0))
    } else if (id[0] == 43 || id[0] == 45) && tail_hex {
        let v = hex_run_value(id, 1);
        if id[0] == 45 {
            Some(-v)
        } else {
            Some(v)
        }
    } else {
        None
    }
}

/// `s` cut at every `sep`, as `str::split` cuts it (always at least one piece).
pub open spec fn split_on(s: Seq<char>, sep: char) -> Seq<Seq<char>>
    decreases s.len(),
{
    if s.len() == 0 {
        seq![Seq::<char>::empty()]
    } else {
        let rest = split_on(s.drop_last(), sep);
        if s.last() == sep {
            rest.push(Seq::<char>::empty())
        } else {
            rest.update(rest.len() - 1, rest.last().push(s.last()))
        }
    }
}

/// The position of the first `c` in `s`, or -1.
pub open spec fn first_index(s: Seq<char>, c: char) -> int
    decreases s.len(),
{
    if s.len() == 0 {
        -1
    } else if s[0] == c {
        0
    } else {
        let r = first_index(s.drop_first(), c);
        if r < 0 {
            -1
        } else {
            r + 1
        }
    }
}

/// `str::split_once('=')`: the text before and after the first `=`.
pub open spec fn split_once_eq(s: Seq<char>) -> Option<(Seq<char>, Seq<char>)> {
    let i = first_index(s, '=');
    if i < 0 {
        None
    } else {
        Some((s.take(i), s.skip(i + 1)))
    }
}

/// The fields gathered from the `key=value` parts of a hybrid comment.
pub struct TagFields {
    pub sid: Option<Seq<char>>,
    pub cycle: Option<Seq<char>>,
    pub owner: Option<Owner>,
    pub role: Option<TagRole>,
}

/// One `key=value` part applied to the gathered fields: later parts override earlier
/// ones, unknown keys are skipped, and a part without `=` rejects the comment.
pub open spec fn apply_part(acc: Option<TagFields>, part: Seq<char>) -> Option<TagFields> {
    match acc {
        None => None,
        Some(a) => match split_once_eq(part) {
            None => None,
            Some((k, v)) => if k == "sid"@ {
                Some(TagFields { sid: Some(v), ..a })
            } else if k == "c"@ {
                Some(TagFields { cycle: Some(v), ..a })
            } else if k == "o"@ {
                Some(TagFields { owner: spec_owner_from_code(v), ..a })
            } else if k == "r"@ {
                Some(TagFields { role: spec_role_from_code(v), ..a })
            } else {
                Some(a)
            },
        },
    }
}

/// All parts applied in order, starting from no fields.
pub open spec fn fold_parts(parts: Seq<Seq<char>>) -> Option<TagFields>
    decreases parts.len(),
{
    if parts.len() == 0 {
        Some(TagFields { sid: None, cycle: None, owner: None, role: None })
    } else {
        apply_part(fold_parts(parts.drop_last()), parts.last())
    }
}

/// The tag that a hybrid order comment carries: an ASCII comment starting `HYB|` whose
/// further `|`-separated parts are all `key=value` and name a sid and a cycle.
pub open spec fn spec_parse_tag(comment: Seq<char>) -> Option<TagFields> {
    if !vstd::utf8::is_ascii_chars(comment) || !crate::text::starts_with_seq(comment, "HYB|"@) {
        None
    } else {
        match fold_parts(split_on(comment, '|').drop_first()) {
            None => None,
            Some(f) => if f.sid is Some && f.cycle is Some {
                Some(f)
            } else {
                None
            },
        }
    }
}

/// The tag of an order placed by the hybrid strategy.
#[derive(Debug, Clone)]
pub struct HybridTag {
    pub sid: String,
    pub cycle: String,
    pub owner: Option<Owner>,
    pub role: Option<TagRole>,
}

/// Whether a tag holds the given fields.
pub open spec fn tag_is(t: HybridTag, f: TagFields) -> bool {
    Some(t.sid@) == f.sid && Some(t.cycle@) == f.cycle && t.owner == f.owner && t.role == f.role
}

proof fn lemma_split_nonempty(s: Seq<char>, sep: char)
    ensures
        split_on(s, sep).len() >= 1,
    decreases s.len(),
{
    if s.len() > 0 {
        lemma_split_nonempty(s.drop_last(), sep);
    }
}

proof fn lemma_fold_stays_none(ps: Seq<Seq<char>>, j: int)
    requires
        0 <= j <= ps.len(),
        fold_parts(ps.take(j)) is None,
    ensures
        fold_parts(ps) is None,
    decreases ps.len() - j,
{
    if j < ps.len() {
        assert(ps.take(j + 1).drop_last() =~= ps.take(j));
        lemma_fold_stays_none(ps, j + 1);
    } else {
        assert(ps.take(j) =~= ps);
    }
}

fn split_bars(s: &Vec<char>) -> (parts: Vec<Vec<char>>)
    ensures
        parts@.map_values(|p: Vec<char>| p@) == split_on(s@, '|'),
{
    let mut parts: Vec<Vec<char>> = Vec::new();
    parts.push(Vec::new());
    let mut i: usize = 0;
    proof {
        assert(parts@.map_values(|p: Vec<char>| p@) =~= split_on(s@.take(0), '|'));
    }
    while i < s.len()
        invariant
            i <= s@.len(),
            parts@.len() >= 1,
            parts@.map_values(|p: Vec<char>| p@) == split_on(s@.take(i as int), '|'),
        decreases s@.len() - i,
    {
        let c = s[i];
        let ghost before = parts@.map_values(|p: Vec<char>| p@);
        if c == '|' {
            parts.push(Vec::new());
        } else {
            let last = parts.len() - 1;
            let mut cur = parts.remove(last);
            cur.push(c);
            parts.push(cur);
        }
        i = i + 1;
        proof {
            assert(s@.take(i as int).drop_last() =~= s@.take((i - 1) as int));
            assert(s@.take(i as int).last() == c);
            assert(parts@.map_values(|p: Vec<char>| p@) =~= split_on(s@.take(i as int), '|'));
        }
    }
    assert(s@.take(s@.len() as int) =~= s@);
    parts
}

fn find_eq(s: &Vec<char>) -> (r: Option<usize>)
    ensures
        match r {
            None => first_index(s@, '=') < 0,
            Some(i) => first_index(s@, '=') == i && i < s@.len(),
        },
{
    let mut i: usize = 0;
    while i < s.len()
        invariant
            i <= s@.len(),
            forall|k: int| 0 <= k < i ==> s@[k] != '=',
        decreases s@.len() - i,
    {
        if s[i] == '=' {
            proof {
                lemma_first_index_at(s@, '=', i as int);
            }
            return Some(i);
        }
        i = i + 1;
    }
    proof {
        lemma_first_index_none(s@, '=');
    }
    None
}

proof fn lemma_first_index_at(s: Seq<char>, c: char, i: int)
    requires
        0 <= i < s.len(),
        s[i] == c,
        forall|k: int| 0 <= k < i ==> s[k] != c,
    ensures
        first_index(s, c) == i,
    decreases i,
{
    if i > 0 {
        let t = s.drop_first();
        assert forall|k: int| 0 <= k < i - 1 implies t[k] != c by {
            assert(t[k] == s[k + 1]);
        }
        lemma_first_index_at(t, c, i - 1);
    }
}

proof fn lemma_first_index_none(s: Seq<char>, c: char)
    requires
        forall|k: int| 0 <= k < s.len() ==> s[k] != c,
    ensures
        first_index(s, c) < 0,
    decreases s.len(),
{
    if s.len() > 0 {
        let t = s.drop_first();
        assert forall|k: int| 0 <= k < t.len() implies t[k] != c by {
            assert(t[k] == s[k + 1]);
        }
        lemma_first_index_none(t, c);
    }
}

fn sub_chars(s: &Vec<char>, from: usize, to: usize) -> (r: Vec<char>)
    requires
        from <= to <= s@.len(),
    ensures
        r@ == s@.subrange(from as int, to as int),
{
    let mut r: Vec<char> = Vec::new();
    let mut i: usize = from;
    while i < to
        invariant
            from <= i <= to,
            to <= s@.len(),
            r@ == s@.subrange(from as int, i as int),
        decreases to - i,
    {
        r.push(s[i]);
        i = i + 1;
        assert(r@ =~= s@.subrange(from as int, i as int));
    }
    r
}

/// Reads the hybrid tag of an order comment.
pub fn parse_hybrid_tag(comment: Option<&str>) -> (r: Option<HybridTag>)
    ensures
        match comment {
            None => r is None,
            Some(c) => match spec_parse_tag(c@) {
                None => r is None,
                Some(f) => r matches Some(t) && tag_is(t, f),
            },
        },
{
    let text = match comment {
        None => {
            return None;
        },
        Some(c) => c,
    };
    if !text.is_ascii() || !crate::text::starts_with_str(text, "HYB|") {
        return None;
    }
    let cs = chars_of(text);
    let parts = split_bars(&cs);
    let ghost views = parts@.map_values(|p: Vec<char>| p@);
    let mut sid: Option<Vec<char>> = None;
    let mut cycle: Option<Vec<char>> = None;
    let mut owner: Option<Owner> = None;
    let mut role: Option<TagRole> = None;
    let mut i: usize = 1;
    proof {
        lemma_split_nonempty(text@, '|');
        assert(views.drop_first().take(0) =~= Seq::<Seq<char>>::empty());
    }
    while i < parts.len()
        invariant
            1 <= i <= parts@.len(),
            views == parts@.map_values(|p: Vec<char>| p@),
            views == split_on(text@, '|'),
            comment == Some(text),
            vstd::utf8::is_ascii_chars(text@),
            crate::text::starts_with_seq(text@, "HYB|"@),
            fold_parts(views.drop_first().take((i - 1) as int)) == Some(
                TagFields {
                    sid: match sid { Some(v) => Some(v@), None => None },
                    cycle: match cycle { Some(v) => Some(v@), None => None },
                    owner,
                    role,
                },
            ),
        decreases parts@.len() - i,
    {
        let part = &parts[i];
        let ghost before = views.drop_first().take((i - 1) as int);
        proof {
            assert(views.drop_first().take(i as int).drop_last() =~= before);
            assert(views.drop_first().take(i as int).last() == part@);
        }
        let eq = match find_eq(part) {
            None => {
                proof {
                    let cur = views.drop_first().take(i as int);
                    assert(cur.drop_last() =~= before);
                    assert(split_once_eq(part@) is None);
                    assert(fold_parts(cur) == apply_part(fold_parts(cur.drop_last()), cur.last()));
                    assert(fold_parts(cur) is None);
                    lemma_fold_stays_none(views.drop_first(), i as int);
                }
                return None;
            },
            Some(e) => e,
        };
        let key = sub_chars(part, 0, eq);
        let value = sub_chars(part, eq + 1, part.len());
        proof {
            assert(key@ =~= part@.take(eq as int));
            assert(value@ =~= part@.skip(eq + 1));
        }
        if chars_eq_str(&key, "sid") {
            sid = Some(value);
        } else if chars_eq_str(&key, "c") {
            cycle = Some(value);
        } else if chars_eq_str(&key, "o") {
            owner = if chars_eq_str(&value, "MR") {
                Some(Owner::MeanReversion)
            } else if chars_eq_str(&value, "BO") {
                Some(Owner::IntradayBreakout)
            } else {
                None
            };
        } else if chars_eq_str(&key, "r") {
            role = if chars_eq_str(&value, "ENTRY") {
                Some(TagRole::Entry)
            } else if chars_eq_str(&value, "TP") {
                Some(TagRole::Tp)
            } else if chars_eq_str(&value, "SL") {
                Some(TagRole::Sl)
            } else if chars_eq_str(&value, "EXIT") {
                Some(TagRole::Exit)
            } else if chars_eq_str(&value, "CANCEL") {
                Some(TagRole::Cancel)
            } else {
                None
            };
        }
        i = i + 1;
    }
    proof {
        assert(views.drop_first().take((i - 1) as int) =~= views.drop_first());
    }
    match (sid, cycle) {
        (Some(s), Some(c)) => Some(
            HybridTag {
                sid: crate::text::string_from_chars(&s),
                cycle: crate::text::string_from_chars(&c),
                owner,
                role,
            },
        ),
        _ => None,
    }
}

/// The comment written on an order of the hybrid strategy:
/// `HYB|sid=<sid>|c=<cycle>|o=<MR|BO>|r=<role>`.
pub open spec fn spec_comment(sid: Seq<char>, cycle: Seq<char>, owner: Owner, role: TagRole) -> Seq<char> {
    "HYB|sid="@ + sid + "|c="@ + cycle + "|o="@ + spec_owner_code(owner) + "|r="@ + spec_role_code(role)
}

/// Writes the comment of an order of the hybrid strategy.
pub fn build_comment(strategy_id: &str, cycle_id: &[u8; 10], owner: Owner, role: TagRole) -> (s: String)
    ensures
        s@ == spec_comment(strategy_id@, spec_cycle_text(cycle_id@), owner, role),
{
    let cycle = format_cycle_id(cycle_id);
    let a = concat_str("HYB|sid=", strategy_id);
    let b = concat_str(a.as_str(), "|c=");
    let c = concat_str(b.as_str(), cycle.as_str());
    let d = concat_str(c.as_str(), "|o=");
    let e = concat_str(d.as_str(), owner_code(owner));
    let f = concat_str(e.as_str(), "|r=");
    concat_str(f.as_str(), role_code(role))
}

/// Whether a comment carries a hybrid tag of the given strategy.
pub fn is_our_tag(strategy_id: &str, comment: Option<&str>) -> (b: bool)
    ensures
        b == (comment matches Some(c) && spec_parse_tag(c@) matches Some(f) && f.sid == Some(
            strategy_id@,
        )),
{
    match parse_hybrid_tag(comment) {
        None => false,
        Some(tag) => str_eq(tag.sid.as_str(), strategy_id),
    }
}

/// The order side that protects (and closes) a position of the given direction.
pub open spec fn spec_stop_side(side: Side) -> OrderSide {
    match side {
        Side::Long => OrderSide::Sell,
        Side::Short => OrderSide::Buy,
    }
}

/// The trigger condition of the stop that protects a position of the given direction.
pub open spec fn spec_stop_condition(side: Side) -> StopLimitCondition {
    match side {
        Side::Long => StopLimitCondition::LessOrEqual,
        Side::Short => StopLimitCondition::MoreOrEqual,
    }
}

/// The order side that opens a position of the given direction.
pub open spec fn spec_order_side(side: Side) -> OrderSide {
    match side {
        Side::Long => OrderSide::Buy,
        Side::Short => OrderSide::Sell,
    }
}

/// The order side that protects a position of the given direction.
pub fn stop_side_for_entry_side(side: Side) -> (s: OrderSide)
    ensures
        s == spec_stop_side(side),
{
    match side {
        Side::Long => OrderSide::Sell,
        Side::Short => OrderSide::Buy,
    }
}

/// The trigger condition of the stop that protects a position of the given direction.
pub fn stop_condition_for_entry_side(side: Side) -> (c: StopLimitCondition)
    ensures
        c == spec_stop_condition(side),
{
    match side {
        Side::Long => StopLimitCondition::LessOrEqual,
        Side::Short => StopLimitCondition::MoreOrEqual,
    }
}

/// The order side that opens a position of the given direction.
pub fn side_to_order_side(side: Side) -> (s: OrderSide)
    ensures
        s == spec_order_side(side),
{
    match side {
        Side::Long => OrderSide::Buy,
        Side::Short => OrderSide::Sell,
    }
}

/// Whether an order may be executed now: in a live run only with live orders allowed, a
/// ready gateway and a live bar; in a paper run always when simulating on history and
/// otherwise on live bars; in a backtest always.
pub open spec fn spec_can_execute(gate: LiveGate, paper: PaperExecutionMode, is_live_bar: bool) -> bool {
    match gate.trade_mode {
        TradeMode::Live => gate.allow_live_orders && gate.gateway_phase == GatewayPhase::LiveReady
            && is_live_bar,
        TradeMode::Paper => match paper {
            PaperExecutionMode::HistorySim => true,
            PaperExecutionMode::LiveOnly => is_live_bar,
        },
        TradeMode::Backtest => true,
    }
}

/// Whether an order may be emitted now: in a live run when it may be executed, otherwise
/// always.
pub open spec fn spec_can_emit(gate: LiveGate, paper: PaperExecutionMode, is_live_bar: bool) -> bool {
    match gate.trade_mode {
        TradeMode::Live => spec_can_execute(gate, paper, is_live_bar),
        _ => true,
    }
}

/// Orders go out of a live run only with permission: without live orders allowed, with
/// the gateway not ready or on a bar that is not live data, no order is executed or
/// emitted; with all three, both are. A backtest executes and emits everything; a paper
/// run emits everything and executes when it simulates on history or the bar is live.
pub proof fn lemma_live_orders_need_permission(gate: LiveGate, paper: PaperExecutionMode, is_live_bar: bool)
    ensures
        gate.trade_mode == TradeMode::Live && !gate.allow_live_orders ==> !spec_can_execute(
            gate,
            paper,
            is_live_bar,
        ) && !spec_can_emit(gate, paper, is_live_bar),
        gate.trade_mode == TradeMode::Live && gate.gateway_phase != GatewayPhase::LiveReady
            ==> !spec_can_execute(gate, paper, is_live_bar) && !spec_can_emit(gate, paper, is_live_bar),
        gate.trade_mode == TradeMode::Live && !is_live_bar ==> !spec_can_execute(
            gate,
            paper,
            is_live_bar,
        ) && !spec_can_emit(gate, paper, is_live_bar),
        gate.trade_mode == TradeMode::Live && gate.allow_live_orders && gate.gateway_phase
            == GatewayPhase::LiveReady && is_live_bar ==> spec_can_execute(gate, paper, is_live_bar)
            && spec_can_emit(gate, paper, is_live_bar),
        gate.trade_mode == TradeMode::Backtest ==> spec_can_execute(gate, paper, is_live_bar)
            && spec_can_emit(gate, paper, is_live_bar),
        gate.trade_mode == TradeMode::Paper ==> spec_can_emit(gate, paper, is_live_bar) && (
        spec_can_execute(gate, paper, is_live_bar) <==> (paper == PaperExecutionMode::HistorySim
            || is_live_bar)),
{
}

/// Whether an order may be executed now.
pub fn can_execute_now(gate: LiveGate, paper: PaperExecutionMode, is_live_bar: bool) -> (b: bool)
    ensures
        b == spec_can_execute(gate, paper, is_live_bar),
        gate.trade_mode == TradeMode::Live && !gate.allow_live_orders ==> !b,
{
    match gate.trade_mode {
        TradeMode::Live => gate.allow_live_orders && gate.gateway_phase == GatewayPhase::LiveReady
            && is_live_bar,
        TradeMode::Paper => match paper {
            PaperExecutionMode::HistorySim => true,
            PaperExecutionMode::LiveOnly => is_live_bar,
        },
        TradeMode::Backtest => true,
    }
}

/// Whether an order may be emitted now.
pub fn can_emit_now(gate: LiveGate, paper: PaperExecutionMode, is_live_bar: bool) -> (b: bool)
    ensures
        b == spec_can_emit(gate, paper, is_live_bar),
        gate.trade_mode == TradeMode::Live && !gate.allow_live_orders ==> !b,
{
    match gate.trade_mode {
        TradeMode::Live => can_execute_now(gate, paper, is_live_bar),
        _ => true,
    }
}

/// The settings of the hybrid runtime that its order tracking reads.
#[derive(Debug, Clone)]
pub struct HybridIntradayRuntimeConfig {
    pub symbol: String,
    pub qty: u64,
    pub live_order_style: MarketBuyAndCloseLiveOrderStyle,
    pub marketable_limit_offset_ticks: i64,
    pub timezone_offset_hours: i32,
    pub session_close_hour: u32,
    pub session_close_minute: u32,
    pub weekends_off: bool,
    pub stop_end_buffer_sec: u64,
    pub repair_deadline_sec: u64,
    pub sl_escalate_timeout_sec: u64,
    pub max_repair_retries: u32,
    pub repair_backoff_base_sec: u64,
    pub repair_backoff_max_sec: u64,
    pub pending_timeout_sec: u64,
}

/// An entry order sent and not yet filled: who sent it, its direction and cycle, whether
/// it opens a bracket, and which of the bracket's price levels the signal gave.
#[derive(Debug, Clone, Copy, PartialEq, Eq)]
pub struct PendingEntry {
    pub owner: Owner,
    pub side: Side,
    pub cycle_id: [u8; 10],
    pub bracket: bool,
    pub has_stop_price: bool,
    pub has_take_price: bool,
}

/// What an entry signal carries besides its owner and direction: whether it opens a
/// bracket and which of the bracket's price levels it gives.
#[derive(Debug, Clone, Copy, PartialEq, Eq, Structural)]
pub struct EntryShape {
    pub bracket: bool,
    pub has_stop_price: bool,
    pub has_take_price: bool,
}

/// The order tracking of the hybrid intraday runtime: the orders in flight, the
/// mean-reversion bracket, its repair schedule and the close-only safe mode. Positions
/// and quantities are whole lots; of the bracket's price levels only whether they are
/// known is kept.
#[derive(Debug)]
pub struct HybridIntradayRuntimeStrategy {
    pub config: HybridIntradayRuntimeConfig,
    pub last_position_qty: i64,
    pub current_owner: Option<Owner>,
    pub current_side: Option<Side>,
    pub pending_entry: Option<PendingEntry>,
    pub pending_entry_request_id: Option<u128>,
    pub pending_entry_created_ts_utc: Option<i64>,
    pub pending_exit_request_id: Option<u128>,
    pub pending_exit_created_ts_utc: Option<i64>,
    pub pending_tp_request_id: Option<u128>,
    pub pending_tp_created_ts_utc: Option<i64>,
    pub pending_sl_request_id: Option<u128>,
    pub pending_sl_created_ts_utc: Option<i64>,
    pub tp_order_id: Option<i64>,
    pub sl_stop_order_id: Option<String>,
    pub sl_exchange_order_id: Option<i64>,
    pub sl_triggered_ts: Option<i64>,
    pub has_mr_take_price: bool,
    pub has_mr_stop_price: bool,
    pub repair_deadline_ts: Option<i64>,
    pub next_repair_at_ts: Option<i64>,
    pub repair_backoff_level: u32,
    pub repair_attempts: u32,
    pub active_cycle_id: Option<[u8; 10]>,
    pub safe_mode_close_only: bool,
    pub safe_mode_reason: Option<String>,
    pub next_cycle_seq: u32,
    pub working_orders: Vec<i64>,
    pub working_stop_orders: Vec<String>,
    pub entry_ready: bool,
    pub startup_live_replay_boundary_ts_utc: Option<i64>,
    pub startup_replay_suppressed_bars: u32,
    /// The close time of the last bar processed, if any.
    pub last_processed_bar_ts: Option<i64>,
}

/// The fallback stop end: the creation time (never below zero) plus the buffer.
pub open spec fn spec_stop_end_default(cfg: HybridIntradayRuntimeConfig, created_ts_utc: i64) -> int {
    clamp_i64((if created_ts_utc < 0 { 0 } else { created_ts_utc as int }) + u64_as_i64(
        cfg.stop_end_buffer_sec,
    ))
}

/// The configured session close as seconds of the day (hour at most 23, minute at most 59).
pub open spec fn spec_close_secs(cfg: HybridIntradayRuntimeConfig) -> int {
    (if cfg.session_close_hour > 23 { 23 } else { cfg.session_close_hour as int }) * 3600 + (
    if cfg.session_close_minute > 59 {
        59
    } else {
        cfg.session_close_minute as int
    }) * 60
}

/// The configured zone's offset east of UTC in seconds (saturating).
pub open spec fn spec_zone_offset(cfg: HybridIntradayRuntimeConfig) -> int {
    clamp_i32(cfg.timezone_offset_hours * 3600)
}

/// The first session close from local day `day` on, within `left` days, that ends (with
/// the buffer) after `created_ts_utc`; weekends are passed over when the market is closed
/// on them. The fallback when none is found.
pub open spec fn stop_end_scan(
    cfg: HybridIntradayRuntimeConfig,
    day: int,
    left: nat,
    offset: int,
    created_ts_utc: i64,
) -> int
    decreases left,
{
    if left == 0 {
        spec_stop_end_default(cfg, created_ts_utc)
    } else if cfg.weekends_off && weekday_number(day) >= 6 {
        stop_end_scan(cfg, day + 1, (left - 1) as nat, offset, created_ts_utc)
    } else {
        let e = clamp_i64(day * 86400 + spec_close_secs(cfg) - offset + u64_as_i64(
            cfg.stop_end_buffer_sec,
        ));
        if e > created_ts_utc {
            e
        } else {
            stop_end_scan(cfg, day + 1, (left - 1) as nat, offset, created_ts_utc)
        }
    }
}

/// Whether the stop end of a protective stop created at `ts` can be worked out: chrono
/// walks up to eight days past the creation day, so the day must lie clear of the last
/// days of its calendar; a timestamp past the calendar falls back to the buffer.
pub open spec fn stop_end_computable(ts: i64) -> bool {
    ts / 86400 < MAX_EPOCH_DAY - 9 || ts / 86400 > MAX_EPOCH_DAY
}

/// When a protective stop created at `created_ts_utc` should expire: the buffer after the
/// next session close (within eight days), or the fallback.
pub open spec fn spec_resolve_stop_end(cfg: HybridIntradayRuntimeConfig, created_ts_utc: i64) -> int {
    if created_ts_utc <= 0 {
        spec_stop_end_default(cfg, 0)
    } else {
        let off = spec_zone_offset(cfg);
        if !(-86400 < off < 86400) || !day_in_range(created_ts_utc / 86400) {
            spec_stop_end_default(cfg, created_ts_utc)
        } else {
            stop_end_scan(cfg, (created_ts_utc + off) / 86400, 8, off, created_ts_utc)
        }
    }
}

/// The cycle id that a hybrid order comment names, if it names a valid one.
pub open spec fn spec_comment_cycle(comment: Seq<char>) -> Option<Seq<u8>> {
    match spec_parse_tag(comment) {
        Some(f) => match f.cycle {
            Some(cv) => spec_parse_cycle(cv),
            None => None,
        },
        None => None,
    }
}

/// Whether anything of the strategy is in flight on the exchange.
pub open spec fn spec_has_live_orders(s: HybridIntradayRuntimeStrategy) -> bool {
    s.pending_entry is Some || s.pending_entry_request_id is Some || s.pending_exit_request_id
        is Some || s.pending_tp_request_id is Some || s.pending_sl_request_id is Some
        || s.working_orders@.len() > 0 || s.working_stop_orders@.len() > 0
}

/// The timeout for orders in flight, in seconds: the configured value, at least one,
/// read as an `i64`.
pub open spec fn spec_pending_timeout(cfg: HybridIntradayRuntimeConfig) -> int {
    u64_as_i64(if cfg.pending_timeout_sec < 1 { 1 } else { cfg.pending_timeout_sec })
}

impl HybridIntradayRuntimeStrategy {
    /// A strategy with nothing in flight and no cycle.
    pub fn new(config: HybridIntradayRuntimeConfig) -> (s: Self)
        ensures
            s.config == config,
            !spec_has_live_orders(s),
            s.last_position_qty == 0,
            s.current_owner is None && s.current_side is None,
            s.pending_entry_created_ts_utc is None && s.pending_exit_created_ts_utc is None,
            s.pending_tp_created_ts_utc is None && s.pending_sl_created_ts_utc is None,
            s.tp_order_id is None && s.sl_stop_order_id is None && s.sl_exchange_order_id is None,
            s.sl_triggered_ts is None && !s.has_mr_take_price && !s.has_mr_stop_price,
            s.repair_deadline_ts is None && s.next_repair_at_ts is None,
            s.repair_backoff_level == 0 && s.repair_attempts == 0,
            s.active_cycle_id is None && !s.safe_mode_close_only && s.safe_mode_reason is None,
            s.next_cycle_seq == 0,
            !s.entry_ready,
            s.startup_live_replay_boundary_ts_utc is None && s.startup_replay_suppressed_bars == 0,
            s.last_processed_bar_ts is None,
    {
        HybridIntradayRuntimeStrategy {
            config,
            last_position_qty: 0,
            current_owner: None,
            current_side: None,
            pending_entry: None,
            pending_entry_request_id: None,
            pending_entry_created_ts_utc: None,
            pending_exit_request_id: None,
            pending_exit_created_ts_utc: None,
            pending_tp_request_id: None,
            pending_tp_created_ts_utc: None,
            pending_sl_request_id: None,
            pending_sl_created_ts_utc: None,
            tp_order_id: None,
            sl_stop_order_id: None,
            sl_exchange_order_id: None,
            sl_triggered_ts: None,
            has_mr_take_price: false,
            has_mr_stop_price: false,
            repair_deadline_ts: None,
            next_repair_at_ts: None,
            repair_backoff_level: 0,
            repair_attempts: 0,
            active_cycle_id: None,
            safe_mode_close_only: false,
            safe_mode_reason: None,
            next_cycle_seq: 0,
            working_orders: Vec::new(),
            working_stop_orders: Vec::new(),
            entry_ready: false,
            startup_live_replay_boundary_ts_utc: None,
            startup_replay_suppressed_bars: 0,
            last_processed_bar_ts: None,
        }
    }

    /// Whether anything of the strategy is in flight on the exchange.
    pub fn has_live_orders(&self) -> (b: bool)
        ensures
            b == spec_has_live_orders(*self),
    {
        self.pending_entry.is_some() || self.pending_entry_request_id.is_some()
            || self.pending_exit_request_id.is_some() || self.pending_tp_request_id.is_some()
            || self.pending_sl_request_id.is_some() || self.working_orders.len() > 0
            || self.working_stop_orders.len() > 0
    }

    /// The timeout for orders in flight, in seconds.
    pub fn pending_timeout_sec(&self) -> (t: i64)
        ensures
            t == spec_pending_timeout(self.config),
    {
        let v: u64 = if self.config.pending_timeout_sec < 1 {
            1
        } else {
            self.config.pending_timeout_sec
        };
        u64_to_i64(v)
    }

    /// How far behind the clock a live bar may be at start-up: the pending timeout, at
    /// least a minute.
    pub fn startup_live_replay_tolerance_sec(&self) -> (t: i64)
        ensures
            t == (if spec_pending_timeout(self.config) < 60 {
                60
            } else {
                spec_pending_timeout(self.config)
            }),
    {
        let p = self.pending_timeout_sec();
        if p < 60 {
            60
        } else {
            p
        }
    }

    /// The next cycle id for a timestamp; the sequence number moves on (wrapping).
    pub fn next_cycle_id(&mut self, ts_utc: i64) -> (id: [u8; 10])
        ensures
            id@ == spec_cycle_id(ts_utc, old(self).next_cycle_seq),
            final(self).next_cycle_seq as int == (old(self).next_cycle_seq as int + 1)
                % 0x1_0000_0000,
            *final(self) == (HybridIntradayRuntimeStrategy {
                next_cycle_seq: final(self).next_cycle_seq,
                ..*old(self)
            }),
    {
        let id = make_cycle_id(ts_utc, self.next_cycle_seq);
        self.next_cycle_seq = self.next_cycle_seq.wrapping_add(1);
        id
    }

    /// Without an active cycle, takes the cycle named by a hybrid order comment.
    pub fn ensure_active_cycle_from_comment(&mut self, comment: Option<&str>)
        ensures
            ({
                let named = match comment {
                    Some(c) => spec_comment_cycle(c@),
                    None => None,
                };
                if old(self).active_cycle_id is None && named is Some {
                    &&& final(self).active_cycle_id matches Some(id) && Some(id@) == named
                    &&& *final(self) == (HybridIntradayRuntimeStrategy {
                        active_cycle_id: final(self).active_cycle_id,
                        ..*old(self)
                    })
                } else {
                    *final(self) == *old(self)
                }
            }),
    {
        if self.active_cycle_id.is_some() {
            return;
        }
        let tag = match parse_hybrid_tag(comment) {
            Some(t) => t,
            None => {
                return;
            },
        };
        match parse_cycle_id(tag.cycle.as_str()) {
            Some(cycle) => {
                self.active_cycle_id = Some(cycle);
            },
            None => {},
        }
    }

    /// The fallback stop end: the creation time (never below zero) plus the buffer.
    pub fn stop_end_buffer_or_default(&self, created_ts_utc: i64) -> (t: i64)
        ensures
            t == spec_stop_end_default(self.config, created_ts_utc),
    {
        let base: i64 = if created_ts_utc < 0 {
            0
        } else {
            created_ts_utc
        };
        sat_add_i64(base, u64_to_i64(self.config.stop_end_buffer_sec))
    }

    /// When a protective stop created at `created_ts_utc` should expire.
    pub fn resolve_stop_end_unix_time(&self, created_ts_utc: i64) -> (t: i64)
        requires
            stop_end_computable(created_ts_utc),
        ensures
            t == spec_resolve_stop_end(self.config, created_ts_utc),
    {
        if created_ts_utc <= 0 {
            return self.stop_end_buffer_or_default(0);
        }
        let off = match fixed_offset_secs(sat_mul_i32(self.config.timezone_offset_hours, 3600)) {
            Some(v) => v,
            None => {
                return self.stop_end_buffer_or_default(created_ts_utc);
            },
        };
        let local = match shift_timestamp(created_ts_utc, off as i64) {
            Some(l) => l,
            None => {
                return self.stop_end_buffer_or_default(created_ts_utc);
            },
        };
        assert(local.day == (created_ts_utc + off) / 86400);
        let hour: u32 = if self.config.session_close_hour > 23 {
            23
        } else {
            self.config.session_close_hour
        };
        let minute: u32 = if self.config.session_close_minute > 59 {
            59
        } else {
            self.config.session_close_minute
        };
        let close_secs: u32 = hour * 3600 + minute * 60;
        let buf = u64_to_i64(self.config.stop_end_buffer_sec);
        let ghost cfg = self.config;
        let ghost day0 = local.day as int;
        let mut day: i32 = local.day;
        let mut k: u32 = 0;
        while k < 8
            invariant
                0 <= k <= 8,
                day == day0 + k,
                -1 <= day0 <= MAX_EPOCH_DAY - 9,
                -86400 < off < 86400,
                created_ts_utc > 0,
                off == spec_zone_offset(cfg),
                day0 == (created_ts_utc + off) / 86400,
                close_secs == spec_close_secs(cfg),
                buf == u64_as_i64(cfg.stop_end_buffer_sec),
                cfg == self.config,
                stop_end_scan(cfg, day0, 8, off as int, created_ts_utc) == stop_end_scan(
                    cfg,
                    day as int,
                    (8 - k) as nat,
                    off as int,
                    created_ts_utc,
                ),
            decreases 8 - k,
        {
            if self.config.weekends_off && weekday_from_monday(day) >= 6 {
                day = day + 1;
                k = k + 1;
                continue;
            }
            let ts = local_to_timestamp(LocalDateTime { day, secs: close_secs }, off);
            let e = sat_add_i64(ts, buf);
            proof {
                assert(!(cfg.weekends_off && weekday_number(day as int) >= 6));
                assert(e == clamp_i64(day * 86400 + spec_close_secs(cfg) - off + u64_as_i64(
                    cfg.stop_end_buffer_sec,
                )));
            }
            if e > created_ts_utc {
                assert(stop_end_scan(cfg, day as int, (8 - k) as nat, off as int, created_ts_utc) == e);
                return e;
            }
            day = day + 1;
            k = k + 1;
        }
        self.stop_end_buffer_or_default(created_ts_utc)
    }

    /// Forgets the bracket orders on the exchange and returns the orders that cancel them;
    /// the stop order is deleted on the side that protects `side`, when given.
    pub fn emit_cancel_all_protection(&mut self, side: Option<Side>) -> (r: Vec<CleanupIntent>)
        ensures
            r@.map_values(|c: CleanupIntent| c@) == spec_cleanup(
                old(self).tp_order_id,
                opt_chars(old(self).sl_stop_order_id),
                old(self).sl_exchange_order_id,
                match side {
                    Some(v) => Some(spec_stop_side(v)),
                    None => None,
                },
            ),
            *final(self) == (HybridIntradayRuntimeStrategy {
                tp_order_id: None,
                sl_stop_order_id: None,
                sl_exchange_order_id: None,
                ..*old(self)
            }),
    {
        let stop_side = match side {
            Some(v) => Some(stop_side_for_entry_side(v)),
            None => None,
        };
        let tp = self.tp_order_id.take();
        let sl = self.sl_stop_order_id.take();
        let ex = self.sl_exchange_order_id.take();
        cleanup_intents(tp, sl, ex, stop_side)
    }

    /// Switches to close-only safe mode for the given reason.
    pub fn enter_safe_mode(&mut self, reason: String)
        ensures
            *final(self) == (HybridIntradayRuntimeStrategy {
                safe_mode_close_only: true,
                safe_mode_reason: Some(reason),
                ..*old(self)
            }),
    {
        self.safe_mode_close_only = true;
        self.safe_mode_reason = Some(reason);
    }

    /// Forgets the bracket, its repair schedule and its price levels.
    pub fn reset_repair_tracking(&mut self)
        ensures
            *final(self) == (HybridIntradayRuntimeStrategy {
                pending_tp_request_id: None,
                pending_tp_created_ts_utc: None,
                pending_sl_request_id: None,
                pending_sl_created_ts_utc: None,
                tp_order_id: None,
                sl_stop_order_id: None,
                sl_exchange_order_id: None,
                sl_triggered_ts: None,
                has_mr_take_price: false,
                has_mr_stop_price: false,
                repair_deadline_ts: None,
                next_repair_at_ts: None,
                repair_backoff_level: 0,
                repair_attempts: 0,
                ..*old(self)
            }),
    {
        self.pending_tp_request_id = None;
        self.pending_tp_created_ts_utc = None;
        self.pending_sl_request_id = None;
        self.pending_sl_created_ts_utc = None;
        self.tp_order_id = None;
        self.sl_stop_order_id = None;
        self.sl_exchange_order_id = None;
        self.sl_triggered_ts = None;
        self.has_mr_take_price = false;
        self.has_mr_stop_price = false;
        self.repair_deadline_ts = None;
        self.next_repair_at_ts = None;
        self.repair_backoff_level = 0;
        self.repair_attempts = 0;
    }

    /// Schedules the next bracket repair with exponential backoff: the base step doubled
    /// once per earlier attempt (at most sixteen times, saturating), capped at the maximum.
    pub fn schedule_next_repair(&mut self, now_ts: i64)
        ensures
            *final(self) == spec_scheduled(*old(self), now_ts),
    {
        let power: u32 = if self.repair_backoff_level > 16 {
            16
        } else {
            self.repair_backoff_level
        };
        let factor: u64 = 1u64 << power;
        proof {
            lemma_pow2_shift(power);
        }
        let grown = sat_mul_u64(self.config.repair_backoff_base_sec, factor);
        let step: u64 = if grown < self.config.repair_backoff_max_sec {
            grown
        } else {
            self.config.repair_backoff_max_sec
        };
        self.next_repair_at_ts = Some(sat_add_i64(now_ts, u64_to_i64(step)));
        self.repair_backoff_level = if self.repair_backoff_level == u32::MAX {
            u32::MAX
        } else {
            self.repair_backoff_level + 1
        };
    }
}

/// Two to the power `k`.
pub open spec fn pow2(k: nat) -> nat
    decreases k,
{
    if k == 0 {
        1
    } else {
        2 * pow2((k - 1) as nat)
    }
}

/// The backoff step in seconds for a backoff level.
pub open spec fn spec_backoff_step(cfg: HybridIntradayRuntimeConfig, level: u32) -> int {
    let grown = clamp_u64(cfg.repair_backoff_base_sec * pow2(if level > 16 { 16 } else { level as nat }));
    if grown < cfg.repair_backoff_max_sec {
        grown
    } else {
        cfg.repair_backoff_max_sec as int
    }
}

proof fn lemma_pow2_shift(k: u32)
    requires
        k <= 16,
    ensures
        (1u64 << k) == pow2(k as nat),
{
    reveal_with_fuel(pow2, 17);
    assert((1u64 << 0u32) == 1) by (bit_vector);
    assert((1u64 << 1u32) == 2) by (bit_vector);
    assert((1u64 << 2u32) == 4) by (bit_vector);
    assert((1u64 << 3u32) == 8) by (bit_vector);
    assert((1u64 << 4u32) == 16) by (bit_vector);
    assert((1u64 << 5u32) == 32) by (bit_vector);
    assert((1u64 << 6u32) == 64) by (bit_vector);
    assert((1u64 << 7u32) == 128) by (bit_vector);
    assert((1u64 << 8u32) == 256) by (bit_vector);
    assert((1u64 << 9u32) == 512) by (bit_vector);
    assert((1u64 << 10u32) == 1024) by (bit_vector);
    assert((1u64 << 11u32) == 2048) by (bit_vector);
    assert((1u64 << 12u32) == 4096) by (bit_vector);
    assert((1u64 << 13u32) == 8192) by (bit_vector);
    assert((1u64 << 14u32) == 16384) by (bit_vector);
    assert((1u64 << 15u32) == 32768) by (bit_vector);
    assert((1u64 << 16u32) == 65536) by (bit_vector);
}

/// `s` with the next repair scheduled from `now_ts` and the backoff level raised
/// (saturating).
pub open spec fn spec_scheduled(s: HybridIntradayRuntimeStrategy, now_ts: i64) -> HybridIntradayRuntimeStrategy {
    HybridIntradayRuntimeStrategy {
        next_repair_at_ts: Some(
            clamp_i64(now_ts + u64_as_i64(spec_backoff_step(s.config, s.repair_backoff_level) as u64)) as i64,
        ),
        repair_backoff_level: (if s.repair_backoff_level == u32::MAX {
            u32::MAX as int
        } else {
            s.repair_backoff_level + 1
        }) as u32,
        ..s
    }
}

/// When an order in flight was created, for the garbage collection of stale ones: its
/// recorded time, or `now_ts` when none was recorded.
pub open spec fn created_or_now(created: Option<i64>, now_ts: i64) -> int {
    match created {
        Some(c) => c as int,
        None => now_ts as int,
    }
}

/// When the pending entry was created: its recorded time, else the time its cycle id
/// records, else `now_ts`.
pub open spec fn spec_entry_created(s: HybridIntradayRuntimeStrategy, now_ts: i64) -> int {
    match s.pending_entry_created_ts_utc {
        Some(c) => c as int,
        None => match s.pending_entry {
            Some(p) => match spec_cycle_ts(p.cycle_id@) {
                Some(t) => t,
                None => now_ts as int,
            },
            None => now_ts as int,
        },
    }
}

/// Whether an order in flight is older than the timeout at `now_ts` (saturating).
pub open spec fn spec_expired(created: int, now_ts: i64, timeout: int) -> bool {
    clamp_i64(now_ts - created) > timeout
}

/// The state after stale orders in flight are dropped at `now_ts`, when the broker is
/// flat and nothing works on the exchange: each request older than the timeout is
/// forgotten; a dropped entry also ends the cycle when the last known position was flat.
pub open spec fn spec_gc(s: HybridIntradayRuntimeStrategy, now_ts: i64) -> HybridIntradayRuntimeStrategy {
    let timeout = spec_pending_timeout(s.config);
    let entry = s.pending_entry_request_id is Some && spec_expired(
        spec_entry_created(s, now_ts),
        now_ts,
        timeout,
    );
    let exit = s.pending_exit_request_id is Some && spec_expired(
        created_or_now(s.pending_exit_created_ts_utc, now_ts),
        now_ts,
        timeout,
    );
    let tp = s.pending_tp_request_id is Some && spec_expired(
        created_or_now(s.pending_tp_created_ts_utc, now_ts),
        now_ts,
        timeout,
    );
    let sl = s.pending_sl_request_id is Some && spec_expired(
        created_or_now(s.pending_sl_created_ts_utc, now_ts),
        now_ts,
        timeout,
    );
    HybridIntradayRuntimeStrategy {
        pending_entry: if entry { None } else { s.pending_entry },
        pending_entry_request_id: if entry { None } else { s.pending_entry_request_id },
        pending_entry_created_ts_utc: if entry { None } else { s.pending_entry_created_ts_utc },
        active_cycle_id: if entry && s.last_position_qty == 0 { None } else { s.active_cycle_id },
        pending_exit_request_id: if exit { None } else { s.pending_exit_request_id },
        pending_exit_created_ts_utc: if exit { None } else { s.pending_exit_created_ts_utc },
        pending_tp_request_id: if tp { None } else { s.pending_tp_request_id },
        pending_tp_created_ts_utc: if tp { None } else { s.pending_tp_created_ts_utc },
        pending_sl_request_id: if sl { None } else { s.pending_sl_request_id },
        pending_sl_created_ts_utc: if sl { None } else { s.pending_sl_created_ts_utc },
        ..s
    }
}

/// Whether the garbage collection drops the pending entry.
pub open spec fn spec_gc_drops_entry(s: HybridIntradayRuntimeStrategy, now_ts: i64) -> bool {
    s.pending_entry_request_id is Some && spec_expired(
        spec_entry_created(s, now_ts),
        now_ts,
        spec_pending_timeout(s.config),
    )
}

/// Whether anything of an earlier run is left over: orders in flight, an owner, a side or
/// a cycle.
pub open spec fn spec_has_stale_tail(s: HybridIntradayRuntimeStrategy) -> bool {
    s.pending_entry is Some || s.pending_entry_request_id is Some || s.pending_exit_request_id
        is Some || s.pending_tp_request_id is Some || s.pending_sl_request_id is Some
        || s.current_owner is Some || s.current_side is Some || s.active_cycle_id is Some
}

/// `s` with everything of an earlier run forgotten: orders in flight, owner, side, cycle
/// and the whole bracket with its repair schedule.
pub open spec fn spec_boot_cleared(s: HybridIntradayRuntimeStrategy) -> HybridIntradayRuntimeStrategy {
    HybridIntradayRuntimeStrategy {
        pending_entry: None,
        pending_entry_request_id: None,
        pending_entry_created_ts_utc: None,
        pending_exit_request_id: None,
        pending_exit_created_ts_utc: None,
        pending_tp_request_id: None,
        pending_tp_created_ts_utc: None,
        pending_sl_request_id: None,
        pending_sl_created_ts_utc: None,
        current_owner: None,
        current_side: None,
        active_cycle_id: None,
        tp_order_id: None,
        sl_stop_order_id: None,
        sl_exchange_order_id: None,
        sl_triggered_ts: None,
        has_mr_take_price: false,
        has_mr_stop_price: false,
        repair_deadline_ts: None,
        next_repair_at_ts: None,
        repair_backoff_level: 0,
        repair_attempts: 0,
        ..s
    }
}

impl HybridIntradayRuntimeStrategy {
    /// Drops orders in flight that are older than the pending timeout, when the broker
    /// position (`position_qty`, in lots) is flat and nothing works on the exchange.
    /// Returns whether the pending entry was dropped, which the caller reports to the
    /// signal engine as a rejected entry.
    pub fn clear_stale_pending_tail(&mut self, now_ts: i64, position_qty: i64) -> (entry_dropped:
        bool)
        ensures
            spec_tail_cleared(*old(self), *final(self), now_ts, position_qty, entry_dropped),

    {
        if position_qty != 0 {
            return false;
        }
        if self.working_orders.len() > 0 || self.working_stop_orders.len() > 0 {
            return false;
        }
        let timeout = self.pending_timeout_sec();
        let ghost s0 = *self;
        let mut dropped = false;
        if self.pending_entry_request_id.is_some() {
            let created: i64 = match self.pending_entry_created_ts_utc {
                Some(c) => c,
                None => match self.pending_entry {
                    Some(p) => match cycle_ts_utc(&p.cycle_id) {
                        Some(t) => t,
                        None => now_ts,
                    },
                    None => now_ts,
                },
            };
            if sat_sub_i64(now_ts, created) > timeout {
                self.pending_entry = None;
                self.pending_entry_request_id = None;
                self.pending_entry_created_ts_utc = None;
                if self.last_position_qty == 0 {
                    self.active_cycle_id = None;
                }
                dropped = true;
            }
        }
        if self.pending_exit_request_id.is_some() {
            let created: i64 = match self.pending_exit_created_ts_utc {
                Some(c) => c,
                None => now_ts,
            };
            if sat_sub_i64(now_ts, created) > timeout {
                self.pending_exit_request_id = None;
                self.pending_exit_created_ts_utc = None;
            }
        }
        if self.pending_tp_request_id.is_some() {
            let created: i64 = match self.pending_tp_created_ts_utc {
                Some(c) => c,
                None => now_ts,
            };
            if sat_sub_i64(now_ts, created) > timeout {
                self.pending_tp_request_id = None;
                self.pending_tp_created_ts_utc = None;
            }
        }
        if self.pending_sl_request_id.is_some() {
            let created: i64 = match self.pending_sl_created_ts_utc {
                Some(c) => c,
                None => now_ts,
            };
            if sat_sub_i64(now_ts, created) > timeout {
                self.pending_sl_request_id = None;
                self.pending_sl_created_ts_utc = None;
            }
        }
        dropped
    }

    /// At start-up with a flat last position and nothing working on the exchange, forgets
    /// everything left over from an earlier run. Returns whether anything was forgotten,
    /// which the caller answers by resetting the signal engine.
    pub fn clear_boot_stale_pending_tail(&mut self) -> (cleared: bool)
        ensures
            cleared == (old(self).last_position_qty == 0 && old(self).working_orders@.len() == 0
                && old(self).working_stop_orders@.len() == 0 && spec_has_stale_tail(*old(self))),
            cleared ==> *final(self) == spec_boot_cleared(*old(self)),
            !cleared ==> *final(self) == *old(self),
    {
        if self.last_position_qty != 0 {
            return false;
        }
        if self.working_orders.len() > 0 || self.working_stop_orders.len() > 0 {
            return false;
        }
        let had_stale_tail = self.pending_entry.is_some() || self.pending_entry_request_id.is_some()
            || self.pending_exit_request_id.is_some() || self.pending_tp_request_id.is_some()
            || self.pending_sl_request_id.is_some() || self.current_owner.is_some()
            || self.current_side.is_some() || self.active_cycle_id.is_some();
        if !had_stale_tail {
            return false;
        }
        self.pending_entry = None;
        self.pending_entry_request_id = None;
        self.pending_entry_created_ts_utc = None;
        self.pending_exit_request_id = None;
        self.pending_exit_created_ts_utc = None;
        self.pending_tp_request_id = None;
        self.pending_tp_created_ts_utc = None;
        self.pending_sl_request_id = None;
        self.pending_sl_created_ts_utc = None;
        self.current_owner = None;
        self.current_side = None;
        self.active_cycle_id = None;
        self.reset_repair_tracking();
        true
    }
}

/// A market (or marketable) order that closes the whole position.
#[derive(Debug, Clone, Copy, PartialEq, Eq)]
pub struct ExitOrder {
    pub side: OrderSide,
    pub qty: u64,
    pub owner: Owner,
    pub cycle_id: [u8; 10],
}

/// The take-profit leg of the bracket; the caller prices it at the bracket's take level.
#[derive(Debug, Clone, Copy, PartialEq, Eq)]
pub struct TakeProfitOrder {
    pub side: OrderSide,
    pub qty: u64,
    pub owner: Owner,
    pub cycle_id: [u8; 10],
    pub request_id: u128,
}

/// The stop-loss leg of the bracket; the caller prices it at the bracket's stop level.
#[derive(Debug, Clone, Copy, PartialEq, Eq)]
pub struct StopLossOrder {
    pub side: OrderSide,
    pub qty: u64,
    pub condition: StopLimitCondition,
    pub stop_end_unix_time: i64,
    pub owner: Owner,
    pub cycle_id: [u8; 10],
    pub request_id: u128,
}

/// What one repair round sends: cleanup orders, an exit, and the missing bracket legs.
#[derive(Debug, Clone)]
pub struct RepairPlan {
    pub cleanup: Vec<CleanupIntent>,
    pub exit: Option<ExitOrder>,
    pub take_profit: Option<TakeProfitOrder>,
    pub stop_loss: Option<StopLossOrder>,
}

/// Which way a repair round goes.
pub enum RepairStep {
    /// No mean-reversion position: the stop trigger is forgotten.
    Clear,
    /// The stop triggered and the escalation timeout has not passed yet.
    Wait,
    /// The stop triggered long enough ago: clean up and close the position.
    Escalate,
    /// Both legs are on the exchange or in flight.
    Covered,
    /// No cycle to tag the legs with: safe mode.
    MissingCycle,
    /// The bracket's price levels are unknown: safe mode.
    MissingLevels,
    /// The repair deadline passed: close the position and go to safe mode.
    Deadline,
    /// The next repair is not due yet.
    NotYet,
    /// Orders cannot go out now: try again after the backoff.
    Defer,
    /// Too many repairs were tried: safe mode.
    Exhausted,
    /// Send the missing legs.
    Place,
}

/// Whether the take-profit leg is on the exchange or in flight.
pub open spec fn spec_has_tp(s: HybridIntradayRuntimeStrategy) -> bool {
    s.tp_order_id is Some || s.pending_tp_request_id is Some
}

/// Whether the stop-loss leg is on the exchange or in flight.
pub open spec fn spec_has_sl(s: HybridIntradayRuntimeStrategy) -> bool {
    s.sl_stop_order_id is Some || s.pending_sl_request_id is Some
}

/// The way a repair round goes for a broker position of `position_qty` lots at `now_ts`.
pub open spec fn spec_repair_step(
    s: HybridIntradayRuntimeStrategy,
    gate: LiveGate,
    paper: PaperExecutionMode,
    position_qty: i64,
    now_ts: i64,
) -> RepairStep {
    if position_qty == 0 || s.current_owner != Some(Owner::MeanReversion) {
        RepairStep::Clear
    } else if s.sl_triggered_ts is Some {
        if now_ts < clamp_i64(s.sl_triggered_ts->0 + u64_as_i64(s.config.sl_escalate_timeout_sec)) {
            RepairStep::Wait
        } else {
            RepairStep::Escalate
        }
    } else if spec_has_tp(s) && spec_has_sl(s) {
        RepairStep::Covered
    } else if s.active_cycle_id is None {
        RepairStep::MissingCycle
    } else if !s.has_mr_take_price || !s.has_mr_stop_price {
        RepairStep::MissingLevels
    } else if s.repair_deadline_ts matches Some(d) && now_ts >= d {
        RepairStep::Deadline
    } else if s.next_repair_at_ts matches Some(n) && now_ts < n {
        RepairStep::NotYet
    } else if !spec_can_execute(gate, paper, true) || gate.gateway_phase != GatewayPhase::LiveReady {
        RepairStep::Defer
    } else if s.repair_attempts >= s.config.max_repair_retries {
        RepairStep::Exhausted
    } else {
        RepairStep::Place
    }
}

/// The size of a position in lots.
pub open spec fn abs_lots(q: i64) -> int {
    if q < 0 {
        -q
    } else {
        q as int
    }
}

/// The side that closes a position of `q` lots.
pub open spec fn spec_exit_side(q: i64) -> OrderSide {
    if q >= 0 {
        OrderSide::Sell
    } else {
        OrderSide::Buy
    }
}

/// The direction of the position being repaired: the recorded one, else the broker's.
pub open spec fn spec_repair_side(s: HybridIntradayRuntimeStrategy, q: i64) -> Side {
    match s.current_side {
        Some(v) => v,
        None => if q >= 0 {
            Side::Long
        } else {
            Side::Short
        },
    }
}

/// Whether a plan sends nothing.
pub open spec fn spec_plan_empty(p: RepairPlan) -> bool {
    p.cleanup@.len() == 0 && p.exit is None && p.take_profit is None && p.stop_loss is None
}

/// Whether `f` is `s` put in close-only safe mode for the given reason.
pub open spec fn spec_safe_mode(
    s: HybridIntradayRuntimeStrategy,
    f: HybridIntradayRuntimeStrategy,
    reason: Seq<char>,
) -> bool {
    &&& f.safe_mode_reason matches Some(r) && r@ == reason
    &&& f == (HybridIntradayRuntimeStrategy {
        safe_mode_close_only: true,
        safe_mode_reason: f.safe_mode_reason,
        ..s
    })
}

fn lots_of(q: i64) -> (n: u64)
    ensures
        n == abs_lots(q),
{
    if q < 0 {
        ((-(q + 1)) as u64) + 1
    } else {
        q as u64
    }
}

impl HybridIntradayRuntimeStrategy {
    /// One round of bracket upkeep for a mean-reversion position of `position_qty` lots at
    /// `now_ts`: escalates a triggered stop after its timeout, forces an exit after the
    /// repair deadline, and otherwise re-sends missing legs with backoff and a retry limit,
    /// going to safe mode where it cannot. `tp_request_id` and `sl_request_id` are the ids
    /// the host derives for the legs at `now_ts`.
    pub fn maybe_emit_repair_intents(
        &mut self,
        gate: LiveGate,
        paper: PaperExecutionMode,
        position_qty: i64,
        now_ts: i64,
        tp_request_id: u128,
        sl_request_id: u128,
    ) -> (plan: RepairPlan)
        requires
            stop_end_computable(now_ts),
        ensures
            spec_repaired(*old(self), *final(self), gate, paper, position_qty, now_ts, tp_request_id, sl_request_id, plan),

    {
        let empty = RepairPlan {
            cleanup: Vec::new(),
            exit: None,
            take_profit: None,
            stop_loss: None,
        };
        if position_qty == 0 || self.current_owner != Some(Owner::MeanReversion) {
            self.sl_triggered_ts = None;
            return empty;
        }
        let qty = lots_of(position_qty);
        let exit_side = if position_qty >= 0 {
            OrderSide::Sell
        } else {
            OrderSide::Buy
        };
        if let Some(triggered_ts) = self.sl_triggered_ts {
            let escalate_at = sat_add_i64(
                triggered_ts,
                u64_to_i64(self.config.sl_escalate_timeout_sec),
            );
            if now_ts < escalate_at {
                return empty;
            }
            let cycle_id = match self.active_cycle_id {
                Some(a) => a,
                None => self.next_cycle_id(
                    if now_ts < 0 {
                        0
                    } else {
                        now_ts
                    },
                ),
            };
            let tp = self.tp_order_id.take();
            let ex = self.sl_exchange_order_id.take();
            let cleanup = cleanup_intents(tp, None, ex, None);
            self.sl_triggered_ts = None;
            self.enter_safe_mode(String::from_str("sl_triggered_escalation"));
            return RepairPlan {
                cleanup,
                exit: Some(
                    ExitOrder { side: exit_side, qty, owner: Owner::MeanReversion, cycle_id },
                ),
                take_profit: None,
                stop_loss: None,
            };
        }
        let has_tp = self.tp_order_id.is_some() || self.pending_tp_request_id.is_some();
        let has_sl = self.sl_stop_order_id.is_some() || self.pending_sl_request_id.is_some();
        if has_tp && has_sl {
            return empty;
        }
        let cycle_id = match self.active_cycle_id {
            Some(c) => c,
            None => {
                self.enter_safe_mode(String::from_str("repair_missing_cycle_id"));
                return empty;
            },
        };
        if !self.has_mr_take_price || !self.has_mr_stop_price {
            self.enter_safe_mode(String::from_str("repair_missing_bracket_levels"));
            return empty;
        }
        if let Some(deadline) = self.repair_deadline_ts {
            if now_ts >= deadline {
                self.enter_safe_mode(String::from_str("repair_deadline_force_flatten"));
                return RepairPlan {
                    cleanup: Vec::new(),
                    exit: Some(
                        ExitOrder { side: exit_side, qty, owner: Owner::MeanReversion, cycle_id },
                    ),
                    take_profit: None,
                    stop_loss: None,
                };
            }
        }
        if let Some(next_ts) = self.next_repair_at_ts {
            if now_ts < next_ts {
                return empty;
            }
        }
        if !can_execute_now(gate, paper, true) || gate.gateway_phase != GatewayPhase::LiveReady {
            self.schedule_next_repair(now_ts);
            return empty;
        }
        if self.repair_attempts >= self.config.max_repair_retries {
            self.enter_safe_mode(String::from_str("repair_retries_exhausted"));
            return empty;
        }
        let side = match self.current_side {
            Some(v) => v,
            None => if position_qty >= 0 {
                Side::Long
            } else {
                Side::Short
            },
        };
        let mut take_profit: Option<TakeProfitOrder> = None;
        let mut stop_loss: Option<StopLossOrder> = None;
        if !has_tp {
            take_profit = Some(
                TakeProfitOrder {
                    side: stop_side_for_entry_side(side),
                    qty,
                    owner: Owner::MeanReversion,
                    cycle_id,
                    request_id: tp_request_id,
                },
            );
            self.pending_tp_request_id = Some(tp_request_id);
            self.pending_tp_created_ts_utc = Some(now_ts);
        }
        if !has_sl {
            let stop_end = self.resolve_stop_end_unix_time(now_ts);
            stop_loss = Some(
                StopLossOrder {
                    side: stop_side_for_entry_side(side),
                    qty,
                    condition: stop_condition_for_entry_side(side),
                    stop_end_unix_time: stop_end,
                    owner: Owner::MeanReversion,
                    cycle_id,
                    request_id: sl_request_id,
                },
            );
            self.pending_sl_request_id = Some(sl_request_id);
            self.pending_sl_created_ts_utc = Some(now_ts);
        }
        self.repair_attempts = if self.repair_attempts == u32::MAX {
            u32::MAX
        } else {
            self.repair_attempts + 1
        };
        self.schedule_next_repair(now_ts);
        RepairPlan { cleanup: Vec::new(), exit: None, take_profit, stop_loss }
    }
}

proof fn lemma_split_single(x: Seq<char>, sep: char)
    requires
        forall|i: int| 0 <= i < x.len() ==> x[i] != sep,
    ensures
        split_on(x, sep) == seq![x],
    decreases x.len(),
{
    if x.len() == 0 {
        assert(x =~= Seq::<char>::empty());
    } else {
        lemma_split_single(x.drop_last(), sep);
        assert(x.drop_last().push(x.last()) =~= x);
        assert(seq![x.drop_last()].update(0, x.drop_last().push(x.last())) =~= seq![x]);
    }
}

proof fn lemma_split_append(p: Seq<char>, x: Seq<char>, sep: char)
    requires
        forall|i: int| 0 <= i < x.len() ==> x[i] != sep,
    ensures
        split_on(p + seq![sep] + x, sep) == split_on(p, sep).push(x),
    decreases x.len(),
{
    let q = p + seq![sep] + x;
    if x.len() == 0 {
        assert(q.drop_last() =~= p);
        assert(q.last() == sep);
        assert(x =~= Seq::<char>::empty());
    } else {
        let x2 = x.drop_last();
        lemma_split_append(p, x2, sep);
        assert(q.drop_last() =~= p + seq![sep] + x2);
        assert(q.last() == x.last());
        let r = split_on(p, sep);
        assert(x2.push(x.last()) =~= x);
        assert(r.push(x2).update(r.len() as int, x2.push(x.last())) =~= r.push(x));
    }
}

proof fn lemma_first_index_after(k: Seq<char>, v: Seq<char>)
    requires
        forall|i: int| 0 <= i < k.len() ==> k[i] != '=',
    ensures
        first_index(k + seq!['='] + v, '=') == k.len(),
    decreases k.len(),
{
    let s = k + seq!['='] + v;
    if k.len() > 0 {
        assert(s[0] == k[0]);
        assert(s.drop_first() =~= k.drop_first() + seq!['='] + v);
        lemma_first_index_after(k.drop_first(), v);
    } else {
        assert(s[0] == '=');
    }
}

proof fn lemma_split_once_key(k: Seq<char>, v: Seq<char>)
    requires
        forall|i: int| 0 <= i < k.len() ==> k[i] != '=',
    ensures
        split_once_eq(k + seq!['='] + v) == Some((k, v)),
{
    let s = k + seq!['='] + v;
    lemma_first_index_after(k, v);
    assert(s.take(k.len() as int) =~= k);
    assert(s.skip(k.len() as int + 1) =~= v);
}

/// Reading the comment code of an owner gives the owner back.
pub proof fn lemma_owner_code_round_trip(owner: Owner)
    ensures
        spec_owner_from_code(spec_owner_code(owner)) == Some(owner),
{
    reveal_strlit("MR");
    reveal_strlit("BO");
    assert("MR"@[0] != "BO"@[0]);
}

/// Reading the comment code of a role gives the role back.
pub proof fn lemma_role_code_round_trip(role: TagRole)
    ensures
        spec_role_from_code(spec_role_code(role)) == Some(role),
{
    reveal_strlit("ENTRY");
    reveal_strlit("TP");
    reveal_strlit("SL");
    reveal_strlit("EXIT");
    reveal_strlit("CANCEL");
    assert("TP"@ != "ENTRY"@ && "SL"@ != "ENTRY"@ && "EXIT"@ != "ENTRY"@ && "CANCEL"@ != "ENTRY"@) by {
        assert("TP"@.len() != "ENTRY"@.len());
        assert("SL"@.len() != "ENTRY"@.len());
        assert("EXIT"@.len() != "ENTRY"@.len());
        assert("CANCEL"@.len() != "ENTRY"@.len());
    }
    assert("SL"@ != "TP"@ && "EXIT"@ != "TP"@ && "CANCEL"@ != "TP"@) by {
        assert("SL"@[0] != "TP"@[0]);
        assert("EXIT"@.len() != "TP"@.len());
        assert("CANCEL"@.len() != "TP"@.len());
    }
    assert("EXIT"@ != "SL"@ && "CANCEL"@ != "SL"@) by {
        assert("EXIT"@.len() != "SL"@.len());
        assert("CANCEL"@.len() != "SL"@.len());
    }
    assert("CANCEL"@ != "EXIT"@) by {
        assert("CANCEL"@.len() != "EXIT"@.len());
    }
}

/// The comment written from an ASCII strategy id and ASCII cycle bytes is ASCII.
proof fn lemma_comment_ascii(sid: Seq<char>, cycle: Seq<u8>, owner: Owner, role: TagRole)
    requires
        vstd::utf8::is_ascii_chars(sid),
        cycle_bytes_taggable(cycle),
    ensures
        vstd::utf8::is_ascii_chars(spec_comment(sid, spec_cycle_text(cycle), owner, role)),
{
    let cyc = spec_cycle_text(cycle);
    let oc = spec_owner_code(owner);
    let rc = spec_role_code(role);
    let comment = spec_comment(sid, cyc, owner, role);
    reveal_strlit("HYB|sid=");
    reveal_strlit("|c=");
    reveal_strlit("|o=");
    reveal_strlit("|r=");
    reveal_strlit("MR");
    reveal_strlit("BO");
    reveal_strlit("ENTRY");
    reveal_strlit("TP");
    reveal_strlit("SL");
    reveal_strlit("EXIT");
    reveal_strlit("CANCEL");
    assert forall|i: int| 0 <= i < cyc.len() implies (cyc[i] as u32) < 128 by {
        assert(cyc[i] == cycle[i] as char);
    }
    assert forall|i: int| 0 <= i < comment.len() implies '\0' <= #[trigger] comment[i] <= '\u{7f}' by {
        let n1 = 8 + sid.len();
        let n2 = n1 + 3 + cyc.len();
        let n3 = n2 + 3 + oc.len();
        if i < 8 {
        } else if i < n1 {
            assert(comment[i] == sid[i - 8]);
        } else if i < n1 + 3 {
        } else if i < n2 {
            assert(comment[i] == cyc[i - n1 - 3]);
        } else if i < n2 + 3 {
        } else if i < n3 {
            assert(comment[i] == oc[i - n2 - 3]);
        } else if i < n3 + 3 {
        } else {
            assert(comment[i] == rc[i - n3 - 3]);
        }
    }
}

/// The bytes of a cycle id are ASCII and none is `|`.
pub open spec fn cycle_bytes_taggable(cycle: Seq<u8>) -> bool {
    forall|i: int| 0 <= i < cycle.len() ==> cycle[i] < 128 && cycle[i] != 124
}

/// A comment written by `build_comment` reads back as the tag it was written from: the
/// strategy id, the cycle text, the owner and the role, whenever the strategy id is ASCII
/// without `|` and the cycle bytes are ASCII without `|`.
#[verifier::spinoff_prover]
#[verifier::rlimit(60)]
pub proof fn lemma_comment_round_trip(sid: Seq<char>, cycle: Seq<u8>, owner: Owner, role: TagRole)
    requires
        vstd::utf8::is_ascii_chars(sid),
        forall|i: int| 0 <= i < sid.len() ==> sid[i] != '|',
        cycle_bytes_taggable(cycle),
    ensures
        spec_parse_tag(spec_comment(sid, spec_cycle_text(cycle), owner, role)) == Some(
            TagFields {
                sid: Some(sid),
                cycle: Some(spec_cycle_text(cycle)),
                owner: Some(owner),
                role: Some(role),
            },
        ),
{
    let cyc = spec_cycle_text(cycle);
    let oc = spec_owner_code(owner);
    let rc = spec_role_code(role);
    reveal_strlit("HYB|sid=");
    reveal_strlit("|c=");
    reveal_strlit("|o=");
    reveal_strlit("|r=");
    reveal_strlit("HYB");
    reveal_strlit("HYB|");
    reveal_strlit("sid");
    reveal_strlit("c");
    reveal_strlit("o");
    reveal_strlit("r");
    reveal_strlit("MR");
    reveal_strlit("BO");
    reveal_strlit("ENTRY");
    reveal_strlit("TP");
    reveal_strlit("SL");
    reveal_strlit("EXIT");
    reveal_strlit("CANCEL");
    lemma_owner_code_round_trip(owner);
    lemma_role_code_round_trip(role);
    let a0 = "HYB"@;
    let a1 = "sid"@ + seq!['='] + sid;
    let a2 = "c"@ + seq!['='] + cyc;
    let a3 = "o"@ + seq!['='] + oc;
    let a4 = "r"@ + seq!['='] + rc;
    let bar = seq!['|'];
    let comment = spec_comment(sid, cyc, owner, role);
    assert(comment =~= a0 + bar + a1 + bar + a2 + bar + a3 + bar + a4);
    assert forall|i: int| 0 <= i < cyc.len() implies cyc[i] != '|' && (cyc[i] as u32) < 128 by {
        assert(cyc[i] == cycle[i] as char);
    }
    assert forall|i: int| 0 <= i < a1.len() implies a1[i] != '|' by {
        if i >= 4 {
            assert(a1[i] == sid[i - 4]);
        }
    }
    assert forall|i: int| 0 <= i < a2.len() implies a2[i] != '|' by {
        if i >= 2 {
            assert(a2[i] == cyc[i - 2]);
        }
    }
    assert(forall|i: int| 0 <= i < a3.len() ==> a3[i] != '|');
    assert(forall|i: int| 0 <= i < a4.len() ==> a4[i] != '|');
    assert(forall|i: int| 0 <= i < a0.len() ==> a0[i] != '|');
    lemma_split_single(a0, '|');
    lemma_split_append(a0, a1, '|');
    lemma_split_append(a0 + bar + a1, a2, '|');
    lemma_split_append(a0 + bar + a1 + bar + a2, a3, '|');
    lemma_split_append(a0 + bar + a1 + bar + a2 + bar + a3, a4, '|');
    let parts = split_on(comment, '|');
    assert(parts =~= seq![a0, a1, a2, a3, a4]);
    let rest = parts.drop_first();
    assert(rest =~= seq![a1, a2, a3, a4]);
    lemma_split_once_key("sid"@, sid);
    lemma_split_once_key("c"@, cyc);
    lemma_split_once_key("o"@, oc);
    lemma_split_once_key("r"@, rc);
    let f0 = TagFields { sid: None, cycle: None, owner: None, role: None };
    let f1 = TagFields { sid: Some(sid), ..f0 };
    let f2 = TagFields { cycle: Some(cyc), ..f1 };
    let f3 = TagFields { owner: Some(owner), ..f2 };
    let f4 = TagFields { role: Some(role), ..f3 };
    assert(rest.take(0) =~= Seq::<Seq<char>>::empty());
    assert(rest.take(1).drop_last() =~= rest.take(0));
    assert(rest.take(2).drop_last() =~= rest.take(1));
    assert(rest.take(3).drop_last() =~= rest.take(2));
    assert(rest.take(4).drop_last() =~= rest.take(3));
    assert(fold_parts(rest.take(0)) == Some(f0));
    assert(fold_parts(rest.take(1)) == Some(f1));
    assert(fold_parts(rest.take(2)) == Some(f2));
    assert(fold_parts(rest.take(3)) == Some(f3));
    assert(fold_parts(rest.take(4)) == Some(f4));
    assert(rest.take(4) =~= rest);
    lemma_comment_ascii(sid, cycle, owner, role);
    assert(comment.subrange(0, 4) =~= "HYB|"@);
}

proof fn lemma_pow16_pos(k: int)
    ensures
        pow16(k) > 0,
    decreases k,
{
    if k > 0 {
        lemma_pow16_pos(k - 1);
    }
}

proof fn lemma_hex_byte_digit(v: int)
    requires
        0 <= v < 16,
    ensures
        is_hex_byte(hex_byte(v)),
        hex_value(hex_byte(v)) == v,
        hex_byte(v) < 128,
        hex_byte(v) != 124,
        hex_byte(v) != 43 && hex_byte(v) != 45,
{
}

/// The cycle ids that `make_cycle_id` builds are lower-case hex digits, so they can stand
/// in a comment.
pub proof fn lemma_cycle_id_taggable(ts_utc: i64, seq: u32)
    ensures
        cycle_bytes_taggable(spec_cycle_id(ts_utc, seq)),
        forall|i: int| 0 <= i < 10 ==> is_hex_byte(#[trigger] spec_cycle_id(ts_utc, seq)[i]),
{
    let id = spec_cycle_id(ts_utc, seq);
    let t = (if ts_utc < 0 { 0 } else { ts_utc as int }) % 0x1_0000_0000;
    let s = (seq as int) % 0x100;
    assert forall|i: int| 0 <= i < 10 implies id[i] < 128 && id[i] != 124 && is_hex_byte(#[trigger] id[i]) by {
        if i < 8 {
            lemma_pow16_pos(7 - i);
            lemma_hex_byte_digit((t / pow16(7 - i)) % 16);
        } else {
            lemma_pow16_pos(9 - i);
            lemma_hex_byte_digit((s / pow16(9 - i)) % 16);
        }
    }
}

proof fn lemma_hex_prefix_value(ts_utc: i64, seq: u32, k: int)
    requires
        0 <= k <= 8,
    ensures
        hex_number(spec_cycle_id(ts_utc, seq).subrange(0, k)) == ((if ts_utc < 0 {
            0
        } else {
            ts_utc as int
        }) % 0x1_0000_0000) / pow16(8 - k),
    decreases k,
{
    let id = spec_cycle_id(ts_utc, seq);
    let t = (if ts_utc < 0 { 0 } else { ts_utc as int }) % 0x1_0000_0000;
    reveal_with_fuel(pow16, 9);
    if k == 0 {
        assert(id.subrange(0, 0) =~= Seq::<u8>::empty());
        assert(pow16(8) == 0x1_0000_0000);
        assert(0 <= t < 0x1_0000_0000);
        assert(t / 0x1_0000_0000int == 0);
    } else {
        lemma_hex_prefix_value(ts_utc, seq, k - 1);
        assert(id.subrange(0, k).drop_last() =~= id.subrange(0, k - 1));
        lemma_pow16_pos(8 - k);
        let p = pow16(8 - k);
        lemma_hex_byte_digit((t / p) % 16);
        assert(pow16(9 - k) == 16 * p);
        vstd::arithmetic::div_mod::lemma_div_denominator(t, p, 16);
        vstd::arithmetic::div_mod::lemma_fundamental_div_mod(t / p, 16);
        assert(16 * p == p * 16) by (nonlinear_arith);
        assert((t / p / 16) * 16 + (t / p) % 16 == t / p) by (nonlinear_arith)
            requires
                t / p == 16 * ((t / p) / 16) + (t / p) % 16,
        ;
    }
}

/// A cycle id reads back as the timestamp it was built from: the low 32 bits of the
/// timestamp, or zero for a negative one.
pub proof fn lemma_cycle_ts_round_trip(ts_utc: i64, seq: u32)
    ensures
        spec_cycle_ts(spec_cycle_id(ts_utc, seq)) == Some(
            (if ts_utc < 0 { 0 } else { ts_utc as int }) % 0x1_0000_0000,
        ),
{
    let id = spec_cycle_id(ts_utc, seq);
    lemma_cycle_id_taggable(ts_utc, seq);
    lemma_hex_prefix_value(ts_utc, seq, 8);
    reveal_with_fuel(pow16, 1);
    let d = id.subrange(0, 8);
    assert forall|i: int| 0 <= i < 8 implies is_hex_byte(#[trigger] d[i]) by {
        assert(d[i] == id[i]);
    }
}

/// The text of a cycle id that `make_cycle_id` built reads back as the same id.
pub proof fn lemma_cycle_text_round_trip(ts_utc: i64, seq: u32)
    ensures
        spec_parse_cycle(spec_cycle_text(spec_cycle_id(ts_utc, seq))) == Some(
            spec_cycle_id(ts_utc, seq),
        ),
{
    let id = spec_cycle_id(ts_utc, seq);
    let txt = spec_cycle_text(id);
    lemma_cycle_id_taggable(ts_utc, seq);
    assert forall|i: int| 0 <= i < 10 implies is_hex_char(#[trigger] txt[i]) && '\0' <= txt[i]
        <= '\u{7f}' by {
        assert(txt[i] == id[i] as char);
        assert(is_hex_byte(id[i]));
    }
    assert(txt.map_values(|c: char| c as u8) =~= id);
}

/// Every cycle id of ten hexadecimal digit bytes reads back from its text.
pub proof fn lemma_hex_cycle_round_trip(id: Seq<u8>)
    requires
        id.len() == 10,
        forall|i: int| 0 <= i < 10 ==> is_hex_byte(#[trigger] id[i]),
    ensures
        spec_parse_cycle(spec_cycle_text(id)) == Some(id),
{
    let txt = spec_cycle_text(id);
    assert forall|i: int| 0 <= i < 10 implies is_hex_char(#[trigger] txt[i]) && '\0' <= txt[i]
        <= '\u{7f}' by {
        assert(txt[i] == id[i] as char);
        assert(is_hex_byte(id[i]));
    }
    assert(txt.map_values(|c: char| c as u8) =~= id);
}

/// A cycle text that reads as a cycle id is that id's text; a text that is not ten
/// characters long, or holds a character that is not a hexadecimal digit, reads as none.
pub proof fn lemma_parsed_cycle_formats_back(raw: Seq<char>)
    ensures
        spec_parse_cycle(raw) matches Some(id) ==> spec_cycle_text(id) == raw,
        raw.len() != 10 ==> spec_parse_cycle(raw) is None,
        (exists|i: int| 0 <= i < raw.len() && !is_hex_char(#[trigger] raw[i])) ==> spec_parse_cycle(
            raw,
        ) is None,
{
    if spec_parse_cycle(raw) is Some {
        let id = raw.map_values(|c: char| c as u8);
        assert forall|i: int| 0 <= i < 10 implies #[trigger] spec_cycle_text(id)[i] == raw[i] by {
            assert(vstd::utf8::is_ascii_chars(raw));
            assert(raw[i] <= '\u{7f}');
        }
        assert(spec_cycle_text(id) =~= raw);
    }
}

proof fn lemma_pow2_monotone(a: nat, b: nat)
    requires
        a <= b,
    ensures
        pow2(a) <= pow2(b),
        pow2(a) >= 1,
    decreases b,
{
    if b > 0 {
        if a < b {
            lemma_pow2_monotone(a, (b - 1) as nat);
        }
    }
    if a > 0 {
        lemma_pow2_monotone((a - 1) as nat, (a - 1) as nat);
    }
}

/// The repair backoff never exceeds the configured maximum and never shrinks as the
/// backoff level rises.
pub proof fn lemma_backoff_bounded_and_monotone(cfg: HybridIntradayRuntimeConfig, a: u32, b: u32)
    requires
        a <= b,
    ensures
        spec_backoff_step(cfg, a) <= cfg.repair_backoff_max_sec,
        spec_backoff_step(cfg, a) <= spec_backoff_step(cfg, b),
{
    let ka: nat = if a > 16 { 16 } else { a as nat };
    let kb: nat = if b > 16 { 16 } else { b as nat };
    lemma_pow2_monotone(ka, kb);
    let base = cfg.repair_backoff_base_sec as int;
    assert(base * pow2(ka) <= base * pow2(kb)) by (nonlinear_arith)
        requires
            base >= 0,
            pow2(ka) <= pow2(kb),
    ;
}

/// After the start-up cleanup nothing of the strategy is in flight.
pub proof fn lemma_boot_cleanup_leaves_nothing_in_flight(s: HybridIntradayRuntimeStrategy)
    requires
        s.working_orders@.len() == 0,
        s.working_stop_orders@.len() == 0,
    ensures
        !spec_has_live_orders(spec_boot_cleared(s)),
        !spec_has_stale_tail(spec_boot_cleared(s)),
{
}

/// An entry or exit order of the hybrid strategy, tagged with its comment.
#[derive(Debug, Clone)]
pub struct HybridOrder {
    pub side: OrderSide,
    pub qty: u64,
    pub cycle_id: [u8; 10],
    pub comment: String,
    pub class: crate::host::IntentClass,
}

/// Whether `f` is `s` after the cycle for an order was chosen: the active cycle, or else
/// a new one built from `ts` with the sequence number moving on.
pub open spec fn spec_cycle_chosen(
    s: HybridIntradayRuntimeStrategy,
    f_seq: u32,
    cycle: [u8; 10],
    ts: i64,
) -> bool {
    match s.active_cycle_id {
        Some(a) => cycle == a && f_seq == s.next_cycle_seq,
        None => cycle@ == spec_cycle_id(ts, s.next_cycle_seq) && f_seq as int == (
        s.next_cycle_seq as int + 1) % 0x1_0000_0000,
    }
}

impl HybridIntradayRuntimeStrategy {
    fn choose_cycle(&mut self, ts: i64) -> (c: [u8; 10])
        ensures
            spec_cycle_chosen(*old(self), final(self).next_cycle_seq, c, ts),
            *final(self) == (HybridIntradayRuntimeStrategy {
                next_cycle_seq: final(self).next_cycle_seq,
                ..*old(self)
            }),
    {
        match self.active_cycle_id {
            Some(a) => a,
            None => self.next_cycle_id(ts),
        }
    }

    /// Turns an entry signal into an order. The signal is dropped (and the caller tells
    /// the signal engine so) while the day's features are not ready, in safe mode, or when
    /// nothing may be emitted. Otherwise the entry goes out tagged with the cycle; when it
    /// may also execute, it becomes the pending entry under `request_id`, the id the host
    /// derives for it.
    pub fn submit_entry(
        &mut self,
        strategy_id: &str,
        owner: Owner,
        side: Side,
        shape: EntryShape,
        created_ts_utc: i64,
        can_emit: bool,
        can_execute: bool,
        request_id: u128,
    ) -> (r: Option<HybridOrder>)
        ensures
            spec_entry_submitted(*old(self), *final(self), strategy_id@, owner, side, shape, created_ts_utc, can_emit, can_execute, request_id, r),

    {
        if !self.entry_ready || self.safe_mode_close_only || !can_emit {
            return None;
        }
        let cycle_id = self.choose_cycle(created_ts_utc);
        if can_execute {
            self.pending_entry = Some(
                PendingEntry {
                    owner,
                    side,
                    cycle_id,
                    bracket: shape.bracket,
                    has_stop_price: shape.has_stop_price,
                    has_take_price: shape.has_take_price,
                },
            );
            self.pending_entry_request_id = Some(request_id);
            self.pending_entry_created_ts_utc = Some(created_ts_utc);
            self.active_cycle_id = Some(cycle_id);
        }
        let comment = build_comment(strategy_id, &cycle_id, owner, TagRole::Entry);
        let qty: u64 = if self.config.qty < 1 {
            1
        } else {
            self.config.qty
        };
        Some(
            HybridOrder {
                side: side_to_order_side(side),
                qty,
                cycle_id,
                comment,
                class: crate::host::IntentClass::Entry,
            },
        )
    }

    /// Turns an exit signal into an order that closes the broker position
    /// (`position_qty` lots). Nothing goes out when nothing may be emitted, while an exit
    /// is already pending, or when the position is unknown or flat. When it may also
    /// execute, the exit becomes pending under `request_id` and the owner and cycle are
    /// recorded.
    pub fn submit_exit(
        &mut self,
        strategy_id: &str,
        owner: Owner,
        created_ts_utc: i64,
        can_emit: bool,
        can_execute: bool,
        position_qty: Option<i64>,
        request_id: u128,
    ) -> (r: Option<HybridOrder>)
        ensures
            spec_exit_submitted(*old(self), *final(self), strategy_id@, owner, created_ts_utc, can_emit, can_execute, position_qty, request_id, r),

    {
        if !can_emit || self.pending_exit_request_id.is_some() {
            return None;
        }
        let q = match position_qty {
            Some(v) => v,
            None => {
                return None;
            },
        };
        if q == 0 {
            return None;
        }
        let side = if q >= 0 {
            OrderSide::Sell
        } else {
            OrderSide::Buy
        };
        let cycle_id = self.choose_cycle(created_ts_utc);
        if can_execute {
            self.active_cycle_id = Some(cycle_id);
            self.current_owner = Some(owner);
            self.pending_exit_request_id = Some(request_id);
            self.pending_exit_created_ts_utc = Some(created_ts_utc);
        }
        let comment = build_comment(strategy_id, &cycle_id, owner, TagRole::Exit);
        Some(
            HybridOrder {
                side,
                qty: lots_of(q),
                cycle_id,
                comment,
                class: crate::host::IntentClass::Exit,
            },
        )
    }
}

/// What an acknowledgement meant for the order tracking.
#[derive(Debug, Clone, Copy, PartialEq, Eq, Structural)]
pub enum AckEffect {
    /// Not an acknowledgement of a tracked request.
    Ignored,
    /// A tracked request was acknowledged; nothing else changed or the refusal only
    /// reschedules a bracket repair.
    Handled,
    /// The entry was refused: the caller tells the signal engine.
    EntryRejected,
    /// The exit was refused: the caller tells the signal engine.
    ExitRejected,
}

/// The order statuses after which an order no longer works.
pub open spec fn spec_order_done(st: Seq<char>) -> bool {
    st == "filled"@ || st == "canceled"@ || st == "cancelled"@ || st == "expired"@ || st
        == "rejected"@
}

/// The stop-order statuses that mean the stop fired.
pub open spec fn spec_stop_fired(st: Seq<char>) -> bool {
    st == "filled"@ || st == "executed"@ || st == "triggered"@ || st == "done"@ || st
        == "completed"@
}

/// The stop-order statuses that mean the stop was withdrawn.
pub open spec fn spec_stop_withdrawn(st: Seq<char>) -> bool {
    st == "canceled"@ || st == "cancelled"@ || st == "expired"@ || st == "rejected"@
}

/// Whether a comment carries the hybrid tag of the strategy.
pub open spec fn spec_ours(sid: Seq<char>, comment: Option<Seq<char>>) -> bool {
    comment matches Some(c) && spec_parse_tag(c) matches Some(f) && f.sid == Some(sid)
}

/// The role that a tagged comment names.
pub open spec fn spec_tag_role(comment: Option<Seq<char>>) -> Option<TagRole> {
    match comment {
        Some(c) => match spec_parse_tag(c) {
            Some(f) => f.role,
            None => None,
        },
        None => None,
    }
}

/// The active cycle after a tagged order was seen: the current one, or the one the comment
/// names when there was none.
pub open spec fn spec_cycle_after(
    old_cycle: Option<[u8; 10]>,
    new_cycle: Option<[u8; 10]>,
    comment: Option<Seq<char>>,
) -> bool {
    let named = match comment {
        Some(c) => spec_comment_cycle(c),
        None => None,
    };
    if old_cycle is None && named is Some {
        new_cycle matches Some(id) && Some(id@) == named
    } else {
        new_cycle == old_cycle
    }
}

/// The characters of an optional string slice.
pub open spec fn opt_text(c: Option<&str>) -> Option<Seq<char>> {
    match c {
        Some(s) => Some(s@),
        None => None,
    }
}

/// What a broker position update meant for the order tracking.
#[derive(Debug, Clone)]
pub enum PositionEffect {
    /// The position stayed open or stayed flat.
    Unchanged,
    /// The pending entry filled: the caller tells the signal engine; the bracket legs go
    /// out when the entry opens a mean-reversion bracket.
    EntryFilled {
        owner: Owner,
        side: Side,
        take_profit: Option<TakeProfitOrder>,
        stop_loss: Option<StopLossOrder>,
    },
    /// A position appeared without a pending entry: safe mode.
    RecoveredOwnerUnknown,
    /// The position closed: the caller tells the signal engine; the cleanup cancels the
    /// bracket left on the exchange.
    Exited { owner: Owner, cleanup: Vec<CleanupIntent> },
}

impl HybridIntradayRuntimeStrategy {
    /// Handles an acknowledgement. A refused entry drops the pending entry, the cycle and
    /// the bracket and enters safe mode; a refused exit drops the pending exit; a refused
    /// bracket leg drops it and reschedules the repair at the acknowledgement time.
    pub fn on_ack(&mut self, request_id: u128, status: crate::host::AckStatus, processed_ts_utc: i64) -> (e:
        AckEffect)
        ensures
            ({
                let s = *old(self);
                let f = *final(self);
                let refused = !crate::host::ack_is_positive(status);
                if s.pending_entry_request_id == Some(request_id) {
                    if refused {
                        &&& e == AckEffect::EntryRejected
                        &&& f.safe_mode_reason matches Some(r) && r@ == "entry_rejected"@
                        &&& f == (HybridIntradayRuntimeStrategy {
                            pending_entry: None,
                            pending_entry_request_id: None,
                            pending_entry_created_ts_utc: None,
                            active_cycle_id: None,
                            tp_order_id: None,
                            sl_stop_order_id: None,
                            sl_exchange_order_id: None,
                            safe_mode_close_only: true,
                            safe_mode_reason: f.safe_mode_reason,
                            ..s
                        })
                    } else {
                        e == AckEffect::Handled && f == s
                    }
                } else if s.pending_exit_request_id == Some(request_id) {
                    if refused {
                        e == AckEffect::ExitRejected && f == (HybridIntradayRuntimeStrategy {
                            pending_exit_request_id: None,
                            pending_exit_created_ts_utc: None,
                            ..s
                        })
                    } else {
                        e == AckEffect::Handled && f == s
                    }
                } else if s.pending_tp_request_id == Some(request_id) {
                    e == AckEffect::Handled && f == (if refused {
                        spec_scheduled(
                            HybridIntradayRuntimeStrategy {
                                pending_tp_request_id: None,
                                pending_tp_created_ts_utc: None,
                                ..s
                            },
                            processed_ts_utc,
                        )
                    } else {
                        s
                    })
                } else if s.pending_sl_request_id == Some(request_id) {
                    e == AckEffect::Handled && f == (if refused {
                        spec_scheduled(
                            HybridIntradayRuntimeStrategy {
                                pending_sl_request_id: None,
                                pending_sl_created_ts_utc: None,
                                ..s
                            },
                            processed_ts_utc,
                        )
                    } else {
                        s
                    })
                } else {
                    e == AckEffect::Ignored && f == s
                }
            }),
    {
        let refused = !crate::host::is_positive_ack(status);
        if self.pending_entry_request_id == Some(request_id) {
            if refused {
                self.pending_entry = None;
                self.pending_entry_request_id = None;
                self.pending_entry_created_ts_utc = None;
                self.active_cycle_id = None;
                self.tp_order_id = None;
                self.sl_stop_order_id = None;
                self.sl_exchange_order_id = None;
                self.enter_safe_mode(String::from_str("entry_rejected"));
                return AckEffect::EntryRejected;
            }
            return AckEffect::Handled;
        }
        if self.pending_exit_request_id == Some(request_id) {
            if refused {
                self.pending_exit_request_id = None;
                self.pending_exit_created_ts_utc = None;
                return AckEffect::ExitRejected;
            }
            return AckEffect::Handled;
        }
        if self.pending_tp_request_id == Some(request_id) {
            if refused {
                self.pending_tp_request_id = None;
                self.pending_tp_created_ts_utc = None;
                self.schedule_next_repair(processed_ts_utc);
            }
            return AckEffect::Handled;
        }
        if self.pending_sl_request_id == Some(request_id) {
            if refused {
                self.pending_sl_request_id = None;
                self.pending_sl_created_ts_utc = None;
                self.schedule_next_repair(processed_ts_utc);
            }
            return AckEffect::Handled;
        }
        AckEffect::Ignored
    }

    /// Handles an order update. Orders of other symbols or without the strategy's tag are
    /// ignored. A tagged order may name the active cycle; a take-profit update records the
    /// leg, and its fill deletes the stop leg (returned as cleanup); finished orders leave
    /// the working set and other orders with an id join it.
    pub fn on_order(
        &mut self,
        strategy_id: &str,
        symbol: &str,
        order_id: i64,
        status: &str,
        comment: Option<&str>,
    ) -> (r: Vec<CleanupIntent>)
        ensures
            ({
                let s = *old(self);
                let f = *final(self);
                let c = opt_text(comment);
                let st = ascii_lower_seq(status@);
                let is_tp = spec_tag_role(c) == Some(TagRole::Tp);
                let filled = st == "filled"@;
                if symbol@ != s.config.symbol@ || !spec_ours(strategy_id@, c) {
                    r@.len() == 0 && f == s
                } else {
                    &&& spec_cycle_after(s.active_cycle_id, f.active_cycle_id, c)
                    &&& f.working_orders@.to_set() == (if spec_order_done(st) {
                        s.working_orders@.to_set().remove(order_id)
                    } else if order_id > 0 {
                        s.working_orders@.to_set().insert(order_id)
                    } else {
                        s.working_orders@.to_set()
                    })
                    &&& r@.map_values(|x: CleanupIntent| x@) == (if is_tp && filled {
                        spec_cleanup(
                            None,
                            opt_chars(s.sl_stop_order_id),
                            None,
                            match s.current_side {
                                Some(v) => Some(spec_stop_side(v)),
                                None => None,
                            },
                        )
                    } else {
                        Seq::empty()
                    })
                    &&& f == (if is_tp {
                        HybridIntradayRuntimeStrategy {
                            pending_tp_request_id: None,
                            pending_tp_created_ts_utc: None,
                            tp_order_id: if spec_order_done(st) {
                                None
                            } else if order_id > 0 {
                                Some(order_id)
                            } else {
                                s.tp_order_id
                            },
                            sl_stop_order_id: if filled { None } else { s.sl_stop_order_id },
                            sl_exchange_order_id: if filled { None } else { s.sl_exchange_order_id },
                            active_cycle_id: f.active_cycle_id,
                            working_orders: f.working_orders,
                            ..s
                        }
                    } else {
                        HybridIntradayRuntimeStrategy {
                            active_cycle_id: f.active_cycle_id,
                            working_orders: f.working_orders,
                            ..s
                        }
                    })
                }
            }),
    {
        if !str_eq(symbol, self.config.symbol.as_str()) || !is_our_tag(strategy_id, comment) {
            return Vec::new();
        }
        self.ensure_active_cycle_from_comment(comment);
        let st = lowered(&chars_of(status));
        let done = chars_eq_str(&st, "filled") || chars_eq_str(&st, "canceled") || chars_eq_str(
            &st,
            "cancelled",
        ) || chars_eq_str(&st, "expired") || chars_eq_str(&st, "rejected");
        let filled = chars_eq_str(&st, "filled");
        let role = match parse_hybrid_tag(comment) {
            Some(t) => t.role,
            None => None,
        };
        let mut cleanup: Vec<CleanupIntent> = Vec::new();
        if role == Some(TagRole::Tp) {
            self.pending_tp_request_id = None;
            self.pending_tp_created_ts_utc = None;
            if order_id > 0 {
                self.tp_order_id = Some(order_id);
            }
            if filled {
                let side = match self.current_side {
                    Some(v) => Some(stop_side_for_entry_side(v)),
                    None => None,
                };
                let stop = self.sl_stop_order_id.take();
                cleanup = cleanup_intents(None, stop, None, side);
                self.sl_exchange_order_id = None;
            }
            if done {
                self.tp_order_id = None;
            }
        }
        if done {
            set_remove_id(&mut self.working_orders, order_id);
        } else if order_id > 0 {
            set_insert_id(&mut self.working_orders, order_id);
        }
        cleanup
    }

    /// Handles a stop-order update. Updates of other symbols or without the strategy's tag
    /// are ignored. A stop-loss update records the leg and its exchange order; when the
    /// stop fires it is remembered for escalation and the take-profit is cancelled
    /// (returned as cleanup); finished stops leave the working set and others join it.
    pub fn on_stop_order(
        &mut self,
        strategy_id: &str,
        symbol: &str,
        stop_order_id: &str,
        status: &str,
        comment: Option<&str>,
        exchange_order_id: Option<i64>,
        ts_utc: i64,
    ) -> (r: Vec<CleanupIntent>)
        ensures
            ({
                let s = *old(self);
                let f = *final(self);
                let c = opt_text(comment);
                let st = ascii_lower_seq(status@);
                let is_sl = spec_tag_role(c) == Some(TagRole::Sl);
                let fired = spec_stop_fired(st);
                let finished = fired || spec_stop_withdrawn(st);
                let has_id = trim_seq(stop_order_id@).len() > 0;
                if symbol@ != s.config.symbol@ || !spec_ours(strategy_id@, c) {
                    r@.len() == 0 && f == s
                } else {
                    &&& spec_cycle_after(s.active_cycle_id, f.active_cycle_id, c)
                    &&& texts(f.working_stop_orders@).to_set() == (if finished {
                        texts(s.working_stop_orders@).to_set().remove(stop_order_id@)
                    } else if has_id {
                        texts(s.working_stop_orders@).to_set().insert(stop_order_id@)
                    } else {
                        texts(s.working_stop_orders@).to_set()
                    })
                    &&& r@.map_values(|x: CleanupIntent| x@) == (if is_sl && fired {
                        spec_cleanup(s.tp_order_id, None, None, None)
                    } else {
                        Seq::empty()
                    })
                    &&& (is_sl ==> (if finished {
                        f.sl_stop_order_id is None
                    } else if has_id {
                        f.sl_stop_order_id matches Some(x) && x@ == stop_order_id@
                    } else {
                        f.sl_stop_order_id == s.sl_stop_order_id
                    }))
                    &&& f == (if is_sl {
                        HybridIntradayRuntimeStrategy {
                            pending_sl_request_id: None,
                            pending_sl_created_ts_utc: None,
                            sl_stop_order_id: f.sl_stop_order_id,
                            sl_exchange_order_id: if spec_stop_withdrawn(st) {
                                None
                            } else if exchange_order_id is Some {
                                exchange_order_id
                            } else {
                                s.sl_exchange_order_id
                            },
                            sl_triggered_ts: if fired {
                                Some(if ts_utc < 0 { 0 } else { ts_utc })
                            } else {
                                s.sl_triggered_ts
                            },
                            tp_order_id: if fired { None } else { s.tp_order_id },
                            active_cycle_id: f.active_cycle_id,
                            working_stop_orders: f.working_stop_orders,
                            ..s
                        }
                    } else {
                        HybridIntradayRuntimeStrategy {
                            active_cycle_id: f.active_cycle_id,
                            working_stop_orders: f.working_stop_orders,
                            ..s
                        }
                    })
                }
            }),
    {
        if !str_eq(symbol, self.config.symbol.as_str()) || !is_our_tag(strategy_id, comment) {
            return Vec::new();
        }
        self.ensure_active_cycle_from_comment(comment);
        let st = lowered(&chars_of(status));
        let fired = chars_eq_str(&st, "filled") || chars_eq_str(&st, "executed") || chars_eq_str(
            &st,
            "triggered",
        ) || chars_eq_str(&st, "done") || chars_eq_str(&st, "completed");
        let withdrawn = chars_eq_str(&st, "canceled") || chars_eq_str(&st, "cancelled")
            || chars_eq_str(&st, "expired") || chars_eq_str(&st, "rejected");
        let has_id = trimmed(stop_order_id).len() > 0;
        let role = match parse_hybrid_tag(comment) {
            Some(t) => t.role,
            None => None,
        };
        let mut cleanup: Vec<CleanupIntent> = Vec::new();
        if role == Some(TagRole::Sl) {
            self.pending_sl_request_id = None;
            self.pending_sl_created_ts_utc = None;
            if has_id {
                self.sl_stop_order_id = Some(String::from_str(stop_order_id));
            }
            if let Some(e) = exchange_order_id {
                self.sl_exchange_order_id = Some(e);
            }
            if fired {
                self.sl_triggered_ts = Some(
                    if ts_utc < 0 {
                        0
                    } else {
                        ts_utc
                    },
                );
                let tp = self.tp_order_id.take();
                cleanup = cleanup_intents(tp, None, None, None);
            }
            if fired || withdrawn {
                self.sl_stop_order_id = None;
            }
            if withdrawn {
                self.sl_exchange_order_id = None;
            }
        }
        if fired || withdrawn {
            set_remove_text(&mut self.working_stop_orders, stop_order_id);
        } else if has_id {
            set_insert_text(&mut self.working_stop_orders, stop_order_id);
        }
        cleanup
    }
}

impl HybridIntradayRuntimeStrategy {
    /// Handles a broker position update of `position_qty` lots at `ts_utc`. When a position
    /// opens from flat, the pending entry (if any) fills: the owner, direction and cycle are
    /// recorded, the repair schedule starts with its deadline, and a mean-reversion bracket
    /// entry sends its known legs under the host's `tp_request_id` and `sl_request_id`;
    /// without a pending entry the position's owner is unknown and the strategy goes to
    /// safe mode. When the position closes, everything of the round trip is forgotten and
    /// the bracket left on the exchange is cancelled.
    pub fn on_position(
        &mut self,
        position_qty: i64,
        ts_utc: i64,
        tp_request_id: u128,
        sl_request_id: u128,
    ) -> (r: PositionEffect)
        requires
            stop_end_computable(ts_utc),
        ensures
            final(self).last_position_qty == position_qty,
            ({
                let s = *old(self);
                let f = *final(self);
                let opened = s.last_position_qty == 0 && position_qty != 0;
                let closed = s.last_position_qty != 0 && position_qty == 0;
                if opened && s.pending_entry is Some {
                    let e = s.pending_entry->0;
                    let qty = abs_lots(position_qty) as u64;
                    let brackets = e.owner == Owner::MeanReversion && e.bracket;
                    let tp = brackets && e.has_take_price;
                    let sl = brackets && e.has_stop_price;
                    &&& r matches PositionEffect::EntryFilled { owner, side, take_profit, stop_loss }
                        && owner == e.owner && side == e.side && take_profit == (if tp {
                        Some(
                            TakeProfitOrder {
                                side: spec_stop_side(e.side),
                                qty,
                                owner: e.owner,
                                cycle_id: e.cycle_id,
                                request_id: tp_request_id,
                            },
                        )
                    } else {
                        None
                    }) && stop_loss == (if sl {
                        Some(
                            StopLossOrder {
                                side: spec_stop_side(e.side),
                                qty,
                                condition: spec_stop_condition(e.side),
                                stop_end_unix_time: spec_resolve_stop_end(s.config, ts_utc) as i64,
                                owner: e.owner,
                                cycle_id: e.cycle_id,
                                request_id: sl_request_id,
                            },
                        )
                    } else {
                        None
                    })
                    &&& f == (HybridIntradayRuntimeStrategy {
                        current_owner: Some(e.owner),
                        current_side: Some(e.side),
                        active_cycle_id: Some(e.cycle_id),
                        pending_entry: None,
                        pending_entry_request_id: None,
                        pending_entry_created_ts_utc: None,
                        repair_attempts: 0,
                        repair_backoff_level: 0,
                        next_repair_at_ts: Some(ts_utc),
                        repair_deadline_ts: Some(
                            clamp_i64(ts_utc + u64_as_i64(s.config.repair_deadline_sec)) as i64,
                        ),
                        has_mr_take_price: e.has_take_price,
                        has_mr_stop_price: e.has_stop_price,
                        pending_tp_request_id: if tp {
                            Some(tp_request_id)
                        } else {
                            s.pending_tp_request_id
                        },
                        pending_tp_created_ts_utc: if tp {
                            Some(ts_utc)
                        } else {
                            s.pending_tp_created_ts_utc
                        },
                        pending_sl_request_id: if sl {
                            Some(sl_request_id)
                        } else {
                            s.pending_sl_request_id
                        },
                        pending_sl_created_ts_utc: if sl {
                            Some(ts_utc)
                        } else {
                            s.pending_sl_created_ts_utc
                        },
                        last_position_qty: position_qty,
                        ..s
                    })
                } else if opened {
                    &&& r is RecoveredOwnerUnknown
                    &&& f.safe_mode_reason matches Some(m) && m@ == "recovered_position_owner_unknown"@
                    &&& spec_cycle_chosen(s, f.next_cycle_seq, f.active_cycle_id->0, ts_utc)
                    &&& f.active_cycle_id is Some
                    &&& f == (HybridIntradayRuntimeStrategy {
                        current_owner: None,
                        current_side: None,
                        active_cycle_id: f.active_cycle_id,
                        next_cycle_seq: f.next_cycle_seq,
                        safe_mode_close_only: true,
                        safe_mode_reason: f.safe_mode_reason,
                        last_position_qty: position_qty,
                        ..s
                    })
                } else if closed {
                    &&& r matches PositionEffect::Exited { owner, cleanup } && owner == (match s.current_owner {
                        Some(o) => o,
                        None => Owner::MeanReversion,
                    }) && cleanup@.map_values(|x: CleanupIntent| x@) == spec_cleanup(
                        s.tp_order_id,
                        opt_chars(s.sl_stop_order_id),
                        s.sl_exchange_order_id,
                        match s.current_side {
                            Some(v) => Some(spec_stop_side(v)),
                            None => None,
                        },
                    )
                    &&& f == (HybridIntradayRuntimeStrategy {
                        current_owner: None,
                        current_side: None,
                        pending_entry: None,
                        pending_entry_request_id: None,
                        pending_entry_created_ts_utc: None,
                        pending_exit_request_id: None,
                        pending_exit_created_ts_utc: None,
                        active_cycle_id: None,
                        safe_mode_close_only: false,
                        safe_mode_reason: None,
                        last_position_qty: position_qty,
                        ..spec_boot_cleared(s)
                    })
                } else {
                    r is Unchanged && f == (HybridIntradayRuntimeStrategy {
                        last_position_qty: position_qty,
                        ..s
                    })
                }
            }),
    {
        let prev = self.last_position_qty;
        if prev == 0 && position_qty != 0 {
            match self.pending_entry {
                Some(e) => {
                    self.current_owner = Some(e.owner);
                    self.current_side = Some(e.side);
                    self.active_cycle_id = Some(e.cycle_id);
                    self.pending_entry = None;
                    self.pending_entry_request_id = None;
                    self.pending_entry_created_ts_utc = None;
                    self.repair_attempts = 0;
                    self.repair_backoff_level = 0;
                    self.next_repair_at_ts = Some(ts_utc);
                    self.repair_deadline_ts = Some(
                        sat_add_i64(ts_utc, u64_to_i64(self.config.repair_deadline_sec)),
                    );
                    self.has_mr_take_price = e.has_take_price;
                    self.has_mr_stop_price = e.has_stop_price;
                    let qty = lots_of(position_qty);
                    let brackets = e.owner == Owner::MeanReversion && e.bracket;
                    let mut take_profit: Option<TakeProfitOrder> = None;
                    let mut stop_loss: Option<StopLossOrder> = None;
                    if brackets && e.has_take_price {
                        take_profit = Some(
                            TakeProfitOrder {
                                side: stop_side_for_entry_side(e.side),
                                qty,
                                owner: e.owner,
                                cycle_id: e.cycle_id,
                                request_id: tp_request_id,
                            },
                        );
                        self.pending_tp_request_id = Some(tp_request_id);
                        self.pending_tp_created_ts_utc = Some(ts_utc);
                    }
                    if brackets && e.has_stop_price {
                        let stop_end = self.resolve_stop_end_unix_time(ts_utc);
                        stop_loss = Some(
                            StopLossOrder {
                                side: stop_side_for_entry_side(e.side),
                                qty,
                                condition: stop_condition_for_entry_side(e.side),
                                stop_end_unix_time: stop_end,
                                owner: e.owner,
                                cycle_id: e.cycle_id,
                                request_id: sl_request_id,
                            },
                        );
                        self.pending_sl_request_id = Some(sl_request_id);
                        self.pending_sl_created_ts_utc = Some(ts_utc);
                    }
                    self.last_position_qty = position_qty;
                    return PositionEffect::EntryFilled { owner: e.owner, side: e.side, take_profit, stop_loss };
                },
                None => {
                    self.current_owner = None;
                    self.current_side = None;
                    if self.active_cycle_id.is_none() {
                        let id = self.next_cycle_id(ts_utc);
                        self.active_cycle_id = Some(id);
                    }
                    self.enter_safe_mode(String::from_str("recovered_position_owner_unknown"));
                    self.last_position_qty = position_qty;
                    return PositionEffect::RecoveredOwnerUnknown;
                },
            }
        }
        if prev != 0 && position_qty == 0 {
            let closing_side = self.current_side;
            let owner = match self.current_owner {
                Some(o) => o,
                None => Owner::MeanReversion,
            };
            self.current_owner = None;
            self.current_side = None;
            self.pending_entry = None;
            self.pending_entry_request_id = None;
            self.pending_entry_created_ts_utc = None;
            self.pending_exit_request_id = None;
            self.pending_exit_created_ts_utc = None;
            self.active_cycle_id = None;
            self.safe_mode_close_only = false;
            self.safe_mode_reason = None;
            self.sl_triggered_ts = None;
            let cleanup = self.emit_cancel_all_protection(closing_side);
            self.reset_repair_tracking();
            self.last_position_qty = position_qty;
            return PositionEffect::Exited { owner, cleanup };
        }
        self.last_position_qty = position_qty;
        PositionEffect::Unchanged
    }
}

impl HybridIntradayRuntimeStrategy {
    /// Disarms the start-up replay guard.
    pub fn clear_startup_replay_guard(&mut self)
        ensures
            *final(self) == (HybridIntradayRuntimeStrategy {
                startup_live_replay_boundary_ts_utc: None,
                startup_replay_suppressed_bars: 0,
                ..*old(self)
            }),
    {
        self.startup_live_replay_boundary_ts_utc = None;
        self.startup_replay_suppressed_bars = 0;
    }

    /// Arms the start-up replay guard after a restart of a live run that may send orders:
    /// bars before `now_ts_utc` minus the tolerance only warm the signal engine. Any other
    /// run disarms it.
    pub fn arm_startup_replay_guard(&mut self, live_orders_allowed: bool, now_ts_utc: i64)
        ensures
            *final(self) == (HybridIntradayRuntimeStrategy {
                startup_live_replay_boundary_ts_utc: if live_orders_allowed {
                    Some(
                        clamp_i64(
                            now_ts_utc - (if spec_pending_timeout(old(self).config) < 60 {
                                60
                            } else {
                                spec_pending_timeout(old(self).config)
                            }),
                        ) as i64,
                    )
                } else {
                    None
                },
                startup_replay_suppressed_bars: 0,
                ..*old(self)
            }),
    {
        if !live_orders_allowed {
            self.clear_startup_replay_guard();
            return;
        }
        let tolerance = self.startup_live_replay_tolerance_sec();
        self.startup_live_replay_boundary_ts_utc = Some(sat_sub_i64(now_ts_utc, tolerance));
        self.startup_replay_suppressed_bars = 0;
    }

    /// Whether a bar is held back by the start-up replay guard. Outside a live run the
    /// guard is disarmed; the first live bar at or after the boundary releases it; any
    /// other bar while it is armed is counted and held back (the caller warms the signal
    /// engine with it).
    pub fn suppress_startup_replay_bar(&mut self, live_run: bool, origin: crate::host::DataOrigin, bar_ts: i64) -> (held:
        bool)
        ensures
            spec_replay_guarded(*old(self), *final(self), live_run, origin, bar_ts, held),

    {
        if !live_run {
            self.clear_startup_replay_guard();
            return false;
        }
        let boundary = match self.startup_live_replay_boundary_ts_utc {
            Some(b) => b,
            None => {
                return false;
            },
        };
        if origin == crate::host::DataOrigin::Live && bar_ts >= boundary {
            self.clear_startup_replay_guard();
            return false;
        }
        self.startup_replay_suppressed_bars = if self.startup_replay_suppressed_bars == u32::MAX {
            u32::MAX
        } else {
            self.startup_replay_suppressed_bars + 1
        };
        true
    }
}


/// A working order of the bootstrap snapshot.
#[derive(Debug, Clone)]
pub struct BootstrapOrder {
    pub order_id: i64,
    pub symbol: String,
    pub comment: Option<String>,
}

/// A working stop order of the bootstrap snapshot.
#[derive(Debug, Clone)]
pub struct BootstrapStopOrder {
    pub stop_order_id: String,
    pub symbol: String,
    pub comment: Option<String>,
    pub exchange_order_id: Option<i64>,
}

/// Whether an order of the snapshot is the strategy's: on its symbol, with a hybrid tag of
/// its strategy id.
pub open spec fn ours(symbol: Seq<char>, sid: Seq<char>, order_symbol: String, comment: Option<String>) -> bool {
    &&& order_symbol@ == symbol
    &&& comment matches Some(c) && spec_parse_tag(c@) matches Some(f) && f.sid == Some(sid)
}

/// The text of a present comment.
pub open spec fn comment_text(comment: Option<String>) -> Seq<char> {
    match comment {
        Some(c) => c@,
        None => Seq::empty(),
    }
}

/// The owner a comment's tag names.
pub open spec fn tag_owner(c: Seq<char>) -> Option<Owner> {
    match spec_parse_tag(c) {
        Some(f) => f.owner,
        None => None,
    }
}

/// The role a comment's tag names.
pub open spec fn tag_role(c: Seq<char>) -> Option<TagRole> {
    match spec_parse_tag(c) {
        Some(f) => f.role,
        None => None,
    }
}

/// The comments of the strategy's working orders, in snapshot order.
pub open spec fn our_order_comments(os: Seq<BootstrapOrder>, symbol: Seq<char>, sid: Seq<char>) -> Seq<
    Seq<char>,
>
    decreases os.len(),
{
    if os.len() == 0 {
        Seq::empty()
    } else {
        let prev = our_order_comments(os.drop_last(), symbol, sid);
        let o = os.last();
        if ours(symbol, sid, o.symbol, o.comment) {
            prev.push(comment_text(o.comment))
        } else {
            prev
        }
    }
}

/// The comments of the strategy's working stop orders, in snapshot order.
pub open spec fn our_stop_comments(ss: Seq<BootstrapStopOrder>, symbol: Seq<char>, sid: Seq<char>) -> Seq<
    Seq<char>,
>
    decreases ss.len(),
{
    if ss.len() == 0 {
        Seq::empty()
    } else {
        let prev = our_stop_comments(ss.drop_last(), symbol, sid);
        let o = ss.last();
        if ours(symbol, sid, o.symbol, o.comment) {
            prev.push(comment_text(o.comment))
        } else {
            prev
        }
    }
}

/// The owner the tags name after `init`, taken from the first tag that names one while
/// none is known, and whether a later tag names another.
pub open spec fn owner_scan(init: Option<Owner>, cs: Seq<Seq<char>>) -> (Option<Owner>, bool)
    decreases cs.len(),
{
    if cs.len() == 0 {
        (init, false)
    } else {
        let (o, conflict) = owner_scan(init, cs.drop_last());
        let t = tag_owner(cs.last());
        if o is None {
            (t, conflict)
        } else if t is Some && t != o {
            (o, true)
        } else {
            (o, conflict)
        }
    }
}

/// The active cycle after taking, while none is active, the cycle each comment names.
pub open spec fn cycle_scan(active: Option<Seq<u8>>, cs: Seq<Seq<char>>) -> Option<Seq<u8>>
    decreases cs.len(),
{
    if cs.len() == 0 {
        active
    } else {
        let a = cycle_scan(active, cs.drop_last());
        if a is None {
            spec_comment_cycle(cs.last())
        } else {
            a
        }
    }
}

/// The last of the strategy's working orders tagged as take profit.
pub open spec fn last_tp(os: Seq<BootstrapOrder>, symbol: Seq<char>, sid: Seq<char>) -> Option<i64>
    decreases os.len(),
{
    if os.len() == 0 {
        None
    } else {
        let o = os.last();
        if ours(symbol, sid, o.symbol, o.comment) && tag_role(comment_text(o.comment)) == Some(
            TagRole::Tp,
        ) {
            Some(o.order_id)
        } else {
            last_tp(os.drop_last(), symbol, sid)
        }
    }
}

/// The last of the strategy's working stop orders tagged as stop loss: its id and its
/// exchange order.
pub open spec fn last_sl(ss: Seq<BootstrapStopOrder>, symbol: Seq<char>, sid: Seq<char>) -> Option<
    (Seq<char>, Option<i64>),
>
    decreases ss.len(),
{
    if ss.len() == 0 {
        None
    } else {
        let o = ss.last();
        if ours(symbol, sid, o.symbol, o.comment) && tag_role(comment_text(o.comment)) == Some(
            TagRole::Sl,
        ) {
            Some((o.stop_order_id@, o.exchange_order_id))
        } else {
            last_sl(ss.drop_last(), symbol, sid)
        }
    }
}

/// The ids of the strategy's working orders.
pub open spec fn our_order_ids(os: Seq<BootstrapOrder>, symbol: Seq<char>, sid: Seq<char>) -> Set<i64> {
    Set::new(
        |id: i64|
            exists|i: int|
                0 <= i < os.len() && ours(symbol, sid, (#[trigger] os[i]).symbol, os[i].comment)
                    && os[i].order_id == id,
    )
}

/// The ids of the strategy's working stop orders.
pub open spec fn our_stop_ids(ss: Seq<BootstrapStopOrder>, symbol: Seq<char>, sid: Seq<char>) -> Set<
    Seq<char>,
> {
    Set::new(
        |id: Seq<char>|
            exists|i: int|
                0 <= i < ss.len() && ours(symbol, sid, (#[trigger] ss[i]).symbol, ss[i].comment)
                    && ss[i].stop_order_id@ == id,
    )
}

/// The view of an optional cycle id.
pub open spec fn cycle_view(c: Option<[u8; 10]>) -> Option<Seq<u8>> {
    match c {
        Some(id) => Some(id@),
        None => None,
    }
}

/// The text of an optional string.
fn opt_str(c: &Option<String>) -> (r: Option<&str>)
    ensures
        match c {
            Some(x) => r matches Some(y) && y@ == x@,
            None => r is None,
        },
{
    match c {
        Some(x) => Some(x.as_str()),
        None => None,
    }
}

/// Whether two optional owners are the same.
fn same_owner(a: Option<Owner>, b: Option<Owner>) -> (r: bool)
    ensures
        r == (a == b),
{
    match (a, b) {
        (None, None) => true,
        (Some(Owner::MeanReversion), Some(Owner::MeanReversion)) => true,
        (Some(Owner::IntradayBreakout), Some(Owner::IntradayBreakout)) => true,
        _ => false,
    }
}

/// `b` is `a` with at most the working orders, the bracket's take-profit and stop-loss
/// ids, the active cycle and the safe mode changed.
pub open spec fn boot_frame(a: HybridIntradayRuntimeStrategy, b: HybridIntradayRuntimeStrategy) -> bool {
    b == (HybridIntradayRuntimeStrategy {
        working_orders: b.working_orders,
        working_stop_orders: b.working_stop_orders,
        tp_order_id: b.tp_order_id,
        sl_stop_order_id: b.sl_stop_order_id,
        sl_exchange_order_id: b.sl_exchange_order_id,
        active_cycle_id: b.active_cycle_id,
        safe_mode_close_only: b.safe_mode_close_only,
        safe_mode_reason: b.safe_mode_reason,
        ..a
    })
}

impl HybridIntradayRuntimeStrategy {
    /// Takes over the strategy's working orders of a bootstrap snapshot, in order: each is
    /// tracked, its tag may set the active cycle and the owner, a second owner switches to
    /// safe mode, and a take-profit tag records the bracket's take profit. Returns the owner.
    pub fn adopt_working_orders(
        &mut self,
        strategy_id: &str,
        orders: &Vec<BootstrapOrder>,
        owner: Option<Owner>,
    ) -> (r: Option<Owner>)
        ensures
            ({
                let cs = our_order_comments(orders@, old(self).config.symbol@, strategy_id@);
                let (o, conflict) = owner_scan(owner, cs);
                &&& r == o
                &&& boot_frame(*old(self), *final(self))
                &&& final(self).working_orders@.to_set() == old(self).working_orders@.to_set().union(
                    our_order_ids(orders@, old(self).config.symbol@, strategy_id@),
                )
                &&& final(self).working_stop_orders == old(self).working_stop_orders
                &&& final(self).tp_order_id == match last_tp(orders@, old(self).config.symbol@, strategy_id@) {
                    Some(id) => Some(id),
                    None => old(self).tp_order_id,
                }
                &&& final(self).sl_stop_order_id == old(self).sl_stop_order_id
                &&& final(self).sl_exchange_order_id == old(self).sl_exchange_order_id
                &&& cycle_view(final(self).active_cycle_id) == cycle_scan(cycle_view(old(self).active_cycle_id), cs)
                &&& final(self).safe_mode_close_only == (old(self).safe_mode_close_only || conflict)
                &&& final(self).safe_mode_reason == (if conflict {
                    final(self).safe_mode_reason
                } else {
                    old(self).safe_mode_reason
                })
                &&& conflict ==> opt_chars(final(self).safe_mode_reason) == Some(
                    "bootstrap_conflicting_owner_tags"@,
                )
            }),
    {
        let ghost s0 = *self;
        let ghost symbol = self.config.symbol@;
        let ghost sid = strategy_id@;
        let ghost os = orders@;
        let mut acc = owner;
        let ghost mut conflict = false;
        let mut i: usize = 0;
        proof {
            assert(os.take(0) =~= Seq::<BootstrapOrder>::empty());
            assert(s0.working_orders@.to_set().union(our_order_ids(os.take(0), symbol, sid)) =~= s0.working_orders@.to_set());
        }
        while i < orders.len()
            invariant
                i <= os.len(),
                os == orders@,
                symbol == self.config.symbol@,
                sid == strategy_id@,
                (acc, conflict) == owner_scan(owner, our_order_comments(os.take(i as int), symbol, sid)),
                boot_frame(s0, *self),
                self.working_orders@.to_set() == s0.working_orders@.to_set().union(
                    our_order_ids(os.take(i as int), symbol, sid),
                ),
                self.working_stop_orders == s0.working_stop_orders,
                self.tp_order_id == match last_tp(os.take(i as int), symbol, sid) {
                    Some(id) => Some(id),
                    None => s0.tp_order_id,
                },
                self.sl_stop_order_id == s0.sl_stop_order_id,
                self.sl_exchange_order_id == s0.sl_exchange_order_id,
                cycle_view(self.active_cycle_id) == cycle_scan(
                    cycle_view(s0.active_cycle_id),
                    our_order_comments(os.take(i as int), symbol, sid),
                ),
                self.safe_mode_close_only == (s0.safe_mode_close_only || conflict),
                !conflict ==> self.safe_mode_reason == s0.safe_mode_reason,
                conflict ==> opt_chars(self.safe_mode_reason) == Some("bootstrap_conflicting_owner_tags"@),
            decreases os.len() - i,
        {
            let o = &orders[i];
            let ghost prefix = os.take(i as int);
            proof {
                assert(os.take(i + 1).drop_last() =~= prefix);
                assert(os.take(i + 1).last() == os[i as int]);
            }
            let comment = opt_str(&o.comment);
            let mine = str_eq(o.symbol.as_str(), self.config.symbol.as_str()) && is_our_tag(strategy_id, comment);
            let ghost prev_cs = our_order_comments(prefix, symbol, sid);
            let ghost x = comment_text(o.comment);
            proof {
                assert(mine == ours(symbol, sid, o.symbol, o.comment));
                if mine {
                    assert(our_order_comments(os.take(i + 1), symbol, sid) == prev_cs.push(x));
                    assert(prev_cs.push(x).drop_last() =~= prev_cs);
                    assert(prev_cs.push(x).last() == x);
                    assert(comment matches Some(c) && c@ == x);
                } else {
                    assert(our_order_comments(os.take(i + 1), symbol, sid) == prev_cs);
                }
            }
            if mine {
                let ghost before = self.working_orders@.to_set();
                set_insert_id(&mut self.working_orders, o.order_id);
                self.ensure_active_cycle_from_comment(comment);
                let tag = parse_hybrid_tag(comment);
                match tag {
                    Some(t) => {
                        if acc.is_none() {
                            acc = t.owner;
                        } else if t.owner.is_some() && !same_owner(t.owner, acc) {
                            self.enter_safe_mode(String::from_str("bootstrap_conflicting_owner_tags"));
                            proof {
                                conflict = true;
                            }
                        }
                        if t.role == Some(TagRole::Tp) {
                            self.tp_order_id = Some(o.order_id);
                        }
                    },
                    None => {},
                }
                proof {
                    assert forall|id: i64| #[trigger] our_order_ids(os.take(i + 1), symbol, sid).contains(id) <==> (
                        our_order_ids(prefix, symbol, sid).contains(id) || id == o.order_id) by {
                        if our_order_ids(os.take(i + 1), symbol, sid).contains(id) {
                            let k = choose|k: int| 0 <= k < os.take(i + 1).len() && ours(symbol, sid, (#[trigger] os.take(i + 1)[k]).symbol, os.take(i + 1)[k].comment) && os.take(i + 1)[k].order_id == id;
                            if k < i {
                                assert(prefix[k] == os.take(i + 1)[k]);
                            }
                        }
                        if our_order_ids(prefix, symbol, sid).contains(id) {
                            let k = choose|k: int| 0 <= k < prefix.len() && ours(symbol, sid, (#[trigger] prefix[k]).symbol, prefix[k].comment) && prefix[k].order_id == id;
                            assert(prefix[k] == os.take(i + 1)[k]);
                        }
                        if id == o.order_id {
                            assert(os.take(i + 1)[i as int] == *o);
                        }
                    }
                    assert(self.working_orders@.to_set() =~= s0.working_orders@.to_set().union(
                        our_order_ids(os.take(i + 1), symbol, sid),
                    ));
                }
            } else {
                proof {
                    assert forall|id: i64| #[trigger] our_order_ids(os.take(i + 1), symbol, sid).contains(id) <==>
                        our_order_ids(prefix, symbol, sid).contains(id) by {
                        if our_order_ids(os.take(i + 1), symbol, sid).contains(id) {
                            let k = choose|k: int| 0 <= k < os.take(i + 1).len() && ours(symbol, sid, (#[trigger] os.take(i + 1)[k]).symbol, os.take(i + 1)[k].comment) && os.take(i + 1)[k].order_id == id;
                            if k < i {
                                assert(prefix[k] == os.take(i + 1)[k]);
                            }
                        }
                        if our_order_ids(prefix, symbol, sid).contains(id) {
                            let k = choose|k: int| 0 <= k < prefix.len() && ours(symbol, sid, (#[trigger] prefix[k]).symbol, prefix[k].comment) && prefix[k].order_id == id;
                            assert(prefix[k] == os.take(i + 1)[k]);
                        }
                    }
                    assert(our_order_ids(os.take(i + 1), symbol, sid) =~= our_order_ids(prefix, symbol, sid));
                }
            }
            i = i + 1;
        }
        proof {
            assert(os.take(os.len() as int) =~= os);
        }
        acc
    }

    /// Takes over the strategy's working stop orders of a bootstrap snapshot, in order: each
    /// is tracked, its tag may set the active cycle and the owner, a second owner switches
    /// to safe mode, and a stop-loss tag records the bracket's stop loss and its exchange
    /// order. Returns the owner.
    pub fn adopt_working_stop_orders(
        &mut self,
        strategy_id: &str,
        orders: &Vec<BootstrapStopOrder>,
        owner: Option<Owner>,
    ) -> (r: Option<Owner>)
        ensures
            ({
                let cs = our_stop_comments(orders@, old(self).config.symbol@, strategy_id@);
                let (o, conflict) = owner_scan(owner, cs);
                &&& r == o
                &&& boot_frame(*old(self), *final(self))
                &&& texts(final(self).working_stop_orders@).to_set() == texts(
                    old(self).working_stop_orders@,
                ).to_set().union(our_stop_ids(orders@, old(self).config.symbol@, strategy_id@))
                &&& final(self).working_orders == old(self).working_orders
                &&& final(self).tp_order_id == old(self).tp_order_id
                &&& match last_sl(orders@, old(self).config.symbol@, strategy_id@) {
                    Some((id, ex)) => opt_chars(final(self).sl_stop_order_id) == Some(id)
                        && final(self).sl_exchange_order_id == ex,
                    None => final(self).sl_stop_order_id == old(self).sl_stop_order_id
                        && final(self).sl_exchange_order_id == old(self).sl_exchange_order_id,
                }
                &&& cycle_view(final(self).active_cycle_id) == cycle_scan(cycle_view(old(self).active_cycle_id), cs)
                &&& final(self).safe_mode_close_only == (old(self).safe_mode_close_only || conflict)
                &&& final(self).safe_mode_reason == (if conflict {
                    final(self).safe_mode_reason
                } else {
                    old(self).safe_mode_reason
                })
                &&& conflict ==> opt_chars(final(self).safe_mode_reason) == Some(
                    "bootstrap_conflicting_owner_tags"@,
                )
            }),
    {
        let ghost s0 = *self;
        let ghost symbol = self.config.symbol@;
        let ghost sid = strategy_id@;
        let ghost os = orders@;
        let mut acc = owner;
        let ghost mut conflict = false;
        let mut i: usize = 0;
        proof {
            assert(os.take(0) =~= Seq::<BootstrapStopOrder>::empty());
            assert(texts(s0.working_stop_orders@).to_set().union(our_stop_ids(os.take(0), symbol, sid)) =~= texts(s0.working_stop_orders@).to_set());
        }
        while i < orders.len()
            invariant
                i <= os.len(),
                os == orders@,
                symbol == self.config.symbol@,
                sid == strategy_id@,
                (acc, conflict) == owner_scan(owner, our_stop_comments(os.take(i as int), symbol, sid)),
                boot_frame(s0, *self),
                texts(self.working_stop_orders@).to_set() == texts(s0.working_stop_orders@).to_set().union(
                    our_stop_ids(os.take(i as int), symbol, sid),
                ),
                self.working_orders == s0.working_orders,
                self.tp_order_id == s0.tp_order_id,
                match last_sl(os.take(i as int), symbol, sid) {
                    Some((id, ex)) => opt_chars(self.sl_stop_order_id) == Some(id)
                        && self.sl_exchange_order_id == ex,
                    None => self.sl_stop_order_id == s0.sl_stop_order_id
                        && self.sl_exchange_order_id == s0.sl_exchange_order_id,
                },
                cycle_view(self.active_cycle_id) == cycle_scan(
                    cycle_view(s0.active_cycle_id),
                    our_stop_comments(os.take(i as int), symbol, sid),
                ),
                self.safe_mode_close_only == (s0.safe_mode_close_only || conflict),
                !conflict ==> self.safe_mode_reason == s0.safe_mode_reason,
                conflict ==> opt_chars(self.safe_mode_reason) == Some("bootstrap_conflicting_owner_tags"@),
            decreases os.len() - i,
        {
            let o = &orders[i];
            let ghost prefix = os.take(i as int);
            proof {
                assert(os.take(i + 1).drop_last() =~= prefix);
                assert(os.take(i + 1).last() == os[i as int]);
            }
            let comment = opt_str(&o.comment);
            let mine = str_eq(o.symbol.as_str(), self.config.symbol.as_str()) && is_our_tag(strategy_id, comment);
            let ghost prev_cs = our_stop_comments(prefix, symbol, sid);
            let ghost x = comment_text(o.comment);
            proof {
                assert(mine == ours(symbol, sid, o.symbol, o.comment));
                if mine {
                    assert(our_stop_comments(os.take(i + 1), symbol, sid) == prev_cs.push(x));
                    assert(prev_cs.push(x).drop_last() =~= prev_cs);
                    assert(prev_cs.push(x).last() == x);
                    assert(comment matches Some(c) && c@ == x);
                } else {
                    assert(our_stop_comments(os.take(i + 1), symbol, sid) == prev_cs);
                }
            }
            if mine {
                set_insert_text(&mut self.working_stop_orders, o.stop_order_id.as_str());
                self.ensure_active_cycle_from_comment(comment);
                let tag = parse_hybrid_tag(comment);
                match tag {
                    Some(t) => {
                        if acc.is_none() {
                            acc = t.owner;
                        } else if t.owner.is_some() && !same_owner(t.owner, acc) {
                            self.enter_safe_mode(String::from_str("bootstrap_conflicting_owner_tags"));
                            proof {
                                conflict = true;
                            }
                        }
                        if t.role == Some(TagRole::Sl) {
                            self.sl_stop_order_id = Some(o.stop_order_id.clone());
                            self.sl_exchange_order_id = o.exchange_order_id;
                        }
                    },
                    None => {},
                }
                proof {
                    assert forall|id: Seq<char>| #[trigger] our_stop_ids(os.take(i + 1), symbol, sid).contains(id) <==> (
                        our_stop_ids(prefix, symbol, sid).contains(id) || id == o.stop_order_id@) by {
                        if our_stop_ids(os.take(i + 1), symbol, sid).contains(id) {
                            let k = choose|k: int| 0 <= k < os.take(i + 1).len() && ours(symbol, sid, (#[trigger] os.take(i + 1)[k]).symbol, os.take(i + 1)[k].comment) && os.take(i + 1)[k].stop_order_id@ == id;
                            if k < i {
                                assert(prefix[k] == os.take(i + 1)[k]);
                            }
                        }
                        if our_stop_ids(prefix, symbol, sid).contains(id) {
                            let k = choose|k: int| 0 <= k < prefix.len() && ours(symbol, sid, (#[trigger] prefix[k]).symbol, prefix[k].comment) && prefix[k].stop_order_id@ == id;
                            assert(prefix[k] == os.take(i + 1)[k]);
                        }
                        if id == o.stop_order_id@ {
                            assert(os.take(i + 1)[i as int] == *o);
                        }
                    }
                    assert(texts(self.working_stop_orders@).to_set() =~= texts(s0.working_stop_orders@).to_set().union(
                        our_stop_ids(os.take(i + 1), symbol, sid),
                    ));
                }
            } else {
                proof {
                    assert forall|id: Seq<char>| #[trigger] our_stop_ids(os.take(i + 1), symbol, sid).contains(id) <==>
                        our_stop_ids(prefix, symbol, sid).contains(id) by {
                        if our_stop_ids(os.take(i + 1), symbol, sid).contains(id) {
                            let k = choose|k: int| 0 <= k < os.take(i + 1).len() && ours(symbol, sid, (#[trigger] os.take(i + 1)[k]).symbol, os.take(i + 1)[k].comment) && os.take(i + 1)[k].stop_order_id@ == id;
                            if k < i {
                                assert(prefix[k] == os.take(i + 1)[k]);
                            }
                        }
                        if our_stop_ids(prefix, symbol, sid).contains(id) {
                            let k = choose|k: int| 0 <= k < prefix.len() && ours(symbol, sid, (#[trigger] prefix[k]).symbol, prefix[k].comment) && prefix[k].stop_order_id@ == id;
                            assert(prefix[k] == os.take(i + 1)[k]);
                        }
                    }
                    assert(our_stop_ids(os.take(i + 1), symbol, sid) =~= our_stop_ids(prefix, symbol, sid));
                }
            }
            i = i + 1;
        }
        proof {
            assert(os.take(os.len() as int) =~= os);
        }
        acc
    }
}


impl HybridIntradayRuntimeStrategy {
    /// Reconciles with the broker's bootstrap snapshot. The working orders and stop orders
    /// tracked, and the bracket's take profit and stop loss, are rebuilt from the strategy's
    /// own working orders (on its symbol, tagged with its strategy id), taken in order: their
    /// tags may set the active cycle and name the owner, which the strategy takes when it
    /// has none; tags naming two owners switch to safe mode. A position of `position_qty`
    /// lots is recorded; it gives the side when none is known, and when no entry is pending
    /// and no owner is known it switches to safe mode.
    pub fn on_bootstrap_snapshot(
        &mut self,
        strategy_id: &str,
        orders: &Vec<BootstrapOrder>,
        stop_orders: &Vec<BootstrapStopOrder>,
        position_qty: Option<i64>,
    )
        ensures
            ({
                let sym = old(self).config.symbol@;
                let sid = strategy_id@;
                let co = our_order_comments(orders@, sym, sid);
                let cs = our_stop_comments(stop_orders@, sym, sid);
                let (o1, c1) = owner_scan(None, co);
                let (o2, c2) = owner_scan(o1, cs);
                let owner = if old(self).current_owner is None {
                    o2
                } else {
                    old(self).current_owner
                };
                let side = match position_qty {
                    Some(q) => if old(self).current_side is None && q != 0 {
                        Some(if q > 0 { Side::Long } else { Side::Short })
                    } else {
                        old(self).current_side
                    },
                    None => old(self).current_side,
                };
                let unknown = position_qty matches Some(q) && q != 0 && old(self).pending_entry is None
                    && owner is None;
                &&& final(self).working_orders@.to_set() == our_order_ids(orders@, sym, sid)
                &&& texts(final(self).working_stop_orders@).to_set() == our_stop_ids(stop_orders@, sym, sid)
                &&& final(self).tp_order_id == last_tp(orders@, sym, sid)
                &&& match last_sl(stop_orders@, sym, sid) {
                    Some((id, ex)) => opt_chars(final(self).sl_stop_order_id) == Some(id)
                        && final(self).sl_exchange_order_id == ex,
                    None => final(self).sl_stop_order_id is None && final(self).sl_exchange_order_id is None,
                }
                &&& cycle_view(final(self).active_cycle_id) == cycle_scan(
                    cycle_scan(cycle_view(old(self).active_cycle_id), co),
                    cs,
                )
                &&& final(self).current_owner == owner
                &&& final(self).current_side == side
                &&& final(self).last_position_qty == match position_qty {
                    Some(q) => q,
                    None => old(self).last_position_qty,
                }
                &&& final(self).safe_mode_close_only == (old(self).safe_mode_close_only || c1 || c2 || unknown)
                &&& opt_chars(final(self).safe_mode_reason) == if unknown {
                    Some("bootstrap_position_owner_unknown"@)
                } else if c1 || c2 {
                    Some("bootstrap_conflicting_owner_tags"@)
                } else {
                    opt_chars(old(self).safe_mode_reason)
                }
                &&& *final(self) == (HybridIntradayRuntimeStrategy {
                    working_orders: final(self).working_orders,
                    working_stop_orders: final(self).working_stop_orders,
                    tp_order_id: final(self).tp_order_id,
                    sl_stop_order_id: final(self).sl_stop_order_id,
                    sl_exchange_order_id: final(self).sl_exchange_order_id,
                    active_cycle_id: final(self).active_cycle_id,
                    safe_mode_close_only: final(self).safe_mode_close_only,
                    safe_mode_reason: final(self).safe_mode_reason,
                    current_owner: final(self).current_owner,
                    current_side: final(self).current_side,
                    last_position_qty: final(self).last_position_qty,
                    ..*old(self)
                })
            }),
    {
        self.working_orders = Vec::new();
        self.working_stop_orders = Vec::new();
        self.tp_order_id = None;
        self.sl_stop_order_id = None;
        self.sl_exchange_order_id = None;
        proof {
            assert(self.working_orders@.to_set() =~= Set::<i64>::empty());
            assert(texts(self.working_stop_orders@).to_set() =~= Set::<Seq<char>>::empty());
        }
        let from_orders = self.adopt_working_orders(strategy_id, orders, None);
        let from_tags = self.adopt_working_stop_orders(strategy_id, stop_orders, from_orders);
        proof {
            assert(Set::<i64>::empty().union(our_order_ids(orders@, self.config.symbol@, strategy_id@))
                =~= our_order_ids(orders@, self.config.symbol@, strategy_id@));
            assert(Set::<Seq<char>>::empty().union(our_stop_ids(stop_orders@, self.config.symbol@, strategy_id@))
                =~= our_stop_ids(stop_orders@, self.config.symbol@, strategy_id@));
        }
        if self.current_owner.is_none() {
            self.current_owner = from_tags;
        }
        if let Some(q) = position_qty {
            self.last_position_qty = q;
            if self.current_side.is_none() && q != 0 {
                self.current_side = Some(if q > 0 { Side::Long } else { Side::Short });
            }
            if q != 0 && self.pending_entry.is_none() && self.current_owner.is_none() {
                self.enter_safe_mode(String::from_str("bootstrap_position_owner_unknown"));
            }
        }
    }
}


impl HybridIntradayRuntimeStrategy {
    /// After the runtime restored its persisted state: forgets a stale tail left from an
    /// earlier run when flat with nothing working, then arms the start-up replay guard for
    /// a run that may send live orders. Returns whether a tail was forgotten, which the
    /// caller answers by resetting the signal engine.
    pub fn on_runtime_state_restored(&mut self, live_orders_allowed: bool, now_ts_utc: i64) -> (cleared:
        bool)
        ensures
            ({
                let s = *old(self);
                let c = if cleared {
                    spec_boot_cleared(s)
                } else {
                    s
                };
                &&& cleared == (s.last_position_qty == 0 && s.working_orders@.len() == 0
                    && s.working_stop_orders@.len() == 0 && spec_has_stale_tail(s))
                &&& *final(self) == (HybridIntradayRuntimeStrategy {
                    startup_live_replay_boundary_ts_utc: if live_orders_allowed {
                        Some(
                            clamp_i64(
                                now_ts_utc - (if spec_pending_timeout(c.config) < 60 {
                                    60
                                } else {
                                    spec_pending_timeout(c.config)
                                }),
                            ) as i64,
                        )
                    } else {
                        None
                    },
                    startup_replay_suppressed_bars: 0,
                    ..c
                })
            }),
    {
        let cleared = self.clear_boot_stale_pending_tail();
        self.arm_startup_replay_guard(live_orders_allowed, now_ts_utc);
        cleared
    }
}

/// The persisted state of the hybrid intraday runtime that its order tracking reads back.
/// The bracket's price levels appear only as whether they are known; the day's price
/// aggregates stay with the caller, which tells whether the previous day's range is known.
#[derive(Debug, Clone)]
pub struct HybridIntradayState {
    pub active_cycle_id: Option<String>,
    pub next_cycle_seq: u32,
    pub last_position_qty: i64,
    pub current_owner: Option<Owner>,
    pub current_side: Option<Side>,
    pub pending_entry_owner: Option<Owner>,
    pub pending_entry_side: Option<Side>,
    pub pending_entry_cycle_id: Option<String>,
    pub pending_entry_request_id: Option<u128>,
    pub pending_entry_created_ts_utc: Option<i64>,
    pub pending_exit_request_id: Option<u128>,
    pub pending_exit_created_ts_utc: Option<i64>,
    pub pending_tp_request_id: Option<u128>,
    pub pending_tp_created_ts_utc: Option<i64>,
    pub pending_sl_request_id: Option<u128>,
    pub pending_sl_created_ts_utc: Option<i64>,
    pub tp_order_id: Option<i64>,
    pub sl_stop_order_id: Option<String>,
    pub sl_exchange_order_id: Option<i64>,
    pub sl_triggered_ts: Option<i64>,
    pub has_mr_take_price: bool,
    pub has_mr_stop_price: bool,
    pub repair_deadline_ts: Option<i64>,
    pub next_repair_at_ts: Option<i64>,
    pub repair_backoff_level: u32,
    pub repair_attempts: u32,
    pub safe_mode_close_only: bool,
    pub safe_mode_reason: Option<String>,
    pub entry_ready: bool,
    pub has_prev_day_range: bool,
}

/// The cycle id read back from its persisted text: none where the text is absent or does
/// not name a valid cycle.
pub open spec fn spec_restored_cycle(text: Option<String>) -> Option<Seq<u8>> {
    match text {
        Some(t) => spec_parse_cycle(t@),
        None => None,
    }
}

/// Whether an optional cycle id holds the given bytes.
pub open spec fn cycle_is(id: Option<[u8; 10]>, v: Option<Seq<u8>>) -> bool {
    match v {
        Some(b) => id matches Some(x) && x@ == b,
        None => id is None,
    }
}

fn restore_cycle(text: &Option<String>) -> (r: Option<[u8; 10]>)
    ensures
        cycle_is(r, spec_restored_cycle(*text)),
{
    match text {
        Some(t) => parse_cycle_id(t.as_str()),
        None => None,
    }
}

impl HybridIntradayRuntimeStrategy {
    /// Restores a persisted state. The order tracking, the bracket and its repair schedule
    /// and the safe mode are read back as they were; a pending entry is read back, as a
    /// plain market entry, only with its owner, direction and a valid cycle. Entries stay
    /// enabled only where the previous day's range is known; when the state had them
    /// enabled without it, the result asks the caller to resynchronize. The live working
    /// orders and the start-up replay guard are kept.
    pub fn set_state(&mut self, state: HybridIntradayState) -> (needs_resync: bool)
        ensures
            needs_resync == (state.entry_ready && !state.has_prev_day_range),
            final(self).entry_ready == (state.entry_ready && state.has_prev_day_range),
            cycle_is(final(self).active_cycle_id, spec_restored_cycle(state.active_cycle_id)),
            final(self).pending_entry == (match (
                state.pending_entry_owner,
                state.pending_entry_side,
                spec_restored_cycle(state.pending_entry_cycle_id),
            ) {
                (Some(o), Some(sd), Some(_)) => Some(PendingEntry {
                    owner: o,
                    side: sd,
                    cycle_id: final(self).pending_entry->0.cycle_id,
                    bracket: false,
                    has_stop_price: false,
                    has_take_price: false,
                }),
                _ => None,
            }),
            final(self).pending_entry matches Some(e) ==> Some(e.cycle_id@) == spec_restored_cycle(
                state.pending_entry_cycle_id,
            ),
            final(self).next_cycle_seq == state.next_cycle_seq,
            final(self).last_position_qty == state.last_position_qty,
            final(self).current_owner == state.current_owner,
            final(self).current_side == state.current_side,
            final(self).pending_entry_request_id == state.pending_entry_request_id,
            final(self).pending_entry_created_ts_utc == state.pending_entry_created_ts_utc,
            final(self).pending_exit_request_id == state.pending_exit_request_id,
            final(self).pending_exit_created_ts_utc == state.pending_exit_created_ts_utc,
            final(self).pending_tp_request_id == state.pending_tp_request_id,
            final(self).pending_tp_created_ts_utc == state.pending_tp_created_ts_utc,
            final(self).pending_sl_request_id == state.pending_sl_request_id,
            final(self).pending_sl_created_ts_utc == state.pending_sl_created_ts_utc,
            final(self).tp_order_id == state.tp_order_id,
            opt_chars(final(self).sl_stop_order_id) == opt_chars(state.sl_stop_order_id),
            final(self).sl_exchange_order_id == state.sl_exchange_order_id,
            final(self).sl_triggered_ts == state.sl_triggered_ts,
            final(self).has_mr_take_price == state.has_mr_take_price,
            final(self).has_mr_stop_price == state.has_mr_stop_price,
            final(self).repair_deadline_ts == state.repair_deadline_ts,
            final(self).next_repair_at_ts == state.next_repair_at_ts,
            final(self).repair_backoff_level == state.repair_backoff_level,
            final(self).repair_attempts == state.repair_attempts,
            final(self).safe_mode_close_only == state.safe_mode_close_only,
            opt_chars(final(self).safe_mode_reason) == opt_chars(state.safe_mode_reason),
            final(self).config == old(self).config,
            final(self).working_orders == old(self).working_orders,
            final(self).working_stop_orders == old(self).working_stop_orders,
            final(self).startup_live_replay_boundary_ts_utc == old(
                self,
            ).startup_live_replay_boundary_ts_utc,
            final(self).startup_replay_suppressed_bars == old(self).startup_replay_suppressed_bars,
    {
        self.active_cycle_id = restore_cycle(&state.active_cycle_id);
        self.next_cycle_seq = state.next_cycle_seq;
        self.last_position_qty = state.last_position_qty;
        self.current_owner = state.current_owner;
        self.current_side = state.current_side;
        let pending_cycle = restore_cycle(&state.pending_entry_cycle_id);
        self.pending_entry = match (state.pending_entry_owner, state.pending_entry_side, pending_cycle) {
            (Some(owner), Some(side), Some(cycle_id)) => Some(PendingEntry {
                owner,
                side,
                cycle_id,
                bracket: false,
                has_stop_price: false,
                has_take_price: false,
            }),
            _ => None,
        };
        self.pending_entry_request_id = state.pending_entry_request_id;
        self.pending_entry_created_ts_utc = state.pending_entry_created_ts_utc;
        self.pending_exit_request_id = state.pending_exit_request_id;
        self.pending_exit_created_ts_utc = state.pending_exit_created_ts_utc;
        self.pending_tp_request_id = state.pending_tp_request_id;
        self.pending_tp_created_ts_utc = state.pending_tp_created_ts_utc;
        self.pending_sl_request_id = state.pending_sl_request_id;
        self.pending_sl_created_ts_utc = state.pending_sl_created_ts_utc;
        self.tp_order_id = state.tp_order_id;
        self.sl_stop_order_id = state.sl_stop_order_id;
        self.sl_exchange_order_id = state.sl_exchange_order_id;
        self.sl_triggered_ts = state.sl_triggered_ts;
        self.has_mr_take_price = state.has_mr_take_price;
        self.has_mr_stop_price = state.has_mr_stop_price;
        self.repair_deadline_ts = state.repair_deadline_ts;
        self.next_repair_at_ts = state.next_repair_at_ts;
        self.repair_backoff_level = state.repair_backoff_level;
        self.repair_attempts = state.repair_attempts;
        self.safe_mode_close_only = state.safe_mode_close_only;
        self.safe_mode_reason = state.safe_mode_reason;
        self.entry_ready = state.entry_ready && state.has_prev_day_range;
        state.entry_ready && !state.has_prev_day_range
    }
}


/// `f` is `s` after an entry of `owner` on `side` with `shape` was submitted at
/// `created_ts_utc` under request `request_id`, giving order `r` (see `submit_entry`).
pub open spec fn spec_entry_submitted(
    s: HybridIntradayRuntimeStrategy,
    f: HybridIntradayRuntimeStrategy,
    strategy_id: Seq<char>,
    owner: Owner,
    side: Side,
    shape: EntryShape,
    created_ts_utc: i64,
    can_emit: bool,
    can_execute: bool,
    request_id: u128,
    r: Option<HybridOrder>,
) -> bool {
    &&& ((!s.entry_ready || s.safe_mode_close_only || !can_emit) ==> r is None
                && f == s)
    &&& ((s.entry_ready && !s.safe_mode_close_only && can_emit) ==> {
                &&& r matches Some(o) && {
                    &&& o.side == spec_order_side(side)
                    &&& o.qty == (if s.config.qty < 1 { 1 } else { s.config.qty })
                    &&& o.class == crate::host::IntentClass::Entry
                    &&& o.comment@ == spec_comment(
                        strategy_id,
                        spec_cycle_text(o.cycle_id@),
                        owner,
                        TagRole::Entry,
                    )
                    &&& spec_cycle_chosen(s, f.next_cycle_seq, o.cycle_id, created_ts_utc)
                    &&& f == (if can_execute {
                        HybridIntradayRuntimeStrategy {
                            pending_entry: Some(
                                PendingEntry {
                                    owner,
                                    side,
                                    cycle_id: o.cycle_id,
                                    bracket: shape.bracket,
                                    has_stop_price: shape.has_stop_price,
                                    has_take_price: shape.has_take_price,
                                },
                            ),
                            pending_entry_request_id: Some(request_id),
                            pending_entry_created_ts_utc: Some(created_ts_utc),
                            active_cycle_id: Some(o.cycle_id),
                            next_cycle_seq: f.next_cycle_seq,
                            ..s
                        }
                    } else {
                        HybridIntradayRuntimeStrategy {
                            next_cycle_seq: f.next_cycle_seq,
                            ..s
                        }
                    })
                }
            })
}

/// `f` is `s` after the exit of the position of `owner` was submitted at `created_ts_utc`
/// under request `request_id`, giving order `r` (see `submit_exit`).
pub open spec fn spec_exit_submitted(
    s: HybridIntradayRuntimeStrategy,
    f: HybridIntradayRuntimeStrategy,
    strategy_id: Seq<char>,
    owner: Owner,
    created_ts_utc: i64,
    can_emit: bool,
    can_execute: bool,
    position_qty: Option<i64>,
    request_id: u128,
    r: Option<HybridOrder>,
) -> bool {
    &&& ((!can_emit || s.pending_exit_request_id is Some || position_qty is None
                || position_qty == Some(0i64)) ==> r is None && f == s)
    &&& ((can_emit && s.pending_exit_request_id is None && position_qty is Some
                && position_qty->0 != 0) ==> {
                &&& r matches Some(o) && {
                    &&& o.side == spec_exit_side(position_qty->0)
                    &&& o.qty == abs_lots(position_qty->0)
                    &&& o.class == crate::host::IntentClass::Exit
                    &&& o.comment@ == spec_comment(
                        strategy_id,
                        spec_cycle_text(o.cycle_id@),
                        owner,
                        TagRole::Exit,
                    )
                    &&& spec_cycle_chosen(s, f.next_cycle_seq, o.cycle_id, created_ts_utc)
                    &&& f == (if can_execute {
                        HybridIntradayRuntimeStrategy {
                            active_cycle_id: Some(o.cycle_id),
                            current_owner: Some(owner),
                            pending_exit_request_id: Some(request_id),
                            pending_exit_created_ts_utc: Some(created_ts_utc),
                            next_cycle_seq: f.next_cycle_seq,
                            ..s
                        }
                    } else {
                        HybridIntradayRuntimeStrategy {
                            next_cycle_seq: f.next_cycle_seq,
                            ..s
                        }
                    })
                }
            })
}

/// `f` is `s` after a repair round at `now_ts` with broker quantity `position_qty`, giving
/// the plan `plan` (see `maybe_emit_repair_intents`).
pub open spec fn spec_repaired(
    s: HybridIntradayRuntimeStrategy,
    f: HybridIntradayRuntimeStrategy,
    gate: LiveGate,
    paper: PaperExecutionMode,
    position_qty: i64,
    now_ts: i64,
    tp_request_id: u128,
    sl_request_id: u128,
    plan: RepairPlan,
) -> bool {
    &&& (({
                let qty = abs_lots(position_qty);
                match spec_repair_step(s, gate, paper, position_qty, now_ts) {
                    RepairStep::Clear => spec_plan_empty(plan) && f == (HybridIntradayRuntimeStrategy {
                        sl_triggered_ts: None,
                        ..s
                    }),
                    RepairStep::Wait | RepairStep::Covered | RepairStep::NotYet => spec_plan_empty(plan)
                        && f == s,
                    RepairStep::Escalate => {
                        &&& plan.cleanup@.map_values(|c: CleanupIntent| c@) == spec_cleanup(
                            s.tp_order_id,
                            None,
                            s.sl_exchange_order_id,
                            None,
                        )
                        &&& plan.exit matches Some(e) && e.side == spec_exit_side(position_qty)
                            && e.qty == qty && e.owner == Owner::MeanReversion && (match s.active_cycle_id {
                            Some(a) => e.cycle_id == a && f.next_cycle_seq == s.next_cycle_seq,
                            None => e.cycle_id@ == spec_cycle_id(
                                if now_ts < 0 { 0 } else { now_ts },
                                s.next_cycle_seq,
                            ) && f.next_cycle_seq as int == (s.next_cycle_seq as int + 1)
                                % 0x1_0000_0000,
                        })
                        &&& plan.take_profit is None && plan.stop_loss is None
                        &&& spec_safe_mode(
                            HybridIntradayRuntimeStrategy {
                                tp_order_id: None,
                                sl_exchange_order_id: None,
                                sl_triggered_ts: None,
                                next_cycle_seq: f.next_cycle_seq,
                                ..s
                            },
                            f,
                            "sl_triggered_escalation"@,
                        )
                    },
                    RepairStep::MissingCycle => spec_plan_empty(plan) && spec_safe_mode(
                        s,
                        f,
                        "repair_missing_cycle_id"@,
                    ),
                    RepairStep::MissingLevels => spec_plan_empty(plan) && spec_safe_mode(
                        s,
                        f,
                        "repair_missing_bracket_levels"@,
                    ),
                    RepairStep::Deadline => {
                        &&& plan.cleanup@.len() == 0
                        &&& plan.exit == Some(
                            ExitOrder {
                                side: spec_exit_side(position_qty),
                                qty: qty as u64,
                                owner: Owner::MeanReversion,
                                cycle_id: s.active_cycle_id->0,
                            },
                        )
                        &&& plan.take_profit is None && plan.stop_loss is None
                        &&& spec_safe_mode(s, f, "repair_deadline_force_flatten"@)
                    },
                    RepairStep::Defer => spec_plan_empty(plan) && f == spec_scheduled(s, now_ts),
                    RepairStep::Exhausted => spec_plan_empty(plan) && spec_safe_mode(
                        s,
                        f,
                        "repair_retries_exhausted"@,
                    ),
                    RepairStep::Place => {
                        let side = spec_repair_side(s, position_qty);
                        let cycle = s.active_cycle_id->0;
                        let tp = !spec_has_tp(s);
                        let sl = !spec_has_sl(s);
                        &&& plan.cleanup@.len() == 0 && plan.exit is None
                        &&& plan.take_profit == (if tp {
                            Some(
                                TakeProfitOrder {
                                    side: spec_stop_side(side),
                                    qty: qty as u64,
                                    owner: Owner::MeanReversion,
                                    cycle_id: cycle,
                                    request_id: tp_request_id,
                                },
                            )
                        } else {
                            None
                        })
                        &&& plan.stop_loss == (if sl {
                            Some(
                                StopLossOrder {
                                    side: spec_stop_side(side),
                                    qty: qty as u64,
                                    condition: spec_stop_condition(side),
                                    stop_end_unix_time: spec_resolve_stop_end(s.config, now_ts) as i64,
                                    owner: Owner::MeanReversion,
                                    cycle_id: cycle,
                                    request_id: sl_request_id,
                                },
                            )
                        } else {
                            None
                        })
                        &&& f == spec_scheduled(
                            HybridIntradayRuntimeStrategy {
                                pending_tp_request_id: if tp {
                                    Some(tp_request_id)
                                } else {
                                    s.pending_tp_request_id
                                },
                                pending_tp_created_ts_utc: if tp {
                                    Some(now_ts)
                                } else {
                                    s.pending_tp_created_ts_utc
                                },
                                pending_sl_request_id: if sl {
                                    Some(sl_request_id)
                                } else {
                                    s.pending_sl_request_id
                                },
                                pending_sl_created_ts_utc: if sl {
                                    Some(now_ts)
                                } else {
                                    s.pending_sl_created_ts_utc
                                },
                                repair_attempts: (if s.repair_attempts == u32::MAX {
                                    u32::MAX as int
                                } else {
                                    s.repair_attempts + 1
                                }) as u32,
                                ..s
                            },
                            now_ts,
                        )
                    },
                }
            }))
}

/// `f` is `s` after stale pending requests were collected at `now_ts` with broker quantity
/// `position_qty` (see `clear_stale_pending_tail`).
pub open spec fn spec_tail_cleared(
    s: HybridIntradayRuntimeStrategy,
    f: HybridIntradayRuntimeStrategy,
    now_ts: i64,
    position_qty: i64,
    entry_dropped: bool,
) -> bool {
    &&& ((position_qty != 0 || s.working_orders@.len() > 0
                || s.working_stop_orders@.len() > 0) ==> f == s
                && !entry_dropped)
    &&& (!(position_qty != 0 || s.working_orders@.len() > 0
                || s.working_stop_orders@.len() > 0) ==> f == spec_gc(
                s,
                now_ts,
            ) && entry_dropped == spec_gc_drops_entry(s, now_ts))
}

/// `f` is `s` after the startup replay guard judged a bar at `bar_ts` of origin `origin`;
/// `held` when the bar is a replayed one the guard keeps from the model (see
/// `suppress_startup_replay_bar`).
pub open spec fn spec_replay_guarded(
    s: HybridIntradayRuntimeStrategy,
    f: HybridIntradayRuntimeStrategy,
    live_run: bool,
    origin: crate::host::DataOrigin,
    bar_ts: i64,
    held: bool,
) -> bool {
    &&& (({
                if !live_run {
                    !held && f == (HybridIntradayRuntimeStrategy {
                        startup_live_replay_boundary_ts_utc: None,
                        startup_replay_suppressed_bars: 0,
                        ..s
                    })
                } else if s.startup_live_replay_boundary_ts_utc is None {
                    !held && f == s
                } else if origin == crate::host::DataOrigin::Live && bar_ts
                    >= s.startup_live_replay_boundary_ts_utc->0 {
                    !held && f == (HybridIntradayRuntimeStrategy {
                        startup_live_replay_boundary_ts_utc: None,
                        startup_replay_suppressed_bars: 0,
                        ..s
                    })
                } else {
                    held && f == (HybridIntradayRuntimeStrategy {
                        startup_replay_suppressed_bars: (if s.startup_replay_suppressed_bars
                            == u32::MAX {
                            u32::MAX as int
                        } else {
                            s.startup_replay_suppressed_bars + 1
                        }) as u32,
                        ..s
                    })
                }
            }))
}

} // verus!
