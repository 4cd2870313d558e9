//! Feature encoding: a task as a vector of 24 fixed-point signals.
//!
//! | slots  | signal                                                        |
//! |--------|---------------------------------------------------------------|
//! | 0..8   | one-hot task kind; slot 7 is the general kind                 |
//! | 8      | number of parameters, out of 10                               |
//! | 9      | length of the primary text in characters, out of 1000         |
//! | 10     | number of words of the primary text, out of 100               |
//! | 11     | the primary text names a destructive operation                |
//! | 12     | the primary text is an unbounded bulk read                    |
//! | 13     | length of the path in characters, out of 256                  |
//! | 14     | the path has a file extension                                 |
//! | 15     | the path is absolute                                          |
//! | 16     | timeout in milliseconds, out of 300 000                       |
//! | 17..20 | unused, zero                                                  |
//! | 20     | hour of the day, out of 24                                    |
//! | 21     | day of the week, Monday = 1, out of 7                         |
//! | 22     | time elapsed of the day                                       |
//! | 23     | the day is a Saturday or Sunday                               |
//!
//! Every signal lies in `[0, 1]`; counts above their range count as the
//! range. The primary text is the text under `query`, else under `command`,
//! else under `problem`; the path is the text under `path`; the timeout is
//! the number under `timeout`, where it is written in digits alone.

use vstd::prelude::*;
use crate::clock::{
    day_of_week,
    day_of_week_spec,
    hour_of_day,
    hour_of_day_spec,
    millis_of_day,
    time_of_day_millis,
    MILLIS_PER_DAY,
};
use crate::fixed::{ratio, ratio_spec, SCALE};
use crate::payload::{Params, ParamsView};
use crate::text::{
    chars_contain,
    chars_of,
    count_words,
    find_last,
    last_index_of,
    last_index_of_in_range,
    lowercase,
    occurs_in,
    to_lower,
    to_upper,
    uppercase,
    word_count,
};

verus! {

/// Number of signals in a feature vector.
pub const FEATURE_COUNT: usize = 24;

/// Number of task-kind slots.
pub const KIND_SLOTS: usize = 8;

/// The slot of every task kind that has no slot of its own.
pub const GENERAL_SLOT: usize = 7;

/// Number of parameters that counts as `1.0`.
pub const PARAM_COUNT_RANGE: u64 = 10;

/// Length of the primary text, in characters, that counts as `1.0`.
pub const TEXT_LENGTH_RANGE: u64 = 1000;

/// Number of words of the primary text that counts as `1.0`.
pub const WORD_COUNT_RANGE: u64 = 100;

/// Length of the path, in characters, that counts as `1.0`.
pub const PATH_LENGTH_RANGE: u64 = 256;

/// Timeout, in milliseconds, that counts as `1.0`.
pub const TIMEOUT_RANGE: u64 = 300_000;

/// The slot of a task kind.
pub open spec fn kind_slot_spec(tool: Seq<char>) -> int {
    if tool == "solve"@ {
        0
    } else if tool == "analyze"@ {
        1
    } else if tool == "optimize"@ {
        2
    } else if tool == "bq"@ {
        3
    } else if tool == "query"@ {
        4
    } else if tool == "batch"@ {
        5
    } else if tool == "test"@ {
        6
    } else {
        GENERAL_SLOT as int
    }
}

/// `1.0` or `0.0`.
pub open spec fn flag(b: bool) -> int {
    if b {
        SCALE as int
    } else {
        0
    }
}

/// `n` out of `range`, counting anything above `range` as `range`.
pub open spec fn capped_share(n: int, range: int) -> int {
    ratio_spec(
        if n > range {
            range
        } else {
            n
        },
        range,
    )
}

/// The primary text of the parameters, empty where there is none.
pub open spec fn primary_text(params: ParamsView) -> Seq<char> {
    match params.text_of("query"@) {
        Some(t) => t,
        None => match params.text_of("command"@) {
            Some(t) => t,
            None => match params.text_of("problem"@) {
                Some(t) => t,
                None => Seq::empty(),
            },
        },
    }
}

/// The path among the parameters, empty where there is none.
pub open spec fn path_text(params: ParamsView) -> Seq<char> {
    match params.text_of("path"@) {
        Some(t) => t,
        None => Seq::empty(),
    }
}

/// Whether a text names a destructive operation: in upper case it contains
/// `DELETE`, `DROP` or `TRUNCATE`.
pub open spec fn is_destructive(text: Seq<char>) -> bool {
    let upper = uppercase(text);
    occurs_in(upper, "DELETE"@) || occurs_in(upper, "DROP"@) || occurs_in(upper, "TRUNCATE"@)
}

/// Whether a text is an unbounded bulk read: it contains `SELECT *` and, in
/// lower case, no `limit`.
pub open spec fn is_unbounded_read(text: Seq<char>) -> bool {
    occurs_in(text, "SELECT *"@) && !occurs_in(lowercase(text), "limit"@)
}

/// Whether a path has a file extension: a dot after the last slash, with at
/// least one character before it in the file name and one after it.
pub open spec fn has_extension(path: Seq<char>) -> bool {
    let dot = last_index_of(path, '.');
    let slash = last_index_of(path, '/');
    slash + 1 < dot < path.len() - 1
}

/// Whether a path starts with a slash.
pub open spec fn is_absolute(path: Seq<char>) -> bool {
    path.len() > 0 && path[0] == '/'
}

/// The value of a decimal digit, if the character is one.
pub open spec fn digit_value(c: char) -> Option<int> {
    if '0' <= c <= '9' {
        Some(c as int - '0' as int)
    } else {
        None
    }
}

/// Whether a text consists of at least one character, all decimal digits.
pub open spec fn all_digits(s: Seq<char>) -> bool {
    s.len() > 0 && forall|i: int| 0 <= i < s.len() ==> digit_value(#[trigger] s[i]) is Some
}

/// The number that a text of decimal digits writes.
pub open spec fn digits_value(s: Seq<char>) -> nat
    decreases s.len(),
{
    if s.len() == 0 {
        0
    } else {
        match digit_value(s.last()) {
            Some(d) => (digits_value(s.drop_last()) * 10 + d) as nat,
            None => 0,
        }
    }
}

/// The timeout among the parameters, zero where there is none that is
/// written in digits alone.
pub open spec fn timeout_millis(params: ParamsView) -> nat {
    match params.lookup("timeout"@) {
        Some(v) => if all_digits(v.json) {
            digits_value(v.json)
        } else {
            0
        },
        None => 0,
    }
}

/// The one-hot slots of the task kind.
pub open spec fn kind_signals(tool: Seq<char>) -> Seq<int> {
    Seq::new(KIND_SLOTS as nat, |i: int| flag(i == kind_slot_spec(tool)))
}

/// The twelve signals derived from the parameters.
pub open spec fn param_signals(params: ParamsView) -> Seq<int> {
    let text = primary_text(params);
    let path = path_text(params);
    seq![
        capped_share(params.count() as int, PARAM_COUNT_RANGE as int),
        capped_share(text.len() as int, TEXT_LENGTH_RANGE as int),
        capped_share(word_count(text) as int, WORD_COUNT_RANGE as int),
        flag(is_destructive(text)),
        flag(is_unbounded_read(text)),
        capped_share(path.len() as int, PATH_LENGTH_RANGE as int),
        flag(has_extension(path)),
        flag(is_absolute(path)),
        capped_share(timeout_millis(params) as int, TIMEOUT_RANGE as int),
        0,
        0,
        0,
    ]
}

/// The four signals derived from the timestamp.
pub open spec fn temporal_signals(ts: int) -> Seq<int> {
    seq![
        ratio_spec(hour_of_day_spec(ts), 24),
        ratio_spec(day_of_week_spec(ts), 7),
        ratio_spec(millis_of_day(ts), MILLIS_PER_DAY as int),
        flag(day_of_week_spec(ts) >= 6),
    ]
}

/// The feature vector of a task.
pub open spec fn encode_spec(tool: Seq<char>, params: ParamsView, ts: int) -> Seq<int> {
    kind_signals(tool) + param_signals(params) + temporal_signals(ts)
}

/// The vector has 24 signals, and a task kind without a slot of its own
/// sets the general slot and no other kind slot.
pub proof fn encoding_shape(tool: Seq<char>, params: ParamsView, ts: int)
    ensures
        encode_spec(tool, params, ts).len() == FEATURE_COUNT,
        0 <= kind_slot_spec(tool) < KIND_SLOTS,
        forall|i: int|
            0 <= i < KIND_SLOTS ==> #[trigger] encode_spec(tool, params, ts)[i] == flag(
                i == kind_slot_spec(tool),
            ),
        tool != "solve"@ && tool != "analyze"@ && tool != "optimize"@ && tool != "bq"@ && tool
            != "query"@ && tool != "batch"@ && tool != "test"@ ==> kind_slot_spec(tool)
            == GENERAL_SLOT,
{
}

/// Equal tasks have equal feature vectors.
pub proof fn encoding_deterministic(
    tool1: Seq<char>,
    params1: ParamsView,
    ts1: int,
    tool2: Seq<char>,
    params2: ParamsView,
    ts2: int,
)
    requires
        tool1 == tool2,
        params1 == params2,
        ts1 == ts2,
    ensures
        encode_spec(tool1, params1, ts1) == encode_spec(tool2, params2, ts2),
{
}

fn flag_of(b: bool) -> (r: u64)
    ensures
        r == flag(b),
        r <= SCALE,
{
    if b {
        SCALE
    } else {
        0
    }
}

fn capped(n: u64, range: u64) -> (r: u64)
    requires
        0 < range <= 1_000_000,
    ensures
        r == capped_share(n as int, range as int),
        r <= SCALE,
{
    let m = if n > range {
        range
    } else {
        n
    };
    ratio(m as u128, range as u128)
}

/// The slot of the task kind `tool`.
pub fn kind_slot(tool: &str) -> (r: usize)
    ensures
        r == kind_slot_spec(tool@),
        r < KIND_SLOTS,
{
    let t = String::from_str(tool);
    if t == String::from_str("solve") {
        0
    } else if t == String::from_str("analyze") {
        1
    } else if t == String::from_str("optimize") {
        2
    } else if t == String::from_str("bq") {
        3
    } else if t == String::from_str("query") {
        4
    } else if t == String::from_str("batch") {
        5
    } else if t == String::from_str("test") {
        6
    } else {
        GENERAL_SLOT
    }
}

/// Whether the text names a destructive operation.
pub fn names_destructive_operation(text: &str) -> (r: bool)
    ensures
        r == is_destructive(text@),
{
    let upper = to_upper(text);
    let hay = chars_of(upper.as_str());
    chars_contain(&hay, &chars_of("DELETE")) || chars_contain(&hay, &chars_of("DROP"))
        || chars_contain(&hay, &chars_of("TRUNCATE"))
}

/// Whether the text is an unbounded bulk read.
pub fn reads_without_bound(text: &str) -> (r: bool)
    ensures
        r == is_unbounded_read(text@),
{
    let hay = chars_of(text);
    if !chars_contain(&hay, &chars_of("SELECT *")) {
        return false;
    }
    let lower = to_lower(text);
    !chars_contain(&chars_of(lower.as_str()), &chars_of("limit"))
}

/// Whether the path has a file extension.
pub fn path_has_extension(path: &Vec<char>) -> (r: bool)
    ensures
        r == has_extension(path@),
{
    let n = path.len();
    proof {
        last_index_of_in_range(path@, '.');
        last_index_of_in_range(path@, '/');
    }
    match find_last(path, '.') {
        None => false,
        Some(dot) => {
            if dot + 1 >= n {
                return false;
            }
            match find_last(path, '/') {
                None => 0 < dot,
                Some(slash) => slash + 1 < dot,
            }
        },
    }
}

fn digit_of(c: char) -> (r: Option<u64>)
    ensures
        match r {
            Some(d) => digit_value(c) == Some(d as int) && d < 10,
            None => digit_value(c) is None,
        },
{
    if c == '0' {
        Some(0)
    } else if c == '1' {
        Some(1)
    } else if c == '2' {
        Some(2)
    } else if c == '3' {
        Some(3)
    } else if c == '4' {
        Some(4)
    } else if c == '5' {
        Some(5)
    } else if c == '6' {
        Some(6)
    } else if c == '7' {
        Some(7)
    } else if c == '8' {
        Some(8)
    } else if c == '9' {
        Some(9)
    } else {
        None
    }
}

/// The number that `text` writes in decimal digits, counting anything above
/// `cap` as `cap`; zero where `text` is not written in digits alone.
pub fn capped_number(text: &str, cap: u64) -> (r: u64)
    ensures
        r == if all_digits(text@) {
            if digits_value(text@) > cap {
                cap as int
            } else {
                digits_value(text@) as int
            }
        } else {
            0
        },
{
    let chars = chars_of(text);
    let n = chars.len();
    if n == 0 {
        return 0;
    }
    let mut acc: u64 = 0;
    let mut i: usize = 0;
    while i < n
        invariant
            n == chars@.len(),
            chars@ == text@,
            i <= n,
            forall|k: int| 0 <= k < i ==> digit_value(#[trigger] text@[k]) is Some,
            acc <= cap,
            acc == if digits_value(text@.take(i as int)) > cap {
                cap as int
            } else {
                digits_value(text@.take(i as int)) as int
            },
        decreases n - i,
    {
        match digit_of(chars[i]) {
            None => {
                return 0;
            },
            Some(d) => {
                proof {
                    let next = text@.take(i + 1);
                    assert(next.drop_last() =~= text@.take(i as int));
                }
                let grown: u128 = (acc as u128) * 10 + (d as u128);
                acc = if grown > cap as u128 {
                    cap
                } else {
                    grown as u64
                };
            },
        }
        i = i + 1;
    }
    assert(text@.take(n as int) =~= text@);
    acc
}

/// The signals of a vector as integers.
pub open spec fn signals(v: Seq<u64>) -> Seq<int> {
    v.map_values(|x: u64| x as int)
}

/// Whether every signal lies in `[0, 1]`.
pub open spec fn in_unit(v: Seq<u64>) -> bool {
    forall|i: int| 0 <= i < v.len() ==> #[trigger] v[i] <= SCALE
}

/// The one-hot slots of the task kind `tool`.
pub fn encode_kind(tool: &str) -> (r: Vec<u64>)
    ensures
        signals(r@) == kind_signals(tool@),
        in_unit(r@),
{
    let slot = kind_slot(tool);
    let mut out: Vec<u64> = Vec::new();
    let mut i: usize = 0;
    while i < KIND_SLOTS
        invariant
            i <= KIND_SLOTS,
            out@.len() == i,
            slot == kind_slot_spec(tool@),
            forall|k: int| 0 <= k < i ==> out@[k] == flag(k == kind_slot_spec(tool@)),
        decreases KIND_SLOTS - i,
    {
        out.push(flag_of(i == slot));
        i = i + 1;
    }
    assert(signals(out@) =~= kind_signals(tool@));
    out
}

/// The twelve signals derived from the parameters.
pub fn encode_params(params: &Params) -> (r: Vec<u64>)
    ensures
        signals(r@) == param_signals(params@),
        in_unit(r@),
{
    let empty = String::new();
    let text: &String = match params.get_text("query") {
        Some(t) => t,
        None => match params.get_text("command") {
            Some(t) => t,
            None => match params.get_text("problem") {
                Some(t) => t,
                None => &empty,
            },
        },
    };
    let path: &String = match params.get_text("path") {
        Some(t) => t,
        None => &empty,
    };
    let timeout: u64 = match params.get("timeout") {
        Some(v) => capped_number(v.json.as_str(), TIMEOUT_RANGE),
        None => 0,
    };
    let text_chars = chars_of(text.as_str());
    let path_chars = chars_of(path.as_str());
    let s0 = capped(params.count() as u64, PARAM_COUNT_RANGE);
    let s1 = capped(text_chars.len() as u64, TEXT_LENGTH_RANGE);
    let s2 = capped(count_words(text.as_str()) as u64, WORD_COUNT_RANGE);
    let s3 = flag_of(names_destructive_operation(text.as_str()));
    let s4 = flag_of(reads_without_bound(text.as_str()));
    let s5 = capped(path_chars.len() as u64, PATH_LENGTH_RANGE);
    let s6 = flag_of(path_has_extension(&path_chars));
    let s7 = flag_of(path_chars.len() > 0 && path_chars[0] == '/');
    let s8 = capped(timeout, TIMEOUT_RANGE);
    let mut out: Vec<u64> = Vec::new();
    out.push(s0);
    out.push(s1);
    out.push(s2);
    out.push(s3);
    out.push(s4);
    out.push(s5);
    out.push(s6);
    out.push(s7);
    out.push(s8);
    out.push(0);
    out.push(0);
    out.push(0);
    assert(signals(out@) =~= param_signals(params@));
    out
}

/// The four signals derived from the timestamp.
pub fn encode_time(timestamp_ms: i64) -> (r: Vec<u64>)
    ensures
        signals(r@) == temporal_signals(timestamp_ms as int),
        in_unit(r@),
{
    let hour = hour_of_day(timestamp_ms);
    let day = day_of_week(timestamp_ms);
    let of_day = time_of_day_millis(timestamp_ms);
    let s0 = ratio(hour as u128, 24);
    let s1 = ratio(day as u128, 7);
    let s2 = ratio(of_day as u128, MILLIS_PER_DAY as u128);
    let s3 = flag_of(day >= 6);
    let mut out: Vec<u64> = Vec::new();
    out.push(s0);
    out.push(s1);
    out.push(s2);
    out.push(s3);
    out
}

/// Encodes a task as its feature vector.
pub fn encode(tool: &str, params: &Params, timestamp_ms: i64) -> (r: Vec<u64>)
    ensures
        r@.len() == FEATURE_COUNT,
        signals(r@) == encode_spec(tool@, params@, timestamp_ms as int),
        in_unit(r@),
{
    let mut out = encode_kind(tool);
    let mut middle = encode_params(params);
    let mut tail = encode_time(timestamp_ms);
    let ghost a = out@;
    let ghost b = middle@;
    let ghost c = tail@;
    out.append(&mut middle);
    out.append(&mut tail);
    proof {
        assert(signals(a).len() == 8);
        assert(signals(b).len() == 12);
        assert(signals(c).len() == 4);
    }
    out
}

} // verus!
