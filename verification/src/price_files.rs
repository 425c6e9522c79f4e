use vstd::prelude::*;
use crate::history::{normalize_history_timestamp_ms, spec_normalize_ts};
use crate::startup::{is_unicode_whitespace, is_whitespace_char};
use crate::text::{ascii_lower, chars_of, string_from_chars, to_ascii_lowercase};

verus! {

broadcast use vstd::string::group_string_axioms;

// ---------------------------------------------------------------------------
// Which daily files are read
// ---------------------------------------------------------------------------

/// The UTC calendar date of a Unix time in milliseconds, written
/// `YYYY-MM-DD` as chrono formats it; none where chrono has no date for it.
pub uninterp spec fn utc_date_text(ms: i64) -> Option<Seq<char>>;

/// Calls chrono's `DateTime::<Utc>::from_timestamp_millis` and formats the
/// date it gives with `%Y-%m-%d`. Claims that the text depends on `ms` alone
/// (it is named `utc_date_text`) and that there is none exactly when chrono
/// has no date for `ms`; what the digits are is left unsaid.
#[verifier::external_body]
fn format_utc_date(ms: i64) -> (s: Option<String>)
    ensures
        match s {
            Some(t) => utc_date_text(ms) == Some(t@),
            None => utc_date_text(ms) is None,
        },
{
    chrono::DateTime::from_timestamp_millis(ms).map(|d| d.format("%Y-%m-%d").to_string())
}

/// Name of the price file of the UTC day that holds `day_ms`:
/// `prices_YYYY-MM-DD.csv`.
pub open spec fn spec_price_file_name(day_ms: i64) -> Option<Seq<char>> {
    match utc_date_text(day_ms) {
        Some(date) => Some("prices_"@ + date + ".csv"@),
        None => None,
    }
}

/// `name` is the price file name of the day holding `day_ms`.
pub open spec fn names_price_file(name: Option<String>, day_ms: i64) -> bool {
    match name {
        Some(t) => spec_price_file_name(day_ms) == Some(t@),
        None => spec_price_file_name(day_ms) is None,
    }
}

/// Name of the price file of a date written `YYYY-MM-DD`.
pub fn price_file_name_of_date(date: &str) -> (name: String)
    ensures
        name@ == "prices_"@ + date@ + ".csv"@,
{
    let mut name = "prices_".to_owned();
    name.append(date);
    name.append(".csv");
    name
}

/// Name of the price file of the UTC day that holds `day_ms`.
pub fn price_file_name(day_ms: i64) -> (n: Option<String>)
    ensures
        names_price_file(n, day_ms),
{
    match format_utc_date(day_ms) {
        Some(date) => Some(price_file_name_of_date(date.as_str())),
        None => None,
    }
}

/// Hours of history asked for, at least one.
pub open spec fn hours_used(lookback_hours: i64) -> int {
    if lookback_hours >= 1 {
        lookback_hours as int
    } else {
        1
    }
}

/// Start of the window (Unix ms) and number of earlier days whose files are
/// read, for a look-back of `lookback_hours` ending at `now_ms`: the files of
/// today and of the `days` days before it are read.
pub open spec fn spec_price_scan_bounds(now_ms: i64, lookback_hours: i64) -> (i64, i64) {
    let h = hours_used(lookback_hours);
    ((now_ms - h * 3_600_000) as i64, ((h + 23) / 24 + 2) as i64)
}

/// Window start and number of earlier days to read for a look-back of
/// `lookback_hours` ending at `now_ms`.
pub fn price_scan_bounds(now_ms: i64, lookback_hours: i64) -> (b: (i64, i64))
    requires
        hours_used(lookback_hours) * 3_600_000 <= i64::MAX,
        now_ms - hours_used(lookback_hours) * 3_600_000 >= i64::MIN,
    ensures
        b == spec_price_scan_bounds(now_ms, lookback_hours),
{
    let h: i64 = if lookback_hours >= 1 {
        lookback_hours
    } else {
        1
    };
    let start = now_ms - h * 3_600_000;
    let days = (h + 23) / 24 + 2;
    (start, days)
}

/// A Unix time `d` days before `now_ms`.
pub open spec fn days_before(now_ms: i64, d: int) -> int {
    now_ms - d * 86_400_000
}

/// Names of the price files of the day holding `now_ms` and of the `days`
/// days before it, latest first (none for a day chrono cannot date).
pub fn price_file_names(now_ms: i64, days: i64) -> (v: Vec<Option<String>>)
    requires
        0 <= days,
        days * 86_400_000 <= i64::MAX,
        days_before(now_ms, days as int) >= i64::MIN,
    ensures
        v@.len() == days + 1,
        forall|d: int|
            0 <= d <= days ==> names_price_file(#[trigger] v@[d], days_before(now_ms, d) as i64),
{
    let mut v: Vec<Option<String>> = Vec::new();
    let mut d: i64 = 0;
    while d <= days
        invariant
            0 <= d <= days + 1,
            days * 86_400_000 <= i64::MAX,
            days_before(now_ms, days as int) >= i64::MIN,
            v@.len() == d,
            forall|k: int|
                0 <= k < d ==> names_price_file(#[trigger] v@[k], days_before(now_ms, k) as i64),
        decreases days + 1 - d,
    {
        assert(d * 86_400_000 <= days * 86_400_000) by (nonlinear_arith)
            requires
                0 <= d <= days,
        ;
        let day_ms = now_ms - d * 86_400_000;
        v.push(price_file_name(day_ms));
        d = d + 1;
    }
    v
}

// ---------------------------------------------------------------------------
// Lines of a price file: `timestamp,asset,price`
// ---------------------------------------------------------------------------

/// Position of the first character at or after `i` that is not white space
/// (the length when there is none).
pub open spec fn trim_start_pos(s: Seq<char>, i: int) -> int
    decreases s.len() - i,
{
    if i >= s.len() {
        s.len() as int
    } else if is_unicode_whitespace(s[i]) {
        trim_start_pos(s, i + 1)
    } else {
        i
    }
}

/// End of `s[lo..j]` once its trailing white space is removed.
pub open spec fn trim_end_pos(s: Seq<char>, lo: int, j: int) -> int
    decreases j - lo,
{
    if j <= lo {
        lo
    } else if is_unicode_whitespace(s[j - 1]) {
        trim_end_pos(s, lo, j - 1)
    } else {
        j
    }
}

/// `s` without its leading and trailing white space.
pub open spec fn spec_trim(s: Seq<char>) -> Seq<char> {
    let a = trim_start_pos(s, 0);
    s.subrange(a, trim_end_pos(s, a, s.len() as int))
}

/// Position of the first comma at or after `i` (the length when there is
/// none).
pub open spec fn comma_pos(s: Seq<char>, i: int) -> int
    decreases s.len() - i,
{
    if i >= s.len() {
        s.len() as int
    } else if s[i] == ',' {
        i
    } else {
        comma_pos(s, i + 1)
    }
}

/// A decimal digit.
pub open spec fn is_digit(c: char) -> bool {
    '0' <= c && c <= '9'
}

/// Every character is a decimal digit.
pub open spec fn all_digits(s: Seq<char>) -> bool {
    forall|i: int| 0 <= i < s.len() ==> is_digit(#[trigger] s[i])
}

/// Value of a string of decimal digits.
pub open spec fn digits_value(s: Seq<char>) -> int
    decreases s.len(),
{
    if s.len() == 0 {
        0
    } else {
        digits_value(s.drop_last()) * 10 + (s.last() as int - '0' as int)
    }
}

/// A base-10 `i64` as `str::parse` reads it: an optional `+` or `-`, then one
/// or more digits, the value in range.
pub open spec fn spec_parse_i64(s: Seq<char>) -> Option<i64> {
    let signed = s.len() > 0 && (s[0] == '-' || s[0] == '+');
    let body = if signed {
        s.skip(1)
    } else {
        s
    };
    let negative = s.len() > 0 && s[0] == '-';
    if body.len() == 0 || !all_digits(body) {
        None
    } else if negative {
        if digits_value(body) <= 0x8000_0000_0000_0000 {
            Some((-digits_value(body)) as i64)
        } else {
            None
        }
    } else if digits_value(body) <= i64::MAX {
        Some(digits_value(body) as i64)
    } else {
        None
    }
}

/// What a line of a daily price file gives for the asset `label` in a
/// window starting at `start_ts` (Unix ms): the line is trimmed and split at
/// commas, each field trimmed; it needs three fields, a base-10 timestamp
/// (seconds or milliseconds, normalized to milliseconds) not before
/// `start_ts`, and an asset field equal to `label` but for ASCII case. The
/// result is the timestamp and the text of the price field. (A timestamp of
/// `i64::MIN` has no magnitude and is refused.)
pub open spec fn spec_price_line(line: Seq<char>, label: Seq<char>, start_ts: i64) -> Option<
    (i64, Seq<char>),
> {
    let t = spec_trim(line);
    let c1 = comma_pos(t, 0);
    let c2 = comma_pos(t, c1 + 1);
    let c3 = comma_pos(t, c2 + 1);
    if c2 >= t.len() {
        None
    } else {
        match spec_parse_i64(spec_trim(t.subrange(0, c1))) {
            None => None,
            Some(raw) => {
                if raw == i64::MIN {
                    None
                } else if spec_normalize_ts(raw) < start_ts || ascii_lower(
                    spec_trim(t.subrange(c1 + 1, c2)),
                ) != ascii_lower(label) {
                    None
                } else {
                    Some((spec_normalize_ts(raw), spec_trim(t.subrange(c2 + 1, c3))))
                }
            },
        }
    }
}

/// The characters `cs[lo..hi]`.
fn slice_chars(cs: &Vec<char>, lo: usize, hi: usize) -> (v: Vec<char>)
    requires
        lo <= hi <= cs@.len(),
    ensures
        v@ == cs@.subrange(lo as int, hi as int),
{
    let mut v: Vec<char> = Vec::new();
    let mut i = lo;
    while i < hi
        invariant
            lo <= i <= hi <= cs@.len(),
            v@ == cs@.subrange(lo as int, i as int),
        decreases hi - i,
    {
        v.push(cs[i]);
        assert(cs@.subrange(lo as int, i + 1) == cs@.subrange(lo as int, i as int).push(
            cs@[i as int],
        ));
        i = i + 1;
    }
    v
}

/// A text without its leading and trailing white space.
fn trim_chars(cs: &Vec<char>) -> (v: Vec<char>)
    ensures
        v@ == spec_trim(cs@),
{
    let n = cs.len();
    let mut a: usize = 0;
    while a < n && is_whitespace_char(cs[a])
        invariant
            a <= n == cs@.len(),
            trim_start_pos(cs@, 0) == trim_start_pos(cs@, a as int),
        decreases n - a,
    {
        a = a + 1;
    }
    assert(trim_start_pos(cs@, a as int) == a);
    let mut b: usize = n;
    while b > a && is_whitespace_char(cs[b - 1])
        invariant
            a <= b <= n == cs@.len(),
            trim_end_pos(cs@, a as int, n as int) == trim_end_pos(cs@, a as int, b as int),
        decreases b,
    {
        b = b - 1;
    }
    assert(trim_end_pos(cs@, a as int, b as int) == b);
    slice_chars(cs, a, b)
}

/// Position of the first comma at or after `from`.
fn find_comma(cs: &Vec<char>, from: usize) -> (r: usize)
    ensures
        r == comma_pos(cs@, from as int),
        r <= cs@.len(),
        from <= cs@.len() ==> from <= r,
{
    if from >= cs.len() {
        return cs.len();
    }
    let mut i = from;
    while i < cs.len() && cs[i] != ','
        invariant
            from <= i <= cs@.len(),
            comma_pos(cs@, from as int) == comma_pos(cs@, i as int),
        decreases cs@.len() - i,
    {
        i = i + 1;
    }
    i
}

/// Appending a digit adds its value to ten times the value before.
proof fn lemma_digits_push(s: Seq<char>, lo: int, i: int)
    requires
        0 <= lo <= i < s.len(),
    ensures
        digits_value(s.subrange(lo, i + 1)) == digits_value(s.subrange(lo, i)) * 10 + (
        s[i] as int - '0' as int),
{
    assert(s.subrange(lo, i + 1).drop_last() == s.subrange(lo, i));
}

/// A prefix of a string of digits has no larger value.
proof fn lemma_digits_prefix(s: Seq<char>, k: int)
    requires
        all_digits(s),
        0 <= k <= s.len(),
    ensures
        0 <= digits_value(s.take(k)) <= digits_value(s),
    decreases s.len(),
{
    if s.len() > 0 {
        assert(is_digit(s[s.len() - 1]));
        assert(all_digits(s.drop_last()));
        if k == s.len() {
            assert(s.take(k) == s);
            lemma_digits_prefix(s.drop_last(), k - 1);
        } else {
            lemma_digits_prefix(s.drop_last(), k);
            assert(s.drop_last().take(k) == s.take(k));
        }
    } else {
        assert(s.take(k) == s);
    }
}

/// Reads a base-10 `i64` as `str::parse` does.
pub fn parse_i64_chars(cs: &Vec<char>) -> (r: Option<i64>)
    ensures
        r == spec_parse_i64(cs@),
{
    let n = cs.len();
    if n == 0 {
        return None;
    }
    let negative = cs[0] == '-';
    let start: usize = if cs[0] == '-' || cs[0] == '+' {
        1
    } else {
        0
    };
    let ghost body = cs@.skip(start as int);
    assert(cs@.skip(0) =~= cs@);
    if start == n {
        return None;
    }
    let mut acc: u64 = 0;
    let mut i = start;
    while i < n
        invariant
            start <= i <= n == cs@.len(),
            start < n,
            body == cs@.skip(start as int),
            body == (if cs@[0] == '-' || cs@[0] == '+' {
                cs@.skip(1)
            } else {
                cs@
            }),
            acc as int == digits_value(cs@.subrange(start as int, i as int)),
            acc <= 0x8000_0000_0000_0000,
            all_digits(cs@.subrange(start as int, i as int)),
        decreases n - i,
    {
        let c = cs[i];
        if !('0' <= c && c <= '9') {
            assert(body[i - start] == c);
            assert(!is_digit(body[i - start]));
            return None;
        }
        let d = ((c as u32) - ('0' as u32)) as u64;
        proof {
            lemma_digits_push(cs@, start as int, i as int);
            assert(cs@.subrange(start as int, i + 1) =~= cs@.subrange(start as int, i as int).push(
                c,
            ));
        }
        if acc > 922_337_203_685_477_580 || (acc == 922_337_203_685_477_580 && d > 8) {
            proof {
                if all_digits(body) {
                    assert(body.take(i + 1 - start) =~= cs@.subrange(start as int, i + 1));
                    lemma_digits_prefix(body, i + 1 - start);
                }
            }
            return None;
        }
        acc = acc * 10 + d;
        i = i + 1;
    }
    assert(cs@.subrange(start as int, n as int) =~= body);
    assert(all_digits(body));
    assert(acc as int == digits_value(body));
    if negative {
        if acc == 0x8000_0000_0000_0000 {
            Some(i64::MIN)
        } else {
            Some(-(acc as i64))
        }
    } else if acc > 0x7fff_ffff_ffff_ffff {
        None
    } else {
        Some(acc as i64)
    }
}

/// Whether two texts hold the same characters.
fn same_chars(a: &Vec<char>, b: &Vec<char>) -> (r: bool)
    ensures
        r == (a@ == b@),
{
    if a.len() != b.len() {
        return false;
    }
    let mut i: usize = 0;
    while i < a.len()
        invariant
            i <= a@.len() == b@.len(),
            forall|k: int| 0 <= k < i ==> a@[k] == b@[k],
        decreases a@.len() - i,
    {
        if a[i] != b[i] {
            return false;
        }
        i = i + 1;
    }
    assert(a@ =~= b@);
    true
}

/// Reads one line of a daily price file for the asset `label` in the window
/// starting at `start_ts`: the (normalized) timestamp and the price field's
/// text, or none where the line does not count.
pub fn parse_price_line(line: &str, label: &str, start_ts: i64) -> (r: Option<(i64, String)>)
    ensures
        match r {
            Some((ts, price)) => spec_price_line(line@, label@, start_ts) == Some((ts, price@)),
            None => spec_price_line(line@, label@, start_ts) is None,
        },
{
    let t = trim_chars(&chars_of(line));
    let n = t.len();
    let c1 = find_comma(&t, 0);
    if c1 >= n {
        return None;
    }
    let c2 = find_comma(&t, c1 + 1);
    if c2 >= n {
        return None;
    }
    let c3 = find_comma(&t, c2 + 1);
    let ts_field = trim_chars(&slice_chars(&t, 0, c1));
    let raw = match parse_i64_chars(&ts_field) {
        Some(raw) => raw,
        None => {
            return None;
        },
    };
    if raw == i64::MIN {
        return None;
    }
    let ts = normalize_history_timestamp_ms(raw);
    if ts < start_ts {
        return None;
    }
    let asset_field = to_ascii_lowercase(&trim_chars(&slice_chars(&t, c1 + 1, c2)));
    let wanted = to_ascii_lowercase(&chars_of(label));
    if !same_chars(&asset_field, &wanted) {
        return None;
    }
    let price = trim_chars(&slice_chars(&t, c2 + 1, c3));
    let text = string_from_chars(&price, 0);
    assert(price@.skip(0) == price@);
    Some((ts, text))
}

/// Position of the first line break at or after `i` (the length when there
/// is none).
pub open spec fn newline_pos(s: Seq<char>, i: int) -> int
    decreases s.len() - i,
{
    if i >= s.len() {
        s.len() as int
    } else if s[i] == '\n' {
        i
    } else {
        newline_pos(s, i + 1)
    }
}

/// A line break found at or after `i` lies between `i` and the end.
pub proof fn lemma_newline_pos_bounds(s: Seq<char>, i: int)
    requires
        0 <= i,
    ensures
        i <= s.len() ==> i <= newline_pos(s, i) <= s.len(),
        i > s.len() ==> newline_pos(s, i) == s.len(),
    decreases s.len() - i,
{
    if i < s.len() && s[i] != '\n' {
        lemma_newline_pos_bounds(s, i + 1);
    }
}

/// What the lines of a daily price file give, in file order: the text is
/// split at line breaks and each line read as [`spec_price_line`] reads it.
pub open spec fn spec_price_rows(content: Seq<char>, label: Seq<char>, start_ts: i64) -> Seq<
    (i64, Seq<char>),
>
    decreases content.len(),
{
    let end = newline_pos(content, 0);
    proof {
        lemma_newline_pos_bounds(content, 0);
    }
    let here = match spec_price_line(content.take(end), label, start_ts) {
        Some(row) => seq![row],
        None => Seq::empty(),
    };
    if end >= content.len() {
        here
    } else {
        here + spec_price_rows(content.skip(end + 1), label, start_ts)
    }
}

/// The rows read, their price texts taken by their characters.
pub open spec fn rows_view(rows: Seq<(i64, String)>) -> Seq<(i64, Seq<char>)> {
    rows.map_values(|r: (i64, String)| (r.0, r.1@))
}

/// Searching a suffix finds the same line break, shifted.
proof fn lemma_newline_pos_skip(s: Seq<char>, p: int, i: int)
    requires
        0 <= p <= s.len(),
        0 <= i,
    ensures
        newline_pos(s.skip(p), i) == newline_pos(s, p + i) - p,
    decreases s.len() - p - i,
{
    if p + i < s.len() {
        assert(s.skip(p)[i] == s[p + i]);
        if s[p + i] != '\n' {
            lemma_newline_pos_skip(s, p, i + 1);
        }
    }
}

/// Position of the first line break at or after `from`.
fn find_newline(cs: &Vec<char>, from: usize) -> (r: usize)
    requires
        from <= cs@.len(),
    ensures
        r == newline_pos(cs@, from as int),
        from <= r <= cs@.len(),
{
    let mut i = from;
    while i < cs.len() && cs[i] != '\n'
        invariant
            from <= i <= cs@.len(),
            newline_pos(cs@, from as int) == newline_pos(cs@, i as int),
        decreases cs@.len() - i,
    {
        i = i + 1;
    }
    i
}

/// Reads the lines of a daily price file for the asset `label` in the
/// window starting at `start_ts`: the (normalized) timestamp and price text
/// of each line that counts, in file order.
pub fn parse_price_file(content: &str, label: &str, start_ts: i64) -> (rows: Vec<(i64, String)>)
    ensures
        rows_view(rows@) == spec_price_rows(content@, label@, start_ts),
{
    let cs = chars_of(content);
    let ghost whole = cs@;
    let mut rows: Vec<(i64, String)> = Vec::new();
    let mut pos: usize = 0;
    assert(whole.skip(0) =~= whole);
    loop
        invariant
            pos <= cs@.len(),
            cs@ == whole,
            whole == content@,
            rows_view(rows@) + spec_price_rows(whole.skip(pos as int), label@, start_ts)
                == spec_price_rows(whole, label@, start_ts),
        decreases cs@.len() - pos,
    {
        let ghost rest = whole.skip(pos as int);
        let end = find_newline(&cs, pos);
        proof {
            lemma_newline_pos_skip(whole, pos as int, 0);
            assert(rest.take(end - pos) =~= whole.subrange(pos as int, end as int));
        }
        let line = string_from_chars(&slice_chars(&cs, pos, end), 0);
        assert(cs@.subrange(pos as int, end as int).skip(0) =~= rest.take(end - pos));
        let ghost before = rows@;
        match parse_price_line(line.as_str(), label, start_ts) {
            Some(row) => {
                rows.push(row);
                assert(rows_view(rows@) =~= rows_view(before).push((row.0, row.1@)));
            },
            None => {},
        }
        if end >= cs.len() {
            assert(rows_view(rows@) =~= spec_price_rows(whole, label@, start_ts)) by {
                assert(rows_view(before) + spec_price_rows(rest, label@, start_ts) == spec_price_rows(
                    whole,
                    label@,
                    start_ts,
                ));
            }
            return rows;
        }
        proof {
            assert(rest.skip(end - pos + 1) =~= whole.skip(end + 1));
        }
        pos = end + 1;
    }
}

// ---------------------------------------------------------------------------
// Time order of the rows read
// ---------------------------------------------------------------------------

/// First position at or after `i` whose row is later than `ts` (the length
/// when there is none).
pub open spec fn first_later(rows: Seq<(i64, Seq<char>)>, ts: i64, i: int) -> int
    decreases rows.len() - i,
{
    if i >= rows.len() {
        rows.len() as int
    } else if rows[i].0 > ts {
        i
    } else {
        first_later(rows, ts, i + 1)
    }
}

/// Rows in time order, rows of the same time in the order they were read:
/// each row goes after every earlier-read row of its time or before it.
pub open spec fn sort_by_time(rows: Seq<(i64, Seq<char>)>) -> Seq<(i64, Seq<char>)>
    decreases rows.len(),
{
    if rows.len() == 0 {
        rows
    } else {
        let sorted = sort_by_time(rows.drop_last());
        sorted.insert(first_later(sorted, rows.last().0, 0), rows.last())
    }
}

/// Rows whose times never decrease.
pub open spec fn in_time_order(rows: Seq<(i64, Seq<char>)>) -> bool {
    forall|a: int, b: int| 0 <= a < b < rows.len() ==> rows[a].0 <= rows[b].0
}

/// What `first_later` finds: rows before it are not later than `ts`, the
/// row at it (if any) is.
pub proof fn lemma_first_later(rows: Seq<(i64, Seq<char>)>, ts: i64, i: int)
    requires
        0 <= i <= rows.len(),
    ensures
        i <= first_later(rows, ts, i) <= rows.len(),
        forall|k: int| i <= k < first_later(rows, ts, i) ==> #[trigger] rows[k].0 <= ts,
        first_later(rows, ts, i) < rows.len() ==> rows[first_later(rows, ts, i)].0 > ts,
    decreases rows.len() - i,
{
    if i < rows.len() && rows[i].0 <= ts {
        lemma_first_later(rows, ts, i + 1);
    }
}

/// Sorting by time gives rows in time order holding the same rows.
pub proof fn lemma_sort_by_time(rows: Seq<(i64, Seq<char>)>)
    ensures
        in_time_order(sort_by_time(rows)),
        sort_by_time(rows).to_multiset() == rows.to_multiset(),
    decreases rows.len(),
{
    broadcast use vstd::seq_lib::to_multiset_build, vstd::seq_lib::to_multiset_insert;

    if rows.len() > 0 {
        let front = rows.drop_last();
        let sorted = sort_by_time(front);
        let x = rows.last();
        lemma_sort_by_time(front);
        lemma_first_later(sorted, x.0, 0);
        let j = first_later(sorted, x.0, 0);
        let out = sorted.insert(j, x);
        assert forall|a: int, b: int| 0 <= a < b < out.len() implies out[a].0 <= out[b].0 by {
            if b < j {
                assert(out[a] == sorted[a] && out[b] == sorted[b]);
            } else if b == j {
                assert(out[a] == sorted[a]);
            } else if a < j {
                assert(out[a] == sorted[a] && out[b] == sorted[b - 1]);
                assert(sorted[j].0 > x.0);
                assert(sorted[j].0 <= sorted[b - 1].0);
            } else if a == j {
                assert(out[b] == sorted[b - 1]);
                assert(sorted[j].0 > x.0);
                assert(sorted[j].0 <= sorted[b - 1].0);
            } else {
                assert(out[a] == sorted[a - 1] && out[b] == sorted[b - 1]);
            }
        }
        assert(rows == front.push(x));
    }
}

/// Position at which a row of time `ts` goes in rows already in time order.
fn find_first_later(rows: &Vec<(i64, String)>, ts: i64) -> (j: usize)
    ensures
        j == first_later(rows_view(rows@), ts, 0),
        j <= rows@.len(),
{
    let ghost v = rows_view(rows@);
    let mut j: usize = 0;
    while j < rows.len() && rows[j].0 <= ts
        invariant
            j <= rows@.len(),
            v == rows_view(rows@),
            first_later(v, ts, 0) == first_later(v, ts, j as int),
        decreases rows@.len() - j,
    {
        assert(v[j as int].0 == rows@[j as int].0);
        j = j + 1;
    }
    proof {
        if j < rows.len() {
            assert(v[j as int].0 == rows@[j as int].0);
        }
    }
    j
}

/// Orders rows by time, rows of the same time in the order given (a stable
/// sort by time).
pub fn sort_rows_by_time(rows: Vec<(i64, String)>) -> (r: Vec<(i64, String)>)
    ensures
        rows_view(r@) == sort_by_time(rows_view(rows@)),
{
    let ghost all = rows_view(rows@);
    let mut rest = rows;
    let mut out: Vec<(i64, String)> = Vec::new();
    let ghost mut k: int = 0;
    assert(all.take(0) =~= Seq::<(i64, Seq<char>)>::empty());
    while rest.len() > 0
        invariant
            0 <= k <= all.len(),
            rows_view(rest@) == all.skip(k),
            rows_view(out@) == sort_by_time(all.take(k)),
        decreases rest@.len(),
    {
        assert(rows_view(rest@).len() == rest@.len());
        assert(rows_view(rest@)[0] == all[k]);
        let ghost old_rest = rest@;
        let row = rest.remove(0);
        let ghost before = rows_view(out@);
        let j = find_first_later(&out, row.0);
        out.insert(j, row);
        proof {
            assert(all.take(k + 1).drop_last() =~= all.take(k));
            assert(all.take(k + 1).last() == all[k]);
            assert(rows_view(out@) =~= before.insert(j as int, (row.0, row.1@)));
            assert forall|i: int| 0 <= i < rest@.len() implies rows_view(rest@)[i] == all.skip(
                k + 1,
            )[i] by {
                assert(rest@[i] == old_rest[i + 1]);
                assert(rows_view(old_rest)[i + 1] == all.skip(k)[i + 1]);
            }
            assert(rows_view(rest@) =~= all.skip(k + 1));
            k = k + 1;
        }
    }
    assert(all.take(k) =~= all);
    out
}

/// What the daily price files give together, in the order the files come,
/// before ordering by time.
pub open spec fn spec_rows_of_files(files: Seq<String>, label: Seq<char>, start_ts: i64) -> Seq<
    (i64, Seq<char>),
>
    decreases files.len(),
{
    if files.len() == 0 {
        Seq::empty()
    } else {
        spec_rows_of_files(files.drop_last(), label, start_ts) + spec_price_rows(
            files.last()@,
            label,
            start_ts,
        )
    }
}

/// Reads the daily price files (their texts, in the order the days are
/// scanned) for the asset `label` in the window starting at `start_ts`: the
/// rows that count, in time order, rows of the same time in the order read.
pub fn price_rows_of_files(files: &Vec<String>, label: &str, start_ts: i64) -> (rows: Vec<
    (i64, String),
>)
    ensures
        rows_view(rows@) == sort_by_time(spec_rows_of_files(files@, label@, start_ts)),
{
    let mut all: Vec<(i64, String)> = Vec::new();
    let mut f: usize = 0;
    while f < files.len()
        invariant
            f <= files@.len(),
            rows_view(all@) == spec_rows_of_files(files@.take(f as int), label@, start_ts),
        decreases files@.len() - f,
    {
        let mut rows = parse_price_file(files[f].as_str(), label, start_ts);
        let ghost before = all@;
        let ghost added = rows@;
        all.append(&mut rows);
        proof {
            assert(files@.take(f + 1).drop_last() =~= files@.take(f as int));
            assert(files@.take(f + 1).last() == files@[f as int]);
            assert(all@ =~= before + added);
            assert(rows_view(all@) =~= rows_view(before) + rows_view(added));
        }
        f = f + 1;
    }
    assert(files@.take(files@.len() as int) =~= files@);
    sort_rows_by_time(all)
}

/// Every row a price file gives lies in the window.
pub proof fn lemma_price_rows_in_window(content: Seq<char>, label: Seq<char>, start_ts: i64)
    ensures
        forall|i: int|
            0 <= i < spec_price_rows(content, label, start_ts).len() ==> #[trigger] spec_price_rows(
                content,
                label,
                start_ts,
            )[i].0 >= start_ts,
    decreases content.len(),
{
    let end = newline_pos(content, 0);
    lemma_newline_pos_bounds(content, 0);
    let line = spec_price_line(content.take(end), label, start_ts);
    let here = match line {
        Some(row) => seq![row],
        None => Seq::empty(),
    };
    if let Some(row) = line {
        assert(row.0 >= start_ts);
    }
    assert forall|i: int| 0 <= i < here.len() implies #[trigger] here[i].0 >= start_ts by {}
    if end < content.len() {
        let rest = spec_price_rows(content.skip(end + 1), label, start_ts);
        lemma_price_rows_in_window(content.skip(end + 1), label, start_ts);
        assert(spec_price_rows(content, label, start_ts) == here + rest);
        assert forall|i: int| 0 <= i < (here + rest).len() implies #[trigger] (here + rest)[i].0
            >= start_ts by {
            if i >= here.len() {
                assert((here + rest)[i] == rest[i - here.len()]);
            } else {
                assert((here + rest)[i] == here[i]);
            }
        }
    } else {
        assert(spec_price_rows(content, label, start_ts) == here);
    }
}

/// Every row the price files give lies in the window.
pub proof fn lemma_rows_of_files_in_window(files: Seq<String>, label: Seq<char>, start_ts: i64)
    ensures
        forall|i: int|
            0 <= i < spec_rows_of_files(files, label, start_ts).len() ==> #[trigger] spec_rows_of_files(
                files,
                label,
                start_ts,
            )[i].0 >= start_ts,
    decreases files.len(),
{
    if files.len() > 0 {
        lemma_rows_of_files_in_window(files.drop_last(), label, start_ts);
        lemma_price_rows_in_window(files.last()@, label, start_ts);
        let a = spec_rows_of_files(files.drop_last(), label, start_ts);
        let b = spec_price_rows(files.last()@, label, start_ts);
        assert forall|i: int| 0 <= i < (a + b).len() implies #[trigger] (a + b)[i].0 >= start_ts by {
            if i >= a.len() {
                assert((a + b)[i] == b[i - a.len()]);
            }
        }
    }
}

} // verus!
