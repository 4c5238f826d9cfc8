//! The values the command line hands to the core: a latency range written
//! `min-max`, and a bandwidth limit with an optional unit suffix.
use vstd::prelude::*;

verus! {

pub open spec fn is_digit(c: char) -> bool {
    48 <= (c as u32) <= 57
}

pub open spec fn all_digits(s: Seq<char>) -> bool {
    forall|i: int| 0 <= i < s.len() ==> is_digit(#[trigger] s[i])
}

/// The number that a sequence of decimal digits writes.
pub open spec fn digits_value(s: Seq<char>) -> int
    decreases s.len(),
{
    if s.len() == 0 {
        0
    } else {
        10 * digits_value(s.drop_last()) + ((s.last() as u32) - 48)
    }
}

/// `s` without a leading `+`, if it has one.
pub open spec fn unsigned_body(s: Seq<char>) -> Seq<char> {
    if s.len() > 0 && s[0] == '+' {
        s.drop_first()
    } else {
        s
    }
}

/// The `u64` that `s` writes in decimal: an optional `+`, then one or more
/// ASCII digits, with a value that fits; otherwise none.
pub open spec fn decimal_u64(s: Seq<char>) -> Option<u64> {
    let b = unsigned_body(s);
    if b.len() > 0 && all_digits(b) && digits_value(b) <= u64::MAX {
        Some(digits_value(b) as u64)
    } else {
        None
    }
}

proof fn lemma_digits_value_nonneg(s: Seq<char>)
    requires
        all_digits(s),
    ensures
        digits_value(s) >= 0,
    decreases s.len(),
{
    if s.len() > 0 {
        assert(all_digits(s.drop_last()));
        lemma_digits_value_nonneg(s.drop_last());
    }
}

/// A prefix of a digit sequence writes no larger number than the whole.
proof fn lemma_digits_prefix_le(s: Seq<char>, j: int)
    requires
        all_digits(s),
        0 <= j <= s.len(),
    ensures
        digits_value(s.subrange(0, j)) <= digits_value(s),
    decreases s.len(),
{
    if j < s.len() {
        let t = s.drop_last();
        assert(all_digits(t));
        lemma_digits_prefix_le(t, j);
        assert(t.subrange(0, j) =~= s.subrange(0, j));
        lemma_digits_value_nonneg(t);
        assert(is_digit(s[s.len() - 1]));
    } else {
        assert(s.subrange(0, j) =~= s);
    }
}

/// Reads an unsigned decimal number the way `u64`'s `from_str` does.
pub fn parse_u64(s: &str) -> (r: Option<u64>)
    ensures
        r == decimal_u64(s@),
{
    let len = s.unicode_len();
    let start: usize = if len > 0 && s.get_char(0) == '+' { 1 } else { 0 };
    let ghost body = s@.subrange(start as int, len as int);
    assert(body =~= unsigned_body(s@));
    if start == len {
        return None;
    }
    let mut i: usize = start;
    while i < len
        invariant
            start <= i <= len,
            len == s@.len(),
            body == s@.subrange(start as int, len as int),
            body == unsigned_body(s@),
            forall|j: int| start <= j < i ==> is_digit(#[trigger] s@[j]),
        decreases len - i,
    {
        let c = s.get_char(i);
        if !((c as u32) >= 48 && (c as u32) <= 57) {
            assert(body[i - start] == c);
            assert(!is_digit(body[i - start]));
            return None;
        }
        i = i + 1;
    }
    assert(all_digits(body)) by {
        assert forall|k: int| 0 <= k < body.len() implies is_digit(#[trigger] body[k]) by {
            assert(body[k] == s@[k + start]);
        }
    }
    let mut v: u64 = 0;
    i = start;
    while i < len
        invariant
            start <= i <= len,
            len == s@.len(),
            body == s@.subrange(start as int, len as int),
            body == unsigned_body(s@),
            all_digits(body),
            v == digits_value(s@.subrange(start as int, i as int)),
        decreases len - i,
    {
        let c = s.get_char(i);
        let ghost pre = s@.subrange(start as int, i as int);
        let ghost next = s@.subrange(start as int, i + 1);
        assert(next.drop_last() =~= pre);
        assert(next.last() == c);
        assert(body[i - start] == c);
        let d: u64 = ((c as u32) - 48) as u64;
        if v > (u64::MAX - d) / 10 {
            assert(10 * v + d > u64::MAX) by (nonlinear_arith)
                requires
                    v > (u64::MAX - d) / 10,
                    d <= 9,
            ;
            assert(digits_value(next) > u64::MAX);
            assert(next =~= body.subrange(0, i + 1 - start));
            proof { lemma_digits_prefix_le(body, i + 1 - start); }
            return None;
        }
        v = v * 10 + d;
        i = i + 1;
    }
    assert(s@.subrange(start as int, len as int) =~= body);
    Some(v)
}

/// `r` is the `Ok` value of `expected`, or an error whose text is the
/// `Err` value of `expected`.
pub open spec fn result_matches<T>(r: Result<T, String>, expected: Result<T, Seq<char>>) -> bool {
    match (r, expected) {
        (Ok(a), Ok(b)) => a == b,
        (Err(e), Err(m)) => e@ == m,
        _ => false,
    }
}

/// `s` holds exactly one `-`, at index `p`.
pub open spec fn single_dash_at(s: Seq<char>, p: int) -> bool {
    &&& 0 <= p < s.len()
    &&& s[p] == '-'
    &&& forall|i: int| 0 <= i < s.len() && i != p ==> #[trigger] s[i] != '-'
}

pub open spec fn range_format_message() -> Seq<char> {
    "Latency range must be in format 'min-max' (e.g., '100-500')"@
}

pub open spec fn range_min_message() -> Seq<char> {
    "Invalid minimum latency value"@
}

pub open spec fn range_max_message() -> Seq<char> {
    "Invalid maximum latency value"@
}

pub open spec fn range_order_message() -> Seq<char> {
    "Minimum latency must be less than or equal to maximum latency"@
}

/// A latency range written `min-max`: two decimal `u64` values around the
/// only `-`, the first not above the second.
pub open spec fn latency_range_of(s: Seq<char>) -> Result<(u64, u64), Seq<char>> {
    if exists|p: int| single_dash_at(s, p) {
        let p = choose|p: int| single_dash_at(s, p);
        match decimal_u64(s.subrange(0, p)) {
            None => Err(range_min_message()),
            Some(lo) => match decimal_u64(s.subrange(p + 1, s.len() as int)) {
                None => Err(range_max_message()),
                Some(hi) => if lo > hi {
                    Err(range_order_message())
                } else {
                    Ok((lo, hi))
                },
            },
        }
    } else {
        Err(range_format_message())
    }
}

/// Parses a latency range written `min-max` (milliseconds).
pub fn parse_latency_range(s: &str) -> (r: Result<(u64, u64), String>)
    ensures
        result_matches(r, latency_range_of(s@)),
        r matches Ok((lo, hi)) ==> lo <= hi,
{
    let len = s.unicode_len();
    let mut dashes: usize = 0;
    let mut first: usize = 0;
    let mut second: usize = 0;
    let mut i: usize = 0;
    while i < len
        invariant
            i <= len,
            len == s@.len(),
            dashes <= 2,
            dashes == 0 ==> forall|j: int| 0 <= j < i ==> s@[j] != '-',
            dashes >= 1 ==> first < i && s@[first as int] == '-',
            dashes == 1 ==> forall|j: int| 0 <= j < i && j != first ==> s@[j] != '-',
            dashes == 2 ==> first < second < i && s@[second as int] == '-',
        decreases len - i,
    {
        if s.get_char(i) == '-' {
            if dashes == 0 {
                first = i;
                dashes = 1;
            } else if dashes == 1 {
                second = i;
                dashes = 2;
            }
        }
        i = i + 1;
    }
    if dashes != 1 {
        assert(!exists|p: int| single_dash_at(s@, p)) by {
            if dashes == 2 {
                assert forall|p: int| !single_dash_at(s@, p) by {
                    if 0 <= p < s@.len() && p != first {
                        assert(s@[first as int] == '-');
                    } else if p == first {
                        assert(s@[second as int] == '-');
                    }
                }
            }
        }
        return Err(String::from_str("Latency range must be in format 'min-max' (e.g., '100-500')"));
    }
    assert(single_dash_at(s@, first as int));
    assert forall|p: int| single_dash_at(s@, p) implies p == first by {
        if p != first {
            assert(s@[first as int] == '-');
        }
    }
    let left = s.substring_char(0, first);
    let right = s.substring_char(first + 1, len);
    let min = match parse_u64(left) {
        Some(v) => v,
        None => {
            return Err(String::from_str("Invalid minimum latency value"));
        },
    };
    let max = match parse_u64(right) {
        Some(v) => v,
        None => {
            return Err(String::from_str("Invalid maximum latency value"));
        },
    };
    if min > max {
        return Err(String::from_str("Minimum latency must be less than or equal to maximum latency"));
    }
    Ok((min, max))
}

/// What `str::to_lowercase` returns for a string.
pub uninterp spec fn lower_of(s: Seq<char>) -> Seq<char>;

/// Relies on std's `str::to_lowercase`: the Unicode lowercase mapping of the
/// string, which depends on its characters alone.
#[verifier::external_body]
fn lowercase(s: &str) -> (r: String)
    ensures
        r@ == lower_of(s@),
{
    s.to_lowercase()
}

pub open spec fn ends_with(s: Seq<char>, suffix: Seq<char>) -> bool {
    s.len() >= suffix.len() && s.subrange(s.len() - suffix.len(), s.len() as int) == suffix
}

/// `s` without its last `n` characters.
pub open spec fn strip_last(s: Seq<char>, n: int) -> Seq<char> {
    s.subrange(0, s.len() - n)
}

/// `v` times `factor`, or the error text when there is no `v` or the product
/// does not fit in a `u64`.
pub open spec fn scaled(v: Option<u64>, factor: int, message: Seq<char>) -> Result<u64, Seq<char>> {
    match v {
        Some(x) => if x * factor <= u64::MAX {
            Ok((x * factor) as u64)
        } else {
            Err(message)
        },
        None => Err(message),
    }
}

pub open spec fn mbps_message() -> Seq<char> {
    "Invalid bandwidth value for mbps"@
}

pub open spec fn kbps_message() -> Seq<char> {
    "Invalid bandwidth value for kbps"@
}

pub open spec fn bps_message() -> Seq<char> {
    "Invalid bandwidth value for bps"@
}

pub open spec fn plain_message() -> Seq<char> {
    "Invalid bandwidth value (use format like '100kbps', '1mbps', or '50000bps')"@
}

/// A lowercase bandwidth limit in bytes per second: a decimal number followed
/// by `mbps` (times 1024 * 1024), `kbps` (times 1024), `bps` or nothing.
pub open spec fn bandwidth_limit_of(l: Seq<char>) -> Result<u64, Seq<char>> {
    if ends_with(l, "mbps"@) {
        scaled(decimal_u64(strip_last(l, 4)), 1024 * 1024int, mbps_message())
    } else if ends_with(l, "kbps"@) {
        scaled(decimal_u64(strip_last(l, 4)), 1024int, kbps_message())
    } else if ends_with(l, "bps"@) {
        scaled(decimal_u64(strip_last(l, 3)), 1int, bps_message())
    } else {
        scaled(decimal_u64(l), 1int, plain_message())
    }
}

fn has_suffix(s: &str, suffix: &str) -> (r: bool)
    ensures
        r == ends_with(s@, suffix@),
{
    let len = s.unicode_len();
    let n = suffix.unicode_len();
    if n > len {
        return false;
    }
    let base = len - n;
    let mut i: usize = 0;
    while i < n
        invariant
            i <= n,
            n == suffix@.len(),
            len == s@.len(),
            base == len - n,
            forall|j: int| 0 <= j < i ==> s@[base + j] == suffix@[j],
        decreases n - i,
    {
        if s.get_char(base + i) != suffix.get_char(i) {
            assert(s@.subrange(base as int, len as int)[i as int] != suffix@[i as int]);
            return false;
        }
        i = i + 1;
    }
    assert(s@.subrange(base as int, len as int) =~= suffix@);
    true
}

/// The value of `digits`, times `factor`, or `message` as the error.
fn scale_decimal(digits: &str, factor: u64, message: &str) -> (r: Result<u64, String>)
    ensures
        result_matches(r, scaled(decimal_u64(digits@), factor as int, message@)),
{
    match parse_u64(digits) {
        Some(v) => match v.checked_mul(factor) {
            Some(x) => Ok(x),
            None => Err(String::from_str(message)),
        },
        None => Err(String::from_str(message)),
    }
}

/// Parses a bandwidth limit that is already in lowercase.
pub fn parse_bandwidth_lowered(l: &str) -> (r: Result<u64, String>)
    ensures
        result_matches(r, bandwidth_limit_of(l@)),
{
    let len = l.unicode_len();
    if has_suffix(l, "mbps") {
        proof { reveal_strlit("mbps"); }
        scale_decimal(l.substring_char(0, len - 4), 1024 * 1024, "Invalid bandwidth value for mbps")
    } else if has_suffix(l, "kbps") {
        proof { reveal_strlit("kbps"); }
        scale_decimal(l.substring_char(0, len - 4), 1024, "Invalid bandwidth value for kbps")
    } else if has_suffix(l, "bps") {
        proof { reveal_strlit("bps"); }
        scale_decimal(l.substring_char(0, len - 3), 1, "Invalid bandwidth value for bps")
    } else {
        scale_decimal(l, 1, "Invalid bandwidth value (use format like '100kbps', '1mbps', or '50000bps')")
    }
}

/// Parses a bandwidth limit in bytes per second (`"0"` means unlimited). The
/// unit suffix is matched without regard to case.
pub fn parse_bandwidth_limit(s: &str) -> (r: Result<u64, String>)
    ensures
        s@ == seq!['0'] ==> r == Ok::<u64, String>(0),
        s@ != seq!['0'] ==> result_matches(r, bandwidth_limit_of(lower_of(s@))),
{
    if s.unicode_len() == 1 && s.get_char(0) == '0' {
        assert(s@ =~= seq!['0']);
        return Ok(0);
    }
    let lower = lowercase(s);
    parse_bandwidth_lowered(lower.as_str())
}

} // verus!
