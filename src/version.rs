//! Version strings: extraction of the version part of a release tag and a
//! coarse, numeric component-wise "is newer" comparison.

use vstd::prelude::*;

verus! {

pub open spec fn is_ascii_digit(c: char) -> bool {
    '0' <= c && c <= '9'
}

/// Characters that may follow the first digit of a version: `[0-9A-Za-z.\-+]`.
pub open spec fn is_version_char(c: char) -> bool {
    is_ascii_digit(c) || ('A' <= c && c <= 'Z') || ('a' <= c && c <= 'z') || c == '.' || c == '-'
        || c == '+'
}

/// Index of the first ASCII digit of `s` at or after `i`, or `s.len()` if none.
pub open spec fn first_digit_from(s: Seq<char>, i: int) -> int
    decreases s.len() - i,
{
    if i < 0 || i >= s.len() {
        s.len() as int
    } else if is_ascii_digit(s[i]) {
        i
    } else {
        first_digit_from(s, i + 1)
    }
}

/// End of the longest run of version characters starting at `i`.
pub open spec fn version_run_end(s: Seq<char>, i: int) -> int
    decreases s.len() - i,
{
    if 0 <= i < s.len() && is_version_char(s[i]) {
        version_run_end(s, i + 1)
    } else {
        i
    }
}

/// The version part of a tag: the longest run of version characters that
/// starts at the first digit (a leading `v` is thereby dropped); a tag with
/// no digit is its own version.
pub open spec fn normalized(tag: Seq<char>) -> Seq<char> {
    let d = first_digit_from(tag, 0);
    if d < tag.len() {
        tag.subrange(d, version_run_end(tag, d))
    } else {
        tag
    }
}

/// The pieces of `s` between dots, in order (always at least one piece).
pub open spec fn split_dots(s: Seq<char>) -> Seq<Seq<char>>
    decreases s.len(),
{
    if s.len() == 0 {
        seq![Seq::<char>::empty()]
    } else {
        let prev = split_dots(s.drop_last());
        if s.last() == '.' {
            prev.push(Seq::<char>::empty())
        } else {
            prev.update(prev.len() - 1, prev.last().push(s.last()))
        }
    }
}

pub open spec fn all_digits(s: Seq<char>) -> bool {
    forall|i: int| 0 <= i < s.len() ==> is_ascii_digit(#[trigger] s[i])
}

/// Decimal value of a string of digits.
pub open spec fn digits_value(s: Seq<char>) -> nat
    decreases s.len(),
{
    if s.len() == 0 {
        0
    } else {
        digits_value(s.drop_last()) * 10 + ((s.last() as nat) - ('0' as nat)) as nat
    }
}

/// The digits of a segment once an optional leading `+` is removed.
pub open spec fn unsigned_body(seg: Seq<char>) -> Seq<char> {
    if seg.len() > 0 && seg[0] == '+' {
        seg.drop_first()
    } else {
        seg
    }
}

/// A segment read as an unsigned 64-bit number: an optional `+`, then one
/// or more digits whose value fits in 64 bits.
pub open spec fn segment_value(seg: Seq<char>) -> Option<nat> {
    let body = unsigned_body(seg);
    if body.len() > 0 && all_digits(body) && digits_value(body) <= u64::MAX {
        Some(digits_value(body))
    } else {
        None
    }
}

/// The values of the numeric pieces, in order; other pieces are dropped.
pub open spec fn numeric_values(parts: Seq<Seq<char>>) -> Seq<nat>
    decreases parts.len(),
{
    if parts.len() == 0 {
        Seq::empty()
    } else {
        let prev = numeric_values(parts.drop_last());
        match segment_value(parts.last()) {
            Some(v) => prev.push(v),
            None => prev,
        }
    }
}

pub open spec fn numeric_parts(s: Seq<char>) -> Seq<nat> {
    numeric_values(split_dots(s))
}

/// Component `i` of a sequence padded on the right with zeros.
pub open spec fn padded(p: Seq<nat>, i: int) -> nat {
    if 0 <= i < p.len() {
        p[i]
    } else {
        0
    }
}

/// `remote` is newer than `local`: at the first component where the
/// zero-padded numeric parts differ, the remote one is greater.
pub open spec fn newer(local: Seq<char>, remote: Seq<char>) -> bool {
    let l = numeric_parts(local);
    let r = numeric_parts(remote);
    exists|i: int|
        0 <= i < if l.len() >= r.len() { l.len() } else { r.len() } && #[trigger] padded(r, i)
            > padded(l, i) && forall|j: int| 0 <= j < i ==> padded(r, j) == padded(l, j)
}

/// The regular expression that picks the version out of a release tag.
pub const VERSION_PATTERN: &'static str = "v?(?P<version>[0-9][0-9A-Za-z\\.\\-\\+]*)";

/// Relies on `regex::Regex::new` and `Regex::captures`: the pattern
/// `VERSION_PATTERN` compiles, and its leftmost-first match captures as
/// `version` the greedy run `[0-9][0-9A-Za-z.\-+]*` that starts at the first
/// digit of the tag; there is no match when the tag has no digit.
#[verifier::external_body]
fn capture_version(pattern: &str, tag: &str) -> (r: Option<String>)
    requires
        pattern@ == VERSION_PATTERN@,
    ensures
        match r {
            Some(v) => first_digit_from(tag@, 0) < tag@.len() && v@ == tag@.subrange(
                first_digit_from(tag@, 0),
                version_run_end(tag@, first_digit_from(tag@, 0)),
            ),
            None => first_digit_from(tag@, 0) >= tag@.len(),
        },
{
    let re = regex::Regex::new(pattern).unwrap();
    match re.captures(tag) {
        Some(c) => Some(c["version"].to_string()),
        None => None,
    }
}

/// Extracts the version from a tag such as `v1.2.3` or `release-2.0`; a tag
/// without any digit is returned unchanged.
pub fn normalize_version(tag: &str) -> (r: String)
    ensures
        r@ == normalized(tag@),
{
    match capture_version(VERSION_PATTERN, tag) {
        Some(v) => v,
        None => String::from_str(tag),
    }
}

proof fn lemma_split_dots_nonempty(s: Seq<char>)
    ensures
        split_dots(s).len() >= 1,
    decreases s.len(),
{
    if s.len() > 0 {
        lemma_split_dots_nonempty(s.drop_last());
    }
}

proof fn lemma_digits_prefix(s: Seq<char>, k: int)
    requires
        all_digits(s),
        0 <= k <= s.len(),
    ensures
        digits_value(s.take(k)) <= digits_value(s),
    decreases s.len(),
{
    if k == s.len() {
        assert(s.take(k) =~= s);
    } else {
        let t = s.drop_last();
        assert(all_digits(t)) by {
            assert forall|i: int| 0 <= i < t.len() implies is_ascii_digit(#[trigger] t[i]) by {
                assert(t[i] == s[i]);
            }
        }
        lemma_digits_prefix(t, k);
        assert(t.take(k) =~= s.take(k));
    }
}

/// Reads `s[start..end]` as an unsigned 64-bit number, as `str::parse::<u64>`
/// does: an optional `+`, then at least one digit, within range.
fn parse_segment(s: &str, start: usize, end: usize) -> (r: Option<u64>)
    requires
        start <= end <= s@.len(),
    ensures
        match r {
            Some(v) => segment_value(s@.subrange(start as int, end as int)) == Some(v as nat),
            None => segment_value(s@.subrange(start as int, end as int)) is None,
        },
{
    let ghost seg = s@.subrange(start as int, end as int);
    let mut j: usize = start;
    if j < end && s.get_char(j) == '+' {
        j = j + 1;
        assert(seg.drop_first() =~= s@.subrange(j as int, end as int));
    } else {
        assert(seg =~= s@.subrange(j as int, end as int));
    }
    let ghost body = s@.subrange(j as int, end as int);
    assert(unsigned_body(seg) == body);
    if j == end {
        return None;
    }
    let mut val: u64 = 0;
    let mut k: usize = j;
    assert(s@.subrange(j as int, j as int) =~= Seq::<char>::empty());
    while k < end
        invariant
            j <= k <= end <= s@.len(),
            seg == s@.subrange(start as int, end as int),
            body == s@.subrange(j as int, end as int),
            unsigned_body(seg) == body,
            body.len() > 0,
            all_digits(s@.subrange(j as int, k as int)),
            val as nat == digits_value(s@.subrange(j as int, k as int)),
        decreases end - k,
    {
        let c = s.get_char(k);
        if !('0' <= c && c <= '9') {
            assert(!is_ascii_digit(body[k - j]));
            assert(!all_digits(body));
            return None;
        }
        let d: u64 = (c as u32 - '0' as u32) as u64;
        let ghost next = s@.subrange(j as int, k + 1);
        assert(next.drop_last() =~= s@.subrange(j as int, k as int));
        assert(all_digits(next)) by {
            assert forall|i: int| 0 <= i < next.len() implies is_ascii_digit(#[trigger] next[i]) by {
                if i < next.len() - 1 {
                    assert(next[i] == s@.subrange(j as int, k as int)[i]);
                }
            }
        }
        assert(digits_value(next) == val * 10 + d);
        if val > (u64::MAX - d) / 10 {
            assert(val * 10 + d > u64::MAX) by (nonlinear_arith)
                requires
                    val > (u64::MAX - d) / 10,
                    d <= 9,
            ;
            proof {
                if all_digits(body) {
                    assert(body.take(k + 1 - j) =~= next);
                    lemma_digits_prefix(body, k + 1 - j);
                }
            }
            return None;
        }
        assert(val * 10 + d <= u64::MAX) by (nonlinear_arith)
            requires
                val <= (u64::MAX - d) / 10,
                d <= 9,
        ;
        val = val * 10 + d;
        k = k + 1;
    }
    assert(s@.subrange(j as int, k as int) =~= body);
    Some(val)
}

pub open spec fn as_nats(v: Seq<u64>) -> Seq<nat> {
    v.map_values(|x: u64| x as nat)
}

/// The numeric components of a version string, as `u64` values.
fn numeric_components(s: &str) -> (r: Vec<u64>)
    ensures
        as_nats(r@) == numeric_parts(s@),
{
    let n = s.unicode_len();
    let mut out: Vec<u64> = Vec::new();
    let mut start: usize = 0;
    let mut i: usize = 0;
    proof {
        lemma_split_dots_nonempty(s@.take(0));
        assert(s@.take(0) =~= Seq::<char>::empty());
        assert(s@.subrange(0, 0) =~= Seq::<char>::empty());
        assert(as_nats(out@) =~= Seq::<nat>::empty());
        assert(split_dots(s@.take(0)).drop_last() =~= Seq::<Seq<char>>::empty());
    }
    while i < n
        invariant
            n == s@.len(),
            start <= i <= n,
            split_dots(s@.take(i as int)).len() >= 1,
            split_dots(s@.take(i as int)).last() == s@.subrange(start as int, i as int),
            as_nats(out@) == numeric_values(split_dots(s@.take(i as int)).drop_last()),
        decreases n - i,
    {
        let c = s.get_char(i);
        let ghost prev = split_dots(s@.take(i as int));
        assert(s@.take(i + 1).drop_last() =~= s@.take(i as int));
        assert(s@.take(i + 1).last() == c);
        if c == '.' {
            let v = parse_segment(s, start, i);
            assert(prev =~= prev.drop_last().push(prev.last()));
            match v {
                Some(x) => {
                    out.push(x);
                    assert(as_nats(out@) =~= numeric_values(prev.drop_last()).push(x as nat));
                },
                None => {},
            }
            assert(split_dots(s@.take(i + 1)).drop_last() =~= prev);
            start = i + 1;
            assert(s@.subrange(start as int, start as int) =~= Seq::<char>::empty());
        } else {
            let ghost next = split_dots(s@.take(i + 1));
            assert(next.drop_last() =~= prev.drop_last());
            assert(s@.subrange(start as int, i + 1) =~= s@.subrange(start as int, i as int).push(c));
        }
        i = i + 1;
    }
    let ghost all = split_dots(s@.take(n as int));
    assert(s@.take(n as int) =~= s@);
    assert(all =~= all.drop_last().push(all.last()));
    let v = parse_segment(s, start, n);
    match v {
        Some(x) => {
            out.push(x);
            assert(as_nats(out@) =~= numeric_values(all.drop_last()).push(x as nat));
        },
        None => {},
    }
    out
}

/// Whether `remote` is a newer version than `local`: both are split on `.`,
/// non-numeric pieces are dropped, the shorter list is padded with zeros,
/// and the first differing component decides. Equal versions are not newer.
pub fn is_newer(local: &str, remote: &str) -> (r: bool)
    ensures
        r == newer(local@, remote@),
{
    let lp = numeric_components(local);
    let rp = numeric_components(remote);
    let ghost l = numeric_parts(local@);
    let ghost rr = numeric_parts(remote@);
    let max_len: usize = if lp.len() >= rp.len() {
        lp.len()
    } else {
        rp.len()
    };
    let mut i: usize = 0;
    while i < max_len
        invariant
            i <= max_len,
            max_len == if l.len() >= rr.len() { l.len() } else { rr.len() },
            as_nats(lp@) == l,
            as_nats(rp@) == rr,
            l == numeric_parts(local@),
            rr == numeric_parts(remote@),
            forall|j: int| 0 <= j < i ==> padded(rr, j) == padded(l, j),
        decreases max_len - i,
    {
        let lv: u64 = if i < lp.len() {
            lp[i]
        } else {
            0
        };
        let rv: u64 = if i < rp.len() {
            rp[i]
        } else {
            0
        };
        assert(padded(l, i as int) == lv as nat);
        assert(padded(rr, i as int) == rv as nat);
        if rv > lv {
            assert(padded(rr, i as int) > padded(l, i as int));
            return true;
        } else if rv < lv {
            assert(!newer(local@, remote@)) by {
                if exists|k: int|
                    0 <= k < max_len && #[trigger] padded(rr, k) > padded(l, k) && forall|j: int|
                        0 <= j < k ==> padded(rr, j) == padded(l, j) {
                    let k = choose|k: int|
                        0 <= k < max_len && #[trigger] padded(rr, k) > padded(l, k) && forall|
                            j: int,
                        |
                            0 <= j < k ==> padded(rr, j) == padded(l, j);
                    if k < i {
                    } else if k == i {
                    } else {
                        assert(padded(rr, i as int) == padded(l, i as int));
                    }
                }
            }
            return false;
        }
        i = i + 1;
    }
    assert(!newer(local@, remote@)) by {
        if exists|k: int|
            0 <= k < max_len && #[trigger] padded(rr, k) > padded(l, k) && forall|j: int|
                0 <= j < k ==> padded(rr, j) == padded(l, j) {
            let k = choose|k: int|
                0 <= k < max_len && #[trigger] padded(rr, k) > padded(l, k) && forall|j: int|
                    0 <= j < k ==> padded(rr, j) == padded(l, j);
            assert(padded(rr, k) == padded(l, k));
        }
    }
    false
}

} // verus!
