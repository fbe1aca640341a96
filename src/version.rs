//! Resolution of a raw compiler-version string into a toolchain version.

use vstd::prelude::*;

use crate::error::VerifyError;
use crate::record::ContractInfo;
use crate::text::{chars_of, string_of};

verus! {

/// A canonical `major.minor.patch` compiler release.
#[derive(Debug, Clone, Copy, PartialEq, Eq)]
pub struct ToolchainVersion {
    pub major: u64,
    pub minor: u64,
    pub patch: u64,
}

/// The part of `s` before its first `+` (all of `s` when it has none).
pub open spec fn before_first_plus(s: Seq<char>) -> Seq<char>
    decreases s.len(),
{
    if s.len() == 0 {
        s
    } else if s[0] == '+' {
        Seq::empty()
    } else {
        seq![s[0]] + before_first_plus(s.drop_first())
    }
}

/// `s` without one leading `v`, if it has one.
pub open spec fn without_leading_v(s: Seq<char>) -> Seq<char> {
    if s.len() > 0 && s[0] == 'v' {
        s.drop_first()
    } else {
        s
    }
}

/// The version text of a raw compiler-version string: commit suffix and prefix removed.
pub open spec fn version_core(raw: Seq<char>) -> Seq<char> {
    without_leading_v(before_first_plus(raw))
}

pub open spec fn is_digit(c: char) -> bool {
    '0' <= c <= '9'
}

pub open spec fn digit_value(c: char) -> nat {
    if is_digit(c) {
        (c as nat - '0' as nat) as nat
    } else {
        0
    }
}

/// The number that the decimal digits `d` spell.
pub open spec fn decimal_value(d: Seq<char>) -> nat
    decreases d.len(),
{
    if d.len() == 0 {
        0
    } else {
        decimal_value(d.drop_last()) * 10 + digit_value(d.last())
    }
}

/// One numeric component: digits only, no leading zero, and within `u64`.
pub open spec fn is_component(d: Seq<char>) -> bool {
    &&& d.len() > 0
    &&& forall|i: int| 0 <= i < d.len() ==> is_digit(#[trigger] d[i])
    &&& (d.len() == 1 || d[0] != '0')
    &&& decimal_value(d) <= u64::MAX
}

/// `s` is the three components `a`, `b`, `c` joined by dots.
pub open spec fn splits_into(s: Seq<char>, a: Seq<char>, b: Seq<char>, c: Seq<char>) -> bool {
    &&& s == a + seq!['.'] + b + seq!['.'] + c
    &&& is_component(a)
    &&& is_component(b)
    &&& is_component(c)
}

/// `s` is a well-formed `major.minor.patch` text.
pub open spec fn is_version_text(s: Seq<char>) -> bool {
    exists|a: Seq<char>, b: Seq<char>, c: Seq<char>| splits_into(s, a, b, c)
}

/// `s` is a well-formed version text that spells `v`.
pub open spec fn spells(s: Seq<char>, v: ToolchainVersion) -> bool {
    exists|a: Seq<char>, b: Seq<char>, c: Seq<char>|
        #![trigger splits_into(s, a, b, c)]
        splits_into(s, a, b, c) && v.major == decimal_value(a) && v.minor == decimal_value(b)
            && v.patch == decimal_value(c)
}

proof fn lemma_decimal_prefix_le(s: Seq<char>, k: int)
    requires
        0 <= k <= s.len(),
    ensures
        decimal_value(s.take(k)) <= decimal_value(s),
    decreases s.len(),
{
    if k < s.len() {
        assert(s.drop_last().take(k) =~= s.take(k));
        lemma_decimal_prefix_le(s.drop_last(), k);
    } else {
        assert(s.take(k) =~= s);
    }
}

proof fn lemma_before_first_plus(s: Seq<char>, k: int)
    requires
        0 <= k <= s.len(),
        forall|m: int| 0 <= m < k ==> s[m] != '+',
        k == s.len() || s[k] == '+',
    ensures
        before_first_plus(s) == s.take(k),
    decreases s.len(),
{
    if s.len() == 0 {
        assert(s.take(k) =~= s);
    } else if k == 0 {
        assert(s.take(k) =~= Seq::<char>::empty());
    } else {
        lemma_before_first_plus(s.drop_first(), k - 1);
        assert(seq![s[0]] + s.drop_first().take(k - 1) =~= s.take(k));
    }
}

/// Where the dots of a well-formed version text stand.
proof fn lemma_split_shape(s: Seq<char>, a: Seq<char>, b: Seq<char>, c: Seq<char>)
    requires
        splits_into(s, a, b, c),
    ensures
        s[a.len() as int] == '.',
        s[(a.len() + 1 + b.len()) as int] == '.',
        forall|m: int|
            0 <= m < s.len() && m != a.len() && m != a.len() + 1 + b.len() ==> #[trigger] s[m]
                != '.',
{
    let p = a.len() as int;
    let q = (a.len() + 1 + b.len()) as int;
    assert forall|m: int| 0 <= m < s.len() && m != p && m != q implies #[trigger] s[m] != '.' by {
        if m < p {
            assert(s[m] == a[m]);
            assert(is_digit(a[m]));
        } else if m < q {
            assert(s[m] == b[m - p - 1]);
            assert(is_digit(b[m - p - 1]));
        } else {
            assert(s[m] == c[m - q - 1]);
            assert(is_digit(c[m - q - 1]));
        }
    }
}

/// A split of a version text cuts it at its first two dots.
proof fn lemma_split_at_dots(
    s: Seq<char>,
    i: int,
    j: int,
    a: Seq<char>,
    b: Seq<char>,
    c: Seq<char>,
)
    requires
        0 <= i < j < s.len(),
        s[i] == '.',
        s[j] == '.',
        forall|m: int| 0 <= m < i ==> s[m] != '.',
        forall|m: int| i + 1 <= m < j ==> s[m] != '.',
        splits_into(s, a, b, c),
    ensures
        a == s.subrange(0, i),
        b == s.subrange(i + 1, j),
        c == s.subrange(j + 1, s.len() as int),
{
    lemma_split_shape(s, a, b, c);
    let p = a.len() as int;
    let q = (a.len() + 1 + b.len()) as int;
    assert(p == i) by {
        if p < i {
            assert(s[p] != '.');
        }
        if p > i {
            assert(s[i] != '.');
        }
    }
    assert(q == j) by {
        if q < j {
            assert(s[q] != '.');
        }
        if q > j {
            assert(s[j] != '.');
        }
    }
    assert(a =~= s.subrange(0, i));
    assert(b =~= s.subrange(i + 1, j));
    assert(c =~= s.subrange(j + 1, s.len() as int));
}

/// The first index at or after `from` where `cs` holds `ch`.
fn find_char(cs: &Vec<char>, from: usize, ch: char) -> (r: Option<usize>)
    requires
        from <= cs@.len(),
    ensures
        match r {
            Some(k) => from <= k < cs@.len() && cs@[k as int] == ch && forall|m: int|
                from <= m < k ==> cs@[m] != ch,
            None => forall|m: int| from <= m < cs@.len() ==> cs@[m] != ch,
        },
{
    let mut i: usize = from;
    while i < cs.len()
        invariant
            from <= i <= cs@.len(),
            forall|m: int| from <= m < i ==> cs@[m] != ch,
        decreases cs@.len() - i,
    {
        if cs[i] == ch {
            return Some(i);
        }
        i = i + 1;
    }
    None
}

/// The value of the component `cs[lo..hi]`, if it is one.
fn parse_component(cs: &Vec<char>, lo: usize, hi: usize) -> (r: Option<u64>)
    requires
        lo <= hi <= cs@.len(),
    ensures
        r is Some <==> is_component(cs@.subrange(lo as int, hi as int)),
        r matches Some(n) ==> n == decimal_value(cs@.subrange(lo as int, hi as int)),
{
    let ghost d = cs@.subrange(lo as int, hi as int);
    if lo == hi {
        return None;
    }
    if hi - lo > 1 && cs[lo] == '0' {
        return None;
    }
    let mut acc: u64 = 0;
    let mut k: usize = lo;
    while k < hi
        invariant
            lo <= k <= hi <= cs@.len(),
            d == cs@.subrange(lo as int, hi as int),
            forall|i: int| lo <= i < k ==> is_digit(#[trigger] cs@[i]),
            acc == decimal_value(cs@.subrange(lo as int, k as int)),
        decreases hi - k,
    {
        let c = cs[k];
        if !('0' <= c && c <= '9') {
            assert(!is_digit(d[k - lo]));
            return None;
        }
        let dv: u64 = (c as u32 - '0' as u32) as u64;
        let ghost next = cs@.subrange(lo as int, k + 1);
        assert(next.drop_last() =~= cs@.subrange(lo as int, k as int));
        assert(decimal_value(next) == acc * 10 + dv);
        if acc > (u64::MAX - dv) / 10 {
            assert(acc * 10 + dv > u64::MAX) by (nonlinear_arith)
                requires
                    acc > (u64::MAX - dv) / 10,
                    dv <= 9,
            ;
            proof {
                assert(d.take((k + 1 - lo) as int) =~= next);
                lemma_decimal_prefix_le(d, (k + 1 - lo) as int);
            }
            return None;
        }
        assert(acc * 10 + dv <= u64::MAX) by (nonlinear_arith)
            requires
                acc <= (u64::MAX - dv) / 10,
                dv <= 9,
        ;
        acc = acc * 10 + dv;
        k = k + 1;
    }
    assert(cs@.subrange(lo as int, k as int) =~= d);
    Some(acc)
}

/// Parses a `major.minor.patch` text.
fn parse_version(cs: &Vec<char>) -> (r: Option<ToolchainVersion>)
    ensures
        r is Some <==> is_version_text(cs@),
        r matches Some(v) ==> spells(cs@, v),
{
    let ghost s = cs@;
    let n = cs.len();
    let i = match find_char(cs, 0, '.') {
        Some(i) => i,
        None => {
            assert(!is_version_text(s)) by {
                if is_version_text(s) {
                    let (a, b, c) = choose|a: Seq<char>, b: Seq<char>, c: Seq<char>|
                        splits_into(s, a, b, c);
                    lemma_split_shape(s, a, b, c);
                }
            }
            return None;
        },
    };
    assert(i < cs@.len());
    let j = match find_char(cs, i + 1, '.') {
        Some(j) => j,
        None => {
            assert(!is_version_text(s)) by {
                if is_version_text(s) {
                    let (a, b, c) = choose|a: Seq<char>, b: Seq<char>, c: Seq<char>|
                        splits_into(s, a, b, c);
                    lemma_split_shape(s, a, b, c);
                    let p = a.len() as int;
                    if p < i {
                        assert(s[p] != '.');
                    }
                    assert(s[(a.len() + 1 + b.len()) as int] != '.');
                }
            }
            return None;
        },
    };
    assert(j < cs@.len());
    let ghost a = s.subrange(0, i as int);
    let ghost b = s.subrange(i + 1, j as int);
    let ghost c = s.subrange(j + 1, s.len() as int);
    let major = parse_component(cs, 0, i);
    let minor = parse_component(cs, i + 1, j);
    let patch = parse_component(cs, j + 1, n);
    match (major, minor, patch) {
        (Some(x), Some(y), Some(z)) => {
            assert(s =~= a + seq!['.'] + b + seq!['.'] + c);
            assert(splits_into(s, a, b, c));
            Some(ToolchainVersion { major: x, minor: y, patch: z })
        },
        _ => {
            assert(!is_version_text(s)) by {
                if is_version_text(s) {
                    let (a2, b2, c2) = choose|a: Seq<char>, b: Seq<char>, c: Seq<char>|
                        splits_into(s, a, b, c);
                    lemma_split_at_dots(s, i as int, j as int, a2, b2, c2);
                }
            }
            None
        },
    }
}

/// A version text spells at most one toolchain version, so resolution is deterministic.
pub proof fn lemma_spelled_version_unique(s: Seq<char>, v: ToolchainVersion, w: ToolchainVersion)
    requires
        spells(s, v),
        spells(s, w),
    ensures
        v == w,
{
    let (a, b, c) = choose|a: Seq<char>, b: Seq<char>, c: Seq<char>|
        splits_into(s, a, b, c) && v.major == decimal_value(a) && v.minor == decimal_value(b)
            && v.patch == decimal_value(c);
    let (a2, b2, c2) = choose|a: Seq<char>, b: Seq<char>, c: Seq<char>|
        splits_into(s, a, b, c) && w.major == decimal_value(a) && w.minor == decimal_value(b)
            && w.patch == decimal_value(c);
    lemma_split_shape(s, a, b, c);
    let i = a.len() as int;
    let j = (a.len() + 1 + b.len()) as int;
    lemma_split_at_dots(s, i, j, a, b, c);
    lemma_split_at_dots(s, i, j, a2, b2, c2);
}

/// Dropping the commit suffix and one leading `v` leaves exactly the text between them.
pub proof fn lemma_commit_suffix_dropped(p: Seq<char>, t: Seq<char>)
    requires
        forall|i: int| 0 <= i < p.len() ==> p[i] != '+',
    ensures
        version_core(seq!['v'] + p + seq!['+'] + t) == p,
{
    let raw = seq!['v'] + p + seq!['+'] + t;
    assert forall|m: int| 0 <= m < p.len() + 1 implies raw[m] != '+' by {
        if m > 0 {
            assert(raw[m] == p[m - 1]);
        }
    }
    lemma_before_first_plus(raw, (p.len() + 1) as int);
    assert(raw.take((p.len() + 1) as int).drop_first() =~= p);
}

/// A version text with no commit suffix and no leading `v` is kept as it is.
pub proof fn lemma_plain_version_unchanged(s: Seq<char>)
    requires
        forall|i: int| 0 <= i < s.len() ==> s[i] != '+',
        s.len() == 0 || s[0] != 'v',
    ensures
        version_core(s) == s,
{
    lemma_before_first_plus(s, s.len() as int);
    assert(s.take(s.len() as int) =~= s);
}

/// The bounds of the version text inside a raw version string.
fn core_bounds(cs: &Vec<char>) -> (r: (usize, usize))
    ensures
        r.0 <= r.1 <= cs@.len(),
        cs@.subrange(r.0 as int, r.1 as int) == version_core(cs@),
{
    let n = cs.len();
    let end = match find_char(cs, 0, '+') {
        Some(k) => k,
        None => n,
    };
    proof {
        lemma_before_first_plus(cs@, end as int);
    }
    if end > 0 && cs[0] == 'v' {
        assert(cs@.take(end as int).drop_first() =~= cs@.subrange(1, end as int));
        (1, end)
    } else {
        assert(cs@.take(end as int) =~= cs@.subrange(0, end as int));
        (0, end)
    }
}

/// The compiler version of `info` without its commit suffix and leading `v`.
pub fn extract_compiler_version(info: &ContractInfo) -> (r: String)
    ensures
        r@ == version_core(info.compiler_version@),
{
    let cs = chars_of(info.compiler_version.as_str());
    let (lo, hi) = core_bounds(&cs);
    string_of(&cs, lo, hi)
}

/// Resolves a raw compiler-version string into the toolchain release it names.
pub fn resolve(raw: &str) -> (r: Result<ToolchainVersion, VerifyError>)
    ensures
        r is Ok <==> is_version_text(version_core(raw@)),
        r matches Ok(v) ==> spells(version_core(raw@), v),
        r matches Err(e) ==> e == VerifyError::MalformedVersion,
{
    let cs = chars_of(raw);
    let (lo, hi) = core_bounds(&cs);
    let core = string_of(&cs, lo, hi);
    let core_chars = chars_of(core.as_str());
    match parse_version(&core_chars) {
        Some(v) => Ok(v),
        None => Err(VerifyError::MalformedVersion),
    }
}

} // verus!
