use vstd::prelude::*;
use vstd::string::StrSliceExecFns;
use crate::csv::seq_views;
use crate::num::{
    all_digits, dec_value, is_digit, lemma_dec_value_monotone, hex_group, hex_value,
    parse_hex_group, lemma_hex_value_bound,
};

verus! {

// ---------------------------------------------------------------------------
// An address-family-tagged network prefix. The invariant every consumer
// relies on: a prefix length never exceeds its family's bit width.
// Values that fail to parse are discarded by the parsers below, never
// defaulted or clamped.
// ---------------------------------------------------------------------------
#[allow(inconsistent_fields)]
#[derive(Clone, Copy, Debug, PartialEq, Eq, Structural)]
pub enum NetworkPrefix {
    V4 { addr: u32, prefix: u8 },
    V6 { addr: u128, prefix: u8 },
}

impl NetworkPrefix {
    pub open spec fn wf(&self) -> bool {
        match *self {
            NetworkPrefix::V4 { addr, prefix } => prefix <= 32,
            NetworkPrefix::V6 { addr, prefix } => prefix <= 128,
        }
    }
}

// ---------------------------------------------------------------------------
// Splitting on a separator character.
// ---------------------------------------------------------------------------
/// Index of the first `sep` at or after `i`, or the length when none is left.
pub open spec fn sep_idx(s: Seq<char>, i: int, sep: char) -> int
    decreases s.len() - i,
{
    if i < 0 || i >= s.len() {
        s.len() as int
    } else if s[i] == sep {
        i
    } else {
        sep_idx(s, i + 1, sep)
    }
}

pub proof fn lemma_sep_idx_bounds(s: Seq<char>, i: int, sep: char)
    requires
        0 <= i <= s.len(),
    ensures
        i <= sep_idx(s, i, sep) <= s.len(),
    decreases s.len() - i,
{
    if i < s.len() && s[i] != sep {
        lemma_sep_idx_bounds(s, i + 1, sep);
    }
}

/// `s` cut at every occurrence of `sep`. An empty input yields one empty
/// part; a trailing separator yields a final empty part.
pub open spec fn split_on(s: Seq<char>, sep: char) -> Seq<Seq<char>>
    decreases s.len(),
    via split_on_decreases
{
    let k = sep_idx(s, 0, sep);
    if k >= s.len() {
        seq![s]
    } else {
        seq![s.subrange(0, k)] + split_on(s.skip(k + 1), sep)
    }
}

#[via_fn]
proof fn split_on_decreases(s: Seq<char>, sep: char) {
    lemma_sep_idx_bounds(s, 0, sep);
}

/// Finds the first `sep` at or after `from`, or the length.
pub(crate) fn scan_sep(s: &str, from: usize, len: usize, sep: char) -> (k: usize)
    requires
        len == s@.len(),
        from <= len,
    ensures
        k == sep_idx(s@, from as int, sep),
        from <= k <= len,
        k < len ==> s@[k as int] == sep,
{
    let mut k = from;
    loop
        invariant
            len == s@.len(),
            from <= k <= len,
            sep_idx(s@, from as int, sep) == sep_idx(s@, k as int, sep),
        ensures
            k == sep_idx(s@, from as int, sep),
            k <= len,
            k < len ==> s@[k as int] == sep,
        decreases len - k,
    {
        if k == len {
            break ;
        }
        let c = s.get_char(k);
        if c == sep {
            break ;
        }
        k = k + 1;
    }
    proof {
        lemma_sep_idx_bounds(s@, from as int, sep);
    }
    k
}

/// Splits `s` at every occurrence of `sep`.
pub fn split_sep(s: &str, sep: char) -> (r: Vec<String>)
    ensures
        seq_views(r@) == split_on(s@, sep),
        r@.len() >= 1,
{
    let len = s.unicode_len();
    let mut out: Vec<String> = Vec::new();
    let mut i: usize = 0;
    proof {
        assert(s@.skip(0) =~= s@);
        assert(seq_views(out@) + split_on(s@, sep) =~= split_on(s@, sep));
    }
    loop
        invariant_except_break
            split_on(s@, sep) == seq_views(out@) + split_on(s@.skip(i as int), sep),
        invariant
            len == s@.len(),
            i <= len,
        ensures
            split_on(s@, sep) == seq_views(out@),
            out@.len() >= 1,
        decreases len - i,
    {
        let ghost pre = seq_views(out@);
        let ghost rest = s@.skip(i as int);
        let k = scan_sep(s, i, len, sep);
        proof {
            lemma_sep_idx_shift(s@, i as int, i as int, sep);
            assert(sep_idx(rest, 0, sep) == k - i);
        }
        let part = s.substring_char(i, k).to_owned();
        proof {
            assert(rest.subrange(0, sep_idx(rest, 0, sep)) =~= s@.subrange(i as int, k as int));
            assert(rest =~= s@.subrange(i as int, len as int));
        }
        if k >= len {
            out.push(part);
            proof {
                assert(seq_views(out@) =~= pre + split_on(rest, sep));
            }
            break ;
        } else {
            out.push(part);
            proof {
                assert(rest.skip(sep_idx(rest, 0, sep) + 1) =~= s@.skip(k as int + 1));
                assert(seq_views(out@) =~= pre + seq![part@]);
                assert(pre + (seq![part@] + split_on(s@.skip(k as int + 1), sep)) =~= (pre
                    + seq![part@]) + split_on(s@.skip(k as int + 1), sep));
            }
            i = k + 1;
        }
    }
    out
}

/// Shifts `sep_idx` across a prefix drop.
pub proof fn lemma_sep_idx_shift(s: Seq<char>, d: int, i: int, sep: char)
    requires
        0 <= d <= s.len(),
        d <= i <= s.len(),
    ensures
        sep_idx(s.skip(d), i - d, sep) == sep_idx(s, i, sep) - d,
    decreases s.len() - i,
{
    if i >= s.len() {
    } else {
        assert(s.skip(d)[i - d] == s[i]);
        if s[i] != sep {
            lemma_sep_idx_shift(s, d, i + 1, sep);
        }
    }
}

// ---------------------------------------------------------------------------
// The narrow address family: four dot-separated decimal octets.
// ---------------------------------------------------------------------------
/// One address octet: one or more decimal digits denoting at most 255.
pub open spec fn is_octet(p: Seq<char>) -> bool {
    0 < p.len() && all_digits(p) && dec_value(p) <= 255
}

pub open spec fn valid_ipv4(s: Seq<char>) -> bool {
    let ps = split_on(s, '.');
    ps.len() == 4 && is_octet(ps[0]) && is_octet(ps[1]) && is_octet(ps[2]) && is_octet(ps[3])
}

pub open spec fn ipv4_of(s: Seq<char>) -> int {
    let ps = split_on(s, '.');
    ((dec_value(ps[0]) * 256 + dec_value(ps[1])) * 256 + dec_value(ps[2])) * 256 + dec_value(ps[3])
}

/// Reads one decimal octet: digits only, at most 255.
fn parse_octet(s: &str) -> (r: Option<u8>)
    ensures
        r is Some <==> is_octet(s@),
        r matches Some(v) ==> v as int == dec_value(s@),
{
    let len = s.unicode_len();
    if len == 0 {
        return None;
    }
    let mut i: usize = 0;
    let mut acc: u32 = 0;
    while i < len
        invariant
            len == s@.len(),
            len > 0,
            i <= len,
            forall|j: int| 0 <= j < i ==> is_digit(#[trigger] s@[j]),
            acc as int == dec_value(s@.subrange(0, i as int)),
            acc <= 255,
        decreases len - i,
    {
        let c = s.get_char(i);
        if c < '0' || c > '9' {
            return None;
        }
        let dv: u32 = c as u32 - '0' as u32;
        let next: u32 = acc * 10 + dv;
        proof {
            assert(s@.subrange(0, i as int + 1).drop_last() =~= s@.subrange(0, i as int));
            assert(s@.subrange(0, i as int + 1).last() == s@[i as int]);
            assert(next as int == dec_value(s@.subrange(0, i as int + 1)));
        }
        if next > 255 {
            proof {
                if is_octet(s@) {
                    lemma_dec_value_monotone(s@, i + 1);
                    assert(s@.take(i + 1) =~= s@.subrange(0, i as int + 1));
                    assert(false);
                }
            }
            return None;
        }
        acc = next;
        i = i + 1;
    }
    proof {
        assert(s@.subrange(0, len as int) =~= s@);
    }
    Some(acc as u8)
}

/// Reads a dotted-quad address into its 32-bit value. Exactly four octets,
/// each at most 255; anything else is refused.
pub fn ipv4_from_str(ip: &str) -> (r: Option<u32>)
    ensures
        r is Some <==> valid_ipv4(ip@),
        r matches Some(v) ==> v as int == ipv4_of(ip@),
{
    let parts = split_sep(ip, '.');
    let ghost ps = split_on(ip@, '.');
    if parts.len() != 4 {
        return None;
    }
    proof {
        assert(ps[0] == parts@[0]@);
        assert(ps[1] == parts@[1]@);
        assert(ps[2] == parts@[2]@);
        assert(ps[3] == parts@[3]@);
    }
    let a = match parse_octet(parts[0].as_str()) {
        Some(v) => v,
        None => {
            return None;
        },
    };
    let b = match parse_octet(parts[1].as_str()) {
        Some(v) => v,
        None => {
            return None;
        },
    };
    let c = match parse_octet(parts[2].as_str()) {
        Some(v) => v,
        None => {
            return None;
        },
    };
    let d = match parse_octet(parts[3].as_str()) {
        Some(v) => v,
        None => {
            return None;
        },
    };
    let value: u32 = ((a as u32 * 256 + b as u32) * 256 + c as u32) * 256 + d as u32;
    Some(value)
}

// ---------------------------------------------------------------------------
// The wide address family: colon-separated hexadecimal groups, with one
// optional `::` run standing for the omitted zero groups. The embedded
// dotted-quad form is not part of this grammar; the catalogs this
// library reads publish their ranges in pure group notation.
// ---------------------------------------------------------------------------
pub open spec fn ipv6_groups(s: Seq<char>) -> Seq<Seq<char>> {
    split_on(s, ':')
}

pub open spec fn groups_all_hex(gs: Seq<Seq<char>>, lo: int, hi: int) -> bool {
    forall|i: int| lo <= i < hi ==> hex_group(#[trigger] gs[i])
}

/// The textual shapes accepted: eight full groups; the bare `::`; a
/// leading or trailing `::` beside at most seven groups; or one `::` in
/// the middle with at most seven groups around it.
pub open spec fn valid_ipv6(s: Seq<char>) -> bool {
    let gs = ipv6_groups(s);
    let n = gs.len() as int;
    ||| (n == 8 && groups_all_hex(gs, 0, 8))
    ||| (n == 3 && gs[0].len() == 0 && gs[1].len() == 0 && gs[2].len() == 0)
    ||| (3 <= n <= 9 && gs[0].len() == 0 && gs[1].len() == 0 && groups_all_hex(gs, 2, n))
    ||| (3 <= n <= 9 && gs[n - 1].len() == 0 && gs[n - 2].len() == 0 && groups_all_hex(
        gs,
        0,
        n - 2,
    ))
    ||| (3 <= n <= 8 && exists|e: int|
        1 <= e <= n - 2 && gs[e].len() == 0 && groups_all_hex(gs, 0, e) && groups_all_hex(
            gs,
            e + 1,
            n,
        ))
}

/// The value of a group list, most significant group first.
pub open spec fn fold16(gs: Seq<Seq<char>>) -> int
    decreases gs.len(),
{
    if gs.len() == 0 {
        0
    } else {
        fold16(gs.drop_last()) * 65536 + hex_value(gs.last())
    }
}

pub open spec fn pow16(k: int) -> int
    decreases k,
{
    if k <= 0 {
        1
    } else {
        65536 * pow16(k - 1)
    }
}

pub open spec fn ipv6_of(s: Seq<char>) -> int {
    let gs = ipv6_groups(s);
    let n = gs.len() as int;
    if n == 8 && groups_all_hex(gs, 0, 8) {
        fold16(gs)
    } else if n == 3 && gs[0].len() == 0 && gs[1].len() == 0 && gs[2].len() == 0 {
        0
    } else if gs[0].len() == 0 && gs[1].len() == 0 {
        fold16(gs.skip(2))
    } else if gs[n - 1].len() == 0 && gs[n - 2].len() == 0 {
        fold16(gs.take(n - 2)) * pow16(8 - (n - 2))
    } else {
        let e = choose|e: int|
            1 <= e <= n - 2 && gs[e].len() == 0 && groups_all_hex(gs, 0, e) && groups_all_hex(
                gs,
                e + 1,
                n,
            );
        fold16(gs.take(e)) * pow16(8 - e) + fold16(gs.skip(e + 1))
    }
}

pub proof fn lemma_pow16_pos(k: int)
    ensures
        pow16(k) >= 1,
    decreases (if k > 0 { k } else { 0 }),
{
    if k > 0 {
        lemma_pow16_pos(k - 1);
    }
}

pub proof fn lemma_pow16_mono(a: int, b: int)
    requires
        a <= b,
    ensures
        pow16(a) <= pow16(b),
    decreases (if b > 0 { b } else { 0 }),
{
    if b > 0 && a < b {
        lemma_pow16_mono(a, b - 1);
        lemma_pow16_pos(b - 1);
    }
}

pub proof fn lemma_pow16_add(a: int, b: int)
    requires
        0 <= a,
        0 <= b,
    ensures
        pow16(a + b) == pow16(a) * pow16(b),
    decreases a,
{
    if a == 0 {
    } else {
        lemma_pow16_add(a - 1, b);
        assert(pow16(a + b) == 65536 * pow16(a - 1 + b));
        assert(65536 * (pow16(a - 1) * pow16(b)) == (65536 * pow16(a - 1)) * pow16(b))
            by (nonlinear_arith);
    }
}

/// A list of `k` groups folds to a value below `pow16(k)`.
pub proof fn lemma_fold16_bound(gs: Seq<Seq<char>>)
    requires
        groups_all_hex(gs, 0, gs.len() as int),
    ensures
        0 <= fold16(gs) < pow16(gs.len() as int),
    decreases gs.len(),
{
    if gs.len() == 0 {
    } else {
        assert(groups_all_hex(gs.drop_last(), 0, gs.len() - 1)) by {
            assert(forall|i: int|
                0 <= i < gs.len() - 1 ==> gs.drop_last()[i] == #[trigger] gs[i]);
        }
        lemma_fold16_bound(gs.drop_last());
        lemma_hex_value_bound(gs.last());
        let p = pow16(gs.len() - 1 as int);
        assert(fold16(gs.drop_last()) <= p - 1);
        assert(fold16(gs.drop_last()) * 65536 <= (p - 1) * 65536) by (nonlinear_arith)
            requires
                fold16(gs.drop_last()) <= p - 1,
        ;
        assert(pow16(gs.len() as int) == 65536 * p);
    }
}

/// Exactly one `::` position can satisfy the middle shape: any other
/// candidate has the first one's empty group on one of its sides.
pub proof fn lemma_middle_unique(gs: Seq<Seq<char>>, e1: int, e2: int)
    requires
        0 <= e1 < gs.len(),
        0 <= e2 < gs.len(),
        gs[e1].len() == 0 && groups_all_hex(gs, 0, e1) && groups_all_hex(gs, e1 + 1, gs.len() as int),
        gs[e2].len() == 0 && groups_all_hex(gs, 0, e2) && groups_all_hex(gs, e2 + 1, gs.len() as int),
    ensures
        e1 == e2,
{
    if e1 < e2 {
        assert(hex_group(gs[e1]));
    } else if e2 < e1 {
        assert(hex_group(gs[e2]));
    }
}

/// Folds the groups `gs[lo..hi]`, refusing any that is not a hexadecimal
/// group of one to four digits.
fn fold_hex_groups(gs: &Vec<String>, lo: usize, hi: usize) -> (r: Option<u128>)
    requires
        lo <= hi <= gs@.len(),
        hi - lo <= 8,
    ensures
        r is Some <==> groups_all_hex(seq_views(gs@), lo as int, hi as int),
        r matches Some(v) ==> v as int == fold16(seq_views(gs@).subrange(lo as int, hi as int)),
{
    let ghost vs = seq_views(gs@);
    let mut i: usize = lo;
    let mut acc: u128 = 0;
    proof {
        assert(vs.subrange(lo as int, lo as int) =~= Seq::<Seq<char>>::empty());
    }
    while i < hi
        invariant
            lo <= i <= hi <= gs@.len(),
            hi - lo <= 8,
            vs == seq_views(gs@),
            forall|j: int| lo <= j < i ==> hex_group(#[trigger] vs[j]),
            acc as int == fold16(vs.subrange(lo as int, i as int)),
            (acc as int) < pow16(i as int - lo as int),
        decreases hi - i,
    {
        let g = match parse_hex_group(gs[i].as_str()) {
            Some(v) => v,
            None => {
                proof {
                    assert(!hex_group(vs[i as int]));
                }
                return None;
            },
        };
        proof {
            let cur = vs.subrange(lo as int, i as int);
            let nxt = vs.subrange(lo as int, i as int + 1);
            assert(nxt.drop_last() =~= cur);
            assert(nxt.last() == vs[i as int]);
            lemma_hex_value_bound(vs[i as int]);
            lemma_pow16_pos(i as int - lo as int);
            assert(acc as int * 65536 <= (pow16(i as int - lo as int) - 1) * 65536) by (nonlinear_arith)
                requires
                    acc as int <= pow16(i as int - lo as int) - 1,
            ;
            assert(pow16(i as int - lo as int + 1) == 65536 * pow16(i as int - lo as int));
            lemma_pow16_mono(i as int - lo as int + 1, 8);
            assert(pow16(8) == 65536 * pow16(7));
            assert(pow16(7) == 65536 * pow16(6));
            assert(pow16(6) == 65536 * pow16(5));
            assert(pow16(5) == 65536 * pow16(4));
            assert(pow16(4) == 65536 * pow16(3));
            assert(pow16(3) == 65536 * pow16(2));
            assert(pow16(2) == 65536 * pow16(1));
            assert(pow16(1) == 65536 * pow16(0));
        }
        acc = acc * 65536 + g as u128;
        i = i + 1;
    }
    Some(acc)
}

/// Reads a colon-grouped address into its 128-bit value, honoring one
/// optional `::` run standing for the omitted zero groups; any other
/// shape is refused.
pub fn ipv6_from_str(ip: &str) -> (r: Option<u128>)
    ensures
        r is Some <==> valid_ipv6(ip@),
        r matches Some(v) ==> v as int == ipv6_of(ip@),
{
    let gs = split_sep(ip, ':');
    let ghost vs = split_on(ip@, ':');
    let n = gs.len();
    proof {
        assert(vs.len() == n);
        assert(forall|i: int| 0 <= i < n ==> vs[i] == #[trigger] gs@[i]@);
    }
    if n < 3 {
        return None;
    }
    if gs[0].as_str().is_empty() {
        if !gs[1].as_str().is_empty() {
            proof {
                assert(!hex_group(vs[0]));
            }
            return None;
        }
        if n == 3 && gs[2].as_str().is_empty() {
            proof {
                assert(!hex_group(vs[0]));
                assert(valid_ipv6(ip@));
            }
            return Some(0);
        }
        if n > 9 {
            proof {
                assert(!hex_group(vs[0]));
            }
            return None;
        }
        match fold_hex_groups(&gs, 2, n) {
            Some(v) => {
                proof {
                    assert(!hex_group(vs[0]));
                    assert(vs.subrange(2, n as int) =~= vs.skip(2));
                    assert(valid_ipv6(ip@));
                }
                Some(v)
            },
            None => {
                proof {
                    assert(!hex_group(vs[0]));
                }
                None
            },
        }
    } else if gs[n - 1].as_str().is_empty() {
        if !gs[n - 2].as_str().is_empty() {
            proof {
                assert(!hex_group(vs[n - 1]));
            }
            return None;
        }
        if n > 9 {
            proof {
                assert(!hex_group(vs[n - 1]));
            }
            return None;
        }
        match fold_hex_groups(&gs, 0, n - 2) {
            Some(hv) => {
                let h = n - 2;
                let mult = pow16_u128(8 - h);
                proof {
                    assert(!hex_group(vs[n - 1]));
                    assert(vs.subrange(0, h as int) =~= vs.take(h as int));
                    lemma_fold16_bound(vs.take(h as int));
                    lemma_pow16_add(h as int, 8 - h as int);
                    lemma_pow16_pos(8 - h as int);
                    assert(hv as int * pow16(8 - h as int) <= (pow16(h as int) - 1) * pow16(
                        8 - h as int,
                    )) by (nonlinear_arith)
                        requires
                            hv as int <= pow16(h as int) - 1,
                            pow16(8 - h as int) >= 1,
                    ;
                    assert((pow16(h as int) - 1) * pow16(8 - h as int) == pow16(h as int) * pow16(
                        8 - h as int,
                    ) - pow16(8 - h as int)) by (nonlinear_arith);
                    assert(pow16(8) == 65536 * pow16(7));
                    assert(pow16(7) == 65536 * pow16(6));
                    assert(pow16(6) == 65536 * pow16(5));
                    assert(pow16(5) == 65536 * pow16(4));
                    assert(pow16(4) == 65536 * pow16(3));
                    assert(pow16(3) == 65536 * pow16(2));
                    assert(pow16(2) == 65536 * pow16(1));
                    assert(pow16(1) == 65536 * pow16(0));
                    assert(valid_ipv6(ip@));
                }
                Some(hv * mult)
            },
            None => {
                proof {
                    assert(!hex_group(vs[n - 1]));
                    assert(vs[0].len() != 0);
                }
                None
            },
        }
    } else {
        // both ends are groups; look for one omitted run in the middle
        let mut e: usize = 0;
        let mut e2: usize = 0;
        let mut i: usize = 1;
        while i < n - 1
            invariant
                3 <= n == vs.len(),
                vs == seq_views(gs@),
                forall|j: int| 0 <= j < n ==> vs[j] == #[trigger] gs@[j]@,
                1 <= i <= n - 1,
                e < i,
                e2 < i,
                e == 0 ==> forall|j: int| 1 <= j < i ==> (#[trigger] vs[j]).len() != 0,
                e != 0 ==> 1 <= e && vs[e as int].len() == 0,
                e != 0 ==> forall|j: int| 1 <= j < e ==> (#[trigger] vs[j]).len() != 0,
                e2 == 0 && e != 0 ==> forall|j: int|
                    e < j < i ==> (#[trigger] vs[j]).len() != 0,
                e2 != 0 ==> e != 0 && e < e2 && vs[e2 as int].len() == 0,
            decreases n - i,
        {
            if gs[i].as_str().is_empty() {
                if e == 0 {
                    e = i;
                } else if e2 == 0 {
                    e2 = i;
                }
            }
            i = i + 1;
        }
        if e == 0 {
            if n != 8 {
                return None;
            }
            match fold_hex_groups(&gs, 0, 8) {
                Some(v) => {
                    proof {
                        assert(vs.subrange(0, 8) =~= vs);
                        assert(valid_ipv6(ip@));
                    }
                    Some(v)
                },
                None => {
                    None
                },
            }
        } else {
            if e2 != 0 {
                proof {
                    assert(!hex_group(vs[e as int]));
                    if valid_ipv6(ip@) {
                        let ec = choose|ec: int|
                            1 <= ec <= vs.len() - 2 && vs[ec].len() == 0 && groups_all_hex(
                                vs,
                                0,
                                ec,
                            ) && groups_all_hex(vs, ec + 1, vs.len() as int);
                        if ec < e {
                            assert(vs[ec].len() != 0);
                        } else if ec == e {
                            assert(hex_group(vs[e2 as int]));
                        } else {
                            assert(hex_group(vs[e as int]));
                        }
                        assert(false);
                    }
                }
                return None;
            }
            if n > 8 {
                proof {
                    assert(!hex_group(vs[e as int]));
                }
                return None;
            }
            let hv = match fold_hex_groups(&gs, 0, e) {
                Some(v) => v,
                None => {
                    proof {
                        assert(!hex_group(vs[e as int]));
                        if valid_ipv6(ip@) {
                            let ec = choose|ec: int|
                                1 <= ec <= vs.len() - 2 && vs[ec].len() == 0 && groups_all_hex(
                                    vs,
                                    0,
                                    ec,
                                ) && groups_all_hex(vs, ec + 1, vs.len() as int);
                            if ec < e {
                                assert(vs[ec].len() != 0);
                            } else if ec > e {
                                assert(hex_group(vs[e as int]));
                            }
                            assert(false);
                        }
                    }
                    return None;
                },
            };
            let tv = match fold_hex_groups(&gs, e + 1, n) {
                Some(v) => v,
                None => {
                    proof {
                        assert(!hex_group(vs[e as int]));
                        if valid_ipv6(ip@) {
                            let ec = choose|ec: int|
                                1 <= ec <= vs.len() - 2 && vs[ec].len() == 0 && groups_all_hex(
                                    vs,
                                    0,
                                    ec,
                                ) && groups_all_hex(vs, ec + 1, vs.len() as int);
                            if ec < e {
                                assert(vs[ec].len() != 0);
                            } else if ec > e {
                                assert(hex_group(vs[e as int]));
                            }
                            assert(false);
                        }
                    }
                    return None;
                },
            };
            let mult = pow16_u128(8 - e);
            proof {
                assert(!hex_group(vs[e as int]));
                assert(e <= n - 2);
                assert(vs.subrange(0, e as int) =~= vs.take(e as int));
                assert(vs.subrange(e as int + 1, n as int) =~= vs.skip(e as int + 1));
                lemma_fold16_bound(vs.take(e as int));
                lemma_fold16_bound(vs.skip(e as int + 1));
                lemma_pow16_add(e as int, 8 - e as int);
                lemma_pow16_pos(8 - e as int);
                lemma_pow16_mono(n - 1 - e as int, 8 - e as int);
                assert(hv as int * pow16(8 - e as int) <= (pow16(e as int) - 1) * pow16(
                    8 - e as int,
                )) by (nonlinear_arith)
                    requires
                        hv as int <= pow16(e as int) - 1,
                        pow16(8 - e as int) >= 1,
                ;
                assert((pow16(e as int) - 1) * pow16(8 - e as int) == pow16(e as int) * pow16(
                    8 - e as int,
                ) - pow16(8 - e as int)) by (nonlinear_arith);
                assert(pow16(8) == 65536 * pow16(7));
                assert(pow16(7) == 65536 * pow16(6));
                assert(pow16(6) == 65536 * pow16(5));
                assert(pow16(5) == 65536 * pow16(4));
                assert(pow16(4) == 65536 * pow16(3));
                assert(pow16(3) == 65536 * pow16(2));
                assert(pow16(2) == 65536 * pow16(1));
                assert(pow16(1) == 65536 * pow16(0));
                assert(valid_ipv6(ip@));
                let ec = choose|ec: int|
                    1 <= ec <= vs.len() - 2 && vs[ec].len() == 0 && groups_all_hex(vs, 0, ec)
                        && groups_all_hex(vs, ec + 1, vs.len() as int);
                lemma_middle_unique(vs, e as int, ec);
            }
            Some(hv * mult + tv)
        }
    }
}

/// The powers of one group's range, as machine values.
fn pow16_u128(k: usize) -> (r: u128)
    requires
        k <= 7,
    ensures
        r as int == pow16(k as int),
{
    proof {
        assert(pow16(7) == 65536 * pow16(6));
        assert(pow16(6) == 65536 * pow16(5));
        assert(pow16(5) == 65536 * pow16(4));
        assert(pow16(4) == 65536 * pow16(3));
        assert(pow16(3) == 65536 * pow16(2));
        assert(pow16(2) == 65536 * pow16(1));
        assert(pow16(1) == 65536 * pow16(0));
    }
    if k == 0 {
        1
    } else if k == 1 {
        65536
    } else if k == 2 {
        4294967296
    } else if k == 3 {
        281474976710656
    } else if k == 4 {
        18446744073709551616
    } else if k == 5 {
        1208925819614629174706176
    } else if k == 6 {
        79228162514264337593543950336
    } else {
        5192296858534827628530496329220096
    }
}

} // verus!
