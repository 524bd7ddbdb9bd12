use vstd::prelude::*;
use vstd::string::StrSliceExecFns;

verus! {

// ---------------------------------------------------------------------------
// Decimal and hexadecimal readers. Reference ids, autonomous-system
// numbers and prefix lengths arrive as decimal text; address groups of
// the wider family arrive as hexadecimal text.
// ---------------------------------------------------------------------------
pub open spec fn is_digit(c: char) -> bool {
    '0' <= c && c <= '9'
}

pub open spec fn digit_val(c: char) -> int {
    c as int - '0' as int
}

pub open spec fn all_digits(s: Seq<char>) -> bool {
    forall|i: int| 0 <= i < s.len() ==> is_digit(#[trigger] s[i])
}

/// The number a digit sequence denotes, most significant digit first.
pub open spec fn dec_value(s: Seq<char>) -> int
    decreases s.len(),
{
    if s.len() == 0 {
        0
    } else {
        dec_value(s.drop_last()) * 10 + digit_val(s.last())
    }
}

/// The digit part of an unsigned number as `str::parse` reads it: the
/// text after an optional leading plus sign.
pub open spec fn uint_digits(s: Seq<char>) -> Seq<char> {
    if s.len() > 0 && s[0] == '+' {
        s.drop_first()
    } else {
        s
    }
}

/// Whether `str::parse` accepts `s` for an unsigned type with maximum
/// value `max`: an optional plus sign, then at least one digit, and a
/// value within bounds.
pub open spec fn parses_as_uint(s: Seq<char>, max: int) -> bool {
    let d = uint_digits(s);
    d.len() > 0 && all_digits(d) && dec_value(d) <= max
}

pub open spec fn uint_of(s: Seq<char>) -> int {
    dec_value(uint_digits(s))
}

/// A digit sequence denotes a value no smaller than any of its prefixes'.
pub proof fn lemma_dec_value_monotone(s: Seq<char>, i: int)
    requires
        0 <= i <= s.len(),
        all_digits(s),
    ensures
        0 <= dec_value(s.take(i)) <= dec_value(s),
    decreases s.len() - i,
{
    if i == s.len() {
        assert(s.take(i) =~= s);
        lemma_dec_value_nonneg(s);
    } else {
        lemma_dec_value_monotone(s, i + 1);
        assert(s.take(i + 1).drop_last() =~= s.take(i));
        assert(s.take(i + 1).last() == s[i]);
        lemma_dec_value_nonneg(s.take(i));
    }
}

pub proof fn lemma_dec_value_nonneg(s: Seq<char>)
    requires
        forall|i: int| 0 <= i < s.len() ==> is_digit(#[trigger] s[i]),
    ensures
        dec_value(s) >= 0,
    decreases s.len(),
{
    if s.len() > 0 {
        lemma_dec_value_nonneg(s.drop_last());
    }
}

/// Reads an unsigned decimal number the way `str::parse::<u32>` does:
/// an optional plus sign, then digits; anything else, or a value beyond
/// the type's range, is refused.
pub fn parse_u32_str(s: &str) -> (r: Option<u32>)
    ensures
        r is Some <==> parses_as_uint(s@, u32::MAX as int),
        r matches Some(v) ==> v as int == uint_of(s@),
{
    let len = s.unicode_len();
    let mut i: usize = 0;
    if len > 0 && s.get_char(0) == '+' {
        i = 1;
    }
    let ghost d = uint_digits(s@);
    proof {
        assert(d =~= s@.skip(i as int));
    }
    if i == len {
        return None;
    }
    let start = i;
    let mut acc: u64 = 0;
    while i < len
        invariant
            len == s@.len(),
            start <= i <= len,
            d == s@.skip(start as int),
            d == uint_digits(s@),
            start < len,
            start == 0 || start == 1,
            forall|j: int| start <= j < i ==> is_digit(#[trigger] s@[j]),
            acc as int == dec_value(s@.subrange(start as int, i as int)),
            acc <= u32::MAX,
        decreases len - i,
    {
        let c = s.get_char(i);
        if c < '0' || c > '9' {
            proof {
                assert(d[i - start] == s@[i as int]);
                assert(!is_digit(d[i - start]));
                assert(!all_digits(d));
                assert(!parses_as_uint(s@, u32::MAX as int));
            }
            return None;
        }
        let dv: u64 = (c as u32 as u64) - ('0' as u32 as u64);
        let next: u64 = acc * 10 + dv;
        proof {
            assert(s@.subrange(start as int, i as int + 1).drop_last() =~= s@.subrange(
                start as int,
                i as int,
            ));
            assert(s@.subrange(start as int, i as int + 1).last() == s@[i as int]);
        }
        if next > u32::MAX as u64 {
            // every longer digit string denotes at least this much
            proof {
                assert(dv as int == digit_val(s@[i as int]));
                assert(next as int == dec_value(s@.subrange(start as int, i as int + 1)));
                if parses_as_uint(s@, u32::MAX as int) {
                    lemma_dec_value_monotone(d, i + 1 - start);
                    assert(d.take(i + 1 - start) =~= s@.subrange(start as int, i as int + 1));
                    assert(false);
                }
            }
            return None;
        }
        acc = next;
        i = i + 1;
    }
    proof {
        assert(s@.subrange(start as int, len as int) =~= d);
    }
    Some(acc as u32)
}

/// Reads an unsigned decimal number the way `str::parse::<u8>` does.
pub fn parse_u8_str(s: &str) -> (r: Option<u8>)
    ensures
        r is Some <==> parses_as_uint(s@, u8::MAX as int),
        r matches Some(v) ==> v as int == uint_of(s@),
{
    match parse_u32_str(s) {
        Some(v) => {
            if v <= 255 {
                Some(v as u8)
            } else {
                None
            }
        },
        None => None,
    }
}

/// Reads a decimal number, falling back to zero where the text does not
/// parse — the row-scoped recovery the block files call for.
pub fn parse_u32_or_zero(s: &str) -> (r: u32)
    ensures
        parses_as_uint(s@, u32::MAX as int) ==> r as int == uint_of(s@),
        !parses_as_uint(s@, u32::MAX as int) ==> r == 0,
{
    match parse_u32_str(s) {
        Some(v) => v,
        None => 0,
    }
}

// ---------------------------------------------------------------------------
// Hexadecimal groups.
// ---------------------------------------------------------------------------
pub open spec fn is_hex_digit(c: char) -> bool {
    ('0' <= c && c <= '9') || ('a' <= c && c <= 'f') || ('A' <= c && c <= 'F')
}

pub open spec fn hex_val(c: char) -> int {
    if '0' <= c && c <= '9' {
        c as int - '0' as int
    } else if 'a' <= c && c <= 'f' {
        c as int - 'a' as int + 10
    } else {
        c as int - 'A' as int + 10
    }
}

pub open spec fn all_hex(s: Seq<char>) -> bool {
    forall|i: int| 0 <= i < s.len() ==> is_hex_digit(#[trigger] s[i])
}

/// The number a hexadecimal digit sequence denotes.
pub open spec fn hex_value(s: Seq<char>) -> int
    decreases s.len(),
{
    if s.len() == 0 {
        0
    } else {
        hex_value(s.drop_last()) * 16 + hex_val(s.last())
    }
}

/// One to four hexadecimal digits: one group of the wider address family.
pub open spec fn hex_group(s: Seq<char>) -> bool {
    1 <= s.len() <= 4 && all_hex(s)
}

pub proof fn lemma_hex_value_bound(s: Seq<char>)
    requires
        all_hex(s),
        s.len() <= 4,
    ensures
        0 <= hex_value(s) < 65536,
        s.len() <= 3 ==> hex_value(s) < 4096,
        s.len() <= 2 ==> hex_value(s) < 256,
        s.len() <= 1 ==> hex_value(s) < 16,
    decreases s.len(),
{
    if s.len() > 0 {
        lemma_hex_value_bound(s.drop_last());
    }
}

/// Reads one hexadecimal group of one to four digits.
pub fn parse_hex_group(s: &str) -> (r: Option<u16>)
    ensures
        r is Some <==> hex_group(s@),
        r matches Some(v) ==> v as int == hex_value(s@),
{
    let len = s.unicode_len();
    if len == 0 || len > 4 {
        return None;
    }
    let mut i: usize = 0;
    let mut acc: u32 = 0;
    while i < len
        invariant
            len == s@.len(),
            1 <= len <= 4,
            i <= len,
            forall|j: int| 0 <= j < i ==> is_hex_digit(#[trigger] s@[j]),
            acc as int == hex_value(s@.subrange(0, i as int)),
            acc < 65536,
        decreases len - i,
    {
        let c = s.get_char(i);
        let dv: u32;
        if c >= '0' && c <= '9' {
            dv = c as u32 - '0' as u32;
        } else if c >= 'a' && c <= 'f' {
            dv = c as u32 - 'a' as u32 + 10;
        } else if c >= 'A' && c <= 'F' {
            dv = c as u32 - 'A' as u32 + 10;
        } else {
            return None;
        }
        proof {
            assert(s@.subrange(0, i as int + 1).drop_last() =~= s@.subrange(0, i as int));
            assert(s@.subrange(0, i as int + 1).last() == s@[i as int]);
            assert(all_hex(s@.subrange(0, i as int)));
            lemma_hex_value_bound(s@.subrange(0, i as int));
        }
        acc = acc * 16 + dv;
        i = i + 1;
    }
    proof {
        assert(s@.subrange(0, len as int) =~= s@);
        lemma_hex_value_bound(s@);
    }
    Some(acc as u16)
}

} // verus!
