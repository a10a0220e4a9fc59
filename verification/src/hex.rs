use vstd::prelude::*;

verus! {

/// The largest value a hex field may decode to: the readings are parsed
/// into signed 64-bit integers, so anything above `i64::MAX` is rejected.
pub open spec fn max_field_value() -> nat {
    0x7fff_ffff_ffff_ffff
}

/// Whether `c` is a base-16 digit (either case).
pub open spec fn is_hex_digit(c: char) -> bool {
    ('0' as u32 <= c as u32 && c as u32 <= '9' as u32) || ('a' as u32 <= c as u32 && c as u32
        <= 'f' as u32) || ('A' as u32 <= c as u32 && c as u32 <= 'F' as u32)
}

/// The numeric value of one hex digit.
pub open spec fn hex_digit_value(c: char) -> nat {
    if '0' as u32 <= c as u32 && c as u32 <= '9' as u32 {
        (c as u32 - '0' as u32) as nat
    } else if 'a' as u32 <= c as u32 && c as u32 <= 'f' as u32 {
        (c as u32 - 'a' as u32 + 10) as nat
    } else {
        (c as u32 - 'A' as u32 + 10) as nat
    }
}

/// Whether every character of `s` is a hex digit.
pub open spec fn all_hex_digits(s: Seq<char>) -> bool {
    forall|i: int| 0 <= i < s.len() ==> is_hex_digit(#[trigger] s[i])
}

/// The value of `s` read as big-endian base-16 digits; the empty sequence
/// reads as zero.
pub open spec fn hex_value(s: Seq<char>) -> nat
    decreases s.len(),
{
    if s.len() == 0 {
        0
    } else {
        hex_value(s.drop_last()) * 16 + hex_digit_value(s.last())
    }
}

/// Reading one more digit never decreases the value.
proof fn lemma_hex_value_extend(s: Seq<char>, i: int)
    requires
        0 <= i < s.len(),
    ensures
        hex_value(s.subrange(0, i)) <= hex_value(s.subrange(0, i + 1)),
{
    let shorter = s.subrange(0, i);
    let longer = s.subrange(0, i + 1);
    assert(longer.drop_last() =~= shorter);
}

/// The value of a prefix never exceeds the value of the whole sequence.
proof fn lemma_hex_value_prefix_le(s: Seq<char>, i: int)
    requires
        0 <= i <= s.len(),
    ensures
        hex_value(s.subrange(0, i)) <= hex_value(s),
    decreases s.len() - i,
{
    if i == s.len() {
        assert(s.subrange(0, i) =~= s);
    } else {
        lemma_hex_value_extend(s, i);
        lemma_hex_value_prefix_le(s, i + 1);
    }
}

/// Whether `c` is a base-16 digit.
pub fn is_hex_digit_char(c: char) -> (r: bool)
    ensures
        r == is_hex_digit(c),
{
    let v = c as u32;
    ('0' as u32 <= v && v <= '9' as u32) || ('a' as u32 <= v && v <= 'f' as u32) || ('A' as u32
        <= v && v <= 'F' as u32)
}

/// The numeric value of one hex digit.
pub fn hex_digit_to_value(c: char) -> (v: u8)
    requires
        is_hex_digit(c),
    ensures
        v as nat == hex_digit_value(c),
        v < 16,
{
    let n = c as u32;
    if '0' as u32 <= n && n <= '9' as u32 {
        (n - '0' as u32) as u8
    } else if 'a' as u32 <= n && n <= 'f' as u32 {
        (n - 'a' as u32 + 10) as u8
    } else {
        (n - 'A' as u32 + 10) as u8
    }
}

/// Whether every character of `s` is a hex digit.
pub fn check_all_hex(s: &str) -> (r: bool)
    ensures
        r == all_hex_digits(s@),
{
    let n = s.unicode_len();
    let mut i: usize = 0;
    while i < n
        invariant
            0 <= i <= n,
            n == s@.len(),
            forall|j: int| 0 <= j < i ==> is_hex_digit(#[trigger] s@[j]),
        decreases n - i,
    {
        let c = s.get_char(i);
        if !is_hex_digit_char(c) {
            return false;
        }
        i += 1;
    }
    true
}

/// Reads `s` as base-16 digits. Returns the value when it is at most
/// `i64::MAX`; returns `None` exactly when the value is larger.
pub fn parse_hex_digits(s: &str) -> (r: Option<u64>)
    requires
        all_hex_digits(s@),
    ensures
        r matches Some(v) ==> v as nat == hex_value(s@) && hex_value(s@) <= max_field_value(),
        r is None ==> hex_value(s@) > max_field_value(),
{
    let n = s.unicode_len();
    let mut acc: u64 = 0;
    let mut i: usize = 0;
    while i < n
        invariant
            0 <= i <= n,
            n == s@.len(),
            all_hex_digits(s@),
            acc as nat == hex_value(s@.subrange(0, i as int)),
            acc as nat <= max_field_value(),
        decreases n - i,
    {
        let c = s.get_char(i);
        let d = hex_digit_to_value(c);
        if acc > 0x07ff_ffff_ffff_ffff {
            proof {
                lemma_hex_value_extend(s@, i as int);
                lemma_hex_value_prefix_le(s@, i as int + 1);
                assert(s@.subrange(0, i as int + 1).drop_last() =~= s@.subrange(0, i as int));
                assert(s@.subrange(0, i as int + 1).last() == s@[i as int]);
            }
            return None;
        }
        acc = acc * 16 + d as u64;
        proof {
            assert(s@.subrange(0, i as int + 1).drop_last() =~= s@.subrange(0, i as int));
            assert(s@.subrange(0, i as int + 1).last() == s@[i as int]);
        }
        i += 1;
    }
    proof {
        assert(s@.subrange(0, n as int) =~= s@);
    }
    Some(acc)
}

} // verus!
