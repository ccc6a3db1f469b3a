//! Integer literals of the schema grammar (decimal or `0x` hexadecimal) and
//! their typing into a wire type's integer domain, including the rule that
//! bit-reinterprets an oversized unsigned literal as a negative value of a
//! signed wire type.
use vstd::prelude::*;

verus! {

/// Tests whether a byte is a decimal digit.
pub open spec fn spec_is_dec_digit(b: u8) -> bool {
    48 <= b <= 57
}

/// The value of a decimal digit byte.
pub open spec fn spec_dec_digit(b: u8) -> nat {
    (b - 48) as nat
}

/// Tests whether a byte is a hexadecimal digit.
pub open spec fn spec_is_hex_digit(b: u8) -> bool {
    (48 <= b <= 57) || (97 <= b <= 102) || (65 <= b <= 70)
}

/// The value of a hexadecimal digit byte.
pub open spec fn spec_hex_digit(b: u8) -> nat {
    if 48 <= b <= 57 {
        (b - 48) as nat
    } else if 97 <= b <= 102 {
        (b - 87) as nat
    } else {
        (b - 55) as nat
    }
}

/// Tests whether a token is a decimal integer literal: one or more decimal
/// digits.
pub open spec fn spec_is_dec_literal(s: Seq<u8>) -> bool {
    s.len() >= 1 && (forall|i: int| 0 <= i < s.len() ==> spec_is_dec_digit(s[i]))
}

/// The value of a decimal digit string.
pub open spec fn spec_dec_value(s: Seq<u8>) -> nat
    decreases s.len(),
{
    if s.len() == 0 {
        0
    } else {
        spec_dec_value(s.drop_last()) * 10 + spec_dec_digit(s.last())
    }
}

/// Tests whether a token is a hexadecimal integer literal: `0x` or `0X`
/// followed by one or more hexadecimal digits.
pub open spec fn spec_is_hex_literal(s: Seq<u8>) -> bool {
    s.len() >= 3 && s[0] == 48 && (s[1] == 120 || s[1] == 88) && (forall|i: int|
        2 <= i < s.len() ==> spec_is_hex_digit(s[i]))
}

/// The value of a hexadecimal digit string.
pub open spec fn spec_hex_value(s: Seq<u8>) -> nat
    decreases s.len(),
{
    if s.len() == 0 {
        0
    } else {
        spec_hex_value(s.drop_last()) * 16 + spec_hex_digit(s.last())
    }
}

/// The mathematical value of an integer literal token, or `None` where the
/// token is not an integer literal.
pub open spec fn spec_literal_value(s: Seq<u8>) -> Option<nat> {
    if spec_is_hex_literal(s) {
        Some(spec_hex_value(s.skip(2)))
    } else if spec_is_dec_literal(s) {
        Some(spec_dec_value(s))
    } else {
        None
    }
}

/// A digit-string value never shrinks when digits are appended.
proof fn lemma_dec_prefix_le(s: Seq<u8>, i: int)
    requires
        0 <= i <= s.len(),
    ensures
        spec_dec_value(s.take(i)) <= spec_dec_value(s),
    decreases s.len() - i,
{
    if i < s.len() {
        assert(s.take(i + 1).drop_last() =~= s.take(i));
        lemma_dec_prefix_le(s, i + 1);
    } else {
        assert(s.take(i) =~= s);
    }
}

/// A hex digit-string value never shrinks when digits are appended.
proof fn lemma_hex_prefix_le(s: Seq<u8>, i: int)
    requires
        0 <= i <= s.len(),
    ensures
        spec_hex_value(s.take(i)) <= spec_hex_value(s),
    decreases s.len() - i,
{
    if i < s.len() {
        assert(s.take(i + 1).drop_last() =~= s.take(i));
        lemma_hex_prefix_le(s, i + 1);
    } else {
        assert(s.take(i) =~= s);
    }
}

/// The outcome of reading a token as an integer literal.
#[derive(PartialEq, Eq, Structural, Debug, Copy, Clone)]
pub enum ParsedLiteral {
    /// The token is an integer literal with this value.
    Value(u64),
    /// The token is an integer literal, but its value does not fit in 64
    /// bits.
    Overflow,
    /// The token is not an integer literal.
    NotLiteral,
}

/// Parses a token as an unsigned integer literal, telling a token that is
/// no literal apart from a literal too large for 64 bits.
pub fn parse_literal(t: &Vec<u8>) -> (r: ParsedLiteral)
    ensures
        match r {
            ParsedLiteral::Value(v) => spec_literal_value(t@) == Some(v as nat),
            ParsedLiteral::Overflow => spec_literal_value(t@) matches Some(n) && n > u64::MAX,
            ParsedLiteral::NotLiteral => spec_literal_value(t@) is None,
        },
{
    if t.len() >= 3 && t[0] == 48 && (t[1] == 'x' as u8 || t[1] == 'X' as u8) {
        // Hexadecimal: every byte after the prefix must be a hex digit.
        let mut i: usize = 2;
        while i < t.len()
            invariant
                2 <= i <= t@.len(),
                3 <= t@.len(),
                t@[0] == 48,
                t@[1] == 120 || t@[1] == 88,
                forall|j: int| 2 <= j < i ==> spec_is_hex_digit(t@[j]),
            decreases t@.len() - i,
        {
            let b = t[i];
            let ok = (48 <= b && b <= 57) || (97 <= b && b <= 102) || (65 <= b && b <= 70);
            if !ok {
                proof {
                    assert(!spec_is_hex_digit(t@[i as int]));
                    assert(!spec_is_dec_digit(t@[1]));
                }
                return ParsedLiteral::NotLiteral;
            }
            i = i + 1;
        }
        let ghost digits = t@.skip(2);
        let mut val: u64 = 0;
        let mut i: usize = 2;
        while i < t.len()
            invariant
                2 <= i <= t@.len(),
                3 <= t@.len(),
                t@[0] == 48,
                t@[1] == 120 || t@[1] == 88,
                digits == t@.skip(2),
                forall|j: int| 2 <= j < t@.len() ==> spec_is_hex_digit(t@[j]),
                val as nat == spec_hex_value(digits.take(i - 2)),
            decreases t@.len() - i,
        {
            let b = t[i];
            let d: u64 = if 48 <= b && b <= 57 {
                (b - 48) as u64
            } else if 97 <= b && b <= 102 {
                (b - 87) as u64
            } else {
                (b - 55) as u64
            };
            proof {
                assert(digits.take(i - 2 + 1).drop_last() =~= digits.take(i - 2));
                assert(digits.take(i - 2 + 1).last() == t@[i as int]);
            }
            if val > (u64::MAX - d) / 16 {
                // The value exceeds 64 bits; appending digits cannot shrink
                // it, so the whole literal overflows.
                proof {
                    assert(val as nat * 16 + d as nat > u64::MAX) by (nonlinear_arith)
                        requires
                            val > (u64::MAX - d) / 16,
                            d <= 15,
                    ;
                    lemma_hex_prefix_le(digits, i - 2 + 1);
                }
                return ParsedLiteral::Overflow;
            }
            proof {
                assert(val * 16 + d <= u64::MAX) by (nonlinear_arith)
                    requires
                        val <= (u64::MAX - d) / 16,
                        d <= 15,
                ;
            }
            val = val * 16 + d;
            i = i + 1;
        }
        proof {
            assert(digits.take(i - 2) =~= digits);
        }
        ParsedLiteral::Value(val)
    } else if t.len() >= 1 {
        // Decimal: every byte must be a decimal digit.
        let mut i: usize = 0;
        while i < t.len()
            invariant
                0 <= i <= t@.len(),
                1 <= t@.len(),
                !spec_is_hex_literal(t@),
                forall|j: int| 0 <= j < i ==> spec_is_dec_digit(t@[j]),
            decreases t@.len() - i,
        {
            let b = t[i];
            if !(48 <= b && b <= 57) {
                proof {
                    assert(!spec_is_dec_digit(t@[i as int]));
                }
                return ParsedLiteral::NotLiteral;
            }
            i = i + 1;
        }
        let mut val: u64 = 0;
        let mut i: usize = 0;
        while i < t.len()
            invariant
                0 <= i <= t@.len(),
                1 <= t@.len(),
                !spec_is_hex_literal(t@),
                forall|j: int| 0 <= j < t@.len() ==> spec_is_dec_digit(t@[j]),
                val as nat == spec_dec_value(t@.take(i as int)),
            decreases t@.len() - i,
        {
            let b = t[i];
            let d: u64 = (b - 48) as u64;
            proof {
                assert(t@.take(i + 1).drop_last() =~= t@.take(i as int));
                assert(t@.take(i + 1).last() == t@[i as int]);
            }
            if val > (u64::MAX - d) / 10 {
                proof {
                    assert(val as nat * 10 + d as nat > u64::MAX) by (nonlinear_arith)
                        requires
                            val > (u64::MAX - d) / 10,
                            d <= 9,
                    ;
                    lemma_dec_prefix_le(t@, i + 1);
                }
                return ParsedLiteral::Overflow;
            }
            proof {
                assert(val * 10 + d <= u64::MAX) by (nonlinear_arith)
                    requires
                        val <= (u64::MAX - d) / 10,
                        d <= 9,
                ;
            }
            val = val * 10 + d;
            i = i + 1;
        }
        proof {
            assert(t@.take(i as int) =~= t@);
        }
        ParsedLiteral::Value(val)
    } else {
        ParsedLiteral::NotLiteral
    }
}

/// Parses a token as an unsigned integer literal. Returns the literal's
/// value, or `None` where the token is not an integer literal or its value
/// does not fit in 64 bits.
pub fn parse_uint(t: &Vec<u8>) -> (r: Option<u64>)
    ensures
        match r {
            Some(v) => spec_literal_value(t@) == Some(v as nat),
            None => spec_literal_value(t@) is None || (spec_literal_value(t@) matches Some(n)
                && n > u64::MAX),
        },
{
    match parse_literal(t) {
        ParsedLiteral::Value(v) => Some(v),
        _ => None,
    }
}

/// A typed integer value: the sign is that of the owning wire type's domain.
#[derive(PartialEq, Eq, Structural, Debug, Copy, Clone)]
pub enum IntValue {
    /// A value of an unsigned integer domain.
    Unsigned(u64),
    /// A value of a signed integer domain.
    Signed(i64),
}

impl IntValue {
    /// The carried value, as a mathematical integer.
    pub open spec fn as_int(&self) -> int {
        match *self {
            IntValue::Unsigned(v) => v as int,
            IntValue::Signed(v) => v as int,
        }
    }
}

/// `2^(8*width)`: the count of encodings of an integer wire type of the
/// given byte width.
pub open spec fn unsigned_bound(width: nat) -> int {
    if width == 1 {
        0x100
    } else if width == 2 {
        0x1_0000
    } else if width == 3 {
        0x100_0000
    } else if width == 4 {
        0x1_0000_0000
    } else if width == 5 {
        0x100_0000_0000
    } else if width == 6 {
        0x1_0000_0000_0000
    } else if width == 7 {
        0x100_0000_0000_0000
    } else {
        0x1_0000_0000_0000_0000
    }
}

/// `2^(8*width - 1)`: the magnitude of the least value of a signed integer
/// wire type of the given byte width.
pub open spec fn signed_half_bound(width: nat) -> int {
    if width == 1 {
        0x80
    } else if width == 2 {
        0x8000
    } else if width == 3 {
        0x80_0000
    } else if width == 4 {
        0x8000_0000
    } else if width == 5 {
        0x80_0000_0000
    } else if width == 6 {
        0x8000_0000_0000
    } else if width == 7 {
        0x80_0000_0000_0000
    } else {
        0x8000_0000_0000_0000
    }
}

/// Types an unsigned literal value into an integer domain of the given byte
/// width. An unsigned domain takes the literal as it stands; a signed domain
/// bit-reinterprets a literal at or above `2^(8*width - 1)` as the negative
/// value with the same encoding. A literal that does not fit the width at
/// all is untypable (`None`).
pub open spec fn spec_typed_int(v: nat, signed: bool, width: nat) -> Option<int> {
    if v >= unsigned_bound(width) {
        None
    } else if !signed {
        Some(v as int)
    } else if v < signed_half_bound(width) {
        Some(v as int)
    } else {
        Some(v - unsigned_bound(width))
    }
}

/// The same typing, as the carried `IntValue`.
pub open spec fn spec_typed_int_value(v: nat, signed: bool, width: nat) -> Option<IntValue> {
    if v >= unsigned_bound(width) {
        None
    } else if !signed {
        Some(IntValue::Unsigned(v as u64))
    } else if v < signed_half_bound(width) {
        Some(IntValue::Signed(v as i64))
    } else {
        Some(IntValue::Signed((v - unsigned_bound(width)) as i64))
    }
}

/// Types a literal value into the integer domain of a wire type of byte
/// width `width`, applying the sign-reinterpretation rule for signed
/// domains.
pub fn typed_int(v: u64, signed: bool, width: u8) -> (r: Option<IntValue>)
    requires
        1 <= width <= 8,
    ensures
        match r {
            Some(iv) => {
                &&& spec_typed_int(v as nat, signed, width as nat) == Some(iv.as_int())
                &&& spec_typed_int_value(v as nat, signed, width as nat) == Some(iv)
                &&& (signed <==> iv matches IntValue::Signed(_))
            },
            None => spec_typed_int(v as nat, signed, width as nat) is None,
        },
{
    // The width-8 unsigned bound has no u64 form; `None` marks it.
    let full: Option<u64> = match width {
        1 => Some(0x100),
        2 => Some(0x1_0000),
        3 => Some(0x100_0000),
        4 => Some(0x1_0000_0000),
        5 => Some(0x100_0000_0000),
        6 => Some(0x1_0000_0000_0000),
        7 => Some(0x100_0000_0000_0000),
        _ => None,
    };
    let half: u64 = match width {
        1 => 0x80,
        2 => 0x8000,
        3 => 0x80_0000,
        4 => 0x8000_0000,
        5 => 0x80_0000_0000,
        6 => 0x8000_0000_0000,
        7 => 0x80_0000_0000_0000,
        _ => 0x8000_0000_0000_0000,
    };
    if let Some(f) = full {
        if v >= f {
            return None;
        }
    }
    if !signed {
        Some(IntValue::Unsigned(v))
    } else if v < half {
        Some(IntValue::Signed(v as i64))
    } else {
        match full {
            Some(f) => {
                // v - 2^bits, computed without leaving the i64 range.
                let mag = f - v;
                Some(IntValue::Signed(-(mag as i64)))
            },
            None => {
                if v == 0x8000_0000_0000_0000 {
                    Some(IntValue::Signed(i64::MIN))
                } else {
                    // v - 2^64 == -((u64::MAX - v) + 1)
                    let mag = (u64::MAX - v) + 1;
                    Some(IntValue::Signed(-(mag as i64)))
                }
            },
        }
    }
}

/// Law: typing a literal into a signed domain is a faithful
/// bit-reinterpretation. For every literal below the width's encoding count,
/// typing succeeds, the typed value lies in the signed domain's range, and
/// re-encoding it (reducing modulo the encoding count) gives back the
/// original literal; below the half bound the value is the literal itself,
/// at or above it the value is negative.
pub proof fn law_signed_reinterpretation(v: nat, width: nat)
    requires
        1 <= width <= 8,
        v < unsigned_bound(width),
    ensures
        spec_typed_int(v, true, width) is Some,
        -signed_half_bound(width) <= spec_typed_int(v, true, width).unwrap() < signed_half_bound(
            width,
        ),
        spec_typed_int(v, true, width).unwrap() % unsigned_bound(width) == v,
        v < signed_half_bound(width) ==> spec_typed_int(v, true, width).unwrap() == v,
        v >= signed_half_bound(width) ==> spec_typed_int(v, true, width).unwrap() == v
            - unsigned_bound(width),
{
    let m = unsigned_bound(width);
    let x = spec_typed_int(v, true, width).unwrap();
    if v < signed_half_bound(width) {
        vstd::arithmetic::div_mod::lemma_small_mod(v, m as nat);
    } else {
        assert(x == v - m);
        assert(x + m == v);
        vstd::arithmetic::div_mod::lemma_small_mod(v, m as nat);
        vstd::arithmetic::div_mod::lemma_mod_add_multiples_vanish(x, m);
    }
}

} // verus!
