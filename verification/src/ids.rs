//! Text of record identifiers: the hyphenated lowercase form of a 128-bit UUID, as
//! `uuid::Uuid` displays it (8-4-4-4-12 hexadecimal digits of its big-endian value).

use vstd::prelude::*;
use vstd::arithmetic::power::pow;

verus! {

pub open spec fn hex_char(d: nat) -> char {
    if d < 10 {
        ((d + '0' as int) as u32) as char
    } else {
        ((d - 10 + 'a' as int) as u32) as char
    }
}

/// The last `width` hexadecimal digits of `v`, most significant first.
pub open spec fn hex_digits(v: nat, width: nat) -> Seq<char>
    decreases width,
{
    if width == 0 {
        Seq::empty()
    } else {
        hex_digits(v / 16, (width - 1) as nat).push(hex_char(v % 16))
    }
}

/// The hyphenated text of the UUID whose big-endian value is `v`.
pub open spec fn spec_uuid_text(v: nat) -> Seq<char> {
    hex_digits(v / 0x1_0000_0000_0000_0000_0000_0000, 8) + "-"@
        + hex_digits(v / 0x1_0000_0000_0000_0000_0000, 4) + "-"@
        + hex_digits(v / 0x1_0000_0000_0000_0000, 4) + "-"@
        + hex_digits(v / 0x1_0000_0000_0000, 4) + "-"@
        + hex_digits(v, 12)
}

fn hex_str(d: u128) -> (s: &'static str)
    requires
        d < 16,
    ensures
        s@ == seq![hex_char(d as nat)],
{
    proof {
        reveal_strlit("0");
        reveal_strlit("1");
        reveal_strlit("2");
        reveal_strlit("3");
        reveal_strlit("4");
        reveal_strlit("5");
        reveal_strlit("6");
        reveal_strlit("7");
        reveal_strlit("8");
        reveal_strlit("9");
        reveal_strlit("a");
        reveal_strlit("b");
        reveal_strlit("c");
        reveal_strlit("d");
        reveal_strlit("e");
        reveal_strlit("f");
    }
    if d == 0 {
        "0"
    } else if d == 1 {
        "1"
    } else if d == 2 {
        "2"
    } else if d == 3 {
        "3"
    } else if d == 4 {
        "4"
    } else if d == 5 {
        "5"
    } else if d == 6 {
        "6"
    } else if d == 7 {
        "7"
    } else if d == 8 {
        "8"
    } else if d == 9 {
        "9"
    } else if d == 10 {
        "a"
    } else if d == 11 {
        "b"
    } else if d == 12 {
        "c"
    } else if d == 13 {
        "d"
    } else if d == 14 {
        "e"
    } else {
        "f"
    }
}

/// Appends the last `width` hexadecimal digits of `v`.
fn push_hex(out: &mut String, v: u128, width: u32)
    ensures
        final(out)@ == old(out)@ + hex_digits(v as nat, width as nat),
    decreases width,
{
    if width == 0 {
        assert(old(out)@ + Seq::<char>::empty() =~= old(out)@);
    } else {
        push_hex(out, v / 16, width - 1);
        out.append(hex_str(v % 16));
        assert(hex_digits(v as nat, width as nat) == hex_digits((v / 16) as nat, (width - 1) as nat).push(
            hex_char((v % 16) as nat),
        ));
        assert(old(out)@ + hex_digits((v / 16) as nat, (width - 1) as nat) + seq![hex_char((v % 16) as nat)]
            =~= old(out)@ + hex_digits(v as nat, width as nat));
    }
}

/// The hyphenated lowercase text of the UUID whose big-endian value is `id`.
pub fn uuid_text(id: u128) -> (text: String)
    ensures
        text@ == spec_uuid_text(id as nat),
{
    let mut text = String::new();
    push_hex(&mut text, id / 0x1_0000_0000_0000_0000_0000_0000, 8);
    text.append("-");
    push_hex(&mut text, id / 0x1_0000_0000_0000_0000_0000, 4);
    text.append("-");
    push_hex(&mut text, id / 0x1_0000_0000_0000_0000, 4);
    text.append("-");
    push_hex(&mut text, id / 0x1_0000_0000_0000, 4);
    text.append("-");
    push_hex(&mut text, id, 12);
    text
}

/// A lowercase hexadecimal digit.
pub open spec fn is_lower_hex(c: char) -> bool {
    ('0' <= c && c <= '9') || ('a' <= c && c <= 'f')
}

/// The value of a lowercase hexadecimal digit.
pub open spec fn hex_digit_value(c: char) -> nat {
    if '0' <= c && c <= '9' {
        (c as int - '0' as int) as nat
    } else {
        (c as int - 'a' as int + 10) as nat
    }
}

/// The value of a run of hexadecimal digits, most significant first.
pub open spec fn hex_value(digits: Seq<char>) -> nat
    decreases digits.len(),
{
    if digits.len() == 0 {
        0
    } else {
        hex_value(digits.drop_last()) * 16 + hex_digit_value(digits.last())
    }
}

proof fn lemma_hex_char(d: nat)
    requires
        d < 16,
    ensures
        is_lower_hex(hex_char(d)),
        hex_digit_value(hex_char(d)) == d,
{
}

proof fn lemma_hex_digits_value(v: nat, width: nat)
    ensures
        hex_digits(v, width).len() == width,
        forall|i: int| 0 <= i < width ==> is_lower_hex(#[trigger] hex_digits(v, width)[i]),
        hex_value(hex_digits(v, width)) == v % (pow(16, width) as nat),
    decreases width,
{
    reveal(pow);
    vstd::arithmetic::power::lemma_pow_positive(16, width);
    if width == 0 {
        assert(pow(16, 0) == 1);
    } else {
        let w = (width - 1) as nat;
        lemma_hex_digits_value(v / 16, w);
        lemma_hex_char(v % 16);
        vstd::arithmetic::power::lemma_pow_positive(16, w);
        assert(pow(16, width) == 16 * pow(16, w));
        vstd::arithmetic::div_mod::lemma_mod_breakdown(v as int, 16, pow(16, w));
        let d = hex_digits(v, width);
        let r = hex_digits(v / 16, w);
        assert(d == r.push(hex_char(v % 16)));
        assert(d.drop_last() =~= r);
        assert forall|i: int| 0 <= i < width implies is_lower_hex(#[trigger] d[i]) by {
            if i < w {
                assert(d[i] == r[i]);
            }
        }
    }
}

/// The text of a UUID is 36 characters: lowercase hexadecimal digits with hyphens at
/// positions 8, 13, 18 and 23; its five groups of digits, read in order as one
/// hexadecimal number, give back the UUID's value, so two UUIDs have the same text
/// only when they are the same.
pub proof fn lemma_uuid_text_reads_back(v: nat, other: nat)
    requires
        v < 0x1_0000_0000_0000_0000_0000_0000_0000_0000int,
        other < 0x1_0000_0000_0000_0000_0000_0000_0000_0000int,
    ensures
        spec_uuid_text(v).len() == 36,
        spec_uuid_text(v)[8] == '-' && spec_uuid_text(v)[13] == '-' && spec_uuid_text(v)[18] == '-'
            && spec_uuid_text(v)[23] == '-',
        forall|i: int|
            0 <= i < 36 && i != 8 && i != 13 && i != 18 && i != 23 ==> is_lower_hex(
                #[trigger] spec_uuid_text(v)[i],
            ),
        hex_value(spec_uuid_text(v).subrange(0, 8)) * 0x1_0000_0000_0000_0000_0000_0000
            + hex_value(spec_uuid_text(v).subrange(9, 13)) * 0x1_0000_0000_0000_0000_0000
            + hex_value(spec_uuid_text(v).subrange(14, 18)) * 0x1_0000_0000_0000_0000
            + hex_value(spec_uuid_text(v).subrange(19, 23)) * 0x1_0000_0000_0000 + hex_value(
            spec_uuid_text(v).subrange(24, 36),
        ) == v,
        spec_uuid_text(v) == spec_uuid_text(other) ==> v == other,
{
    lemma_uuid_groups(v);
    lemma_uuid_groups(other);
}

proof fn lemma_uuid_groups(v: nat)
    requires
        v < 0x1_0000_0000_0000_0000_0000_0000_0000_0000int,
    ensures
        spec_uuid_text(v).len() == 36,
        spec_uuid_text(v)[8] == '-' && spec_uuid_text(v)[13] == '-' && spec_uuid_text(v)[18] == '-'
            && spec_uuid_text(v)[23] == '-',
        forall|i: int|
            0 <= i < 36 && i != 8 && i != 13 && i != 18 && i != 23 ==> is_lower_hex(
                #[trigger] spec_uuid_text(v)[i],
            ),
        hex_value(spec_uuid_text(v).subrange(0, 8)) * 0x1_0000_0000_0000_0000_0000_0000
            + hex_value(spec_uuid_text(v).subrange(9, 13)) * 0x1_0000_0000_0000_0000_0000
            + hex_value(spec_uuid_text(v).subrange(14, 18)) * 0x1_0000_0000_0000_0000
            + hex_value(spec_uuid_text(v).subrange(19, 23)) * 0x1_0000_0000_0000 + hex_value(
            spec_uuid_text(v).subrange(24, 36),
        ) == v,
{
    reveal_strlit("-");
    let p48: nat = 0x1_0000_0000_0000;
    let p64: nat = 0x1_0000_0000_0000_0000;
    let p80: nat = 0x1_0000_0000_0000_0000_0000;
    let p96: nat = 0x1_0000_0000_0000_0000_0000_0000;
    let h1 = hex_digits(v / p96, 8);
    let h2 = hex_digits(v / p80, 4);
    let h3 = hex_digits(v / p64, 4);
    let h4 = hex_digits(v / p48, 4);
    let h5 = hex_digits(v, 12);
    lemma_hex_digits_value(v / p96, 8);
    lemma_hex_digits_value(v / p80, 4);
    lemma_hex_digits_value(v / p64, 4);
    lemma_hex_digits_value(v / p48, 4);
    lemma_hex_digits_value(v, 12);
    assert(pow(16, 4) == 0x1_0000) by {
        reveal_with_fuel(pow, 5);
    }
    assert(pow(16, 8) == 0x1_0000_0000) by {
        vstd::arithmetic::power::lemma_pow_adds(16, 4, 4);
    }
    assert(pow(16, 12) == p48) by {
        vstd::arithmetic::power::lemma_pow_adds(16, 8, 4);
    }
    let t = spec_uuid_text(v);
    assert(t.subrange(0, 8) =~= h1);
    assert(t.subrange(9, 13) =~= h2);
    assert(t.subrange(14, 18) =~= h3);
    assert(t.subrange(19, 23) =~= h4);
    assert(t.subrange(24, 36) =~= h5);
    assert forall|i: int|
        0 <= i < 36 && i != 8 && i != 13 && i != 18 && i != 23 implies is_lower_hex(
            #[trigger] t[i],
        ) by {
        if i < 8 {
            assert(t[i] == h1[i]);
        } else if i < 13 {
            assert(t[i] == h2[i - 9]);
        } else if i < 18 {
            assert(t[i] == h3[i - 14]);
        } else if i < 23 {
            assert(t[i] == h4[i - 19]);
        } else {
            assert(t[i] == h5[i - 24]);
        }
    }
    lemma_uuid_value_split(v);
}

proof fn lemma_uuid_value_split(v: nat)
    requires
        v < 0x1_0000_0000_0000_0000_0000_0000_0000_0000int,
    ensures
        (v / 0x1_0000_0000_0000_0000_0000_0000) % 0x1_0000_0000 * 0x1_0000_0000_0000_0000_0000_0000
            + (v / 0x1_0000_0000_0000_0000_0000) % 0x1_0000 * 0x1_0000_0000_0000_0000_0000
            + (v / 0x1_0000_0000_0000_0000) % 0x1_0000 * 0x1_0000_0000_0000_0000
            + (v / 0x1_0000_0000_0000) % 0x1_0000 * 0x1_0000_0000_0000
            + v % 0x1_0000_0000_0000 == v,
{
    let a = v / 0x1_0000_0000_0000;
    let b = v / 0x1_0000_0000_0000_0000;
    let c = v / 0x1_0000_0000_0000_0000_0000;
    let d = v / 0x1_0000_0000_0000_0000_0000_0000;
    vstd::arithmetic::div_mod::lemma_fundamental_div_mod(v as int, 0x1_0000_0000_0000);
    vstd::arithmetic::div_mod::lemma_fundamental_div_mod(a as int, 0x1_0000);
    vstd::arithmetic::div_mod::lemma_fundamental_div_mod(b as int, 0x1_0000);
    vstd::arithmetic::div_mod::lemma_fundamental_div_mod(c as int, 0x1_0000);
    vstd::arithmetic::div_mod::lemma_div_denominator(v as int, 0x1_0000_0000_0000, 0x1_0000);
    vstd::arithmetic::div_mod::lemma_div_denominator(v as int, 0x1_0000_0000_0000_0000, 0x1_0000);
    vstd::arithmetic::div_mod::lemma_div_denominator(v as int, 0x1_0000_0000_0000_0000_0000, 0x1_0000);
    assert(a / 0x1_0000 == b);
    assert(b / 0x1_0000 == c);
    assert(c / 0x1_0000 == d);
    assert(d < 0x1_0000_0000) by {
        vstd::arithmetic::div_mod::lemma_div_by_multiple_is_strongly_ordered(
            v as int, 0x1_0000_0000_0000_0000_0000_0000_0000_0000int, 0x1_0000_0000, 0x1_0000_0000_0000_0000_0000_0000);
    }
    vstd::arithmetic::div_mod::lemma_small_mod(d, 0x1_0000_0000);
}

} // verus!
