//! Record identifiers.
//!
//! The record store assigns identifiers deterministically: the record at
//! position `n` carries the UUID-shaped string whose last sixteen hexadecimal
//! digits encode `n`. [`lemma_uuid_of_injective`] shows that distinct
//! positions always yield distinct identifiers, which is what makes every
//! insertion return a fresh identifier.
//!
//! A caller-supplied identifier, by contrast, is arbitrary text; it is
//! checked and canonicalized by the outside UUID parser behind
//! [`parse_record_id`].

use vstd::prelude::*;
use vstd::arithmetic::div_mod::lemma_fundamental_div_mod;
use vstd::string::StringExecFns;

verus! {

/// How many values the last hyphen-separated group of an identifier can
/// encode: sixteen to the power of its twelve hexadecimal digits.
pub const LOW_GROUP_SPAN: u64 = 0x1000000000000;

/// The lowercase hexadecimal digit for a value below sixteen.
pub open spec fn hex_digit_char(d: int) -> char
    recommends
        0 <= d < 16,
{
    if d == 0 {
        '0'
    } else if d == 1 {
        '1'
    } else if d == 2 {
        '2'
    } else if d == 3 {
        '3'
    } else if d == 4 {
        '4'
    } else if d == 5 {
        '5'
    } else if d == 6 {
        '6'
    } else if d == 7 {
        '7'
    } else if d == 8 {
        '8'
    } else if d == 9 {
        '9'
    } else if d == 10 {
        'a'
    } else if d == 11 {
        'b'
    } else if d == 12 {
        'c'
    } else if d == 13 {
        'd'
    } else if d == 14 {
        'e'
    } else {
        'f'
    }
}

/// The `k` low-order hexadecimal digits of `n`, most significant first.
pub open spec fn hex_seq(n: int, k: nat) -> Seq<char>
    decreases k,
{
    if k == 0 {
        Seq::empty()
    } else {
        hex_seq(n / 16, (k - 1) as nat).push(hex_digit_char(n % 16))
    }
}

/// Sixteen to the power `k`.
pub open spec fn p16(k: nat) -> int
    decreases k,
{
    if k == 0 {
        1
    } else {
        16 * p16((k - 1) as nat)
    }
}

/// The identifier assigned to the record at position `n`: a UUID-shaped
/// string whose last two groups hold the sixteen hexadecimal digits of `n`.
pub open spec fn uuid_of(n: u64) -> Seq<char> {
    "00000000-0000-0000-"@ + hex_seq(n as int / LOW_GROUP_SPAN as int, 4) + "-"@ + hex_seq(
        n as int % LOW_GROUP_SPAN as int,
        12,
    )
}

pub proof fn lemma_hex_seq_len(n: int, k: nat)
    ensures
        hex_seq(n, k).len() == k,
    decreases k,
{
    if k > 0 {
        lemma_hex_seq_len(n / 16, (k - 1) as nat);
    }
}

proof fn lemma_hex_digit_injective(a: int, b: int)
    requires
        0 <= a < 16,
        0 <= b < 16,
        hex_digit_char(a) == hex_digit_char(b),
    ensures
        a == b,
{
}

pub proof fn lemma_hex_seq_injective(a: int, b: int, k: nat)
    requires
        0 <= a < p16(k),
        0 <= b < p16(k),
        hex_seq(a, k) == hex_seq(b, k),
    ensures
        a == b,
    decreases k,
{
    if k == 0 {
        assert(p16(0) == 1);
    } else {
        let k1 = (k - 1) as nat;
        lemma_hex_seq_len(a / 16, k1);
        lemma_hex_seq_len(b / 16, k1);
        assert(hex_seq(a, k).last() == hex_digit_char(a % 16));
        assert(hex_seq(b, k).last() == hex_digit_char(b % 16));
        lemma_hex_digit_injective(a % 16, b % 16);
        assert(hex_seq(a, k).drop_last() =~= hex_seq(a / 16, k1));
        assert(hex_seq(b, k).drop_last() =~= hex_seq(b / 16, k1));
        assert(a / 16 < p16(k1) && b / 16 < p16(k1)) by {
            assert(a < 16 * p16(k1) && b < 16 * p16(k1));
        };
        lemma_hex_seq_injective(a / 16, b / 16, k1);
        lemma_fundamental_div_mod(a, 16);
        lemma_fundamental_div_mod(b, 16);
    }
}

proof fn lemma_p16_values()
    ensures
        p16(4) == 0x10000,
        p16(12) == 0x1000000000000,
{
    assert(p16(0) == 1);
    assert(p16(1) == 16);
    assert(p16(2) == 0x100);
    assert(p16(3) == 0x1000);
    assert(p16(4) == 0x10000);
    assert(p16(5) == 0x100000);
    assert(p16(6) == 0x1000000);
    assert(p16(7) == 0x10000000);
    assert(p16(8) == 0x100000000);
    assert(p16(9) == 0x1000000000);
    assert(p16(10) == 0x10000000000);
    assert(p16(11) == 0x100000000000);
    assert(p16(12) == 0x1000000000000);
}

/// Distinct record positions always get distinct identifiers.
pub proof fn lemma_uuid_of_injective(a: u64, b: u64)
    requires
        uuid_of(a) == uuid_of(b),
    ensures
        a == b,
{
    reveal_strlit("00000000-0000-0000-");
    reveal_strlit("-");
    let span = LOW_GROUP_SPAN as int;
    let ha = a as int / span;
    let la = a as int % span;
    let hb = b as int / span;
    let lb = b as int % span;
    lemma_hex_seq_len(ha, 4);
    lemma_hex_seq_len(la, 12);
    lemma_hex_seq_len(hb, 4);
    lemma_hex_seq_len(lb, 12);
    lemma_p16_values();
    assert(hex_seq(ha, 4) =~= uuid_of(a).subrange(19, 23));
    assert(hex_seq(hb, 4) =~= uuid_of(b).subrange(19, 23));
    assert(hex_seq(la, 12) =~= uuid_of(a).subrange(24, 36));
    assert(hex_seq(lb, 12) =~= uuid_of(b).subrange(24, 36));
    lemma_hex_seq_injective(ha, hb, 4);
    lemma_hex_seq_injective(la, lb, 12);
    lemma_fundamental_div_mod(a as int, span);
    lemma_fundamental_div_mod(b as int, span);
}

/// Appends the lowercase hexadecimal digit for `d`.
fn push_hex_digit(s: &mut String, d: u64)
    requires
        d < 16,
    ensures
        final(s)@ == old(s)@ + seq![hex_digit_char(d as int)],
{
    if d == 0 {
        s.append("0");
    } else if d == 1 {
        s.append("1");
    } else if d == 2 {
        s.append("2");
    } else if d == 3 {
        s.append("3");
    } else if d == 4 {
        s.append("4");
    } else if d == 5 {
        s.append("5");
    } else if d == 6 {
        s.append("6");
    } else if d == 7 {
        s.append("7");
    } else if d == 8 {
        s.append("8");
    } else if d == 9 {
        s.append("9");
    } else if d == 10 {
        s.append("a");
    } else if d == 11 {
        s.append("b");
    } else if d == 12 {
        s.append("c");
    } else if d == 13 {
        s.append("d");
    } else if d == 14 {
        s.append("e");
    } else {
        s.append("f");
    }
    proof {
        reveal_strlit("0");
        reveal_strlit("1");
        reveal_strlit("2");
        reveal_strlit("3");
        reveal_strlit("4");
        reveal_strlit("5");
        reveal_strlit("6");
        reveal_strlit("7");
        reveal_strlit("8");
        reveal_strlit("9");
        reveal_strlit("a");
        reveal_strlit("b");
        reveal_strlit("c");
        reveal_strlit("d");
        reveal_strlit("e");
        reveal_strlit("f");
        assert(s@ =~= old(s)@ + seq![hex_digit_char(d as int)]);
    }
}

/// Appends the `k` low-order hexadecimal digits of `n`, most significant
/// first.
fn push_hex(s: &mut String, n: u64, k: u16)
    ensures
        final(s)@ == old(s)@ + hex_seq(n as int, k as nat),
    decreases k,
{
    if k == 0 {
        proof {
            assert(old(s)@ + hex_seq(n as int, 0) =~= old(s)@);
        }
    } else {
        push_hex(s, n / 16, k - 1);
        push_hex_digit(s, n % 16);
        proof {
            assert(s@ =~= old(s)@ + hex_seq(n as int, k as nat));
        }
    }
}

/// Renders the identifier assigned to the record at position `n`.
pub fn uuid_string(n: u64) -> (r: String)
    ensures
        r@ == uuid_of(n),
{
    let mut s: String = "00000000-0000-0000-".to_owned();
    push_hex(&mut s, n / LOW_GROUP_SPAN, 4);
    s.append("-");
    push_hex(&mut s, n % LOW_GROUP_SPAN, 12);
    proof {
        assert(s@ =~= uuid_of(n));
    }
    s
}

/// Whether the outside UUID parser accepts a caller-supplied identifier.
pub uninterp spec fn uuid_accepts(s: Seq<char>) -> bool;

/// The canonical form the outside UUID printer gives to an accepted
/// identifier.
pub uninterp spec fn uuid_canonical(s: Seq<char>) -> Seq<char>;

/// Relies on uuid::Uuid::parse_str, which accepts exactly the textual UUID
/// forms (hexadecimal digits with optional hyphens, braces or urn prefix),
/// and on uuid::Uuid::to_string, which renders the parsed value in the
/// canonical lowercase hyphenated form; both depend on the characters alone.
#[verifier::external_body]
pub(crate) fn parse_record_id(s: &str) -> (r: Option<String>)
    ensures
        r is Some <==> uuid_accepts(s@),
        r matches Some(c) ==> c@ == uuid_canonical(s@),
{
    match uuid::Uuid::parse_str(s) {
        Ok(u) => Some(u.to_string()),
        Err(_) => None,
    }
}

} // verus!
