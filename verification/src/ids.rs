//! Record identifiers as the document store renders them: 24 hexadecimal
//! characters, the textual form of a 12-byte object id. The store assigns
//! identifiers from a counter; this module renders a counter value as such a
//! string, checks well-formedness of identifiers arriving in requests, and
//! proves that distinct counter values render to distinct identifiers.

use vstd::prelude::*;
use vstd::arithmetic::div_mod::{
    lemma_div_denominator, lemma_fundamental_div_mod, lemma_multiply_divide_lt,
};

verus! {

/// A character that may appear in a well-formed identifier.
pub open spec fn is_hex_char(c: char) -> bool {
    ('0' <= c && c <= '9') || ('a' <= c && c <= 'f') || ('A' <= c && c <= 'F')
}

/// A well-formed identifier: exactly 24 hexadecimal characters.
pub open spec fn valid_id(s: Seq<char>) -> bool {
    s.len() == 24 && forall|i: int| 0 <= i < 24 ==> is_hex_char(#[trigger] s[i])
}

/// Upper-case hexadecimal letters folded to lower case; all else unchanged.
pub open spec fn lower_hex(c: char) -> char {
    if c == 'A' {
        'a'
    } else if c == 'B' {
        'b'
    } else if c == 'C' {
        'c'
    } else if c == 'D' {
        'd'
    } else if c == 'E' {
        'e'
    } else if c == 'F' {
        'f'
    } else {
        c
    }
}

/// The canonical (lower-case) form of an identifier.
pub open spec fn normal_id(s: Seq<char>) -> Seq<char> {
    s.map_values(|c: char| lower_hex(c))
}

pub open spec fn pow16(k: nat) -> nat
    decreases k,
{
    if k == 0 {
        1
    } else {
        16 * pow16((k - 1) as nat)
    }
}

/// The `j`-th least significant base-16 digit of `n`.
pub open spec fn nibble_of(n: u64, j: nat) -> u64 {
    ((((n as nat) / pow16(j)) % 16) as u64)
}

/// The lower-case hexadecimal character for a digit below 16.
pub open spec fn hex_digit_char(d: u64) -> char {
    if d == 0 {
        '0'
    } else if d == 1 {
        '1'
    } else if d == 2 {
        '2'
    } else if d == 3 {
        '3'
    } else if d == 4 {
        '4'
    } else if d == 5 {
        '5'
    } else if d == 6 {
        '6'
    } else if d == 7 {
        '7'
    } else if d == 8 {
        '8'
    } else if d == 9 {
        '9'
    } else if d == 10 {
        'a'
    } else if d == 11 {
        'b'
    } else if d == 12 {
        'c'
    } else if d == 13 {
        'd'
    } else if d == 14 {
        'e'
    } else {
        'f'
    }
}

/// The identifier assigned for counter value `n`: eight leading zeros, then
/// the sixteen base-16 digits of `n`, most significant first.
pub open spec fn id_view(n: u64) -> Seq<char> {
    Seq::new(24, |i: int| if i < 8 {
        '0'
    } else {
        hex_digit_char(nibble_of(n, (23 - i) as nat))
    })
}

proof fn lemma_pow16_pos(k: nat)
    ensures
        pow16(k) >= 1,
    decreases k,
{
    if k > 0 {
        lemma_pow16_pos((k - 1) as nat);
    }
}

/// Relies on `String::push`: appends the one character to the string.
#[verifier::external_body]
fn push_char(s: &mut String, c: char)
    ensures
        final(s)@ == old(s)@.push(c),
{
    s.push(c);
}

fn hex_digit_exec(d: u64) -> (c: char)
    requires
        d < 16,
    ensures
        c == hex_digit_char(d),
{
    if d == 0 {
        '0'
    } else if d == 1 {
        '1'
    } else if d == 2 {
        '2'
    } else if d == 3 {
        '3'
    } else if d == 4 {
        '4'
    } else if d == 5 {
        '5'
    } else if d == 6 {
        '6'
    } else if d == 7 {
        '7'
    } else if d == 8 {
        '8'
    } else if d == 9 {
        '9'
    } else if d == 10 {
        'a'
    } else if d == 11 {
        'b'
    } else if d == 12 {
        'c'
    } else if d == 13 {
        'd'
    } else if d == 14 {
        'e'
    } else {
        'f'
    }
}

/// Renders counter value `n` as the identifier the store assigns for it.
pub fn id_string(n: u64) -> (r: String)
    ensures
        r@ == id_view(n),
        valid_id(r@),
{
    let mut digits: Vec<u64> = Vec::new();
    let mut m: u64 = n;
    let mut j: usize = 0;
    proof {
        assert(pow16(0) == 1);
        assert((n as nat) / 1 == n as nat);
    }
    while j < 16
        invariant
            j <= 16,
            digits.len() == j,
            m as nat == (n as nat) / pow16(j as nat),
            forall|k: int| 0 <= k < j ==> digits@[k] == nibble_of(n, k as nat),
        decreases 16 - j,
    {
        let d: u64 = m % 16;
        assert(d == nibble_of(n, j as nat));
        digits.push(d);
        proof {
            lemma_pow16_pos(j as nat);
            lemma_div_denominator(n as int, pow16(j as nat) as int, 16);
            assert(pow16((j + 1) as nat) == 16 * pow16(j as nat));
        }
        m = m / 16;
        j = j + 1;
    }
    let mut s = String::new();
    let mut i: usize = 0;
    while i < 8
        invariant
            i <= 8,
            s@ =~= id_view(n).take(i as int),
        decreases 8 - i,
    {
        push_char(&mut s, '0');
        assert(s@ =~= id_view(n).take(i + 1));
        i = i + 1;
    }
    let mut p: usize = 0;
    while p < 16
        invariant
            p <= 16,
            digits.len() == 16,
            forall|k: int| 0 <= k < 16 ==> digits@[k] == nibble_of(n, k as nat),
            s@ =~= id_view(n).take(8 + p as int),
        decreases 16 - p,
    {
        let d = digits[15 - p];
        assert(d < 16) by {
            assert(d == nibble_of(n, (15 - p) as nat));
        }
        let c = hex_digit_exec(d);
        push_char(&mut s, c);
        assert(s@ =~= id_view(n).take(8 + p + 1)) by {
            assert(id_view(n)[8 + p as int] == hex_digit_char(nibble_of(n, (15 - p) as nat)));
        }
        p = p + 1;
    }
    proof {
        assert(s@ =~= id_view(n));
        lemma_id_view_valid(n);
    }
    s
}

/// Every assigned identifier is well formed.
pub proof fn lemma_id_view_valid(n: u64)
    ensures
        valid_id(id_view(n)),
{
    assert forall|i: int| 0 <= i < 24 implies is_hex_char(#[trigger] id_view(n)[i]) by {
        if i >= 8 {
            let d = nibble_of(n, (23 - i) as nat);
            assert(d < 16);
            assert(is_hex_char(hex_digit_char(d)));
        }
    }
}

proof fn lemma_nibbles_equal(a: nat, b: nat, k: nat)
    requires
        a < pow16(k),
        b < pow16(k),
        forall|j: nat| j < k ==> ((a / pow16(j)) % 16) == ((b / pow16(j)) % 16),
    ensures
        a == b,
    decreases k,
{
    if k == 0 {
        assert(pow16(0) == 1);
    } else {
        assert(pow16(0) == 1);
        assert(((a / pow16(0)) % 16) == ((b / pow16(0)) % 16));
        assert(a % 16 == b % 16);
        let a1 = a / 16;
        let b1 = b / 16;
        assert(pow16(k) == 16 * pow16((k - 1) as nat));
        lemma_pow16_pos((k - 1) as nat);
        lemma_multiply_divide_lt(a as int, 16, pow16((k - 1) as nat) as int);
        lemma_multiply_divide_lt(b as int, 16, pow16((k - 1) as nat) as int);
        assert forall|j: nat| j < (k - 1) as nat implies ((a1 / pow16(j)) % 16) == ((b1 / pow16(j))
            % 16) by {
            lemma_pow16_pos(j);
            lemma_div_denominator(a as int, 16, pow16(j) as int);
            lemma_div_denominator(b as int, 16, pow16(j) as int);
            assert(pow16((j + 1) as nat) == 16 * pow16(j));
            assert(a1 / pow16(j) == a / pow16((j + 1) as nat));
            assert(b1 / pow16(j) == b / pow16((j + 1) as nat));
            assert(((a / pow16((j + 1) as nat)) % 16) == ((b / pow16((j + 1) as nat)) % 16));
        }
        lemma_nibbles_equal(a1, b1, (k - 1) as nat);
        lemma_fundamental_div_mod(a as int, 16);
        lemma_fundamental_div_mod(b as int, 16);
    }
}

proof fn lemma_pow16_16()
    ensures
        pow16(16) == 0x1_0000_0000_0000_0000,
{
    assert(pow16(0) == 1);
    assert(pow16(1) == 16);
    assert(pow16(2) == 0x100);
    assert(pow16(3) == 0x1000);
    assert(pow16(4) == 0x1_0000);
    assert(pow16(5) == 0x10_0000);
    assert(pow16(6) == 0x100_0000);
    assert(pow16(7) == 0x1000_0000);
    assert(pow16(8) == 0x1_0000_0000);
    assert(pow16(9) == 0x10_0000_0000);
    assert(pow16(10) == 0x100_0000_0000);
    assert(pow16(11) == 0x1000_0000_0000);
    assert(pow16(12) == 0x1_0000_0000_0000);
    assert(pow16(13) == 0x10_0000_0000_0000);
    assert(pow16(14) == 0x100_0000_0000_0000);
    assert(pow16(15) == 0x1000_0000_0000_0000);
    assert(pow16(16) == 0x1_0000_0000_0000_0000);
}

/// Distinct counter values render to distinct identifiers.
pub proof fn lemma_id_view_injective(a: u64, b: u64)
    requires
        id_view(a) == id_view(b),
    ensures
        a == b,
{
    lemma_pow16_16();
    assert forall|j: nat| j < 16 implies (((a as nat) / pow16(j)) % 16) == (((b as nat) / pow16(j))
        % 16) by {
        let i: int = 23 - j as int;
        assert((23 - i) as nat == j);
        let da = nibble_of(a, j);
        let db = nibble_of(b, j);
        assert(id_view(a)[i] == hex_digit_char(da));
        assert(id_view(b)[i] == hex_digit_char(db));
        assert(id_view(a)[i] == id_view(b)[i]);
        assert(da < 16 && db < 16);
        assert(hex_digit_char(da) == hex_digit_char(db));
        assert(da == db);
    }
    lemma_nibbles_equal(a as nat, b as nat, 16);
}

fn lower_hex_exec(c: char) -> (r: char)
    ensures
        r == lower_hex(c),
{
    if c == 'A' {
        'a'
    } else if c == 'B' {
        'b'
    } else if c == 'C' {
        'c'
    } else if c == 'D' {
        'd'
    } else if c == 'E' {
        'e'
    } else if c == 'F' {
        'f'
    } else {
        c
    }
}

fn is_hex_char_exec(c: char) -> (b: bool)
    ensures
        b == is_hex_char(c),
{
    ('0' <= c && c <= '9') || ('a' <= c && c <= 'f') || ('A' <= c && c <= 'F')
}

/// Checks that `s` is a well-formed identifier and returns its canonical
/// (lower-case) form; `None` exactly when `s` is not well formed.
pub fn normalize_id(s: &str) -> (r: Option<String>)
    ensures
        r is Some <==> valid_id(s@),
        r matches Some(t) ==> t@ == normal_id(s@),
{
    let len = s.unicode_len();
    if len != 24 {
        return None;
    }
    let mut out = String::new();
    let mut i: usize = 0;
    while i < 24
        invariant
            i <= 24,
            s@.len() == 24,
            forall|k: int| 0 <= k < i ==> is_hex_char(#[trigger] s@[k]),
            out@ =~= normal_id(s@).take(i as int),
        decreases 24 - i,
    {
        let c = s.get_char(i);
        if !is_hex_char_exec(c) {
            return None;
        }
        push_char(&mut out, lower_hex_exec(c));
        assert(out@ =~= normal_id(s@).take(i + 1));
        i = i + 1;
    }
    Some(out)
}

} // verus!
