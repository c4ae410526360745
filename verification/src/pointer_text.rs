use vstd::prelude::*;

verus! {

/// The lower-case hexadecimal digit for `d` (meant for `d < 16`).
pub open spec fn hex_digit(d: nat) -> char {
    if d < 10 {
        (d + 48) as char
    } else {
        (d + 87) as char
    }
}

/// The lower-case hexadecimal digits of `n`, most significant first and
/// without leading zeros (`0` is the single digit `'0'`).
pub open spec fn hex_digits(n: nat) -> Seq<char>
    decreases n,
{
    if n < 16 {
        seq![hex_digit(n)]
    } else {
        hex_digits(n / 16).push(hex_digit(n % 16))
    }
}

/// How `{:p}` shows an address: `0x` and then its hexadecimal digits.
pub open spec fn pointer_text(addr: usize) -> Seq<char> {
    seq!['0', 'x'] + hex_digits(addr as nat)
}

/// The value of one hexadecimal digit (lower case); other characters count 0.
pub open spec fn hex_digit_value(c: char) -> nat {
    if '0' <= c && c <= '9' {
        (c as int - 48) as nat
    } else if 'a' <= c && c <= 'f' {
        (c as int - 87) as nat
    } else {
        0
    }
}

/// The number that a string of hexadecimal digits denotes.
pub open spec fn hex_value(s: Seq<char>) -> nat
    decreases s.len(),
{
    if s.len() == 0 {
        0
    } else {
        hex_value(s.drop_last()) * 16 + hex_digit_value(s.last())
    }
}

proof fn lemma_digit_value(d: nat)
    requires
        d < 16,
    ensures
        hex_digit_value(hex_digit(d)) == d,
{
    let c = hex_digit(d);
    if d < 10 {
        assert(c as int == d + 48);
    } else {
        assert(c as int == d + 87);
    }
}

/// Reading the digits of `n` back gives `n`: the digits lose nothing.
pub proof fn lemma_hex_value_of_digits(n: nat)
    ensures
        hex_value(hex_digits(n)) == n,
    decreases n,
{
    lemma_digit_value(n % 16);
    let s = hex_digits(n);
    assert(hex_value(s) == hex_value(s.drop_last()) * 16 + hex_digit_value(s.last()));
    if n < 16 {
        assert(s.drop_last() =~= Seq::<char>::empty());
    } else {
        lemma_hex_value_of_digits(n / 16);
        assert(s.drop_last() =~= hex_digits(n / 16));
    }
}

/// The digits are lower-case hexadecimal digits, and the first one is `'0'`
/// only for `0` itself: there are no leading zeros.
pub proof fn lemma_hex_digits_shape(n: nat)
    ensures
        hex_digits(n).len() >= 1,
        forall|i: int|
            0 <= i < hex_digits(n).len() ==> ('0' <= #[trigger] hex_digits(n)[i] <= '9') || ('a'
                <= hex_digits(n)[i] <= 'f'),
        n > 0 ==> hex_digits(n)[0] != '0',
    decreases n,
{
    lemma_digit_range(n % 16);
    if n >= 16 {
        lemma_hex_digits_shape(n / 16);
        let s = hex_digits(n);
        assert forall|i: int| 0 <= i < s.len() implies ('0' <= #[trigger] s[i] <= '9') || ('a' <= s[i]
            <= 'f') by {
            if i < s.len() - 1 {
                assert(s[i] == hex_digits(n / 16)[i]);
            }
        }
    } else {
        lemma_digit_range(n);
    }
}

proof fn lemma_digit_range(d: nat)
    requires
        d < 16,
    ensures
        ('0' <= hex_digit(d) <= '9') || ('a' <= hex_digit(d) <= 'f'),
        d > 0 ==> hex_digit(d) != '0',
{
    let c = hex_digit(d);
    if d < 10 {
        assert(c as int == d + 48);
    } else {
        assert(c as int == d + 87);
    }
}

/// A lower-case hexadecimal numeral with no leading zeros: at least one
/// digit, every character in `0-9` or `a-f`, and a first digit other than
/// `'0'` unless it is the only one.
pub open spec fn is_plain_hex_numeral(s: Seq<char>) -> bool {
    &&& s.len() >= 1
    &&& forall|i: int| 0 <= i < s.len() ==> ('0' <= #[trigger] s[i] <= '9') || ('a' <= s[i] <= 'f')
    &&& (s[0] == '0' ==> s.len() == 1)
}

/// What `{:p}` shows for an address is `0x` followed by a plain hexadecimal
/// numeral whose value is that very address.
pub proof fn lemma_pointer_text_shows_address(a: usize)
    ensures
        pointer_text(a).len() >= 3,
        pointer_text(a)[0] == '0',
        pointer_text(a)[1] == 'x',
        is_plain_hex_numeral(pointer_text(a).skip(2)),
        hex_value(pointer_text(a).skip(2)) == a,
{
    let t = pointer_text(a);
    assert(t.skip(2) =~= hex_digits(a as nat));
    lemma_hex_digits_shape(a as nat);
    lemma_hex_value_of_digits(a as nat);
    let d = hex_digits(a as nat);
    if d[0] == '0' && d.len() > 1 {
        assert(a as nat == 0);
        assert(hex_digits(0) =~= seq![hex_digit(0)]);
    }
}

/// Two addresses are shown alike only when they are the same address.
pub proof fn lemma_pointer_text_injective(a: usize, b: usize)
    ensures
        pointer_text(a) == pointer_text(b) ==> a == b,
{
    if pointer_text(a) == pointer_text(b) {
        assert(pointer_text(a).skip(2) =~= hex_digits(a as nat));
        assert(pointer_text(b).skip(2) =~= hex_digits(b as nat));
        lemma_hex_value_of_digits(a as nat);
        lemma_hex_value_of_digits(b as nat);
    }
}

/// `String::push`: appends one character at the end.
#[verifier::external_body]
pub(crate) fn string_push(s: &mut String, c: char)
    ensures
        final(s)@ == old(s)@.push(c),
{
    s.push(c)
}

/// The digit character for `d`.
fn hex_char(d: usize) -> (c: char)
    requires
        d < 16,
    ensures
        c == hex_digit(d as nat),
{
    if d < 10 {
        (48u8 + d as u8) as char
    } else {
        (87u8 + d as u8) as char
    }
}

/// Appends the hexadecimal digits of `n` to `s`.
pub(crate) fn push_hex(s: &mut String, n: usize)
    ensures
        final(s)@ == old(s)@ + hex_digits(n as nat),
    decreases n,
{
    if n >= 16 {
        push_hex(s, n / 16);
    }
    string_push(s, hex_char(n % 16));
    assert(s@ =~= old(s)@ + hex_digits(n as nat));
}

} // verus!
