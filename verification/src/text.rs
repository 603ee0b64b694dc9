//! What the bridge's texts mean: hexadecimal and decimal digits as
//! sequences of characters, with the facts that the rest of the library
//! needs about them.

use vstd::prelude::*;

verus! {

/// The sixteen lower-case hexadecimal digits, in order of value.
pub open spec fn lower_hex_digits() -> Seq<char> {
    seq!['0', '1', '2', '3', '4', '5', '6', '7', '8', '9', 'a', 'b', 'c', 'd', 'e', 'f']
}

/// The character at `index` of the lower-case hexadecimal text of `bytes`:
/// the high nibble of a byte comes first.
pub open spec fn hex_char_at(bytes: Seq<u8>, index: int) -> char {
    let byte = bytes[index / 2] as int;
    if index % 2 == 0 {
        lower_hex_digits()[byte / 16]
    } else {
        lower_hex_digits()[byte % 16]
    }
}

/// Lower-case hexadecimal text of `bytes`, two digits per byte, no prefix.
pub open spec fn hex_text(bytes: Seq<u8>) -> Seq<char> {
    Seq::new(2 * bytes.len(), |index: int| hex_char_at(bytes, index))
}

/// Whether `c` is one of `0-9`, `a-f`, `A-F`.
pub open spec fn is_hex_digit(c: char) -> bool {
    ('0' <= c <= '9') || ('a' <= c <= 'f') || ('A' <= c <= 'F')
}

/// Value of the hexadecimal digit `c`, in either case.
pub open spec fn hex_digit_value(c: char) -> int {
    if '0' <= c <= '9' {
        c as int - '0' as int
    } else if 'a' <= c <= 'f' {
        c as int - 'a' as int + 10
    } else {
        c as int - 'A' as int + 10
    }
}

/// The decimal digit of value `d`, for `0 <= d < 10`.
pub open spec fn decimal_digit(d: int) -> char {
    seq!['0', '1', '2', '3', '4', '5', '6', '7', '8', '9'][d]
}

/// Decimal text of `n`: no sign, no leading zero, `0` for zero.
pub open spec fn decimal_text(n: nat) -> Seq<char>
    decreases n,
{
    if n < 10 {
        seq![decimal_digit(n as int)]
    } else {
        decimal_text(n / 10).push(decimal_digit((n % 10) as int))
    }
}

/// The number that a text of decimal digits spells.
pub open spec fn decimal_value(text: Seq<char>) -> nat
    decreases text.len(),
{
    if text.len() == 0 {
        0
    } else {
        decimal_value(text.drop_last()) * 10 + (text.last() as int - '0' as int) as nat
    }
}

/// Whether every character of `text` is a decimal digit.
pub open spec fn is_decimal_text(text: Seq<char>) -> bool {
    forall|i: int| 0 <= i < text.len() ==> '0' <= #[trigger] text[i] <= '9'
}

/// Reading a number's decimal text gives the number back, and the text
/// holds digits only.
pub proof fn lemma_decimal_round_trip(n: nat)
    ensures
        decimal_value(decimal_text(n)) == n,
        is_decimal_text(decimal_text(n)),
        decimal_text(n).len() >= 1,
    decreases n,
{
    if n < 10 {
        let t = decimal_text(n);
        assert(t.drop_last() =~= Seq::<char>::empty());
        assert(decimal_value(t.drop_last()) == 0);
    } else {
        lemma_decimal_round_trip(n / 10);
        let head = decimal_text(n / 10);
        let t = decimal_text(n);
        assert(t.drop_last() =~= head);
        assert(t.last() == decimal_digit((n % 10) as int));
    }
}

/// A number's decimal text starts with `0` only when the number is zero.
pub proof fn lemma_decimal_no_leading_zero(n: nat)
    ensures
        decimal_text(n)[0] == '0' <==> n == 0,
    decreases n,
{
    if n >= 10 {
        lemma_decimal_round_trip(n / 10);
        lemma_decimal_no_leading_zero(n / 10);
    }
}

/// Two byte strings with the same hexadecimal text are the same.
pub proof fn lemma_hex_text_injective(a: Seq<u8>, b: Seq<u8>)
    requires
        hex_text(a) == hex_text(b),
    ensures
        a == b,
{
    assert(2 * a.len() == hex_text(a).len());
    assert(2 * b.len() == hex_text(b).len());
    assert(a.len() == b.len());
    assert forall|i: int| 0 <= i < a.len() implies a[i] == b[i] by {
        let x = a[i] as int;
        let y = b[i] as int;
        assert(hex_text(a)[2 * i] == hex_char_at(a, 2 * i));
        assert(hex_text(b)[2 * i] == hex_char_at(b, 2 * i));
        assert(hex_text(a)[2 * i + 1] == hex_char_at(a, 2 * i + 1));
        assert(hex_text(b)[2 * i + 1] == hex_char_at(b, 2 * i + 1));
        assert(lower_hex_digits()[x / 16] == lower_hex_digits()[y / 16]);
        assert(lower_hex_digits()[x % 16] == lower_hex_digits()[y % 16]);
        lemma_lower_hex_digits_distinct(x / 16, y / 16);
        lemma_lower_hex_digits_distinct(x % 16, y % 16);
    }
    assert(a =~= b);
}

/// No two of the sixteen digits are the same character.
pub proof fn lemma_lower_hex_digits_distinct(m: int, n: int)
    requires
        0 <= m < 16,
        0 <= n < 16,
        lower_hex_digits()[m] == lower_hex_digits()[n],
    ensures
        m == n,
{
}

/// Every character of a hexadecimal text is a hexadecimal digit, and its
/// value is the nibble it stands for.
pub proof fn lemma_hex_text_digits(bytes: Seq<u8>, index: int)
    requires
        0 <= index < 2 * bytes.len(),
    ensures
        is_hex_digit(hex_text(bytes)[index]),
        hex_digit_value(hex_text(bytes)[index]) == if index % 2 == 0 {
            bytes[index / 2] as int / 16
        } else {
            bytes[index / 2] as int % 16
        },
        hex_text(bytes)[index] != ' ',
        hex_text(bytes)[index] != '\r',
        hex_text(bytes)[index] != '\n',
        hex_text(bytes)[index] != '\t',
{
    let byte = bytes[index / 2] as int;
    let nibble = if index % 2 == 0 { byte / 16 } else { byte % 16 };
    assert(0 <= nibble < 16);
    assert(hex_text(bytes)[index] == lower_hex_digits()[nibble]);
}

} // verus!
