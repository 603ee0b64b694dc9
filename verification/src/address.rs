//! Account addresses: twenty bytes, read from text and shown as text.

use vstd::prelude::*;
use vstd::string::*;
use crate::error::BridgeError;
use crate::text::{
    hex_digit_value,
    hex_text,
    is_hex_digit,
    lemma_hex_text_digits,
    lemma_hex_text_injective,
};

verus! {

/// Number of bytes in an address.
pub const ADDRESS_LEN: usize = 20;

/// Number of hexadecimal digits that the short display form keeps.
pub const SHORT_DIGITS: usize = 14;

/// A public account identifier of twenty bytes. Its view is those bytes.
#[derive(Clone, Copy, Debug)]
pub struct Address {
    bytes: [u8; 20],
}

/// How an address is written for display.
#[derive(Clone, Copy, Debug, PartialEq, Eq, Structural)]
pub enum DisplayForm {
    /// `0x` and all forty hexadecimal digits, in lower case.
    Canonical,
    /// `0x` and the last fourteen digits of the canonical form. For
    /// display only: it does not name an account.
    Short,
}

impl View for Address {
    type V = Seq<u8>;

    closed spec fn view(&self) -> Seq<u8> {
        self.bytes@
    }
}

/// The two characters `0x`.
pub open spec fn hex_prefix() -> Seq<char> {
    seq!['0', 'x']
}

/// Canonical text of the address `bytes`: `0x`, then forty lower-case digits.
pub open spec fn canonical_text(bytes: Seq<u8>) -> Seq<char> {
    hex_prefix() + hex_text(bytes)
}

/// Short text of the address `bytes`: `0x`, then the last fourteen
/// characters of its canonical text.
pub open spec fn short_text(bytes: Seq<u8>) -> Seq<char> {
    hex_prefix() + canonical_text(bytes).subrange(
        canonical_text(bytes).len() - SHORT_DIGITS,
        canonical_text(bytes).len() as int,
    )
}

/// Text of the address `bytes` in the given form.
pub open spec fn display_text(bytes: Seq<u8>, form: DisplayForm) -> Seq<char> {
    match form {
        DisplayForm::Canonical => canonical_text(bytes),
        DisplayForm::Short => short_text(bytes),
    }
}

/// Text of the 32-byte ABI word that holds the address `bytes`: `0x`,
/// twenty-four zeros for the twelve bytes of padding, then the address.
pub open spec fn abi_word_text(bytes: Seq<u8>) -> Seq<char> {
    hex_prefix() + Seq::new(24, |i: int| '0') + hex_text(bytes)
}

/// Whether `c` is a character that the address reader skips.
pub open spec fn is_blank(c: char) -> bool {
    c == ' ' || c == '\r' || c == '\n' || c == '\t'
}

/// `text` without one leading `0x`, where it has one.
pub open spec fn without_hex_prefix(text: Seq<char>) -> Seq<char> {
    if text.len() >= 2 && text[0] == '0' && text[1] == 'x' {
        text.subrange(2, text.len() as int)
    } else {
        text
    }
}

/// The characters of `text` that the address reader takes for digits:
/// all that follow the prefix, blanks left out.
pub open spec fn address_digits(text: Seq<char>) -> Seq<char> {
    without_hex_prefix(text).filter(|c: char| !is_blank(c))
}

/// Whether `text` spells an address: forty hexadecimal digits in either
/// case, after an optional `0x`, blanks anywhere among them.
pub open spec fn is_address_text(text: Seq<char>) -> bool {
    let digits = address_digits(text);
    &&& digits.len() == 2 * ADDRESS_LEN
    &&& forall|i: int| 0 <= i < digits.len() ==> is_hex_digit(#[trigger] digits[i])
}

/// The address that `text` spells, most significant byte first.
pub open spec fn address_of_text(text: Seq<char>) -> Seq<u8> {
    let digits = address_digits(text);
    Seq::new(
        ADDRESS_LEN as nat,
        |i: int| (hex_digit_value(digits[2 * i]) * 16 + hex_digit_value(digits[2 * i + 1])) as u8,
    )
}

/// `str::parse::<ethers::types::Address>`, the `FromStr` of a 20-byte
/// hash. It strips one leading `0x`, skips blanks, and wants exactly forty
/// hexadecimal digits, which it reads in big-endian order; anything else
/// is an error, which is handed on as `None`.
#[verifier::external_body]
fn parse_h160(text: &str) -> (r: Option<[u8; 20]>)
    ensures
        r is Some <==> is_address_text(text@),
        r matches Some(bytes) ==> bytes@ == address_of_text(text@),
{
    match text.parse::<ethers::types::Address>() {
        Ok(address) => Some(address.0),
        Err(_) => None,
    }
}

/// `AbiEncode::encode_hex` on an `ethers::types::Address`: the address as
/// one ABI word of 32 bytes, left-padded with zeros, in lower-case
/// hexadecimal after `0x`.
#[verifier::external_body]
fn abi_hex(bytes: &[u8; 20]) -> (r: String)
    ensures
        r@ == abi_word_text(bytes@),
{
    ethers::abi::AbiEncode::encode_hex(ethers::types::Address::from(*bytes))
}

/// Reads an address from text.
///
/// Succeeds exactly on the texts that `is_address_text` admits; every
/// other text is `InvalidAddress`.
pub fn parse_address(text: &str) -> (r: Result<Address, BridgeError>)
    ensures
        r is Ok <==> is_address_text(text@),
        r matches Ok(address) ==> address@ == address_of_text(text@),
        r matches Err(e) ==> e == BridgeError::InvalidAddress,
{
    match parse_h160(text) {
        Some(bytes) => Ok(Address { bytes }),
        None => Err(BridgeError::InvalidAddress),
    }
}

impl Address {
    /// The address made of `bytes`.
    pub fn from_bytes(bytes: [u8; 20]) -> (r: Address)
        ensures
            r@ == bytes@,
    {
        Address { bytes }
    }

    /// The twenty bytes of the address.
    pub fn to_bytes(&self) -> (r: [u8; 20])
        ensures
            r@ == self@,
    {
        self.bytes
    }

    /// Whether two addresses hold the same bytes.
    pub fn same_as(&self, other: &Address) -> (r: bool)
        ensures
            r == (self@ == other@),
    {
        let mut i: usize = 0;
        while i < ADDRESS_LEN
            invariant
                0 <= i <= ADDRESS_LEN,
                forall|j: int| 0 <= j < i ==> self.bytes@[j] == other.bytes@[j],
            decreases ADDRESS_LEN - i,
        {
            if self.bytes[i] != other.bytes[i] {
                return false;
            }
            i += 1;
        }
        assert(self.bytes@ =~= other.bytes@);
        true
    }

    /// The address as text, in the given form.
    ///
    /// The canonical form has 42 characters and tells addresses apart; the
    /// short form has 16 and keeps the last fourteen digits only.
    pub fn to_display(&self, form: DisplayForm) -> (r: String)
        ensures
            r@ == display_text(self@, form),
            r@.len() == match form {
                DisplayForm::Canonical => 42int,
                DisplayForm::Short => 16int,
            },
    {
        let word = abi_hex(&self.bytes);
        let from: usize = match form {
            DisplayForm::Canonical => 26,
            DisplayForm::Short => 52,
        };
        let digits = word.as_str().substring_char(from, 66);
        let shown = String::from_str("0x").concat(digits);
        proof {
            reveal_strlit("0x");
            let hex = hex_text(self@);
            let word_text = abi_word_text(self@);
            assert("0x"@ =~= hex_prefix());
            assert(word_text.subrange(26, 66) =~= hex);
            assert(word_text.subrange(52, 66) =~= hex.subrange(26, 40));
            assert(canonical_text(self@).subrange(28, 42) =~= hex.subrange(26, 40));
        }
        shown
    }
}

/// Canonical texts tell addresses apart: two addresses with the same
/// canonical text are the same address.
pub proof fn lemma_canonical_text_injective(a: Seq<u8>, b: Seq<u8>)
    requires
        canonical_text(a) == canonical_text(b),
    ensures
        a == b,
{
    assert(hex_text(a) =~= canonical_text(a).subrange(2, canonical_text(a).len() as int));
    assert(hex_text(b) =~= canonical_text(b).subrange(2, canonical_text(b).len() as int));
    lemma_hex_text_injective(a, b);
}

/// The short text of an address is `0x` followed by the last fourteen
/// hexadecimal digits of its canonical text: sixteen characters in all.
pub proof fn lemma_short_text_shape(bytes: Seq<u8>)
    requires
        bytes.len() == ADDRESS_LEN,
    ensures
        canonical_text(bytes).len() == 42,
        short_text(bytes).len() == 16,
        short_text(bytes).subrange(0, 2) == hex_prefix(),
        short_text(bytes).subrange(2, 16) == canonical_text(bytes).subrange(28, 42),
        short_text(bytes).subrange(2, 16) == hex_text(bytes).subrange(26, 40),
{
    assert(short_text(bytes).subrange(0, 2) =~= hex_prefix());
    assert(short_text(bytes).subrange(2, 16) =~= canonical_text(bytes).subrange(28, 42));
    assert(short_text(bytes).subrange(2, 16) =~= hex_text(bytes).subrange(26, 40));
}

/// Leaving out the blanks of a text that has none leaves the text.
proof fn lemma_no_blank_to_leave_out(text: Seq<char>)
    requires
        forall|i: int| 0 <= i < text.len() ==> !is_blank(#[trigger] text[i]),
    ensures
        text.filter(|c: char| !is_blank(c)) == text,
    decreases text.len(),
{
    reveal(Seq::filter);
    if text.len() > 0 {
        lemma_no_blank_to_leave_out(text.drop_last());
        assert(text.drop_last().push(text.last()) =~= text);
    }
}

/// The canonical text of an address reads back as that address.
pub proof fn lemma_canonical_text_reads_back(bytes: Seq<u8>)
    requires
        bytes.len() == ADDRESS_LEN,
    ensures
        is_address_text(canonical_text(bytes)),
        address_of_text(canonical_text(bytes)) == bytes,
{
    let shown = canonical_text(bytes);
    let hex = hex_text(bytes);
    assert(shown[0] == '0' && shown[1] == 'x');
    assert(without_hex_prefix(shown) =~= hex);
    assert forall|i: int| 0 <= i < hex.len() implies !is_blank(#[trigger] hex[i]) by {
        lemma_hex_text_digits(bytes, i);
    }
    lemma_no_blank_to_leave_out(hex);
    assert(address_digits(shown) == hex);
    assert forall|i: int| 0 <= i < hex.len() implies is_hex_digit(#[trigger] hex[i]) by {
        lemma_hex_text_digits(bytes, i);
    }
    let read = address_of_text(shown);
    assert forall|i: int| 0 <= i < bytes.len() implies read[i] == bytes[i] by {
        lemma_hex_text_digits(bytes, 2 * i);
        lemma_hex_text_digits(bytes, 2 * i + 1);
        let b = bytes[i] as int;
        assert((2 * i) / 2 == i && (2 * i + 1) / 2 == i);
        assert((b / 16) * 16 + b % 16 == b);
    }
    assert(read =~= bytes);
}

} // verus!
