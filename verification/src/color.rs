//! The color that the contract stores, and the receipt of writing one.

use vstd::prelude::*;
use crate::text::decimal_text;

verus! {

/// Three channel values as the contract stores them.
#[derive(Clone, Copy, Debug, PartialEq, Eq, Structural)]
pub struct Color {
    pub r: u64,
    pub g: u64,
    pub b: u64,
}

/// The text `"name":` of the member of a JSON object whose name is the
/// single character `name`.
pub open spec fn member_name(name: char) -> Seq<char> {
    seq!['"', name, '"', ':']
}

/// What the host is told of a color: one JSON object without blanks,
/// its members `b`, `g` and `r` in that order, each a decimal number.
pub open spec fn color_payload_text(color: Color) -> Seq<char> {
    seq!['{'] + member_name('b') + decimal_text(color.b as nat) + seq![','] + member_name('g')
        + decimal_text(color.g as nat) + seq![','] + member_name('r') + decimal_text(
        color.r as nat,
    ) + seq!['}']
}

/// `ToString` of a `serde_json::Value`: the object with the members `b`,
/// `g` and `r`, each a number, written compactly. The members come out
/// in the order of their names, which is also the order of insertion, so
/// the text is the same whichever map the crate was built with.
#[verifier::external_body]
fn color_json(color: &Color) -> (text: String)
    ensures
        text@ == color_payload_text(*color),
{
    let mut members = serde_json::Map::new();
    members.insert("b".to_string(), serde_json::Value::from(color.b));
    members.insert("g".to_string(), serde_json::Value::from(color.g));
    members.insert("r".to_string(), serde_json::Value::from(color.r));
    serde_json::Value::Object(members).to_string()
}

/// Whether the 256-bit word `word`, least significant limb first, is a
/// channel value: one that fits in 64 bits.
pub open spec fn is_channel_word(word: Seq<u64>) -> bool {
    word[1] == 0 && word[2] == 0 && word[3] == 0
}

impl Color {
    /// The color with the given channels.
    pub fn new(r: u64, g: u64, b: u64) -> (color: Color)
        ensures
            color == (Color { r, g, b }),
    {
        Color { r, g, b }
    }

    /// The color that the contract returned as three 256-bit words, each
    /// least significant limb first; none where a word is no channel
    /// value.
    pub fn from_words(r: &[u64; 4], g: &[u64; 4], b: &[u64; 4]) -> (color: Option<Color>)
        ensures
            color is Some <==> is_channel_word(r@) && is_channel_word(g@) && is_channel_word(b@),
            color matches Some(c) ==> c == (Color { r: r@[0], g: g@[0], b: b@[0] }),
    {
        if r[1] == 0 && r[2] == 0 && r[3] == 0 && g[1] == 0 && g[2] == 0 && g[3] == 0 && b[1] == 0
            && b[2] == 0 && b[3] == 0 {
            Some(Color { r: r[0], g: g[0], b: b[0] })
        } else {
            None
        }
    }

    /// The color as the text that is handed to the host.
    pub fn to_payload(&self) -> (text: String)
        ensures
            text@ == color_payload_text(*self),
    {
        color_json(self)
    }
}

/// The hash by which the chain knows a transaction.
#[derive(Clone, Copy, Debug)]
pub struct TransactionHash {
    pub bytes: [u8; 32],
}

impl TransactionHash {
    /// The hash made of `bytes`.
    pub fn new(bytes: [u8; 32]) -> (hash: TransactionHash)
        ensures
            hash.bytes == bytes,
    {
        TransactionHash { bytes }
    }
}

/// What the chain reports of a transaction that was included in a block.
#[derive(Clone, Copy, Debug, PartialEq, Eq, Structural)]
pub struct TransactionReceipt {
    /// The status code of the receipt: 1 for success, 0 for a revert;
    /// none where the chain gave no code.
    pub status: Option<u64>,
}

/// Whether a receipt with this status code stands for a write that took
/// effect: only the code 1 does.
pub open spec fn status_is_success(status: Option<u64>) -> bool {
    status == Some(1u64)
}

impl TransactionReceipt {
    /// The receipt with the given status code.
    pub fn new(status: Option<u64>) -> (receipt: TransactionReceipt)
        ensures
            receipt.status == status,
    {
        TransactionReceipt { status }
    }

    /// Whether the transaction took effect.
    pub fn succeeded(&self) -> (r: bool)
        ensures
            r == status_is_success(self.status),
    {
        match self.status {
            Some(code) => code == 1,
            None => false,
        }
    }
}

} // verus!
