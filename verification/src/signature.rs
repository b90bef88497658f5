//! Transaction and message signatures.

use crate::pubkey::Pubkey;
use std::str::FromStr;
use vstd::prelude::*;

verus! {

/// A 64-byte signature. Its view is the sequence of its bytes.
#[derive(Clone, Copy, Debug, PartialEq, Eq)]
pub struct Signature {
    pub bytes: [u8; 64],
}

impl View for Signature {
    type V = Seq<u8>;

    open spec fn view(&self) -> Seq<u8> {
        self.bytes@
    }
}

/// The signature that a text denotes in base58, if it denotes one: what
/// `solana_sdk::signature::Signature::from_str` makes of the text.
pub uninterp spec fn signature_of_text(text: Seq<char>) -> Option<Seq<u8>>;

/// The base58 text of a signature: what the `Display` of `solana_sdk::signature::Signature` prints.
pub uninterp spec fn text_of_signature(bytes: Seq<u8>) -> Seq<char>;

/// Whether a signature by a key covers a message: what
/// `solana_sdk::signature::Signature::verify` answers.
pub uninterp spec fn signature_covers(
    signature: Seq<u8>,
    pubkey: Seq<u8>,
    message: Seq<u8>,
) -> bool;

/// Calls `solana_sdk::signature::Signature::from_str`. The result is the signature that the text
/// denotes, and `None` where the outside parser reports an error; which of its two errors it is,
/// is dropped.
#[verifier::external_body]
fn signature_from_str(text: &str) -> (res: Option<Signature>)
    ensures
        res is Some <==> signature_of_text(text@) is Some,
        res matches Some(signature) ==> signature_of_text(text@) == Some(signature@),
{
    solana_sdk::signature::Signature::from_str(text).ok().map(
        |signature| Signature { bytes: signature.into() },
    )
}

/// Calls `to_string` on a `solana_sdk::signature::Signature`. The result is the base58 text of the
/// signature. Base58 loses nothing, so reading the text back gives the same signature.
#[verifier::external_body]
fn signature_to_string(signature: &Signature) -> (res: String)
    ensures
        res@ == text_of_signature(signature@),
        signature_of_text(res@) == Some(signature@),
{
    solana_sdk::signature::Signature::from(signature.bytes).to_string()
}

/// Calls `solana_sdk::signature::Signature::verify`, which answers whether the signature is a
/// valid one by the key over the message.
#[verifier::external_body]
fn signature_verify(signature: &Signature, pubkey: &Pubkey, message: &[u8]) -> (res: bool)
    ensures
        res == signature_covers(signature@, pubkey@, message@),
{
    solana_sdk::signature::Signature::from(signature.bytes).verify(&pubkey.bytes, message)
}

impl Signature {
    /// The signature that the text denotes, if it denotes one.
    pub fn parse(text: &str) -> (res: Option<Signature>)
        ensures
            res is Some <==> signature_of_text(text@) is Some,
            res matches Some(signature) ==> signature_of_text(text@) == Some(signature@),
    {
        signature_from_str(text)
    }

    /// The base58 text of the signature.
    pub fn text(&self) -> (res: String)
        ensures
            res@ == text_of_signature(self@),
            signature_of_text(res@) == Some(self@),
    {
        signature_to_string(self)
    }

    /// Whether the signature is a valid one by `pubkey` over `message`.
    pub fn verify(&self, pubkey: &Pubkey, message: &[u8]) -> (res: bool)
        ensures
            res == signature_covers(self@, pubkey@, message@),
    {
        signature_verify(self, pubkey, message)
    }
}

} // verus!
