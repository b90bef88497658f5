//! Account addresses: parsing, printing, comparison and program-derived addresses.

use std::str::FromStr;
use vstd::prelude::*;

verus! {

/// Number of bytes in an address.
pub const PUBKEY_BYTES: usize = 32;

/// A 32-byte account address. Its view is the sequence of its bytes.
#[derive(Clone, Copy, Debug, PartialEq, Eq)]
pub struct Pubkey {
    pub bytes: [u8; 32],
}

impl View for Pubkey {
    type V = Seq<u8>;

    open spec fn view(&self) -> Seq<u8> {
        self.bytes@
    }
}

/// The address that a text denotes in base58, if it denotes one: what
/// `solana_sdk::pubkey::Pubkey::from_str` makes of the text.
pub uninterp spec fn pubkey_of_text(text: Seq<char>) -> Option<Seq<u8>>;

/// The base58 text of an address: what the `Display` of `solana_sdk::pubkey::Pubkey` prints.
pub uninterp spec fn text_of_pubkey(bytes: Seq<u8>) -> Seq<char>;

/// The program-derived address of some seeds under a program, with its bump seed: what
/// `solana_sdk::pubkey::Pubkey::try_find_program_address` finds.
pub uninterp spec fn program_address(seeds: Seq<Seq<u8>>, program_id: Seq<u8>) -> Option<
    (Seq<u8>, u8),
>;

/// Calls `solana_sdk::pubkey::Pubkey::from_str`. The result is the address that the text denotes,
/// and `None` where the outside parser reports an error; which of its two errors it is, is dropped.
#[verifier::external_body]
fn pubkey_from_str(text: &str) -> (res: Option<Pubkey>)
    ensures
        res is Some <==> pubkey_of_text(text@) is Some,
        res matches Some(key) ==> pubkey_of_text(text@) == Some(key@),
{
    solana_sdk::pubkey::Pubkey::from_str(text).ok().map(|key| Pubkey { bytes: key.to_bytes() })
}

/// Calls `to_string` on a `solana_sdk::pubkey::Pubkey`. The result is the base58 text of the
/// address. Base58 loses nothing, so reading the text back gives the same address.
#[verifier::external_body]
fn pubkey_to_string(key: &Pubkey) -> (res: String)
    ensures
        res@ == text_of_pubkey(key@),
        pubkey_of_text(res@) == Some(key@),
{
    solana_sdk::pubkey::Pubkey::new_from_array(key.bytes).to_string()
}

/// Calls `solana_sdk::pubkey::Pubkey::try_find_program_address`. The result is the
/// program-derived address with its bump seed, and `None` where no bump seed gives one or a seed
/// is too long.
#[verifier::external_body]
pub(crate) fn try_find_program_address(seeds: &[&[u8]], program_id: &Pubkey) -> (res: Option<
    (Pubkey, u8),
>)
    ensures
        res is Some <==> program_address(seeds@.map_values(|s: &[u8]| s@), program_id@) is Some,
        res matches Some((key, bump)) ==> program_address(
            seeds@.map_values(|s: &[u8]| s@),
            program_id@,
        ) == Some((key@, bump)),
{
    let program = solana_sdk::pubkey::Pubkey::new_from_array(program_id.bytes);
    solana_sdk::pubkey::Pubkey::try_find_program_address(seeds, &program)
        .map(|found| (Pubkey { bytes: found.0.to_bytes() }, found.1))
}

/// Calls `solana_sdk::pubkey::Pubkey::find_program_address`, which finds what
/// `try_find_program_address` finds and panics where that finds nothing.
#[verifier::external_body]
pub(crate) fn find_program_address(seeds: &[&[u8]], program_id: &Pubkey) -> (res: (Pubkey, u8))
    requires
        program_address(seeds@.map_values(|s: &[u8]| s@), program_id@) is Some,
    ensures
        program_address(seeds@.map_values(|s: &[u8]| s@), program_id@) == Some((res.0@, res.1)),
{
    let program = solana_sdk::pubkey::Pubkey::new_from_array(program_id.bytes);
    let found = solana_sdk::pubkey::Pubkey::find_program_address(seeds, &program);
    (Pubkey { bytes: found.0.to_bytes() }, found.1)
}

impl Pubkey {
    /// The address that the text denotes, if it denotes one.
    pub fn parse(text: &str) -> (res: Option<Pubkey>)
        ensures
            res is Some <==> pubkey_of_text(text@) is Some,
            res matches Some(key) ==> pubkey_of_text(text@) == Some(key@),
    {
        pubkey_from_str(text)
    }

    /// The base58 text of the address.
    pub fn text(&self) -> (res: String)
        ensures
            res@ == text_of_pubkey(self@),
            pubkey_of_text(res@) == Some(self@),
    {
        pubkey_to_string(self)
    }

    /// Whether two addresses have the same bytes.
    pub fn same(&self, other: &Pubkey) -> (res: bool)
        ensures
            res == (self@ == other@),
    {
        let mut i: usize = 0;
        while i < 32
            invariant
                i <= 32,
                forall|j: int| 0 <= j < i ==> self@[j] == other@[j],
            decreases 32 - i,
        {
            if self.bytes[i] != other.bytes[i] {
                assert(self@[i as int] != other@[i as int]);
                return false;
            }
            i = i + 1;
        }
        assert(self@ =~= other@);
        true
    }
}

} // verus!
