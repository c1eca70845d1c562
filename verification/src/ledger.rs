//! What the registry takes from the ledger's own libraries: the derivation of
//! program addresses, the reading of a mint, the identities of the token
//! program and of the system program, and the rent of an account.
//!
//! Nothing here is proved. Each function states what the library it calls is
//! taken to do, and the rest of the crate is proved from these statements.

use apl_token::state::Mint;
use arch_program::program_pack::Pack;
use arch_program::pubkey::Pubkey;
use vstd::prelude::*;

use crate::address::Address;
use crate::wire::option_address_view;

verus! {

/// What a mint declares, as far as the registry reads it.
#[derive(Clone, Copy, Debug, PartialEq, Eq)]
pub struct MintState {
    /// Whether the mint has been initialized.
    pub is_initialized: bool,
    /// Who may mint new tokens, if anybody.
    pub mint_authority: Option<Address>,
    /// Who may freeze token accounts, if anybody.
    pub freeze_authority: Option<Address>,
}

/// A `MintState` as a mathematical value: the flag, the mint authority and
/// the freeze authority.
pub type MintStateView = (bool, Option<Seq<u8>>, Option<Seq<u8>>);

impl View for MintState {
    type V = MintStateView;

    open spec fn view(&self) -> MintStateView {
        (
            self.is_initialized,
            option_address_view(self.mint_authority),
            option_address_view(self.freeze_authority),
        )
    }
}

pub open spec fn option_mint_view(m: Option<MintState>) -> Option<MintStateView> {
    match m {
        Some(s) => Some(s@),
        None => None,
    }
}

pub open spec fn derived_view(d: Option<(Address, u8)>) -> Option<(Seq<u8>, u8)> {
    match d {
        Some((a, bump)) => Some((a@, bump)),
        None => None,
    }
}

/// The address and bump seed that the ledger derives for a program from a
/// tag and a key, or `None` where it finds none.
pub uninterp spec fn program_address(tag: Seq<u8>, key: Seq<u8>, program_id: Seq<u8>) -> Option<
    (Seq<u8>, u8),
>;

/// The mint that the token program reads from the bytes of an account, or
/// `None` where it refuses them.
pub uninterp spec fn mint_state(data: Seq<u8>) -> Option<MintStateView>;

/// The bytes of the token program's address: the text `AplToken` followed by
/// twenty-four times the character `1`.
pub open spec fn token_program_bytes() -> Seq<u8> {
    seq![65u8, 112u8, 108u8, 84u8, 111u8, 107u8, 101u8, 110u8] + Seq::new(24, |i: int| 49u8)
}

/// The bytes of the system program's address: thirty-one zero bytes and a one.
pub open spec fn system_program_bytes() -> Seq<u8> {
    Seq::new(31, |i: int| 0u8) + seq![1u8]
}

/// The balance below which the ledger does not keep an account of `data_len`
/// bytes: two units for each byte, counting 128 bytes for the account itself.
pub open spec fn minimum_rent_spec(data_len: nat) -> nat {
    (128 + data_len) * 2
}

/// `Pubkey::try_find_program_address` of arch_program, with the seeds `tag`
/// and `key`. It hashes the seeds, a bump seed and the program's address, so
/// that what it returns depends on the arguments alone; which address it
/// returns is not stated here.
#[verifier::external_body]
pub(crate) fn try_find_program_address(tag: &[u8], key: &Address, program_id: &Address) -> (r:
    Option<(Address, u8)>)
    ensures
        derived_view(r) == program_address(tag@, key@, program_id@),
{
    let found = Pubkey::try_find_program_address(&[tag, &key.bytes], &Pubkey(program_id.bytes));
    found.map(|(address, bump)| (Address::new_from_array(address.0), bump))
}

/// `Mint::unpack` of apl_token, which reads a mint from the bytes of an
/// account or refuses them. What it returns depends on the bytes alone; which
/// bytes it reads as which mint is not stated here.
#[verifier::external_body]
pub(crate) fn unpack_mint(data: &[u8]) -> (r: Option<MintState>)
    ensures
        option_mint_view(r) == mint_state(data@),
{
    match Mint::unpack(data) {
        Ok(mint) => Some(
            MintState {
                is_initialized: mint.is_initialized,
                mint_authority: Option::from(mint.mint_authority).map(
                    |k: Pubkey| Address::new_from_array(k.0),
                ),
                freeze_authority: Option::from(mint.freeze_authority).map(
                    |k: Pubkey| Address::new_from_array(k.0),
                ),
            },
        ),
        Err(_) => None,
    }
}

/// `apl_token::id`: the address of the token program, which is the text
/// `AplToken111111111111111111111111`.
#[verifier::external_body]
pub(crate) fn token_program_id() -> (r: Address)
    ensures
        r@ == token_program_bytes(),
{
    Address::new_from_array(apl_token::id().0)
}

/// `Pubkey::system_program` of arch_program: the address of the program that
/// creates accounts, which is all zero but for a last byte of one.
#[verifier::external_body]
pub(crate) fn system_program_id() -> (r: Address)
    ensures
        r@ == system_program_bytes(),
{
    Address::new_from_array(Pubkey::system_program().0)
}

/// `rent::minimum_rent` of arch_program: twice the sum of 128 and the number
/// of bytes. Sizes for which this does not fit a `u64` are left out.
#[verifier::external_body]
pub(crate) fn minimum_rent(data_len: usize) -> (r: u64)
    requires
        minimum_rent_spec(data_len as nat) <= u64::MAX,
    ensures
        r == minimum_rent_spec(data_len as nat),
{
    arch_program::rent::minimum_rent(data_len)
}

} // verus!
