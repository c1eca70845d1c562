//! Who may create the record of a mint.
//!
//! The mint authority may, if the mint has one. A mint that has given up its
//! mint authority leaves the right to its freeze authority. A mint with
//! neither leaves it to nobody. In each case the one who has the right must
//! have signed the operation.

use vstd::prelude::*;

use crate::address::Address;
use crate::error::MetadataError;
use crate::wire::option_address_view;

verus! {

/// The authority of the mint that `signer` stands for, if it stands for one:
/// the mint authority where there is one, else the freeze authority, and only
/// where `signer` is that authority and has signed.
pub open spec fn matched_authority(
    mint_authority: Option<Seq<u8>>,
    freeze_authority: Option<Seq<u8>>,
    signer: Seq<u8>,
    is_signer: bool,
) -> Option<Seq<u8>> {
    match mint_authority {
        Some(a) => if a == signer && is_signer {
            Some(a)
        } else {
            None
        },
        None => match freeze_authority {
            Some(f) => if f == signer && is_signer {
                Some(f)
            } else {
                None
            },
            None => None,
        },
    }
}

/// Finds the authority of the mint that `signer` stands for, and fails with
/// `InvalidAuthority` where it stands for none.
pub fn resolve_authority(
    mint_authority: &Option<Address>,
    freeze_authority: &Option<Address>,
    signer: &Address,
    is_signer: bool,
) -> (r: Result<Address, MetadataError>)
    ensures
        match r {
            Ok(a) => matched_authority(
                option_address_view(*mint_authority),
                option_address_view(*freeze_authority),
                signer@,
                is_signer,
            ) == Some(a@),
            Err(e) => e == MetadataError::InvalidAuthority && matched_authority(
                option_address_view(*mint_authority),
                option_address_view(*freeze_authority),
                signer@,
                is_signer,
            ) is None,
        },
{
    let matched: Address = match mint_authority {
        Some(mint_auth) => {
            if *mint_auth == *signer {
                *mint_auth
            } else {
                return Err(MetadataError::InvalidAuthority);
            }
        },
        None => match freeze_authority {
            Some(freeze_auth) => {
                if *freeze_auth == *signer {
                    *freeze_auth
                } else {
                    return Err(MetadataError::InvalidAuthority);
                }
            },
            None => {
                return Err(MetadataError::InvalidAuthority);
            },
        },
    };
    if !is_signer {
        return Err(MetadataError::InvalidAuthority);
    }
    Ok(matched)
}

/// Whether `signer` is the authority that a record names. A record that
/// names none is immutable, and nobody is its authority.
pub open spec fn is_update_authority(update_authority: Option<Seq<u8>>, signer: Seq<u8>) -> bool {
    update_authority == Some(signer)
}

/// Accepts `signer` as the one who may change a record, and fails with
/// `InvalidAuthority` where the record names another or is immutable.
pub fn check_update_authority(update_authority: &Option<Address>, signer: &Address) -> (r: Result<
    (),
    MetadataError,
>)
    ensures
        match r {
            Ok(_) => is_update_authority(option_address_view(*update_authority), signer@),
            Err(e) => e == MetadataError::InvalidAuthority && !is_update_authority(
                option_address_view(*update_authority),
                signer@,
            ),
        },
{
    match update_authority {
        Some(current) => {
            if *current == *signer {
                Ok(())
            } else {
                Err(MetadataError::InvalidAuthority)
            }
        },
        None => Err(MetadataError::InvalidAuthority),
    }
}

} // verus!
