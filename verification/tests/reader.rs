use arch_token_metadata::address::Address;
use arch_token_metadata::error::{MetadataError, ProcessError};
use arch_token_metadata::reader::{AccountDataLite, TokenMetadataReader};
use arch_token_metadata::state::{TokenMetadata, TokenMetadataAttributes};
use arch_token_metadata::{find_attributes_pda_with_program, find_metadata_pda_with_program, id};

fn pk(byte: u8) -> Address {
    Address::from_slice(&[byte; 32])
}

fn metadata(mint: Address) -> TokenMetadata {
    TokenMetadata {
        is_initialized: true,
        mint,
        name: "Name".to_string(),
        symbol: "SYM".to_string(),
        image: "https://i".to_string(),
        description: "desc".to_string(),
        update_authority: Some(pk(1)),
    }
}

fn attributes(mint: Address) -> TokenMetadataAttributes {
    TokenMetadataAttributes {
        is_initialized: true,
        mint,
        data: vec![("k1".into(), "v1".into()), ("k2".into(), "v2".into())],
    }
}

fn metadata_account(owner: Address, mint: Address) -> Option<AccountDataLite> {
    let mut data = vec![0u8; TokenMetadata::LEN];
    metadata(mint).pack_into_slice(&mut data);
    Some(AccountDataLite { data, owner })
}

fn attributes_account(owner: Address, mint: Address) -> Option<AccountDataLite> {
    let mut data = vec![0u8; TokenMetadataAttributes::LEN];
    attributes(mint).pack_into_slice(&mut data);
    Some(AccountDataLite { data, owner })
}

fn garbled(owner: Address) -> Option<AccountDataLite> {
    Some(AccountDataLite { data: vec![9u8; 64], owner })
}

#[test]
fn reader_derives_the_addresses_of_the_records() {
    let reader = TokenMetadataReader::new(id());
    assert_eq!(reader.program_id, id());
    assert_eq!(reader.metadata_pda(&pk(2)), Some(find_metadata_pda_with_program(&id(), &pk(2)).0));
    assert_eq!(
        reader.attributes_pda(&pk(2)),
        Some(find_attributes_pda_with_program(&id(), &pk(2)).0)
    );
    assert!(reader.is_owner_ok(&id()));
    assert!(!reader.is_owner_ok(&pk(7)));
}

#[test]
fn reader_reads_records_of_the_registry_only() {
    let reader = TokenMetadataReader::new(id());
    assert_eq!(reader.token_metadata(&None), Ok(None));
    assert_eq!(reader.token_metadata(&metadata_account(id(), pk(2))), Ok(Some(metadata(pk(2)))));
    // An account of another program holds no record, whatever its bytes.
    assert_eq!(reader.token_metadata(&metadata_account(pk(7), pk(2))), Ok(None));
    assert_eq!(reader.token_metadata(&garbled(pk(7))), Ok(None));
    assert_eq!(reader.token_metadata(&garbled(id())), Err(ProcessError::InvalidAccountData));

    assert_eq!(reader.token_metadata_attributes(&None), Ok(None));
    assert_eq!(
        reader.token_metadata_attributes(&attributes_account(id(), pk(2))),
        Ok(Some(attributes(pk(2))))
    );
    assert_eq!(reader.token_metadata_attributes(&attributes_account(pk(7), pk(2))), Ok(None));
    assert_eq!(
        reader.token_metadata_attributes(&garbled(id())),
        Err(ProcessError::InvalidAccountData)
    );
}

#[test]
fn reader_reads_both_records_of_a_mint() {
    let reader = TokenMetadataReader::new(id());
    assert_eq!(
        reader.token_details(&metadata_account(id(), pk(2)), &attributes_account(id(), pk(2))),
        Ok((Some(metadata(pk(2))), Some(attributes(pk(2)))))
    );
    assert_eq!(
        reader.token_details(&metadata_account(id(), pk(2)), &None),
        Ok((Some(metadata(pk(2))), None))
    );
    assert_eq!(reader.token_details(&None, &None), Ok((None, None)));
    assert_eq!(
        reader.token_details(&garbled(id()), &attributes_account(id(), pk(2))),
        Err(ProcessError::InvalidAccountData)
    );
    assert_eq!(
        reader.token_details(&metadata_account(id(), pk(2)), &garbled(id())),
        Err(ProcessError::InvalidAccountData)
    );
}

#[test]
fn reader_reads_batches_in_order() {
    let reader = TokenMetadataReader::new(id());
    let fetched = vec![
        metadata_account(id(), pk(2)),
        None,
        metadata_account(pk(7), pk(3)),
        metadata_account(id(), pk(4)),
    ];
    assert_eq!(
        reader.token_metadata_batch(&fetched),
        Ok(vec![Some(metadata(pk(2))), None, None, Some(metadata(pk(4)))])
    );
    assert_eq!(reader.token_metadata_batch(&Vec::new()), Ok(Vec::new()));
    let mut broken = fetched.clone();
    broken.insert(1, garbled(id()));
    assert_eq!(reader.token_metadata_batch(&broken), Err(ProcessError::InvalidAccountData));

    let fetched = vec![None, attributes_account(id(), pk(2)), attributes_account(pk(7), pk(3))];
    assert_eq!(
        reader.token_metadata_attributes_batch(&fetched),
        Ok(vec![None, Some(attributes(pk(2))), None])
    );
    let mut broken = fetched.clone();
    broken.push(garbled(id()));
    assert_eq!(
        reader.token_metadata_attributes_batch(&broken),
        Err(ProcessError::InvalidAccountData)
    );
}

#[test]
fn errors_have_codes_and_messages() {
    let all = [
        (MetadataError::InvalidMint, 0, "Invalid mint"),
        (MetadataError::MetadataAlreadyExists, 1, "Metadata already exists"),
        (MetadataError::MetadataNotFound, 2, "Metadata not found"),
        (MetadataError::InvalidAuthority, 3, "Invalid authority"),
        (MetadataError::InvalidInstructionData, 4, "Invalid instruction data"),
        (MetadataError::StringTooLong, 5, "String too long"),
        (MetadataError::TooManyAttributes, 6, "Too many attributes"),
    ];
    for (error, code, message) in all {
        assert_eq!(error.code(), code);
        assert_eq!(MetadataError::from_code(code), Some(error));
        assert_eq!(error.message(), message);
        assert_eq!(ProcessError::from(error), ProcessError::Custom(error));
    }
    assert_eq!(ProcessError::Custom(MetadataError::StringTooLong).message(), "String too long");
    for error in [
        ProcessError::InvalidInstructionData,
        ProcessError::InvalidAccountData,
        ProcessError::IncorrectProgramId,
        ProcessError::MissingRequiredSignature,
        ProcessError::UninitializedAccount,
        ProcessError::NotEnoughAccountKeys,
        ProcessError::InvalidSeeds,
        ProcessError::InvalidAccountOwner,
    ] {
        assert!(!error.message().is_empty());
    }
    assert_eq!(ProcessError::InvalidSeeds.message(), "Account not at its derived address");
    assert_eq!(MetadataError::from_code(7), None);
    assert_eq!(MetadataError::from_code(u32::MAX), None);
    assert_eq!(MetadataError::type_of(), "MetadataError");
}
