use apl_token::state::Mint;
use arch_program::program_option::COption;
use arch_program::program_pack::Pack;
use arch_program::pubkey::Pubkey;
use arch_token_metadata::account::{AccountInfo, Outcome, RecordKind};
use arch_token_metadata::address::Address;
use arch_token_metadata::error::{MetadataError, ProcessError};
use arch_token_metadata::instruction::MetadataInstruction;
use arch_token_metadata::processor::Processor;
use arch_token_metadata::state::{
    TokenMetadata, TokenMetadataAttributes, TOKEN_METADATA_ATTRIBUTES_MAX_LEN,
    TOKEN_METADATA_MAX_LEN,
};
use arch_token_metadata::{
    find_attributes_pda_with_program, find_metadata_pda_with_program, id,
};

fn pk(byte: u8) -> Address {
    Address::from_slice(&[byte; 32])
}

fn system_program() -> Address {
    let mut bytes = [0u8; 32];
    bytes[31] = 1;
    Address::new_from_array(bytes)
}

fn token_program() -> Address {
    Address::from_slice(b"AplToken111111111111111111111111")
}

fn invalid_authority() -> ProcessError {
    ProcessError::Custom(MetadataError::InvalidAuthority)
}

/// A stand-in for the account store: the accounts that exist, each with its
/// owner and its bytes.
struct Store {
    accounts: Vec<(Address, Address, Vec<u8>)>,
    created: Vec<(Address, Address, u64, u64, Address, RecordKind, Address)>,
}

impl Store {
    fn new() -> Store {
        Store { accounts: Vec::new(), created: Vec::new() }
    }

    fn put(&mut self, key: Address, owner: Address, data: Vec<u8>) {
        for entry in self.accounts.iter_mut() {
            if entry.0 == key {
                entry.1 = owner;
                entry.2 = data;
                return;
            }
        }
        self.accounts.push((key, owner, data));
    }

    fn owner(&self, key: &Address) -> Address {
        for entry in self.accounts.iter() {
            if entry.0 == *key {
                return entry.1;
            }
        }
        system_program()
    }

    fn data(&self, key: &Address) -> Vec<u8> {
        for entry in self.accounts.iter() {
            if entry.0 == *key {
                return entry.2.clone();
            }
        }
        Vec::new()
    }

    /// An initialized mint owned by the token program.
    fn put_mint(&mut self, key: Address, mint_authority: Option<Address>, freeze: Option<Address>) {
        let to_key = |a: Option<Address>| match a {
            Some(x) => COption::Some(Pubkey(x.to_bytes())),
            None => COption::None,
        };
        let mint = Mint {
            mint_authority: to_key(mint_authority),
            supply: 0,
            decimals: 9,
            is_initialized: true,
            freeze_authority: to_key(freeze),
        };
        let mut data = vec![0u8; Mint::LEN];
        mint.pack_into_slice(&mut data);
        self.put(key, token_program(), data);
    }

    fn infos(&self, metas: &[(Address, bool)]) -> Vec<AccountInfo> {
        metas
            .iter()
            .map(|(key, is_signer)| AccountInfo {
                key: *key,
                owner: self.owner(key),
                is_signer: *is_signer,
                data: self.data(key),
            })
            .collect()
    }

    /// Runs one operation as the ledger would: an account that the operation
    /// asks for is created, zeroed and handed to the registry, and the
    /// operation is run again. A failure leaves the store as it was.
    fn run(
        &mut self,
        program_id: &Address,
        metas: &[(Address, bool)],
        instruction: &MetadataInstruction,
    ) -> Result<(), ProcessError> {
        let data = instruction.pack();
        let before = self.infos(metas);
        let mut infos = self.infos(metas);
        let mut pending: Option<(Address, Address, Vec<u8>)> = None;
        match Processor::process(program_id, &mut infos, &data) {
            Err(e) => {
                assert_eq!(infos, before);
                return Err(e);
            }
            Ok(Outcome::Done) => {}
            Ok(Outcome::NeedsAccount(request)) => {
                assert_eq!(infos, before);
                assert_eq!(request.owner, *program_id);
                assert_eq!(request.lamports, (128 + request.space) * 2);
                let zeroed = vec![0u8; request.space as usize];
                let mut with_account = Store {
                    accounts: self.accounts.clone(),
                    created: Vec::new(),
                };
                with_account.put(request.new_account, request.owner, zeroed.clone());
                infos = with_account.infos(metas);
                let again = infos.clone();
                match Processor::process(program_id, &mut infos, &data) {
                    Err(e) => {
                        assert_eq!(infos, again);
                        return Err(e);
                    }
                    Ok(Outcome::Done) => {}
                    Ok(Outcome::NeedsAccount(_)) => panic!("asked twice for an account"),
                }
                pending = Some((request.new_account, request.owner, zeroed));
                self.created.push((
                    request.payer,
                    request.new_account,
                    request.lamports,
                    request.space,
                    request.owner,
                    request.kind,
                    request.mint,
                ));
            }
        }
        if let Some((key, owner, zeroed)) = pending {
            self.put(key, owner, zeroed);
        }
        for info in infos.iter() {
            if info.data != self.data(&info.key) {
                let owner = self.owner(&info.key);
                self.put(info.key, owner, info.data.clone());
            }
        }
        Ok(())
    }
}

fn create_metadata(name: &str, symbol: &str, image: &str, description: &str, immutable: bool)
    -> MetadataInstruction {
    MetadataInstruction::CreateMetadata {
        name: name.to_string(),
        symbol: symbol.to_string(),
        image: image.to_string(),
        description: description.to_string(),
        immutable,
    }
}

fn update_name(name: &str) -> MetadataInstruction {
    MetadataInstruction::UpdateMetadata {
        name: Some(name.to_string()),
        symbol: None,
        image: None,
        description: None,
    }
}

fn pairs(items: &[(&str, &str)]) -> Vec<(String, String)> {
    items.iter().map(|(k, v)| (k.to_string(), v.to_string())).collect()
}

fn create_metas(payer: Address, mint: Address, metadata: Address, authority: Address)
    -> Vec<(Address, bool)> {
    vec![
        (payer, true),
        (system_program(), false),
        (mint, false),
        (metadata, false),
        (authority, true),
    ]
}

fn create_attributes_metas(
    payer: Address,
    mint: Address,
    attributes: Address,
    authority: Address,
    metadata: Address,
) -> Vec<(Address, bool)> {
    vec![
        (payer, true),
        (system_program(), false),
        (mint, false),
        (attributes, false),
        (authority, true),
        (metadata, false),
    ]
}

/// A store with a mint whose mint authority is `payer`, and the record of
/// that mint as `create` leaves it.
fn store_with_metadata(program_id: &Address, payer: Address, mint: Address, immutable: bool)
    -> (Store, Address) {
    let mut store = Store::new();
    store.put_mint(mint, Some(payer), None);
    let (metadata_pda, _bump) = find_metadata_pda_with_program(program_id, &mint);
    let result = store.run(
        program_id,
        &create_metas(payer, mint, metadata_pda, payer),
        &create_metadata("Name", "SYM", "https://i", "desc", immutable),
    );
    assert_eq!(result, Ok(()));
    (store, metadata_pda)
}

#[test]
fn programs_of_the_ledger_have_their_addresses() {
    assert_eq!(system_program().to_bytes(), Pubkey::system_program().0);
    assert_eq!(token_program().to_bytes(), apl_token::id().0);
}

#[test]
fn create_metadata_mint_authority_rotation_old_fails() {
    let program_id = id();
    let (payer, mint, auth_b) = (pk(1), pk(2), pk(3));
    let mut store = Store::new();
    store.put_mint(mint, Some(auth_b), None);
    let (metadata_pda, _bump) = find_metadata_pda_with_program(&program_id, &mint);

    let result = store.run(
        &program_id,
        &create_metas(payer, mint, metadata_pda, payer),
        &create_metadata("RotateOldFail", "ROF", "https://example.com/rof.png", "old fails", false),
    );
    assert_eq!(result, Err(invalid_authority()));
}

#[test]
fn create_metadata_mint_authority_rotation_new_succeeds() {
    let program_id = id();
    let (payer, mint, auth_b) = (pk(1), pk(2), pk(3));
    let mut store = Store::new();
    store.put_mint(mint, Some(auth_b), None);
    let (metadata_pda, _bump) = find_metadata_pda_with_program(&program_id, &mint);

    let result = store.run(
        &program_id,
        &create_metas(payer, mint, metadata_pda, auth_b),
        &create_metadata("RotateNewOk", "RNO", "https://example.com/rno.png", "new ok", false),
    );
    assert_eq!(result, Ok(()));

    let md = TokenMetadata::unpack(&store.data(&metadata_pda)).expect("unpack metadata");
    assert!(md.is_initialized);
    assert_eq!(md.mint, mint);
    assert_eq!(md.update_authority, Some(auth_b));
}

#[test]
fn create_metadata_freeze_auth_rejected_when_mint_auth_present() {
    let program_id = id();
    let (payer, mint, freeze) = (pk(1), pk(2), pk(4));
    let mut store = Store::new();
    store.put_mint(mint, Some(payer), Some(freeze));
    let (metadata_pda, _bump) = find_metadata_pda_with_program(&program_id, &mint);

    let result = store.run(
        &program_id,
        &create_metas(payer, mint, metadata_pda, freeze),
        &create_metadata("FreezeRejected", "FR", "https://example.com/fr.png", "fr", false),
    );
    assert_eq!(result, Err(invalid_authority()));
}

#[test]
fn create_metadata_no_authority_fails() {
    let program_id = id();
    let (payer, mint) = (pk(1), pk(2));
    let mut store = Store::new();
    store.put_mint(mint, None, None);
    let (metadata_pda, _bump) = find_metadata_pda_with_program(&program_id, &mint);

    let result = store.run(
        &program_id,
        &create_metas(payer, mint, metadata_pda, payer),
        &create_metadata("NoAuth", "NA", "https://example.com/na.png", "no auth", false),
    );
    assert_eq!(result, Err(invalid_authority()));
}

#[test]
fn create_metadata_mint_authority_success() {
    let program_id = id();
    let (payer, mint) = (pk(1), pk(2));
    let mut store = Store::new();
    store.put_mint(mint, Some(payer), None);
    let (metadata_pda, _bump) = find_metadata_pda_with_program(&program_id, &mint);

    let result = store.run(
        &program_id,
        &create_metas(payer, mint, metadata_pda, payer),
        &create_metadata(
            "Arch Pioneer Token",
            "APT",
            "https://arweave.net/abc123.png",
            "The first token launched on Arch Network",
            false,
        ),
    );
    assert_eq!(result, Ok(()));

    // The account was asked for once: paid by the payer, of the record's
    // size, owned by the registry, under the seeds of this mint's record.
    assert_eq!(
        store.created,
        vec![(
            payer,
            metadata_pda,
            3012,
            1378,
            program_id,
            RecordKind::Metadata,
            mint
        )]
    );
    assert_eq!(store.owner(&metadata_pda), program_id);
    assert_eq!(store.data(&metadata_pda).len(), TOKEN_METADATA_MAX_LEN);

    let md = TokenMetadata::unpack(&store.data(&metadata_pda)).expect("unpack metadata");
    assert!(md.is_initialized);
    assert_eq!(md.mint, mint);
    assert_eq!(md.name, "Arch Pioneer Token");
    assert_eq!(md.symbol, "APT");
    assert_eq!(md.image, "https://arweave.net/abc123.png");
    assert_eq!(md.description, "The first token launched on Arch Network");
    assert_eq!(md.update_authority, Some(payer));
}

#[test]
fn create_metadata_freeze_authority_success() {
    let program_id = id();
    let (payer, mint, freeze) = (pk(1), pk(2), pk(4));
    let mut store = Store::new();
    store.put_mint(mint, None, Some(freeze));
    let (metadata_pda, _bump) = find_metadata_pda_with_program(&program_id, &mint);

    let result = store.run(
        &program_id,
        &create_metas(payer, mint, metadata_pda, freeze),
        &create_metadata(
            "Freeze Authority Token",
            "FZ",
            "https://example.com/fz.png",
            "freeze auth creates",
            false,
        ),
    );
    assert_eq!(result, Ok(()));

    let md = TokenMetadata::unpack(&store.data(&metadata_pda)).expect("unpack metadata");
    assert!(md.is_initialized);
    assert_eq!(md.mint, mint);
    assert_eq!(md.update_authority, Some(freeze));
}

#[test]
fn create_metadata_freeze_fallback_refuses_other_keys() {
    let program_id = id();
    let (payer, mint, freeze) = (pk(1), pk(2), pk(4));
    let mut store = Store::new();
    store.put_mint(mint, None, Some(freeze));
    let (metadata_pda, _bump) = find_metadata_pda_with_program(&program_id, &mint);

    let ix = create_metadata("Freeze Authority Token", "FZ", "i", "d", false);
    let result = store.run(&program_id, &create_metas(payer, mint, metadata_pda, payer), &ix);
    assert_eq!(result, Err(invalid_authority()));

    // The right key without a signature is refused as well.
    let mut metas = create_metas(payer, mint, metadata_pda, freeze);
    metas[4].1 = false;
    assert_eq!(store.run(&program_id, &metas, &ix), Err(invalid_authority()));
}

#[test]
fn create_metadata_wrong_signer_fails() {
    let program_id = id();
    let (payer, mint, wrong) = (pk(1), pk(2), pk(5));
    let mut store = Store::new();
    store.put_mint(mint, Some(payer), None);
    let (metadata_pda, _bump) = find_metadata_pda_with_program(&program_id, &mint);

    let result = store.run(
        &program_id,
        &create_metas(payer, mint, metadata_pda, wrong),
        &create_metadata("Wrong Signer", "WS", "https://example.com/ws.png", "should fail", false),
    );
    assert_eq!(result, Err(invalid_authority()));
}

#[test]
fn create_metadata_duplicate_fails() {
    let program_id = id();
    let (payer, mint) = (pk(1), pk(2));
    let mut store = Store::new();
    store.put_mint(mint, Some(payer), None);
    let (metadata_pda, _bump) = find_metadata_pda_with_program(&program_id, &mint);
    let metas = create_metas(payer, mint, metadata_pda, payer);
    let ix = create_metadata("Dup", "DUP", "https://example.com/dup.png", "dup test", false);

    assert_eq!(store.run(&program_id, &metas, &ix), Ok(()));
    let stored = store.data(&metadata_pda);

    assert_eq!(
        store.run(&program_id, &metas, &ix),
        Err(ProcessError::Custom(MetadataError::MetadataAlreadyExists))
    );
    assert_eq!(store.data(&metadata_pda), stored);

    // Another payload for the same mint is refused in the same way.
    let other = create_metadata("Other", "OTH", "https://example.com/o.png", "other", true);
    assert_eq!(
        store.run(&program_id, &metas, &other),
        Err(ProcessError::Custom(MetadataError::MetadataAlreadyExists))
    );
    assert_eq!(store.data(&metadata_pda), stored);
}

#[test]
fn create_metadata_immutable_success() {
    let program_id = id();
    let (payer, mint) = (pk(1), pk(2));
    let mut store = Store::new();
    store.put_mint(mint, Some(payer), None);
    let (metadata_pda, _bump) = find_metadata_pda_with_program(&program_id, &mint);

    let result = store.run(
        &program_id,
        &create_metas(payer, mint, metadata_pda, payer),
        &create_metadata("Immutable Token", "IMM", "https://example.com/imm.png", "immutable", true),
    );
    assert_eq!(result, Ok(()));

    let md = TokenMetadata::unpack(&store.data(&metadata_pda)).expect("unpack metadata");
    assert!(md.is_initialized);
    assert_eq!(md.update_authority, None);
}

#[test]
fn create_metadata_wrong_system_program_fails() {
    let program_id = id();
    let (payer, mint) = (pk(1), pk(2));
    let mut store = Store::new();
    store.put_mint(mint, Some(payer), None);
    let (metadata_pda, _bump) = find_metadata_pda_with_program(&program_id, &mint);

    let bogus_sys = Address::from_slice(&[9u8; 32]);
    let mut metas = create_metas(payer, mint, metadata_pda, payer);
    metas[1] = (bogus_sys, false);
    let result = store.run(
        &program_id,
        &metas,
        &create_metadata("BadSys", "BS", "https://example.com/bs.png", "bad sys", false),
    );
    assert_eq!(result, Err(ProcessError::IncorrectProgramId));
}

#[test]
fn create_metadata_unsigned_payer_fails() {
    let program_id = id();
    let (payer, mint, authority) = (pk(1), pk(2), pk(3));
    let mut store = Store::new();
    store.put_mint(mint, Some(authority), None);
    let (metadata_pda, _bump) = find_metadata_pda_with_program(&program_id, &mint);

    let mut metas = create_metas(payer, mint, metadata_pda, authority);
    metas[0].1 = false;
    let result = store.run(&program_id, &metas, &create_metadata("N", "S", "i", "d", false));
    assert_eq!(result, Err(ProcessError::MissingRequiredSignature));
}

#[test]
fn create_metadata_mint_wrong_owner_fails() {
    let program_id = id();
    let (payer, mint) = (pk(1), pk(2));
    let mut store = Store::new();
    // The mint is an account of the system program, not of the token program.
    store.put(mint, system_program(), Vec::new());
    let (metadata_pda, _bump) = find_metadata_pda_with_program(&program_id, &mint);

    let result = store.run(
        &program_id,
        &create_metas(payer, mint, metadata_pda, payer),
        &create_metadata("WrongOwner", "WO", "https://example.com/wo.png", "wo", false),
    );
    assert_eq!(result, Err(ProcessError::Custom(MetadataError::InvalidMint)));
}

#[test]
fn create_metadata_uninitialized_mint_fails() {
    let program_id = id();
    let (payer, mint) = (pk(1), pk(2));
    let mut store = Store::new();
    // Allocated for a mint by the token program, and never initialized.
    store.put(mint, token_program(), vec![0u8; Mint::LEN]);
    let (metadata_pda, _bump) = find_metadata_pda_with_program(&program_id, &mint);

    let result = store.run(
        &program_id,
        &create_metas(payer, mint, metadata_pda, payer),
        &create_metadata("Uninit", "UI", "https://example.com/ui.png", "ui", false),
    );
    assert_eq!(result, Err(ProcessError::Custom(MetadataError::InvalidMint)));
}

#[test]
fn create_metadata_pda_mismatch_fails() {
    let program_id = id();
    let (payer, mint, wrong_meta) = (pk(1), pk(2), pk(6));
    let mut store = Store::new();
    store.put_mint(mint, Some(payer), None);
    store.put(wrong_meta, system_program(), Vec::new());

    let result = store.run(
        &program_id,
        &create_metas(payer, mint, wrong_meta, payer),
        &create_metadata("PDABad", "PB", "https://example.com/pb.png", "pda bad", false),
    );
    assert_eq!(result, Err(ProcessError::InvalidSeeds));
}

#[test]
fn create_metadata_field_caps_exceeded_fails() {
    let program_id = id();
    let (payer, mint) = (pk(1), pk(2));
    let mut store = Store::new();
    store.put_mint(mint, Some(payer), None);
    let (metadata_pda, _bump) = find_metadata_pda_with_program(&program_id, &mint);
    let metas = create_metas(payer, mint, metadata_pda, payer);
    let too_long = Err(ProcessError::Custom(MetadataError::StringTooLong));

    let big_name = "N".repeat(257);
    let ix = create_metadata(&big_name, "OK", "https://example.com/i.png", "d", false);
    assert_eq!(store.run(&program_id, &metas, &ix), too_long);

    let big_symbol = "S".repeat(17);
    let ix = create_metadata("OK", &big_symbol, "https://example.com/i.png", "d", false);
    assert_eq!(store.run(&program_id, &metas, &ix), too_long);

    // Each field at its cap is accepted.
    let ix = create_metadata(
        &"N".repeat(256),
        &"S".repeat(16),
        &"i".repeat(512),
        &"d".repeat(512),
        false,
    );
    assert_eq!(store.run(&program_id, &metas, &ix), Ok(()));
    assert_eq!(store.data(&metadata_pda)[TOKEN_METADATA_MAX_LEN - 1], 1);
}

#[test]
fn create_metadata_image_length_exceeded_fails() {
    let program_id = id();
    let (payer, mint) = (pk(1), pk(2));
    let mut store = Store::new();
    store.put_mint(mint, Some(payer), None);
    let (metadata_pda, _bump) = find_metadata_pda_with_program(&program_id, &mint);

    let big_image = format!("https://example.com/{}.png", "i".repeat(513));
    let result = store.run(
        &program_id,
        &create_metas(payer, mint, metadata_pda, payer),
        &create_metadata("OK", "OK", &big_image, "d", false),
    );
    assert_eq!(result, Err(ProcessError::Custom(MetadataError::StringTooLong)));
}

#[test]
fn create_metadata_description_length_exceeded_fails() {
    let program_id = id();
    let (payer, mint) = (pk(1), pk(2));
    let mut store = Store::new();
    store.put_mint(mint, Some(payer), None);
    let (metadata_pda, _bump) = find_metadata_pda_with_program(&program_id, &mint);

    let big_desc = "d".repeat(513);
    let result = store.run(
        &program_id,
        &create_metas(payer, mint, metadata_pda, payer),
        &create_metadata("OK", "OK", "https://example.com/i.png", &big_desc, false),
    );
    assert_eq!(result, Err(ProcessError::Custom(MetadataError::StringTooLong)));
}

#[test]
fn create_metadata_counts_bytes_not_characters() {
    let program_id = id();
    let (payer, mint) = (pk(1), pk(2));
    let mut store = Store::new();
    store.put_mint(mint, Some(payer), None);
    let (metadata_pda, _bump) = find_metadata_pda_with_program(&program_id, &mint);
    let metas = create_metas(payer, mint, metadata_pda, payer);

    // Nine characters of two bytes each are beyond the cap of 16 bytes.
    let ix = create_metadata("OK", &"\u{e9}".repeat(9), "i", "d", false);
    assert_eq!(
        store.run(&program_id, &metas, &ix),
        Err(ProcessError::Custom(MetadataError::StringTooLong))
    );
    let ix = create_metadata("OK", &"\u{e9}".repeat(8), "i", "d", false);
    assert_eq!(store.run(&program_id, &metas, &ix), Ok(()));
}

#[test]
fn create_metadata_too_few_accounts_fails() {
    let program_id = id();
    let (payer, mint) = (pk(1), pk(2));
    let mut store = Store::new();
    store.put_mint(mint, Some(payer), None);
    let (metadata_pda, _bump) = find_metadata_pda_with_program(&program_id, &mint);
    let mut metas = create_metas(payer, mint, metadata_pda, payer);
    metas.pop();
    assert_eq!(
        store.run(&program_id, &metas, &create_metadata("N", "S", "i", "d", false)),
        Err(ProcessError::NotEnoughAccountKeys)
    );
}

#[test]
fn create_metadata_account_too_small_fails() {
    let program_id = id();
    let (payer, mint) = (pk(1), pk(2));
    let mut store = Store::new();
    store.put_mint(mint, Some(payer), None);
    let (metadata_pda, _bump) = find_metadata_pda_with_program(&program_id, &mint);
    // The registry owns the account already, and it is too small.
    store.put(metadata_pda, program_id, vec![0u8; 40]);
    assert_eq!(
        store.run(
            &program_id,
            &create_metas(payer, mint, metadata_pda, payer),
            &create_metadata("Name", "SYM", "image", "description", false)
        ),
        Err(ProcessError::InvalidAccountData)
    );
    assert_eq!(store.data(&metadata_pda), vec![0u8; 40]);
}

#[test]
fn process_refuses_malformed_instruction() {
    let program_id = id();
    let mut infos: Vec<AccountInfo> = Vec::new();
    assert_eq!(
        Processor::process(&program_id, &mut infos, &[]),
        Err(ProcessError::InvalidInstructionData)
    );
    assert_eq!(
        Processor::process(&program_id, &mut infos, &[6]),
        Err(ProcessError::InvalidInstructionData)
    );
    // One byte too many after a complete operation.
    assert_eq!(
        Processor::process(&program_id, &mut infos, &[5, 0]),
        Err(ProcessError::InvalidInstructionData)
    );
    assert_eq!(
        Processor::process(&program_id, &mut infos, &[5]),
        Err(ProcessError::NotEnoughAccountKeys)
    );
}

#[test]
fn create_attributes_success_same_tx() {
    let program_id = id();
    let (payer, mint) = (pk(1), pk(2));
    let mut store = Store::new();
    store.put_mint(mint, Some(payer), None);
    let (metadata_pda, _bump) = find_metadata_pda_with_program(&program_id, &mint);
    let (attrs_pda, _bump) = find_attributes_pda_with_program(&program_id, &mint);

    let result = store.run(
        &program_id,
        &create_metas(payer, mint, metadata_pda, payer),
        &create_metadata("N", "S", "i", "d", false),
    );
    assert_eq!(result, Ok(()));

    let data = pairs(&[("k1", "v1"), ("k2", "v2")]);
    let result = store.run(
        &program_id,
        &create_attributes_metas(payer, mint, attrs_pda, payer, metadata_pda),
        &MetadataInstruction::CreateAttributes { data: data.clone() },
    );
    assert_eq!(result, Ok(()));

    let attrs =
        TokenMetadataAttributes::unpack(&store.data(&attrs_pda)).expect("unpack attributes");
    assert!(attrs.is_initialized);
    assert_eq!(attrs.mint, mint);
    assert_eq!(attrs.data, data);
}

#[test]
fn create_attributes_success_two_txs() {
    let program_id = id();
    let (payer, mint) = (pk(1), pk(2));
    let (mut store, metadata_pda) = store_with_metadata(&program_id, payer, mint, false);
    let (attrs_pda, _bump) = find_attributes_pda_with_program(&program_id, &mint);

    let data = pairs(&[("k1", "v1"), ("k2", "v2")]);
    let result = store.run(
        &program_id,
        &create_attributes_metas(payer, mint, attrs_pda, payer, metadata_pda),
        &MetadataInstruction::CreateAttributes { data: data.clone() },
    );
    assert_eq!(result, Ok(()));
    assert_eq!(
        store.created[1],
        (
            payer,
            attrs_pda,
            20298,
            10021,
            program_id,
            RecordKind::Attributes,
            mint
        )
    );
    assert_eq!(store.data(&attrs_pda).len(), TOKEN_METADATA_ATTRIBUTES_MAX_LEN);

    let attrs =
        TokenMetadataAttributes::unpack(&store.data(&attrs_pda)).expect("unpack attributes");
    assert!(attrs.is_initialized);
    assert_eq!(attrs.data, data);
}

#[test]
fn create_attributes_wrong_authority_fails() {
    let program_id = id();
    let (payer, mint, wrong) = (pk(1), pk(2), pk(5));
    let (mut store, metadata_pda) = store_with_metadata(&program_id, payer, mint, false);
    let (attrs_pda, _bump) = find_attributes_pda_with_program(&program_id, &mint);

    let result = store.run(
        &program_id,
        &create_attributes_metas(payer, mint, attrs_pda, wrong, metadata_pda),
        &MetadataInstruction::CreateAttributes { data: pairs(&[("a", "b")]) },
    );
    assert_eq!(result, Err(invalid_authority()));
    assert_eq!(store.data(&attrs_pda), Vec::<u8>::new());
}

#[test]
fn create_attributes_twice_fails() {
    let program_id = id();
    let (payer, mint) = (pk(1), pk(2));
    let (mut store, metadata_pda) = store_with_metadata(&program_id, payer, mint, false);
    let (attrs_pda, _bump) = find_attributes_pda_with_program(&program_id, &mint);
    let metas = create_attributes_metas(payer, mint, attrs_pda, payer, metadata_pda);
    let ix = MetadataInstruction::CreateAttributes { data: pairs(&[("a", "1")]) };

    assert_eq!(store.run(&program_id, &metas, &ix), Ok(()));
    let stored = store.data(&attrs_pda);
    assert_eq!(
        store.run(&program_id, &metas, &ix),
        Err(ProcessError::Custom(MetadataError::MetadataAlreadyExists))
    );
    assert_eq!(store.data(&attrs_pda), stored);
}

#[test]
fn create_attributes_checks_accounts_in_order() {
    let program_id = id();
    let (payer, mint, other_mint) = (pk(1), pk(2), pk(7));
    let (mut store, metadata_pda) = store_with_metadata(&program_id, payer, mint, false);
    let (attrs_pda, _bump) = find_attributes_pda_with_program(&program_id, &mint);
    let ix = MetadataInstruction::CreateAttributes { data: pairs(&[("a", "1")]) };

    let mut metas = create_attributes_metas(payer, mint, attrs_pda, payer, metadata_pda);
    metas[4].1 = false;
    assert_eq!(store.run(&program_id, &metas, &ix), Err(ProcessError::MissingRequiredSignature));

    // The attributes of one mint are not at the address of another mint's.
    let metas = create_attributes_metas(payer, other_mint, attrs_pda, payer, metadata_pda);
    assert_eq!(store.run(&program_id, &metas, &ix), Err(ProcessError::InvalidSeeds));

    // The record has to be the record of the mint.
    store.put_mint(other_mint, Some(payer), None);
    let (other_attrs, _bump) = find_attributes_pda_with_program(&program_id, &other_mint);
    let metas = create_attributes_metas(payer, other_mint, other_attrs, payer, metadata_pda);
    assert_eq!(store.run(&program_id, &metas, &ix), Err(ProcessError::InvalidAccountData));

    // Without a record there are no attributes.
    let (other_metadata, _bump) = find_metadata_pda_with_program(&program_id, &other_mint);
    let metas = create_attributes_metas(payer, other_mint, other_attrs, payer, other_metadata);
    assert_eq!(store.run(&program_id, &metas, &ix), Err(ProcessError::InvalidAccountData));
}

#[test]
fn create_attributes_validates_the_batch() {
    let program_id = id();
    let (payer, mint) = (pk(1), pk(2));
    let (mut store, metadata_pda) = store_with_metadata(&program_id, payer, mint, false);
    let (attrs_pda, _bump) = find_attributes_pda_with_program(&program_id, &mint);
    let metas = create_attributes_metas(payer, mint, attrs_pda, payer, metadata_pda);

    let many: Vec<(String, String)> = (0..33).map(|i| (format!("k{}", i), "v".to_string())).collect();
    assert_eq!(
        store.run(&program_id, &metas, &MetadataInstruction::CreateAttributes { data: many }),
        Err(ProcessError::Custom(MetadataError::TooManyAttributes))
    );
    assert_eq!(
        store.run(
            &program_id,
            &metas,
            &MetadataInstruction::CreateAttributes { data: pairs(&[("", "v")]) }
        ),
        Err(ProcessError::Custom(MetadataError::InvalidInstructionData))
    );
    assert_eq!(
        store.run(
            &program_id,
            &metas,
            &MetadataInstruction::CreateAttributes {
                data: vec![("k".repeat(65), "v".to_string())]
            }
        ),
        Err(ProcessError::Custom(MetadataError::StringTooLong))
    );
    assert_eq!(
        store.run(
            &program_id,
            &metas,
            &MetadataInstruction::CreateAttributes {
                data: vec![("k".to_string(), "v".repeat(241))]
            }
        ),
        Err(ProcessError::Custom(MetadataError::StringTooLong))
    );
    // One faulty pair refuses the whole batch; the first fault is reported.
    assert_eq!(
        store.run(
            &program_id,
            &metas,
            &MetadataInstruction::CreateAttributes {
                data: vec![
                    ("ok".to_string(), "fine".to_string()),
                    ("k".repeat(65), "v".to_string()),
                    ("".to_string(), "v".to_string()),
                ]
            }
        ),
        Err(ProcessError::Custom(MetadataError::StringTooLong))
    );
    assert_eq!(store.data(&attrs_pda), Vec::<u8>::new());

    // The largest batch fills the account to its last byte.
    let full: Vec<(String, String)> = (0..32).map(|_| ("k".repeat(64), "v".repeat(240))).collect();
    assert_eq!(
        store.run(
            &program_id,
            &metas,
            &MetadataInstruction::CreateAttributes { data: full.clone() }
        ),
        Ok(())
    );
    let stored = store.data(&attrs_pda);
    assert_eq!(stored.len(), 10021);
    assert_eq!(stored[10020], b'v');
    assert_eq!(TokenMetadataAttributes::unpack(&stored).expect("unpack attributes").data, full);
}

#[test]
fn replace_attributes_success() {
    let program_id = id();
    let (payer, mint) = (pk(1), pk(2));
    let (mut store, metadata_pda) = store_with_metadata(&program_id, payer, mint, false);
    let (attrs_pda, _bump) = find_attributes_pda_with_program(&program_id, &mint);

    let initial = pairs(&[("a", "1")]);
    let result = store.run(
        &program_id,
        &create_attributes_metas(payer, mint, attrs_pda, payer, metadata_pda),
        &MetadataInstruction::CreateAttributes { data: initial.clone() },
    );
    assert_eq!(result, Ok(()));

    let replacement = pairs(&[("b", "2")]);
    let result = store.run(
        &program_id,
        &[(attrs_pda, false), (payer, true), (metadata_pda, false)],
        &MetadataInstruction::ReplaceAttributes { data: replacement.clone() },
    );
    assert_eq!(result, Ok(()));

    let attrs =
        TokenMetadataAttributes::unpack(&store.data(&attrs_pda)).expect("unpack attributes");
    assert!(attrs.is_initialized);
    assert_eq!(attrs.mint, mint);
    assert_eq!(attrs.data, replacement);

    // A shorter replacement leaves nothing of the longer one behind.
    let longer = pairs(&[("first", "one"), ("second", "two"), ("first", "again")]);
    let run = store.run(
        &program_id,
        &[(attrs_pda, false), (payer, true), (metadata_pda, false)],
        &MetadataInstruction::ReplaceAttributes { data: longer.clone() },
    );
    assert_eq!(run, Ok(()));
    assert_eq!(
        TokenMetadataAttributes::unpack(&store.data(&attrs_pda)).expect("unpack attributes").data,
        longer
    );
    let run = store.run(
        &program_id,
        &[(attrs_pda, false), (payer, true), (metadata_pda, false)],
        &MetadataInstruction::ReplaceAttributes { data: Vec::new() },
    );
    assert_eq!(run, Ok(()));
    let stored = store.data(&attrs_pda);
    assert!(stored[37..].iter().all(|b| *b == 0));
    assert_eq!(
        TokenMetadataAttributes::unpack(&stored).expect("unpack attributes").data,
        Vec::<(String, String)>::new()
    );
}

#[test]
fn replace_attributes_wrong_signer_fails() {
    let program_id = id();
    let (payer, mint, wrong) = (pk(1), pk(2), pk(5));
    let (mut store, metadata_pda) = store_with_metadata(&program_id, payer, mint, false);
    let (attrs_pda, _bump) = find_attributes_pda_with_program(&program_id, &mint);
    let initial = pairs(&[("a", "1")]);
    let result = store.run(
        &program_id,
        &create_attributes_metas(payer, mint, attrs_pda, payer, metadata_pda),
        &MetadataInstruction::CreateAttributes { data: initial.clone() },
    );
    assert_eq!(result, Ok(()));

    let result = store.run(
        &program_id,
        &[(attrs_pda, false), (wrong, true), (metadata_pda, false)],
        &MetadataInstruction::ReplaceAttributes { data: pairs(&[("b", "2")]) },
    );
    assert_eq!(result, Err(invalid_authority()));

    let result = store.run(
        &program_id,
        &[(attrs_pda, false), (payer, false), (metadata_pda, false)],
        &MetadataInstruction::ReplaceAttributes { data: pairs(&[("b", "2")]) },
    );
    assert_eq!(result, Err(ProcessError::MissingRequiredSignature));

    let attrs =
        TokenMetadataAttributes::unpack(&store.data(&attrs_pda)).expect("unpack attributes");
    assert_eq!(attrs.data, initial);
}

#[test]
fn replace_attributes_empty_key_or_value_fails() {
    let program_id = id();
    let (payer, mint) = (pk(1), pk(2));
    let (mut store, metadata_pda) = store_with_metadata(&program_id, payer, mint, false);
    let (attrs_pda, _bump) = find_attributes_pda_with_program(&program_id, &mint);
    let initial = pairs(&[("a", "1")]);
    let result = store.run(
        &program_id,
        &create_attributes_metas(payer, mint, attrs_pda, payer, metadata_pda),
        &MetadataInstruction::CreateAttributes { data: initial.clone() },
    );
    assert_eq!(result, Ok(()));

    let metas = [(attrs_pda, false), (payer, true), (metadata_pda, false)];
    let bad_key = MetadataInstruction::ReplaceAttributes { data: pairs(&[("", "v")]) };
    assert_eq!(
        store.run(&program_id, &metas, &bad_key),
        Err(ProcessError::Custom(MetadataError::InvalidInstructionData))
    );
    let bad_value = MetadataInstruction::ReplaceAttributes { data: pairs(&[("k", "")]) };
    assert_eq!(
        store.run(&program_id, &metas, &bad_value),
        Err(ProcessError::Custom(MetadataError::InvalidInstructionData))
    );
    let attrs =
        TokenMetadataAttributes::unpack(&store.data(&attrs_pda)).expect("unpack attributes");
    assert_eq!(attrs.data, initial);
}

#[test]
fn replace_attributes_needs_the_attributes_of_the_records_mint() {
    let program_id = id();
    let (payer, mint, other_mint) = (pk(1), pk(2), pk(7));
    let (mut store, metadata_pda) = store_with_metadata(&program_id, payer, mint, false);
    let (attrs_pda, _bump) = find_attributes_pda_with_program(&program_id, &mint);
    let (other_attrs, _bump) = find_attributes_pda_with_program(&program_id, &other_mint);
    let ix = MetadataInstruction::ReplaceAttributes { data: pairs(&[("b", "2")]) };

    // Attributes that do not exist yet cannot be replaced.
    assert_eq!(
        store.run(&program_id, &[(attrs_pda, false), (payer, true), (metadata_pda, false)], &ix),
        Err(ProcessError::InvalidAccountData)
    );
    store.put(attrs_pda, program_id, vec![0u8; TOKEN_METADATA_ATTRIBUTES_MAX_LEN]);
    assert_eq!(
        store.run(&program_id, &[(attrs_pda, false), (payer, true), (metadata_pda, false)], &ix),
        Err(ProcessError::UninitializedAccount)
    );
    // The address is derived from the mint that the record names.
    assert_eq!(
        store.run(&program_id, &[(other_attrs, false), (payer, true), (metadata_pda, false)], &ix),
        Err(ProcessError::InvalidSeeds)
    );
}

#[test]
fn update_metadata_success() {
    let program_id = id();
    let (payer, mint) = (pk(1), pk(2));
    let (mut store, metadata_pda) = store_with_metadata(&program_id, payer, mint, false);

    let result = store.run(
        &program_id,
        &[(metadata_pda, false), (payer, true)],
        &MetadataInstruction::UpdateMetadata {
            name: Some("NewName".into()),
            symbol: Some("NS".into()),
            image: None,
            description: None,
        },
    );
    assert_eq!(result, Ok(()));

    let md = TokenMetadata::unpack(&store.data(&metadata_pda)).expect("unpack metadata");
    assert_eq!(md.name, "NewName");
    assert_eq!(md.symbol, "NS");
    assert_eq!(md.image, "https://i");
    assert_eq!(md.description, "desc");
    assert_eq!(md.mint, mint);
    assert_eq!(md.update_authority, Some(payer));
}

#[test]
fn update_metadata_grows_within_the_account() {
    let program_id = id();
    let (payer, mint) = (pk(1), pk(2));
    let (mut store, metadata_pda) = store_with_metadata(&program_id, payer, mint, false);
    let metas = [(metadata_pda, false), (payer, true)];

    let result = store.run(
        &program_id,
        &metas,
        &MetadataInstruction::UpdateMetadata {
            name: Some("N".repeat(256)),
            symbol: Some("S".repeat(16)),
            image: Some("i".repeat(512)),
            description: Some("d".repeat(512)),
        },
    );
    assert_eq!(result, Ok(()));
    let stored = store.data(&metadata_pda);
    assert_eq!(stored.len(), 1378);
    let md = TokenMetadata::unpack(&stored).expect("unpack metadata");
    assert_eq!(md.description, "d".repeat(512));
    assert_eq!(md.update_authority, Some(payer));

    let too_long = MetadataInstruction::UpdateMetadata {
        name: None,
        symbol: Some("S".repeat(17)),
        image: None,
        description: None,
    };
    assert_eq!(
        store.run(&program_id, &metas, &too_long),
        Err(ProcessError::Custom(MetadataError::StringTooLong))
    );
    assert_eq!(store.data(&metadata_pda), stored);
}

#[test]
fn transfer_authority_and_make_immutable() {
    let program_id = id();
    let (payer, mint, auth_a, auth_b) = (pk(1), pk(2), pk(3), pk(4));
    let mut store = Store::new();
    store.put_mint(mint, Some(auth_a), None);
    let (metadata_pda, _bump) = find_metadata_pda_with_program(&program_id, &mint);

    let result = store.run(
        &program_id,
        &create_metas(payer, mint, metadata_pda, auth_a),
        &create_metadata("Token", "TOK", "i", "d", false),
    );
    assert_eq!(result, Ok(()));

    let result = store.run(
        &program_id,
        &[(metadata_pda, false), (auth_a, true)],
        &MetadataInstruction::TransferAuthority { new_authority: auth_b },
    );
    assert_eq!(result, Ok(()));

    // The old authority can no longer update.
    let result = store.run(&program_id, &[(metadata_pda, false), (auth_a, true)], &update_name("X"));
    assert_eq!(result, Err(invalid_authority()));

    // The new authority can.
    let result = store.run(&program_id, &[(metadata_pda, false), (auth_b, true)], &update_name("Y"));
    assert_eq!(result, Ok(()));

    let result = store.run(
        &program_id,
        &[(metadata_pda, false), (auth_b, true)],
        &MetadataInstruction::MakeImmutable,
    );
    assert_eq!(result, Ok(()));

    let result = store.run(
        &program_id,
        &[(metadata_pda, false), (auth_b, true)],
        &MetadataInstruction::TransferAuthority { new_authority: auth_a },
    );
    assert_eq!(result, Err(invalid_authority()));

    let md = TokenMetadata::unpack(&store.data(&metadata_pda)).expect("unpack metadata");
    assert_eq!(md.name, "Y");
    assert_eq!(md.update_authority, None);
}

#[test]
fn update_metadata_wrong_authority_fails() {
    let program_id = id();
    let (payer, mint, wrong) = (pk(1), pk(2), pk(5));
    let (mut store, metadata_pda) = store_with_metadata(&program_id, payer, mint, false);
    let stored = store.data(&metadata_pda);

    let result = store.run(&program_id, &[(metadata_pda, false), (wrong, true)], &update_name("X"));
    assert_eq!(result, Err(invalid_authority()));
    assert_eq!(store.data(&metadata_pda), stored);
}

#[test]
fn update_metadata_immutable_fails() {
    let program_id = id();
    let (payer, mint) = (pk(1), pk(2));
    let (mut store, metadata_pda) = store_with_metadata(&program_id, payer, mint, true);

    let result = store.run(&program_id, &[(metadata_pda, false), (payer, true)], &update_name("X"));
    assert_eq!(result, Err(invalid_authority()));
}

#[test]
fn update_metadata_checks_signature_and_record() {
    let program_id = id();
    let (payer, mint) = (pk(1), pk(2));
    let (mut store, metadata_pda) = store_with_metadata(&program_id, payer, mint, false);

    let result = store.run(&program_id, &[(metadata_pda, false), (payer, false)], &update_name("X"));
    assert_eq!(result, Err(ProcessError::MissingRequiredSignature));

    let result = store.run(&program_id, &[(metadata_pda, false)], &update_name("X"));
    assert_eq!(result, Err(ProcessError::NotEnoughAccountKeys));

    // An account of the right size that holds no record yet.
    let empty = pk(8);
    store.put(empty, program_id, vec![0u8; TOKEN_METADATA_MAX_LEN]);
    let result = store.run(&program_id, &[(empty, false), (payer, true)], &update_name("X"));
    assert_eq!(result, Err(ProcessError::UninitializedAccount));

    // An account of another size, and one whose bytes are no record.
    let short = pk(9);
    store.put(short, program_id, vec![0u8; 100]);
    let result = store.run(&program_id, &[(short, false), (payer, true)], &update_name("X"));
    assert_eq!(result, Err(ProcessError::InvalidAccountData));
    let garbled = pk(10);
    store.put(garbled, program_id, vec![2u8; TOKEN_METADATA_MAX_LEN]);
    let result = store.run(&program_id, &[(garbled, false), (payer, true)], &update_name("X"));
    assert_eq!(result, Err(ProcessError::InvalidAccountData));
}

#[test]
fn transfer_authority_wrong_signer_fails() {
    let program_id = id();
    let (payer, mint, auth_a, wrong, target) = (pk(1), pk(2), pk(3), pk(5), pk(6));
    let mut store = Store::new();
    store.put_mint(mint, Some(auth_a), None);
    let (metadata_pda, _bump) = find_metadata_pda_with_program(&program_id, &mint);
    let result = store.run(
        &program_id,
        &create_metas(payer, mint, metadata_pda, auth_a),
        &create_metadata("Token", "TOK", "i", "d", false),
    );
    assert_eq!(result, Ok(()));

    let result = store.run(
        &program_id,
        &[(metadata_pda, false), (wrong, true)],
        &MetadataInstruction::TransferAuthority { new_authority: target },
    );
    assert_eq!(result, Err(invalid_authority()));
    let md = TokenMetadata::unpack(&store.data(&metadata_pda)).expect("unpack metadata");
    assert_eq!(md.update_authority, Some(auth_a));
}

#[test]
fn make_immutable_already_immutable_fails() {
    let program_id = id();
    let (payer, mint, auth) = (pk(1), pk(2), pk(3));
    let mut store = Store::new();
    store.put_mint(mint, Some(auth), None);
    let (metadata_pda, _bump) = find_metadata_pda_with_program(&program_id, &mint);
    let result = store.run(
        &program_id,
        &create_metas(payer, mint, metadata_pda, auth),
        &create_metadata("Name", "SYM", "i", "d", true),
    );
    assert_eq!(result, Ok(()));

    let result = store.run(
        &program_id,
        &[(metadata_pda, false), (auth, true)],
        &MetadataInstruction::MakeImmutable,
    );
    assert_eq!(result, Err(invalid_authority()));
}

#[test]
fn immutable_record_refuses_every_change() {
    let program_id = id();
    let (payer, mint) = (pk(1), pk(2));
    let (mut store, metadata_pda) = store_with_metadata(&program_id, payer, mint, false);
    let (attrs_pda, _bump) = find_attributes_pda_with_program(&program_id, &mint);
    let result = store.run(
        &program_id,
        &create_attributes_metas(payer, mint, attrs_pda, payer, metadata_pda),
        &MetadataInstruction::CreateAttributes { data: pairs(&[("a", "1")]) },
    );
    assert_eq!(result, Ok(()));

    let record = [(metadata_pda, false), (payer, true)];
    assert_eq!(store.run(&program_id, &record, &MetadataInstruction::MakeImmutable), Ok(()));
    let frozen = store.data(&metadata_pda);
    let attributes = store.data(&attrs_pda);

    assert_eq!(store.run(&program_id, &record, &update_name("New")), Err(invalid_authority()));
    assert_eq!(
        store.run(
            &program_id,
            &record,
            &MetadataInstruction::TransferAuthority { new_authority: payer }
        ),
        Err(invalid_authority())
    );
    assert_eq!(
        store.run(&program_id, &record, &MetadataInstruction::MakeImmutable),
        Err(invalid_authority())
    );
    assert_eq!(
        store.run(
            &program_id,
            &[(attrs_pda, false), (payer, true), (metadata_pda, false)],
            &MetadataInstruction::ReplaceAttributes { data: pairs(&[("b", "2")]) }
        ),
        Err(invalid_authority())
    );
    assert_eq!(
        store.run(
            &program_id,
            &create_attributes_metas(payer, mint, attrs_pda, payer, metadata_pda),
            &MetadataInstruction::CreateAttributes { data: pairs(&[("b", "2")]) }
        ),
        Err(invalid_authority())
    );
    assert_eq!(store.data(&metadata_pda), frozen);
    assert_eq!(store.data(&attrs_pda), attributes);
}

#[test]
fn record_lifecycle_from_creation_to_immutability() {
    let program_id = id();
    let (payer, mint, b) = (pk(1), pk(2), pk(11));
    let mut store = Store::new();
    store.put_mint(mint, Some(payer), None);
    let (metadata_pda, _bump) = find_metadata_pda_with_program(&program_id, &mint);

    let result = store.run(
        &program_id,
        &create_metas(payer, mint, metadata_pda, payer),
        &create_metadata("Demo", "DT", "https://x/i.png", "demo", false),
    );
    assert_eq!(result, Ok(()));
    let md = TokenMetadata::unpack(&store.data(&metadata_pda)).expect("unpack metadata");
    assert_eq!(md.update_authority, Some(payer));

    let result = store.run(&program_id, &[(metadata_pda, false), (payer, true)], &update_name("New"));
    assert_eq!(result, Ok(()));
    let md = TokenMetadata::unpack(&store.data(&metadata_pda)).expect("unpack metadata");
    assert_eq!(
        md,
        TokenMetadata {
            is_initialized: true,
            mint,
            name: "New".to_string(),
            symbol: "DT".to_string(),
            image: "https://x/i.png".to_string(),
            description: "demo".to_string(),
            update_authority: Some(payer),
        }
    );

    let result = store.run(
        &program_id,
        &[(metadata_pda, false), (payer, true)],
        &MetadataInstruction::TransferAuthority { new_authority: b },
    );
    assert_eq!(result, Ok(()));
    let result = store.run(
        &program_id,
        &[(metadata_pda, false), (b, true)],
        &MetadataInstruction::MakeImmutable,
    );
    assert_eq!(result, Ok(()));

    let md = TokenMetadata::unpack(&store.data(&metadata_pda)).expect("unpack metadata");
    assert_eq!(md.update_authority, None);
    assert_eq!(md.name, "New");
    assert_eq!(md.symbol, "DT");
    for signer in [payer, b] {
        assert_eq!(
            store.run(
                &program_id,
                &[(metadata_pda, false), (signer, true)],
                &MetadataInstruction::TransferAuthority { new_authority: signer }
            ),
            Err(invalid_authority())
        );
    }
}

#[test]
fn record_is_changed_only_at_its_derived_address() {
    let program_id = id();
    let (payer, mint, elsewhere) = (pk(1), pk(2), pk(12));
    let (mut store, metadata_pda) = store_with_metadata(&program_id, payer, mint, false);

    // The same bytes in an account of the registry at another address.
    let copy = store.data(&metadata_pda);
    store.put(elsewhere, program_id, copy.clone());
    let misplaced = [(elsewhere, false), (payer, true)];
    assert_eq!(
        store.run(&program_id, &misplaced, &update_name("New")),
        Err(ProcessError::InvalidSeeds)
    );
    assert_eq!(
        store.run(
            &program_id,
            &misplaced,
            &MetadataInstruction::TransferAuthority { new_authority: pk(4) }
        ),
        Err(ProcessError::InvalidSeeds)
    );
    assert_eq!(
        store.run(&program_id, &misplaced, &MetadataInstruction::MakeImmutable),
        Err(ProcessError::InvalidSeeds)
    );
    assert_eq!(store.data(&elsewhere), copy);

    // The record of this registry is no record of another registry.
    let other_registry = pk(13);
    assert_eq!(
        store.run(&other_registry, &[(metadata_pda, false), (payer, true)], &update_name("New")),
        Err(ProcessError::InvalidSeeds)
    );

    // A signer who is not the authority learns nothing about the address.
    assert_eq!(
        store.run(&program_id, &[(elsewhere, false), (pk(5), true)], &update_name("New")),
        Err(invalid_authority())
    );

    // At its own address the record is changed.
    assert_eq!(
        store.run(&program_id, &[(metadata_pda, false), (payer, true)], &update_name("New")),
        Ok(())
    );
    assert_eq!(store.data(&elsewhere), copy);
}

#[test]
fn record_is_changed_only_in_an_account_of_the_registry() {
    let program_id = id();
    let (payer, mint, other_owner) = (pk(1), pk(2), pk(14));
    let (mut store, metadata_pda) = store_with_metadata(&program_id, payer, mint, false);
    let stored = store.data(&metadata_pda);
    store.put(metadata_pda, other_owner, stored.clone());

    let record = [(metadata_pda, false), (payer, true)];
    assert_eq!(
        store.run(&program_id, &record, &update_name("New")),
        Err(ProcessError::InvalidAccountOwner)
    );
    assert_eq!(
        store.run(
            &program_id,
            &record,
            &MetadataInstruction::TransferAuthority { new_authority: pk(4) }
        ),
        Err(ProcessError::InvalidAccountOwner)
    );
    assert_eq!(
        store.run(&program_id, &record, &MetadataInstruction::MakeImmutable),
        Err(ProcessError::InvalidAccountOwner)
    );
    assert_eq!(store.data(&metadata_pda), stored);
}

#[test]
fn forged_record_gives_no_right_to_attributes() {
    let program_id = id();
    let (payer, mint, attacker, forged) = (pk(1), pk(2), pk(15), pk(16));
    let (mut store, metadata_pda) = store_with_metadata(&program_id, payer, mint, false);
    let (attrs_pda, _bump) = find_attributes_pda_with_program(&program_id, &mint);

    // A record that names the mint and the attacker, in an account that the
    // attacker has made up.
    let record = TokenMetadata {
        is_initialized: true,
        mint,
        name: "Forged".to_string(),
        symbol: "F".to_string(),
        image: "i".to_string(),
        description: "d".to_string(),
        update_authority: Some(attacker),
    };
    let mut bytes = vec![0u8; TOKEN_METADATA_MAX_LEN];
    record.pack_into_slice(&mut bytes);
    store.put(forged, attacker, bytes.clone());

    let create = MetadataInstruction::CreateAttributes { data: pairs(&[("a", "1")]) };
    assert_eq!(
        store.run(
            &program_id,
            &create_attributes_metas(attacker, mint, attrs_pda, attacker, forged),
            &create
        ),
        Err(ProcessError::InvalidSeeds)
    );
    assert_eq!(store.data(&attrs_pda), Vec::<u8>::new());
    assert!(store.created.len() == 1);

    // Nor does it where the registry owns the made-up account.
    store.put(forged, program_id, bytes.clone());
    assert_eq!(
        store.run(
            &program_id,
            &create_attributes_metas(attacker, mint, attrs_pda, attacker, forged),
            &create
        ),
        Err(ProcessError::InvalidSeeds)
    );

    // The true authority creates the attributes; the forged record does not
    // replace them.
    assert_eq!(
        store.run(
            &program_id,
            &create_attributes_metas(payer, mint, attrs_pda, payer, metadata_pda),
            &create
        ),
        Ok(())
    );
    let stored = store.data(&attrs_pda);
    let replace = MetadataInstruction::ReplaceAttributes { data: pairs(&[("b", "2")]) };
    assert_eq!(
        store.run(&program_id, &[(attrs_pda, false), (attacker, true), (forged, false)], &replace),
        Err(ProcessError::InvalidSeeds)
    );
    assert_eq!(store.data(&attrs_pda), stored);

    // A record at the right address in an account of another program counts
    // no more.
    let true_record = store.data(&metadata_pda);
    store.put(metadata_pda, attacker, true_record.clone());
    assert_eq!(
        store.run(&program_id, &[(attrs_pda, false), (payer, true), (metadata_pda, false)], &replace),
        Err(ProcessError::InvalidAccountOwner)
    );
    store.put(metadata_pda, program_id, true_record);

    // Attributes in an account of another program are not replaced.
    store.put(attrs_pda, attacker, stored.clone());
    assert_eq!(
        store.run(&program_id, &[(attrs_pda, false), (payer, true), (metadata_pda, false)], &replace),
        Err(ProcessError::InvalidAccountOwner)
    );
    store.put(attrs_pda, program_id, stored.clone());
    assert_eq!(
        store.run(&program_id, &[(attrs_pda, false), (payer, true), (metadata_pda, false)], &replace),
        Ok(())
    );
}

#[test]
fn operations_take_the_derived_address_as_it_is_given() {
    let program_id = id();
    let (payer, mint) = (pk(1), pk(2));
    let (store, metadata_pda) = store_with_metadata(&program_id, payer, mint, false);
    let metas = [(metadata_pda, false), (payer, true)];
    let derived = find_metadata_pda_with_program(&program_id, &mint);
    assert_eq!(Processor::record_address(&program_id, &store.infos(&metas), 0), Some(derived));
    assert_eq!(Processor::record_address(&program_id, &store.infos(&metas), 1), None);
    assert_eq!(Processor::record_address(&program_id, &store.infos(&metas), 2), None);

    let mut accounts = store.infos(&metas);
    assert_eq!(
        Processor::make_immutable(&program_id, None, &mut accounts),
        Err(ProcessError::InvalidSeeds)
    );
    assert_eq!(
        Processor::transfer_authority(&program_id, Some((pk(9), 255)), &mut accounts, pk(4)),
        Err(ProcessError::InvalidSeeds)
    );
    assert_eq!(
        Processor::update_metadata(
            &program_id,
            Some(derived),
            &mut accounts,
            Some("New".to_string()),
            None,
            None,
            None
        ),
        Ok(Outcome::Done)
    );
    assert_eq!(TokenMetadata::unpack(&accounts[0].data).expect("unpack metadata").name, "New");
    assert_eq!(
        Processor::check_record_account(&program_id, &Some(derived), &accounts[0]),
        Ok(())
    );
    assert_eq!(
        Processor::check_record_account(&program_id, &Some(derived), &accounts[1]),
        Err(ProcessError::InvalidSeeds)
    );
    assert_eq!(
        Processor::check_record_account(&pk(9), &Some(derived), &accounts[0]),
        Err(ProcessError::InvalidAccountOwner)
    );
}
