use anchor_lang::prelude::Pubkey;
use nft_fraction::address::{derive_addresses, Address, DerivedAddresses};
use nft_fraction::descriptor::ItemDescriptor;
use nft_fraction::error::MyError;
use nft_fraction::ledger::{Authority, LedgerCall};
use nft_fraction::protocol::{
    claim_descriptor, fractionalize_nft, fractionalize_nft_handler, fractionalize_nft_with,
    init_fractionalize_handler, init_fractionalize_with, mint_fraction_handler, mint_fraction_with,
    unfractionalize_nft, unfractionalize_nft_handler, unfractionalize_nft_with, FractionalizeNft,
    InitFractionalize, MintFraction, ProgramConfig, UnfractionalizeNft,
};
use nft_fraction::record::FractionDetails;

fn addr(n: u8) -> Address {
    Address::new([n; 32])
}

fn program() -> Address {
    addr(200)
}

fn derived_for(item: &Address) -> DerivedAddresses {
    derive_addresses(&program(), item).expect("derivable")
}

fn borsh_string(out: &mut Vec<u8>, s: &str) {
    out.extend_from_slice(&(s.len() as u32).to_le_bytes());
    out.extend_from_slice(s.as_bytes());
}

/// Bytes of a metadata account as the metadata program stores them.
fn metadata_bytes(mint: &Address, name: &str, symbol: &str, uri: &str) -> Vec<u8> {
    let mut out = vec![4u8];
    out.extend_from_slice(&[9u8; 32]);
    out.extend_from_slice(&mint.bytes);
    borsh_string(&mut out, name);
    borsh_string(&mut out, symbol);
    borsh_string(&mut out, uri);
    out.extend_from_slice(&0u16.to_le_bytes());
    out.push(0); // creators
    out.push(0); // primary sale happened
    out.push(1); // mutable
    out.push(0); // edition nonce
    out.push(0); // token standard
    out.push(0); // collection
    out.push(0); // uses
    out.push(0); // collection details
    out.push(0); // programmable config
    out
}

fn padded(s: &str, width: usize) -> String {
    let mut r = String::from(s);
    while r.len() < width {
        r.push('\0');
    }
    r
}

fn item_descriptor() -> ItemDescriptor {
    ItemDescriptor {
        name: padded("Item", 32),
        symbol: padded("ITM", 10),
        uri: String::from("https://example.org/item.json"),
    }
}

/// Holder `user` with item `item`: accounts are numbered after the holder.
fn fractionalize_accounts(user: u8, item: u8) -> FractionalizeNft {
    FractionalizeNft {
        user: addr(user),
        nft_mint: addr(item),
        nft_account: addr(user + 1),
        nft_metadata_account: addr(item + 1),
        fraction_token_metadata: addr(item + 2),
        user_token_account: addr(user + 2),
    }
}

fn release_accounts(user: u8, amount: u64, ledger: Address) -> UnfractionalizeNft {
    UnfractionalizeNft {
        user: addr(user),
        user_nft_account: addr(user + 1),
        user_fraction_token: addr(user + 2),
        fraction_token_owner: addr(user),
        fraction_token_amount: amount,
        fraction_token_mint: ledger,
    }
}

fn fractionalized(user: u8, item: u8, shares: u64) -> (FractionDetails, Vec<LedgerCall>) {
    let acc = fractionalize_accounts(user, item);
    let d = derived_for(&acc.nft_mint);
    fractionalize_nft_with(&None, &d, &acc, &item_descriptor(), shares).expect("fractionalized")
}

fn err_of(r: Result<(FractionDetails, Vec<LedgerCall>), MyError>) -> MyError {
    match r {
        Ok(_) => panic!("expected an error"),
        Err(e) => e,
    }
}

#[test]
fn derived_addresses_match_the_ledger() {
    let item = addr(7);
    let d = derived_for(&item);
    let program_key = Pubkey::new_from_array(program().bytes);
    let item_key = Pubkey::new_from_array(item.bytes);
    let (record, record_bump) = Pubkey::find_program_address(&[b"fraction", item_key.as_ref()], &program_key);
    let (vault, vault_bump) = Pubkey::find_program_address(&[b"nft_vault", item_key.as_ref()], &program_key);
    let (mint, mint_bump) = Pubkey::find_program_address(&[b"claim_mint", item_key.as_ref()], &program_key);
    assert_eq!(d.record.bytes, record.to_bytes());
    assert_eq!(d.record_bump, record_bump);
    assert_eq!(d.vault.bytes, vault.to_bytes());
    assert_eq!(d.vault_bump, vault_bump);
    assert_eq!(d.claim_mint.bytes, mint.to_bytes());
    assert_eq!(d.claim_mint_bump, mint_bump);
    assert!(d.record != item);
    assert!(d.record != d.vault);
    assert!(d.vault != d.claim_mint);
}

#[test]
fn derivation_is_deterministic_and_item_specific() {
    let a = derived_for(&addr(7));
    let b = derived_for(&addr(7));
    let c = derived_for(&addr(8));
    assert!(a.record == b.record && a.vault == b.vault && a.claim_mint == b.claim_mint);
    assert!(a.record != c.record && a.vault != c.vault && a.claim_mint != c.claim_mint);
}

#[test]
fn claim_descriptor_trims_padding_and_adds_suffix() {
    let d = claim_descriptor(&item_descriptor());
    assert_eq!(d.name, "Item-fx");
    assert_eq!(d.symbol, "ITM-fx");
    assert_eq!(d.uri, "https://example.org/item.json");
    let inner = ItemDescriptor {
        name: String::from("\0a\0b\0"),
        symbol: String::from(""),
        uri: String::from("u"),
    };
    let d = claim_descriptor(&inner);
    assert_eq!(d.name, "a\0b-fx");
    assert_eq!(d.symbol, "-fx");
}

#[test]
fn fractionalize_issues_supply_and_takes_item() {
    let acc = fractionalize_accounts(10, 50);
    let d = derived_for(&acc.nft_mint);
    let (rec, calls) = fractionalize_nft_with(&None, &d, &acc, &item_descriptor(), 5).unwrap();
    assert_eq!(rec.shares_amount, 5);
    assert!(rec.minted && !rec.released);
    assert!(rec.nft_vault_account == d.vault);
    assert!(rec.withdraw_authority == d.record);
    assert!(rec.spl_token_mint == d.claim_mint);
    assert!(rec.nft_mint == acc.nft_mint);
    assert_eq!(calls.len(), 3);
    match &calls[0] {
        LedgerCall::CreateClaimLedger { ledger, metadata, descriptor, max_supply, authority, .. } => {
            assert!(*ledger == d.claim_mint);
            assert!(*metadata == acc.fraction_token_metadata);
            assert_eq!(descriptor.name, "Item-fx");
            assert_eq!(*max_supply, 5);
            assert!(matches!(authority, Authority::Program { address, .. } if *address == d.record));
        }
        other => panic!("unexpected {:?}", other),
    }
    match &calls[1] {
        LedgerCall::TransferItem { item, from_account, to_account, to_owner, authority, .. } => {
            assert!(*item == acc.nft_mint);
            assert!(*from_account == acc.nft_account);
            assert!(*to_account == d.vault);
            assert!(*to_owner == d.record);
            assert!(matches!(authority, Authority::Holder { key } if *key == acc.user));
        }
        other => panic!("unexpected {:?}", other),
    }
    match &calls[2] {
        LedgerCall::Mint { ledger, to_account, to_owner, amount, .. } => {
            assert!(*ledger == d.claim_mint);
            assert!(*to_account == acc.user_token_account);
            assert!(*to_owner == acc.user);
            assert_eq!(*amount, 5);
        }
        other => panic!("unexpected {:?}", other),
    }
}

#[test]
fn fractionalize_zero_supply_is_invalid() {
    let acc = fractionalize_accounts(10, 50);
    let d = derived_for(&acc.nft_mint);
    let r = fractionalize_nft_with(&None, &d, &acc, &item_descriptor(), 0);
    assert_eq!(err_of(r), MyError::InvalidSupply);
}

#[test]
fn fractionalize_twice_is_a_duplicate() {
    let acc = fractionalize_accounts(10, 50);
    let d = derived_for(&acc.nft_mint);
    let (rec, _) = fractionalized(10, 50, 1000);
    let again = fractionalize_nft_with(&Some(rec), &d, &acc, &item_descriptor(), 1000);
    assert_eq!(err_of(again), MyError::DuplicateVault);
    let init = InitFractionalize {
        user: acc.user,
        nft_mint: acc.nft_mint,
        nft_account: acc.nft_account,
        nft_metadata_account: acc.nft_metadata_account,
        fraction_token_metadata: acc.fraction_token_metadata,
    };
    let again = init_fractionalize_with(&Some(rec), &d, &init, &item_descriptor(), 7);
    assert_eq!(err_of(again), MyError::DuplicateVault);
    assert_eq!(rec.shares_amount, 1000);
    assert!(rec.minted && !rec.released);
}

#[test]
fn fractionalize_from_the_vault_itself_is_refused() {
    let mut acc = fractionalize_accounts(10, 50);
    let d = derived_for(&acc.nft_mint);
    acc.nft_account = d.vault;
    let r = fractionalize_nft_with(&None, &d, &acc, &item_descriptor(), 3);
    assert_eq!(err_of(r), MyError::ItemInCustody);
}

#[test]
fn deferred_mint_happens_exactly_once() {
    let acc = fractionalize_accounts(10, 50);
    let d = derived_for(&acc.nft_mint);
    let init = InitFractionalize {
        user: acc.user,
        nft_mint: acc.nft_mint,
        nft_account: acc.nft_account,
        nft_metadata_account: acc.nft_metadata_account,
        fraction_token_metadata: acc.fraction_token_metadata,
    };
    let (rec, calls) = init_fractionalize_with(&None, &d, &init, &item_descriptor(), 40).unwrap();
    assert!(!rec.minted);
    assert_eq!(calls.len(), 2);
    let mint = MintFraction { user: acc.user, user_token_account: acc.user_token_account };
    let (minted, calls) = mint_fraction_with(&rec, &d, &mint).unwrap();
    assert!(minted.minted);
    assert_eq!(calls.len(), 1);
    assert!(matches!(calls[0], LedgerCall::Mint { amount: 40, .. }));
    let other = MintFraction { user: addr(90), user_token_account: addr(91) };
    assert_eq!(err_of(mint_fraction_with(&minted, &d, &other)), MyError::AlreadyMinted);
}

#[test]
fn mint_on_foreign_record_is_refused() {
    let (rec, _) = fractionalized(10, 50, 10);
    let other = derived_for(&addr(60));
    let mut fresh = rec;
    fresh.minted = false;
    let mint = MintFraction { user: addr(10), user_token_account: addr(12) };
    assert_eq!(err_of(mint_fraction_with(&fresh, &other, &mint)), MyError::AuthorityMismatch);
}

#[test]
fn release_with_exact_supply_succeeds() {
    let (rec, _) = fractionalized(10, 50, 1000);
    let d = derived_for(&rec.nft_mint);
    let acc = release_accounts(10, 1000, rec.spl_token_mint);
    let (done, calls) = unfractionalize_nft_with(&rec, &d, &acc).unwrap();
    assert!(done.released);
    assert_eq!(calls.len(), 2);
    match &calls[0] {
        LedgerCall::Burn { ledger, from_account, amount, authority } => {
            assert!(*ledger == rec.spl_token_mint);
            assert!(*from_account == acc.user_fraction_token);
            assert_eq!(*amount, 1000);
            assert!(matches!(authority, Authority::Holder { key } if *key == acc.user));
        }
        other => panic!("unexpected {:?}", other),
    }
    match &calls[1] {
        LedgerCall::TransferItem { item, from_account, to_account, to_owner, authority, .. } => {
            assert!(*item == rec.nft_mint);
            assert!(*from_account == rec.nft_vault_account);
            assert!(*to_account == acc.user_nft_account);
            assert!(*to_owner == acc.user);
            assert!(matches!(authority, Authority::Program { address, bump, .. }
                if *address == d.record && *bump == d.record_bump));
        }
        other => panic!("unexpected {:?}", other),
    }
}

#[test]
fn release_with_one_unit_less_or_more_fails() {
    let (rec, _) = fractionalized(10, 50, 1000);
    let d = derived_for(&rec.nft_mint);
    let less = release_accounts(10, 999, rec.spl_token_mint);
    assert_eq!(err_of(unfractionalize_nft_with(&rec, &d, &less)), MyError::NotEnoughShares);
    let more = release_accounts(10, 1001, rec.spl_token_mint);
    assert_eq!(err_of(unfractionalize_nft_with(&rec, &d, &more)), MyError::NotEnoughShares);
}

#[test]
fn release_by_non_owner_fails() {
    let (rec, _) = fractionalized(10, 50, 1000);
    let d = derived_for(&rec.nft_mint);
    let mut acc = release_accounts(30, 1000, rec.spl_token_mint);
    acc.fraction_token_owner = addr(10);
    assert_eq!(err_of(unfractionalize_nft_with(&rec, &d, &acc)), MyError::WrongOwner);
}

#[test]
fn release_of_other_ledger_or_inactive_vault_fails() {
    let (rec, _) = fractionalized(10, 50, 1000);
    let d = derived_for(&rec.nft_mint);
    let wrong_ledger = release_accounts(10, 1000, addr(99));
    assert_eq!(err_of(unfractionalize_nft_with(&rec, &d, &wrong_ledger)), MyError::WrongClaimLedger);
    let acc = release_accounts(10, 1000, rec.spl_token_mint);
    let (done, _) = unfractionalize_nft_with(&rec, &d, &acc).unwrap();
    assert_eq!(err_of(unfractionalize_nft_with(&done, &d, &acc)), MyError::VaultNotActive);
    let mut unminted = rec;
    unminted.minted = false;
    assert_eq!(err_of(unfractionalize_nft_with(&unminted, &d, &acc)), MyError::VaultNotActive);
    let foreign = derived_for(&addr(60));
    assert_eq!(err_of(unfractionalize_nft_with(&rec, &foreign, &acc)), MyError::AuthorityMismatch);
}

#[test]
fn round_trip_returns_item_and_burns_supply() {
    let acc = fractionalize_accounts(10, 50);
    let (rec, opened) = fractionalized(10, 50, 64);
    let minted: u64 = opened
        .iter()
        .map(|c| match c {
            LedgerCall::Mint { amount, .. } => *amount,
            _ => 0,
        })
        .sum();
    let d = derived_for(&rec.nft_mint);
    let back = release_accounts(10, minted, rec.spl_token_mint);
    assert!(back.user_nft_account == acc.nft_account);
    assert!(back.user_fraction_token == acc.user_token_account);
    let (done, calls) = unfractionalize_nft_with(&rec, &d, &back).unwrap();
    assert!(done.released);
    let burned: u64 = calls
        .iter()
        .map(|c| match c {
            LedgerCall::Burn { amount, .. } => *amount,
            _ => 0,
        })
        .sum();
    assert_eq!(burned, minted);
    assert!(calls.iter().any(|c| matches!(c,
        LedgerCall::TransferItem { to_account, .. } if *to_account == acc.nft_account)));
}

#[test]
fn claim_units_passed_on_whole_let_new_holder_release() {
    let (rec, _) = fractionalized(10, 50, 1000);
    let d = derived_for(&rec.nft_mint);
    let b = release_accounts(30, 1000, rec.spl_token_mint);
    let (done, calls) = unfractionalize_nft_with(&rec, &d, &b).unwrap();
    assert!(done.released);
    assert!(matches!(calls[0], LedgerCall::Burn { amount: 1000, .. }));
    assert!(matches!(&calls[1], LedgerCall::TransferItem { to_owner, to_account, .. }
        if *to_owner == addr(30) && *to_account == addr(31)));
    let partial = release_accounts(30, 999, rec.spl_token_mint);
    assert_eq!(err_of(unfractionalize_nft_with(&rec, &d, &partial)), MyError::NotEnoughShares);
}

#[test]
fn handler_reads_metadata_and_derives() {
    let acc = fractionalize_accounts(10, 50);
    let data = metadata_bytes(&acc.nft_mint, &padded("Item", 32), &padded("ITM", 10), "https://example.org/item.json");
    let (rec, calls) = fractionalize_nft_handler(&program(), &None, &acc, &data, 12).unwrap();
    let d = derived_for(&acc.nft_mint);
    assert!(rec.withdraw_authority == d.record);
    match &calls[0] {
        LedgerCall::CreateClaimLedger { descriptor, .. } => {
            assert_eq!(descriptor.name, "Item-fx");
            assert_eq!(descriptor.symbol, "ITM-fx");
            assert_eq!(descriptor.uri, "https://example.org/item.json");
        }
        other => panic!("unexpected {:?}", other),
    }
    let config = ProgramConfig { program_id: program() };
    let (same, _) = fractionalize_nft(&config, &None, &acc, &data, 12).unwrap();
    assert!(same.nft_vault_account == rec.nft_vault_account);
}

#[test]
fn handler_rejects_undecodable_metadata() {
    let acc = fractionalize_accounts(10, 50);
    let r = fractionalize_nft_handler(&program(), &None, &acc, &[1, 2, 3], 12);
    assert_eq!(err_of(r), MyError::InvalidMetadata);
    let init = InitFractionalize {
        user: acc.user,
        nft_mint: acc.nft_mint,
        nft_account: acc.nft_account,
        nft_metadata_account: acc.nft_metadata_account,
        fraction_token_metadata: acc.fraction_token_metadata,
    };
    let r = init_fractionalize_handler(&program(), &None, &init, &[], 12);
    assert_eq!(err_of(r), MyError::InvalidMetadata);
}

#[test]
fn handlers_for_mint_and_release() {
    let acc = fractionalize_accounts(10, 50);
    let data = metadata_bytes(&acc.nft_mint, "Item", "ITM", "u");
    let init = InitFractionalize {
        user: acc.user,
        nft_mint: acc.nft_mint,
        nft_account: acc.nft_account,
        nft_metadata_account: acc.nft_metadata_account,
        fraction_token_metadata: acc.fraction_token_metadata,
    };
    let (rec, _) = init_fractionalize_handler(&program(), &None, &init, &data, 8).unwrap();
    let mint = MintFraction { user: acc.user, user_token_account: acc.user_token_account };
    let (minted, _) = mint_fraction_handler(&program(), &rec, &mint).unwrap();
    assert_eq!(err_of(mint_fraction_handler(&program(), &minted, &mint)), MyError::AlreadyMinted);
    let back = release_accounts(10, 8, minted.spl_token_mint);
    let (done, _) = unfractionalize_nft_handler(&program(), &minted, &back).unwrap();
    assert!(done.released);
    let config = ProgramConfig { program_id: program() };
    assert_eq!(err_of(unfractionalize_nft(&config, &done, &back)), MyError::VaultNotActive);
    let elsewhere = addr(201);
    assert_eq!(err_of(unfractionalize_nft_handler(&elsewhere, &minted, &back)), MyError::AuthorityMismatch);
}
