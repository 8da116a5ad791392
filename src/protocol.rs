use vstd::prelude::*;
use crate::address::{derive_addresses, derive_spec, Address, DerivedAddresses, DerivedView};
use crate::descriptor::{
    claim_text, claim_text_of, metadata_fields_of, read_descriptor, DescriptorView, ItemDescriptor,
};
use crate::error::MyError;
use crate::ledger::{Authority, AuthorityView, CallView, LedgerCall, calls_view};
use crate::record::{FractionDetails, RecordView};

verus! {

/// The accounts presented to open a vault for an item.
#[derive(Clone, Copy, Debug)]
pub struct InitFractionalize {
    /// The item's holder, who signs.
    pub user: Address,
    /// The item.
    pub nft_mint: Address,
    /// The holder's account that holds the item.
    pub nft_account: Address,
    /// The item's metadata account.
    pub nft_metadata_account: Address,
    /// The metadata account of the claim ledger, not yet written.
    pub fraction_token_metadata: Address,
}

/// The accounts presented to issue a vault's claim units.
#[derive(Clone, Copy, Debug)]
pub struct MintFraction {
    /// The holder who receives the claim units.
    pub user: Address,
    /// The holder's claim-unit account.
    pub user_token_account: Address,
}

/// The accounts presented to open a vault and issue its claim units at once.
#[derive(Clone, Copy, Debug)]
pub struct FractionalizeNft {
    pub user: Address,
    pub nft_mint: Address,
    pub nft_account: Address,
    pub nft_metadata_account: Address,
    pub fraction_token_metadata: Address,
    pub user_token_account: Address,
}

/// The accounts presented to release an item, with what the ledger reports of
/// the presented claim-unit account.
#[derive(Clone, Copy, Debug)]
pub struct UnfractionalizeNft {
    /// The caller, who signs.
    pub user: Address,
    /// The caller's account that receives the item.
    pub user_nft_account: Address,
    /// The claim-unit account the caller surrenders.
    pub user_fraction_token: Address,
    /// The owner of record of that account.
    pub fraction_token_owner: Address,
    /// The units that account holds.
    pub fraction_token_amount: u64,
    /// The claim ledger of that account.
    pub fraction_token_mint: Address,
}

impl FractionalizeNft {
    pub open spec fn init_part(self) -> InitFractionalize {
        InitFractionalize {
            user: self.user,
            nft_mint: self.nft_mint,
            nft_account: self.nft_account,
            nft_metadata_account: self.nft_metadata_account,
            fraction_token_metadata: self.fraction_token_metadata,
        }
    }

    pub open spec fn mint_part(self) -> MintFraction {
        MintFraction { user: self.user, user_token_account: self.user_token_account }
    }
}

/// The deployment's own identity, under which every address is derived.
#[derive(Clone, Copy, Debug)]
pub struct ProgramConfig {
    pub program_id: Address,
}

pub open spec fn outcome_view(r: Result<(FractionDetails, Vec<LedgerCall>), MyError>) -> Result<
    (RecordView, Seq<CallView>),
    MyError,
> {
    match r {
        Ok((rec, calls)) => Ok((rec@, calls_view(calls@))),
        Err(e) => Err(e),
    }
}

pub open spec fn record_opt_view(r: Option<FractionDetails>) -> Option<RecordView> {
    match r {
        Some(rec) => Some(rec@),
        None => None,
    }
}

/// The descriptor of the claim ledger: the item's name and symbol without their
/// NUL padding, each with the claim suffix, and the item's URI.
pub open spec fn claim_descriptor_spec(d: DescriptorView) -> DescriptorView {
    DescriptorView { name: claim_text(d.name), symbol: claim_text(d.symbol), uri: d.uri }
}

/// The program's own authority over an item's vault and claim ledger.
pub open spec fn program_authority(d: DerivedView, item: Seq<u8>) -> AuthorityView {
    AuthorityView::Program { address: d.record, item, bump: d.record_bump }
}

pub open spec fn is_active_record(existing: Option<RecordView>) -> bool {
    match existing {
        Some(rec) => rec.is_active(),
        None => false,
    }
}

/// The record written when a vault is opened: supply recorded, nothing issued.
pub open spec fn init_record(d: DerivedView, acc: InitFractionalize, shares: u64) -> RecordView {
    RecordView {
        nft_vault_account: d.vault,
        nft_mint: acc.nft_mint@,
        nft_metadata: acc.nft_metadata_account@,
        spl_token_mint: d.claim_mint,
        withdraw_authority: d.record,
        shares_amount: shares,
        minted: false,
        released: false,
    }
}

/// The calls that open a vault: register the claim ledger, then move the item
/// into custody under the holder's signature.
pub open spec fn init_calls(d: DerivedView, acc: InitFractionalize, item: DescriptorView, shares: u64) -> Seq<
    CallView,
> {
    seq![
        CallView::CreateClaimLedger {
            ledger: d.claim_mint,
            ledger_bump: d.claim_mint_bump,
            metadata: acc.fraction_token_metadata@,
            authority: program_authority(d, acc.nft_mint@),
            descriptor: claim_descriptor_spec(item),
            max_supply: shares,
        },
        CallView::TransferItem {
            item: acc.nft_mint@,
            from_account: acc.nft_account@,
            from_owner: acc.user@,
            to_account: d.vault,
            to_owner: d.record,
            authority: AuthorityView::Holder { key: acc.user@ },
        },
    ]
}

/// Opening a vault for an item with derived addresses `d`.
pub open spec fn init_spec(
    existing: Option<RecordView>,
    d: DerivedView,
    acc: InitFractionalize,
    item: DescriptorView,
    shares: u64,
) -> Result<(RecordView, Seq<CallView>), MyError> {
    if shares == 0 {
        Err(MyError::InvalidSupply)
    } else if is_active_record(existing) {
        Err(MyError::DuplicateVault)
    } else if acc.nft_account@ == d.vault {
        Err(MyError::ItemInCustody)
    } else {
        Ok((init_record(d, acc, shares), init_calls(d, acc, item, shares)))
    }
}

/// Issuing a vault's claim units, exactly once.
pub open spec fn mint_spec(rec: RecordView, d: DerivedView, acc: MintFraction) -> Result<
    (RecordView, Seq<CallView>),
    MyError,
> {
    if !rec.matches(d) {
        Err(MyError::AuthorityMismatch)
    } else if rec.released {
        Err(MyError::VaultNotActive)
    } else if rec.minted {
        Err(MyError::AlreadyMinted)
    } else {
        Ok(
            (
                RecordView { minted: true, ..rec },
                seq![
                    CallView::Mint {
                        ledger: rec.spl_token_mint,
                        to_account: acc.user_token_account@,
                        to_owner: acc.user@,
                        amount: rec.shares_amount,
                        authority: program_authority(d, rec.nft_mint),
                    },
                ],
            ),
        )
    }
}

/// Opening a vault and issuing its claim units in one step.
pub open spec fn fractionalize_spec(
    existing: Option<RecordView>,
    d: DerivedView,
    acc: FractionalizeNft,
    item: DescriptorView,
    shares: u64,
) -> Result<(RecordView, Seq<CallView>), MyError> {
    match init_spec(existing, d, acc.init_part(), item, shares) {
        Err(e) => Err(e),
        Ok((rec, opened)) => match mint_spec(rec, d, acc.mint_part()) {
            Err(e) => Err(e),
            Ok((minted, issued)) => Ok((minted, opened + issued)),
        },
    }
}

/// Releasing the item to a caller who surrenders the whole supply.
pub open spec fn unfractionalize_spec(rec: RecordView, d: DerivedView, acc: UnfractionalizeNft) -> Result<
    (RecordView, Seq<CallView>),
    MyError,
> {
    if acc.fraction_token_owner@ != acc.user@ {
        Err(MyError::WrongOwner)
    } else if !rec.matches(d) {
        Err(MyError::AuthorityMismatch)
    } else if acc.fraction_token_mint@ != rec.spl_token_mint {
        Err(MyError::WrongClaimLedger)
    } else if rec.released || !rec.minted {
        Err(MyError::VaultNotActive)
    } else if acc.fraction_token_amount != rec.shares_amount {
        Err(MyError::NotEnoughShares)
    } else {
        Ok(
            (
                RecordView { released: true, ..rec },
                seq![
                    CallView::Burn {
                        ledger: rec.spl_token_mint,
                        from_account: acc.user_fraction_token@,
                        amount: rec.shares_amount,
                        authority: AuthorityView::Holder { key: acc.user@ },
                    },
                    CallView::TransferItem {
                        item: rec.nft_mint,
                        from_account: rec.nft_vault_account,
                        from_owner: rec.withdraw_authority,
                        to_account: acc.user_nft_account@,
                        to_owner: acc.user@,
                        authority: program_authority(d, rec.nft_mint),
                    },
                ],
            ),
        )
    }
}

/// The descriptor of the claim ledger made from the item's descriptor.
pub fn claim_descriptor(item: &ItemDescriptor) -> (r: ItemDescriptor)
    ensures
        r@ == claim_descriptor_spec(item@),
{
    ItemDescriptor {
        name: claim_text_of(&item.name),
        symbol: claim_text_of(&item.symbol),
        uri: item.uri.clone(),
    }
}

fn program_authority_of(d: &DerivedAddresses, item: &Address) -> (r: Authority)
    ensures
        r@ == program_authority(d@, item@),
{
    Authority::Program { address: d.record, item: *item, bump: d.record_bump }
}

/// Opens a vault for an item whose addresses are `d` and whose descriptor is
/// `item`: records the supply, registers the claim ledger and takes the item
/// into custody. Nothing is issued yet.
pub fn init_fractionalize_with(
    existing: &Option<FractionDetails>,
    d: &DerivedAddresses,
    acc: &InitFractionalize,
    item: &ItemDescriptor,
    shares_amount: u64,
) -> (r: Result<(FractionDetails, Vec<LedgerCall>), MyError>)
    ensures
        outcome_view(r) == init_spec(record_opt_view(*existing), d@, *acc, item@, shares_amount),
{
    if shares_amount == 0 {
        return Err(MyError::InvalidSupply);
    }
    let active = match existing {
        Some(rec) => !rec.released,
        None => false,
    };
    if active {
        return Err(MyError::DuplicateVault);
    }
    if acc.nft_account.same(&d.vault) {
        return Err(MyError::ItemInCustody);
    }
    let rec = FractionDetails {
        nft_vault_account: d.vault,
        nft_mint: acc.nft_mint,
        nft_metadata: acc.nft_metadata_account,
        spl_token_mint: d.claim_mint,
        withdraw_authority: d.record,
        shares_amount,
        minted: false,
        released: false,
    };
    let mut calls: Vec<LedgerCall> = Vec::new();
    calls.push(
        LedgerCall::CreateClaimLedger {
            ledger: d.claim_mint,
            ledger_bump: d.claim_mint_bump,
            metadata: acc.fraction_token_metadata,
            authority: program_authority_of(d, &acc.nft_mint),
            descriptor: claim_descriptor(item),
            max_supply: shares_amount,
        },
    );
    calls.push(
        LedgerCall::TransferItem {
            item: acc.nft_mint,
            from_account: acc.nft_account,
            from_owner: acc.user,
            to_account: d.vault,
            to_owner: d.record,
            authority: Authority::Holder { key: acc.user },
        },
    );
    proof {
        assert(calls_view(calls@) =~= init_calls(d@, *acc, item@, shares_amount));
    }
    Ok((rec, calls))
}

/// Issues the recorded supply of a vault to a holder, once.
pub fn mint_fraction_with(rec: &FractionDetails, d: &DerivedAddresses, acc: &MintFraction) -> (r: Result<
    (FractionDetails, Vec<LedgerCall>),
    MyError,
>)
    ensures
        outcome_view(r) == mint_spec(rec@, d@, *acc),
{
    if !rec.matches(d) {
        return Err(MyError::AuthorityMismatch);
    }
    if rec.released {
        return Err(MyError::VaultNotActive);
    }
    if rec.minted {
        return Err(MyError::AlreadyMinted);
    }
    let minted = FractionDetails { minted: true, ..*rec };
    let mut calls: Vec<LedgerCall> = Vec::new();
    calls.push(
        LedgerCall::Mint {
            ledger: rec.spl_token_mint,
            to_account: acc.user_token_account,
            to_owner: acc.user,
            amount: rec.shares_amount,
            authority: program_authority_of(d, &rec.nft_mint),
        },
    );
    proof {
        assert(calls_view(calls@) =~= mint_spec(rec@, d@, *acc)->Ok_0.1);
    }
    Ok((minted, calls))
}

/// Opens a vault and issues its whole supply to the holder in one step.
pub fn fractionalize_nft_with(
    existing: &Option<FractionDetails>,
    d: &DerivedAddresses,
    acc: &FractionalizeNft,
    item: &ItemDescriptor,
    shares_amount: u64,
) -> (r: Result<(FractionDetails, Vec<LedgerCall>), MyError>)
    ensures
        outcome_view(r) == fractionalize_spec(record_opt_view(*existing), d@, *acc, item@, shares_amount),
{
    let init = InitFractionalize {
        user: acc.user,
        nft_mint: acc.nft_mint,
        nft_account: acc.nft_account,
        nft_metadata_account: acc.nft_metadata_account,
        fraction_token_metadata: acc.fraction_token_metadata,
    };
    let mint = MintFraction { user: acc.user, user_token_account: acc.user_token_account };
    assert(init == acc.init_part());
    assert(mint == acc.mint_part());
    match init_fractionalize_with(existing, d, &init, item, shares_amount) {
        Err(e) => Err(e),
        Ok((rec, mut opened)) => match mint_fraction_with(&rec, d, &mint) {
            Err(e) => Err(e),
            Ok((minted, mut issued)) => {
                let ghost before = opened@;
                let ghost added = issued@;
                opened.append(&mut issued);
                proof {
                    assert(calls_view(opened@) =~= calls_view(before) + calls_view(added));
                }
                Ok((minted, opened))
            },
        },
    }
}

/// Releases the item to a caller who owns a claim-unit account holding exactly
/// the recorded supply: burns those units and moves the item out of custody.
pub fn unfractionalize_nft_with(rec: &FractionDetails, d: &DerivedAddresses, acc: &UnfractionalizeNft) -> (r:
    Result<(FractionDetails, Vec<LedgerCall>), MyError>)
    ensures
        outcome_view(r) == unfractionalize_spec(rec@, d@, *acc),
{
    if !acc.fraction_token_owner.same(&acc.user) {
        return Err(MyError::WrongOwner);
    }
    if !rec.matches(d) {
        return Err(MyError::AuthorityMismatch);
    }
    if !acc.fraction_token_mint.same(&rec.spl_token_mint) {
        return Err(MyError::WrongClaimLedger);
    }
    if rec.released || !rec.minted {
        return Err(MyError::VaultNotActive);
    }
    if acc.fraction_token_amount != rec.shares_amount {
        return Err(MyError::NotEnoughShares);
    }
    let released = FractionDetails { released: true, ..*rec };
    let mut calls: Vec<LedgerCall> = Vec::new();
    calls.push(
        LedgerCall::Burn {
            ledger: rec.spl_token_mint,
            from_account: acc.user_fraction_token,
            amount: rec.shares_amount,
            authority: Authority::Holder { key: acc.user },
        },
    );
    calls.push(
        LedgerCall::TransferItem {
            item: rec.nft_mint,
            from_account: rec.nft_vault_account,
            from_owner: rec.withdraw_authority,
            to_account: acc.user_nft_account,
            to_owner: acc.user,
            authority: program_authority_of(d, &rec.nft_mint),
        },
    );
    proof {
        assert(calls_view(calls@) =~= unfractionalize_spec(rec@, d@, *acc)->Ok_0.1);
    }
    Ok((released, calls))
}

/// What an operation on `item` gives once its addresses and, where it reads
/// them, the item's metadata fields are known.
pub open spec fn opening_spec(
    program_id: Seq<u8>,
    item: Seq<u8>,
    item_metadata: Seq<u8>,
    step: spec_fn(DerivedView, DescriptorView) -> Result<(RecordView, Seq<CallView>), MyError>,
) -> Result<(RecordView, Seq<CallView>), MyError> {
    match derive_spec(program_id, item) {
        None => Err(MyError::AddressUnavailable),
        Some(d) => match metadata_fields_of(item_metadata) {
            None => Err(MyError::InvalidMetadata),
            Some(fields) => step(d, fields),
        },
    }
}

/// Opens a vault for the item in `acc`: derives its addresses under
/// `program_id`, reads the item's descriptor from the bytes of its metadata
/// account, and goes on as `init_fractionalize_with`.
pub fn init_fractionalize_handler(
    program_id: &Address,
    existing: &Option<FractionDetails>,
    acc: &InitFractionalize,
    item_metadata: &[u8],
    shares_amount: u64,
) -> (r: Result<(FractionDetails, Vec<LedgerCall>), MyError>)
    ensures
        outcome_view(r) == opening_spec(
            program_id@,
            acc.nft_mint@,
            item_metadata@,
            |d: DerivedView, item: DescriptorView|
                init_spec(record_opt_view(*existing), d, *acc, item, shares_amount),
        ),
{
    let d = match derive_addresses(program_id, &acc.nft_mint) {
        Some(d) => d,
        None => return Err(MyError::AddressUnavailable),
    };
    let item = match read_descriptor(item_metadata) {
        Some(item) => item,
        None => return Err(MyError::InvalidMetadata),
    };
    init_fractionalize_with(existing, &d, acc, &item, shares_amount)
}

/// Opens a vault for the item in `acc` and issues its whole supply to the
/// holder: derives the addresses under `program_id`, reads the item's
/// descriptor, and goes on as `fractionalize_nft_with`.
pub fn fractionalize_nft_handler(
    program_id: &Address,
    existing: &Option<FractionDetails>,
    acc: &FractionalizeNft,
    item_metadata: &[u8],
    shares_amount: u64,
) -> (r: Result<(FractionDetails, Vec<LedgerCall>), MyError>)
    ensures
        outcome_view(r) == opening_spec(
            program_id@,
            acc.nft_mint@,
            item_metadata@,
            |d: DerivedView, item: DescriptorView|
                fractionalize_spec(record_opt_view(*existing), d, *acc, item, shares_amount),
        ),
{
    let d = match derive_addresses(program_id, &acc.nft_mint) {
        Some(d) => d,
        None => return Err(MyError::AddressUnavailable),
    };
    let item = match read_descriptor(item_metadata) {
        Some(item) => item,
        None => return Err(MyError::InvalidMetadata),
    };
    fractionalize_nft_with(existing, &d, acc, &item, shares_amount)
}

/// What an operation on a recorded item gives once its addresses are known.
pub open spec fn recorded_spec(
    program_id: Seq<u8>,
    rec: RecordView,
    step: spec_fn(DerivedView) -> Result<(RecordView, Seq<CallView>), MyError>,
) -> Result<(RecordView, Seq<CallView>), MyError> {
    match derive_spec(program_id, rec.nft_mint) {
        None => Err(MyError::AddressUnavailable),
        Some(d) => step(d),
    }
}

/// Issues the recorded supply of `rec` to the holder in `acc`, once, under the
/// program's authority derived from `program_id`.
pub fn mint_fraction_handler(program_id: &Address, rec: &FractionDetails, acc: &MintFraction) -> (r: Result<
    (FractionDetails, Vec<LedgerCall>),
    MyError,
>)
    ensures
        outcome_view(r) == recorded_spec(program_id@, rec@, |d: DerivedView| mint_spec(rec@, d, *acc)),
{
    match derive_addresses(program_id, &rec.nft_mint) {
        Some(d) => mint_fraction_with(rec, &d, acc),
        None => Err(MyError::AddressUnavailable),
    }
}

/// Releases the item of `rec` to the caller in `acc`, under the program's
/// authority derived from `program_id`.
pub fn unfractionalize_nft_handler(program_id: &Address, rec: &FractionDetails, acc: &UnfractionalizeNft) -> (r:
    Result<(FractionDetails, Vec<LedgerCall>), MyError>)
    ensures
        outcome_view(r) == recorded_spec(program_id@, rec@, |d: DerivedView| unfractionalize_spec(rec@, d, *acc)),
{
    match derive_addresses(program_id, &rec.nft_mint) {
        Some(d) => unfractionalize_nft_with(rec, &d, acc),
        None => Err(MyError::AddressUnavailable),
    }
}

/// Entry point of the combined fractionalization under a deployment.
pub fn fractionalize_nft(
    config: &ProgramConfig,
    existing: &Option<FractionDetails>,
    acc: &FractionalizeNft,
    item_metadata: &[u8],
    shares_amount: u64,
) -> (r: Result<(FractionDetails, Vec<LedgerCall>), MyError>)
    ensures
        outcome_view(r) == opening_spec(
            config.program_id@,
            acc.nft_mint@,
            item_metadata@,
            |d: DerivedView, item: DescriptorView|
                fractionalize_spec(record_opt_view(*existing), d, *acc, item, shares_amount),
        ),
{
    fractionalize_nft_handler(&config.program_id, existing, acc, item_metadata, shares_amount)
}

/// Entry point of the release under a deployment.
pub fn unfractionalize_nft(config: &ProgramConfig, rec: &FractionDetails, acc: &UnfractionalizeNft) -> (r:
    Result<(FractionDetails, Vec<LedgerCall>), MyError>)
    ensures
        outcome_view(r) == recorded_spec(
            config.program_id@,
            rec@,
            |d: DerivedView| unfractionalize_spec(rec@, d, *acc),
        ),
{
    unfractionalize_nft_handler(&config.program_id, rec, acc)
}

} // verus!
