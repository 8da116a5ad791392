use vstd::prelude::*;
use crate::address::DerivedView;
use crate::descriptor::DescriptorView;
use crate::error::MyError;
use crate::ledger::{apply_call, apply_calls, CallView, LedgerState};
use crate::protocol::{
    fractionalize_spec, init_spec, mint_spec, unfractionalize_spec, FractionalizeNft, InitFractionalize,
    MintFraction, UnfractionalizeNft,
};
use crate::record::RecordView;

verus! {

proof fn lemma_apply_three(s: LedgerState, calls: Seq<CallView>)
    requires
        calls.len() == 3,
    ensures
        apply_calls(s, calls) == (match apply_call(s, calls[0]) {
            Some(t) => match apply_call(t, calls[1]) {
                Some(u) => apply_call(u, calls[2]),
                None => None,
            },
            None => None,
        }),
{
    reveal_with_fuel(apply_calls, 4);
    let rest = calls.drop_first();
    assert(rest[0] == calls[1]);
    assert(rest.drop_first()[0] == calls[2]);
    assert(rest.drop_first().drop_first().len() == 0);
}

proof fn lemma_apply_two(s: LedgerState, calls: Seq<CallView>)
    requires
        calls.len() == 2,
    ensures
        apply_calls(s, calls) == (match apply_call(s, calls[0]) {
            Some(t) => apply_call(t, calls[1]),
            None => None,
        }),
{
    reveal_with_fuel(apply_calls, 3);
    let rest = calls.drop_first();
    assert(rest[0] == calls[1]);
    assert(rest.drop_first().len() == 0);
}

/// After a successful fractionalization of an item that sits in the holder's
/// account, with a claim ledger that did not exist before, the ledger accepts
/// every call; the holder's claim-unit account then holds exactly the supply,
/// and the item has left the holder's account for the custody vault.
pub proof fn lemma_fractionalize_issues_supply(
    s: LedgerState,
    existing: Option<RecordView>,
    d: DerivedView,
    acc: FractionalizeNft,
    item: DescriptorView,
    shares: u64,
)
    requires
        s.wf(),
        fractionalize_spec(existing, d, acc, item, shares) is Ok,
        s.item_account.contains_key(acc.nft_mint@),
        s.item_account[acc.nft_mint@] == acc.nft_account@,
        !s.ledgers.contains(d.claim_mint),
    ensures
        ({
            let calls = fractionalize_spec(existing, d, acc, item, shares)->Ok_0.1;
            &&& apply_calls(s, calls) is Some
            &&& apply_calls(s, calls)->Some_0.balance_of(d.claim_mint, acc.user_token_account@) == shares
            &&& apply_calls(s, calls)->Some_0.supply_of(d.claim_mint) == shares
            &&& apply_calls(s, calls)->Some_0.item_account[acc.nft_mint@] == d.vault
            &&& apply_calls(s, calls)->Some_0.item_account[acc.nft_mint@] != acc.nft_account@
        }),
{
    let calls = fractionalize_spec(existing, d, acc, item, shares)->Ok_0.1;
    lemma_apply_three(s, calls);
    assert(s.balance_of(d.claim_mint, acc.user_token_account@) == 0);
    assert(s.supply_of(d.claim_mint) == 0);
}

/// A second fractionalization of an item whose vault was just opened fails as a
/// duplicate, whether combined with issuing or not; the addresses of one item
/// are the same at every call.
pub proof fn lemma_fractionalize_twice_rejected(
    existing: Option<RecordView>,
    d: DerivedView,
    acc: FractionalizeNft,
    item: DescriptorView,
    shares: u64,
    again: FractionalizeNft,
    again_item: DescriptorView,
    again_shares: u64,
)
    requires
        fractionalize_spec(existing, d, acc, item, shares) is Ok,
        again_shares > 0,
    ensures
        ({
            let rec = fractionalize_spec(existing, d, acc, item, shares)->Ok_0.0;
            &&& fractionalize_spec(Some(rec), d, again, again_item, again_shares)
                == Err::<(RecordView, Seq<CallView>), MyError>(MyError::DuplicateVault)
            &&& init_spec(Some(rec), d, again.init_part(), again_item, again_shares)
                == Err::<(RecordView, Seq<CallView>), MyError>(MyError::DuplicateVault)
        }),
{
}

/// Claim units are issued once: issuing again on the record that the first
/// issue produced fails, whoever asks.
pub proof fn lemma_mint_twice_rejected(rec: RecordView, d: DerivedView, acc: MintFraction, again: MintFraction)
    requires
        mint_spec(rec, d, acc) is Ok,
    ensures
        mint_spec(mint_spec(rec, d, acc)->Ok_0.0, d, again)
            == Err::<(RecordView, Seq<CallView>), MyError>(MyError::AlreadyMinted),
{
}

/// For a caller who owns a claim-unit account of an active, issued vault,
/// release succeeds exactly when the account holds the whole supply; one unit
/// more or less fails with `NotEnoughShares`.
pub proof fn lemma_release_needs_exact_supply(rec: RecordView, d: DerivedView, acc: UnfractionalizeNft)
    requires
        acc.fraction_token_owner@ == acc.user@,
        rec.matches(d),
        acc.fraction_token_mint@ == rec.spl_token_mint,
        rec.is_active(),
        rec.minted,
    ensures
        unfractionalize_spec(rec, d, acc) is Ok <==> acc.fraction_token_amount == rec.shares_amount,
        acc.fraction_token_amount + 1 == rec.shares_amount ==> unfractionalize_spec(rec, d, acc)
            == Err::<(RecordView, Seq<CallView>), MyError>(MyError::NotEnoughShares),
        acc.fraction_token_amount == rec.shares_amount + 1 ==> unfractionalize_spec(rec, d, acc)
            == Err::<(RecordView, Seq<CallView>), MyError>(MyError::NotEnoughShares),
{
}

/// A caller who is not the owner of record of the presented claim-unit account
/// is refused with `WrongOwner`, and a refusal makes no ledger call.
pub proof fn lemma_release_wrong_owner(rec: RecordView, d: DerivedView, acc: UnfractionalizeNft)
    requires
        acc.fraction_token_owner@ != acc.user@,
    ensures
        unfractionalize_spec(rec, d, acc) == Err::<(RecordView, Seq<CallView>), MyError>(MyError::WrongOwner),
{
}

/// Fractionalizing an item and at once releasing it to the same holder, who
/// presents the whole supply in the account it was issued to, gives the item
/// back to the holder's account, leaves every claim-unit balance as it was
/// before, and brings the claim ledger's supply back to zero.
pub proof fn lemma_round_trip(
    s: LedgerState,
    existing: Option<RecordView>,
    d: DerivedView,
    acc: FractionalizeNft,
    item: DescriptorView,
    shares: u64,
    back: UnfractionalizeNft,
)
    requires
        s.wf(),
        fractionalize_spec(existing, d, acc, item, shares) is Ok,
        s.item_account.contains_key(acc.nft_mint@),
        s.item_account[acc.nft_mint@] == acc.nft_account@,
        !s.ledgers.contains(d.claim_mint),
        back.user@ == acc.user@,
        back.fraction_token_owner@ == acc.user@,
        back.user_nft_account@ == acc.nft_account@,
        back.user_fraction_token@ == acc.user_token_account@,
        back.fraction_token_mint@ == d.claim_mint,
        back.fraction_token_amount == shares,
    ensures
        ({
            let (rec, calls) = fractionalize_spec(existing, d, acc, item, shares)->Ok_0;
            let mid = apply_calls(s, calls)->Some_0;
            let (done, undo) = unfractionalize_spec(rec, d, back)->Ok_0;
            &&& apply_calls(s, calls) is Some
            &&& unfractionalize_spec(rec, d, back) is Ok
            &&& done.released
            &&& apply_calls(mid, undo) is Some
            &&& apply_calls(mid, undo)->Some_0.item_account == s.item_account
            &&& forall|l: Seq<u8>, a: Seq<u8>|
                #[trigger] apply_calls(mid, undo)->Some_0.balance_of(l, a) == s.balance_of(l, a)
            &&& apply_calls(mid, undo)->Some_0.supply_of(d.claim_mint) == 0
        }),
{
    let (rec, calls) = fractionalize_spec(existing, d, acc, item, shares)->Ok_0;
    lemma_fractionalize_issues_supply(s, existing, d, acc, item, shares);
    lemma_apply_three(s, calls);
    let mid = apply_calls(s, calls)->Some_0;
    let (done, undo) = unfractionalize_spec(rec, d, back)->Ok_0;
    lemma_apply_two(mid, undo);
    let end = apply_calls(mid, undo)->Some_0;
    assert(end.item_account =~= s.item_account);
    assert forall|l: Seq<u8>, a: Seq<u8>| #[trigger] end.balance_of(l, a) == s.balance_of(l, a) by {
        if l == d.claim_mint {
            assert(s.balance_of(l, a) == 0);
        }
    }
}

/// Every record the lifecycle writes keeps a positive supply and the vault,
/// claim ledger and release authority derived for its item, so that only the
/// program can move the item out of custody.
pub proof fn lemma_records_stay_well_formed(
    existing: Option<RecordView>,
    d: DerivedView,
    init: InitFractionalize,
    acc: FractionalizeNft,
    item: DescriptorView,
    shares: u64,
    rec: RecordView,
    mint: MintFraction,
    back: UnfractionalizeNft,
)
    ensures
        init_spec(existing, d, init, item, shares) is Ok ==> {
            let opened = init_spec(existing, d, init, item, shares)->Ok_0.0;
            opened.wf() && opened.matches(d) && opened.is_active() && !opened.minted
        },
        fractionalize_spec(existing, d, acc, item, shares) is Ok ==> {
            let opened = fractionalize_spec(existing, d, acc, item, shares)->Ok_0.0;
            opened.wf() && opened.matches(d) && opened.is_active() && opened.minted
                && opened.shares_amount == shares
        },
        rec.wf() && mint_spec(rec, d, mint) is Ok ==> {
            let issued = mint_spec(rec, d, mint)->Ok_0.0;
            issued.wf() && issued.matches(d) && issued.is_active()
                && issued.shares_amount == rec.shares_amount
        },
        rec.wf() && unfractionalize_spec(rec, d, back) is Ok ==> {
            let done = unfractionalize_spec(rec, d, back)->Ok_0.0;
            done.wf() && done.matches(d) && !done.is_active() && done.shares_amount == rec.shares_amount
        },
{
}

} // verus!
