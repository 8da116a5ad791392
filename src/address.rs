use vstd::prelude::*;
use anchor_lang::prelude::Pubkey;

verus! {

/// A 32-byte account identity on the ledger.
#[derive(Clone, Copy, Debug)]
pub struct Address {
    pub bytes: [u8; 32],
}

impl View for Address {
    type V = Seq<u8>;

    open spec fn view(&self) -> Seq<u8> {
        self.bytes@
    }
}

impl Address {
    pub fn new(bytes: [u8; 32]) -> (r: Address)
        ensures
            r@ == bytes@,
    {
        Address { bytes }
    }

    /// Byte-wise comparison of two identities.
    pub fn same(&self, other: &Address) -> (r: bool)
        ensures
            r == (self@ == other@),
    {
        let mut i: usize = 0;
        while i < 32
            invariant
                0 <= i <= 32,
                self@.len() == 32,
                other@.len() == 32,
                forall|j: int| 0 <= j < i ==> self@[j] == other@[j],
            decreases 32 - i,
        {
            if self.bytes[i] != other.bytes[i] {
                return false;
            }
            i = i + 1;
        }
        assert(self@ =~= other@);
        true
    }
}

impl PartialEq for Address {
    fn eq(&self, other: &Address) -> (r: bool) {
        self.same(other)
    }
}

impl vstd::std_specs::cmp::PartialEqSpecImpl for Address {
    open spec fn obeys_eq_spec() -> bool {
        true
    }

    open spec fn eq_spec(&self, other: &Address) -> bool {
        self@ == other@
    }
}

impl Eq for Address {}

/// Seed label of the vault record address.
pub const FRACTION_SEED: [u8; 8] = [102, 114, 97, 99, 116, 105, 111, 110];

pub open spec fn fraction_label() -> Seq<u8> {
    seq![102, 114, 97, 99, 116, 105, 111, 110]
}

/// What `Pubkey::try_find_program_address` returns for the given seeds and program.
pub uninterp spec fn program_address_of(seeds: Seq<Seq<u8>>, program_id: Seq<u8>) -> Option<(Seq<u8>, u8)>;

pub open spec fn found_view(r: Option<(Address, u8)>) -> Option<(Seq<u8>, u8)> {
    match r {
        Some((a, b)) => Some((a@, b)),
        None => None,
    }
}

/// Relies on `Pubkey::try_find_program_address`: the first off-curve address found
/// for the seeds and the program, with its bump, depends on those values alone.
#[verifier::external_body]
fn find_program_address(label: &[u8], key: &Address, program_id: &Address) -> (r: Option<(Address, u8)>)
    ensures
        found_view(r) == program_address_of(seq![label@, key@], program_id@),
{
    let program = Pubkey::new_from_array(program_id.bytes);
    match Pubkey::try_find_program_address(&[label, &key.bytes], &program) {
        Some((found, bump)) => Some((Address { bytes: found.to_bytes() }, bump)),
        None => None,
    }
}

/// Seed label of the custody vault address.
pub const VAULT_SEED: [u8; 9] = [110, 102, 116, 95, 118, 97, 117, 108, 116];

pub open spec fn vault_label() -> Seq<u8> {
    seq![110u8, 102, 116, 95, 118, 97, 117, 108, 116]
}

/// Seed label of the claim ledger address.
pub const CLAIM_MINT_SEED: [u8; 10] = [99, 108, 97, 105, 109, 95, 109, 105, 110, 116];

pub open spec fn claim_mint_label() -> Seq<u8> {
    seq![99u8, 108, 97, 105, 109, 95, 109, 105, 110, 116]
}

/// The three addresses that belong to one item, each with the bump that proves
/// it to the ledger: the vault record (which is also the release authority),
/// the custody vault and the claim ledger.
#[derive(Clone, Copy, Debug)]
pub struct DerivedAddresses {
    pub record: Address,
    pub record_bump: u8,
    pub vault: Address,
    pub vault_bump: u8,
    pub claim_mint: Address,
    pub claim_mint_bump: u8,
}

pub struct DerivedView {
    pub record: Seq<u8>,
    pub record_bump: u8,
    pub vault: Seq<u8>,
    pub vault_bump: u8,
    pub claim_mint: Seq<u8>,
    pub claim_mint_bump: u8,
}

impl View for DerivedAddresses {
    type V = DerivedView;

    open spec fn view(&self) -> DerivedView {
        DerivedView {
            record: self.record@,
            record_bump: self.record_bump,
            vault: self.vault@,
            vault_bump: self.vault_bump,
            claim_mint: self.claim_mint@,
            claim_mint_bump: self.claim_mint_bump,
        }
    }
}

pub open spec fn derived_view(r: Option<DerivedAddresses>) -> Option<DerivedView> {
    match r {
        Some(d) => Some(d@),
        None => None,
    }
}

/// The addresses of an item under a program, where all three exist.
pub open spec fn derive_spec(program_id: Seq<u8>, item: Seq<u8>) -> Option<DerivedView> {
    match (
        program_address_of(seq![fraction_label(), item], program_id),
        program_address_of(seq![vault_label(), item], program_id),
        program_address_of(seq![claim_mint_label(), item], program_id),
    ) {
        (Some((record, record_bump)), Some((vault, vault_bump)), Some((claim_mint, claim_mint_bump))) => {
            Some(DerivedView { record, record_bump, vault, vault_bump, claim_mint, claim_mint_bump })
        },
        _ => None,
    }
}

/// Derives the record, vault and claim-ledger addresses of `item` under
/// `program_id`. The same item and program always give the same addresses.
pub fn derive_addresses(program_id: &Address, item: &Address) -> (r: Option<DerivedAddresses>)
    ensures
        derived_view(r) == derive_spec(program_id@, item@),
{
    let fraction = FRACTION_SEED;
    let vault = VAULT_SEED;
    let claim = CLAIM_MINT_SEED;
    proof {
        assert(fraction@ =~= fraction_label());
        assert(vault@ =~= vault_label());
        assert(claim@ =~= claim_mint_label());
    }
    let r = find_program_address(fraction.as_slice(), item, program_id);
    let v = find_program_address(vault.as_slice(), item, program_id);
    let m = find_program_address(claim.as_slice(), item, program_id);
    match (r, v, m) {
        (Some((record, record_bump)), Some((vault, vault_bump)), Some((claim_mint, claim_mint_bump))) => {
            Some(DerivedAddresses { record, record_bump, vault, vault_bump, claim_mint, claim_mint_bump })
        },
        _ => None,
    }
}

} // verus!
