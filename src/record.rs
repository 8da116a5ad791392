use vstd::prelude::*;
use crate::address::{Address, DerivedAddresses, DerivedView};

verus! {

/// The durable state of one fractionalization: which item is locked in which
/// vault, which claim ledger represents it, who may release it, and how many
/// claim units it was split into.
#[derive(Clone, Copy, Debug)]
pub struct FractionDetails {
    /// The custody vault that holds the item.
    pub nft_vault_account: Address,
    /// The item.
    pub nft_mint: Address,
    /// The item's metadata account.
    pub nft_metadata: Address,
    /// The claim-unit ledger.
    pub spl_token_mint: Address,
    /// The authority that can move the item out of the vault.
    pub withdraw_authority: Address,
    /// The number of claim units issued for the item.
    pub shares_amount: u64,
    /// Whether the claim units were issued.
    pub minted: bool,
    /// Whether the item was released, which ends the record's life.
    pub released: bool,
}

pub struct RecordView {
    pub nft_vault_account: Seq<u8>,
    pub nft_mint: Seq<u8>,
    pub nft_metadata: Seq<u8>,
    pub spl_token_mint: Seq<u8>,
    pub withdraw_authority: Seq<u8>,
    pub shares_amount: u64,
    pub minted: bool,
    pub released: bool,
}

impl View for FractionDetails {
    type V = RecordView;

    open spec fn view(&self) -> RecordView {
        RecordView {
            nft_vault_account: self.nft_vault_account@,
            nft_mint: self.nft_mint@,
            nft_metadata: self.nft_metadata@,
            spl_token_mint: self.spl_token_mint@,
            withdraw_authority: self.withdraw_authority@,
            shares_amount: self.shares_amount,
            minted: self.minted,
            released: self.released,
        }
    }
}

impl RecordView {
    /// The record is not released: its item is in custody.
    pub open spec fn is_active(self) -> bool {
        !self.released
    }

    /// The vault, the claim ledger and the release authority are those derived
    /// for the item, so that only the program can move the item.
    pub open spec fn matches(self, d: DerivedView) -> bool {
        self.withdraw_authority == d.record && self.nft_vault_account == d.vault
            && self.spl_token_mint == d.claim_mint
    }

    /// A record that was ever written has a positive supply.
    pub open spec fn wf(self) -> bool {
        self.shares_amount > 0
    }
}

impl FractionDetails {
    /// Bytes of a stored record: an 8-byte tag, five identities, the supply and
    /// two flags.
    pub const LEN: usize = 8 + 32 + 32 + 32 + 32 + 32 + 8 + 1 + 1;

    pub fn matches(&self, d: &DerivedAddresses) -> (r: bool)
        ensures
            r == self@.matches(d@),
    {
        self.withdraw_authority.same(&d.record) && self.nft_vault_account.same(&d.vault)
            && self.spl_token_mint.same(&d.claim_mint)
    }
}

/// The tag that opens a stored record: the first eight bytes of the SHA-256
/// digest of `account:FractionDetails`, as the account framework writes it.
pub const RECORD_TAG: [u8; 8] = [230, 38, 254, 9, 122, 67, 221, 15];

pub open spec fn record_tag() -> Seq<u8> {
    seq![230u8, 38, 254, 9, 122, 67, 221, 15]
}

/// The eight little-endian bytes of `x`.
pub open spec fn u64_le(x: u64) -> Seq<u8> {
    seq![
        x as u8,
        (x >> 8u64) as u8,
        (x >> 16u64) as u8,
        (x >> 24u64) as u8,
        (x >> 32u64) as u8,
        (x >> 40u64) as u8,
        (x >> 48u64) as u8,
        (x >> 56u64) as u8,
    ]
}

/// The number whose little-endian bytes open `b`.
pub open spec fn u64_of_le(b: Seq<u8>) -> u64 {
    le_join(b[0], b[1], b[2], b[3], b[4], b[5], b[6], b[7])
}

pub open spec fn le_join(b0: u8, b1: u8, b2: u8, b3: u8, b4: u8, b5: u8, b6: u8, b7: u8) -> u64 {
    (b0 as u64) | ((b1 as u64) << 8u64) | ((b2 as u64) << 16u64) | ((b3 as u64) << 24u64) | ((b4 as u64)
        << 32u64) | ((b5 as u64) << 40u64) | ((b6 as u64) << 48u64) | ((b7 as u64) << 56u64)
}

pub open spec fn flag_byte(b: bool) -> u8 {
    if b {
        1
    } else {
        0
    }
}

/// The stored form of a record: tag, the five identities in field order, the
/// supply, then the two flags.
pub open spec fn encode_spec(r: RecordView) -> Seq<u8> {
    record_tag() + r.nft_vault_account + r.nft_mint + r.nft_metadata + r.spl_token_mint
        + r.withdraw_authority + u64_le(r.shares_amount) + seq![flag_byte(r.minted), flag_byte(r.released)]
}

/// The record stored in `b`, where `b` has the stored length, opens with the
/// tag, and holds 0 or 1 in each flag byte.
pub open spec fn decode_spec(b: Seq<u8>) -> Option<RecordView> {
    if b.len() == 178 && b.subrange(0, 8) == record_tag() && b[176] <= 1 && b[177] <= 1 {
        Some(
            RecordView {
                nft_vault_account: b.subrange(8, 40),
                nft_mint: b.subrange(40, 72),
                nft_metadata: b.subrange(72, 104),
                spl_token_mint: b.subrange(104, 136),
                withdraw_authority: b.subrange(136, 168),
                shares_amount: u64_of_le(b.subrange(168, 176)),
                minted: b[176] == 1,
                released: b[177] == 1,
            },
        )
    } else {
        None
    }
}

fn push_address(out: &mut Vec<u8>, a: &Address)
    ensures
        final(out)@ == old(out)@ + a@,
{
    let mut i: usize = 0;
    while i < 32
        invariant
            0 <= i <= 32,
            a@.len() == 32,
            out@ == old(out)@ + a@.subrange(0, i as int),
        decreases 32 - i,
    {
        out.push(a.bytes[i]);
        assert(a@.subrange(0, i + 1) =~= a@.subrange(0, i as int).push(a@[i as int]));
        i = i + 1;
    }
    assert(a@.subrange(0, 32) =~= a@);
}

fn read_address(data: &[u8], start: usize) -> (r: Address)
    requires
        start + 32 <= data@.len(),
    ensures
        r@ == data@.subrange(start as int, start + 32),
{
    let n = data.len();
    let mut bytes: [u8; 32] = [0u8; 32];
    let mut i: usize = 0;
    while i < 32
        invariant
            0 <= i <= 32,
            n == data@.len(),
            start + 32 <= data@.len(),
            bytes@.len() == 32,
            forall|j: int| 0 <= j < i ==> bytes@[j] == data@[start + j],
        decreases 32 - i,
    {
        bytes[i] = data[start + i];
        i = i + 1;
    }
    assert(bytes@ =~= data@.subrange(start as int, start + 32));
    Address { bytes }
}

proof fn lemma_le_split_join(x: u64)
    ensures
        le_join(
            x as u8,
            (x >> 8u64) as u8,
            (x >> 16u64) as u8,
            (x >> 24u64) as u8,
            (x >> 32u64) as u8,
            (x >> 40u64) as u8,
            (x >> 48u64) as u8,
            (x >> 56u64) as u8,
        ) == x,
{
    assert((x as u8 as u64) | (((x >> 8u64) as u8 as u64) << 8u64) | (((x >> 16u64) as u8 as u64) << 16u64)
        | (((x >> 24u64) as u8 as u64) << 24u64) | (((x >> 32u64) as u8 as u64) << 32u64) | (((x
        >> 40u64) as u8 as u64) << 40u64) | (((x >> 48u64) as u8 as u64) << 48u64) | (((x >> 56u64) as u8
        as u64) << 56u64) == x) by (bit_vector);
}

proof fn lemma_le_join_split(b0: u8, b1: u8, b2: u8, b3: u8, b4: u8, b5: u8, b6: u8, b7: u8)
    ensures
        u64_le(le_join(b0, b1, b2, b3, b4, b5, b6, b7)) == seq![b0, b1, b2, b3, b4, b5, b6, b7],
{
    let x = le_join(b0, b1, b2, b3, b4, b5, b6, b7);
    assert(x as u8 == b0 && (x >> 8u64) as u8 == b1 && (x >> 16u64) as u8 == b2 && (x >> 24u64) as u8 == b3
        && (x >> 32u64) as u8 == b4 && (x >> 40u64) as u8 == b5 && (x >> 48u64) as u8 == b6 && (x
        >> 56u64) as u8 == b7) by (bit_vector)
        requires
            x == (b0 as u64) | ((b1 as u64) << 8u64) | ((b2 as u64) << 16u64) | ((b3 as u64) << 24u64) | ((
            b4 as u64) << 32u64) | ((b5 as u64) << 40u64) | ((b6 as u64) << 48u64) | ((b7 as u64) << 56u64),
    ;
    assert(u64_le(x) =~= seq![b0, b1, b2, b3, b4, b5, b6, b7]);
}

impl FractionDetails {
    /// The stored form of the record.
    pub fn to_bytes(&self) -> (r: Vec<u8>)
        ensures
            r@ == encode_spec(self@),
            r@.len() == Self::LEN,
    {
        let mut out: Vec<u8> = Vec::new();
        let tag = RECORD_TAG;
        let mut i: usize = 0;
        while i < 8
            invariant
                0 <= i <= 8,
                tag@ == record_tag(),
                out@ == record_tag().subrange(0, i as int),
            decreases 8 - i,
        {
            out.push(tag[i]);
            assert(record_tag().subrange(0, i + 1) =~= record_tag().subrange(0, i as int).push(record_tag()[i as int]));
            i = i + 1;
        }
        assert(record_tag().subrange(0, 8) =~= record_tag());
        push_address(&mut out, &self.nft_vault_account);
        push_address(&mut out, &self.nft_mint);
        push_address(&mut out, &self.nft_metadata);
        push_address(&mut out, &self.spl_token_mint);
        push_address(&mut out, &self.withdraw_authority);
        let x = self.shares_amount;
        out.push(x as u8);
        out.push((x >> 8u64) as u8);
        out.push((x >> 16u64) as u8);
        out.push((x >> 24u64) as u8);
        out.push((x >> 32u64) as u8);
        out.push((x >> 40u64) as u8);
        out.push((x >> 48u64) as u8);
        out.push((x >> 56u64) as u8);
        out.push(if self.minted { 1u8 } else { 0u8 });
        out.push(if self.released { 1u8 } else { 0u8 });
        assert(out@ =~= encode_spec(self@));
        out
    }

    /// The record stored in `data`, or `None` where `data` is no stored record.
    pub fn from_bytes(data: &[u8]) -> (r: Option<FractionDetails>)
        ensures
            match r {
                Some(rec) => decode_spec(data@) == Some(rec@),
                None => decode_spec(data@) is None,
            },
    {
        if data.len() != Self::LEN {
            return None;
        }
        let tag = RECORD_TAG;
        let mut i: usize = 0;
        while i < 8
            invariant
                0 <= i <= 8,
                data@.len() == 178,
                tag@ == record_tag(),
                forall|j: int| 0 <= j < i ==> data@[j] == record_tag()[j],
            decreases 8 - i,
        {
            if data[i] != tag[i] {
                assert(data@.subrange(0, 8)[i as int] != record_tag()[i as int]);
                return None;
            }
            i = i + 1;
        }
        assert(data@.subrange(0, 8) =~= record_tag());
        if data[176] > 1 || data[177] > 1 {
            return None;
        }
        let shares_amount = (data[168] as u64) | ((data[169] as u64) << 8u64) | ((data[170] as u64) << 16u64)
            | ((data[171] as u64) << 24u64) | ((data[172] as u64) << 32u64) | ((data[173] as u64) << 40u64)
            | ((data[174] as u64) << 48u64) | ((data[175] as u64) << 56u64);
        let rec = FractionDetails {
            nft_vault_account: read_address(data, 8),
            nft_mint: read_address(data, 40),
            nft_metadata: read_address(data, 72),
            spl_token_mint: read_address(data, 104),
            withdraw_authority: read_address(data, 136),
            shares_amount,
            minted: data[176] == 1,
            released: data[177] == 1,
        };
        assert(rec@ == decode_spec(data@)->Some_0);
        Some(rec)
    }
}

/// The stored form of a record reads back as that record.
pub proof fn lemma_decode_encode(rec: FractionDetails)
    ensures
        decode_spec(encode_spec(rec@)) == Some(rec@),
{
    let r = rec@;
    let b = encode_spec(r);
    lemma_le_split_join(r.shares_amount);
    assert(b.subrange(0, 8) =~= record_tag());
    assert(b.subrange(8, 40) =~= r.nft_vault_account);
    assert(b.subrange(40, 72) =~= r.nft_mint);
    assert(b.subrange(72, 104) =~= r.nft_metadata);
    assert(b.subrange(104, 136) =~= r.spl_token_mint);
    assert(b.subrange(136, 168) =~= r.withdraw_authority);
    assert(b.subrange(168, 176) =~= u64_le(r.shares_amount));
}

/// Bytes that read as a record are exactly that record's stored form.
pub proof fn lemma_encode_decode(data: Seq<u8>)
    requires
        decode_spec(data) is Some,
    ensures
        encode_spec(decode_spec(data)->Some_0) == data,
{
    let r = decode_spec(data)->Some_0;
    lemma_le_join_split(data[168], data[169], data[170], data[171], data[172], data[173], data[174], data[175]);
    assert(data.subrange(168, 176) =~= seq![data[168], data[169], data[170], data[171], data[172], data[173], data[174], data[175]]);
    assert(encode_spec(r) =~= data);
}

} // verus!
