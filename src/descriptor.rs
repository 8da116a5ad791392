use vstd::prelude::*;
use vstd::string::StringExecFns;
use mpl_token_metadata::accounts::Metadata;

verus! {

/// The descriptive fields of a token: name, symbol and URI.
#[derive(Clone, Debug)]
pub struct ItemDescriptor {
    pub name: String,
    pub symbol: String,
    pub uri: String,
}

pub struct DescriptorView {
    pub name: Seq<char>,
    pub symbol: Seq<char>,
    pub uri: Seq<char>,
}

impl View for ItemDescriptor {
    type V = DescriptorView;

    open spec fn view(&self) -> DescriptorView {
        DescriptorView { name: self.name@, symbol: self.symbol@, uri: self.uri@ }
    }
}

/// What `Metadata::from_bytes` decodes from an account's bytes: its name, symbol
/// and URI, or nothing where the bytes are no metadata record.
pub uninterp spec fn metadata_fields_of(data: Seq<u8>) -> Option<DescriptorView>;

pub open spec fn descriptor_view(d: Option<ItemDescriptor>) -> Option<DescriptorView> {
    match d {
        Some(d) => Some(d@),
        None => None,
    }
}

/// Relies on `mpl_token_metadata::accounts::Metadata::from_bytes`, the decoder of
/// the metadata account: the fields it yields depend on the bytes alone.
#[verifier::external_body]
pub(crate) fn read_descriptor(data: &[u8]) -> (r: Option<ItemDescriptor>)
    ensures
        descriptor_view(r) == metadata_fields_of(data@),
{
    match Metadata::from_bytes(data) {
        Ok(m) => Some(ItemDescriptor { name: m.name, symbol: m.symbol, uri: m.uri }),
        Err(_) => None,
    }
}

/// `s` without the NUL characters at its start.
pub open spec fn strip_leading_nul(s: Seq<char>) -> Seq<char>
    decreases s.len(),
{
    if s.len() > 0 && s[0] == '\0' {
        strip_leading_nul(s.drop_first())
    } else {
        s
    }
}

/// `s` without the NUL characters at its end.
pub open spec fn strip_trailing_nul(s: Seq<char>) -> Seq<char>
    decreases s.len(),
{
    if s.len() > 0 && s.last() == '\0' {
        strip_trailing_nul(s.drop_last())
    } else {
        s
    }
}

/// `s` without the NUL padding on either side.
pub open spec fn trim_nul_spec(s: Seq<char>) -> Seq<char> {
    strip_trailing_nul(strip_leading_nul(s))
}

/// Relies on `str::trim_matches` with the NUL character: it removes every leading
/// and trailing NUL and keeps the rest.
#[verifier::external_body]
fn trim_nul(s: &str) -> (r: &str)
    ensures
        r@ == trim_nul_spec(s@),
{
    s.trim_matches(char::from(0))
}

pub open spec fn claim_suffix() -> Seq<char> {
    seq!['-', 'f', 'x']
}

/// The text of a claim ledger's name or symbol made from the item's own.
pub open spec fn claim_text(s: Seq<char>) -> Seq<char> {
    trim_nul_spec(s) + claim_suffix()
}

pub fn claim_text_of(s: &String) -> (r: String)
    ensures
        r@ == claim_text(s@),
{
    let mut r = trim_nul(s.as_str()).to_owned();
    r.append("-fx");
    proof {
        reveal_strlit("-fx");
        assert("-fx"@ =~= claim_suffix());
    }
    r
}

} // verus!
