use vstd::prelude::*;
use crate::address::Address;
use crate::descriptor::{DescriptorView, ItemDescriptor};

verus! {

/// Who authorizes a ledger call: a holder's own signature, or the program
/// itself through an address derived from the item's identity and its bump.
#[derive(Clone, Copy, Debug)]
pub enum Authority {
    Holder { key: Address },
    Program { address: Address, item: Address, bump: u8 },
}

pub enum AuthorityView {
    Holder { key: Seq<u8> },
    Program { address: Seq<u8>, item: Seq<u8>, bump: u8 },
}

impl View for Authority {
    type V = AuthorityView;

    open spec fn view(&self) -> AuthorityView {
        match *self {
            Authority::Holder { key } => AuthorityView::Holder { key: key@ },
            Authority::Program { address, item, bump } => AuthorityView::Program {
                address: address@,
                item: item@,
                bump,
            },
        }
    }
}

/// One call into the token ledger or its metadata service. A lifecycle
/// operation yields the calls that carry it out; they succeed or fail as one.
#[derive(Clone, Debug)]
pub enum LedgerCall {
    /// Register a fungible claim ledger with no decimals and its descriptor.
    CreateClaimLedger {
        ledger: Address,
        ledger_bump: u8,
        metadata: Address,
        authority: Authority,
        descriptor: ItemDescriptor,
        max_supply: u64,
    },
    /// Issue claim units into an account.
    Mint { ledger: Address, to_account: Address, to_owner: Address, amount: u64, authority: Authority },
    /// Destroy claim units held in an account.
    Burn { ledger: Address, from_account: Address, amount: u64, authority: Authority },
    /// Move the item from one account to another.
    TransferItem {
        item: Address,
        from_account: Address,
        from_owner: Address,
        to_account: Address,
        to_owner: Address,
        authority: Authority,
    },
}

pub enum CallView {
    CreateClaimLedger {
        ledger: Seq<u8>,
        ledger_bump: u8,
        metadata: Seq<u8>,
        authority: AuthorityView,
        descriptor: DescriptorView,
        max_supply: u64,
    },
    Mint { ledger: Seq<u8>, to_account: Seq<u8>, to_owner: Seq<u8>, amount: u64, authority: AuthorityView },
    Burn { ledger: Seq<u8>, from_account: Seq<u8>, amount: u64, authority: AuthorityView },
    TransferItem {
        item: Seq<u8>,
        from_account: Seq<u8>,
        from_owner: Seq<u8>,
        to_account: Seq<u8>,
        to_owner: Seq<u8>,
        authority: AuthorityView,
    },
}

impl View for LedgerCall {
    type V = CallView;

    open spec fn view(&self) -> CallView {
        match self {
            LedgerCall::CreateClaimLedger { ledger, ledger_bump, metadata, authority, descriptor, max_supply } => {
                CallView::CreateClaimLedger {
                    ledger: ledger@,
                    ledger_bump: *ledger_bump,
                    metadata: metadata@,
                    authority: authority@,
                    descriptor: descriptor@,
                    max_supply: *max_supply,
                }
            },
            LedgerCall::Mint { ledger, to_account, to_owner, amount, authority } => CallView::Mint {
                ledger: ledger@,
                to_account: to_account@,
                to_owner: to_owner@,
                amount: *amount,
                authority: authority@,
            },
            LedgerCall::Burn { ledger, from_account, amount, authority } => CallView::Burn {
                ledger: ledger@,
                from_account: from_account@,
                amount: *amount,
                authority: authority@,
            },
            LedgerCall::TransferItem { item, from_account, from_owner, to_account, to_owner, authority } => {
                CallView::TransferItem {
                    item: item@,
                    from_account: from_account@,
                    from_owner: from_owner@,
                    to_account: to_account@,
                    to_owner: to_owner@,
                    authority: authority@,
                }
            },
        }
    }
}

pub open spec fn calls_view(calls: Seq<LedgerCall>) -> Seq<CallView> {
    calls.map_values(|c: LedgerCall| c@)
}

/// The token ledger as the protocol sees it: which account holds each item,
/// which claim ledgers exist, their total supply, and each account's units.
pub struct LedgerState {
    pub item_account: Map<Seq<u8>, Seq<u8>>,
    pub ledgers: Set<Seq<u8>>,
    pub supply: Map<Seq<u8>, nat>,
    pub balance: Map<(Seq<u8>, Seq<u8>), nat>,
}

impl LedgerState {
    /// Units of `ledger` held in `account`.
    pub open spec fn balance_of(self, ledger: Seq<u8>, account: Seq<u8>) -> nat {
        if self.balance.contains_key((ledger, account)) {
            self.balance[(ledger, account)]
        } else {
            0
        }
    }

    /// Units of `ledger` in existence.
    pub open spec fn supply_of(self, ledger: Seq<u8>) -> nat {
        if self.supply.contains_key(ledger) {
            self.supply[ledger]
        } else {
            0
        }
    }

    /// A ledger that does not exist has no units anywhere.
    pub open spec fn wf(self) -> bool {
        &&& forall|l: Seq<u8>, a: Seq<u8>|
            !self.ledgers.contains(l) ==> #[trigger] self.balance_of(l, a) == 0
        &&& forall|l: Seq<u8>| !self.ledgers.contains(l) ==> #[trigger] self.supply_of(l) == 0
    }
}

/// The ledger after one call, or `None` where the ledger refuses it.
pub open spec fn apply_call(s: LedgerState, c: CallView) -> Option<LedgerState> {
    match c {
        CallView::CreateClaimLedger { ledger, .. } => {
            if s.ledgers.contains(ledger) {
                None
            } else {
                Some(LedgerState { ledgers: s.ledgers.insert(ledger), supply: s.supply.insert(ledger, 0), ..s })
            }
        },
        CallView::Mint { ledger, to_account, amount, .. } => {
            if s.ledgers.contains(ledger) {
                Some(
                    LedgerState {
                        supply: s.supply.insert(ledger, (s.supply_of(ledger) + amount) as nat),
                        balance: s.balance.insert((ledger, to_account), (s.balance_of(ledger, to_account) + amount) as nat),
                        ..s
                    },
                )
            } else {
                None
            }
        },
        CallView::Burn { ledger, from_account, amount, .. } => {
            if s.ledgers.contains(ledger) && s.balance_of(ledger, from_account) >= amount
                && s.supply_of(ledger) >= amount {
                Some(
                    LedgerState {
                        supply: s.supply.insert(ledger, (s.supply_of(ledger) - amount) as nat),
                        balance: s.balance.insert(
                            (ledger, from_account),
                            (s.balance_of(ledger, from_account) - amount) as nat,
                        ),
                        ..s
                    },
                )
            } else {
                None
            }
        },
        CallView::TransferItem { item, from_account, to_account, .. } => {
            if s.item_account.contains_key(item) && s.item_account[item] == from_account {
                Some(LedgerState { item_account: s.item_account.insert(item, to_account), ..s })
            } else {
                None
            }
        },
    }
}

/// The ledger after all the calls in order, or `None` where any is refused.
pub open spec fn apply_calls(s: LedgerState, calls: Seq<CallView>) -> Option<LedgerState>
    decreases calls.len(),
{
    if calls.len() == 0 {
        Some(s)
    } else {
        match apply_call(s, calls[0]) {
            Some(t) => apply_calls(t, calls.drop_first()),
            None => None,
        }
    }
}

} // verus!
