use vstd::prelude::*;

verus! {

/// Settings for creating a new contract instance. There are none.
#[derive(Clone, Debug, PartialEq, Eq)]
pub struct InstantiateMsg {}

/// Arguments for migrating a contract instance. There are none.
#[derive(Clone, Debug, PartialEq, Eq)]
pub struct MigrateMsg {}

/// One entry of a distribution request: who receives how much.
#[derive(Clone, Debug, PartialEq, Eq)]
pub struct Recipient {
    /// Address of the individual recipient.
    pub recipient: String,
    /// Amount of assets the individual recipient will receive.
    pub amount: u128,
}

/// Structural equality of two recipient entries: the same address text and
/// the same amount.
pub open spec fn entry_eq(a: Recipient, b: Recipient) -> bool {
    a.recipient@ == b.recipient@ && a.amount == b.amount
}

impl Recipient {
    /// True when the two entries agree on both the address text and the amount.
    pub fn same_entry(&self, other: &Recipient) -> (r: bool)
        ensures
            r == entry_eq(*self, *other),
    {
        self.recipient == other.recipient && self.amount == other.amount
    }
}

/// One coin attached to an inbound call: a denomination and an amount.
#[derive(Clone, Debug, PartialEq, Eq)]
pub struct Coin {
    /// Denomination of the coin.
    pub denom: String,
    /// Amount of the coin.
    pub amount: u128,
}

/// What the host reports about the inbound call: the sender's address and the
/// native coins attached to the call.
#[derive(Clone, Debug, PartialEq, Eq)]
pub struct MessageInfo {
    /// Address that invoked the contract.
    pub sender: String,
    /// Native coins attached to the invocation.
    pub funds: Vec<Coin>,
}

/// The request carried, encoded, inside an inbound custodial-token transfer
/// notification. The host layer decodes the raw payload into this shape.
#[derive(Clone, Debug, PartialEq, Eq)]
pub enum Cw20HookMsg {
    /// Distribute the received tokens of `asset_token` to `recipients`.
    DistributeCw20 {
        /// Address of the token contract whose tokens are distributed.
        asset_token: String,
        /// The requested payouts, in order.
        recipients: Vec<Recipient>,
    },
}

/// A request to the contract.
#[derive(Clone, Debug, PartialEq, Eq)]
pub enum ExecuteMsg {
    /// An inbound custodial-token transfer: `amount` tokens were deposited
    /// with the contract, together with a decoded hook request.
    Receive {
        /// Amount of tokens deposited with the notification.
        amount: u128,
        /// The decoded hook request.
        hook: Cw20HookMsg,
    },
    /// Distribute native coins attached to the call itself.
    DistributeNative {
        /// Denomination of the coin to distribute.
        denom: String,
        /// The requested payouts, in order.
        recipients: Vec<Recipient>,
    },
}

/// One intended payment, to be executed by the host settlement layer. The
/// library only constructs instructions; it never moves value itself.
#[derive(Clone, Debug, PartialEq, Eq)]
pub enum TransferInstruction {
    /// Move `amount` of the native coin `denom` to `to_address`.
    NativeSend {
        /// Receiving address.
        to_address: String,
        /// Amount to move.
        amount: u128,
        /// Denomination of the coin to move.
        denom: String,
    },
    /// Ask the token contract `contract_addr` to transfer `amount` of its
    /// tokens to `recipient`.
    Cw20Transfer {
        /// Address of the token contract that holds the balances.
        contract_addr: String,
        /// Receiving address.
        recipient: String,
        /// Amount to transfer.
        amount: u128,
    },
}

} // verus!
