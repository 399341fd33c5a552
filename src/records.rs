use vstd::prelude::*;
use crate::json::Json;
use crate::enums::{ActionKind, ExecutionOutcomeStatus};

verus! {

/// The ownership index entry of a wallet: the addresses of the tokens it is
/// believed to own, keyed by the wallet id.
#[derive(Debug)]
pub struct NearWalletTokensDB {
    _id: String,
    pub near_wallet: String,
    pub tokens: Vec<String>,
}

pub struct WalletTokensModel {
    pub id: Seq<char>,
    pub near_wallet: Seq<char>,
    pub tokens: Seq<Seq<char>>,
}

impl View for NearWalletTokensDB {
    type V = WalletTokensModel;

    closed spec fn view(&self) -> WalletTokensModel {
        WalletTokensModel {
            id: self._id@,
            near_wallet: self.near_wallet@,
            tokens: crate::events::texts_view(self.tokens@),
        }
    }
}

impl NearWalletTokensDB {
    /// The entry that an upsert creates for a wallet not seen before.
    pub fn new(near_wallet: &str) -> (r: NearWalletTokensDB)
        ensures
            r@ == (WalletTokensModel {
                id: near_wallet@,
                near_wallet: near_wallet@,
                tokens: Seq::empty(),
            }),
    {
        let r = NearWalletTokensDB {
            _id: String::from_str(near_wallet),
            near_wallet: String::from_str(near_wallet),
            tokens: Vec::new(),
        };
        assert(crate::events::texts_view(r.tokens@) =~= Seq::empty());
        r
    }

    /// The key of the entry: the wallet id.
    pub fn key(&self) -> (r: &String)
        ensures
            r@ == self@.id,
    {
        &self._id
    }
}

/// A transaction as the chain reports it. Amounts of gas and tokens and the
/// timestamp are whole numbers.
#[derive(Debug)]
pub struct Transaction {
    pub transaction_hash: String,
    pub included_in_block_hash: String,
    pub included_in_chunk_hash: String,
    pub index_in_chunk: i32,
    pub block_timestamp: u128,
    pub signer_account_id: String,
    pub signer_public_key: String,
    pub nonce: u128,
    pub receiver_account_id: String,
    pub signature: String,
    pub status: ExecutionOutcomeStatus,
    pub converted_into_receipt_id: String,
    pub receipt_conversion_gas_burnt: u128,
    pub receipt_conversion_tokens_burnt: u128,
}

/// One action of a transaction, with its arguments.
#[derive(Debug)]
pub struct TransactionAction {
    pub transaction_hash: String,
    pub index_in_transaction: i32,
    pub action_kind: ActionKind,
    pub args: Json,
}

} // verus!
