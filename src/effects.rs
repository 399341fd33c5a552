use vstd::prelude::*;
use crate::token::{Token, TokenModel};

verus! {

/// One side effect that an event calls for. Each is retried on its own; a
/// failure of one does not stop the others.
#[derive(Debug)]
pub enum Effect {
    /// Insert the token record under its content address. Where that
    /// succeeds, `AddOwner` follows for `owner_id`.
    StoreToken { token: Token, address: String, owner_id: String },
    /// Push the address onto the owner's index entry and the owner onto the
    /// token's ownership history, creating either where it is missing.
    AddOwner { contract_id: String, token_id: String, address: String, owner_id: String },
    /// Tell the game service of the mint.
    NotifyMint { contract_id: String, token_id: String, address: String },
    /// At once: `AddOwner` for the new owner, and pull the address from the
    /// old owner's index entry. Nothing is undone where one of them fails.
    MoveOwner {
        contract_id: String,
        token_id: String,
        address: String,
        old_owner_id: String,
        new_owner_id: String,
    },
    /// Record the burned token ids in the log; nothing is stored.
    LogBurn { token_ids: Vec<String> },
    /// Tell the game service of a fungible transfer.
    NotifyFtTransfer {
        from_wallet_id: String,
        to_wallet_id: String,
        amount: String,
        voucher_id: Option<String>,
    },
}

pub enum EffectModel {
    StoreToken { token: TokenModel, address: Seq<char>, owner_id: Seq<char> },
    AddOwner { contract_id: Seq<char>, token_id: Seq<char>, address: Seq<char>, owner_id: Seq<char> },
    NotifyMint { contract_id: Seq<char>, token_id: Seq<char>, address: Seq<char> },
    MoveOwner {
        contract_id: Seq<char>,
        token_id: Seq<char>,
        address: Seq<char>,
        old_owner_id: Seq<char>,
        new_owner_id: Seq<char>,
    },
    LogBurn { token_ids: Seq<Seq<char>> },
    NotifyFtTransfer {
        from_wallet_id: Seq<char>,
        to_wallet_id: Seq<char>,
        amount: Seq<char>,
        voucher_id: Option<Seq<char>>,
    },
}

impl View for Effect {
    type V = EffectModel;

    open spec fn view(&self) -> EffectModel {
        match self {
            Effect::StoreToken { token, address, owner_id } => EffectModel::StoreToken {
                token: token@,
                address: address@,
                owner_id: owner_id@,
            },
            Effect::AddOwner { contract_id, token_id, address, owner_id } => EffectModel::AddOwner {
                contract_id: contract_id@,
                token_id: token_id@,
                address: address@,
                owner_id: owner_id@,
            },
            Effect::NotifyMint { contract_id, token_id, address } => EffectModel::NotifyMint {
                contract_id: contract_id@,
                token_id: token_id@,
                address: address@,
            },
            Effect::MoveOwner { contract_id, token_id, address, old_owner_id, new_owner_id } =>
                EffectModel::MoveOwner {
                contract_id: contract_id@,
                token_id: token_id@,
                address: address@,
                old_owner_id: old_owner_id@,
                new_owner_id: new_owner_id@,
            },
            Effect::LogBurn { token_ids } => EffectModel::LogBurn {
                token_ids: crate::events::texts_view(token_ids@),
            },
            Effect::NotifyFtTransfer { from_wallet_id, to_wallet_id, amount, voucher_id } =>
                EffectModel::NotifyFtTransfer {
                from_wallet_id: from_wallet_id@,
                to_wallet_id: to_wallet_id@,
                amount: amount@,
                voucher_id: crate::events::opt_view(*voucher_id),
            },
        }
    }
}

pub open spec fn effects_view(v: Seq<Effect>) -> Seq<EffectModel> {
    v.map_values(|e: Effect| e@)
}

/// The effect that follows a successful `StoreToken`: `AddOwner` for the
/// same token and owner.
pub open spec fn follow_up_of(e: EffectModel) -> Option<EffectModel> {
    match e {
        EffectModel::StoreToken { token, address, owner_id } => Some(
            EffectModel::AddOwner {
                contract_id: token.contract_id,
                token_id: token.token_id,
                address,
                owner_id,
            },
        ),
        _ => None,
    }
}

impl Effect {
    /// The effect to perform once this one has succeeded, if any.
    pub fn follow_up(&self) -> (r: Option<Effect>)
        ensures
            match r {
                Some(f) => follow_up_of(self@) == Some(f@),
                None => follow_up_of(self@) is None,
            },
    {
        match self {
            Effect::StoreToken { token, address, owner_id } => Some(
                Effect::AddOwner {
                    contract_id: token.contract_id.clone(),
                    token_id: token.token_id.clone(),
                    address: address.clone(),
                    owner_id: owner_id.clone(),
                },
            ),
            _ => None,
        }
    }
}

} // verus!
