use vstd::prelude::*;

verus! {

/// The kind of an action in a receipt.
#[derive(PartialEq, Eq, Structural, Clone, Copy, Debug)]
pub enum ActionKind {
    CreateAccount,
    DeployContract,
    FunctionCall,
    Transfer,
    Stake,
    AddKey,
    DeleteKey,
    DeleteAccount,
}

/// How the execution of a receipt or transaction ended.
#[derive(PartialEq, Eq, Structural, Clone, Copy, Debug)]
pub enum ExecutionOutcomeStatus {
    Unknown,
    Failure,
    SuccessValue,
    SuccessReceiptId,
}

} // verus!
