use vstd::prelude::*;
use crate::context::ScFuncContext;
use crate::error::ScError;
use crate::getter::require_if_needed;

verus! {

/// Gate for creator-only entry points: passes exactly when the invocation's
/// caller is the identity that created this contract, and otherwise fails
/// fatally — the calling convention is "abort on violation", so no caller
/// branches on the outcome.
pub fn caller_must_be_contract_creator(ctx: &ScFuncContext) -> (r: Result<(), ScError>)
    ensures
        r is Ok <==> ctx.caller@ == ctx.contract_creator@,
        r is Err ==> r == Err::<(), ScError>(ScError::Unauthorized),
{
    let caller_is_creator = ctx.caller.equals(&ctx.contract_creator);
    require_if_needed(caller_is_creator, ScError::Unauthorized)
}

/// Gate for chain-owner-only entry points: passes exactly when the
/// invocation's caller is the identity that owns the chain.
pub fn caller_must_be_chain_owner(ctx: &ScFuncContext) -> (r: Result<(), ScError>)
    ensures
        r is Ok <==> ctx.caller@ == ctx.chain_owner@,
        r is Err ==> r == Err::<(), ScError>(ScError::Unauthorized),
{
    let caller_is_owner = ctx.caller.equals(&ctx.chain_owner);
    require_if_needed(caller_is_owner, ScError::Unauthorized)
}

/// Gate for callback-only entry points: passes exactly when the
/// invocation's caller is this contract's own account, so only the contract
/// itself can reach the gated code.
pub fn caller_must_be_contract_itself(ctx: &ScFuncContext) -> (r: Result<(), ScError>)
    ensures
        r is Ok <==> ctx.caller@ == ctx.account@,
        r is Err ==> r == Err::<(), ScError>(ScError::Unauthorized),
{
    let caller_is_contract = ctx.caller.equals(&ctx.account);
    require_if_needed(caller_is_contract, ScError::Unauthorized)
}

} // verus!
