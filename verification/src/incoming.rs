use vstd::prelude::*;
use crate::context::{ScFuncContext, spec_balance};
use crate::error::ScError;
use crate::getter::require_if_needed;
use crate::ids::ScColor;

verus! {

/// The amount of tokens of `color` attached to the incoming call; zero when
/// none are attached.
pub fn balance(color: &ScColor, ctx: &ScFuncContext) -> (r: i64)
    ensures
        r == spec_balance(ctx.incoming@, color@),
{
    ctx.incoming.balance(color)
}

/// The colors of the tokens attached to the incoming call, in order.
pub fn colors(ctx: &ScFuncContext) -> (r: Vec<ScColor>)
    ensures
        r@.len() == ctx.incoming@.len(),
        forall|i: int| 0 <= i < r@.len() ==> r@[i]@ == ctx.incoming@[i].0,
{
    ctx.incoming.colors()
}

/// Gate on the attached funds: passes exactly when the incoming balance of
/// `color` reaches `minimum_balance`, and otherwise fails fatally.
pub fn require_balance(minimum_balance: i64, color: &ScColor, ctx: &ScFuncContext) -> (r: Result<
    (),
    ScError,
>)
    ensures
        r is Ok <==> spec_balance(ctx.incoming@, color@) >= minimum_balance,
        r is Err ==> r == Err::<(), ScError>(ScError::Unauthorized),
{
    let incoming_balance = balance(color, ctx);
    require_if_needed(incoming_balance >= minimum_balance, ScError::Unauthorized)
}

} // verus!
