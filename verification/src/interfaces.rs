use vstd::prelude::*;
use crate::context::{ScBaseContext, ScViewContext, spec_response};
use crate::error::ScError;
use crate::getter::spec_get;
use crate::ids::ScHname;
use crate::typed_map::MapView;
use crate::params;
use crate::results;

verus! {

/// Name of the entry point a contract exposes to answer capability probes,
/// and of the boolean key its answer comes back under.
pub const NAME_FUNC_IMPLEMENTS: &'static str = "implements";

/// The identifier the host's name-hashing resolves the probe entry point's
/// name to. Computing the hash itself is the build tooling's business; the
/// core only carries the resulting well-known identifier.
pub const HNAME_FUNC_IMPLEMENTS: u32 = 0x40bb1b82;

/// Name of the capability-probe interface, used as the key the queried
/// interface's identifier is sent under.
pub const INTERFACE_TIP_100: &'static str = "tip_100";

/// The identifier the host's name-hashing resolves the probe interface's
/// signature to.
pub const HNAME_INTERFACE_TIP_100: u32 = 0x23c3793a;

/// What a capability probe against `contract` concludes, given the call
/// targets reachable from the invocation: a transport failure when the
/// target's probe entry point cannot be reached, and otherwise the boolean
/// its answer carries under the probe key — absent meaning "does not
/// implement", malformed meaning a decode failure.
pub open spec fn spec_implements(calls: Seq<(u32, u32, MapView)>, contract: u32) -> Result<
    bool,
    ScError,
> {
    match spec_response(calls, contract, HNAME_FUNC_IMPLEMENTS) {
        Some(rm) => spec_get::<bool>(rm, NAME_FUNC_IMPLEMENTS@),
        None => Err(ScError::TransportFailure),
    }
}

/// Asks the contract `hname_contract` whether it declares support for the
/// interface `hname_interface`: sends the interface's identifier to the
/// target's well-known probe entry point and decodes the boolean answer.
///
/// Policy for a missing target: a target that does not expose the probe
/// entry point at all is a transport failure, which is fatal and
/// propagates — capability-gated logic must not mistake an unreachable
/// peer for a peer that answered "no". A reachable target whose answer
/// carries nothing under the probe key does not implement the interface.
pub fn implements(hname_contract: ScHname, hname_interface: ScHname, ctx: &ScViewContext) -> (r:
    Result<bool, ScError>)
    ensures
        r == spec_implements(ctx.calls@, hname_contract@),
{
    let mut input_params = params::new();
    params::add::<ScHname>(INTERFACE_TIP_100, &hname_interface, &mut input_params);

    let func = ScHname(HNAME_FUNC_IMPLEMENTS);
    match ctx.call(&hname_contract, &func, Some(&input_params)) {
        Ok(result) => results::get::<bool>(NAME_FUNC_IMPLEMENTS, result),
        Err(e) => Err(e),
    }
}

} // verus!
