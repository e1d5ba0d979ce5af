use vstd::prelude::*;
use crate::codec::ScValue;
use crate::error::ScError;
use crate::getter::{Getter, Source, spec_must_get, spec_get};
use crate::typed_map::has_key;

verus! {

/// Strict typed read from the persisted state source.
pub fn must_get<T: ScValue, G: Getter>(variable_name: &str, ctx: &G) -> (r: Result<T, ScError>)
    ensures
        (match spec_must_get::<T>(ctx.spec_state(), variable_name@) {
            Ok(v) => r matches Ok(x) && x@ == v,
            Err(e) => r == Err::<T, ScError>(e),
        }),
{
    crate::getter::must_get(Source::State, variable_name, ctx)
}

/// Lenient typed read from the persisted state source: state a contract
/// controls can be legitimately absent on first use, so an unset key yields
/// the kind's zero value.
pub fn get<T: ScValue, G: Getter>(variable_name: &str, ctx: &G) -> (r: Result<T, ScError>)
    ensures
        (match spec_get::<T>(ctx.spec_state(), variable_name@) {
            Ok(v) => r matches Ok(x) && x@ == v,
            Err(e) => r == Err::<T, ScError>(e),
        }),
{
    crate::getter::get(Source::State, variable_name, ctx)
}

/// Existence probe on the persisted state source.
pub fn exists_value<G: Getter>(variable_name: &str, ctx: &G) -> (r: bool)
    ensures
        r == has_key(ctx.spec_state(), variable_name@),
{
    crate::getter::exists_value(Source::State, variable_name, ctx)
}

} // verus!
