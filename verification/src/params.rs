use vstd::prelude::*;
use crate::codec::ScValue;
use crate::error::ScError;
use crate::getter::{Getter, Source, spec_must_get, spec_get};
use crate::typed_map::{TypedMap, MapView, map_set, has_key};

verus! {

/// A fresh, empty container for the parameters of an outgoing call.
pub fn new() -> (m: TypedMap)
    ensures
        m@ =~= MapView::empty(),
{
    TypedMap::new()
}

/// Encodes `value` per its kind's canonical codec and binds it under `key`
/// in the outgoing-parameter container, overwriting any earlier binding. No
/// validation beyond encoding happens here: authorization and range checks
/// are the caller's responsibility, applied before construction.
pub fn add<T: ScValue>(key: &str, value: &T, mutable_map: &mut TypedMap)
    ensures
        final(mutable_map)@ == map_set(old(mutable_map)@, key@, T::spec_encode(value@)),
{
    let bytes = value.encode();
    mutable_map.set(key, bytes.as_slice());
}

/// Strict typed read from the incoming parameter source.
pub fn must_get<T: ScValue, G: Getter>(variable_name: &str, ctx: &G) -> (r: Result<T, ScError>)
    ensures
        (match spec_must_get::<T>(ctx.spec_params(), variable_name@) {
            Ok(v) => r matches Ok(x) && x@ == v,
            Err(e) => r == Err::<T, ScError>(e),
        }),
{
    crate::getter::must_get(Source::Params, variable_name, ctx)
}

/// Lenient typed read from the incoming parameter source.
pub fn get<T: ScValue, G: Getter>(variable_name: &str, ctx: &G) -> (r: Result<T, ScError>)
    ensures
        (match spec_get::<T>(ctx.spec_params(), variable_name@) {
            Ok(v) => r matches Ok(x) && x@ == v,
            Err(e) => r == Err::<T, ScError>(e),
        }),
{
    crate::getter::get(Source::Params, variable_name, ctx)
}

/// Existence probe on the incoming parameter source.
pub fn exists_value<G: Getter>(variable_name: &str, ctx: &G) -> (r: bool)
    ensures
        r == has_key(ctx.spec_params(), variable_name@),
{
    crate::getter::exists_value(Source::Params, variable_name, ctx)
}

} // verus!
