use vstd::prelude::*;
use crate::codec::ScValue;
use crate::context::ScBaseContext;
use crate::error::ScError;
use crate::getter::{spec_must_get, spec_get};
use crate::typed_map::{TypedMap, map_set, has_key};

verus! {

/// Encodes `param_value` per its kind's canonical codec and writes it into
/// the context's outgoing result map under `param_name`, leaving the read
/// sources untouched.
pub fn set<T: ScValue, C: ScBaseContext>(param_name: &str, param_value: &T, ctx: &mut C)
    ensures
        final(ctx).spec_results() == map_set(
            old(ctx).spec_results(),
            param_name@,
            T::spec_encode(param_value@),
        ),
        final(ctx).spec_state() == old(ctx).spec_state(),
        final(ctx).spec_params() == old(ctx).spec_params(),
        final(ctx).spec_calls() == old(ctx).spec_calls(),
{
    let bytes = param_value.encode();
    ctx.set_result(param_name, bytes.as_slice());
}

/// Writes a boolean result in its single-byte encoding.
pub fn set_bool<C: ScBaseContext>(param_name: &str, param_value: bool, ctx: &mut C)
    ensures
        final(ctx).spec_results() == map_set(
            old(ctx).spec_results(),
            param_name@,
            <bool as ScValue>::spec_encode(param_value),
        ),
        final(ctx).spec_state() == old(ctx).spec_state(),
        final(ctx).spec_params() == old(ctx).spec_params(),
        final(ctx).spec_calls() == old(ctx).spec_calls(),
{
    set::<bool, C>(param_name, &param_value, ctx)
}

/// Strict typed read from a result map, such as the one a cross-contract
/// call hands back.
pub fn must_get<T: ScValue>(param_name: &str, immutablemap: &TypedMap) -> (r: Result<T, ScError>)
    ensures
        (match spec_must_get::<T>(immutablemap@, param_name@) {
            Ok(v) => r matches Ok(x) && x@ == v,
            Err(e) => r == Err::<T, ScError>(e),
        }),
{
    match immutablemap.get(param_name) {
        Some(bytes) => T::decode(bytes.as_slice()),
        None => Err(ScError::NotFound),
    }
}

/// Lenient typed read from a result map: an unset key yields the kind's
/// zero value; malformed bytes under a set key are still fatal.
pub fn get<T: ScValue>(param_name: &str, immutablemap: &TypedMap) -> (r: Result<T, ScError>)
    ensures
        (match spec_get::<T>(immutablemap@, param_name@) {
            Ok(v) => r matches Ok(x) && x@ == v,
            Err(e) => r == Err::<T, ScError>(e),
        }),
{
    match immutablemap.get(param_name) {
        Some(bytes) => T::decode(bytes.as_slice()),
        None => Ok(T::zero()),
    }
}

/// Existence probe on a result map.
pub fn exists_value(param_name: &str, immutablemap: &TypedMap) -> (r: bool)
    ensures
        r == has_key(immutablemap@, param_name@),
{
    immutablemap.has(param_name)
}

/// Strict boolean read from a result map, through the single-byte codec.
pub fn must_get_bool(param_name: &str, immutablemap: &TypedMap) -> (r: Result<bool, ScError>)
    ensures
        (match spec_must_get::<bool>(immutablemap@, param_name@) {
            Ok(v) => r == Ok::<bool, ScError>(v),
            Err(e) => r == Err::<bool, ScError>(e),
        }),
{
    must_get::<bool>(param_name, immutablemap)
}

/// Lenient boolean read from a result map: an unset key reads as `false`.
pub fn get_bool(param_name: &str, immutablemap: &TypedMap) -> (r: Result<bool, ScError>)
    ensures
        (match spec_get::<bool>(immutablemap@, param_name@) {
            Ok(v) => r == Ok::<bool, ScError>(v),
            Err(e) => r == Err::<bool, ScError>(e),
        }),
{
    get::<bool>(param_name, immutablemap)
}

/// Existence probe for a boolean result.
pub fn exists_bool(param_name: &str, immutablemap: &TypedMap) -> (r: bool)
    ensures
        r == has_key(immutablemap@, param_name@),
{
    exists_value(param_name, immutablemap)
}

} // verus!
