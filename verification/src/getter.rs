use vstd::prelude::*;
use crate::codec::ScValue;
use crate::error::ScError;
use crate::typed_map::{TypedMap, MapView, lookup, has_key};

verus! {

/// Which of an invocation's two data sources an accessor reads: the
/// persisted state the contract controls, or the parameters the caller
/// attached to the incoming call. The tag is a closed enumeration, so a
/// dispatch over it is exhaustive by construction and an unsupported source
/// is unrepresentable.
#[derive(Debug, Clone, Copy, PartialEq, Eq, Structural)]
pub enum Source {
    /// The contract's own persisted key/value state.
    State,
    /// The parameter map attached to the incoming call.
    Params,
}

/// A context whose invocation data the accessors can read: anything that
/// hands out its state map and its parameter map.
pub trait Getter {
    /// The entries of the persisted state map.
    spec fn spec_state(&self) -> MapView;

    /// The entries of the incoming parameter map.
    spec fn spec_params(&self) -> MapView;

    /// The persisted state map.
    fn state(&self) -> (m: &TypedMap)
        ensures
            m@ == self.spec_state(),
    ;

    /// The incoming parameter map.
    fn params(&self) -> (m: &TypedMap)
        ensures
            m@ == self.spec_params(),
    ;
}

/// The entries an accessor reads for a source tag.
pub open spec fn source_entries<G: Getter>(source: Source, ctx: &G) -> MapView {
    match source {
        Source::State => ctx.spec_state(),
        Source::Params => ctx.spec_params(),
    }
}

/// What the strict accessor returns: the decoded value when the key is bound
/// to well-formed bytes, `NotFound` when the key is absent, and
/// `DecodeError` when bytes are present but malformed for the kind.
pub open spec fn spec_must_get<T: ScValue>(m: MapView, k: Seq<char>) -> Result<T::V, ScError> {
    match lookup(m, k) {
        Some(b) => match T::spec_decode(b) {
            Some(v) => Ok(v),
            None => Err(ScError::DecodeError),
        },
        None => Err(ScError::NotFound),
    }
}

/// What the lenient accessor returns: like the strict accessor, except that
/// an absent key yields the kind's zero value instead of a failure. Malformed
/// bytes still fail: absence is a designed default, corruption is not.
pub open spec fn spec_get<T: ScValue>(m: MapView, k: Seq<char>) -> Result<T::V, ScError> {
    match lookup(m, k) {
        Some(b) => match T::spec_decode(b) {
            Some(v) => Ok(v),
            None => Err(ScError::DecodeError),
        },
        None => Ok(T::spec_zero()),
    }
}

/// Strict typed read from the chosen source. The required key must be
/// present and well-formed; any other outcome is fatal to the invocation.
pub fn must_get<T: ScValue, G: Getter>(source: Source, variable_name: &str, ctx: &G) -> (r: Result<
    T,
    ScError,
>)
    ensures
        (match spec_must_get::<T>(source_entries(source, ctx), variable_name@) {
            Ok(v) => r matches Ok(x) && x@ == v,
            Err(e) => r == Err::<T, ScError>(e),
        }),
{
    let m = match source {
        Source::State => ctx.state(),
        Source::Params => ctx.params(),
    };
    match m.get(variable_name) {
        Some(bytes) => T::decode(bytes.as_slice()),
        None => Err(ScError::NotFound),
    }
}

/// Lenient typed read from the chosen source: an unset key yields the kind's
/// zero value; malformed bytes under a set key are still fatal.
pub fn get<T: ScValue, G: Getter>(source: Source, variable_name: &str, ctx: &G) -> (r: Result<
    T,
    ScError,
>)
    ensures
        (match spec_get::<T>(source_entries(source, ctx), variable_name@) {
            Ok(v) => r matches Ok(x) && x@ == v,
            Err(e) => r == Err::<T, ScError>(e),
        }),
{
    let m = match source {
        Source::State => ctx.state(),
        Source::Params => ctx.params(),
    };
    match m.get(variable_name) {
        Some(bytes) => T::decode(bytes.as_slice()),
        None => Ok(T::zero()),
    }
}

/// Existence probe on the chosen source: no decoding, no failure.
pub fn exists_value<G: Getter>(source: Source, variable_name: &str, ctx: &G) -> (r: bool)
    ensures
        r == has_key(source_entries(source, ctx), variable_name@),
{
    let m = match source {
        Source::State => ctx.state(),
        Source::Params => ctx.params(),
    };
    m.has(variable_name)
}

/// The fail-fast gate behind every fatal condition: passes exactly when the
/// condition holds, and otherwise reports the stated failure, which the
/// caller propagates until the invocation aborts.
pub fn require_if_needed(condition: bool, error: ScError) -> (r: Result<(), ScError>)
    ensures
        condition ==> r == Ok::<(), ScError>(()),
        !condition ==> r == Err::<(), ScError>(error),
{
    if condition {
        Ok(())
    } else {
        Err(error)
    }
}

} // verus!
