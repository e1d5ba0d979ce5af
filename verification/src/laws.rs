use vstd::prelude::*;
use crate::codec::ScValue;
use crate::error::ScError;
use crate::getter::{spec_must_get, spec_get};
use crate::typed_map::{MapView, map_set, lookup, has_key, lemma_map_set_lookup};

verus! {

/// Round trip through a source: a value of any kind written under a key by
/// the builder is exactly what the strict accessor reads back under that
/// key on the same source, whatever else the source held.
pub proof fn lemma_builder_round_trip<T: ScValue>(m: MapView, k: Seq<char>, v: T::V)
    requires
        T::wf_view(v),
    ensures
        spec_must_get::<T>(map_set(m, k, T::spec_encode(v)), k) == Ok::<T::V, ScError>(v),
{
    lemma_map_set_lookup(m, k, T::spec_encode(v), k);
    T::lemma_codec_round_trip(v);
}

/// An unset key, for every kind: the lenient accessor hands out the kind's
/// zero value, the existence probe answers no, and the strict accessor
/// fails with the not-found condition.
pub proof fn lemma_unset_key<T: ScValue>(m: MapView, k: Seq<char>)
    requires
        lookup(m, k) is None,
    ensures
        spec_get::<T>(m, k) == Ok::<T::V, ScError>(T::spec_zero()),
        !has_key(m, k),
        spec_must_get::<T>(m, k) == Err::<T::V, ScError>(ScError::NotFound),
{
}

/// The boolean codec inverts itself: encoding either truth value and
/// decoding the stored byte yields the same truth value back.
pub proof fn lemma_bool_round_trip(v: bool)
    ensures
        <bool as ScValue>::spec_decode(<bool as ScValue>::spec_encode(v)) == Some(v),
{
}

/// The boolean codec accepts nothing else: a stored byte sequence decodes
/// as a boolean exactly when it is a single byte holding 0 or 1.
pub proof fn lemma_bool_decode_exact(b: Seq<u8>)
    ensures
        <bool as ScValue>::spec_decode(b) is Some <==> (b.len() == 1 && (b[0] == 0u8 || b[0]
            == 1u8)),
{
}

} // verus!
