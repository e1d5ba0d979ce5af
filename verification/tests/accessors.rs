use sc_utils::codec::ScValue;
use sc_utils::context::ScFuncContext;
use sc_utils::error::ScError;
use sc_utils::getter::Source;
use sc_utils::ids::{
    ScAddress, ScAgentID, ScChainID, ScColor, ScHash, ScHname, ScRequestID, AGENT_ID_SIZE,
    ADDRESS_SIZE, CHAIN_ID_SIZE, COLOR_SIZE, HASH_SIZE, REQUEST_ID_SIZE,
};
use sc_utils::{getter, params, state};

#[test]
fn round_trip_int64_params() {
    let mut ctx = ScFuncContext::new();
    params::add::<i64>("amount", &42i64, &mut ctx.params);
    let r = params::must_get::<i64, ScFuncContext>("amount", &ctx);
    assert_eq!(r, Ok(42));
    let r = params::must_get::<i64, ScFuncContext>("amount", &ctx);
    assert_eq!(r, Ok(42));
    params::add::<i64>("amount", &-7i64, &mut ctx.params);
    let r = params::must_get::<i64, ScFuncContext>("amount", &ctx);
    assert_eq!(r, Ok(-7));
}

#[test]
fn round_trip_string_params() {
    let mut ctx = ScFuncContext::new();
    params::add::<String>("note", &String::from("héllo wörld"), &mut ctx.params);
    let r = params::must_get::<String, ScFuncContext>("note", &ctx);
    assert_eq!(r, Ok(String::from("héllo wörld")));
}

#[test]
fn round_trip_bytes_state() {
    let mut ctx = ScFuncContext::new();
    params::add::<Vec<u8>>("blob", &vec![0u8, 255u8, 7u8], &mut ctx.state);
    let r = state::must_get::<Vec<u8>, ScFuncContext>("blob", &ctx);
    assert_eq!(r, Ok(vec![0u8, 255u8, 7u8]));
}

#[test]
fn round_trip_bool_params() {
    let mut ctx = ScFuncContext::new();
    params::add::<bool>("flag", &true, &mut ctx.params);
    assert_eq!(params::must_get::<bool, ScFuncContext>("flag", &ctx), Ok(true));
    params::add::<bool>("flag", &false, &mut ctx.params);
    assert_eq!(params::must_get::<bool, ScFuncContext>("flag", &ctx), Ok(false));
}

#[test]
fn round_trip_identifier_kinds() {
    let mut ctx = ScFuncContext::new();

    let agent = ScAgentID::from_bytes(&vec![1u8; AGENT_ID_SIZE]).unwrap();
    params::add::<ScAgentID>("agent", &agent, &mut ctx.params);
    let back = params::must_get::<ScAgentID, ScFuncContext>("agent", &ctx).unwrap();
    assert!(back.equals(&agent));

    let address = ScAddress::from_bytes(&vec![2u8; ADDRESS_SIZE]).unwrap();
    params::add::<ScAddress>("address", &address, &mut ctx.params);
    let back = params::must_get::<ScAddress, ScFuncContext>("address", &ctx).unwrap();
    assert!(back.equals(&address));

    let request = ScRequestID::from_bytes(&vec![3u8; REQUEST_ID_SIZE]).unwrap();
    params::add::<ScRequestID>("request", &request, &mut ctx.params);
    let back = params::must_get::<ScRequestID, ScFuncContext>("request", &ctx).unwrap();
    assert!(back.equals(&request));

    let hash = ScHash::from_bytes(&vec![4u8; HASH_SIZE]).unwrap();
    params::add::<ScHash>("hash", &hash, &mut ctx.state);
    let back = state::must_get::<ScHash, ScFuncContext>("hash", &ctx).unwrap();
    assert!(back.equals(&hash));

    let color = ScColor::from_bytes(&vec![5u8; COLOR_SIZE]).unwrap();
    params::add::<ScColor>("color", &color, &mut ctx.state);
    let back = state::must_get::<ScColor, ScFuncContext>("color", &ctx).unwrap();
    assert!(back.equals(&color));

    let chain = ScChainID::from_bytes(&vec![6u8; CHAIN_ID_SIZE]).unwrap();
    params::add::<ScChainID>("chain", &chain, &mut ctx.state);
    let back = state::must_get::<ScChainID, ScFuncContext>("chain", &ctx).unwrap();
    assert!(back.equals(&chain));

    let hname = ScHname(0xdeadbeef);
    params::add::<ScHname>("hname", &hname, &mut ctx.params);
    let back = params::must_get::<ScHname, ScFuncContext>("hname", &ctx).unwrap();
    assert!(back.equals(&hname));
}

#[test]
fn unset_key_lenient_returns_zero_value() {
    let ctx = ScFuncContext::new();
    assert_eq!(params::get::<i64, ScFuncContext>("missing", &ctx), Ok(0));
    assert_eq!(params::get::<bool, ScFuncContext>("missing", &ctx), Ok(false));
    assert_eq!(params::get::<String, ScFuncContext>("missing", &ctx), Ok(String::new()));
    assert_eq!(params::get::<Vec<u8>, ScFuncContext>("missing", &ctx), Ok(Vec::new()));
    let agent = state::get::<ScAgentID, ScFuncContext>("missing", &ctx).unwrap();
    let zero: ScAgentID = ScValue::zero();
    assert!(agent.equals(&zero));
    let hname = state::get::<ScHname, ScFuncContext>("missing", &ctx).unwrap();
    assert_eq!(hname.0, 0);
}

#[test]
fn unset_key_exists_returns_false() {
    let mut ctx = ScFuncContext::new();
    assert!(!params::exists_value::<ScFuncContext>("missing", &ctx));
    assert!(!state::exists_value::<ScFuncContext>("missing", &ctx));
    params::add::<i64>("present", &1i64, &mut ctx.params);
    assert!(params::exists_value::<ScFuncContext>("present", &ctx));
    assert!(!state::exists_value::<ScFuncContext>("present", &ctx));
}

#[test]
fn unset_key_strict_fails_not_found() {
    let ctx = ScFuncContext::new();
    assert_eq!(params::must_get::<i64, ScFuncContext>("missing", &ctx), Err(ScError::NotFound));
    assert_eq!(
        state::must_get::<String, ScFuncContext>("missing", &ctx),
        Err(ScError::NotFound)
    );
}

#[test]
fn malformed_bytes_fail_decode_for_strict_and_lenient() {
    let mut ctx = ScFuncContext::new();
    // Three bytes are not an eight-byte integer.
    ctx.params.set("amount", &[1u8, 2u8, 3u8]);
    assert_eq!(
        params::must_get::<i64, ScFuncContext>("amount", &ctx),
        Err(ScError::DecodeError)
    );
    assert_eq!(params::get::<i64, ScFuncContext>("amount", &ctx), Err(ScError::DecodeError));
    // Invalid UTF-8 is not text.
    ctx.state.set("note", &[0xffu8, 0xfeu8]);
    assert_eq!(
        state::must_get::<String, ScFuncContext>("note", &ctx),
        Err(ScError::DecodeError)
    );
    // A wrong-length identifier is rejected.
    ctx.state.set("agent", &[9u8; 5]);
    let r = state::must_get::<ScAgentID, ScFuncContext>("agent", &ctx);
    assert!(matches!(r, Err(ScError::DecodeError)));
}

#[test]
fn source_dispatch_reads_the_chosen_map() {
    let mut ctx = ScFuncContext::new();
    params::add::<i64>("key", &1i64, &mut ctx.state);
    params::add::<i64>("key", &2i64, &mut ctx.params);
    assert_eq!(getter::must_get::<i64, ScFuncContext>(Source::State, "key", &ctx), Ok(1));
    assert_eq!(getter::must_get::<i64, ScFuncContext>(Source::Params, "key", &ctx), Ok(2));
}

#[test]
fn overwrite_keeps_latest_value() {
    let mut ctx = ScFuncContext::new();
    params::add::<i64>("key", &1i64, &mut ctx.params);
    params::add::<i64>("key", &2i64, &mut ctx.params);
    assert_eq!(params::must_get::<i64, ScFuncContext>("key", &ctx), Ok(2));
    assert_eq!(ctx.params.len(), 1);
}

#[test]
fn require_if_needed_gates_on_the_condition() {
    assert_eq!(getter::require_if_needed(true, ScError::Unauthorized), Ok(()));
    assert_eq!(
        getter::require_if_needed(false, ScError::Unauthorized),
        Err(ScError::Unauthorized)
    );
}

#[test]
fn int64_encoding_is_little_endian() {
    let bytes = 0x0102030405060708i64.encode();
    assert_eq!(bytes, vec![8u8, 7u8, 6u8, 5u8, 4u8, 3u8, 2u8, 1u8]);
    let back = <i64 as ScValue>::decode(&bytes);
    assert_eq!(back, Ok(0x0102030405060708i64));
    let neg = (-2i64).encode();
    assert_eq!(neg, vec![0xfeu8, 0xffu8, 0xffu8, 0xffu8, 0xffu8, 0xffu8, 0xffu8, 0xffu8]);
}
