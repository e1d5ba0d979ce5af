use sc_utils::access::{
    caller_must_be_chain_owner, caller_must_be_contract_creator, caller_must_be_contract_itself,
};
use sc_utils::context::{ScFuncContext, ScViewContext};
use sc_utils::error::ScError;
use sc_utils::ids::{ScAgentID, ScColor, ScHname, AGENT_ID_SIZE, COLOR_SIZE};
use sc_utils::interfaces::{implements, HNAME_FUNC_IMPLEMENTS, NAME_FUNC_IMPLEMENTS};
use sc_utils::math::SafeMath;
use sc_utils::{incoming, params, results};

fn agent(tag: u8) -> ScAgentID {
    ScAgentID::from_bytes(&vec![tag; AGENT_ID_SIZE]).unwrap()
}

fn color(tag: u8) -> ScColor {
    ScColor::from_bytes(&vec![tag; COLOR_SIZE]).unwrap()
}

#[test]
fn creator_gate_passes_iff_caller_is_creator() {
    let mut ctx = ScFuncContext::new();
    ctx.caller = agent(1);
    ctx.contract_creator = agent(1);
    assert_eq!(caller_must_be_contract_creator(&ctx), Ok(()));

    ctx.contract_creator = agent(2);
    assert_eq!(caller_must_be_contract_creator(&ctx), Err(ScError::Unauthorized));
}

#[test]
fn owner_and_self_gates_check_their_own_identity() {
    let mut ctx = ScFuncContext::new();
    ctx.caller = agent(3);
    ctx.chain_owner = agent(3);
    ctx.account = agent(4);
    assert_eq!(caller_must_be_chain_owner(&ctx), Ok(()));
    assert_eq!(caller_must_be_contract_itself(&ctx), Err(ScError::Unauthorized));

    ctx.account = agent(3);
    ctx.chain_owner = agent(5);
    assert_eq!(caller_must_be_chain_owner(&ctx), Err(ScError::Unauthorized));
    assert_eq!(caller_must_be_contract_itself(&ctx), Ok(()));
}

#[test]
fn degenerate_identities_pass_every_gate() {
    // caller == creator == owner == self: each individual check still passes.
    let mut ctx = ScFuncContext::new();
    ctx.caller = agent(9);
    ctx.contract_creator = agent(9);
    ctx.chain_owner = agent(9);
    ctx.account = agent(9);
    assert_eq!(caller_must_be_contract_creator(&ctx), Ok(()));
    assert_eq!(caller_must_be_chain_owner(&ctx), Ok(()));
    assert_eq!(caller_must_be_contract_itself(&ctx), Ok(()));
}

#[test]
fn flow_reads_gates_computes_and_writes() {
    // The contract receives "amount" = 42 and is called by its creator: it
    // reads the amount strictly, gates on the creator, adds 8 with the
    // overflow guard, and writes "total" = 50 into the results.
    let mut ctx = ScFuncContext::new();
    ctx.caller = agent(1);
    ctx.contract_creator = agent(1);
    params::add::<i64>("amount", &42i64, &mut ctx.params);

    let amount = params::must_get::<i64, ScFuncContext>("amount", &ctx).unwrap();
    assert_eq!(amount, 42);
    caller_must_be_contract_creator(&ctx).unwrap();
    let total = amount.safe_add(&8).unwrap();
    assert_eq!(total, 50);
    results::set::<i64, ScFuncContext>("total", &total, &mut ctx);

    let observed = results::must_get::<i64>("total", &ctx.results);
    assert_eq!(observed, Ok(50));
}

#[test]
fn flow_aborts_before_any_write_when_caller_is_not_creator() {
    let mut ctx = ScFuncContext::new();
    ctx.caller = agent(1);
    ctx.contract_creator = agent(2);
    params::add::<i64>("amount", &42i64, &mut ctx.params);

    let amount = params::must_get::<i64, ScFuncContext>("amount", &ctx).unwrap();
    let gate = caller_must_be_contract_creator(&ctx);
    assert_eq!(gate, Err(ScError::Unauthorized));
    let mut wrote = false;
    if gate.is_ok() {
        let total = amount.safe_add(&8).unwrap();
        results::set::<i64, ScFuncContext>("total", &total, &mut ctx);
        wrote = true;
    }
    assert!(!wrote);
    // No result key was ever set.
    assert_eq!(ctx.results.len(), 0);
    assert!(!results::exists_value("total", &ctx.results));
    assert_eq!(results::must_get::<i64>("total", &ctx.results), Err(ScError::NotFound));
}

#[test]
fn bool_results_round_trip_through_the_sink() {
    let mut ctx = ScFuncContext::new();
    results::set_bool::<ScFuncContext>("flag", true, &mut ctx);
    assert_eq!(results::must_get_bool("flag", &ctx.results), Ok(true));
    assert_eq!(results::get_bool("flag", &ctx.results), Ok(true));
    assert!(results::exists_bool("flag", &ctx.results));

    results::set_bool::<ScFuncContext>("flag", false, &mut ctx);
    assert_eq!(results::must_get_bool("flag", &ctx.results), Ok(false));

    // The stored encoding is the single byte 0x00 / 0x01.
    assert_eq!(ctx.results.get("flag"), Some(&vec![0u8]));
}

#[test]
fn bool_rejects_everything_but_a_single_zero_or_one_byte() {
    let mut ctx = ScFuncContext::new();
    ctx.results.set("two", &[2u8]);
    ctx.results.set("empty", &[]);
    ctx.results.set("long", &[1u8, 0u8]);
    assert_eq!(results::must_get_bool("two", &ctx.results), Err(ScError::DecodeError));
    assert_eq!(results::get_bool("empty", &ctx.results), Err(ScError::DecodeError));
    assert_eq!(results::must_get_bool("long", &ctx.results), Err(ScError::DecodeError));
    // Lenient read of an absent boolean is the designed default, not an error.
    assert_eq!(results::get_bool("absent", &ctx.results), Ok(false));
    assert!(!results::exists_bool("absent", &ctx.results));
}

#[test]
fn incoming_balances_are_counted_per_color() {
    let mut ctx = ScFuncContext::new();
    ctx.incoming.deposit(color(1), 100);
    ctx.incoming.deposit(color(2), 7);

    assert_eq!(incoming::balance(&color(1), &ctx), 100);
    assert_eq!(incoming::balance(&color(2), &ctx), 7);
    assert_eq!(incoming::balance(&color(3), &ctx), 0);

    let colors = incoming::colors(&ctx);
    assert_eq!(colors.len(), 2);
    assert!(colors[0].equals(&color(1)));
    assert!(colors[1].equals(&color(2)));

    assert_eq!(incoming::require_balance(100, &color(1), &ctx), Ok(()));
    assert_eq!(incoming::require_balance(101, &color(1), &ctx), Err(ScError::Unauthorized));
    assert_eq!(incoming::require_balance(0, &color(3), &ctx), Ok(()));
    assert_eq!(incoming::require_balance(1, &color(3), &ctx), Err(ScError::Unauthorized));
}

#[test]
fn implements_asks_the_target_and_decodes_its_answer() {
    let target = ScHname(0x1111);
    let queried = ScHname(0x2222);

    // The target answers "yes" under the probe key.
    let mut yes = params::new();
    params::add::<bool>(NAME_FUNC_IMPLEMENTS, &true, &mut yes);
    let mut ctx = ScViewContext::new();
    ctx.calls.register(target, ScHname(HNAME_FUNC_IMPLEMENTS), yes);
    assert_eq!(implements(target, queried, &ctx), Ok(true));

    // The target answers "no".
    let mut no = params::new();
    params::add::<bool>(NAME_FUNC_IMPLEMENTS, &false, &mut no);
    let mut ctx = ScViewContext::new();
    ctx.calls.register(target, ScHname(HNAME_FUNC_IMPLEMENTS), no);
    assert_eq!(implements(target, queried, &ctx), Ok(false));
}

#[test]
fn implements_treats_a_silent_target_as_not_implementing() {
    // The target's probe entry point is reachable but sets no answer key:
    // the lenient boolean default says it does not implement the interface.
    let target = ScHname(0x1111);
    let mut ctx = ScViewContext::new();
    ctx.calls.register(target, ScHname(HNAME_FUNC_IMPLEMENTS), params::new());
    assert_eq!(implements(target, ScHname(0x2222), &ctx), Ok(false));
}

#[test]
fn implements_propagates_transport_failure_for_a_missing_entry_point() {
    // No probe entry point is reachable on the target at all: that is a
    // transport fault and it propagates, rather than reading as "no".
    let ctx = ScViewContext::new();
    assert_eq!(
        implements(ScHname(0x1111), ScHname(0x2222), &ctx),
        Err(ScError::TransportFailure)
    );
}

#[test]
fn implements_rejects_a_malformed_answer() {
    let target = ScHname(0x1111);
    let mut bad = params::new();
    bad.set(NAME_FUNC_IMPLEMENTS, &[7u8]);
    let mut ctx = ScViewContext::new();
    ctx.calls.register(target, ScHname(HNAME_FUNC_IMPLEMENTS), bad);
    assert_eq!(implements(target, ScHname(0x2222), &ctx), Err(ScError::DecodeError));
}

#[test]
fn every_condition_has_a_report_for_the_host() {
    assert_eq!(ScError::NotFound.message(), "required variable not found");
    assert_eq!(ScError::Unauthorized.message(), "caller lacks the required identity");
    assert_eq!(ScError::DivideByZero.message(), "invalid division operation");
    assert_eq!(ScError::TransportFailure.message(), "cross-contract call failed");
}
