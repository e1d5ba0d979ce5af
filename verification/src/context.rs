use vstd::prelude::*;
use crate::error::ScError;
use crate::getter::Getter;
use crate::ids::{ScAgentID, ScColor, ScHname};
use crate::typed_map::{TypedMap, MapView, map_set};
use crate::codec::ScValue;

verus! {

/// The token balances attached to the incoming call, counted per color.
pub struct ScBalances {
    entries: Vec<(ScColor, i64)>,
}

/// The balance a color holds in a balance list: the first entry for the
/// color, and zero when the color is not listed.
pub open spec fn spec_balance(b: Seq<(Seq<u8>, i64)>, color: Seq<u8>) -> i64
    decreases b.len(),
{
    if b.len() == 0 {
        0
    } else if b[0].0 == color {
        b[0].1
    } else {
        spec_balance(b.drop_first(), color)
    }
}

impl View for ScBalances {
    type V = Seq<(Seq<u8>, i64)>;

    closed spec fn view(&self) -> Seq<(Seq<u8>, i64)> {
        self.entries@.map(|i: int, e: (ScColor, i64)| (e.0@, e.1))
    }
}

impl ScBalances {
    /// No tokens attached.
    pub fn new() -> (r: ScBalances)
        ensures
            r@ =~= Seq::<(Seq<u8>, i64)>::empty(),
    {
        ScBalances { entries: Vec::new() }
    }

    /// Attaches `amount` tokens of `color`, as the host does when it builds
    /// the incoming transfer list for an invocation.
    pub fn deposit(&mut self, color: ScColor, amount: i64)
        ensures
            final(self)@ == old(self)@.push((color@, amount)),
    {
        let ghost c = color@;
        self.entries.push((color, amount));
        proof {
            assert(final(self)@ =~= old(self)@.push((c, amount)));
        }
    }

    /// The balance attached in tokens of `color`; zero when none are.
    pub fn balance(&self, color: &ScColor) -> (r: i64)
        ensures
            r == spec_balance(self@, color@),
    {
        let n = self.entries.len();
        let mut i: usize = 0;
        while i < n
            invariant
                n == self.entries@.len(),
                self@.len() == n,
                0 <= i <= n,
                forall|j: int| 0 <= j < i ==> self@[j].0 != color@,
            decreases n - i,
        {
            if self.entries[i].0.equals(color) {
                proof {
                    lemma_balance_at(self@, color@, i as int);
                }
                return self.entries[i].1;
            }
            i += 1;
        }
        proof {
            lemma_balance_absent(self@, color@);
        }
        0
    }

    /// The colors attached, in order.
    pub fn colors(&self) -> (r: Vec<ScColor>)
        ensures
            r@.len() == self@.len(),
            forall|i: int| 0 <= i < r@.len() ==> r@[i]@ == self@[i].0,
    {
        let n = self.entries.len();
        let mut r: Vec<ScColor> = Vec::new();
        let mut i: usize = 0;
        while i < n
            invariant
                n == self.entries@.len(),
                self@.len() == n,
                0 <= i <= n,
                r@.len() == i,
                forall|j: int| 0 <= j < i ==> r@[j]@ == self@[j].0,
            decreases n - i,
        {
            r.push(self.entries[i].0.clone());
            i += 1;
        }
        r
    }
}

/// A balance found at a position before which its color never occurs is the
/// balance reported for the color.
proof fn lemma_balance_at(b: Seq<(Seq<u8>, i64)>, color: Seq<u8>, i: int)
    requires
        0 <= i < b.len(),
        b[i].0 == color,
        forall|j: int| 0 <= j < i ==> b[j].0 != color,
    ensures
        spec_balance(b, color) == b[i].1,
    decreases b.len(),
{
    if i > 0 {
        assert(forall|j: int| 0 <= j < b.drop_first().len() ==> b.drop_first()[j] == b[j + 1]);
        lemma_balance_at(b.drop_first(), color, i - 1);
    }
}

/// A color no entry carries holds a zero balance.
proof fn lemma_balance_absent(b: Seq<(Seq<u8>, i64)>, color: Seq<u8>)
    requires
        forall|j: int| 0 <= j < b.len() ==> b[j].0 != color,
    ensures
        spec_balance(b, color) == 0,
    decreases b.len(),
{
    if b.len() != 0 {
        assert(forall|j: int| 0 <= j < b.drop_first().len() ==> b.drop_first()[j] == b[j + 1]);
        lemma_balance_absent(b.drop_first(), color);
    }
}

/// The responses the host would hand back for cross-contract calls made
/// during this invocation: one result map per (contract, entry point) pair
/// that can be reached. A pair with no entry cannot be reached, and calling
/// it is a transport failure.
pub struct CallTable {
    entries: Vec<(ScHname, ScHname, TypedMap)>,
}

/// The result-map entries registered for a (contract, entry point) pair;
/// absent when the pair cannot be called.
pub open spec fn spec_response(t: Seq<(u32, u32, MapView)>, contract: u32, function: u32) -> Option<
    MapView,
>
    decreases t.len(),
{
    if t.len() == 0 {
        None
    } else if t[0].0 == contract && t[0].1 == function {
        Some(t[0].2)
    } else {
        spec_response(t.drop_first(), contract, function)
    }
}

impl View for CallTable {
    type V = Seq<(u32, u32, MapView)>;

    closed spec fn view(&self) -> Seq<(u32, u32, MapView)> {
        self.entries@.map(|i: int, e: (ScHname, ScHname, TypedMap)| (e.0@, e.1@, e.2@))
    }
}

impl CallTable {
    /// No reachable call targets.
    pub fn new() -> (r: CallTable)
        ensures
            r@ =~= Seq::<(u32, u32, MapView)>::empty(),
    {
        CallTable { entries: Vec::new() }
    }

    /// Registers the result map that calling `function` on `contract` hands
    /// back during this invocation.
    pub fn register(&mut self, contract: ScHname, function: ScHname, results: TypedMap)
        ensures
            final(self)@ == old(self)@.push((contract@, function@, results@)),
    {
        let ghost e = (contract@, function@, results@);
        self.entries.push((contract, function, results));
        proof {
            assert(final(self)@ =~= old(self)@.push(e));
        }
    }

    /// The result map for a (contract, entry point) pair, when reachable.
    pub fn response(&self, contract: &ScHname, function: &ScHname) -> (r: Option<&TypedMap>)
        ensures
            (match spec_response(self@, contract@, function@) {
                Some(m) => r matches Some(rm) && rm@ == m,
                None => r is None,
            }),
    {
        let n = self.entries.len();
        let mut i: usize = 0;
        while i < n
            invariant
                n == self.entries@.len(),
                self@.len() == n,
                0 <= i <= n,
                forall|j: int|
                    0 <= j < i ==> !(self@[j].0 == contract@ && self@[j].1 == function@),
            decreases n - i,
        {
            if self.entries[i].0.equals(contract) && self.entries[i].1.equals(function) {
                proof {
                    lemma_response_at(self@, contract@, function@, i as int);
                }
                return Some(&self.entries[i].2);
            }
            i += 1;
        }
        proof {
            lemma_response_absent(self@, contract@, function@);
        }
        None
    }
}

/// A response found at a position before which its pair never occurs is the
/// response reported for the pair.
proof fn lemma_response_at(t: Seq<(u32, u32, MapView)>, contract: u32, function: u32, i: int)
    requires
        0 <= i < t.len(),
        t[i].0 == contract && t[i].1 == function,
        forall|j: int| 0 <= j < i ==> !(t[j].0 == contract && t[j].1 == function),
    ensures
        spec_response(t, contract, function) == Some(t[i].2),
    decreases t.len(),
{
    if i > 0 {
        assert(forall|j: int| 0 <= j < t.drop_first().len() ==> t.drop_first()[j] == t[j + 1]);
        lemma_response_at(t.drop_first(), contract, function, i - 1);
    }
}

/// A pair no entry carries has no response.
proof fn lemma_response_absent(t: Seq<(u32, u32, MapView)>, contract: u32, function: u32)
    requires
        forall|j: int| 0 <= j < t.len() ==> !(t[j].0 == contract && t[j].1 == function),
    ensures
        spec_response(t, contract, function) is None,
    decreases t.len(),
{
    if t.len() != 0 {
        assert(forall|j: int| 0 <= j < t.drop_first().len() ==> t.drop_first()[j] == t[j + 1]);
        lemma_response_absent(t.drop_first(), contract, function);
    }
}

/// A context that can receive outgoing results and make synchronous
/// cross-contract calls, whichever concrete context flavor it is. The
/// accessors' writes never touch the read sources: writing a result leaves
/// state and parameters as they were.
pub trait ScBaseContext: Getter {
    /// The entries of the outgoing result map.
    spec fn spec_results(&self) -> MapView;

    /// The entries of the table of reachable call targets.
    spec fn spec_calls(&self) -> Seq<(u32, u32, MapView)>;

    /// The outgoing result map.
    fn results(&self) -> (m: &TypedMap)
        ensures
            m@ == self.spec_results(),
    ;

    /// Writes raw bytes into the outgoing result map, leaving every other
    /// part of the invocation untouched.
    fn set_result(&mut self, key: &str, value: &[u8])
        ensures
            final(self).spec_results() == map_set(old(self).spec_results(), key@, value@),
            final(self).spec_state() == old(self).spec_state(),
            final(self).spec_params() == old(self).spec_params(),
            final(self).spec_calls() == old(self).spec_calls(),
    ;

    /// Synchronously calls `function` on the contract `contract`, handing it
    /// `params`, and blocks until its result map comes back. A target the
    /// host cannot reach is a transport failure, which is fatal and
    /// propagates. The params are delivered to the callee; what comes back
    /// is whatever the callee produced for this invocation.
    fn call(&self, contract: &ScHname, function: &ScHname, params: Option<&TypedMap>) -> (r:
        Result<&TypedMap, ScError>)
        ensures
            (match spec_response(self.spec_calls(), contract@, function@) {
                Some(m) => r matches Ok(rm) && rm@ == m,
                None => r == Err::<&TypedMap, ScError>(ScError::TransportFailure),
            }),
    ;
}

/// The full, side-effecting execution context of one contract invocation:
/// the two readable sources, the outgoing result sink, the identities the
/// host resolved for this call, the attached token balances, and the
/// reachable cross-contract call targets.
///
/// The host owns these values for the lifetime of the invocation; the core
/// never caches them beyond it. State writes take effect at successful
/// invocation end; commit and rollback are the host's business.
pub struct ScFuncContext {
    /// The contract's persisted key/value state.
    pub state: TypedMap,
    /// The parameters attached to the incoming call.
    pub params: TypedMap,
    /// The outgoing result map.
    pub results: TypedMap,
    /// The identity the incoming call runs on behalf of.
    pub caller: ScAgentID,
    /// The identity that created this contract.
    pub contract_creator: ScAgentID,
    /// The identity that owns the chain this contract runs on.
    pub chain_owner: ScAgentID,
    /// The contract's own on-chain account identity.
    pub account: ScAgentID,
    /// The token balances attached to the incoming call.
    pub incoming: ScBalances,
    /// The cross-contract call targets reachable from this invocation.
    pub calls: CallTable,
}

impl ScFuncContext {
    /// An invocation with empty sources, zero identities, no attached
    /// tokens, and no reachable call targets.
    pub fn new() -> (r: ScFuncContext)
        ensures
            r.state@ =~= MapView::empty(),
            r.params@ =~= MapView::empty(),
            r.results@ =~= MapView::empty(),
            r.caller@ == <ScAgentID as ScValue>::spec_zero(),
            r.contract_creator@ == <ScAgentID as ScValue>::spec_zero(),
            r.chain_owner@ == <ScAgentID as ScValue>::spec_zero(),
            r.account@ == <ScAgentID as ScValue>::spec_zero(),
            r.incoming@ =~= Seq::<(Seq<u8>, i64)>::empty(),
            r.calls@ =~= Seq::<(u32, u32, MapView)>::empty(),
    {
        ScFuncContext {
            state: TypedMap::new(),
            params: TypedMap::new(),
            results: TypedMap::new(),
            caller: ScValue::zero(),
            contract_creator: ScValue::zero(),
            chain_owner: ScValue::zero(),
            account: ScValue::zero(),
            incoming: ScBalances::new(),
            calls: CallTable::new(),
        }
    }
}

impl Getter for ScFuncContext {
    open spec fn spec_state(&self) -> MapView {
        self.state@
    }

    open spec fn spec_params(&self) -> MapView {
        self.params@
    }

    fn state(&self) -> (m: &TypedMap) {
        &self.state
    }

    fn params(&self) -> (m: &TypedMap) {
        &self.params
    }
}

impl ScBaseContext for ScFuncContext {
    open spec fn spec_results(&self) -> MapView {
        self.results@
    }

    open spec fn spec_calls(&self) -> Seq<(u32, u32, MapView)> {
        self.calls@
    }

    fn results(&self) -> (m: &TypedMap) {
        &self.results
    }

    fn set_result(&mut self, key: &str, value: &[u8]) {
        self.results.set(key, value);
    }

    fn call(&self, contract: &ScHname, function: &ScHname, params: Option<&TypedMap>) -> (r:
        Result<&TypedMap, ScError>) {
        match self.calls.response(contract, function) {
            Some(m) => Ok(m),
            None => Err(ScError::TransportFailure),
        }
    }
}

/// The read-only execution context of one view invocation: it can read
/// state and parameters, produce results, and make read-only cross-contract
/// calls, but it has no caller-facing side effects — no state writes and no
/// attached tokens.
pub struct ScViewContext {
    /// The contract's persisted key/value state, read-only in a view.
    pub state: TypedMap,
    /// The parameters attached to the incoming call.
    pub params: TypedMap,
    /// The outgoing result map.
    pub results: TypedMap,
    /// The cross-contract call targets reachable from this invocation.
    pub calls: CallTable,
}

impl ScViewContext {
    /// A view invocation with empty sources and no reachable call targets.
    pub fn new() -> (r: ScViewContext)
        ensures
            r.state@ =~= MapView::empty(),
            r.params@ =~= MapView::empty(),
            r.results@ =~= MapView::empty(),
            r.calls@ =~= Seq::<(u32, u32, MapView)>::empty(),
    {
        ScViewContext {
            state: TypedMap::new(),
            params: TypedMap::new(),
            results: TypedMap::new(),
            calls: CallTable::new(),
        }
    }
}

impl Getter for ScViewContext {
    open spec fn spec_state(&self) -> MapView {
        self.state@
    }

    open spec fn spec_params(&self) -> MapView {
        self.params@
    }

    fn state(&self) -> (m: &TypedMap) {
        &self.state
    }

    fn params(&self) -> (m: &TypedMap) {
        &self.params
    }
}

impl ScBaseContext for ScViewContext {
    open spec fn spec_results(&self) -> MapView {
        self.results@
    }

    open spec fn spec_calls(&self) -> Seq<(u32, u32, MapView)> {
        self.calls@
    }

    fn results(&self) -> (m: &TypedMap) {
        &self.results
    }

    fn set_result(&mut self, key: &str, value: &[u8]) {
        self.results.set(key, value);
    }

    fn call(&self, contract: &ScHname, function: &ScHname, params: Option<&TypedMap>) -> (r:
        Result<&TypedMap, ScError>) {
        match self.calls.response(contract, function) {
            Some(m) => Ok(m),
            None => Err(ScError::TransportFailure),
        }
    }
}

} // verus!
