//! State accessor objects for the execution-time gas-calibration
//! contract: one pair of views (immutable, mutable) over the contract's
//! state, each deriving one typed field wrapper per declared state
//! field.

use vstd::prelude::*;

use crate::proxy::child_key;
use crate::proxy::Proxy;
use crate::scagentid::ScImmutableAgentID;
use crate::scagentid::ScMutableAgentID;

verus! {

pub const STATE_OWNER: &'static str = "owner";

/// Immutable view of the contract's state. The view is the key the
/// wrapped proxy addresses.
#[derive(Clone)]
pub struct ImmutableexecutiontimeState {
    pub(crate) proxy: Proxy,
}

impl View for ImmutableexecutiontimeState {
    type V = Seq<char>;

    closed spec fn view(&self) -> Seq<char> {
        self.proxy@
    }
}

impl ImmutableexecutiontimeState {
    /// Wraps a proxy locating the state; the store is not touched.
    pub fn new(proxy: Proxy) -> (r: ImmutableexecutiontimeState)
        ensures
            r@ == proxy@,
    {
        ImmutableexecutiontimeState { proxy }
    }

    /// Current owner of this smart contract.
    pub fn owner(&self) -> (r: ScImmutableAgentID)
        ensures
            r@ == child_key(self@, STATE_OWNER@),
    {
        ScImmutableAgentID::new(self.proxy.root(STATE_OWNER))
    }
}

/// Mutable view of the contract's state. The view is the key the
/// wrapped proxy addresses.
#[derive(Clone)]
pub struct MutableexecutiontimeState {
    pub(crate) proxy: Proxy,
}

impl View for MutableexecutiontimeState {
    type V = Seq<char>;

    closed spec fn view(&self) -> Seq<char> {
        self.proxy@
    }
}

impl MutableexecutiontimeState {
    /// Wraps a proxy locating the state; the store is not touched.
    pub fn new(proxy: Proxy) -> (r: MutableexecutiontimeState)
        ensures
            r@ == proxy@,
    {
        MutableexecutiontimeState { proxy }
    }

    /// Discards the write capability: the immutable view of the same
    /// state.
    pub fn as_immutable(&self) -> (r: ImmutableexecutiontimeState)
        ensures
            r@ == self@,
    {
        proof {
            reveal_strlit("");
        }
        ImmutableexecutiontimeState { proxy: self.proxy.root("") }
    }

    /// Current owner of this smart contract.
    pub fn owner(&self) -> (r: ScMutableAgentID)
        ensures
            r@ == child_key(self@, STATE_OWNER@),
    {
        ScMutableAgentID::new(self.proxy.root(STATE_OWNER))
    }
}

} // verus!
