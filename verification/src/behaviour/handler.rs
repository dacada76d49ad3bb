//! The envelopes of the composite connection handler.
//!
//! One handler per connection serves the gossip, the request/response and the
//! identify protocol. What goes to it and what comes from it is tagged with
//! the protocol it belongs to. The payloads of the gossip and the identify
//! protocol are not looked into: `G` and `I` stand for them.

use crate::rpc::handler::HandlerErr;
use crate::rpc::methods::{RPCRequest, RPCRequestView, RequestId};
use crate::rpc::{RPCReceived, RPCSend, RPCSendView};
use vstd::prelude::*;

verus! {

/// A payload for one of the three protocol handlers.
#[derive(Debug, PartialEq)]
pub enum DelegateIn<G, I> {
    Gossipsub(G),
    RPC(RPCSend),
    Identify(I),
}

/// A payload from one of the three protocol handlers.
#[derive(Debug, PartialEq)]
pub enum DelegateOut<G, I> {
    Gossipsub(G),
    RPC(Result<RPCReceived, HandlerErr>),
    Identify(I),
}

/// What the behaviour sends to the composite handler.
#[derive(Debug, PartialEq)]
pub enum BehaviourHandlerIn<G, I> {
    /// A payload for one protocol handler.
    Delegate(DelegateIn<G, I>),
    /// Close the connection. A request given here is sent as a farewell
    /// first, as far as that is still possible.
    Shutdown(Option<(RequestId, RPCRequest)>),
}

/// What the composite handler reports to the behaviour.
#[derive(Debug, PartialEq)]
pub enum BehaviourHandlerOut<G, I> {
    /// A payload from one protocol handler.
    Delegate(Box<DelegateOut<G, I>>),
    /// Reserved. It is accepted and has no effect.
    Custom,
}

/// What a [`DelegateIn`] is.
pub enum DelegateInView<G, I> {
    Gossipsub(G),
    RPC(RPCSendView),
    Identify(I),
}

/// What a [`BehaviourHandlerIn`] is.
pub enum BehaviourHandlerInView<G, I> {
    Delegate(DelegateInView<G, I>),
    Shutdown(Option<(RequestId, RPCRequestView)>),
}

impl<G, I> View for DelegateIn<G, I> {
    type V = DelegateInView<G, I>;

    open spec fn view(&self) -> DelegateInView<G, I> {
        match self {
            DelegateIn::Gossipsub(payload) => DelegateInView::Gossipsub(*payload),
            DelegateIn::RPC(payload) => DelegateInView::RPC(payload@),
            DelegateIn::Identify(payload) => DelegateInView::Identify(*payload),
        }
    }
}

impl<G, I> View for BehaviourHandlerIn<G, I> {
    type V = BehaviourHandlerInView<G, I>;

    open spec fn view(&self) -> BehaviourHandlerInView<G, I> {
        match self {
            BehaviourHandlerIn::Delegate(payload) => BehaviourHandlerInView::Delegate(payload@),
            BehaviourHandlerIn::Shutdown(farewell) => BehaviourHandlerInView::Shutdown(
                match farewell {
                    Some((id, request)) => Some((*id, request@)),
                    None => None,
                },
            ),
        }
    }
}

} // verus!
