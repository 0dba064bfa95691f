//! The node agent's sender: the entry point of each of its outbound calls.
use vstd::prelude::*;

use crate::exchange::{connects_to, next, open, opening, result_of, Command, Event, Exchange, SenderError};
use crate::route::{address_of, lemma_paths_distinct, path_of, service_of, Operation, Resolver};
use crate::transport::address_parses;

verus! {

/// Sends the node agent's requests to the monitoring server and the state
/// manager. It keeps nothing between calls, so one sender may serve any number
/// of calls, in any order or at once.
#[derive(Clone, Debug)]
pub struct NodeAgentSender {}

impl Default for NodeAgentSender {
    fn default() -> (r: NodeAgentSender)
        ensures
            r == (NodeAgentSender {}),
    {
        NodeAgentSender {}
    }
}

/// Whether `(state, command)` is how a call of `op` with `request` begins
/// when `resolver` gives the addresses.
pub open spec fn begins<Q, R>(
    state: Exchange<Q>,
    command: Command<Q, R>,
    op: Operation,
    resolver: Resolver,
    request: Q,
) -> bool {
    let address = address_of(resolver, service_of(op));
    &&& state == opening(op, address, request)
    &&& address_parses(address) ==> connects_to(command, address)
    &&& !address_parses(address) ==> (command matches Command::Finish {
        result: Err(SenderError::Connection { .. }),
    })
}

impl NodeAgentSender {
    /// Begins a call of `op` with `request`, at the address of its service.
    pub fn begin<Q, R>(&mut self, op: Operation, resolver: &Resolver, request: Q) -> (r: (Exchange<Q>, Command<Q, R>))
        ensures
            *final(self) == *old(self),
            begins(r.0, r.1, op, *resolver, request),
    {
        let address = resolver.resolve(op.service());
        open(op, address, request)
    }

    /// Begins handing `action` to the state manager.
    pub fn trigger_action<Q, R>(&mut self, resolver: &Resolver, action: Q) -> (r: (Exchange<Q>, Command<Q, R>))
        ensures
            *final(self) == *old(self),
            begins(r.0, r.1, Operation::TriggerAction, *resolver, action),
    {
        self.begin(Operation::TriggerAction, resolver, action)
    }

    /// Begins sending a full container report to the monitoring server.
    pub fn send_container_list<Q, R>(&mut self, resolver: &Resolver, container_list: Q) -> (r: (Exchange<Q>, Command<Q, R>))
        ensures
            *final(self) == *old(self),
            begins(r.0, r.1, Operation::SendContainerList, *resolver, container_list),
    {
        self.begin(Operation::SendContainerList, resolver, container_list)
    }

    /// Begins sending a report of the containers that changed to the state manager.
    pub fn send_changed_container_list<Q, R>(&mut self, resolver: &Resolver, container_list: Q) -> (r: (Exchange<Q>, Command<Q, R>))
        ensures
            *final(self) == *old(self),
            begins(r.0, r.1, Operation::SendChangedContainerList, *resolver, container_list),
    {
        self.begin(Operation::SendChangedContainerList, resolver, container_list)
    }
}

/// Each call connects to its own service and to no other: a full report to
/// the monitoring server's address, a report of changes and an action to the
/// state manager's. Where the two addresses differ, neither server is reached
/// by the other's calls; a call whose address does not parse connects nowhere.
/// Once connected, the two reports call methods of their own.
pub proof fn lemma_calls_routed_apart<Q, R>(
    resolver: Resolver,
    full_report: Q,
    full: (Exchange<Q>, Command<Q, R>),
    changed_report: Q,
    changed: (Exchange<Q>, Command<Q, R>),
    action: Q,
    triggered: (Exchange<Q>, Command<Q, R>),
)
    requires
        begins(full.0, full.1, Operation::SendContainerList, resolver, full_report),
        begins(changed.0, changed.1, Operation::SendChangedContainerList, resolver, changed_report),
        begins(triggered.0, triggered.1, Operation::TriggerAction, resolver, action),
    ensures
        address_parses(resolver.monitoring_server@) ==> connects_to(full.1, resolver.monitoring_server@),
        address_parses(resolver.state_manager@) ==> connects_to(changed.1, resolver.state_manager@),
        address_parses(resolver.state_manager@) ==> connects_to(triggered.1, resolver.state_manager@),
        !address_parses(resolver.monitoring_server@) ==> !(full.1 is Connect),
        !address_parses(resolver.state_manager@) ==> !(changed.1 is Connect) && !(triggered.1 is Connect),
        resolver.monitoring_server@ != resolver.state_manager@ ==> {
            &&& !connects_to(full.1, resolver.state_manager@)
            &&& !connects_to(changed.1, resolver.monitoring_server@)
            &&& !connects_to(triggered.1, resolver.monitoring_server@)
        },
        path_of(Operation::SendContainerList) != path_of(Operation::SendChangedContainerList),
{
    lemma_paths_distinct(Operation::SendContainerList, Operation::SendChangedContainerList);
}

/// A call does not remember earlier ones: two calls with the same request
/// begin alike, each asks for a connection of its own to the address of its
/// service, and each, once connected, sends the request again.
pub proof fn lemma_no_deduplication<Q, R>(
    op: Operation,
    resolver: Resolver,
    request: Q,
    first: (Exchange<Q>, Command<Q, R>),
    second: (Exchange<Q>, Command<Q, R>),
)
    requires
        begins(first.0, first.1, op, resolver, request),
        begins(second.0, second.1, op, resolver, request),
        address_parses(address_of(resolver, service_of(op))),
    ensures
        first.0 == second.0,
        connects_to(first.1, address_of(resolver, service_of(op))),
        connects_to(second.1, address_of(resolver, service_of(op))),
        first.0 == (Exchange::Connecting { op, request }),
        result_of(Event::<R>::Connected) is None,
        next(first.0, Event::<R>::Connected) == (Exchange::<Q>::Awaiting { op }),
{
}

} // verus!
