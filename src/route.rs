//! Which remote service and which remote method each outbound call reaches.
use vstd::prelude::*;

verus! {

/// A remote service the node agent talks to.
#[derive(Clone, Copy, Debug, PartialEq, Eq, Structural)]
pub enum Service {
    /// Keeps the desired and actual state of the cluster.
    StateManager,
    /// Collects container status reports.
    MonitoringServer,
}

/// One of the three outbound calls of the node agent.
#[derive(Clone, Copy, Debug, PartialEq, Eq, Structural)]
pub enum Operation {
    /// Hands a control action to the state manager.
    TriggerAction,
    /// Sends a full container report to the monitoring server.
    SendContainerList,
    /// Sends a report of the containers that changed to the state manager.
    SendChangedContainerList,
}

/// The service that an operation is addressed to.
pub open spec fn service_of(op: Operation) -> Service {
    match op {
        Operation::TriggerAction => Service::StateManager,
        Operation::SendContainerList => Service::MonitoringServer,
        Operation::SendChangedContainerList => Service::StateManager,
    }
}

/// The gRPC method path that an operation calls on its service.
pub open spec fn path_of(op: Operation) -> Seq<char> {
    match op {
        Operation::TriggerAction => "/statemanager.StateManagerConnection/SendAction"@,
        Operation::SendContainerList => "/monitoringserver.MonitoringServerConnection/SendContainerList"@,
        Operation::SendChangedContainerList => "/statemanager.StateManagerConnection/SendChangedContainerList"@,
    }
}

impl Operation {
    /// The service this operation is addressed to.
    pub fn service(&self) -> (r: Service)
        ensures
            r == service_of(*self),
    {
        match self {
            Operation::TriggerAction => Service::StateManager,
            Operation::SendContainerList => Service::MonitoringServer,
            Operation::SendChangedContainerList => Service::StateManager,
        }
    }

    /// The gRPC method path this operation calls.
    pub fn path(&self) -> (r: String)
        ensures
            r@ == path_of(*self),
    {
        match self {
            Operation::TriggerAction => "/statemanager.StateManagerConnection/SendAction".to_owned(),
            Operation::SendContainerList => "/monitoringserver.MonitoringServerConnection/SendContainerList".to_owned(),
            Operation::SendChangedContainerList => "/statemanager.StateManagerConnection/SendChangedContainerList".to_owned(),
        }
    }
}

/// Where each service is reached. Each call looks its address up here afresh,
/// so a caller can point the agent at any pair of endpoints.
#[derive(Clone, Debug)]
pub struct Resolver {
    /// Address of the state manager, such as `http://10.0.0.1:47003`.
    pub state_manager: String,
    /// Address of the monitoring server.
    pub monitoring_server: String,
}

/// The address that a resolver gives for a service.
pub open spec fn address_of(resolver: Resolver, service: Service) -> Seq<char> {
    match service {
        Service::StateManager => resolver.state_manager@,
        Service::MonitoringServer => resolver.monitoring_server@,
    }
}

impl Resolver {
    /// A resolver with the two given addresses.
    pub fn new(state_manager: String, monitoring_server: String) -> (r: Resolver)
        ensures
            r.state_manager == state_manager,
            r.monitoring_server == monitoring_server,
    {
        Resolver { state_manager, monitoring_server }
    }

    /// The address of a service.
    pub fn resolve(&self, service: Service) -> (r: &String)
        ensures
            r@ == address_of(*self, service),
    {
        match service {
            Service::StateManager => &self.state_manager,
            Service::MonitoringServer => &self.monitoring_server,
        }
    }
}

/// Each operation calls a method path of its own.
pub proof fn lemma_paths_distinct(a: Operation, b: Operation)
    requires
        a != b,
    ensures
        path_of(a) != path_of(b),
{
    reveal_strlit("/statemanager.StateManagerConnection/SendAction");
    reveal_strlit("/monitoringserver.MonitoringServerConnection/SendContainerList");
    reveal_strlit("/statemanager.StateManagerConnection/SendChangedContainerList");
    if path_of(a).len() == path_of(b).len() {
        assert(path_of(a)[1] != path_of(b)[1]);
    }
}

} // verus!
