//! The configured services and the status records produced for them.
use vstd::prelude::*;

verus! {

/// The kind of probe a service is checked with.
#[derive(PartialEq, Eq, Structural, Clone, Copy, Debug)]
pub enum ServiceType {
    Http,
    Tcp,
}

/// Whether a prober exists for this service type.
pub open spec fn supported(t: ServiceType) -> bool {
    t == ServiceType::Http
}

/// One monitored target, as read from the configuration.
#[derive(Debug)]
pub struct Service {
    pub host: String,
    pub service_type: ServiceType,
    pub name: String,
    pub enabled: bool,
}

/// The mathematical content of a `Service`.
pub struct ServiceView {
    pub host: Seq<char>,
    pub service_type: ServiceType,
    pub name: Seq<char>,
    pub enabled: bool,
}

impl View for Service {
    type V = ServiceView;

    open spec fn view(&self) -> ServiceView {
        ServiceView {
            host: self.host@,
            service_type: self.service_type,
            name: self.name@,
            enabled: self.enabled,
        }
    }
}

/// A service is eligible for a status when it is enabled and its type can be probed.
pub open spec fn eligible(s: ServiceView) -> bool {
    s.enabled && supported(s.service_type)
}

impl Service {
    pub fn new(host: String, service_type: ServiceType, name: String, enabled: bool) -> (r: Service)
        ensures
            r.host@ == host@,
            r.service_type == service_type,
            r.name@ == name@,
            r.enabled == enabled,
    {
        Service { host, service_type, name, enabled }
    }

    /// An independent copy of this record, to hand to a checker.
    pub fn duplicate(&self) -> (r: Service)
        ensures
            r@ == self@,
    {
        Service {
            host: self.host.clone(),
            service_type: self.service_type,
            name: self.name.clone(),
            enabled: self.enabled,
        }
    }
}

/// Why a probe did not succeed.
#[derive(PartialEq, Eq, Structural, Clone, Copy, Debug)]
pub enum ProbeError {
    Timeout,
    Connect,
    Other,
}

/// The outcome of one check of one service.
#[derive(Debug)]
pub struct StatusRecord {
    pub service: Service,
    pub is_up: bool,
}

/// The mathematical content of a `StatusRecord`.
pub struct StatusView {
    pub service: ServiceView,
    pub is_up: bool,
}

impl View for StatusRecord {
    type V = StatusView;

    open spec fn view(&self) -> StatusView {
        StatusView { service: self.service@, is_up: self.is_up }
    }
}

/// The text sent to the sink for a status: `"<name> is UP"` or `"<name> is DOWN"`.
pub open spec fn message_of(s: StatusView) -> Seq<char> {
    s.service.name + if s.is_up {
        " is UP"@
    } else {
        " is DOWN"@
    }
}

impl StatusRecord {
    /// The message that announces this status.
    pub fn message(&self) -> (r: String)
        ensures
            r@ == message_of(self@),
    {
        let name = self.service.name.clone();
        if self.is_up {
            name.concat(" is UP")
        } else {
            name.concat(" is DOWN")
        }
    }
}

} // verus!
