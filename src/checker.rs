//! What a checker does with one service: probe it or skip it, and turn the
//! probe's outcome into a status record.
use vstd::prelude::*;
use crate::service::{supported, ProbeError, Service, ServiceType, ServiceView, StatusRecord};

verus! {

/// How long a probe may wait for its host, in seconds, so that an
/// unresponsive host cannot hold the pipeline up.
pub const PROBE_TIMEOUT_SECS: u64 = 10;

/// What a checker does with its service.
#[derive(PartialEq, Eq, Structural, Clone, Copy, Debug)]
pub enum CheckAction {
    /// Run the prober for the service's type, then report a status.
    Probe,
    /// No prober exists for the type: log the service and report nothing.
    Skip,
}

/// The action a checker takes for a service of type `t`.
pub open spec fn action_for(t: ServiceType) -> CheckAction {
    if supported(t) {
        CheckAction::Probe
    } else {
        CheckAction::Skip
    }
}

/// Whether a prober exists for `t`.
pub fn is_supported(t: ServiceType) -> (r: bool)
    ensures
        r == supported(t),
{
    match t {
        ServiceType::Http => true,
        ServiceType::Tcp => false,
    }
}

/// Chooses what to do with a service of type `t`.
pub fn choose_action(t: ServiceType) -> (r: CheckAction)
    ensures
        r == action_for(t),
{
    if is_supported(t) {
        CheckAction::Probe
    } else {
        CheckAction::Skip
    }
}

/// One unit of work for a checker: a service and what to do with it.
#[derive(Debug)]
pub struct CheckTask {
    pub service: Service,
    pub action: CheckAction,
}

impl View for CheckTask {
    type V = (ServiceView, CheckAction);

    open spec fn view(&self) -> (ServiceView, CheckAction) {
        (self.service@, self.action)
    }
}

/// The task a checker receives for service `s`.
pub open spec fn task_of(s: ServiceView) -> (ServiceView, CheckAction) {
    (s, action_for(s.service_type))
}

impl CheckTask {
    /// The task for `service`: probe it when its type is supported, else skip it.
    pub fn for_service(service: Service) -> (r: CheckTask)
        ensures
            r@ == task_of(service@),
    {
        let action = choose_action(service.service_type);
        CheckTask { service, action }
    }
}

/// Whether a probe outcome counts as "up": any error means down, any success
/// means up, whatever the response said.
pub open spec fn up_from(outcome: Result<(), ProbeError>) -> bool {
    outcome is Ok
}

/// The status record for `service` after a probe that ended with `outcome`.
pub fn status_from_probe(service: Service, outcome: Result<(), ProbeError>) -> (r: StatusRecord)
    ensures
        r.service@ == service@,
        r.is_up == up_from(outcome),
{
    let is_up = match outcome {
        Ok(()) => true,
        Err(_) => false,
    };
    StatusRecord { service, is_up }
}

/// What a checker reports for `task`: a status when the task probes, with
/// `outcome` the probe's result, and nothing when it skips.
pub open spec fn report_of(task: (ServiceView, CheckAction), outcome: Result<(), ProbeError>) -> Option<
    (ServiceView, bool),
> {
    match task.1 {
        CheckAction::Probe => Some((task.0, up_from(outcome))),
        CheckAction::Skip => None,
    }
}

impl CheckTask {
    /// Finishes the task. `outcome` is the probe's result; a skipping task ran
    /// no probe and ignores it.
    pub fn finish(self, outcome: Result<(), ProbeError>) -> (r: Option<StatusRecord>)
        ensures
            r matches Some(s) ==> report_of(self@, outcome) == Some((s.service@, s.is_up)),
            r is None <==> report_of(self@, outcome) is None,
    {
        match self.action {
            CheckAction::Probe => Some(status_from_probe(self.service, outcome)),
            CheckAction::Skip => None,
        }
    }
}

} // verus!
