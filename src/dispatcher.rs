//! The dispatcher's plan: one checker task per enabled service, in
//! configuration order, and what the checkers report altogether.
use vstd::prelude::*;
use crate::checker::{report_of, task_of, CheckAction, CheckTask};
use crate::service::{eligible, supported, ProbeError, Service, ServiceView};

verus! {

/// How many status records the delivery channel holds before senders wait.
pub const CHANNEL_CAPACITY: usize = 32;

/// The views of a list of services.
pub open spec fn views(s: Seq<Service>) -> Seq<ServiceView> {
    s.map_values(|x: Service| x@)
}

/// The views of a list of tasks.
pub open spec fn task_views(t: Seq<CheckTask>) -> Seq<(ServiceView, CheckAction)> {
    t.map_values(|x: CheckTask| x@)
}

/// The tasks the dispatcher starts for `s`: one per enabled service, in order.
pub open spec fn planned(s: Seq<ServiceView>) -> Seq<(ServiceView, CheckAction)> {
    s.filter(|x: ServiceView| x.enabled).map_values(|x: ServiceView| task_of(x))
}

/// Builds the tasks for `services`: disabled services get none.
pub fn plan_checks(services: &Vec<Service>) -> (r: Vec<CheckTask>)
    ensures
        task_views(r@) == planned(views(services@)),
{
    let mut tasks: Vec<CheckTask> = Vec::new();
    let mut i: usize = 0;
    while i < services.len()
        invariant
            i <= services@.len(),
            task_views(tasks@) == planned(views(services@).take(i as int)),
        decreases services@.len() - i,
    {
        let ghost before = views(services@).take(i as int);
        proof {
            assert(views(services@).take(i + 1) =~= before.push(services@[i as int]@));
            before.lemma_filter_push(services@[i as int]@, |x: ServiceView| x.enabled);
        }
        if services[i].enabled {
            let task = CheckTask::for_service(services[i].duplicate());
            let ghost prev = tasks@;
            tasks.push(task);
            proof {
                let x = services@[i as int]@;
                let en = |y: ServiceView| y.enabled;
                assert(before.push(x).filter(en) == before.filter(en).push(x));
                assert(planned(before.push(x)) =~= planned(before).push(task_of(x)));
                assert(task_views(tasks@) =~= task_views(prev).push(task_of(x)));
                assert(task_views(tasks@) =~= planned(views(services@).take(i + 1)));
            }
        } else {
            proof {
                assert(task_views(tasks@) =~= planned(views(services@).take(i + 1)));
            }
        }
        i = i + 1;
    }
    proof {
        assert(views(services@).take(services@.len() as int) =~= views(services@));
    }
    tasks
}

/// The statuses reported by `tasks`, in order, when the `i`-th probe ends with
/// `outcomes[i]`.
pub open spec fn reported(
    tasks: Seq<(ServiceView, CheckAction)>,
    outcomes: Seq<Result<(), ProbeError>>,
) -> Seq<(ServiceView, bool)>
    decreases tasks.len(),
{
    if tasks.len() == 0 || outcomes.len() == 0 {
        seq![]
    } else {
        let rest = reported(tasks.drop_last(), outcomes.drop_last());
        match report_of(tasks.last(), outcomes.last()) {
            Some(status) => rest.push(status),
            None => rest,
        }
    }
}

/// Every enabled service of a supported type yields exactly one status, and no
/// other service yields any, whatever the probes' outcomes: the services that
/// the statuses are about are exactly the eligible ones, in configuration order.
pub proof fn lemma_one_status_per_eligible(
    services: Seq<ServiceView>,
    outcomes: Seq<Result<(), ProbeError>>,
)
    requires
        outcomes.len() == planned(services).len(),
    ensures
        reported(planned(services), outcomes).map_values(|r: (ServiceView, bool)| r.0)
            == services.filter(|x: ServiceView| eligible(x)),
        reported(planned(services), outcomes).len() == services.filter(|x: ServiceView| eligible(x)).len(),
    decreases services.len(),
{
    let en = |x: ServiceView| x.enabled;
    let el = |x: ServiceView| eligible(x);
    let first = |r: (ServiceView, bool)| r.0;
    if services.len() == 0 {
        reveal(Seq::filter);
        assert(services.filter(en) =~= seq![]);
        assert(services.filter(el) =~= seq![]);
        assert(reported(planned(services), outcomes).map_values(first) =~= seq![]);
    } else {
        let init = services.drop_last();
        let x = services.last();
        assert(services =~= init.push(x));
        init.lemma_filter_push(x, en);
        init.lemma_filter_push(x, el);
        if x.enabled {
            assert(planned(services) =~= planned(init).push(task_of(x)));
            assert(planned(services).drop_last() =~= planned(init));
            lemma_one_status_per_eligible(init, outcomes.drop_last());
            let rest = reported(planned(init), outcomes.drop_last());
            if supported(x.service_type) {
                assert(reported(planned(services), outcomes) == rest.push((x, outcomes.last() is Ok)));
                assert(rest.push((x, outcomes.last() is Ok)).map_values(first) =~= rest.map_values(first).push(x));
            } else {
                assert(reported(planned(services), outcomes) == rest);
            }
        } else {
            assert(planned(services) =~= planned(init));
            lemma_one_status_per_eligible(init, outcomes);
        }
    }
}

/// Disabled services are never checked: every task the dispatcher starts is
/// for an enabled service, and a configuration with no enabled service starts
/// none.
pub proof fn lemma_disabled_never_checked(services: Seq<ServiceView>)
    ensures
        forall|i: int| 0 <= i < planned(services).len() ==> (#[trigger] planned(services)[i]).0.enabled,
        (forall|j: int| 0 <= j < services.len() ==> !(#[trigger] services[j]).enabled) ==> planned(
            services,
        ).len() == 0,
{
    let en = |x: ServiceView| x.enabled;
    assert forall|i: int| 0 <= i < planned(services).len() implies (#[trigger] planned(
        services,
    )[i]).0.enabled by {
        services.lemma_filter_pred(en, i);
    }
    if forall|j: int| 0 <= j < services.len() ==> !(#[trigger] services[j]).enabled {
        services.lemma_all_neg_filter_empty(en);
    }
}

/// Services of an unsupported type are skipped and report nothing, while
/// every enabled service still gets its task.
pub proof fn lemma_unsupported_skipped(
    services: Seq<ServiceView>,
    outcomes: Seq<Result<(), ProbeError>>,
)
    ensures
        planned(services).len() == services.filter(|x: ServiceView| x.enabled).len(),
        forall|i: int|
            0 <= i < planned(services).len() && !supported((#[trigger] planned(services)[i]).0.service_type)
                ==> planned(services)[i].1 == CheckAction::Skip && report_of(
                planned(services)[i],
                outcomes[i],
            ) is None,
{
}

} // verus!
