//! The notifications that tell the CUCs how a computation and a configuration ended.

use crate::cnc::storage::update::{is_stream_failed, stream_failed};
use crate::cnc::types::notification_types;
use crate::cnc::types::notification_types::NotificationContent;
use crate::cnc::types::uni_types::{Cuc, CucModel, Domain, DomainModel, Stream, StreamModel};
use crate::cnc::types::{
    FailedInterfaces, FailedInterfacesModel, FailedStream, FailedStreamModel,
};
use vstd::prelude::*;

verus! {

/// Whether the scheduler reported the Stream at the place `(domain_id, cuc_id, stream_id)` as
/// one it could not place.
pub open spec fn stream_unplaced(
    failed: Seq<FailedStreamModel>,
    domain_id: Seq<char>,
    cuc_id: Seq<char>,
    stream_id: Seq<char>,
) -> bool {
    exists|i: int|
        0 <= i < failed.len() && (#[trigger] failed[i]).stream_id == stream_id && failed[i].cuc_id
            == cuc_id && failed[i].domain_id == domain_id
}

/// Says whether the scheduler reported the Stream at the place
/// `(domain_id, cuc_id, stream_id)` as one it could not place.
pub fn is_stream_unplaced(
    failed: &Vec<FailedStream>,
    domain_id: &String,
    cuc_id: &String,
    stream_id: &String,
) -> (r: bool)
    ensures
        r == stream_unplaced(failed.deep_view(), domain_id@, cuc_id@, stream_id@),
{
    let mut i: usize = 0;
    while i < failed.len()
        invariant
            i <= failed.len(),
            forall|j: int|
                0 <= j < i ==> !((#[trigger] failed.deep_view()[j]).stream_id == stream_id@
                    && failed.deep_view()[j].cuc_id == cuc_id@ && failed.deep_view()[j].domain_id
                    == domain_id@),
        decreases failed.len() - i,
    {
        if failed[i].stream_id == *stream_id && failed[i].cuc_id == *cuc_id && failed[i].domain_id
            == *domain_id {
            proof {
                let f = failed.deep_view()[i as int];
                assert(f.stream_id == stream_id@ && f.cuc_id == cuc_id@ && f.domain_id
                    == domain_id@);
            }
            return true;
        }
        i += 1;
    }
    false
}

/// What a notification reports on: the failures of a computation or those of a configuration.
pub enum Failures<'a> {
    /// The Streams that the scheduler could not place.
    Computation(&'a Vec<FailedStream>),
    /// The ports whose configuration failed.
    Configuration(&'a FailedInterfaces),
}

/// What a [`Failures`] holds, as a mathematical value.
pub enum FailuresModel {
    Computation(Seq<FailedStreamModel>),
    Configuration(FailedInterfacesModel),
}

impl<'a> DeepView for Failures<'a> {
    type V = FailuresModel;

    open spec fn deep_view(&self) -> FailuresModel {
        match self {
            Failures::Computation(f) => FailuresModel::Computation(f.deep_view()),
            Failures::Configuration(f) => FailuresModel::Configuration(f.deep_view()),
        }
    }
}

/// The failure code that a notification gives the Stream at the place
/// `(domain_id, cuc_id, stream_id)`: 1 where the Stream failed, else 0. After a computation a
/// Stream failed if the scheduler reported its place; after a configuration, if its id is
/// among the affected Streams of a failed port.
pub open spec fn failure_code(
    failures: FailuresModel,
    domain_id: Seq<char>,
    cuc_id: Seq<char>,
    stream_id: Seq<char>,
) -> u8 {
    let failed = match failures {
        FailuresModel::Computation(f) => stream_unplaced(f, domain_id, cuc_id, stream_id),
        FailuresModel::Configuration(f) => stream_failed(f, stream_id),
    };
    if failed {
        1
    } else {
        0
    }
}

/// The entry of a notification for a Stream of the CUC `cuc_id` of the domain `domain_id`.
pub open spec fn notified_stream(
    failures: FailuresModel,
    domain_id: Seq<char>,
    cuc_id: Seq<char>,
) -> spec_fn(
    StreamModel,
) -> notification_types::StreamModel {
    |s: StreamModel|
        notification_types::StreamModel {
            stream_id: s.stream_id,
            failure_code: failure_code(failures, domain_id, cuc_id, s.stream_id),
        }
}

/// The entry of a notification for a CUC of the domain `domain_id`: one entry for each of its
/// Streams, in their order.
pub open spec fn notified_cuc(failures: FailuresModel, domain_id: Seq<char>) -> spec_fn(
    CucModel,
) -> notification_types::CucModel {
    |c: CucModel|
        notification_types::CucModel {
            cuc_id: c.cuc_id,
            streams: c.stream.map_values(notified_stream(failures, domain_id, c.cuc_id)),
        }
}

/// The entry of a notification for a domain: one entry for each of its CUCs, in their order.
pub open spec fn notified_domain(failures: FailuresModel) -> spec_fn(
    DomainModel,
) -> notification_types::DomainModel {
    |d: DomainModel|
        notification_types::DomainModel {
            domain_id: d.domain_id,
            cucs: d.cuc.map_values(notified_cuc(failures, d.domain_id)),
        }
}

/// The notification about `domains`: it lists exactly the Streams of `domains`, domain by
/// domain and CUC by CUC in their order, each with its failure code.
pub open spec fn notification(domains: Seq<DomainModel>, failures: FailuresModel) -> Seq<
    notification_types::DomainModel,
> {
    domains.map_values(notified_domain(failures))
}

/// The notification that ends a computation.
pub open spec fn computation_notification(
    domains: Seq<DomainModel>,
    failed_streams: Seq<FailedStreamModel>,
) -> Seq<notification_types::DomainModel> {
    notification(domains, FailuresModel::Computation(failed_streams))
}

/// The notification that ends a configuration.
pub open spec fn configuration_notification(
    domains: Seq<DomainModel>,
    failed_interfaces: FailedInterfacesModel,
) -> Seq<notification_types::DomainModel> {
    notification(domains, FailuresModel::Configuration(failed_interfaces))
}

/// Builds the entry of a notification for `cuc`, a CUC of the domain `domain_id`.
fn notify_cuc(cuc: &Cuc, failures: &Failures, domain_id: &String) -> (r: notification_types::Cuc)
    ensures
        r.deep_view() == notified_cuc(failures.deep_view(), domain_id@)(cuc.deep_view()),
{
    let ghost f = notified_stream(failures.deep_view(), domain_id@, cuc.cuc_id@);
    let ghost all = cuc.deep_view().stream;
    let mut streams: Vec<notification_types::Stream> = Vec::new();
    let mut k: usize = 0;
    proof {
        assert(streams.deep_view() =~= all.take(0).map_values(f));
    }
    while k < cuc.stream.len()
        invariant
            k <= cuc.stream.len(),
            all == cuc.deep_view().stream,
            f == notified_stream(failures.deep_view(), domain_id@, cuc.cuc_id@),
            streams.deep_view() == all.take(k as int).map_values(f),
        decreases cuc.stream.len() - k,
    {
        let stream = &cuc.stream[k];
        let failed = match failures {
            Failures::Computation(unplaced) => is_stream_unplaced(
                unplaced,
                domain_id,
                &cuc.cuc_id,
                &stream.stream_id,
            ),
            Failures::Configuration(interfaces) => is_stream_failed(interfaces, &stream.stream_id),
        };
        let failure_code: u8 = if failed {
            1
        } else {
            0
        };
        let ghost before = streams.deep_view();
        streams.push(notification_types::Stream {
            stream_id: stream.stream_id.clone(),
            failure_code,
        });
        proof {
            assert(streams.deep_view() =~= before.push(f(all[k as int])));
            assert(all.take(k + 1) =~= all.take(k as int).push(all[k as int]));
            all.take(k as int).lemma_push_map_commute(f, all[k as int]);
        }
        k += 1;
    }
    proof {
        assert(all.take(k as int) =~= all);
    }
    notification_types::Cuc { cuc_id: cuc.cuc_id.clone(), streams }
}

/// Builds the entry of a notification for `domain`.
fn notify_domain(domain: &Domain, failures: &Failures) -> (r: notification_types::Domain)
    ensures
        r.deep_view() == notified_domain(failures.deep_view())(domain.deep_view()),
{
    let ghost f = notified_cuc(failures.deep_view(), domain.domain_id@);
    let ghost all = domain.deep_view().cuc;
    let mut cucs: Vec<notification_types::Cuc> = Vec::new();
    let mut j: usize = 0;
    proof {
        assert(cucs.deep_view() =~= all.take(0).map_values(f));
    }
    while j < domain.cuc.len()
        invariant
            j <= domain.cuc.len(),
            all == domain.deep_view().cuc,
            f == notified_cuc(failures.deep_view(), domain.domain_id@),
            cucs.deep_view() == all.take(j as int).map_values(f),
        decreases domain.cuc.len() - j,
    {
        let ghost before = cucs.deep_view();
        cucs.push(notify_cuc(&domain.cuc[j], failures, &domain.domain_id));
        proof {
            assert(cucs.deep_view() =~= before.push(f(all[j as int])));
            assert(all.take(j + 1) =~= all.take(j as int).push(all[j as int]));
            all.take(j as int).lemma_push_map_commute(f, all[j as int]);
        }
        j += 1;
    }
    proof {
        assert(all.take(j as int) =~= all);
    }
    notification_types::Domain { domain_id: domain.domain_id.clone(), cucs }
}

/// Builds the notification about `domains`.
pub fn create_notification(domains: &Vec<Domain>, failures: &Failures) -> (r: NotificationContent)
    ensures
        r.deep_view() == notification(domains.deep_view(), failures.deep_view()),
{
    let ghost f = notified_domain(failures.deep_view());
    let ghost all = domains.deep_view();
    let mut out: Vec<notification_types::Domain> = Vec::new();
    let mut i: usize = 0;
    proof {
        assert(out.deep_view() =~= all.take(0).map_values(f));
    }
    while i < domains.len()
        invariant
            i <= domains.len(),
            all == domains.deep_view(),
            f == notified_domain(failures.deep_view()),
            out.deep_view() == all.take(i as int).map_values(f),
        decreases domains.len() - i,
    {
        let ghost before = out.deep_view();
        out.push(notify_domain(&domains[i], failures));
        proof {
            assert(out.deep_view() =~= before.push(f(all[i as int])));
            assert(all.take(i + 1) =~= all.take(i as int).push(all[i as int]));
            all.take(i as int).lemma_push_map_commute(f, all[i as int]);
        }
        i += 1;
    }
    proof {
        assert(all.take(i as int) =~= all);
    }
    out
}

/// Builds the notification that ends a computation: every Stream of `domains`, with failure
/// code 1 exactly where `failed_streams` names its place.
pub fn create_computation_notification(
    domains: &Vec<Domain>,
    failed_streams: &Vec<FailedStream>,
) -> (r: NotificationContent)
    ensures
        r.deep_view() == computation_notification(domains.deep_view(), failed_streams.deep_view()),
{
    create_notification(domains, &Failures::Computation(failed_streams))
}

/// Builds the notification that ends a configuration: every Stream of `domains`, with failure
/// code 1 exactly where its id is among the affected Streams of a failed port.
pub fn create_configuration_notification(
    domains: &Vec<Domain>,
    failed_interfaces: &FailedInterfaces,
) -> (r: NotificationContent)
    ensures
        r.deep_view() == configuration_notification(
            domains.deep_view(),
            failed_interfaces.deep_view(),
        ),
{
    create_notification(domains, &Failures::Configuration(failed_interfaces))
}

/// A notification lists exactly the Streams of the domains it is about: it has a domain for
/// each domain, a CUC for each CUC and a Stream for each Stream, in the same order and with
/// the same ids.
pub proof fn lemma_notification_covers_streams(domains: Seq<DomainModel>, failures: FailuresModel)
    ensures
        notification(domains, failures).len() == domains.len(),
        forall|i: int|
            0 <= i < domains.len() ==> (#[trigger] notification(domains, failures)[i]).domain_id
                == domains[i].domain_id && notification(domains, failures)[i].cucs.len()
                == domains[i].cuc.len(),
        forall|i: int, j: int|
            0 <= i < domains.len() && 0 <= j < domains[i].cuc.len() ==> (
            #[trigger] notification(domains, failures)[i].cucs[j]).cuc_id
                == domains[i].cuc[j].cuc_id && notification(
                domains,
                failures,
            )[i].cucs[j].streams.len() == domains[i].cuc[j].stream.len(),
        forall|i: int, j: int, k: int|
            0 <= i < domains.len() && 0 <= j < domains[i].cuc.len() && 0 <= k
                < domains[i].cuc[j].stream.len() ==> (#[trigger] notification(
                domains,
                failures,
            )[i].cucs[j].streams[k]).stream_id == domains[i].cuc[j].stream[k].stream_id,
{
}

} // verus!
