//! What a computation and a configuration write back into the Domain tree.

use crate::cnc::storage::select::contains_id;
use crate::cnc::types::uni_types::{
    Cuc, CucModel, Domain, DomainModel, Stream, StreamModel, StreamStatus,
};
use crate::cnc::types::{FailedInterfaces, FailedInterfacesModel};
use vstd::prelude::*;

verus! {

/// The last Stream of `streams` with the id `stream_id`.
pub open spec fn last_stream(streams: Seq<StreamModel>, stream_id: Seq<char>) -> Option<
    StreamModel,
>
    decreases streams.len(),
{
    if streams.len() == 0 {
        None
    } else if streams.last().stream_id == stream_id {
        Some(streams.last())
    } else {
        last_stream(streams.drop_last(), stream_id)
    }
}

/// The last Stream with the id `stream_id` in the CUCs of `cucs` that have the id `cuc_id`.
pub open spec fn last_stream_of_cuc(
    cucs: Seq<CucModel>,
    cuc_id: Seq<char>,
    stream_id: Seq<char>,
) -> Option<StreamModel>
    decreases cucs.len(),
{
    if cucs.len() == 0 {
        None
    } else {
        let here = if cucs.last().cuc_id == cuc_id {
            last_stream(cucs.last().stream, stream_id)
        } else {
            None
        };
        if here is Some {
            here
        } else {
            last_stream_of_cuc(cucs.drop_last(), cuc_id, stream_id)
        }
    }
}

/// The Stream that `domains` provides for the place `(domain_id, cuc_id, stream_id)`: the last
/// one at that place, where the list names the place more than once.
pub open spec fn provided_stream(
    domains: Seq<DomainModel>,
    domain_id: Seq<char>,
    cuc_id: Seq<char>,
    stream_id: Seq<char>,
) -> Option<StreamModel>
    decreases domains.len(),
{
    if domains.len() == 0 {
        None
    } else {
        let here = if domains.last().domain_id == domain_id {
            last_stream_of_cuc(domains.last().cuc, cuc_id, stream_id)
        } else {
            None
        };
        if here is Some {
            here
        } else {
            provided_stream(domains.drop_last(), domain_id, cuc_id, stream_id)
        }
    }
}

/// A provided Stream has the id that was asked for.
pub proof fn lemma_provided_stream_id(
    domains: Seq<DomainModel>,
    domain_id: Seq<char>,
    cuc_id: Seq<char>,
    stream_id: Seq<char>,
)
    ensures
        provided_stream(domains, domain_id, cuc_id, stream_id) matches Some(s) ==> s.stream_id
            == stream_id,
    decreases domains.len(),
{
    if domains.len() > 0 {
        lemma_last_stream_of_cuc_id(domains.last().cuc, cuc_id, stream_id);
        lemma_provided_stream_id(domains.drop_last(), domain_id, cuc_id, stream_id);
    }
}

/// The Stream that `last_stream_of_cuc` finds has the id that was asked for.
pub proof fn lemma_last_stream_of_cuc_id(
    cucs: Seq<CucModel>,
    cuc_id: Seq<char>,
    stream_id: Seq<char>,
)
    ensures
        last_stream_of_cuc(cucs, cuc_id, stream_id) matches Some(s) ==> s.stream_id == stream_id,
    decreases cucs.len(),
{
    if cucs.len() > 0 {
        lemma_last_stream_id(cucs.last().stream, stream_id);
        lemma_last_stream_of_cuc_id(cucs.drop_last(), cuc_id, stream_id);
    }
}

/// The Stream that `last_stream` finds has the id that was asked for.
pub proof fn lemma_last_stream_id(streams: Seq<StreamModel>, stream_id: Seq<char>)
    ensures
        last_stream(streams, stream_id) matches Some(s) ==> s.stream_id == stream_id,
    decreases streams.len(),
{
    if streams.len() > 0 {
        lemma_last_stream_id(streams.drop_last(), stream_id);
    }
}

/// Finds the last Stream of `streams` with the id `stream_id`.
pub fn find_last_stream<'a>(streams: &'a Vec<Stream>, stream_id: &String) -> (r: Option<&'a Stream>)
    ensures
        r.deep_view() == last_stream(streams.deep_view(), stream_id@),
{
    let ghost all = streams.deep_view();
    let mut i: usize = streams.len();
    proof {
        assert(all.take(i as int) =~= all);
    }
    while i > 0
        invariant
            i <= streams.len(),
            all == streams.deep_view(),
            last_stream(all, stream_id@) == last_stream(all.take(i as int), stream_id@),
        decreases i,
    {
        i -= 1;
        proof {
            assert(all.take(i + 1).drop_last() =~= all.take(i as int));
            assert(all.take(i + 1).last() == all[i as int]);
        }
        if streams[i].stream_id == *stream_id {
            return Some(&streams[i]);
        }
    }
    None
}

/// Finds the last Stream with the id `stream_id` in the CUCs of `cucs` with the id `cuc_id`.
pub fn find_last_stream_of_cuc<'a>(cucs: &'a Vec<Cuc>, cuc_id: &String, stream_id: &String) -> (r:
    Option<&'a Stream>)
    ensures
        r.deep_view() == last_stream_of_cuc(cucs.deep_view(), cuc_id@, stream_id@),
{
    let ghost all = cucs.deep_view();
    let mut i: usize = cucs.len();
    proof {
        assert(all.take(i as int) =~= all);
    }
    while i > 0
        invariant
            i <= cucs.len(),
            all == cucs.deep_view(),
            last_stream_of_cuc(all, cuc_id@, stream_id@) == last_stream_of_cuc(
                all.take(i as int),
                cuc_id@,
                stream_id@,
            ),
        decreases i,
    {
        i -= 1;
        proof {
            assert(all.take(i + 1).drop_last() =~= all.take(i as int));
            assert(all.take(i + 1).last() == all[i as int]);
        }
        if cucs[i].cuc_id == *cuc_id {
            let found = find_last_stream(&cucs[i].stream, stream_id);
            if found.is_some() {
                return found;
            }
        }
    }
    None
}

/// Finds the Stream that `domains` provides for the place `(domain_id, cuc_id, stream_id)`.
pub fn find_provided_stream<'a>(
    domains: &'a Vec<Domain>,
    domain_id: &String,
    cuc_id: &String,
    stream_id: &String,
) -> (r: Option<&'a Stream>)
    ensures
        r.deep_view() == provided_stream(domains.deep_view(), domain_id@, cuc_id@, stream_id@),
{
    let ghost all = domains.deep_view();
    let mut i: usize = domains.len();
    proof {
        assert(all.take(i as int) =~= all);
    }
    while i > 0
        invariant
            i <= domains.len(),
            all == domains.deep_view(),
            provided_stream(all, domain_id@, cuc_id@, stream_id@) == provided_stream(
                all.take(i as int),
                domain_id@,
                cuc_id@,
                stream_id@,
            ),
        decreases i,
    {
        i -= 1;
        proof {
            assert(all.take(i + 1).drop_last() =~= all.take(i as int));
            assert(all.take(i + 1).last() == all[i as int]);
        }
        if domains[i].domain_id == *domain_id {
            let found = find_last_stream_of_cuc(&domains[i].cuc, cuc_id, stream_id);
            if found.is_some() {
                return found;
            }
        }
    }
    None
}

/// What becomes of a Stream of the CUC `cuc_id` of the domain `domain_id` when `changes` is
/// written back: the Stream that `changes` provides for its place, or itself where there is
/// none.
pub open spec fn modified_stream(
    changes: Seq<DomainModel>,
    domain_id: Seq<char>,
    cuc_id: Seq<char>,
) -> spec_fn(StreamModel) -> StreamModel {
    |s: StreamModel|
        match provided_stream(changes, domain_id, cuc_id, s.stream_id) {
            Some(x) => x,
            None => s,
        }
}

/// What becomes of a CUC of the domain `domain_id` when `changes` is written back.
pub open spec fn modified_cuc(changes: Seq<DomainModel>, domain_id: Seq<char>) -> spec_fn(
    CucModel,
) -> CucModel {
    |c: CucModel|
        CucModel {
            cuc_id: c.cuc_id,
            stream: c.stream.map_values(modified_stream(changes, domain_id, c.cuc_id)),
        }
}

/// What becomes of a domain when `changes` is written back.
pub open spec fn modified_domain(changes: Seq<DomainModel>) -> spec_fn(DomainModel) -> DomainModel {
    |d: DomainModel|
        DomainModel {
            domain_id: d.domain_id,
            cnc_enabled: d.cnc_enabled,
            cuc: d.cuc.map_values(modified_cuc(changes, d.domain_id)),
        }
}

/// The tree after `changes` was written back: every Stream for whose place `changes` provides
/// a Stream is replaced by it as a whole.
pub open spec fn tree_modified(tree: Seq<DomainModel>, changes: Seq<DomainModel>) -> Seq<
    DomainModel,
> {
    tree.map_values(modified_domain(changes))
}

/// Writes `changes` back into the CUC `cuc` of the domain `domain_id`.
pub fn modify_cuc(cuc: &mut Cuc, changes: &Vec<Domain>, domain_id: &String)
    ensures
        final(cuc).deep_view() == modified_cuc(changes.deep_view(), domain_id@)(
            old(cuc).deep_view(),
        ),
{
    let ghost before = cuc.deep_view();
    let ghost f = modified_stream(changes.deep_view(), domain_id@, before.cuc_id);
    let mut k: usize = 0;
    while k < cuc.stream.len()
        invariant
            k <= cuc.stream.len(),
            before == old(cuc).deep_view(),
            f == modified_stream(changes.deep_view(), domain_id@, before.cuc_id),
            cuc.cuc_id@ == before.cuc_id,
            cuc.stream.len() == before.stream.len(),
            forall|n: int|
                0 <= n < k ==> #[trigger] cuc.stream.deep_view()[n] == f(before.stream[n]),
            forall|n: int|
                k <= n < cuc.stream.len() ==> #[trigger] cuc.stream.deep_view()[n]
                    == before.stream[n],
        decreases cuc.stream.len() - k,
    {
        let found = find_provided_stream(changes, domain_id, &cuc.cuc_id, &cuc.stream[k].stream_id);
        let ghost cur = cuc.stream.deep_view();
        proof {
            assert(cur[k as int] == before.stream[k as int]);
        }
        match found {
            Some(provided) => {
                cuc.stream[k] = provided.clone();
                proof {
                    assert(cuc.stream.deep_view() =~= cur.update(k as int, provided.deep_view()));
                }
            },
            None => {},
        }
        proof {
            assert forall|n: int| 0 <= n < k + 1 implies #[trigger] cuc.stream.deep_view()[n] == f(
                before.stream[n],
            ) by {
                if n < k {
                    assert(cuc.stream.deep_view()[n] == cur[n]);
                }
            }
            assert forall|n: int| k + 1 <= n < cuc.stream.len() implies #[trigger]
                cuc.stream.deep_view()[n] == before.stream[n] by {
                assert(cuc.stream.deep_view()[n] == cur[n]);
            }
        }
        k += 1;
    }
    proof {
        assert(cuc.stream.deep_view() =~= before.stream.map_values(f));
    }
}

/// Writes `changes` back into `domain`.
pub fn modify_domain(domain: &mut Domain, changes: &Vec<Domain>)
    ensures
        final(domain).deep_view() == modified_domain(changes.deep_view())(old(domain).deep_view()),
{
    let ghost before = domain.deep_view();
    let ghost f = modified_cuc(changes.deep_view(), before.domain_id);
    let mut j: usize = 0;
    while j < domain.cuc.len()
        invariant
            j <= domain.cuc.len(),
            before == old(domain).deep_view(),
            f == modified_cuc(changes.deep_view(), before.domain_id),
            domain.domain_id@ == before.domain_id,
            domain.cnc_enabled == before.cnc_enabled,
            domain.cuc.len() == before.cuc.len(),
            forall|n: int| 0 <= n < j ==> #[trigger] domain.cuc.deep_view()[n] == f(before.cuc[n]),
            forall|n: int|
                j <= n < domain.cuc.len() ==> #[trigger] domain.cuc.deep_view()[n] == before.cuc[n],
        decreases domain.cuc.len() - j,
    {
        let ghost cur = domain.cuc.deep_view();
        modify_cuc(&mut domain.cuc[j], changes, &domain.domain_id);
        proof {
            assert(domain.cuc.deep_view() =~= cur.update(j as int, f(cur[j as int])));
            assert(cur[j as int] == before.cuc[j as int]);
        }
        j += 1;
    }
    proof {
        assert(domain.cuc.deep_view() =~= before.cuc.map_values(f));
    }
}

/// Writes `changes` back into `tree`.
pub fn modify_tree(tree: &mut Vec<Domain>, changes: &Vec<Domain>)
    ensures
        final(tree).deep_view() == tree_modified(old(tree).deep_view(), changes.deep_view()),
{
    let ghost before = tree.deep_view();
    let ghost f = modified_domain(changes.deep_view());
    let mut i: usize = 0;
    while i < tree.len()
        invariant
            i <= tree.len(),
            before == old(tree).deep_view(),
            f == modified_domain(changes.deep_view()),
            tree.len() == before.len(),
            forall|n: int| 0 <= n < i ==> #[trigger] tree.deep_view()[n] == f(before[n]),
            forall|n: int| i <= n < tree.len() ==> #[trigger] tree.deep_view()[n] == before[n],
        decreases tree.len() - i,
    {
        let ghost cur = tree.deep_view();
        modify_domain(&mut tree[i], changes);
        proof {
            assert(tree.deep_view() =~= cur.update(i as int, f(cur[i as int])));
            assert(cur[i as int] == before[i as int]);
        }
        i += 1;
    }
    proof {
        assert(tree.deep_view() =~= before.map_values(f));
    }
}

/// Whether the configuration of a port that the Stream `stream_id` relies on failed.
pub open spec fn stream_failed(failed: FailedInterfacesModel, stream_id: Seq<char>) -> bool {
    exists|i: int|
        0 <= i < failed.interfaces.len() && #[trigger] failed.interfaces[i].affected_streams.contains(
            stream_id,
        )
}

/// Says whether the Stream `stream_id` is among the affected Streams of a failed port.
pub fn is_stream_failed(failed: &FailedInterfaces, stream_id: &String) -> (r: bool)
    ensures
        r == stream_failed(failed.deep_view(), stream_id@),
{
    let mut i: usize = 0;
    while i < failed.interfaces.len()
        invariant
            i <= failed.interfaces.len(),
            forall|j: int|
                0 <= j < i ==> !(#[trigger] failed.deep_view().interfaces[j]).affected_streams.contains(
                    stream_id@,
                ),
        decreases failed.interfaces.len() - i,
    {
        if contains_id(&failed.interfaces[i].affected_streams, stream_id) {
            proof {
                assert(failed.deep_view().interfaces[i as int].affected_streams.contains(stream_id@));
            }
            return true;
        }
        i += 1;
    }
    false
}

/// The status of a Stream after the network was configured for it: configured, or modified
/// where a port it relies on failed.
pub open spec fn status_after_configuration(
    failed: FailedInterfacesModel,
    stream_id: Seq<char>,
) -> StreamStatus {
    if stream_failed(failed, stream_id) {
        StreamStatus::Modified
    } else {
        StreamStatus::Configured
    }
}

/// What becomes of a Stream of the CUC `cuc_id` of the domain `domain_id` when the configuration
/// of `domains` ended with the failures `failed`: a Stream whose place `domains` names takes
/// the status that the configuration left it in, any other stays as it is.
pub open spec fn configured_stream(
    domains: Seq<DomainModel>,
    failed: FailedInterfacesModel,
    domain_id: Seq<char>,
    cuc_id: Seq<char>,
) -> spec_fn(StreamModel) -> StreamModel {
    |s: StreamModel|
        if provided_stream(domains, domain_id, cuc_id, s.stream_id) is Some {
            StreamModel { stream_status: status_after_configuration(failed, s.stream_id), ..s }
        } else {
            s
        }
}

/// What becomes of a CUC of the domain `domain_id` when the configuration of `domains` ended
/// with the failures `failed`.
pub open spec fn configured_cuc(
    domains: Seq<DomainModel>,
    failed: FailedInterfacesModel,
    domain_id: Seq<char>,
) -> spec_fn(CucModel) -> CucModel {
    |c: CucModel|
        CucModel {
            cuc_id: c.cuc_id,
            stream: c.stream.map_values(configured_stream(domains, failed, domain_id, c.cuc_id)),
        }
}

/// What becomes of a domain when the configuration of `domains` ended with the failures
/// `failed`.
pub open spec fn configured_domain(
    domains: Seq<DomainModel>,
    failed: FailedInterfacesModel,
) -> spec_fn(
    DomainModel,
) -> DomainModel {
    |d: DomainModel|
        DomainModel {
            domain_id: d.domain_id,
            cnc_enabled: d.cnc_enabled,
            cuc: d.cuc.map_values(configured_cuc(domains, failed, d.domain_id)),
        }
}

/// The tree after the configuration of `domains` ended with the failures `failed`.
pub open spec fn tree_configured(
    tree: Seq<DomainModel>,
    domains: Seq<DomainModel>,
    failed: FailedInterfacesModel,
) -> Seq<DomainModel> {
    tree.map_values(configured_domain(domains, failed))
}

/// Records in the CUC `cuc` of the domain `domain_id` how the configuration of `domains` ended.
pub fn mark_cuc_configured(
    cuc: &mut Cuc,
    domains: &Vec<Domain>,
    failed: &FailedInterfaces,
    domain_id: &String,
)
    ensures
        final(cuc).deep_view() == configured_cuc(
            domains.deep_view(),
            failed.deep_view(),
            domain_id@,
        )(old(cuc).deep_view()),
{
    let ghost before = cuc.deep_view();
    let ghost f = configured_stream(
        domains.deep_view(),
        failed.deep_view(),
        domain_id@,
        before.cuc_id,
    );
    let mut k: usize = 0;
    while k < cuc.stream.len()
        invariant
            k <= cuc.stream.len(),
            before == old(cuc).deep_view(),
            f == configured_stream(
                domains.deep_view(),
                failed.deep_view(),
                domain_id@,
                before.cuc_id,
            ),
            cuc.cuc_id@ == before.cuc_id,
            cuc.stream.len() == before.stream.len(),
            forall|n: int|
                0 <= n < k ==> #[trigger] cuc.stream.deep_view()[n] == f(before.stream[n]),
            forall|n: int|
                k <= n < cuc.stream.len() ==> #[trigger] cuc.stream.deep_view()[n]
                    == before.stream[n],
        decreases cuc.stream.len() - k,
    {
        let named = find_provided_stream(domains, domain_id, &cuc.cuc_id, &cuc.stream[k].stream_id);
        let ghost cur = cuc.stream.deep_view();
        proof {
            assert(cur[k as int] == before.stream[k as int]);
        }
        if named.is_some() {
            let status = if is_stream_failed(failed, &cuc.stream[k].stream_id) {
                StreamStatus::Modified
            } else {
                StreamStatus::Configured
            };
            cuc.stream[k].stream_status = status;
            proof {
                assert(cuc.stream.deep_view() =~= cur.update(
                    k as int,
                    StreamModel { stream_status: status, ..cur[k as int] },
                ));
            }
        }
        proof {
            assert forall|n: int| 0 <= n < k + 1 implies #[trigger] cuc.stream.deep_view()[n] == f(
                before.stream[n],
            ) by {
                if n < k {
                    assert(cuc.stream.deep_view()[n] == cur[n]);
                }
            }
            assert forall|n: int| k + 1 <= n < cuc.stream.len() implies #[trigger]
                cuc.stream.deep_view()[n] == before.stream[n] by {
                assert(cuc.stream.deep_view()[n] == cur[n]);
            }
        }
        k += 1;
    }
    proof {
        assert(cuc.stream.deep_view() =~= before.stream.map_values(f));
    }
}

/// Records in `domain` how the configuration of `domains` ended.
pub fn mark_domain_configured(domain: &mut Domain, domains: &Vec<Domain>, failed: &FailedInterfaces)
    ensures
        final(domain).deep_view() == configured_domain(domains.deep_view(), failed.deep_view())(
            old(domain).deep_view(),
        ),
{
    let ghost before = domain.deep_view();
    let ghost f = configured_cuc(domains.deep_view(), failed.deep_view(), before.domain_id);
    let mut j: usize = 0;
    while j < domain.cuc.len()
        invariant
            j <= domain.cuc.len(),
            before == old(domain).deep_view(),
            f == configured_cuc(domains.deep_view(), failed.deep_view(), before.domain_id),
            domain.domain_id@ == before.domain_id,
            domain.cnc_enabled == before.cnc_enabled,
            domain.cuc.len() == before.cuc.len(),
            forall|n: int| 0 <= n < j ==> #[trigger] domain.cuc.deep_view()[n] == f(before.cuc[n]),
            forall|n: int|
                j <= n < domain.cuc.len() ==> #[trigger] domain.cuc.deep_view()[n] == before.cuc[n],
        decreases domain.cuc.len() - j,
    {
        let ghost cur = domain.cuc.deep_view();
        mark_cuc_configured(&mut domain.cuc[j], domains, failed, &domain.domain_id);
        proof {
            assert(domain.cuc.deep_view() =~= cur.update(j as int, f(cur[j as int])));
            assert(cur[j as int] == before.cuc[j as int]);
        }
        j += 1;
    }
    proof {
        assert(domain.cuc.deep_view() =~= before.cuc.map_values(f));
    }
}

/// Records in `tree` how the configuration of `domains` ended.
pub fn mark_tree_configured(
    tree: &mut Vec<Domain>,
    domains: &Vec<Domain>,
    failed: &FailedInterfaces,
)
    ensures
        final(tree).deep_view() == tree_configured(
            old(tree).deep_view(),
            domains.deep_view(),
            failed.deep_view(),
        ),
{
    let ghost before = tree.deep_view();
    let ghost f = configured_domain(domains.deep_view(), failed.deep_view());
    let mut i: usize = 0;
    while i < tree.len()
        invariant
            i <= tree.len(),
            before == old(tree).deep_view(),
            f == configured_domain(domains.deep_view(), failed.deep_view()),
            tree.len() == before.len(),
            forall|n: int| 0 <= n < i ==> #[trigger] tree.deep_view()[n] == f(before[n]),
            forall|n: int| i <= n < tree.len() ==> #[trigger] tree.deep_view()[n] == before[n],
        decreases tree.len() - i,
    {
        let ghost cur = tree.deep_view();
        mark_domain_configured(&mut tree[i], domains, failed);
        proof {
            assert(tree.deep_view() =~= cur.update(i as int, f(cur[i as int])));
            assert(cur[i as int] == before[i as int]);
        }
        i += 1;
    }
    proof {
        assert(tree.deep_view() =~= before.map_values(f));
    }
}

} // verus!
