//! Which part of the Domain tree a compute request is about.

use crate::cnc::storage::tree::{is_cuc, is_domain};
use crate::cnc::types::uni_types::compute_streams;
use crate::cnc::types::uni_types::{
    Cuc, CucModel, Domain, DomainModel, Stream, StreamModel, StreamStatus,
};
use vstd::prelude::*;

verus! {

/// Whether a request with the Stream list `list` asks for the Stream `s`. Without a list every
/// Stream is asked for. With `pending_only`, configured Streams are left out.
pub open spec fn stream_wanted(
    s: StreamModel,
    list: Option<Seq<Seq<char>>>,
    pending_only: bool,
) -> bool {
    &&& list matches Some(ids) ==> ids.contains(s.stream_id)
    &&& pending_only ==> s.stream_status != StreamStatus::Configured
}

/// `stream_wanted` as a predicate on Streams.
pub open spec fn wanted(list: Option<Seq<Seq<char>>>, pending_only: bool) -> spec_fn(
    StreamModel,
) -> bool {
    |s: StreamModel| stream_wanted(s, list, pending_only)
}

/// The copy of a CUC that a request for `req` gets: the CUC with the Streams asked for.
pub open spec fn selected_cuc(
    c: CucModel,
    req: compute_streams::CucElementModel,
    pending_only: bool,
) -> CucModel {
    CucModel { cuc_id: c.cuc_id, stream: c.stream.filter(wanted(req.stream_list, pending_only)) }
}

/// `selected_cuc` as a function of the CUC.
pub open spec fn select_cuc(req: compute_streams::CucElementModel, pending_only: bool) -> spec_fn(
    CucModel,
) -> CucModel {
    |c: CucModel| selected_cuc(c, req, pending_only)
}

/// What a request for the CUC `req` gets out of `cucs`: a copy of each CUC with that id.
pub open spec fn selected_cucs_of(
    cucs: Seq<CucModel>,
    req: compute_streams::CucElementModel,
    pending_only: bool,
) -> Seq<CucModel> {
    cucs.filter(is_cuc(req.cuc_id)).map_values(select_cuc(req, pending_only))
}

/// `selected_cucs_of` as a function of the request.
pub open spec fn select_cucs_of(cucs: Seq<CucModel>, pending_only: bool) -> spec_fn(
    compute_streams::CucElementModel,
) -> Seq<CucModel> {
    |req: compute_streams::CucElementModel| selected_cucs_of(cucs, req, pending_only)
}

/// The copy of a domain that a request for `req` gets: for each CUC of the request, in the
/// order of the request, the copies of the domain's CUCs with that id.
pub open spec fn selected_domain(
    d: DomainModel,
    req: compute_streams::DomainModel,
    pending_only: bool,
) -> DomainModel {
    DomainModel {
        domain_id: d.domain_id,
        cnc_enabled: d.cnc_enabled,
        cuc: req.cuc.flat_map(select_cucs_of(d.cuc, pending_only)),
    }
}

/// `selected_domain` as a function of the domain.
pub open spec fn select_domain(req: compute_streams::DomainModel, pending_only: bool) -> spec_fn(
    DomainModel,
) -> DomainModel {
    |d: DomainModel| selected_domain(d, req, pending_only)
}

/// What a request for the domain `req` gets out of the tree: a copy of each domain with that id.
pub open spec fn selected_domains_of(
    tree: Seq<DomainModel>,
    req: compute_streams::DomainModel,
    pending_only: bool,
) -> Seq<DomainModel> {
    tree.filter(is_domain(req.domain_id)).map_values(select_domain(req, pending_only))
}

/// `selected_domains_of` as a function of the request.
pub open spec fn select_domains_of(tree: Seq<DomainModel>, pending_only: bool) -> spec_fn(
    compute_streams::DomainModel,
) -> Seq<DomainModel> {
    |req: compute_streams::DomainModel| selected_domains_of(tree, req, pending_only)
}

/// What a request gets out of the tree: for each domain of the request, in the order of the
/// request, the copies of the tree's domains with that id.
pub open spec fn selected(
    tree: Seq<DomainModel>,
    request: Seq<compute_streams::DomainModel>,
    pending_only: bool,
) -> Seq<DomainModel> {
    request.flat_map(select_domains_of(tree, pending_only))
}

/// Says whether `id` is among `ids`.
pub fn contains_id(ids: &Vec<String>, id: &String) -> (r: bool)
    ensures
        r == ids.deep_view().contains(id@),
{
    let mut i: usize = 0;
    while i < ids.len()
        invariant
            i <= ids.len(),
            forall|j: int| 0 <= j < i ==> ids.deep_view()[j] != id@,
        decreases ids.len() - i,
    {
        if ids[i] == *id {
            proof {
                assert(ids.deep_view()[i as int] == id@);
            }
            return true;
        }
        i += 1;
    }
    false
}

/// Says whether a request with the Stream list `list` asks for `stream`.
pub fn is_stream_wanted(
    stream: &Stream,
    list: &Option<Vec<String>>,
    pending_only: bool,
) -> (r: bool)
    ensures
        r == stream_wanted(stream.deep_view(), list.deep_view(), pending_only),
{
    let listed = match list {
        Some(ids) => contains_id(ids, &stream.stream_id),
        None => true,
    };
    let pending = match stream.stream_status {
        StreamStatus::Configured => false,
        _ => true,
    };
    listed && (!pending_only || pending)
}

/// Copies the Streams of `cuc` that the request `req` asks for.
pub fn copy_selected_cuc(
    cuc: &Cuc,
    req: &compute_streams::CucElement,
    pending_only: bool,
) -> (r: Cuc)
    ensures
        r.deep_view() == selected_cuc(cuc.deep_view(), req.deep_view(), pending_only),
{
    let ghost pred = wanted(req.deep_view().stream_list, pending_only);
    let ghost all = cuc.deep_view().stream;
    let mut streams: Vec<Stream> = Vec::new();
    let mut i: usize = 0;
    proof {
        reveal(Seq::filter);
        assert(all.take(0).filter(pred) =~= Seq::<StreamModel>::empty());
        assert(streams.deep_view() =~= Seq::<StreamModel>::empty());
    }
    while i < cuc.stream.len()
        invariant
            i <= cuc.stream.len(),
            all == cuc.deep_view().stream,
            pred == wanted(req.deep_view().stream_list, pending_only),
            streams.deep_view() == all.take(i as int).filter(pred),
        decreases cuc.stream.len() - i,
    {
        let ghost before = streams.deep_view();
        if is_stream_wanted(&cuc.stream[i], &req.stream_list, pending_only) {
            streams.push(cuc.stream[i].clone());
            proof {
                assert(streams.deep_view() =~= before.push(all[i as int]));
            }
        }
        proof {
            assert(all.take(i + 1) =~= all.take(i as int).push(all[i as int]));
            all.take(i as int).lemma_filter_push(all[i as int], pred);
        }
        i += 1;
    }
    proof {
        assert(all.take(i as int) =~= all);
    }
    Cuc { cuc_id: cuc.cuc_id.clone(), stream: streams }
}

/// Copies, for the request `req`, each CUC of `cucs` that has its id, to the end of `out`.
pub fn copy_selected_cucs_of(
    out: &mut Vec<Cuc>,
    cucs: &Vec<Cuc>,
    req: &compute_streams::CucElement,
    pending_only: bool,
)
    ensures
        final(out).deep_view() == old(out).deep_view() + selected_cucs_of(
            cucs.deep_view(),
            req.deep_view(),
            pending_only,
        ),
{
    let ghost all = cucs.deep_view();
    let ghost pred = is_cuc(req.deep_view().cuc_id);
    let ghost f = select_cuc(req.deep_view(), pending_only);
    let ghost start = out.deep_view();
    let mut i: usize = 0;
    proof {
        reveal(Seq::filter);
        assert(all.take(0).filter(pred) =~= Seq::<CucModel>::empty());
        assert(out.deep_view() =~= start + all.take(0).filter(pred).map_values(f));
    }
    while i < cucs.len()
        invariant
            i <= cucs.len(),
            all == cucs.deep_view(),
            pred == is_cuc(req.deep_view().cuc_id),
            f == select_cuc(req.deep_view(), pending_only),
            out.deep_view() == start + all.take(i as int).filter(pred).map_values(f),
        decreases cucs.len() - i,
    {
        let ghost before = out.deep_view();
        if cucs[i].cuc_id == req.cuc_id {
            let copy = copy_selected_cuc(&cucs[i], req, pending_only);
            out.push(copy);
            proof {
                assert(out.deep_view() =~= before.push(f(all[i as int])));
            }
        }
        proof {
            assert(all.take(i + 1) =~= all.take(i as int).push(all[i as int]));
            all.take(i as int).lemma_filter_push(all[i as int], pred);
            all.take(i as int).filter(pred).lemma_push_map_commute(f, all[i as int]);
            assert(out.deep_view() =~= start + all.take(i + 1).filter(pred).map_values(f));
        }
        i += 1;
    }
    proof {
        assert(all.take(i as int) =~= all);
    }
}

/// Copies what the request `req` asks for out of `domain`.
pub fn copy_selected_domain(
    domain: &Domain,
    req: &compute_streams::Domain,
    pending_only: bool,
) -> (r: Domain)
    ensures
        r.deep_view() == selected_domain(domain.deep_view(), req.deep_view(), pending_only),
{
    let ghost reqs = req.deep_view().cuc;
    let ghost f = select_cucs_of(domain.deep_view().cuc, pending_only);
    let mut out: Vec<Cuc> = Vec::new();
    let mut i: usize = 0;
    proof {
        assert(reqs.take(0).flat_map(f) =~= Seq::<CucModel>::empty());
        assert(out.deep_view() =~= Seq::<CucModel>::empty());
    }
    while i < req.cuc.len()
        invariant
            i <= req.cuc.len(),
            reqs == req.deep_view().cuc,
            f == select_cucs_of(domain.deep_view().cuc, pending_only),
            out.deep_view() == reqs.take(i as int).flat_map(f),
        decreases req.cuc.len() - i,
    {
        copy_selected_cucs_of(&mut out, &domain.cuc, &req.cuc[i], pending_only);
        proof {
            reqs.lemma_flat_map_take_append(f, i as int);
        }
        i += 1;
    }
    proof {
        assert(reqs.take(i as int) =~= reqs);
    }
    Domain { domain_id: domain.domain_id.clone(), cnc_enabled: domain.cnc_enabled, cuc: out }
}

/// Copies, for the request `req`, each domain of `tree` that has its id, to the end of `out`.
pub fn copy_selected_domains_of(
    out: &mut Vec<Domain>,
    tree: &Vec<Domain>,
    req: &compute_streams::Domain,
    pending_only: bool,
)
    ensures
        final(out).deep_view() == old(out).deep_view() + selected_domains_of(
            tree.deep_view(),
            req.deep_view(),
            pending_only,
        ),
{
    let ghost all = tree.deep_view();
    let ghost pred = is_domain(req.deep_view().domain_id);
    let ghost f = select_domain(req.deep_view(), pending_only);
    let ghost start = out.deep_view();
    let mut i: usize = 0;
    proof {
        reveal(Seq::filter);
        assert(all.take(0).filter(pred) =~= Seq::<DomainModel>::empty());
        assert(out.deep_view() =~= start + all.take(0).filter(pred).map_values(f));
    }
    while i < tree.len()
        invariant
            i <= tree.len(),
            all == tree.deep_view(),
            pred == is_domain(req.deep_view().domain_id),
            f == select_domain(req.deep_view(), pending_only),
            out.deep_view() == start + all.take(i as int).filter(pred).map_values(f),
        decreases tree.len() - i,
    {
        let ghost before = out.deep_view();
        if tree[i].domain_id == req.domain_id {
            let copy = copy_selected_domain(&tree[i], req, pending_only);
            out.push(copy);
            proof {
                assert(out.deep_view() =~= before.push(f(all[i as int])));
            }
        }
        proof {
            assert(all.take(i + 1) =~= all.take(i as int).push(all[i as int]));
            all.take(i as int).lemma_filter_push(all[i as int], pred);
            all.take(i as int).filter(pred).lemma_push_map_commute(f, all[i as int]);
            assert(out.deep_view() =~= start + all.take(i + 1).filter(pred).map_values(f));
        }
        i += 1;
    }
    proof {
        assert(all.take(i as int) =~= all);
    }
}

/// Copies what `request` asks for out of `tree`.
pub fn copy_selected(
    tree: &Vec<Domain>,
    request: &Vec<compute_streams::Domain>,
    pending_only: bool,
) -> (r: Vec<Domain>)
    ensures
        r.deep_view() == selected(tree.deep_view(), request.deep_view(), pending_only),
{
    let ghost reqs = request.deep_view();
    let ghost f = select_domains_of(tree.deep_view(), pending_only);
    let mut out: Vec<Domain> = Vec::new();
    let mut i: usize = 0;
    proof {
        assert(reqs.take(0).flat_map(f) =~= Seq::<DomainModel>::empty());
        assert(out.deep_view() =~= Seq::<DomainModel>::empty());
    }
    while i < request.len()
        invariant
            i <= request.len(),
            reqs == request.deep_view(),
            f == select_domains_of(tree.deep_view(), pending_only),
            out.deep_view() == reqs.take(i as int).flat_map(f),
        decreases request.len() - i,
    {
        copy_selected_domains_of(&mut out, tree, &request[i], pending_only);
        proof {
            reqs.lemma_flat_map_take_append(f, i as int);
        }
        i += 1;
    }
    proof {
        assert(reqs.take(i as int) =~= reqs);
    }
    out
}

} // verus!
