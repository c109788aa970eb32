//! The invariants of the Domain tree, and that every operation of the store keeps them.

use crate::cnc::search::{first_index, lemma_first_index, lemma_first_index_is};
use crate::cnc::storage::tree::{
    cuc_with_stream, cuc_without_stream, domain_with_stream, domain_without_stream,
    domain_without_streams, find_cuc_index, find_domain_index, find_stream_index, is_cuc,
    is_domain, is_stream, stream_at, tree_holds_domain, tree_holds_stream, tree_with_stream,
    tree_without_stream, tree_without_streams,
};
use crate::cnc::storage::tree_with_streams;
use crate::cnc::storage::update::{
    lemma_provided_stream_id, modified_stream, provided_stream, stream_failed, tree_configured,
    tree_modified,
};
use crate::cnc::types::uni_types::{
    Cuc, CucModel, Domain, DomainModel, Stream, StreamModel, StreamStatus,
};
use crate::cnc::types::FailedInterfacesModel;
use vstd::prelude::*;

verus! {

/// No two Streams of the list have the same id.
pub open spec fn stream_ids_distinct(streams: Seq<StreamModel>) -> bool {
    forall|a: int, b: int|
        0 <= a < b < streams.len() ==> (#[trigger] streams[a]).stream_id != (
        #[trigger] streams[b]).stream_id
}

/// No two CUCs of the list have the same id.
pub open spec fn cuc_ids_distinct(cucs: Seq<CucModel>) -> bool {
    forall|a: int, b: int|
        0 <= a < b < cucs.len() ==> (#[trigger] cucs[a]).cuc_id != (#[trigger] cucs[b]).cuc_id
}

/// No two domains of the list have the same id.
pub open spec fn domain_ids_distinct(tree: Seq<DomainModel>) -> bool {
    forall|a: int, b: int|
        0 <= a < b < tree.len() ==> (#[trigger] tree[a]).domain_id != (
        #[trigger] tree[b]).domain_id
}

/// A domain whose CUCs have distinct ids, each with Streams of distinct ids.
pub open spec fn domain_well_formed(d: DomainModel) -> bool {
    &&& cuc_ids_distinct(d.cuc)
    &&& forall|j: int| 0 <= j < d.cuc.len() ==> stream_ids_distinct((#[trigger] d.cuc[j]).stream)
}

/// The invariant of the Domain tree: domain ids are distinct, within a domain CUC ids are
/// distinct, and within a CUC Stream ids are distinct.
pub open spec fn tree_well_formed(tree: Seq<DomainModel>) -> bool {
    &&& domain_ids_distinct(tree)
    &&& forall|i: int| 0 <= i < tree.len() ==> domain_well_formed(#[trigger] tree[i])
}

/// Says whether no two Streams of the list have the same id.
pub fn are_stream_ids_distinct(streams: &Vec<Stream>) -> (r: bool)
    ensures
        r == stream_ids_distinct(streams.deep_view()),
{
    let ghost all = streams.deep_view();
    let mut b: usize = 0;
    while b < streams.len()
        invariant
            b <= streams.len(),
            all == streams.deep_view(),
            forall|x: int, y: int|
                0 <= x < y < b ==> (#[trigger] all[x]).stream_id != (#[trigger] all[y]).stream_id,
        decreases streams.len() - b,
    {
        let first = find_stream_index(streams, &streams[b].stream_id);
        proof {
            lemma_first_index(all, is_stream(all[b as int].stream_id));
            if first > b {
                assert(!is_stream(all[b as int].stream_id)(all[b as int]));
            }
        }
        if first != b {
            proof {
                assert(all[first as int].stream_id == all[b as int].stream_id);
            }
            return false;
        }
        proof {
            assert forall|x: int, y: int| 0 <= x < y < b + 1 implies (#[trigger] all[x]).stream_id
                != (#[trigger] all[y]).stream_id by {
                if y == b {
                    assert(!is_stream(all[b as int].stream_id)(all[x]));
                }
            }
        }
        b += 1;
    }
    true
}

/// Says whether no two CUCs of the list have the same id.
pub fn are_cuc_ids_distinct(cucs: &Vec<Cuc>) -> (r: bool)
    ensures
        r == cuc_ids_distinct(cucs.deep_view()),
{
    let ghost all = cucs.deep_view();
    let mut b: usize = 0;
    while b < cucs.len()
        invariant
            b <= cucs.len(),
            all == cucs.deep_view(),
            forall|x: int, y: int|
                0 <= x < y < b ==> (#[trigger] all[x]).cuc_id != (#[trigger] all[y]).cuc_id,
        decreases cucs.len() - b,
    {
        let first = find_cuc_index(cucs, &cucs[b].cuc_id);
        proof {
            lemma_first_index(all, is_cuc(all[b as int].cuc_id));
            if first > b {
                assert(!is_cuc(all[b as int].cuc_id)(all[b as int]));
            }
        }
        if first != b {
            proof {
                assert(all[first as int].cuc_id == all[b as int].cuc_id);
            }
            return false;
        }
        proof {
            assert forall|x: int, y: int| 0 <= x < y < b + 1 implies (#[trigger] all[x]).cuc_id != (
            #[trigger] all[y]).cuc_id by {
                if y == b {
                    assert(!is_cuc(all[b as int].cuc_id)(all[x]));
                }
            }
        }
        b += 1;
    }
    true
}

/// Says whether no two domains of the list have the same id.
pub fn are_domain_ids_distinct(tree: &Vec<Domain>) -> (r: bool)
    ensures
        r == domain_ids_distinct(tree.deep_view()),
{
    let ghost all = tree.deep_view();
    let mut b: usize = 0;
    while b < tree.len()
        invariant
            b <= tree.len(),
            all == tree.deep_view(),
            forall|x: int, y: int|
                0 <= x < y < b ==> (#[trigger] all[x]).domain_id != (#[trigger] all[y]).domain_id,
        decreases tree.len() - b,
    {
        let first = find_domain_index(tree, &tree[b].domain_id);
        proof {
            lemma_first_index(all, is_domain(all[b as int].domain_id));
            if first > b {
                assert(!is_domain(all[b as int].domain_id)(all[b as int]));
            }
        }
        if first != b {
            proof {
                assert(all[first as int].domain_id == all[b as int].domain_id);
            }
            return false;
        }
        proof {
            assert forall|x: int, y: int| 0 <= x < y < b + 1 implies (#[trigger] all[x]).domain_id
                != (#[trigger] all[y]).domain_id by {
                if y == b {
                    assert(!is_domain(all[b as int].domain_id)(all[x]));
                }
            }
        }
        b += 1;
    }
    true
}

/// Says whether the domain is well-formed.
pub fn is_domain_well_formed(domain: &Domain) -> (r: bool)
    ensures
        r == domain_well_formed(domain.deep_view()),
{
    if !are_cuc_ids_distinct(&domain.cuc) {
        return false;
    }
    let ghost all = domain.deep_view().cuc;
    let mut j: usize = 0;
    while j < domain.cuc.len()
        invariant
            j <= domain.cuc.len(),
            all == domain.deep_view().cuc,
            cuc_ids_distinct(all),
            forall|n: int| 0 <= n < j ==> stream_ids_distinct((#[trigger] all[n]).stream),
        decreases domain.cuc.len() - j,
    {
        if !are_stream_ids_distinct(&domain.cuc[j].stream) {
            proof {
                assert(!stream_ids_distinct(all[j as int].stream));
            }
            return false;
        }
        j += 1;
    }
    true
}

/// Says whether the tree is well-formed.
pub fn is_tree_well_formed(tree: &Vec<Domain>) -> (r: bool)
    ensures
        r == tree_well_formed(tree.deep_view()),
{
    if !are_domain_ids_distinct(tree) {
        return false;
    }
    let ghost all = tree.deep_view();
    let mut i: usize = 0;
    while i < tree.len()
        invariant
            i <= tree.len(),
            all == tree.deep_view(),
            domain_ids_distinct(all),
            forall|n: int| 0 <= n < i ==> domain_well_formed(#[trigger] all[n]),
        decreases tree.len() - i,
    {
        if !is_domain_well_formed(&tree[i]) {
            proof {
                assert(!domain_well_formed(all[i as int]));
            }
            return false;
        }
        i += 1;
    }
    true
}

/// In a well-formed tree a place `(domain_id, cuc_id, stream_id)` names at most one Stream:
/// two Streams whose domains, CUCs and own ids agree are the same entry of the tree.
pub proof fn lemma_place_names_one_stream(
    tree: Seq<DomainModel>,
    i1: int,
    j1: int,
    k1: int,
    i2: int,
    j2: int,
    k2: int,
)
    requires
        tree_well_formed(tree),
        0 <= i1 < tree.len(),
        0 <= j1 < tree[i1].cuc.len(),
        0 <= k1 < tree[i1].cuc[j1].stream.len(),
        0 <= i2 < tree.len(),
        0 <= j2 < tree[i2].cuc.len(),
        0 <= k2 < tree[i2].cuc[j2].stream.len(),
        tree[i1].domain_id == tree[i2].domain_id,
        tree[i1].cuc[j1].cuc_id == tree[i2].cuc[j2].cuc_id,
        tree[i1].cuc[j1].stream[k1].stream_id == tree[i2].cuc[j2].stream[k2].stream_id,
    ensures
        i1 == i2,
        j1 == j2,
        k1 == k2,
{
    if i1 < i2 {
        assert(tree[i1].domain_id != tree[i2].domain_id);
    } else if i2 < i1 {
        assert(tree[i2].domain_id != tree[i1].domain_id);
    }
    let d = tree[i1];
    assert(domain_well_formed(d));
    if j1 < j2 {
        assert(d.cuc[j1].cuc_id != d.cuc[j2].cuc_id);
    } else if j2 < j1 {
        assert(d.cuc[j2].cuc_id != d.cuc[j1].cuc_id);
    }
    let s = d.cuc[j1].stream;
    assert(stream_ids_distinct(s));
    if k1 < k2 {
        assert(s[k1].stream_id != s[k2].stream_id);
    } else if k2 < k1 {
        assert(s[k2].stream_id != s[k1].stream_id);
    }
}

/// Setting a Stream keeps the Streams of a CUC distinct.
pub proof fn lemma_cuc_with_stream_distinct(c: CucModel, stream: StreamModel)
    requires
        stream_ids_distinct(c.stream),
    ensures
        stream_ids_distinct(cuc_with_stream(c, stream).stream),
        cuc_with_stream(c, stream).cuc_id == c.cuc_id,
{
    lemma_first_index(c.stream, is_stream(stream.stream_id));
    let k = first_index(c.stream, is_stream(stream.stream_id));
    let after = cuc_with_stream(c, stream).stream;
    assert forall|a: int, b: int| 0 <= a < b < after.len() implies (#[trigger] after[a]).stream_id
        != (#[trigger] after[b]).stream_id by {
        if k < c.stream.len() {
            assert(after[a].stream_id == c.stream[a].stream_id);
            assert(after[b].stream_id == c.stream[b].stream_id);
        } else {
            if b < c.stream.len() {
                assert(after[a] == c.stream[a] && after[b] == c.stream[b]);
            } else {
                assert(after[a] == c.stream[a]);
                assert(!is_stream(stream.stream_id)(c.stream[a]));
            }
        }
    }
}

/// Setting a Stream keeps a domain well-formed.
pub proof fn lemma_domain_with_stream_well_formed(
    d: DomainModel,
    cuc_id: Seq<char>,
    stream: StreamModel,
)
    requires
        domain_well_formed(d),
    ensures
        domain_well_formed(domain_with_stream(d, cuc_id, stream)),
        domain_with_stream(d, cuc_id, stream).domain_id == d.domain_id,
{
    lemma_first_index(d.cuc, is_cuc(cuc_id));
    let j = first_index(d.cuc, is_cuc(cuc_id));
    let after = domain_with_stream(d, cuc_id, stream).cuc;
    if j < d.cuc.len() {
        lemma_cuc_with_stream_distinct(d.cuc[j], stream);
        assert forall|a: int, b: int| 0 <= a < b < after.len() implies (#[trigger] after[a]).cuc_id
            != (#[trigger] after[b]).cuc_id by {
            assert(after[a].cuc_id == d.cuc[a].cuc_id);
            assert(after[b].cuc_id == d.cuc[b].cuc_id);
        }
        assert forall|n: int| 0 <= n < after.len() implies stream_ids_distinct(
            (#[trigger] after[n]).stream,
        ) by {
            if n != j {
                assert(after[n] == d.cuc[n]);
            }
        }
    } else {
        assert forall|a: int, b: int| 0 <= a < b < after.len() implies (#[trigger] after[a]).cuc_id
            != (#[trigger] after[b]).cuc_id by {
            if b < d.cuc.len() {
                assert(after[a] == d.cuc[a] && after[b] == d.cuc[b]);
            } else {
                assert(after[a] == d.cuc[a]);
                assert(!is_cuc(cuc_id)(d.cuc[a]));
            }
        }
        assert forall|n: int| 0 <= n < after.len() implies stream_ids_distinct(
            (#[trigger] after[n]).stream,
        ) by {
            if n < d.cuc.len() {
                assert(after[n] == d.cuc[n]);
            }
        }
    }
}

/// Setting a Stream keeps the tree well-formed.
pub proof fn lemma_set_stream_keeps_tree_well_formed(
    tree: Seq<DomainModel>,
    domain_id: Seq<char>,
    cuc_id: Seq<char>,
    stream: StreamModel,
)
    requires
        tree_well_formed(tree),
    ensures
        tree_well_formed(tree_with_stream(tree, domain_id, cuc_id, stream)),
{
    lemma_first_index(tree, is_domain(domain_id));
    let i = first_index(tree, is_domain(domain_id));
    let after = tree_with_stream(tree, domain_id, cuc_id, stream);
    if i < tree.len() {
        lemma_domain_with_stream_well_formed(tree[i], cuc_id, stream);
        assert forall|a: int, b: int| 0 <= a < b < after.len() implies (
        #[trigger] after[a]).domain_id != (#[trigger] after[b]).domain_id by {
            assert(after[a].domain_id == tree[a].domain_id);
            assert(after[b].domain_id == tree[b].domain_id);
        }
        assert forall|n: int| 0 <= n < after.len() implies domain_well_formed(
            #[trigger] after[n],
        ) by {
            if n != i {
                assert(after[n] == tree[n]);
            }
        }
    }
}

/// Taking a Stream out keeps a domain well-formed.
pub proof fn lemma_domain_without_stream_well_formed(
    d: DomainModel,
    cuc_id: Seq<char>,
    stream_id: Seq<char>,
)
    requires
        domain_well_formed(d),
    ensures
        domain_well_formed(domain_without_stream(d, cuc_id, stream_id)),
        domain_without_stream(d, cuc_id, stream_id).domain_id == d.domain_id,
{
    lemma_first_index(d.cuc, is_cuc(cuc_id));
    let j = first_index(d.cuc, is_cuc(cuc_id));
    let after = domain_without_stream(d, cuc_id, stream_id).cuc;
    if j < d.cuc.len() {
        let c = d.cuc[j];
        lemma_first_index(c.stream, is_stream(stream_id));
        let k = first_index(c.stream, is_stream(stream_id));
        let rest = cuc_without_stream(c, stream_id).stream;
        assert(stream_ids_distinct(c.stream));
        assert forall|a: int, b: int| 0 <= a < b < rest.len() implies (#[trigger] rest[a]).stream_id
            != (#[trigger] rest[b]).stream_id by {
            if k < c.stream.len() {
                let a0 = if a < k { a } else { a + 1 };
                let b0 = if b < k { b } else { b + 1 };
                assert(rest[a] == c.stream[a0] && rest[b] == c.stream[b0]);
            }
        }
        assert forall|a: int, b: int| 0 <= a < b < after.len() implies (#[trigger] after[a]).cuc_id
            != (#[trigger] after[b]).cuc_id by {
            assert(after[a].cuc_id == d.cuc[a].cuc_id);
            assert(after[b].cuc_id == d.cuc[b].cuc_id);
        }
        assert forall|n: int| 0 <= n < after.len() implies stream_ids_distinct(
            (#[trigger] after[n]).stream,
        ) by {
            if n != j {
                assert(after[n] == d.cuc[n]);
            }
        }
    }
}

/// Taking a Stream out keeps the tree well-formed.
pub proof fn lemma_remove_stream_keeps_tree_well_formed(
    tree: Seq<DomainModel>,
    domain_id: Seq<char>,
    cuc_id: Seq<char>,
    stream_id: Seq<char>,
)
    requires
        tree_well_formed(tree),
    ensures
        tree_well_formed(tree_without_stream(tree, domain_id, cuc_id, stream_id)),
{
    lemma_first_index(tree, is_domain(domain_id));
    let i = first_index(tree, is_domain(domain_id));
    let after = tree_without_stream(tree, domain_id, cuc_id, stream_id);
    if i < tree.len() {
        lemma_domain_without_stream_well_formed(tree[i], cuc_id, stream_id);
        assert forall|a: int, b: int| 0 <= a < b < after.len() implies (
        #[trigger] after[a]).domain_id != (#[trigger] after[b]).domain_id by {
            assert(after[a].domain_id == tree[a].domain_id);
            assert(after[b].domain_id == tree[b].domain_id);
        }
        assert forall|n: int| 0 <= n < after.len() implies domain_well_formed(
            #[trigger] after[n],
        ) by {
            if n != i {
                assert(after[n] == tree[n]);
            }
        }
    }
}

/// Taking every Stream out of a CUC keeps the tree well-formed.
pub proof fn lemma_remove_all_streams_keeps_tree_well_formed(
    tree: Seq<DomainModel>,
    domain_id: Seq<char>,
    cuc_id: Seq<char>,
)
    requires
        tree_well_formed(tree),
    ensures
        tree_well_formed(tree_without_streams(tree, domain_id, cuc_id)),
{
    lemma_first_index(tree, is_domain(domain_id));
    let i = first_index(tree, is_domain(domain_id));
    let after = tree_without_streams(tree, domain_id, cuc_id);
    if i < tree.len() {
        let d = tree[i];
        lemma_first_index(d.cuc, is_cuc(cuc_id));
        let j = first_index(d.cuc, is_cuc(cuc_id));
        let cucs = domain_without_streams(d, cuc_id).cuc;
        assert(domain_well_formed(d));
        assert forall|a: int, b: int| 0 <= a < b < cucs.len() implies (#[trigger] cucs[a]).cuc_id
            != (#[trigger] cucs[b]).cuc_id by {
            assert(cucs[a].cuc_id == d.cuc[a].cuc_id);
            assert(cucs[b].cuc_id == d.cuc[b].cuc_id);
        }
        assert forall|n: int| 0 <= n < cucs.len() implies stream_ids_distinct(
            (#[trigger] cucs[n]).stream,
        ) by {
            if j < d.cuc.len() && n != j {
                assert(cucs[n] == d.cuc[n]);
            } else if j >= d.cuc.len() {
                assert(cucs[n] == d.cuc[n]);
            }
        }
        assert forall|a: int, b: int| 0 <= a < b < after.len() implies (
        #[trigger] after[a]).domain_id != (#[trigger] after[b]).domain_id by {
            assert(after[a].domain_id == tree[a].domain_id);
            assert(after[b].domain_id == tree[b].domain_id);
        }
        assert forall|n: int| 0 <= n < after.len() implies domain_well_formed(
            #[trigger] after[n],
        ) by {
            if n != i {
                assert(after[n] == tree[n]);
            }
        }
    }
}

/// A change of every Stream that keeps each Stream's id keeps the tree well-formed. `after` is
/// the tree that the change gives.
pub proof fn lemma_same_ids_keep_tree_well_formed(tree: Seq<DomainModel>, after: Seq<DomainModel>)
    requires
        tree_well_formed(tree),
        after.len() == tree.len(),
        forall|i: int|
            0 <= i < tree.len() ==> (#[trigger] after[i]).domain_id == tree[i].domain_id
                && after[i].cuc.len() == tree[i].cuc.len(),
        forall|i: int, j: int|
            0 <= i < tree.len() && 0 <= j < tree[i].cuc.len() ==> (#[trigger] after[i].cuc[j]).cuc_id
                == tree[i].cuc[j].cuc_id && after[i].cuc[j].stream.len()
                == tree[i].cuc[j].stream.len(),
        forall|i: int, j: int, k: int|
            0 <= i < tree.len() && 0 <= j < tree[i].cuc.len() && 0 <= k
                < tree[i].cuc[j].stream.len() ==> (#[trigger] after[i].cuc[j].stream[k]).stream_id
                == tree[i].cuc[j].stream[k].stream_id,
    ensures
        tree_well_formed(after),
{
    assert forall|a: int, b: int| 0 <= a < b < after.len() implies (#[trigger] after[a]).domain_id
        != (#[trigger] after[b]).domain_id by {
        assert(tree[a].domain_id != tree[b].domain_id);
    }
    assert forall|i: int| 0 <= i < after.len() implies domain_well_formed(#[trigger] after[i]) by {
        let d = tree[i];
        let e = after[i];
        assert(domain_well_formed(d));
        assert forall|a: int, b: int| 0 <= a < b < e.cuc.len() implies (#[trigger] e.cuc[a]).cuc_id
            != (#[trigger] e.cuc[b]).cuc_id by {
            assert(after[i].cuc[a].cuc_id == d.cuc[a].cuc_id);
            assert(after[i].cuc[b].cuc_id == d.cuc[b].cuc_id);
            assert(d.cuc[a].cuc_id != d.cuc[b].cuc_id);
        }
        assert forall|j: int| 0 <= j < e.cuc.len() implies stream_ids_distinct(
            (#[trigger] e.cuc[j]).stream,
        ) by {
            let s = d.cuc[j].stream;
            let t = e.cuc[j].stream;
            assert(after[i].cuc[j].stream.len() == s.len());
            assert(stream_ids_distinct(s));
            assert forall|a: int, b: int| 0 <= a < b < t.len() implies (#[trigger] t[a]).stream_id
                != (#[trigger] t[b]).stream_id by {
                assert(after[i].cuc[j].stream[a].stream_id == s[a].stream_id);
                assert(after[i].cuc[j].stream[b].stream_id == s[b].stream_id);
                assert(s[a].stream_id != s[b].stream_id);
            }
        }
    }
}

/// Writing a computation back keeps the tree well-formed.
pub proof fn lemma_modify_keeps_tree_well_formed(tree: Seq<DomainModel>, changes: Seq<DomainModel>)
    requires
        tree_well_formed(tree),
    ensures
        tree_well_formed(tree_modified(tree, changes)),
{
    let after = tree_modified(tree, changes);
    assert forall|i: int, j: int, k: int|
        0 <= i < tree.len() && 0 <= j < tree[i].cuc.len() && 0 <= k
            < tree[i].cuc[j].stream.len() implies (#[trigger] after[i].cuc[j].stream[k]).stream_id
        == tree[i].cuc[j].stream[k].stream_id by {
        lemma_provided_stream_id(
            changes,
            tree[i].domain_id,
            tree[i].cuc[j].cuc_id,
            tree[i].cuc[j].stream[k].stream_id,
        );
    }
    lemma_same_ids_keep_tree_well_formed(tree, after);
}

/// Recording the outcome of a configuration keeps the tree well-formed.
pub proof fn lemma_configured_keeps_tree_well_formed(
    tree: Seq<DomainModel>,
    domains: Seq<DomainModel>,
    failed: FailedInterfacesModel,
)
    requires
        tree_well_formed(tree),
    ensures
        tree_well_formed(tree_configured(tree, domains, failed)),
{
    lemma_same_ids_keep_tree_well_formed(tree, tree_configured(tree, domains, failed));
}

/// Whether a Stream may go from the status `before` to the status `after`: a planned Stream
/// becomes configured or modified, a configured one modified, a modified one configured, and
/// any Stream may stay as it is. No Stream becomes planned again.
pub open spec fn status_step_allowed(before: StreamStatus, after: StreamStatus) -> bool {
    ||| before == after
    ||| before == StreamStatus::Planned && after == StreamStatus::Configured
    ||| before == StreamStatus::Planned && after == StreamStatus::Modified
    ||| before == StreamStatus::Configured && after == StreamStatus::Modified
    ||| before == StreamStatus::Modified && after == StreamStatus::Configured
}

/// Whether `after` has a Stream wherever `before` has one, with a status that the Stream may
/// take from the one it had.
pub open spec fn statuses_step(before: Seq<DomainModel>, after: Seq<DomainModel>) -> bool {
    &&& before.len() <= after.len()
    &&& forall|i: int|
        0 <= i < before.len() ==> before[i].cuc.len() <= (#[trigger] after[i]).cuc.len()
    &&& forall|i: int, j: int|
        0 <= i < before.len() && 0 <= j < before[i].cuc.len() ==> before[i].cuc[j].stream.len() <= (
        #[trigger] after[i].cuc[j]).stream.len()
    &&& forall|i: int, j: int, k: int|
        0 <= i < before.len() && 0 <= j < before[i].cuc.len() && 0 <= k
            < before[i].cuc[j].stream.len() ==> status_step_allowed(
            before[i].cuc[j].stream[k].stream_status,
            (#[trigger] after[i].cuc[j].stream[k]).stream_status,
        )
}

/// The status law of setting a Stream. In a tree that has the domain, the Stream is afterwards
/// at its place: modified, where the place held a Stream before, and else with the status it
/// was handed in with.
pub proof fn lemma_set_stream_status(
    tree: Seq<DomainModel>,
    domain_id: Seq<char>,
    cuc_id: Seq<char>,
    stream: StreamModel,
)
    requires
        tree_holds_domain(tree, domain_id),
    ensures
        stream_at(tree_with_stream(tree, domain_id, cuc_id, stream), domain_id, cuc_id, stream.stream_id)
            == Some(
            if tree_holds_stream(tree, domain_id, cuc_id, stream.stream_id) {
                StreamModel { stream_status: StreamStatus::Modified, ..stream }
            } else {
                stream
            },
        ),
{
    let after = tree_with_stream(tree, domain_id, cuc_id, stream);
    lemma_first_index(tree, is_domain(domain_id));
    let i = first_index(tree, is_domain(domain_id));
    lemma_first_index_is(after, is_domain(domain_id), i);
    let d = tree[i];
    let e = after[i];
    lemma_first_index(d.cuc, is_cuc(cuc_id));
    let j = first_index(d.cuc, is_cuc(cuc_id));
    assert forall|n: int| 0 <= n < j implies !is_cuc(cuc_id)(#[trigger] e.cuc[n]) by {
        assert(e.cuc[n] == d.cuc[n]);
    }
    lemma_first_index_is(e.cuc, is_cuc(cuc_id), j);
    if j < d.cuc.len() {
        let c = d.cuc[j];
        let s = c.stream;
        lemma_first_index(s, is_stream(stream.stream_id));
        let k = first_index(s, is_stream(stream.stream_id));
        let t = e.cuc[j].stream;
        assert forall|n: int| 0 <= n < k implies !is_stream(stream.stream_id)(#[trigger] t[n]) by {
            assert(t[n] == s[n]);
        }
        lemma_first_index_is(t, is_stream(stream.stream_id), k);
    } else {
        let t = e.cuc[j].stream;
        lemma_first_index_is(t, is_stream(stream.stream_id), 0);
    }
}

/// Setting a Stream changes the status of no Stream but in an allowed way.
pub proof fn lemma_set_stream_steps(
    tree: Seq<DomainModel>,
    domain_id: Seq<char>,
    cuc_id: Seq<char>,
    stream: StreamModel,
)
    ensures
        statuses_step(tree, tree_with_stream(tree, domain_id, cuc_id, stream)),
{
    let after = tree_with_stream(tree, domain_id, cuc_id, stream);
    lemma_first_index(tree, is_domain(domain_id));
    let i = first_index(tree, is_domain(domain_id));
    if i < tree.len() {
        let d = tree[i];
        lemma_first_index(d.cuc, is_cuc(cuc_id));
        let j = first_index(d.cuc, is_cuc(cuc_id));
        if j < d.cuc.len() {
            lemma_first_index(d.cuc[j].stream, is_stream(stream.stream_id));
        }
        assert forall|a: int| 0 <= a < tree.len() implies tree[a].cuc.len() <= (
        #[trigger] after[a]).cuc.len() by {}
        assert forall|a: int, b: int|
            0 <= a < tree.len() && 0 <= b < tree[a].cuc.len() implies tree[a].cuc[b].stream.len()
            <= (#[trigger] after[a].cuc[b]).stream.len() by {}
        assert forall|a: int, b: int, c: int|
            0 <= a < tree.len() && 0 <= b < tree[a].cuc.len() && 0 <= c
                < tree[a].cuc[b].stream.len() implies status_step_allowed(
            tree[a].cuc[b].stream[c].stream_status,
            (#[trigger] after[a].cuc[b].stream[c]).stream_status,
        ) by {}
    }
}

/// Recording the outcome of a configuration changes the status of no Stream but in an allowed
/// way.
pub proof fn lemma_configured_steps(
    tree: Seq<DomainModel>,
    domains: Seq<DomainModel>,
    failed: FailedInterfacesModel,
)
    ensures
        statuses_step(tree, tree_configured(tree, domains, failed)),
{
}

/// Writing a computation back changes the status of no Stream but in an allowed way, provided
/// that each Stream written back has a status that the Stream it replaces may take.
pub proof fn lemma_modify_steps(tree: Seq<DomainModel>, changes: Seq<DomainModel>)
    requires
        forall|i: int, j: int, k: int|
            0 <= i < tree.len() && 0 <= j < tree[i].cuc.len() && 0 <= k
                < tree[i].cuc[j].stream.len() ==> match provided_stream(
                changes,
                tree[i].domain_id,
                tree[i].cuc[j].cuc_id,
                (#[trigger] tree[i].cuc[j].stream[k]).stream_id,
            ) {
                Some(x) => {
                    status_step_allowed(tree[i].cuc[j].stream[k].stream_status, x.stream_status)
                },
                None => true,
            },
    ensures
        statuses_step(tree, tree_modified(tree, changes)),
{
    let after = tree_modified(tree, changes);
    assert forall|i: int, j: int, k: int|
        0 <= i < tree.len() && 0 <= j < tree[i].cuc.len() && 0 <= k
            < tree[i].cuc[j].stream.len() implies status_step_allowed(
        tree[i].cuc[j].stream[k].stream_status,
        (#[trigger] after[i].cuc[j].stream[k]).stream_status,
    ) by {
        let s = tree[i].cuc[j].stream[k];
        assert(after[i].cuc[j].stream[k] == modified_stream(
            changes,
            tree[i].domain_id,
            tree[i].cuc[j].cuc_id,
        )(s));
    }
}

/// After a configuration every Stream that it was about is configured, or modified where a
/// port it relies on failed; every other Stream is as it was.
pub proof fn lemma_configured_statuses(
    tree: Seq<DomainModel>,
    domains: Seq<DomainModel>,
    failed: FailedInterfacesModel,
    i: int,
    j: int,
    k: int,
)
    requires
        0 <= i < tree.len(),
        0 <= j < tree[i].cuc.len(),
        0 <= k < tree[i].cuc[j].stream.len(),
    ensures
        ({
            let before = tree[i].cuc[j].stream[k];
            let after = tree_configured(tree, domains, failed)[i].cuc[j].stream[k];
            if provided_stream(domains, tree[i].domain_id, tree[i].cuc[j].cuc_id, before.stream_id)
                is Some {
                after == StreamModel {
                    stream_status: if stream_failed(failed, before.stream_id) {
                        StreamStatus::Modified
                    } else {
                        StreamStatus::Configured
                    },
                    ..before
                }
            } else {
                after == before
            }
        }),
{
}

/// Setting a Stream with another id leaves the Stream at a place as it is.
pub proof fn lemma_set_stream_leaves_others(
    tree: Seq<DomainModel>,
    domain_id: Seq<char>,
    cuc_id: Seq<char>,
    stream: StreamModel,
    other: Seq<char>,
)
    requires
        other != stream.stream_id,
    ensures
        stream_at(tree_with_stream(tree, domain_id, cuc_id, stream), domain_id, cuc_id, other)
            == stream_at(tree, domain_id, cuc_id, other),
        tree_holds_domain(tree_with_stream(tree, domain_id, cuc_id, stream), domain_id)
            == tree_holds_domain(tree, domain_id),
{
    let after = tree_with_stream(tree, domain_id, cuc_id, stream);
    lemma_first_index(tree, is_domain(domain_id));
    let i = first_index(tree, is_domain(domain_id));
    if i < tree.len() {
        lemma_first_index_is(after, is_domain(domain_id), i);
        let d = tree[i];
        let e = after[i];
        lemma_first_index(d.cuc, is_cuc(cuc_id));
        let j = first_index(d.cuc, is_cuc(cuc_id));
        assert forall|n: int| 0 <= n < j implies !is_cuc(cuc_id)(#[trigger] e.cuc[n]) by {
            assert(e.cuc[n] == d.cuc[n]);
        }
        lemma_first_index_is(e.cuc, is_cuc(cuc_id), j);
        if j < d.cuc.len() {
            let s = d.cuc[j].stream;
            let t = e.cuc[j].stream;
            lemma_first_index(s, is_stream(stream.stream_id));
            lemma_first_index(s, is_stream(other));
            let k = first_index(s, is_stream(other));
            assert forall|n: int| 0 <= n < k implies !is_stream(other)(#[trigger] t[n]) by {
                assert(t[n].stream_id == s[n].stream_id || t[n].stream_id == stream.stream_id);
            }
            if k < s.len() {
                assert(t[k] == s[k]);
                lemma_first_index_is(t, is_stream(other), k);
            } else {
                assert forall|n: int| 0 <= n < t.len() implies !is_stream(
                    other)(#[trigger] t[n],
                ) by {
                    if n < s.len() {
                        assert(t[n].stream_id == s[n].stream_id || t[n].stream_id
                            == stream.stream_id);
                    }
                }
                lemma_first_index_is(t, is_stream(other), t.len() as int);
            }
        } else {
            let t = e.cuc[j].stream;
            lemma_first_index_is(t, is_stream(other), 1);
        }
    }
}

/// A place holds a Stream exactly if there is a Stream at it.
pub proof fn lemma_holds_stream_is_stream_at(
    tree: Seq<DomainModel>,
    domain_id: Seq<char>,
    cuc_id: Seq<char>,
    stream_id: Seq<char>,
)
    ensures
        tree_holds_stream(tree, domain_id, cuc_id, stream_id) <==> stream_at(
            tree,
            domain_id,
            cuc_id,
            stream_id,
        ) is Some,
{
}

/// The status law of setting Streams, for a list of Streams in which no id occurs twice. In a
/// tree that has the domain, each Stream of the list is afterwards at its place: modified,
/// where the place held a Stream before, and else with the status it was handed in with.
pub proof fn lemma_set_streams_status(
    tree: Seq<DomainModel>,
    domain_id: Seq<char>,
    cuc_id: Seq<char>,
    streams: Seq<StreamModel>,
    i: int,
)
    requires
        tree_holds_domain(tree, domain_id),
        stream_ids_distinct(streams),
        0 <= i < streams.len(),
    ensures
        tree_holds_domain(tree_with_streams(tree, domain_id, cuc_id, streams), domain_id),
        stream_at(
            tree_with_streams(tree, domain_id, cuc_id, streams),
            domain_id,
            cuc_id,
            streams[i].stream_id,
        ) == Some(
            if tree_holds_stream(tree, domain_id, cuc_id, streams[i].stream_id) {
                StreamModel { stream_status: StreamStatus::Modified, ..streams[i] }
            } else {
                streams[i]
            },
        ),
    decreases streams.len(),
{
    let front = streams.drop_last();
    let last = streams.last();
    let before = tree_with_streams(tree, domain_id, cuc_id, front);
    lemma_set_streams_hold_domain(tree, domain_id, cuc_id, front);
    if i == streams.len() - 1 {
        lemma_set_stream_status(before, domain_id, cuc_id, last);
        lemma_set_streams_leave_others(tree, domain_id, cuc_id, front, last.stream_id);
        lemma_holds_stream_is_stream_at(tree, domain_id, cuc_id, last.stream_id);
        lemma_holds_stream_is_stream_at(before, domain_id, cuc_id, last.stream_id);
    } else {
        assert(front[i] == streams[i]);
        assert(streams[i].stream_id != last.stream_id);
        lemma_set_streams_status(tree, domain_id, cuc_id, front, i);
        lemma_set_stream_leaves_others(before, domain_id, cuc_id, last, streams[i].stream_id);
    }
}

/// Setting Streams keeps the domain in the tree.
pub proof fn lemma_set_streams_hold_domain(
    tree: Seq<DomainModel>,
    domain_id: Seq<char>,
    cuc_id: Seq<char>,
    streams: Seq<StreamModel>,
)
    ensures
        tree_holds_domain(tree_with_streams(tree, domain_id, cuc_id, streams), domain_id)
            == tree_holds_domain(tree, domain_id),
    decreases streams.len(),
{
    if streams.len() > 0 {
        let before = tree_with_streams(tree, domain_id, cuc_id, streams.drop_last());
        lemma_set_streams_hold_domain(tree, domain_id, cuc_id, streams.drop_last());
        lemma_first_index(before, is_domain(domain_id));
        let i = first_index(before, is_domain(domain_id));
        if i < before.len() {
            lemma_first_index_is(
                tree_with_stream(before, domain_id, cuc_id, streams.last()),
                is_domain(domain_id),
                i,
            );
        }
    }
}

/// Setting Streams none of which has the id `other` leaves the Stream at that place as it is.
pub proof fn lemma_set_streams_leave_others(
    tree: Seq<DomainModel>,
    domain_id: Seq<char>,
    cuc_id: Seq<char>,
    streams: Seq<StreamModel>,
    other: Seq<char>,
)
    requires
        forall|n: int| 0 <= n < streams.len() ==> (#[trigger] streams[n]).stream_id != other,
    ensures
        stream_at(tree_with_streams(tree, domain_id, cuc_id, streams), domain_id, cuc_id, other)
            == stream_at(tree, domain_id, cuc_id, other),
    decreases streams.len(),
{
    if streams.len() > 0 {
        let front = streams.drop_last();
        assert forall|n: int| 0 <= n < front.len() implies (#[trigger] front[n]).stream_id
            != other by {
            assert(front[n] == streams[n]);
        }
        lemma_set_streams_leave_others(tree, domain_id, cuc_id, front, other);
        lemma_set_stream_leaves_others(
            tree_with_streams(tree, domain_id, cuc_id, front),
            domain_id,
            cuc_id,
            streams.last(),
            other,
        );
    }
}

/// Setting Streams one after the other changes the status of no Stream but in an allowed way.
pub proof fn lemma_set_streams_step(
    tree: Seq<DomainModel>,
    domain_id: Seq<char>,
    cuc_id: Seq<char>,
    streams: Seq<StreamModel>,
)
    ensures
        statuses_step(tree, tree_with_streams(tree, domain_id, cuc_id, streams)),
    decreases streams.len(),
{
    if streams.len() > 0 {
        let before = tree_with_streams(tree, domain_id, cuc_id, streams.drop_last());
        let after = tree_with_streams(tree, domain_id, cuc_id, streams);
        lemma_set_streams_step(tree, domain_id, cuc_id, streams.drop_last());
        lemma_set_stream_steps(before, domain_id, cuc_id, streams.last());
        assert forall|a: int| 0 <= a < tree.len() implies tree[a].cuc.len() <= (
        #[trigger] after[a]).cuc.len() by {
            assert(before[a].cuc.len() <= after[a].cuc.len());
        }
        assert forall|a: int, b: int|
            0 <= a < tree.len() && 0 <= b < tree[a].cuc.len() implies tree[a].cuc[b].stream.len()
            <= (#[trigger] after[a].cuc[b]).stream.len() by {
            assert(before[a].cuc.len() <= after[a].cuc.len());
            assert(tree[a].cuc[b].stream.len() <= before[a].cuc[b].stream.len());
            assert(before[a].cuc[b].stream.len() <= after[a].cuc[b].stream.len());
        }
        assert forall|a: int, b: int, c: int|
            0 <= a < tree.len() && 0 <= b < tree[a].cuc.len() && 0 <= c
                < tree[a].cuc[b].stream.len() implies status_step_allowed(
            tree[a].cuc[b].stream[c].stream_status,
            (#[trigger] after[a].cuc[b].stream[c]).stream_status,
        ) by {
            assert(tree[a].cuc[b].stream.len() <= before[a].cuc[b].stream.len());
            assert(status_step_allowed(
                tree[a].cuc[b].stream[c].stream_status,
                before[a].cuc[b].stream[c].stream_status,
            ));
            assert(status_step_allowed(
                before[a].cuc[b].stream[c].stream_status,
                after[a].cuc[b].stream[c].stream_status,
            ));
        }
    }
}

/// Taking a Stream out leaves the Stream at any other place of the CUC as it is.
pub proof fn lemma_remove_stream_leaves_others(
    tree: Seq<DomainModel>,
    domain_id: Seq<char>,
    cuc_id: Seq<char>,
    stream_id: Seq<char>,
    other: Seq<char>,
)
    requires
        other != stream_id,
    ensures
        stream_at(tree_without_stream(tree, domain_id, cuc_id, stream_id), domain_id, cuc_id, other)
            == stream_at(tree, domain_id, cuc_id, other),
{
    let after = tree_without_stream(tree, domain_id, cuc_id, stream_id);
    lemma_first_index(tree, is_domain(domain_id));
    let i = first_index(tree, is_domain(domain_id));
    if i < tree.len() {
        lemma_first_index_is(after, is_domain(domain_id), i);
        let d = tree[i];
        let e = after[i];
        lemma_first_index(d.cuc, is_cuc(cuc_id));
        let j = first_index(d.cuc, is_cuc(cuc_id));
        if j < d.cuc.len() {
            assert forall|n: int| 0 <= n < j implies !is_cuc(cuc_id)(#[trigger] e.cuc[n]) by {
                assert(e.cuc[n] == d.cuc[n]);
            }
            lemma_first_index_is(e.cuc, is_cuc(cuc_id), j);
            let s = d.cuc[j].stream;
            let t = e.cuc[j].stream;
            lemma_first_index(s, is_stream(stream_id));
            lemma_first_index(s, is_stream(other));
            let k = first_index(s, is_stream(stream_id));
            let m = first_index(s, is_stream(other));
            if k < s.len() {
                let moved = if m < k {
                    m
                } else {
                    m - 1
                };
                assert forall|n: int| 0 <= n < moved implies !is_stream(other)(#[trigger] t[n]) by {
                    if n < k {
                        assert(t[n] == s[n]);
                    } else {
                        assert(t[n] == s[n + 1]);
                    }
                }
                if m < s.len() {
                    assert(t[moved] == s[m]);
                }
                lemma_first_index_is(t, is_stream(other), moved);
            }
        }
    }
}

/// Taking a Stream out of a well-formed tree leaves no Stream at its place.
pub proof fn lemma_removed_stream_is_gone(
    tree: Seq<DomainModel>,
    domain_id: Seq<char>,
    cuc_id: Seq<char>,
    stream_id: Seq<char>,
)
    requires
        tree_well_formed(tree),
    ensures
        !tree_holds_stream(
            tree_without_stream(tree, domain_id, cuc_id, stream_id),
            domain_id,
            cuc_id,
            stream_id,
        ),
{
    let after = tree_without_stream(tree, domain_id, cuc_id, stream_id);
    lemma_first_index(tree, is_domain(domain_id));
    let i = first_index(tree, is_domain(domain_id));
    if i < tree.len() {
        lemma_first_index_is(after, is_domain(domain_id), i);
        let d = tree[i];
        let e = after[i];
        lemma_first_index(d.cuc, is_cuc(cuc_id));
        let j = first_index(d.cuc, is_cuc(cuc_id));
        if j < d.cuc.len() {
            assert forall|n: int| 0 <= n < j implies !is_cuc(cuc_id)(#[trigger] e.cuc[n]) by {
                assert(e.cuc[n] == d.cuc[n]);
            }
            lemma_first_index_is(e.cuc, is_cuc(cuc_id), j);
            let s = d.cuc[j].stream;
            let t = e.cuc[j].stream;
            lemma_first_index(s, is_stream(stream_id));
            let k = first_index(s, is_stream(stream_id));
            assert(domain_well_formed(d));
            assert(stream_ids_distinct(s));
            assert forall|n: int| 0 <= n < t.len() implies !is_stream(
                stream_id)(#[trigger] t[n],
            ) by {
                if k < s.len() {
                    if n < k {
                        assert(t[n] == s[n]);
                    } else {
                        assert(t[n] == s[n + 1]);
                        assert(s[k].stream_id != s[n + 1].stream_id);
                    }
                } else {
                    assert(t[n] == s[n]);
                }
            }
            lemma_first_index_is(t, is_stream(stream_id), t.len() as int);
        }
    }
}

/// Setting Streams keeps a Stream at every place that held one, and a Stream that the tree
/// held and that is among the Streams set is modified afterwards, however often its id or
/// others occur in the list.
pub proof fn lemma_existing_stream_becomes_modified(
    tree: Seq<DomainModel>,
    domain_id: Seq<char>,
    cuc_id: Seq<char>,
    streams: Seq<StreamModel>,
    stream_id: Seq<char>,
)
    requires
        tree_holds_stream(tree, domain_id, cuc_id, stream_id),
    ensures
        tree_holds_stream(
            tree_with_streams(tree, domain_id, cuc_id, streams),
            domain_id,
            cuc_id,
            stream_id,
        ),
        (exists|i: int| 0 <= i < streams.len() && (#[trigger] streams[i]).stream_id == stream_id)
            ==> stream_at(
            tree_with_streams(tree, domain_id, cuc_id, streams),
            domain_id,
            cuc_id,
            stream_id,
        )->0.stream_status == StreamStatus::Modified,
    decreases streams.len(),
{
    if streams.len() > 0 {
        let front = streams.drop_last();
        let last = streams.last();
        let before = tree_with_streams(tree, domain_id, cuc_id, front);
        let after = tree_with_streams(tree, domain_id, cuc_id, streams);
        lemma_existing_stream_becomes_modified(tree, domain_id, cuc_id, front, stream_id);
        lemma_holds_stream_is_stream_at(before, domain_id, cuc_id, stream_id);
        lemma_holds_stream_is_stream_at(after, domain_id, cuc_id, stream_id);
        if last.stream_id == stream_id {
            lemma_set_stream_status(before, domain_id, cuc_id, last);
        } else {
            lemma_set_stream_leaves_others(before, domain_id, cuc_id, last, stream_id);
            if exists|i: int| 0 <= i < streams.len() && (#[trigger] streams[i]).stream_id == stream_id {
                let i = choose|i: int|
                    0 <= i < streams.len() && (#[trigger] streams[i]).stream_id == stream_id;
                assert(front[i].stream_id == stream_id);
            }
        }
    }
}

} // verus!
