//! The Domain tree as a value: what each operation of the store makes of it.
//!
//! The tree is a list of domains, each with a list of CUCs, each with a list of Streams. Every
//! operation is stated as a function on the mathematical value of the tree, and carried out on
//! the `Vec` that holds it.

use crate::cnc::types::uni_types::{
    Cuc, CucModel, Domain, DomainModel, Stream, StreamModel, StreamStatus,
};
use crate::cnc::search::{first_index, lemma_first_index, lemma_first_index_is};
use vstd::prelude::*;

verus! {

/// Whether a domain has the id `id`.
pub open spec fn is_domain(id: Seq<char>) -> spec_fn(DomainModel) -> bool {
    |d: DomainModel| d.domain_id == id
}

/// Whether a CUC has the id `id`.
pub open spec fn is_cuc(id: Seq<char>) -> spec_fn(CucModel) -> bool {
    |c: CucModel| c.cuc_id == id
}

/// Whether a Stream has the id `id`.
pub open spec fn is_stream(id: Seq<char>) -> spec_fn(StreamModel) -> bool {
    |s: StreamModel| s.stream_id == id
}

/// Finds the first Stream of `streams` with the id `id`.
pub fn find_stream_index(streams: &Vec<Stream>, id: &String) -> (r: usize)
    ensures
        r == first_index(streams.deep_view(), is_stream(id@)),
        r <= streams.len(),
{
    let mut i: usize = 0;
    while i < streams.len()
        invariant
            i <= streams.len(),
            forall|j: int| 0 <= j < i ==> streams.deep_view()[j].stream_id != id@,
        decreases streams.len() - i,
    {
        if streams[i].stream_id == *id {
            proof {
                lemma_first_index_is(streams.deep_view(), is_stream(id@), i as int);
            }
            return i;
        }
        i += 1;
    }
    proof {
        lemma_first_index_is(streams.deep_view(), is_stream(id@), i as int);
    }
    i
}

/// Finds the first CUC of `cucs` with the id `id`.
pub fn find_cuc_index(cucs: &Vec<Cuc>, id: &String) -> (r: usize)
    ensures
        r == first_index(cucs.deep_view(), is_cuc(id@)),
        r <= cucs.len(),
{
    let mut i: usize = 0;
    while i < cucs.len()
        invariant
            i <= cucs.len(),
            forall|j: int| 0 <= j < i ==> cucs.deep_view()[j].cuc_id != id@,
        decreases cucs.len() - i,
    {
        if cucs[i].cuc_id == *id {
            proof {
                lemma_first_index_is(cucs.deep_view(), is_cuc(id@), i as int);
            }
            return i;
        }
        i += 1;
    }
    proof {
        lemma_first_index_is(cucs.deep_view(), is_cuc(id@), i as int);
    }
    i
}

/// Finds the first domain of `tree` with the id `id`.
pub fn find_domain_index(tree: &Vec<Domain>, id: &String) -> (r: usize)
    ensures
        r == first_index(tree.deep_view(), is_domain(id@)),
        r <= tree.len(),
{
    let mut i: usize = 0;
    while i < tree.len()
        invariant
            i <= tree.len(),
            forall|j: int| 0 <= j < i ==> tree.deep_view()[j].domain_id != id@,
        decreases tree.len() - i,
    {
        if tree[i].domain_id == *id {
            proof {
                lemma_first_index_is(tree.deep_view(), is_domain(id@), i as int);
            }
            return i;
        }
        i += 1;
    }
    proof {
        lemma_first_index_is(tree.deep_view(), is_domain(id@), i as int);
    }
    i
}

/// A CUC after `stream` was set in it: a Stream with the same id is replaced and marked
/// modified, else `stream` is added at the end as it is.
pub open spec fn cuc_with_stream(c: CucModel, stream: StreamModel) -> CucModel {
    let k = first_index(c.stream, is_stream(stream.stream_id));
    if k < c.stream.len() {
        CucModel {
            stream: c.stream.update(
                k,
                StreamModel { stream_status: StreamStatus::Modified, ..stream },
            ),
            ..c
        }
    } else {
        CucModel { stream: c.stream.push(stream), ..c }
    }
}

/// A domain after `stream` was set for the CUC `cuc_id`: the CUC is created where it is missing.
pub open spec fn domain_with_stream(
    d: DomainModel,
    cuc_id: Seq<char>,
    stream: StreamModel,
) -> DomainModel {
    let j = first_index(d.cuc, is_cuc(cuc_id));
    if j < d.cuc.len() {
        DomainModel { cuc: d.cuc.update(j, cuc_with_stream(d.cuc[j], stream)), ..d }
    } else {
        DomainModel { cuc: d.cuc.push(CucModel { cuc_id, stream: seq![stream] }), ..d }
    }
}

/// The tree after `stream` was set for the CUC `cuc_id` of the domain `domain_id`. A tree
/// without that domain stays as it is.
pub open spec fn tree_with_stream(
    tree: Seq<DomainModel>,
    domain_id: Seq<char>,
    cuc_id: Seq<char>,
    stream: StreamModel,
) -> Seq<DomainModel> {
    let i = first_index(tree, is_domain(domain_id));
    if i < tree.len() {
        tree.update(i, domain_with_stream(tree[i], cuc_id, stream))
    } else {
        tree
    }
}

/// Sets `stream` in `cuc`.
pub fn set_stream_in_cuc(cuc: &mut Cuc, stream: &Stream)
    ensures
        final(cuc).deep_view() == cuc_with_stream(old(cuc).deep_view(), stream.deep_view()),
{
    let k = find_stream_index(&cuc.stream, &stream.stream_id);
    let mut copy = stream.clone();
    if k < cuc.stream.len() {
        copy.stream_status = StreamStatus::Modified;
        cuc.stream[k] = copy;
        proof {
            assert(cuc.stream.deep_view() =~= old(cuc).stream.deep_view().update(
                k as int,
                StreamModel { stream_status: StreamStatus::Modified, ..stream.deep_view() },
            ));
        }
    } else {
        cuc.stream.push(copy);
        proof {
            assert(cuc.stream.deep_view() =~= old(cuc).stream.deep_view().push(
                stream.deep_view(),
            ));
        }
    }
}

/// Sets `stream` for the CUC `cuc_id` of `domain`.
pub fn set_stream_in_domain(domain: &mut Domain, cuc_id: &String, stream: &Stream)
    ensures
        final(domain).deep_view() == domain_with_stream(
            old(domain).deep_view(),
            cuc_id@,
            stream.deep_view(),
        ),
{
    let j = find_cuc_index(&domain.cuc, cuc_id);
    if j < domain.cuc.len() {
        set_stream_in_cuc(&mut domain.cuc[j], stream);
        proof {
            assert(domain.cuc.deep_view() =~= old(domain).cuc.deep_view().update(
                j as int,
                cuc_with_stream(old(domain).cuc.deep_view()[j as int], stream.deep_view()),
            ));
        }
    } else {
        let mut streams: Vec<Stream> = Vec::new();
        streams.push(stream.clone());
        let cuc = Cuc { cuc_id: cuc_id.clone(), stream: streams };
        proof {
            assert(cuc.stream.deep_view() =~= seq![stream.deep_view()]);
        }
        domain.cuc.push(cuc);
        proof {
            assert(domain.cuc.deep_view() =~= old(domain).cuc.deep_view().push(
                CucModel { cuc_id: cuc_id@, stream: seq![stream.deep_view()] },
            ));
        }
    }
}

/// Sets `stream` for the CUC `cuc_id` of the domain `domain_id` of `tree`.
pub fn set_stream_in_tree(
    tree: &mut Vec<Domain>,
    domain_id: &String,
    cuc_id: &String,
    stream: &Stream,
)
    ensures
        final(tree).deep_view() == tree_with_stream(
            old(tree).deep_view(),
            domain_id@,
            cuc_id@,
            stream.deep_view(),
        ),
{
    let i = find_domain_index(tree, domain_id);
    if i < tree.len() {
        set_stream_in_domain(&mut tree[i], cuc_id, stream);
        proof {
            assert(tree.deep_view() =~= old(tree).deep_view().update(
                i as int,
                domain_with_stream(old(tree).deep_view()[i as int], cuc_id@, stream.deep_view()),
            ));
        }
    }
}

/// A CUC after the first Stream with the id `stream_id` was taken out of it.
pub open spec fn cuc_without_stream(c: CucModel, stream_id: Seq<char>) -> CucModel {
    let k = first_index(c.stream, is_stream(stream_id));
    if k < c.stream.len() {
        CucModel { stream: c.stream.remove(k), ..c }
    } else {
        c
    }
}

/// A domain after the Stream `stream_id` was taken out of its CUC `cuc_id`.
pub open spec fn domain_without_stream(
    d: DomainModel,
    cuc_id: Seq<char>,
    stream_id: Seq<char>,
) -> DomainModel {
    let j = first_index(d.cuc, is_cuc(cuc_id));
    if j < d.cuc.len() {
        DomainModel { cuc: d.cuc.update(j, cuc_without_stream(d.cuc[j], stream_id)), ..d }
    } else {
        d
    }
}

/// The tree after the Stream `stream_id` was taken out of the CUC `cuc_id` of the domain
/// `domain_id`. Where the domain, the CUC or the Stream is missing, the tree stays as it is.
pub open spec fn tree_without_stream(
    tree: Seq<DomainModel>,
    domain_id: Seq<char>,
    cuc_id: Seq<char>,
    stream_id: Seq<char>,
) -> Seq<DomainModel> {
    let i = first_index(tree, is_domain(domain_id));
    if i < tree.len() {
        tree.update(i, domain_without_stream(tree[i], cuc_id, stream_id))
    } else {
        tree
    }
}

/// Whether the tree has a domain with the id `domain_id`.
pub open spec fn tree_holds_domain(tree: Seq<DomainModel>, domain_id: Seq<char>) -> bool {
    first_index(tree, is_domain(domain_id)) < tree.len()
}

/// The Stream at the place `(domain_id, cuc_id, stream_id)`: the first Stream of that id in the
/// first CUC of that id in the first domain of that id.
pub open spec fn stream_at(
    tree: Seq<DomainModel>,
    domain_id: Seq<char>,
    cuc_id: Seq<char>,
    stream_id: Seq<char>,
) -> Option<StreamModel> {
    let i = first_index(tree, is_domain(domain_id));
    if i < tree.len() {
        let j = first_index(tree[i].cuc, is_cuc(cuc_id));
        if j < tree[i].cuc.len() {
            let k = first_index(tree[i].cuc[j].stream, is_stream(stream_id));
            if k < tree[i].cuc[j].stream.len() {
                Some(tree[i].cuc[j].stream[k])
            } else {
                None
            }
        } else {
            None
        }
    } else {
        None
    }
}

/// Whether the CUC `cuc_id` of the domain `domain_id` holds a Stream with the id `stream_id`.
pub open spec fn tree_holds_stream(
    tree: Seq<DomainModel>,
    domain_id: Seq<char>,
    cuc_id: Seq<char>,
    stream_id: Seq<char>,
) -> bool {
    let i = first_index(tree, is_domain(domain_id));
    i < tree.len() && {
        let j = first_index(tree[i].cuc, is_cuc(cuc_id));
        j < tree[i].cuc.len() && first_index(tree[i].cuc[j].stream, is_stream(stream_id))
            < tree[i].cuc[j].stream.len()
    }
}

/// Takes the Stream `stream_id` out of `cuc`. Says whether there was one.
pub fn remove_stream_from_cuc(cuc: &mut Cuc, stream_id: &String) -> (removed: bool)
    ensures
        final(cuc).deep_view() == cuc_without_stream(old(cuc).deep_view(), stream_id@),
        removed == (first_index(old(cuc).deep_view().stream, is_stream(stream_id@)) < old(
            cuc,
        ).stream.len()),
{
    let k = find_stream_index(&cuc.stream, stream_id);
    if k < cuc.stream.len() {
        let _ = cuc.stream.remove(k);
        proof {
            assert(cuc.stream.deep_view() =~= old(cuc).stream.deep_view().remove(k as int));
        }
        true
    } else {
        false
    }
}

/// Takes the Stream `stream_id` out of the CUC `cuc_id` of `domain`. Says whether there was one.
pub fn remove_stream_from_domain(
    domain: &mut Domain,
    cuc_id: &String,
    stream_id: &String,
) -> (removed: bool)
    ensures
        final(domain).deep_view() == domain_without_stream(
            old(domain).deep_view(),
            cuc_id@,
            stream_id@,
        ),
        removed == ({
            let d = old(domain).deep_view();
            let j = first_index(d.cuc, is_cuc(cuc_id@));
            j < d.cuc.len() && first_index(d.cuc[j].stream, is_stream(stream_id@))
                < d.cuc[j].stream.len()
        }),
{
    let j = find_cuc_index(&domain.cuc, cuc_id);
    if j < domain.cuc.len() {
        let removed = remove_stream_from_cuc(&mut domain.cuc[j], stream_id);
        proof {
            assert(domain.cuc.deep_view() =~= old(domain).cuc.deep_view().update(
                j as int,
                cuc_without_stream(old(domain).cuc.deep_view()[j as int], stream_id@),
            ));
        }
        removed
    } else {
        false
    }
}

/// Takes the Stream `stream_id` out of the CUC `cuc_id` of the domain `domain_id` of `tree`.
/// Says whether there was one.
pub fn remove_stream_from_tree(
    tree: &mut Vec<Domain>,
    domain_id: &String,
    cuc_id: &String,
    stream_id: &String,
) -> (removed: bool)
    ensures
        final(tree).deep_view() == tree_without_stream(
            old(tree).deep_view(),
            domain_id@,
            cuc_id@,
            stream_id@,
        ),
        removed == tree_holds_stream(old(tree).deep_view(), domain_id@, cuc_id@, stream_id@),
        !removed ==> final(tree).deep_view() == old(tree).deep_view(),
{
    let i = find_domain_index(tree, domain_id);
    if i < tree.len() {
        let removed = remove_stream_from_domain(&mut tree[i], cuc_id, stream_id);
        proof {
            assert(tree.deep_view() =~= old(tree).deep_view().update(
                i as int,
                domain_without_stream(old(tree).deep_view()[i as int], cuc_id@, stream_id@),
            ));
            if !removed {
                let d = old(tree).deep_view()[i as int];
                let j = first_index(d.cuc, is_cuc(cuc_id@));
                lemma_first_index(d.cuc, is_cuc(cuc_id@));
                if j < d.cuc.len() {
                    assert(d.cuc.update(j, d.cuc[j]) =~= d.cuc);
                }
                assert(tree.deep_view() =~= old(tree).deep_view());
            }
        }
        removed
    } else {
        false
    }
}

/// A domain after every Stream was taken out of its CUC `cuc_id`.
pub open spec fn domain_without_streams(d: DomainModel, cuc_id: Seq<char>) -> DomainModel {
    let j = first_index(d.cuc, is_cuc(cuc_id));
    if j < d.cuc.len() {
        DomainModel {
            cuc: d.cuc.update(j, CucModel { stream: Seq::empty(), ..d.cuc[j] }),
            ..d
        }
    } else {
        d
    }
}

/// The tree after every Stream was taken out of the CUC `cuc_id` of the domain `domain_id`.
pub open spec fn tree_without_streams(
    tree: Seq<DomainModel>,
    domain_id: Seq<char>,
    cuc_id: Seq<char>,
) -> Seq<DomainModel> {
    let i = first_index(tree, is_domain(domain_id));
    if i < tree.len() {
        tree.update(i, domain_without_streams(tree[i], cuc_id))
    } else {
        tree
    }
}

/// Whether the domain `domain_id` of the tree has a CUC `cuc_id`.
pub open spec fn tree_holds_cuc(
    tree: Seq<DomainModel>,
    domain_id: Seq<char>,
    cuc_id: Seq<char>,
) -> bool {
    let i = first_index(tree, is_domain(domain_id));
    i < tree.len() && first_index(tree[i].cuc, is_cuc(cuc_id)) < tree[i].cuc.len()
}

/// Takes every Stream out of the CUC `cuc_id` of the domain `domain_id` of `tree`. Says whether
/// there is such a CUC.
pub fn remove_all_streams_from_tree(
    tree: &mut Vec<Domain>,
    domain_id: &String,
    cuc_id: &String,
) -> (found: bool)
    ensures
        final(tree).deep_view() == tree_without_streams(old(tree).deep_view(), domain_id@, cuc_id@),
        found == tree_holds_cuc(old(tree).deep_view(), domain_id@, cuc_id@),
{
    let i = find_domain_index(tree, domain_id);
    if i < tree.len() {
        let j = find_cuc_index(&tree[i].cuc, cuc_id);
        if j < tree[i].cuc.len() {
            tree[i].cuc[j].stream.clear();
            proof {
                let d = old(tree).deep_view()[i as int];
                assert(tree[i as int].cuc[j as int].stream.deep_view()
                    =~= Seq::<StreamModel>::empty());
                assert(tree[i as int].cuc.deep_view() =~= d.cuc.update(
                    j as int,
                    CucModel { stream: Seq::empty(), ..d.cuc[j as int] },
                ));
                assert(tree.deep_view() =~= old(tree).deep_view().update(
                    i as int,
                    domain_without_streams(d, cuc_id@),
                ));
            }
            true
        } else {
            false
        }
    } else {
        false
    }
}

/// Whether a domain has a CUC with the id `cuc_id`.
pub open spec fn has_cuc(cuc_id: Seq<char>) -> spec_fn(DomainModel) -> bool {
    |d: DomainModel| first_index(d.cuc, is_cuc(cuc_id)) < d.cuc.len()
}

/// The id of the first domain of the tree that has a CUC `cuc_id`.
pub open spec fn domain_id_of_cuc(tree: Seq<DomainModel>, cuc_id: Seq<char>) -> Option<Seq<char>> {
    let i = first_index(tree, has_cuc(cuc_id));
    if i < tree.len() {
        Some(tree[i].domain_id)
    } else {
        None
    }
}

/// Looks up the domain that the CUC `cuc_id` belongs to.
pub fn find_domain_id_of_cuc(tree: &Vec<Domain>, cuc_id: &String) -> (r: Option<String>)
    ensures
        r.deep_view() == domain_id_of_cuc(tree.deep_view(), cuc_id@),
{
    let mut i: usize = 0;
    while i < tree.len()
        invariant
            i <= tree.len(),
            forall|j: int| 0 <= j < i ==> !has_cuc(cuc_id@)(#[trigger] tree.deep_view()[j]),
        decreases tree.len() - i,
    {
        let j = find_cuc_index(&tree[i].cuc, cuc_id);
        if j < tree[i].cuc.len() {
            proof {
                lemma_first_index_is(tree.deep_view(), has_cuc(cuc_id@), i as int);
            }
            return Some(tree[i].domain_id.clone());
        }
        i += 1;
    }
    proof {
        lemma_first_index_is(tree.deep_view(), has_cuc(cuc_id@), i as int);
    }
    None
}

/// Whether some Stream of the tree, in whatever domain and CUC, has the id `stream_id`.
pub open spec fn stream_id_in_use(tree: Seq<DomainModel>, stream_id: Seq<char>) -> bool {
    exists|i: int, j: int, k: int|
        0 <= i < tree.len() && 0 <= j < tree[i].cuc.len() && 0 <= k < tree[i].cuc[j].stream.len()
            && #[trigger] tree[i].cuc[j].stream[k].stream_id == stream_id
}

/// Says whether any Stream of the tree has the id `stream_id`.
pub fn is_stream_id_in_use(tree: &Vec<Domain>, stream_id: &String) -> (r: bool)
    ensures
        r == stream_id_in_use(tree.deep_view(), stream_id@),
{
    let mut i: usize = 0;
    while i < tree.len()
        invariant
            i <= tree.len(),
            forall|a: int, b: int, c: int|
                0 <= a < i && 0 <= b < tree.deep_view()[a].cuc.len() && 0 <= c
                    < tree.deep_view()[a].cuc[b].stream.len()
                    ==> #[trigger] tree.deep_view()[a].cuc[b].stream[c].stream_id != stream_id@,
        decreases tree.len() - i,
    {
        let mut j: usize = 0;
        while j < tree[i].cuc.len()
            invariant
                i < tree.len(),
                j <= tree[i as int].cuc.len(),
                forall|b: int, c: int|
                    0 <= b < j && 0 <= c < tree.deep_view()[i as int].cuc[b].stream.len()
                        ==> #[trigger] tree.deep_view()[i as int].cuc[b].stream[c].stream_id
                        != stream_id@,
            decreases tree[i as int].cuc.len() - j,
        {
            let k = find_stream_index(&tree[i].cuc[j].stream, stream_id);
            proof {
                lemma_first_index(
                    tree.deep_view()[i as int].cuc[j as int].stream,
                    is_stream(stream_id@),
                );
            }
            if k < tree[i].cuc[j].stream.len() {
                proof {
                    assert(tree.deep_view()[i as int].cuc[j as int].stream[k as int].stream_id
                        == stream_id@);
                }
                return true;
            }
            j += 1;
        }
        i += 1;
    }
    false
}

/// Taking out a Stream that the tree does not hold leaves the tree as it is.
pub proof fn lemma_remove_missing_stream(
    tree: Seq<DomainModel>,
    domain_id: Seq<char>,
    cuc_id: Seq<char>,
    stream_id: Seq<char>,
)
    requires
        !tree_holds_stream(tree, domain_id, cuc_id, stream_id),
    ensures
        tree_without_stream(tree, domain_id, cuc_id, stream_id) == tree,
{
    lemma_first_index(tree, is_domain(domain_id));
    let i = first_index(tree, is_domain(domain_id));
    if i < tree.len() {
        let d = tree[i];
        lemma_first_index(d.cuc, is_cuc(cuc_id));
        let j = first_index(d.cuc, is_cuc(cuc_id));
        if j < d.cuc.len() {
            lemma_first_index(d.cuc[j].stream, is_stream(stream_id));
            assert(d.cuc.update(j, d.cuc[j]) =~= d.cuc);
        }
        assert(tree.update(i, d) =~= tree);
    }
}

} // verus!
