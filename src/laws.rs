use vstd::prelude::*;
use vstd::multiset::Multiset;
use crate::extract::{call_target, call_targets, document_batches};
use crate::index::{add_refs, refs_in};
use crate::model::{MethodId, ReferenceView};
use crate::node::Node;
use crate::preprocess::documents_batches;
use crate::status::{StatusResponse, finish_step, start_step};

verus! {

/// How many times `k` occurs in `keys`.
pub open spec fn occurrences<KV>(keys: Seq<KV>, k: KV) -> nat {
    keys.filter(|x: KV| x == k).len()
}

/// Adding a batch appends to each key one reference per occurrence of the key
/// in the batch, and leaves what was there before.
pub proof fn lemma_add_refs_appends<KV>(
    m: Map<KV, Seq<ReferenceView>>,
    keys: Seq<KV>,
    r: ReferenceView,
    k: KV,
)
    ensures
        refs_in(add_refs(m, keys, r), k) =~= refs_in(m, k) + Seq::new(
            occurrences(keys, k),
            |i: int| r,
        ),
    decreases keys.len(),
{
    if keys.len() > 0 {
        lemma_add_refs_appends(m, keys.drop_last(), r, k);
        reveal(Seq::filter);
        assert(keys.filter(|x: KV| x == k) == if keys.last() == k {
            keys.drop_last().filter(|x: KV| x == k).push(keys.last())
        } else {
            keys.drop_last().filter(|x: KV| x == k)
        });
    }
}

/// A call list yields one target per valid record and none for an invalid
/// one, and recording it adds exactly those targets' references: with
/// `RefIndex::insert_batch`, whose total grows by the batch's length, a call
/// list of N valid records and any number of invalid ones adds exactly N
/// references to the index.
pub proof fn lemma_valid_records_counted(
    m: Map<MethodId, Seq<ReferenceView>>,
    records: Seq<Node>,
    r: ReferenceView,
)
    ensures
        call_targets(records).len() == records.filter(|c: Node| call_target(c) is Some).len(),
        forall|k: MethodId|
            #[trigger] refs_in(add_refs(m, call_targets(records), r), k) =~= refs_in(m, k)
                + Seq::new(occurrences(call_targets(records), k), |i: int| r),
    decreases records.len(),
{
    reveal(Seq::filter);
    if records.len() > 0 {
        lemma_valid_records_counted(m, records.drop_last(), r);
    }
    assert forall|k: MethodId| #[trigger]
        refs_in(add_refs(m, call_targets(records), r), k) =~= refs_in(m, k) + Seq::new(
            occurrences(call_targets(records), k),
            |i: int| r,
        ) by {
        lemma_add_refs_appends(m, call_targets(records), r, k);
    }
}

/// The references that two files add under a key are the same whichever
/// file is recorded first; from an empty list, two files that each call the
/// method once leave exactly two references.
pub proof fn lemma_two_files_any_order<KV>(
    m: Map<KV, Seq<ReferenceView>>,
    first: Seq<KV>,
    second: Seq<KV>,
    r1: ReferenceView,
    r2: ReferenceView,
    k: KV,
)
    ensures
        refs_in(add_refs(add_refs(m, first, r1), second, r2), k).to_multiset()
            =~= refs_in(add_refs(add_refs(m, second, r2), first, r1), k).to_multiset(),
        !m.contains_key(k) && occurrences(first, k) == 1 && occurrences(second, k) == 1 ==>
            refs_in(add_refs(add_refs(m, first, r1), second, r2), k).len() == 2,
{
    let a = Seq::new(occurrences(first, k), |i: int| r1);
    let b = Seq::new(occurrences(second, k), |i: int| r2);
    lemma_add_refs_appends(m, first, r1, k);
    lemma_add_refs_appends(add_refs(m, first, r1), second, r2, k);
    lemma_add_refs_appends(m, second, r2, k);
    lemma_add_refs_appends(add_refs(m, second, r2), first, r1, k);
    let base = refs_in(m, k);
    assert(refs_in(add_refs(add_refs(m, first, r1), second, r2), k) =~= (base + a) + b);
    assert(refs_in(add_refs(add_refs(m, second, r2), first, r1), k) =~= (base + b) + a);
    vstd::seq_lib::lemma_multiset_commutative(base + a, b);
    vstd::seq_lib::lemma_multiset_commutative(base, a);
    vstd::seq_lib::lemma_multiset_commutative(base + b, a);
    vstd::seq_lib::lemma_multiset_commutative(base, b);
}

/// A key that was never recorded has no references.
pub proof fn lemma_unrecorded_is_empty<KV>(m: Map<KV, Seq<ReferenceView>>, k: KV)
    requires
        !m.contains_key(k),
    ensures
        refs_in(m, k) == Seq::<ReferenceView>::empty(),
{
}

/// Of two requests to start, at most one starts a crawl, and from an
/// inactive crawler exactly one does; a request after the crawl completed
/// starts nothing, and once ready, a crawler stays ready.
pub proof fn lemma_started_once(s: StatusResponse)
    ensures
        !(start_step(s).1 && start_step(start_step(s).0).1),
        s is Inactive ==> start_step(s).1 && !start_step(start_step(s).0).1,
        !start_step(finish_step(start_step(s).0)).1,
        start_step(StatusResponse::Ready) == (StatusResponse::Ready, false),
        finish_step(StatusResponse::Ready) == StatusResponse::Ready,
{
}

/// A document whose root is not a mapping adds nothing, and does not keep
/// the next document of the file from being searched.
pub proof fn lemma_unsupported_document_skipped(bad: Node, good: Node)
    requires
        !(bad is Mapping),
    ensures
        documents_batches(seq![bad, good]) == document_batches(good),
{
    let docs = seq![bad, good];
    assert(docs.drop_last() =~= seq![bad]);
    assert(seq![bad].drop_last() =~= Seq::<Node>::empty());
    assert(seq![bad].last() == bad);
    assert(document_batches(bad) =~= Seq::<Seq<MethodId>>::empty());
    assert(documents_batches(Seq::<Node>::empty()) =~= Seq::<Seq<MethodId>>::empty());
    assert(documents_batches(seq![bad]) =~= Seq::<Seq<MethodId>>::empty());
    assert(documents_batches(docs) =~= document_batches(good));
}

/// Records each file's batch in turn, under the file's reference.
pub open spec fn add_files<KV>(
    m: Map<KV, Seq<ReferenceView>>,
    files: Seq<(Seq<KV>, ReferenceView)>,
) -> Map<KV, Seq<ReferenceView>>
    decreases files.len(),
{
    if files.len() == 0 {
        m
    } else {
        add_refs(add_files(m, files.drop_last()), files.last().0, files.last().1)
    }
}

/// The references that one file adds under `k`.
pub open spec fn file_share<KV>(file: (Seq<KV>, ReferenceView), k: KV) -> Multiset<ReferenceView> {
    Seq::new(occurrences(file.0, k), |i: int| file.1).to_multiset()
}

/// The references that `files` add under `k`, as a multiset.
pub open spec fn files_share<KV>(files: Seq<(Seq<KV>, ReferenceView)>, k: KV) -> Multiset<
    ReferenceView,
>
    decreases files.len(),
{
    if files.len() == 0 {
        Multiset::empty()
    } else {
        files_share(files.drop_last(), k).add(file_share(files.last(), k))
    }
}

proof fn lemma_add_files_share<KV>(
    m: Map<KV, Seq<ReferenceView>>,
    files: Seq<(Seq<KV>, ReferenceView)>,
    k: KV,
)
    ensures
        refs_in(add_files(m, files), k).to_multiset() =~= refs_in(m, k).to_multiset().add(
            files_share(files, k),
        ),
    decreases files.len(),
{
    if files.len() > 0 {
        let f = files.last();
        let before = add_files(m, files.drop_last());
        lemma_add_files_share(m, files.drop_last(), k);
        lemma_add_refs_appends(before, f.0, f.1, k);
        vstd::seq_lib::lemma_multiset_commutative(
            refs_in(before, k),
            Seq::new(occurrences(f.0, k), |i: int| f.1),
        );
    }
}

proof fn lemma_files_share_remove<KV>(files: Seq<(Seq<KV>, ReferenceView)>, j: int, k: KV)
    requires
        0 <= j < files.len(),
    ensures
        files_share(files, k) =~= files_share(files.remove(j), k).add(file_share(files[j], k)),
    decreases files.len(),
{
    if j == files.len() - 1 {
        assert(files.remove(j) =~= files.drop_last());
    } else {
        lemma_files_share_remove(files.drop_last(), j, k);
        assert(files.remove(j).drop_last() =~= files.drop_last().remove(j));
        assert(files.remove(j).last() == files.last());
    }
}

proof fn lemma_files_share_reordered<KV>(
    a: Seq<(Seq<KV>, ReferenceView)>,
    b: Seq<(Seq<KV>, ReferenceView)>,
    k: KV,
)
    requires
        a.to_multiset() == b.to_multiset(),
    ensures
        files_share(a, k) == files_share(b, k),
    decreases a.len(),
{
    broadcast use vstd::seq_lib::group_to_multiset_ensures;

    if a.len() == 0 {
        assert(a.to_multiset().len() == a.len());
        assert(b.to_multiset().len() == b.len());
        assert(b.len() == 0);
        assert(b =~= Seq::<(Seq<KV>, ReferenceView)>::empty());
    } else {
        let x = a.last();
        assert(a =~= a.drop_last().push(x));
        assert(a.to_multiset().count(x) > 0);
        assert(b.contains(x));
        let j = choose|j: int| 0 <= j < b.len() && b[j] == x;
        assert(b.remove(j).to_multiset() == b.to_multiset().remove(x));
        assert(a.drop_last().to_multiset() =~= a.to_multiset().remove(x));
        lemma_files_share_reordered(a.drop_last(), b.remove(j), k);
        lemma_files_share_remove(b, j, k);
    }
}

/// Which keys an index holds after recording a batch: those it held, and
/// those of the batch.
proof fn lemma_add_refs_keys<KV>(m: Map<KV, Seq<ReferenceView>>, keys: Seq<KV>, r: ReferenceView, k: KV)
    ensures
        add_refs(m, keys, r).contains_key(k) == (m.contains_key(k) || occurrences(keys, k) > 0),
    decreases keys.len(),
{
    if keys.len() > 0 {
        lemma_add_refs_keys(m, keys.drop_last(), r, k);
        reveal(Seq::filter);
        assert(keys.filter(|x: KV| x == k) == if keys.last() == k {
            keys.drop_last().filter(|x: KV| x == k).push(keys.last())
        } else {
            keys.drop_last().filter(|x: KV| x == k)
        });
    }
}

proof fn lemma_add_files_keys<KV>(
    m: Map<KV, Seq<ReferenceView>>,
    files: Seq<(Seq<KV>, ReferenceView)>,
    k: KV,
)
    ensures
        add_files(m, files).contains_key(k) == (m.contains_key(k) || files_share(files, k).len() > 0),
    decreases files.len(),
{
    if files.len() > 0 {
        let f = files.last();
        lemma_add_files_keys(m, files.drop_last(), k);
        lemma_add_refs_keys(add_files(m, files.drop_last()), f.0, f.1, k);
        broadcast use vstd::seq_lib::group_to_multiset_ensures;
        assert(file_share(f, k).len() == occurrences(f.0, k));
    }
}

/// Recording the same files in any order gives the same keys, and under
/// each key the same references, up to their order: two crawls of an
/// unchanged tree agree whatever order their tasks ran in.
pub proof fn lemma_crawl_order_irrelevant<KV>(
    m: Map<KV, Seq<ReferenceView>>,
    files: Seq<(Seq<KV>, ReferenceView)>,
    reordered: Seq<(Seq<KV>, ReferenceView)>,
)
    requires
        files.to_multiset() == reordered.to_multiset(),
    ensures
        add_files(m, files).dom() == add_files(m, reordered).dom(),
        forall|k: KV|
            #[trigger] refs_in(add_files(m, files), k).to_multiset() == refs_in(
                add_files(m, reordered),
                k,
            ).to_multiset(),
{
    assert forall|k: KV|
        #[trigger] refs_in(add_files(m, files), k).to_multiset() == refs_in(
            add_files(m, reordered),
            k,
        ).to_multiset() by {
        lemma_add_files_share(m, files, k);
        lemma_add_files_share(m, reordered, k);
        lemma_files_share_reordered(files, reordered, k);
    }
    assert forall|k: KV| add_files(m, files).dom().contains(k) == add_files(m, reordered).dom().contains(k) by {
        lemma_add_files_keys(m, files, k);
        lemma_add_files_keys(m, reordered, k);
        lemma_files_share_reordered(files, reordered, k);
    }
    assert(add_files(m, files).dom() =~= add_files(m, reordered).dom());
}

} // verus!
