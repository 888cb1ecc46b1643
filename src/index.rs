use vstd::prelude::*;
use crate::model::{MethodDefinition, ObjectDefinition, Reference, ReferenceView};

verus! {

/// A key of a reference index: compared and copied by its view.
pub trait IndexKey: View + Sized {
    fn same_key(&self, other: &Self) -> (r: bool)
        ensures
            r == (self@ == other@);

    fn copy_key(&self) -> (r: Self)
        ensures
            r@ == self@;
}

impl IndexKey for MethodDefinition {
    fn same_key(&self, other: &Self) -> (r: bool) {
        self.method_name == other.method_name && self.method_typename == other.method_typename
            && self.method_assembly == other.method_assembly
    }

    fn copy_key(&self) -> (r: Self) {
        self.clone()
    }
}

impl IndexKey for ObjectDefinition {
    fn same_key(&self, other: &Self) -> (r: bool) {
        self.guid == other.guid
    }

    fn copy_key(&self) -> (r: Self) {
        self.clone()
    }
}

/// The abstract value of each reference of a list.
pub open spec fn refs_view(v: Seq<Reference>) -> Seq<ReferenceView> {
    v.map_values(|r: Reference| r@)
}

/// The references recorded under `k`; none when `k` was never recorded.
pub open spec fn refs_in<KV>(m: Map<KV, Seq<ReferenceView>>, k: KV) -> Seq<ReferenceView> {
    if m.contains_key(k) {
        m[k]
    } else {
        Seq::empty()
    }
}

/// Appends `r` to the references of `k`.
pub open spec fn add_ref<KV>(m: Map<KV, Seq<ReferenceView>>, k: KV, r: ReferenceView) -> Map<
    KV,
    Seq<ReferenceView>,
> {
    m.insert(k, refs_in(m, k).push(r))
}

/// Appends `r` to the references of each key of `keys`, in order.
pub open spec fn add_refs<KV>(m: Map<KV, Seq<ReferenceView>>, keys: Seq<KV>, r: ReferenceView) -> Map<
    KV,
    Seq<ReferenceView>,
>
    decreases keys.len(),
{
    if keys.len() == 0 {
        m
    } else {
        add_ref(add_refs(m, keys.drop_last(), r), keys.last(), r)
    }
}

/// How many references the lists hold together.
pub open spec fn sum_lens(lists: Seq<Vec<Reference>>) -> nat
    decreases lists.len(),
{
    if lists.len() == 0 {
        0
    } else {
        sum_lens(lists.drop_last()) + lists.last()@.len()
    }
}

proof fn lemma_sum_lens_update(lists: Seq<Vec<Reference>>, i: int, v: Vec<Reference>)
    requires
        0 <= i < lists.len(),
    ensures
        sum_lens(lists.update(i, v)) + lists[i].len() == sum_lens(lists) + v.len(),
    decreases lists.len(),
{
    let u = lists.update(i, v);
    if i == lists.len() - 1 {
        assert(u.drop_last() =~= lists.drop_last());
    } else {
        lemma_sum_lens_update(lists.drop_last(), i, v);
        assert(u.drop_last() =~= lists.drop_last().update(i, v));
    }
}

/// A mapping from keys to the ordered list of places that refer to them.
/// Lists only grow, and repeated references are all kept.
pub struct RefIndex<K: IndexKey> {
    keys: Vec<K>,
    refs: Vec<Vec<Reference>>,
    contents: Ghost<Map<K::V, Seq<ReferenceView>>>,
}

impl<K: IndexKey> View for RefIndex<K> {
    type V = Map<K::V, Seq<ReferenceView>>;

    closed spec fn view(&self) -> Map<K::V, Seq<ReferenceView>> {
        self.contents@
    }
}

impl<K: IndexKey> RefIndex<K> {
    /// Each key is held once, beside its list, and the held keys are those
    /// of the contents.
    pub closed spec fn parts_wf(
        keys: Seq<K>,
        refs: Seq<Vec<Reference>>,
        m: Map<K::V, Seq<ReferenceView>>,
    ) -> bool {
        &&& keys.len() == refs.len()
        &&& forall|i: int, j: int| 0 <= i < j < keys.len() ==> keys[i]@ != keys[j]@
        &&& forall|i: int|
            0 <= i < keys.len() ==> #[trigger] m.contains_key(keys[i]@) && m[keys[i]@]
                == refs_view(refs[i]@)
        &&& forall|k: K::V| #[trigger]
            m.contains_key(k) ==> exists|i: int| 0 <= i < keys.len() && keys[i]@ == k
    }

    /// How many references the index holds, over all keys.
    pub closed spec fn total_refs(&self) -> nat {
        sum_lens(self.refs@)
    }

    #[verifier::type_invariant]
    closed spec fn wf(&self) -> bool {
        Self::parts_wf(self.keys@, self.refs@, self.contents@)
    }

    /// An empty index.
    pub fn new() -> (r: Self)
        ensures
            r@ == Map::<K::V, Seq<ReferenceView>>::empty(),
            r.total_refs() == 0,
    {
        RefIndex { keys: Vec::new(), refs: Vec::new(), contents: Ghost(Map::empty()) }
    }

    fn position(keys: &Vec<K>, key: &K) -> (r: Option<usize>)
        ensures
            match r {
                Some(i) => i < keys.len() && keys@[i as int]@ == key@,
                None => forall|j: int| 0 <= j < keys.len() ==> keys@[j]@ != key@,
            },
    {
        let mut i: usize = 0;
        while i < keys.len()
            invariant
                i <= keys.len(),
                forall|j: int| 0 <= j < i ==> keys@[j]@ != key@,
            decreases keys.len() - i,
        {
            if keys[i].same_key(key) {
                return Some(i);
            }
            i = i + 1;
        }
        None
    }

    /// Appends one reference to the list of `key`.
    fn add(
        keys: &mut Vec<K>,
        refs: &mut Vec<Vec<Reference>>,
        m: Ghost<Map<K::V, Seq<ReferenceView>>>,
        key: &K,
        r: &Reference,
    )
        requires
            Self::parts_wf(old(keys)@, old(refs)@, m@),
        ensures
            Self::parts_wf(final(keys)@, final(refs)@, add_ref(m@, key@, r@)),
            sum_lens(final(refs)@) == sum_lens(old(refs)@) + 1,
    {
        let ghost m = m@;
        let ghost n = add_ref(m, key@, r@);
        match Self::position(keys, key) {
            Some(i) => {
                let ghost before = refs@;
                refs[i].push(r.clone());
                proof {
                    lemma_sum_lens_update(before, i as int, refs@[i as int]);
                    assert(refs@ =~= before.update(i as int, refs@[i as int]));
                }
                assert(refs_view(refs@[i as int]@) =~= m[key@].push(r@));
                assert forall|j: int| 0 <= j < keys.len() implies #[trigger] n.contains_key(keys@[j]@)
                    && n[keys@[j]@] == refs_view(refs@[j]@) by {
                    if j != i {
                        assert(refs@[j] == before[j]);
                        assert(keys@[j]@ != key@);
                    }
                }
                assert(Self::parts_wf(keys@, refs@, n));
            },
            None => {
                assert(!m.contains_key(key@));
                let ghost old_keys = keys@;
                keys.push(key.copy_key());
                let mut list: Vec<Reference> = Vec::new();
                list.push(r.clone());
                let ghost before = refs@;
                refs.push(list);
                assert(refs@.drop_last() =~= before);
                assert(refs_view(list@) =~= seq![r@]);
                assert forall|k: K::V| #[trigger] n.contains_key(k) implies exists|i: int|
                    0 <= i < keys.len() && keys@[i]@ == k by {
                    if k == key@ {
                        assert(keys@[keys.len() - 1]@ == k);
                    } else {
                        assert(m.contains_key(k));
                        let w = choose|w: int| 0 <= w < old_keys.len() && old_keys[w]@ == k;
                        assert(keys@[w]@ == k);
                    }
                }
                assert(Self::parts_wf(keys@, refs@, n));
            },
        }
    }

    /// Records one reference to `r` for each key of `batch`, in order.
    pub fn insert_batch(&mut self, batch: &Vec<K>, r: &Reference)
        ensures
            final(self)@ == add_refs(old(self)@, batch@.map_values(|k: K| k@), r@),
            final(self).total_refs() == old(self).total_refs() + batch.len(),
    {
        let mut taken = RefIndex::new();
        core::mem::swap(self, &mut taken);
        proof {
            use_type_invariant(&taken);
        }
        let RefIndex { mut keys, mut refs, contents } = taken;
        let ghost start = contents@;
        let ghost start_total = sum_lens(refs@);
        let ghost mut m = contents@;
        let ghost all = batch@.map_values(|k: K| k@);
        let mut i: usize = 0;
        while i < batch.len()
            invariant
                i <= batch.len(),
                all == batch@.map_values(|k: K| k@),
                m == add_refs(start, all.subrange(0, i as int), r@),
                Self::parts_wf(keys@, refs@, m),
                sum_lens(refs@) == start_total + i,
            decreases batch.len() - i,
        {
            Self::add(&mut keys, &mut refs, Ghost(m), &batch[i], r);
            proof {
                assert(all.subrange(0, i + 1).drop_last() =~= all.subrange(0, i as int));
                m = add_ref(m, batch@[i as int]@, r@);
            }
            i = i + 1;
        }
        assert(all.subrange(0, batch.len() as int) =~= all);
        *self = RefIndex { keys, refs, contents: Ghost(m) };
    }

    /// The references recorded for `key`, in the order they were recorded;
    /// empty when `key` was never recorded.
    pub fn lookup(&self, key: &K) -> (r: Vec<Reference>)
        ensures
            refs_view(r@) == refs_in(self@, key@),
    {
        proof {
            use_type_invariant(self);
        }
        match Self::position(&self.keys, key) {
            Some(i) => {
                let list = &self.refs[i];
                let mut out: Vec<Reference> = Vec::new();
                let mut j: usize = 0;
                while j < list.len()
                    invariant
                        j <= list.len(),
                        out@.len() == j,
                        forall|t: int| 0 <= t < j ==> out@[t]@ == list@[t]@,
                    decreases list.len() - j,
                {
                    out.push(list[j].clone());
                    j = j + 1;
                }
                assert(refs_view(out@) =~= refs_view(list@));
                out
            },
            None => Vec::new(),
        }
    }
}

} // verus!
