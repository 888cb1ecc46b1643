use vstd::prelude::*;
use crate::model::{MethodDefinition, MethodId};
use crate::node::{Node, field, text_of, is_text};

verus! {

/// Whether the two-character separator `", "` starts at `i`.
pub open spec fn is_sep_at(s: Seq<char>, i: int) -> bool {
    0 <= i && i + 1 < s.len() && s[i] == ',' && s[i + 1] == ' '
}

/// Whether `i` is where the first separator starts.
pub open spec fn is_first_sep(s: Seq<char>, i: int) -> bool {
    is_sep_at(s, i) && forall|j: int| 0 <= j < i ==> !is_sep_at(s, j)
}

/// A combined `"Type, Assembly"` string split at its first separator.
pub open spec fn type_and_assembly(s: Seq<char>) -> Option<(Seq<char>, Seq<char>)> {
    if exists|i: int| is_first_sep(s, i) {
        let i = choose|i: int| is_first_sep(s, i);
        Some((s.subrange(0, i), s.subrange(i + 2, s.len() as int)))
    } else {
        None
    }
}

/// The method that one serialized call record targets. Records without a
/// method name or without a combined type string, with an empty method name
/// (an unbound slot), or whose combined string has no separator, target
/// nothing.
pub open spec fn call_target(call: Node) -> Option<MethodId> {
    match (
        text_of(field(call, "m_MethodName"@)),
        text_of(field(call, "m_TargetAssemblyTypeName"@)),
    ) {
        (Some(name), Some(combined)) => {
            if name.len() == 0 {
                None
            } else {
                match type_and_assembly(combined) {
                    Some((t, a)) => Some(MethodId { name, declaring_type: t, assembly: a }),
                    None => None,
                }
            }
        },
        _ => None,
    }
}

/// The targets of a list of call records, in order, the records that target
/// nothing left out.
pub open spec fn call_targets(records: Seq<Node>) -> Seq<MethodId>
    decreases records.len(),
{
    if records.len() == 0 {
        Seq::empty()
    } else {
        let before = call_targets(records.drop_last());
        match call_target(records.last()) {
            Some(m) => before.push(m),
            None => before,
        }
    }
}

/// The targets that a persistent calls record lists under its call list.
pub open spec fn persistent_call_targets(pc: Node) -> Seq<MethodId> {
    match field(pc, "m_Calls"@) {
        Some(Node::Sequence(v)) => call_targets(v@),
        _ => Seq::empty(),
    }
}

/// The identities of a list of methods.
pub open spec fn ids(v: Seq<MethodDefinition>) -> Seq<MethodId> {
    v.map_values(|m: MethodDefinition| m@)
}

/// The identities in each batch of a list of batches.
pub open spec fn batches_view(v: Seq<Vec<MethodDefinition>>) -> Seq<Seq<MethodId>> {
    v.map_values(|b: Vec<MethodDefinition>| ids(b@))
}

/// How many children a sequence or mapping has; scalars have none.
pub open spec fn child_count(n: Node) -> int {
    match n {
        Node::Sequence(v) => v.len() as int,
        Node::Mapping(es) => es.len() as int,
        _ => 0,
    }
}

/// The batches of call targets found, depth first, in the first `k`
/// children of `n`. A mapping entry keyed by the persistent calls marker
/// gives one batch and is not searched further.
pub open spec fn prefix_batches(n: Node, k: int) -> Seq<Seq<MethodId>>
    decreases n, k,
{
    if k <= 0 {
        Seq::empty()
    } else {
        match n {
            Node::Sequence(v) => {
                if k > v.len() {
                    Seq::empty()
                } else {
                    prefix_batches(n, k - 1) + prefix_batches(v[k - 1], child_count(v[k - 1]))
                }
            },
            Node::Mapping(es) => {
                if k > es.len() {
                    Seq::empty()
                } else if is_text(es[k - 1].0, "m_PersistentCalls"@) {
                    prefix_batches(n, k - 1).push(persistent_call_targets(es[k - 1].1))
                } else {
                    prefix_batches(n, k - 1) + prefix_batches(es[k - 1].1, child_count(es[k - 1].1))
                }
            },
            _ => Seq::empty(),
        }
    }
}

/// All the batches of call targets found under `n`, in document order.
pub open spec fn node_batches(n: Node) -> Seq<Seq<MethodId>> {
    prefix_batches(n, child_count(n))
}

/// The batches that one document contributes: only a mapping root with a
/// scripted component entry is searched.
pub open spec fn document_batches(doc: Node) -> Seq<Seq<MethodId>> {
    match doc {
        Node::Mapping(_) => match field(doc, "MonoBehaviour"@) {
            Some(m) => node_batches(m),
            None => Seq::empty(),
        },
        _ => Seq::empty(),
    }
}

/// Splits a combined `"Type, Assembly"` string at the first `", "`.
pub fn split_type_assembly(s: &str) -> (r: Option<(String, String)>)
    ensures
        match r {
            Some((t, a)) => type_and_assembly(s@) == Some((t@, a@)),
            None => type_and_assembly(s@) is None,
        },
{
    let n = s.unicode_len();
    let mut i: usize = 0;
    while i < n
        invariant
            n == s@.len(),
            i <= n,
            forall|j: int| 0 <= j < i ==> !is_sep_at(s@, j),
        decreases n - i,
    {
        if i + 1 < n && s.get_char(i) == ',' && s.get_char(i + 1) == ' ' {
            assert(is_first_sep(s@, i as int));
            let ghost c = choose|c: int| is_first_sep(s@, c);
            assert(c == i) by {
                if c < i {
                    assert(!is_sep_at(s@, c));
                } else if c > i {
                    assert(!is_sep_at(s@, i as int));
                }
            }
            let t = s.substring_char(0, i).to_owned();
            let a = s.substring_char(i + 2, n).to_owned();
            return Some((t, a));
        }
        i = i + 1;
    }
    assert(forall|j: int| !is_sep_at(s@, j));
    None
}

/// Reads the method that one call record targets.
pub fn parse_call(call: &Node) -> (r: Option<MethodDefinition>)
    ensures
        match r {
            Some(m) => call_target(*call) == Some(m@),
            None => call_target(*call) is None,
        },
{
    let method_name = match call.get("m_MethodName") {
        Some(Node::Str(name)) => name,
        _ => return None,
    };
    let combined = match call.get("m_TargetAssemblyTypeName") {
        Some(Node::Str(c)) => c,
        _ => return None,
    };
    if method_name.as_str().unicode_len() == 0 {
        return None;
    }
    match split_type_assembly(combined.as_str()) {
        Some((class, assembly)) => Some(
            MethodDefinition {
                method_name: method_name.clone(),
                method_assembly: assembly,
                method_typename: class,
            },
        ),
        None => None,
    }
}

/// Reads the targets of every call record that a persistent calls record
/// lists, in order.
pub fn parse_persistent_calls(persistent_calls: &Node) -> (r: Vec<MethodDefinition>)
    ensures
        ids(r@) == persistent_call_targets(*persistent_calls),
{
    let mut r: Vec<MethodDefinition> = Vec::new();
    match persistent_calls.get("m_Calls") {
        Some(Node::Sequence(targets)) => {
            let mut i: usize = 0;
            while i < targets.len()
                invariant
                    i <= targets.len(),
                    ids(r@) == call_targets(targets@.subrange(0, i as int)),
                decreases targets.len() - i,
            {
                let ghost before = targets@.subrange(0, i as int);
                let ghost after = targets@.subrange(0, i + 1);
                assert(after.drop_last() =~= before);
                match parse_call(&targets[i]) {
                    Some(m) => {
                        r.push(m);
                        assert(ids(r@) =~= call_targets(after));
                    },
                    None => {},
                }
                i = i + 1;
            }
            assert(targets@.subrange(0, targets.len() as int) =~= targets@);
        },
        _ => {},
    }
    r
}

/// Searches `node` depth first and appends to `found` one batch for each
/// persistent calls record met, in document order.
pub fn search_mono_fields_recursive(node: &Node, found: &mut Vec<Vec<MethodDefinition>>)
    ensures
        batches_view(final(found)@) == batches_view(old(found)@) + node_batches(*node),
    decreases node,
{
    let ghost start = batches_view(found@);
    match node {
        Node::Sequence(items) => {
            let mut k: usize = 0;
            while k < items.len()
                invariant
                    k <= items.len(),
                    *node == Node::Sequence(*items),
                    batches_view(found@) == start + prefix_batches(*node, k as int),
                decreases items.len() - k,
            {
                search_mono_fields_recursive(&items[k], found);
                k = k + 1;
                assert(batches_view(found@) =~= start + prefix_batches(*node, k as int));
            }
        },
        Node::Mapping(entries) => {
            let mut k: usize = 0;
            while k < entries.len()
                invariant
                    k <= entries.len(),
                    *node == Node::Mapping(*entries),
                    batches_view(found@) == start + prefix_batches(*node, k as int),
                decreases entries.len() - k,
            {
                let entry = &entries[k];
                let ghost before = batches_view(found@);
                if entry.0.is_str("m_PersistentCalls") {
                    let batch = parse_persistent_calls(&entry.1);
                    found.push(batch);
                    assert(batches_view(found@) =~= before.push(ids(batch@)));
                } else {
                    search_mono_fields_recursive(&entry.1, found);
                }
                k = k + 1;
                assert(batches_view(found@) =~= start + prefix_batches(*node, k as int));
            }
        },
        _ => {},
    }
    assert(batches_view(found@) =~= start + node_batches(*node));
}

/// Searches the data of one scripted component.
pub fn search_monobehaviour(mono: &Node) -> (r: Vec<Vec<MethodDefinition>>)
    ensures
        batches_view(r@) == node_batches(*mono),
{
    let mut found: Vec<Vec<MethodDefinition>> = Vec::new();
    search_mono_fields_recursive(mono, &mut found);
    assert(batches_view(found@) =~= node_batches(*mono));
    found
}

/// Searches one document. Documents whose root is not a mapping, and
/// mappings that are not a scripted component, give nothing.
pub fn search_yaml_doc(doc: &Node) -> (r: Vec<Vec<MethodDefinition>>)
    ensures
        batches_view(r@) == document_batches(*doc),
{
    match doc {
        Node::Mapping(_) => match doc.get("MonoBehaviour") {
            Some(mono) => search_monobehaviour(mono),
            None => Vec::new(),
        },
        _ => Vec::new(),
    }
}

} // verus!
