use vstd::prelude::*;

verus! {

/// One node of a parsed structured document.
#[derive(Debug)]
pub enum Node {
    /// A string scalar.
    Str(String),
    /// Any other scalar: a number, a boolean, null or an alias.
    Scalar,
    /// An ordered sequence.
    Sequence(Vec<Node>),
    /// A keyed mapping, as its entries in document order.
    Mapping(Vec<(Node, Node)>),
    /// A value that could not be read, or an empty document.
    Absent,
}

/// Whether `n` is the string scalar `s`.
pub open spec fn is_text(n: Node, s: Seq<char>) -> bool {
    match n {
        Node::Str(t) => t@ == s,
        _ => false,
    }
}

/// The value of the first entry whose key is the string `key`.
pub open spec fn entry_value(es: Seq<(Node, Node)>, key: Seq<char>) -> Option<Node>
    decreases es.len(),
{
    if es.len() == 0 {
        None
    } else if is_text(es[0].0, key) {
        Some(es[0].1)
    } else {
        entry_value(es.drop_first(), key)
    }
}

/// The value that a mapping holds under the string key `key`.
pub open spec fn field(n: Node, key: Seq<char>) -> Option<Node> {
    match n {
        Node::Mapping(es) => entry_value(es@, key),
        _ => None,
    }
}

/// The text of a string scalar.
pub open spec fn text_of(n: Option<Node>) -> Option<Seq<char>> {
    match n {
        Some(Node::Str(t)) => Some(t@),
        _ => None,
    }
}

/// Compares two strings character by character.
pub fn same_text(a: &str, b: &str) -> (r: bool)
    ensures
        r == (a@ == b@),
{
    let n = a.unicode_len();
    if n != b.unicode_len() {
        return false;
    }
    let mut i: usize = 0;
    while i < n
        invariant
            n == a@.len(),
            n == b@.len(),
            i <= n,
            forall|j: int| 0 <= j < i ==> a@[j] == b@[j],
        decreases n - i,
    {
        if a.get_char(i) != b.get_char(i) {
            return false;
        }
        i = i + 1;
    }
    assert(a@ =~= b@);
    true
}

impl Node {
    /// Whether this node is the string scalar `s`.
    pub fn is_str(&self, s: &str) -> (r: bool)
        ensures
            r == is_text(*self, s@),
    {
        match self {
            Node::Str(t) => same_text(t.as_str(), s),
            _ => false,
        }
    }

    /// The value held under the string key `key`, where this node is a
    /// mapping that has one.
    pub fn get(&self, key: &str) -> (r: Option<&Node>)
        ensures
            match r {
                Some(v) => field(*self, key@) == Some(*v),
                None => field(*self, key@) is None,
            },
    {
        match self {
            Node::Mapping(es) => {
                let mut i: usize = 0;
                assert(es@.subrange(0, es@.len() as int) =~= es@);
                while i < es.len()
                    invariant
                        i <= es@.len(),
                        field(*self, key@) == entry_value(es@, key@),
                        entry_value(es@, key@) == entry_value(es@.subrange(i as int, es@.len() as int), key@),
                    decreases es.len() - i,
                {
                    let ghost rest = es@.subrange(i as int, es@.len() as int);
                    assert(rest.drop_first() =~= es@.subrange(i + 1, es@.len() as int));
                    assert(rest[0] == es@[i as int]);
                    let entry = &es[i];
                    if entry.0.is_str(key) {
                        assert(entry_value(rest, key@) == Some(entry.1));
                        return Some(&entry.1);
                    }
                    i = i + 1;
                }
                None
            },
            _ => None,
        }
    }
}

} // verus!
