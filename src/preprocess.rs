use vstd::prelude::*;
use crate::extract::{batches_view, document_batches, search_yaml_doc};
use crate::model::{MethodDefinition, MethodId};
use crate::node::Node;

verus! {

#[verifier::external_type_specification]
#[verifier::external_body]
pub struct ExRegex(regex::Regex);

#[verifier::external_type_specification]
#[verifier::external_body]
pub struct ExRegexError(regex::Error);

#[verifier::external_type_specification]
#[verifier::external_body]
pub struct ExYaml(saphyr::Yaml);

/// Relies on regex::Regex::new to compile a pattern; it fails on a pattern
/// that is not a valid expression or is too large.
pub assume_specification[ regex::Regex::new ](re: &str) -> Result<regex::Regex, regex::Error>;

/// What the compatibility patch makes of a text: each malformed separator
/// rewritten into its well-formed head.
pub uninterp spec fn stripped_patched(text: Seq<char>) -> Seq<char>;

/// Whether `p` occurs in `s` as a contiguous run.
pub open spec fn contains_infix(s: Seq<char>, p: Seq<char>) -> bool {
    exists|i: int| 0 <= i && i + p.len() <= s.len() && #[trigger] s.subrange(i, i + p.len()) == p
}

/// Whether `text` loads as a stream of documents.
pub uninterp spec fn yaml_stream_loads(text: Seq<char>) -> bool;

/// The documents that `text` loads to, in stream order.
pub uninterp spec fn yaml_documents(text: Seq<char>) -> Seq<Node>;

/// Relies on saphyr::Yaml::load_from_parser over a saphyr_parser::Parser
/// that keeps tags: it loads every document of `text`, in order, and fails
/// if and only if one of them does not parse. The result depends on the text
/// alone.
#[verifier::external_body]
fn load_nodes(text: &str) -> (r: Option<Vec<Node>>)
    ensures
        r is Some == yaml_stream_loads(text@),
        r matches Some(d) ==> d@ == yaml_documents(text@),
{
    let mut parser = saphyr_parser::Parser::new_from_str(text).keep_tags(true);
    saphyr::Yaml::load_from_parser(&mut parser).ok().map(|docs| docs.iter().map(node_of).collect())
}

/// Copies a loaded saphyr::Yaml value into a [`Node`], variant for variant;
/// used by `load_nodes` alone.
#[verifier::external_body]
fn node_of(y: &saphyr::Yaml) -> Node {
    match y {
        saphyr::Yaml::String(s) => Node::Str(s.clone()),
        saphyr::Yaml::Array(items) => Node::Sequence(items.iter().map(node_of).collect()),
        saphyr::Yaml::Hash(h) => Node::Mapping(h.iter().map(|(k, v)| (node_of(k), node_of(v))).collect()),
        saphyr::Yaml::Real(_) | saphyr::Yaml::Integer(_) | saphyr::Yaml::Boolean(_) => Node::Scalar,
        saphyr::Yaml::Alias(_) | saphyr::Yaml::Null => Node::Scalar,
        saphyr::Yaml::BadValue => Node::Absent,
    }
}

/// The pattern of the malformed separator that the authoring tool writes for
/// a component whose script reference was stripped: `--- !u!114 &1 stripped`.
pub const STRIPPED_SEPARATOR: &'static str = r"(--- .* .*) stripped";

/// What the malformed separator becomes: its well-formed head.
pub const SEPARATOR_HEAD: &'static str = "$1";

/// Why an asset file gave no documents.
#[derive(Debug, PartialEq, Eq, Structural)]
pub enum ReadErr {
    /// The file could not be read.
    Io,
    /// The text is not a valid document stream.
    Yaml,
}

/// The batches of call targets of a sequence of documents, document after
/// document.
pub open spec fn documents_batches(docs: Seq<Node>) -> Seq<Seq<MethodId>>
    decreases docs.len(),
{
    if docs.len() == 0 {
        Seq::empty()
    } else {
        documents_batches(docs.drop_last()) + document_batches(docs.last())
    }
}

/// Searches each document in turn; a document that is not supported adds
/// nothing and does not stop the others.
pub fn search_documents(docs: &Vec<Node>) -> (r: Vec<Vec<MethodDefinition>>)
    ensures
        batches_view(r@) == documents_batches(docs@),
{
    let mut r: Vec<Vec<MethodDefinition>> = Vec::new();
    let mut i: usize = 0;
    while i < docs.len()
        invariant
            i <= docs.len(),
            batches_view(r@) == documents_batches(docs@.subrange(0, i as int)),
        decreases docs.len() - i,
    {
        let mut found = search_yaml_doc(&docs[i]);
        let ghost before = batches_view(r@);
        let ghost added = batches_view(found@);
        r.append(&mut found);
        assert(batches_view(r@) =~= before + added);
        assert(docs@.subrange(0, i + 1).drop_last() =~= docs@.subrange(0, i as int));
        i = i + 1;
    }
    assert(docs@.subrange(0, docs.len() as int) =~= docs@);
    r
}

/// The compiled compatibility patch, shared by every file read. Only `new`
/// sets its fields: `stripped` is compiled from [`STRIPPED_SEPARATOR`] and
/// `head` is [`SEPARATOR_HEAD`].
pub struct Preprocessor {
    stripped: regex::Regex,
    head: String,
}

impl Preprocessor {
    /// Compiles the patch; `None` only if the pattern does not compile.
    pub fn new() -> (r: Option<Preprocessor>) {
        match regex::Regex::new(STRIPPED_SEPARATOR) {
            Ok(stripped) => Some(Preprocessor { stripped, head: SEPARATOR_HEAD.to_owned() }),
            Err(_) => None,
        }
    }

    /// Rewrites the malformed separators of `text` into well-formed ones.
    ///
    /// Relies on regex::Regex::replace_all with the pattern and replacement
    /// that `new` set: every non-overlapping match is replaced, `$1` standing
    /// for the first capture group; the result depends on the text alone, and
    /// a text with no ` stripped` in it has no match and comes back unchanged.
    #[verifier::external_body]
    pub fn patch(&self, text: &str) -> (r: String)
        ensures
            r@ == stripped_patched(text@),
            !contains_infix(text@, " stripped"@) ==> r@ == text@,
    {
        self.stripped.replace_all(text, self.head.as_str()).into_owned()
    }

    /// Patches the text of one asset file, then loads and searches it. The
    /// file is given up as a whole, with an error, exactly when the patched
    /// text does not load.
    pub fn read_file_to_calls(&self, text: &str) -> (r: Result<Vec<Vec<MethodDefinition>>, ReadErr>)
        ensures
            r is Ok == yaml_stream_loads(stripped_patched(text@)),
            match r {
                Ok(found) => batches_view(found@) == documents_batches(
                    yaml_documents(stripped_patched(text@)),
                ),
                Err(e) => e == ReadErr::Yaml,
            },
    {
        let cleaned = self.patch(text);
        load_calls(cleaned.as_str())
    }
}

/// Loads the documents of an already patched text and searches each one:
/// an error exactly when the text does not load.
pub fn load_calls(text: &str) -> (r: Result<Vec<Vec<MethodDefinition>>, ReadErr>)
    ensures
        r is Ok == yaml_stream_loads(text@),
        match r {
            Ok(found) => batches_view(found@) == documents_batches(yaml_documents(text@)),
            Err(e) => e == ReadErr::Yaml,
        },
{
    match load_nodes(text) {
        Some(docs) => Ok(search_documents(&docs)),
        None => Err(ReadErr::Yaml),
    }
}

} // verus!
