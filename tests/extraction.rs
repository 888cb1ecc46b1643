use asset_refs::extract::{
    parse_call, parse_persistent_calls, search_mono_fields_recursive, search_monobehaviour,
    search_yaml_doc, split_type_assembly,
};
use asset_refs::model::MethodDefinition;
use asset_refs::node::{same_text, Node};
use asset_refs::preprocess::search_documents;

fn text(s: &str) -> Node {
    Node::Str(s.to_string())
}

fn map(entries: Vec<(&str, Node)>) -> Node {
    Node::Mapping(entries.into_iter().map(|(k, v)| (text(k), v)).collect())
}

fn call(name: Option<&str>, combined: Option<&str>) -> Node {
    let mut entries = vec![("m_Target", map(vec![("fileID", Node::Scalar)]))];
    if let Some(c) = combined {
        entries.push(("m_TargetAssemblyTypeName", text(c)));
    }
    if let Some(n) = name {
        entries.push(("m_MethodName", text(n)));
    }
    entries.push(("m_Mode", Node::Scalar));
    map(entries)
}

fn persistent(calls: Vec<Node>) -> Node {
    map(vec![("m_Calls", Node::Sequence(calls))])
}

fn names(found: &[MethodDefinition]) -> Vec<String> {
    found.iter().map(|m| m.method_name.clone()).collect()
}

#[test]
fn split_at_first_separator() {
    let (t, a) = split_type_assembly("Foo.Bar, Some.Assembly").unwrap();
    assert_eq!(t, "Foo.Bar");
    assert_eq!(a, "Some.Assembly");
}

#[test]
fn split_keeps_later_separators_in_assembly() {
    let (t, a) = split_type_assembly("A, B, C").unwrap();
    assert_eq!(t, "A");
    assert_eq!(a, "B, C");
}

#[test]
fn split_without_separator_is_none() {
    assert!(split_type_assembly("Foo.Bar,Some.Assembly").is_none());
    assert!(split_type_assembly("").is_none());
    assert!(split_type_assembly(",").is_none());
}

#[test]
fn split_at_edges() {
    let (t, a) = split_type_assembly(", ").unwrap();
    assert_eq!(t, "");
    assert_eq!(a, "");
}

#[test]
fn same_text_compares_characters() {
    assert!(same_text("m_Calls", "m_Calls"));
    assert!(!same_text("m_Calls", "m_Call"));
    assert!(!same_text("abc", "abd"));
}

#[test]
fn node_get_finds_string_key() {
    let n = map(vec![("a", Node::Scalar), ("b", text("x"))]);
    assert!(matches!(n.get("b"), Some(Node::Str(s)) if s == "x"));
    assert!(n.get("c").is_none());
    assert!(Node::Scalar.get("a").is_none());
}

#[test]
fn parse_call_reads_target() {
    let m = parse_call(&call(Some("DoThing"), Some("Foo.Bar, Some.Assembly"))).unwrap();
    assert_eq!(m.method_name, "DoThing");
    assert_eq!(m.method_typename, "Foo.Bar");
    assert_eq!(m.method_assembly, "Some.Assembly");
}

#[test]
fn parse_call_drops_incomplete_records() {
    assert!(parse_call(&call(None, Some("Foo.Bar, Some.Assembly"))).is_none());
    assert!(parse_call(&call(Some("DoThing"), None)).is_none());
    assert!(parse_call(&call(Some(""), Some("Foo.Bar, Some.Assembly"))).is_none());
    assert!(parse_call(&Node::Scalar).is_none());
}

#[test]
fn parse_call_drops_record_without_separator() {
    assert!(parse_call(&call(Some("DoThing"), Some("Foo.Bar"))).is_none());
}

#[test]
fn parse_call_ignores_non_string_name() {
    let n = map(vec![
        ("m_MethodName", Node::Scalar),
        ("m_TargetAssemblyTypeName", text("Foo.Bar, Some.Assembly")),
    ]);
    assert!(parse_call(&n).is_none());
}

#[test]
fn persistent_calls_keep_only_valid_records() {
    let pc = persistent(vec![
        call(Some("One"), Some("T, A")),
        call(None, Some("T, A")),
        call(Some("Two"), Some("T, A")),
        call(Some("Three"), None),
        call(Some("Four"), Some("no separator")),
    ]);
    let found = parse_persistent_calls(&pc);
    assert_eq!(names(&found), vec!["One", "Two"]);
}

#[test]
fn persistent_calls_without_call_list() {
    assert!(parse_persistent_calls(&map(vec![])).is_empty());
    assert!(parse_persistent_calls(&map(vec![("m_Calls", Node::Scalar)])).is_empty());
}

#[test]
fn recursive_search_finds_nested_markers() {
    let mono = map(vec![
        ("m_Enabled", Node::Scalar),
        (
            "m_OnClick",
            map(vec![("m_PersistentCalls", persistent(vec![call(Some("A"), Some("T, X"))]))]),
        ),
        (
            "m_Events",
            Node::Sequence(vec![
                map(vec![("m_PersistentCalls", persistent(vec![]))]),
                map(vec![(
                    "inner",
                    map(vec![(
                        "m_PersistentCalls",
                        persistent(vec![call(Some("B"), Some("T, X")), call(Some("C"), Some("T, X"))]),
                    )]),
                )]),
            ]),
        ),
    ]);
    let batches = search_monobehaviour(&mono);
    assert_eq!(batches.len(), 3);
    assert_eq!(names(&batches[0]), vec!["A"]);
    assert!(batches[1].is_empty());
    assert_eq!(names(&batches[2]), vec!["B", "C"]);
}

#[test]
fn recursive_search_appends_to_found() {
    let mut found = vec![vec![]];
    let n = map(vec![("m_PersistentCalls", persistent(vec![call(Some("A"), Some("T, X"))]))]);
    search_mono_fields_recursive(&n, &mut found);
    assert_eq!(found.len(), 2);
    assert_eq!(names(&found[1]), vec!["A"]);
}

#[test]
fn marker_value_is_not_searched_further() {
    let inner = map(vec![("m_PersistentCalls", persistent(vec![call(Some("Deep"), Some("T, X"))]))]);
    let pc = map(vec![("m_Calls", Node::Sequence(vec![])), ("other", inner)]);
    let n = map(vec![("m_PersistentCalls", pc)]);
    let batches = search_monobehaviour(&n);
    assert_eq!(batches.len(), 1);
    assert!(batches[0].is_empty());
}

#[test]
fn document_without_component_gives_nothing() {
    let doc = map(vec![("GameObject", map(vec![("m_PersistentCalls", persistent(vec![call(Some("A"), Some("T, X"))]))]))]);
    assert!(search_yaml_doc(&doc).is_empty());
    assert!(search_yaml_doc(&Node::Sequence(vec![])).is_empty());
    assert!(search_yaml_doc(&Node::Absent).is_empty());
}

#[test]
fn document_with_component_is_searched() {
    let mono = map(vec![("m_PersistentCalls", persistent(vec![call(Some("A"), Some("T, X"))]))]);
    let doc = map(vec![("MonoBehaviour", mono)]);
    let batches = search_yaml_doc(&doc);
    assert_eq!(batches.len(), 1);
    assert_eq!(names(&batches[0]), vec!["A"]);
}

#[test]
fn unsupported_document_does_not_block_the_next() {
    let bad = Node::Sequence(vec![text("a"), text("b")]);
    let mono = map(vec![("m_PersistentCalls", persistent(vec![call(Some("Only"), Some("T, X"))]))]);
    let good = map(vec![("MonoBehaviour", mono)]);
    let batches = search_documents(&vec![bad, good]);
    let all: Vec<String> = batches.iter().flat_map(|b| names(b)).collect();
    assert_eq!(all, vec!["Only"]);
}
