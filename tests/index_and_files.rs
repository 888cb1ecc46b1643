use asset_refs::index::RefIndex;
use asset_refs::model::{MethodDefinition, ObjectDefinition, Reference};
use asset_refs::preprocess::{load_calls, Preprocessor, ReadErr};

fn method(name: &str, t: &str, a: &str) -> MethodDefinition {
    MethodDefinition {
        method_name: name.to_string(),
        method_assembly: a.to_string(),
        method_typename: t.to_string(),
    }
}

fn files(refs: &[Reference]) -> Vec<String> {
    let mut v: Vec<String> = refs.iter().map(|r| r.file.clone()).collect();
    v.sort();
    v
}

const SCENE: &str = "%YAML 1.1
%TAG !u! tag:unity3d.com,2011:
--- !u!1 &100
GameObject:
  m_Name: Button
--- !u!114 &200
MonoBehaviour:
  m_Enabled: 1
  m_OnClick:
    m_PersistentCalls:
      m_Calls:
      - m_Target: {fileID: 100}
        m_TargetAssemblyTypeName: Foo.Bar, Some.Assembly
        m_MethodName: DoThing
        m_Mode: 1
      - m_Target: {fileID: 0}
        m_TargetAssemblyTypeName: 
        m_MethodName: 
        m_Mode: 1
--- !u!114 &300 stripped
MonoBehaviour:
  m_CorrespondingSourceObject: {fileID: 1}
";

#[test]
fn lookup_of_unrecorded_method_is_empty() {
    let index: RefIndex<MethodDefinition> = RefIndex::new();
    assert!(index.lookup(&method("Nope", "T", "A")).is_empty());
}

#[test]
fn two_files_same_method_give_two_references() {
    let k = method("DoThing", "Foo.Bar", "Some.Assembly");
    let mut index = RefIndex::new();
    index.insert_batch(&vec![k.clone()], &Reference::to_file("a.unity".to_string()));
    index.insert_batch(&vec![k.clone()], &Reference::to_file("b.prefab".to_string()));
    let refs = index.lookup(&k);
    assert_eq!(refs.len(), 2);
    assert_eq!(files(&refs), vec!["a.unity", "b.prefab"]);
}

#[test]
fn insertion_order_does_not_change_reference_set() {
    let k = method("M", "T", "A");
    let other = method("N", "T", "A");
    let mut first = RefIndex::new();
    first.insert_batch(&vec![k.clone(), other.clone()], &Reference::to_file("a.unity".to_string()));
    first.insert_batch(&vec![k.clone()], &Reference::to_file("b.unity".to_string()));
    let mut second = RefIndex::new();
    second.insert_batch(&vec![k.clone()], &Reference::to_file("b.unity".to_string()));
    second.insert_batch(&vec![k.clone(), other.clone()], &Reference::to_file("a.unity".to_string()));
    assert_eq!(files(&first.lookup(&k)), files(&second.lookup(&k)));
    assert_eq!(files(&first.lookup(&other)), vec!["a.unity"]);
}

#[test]
fn repeated_calls_all_accumulate() {
    let k = method("M", "T", "A");
    let mut index = RefIndex::new();
    index.insert_batch(&vec![k.clone(), k.clone()], &Reference::to_file("a.unity".to_string()));
    assert_eq!(index.lookup(&k).len(), 2);
    assert!(index.lookup(&method("M", "T", "B")).is_empty());
}

#[test]
fn batch_of_valid_records_only_counts_them() {
    let mut index = RefIndex::new();
    index.insert_batch(&vec![], &Reference::to_file("a.unity".to_string()));
    assert!(index.lookup(&method("M", "T", "A")).is_empty());
}

#[test]
fn object_index_is_keyed_by_guid() {
    let mut index = RefIndex::new();
    let g = ObjectDefinition { guid: "abc".to_string() };
    index.insert_batch(&vec![g.clone()], &Reference::to_file("a.unity".to_string()));
    assert_eq!(index.lookup(&g).len(), 1);
    assert!(index.lookup(&ObjectDefinition { guid: "abd".to_string() }).is_empty());
}

#[test]
fn reference_clone_keeps_every_field() {
    let r = Reference {
        file: "a.unity".to_string(),
        line: Some(4),
        asset: Some("A".to_string()),
        object: Some(vec!["Root".to_string(), "Child".to_string()]),
    };
    let c = r.clone();
    assert_eq!(c.file, "a.unity");
    assert_eq!(c.line, Some(4));
    assert_eq!(c.asset.as_deref(), Some("A"));
    assert_eq!(c.object, Some(vec!["Root".to_string(), "Child".to_string()]));
}

#[test]
fn patch_rewrites_stripped_separator() {
    let p = Preprocessor::new().unwrap();
    assert_eq!(p.patch("--- !u!114 &300 stripped\nA: 1\n"), "--- !u!114 &300\nA: 1\n");
    assert_eq!(p.patch("--- !u!1 &100\n"), "--- !u!1 &100\n");
}

#[test]
fn scene_file_gives_its_calls() {
    let p = Preprocessor::new().unwrap();
    let batches = p.read_file_to_calls(SCENE).unwrap();
    let all: Vec<&MethodDefinition> = batches.iter().flatten().collect();
    assert_eq!(all.len(), 1);
    assert_eq!(all[0].method_name, "DoThing");
    assert_eq!(all[0].method_typename, "Foo.Bar");
    assert_eq!(all[0].method_assembly, "Some.Assembly");
}

#[test]
fn file_with_unsupported_first_document() {
    let text = "%YAML 1.1
%TAG !u! tag:unity3d.com,2011:
--- !u!1 &1
- a
- b
--- !u!114 &2
MonoBehaviour:
  m_Event:
    m_PersistentCalls:
      m_Calls:
      - m_TargetAssemblyTypeName: Foo.Bar, Some.Assembly
        m_MethodName: Only
";
    let p = Preprocessor::new().unwrap();
    let batches = p.read_file_to_calls(text).unwrap();
    let all: Vec<&MethodDefinition> = batches.iter().flatten().collect();
    assert_eq!(all.len(), 1);
    assert_eq!(all[0].method_name, "Only");
    let mut index = RefIndex::new();
    for b in &batches {
        index.insert_batch(b, &Reference::to_file("two.unity".to_string()));
    }
    assert_eq!(index.lookup(&method("Only", "Foo.Bar", "Some.Assembly")).len(), 1);
}

#[test]
fn malformed_file_is_an_error() {
    let p = Preprocessor::new().unwrap();
    assert_eq!(p.read_file_to_calls("a: [1, 2\nb: }").unwrap_err(), ReadErr::Yaml);
}

#[test]
fn load_calls_reports_malformed_text() {
    assert_eq!(load_calls("key: [unclosed").unwrap_err(), ReadErr::Yaml);
    assert!(load_calls("").unwrap().is_empty());
    let stripped = "%YAML 1.1\n%TAG !u! tag:unity3d.com,2011:\n--- !u!114 &3 stripped\nMonoBehaviour:\n  a: 1\n";
    assert!(load_calls(stripped).is_err());
    let p = Preprocessor::new().unwrap();
    assert!(p.read_file_to_calls(stripped).unwrap().is_empty());
}
