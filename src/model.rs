use vstd::prelude::*;

verus! {

/// What identifies a callback target: the method, its declaring type and the
/// assembly that declares the type.
pub struct MethodId {
    pub name: Seq<char>,
    pub declaring_type: Seq<char>,
    pub assembly: Seq<char>,
}

/// A method that serialized persistent calls point at.
#[derive(Debug)]
pub struct MethodDefinition {
    pub method_name: String,
    pub method_assembly: String,
    pub method_typename: String,
}

impl View for MethodDefinition {
    type V = MethodId;

    open spec fn view(&self) -> MethodId {
        MethodId {
            name: self.method_name@,
            declaring_type: self.method_typename@,
            assembly: self.method_assembly@,
        }
    }
}

impl Clone for MethodDefinition {
    fn clone(&self) -> (r: Self)
        ensures
            r@ == self@,
    {
        MethodDefinition {
            method_name: self.method_name.clone(),
            method_assembly: self.method_assembly.clone(),
            method_typename: self.method_typename.clone(),
        }
    }
}

/// A referenced object, keyed by its asset guid.
#[derive(Debug)]
pub struct ObjectDefinition {
    pub guid: String,
}

impl View for ObjectDefinition {
    type V = Seq<char>;

    open spec fn view(&self) -> Seq<char> {
        self.guid@
    }
}

impl Clone for ObjectDefinition {
    fn clone(&self) -> (r: Self)
        ensures
            r@ == self@,
    {
        ObjectDefinition { guid: self.guid.clone() }
    }
}

/// The abstract value of a [`Reference`].
pub struct ReferenceView {
    pub file: Seq<char>,
    pub line: Option<usize>,
    pub asset: Option<Seq<char>>,
    pub object: Option<Seq<Seq<char>>>,
}

/// Where a call was found.
#[derive(Debug)]
pub struct Reference {
    /// Which file? (`/MyProject/MyScene.unity`)
    pub file: String,
    /// Which line in the file?
    pub line: Option<usize>,
    /// The human readable name of the referencing asset (`MyScene`)
    pub asset: Option<String>,
    /// The human readable path to the referencing object within the asset
    /// (`GameObject A` -> `GameObject B` -> etc.)
    pub object: Option<Vec<String>>,
}

/// The characters of each string of a list.
pub open spec fn texts_view(v: Seq<String>) -> Seq<Seq<char>> {
    v.map_values(|s: String| s@)
}

impl View for Reference {
    type V = ReferenceView;

    open spec fn view(&self) -> ReferenceView {
        ReferenceView {
            file: self.file@,
            line: self.line,
            asset: match self.asset {
                Some(a) => Some(a@),
                None => None,
            },
            object: match self.object {
                Some(o) => Some(texts_view(o@)),
                None => None,
            },
        }
    }
}

fn clone_texts(v: &Vec<String>) -> (r: Vec<String>)
    ensures
        texts_view(r@) == texts_view(v@),
{
    let mut r: Vec<String> = Vec::new();
    let mut i: usize = 0;
    while i < v.len()
        invariant
            i <= v.len(),
            r@.len() == i,
            forall|j: int| 0 <= j < i ==> r@[j]@ == v@[j]@,
        decreases v.len() - i,
    {
        r.push(v[i].clone());
        i = i + 1;
    }
    assert(texts_view(r@) =~= texts_view(v@));
    r
}

impl Reference {
    /// A reference to a whole file, with no further attribution.
    pub fn to_file(file: String) -> (r: Reference)
        ensures
            r@ == (ReferenceView { file: file@, line: None, asset: None, object: None }),
    {
        Reference { file, line: None, asset: None, object: None }
    }
}

impl Clone for Reference {
    fn clone(&self) -> (r: Self)
        ensures
            r@ == self@,
    {
        let asset = match &self.asset {
            Some(a) => Some(a.clone()),
            None => None,
        };
        let object = match &self.object {
            Some(o) => Some(clone_texts(o)),
            None => None,
        };
        Reference { file: self.file.clone(), line: self.line, asset, object }
    }
}

} // verus!
