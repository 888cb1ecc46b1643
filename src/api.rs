use vstd::prelude::*;
use crate::model::{MethodDefinition, Reference};

verus! {

/// A method as a query names it.
#[derive(Debug)]
pub struct MethodParam {
    pub method_name: String,
    pub method_assembly: String,
    pub method_typename: String,
}

impl From<MethodParam> for MethodDefinition {
    fn from(value: MethodParam) -> (r: MethodDefinition) {
        MethodDefinition {
            method_name: value.method_name,
            method_assembly: value.method_assembly,
            method_typename: value.method_typename,
        }
    }
}

impl vstd::std_specs::convert::FromSpecImpl<MethodParam> for MethodDefinition {
    open spec fn obeys_from_spec() -> bool {
        true
    }

    open spec fn from_spec(value: MethodParam) -> MethodDefinition {
        MethodDefinition {
            method_name: value.method_name,
            method_assembly: value.method_assembly,
            method_typename: value.method_typename,
        }
    }
}

/// The dotted name `Assembly.Type.Method`.
pub open spec fn dotted_name(p: MethodParam) -> Seq<char> {
    p.method_assembly@ + seq!['.'] + p.method_typename@ + seq!['.'] + p.method_name@
}

impl MethodParam {
    /// The method as `Assembly.Type.Method`.
    pub fn to_display_string(&self) -> (r: String)
        ensures
            r@ == dotted_name(*self),
    {
        proof {
            reveal_strlit(".");
        }
        let s = self.method_assembly.clone().concat(".");
        let s = s.concat(self.method_typename.as_str());
        let s = s.concat(".");
        s.concat(self.method_name.as_str())
    }
}

/// One place that refers to a queried method, as a query answers it.
#[derive(Debug)]
pub struct MethodResponse {
    pub file: String,
}

impl From<Reference> for MethodResponse {
    fn from(value: Reference) -> (r: MethodResponse) {
        MethodResponse { file: value.file }
    }
}

impl vstd::std_specs::convert::FromSpecImpl<Reference> for MethodResponse {
    open spec fn obeys_from_spec() -> bool {
        true
    }

    open spec fn from_spec(value: Reference) -> MethodResponse {
        MethodResponse { file: value.file }
    }
}

} // verus!
