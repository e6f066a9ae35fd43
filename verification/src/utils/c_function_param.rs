//! Parameters of functions.

use crate::text::opt_view;
use crate::utils::IntoMd;
use vstd::prelude::*;
use vstd::string::*;

verus! {

/// One parameter of a function: a type and, where the header gives one, a
/// name.
#[derive(Clone, Debug, PartialEq, Eq)]
pub struct CFunctionParams {
    pub unit: String,
    pub name: Option<String>,
}

/// The mathematical content of a [`CFunctionParams`].
pub struct ParamModel {
    /// The type of the parameter.
    pub unit: Seq<char>,
    /// The name of the parameter, if it has one.
    pub name: Option<Seq<char>>,
}

impl View for CFunctionParams {
    type V = ParamModel;

    open spec fn view(&self) -> ParamModel {
        ParamModel { unit: self.unit@, name: opt_view(self.name) }
    }
}

/// A parameter as it is declared in C: type, space, name. A parameter
/// without a name keeps the space.
pub open spec fn param_md(param: ParamModel) -> Seq<char> {
    match param.name {
        Some(name) => param.unit + " "@ + name,
        None => param.unit + " "@,
    }
}

impl CFunctionParams {
    /// The parameter of type `unit`, called `name` if one is given.
    pub fn new(unit: &str, name: Option<String>) -> (r: Self)
        ensures
            r@ == (ParamModel { unit: unit@, name: opt_view(name) }),
    {
        CFunctionParams { unit: String::from_str(unit), name }
    }
}

impl IntoMd for CFunctionParams {
    open spec fn md(&self) -> Seq<char> {
        param_md(self@)
    }

    fn into_md(&self) -> (r: String) {
        let mut out = String::from_str(self.unit.as_str());
        out.append(" ");
        match &self.name {
            Some(name) => {
                out.append(name.as_str());
            },
            None => {},
        }
        assert(self.md() == param_md(self@));
        out
    }
}

} // verus!
