//! Function declarations.

use crate::page::view::link::{anchor_of, in_page_anchor, Link, LinkModel};
use crate::text::{join, joined, views};
use crate::utils::c_function_param::{param_md, CFunctionParams, ParamModel};
use crate::utils::{AnchorMd, IntoMd, TitleMd};
use vstd::prelude::*;
use vstd::string::*;

verus! {

/// A declared function: return type, name and parameters in order.
#[derive(Clone, Debug, PartialEq, Eq)]
pub struct CFunction {
    pub unit: String,
    pub name: String,
    pub parameters: Vec<CFunctionParams>,
}

/// The mathematical content of a [`CFunction`].
pub struct FunctionModel {
    /// The return type.
    pub unit: Seq<char>,
    /// The name of the function.
    pub name: Seq<char>,
    /// The parameters, in declaration order.
    pub parameters: Seq<ParamModel>,
}

impl View for CFunction {
    type V = FunctionModel;

    open spec fn view(&self) -> FunctionModel {
        FunctionModel { unit: self.unit@, name: self.name@, parameters: views(self.parameters@) }
    }
}

/// Each parameter as it is declared.
pub open spec fn params_md(params: Seq<ParamModel>) -> Seq<Seq<char>> {
    Seq::new(params.len(), |i: int| param_md(params[i]))
}

/// A function as it is declared in C, indented by one tab.
pub open spec fn function_md(f: FunctionModel) -> Seq<char> {
    "\t"@ + f.unit + " "@ + f.name + "("@ + joined(params_md(f.parameters), ", "@) + ");"@
}

impl CFunction {
    /// A function without return type, name and parameters.
    pub fn new() -> (r: Self)
        ensures
            r@ == (FunctionModel {
                unit: Seq::empty(),
                name: Seq::empty(),
                parameters: Seq::empty(),
            }),
    {
        let r = CFunction { unit: String::new(), name: String::new(), parameters: Vec::new() };
        assert(r@.parameters =~= Seq::empty());
        r
    }

    /// Sets the return type.
    pub fn set_unit(&mut self, str: &str)
        ensures
            final(self)@ == (FunctionModel { unit: str@, ..old(self)@ }),
    {
        self.unit = String::from_str(str);
    }

    /// Sets the name.
    pub fn set_name(&mut self, str: &str)
        ensures
            final(self)@ == (FunctionModel { name: str@, ..old(self)@ }),
    {
        self.name = String::from_str(str);
    }

    /// Adds a parameter after those already there.
    pub fn add_param(&mut self, param: CFunctionParams)
        ensures
            final(self)@ == (FunctionModel {
                parameters: old(self)@.parameters.push(param@),
                ..old(self)@
            }),
    {
        self.parameters.push(param);
        assert(self@.parameters =~= old(self)@.parameters.push(param@));
    }
}

impl IntoMd for CFunction {
    open spec fn md(&self) -> Seq<char> {
        function_md(self@)
    }

    fn into_md(&self) -> (r: String) {
        let mut parts: Vec<String> = Vec::new();
        let mut i: usize = 0;
        while i < self.parameters.len()
            invariant
                i <= self.parameters.len(),
                views(parts@) == params_md(self@.parameters).take(i as int),
            decreases self.parameters.len() - i,
        {
            let p = self.parameters[i].into_md();
            let ghost before = views(parts@);
            parts.push(p);
            assert(views(parts@) =~= before.push(p@));
            i += 1;
        }
        assert(views(parts@) == params_md(self@.parameters));
        let params = join(&parts, ", ");
        let mut out = String::from_str("\t");
        out.append(self.unit.as_str());
        out.append(" ");
        out.append(self.name.as_str());
        out.append("(");
        out.append(params.as_str());
        out.append(");");
        out
    }
}

impl TitleMd for CFunction {
    open spec fn title(&self) -> Seq<char> {
        self@.name
    }

    fn create_title(&self) -> (r: String) {
        self.name.clone()
    }
}

impl AnchorMd for CFunction {
    open spec fn anchor(&self) -> Option<LinkModel> {
        Some(anchor_of(self@.name))
    }

    fn create_anchor(&self) -> (r: Option<Link>) {
        Some(in_page_anchor(self.name.as_str()))
    }
}

} // verus!
