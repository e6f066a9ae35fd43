//! Fields of structs and unions.

use crate::utils::IntoMd;
use vstd::prelude::*;
use vstd::string::*;

verus! {

/// One field of a struct or union: a type and a name.
#[derive(Clone, Debug, PartialEq, Eq)]
pub struct CVariableField {
    pub name: String,
    pub unit: String,
}

/// The mathematical content of a [`CVariableField`].
pub struct FieldModel {
    /// The name of the field.
    pub name: Seq<char>,
    /// The type of the field.
    pub unit: Seq<char>,
}

impl View for CVariableField {
    type V = FieldModel;

    open spec fn view(&self) -> FieldModel {
        FieldModel { name: self.name@, unit: self.unit@ }
    }
}

/// A field as it is declared in C: type, name, semicolon.
pub open spec fn field_md(field: FieldModel) -> Seq<char> {
    field.unit + " "@ + field.name + ";"@
}

impl CVariableField {
    /// The field called `name` of type `unit`.
    pub fn new(name: &str, unit: &str) -> (r: Self)
        ensures
            r@ == (FieldModel { name: name@, unit: unit@ }),
    {
        CVariableField { name: String::from_str(name), unit: String::from_str(unit) }
    }
}

impl IntoMd for CVariableField {
    open spec fn md(&self) -> Seq<char> {
        field_md(self@)
    }

    fn into_md(&self) -> (r: String) {
        let mut out = String::from_str(self.unit.as_str());
        out.append(" ");
        out.append(self.name.as_str());
        out.append(";");
        assert(self.md() == field_md(self@));
        out
    }
}

} // verus!
