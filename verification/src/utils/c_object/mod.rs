//! Structs, unions and type aliases.

use crate::page::view::link::{anchor_of, in_page_anchor, Link, LinkModel};
use crate::text::{join, joined, opt_view, views};
use crate::utils::c_object::c_variable_field::{field_md, CVariableField, FieldModel};
use crate::utils::{AnchorMd, IntoMd, TitleMd};
use vstd::prelude::*;
use vstd::string::*;

pub mod c_variable_field;

verus! {

/// What kind of object a declaration introduces.
#[derive(Clone, Copy, Debug, PartialEq, Eq, Structural)]
pub enum CObjectType {
    Struct,
    Union,
    Alias,
    Unknown,
}

/// The C keyword of a kind of object; empty for a kind that has none.
pub open spec fn keyword(obj_type: CObjectType) -> Seq<char> {
    match obj_type {
        CObjectType::Struct => "struct"@,
        CObjectType::Union => "union"@,
        _ => ""@,
    }
}

impl CObjectType {
    /// The C keyword of the kind; empty for a kind that has none.
    pub fn into_str(&self) -> (r: &'static str)
        ensures
            r@ == keyword(*self),
    {
        match self {
            CObjectType::Struct => "struct",
            CObjectType::Union => "union",
            _ => "",
        }
    }
}

/// A declared object: its kind, name, fields in order, and the name that a
/// `typedef` gives it, if any.
#[derive(Clone, Debug, PartialEq, Eq)]
pub struct CObject {
    pub obj_type: CObjectType,
    pub name: String,
    pub fields: Vec<CVariableField>,
    pub alias: Option<String>,
}

/// The mathematical content of a [`CObject`].
pub struct ObjectModel {
    /// The kind of object.
    pub obj_type: CObjectType,
    /// The name after the keyword; for an alias, the type that is renamed.
    pub name: Seq<char>,
    /// The fields, in declaration order.
    pub fields: Seq<FieldModel>,
    /// The name that a `typedef` introduces.
    pub alias: Option<Seq<char>>,
}

impl View for CObject {
    type V = ObjectModel;

    open spec fn view(&self) -> ObjectModel {
        ObjectModel {
            obj_type: self.obj_type,
            name: self.name@,
            fields: views(self.fields@),
            alias: opt_view(self.alias),
        }
    }
}

/// Each field as it is declared.
pub open spec fn fields_md(fields: Seq<FieldModel>) -> Seq<Seq<char>> {
    Seq::new(fields.len(), |i: int| field_md(fields[i]))
}

/// The body of a struct or union: one field per line, or a note that there
/// is none.
pub open spec fn body_md(fields: Seq<FieldModel>) -> Seq<char> {
    if fields.len() > 0 {
        joined(fields_md(fields), "\n\t\t"@)
    } else {
        "*NO FIELDS*"@
    }
}

/// The `typedef` line that follows a struct or union with an alias; empty
/// without one.
pub open spec fn typedef_line(tag: Seq<char>, alias: Option<Seq<char>>) -> Seq<char> {
    match alias {
        Some(a) => "\n\ttypedef "@ + tag + " "@ + a + ";"@,
        None => Seq::empty(),
    }
}

/// A struct or union as it is declared in C, under the given keyword.
pub open spec fn compound_md(word: Seq<char>, o: ObjectModel) -> Seq<char> {
    let tag = word + " "@ + o.name;
    "\t"@ + tag + "{\n\t\t"@ + body_md(o.fields) + "\n\t};"@ + typedef_line(tag, o.alias)
}

/// A type alias as it is declared in C; empty while no alias is set.
pub open spec fn alias_decl_md(o: ObjectModel) -> Seq<char> {
    match o.alias {
        Some(a) => "\ttypedef "@ + o.name + " "@ + a + ";"@,
        None => Seq::empty(),
    }
}

/// An object as it is declared in C; empty for an unknown kind.
pub open spec fn object_md(o: ObjectModel) -> Seq<char> {
    match o.obj_type {
        CObjectType::Struct => compound_md("struct"@, o),
        CObjectType::Union => compound_md("union"@, o),
        CObjectType::Alias => alias_decl_md(o),
        CObjectType::Unknown => Seq::empty(),
    }
}

/// The title of an object: its alias if it has one, else its name behind
/// the keyword of its kind.
pub open spec fn object_title(o: ObjectModel) -> Seq<char> {
    match o.alias {
        Some(a) => a,
        None => match o.obj_type {
            CObjectType::Struct => "struct "@ + o.name,
            CObjectType::Union => "union "@ + o.name,
            _ => o.name,
        },
    }
}

impl CObject {
    /// An object of unknown kind without name, fields and alias.
    pub fn new() -> (r: Self)
        ensures
            r@ == (ObjectModel {
                obj_type: CObjectType::Unknown,
                name: Seq::empty(),
                fields: Seq::empty(),
                alias: None,
            }),
    {
        let r = CObject {
            obj_type: CObjectType::Unknown,
            name: String::new(),
            fields: Vec::new(),
            alias: None,
        };
        assert(r@.fields =~= Seq::empty());
        r
    }

    /// Sets the kind of object.
    pub fn set_obj_type(&mut self, obj_type: CObjectType)
        ensures
            final(self)@ == (ObjectModel { obj_type, ..old(self)@ }),
    {
        self.obj_type = obj_type;
    }

    /// Sets the name.
    pub fn set_name(&mut self, name: &str)
        ensures
            final(self)@ == (ObjectModel { name: name@, ..old(self)@ }),
    {
        self.name = String::from_str(name);
    }

    /// Adds a field after those already there.
    pub fn add_field(&mut self, field: CVariableField)
        ensures
            final(self)@ == (ObjectModel { fields: old(self)@.fields.push(field@), ..old(self)@ }),
    {
        self.fields.push(field);
        assert(self@.fields =~= old(self)@.fields.push(field@));
    }

    /// Sets or removes the alias.
    pub fn set_alias(&mut self, alias: Option<String>)
        ensures
            final(self)@ == (ObjectModel { alias: opt_view(alias), ..old(self)@ }),
    {
        self.alias = alias;
    }

    /// The object declared as a struct or union under the given keyword.
    fn compound(&self, word: &str) -> (r: String)
        ensures
            r@ == compound_md(word@, self@),
    {
        let mut tag = String::from_str(word);
        tag.append(" ");
        tag.append(self.name.as_str());
        let mut parts: Vec<String> = Vec::new();
        let mut i: usize = 0;
        while i < self.fields.len()
            invariant
                i <= self.fields.len(),
                views(parts@) == fields_md(self@.fields).take(i as int),
            decreases self.fields.len() - i,
        {
            let f = self.fields[i].into_md();
            let ghost before = views(parts@);
            parts.push(f);
            assert(views(parts@) =~= before.push(f@));
            i += 1;
        }
        assert(views(parts@) == fields_md(self@.fields));
        let body = if parts.len() > 0 {
            join(&parts, "\n\t\t")
        } else {
            String::from_str("*NO FIELDS*")
        };
        let mut out = String::from_str("\t");
        out.append(tag.as_str());
        out.append("{\n\t\t");
        out.append(body.as_str());
        out.append("\n\t};");
        match &self.alias {
            Some(a) => {
                let ghost before = out@;
                out.append("\n\ttypedef ");
                out.append(tag.as_str());
                out.append(" ");
                out.append(a.as_str());
                out.append(";");
                assert(out@ == before + typedef_line(tag@, Some(a@)));
            },
            None => {
                assert(out@ == out@ + typedef_line(tag@, None));
            },
        }
        out
    }

    /// The object declared as a struct.
    pub fn struct_md(&self) -> (r: String)
        ensures
            r@ == compound_md("struct"@, self@),
    {
        self.compound("struct")
    }

    /// The object declared as a union.
    pub fn union_md(&self) -> (r: String)
        ensures
            r@ == compound_md("union"@, self@),
    {
        self.compound("union")
    }

    /// The object declared as a type alias.
    pub fn alias_md(&self) -> (r: String)
        ensures
            r@ == alias_decl_md(self@),
    {
        match &self.alias {
            Some(a) => {
                let mut out = String::from_str("\ttypedef ");
                out.append(self.name.as_str());
                out.append(" ");
                out.append(a.as_str());
                out.append(";");
                out
            },
            None => String::new(),
        }
    }
}

impl IntoMd for CObject {
    open spec fn md(&self) -> Seq<char> {
        object_md(self@)
    }

    fn into_md(&self) -> (r: String) {
        match self.obj_type {
            CObjectType::Struct => self.struct_md(),
            CObjectType::Union => self.union_md(),
            CObjectType::Alias => self.alias_md(),
            CObjectType::Unknown => String::new(),
        }
    }
}

impl TitleMd for CObject {
    open spec fn title(&self) -> Seq<char> {
        object_title(self@)
    }

    fn create_title(&self) -> (r: String) {
        match &self.alias {
            Some(a) => a.clone(),
            None => {
                let mut out = String::from_str(self.obj_type.into_str());
                match self.obj_type {
                    CObjectType::Struct => {
                        out.append(" ");
                    },
                    CObjectType::Union => {
                        out.append(" ");
                    },
                    _ => {},
                }
                out.append(self.name.as_str());
                proof {
                    reveal_strlit("struct");
                    reveal_strlit("union");
                    reveal_strlit("");
                    reveal_strlit(" ");
                    reveal_strlit("struct ");
                    reveal_strlit("union ");
                }
                out
            },
        }
    }
}

impl AnchorMd for CObject {
    open spec fn anchor(&self) -> Option<LinkModel> {
        Some(anchor_of(object_title(self@)))
    }

    fn create_anchor(&self) -> (r: Option<Link>) {
        let title = self.create_title();
        Some(in_page_anchor(title.as_str()))
    }
}

} // verus!
