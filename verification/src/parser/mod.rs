//! Parsers for the declarations of a header. Each takes the text of one
//! complete declaration and returns what it declares, or the text back
//! when it does not have the expected shape.

use crate::file_writer::{create_file_name, file_name};
use crate::text::{
    after, ends_with, find, has_char, lemma_split_not_empty, opt_view, position, remove_char,
    same, scan_word, skip_word, slice, split, split_on, starts_with, to_chars, to_text, tokens,
    trim, trim_end, trim_start, trimmed, trimmed_end, trimmed_start, views, without, words,
};
use crate::utils::c_function::{CFunction, FunctionModel};
use crate::utils::c_function_param::{CFunctionParams, ParamModel};
use crate::utils::c_includes::{CIncludes, IncludeModel};
use crate::utils::c_object::c_variable_field::{CVariableField, FieldModel};
use crate::utils::c_object::{CObject, CObjectType, ObjectModel};
use vstd::prelude::*;
use vstd::string::*;

pub mod blocks;
pub mod laws;
pub mod machine;
pub mod run;

verus! {

/// What a line, or the text gathered so far, is taken for.
#[derive(Clone, Copy, Debug, PartialEq, Eq, Structural)]
pub enum TypeC {
    MainComment,
    Desc,
    Typedef,
    TypedefStruct,
    Struct,
    Func,
    Inc,
    Unknown,
}

/// The text that opens a line of each kind; empty for a kind that no
/// marker announces.
pub open spec fn marker(kind: TypeC) -> Seq<char> {
    match kind {
        TypeC::MainComment => "///!"@,
        TypeC::Desc => "//!"@,
        TypeC::Typedef => "typedef"@,
        TypeC::TypedefStruct => "typedef struct"@,
        TypeC::Struct => "struct"@,
        TypeC::Inc => "#include"@,
        _ => ""@,
    }
}

impl TypeC {
    /// The text that opens a line of this kind.
    pub fn to_str(&self) -> (r: &'static str)
        ensures
            r@ == marker(*self),
    {
        match self {
            TypeC::MainComment => "///!",
            TypeC::Desc => "//!",
            TypeC::Typedef => "typedef",
            TypeC::TypedefStruct => "typedef struct",
            TypeC::Struct => "struct",
            TypeC::Inc => "#include",
            _ => "",
        }
    }
}

/// A text that could not be read as the declaration it was taken for.
#[derive(Clone, Debug, PartialEq, Eq)]
pub struct Malformed {
    pub buffer: String,
}

impl View for Malformed {
    type V = Seq<char>;

    open spec fn view(&self) -> Seq<char> {
        self.buffer@
    }
}

/// The field that one piece of a field list declares: its first word is
/// the type, its second the name. Further words are not looked at.
pub open spec fn field_of(piece: Seq<char>) -> Option<FieldModel> {
    let t = tokens(piece);
    if t.len() >= 2 {
        Some(FieldModel { name: t[1], unit: t[0] })
    } else {
        None
    }
}

/// The fields that the text between the braces of a struct declares. The
/// text has to end with `;`; what stands before that semicolon is cut at
/// each `;`, and each piece has to declare a field.
pub open spec fn fields_of(body: Seq<char>) -> Option<Seq<FieldModel>> {
    if body.len() > 0 && body.last() == ';' {
        let pieces = split(body.drop_last(), ';');
        if forall|i: int| 0 <= i < pieces.len() ==> (#[trigger] field_of(pieces[i])) is Some {
            Some(Seq::new(pieces.len(), |i: int| field_of(pieces[i])->0))
        } else {
            None
        }
    } else {
        None
    }
}

/// The parameter that one piece of a parameter list declares: its first
/// word is the type, its second, if there is one, the name.
pub open spec fn param_of(piece: Seq<char>) -> Option<ParamModel> {
    let t = tokens(piece);
    if t.len() >= 1 {
        Some(ParamModel { unit: t[0], name: if t.len() >= 2 { Some(t[1]) } else { None } })
    } else {
        None
    }
}

/// The parameters that the text between the parentheses of a function
/// declares. Empty text declares none; other text is cut at each `,` and
/// each piece has to declare a parameter.
pub open spec fn params_of(inside: Seq<char>) -> Option<Seq<ParamModel>> {
    if inside.len() == 0 {
        Some(Seq::empty())
    } else {
        let pieces = split(inside, ',');
        if forall|i: int| 0 <= i < pieces.len() ==> (#[trigger] param_of(pieces[i])) is Some {
            Some(Seq::new(pieces.len(), |i: int| param_of(pieces[i])->0))
        } else {
            None
        }
    }
}

/// The struct that `struct Name { fields };` declares.
pub open spec fn struct_decl(buf: Seq<char>) -> Option<ObjectModel> {
    let s = trimmed(buf);
    if !"struct"@.is_prefix_of(s) {
        None
    } else {
        let rest = trimmed(after(s, "struct"@.len() as int));
        let open = position(rest, '{');
        if open >= rest.len() || !"};"@.is_suffix_of(rest) || rest.len() - "};"@.len() <= open {
            None
        } else {
            let name = trimmed(rest.subrange(0, open));
            let body = trimmed(rest.subrange(open + 1, rest.len() - "};"@.len()));
            match fields_of(body) {
                Some(fields) => Some(
                    ObjectModel { obj_type: CObjectType::Struct, name, fields, alias: None },
                ),
                None => None,
            }
        }
    }
}

/// The struct that `typedef struct Name { fields } Alias;` declares. The
/// fields end at the first `}`; the alias may not be empty.
pub open spec fn typedef_struct_decl(buf: Seq<char>) -> Option<ObjectModel> {
    let s = trimmed(buf);
    let t = trimmed_start(after(s, "typedef"@.len() as int));
    let rest = trimmed_start(after(t, "struct"@.len() as int));
    let open = position(rest, '{');
    let inner = after(rest, open + 1);
    let close = position(inner, '}');
    let tail = trimmed(after(inner, close + 1));
    if !"typedef"@.is_prefix_of(s) || !"struct"@.is_prefix_of(t) || open >= rest.len() || close
        >= inner.len() || tail.len() == 0 || tail.last() != ';' || trimmed_end(
        tail.drop_last(),
    ).len() == 0 {
        None
    } else {
        match fields_of(trimmed(inner.subrange(0, close))) {
            Some(fields) => Some(
                ObjectModel {
                    obj_type: CObjectType::Struct,
                    name: trimmed(rest.subrange(0, open)),
                    fields,
                    alias: Some(trimmed_end(tail.drop_last())),
                },
            ),
            None => None,
        }
    }
}

/// What `typedef ... ;` without braces declares. Of the words between
/// `typedef` and the final `;`, `struct Name Alias` names a struct whose
/// fields are not given; otherwise the first word is the type and the
/// second its alias.
pub open spec fn typedef_decl(buf: Seq<char>) -> Option<ObjectModel> {
    let s = trimmed(buf);
    let body = trimmed(after(s, "typedef"@.len() as int));
    let t = tokens(body.drop_last());
    if !"typedef"@.is_prefix_of(s) || body.len() == 0 || body.last() != ';' {
        None
    } else if t.len() >= 3 && t[0] == "struct"@ {
        Some(
            ObjectModel {
                obj_type: CObjectType::Struct,
                name: t[1],
                fields: Seq::empty(),
                alias: Some(t[2]),
            },
        )
    } else if t.len() >= 2 {
        Some(
            ObjectModel {
                obj_type: CObjectType::Alias,
                name: t[0],
                fields: Seq::empty(),
                alias: Some(t[1]),
            },
        )
    } else {
        None
    }
}

/// The function that `type name(parameters);` declares. The return type
/// is the first word; the name is what stands between it and the first
/// `(` and may not be empty.
pub open spec fn function_decl(buf: Seq<char>) -> Option<FunctionModel> {
    let s = trimmed(buf);
    let word = skip_word(s, 0);
    let rest = trimmed_start(after(s, word));
    let open = position(rest, '(');
    let name = trimmed_end(rest.subrange(0, open));
    if word >= s.len() || open >= rest.len() || name.len() == 0 || !");"@.is_suffix_of(rest)
        || rest.len() - ");"@.len() <= open {
        None
    } else {
        match params_of(trimmed(rest.subrange(open + 1, rest.len() - ");"@.len()))) {
            Some(parameters) => Some(FunctionModel { unit: s.subrange(0, word), name, parameters }),
            None => None,
        }
    }
}

/// The last part of the path of the home header. Parts are separated by
/// `/` if the path holds one, else by `\`.
pub open spec fn home_file(home: Seq<char>) -> Seq<char> {
    let sep = if home.contains('/') {
        '/'
    } else {
        '\\'
    };
    split(home, sep).last()
}

/// The page that documents the header called `name`: `Home` for the home
/// header, else the name of its page without the `.md` at its end.
pub open spec fn include_url(name: Seq<char>, home: Seq<char>) -> Option<Seq<char>> {
    let page = file_name(name);
    if name == home_file(home) {
        Some("Home"@)
    } else if ".md"@.is_suffix_of(page) {
        Some(page.subrange(0, page.len() - ".md"@.len()))
    } else {
        None
    }
}

/// The name that an `#include` line gives: what follows the directive,
/// without the whitespace around it and without quotes.
pub open spec fn include_name(line: Seq<char>) -> Seq<char> {
    without(trimmed(after(trimmed(line), "#include"@.len() as int)), '"')
}

/// The included header that `#include "name"` declares. The name may not
/// be empty and has to lead to a page.
pub open spec fn include_decl(line: Seq<char>, home: Seq<char>) -> Option<IncludeModel> {
    let name = include_name(line);
    if !"#include"@.is_prefix_of(trimmed(line)) || name.len() == 0 {
        None
    } else {
        match include_url(name, home) {
            Some(url) => Some(IncludeModel { name, url }),
            None => None,
        }
    }
}

/// The text handed back as malformed.
fn reject(str: &str) -> (r: Malformed)
    ensures
        r@ == str@,
{
    Malformed { buffer: String::from_str(str) }
}

/// The field declared by one piece of a field list.
fn parse_field(piece: &Vec<char>) -> (r: Option<CVariableField>)
    ensures
        opt_view(r) == field_of(piece@),
{
    let t = words(piece);
    if t.len() >= 2 {
        let unit = to_text(&t[0]);
        let name = to_text(&t[1]);
        Some(CVariableField::new(name.as_str(), unit.as_str()))
    } else {
        None
    }
}

/// The fields declared between the braces of a struct.
fn parse_fields(body: &Vec<char>) -> (r: Option<Vec<CVariableField>>)
    ensures
        match r {
            Some(fields) => fields_of(body@) == Some(views(fields@)),
            None => fields_of(body@) is None,
        },
{
    if body.len() == 0 || body[body.len() - 1] != ';' {
        return None;
    }
    let list = slice(body, 0, body.len() - 1);
    assert(list@ == body@.drop_last());
    let pieces = split_on(&list, ';');
    let ghost parts = split(list@, ';');
    let mut out: Vec<CVariableField> = Vec::new();
    let mut i: usize = 0;
    while i < pieces.len()
        invariant
            i <= pieces.len(),
            views(pieces@) == parts,
            body@.len() > 0 && body@.last() == ';',
            parts == split(body@.drop_last(), ';'),
            out@.len() == i,
            forall|k: int| 0 <= k < i ==> (#[trigger] field_of(parts[k])) == Some(out@[k]@),
        decreases pieces.len() - i,
    {
        assert(views(pieces@)[i as int] == pieces@[i as int]@);
        match parse_field(&pieces[i]) {
            Some(f) => {
                out.push(f);
            },
            None => {
                assert(field_of(parts[i as int]) is None);
                return None;
            },
        }
        i += 1;
    }
    assert(views(out@) =~= Seq::new(parts.len(), |i: int| field_of(parts[i])->0));
    Some(out)
}

/// The parameter declared by one piece of a parameter list.
fn parse_param(piece: &Vec<char>) -> (r: Option<CFunctionParams>)
    ensures
        opt_view(r) == param_of(piece@),
{
    let t = words(piece);
    if t.len() >= 1 {
        let unit = to_text(&t[0]);
        let name = if t.len() >= 2 {
            Some(to_text(&t[1]))
        } else {
            None
        };
        Some(CFunctionParams::new(unit.as_str(), name))
    } else {
        None
    }
}

/// The parameters declared between the parentheses of a function.
fn parse_params(inside: &Vec<char>) -> (r: Option<Vec<CFunctionParams>>)
    ensures
        match r {
            Some(params) => params_of(inside@) == Some(views(params@)),
            None => params_of(inside@) is None,
        },
{
    let mut out: Vec<CFunctionParams> = Vec::new();
    if inside.len() == 0 {
        assert(views(out@) =~= Seq::empty());
        return Some(out);
    }
    let pieces = split_on(inside, ',');
    let ghost parts = split(inside@, ',');
    let mut i: usize = 0;
    while i < pieces.len()
        invariant
            i <= pieces.len(),
            views(pieces@) == parts,
            inside@.len() > 0,
            parts == split(inside@, ','),
            out@.len() == i,
            forall|k: int| 0 <= k < i ==> (#[trigger] param_of(parts[k])) == Some(out@[k]@),
        decreases pieces.len() - i,
    {
        assert(views(pieces@)[i as int] == pieces@[i as int]@);
        match parse_param(&pieces[i]) {
            Some(p) => {
                out.push(p);
            },
            None => {
                assert(param_of(parts[i as int]) is None);
                return None;
            },
        }
        i += 1;
    }
    assert(views(out@) =~= Seq::new(parts.len(), |i: int| param_of(parts[i])->0));
    Some(out)
}

/// Reads `struct Name { fields };`.
pub fn parse_cstruct(str: &str) -> (r: Result<CObject, Malformed>)
    ensures
        match r {
            Ok(o) => struct_decl(str@) == Some(o@),
            Err(e) => struct_decl(str@) is None && e@ == str@,
        },
{
    let s = trim(&to_chars(str));
    if !starts_with(&s, "struct") {
        return Err(reject(str));
    }
    let word = to_chars("struct");
    let rest = trim(&slice(&s, word.len(), s.len()));
    let open = find(&rest, '{');
    let close = to_chars("};");
    if open >= rest.len() || !ends_with(&rest, "};") || rest.len() - close.len() <= open {
        return Err(reject(str));
    }
    let name = trim(&slice(&rest, 0, open));
    let body = trim(&slice(&rest, open + 1, rest.len() - close.len()));
    match parse_fields(&body) {
        Some(fields) => {
            let o = CObject {
                obj_type: CObjectType::Struct,
                name: to_text(&name),
                fields,
                alias: None,
            };
            Ok(o)
        },
        None => Err(reject(str)),
    }
}

/// Reads `typedef struct Name { fields } Alias;`.
pub fn parse_ty_struct(str: &str) -> (r: Result<CObject, Malformed>)
    ensures
        match r {
            Ok(o) => typedef_struct_decl(str@) == Some(o@),
            Err(e) => typedef_struct_decl(str@) is None && e@ == str@,
        },
{
    let s = trim(&to_chars(str));
    if !starts_with(&s, "typedef") {
        return Err(reject(str));
    }
    let first = to_chars("typedef");
    let t = trim_start(&slice(&s, first.len(), s.len()));
    if !starts_with(&t, "struct") {
        return Err(reject(str));
    }
    let second = to_chars("struct");
    let rest = trim_start(&slice(&t, second.len(), t.len()));
    let open = find(&rest, '{');
    if open >= rest.len() {
        return Err(reject(str));
    }
    let inner = slice(&rest, open + 1, rest.len());
    let close = find(&inner, '}');
    if close >= inner.len() {
        return Err(reject(str));
    }
    let tail = trim(&slice(&inner, close + 1, inner.len()));
    if tail.len() == 0 || tail[tail.len() - 1] != ';' {
        return Err(reject(str));
    }
    let alias = trim_end(&slice(&tail, 0, tail.len() - 1));
    assert(alias@ == trimmed_end(tail@.drop_last()));
    if alias.len() == 0 {
        return Err(reject(str));
    }
    let name = trim(&slice(&rest, 0, open));
    let body = trim(&slice(&inner, 0, close));
    match parse_fields(&body) {
        Some(fields) => {
            let o = CObject {
                obj_type: CObjectType::Struct,
                name: to_text(&name),
                fields,
                alias: Some(to_text(&alias)),
            };
            Ok(o)
        },
        None => Err(reject(str)),
    }
}

/// Reads `typedef Type Alias;` and `typedef struct Name Alias;`.
pub fn parse_typedef(str: &str) -> (r: Result<CObject, Malformed>)
    ensures
        match r {
            Ok(o) => typedef_decl(str@) == Some(o@),
            Err(e) => typedef_decl(str@) is None && e@ == str@,
        },
{
    let s = trim(&to_chars(str));
    if !starts_with(&s, "typedef") {
        return Err(reject(str));
    }
    let first = to_chars("typedef");
    let body = trim(&slice(&s, first.len(), s.len()));
    if body.len() == 0 || body[body.len() - 1] != ';' {
        return Err(reject(str));
    }
    let list = slice(&body, 0, body.len() - 1);
    assert(list@ == body@.drop_last());
    let t = words(&list);
    let ghost toks = tokens(list@);
    assert(forall|k: int| 0 <= k < t@.len() ==> toks[k] == (#[trigger] t@[k])@) by {
        assert(forall|k: int| 0 <= k < t@.len() ==> views(t@)[k] == (#[trigger] t@[k])@);
    }
    let word = to_chars("struct");
    if t.len() >= 3 && same(&t[0], &word) {
        let mut o = CObject::new();
        o.set_obj_type(CObjectType::Struct);
        o.set_name(to_text(&t[1]).as_str());
        o.set_alias(Some(to_text(&t[2])));
        Ok(o)
    } else if t.len() >= 2 {
        let mut o = CObject::new();
        o.set_obj_type(CObjectType::Alias);
        o.set_name(to_text(&t[0]).as_str());
        o.set_alias(Some(to_text(&t[1])));
        Ok(o)
    } else {
        Err(reject(str))
    }
}

/// Reads `type name(parameters);`.
pub fn parse_function(str: &str) -> (r: Result<CFunction, Malformed>)
    ensures
        match r {
            Ok(f) => function_decl(str@) == Some(f@),
            Err(e) => function_decl(str@) is None && e@ == str@,
        },
{
    let s = trim(&to_chars(str));
    let word = scan_word(&s, 0);
    if word >= s.len() {
        return Err(reject(str));
    }
    let rest = trim_start(&slice(&s, word, s.len()));
    let open = find(&rest, '(');
    if open >= rest.len() {
        return Err(reject(str));
    }
    let name = trim_end(&slice(&rest, 0, open));
    let close = to_chars(");");
    if name.len() == 0 || !ends_with(&rest, ");") || rest.len() - close.len() <= open {
        return Err(reject(str));
    }
    let inside = trim(&slice(&rest, open + 1, rest.len() - close.len()));
    match parse_params(&inside) {
        Some(parameters) => {
            let f = CFunction {
                unit: to_text(&slice(&s, 0, word)),
                name: to_text(&name),
                parameters,
            };
            Ok(f)
        },
        None => Err(reject(str)),
    }
}

/// The last part of the path of the home header.
pub fn home_file_name(home: &str) -> (r: Vec<char>)
    ensures
        r@ == home_file(home@),
{
    let chars = to_chars(home);
    let sep = if has_char(&chars, '/') {
        '/'
    } else {
        '\\'
    };
    let mut parts = split_on(&chars, sep);
    proof {
        lemma_split_not_empty(chars@, sep);
    }
    assert(views(parts@).last() == parts@.last()@);
    let last = parts.pop();
    match last {
        Some(x) => x,
        None => Vec::new(),
    }
}

/// Reads `#include "name"` and finds the page of the named header; `home`
/// is the path of the header whose page is the home page.
pub fn parse_inc(str: &str, home: &str) -> (r: Result<CIncludes, Malformed>)
    ensures
        match r {
            Ok(inc) => include_decl(str@, home@) == Some(inc@),
            Err(e) => include_decl(str@, home@) is None && e@ == str@,
        },
{
    let s = trim(&to_chars(str));
    if !starts_with(&s, "#include") {
        return Err(reject(str));
    }
    let directive = to_chars("#include");
    let name = remove_char(&trim(&slice(&s, directive.len(), s.len())), '"');
    if name.len() == 0 {
        return Err(reject(str));
    }
    let name_text = to_text(&name);
    let home_name = home_file_name(home);
    if same(&name, &home_name) {
        let mut inc = CIncludes::new();
        inc.set_name(name_text.as_str());
        inc.set_url("Home");
        return Ok(inc);
    }
    let page = to_chars(create_file_name(name_text.as_str()).as_str());
    let suffix = to_chars(".md");
    if !ends_with(&page, ".md") {
        return Err(reject(str));
    }
    let url = to_text(&slice(&page, 0, page.len() - suffix.len()));
    let mut inc = CIncludes::new();
    inc.set_name(name_text.as_str());
    inc.set_url(url.as_str());
    Ok(inc)
}

} // verus!
