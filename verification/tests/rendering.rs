use gx_md::page::utils::content::Content;
use gx_md::page::utils::side_panel::SidePanel;
use gx_md::page::view::link::{hyphenate, in_page_anchor, slug, Link};
use gx_md::page::view::{render_entries, FieldView, IntoViewAnchor};
use gx_md::page::{Page, Renderer};
use gx_md::parser::TypeC;
use gx_md::utils::c_function::CFunction;
use gx_md::utils::c_function_param::CFunctionParams;
use gx_md::utils::c_includes::CIncludes;
use gx_md::utils::c_object::c_variable_field::CVariableField;
use gx_md::utils::c_object::{CObject, CObjectType};
use gx_md::utils::{AnchorMd, CommentMain, IntoMd, TitleMd};

fn point() -> CObject {
    let mut o = CObject::new();
    o.set_obj_type(CObjectType::Struct);
    o.set_name("Foo");
    o.add_field(CVariableField::new("x", "int"));
    o.add_field(CVariableField::new("y", "char"));
    o.set_alias(Some("Point".to_string()));
    o
}

fn add() -> CFunction {
    let mut f = CFunction::new();
    f.set_unit("int");
    f.set_name("add");
    f.add_param(CFunctionParams::new("int", Some("a".to_string())));
    f.add_param(CFunctionParams::new("int", Some("b".to_string())));
    f
}

fn base() -> CIncludes {
    let mut i = CIncludes::new();
    i.set_name("base.h");
    i.set_url("Base");
    i
}

#[test]
fn link_within_page_gets_hash() {
    let l = Link::new("Point", "point", false);
    assert_eq!(l.name, "Point");
    assert_eq!(l.url, "point");
    assert!(!l.go_page);
    assert_eq!(l.into_md(), "* [Point](#point)");
}

#[test]
fn link_to_page_has_no_hash() {
    assert_eq!(Link::new("base.h", "Base", true).into_md(), "* [base.h](Base)");
}

#[test]
fn slug_is_lower_case_with_hyphens() {
    assert_eq!(slug("Hello World"), "hello-world");
    assert_eq!(slug("struct Foo Bar"), "struct-foo-bar");
    assert_eq!(slug("ÄB c"), "äb-c");
    assert_eq!(slug(""), "");
}

#[test]
fn hyphenate_touches_spaces_only() {
    assert_eq!(hyphenate("a b  c"), "a-b--c");
    assert_eq!(hyphenate("A\tb"), "A\tb");
}

#[test]
fn in_page_anchor_keeps_title_as_label() {
    assert_eq!(in_page_anchor("My Type"), Link::new("My Type", "my-type", false));
}

#[test]
fn field_renders_type_then_name() {
    let f = CVariableField::new("x", "int");
    assert_eq!(f.name, "x");
    assert_eq!(f.unit, "int");
    assert_eq!(f.into_md(), "int x;");
}

#[test]
fn param_renders_type_then_name() {
    assert_eq!(CFunctionParams::new("int", Some("a".to_string())).into_md(), "int a");
    assert_eq!(CFunctionParams::new("void", None).into_md(), "void ");
}

#[test]
fn function_renders_as_declaration() {
    let f = add();
    assert_eq!(f.into_md(), "\tint add(int a, int b);");
    assert_eq!(f.create_title(), "add");
    assert_eq!(f.create_anchor(), Some(Link::new("add", "add", false)));
    let mut g = CFunction::new();
    assert_eq!(g.into_md(), "\t ();");
    g.set_unit("void");
    g.set_name("Run Now");
    assert_eq!(g.into_md(), "\tvoid Run Now();");
    assert_eq!(g.create_anchor(), Some(Link::new("Run Now", "run-now", false)));
}

#[test]
fn include_renders_as_link() {
    let i = base();
    assert_eq!(i.into_md(), "[base.h](Base)");
    assert_eq!(i.create_title(), "base.h");
    assert_eq!(i.create_anchor(), Some(Link::new("base.h", "Base", true)));
    let n = CIncludes::new();
    assert_eq!(n.name, "");
    assert_eq!(n.url, "");
}

#[test]
fn struct_renders_with_fields_and_typedef() {
    let o = point();
    let text = "\tstruct Foo{\n\t\tint x;\n\t\tchar y;\n\t};\n\ttypedef struct Foo Point;";
    assert_eq!(o.struct_md(), text);
    assert_eq!(o.into_md(), text);
    assert_eq!(o.create_title(), "Point");
    assert_eq!(o.create_anchor(), Some(Link::new("Point", "point", false)));
}

#[test]
fn struct_without_fields_says_so() {
    let mut o = CObject::new();
    o.set_obj_type(CObjectType::Struct);
    o.set_name("Opaque");
    assert_eq!(o.into_md(), "\tstruct Opaque{\n\t\t*NO FIELDS*\n\t};");
    assert_eq!(o.create_title(), "struct Opaque");
    assert_eq!(o.create_anchor(), Some(Link::new("struct Opaque", "struct-opaque", false)));
}

#[test]
fn union_renders_under_its_keyword() {
    let mut o = point();
    o.set_obj_type(CObjectType::Union);
    let text = "\tunion Foo{\n\t\tint x;\n\t\tchar y;\n\t};\n\ttypedef union Foo Point;";
    assert_eq!(o.union_md(), text);
    assert_eq!(o.into_md(), text);
    o.set_alias(None);
    assert_eq!(o.create_title(), "union Foo");
}

#[test]
fn alias_renders_as_typedef() {
    let mut o = CObject::new();
    o.set_obj_type(CObjectType::Alias);
    o.set_name("int");
    assert_eq!(o.alias_md(), "");
    assert_eq!(o.create_title(), "int");
    o.set_alias(Some("myint".to_string()));
    assert_eq!(o.alias_md(), "\ttypedef int myint;");
    assert_eq!(o.into_md(), "\ttypedef int myint;");
    assert_eq!(o.create_title(), "myint");
}

#[test]
fn object_of_unknown_kind_renders_empty() {
    let mut o = CObject::new();
    assert_eq!(o.obj_type, CObjectType::Unknown);
    assert_eq!(o.into_md(), "");
    o.set_name("thing");
    assert_eq!(o.into_md(), "");
    assert_eq!(o.create_title(), "thing");
}

#[test]
fn keywords_and_markers() {
    assert_eq!(CObjectType::Struct.into_str(), "struct");
    assert_eq!(CObjectType::Union.into_str(), "union");
    assert_eq!(CObjectType::Alias.into_str(), "");
    assert_eq!(CObjectType::Unknown.into_str(), "");
    assert_eq!(TypeC::MainComment.to_str(), "///!");
    assert_eq!(TypeC::Desc.to_str(), "//!");
    assert_eq!(TypeC::Typedef.to_str(), "typedef");
    assert_eq!(TypeC::TypedefStruct.to_str(), "typedef struct");
    assert_eq!(TypeC::Struct.to_str(), "struct");
    assert_eq!(TypeC::Inc.to_str(), "#include");
    assert_eq!(TypeC::Func.to_str(), "");
    assert_eq!(TypeC::Unknown.to_str(), "");
}

#[test]
fn header_comment_renders_one_line_each() {
    let mut c = CommentMain::new();
    assert_eq!(c.into_md(), "");
    c.append("Library");
    assert_eq!(c.into_md(), "Library");
    c.append("of things");
    c.append("");
    assert_eq!(c.content, vec!["Library", "of things", ""]);
    assert_eq!(c.into_md(), "Library\nof things\n");
}

#[test]
fn entry_renders_heading_code_and_description() {
    let plain = FieldView::new(None, add());
    assert_eq!(plain.into_view(), "* #### **add**\n\t```c\n\tint add(int a, int b);\n\t```\n");
    let described = FieldView::new(Some("Adds.".to_string()), add());
    assert_eq!(
        described.into_view(),
        "* #### **add**\n\t```c\n\tint add(int a, int b);\n\t```\n\n\n\tAdds."
    );
    assert_eq!(described.create_anchor(), Some(Link::new("add", "add", false)));
    assert_eq!(described.desc, Some("Adds.".to_string()));
    assert_eq!(described.object, add());
}

#[test]
fn entries_render_in_order() {
    let items = vec![FieldView::new(None, base()), FieldView::new(None, CIncludes::new())];
    assert_eq!(
        render_entries(&items),
        vec![
            "* #### **base.h**\n\t```c\n[base.h](Base)\n\t```\n",
            "* #### ****\n\t```c\n[]()\n\t```\n"
        ]
    );
    let none: Vec<FieldView<CIncludes>> = vec![];
    assert!(render_entries(&none).is_empty());
}

fn sample() -> Content {
    let mut c = Content::new();
    let mut main = CommentMain::new();
    main.append("Top");
    c.set_main(Some(main));
    c.add_object(FieldView::new(None, point()));
    c.add_func(FieldView::new(Some("Adds.".to_string()), add()));
    c.add_func(FieldView::new(None, CFunction::new()));
    c.add_include(FieldView::new(None, base()));
    c
}

#[test]
fn content_keeps_insertion_order() {
    let c = sample();
    assert_eq!(c.get_objects().len(), 1);
    assert_eq!(c.get_func().len(), 2);
    assert_eq!(c.get_func()[0].object, add());
    assert_eq!(c.get_func()[1].object, CFunction::new());
    assert_eq!(c.get_include()[0].object, base());
    assert_eq!(c.get_main().as_ref().map(|m| m.content.clone()), Some(vec!["Top".to_string()]));
}

#[test]
fn empty_content_renders_empty() {
    let c = Content::new();
    assert_eq!(c.main, None);
    assert_eq!(c.render(), "");
    assert_eq!(c.create_side_panel(), SidePanel::new());
}

#[test]
fn content_renders_sections_in_order() {
    let c = sample();
    let expected = "Top\
\n### **Objects:**\n\n---\n\n\
* #### **Point**\n\t```c\n\tstruct Foo{\n\t\tint x;\n\t\tchar y;\n\t};\n\ttypedef struct Foo Point;\n\t```\n\
\n### **Functions:**\n\n---\n\n\
* #### **add**\n\t```c\n\tint add(int a, int b);\n\t```\n\n\n\tAdds.\n\
* #### ****\n\t```c\n\t ();\n\t```\n\
\n### **Includes:**\n\n---\n\n\
* #### **base.h**\n\t```c\n[base.h](Base)\n\t```\n";
    assert_eq!(c.render(), expected);
}

#[test]
fn set_main_replaces_earlier_comment() {
    let mut c = sample();
    let mut other = CommentMain::new();
    other.append("Other");
    c.set_main(Some(other));
    assert_eq!(c.main.as_ref().map(|m| m.into_md()), Some("Other".to_string()));
    c.set_main(None);
    assert_eq!(c.main, None);
    assert_eq!(c.object.len(), 1);
}

#[test]
fn side_panel_lists_every_declaration() {
    let sp = sample().create_side_panel();
    assert_eq!(sp.get_objs(), &vec![Link::new("Point", "point", false)]);
    assert_eq!(
        sp.get_func(),
        &vec![Link::new("add", "add", false), Link::new("", "", false)]
    );
    assert_eq!(sp.get_incl(), &vec![Link::new("base.h", "Base", true)]);
}

#[test]
fn side_panel_renders_categories_with_counts() {
    let sp = sample().create_side_panel();
    assert_eq!(
        sp.render(),
        "#### **Objects (1)**\n* [Point](#point)\n\
#### **Functions (2)**\n* [add](#add)\n* [](#)\n\
#### **Includes (1)**\n* [base.h](Base)"
    );
    assert_eq!(
        SidePanel::new().render(),
        "#### **Objects (0)**\n\n#### **Functions (0)**\n\n#### **Includes (0)**\n"
    );
}

#[test]
fn side_panel_counts_beyond_nine() {
    let mut sp = SidePanel::new();
    for i in 0..12 {
        sp.add_obj(Link::new("o", "o", false));
        if i < 3 {
            sp.add_fun(Link::new("f", "f", false));
        }
    }
    sp.add_includes(Link::new("i", "I", true));
    let text = sp.render();
    assert!(text.starts_with("#### **Objects (12)**\n* [o](#o)\n"));
    assert!(text.contains("\n#### **Functions (3)**\n* [f](#f)\n* [f](#f)\n* [f](#f)\n"));
    assert!(text.ends_with("\n#### **Includes (1)**\n* [i](I)"));
}

#[test]
fn page_renders_title_path_and_body() {
    let mut p = Page::new();
    assert_eq!(p.render_content(), "# \n**\n\n---\n");
    assert_eq!(p.render_side_bar(), Some(String::new()));
    assert_eq!(p.render(), "## \n\n");
    p.set_title("shapes.h");
    p.set_path_src("/geo/shapes.h");
    assert_eq!(p.render_content(), "# shapes.h\n*/geo/shapes.h*\n\n---\n");
    p.set_content(Some(sample()));
    let body = sample().render();
    assert_eq!(p.render_content(), format!("# shapes.h\n*/geo/shapes.h*\n\n---\n\n{}", body));
    let side = sample().create_side_panel().render();
    assert_eq!(p.render_side_bar(), Some(side.clone()));
    assert_eq!(p.render(), format!("## shapes.h\n{}\n{}", side, body));
}

#[test]
fn page_prefers_supplied_side_panel() {
    let mut p = Page::new();
    p.set_content(Some(sample()));
    let mut sp = SidePanel::new();
    sp.add_fun(Link::new("only", "only", false));
    p.left_side = Some(sp.clone());
    assert_eq!(p.render_side_bar(), Some(sp.render()));
    p.set_content(None);
    assert_eq!(p.render_side_bar(), Some(sp.render()));
    assert_eq!(p.md, None);
}
