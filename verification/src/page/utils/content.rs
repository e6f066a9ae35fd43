//! The declarations of one header, by category and in source order.

use crate::page::utils::side_panel::{SidePanel, SidePanelModel};
use crate::page::view::link::{anchor_of, LinkModel};
use crate::page::view::{entry_md, render_entries, Described, FieldView, IntoViewAnchor};
use crate::page::Renderer;
use crate::text::{join, joined, opt_view, views};
use crate::utils::c_function::{function_md, CFunction, FunctionModel};
use crate::utils::c_includes::{include_anchor, include_md, CIncludes, IncludeModel};
use crate::utils::c_object::{object_md, object_title, CObject, ObjectModel};
use crate::utils::{comment_md, CommentMain, IntoMd};
use vstd::prelude::*;
use vstd::string::*;

verus! {

/// Everything that was found in one header.
#[derive(Clone, Debug, PartialEq, Eq)]
pub struct Content {
    pub main: Option<CommentMain>,
    pub object: Vec<FieldView<CObject>>,
    pub func: Vec<FieldView<CFunction>>,
    pub incl: Vec<FieldView<CIncludes>>,
}

/// The mathematical content of a [`Content`].
pub struct ContentModel {
    /// The lines of the header comment, if one was set.
    pub main: Option<Seq<Seq<char>>>,
    /// The objects, in source order.
    pub object: Seq<Described<ObjectModel>>,
    /// The functions, in source order.
    pub func: Seq<Described<FunctionModel>>,
    /// The included headers, in source order.
    pub incl: Seq<Described<IncludeModel>>,
}

impl View for Content {
    type V = ContentModel;

    open spec fn view(&self) -> ContentModel {
        ContentModel {
            main: opt_view(self.main),
            object: views(self.object@),
            func: views(self.func@),
            incl: views(self.incl@),
        }
    }
}

/// A content without header comment and declarations.
pub open spec fn empty_content() -> ContentModel {
    ContentModel { main: None, object: Seq::empty(), func: Seq::empty(), incl: Seq::empty() }
}

/// The entries of the objects.
pub open spec fn object_entries(items: Seq<Described<ObjectModel>>) -> Seq<Seq<char>> {
    Seq::new(
        items.len(),
        |i: int| entry_md(object_title(items[i].item), object_md(items[i].item), items[i].desc),
    )
}

/// The entries of the functions.
pub open spec fn function_entries(items: Seq<Described<FunctionModel>>) -> Seq<Seq<char>> {
    Seq::new(
        items.len(),
        |i: int| entry_md(items[i].item.name, function_md(items[i].item), items[i].desc),
    )
}

/// The entries of the included headers.
pub open spec fn include_entries(items: Seq<Described<IncludeModel>>) -> Seq<Seq<char>> {
    Seq::new(
        items.len(),
        |i: int| entry_md(items[i].item.name, include_md(items[i].item), items[i].desc),
    )
}

/// One section of a page: the heading, then one entry per line; nothing at
/// all without entries.
pub open spec fn section_md(heading: Seq<char>, entries: Seq<Seq<char>>) -> Seq<char> {
    if entries.len() > 0 {
        heading + joined(entries, "\n"@)
    } else {
        Seq::empty()
    }
}

/// The header comment of a content rendered; empty when none is set.
pub open spec fn main_md(main: Option<Seq<Seq<char>>>) -> Seq<char> {
    match main {
        Some(lines) => comment_md(lines),
        None => Seq::empty(),
    }
}

/// The body of a page: header comment, objects, functions, includes.
pub open spec fn content_md(c: ContentModel) -> Seq<char> {
    main_md(c.main) + section_md("\n### **Objects:**\n\n---\n\n"@, object_entries(c.object))
        + section_md("\n### **Functions:**\n\n---\n\n"@, function_entries(c.func)) + section_md(
        "\n### **Includes:**\n\n---\n\n"@,
        include_entries(c.incl),
    )
}

/// The links to the objects, in order.
pub open spec fn object_links(items: Seq<Described<ObjectModel>>) -> Seq<LinkModel> {
    Seq::new(items.len(), |i: int| anchor_of(object_title(items[i].item)))
}

/// The links to the functions, in order.
pub open spec fn function_links(items: Seq<Described<FunctionModel>>) -> Seq<LinkModel> {
    Seq::new(items.len(), |i: int| anchor_of(items[i].item.name))
}

/// The links to the pages of the included headers, in order.
pub open spec fn include_links(items: Seq<Described<IncludeModel>>) -> Seq<LinkModel> {
    Seq::new(items.len(), |i: int| include_anchor(items[i].item))
}

/// The sidebar of a content: one link per declaration, by category and in
/// the order of the content.
pub open spec fn side_panel_of(c: ContentModel) -> SidePanelModel {
    SidePanelModel {
        objects: object_links(c.object),
        functions: function_links(c.func),
        includes: include_links(c.incl),
    }
}

/// One section of a page rendered.
fn render_section(heading: &str, entries: &Vec<String>) -> (r: String)
    ensures
        r@ == section_md(heading@, views(entries@)),
{
    if entries.len() > 0 {
        let list = join(entries, "\n");
        let mut out = String::from_str(heading);
        out.append(list.as_str());
        out
    } else {
        String::new()
    }
}

impl Content {
    /// A content without header comment and declarations.
    pub fn new() -> (r: Self)
        ensures
            r@ == empty_content(),
    {
        let r = Content { main: None, object: Vec::new(), func: Vec::new(), incl: Vec::new() };
        assert(r@.object =~= Seq::empty());
        assert(r@.func =~= Seq::empty());
        assert(r@.incl =~= Seq::empty());
        r
    }

    /// Sets the header comment; an earlier one is replaced.
    pub fn set_main(&mut self, main: Option<CommentMain>)
        ensures
            final(self)@ == (ContentModel { main: opt_view(main), ..old(self)@ }),
    {
        self.main = main;
    }

    /// The header comment, if one is set.
    pub fn get_main(&self) -> (r: &Option<CommentMain>)
        ensures
            opt_view(*r) == self@.main,
    {
        &self.main
    }

    /// Adds an object after those already there.
    pub fn add_object(&mut self, obj: FieldView<CObject>)
        ensures
            final(self)@ == (ContentModel { object: old(self)@.object.push(obj@), ..old(self)@ }),
    {
        self.object.push(obj);
        assert(self@.object =~= old(self)@.object.push(obj@));
    }

    /// The objects, in source order.
    pub fn get_objects(&self) -> (r: &Vec<FieldView<CObject>>)
        ensures
            views(r@) == self@.object,
    {
        &self.object
    }

    /// Adds a function after those already there.
    pub fn add_func(&mut self, fun: FieldView<CFunction>)
        ensures
            final(self)@ == (ContentModel { func: old(self)@.func.push(fun@), ..old(self)@ }),
    {
        self.func.push(fun);
        assert(self@.func =~= old(self)@.func.push(fun@));
    }

    /// The functions, in source order.
    pub fn get_func(&self) -> (r: &Vec<FieldView<CFunction>>)
        ensures
            views(r@) == self@.func,
    {
        &self.func
    }

    /// Adds an included header after those already there.
    pub fn add_include(&mut self, inc: FieldView<CIncludes>)
        ensures
            final(self)@ == (ContentModel { incl: old(self)@.incl.push(inc@), ..old(self)@ }),
    {
        self.incl.push(inc);
        assert(self@.incl =~= old(self)@.incl.push(inc@));
    }

    /// The included headers, in source order.
    pub fn get_include(&self) -> (r: &Vec<FieldView<CIncludes>>)
        ensures
            views(r@) == self@.incl,
    {
        &self.incl
    }

    /// The sidebar that lists every declaration of the content.
    pub fn create_side_panel(&self) -> (r: SidePanel)
        ensures
            r@ == side_panel_of(self@),
    {
        let mut sp = SidePanel::new();
        let mut i: usize = 0;
        while i < self.object.len()
            invariant
                i <= self.object.len(),
                sp@.objects == object_links(self@.object).take(i as int),
                sp@.functions == Seq::<LinkModel>::empty(),
                sp@.includes == Seq::<LinkModel>::empty(),
            decreases self.object.len() - i,
        {
            let ghost entry = self.object@[i as int];
            assert(entry.target() == Some(anchor_of(object_title(entry.object@))));
            assert(object_links(self@.object).take(i + 1) =~= object_links(self@.object).take(
                i as int,
            ).push(anchor_of(object_title(entry.object@))));
            if let Some(x) = self.object[i].create_anchor() {
                sp.add_obj(x);
            }
            i += 1;
        }
        assert(object_links(self@.object).take(self.object.len() as int) == object_links(
            self@.object,
        ));
        let mut j: usize = 0;
        while j < self.func.len()
            invariant
                j <= self.func.len(),
                sp@.objects == object_links(self@.object),
                sp@.functions == function_links(self@.func).take(j as int),
                sp@.includes == Seq::<LinkModel>::empty(),
            decreases self.func.len() - j,
        {
            let ghost entry = self.func@[j as int];
            assert(entry.target() == Some(anchor_of(entry.object@.name)));
            assert(function_links(self@.func).take(j + 1) =~= function_links(self@.func).take(
                j as int,
            ).push(anchor_of(entry.object@.name)));
            if let Some(x) = self.func[j].create_anchor() {
                sp.add_fun(x);
            }
            j += 1;
        }
        assert(function_links(self@.func).take(self.func.len() as int) == function_links(
            self@.func,
        ));
        let mut k: usize = 0;
        while k < self.incl.len()
            invariant
                k <= self.incl.len(),
                sp@.objects == object_links(self@.object),
                sp@.functions == function_links(self@.func),
                sp@.includes == include_links(self@.incl).take(k as int),
            decreases self.incl.len() - k,
        {
            let ghost entry = self.incl@[k as int];
            assert(entry.target() == Some(include_anchor(entry.object@)));
            assert(include_links(self@.incl).take(k + 1) =~= include_links(self@.incl).take(
                k as int,
            ).push(include_anchor(entry.object@)));
            if let Some(x) = self.incl[k].create_anchor() {
                sp.add_includes(x);
            }
            k += 1;
        }
        assert(include_links(self@.incl).take(self.incl.len() as int) == include_links(
            self@.incl,
        ));
        sp
    }
}

impl Renderer for Content {
    open spec fn rendered(&self) -> Seq<char> {
        content_md(self@)
    }

    fn render(&self) -> (r: String) {
        let main = match &self.main {
            Some(x) => x.into_md(),
            None => String::new(),
        };
        let objects = render_entries(&self.object);
        assert(views(objects@) =~= object_entries(self@.object));
        let functions = render_entries(&self.func);
        assert(views(functions@) =~= function_entries(self@.func));
        let includes = render_entries(&self.incl);
        assert(views(includes@) =~= include_entries(self@.incl));
        let obj = render_section("\n### **Objects:**\n\n---\n\n", &objects);
        let fun = render_section("\n### **Functions:**\n\n---\n\n", &functions);
        let inc = render_section("\n### **Includes:**\n\n---\n\n", &includes);
        let mut out = main;
        out.append(obj.as_str());
        out.append(fun.as_str());
        out.append(inc.as_str());
        out
    }
}

} // verus!
