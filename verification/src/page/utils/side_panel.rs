//! The navigation sidebar of a page.

use crate::page::view::link::{link_md, Link, LinkModel};
use crate::page::Renderer;
use crate::text::{decimal, decimal_text, join, joined, views};
use crate::utils::IntoMd;
use vstd::prelude::*;
use vstd::string::*;

verus! {

/// The links of a sidebar, by category, each list in the order in which the
/// links were added.
#[derive(Clone, Debug, PartialEq, Eq)]
pub struct SidePanel {
    pub objects: Vec<Link>,
    pub functions: Vec<Link>,
    pub includes: Vec<Link>,
}

/// The mathematical content of a [`SidePanel`].
pub struct SidePanelModel {
    /// Links to the objects of the page.
    pub objects: Seq<LinkModel>,
    /// Links to the functions of the page.
    pub functions: Seq<LinkModel>,
    /// Links to the pages of the included headers.
    pub includes: Seq<LinkModel>,
}

impl View for SidePanel {
    type V = SidePanelModel;

    open spec fn view(&self) -> SidePanelModel {
        SidePanelModel {
            objects: views(self.objects@),
            functions: views(self.functions@),
            includes: views(self.includes@),
        }
    }
}

/// Each link as a list item.
pub open spec fn links_md(links: Seq<LinkModel>) -> Seq<Seq<char>> {
    Seq::new(links.len(), |i: int| link_md(links[i]))
}

/// One category of the sidebar: a heading with the number of links, then
/// one link per line.
pub open spec fn category_md(heading: Seq<char>, links: Seq<LinkModel>) -> Seq<char> {
    heading + decimal(links.len()) + ")**\n"@ + joined(links_md(links), "\n"@)
}

/// The sidebar: objects, functions and includes, one category after the
/// other.
pub open spec fn side_md(panel: SidePanelModel) -> Seq<char> {
    category_md("#### **Objects ("@, panel.objects) + category_md(
        "\n#### **Functions ("@,
        panel.functions,
    ) + category_md("\n#### **Includes ("@, panel.includes)
}

/// One category of the sidebar rendered.
fn render_category(heading: &str, links: &Vec<Link>) -> (r: String)
    ensures
        r@ == category_md(heading@, views(links@)),
{
    let mut parts: Vec<String> = Vec::new();
    let mut i: usize = 0;
    while i < links.len()
        invariant
            i <= links.len(),
            views(parts@) == links_md(views(links@)).take(i as int),
        decreases links.len() - i,
    {
        let item = links[i].into_md();
        let ghost before = views(parts@);
        parts.push(item);
        assert(views(parts@) =~= before.push(item@));
        i += 1;
    }
    assert(views(parts@) == links_md(views(links@)));
    let count = decimal_text(links.len());
    let list = join(&parts, "\n");
    let mut out = String::from_str(heading);
    out.append(count.as_str());
    out.append(")**\n");
    out.append(list.as_str());
    out
}

impl SidePanel {
    /// A sidebar without links.
    pub fn new() -> (r: Self)
        ensures
            r@ == (SidePanelModel {
                objects: Seq::empty(),
                functions: Seq::empty(),
                includes: Seq::empty(),
            }),
    {
        let r = SidePanel { objects: Vec::new(), functions: Vec::new(), includes: Vec::new() };
        assert(r@.objects =~= Seq::empty());
        assert(r@.functions =~= Seq::empty());
        assert(r@.includes =~= Seq::empty());
        r
    }

    /// Adds a link to an object after those already there.
    pub fn add_obj(&mut self, l: Link)
        ensures
            final(self)@ == (SidePanelModel { objects: old(self)@.objects.push(l@), ..old(self)@ }),
    {
        self.objects.push(l);
        assert(self@.objects =~= old(self)@.objects.push(l@));
    }

    /// The links to objects.
    pub fn get_objs(&self) -> (r: &Vec<Link>)
        ensures
            views(r@) == self@.objects,
    {
        &self.objects
    }

    /// Adds a link to a function after those already there.
    pub fn add_fun(&mut self, l: Link)
        ensures
            final(self)@ == (SidePanelModel {
                functions: old(self)@.functions.push(l@),
                ..old(self)@
            }),
    {
        self.functions.push(l);
        assert(self@.functions =~= old(self)@.functions.push(l@));
    }

    /// The links to functions.
    pub fn get_func(&self) -> (r: &Vec<Link>)
        ensures
            views(r@) == self@.functions,
    {
        &self.functions
    }

    /// Adds a link to an included header after those already there.
    pub fn add_includes(&mut self, l: Link)
        ensures
            final(self)@ == (SidePanelModel {
                includes: old(self)@.includes.push(l@),
                ..old(self)@
            }),
    {
        self.includes.push(l);
        assert(self@.includes =~= old(self)@.includes.push(l@));
    }

    /// The links to included headers.
    pub fn get_incl(&self) -> (r: &Vec<Link>)
        ensures
            views(r@) == self@.includes,
    {
        &self.includes
    }
}

impl Renderer for SidePanel {
    open spec fn rendered(&self) -> Seq<char> {
        side_md(self@)
    }

    fn render(&self) -> (r: String) {
        let objects = render_category("#### **Objects (", &self.objects);
        let functions = render_category("\n#### **Functions (", &self.functions);
        let includes = render_category("\n#### **Includes (", &self.includes);
        let mut out = objects;
        out.append(functions.as_str());
        out.append(includes.as_str());
        out
    }
}

} // verus!
