//! Pages of documentation: a title, the path of the source, the content of
//! the header and a sidebar.

use crate::page::utils::content::{content_md, side_panel_of, Content, ContentModel};
use crate::page::utils::side_panel::{side_md, SidePanel, SidePanelModel};
use crate::text::opt_view;
use vstd::prelude::*;
use vstd::string::*;

pub mod utils;
pub mod view;

verus! {

/// A value that renders to a piece of a page.
pub trait Renderer {
    /// The text that the value renders to.
    spec fn rendered(&self) -> Seq<char>;

    /// Renders the value.
    fn render(&self) -> (r: String)
        ensures
            r@ == self.rendered(),
    ;
}

/// One page of documentation.
#[derive(Clone, Debug, PartialEq, Eq)]
pub struct Page {
    pub title: String,
    pub path_src: String,
    pub md: Option<Content>,
    pub left_side: Option<SidePanel>,
}

/// The mathematical content of a [`Page`].
pub struct PageModel {
    /// The title of the page.
    pub title: Seq<char>,
    /// The path of the header that the page documents.
    pub path_src: Seq<char>,
    /// What was found in the header.
    pub md: Option<ContentModel>,
    /// A sidebar to use in place of the one derived from the content.
    pub left_side: Option<SidePanelModel>,
}

impl View for Page {
    type V = PageModel;

    open spec fn view(&self) -> PageModel {
        PageModel {
            title: self.title@,
            path_src: self.path_src@,
            md: opt_view(self.md),
            left_side: opt_view(self.left_side),
        }
    }
}

/// The body of a page: an empty line and the rendered content, or nothing
/// without content.
pub open spec fn body_md(md: Option<ContentModel>) -> Seq<char> {
    match md {
        Some(c) => "\n"@ + content_md(c),
        None => Seq::empty(),
    }
}

/// The page file: title, path of the source, a rule, the body.
pub open spec fn page_md(p: PageModel) -> Seq<char> {
    "# "@ + p.title + "\n*"@ + p.path_src + "*\n\n---\n"@ + body_md(p.md)
}

/// The sidebar file: the sidebar that was supplied, else the one derived
/// from the content, else nothing.
pub open spec fn page_side_md(p: PageModel) -> Seq<char> {
    match p.left_side {
        Some(side) => side_md(side),
        None => match p.md {
            Some(c) => side_md(side_panel_of(c)),
            None => Seq::empty(),
        },
    }
}

/// The content of a page rendered without heading; empty without content.
pub open spec fn plain_md(md: Option<ContentModel>) -> Seq<char> {
    match md {
        Some(c) => content_md(c),
        None => Seq::empty(),
    }
}

/// Page and sidebar as one text: title, sidebar, content.
pub open spec fn whole_md(p: PageModel) -> Seq<char> {
    "## "@ + p.title + "\n"@ + page_side_md(p) + "\n"@ + plain_md(p.md)
}

impl Page {
    /// A page without title, path, content and sidebar.
    pub fn new() -> (r: Self)
        ensures
            r@ == (PageModel {
                title: Seq::empty(),
                path_src: Seq::empty(),
                md: None,
                left_side: None,
            }),
    {
        Page { title: String::new(), path_src: String::new(), md: None, left_side: None }
    }

    /// Sets the title.
    pub fn set_title(&mut self, str: &str)
        ensures
            final(self)@ == (PageModel { title: str@, ..old(self)@ }),
    {
        self.title = String::from_str(str);
    }

    /// Sets or removes the content.
    pub fn set_content(&mut self, content: Option<Content>)
        ensures
            final(self)@ == (PageModel { md: opt_view(content), ..old(self)@ }),
    {
        self.md = content;
    }

    /// Sets the path of the header that the page documents.
    pub fn set_path_src(&mut self, path: &str)
        ensures
            final(self)@ == (PageModel { path_src: path@, ..old(self)@ }),
    {
        self.path_src = String::from_str(path);
    }

    /// The text of the page file.
    pub fn render_content(&self) -> (r: String)
        ensures
            r@ == page_md(self@),
    {
        let mut out = String::from_str("# ");
        out.append(self.title.as_str());
        out.append("\n*");
        out.append(self.path_src.as_str());
        out.append("*\n\n---\n");
        match &self.md {
            Some(x) => {
                let ghost before = out@;
                let body = x.render();
                out.append("\n");
                out.append(body.as_str());
                assert(out@ == before + body_md(Some(x@)));
            },
            None => {
                assert(out@ == out@ + body_md(None));
            },
        }
        out
    }

    /// The text of the sidebar.
    fn side_bar(&self) -> (r: String)
        ensures
            r@ == page_side_md(self@),
    {
        match &self.left_side {
            Some(x) => x.render(),
            None => match &self.md {
                Some(x) => x.create_side_panel().render(),
                None => String::new(),
            },
        }
    }

    /// The text of the sidebar file.
    pub fn render_side_bar(&self) -> (r: Option<String>)
        ensures
            opt_view(r) == Some(page_side_md(self@)),
    {
        Some(self.side_bar())
    }
}

impl Renderer for Page {
    open spec fn rendered(&self) -> Seq<char> {
        whole_md(self@)
    }

    fn render(&self) -> (r: String) {
        let side_bar = self.side_bar();
        let content = match &self.md {
            Some(x) => x.render(),
            None => String::new(),
        };
        let mut out = String::from_str("## ");
        out.append(self.title.as_str());
        out.append("\n");
        out.append(side_bar.as_str());
        out.append("\n");
        out.append(content.as_str());
        out
    }
}

} // verus!
