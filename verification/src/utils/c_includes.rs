//! Headers that a header includes.

use crate::page::view::link::{Link, LinkModel};
use crate::utils::{AnchorMd, IntoMd, TitleMd};
use vstd::prelude::*;
use vstd::string::*;

verus! {

/// An included header: the name as written between the quotes, and the page
/// that documents it.
#[derive(Clone, Debug, PartialEq, Eq)]
pub struct CIncludes {
    pub name: String,
    pub url: String,
}

/// The mathematical content of a [`CIncludes`].
pub struct IncludeModel {
    /// The name of the included file.
    pub name: Seq<char>,
    /// The page that documents the file.
    pub url: Seq<char>,
}

impl View for CIncludes {
    type V = IncludeModel;

    open spec fn view(&self) -> IncludeModel {
        IncludeModel { name: self.name@, url: self.url@ }
    }
}

/// An included header as a Markdown link to its page.
pub open spec fn include_md(inc: IncludeModel) -> Seq<char> {
    "["@ + inc.name + "]("@ + inc.url + ")"@
}

/// The link to the page of an included header: it leaves the page.
pub open spec fn include_anchor(inc: IncludeModel) -> LinkModel {
    LinkModel { name: inc.name, url: inc.url, go_page: true }
}

impl CIncludes {
    /// An included header without name and page.
    pub fn new() -> (r: Self)
        ensures
            r@ == (IncludeModel { name: Seq::empty(), url: Seq::empty() }),
    {
        CIncludes { name: String::new(), url: String::new() }
    }

    /// Sets the name of the included file.
    pub fn set_name(&mut self, str: &str)
        ensures
            final(self)@ == (IncludeModel { name: str@, ..old(self)@ }),
    {
        self.name = String::from_str(str);
    }

    /// Sets the page that documents the file.
    pub fn set_url(&mut self, str: &str)
        ensures
            final(self)@ == (IncludeModel { url: str@, ..old(self)@ }),
    {
        self.url = String::from_str(str);
    }
}

impl IntoMd for CIncludes {
    open spec fn md(&self) -> Seq<char> {
        include_md(self@)
    }

    fn into_md(&self) -> (r: String) {
        let mut out = String::from_str("[");
        out.append(self.name.as_str());
        out.append("](");
        out.append(self.url.as_str());
        out.append(")");
        out
    }
}

impl TitleMd for CIncludes {
    open spec fn title(&self) -> Seq<char> {
        self@.name
    }

    fn create_title(&self) -> (r: String) {
        self.name.clone()
    }
}

impl AnchorMd for CIncludes {
    open spec fn anchor(&self) -> Option<LinkModel> {
        Some(include_anchor(self@))
    }

    fn create_anchor(&self) -> (r: Option<Link>) {
        Some(Link::new(self.name.as_str(), self.url.as_str(), true))
    }
}

} // verus!
