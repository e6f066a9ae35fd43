//! Navigation links.

use crate::text::{exchange, exchanged, lowercase, to_chars, to_text};
use crate::utils::IntoMd;
use vstd::prelude::*;
use vstd::string::*;

verus! {

/// A navigation link: either to an anchor on the same page or to another
/// page.
#[derive(Clone, Debug, PartialEq, Eq)]
pub struct Link {
    pub name: String,
    pub url: String,
    pub go_page: bool,
}

/// The mathematical content of a [`Link`].
pub struct LinkModel {
    /// The text shown for the link.
    pub name: Seq<char>,
    /// An anchor slug when `go_page` is false, else the path of a page.
    pub url: Seq<char>,
    /// Whether the link leaves the page.
    pub go_page: bool,
}

impl View for Link {
    type V = LinkModel;

    open spec fn view(&self) -> LinkModel {
        LinkModel { name: self.name@, url: self.url@, go_page: self.go_page }
    }
}

/// A link as a Markdown list item; a link within the page gets `#` before
/// its target.
pub open spec fn link_md(link: LinkModel) -> Seq<char> {
    if link.go_page {
        "* ["@ + link.name + "]("@ + link.url + ")"@
    } else {
        "* ["@ + link.name + "](#"@ + link.url + ")"@
    }
}

/// A lower-cased title with each space turned into a hyphen.
pub open spec fn hyphenated(lowered: Seq<char>) -> Seq<char> {
    exchanged(lowered, ' ', '-')
}

/// The anchor slug of a title: the title in lower case, with hyphens for
/// spaces.
pub open spec fn slug_of(title: Seq<char>) -> Seq<char> {
    hyphenated(lowercase(title))
}

/// The link to the place on the page that carries `title`.
pub open spec fn anchor_of(title: Seq<char>) -> LinkModel {
    LinkModel { name: title, url: slug_of(title), go_page: false }
}

/// Turns each space of an already lower-cased title into a hyphen.
pub fn hyphenate(lowered: &str) -> (r: String)
    ensures
        r@ == hyphenated(lowered@),
{
    let chars = to_chars(lowered);
    let out = exchange(&chars, ' ', '-');
    to_text(&out)
}

/// The anchor slug of a title.
pub fn slug(title: &str) -> (r: String)
    ensures
        r@ == slug_of(title@),
{
    let lowered = title.to_lowercase();
    hyphenate(lowered.as_str())
}

/// The link to the place on the page that carries `title`.
pub fn in_page_anchor(title: &str) -> (r: Link)
    ensures
        r@ == anchor_of(title@),
{
    let url = slug(title);
    Link::new(title, url.as_str(), false)
}

impl Link {
    /// A link with the given label and target.
    pub fn new(name: &str, url: &str, open_page: bool) -> (r: Self)
        ensures
            r@ == (LinkModel { name: name@, url: url@, go_page: open_page }),
    {
        Link { name: String::from_str(name), url: String::from_str(url), go_page: open_page }
    }
}

impl IntoMd for Link {
    open spec fn md(&self) -> Seq<char> {
        link_md(self@)
    }

    fn into_md(&self) -> (r: String) {
        let mut out = String::from_str("* [");
        out.append(self.name.as_str());
        if self.go_page {
            out.append("](");
        } else {
            out.append("](#");
        }
        out.append(self.url.as_str());
        out.append(")");
        out
    }
}

} // verus!
