//! The declarations found in a header, and what each of them can be
//! rendered to.

use crate::page::view::link::{Link, LinkModel};
use crate::text::{join, joined, opt_view, views};
use vstd::prelude::*;
use vstd::string::*;

pub mod c_function;
pub mod c_function_param;
pub mod c_includes;
pub mod c_object;

verus! {

/// A value with a canonical Markdown form.
pub trait IntoMd {
    /// The Markdown text of the value.
    spec fn md(&self) -> Seq<char>;

    /// Renders the value.
    fn into_md(&self) -> (r: String)
        ensures
            r@ == self.md(),
    ;
}

/// A value that is listed under a title.
pub trait TitleMd {
    /// The title of the value.
    spec fn title(&self) -> Seq<char>;

    /// Produces the title.
    fn create_title(&self) -> (r: String)
        ensures
            r@ == self.title(),
    ;
}

/// A value that navigation links can point to.
pub trait AnchorMd {
    /// The link that leads to the value.
    spec fn anchor(&self) -> Option<LinkModel>;

    /// Produces the link.
    fn create_anchor(&self) -> (r: Option<Link>)
        ensures
            opt_view(r) == self.anchor(),
    ;
}

/// The comment block at the top of a header: its lines, in order.
#[derive(Clone, Debug, PartialEq, Eq)]
pub struct CommentMain {
    pub content: Vec<String>,
}

impl View for CommentMain {
    type V = Seq<Seq<char>>;

    open spec fn view(&self) -> Seq<Seq<char>> {
        views(self.content@)
    }
}

impl CommentMain {
    /// A comment block without lines.
    pub fn new() -> (r: Self)
        ensures
            r@ == Seq::<Seq<char>>::empty(),
    {
        CommentMain { content: Vec::new() }
    }

    /// Adds one line at the end of the block.
    pub fn append(&mut self, str: &str)
        ensures
            final(self)@ == old(self)@.push(str@),
    {
        self.content.push(String::from_str(str));
    }
}

/// The lines of a header comment, one per line of output.
pub open spec fn comment_md(lines: Seq<Seq<char>>) -> Seq<char> {
    joined(lines, "\n"@)
}

impl IntoMd for CommentMain {
    open spec fn md(&self) -> Seq<char> {
        comment_md(self@)
    }

    fn into_md(&self) -> (r: String) {
        join(&self.content, "\n")
    }
}

} // verus!
