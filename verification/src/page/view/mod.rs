//! Entries of a page: a declaration together with its description.

use crate::page::view::link::{Link, LinkModel};
use crate::text::opt_view;
use crate::utils::{AnchorMd, IntoMd, TitleMd};
use vstd::prelude::*;
use vstd::string::*;

pub mod link;

verus! {

/// A value that can be shown as an entry of a page and linked to.
pub trait IntoViewAnchor {
    /// The Markdown of the entry.
    spec fn shown(&self) -> Seq<char>;

    /// The link that leads to the entry.
    spec fn target(&self) -> Option<LinkModel>;

    /// Renders the entry.
    fn into_view(&self) -> (r: String)
        ensures
            r@ == self.shown(),
    ;

    /// Produces the link that leads to the entry.
    fn create_anchor(&self) -> (r: Option<Link>)
        ensures
            opt_view(r) == self.target(),
    ;
}

/// A declaration together with the description that stood above it.
#[derive(Clone, Debug, PartialEq, Eq)]
pub struct FieldView<T> where T: IntoMd + TitleMd + AnchorMd + Clone {
    pub desc: Option<String>,
    pub object: T,
}

/// The mathematical content of a [`FieldView`].
pub struct Described<M> {
    /// The description, if one stood above the declaration.
    pub desc: Option<Seq<char>>,
    /// The declaration.
    pub item: M,
}

impl<T> View for FieldView<T> where T: IntoMd + TitleMd + AnchorMd + Clone + View {
    type V = Described<T::V>;

    open spec fn view(&self) -> Described<T::V> {
        Described { desc: opt_view(self.desc), item: self.object@ }
    }
}

/// The paragraph that a description adds below the code of an entry.
pub open spec fn desc_md(desc: Option<Seq<char>>) -> Seq<char> {
    match desc {
        Some(d) => "\n\n\t"@ + d,
        None => Seq::empty(),
    }
}

/// An entry: a list item with the title as heading, the declaration in a
/// fenced C block, and the description, if any, as a paragraph.
pub open spec fn entry_md(title: Seq<char>, code: Seq<char>, desc: Option<Seq<char>>) -> Seq<char> {
    "* "@ + ("#### **"@ + title + "**"@) + ("\n\t```c\n"@ + code + "\n\t```\n"@) + desc_md(desc)
}

impl<T> FieldView<T> where T: IntoMd + TitleMd + AnchorMd + Clone {
    /// The entry for `obj`, described by `desc`.
    pub fn new(desc: Option<String>, obj: T) -> (r: Self)
        ensures
            r.desc == desc,
            r.object == obj,
    {
        FieldView { desc, object: obj }
    }
}

impl<T> IntoViewAnchor for FieldView<T> where T: IntoMd + TitleMd + AnchorMd + Clone {
    open spec fn shown(&self) -> Seq<char> {
        entry_md(self.object.title(), self.object.md(), opt_view(self.desc))
    }

    open spec fn target(&self) -> Option<LinkModel> {
        self.object.anchor()
    }

    fn into_view(&self) -> (r: String) {
        let code = self.object.into_md();
        let title = self.object.create_title();
        let mut heading = String::from_str("#### **");
        heading.append(title.as_str());
        heading.append("**");
        let mut block = String::from_str("\n\t```c\n");
        block.append(code.as_str());
        block.append("\n\t```\n");
        let mut out = String::from_str("* ");
        out.append(heading.as_str());
        out.append(block.as_str());
        match &self.desc {
            Some(d) => {
                let ghost before = out@;
                out.append("\n\n\t");
                out.append(d.as_str());
                assert(out@ == before + desc_md(Some(d@)));
            },
            None => {
                assert(out@ == out@ + desc_md(None));
            },
        }
        out
    }

    fn create_anchor(&self) -> (r: Option<Link>) {
        self.object.create_anchor()
    }
}

/// Each entry of a list rendered.
pub fn render_entries<T>(items: &Vec<FieldView<T>>) -> (r: Vec<String>) where
    T: IntoMd + TitleMd + AnchorMd + Clone,

    ensures
        r@.len() == items@.len(),
        forall|i: int| 0 <= i < items@.len() ==> (#[trigger] r@[i])@ == items@[i].shown(),
{
    let mut out: Vec<String> = Vec::new();
    let mut i: usize = 0;
    while i < items.len()
        invariant
            i <= items.len(),
            out@.len() == i,
            forall|k: int| 0 <= k < i ==> (#[trigger] out@[k])@ == items@[k].shown(),
        decreases items.len() - i,
    {
        let entry = items[i].into_view();
        out.push(entry);
        i += 1;
    }
    out
}

} // verus!
