//! Names and places of the files that are written for a header, and the
//! page that goes into them.

use crate::page::{Page, PageModel};
use crate::parser::run::{parsed, str_parser, ParseError};
use crate::text::{
    after, capitalize, capitalized, ends_with, has_char, join, joined, lemma_split_not_empty,
    opt_view, replace, replaced, same, slice, split, split_on, starts_with, to_chars, to_text,
    views,
};
use vstd::prelude::*;
use vstd::string::*;

verus! {

/// One header to document: the directory that is searched for headers,
/// the path of the header in it, the directory that takes the pages, and
/// the path, below the first directory, of the header whose page is the
/// home page.
#[derive(Clone, Debug, PartialEq, Eq)]
pub struct GxFile {
    pub dir: String,
    pub file: String,
    pub out_dir: String,
    pub home_file: String,
}

/// The mathematical content of a [`GxFile`].
pub struct GxFileModel {
    pub dir: Seq<char>,
    pub file: Seq<char>,
    pub out_dir: Seq<char>,
    pub home_file: Seq<char>,
}

impl View for GxFile {
    type V = GxFileModel;

    open spec fn view(&self) -> GxFileModel {
        GxFileModel {
            dir: self.dir@,
            file: self.file@,
            out_dir: self.out_dir@,
            home_file: self.home_file@,
        }
    }
}

/// Why no place was found for the pages of a header.
#[derive(Clone, Copy, Debug, PartialEq, Eq, Structural)]
pub enum PathError {
    /// The header does not lie below the directory that is searched.
    OutsideSourceDir,
    /// The path of the header below that directory has no separator.
    NoDirectory,
    /// The name of the page does not end with `.md`.
    NotAPage,
}

/// Where the pages of a header go, and what heads them.
#[derive(Clone, Debug, PartialEq, Eq)]
pub struct Plan {
    /// The title of the page: the file name of the header.
    pub title: String,
    /// The path of the header below the directory that is searched.
    pub path_src: String,
    /// The path of the page file.
    pub out_page: String,
    /// The path of the sidebar file.
    pub out_side: String,
}

/// The mathematical content of a [`Plan`].
pub struct PlanModel {
    pub title: Seq<char>,
    pub path_src: Seq<char>,
    pub out_page: Seq<char>,
    pub out_side: Seq<char>,
}

impl View for Plan {
    type V = PlanModel;

    open spec fn view(&self) -> PlanModel {
        PlanModel {
            title: self.title@,
            path_src: self.path_src@,
            out_page: self.out_page@,
            out_side: self.out_side@,
        }
    }
}

/// The name of the page for a header: the header's name with its first
/// letter in upper case and `.md` in place of each `.h`.
pub open spec fn file_name(name: Seq<char>) -> Seq<char> {
    replaced(capitalized(name), ".h"@, ".md"@)
}

/// The parts of a path and the last of them; a path without separator
/// has no parts and is itself the last.
pub open spec fn source_parts(src: Seq<char>, sep: char) -> (
    Option<Seq<Seq<char>>>,
    Option<Seq<char>>,
) {
    if src.contains(sep) {
        (Some(split(src, sep)), Some(split(src, sep).last()))
    } else {
        (None, Some(src))
    }
}

/// The paths, below the output directory, of the page file and the
/// sidebar file of a header. `parts` are the parts of the header's path
/// and `page` the name of its page. The home page is `Home.md` in the
/// directory of the header; any other page lies in a directory of its
/// own, named like the page without `.md`.
pub open spec fn relative_paths(parts: Seq<Seq<char>>, page: Seq<char>, is_home: bool) -> Option<
    (Seq<char>, Seq<char>),
> {
    if parts.len() == 0 {
        None
    } else if is_home {
        let dir = joined(parts.drop_last(), "/"@);
        Some((dir + "/"@ + "Home.md"@, dir + "/_Sidebar.md"@))
    } else if ".md"@.is_suffix_of(page) {
        let stem = page.subrange(0, page.len() - ".md"@.len());
        let dir = joined(parts.drop_last().push(stem), "/"@);
        Some((dir + "/"@ + page, dir + "/_Sidebar.md"@))
    } else {
        None
    }
}

/// The separator of a path: `/` if the path holds one, else `\`.
pub open spec fn separator(path: Seq<char>) -> char {
    if path.contains('/') {
        '/'
    } else {
        '\\'
    }
}

/// A path without the separator at its end, if it has one there.
pub open spec fn without_last_separator(path: Seq<char>, sep: char) -> Seq<char> {
    if path.len() > 0 && path.last() == sep {
        path.drop_last()
    } else {
        path
    }
}

/// A path without the separator at its beginning, if it has one there.
pub open spec fn without_first_separator(path: Seq<char>, sep: char) -> Seq<char> {
    if path.len() > 0 && path[0] == sep {
        path.drop_first()
    } else {
        path
    }
}

/// Where the pages of a header go. The path of the header below the
/// searched directory decides: its last part gives title and page name,
/// and the header is the home header when that path, without its first
/// character, is the path of the home header.
pub open spec fn planned(fo: GxFileModel) -> Result<PlanModel, PathError> {
    let sep = separator(fo.file);
    let dir = without_last_separator(fo.dir, sep);
    let below = after(fo.file, dir.len() as int);
    let is_home = below.drop_first() == without_first_separator(fo.home_file, sep);
    let out_dir = without_last_separator(fo.out_dir, sep);
    if !dir.is_prefix_of(fo.file) || below.len() == 0 {
        Err(PathError::OutsideSourceDir)
    } else if !below.contains(sep) {
        Err(PathError::NoDirectory)
    } else {
        let name = split(below, sep).last();
        match relative_paths(split(below, sep), file_name(name), is_home) {
            Some((page, side)) => Ok(
                PlanModel {
                    title: name,
                    path_src: below,
                    out_page: out_dir + page,
                    out_side: out_dir + side,
                },
            ),
            None => Err(PathError::NotAPage),
        }
    }
}

/// The page of a header with the given lines, ready to be rendered.
pub open spec fn page_of(plan: PlanModel, lines: Seq<Seq<char>>, home: Seq<char>) -> PageModel {
    PageModel {
        title: plan.title,
        path_src: plan.path_src,
        md: Some(parsed(lines, home).0),
        left_side: None,
    }
}

/// The name of the page that documents the header called `str`.
pub fn create_file_name(str: &str) -> (r: String)
    ensures
        r@ == file_name(str@),
{
    let chars = to_chars(str);
    let upper = capitalize(&chars);
    let out = replace(&upper, ".h", ".md");
    to_text(&out)
}

/// Each text as a string.
fn to_texts(parts: &Vec<Vec<char>>) -> (r: Vec<String>)
    ensures
        views(r@) == views(parts@),
{
    let mut out: Vec<String> = Vec::new();
    let mut i: usize = 0;
    while i < parts.len()
        invariant
            i <= parts.len(),
            views(out@) == views(parts@).take(i as int),
        decreases parts.len() - i,
    {
        let ghost before = views(out@);
        let t = to_text(&parts[i]);
        out.push(t);
        assert(views(out@) =~= before.push(t@));
        i += 1;
    }
    assert(views(parts@).take(parts.len() as int) == views(parts@));
    out
}

/// The parts of a path, cut at `sep`, and the last of them.
pub fn extract_source(src: &str, sep: char) -> (r: (Option<Vec<String>>, Option<String>))
    ensures
        match r.0 {
            Some(parts) => source_parts(src@, sep).0 == Some(views(parts@)),
            None => source_parts(src@, sep).0 is None,
        },
        opt_view(r.1) == source_parts(src@, sep).1,
{
    let chars = to_chars(src);
    if has_char(&chars, sep) {
        let pieces = split_on(&chars, sep);
        proof {
            lemma_split_not_empty(chars@, sep);
        }
        assert(views(pieces@).last() == pieces@.last()@);
        let last = to_text(&pieces[pieces.len() - 1]);
        let parts = to_texts(&pieces);
        (Some(parts), Some(last))
    } else {
        (None, Some(String::from_str(src)))
    }
}

/// The paths, below the output directory, of the page file and the
/// sidebar file of a header.
pub fn create_relative_path(split: &Vec<String>, file_name: &str, is_home: bool) -> (r: Option<
    (String, String),
>)
    ensures
        match r {
            Some((page, side)) => relative_paths(views(split@), file_name@, is_home) == Some(
                (page@, side@),
            ),
            None => relative_paths(views(split@), file_name@, is_home) is None,
        },
{
    if split.len() == 0 {
        return None;
    }
    let mut f: Vec<String> = Vec::new();
    let mut i: usize = 0;
    while i < split.len() - 1
        invariant
            split.len() > 0,
            i <= split.len() - 1,
            views(f@) == views(split@).drop_last().take(i as int),
        decreases split.len() - 1 - i,
    {
        let ghost before = views(f@);
        let part = split[i].clone();
        f.push(part);
        assert(views(f@) =~= before.push(part@));
        assert(views(split@).drop_last().take(i + 1) =~= views(split@).drop_last().take(
            i as int,
        ).push(part@));
        i += 1;
    }
    assert(views(f@) =~= views(split@).drop_last());
    let file: String;
    if is_home {
        file = String::from_str("Home.md");
    } else {
        let page = to_chars(file_name);
        let suffix = to_chars(".md");
        if !ends_with(&page, ".md") {
            return None;
        }
        let ghost before = views(f@);
        let stem = to_text(&slice(&page, 0, page.len() - suffix.len()));
        f.push(stem);
        assert(views(f@) =~= before.push(stem@));
        file = String::from_str(file_name);
    }
    let dir = join(&f, "/");
    let mut page = dir.clone();
    page.append("/");
    page.append(file.as_str());
    let mut side = dir;
    side.append("/_Sidebar.md");
    Some((page, side))
}

/// A path without the separator at its end, if it has one there.
fn strip_last_separator(path: &Vec<char>, sep: char) -> (r: Vec<char>)
    ensures
        r@ == without_last_separator(path@, sep),
{
    if path.len() > 0 && path[path.len() - 1] == sep {
        slice(path, 0, path.len() - 1)
    } else {
        let r = slice(path, 0, path.len());
        assert(r@ == path@);
        r
    }
}

/// Finds the places of the page file and the sidebar file of a header.
pub fn plan_output(fo: &GxFile) -> (r: Result<Plan, PathError>)
    ensures
        match r {
            Ok(plan) => planned(fo@) == Ok::<PlanModel, PathError>(plan@),
            Err(e) => planned(fo@) == Err::<PlanModel, PathError>(e),
        },
{
    let file = to_chars(fo.file.as_str());
    let sep = if has_char(&file, '/') {
        '/'
    } else {
        '\\'
    };
    let dir = strip_last_separator(&to_chars(fo.dir.as_str()), sep);
    let dir_text = to_text(&dir);
    if !starts_with(&file, dir_text.as_str()) {
        return Err(PathError::OutsideSourceDir);
    }
    let below = slice(&file, dir.len(), file.len());
    if below.len() == 0 {
        return Err(PathError::OutsideSourceDir);
    }
    let home = to_chars(fo.home_file.as_str());
    let home = if home.len() > 0 && home[0] == sep {
        slice(&home, 1, home.len())
    } else {
        home
    };
    let is_home = same(&slice(&below, 1, below.len()), &home);
    let below_text = to_text(&below);
    let (splits, name) = extract_source(below_text.as_str(), sep);
    match (splits, name) {
        (Some(parts), Some(name)) => {
            let page_name = create_file_name(name.as_str());
            match create_relative_path(&parts, page_name.as_str(), is_home) {
                Some((page, side)) => {
                    let out_dir = to_text(
                        &strip_last_separator(&to_chars(fo.out_dir.as_str()), sep),
                    );
                    let mut out_page = out_dir.clone();
                    out_page.append(page.as_str());
                    let mut out_side = out_dir;
                    out_side.append(side.as_str());
                    Ok(Plan { title: name, path_src: below_text, out_page, out_side })
                },
                None => Err(PathError::NotAPage),
            }
        },
        _ => Err(PathError::NoDirectory),
    }
}

/// Documents one header with the given lines: finds the places of its
/// files and builds its page. Returns the plan, the page, and the pieces
/// of the header that were not read.
pub fn parse_into_file(fo: &GxFile, lines: &Vec<String>) -> (r: Result<
    (Plan, Page, Vec<ParseError>),
    PathError,
>)
    ensures
        match r {
            Ok((plan, page, errors)) => {
                &&& planned(fo@) == Ok::<PlanModel, PathError>(plan@)
                &&& page@ == page_of(plan@, views(lines@), fo@.home_file)
                &&& views(errors@) == parsed(views(lines@), fo@.home_file).1
            },
            Err(e) => planned(fo@) == Err::<PlanModel, PathError>(e),
        },
{
    match plan_output(fo) {
        Ok(plan) => {
            let (content, errors) = str_parser(lines, fo.home_file.as_str());
            let mut page = Page::new();
            page.set_content(Some(content));
            page.set_path_src(plan.path_src.as_str());
            page.set_title(plan.title.as_str());
            Ok((plan, page, errors))
        },
        Err(e) => Err(e),
    }
}

} // verus!
