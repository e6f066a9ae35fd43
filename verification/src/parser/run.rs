//! Parsing a whole header: the state machine run over its lines, the
//! declarations collected by category, and the failures noted with the
//! line at which each was found.

use crate::page::utils::content::{empty_content, Content, ContentModel};
use crate::parser::machine::{initial, step_model, Outcome, OutcomeModel, Parser, ParserModel};
use crate::text::views;
use vstd::prelude::*;
use vstd::string::*;

verus! {

/// Why a piece of a header was not read.
#[derive(Clone, Copy, Debug, PartialEq, Eq, Structural)]
pub enum ErrorKind {
    /// A complete text did not have the shape of the declaration it was
    /// taken for.
    MalformedDeclaration,
    /// The header ended while a declaration was still being gathered.
    UnterminatedBlock,
}

/// A piece of a header that was not read.
#[derive(Clone, Debug, PartialEq, Eq)]
pub struct ParseError {
    pub kind: ErrorKind,
    /// The text that was gathered.
    pub buffer: String,
    /// The number of the line, counted from 1, at which the failure was
    /// found; for a header that ended too early, the number of its lines.
    pub line: usize,
}

/// The mathematical content of a [`ParseError`].
pub struct ErrorModel {
    pub kind: ErrorKind,
    pub buffer: Seq<char>,
    pub line: nat,
}

impl View for ParseError {
    type V = ErrorModel;

    open spec fn view(&self) -> ErrorModel {
        ErrorModel { kind: self.kind, buffer: self.buffer@, line: self.line as nat }
    }
}

/// The machine together with what it has handed out so far.
pub struct RunModel {
    pub state: ParserModel,
    pub content: ContentModel,
    pub errors: Seq<ErrorModel>,
}

/// The content with the declaration of an outcome added at the end of its
/// category; unchanged for an outcome without declaration.
pub open spec fn absorb(content: ContentModel, out: OutcomeModel) -> ContentModel {
    match out {
        OutcomeModel::Include(x) => ContentModel { incl: content.incl.push(x), ..content },
        OutcomeModel::Object(_, x) => ContentModel { object: content.object.push(x), ..content },
        OutcomeModel::Function(x) => ContentModel { func: content.func.push(x), ..content },
        _ => content,
    }
}

/// The failures with that of an outcome added; unchanged for an outcome
/// that is none.
pub open spec fn noted(errors: Seq<ErrorModel>, out: OutcomeModel, line: nat) -> Seq<ErrorModel> {
    match out {
        OutcomeModel::Malformed(buffer) => errors.push(
            ErrorModel { kind: ErrorKind::MalformedDeclaration, buffer, line },
        ),
        _ => errors,
    }
}

/// One line taken, and its outcome put away.
pub open spec fn advance(r: RunModel, line: Seq<char>, number: nat) -> RunModel {
    let (state, out) = step_model(r.state, line);
    RunModel { state, content: absorb(r.content, out), errors: noted(r.errors, out, number) }
}

/// All the lines taken in order; the first of them has the number
/// `base + 1`.
pub open spec fn run(r: RunModel, lines: Seq<Seq<char>>, base: nat) -> RunModel
    decreases lines.len(),
{
    if lines.len() == 0 {
        r
    } else {
        advance(run(r, lines.drop_last(), base), lines.last(), base + lines.len())
    }
}

/// The machine before the first line, with nothing handed out.
pub open spec fn start(home: Seq<char>) -> RunModel {
    RunModel { state: initial(home), content: empty_content(), errors: Seq::empty() }
}

/// The failures at the end of a header: a text that is still being
/// gathered is noted as unterminated.
pub open spec fn closed_errors(r: RunModel, count: nat) -> Seq<ErrorModel> {
    if r.state.buffer.len() > 0 {
        r.errors.push(
            ErrorModel { kind: ErrorKind::UnterminatedBlock, buffer: r.state.buffer, line: count },
        )
    } else {
        r.errors
    }
}

/// What a header holds: its declarations with the header comment, and the
/// pieces that were not read.
pub open spec fn parsed(lines: Seq<Seq<char>>, home: Seq<char>) -> (ContentModel, Seq<ErrorModel>) {
    let r = run(start(home), lines, 0);
    (ContentModel { main: Some(r.state.main), ..r.content }, closed_errors(r, lines.len()))
}

/// Puts away the outcome of the line with the given number.
pub fn collect(content: &mut Content, errors: &mut Vec<ParseError>, out: Outcome, line: usize)
    ensures
        final(content)@ == absorb(old(content)@, out@),
        views(final(errors)@) == noted(views(old(errors)@), out@, line as nat),
{
    match out {
        Outcome::Nothing => {},
        Outcome::Include(x) => {
            content.add_include(x);
        },
        Outcome::Object(_, x) => {
            content.add_object(x);
        },
        Outcome::Function(x) => {
            content.add_func(x);
        },
        Outcome::Malformed(e) => {
            let ghost before = views(errors@);
            let err = ParseError { kind: ErrorKind::MalformedDeclaration, buffer: e.buffer, line };
            errors.push(err);
            assert(views(errors@) =~= before.push(err@));
        },
    }
}

/// Reads a header line by line. `home` is the path of the header whose
/// page is the home page. Returns the declarations found, and the pieces
/// that were not read.
pub fn str_parser(lines: &Vec<String>, home: &str) -> (r: (Content, Vec<ParseError>))
    ensures
        (r.0@, views(r.1@)) == parsed(views(lines@), home@),
{
    let mut parser = Parser::new(home);
    let mut content = Content::new();
    let mut errors: Vec<ParseError> = Vec::new();
    assert(views(errors@) =~= Seq::empty());
    let mut i: usize = 0;
    while i < lines.len()
        invariant
            i <= lines.len(),
            parser@ == run(start(home@), views(lines@).take(i as int), 0).state,
            content@ == run(start(home@), views(lines@).take(i as int), 0).content,
            views(errors@) == run(start(home@), views(lines@).take(i as int), 0).errors,
        decreases lines.len() - i,
    {
        proof {
            let next = views(lines@).take(i + 1);
            assert(next.drop_last() == views(lines@).take(i as int));
            assert(next.last() == lines@[i as int]@);
        }
        let out = parser.step(lines[i].as_str());
        collect(&mut content, &mut errors, out, i + 1);
        i += 1;
    }
    assert(views(lines@).take(lines.len() as int) == views(lines@));
    let Parser { main, buffer, .. } = parser;
    content.set_main(Some(main));
    if !buffer.as_str().is_empty() {
        let ghost before = views(errors@);
        let err = ParseError { kind: ErrorKind::UnterminatedBlock, buffer, line: lines.len() };
        errors.push(err);
        assert(views(errors@) =~= before.push(err@));
    }
    (content, errors)
}

/// Reads a header that belongs to a set without home page.
pub fn line_parser(lines: &Vec<String>) -> (r: (Content, Vec<ParseError>))
    ensures
        (r.0@, views(r.1@)) == parsed(views(lines@), ""@),
{
    str_parser(lines, "")
}

} // verus!
