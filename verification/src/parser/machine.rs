//! The line-by-line state machine: it classifies each line, gathers the
//! lines of a declaration, and hands out each declaration once its text is
//! complete.

use crate::page::view::{Described, FieldView};
use crate::parser::{
    function_decl, include_decl, marker, parse_cstruct, parse_function, parse_inc,
    parse_ty_struct, parse_typedef, struct_decl, typedef_decl, typedef_struct_decl, Malformed,
    TypeC,
};
use crate::text::{
    after, contains, ends_with, has_char, occurs, opt_view, slice, starts_with, to_chars,
    to_text, trim, trimmed,
};
use crate::utils::c_function::{CFunction, FunctionModel};
use crate::utils::c_includes::{CIncludes, IncludeModel};
use crate::utils::c_object::{CObject, ObjectModel};
use crate::utils::CommentMain;
use vstd::prelude::*;
use vstd::string::*;

verus! {

/// The state of the machine between two lines.
#[derive(Clone, Debug, PartialEq, Eq)]
pub struct Parser {
    /// The path of the header whose page is the home page.
    pub home: String,
    /// Whether lines of the header comment are still taken.
    pub capture: bool,
    /// What the previous line was taken for.
    pub prev: TypeC,
    /// The description gathered for the next declaration.
    pub desc: String,
    /// The lines of the declaration that is being gathered.
    pub buffer: String,
    /// The header comment gathered so far.
    pub main: CommentMain,
}

/// The mathematical content of a [`Parser`].
pub struct ParserModel {
    pub home: Seq<char>,
    pub capture: bool,
    pub prev: TypeC,
    pub desc: Seq<char>,
    pub buffer: Seq<char>,
    pub main: Seq<Seq<char>>,
}

impl View for Parser {
    type V = ParserModel;

    open spec fn view(&self) -> ParserModel {
        ParserModel {
            home: self.home@,
            capture: self.capture,
            prev: self.prev,
            desc: self.desc@,
            buffer: self.buffer@,
            main: self.main@,
        }
    }
}

/// What a line brought about.
#[derive(Clone, Debug, PartialEq, Eq)]
pub enum Outcome {
    /// No declaration was completed.
    Nothing,
    /// An `#include` was read.
    Include(FieldView<CIncludes>),
    /// A struct or a typedef was completed; the kind is what the gathered
    /// text was taken for.
    Object(TypeC, FieldView<CObject>),
    /// A function was completed.
    Function(FieldView<CFunction>),
    /// The gathered text was complete but not a declaration.
    Malformed(Malformed),
}

/// The mathematical content of an [`Outcome`].
pub enum OutcomeModel {
    Nothing,
    Include(Described<IncludeModel>),
    Object(TypeC, Described<ObjectModel>),
    Function(Described<FunctionModel>),
    Malformed(Seq<char>),
}

impl View for Outcome {
    type V = OutcomeModel;

    open spec fn view(&self) -> OutcomeModel {
        match self {
            Outcome::Nothing => OutcomeModel::Nothing,
            Outcome::Include(x) => OutcomeModel::Include(x@),
            Outcome::Object(kind, x) => OutcomeModel::Object(*kind, x@),
            Outcome::Function(x) => OutcomeModel::Function(x@),
            Outcome::Malformed(x) => OutcomeModel::Malformed(x@),
        }
    }
}

/// The state before the first line of a header.
pub open spec fn initial(home: Seq<char>) -> ParserModel {
    ParserModel {
        home,
        capture: true,
        prev: TypeC::Unknown,
        desc: Seq::empty(),
        buffer: Seq::empty(),
        main: Seq::empty(),
    }
}

/// The description that a declaration gets: none while nothing was
/// gathered, else what was gathered without the whitespace around it.
pub open spec fn pending(desc: Seq<char>) -> Option<Seq<char>> {
    if desc.len() == 0 {
        None
    } else {
        Some(trimmed(desc))
    }
}

/// The state after a declaration was handed out or given up: nothing is
/// gathered, and the header comment is closed.
pub open spec fn settled(st: ParserModel) -> ParserModel {
    ParserModel {
        capture: false,
        prev: TypeC::Unknown,
        desc: Seq::empty(),
        buffer: Seq::empty(),
        ..st
    }
}

/// The state while the lines of a declaration of the given kind are
/// gathered.
pub open spec fn gathering(st: ParserModel, kind: TypeC, buffer: Seq<char>) -> ParserModel {
    ParserModel { capture: false, prev: kind, buffer, ..st }
}

/// A complete `#include` line is handed out with the pending description.
pub open spec fn include_done(st: ParserModel, buffer: Seq<char>) -> (ParserModel, OutcomeModel) {
    (
        settled(st),
        match include_decl(buffer, st.home) {
            Some(inc) => OutcomeModel::Include(Described { desc: pending(st.desc), item: inc }),
            None => OutcomeModel::Malformed(buffer),
        },
    )
}

/// A complete struct or typedef is handed out with the pending
/// description, under the kind that its text was taken for.
pub open spec fn object_done(
    st: ParserModel,
    kind: TypeC,
    decl: Option<ObjectModel>,
    buffer: Seq<char>,
) -> (ParserModel, OutcomeModel) {
    (
        settled(st),
        match decl {
            Some(o) => OutcomeModel::Object(kind, Described { desc: pending(st.desc), item: o }),
            None => OutcomeModel::Malformed(buffer),
        },
    )
}

/// A complete function is handed out with the pending description.
pub open spec fn function_done(st: ParserModel, buffer: Seq<char>) -> (ParserModel, OutcomeModel) {
    (
        settled(st),
        match function_decl(buffer) {
            Some(f) => OutcomeModel::Function(Described { desc: pending(st.desc), item: f }),
            None => OutcomeModel::Malformed(buffer),
        },
    )
}

/// An empty line: a header comment that was being read is closed for
/// good, and the pending description is dropped.
pub open spec fn blank_step(st: ParserModel) -> (ParserModel, OutcomeModel) {
    (
        ParserModel {
            capture: st.capture && st.prev != TypeC::MainComment,
            prev: TypeC::Unknown,
            desc: Seq::empty(),
            ..st
        },
        OutcomeModel::Nothing,
    )
}

/// A line of the header comment: what follows the marker is added to the
/// comment while the comment is open; afterwards the line is ignored.
pub open spec fn header_step(st: ParserModel, line: Seq<char>) -> (ParserModel, OutcomeModel) {
    if st.capture {
        (
            ParserModel {
                prev: TypeC::MainComment,
                main: st.main.push(after(line, marker(TypeC::MainComment).len() as int)),
                ..st
            },
            OutcomeModel::Nothing,
        )
    } else {
        (st, OutcomeModel::Nothing)
    }
}

/// A description line: what follows the marker is added, trimmed and
/// behind a space, to the description that the previous line continued,
/// or starts a new one.
pub open spec fn description_step(st: ParserModel, line: Seq<char>) -> (ParserModel, OutcomeModel) {
    let before = if st.prev == TypeC::Desc {
        st.desc
    } else {
        Seq::empty()
    };
    (
        ParserModel {
            capture: false,
            prev: TypeC::Desc,
            desc: before + " "@ + trimmed(after(line, marker(TypeC::Desc).len() as int)),
            ..st
        },
        OutcomeModel::Nothing,
    )
}

/// A line of a typedef with braces: the declaration is complete when the
/// line holds `}` and ends with `;`.
pub open spec fn typedef_struct_step(st: ParserModel, line: Seq<char>) -> (
    ParserModel,
    OutcomeModel,
) {
    let buffer = st.buffer + line;
    if line.contains('}') && ";"@.is_suffix_of(line) {
        object_done(st, TypeC::TypedefStruct, typedef_struct_decl(buffer), buffer)
    } else {
        (gathering(st, TypeC::TypedefStruct, buffer), OutcomeModel::Nothing)
    }
}

/// A line of a typedef: once the gathered text holds a brace it is a
/// typedef with braces; else the declaration is complete when the line
/// ends with `;`.
pub open spec fn typedef_step(st: ParserModel, line: Seq<char>) -> (ParserModel, OutcomeModel) {
    let buffer = st.buffer + line;
    if buffer.contains('{') || buffer.contains('}') {
        typedef_struct_step(st, line)
    } else if ";"@.is_suffix_of(line) {
        object_done(st, TypeC::Typedef, typedef_decl(buffer), buffer)
    } else {
        (gathering(st, TypeC::Typedef, buffer), OutcomeModel::Nothing)
    }
}

/// A line of a struct: the declaration is complete when the line ends
/// with `};`.
pub open spec fn struct_step(st: ParserModel, line: Seq<char>) -> (ParserModel, OutcomeModel) {
    let buffer = st.buffer + line;
    if "};"@.is_suffix_of(line) {
        object_done(st, TypeC::Struct, struct_decl(buffer), buffer)
    } else {
        (gathering(st, TypeC::Struct, buffer), OutcomeModel::Nothing)
    }
}

/// An `#include` line: one for a system header, written with `<`, is
/// dropped together with all that was gathered; any other is read at
/// once.
pub open spec fn include_step(st: ParserModel, line: Seq<char>) -> (ParserModel, OutcomeModel) {
    if line.contains('<') {
        (settled(st), OutcomeModel::Nothing)
    } else {
        include_done(st, st.buffer + line)
    }
}

/// Any other line is taken for a function: a comment or a directive
/// gives up the gathered text; else the declaration is complete when the
/// gathered text holds `);`.
pub open spec fn function_step(st: ParserModel, line: Seq<char>) -> (ParserModel, OutcomeModel) {
    let buffer = st.buffer + line;
    if "//"@.is_prefix_of(line) || "#"@.is_prefix_of(line) {
        (
            ParserModel { capture: false, prev: TypeC::Unknown, buffer: Seq::empty(), ..st },
            OutcomeModel::Nothing,
        )
    } else if occurs(buffer, ");"@) {
        function_done(st, buffer)
    } else {
        (gathering(st, TypeC::Func, buffer), OutcomeModel::Nothing)
    }
}

/// A line that is neither empty nor a comment of the two marked kinds:
/// it closes the header comment and belongs to a declaration, whose kind
/// its beginning or the kind of the text gathered so far decides.
pub open spec fn declaration_step(st: ParserModel, line: Seq<char>) -> (ParserModel, OutcomeModel) {
    if marker(TypeC::Inc).is_prefix_of(line) {
        include_step(st, line)
    } else if marker(TypeC::Typedef).is_prefix_of(line) || st.prev == TypeC::Typedef {
        typedef_step(st, line)
    } else if marker(TypeC::TypedefStruct).is_prefix_of(line) || st.prev == TypeC::TypedefStruct {
        typedef_struct_step(st, line)
    } else if marker(TypeC::Struct).is_prefix_of(line) || st.prev == TypeC::Struct {
        struct_step(st, line)
    } else {
        function_step(st, line)
    }
}

/// One line taken: the state after it, and what it brought about.
pub open spec fn step_model(st: ParserModel, line: Seq<char>) -> (ParserModel, OutcomeModel) {
    if line.len() == 0 {
        blank_step(st)
    } else if marker(TypeC::MainComment).is_prefix_of(line) {
        header_step(st, line)
    } else if marker(TypeC::Desc).is_prefix_of(line) {
        description_step(st, line)
    } else {
        declaration_step(st, line)
    }
}

impl Parser {
    /// The machine before the first line; `home` is the path of the header
    /// whose page is the home page.
    pub fn new(home: &str) -> (r: Self)
        ensures
            r@ == initial(home@),
    {
        Parser {
            home: String::from_str(home),
            capture: true,
            prev: TypeC::Unknown,
            desc: String::new(),
            buffer: String::new(),
            main: CommentMain::new(),
        }
    }

    /// The description for the declaration that is handed out.
    fn description(&self) -> (r: Option<String>)
        ensures
            opt_view(r) == pending(self@.desc),
    {
        let chars = to_chars(self.desc.as_str());
        if chars.len() == 0 {
            None
        } else {
            Some(to_text(&trim(&chars)))
        }
    }

    /// Drops all that was gathered.
    fn settle(&mut self)
        ensures
            final(self)@ == settled(old(self)@),
    {
        self.capture = false;
        self.prev = TypeC::Unknown;
        self.desc = String::new();
        self.buffer = String::new();
    }

    /// Keeps the gathered text for the next line.
    fn gather(&mut self, kind: TypeC)
        ensures
            final(self)@ == gathering(old(self)@, kind, old(self)@.buffer),
    {
        self.capture = false;
        self.prev = kind;
    }

    /// Hands out a struct or typedef, or the text that was none.
    fn object_outcome(&mut self, kind: TypeC, parsed: Result<CObject, Malformed>) -> (out:
        Outcome)
        ensures
            final(self)@ == settled(old(self)@),
            out@ == match parsed {
                Ok(o) => OutcomeModel::Object(
                    kind,
                    Described { desc: pending(old(self)@.desc), item: o@ },
                ),
                Err(e) => OutcomeModel::Malformed(e@),
            },
    {
        let d = self.description();
        self.settle();
        match parsed {
            Ok(o) => Outcome::Object(kind, FieldView::new(d, o)),
            Err(e) => Outcome::Malformed(e),
        }
    }

    /// Takes a line of a typedef with braces; `self.buffer` holds it
    /// already.
    fn typedef_struct_line(&mut self, chars: &Vec<char>, Ghost(before): Ghost<ParserModel>) -> (out:
        Outcome)
        requires
            old(self)@ == (ParserModel { buffer: before.buffer + chars@, ..before }),
        ensures
            (final(self)@, out@) == typedef_struct_step(before, chars@),
    {
        if has_char(chars, '}') && ends_with(chars, ";") {
            let parsed = parse_ty_struct(self.buffer.as_str());
            self.object_outcome(TypeC::TypedefStruct, parsed)
        } else {
            self.gather(TypeC::TypedefStruct);
            Outcome::Nothing
        }
    }

    /// Takes a line that belongs to a declaration.
    fn declaration(&mut self, line: &str, chars: &Vec<char>) -> (out: Outcome)
        requires
            chars@ == line@,
        ensures
            (final(self)@, out@) == declaration_step(old(self)@, line@),
    {
        let ghost before = self@;
        if starts_with(chars, TypeC::Inc.to_str()) {
            if has_char(chars, '<') {
                self.settle();
                return Outcome::Nothing;
            }
            self.buffer.append(line);
            let parsed = parse_inc(self.buffer.as_str(), self.home.as_str());
            let d = self.description();
            self.settle();
            return match parsed {
                Ok(inc) => Outcome::Include(FieldView::new(d, inc)),
                Err(e) => Outcome::Malformed(e),
            };
        }
        if starts_with(chars, TypeC::Typedef.to_str()) || self.prev == TypeC::Typedef {
            self.buffer.append(line);
            let text = to_chars(self.buffer.as_str());
            if has_char(&text, '{') || has_char(&text, '}') {
                return self.typedef_struct_line(chars, Ghost(before));
            }
            if ends_with(chars, ";") {
                let parsed = parse_typedef(self.buffer.as_str());
                return self.object_outcome(TypeC::Typedef, parsed);
            }
            self.gather(TypeC::Typedef);
            return Outcome::Nothing;
        }
        if starts_with(chars, TypeC::TypedefStruct.to_str()) || self.prev == TypeC::TypedefStruct {
            self.buffer.append(line);
            return self.typedef_struct_line(chars, Ghost(before));
        }
        if starts_with(chars, TypeC::Struct.to_str()) || self.prev == TypeC::Struct {
            self.buffer.append(line);
            if ends_with(chars, "};") {
                let parsed = parse_cstruct(self.buffer.as_str());
                return self.object_outcome(TypeC::Struct, parsed);
            }
            self.gather(TypeC::Struct);
            return Outcome::Nothing;
        }
        if starts_with(chars, "//") || starts_with(chars, "#") {
            self.capture = false;
            self.prev = TypeC::Unknown;
            self.buffer = String::new();
            return Outcome::Nothing;
        }
        self.buffer.append(line);
        let text = to_chars(self.buffer.as_str());
        if contains(&text, ");") {
            let parsed = parse_function(self.buffer.as_str());
            let d = self.description();
            self.settle();
            return match parsed {
                Ok(f) => Outcome::Function(FieldView::new(d, f)),
                Err(e) => Outcome::Malformed(e),
            };
        }
        self.gather(TypeC::Func);
        Outcome::Nothing
    }

    /// Takes the next line of the header and says what it brought about.
    pub fn step(&mut self, line: &str) -> (out: Outcome)
        ensures
            (final(self)@, out@) == step_model(old(self)@, line@),
    {
        let chars = to_chars(line);
        if chars.len() == 0 {
            if self.prev == TypeC::MainComment {
                self.capture = false;
            }
            self.prev = TypeC::Unknown;
            self.desc = String::new();
            return Outcome::Nothing;
        }
        if starts_with(&chars, TypeC::MainComment.to_str()) {
            if self.capture {
                let m = to_chars(TypeC::MainComment.to_str());
                let rest = to_text(&slice(&chars, m.len(), chars.len()));
                self.main.append(rest.as_str());
                self.prev = TypeC::MainComment;
            }
            return Outcome::Nothing;
        }
        if starts_with(&chars, TypeC::Desc.to_str()) {
            let m = to_chars(TypeC::Desc.to_str());
            let text = to_text(&trim(&slice(&chars, m.len(), chars.len())));
            self.capture = false;
            if self.prev != TypeC::Desc {
                self.desc = String::new();
            }
            self.prev = TypeC::Desc;
            self.desc.append(" ");
            self.desc.append(text.as_str());
            return Outcome::Nothing;
        }
        self.declaration(line, &chars)
    }
}

} // verus!
