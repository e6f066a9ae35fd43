//! What holds of every run of the state machine.

use crate::page::utils::content::{empty_content, ContentModel};
use crate::parser::machine::{initial, settled, step_model, OutcomeModel, ParserModel};
use crate::parser::run::{advance, parsed, run, start, ErrorModel, RunModel};
use crate::parser::{marker, TypeC};
use crate::text::{after, trimmed};
use vstd::prelude::*;

verus! {

/// A line that belongs to a declaration: it is not empty and opens
/// neither a header comment nor a description.
pub open spec fn declarative(line: Seq<char>) -> bool {
    &&& line.len() > 0
    &&& !marker(TypeC::MainComment).is_prefix_of(line)
    &&& !marker(TypeC::Desc).is_prefix_of(line)
}

/// A description line.
pub open spec fn descriptive(line: Seq<char>) -> bool {
    &&& line.len() > 0
    &&& !marker(TypeC::MainComment).is_prefix_of(line)
    &&& marker(TypeC::Desc).is_prefix_of(line)
}

/// Nothing is being gathered: neither a declaration nor a description.
pub open spec fn at_rest(st: ParserModel) -> bool {
    st.prev == TypeC::Unknown && st.desc.len() == 0 && st.buffer.len() == 0
}

/// The number of declarations of a content.
pub open spec fn count(c: ContentModel) -> nat {
    c.object.len() + c.func.len() + c.incl.len()
}

/// The first content followed, category by category, by the second.
pub open spec fn joined_content(a: ContentModel, b: ContentModel) -> ContentModel {
    ContentModel {
        main: a.main,
        object: a.object + b.object,
        func: a.func + b.func,
        incl: a.incl + b.incl,
    }
}

/// A machine at rest with a closed header comment and nothing handed out.
pub open spec fn rested(home: Seq<char>) -> RunModel {
    RunModel { state: settled(initial(home)), content: empty_content(), errors: Seq::empty() }
}

/// What the lines of one block bring about when nothing stands before
/// them.
pub open spec fn block_run(home: Seq<char>, block: Seq<Seq<char>>) -> RunModel {
    run(rested(home), block, 0)
}

/// A block of lines that make up exactly one declaration: all of its
/// lines belong to declarations, and together they hand out one
/// declaration, without failure, and leave nothing gathered.
pub open spec fn well_formed_block(home: Seq<char>, block: Seq<Seq<char>>) -> bool {
    &&& forall|i: int| 0 <= i < block.len() ==> declarative(#[trigger] block[i])
    &&& count(block_run(home, block).content) == 1
    &&& block_run(home, block).errors.len() == 0
    &&& at_rest(block_run(home, block).state)
}

/// The lines of the blocks, one block after the other.
pub open spec fn lines_of(blocks: Seq<Seq<Seq<char>>>) -> Seq<Seq<char>>
    decreases blocks.len(),
{
    if blocks.len() == 0 {
        Seq::empty()
    } else {
        lines_of(blocks.drop_last()) + blocks.last()
    }
}

/// The declarations of the blocks, each read on its own, by category and
/// in the order of the blocks.
pub open spec fn blocks_content(home: Seq<char>, blocks: Seq<Seq<Seq<char>>>) -> ContentModel
    decreases blocks.len(),
{
    if blocks.len() == 0 {
        empty_content()
    } else {
        joined_content(
            blocks_content(home, blocks.drop_last()),
            block_run(home, blocks.last()).content,
        )
    }
}

/// How many of the blocks declare an object, a function and an included
/// header.
pub open spec fn kind_counts(home: Seq<char>, blocks: Seq<Seq<Seq<char>>>) -> (nat, nat, nat)
    decreases blocks.len(),
{
    if blocks.len() == 0 {
        (0, 0, 0)
    } else {
        let before = kind_counts(home, blocks.drop_last());
        let c = block_run(home, blocks.last()).content;
        (before.0 + c.object.len(), before.1 + c.func.len(), before.2 + c.incl.len())
    }
}

/// The failures with every line number raised by `base`.
pub open spec fn shifted(errors: Seq<ErrorModel>, base: nat) -> Seq<ErrorModel> {
    Seq::new(errors.len(), |i: int| ErrorModel { line: errors[i].line + base, ..errors[i] })
}

/// A run that went on from `r` as `b` went on from rest.
pub open spec fn continued(r: RunModel, b: RunModel, base: nat, moved: bool) -> RunModel {
    RunModel {
        state: ParserModel {
            home: r.state.home,
            capture: r.state.capture && !moved,
            main: r.state.main,
            ..b.state
        },
        content: joined_content(r.content, b.content),
        errors: r.errors + shifted(b.errors, base),
    }
}

/// Running over two stretches of lines is running over the first and then
/// over the second.
pub proof fn lemma_run_concat(r: RunModel, a: Seq<Seq<char>>, b: Seq<Seq<char>>, base: nat)
    ensures
        run(r, a + b, base) == run(run(r, a, base), b, base + a.len()),
    decreases b.len(),
{
    if b.len() == 0 {
        assert(a + b =~= a);
    } else {
        assert((a + b).drop_last() =~= a + b.drop_last());
        assert((a + b).last() == b.last());
        lemma_run_concat(r, a, b.drop_last(), base);
    }
}

/// A line of a declaration does to a run that continues another what it
/// does to that other run.
proof fn lemma_advance_continues(
    r: RunModel,
    b: RunModel,
    line: Seq<char>,
    base: nat,
    number: nat,
    moved: bool,
)
    requires
        declarative(line),
        b.state.home == r.state.home,
    ensures
        advance(continued(r, b, base, moved), line, base + number) == continued(
            r,
            advance(b, line, number),
            base,
            true,
        ),
        advance(b, line, number).state.home == r.state.home,
{
    let c = continued(r, b, base, moved);
    let (s1, o1) = step_model(c.state, line);
    let (s2, o2) = step_model(b.state, line);
    assert(o1 == o2);
    assert(s1 == ParserModel { home: r.state.home, capture: false, main: r.state.main, ..s2 });
    let lhs = advance(c, line, base + number);
    let rhs = continued(r, advance(b, line, number), base, true);
    assert(lhs.content.object =~= rhs.content.object);
    assert(lhs.content.func =~= rhs.content.func);
    assert(lhs.content.incl =~= rhs.content.incl);
    assert(lhs.errors =~= rhs.errors);
}

/// The lines of declarations do to a machine at rest what they do when
/// nothing stands before them: the declarations they hand out are added
/// behind those already there, and the header comment is closed.
pub proof fn lemma_declarations_continue(r: RunModel, block: Seq<Seq<char>>, base: nat)
    requires
        at_rest(r.state),
        forall|i: int| 0 <= i < block.len() ==> declarative(#[trigger] block[i]),
    ensures
        run(r, block, base) == continued(r, block_run(r.state.home, block), base, block.len() > 0),
        block_run(r.state.home, block).state.home == r.state.home,
    decreases block.len(),
{
    let home = r.state.home;
    if block.len() == 0 {
        let c = continued(r, rested(home), base, false);
        assert(c.state.desc =~= r.state.desc);
        assert(c.state.buffer =~= r.state.buffer);
        assert(c.content.object =~= r.content.object);
        assert(c.content.func =~= r.content.func);
        assert(c.content.incl =~= r.content.incl);
        assert(c.errors =~= r.errors);
    } else {
        let p = block.drop_last();
        assert(forall|i: int| 0 <= i < p.len() ==> declarative(#[trigger] p[i])) by {
            assert(forall|i: int| 0 <= i < p.len() ==> p[i] == block[i]);
        }
        lemma_declarations_continue(r, p, base);
        assert(declarative(block.last()));
        lemma_advance_continues(
            r,
            block_run(home, p),
            block.last(),
            base,
            block.len(),
            p.len() > 0,
        );
    }
}

/// In a header that holds nothing but well-formed blocks, in any order,
/// every block yields exactly one declaration: the content holds the
/// declarations of the blocks by category, each category in the order of
/// the blocks, nothing fails, and the number of declarations of each
/// category is the number of blocks of that category.
pub proof fn blocks_yield_one_declaration_each(home: Seq<char>, blocks: Seq<Seq<Seq<char>>>)
    requires
        forall|k: int| 0 <= k < blocks.len() ==> well_formed_block(home, #[trigger] blocks[k]),
    ensures
        parsed(lines_of(blocks), home).0 == (ContentModel {
            main: Some(Seq::empty()),
            ..blocks_content(home, blocks)
        }),
        parsed(lines_of(blocks), home).1 == Seq::<ErrorModel>::empty(),
        count(parsed(lines_of(blocks), home).0) == blocks.len(),
        parsed(lines_of(blocks), home).0.object.len() == kind_counts(home, blocks).0,
        parsed(lines_of(blocks), home).0.func.len() == kind_counts(home, blocks).1,
        parsed(lines_of(blocks), home).0.incl.len() == kind_counts(home, blocks).2,
{
    lemma_blocks_run(home, blocks);
    let r = run(start(home), lines_of(blocks), 0);
    assert(r.state.buffer.len() == 0);
}

/// The run over well-formed blocks ends at rest, without failures, with
/// the declarations of the blocks.
proof fn lemma_blocks_run(home: Seq<char>, blocks: Seq<Seq<Seq<char>>>)
    requires
        forall|k: int| 0 <= k < blocks.len() ==> well_formed_block(home, #[trigger] blocks[k]),
    ensures
        at_rest(run(start(home), lines_of(blocks), 0).state),
        run(start(home), lines_of(blocks), 0).state.home == home,
        run(start(home), lines_of(blocks), 0).state.main == Seq::<Seq<char>>::empty(),
        run(start(home), lines_of(blocks), 0).errors == Seq::<ErrorModel>::empty(),
        run(start(home), lines_of(blocks), 0).content == blocks_content(home, blocks),
        count(blocks_content(home, blocks)) == blocks.len(),
        blocks_content(home, blocks).object.len() == kind_counts(home, blocks).0,
        blocks_content(home, blocks).func.len() == kind_counts(home, blocks).1,
        blocks_content(home, blocks).incl.len() == kind_counts(home, blocks).2,
    decreases blocks.len(),
{
    if blocks.len() > 0 {
        let before = blocks.drop_last();
        let block = blocks.last();
        assert(forall|k: int| 0 <= k < before.len() ==> well_formed_block(home, #[trigger] before[k]))
            by {
            assert(forall|k: int| 0 <= k < before.len() ==> before[k] == blocks[k]);
        }
        lemma_blocks_run(home, before);
        assert(well_formed_block(home, block));
        let r = run(start(home), lines_of(before), 0);
        lemma_run_concat(start(home), lines_of(before), block, 0);
        lemma_declarations_continue(r, block, lines_of(before).len());
        let b = block_run(home, block);
        let x = run(start(home), lines_of(blocks), 0);
        assert(x == continued(r, b, lines_of(before).len(), block.len() > 0));
        assert(x.errors =~= Seq::<ErrorModel>::empty());
    }
}

/// Reading the same lines with the same home header gives the same
/// content and the same failures.
pub proof fn parsing_is_deterministic(
    lines: Seq<Seq<char>>,
    home: Seq<char>,
    again: Seq<Seq<char>>,
    home_again: Seq<char>,
)
    requires
        lines == again,
        home == home_again,
    ensures
        parsed(lines, home) == parsed(again, home_again),
{
}

/// An empty line drops the pending description: the state after it does
/// not depend on what was gathered before it.
pub proof fn blank_line_drops_description(st: ParserModel, desc: Seq<char>)
    ensures
        step_model(st, Seq::empty()).0.desc == Seq::<char>::empty(),
        step_model(st, Seq::empty()).1 == OutcomeModel::Nothing,
        step_model(ParserModel { desc, ..st }, Seq::empty()) == step_model(st, Seq::empty()),
{
}

/// Two description lines with an empty line between them do not merge:
/// after the second, the pending description holds the text of the
/// second alone.
pub proof fn descriptions_do_not_merge_across_blank_line(
    st: ParserModel,
    first: Seq<char>,
    second: Seq<char>,
)
    requires
        descriptive(first),
        descriptive(second),
    ensures
        ({
            let s1 = step_model(st, first).0;
            let s2 = step_model(s1, Seq::empty()).0;
            let s3 = step_model(s2, second).0;
            s3.desc == " "@ + trimmed(after(second, marker(TypeC::Desc).len() as int))
        }),
{
    let s1 = step_model(st, first).0;
    let s2 = step_model(s1, Seq::empty()).0;
    let s3 = step_model(s2, second).0;
    assert(s2.prev == TypeC::Unknown);
    assert(Seq::<char>::empty() + " "@ =~= " "@);
}

/// A description that stands before an empty line is attached to nothing
/// that follows: whatever was gathered before the empty line, the run
/// over the lines after it is the same.
pub proof fn description_before_blank_line_is_lost(
    r: RunModel,
    desc: Seq<char>,
    rest: Seq<Seq<char>>,
    base: nat,
)
    ensures
        run(
            RunModel { state: ParserModel { desc, ..r.state }, ..r },
            seq![Seq::<char>::empty()] + rest,
            base,
        ) == run(r, seq![Seq::<char>::empty()] + rest, base),
    decreases rest.len(),
{
    let blank = seq![Seq::<char>::empty()];
    let other = RunModel { state: ParserModel { desc, ..r.state }, ..r };
    if rest.len() == 0 {
        assert(blank + rest =~= blank);
        assert(blank.drop_last() =~= Seq::<Seq<char>>::empty());
        assert(run(other, blank.drop_last(), base) == other);
        assert(run(r, blank.drop_last(), base) == r);
        assert(blank.last() == Seq::<char>::empty());
        blank_line_drops_description(r.state, desc);
    } else {
        assert((blank + rest).drop_last() =~= blank + rest.drop_last());
        description_before_blank_line_is_lost(r, desc, rest.drop_last(), base);
    }
}

/// Once the header comment is closed, a line with the marker of the
/// header comment changes nothing.
pub proof fn late_header_line_is_ignored(st: ParserModel, line: Seq<char>)
    requires
        !st.capture,
        line.len() > 0,
        marker(TypeC::MainComment).is_prefix_of(line),
    ensures
        step_model(st, line) == (st, OutcomeModel::Nothing),
{
}

/// Any line that belongs to a declaration, and any description line,
/// closes the header comment.
pub proof fn content_closes_header_comment(st: ParserModel, line: Seq<char>)
    requires
        declarative(line) || descriptive(line),
    ensures
        !step_model(st, line).0.capture,
{
}

/// The header comment is never reopened: once it is closed it stays
/// closed, and its lines stay what they are, whatever lines follow.
pub proof fn closed_header_comment_stays_closed(r: RunModel, lines: Seq<Seq<char>>, base: nat)
    requires
        !r.state.capture,
    ensures
        !run(r, lines, base).state.capture,
        run(r, lines, base).state.main == r.state.main,
    decreases lines.len(),
{
    if lines.len() > 0 {
        closed_header_comment_stays_closed(r, lines.drop_last(), base);
    }
}

/// Whenever a line hands out a declaration or a failure, nothing stays
/// gathered: the description went with the declaration, and the text is
/// dropped.
pub proof fn handing_out_settles(st: ParserModel, line: Seq<char>)
    ensures
        step_model(st, line).1 !is Nothing ==> step_model(st, line).0 == settled(st),
{
}

/// A line adds at most one declaration, at the end of its category; what
/// the content held before stays in place.
pub proof fn line_adds_at_most_one_declaration(r: RunModel, line: Seq<char>, number: nat)
    ensures
        ({
            let next = advance(r, line, number);
            let out = step_model(r.state, line).1;
            &&& r.content.object.is_prefix_of(next.content.object)
            &&& r.content.func.is_prefix_of(next.content.func)
            &&& r.content.incl.is_prefix_of(next.content.incl)
            &&& next.content.main == r.content.main
            &&& count(next.content) == count(r.content) + (if out is Include || out is Object
                || out is Function {
                1nat
            } else {
                0nat
            })
        }),
{
}

/// A run only ever adds to the content: what was there before stays
/// first, in its order.
pub proof fn run_keeps_earlier_declarations(r: RunModel, lines: Seq<Seq<char>>, base: nat)
    ensures
        r.content.object.is_prefix_of(run(r, lines, base).content.object),
        r.content.func.is_prefix_of(run(r, lines, base).content.func),
        r.content.incl.is_prefix_of(run(r, lines, base).content.incl),
        r.errors.is_prefix_of(run(r, lines, base).errors),
    decreases lines.len(),
{
    if lines.len() > 0 {
        let before = run(r, lines.drop_last(), base);
        run_keeps_earlier_declarations(r, lines.drop_last(), base);
        line_adds_at_most_one_declaration(before, lines.last(), base + lines.len());
        let next = advance(before, lines.last(), base + lines.len());
        assert(before.errors.is_prefix_of(next.errors));
    }
}

} // verus!
