//! The blocks of lines that make up one declaration each, described by
//! their lines alone, and the proof that the state machine reads each of
//! them as one declaration.

use crate::page::utils::content::{empty_content, ContentModel};
use crate::page::view::Described;
use crate::parser::laws::{
    block_run, blocks_content, blocks_yield_one_declaration_each, count, declarative,
    kind_counts, lines_of, rested, well_formed_block,
};
use crate::parser::machine::{gathering, initial, settled};
use crate::parser::run::{advance, parsed, ErrorModel, RunModel};
use crate::parser::{
    function_decl, include_decl, marker, struct_decl, typedef_decl, typedef_struct_decl, TypeC,
};
use crate::text::occurs;
use crate::utils::c_object::ObjectModel;
use vstd::prelude::*;

verus! {

/// The lines of a block put one behind the other, as the machine gathers
/// them.
pub open spec fn glued(lines: Seq<Seq<char>>) -> Seq<char>
    decreases lines.len(),
{
    if lines.len() == 0 {
        Seq::empty()
    } else {
        glued(lines.drop_last()) + lines.last()
    }
}

/// The text holds a brace.
pub open spec fn has_brace(s: Seq<char>) -> bool {
    s.contains('{') || s.contains('}')
}

/// A line that no marker claims: it is taken for a function.
pub open spec fn unmarked(line: Seq<char>) -> bool {
    &&& declarative(line)
    &&& !marker(TypeC::Inc).is_prefix_of(line)
    &&& !marker(TypeC::Typedef).is_prefix_of(line)
    &&& !marker(TypeC::Struct).is_prefix_of(line)
    &&& !"//"@.is_prefix_of(line)
    &&& !"#"@.is_prefix_of(line)
}

/// A line that can stand inside a struct: it belongs to a declaration and
/// opens neither an `#include` nor a `typedef`.
pub open spec fn inner(line: Seq<char>) -> bool {
    &&& declarative(line)
    &&& !marker(TypeC::Inc).is_prefix_of(line)
    &&& !marker(TypeC::Typedef).is_prefix_of(line)
}

/// A line that can follow the first line of a typedef: it belongs to a
/// declaration and opens no `#include`.
pub open spec fn following(line: Seq<char>) -> bool {
    declarative(line) && !marker(TypeC::Inc).is_prefix_of(line)
}

/// The line ends a typedef with braces.
pub open spec fn closes_typedef_struct(line: Seq<char>) -> bool {
    line.contains('}') && ";"@.is_suffix_of(line)
}

/// One `#include` line that names, in quotes, a header with a page.
pub open spec fn include_block(home: Seq<char>, block: Seq<Seq<char>>) -> bool {
    &&& block.len() == 1
    &&& marker(TypeC::Inc).is_prefix_of(block[0])
    &&& !block[0].contains('<')
    &&& include_decl(block[0], home) is Some
}

/// The lines of one function declaration: no marker claims any of them,
/// `);` stands in them only once the last is reached, and together they
/// declare a function.
pub open spec fn function_block(block: Seq<Seq<char>>) -> bool {
    &&& block.len() > 0
    &&& forall|i: int| 0 <= i < block.len() ==> unmarked(#[trigger] block[i])
    &&& forall|k: int| 0 < k < block.len() ==> !occurs(#[trigger] glued(block.take(k)), ");"@)
    &&& occurs(glued(block), ");"@)
    &&& function_decl(glued(block)) is Some
}

/// The lines of one struct declaration: the first begins with `struct`,
/// only the last ends with `};`, and together they declare a struct.
pub open spec fn struct_block(block: Seq<Seq<char>>) -> bool {
    &&& block.len() > 0
    &&& marker(TypeC::Struct).is_prefix_of(block[0])
    &&& forall|i: int| 0 < i < block.len() ==> inner(#[trigger] block[i])
    &&& forall|i: int| 0 <= i < block.len() - 1 ==> !"};"@.is_suffix_of(#[trigger] block[i])
    &&& "};"@.is_suffix_of(block.last())
    &&& struct_decl(glued(block)) is Some
}

/// The lines of one typedef with braces: the first begins with `typedef`
/// and holds a brace, only the last holds `}` and ends with `;`, and
/// together they declare a struct with its alias.
pub open spec fn typedef_struct_block(block: Seq<Seq<char>>) -> bool {
    &&& block.len() > 0
    &&& marker(TypeC::Typedef).is_prefix_of(block[0])
    &&& has_brace(block[0])
    &&& forall|i: int| 0 < i < block.len() ==> following(#[trigger] block[i])
    &&& forall|i: int| 0 <= i < block.len() - 1 ==> !closes_typedef_struct(#[trigger] block[i])
    &&& closes_typedef_struct(block.last())
    &&& typedef_struct_decl(glued(block)) is Some
}

/// The lines of one typedef without braces: the first begins with
/// `typedef`, none holds a brace, only the last ends with `;`, and
/// together they declare an alias.
pub open spec fn typedef_block(block: Seq<Seq<char>>) -> bool {
    &&& block.len() > 0
    &&& marker(TypeC::Typedef).is_prefix_of(block[0])
    &&& forall|i: int| 0 <= i < block.len() ==> !has_brace(#[trigger] block[i])
    &&& forall|i: int| 0 < i < block.len() ==> following(#[trigger] block[i])
    &&& forall|i: int| 0 <= i < block.len() - 1 ==> !";"@.is_suffix_of(#[trigger] block[i])
    &&& ";"@.is_suffix_of(block.last())
    &&& typedef_decl(glued(block)) is Some
}

/// The lines of one declaration of any kind.
pub open spec fn declaration_block(home: Seq<char>, block: Seq<Seq<char>>) -> bool {
    ||| include_block(home, block)
    ||| function_block(block)
    ||| struct_block(block)
    ||| typedef_struct_block(block)
    ||| typedef_block(block)
}

/// The machine while it gathers the lines of a declaration of the given
/// kind, nothing handed out yet.
pub open spec fn gathered(home: Seq<char>, kind: TypeC, buffer: Seq<char>) -> RunModel {
    RunModel {
        state: gathering(settled(initial(home)), kind, buffer),
        content: empty_content(),
        errors: Seq::empty(),
    }
}

/// A content that holds one object and nothing else.
pub open spec fn one_object(item: ObjectModel) -> ContentModel {
    ContentModel { object: seq![Described { desc: None, item }], ..empty_content() }
}

/// What the markers are made of.
proof fn lemma_markers()
    ensures
        marker(TypeC::MainComment) == seq!['/', '/', '/', '!'],
        marker(TypeC::Desc) == seq!['/', '/', '!'],
        marker(TypeC::Inc) == seq!['#', 'i', 'n', 'c', 'l', 'u', 'd', 'e'],
        marker(TypeC::Typedef) == seq!['t', 'y', 'p', 'e', 'd', 'e', 'f'],
        marker(TypeC::Struct) == seq!['s', 't', 'r', 'u', 'c', 't'],
        marker(TypeC::TypedefStruct) == marker(TypeC::Typedef) + seq![' '] + marker(
            TypeC::Struct,
        ),
{
    reveal_strlit("///!");
    reveal_strlit("//!");
    reveal_strlit("#include");
    reveal_strlit("typedef");
    reveal_strlit("struct");
    reveal_strlit("typedef struct");
    assert(marker(TypeC::MainComment) =~= seq!['/', '/', '/', '!']);
    assert(marker(TypeC::Desc) =~= seq!['/', '/', '!']);
    assert(marker(TypeC::Inc) =~= seq!['#', 'i', 'n', 'c', 'l', 'u', 'd', 'e']);
    assert(marker(TypeC::Typedef) =~= seq!['t', 'y', 'p', 'e', 'd', 'e', 'f']);
    assert(marker(TypeC::Struct) =~= seq!['s', 't', 'r', 'u', 'c', 't']);
    assert(marker(TypeC::TypedefStruct) =~= marker(TypeC::Typedef) + seq![' '] + marker(
        TypeC::Struct,
    ));
}

/// A text that begins with `p` is not empty, and its first character is
/// that of `p`.
proof fn lemma_first_char(line: Seq<char>, p: Seq<char>)
    requires
        p.len() > 0,
        p.is_prefix_of(line),
    ensures
        line.len() > 0,
        line[0] == p[0],
{
    assert(line.subrange(0, p.len() as int)[0] == p[0]);
}

/// A line that begins with `typedef struct` begins with `typedef`.
proof fn lemma_typedef_struct_marker(line: Seq<char>)
    requires
        marker(TypeC::TypedefStruct).is_prefix_of(line),
    ensures
        marker(TypeC::Typedef).is_prefix_of(line),
{
    lemma_markers();
    let whole = marker(TypeC::TypedefStruct);
    let part = marker(TypeC::Typedef);
    assert(whole =~= line.subrange(0, whole.len() as int));
    assert(forall|i: int| 0 <= i < part.len() ==> part[i] == whole[i]);
    assert(forall|i: int| 0 <= i < whole.len() ==> whole[i] == line[i]) by {
        assert(forall|i: int|
            0 <= i < whole.len() ==> line.subrange(0, whole.len() as int)[i] == line[i]);
    }
    assert(part =~= line.subrange(0, part.len() as int));
}

/// A line that begins with the marker of one kind of declaration belongs
/// to a declaration and begins with the marker of no other kind, but that
/// a typedef line may begin with `typedef struct`.
proof fn lemma_marked_line(line: Seq<char>, kind: TypeC)
    requires
        kind == TypeC::Inc || kind == TypeC::Typedef || kind == TypeC::Struct,
        marker(kind).is_prefix_of(line),
    ensures
        declarative(line),
        kind != TypeC::Inc ==> !marker(TypeC::Inc).is_prefix_of(line),
        kind != TypeC::Typedef ==> !marker(TypeC::Typedef).is_prefix_of(line),
        kind != TypeC::Typedef ==> !marker(TypeC::TypedefStruct).is_prefix_of(line),
        kind != TypeC::Struct ==> !marker(TypeC::Struct).is_prefix_of(line),
{
    lemma_markers();
    lemma_first_char(line, marker(kind));
    if marker(TypeC::MainComment).is_prefix_of(line) {
        lemma_first_char(line, marker(TypeC::MainComment));
    }
    if marker(TypeC::Desc).is_prefix_of(line) {
        lemma_first_char(line, marker(TypeC::Desc));
    }
    if marker(TypeC::Inc).is_prefix_of(line) {
        lemma_first_char(line, marker(TypeC::Inc));
    }
    if marker(TypeC::Typedef).is_prefix_of(line) {
        lemma_first_char(line, marker(TypeC::Typedef));
    }
    if marker(TypeC::TypedefStruct).is_prefix_of(line) {
        lemma_first_char(line, marker(TypeC::TypedefStruct));
    }
    if marker(TypeC::Struct).is_prefix_of(line) {
        lemma_first_char(line, marker(TypeC::Struct));
    }
}

/// A character stands in two texts put together when it stands in one of
/// them.
proof fn lemma_contains_concat(a: Seq<char>, b: Seq<char>, c: char)
    ensures
        (a + b).contains(c) <==> a.contains(c) || b.contains(c),
{
    if a.contains(c) {
        let i = choose|i: int| 0 <= i < a.len() && a[i] == c;
        assert((a + b)[i] == c);
    }
    if b.contains(c) {
        let i = choose|i: int| 0 <= i < b.len() && b[i] == c;
        assert((a + b)[a.len() + i] == c);
    }
    if (a + b).contains(c) {
        let i = choose|i: int| 0 <= i < (a + b).len() && (a + b)[i] == c;
        if i < a.len() {
            assert(a[i] == c);
        } else {
            assert(b[i - a.len()] == c);
        }
    }
}

/// The first `k` lines of a block are the first `k - 1` and the one
/// behind them, for the run and for the gathered text alike.
proof fn lemma_prefix(home: Seq<char>, block: Seq<Seq<char>>, k: int)
    requires
        0 < k <= block.len(),
    ensures
        block_run(home, block.take(k)) == advance(
            block_run(home, block.take(k - 1)),
            block[k - 1],
            k as nat,
        ),
        glued(block.take(k)) == glued(block.take(k - 1)) + block[k - 1],
        k == 1 ==> block_run(home, block.take(k - 1)) == rested(home),
        k == 1 ==> glued(block.take(k)) == block[0],
        block.take(block.len() as int) == block,
{
    let p = block.take(k);
    assert(p.drop_last() =~= block.take(k - 1));
    assert(p.last() == block[k - 1]);
    assert(block.take(block.len() as int) =~= block);
    if k == 1 {
        assert(block.take(0).len() == 0);
        assert(glued(block.take(0)) =~= Seq::<char>::empty());
        assert(Seq::<char>::empty() + block[0] =~= block[0]);
    }
}

/// While the lines of a function are gathered, nothing is handed out.
proof fn lemma_function_gathers(home: Seq<char>, block: Seq<Seq<char>>, k: int)
    requires
        function_block(block),
        0 < k < block.len(),
    ensures
        block_run(home, block.take(k)) == gathered(home, TypeC::Func, glued(block.take(k))),
    decreases k,
{
    lemma_prefix(home, block, k);
    let line = block[k - 1];
    assert(unmarked(line));
    if marker(TypeC::TypedefStruct).is_prefix_of(line) {
        lemma_typedef_struct_marker(line);
    }
    assert(!occurs(glued(block.take(k)), ");"@));
    if k > 1 {
        lemma_function_gathers(home, block, k - 1);
    }
}

/// A function block is read as one function, without description.
pub proof fn function_block_is_well_formed(home: Seq<char>, block: Seq<Seq<char>>)
    requires
        function_block(block),
    ensures
        well_formed_block(home, block),
        block_run(home, block).content == (ContentModel {
            func: seq![Described { desc: None, item: function_decl(glued(block))->0 }],
            ..empty_content()
        }),
{
    let n = block.len() as int;
    lemma_prefix(home, block, n);
    let line = block[n - 1];
    assert(unmarked(line));
    if marker(TypeC::TypedefStruct).is_prefix_of(line) {
        lemma_typedef_struct_marker(line);
    }
    if n > 1 {
        lemma_function_gathers(home, block, n - 1);
    }
    let b = block_run(home, block);
    assert(b.content.func =~= seq![Described { desc: None, item: function_decl(glued(block))->0 }]);
    assert(b.content.object =~= Seq::empty());
    assert(b.content.incl =~= Seq::empty());
    assert forall|i: int| 0 <= i < block.len() implies declarative(#[trigger] block[i]) by {
        assert(unmarked(block[i]));
    }
}

/// While the lines of a struct are gathered, nothing is handed out.
proof fn lemma_struct_gathers(home: Seq<char>, block: Seq<Seq<char>>, k: int)
    requires
        struct_block(block),
        0 < k < block.len(),
    ensures
        block_run(home, block.take(k)) == gathered(home, TypeC::Struct, glued(block.take(k))),
    decreases k,
{
    lemma_prefix(home, block, k);
    let line = block[k - 1];
    assert(!"};"@.is_suffix_of(line));
    if k > 1 {
        assert(inner(line));
        if marker(TypeC::TypedefStruct).is_prefix_of(line) {
            lemma_typedef_struct_marker(line);
        }
        lemma_struct_gathers(home, block, k - 1);
    } else {
        lemma_marked_line(line, TypeC::Struct);
    }
}

/// A struct block is read as one struct, without description.
pub proof fn struct_block_is_well_formed(home: Seq<char>, block: Seq<Seq<char>>)
    requires
        struct_block(block),
    ensures
        well_formed_block(home, block),
        block_run(home, block).content == one_object(struct_decl(glued(block))->0),
{
    let n = block.len() as int;
    lemma_prefix(home, block, n);
    let line = block[n - 1];
    if n > 1 {
        assert(inner(line));
        if marker(TypeC::TypedefStruct).is_prefix_of(line) {
            lemma_typedef_struct_marker(line);
        }
        lemma_struct_gathers(home, block, n - 1);
    } else {
        lemma_marked_line(line, TypeC::Struct);
    }
    let b = block_run(home, block);
    assert(b.content.object =~= seq![Described { desc: None, item: struct_decl(glued(block))->0 }]);
    assert(b.content.func =~= Seq::empty());
    assert(b.content.incl =~= Seq::empty());
    assert forall|i: int| 0 <= i < block.len() implies declarative(#[trigger] block[i]) by {
        if i == 0 {
            lemma_marked_line(block[0], TypeC::Struct);
        } else {
            assert(inner(block[i]));
        }
    }
}

/// The text gathered from a block whose first line holds a brace holds a
/// brace.
proof fn lemma_glued_keeps_brace(block: Seq<Seq<char>>, k: int)
    requires
        0 < k <= block.len(),
        has_brace(block[0]),
    ensures
        has_brace(glued(block.take(k))),
    decreases k,
{
    let p = block.take(k);
    assert(p.drop_last() =~= block.take(k - 1));
    assert(p.last() == block[k - 1]);
    if k == 1 {
        assert(glued(block.take(0)) =~= Seq::<char>::empty());
        assert(Seq::<char>::empty() + block[0] =~= block[0]);
    } else {
        lemma_glued_keeps_brace(block, k - 1);
        lemma_contains_concat(glued(block.take(k - 1)), block[k - 1], '{');
        lemma_contains_concat(glued(block.take(k - 1)), block[k - 1], '}');
    }
}

/// The text gathered from lines without braces holds no brace.
proof fn lemma_glued_without_brace(block: Seq<Seq<char>>, k: int)
    requires
        0 <= k <= block.len(),
        forall|i: int| 0 <= i < block.len() ==> !has_brace(#[trigger] block[i]),
    ensures
        !has_brace(glued(block.take(k))),
    decreases k,
{
    let p = block.take(k);
    if k == 0 {
        assert(glued(p) =~= Seq::<char>::empty());
    } else {
        assert(p.drop_last() =~= block.take(k - 1));
        assert(p.last() == block[k - 1]);
        lemma_glued_without_brace(block, k - 1);
        assert(!has_brace(block[k - 1]));
        lemma_contains_concat(glued(block.take(k - 1)), block[k - 1], '{');
        lemma_contains_concat(glued(block.take(k - 1)), block[k - 1], '}');
    }
}

/// While the lines of a typedef with braces are gathered, nothing is
/// handed out.
proof fn lemma_typedef_struct_gathers(home: Seq<char>, block: Seq<Seq<char>>, k: int)
    requires
        typedef_struct_block(block),
        0 < k < block.len(),
    ensures
        block_run(home, block.take(k)) == gathered(
            home,
            TypeC::TypedefStruct,
            glued(block.take(k)),
        ),
    decreases k,
{
    lemma_prefix(home, block, k);
    lemma_glued_keeps_brace(block, k);
    let line = block[k - 1];
    assert(!closes_typedef_struct(line));
    if k > 1 {
        assert(following(line));
        lemma_typedef_struct_gathers(home, block, k - 1);
    } else {
        lemma_marked_line(line, TypeC::Typedef);
    }
}

/// A typedef block with braces is read as one struct with its alias,
/// without description.
pub proof fn typedef_struct_block_is_well_formed(home: Seq<char>, block: Seq<Seq<char>>)
    requires
        typedef_struct_block(block),
    ensures
        well_formed_block(home, block),
        block_run(home, block).content == one_object(typedef_struct_decl(glued(block))->0),
{
    let n = block.len() as int;
    lemma_prefix(home, block, n);
    lemma_glued_keeps_brace(block, n);
    let line = block[n - 1];
    if n > 1 {
        assert(following(line));
        lemma_typedef_struct_gathers(home, block, n - 1);
    } else {
        lemma_marked_line(line, TypeC::Typedef);
    }
    let b = block_run(home, block);
    assert(b.content.object =~= seq![
        Described { desc: None, item: typedef_struct_decl(glued(block))->0 },
    ]);
    assert(b.content.func =~= Seq::empty());
    assert(b.content.incl =~= Seq::empty());
    assert forall|i: int| 0 <= i < block.len() implies declarative(#[trigger] block[i]) by {
        if i == 0 {
            lemma_marked_line(block[0], TypeC::Typedef);
        } else {
            assert(following(block[i]));
        }
    }
}

/// While the lines of a typedef without braces are gathered, nothing is
/// handed out.
proof fn lemma_typedef_gathers(home: Seq<char>, block: Seq<Seq<char>>, k: int)
    requires
        typedef_block(block),
        0 < k < block.len(),
    ensures
        block_run(home, block.take(k)) == gathered(home, TypeC::Typedef, glued(block.take(k))),
    decreases k,
{
    lemma_prefix(home, block, k);
    lemma_glued_without_brace(block, k);
    let line = block[k - 1];
    assert(!";"@.is_suffix_of(line));
    if k > 1 {
        assert(following(line));
        lemma_typedef_gathers(home, block, k - 1);
    } else {
        lemma_marked_line(line, TypeC::Typedef);
    }
}

/// A typedef block without braces is read as one object, without
/// description.
pub proof fn typedef_block_is_well_formed(home: Seq<char>, block: Seq<Seq<char>>)
    requires
        typedef_block(block),
    ensures
        well_formed_block(home, block),
        block_run(home, block).content == one_object(typedef_decl(glued(block))->0),
{
    let n = block.len() as int;
    lemma_prefix(home, block, n);
    lemma_glued_without_brace(block, n);
    let line = block[n - 1];
    if n > 1 {
        assert(following(line));
        lemma_typedef_gathers(home, block, n - 1);
    } else {
        lemma_marked_line(line, TypeC::Typedef);
    }
    let b = block_run(home, block);
    assert(b.content.object =~= seq![Described { desc: None, item: typedef_decl(glued(block))->0 }]);
    assert(b.content.func =~= Seq::empty());
    assert(b.content.incl =~= Seq::empty());
    assert forall|i: int| 0 <= i < block.len() implies declarative(#[trigger] block[i]) by {
        if i == 0 {
            lemma_marked_line(block[0], TypeC::Typedef);
        } else {
            assert(following(block[i]));
        }
    }
}

/// An include block is read as one included header, without description.
pub proof fn include_block_is_well_formed(home: Seq<char>, block: Seq<Seq<char>>)
    requires
        include_block(home, block),
    ensures
        well_formed_block(home, block),
        block_run(home, block).content == (ContentModel {
            incl: seq![Described { desc: None, item: include_decl(block[0], home)->0 }],
            ..empty_content()
        }),
{
    lemma_prefix(home, block, 1);
    lemma_marked_line(block[0], TypeC::Inc);
    let b = block_run(home, block);
    assert(b.content.incl =~= seq![
        Described { desc: None, item: include_decl(block[0], home)->0 },
    ]);
    assert(b.content.object =~= Seq::empty());
    assert(b.content.func =~= Seq::empty());
}

/// The lines of one declaration, of whatever kind, are a well-formed
/// block.
pub proof fn declaration_block_is_well_formed(home: Seq<char>, block: Seq<Seq<char>>)
    requires
        declaration_block(home, block),
    ensures
        well_formed_block(home, block),
{
    if include_block(home, block) {
        include_block_is_well_formed(home, block);
    } else if function_block(block) {
        function_block_is_well_formed(home, block);
    } else if struct_block(block) {
        struct_block_is_well_formed(home, block);
    } else if typedef_struct_block(block) {
        typedef_struct_block_is_well_formed(home, block);
    } else {
        typedef_block_is_well_formed(home, block);
    }
}

/// A header made of nothing but includes, typedefs, structs and
/// functions, one block of lines each and in any order, is read without
/// failure, and its content holds exactly one declaration for each
/// block: by category, each category in the order of the blocks, as many
/// of each category as there are blocks of it.
pub proof fn declarations_in_any_order_are_all_read(home: Seq<char>, blocks: Seq<Seq<Seq<char>>>)
    requires
        forall|k: int| 0 <= k < blocks.len() ==> declaration_block(home, #[trigger] blocks[k]),
    ensures
        parsed(lines_of(blocks), home).0 == (ContentModel {
            main: Some(Seq::empty()),
            ..blocks_content(home, blocks)
        }),
        parsed(lines_of(blocks), home).1 == Seq::<ErrorModel>::empty(),
        count(parsed(lines_of(blocks), home).0) == blocks.len(),
        parsed(lines_of(blocks), home).0.object.len() == kind_counts(home, blocks).0,
        parsed(lines_of(blocks), home).0.func.len() == kind_counts(home, blocks).1,
        parsed(lines_of(blocks), home).0.incl.len() == kind_counts(home, blocks).2,
{
    assert forall|k: int| 0 <= k < blocks.len() implies well_formed_block(
        home,
        #[trigger] blocks[k],
    ) by {
        declaration_block_is_well_formed(home, blocks[k]);
    }
    blocks_yield_one_declaration_each(home, blocks);
}

} // verus!
