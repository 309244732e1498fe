//! Reading the listing that a tool prints of the dependencies: from the text
//! to one record for each entry, with the names of the entries below it.
//!
//! The listing is read line by line. A line begins with what draws the tree
//! or indents the entry; then comes the entry, `name@version` or `name`
//! followed by the version. An entry lies below the nearest entry before it
//! that is indented less.

use crate::pkgm::types::ManagerType;
use crate::text::texts;
use crate::utils::error::{Error, ErrorView};
use vstd::prelude::*;
use vstd::string::*;

verus! {

/// One entry of a listing.
#[derive(Debug)]
pub struct DependencyNode {
    pub name: String,
    /// The version as the tool printed it, or `unknown` where it printed
    /// none.
    pub version: String,
    /// The names of the entries directly below this one, in order.
    pub children: Vec<String>,
}

/// A [`DependencyNode`] with its texts as character sequences.
pub struct NodeView {
    pub name: Seq<char>,
    pub version: Seq<char>,
    pub children: Seq<Seq<char>>,
}

impl View for DependencyNode {
    type V = NodeView;

    open spec fn view(&self) -> NodeView {
        NodeView { name: self.name@, version: self.version@, children: texts(self.children@) }
    }
}

/// The views of a list of nodes, in order.
pub open spec fn node_views(nodes: Seq<DependencyNode>) -> Seq<NodeView> {
    Seq::new(nodes.len(), |i: int| nodes[i]@)
}

/// What stands for a version that the listing does not give.
pub open spec fn unknown_version() -> Seq<char> {
    "unknown"@
}

/// The kinds of characters that the reading of a line tells apart.
#[derive(Debug, Clone, Copy, PartialEq, Eq, Structural)]
pub enum Class {
    /// What indents an entry or draws the tree in front of it.
    Decoration,
    /// What separates the words of an entry.
    Gap,
    /// Anything that is part of a word.
    Word,
    /// Anything but the end of the line.
    Line,
}

/// Whether a character separates words.
pub open spec fn is_gap(c: char) -> bool {
    c == ' ' || c == '\t' || c == '\r'
}

/// Whether a character belongs to a class.
pub open spec fn in_class(c: char, class: Class) -> bool {
    match class {
        Class::Decoration => is_gap(c) || c == '|' || c == '+' || c == '-' || c == '`' || c == '\\'
            || c == '│' || c == '├' || c == '└' || c == '─' || c == '┬',
        Class::Gap => is_gap(c),
        Class::Word => !is_gap(c),
        Class::Line => c != '\n',
    }
}

/// The number of characters at the beginning of a text that belong to a
/// class.
pub open spec fn leading(text: Seq<char>, class: Class) -> nat
    decreases text.len(),
{
    if text.len() == 0 || !in_class(text[0], class) {
        0
    } else {
        1 + leading(text.drop_first(), class)
    }
}

/// Where the version begins in a word of the form `name@version`: behind the
/// last `@` that is not the first character of the word.
pub open spec fn version_mark(word: Seq<char>) -> Option<int>
    decreases word.len(),
{
    if word.len() <= 1 {
        None
    } else if word.last() == '@' {
        Some(word.len() - 1)
    } else {
        version_mark(word.drop_last())
    }
}

/// A line that holds an entry: how far it is indented, and the entry.
pub struct Row {
    pub indent: int,
    pub name: Seq<char>,
    pub version: Seq<char>,
}

/// The first word of a text.
pub open spec fn first_word(text: Seq<char>) -> Seq<char> {
    text.take(leading(text, Class::Word) as int)
}

/// A text without its first word and the gap behind it.
pub open spec fn after_first_word(text: Seq<char>) -> Seq<char> {
    let rest = text.skip(leading(text, Class::Word) as int);
    rest.skip(leading(rest, Class::Gap) as int)
}

/// The version, or what stands for one that is not given.
pub open spec fn version_or_unknown(version: Seq<char>) -> Seq<char> {
    if version.len() == 0 {
        unknown_version()
    } else {
        version
    }
}

/// What a line holds. A line with nothing behind its decoration holds no
/// entry. The first word is the name, with the version behind its `@` if it
/// has one; else the second word is the version.
pub open spec fn row_of(line: Seq<char>) -> Option<Row> {
    let indent = leading(line, Class::Decoration) as int;
    let entry = line.skip(indent);
    let word = first_word(entry);
    if word.len() == 0 {
        None
    } else {
        Some(
            match version_mark(word) {
                Some(at) => Row {
                    indent,
                    name: word.take(at),
                    version: version_or_unknown(word.skip(at + 1)),
                },
                None => Row {
                    indent,
                    name: word,
                    version: version_or_unknown(first_word(after_first_word(entry))),
                },
            },
        )
    }
}

/// The entries of a text from the line that begins at `start`, of which the
/// first `skip` lines are passed over.
pub open spec fn rows_from(text: Seq<char>, start: int, skip: nat) -> Seq<Row>
    decreases text.len() - start,
{
    if start < 0 || start > text.len() {
        Seq::empty()
    } else {
        let end = start + leading(text.skip(start), Class::Line);
        let line = text.subrange(start, end);
        let here = if skip == 0 && row_of(line) is Some {
            seq![row_of(line)->Some_0]
        } else {
            Seq::empty()
        };
        if end >= text.len() {
            here
        } else {
            here + rows_from(
                text,
                end + 1,
                if skip > 0 {
                    (skip - 1) as nat
                } else {
                    0
                },
            )
        }
    }
}

/// The nearest row at or before `j` that is indented less than row `k`, or
/// -1 if there is none.
pub open spec fn nearest_shallower(rows: Seq<Row>, k: int, j: int) -> int
    decreases j + 1,
{
    if j < 0 {
        -1
    } else if rows[j].indent < rows[k].indent {
        j
    } else {
        nearest_shallower(rows, k, j - 1)
    }
}

/// The row that row `k` lies directly below, or -1 if it lies below none.
pub open spec fn parent_of(rows: Seq<Row>, k: int) -> int {
    nearest_shallower(rows, k, k - 1)
}

/// The names of the rows before `upto` that lie directly below row `i`.
pub open spec fn children_before(rows: Seq<Row>, i: int, upto: int) -> Seq<Seq<char>>
    decreases upto - i,
{
    if upto <= i + 1 {
        Seq::empty()
    } else {
        let before = children_before(rows, i, upto - 1);
        if parent_of(rows, upto - 1) == i {
            before.push(rows[upto - 1].name)
        } else {
            before
        }
    }
}

/// The nodes of a list of rows: each row with the names of the rows
/// directly below it.
pub open spec fn nodes_of(rows: Seq<Row>) -> Seq<NodeView> {
    Seq::new(
        rows.len(),
        |i: int|
            NodeView {
                name: rows[i].name,
                version: rows[i].version,
                children: children_before(rows, i, rows.len() as int),
            },
    )
}

/// The nodes of a listing of which the first lines are a header.
pub open spec fn dependency_nodes(output: Seq<char>, header_lines: nat) -> Seq<NodeView> {
    nodes_of(rows_from(output, 0, header_lines))
}

/// How many lines a tool prints before its entries.
pub open spec fn header_of(manager_type: ManagerType) -> nat {
    match manager_type {
        ManagerType::Pip => 2,
        _ => 0,
    }
}

fn char_in_class(c: char, class: Class) -> (yes: bool)
    ensures
        yes == in_class(c, class),
{
    let gap = c == ' ' || c == '\t' || c == '\r';
    match class {
        Class::Decoration => gap || c == '|' || c == '+' || c == '-' || c == '`' || c == '\\' || c
            == '│' || c == '├' || c == '└' || c == '─' || c == '┬',
        Class::Gap => gap,
        Class::Word => !gap,
        Class::Line => c != '\n',
    }
}

proof fn lemma_leading_step(text: Seq<char>, from: int, end: int, class: Class)
    requires
        0 <= from < end <= text.len(),
        in_class(text[from], class),
    ensures
        leading(text.subrange(from, end), class) == 1 + leading(
            text.subrange(from + 1, end),
            class,
        ),
{
    let part = text.subrange(from, end);
    assert(part[0] == text[from]);
    assert(part.drop_first() =~= text.subrange(from + 1, end));
}

/// The end of the run of characters of a class that begins at `from`.
fn scan(text: &Vec<char>, from: usize, end: usize, class: Class) -> (to: usize)
    requires
        from <= end <= text@.len(),
    ensures
        from <= to <= end,
        to - from == leading(text@.subrange(from as int, end as int), class),
{
    let mut i: usize = from;
    while i < end && char_in_class(text[i], class)
        invariant
            from <= i <= end <= text@.len(),
            leading(text@.subrange(from as int, end as int), class) == (i - from) + leading(
                text@.subrange(i as int, end as int),
                class,
            ),
        decreases end - i,
    {
        proof {
            lemma_leading_step(text@, i as int, end as int, class);
        }
        i += 1;
    }
    proof {
        let rest = text@.subrange(i as int, end as int);
        if i < end {
            assert(rest[0] == text@[i as int]);
        }
        assert(leading(rest, class) == 0);
    }
    i
}

/// Where the version begins in the word from `from` to `to`.
fn find_mark(text: &Vec<char>, from: usize, to: usize) -> (at: Option<usize>)
    requires
        from <= to <= text@.len(),
    ensures
        match at {
            Some(i) => from < i < to && version_mark(text@.subrange(from as int, to as int))
                == Some(i - from),
            None => version_mark(text@.subrange(from as int, to as int)) is None,
        },
{
    let mut i: usize = to;
    assert(text@.subrange(from as int, i as int) == text@.subrange(from as int, to as int));
    while i - from > 1
        invariant
            from <= i <= to <= text@.len(),
            version_mark(text@.subrange(from as int, to as int)) == version_mark(
                text@.subrange(from as int, i as int),
            ),
        decreases i,
    {
        let ghost word = text@.subrange(from as int, i as int);
        assert(word.last() == text@[i - 1]);
        assert(word.drop_last() =~= text@.subrange(from as int, i - 1));
        if text[i - 1] == '@' {
            return Some(i - 1);
        }
        i -= 1;
    }
    None
}

/// A row as it is held while a listing is read.
struct RowText {
    indent: usize,
    name: String,
    version: String,
}

impl View for RowText {
    type V = Row;

    closed spec fn view(&self) -> Row {
        Row { indent: self.indent as int, name: self.name@, version: self.version@ }
    }
}

spec fn row_views(rows: Seq<RowText>) -> Seq<Row> {
    Seq::new(rows.len(), |i: int| rows[i]@)
}

fn version_text(output: &str, from: usize, to: usize) -> (version: String)
    requires
        from <= to <= output@.len(),
    ensures
        version@ == version_or_unknown(output@.subrange(from as int, to as int)),
{
    if from == to {
        "unknown".to_owned()
    } else {
        output.substring_char(from, to).to_owned()
    }
}

/// Reads the line from `start` to `end`.
fn read_line(output: &str, text: &Vec<char>, start: usize, end: usize) -> (row: Option<RowText>)
    requires
        text@ == output@,
        start <= end <= text@.len(),
    ensures
        match row {
            Some(r) => row_of(text@.subrange(start as int, end as int)) == Some(r@),
            None => row_of(text@.subrange(start as int, end as int)) is None,
        },
{
    let ghost line = text@.subrange(start as int, end as int);
    let entry_at = scan(text, start, end, Class::Decoration);
    let ghost entry = line.skip(entry_at - start);
    assert(entry =~= text@.subrange(entry_at as int, end as int));
    let word_end = scan(text, entry_at, end, Class::Word);
    let ghost word = first_word(entry);
    assert(word =~= text@.subrange(entry_at as int, word_end as int));
    if word_end == entry_at {
        return None;
    }
    match find_mark(text, entry_at, word_end) {
        Some(at) => {
            assert(word.take(at - entry_at) =~= text@.subrange(entry_at as int, at as int));
            assert(word.skip(at - entry_at + 1) =~= text@.subrange(at + 1, word_end as int));
            Some(
                RowText {
                    indent: entry_at - start,
                    name: output.substring_char(entry_at, at).to_owned(),
                    version: version_text(output, at + 1, word_end),
                },
            )
        },
        None => {
            let second_at = scan(text, word_end, end, Class::Gap);
            let second_end = scan(text, second_at, end, Class::Word);
            proof {
                let rest = entry.skip(leading(entry, Class::Word) as int);
                assert(rest =~= text@.subrange(word_end as int, end as int));
                let after = after_first_word(entry);
                assert(after =~= text@.subrange(second_at as int, end as int));
                assert(first_word(after) =~= text@.subrange(second_at as int, second_end as int));
            }
            Some(
                RowText {
                    indent: entry_at - start,
                    name: output.substring_char(entry_at, word_end).to_owned(),
                    version: version_text(output, second_at, second_end),
                },
            )
        },
    }
}

/// The characters of a text.
fn characters(output: &str) -> (text: Vec<char>)
    ensures
        text@ == output@,
{
    let mut text: Vec<char> = Vec::new();
    for c in it: output.chars()
        invariant
            it.seq() == output@,
            text@ == output@.take(it.index()),
    {
        text.push(c);
        assert(text@ =~= output@.take(it.index() + 1));
    }
    assert(output@.take(output@.len() as int) =~= output@);
    text
}

/// The rows of a listing.
fn read_rows(output: &str, header_lines: usize) -> (rows: Vec<RowText>)
    ensures
        row_views(rows@) == rows_from(output@, 0, header_lines as nat),
{
    let text = characters(output);
    let n = text.len();
    let mut rows: Vec<RowText> = Vec::new();
    let mut start: usize = 0;
    let mut skip: usize = header_lines;
    let mut done = false;
    assert(row_views(rows@) + rows_from(output@, 0, header_lines as nat) =~= rows_from(
        output@,
        0,
        header_lines as nat,
    ));
    while !done
        invariant
            text@ == output@,
            n == text@.len(),
            start <= n,
            !done ==> rows_from(output@, 0, header_lines as nat) == row_views(rows@) + rows_from(
                output@,
                start as int,
                skip as nat,
            ),
            done ==> rows_from(output@, 0, header_lines as nat) == row_views(rows@),
        decreases n - start + (if done { 0int } else { 1int }),
    {
        let ghost before = row_views(rows@);
        let end = scan(&text, start, n, Class::Line);
        assert(text@.skip(start as int) =~= text@.subrange(start as int, n as int));
        let ghost line = text@.subrange(start as int, end as int);
        let ghost here = if skip == 0 && row_of(line) is Some {
            seq![row_of(line)->Some_0]
        } else {
            Seq::<Row>::empty()
        };
        if skip == 0 {
            match read_line(output, &text, start, end) {
                Some(row) => {
                    rows.push(row);
                },
                None => {},
            }
        }
        assert(row_views(rows@) =~= before + here);
        if end >= n {
            done = true;
            assert(before + here =~= before + rows_from(output@, start as int, skip as nat));
        } else {
            let ghost next: nat = if skip > 0 {
                (skip - 1) as nat
            } else {
                0
            };
            assert(before + (here + rows_from(output@, end + 1, next)) =~= (before + here)
                + rows_from(output@, end + 1, next));
            start = end + 1;
            if skip > 0 {
                skip -= 1;
            }
        }
    }
    rows
}

/// The row that row `k` lies directly below.
fn parent_index(rows: &Vec<RowText>, k: usize) -> (parent: Option<usize>)
    requires
        k < rows@.len(),
    ensures
        match parent {
            Some(j) => j < k && parent_of(row_views(rows@), k as int) == j,
            None => parent_of(row_views(rows@), k as int) == -1,
        },
{
    let mut j: usize = k;
    while j > 0
        invariant
            j <= k < rows@.len(),
            parent_of(row_views(rows@), k as int) == nearest_shallower(
                row_views(rows@),
                k as int,
                j - 1,
            ),
        decreases j,
    {
        j -= 1;
        assert(row_views(rows@)[j as int] == rows@[j as int]@);
        assert(row_views(rows@)[k as int] == rows@[k as int]@);
        if rows[j].indent < rows[k].indent {
            return Some(j);
        }
    }
    None
}

/// The names of the rows that lie directly below row `i`.
fn children_of(rows: &Vec<RowText>, i: usize) -> (children: Vec<String>)
    requires
        i < rows@.len(),
    ensures
        texts(children@) == children_before(row_views(rows@), i as int, rows@.len() as int),
{
    let mut children: Vec<String> = Vec::new();
    let n = rows.len();
    let mut k: usize = i + 1;
    assert(texts(children@) =~= children_before(row_views(rows@), i as int, k as int));
    while k < n
        invariant
            n == rows@.len(),
            i < k <= rows@.len(),
            texts(children@) == children_before(row_views(rows@), i as int, k as int),
        decreases rows@.len() - k,
    {
        let ghost before = texts(children@);
        let below = match parent_index(rows, k) {
            Some(j) => j == i,
            None => false,
        };
        if below {
            children.push(rows[k].name.clone());
            assert(row_views(rows@)[k as int] == rows@[k as int]@);
            assert(texts(children@) =~= before.push(rows@[k as int]@.name));
        }
        k += 1;
    }
    children
}

/// Reads a listing of which the first `header_lines` lines are a header.
/// Every line with an entry gives one node, in the order of the lines. A
/// listing without any entry is not an empty result but an error: it cannot
/// be told from a listing that was not understood.
pub fn parse_dependencies(manager_name: &str, output: &str, header_lines: usize) -> (parsed:
    Result<Vec<DependencyNode>, Error>)
    ensures
        match parsed {
            Ok(nodes) => nodes@.len() > 0 && node_views(nodes@) == dependency_nodes(
                output@,
                header_lines as nat,
            ),
            Err(e) => dependency_nodes(output@, header_lines as nat).len() == 0 && e@
                == (ErrorView::NoDependenciesParsed { manager: manager_name@ }),
        },
{
    let rows = read_rows(output, header_lines);
    if rows.len() == 0 {
        return Err(Error::NoDependenciesParsed { manager: manager_name.to_owned() });
    }
    let mut nodes: Vec<DependencyNode> = Vec::new();
    let mut i: usize = 0;
    while i < rows.len()
        invariant
            i <= rows@.len(),
            nodes@.len() == i,
            forall|k: int|
                0 <= k < i ==> (#[trigger] nodes@[k])@ == nodes_of(row_views(rows@))[k],
        decreases rows@.len() - i,
    {
        let children = children_of(&rows, i);
        assert(row_views(rows@)[i as int] == rows@[i as int]@);
        nodes.push(
            DependencyNode {
                name: rows[i].name.clone(),
                version: rows[i].version.clone(),
                children,
            },
        );
        i += 1;
    }
    assert(node_views(nodes@) =~= nodes_of(row_views(rows@)));
    Ok(nodes)
}

/// The number of header lines in the listing of a tool.
pub fn header_lines(manager_type: ManagerType) -> (lines: usize)
    ensures
        lines == header_of(manager_type),
{
    match manager_type {
        ManagerType::Pip => 2,
        _ => 0,
    }
}

} // verus!
