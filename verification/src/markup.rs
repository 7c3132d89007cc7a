//! Conversion of chat HTML to the ticket system's text markup.
//!
//! The conversion is done by the `html2md` crate, which is not verified and
//! which does not cope with every document:
//!
//! - It walks the parsed document recursively, one call for every level of
//!   nesting, so that deep nesting exhausts the stack.
//! - It keeps byte positions in its output while it works on emphasis,
//!   links and quotes. A list item that stands outside any list removes the
//!   leading white space of the whole output, after which such a position
//!   may lie past the end of the output or inside a character.
//! - It renders every cell of a table with a walk of its own, so that a
//!   table inside a table is walked over and over, twice as often with every
//!   level.
//!
//! What is handed to the converter is therefore parsed first, with the
//! parser that the converter itself uses, and the outline of the parsed
//! document is tested. A text whose outline fails the test is not converted.

use crate::text::str_eq;
use html2md::Handle;
use html2md::NodeData;
use html2md::RcDom;
use html5ever::driver::ParseOpts;
use html5ever::parse_document;
use html5ever::tendril::TendrilSink;
use vstd::prelude::*;

verus! {

/// One node of a parsed document: the place of its parent in the outline
/// (`None` for the document itself), and the name of the element (`None`
/// for text, comments and the like).
pub struct OutlineNode {
    pub parent: Option<usize>,
    pub name: Option<String>,
}

/// The outline of the document that the `html5ever` crate parses from a
/// text: its nodes in document order, each with the place of its parent and,
/// for an element, its name.
pub uninterp spec fn outline_of(html: Seq<char>) -> Seq<(Option<int>, Option<Seq<char>>)>;

/// The Markdown that the `html2md` crate renders for an HTML fragment.
pub uninterp spec fn markdown_of(html: Seq<char>) -> Seq<char>;

/// A document that is converted is nested at most this deep.
pub const MAX_DEPTH: usize = 256;

/// A text that is converted has at most this many characters, which is far
/// from what the parser's buffers hold.
pub const MAX_LENGTH: usize = 16777216;

/// An outline as plain values.
pub open spec fn outline_view(nodes: Seq<OutlineNode>) -> Seq<(Option<int>, Option<Seq<char>>)> {
    Seq::new(
        nodes.len(),
        |i: int|
            (
                match nodes[i].parent {
                    Some(p) => Some(p as int),
                    None => None,
                },
                nodes[i].name.deep_view(),
            ),
    )
}

/// The parent of node `i`, where it has one that stands before it.
pub open spec fn parent_of(o: Seq<(Option<int>, Option<Seq<char>>)>, i: int) -> Option<int> {
    if 0 <= i < o.len() {
        match o[i].0 {
            Some(p) => if 0 <= p < i {
                Some(p)
            } else {
                None
            },
            None => None,
        }
    } else {
        None
    }
}

/// Node `i` is an element with the given name.
pub open spec fn named(o: Seq<(Option<int>, Option<Seq<char>>)>, i: int, name: Seq<char>) -> bool {
    0 <= i < o.len() && o[i].1 == Some(name)
}

/// Node `i` is a list.
pub open spec fn is_list(o: Seq<(Option<int>, Option<Seq<char>>)>, i: int) -> bool {
    named(o, i, "ul"@) || named(o, i, "ol"@) || named(o, i, "menu"@)
}

/// Node `i` is a table cell.
pub open spec fn is_cell(o: Seq<(Option<int>, Option<Seq<char>>)>, i: int) -> bool {
    named(o, i, "td"@) || named(o, i, "th"@)
}

/// Node `i` is an element under which the converter keeps a position in
/// its output: emphasis, a quote or a link.
pub open spec fn is_keeper(o: Seq<(Option<int>, Option<Seq<char>>)>, i: int) -> bool {
    ||| named(o, i, "b"@)
    ||| named(o, i, "i"@)
    ||| named(o, i, "s"@)
    ||| named(o, i, "strong"@)
    ||| named(o, i, "em"@)
    ||| named(o, i, "del"@)
    ||| named(o, i, "q"@)
    ||| named(o, i, "cite"@)
    ||| named(o, i, "blockquote"@)
    ||| named(o, i, "a"@)
}

/// How deep node `i` is nested; the document itself is at depth zero.
pub open spec fn depth(o: Seq<(Option<int>, Option<Seq<char>>)>, i: int) -> nat
    decreases i,
{
    match parent_of(o, i) {
        Some(p) => depth(o, p) + 1,
        None => 0,
    }
}

/// Node `i` is a list or stands inside one, with no table cell between it
/// and the list. (A cell is rendered on its own, and what is above it does
/// not count inside.)
pub open spec fn within_list(o: Seq<(Option<int>, Option<Seq<char>>)>, i: int) -> bool
    decreases i,
{
    if is_list(o, i) {
        true
    } else if is_cell(o, i) {
        false
    } else {
        match parent_of(o, i) {
            Some(p) => within_list(o, p),
            None => false,
        }
    }
}

/// Node `i` is an element under which a position is kept, or stands inside
/// one.
pub open spec fn under_keeper(o: Seq<(Option<int>, Option<Seq<char>>)>, i: int) -> bool
    decreases i,
{
    if is_keeper(o, i) {
        true
    } else {
        match parent_of(o, i) {
            Some(p) => under_keeper(o, p),
            None => false,
        }
    }
}

/// Node `i` is a table or stands inside one.
pub open spec fn within_table(o: Seq<(Option<int>, Option<Seq<char>>)>, i: int) -> bool
    decreases i,
{
    if named(o, i, "table"@) {
        true
    } else {
        match parent_of(o, i) {
            Some(p) => within_table(o, p),
            None => false,
        }
    }
}

/// Node `i` is one the converter copes with: it hangs under a node before
/// it (the first node under none), it is not nested too deep, a list item
/// stands inside a list or outside everything under which a position is
/// kept, and a table does not stand inside a table.
pub open spec fn node_admitted(o: Seq<(Option<int>, Option<Seq<char>>)>, i: int) -> bool {
    &&& 0 <= i < o.len()
    &&& depth(o, i) <= MAX_DEPTH
    &&& if i == 0 {
        o[i].0 is None
    } else {
        &&& parent_of(o, i) matches Some(p)
        &&& named(o, i, "li"@) ==> within_list(o, p) || !under_keeper(o, p)
        &&& named(o, i, "table"@) ==> !within_table(o, p)
    }
}

/// The outline is that of a document the converter copes with.
pub open spec fn admitted(o: Seq<(Option<int>, Option<Seq<char>>)>) -> bool {
    &&& o.len() > 0
    &&& forall|i: int| 0 <= i < o.len() ==> node_admitted(o, i)
}

/// The text can be handed to the converter: it is not too long for the
/// parser, and the outline of its document is admitted.
pub open spec fn convertible(s: Seq<char>) -> bool {
    s.len() <= MAX_LENGTH && admitted(outline_of(s))
}

/// `html5ever::parse_document` into the `RcDom` of `html2md`, read with
/// `TendrilSink::read_from` as the converter reads it, and the nodes of the
/// document handed out in document order. The outline is taken on trust to
/// depend on the text alone.
#[verifier::external_body]
pub(crate) fn outline(html: &str) -> (r: Vec<OutlineNode>)
    ensures
        outline_view(r@) == outline_of(html@),
{
    let parsed = parse_document(RcDom::default(), ParseOpts::default()).from_utf8().read_from(
        &mut html.as_bytes(),
    );
    let mut nodes = Vec::new();
    let mut pending: Vec<(Handle, Option<usize>)> =
        parsed.iter().map(|dom| (dom.document.clone(), None)).collect();
    while let Some((node, parent)) = pending.pop() {
        let name = match &node.data {
            NodeData::Element { name, .. } => Some(name.local.to_string()),
            _ => None,
        };
        pending.extend(node.children.borrow().iter().rev().map(|c| (c.clone(), Some(nodes.len()))));
        nodes.push(OutlineNode { parent, name });
    }
    nodes
}

/// `html2md::parse_html`: parses the fragment and prints it as Markdown.
/// The converter is not verified; its output is taken on trust to depend on
/// the input alone. It is only called on texts that pass the test above:
/// on others it may fail on a position that is no longer in its output, run
/// out of stack, or not come to an end in any useful time. In a document
/// that passes, a list item is walked inside a list or while no position is
/// kept, no table is walked inside a table, and the walk goes no deeper than
/// `MAX_DEPTH`.
#[verifier::external_body]
pub(crate) fn html_to_markdown(html: &str) -> (r: String)
    requires
        convertible(html@),
    ensures
        r@ == markdown_of(html@),
{
    html2md::parse_html(html)
}

/// Whether a node has the given name.
fn has_name(node: &OutlineNode, name: &str) -> (r: bool)
    ensures
        r == (node.name.deep_view() == Some(name@)),
{
    match &node.name {
        Some(n) => str_eq(n.as_str(), name),
        None => false,
    }
}

/// Whether a node is an element under which the converter keeps a position.
fn keeps_position(node: &OutlineNode) -> (r: bool)
    ensures
        r == ({
            let n = node.name.deep_view();
            ||| n == Some("b"@)
            ||| n == Some("i"@)
            ||| n == Some("s"@)
            ||| n == Some("strong"@)
            ||| n == Some("em"@)
            ||| n == Some("del"@)
            ||| n == Some("q"@)
            ||| n == Some("cite"@)
            ||| n == Some("blockquote"@)
            ||| n == Some("a"@)
        }),
{
    has_name(node, "b") || has_name(node, "i") || has_name(node, "s") || has_name(node, "strong")
        || has_name(node, "em") || has_name(node, "del") || has_name(node, "q") || has_name(
        node,
        "cite",
    ) || has_name(node, "blockquote") || has_name(node, "a")
}

/// Whether the outline is that of a document the converter copes with.
pub fn is_admitted(outline: &Vec<OutlineNode>) -> (r: bool)
    ensures
        r == admitted(outline_view(outline@)),
{
    let ghost o = outline_view(outline@);
    if outline.len() == 0 {
        return false;
    }
    let mut depths: Vec<usize> = Vec::new();
    let mut lists: Vec<bool> = Vec::new();
    let mut keepers: Vec<bool> = Vec::new();
    let mut tables: Vec<bool> = Vec::new();
    let mut i: usize = 0;
    while i < outline.len()
        invariant
            i <= outline.len(),
            o == outline_view(outline@),
            depths@.len() == i,
            lists@.len() == i,
            keepers@.len() == i,
            tables@.len() == i,
            forall|j: int| 0 <= j < i ==> node_admitted(o, j),
            forall|j: int| 0 <= j < i ==> depths@[j] == depth(o, j),
            forall|j: int| 0 <= j < i ==> lists@[j] == within_list(o, j),
            forall|j: int| 0 <= j < i ==> keepers@[j] == under_keeper(o, j),
            forall|j: int| 0 <= j < i ==> tables@[j] == within_table(o, j),
        decreases outline.len() - i,
    {
        let node = &outline[i];
        let is_item = has_name(node, "li");
        let is_table = has_name(node, "table");
        let is_list_here = has_name(node, "ul") || has_name(node, "ol") || has_name(node, "menu");
        let is_cell_here = has_name(node, "td") || has_name(node, "th");
        let is_keeper_here = keeps_position(node);
        let mut depth_here: usize = 0;
        let mut list_above = false;
        let mut keeper_above = false;
        let mut table_above = false;
        match node.parent {
            None => {
                if i != 0 {
                    assert(!node_admitted(o, i as int));
                    return false;
                }
            },
            Some(p) => {
                if i == 0 || p >= i {
                    assert(!node_admitted(o, i as int));
                    return false;
                }
                assert(parent_of(o, i as int) == Some(p as int));
                assert(node_admitted(o, p as int));
                depth_here = depths[p] + 1;
                list_above = lists[p];
                keeper_above = keepers[p];
                table_above = tables[p];
                assert(list_above == within_list(o, p as int));
                assert(keeper_above == under_keeper(o, p as int));
                assert(table_above == within_table(o, p as int));
            },
        }
        assert(match parent_of(o, i as int) {
            Some(p) => {
                &&& depth_here == depth(o, p) + 1
                &&& list_above == within_list(o, p)
                &&& keeper_above == under_keeper(o, p)
                &&& table_above == within_table(o, p)
            },
            None => depth_here == 0 && !list_above && !keeper_above && !table_above,
        });
        if depth_here > MAX_DEPTH || (is_item && !list_above && keeper_above) || (is_table
            && table_above) {
            assert(!node_admitted(o, i as int));
            return false;
        }
        assert(node_admitted(o, i as int));
        proof {
            assert(o[i as int].1 == node.name.deep_view());
            assert(is_list(o, i as int) == is_list_here);
            assert(is_cell(o, i as int) == is_cell_here);
            assert(is_keeper(o, i as int) == is_keeper_here);
            assert(named(o, i as int, "table"@) == is_table);
            assert(within_list(o, i as int) == (is_list_here || (!is_cell_here && list_above)));
            assert(under_keeper(o, i as int) == (is_keeper_here || keeper_above));
            assert(within_table(o, i as int) == (is_table || table_above));
        }
        depths.push(depth_here);
        lists.push(is_list_here || (!is_cell_here && list_above));
        keepers.push(is_keeper_here || keeper_above);
        tables.push(is_table || table_above);
        i += 1;
    }
    true
}

/// Whether the text can be handed to the converter.
pub fn is_convertible(html: &str) -> (r: bool)
    ensures
        r == convertible(html@),
{
    if html.unicode_len() > MAX_LENGTH {
        return false;
    }
    is_admitted(&outline(html))
}

/// The Markdown for an HTML fragment, or `None` for a fragment that cannot
/// be handed to the converter.
pub fn to_markdown(html: &str) -> (r: Option<String>)
    ensures
        match r {
            Some(text) => convertible(html@) && text@ == markdown_of(html@),
            None => !convertible(html@),
        },
{
    if is_convertible(html) {
        Some(html_to_markdown(html))
    } else {
        None
    }
}

} // verus!
