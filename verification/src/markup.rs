//! The library's own model of a markup document.
//!
//! Documents are plain-value trees: an element has a tag name, at most one
//! hyperlink attribute, and an ordered list of child nodes, each of which is
//! either a nested element or a run of text.  Whatever markup library the
//! surrounding binary uses is converted into this model before the library
//! sees it; no library-specific node type crosses this boundary.
use vstd::prelude::*;
use vstd::string::*;

verus! {

/// One node of a markup tree: a nested element or a run of text.
pub enum MarkupNode {
    Element(MarkupElement),
    Text(String),
}

/// One element of a markup tree.
pub struct MarkupElement {
    /// The tag name, such as `section` or `h2`.
    pub tag: String,
    /// The value of the element's hyperlink attribute, when it has one.
    pub href: Option<String>,
    /// The child nodes, in document order.
    pub children: Vec<MarkupNode>,
}

/// The flattened text of one node: the text itself, or the concatenated
/// text of an element's descendants.
pub open spec fn node_text(n: MarkupNode) -> Seq<char>
    decreases n,
{
    match n {
        MarkupNode::Text(s) => s@,
        MarkupNode::Element(e) => nodes_text_from(e.children@, 0),
    }
}

/// The concatenated flattened text of `ns[i..]`.
pub open spec fn nodes_text_from(ns: Seq<MarkupNode>, i: int) -> Seq<char>
    decreases ns, ns.len() - i,
{
    if 0 <= i < ns.len() {
        node_text(ns[i]) + nodes_text_from(ns, i + 1)
    } else {
        Seq::empty()
    }
}

/// The flattened text of an element's whole subtree.
pub open spec fn element_text(e: MarkupElement) -> Seq<char> {
    nodes_text_from(e.children@, 0)
}

/// The element-typed entries of `ns[i..]`, in order, with text nodes
/// skipped.
pub open spec fn elements_from(ns: Seq<MarkupNode>, i: int) -> Seq<MarkupElement>
    decreases ns.len() - i,
{
    if 0 <= i < ns.len() {
        match ns[i] {
            MarkupNode::Element(e) => seq![e] + elements_from(ns, i + 1),
            MarkupNode::Text(_) => elements_from(ns, i + 1),
        }
    } else {
        Seq::empty()
    }
}

/// The element children of `e`, in order.
pub open spec fn element_children(e: MarkupElement) -> Seq<MarkupElement> {
    elements_from(e.children@, 0)
}

#[verifier::loop_isolation(false)]
fn append_node_text(n: &MarkupNode, out: &mut String)
    ensures
        final(out)@ == old(out)@ + node_text(*n),
    decreases *n,
{
    match n {
        MarkupNode::Text(s) => {
            out.append(s.as_str());
        },
        MarkupNode::Element(e) => {
            let ghost entry = out@;
            let cs: &Vec<MarkupNode> = &e.children;
            let mut i: usize = 0;
            while i < cs.len()
                invariant
                    i <= cs@.len(),
                    cs@ == e.children@,
                    out@ + nodes_text_from(cs@, i as int) == entry + nodes_text_from(cs@, 0),
                decreases cs@.len() - i,
            {
                let ghost before = out@;
                proof {
                    assert(*n == MarkupNode::Element(*e));
                    assert(decreases_to!(MarkupNode::Element(*e) => *e));
                    assert(decreases_to!(*e => e.children));
                    assert(decreases_to!(e.children => e.children@));
                    assert(decreases_to!(e.children@ => e.children@[i as int]));
                    assert(decreases_to!(*n => cs@[i as int]));
                }
                append_node_text(&cs[i], out);
                proof {
                    assert(out@ + nodes_text_from(cs@, i + 1) =~= before + (node_text(cs@[i as int])
                        + nodes_text_from(cs@, i + 1)));
                    assert(node_text(cs@[i as int]) + nodes_text_from(cs@, i + 1)
                        == nodes_text_from(cs@, i as int));
                }
                i += 1;
            }
            proof {
                assert(out@ + nodes_text_from(cs@, cs@.len() as int) =~= out@);
                assert(node_text(*n) == nodes_text_from(cs@, 0));
                assert(entry + node_text(*n) =~= entry + nodes_text_from(cs@, 0));
            }
        },
    }
}

/// The flattened text of an element, exactly as `element_text` states it.
#[verifier::loop_isolation(false)]
pub fn element_text_to_string(el: &MarkupElement) -> (r: String)
    ensures
        r@ == element_text(*el),
{
    let mut out = String::new();
    let ghost entry = out@;
    let cs: &Vec<MarkupNode> = &el.children;
    let mut i: usize = 0;
    while i < cs.len()
        invariant
            i <= cs@.len(),
            cs@ == el.children@,
            out@ + nodes_text_from(cs@, i as int) == nodes_text_from(cs@, 0),
        decreases cs@.len() - i,
    {
        let ghost before = out@;
        append_node_text(&cs[i], &mut out);
        proof {
            assert(out@ + nodes_text_from(cs@, i + 1) =~= before + (node_text(cs@[i as int])
                + nodes_text_from(cs@, i + 1)));
            assert(node_text(cs@[i as int]) + nodes_text_from(cs@, i + 1) == nodes_text_from(
                cs@,
                i as int,
            ));
        }
        i += 1;
    }
    proof {
        assert(out@ + nodes_text_from(cs@, cs@.len() as int) =~= out@);
    }
    out
}

/// A lazy, forward-only traversal over the nodes of one tree level that
/// yields only the element-typed entries, skipping runs of text.
pub struct ScraperSiblingElement<'a> {
    nodes: &'a Vec<MarkupNode>,
    pos: usize,
}

impl<'a> ScraperSiblingElement<'a> {
    /// The elements the traversal has not yet yielded.
    pub closed spec fn remaining(self) -> Seq<MarkupElement> {
        elements_from(self.nodes@, self.pos as int)
    }

    /// A traversal over the nodes of one tree level, starting at position
    /// `start` of the sibling list `nodes`.
    pub fn new(nodes: &'a Vec<MarkupNode>, start: usize) -> (r: ScraperSiblingElement<'a>)
        ensures
            r.remaining() == elements_from(nodes@, start as int),
    {
        ScraperSiblingElement { nodes, pos: start }
    }

    /// A copy of the traversal at its current position.
    pub fn duplicate(&self) -> (r: ScraperSiblingElement<'a>)
        ensures
            r.remaining() == self.remaining(),
    {
        ScraperSiblingElement { nodes: self.nodes, pos: self.pos }
    }

    /// The next element at this tree level, if one is left; text nodes are
    /// passed over transparently.
    pub fn next(&mut self) -> (r: Option<&'a MarkupElement>)
        ensures
            match r {
                Some(e) => old(self).remaining().len() > 0 && *e == old(self).remaining()[0]
                    && final(self).remaining() == old(self).remaining().drop_first(),
                None => old(self).remaining().len() == 0 && final(self).remaining().len() == 0,
            },
    {
        let ns: &'a Vec<MarkupNode> = self.nodes;
        while self.pos < ns.len()
            invariant
                self.nodes == ns,
                elements_from(ns@, self.pos as int) == old(self).remaining(),
            decreases ns@.len() - self.pos,
        {
            let node: &'a MarkupNode = &ns[self.pos];
            match node {
                MarkupNode::Text(_) => {
                    self.pos += 1;
                },
                MarkupNode::Element(e) => {
                    proof {
                        assert(elements_from(ns@, self.pos as int) == seq![*e] + elements_from(
                            ns@,
                            self.pos + 1,
                        ));
                        assert((seq![*e] + elements_from(ns@, self.pos + 1)).drop_first()
                            =~= elements_from(ns@, self.pos + 1));
                    }
                    self.pos += 1;
                    return Some(e);
                },
            }
        }
        None
    }
}

} // verus!
