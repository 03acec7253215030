//! The owned AST: a closed set of node variants marshalled out of the native
//! parser's tagged-union nodes. Every variant carries its discriminant label,
//! its location, and the diagnostics attached directly to it; the tree is
//! immutable once built and owns all of its children.

use vstd::prelude::*;
use vstd::string::StringExecFns;

use crate::errors::AnyError;
use crate::location::Location;
use crate::text::decimal_string;
use crate::token::escape_str;

verus! {

broadcast use vstd::std_specs::vec::group_vec_axioms;

/// The root of a parsed document.
#[derive(Debug)]
pub struct DocumentNode {
    pub node_type: String,
    pub location: Location,
    pub errors: Vec<AnyError>,
    pub children: Vec<AnyNode>,
}

/// A whole element: its open tag, its body, and its close tag when one exists.
#[derive(Debug)]
pub struct HTMLElementNode {
    pub node_type: String,
    pub location: Location,
    pub errors: Vec<AnyError>,
    pub open_tag: Box<AnyNode>,
    pub body: Vec<AnyNode>,
    pub close_tag: Option<Box<AnyNode>>,
}

/// An opening tag, e.g. `<div class="x">`.
#[derive(Debug)]
pub struct HTMLOpenTagNode {
    pub node_type: String,
    pub location: Location,
    pub errors: Vec<AnyError>,
    pub tag_opening: String,
    pub tag_name: String,
    pub attributes: Vec<AnyNode>,
    pub tag_closing: String,
}

/// A closing tag, e.g. `</div>`.
#[derive(Debug)]
pub struct HTMLCloseTagNode {
    pub node_type: String,
    pub location: Location,
    pub errors: Vec<AnyError>,
    pub tag_opening: String,
    pub tag_name: String,
    pub tag_closing: String,
}

/// One attribute: its name and, when present, its value.
#[derive(Debug)]
pub struct HTMLAttributeNode {
    pub node_type: String,
    pub location: Location,
    pub errors: Vec<AnyError>,
    pub name: Box<AnyNode>,
    pub value: Option<Box<AnyNode>>,
}

/// An attribute name.
#[derive(Debug)]
pub struct HTMLAttributeNameNode {
    pub node_type: String,
    pub location: Location,
    pub errors: Vec<AnyError>,
    pub name: String,
}

/// An attribute value with its surrounding quotes.
#[derive(Debug)]
pub struct HTMLAttributeValueNode {
    pub node_type: String,
    pub location: Location,
    pub errors: Vec<AnyError>,
    pub open_quote: String,
    pub value: String,
    pub close_quote: String,
}

/// A run of literal text.
#[derive(Debug)]
pub struct HTMLTextNode {
    pub node_type: String,
    pub location: Location,
    pub errors: Vec<AnyError>,
    pub content: String,
}

/// An embedded-script region, e.g. `<%= name %>`.
#[derive(Debug)]
pub struct ERBContentNode {
    pub node_type: String,
    pub location: Location,
    pub errors: Vec<AnyError>,
    pub tag_opening: String,
    pub content: String,
    pub tag_closing: String,
}

/// The closed polymorphic node value: one variant per native node kind.
#[derive(Debug)]
pub enum AnyNode {
    DocumentNode(DocumentNode),
    HTMLElementNode(HTMLElementNode),
    HTMLOpenTagNode(HTMLOpenTagNode),
    HTMLCloseTagNode(HTMLCloseTagNode),
    HTMLAttributeNode(HTMLAttributeNode),
    HTMLAttributeNameNode(HTMLAttributeNameNode),
    HTMLAttributeValueNode(HTMLAttributeValueNode),
    HTMLTextNode(HTMLTextNode),
    ERBContentNode(ERBContentNode),
}

impl AnyNode {
    /// The diagnostics attached directly to this node, not to its descendants.
    pub open spec fn spec_own_errors(self) -> Seq<AnyError> {
        match self {
            AnyNode::DocumentNode(n) => n.errors@,
            AnyNode::HTMLElementNode(n) => n.errors@,
            AnyNode::HTMLOpenTagNode(n) => n.errors@,
            AnyNode::HTMLCloseTagNode(n) => n.errors@,
            AnyNode::HTMLAttributeNode(n) => n.errors@,
            AnyNode::HTMLAttributeNameNode(n) => n.errors@,
            AnyNode::HTMLAttributeValueNode(n) => n.errors@,
            AnyNode::HTMLTextNode(n) => n.errors@,
            AnyNode::ERBContentNode(n) => n.errors@,
        }
    }

    /// This node's child nodes, in the fixed field order of its variant.
    pub open spec fn spec_children(self) -> Seq<AnyNode> {
        match self {
            AnyNode::DocumentNode(n) => n.children@,
            AnyNode::HTMLElementNode(n) => seq![*n.open_tag] + n.body@ + opt_node_seq(
                n.close_tag,
            ),
            AnyNode::HTMLOpenTagNode(n) => n.attributes@,
            AnyNode::HTMLCloseTagNode(_) => Seq::empty(),
            AnyNode::HTMLAttributeNode(n) => seq![*n.name] + opt_node_seq(n.value),
            AnyNode::HTMLAttributeNameNode(_) => Seq::empty(),
            AnyNode::HTMLAttributeValueNode(_) => Seq::empty(),
            AnyNode::HTMLTextNode(_) => Seq::empty(),
            AnyNode::ERBContentNode(_) => Seq::empty(),
        }
    }

    /// The recursive error aggregation: one pre-order walk collecting this
    /// node's own diagnostics, then each child subtree's, in child order.
    pub open spec fn spec_recursive_errors(self) -> Seq<AnyError>
        decreases self,
    {
        match self {
            AnyNode::DocumentNode(n) => n.errors@ + seq_recursive_errors(n.children@),
            AnyNode::HTMLElementNode(n) => n.errors@ + (*n.open_tag).spec_recursive_errors()
                + seq_recursive_errors(n.body@) + opt_recursive_errors(n.close_tag),
            AnyNode::HTMLOpenTagNode(n) => n.errors@ + seq_recursive_errors(n.attributes@),
            AnyNode::HTMLCloseTagNode(n) => n.errors@,
            AnyNode::HTMLAttributeNode(n) => n.errors@ + (*n.name).spec_recursive_errors()
                + opt_recursive_errors(n.value),
            AnyNode::HTMLAttributeNameNode(n) => n.errors@,
            AnyNode::HTMLAttributeValueNode(n) => n.errors@,
            AnyNode::HTMLTextNode(n) => n.errors@,
            AnyNode::ERBContentNode(n) => n.errors@,
        }
    }
}

/// A nullable single-node field, seen as a sequence of zero or one nodes.
pub open spec fn opt_node_seq(o: Option<Box<AnyNode>>) -> Seq<AnyNode> {
    match o {
        Option::Some(n) => seq![*n],
        Option::None => Seq::empty(),
    }
}

/// The recursive errors of a nullable single-node field.
pub open spec fn opt_recursive_errors(o: Option<Box<AnyNode>>) -> Seq<AnyError>
    decreases o,
{
    match o {
        Option::Some(n) => (*n).spec_recursive_errors(),
        Option::None => Seq::empty(),
    }
}

/// The recursive errors of a node list, concatenated first to last.
pub open spec fn seq_recursive_errors(s: Seq<AnyNode>) -> Seq<AnyError>
    decreases s,
{
    if s.len() == 0 {
        Seq::empty()
    } else {
        seq_recursive_errors(s.drop_last()) + s.last().spec_recursive_errors()
    }
}

/// Appends a copy of every diagnostic in `src` to `dst`, in order.
pub(crate) fn extend_errors(dst: &mut Vec<AnyError>, src: &Vec<AnyError>)
    ensures
        final(dst)@ == old(dst)@ + src@,
{
    let ghost prefix = dst@;
    let mut i: usize = 0;
    while i < src.len()
        invariant
            i <= src.len(),
            dst@ == prefix + src@.subrange(0, i as int),
        decreases src.len() - i,
    {
        dst.push(src[i].clone());
        proof {
            assert(src@.subrange(0, i + 1 as int) =~= src@.subrange(0, i as int) + seq![
                src@[i as int],
            ]);
            assert(prefix + src@.subrange(0, i + 1 as int) =~= (prefix + src@.subrange(
                0,
                i as int,
            )) + seq![src@[i as int]]);
        }
        i = i + 1;
    }
    proof {
        assert(src@.subrange(0, src@.len() as int) =~= src@);
    }
}

/// Appends the recursive errors of `node`'s subtree to `out`, pre-order.
fn collect_node_errors(node: &AnyNode, out: &mut Vec<AnyError>)
    ensures
        final(out)@ == old(out)@ + node.spec_recursive_errors(),
    decreases node,
{
    let ghost prefix = out@;
    match node {
        AnyNode::DocumentNode(n) => {
            extend_errors(out, &n.errors);
            collect_list_errors(&n.children, out);
            proof {
                assert(out@ =~= prefix + node.spec_recursive_errors());
            }
        },
        AnyNode::HTMLElementNode(n) => {
            extend_errors(out, &n.errors);
            collect_node_errors(&n.open_tag, out);
            collect_list_errors(&n.body, out);
            proof {
                assert(out@ =~= prefix + n.errors@ + (*n.open_tag).spec_recursive_errors()
                    + seq_recursive_errors(n.body@));
            }
            match &n.close_tag {
                Option::Some(c) => {
                    collect_node_errors(c, out);
                    proof {
                        assert(opt_recursive_errors(n.close_tag) == (**c).spec_recursive_errors());
                        assert(out@ =~= prefix + node.spec_recursive_errors());
                    }
                },
                Option::None => {
                    proof {
                        assert(opt_recursive_errors(n.close_tag) =~= Seq::<AnyError>::empty());
                        assert(out@ =~= prefix + node.spec_recursive_errors());
                    }
                },
            }
        },
        AnyNode::HTMLOpenTagNode(n) => {
            extend_errors(out, &n.errors);
            collect_list_errors(&n.attributes, out);
            proof {
                assert(out@ =~= prefix + node.spec_recursive_errors());
            }
        },
        AnyNode::HTMLCloseTagNode(n) => {
            extend_errors(out, &n.errors);
        },
        AnyNode::HTMLAttributeNode(n) => {
            extend_errors(out, &n.errors);
            collect_node_errors(&n.name, out);
            match &n.value {
                Option::Some(v) => {
                    collect_node_errors(v, out);
                    proof {
                        assert(opt_recursive_errors(n.value) == (**v).spec_recursive_errors());
                        assert(out@ =~= prefix + node.spec_recursive_errors());
                    }
                },
                Option::None => {
                    proof {
                        assert(opt_recursive_errors(n.value) =~= Seq::<AnyError>::empty());
                        assert(out@ =~= prefix + node.spec_recursive_errors());
                    }
                },
            }
        },
        AnyNode::HTMLAttributeNameNode(n) => {
            extend_errors(out, &n.errors);
        },
        AnyNode::HTMLAttributeValueNode(n) => {
            extend_errors(out, &n.errors);
        },
        AnyNode::HTMLTextNode(n) => {
            extend_errors(out, &n.errors);
        },
        AnyNode::ERBContentNode(n) => {
            extend_errors(out, &n.errors);
        },
    }
}

/// Appends the recursive errors of every node in `nodes` to `out`, in order.
fn collect_list_errors(nodes: &Vec<AnyNode>, out: &mut Vec<AnyError>)
    ensures
        final(out)@ == old(out)@ + seq_recursive_errors(nodes@),
    decreases nodes,
{
    let ghost prefix = out@;
    let mut i: usize = 0;
    while i < nodes.len()
        invariant
            i <= nodes.len(),
            out@ == prefix + seq_recursive_errors(nodes@.subrange(0, i as int)),
        decreases nodes.len() - i,
    {
        collect_node_errors(&nodes[i], out);
        proof {
            let sub = nodes@.subrange(0, i + 1 as int);
            assert(sub.drop_last() =~= nodes@.subrange(0, i as int));
            assert(sub.last() == nodes@[i as int]);
            assert(out@ =~= prefix + seq_recursive_errors(sub));
        }
        i = i + 1;
    }
    proof {
        assert(nodes@.subrange(0, nodes@.len() as int) =~= nodes@);
    }
}

impl AnyNode {
    /// The diagnostics of this whole subtree, collected by one pre-order walk:
    /// this node's own diagnostics first, then each child subtree's, in child
    /// order. The result is an exact function of the tree, so repeated calls
    /// return the same sequence.
    pub fn recursive_errors(&self) -> (v: Vec<AnyError>)
        ensures
            v@ == self.spec_recursive_errors(),
    {
        let mut out: Vec<AnyError> = Vec::new();
        collect_node_errors(self, &mut out);
        proof {
            assert(out@ =~= self.spec_recursive_errors());
        }
        out
    }
}

/// Law: aggregating over a concatenation of node lists is aggregating over
/// each list in turn.
pub proof fn lemma_seq_recursive_errors_concat(a: Seq<AnyNode>, b: Seq<AnyNode>)
    ensures
        seq_recursive_errors(a + b) == seq_recursive_errors(a) + seq_recursive_errors(b),
    decreases b.len(),
{
    if b.len() == 0 {
        assert(a + b =~= a);
        assert(seq_recursive_errors(a) + seq_recursive_errors(b) =~= seq_recursive_errors(a));
    } else {
        assert((a + b).drop_last() =~= a + b.drop_last());
        assert((a + b).last() == b.last());
        lemma_seq_recursive_errors_concat(a, b.drop_last());
        assert(seq_recursive_errors(a + b) =~= seq_recursive_errors(a) + seq_recursive_errors(b));
    }
}

/// Law: a one-node list aggregates to that node's recursive errors.
pub proof fn lemma_seq_recursive_errors_singleton(x: AnyNode)
    ensures
        seq_recursive_errors(seq![x]) == x.spec_recursive_errors(),
{
    reveal_with_fuel(seq_recursive_errors, 2);
    assert(seq![x].drop_last() =~= Seq::<AnyNode>::empty());
    assert(seq![x].last() == x);
    assert(seq_recursive_errors(seq![x]) =~= x.spec_recursive_errors());
}

/// Law: a nullable single-node field aggregates the same whether seen as a
/// field or as a list of zero or one nodes.
pub proof fn lemma_opt_recursive_errors(o: Option<Box<AnyNode>>)
    ensures
        seq_recursive_errors(opt_node_seq(o)) == opt_recursive_errors(o),
{
    match o {
        Option::Some(n) => {
            lemma_seq_recursive_errors_singleton(*n);
        },
        Option::None => {
            assert(seq_recursive_errors(opt_node_seq(o)) =~= opt_recursive_errors(o));
        },
    }
}

/// Law: the recursive error aggregation is a pre-order walk. For every node,
/// the collected sequence is exactly the node's own diagnostics followed by
/// each child subtree's diagnostics, children taken left to right in the fixed
/// field order of the variant. Being a function of the tree alone, the
/// ordering is the same on every walk of the same tree.
pub proof fn lemma_recursive_errors_preorder(node: AnyNode)
    ensures
        node.spec_recursive_errors() == node.spec_own_errors() + seq_recursive_errors(
            node.spec_children(),
        ),
{
    match node {
        AnyNode::HTMLElementNode(n) => {
            lemma_seq_recursive_errors_concat(seq![*n.open_tag] + n.body@, opt_node_seq(
                n.close_tag,
            ));
            lemma_seq_recursive_errors_concat(seq![*n.open_tag], n.body@);
            lemma_seq_recursive_errors_singleton(*n.open_tag);
            lemma_opt_recursive_errors(n.close_tag);
            assert(node.spec_recursive_errors() =~= node.spec_own_errors() + seq_recursive_errors(
                node.spec_children(),
            ));
        },
        AnyNode::HTMLAttributeNode(n) => {
            lemma_seq_recursive_errors_concat(seq![*n.name], opt_node_seq(n.value));
            lemma_seq_recursive_errors_singleton(*n.name);
            lemma_opt_recursive_errors(n.value);
            assert(node.spec_recursive_errors() =~= node.spec_own_errors() + seq_recursive_errors(
                node.spec_children(),
            ));
        },
        _ => {
            assert(node.spec_recursive_errors() =~= node.spec_own_errors() + seq_recursive_errors(
                node.spec_children(),
            ));
        },
    }
}

/// One more indent level, capped so the arithmetic can never overflow; the
/// cap is far beyond any real tree's depth.
fn deeper(depth: usize) -> (r: usize)
    ensures
        r >= depth,
{
    if depth < 100000 {
        depth + 1
    } else {
        depth
    }
}

/// Appends two spaces per indent level.
fn push_indent(out: &mut String, depth: usize)
    ensures
        final(out)@.len() >= old(out)@.len(),
{
    let mut d = depth;
    while d > 0
        invariant
            out@.len() >= old(out)@.len(),
        decreases d,
    {
        out.append("  ");
        d = d - 1;
    }
}

/// Appends `(n item)` or `(n items)`.
fn push_count_label(out: &mut String, n: usize)
    ensures
        final(out)@.len() >= old(out)@.len(),
{
    out.append("(");
    let count = decimal_string(n as u64);
    out.append(count.as_str());
    if n == 1 {
        out.append(" item)");
    } else {
        out.append(" items)");
    }
}

/// Appends one `label: "value"` line, the value escaped.
fn push_scalar_field(out: &mut String, depth: usize, label: &str, value: &str)
    ensures
        final(out)@.len() >= old(out)@.len(),
{
    push_indent(out, depth);
    out.append(label);
    out.append(": \"");
    let escaped = escape_str(value);
    out.append(escaped.as_str());
    out.append("\"\n");
}

/// Appends the lines every node starts with: its `@ Label (location: ...)`
/// line and, when it carries diagnostics of its own, one line per diagnostic
/// with its message beneath it. A node without diagnostics prints no error
/// lines at all.
fn render_head(
    out: &mut String,
    depth: usize,
    node_type: &String,
    location: &Location,
    errors: &Vec<AnyError>,
)
    ensures
        final(out)@.len() > old(out)@.len(),
{
    push_indent(out, depth);
    out.append("@ ");
    out.append(node_type.as_str());
    out.append(" (location: ");
    let loc = location.inspect();
    out.append(loc.as_str());
    out.append(")\n");
    proof {
        reveal_strlit("@ ");
        assert(out@.len() > old(out)@.len());
    }
    if errors.len() > 0 {
        let field_depth = deeper(depth);
        push_indent(out, field_depth);
        out.append("errors: ");
        push_count_label(out, errors.len());
        out.append("\n");
        let item_depth = deeper(field_depth);
        let mut i: usize = 0;
        while i < errors.len()
            invariant
                out@.len() > old(out)@.len(),
            decreases errors@.len() - i,
        {
            push_indent(out, item_depth);
            let line = errors[i].inspect();
            out.append(line.as_str());
            out.append("\n");
            push_indent(out, deeper(item_depth));
            out.append(errors[i].message.as_str());
            out.append("\n");
            i = i + 1;
        }
    }
}

/// Appends the tree rendering of one node at the given indent level.
fn render_node(node: &AnyNode, depth: usize, out: &mut String)
    ensures
        final(out)@.len() > old(out)@.len(),
    decreases node,
{
    let field_depth = deeper(depth);
    let child_depth = deeper(field_depth);
    match node {
        AnyNode::DocumentNode(n) => {
            render_document(n, depth, out);
        },
        AnyNode::HTMLElementNode(n) => {
            render_head(out, depth, &n.node_type, &n.location, &n.errors);
            push_indent(out, field_depth);
            out.append("open_tag:\n");
            render_node(&n.open_tag, child_depth, out);
            push_indent(out, field_depth);
            out.append("body: ");
            push_count_label(out, n.body.len());
            out.append("\n");
            render_list(&n.body, child_depth, out);
            match &n.close_tag {
                Option::Some(c) => {
                    push_indent(out, field_depth);
                    out.append("close_tag:\n");
                    render_node(c, child_depth, out);
                },
                Option::None => (),
            }
        },
        AnyNode::HTMLOpenTagNode(n) => {
            render_head(out, depth, &n.node_type, &n.location, &n.errors);
            push_scalar_field(out, field_depth, "tag_opening", n.tag_opening.as_str());
            push_scalar_field(out, field_depth, "tag_name", n.tag_name.as_str());
            if n.attributes.len() > 0 {
                push_indent(out, field_depth);
                out.append("attributes: ");
                push_count_label(out, n.attributes.len());
                out.append("\n");
                render_list(&n.attributes, child_depth, out);
            }
            push_scalar_field(out, field_depth, "tag_closing", n.tag_closing.as_str());
        },
        AnyNode::HTMLCloseTagNode(n) => {
            render_head(out, depth, &n.node_type, &n.location, &n.errors);
            push_scalar_field(out, field_depth, "tag_opening", n.tag_opening.as_str());
            push_scalar_field(out, field_depth, "tag_name", n.tag_name.as_str());
            push_scalar_field(out, field_depth, "tag_closing", n.tag_closing.as_str());
        },
        AnyNode::HTMLAttributeNode(n) => {
            render_head(out, depth, &n.node_type, &n.location, &n.errors);
            push_indent(out, field_depth);
            out.append("name:\n");
            render_node(&n.name, child_depth, out);
            match &n.value {
                Option::Some(v) => {
                    push_indent(out, field_depth);
                    out.append("value:\n");
                    render_node(v, child_depth, out);
                },
                Option::None => (),
            }
        },
        AnyNode::HTMLAttributeNameNode(n) => {
            render_head(out, depth, &n.node_type, &n.location, &n.errors);
            push_scalar_field(out, field_depth, "name", n.name.as_str());
        },
        AnyNode::HTMLAttributeValueNode(n) => {
            render_head(out, depth, &n.node_type, &n.location, &n.errors);
            push_scalar_field(out, field_depth, "open_quote", n.open_quote.as_str());
            push_scalar_field(out, field_depth, "value", n.value.as_str());
            push_scalar_field(out, field_depth, "close_quote", n.close_quote.as_str());
        },
        AnyNode::HTMLTextNode(n) => {
            render_head(out, depth, &n.node_type, &n.location, &n.errors);
            push_scalar_field(out, field_depth, "content", n.content.as_str());
        },
        AnyNode::ERBContentNode(n) => {
            render_head(out, depth, &n.node_type, &n.location, &n.errors);
            push_scalar_field(out, field_depth, "tag_opening", n.tag_opening.as_str());
            push_scalar_field(out, field_depth, "content", n.content.as_str());
            push_scalar_field(out, field_depth, "tag_closing", n.tag_closing.as_str());
        },
    }
}

/// Appends the rendering of each node in the list, in order.
fn render_list(nodes: &Vec<AnyNode>, depth: usize, out: &mut String)
    ensures
        final(out)@.len() >= old(out)@.len(),
    decreases nodes,
{
    let mut i: usize = 0;
    while i < nodes.len()
        invariant
            out@.len() >= old(out)@.len(),
        decreases nodes@.len() - i,
    {
        render_node(&nodes[i], depth, out);
        i = i + 1;
    }
}

/// Appends the rendering of a document node: its head, then its children
/// under a `children:` header.
fn render_document(d: &DocumentNode, depth: usize, out: &mut String)
    ensures
        final(out)@.len() > old(out)@.len(),
    decreases d,
{
    render_head(out, depth, &d.node_type, &d.location, &d.errors);
    let field_depth = deeper(depth);
    push_indent(out, field_depth);
    out.append("children: ");
    push_count_label(out, d.children.len());
    out.append("\n");
    render_list(&d.children, deeper(field_depth), out);
}

impl AnyNode {
    /// Renders this subtree as an indented tree, one `@ Label` line per node
    /// with its fields and diagnostics beneath it.
    pub fn tree_inspect(&self) -> (s: String)
        ensures
            s@.len() > 0,
    {
        let mut out = String::new();
        render_node(self, 0, &mut out);
        out
    }
}

impl DocumentNode {
    /// The document's recursive errors: its own, then each child subtree's.
    pub open spec fn spec_recursive_errors(self) -> Seq<AnyError> {
        self.errors@ + seq_recursive_errors(self.children@)
    }

    pub fn recursive_errors(&self) -> (v: Vec<AnyError>)
        ensures
            v@ == self.spec_recursive_errors(),
    {
        let mut out: Vec<AnyError> = Vec::new();
        extend_errors(&mut out, &self.errors);
        collect_list_errors(&self.children, &mut out);
        proof {
            assert(out@ =~= self.spec_recursive_errors());
        }
        out
    }

    /// Renders the whole document as an indented tree.
    pub fn tree_inspect(&self) -> (s: String)
        ensures
            s@.len() > 0,
    {
        let mut out = String::new();
        render_document(self, 0, &mut out);
        out
    }
}

} // verus!
