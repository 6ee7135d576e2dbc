//! Joining two expressions with a separator, and putting one expression in
//! the place of another. Both work on a sequence of operands and operator
//! tokens that reads as one expression, and both return such a sequence,
//! to be rendered as text.

use crate::builder::{build, built, lemma_built_tree_is_well_formed, list_outcome_view};
use crate::filter::{separator_of, FilterSpec, FilterSpecView, InvalidInput, Joiner};
use crate::node::{
    operator_token, trees_of, well_formed_sequence, BoolSeparator, ExpressionTree, Node,
};
use vstd::prelude::*;

verus! {

/// `existing` with `additional` joined on by `separator`. An empty
/// expression joined with another is that other alone.
pub open spec fn joined(
    separator: BoolSeparator,
    existing: Seq<ExpressionTree>,
    additional: ExpressionTree,
) -> Seq<ExpressionTree> {
    if existing.len() == 0 {
        seq![additional]
    } else {
        existing.push(operator_token(separator)).push(additional)
    }
}

/// Joins `additional` on to `existing`: after what is there, the token for
/// `separator` and then `additional`. Nothing that is there is changed,
/// reordered or dropped.
pub fn concatenate_searches(
    separator: BoolSeparator,
    existing: Vec<Node>,
    additional: Node,
) -> (r: Vec<Node>)
    ensures
        trees_of(r@) == joined(separator, trees_of(existing@), additional@),
{
    let mut nodes = existing;
    if nodes.len() > 0 {
        let token = match separator {
            BoolSeparator::And => Node::And,
            BoolSeparator::Or => Node::Or,
        };
        nodes.push(token);
    }
    nodes.push(additional);
    assert(trees_of(nodes@) =~= joined(separator, trees_of(existing@), additional@));
    nodes
}

/// `existing` with `replacement` at every place where `target` stood, and
/// every other place as it was.
pub open spec fn replaced(
    existing: Seq<ExpressionTree>,
    target: ExpressionTree,
    replacement: ExpressionTree,
) -> Seq<ExpressionTree> {
    Seq::new(
        existing.len(),
        |i: int|
            if existing[i] == target {
                replacement
            } else {
                existing[i]
            },
    )
}

/// Puts `replacement` in the place of every node of `existing` that stands
/// for the same tree as `target`. The places keep their order, and what
/// stands at the others, operator tokens included, stays. Only the nodes of
/// the sequence itself are compared, not what is nested in them.
pub fn replace_nodes(existing: &Vec<Node>, target: &Node, replacement: &Node) -> (r: Vec<Node>)
    ensures
        trees_of(r@) == replaced(trees_of(existing@), target@, replacement@),
{
    let mut nodes: Vec<Node> = Vec::new();
    let mut i: usize = 0;
    while i < existing.len()
        invariant
            i <= existing.len(),
            nodes@.len() == i,
            forall|j: int|
                0 <= j < i ==> (#[trigger] nodes@[j])@ == replaced(
                    trees_of(existing@),
                    target@,
                    replacement@,
                )[j],
        decreases existing.len() - i,
    {
        let node = if existing[i].same_as(target) {
            replacement.clone()
        } else {
            existing[i].clone()
        };
        nodes.push(node);
        i += 1;
    }
    assert(trees_of(nodes@) =~= replaced(trees_of(existing@), target@, replacement@));
    nodes
}

/// Where `target` stands nowhere in `existing`, replacing it changes
/// nothing.
pub proof fn lemma_replace_without_match_is_identity(
    existing: Seq<ExpressionTree>,
    target: ExpressionTree,
    replacement: ExpressionTree,
)
    requires
        !existing.contains(target),
    ensures
        replaced(existing, target, replacement) == existing,
{
    assert(replaced(existing, target, replacement) =~= existing);
}

/// Replacing keeps the length; afterwards `target` stands nowhere, unless
/// it is the replacement itself.
pub proof fn lemma_replace_removes_target(
    existing: Seq<ExpressionTree>,
    target: ExpressionTree,
    replacement: ExpressionTree,
)
    ensures
        replaced(existing, target, replacement).len() == existing.len(),
        replacement != target ==> !replaced(existing, target, replacement).contains(target),
{
}

/// A well-formed operand joined on to an expression, or on to nothing,
/// gives an expression again.
pub proof fn lemma_join_keeps_well_formed(
    separator: BoolSeparator,
    existing: Seq<ExpressionTree>,
    additional: ExpressionTree,
)
    requires
        existing.len() == 0 || well_formed_sequence(existing),
        additional.well_formed(),
    ensures
        well_formed_sequence(joined(separator, existing, additional)),
{
    let all = joined(separator, existing, additional);
    assert forall|i: int| 0 <= i < all.len() implies if i % 2 == 0 {
        (#[trigger] all[i]).well_formed()
    } else {
        all[i] is OperatorToken
    } by {
        if i < existing.len() {
            assert(all[i] == existing[i]);
        }
    }
}

/// Putting a well-formed operand in the place of an operand keeps an
/// expression an expression.
pub proof fn lemma_replace_keeps_well_formed(
    existing: Seq<ExpressionTree>,
    target: ExpressionTree,
    replacement: ExpressionTree,
)
    requires
        well_formed_sequence(existing),
        target.is_operand(),
        replacement.well_formed(),
    ensures
        well_formed_sequence(replaced(existing, target, replacement)),
{
    let all = replaced(existing, target, replacement);
    assert forall|i: int| 0 <= i < all.len() implies if i % 2 == 0 {
        (#[trigger] all[i]).well_formed()
    } else {
        all[i] is OperatorToken
    } by {
        assert(if i % 2 == 0 {
            existing[i].well_formed()
        } else {
            existing[i] is OperatorToken
        });
    }
}

/// Joining one operand after another keeps each join where it was made: the
/// second separator does not touch the first.
pub proof fn lemma_join_twice(
    first: BoolSeparator,
    second: BoolSeparator,
    a: ExpressionTree,
    b: ExpressionTree,
    c: ExpressionTree,
)
    ensures
        joined(second, joined(first, seq![a], b), c) == seq![
            a,
            operator_token(first),
            b,
            operator_token(second),
            c,
        ],
{
    assert(joined(second, joined(first, seq![a], b), c) =~= seq![
        a,
        operator_token(first),
        b,
        operator_token(second),
        c,
    ]);
}

/// The sequence to render for a filter specification: the node list of the
/// tree it builds to.
pub open spec fn search_nodes(spec: FilterSpecView) -> Result<Seq<ExpressionTree>, Seq<char>> {
    match built(spec) {
        Ok(tree) => Ok(tree.node_list()),
        Err(reason) => Err(reason),
    }
}

/// Builds a filter specification and lays the tree out as the sequence to
/// render.
pub fn build_search_nodes(spec: &FilterSpec) -> (r: Result<Vec<Node>, InvalidInput>)
    ensures
        list_outcome_view(r) == search_nodes(spec@),
{
    match build(spec) {
        Ok(node) => Ok(node.into_node_list()),
        Err(refused) => Err(refused),
    }
}

/// The sequence to render for two specifications joined: the node list of
/// the first with the second joined on. The first to be refused gives the
/// reason.
pub open spec fn joined_search_nodes(
    existing: FilterSpecView,
    joiner: Joiner,
    additional: FilterSpecView,
) -> Result<Seq<ExpressionTree>, Seq<char>> {
    match built(existing) {
        Err(reason) => Err(reason),
        Ok(tree) => match built(additional) {
            Err(reason) => Err(reason),
            Ok(operand) => Ok(joined(separator_of(joiner), tree.node_list(), operand)),
        },
    }
}

/// Builds both specifications and joins the second on to the first.
pub fn join_search_nodes(
    existing: &FilterSpec,
    joiner: Joiner,
    additional: &FilterSpec,
) -> (r: Result<Vec<Node>, InvalidInput>)
    ensures
        list_outcome_view(r) == joined_search_nodes(existing@, joiner, additional@),
{
    let separator = BoolSeparator::from(joiner);
    let existing_nodes = match build(existing) {
        Ok(node) => node.into_node_list(),
        Err(refused) => {
            return Err(refused);
        },
    };
    match build(additional) {
        Ok(operand) => Ok(concatenate_searches(separator, existing_nodes, operand)),
        Err(refused) => Err(refused),
    }
}

/// The sequence to render after a replacement: the node list of what
/// `existing` builds to, with what `replacement` builds to at every place
/// where what `target` builds to stood. The first of the three to be refused
/// gives the reason.
pub open spec fn replaced_search_nodes(
    existing: FilterSpecView,
    target: FilterSpecView,
    replacement: FilterSpecView,
) -> Result<Seq<ExpressionTree>, Seq<char>> {
    match built(existing) {
        Err(reason) => Err(reason),
        Ok(tree) => match built(target) {
            Err(reason) => Err(reason),
            Ok(old_operand) => match built(replacement) {
                Err(reason) => Err(reason),
                Ok(new_operand) => Ok(replaced(tree.node_list(), old_operand, new_operand)),
            },
        },
    }
}

/// Builds the three specifications and replaces the second by the third in
/// the first.
pub fn replace_search_node(
    existing: &FilterSpec,
    target: &FilterSpec,
    replacement: &FilterSpec,
) -> (r: Result<Vec<Node>, InvalidInput>)
    ensures
        list_outcome_view(r) == replaced_search_nodes(existing@, target@, replacement@),
{
    let existing_nodes = match build(existing) {
        Ok(node) => node.into_node_list(),
        Err(refused) => {
            return Err(refused);
        },
    };
    let old_operand = match build(target) {
        Ok(node) => node,
        Err(refused) => {
            return Err(refused);
        },
    };
    match build(replacement) {
        Ok(new_operand) => Ok(replace_nodes(&existing_nodes, &old_operand, &new_operand)),
        Err(refused) => Err(refused),
    }
}

/// The node list of a well-formed tree, read as parsed text, builds back to
/// the tree: a single operand comes back as it is, and the operands of a
/// group come back as that group.
pub proof fn lemma_node_list_builds_back(tree: ExpressionTree)
    requires
        tree.well_formed(),
    ensures
        built(FilterSpecView::ParsedText(Ok(tree.node_list()))) == Ok::<
            ExpressionTree,
            Seq<char>,
        >(tree),
{
    if !(tree is Group) {
        assert(tree.node_list().len() == 1);
        assert(tree.node_list()[0] == tree);
    }
}

/// Rendering and parsing, whatever they are, round-trip through the builder
/// as soon as they round-trip on sequences. Let `write` render a sequence
/// of nodes and `parse` read text. If what a specification builds to is
/// rendered, and parsing that text gives the rendered sequence back, then
/// building from the parsed text gives the tree that was rendered.
pub proof fn lemma_round_trip(
    spec: FilterSpecView,
    write: spec_fn(Seq<ExpressionTree>) -> Seq<char>,
    parse: spec_fn(Seq<char>) -> Result<Seq<ExpressionTree>, Seq<char>>,
)
    requires
        spec.parsed_texts_well_formed(),
        search_nodes(spec) matches Ok(nodes) && parse(write(nodes)) == Ok::<
            Seq<ExpressionTree>,
            Seq<char>,
        >(nodes),
    ensures
        built(FilterSpecView::ParsedText(parse(write(search_nodes(spec)->Ok_0)))) == built(spec),
{
    lemma_built_tree_is_well_formed(spec);
    lemma_node_list_builds_back(built(spec)->Ok_0);
}

} // verus!
