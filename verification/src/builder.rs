//! The builder: from a filter specification to its expression tree.

use crate::filter::{
    id_string, rating_kind_of, separator_of, spec_views, state_kind_of, FilterSpec,
    FilterSpecView, FlagFilter, InvalidInput, Joiner,
};
use crate::node::{
    clone_nodes, is_well_formed_sequence, operator_token, same_text, trees_of,
    well_formed_sequence, BoolSeparator, ExpressionTree, Node, Predicate, PropertyOperator,
    RatingKind, SearchNode, StateKind,
};
use crate::text::{
    decimal, escape_wildcards, escaped_wildcards, id_list_text,
    lemma_escaped_wildcards_match_literally, literal_text, push_decimal,
};
use vstd::prelude::*;
use vstd::string::StringExecFns;

verus! {

/// `items` with `separator` between each two of them.
pub open spec fn interspersed<T>(items: Seq<T>, separator: T) -> Seq<T> {
    Seq::new(
        if items.len() == 0 {
            0
        } else {
            (2 * items.len() - 1) as nat
        },
        |i: int|
            if i % 2 == 0 {
                items[i / 2]
            } else {
                separator
            },
    )
}

/// The reason given for a group without children.
pub open spec fn empty_group_reason() -> Seq<char> {
    "empty group"@
}

/// The one-character pattern `*`, which matches anything.
pub open spec fn any_pattern() -> Seq<char> {
    seq!['*']
}

/// The tree for a flag filter. "Any flag" is the negation of "no flag".
pub open spec fn flag_tree(flag: FlagFilter) -> ExpressionTree {
    match flag {
        FlagFilter::NoFlag => ExpressionTree::Leaf(Predicate::Flag(0)),
        FlagFilter::AnyFlag => ExpressionTree::Negation(
            Box::new(ExpressionTree::Leaf(Predicate::Flag(0))),
        ),
        FlagFilter::Red => ExpressionTree::Leaf(Predicate::Flag(1)),
        FlagFilter::Orange => ExpressionTree::Leaf(Predicate::Flag(2)),
        FlagFilter::Green => ExpressionTree::Leaf(Predicate::Flag(3)),
        FlagFilter::Blue => ExpressionTree::Leaf(Predicate::Flag(4)),
    }
}

/// The tree that a filter specification builds to, or the reason why it
/// builds to none.
///
/// Each plain filter becomes the leaf for its predicate, with the wildcards
/// of a pattern made literal; only the deck pattern `*` stays as it is. A
/// negation wraps what its child builds to. A group without children is
/// refused; a group of one child builds to what that child builds to; a
/// larger group builds to a group of its children's trees with the group's
/// joiner between each two. Parsed text that is one tree is that tree, and
/// any other parsed text is a group of exactly what was parsed. Where a
/// child, or the parser, gave a reason for refusing, that reason comes back.
pub open spec fn built(spec: FilterSpecView) -> Result<ExpressionTree, Seq<char>>
    decreases spec,
{
    match spec {
        FilterSpecView::Unset => Ok(ExpressionTree::Leaf(Predicate::WholeCollection)),
        FilterSpecView::Group { nodes, joiner } => {
            if nodes.len() == 0 {
                Err(empty_group_reason())
            } else if nodes.len() == 1 {
                built(nodes[0])
            } else {
                match built_all(nodes) {
                    Ok(trees) => Ok(
                        ExpressionTree::Group(
                            interspersed(trees, operator_token(separator_of(joiner))),
                        ),
                    ),
                    Err(reason) => Err(reason),
                }
            }
        },
        FilterSpecView::Negated(inner) => match built(*inner) {
            Ok(tree) => Ok(ExpressionTree::Negation(Box::new(tree))),
            Err(reason) => Err(reason),
        },
        FilterSpecView::ParsedText(Ok(trees)) => if trees.len() == 1 {
            Ok(trees[0])
        } else {
            Ok(ExpressionTree::Group(trees))
        },
        FilterSpecView::ParsedText(Err(reason)) => Err(reason),
        FilterSpecView::Template(ordinal) => Ok(
            ExpressionTree::Leaf(Predicate::CardTemplate((ordinal % 0x10000) as u16)),
        ),
        FilterSpecView::Nid(id) => Ok(ExpressionTree::Leaf(Predicate::NoteIDs(decimal(id as int)))),
        FilterSpecView::Dupe { notetype_id, first_field } => Ok(
            ExpressionTree::Leaf(
                Predicate::Duplicates { note_type_id: notetype_id, text: first_field },
            ),
        ),
        FilterSpecView::FieldName(name) => Ok(
            ExpressionTree::Leaf(
                Predicate::SingleField {
                    field: escaped_wildcards(name),
                    text: any_pattern(),
                    is_re: false,
                },
            ),
        ),
        FilterSpecView::Rated { days, rating } => Ok(
            ExpressionTree::Leaf(Predicate::Rated { days, ease: rating_kind_of(rating) }),
        ),
        FilterSpecView::AddedInDays(days) => Ok(ExpressionTree::Leaf(Predicate::AddedInDays(days))),
        FilterSpecView::DueInDays(days) => Ok(
            ExpressionTree::Leaf(
                Predicate::Due { operator: PropertyOperator::LessOrEqual, offset: days },
            ),
        ),
        FilterSpecView::Flag(flag) => Ok(flag_tree(flag)),
        FilterSpecView::CardState(state) => Ok(
            ExpressionTree::Leaf(Predicate::State(state_kind_of(state))),
        ),
        FilterSpecView::Nids(ids) => Ok(
            ExpressionTree::Leaf(Predicate::NoteIDs(id_list_text(ids))),
        ),
        FilterSpecView::EditedInDays(days) => Ok(
            ExpressionTree::Leaf(Predicate::EditedInDays(days)),
        ),
        FilterSpecView::Deck(pattern) => Ok(
            ExpressionTree::Leaf(
                Predicate::Deck(
                    if pattern == any_pattern() {
                        pattern
                    } else {
                        escaped_wildcards(pattern)
                    },
                ),
            ),
        ),
        FilterSpecView::DueOnDay(day) => Ok(
            ExpressionTree::Leaf(Predicate::Due { operator: PropertyOperator::Equal, offset: day }),
        ),
        FilterSpecView::Tag(pattern) => Ok(
            ExpressionTree::Leaf(Predicate::Tag(escaped_wildcards(pattern))),
        ),
        FilterSpecView::Note(pattern) => Ok(
            ExpressionTree::Leaf(Predicate::NoteType(escaped_wildcards(pattern))),
        ),
    }
}

/// What each of `specs` builds to, in order; or, where one of them is
/// refused, the reason given for the first that is.
pub open spec fn built_all(specs: Seq<FilterSpecView>) -> Result<Seq<ExpressionTree>, Seq<char>>
    decreases specs,
{
    if specs.len() == 0 {
        Ok(Seq::empty())
    } else {
        match built_all(specs.drop_last()) {
            Err(reason) => Err(reason),
            Ok(trees) => match built(specs.last()) {
                Err(reason) => Err(reason),
                Ok(tree) => Ok(trees.push(tree)),
            },
        }
    }
}

impl FilterSpecView {
    /// Whether each parsed text in the specification reads as one
    /// expression (see [`well_formed_sequence`]).
    pub open spec fn parsed_texts_well_formed(self) -> bool
        decreases self,
    {
        match self {
            FilterSpecView::Group { nodes, joiner } => all_parsed_texts_well_formed(nodes),
            FilterSpecView::Negated(inner) => inner.parsed_texts_well_formed(),
            FilterSpecView::ParsedText(Ok(trees)) => well_formed_sequence(trees),
            _ => true,
        }
    }
}

/// Whether each parsed text in each of the specifications reads as one
/// expression.
pub open spec fn all_parsed_texts_well_formed(specs: Seq<FilterSpecView>) -> bool
    decreases specs,
{
    forall|i: int| 0 <= i < specs.len() ==> (#[trigger] specs[i]).parsed_texts_well_formed()
}

/// What the outcome of a build says.
pub open spec fn outcome_view(outcome: Result<Node, InvalidInput>) -> Result<
    ExpressionTree,
    Seq<char>,
> {
    match outcome {
        Ok(node) => Ok(node@),
        Err(refusal) => Err(refusal.reason@),
    }
}

/// What the outcome of building a sequence says.
pub open spec fn list_outcome_view(outcome: Result<Vec<Node>, InvalidInput>) -> Result<
    Seq<ExpressionTree>,
    Seq<char>,
> {
    match outcome {
        Ok(nodes) => Ok(trees_of(nodes@)),
        Err(refusal) => Err(refusal.reason@),
    }
}

/// Puts `joiner` between each two of `nodes`, by
/// `itertools::Itertools::intersperse`. Trusted: the adaptor yields the
/// items of the iterator in their order and, between each two of them, one
/// clone of the element it was given; nothing before the first item and
/// nothing after the last.
#[verifier::external_body]
fn intersperse(nodes: Vec<Node>, joiner: Node) -> (r: Vec<Node>)
    ensures
        trees_of(r@) == interspersed(trees_of(nodes@), joiner@),
{
    itertools::Itertools::intersperse(nodes.into_iter(), joiner).collect()
}

fn refusal(reason: String) -> (r: Result<Node, InvalidInput>)
    ensures
        outcome_view(r) == Err::<ExpressionTree, Seq<char>>(reason@),
{
    Err(InvalidInput { reason })
}

fn leaf(predicate: SearchNode) -> (r: Result<Node, InvalidInput>)
    ensures
        outcome_view(r) == Ok::<ExpressionTree, Seq<char>>(ExpressionTree::Leaf(predicate@)),
{
    Ok(Node::Search(predicate))
}

/// Builds the expression tree for a filter specification.
///
/// The result is the tree that [`built`] gives for the specification, or a
/// refusal with the reason that it gives. A specification is refused
/// exactly where it holds, at any depth, a group without children or a text
/// that the parser refused. A tree that comes back is well formed, as far as
/// the parser's own output was.
pub fn build(spec: &FilterSpec) -> (r: Result<Node, InvalidInput>)
    ensures
        outcome_view(r) == built(spec@),
        r is Err <==> spec@.holds_refusal(),
        spec@.parsed_texts_well_formed() ==> (r matches Ok(node) ==> node@.well_formed()),
    decreases spec,
{
    proof {
        lemma_refused_exactly_where_refusal_is_held(spec@);
        if spec@.parsed_texts_well_formed() {
            lemma_built_tree_is_well_formed(spec@);
        }
    }
    match spec {
        FilterSpec::Unset => leaf(SearchNode::WholeCollection),
        FilterSpec::Group { nodes, joiner } => {
            if nodes.len() == 0 {
                refusal(String::from_str("empty group"))
            } else if nodes.len() == 1 {
                build(&nodes[0])
            } else {
                let trees = match build_all(nodes) {
                    Ok(trees) => trees,
                    Err(refused) => {
                        return Err(refused);
                    },
                };
                let token = match joiner {
                    Joiner::And => Node::And,
                    Joiner::Or => Node::Or,
                };
                Ok(Node::Group(intersperse(trees, token)))
            }
        },
        FilterSpec::Negated(inner) => match build(&**inner) {
            Ok(tree) => Ok(tree.negated()),
            Err(refused) => Err(refused),
        },
        FilterSpec::ParsedText(Ok(nodes)) => {
            if nodes.len() == 1 {
                Ok(nodes[0].clone())
            } else {
                Ok(Node::Group(clone_nodes(nodes)))
            }
        },
        FilterSpec::ParsedText(Err(reason)) => refusal(reason.clone()),
        FilterSpec::Template(ordinal) => leaf(
            SearchNode::CardTemplate((*ordinal % 0x10000) as u16),
        ),
        FilterSpec::Nid(id) => {
            let mut text = String::new();
            push_decimal(&mut text, *id);
            leaf(SearchNode::NoteIDs(text))
        },
        FilterSpec::Dupe { notetype_id, first_field } => leaf(
            SearchNode::Duplicates { note_type_id: *notetype_id, text: first_field.clone() },
        ),
        FilterSpec::FieldName(name) => {
            proof {
                reveal_strlit("*");
                assert("*"@ =~= any_pattern());
            }
            leaf(
                SearchNode::SingleField {
                    field: escape_wildcards(name.as_str()),
                    text: String::from_str("*"),
                    is_re: false,
                },
            )
        },
        FilterSpec::Rated { days, rating } => leaf(
            SearchNode::Rated { days: *days, ease: RatingKind::from(*rating) },
        ),
        FilterSpec::AddedInDays(days) => leaf(SearchNode::AddedInDays(*days)),
        FilterSpec::DueInDays(days) => leaf(
            SearchNode::Due { operator: PropertyOperator::LessOrEqual, offset: *days },
        ),
        FilterSpec::Flag(flag) => match flag {
            FlagFilter::NoFlag => leaf(SearchNode::Flag(0)),
            FlagFilter::AnyFlag => Ok(Node::Search(SearchNode::Flag(0)).negated()),
            FlagFilter::Red => leaf(SearchNode::Flag(1)),
            FlagFilter::Orange => leaf(SearchNode::Flag(2)),
            FlagFilter::Green => leaf(SearchNode::Flag(3)),
            FlagFilter::Blue => leaf(SearchNode::Flag(4)),
        },
        FilterSpec::CardState(state) => leaf(SearchNode::State(StateKind::from(*state))),
        FilterSpec::Nids(list) => leaf(SearchNode::NoteIDs(id_string(&list.ids))),
        FilterSpec::EditedInDays(days) => leaf(SearchNode::EditedInDays(*days)),
        FilterSpec::Deck(pattern) => {
            proof {
                reveal_strlit("*");
                assert("*"@ =~= any_pattern());
            }
            if same_text(pattern, &String::from_str("*")) {
                leaf(SearchNode::Deck(pattern.clone()))
            } else {
                leaf(SearchNode::Deck(escape_wildcards(pattern.as_str())))
            }
        },
        FilterSpec::DueOnDay(day) => leaf(
            SearchNode::Due { operator: PropertyOperator::Equal, offset: *day },
        ),
        FilterSpec::Tag(pattern) => leaf(SearchNode::Tag(escape_wildcards(pattern.as_str()))),
        FilterSpec::Note(pattern) => leaf(
            SearchNode::NoteType(escape_wildcards(pattern.as_str())),
        ),
    }
}

/// Builds the tree for each of `specs`, in order, and stops at the first that
/// is refused.
pub fn build_all(specs: &Vec<FilterSpec>) -> (r: Result<Vec<Node>, InvalidInput>)
    ensures
        list_outcome_view(r) == built_all(spec_views(specs@)),
    decreases specs,
{
    let ghost views = spec_views(specs@);
    let mut trees: Vec<Node> = Vec::new();
    let mut i: usize = 0;
    proof {
        assert(views.take(0) =~= Seq::empty());
        assert(trees_of(trees@) =~= Seq::empty());
    }
    while i < specs.len()
        invariant
            i <= specs.len(),
            views == spec_views(specs@),
            built_all(views.take(i as int)) == Ok::<Seq<ExpressionTree>, Seq<char>>(
                trees_of(trees@),
            ),
        decreases specs.len() - i,
    {
        proof {
            assert(views.take(i + 1).drop_last() =~= views.take(i as int));
            assert(views.take(i + 1).last() == specs@[i as int]@);
        }
        match build(&specs[i]) {
            Ok(tree) => {
                proof {
                    assert(trees_of(trees@.push(tree)) =~= trees_of(trees@).push(tree@));
                }
                trees.push(tree);
            },
            Err(refused) => {
                proof {
                    assert(built_all(views.take(i + 1)) == Err::<Seq<ExpressionTree>, Seq<char>>(
                        refused.reason@,
                    ));
                    lemma_refusal_persists(views, i + 1);
                }
                return Err(refused);
            },
        }
        i += 1;
    }
    proof {
        assert(views.take(specs.len() as int) =~= views);
    }
    Ok(trees)
}

/// Once one of the first `n` specifications is refused, the whole sequence
/// is refused for the same reason.
pub proof fn lemma_refusal_persists(specs: Seq<FilterSpecView>, n: int)
    requires
        0 <= n <= specs.len(),
        built_all(specs.take(n)) is Err,
    ensures
        built_all(specs) == built_all(specs.take(n)),
    decreases specs.len(),
{
    if n == specs.len() {
        assert(specs.take(n) =~= specs);
    } else {
        assert(specs.drop_last().take(n) =~= specs.take(n));
        lemma_refusal_persists(specs.drop_last(), n);
    }
}

/// Whether `specs[at]` is the first of `specs` to be refused, and `reason`
/// the reason given for it.
pub open spec fn first_refusal(specs: Seq<FilterSpecView>, at: int, reason: Seq<char>) -> bool {
    &&& 0 <= at < specs.len()
    &&& built(specs[at]) == Err::<ExpressionTree, Seq<char>>(reason)
    &&& forall|j: int| 0 <= j < at ==> built(#[trigger] specs[j]) is Ok
}

/// Where every one of `specs` builds to a tree, `built_all` gives those
/// trees, one for each specification and in the same order. Where it gives
/// a reason, that is the reason for the first of them that is refused, whose
/// place is returned.
pub proof fn lemma_built_all_pointwise(specs: Seq<FilterSpecView>) -> (at: int)
    ensures
        built_all(specs) matches Ok(trees) ==> {
            &&& trees.len() == specs.len()
            &&& forall|i: int|
                0 <= i < specs.len() ==> built(#[trigger] specs[i]) == Ok::<
                    ExpressionTree,
                    Seq<char>,
                >(trees[i])
        },
        built_all(specs) matches Err(reason) ==> first_refusal(specs, at, reason),
    decreases specs.len(),
{
    if specs.len() == 0 {
        0
    } else {
        let head = specs.drop_last();
        let head_at = lemma_built_all_pointwise(head);
        match built_all(head) {
            Ok(head_trees) => {
                assert forall|j: int| 0 <= j < head.len() implies built(#[trigger] specs[j])
                    is Ok by {
                    assert(specs[j] == head[j]);
                }
                if let Ok(tree) = built(specs.last()) {
                    let trees = head_trees.push(tree);
                    assert forall|i: int| 0 <= i < specs.len() implies built(#[trigger] specs[i])
                        == Ok::<ExpressionTree, Seq<char>>(trees[i]) by {
                        if i < specs.len() - 1 {
                            assert(specs[i] == head[i]);
                        }
                    }
                }
                specs.len() - 1
            },
            Err(reason) => {
                assert(specs[head_at] == head[head_at]);
                assert forall|j: int| 0 <= j < head_at implies built(#[trigger] specs[j])
                    is Ok by {
                    assert(specs[j] == head[j]);
                }
                head_at
            },
        }
    }
}

impl FilterSpecView {
    /// Whether the specification holds, at any depth, a group without
    /// children or a text that the parser refused.
    pub open spec fn holds_refusal(self) -> bool
        decreases self,
    {
        match self {
            FilterSpecView::Group { nodes, joiner } => nodes.len() == 0 || any_holds_refusal(nodes),
            FilterSpecView::Negated(inner) => inner.holds_refusal(),
            FilterSpecView::ParsedText(Err(_)) => true,
            _ => false,
        }
    }
}

/// Whether one of the specifications holds a refusal.
pub open spec fn any_holds_refusal(specs: Seq<FilterSpecView>) -> bool
    decreases specs,
{
    exists|i: int| 0 <= i < specs.len() && (#[trigger] specs[i]).holds_refusal()
}

/// A specification is refused exactly where it holds a group without
/// children or a text that the parser refused; every other specification
/// builds to a tree.
pub proof fn lemma_refused_exactly_where_refusal_is_held(spec: FilterSpecView)
    ensures
        built(spec) is Err <==> spec.holds_refusal(),
    decreases spec,
{
    match spec {
        FilterSpecView::Group { nodes, joiner } => {
            assert forall|i: int| 0 <= i < nodes.len() implies (built(#[trigger] nodes[i])
                is Err <==> nodes[i].holds_refusal()) by {
                lemma_refused_exactly_where_refusal_is_held(nodes[i]);
            }
            let at = lemma_built_all_pointwise(nodes);
            let refused_child = if nodes.len() == 1 {
                built(nodes[0]) is Err
            } else {
                built_all(nodes) is Err
            };
            assert(nodes.len() >= 1 ==> (built(spec) is Err <==> refused_child));
            if refused_child {
                let i = if nodes.len() == 1 {
                    0
                } else {
                    at
                };
                assert(nodes[i].holds_refusal());
                assert(any_holds_refusal(nodes));
            }
            if any_holds_refusal(nodes) {
                let i = choose|i: int|
                    0 <= i < nodes.len() && (#[trigger] nodes[i]).holds_refusal();
                assert(built(nodes[i]) is Err);
                assert(refused_child);
            }
        },
        FilterSpecView::Negated(inner) => {
            lemma_refused_exactly_where_refusal_is_held(*inner);
        },
        _ => {},
    }
}

/// A group of exactly one child builds to what the child builds to, whatever
/// joiner the group declares.
pub proof fn lemma_single_child_group_collapses(child: FilterSpecView, joiner: Joiner)
    ensures
        built(FilterSpecView::Group { nodes: seq![child], joiner }) == built(child),
{
    assert(seq![child].len() == 1);
    assert(seq![child][0] == child);
}

/// A group without children is refused, whatever joiner it declares.
pub proof fn lemma_empty_group_is_refused(joiner: Joiner)
    ensures
        built(FilterSpecView::Group { nodes: Seq::empty(), joiner }) == Err::<
            ExpressionTree,
            Seq<char>,
        >(empty_group_reason()),
{
    assert(Seq::<FilterSpecView>::empty().len() == 0);
}

/// Text that was parsed into one tree builds to that tree, unchanged. So
/// where the text was the rendering of a tree and the parser read that tree
/// back from it, building gives the tree that was rendered.
pub proof fn lemma_single_parsed_tree_is_kept(tree: ExpressionTree)
    ensures
        built(FilterSpecView::ParsedText(Ok(seq![tree]))) == Ok::<ExpressionTree, Seq<char>>(tree),
{
    assert(seq![tree].len() == 1);
    assert(seq![tree][0] == tree);
}

/// Whether each parsed text in the specification reads as one expression.
pub fn has_well_formed_texts(spec: &FilterSpec) -> (r: bool)
    ensures
        r == spec@.parsed_texts_well_formed(),
    decreases spec,
{
    match spec {
        FilterSpec::Group { nodes, joiner } => all_have_well_formed_texts(nodes),
        FilterSpec::Negated(inner) => has_well_formed_texts(&**inner),
        FilterSpec::ParsedText(Ok(nodes)) => is_well_formed_sequence(nodes),
        _ => true,
    }
}

/// Whether each parsed text in each of the specifications reads as one
/// expression.
pub fn all_have_well_formed_texts(specs: &Vec<FilterSpec>) -> (r: bool)
    ensures
        r == all_parsed_texts_well_formed(spec_views(specs@)),
    decreases specs,
{
    let mut i: usize = 0;
    while i < specs.len()
        invariant
            i <= specs.len(),
            forall|j: int|
                0 <= j < i ==> (#[trigger] spec_views(specs@)[j]).parsed_texts_well_formed(),
        decreases specs.len() - i,
    {
        if !has_well_formed_texts(&specs[i]) {
            assert(!spec_views(specs@)[i as int].parsed_texts_well_formed());
            return false;
        }
        assert(spec_views(specs@)[i as int].parsed_texts_well_formed());
        i += 1;
    }
    true
}

/// Two well-formed operands or more, with an operator token between each
/// two, read as one expression.
pub proof fn lemma_interspersed_is_well_formed(
    operands: Seq<ExpressionTree>,
    separator: BoolSeparator,
)
    requires
        operands.len() >= 1,
        forall|i: int| 0 <= i < operands.len() ==> (#[trigger] operands[i]).well_formed(),
    ensures
        well_formed_sequence(interspersed(operands, operator_token(separator))),
        interspersed(operands, operator_token(separator)).len() == 2 * operands.len() - 1,
{
    let joined = interspersed(operands, operator_token(separator));
    assert forall|i: int| 0 <= i < joined.len() implies if i % 2 == 0 {
        (#[trigger] joined[i]).well_formed()
    } else {
        joined[i] is OperatorToken
    } by {
        if i % 2 == 0 {
            assert(joined[i] == operands[i / 2]);
        }
    }
}

/// Whatever is built is a well-formed tree, provided that the parser's own
/// output was: no operator token stands alone, every group holds two
/// operands or more with one token between each two, and a single operand is
/// never wrapped in a group.
pub proof fn lemma_built_tree_is_well_formed(spec: FilterSpecView)
    requires
        spec.parsed_texts_well_formed(),
    ensures
        built(spec) matches Ok(tree) ==> tree.well_formed(),
    decreases spec,
{
    match spec {
        FilterSpecView::Group { nodes, joiner } => {
            assert(all_parsed_texts_well_formed(nodes));
            if nodes.len() == 1 {
                lemma_built_tree_is_well_formed(nodes[0]);
            } else if nodes.len() >= 2 {
                let _ = lemma_built_all_pointwise(nodes);
                if let Ok(trees) = built_all(nodes) {
                    assert forall|i: int| 0 <= i < trees.len() implies (
                    #[trigger] trees[i]).well_formed() by {
                        lemma_built_tree_is_well_formed(nodes[i]);
                    }
                    lemma_interspersed_is_well_formed(trees, separator_of(joiner));
                }
            }
        },
        FilterSpecView::Negated(inner) => {
            lemma_built_tree_is_well_formed(*inner);
        },
        FilterSpecView::ParsedText(Ok(trees)) => {
            if trees.len() == 1 {
                assert(trees[0].well_formed());
            }
        },
        FilterSpecView::Flag(flag) => {
            assert(ExpressionTree::Leaf(Predicate::Flag(0)).well_formed());
        },
        _ => {},
    }
}

/// A deck filter builds to the pattern `*` exactly where it is the pattern
/// `*`. Any other deck pattern builds to a pattern without wildcards, which
/// matches the text of the filter literally.
pub proof fn lemma_deck_pattern(pattern: Seq<char>)
    ensures
        built(FilterSpecView::Deck(pattern)) matches Ok(ExpressionTree::Leaf(Predicate::Deck(p)))
            && if pattern == any_pattern() {
            p == any_pattern()
        } else {
            p != any_pattern() && literal_text(p) == Some(pattern)
        },
{
    lemma_escaped_wildcards_match_literally(pattern);
    assert(any_pattern()[0] == '*');
    assert(literal_text(any_pattern()) is None);
}

} // verus!
