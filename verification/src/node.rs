//! The expression tree of a query, and the predicates at its leaves.

use vstd::prelude::*;

verus! {

/// The boolean connective placed between two sibling operands.
#[derive(Clone, Copy, Debug, PartialEq, Eq, Structural)]
pub enum BoolSeparator {
    And,
    Or,
}

/// How a card was answered, for the predicate on past ratings.
#[derive(Clone, Copy, Debug, PartialEq, Eq, Structural)]
pub enum RatingKind {
    /// One of the four answer buttons, numbered from 1.
    AnswerButton(u8),
    AnyAnswerButton,
    ManualReschedule,
}

impl RatingKind {
    /// An answer button is one of the four there are.
    pub open spec fn well_formed(self) -> bool {
        self matches RatingKind::AnswerButton(button) ==> 1 <= button <= 4
    }
}

/// The state a card is in.
#[derive(Clone, Copy, Debug, PartialEq, Eq, Structural)]
pub enum StateKind {
    New,
    Learning,
    Review,
    Due,
    Suspended,
    Buried,
}

/// How a card's due day is compared with a day offset.
#[derive(Clone, Copy, Debug, PartialEq, Eq, Structural)]
pub enum PropertyOperator {
    /// Written `<=`.
    LessOrEqual,
    /// Written `=`.
    Equal,
}

impl PropertyOperator {
    /// The operator as it is written in a query.
    pub open spec fn symbol_text(self) -> Seq<char> {
        match self {
            PropertyOperator::LessOrEqual => seq!['<', '='],
            PropertyOperator::Equal => seq!['='],
        }
    }

    /// The operator as it is written in a query.
    pub fn symbol(self) -> (r: &'static str)
        ensures
            r@ == self.symbol_text(),
    {
        match self {
            PropertyOperator::LessOrEqual => {
                proof {
                    reveal_strlit("<=");
                    assert("<="@ =~= seq!['<', '=']);
                }
                "<="
            },
            PropertyOperator::Equal => {
                proof {
                    reveal_strlit("=");
                    assert("="@ =~= seq!['=']);
                }
                "="
            },
        }
    }
}

/// A condition that a single card or note meets or does not meet.
#[derive(Debug)]
pub enum SearchNode {
    /// Notes with a tag that matches the pattern.
    Tag(String),
    /// Cards in a deck that matches the pattern; the pattern `*` is any deck.
    Deck(String),
    /// Notes of a note type that matches the pattern.
    NoteType(String),
    /// Cards made from the template with this ordinal.
    CardTemplate(u16),
    /// Notes with one of these ids, written in decimal with commas between.
    NoteIDs(String),
    /// Notes of the note type whose first field holds the text.
    Duplicates { note_type_id: i64, text: String },
    /// Notes where a field that matches `field` holds what matches `text`.
    SingleField { field: String, text: String, is_re: bool },
    /// Cards answered within the last `days` days in the given way.
    Rated { days: u32, ease: RatingKind },
    /// Cards added within this many days.
    AddedInDays(u32),
    /// Notes edited within this many days.
    EditedInDays(u32),
    /// Cards whose due day compares in this way with today plus `offset`.
    Due { operator: PropertyOperator, offset: i32 },
    /// Cards in this state.
    State(StateKind),
    /// Cards with this flag; 0 is no flag, 1 to 4 are the colours.
    Flag(u8),
    /// Every card.
    WholeCollection,
}

/// What a [`SearchNode`] says, with its texts as sequences of characters.
pub enum Predicate {
    Tag(Seq<char>),
    Deck(Seq<char>),
    NoteType(Seq<char>),
    CardTemplate(u16),
    NoteIDs(Seq<char>),
    Duplicates { note_type_id: i64, text: Seq<char> },
    SingleField { field: Seq<char>, text: Seq<char>, is_re: bool },
    Rated { days: u32, ease: RatingKind },
    AddedInDays(u32),
    EditedInDays(u32),
    Due { operator: PropertyOperator, offset: i32 },
    State(StateKind),
    Flag(u8),
    WholeCollection,
}

impl Predicate {
    /// A flag is one of the five there are, and an answer button one of the
    /// four.
    pub open spec fn well_formed(self) -> bool {
        match self {
            Predicate::Flag(flag) => flag <= 4,
            Predicate::Rated { days, ease } => ease.well_formed(),
            _ => true,
        }
    }
}

impl View for SearchNode {
    type V = Predicate;

    open spec fn view(&self) -> Predicate {
        match self {
            SearchNode::Tag(s) => Predicate::Tag(s@),
            SearchNode::Deck(s) => Predicate::Deck(s@),
            SearchNode::NoteType(s) => Predicate::NoteType(s@),
            SearchNode::CardTemplate(ordinal) => Predicate::CardTemplate(*ordinal),
            SearchNode::NoteIDs(s) => Predicate::NoteIDs(s@),
            SearchNode::Duplicates { note_type_id, text } => Predicate::Duplicates {
                note_type_id: *note_type_id,
                text: text@,
            },
            SearchNode::SingleField { field, text, is_re } => Predicate::SingleField {
                field: field@,
                text: text@,
                is_re: *is_re,
            },
            SearchNode::Rated { days, ease } => Predicate::Rated { days: *days, ease: *ease },
            SearchNode::AddedInDays(days) => Predicate::AddedInDays(*days),
            SearchNode::EditedInDays(days) => Predicate::EditedInDays(*days),
            SearchNode::Due { operator, offset } => Predicate::Due {
                operator: *operator,
                offset: *offset,
            },
            SearchNode::State(state) => Predicate::State(*state),
            SearchNode::Flag(flag) => Predicate::Flag(*flag),
            SearchNode::WholeCollection => Predicate::WholeCollection,
        }
    }
}

impl Clone for SearchNode {
    fn clone(&self) -> (r: Self)
        ensures
            r@ == self@,
    {
        match self {
            SearchNode::Tag(s) => SearchNode::Tag(s.clone()),
            SearchNode::Deck(s) => SearchNode::Deck(s.clone()),
            SearchNode::NoteType(s) => SearchNode::NoteType(s.clone()),
            SearchNode::CardTemplate(ordinal) => SearchNode::CardTemplate(*ordinal),
            SearchNode::NoteIDs(s) => SearchNode::NoteIDs(s.clone()),
            SearchNode::Duplicates { note_type_id, text } => SearchNode::Duplicates {
                note_type_id: *note_type_id,
                text: text.clone(),
            },
            SearchNode::SingleField { field, text, is_re } => SearchNode::SingleField {
                field: field.clone(),
                text: text.clone(),
                is_re: *is_re,
            },
            SearchNode::Rated { days, ease } => SearchNode::Rated { days: *days, ease: *ease },
            SearchNode::AddedInDays(days) => SearchNode::AddedInDays(*days),
            SearchNode::EditedInDays(days) => SearchNode::EditedInDays(*days),
            SearchNode::Due { operator, offset } => SearchNode::Due {
                operator: *operator,
                offset: *offset,
            },
            SearchNode::State(state) => SearchNode::State(*state),
            SearchNode::Flag(flag) => SearchNode::Flag(*flag),
            SearchNode::WholeCollection => SearchNode::WholeCollection,
        }
    }
}

/// Whether the two strings hold the same characters.
pub fn same_text(a: &String, b: &String) -> (r: bool)
    ensures
        r == (a@ == b@),
{
    *a == *b
}

impl SearchNode {
    /// Whether the predicate is well formed (see [`Predicate::well_formed`]).
    pub fn is_well_formed(&self) -> (r: bool)
        ensures
            r == self@.well_formed(),
    {
        match self {
            SearchNode::Flag(flag) => *flag <= 4,
            SearchNode::Rated { days, ease } => match ease {
                RatingKind::AnswerButton(button) => 1 <= *button && *button <= 4,
                _ => true,
            },
            _ => true,
        }
    }

    /// Whether the two predicates are of the same kind with the same
    /// parameters.
    pub fn same_as(&self, other: &SearchNode) -> (r: bool)
        ensures
            r == (self@ == other@),
    {
        match (self, other) {
            (SearchNode::Tag(a), SearchNode::Tag(b)) => same_text(a, b),
            (SearchNode::Deck(a), SearchNode::Deck(b)) => same_text(a, b),
            (SearchNode::NoteType(a), SearchNode::NoteType(b)) => same_text(a, b),
            (SearchNode::CardTemplate(a), SearchNode::CardTemplate(b)) => *a == *b,
            (SearchNode::NoteIDs(a), SearchNode::NoteIDs(b)) => same_text(a, b),
            (
                SearchNode::Duplicates { note_type_id: ia, text: ta },
                SearchNode::Duplicates { note_type_id: ib, text: tb },
            ) => *ia == *ib && same_text(ta, tb),
            (
                SearchNode::SingleField { field: fa, text: ta, is_re: ra },
                SearchNode::SingleField { field: fb, text: tb, is_re: rb },
            ) => same_text(fa, fb) && same_text(ta, tb) && *ra == *rb,
            (
                SearchNode::Rated { days: da, ease: ea },
                SearchNode::Rated { days: db, ease: eb },
            ) => *da == *db && *ea == *eb,
            (SearchNode::AddedInDays(a), SearchNode::AddedInDays(b)) => *a == *b,
            (SearchNode::EditedInDays(a), SearchNode::EditedInDays(b)) => *a == *b,
            (
                SearchNode::Due { operator: oa, offset: da },
                SearchNode::Due { operator: ob, offset: db },
            ) => *oa == *ob && *da == *db,
            (SearchNode::State(a), SearchNode::State(b)) => *a == *b,
            (SearchNode::Flag(a), SearchNode::Flag(b)) => *a == *b,
            (SearchNode::WholeCollection, SearchNode::WholeCollection) => true,
            _ => false,
        }
    }
}

impl PartialEq for SearchNode {
    fn eq(&self, other: &SearchNode) -> (r: bool) {
        self.same_as(other)
    }
}

impl Eq for SearchNode {

}

impl vstd::std_specs::cmp::PartialEqSpecImpl for SearchNode {
    open spec fn obeys_eq_spec() -> bool {
        true
    }

    open spec fn eq_spec(&self, other: &SearchNode) -> bool {
        self@ == other@
    }
}

/// One node of a query: an operand (a predicate, a negation or a group) or
/// one of the two operator tokens that separate the operands of a group.
#[derive(Debug)]
pub enum Node {
    And,
    Or,
    Not(Box<Node>),
    Group(Vec<Node>),
    Search(SearchNode),
}

/// What a [`Node`] stands for: the boolean structure of a query.
pub enum ExpressionTree {
    /// A predicate on a single card or note.
    Leaf(Predicate),
    /// What the child does not match.
    Negation(Box<ExpressionTree>),
    /// A separator between two operands; it has no meaning on its own.
    OperatorToken(BoolSeparator),
    /// Operands with an operator token between each two.
    Group(Seq<ExpressionTree>),
}

impl ExpressionTree {
    /// Whether the tree is an expression: anything but an operator token.
    pub open spec fn is_operand(self) -> bool {
        !(self is OperatorToken)
    }

    /// An operator token never stands alone; a group holds two operands or
    /// more, with one operator token between each two; every predicate is
    /// well formed.
    pub open spec fn well_formed(self) -> bool
        decreases self,
    {
        match self {
            ExpressionTree::Leaf(predicate) => predicate.well_formed(),
            ExpressionTree::Negation(child) => child.well_formed(),
            ExpressionTree::OperatorToken(_) => false,
            ExpressionTree::Group(nodes) => nodes.len() >= 3 && well_formed_sequence(nodes),
        }
    }

    /// The tree as a sequence of operands and operator tokens: what a group
    /// holds, or else the tree alone.
    pub open spec fn node_list(self) -> Seq<ExpressionTree> {
        match self {
            ExpressionTree::Group(nodes) => nodes,
            _ => seq![self],
        }
    }
}

/// The token that stands for a separator.
pub open spec fn operator_token(separator: BoolSeparator) -> ExpressionTree {
    ExpressionTree::OperatorToken(separator)
}

/// Whether `nodes` reads as one expression: well-formed operands at the even
/// places, operator tokens at the odd ones, an operand at each end.
pub open spec fn well_formed_sequence(nodes: Seq<ExpressionTree>) -> bool
    decreases nodes,
{
    &&& nodes.len() % 2 == 1
    &&& forall|i: int|
        0 <= i < nodes.len() ==> if i % 2 == 0 {
            (#[trigger] nodes[i]).well_formed()
        } else {
            nodes[i] is OperatorToken
        }
}

/// The tree that `node` stands for.
pub open spec fn tree_of(node: Node) -> ExpressionTree
    decreases node,
{
    match node {
        Node::And => ExpressionTree::OperatorToken(BoolSeparator::And),
        Node::Or => ExpressionTree::OperatorToken(BoolSeparator::Or),
        Node::Not(child) => ExpressionTree::Negation(Box::new(tree_of(*child))),
        Node::Group(nodes) => ExpressionTree::Group(trees_of(nodes@)),
        Node::Search(leaf) => ExpressionTree::Leaf(leaf@),
    }
}

/// The trees that `nodes` stand for, in the same order.
pub open spec fn trees_of(nodes: Seq<Node>) -> Seq<ExpressionTree>
    decreases nodes,
{
    Seq::new(
        nodes.len(),
        |i: int|
            if 0 <= i < nodes.len() {
                tree_of(nodes[i])
            } else {
                ExpressionTree::Leaf(Predicate::WholeCollection)
            },
    )
}

impl View for Node {
    type V = ExpressionTree;

    open spec fn view(&self) -> ExpressionTree {
        tree_of(*self)
    }
}

/// A copy of `nodes`, node for node.
pub fn clone_nodes(nodes: &Vec<Node>) -> (r: Vec<Node>)
    ensures
        trees_of(r@) == trees_of(nodes@),
    decreases nodes,
{
    let mut out: Vec<Node> = Vec::new();
    let mut i: usize = 0;
    while i < nodes.len()
        invariant
            i <= nodes.len(),
            out@.len() == i,
            forall|j: int| 0 <= j < i ==> out@[j]@ == nodes@[j]@,
        decreases nodes.len() - i,
    {
        let copy = nodes[i].clone();
        out.push(copy);
        i += 1;
    }
    assert(trees_of(out@) =~= trees_of(nodes@));
    out
}

impl Clone for Node {
    fn clone(&self) -> (r: Self)
        ensures
            r@ == self@,
        decreases self,
    {
        match self {
            Node::And => Node::And,
            Node::Or => Node::Or,
            Node::Not(child) => Node::Not(Box::new((&**child).clone())),
            Node::Group(nodes) => Node::Group(clone_nodes(nodes)),
            Node::Search(leaf) => Node::Search(leaf.clone()),
        }
    }
}

/// Whether the two sequences hold the same trees in the same order.
pub fn same_nodes(a: &Vec<Node>, b: &Vec<Node>) -> (r: bool)
    ensures
        r == (trees_of(a@) == trees_of(b@)),
    decreases a,
{
    if a.len() != b.len() {
        assert(trees_of(a@).len() != trees_of(b@).len());
        return false;
    }
    let mut i: usize = 0;
    while i < a.len()
        invariant
            i <= a.len(),
            a.len() == b.len(),
            forall|j: int| 0 <= j < i ==> a@[j]@ == b@[j]@,
        decreases a.len() - i,
    {
        if !a[i].same_as(&b[i]) {
            assert(trees_of(a@)[i as int] != trees_of(b@)[i as int]);
            return false;
        }
        i += 1;
    }
    assert(trees_of(a@) =~= trees_of(b@));
    true
}

/// Whether the nodes read as one expression (see
/// [`well_formed_sequence`]).
pub fn is_well_formed_sequence(nodes: &Vec<Node>) -> (r: bool)
    ensures
        r == well_formed_sequence(trees_of(nodes@)),
    decreases nodes,
{
    if nodes.len() % 2 != 1 {
        return false;
    }
    let mut i: usize = 0;
    while i < nodes.len()
        invariant
            i <= nodes.len(),
            forall|j: int|
                0 <= j < i ==> if j % 2 == 0 {
                    (#[trigger] trees_of(nodes@)[j]).well_formed()
                } else {
                    trees_of(nodes@)[j] is OperatorToken
                },
        decreases nodes.len() - i,
    {
        let fits = if i % 2 == 0 {
            nodes[i].is_well_formed()
        } else {
            match &nodes[i] {
                Node::And => true,
                Node::Or => true,
                _ => false,
            }
        };
        if !fits {
            assert(trees_of(nodes@)[i as int] == nodes@[i as int]@);
            return false;
        }
        i += 1;
    }
    true
}

impl Node {
    /// Whether the node is a well-formed tree (see
    /// [`ExpressionTree::well_formed`]).
    pub fn is_well_formed(&self) -> (r: bool)
        ensures
            r == self@.well_formed(),
        decreases self,
    {
        match self {
            Node::And => false,
            Node::Or => false,
            Node::Not(child) => (&**child).is_well_formed(),
            Node::Group(nodes) => {
                assert(trees_of(nodes@).len() == nodes@.len());
                nodes.len() >= 3 && is_well_formed_sequence(nodes)
            },
            Node::Search(leaf) => leaf.is_well_formed(),
        }
    }

    /// The node wrapped in a negation. Nothing is simplified: the negation
    /// of a negation is a tree of its own, two levels deep.
    pub fn negated(self) -> (r: Node)
        ensures
            r@ == ExpressionTree::Negation(Box::new(self@)),
    {
        Node::Not(Box::new(self))
    }

    /// The node as a sequence of operands and operator tokens: what a group
    /// holds, or else the node alone.
    pub fn into_node_list(self) -> (r: Vec<Node>)
        ensures
            trees_of(r@) == self@.node_list(),
    {
        match self {
            Node::Group(nodes) => nodes,
            other => {
                let ghost tree = other@;
                let mut list: Vec<Node> = Vec::new();
                list.push(other);
                assert(trees_of(list@) =~= seq![tree]);
                list
            },
        }
    }

    /// Whether the two nodes stand for the same tree: the same kinds with the
    /// same parameters, nested in the same way.
    pub fn same_as(&self, other: &Node) -> (r: bool)
        ensures
            r == (self@ == other@),
        decreases self,
    {
        match (self, other) {
            (Node::And, Node::And) => true,
            (Node::Or, Node::Or) => true,
            (Node::Not(a), Node::Not(b)) => (&**a).same_as(&**b),
            (Node::Group(a), Node::Group(b)) => same_nodes(a, b),
            (Node::Search(a), Node::Search(b)) => a.same_as(b),
            _ => false,
        }
    }
}

impl PartialEq for Node {
    fn eq(&self, other: &Node) -> (r: bool) {
        self.same_as(other)
    }
}

impl Eq for Node {

}

impl vstd::std_specs::cmp::PartialEqSpecImpl for Node {
    open spec fn obeys_eq_spec() -> bool {
        true
    }

    open spec fn eq_spec(&self, other: &Node) -> bool {
        self@ == other@
    }
}

/// Negating twice never gives the tree back: no tree is its own double
/// negation.
pub proof fn lemma_double_negation_is_distinct(tree: ExpressionTree)
    ensures
        ExpressionTree::Negation(Box::new(ExpressionTree::Negation(Box::new(tree)))) != tree,
        ExpressionTree::Negation(Box::new(tree)) != tree,
    decreases tree,
{
    if let ExpressionTree::Negation(child) = tree {
        lemma_double_negation_is_distinct(*child);
    }
}

} // verus!
