//! Structured filter specifications: what a caller asks for, before it is
//! built into an expression tree.

use crate::node::{trees_of, BoolSeparator, ExpressionTree, Node, RatingKind, StateKind};
use crate::text::{id_list_text, push_decimal};
use vstd::prelude::*;

verus! {

/// The connective that a group specification declares for its children.
#[derive(Clone, Copy, Debug, PartialEq, Eq, Structural)]
pub enum Joiner {
    And,
    Or,
}

/// The separator that a joiner stands for.
pub open spec fn separator_of(joiner: Joiner) -> BoolSeparator {
    match joiner {
        Joiner::And => BoolSeparator::And,
        Joiner::Or => BoolSeparator::Or,
    }
}

impl From<Joiner> for BoolSeparator {
    fn from(joiner: Joiner) -> (r: BoolSeparator) {
        match joiner {
            Joiner::And => BoolSeparator::And,
            Joiner::Or => BoolSeparator::Or,
        }
    }
}

impl vstd::std_specs::convert::FromSpecImpl<Joiner> for BoolSeparator {
    open spec fn obeys_from_spec() -> bool {
        true
    }

    open spec fn from_spec(joiner: Joiner) -> BoolSeparator {
        separator_of(joiner)
    }
}

/// The answer asked for in a filter on past ratings.
#[derive(Clone, Copy, Debug, PartialEq, Eq, Structural)]
pub enum Rating {
    Again,
    Hard,
    Good,
    Easy,
    Any,
    ByReschedule,
}

/// The kind of rating that a filter's rating stands for: the four answers are
/// the buttons 1 to 4.
pub open spec fn rating_kind_of(rating: Rating) -> RatingKind {
    match rating {
        Rating::Again => RatingKind::AnswerButton(1),
        Rating::Hard => RatingKind::AnswerButton(2),
        Rating::Good => RatingKind::AnswerButton(3),
        Rating::Easy => RatingKind::AnswerButton(4),
        Rating::Any => RatingKind::AnyAnswerButton,
        Rating::ByReschedule => RatingKind::ManualReschedule,
    }
}

impl From<Rating> for RatingKind {
    fn from(rating: Rating) -> (r: RatingKind) {
        match rating {
            Rating::Again => RatingKind::AnswerButton(1),
            Rating::Hard => RatingKind::AnswerButton(2),
            Rating::Good => RatingKind::AnswerButton(3),
            Rating::Easy => RatingKind::AnswerButton(4),
            Rating::Any => RatingKind::AnyAnswerButton,
            Rating::ByReschedule => RatingKind::ManualReschedule,
        }
    }
}

impl vstd::std_specs::convert::FromSpecImpl<Rating> for RatingKind {
    open spec fn obeys_from_spec() -> bool {
        true
    }

    open spec fn from_spec(rating: Rating) -> RatingKind {
        rating_kind_of(rating)
    }
}

/// The card state asked for in a filter.
#[derive(Clone, Copy, Debug, PartialEq, Eq, Structural)]
pub enum CardState {
    New,
    Learn,
    Review,
    Due,
    Suspended,
    Buried,
}

/// The state that a filter's card state stands for.
pub open spec fn state_kind_of(state: CardState) -> StateKind {
    match state {
        CardState::New => StateKind::New,
        CardState::Learn => StateKind::Learning,
        CardState::Review => StateKind::Review,
        CardState::Due => StateKind::Due,
        CardState::Suspended => StateKind::Suspended,
        CardState::Buried => StateKind::Buried,
    }
}

impl From<CardState> for StateKind {
    fn from(state: CardState) -> (r: StateKind) {
        match state {
            CardState::New => StateKind::New,
            CardState::Learn => StateKind::Learning,
            CardState::Review => StateKind::Review,
            CardState::Due => StateKind::Due,
            CardState::Suspended => StateKind::Suspended,
            CardState::Buried => StateKind::Buried,
        }
    }
}

impl vstd::std_specs::convert::FromSpecImpl<CardState> for StateKind {
    open spec fn obeys_from_spec() -> bool {
        true
    }

    open spec fn from_spec(state: CardState) -> StateKind {
        state_kind_of(state)
    }
}

/// The flag asked for in a filter.
#[derive(Clone, Copy, Debug, PartialEq, Eq, Structural)]
pub enum FlagFilter {
    /// Cards without a flag.
    NoFlag,
    /// Cards with a flag, whichever it is.
    AnyFlag,
    Red,
    Orange,
    Green,
    Blue,
}

/// A list of note ids, in the order the caller gave them.
#[derive(Debug, PartialEq, Eq)]
pub struct IdList {
    pub ids: Vec<i64>,
}

/// Writes the ids out in decimal, with a comma between each two.
pub fn id_string(ids: &Vec<i64>) -> (r: String)
    ensures
        r@ == id_list_text(ids@),
{
    let mut out = String::new();
    let mut i: usize = 0;
    while i < ids.len()
        invariant
            i <= ids.len(),
            out@ == id_list_text(ids@.take(i as int)),
        decreases ids.len() - i,
    {
        proof {
            assert(ids@.take(i + 1).drop_last() =~= ids@.take(i as int));
        }
        if i > 0 {
            out.push(',');
        }
        push_decimal(&mut out, ids[i]);
        i += 1;
    }
    proof {
        assert(ids@.take(ids.len() as int) =~= ids@);
    }
    out
}

impl IdList {
    /// The ids in decimal with a comma between each two, in the order they
    /// were given. An id that occurs twice is written twice.
    pub fn into_id_string(self) -> (r: String)
        ensures
            r@ == id_list_text(self.ids@),
    {
        id_string(&self.ids)
    }
}

/// Why a filter specification was refused.
#[derive(Debug, PartialEq, Eq)]
pub struct InvalidInput {
    pub reason: String,
}

/// A structured filter specification. A group and a negation hold
/// specifications in turn. Free text is held as the parser returned it: the
/// operands and operator tokens that it read, or the reason why it refused
/// the text.
#[derive(Debug)]
pub enum FilterSpec {
    /// No filter at all: everything is asked for.
    Unset,
    /// What the children ask for, taken together as the joiner says.
    Group { nodes: Vec<FilterSpec>, joiner: Joiner },
    /// Everything but what the inner specification asks for.
    Negated(Box<FilterSpec>),
    /// A query that the user typed, as the parser returned it.
    ParsedText(Result<Vec<Node>, String>),
    /// Cards of the template with this ordinal.
    Template(u32),
    /// The note with this id.
    Nid(i64),
    /// Notes of this note type whose first field holds this text.
    Dupe { notetype_id: i64, first_field: String },
    /// Notes that have a field of this name.
    FieldName(String),
    /// Cards answered in this way within this many days.
    Rated { days: u32, rating: Rating },
    /// Cards added within this many days.
    AddedInDays(u32),
    /// Cards due within this many days.
    DueInDays(i32),
    /// Cards flagged in this way.
    Flag(FlagFilter),
    /// Cards in this state.
    CardState(CardState),
    /// The notes with these ids.
    Nids(IdList),
    /// Notes edited within this many days.
    EditedInDays(u32),
    /// Cards in the deck of this name; `*` is any deck.
    Deck(String),
    /// Cards due on the day this many days from today.
    DueOnDay(i32),
    /// Notes with the tag of this name.
    Tag(String),
    /// Notes of the note type of this name.
    Note(String),
}

/// What a [`FilterSpec`] says, with its texts and lists as sequences.
pub enum FilterSpecView {
    Unset,
    Group { nodes: Seq<FilterSpecView>, joiner: Joiner },
    Negated(Box<FilterSpecView>),
    ParsedText(Result<Seq<ExpressionTree>, Seq<char>>),
    Template(u32),
    Nid(i64),
    Dupe { notetype_id: i64, first_field: Seq<char> },
    FieldName(Seq<char>),
    Rated { days: u32, rating: Rating },
    AddedInDays(u32),
    DueInDays(i32),
    Flag(FlagFilter),
    CardState(CardState),
    Nids(Seq<i64>),
    EditedInDays(u32),
    Deck(Seq<char>),
    DueOnDay(i32),
    Tag(Seq<char>),
    Note(Seq<char>),
}

/// What `spec` says.
pub open spec fn spec_view(spec: FilterSpec) -> FilterSpecView
    decreases spec,
{
    match spec {
        FilterSpec::Unset => FilterSpecView::Unset,
        FilterSpec::Group { nodes, joiner } => FilterSpecView::Group {
            nodes: spec_views(nodes@),
            joiner,
        },
        FilterSpec::Negated(inner) => FilterSpecView::Negated(Box::new(spec_view(*inner))),
        FilterSpec::ParsedText(Ok(nodes)) => FilterSpecView::ParsedText(Ok(trees_of(nodes@))),
        FilterSpec::ParsedText(Err(reason)) => FilterSpecView::ParsedText(Err(reason@)),
        FilterSpec::Template(ordinal) => FilterSpecView::Template(ordinal),
        FilterSpec::Nid(id) => FilterSpecView::Nid(id),
        FilterSpec::Dupe { notetype_id, first_field } => FilterSpecView::Dupe {
            notetype_id,
            first_field: first_field@,
        },
        FilterSpec::FieldName(name) => FilterSpecView::FieldName(name@),
        FilterSpec::Rated { days, rating } => FilterSpecView::Rated { days, rating },
        FilterSpec::AddedInDays(days) => FilterSpecView::AddedInDays(days),
        FilterSpec::DueInDays(days) => FilterSpecView::DueInDays(days),
        FilterSpec::Flag(flag) => FilterSpecView::Flag(flag),
        FilterSpec::CardState(state) => FilterSpecView::CardState(state),
        FilterSpec::Nids(list) => FilterSpecView::Nids(list.ids@),
        FilterSpec::EditedInDays(days) => FilterSpecView::EditedInDays(days),
        FilterSpec::Deck(pattern) => FilterSpecView::Deck(pattern@),
        FilterSpec::DueOnDay(day) => FilterSpecView::DueOnDay(day),
        FilterSpec::Tag(pattern) => FilterSpecView::Tag(pattern@),
        FilterSpec::Note(pattern) => FilterSpecView::Note(pattern@),
    }
}

/// What each of `specs` says, in the same order.
pub open spec fn spec_views(specs: Seq<FilterSpec>) -> Seq<FilterSpecView>
    decreases specs,
{
    Seq::new(
        specs.len(),
        |i: int|
            if 0 <= i < specs.len() {
                spec_view(specs[i])
            } else {
                FilterSpecView::Unset
            },
    )
}

impl View for FilterSpec {
    type V = FilterSpecView;

    open spec fn view(&self) -> FilterSpecView {
        spec_view(*self)
    }
}

} // verus!
