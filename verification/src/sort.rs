//! How the cards that a search finds are to be ordered.

use vstd::prelude::*;

verus! {

/// A built-in ordering, as a sort specification names it.
#[derive(Clone, Copy, Debug, PartialEq, Eq, Structural)]
pub enum BuiltinSortKind {
    NoteCreation,
    NoteMod,
    NoteField,
    NoteTags,
    NoteType,
    CardMod,
    CardReps,
    CardDue,
    CardEase,
    CardLapses,
    CardInterval,
    CardDeck,
    CardTemplate,
}

/// A built-in ordering, as a search is run with it.
#[derive(Clone, Copy, Debug, PartialEq, Eq, Structural)]
pub enum SortKind {
    NoteCreation,
    NoteMod,
    NoteField,
    NoteTags,
    NoteType,
    CardMod,
    CardReps,
    CardDue,
    CardEase,
    CardLapses,
    CardInterval,
    CardDeck,
    CardTemplate,
}

/// The ordering that a specification's built-in kind names.
pub open spec fn sort_kind_of(kind: BuiltinSortKind) -> SortKind {
    match kind {
        BuiltinSortKind::NoteCreation => SortKind::NoteCreation,
        BuiltinSortKind::NoteMod => SortKind::NoteMod,
        BuiltinSortKind::NoteField => SortKind::NoteField,
        BuiltinSortKind::NoteTags => SortKind::NoteTags,
        BuiltinSortKind::NoteType => SortKind::NoteType,
        BuiltinSortKind::CardMod => SortKind::CardMod,
        BuiltinSortKind::CardReps => SortKind::CardReps,
        BuiltinSortKind::CardDue => SortKind::CardDue,
        BuiltinSortKind::CardEase => SortKind::CardEase,
        BuiltinSortKind::CardLapses => SortKind::CardLapses,
        BuiltinSortKind::CardInterval => SortKind::CardInterval,
        BuiltinSortKind::CardDeck => SortKind::CardDeck,
        BuiltinSortKind::CardTemplate => SortKind::CardTemplate,
    }
}

impl From<BuiltinSortKind> for SortKind {
    fn from(kind: BuiltinSortKind) -> (r: SortKind) {
        match kind {
            BuiltinSortKind::NoteCreation => SortKind::NoteCreation,
            BuiltinSortKind::NoteMod => SortKind::NoteMod,
            BuiltinSortKind::NoteField => SortKind::NoteField,
            BuiltinSortKind::NoteTags => SortKind::NoteTags,
            BuiltinSortKind::NoteType => SortKind::NoteType,
            BuiltinSortKind::CardMod => SortKind::CardMod,
            BuiltinSortKind::CardReps => SortKind::CardReps,
            BuiltinSortKind::CardDue => SortKind::CardDue,
            BuiltinSortKind::CardEase => SortKind::CardEase,
            BuiltinSortKind::CardLapses => SortKind::CardLapses,
            BuiltinSortKind::CardInterval => SortKind::CardInterval,
            BuiltinSortKind::CardDeck => SortKind::CardDeck,
            BuiltinSortKind::CardTemplate => SortKind::CardTemplate,
        }
    }
}

impl vstd::std_specs::convert::FromSpecImpl<BuiltinSortKind> for SortKind {
    open spec fn obeys_from_spec() -> bool {
        true
    }

    open spec fn from_spec(kind: BuiltinSortKind) -> SortKind {
        sort_kind_of(kind)
    }
}

/// The table of built-in orderings is one to one: two different kinds name
/// two different orderings.
pub proof fn lemma_sort_kinds_are_distinct(a: BuiltinSortKind, b: BuiltinSortKind)
    ensures
        sort_kind_of(a) == sort_kind_of(b) <==> a == b,
{
}

/// Every ordering is named by a kind: the one returned.
pub proof fn lemma_every_sort_kind_is_named(kind: SortKind) -> (named: BuiltinSortKind)
    ensures
        sort_kind_of(named) == kind,
{
    match kind {
        SortKind::NoteCreation => BuiltinSortKind::NoteCreation,
        SortKind::NoteMod => BuiltinSortKind::NoteMod,
        SortKind::NoteField => BuiltinSortKind::NoteField,
        SortKind::NoteTags => BuiltinSortKind::NoteTags,
        SortKind::NoteType => BuiltinSortKind::NoteType,
        SortKind::CardMod => BuiltinSortKind::CardMod,
        SortKind::CardReps => BuiltinSortKind::CardReps,
        SortKind::CardDue => BuiltinSortKind::CardDue,
        SortKind::CardEase => BuiltinSortKind::CardEase,
        SortKind::CardLapses => BuiltinSortKind::CardLapses,
        SortKind::CardInterval => BuiltinSortKind::CardInterval,
        SortKind::CardDeck => BuiltinSortKind::CardDeck,
        SortKind::CardTemplate => BuiltinSortKind::CardTemplate,
    }
}

/// A sort specification, as a caller states it.
#[derive(Debug, PartialEq, Eq)]
pub enum SortOrder {
    /// No ordering is asked for.
    Unordered,
    /// The ordering is given as text, to be used as it stands.
    Custom(String),
    /// The ordering is the one that the collection is configured with.
    FromConfig,
    /// One of the built-in orderings, forwards or in reverse.
    Builtin { kind: BuiltinSortKind, reverse: bool },
}

/// The ordering that a search is run with.
#[derive(Debug, PartialEq, Eq)]
pub enum SortMode {
    NoOrder,
    FromConfig,
    Custom(String),
    Builtin { kind: SortKind, reverse: bool },
}

/// What a [`SortMode`] says, with its text as a sequence of characters.
pub enum SortModeView {
    NoOrder,
    FromConfig,
    Custom(Seq<char>),
    Builtin { kind: SortKind, reverse: bool },
}

impl View for SortMode {
    type V = SortModeView;

    open spec fn view(&self) -> SortModeView {
        match self {
            SortMode::NoOrder => SortModeView::NoOrder,
            SortMode::FromConfig => SortModeView::FromConfig,
            SortMode::Custom(text) => SortModeView::Custom(text@),
            SortMode::Builtin { kind, reverse } => SortModeView::Builtin {
                kind: *kind,
                reverse: *reverse,
            },
        }
    }
}

/// The ordering that a sort specification resolves to; one that is absent
/// resolves to the configured ordering.
pub open spec fn resolved(order: Option<SortOrder>) -> SortModeView {
    match order {
        None => SortModeView::FromConfig,
        Some(SortOrder::Unordered) => SortModeView::NoOrder,
        Some(SortOrder::Custom(text)) => SortModeView::Custom(text@),
        Some(SortOrder::FromConfig) => SortModeView::FromConfig,
        Some(SortOrder::Builtin { kind, reverse }) => SortModeView::Builtin {
            kind: sort_kind_of(kind),
            reverse,
        },
    }
}

/// Resolves a sort specification to the ordering that a search is run with.
pub fn resolve(order: Option<SortOrder>) -> (mode: SortMode)
    ensures
        mode@ == resolved(order),
{
    match order {
        None => SortMode::FromConfig,
        Some(SortOrder::Unordered) => SortMode::NoOrder,
        Some(SortOrder::Custom(text)) => SortMode::Custom(text),
        Some(SortOrder::FromConfig) => SortMode::FromConfig,
        Some(SortOrder::Builtin { kind, reverse }) => SortMode::Builtin {
            kind: SortKind::from(kind),
            reverse,
        },
    }
}

} // verus!
