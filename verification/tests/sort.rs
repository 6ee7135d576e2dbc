use search_expr::sort::{resolve, BuiltinSortKind, SortKind, SortMode, SortOrder};

#[test]
fn absent_sort_specification_resolves_to_the_configured_order() {
    assert_eq!(resolve(None), SortMode::FromConfig);
}

#[test]
fn explicit_sort_specifications_resolve_to_their_mode() {
    assert_eq!(resolve(Some(SortOrder::FromConfig)), SortMode::FromConfig);
    assert_eq!(resolve(Some(SortOrder::Unordered)), SortMode::NoOrder);
    assert_eq!(
        resolve(Some(SortOrder::Custom("n.mod desc".to_string()))),
        SortMode::Custom("n.mod desc".to_string())
    );
    assert_eq!(resolve(Some(SortOrder::Custom(String::new()))), SortMode::Custom(String::new()));
}

#[test]
fn builtin_sort_keeps_kind_and_direction() {
    assert_eq!(
        resolve(Some(SortOrder::Builtin { kind: BuiltinSortKind::CardDue, reverse: true })),
        SortMode::Builtin { kind: SortKind::CardDue, reverse: true }
    );
    assert_eq!(
        resolve(Some(SortOrder::Builtin { kind: BuiltinSortKind::NoteField, reverse: false })),
        SortMode::Builtin { kind: SortKind::NoteField, reverse: false }
    );
}

#[test]
fn every_builtin_kind_has_its_own_sort_kind() {
    let table = vec![
        (BuiltinSortKind::NoteCreation, SortKind::NoteCreation),
        (BuiltinSortKind::NoteMod, SortKind::NoteMod),
        (BuiltinSortKind::NoteField, SortKind::NoteField),
        (BuiltinSortKind::NoteTags, SortKind::NoteTags),
        (BuiltinSortKind::NoteType, SortKind::NoteType),
        (BuiltinSortKind::CardMod, SortKind::CardMod),
        (BuiltinSortKind::CardReps, SortKind::CardReps),
        (BuiltinSortKind::CardDue, SortKind::CardDue),
        (BuiltinSortKind::CardEase, SortKind::CardEase),
        (BuiltinSortKind::CardLapses, SortKind::CardLapses),
        (BuiltinSortKind::CardInterval, SortKind::CardInterval),
        (BuiltinSortKind::CardDeck, SortKind::CardDeck),
        (BuiltinSortKind::CardTemplate, SortKind::CardTemplate),
    ];
    assert_eq!(table.len(), 13);
    for (i, (named, kind)) in table.iter().enumerate() {
        assert_eq!(SortKind::from(*named), *kind);
        for (j, (other, _)) in table.iter().enumerate() {
            if i != j {
                assert_ne!(SortKind::from(*other), *kind);
            }
        }
    }
}
