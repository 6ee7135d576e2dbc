use search_expr::builder::{build, build_all};
use search_expr::filter::{
    CardState, FilterSpec, FlagFilter, IdList, InvalidInput, Joiner, Rating,
};
use search_expr::node::{Node, PropertyOperator, RatingKind, SearchNode, StateKind};

fn text(s: &str) -> String {
    s.to_string()
}

fn tag(s: &str) -> Node {
    Node::Search(SearchNode::Tag(text(s)))
}

fn deck(s: &str) -> Node {
    Node::Search(SearchNode::Deck(text(s)))
}

fn group(joiner: Joiner, nodes: Vec<FilterSpec>) -> FilterSpec {
    FilterSpec::Group { nodes, joiner }
}

fn refused(reason: &str) -> Result<Node, InvalidInput> {
    Err(InvalidInput { reason: text(reason) })
}

#[test]
fn no_filter_is_the_whole_collection() {
    assert_eq!(build(&FilterSpec::Unset), Ok(Node::Search(SearchNode::WholeCollection)));
}

#[test]
fn tag_filter_builds_a_tag_leaf() {
    assert_eq!(build(&FilterSpec::Tag(text("math"))), Ok(tag("math")));
}

#[test]
fn tag_filter_escapes_wildcards() {
    assert_eq!(build(&FilterSpec::Tag(text("a*b_c\\d"))), Ok(tag("a\\*b\\_c\\\\d")));
}

#[test]
fn deck_wildcard_literal_stays_unescaped() {
    assert_eq!(build(&FilterSpec::Deck(text("*"))), Ok(deck("*")));
}

#[test]
fn deck_pattern_is_escaped() {
    assert_eq!(build(&FilterSpec::Deck(text("a*b"))), Ok(deck("a\\*b")));
    assert_eq!(build(&FilterSpec::Deck(text("**"))), Ok(deck("\\*\\*")));
    assert_eq!(build(&FilterSpec::Deck(text("Default"))), Ok(deck("Default")));
    assert_eq!(build(&FilterSpec::Deck(text(""))), Ok(deck("")));
}

#[test]
fn only_the_deck_filter_keeps_a_lone_star() {
    assert_eq!(build(&FilterSpec::Tag(text("*"))), Ok(tag("\\*")));
    assert_eq!(
        build(&FilterSpec::Note(text("*"))),
        Ok(Node::Search(SearchNode::NoteType(text("\\*"))))
    );
}

#[test]
fn note_filter_builds_an_escaped_note_type() {
    assert_eq!(
        build(&FilterSpec::Note(text("Basic_(reversed)"))),
        Ok(Node::Search(SearchNode::NoteType(text("Basic\\_(reversed)"))))
    );
}

#[test]
fn template_filter_keeps_the_ordinal() {
    assert_eq!(build(&FilterSpec::Template(0)), Ok(Node::Search(SearchNode::CardTemplate(0))));
    assert_eq!(build(&FilterSpec::Template(3)), Ok(Node::Search(SearchNode::CardTemplate(3))));
    assert_eq!(
        build(&FilterSpec::Template(65535)),
        Ok(Node::Search(SearchNode::CardTemplate(65535)))
    );
}

#[test]
fn template_ordinal_wraps_at_sixteen_bits() {
    assert_eq!(build(&FilterSpec::Template(65536)), Ok(Node::Search(SearchNode::CardTemplate(0))));
    assert_eq!(build(&FilterSpec::Template(65541)), Ok(Node::Search(SearchNode::CardTemplate(5))));
    assert_eq!(
        build(&FilterSpec::Template(u32::MAX)),
        Ok(Node::Search(SearchNode::CardTemplate(65535)))
    );
}

#[test]
fn single_note_id_is_written_in_decimal() {
    assert_eq!(
        build(&FilterSpec::Nid(1615000000000)),
        Ok(Node::Search(SearchNode::NoteIDs(text("1615000000000"))))
    );
    assert_eq!(build(&FilterSpec::Nid(0)), Ok(Node::Search(SearchNode::NoteIDs(text("0")))));
    assert_eq!(build(&FilterSpec::Nid(-7)), Ok(Node::Search(SearchNode::NoteIDs(text("-7")))));
}

#[test]
fn note_id_list_keeps_order_and_duplicates() {
    let spec = FilterSpec::Nids(IdList { ids: vec![3, 1, 3, 20] });
    assert_eq!(build(&spec), Ok(Node::Search(SearchNode::NoteIDs(text("3,1,3,20")))));
}

#[test]
fn empty_note_id_list_is_the_empty_text() {
    let spec = FilterSpec::Nids(IdList { ids: vec![] });
    assert_eq!(build(&spec), Ok(Node::Search(SearchNode::NoteIDs(text("")))));
}

#[test]
fn id_string_of_extreme_ids() {
    let list = IdList { ids: vec![i64::MIN, 0, i64::MAX] };
    assert_eq!(list.into_id_string(), "-9223372036854775808,0,9223372036854775807");
    assert_eq!(IdList { ids: vec![42] }.into_id_string(), "42");
    assert_eq!(IdList { ids: vec![] }.into_id_string(), "");
    assert_eq!(IdList { ids: vec![10, 100, -1] }.into_id_string(), "10,100,-1");
}

#[test]
fn dupe_filter_keeps_the_text_as_it_is() {
    let spec = FilterSpec::Dupe { notetype_id: 123, first_field: text("a*b") };
    assert_eq!(
        build(&spec),
        Ok(Node::Search(SearchNode::Duplicates { note_type_id: 123, text: text("a*b") }))
    );
}

#[test]
fn field_name_filter_matches_any_text() {
    assert_eq!(
        build(&FilterSpec::FieldName(text("Front_side"))),
        Ok(Node::Search(SearchNode::SingleField {
            field: text("Front\\_side"),
            text: text("*"),
            is_re: false,
        }))
    );
}

#[test]
fn rated_filter_maps_each_rating() {
    let cases = vec![
        (Rating::Again, RatingKind::AnswerButton(1)),
        (Rating::Hard, RatingKind::AnswerButton(2)),
        (Rating::Good, RatingKind::AnswerButton(3)),
        (Rating::Easy, RatingKind::AnswerButton(4)),
        (Rating::Any, RatingKind::AnyAnswerButton),
        (Rating::ByReschedule, RatingKind::ManualReschedule),
    ];
    for (rating, ease) in cases {
        assert_eq!(RatingKind::from(rating), ease);
        assert_eq!(
            build(&FilterSpec::Rated { days: 7, rating }),
            Ok(Node::Search(SearchNode::Rated { days: 7, ease }))
        );
    }
}

#[test]
fn added_and_edited_filters_keep_the_days() {
    assert_eq!(
        build(&FilterSpec::AddedInDays(1)),
        Ok(Node::Search(SearchNode::AddedInDays(1)))
    );
    assert_eq!(
        build(&FilterSpec::EditedInDays(30)),
        Ok(Node::Search(SearchNode::EditedInDays(30)))
    );
}

#[test]
fn due_filters_pick_the_operator() {
    assert_eq!(
        build(&FilterSpec::DueInDays(3)),
        Ok(Node::Search(SearchNode::Due { operator: PropertyOperator::LessOrEqual, offset: 3 }))
    );
    assert_eq!(
        build(&FilterSpec::DueOnDay(-1)),
        Ok(Node::Search(SearchNode::Due { operator: PropertyOperator::Equal, offset: -1 }))
    );
    assert_eq!(PropertyOperator::LessOrEqual.symbol(), "<=");
    assert_eq!(PropertyOperator::Equal.symbol(), "=");
}

#[test]
fn card_state_filter_maps_each_state() {
    let cases = vec![
        (CardState::New, StateKind::New),
        (CardState::Learn, StateKind::Learning),
        (CardState::Review, StateKind::Review),
        (CardState::Due, StateKind::Due),
        (CardState::Suspended, StateKind::Suspended),
        (CardState::Buried, StateKind::Buried),
    ];
    for (state, kind) in cases {
        assert_eq!(StateKind::from(state), kind);
        assert_eq!(build(&FilterSpec::CardState(state)), Ok(Node::Search(SearchNode::State(kind))));
    }
}

#[test]
fn no_flag_filter_is_flag_zero() {
    assert_eq!(build(&FilterSpec::Flag(FlagFilter::NoFlag)), Ok(Node::Search(SearchNode::Flag(0))));
}

#[test]
fn any_flag_filter_is_the_negation_of_flag_zero() {
    assert_eq!(
        build(&FilterSpec::Flag(FlagFilter::AnyFlag)),
        Ok(Node::Not(Box::new(Node::Search(SearchNode::Flag(0)))))
    );
}

#[test]
fn coloured_flags_are_one_to_four() {
    let cases = vec![
        (FlagFilter::Red, 1),
        (FlagFilter::Orange, 2),
        (FlagFilter::Green, 3),
        (FlagFilter::Blue, 4),
    ];
    for (flag, id) in cases {
        assert_eq!(build(&FilterSpec::Flag(flag)), Ok(Node::Search(SearchNode::Flag(id))));
    }
}

#[test]
fn negation_wraps_the_child() {
    let spec = FilterSpec::Negated(Box::new(FilterSpec::Tag(text("math"))));
    assert_eq!(build(&spec), Ok(Node::Not(Box::new(tag("math")))));
}

#[test]
fn double_negation_is_not_simplified() {
    let once = FilterSpec::Negated(Box::new(FilterSpec::Tag(text("math"))));
    let twice = FilterSpec::Negated(Box::new(once));
    let built = build(&twice).unwrap();
    assert_eq!(built, Node::Not(Box::new(Node::Not(Box::new(tag("math"))))));
    assert_ne!(built, tag("math"));
    assert_ne!(tag("math").negated().negated(), tag("math"));
    assert_ne!(tag("math").negated(), tag("math"));
}

#[test]
fn negated_any_flag_is_a_double_negation() {
    let spec = FilterSpec::Negated(Box::new(FilterSpec::Flag(FlagFilter::AnyFlag)));
    assert_eq!(
        build(&spec),
        Ok(Node::Not(Box::new(Node::Not(Box::new(Node::Search(SearchNode::Flag(0)))))))
    );
}

#[test]
fn negation_of_a_refused_child_is_refused() {
    let spec = FilterSpec::Negated(Box::new(group(Joiner::And, vec![])));
    assert_eq!(build(&spec), refused("empty group"));
}

#[test]
fn empty_group_is_refused_under_either_joiner() {
    assert_eq!(build(&group(Joiner::And, vec![])), refused("empty group"));
    assert_eq!(build(&group(Joiner::Or, vec![])), refused("empty group"));
}

#[test]
fn group_of_one_collapses_under_either_joiner() {
    let direct = build(&FilterSpec::Tag(text("math")));
    assert_eq!(build(&group(Joiner::And, vec![FilterSpec::Tag(text("math"))])), direct);
    assert_eq!(build(&group(Joiner::Or, vec![FilterSpec::Tag(text("math"))])), direct);
}

#[test]
fn group_of_one_group_collapses_to_the_inner_group() {
    let inner = || group(Joiner::Or, vec![FilterSpec::Tag(text("a")), FilterSpec::Tag(text("b"))]);
    assert_eq!(build(&group(Joiner::And, vec![inner()])), build(&inner()));
    assert_eq!(build(&inner()), Ok(Node::Group(vec![tag("a"), Node::Or, tag("b")])));
}

#[test]
fn group_of_one_refused_child_is_refused() {
    let spec = group(Joiner::And, vec![group(Joiner::Or, vec![])]);
    assert_eq!(build(&spec), refused("empty group"));
}

#[test]
fn group_of_two_puts_the_joiner_between() {
    let spec = group(Joiner::And, vec![FilterSpec::Tag(text("math")), FilterSpec::Deck(text("*"))]);
    assert_eq!(build(&spec), Ok(Node::Group(vec![tag("math"), Node::And, deck("*")])));
    let spec = group(Joiner::Or, vec![FilterSpec::Tag(text("math")), FilterSpec::Deck(text("*"))]);
    assert_eq!(build(&spec), Ok(Node::Group(vec![tag("math"), Node::Or, deck("*")])));
}

#[test]
fn group_of_four_puts_the_joiner_between_each_two() {
    let spec = group(
        Joiner::Or,
        vec![
            FilterSpec::Tag(text("a")),
            FilterSpec::Tag(text("b")),
            FilterSpec::Tag(text("c")),
            FilterSpec::Tag(text("d")),
        ],
    );
    assert_eq!(
        build(&spec),
        Ok(Node::Group(vec![
            tag("a"),
            Node::Or,
            tag("b"),
            Node::Or,
            tag("c"),
            Node::Or,
            tag("d"),
        ]))
    );
}

#[test]
fn nested_groups_stay_nested() {
    let inner = group(Joiner::Or, vec![FilterSpec::Tag(text("a")), FilterSpec::Tag(text("b"))]);
    let spec = group(Joiner::And, vec![inner, FilterSpec::Flag(FlagFilter::AnyFlag)]);
    assert_eq!(
        build(&spec),
        Ok(Node::Group(vec![
            Node::Group(vec![tag("a"), Node::Or, tag("b")]),
            Node::And,
            Node::Not(Box::new(Node::Search(SearchNode::Flag(0)))),
        ]))
    );
}

#[test]
fn group_gives_the_reason_of_the_first_refused_child() {
    let spec = group(
        Joiner::And,
        vec![
            FilterSpec::Tag(text("a")),
            FilterSpec::ParsedText(Err(text("first"))),
            FilterSpec::ParsedText(Err(text("second"))),
            group(Joiner::And, vec![]),
        ],
    );
    assert_eq!(build(&spec), refused("first"));
    let spec = group(
        Joiner::And,
        vec![group(Joiner::And, vec![]), FilterSpec::ParsedText(Err(text("later")))],
    );
    assert_eq!(build(&spec), refused("empty group"));
}

#[test]
fn build_all_builds_each_in_order() {
    let specs = vec![FilterSpec::Tag(text("a")), FilterSpec::Unset, FilterSpec::AddedInDays(2)];
    assert_eq!(
        build_all(&specs),
        Ok(vec![
            tag("a"),
            Node::Search(SearchNode::WholeCollection),
            Node::Search(SearchNode::AddedInDays(2)),
        ])
    );
    assert_eq!(build_all(&vec![]), Ok(vec![]));
    let specs = vec![FilterSpec::Tag(text("a")), FilterSpec::ParsedText(Err(text("no")))];
    assert_eq!(build_all(&specs), Err(InvalidInput { reason: text("no") }));
}

#[test]
fn parsed_text_of_one_tree_is_that_tree() {
    let spec = FilterSpec::ParsedText(Ok(vec![tag("math")]));
    assert_eq!(build(&spec), Ok(tag("math")));
    let inner = Node::Group(vec![tag("a"), Node::Or, tag("b")]);
    let spec = FilterSpec::ParsedText(Ok(vec![inner.clone()]));
    assert_eq!(build(&spec), Ok(inner));
}

#[test]
fn parsed_text_of_several_nodes_is_grouped_as_it_is() {
    let parsed = vec![tag("a"), Node::Or, tag("b"), Node::And, deck("c")];
    let spec = FilterSpec::ParsedText(Ok(parsed.clone()));
    assert_eq!(build(&spec), Ok(Node::Group(parsed)));
}

#[test]
fn parsed_text_of_no_node_is_an_empty_group() {
    let spec = FilterSpec::ParsedText(Ok(vec![]));
    assert_eq!(build(&spec), Ok(Node::Group(vec![])));
}

#[test]
fn refused_text_gives_the_parsers_reason() {
    let spec = FilterSpec::ParsedText(Err(text("unclosed quote")));
    assert_eq!(build(&spec), refused("unclosed quote"));
}

#[test]
fn node_list_of_a_built_tree_round_trips_through_parsed_text() {
    let specs = vec![
        FilterSpec::Unset,
        FilterSpec::Tag(text("math")),
        FilterSpec::Deck(text("*")),
        FilterSpec::Note(text("Basic")),
        FilterSpec::Template(1),
        FilterSpec::Nid(5),
        FilterSpec::Nids(IdList { ids: vec![1, 2] }),
        FilterSpec::Dupe { notetype_id: 1, first_field: text("x") },
        FilterSpec::FieldName(text("Front")),
        FilterSpec::Rated { days: 1, rating: Rating::Good },
        FilterSpec::AddedInDays(1),
        FilterSpec::EditedInDays(1),
        FilterSpec::DueInDays(1),
        FilterSpec::DueOnDay(1),
        FilterSpec::CardState(CardState::Due),
        FilterSpec::Flag(FlagFilter::AnyFlag),
        FilterSpec::Negated(Box::new(FilterSpec::Tag(text("a")))),
        group(Joiner::And, vec![FilterSpec::Tag(text("a")), FilterSpec::Tag(text("b"))]),
    ];
    for spec in specs {
        let tree = build(&spec).unwrap();
        let read_back = FilterSpec::ParsedText(Ok(tree.clone().into_node_list()));
        assert_eq!(build(&read_back), Ok(tree));
    }
}
