use doplr::metadata::providers::musicbrainz::Client;
use doplr::metadata::providers::{MetadataProvider, QueryExpr};

#[test]
fn simple_mb_query_expr() {
    let q = QueryExpr::Title("Great Song");
    assert_eq!("title:Great Song", Client::build_query(q));
}

#[test]
fn mb_query_expr_with_and() {
    let q = QueryExpr::Title("Great Song").and(QueryExpr::Artist("Cool Artist"));
    assert_eq!("(title:Great Song AND artist:Cool Artist)", Client::build_query(q));
}

#[test]
fn mb_query_expr_with_or() {
    let q = QueryExpr::Title("Great Song").or(QueryExpr::Artist("Cool Artist"));
    assert_eq!("(title:Great Song OR artist:Cool Artist)", Client::build_query(q));
}

#[test]
fn mb_query_expr_multiple_ands() {
    let q = QueryExpr::Title("Great Song")
        .and(QueryExpr::Artist("Cool Artist").and(QueryExpr::Album("Amazing Album")));
    let exp = "(title:Great Song AND (artist:Cool Artist AND release:Amazing Album))";
    assert_eq!(exp, Client::build_query(q));
}

#[test]
fn mb_query_expr_ands_and_ors() {
    let q = QueryExpr::Title("Great Song").and(QueryExpr::Artist("Cool Artist"))
        .or(QueryExpr::Title("Less Great Song").and(QueryExpr::Artist("Less Cool Artist")));
    let exp = "((title:Great Song AND artist:Cool Artist) OR (title:Less Great Song AND artist:Less Cool Artist))";
    assert_eq!(exp, Client::build_query(q));
}

#[test]
fn atomic_text_predicates_use_the_backend_field_names() {
    assert_eq!("title:Blue", Client::build_query(QueryExpr::Title("Blue")));
    assert_eq!("artist:Joni Mitchell", Client::build_query(QueryExpr::Artist("Joni Mitchell")));
    assert_eq!("release:Hejira", Client::build_query(QueryExpr::Album("Hejira")));
}

#[test]
fn atomic_number_predicates_are_written_in_decimal() {
    assert_eq!("date:1976", Client::build_query(QueryExpr::Year(1976)));
    assert_eq!("tnum:7", Client::build_query(QueryExpr::TrackNumber(7)));
    assert_eq!("tracks:12", Client::build_query(QueryExpr::TotalTracks(12)));
    assert_eq!("dur:215000", Client::build_query(QueryExpr::Length(215000)));
}

#[test]
fn numbers_at_the_edges_of_their_types() {
    assert_eq!("date:0", Client::build_query(QueryExpr::Year(0)));
    assert_eq!("date:65535", Client::build_query(QueryExpr::Year(u16::MAX)));
    assert_eq!("tnum:10", Client::build_query(QueryExpr::TrackNumber(10)));
    assert_eq!("tracks:100", Client::build_query(QueryExpr::TotalTracks(100)));
    assert_eq!("dur:0", Client::build_query(QueryExpr::Length(0)));
    assert_eq!("dur:4294967295", Client::build_query(QueryExpr::Length(u32::MAX)));
}

#[test]
fn custom_predicate_is_key_colon_value() {
    assert_eq!("isrc:GBAYE0601498", Client::build_query(QueryExpr::Custom("isrc", "GBAYE0601498")));
}

#[test]
fn nothing_is_escaped() {
    let q = QueryExpr::Custom("a:b", "(c) AND d");
    assert_eq!("a:b:(c) AND d", Client::build_query(q));
    assert_eq!("title:x OR y", Client::build_query(QueryExpr::Title("x OR y")));
    assert_eq!("title:", Client::build_query(QueryExpr::Title("")));
    assert_eq!(":", Client::build_query(QueryExpr::Custom("", "")));
}

#[test]
fn text_outside_ascii_passes_through() {
    assert_eq!("artist:Sigur Rós", Client::build_query(QueryExpr::Artist("Sigur Rós")));
    assert_eq!("title:音楽", Client::build_query(QueryExpr::Title("音楽")));
}

#[test]
fn two_artist_names_are_joined_without_parentheses() {
    let q = QueryExpr::Artists(vec!["a", "b"]);
    assert_eq!("artistname:a AND artistname:b", Client::build_query(q));
}

#[test]
fn artist_lists_of_other_lengths() {
    assert_eq!("", Client::build_query(QueryExpr::Artists(vec![])));
    assert_eq!("artistname:solo", Client::build_query(QueryExpr::Artists(vec!["solo"])));
    assert_eq!(
        "artistname:a AND artistname:b AND artistname:c",
        Client::build_query(QueryExpr::Artists(vec!["a", "b", "c"]))
    );
}

#[test]
fn artist_list_under_a_combinator() {
    let q = QueryExpr::Artists(vec!["a", "b"]).or(QueryExpr::Title("t"));
    assert_eq!("(artistname:a AND artistname:b OR title:t)", Client::build_query(q));
}

#[test]
fn left_and_right_nesting_compile_differently() {
    let right = QueryExpr::Title("a").and(QueryExpr::Title("b").and(QueryExpr::Title("c")));
    let left = QueryExpr::Title("a").and(QueryExpr::Title("b")).and(QueryExpr::Title("c"));
    let right = Client::build_query(right);
    let left = Client::build_query(left);
    assert_eq!("(title:a AND (title:b AND title:c))", right);
    assert_eq!("((title:a AND title:b) AND title:c)", left);
    assert_ne!(left, right);
}

#[test]
fn nesting_stays_distinct_when_operands_hold_parentheses() {
    let right = QueryExpr::Custom("(", "(").and(QueryExpr::Custom("", "").and(QueryExpr::Title("")));
    let left = QueryExpr::Custom("(", "(").and(QueryExpr::Custom("", "")).and(QueryExpr::Title(""));
    assert_ne!(Client::build_query(left), Client::build_query(right));
}

#[test]
fn same_operand_twice_is_not_simplified() {
    let q = QueryExpr::Title("x").and(QueryExpr::Title("x"));
    assert_eq!("(title:x AND title:x)", Client::build_query(q));
    let q = QueryExpr::Title("x").or(QueryExpr::Title("x"));
    assert_eq!("(title:x OR title:x)", Client::build_query(q));
}

#[test]
fn combinator_methods_build_the_raw_nodes() {
    let by_method = QueryExpr::Title("a").and(QueryExpr::Year(2001));
    let by_hand = QueryExpr::AND(Box::new(QueryExpr::Title("a")), Box::new(QueryExpr::Year(2001)));
    assert!(matches!(&by_method, QueryExpr::AND(l, r)
        if matches!(**l, QueryExpr::Title("a")) && matches!(**r, QueryExpr::Year(2001))));
    assert_eq!(Client::build_query(by_hand), Client::build_query(by_method));

    let by_method = QueryExpr::Title("a").or(QueryExpr::Year(2001));
    let by_hand = QueryExpr::OR(Box::new(QueryExpr::Title("a")), Box::new(QueryExpr::Year(2001)));
    assert!(matches!(&by_method, QueryExpr::OR(l, r)
        if matches!(**l, QueryExpr::Title("a")) && matches!(**r, QueryExpr::Year(2001))));
    assert_eq!(Client::build_query(by_hand), Client::build_query(by_method));
}

#[test]
fn or_of_two_ands_parenthesises_each_side() {
    let q = QueryExpr::OR(
        Box::new(QueryExpr::AND(Box::new(QueryExpr::Year(1)), Box::new(QueryExpr::Year(2)))),
        Box::new(QueryExpr::AND(Box::new(QueryExpr::Year(3)), Box::new(QueryExpr::Year(4)))),
    );
    assert_eq!("((date:1 AND date:2) OR (date:3 AND date:4))", Client::build_query(q));
}

#[test]
fn deep_nesting_compiles() {
    let mut q = QueryExpr::Title("0");
    let mut expected = String::from("title:0");
    for _ in 0..200 {
        q = q.and(QueryExpr::TrackNumber(1));
        expected = format!("({} AND tnum:1)", expected);
    }
    assert_eq!(expected, Client::build_query(q));
}
