use practice_app::catalog::{popular_pieces, without_duplicates, ComposerEntry};
use practice_app::filter::{GetPiecesQueryParams, PracticeSessionFilter};
use practice_app::models::{
    InsertablePiece, Piece, PiecePracticedMapping, PracticeSession, Timestamp, User,
};
use practice_app::text::{
    append_integer, chars_of, contains_chars, contains_ignoring_case, like_pattern,
};

fn decimal(n: i64) -> String {
    let mut out = String::new();
    append_integer(&mut out, n);
    out
}

fn piece(title: &str, composer: &str) -> InsertablePiece {
    InsertablePiece { title: title.to_string(), composer: composer.to_string() }
}

#[test]
fn text_is_found_anywhere_in_a_text() {
    assert!(contains_ignoring_case("Nocturne", "noct"));
    assert!(contains_ignoring_case("Nocturne", "TURN"));
    assert!(contains_ignoring_case("Nocturne", "e"));
    assert!(contains_ignoring_case("Nocturne", "nocturne"));
    assert!(contains_ignoring_case("Nocturne", ""));
    assert!(contains_ignoring_case("", ""));
    assert!(!contains_ignoring_case("Nocturne", "nocturnes"));
    assert!(!contains_ignoring_case("Nocturne", "x"));
    assert!(!contains_ignoring_case("", "a"));
    assert!(contains_ignoring_case("ÉTUDE", "étude"));
    // a pattern is text, not a wildcard
    assert!(!contains_ignoring_case("Nocturne", "%"));
    assert!(!contains_ignoring_case("Nocturne", "n_cturne"));
}

#[test]
fn matching_character_for_character_minds_the_case() {
    let text: Vec<char> = "Nocturne".chars().collect();
    let lower: Vec<char> = "noct".chars().collect();
    let exact: Vec<char> = "Noct".chars().collect();
    let tail: Vec<char> = "urne".chars().collect();
    assert!(!contains_chars(&text, &lower));
    assert!(contains_chars(&text, &exact));
    assert!(contains_chars(&text, &tail));
    assert!(contains_chars(&text, &Vec::new()));
    assert!(!contains_chars(&Vec::new(), &tail));
}

#[test]
fn the_characters_of_a_text_are_its_scalar_values() {
    assert_eq!(chars_of("aé漢"), vec!['a', 'é', '漢']);
    assert_eq!(chars_of(""), Vec::<char>::new());
}

#[test]
fn integers_are_written_in_decimal() {
    assert_eq!(decimal(0), "0");
    assert_eq!(decimal(7), "7");
    assert_eq!(decimal(10), "10");
    assert_eq!(decimal(1234567890), "1234567890");
    assert_eq!(decimal(-1), "-1");
    assert_eq!(decimal(-120), "-120");
    assert_eq!(decimal(i64::MAX), "9223372036854775807");
    assert_eq!(decimal(i64::MIN), "-9223372036854775808");
    let mut out = "n = ".to_string();
    append_integer(&mut out, 42);
    assert_eq!(out, "n = 42");
}

#[test]
fn an_instant_is_read_from_its_text() {
    assert_eq!(
        Timestamp::parse("2024-01-01T10:00:00"),
        Some(Timestamp { micros: 1_704_103_200_000_000 })
    );
    assert_eq!(Timestamp::parse("1970-01-01T00:00:00"), Some(Timestamp { micros: 0 }));
    assert_eq!(Timestamp::parse("1969-12-31T23:59:59"), Some(Timestamp { micros: -1_000_000 }));
    assert_eq!(Timestamp::parse("2024-01-01 10:00:00"), None);
    assert_eq!(Timestamp::parse("2024-13-01T10:00:00"), None);
    assert_eq!(Timestamp::parse("2024-01-01"), None);
    assert_eq!(Timestamp::parse(""), None);
}

#[test]
fn an_instant_is_shown_as_date_and_time() {
    assert_eq!(Timestamp { micros: 1_704_103_200_000_000 }.render(), "2024-01-01 10:00:00");
    assert_eq!(Timestamp { micros: 0 }.render(), "1970-01-01 00:00:00");
    assert_eq!(Timestamp { micros: 1_500_000 }.render(), "1970-01-01 00:00:01.500");
    assert_eq!(Timestamp::parse("2024-02-29T23:59:59").unwrap().render(), "2024-02-29 23:59:59");
}

#[test]
fn an_instant_beyond_the_calendar_is_shown_as_its_count() {
    assert_eq!(Timestamp { micros: i64::MAX }.render(), "9223372036854775807");
    assert_eq!(Timestamp { micros: i64::MIN }.render(), "-9223372036854775808");
}

#[test]
fn rows_are_shown_on_one_line() {
    let user = User { user_id: 1, user_name: "alice".to_string(), password_hash: "$argon2i$x".to_string() };
    assert_eq!(user.describe(), "(1) NAME: alice PASS: $argon2i$x");

    let piece = Piece { piece_id: 12, title: "Nocturne".to_string(), composer: "Chopin".to_string() };
    assert_eq!(piece.describe(), "(12) TITLE: Nocturne COMPOSER: Chopin");

    let session = PracticeSession {
        practice_session_id: 3,
        start_datetime: Timestamp { micros: 1_704_103_200_000_000 },
        duration_mins: 30,
        instrument: "violin".to_string(),
        user_id: 1,
    };
    assert_eq!(
        session.describe(),
        "(3) DATETIME: 2024-01-01 10:00:00 DURATION: 30 INSTRUMENT: violin USER: 1"
    );

    let link = PiecePracticedMapping { practice_session_id: 3, piece_id: 12 };
    assert_eq!(link.describe(), "PRACTICE SESSION: 3 PIECE: 12");

    let negative = PiecePracticedMapping { practice_session_id: -3, piece_id: i32::MIN };
    assert_eq!(negative.describe(), "PRACTICE SESSION: -3 PIECE: -2147483648");
}

#[test]
fn only_the_works_of_popular_composers_are_imported() {
    let composers = vec![
        ComposerEntry {
            complete_name: "Johann Sebastian Bach".to_string(),
            popular: "1".to_string(),
            works: vec!["Partita".to_string(), "Chaconne".to_string()],
        },
        ComposerEntry {
            complete_name: "Somebody Else".to_string(),
            popular: "0".to_string(),
            works: vec!["Unknown".to_string()],
        },
        ComposerEntry { complete_name: "No Works".to_string(), popular: "1".to_string(), works: vec![] },
        ComposerEntry {
            complete_name: "Maybe".to_string(),
            popular: "11".to_string(),
            works: vec!["Skipped".to_string()],
        },
        ComposerEntry {
            complete_name: "Frédéric Chopin".to_string(),
            popular: "1".to_string(),
            works: vec!["Nocturne".to_string()],
        },
    ];
    assert_eq!(
        popular_pieces(&composers),
        vec![
            piece("Partita", "Johann Sebastian Bach"),
            piece("Chaconne", "Johann Sebastian Bach"),
            piece("Nocturne", "Frédéric Chopin"),
        ]
    );
    assert!(popular_pieces(&vec![]).is_empty());
}

#[test]
fn a_piece_that_repeats_an_earlier_one_is_left_out() {
    let pieces = vec![
        piece("Nocturne", "Chopin"),
        piece("Partita", "Bach"),
        piece("Nocturne", "Chopin"),
        piece("nocturne", "Chopin"),
        piece("Nocturne", "Field"),
        piece("Partita", "Bach"),
        piece("Nocturne", "Chopin"),
    ];
    assert_eq!(
        without_duplicates(&pieces),
        vec![
            piece("Nocturne", "Chopin"),
            piece("Partita", "Bach"),
            piece("nocturne", "Chopin"),
            piece("Nocturne", "Field"),
        ]
    );
    assert!(without_duplicates(&vec![]).is_empty());
    assert!(piece("Nocturne", "Chopin").same_as(&piece("Nocturne", "Chopin")));
    assert!(!piece("Nocturne", "Chopin").same_as(&piece("Nocturne", "Bach")));
    assert!(!piece("Nocturne", "Chopin").same_as(&piece("Etude", "Chopin")));
}

#[test]
fn a_filter_is_met_by_the_rows_that_meet_each_constraint() {
    let nocturne = Piece { piece_id: 1, title: "Nocturne".to_string(), composer: "Chopin".to_string() };
    assert!(GetPiecesQueryParams::any().matches(&nocturne));
    assert!(GetPiecesQueryParams { piece_id: Some(1), title: Some("noc".to_string()), composer: None }
        .matches(&nocturne));
    assert!(!GetPiecesQueryParams { piece_id: Some(2), title: Some("noc".to_string()), composer: None }
        .matches(&nocturne));
    assert!(!GetPiecesQueryParams { piece_id: None, title: None, composer: Some("bach".to_string()) }
        .matches(&nocturne));

    let session = PracticeSession {
        practice_session_id: 3,
        start_datetime: Timestamp { micros: 100 },
        duration_mins: 30,
        instrument: "violin".to_string(),
        user_id: 1,
    };
    let any = PracticeSessionFilter::any;
    assert!(any().matches(&session));
    assert!(PracticeSessionFilter {
        min_datetime: Some(Timestamp { micros: 100 }),
        max_datetime: Some(Timestamp { micros: 100 }),
        min_duration_mins: Some(30),
        max_duration_mins: Some(30),
        ..any()
    }
    .matches(&session));
    assert!(!PracticeSessionFilter { min_datetime: Some(Timestamp { micros: 101 }), ..any() }.matches(&session));
    assert!(!PracticeSessionFilter { max_datetime: Some(Timestamp { micros: 99 }), ..any() }.matches(&session));
    assert!(!PracticeSessionFilter { min_duration_mins: Some(31), ..any() }.matches(&session));
    assert!(!PracticeSessionFilter { max_duration_mins: Some(29), ..any() }.matches(&session));
    assert!(!PracticeSessionFilter { user_id: Some(2), ..any() }.matches(&session));
}

#[test]
fn a_search_pattern_takes_its_needle_literally() {
    assert_eq!(like_pattern("noct"), "%noct%");
    assert_eq!(like_pattern(""), "%%");
    assert_eq!(like_pattern("50%"), "%50\\%%");
    assert_eq!(like_pattern("a_b"), "%a\\_b%");
    assert_eq!(like_pattern("back\\slash"), "%back\\\\slash%");
    assert_eq!(like_pattern("é%漢_"), "%é\\%漢\\_%");
}
