use gameup::catalog::{games_listing, write_status, GameQuery};

const BASE: &str = "SELECT id, name, genre, description, release_date, video_url FROM games";

fn query(name: Option<&str>, genre: Option<&str>) -> GameQuery {
    GameQuery { name: name.map(|s| s.to_string()), genre: genre.map(|s| s.to_string()) }
}

#[test]
fn listing_without_filters_lists_everything() {
    let q = games_listing(&query(None, None));
    assert_eq!(q.sql, BASE);
    assert!(q.binds.is_empty());
}

#[test]
fn listing_by_name_uses_a_pattern() {
    let q = games_listing(&query(Some("zel"), None));
    assert_eq!(q.sql, format!("{} WHERE name ILIKE $1", BASE));
    assert_eq!(q.binds, vec!["%zel%".to_string()]);
}

#[test]
fn listing_by_genre_alone_uses_first_placeholder() {
    let q = games_listing(&query(None, Some("RPG")));
    assert_eq!(q.sql, format!("{} WHERE genre = $1", BASE));
    assert_eq!(q.binds, vec!["RPG".to_string()]);
}

#[test]
fn listing_by_name_and_genre_numbers_placeholders_in_order() {
    let q = games_listing(&query(Some("Mario"), Some("Platformer")));
    assert_eq!(q.sql, format!("{} WHERE name ILIKE $1 AND genre = $2", BASE));
    assert_eq!(q.binds, vec!["%Mario%".to_string(), "Platformer".to_string()]);
}

#[test]
fn blank_filters_are_ignored() {
    let q = games_listing(&query(Some("   "), Some("")));
    assert_eq!(q.sql, BASE);
    assert!(q.binds.is_empty());
    let q = games_listing(&query(Some(" \t"), Some("Puzzle")));
    assert_eq!(q.sql, format!("{} WHERE genre = $1", BASE));
    assert_eq!(q.binds, vec!["Puzzle".to_string()]);
}

#[test]
fn writes_answer_no_content_or_server_error() {
    assert_eq!(write_status(true), 204);
    assert_eq!(write_status(false), 500);
}
