use hash_id::input::resolve_hash;
use hash_id::input::strip_line_terminator;
use hash_id::store::catalog_file_name;
use hash_id::store::plan_cache;
use hash_id::store::remote_url;
use hash_id::store::CacheAction;

#[test]
fn a_literal_argument_is_the_hash() {
    let r = resolve_hash("5f4dcc3b5e12db3".to_string(), None);
    assert_eq!(r, "5f4dcc3b5e12db3");
}

#[test]
fn file_content_replaces_the_argument_with_its_newline_stripped() {
    let r = resolve_hash(
        "somefile.txt".to_string(),
        Some("5f4dcc3b5e12db3\n".to_string()),
    );
    assert_eq!(r, "5f4dcc3b5e12db3");
}

#[test]
fn strips_at_most_one_line_terminator() {
    assert_eq!(strip_line_terminator("abc\n"), "abc");
    assert_eq!(strip_line_terminator("abc\r\n"), "abc");
    assert_eq!(strip_line_terminator("abc"), "abc");
    assert_eq!(strip_line_terminator("abc\n\n"), "abc\n");
    assert_eq!(strip_line_terminator(""), "");
    assert_eq!(strip_line_terminator("\n"), "");
}

#[test]
fn the_remote_url_is_the_base_plus_the_file_name() {
    let name = catalog_file_name();
    assert_eq!(name, "hash-id-prototypes.json");
    assert_eq!(
        remote_url(&name),
        "https://www.onlinehashcrack.com/static/hash-id-prototypes.json"
    );
}

#[test]
fn a_cached_catalog_is_never_fetched_again() {
    assert_eq!(plan_cache(true), CacheAction::UseLocal);
    assert_eq!(plan_cache(false), CacheAction::Fetch);
}
