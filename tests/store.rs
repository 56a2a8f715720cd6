use line_server::database::{build_database, get_line, NotFound};
use line_server::lines::split_lines;

fn fetch(text: &str, id: i64) -> Result<String, NotFound> {
    get_line(id, &build_database(text)).map(|l| l.data)
}

#[test]
fn ids_follow_file_order_from_one() {
    let store = build_database("apple\nbanana\ncherry\n");
    assert_eq!(store.len(), 3);
    assert_eq!(get_line(1, &store).unwrap().data, "apple");
    assert_eq!(get_line(2, &store).unwrap().data, "banana");
    assert_eq!(get_line(3, &store).unwrap().data, "cherry");
}

#[test]
fn ids_outside_the_range_are_not_found() {
    let text = "apple\nbanana\ncherry";
    assert_eq!(fetch(text, 0), Err(NotFound));
    assert_eq!(fetch(text, 4), Err(NotFound));
    assert_eq!(fetch(text, -1), Err(NotFound));
    assert_eq!(fetch(text, i64::MAX), Err(NotFound));
    assert_eq!(fetch(text, i64::MIN), Err(NotFound));
}

#[test]
fn empty_text_has_no_lines() {
    let store = build_database("");
    assert_eq!(store.len(), 0);
    assert!(get_line(1, &store).is_err());
}

#[test]
fn line_text_is_kept_exactly() {
    assert_eq!(fetch("  two spaces \t\nnext", 1), Ok("  two spaces \t".to_string()));
    assert_eq!(fetch("héllo wörld ✓\n", 1), Ok("héllo wörld ✓".to_string()));
}

#[test]
fn empty_lines_keep_their_ids() {
    let store = build_database("a\n\n\nb\n");
    assert_eq!(store.len(), 4);
    assert_eq!(get_line(2, &store).unwrap().data, "");
    assert_eq!(get_line(3, &store).unwrap().data, "");
    assert_eq!(get_line(4, &store).unwrap().data, "b");
}

#[test]
fn split_lines_matches_std_lines() {
    let cases = [
        "",
        "\n",
        "a",
        "a\n",
        "a\r\nb\r\n",
        "a\rb\n",
        "x\r",
        "\r\n\r\n",
        "one\ntwo\n\nthree",
        "tail\n\n",
    ];
    for text in cases {
        let want: Vec<String> = text.lines().map(|s| s.to_string()).collect();
        assert_eq!(split_lines(text), want, "text {:?}", text);
    }
}

#[test]
fn crlf_line_endings_are_removed() {
    let store = build_database("first\r\nsecond\r\n");
    assert_eq!(store.len(), 2);
    assert_eq!(get_line(1, &store).unwrap().data, "first");
    assert_eq!(get_line(2, &store).unwrap().data, "second");
}

#[test]
fn text_of_borrows_the_line() {
    let store = build_database("alpha\nbeta");
    assert_eq!(store.text_of(2).map(|s| s.as_str()), Some("beta"));
    assert_eq!(store.text_of(3), None);
}
