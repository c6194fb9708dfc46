use chat_gateway::files::LocalFileHandler;

#[test]
fn handler_keeps_its_folder() {
    let handler = LocalFileHandler::new("/srv/uploads".to_string());
    assert_eq!(handler.storage_folder(), "/srv/uploads");
}

#[test]
fn stamped_name_is_time_hyphen_name() {
    assert_eq!(LocalFileHandler::stamped(0, "a.txt"), "0-a.txt");
    assert_eq!(LocalFileHandler::stamped(9, ""), "9-");
    assert_eq!(LocalFileHandler::stamped(10, "x"), "10-x");
    assert_eq!(LocalFileHandler::stamped(1_700_000_000_123, "cat.png"), "1700000000123-cat.png");
    assert_eq!(
        LocalFileHandler::stamped(u128::MAX, "m"),
        "340282366920938463463374607431768211455-m"
    );
}

#[test]
fn stored_name_holds_no_separator() {
    let handler = LocalFileHandler::new("/srv/uploads".to_string());
    assert_eq!(handler.store_file(17, "cat.png"), "17-cat.png");
    assert_eq!(handler.store_file(17, "../../etc/passwd"), "17-....etcpasswd");
    assert_eq!(handler.store_file(17, "a/b\\c:d*e?f\"g<h>i|j"), "17-abcdefghij");
    assert_eq!(handler.store_file(17, ""), "17-");
    assert_eq!(handler.store_file(17, ".."), "17-");
    for name in ["/", "//x//", "c:\\windows\\system32", "a\u{0}b/\u{1f}"] {
        let stored = handler.store_file(5, name);
        assert!(stored.starts_with("5-"));
        assert!(!stored.contains('/'));
        assert!(!stored.contains('\\'));
        assert!(!stored.contains(':'));
    }
}

#[test]
fn stored_name_is_cut_and_keeps_the_order_of_what_is_left() {
    let handler = LocalFileHandler::new("/srv/uploads".to_string());
    let long = "x".repeat(400);
    let stored = handler.store_file(1, &long);
    assert_eq!(stored, format!("1-{}", "x".repeat(255)));
    assert_eq!(handler.store_file(1, "a?b*c"), "1-abc");
    assert_eq!(handler.store_file(1, "c/b/a"), "1-cba");
}
