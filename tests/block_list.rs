use tinydnsproxy::block_list::{
    extract_hostname, http_contents, parse_entries, process_line, strip_comments,
    BlockListFormat, BlockListKind, BlockLists,
};
use tinydnsproxy::error::{BlockListError, BlockListErrorKind};

#[test]
fn strip_comments_works() {
    let line1 = "# A comment here".to_string();
    let line2 = "Something here # but now a comment".to_string();
    let line2_correct = "Something here".to_string();

    let line1_res = strip_comments(&line1);
    assert!(line1_res.is_none());

    let line2_res = strip_comments(&line2).unwrap();
    assert_eq!(line2_correct, line2_res);
}

#[test]
fn extract_hostname_works() {
    let line1 = "127.0.0.1 google.com".to_string();
    let line1_correct = "google.com".to_string();
    let line2 = "8.8.8.8 dns.google".to_string();
    let line2_correct = "dns.google".to_string();
    let line3 = "".to_string();

    let res1 = extract_hostname(&line1).unwrap();
    let res2 = extract_hostname(&line2).unwrap();
    let res3 = extract_hostname(&line3);

    assert_eq!(res1, line1_correct);
    assert_eq!(res2, line2_correct);
    assert!(res3.is_none());
}

#[test]
fn hash_inside_a_word_is_not_a_comment() {
    let line = "ads#1.example.com".to_string();
    assert_eq!(strip_comments(&line).unwrap(), "ads#1.example.com");
    let line = "a.com\t\t#tabbed comment".to_string();
    assert_eq!(strip_comments(&line).unwrap(), "a.com");
    let line = "no comment here  ".to_string();
    assert_eq!(strip_comments(&line).unwrap(), "no comment here  ");
}

#[test]
fn hosts_line_with_comment() {
    let line = "1.2.3.4 example.com # comment".to_string();
    assert_eq!(process_line(&line, &BlockListFormat::Hosts).unwrap(), "example.com");
}

#[test]
fn one_per_line_with_comment() {
    let line = "example.com # comment".to_string();
    assert_eq!(process_line(&line, &BlockListFormat::OnePerLine).unwrap(), "example.com");
}

#[test]
fn pure_comment_line_gives_nothing() {
    let line = "# just a comment".to_string();
    assert!(process_line(&line, &BlockListFormat::Hosts).is_none());
    assert!(process_line(&line, &BlockListFormat::OnePerLine).is_none());
    assert!(process_line(&"".to_string(), &BlockListFormat::OnePerLine).is_none());
}

#[test]
fn hosts_line_takes_the_last_field() {
    let line = "0.0.0.0\tads.example.com".to_string();
    assert_eq!(process_line(&line, &BlockListFormat::Hosts).unwrap(), "ads.example.com");
    let line = "solo.example.com".to_string();
    assert_eq!(process_line(&line, &BlockListFormat::Hosts).unwrap(), "solo.example.com");
    let line = "1.2.3.4 trailing.example.com ".to_string();
    assert!(process_line(&line, &BlockListFormat::Hosts).is_none());
}

#[test]
fn parse_entries_splits_lines() {
    let text = b"# header\n1.2.3.4 a.com\r\n\n0.0.0.0 b.com # c\n\xff\xfe bad\n0.0.0.0 c.com";
    let entries = parse_entries(text, &BlockListFormat::Hosts);
    assert_eq!(entries, vec!["a.com".to_string(), "b.com".to_string(), "c.com".to_string()]);
    let entries = parse_entries(b"x.com\ny.com\n", &BlockListFormat::OnePerLine);
    assert_eq!(entries, vec!["x.com".to_string(), "y.com".to_string()]);
    assert!(parse_entries(b"", &BlockListFormat::OnePerLine).is_empty());
}

#[test]
fn add_file_with_no_entries_fails() {
    let mut lists = BlockLists::new();
    let e = lists
        .add_file(&"/lists/empty".to_string(), &BlockListFormat::Hosts, b"# nothing\n\n")
        .unwrap_err();
    assert!(matches!(e.kind, BlockListErrorKind::NoEntries));
    assert!(lists.lists.is_empty());
}

#[test]
fn add_file_records_source() {
    let mut lists = BlockLists::new();
    lists
        .add_file(&"/lists/a".to_string(), &BlockListFormat::OnePerLine, b"a.com\n")
        .unwrap();
    assert_eq!(lists.lists.len(), 1);
    assert!(matches!(lists.lists[0].kind, BlockListKind::File));
    assert_eq!(lists.lists[0].path, Some("/lists/a".to_string()));
    assert_eq!(lists.lists[0].url, None);
    assert_eq!(lists.lists[0].entries, vec!["a.com".to_string()]);
}

#[test]
fn add_http_needs_ok_status() {
    let mut lists = BlockLists::new();
    let url = "http://lists.example/block".to_string();
    let e = lists
        .add_http(&url, &BlockListFormat::OnePerLine, 404, b"a.com\n".to_vec())
        .unwrap_err();
    assert!(matches!(e.kind, BlockListErrorKind::HttpNotOk));
    assert!(lists.lists.is_empty());
    lists.add_http(&url, &BlockListFormat::OnePerLine, 200, b"a.com\n".to_vec()).unwrap();
    assert!(matches!(lists.lists[0].kind, BlockListKind::Http));
    assert_eq!(lists.lists[0].url, Some(url));
    assert!(lists.is_blocked(&"a.com".to_string()));
}

#[test]
fn http_contents_checks_status() {
    assert_eq!(http_contents(200, b"x".to_vec()).unwrap(), b"x".to_vec());
    assert!(matches!(http_contents(500, b"x".to_vec()).unwrap_err().kind, BlockListErrorKind::HttpNotOk));
}

#[test]
fn is_blocked_matches_exactly() {
    let mut lists = BlockLists::new();
    lists
        .add_file(&"/lists/a".to_string(), &BlockListFormat::Hosts, b"0.0.0.0 ads.example.com\n")
        .unwrap();
    assert!(lists.is_blocked(&"ads.example.com".to_string()));
    assert!(!lists.is_blocked(&"ADS.example.com".to_string()));
    assert!(!lists.is_blocked(&"example.com".to_string()));
    assert!(!lists.is_blocked(&"ads.example.com.".to_string()));
    assert!(!BlockLists::new().is_blocked(&"ads.example.com".to_string()));
}

#[test]
fn second_list_blocks_its_entries() {
    let mut lists = BlockLists::new();
    lists.add_file(&"/a".to_string(), &BlockListFormat::OnePerLine, b"one.com\n").unwrap();
    assert!(!lists.is_blocked(&"two.com".to_string()));
    lists.add_file(&"/b".to_string(), &BlockListFormat::OnePerLine, b"two.com\n").unwrap();
    assert!(lists.is_blocked(&"two.com".to_string()));
    assert!(lists.is_blocked(&"one.com".to_string()));
}

fn two_lists() -> BlockLists {
    let mut lists = BlockLists::new();
    lists.add_file(&"/a".to_string(), &BlockListFormat::OnePerLine, b"old-a.com\n").unwrap();
    lists.add_file(&"/b".to_string(), &BlockListFormat::OnePerLine, b"old-b.com\n").unwrap();
    lists
}

#[test]
fn reload_keeps_a_failed_source() {
    let mut lists = two_lists();
    let fetched = vec![
        Ok(b"new-a.com\n".to_vec()),
        Err(BlockListError::new(BlockListErrorKind::Io("gone".to_string()))),
    ];
    assert!(lists.reload_lists(fetched).is_ok());
    assert!(lists.is_blocked(&"new-a.com".to_string()));
    assert!(!lists.is_blocked(&"old-a.com".to_string()));
    assert!(lists.is_blocked(&"old-b.com".to_string()));
    assert_eq!(lists.lists[1].path, Some("/b".to_string()));
}

#[test]
fn reload_keeps_a_source_with_no_entries() {
    let mut lists = two_lists();
    let fetched = vec![Ok(b"# empty now\n".to_vec()), Ok(b"new-b.com\n".to_vec())];
    assert!(lists.reload_lists(fetched).is_ok());
    assert!(lists.is_blocked(&"old-a.com".to_string()));
    assert!(lists.is_blocked(&"new-b.com".to_string()));
    assert!(!lists.is_blocked(&"old-b.com".to_string()));
}

#[test]
fn reload_with_every_source_failing() {
    let mut lists = two_lists();
    let fetched = vec![Err(BlockListError::http_not_ok()), Ok(b"\n".to_vec())];
    let e = lists.reload_lists(fetched).unwrap_err();
    assert!(matches!(e.kind, BlockListErrorKind::NoEntries));
    assert!(lists.is_blocked(&"old-a.com".to_string()));
    assert!(lists.is_blocked(&"old-b.com".to_string()));
    assert_eq!(lists.lists.len(), 2);
}

#[test]
fn reload_of_no_lists_fails() {
    let mut lists = BlockLists::new();
    assert!(lists.reload_lists(Vec::new()).is_err());
}
