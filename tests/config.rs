use tinydnsproxy::block_list::{BlockListFormat, BlockListKind};
use tinydnsproxy::config::{BindDetails, BlockList, BlockLists, Config};

fn config(refresh_after: Option<Option<u64>>) -> Config {
    Config {
        bind: BindDetails { host: "0.0.0.0".to_string(), port: 53 },
        block_lists: refresh_after.map(|r| BlockLists { refresh_after: r }),
        block_list: Vec::new(),
        dns_server: Vec::new(),
    }
}

fn entry(list_type: &str, format: &str, path: Option<&str>, url: Option<&str>) -> BlockList {
    BlockList {
        list_type: list_type.to_string(),
        format: format.to_string(),
        path: path.map(|p| p.to_string()),
        url: url.map(|u| u.to_string()),
    }
}

#[test]
fn reload_interval_needs_a_nonzero_setting() {
    assert_eq!(config(None).reload_interval(), None);
    assert_eq!(config(Some(None)).reload_interval(), None);
    assert_eq!(config(Some(Some(0))).reload_interval(), None);
    assert_eq!(config(Some(Some(30))).reload_interval(), Some(30));
}

#[test]
fn list_format_names() {
    assert_eq!(entry("file", "hosts", None, None).list_format(), Some(BlockListFormat::Hosts));
    assert_eq!(
        entry("file", "one-per-line", None, None).list_format(),
        Some(BlockListFormat::OnePerLine)
    );
    assert_eq!(entry("file", "Hosts", None, None).list_format(), None);
}

#[test]
fn list_source_needs_its_location() {
    let (k, loc) = entry("file", "hosts", Some("/tmp/block.list"), None).source().unwrap();
    assert_eq!(k, BlockListKind::File);
    assert_eq!(loc, "/tmp/block.list");
    let (k, loc) = entry("http", "hosts", None, Some("https://x/l")).source().unwrap();
    assert_eq!(k, BlockListKind::Http);
    assert_eq!(loc, "https://x/l");
    assert!(entry("file", "hosts", None, Some("https://x/l")).source().is_none());
    assert!(entry("http", "hosts", Some("/tmp/a"), None).source().is_none());
    assert!(entry("ftp", "hosts", Some("/tmp/a"), None).source().is_none());
}
