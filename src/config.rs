//! The proxy's configuration, as the configuration file lays it out.

use vstd::prelude::*;
use crate::block_list::{BlockListFormat, BlockListKind};

verus! {

/// When block lists are fetched again.
#[derive(Clone, Debug)]
pub struct BlockLists {
    /// Minutes between reloads; absent or 0 for none.
    pub refresh_after: Option<u64>,
}

/// One block-list source.
#[derive(Clone, Debug)]
pub struct BlockList {
    /// `"file"` or `"http"`.
    pub list_type: String,
    /// `"hosts"` or `"one-per-line"`.
    pub format: String,
    pub path: Option<String>,
    pub url: Option<String>,
}

/// Where the proxy listens for queries.
#[derive(Clone, Debug)]
pub struct BindDetails {
    pub host: String,
    pub port: u16,
}

/// An upstream DNS-over-TLS resolver.
#[derive(Clone, Debug)]
pub struct DnsServer {
    pub ip_address: String,
    pub port: u16,
    /// The name its certificate must carry.
    pub hostname: String,
}

#[derive(Clone, Debug)]
pub struct Config {
    pub bind: BindDetails,
    pub block_lists: Option<BlockLists>,
    pub block_list: Vec<BlockList>,
    pub dns_server: Vec<DnsServer>,
}

/// Whether a string reads exactly `lit`.
fn text_is(s: &String, lit: &str) -> (r: bool)
    ensures
        r == (s@ == lit@),
{
    let expected = lit.to_owned();
    *s == expected
}

/// The minutes between reloads, where reloads are configured.
pub open spec fn reload_minutes(c: Config) -> Option<u64> {
    match c.block_lists {
        Some(bl) => match bl.refresh_after {
            Some(m) => if m > 0 {
                Some(m)
            } else {
                None
            },
            None => None,
        },
        None => None,
    }
}

impl Config {
    /// The minutes between reloads of the block lists; `None` where no
    /// periodic reload is configured (absent, or 0).
    pub fn reload_interval(&self) -> (r: Option<u64>)
        ensures
            r == reload_minutes(*self),
    {
        match &self.block_lists {
            Some(bl) => match bl.refresh_after {
                Some(m) => if m > 0 {
                    Some(m)
                } else {
                    None
                },
                None => None,
            },
            None => None,
        }
    }
}

impl BlockList {
    /// The layout that the `format` setting names, if it names one.
    pub fn list_format(&self) -> (r: Option<BlockListFormat>)
        ensures
            r == (if self.format@ == "hosts"@ {
                Some(BlockListFormat::Hosts)
            } else if self.format@ == "one-per-line"@ {
                Some(BlockListFormat::OnePerLine)
            } else {
                None
            }),
    {
        if text_is(&self.format, "hosts") {
            Some(BlockListFormat::Hosts)
        } else if text_is(&self.format, "one-per-line") {
            Some(BlockListFormat::OnePerLine)
        } else {
            None
        }
    }

    /// Where the list is read from: a file with its path, or a URL; `None`
    /// where the type is unknown or its location is missing.
    pub fn source(&self) -> (r: Option<(BlockListKind, String)>)
        ensures
            r == (if self.list_type@ == "file"@ {
                match self.path {
                    Some(p) => Some((BlockListKind::File, p)),
                    None => None,
                }
            } else if self.list_type@ == "http"@ {
                match self.url {
                    Some(u) => Some((BlockListKind::Http, u)),
                    None => None,
                }
            } else {
                None
            }),
    {
        if text_is(&self.list_type, "file") {
            match &self.path {
                Some(p) => Some((BlockListKind::File, p.clone())),
                None => None,
            }
        } else if text_is(&self.list_type, "http") {
            match &self.url {
                Some(u) => Some((BlockListKind::Http, u.clone())),
                None => None,
            }
        } else {
            None
        }
    }
}

} // verus!
