//! The error types of each part of the proxy.

use vstd::prelude::*;
use vstd::string::StringExecFns;

verus! {

/// Why a block list could not be loaded.
#[derive(Debug)]
pub enum BlockListErrorKind {
    /// Reading the source failed; the text says how.
    Io(String),
    /// The HTTP transfer failed; the text says how.
    Curl(String),
    /// The server answered with a status other than 200.
    HttpNotOk,
    /// The source held no usable entry.
    NoEntries,
}

#[derive(Debug)]
pub struct BlockListError {
    pub kind: BlockListErrorKind,
}

impl BlockListError {
    pub fn new(kind: BlockListErrorKind) -> (r: Self)
        ensures
            r.kind == kind,
    {
        BlockListError { kind }
    }

    pub fn no_entries() -> (r: Self)
        ensures
            r.kind is NoEntries,
    {
        BlockListError::new(BlockListErrorKind::NoEntries)
    }

    pub fn http_not_ok() -> (r: Self)
        ensures
            r.kind is HttpNotOk,
    {
        BlockListError::new(BlockListErrorKind::HttpNotOk)
    }

    /// A sentence that says what went wrong.
    pub fn message(&self) -> (r: String)
        ensures
            r@ == "Block list error: "@ + block_list_reason(self.kind),
    {
        let prefix = "Block list error: ".to_owned();
        match &self.kind {
            BlockListErrorKind::Io(e) => prefix.concat(e.as_str()),
            BlockListErrorKind::Curl(e) => prefix.concat(e.as_str()),
            BlockListErrorKind::HttpNotOk => prefix.concat(
                "Did not received HTTP 200 OK back from server",
            ),
            BlockListErrorKind::NoEntries => prefix.concat("No block list entries"),
        }
    }
}

/// What each kind of block-list error says.
pub open spec fn block_list_reason(kind: BlockListErrorKind) -> Seq<char> {
    match kind {
        BlockListErrorKind::Io(e) => e@,
        BlockListErrorKind::Curl(e) => e@,
        BlockListErrorKind::HttpNotOk => "Did not received HTTP 200 OK back from server"@,
        BlockListErrorKind::NoEntries => "No block list entries"@,
    }
}

/// Why a DNS message could not be read.
#[derive(Debug, Clone, Copy, PartialEq, Eq, Structural)]
pub enum DnsMessageErrorKind {
    /// The message ends inside the header fields that were to be read.
    Io,
    /// The hostname's bytes are not UTF-8.
    StringEncoding,
    /// The message does not hold exactly one question.
    TooManyQuestions,
    /// The question ends before its name does.
    UnexpectedReadLength,
}

#[derive(Debug, Clone, Copy, PartialEq, Eq, Structural)]
pub struct DnsMessageError {
    pub kind: DnsMessageErrorKind,
}

impl DnsMessageError {
    pub fn new(kind: DnsMessageErrorKind) -> (r: Self)
        ensures
            r.kind == kind,
    {
        DnsMessageError { kind }
    }

    pub fn too_many_questions() -> (r: Self)
        ensures
            r.kind == DnsMessageErrorKind::TooManyQuestions,
    {
        let k = DnsMessageErrorKind::TooManyQuestions;
        DnsMessageError::new(k)
    }

    pub fn unexpected_read_length() -> (r: Self)
        ensures
            r.kind == DnsMessageErrorKind::UnexpectedReadLength,
    {
        let k = DnsMessageErrorKind::UnexpectedReadLength;
        DnsMessageError::new(k)
    }

    /// A sentence that says what went wrong.
    pub fn message(&self) -> (r: String)
        ensures
            r@ == "DNS Message Parsing Error: "@ + dns_message_reason(self.kind),
    {
        let prefix = "DNS Message Parsing Error: ".to_owned();
        match self.kind {
            DnsMessageErrorKind::Io => prefix.concat("Message too short for its header"),
            DnsMessageErrorKind::StringEncoding => prefix.concat("Hostname is not valid UTF-8"),
            DnsMessageErrorKind::TooManyQuestions => prefix.concat(
                "Too many DNS questions in request",
            ),
            DnsMessageErrorKind::UnexpectedReadLength => prefix.concat(
                "Read an unexpected amount of data",
            ),
        }
    }
}

/// What each kind of DNS message error says.
pub open spec fn dns_message_reason(kind: DnsMessageErrorKind) -> Seq<char> {
    match kind {
        DnsMessageErrorKind::Io => "Message too short for its header"@,
        DnsMessageErrorKind::StringEncoding => "Hostname is not valid UTF-8"@,
        DnsMessageErrorKind::TooManyQuestions => "Too many DNS questions in request"@,
        DnsMessageErrorKind::UnexpectedReadLength => "Read an unexpected amount of data"@,
    }
}

/// Why a DNS-over-TLS frame could not be built or read.
#[derive(Debug, Clone, Copy, PartialEq, Eq, Structural)]
pub enum TlsMessageErrorKind {
    Io,
    /// The frame is too short, or its declared length differs from what follows.
    ProtocolSizeMismatch,
    /// The payload cannot be framed: it is empty, or longer than two bytes can declare.
    BadInputData,
}

#[derive(Debug, Clone, Copy, PartialEq, Eq, Structural)]
pub struct TlsMessageError {
    pub kind: TlsMessageErrorKind,
}

impl TlsMessageError {
    pub fn new(kind: TlsMessageErrorKind) -> (r: Self)
        ensures
            r.kind == kind,
    {
        TlsMessageError { kind }
    }

    pub fn protocol_size_mismatch() -> (r: Self)
        ensures
            r.kind == TlsMessageErrorKind::ProtocolSizeMismatch,
    {
        let k = TlsMessageErrorKind::ProtocolSizeMismatch;
        TlsMessageError::new(k)
    }

    pub fn bad_input_data() -> (r: Self)
        ensures
            r.kind == TlsMessageErrorKind::BadInputData,
    {
        let k = TlsMessageErrorKind::BadInputData;
        TlsMessageError::new(k)
    }

    /// A sentence that says what went wrong.
    pub fn message(&self) -> (r: String)
        ensures
            r@ == "DNS-over-TLS Message Error: "@ + tls_message_reason(self.kind),
    {
        let prefix = "DNS-over-TLS Message Error: ".to_owned();
        match self.kind {
            TlsMessageErrorKind::Io => prefix.concat("Could not read or write the length prefix"),
            TlsMessageErrorKind::ProtocolSizeMismatch => prefix.concat(
                "Received a message that was a different size to what the protocol said it should be",
            ),
            TlsMessageErrorKind::BadInputData => prefix.concat("Input buffer is incorrect"),
        }
    }
}

/// What each kind of framing error says.
pub open spec fn tls_message_reason(kind: TlsMessageErrorKind) -> Seq<char> {
    match kind {
        TlsMessageErrorKind::Io => "Could not read or write the length prefix"@,
        TlsMessageErrorKind::ProtocolSizeMismatch =>
            "Received a message that was a different size to what the protocol said it should be"@,
        TlsMessageErrorKind::BadInputData => "Input buffer is incorrect"@,
    }
}

/// Why relaying a query upstream failed.
#[derive(Debug)]
pub enum DoTErrorKind {
    /// No upstream server is configured.
    NoAvailableServers,
    /// The TLS session failed; the text says how.
    Tls(String),
    /// The TLS handshake failed; the text says how.
    TlsHandshake(String),
    /// The connection failed or a read or write on it fell short; the text says how.
    Io(String),
    /// The upstream declared an answer longer than the proxy accepts.
    MessageTooLarge,
}

#[derive(Debug)]
pub struct DoTError {
    pub kind: DoTErrorKind,
}

impl DoTError {
    pub fn new(kind: DoTErrorKind) -> (r: Self)
        ensures
            r.kind == kind,
    {
        DoTError { kind }
    }

    pub fn no_available_servers() -> (r: Self)
        ensures
            r.kind is NoAvailableServers,
    {
        DoTError::new(DoTErrorKind::NoAvailableServers)
    }

    pub fn message_too_large() -> (r: Self)
        ensures
            r.kind is MessageTooLarge,
    {
        DoTError::new(DoTErrorKind::MessageTooLarge)
    }

    /// A sentence that says what went wrong.
    pub fn message(&self) -> (r: String)
        ensures
            r@ == "DoT Error: "@ + dot_reason(self.kind),
    {
        let prefix = "DoT Error: ".to_owned();
        match &self.kind {
            DoTErrorKind::NoAvailableServers => prefix.concat("No upstream servers configured"),
            DoTErrorKind::Tls(e) => prefix.concat(e.as_str()),
            DoTErrorKind::TlsHandshake(e) => prefix.concat(e.as_str()),
            DoTErrorKind::Io(e) => prefix.concat(e.as_str()),
            DoTErrorKind::MessageTooLarge => prefix.concat("Upstream answer is too large"),
        }
    }
}

/// What each kind of relay error says.
pub open spec fn dot_reason(kind: DoTErrorKind) -> Seq<char> {
    match kind {
        DoTErrorKind::NoAvailableServers => "No upstream servers configured"@,
        DoTErrorKind::Tls(e) => e@,
        DoTErrorKind::TlsHandshake(e) => e@,
        DoTErrorKind::Io(e) => e@,
        DoTErrorKind::MessageTooLarge => "Upstream answer is too large"@,
    }
}

} // verus!
