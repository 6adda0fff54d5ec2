//! Interaction logs: the decrypted text of one probe, either kept raw or read
//! as a structured record keyed on its `protocol` member. A record is produced
//! only when every member its protocol requires is present and well formed;
//! otherwise the raw text is kept. Reading never fails.

use serde_json::Value;
use vstd::prelude::*;

use crate::ip_address::{ip_of, IpAddress, IpAddressView};
use crate::text::text_eq;

verus! {

/// The members of the JSON object that a text holds, in key order, each as
/// its key, its text where it is a string, and whether it is null; `None`
/// where the text is not a JSON object.
pub uninterp spec fn json_object_members(text: Seq<char>) -> Option<Seq<(Seq<char>, Option<Seq<char>>, bool)>>;

/// The instant that an RFC 3339 date-time stands for, as nanoseconds since
/// the Unix epoch and the offset from UTC in seconds.
pub uninterp spec fn rfc3339_instant(text: Seq<char>) -> Option<(int, int)>;

/// Relies on `serde_json::from_str` into a `serde_json::Map<String, Value>`:
/// the object's members, each with its string value or whether it is null.
#[verifier::external_body]
fn parse_json_object(text: &str) -> (r: Option<Vec<(String, Option<String>, bool)>>)
    ensures
        match r {
            Some(ms) => json_object_members(text@) == Some(ms.deep_view()),
            None => json_object_members(text@) is None,
        },
{
    let map = serde_json::from_str::<serde_json::Map<String, Value>>(text).ok()?;
    Some(map.into_iter().map(|(k, v)| match v {
        Value::String(s) => (k, Some(s), false),
        Value::Null => (k, None, true),
        Value::Bool(_) => (k, None, false),
        Value::Number(_) => (k, None, false),
        Value::Array(_) => (k, None, false),
        Value::Object(_) => (k, None, false),
    }).collect())
}

/// Relies on `time::OffsetDateTime::parse` with the `Rfc3339` format, read
/// back through `unix_timestamp_nanos` and `offset().whole_seconds()`.
#[verifier::external_body]
fn parse_rfc3339(text: &str) -> (r: Option<Timestamp>)
    ensures
        match r {
            Some(t) => rfc3339_instant(text@) == Some(t@),
            None => rfc3339_instant(text@) is None,
        },
{
    let t = time::OffsetDateTime::parse(text, &time::format_description::well_known::Rfc3339).ok()?;
    Some(Timestamp { unix_timestamp_nanos: t.unix_timestamp_nanos(), offset_seconds: t.offset().whole_seconds() })
}

/// An instant with the UTC offset it was written in.
#[derive(Debug, Clone, Copy, PartialEq, Eq, Structural)]
pub struct Timestamp {
    /// Nanoseconds since 1970-01-01T00:00:00Z.
    pub unix_timestamp_nanos: i128,
    /// Offset from UTC, in seconds.
    pub offset_seconds: i32,
}

impl View for Timestamp {
    type V = (int, int);

    open spec fn view(&self) -> (int, int) {
        (self.unix_timestamp_nanos as int, self.offset_seconds as int)
    }
}

/// DNS query types.
#[derive(Debug, Clone, Copy, PartialEq, Eq, Structural)]
pub enum DnsQType {
    A,
    NS,
    CNAME,
    SOA,
    PTR,
    MX,
    TXT,
    AAAA,
}

pub open spec fn qtype_name(q: DnsQType) -> Seq<char> {
    match q {
        DnsQType::A => "A"@,
        DnsQType::NS => "NS"@,
        DnsQType::CNAME => "CNAME"@,
        DnsQType::SOA => "SOA"@,
        DnsQType::PTR => "PTR"@,
        DnsQType::MX => "MX"@,
        DnsQType::TXT => "TXT"@,
        DnsQType::AAAA => "AAAA"@,
    }
}

pub open spec fn qtype_of(name: Seq<char>) -> Option<DnsQType> {
    if name == "A"@ {
        Some(DnsQType::A)
    } else if name == "NS"@ {
        Some(DnsQType::NS)
    } else if name == "CNAME"@ {
        Some(DnsQType::CNAME)
    } else if name == "SOA"@ {
        Some(DnsQType::SOA)
    } else if name == "PTR"@ {
        Some(DnsQType::PTR)
    } else if name == "MX"@ {
        Some(DnsQType::MX)
    } else if name == "TXT"@ {
        Some(DnsQType::TXT)
    } else if name == "AAAA"@ {
        Some(DnsQType::AAAA)
    } else {
        None
    }
}

impl DnsQType {
    /// The query type's name.
    pub fn to_string(&self) -> (r: String)
        ensures
            r@ == qtype_name(*self),
    {
        match self {
            DnsQType::A => String::from_str("A"),
            DnsQType::NS => String::from_str("NS"),
            DnsQType::CNAME => String::from_str("CNAME"),
            DnsQType::SOA => String::from_str("SOA"),
            DnsQType::PTR => String::from_str("PTR"),
            DnsQType::MX => String::from_str("MX"),
            DnsQType::TXT => String::from_str("TXT"),
            DnsQType::AAAA => String::from_str("AAAA"),
        }
    }

    /// The query type of a name, written exactly as `to_string` writes it.
    pub fn from_name(name: &str) -> (r: Option<DnsQType>)
        ensures
            r == qtype_of(name@),
    {
        if text_eq(name, "A") {
            Some(DnsQType::A)
        } else if text_eq(name, "NS") {
            Some(DnsQType::NS)
        } else if text_eq(name, "CNAME") {
            Some(DnsQType::CNAME)
        } else if text_eq(name, "SOA") {
            Some(DnsQType::SOA)
        } else if text_eq(name, "PTR") {
            Some(DnsQType::PTR)
        } else if text_eq(name, "MX") {
            Some(DnsQType::MX)
        } else if text_eq(name, "TXT") {
            Some(DnsQType::TXT)
        } else if text_eq(name, "AAAA") {
            Some(DnsQType::AAAA)
        } else {
            None
        }
    }
}

/// What a JSON object holds under a key.
pub enum FieldView {
    Missing,
    Null,
    Text(Seq<char>),
    Other,
}

pub open spec fn field_of_member(m: (Seq<char>, Option<Seq<char>>, bool)) -> FieldView {
    match m.1 {
        Some(t) => FieldView::Text(t),
        None => if m.2 {
            FieldView::Null
        } else {
            FieldView::Other
        },
    }
}

/// The value of the first member named `key`.
pub open spec fn member_field(ms: Seq<(Seq<char>, Option<Seq<char>>, bool)>, key: Seq<char>) -> FieldView
    decreases ms.len(),
{
    if ms.len() == 0 {
        FieldView::Missing
    } else if ms[0].0 == key {
        field_of_member(ms[0])
    } else {
        member_field(ms.drop_first(), key)
    }
}

/// The string under `key`, if it is a string.
pub open spec fn text_field(ms: Seq<(Seq<char>, Option<Seq<char>>, bool)>, key: Seq<char>) -> Option<Seq<char>> {
    match member_field(ms, key) {
        FieldView::Text(t) => Some(t),
        _ => None,
    }
}

/// The address under `key`, if it is a string holding one.
pub open spec fn ip_field(ms: Seq<(Seq<char>, Option<Seq<char>>, bool)>, key: Seq<char>) -> Option<IpAddressView> {
    match text_field(ms, key) {
        Some(t) => ip_of(t),
        None => None,
    }
}

/// The instant under `timestamp`, if it is an RFC 3339 string.
pub open spec fn time_field(ms: Seq<(Seq<char>, Option<Seq<char>>, bool)>) -> Option<(int, int)> {
    match text_field(ms, "timestamp"@) {
        Some(t) => rfc3339_instant(t),
        None => None,
    }
}

/// The optional query type: absent and null give `Some(None)`, a known name
/// gives `Some(Some(q))`, anything else is malformed (`None`).
pub open spec fn qtype_field(ms: Seq<(Seq<char>, Option<Seq<char>>, bool)>) -> Option<Option<DnsQType>> {
    match member_field(ms, "q-type"@) {
        FieldView::Missing => Some(None),
        FieldView::Null => Some(None),
        FieldView::Text(t) => match qtype_of(t) {
            Some(q) => Some(Some(q)),
            None => None,
        },
        FieldView::Other => None,
    }
}

/// A structured interaction record.
#[derive(Debug, Clone, PartialEq, Eq)]
pub enum ParsedLogEntry {
    Dns {
        unique_id: String,
        full_id: String,
        q_type: Option<DnsQType>,
        raw_request: String,
        raw_response: String,
        remote_address: IpAddress,
        timestamp: Timestamp,
    },
    Ftp { remote_address: IpAddress, raw_request: String, timestamp: Timestamp },
    Http {
        unique_id: String,
        full_id: String,
        raw_request: String,
        raw_response: String,
        remote_address: IpAddress,
        timestamp: Timestamp,
    },
    Ldap {
        unique_id: String,
        full_id: String,
        raw_request: String,
        raw_response: String,
        remote_address: IpAddress,
        timestamp: Timestamp,
    },
    Smb { raw_request: String, timestamp: Timestamp },
    Smtp {
        unique_id: String,
        full_id: String,
        raw_request: String,
        smtp_from: String,
        remote_address: IpAddress,
        timestamp: Timestamp,
    },
}

/// A structured record, with texts as character sequences.
pub enum ParsedLogView {
    Dns {
        unique_id: Seq<char>,
        full_id: Seq<char>,
        q_type: Option<DnsQType>,
        raw_request: Seq<char>,
        raw_response: Seq<char>,
        remote_address: IpAddressView,
        timestamp: (int, int),
    },
    Ftp { remote_address: IpAddressView, raw_request: Seq<char>, timestamp: (int, int) },
    Http {
        unique_id: Seq<char>,
        full_id: Seq<char>,
        raw_request: Seq<char>,
        raw_response: Seq<char>,
        remote_address: IpAddressView,
        timestamp: (int, int),
    },
    Ldap {
        unique_id: Seq<char>,
        full_id: Seq<char>,
        raw_request: Seq<char>,
        raw_response: Seq<char>,
        remote_address: IpAddressView,
        timestamp: (int, int),
    },
    Smb { raw_request: Seq<char>, timestamp: (int, int) },
    Smtp {
        unique_id: Seq<char>,
        full_id: Seq<char>,
        raw_request: Seq<char>,
        smtp_from: Seq<char>,
        remote_address: IpAddressView,
        timestamp: (int, int),
    },
}

impl View for ParsedLogEntry {
    type V = ParsedLogView;

    open spec fn view(&self) -> ParsedLogView {
        match self {
            ParsedLogEntry::Dns {
                unique_id,
                full_id,
                q_type,
                raw_request,
                raw_response,
                remote_address,
                timestamp,
            } => ParsedLogView::Dns {
                unique_id: unique_id@,
                full_id: full_id@,
                q_type: *q_type,
                raw_request: raw_request@,
                raw_response: raw_response@,
                remote_address: remote_address@,
                timestamp: timestamp@,
            },
            ParsedLogEntry::Ftp { remote_address, raw_request, timestamp } => ParsedLogView::Ftp {
                remote_address: remote_address@,
                raw_request: raw_request@,
                timestamp: timestamp@,
            },
            ParsedLogEntry::Http {
                unique_id,
                full_id,
                raw_request,
                raw_response,
                remote_address,
                timestamp,
            } => ParsedLogView::Http {
                unique_id: unique_id@,
                full_id: full_id@,
                raw_request: raw_request@,
                raw_response: raw_response@,
                remote_address: remote_address@,
                timestamp: timestamp@,
            },
            ParsedLogEntry::Ldap {
                unique_id,
                full_id,
                raw_request,
                raw_response,
                remote_address,
                timestamp,
            } => ParsedLogView::Ldap {
                unique_id: unique_id@,
                full_id: full_id@,
                raw_request: raw_request@,
                raw_response: raw_response@,
                remote_address: remote_address@,
                timestamp: timestamp@,
            },
            ParsedLogEntry::Smb { raw_request, timestamp } => ParsedLogView::Smb {
                raw_request: raw_request@,
                timestamp: timestamp@,
            },
            ParsedLogEntry::Smtp {
                unique_id,
                full_id,
                raw_request,
                smtp_from,
                remote_address,
                timestamp,
            } => ParsedLogView::Smtp {
                unique_id: unique_id@,
                full_id: full_id@,
                raw_request: raw_request@,
                smtp_from: smtp_from@,
                remote_address: remote_address@,
                timestamp: timestamp@,
            },
        }
    }
}

/// The record for the members of a JSON object: the `protocol` member names
/// the kind (`dns`, `ftp`, `http`, `ldap`, `smb` or `smtp`, in lower case),
/// and every member that kind requires must be
/// present and well formed.
pub open spec fn parsed_log_of(ms: Seq<(Seq<char>, Option<Seq<char>>, bool)>) -> Option<ParsedLogView> {
    let unique_id = text_field(ms, "unique-id"@);
    let full_id = text_field(ms, "full-id"@);
    let raw_request = text_field(ms, "raw-request"@);
    let raw_response = text_field(ms, "raw-response"@);
    let smtp_from = text_field(ms, "smtp-from"@);
    let remote_address = ip_field(ms, "remote-address"@);
    let timestamp = time_field(ms);
    let q_type = qtype_field(ms);
    match text_field(ms, "protocol"@) {
        None => None,
        Some(tag) => if tag == "dns"@ {
            if unique_id is Some && full_id is Some && q_type is Some && raw_request is Some
                && raw_response is Some && remote_address is Some && timestamp is Some {
                Some(
                    ParsedLogView::Dns {
                        unique_id: unique_id->0,
                        full_id: full_id->0,
                        q_type: q_type->0,
                        raw_request: raw_request->0,
                        raw_response: raw_response->0,
                        remote_address: remote_address->0,
                        timestamp: timestamp->0,
                    },
                )
            } else {
                None
            }
        } else if tag == "ftp"@ {
            if remote_address is Some && raw_request is Some && timestamp is Some {
                Some(
                    ParsedLogView::Ftp {
                        remote_address: remote_address->0,
                        raw_request: raw_request->0,
                        timestamp: timestamp->0,
                    },
                )
            } else {
                None
            }
        } else if tag == "http"@ || tag == "ldap"@ {
            if unique_id is Some && full_id is Some && raw_request is Some && raw_response is Some
                && remote_address is Some && timestamp is Some {
                if tag == "http"@ {
                    Some(
                        ParsedLogView::Http {
                            unique_id: unique_id->0,
                            full_id: full_id->0,
                            raw_request: raw_request->0,
                            raw_response: raw_response->0,
                            remote_address: remote_address->0,
                            timestamp: timestamp->0,
                        },
                    )
                } else {
                    Some(
                        ParsedLogView::Ldap {
                            unique_id: unique_id->0,
                            full_id: full_id->0,
                            raw_request: raw_request->0,
                            raw_response: raw_response->0,
                            remote_address: remote_address->0,
                            timestamp: timestamp->0,
                        },
                    )
                }
            } else {
                None
            }
        } else if tag == "smb"@ {
            if raw_request is Some && timestamp is Some {
                Some(ParsedLogView::Smb { raw_request: raw_request->0, timestamp: timestamp->0 })
            } else {
                None
            }
        } else if tag == "smtp"@ {
            if unique_id is Some && full_id is Some && raw_request is Some && smtp_from is Some
                && remote_address is Some && timestamp is Some {
                Some(
                    ParsedLogView::Smtp {
                        unique_id: unique_id->0,
                        full_id: full_id->0,
                        raw_request: raw_request->0,
                        smtp_from: smtp_from->0,
                        remote_address: remote_address->0,
                        timestamp: timestamp->0,
                    },
                )
            } else {
                None
            }
        } else {
            None
        },
    }
}

/// Position of the first member named `key`, if any.
fn find_member(ms: &Vec<(String, Option<String>, bool)>, key: &str) -> (r: Option<usize>)
    ensures
        match r {
            Some(i) => i < ms.len() && member_field(ms.deep_view(), key@) == field_of_member(
                ms.deep_view()[i as int],
            ),
            None => member_field(ms.deep_view(), key@) is Missing,
        },
{
    let ghost dv = ms.deep_view();
    let mut i: usize = 0;
    assert(dv.skip(0) =~= dv);
    while i < ms.len()
        invariant
            i <= ms.len() == dv.len(),
            dv == ms.deep_view(),
            member_field(dv, key@) == member_field(dv.skip(i as int), key@),
        decreases ms.len() - i,
    {
        assert(dv[i as int].0 == ms@[i as int].0@);
        if text_eq(ms[i].0.as_str(), key) {
            return Some(i);
        }
        assert(dv.skip(i as int).drop_first() =~= dv.skip(i + 1));
        i = i + 1;
    }
    None
}

/// The string under `key`, if it is a string.
fn text_member(ms: &Vec<(String, Option<String>, bool)>, key: &str) -> (r: Option<String>)
    ensures
        match r {
            Some(t) => text_field(ms.deep_view(), key@) == Some(t@),
            None => text_field(ms.deep_view(), key@) is None,
        },
{
    match find_member(ms, key) {
        Some(i) => {
            assert(ms.deep_view()[i as int].1 == ms@[i as int].1.deep_view());
            match &ms[i].1 {
                Some(t) => Some(t.clone()),
                None => None,
            }
        },
        None => None,
    }
}

fn ip_member(ms: &Vec<(String, Option<String>, bool)>, key: &str) -> (r: Option<IpAddress>)
    ensures
        match r {
            Some(a) => ip_field(ms.deep_view(), key@) == Some(a@),
            None => ip_field(ms.deep_view(), key@) is None,
        },
{
    match text_member(ms, key) {
        Some(t) => IpAddress::parse(t.as_str()),
        None => None,
    }
}

fn time_member(ms: &Vec<(String, Option<String>, bool)>) -> (r: Option<Timestamp>)
    ensures
        match r {
            Some(t) => time_field(ms.deep_view()) == Some(t@),
            None => time_field(ms.deep_view()) is None,
        },
{
    match text_member(ms, "timestamp") {
        Some(t) => parse_rfc3339(t.as_str()),
        None => None,
    }
}

fn qtype_member(ms: &Vec<(String, Option<String>, bool)>) -> (r: Option<Option<DnsQType>>)
    ensures
        r == qtype_field(ms.deep_view()),
{
    match find_member(ms, "q-type") {
        None => Some(None),
        Some(i) => {
            assert(ms.deep_view()[i as int].1 == ms@[i as int].1.deep_view());
            assert(ms.deep_view()[i as int].2 == ms@[i as int].2);
            match &ms[i].1 {
                Some(t) => match DnsQType::from_name(t.as_str()) {
                    Some(q) => Some(Some(q)),
                    None => None,
                },
                None => if ms[i].2 {
                    Some(None)
                } else {
                    None
                },
            }
        },
    }
}

impl ParsedLogEntry {
    /// The record that the members of a JSON object describe, if they
    /// describe one.
    pub fn from_members(ms: &Vec<(String, Option<String>, bool)>) -> (r: Option<ParsedLogEntry>)
        ensures
            match r {
                Some(e) => parsed_log_of(ms.deep_view()) == Some(e@),
                None => parsed_log_of(ms.deep_view()) is None,
            },
    {
        let tag = match text_member(ms, "protocol") {
            Some(t) => t,
            None => return None,
        };
        let unique_id = text_member(ms, "unique-id");
        let full_id = text_member(ms, "full-id");
        let raw_request = text_member(ms, "raw-request");
        let raw_response = text_member(ms, "raw-response");
        let smtp_from = text_member(ms, "smtp-from");
        let remote_address = ip_member(ms, "remote-address");
        let timestamp = time_member(ms);
        let q_type = qtype_member(ms);
        let tag = tag.as_str();
        if text_eq(tag, "dns") {
            match (unique_id, full_id, q_type, raw_request, raw_response, remote_address, timestamp) {
                (Some(a), Some(b), Some(q), Some(c), Some(d), Some(e), Some(f)) => Some(
                    ParsedLogEntry::Dns {
                        unique_id: a,
                        full_id: b,
                        q_type: q,
                        raw_request: c,
                        raw_response: d,
                        remote_address: e,
                        timestamp: f,
                    },
                ),
                _ => None,
            }
        } else if text_eq(tag, "ftp") {
            match (remote_address, raw_request, timestamp) {
                (Some(e), Some(c), Some(f)) => Some(
                    ParsedLogEntry::Ftp { remote_address: e, raw_request: c, timestamp: f },
                ),
                _ => None,
            }
        } else if text_eq(tag, "http") {
            match (unique_id, full_id, raw_request, raw_response, remote_address, timestamp) {
                (Some(a), Some(b), Some(c), Some(d), Some(e), Some(f)) => Some(
                    ParsedLogEntry::Http {
                        unique_id: a,
                        full_id: b,
                        raw_request: c,
                        raw_response: d,
                        remote_address: e,
                        timestamp: f,
                    },
                ),
                _ => None,
            }
        } else if text_eq(tag, "ldap") {
            match (unique_id, full_id, raw_request, raw_response, remote_address, timestamp) {
                (Some(a), Some(b), Some(c), Some(d), Some(e), Some(f)) => Some(
                    ParsedLogEntry::Ldap {
                        unique_id: a,
                        full_id: b,
                        raw_request: c,
                        raw_response: d,
                        remote_address: e,
                        timestamp: f,
                    },
                ),
                _ => None,
            }
        } else if text_eq(tag, "smb") {
            match (raw_request, timestamp) {
                (Some(c), Some(f)) => Some(ParsedLogEntry::Smb { raw_request: c, timestamp: f }),
                _ => None,
            }
        } else if text_eq(tag, "smtp") {
            match (unique_id, full_id, raw_request, smtp_from, remote_address, timestamp) {
                (Some(a), Some(b), Some(c), Some(d), Some(e), Some(f)) => Some(
                    ParsedLogEntry::Smtp {
                        unique_id: a,
                        full_id: b,
                        raw_request: c,
                        smtp_from: d,
                        remote_address: e,
                        timestamp: f,
                    },
                ),
                _ => None,
            }
        } else {
            None
        }
    }
}

/// The decrypted text of one interaction, kept as it came.
#[derive(Debug, Clone, PartialEq, Eq)]
pub struct RawLog {
    pub log_entry: String,
}

/// One interaction log, structured where possible.
#[derive(Debug, Clone, PartialEq, Eq)]
pub enum LogEntry {
    ParsedLog(ParsedLogEntry),
    RawLog(RawLog),
}

pub enum LogEntryView {
    Parsed(ParsedLogView),
    Raw(Seq<char>),
}

impl View for LogEntry {
    type V = LogEntryView;

    open spec fn view(&self) -> LogEntryView {
        match self {
            LogEntry::ParsedLog(p) => LogEntryView::Parsed(p@),
            LogEntry::RawLog(r) => LogEntryView::Raw(r.log_entry@),
        }
    }
}

/// The entry for a text whose JSON members, if it holds an object, are
/// `members`: the record they describe, else the raw text.
pub open spec fn entry_from_members(
    text: Seq<char>,
    members: Option<Seq<(Seq<char>, Option<Seq<char>>, bool)>>,
) -> LogEntryView {
    match members {
        Some(ms) => match parsed_log_of(ms) {
            Some(p) => LogEntryView::Parsed(p),
            None => LogEntryView::Raw(text),
        },
        None => LogEntryView::Raw(text),
    }
}

/// The entry for a decrypted text: with parsing, the record it describes if
/// it is a JSON object describing one; otherwise, the raw text.
pub open spec fn log_entry_of(text: Seq<char>, parse_logs: bool) -> LogEntryView {
    if parse_logs {
        entry_from_members(text, json_object_members(text))
    } else {
        LogEntryView::Raw(text)
    }
}

impl LogEntry {
    /// Keeps the text as a raw log.
    pub fn return_raw_log(raw_log_str: &str) -> (r: LogEntry)
        ensures
            r@ == LogEntryView::Raw(raw_log_str@),
    {
        LogEntry::RawLog(RawLog { log_entry: String::from_str(raw_log_str) })
    }

    /// The entry for a text given the members of the JSON object it holds, if
    /// it holds one.
    pub fn from_json_members(raw_log_str: &str, members: Option<Vec<(String, Option<String>, bool)>>) -> (r: LogEntry)
        ensures
            r@ == entry_from_members(raw_log_str@, members.deep_view()),
    {
        match members {
            Some(ms) => match ParsedLogEntry::from_members(&ms) {
                Some(p) => LogEntry::ParsedLog(p),
                None => LogEntry::return_raw_log(raw_log_str),
            },
            None => LogEntry::return_raw_log(raw_log_str),
        }
    }

    /// Reads the text as a structured record, falling back to a raw log.
    pub fn try_parse_log(raw_log_str: &str) -> (r: LogEntry)
        ensures
            r@ == log_entry_of(raw_log_str@, true),
    {
        let members = parse_json_object(raw_log_str);
        LogEntry::from_json_members(raw_log_str, members)
    }

    /// The entry for a decrypted text, read as a record only where
    /// `parse_logs` holds.
    pub fn new_log_entry(raw_log_str: &str, parse_logs: bool) -> (r: LogEntry)
        ensures
            r@ == log_entry_of(raw_log_str@, parse_logs),
    {
        if parse_logs {
            LogEntry::try_parse_log(raw_log_str)
        } else {
            LogEntry::return_raw_log(raw_log_str)
        }
    }
}

/// Reading a text never fails: a text that is not a JSON object, or whose
/// members describe no record, is kept as a raw log.
pub proof fn lemma_unreadable_text_stays_raw(text: Seq<char>, parse_logs: bool)
    requires
        json_object_members(text) is None || parsed_log_of(json_object_members(text)->0) is None,
    ensures
        log_entry_of(text, parse_logs) == LogEntryView::Raw(text),
{
}

} // verus!
