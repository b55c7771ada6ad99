//! Routing of domain names to WHOIS servers and extraction of registration
//! data from the free-form text that those servers answer with.
//!
//! The library does no I/O. A query is made in two steps around the exchange
//! with the server: `domain` says which server to ask and what to send, and
//! `conclude` reads what came back.

use vstd::prelude::*;
use vstd::string::StringExecFns;
use crate::domain::{domain_opt_view, parse, parsed, DateMode, Domain};
use crate::outside::opt_view;
use crate::suffix::{resolved, EntryView, SuffixTable};

pub mod domain;
pub mod listing;
pub mod outside;
pub mod rules;
pub mod suffix;
pub mod text;

verus! {

/// The port of the WHOIS protocol.
pub const WHOIS_PORT: u16 = 43;

/// Why a query gave no answer.
#[derive(Clone, Debug, PartialEq, Eq)]
pub enum Error {
    /// The suffix is known, a server for it is not.
    NoServer,
    /// The name falls under no suffix of the table.
    UnknownSuffix,
    /// The exchange with the server failed; the text says how.
    Io(String),
}

impl Error {
    /// The error in words.
    pub fn message(&self) -> (r: String)
        ensures
            r@ == match *self {
                Error::NoServer => "no whois server available"@,
                Error::UnknownSuffix => "unknown domain suffix"@,
                Error::Io(_) => "io error"@,
            },
    {
        match self {
            Error::NoServer => String::from_str("no whois server available"),
            Error::UnknownSuffix => String::from_str("unknown domain suffix"),
            Error::Io(_) => String::from_str("io error"),
        }
    }
}

/// What is to be sent, and where.
#[derive(Clone, Debug, PartialEq, Eq)]
pub struct Request {
    /// The suffix of the table under which the name falls.
    pub suffix: String,
    pub server: String,
    pub port: u16,
    /// The query: the name as it was given, then carriage return and newline.
    pub payload: String,
}

/// The query for a name: the name, then carriage return and newline.
pub open spec fn framed(name: Seq<char>) -> Seq<char> {
    name + "\r\n"@
}

/// Whether `request` is the one that the row `row` asks for.
pub open spec fn asks(request: Request, table: Seq<EntryView>, name: Seq<char>, row: int) -> bool {
    &&& 0 <= row < table.len()
    &&& request.suffix@ == table[row].suffix
    &&& table[row].server == Some(request.server@)
    &&& request.port == WHOIS_PORT
    &&& request.payload@ == framed(name)
}

/// The query line for a name.
pub fn frame(name: &str) -> (r: String)
    ensures
        r@ == framed(name@),
{
    let mut out = String::from_str(name);
    out.append("\r\n");
    out
}

/// Starts a query for the domain `name`: the table says which server answers
/// for it.
pub fn domain(name: &str, table: &SuffixTable) -> (r: Result<Request, Error>)
    ensures
        match r {
            Ok(request) => resolved(table@, name@) matches Some(row) && asks(
                request,
                table@,
                name@,
                row,
            ),
            Err(Error::UnknownSuffix) => resolved(table@, name@) is None,
            Err(Error::NoServer) => resolved(table@, name@) matches Some(row) && 0 <= row
                < table@.len() && table@[row].server is None,
            Err(Error::Io(_)) => false,
        },
{
    let row = match table.resolve(name) {
        Some(row) => row,
        None => {
            return Err(Error::UnknownSuffix);
        },
    };
    match table.server(row) {
        Some(server) => Ok(
            Request {
                suffix: table.suffix(row).clone(),
                server: server.clone(),
                port: WHOIS_PORT,
                payload: frame(name),
            },
        ),
        None => Err(Error::NoServer),
    }
}

/// Ends a query: a failed exchange is handed on as it is, an answer is read.
pub fn conclude(outcome: Result<String, String>, table: &SuffixTable, mode: DateMode) -> (r: Result<
    Option<Domain>,
    Error,
>)
    ensures
        match outcome {
            Ok(answer) => r matches Ok(record) && domain_opt_view(record) == parsed(
                table@,
                mode,
                answer@,
            ),
            Err(failure) => r matches Err(Error::Io(text)) && text@ == failure@,
        },
{
    match outcome {
        Ok(answer) => Ok(parse(answer.as_str(), table, mode)),
        Err(failure) => Err(Error::Io(failure)),
    }
}

} // verus!
