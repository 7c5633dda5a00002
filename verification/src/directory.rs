//! What the service asks of the directory and what it hears back, as plain
//! values. The caller performs each request on the live connection and
//! reports the reply; nothing here touches the network.

use crate::entry::RawEntry;
use vstd::prelude::*;

verus! {

/// How far below its base a search looks.
#[derive(Clone, Copy, Debug, PartialEq, Eq, Structural)]
pub enum Scope {
    Base,
    OneLevel,
    Subtree,
}

/// One attribute of an entry to add: its name and its values.
#[derive(Debug, PartialEq, Eq)]
pub struct Attribute {
    pub name: String,
    pub values: Vec<String>,
}

/// The mathematical content of an [`Attribute`]: name, values.
pub type AttributeModel = (Seq<char>, Seq<Seq<char>>);

impl View for Attribute {
    type V = AttributeModel;

    open spec fn view(&self) -> AttributeModel {
        (self.name@, self.values.deep_view())
    }
}

/// A list of attributes as plain sequences.
pub open spec fn attribute_models(attrs: Seq<Attribute>) -> Seq<AttributeModel> {
    Seq::new(attrs.len(), |i: int| attrs[i]@)
}

/// A request to the directory.
#[derive(Debug, PartialEq, Eq)]
pub enum DirectoryRequest {
    /// Drop the connection and open a new one to `server`, negotiating
    /// encryption first if `starttls` is set. The reply is `Completed` with
    /// result code 0 once the new connection stands, else `Unreachable`.
    Connect { server: String, starttls: bool },
    /// Authenticate the connection.
    Bind { principal: String, credential: String },
    /// Add an entry with these attributes.
    Add { dn: String, attributes: Vec<Attribute> },
    /// Replace the values of one attribute of an entry by a single value.
    Replace { dn: String, attr: String, value: Vec<u8> },
    /// Search below `base` and return the listed attributes of what matches.
    Search { base: String, scope: Scope, filter: String, attrs: Vec<String> },
    /// Delete an entry.
    Delete { dn: String },
}

/// The mathematical content of a [`DirectoryRequest`].
pub enum RequestModel {
    Connect { server: Seq<char>, starttls: bool },
    Bind { principal: Seq<char>, credential: Seq<char> },
    Add { dn: Seq<char>, attributes: Seq<AttributeModel> },
    Replace { dn: Seq<char>, attr: Seq<char>, value: Seq<u8> },
    Search { base: Seq<char>, scope: Scope, filter: Seq<char>, attrs: Seq<Seq<char>> },
    Delete { dn: Seq<char> },
}

impl View for DirectoryRequest {
    type V = RequestModel;

    open spec fn view(&self) -> RequestModel {
        match *self {
            DirectoryRequest::Connect { server, starttls } => RequestModel::Connect {
                server: server@,
                starttls,
            },
            DirectoryRequest::Bind { principal, credential } => RequestModel::Bind {
                principal: principal@,
                credential: credential@,
            },
            DirectoryRequest::Add { dn, attributes } => RequestModel::Add {
                dn: dn@,
                attributes: attribute_models(attributes@),
            },
            DirectoryRequest::Replace { dn, attr, value } => RequestModel::Replace {
                dn: dn@,
                attr: attr@,
                value: value@,
            },
            DirectoryRequest::Search { base, scope, filter, attrs } => RequestModel::Search {
                base: base@,
                scope,
                filter: filter@,
                attrs: attrs.deep_view(),
            },
            DirectoryRequest::Delete { dn } => RequestModel::Delete { dn: dn@ },
        }
    }
}

/// What came back for a request.
pub enum DirectoryReply {
    /// The directory answered with this result code; 0 is success.
    Completed { rc: u32 },
    /// The directory answered a search with this result code and these
    /// entries.
    Entries { rc: u32, entries: Vec<RawEntry> },
    /// No answer: the connection failed, or could not be made.
    Unreachable,
}

impl DirectoryReply {
    /// Whether the directory answered and reported success.
    pub open spec fn succeeded(&self) -> bool {
        match *self {
            DirectoryReply::Completed { rc } => rc == 0,
            DirectoryReply::Entries { rc, .. } => rc == 0,
            DirectoryReply::Unreachable => false,
        }
    }

    /// The entries of a search that succeeded; none for any other reply.
    pub open spec fn found(&self) -> Seq<RawEntry> {
        match *self {
            DirectoryReply::Entries { rc, entries } if rc == 0 => entries@,
            _ => Seq::empty(),
        }
    }

    /// Whether the directory answered and reported success.
    #[verifier::when_used_as_spec(succeeded)]
    pub fn is_success(&self) -> (ok: bool)
        ensures
            ok == self.succeeded(),
    {
        match self {
            DirectoryReply::Completed { rc } => *rc == 0,
            DirectoryReply::Entries { rc, .. } => *rc == 0,
            DirectoryReply::Unreachable => false,
        }
    }

    /// The entries of a search that succeeded; none for any other reply.
    pub fn into_found(self) -> (entries: Vec<RawEntry>)
        ensures
            entries@ == self.found(),
    {
        match self {
            DirectoryReply::Entries { rc, entries } => {
                if rc == 0 {
                    entries
                } else {
                    Vec::new()
                }
            },
            _ => Vec::new(),
        }
    }
}

/// The filter that matches user entries.
pub open spec fn user_filter() -> Seq<char> {
    "(objectClass=user)"@
}

/// The attribute selection that asks for every attribute of an entry, the
/// operational ones included.
pub open spec fn all_attributes() -> Seq<Seq<char>> {
    seq!["*"@, "+"@]
}

/// A search for user entries that returns all their attributes.
pub open spec fn user_search(base: Seq<char>, scope: Scope) -> RequestModel {
    RequestModel::Search { base, scope, filter: user_filter(), attrs: all_attributes() }
}

/// Builds a search for user entries that returns all their attributes.
pub fn search_users(base: &str, scope: Scope) -> (request: DirectoryRequest)
    ensures
        request@ == user_search(base@, scope),
{
    let mut attrs: Vec<String> = Vec::new();
    attrs.push("*".to_owned());
    attrs.push("+".to_owned());
    let request = DirectoryRequest::Search {
        base: base.to_owned(),
        scope,
        filter: "(objectClass=user)".to_owned(),
        attrs,
    };
    assert(attrs.deep_view() =~= all_attributes());
    request
}

} // verus!
