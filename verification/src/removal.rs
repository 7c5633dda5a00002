//! Deleting an account by its logon name: find the entry, then delete it.
//! A name that no entry answers to is reported as such, and nothing is
//! deleted.

use crate::directory::{DirectoryReply, DirectoryRequest, RequestModel, Scope};
use vstd::prelude::*;
use vstd::string::StringExecFns;

verus! {

/// Why an account was not deleted.
#[derive(Clone, Copy, Debug, PartialEq, Eq, Structural)]
pub enum DeleteError {
    /// No entry answers to the name. No delete was sent.
    NotFound,
    /// The directory did not delete the entry.
    DeleteFailed,
}

/// One character as it stands in a filter: parentheses, asterisk, backslash
/// and NUL as a backslash and their two hexadecimal digits, any other as
/// itself.
pub open spec fn filter_escaped_char(c: char) -> Seq<char> {
    if c == '\\' {
        seq!['\\', '5', 'c']
    } else if c == '*' {
        seq!['\\', '2', 'a']
    } else if c == '(' {
        seq!['\\', '2', '8']
    } else if c == ')' {
        seq!['\\', '2', '9']
    } else if c == '\0' {
        seq!['\\', '0', '0']
    } else {
        seq![c]
    }
}

/// A literal value as it stands in a filter, character by character.
pub open spec fn filter_escaped(text: Seq<char>) -> Seq<char>
    decreases text.len(),
{
    if text.len() == 0 {
        Seq::empty()
    } else {
        filter_escaped(text.drop_last()) + filter_escaped_char(text.last())
    }
}

/// The filter that matches the user entries whose logon name is
/// `account_name`.
pub open spec fn account_filter(account_name: Seq<char>) -> Seq<char> {
    "(&(objectClass=user)(sAMAccountName="@ + filter_escaped(account_name) + "))"@
}

/// The request that looks for the entry of `account_name` below `base_dn`.
pub open spec fn resolve_request(account_name: Seq<char>, base_dn: Seq<char>) -> RequestModel {
    RequestModel::Search {
        base: base_dn,
        scope: Scope::Subtree,
        filter: account_filter(account_name),
        attrs: seq!["distinguishedName"@],
    }
}

/// The name of the entry that a search for an account found: that of the
/// first entry, if the search succeeded and found any.
pub open spec fn resolved_dn(reply: DirectoryReply) -> Option<Seq<char>> {
    if reply.found().len() > 0 {
        Some(reply.found()[0].dn@)
    } else {
        None
    }
}

/// The step of a deletion whose reply is awaited.
#[derive(Clone, Copy, Debug, PartialEq, Eq, Structural)]
pub enum DeletionPhase {
    Resolving,
    Deleting,
}

/// A deletion under way.
pub struct Deletion {
    phase: DeletionPhase,
}

impl View for Deletion {
    type V = DeletionPhase;

    closed spec fn view(&self) -> DeletionPhase {
        self.phase
    }
}

/// What a deletion does next.
pub enum DeleteStep {
    /// Send this request and come back with its reply.
    Continue(Deletion, DirectoryRequest),
    /// The deletion is over, with this outcome.
    Done(Result<(), DeleteError>),
}

/// The mathematical content of a [`DeleteStep`].
pub enum DeleteStepModel {
    Continue(DeletionPhase, RequestModel),
    Done(Result<(), DeleteError>),
}

impl View for DeleteStep {
    type V = DeleteStepModel;

    open spec fn view(&self) -> DeleteStepModel {
        match *self {
            DeleteStep::Continue(next, request) => DeleteStepModel::Continue(next@, request@),
            DeleteStep::Done(outcome) => DeleteStepModel::Done(outcome),
        }
    }
}

/// What a deletion does when `reply` comes back for the step it awaits.
pub open spec fn deletion_step(phase: DeletionPhase, reply: DirectoryReply) -> DeleteStepModel {
    match phase {
        DeletionPhase::Resolving => match resolved_dn(reply) {
            Some(dn) => DeleteStepModel::Continue(
                DeletionPhase::Deleting,
                RequestModel::Delete { dn },
            ),
            None => DeleteStepModel::Done(Err(DeleteError::NotFound)),
        },
        DeletionPhase::Deleting => if reply.succeeded() {
            DeleteStepModel::Done(Ok(()))
        } else {
            DeleteStepModel::Done(Err(DeleteError::DeleteFailed))
        },
    }
}

/// What a deletion has asked for, and how it ended if it has.
pub struct DeletionRun {
    pub asked: Seq<RequestModel>,
    pub outcome: Option<Result<(), DeleteError>>,
}

/// A deletion in `phase` that hears `replies` in order, one for each
/// request it sends, for as long as it goes on: the requests it sends after
/// the one that is out, and its outcome.
pub open spec fn deletion_run(phase: DeletionPhase, replies: Seq<DirectoryReply>) -> DeletionRun
    decreases replies.len(),
{
    if replies.len() == 0 {
        DeletionRun { asked: Seq::empty(), outcome: None }
    } else {
        match deletion_step(phase, replies[0]) {
            DeleteStepModel::Continue(next, request) => {
                let rest = deletion_run(next, replies.drop_first());
                DeletionRun { asked: seq![request] + rest.asked, outcome: rest.outcome }
            },
            DeleteStepModel::Done(outcome) => DeletionRun {
                asked: Seq::empty(),
                outcome: Some(outcome),
            },
        }
    }
}

/// A deletion whose search finds no entry ends with `NotFound` and has
/// sent no delete, whatever replies might follow.
pub proof fn lemma_unresolved_name_deletes_nothing(replies: Seq<DirectoryReply>)
    requires
        replies.len() > 0,
        resolved_dn(replies[0]) is None,
    ensures
        deletion_run(DeletionPhase::Resolving, replies) == (DeletionRun {
            asked: Seq::empty(),
            outcome: Some(Err(DeleteError::NotFound)),
        }),
{
}

/// A deletion whose search finds an entry sends one delete, for that
/// entry, and its reply decides the outcome.
pub proof fn lemma_resolved_name_deletes_once(replies: Seq<DirectoryReply>)
    requires
        replies.len() >= 2,
        resolved_dn(replies[0]) is Some,
    ensures
        deletion_run(DeletionPhase::Resolving, replies) == (DeletionRun {
            asked: seq![RequestModel::Delete { dn: resolved_dn(replies[0])->0 }],
            outcome: Some(
                if replies[1].succeeded() {
                    Ok(())
                } else {
                    Err(DeleteError::DeleteFailed)
                },
            ),
        }),
{
    let rest = replies.drop_first();
    assert(rest[0] == replies[1]);
    assert(deletion_run(DeletionPhase::Deleting, rest).asked =~= Seq::empty());
    assert(deletion_run(DeletionPhase::Resolving, replies).asked =~= seq![
        RequestModel::Delete { dn: resolved_dn(replies[0])->0 },
    ]);
}

/// Calls `ldap3::ldap_escape`, which writes a literal value as it must
/// stand in a filter. Claimed, as its source does it: backslash, asterisk,
/// the two parentheses and NUL become a backslash and their two lower-case
/// hexadecimal digits; every other character stays.
#[verifier::external_body]
fn escape_filter_literal(literal: &str) -> (escaped: String)
    ensures
        escaped@ == filter_escaped(literal@),
{
    ldap3::ldap_escape(literal).into_owned()
}

/// The name of the entry that a search for an account found: that of the
/// first entry, if the search succeeded and found any.
pub fn resolve_dn(reply: DirectoryReply) -> (dn: Option<String>)
    ensures
        dn is Some <==> resolved_dn(reply) is Some,
        dn is Some ==> dn->0@ == resolved_dn(reply)->0,
{
    let entries = reply.into_found();
    if entries.len() > 0 {
        Some(entries[0].dn.clone())
    } else {
        None
    }
}

impl Deletion {
    /// Starts the deletion of the account with logon name `account_name`
    /// below `base_dn`: hands out the request that looks for its entry, and
    /// the deletion to report its reply to.
    pub fn begin(account_name: &str, base_dn: &str) -> (start: (Deletion, DirectoryRequest))
        ensures
            start.0@ == DeletionPhase::Resolving,
            start.1@ == resolve_request(account_name@, base_dn@),
    {
        let mut filter = "(&(objectClass=user)(sAMAccountName=".to_owned();
        let literal = escape_filter_literal(account_name);
        filter.append(literal.as_str());
        filter.append("))");
        let mut attrs: Vec<String> = Vec::new();
        attrs.push("distinguishedName".to_owned());
        assert(attrs.deep_view() =~= seq!["distinguishedName"@]);
        let request = DirectoryRequest::Search {
            base: base_dn.to_owned(),
            scope: Scope::Subtree,
            filter,
            attrs,
        };
        (Deletion { phase: DeletionPhase::Resolving }, request)
    }

    /// Takes the reply to the request that is out and says what to do next.
    pub fn advance(self, reply: DirectoryReply) -> (step: DeleteStep)
        ensures
            step@ == deletion_step(self@, reply),
    {
        match self.phase {
            DeletionPhase::Resolving => match resolve_dn(reply) {
                Some(dn) => DeleteStep::Continue(
                    Deletion { phase: DeletionPhase::Deleting },
                    DirectoryRequest::Delete { dn },
                ),
                None => DeleteStep::Done(Err(DeleteError::NotFound)),
            },
            DeletionPhase::Deleting => {
                if reply.is_success() {
                    DeleteStep::Done(Ok(()))
                } else {
                    DeleteStep::Done(Err(DeleteError::DeleteFailed))
                }
            },
        }
    }
}

} // verus!
