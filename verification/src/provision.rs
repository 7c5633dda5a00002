//! Creating an account: add the entry, set its password, enable it, read it
//! back. Each step is one request to the directory; what came back for it
//! decides the next.

use crate::codec::{decimal, encode_decimal, encode_password_for_modify, password_bytes};
use crate::directory::{
    search_users, user_search, Attribute, AttributeModel, DirectoryReply, DirectoryRequest,
    RequestModel, Scope,
};
use crate::entry::AttributeMap;
use crate::user::{decoded, UserAccount, UserParams};
use vstd::prelude::*;
use vstd::string::StringExecFns;

verus! {

/// Why an account could not be created.
#[derive(Clone, Copy, Debug, PartialEq, Eq, Structural)]
pub enum ProvisionError {
    /// The directory did not add the entry. Nothing else was attempted.
    AddFailed,
    /// The entry was not found when it was read back.
    VerificationFailed,
}

/// The value of `userAccountControl` that enables a new account: a normal
/// account (512) whose password does not expire (65536).
pub const ENABLED_ACCOUNT: u32 = 66048;

/// The step of a creation whose reply is awaited.
#[derive(Clone, Copy, Debug, PartialEq, Eq, Structural)]
pub enum ProvisionPhase {
    AddingEntry,
    SettingPassword,
    EnablingAccount,
    Verifying,
}

/// A creation under way: the entry it is about, the password while it is
/// still to be set, and the step whose reply is awaited.
pub struct Provisioner {
    dn: String,
    password: String,
    phase: ProvisionPhase,
}

/// The mathematical content of a [`Provisioner`].
pub struct ProvisionerModel {
    pub dn: Seq<char>,
    pub password: Seq<char>,
    pub phase: ProvisionPhase,
}

impl View for Provisioner {
    type V = ProvisionerModel;

    closed spec fn view(&self) -> ProvisionerModel {
        ProvisionerModel { dn: self.dn@, password: self.password@, phase: self.phase }
    }
}

/// What a creation does next.
pub enum ProvisionStep {
    /// Send this request and come back with its reply.
    Continue(Provisioner, DirectoryRequest),
    /// The creation is over, with this outcome.
    Done(Result<UserAccount, ProvisionError>),
}

/// The mathematical content of a [`ProvisionStep`].
pub enum ProvisionStepModel {
    Continue(ProvisionerModel, RequestModel),
    Done(Result<AttributeMap, ProvisionError>),
}

impl View for ProvisionStep {
    type V = ProvisionStepModel;

    open spec fn view(&self) -> ProvisionStepModel {
        match *self {
            ProvisionStep::Continue(next, request) => ProvisionStepModel::Continue(
                next@,
                request@,
            ),
            ProvisionStep::Done(Ok(account)) => ProvisionStepModel::Done(Ok(account@)),
            ProvisionStep::Done(Err(error)) => ProvisionStepModel::Done(Err(error)),
        }
    }
}

/// The name of the entry of the user called `cn` below `base_dn`.
pub open spec fn derived_dn(cn: Seq<char>, base_dn: Seq<char>) -> Seq<char> {
    "CN="@ + cn + ","@ + base_dn
}

/// The attributes that a new entry is added with: the four object classes
/// of a user, and one value each for what the caller supplied.
pub open spec fn entry_attributes(user: UserParams) -> Seq<AttributeModel> {
    seq![
        ("objectClass"@, seq!["top"@, "person"@, "organizationalPerson"@, "user"@]),
        ("cn"@, seq![user.cn@]),
        ("givenName"@, seq![user.givenName@]),
        ("sn"@, seq![user.sn@]),
        ("displayName"@, seq![user.displayName@]),
        ("userPrincipalName"@, seq![user.userPrincipalName@]),
        ("sAMAccountName"@, seq![user.sAMAccountName@]),
        ("mail"@, seq![user.mail@]),
    ]
}

/// The request that adds the entry of `user` below `base_dn`.
pub open spec fn add_request(user: UserParams, base_dn: Seq<char>) -> RequestModel {
    RequestModel::Add { dn: derived_dn(user.cn@, base_dn), attributes: entry_attributes(user) }
}

/// The request that sets the password of the entry `dn`.
pub open spec fn password_request(dn: Seq<char>, password: Seq<char>) -> RequestModel {
    RequestModel::Replace { dn, attr: "unicodePwd"@, value: password_bytes(password) }
}

/// The request that sets `userAccountControl` of the entry `dn` to `flag`.
pub open spec fn account_control_request(dn: Seq<char>, flag: u32) -> RequestModel {
    RequestModel::Replace { dn, attr: "userAccountControl"@, value: decimal(flag as nat) }
}

/// The request that reads the entry `dn` back.
pub open spec fn verify_request(dn: Seq<char>) -> RequestModel {
    user_search(dn, Scope::Base)
}

/// A creation at its start: the add request is out, nothing else is.
pub open spec fn provision_start(user: UserParams, base_dn: Seq<char>) -> ProvisionerModel {
    ProvisionerModel {
        dn: derived_dn(user.cn@, base_dn),
        password: user.password@,
        phase: ProvisionPhase::AddingEntry,
    }
}

/// What a creation does when `reply` comes back for the step it awaits.
///
/// A failed add ends the creation. Setting the password and enabling the
/// account are best effort: whatever comes back, the creation goes on, so an
/// account may exist with no usable password. The creation succeeds if the
/// entry is found when read back. The password is let go of as soon as the
/// request that sets it is made.
pub open spec fn provision_step(state: ProvisionerModel, reply: DirectoryReply)
    -> ProvisionStepModel {
    match state.phase {
        ProvisionPhase::AddingEntry => if reply.succeeded() {
            ProvisionStepModel::Continue(
                ProvisionerModel {
                    dn: state.dn,
                    password: Seq::empty(),
                    phase: ProvisionPhase::SettingPassword,
                },
                password_request(state.dn, state.password),
            )
        } else {
            ProvisionStepModel::Done(Err(ProvisionError::AddFailed))
        },
        ProvisionPhase::SettingPassword => ProvisionStepModel::Continue(
            ProvisionerModel { phase: ProvisionPhase::EnablingAccount, ..state },
            account_control_request(state.dn, ENABLED_ACCOUNT),
        ),
        ProvisionPhase::EnablingAccount => ProvisionStepModel::Continue(
            ProvisionerModel { phase: ProvisionPhase::Verifying, ..state },
            verify_request(state.dn),
        ),
        ProvisionPhase::Verifying => ProvisionStepModel::Done(verification_outcome(reply)),
    }
}

/// What a creation has asked for, and how it ended if it has.
pub struct ProvisionRun {
    pub asked: Seq<RequestModel>,
    pub outcome: Option<Result<AttributeMap, ProvisionError>>,
}

/// A creation in `state` that hears `replies` in order, one for each
/// request it sends, for as long as it goes on: the requests it sends after
/// the one that is out, and its outcome.
pub open spec fn provision_run(state: ProvisionerModel, replies: Seq<DirectoryReply>)
    -> ProvisionRun
    decreases replies.len(),
{
    if replies.len() == 0 {
        ProvisionRun { asked: Seq::empty(), outcome: None }
    } else {
        match provision_step(state, replies[0]) {
            ProvisionStepModel::Continue(next, request) => {
                let rest = provision_run(next, replies.drop_first());
                ProvisionRun { asked: seq![request] + rest.asked, outcome: rest.outcome }
            },
            ProvisionStepModel::Done(outcome) => ProvisionRun {
                asked: Seq::empty(),
                outcome: Some(outcome),
            },
        }
    }
}

/// The outcome of a creation whose entry was read back with `reply`.
pub open spec fn verification_outcome(reply: DirectoryReply) -> Result<
    AttributeMap,
    ProvisionError,
> {
    if reply.found().len() > 0 {
        Ok(decoded(reply.found()[0].attrs@))
    } else {
        Err(ProvisionError::VerificationFailed)
    }
}

/// A creation whose add request fails ends there with `AddFailed`: it sends
/// no request for the password, for enabling the account or for reading the
/// entry back, whatever replies might follow.
pub proof fn lemma_failed_add_ends_creation(
    user: UserParams,
    base_dn: Seq<char>,
    replies: Seq<DirectoryReply>,
)
    requires
        replies.len() > 0,
        !replies[0].succeeded(),
    ensures
        provision_run(provision_start(user, base_dn), replies) == (ProvisionRun {
            asked: Seq::empty(),
            outcome: Some(Err(ProvisionError::AddFailed)),
        }),
{
}

/// A creation whose add request succeeds sends three more requests, in this
/// order: set the password, enable the account, read the entry back. What
/// comes back for the password and for enabling does not matter; the reply
/// to the last request alone decides the outcome.
pub proof fn lemma_successful_add_runs_to_verification(
    user: UserParams,
    base_dn: Seq<char>,
    replies: Seq<DirectoryReply>,
)
    requires
        replies.len() >= 4,
        replies[0].succeeded(),
    ensures
        provision_run(provision_start(user, base_dn), replies) == (ProvisionRun {
            asked: seq![
                password_request(derived_dn(user.cn@, base_dn), user.password@),
                account_control_request(derived_dn(user.cn@, base_dn), ENABLED_ACCOUNT),
                verify_request(derived_dn(user.cn@, base_dn)),
            ],
            outcome: Some(verification_outcome(replies[3])),
        }),
{
    let start = provision_start(user, base_dn);
    let second = ProvisionerModel {
        dn: start.dn,
        password: Seq::empty(),
        phase: ProvisionPhase::SettingPassword,
    };
    let third = ProvisionerModel { phase: ProvisionPhase::EnablingAccount, ..second };
    let fourth = ProvisionerModel { phase: ProvisionPhase::Verifying, ..second };
    let after_one = replies.drop_first();
    let after_two = after_one.drop_first();
    let after_three = after_two.drop_first();
    assert(after_three[0] == replies[3]);
    assert(provision_run(fourth, after_three).asked =~= Seq::empty());
    assert(provision_run(third, after_two).asked =~= seq![verify_request(start.dn)]);
    assert(provision_run(second, after_one).asked =~= seq![
        account_control_request(start.dn, ENABLED_ACCOUNT),
        verify_request(start.dn),
    ]);
    assert(provision_run(start, replies).asked =~= seq![
        password_request(start.dn, start.password),
        account_control_request(start.dn, ENABLED_ACCOUNT),
        verify_request(start.dn),
    ]);
}

/// The name of the entry of the user called `cn` below `base_dn`:
/// `CN=`, the common name, a comma, the base.
pub fn derive_dn(cn: &str, base_dn: &str) -> (dn: String)
    ensures
        dn@ == derived_dn(cn@, base_dn@),
{
    let mut dn = "CN=".to_owned();
    dn.append(cn);
    dn.append(",");
    dn.append(base_dn);
    dn
}

/// An attribute with these values.
fn attribute(name: &str, values: Vec<String>) -> (attr: Attribute)
    ensures
        attr@ == (name@, values.deep_view()),
{
    Attribute { name: name.to_owned(), values }
}

/// An attribute with one value.
fn single(name: &str, value: &String) -> (attr: Attribute)
    ensures
        attr@ == (name@, seq![value@]),
{
    let mut values: Vec<String> = Vec::new();
    values.push(value.clone());
    attribute(name, values)
}

impl UserAccount {
    /// Starts the creation of the account of `user` below `base_dn`: hands
    /// out the request that adds the entry, and the creation to report its
    /// reply to.
    pub fn create_new_user(user: UserParams, base_dn: &str) -> (start: (
        Provisioner,
        DirectoryRequest,
    ))
        ensures
            start.0@ == provision_start(user, base_dn@),
            start.1@ == add_request(user, base_dn@),
    {
        let mut classes: Vec<String> = Vec::new();
        classes.push("top".to_owned());
        classes.push("person".to_owned());
        classes.push("organizationalPerson".to_owned());
        classes.push("user".to_owned());
        assert(classes.deep_view() =~= seq![
            "top"@,
            "person"@,
            "organizationalPerson"@,
            "user"@,
        ]);
        let mut attrs: Vec<Attribute> = Vec::new();
        attrs.push(attribute("objectClass", classes));
        attrs.push(single("cn", &user.cn));
        attrs.push(single("givenName", &user.givenName));
        attrs.push(single("sn", &user.sn));
        attrs.push(single("displayName", &user.displayName));
        attrs.push(single("userPrincipalName", &user.userPrincipalName));
        attrs.push(single("sAMAccountName", &user.sAMAccountName));
        attrs.push(single("mail", &user.mail));
        assert(crate::directory::attribute_models(attrs@) =~= entry_attributes(user));
        let dn = derive_dn(user.cn.as_str(), base_dn);
        let request = DirectoryRequest::Add { dn: dn.clone(), attributes: attrs };
        let creation = Provisioner {
            dn,
            password: user.password,
            phase: ProvisionPhase::AddingEntry,
        };
        (creation, request)
    }

    /// The request that sets the password of the entry `user_dn`: a
    /// replacement of `unicodePwd` by the password in its modify encoding.
    pub fn set_password(user_dn: &str, new_password: &str) -> (request: DirectoryRequest)
        ensures
            request@ == password_request(user_dn@, new_password@),
    {
        DirectoryRequest::Replace {
            dn: user_dn.to_owned(),
            attr: "unicodePwd".to_owned(),
            value: encode_password_for_modify(new_password),
        }
    }

    /// The request that sets `userAccountControl` of the entry `user_dn`: a
    /// replacement by the decimal digits of `flag`.
    pub fn update_user_account_control(user_dn: &str, flag: u32) -> (request: DirectoryRequest)
        ensures
            request@ == account_control_request(user_dn@, flag),
    {
        DirectoryRequest::Replace {
            dn: user_dn.to_owned(),
            attr: "userAccountControl".to_owned(),
            value: encode_decimal(flag),
        }
    }
}

impl Provisioner {
    /// Takes the reply to the request that is out and says what to do next.
    pub fn advance(self, reply: DirectoryReply) -> (step: ProvisionStep)
        ensures
            step@ == provision_step(self@, reply),
    {
        match self.phase {
            ProvisionPhase::AddingEntry => {
                if reply.is_success() {
                    let request = UserAccount::set_password(
                        self.dn.as_str(),
                        self.password.as_str(),
                    );
                    let next = Provisioner {
                        dn: self.dn,
                        password: String::new(),
                        phase: ProvisionPhase::SettingPassword,
                    };
                    ProvisionStep::Continue(next, request)
                } else {
                    ProvisionStep::Done(Err(ProvisionError::AddFailed))
                }
            },
            ProvisionPhase::SettingPassword => {
                let request = UserAccount::update_user_account_control(
                    self.dn.as_str(),
                    ENABLED_ACCOUNT,
                );
                let next = Provisioner {
                    dn: self.dn,
                    password: self.password,
                    phase: ProvisionPhase::EnablingAccount,
                };
                ProvisionStep::Continue(next, request)
            },
            ProvisionPhase::EnablingAccount => {
                let request = search_users(self.dn.as_str(), Scope::Base);
                let next = Provisioner {
                    dn: self.dn,
                    password: self.password,
                    phase: ProvisionPhase::Verifying,
                };
                ProvisionStep::Continue(next, request)
            },
            ProvisionPhase::Verifying => {
                match UserAccount::fetch_user(reply) {
                    Some(account) => ProvisionStep::Done(Ok(account)),
                    None => ProvisionStep::Done(Err(ProvisionError::VerificationFailed)),
                }
            },
        }
    }
}

} // verus!
