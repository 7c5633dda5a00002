//! Application records: what a caller sends to create an account, and what
//! the directory holds about one.

use crate::directory::DirectoryReply;
use crate::entry::{AttributeMap, RawAttributes, RawEntry};
use vstd::prelude::*;

verus! {

/// What a caller supplies to have an account created. Every field is
/// mandatory; the password is only carried to the directory, never kept.
#[allow(non_snake_case)]
#[derive(Debug)]
pub struct UserParams {
    pub cn: String,
    pub givenName: String,
    pub sn: String,
    pub displayName: String,
    pub userPrincipalName: String,
    pub sAMAccountName: String,
    pub mail: String,
    pub password: String,
}

/// One account as read from the directory. Directory attributes are
/// multi-valued, so each known attribute is an optional list of values:
/// `None` when the entry does not have the attribute at all.
#[allow(non_snake_case)]
#[derive(Debug)]
pub struct UserAccount {
    pub sAMAccountName: Option<Vec<String>>,
    pub sn: Option<Vec<String>>,
    pub badPasswordTime: Option<Vec<String>>,
    pub uSNChanged: Option<Vec<String>>,
    pub objectClass: Option<Vec<String>>,
    pub logonCount: Option<Vec<String>>,
    pub homeDirectory: Option<Vec<String>>,
    pub accountExpires: Option<Vec<String>>,
    pub lastLogonTimestamp: Option<Vec<String>>,
    pub lastLogoff: Option<Vec<String>>,
    pub distinguishedName: Option<Vec<String>>,
    pub countryCode: Option<Vec<String>>,
    pub objectCategory: Option<Vec<String>>,
    pub cn: Option<Vec<String>>,
    pub codePage: Option<Vec<String>>,
    pub memberOf: Option<Vec<String>>,
    pub instanceType: Option<Vec<String>>,
    pub name: Option<Vec<String>>,
    pub givenName: Option<Vec<String>>,
    pub sAMAccountType: Option<Vec<String>>,
    pub userPrincipalName: Option<Vec<String>>,
    pub whenChanged: Option<Vec<String>>,
    pub pwdLastSet: Option<Vec<String>>,
    pub badPwdCount: Option<Vec<String>>,
    pub lastLogon: Option<Vec<String>>,
    pub whenCreated: Option<Vec<String>>,
    pub displayName: Option<Vec<String>>,
    pub homeDrive: Option<Vec<String>>,
    pub userAccountControl: Option<Vec<String>>,
    pub primaryGroupID: Option<Vec<String>>,
    pub uSNCreated: Option<Vec<String>>,
    pub dSCorePropagationData: Option<Vec<String>>,
}

/// The values of one field as plain sequences.
pub open spec fn values_of(field: Option<Vec<String>>) -> Option<Seq<Seq<char>>> {
    match field {
        Some(values) => Some(values.deep_view()),
        None => None,
    }
}

/// The values that `attrs` holds under `name`, if any.
pub open spec fn lookup(attrs: AttributeMap, name: Seq<char>) -> Option<Seq<Seq<char>>> {
    if attrs.contains_key(name) {
        Some(attrs[name])
    } else {
        None
    }
}

/// Whether `name` is one of the attributes that a [`UserAccount`] keeps.
pub open spec fn is_known_attribute(name: Seq<char>) -> bool {
    name == "sAMAccountName"@
    || name == "sn"@
    || name == "badPasswordTime"@
    || name == "uSNChanged"@
    || name == "objectClass"@
    || name == "logonCount"@
    || name == "homeDirectory"@
    || name == "accountExpires"@
    || name == "lastLogonTimestamp"@
    || name == "lastLogoff"@
    || name == "distinguishedName"@
    || name == "countryCode"@
    || name == "objectCategory"@
    || name == "cn"@
    || name == "codePage"@
    || name == "memberOf"@
    || name == "instanceType"@
    || name == "name"@
    || name == "givenName"@
    || name == "sAMAccountType"@
    || name == "userPrincipalName"@
    || name == "whenChanged"@
    || name == "pwdLastSet"@
    || name == "badPwdCount"@
    || name == "lastLogon"@
    || name == "whenCreated"@
    || name == "displayName"@
    || name == "homeDrive"@
    || name == "userAccountControl"@
    || name == "primaryGroupID"@
    || name == "uSNCreated"@
    || name == "dSCorePropagationData"@
}

/// The names of the attributes that a [`UserAccount`] keeps.
pub open spec fn known_attribute_names() -> Set<Seq<char>> {
    Set::new(|name: Seq<char>| is_known_attribute(name))
}

/// What a record reads out of the attributes of an entry: the known
/// attributes with their values, and nothing else.
pub open spec fn decoded(attrs: AttributeMap) -> AttributeMap {
    attrs.restrict(known_attribute_names())
}

impl View for UserAccount {
    type V = AttributeMap;

    open spec fn view(&self) -> AttributeMap {
        map_of(|name: Seq<char>| self.attribute(name))
    }
}

impl UserAccount {
    /// The values recorded under the directory attribute `name`; `None` for
    /// an attribute that is absent or that the record does not keep.
    pub open spec fn attribute(&self, name: Seq<char>) -> Option<Seq<Seq<char>>> {
        if name == "sAMAccountName"@ {
            values_of(self.sAMAccountName)
        } else if name == "sn"@ {
            values_of(self.sn)
        } else if name == "badPasswordTime"@ {
            values_of(self.badPasswordTime)
        } else if name == "uSNChanged"@ {
            values_of(self.uSNChanged)
        } else if name == "objectClass"@ {
            values_of(self.objectClass)
        } else if name == "logonCount"@ {
            values_of(self.logonCount)
        } else if name == "homeDirectory"@ {
            values_of(self.homeDirectory)
        } else if name == "accountExpires"@ {
            values_of(self.accountExpires)
        } else if name == "lastLogonTimestamp"@ {
            values_of(self.lastLogonTimestamp)
        } else if name == "lastLogoff"@ {
            values_of(self.lastLogoff)
        } else if name == "distinguishedName"@ {
            values_of(self.distinguishedName)
        } else if name == "countryCode"@ {
            values_of(self.countryCode)
        } else if name == "objectCategory"@ {
            values_of(self.objectCategory)
        } else if name == "cn"@ {
            values_of(self.cn)
        } else if name == "codePage"@ {
            values_of(self.codePage)
        } else if name == "memberOf"@ {
            values_of(self.memberOf)
        } else if name == "instanceType"@ {
            values_of(self.instanceType)
        } else if name == "name"@ {
            values_of(self.name)
        } else if name == "givenName"@ {
            values_of(self.givenName)
        } else if name == "sAMAccountType"@ {
            values_of(self.sAMAccountType)
        } else if name == "userPrincipalName"@ {
            values_of(self.userPrincipalName)
        } else if name == "whenChanged"@ {
            values_of(self.whenChanged)
        } else if name == "pwdLastSet"@ {
            values_of(self.pwdLastSet)
        } else if name == "badPwdCount"@ {
            values_of(self.badPwdCount)
        } else if name == "lastLogon"@ {
            values_of(self.lastLogon)
        } else if name == "whenCreated"@ {
            values_of(self.whenCreated)
        } else if name == "displayName"@ {
            values_of(self.displayName)
        } else if name == "homeDrive"@ {
            values_of(self.homeDrive)
        } else if name == "userAccountControl"@ {
            values_of(self.userAccountControl)
        } else if name == "primaryGroupID"@ {
            values_of(self.primaryGroupID)
        } else if name == "uSNCreated"@ {
            values_of(self.uSNCreated)
        } else if name == "dSCorePropagationData"@ {
            values_of(self.dSCorePropagationData)
        } else {
            None
        }
    }

    /// The record with every attribute absent.
    pub fn default() -> (account: UserAccount)
        ensures
            account@ == AttributeMap::empty(),
            forall|name: Seq<char>| account.attribute(name) is None,
    {
        UserAccount {
            sAMAccountName: None,
            sn: None,
            badPasswordTime: None,
            uSNChanged: None,
            objectClass: None,
            logonCount: None,
            homeDirectory: None,
            accountExpires: None,
            lastLogonTimestamp: None,
            lastLogoff: None,
            distinguishedName: None,
            countryCode: None,
            objectCategory: None,
            cn: None,
            codePage: None,
            memberOf: None,
            instanceType: None,
            name: None,
            givenName: None,
            sAMAccountType: None,
            userPrincipalName: None,
            whenChanged: None,
            pwdLastSet: None,
            badPwdCount: None,
            lastLogon: None,
            whenCreated: None,
            displayName: None,
            homeDrive: None,
            userAccountControl: None,
            primaryGroupID: None,
            uSNCreated: None,
            dSCorePropagationData: None,
        }
    }

    /// Reads a record out of the attributes of a directory entry. Each known
    /// attribute that the entry has keeps its values unchanged and in order;
    /// every other attribute of the entry is dropped. There is no error
    /// case: what is missing is absent in the record.
    pub fn decode(attrs: &RawAttributes) -> (account: UserAccount)
        ensures
            account@ == decoded(attrs@),
    {
        let account = UserAccount {
            sAMAccountName: attrs.get("sAMAccountName"),
            sn: attrs.get("sn"),
            badPasswordTime: attrs.get("badPasswordTime"),
            uSNChanged: attrs.get("uSNChanged"),
            objectClass: attrs.get("objectClass"),
            logonCount: attrs.get("logonCount"),
            homeDirectory: attrs.get("homeDirectory"),
            accountExpires: attrs.get("accountExpires"),
            lastLogonTimestamp: attrs.get("lastLogonTimestamp"),
            lastLogoff: attrs.get("lastLogoff"),
            distinguishedName: attrs.get("distinguishedName"),
            countryCode: attrs.get("countryCode"),
            objectCategory: attrs.get("objectCategory"),
            cn: attrs.get("cn"),
            codePage: attrs.get("codePage"),
            memberOf: attrs.get("memberOf"),
            instanceType: attrs.get("instanceType"),
            name: attrs.get("name"),
            givenName: attrs.get("givenName"),
            sAMAccountType: attrs.get("sAMAccountType"),
            userPrincipalName: attrs.get("userPrincipalName"),
            whenChanged: attrs.get("whenChanged"),
            pwdLastSet: attrs.get("pwdLastSet"),
            badPwdCount: attrs.get("badPwdCount"),
            lastLogon: attrs.get("lastLogon"),
            whenCreated: attrs.get("whenCreated"),
            displayName: attrs.get("displayName"),
            homeDrive: attrs.get("homeDrive"),
            userAccountControl: attrs.get("userAccountControl"),
            primaryGroupID: attrs.get("primaryGroupID"),
            uSNCreated: attrs.get("uSNCreated"),
            dSCorePropagationData: attrs.get("dSCorePropagationData"),
        };
        proof {
            lemma_field_lookups_give_restriction(account, attrs@);
        }
        account
    }

    /// Reads the records of all the entries that a search for users found,
    /// in their order. No entries give no records.
    pub fn fetch_all_users(entries: Vec<RawEntry>) -> (accounts: Vec<UserAccount>)
        ensures
            accounts@.len() == entries@.len(),
            forall|i: int|
                0 <= i < entries@.len() ==> (#[trigger] accounts@[i])@ == decoded(
                    entries@[i].attrs@,
                ),
    {
        let mut accounts: Vec<UserAccount> = Vec::new();
        let mut i: usize = 0;
        while i < entries.len()
            invariant
                i <= entries.len(),
                accounts@.len() == i,
                forall|j: int|
                    0 <= j < i ==> (#[trigger] accounts@[j])@ == decoded(entries@[j].attrs@),
            decreases entries.len() - i,
        {
            accounts.push(UserAccount::decode(&entries[i].attrs));
            i += 1;
        }
        accounts
    }

    /// Reads the record of one entry out of the reply to a search for it:
    /// that of the first entry, if the search succeeded and found any.
    pub fn fetch_user(reply: DirectoryReply) -> (account: Option<UserAccount>)
        ensures
            account is Some <==> reply.found().len() > 0,
            account is Some ==> account->0@ == decoded(reply.found()[0].attrs@),
    {
        let entries = reply.into_found();
        if entries.len() > 0 {
            Some(UserAccount::decode(&entries[0].attrs))
        } else {
            None
        }
    }
}

impl From<RawAttributes> for UserAccount {
    /// The same reading as [`UserAccount::decode`], of an entry's attributes
    /// handed over by value.
    fn from(attrs: RawAttributes) -> (account: UserAccount)
        ensures
            account@ == decoded(attrs@),
    {
        UserAccount::decode(&attrs)
    }
}

/// What the conversion gives is said by the contract of `from`, over the
/// view of the record; no function of spec code builds a record.
impl vstd::std_specs::convert::FromSpecImpl<RawAttributes> for UserAccount {
    open spec fn obeys_from_spec() -> bool {
        false
    }

    open spec fn from_spec(attrs: RawAttributes) -> UserAccount {
        arbitrary()
    }
}

/// A record holds nothing under a name that is not known: whatever an entry
/// had besides the known attributes is gone from its record.
pub proof fn lemma_record_keeps_known_names_only(account: UserAccount)
    ensures
        account@.dom().subset_of(known_attribute_names()),
{
    assert forall|name: Seq<char>| account@.dom().contains(name) implies is_known_attribute(
        name,
    ) by {
        assert(account.attribute(name) is Some);
    }
}

/// The attribute names are pairwise different (their lengths and their
/// characters at positions 0, 5 and 10 tell any two apart), so each field is
/// exactly what the record holds under its own name: the view of a record
/// determines all of its fields.
pub proof fn lemma_attribute_of_each_field(account: UserAccount)
    ensures
        account.attribute("sAMAccountName"@) == values_of(account.sAMAccountName),
        account.attribute("sn"@) == values_of(account.sn),
        account.attribute("badPasswordTime"@) == values_of(account.badPasswordTime),
        account.attribute("uSNChanged"@) == values_of(account.uSNChanged),
        account.attribute("objectClass"@) == values_of(account.objectClass),
        account.attribute("logonCount"@) == values_of(account.logonCount),
        account.attribute("homeDirectory"@) == values_of(account.homeDirectory),
        account.attribute("accountExpires"@) == values_of(account.accountExpires),
        account.attribute("lastLogonTimestamp"@) == values_of(account.lastLogonTimestamp),
        account.attribute("lastLogoff"@) == values_of(account.lastLogoff),
        account.attribute("distinguishedName"@) == values_of(account.distinguishedName),
        account.attribute("countryCode"@) == values_of(account.countryCode),
        account.attribute("objectCategory"@) == values_of(account.objectCategory),
        account.attribute("cn"@) == values_of(account.cn),
        account.attribute("codePage"@) == values_of(account.codePage),
        account.attribute("memberOf"@) == values_of(account.memberOf),
        account.attribute("instanceType"@) == values_of(account.instanceType),
        account.attribute("name"@) == values_of(account.name),
        account.attribute("givenName"@) == values_of(account.givenName),
        account.attribute("sAMAccountType"@) == values_of(account.sAMAccountType),
        account.attribute("userPrincipalName"@) == values_of(account.userPrincipalName),
        account.attribute("whenChanged"@) == values_of(account.whenChanged),
        account.attribute("pwdLastSet"@) == values_of(account.pwdLastSet),
        account.attribute("badPwdCount"@) == values_of(account.badPwdCount),
        account.attribute("lastLogon"@) == values_of(account.lastLogon),
        account.attribute("whenCreated"@) == values_of(account.whenCreated),
        account.attribute("displayName"@) == values_of(account.displayName),
        account.attribute("homeDrive"@) == values_of(account.homeDrive),
        account.attribute("userAccountControl"@) == values_of(account.userAccountControl),
        account.attribute("primaryGroupID"@) == values_of(account.primaryGroupID),
        account.attribute("uSNCreated"@) == values_of(account.uSNCreated),
        account.attribute("dSCorePropagationData"@) == values_of(account.dSCorePropagationData),
{
    reveal_strlit("sAMAccountName");
    assert("sAMAccountName"@.len() == 14 && "sAMAccountName"@[0] == 's'
        && "sAMAccountName"@[5] == 'c' && "sAMAccountName"@[10] == 'N');
    reveal_strlit("sn");
    assert("sn"@.len() == 2 && "sn"@[0] == 's');
    reveal_strlit("badPasswordTime");
    assert("badPasswordTime"@.len() == 15 && "badPasswordTime"@[0] == 'b'
        && "badPasswordTime"@[5] == 's' && "badPasswordTime"@[10] == 'd');
    reveal_strlit("uSNChanged");
    assert("uSNChanged"@.len() == 10 && "uSNChanged"@[0] == 'u' && "uSNChanged"@[5] == 'a');
    reveal_strlit("objectClass");
    assert("objectClass"@.len() == 11 && "objectClass"@[0] == 'o' && "objectClass"@[5] == 't'
        && "objectClass"@[10] == 's');
    reveal_strlit("logonCount");
    assert("logonCount"@.len() == 10 && "logonCount"@[0] == 'l' && "logonCount"@[5] == 'C');
    reveal_strlit("homeDirectory");
    assert("homeDirectory"@.len() == 13 && "homeDirectory"@[0] == 'h'
        && "homeDirectory"@[5] == 'i' && "homeDirectory"@[10] == 'o');
    reveal_strlit("accountExpires");
    assert("accountExpires"@.len() == 14 && "accountExpires"@[0] == 'a'
        && "accountExpires"@[5] == 'n' && "accountExpires"@[10] == 'i');
    reveal_strlit("lastLogonTimestamp");
    assert("lastLogonTimestamp"@.len() == 18 && "lastLogonTimestamp"@[0] == 'l'
        && "lastLogonTimestamp"@[5] == 'o' && "lastLogonTimestamp"@[10] == 'i');
    reveal_strlit("lastLogoff");
    assert("lastLogoff"@.len() == 10 && "lastLogoff"@[0] == 'l' && "lastLogoff"@[5] == 'o');
    reveal_strlit("distinguishedName");
    assert("distinguishedName"@.len() == 17 && "distinguishedName"@[0] == 'd'
        && "distinguishedName"@[5] == 'n' && "distinguishedName"@[10] == 'h');
    reveal_strlit("countryCode");
    assert("countryCode"@.len() == 11 && "countryCode"@[0] == 'c' && "countryCode"@[5] == 'r'
        && "countryCode"@[10] == 'e');
    reveal_strlit("objectCategory");
    assert("objectCategory"@.len() == 14 && "objectCategory"@[0] == 'o'
        && "objectCategory"@[5] == 't' && "objectCategory"@[10] == 'g');
    reveal_strlit("cn");
    assert("cn"@.len() == 2 && "cn"@[0] == 'c');
    reveal_strlit("codePage");
    assert("codePage"@.len() == 8 && "codePage"@[0] == 'c' && "codePage"@[5] == 'a');
    reveal_strlit("memberOf");
    assert("memberOf"@.len() == 8 && "memberOf"@[0] == 'm' && "memberOf"@[5] == 'r');
    reveal_strlit("instanceType");
    assert("instanceType"@.len() == 12 && "instanceType"@[0] == 'i' && "instanceType"@[5] == 'n'
        && "instanceType"@[10] == 'p');
    reveal_strlit("name");
    assert("name"@.len() == 4 && "name"@[0] == 'n');
    reveal_strlit("givenName");
    assert("givenName"@.len() == 9 && "givenName"@[0] == 'g' && "givenName"@[5] == 'N');
    reveal_strlit("sAMAccountType");
    assert("sAMAccountType"@.len() == 14 && "sAMAccountType"@[0] == 's'
        && "sAMAccountType"@[5] == 'c' && "sAMAccountType"@[10] == 'T');
    reveal_strlit("userPrincipalName");
    assert("userPrincipalName"@.len() == 17 && "userPrincipalName"@[0] == 'u'
        && "userPrincipalName"@[5] == 'r' && "userPrincipalName"@[10] == 'p');
    reveal_strlit("whenChanged");
    assert("whenChanged"@.len() == 11 && "whenChanged"@[0] == 'w' && "whenChanged"@[5] == 'h'
        && "whenChanged"@[10] == 'd');
    reveal_strlit("pwdLastSet");
    assert("pwdLastSet"@.len() == 10 && "pwdLastSet"@[0] == 'p' && "pwdLastSet"@[5] == 's');
    reveal_strlit("badPwdCount");
    assert("badPwdCount"@.len() == 11 && "badPwdCount"@[0] == 'b' && "badPwdCount"@[5] == 'd'
        && "badPwdCount"@[10] == 't');
    reveal_strlit("lastLogon");
    assert("lastLogon"@.len() == 9 && "lastLogon"@[0] == 'l' && "lastLogon"@[5] == 'o');
    reveal_strlit("whenCreated");
    assert("whenCreated"@.len() == 11 && "whenCreated"@[0] == 'w' && "whenCreated"@[5] == 'r'
        && "whenCreated"@[10] == 'd');
    reveal_strlit("displayName");
    assert("displayName"@.len() == 11 && "displayName"@[0] == 'd' && "displayName"@[5] == 'a'
        && "displayName"@[10] == 'e');
    reveal_strlit("homeDrive");
    assert("homeDrive"@.len() == 9 && "homeDrive"@[0] == 'h' && "homeDrive"@[5] == 'r');
    reveal_strlit("userAccountControl");
    assert("userAccountControl"@.len() == 18 && "userAccountControl"@[0] == 'u'
        && "userAccountControl"@[5] == 'c' && "userAccountControl"@[10] == 't');
    reveal_strlit("primaryGroupID");
    assert("primaryGroupID"@.len() == 14 && "primaryGroupID"@[0] == 'p'
        && "primaryGroupID"@[5] == 'r' && "primaryGroupID"@[10] == 'u');
    reveal_strlit("uSNCreated");
    assert("uSNCreated"@.len() == 10 && "uSNCreated"@[0] == 'u' && "uSNCreated"@[5] == 'e');
    reveal_strlit("dSCorePropagationData");
    assert("dSCorePropagationData"@.len() == 21 && "dSCorePropagationData"@[0] == 'd'
        && "dSCorePropagationData"@[5] == 'e' && "dSCorePropagationData"@[10] == 'a');
}

/// The map that holds under each name what `values` gives for it.
pub open spec fn map_of(values: spec_fn(Seq<char>) -> Option<Seq<Seq<char>>>) -> AttributeMap {
    Map::new(|name: Seq<char>| values(name) is Some, |name: Seq<char>| values(name)->0)
}

/// A record whose every field is the lookup of its own attribute name in
/// `attrs` holds under each name what `attrs` holds under it, if the name
/// is known, and nothing if it is not.
proof fn lemma_attribute_is_lookup(account: UserAccount, attrs: AttributeMap, name: Seq<char>)
    requires
        values_of(account.sAMAccountName) == lookup(attrs, "sAMAccountName"@),
        values_of(account.sn) == lookup(attrs, "sn"@),
        values_of(account.badPasswordTime) == lookup(attrs, "badPasswordTime"@),
        values_of(account.uSNChanged) == lookup(attrs, "uSNChanged"@),
        values_of(account.objectClass) == lookup(attrs, "objectClass"@),
        values_of(account.logonCount) == lookup(attrs, "logonCount"@),
        values_of(account.homeDirectory) == lookup(attrs, "homeDirectory"@),
        values_of(account.accountExpires) == lookup(attrs, "accountExpires"@),
        values_of(account.lastLogonTimestamp) == lookup(attrs, "lastLogonTimestamp"@),
        values_of(account.lastLogoff) == lookup(attrs, "lastLogoff"@),
        values_of(account.distinguishedName) == lookup(attrs, "distinguishedName"@),
        values_of(account.countryCode) == lookup(attrs, "countryCode"@),
        values_of(account.objectCategory) == lookup(attrs, "objectCategory"@),
        values_of(account.cn) == lookup(attrs, "cn"@),
        values_of(account.codePage) == lookup(attrs, "codePage"@),
        values_of(account.memberOf) == lookup(attrs, "memberOf"@),
        values_of(account.instanceType) == lookup(attrs, "instanceType"@),
        values_of(account.name) == lookup(attrs, "name"@),
        values_of(account.givenName) == lookup(attrs, "givenName"@),
        values_of(account.sAMAccountType) == lookup(attrs, "sAMAccountType"@),
        values_of(account.userPrincipalName) == lookup(attrs, "userPrincipalName"@),
        values_of(account.whenChanged) == lookup(attrs, "whenChanged"@),
        values_of(account.pwdLastSet) == lookup(attrs, "pwdLastSet"@),
        values_of(account.badPwdCount) == lookup(attrs, "badPwdCount"@),
        values_of(account.lastLogon) == lookup(attrs, "lastLogon"@),
        values_of(account.whenCreated) == lookup(attrs, "whenCreated"@),
        values_of(account.displayName) == lookup(attrs, "displayName"@),
        values_of(account.homeDrive) == lookup(attrs, "homeDrive"@),
        values_of(account.userAccountControl) == lookup(attrs, "userAccountControl"@),
        values_of(account.primaryGroupID) == lookup(attrs, "primaryGroupID"@),
        values_of(account.uSNCreated) == lookup(attrs, "uSNCreated"@),
        values_of(account.dSCorePropagationData) == lookup(attrs, "dSCorePropagationData"@),
    ensures
        account.attribute(name) == (if is_known_attribute(name) {
            lookup(attrs, name)
        } else {
            None
        }),
{
}

/// Lookups in `attrs` under the names of `names` make up `attrs` cut down
/// to `names`.
proof fn lemma_lookups_give_restriction(
    values: spec_fn(Seq<char>) -> Option<Seq<Seq<char>>>,
    attrs: AttributeMap,
    names: Set<Seq<char>>,
)
    requires
        forall|name: Seq<char>|
            #[trigger] values(name) == (if names.contains(name) {
                lookup(attrs, name)
            } else {
                None
            }),
    ensures
        map_of(values) == attrs.restrict(names),
{
}

/// A record whose every field is the lookup of its own attribute name in
/// `attrs` is `attrs` cut down to the known names.
proof fn lemma_field_lookups_give_restriction(account: UserAccount, attrs: AttributeMap)
    requires
        values_of(account.sAMAccountName) == lookup(attrs, "sAMAccountName"@),
        values_of(account.sn) == lookup(attrs, "sn"@),
        values_of(account.badPasswordTime) == lookup(attrs, "badPasswordTime"@),
        values_of(account.uSNChanged) == lookup(attrs, "uSNChanged"@),
        values_of(account.objectClass) == lookup(attrs, "objectClass"@),
        values_of(account.logonCount) == lookup(attrs, "logonCount"@),
        values_of(account.homeDirectory) == lookup(attrs, "homeDirectory"@),
        values_of(account.accountExpires) == lookup(attrs, "accountExpires"@),
        values_of(account.lastLogonTimestamp) == lookup(attrs, "lastLogonTimestamp"@),
        values_of(account.lastLogoff) == lookup(attrs, "lastLogoff"@),
        values_of(account.distinguishedName) == lookup(attrs, "distinguishedName"@),
        values_of(account.countryCode) == lookup(attrs, "countryCode"@),
        values_of(account.objectCategory) == lookup(attrs, "objectCategory"@),
        values_of(account.cn) == lookup(attrs, "cn"@),
        values_of(account.codePage) == lookup(attrs, "codePage"@),
        values_of(account.memberOf) == lookup(attrs, "memberOf"@),
        values_of(account.instanceType) == lookup(attrs, "instanceType"@),
        values_of(account.name) == lookup(attrs, "name"@),
        values_of(account.givenName) == lookup(attrs, "givenName"@),
        values_of(account.sAMAccountType) == lookup(attrs, "sAMAccountType"@),
        values_of(account.userPrincipalName) == lookup(attrs, "userPrincipalName"@),
        values_of(account.whenChanged) == lookup(attrs, "whenChanged"@),
        values_of(account.pwdLastSet) == lookup(attrs, "pwdLastSet"@),
        values_of(account.badPwdCount) == lookup(attrs, "badPwdCount"@),
        values_of(account.lastLogon) == lookup(attrs, "lastLogon"@),
        values_of(account.whenCreated) == lookup(attrs, "whenCreated"@),
        values_of(account.displayName) == lookup(attrs, "displayName"@),
        values_of(account.homeDrive) == lookup(attrs, "homeDrive"@),
        values_of(account.userAccountControl) == lookup(attrs, "userAccountControl"@),
        values_of(account.primaryGroupID) == lookup(attrs, "primaryGroupID"@),
        values_of(account.uSNCreated) == lookup(attrs, "uSNCreated"@),
        values_of(account.dSCorePropagationData) == lookup(attrs, "dSCorePropagationData"@),
    ensures
        account@ == decoded(attrs),
{
    let values = |name: Seq<char>| account.attribute(name);
    assert forall|name: Seq<char>|
        #[trigger] values(name) == (if known_attribute_names().contains(name) {
            lookup(attrs, name)
        } else {
            None
        }) by {
        lemma_attribute_is_lookup(account, attrs, name);
    }
    lemma_lookups_give_restriction(values, attrs, known_attribute_names());
}

} // verus!
