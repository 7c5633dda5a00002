use ldap_accounts::entry::{RawAttributes, RawEntry};
use ldap_accounts::user::UserAccount;

fn strings(values: &[&str]) -> Vec<String> {
    values.iter().map(|v| v.to_string()).collect()
}

fn sample_attributes() -> RawAttributes {
    let mut attrs = RawAttributes::new();
    attrs.insert("cn".to_string(), strings(&["Jane Doe"]));
    attrs.insert("sAMAccountName".to_string(), strings(&["jdoe"]));
    attrs.insert("objectClass".to_string(), strings(&["top", "person", "organizationalPerson", "user"]));
    attrs.insert("memberOf".to_string(), strings(&["CN=B,DC=example,DC=com", "CN=A,DC=example,DC=com"]));
    attrs.insert("telephoneNumber".to_string(), strings(&["555-0100"]));
    attrs.insert("CN".to_string(), strings(&["wrong case"]));
    attrs
}

#[test]
fn raw_attributes_return_what_was_inserted() {
    let mut attrs = RawAttributes::new();
    assert_eq!(attrs.get("cn"), None);
    attrs.insert("cn".to_string(), strings(&["Jane Doe"]));
    assert_eq!(attrs.get("cn"), Some(strings(&["Jane Doe"])));
    assert_eq!(attrs.get("sn"), None);
    attrs.insert("cn".to_string(), strings(&["Jane Roe", "J. Roe"]));
    assert_eq!(attrs.get("cn"), Some(strings(&["Jane Roe", "J. Roe"])));
}

#[test]
fn default_has_every_attribute_absent() {
    let account = UserAccount::default();
    assert_eq!(account.sAMAccountName, None);
    assert_eq!(account.sn, None);
    assert_eq!(account.badPasswordTime, None);
    assert_eq!(account.uSNChanged, None);
    assert_eq!(account.objectClass, None);
    assert_eq!(account.logonCount, None);
    assert_eq!(account.homeDirectory, None);
    assert_eq!(account.accountExpires, None);
    assert_eq!(account.lastLogonTimestamp, None);
    assert_eq!(account.lastLogoff, None);
    assert_eq!(account.distinguishedName, None);
    assert_eq!(account.countryCode, None);
    assert_eq!(account.objectCategory, None);
    assert_eq!(account.cn, None);
    assert_eq!(account.codePage, None);
    assert_eq!(account.memberOf, None);
    assert_eq!(account.instanceType, None);
    assert_eq!(account.name, None);
    assert_eq!(account.givenName, None);
    assert_eq!(account.sAMAccountType, None);
    assert_eq!(account.userPrincipalName, None);
    assert_eq!(account.whenChanged, None);
    assert_eq!(account.pwdLastSet, None);
    assert_eq!(account.badPwdCount, None);
    assert_eq!(account.lastLogon, None);
    assert_eq!(account.whenCreated, None);
    assert_eq!(account.displayName, None);
    assert_eq!(account.homeDrive, None);
    assert_eq!(account.userAccountControl, None);
    assert_eq!(account.primaryGroupID, None);
    assert_eq!(account.uSNCreated, None);
    assert_eq!(account.dSCorePropagationData, None);
}

#[test]
fn decode_keeps_known_attributes_unchanged() {
    let account = UserAccount::decode(&sample_attributes());
    assert_eq!(account.cn, Some(strings(&["Jane Doe"])));
    assert_eq!(account.sAMAccountName, Some(strings(&["jdoe"])));
    assert_eq!(
        account.objectClass,
        Some(strings(&["top", "person", "organizationalPerson", "user"]))
    );
    assert_eq!(
        account.memberOf,
        Some(strings(&["CN=B,DC=example,DC=com", "CN=A,DC=example,DC=com"]))
    );
}

#[test]
fn decode_leaves_missing_attributes_absent() {
    let account = UserAccount::decode(&sample_attributes());
    assert_eq!(account.sn, None);
    assert_eq!(account.givenName, None);
    assert_eq!(account.displayName, None);
    assert_eq!(account.distinguishedName, None);
    assert_eq!(account.userAccountControl, None);
}

#[test]
fn decode_tells_an_empty_list_from_an_absent_attribute() {
    let mut attrs = RawAttributes::new();
    attrs.insert("mail".to_string(), Vec::new());
    attrs.insert("sn".to_string(), Vec::new());
    let account = UserAccount::decode(&attrs);
    assert_eq!(account.sn, Some(Vec::new()));
    assert_eq!(account.cn, None);
}

#[test]
fn decode_of_nothing_is_the_default() {
    let account = UserAccount::decode(&RawAttributes::new());
    assert_eq!(format!("{:?}", account), format!("{:?}", UserAccount::default()));
}

#[test]
fn decode_reads_every_known_attribute_under_its_own_name() {
    let names = [
        "sAMAccountName", "sn", "badPasswordTime", "uSNChanged", "objectClass", "logonCount",
        "homeDirectory", "accountExpires", "lastLogonTimestamp", "lastLogoff",
        "distinguishedName", "countryCode", "objectCategory", "cn", "codePage", "memberOf",
        "instanceType", "name", "givenName", "sAMAccountType", "userPrincipalName",
        "whenChanged", "pwdLastSet", "badPwdCount", "lastLogon", "whenCreated", "displayName",
        "homeDrive", "userAccountControl", "primaryGroupID", "uSNCreated",
        "dSCorePropagationData",
    ];
    let mut attrs = RawAttributes::new();
    for name in names {
        attrs.insert(name.to_string(), vec![format!("value of {}", name)]);
    }
    let a = UserAccount::decode(&attrs);
    let fields = [
        a.sAMAccountName, a.sn, a.badPasswordTime, a.uSNChanged, a.objectClass, a.logonCount,
        a.homeDirectory, a.accountExpires, a.lastLogonTimestamp, a.lastLogoff,
        a.distinguishedName, a.countryCode, a.objectCategory, a.cn, a.codePage, a.memberOf,
        a.instanceType, a.name, a.givenName, a.sAMAccountType, a.userPrincipalName,
        a.whenChanged, a.pwdLastSet, a.badPwdCount, a.lastLogon, a.whenCreated, a.displayName,
        a.homeDrive, a.userAccountControl, a.primaryGroupID, a.uSNCreated,
        a.dSCorePropagationData,
    ];
    for (name, field) in names.iter().zip(fields.iter()) {
        assert_eq!(field, &Some(vec![format!("value of {}", name)]));
    }
}

#[test]
fn from_reads_as_decode_does() {
    let account = UserAccount::from(sample_attributes());
    assert_eq!(account.cn, Some(strings(&["Jane Doe"])));
    assert_eq!(account.sn, None);
    let account: UserAccount = sample_attributes().into();
    assert_eq!(account.sAMAccountName, Some(strings(&["jdoe"])));
}

#[test]
fn fetch_all_users_of_no_entries_is_empty() {
    assert_eq!(UserAccount::fetch_all_users(Vec::new()).len(), 0);
}

#[test]
fn fetch_all_users_decodes_each_entry_in_order() {
    let mut first = RawAttributes::new();
    first.insert("cn".to_string(), strings(&["First"]));
    let mut second = RawAttributes::new();
    second.insert("cn".to_string(), strings(&["Second"]));
    second.insert("unknownThing".to_string(), strings(&["x"]));
    let accounts = UserAccount::fetch_all_users(vec![
        RawEntry { dn: "CN=First,DC=example,DC=com".to_string(), attrs: first },
        RawEntry { dn: "CN=Second,DC=example,DC=com".to_string(), attrs: second },
    ]);
    assert_eq!(accounts.len(), 2);
    assert_eq!(accounts[0].cn, Some(strings(&["First"])));
    assert_eq!(accounts[1].cn, Some(strings(&["Second"])));
}
