use ldap_accounts::response::Status;
use ldap_accounts::{not_found, options_users, options_users_delete, CORS};

#[test]
fn options_answers_are_empty_successes() {
    let (body, status) = options_users().into_parts();
    assert_eq!(body.message, "Options for /users");
    assert_eq!(body.status, 200);
    assert_eq!(body.data, None);
    assert_eq!(status, Status::Success);
    let (body, status) = options_users_delete("jdoe").into_parts();
    assert_eq!(body.message, "Options for /users");
    assert_eq!(body.status, 200);
    assert_eq!(status, Status::Success);
}

#[test]
fn unknown_path_is_reported_with_its_uri() {
    let (body, status) = not_found("/nowhere").into_parts();
    assert_eq!(body.message, "/nowhere Not Found");
    assert_eq!(body.status, 404);
    assert_eq!(body.data, None);
    assert_eq!(status, Status::NotFound);
}

#[test]
fn cors_policy_lists_the_four_headers() {
    let headers = CORS.on_response();
    let expected = vec![
        ("Access-Control-Allow-Origin".to_string(), "*".to_string()),
        ("Access-Control-Allow-Methods".to_string(), "POST, GET, PATCH, OPTIONS, DELETE".to_string()),
        ("Access-Control-Allow-Headers".to_string(), "*".to_string()),
        ("Access-Control-Allow-Credentials".to_string(), "true".to_string()),
    ];
    assert_eq!(headers, expected);
    assert_eq!(CORS.info(), "Add CORS headers to responses");
}

#[test]
fn created_user_is_answered_with_201_and_the_record() {
    let mut attrs = ldap_accounts::entry::RawAttributes::new();
    attrs.insert("cn".to_string(), vec!["Test User".to_string()]);
    let account = ldap_accounts::user::UserAccount::decode(&attrs);
    let (body, status) = ldap_accounts::create_user(Ok(account)).into_parts();
    assert_eq!(status, Status::Created);
    assert_eq!(status.code(), 201);
    assert_eq!(body.status, 201);
    assert_eq!(body.message, "Created");
    assert_eq!(body.data.unwrap().cn, Some(vec!["Test User".to_string()]));
}

#[test]
fn failed_creation_is_answered_with_500_and_no_data() {
    for error in [
        ldap_accounts::provision::ProvisionError::AddFailed,
        ldap_accounts::provision::ProvisionError::VerificationFailed,
    ] {
        let (body, status) = ldap_accounts::create_user(Err(error)).into_parts();
        assert_eq!(status, Status::InternalServerError);
        assert_eq!(body.status, 500);
        assert_eq!(body.message, "Error Creating User");
        assert!(body.data.is_none());
    }
}

#[test]
fn deletion_outcomes_have_their_own_answers() {
    let (body, status) = ldap_accounts::delete_user(Ok(())).into_parts();
    assert_eq!((body.message.as_str(), body.status, status), ("Deleted", 200, Status::Success));
    assert_eq!(body.data, None);
    let (body, status) =
        ldap_accounts::delete_user(Err(ldap_accounts::removal::DeleteError::NotFound)).into_parts();
    assert_eq!((body.message.as_str(), body.status, status), ("User Not Found", 404, Status::NotFound));
    assert_eq!(body.data, None);
    let (body, status) =
        ldap_accounts::delete_user(Err(ldap_accounts::removal::DeleteError::DeleteFailed)).into_parts();
    assert_eq!(
        (body.message.as_str(), body.status, status),
        ("Error Deleting User", 500, Status::InternalServerError)
    );
    assert_eq!(body.data, None);
}

#[test]
fn all_users_are_answered_with_200_and_their_records() {
    let (body, status) = ldap_accounts::get_all_users(Vec::new()).into_parts();
    assert_eq!((body.message.as_str(), body.status, status), ("Success", 200, Status::Success));
    assert_eq!(body.data.unwrap().len(), 0);

    let mut attrs = ldap_accounts::entry::RawAttributes::new();
    attrs.insert("cn".to_string(), vec!["Jane Doe".to_string()]);
    let entry = ldap_accounts::entry::RawEntry { dn: "CN=Jane Doe,DC=example,DC=com".to_string(), attrs };
    let (body, _) = ldap_accounts::get_all_users(vec![entry]).into_parts();
    let users = body.data.unwrap();
    assert_eq!(users.len(), 1);
    assert_eq!(users[0].cn, Some(vec!["Jane Doe".to_string()]));
}

#[test]
fn status_numbers_are_the_http_ones() {
    assert_eq!(Status::Success.code(), 200);
    assert_eq!(Status::Created.code(), 201);
    assert_eq!(Status::NotFound.code(), 404);
    assert_eq!(Status::InternalServerError.code(), 500);
}

#[test]
fn new_answer_carries_the_number_of_its_status() {
    let answer = ldap_accounts::response::ApiResponse::new("hello".to_string(), Status::NotFound, Some(7u8));
    assert_eq!(answer.status(), Status::NotFound);
    let (body, status) = answer.into_parts();
    assert_eq!(body.message, "hello");
    assert_eq!(body.status, 404);
    assert_eq!(body.data, Some(7));
    assert_eq!(status, Status::NotFound);
}

#[test]
fn unavailable_directory_is_answered_with_500_and_no_data() {
    let (body, status) = ldap_accounts::directory_unavailable::<()>().into_parts();
    assert_eq!(
        (body.message.as_str(), body.status, status),
        ("Directory Unavailable", 500, Status::InternalServerError)
    );
    assert_eq!(body.data, None);
}
