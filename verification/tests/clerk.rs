use content_service::auth_provider::auth_provider_trait::AuthProviderTrait;
use content_service::auth_provider::clerk_error::{
    clerk_error, clerk_user_facing_message, is_duplicate_slug_error,
};
use content_service::auth_provider::clerk_service::{
    ClerkService, ClerkTask, UserChange,
};
use content_service::auth_provider::clerk_users::{
    map_auth_data_from_get_invited_user_response, map_auth_data_from_get_user_response, AfterPage,
    Listed, UserPages,
};
use content_service::error::{ErrorReport, GeneralCause, ServiceError};
use content_service::http::{
    Credentials, HttpReply, HttpRequest, Method, Payload, Sent, TransportError,
};
use content_service::json::Json;
use http::StatusCode;

fn clerk() -> ClerkService {
    ClerkService::new("https://clerk.test".to_string(), "secret".to_string())
}

fn answered(status: u16, text: &str) -> Sent {
    Sent::Answered(HttpReply {
        status,
        content_length: Some(text.len() as u64),
        text: text.to_string(),
        body: Ok(text.as_bytes().to_vec()),
    })
}

fn failed() -> Sent {
    Sent::Failed(TransportError {
        report: ErrorReport { message: "error sending request".to_string(), sources: vec![] },
        is_builder: false,
        is_connect: true,
    })
}

fn body_text(request: &HttpRequest) -> String {
    match &request.payload {
        Payload::Json(json) => json.to_text(),
        other => panic!("no document: {other:?}"),
    }
}

#[test]
fn user_facing_message_prefers_long_message() {
    let body = r#"{"errors":[{"message":"is invalid","long_message":"Name must not exceed 256 characters.","code":"form_param_invalid"}]}"#;
    assert_eq!(
        clerk_user_facing_message(body),
        Some("Name must not exceed 256 characters.".to_string())
    );
}

#[test]
fn user_facing_message_falls_back_to_message() {
    let body = r#"{"errors":[{"message":"is invalid","code":"form_param_invalid"}]}"#;
    assert_eq!(
        clerk_user_facing_message(body),
        Some("is invalid".to_string())
    );
}

#[test]
fn validation_failure_becomes_invalid_request_parameters() {
    let body = r#"{"errors":[{"long_message":"Name must not exceed 256 characters."}]}"#;
    let err = clerk_error(
        "createOrganization",
        StatusCode::UNPROCESSABLE_ENTITY.as_u16(),
        body,
    );
    assert!(matches!(
        err,
        ServiceError::InvalidRequestParameters(message)
            if message == "Name must not exceed 256 characters."
    ));
}

#[test]
fn transient_failures_are_retryable() {
    for status in [
        StatusCode::REQUEST_TIMEOUT,
        StatusCode::TOO_MANY_REQUESTS,
        StatusCode::INTERNAL_SERVER_ERROR,
        StatusCode::BAD_GATEWAY,
        StatusCode::SERVICE_UNAVAILABLE,
    ] {
        let err = clerk_error("createOrganization", status.as_u16(), "upstream exploded");
        assert!(err.is_retryable(), "{status} should be retryable");
    }
}

#[test]
fn non_transient_failures_are_not_retryable() {
    // 401/403 must never surface Clerk's message (it describes our API key,
    // not anything the end user can act on) and must not be retried.
    let unauthorized = clerk_error(
        "createUser",
        StatusCode::UNAUTHORIZED.as_u16(),
        r#"{"errors":[{"long_message":"Invalid API key"}]}"#,
    );
    assert!(matches!(unauthorized, ServiceError::GeneralError(_)));
    assert!(!unauthorized.is_retryable());
}

#[test]
fn duplicate_slug_detection() {
    let body = r#"{"errors":[{"code":"form_identifier_exists","meta":{"param_name":"slug"}}]}"#;
    assert!(is_duplicate_slug_error(body));

    let other_param = r#"{"errors":[{"code":"form_identifier_exists","meta":{"param_name":"email_address"}}]}"#;
    assert!(!is_duplicate_slug_error(other_param));
    assert!(!is_duplicate_slug_error("not json"));
}

#[test]
fn blank_messages_and_missing_errors_say_nothing() {
    assert_eq!(clerk_user_facing_message(r#"{"errors":[{"message":"  "}]}"#), None);
    assert_eq!(clerk_user_facing_message(r#"{"errors":[]}"#), None);
    assert_eq!(clerk_user_facing_message(r#"{"errors":{}}"#), None);
    assert_eq!(clerk_user_facing_message("{}"), None);
    assert_eq!(
        clerk_user_facing_message(r#"{"errors":[{"message":"　 trimmed \n"}]}"#),
        Some("trimmed".to_string())
    );
}

#[test]
fn failures_report_status_and_body() {
    match clerk_error("createUser", 404, "gone") {
        ServiceError::GeneralError(GeneralCause::Plain(message)) => {
            assert_eq!(message, "Clerk API error (404 Not Found): gone")
        }
        other => panic!("{other:?}"),
    }
    match clerk_error("createUser", 400, "not json") {
        ServiceError::GeneralError(GeneralCause::Plain(message)) => {
            assert_eq!(message, "Clerk API error (400 Bad Request): not json")
        }
        other => panic!("{other:?}"),
    }
    match clerk_error("createUser", 503, "later") {
        ServiceError::NotReadyError(message) => {
            assert_eq!(message, "Clerk API error (503 Service Unavailable): later")
        }
        other => panic!("{other:?}"),
    }
}

#[test]
fn users_are_read_from_documents() {
    let json = Json::parse(
        r#"{"id":"user_1","email_addresses":[{"email_address":"a@b.c"},{"email_address":"x"}],
            "public_metadata":{"department":"legal"},"first_name":"Ann","last_name":null,
            "last_active_at":1700000000000,"image_url":"https://i","username":"ann"}"#,
    )
    .unwrap();
    let user = map_auth_data_from_get_user_response(&json);
    assert_eq!(user.user_id, "user_1");
    assert_eq!(user.email, "a@b.c");
    assert_eq!(user.department.as_deref(), Some("legal"));
    assert_eq!(user.first_name.as_deref(), Some("Ann"));
    assert_eq!(user.last_name, None);
    assert_eq!(user.last_login.as_deref(), Some("1700000000000"));
    assert_eq!(user.picture.as_deref(), Some("https://i"));
    assert_eq!(user.username.as_deref(), Some("ann"));

    let nobody = map_auth_data_from_get_user_response(&Json::parse("{}").unwrap());
    assert_eq!(nobody.user_id, "");
    assert_eq!(nobody.email, "");
    assert_eq!(nobody.last_login.as_deref(), Some("null"));
    assert_eq!(nobody.department, None);
}

#[test]
fn invited_users_are_known_by_email() {
    let json = Json::parse(r#"{"email_address":"i@n.v"}"#).unwrap();
    let user = map_auth_data_from_get_invited_user_response(&json);
    assert_eq!(user.user_id, "i@n.v");
    assert_eq!(user.email, "i@n.v");
    assert_eq!(user.last_login, None);
}

#[test]
fn requests_carry_key_and_type() {
    let request = clerk().request(Method::Get, "/v1/users/u");
    assert_eq!(request.url, "https://clerk.test/v1/users/u");
    assert_eq!(
        request.headers,
        vec![("content-type".to_string(), "application/json".to_string())]
    );
    assert!(matches!(request.credentials, Credentials::Bearer(ref key) if key == "secret"));
}

#[test]
fn org_users_search_members_and_invitations() {
    let task = clerk()
        .get_org_user_data("org_1".to_string(), Some("Jo & Co".to_string()))
        .unwrap();
    let ClerkTask::OrgUsers { members, invitations } = task else {
        panic!("no lists");
    };
    assert_eq!(
        clerk().page_request(&members).url,
        "https://clerk.test/v1/users?organization_id=org_1&query=Jo%20%26%20Co&offset=0&limit=500"
    );
    assert_eq!(
        clerk().page_request(&invitations).url,
        "https://clerk.test/v1/organizations/org_1/invitations?status=pending&offset=0&limit=500"
    );

    let page = r#"{"data":[
        {"object":"organization_invitation","email_address":"A.JO & CO@x"},
        {"object":"organization_invitation","email_address":"other@x"},
        {"object":"something_else","email_address":"jo & co"},
        {"object":"organization_invitation"}]}"#;
    let AfterPage::Done(Ok(invited)) = invitations.receive(&answered(200, page)) else {
        panic!("not done");
    };
    assert_eq!(invited.len(), 1);
    assert_eq!(invited[0].email, "A.JO & CO@x");
}

#[test]
fn pages_are_read_until_one_is_not_full() {
    let mut full = String::from("[");
    for i in 0..500 {
        if i > 0 {
            full.push(',');
        }
        full.push_str(&format!(r#"{{"id":"u{i}"}}"#));
    }
    full.push(']');
    let pages = UserPages::new("/v1/users?organization_id=o".to_string(), Listed::Members);
    let AfterPage::More(pages) = pages.receive(&answered(200, &full)) else {
        panic!("a full page is not the last");
    };
    assert_eq!(pages.path(), "/v1/users?organization_id=o&offset=500&limit=500");
    let AfterPage::Done(Ok(users)) = pages.receive(&answered(200, r#"[{"id":"last"}]"#)) else {
        panic!("a short page is the last");
    };
    assert_eq!(users.len(), 501);
    assert_eq!(users[0].user_id, "u0");
    assert_eq!(users[500].user_id, "last");
}

#[test]
fn pages_fail_on_bad_replies() {
    let pages = || UserPages::new("/p?x".to_string(), Listed::Members);
    assert!(matches!(
        pages().receive(&answered(200, r#"{"data":1}"#)),
        AfterPage::Done(Err(ServiceError::GeneralError(GeneralCause::Plain(m)))) if m == "Unexpected Clerk response format"
    ));
    assert!(matches!(
        pages().receive(&answered(404, "")),
        AfterPage::Done(Err(ServiceError::NotFoundError(m)))
            if m == "The requested resource does not exist in Clerk"
    ));
    assert!(matches!(
        pages().receive(&answered(500, "oops")),
        AfterPage::Done(Err(ServiceError::GeneralError(GeneralCause::Plain(m))))
            if m == "Clerk API error (500 Internal Server Error): oops"
    ));
    assert!(matches!(
        pages().receive(&failed()),
        AfterPage::Done(Err(ServiceError::ReqwestError(r))) if r.message == "error sending request"
    ));
    assert!(matches!(
        pages().receive(&answered(200, "not json")),
        AfterPage::Done(Err(ServiceError::ReqwestError(r)))
            if r.message == "error decoding response body" && r.sources.len() == 1
    ));
}

#[test]
fn both_lists_make_up_the_organization() {
    let user = |id: &str| {
        map_auth_data_from_get_user_response(&Json::object().with("id", Json::of_text(id)))
    };
    let users = ClerkService::all_users(Ok(vec![user("a")]), Ok(vec![user("b")])).unwrap();
    assert_eq!(users[0].user_id, "a");
    assert_eq!(users[1].user_id, "b");
    let error = ClerkService::all_users(
        Err(ServiceError::of_message("members".to_string())),
        Err(ServiceError::of_message("invited".to_string())),
    );
    assert!(matches!(error, Err(ServiceError::GeneralError(GeneralCause::Plain(m))) if m == "members"));
    let error = ClerkService::all_users(
        Ok(vec![]),
        Err(ServiceError::of_message("invited".to_string())),
    );
    assert!(matches!(error, Err(ServiceError::GeneralError(GeneralCause::Plain(m))) if m == "invited"));
}

#[test]
fn users_by_id_pass_over_missing_ones() {
    let none = clerk().get_user_data_with_user_ids(&vec![]).unwrap();
    assert!(matches!(none, ClerkTask::Users(users) if users.is_empty()));

    let ids = vec!["a".to_string(), "b".to_string()];
    let ClerkTask::UsersById(users) = clerk().get_user_data_with_user_ids(&ids).unwrap() else {
        panic!("no users");
    };
    assert_eq!(users.request(&clerk()).url, "https://clerk.test/v1/users/a");
    let users = users.receive(&answered(404, "")).unwrap();
    assert!(!users.is_done());
    assert_eq!(users.request(&clerk()).url, "https://clerk.test/v1/users/b");
    let users = users.receive(&answered(200, r#"{"id":"b"}"#)).unwrap();
    assert!(users.is_done());
    assert_eq!(users.users.len(), 1);
    assert_eq!(users.users[0].user_id, "b");
}

#[test]
fn users_by_email_are_encoded() {
    let emails = vec!["a+b@c.d".to_string(), "ä@x".to_string()];
    let ClerkTask::UsersByEmail(request) =
        clerk().get_user_data_with_user_emails(&emails).unwrap()
    else {
        panic!("no request");
    };
    assert_eq!(
        request.url,
        "https://clerk.test/v1/users?email_address[]=a%2Bb%40c.d&email_address[]=%C3%A4%40x"
    );
    let users = ClerkService::users_found(&answered(200, r#"{"data":[{"id":"1"}]}"#)).unwrap();
    assert_eq!(users[0].user_id, "1");
    let users = ClerkService::users_found(&answered(200, r#"[{"id":"2"}]"#)).unwrap();
    assert_eq!(users[0].user_id, "2");
    assert!(ClerkService::users_found(&answered(200, r#"{"data":7}"#)).unwrap().is_empty());
}

#[test]
fn leaving_an_organization_needs_the_user() {
    let known = clerk()
        .delete_user_from_org("e@x", "org", &Some("user_7".to_string()))
        .unwrap();
    let ClerkTask::ChangeUser(request) = known else { panic!("no request") };
    assert_eq!(request.method, Method::Delete);
    assert_eq!(request.url, "https://clerk.test/v1/organizations/org/memberships/user_7");

    let unknown = clerk().delete_user_from_org("e@x", "org", &None).unwrap();
    let ClerkTask::FindUser { request, change } = unknown else { panic!("no request") };
    assert_eq!(request.url, "https://clerk.test/v1/users?email_address[]=e%40x");
    let request = clerk()
        .user_found(&answered(200, r#"[{"id":"user_8"}]"#), change)
        .unwrap()
        .unwrap();
    assert_eq!(request.url, "https://clerk.test/v1/organizations/org/memberships/user_8");

    let leave = || UserChange::LeaveOrganization("org".to_string());
    assert!(clerk().user_found(&answered(200, "[]"), leave()).unwrap().is_none());
    assert!(clerk().user_found(&answered(404, ""), leave()).unwrap().is_none());
    assert!(clerk().user_found(&answered(500, ""), leave()).is_err());

    assert!(ClerkService::user_changed(&answered(404, "")).is_ok());
    assert!(ClerkService::user_changed(&answered(200, "{}")).is_ok());
    assert!(ClerkService::user_changed(&answered(403, "no")).is_err());
}

#[test]
fn updates_send_only_names_that_are_given() {
    let task = clerk()
        .update_user("e@x", "Ann", "", &Some("u".to_string()), "ann")
        .unwrap();
    let ClerkTask::ChangeUser(request) = task else { panic!("no request") };
    assert_eq!(request.method, Method::Patch);
    assert_eq!(request.url, "https://clerk.test/v1/users/u");
    assert_eq!(body_text(&request), r#"{"first_name":"Ann","username":"ann"}"#);
}

#[test]
fn invitations_name_role_and_redirect() {
    let task = clerk().invite_user("org", "ignored", "e@x", "site.test", &true).unwrap();
    let ClerkTask::Invite(request) = task else { panic!("no request") };
    assert_eq!(request.url, "https://clerk.test/v1/organizations/org/invitations");
    assert_eq!(
        body_text(&request),
        r#"{"email_address":"e@x","redirect_url":"https://site.test","role":"org:admin"}"#
    );
    assert_eq!(ClerkService::user_invited(&answered(200, r#"{"id":"inv"}"#)).unwrap(), "inv");
    assert!(matches!(
        ClerkService::user_invited(&answered(200, r#"{"errors":"bad"}"#)),
        Err(ServiceError::GeneralError(GeneralCause::Plain(m))) if m == "Missing invite ID: String(\"bad\")"
    ));

    let task = clerk().cancel_invitation("org", "inv").unwrap();
    let ClerkTask::CancelInvitation(request) = task else { panic!("no request") };
    assert_eq!(request.method, Method::Post);
    assert_eq!(request.url, "https://clerk.test/v1/organizations/org/invitations/inv/revoke");
    assert!(ClerkService::invitation_cancelled(&answered(200, "{}")).is_ok());
    assert!(matches!(
        ClerkService::invitation_cancelled(&answered(404, "")),
        Err(ServiceError::NotFoundError(_))
    ));
}

#[test]
fn users_are_created_with_metadata() {
    let metadata = Some(Json::parse(r#"{"plan":1}"#).unwrap());
    let task = clerk().create_user("e@x", "A", "B", &metadata).unwrap();
    let ClerkTask::CreateUser(request) = task else { panic!("no request") };
    assert_eq!(
        body_text(&request),
        r#"{"email_address":["e@x"],"first_name":"A","last_name":"B","public_metadata":{"plan":1},"skip_password_requirement":true}"#
    );
    assert_eq!(ClerkService::user_created(&answered(200, r#"{"id":"u"}"#)).unwrap(), "u");
    assert!(matches!(
        ClerkService::user_created(&answered(422, r#"{"errors":[{"message":"taken"}]}"#)),
        Err(ServiceError::InvalidRequestParameters(m)) if m == "taken"
    ));
    assert!(matches!(
        ClerkService::user_created(&answered(200, "{}")),
        Err(ServiceError::GeneralError(GeneralCause::Plain(m))) if m == "Missing user ID: Null"
    ));
}

#[test]
fn sign_in_tokens_expire() {
    let task = clerk().create_sign_in_token("u", 3600).unwrap();
    let ClerkTask::CreateSignInToken(request) = task else { panic!("no request") };
    assert_eq!(request.url, "https://clerk.test/v1/sign_in_tokens");
    assert_eq!(body_text(&request), r#"{"expires_in_seconds":3600,"user_id":"u"}"#);
    assert_eq!(
        ClerkService::sign_in_token_created(&answered(200, r#"{"token":"t"}"#)).unwrap(),
        "t"
    );
    assert!(matches!(
        ClerkService::sign_in_token_created(&answered(200, "{}")),
        Err(ServiceError::GeneralError(GeneralCause::Plain(m))) if m == "Missing sign-in token: Null"
    ));
}

#[test]
fn organization_metadata_is_read_and_merged() {
    let task = clerk().get_organization_public_metadata("org").unwrap();
    let ClerkTask::GetMetadata(request) = task else { panic!("no request") };
    assert_eq!(request.url, "https://clerk.test/v1/organizations/org");
    assert!(ClerkService::metadata_found(&answered(404, "")).unwrap().is_none());
    let found = ClerkService::metadata_found(&answered(200, r#"{"public_metadata":{"a":1}}"#));
    assert_eq!(found.unwrap().unwrap().to_text(), r#"{"a":1}"#);
    let found = ClerkService::metadata_found(&answered(200, "{}"));
    assert_eq!(found.unwrap().unwrap().to_text(), "null");
    assert!(ClerkService::metadata_found(&answered(502, "x")).unwrap_err().is_retryable());

    let metadata = Json::parse(r#"{"a":2}"#).unwrap();
    let task = clerk().merge_organization_public_metadata("org", metadata).unwrap();
    let ClerkTask::MergeMetadata(request) = task else { panic!("no request") };
    assert_eq!(request.method, Method::Patch);
    assert_eq!(request.url, "https://clerk.test/v1/organizations/org/metadata");
    assert_eq!(body_text(&request), r#"{"public_metadata":{"a":2}}"#);
    assert!(ClerkService::metadata_merged(&answered(204, "")).is_ok());
    assert!(ClerkService::metadata_merged(&answered(429, "")).unwrap_err().is_retryable());
    assert!(matches!(
        ClerkService::metadata_merged(&failed()),
        Err(ServiceError::ReqwestError(_))
    ));
}

#[test]
fn organizations_have_slugs() {
    let task = clerk()
        .create_organization("My Org Ä", Some("admin".to_string()), None, None)
        .unwrap();
    let ClerkTask::CreateOrganization(request) = task else { panic!("no request") };
    assert_eq!(
        body_text(&request),
        r#"{"created_by":"admin","name":"My Org Ä","private_metadata":null,"public_metadata":null,"slug":"my-org-ä"}"#
    );
    assert_eq!(
        ClerkService::organization_created("My Org", &answered(200, r#"{"id":"o"}"#)).unwrap(),
        "o"
    );
    let taken = r#"{"errors":[{"code":"form_identifier_exists","meta":{"param_name":"slug"}}]}"#;
    assert!(matches!(
        ClerkService::organization_created("My Org", &answered(422, taken)),
        Err(ServiceError::AlreadyExistsError(m))
            if m == "An organization named 'My Org' already exists. Please choose a different name."
    ));
    assert!(matches!(
        ClerkService::organization_created("My Org", &answered(200, "{}")),
        Err(ServiceError::GeneralError(GeneralCause::Plain(m))) if m == "Missing organization ID in response: Null"
    ));
}
