use content_service::auth_provider::auth0_service::{
    Auth0Goal, Auth0Service, Auth0Settings, Auth0Step, Auth0Task,
};
use content_service::auth_provider::auth_provider_trait::AuthProviderTrait;
use content_service::error::{ErrorReport, GeneralCause, ServiceError};
use content_service::http::{HttpReply, HttpRequest, Method, Payload, Sent, TransportError};
use content_service::json::Json;

fn auth0() -> Auth0Service {
    let text = |s: &str| s.to_string();
    Auth0Service::new(Auth0Settings {
        client_id: text("client"),
        issuer_base_url: text("https://auth0.test"),
        m2m_audience: text("audience"),
        m2m_client_id: text("m2m"),
        m2m_client_secret: text("hidden"),
    })
}

fn answered(status: u16, text: &str) -> Sent {
    Sent::Answered(HttpReply {
        status,
        content_length: None,
        text: text.to_string(),
        body: Ok(text.as_bytes().to_vec()),
    })
}

fn failed() -> Sent {
    Sent::Failed(TransportError {
        report: ErrorReport {
            message: "error sending request".to_string(),
            sources: vec!["refused".to_string()],
        },
        is_builder: false,
        is_connect: true,
    })
}

fn header<'a>(request: &'a HttpRequest, name: &str) -> Option<&'a str> {
    request.headers.iter().find(|(n, _)| n == name).map(|(_, value)| value.as_str())
}

fn body_text(request: &HttpRequest) -> String {
    match &request.payload {
        Payload::Json(json) => json.to_text(),
        other => panic!("no document: {other:?}"),
    }
}

fn provider_error<T>(result: Result<T, ServiceError>) -> String {
    match result {
        Err(ServiceError::GeneralError(GeneralCause::AuthProvider(message))) => message,
        Err(other) => panic!("{other:?}"),
        Ok(_) => panic!("accepted"),
    }
}

fn goal(task: Result<Auth0Task, ServiceError>) -> Auth0Goal {
    match task.unwrap() {
        Auth0Task::Authorize { request, goal } => {
            assert_eq!(request.url, "https://auth0.test/oauth/token");
            goal
        }
        other => panic!("{other:?}"),
    }
}

#[test]
fn tokens_are_asked_for_with_client_credentials() {
    let request = auth0().get_auth0_token();
    assert_eq!(request.method, Method::Post);
    let pair = |name: &str, value: &str| (name.to_string(), value.to_string());
    match request.payload {
        Payload::Form(form) => assert_eq!(
            form,
            vec![
                pair("grant_type", "client_credentials"),
                pair("client_id", "m2m"),
                pair("client_secret", "hidden"),
                pair("audience", "audience"),
            ]
        ),
        other => panic!("{other:?}"),
    }
    assert_eq!(
        Auth0Service::read_token(&answered(200, r#"{"access_token":"t"}"#)).unwrap(),
        "t"
    );
    assert_eq!(Auth0Service::read_token(&answered(403, "{}")).unwrap(), "");
    assert_eq!(provider_error(Auth0Service::read_token(&failed())), "error sending request");
    assert_eq!(
        provider_error(Auth0Service::read_token(&answered(200, "<html>"))),
        "error decoding response body"
    );
}

#[test]
fn users_are_searched_by_email() {
    let none = auth0().get_user_data_with_user_emails(&vec![]).unwrap();
    assert!(matches!(none, Auth0Task::Users(users) if users.is_empty()));

    let emails = vec!["a@x".to_string(), "b@x".to_string()];
    let goal = goal(auth0().get_user_data_with_user_emails(&emails));
    let step = auth0().token_received(goal, &answered(200, r#"{"access_token":"t"}"#)).unwrap();
    let Auth0Step::List(request) = step else { panic!("no list") };
    assert_eq!(
        request.url,
        "https://auth0.test/api/v2/users?q=email%3A%22a%40x%22%20OR%20email%3A%22b%40x%22&per_page=20&search_engine=v3"
    );
    assert_eq!(header(&request, "accept"), Some("application/json"));
    assert_eq!(header(&request, "authorization"), Some("Bearer t"));
    assert_eq!(Auth0Service::parse_users_data(&answered(200, "[]")).unwrap(), "[]");
    assert_eq!(
        provider_error(Auth0Service::parse_users_data(&failed())),
        "error sending request"
    );
}

#[test]
fn tokens_that_cannot_stand_in_a_header_are_left_out() {
    let step = auth0().with_token(
        Auth0Goal::CancelInvitation { org_id: "o".to_string(), invitation_id: "i".to_string() },
        "line\nbreak".to_string(),
    );
    let Auth0Step::Act(request) = step else { panic!("no request") };
    assert_eq!(header(&request, "authorization"), Some(""));
    let step = auth0().with_token(
        Auth0Goal::CancelInvitation { org_id: "o".to_string(), invitation_id: "i".to_string() },
        "tab\tü".to_string(),
    );
    let Auth0Step::Act(request) = step else { panic!("no request") };
    assert_eq!(header(&request, "authorization"), Some("Bearer tab\tü"));
}

fn looked_up(goal: Auth0Goal, reply: &str) -> Result<Auth0Step, ServiceError> {
    let step = auth0().token_received(goal, &answered(200, r#"{"access_token":"t"}"#)).unwrap();
    let Auth0Step::LookUp { request, goal, token } = step else { panic!("no search") };
    assert_eq!(
        request.url,
        "https://auth0.test/api/v2/users?q=email%3A%22e%40x%22&search_engine=v3"
    );
    assert_eq!(token, "t");
    auth0().user_looked_up(goal, token, &answered(200, reply))
}

#[test]
fn members_are_removed_by_identifier() {
    let leave = || goal(auth0().delete_user_from_org("e@x", "org", &None));
    let step = looked_up(leave(), r#"[{"user_id":"auth0|1"},{"user_id":"auth0|2"}]"#).unwrap();
    let Auth0Step::Act(request) = step else { panic!("no request") };
    assert_eq!(request.method, Method::Delete);
    assert_eq!(request.url, "https://auth0.test/api/v2/organizations/org/members");
    assert_eq!(body_text(&request), r#"{"members":["auth0|1"]}"#);
    assert!(matches!(
        looked_up(leave(), "[]"),
        Err(ServiceError::NotFoundError(m)) if m == "User with email [e@x] doesn't exist."
    ));
    assert!(matches!(
        looked_up(leave(), "{}"),
        Err(ServiceError::GeneralError(GeneralCause::Plain(m))) if m == "error decoding response body"
    ));
    assert!(Auth0Service::acted(&answered(500, "")).is_ok());
    assert_eq!(provider_error(Auth0Service::acted(&failed())), "error sending request");
}

#[test]
fn names_are_updated_by_identifier() {
    let update = goal(auth0().update_user("e@x", "A", "B", &None, "ab"));
    let step = looked_up(update, r#"[{}]"#).unwrap();
    let Auth0Step::Act(request) = step else { panic!("no request") };
    assert_eq!(request.method, Method::Patch);
    assert_eq!(request.url, "https://auth0.test/api/v2/users/");
    assert_eq!(body_text(&request), r#"{"first_name":"A","last_name":"B","username":"ab"}"#);
}

#[test]
fn invitations_keep_site_domains() {
    let invite = || goal(auth0().invite_user("org", "user", "e@x", "site.test", &false));
    let known = r#"[{"user_id":"1","user_metadata":{"default_site_domains":{"other":"o.test"}}}]"#;
    let Auth0Step::Invite(request) = looked_up(invite(), known).unwrap() else {
        panic!("no invitation");
    };
    assert_eq!(request.method, Method::Post);
    assert_eq!(request.url, "https://auth0.test/api/v2/organizations/org/invitations");
    assert_eq!(header(&request, "content-type"), Some("application/json"));
    assert_eq!(
        body_text(&request),
        r#"{"app_metadata":{"app_user_id":"user"},"client_id":"client","invitee":{"email":"e@x"},"inviter":{"name":"App"},"send_invitation_email":true,"ttl_sec":259200,"user_metadata":{"default_site_domains":{"org":"site.test","other":"o.test"}}}"#
    );
    for unknown in ["[]", r#"[{"user_id":"1"}]"#, r#"[{"user_metadata":{}}]"#] {
        let Auth0Step::Invite(request) = looked_up(invite(), unknown).unwrap() else {
            panic!("no invitation");
        };
        assert!(body_text(&request)
            .ends_with(r#""user_metadata":{"default_site_domains":{"org":"site.test"}}}"#));
    }
    let odd = r#"[{"user_metadata":{"default_site_domains":"all"}}]"#;
    let Auth0Step::Invite(request) = looked_up(invite(), odd).unwrap() else {
        panic!("no invitation");
    };
    assert!(body_text(&request).ends_with(r#""user_metadata":{"default_site_domains":"all"}}"#));
    assert!(matches!(looked_up(invite(), "7"), Err(ServiceError::GeneralError(_))));

    assert_eq!(Auth0Service::invited(&answered(200, r#"{"id":"inv"}"#)).unwrap(), "inv");
    assert!(matches!(
        Auth0Service::invited(&answered(200, "{}")),
        Err(ServiceError::GeneralError(GeneralCause::Plain(m))) if m == "Missing invitation ID"
    ));
    assert!(matches!(
        Auth0Service::invited(&answered(200, "")),
        Err(ServiceError::GeneralError(GeneralCause::Plain(m))) if m == "error decoding response body"
    ));
    assert!(matches!(
        Auth0Service::invitation_id(&Json::Null),
        Err(ServiceError::GeneralError(_))
    ));
}

#[test]
fn invitations_are_cancelled() {
    let goal = goal(auth0().cancel_invitation("org", "inv"));
    let step = auth0().token_received(goal, &answered(200, r#"{"access_token":"t"}"#)).unwrap();
    let Auth0Step::Act(request) = step else { panic!("no request") };
    assert_eq!(request.method, Method::Delete);
    assert_eq!(request.url, "https://auth0.test/api/v2/organizations/org/invitations/inv");
    assert_eq!(request.headers.len(), 1);
}

#[test]
fn what_auth0_does_not_offer_is_forbidden() {
    let service = auth0();
    assert!(matches!(
        service.get_org_user_data("o".to_string(), None),
        Err(ServiceError::ForbiddenError)
    ));
    assert!(matches!(
        service.get_user_data_with_user_ids(&vec!["u".to_string()]),
        Err(ServiceError::ForbiddenError)
    ));
    assert!(matches!(
        service.create_user("e", "f", "l", &None),
        Err(ServiceError::ForbiddenError)
    ));
    assert!(matches!(
        service.create_sign_in_token("u", 1),
        Err(ServiceError::ForbiddenError)
    ));
    assert!(matches!(
        service.create_organization("o", None, None, None),
        Err(ServiceError::ForbiddenError)
    ));
    assert!(matches!(
        service.get_organization_public_metadata("o"),
        Err(ServiceError::ForbiddenError)
    ));
    assert!(matches!(
        service.merge_organization_public_metadata("o", Json::Null),
        Err(ServiceError::ForbiddenError)
    ));
}
