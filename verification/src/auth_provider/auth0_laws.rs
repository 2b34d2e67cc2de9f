//! What the operations of Auth0 amount to.
use vstd::prelude::*;
use crate::auth_provider::auth0_service::{
    Auth0Goal, Auth0GoalView, Auth0Service, Auth0Step, Auth0Task, UserAuth0Data,
};
use crate::auth_provider::auth_provider_trait::AuthProviderTrait;
use crate::encoding::{header_text, law_encoded_text_is_decoded, percent_decoded, percent_encoded};
use crate::error::{CauseView, ErrorView, ServiceError};
use crate::http::{CredentialsView, Method, PayloadView, RequestView, Sent, SentView};
use crate::json::{json_decoded, number_of, Json, JsonView};
use crate::reading::{brought_none, failed_with, header_values, keys_of, text_under, value_under};
use crate::text::join_text;

verus! {

/// The request asks for JSON at an address of the API, with a token. Where the token cannot stand
/// in a header, the header is there and empty.
pub open spec fn is_call(
    auth0: &Auth0Service,
    request: RequestView,
    method: Method,
    path: Seq<char>,
    token: Seq<char>,
    payload: PayloadView,
) -> bool {
    &&& request.method == method
    &&& request.url == auth0.settings.issuer_base_url@ + path
    &&& header_values(request.headers, "authorization"@) == seq![
        if header_text("Bearer "@ + token) {
            "Bearer "@ + token
        } else {
            Seq::empty()
        },
    ]
    &&& request.credentials == CredentialsView::Anonymous
    &&& request.payload == payload
}

/// The request says that it accepts JSON.
pub open spec fn accepts_json(request: RequestView) -> bool {
    header_values(request.headers, "accept"@) == seq!["application/json"@]
}

/// The task is to ask for a token first, with the identifier and the secret of the service and for
/// the audience of the API, and to pursue the goal with it.
pub open spec fn asks_for_token(
    auth0: &Auth0Service,
    task: Result<Auth0Task, ServiceError>,
    goal: Auth0GoalView,
) -> bool {
    &&& task matches Ok(Auth0Task::Authorize { request, goal: kept })
    &&& kept.deep_view() == goal
    &&& request.deep_view().method == Method::Post
    &&& request.deep_view().url == auth0.settings.issuer_base_url@ + "/oauth/token"@
    &&& request.deep_view().headers.len() == 0
    &&& request.deep_view().credentials == CredentialsView::Anonymous
    &&& request.deep_view().payload matches PayloadView::Form(form)
    &&& form.len() == 4
    &&& form.contains(("grant_type"@, "client_credentials"@))
    &&& form.contains(("client_id"@, auth0.settings.m2m_client_id@))
    &&& form.contains(("client_secret"@, auth0.settings.m2m_client_secret@))
    &&& form.contains(("audience"@, auth0.settings.m2m_audience@))
}

/// Every operation begins with a token and keeps everything that it was asked for; nothing is asked
/// for where users are looked for by no address.
pub proof fn law_operations_begin_with_a_token(
    auth0: &Auth0Service,
    emails: &Vec<String>,
    email: &str,
    org_id: &str,
    user_id: &Option<String>,
    first_name: &str,
    last_name: &str,
    username: &str,
    invited_user_id: &str,
    default_site_domain: &str,
    is_admin_role: &bool,
    invitation_id: &str,
    find: Result<Auth0Task, ServiceError>,
    leave: Result<Auth0Task, ServiceError>,
    update: Result<Auth0Task, ServiceError>,
    invite: Result<Auth0Task, ServiceError>,
    cancel: Result<Auth0Task, ServiceError>,
)
    requires
        call_ensures(Auth0Service::get_user_data_with_user_emails, (auth0, emails), find),
        call_ensures(
            Auth0Service::delete_user_from_org,
            (auth0, email, org_id, user_id),
            leave,
        ),
        call_ensures(
            Auth0Service::update_user,
            (auth0, email, first_name, last_name, user_id, username),
            update,
        ),
        call_ensures(
            Auth0Service::invite_user,
            (auth0, org_id, invited_user_id, email, default_site_domain, is_admin_role),
            invite,
        ),
        call_ensures(Auth0Service::cancel_invitation, (auth0, org_id, invitation_id), cancel),
    ensures
        emails@.len() == 0 ==> (find matches Ok(Auth0Task::Users(users)) && users@.len() == 0),
        emails@.len() > 0 ==> asks_for_token(
            auth0,
            find,
            Auth0GoalView::FindUsers(emails.deep_view()),
        ),
        asks_for_token(
            auth0,
            leave,
            Auth0GoalView::LeaveOrganization { email: email@, org_id: org_id@ },
        ),
        asks_for_token(
            auth0,
            update,
            Auth0GoalView::Update {
                email: email@,
                first_name: first_name@,
                last_name: last_name@,
                username: username@,
            },
        ),
        asks_for_token(
            auth0,
            invite,
            Auth0GoalView::Invite {
                email: email@,
                org_id: org_id@,
                user_id: invited_user_id@,
                default_site_domain: default_site_domain@,
            },
        ),
        asks_for_token(
            auth0,
            cancel,
            Auth0GoalView::CancelInvitation { org_id: org_id@, invitation_id: invitation_id@ },
        ),
{
    if let Ok(Auth0Task::Users(users)) = find {
        assert(users.deep_view().len() == users@.len());
    }
    let request = crate::auth_provider::auth0_service::token_request(&auth0.settings);
    let form = request.payload->Form_0;
    assert(form[0] == ("grant_type"@, "client_credentials"@));
    assert(form[1] == ("client_id"@, auth0.settings.m2m_client_id@));
    assert(form[2] == ("client_secret"@, auth0.settings.m2m_client_secret@));
    assert(form[3] == ("audience"@, auth0.settings.m2m_audience@));
}

/// The search for users with an email address.
pub open spec fn search_for(email: Seq<char>) -> Seq<char> {
    "email:"@ + seq!['"'] + email + seq!['"']
}

/// The path searches for users, and the search is decoded to the given one.
pub open spec fn searches(path: Seq<char>, search: Seq<char>, rest: Seq<char>) -> bool {
    let front = "/api/v2/users?q="@;
    &&& front.is_prefix_of(path)
    &&& path.len() >= front.len() + rest.len()
    &&& path.skip(path.len() - rest.len()) == rest
    &&& percent_decoded(path.subrange(front.len() as int, path.len() - rest.len())) == search
}

proof fn lemma_search(email: Seq<char>)
    ensures
        crate::auth_provider::auth0_service::email_query(email) == search_for(email),
{
    reveal_strlit("email:");
    reveal_strlit("email:\"");
    reveal_strlit("\"");
    assert("email:\""@ =~= "email:"@ + seq!['"']);
    assert("\""@ =~= seq!['"']);
}

proof fn lemma_searches(search: Seq<char>, rest: Seq<char>)
    ensures
        searches("/api/v2/users?q="@ + percent_encoded(search) + rest, search, rest),
{
    let front = "/api/v2/users?q="@;
    let path = front + percent_encoded(search) + rest;
    law_encoded_text_is_decoded(search);
    assert(path.subrange(0, front.len() as int) =~= front);
    assert(path.skip(path.len() - rest.len()) =~= rest);
    assert(path.subrange(front.len() as int, path.len() - rest.len()) =~= percent_encoded(search));
}

proof fn lemma_headers(request: RequestView, with_type: bool)
    requires
        request.headers.len() == (if with_type {
            3nat
        } else {
            2nat
        }),
        request.headers[0] == ("accept"@, "application/json"@),
        request.headers[1].0 == "authorization"@,
        with_type ==> request.headers[2] == ("content-type"@, "application/json"@),
    ensures
        accepts_json(request),
        header_values(request.headers, "authorization"@) == seq![request.headers[1].1],
        header_values(request.headers, "content-type"@) == (if with_type {
            seq!["application/json"@]
        } else {
            seq![]
        }),
{
    reveal_strlit("accept");
    reveal_strlit("authorization");
    reveal_strlit("content-type");
    assert("accept"@.len() == 6 && "authorization"@.len() == 13 && "content-type"@.len() == 12);
    reveal_with_fuel(header_values, 4);
    let headers = request.headers;
    let two = seq![headers[0], headers[1]];
    if with_type {
        assert(headers.drop_last() =~= two);
    } else {
        assert(headers =~= two);
    }
    assert(two.drop_last() =~= seq![headers[0]]);
    assert(two.drop_last().drop_last() =~= seq![]);
    assert(header_values(two, "accept"@) =~= seq!["application/json"@]);
    assert(header_values(two, "authorization"@) =~= seq![headers[1].1]);
    assert(header_values(two, "content-type"@) =~= seq![]);
    if with_type {
        assert(header_values(headers, "content-type"@) =~= seq!["application/json"@]);
    }
}

/// The document of a reply, whatever its status.
pub open spec fn document_in(sent: SentView, json: JsonView) -> bool {
    &&& sent matches SentView::Answered(reply)
    &&& reply.body matches Ok(bytes)
    &&& json_decoded(bytes) == Ok::<JsonView, Seq<char>>(json)
}

/// The path of the search for one user.
pub open spec fn one_search_path(auth0: &Auth0Service, request: RequestView) -> Seq<char> {
    request.url.skip(auth0.settings.issuer_base_url@.len() as int)
}

/// With the token of the reply, users are searched for by all their addresses at once, and an
/// invitation is deleted; for anything else the user with the address is searched for first, and
/// the goal and the token are kept.
pub proof fn law_tokens_are_used(
    auth0: &Auth0Service,
    goal: Auth0Goal,
    sent: &Sent,
    step: Result<Auth0Step, ServiceError>,
    json: JsonView,
)
    requires
        call_ensures(Auth0Service::token_received, (auth0, goal, sent), step),
    ensures
        sent.deep_view() matches SentView::Failed(error) ==> (step matches Err(found)
            && found.deep_view() == ErrorView::GeneralError(
            CauseView::AuthProvider(error.report.message),
        )),
        document_in(sent.deep_view(), json) ==> {
            let token = match text_under(json, "access_token"@) {
                Some(token) => token,
                None => Seq::empty(),
            };
            match goal.deep_view() {
                Auth0GoalView::FindUsers(emails) => {
                    &&& step matches Ok(Auth0Step::List(request))
                    &&& is_call(
                        auth0,
                        request.deep_view(),
                        Method::Get,
                        one_search_path(auth0, request.deep_view()),
                        token,
                        PayloadView::Nothing,
                    )
                    &&& accepts_json(request.deep_view())
                    &&& searches(
                        one_search_path(auth0, request.deep_view()),
                        join_text(
                            Seq::new(emails.len(), |i: int| search_for(emails[i])),
                            " OR "@,
                        ),
                        "&per_page=20&search_engine=v3"@,
                    )
                },
                Auth0GoalView::CancelInvitation { org_id, invitation_id } => {
                    &&& step matches Ok(Auth0Step::Act(request))
                    &&& is_call(
                        auth0,
                        request.deep_view(),
                        Method::Delete,
                        "/api/v2/organizations/"@ + org_id + "/invitations/"@ + invitation_id,
                        token,
                        PayloadView::Nothing,
                    )
                },
                _ => {
                    let email = match goal {
                        Auth0Goal::LeaveOrganization { email, .. } => email@,
                        Auth0Goal::Update { email, .. } => email@,
                        Auth0Goal::Invite { email, .. } => email@,
                        _ => Seq::empty(),
                    };
                    &&& step matches Ok(Auth0Step::LookUp { request, goal: kept, token: kept_token })
                    &&& kept.deep_view() == goal.deep_view()
                    &&& kept_token@ == token
                    &&& is_call(
                        auth0,
                        request.deep_view(),
                        Method::Get,
                        one_search_path(auth0, request.deep_view()),
                        token,
                        PayloadView::Nothing,
                    )
                    &&& accepts_json(request.deep_view())
                    &&& searches(
                        one_search_path(auth0, request.deep_view()),
                        search_for(email),
                        "&search_engine=v3"@,
                    )
                },
            }
        },
{
    reveal_strlit("");
    assert(""@ =~= Seq::empty());
    if document_in(sent.deep_view(), json) {
        let base = auth0.settings.issuer_base_url@;
        match goal.deep_view() {
            Auth0GoalView::FindUsers(emails) => {
                let request = step->Ok_0->List_0.deep_view();
                let queries = emails.map_values(
                    |email: Seq<char>| crate::auth_provider::auth0_service::email_query(email),
                );
                let wanted = Seq::new(emails.len(), |i: int| search_for(emails[i]));
                assert forall|i: int| 0 <= i < emails.len() implies #[trigger] queries[i]
                    == wanted[i] by {
                    lemma_search(emails[i]);
                }
                assert(queries =~= wanted);
                let search = join_text(wanted, " OR "@);
                let rest = "&per_page=20&search_engine=v3"@;
                lemma_searches(search, rest);
                assert(request.url =~= base + ("/api/v2/users?q="@ + percent_encoded(search)
                    + rest));
                assert(one_search_path(auth0, request) =~= "/api/v2/users?q="@
                    + percent_encoded(search) + rest);
                lemma_headers(request, false);
            },
            Auth0GoalView::CancelInvitation { org_id, invitation_id } => {
                let request = step->Ok_0->Act_0.deep_view();
                reveal_with_fuel(header_values, 2);
                assert(request.headers.drop_last() =~= seq![]);
                assert(header_values(request.headers, "authorization"@) =~= seq![
                    request.headers[0].1,
                ]);
                assert(request.url =~= base + ("/api/v2/organizations/"@ + org_id
                    + "/invitations/"@ + invitation_id));
            },
            _ => {
                let email = match goal {
                    Auth0Goal::LeaveOrganization { email, .. } => email@,
                    Auth0Goal::Update { email, .. } => email@,
                    Auth0Goal::Invite { email, .. } => email@,
                    _ => Seq::empty(),
                };
                let request = step->Ok_0->LookUp_request.deep_view();
                let rest = "&search_engine=v3"@;
                lemma_search(email);
                lemma_searches(search_for(email), rest);
                let path = "/api/v2/users?q="@ + percent_encoded(search_for(email)) + rest;
                assert(request.url =~= base + path);
                assert(one_search_path(auth0, request) =~= path);
                lemma_headers(request, goal is Invite);
            },
        }
    }
}

/// The site domains that a user document lists, by organization.
pub open spec fn known_domains(user: JsonView) -> JsonView {
    match value_under(user, "user_metadata"@) {
        Some(metadata) => match value_under(metadata, "default_site_domains"@) {
            Some(domains) => domains,
            None => JsonView::Object(Map::empty()),
        },
        None => JsonView::Object(Map::empty()),
    }
}

/// The identifier of a user document, which may be missing.
pub open spec fn identifier(user: JsonView) -> Seq<char> {
    match text_under(user, "user_id"@) {
        Some(id) => id,
        None => Seq::empty(),
    }
}

/// The document is an invitation of an email address, on behalf of a user and with site domains.
pub open spec fn is_invitation(
    auth0: &Auth0Service,
    body: JsonView,
    email: Seq<char>,
    user_id: Seq<char>,
    domains: JsonView,
) -> bool {
    &&& keys_of(body) == set![
        "inviter"@,
        "invitee"@,
        "client_id"@,
        "ttl_sec"@,
        "send_invitation_email"@,
        "app_metadata"@,
        "user_metadata"@,
    ]
    &&& value_under(body, "inviter"@) matches Some(inviter)
    &&& text_under(inviter, "name"@) == Some("App"@)
    &&& value_under(body, "invitee"@) matches Some(invitee)
    &&& text_under(invitee, "email"@) == Some(email)
    &&& text_under(body, "client_id"@) == Some(auth0.settings.client_id@)
    &&& value_under(body, "ttl_sec"@) == Some(JsonView::Number(number_of(259200)))
    &&& value_under(body, "send_invitation_email"@) == Some(JsonView::Bool(true))
    &&& value_under(body, "app_metadata"@) matches Some(app_metadata)
    &&& text_under(app_metadata, "app_user_id"@) == Some(user_id)
    &&& value_under(body, "user_metadata"@) matches Some(user_metadata)
    &&& value_under(user_metadata, "default_site_domains"@) == Some(domains)
}

/// The site domains are those that were known, and the one of an organization; what is no list of
/// domains stays as it is.
pub open spec fn adds_domain(
    known: JsonView,
    domains: JsonView,
    org_id: Seq<char>,
    domain: Seq<char>,
) -> bool {
    match known {
        JsonView::Object(entries) => {
            &&& text_under(domains, org_id) == Some(domain)
            &&& keys_of(domains) == entries.dom().insert(org_id)
            &&& forall|other: Seq<char>|
                other != org_id ==> #[trigger] value_under(domains, other) == value_under(
                    known,
                    other,
                )
        },
        _ => domains == known,
    }
}

proof fn lemma_is_invitation(
    auth0: &Auth0Service,
    email: Seq<char>,
    user_id: Seq<char>,
    domains: JsonView,
)
    ensures
        is_invitation(
            auth0,
            crate::auth_provider::auth0_service::invitation_body(
                &auth0.settings,
                email,
                user_id,
                domains,
            ),
            email,
            user_id,
            domains,
        ),
{
    reveal_strlit("inviter");
    reveal_strlit("invitee");
    reveal_strlit("client_id");
    reveal_strlit("ttl_sec");
    reveal_strlit("send_invitation_email");
    reveal_strlit("app_metadata");
    reveal_strlit("user_metadata");
    assert("inviter"@.len() == 7 && "inviter"@[5] == 'e' && "inviter"@[6] == 'r');
    assert("invitee"@.len() == 7 && "invitee"@[6] == 'e');
    assert("ttl_sec"@.len() == 7 && "ttl_sec"@[0] == 't' && "inviter"@[0] == 'i' && "invitee"@[0]
        == 'i');
    assert("client_id"@.len() == 9 && "send_invitation_email"@.len() == 21);
    assert("app_metadata"@.len() == 12 && "user_metadata"@.len() == 13);
    let body = crate::auth_provider::auth0_service::invitation_body(
        &auth0.settings,
        email,
        user_id,
        domains,
    );
    assert(keys_of(body) =~= set![
        "inviter"@,
        "invitee"@,
        "client_id"@,
        "ttl_sec"@,
        "send_invitation_email"@,
        "app_metadata"@,
        "user_metadata"@,
    ]);
}

/// Once a user has been searched for, the first one of the list is taken out of the organization,
/// or gets the names that are given. Somebody is invited whether known or not: the invitation keeps
/// the site domains of one who is known and adds that of the organization. For anything but an
/// invitation, an empty list means that there is no such user.
pub proof fn law_found_users_are_acted_on(
    auth0: &Auth0Service,
    goal: Auth0Goal,
    token: String,
    sent: &Sent,
    step: Result<Auth0Step, ServiceError>,
    users: Seq<JsonView>,
)
    requires
        call_ensures(Auth0Service::user_looked_up, (auth0, goal, token, sent), step),
        goal is LeaveOrganization || goal is Update || goal is Invite,
    ensures
        sent.deep_view() is Failed ==> step is Err,
        document_in(sent.deep_view(), JsonView::Array(users)) ==> match goal {
            Auth0Goal::LeaveOrganization { email, org_id } => if users.len() == 0 {
                step matches Err(ServiceError::NotFoundError(message)) && message@
                    == "User with email ["@ + email@ + "] doesn't exist."@
            } else {
                &&& step matches Ok(Auth0Step::Act(request))
                &&& is_call(
                    auth0,
                    request.deep_view(),
                    Method::Delete,
                    "/api/v2/organizations/"@ + org_id@ + "/members"@,
                    token@,
                    request.deep_view().payload,
                )
                &&& accepts_json(request.deep_view())
                &&& request.deep_view().payload matches PayloadView::Json(body)
                &&& keys_of(body) == set!["members"@]
                &&& value_under(body, "members"@) == Some(
                    JsonView::Array(seq![JsonView::Text(identifier(users[0]))]),
                )
            },
            Auth0Goal::Update { email, first_name, last_name, username } => if users.len() == 0 {
                step matches Err(ServiceError::NotFoundError(message)) && message@
                    == "User with email ["@ + email@ + "] doesn't exist."@
            } else {
                &&& step matches Ok(Auth0Step::Act(request))
                &&& is_call(
                    auth0,
                    request.deep_view(),
                    Method::Patch,
                    "/api/v2/users/"@ + identifier(users[0]),
                    token@,
                    request.deep_view().payload,
                )
                &&& accepts_json(request.deep_view())
                &&& request.deep_view().payload matches PayloadView::Json(body)
                &&& keys_of(body) == set!["first_name"@, "last_name"@, "username"@]
                &&& text_under(body, "first_name"@) == Some(first_name@)
                &&& text_under(body, "last_name"@) == Some(last_name@)
                &&& text_under(body, "username"@) == Some(username@)
            },
            Auth0Goal::Invite { email, org_id, user_id, default_site_domain } => {
                let known = if users.len() == 0 {
                    JsonView::Object(Map::empty())
                } else {
                    known_domains(users[0])
                };
                &&& step matches Ok(Auth0Step::Invite(request))
                &&& is_call(
                    auth0,
                    request.deep_view(),
                    Method::Post,
                    "/api/v2/organizations/"@ + org_id@ + "/invitations"@,
                    token@,
                    request.deep_view().payload,
                )
                &&& accepts_json(request.deep_view())
                &&& header_values(request.deep_view().headers, "content-type"@) == seq![
                    "application/json"@,
                ]
                &&& request.deep_view().payload matches PayloadView::Json(body)
                &&& exists|domains: JsonView|
                    #[trigger] is_invitation(auth0, body, email@, user_id@, domains)
                        && adds_domain(known, domains, org_id@, default_site_domain@)
            },
            _ => true,
        },
{
    reveal_strlit("");
    assert(""@ =~= Seq::empty());
    let base = auth0.settings.issuer_base_url@;
    if document_in(sent.deep_view(), JsonView::Array(users)) {
        match goal {
            Auth0Goal::LeaveOrganization { email, org_id } => {
                if users.len() > 0 {
                    let request = step->Ok_0->Act_0.deep_view();
                    lemma_headers(request, false);
                    assert(request.url =~= base + ("/api/v2/organizations/"@ + org_id@
                        + "/members"@));
                    assert(keys_of(request.payload->Json_0) =~= set!["members"@]);
                }
            },
            Auth0Goal::Update { email, first_name, last_name, username } => {
                if users.len() > 0 {
                    let request = step->Ok_0->Act_0.deep_view();
                    lemma_headers(request, false);
                    reveal_strlit("first_name");
                    reveal_strlit("last_name");
                    reveal_strlit("username");
                    assert("first_name"@.len() == 10 && "last_name"@.len() == 9 && "username"@.len()
                        == 8);
                    assert(request.url =~= base + ("/api/v2/users/"@ + identifier(users[0])));
                    assert(keys_of(request.payload->Json_0) =~= set![
                        "first_name"@,
                        "last_name"@,
                        "username"@,
                    ]);
                }
            },
            Auth0Goal::Invite { email, org_id, user_id, default_site_domain } => {
                let request = step->Ok_0->Invite_0.deep_view();
                lemma_headers(request, true);
                assert(request.url =~= base + ("/api/v2/organizations/"@ + org_id@
                    + "/invitations"@));
                let known = if users.len() == 0 {
                    JsonView::Object(Map::empty())
                } else {
                    known_domains(users[0])
                };
                let domains = crate::json::with_entry(
                    known,
                    org_id@,
                    JsonView::Text(default_site_domain@),
                );
                lemma_is_invitation(auth0, email@, user_id@, domains);
                if let JsonView::Object(entries) = known {
                    assert(keys_of(domains) =~= entries.dom().insert(org_id@));
                }
                assert(is_invitation(auth0, request.payload->Json_0, email@, user_id@, domains));
            },
            _ => {},
        }
    }
}

/// What a reply tells of the user with an email address: the identifier and what is kept about the
/// first user of the list.
pub proof fn law_the_first_user_counts(
    email: &str,
    sent: &Sent,
    users: Seq<JsonView>,
    user: Result<UserAuth0Data, ServiceError>,
)
    requires
        call_ensures(Auth0Service::retrieve_auth0_user_id_by_email, (email, sent), user),
        document_in(sent.deep_view(), JsonView::Array(users)),
    ensures
        users.len() == 0 ==> (user matches Err(ServiceError::NotFoundError(message)) && message@
            == "User with email ["@ + email@ + "] doesn't exist."@),
        users.len() > 0 ==> (user matches Ok(user) && user.user_id@ == identifier(users[0])
            && user.user_metadata.deep_view() == value_under(users[0], "user_metadata"@)),
{
    reveal_strlit("");
    assert(""@ =~= Seq::empty());
}

/// A reply that carries no document, or no list where one is due, ends the operation and tells why.
pub proof fn law_unreadable_replies(
    auth0: &Auth0Service,
    goal: Auth0Goal,
    token: String,
    sent: &Sent,
    why: Seq<char>,
    step: Result<Auth0Step, ServiceError>,
    found: Result<Auth0Step, ServiceError>,
    invited: Result<String, ServiceError>,
)
    requires
        call_ensures(Auth0Service::token_received, (auth0, goal, sent), step),
        call_ensures(Auth0Service::user_looked_up, (auth0, goal, token, sent), found),
        call_ensures(Auth0Service::invited, (sent,), invited),
        goal is LeaveOrganization || goal is Update || goal is Invite,
    ensures
        brought_none(sent.deep_view(), why) ==> {
            &&& step matches Err(error)
            &&& error.deep_view() == ErrorView::GeneralError(CauseView::AuthProvider(why))
            &&& failed_with(found, why)
            &&& failed_with(invited, why)
        },
        (exists|json: JsonView|
            #[trigger] document_in(sent.deep_view(), json) && !(json is Array)) ==> failed_with(
            found,
            "error decoding response body"@,
        ),
        sent.deep_view() matches SentView::Failed(error) ==> (found matches Err(shown)
            && shown.deep_view() == ErrorView::GeneralError(
            CauseView::AuthProvider(error.report.message),
        )),
{
}

/// A change is done once any reply has come; an invitation comes to the identifier in the reply,
/// which must be there; a list of users is the text of the reply. Without a reply there is an error
/// that says why.
pub proof fn law_replies(
    sent: &Sent,
    json: JsonView,
    acted: Result<(), ServiceError>,
    invited: Result<String, ServiceError>,
    listed: Result<String, ServiceError>,
)
    requires
        call_ensures(Auth0Service::acted, (sent,), acted),
        call_ensures(Auth0Service::invited, (sent,), invited),
        call_ensures(Auth0Service::parse_users_data, (sent,), listed),
    ensures
        acted is Ok <==> sent.deep_view() is Answered,
        document_in(sent.deep_view(), json) ==> match text_under(json, "id"@) {
            Some(id) => invited matches Ok(invited) && invited@ == id,
            None => failed_with(invited, "Missing invitation ID"@),
        },
        sent.deep_view() matches SentView::Answered(reply) ==> (reply.body is Ok ==> (
        listed matches Ok(text) && text@ == reply.text)),
        sent.deep_view() matches SentView::Answered(reply) ==> (reply.body matches Err(report) ==> (
        listed matches Err(error) && error.deep_view() == ErrorView::GeneralError(
            CauseView::AuthProvider(report.message),
        ))),
        sent.deep_view() matches SentView::Failed(error) ==> {
            let shown = ErrorView::GeneralError(CauseView::AuthProvider(error.report.message));
            &&& acted matches Err(a)
            &&& invited matches Err(b)
            &&& listed matches Err(c)
            &&& a.deep_view() == shown && b.deep_view() == shown && c.deep_view() == shown
        },
{
}

/// Auth0 lists no organizations and no users by identifier, and creates nothing, whatever is asked
/// for.
pub proof fn law_other_operations_are_forbidden(
    auth0: &Auth0Service,
    org_id: String,
    search_query: Option<String>,
    user_ids: &Vec<String>,
    text: &str,
    metadata: &Option<Json>,
    seconds: u32,
    admin_user_id: Option<String>,
    public: Option<Json>,
    private: Option<Json>,
    merged: Json,
    listed: Result<Auth0Task, ServiceError>,
    by_id: Result<Auth0Task, ServiceError>,
    user: Result<Auth0Task, ServiceError>,
    token: Result<Auth0Task, ServiceError>,
    organization: Result<Auth0Task, ServiceError>,
    found: Result<Auth0Task, ServiceError>,
    merge: Result<Auth0Task, ServiceError>,
)
    requires
        call_ensures(Auth0Service::get_org_user_data, (auth0, org_id, search_query), listed),
        call_ensures(Auth0Service::get_user_data_with_user_ids, (auth0, user_ids), by_id),
        call_ensures(Auth0Service::create_user, (auth0, text, text, text, metadata), user),
        call_ensures(Auth0Service::create_sign_in_token, (auth0, text, seconds), token),
        call_ensures(
            Auth0Service::create_organization,
            (auth0, text, admin_user_id, public, private),
            organization,
        ),
        call_ensures(Auth0Service::get_organization_public_metadata, (auth0, text), found),
        call_ensures(
            Auth0Service::merge_organization_public_metadata,
            (auth0, text, merged),
            merge,
        ),
    ensures
        listed matches Err(ServiceError::ForbiddenError),
        by_id matches Err(ServiceError::ForbiddenError),
        user matches Err(ServiceError::ForbiddenError),
        token matches Err(ServiceError::ForbiddenError),
        organization matches Err(ServiceError::ForbiddenError),
        found matches Err(ServiceError::ForbiddenError),
        merge matches Err(ServiceError::ForbiddenError),
{
}

} // verus!
