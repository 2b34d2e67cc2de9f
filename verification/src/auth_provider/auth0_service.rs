//! The Auth0 management API.
use vstd::prelude::*;
use crate::auth_provider::auth_provider_trait::{AuthOperation, AuthProviderTrait};
use crate::encoding::{header_text, is_header_text, percent_encoded, url_encode};
use crate::error::{auth_provider_error, general, general_error, outcome, ErrorView, ServiceError};
use crate::http::{
    bare_request, reply_json, with_header, with_json, HttpRequest, Method, Payload, PayloadView,
    RequestView, Sent, SentView,
};
use crate::json::{items_of, lookup, number_of, text_at, with_entry, Json, JsonView};
use crate::text::{cat2, cat3, cat4, cat5, join, join_text, or_empty, text_or_empty};
use crate::types::{AuthUserData, UserView};

verus! {

/// What Auth0 is reached with.
#[derive(Debug)]
pub struct Auth0Settings {
    pub client_id: String,
    pub issuer_base_url: String,
    pub m2m_audience: String,
    pub m2m_client_id: String,
    pub m2m_client_secret: String,
}

/// Auth0.
#[derive(Debug)]
pub struct Auth0Service {
    pub settings: Auth0Settings,
}

/// What is looked up of a user.
#[derive(Debug)]
pub struct UserAuth0Data {
    pub user_id: String,
    pub user_metadata: Option<Json>,
}

pub struct UserAuth0View {
    pub user_id: Seq<char>,
    pub user_metadata: Option<JsonView>,
}

impl DeepView for UserAuth0Data {
    type V = UserAuth0View;

    open spec fn deep_view(&self) -> UserAuth0View {
        UserAuth0View {
            user_id: self.user_id@,
            user_metadata: self.user_metadata.deep_view(),
        }
    }
}

/// What a token is asked for.
#[derive(Debug)]
pub enum Auth0Goal {
    FindUsers(Vec<String>),
    LeaveOrganization { email: String, org_id: String },
    Update { email: String, first_name: String, last_name: String, username: String },
    Invite { email: String, org_id: String, user_id: String, default_site_domain: String },
    CancelInvitation { org_id: String, invitation_id: String },
}

pub enum Auth0GoalView {
    FindUsers(Seq<Seq<char>>),
    LeaveOrganization { email: Seq<char>, org_id: Seq<char> },
    Update {
        email: Seq<char>,
        first_name: Seq<char>,
        last_name: Seq<char>,
        username: Seq<char>,
    },
    Invite {
        email: Seq<char>,
        org_id: Seq<char>,
        user_id: Seq<char>,
        default_site_domain: Seq<char>,
    },
    CancelInvitation { org_id: Seq<char>, invitation_id: Seq<char> },
}

impl DeepView for Auth0Goal {
    type V = Auth0GoalView;

    open spec fn deep_view(&self) -> Auth0GoalView {
        match self {
            Auth0Goal::FindUsers(emails) => Auth0GoalView::FindUsers(emails.deep_view()),
            Auth0Goal::LeaveOrganization { email, org_id } => Auth0GoalView::LeaveOrganization {
                email: email@,
                org_id: org_id@,
            },
            Auth0Goal::Update { email, first_name, last_name, username } => Auth0GoalView::Update {
                email: email@,
                first_name: first_name@,
                last_name: last_name@,
                username: username@,
            },
            Auth0Goal::Invite { email, org_id, user_id, default_site_domain } => {
                Auth0GoalView::Invite {
                    email: email@,
                    org_id: org_id@,
                    user_id: user_id@,
                    default_site_domain: default_site_domain@,
                }
            },
            Auth0Goal::CancelInvitation { org_id, invitation_id } => {
                Auth0GoalView::CancelInvitation { org_id: org_id@, invitation_id: invitation_id@ }
            },
        }
    }
}

/// What an operation of Auth0 has left to do.
#[derive(Debug)]
pub enum Auth0Task {
    /// Nothing: these are the users.
    Users(Vec<AuthUserData>),
    /// To ask for a token first.
    Authorize { request: HttpRequest, goal: Auth0Goal },
}

pub enum Auth0TaskView {
    Users(Seq<UserView>),
    Authorize { request: RequestView, goal: Auth0GoalView },
}

impl DeepView for Auth0Task {
    type V = Auth0TaskView;

    open spec fn deep_view(&self) -> Auth0TaskView {
        match self {
            Auth0Task::Users(users) => Auth0TaskView::Users(users.deep_view()),
            Auth0Task::Authorize { request, goal } => Auth0TaskView::Authorize {
                request: request.deep_view(),
                goal: goal.deep_view(),
            },
        }
    }
}

/// What follows once there is a token.
#[derive(Debug)]
pub enum Auth0Step {
    /// To send a request whose reply lists users.
    List(HttpRequest),
    /// To send a request whose reply lists the user that the goal speaks of.
    LookUp { request: HttpRequest, goal: Auth0Goal, token: String },
    /// To send a request whose reply is not looked at.
    Act(HttpRequest),
    /// To send an invitation.
    Invite(HttpRequest),
}

pub enum Auth0StepView {
    List(RequestView),
    LookUp { request: RequestView, goal: Auth0GoalView, token: Seq<char> },
    Act(RequestView),
    Invite(RequestView),
}

impl DeepView for Auth0Step {
    type V = Auth0StepView;

    open spec fn deep_view(&self) -> Auth0StepView {
        match self {
            Auth0Step::List(request) => Auth0StepView::List(request.deep_view()),
            Auth0Step::LookUp { request, goal, token } => Auth0StepView::LookUp {
                request: request.deep_view(),
                goal: goal.deep_view(),
                token: token@,
            },
            Auth0Step::Act(request) => Auth0StepView::Act(request.deep_view()),
            Auth0Step::Invite(request) => Auth0StepView::Invite(request.deep_view()),
        }
    }
}

/// The request for a token.
pub open spec fn token_request(settings: &Auth0Settings) -> RequestView {
    RequestView {
        payload: PayloadView::Form(
            seq![
                ("grant_type"@, "client_credentials"@),
                ("client_id"@, settings.m2m_client_id@),
                ("client_secret"@, settings.m2m_client_secret@),
                ("audience"@, settings.m2m_audience@),
            ],
        ),
        ..bare_request(Method::Post, settings.issuer_base_url@ + "/oauth/token"@)
    }
}

/// The token in a reply; empty where the reply holds none.
pub open spec fn token_in(sent: SentView) -> Result<Seq<char>, ErrorView> {
    match sent {
        SentView::Failed(error) => Err(auth_provider_error(error.report.message)),
        SentView::Answered(reply) => match reply_json(reply) {
            Ok(json) => Ok(text_or_empty(text_at(json, "access_token"@))),
            Err(report) => Err(auth_provider_error(report.message)),
        },
    }
}

/// The value of the header that carries a token; empty where the token cannot stand in one.
pub open spec fn authorization(token: Seq<char>) -> Seq<char> {
    if header_text("Bearer "@ + token) {
        "Bearer "@ + token
    } else {
        ""@
    }
}

/// The request with the header that carries a token.
pub open spec fn with_token(request: RequestView, token: Seq<char>) -> RequestView {
    with_header(request, "authorization"@, authorization(token))
}

/// A request that asks for JSON.
pub open spec fn json_request(method: Method, url: Seq<char>, token: Seq<char>) -> RequestView {
    with_token(with_header(bare_request(method, url), "accept"@, "application/json"@), token)
}

/// The search for a user with an email address.
pub open spec fn email_query(email: Seq<char>) -> Seq<char> {
    "email:\""@ + email + "\""@
}

/// The request for the users with email addresses.
pub open spec fn list_request(
    settings: &Auth0Settings,
    emails: Seq<Seq<char>>,
    token: Seq<char>,
) -> RequestView {
    let query = join_text(emails.map_values(|email: Seq<char>| email_query(email)), " OR "@);
    json_request(
        Method::Get,
        settings.issuer_base_url@ + "/api/v2/users?q="@ + percent_encoded(query)
            + "&per_page=20&search_engine=v3"@,
        token,
    )
}

/// The address at which a user with an email address is looked up.
pub open spec fn look_up_url(settings: &Auth0Settings, email: Seq<char>) -> Seq<char> {
    settings.issuer_base_url@ + "/api/v2/users?q="@ + percent_encoded(email_query(email))
        + "&search_engine=v3"@
}

/// The step that looks a user up.
pub open spec fn look_up_step(
    settings: &Auth0Settings,
    goal: Auth0GoalView,
    email: Seq<char>,
    token: Seq<char>,
) -> Auth0StepView {
    let request = json_request(Method::Get, look_up_url(settings, email), token);
    Auth0StepView::LookUp {
        request: if goal is Invite {
            with_header(request, "content-type"@, "application/json"@)
        } else {
            request
        },
        goal,
        token,
    }
}

/// What follows once there is a token.
pub open spec fn step_with_token(
    settings: &Auth0Settings,
    goal: Auth0GoalView,
    token: Seq<char>,
) -> Auth0StepView {
    match goal {
        Auth0GoalView::FindUsers(emails) => Auth0StepView::List(
            list_request(settings, emails, token),
        ),
        Auth0GoalView::LeaveOrganization { email, org_id } => look_up_step(
            settings,
            goal,
            email,
            token,
        ),
        Auth0GoalView::Update { email, first_name, last_name, username } => look_up_step(
            settings,
            goal,
            email,
            token,
        ),
        Auth0GoalView::Invite { email, org_id, user_id, default_site_domain } => look_up_step(
            settings,
            goal,
            email,
            token,
        ),
        Auth0GoalView::CancelInvitation { org_id, invitation_id } => Auth0StepView::Act(
            with_token(
                bare_request(
                    Method::Delete,
                    settings.issuer_base_url@ + "/api/v2/organizations/"@ + org_id
                        + "/invitations/"@ + invitation_id,
                ),
                token,
            ),
        ),
    }
}

/// The first of the users in a list.
pub open spec fn first_user(email: Seq<char>, users: Seq<JsonView>) -> Result<
    UserAuth0View,
    ErrorView,
> {
    if users.len() == 0 {
        Err(ErrorView::NotFoundError("User with email ["@ + email + "] doesn't exist."@))
    } else {
        Ok(
            UserAuth0View {
                user_id: text_or_empty(text_at(users[0], "user_id"@)),
                user_metadata: lookup(users[0], "user_metadata"@),
            },
        )
    }
}

/// The user that a reply describes.
pub open spec fn user_in(email: Seq<char>, sent: SentView) -> Result<UserAuth0View, ErrorView> {
    match sent {
        SentView::Failed(error) => Err(auth_provider_error(error.report.message)),
        SentView::Answered(reply) => match reply_json(reply) {
            Err(report) => Err(general_error(report.message)),
            Ok(json) => match items_of(json) {
                None => Err(general_error("error decoding response body"@)),
                Some(users) => first_user(email, users),
            },
        },
    }
}

/// The site domains of an invited user, by organization: those that the user has, and the one of
/// the organization. Where they are no object they stay as they are.
pub open spec fn site_domains(
    user: Option<UserAuth0View>,
    org_id: Seq<char>,
    domain: Seq<char>,
) -> JsonView {
    let known = match user {
        Some(user) => match user.user_metadata {
            Some(metadata) => match lookup(metadata, "default_site_domains"@) {
                Some(domains) => domains,
                None => JsonView::Object(Map::empty()),
            },
            None => JsonView::Object(Map::empty()),
        },
        None => JsonView::Object(Map::empty()),
    };
    with_entry(known, org_id, JsonView::Text(domain))
}

/// The document that an invitation consists of.
pub open spec fn invitation_body(
    settings: &Auth0Settings,
    email: Seq<char>,
    user_id: Seq<char>,
    domains: JsonView,
) -> JsonView {
    JsonView::Object(
        map![
            "inviter"@ => JsonView::Object(map!["name"@ => JsonView::Text("App"@)]),
            "invitee"@ => JsonView::Object(map!["email"@ => JsonView::Text(email)]),
            "client_id"@ => JsonView::Text(settings.client_id@),
            "ttl_sec"@ => JsonView::Number(number_of(259200)),
            "send_invitation_email"@ => JsonView::Bool(true),
            "app_metadata"@ => JsonView::Object(map!["app_user_id"@ => JsonView::Text(user_id)]),
            "user_metadata"@ => JsonView::Object(map!["default_site_domains"@ => domains]),
        ],
    )
}

/// The request that sends an invitation.
pub open spec fn invite_request(
    settings: &Auth0Settings,
    email: Seq<char>,
    org_id: Seq<char>,
    user_id: Seq<char>,
    domains: JsonView,
    token: Seq<char>,
) -> RequestView {
    with_json(
        with_header(
            json_request(
                Method::Post,
                settings.issuer_base_url@ + "/api/v2/organizations/"@ + org_id + "/invitations"@,
                token,
            ),
            "content-type"@,
            "application/json"@,
        ),
        invitation_body(settings, email, user_id, domains),
    )
}

/// What follows once the user that a goal speaks of was looked up. Somebody who is not known can
/// still be invited.
pub open spec fn step_with_user(
    settings: &Auth0Settings,
    goal: Auth0GoalView,
    user: Result<UserAuth0View, ErrorView>,
    token: Seq<char>,
) -> Result<Auth0StepView, ErrorView> {
    match goal {
        Auth0GoalView::LeaveOrganization { email, org_id } => match user {
            Err(error) => Err(error),
            Ok(user) => Ok(
                Auth0StepView::Act(
                    with_json(
                        json_request(
                            Method::Delete,
                            settings.issuer_base_url@ + "/api/v2/organizations/"@ + org_id
                                + "/members"@,
                            token,
                        ),
                        JsonView::Object(
                            map![
                                "members"@ => JsonView::Array(seq![JsonView::Text(user.user_id)]),
                            ],
                        ),
                    ),
                ),
            ),
        },
        Auth0GoalView::Update { email, first_name, last_name, username } => match user {
            Err(error) => Err(error),
            Ok(user) => Ok(
                Auth0StepView::Act(
                    with_json(
                        json_request(
                            Method::Patch,
                            settings.issuer_base_url@ + "/api/v2/users/"@ + user.user_id,
                            token,
                        ),
                        JsonView::Object(
                            map![
                                "first_name"@ => JsonView::Text(first_name),
                                "last_name"@ => JsonView::Text(last_name),
                                "username"@ => JsonView::Text(username),
                            ],
                        ),
                    ),
                ),
            ),
        },
        Auth0GoalView::Invite { email, org_id, user_id, default_site_domain } => match user {
            Ok(found) => Ok(
                Auth0StepView::Invite(
                    invite_request(
                        settings,
                        email,
                        org_id,
                        user_id,
                        site_domains(Some(found), org_id, default_site_domain),
                        token,
                    ),
                ),
            ),
            Err(ErrorView::NotFoundError(_)) => Ok(
                Auth0StepView::Invite(
                    invite_request(
                        settings,
                        email,
                        org_id,
                        user_id,
                        site_domains(None, org_id, default_site_domain),
                        token,
                    ),
                ),
            ),
            Err(error) => Err(error),
        },
        _ => Ok(step_with_token(settings, goal, token)),
    }
}

/// The email address of the user that a goal speaks of.
pub open spec fn goal_email(goal: Auth0GoalView) -> Seq<char> {
    match goal {
        Auth0GoalView::LeaveOrganization { email, org_id } => email,
        Auth0GoalView::Update { email, first_name, last_name, username } => email,
        Auth0GoalView::Invite { email, org_id, user_id, default_site_domain } => email,
        _ => Seq::empty(),
    }
}

impl Auth0Service {
    /// Auth0, with what it is reached with.
    pub fn new(settings: Auth0Settings) -> (service: Self)
        ensures
            service.settings == settings,
    {
        Auth0Service { settings }
    }

    /// The request for a token.
    pub fn get_auth0_token(&self) -> (request: HttpRequest)
        ensures
            request.deep_view() == token_request(&self.settings),
    {
        let url = cat2(self.settings.issuer_base_url.as_str(), "/oauth/token");
        let bare = HttpRequest::new(Method::Post, url);
        let mut form: Vec<(String, String)> = Vec::new();
        form.push(("grant_type".to_string(), "client_credentials".to_string()));
        form.push(("client_id".to_string(), self.settings.m2m_client_id.clone()));
        form.push(("client_secret".to_string(), self.settings.m2m_client_secret.clone()));
        form.push(("audience".to_string(), self.settings.m2m_audience.clone()));
        assert(form.deep_view() =~= seq![
            ("grant_type"@, "client_credentials"@),
            ("client_id"@, self.settings.m2m_client_id@),
            ("client_secret"@, self.settings.m2m_client_secret@),
            ("audience"@, self.settings.m2m_audience@),
        ]);
        HttpRequest { payload: Payload::Form(form), ..bare }
    }

    /// Reads the token in a reply.
    pub fn read_token(sent: &Sent) -> (token: Result<String, ServiceError>)
        ensures
            outcome(token) == token_in(sent.deep_view()),
    {
        match sent {
            Sent::Failed(error) => Err(
                ServiceError::of_auth_provider(error.report.message.clone()),
            ),
            Sent::Answered(reply) => match reply.json() {
                Ok(json) => Ok(or_empty(json.text_at("access_token"))),
                Err(report) => Err(ServiceError::of_auth_provider(report.message)),
            },
        }
    }

    /// The request with the header that carries a token.
    fn authorize(request: HttpRequest, token: &str) -> (carrying: HttpRequest)
        ensures
            carrying.deep_view() == with_token(request.deep_view(), token@),
    {
        let value = cat2("Bearer ", token);
        if is_header_text(value.as_str()) {
            request.header("authorization", value.as_str())
        } else {
            request.header("authorization", "")
        }
    }

    /// A request that asks for JSON.
    fn ask_json(method: Method, url: String, token: &str) -> (request: HttpRequest)
        ensures
            request.deep_view() == json_request(method, url@, token@),
    {
        let request = HttpRequest::new(method, url).header("accept", "application/json");
        Self::authorize(request, token)
    }

    /// The search for a user with an email address.
    fn search(email: &str) -> (query: String)
        ensures
            query@ == email_query(email@),
    {
        cat3("email:\"", email, "\"")
    }

    /// The request for the users with email addresses.
    fn list(&self, emails: &Vec<String>, token: &str) -> (request: HttpRequest)
        ensures
            request.deep_view() == list_request(&self.settings, emails.deep_view(), token@),
    {
        let ghost wanted = emails.deep_view().map_values(|email: Seq<char>| email_query(email));
        let mut queries: Vec<String> = Vec::new();
        let mut i: usize = 0;
        while i < emails.len()
            invariant
                i <= emails@.len(),
                wanted == emails.deep_view().map_values(|email: Seq<char>| email_query(email)),
                queries@.len() == i,
                forall|j: int| 0 <= j < i ==> (#[trigger] queries@[j])@ == wanted[j],
            decreases emails@.len() - i,
        {
            let query = Self::search(emails[i].as_str());
            assert(query@ == wanted[i as int]);
            queries.push(query);
            i += 1;
        }
        assert(queries.deep_view() =~= wanted);
        let query = join(&queries, " OR ");
        let encoded = url_encode(query.as_str());
        let url = cat4(
            self.settings.issuer_base_url.as_str(),
            "/api/v2/users?q=",
            encoded.as_str(),
            "&per_page=20&search_engine=v3",
        );
        Self::ask_json(Method::Get, url, token)
    }

    /// The request that looks a user up.
    fn look_up(&self, email: &str, token: &str) -> (request: HttpRequest)
        ensures
            request.deep_view() == json_request(
                Method::Get,
                look_up_url(&self.settings, email@),
                token@,
            ),
    {
        let query = Self::search(email);
        let encoded = url_encode(query.as_str());
        let url = cat4(
            self.settings.issuer_base_url.as_str(),
            "/api/v2/users?q=",
            encoded.as_str(),
            "&search_engine=v3",
        );
        Self::ask_json(Method::Get, url, token)
    }

    /// What follows once there is a token.
    pub fn with_token(&self, goal: Auth0Goal, token: String) -> (step: Auth0Step)
        ensures
            step.deep_view() == step_with_token(&self.settings, goal.deep_view(), token@),
    {
        match &goal {
            Auth0Goal::FindUsers(emails) => Auth0Step::List(self.list(emails, token.as_str())),
            Auth0Goal::LeaveOrganization { email, org_id } => {
                let request = self.look_up(email.as_str(), token.as_str());
                Auth0Step::LookUp { request, goal, token }
            },
            Auth0Goal::Update { email, first_name, last_name, username } => {
                let request = self.look_up(email.as_str(), token.as_str());
                Auth0Step::LookUp { request, goal, token }
            },
            Auth0Goal::Invite { email, org_id, user_id, default_site_domain } => {
                let request = self.look_up(email.as_str(), token.as_str()).header(
                    "content-type",
                    "application/json",
                );
                Auth0Step::LookUp { request, goal, token }
            },
            Auth0Goal::CancelInvitation { org_id, invitation_id } => {
                let url = cat5(
                    self.settings.issuer_base_url.as_str(),
                    "/api/v2/organizations/",
                    org_id.as_str(),
                    "/invitations/",
                    invitation_id.as_str(),
                );
                let request = HttpRequest::new(Method::Delete, url);
                Auth0Step::Act(Self::authorize(request, token.as_str()))
            },
        }
    }

    /// Takes in the reply to the request for a token.
    pub fn token_received(&self, goal: Auth0Goal, sent: &Sent) -> (step: Result<
        Auth0Step,
        ServiceError,
    >)
        ensures
            outcome(step) == (match token_in(sent.deep_view()) {
                Ok(token) => Ok::<Auth0StepView, ErrorView>(
                    step_with_token(&self.settings, goal.deep_view(), token),
                ),
                Err(error) => Err(error),
            }),
    {
        match Self::read_token(sent) {
            Ok(token) => Ok(self.with_token(goal, token)),
            Err(error) => Err(error),
        }
    }

    /// The first of the users in a list.
    pub fn pick_user(email: &str, users: &Vec<Json>) -> (user: Result<UserAuth0Data, ServiceError>)
        ensures
            outcome(user) == first_user(email@, users.deep_view()),
    {
        if users.len() == 0 {
            return Err(
                ServiceError::NotFoundError(
                    cat3("User with email [", email, "] doesn't exist."),
                ),
            );
        }
        assert(users.deep_view()[0] == users@[0].deep_view());
        let user_metadata = match users[0].get("user_metadata") {
            Some(metadata) => Some(metadata.copy()),
            None => None,
        };
        Ok(UserAuth0Data { user_id: or_empty(users[0].text_at("user_id")), user_metadata })
    }

    /// Reads the reply that describes a user.
    pub fn retrieve_auth0_user_id_by_email(email: &str, sent: &Sent) -> (user: Result<
        UserAuth0Data,
        ServiceError,
    >)
        ensures
            outcome(user) == user_in(email@, sent.deep_view()),
    {
        match sent {
            Sent::Failed(error) => Err(
                ServiceError::of_auth_provider(error.report.message.clone()),
            ),
            Sent::Answered(reply) => match reply.json() {
                Err(report) => Err(ServiceError::of_message(report.message)),
                Ok(json) => match json.as_array() {
                    None => general("error decoding response body"),
                    Some(users) => Self::pick_user(email, users),
                },
            },
        }
    }

    /// The site domains of an invited user.
    fn domains(user: Option<UserAuth0Data>, org_id: &str, domain: &str) -> (domains: Json)
        ensures
            domains.deep_view() == site_domains(user.deep_view(), org_id@, domain@),
    {
        let known = match user {
            Some(user) => match &user.user_metadata {
                Some(metadata) => match metadata.get("default_site_domains") {
                    Some(domains) => domains.copy(),
                    None => Json::object(),
                },
                None => Json::object(),
            },
            None => Json::object(),
        };
        known.with(org_id, Json::of_text(domain))
    }

    /// The request that sends an invitation.
    fn invite(&self, email: &str, org_id: &str, user_id: &str, domains: Json, token: &str) -> (request:
        HttpRequest)
        ensures
            request.deep_view() == invite_request(
                &self.settings,
                email@,
                org_id@,
                user_id@,
                domains.deep_view(),
                token@,
            ),
    {
        let body = Json::object()
            .with("inviter", Json::object().with("name", Json::of_text("App")))
            .with("invitee", Json::object().with("email", Json::of_text(email)))
            .with("client_id", Json::of_text(self.settings.client_id.as_str()))
            .with("ttl_sec", Json::of_number(259200))
            .with("send_invitation_email", Json::Bool(true))
            .with("app_metadata", Json::object().with("app_user_id", Json::of_text(user_id)))
            .with("user_metadata", Json::object().with("default_site_domains", domains));
        let url = cat4(
            self.settings.issuer_base_url.as_str(),
            "/api/v2/organizations/",
            org_id,
            "/invitations",
        );
        Self::ask_json(Method::Post, url, token).header("content-type", "application/json").json(
            body,
        )
    }

    /// What follows once the user that a goal speaks of was looked up.
    pub fn with_user(
        &self,
        goal: Auth0Goal,
        user: Result<UserAuth0Data, ServiceError>,
        token: String,
    ) -> (step: Result<Auth0Step, ServiceError>)
        ensures
            outcome(step) == step_with_user(
                &self.settings,
                goal.deep_view(),
                outcome(user),
                token@,
            ),
    {
        match &goal {
            Auth0Goal::LeaveOrganization { email, org_id } => match user {
                Err(error) => Err(error),
                Ok(user) => {
                    let url = cat4(
                        self.settings.issuer_base_url.as_str(),
                        "/api/v2/organizations/",
                        org_id.as_str(),
                        "/members",
                    );
                    let body = Json::object().with(
                        "members",
                        Json::of_item(Json::of_text(user.user_id.as_str())),
                    );
                    Ok(
                        Auth0Step::Act(
                            Self::ask_json(Method::Delete, url, token.as_str()).json(body),
                        ),
                    )
                },
            },
            Auth0Goal::Update { email, first_name, last_name, username } => match user {
                Err(error) => Err(error),
                Ok(user) => {
                    let url = cat3(
                        self.settings.issuer_base_url.as_str(),
                        "/api/v2/users/",
                        user.user_id.as_str(),
                    );
                    let body = Json::object()
                        .with("first_name", Json::of_text(first_name.as_str()))
                        .with("last_name", Json::of_text(last_name.as_str()))
                        .with("username", Json::of_text(username.as_str()));
                    Ok(
                        Auth0Step::Act(
                            Self::ask_json(Method::Patch, url, token.as_str()).json(body),
                        ),
                    )
                },
            },
            Auth0Goal::Invite { email, org_id, user_id, default_site_domain } => {
                let known = match user {
                    Ok(user) => Some(user),
                    Err(ServiceError::NotFoundError(_)) => None,
                    Err(error) => {
                        return Err(error);
                    },
                };
                let domains = Self::domains(
                    known,
                    org_id.as_str(),
                    default_site_domain.as_str(),
                );
                Ok(
                    Auth0Step::Invite(
                        self.invite(
                            email.as_str(),
                            org_id.as_str(),
                            user_id.as_str(),
                            domains,
                            token.as_str(),
                        ),
                    ),
                )
            },
            _ => Ok(self.with_token(goal, token)),
        }
    }

    /// Takes in the reply that describes the user that a goal speaks of.
    pub fn user_looked_up(&self, goal: Auth0Goal, token: String, sent: &Sent) -> (step: Result<
        Auth0Step,
        ServiceError,
    >)
        ensures
            outcome(step) == step_with_user(
                &self.settings,
                goal.deep_view(),
                user_in(goal_email(goal.deep_view()), sent.deep_view()),
                token@,
            ),
    {
        let email = match &goal {
            Auth0Goal::LeaveOrganization { email, org_id } => email.clone(),
            Auth0Goal::Update { email, first_name, last_name, username } => email.clone(),
            Auth0Goal::Invite { email, org_id, user_id, default_site_domain } => email.clone(),
            _ => {
                let empty = String::new();
                assert(empty@ =~= Seq::empty());
                empty
            },
        };
        let user = Self::retrieve_auth0_user_id_by_email(email.as_str(), sent);
        self.with_user(goal, user, token)
    }

    /// What a change comes to: whatever the reply is, it is done.
    pub fn acted(sent: &Sent) -> (result: Result<(), ServiceError>)
        ensures
            match sent.deep_view() {
                SentView::Failed(error) => result matches Err(found) && found.deep_view()
                    == auth_provider_error(error.report.message),
                SentView::Answered(_) => result is Ok,
            },
    {
        match sent {
            Sent::Failed(error) => Err(
                ServiceError::of_auth_provider(error.report.message.clone()),
            ),
            Sent::Answered(_) => Ok(()),
        }
    }

    /// The identifier of an invitation in a document.
    pub fn invitation_id(json: &Json) -> (id: Result<String, ServiceError>)
        ensures
            outcome(id) == invitation_id_in(json.deep_view()),
    {
        match json.text_at("id") {
            Some(id) => Ok(id),
            None => general("Missing invitation ID"),
        }
    }

    /// What an invitation comes to: its identifier.
    pub fn invited(sent: &Sent) -> (id: Result<String, ServiceError>)
        ensures
            outcome(id) == (match sent.deep_view() {
                SentView::Failed(error) => Err(
                    auth_provider_error(error.report.message),
                ),
                SentView::Answered(reply) => match reply_json(reply) {
                    Ok(json) => invitation_id_in(json),
                    Err(report) => Err(general_error(report.message)),
                },
            }),
    {
        match sent {
            Sent::Failed(error) => Err(
                ServiceError::of_auth_provider(error.report.message.clone()),
            ),
            Sent::Answered(reply) => match reply.json() {
                Ok(json) => Self::invitation_id(&json),
                Err(report) => Err(ServiceError::of_message(report.message)),
            },
        }
    }

    /// The text of a reply that lists users.
    pub fn parse_users_data(sent: &Sent) -> (text: Result<String, ServiceError>)
        ensures
            outcome(text) == (match sent.deep_view() {
                SentView::Failed(error) => Err(
                    auth_provider_error(error.report.message),
                ),
                SentView::Answered(reply) => match reply.body {
                    Ok(_) => Ok::<Seq<char>, ErrorView>(reply.text),
                    Err(report) => Err(auth_provider_error(report.message)),
                },
            }),
    {
        match sent {
            Sent::Failed(error) => Err(
                ServiceError::of_auth_provider(error.report.message.clone()),
            ),
            Sent::Answered(reply) => match &reply.body {
                Ok(_) => Ok(reply.text.clone()),
                Err(report) => Err(ServiceError::of_auth_provider(report.message.clone())),
            },
        }
    }
}

/// The identifier of an invitation in a document.
pub open spec fn invitation_id_in(json: JsonView) -> Result<Seq<char>, ErrorView> {
    match text_at(json, "id"@) {
        Some(id) => Ok(id),
        None => Err(general_error("Missing invitation ID"@)),
    }
}

/// The task for a goal: a token is asked for first.
pub open spec fn authorize_for(settings: &Auth0Settings, goal: Auth0GoalView) -> Auth0TaskView {
    Auth0TaskView::Authorize { request: token_request(settings), goal }
}

impl AuthProviderTrait for Auth0Service {
    type Task = Auth0Task;

    open spec fn offers(operation: AuthOperation) -> bool {
        ||| operation is GetUserDataWithUserEmails
        ||| operation is DeleteUserFromOrg
        ||| operation is UpdateUser
        ||| operation is InviteUser
        ||| operation is CancelInvitation
    }

    fn get_user_data_with_user_emails(&self, user_emails: &Vec<String>) -> (task: Result<
        Auth0Task,
        ServiceError,
    >)
        ensures
            outcome(task) == Ok::<Auth0TaskView, ErrorView>(
                if user_emails.deep_view().len() == 0 {
                    Auth0TaskView::Users(Seq::empty())
                } else {
                    authorize_for(
                        &self.settings,
                        Auth0GoalView::FindUsers(user_emails.deep_view()),
                    )
                },
            ),
    {
        if user_emails.len() == 0 {
            let users: Vec<AuthUserData> = Vec::new();
            assert(users.deep_view() =~= Seq::empty());
            return Ok(Auth0Task::Users(users));
        }
        let emails = user_emails.clone();
        assert(emails.deep_view() =~= user_emails.deep_view());
        Ok(
            Auth0Task::Authorize {
                request: self.get_auth0_token(),
                goal: Auth0Goal::FindUsers(emails),
            },
        )
    }

    fn delete_user_from_org(&self, email: &str, org_id: &str, user_id: &Option<String>) -> (task:
        Result<Auth0Task, ServiceError>)
        ensures
            outcome(task) == Ok::<Auth0TaskView, ErrorView>(
                authorize_for(
                    &self.settings,
                    Auth0GoalView::LeaveOrganization { email: email@, org_id: org_id@ },
                ),
            ),
    {
        Ok(
            Auth0Task::Authorize {
                request: self.get_auth0_token(),
                goal: Auth0Goal::LeaveOrganization {
                    email: email.to_string(),
                    org_id: org_id.to_string(),
                },
            },
        )
    }

    fn update_user(
        &self,
        email: &str,
        first_name: &str,
        last_name: &str,
        user_id: &Option<String>,
        username: &str,
    ) -> (task: Result<Auth0Task, ServiceError>)
        ensures
            outcome(task) == Ok::<Auth0TaskView, ErrorView>(
                authorize_for(
                    &self.settings,
                    Auth0GoalView::Update {
                        email: email@,
                        first_name: first_name@,
                        last_name: last_name@,
                        username: username@,
                    },
                ),
            ),
    {
        Ok(
            Auth0Task::Authorize {
                request: self.get_auth0_token(),
                goal: Auth0Goal::Update {
                    email: email.to_string(),
                    first_name: first_name.to_string(),
                    last_name: last_name.to_string(),
                    username: username.to_string(),
                },
            },
        )
    }

    fn invite_user(
        &self,
        org_id: &str,
        user_id: &str,
        email: &str,
        default_site_domain: &str,
        is_admin_role: &bool,
    ) -> (task: Result<Auth0Task, ServiceError>)
        ensures
            outcome(task) == Ok::<Auth0TaskView, ErrorView>(
                authorize_for(
                    &self.settings,
                    Auth0GoalView::Invite {
                        email: email@,
                        org_id: org_id@,
                        user_id: user_id@,
                        default_site_domain: default_site_domain@,
                    },
                ),
            ),
    {
        Ok(
            Auth0Task::Authorize {
                request: self.get_auth0_token(),
                goal: Auth0Goal::Invite {
                    email: email.to_string(),
                    org_id: org_id.to_string(),
                    user_id: user_id.to_string(),
                    default_site_domain: default_site_domain.to_string(),
                },
            },
        )
    }

    fn cancel_invitation(&self, org_id: &str, invitation_id: &str) -> (task: Result<
        Auth0Task,
        ServiceError,
    >)
        ensures
            outcome(task) == Ok::<Auth0TaskView, ErrorView>(
                authorize_for(
                    &self.settings,
                    Auth0GoalView::CancelInvitation {
                        org_id: org_id@,
                        invitation_id: invitation_id@,
                    },
                ),
            ),
    {
        Ok(
            Auth0Task::Authorize {
                request: self.get_auth0_token(),
                goal: Auth0Goal::CancelInvitation {
                    org_id: org_id.to_string(),
                    invitation_id: invitation_id.to_string(),
                },
            },
        )
    }
}

/// An invitation keeps the site domains of other organizations, where those that are known are
/// listed by organization.
pub proof fn law_invitation_keeps_other_domains(
    user: UserAuth0View,
    org_id: Seq<char>,
    domain: Seq<char>,
    other_org: Seq<char>,
)
    requires
        other_org != org_id,
        user.user_metadata matches Some(metadata) && (lookup(
            metadata,
            "default_site_domains"@,
        ) matches Some(domains) && domains is Object),
    ensures
        lookup(site_domains(Some(user), org_id, domain), other_org) == lookup(
            lookup(user.user_metadata->0, "default_site_domains"@)->0,
            other_org,
        ),
        lookup(site_domains(Some(user), org_id, domain), org_id) == Some(JsonView::Text(domain)),
{
}

} // verus!
