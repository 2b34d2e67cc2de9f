//! The Clerk backend API.
use vstd::prelude::*;
use crate::auth_provider::auth_provider_trait::{AuthOperation, AuthProviderTrait};
use crate::auth_provider::clerk_error::{
    clerk_error, clerk_failure, is_duplicate_slug_error, lists_slug_conflict,
};
use crate::auth_provider::clerk_users::{
    answer, first_page, map_auth_data_from_get_user_response, optional_answer, page_path,
    push_users, read_optional_reply, read_reply, user_of, users_of, Listed, ListedView, UserPages,
    UserPagesView,
};
use crate::encoding::{percent_encoded, url_encode};
use crate::error::{general, general_error, outcome, ErrorView, ServiceError};
use crate::http::{
    bare_request, is_success, reply_json, status_is_success, valid_sent, with_credentials,
    with_header, with_json, CredentialsView, HttpRequest, Method, RequestView, Sent, SentView,
};
use crate::json::{
    items_of, json_debug, json_parsed, member, number_of, text_at, with_entry, Json, JsonView,
};
use crate::text::{
    cat2, cat3, cat4, cat5, join, join_text, lowercase, or_empty, replace, replaced, text_or_empty,
};
use crate::types::{AuthUserData, UserView};

verus! {

/// Clerk, with the address and the key of its API.
#[derive(Debug)]
pub struct ClerkService {
    pub base_url: String,
    pub api_key: String,
}

/// A request to Clerk.
pub open spec fn clerk_request(clerk: &ClerkService, method: Method, path: Seq<char>) -> RequestView {
    with_credentials(
        with_header(
            bare_request(method, clerk.base_url@ + path),
            "content-type"@,
            "application/json"@,
        ),
        CredentialsView::Bearer(clerk.api_key@),
    )
}

/// What is to be done with a user, once the identifier is known.
#[derive(Debug)]
pub enum UserChange {
    /// To take the user out of an organization.
    LeaveOrganization(String),
    /// To change what the document says.
    Update(Json),
}

pub enum UserChangeView {
    LeaveOrganization(Seq<char>),
    Update(JsonView),
}

impl DeepView for UserChange {
    type V = UserChangeView;

    open spec fn deep_view(&self) -> UserChangeView {
        match self {
            UserChange::LeaveOrganization(org_id) => UserChangeView::LeaveOrganization(org_id@),
            UserChange::Update(body) => UserChangeView::Update(body.deep_view()),
        }
    }
}

/// The request for a change of a user.
pub open spec fn change_request(
    clerk: &ClerkService,
    user_id: Seq<char>,
    change: UserChangeView,
) -> RequestView {
    match change {
        UserChangeView::LeaveOrganization(org_id) => clerk_request(
            clerk,
            Method::Delete,
            "/v1/organizations/"@ + org_id + "/memberships/"@ + user_id,
        ),
        UserChangeView::Update(body) => with_json(
            clerk_request(clerk, Method::Patch, "/v1/users/"@ + user_id),
            body,
        ),
    }
}

/// Users who are asked for one by one: who is still to be asked for, and who was found.
#[derive(Debug)]
pub struct UsersById {
    pub user_ids: Vec<String>,
    pub next: usize,
    pub users: Vec<AuthUserData>,
}

pub struct UsersByIdView {
    pub user_ids: Seq<Seq<char>>,
    pub next: nat,
    pub users: Seq<UserView>,
}

impl DeepView for UsersById {
    type V = UsersByIdView;

    open spec fn deep_view(&self) -> UsersByIdView {
        UsersByIdView {
            user_ids: self.user_ids.deep_view(),
            next: self.next as nat,
            users: self.users.deep_view(),
        }
    }
}

/// What an operation of Clerk has left to do.
#[derive(Debug)]
pub enum ClerkTask {
    /// Nothing: these are the users.
    Users(Vec<AuthUserData>),
    /// To read both lists, at the same time.
    OrgUsers { members: UserPages, invitations: UserPages },
    /// To ask for users one by one.
    UsersById(UsersById),
    /// To send a request whose reply lists users.
    UsersByEmail(HttpRequest),
    /// To send a request whose reply lists the user to change.
    FindUser { request: HttpRequest, change: UserChange },
    /// To send a request that changes a user.
    ChangeUser(HttpRequest),
    Invite(HttpRequest),
    CancelInvitation(HttpRequest),
    CreateUser(HttpRequest),
    CreateSignInToken(HttpRequest),
    GetMetadata(HttpRequest),
    MergeMetadata(HttpRequest),
    CreateOrganization(HttpRequest),
}

pub enum ClerkTaskView {
    Users(Seq<UserView>),
    OrgUsers { members: UserPagesView, invitations: UserPagesView },
    UsersById(UsersByIdView),
    UsersByEmail(RequestView),
    FindUser { request: RequestView, change: UserChangeView },
    ChangeUser(RequestView),
    Invite(RequestView),
    CancelInvitation(RequestView),
    CreateUser(RequestView),
    CreateSignInToken(RequestView),
    GetMetadata(RequestView),
    MergeMetadata(RequestView),
    CreateOrganization(RequestView),
}

impl DeepView for ClerkTask {
    type V = ClerkTaskView;

    open spec fn deep_view(&self) -> ClerkTaskView {
        match self {
            ClerkTask::Users(users) => ClerkTaskView::Users(users.deep_view()),
            ClerkTask::OrgUsers { members, invitations } => ClerkTaskView::OrgUsers {
                members: members.deep_view(),
                invitations: invitations.deep_view(),
            },
            ClerkTask::UsersById(users) => ClerkTaskView::UsersById(users.deep_view()),
            ClerkTask::UsersByEmail(request) => ClerkTaskView::UsersByEmail(request.deep_view()),
            ClerkTask::FindUser { request, change } => ClerkTaskView::FindUser {
                request: request.deep_view(),
                change: change.deep_view(),
            },
            ClerkTask::ChangeUser(request) => ClerkTaskView::ChangeUser(request.deep_view()),
            ClerkTask::Invite(request) => ClerkTaskView::Invite(request.deep_view()),
            ClerkTask::CancelInvitation(request) => ClerkTaskView::CancelInvitation(
                request.deep_view(),
            ),
            ClerkTask::CreateUser(request) => ClerkTaskView::CreateUser(request.deep_view()),
            ClerkTask::CreateSignInToken(request) => ClerkTaskView::CreateSignInToken(
                request.deep_view(),
            ),
            ClerkTask::GetMetadata(request) => ClerkTaskView::GetMetadata(request.deep_view()),
            ClerkTask::MergeMetadata(request) => ClerkTaskView::MergeMetadata(request.deep_view()),
            ClerkTask::CreateOrganization(request) => ClerkTaskView::CreateOrganization(
                request.deep_view(),
            ),
        }
    }
}

/// The lists that make up the users of an organization. What is searched for goes to Clerk for
/// the members, and is compared in lower case for the invitations.
pub open spec fn org_users(org_id: Seq<char>, search_query: Option<Seq<char>>) -> ClerkTaskView {
    ClerkTaskView::OrgUsers {
        members: first_page(
            match search_query {
                Some(query) => "/v1/users?organization_id="@ + org_id + "&query="@
                    + percent_encoded(query),
                None => "/v1/users?organization_id="@ + org_id,
            },
            ListedView::Members,
        ),
        invitations: first_page(
            "/v1/organizations/"@ + org_id + "/invitations?status=pending"@,
            ListedView::Invitations(
                match search_query {
                    Some(query) => Some(lowercase(query)),
                    None => None,
                },
            ),
        ),
    }
}

/// The parameter that asks for a user with an email address.
pub open spec fn email_param(email: Seq<char>) -> Seq<char> {
    "email_address[]="@ + percent_encoded(email)
}

/// The request for users with email addresses.
pub open spec fn users_by_email_request(clerk: &ClerkService, emails: Seq<Seq<char>>) -> RequestView {
    clerk_request(
        clerk,
        Method::Get,
        "/v1/users?"@ + join_text(
            emails.map_values(|email: Seq<char>| email_param(email)),
            "&"@,
        ),
    )
}

/// The users that a reply lists; a document without a list lists none.
pub open spec fn listed_users(json: JsonView) -> Seq<UserView> {
    match items_of(member(json, "data"@)) {
        Some(items) => users_of(items),
        None => match items_of(json) {
            Some(items) => users_of(items),
            None => Seq::empty(),
        },
    }
}

/// The users that a reply lists.
pub open spec fn users_in_reply(sent: SentView) -> Result<Seq<UserView>, ErrorView> {
    match answer(sent) {
        Ok(json) => Ok(listed_users(json)),
        Err(error) => Err(error),
    }
}

/// How a change of a user begins: the user is looked up by email address where the identifier is
/// not given.
pub open spec fn change_of(
    clerk: &ClerkService,
    email: Seq<char>,
    user_id: Option<Seq<char>>,
    change: UserChangeView,
) -> ClerkTaskView {
    match user_id {
        Some(user_id) => ClerkTaskView::ChangeUser(change_request(clerk, user_id, change)),
        None => ClerkTaskView::FindUser {
            request: users_by_email_request(clerk, seq![email]),
            change,
        },
    }
}

/// The document with a text, where the text is not empty.
pub open spec fn with_text(json: JsonView, key: Seq<char>, text: Seq<char>) -> JsonView {
    if text.len() == 0 {
        json
    } else {
        with_entry(json, key, JsonView::Text(text))
    }
}

/// The document with a text, where the text is not empty.
fn add_text(json: Json, key: &str, text: &str) -> (longer: Json)
    ensures
        longer.deep_view() == with_text(json.deep_view(), key@, text@),
{
    if text.is_empty() {
        json
    } else {
        json.with(key, Json::of_text(text))
    }
}

/// The names of a user that are to change, which are those that are not empty.
pub open spec fn names_body(
    first_name: Seq<char>,
    last_name: Seq<char>,
    username: Seq<char>,
) -> JsonView {
    with_text(
        with_text(
            with_text(JsonView::Object(Map::empty()), "first_name"@, first_name),
            "last_name"@,
            last_name,
        ),
        "username"@,
        username,
    )
}

/// The document, or null where there is none.
pub open spec fn or_null(json: Option<JsonView>) -> JsonView {
    match json {
        Some(json) => json,
        None => JsonView::Null,
    }
}

/// The text that a reply must have under a key; otherwise its errors are reported.
pub open spec fn required_text(json: JsonView, key: Seq<char>, complaint: Seq<char>) -> Result<
    Seq<char>,
    ErrorView,
> {
    match text_at(json, key) {
        Some(text) => Ok(text),
        None => Err(
            general_error(complaint + json_debug(member(json, "errors"@))),
        ),
    }
}

/// The text that a reply must have under a key.
pub fn require_text(json: &Json, key: &str, complaint: &str) -> (text: Result<
    String,
    ServiceError,
>)
    ensures
        outcome(text) == required_text(json.deep_view(), key@, complaint@),
{
    match json.text_at(key) {
        Some(text) => Ok(text),
        None => {
            let errors = json.member("errors").to_debug();
            let message = cat2(complaint, errors.as_str());
            general(message.as_str())
        },
    }
}

/// The document of a reply, where failures are those of [`clerk_failure`].
pub open spec fn checked_answer(sent: SentView) -> Result<JsonView, ErrorView> {
    match sent {
        SentView::Failed(error) => Err(ErrorView::ReqwestError(error.report)),
        SentView::Answered(reply) => if !is_success(reply.status) {
            Err(clerk_failure(reply.status, reply.text))
        } else {
            match reply_json(reply) {
                Ok(json) => Ok(json),
                Err(report) => Err(ErrorView::ReqwestError(report)),
            }
        },
    }
}

/// Reads the document of a reply; `context` names the operation.
fn read_checked_reply(context: &str, sent: &Sent) -> (json: Result<Json, ServiceError>)
    requires
        valid_sent(sent.deep_view()),
    ensures
        match json {
            Ok(json) => checked_answer(sent.deep_view()) == Ok::<JsonView, ErrorView>(
                json.deep_view(),
            ),
            Err(error) => checked_answer(sent.deep_view()) == Err::<JsonView, ErrorView>(
                error.deep_view(),
            ),
        },
{
    match sent {
        Sent::Failed(error) => Err(ServiceError::ReqwestError(error.report.copy())),
        Sent::Answered(reply) => {
            if !status_is_success(reply.status) {
                return Err(clerk_error(context, reply.status, reply.text.as_str()));
            }
            match reply.json() {
                Ok(json) => Ok(json),
                Err(report) => Err(ServiceError::ReqwestError(report)),
            }
        },
    }
}

impl ClerkService {
    /// Clerk, with the address and the key of its API.
    pub fn new(base_url: String, api_key: String) -> (clerk: Self)
        ensures
            clerk.base_url@ == base_url@,
            clerk.api_key@ == api_key@,
    {
        ClerkService { base_url, api_key }
    }

    /// A request to Clerk.
    pub fn request(&self, method: Method, path: &str) -> (request: HttpRequest)
        ensures
            request.deep_view() == clerk_request(self, method, path@),
    {
        let url = cat2(self.base_url.as_str(), path);
        HttpRequest::new(method, url).header("content-type", "application/json").bearer(
            self.api_key.as_str(),
        )
    }

    /// The request for the next page of a list.
    pub fn page_request(&self, pages: &UserPages) -> (request: HttpRequest)
        ensures
            request.deep_view() == clerk_request(
                self,
                Method::Get,
                page_path(pages.deep_view()),
            ),
    {
        let path = pages.path();
        self.request(Method::Get, path.as_str())
    }

    /// The users of an organization, once both lists have been read: an error in the list of
    /// members counts first.
    pub fn all_users(
        members: Result<Vec<AuthUserData>, ServiceError>,
        invited: Result<Vec<AuthUserData>, ServiceError>,
    ) -> (users: Result<Vec<AuthUserData>, ServiceError>)
        ensures
            outcome(users) == (match (outcome(members), outcome(invited)) {
                (Err(error), _) => Err(error),
                (Ok(_), Err(error)) => Err(error),
                (Ok(members), Ok(invited)) => Ok::<Seq<UserView>, ErrorView>(members + invited),
            }),
    {
        let mut users = match members {
            Ok(users) => users,
            Err(error) => {
                return Err(error);
            },
        };
        let mut invited = match invited {
            Ok(invited) => invited,
            Err(error) => {
                return Err(error);
            },
        };
        let ghost both = users.deep_view() + invited.deep_view();
        users.append(&mut invited);
        assert(users.deep_view() =~= both);
        Ok(users)
    }

    /// The request for users with email addresses.
    fn users_by_email(&self, emails: &Vec<String>) -> (request: HttpRequest)
        ensures
            request.deep_view() == users_by_email_request(self, emails.deep_view()),
    {
        let ghost wanted = emails.deep_view().map_values(|email: Seq<char>| email_param(email));
        let mut params: Vec<String> = Vec::new();
        let mut i: usize = 0;
        while i < emails.len()
            invariant
                i <= emails@.len(),
                wanted == emails.deep_view().map_values(|email: Seq<char>| email_param(email)),
                params@.len() == i,
                forall|j: int| 0 <= j < i ==> (#[trigger] params@[j])@ == wanted[j],
            decreases emails@.len() - i,
        {
            let encoded = url_encode(emails[i].as_str());
            let param = cat2("email_address[]=", encoded.as_str());
            assert(param@ == wanted[i as int]);
            params.push(param);
            i += 1;
        }
        assert(params.deep_view() =~= wanted);
        let query = join(&params, "&");
        let path = cat2("/v1/users?", query.as_str());
        self.request(Method::Get, path.as_str())
    }

    /// The users that a document lists.
    pub fn users_in_json(json: &Json) -> (users: Vec<AuthUserData>)
        ensures
            users.deep_view() == listed_users(json.deep_view()),
    {
        let mut users: Vec<AuthUserData> = Vec::new();
        assert(users.deep_view() =~= Seq::empty());
        let data = json.member("data");
        if let Some(items) = data.as_array() {
            push_users(&mut users, items);
            assert(users.deep_view() =~= users_of(items.deep_view()));
            return users;
        }
        if let Some(items) = json.as_array() {
            push_users(&mut users, items);
            assert(users.deep_view() =~= users_of(items.deep_view()));
        }
        users
    }

    /// Reads a reply that lists users.
    pub fn users_found(sent: &Sent) -> (users: Result<Vec<AuthUserData>, ServiceError>)
        requires
            valid_sent(sent.deep_view()),
        ensures
            outcome(users) == users_in_reply(sent.deep_view()),
    {
        match read_reply(sent) {
            Ok(json) => Ok(Self::users_in_json(&json)),
            Err(error) => Err(error),
        }
    }

    /// The request for a change of a user.
    fn change(&self, user_id: &str, change: UserChange) -> (request: HttpRequest)
        ensures
            request.deep_view() == change_request(self, user_id@, change.deep_view()),
    {
        match change {
            UserChange::LeaveOrganization(org_id) => {
                let path = cat4("/v1/organizations/", org_id.as_str(), "/memberships/", user_id);
                self.request(Method::Delete, path.as_str())
            },
            UserChange::Update(body) => {
                let path = cat2("/v1/users/", user_id);
                self.request(Method::Patch, path.as_str()).json(body)
            },
        }
    }

    /// Begins a change of a user.
    fn resolve_user_id(&self, email: &str, user_id: &Option<String>, change: UserChange) -> (task:
        ClerkTask)
        ensures
            task.deep_view() == change_of(self, email@, user_id.deep_view(), change.deep_view()),
    {
        match user_id {
            Some(user_id) => ClerkTask::ChangeUser(self.change(user_id.as_str(), change)),
            None => {
                let mut emails: Vec<String> = Vec::new();
                emails.push(email.to_string());
                assert(emails.deep_view() =~= seq![email@]);
                ClerkTask::FindUser { request: self.users_by_email(&emails), change }
            },
        }
    }

    /// Takes in the reply that lists the user to change, and gives the request for the change. A
    /// user who is not there needs no change.
    pub fn user_found(&self, sent: &Sent, change: UserChange) -> (request: Result<
        Option<HttpRequest>,
        ServiceError,
    >)
        requires
            valid_sent(sent.deep_view()),
        ensures
            outcome(request) == change_after_lookup(
                self,
                users_in_reply(sent.deep_view()),
                change.deep_view(),
            ),
    {
        match Self::users_found(sent) {
            Ok(users) => {
                if users.len() == 0 {
                    return Ok(None);
                }
                assert(users.deep_view()[0] == users@[0].deep_view());
                Ok(Some(self.change(users[0].user_id.as_str(), change)))
            },
            Err(ServiceError::NotFoundError(_)) => Ok(None),
            Err(error) => Err(error),
        }
    }

    /// What a change of a user comes to. One that is not there needs no change.
    pub fn user_changed(sent: &Sent) -> (result: Result<(), ServiceError>)
        requires
            valid_sent(sent.deep_view()),
        ensures
            match optional_answer(sent.deep_view()) {
                Ok(_) => result is Ok,
                Err(error) => result matches Err(found) && found.deep_view() == error,
            },
    {
        match read_optional_reply(sent) {
            Ok(_) => Ok(()),
            Err(error) => Err(error),
        }
    }

    /// What an invitation comes to: its identifier.
    pub fn user_invited(sent: &Sent) -> (id: Result<String, ServiceError>)
        requires
            valid_sent(sent.deep_view()),
        ensures
            outcome(id) == (match answer(sent.deep_view()) {
                Ok(json) => required_text(json, "id"@, "Missing invite ID: "@),
                Err(error) => Err(error),
            }),
    {
        match read_reply(sent) {
            Ok(json) => require_text(&json, "id", "Missing invite ID: "),
            Err(error) => Err(error),
        }
    }

    /// What taking an invitation back comes to.
    pub fn invitation_cancelled(sent: &Sent) -> (result: Result<(), ServiceError>)
        requires
            valid_sent(sent.deep_view()),
        ensures
            match answer(sent.deep_view()) {
                Ok(_) => result is Ok,
                Err(error) => result matches Err(found) && found.deep_view() == error,
            },
    {
        match read_reply(sent) {
            Ok(_) => Ok(()),
            Err(error) => Err(error),
        }
    }

    /// What creating a user comes to: the identifier.
    pub fn user_created(sent: &Sent) -> (id: Result<String, ServiceError>)
        requires
            valid_sent(sent.deep_view()),
        ensures
            outcome(id) == (match checked_answer(sent.deep_view()) {
                Ok(json) => required_text(json, "id"@, "Missing user ID: "@),
                Err(error) => Err(error),
            }),
    {
        match read_checked_reply("createUser", sent) {
            Ok(json) => require_text(&json, "id", "Missing user ID: "),
            Err(error) => Err(error),
        }
    }

    /// What creating a token comes to: the token.
    pub fn sign_in_token_created(sent: &Sent) -> (token: Result<String, ServiceError>)
        requires
            valid_sent(sent.deep_view()),
        ensures
            outcome(token) == (match answer(sent.deep_view()) {
                Ok(json) => required_text(json, "token"@, "Missing sign-in token: "@),
                Err(error) => Err(error),
            }),
    {
        match read_reply(sent) {
            Ok(json) => require_text(&json, "token", "Missing sign-in token: "),
            Err(error) => Err(error),
        }
    }

    /// The public metadata of an organization; null where it has none, and nothing where there
    /// is no such organization.
    pub fn metadata_found(sent: &Sent) -> (metadata: Result<Option<Json>, ServiceError>)
        requires
            valid_sent(sent.deep_view()),
        ensures
            outcome(metadata) == (if sent.deep_view() matches SentView::Answered(reply)
                && reply.status == 404 {
                Ok(None)
            } else {
                match checked_answer(sent.deep_view()) {
                    Ok(json) => Ok::<Option<JsonView>, ErrorView>(
                        Some(member(json, "public_metadata"@)),
                    ),
                    Err(error) => Err(error),
                }
            }),
    {
        if let Sent::Answered(reply) = sent {
            if reply.status == 404 {
                return Ok(None);
            }
        }
        match read_checked_reply("getOrganization", sent) {
            Ok(json) => Ok(Some(json.member("public_metadata"))),
            Err(error) => Err(error),
        }
    }

    /// What merging metadata comes to. The body of a reply of success is not looked at.
    pub fn metadata_merged(sent: &Sent) -> (result: Result<(), ServiceError>)
        requires
            valid_sent(sent.deep_view()),
        ensures
            match sent.deep_view() {
                SentView::Failed(error) => result matches Err(found) && found.deep_view()
                    == ErrorView::ReqwestError(error.report),
                SentView::Answered(reply) => if is_success(reply.status) {
                    result is Ok
                } else {
                    result matches Err(found) && found.deep_view() == clerk_failure(
                        reply.status,
                        reply.text,
                    )
                },
            },
    {
        match sent {
            Sent::Failed(error) => Err(ServiceError::ReqwestError(error.report.copy())),
            Sent::Answered(reply) => {
                if status_is_success(reply.status) {
                    Ok(())
                } else {
                    Err(
                        clerk_error(
                            "mergeOrganizationMetadata",
                            reply.status,
                            reply.text.as_str(),
                        ),
                    )
                }
            },
        }
    }

    /// What creating an organization comes to: the identifier. A name that is taken is reported
    /// as such.
    pub fn organization_created(organization_name: &str, sent: &Sent) -> (id: Result<
        String,
        ServiceError,
    >)
        requires
            valid_sent(sent.deep_view()),
        ensures
            outcome(id) == created_organization(organization_name@, sent.deep_view()),
    {
        if let Sent::Answered(reply) = sent {
            if !status_is_success(reply.status) && is_duplicate_slug_error(reply.text.as_str()) {
                return Err(
                    ServiceError::AlreadyExistsError(
                        cat3(
                            "An organization named '",
                            organization_name,
                            "' already exists. Please choose a different name.",
                        ),
                    ),
                );
            }
        }
        match read_checked_reply("createOrganization", sent) {
            Ok(json) => require_text(&json, "id", "Missing organization ID in response: "),
            Err(error) => Err(error),
        }
    }
}

/// What creating an organization comes to.
pub open spec fn created_organization(organization_name: Seq<char>, sent: SentView) -> Result<
    Seq<char>,
    ErrorView,
> {
    if sent matches SentView::Answered(reply) && !is_success(reply.status) && (json_parsed(
        reply.text,
    ) matches Ok(json) && lists_slug_conflict(json)) {
        Err(
            ErrorView::AlreadyExistsError(
                "An organization named '"@ + organization_name
                    + "' already exists. Please choose a different name."@,
            ),
        )
    } else {
        match checked_answer(sent) {
            Ok(json) => required_text(json, "id"@, "Missing organization ID in response: "@),
            Err(error) => Err(error),
        }
    }
}

/// The request for a change once the user was looked up. Where nobody was found there is none,
/// and that is no error.
pub open spec fn change_after_lookup(
    clerk: &ClerkService,
    users: Result<Seq<UserView>, ErrorView>,
    change: UserChangeView,
) -> Result<Option<RequestView>, ErrorView> {
    match users {
        Ok(users) => if users.len() == 0 {
            Ok(None)
        } else {
            Ok(Some(change_request(clerk, users[0].user_id, change)))
        },
        Err(ErrorView::NotFoundError(_)) => Ok(None),
        Err(error) => Err(error),
    }
}

/// The request for the next user of a list.
pub open spec fn user_request(clerk: &ClerkService, users: UsersByIdView) -> RequestView {
    clerk_request(clerk, Method::Get, "/v1/users/"@ + users.user_ids[users.next as int])
}

/// What follows the reply about a user: one who is not there is passed over.
pub open spec fn after_user(users: UsersByIdView, sent: SentView) -> Result<
    UsersByIdView,
    ErrorView,
> {
    match optional_answer(sent) {
        Err(error) => Err(error),
        Ok(found) => Ok(
            UsersByIdView {
                next: users.next + 1,
                users: match found {
                    Some(json) => users.users.push(user_of(json)),
                    None => users.users,
                },
                ..users
            },
        ),
    }
}

impl UsersById {
    /// Whether everybody has been asked for.
    pub fn is_done(&self) -> (done: bool)
        ensures
            done == (self.deep_view().next >= self.deep_view().user_ids.len()),
    {
        self.next >= self.user_ids.len()
    }

    /// The request for the next user.
    pub fn request(&self, clerk: &ClerkService) -> (request: HttpRequest)
        requires
            self.deep_view().next < self.deep_view().user_ids.len(),
        ensures
            request.deep_view() == user_request(clerk, self.deep_view()),
    {
        let path = cat2("/v1/users/", self.user_ids[self.next].as_str());
        clerk.request(Method::Get, path.as_str())
    }

    /// Takes in the reply about the next user.
    pub fn receive(self, sent: &Sent) -> (users: Result<Self, ServiceError>)
        requires
            valid_sent(sent.deep_view()),
            self.deep_view().next < self.deep_view().user_ids.len(),
        ensures
            outcome(users) == after_user(self.deep_view(), sent.deep_view()),
    {
        let found = match read_optional_reply(sent) {
            Ok(found) => found,
            Err(error) => {
                return Err(error);
            },
        };
        let mut users = self.users;
        let ghost before = users.deep_view();
        if let Some(json) = found {
            users.push(map_auth_data_from_get_user_response(&json));
            assert(users.deep_view() =~= before.push(user_of(json.deep_view())));
        }
        let total: usize = self.user_ids.len();
        assert(self.next < total);
        Ok(UsersById { user_ids: self.user_ids, next: self.next + 1, users })
    }
}

impl AuthProviderTrait for ClerkService {
    type Task = ClerkTask;

    open spec fn offers(operation: AuthOperation) -> bool {
        true
    }

    fn get_org_user_data(&self, org_id: String, search_query: Option<String>) -> (task: Result<
        ClerkTask,
        ServiceError,
    >)
        ensures
            outcome(task) == Ok::<ClerkTaskView, ErrorView>(
                org_users(org_id@, search_query.deep_view()),
            ),
    {
        let filter = match &search_query {
            Some(query) => Some(query.as_str().to_lowercase()),
            None => None,
        };
        let members_path = match &search_query {
            Some(query) => {
                let encoded = url_encode(query.as_str());
                cat4(
                    "/v1/users?organization_id=",
                    org_id.as_str(),
                    "&query=",
                    encoded.as_str(),
                )
            },
            None => cat2("/v1/users?organization_id=", org_id.as_str()),
        };
        let invitations_path = cat3(
            "/v1/organizations/",
            org_id.as_str(),
            "/invitations?status=pending",
        );
        Ok(
            ClerkTask::OrgUsers {
                members: UserPages::new(members_path, Listed::Members),
                invitations: UserPages::new(invitations_path, Listed::Invitations(filter)),
            },
        )
    }

    fn get_user_data_with_user_ids(&self, user_ids: &Vec<String>) -> (task: Result<
        ClerkTask,
        ServiceError,
    >)
        ensures
            outcome(task) == Ok::<ClerkTaskView, ErrorView>(
                if user_ids.deep_view().len() == 0 {
                    ClerkTaskView::Users(Seq::empty())
                } else {
                    ClerkTaskView::UsersById(
                        UsersByIdView {
                            user_ids: user_ids.deep_view(),
                            next: 0,
                            users: Seq::empty(),
                        },
                    )
                },
            ),
    {
        let users: Vec<AuthUserData> = Vec::new();
        assert(users.deep_view() =~= Seq::empty());
        if user_ids.len() == 0 {
            return Ok(ClerkTask::Users(users));
        }
        let ids = user_ids.clone();
        assert(ids.deep_view() =~= user_ids.deep_view());
        Ok(ClerkTask::UsersById(UsersById { user_ids: ids, next: 0, users }))
    }

    fn get_user_data_with_user_emails(&self, user_emails: &Vec<String>) -> (task: Result<
        ClerkTask,
        ServiceError,
    >)
        ensures
            outcome(task) == Ok::<ClerkTaskView, ErrorView>(
                if user_emails.deep_view().len() == 0 {
                    ClerkTaskView::Users(Seq::empty())
                } else {
                    ClerkTaskView::UsersByEmail(
                        users_by_email_request(self, user_emails.deep_view()),
                    )
                },
            ),
    {
        if user_emails.len() == 0 {
            let users: Vec<AuthUserData> = Vec::new();
            assert(users.deep_view() =~= Seq::empty());
            return Ok(ClerkTask::Users(users));
        }
        Ok(ClerkTask::UsersByEmail(self.users_by_email(user_emails)))
    }

    fn delete_user_from_org(&self, email: &str, org_id: &str, user_id: &Option<String>) -> (task:
        Result<ClerkTask, ServiceError>)
        ensures
            outcome(task) == Ok::<ClerkTaskView, ErrorView>(
                change_of(
                    self,
                    email@,
                    user_id.deep_view(),
                    UserChangeView::LeaveOrganization(org_id@),
                ),
            ),
    {
        let change = UserChange::LeaveOrganization(org_id.to_string());
        Ok(self.resolve_user_id(email, user_id, change))
    }

    fn update_user(
        &self,
        email: &str,
        first_name: &str,
        last_name: &str,
        user_id: &Option<String>,
        username: &str,
    ) -> (task: Result<ClerkTask, ServiceError>)
        ensures
            outcome(task) == Ok::<ClerkTaskView, ErrorView>(
                change_of(
                    self,
                    email@,
                    user_id.deep_view(),
                    UserChangeView::Update(names_body(first_name@, last_name@, username@)),
                ),
            ),
    {
        let body = add_text(Json::object(), "first_name", first_name);
        let body = add_text(body, "last_name", last_name);
        let body = add_text(body, "username", username);
        Ok(self.resolve_user_id(email, user_id, UserChange::Update(body)))
    }

    fn invite_user(
        &self,
        org_id: &str,
        user_id: &str,
        email: &str,
        default_site_domain: &str,
        is_admin_role: &bool,
    ) -> (task: Result<ClerkTask, ServiceError>)
        ensures
            outcome(task) == Ok::<ClerkTaskView, ErrorView>(
                ClerkTaskView::Invite(
                    with_json(
                        clerk_request(
                            self,
                            Method::Post,
                            "/v1/organizations/"@ + org_id@ + "/invitations"@,
                        ),
                        JsonView::Object(
                            map![
                                "email_address"@ => JsonView::Text(email@),
                                "role"@ => JsonView::Text(
                                    if *is_admin_role {
                                        "org:admin"@
                                    } else {
                                        "org:member"@
                                    },
                                ),
                                "redirect_url"@ => JsonView::Text(
                                    "https://"@ + default_site_domain@,
                                ),
                            ],
                        ),
                    ),
                ),
            ),
    {
        let role = if *is_admin_role {
            "org:admin"
        } else {
            "org:member"
        };
        let redirect_url = cat2("https://", default_site_domain);
        let body = Json::object()
            .with("email_address", Json::of_text(email))
            .with("role", Json::of_text(role))
            .with("redirect_url", Json::of_text(redirect_url.as_str()));
        let path = cat3("/v1/organizations/", org_id, "/invitations");
        Ok(ClerkTask::Invite(self.request(Method::Post, path.as_str()).json(body)))
    }

    fn cancel_invitation(&self, org_id: &str, invitation_id: &str) -> (task: Result<
        ClerkTask,
        ServiceError,
    >)
        ensures
            outcome(task) == Ok::<ClerkTaskView, ErrorView>(
                ClerkTaskView::CancelInvitation(
                    clerk_request(
                        self,
                        Method::Post,
                        "/v1/organizations/"@ + org_id@ + "/invitations/"@ + invitation_id@
                            + "/revoke"@,
                    ),
                ),
            ),
    {
        let path = cat5("/v1/organizations/", org_id, "/invitations/", invitation_id, "/revoke");
        Ok(ClerkTask::CancelInvitation(self.request(Method::Post, path.as_str())))
    }

    fn create_user(
        &self,
        email: &str,
        first_name: &str,
        last_name: &str,
        metadata: &Option<Json>,
    ) -> (task: Result<ClerkTask, ServiceError>)
        ensures
            outcome(task) == Ok::<ClerkTaskView, ErrorView>(
                ClerkTaskView::CreateUser(
                    with_json(
                        clerk_request(self, Method::Post, "/v1/users"@),
                        JsonView::Object(
                            map![
                                "email_address"@ => JsonView::Array(seq![JsonView::Text(email@)]),
                                "first_name"@ => JsonView::Text(first_name@),
                                "last_name"@ => JsonView::Text(last_name@),
                                "skip_password_requirement"@ => JsonView::Bool(true),
                                "public_metadata"@ => or_null(metadata.deep_view()),
                            ],
                        ),
                    ),
                ),
            ),
    {
        let public_metadata = match metadata {
            Some(metadata) => metadata.copy(),
            None => Json::Null,
        };
        let body = Json::object()
            .with("email_address", Json::of_item(Json::of_text(email)))
            .with("first_name", Json::of_text(first_name))
            .with("last_name", Json::of_text(last_name))
            .with("skip_password_requirement", Json::Bool(true))
            .with("public_metadata", public_metadata);
        Ok(ClerkTask::CreateUser(self.request(Method::Post, "/v1/users").json(body)))
    }

    fn create_sign_in_token(&self, user_id: &str, expires_in_seconds: u32) -> (task: Result<
        ClerkTask,
        ServiceError,
    >)
        ensures
            outcome(task) == Ok::<ClerkTaskView, ErrorView>(
                ClerkTaskView::CreateSignInToken(
                    with_json(
                        clerk_request(self, Method::Post, "/v1/sign_in_tokens"@),
                        JsonView::Object(
                            map![
                                "user_id"@ => JsonView::Text(user_id@),
                                "expires_in_seconds"@ => JsonView::Number(
                                    number_of(expires_in_seconds as u64),
                                ),
                            ],
                        ),
                    ),
                ),
            ),
    {
        let body = Json::object()
            .with("user_id", Json::of_text(user_id))
            .with("expires_in_seconds", Json::of_number(expires_in_seconds as u64));
        Ok(
            ClerkTask::CreateSignInToken(
                self.request(Method::Post, "/v1/sign_in_tokens").json(body),
            ),
        )
    }

    fn create_organization(
        &self,
        organization_name: &str,
        admin_user_id: Option<String>,
        metadata: Option<Json>,
        private_metadata: Option<Json>,
    ) -> (task: Result<ClerkTask, ServiceError>)
        ensures
            outcome(task) == Ok::<ClerkTaskView, ErrorView>(
                ClerkTaskView::CreateOrganization(
                    with_json(
                        clerk_request(self, Method::Post, "/v1/organizations"@),
                        JsonView::Object(
                            map![
                                "name"@ => JsonView::Text(organization_name@),
                                "slug"@ => JsonView::Text(
                                    replaced(lowercase(organization_name@), ' ', "-"@),
                                ),
                                "public_metadata"@ => or_null(metadata.deep_view()),
                                "private_metadata"@ => or_null(private_metadata.deep_view()),
                                "created_by"@ => JsonView::Text(
                                    text_or_empty(admin_user_id.deep_view()),
                                ),
                            ],
                        ),
                    ),
                ),
            ),
    {
        let lower = organization_name.to_lowercase();
        let slug = replace(lower.as_str(), ' ', "-");
        let created_by = or_empty(admin_user_id);
        let public_metadata = match metadata {
            Some(metadata) => metadata,
            None => Json::Null,
        };
        let private_metadata = match private_metadata {
            Some(metadata) => metadata,
            None => Json::Null,
        };
        let body = Json::object()
            .with("name", Json::of_text(organization_name))
            .with("slug", Json::of_text(slug.as_str()))
            .with("public_metadata", public_metadata)
            .with("private_metadata", private_metadata)
            .with("created_by", Json::of_text(created_by.as_str()));
        Ok(
            ClerkTask::CreateOrganization(
                self.request(Method::Post, "/v1/organizations").json(body),
            ),
        )
    }

    fn get_organization_public_metadata(&self, org_id: &str) -> (task: Result<
        ClerkTask,
        ServiceError,
    >)
        ensures
            outcome(task) == Ok::<ClerkTaskView, ErrorView>(
                ClerkTaskView::GetMetadata(
                    clerk_request(self, Method::Get, "/v1/organizations/"@ + org_id@),
                ),
            ),
    {
        let path = cat2("/v1/organizations/", org_id);
        Ok(ClerkTask::GetMetadata(self.request(Method::Get, path.as_str())))
    }

    fn merge_organization_public_metadata(&self, org_id: &str, public_metadata: Json) -> (task:
        Result<ClerkTask, ServiceError>)
        ensures
            outcome(task) == Ok::<ClerkTaskView, ErrorView>(
                ClerkTaskView::MergeMetadata(
                    with_json(
                        clerk_request(
                            self,
                            Method::Patch,
                            "/v1/organizations/"@ + org_id@ + "/metadata"@,
                        ),
                        JsonView::Object(
                            map!["public_metadata"@ => public_metadata.deep_view()],
                        ),
                    ),
                ),
            ),
    {
        let path = cat3("/v1/organizations/", org_id, "/metadata");
        let body = Json::object().with("public_metadata", public_metadata);
        Ok(ClerkTask::MergeMetadata(self.request(Method::Patch, path.as_str()).json(body)))
    }
}

/// Changing a user who is not in Clerk does nothing and is no error.
pub proof fn law_missing_users_need_no_change(
    clerk: &ClerkService,
    sent: SentView,
    change: UserChangeView,
)
    requires
        (sent matches SentView::Answered(reply) && reply.status == 404) || (users_in_reply(
            sent,
        ) matches Ok(users) && users.len() == 0),
    ensures
        change_after_lookup(clerk, users_in_reply(sent), change) == Ok::<
            Option<RequestView>,
            ErrorView,
        >(None),
{
}

/// What users come to when the replies about them are the given ones in turn.
pub open spec fn after_users(users: UsersByIdView, replies: Seq<SentView>) -> Result<
    UsersByIdView,
    ErrorView,
>
    decreases replies.len(),
{
    if replies.len() == 0 {
        Ok(users)
    } else {
        match after_user(users, replies[0]) {
            Ok(next) => after_users(next, replies.skip(1)),
            Err(error) => Err(error),
        }
    }
}

/// The users that replies describe, without those who are not there.
pub open spec fn described_users(replies: Seq<SentView>) -> Seq<UserView>
    decreases replies.len(),
{
    if replies.len() == 0 {
        Seq::empty()
    } else {
        (match optional_answer(replies[0]) {
            Ok(Some(json)) => seq![user_of(json)],
            _ => Seq::empty(),
        }) + described_users(replies.skip(1))
    }
}

/// Where no reply is a failure, the users found are those that the replies describe, in order.
pub proof fn law_users_are_found_in_order(users: UsersByIdView, replies: Seq<SentView>)
    requires
        forall|i: int| 0 <= i < replies.len() ==> optional_answer(#[trigger] replies[i]) is Ok,
    ensures
        after_users(users, replies) matches Ok(done) && done.users == users.users
            + described_users(replies) && done.next == users.next + replies.len(),
    decreases replies.len(),
{
    if replies.len() > 0 {
        assert(optional_answer(replies[0]) is Ok);
        let next = after_user(users, replies[0])->Ok_0;
        let rest = replies.skip(1);
        assert forall|i: int| 0 <= i < rest.len() implies optional_answer(#[trigger] rest[i]) is Ok by {
            assert(rest[i] == replies[i + 1]);
        }
        law_users_are_found_in_order(next, rest);
        assert(next.users + described_users(rest) =~= users.users + described_users(replies));
    } else {
        assert(users.users + described_users(replies) =~= users.users);
    }
}

} // verus!
