//! What the operations of Clerk amount to.
use vstd::prelude::*;
use crate::auth_provider::auth_provider_trait::AuthProviderTrait;
use crate::auth_provider::clerk_error::{clerk_error, clerk_user_facing_message};
use crate::auth_provider::clerk_service::{ClerkService, ClerkTask, UserChange, UsersById};
use crate::auth_provider::clerk_users::{
    after_items, after_pages, invited_users, law_pages_are_concatenated,
    map_auth_data_from_get_user_response, users_of, users_on_page, users_on_pages, AfterPage,
    AfterPageView, Listed, ListedView, UserPages,
};
use crate::encoding::{law_encoded_text_is_decoded, percent_decoded, percent_encoded};
use crate::error::{CauseView, ErrorView, ServiceError};
use crate::http::{
    status_display, CredentialsView, HttpRequest, Method, PayloadView, RequestView, Sent, SentView,
};
use crate::json::{json_debug, json_parsed, json_text, number_of, Json, JsonView};
use crate::reading::{
    brought, came_with, failed_as, failed_with, keys_of, list_under, text_under, unreadable,
    value_under,
};
use crate::text::{
    decimal, has_text, join_text, law_joined_parts_are_split, lowercase, split_text, trimmed,
};
use crate::types::{AuthUserData, UserView};

verus! {

/// The request is a call of the API: with the method, to the path, with the key of the API, and
/// with what it carries.
pub open spec fn is_call(
    clerk: &ClerkService,
    request: RequestView,
    method: Method,
    path: Seq<char>,
    payload: PayloadView,
) -> bool {
    &&& request.method == method
    &&& request.url == clerk.base_url@ + path
    &&& request.headers == seq![("content-type"@, "application/json"@)]
    &&& request.credentials == CredentialsView::Bearer(clerk.api_key@)
    &&& request.payload == payload
}

/// The document names what is to change: each of the names that is not empty, and nothing else.
pub open spec fn names_the_change(
    body: JsonView,
    first_name: Seq<char>,
    last_name: Seq<char>,
    username: Seq<char>,
) -> bool {
    &&& body is Object
    &&& keys_of(body).subset_of(set!["first_name"@, "last_name"@, "username"@])
    &&& text_under(body, "first_name"@) == (if first_name.len() > 0 {
        Some(first_name)
    } else {
        None
    })
    &&& text_under(body, "last_name"@) == (if last_name.len() > 0 {
        Some(last_name)
    } else {
        None
    })
    &&& text_under(body, "username"@) == (if username.len() > 0 {
        Some(username)
    } else {
        None
    })
    &&& forall|key: Seq<char>| #[trigger]
        keys_of(body).contains(key) ==> text_under(body, key) is Some
}

/// Updating a user sends exactly those of the names that are not empty to the user with the given
/// identifier. Without an identifier the user with the email address is asked for first, and the
/// names are kept for whoever is found.
pub proof fn law_update_sends_the_given_names(
    clerk: &ClerkService,
    email: &str,
    first_name: &str,
    last_name: &str,
    user_id: &Option<String>,
    username: &str,
    task: Result<ClerkTask, ServiceError>,
)
    requires
        call_ensures(
            ClerkService::update_user,
            (clerk, email, first_name, last_name, user_id, username),
            task,
        ),
    ensures
        match user_id {
            Some(user_id) => task matches Ok(ClerkTask::ChangeUser(request)) && exists|
                body: JsonView,
            |
                #[trigger] names_the_change(body, first_name@, last_name@, username@) && is_call(
                    clerk,
                    request.deep_view(),
                    Method::Patch,
                    "/v1/users/"@ + user_id@,
                    PayloadView::Json(body),
                ),
            None => task matches Ok(ClerkTask::FindUser { request, change }) && asks_for_emails(
                clerk,
                request.deep_view(),
                seq![email@],
            ) && (change matches UserChange::Update(body) && names_the_change(
                body.deep_view(),
                first_name@,
                last_name@,
                username@,
            )),
        },
{
    reveal_strlit("first_name");
    reveal_strlit("last_name");
    reveal_strlit("username");
    assert("first_name"@.len() == 10 && "last_name"@.len() == 9 && "username"@.len() == 8);
    let body = crate::auth_provider::clerk_service::names_body(
        first_name@,
        last_name@,
        username@,
    );
    assert(names_the_change(body, first_name@, last_name@, username@));
    lemma_asks_for_emails(clerk, seq![email@]);
}

/// The request asks for the users with the email addresses: each is a parameter of its own, in
/// order.
pub open spec fn asks_for_emails(
    clerk: &ClerkService,
    request: RequestView,
    emails: Seq<Seq<char>>,
) -> bool {
    let front = clerk.base_url@ + "/v1/users?"@;
    let params = split_text(request.url.skip(front.len() as int), "&"@);
    &&& is_call(
        clerk,
        request,
        Method::Get,
        request.url.skip(clerk.base_url@.len() as int),
        PayloadView::Nothing,
    )
    &&& front.is_prefix_of(request.url)
    &&& params.len() == emails.len()
    &&& forall|i: int|
        0 <= i < emails.len() ==> "email_address[]="@.is_prefix_of(#[trigger] params[i])
            && percent_decoded(params[i].skip(16)) == emails[i]
}

proof fn lemma_asks_for_emails(clerk: &ClerkService, emails: Seq<Seq<char>>)
    requires
        emails.len() > 0,
    ensures
        asks_for_emails(
            clerk,
            crate::auth_provider::clerk_service::users_by_email_request(clerk, emails),
            emails,
        ),
{
    let request = crate::auth_provider::clerk_service::users_by_email_request(clerk, emails);
    let params = emails.map_values(
        |email: Seq<char>| crate::auth_provider::clerk_service::email_param(email),
    );
    let front = clerk.base_url@ + "/v1/users?"@;
    reveal_strlit("email_address[]=");
    reveal_strlit("&");
    assert("&"@ =~= seq!['&']);
    assert forall|i: int| 0 <= i < params.len() implies !(#[trigger] params[i]).contains('&') by {
        crate::encoding::law_encoded_text_separates_nothing(emails[i]);
        if params[i].contains('&') {
            let k = params[i].index_of('&');
            let encoded = percent_encoded(emails[i]);
            if k >= 16 {
                assert(encoded[k - 16] == '&');
            }
        }
    }
    law_joined_parts_are_split(params, '&');
    assert(request.url =~= front + join_text(params, "&"@));
    assert(request.url.subrange(0, front.len() as int) =~= front);
    assert(request.url.skip(front.len() as int) =~= join_text(params, "&"@));
    assert(request.url =~= clerk.base_url@ + request.url.skip(clerk.base_url@.len() as int));
    assert forall|i: int| 0 <= i < emails.len() implies "email_address[]="@.is_prefix_of(
        #[trigger] params[i],
    ) && percent_decoded(params[i].skip(16)) == emails[i] by {
        law_encoded_text_is_decoded(emails[i]);
        assert(params[i].subrange(0, 16) =~= "email_address[]="@);
        assert(params[i].skip(16) =~= percent_encoded(emails[i]));
    }
}

/// Taking a user out of an organization deletes the membership of the user with the given
/// identifier. Without an identifier the user with the email address is asked for first.
pub proof fn law_leaving_deletes_the_membership(
    clerk: &ClerkService,
    email: &str,
    org_id: &str,
    user_id: &Option<String>,
    task: Result<ClerkTask, ServiceError>,
)
    requires
        call_ensures(
            ClerkService::delete_user_from_org,
            (clerk, email, org_id, user_id),
            task,
        ),
    ensures
        match user_id {
            Some(user_id) => task matches Ok(ClerkTask::ChangeUser(request)) && is_call(
                clerk,
                request.deep_view(),
                Method::Delete,
                "/v1/organizations/"@ + org_id@ + "/memberships/"@ + user_id@,
                PayloadView::Nothing,
            ),
            None => task matches Ok(ClerkTask::FindUser { request, change }) && asks_for_emails(
                clerk,
                request.deep_view(),
                seq![email@],
            ) && (change matches UserChange::LeaveOrganization(left) && left@ == org_id@),
        },
{
    lemma_asks_for_emails(clerk, seq![email@]);
}

/// The identifier that a document has, which may be missing.
pub open spec fn identifier(json: JsonView) -> Seq<char> {
    match text_under(json, "id"@) {
        Some(id) => id,
        None => Seq::empty(),
    }
}

/// The users that a document lists, under `data` or by itself.
pub open spec fn documents_in(json: JsonView) -> Seq<JsonView> {
    match list_under(json, "data"@) {
        Some(items) => items,
        None => match json {
            JsonView::Array(items) => items,
            _ => Seq::empty(),
        },
    }
}

/// What was to be done with the user is done with the first one that the reply lists. Nothing is
/// left to do where the reply lists nobody or knows of nobody; a failure to get a reply ends it.
pub proof fn law_the_first_user_found_is_changed(
    clerk: &ClerkService,
    sent: &Sent,
    change: UserChange,
    request: Result<Option<HttpRequest>, ServiceError>,
    json: JsonView,
)
    requires
        call_ensures(ClerkService::user_found, (clerk, sent, change), request),
    ensures
        came_with(sent.deep_view(), 404) ==> request matches Ok(None),
        sent.deep_view() is Failed ==> request is Err,
        brought(sent.deep_view(), json) && documents_in(json).len() == 0 ==> request matches Ok(
            None,
        ),
        brought(sent.deep_view(), json) && documents_in(json).len() > 0 ==> {
            let id = identifier(documents_in(json)[0]);
            request matches Ok(Some(request)) && match change {
                UserChange::LeaveOrganization(org_id) => is_call(
                    clerk,
                    request.deep_view(),
                    Method::Delete,
                    "/v1/organizations/"@ + org_id@ + "/memberships/"@ + id,
                    PayloadView::Nothing,
                ),
                UserChange::Update(body) => is_call(
                    clerk,
                    request.deep_view(),
                    Method::Patch,
                    "/v1/users/"@ + id,
                    PayloadView::Json(body.deep_view()),
                ),
            }
        },
{
    reveal_strlit("");
    assert(""@ =~= Seq::empty());
}

/// The first email address that a user document lists.
pub open spec fn listed_email(user: JsonView) -> Option<Seq<char>> {
    match list_under(user, "email_addresses"@) {
        Some(addresses) => if addresses.len() > 0 {
            text_under(addresses[0], "email_address"@)
        } else {
            None
        },
        None => None,
    }
}

/// The text, or nothing of it.
pub open spec fn or_nothing(text: Option<Seq<char>>) -> Seq<char> {
    match text {
        Some(text) => text,
        None => Seq::empty(),
    }
}

/// The user is the one that the document describes, entry by entry.
pub open spec fn describes_user(document: JsonView, user: UserView) -> bool {
    &&& user.user_id == identifier(document)
    &&& user.email == or_nothing(listed_email(document))
    &&& user.department == (match value_under(document, "public_metadata"@) {
        Some(metadata) => text_under(metadata, "department"@),
        None => None,
    })
    &&& user.first_name == text_under(document, "first_name"@)
    &&& user.last_name == text_under(document, "last_name"@)
    &&& user.last_login == Some(
        json_text(
            match value_under(document, "last_active_at"@) {
                Some(moment) => moment,
                None => JsonView::Null,
            },
        ),
    )
    &&& user.picture == text_under(document, "image_url"@)
    &&& user.username == text_under(document, "username"@)
}

proof fn lemma_user_of(document: JsonView)
    ensures
        describes_user(document, crate::auth_provider::clerk_users::user_of(document)),
{
    reveal_strlit("");
    assert(""@ =~= Seq::empty());
}

/// A user is read entry by entry: each of the names, the picture and the department is that of the
/// document, and missing where it has none.
pub proof fn law_users_are_read_entry_by_entry(document: &Json, user: AuthUserData)
    requires
        call_ensures(map_auth_data_from_get_user_response, (document,), user),
    ensures
        describes_user(document.deep_view(), user.deep_view()),
{
    lemma_user_of(document.deep_view());
}

/// The users are those that the documents describe, one for each and in order.
pub open spec fn describes_users(documents: Seq<JsonView>, users: Seq<UserView>) -> bool {
    &&& users.len() == documents.len()
    &&& forall|i: int|
        0 <= i < users.len() ==> describes_user(documents[i], #[trigger] users[i])
}

proof fn lemma_users_of(documents: Seq<JsonView>)
    ensures
        describes_users(documents, users_of(documents)),
{
    let users = users_of(documents);
    assert forall|i: int| 0 <= i < users.len() implies describes_user(
        documents[i],
        #[trigger] users[i],
    ) by {
        lemma_user_of(documents[i]);
    }
}

/// Asking for users by email address asks for all of them at once, and for nobody where there is no
/// address; the users are those that the reply lists, all of them and in order.
pub proof fn law_users_are_found_by_email(
    clerk: &ClerkService,
    emails: &Vec<String>,
    task: Result<ClerkTask, ServiceError>,
    sent: &Sent,
    users: Result<Vec<AuthUserData>, ServiceError>,
    json: JsonView,
)
    requires
        call_ensures(ClerkService::get_user_data_with_user_emails, (clerk, emails), task),
        call_ensures(ClerkService::users_found, (sent,), users),
    ensures
        emails@.len() == 0 ==> (task matches Ok(ClerkTask::Users(nobody)) && nobody@.len() == 0),
        emails@.len() > 0 ==> (task matches Ok(ClerkTask::UsersByEmail(request))
            && asks_for_emails(clerk, request.deep_view(), emails.deep_view())),
        brought(sent.deep_view(), json) ==> (users matches Ok(users) && describes_users(
            documents_in(json),
            users.deep_view(),
        )),
        sent.deep_view() is Failed ==> users is Err,
        came_with(sent.deep_view(), 404) ==> users is Err,
{
    if emails@.len() > 0 {
        lemma_asks_for_emails(clerk, emails.deep_view());
    } else if let Ok(ClerkTask::Users(nobody)) = task {
        assert(nobody.deep_view().len() == nobody@.len());
    }
    lemma_users_of(documents_in(json));
}

/// The item is an invitation to an organization.
pub open spec fn is_invitation() -> spec_fn(JsonView) -> bool {
    |item: JsonView| text_under(item, "object"@) == Some("organization_invitation"@)
}

/// The item is an invitation to an organization whose email address, in lower case, holds a text.
pub open spec fn is_invitation_of(text: Seq<char>) -> spec_fn(JsonView) -> bool {
    |item: JsonView|
        text_under(item, "object"@) == Some("organization_invitation"@) && (text_under(
            item,
            "email_address"@,
        ) matches Some(email) && has_text(lowercase(email), text))
}

/// The user that an invitation is for, who is known by the email address and by nothing else.
pub open spec fn invited_as() -> spec_fn(JsonView) -> UserView {
    |item: JsonView|
        UserView {
            user_id: or_nothing(text_under(item, "email_address"@)),
            email: or_nothing(text_under(item, "email_address"@)),
            department: None,
            first_name: None,
            last_name: None,
            last_login: None,
            picture: None,
            username: None,
        }
}

/// The users that invitations are for: of all invitations to an organization, or of those whose
/// email address, in lower case, holds a text.
pub open spec fn invited_by(items: Seq<JsonView>, text: Option<Seq<char>>) -> Seq<UserView> {
    match text {
        Some(text) => items.filter(is_invitation_of(text)).map_values(invited_as()),
        None => items.filter(is_invitation()).map_values(invited_as()),
    }
}

proof fn lemma_invited_users(items: Seq<JsonView>, text: Option<Seq<char>>)
    ensures
        invited_users(items, text) == invited_by(items, text),
    decreases items.len(),
{
    reveal(Seq::filter);
    reveal_strlit("");
    assert(""@ =~= Seq::empty());
    if items.len() > 0 {
        lemma_invited_users(items.drop_last(), text);
    }
    assert(invited_users(items, text) =~= invited_by(items, text));
}

proof fn lemma_invited_together(a: Seq<JsonView>, b: Seq<JsonView>, text: Option<Seq<char>>)
    ensures
        invited_by(a + b, text) == invited_by(a, text) + invited_by(b, text),
{
    match text {
        Some(text) => {
            Seq::filter_distributes_over_add(a, b, is_invitation_of(text));
        },
        None => {
            Seq::filter_distributes_over_add(a, b, is_invitation());
        },
    }
    assert(invited_by(a + b, text) =~= invited_by(a, text) + invited_by(b, text));
}

proof fn lemma_users_on_pages(listed: ListedView, pages: Seq<Seq<JsonView>>)
    ensures
        users_on_pages(listed, pages) == match listed {
            ListedView::Members => users_of(pages.flatten()),
            ListedView::Invitations(text) => invited_by(pages.flatten(), text),
        },
    decreases pages.len(),
{
    if pages.len() == 0 {
        reveal(Seq::filter);
        assert(users_on_pages(listed, pages) =~= match listed {
            ListedView::Members => users_of(pages.flatten()),
            ListedView::Invitations(text) => invited_by(pages.flatten(), text),
        });
    } else {
        let rest = pages.skip(1);
        lemma_users_on_pages(listed, rest);
        assert(pages.drop_first() =~= rest);
        assert(pages.flatten() == pages[0] + rest.flatten());
        match listed {
            ListedView::Members => {
                assert(users_of(pages.flatten()) =~= users_of(pages[0]) + users_of(rest.flatten()));
            },
            ListedView::Invitations(text) => {
                lemma_invited_users(pages[0], text);
                lemma_invited_together(pages[0], rest.flatten(), text);
            },
        }
    }
}

/// The users of an organization come from two lists: its members, and those whose invitation is
/// pending. However the lists are divided into pages, the members are those that the documents
/// describe, one for each and in order, and the invited are those of all invitations to an
/// organization; with a search they are those among them whose email address holds what is
/// searched for, both in lower case.
pub proof fn law_organizations_have_members_and_invited_users(
    clerk: &ClerkService,
    org_id: String,
    search_query: Option<String>,
    task: Result<ClerkTask, ServiceError>,
    pages: Seq<Seq<JsonView>>,
)
    requires
        call_ensures(ClerkService::get_org_user_data, (clerk, org_id, search_query), task),
        pages.len() > 0,
        forall|i: int| 0 <= i < pages.len() - 1 ==> (#[trigger] pages[i]).len() >= 500,
        pages.last().len() < 500,
    ensures
        task matches Ok(ClerkTask::OrgUsers { members, invitations }) && {
            let wanted = match search_query {
                Some(query) => Some(lowercase(query@)),
                None => None,
            };
            &&& after_pages(members.deep_view(), pages) matches AfterPageView::Done(Ok(users))
            &&& describes_users(pages.flatten(), users)
            &&& after_pages(invitations.deep_view(), pages) == AfterPageView::Done(
                Ok(invited_by(pages.flatten(), wanted)),
            )
        },
{
    if let Ok(ClerkTask::OrgUsers { members, invitations }) = task {
        law_pages_are_concatenated(members.deep_view(), pages);
        law_pages_are_concatenated(invitations.deep_view(), pages);
        lemma_users_on_pages(members.deep_view().listed, pages);
        lemma_users_on_pages(invitations.deep_view().listed, pages);
        lemma_users_of(pages.flatten());
        let users = users_of(pages.flatten());
        assert(members.deep_view().users + users =~= users);
        let invited = users_on_pages(invitations.deep_view().listed, pages);
        assert(invitations.deep_view().users + invited =~= invited);
    }
}

/// The items of a page: those under `data`, unless the document is a list itself.
pub open spec fn items_on(json: JsonView) -> Option<Seq<JsonView>> {
    match json {
        JsonView::Array(items) => Some(items),
        _ => list_under(json, "data"@),
    }
}

/// A page that is received adds its users, in order, to those before. A full one, of 500 items, is
/// followed by the next, which begins where it ended; any other ends the list. A reply that is no
/// page, a failure, and a list that is not there are errors.
pub proof fn law_pages_are_received(
    pages: UserPages,
    sent: &Sent,
    next: AfterPage,
    json: JsonView,
)
    requires
        call_ensures(UserPages::receive, (pages, sent), next),
    ensures
        sent.deep_view() is Failed ==> next matches AfterPage::Done(Err(_)),
        came_with(sent.deep_view(), 404) ==> next matches AfterPage::Done(Err(_)),
        brought(sent.deep_view(), json) ==> match items_on(json) {
            None => next matches AfterPage::Done(Err(_)),
            Some(items) => {
                let known = pages.users.deep_view();
                let users = match next {
                    AfterPage::More(more) => more.users.deep_view(),
                    AfterPage::Done(done) => done->Ok_0.deep_view(),
                };
                &&& items.len() >= 500 <==> next is More
                &&& next matches AfterPage::Done(done) ==> done is Ok
                &&& next matches AfterPage::More(more) ==> more.offset == pages.offset + 500
                    && more.base_path@ == pages.base_path@ && more.listed.deep_view()
                    == pages.listed.deep_view()
                &&& known.is_prefix_of(users)
                &&& match pages.listed {
                    Listed::Members => describes_users(items, users.skip(known.len() as int)),
                    Listed::Invitations(text) => users.skip(known.len() as int) == invited_by(
                        items,
                        text.deep_view(),
                    ),
                }
            },
        },
{
    if brought(sent.deep_view(), json) {
        if let Some(items) = items_on(json) {
            let known = pages.users.deep_view();
            let users = match next {
                AfterPage::More(more) => more.users.deep_view(),
                AfterPage::Done(done) => done->Ok_0.deep_view(),
            };
            let added = users_on_page(pages.listed.deep_view(), items);
            lemma_users_of(items);
            if let Listed::Invitations(text) = pages.listed {
                lemma_invited_users(items, text.deep_view());
            }
            assert(next.deep_view() == after_items(pages.deep_view(), items));
            assert(users == known + added);
            assert(users.subrange(0, known.len() as int) =~= known);
            assert(users.skip(known.len() as int) =~= added);
        }
    }
}

/// The lists of an organization are asked for page by page: the members with the search as a
/// parameter of its own where there is one, the invitations that are pending, each from where the
/// last page ended and 500 at a time.
pub proof fn law_lists_are_asked_for(
    clerk: &ClerkService,
    org_id: String,
    search_query: Option<String>,
    task: Result<ClerkTask, ServiceError>,
    members_request: HttpRequest,
    invitations_request: HttpRequest,
    pages: &UserPages,
    page_request: HttpRequest,
)
    requires
        call_ensures(ClerkService::get_org_user_data, (clerk, org_id, search_query), task),
        task matches Ok(ClerkTask::OrgUsers { members, invitations }) ==> call_ensures(
            ClerkService::page_request,
            (clerk, &members),
            members_request,
        ) && call_ensures(ClerkService::page_request, (clerk, &invitations), invitations_request),
        call_ensures(ClerkService::page_request, (clerk, pages), page_request),
    ensures
        is_call(
            clerk,
            members_request.deep_view(),
            Method::Get,
            "/v1/users?organization_id="@ + org_id@ + (match search_query {
                Some(query) => "&query="@ + percent_encoded(query@),
                None => Seq::empty(),
            }) + "&offset=0&limit=500"@,
            PayloadView::Nothing,
        ),
        is_call(
            clerk,
            invitations_request.deep_view(),
            Method::Get,
            "/v1/organizations/"@ + org_id@ + "/invitations?status=pending&offset=0&limit=500"@,
            PayloadView::Nothing,
        ),
        is_call(
            clerk,
            page_request.deep_view(),
            Method::Get,
            pages.base_path@ + "&offset="@ + decimal(pages.offset as nat) + "&limit=500"@,
            PayloadView::Nothing,
        ),
{
    reveal_strlit("&offset=");
    reveal_strlit("&limit=");
    reveal_strlit("&limit=500");
    reveal_strlit("&offset=0&limit=500");
    reveal_strlit("/invitations?status=pending");
    reveal_strlit("/invitations?status=pending&offset=0&limit=500");
    reveal_with_fuel(decimal, 4);
    assert(decimal(5) =~= seq!['5']);
    assert(decimal(50) =~= seq!['5', '0']);
    assert(decimal(500) =~= seq!['5', '0', '0']);
    assert(decimal(0) =~= seq!['0']);
    assert("&limit="@ + decimal(500) =~= "&limit=500"@);
    assert("&offset="@ + decimal(0) + "&limit="@ + decimal(500) =~= "&offset=0&limit=500"@);
    assert("/invitations?status=pending"@ + "&offset=0&limit=500"@
        =~= "/invitations?status=pending&offset=0&limit=500"@);
    assert(page_request.deep_view().url =~= clerk.base_url@ + (pages.base_path@ + "&offset="@
        + decimal(pages.offset as nat) + "&limit=500"@));
    assert(members_request.deep_view().url =~= clerk.base_url@ + (
    "/v1/users?organization_id="@ + org_id@ + (match search_query {
        Some(query) => "&query="@ + percent_encoded(query@),
        None => Seq::empty(),
    }) + "&offset=0&limit=500"@));
    assert(invitations_request.deep_view().url =~= clerk.base_url@ + ("/v1/organizations/"@
        + org_id@ + "/invitations?status=pending&offset=0&limit=500"@));
}

/// The users of an organization are its members and after them the invited. An error in either list
/// is an error, and that of the members counts first.
pub proof fn law_all_users_are_members_and_invited(
    members: Result<Vec<AuthUserData>, ServiceError>,
    invited: Result<Vec<AuthUserData>, ServiceError>,
    users: Result<Vec<AuthUserData>, ServiceError>,
)
    requires
        call_ensures(ClerkService::all_users, (members, invited), users),
    ensures
        users is Ok <==> members is Ok && invited is Ok,
        users matches Ok(users) ==> users.deep_view() == members->Ok_0.deep_view()
            + invited->Ok_0.deep_view(),
        members matches Err(error) ==> users->Err_0.deep_view() == error.deep_view(),
        members is Ok && invited is Err ==> users->Err_0.deep_view()
            == invited->Err_0.deep_view(),
{
}

/// Users are asked for one by one, in order, and for nobody where there is no identifier. One who
/// is found is added; one who is not there is passed over; a failure ends it.
pub proof fn law_users_are_asked_for_one_by_one(
    clerk: &ClerkService,
    user_ids: &Vec<String>,
    task: Result<ClerkTask, ServiceError>,
    users: UsersById,
    done: bool,
    request: HttpRequest,
    sent: &Sent,
    next: Result<UsersById, ServiceError>,
    json: JsonView,
)
    requires
        call_ensures(ClerkService::get_user_data_with_user_ids, (clerk, user_ids), task),
        call_ensures(UsersById::is_done, (&users,), done),
        !done ==> call_ensures(UsersById::request, (&users, clerk), request) && call_ensures(
            UsersById::receive,
            (users, sent),
            next,
        ),
    ensures
        user_ids@.len() == 0 ==> (task matches Ok(ClerkTask::Users(nobody)) && nobody@.len() == 0),
        user_ids@.len() > 0 ==> (task matches Ok(ClerkTask::UsersById(begun))
            && begun.user_ids.deep_view() == user_ids.deep_view() && begun.next == 0
            && begun.users@.len() == 0),
        done <==> users.next >= users.user_ids@.len(),
        !done ==> {
            let known = users.users.deep_view();
            &&& is_call(
                clerk,
                request.deep_view(),
                Method::Get,
                "/v1/users/"@ + users.user_ids@[users.next as int]@,
                PayloadView::Nothing,
            )
            &&& sent.deep_view() is Failed ==> next is Err
            &&& next matches Ok(next) ==> next.next == users.next + 1
                && next.user_ids.deep_view() == users.user_ids.deep_view()
            &&& came_with(sent.deep_view(), 404) ==> (next matches Ok(next)
                && next.users.deep_view() == known)
            &&& brought(sent.deep_view(), json) ==> (next matches Ok(next)
                && next.users.deep_view().len() == known.len() + 1
                && next.users.deep_view().drop_last() == known && describes_user(
                json,
                next.users.deep_view().last(),
            ))
        },
{
    lemma_user_of(json);
    if let Ok(ClerkTask::Users(nobody)) = task {
        assert(nobody.deep_view().len() == nobody@.len());
    }
    if let Ok(ClerkTask::UsersById(begun)) = task {
        assert(begun.users.deep_view().len() == begun.users@.len());
    }
    if !done {
        assert(users.user_ids.deep_view()[users.next as int] == users.user_ids@[users.next as int]@);
        if brought(sent.deep_view(), json) {
            assert(next->Ok_0.users.deep_view().drop_last() =~= users.users.deep_view());
        }
    }
}

/// Inviting a user asks the organization to invite the email address, as an administrator exactly
/// where that is asked for, and leads to the default site. Taking an invitation back revokes it.
pub proof fn law_invitations(
    clerk: &ClerkService,
    org_id: &str,
    user_id: &str,
    email: &str,
    default_site_domain: &str,
    is_admin_role: &bool,
    invitation_id: &str,
    invite: Result<ClerkTask, ServiceError>,
    cancel: Result<ClerkTask, ServiceError>,
)
    requires
        call_ensures(
            ClerkService::invite_user,
            (clerk, org_id, user_id, email, default_site_domain, is_admin_role),
            invite,
        ),
        call_ensures(ClerkService::cancel_invitation, (clerk, org_id, invitation_id), cancel),
    ensures
        invite matches Ok(ClerkTask::Invite(request)) && {
            let body = request.deep_view().payload->Json_0;
            &&& is_call(
                clerk,
                request.deep_view(),
                Method::Post,
                "/v1/organizations/"@ + org_id@ + "/invitations"@,
                PayloadView::Json(body),
            )
            &&& keys_of(body) == set!["email_address"@, "role"@, "redirect_url"@]
            &&& text_under(body, "email_address"@) == Some(email@)
            &&& text_under(body, "role"@) == Some(
                if *is_admin_role {
                    "org:admin"@
                } else {
                    "org:member"@
                },
            )
            &&& text_under(body, "redirect_url"@) == Some("https://"@ + default_site_domain@)
        },
        cancel matches Ok(ClerkTask::CancelInvitation(request)) && is_call(
            clerk,
            request.deep_view(),
            Method::Post,
            "/v1/organizations/"@ + org_id@ + "/invitations/"@ + invitation_id@ + "/revoke"@,
            PayloadView::Nothing,
        ),
{
    reveal_strlit("email_address");
    reveal_strlit("role");
    reveal_strlit("redirect_url");
    assert("email_address"@.len() == 13 && "role"@.len() == 4 && "redirect_url"@.len() == 12);
    if let Ok(ClerkTask::Invite(request)) = invite {
        assert(keys_of(request.deep_view().payload->Json_0) =~= set![
            "email_address"@,
            "role"@,
            "redirect_url"@,
        ]);
    }
}

/// Creating a user names the one email address, both names and the metadata, and asks for no
/// password; a token for signing in is asked for a user and a number of seconds.
pub proof fn law_creations(
    clerk: &ClerkService,
    email: &str,
    first_name: &str,
    last_name: &str,
    metadata: &Option<Json>,
    user_id: &str,
    expires_in_seconds: u32,
    user: Result<ClerkTask, ServiceError>,
    token: Result<ClerkTask, ServiceError>,
)
    requires
        call_ensures(
            ClerkService::create_user,
            (clerk, email, first_name, last_name, metadata),
            user,
        ),
        call_ensures(
            ClerkService::create_sign_in_token,
            (clerk, user_id, expires_in_seconds),
            token,
        ),
    ensures
        user matches Ok(ClerkTask::CreateUser(request)) && {
            let body = request.deep_view().payload->Json_0;
            &&& is_call(
                clerk,
                request.deep_view(),
                Method::Post,
                "/v1/users"@,
                PayloadView::Json(body),
            )
            &&& keys_of(body) == set![
                "email_address"@,
                "first_name"@,
                "last_name"@,
                "skip_password_requirement"@,
                "public_metadata"@,
            ]
            &&& list_under(body, "email_address"@) == Some(seq![JsonView::Text(email@)])
            &&& text_under(body, "first_name"@) == Some(first_name@)
            &&& text_under(body, "last_name"@) == Some(last_name@)
            &&& value_under(body, "skip_password_requirement"@) == Some(JsonView::Bool(true))
            &&& value_under(body, "public_metadata"@) == Some(
                match metadata {
                    Some(metadata) => metadata.deep_view(),
                    None => JsonView::Null,
                },
            )
        },
        token matches Ok(ClerkTask::CreateSignInToken(request)) && {
            let body = request.deep_view().payload->Json_0;
            &&& is_call(
                clerk,
                request.deep_view(),
                Method::Post,
                "/v1/sign_in_tokens"@,
                PayloadView::Json(body),
            )
            &&& keys_of(body) == set!["user_id"@, "expires_in_seconds"@]
            &&& text_under(body, "user_id"@) == Some(user_id@)
            &&& value_under(body, "expires_in_seconds"@) == Some(
                JsonView::Number(number_of(expires_in_seconds as u64)),
            )
        },
{
    reveal_strlit("email_address");
    reveal_strlit("first_name");
    reveal_strlit("last_name");
    reveal_strlit("skip_password_requirement");
    reveal_strlit("public_metadata");
    reveal_strlit("user_id");
    reveal_strlit("expires_in_seconds");
    assert("email_address"@.len() == 13 && "first_name"@.len() == 10 && "last_name"@.len() == 9);
    assert("skip_password_requirement"@.len() == 25 && "public_metadata"@.len() == 15);
    assert("user_id"@.len() == 7 && "expires_in_seconds"@.len() == 18);
    if let Ok(ClerkTask::CreateUser(request)) = user {
        assert(keys_of(request.deep_view().payload->Json_0) =~= set![
            "email_address"@,
            "first_name"@,
            "last_name"@,
            "skip_password_requirement"@,
            "public_metadata"@,
        ]);
    }
    if let Ok(ClerkTask::CreateSignInToken(request)) = token {
        assert(keys_of(request.deep_view().payload->Json_0) =~= set![
            "user_id"@,
            "expires_in_seconds"@,
        ]);
    }
}

/// The slug of a name: the name in lower case, character by character, with a hyphen for every
/// space.
pub open spec fn is_slug(slug: Seq<char>, name: Seq<char>) -> bool {
    let lower = lowercase(name);
    &&& slug.len() == lower.len()
    &&& forall|i: int|
        0 <= i < slug.len() ==> #[trigger] slug[i] == (if lower[i] == ' ' {
            '-'
        } else {
            lower[i]
        })
}

proof fn lemma_replaced_char(s: Seq<char>, c: char, d: char)
    ensures
        crate::text::replaced(s, c, seq![d]).len() == s.len(),
        forall|i: int|
            0 <= i < s.len() ==> #[trigger] crate::text::replaced(s, c, seq![d])[i] == (if s[i]
                == c {
                d
            } else {
                s[i]
            }),
    decreases s.len(),
{
    if s.len() > 0 {
        lemma_replaced_char(s.drop_last(), c, d);
        let front = crate::text::replaced(s.drop_last(), c, seq![d]);
        let all = crate::text::replaced(s, c, seq![d]);
        assert forall|i: int| 0 <= i < s.len() implies #[trigger] all[i] == (if s[i] == c {
            d
        } else {
            s[i]
        }) by {
            if i < front.len() {
                assert(all[i] == front[i]);
            }
        }
    }
}

/// Creating an organization names it, with the slug of its name, both kinds of metadata and who
/// creates it. Its public metadata is asked for where the organization is, and merged with what is
/// given.
pub proof fn law_organizations(
    clerk: &ClerkService,
    name: &str,
    admin_user_id: Option<String>,
    metadata: Option<Json>,
    private_metadata: Option<Json>,
    org_id: &str,
    public_metadata: Json,
    created: Result<ClerkTask, ServiceError>,
    asked: Result<ClerkTask, ServiceError>,
    merged: Result<ClerkTask, ServiceError>,
)
    requires
        call_ensures(
            ClerkService::create_organization,
            (clerk, name, admin_user_id, metadata, private_metadata),
            created,
        ),
        call_ensures(ClerkService::get_organization_public_metadata, (clerk, org_id), asked),
        call_ensures(
            ClerkService::merge_organization_public_metadata,
            (clerk, org_id, public_metadata),
            merged,
        ),
    ensures
        created matches Ok(ClerkTask::CreateOrganization(request)) && {
            let body = request.deep_view().payload->Json_0;
            &&& is_call(
                clerk,
                request.deep_view(),
                Method::Post,
                "/v1/organizations"@,
                PayloadView::Json(body),
            )
            &&& keys_of(body) == set![
                "name"@,
                "slug"@,
                "public_metadata"@,
                "private_metadata"@,
                "created_by"@,
            ]
            &&& text_under(body, "name"@) == Some(name@)
            &&& text_under(body, "slug"@) is Some && is_slug(text_under(body, "slug"@)->0, name@)
            &&& value_under(body, "public_metadata"@) == Some(
                match metadata {
                    Some(metadata) => metadata.deep_view(),
                    None => JsonView::Null,
                },
            )
            &&& value_under(body, "private_metadata"@) == Some(
                match private_metadata {
                    Some(metadata) => metadata.deep_view(),
                    None => JsonView::Null,
                },
            )
            &&& text_under(body, "created_by"@) == Some(or_nothing(admin_user_id.deep_view()))
        },
        asked matches Ok(ClerkTask::GetMetadata(request)) && is_call(
            clerk,
            request.deep_view(),
            Method::Get,
            "/v1/organizations/"@ + org_id@,
            PayloadView::Nothing,
        ),
        merged matches Ok(ClerkTask::MergeMetadata(request)) && {
            let body = request.deep_view().payload->Json_0;
            &&& is_call(
                clerk,
                request.deep_view(),
                Method::Patch,
                "/v1/organizations/"@ + org_id@ + "/metadata"@,
                PayloadView::Json(body),
            )
            &&& keys_of(body) == set!["public_metadata"@]
            &&& value_under(body, "public_metadata"@) == Some(public_metadata.deep_view())
        },
{
    reveal_strlit("");
    assert(""@ =~= Seq::empty());
    reveal_strlit("-");
    assert("-"@ =~= seq!['-']);
    lemma_replaced_char(lowercase(name@), ' ', '-');
    reveal_strlit("name");
    reveal_strlit("slug");
    reveal_strlit("public_metadata");
    reveal_strlit("private_metadata");
    reveal_strlit("created_by");
    assert("name"@[0] == 'n' && "slug"@[0] == 's' && "name"@.len() == 4 && "slug"@.len() == 4);
    assert("public_metadata"@.len() == 15 && "private_metadata"@.len() == 16);
    assert("created_by"@.len() == 10);
    if let Ok(ClerkTask::CreateOrganization(request)) = created {
        assert(keys_of(request.deep_view().payload->Json_0) =~= set![
            "name"@,
            "slug"@,
            "public_metadata"@,
            "private_metadata"@,
            "created_by"@,
        ]);
    }
    if let Ok(ClerkTask::MergeMetadata(request)) = merged {
        assert(keys_of(request.deep_view().payload->Json_0) =~= set!["public_metadata"@]);
    }
}

/// What is created comes to the text that the reply has for it: an identifier, or a token. A reply
/// without one is an error, and so is a failure to get a reply. A change of a user, and taking an
/// invitation back, come to nothing but success; changing somebody who is not there is no error,
/// while an invitation has to be there.
pub proof fn law_replies_of_success(
    sent: &Sent,
    json: JsonView,
    name: &str,
    invited: Result<String, ServiceError>,
    created: Result<String, ServiceError>,
    token: Result<String, ServiceError>,
    organization: Result<String, ServiceError>,
    changed: Result<(), ServiceError>,
    cancelled: Result<(), ServiceError>,
)
    requires
        call_ensures(ClerkService::user_invited, (sent,), invited),
        call_ensures(ClerkService::user_created, (sent,), created),
        call_ensures(ClerkService::sign_in_token_created, (sent,), token),
        call_ensures(ClerkService::organization_created, (name, sent), organization),
        call_ensures(ClerkService::user_changed, (sent,), changed),
        call_ensures(ClerkService::invitation_cancelled, (sent,), cancelled),
    ensures
        brought(sent.deep_view(), json) ==> {
            &&& match text_under(json, "id"@) {
                Some(id) => invited is Ok && invited->Ok_0@ == id && created is Ok
                    && created->Ok_0@ == id && organization is Ok && organization->Ok_0@ == id,
                None => invited is Err && created is Err && organization is Err,
            }
            &&& match text_under(json, "token"@) {
                Some(text) => token is Ok && token->Ok_0@ == text,
                None => token is Err,
            }
            &&& changed is Ok && cancelled is Ok
        },
        sent.deep_view() is Failed ==> invited is Err && created is Err && token is Err
            && organization is Err && changed is Err && cancelled is Err,
        came_with(sent.deep_view(), 404) ==> invited is Err && created is Err && token is Err
            && organization is Err && cancelled is Err && changed is Ok,
        sent.deep_view() matches SentView::Answered(reply) ==> (!(200 <= reply.status < 300)
            && reply.status != 404 ==> invited is Err && created is Err && token is Err
            && organization is Err && changed is Err && cancelled is Err),
{
}

/// The public metadata of an organization is what its document has for it, null where it has none,
/// and nothing where there is no such organization. Merging succeeds exactly where the reply says
/// so.
pub proof fn law_metadata_replies(
    sent: &Sent,
    json: JsonView,
    found: Result<Option<Json>, ServiceError>,
    merged: Result<(), ServiceError>,
)
    requires
        call_ensures(ClerkService::metadata_found, (sent,), found),
        call_ensures(ClerkService::metadata_merged, (sent,), merged),
    ensures
        came_with(sent.deep_view(), 404) ==> found matches Ok(None),
        brought(sent.deep_view(), json) ==> (found matches Ok(Some(metadata))
            && metadata.deep_view() == match value_under(json, "public_metadata"@) {
            Some(metadata) => metadata,
            None => JsonView::Null,
        }),
        sent.deep_view() is Failed ==> found is Err,
        merged is Ok <==> (sent.deep_view() matches SentView::Answered(reply) && 200
            <= reply.status < 300),
{
}

/// What the first error of a document says, by preference at length.
pub open spec fn said_first(json: JsonView) -> Option<Seq<char>> {
    match list_under(json, "errors"@) {
        Some(errors) => if errors.len() == 0 {
            None
        } else {
            match text_under(errors[0], "long_message"@) {
                Some(message) => Some(message),
                None => text_under(errors[0], "message"@),
            }
        },
        None => None,
    }
}

/// A reply that refuses a request as invalid passes on what its first error says, without white
/// space around it, where it says anything. A timeout, too many requests and a failure of the
/// server can be tried again. Everything else is reported as it is.
pub proof fn law_failures_are_told_apart(
    context: &str,
    status: u16,
    body: &str,
    error: ServiceError,
    message: Option<String>,
)
    requires
        call_ensures(clerk_error, (context, status, body), error),
        call_ensures(clerk_user_facing_message, (body,), message),
    ensures
        message is Some <==> {
            &&& json_parsed(body@) matches Ok(json)
            &&& said_first(json) matches Some(said)
            &&& trimmed(said).len() > 0
        },
        message matches Some(message) ==> message@ == trimmed(
            said_first(json_parsed(body@)->Ok_0)->0,
        ),
        ({
            let invalid = (status == 400 || status == 422) && message is Some;
            let passing = status == 408 || status == 429 || 500 <= status < 600;
            let report = "Clerk API error ("@ + status_display(status) + "): "@ + body@;
            &&& invalid ==> error.deep_view() == ErrorView::InvalidRequestParameters(
                message->0@,
            )
            &&& passing ==> error.deep_view() == ErrorView::NotReadyError(report)
            &&& !invalid && !passing ==> error.deep_view() == ErrorView::GeneralError(
                CauseView::Plain(report),
            )
        }),
{
}

/// What is wrong with a reply, where anything is: that none came, that there is no such thing, that
/// its status tells of a failure, or that it cannot be read.
pub open spec fn trouble_with(sent: SentView) -> Option<ErrorView> {
    match sent {
        SentView::Failed(error) => Some(ErrorView::ReqwestError(error.report)),
        SentView::Answered(reply) => if 200 <= reply.status < 300 {
            match unreadable(reply) {
                Some(report) => Some(ErrorView::ReqwestError(report)),
                None => None,
            }
        } else if reply.status == 404 {
            Some(ErrorView::NotFoundError("The requested resource does not exist in Clerk"@))
        } else {
            Some(
                ErrorView::GeneralError(
                    CauseView::Plain(
                        "Clerk API error ("@ + status_display(reply.status) + "): "@ + reply.text,
                    ),
                ),
            )
        },
    }
}

/// Every trouble with a reply is reported as it is, whatever the reply was to; only somebody who is
/// not there is no trouble for asking for one user or for changing one.
pub proof fn law_troubles_are_reported(
    clerk: &ClerkService,
    sent: &Sent,
    change: UserChange,
    pages: UserPages,
    users: UsersById,
    invited: Result<String, ServiceError>,
    token: Result<String, ServiceError>,
    cancelled: Result<(), ServiceError>,
    found: Result<Vec<AuthUserData>, ServiceError>,
    page: AfterPage,
    request: Result<Option<HttpRequest>, ServiceError>,
    changed: Result<(), ServiceError>,
    next: Result<UsersById, ServiceError>,
)
    requires
        call_ensures(ClerkService::user_invited, (sent,), invited),
        call_ensures(ClerkService::sign_in_token_created, (sent,), token),
        call_ensures(ClerkService::invitation_cancelled, (sent,), cancelled),
        call_ensures(ClerkService::users_found, (sent,), found),
        call_ensures(UserPages::receive, (pages, sent), page),
        call_ensures(ClerkService::user_found, (clerk, sent, change), request),
        call_ensures(ClerkService::user_changed, (sent,), changed),
        call_ensures(UsersById::receive, (users, sent), next),
    ensures
        cancelled is Ok <==> trouble_with(sent.deep_view()) is None,
        found is Ok <==> trouble_with(sent.deep_view()) is None,
        trouble_with(sent.deep_view()) matches Some(trouble) ==> {
            &&& failed_as(invited, trouble)
            &&& failed_as(token, trouble)
            &&& failed_as(cancelled, trouble)
            &&& failed_as(found, trouble)
            &&& page matches AfterPage::Done(list) && failed_as(list, trouble)
            &&& if came_with(sent.deep_view(), 404) {
                request is Ok && changed is Ok && next is Ok
            } else {
                failed_as(request, trouble) && failed_as(changed, trouble) && failed_as(
                    next,
                    trouble,
                )
            }
        },
{
}

/// What is wrong with a reply to a request that creates something or concerns metadata: a failure
/// that its status tells of is told apart from others.
pub open spec fn told_trouble_with(sent: SentView, message: Option<Seq<char>>) -> Option<ErrorView> {
    match sent {
        SentView::Answered(reply) => if 200 <= reply.status < 300 {
            trouble_with(sent)
        } else {
            let report = "Clerk API error ("@ + status_display(reply.status) + "): "@ + reply.text;
            if (reply.status == 400 || reply.status == 422) && message is Some {
                Some(ErrorView::InvalidRequestParameters(message->0))
            } else if reply.status == 408 || reply.status == 429 || 500 <= reply.status < 600 {
                Some(ErrorView::NotReadyError(report))
            } else {
                Some(ErrorView::GeneralError(CauseView::Plain(report)))
            }
        },
        _ => trouble_with(sent),
    }
}

/// What a reply of failure says to the user.
pub open spec fn said_to_user(sent: SentView) -> Option<Seq<char>> {
    match sent {
        SentView::Answered(reply) => match json_parsed(reply.text) {
            Ok(json) => match said_first(json) {
                Some(said) => if trimmed(said).len() > 0 {
                    Some(trimmed(said))
                } else {
                    None
                },
                None => None,
            },
            Err(_) => None,
        },
        SentView::Failed(_) => None,
    }
}

/// Every trouble with a reply to a request that creates a user or an organization, or that concerns
/// metadata, is reported, and told apart by the status and by what the reply says. A name that is
/// taken, and an organization that is not there when its metadata is asked for, are something else;
/// and merged metadata is not read.
pub proof fn law_told_troubles_are_reported(
    sent: &Sent,
    name: &str,
    created: Result<String, ServiceError>,
    organization: Result<String, ServiceError>,
    metadata: Result<Option<Json>, ServiceError>,
    merged: Result<(), ServiceError>,
)
    requires
        call_ensures(ClerkService::user_created, (sent,), created),
        call_ensures(ClerkService::organization_created, (name, sent), organization),
        call_ensures(ClerkService::metadata_found, (sent,), metadata),
        call_ensures(ClerkService::metadata_merged, (sent,), merged),
    ensures
        told_trouble_with(sent.deep_view(), said_to_user(sent.deep_view())) matches Some(trouble)
            ==> {
            &&& failed_as(created, trouble)
            &&& failed_as(organization, trouble) || (organization matches Err(
                ServiceError::AlreadyExistsError(_),
            ))
            &&& came_with(sent.deep_view(), 404) || failed_as(metadata, trouble)
            &&& failed_as(merged, trouble) || (sent.deep_view() matches SentView::Answered(reply)
                && 200 <= reply.status < 300)
        },
{
}

/// The errors that a document lists, null where it lists none.
pub open spec fn listed_errors(json: JsonView) -> JsonView {
    match value_under(json, "errors"@) {
        Some(errors) => errors,
        None => JsonView::Null,
    }
}

/// A reply without the text that is due says which one is missing, and shows the errors that it
/// lists instead; one that is no page says so.
pub proof fn law_missing_texts_are_named(
    sent: &Sent,
    json: JsonView,
    name: &str,
    pages: UserPages,
    invited: Result<String, ServiceError>,
    created: Result<String, ServiceError>,
    token: Result<String, ServiceError>,
    organization: Result<String, ServiceError>,
    page: AfterPage,
)
    requires
        call_ensures(ClerkService::user_invited, (sent,), invited),
        call_ensures(ClerkService::user_created, (sent,), created),
        call_ensures(ClerkService::sign_in_token_created, (sent,), token),
        call_ensures(ClerkService::organization_created, (name, sent), organization),
        call_ensures(UserPages::receive, (pages, sent), page),
        brought(sent.deep_view(), json),
    ensures
        text_under(json, "id"@) is None ==> {
            let shown = json_debug(listed_errors(json));
            &&& failed_with(invited, "Missing invite ID: "@ + shown)
            &&& failed_with(created, "Missing user ID: "@ + shown)
            &&& failed_with(organization, "Missing organization ID in response: "@ + shown)
        },
        text_under(json, "token"@) is None ==> failed_with(
            token,
            "Missing sign-in token: "@ + json_debug(listed_errors(json)),
        ),
        items_on(json) is None ==> (page matches AfterPage::Done(list) && failed_with(
            list,
            "Unexpected Clerk response format"@,
        )),
{
}

/// The error says that a slug is taken.
pub open spec fn says_slug_is_taken(error: JsonView) -> bool {
    &&& text_under(error, "code"@) == Some("form_identifier_exists"@)
    &&& value_under(error, "meta"@) matches Some(meta)
    &&& text_under(meta, "param_name"@) == Some("slug"@)
}

/// Creating an organization says that its name is taken exactly where a reply of failure lists an
/// error that says so of the slug, and names it.
pub proof fn law_taken_names_are_reported(
    name: &str,
    sent: &Sent,
    organization: Result<String, ServiceError>,
)
    requires
        call_ensures(ClerkService::organization_created, (name, sent), organization),
    ensures
        ({
            let taken = {
                &&& sent.deep_view() matches SentView::Answered(reply)
                &&& !(200 <= reply.status < 300)
                &&& json_parsed(reply.text) matches Ok(json)
                &&& list_under(json, "errors"@) matches Some(errors)
                &&& exists|i: int|
                    0 <= i < errors.len() && says_slug_is_taken(#[trigger] errors[i])
            };
            &&& taken <==> (organization matches Err(ServiceError::AlreadyExistsError(_)))
            &&& (organization matches Err(ServiceError::AlreadyExistsError(message))
                ==> message@ == "An organization named '"@ + name@
                + "' already exists. Please choose a different name."@)
        }),
{
    if let SentView::Answered(reply) = sent.deep_view() {
        if let Ok(json) = json_parsed(reply.text) {
            if let Some(errors) = list_under(json, "errors"@) {
                if exists|i: int| 0 <= i < errors.len() && says_slug_is_taken(#[trigger] errors[i]) {
                    let i = choose|i: int|
                        0 <= i < errors.len() && says_slug_is_taken(#[trigger] errors[i]);
                    assert(crate::auth_provider::clerk_error::is_slug_conflict(errors[i]));
                }
                if crate::auth_provider::clerk_error::lists_slug_conflict(json) {
                    let i = choose|i: int|
                        0 <= i < errors.len()
                            && crate::auth_provider::clerk_error::is_slug_conflict(
                            #[trigger] errors[i],
                        );
                    assert(says_slug_is_taken(errors[i]));
                }
            }
        }
    }
}

} // verus!
