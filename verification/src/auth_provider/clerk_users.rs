//! Users in Clerk's replies, and the lists that come in pages.
use vstd::prelude::*;
use crate::error::{general, general_error, ErrorView, ServiceError};
use crate::http::{
    is_success, reply_json, status_display, status_is_success, status_text, valid_sent, Sent,
    SentView,
};
use crate::json::{items_of, json_text, member, text_at, Json, JsonView};
use crate::text::{
    cat4, cat5, contains, decimal, decimal_text, has_text, lowercase, or_empty, same_text,
    text_or_empty,
};
use crate::types::{AuthUserData, UserView};

verus! {

/// Users come in pages of this size.
pub const CLERK_PAGE_SIZE: usize = 500;

/// The first email address of a user.
pub open spec fn first_email(user: JsonView) -> Option<Seq<char>> {
    match items_of(member(user, "email_addresses"@)) {
        Some(addresses) => if addresses.len() > 0 {
            text_at(addresses[0], "email_address"@)
        } else {
            None
        },
        None => None,
    }
}

/// The user that a document describes.
pub open spec fn user_of(user: JsonView) -> UserView {
    UserView {
        user_id: text_or_empty(text_at(user, "id"@)),
        email: text_or_empty(first_email(user)),
        department: text_at(member(user, "public_metadata"@), "department"@),
        first_name: text_at(user, "first_name"@),
        last_name: text_at(user, "last_name"@),
        last_login: Some(json_text(member(user, "last_active_at"@))),
        picture: text_at(user, "image_url"@),
        username: text_at(user, "username"@),
    }
}

/// The user that a document describes.
pub fn map_auth_data_from_get_user_response(user: &Json) -> (data: AuthUserData)
    ensures
        data.deep_view() == user_of(user.deep_view()),
{
    let addresses = user.member("email_addresses");
    let email = match addresses.as_array() {
        Some(items) => {
            if items.len() > 0 {
                assert(items.deep_view()[0] == items@[0].deep_view());
                items[0].text_at("email_address")
            } else {
                None
            }
        },
        None => None,
    };
    let metadata = user.member("public_metadata");
    let last_active_at = user.member("last_active_at");
    AuthUserData {
        user_id: or_empty(user.text_at("id")),
        email: or_empty(email),
        department: metadata.text_at("department"),
        first_name: user.text_at("first_name"),
        last_name: user.text_at("last_name"),
        last_login: Some(last_active_at.to_text()),
        picture: user.text_at("image_url"),
        username: user.text_at("username"),
    }
}

/// The user that an invitation describes, who is known by the email address alone.
pub open spec fn invited_user(invitation: JsonView) -> UserView {
    let email = text_or_empty(text_at(invitation, "email_address"@));
    UserView {
        user_id: email,
        email,
        department: None,
        first_name: None,
        last_name: None,
        last_login: None,
        picture: None,
        username: None,
    }
}

/// The user that an invitation describes.
pub fn map_auth_data_from_get_invited_user_response(invitation: &Json) -> (data: AuthUserData)
    ensures
        data.deep_view() == invited_user(invitation.deep_view()),
{
    let email = or_empty(invitation.text_at("email_address"));
    AuthUserData {
        user_id: email.clone(),
        email,
        department: None,
        first_name: None,
        last_name: None,
        last_login: None,
        picture: None,
        username: None,
    }
}

/// The invitation is one to an organization, and its email address holds what is searched for.
/// The search looks at lower case, and `filter` is in lower case.
pub open spec fn invitation_matches(invitation: JsonView, filter: Option<Seq<char>>) -> bool {
    &&& text_at(invitation, "object"@) == Some("organization_invitation"@)
    &&& match filter {
        Some(query) => text_at(invitation, "email_address"@) matches Some(email) && has_text(
            lowercase(email),
            query,
        ),
        None => true,
    }
}

/// Whether an invitation is one to an organization that matches a search.
fn matches_filter(invitation: &Json, filter: &Option<String>) -> (found: bool)
    ensures
        found == invitation_matches(invitation.deep_view(), filter.deep_view()),
{
    match invitation.text_at("object") {
        Some(object) => {
            if !same_text(object.as_str(), "organization_invitation") {
                return false;
            }
        },
        None => {
            return false;
        },
    }
    match filter {
        Some(query) => match invitation.text_at("email_address") {
            Some(email) => {
                let lower = email.as_str().to_lowercase();
                contains(lower.as_str(), query.as_str())
            },
            None => false,
        },
        None => true,
    }
}

/// The users that documents describe.
pub open spec fn users_of(items: Seq<JsonView>) -> Seq<UserView> {
    items.map_values(|user: JsonView| user_of(user))
}

/// The users that matching invitations describe.
pub open spec fn invited_users(items: Seq<JsonView>, filter: Option<Seq<char>>) -> Seq<UserView>
    decreases items.len(),
{
    if items.len() == 0 {
        Seq::empty()
    } else if invitation_matches(items.last(), filter) {
        invited_users(items.drop_last(), filter).push(invited_user(items.last()))
    } else {
        invited_users(items.drop_last(), filter)
    }
}

/// Adds the users that documents describe.
pub fn push_users(users: &mut Vec<AuthUserData>, items: &Vec<Json>)
    ensures
        final(users).deep_view() == old(users).deep_view() + users_of(items.deep_view()),
{
    let ghost before = users.deep_view();
    let ghost all = items.deep_view();
    let mut i: usize = 0;
    assert(users.deep_view() =~= before + users_of(all.take(0)));
    while i < items.len()
        invariant
            i <= items@.len(),
            all == items.deep_view(),
            users.deep_view() == before + users_of(all.take(i as int)),
        decreases items@.len() - i,
    {
        let ghost known = users.deep_view();
        let user = map_auth_data_from_get_user_response(&items[i]);
        users.push(user);
        i += 1;
        assert(users.deep_view() =~= known.push(user_of(all[i - 1])));
        assert(users.deep_view() =~= before + users_of(all.take(i as int)));
    }
    assert(all.take(i as int) =~= all);
}

/// Adds the users that matching invitations describe.
fn push_invited_users(users: &mut Vec<AuthUserData>, items: &Vec<Json>, filter: &Option<String>)
    ensures
        final(users).deep_view() == old(users).deep_view() + invited_users(
            items.deep_view(),
            filter.deep_view(),
        ),
{
    let ghost before = users.deep_view();
    let ghost all = items.deep_view();
    let mut i: usize = 0;
    assert(users.deep_view() =~= before + invited_users(all.take(0), filter.deep_view()));
    while i < items.len()
        invariant
            i <= items@.len(),
            all == items.deep_view(),
            users.deep_view() == before + invited_users(all.take(i as int), filter.deep_view()),
        decreases items@.len() - i,
    {
        let ghost known = users.deep_view();
        proof {
            assert(all.take(i + 1).drop_last() =~= all.take(i as int));
            assert(all.take(i + 1).last() == items@[i as int].deep_view());
        }
        if matches_filter(&items[i], filter) {
            let user = map_auth_data_from_get_invited_user_response(&items[i]);
            users.push(user);
            assert(users.deep_view() =~= known.push(invited_user(all[i as int])));
        }
        i += 1;
        assert(users.deep_view() =~= before + invited_users(
            all.take(i as int),
            filter.deep_view(),
        ));
    }
    assert(all.take(i as int) =~= all);
}

/// What a reply of Clerk says: nothing where what was asked for is not there.
pub open spec fn optional_answer(sent: SentView) -> Result<Option<JsonView>, ErrorView> {
    match sent {
        SentView::Failed(error) => Err(ErrorView::ReqwestError(error.report)),
        SentView::Answered(reply) => if reply.status == 404 {
            Ok(None)
        } else if !is_success(reply.status) {
            Err(
                general_error(
                    "Clerk API error ("@ + status_display(reply.status) + "): "@ + reply.text,
                ),
            )
        } else {
            match reply_json(reply) {
                Ok(json) => Ok(Some(json)),
                Err(report) => Err(ErrorView::ReqwestError(report)),
            }
        },
    }
}

/// What a reply of Clerk says, where there must be something.
pub open spec fn answer(sent: SentView) -> Result<JsonView, ErrorView> {
    match optional_answer(sent) {
        Ok(Some(json)) => Ok(json),
        Ok(None) => Err(
            ErrorView::NotFoundError("The requested resource does not exist in Clerk"@),
        ),
        Err(error) => Err(error),
    }
}

/// Reads a reply of Clerk.
pub fn read_optional_reply(sent: &Sent) -> (json: Result<Option<Json>, ServiceError>)
    requires
        valid_sent(sent.deep_view()),
    ensures
        match json {
            Ok(json) => optional_answer(sent.deep_view()) == Ok::<Option<JsonView>, ErrorView>(
                json.deep_view(),
            ),
            Err(error) => optional_answer(sent.deep_view()) == Err::<Option<JsonView>, ErrorView>(
                error.deep_view(),
            ),
        },
{
    match sent {
        Sent::Failed(error) => Err(ServiceError::ReqwestError(error.report.copy())),
        Sent::Answered(reply) => {
            if reply.status == 404 {
                return Ok(None);
            }
            if !status_is_success(reply.status) {
                let status = status_text(reply.status);
                let message = cat4(
                    "Clerk API error (",
                    status.as_str(),
                    "): ",
                    reply.text.as_str(),
                );
                return general(message.as_str());
            }
            match reply.json() {
                Ok(json) => Ok(Some(json)),
                Err(report) => Err(ServiceError::ReqwestError(report)),
            }
        },
    }
}

/// Reads a reply of Clerk that must say something.
pub fn read_reply(sent: &Sent) -> (json: Result<Json, ServiceError>)
    requires
        valid_sent(sent.deep_view()),
    ensures
        match json {
            Ok(json) => answer(sent.deep_view()) == Ok::<JsonView, ErrorView>(json.deep_view()),
            Err(error) => answer(sent.deep_view()) == Err::<JsonView, ErrorView>(
                error.deep_view(),
            ),
        },
{
    match read_optional_reply(sent) {
        Ok(Some(json)) => Ok(json),
        Ok(None) => Err(
            ServiceError::NotFoundError(
                "The requested resource does not exist in Clerk".to_string(),
            ),
        ),
        Err(error) => Err(error),
    }
}

/// The items of a page, which is a list or holds one.
pub open spec fn page_items(json: JsonView) -> Option<Seq<JsonView>> {
    match items_of(json) {
        Some(items) => Some(items),
        None => items_of(member(json, "data"@)),
    }
}

/// What a list consists of.
#[derive(Debug)]
pub enum Listed {
    Members,
    /// Pending invitations that match a search, which is in lower case.
    Invitations(Option<String>),
}

pub enum ListedView {
    Members,
    Invitations(Option<Seq<char>>),
}

impl DeepView for Listed {
    type V = ListedView;

    open spec fn deep_view(&self) -> ListedView {
        match self {
            Listed::Members => ListedView::Members,
            Listed::Invitations(filter) => ListedView::Invitations(filter.deep_view()),
        }
    }
}

/// A list that comes in pages: where the next page begins, and who was on those before.
#[derive(Debug)]
pub struct UserPages {
    pub base_path: String,
    pub listed: Listed,
    pub offset: usize,
    pub users: Vec<AuthUserData>,
}

pub struct UserPagesView {
    pub base_path: Seq<char>,
    pub listed: ListedView,
    pub offset: nat,
    pub users: Seq<UserView>,
}

impl DeepView for UserPages {
    type V = UserPagesView;

    open spec fn deep_view(&self) -> UserPagesView {
        UserPagesView {
            base_path: self.base_path@,
            listed: self.listed.deep_view(),
            offset: self.offset as nat,
            users: self.users.deep_view(),
        }
    }
}

/// The beginning of a list.
pub open spec fn first_page(base_path: Seq<char>, listed: ListedView) -> UserPagesView {
    UserPagesView { base_path, listed, offset: 0, users: Seq::empty() }
}

/// The path of the next page.
pub open spec fn page_path(pages: UserPagesView) -> Seq<char> {
    pages.base_path + "&offset="@ + decimal(pages.offset) + "&limit="@ + decimal(500)
}

/// The users on a page.
pub open spec fn users_on_page(listed: ListedView, items: Seq<JsonView>) -> Seq<UserView> {
    match listed {
        ListedView::Members => users_of(items),
        ListedView::Invitations(filter) => invited_users(items, filter),
    }
}

/// What follows a page.
#[derive(Debug)]
pub enum AfterPage {
    More(UserPages),
    Done(Result<Vec<AuthUserData>, ServiceError>),
}

pub enum AfterPageView {
    More(UserPagesView),
    Done(Result<Seq<UserView>, ErrorView>),
}

impl DeepView for AfterPage {
    type V = AfterPageView;

    open spec fn deep_view(&self) -> AfterPageView {
        match self {
            AfterPage::More(pages) => AfterPageView::More(pages.deep_view()),
            AfterPage::Done(result) => AfterPageView::Done(
                match result {
                    Ok(users) => Ok(users.deep_view()),
                    Err(error) => Err(error.deep_view()),
                },
            ),
        }
    }
}

/// What follows a page with the given items: the next one, unless this one was not full.
pub open spec fn after_items(pages: UserPagesView, items: Seq<JsonView>) -> AfterPageView {
    let users = pages.users + users_on_page(pages.listed, items);
    if items.len() < CLERK_PAGE_SIZE {
        AfterPageView::Done(Ok(users))
    } else {
        AfterPageView::More(
            UserPagesView { offset: pages.offset + CLERK_PAGE_SIZE as nat, users, ..pages },
        )
    }
}

/// What follows the reply to the request for a page.
pub open spec fn after_page(pages: UserPagesView, sent: SentView) -> AfterPageView {
    match answer(sent) {
        Err(error) => AfterPageView::Done(Err(error)),
        Ok(json) => match page_items(json) {
            None => AfterPageView::Done(
                Err(general_error("Unexpected Clerk response format"@)),
            ),
            Some(items) => after_items(pages, items),
        },
    }
}

impl UserPages {
    /// The beginning of a list.
    pub fn new(base_path: String, listed: Listed) -> (pages: Self)
        ensures
            pages.deep_view() == first_page(base_path@, listed.deep_view()),
    {
        let users: Vec<AuthUserData> = Vec::new();
        assert(users.deep_view() =~= Seq::empty());
        UserPages { base_path, listed, offset: 0, users }
    }

    /// The path of the next page.
    pub fn path(&self) -> (path: String)
        ensures
            path@ == page_path(self.deep_view()),
    {
        let offset = decimal_text(self.offset as u64);
        let limit = decimal_text(500);
        cat5(self.base_path.as_str(), "&offset=", offset.as_str(), "&limit=", limit.as_str())
    }

    /// Takes in the items of a page.
    pub fn with_items(self, items: &Vec<Json>) -> (next: AfterPage)
        requires
            self.offset + CLERK_PAGE_SIZE <= usize::MAX,
        ensures
            next.deep_view() == after_items(self.deep_view(), items.deep_view()),
    {
        let mut users = self.users;
        match &self.listed {
            Listed::Members => push_users(&mut users, items),
            Listed::Invitations(filter) => push_invited_users(&mut users, items, filter),
        }
        if items.len() < CLERK_PAGE_SIZE {
            AfterPage::Done(Ok(users))
        } else {
            AfterPage::More(
                UserPages {
                    base_path: self.base_path,
                    listed: self.listed,
                    offset: self.offset + CLERK_PAGE_SIZE,
                    users,
                },
            )
        }
    }

    /// Takes in the reply to the request for a page.
    pub fn receive(self, sent: &Sent) -> (next: AfterPage)
        requires
            valid_sent(sent.deep_view()),
            self.offset + CLERK_PAGE_SIZE <= usize::MAX,
        ensures
            next.deep_view() == after_page(self.deep_view(), sent.deep_view()),
    {
        let json = match read_reply(sent) {
            Ok(json) => json,
            Err(error) => {
                return AfterPage::Done(Err(error));
            },
        };
        if let Some(items) = json.as_array() {
            return self.with_items(items);
        }
        let data = json.member("data");
        match data.as_array() {
            Some(items) => self.with_items(items),
            None => AfterPage::Done(general("Unexpected Clerk response format")),
        }
    }
}

/// What a list comes to when its pages have the given items in turn.
pub open spec fn after_pages(pages: UserPagesView, items: Seq<Seq<JsonView>>) -> AfterPageView
    decreases items.len(),
{
    if items.len() == 0 {
        AfterPageView::More(pages)
    } else {
        match after_items(pages, items[0]) {
            AfterPageView::More(next) => after_pages(next, items.skip(1)),
            done => done,
        }
    }
}

/// The users on several pages.
pub open spec fn users_on_pages(listed: ListedView, items: Seq<Seq<JsonView>>) -> Seq<UserView>
    decreases items.len(),
{
    if items.len() == 0 {
        Seq::empty()
    } else {
        users_on_page(listed, items[0]) + users_on_pages(listed, items.skip(1))
    }
}

/// A list is read to its end: where every page but the last is full, it comes to the users on all
/// pages, in order.
pub proof fn law_pages_are_concatenated(pages: UserPagesView, items: Seq<Seq<JsonView>>)
    requires
        items.len() > 0,
        forall|i: int|
            0 <= i < items.len() - 1 ==> (#[trigger] items[i]).len() >= CLERK_PAGE_SIZE,
        items.last().len() < CLERK_PAGE_SIZE,
    ensures
        after_pages(pages, items) == AfterPageView::Done(
            Ok(pages.users + users_on_pages(pages.listed, items)),
        ),
    decreases items.len(),
{
    reveal_with_fuel(users_on_pages, 2);
    if items.len() == 1 {
        assert(users_on_pages(pages.listed, items) =~= users_on_page(pages.listed, items[0]));
    } else {
        assert(items[0].len() >= CLERK_PAGE_SIZE);
        let next = after_items(pages, items[0])->More_0;
        let rest = items.skip(1);
        assert forall|i: int| 0 <= i < rest.len() - 1 implies (#[trigger] rest[i]).len()
            >= CLERK_PAGE_SIZE by {
            assert(rest[i] == items[i + 1]);
        }
        law_pages_are_concatenated(next, rest);
        assert(next.users + users_on_pages(pages.listed, rest) =~= pages.users + users_on_pages(
            pages.listed,
            items,
        ));
    }
}

/// Each page begins where the one before ended.
pub proof fn law_pages_follow_each_other(pages: UserPagesView, items: Seq<JsonView>)
    ensures
        after_items(pages, items) matches AfterPageView::More(next) ==> next.offset == pages.offset
            + CLERK_PAGE_SIZE && next.base_path == pages.base_path,
{
}

} // verus!
