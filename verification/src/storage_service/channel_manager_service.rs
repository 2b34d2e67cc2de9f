//! Contents of channels, which the channel manager resolves to addresses.
use vstd::prelude::*;
use crate::error::{
    forbidden, general, general_error, invalid, outcome, ErrorReport, ErrorView, ServiceError,
};
use crate::http::{
    bare_request, with_credentials, with_header, with_headers, Credentials, CredentialsView,
    HttpRequest, Method, RequestView,
};
use crate::storage_service::head::{
    collect_results, collected, content_from_headers, described_content, outcomes, ContentHeaders,
    ContentHeadersView,
};
use crate::storage_service::storage_service_trait::{
    ContentRepresentationInfo, Settings, StorageServiceTrait,
};
use crate::text::{cat2, cat3, cat4, cat5, decimal, decimal_text, split, split_text, starts_with};
use crate::types::{
    AdapterConfig, AdapterConfigView, ChannelManagerConfig, ContentHeadInfo, HeadInfoView,
    RetrieveProperties,
};

verus! {

/// The service for contents of channels.
#[derive(Debug, Default)]
pub struct ChannelManager {}

/// The error for a text that is not the URI of a content in a channel.
pub open spec fn channel_uri_error() -> ErrorView {
    ErrorView::ParseError("Invalid content URI format for channel"@)
}

/// The channel of a content. The URI consists of at least three items between double colons, of
/// which the first says that it is one; the channel begins the last, up to a slash.
pub open spec fn channel_of(uri: Seq<char>) -> Result<Seq<char>, ErrorView> {
    let items = split_text(uri, "::"@);
    if !("chnltyp"@ + "::"@).is_prefix_of(uri) || items.len() < 3 {
        Err(channel_uri_error())
    } else {
        Ok(split_text(items.last(), "/"@)[0])
    }
}

/// What the channel manager is asked for.
#[derive(Debug)]
pub struct ContentRetrievalQuery {
    pub channel_id: String,
    pub content_uri: String,
}

pub struct QueryView {
    pub channel_id: Seq<char>,
    pub content_uri: Seq<char>,
}

impl DeepView for ContentRetrievalQuery {
    type V = QueryView;

    open spec fn deep_view(&self) -> QueryView {
        QueryView { channel_id: self.channel_id@, content_uri: self.content_uri@ }
    }
}

/// The query for a content.
pub open spec fn query_for(uri: Seq<char>) -> Result<QueryView, ErrorView> {
    match channel_of(uri) {
        Ok(channel_id) => Ok(QueryView { channel_id, content_uri: uri }),
        Err(error) => Err(error),
    }
}

/// The queries for contents.
pub open spec fn queries_for(uris: Seq<Seq<char>>) -> Seq<Result<QueryView, ErrorView>> {
    uris.map_values(|uri: Seq<char>| query_for(uri))
}

/// What the channel manager answers: where a content is, and how to ask for it.
#[derive(Debug)]
pub struct ContentItem {
    pub url: String,
    pub credentials: Credentials,
    pub headers: Vec<(String, String)>,
}

pub struct ContentItemView {
    pub url: Seq<char>,
    pub credentials: CredentialsView,
    pub headers: Seq<(Seq<char>, Seq<char>)>,
}

impl DeepView for ContentItem {
    type V = ContentItemView;

    open spec fn deep_view(&self) -> ContentItemView {
        ContentItemView {
            url: self.url@,
            credentials: self.credentials.deep_view(),
            headers: self.headers.deep_view(),
        }
    }
}

/// The request with the credentials and the headers that a content asks for.
pub open spec fn authorized(request: RequestView, item: ContentItemView) -> RequestView {
    with_headers(
        match item.credentials {
            CredentialsView::Anonymous => request,
            _ => with_credentials(request, item.credentials),
        },
        item.headers,
    )
}

/// The request for the headers of a content.
pub open spec fn head_request(item: ContentItemView) -> RequestView {
    authorized(bare_request(Method::Head, item.url), item)
}

/// The request for a content itself, from its first byte on.
pub open spec fn range_request(item: ContentItemView) -> RequestView {
    authorized(with_header(bare_request(Method::Get, item.url), "Range"@, "bytes=0-"@), item)
}

impl ContentItem {
    fn authorize(&self, request: HttpRequest) -> (asking: HttpRequest)
        ensures
            asking.deep_view() == authorized(request.deep_view(), self.deep_view()),
    {
        let request = match &self.credentials {
            Credentials::Anonymous => request,
            Credentials::Bearer(token) => request.bearer(token.as_str()),
            Credentials::Basic(user, password) => request.basic(user.as_str(), password.as_str()),
        };
        request.all_headers(&self.headers)
    }

    /// The request for the headers of the content.
    pub fn head_request(&self) -> (request: HttpRequest)
        ensures
            request.deep_view() == head_request(self.deep_view()),
    {
        self.authorize(HttpRequest::new(Method::Head, self.url.clone()))
    }

    /// The request for the content itself, from its first byte on.
    pub fn range_request(&self) -> (request: HttpRequest)
        ensures
            request.deep_view() == range_request(self.deep_view()),
    {
        self.authorize(
            HttpRequest::new(Method::Get, self.url.clone()).header("Range", "bytes=0-"),
        )
    }
}

/// A reply that describes a content, with its status.
#[derive(Debug)]
pub struct HeadReply {
    pub status: u16,
    pub headers: ContentHeaders,
}

pub struct HeadReplyView {
    pub status: u16,
    pub headers: ContentHeadersView,
}

impl DeepView for HeadReply {
    type V = HeadReplyView;

    open spec fn deep_view(&self) -> HeadReplyView {
        HeadReplyView { status: self.status, headers: self.headers.deep_view() }
    }
}

/// A status of a server that may answer the request for the content where it does not answer
/// the one for its headers.
pub open spec fn refuses_head(status: u16) -> bool {
    status == 403 || status == 401 || status == 501
}

/// What a reply says of a content: any status below 400 will do, once the reply is final.
pub open spec fn described_by(reply: HeadReplyView) -> Result<HeadInfoView, ErrorView> {
    if 200 <= reply.status <= 399 {
        Ok(described_content(reply.headers))
    } else {
        Err(
            general_error(
                "Head request to content failed with status ["@ + decimal(reply.status as nat)
                    + "]"@,
            ),
        )
    }
}

/// What the lack of a reply, or the reply, says of a content.
pub open spec fn reply_outcome(reply: Result<HeadReply, ErrorReport>) -> Result<
    HeadInfoView,
    ErrorView,
> {
    match reply {
        Ok(reply) => described_by(reply.deep_view()),
        Err(report) => Err(ErrorView::ReqwestError(report.deep_view())),
    }
}

/// Reads the final reply that describes a content.
pub fn read_final_reply(reply: Result<HeadReply, ErrorReport>) -> (info: Result<
    ContentHeadInfo,
    ServiceError,
>)
    ensures
        outcome(info) == reply_outcome(reply),
{
    match reply {
        Ok(reply) => {
            if 200 <= reply.status && reply.status <= 399 {
                Ok(content_from_headers(reply.headers))
            } else {
                let status = decimal_text(reply.status as u64);
                let message = cat3(
                    "Head request to content failed with status [",
                    status.as_str(),
                    "]",
                );
                general(message.as_str())
            }
        },
        Err(report) => Err(ServiceError::ReqwestError(report)),
    }
}

/// What follows the reply to the request for headers.
#[derive(Debug)]
pub enum AfterHead {
    /// The content itself is to be asked for.
    AskRange(HttpRequest),
    Done(Result<ContentHeadInfo, ServiceError>),
}

/// Reads the reply to the request for the headers of a content.
pub fn read_head_reply(item: &ContentItem, reply: Result<HeadReply, ErrorReport>) -> (next:
    AfterHead)
    ensures
        match next {
            AfterHead::AskRange(request) => {
                &&& reply matches Ok(found) && refuses_head(found.status)
                &&& request.deep_view() == range_request(item.deep_view())
            },
            AfterHead::Done(info) => {
                &&& reply matches Ok(found) ==> !refuses_head(found.status)
                &&& outcome(info) == reply_outcome(reply)
            },
        },
{
    if let Ok(found) = &reply {
        if found.status == 403 || found.status == 401 || found.status == 501 {
            return AfterHead::AskRange(item.range_request());
        }
    }
    AfterHead::Done(read_final_reply(reply))
}

/// What is to be done to learn of a content.
#[derive(Debug)]
pub enum ChannelHead {
    /// Nothing can be learnt.
    Known(ContentHeadInfo),
    /// To send the request and read the reply.
    Ask(HttpRequest, ContentItem),
}

pub enum ChannelHeadView {
    Known(HeadInfoView),
    Ask(RequestView, ContentItemView),
}

impl DeepView for ChannelHead {
    type V = ChannelHeadView;

    open spec fn deep_view(&self) -> ChannelHeadView {
        match self {
            ChannelHead::Known(info) => ChannelHeadView::Known(info.deep_view()),
            ChannelHead::Ask(request, item) => ChannelHeadView::Ask(
                request.deep_view(),
                item.deep_view(),
            ),
        }
    }
}

/// What is to be done to learn of a content: nothing is known of one without an address.
pub open spec fn head_of(item: ContentItemView) -> ChannelHeadView {
    if item.url.len() == 0 {
        ChannelHeadView::Known(HeadInfoView { mime_type: ""@, size: 0, filename: None })
    } else {
        ChannelHeadView::Ask(head_request(item), item)
    }
}

/// What the answer of the channel manager says, or the failure of the call.
pub open spec fn answer_view(answer: Result<Vec<ContentItem>, String>) -> Result<
    Seq<ContentItemView>,
    Seq<char>,
> {
    match answer {
        Ok(items) => Ok(items.deep_view()),
        Err(shown) => Err(shown@),
    }
}

/// What is to be done to learn of the contents that the channel manager was asked for. It must
/// have found all of them.
pub open spec fn heads_of(expected: nat, answer: Result<Seq<ContentItemView>, Seq<char>>) -> Result<
    Seq<ChannelHeadView>,
    ErrorView,
> {
    match answer {
        Err(shown) => Err(ErrorView::ClientCallError(shown)),
        Ok(items) => if items.len() != expected {
            Err(
                ErrorView::NotFoundError(
                    "Content not found in channel manager. Expected items: ["@ + decimal(expected)
                        + "], Found items: ["@ + decimal(items.len()) + "]"@,
                ),
            )
        } else {
            Ok(items.map_values(|item: ContentItemView| head_of(item)))
        },
    }
}

/// The first content that the channel manager found.
pub open spec fn found_content(
    query: QueryView,
    answer: Result<Seq<ContentItemView>, Seq<char>>,
) -> Result<ContentItemView, ErrorView> {
    match answer {
        Err(shown) => Err(ErrorView::ClientCallError(shown)),
        Ok(items) => if items.len() == 0 {
            Err(
                ErrorView::NotFoundError(
                    "Content not found in channel manager. Channel ID = ["@ + query.channel_id
                        + "], Content URI = ["@ + query.content_uri + "]"@,
                ),
            )
        } else {
            Ok(items[0])
        },
    }
}

/// What an operation of the channel manager has left to do.
#[derive(Debug)]
pub enum ChannelTask {
    /// To ask for these contents, and learn of each that is found.
    HeadInfos(Vec<ContentRetrievalQuery>),
    /// To ask for this content, and encrypt its address together with a file name.
    Content { query: ContentRetrievalQuery, filename: String },
}

pub enum ChannelTaskView {
    HeadInfos(Seq<QueryView>),
    Content { query: QueryView, filename: Seq<char> },
}

impl DeepView for ChannelTask {
    type V = ChannelTaskView;

    open spec fn deep_view(&self) -> ChannelTaskView {
        match self {
            ChannelTask::HeadInfos(queries) => ChannelTaskView::HeadInfos(queries.deep_view()),
            ChannelTask::Content { query, filename } => ChannelTaskView::Content {
                query: query.deep_view(),
                filename: filename@,
            },
        }
    }
}

impl ChannelManager {
    /// The service.
    pub fn new() -> (service: Self)
        ensures
            service == (ChannelManager {  }),
    {
        ChannelManager {  }
    }

    /// The channel of a content.
    pub fn get_channel_id_from_uri(&self, uri: &str) -> (channel_id: Result<String, ServiceError>)
        ensures
            outcome(channel_id) == channel_of(uri@),
    {
        let prefix = cat2("chnltyp", "::");
        if !starts_with(uri, prefix.as_str()) {
            return Err(
                ServiceError::ParseError("Invalid content URI format for channel".to_string()),
            );
        }
        proof {
            reveal_strlit("::");
            reveal_strlit("/");
        }
        let items = split(uri, "::");
        if items.len() < 3 {
            return Err(
                ServiceError::ParseError("Invalid content URI format for channel".to_string()),
            );
        }
        let last = &items[items.len() - 1];
        let mut parts = split(last.as_str(), "/");
        assert(parts.deep_view()[0] == parts@[0]@);
        Ok(parts.remove(0))
    }

    /// The query for a content.
    fn query(&self, uri: &str) -> (query: Result<ContentRetrievalQuery, ServiceError>)
        ensures
            outcome(query) == query_for(uri@),
    {
        match self.get_channel_id_from_uri(uri) {
            Ok(channel_id) => Ok(
                ContentRetrievalQuery { channel_id, content_uri: uri.to_string() },
            ),
            Err(error) => Err(error),
        }
    }

    /// Takes in what the channel manager answers to a query for contents.
    pub fn heads_to_ask(&self, expected: usize, answer: Result<Vec<ContentItem>, String>) -> (heads:
        Result<Vec<ChannelHead>, ServiceError>)
        ensures
            outcome(heads) == heads_of(expected as nat, answer_view(answer)),
    {
        let items = match answer {
            Ok(items) => items,
            Err(shown) => {
                return Err(ServiceError::ClientCallError(shown));
            },
        };
        if items.len() != expected {
            let wanted = decimal_text(expected as u64);
            let found = decimal_text(items.len() as u64);
            let message = cat5(
                "Content not found in channel manager. Expected items: [",
                wanted.as_str(),
                "], Found items: [",
                found.as_str(),
                "]",
            );
            return Err(ServiceError::NotFoundError(message));
        }
        let ghost all = items.deep_view();
        let ghost wanted = all.map_values(|item: ContentItemView| head_of(item));
        let mut heads: Vec<ChannelHead> = Vec::new();
        for item in iter: items
            invariant
                iter.seq() == items@,
                all == items.deep_view(),
                wanted == all.map_values(|item: ContentItemView| head_of(item)),
                heads@.len() == iter.index(),
                forall|i: int|
                    0 <= i < heads@.len() ==> (#[trigger] heads@[i]).deep_view() == wanted[i],
        {
            assert(wanted[heads@.len() as int] == head_of(item.deep_view()));
            if item.url.as_str().is_empty() {
                heads.push(
                    ChannelHead::Known(
                        ContentHeadInfo { mime_type: "".to_string(), size: 0, filename: None },
                    ),
                );
            } else {
                let request = item.head_request();
                heads.push(ChannelHead::Ask(request, item));
            }
        }
        assert(heads.deep_view() =~= wanted);
        Ok(heads)
    }

    /// Takes in what the channel manager answers to the query for a content.
    pub fn content_found(
        &self,
        query: &ContentRetrievalQuery,
        answer: Result<Vec<ContentItem>, String>,
    ) -> (item: Result<ContentItem, ServiceError>)
        ensures
            outcome(item) == found_content(query.deep_view(), answer_view(answer)),
    {
        match answer {
            Ok(items) => {
                if items.len() == 0 {
                    let message = cat5(
                        "Content not found in channel manager. Channel ID = [",
                        query.channel_id.as_str(),
                        "], Content URI = [",
                        query.content_uri.as_str(),
                        "]",
                    );
                    return Err(ServiceError::NotFoundError(message));
                }
                let mut items = items;
                let ghost all = items.deep_view();
                let first = items.remove(0);
                assert(all[0] == first.deep_view());
                Ok(first)
            },
            Err(shown) => Err(ServiceError::ClientCallError(shown)),
        }
    }

    /// The address at which the CDN serves a content of a channel.
    pub fn channel_url(&self, settings: &Settings, encrypted_url: &str) -> (url: String)
        ensures
            url@ == "https://"@ + settings.bunny_pull_zone_domain@ + "/channel/"@ + encrypted_url@,
    {
        cat4("https://", settings.bunny_pull_zone_domain.as_str(), "/channel/", encrypted_url)
    }
}

impl StorageServiceTrait for ChannelManager {
    type Task = ChannelTask;

    open spec fn tells_expiration() -> bool {
        false
    }

    fn retrieve_head_infos(
        &self,
        settings: &Settings,
        content_uris: &Vec<String>,
        adapter_configs: &Vec<AdapterConfig>,
        now_secs: u64,
    ) -> (task: Result<ChannelTask, ServiceError>)
        ensures
            outcome(task) == (match collected(queries_for(content_uris.deep_view())) {
                Ok(queries) => Ok::<ChannelTaskView, ErrorView>(
                    ChannelTaskView::HeadInfos(queries),
                ),
                Err(error) => Err(error),
            }),
    {
        let ghost wanted = queries_for(content_uris.deep_view());
        let mut queries: Vec<Result<ContentRetrievalQuery, ServiceError>> = Vec::new();
        let mut i: usize = 0;
        while i < content_uris.len()
            invariant
                i <= content_uris@.len(),
                wanted == queries_for(content_uris.deep_view()),
                queries@.len() == i,
                forall|j: int| 0 <= j < i ==> outcome(#[trigger] queries@[j]) == wanted[j],
            decreases content_uris@.len() - i,
        {
            let query = self.query(content_uris[i].as_str());
            assert(outcome(query) == wanted[i as int]);
            queries.push(query);
            i += 1;
        }
        assert(outcomes(queries@) =~= wanted);
        match collect_results(queries) {
            Ok(queries) => Ok(ChannelTask::HeadInfos(queries)),
            Err(error) => Err(error),
        }
    }

    fn generate_pre_signed_url(
        &self,
        settings: &Settings,
        content_uri: &str,
        adapter_config: AdapterConfig,
        retrieve_properties: Option<RetrieveProperties>,
        content_repr_properties: Option<ContentRepresentationInfo>,
        now_secs: u64,
    ) -> (task: Result<ChannelTask, ServiceError>)
        ensures
            outcome(task) == (match content_repr_properties {
                None => Err::<ChannelTaskView, ErrorView>(
                    general_error(
                        "Representation properties should be provided to generate pre-signed url."@,
                    ),
                ),
                Some(properties) => match query_for(content_uri@) {
                    Ok(query) => Ok(
                        ChannelTaskView::Content { query, filename: properties.filename@ },
                    ),
                    Err(error) => Err(error),
                },
            }),
    {
        let filename = match content_repr_properties {
            Some(properties) => properties.filename,
            None => {
                return general(
                    "Representation properties should be provided to generate pre-signed url.",
                );
            },
        };
        match self.query(content_uri) {
            Ok(query) => Ok(ChannelTask::Content { query, filename }),
            Err(error) => Err(error),
        }
    }

    fn strip_uri(&self, content_uri: &str) -> (stripped: Result<String, ServiceError>)
        ensures
            outcome(stripped) == Ok::<Seq<char>, ErrorView>(content_uri@),
    {
        Ok(content_uri.to_string())
    }

    fn reconstruct_uri(
        &self,
        settings: &Settings,
        stripped_content_uri: &str,
        adapter_config: &AdapterConfig,
        content_id: Option<String>,
        representation_type: Option<String>,
        alias: Option<String>,
        short_link_slug: Option<String>,
        is_dynamic: bool,
    ) -> (uri: Result<String, ServiceError>)
        ensures
            outcome(uri) == Ok::<Seq<char>, ErrorView>(stripped_content_uri@),
    {
        Ok(stripped_content_uri.to_string())
    }

    /// There is only one channel manager.
    fn create_adapter(
        &self,
        settings: &Settings,
        adapter_id: &str,
        new_config: AdapterConfig,
    ) -> (task: Result<ChannelTask, ServiceError>)
        ensures
            outcome(task) == Err::<ChannelTaskView, ErrorView>(
                ErrorView::InvalidRequestParameters(
                    "Channel manager adapter creation is not supported"@,
                ),
            ),
    {
        invalid("Channel manager adapter creation is not supported")
    }

    fn update_adapter(
        &self,
        old_config: AdapterConfig,
        new_config: AdapterConfig,
        has_linked_alias: bool,
    ) -> (task: Result<ChannelTask, ServiceError>)
        ensures
            outcome(task) == Err::<ChannelTaskView, ErrorView>(
                ErrorView::InvalidRequestParameters(
                    "Channel manager adapter updating is not supported"@,
                ),
            ),
    {
        invalid("Channel manager adapter updating is not supported")
    }

    fn delete_adapter(&self, config: AdapterConfig) -> (task: Result<ChannelTask, ServiceError>)
        ensures
            outcome(task) == Err::<ChannelTaskView, ErrorView>(
                ErrorView::InvalidRequestParameters(
                    "Channel manager adapter deletion is not supported"@,
                ),
            ),
    {
        invalid("Channel manager adapter deletion is not supported")
    }

    fn purge_by_url(&self, url: &str) -> (task: Result<ChannelTask, ServiceError>)
        ensures
            forbidden(task),
    {
        Err(ServiceError::ForbiddenError)
    }

    fn is_valid_uri(&self, settings: &Settings, uri: &str) -> (valid: bool)
        ensures
            valid == ("chnltyp"@ + "::"@).is_prefix_of(uri@),
    {
        let prefix = cat2("chnltyp", "::");
        starts_with(uri, prefix.as_str())
    }

    fn get_default_config(&self, settings: &Settings) -> (config: AdapterConfig)
        ensures
            config.deep_view() == AdapterConfigView::ChannelManager,
    {
        AdapterConfig::ChannelManager(ChannelManagerConfig {  })
    }
}

/// A channel is found only in a URI that is valid for the channel manager.
pub proof fn law_channel_uris_are_valid(uri: Seq<char>)
    ensures
        channel_of(uri) is Ok ==> ("chnltyp"@ + "::"@).is_prefix_of(uri),
{
}

/// As many heads come of an answer as were asked for.
pub proof fn law_every_content_has_a_head(
    expected: nat,
    answer: Result<Seq<ContentItemView>, Seq<char>>,
)
    ensures
        heads_of(expected, answer) matches Ok(heads) ==> heads.len() == expected,
{
}

} // verus!
