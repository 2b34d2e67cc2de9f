//! What becomes of contents of channels.
use vstd::prelude::*;
use crate::error::{outcome, ErrorReport, ErrorView, ServiceError};
use crate::http::{Method, PayloadView, RequestView};
use crate::reading::{failed_with, refused_with};
use crate::storage_service::channel_manager_service::{
    read_final_reply, read_head_reply, AfterHead, ChannelHead, ChannelManager, ChannelTask,
    ContentItem, ContentItemView, ContentRetrievalQuery, HeadReply,
    QueryView,
};
use crate::storage_service::head::{
    collected, content_from_headers, lemma_all_collected, lemma_collected, ContentHeaders,
    ContentHeadersView,
};
use crate::storage_service::storage_service_trait::{
    ContentRepresentationInfo, FromStageInfo, GenerateUploadUrlOptions, Settings,
    StorageServiceTrait,
};
use crate::text::{decimal, find_text, has_text, lemma_find_text, spelled_number, split_text};
use crate::types::{
    AdapterConfig, AdapterConfigView, CallContext, ContentHeadInfo, RetrieveProperties,
};

verus! {

proof fn lemma_last_piece(s: Seq<char>, pattern: Seq<char>)
    requires
        pattern.len() > 0,
    ensures
        split_text(s, pattern).len() > 0,
        !has_text(split_text(s, pattern).last(), pattern),
        split_text(s, pattern).len() == 1 <==> !has_text(s, pattern),
        split_text(s, pattern).len() == 1 ==> split_text(s, pattern)[0] == s,
        split_text(s, pattern).len() > 1 ==> exists|front: Seq<char>|
            s == #[trigger] (front + pattern + split_text(s, pattern).last()),
    decreases s.len(),
{
    if has_text(s, pattern) {
        lemma_find_text(s, pattern);
        let at = find_text(s, pattern)->0;
        let rest = s.skip(at + pattern.len());
        lemma_last_piece(rest, pattern);
        let pieces = split_text(s, pattern);
        let tail = split_text(rest, pattern);
        assert(pieces == seq![s.take(at)] + tail);
        assert(pieces.last() == tail.last());
        assert(s =~= s.take(at) + pattern + rest);
        if tail.len() == 1 {
            assert(tail.last() == rest);
            assert(s == s.take(at) + pattern + pieces.last());
        } else {
            let front = choose|front: Seq<char>| rest == #[trigger] (front + pattern + tail.last());
            assert(s =~= (s.take(at) + pattern + front) + pattern + tail.last());
        }
    }
}

/// The channel of a content is found exactly where its URI begins as one of a channel and has at
/// least three items between double colons. It is what the last of these items begins with, up to
/// the first slash in it.
pub proof fn law_channels_are_found_in_uris(
    service: &ChannelManager,
    uri: &str,
    channel_id: Result<String, ServiceError>,
)
    requires
        call_ensures(ChannelManager::get_channel_id_from_uri, (service, uri), channel_id),
    ensures
        channel_id is Ok <==> names_a_channel(uri@),
        channel_id matches Err(error) ==> error.deep_view() == ErrorView::ParseError(
            "Invalid content URI format for channel"@,
        ),
        channel_id matches Ok(channel) ==> {
            &&& !channel@.contains('/')
            &&& exists|front: Seq<char>, rest: Seq<char>|
                {
                    &&& uri@ == #[trigger] (front + "::"@ + (channel@ + rest))
                    &&& !has_text(channel@ + rest, "::"@)
                    &&& rest.len() == 0 || rest[0] == '/'
                }
        },
{
    reveal_strlit("chnltyp");
    reveal_strlit("::");
    reveal_strlit("chnltyp::");
    reveal_strlit("/");
    assert("chnltyp"@ + "::"@ =~= "chnltyp::"@);
    lemma_last_piece(uri@, "::"@);
    if let Ok(channel) = channel_id {
        let items = split_text(uri@, "::"@);
        let last = items.last();
        let front = choose|front: Seq<char>| uri@ == #[trigger] (front + "::"@ + items.last());
        if has_text(last, "/"@) {
            lemma_find_text(last, "/"@);
            let at = find_text(last, "/"@)->0;
            assert(channel@ == last.take(at));
            let rest = last.skip(at);
            assert(last =~= channel@ + rest);
            assert(last.subrange(at, at + 1)[0] == '/');
            assert(rest[0] == '/');
            if channel@.contains('/') {
                let i = channel@.index_of('/');
                assert(last.subrange(i, i + 1) =~= "/"@);
                assert(crate::text::occurs_at(last, "/"@, i));
            }
            assert(uri@ == front + "::"@ + (channel@ + rest));
        } else {
            assert(channel@ == last);
            let rest = Seq::<char>::empty();
            assert(last =~= channel@ + rest);
            if channel@.contains('/') {
                let i = channel@.index_of('/');
                assert(last.subrange(i, i + 1) =~= "/"@);
                assert(crate::text::occurs_at(last, "/"@, i));
                assert(has_text(last, "/"@));
            }
            assert(uri@ == front + "::"@ + (channel@ + rest));
        }
    }
}

/// The URI names the channel of a content.
pub open spec fn names_a_channel(uri: Seq<char>) -> bool {
    "chnltyp::"@.is_prefix_of(uri) && split_text(uri, "::"@).len() >= 3
}

/// Contents of channels are looked at by asking the channel manager for each of them, in order and
/// each with its channel; it fails exactly where one has no channel. An address is asked for with the file
/// name of the content, which has to be described.
pub proof fn law_channels_are_asked_for_contents(
    service: &ChannelManager,
    settings: &Settings,
    uris: &Vec<String>,
    configs: &Vec<AdapterConfig>,
    now_secs: u64,
    heads: Result<ChannelTask, ServiceError>,
    at: int,
    uri: &str,
    config: AdapterConfig,
    properties: Option<RetrieveProperties>,
    described: Option<ContentRepresentationInfo>,
    fetch: Result<ChannelTask, ServiceError>,
    channel_id: Result<String, ServiceError>,
)
    requires
        call_ensures(
            ChannelManager::retrieve_head_infos,
            (service, settings, uris, configs, now_secs),
            heads,
        ),
        0 <= at < uris@.len(),
        uri@ == uris@[at]@,
        call_ensures(ChannelManager::get_channel_id_from_uri, (service, uri), channel_id),
        call_ensures(
            ChannelManager::generate_pre_signed_url,
            (service, settings, uri, config, properties, described, now_secs),
            fetch,
        ),
    ensures
        channel_id is Err ==> heads is Err && fetch is Err,
        heads is Ok <==> forall|i: int|
            0 <= i < uris@.len() ==> names_a_channel(#[trigger] uris@[i]@),
        heads matches Ok(task) ==> {
            &&& task matches ChannelTask::HeadInfos(queries)
            &&& queries@.len() == uris@.len()
            &&& queries@[at].channel_id@ == channel_id->Ok_0@
            &&& queries@[at].content_uri@ == uri@
        },
        described is None ==> failed_with(
            fetch,
            "Representation properties should be provided to generate pre-signed url."@,
        ),
        fetch is Ok <==> described is Some && channel_id is Ok,
        fetch matches Ok(task) ==> {
            &&& task matches ChannelTask::Content { query, filename }
            &&& query.channel_id@ == channel_id->Ok_0@
            &&& query.content_uri@ == uri@
            &&& filename@ == described->0.filename@
        },
{
    reveal_strlit("chnltyp");
    reveal_strlit("::");
    reveal_strlit("chnltyp::");
    assert("chnltyp"@ + "::"@ =~= "chnltyp::"@);
    let queries = crate::storage_service::channel_manager_service::queries_for(uris.deep_view());
    assert forall|i: int| 0 <= i < uris@.len() implies ((#[trigger] queries[i]) is Ok
        <==> names_a_channel(uris@[i]@)) by {
        assert(queries[i] == crate::storage_service::channel_manager_service::query_for(
            uris@[i]@,
        ));
    }
    if forall|i: int| 0 <= i < uris@.len() ==> names_a_channel(#[trigger] uris@[i]@) {
        assert forall|i: int| 0 <= i < queries.len() implies (#[trigger] queries[i]) is Ok by {
            assert(names_a_channel(uris@[i]@));
        }
        lemma_all_collected(queries);
    }
    if heads is Ok {
        lemma_collected(queries);
        assert forall|i: int| 0 <= i < uris@.len() implies names_a_channel(
            #[trigger] uris@[i]@,
        ) by {
            let values = collected(queries)->Ok_0;
            assert(queries[i] == Ok::<QueryView, ErrorView>(values[i]));
        }
    }
    assert(queries[at] == crate::storage_service::channel_manager_service::query_for(uri@));
    lemma_collected(queries);
    if let Ok(ChannelTask::HeadInfos(found)) = heads {
        assert(found.deep_view()[at] == found@[at].deep_view());
        assert(collected(queries)->Ok_0[at] == found.deep_view()[at]);
    }
}

/// The request asks as a content wants to be asked for: with its credentials, and with its headers
/// after the given ones.
pub open spec fn asks_as(
    request: RequestView,
    item: ContentItemView,
    method: Method,
    headers: Seq<(Seq<char>, Seq<char>)>,
) -> bool {
    &&& request.method == method
    &&& request.url == item.url
    &&& request.credentials == item.credentials
    &&& request.headers == headers + item.headers
    &&& request.payload == PayloadView::Nothing
}

/// Each content that the channel manager found is looked at with a request for its headers, as it
/// wants to be asked for, in order; of one without an address nothing is known. Where another
/// number was found than was asked for, or the call failed, there is an error.
pub proof fn law_found_contents_are_looked_at(
    service: &ChannelManager,
    expected: usize,
    answer: Result<Vec<ContentItem>, String>,
    heads: Result<Vec<ChannelHead>, ServiceError>,
    at: int,
)
    requires
        call_ensures(ChannelManager::heads_to_ask, (service, expected, answer), heads),
    ensures
        heads is Ok <==> (answer matches Ok(items) && items@.len() == expected),
        answer matches Err(shown) ==> (heads matches Err(error) && error.deep_view()
            == ErrorView::ClientCallError(shown@)),
        answer matches Ok(items) ==> (items@.len() != expected ==> (heads matches Err(
            ServiceError::NotFoundError(message),
        ) && message@ == "Content not found in channel manager. Expected items: ["@ + decimal(
            expected as nat,
        ) + "], Found items: ["@ + decimal(items@.len()) + "]"@)),
        heads matches Ok(heads) ==> {
            let items = answer->Ok_0;
            &&& heads@.len() == expected
            &&& 0 <= at < expected ==> if items@[at].url@.len() == 0 {
                heads@[at] matches ChannelHead::Known(info) && info.mime_type@.len() == 0
                    && info.size == 0 && info.filename is None
            } else {
                heads@[at] matches ChannelHead::Ask(request, item) && item.deep_view()
                    == items@[at].deep_view() && asks_as(
                    request.deep_view(),
                    items@[at].deep_view(),
                    Method::Head,
                    seq![],
                )
            }
        },
{
    reveal_strlit("");
    if let Ok(heads) = heads {
        let items = answer->Ok_0;
        assert(heads.deep_view().len() == heads@.len());
        if 0 <= at < expected {
            assert(heads.deep_view()[at] == heads@[at].deep_view());
            assert(items.deep_view()[at] == items@[at].deep_view());
            let view = items@[at].deep_view();
            assert(Seq::<(Seq<char>, Seq<char>)>::empty() + view.headers =~= view.headers);
        }
    }
}

/// The size that a header tells; zero where it is no number.
pub open spec fn told_size(headers: ContentHeadersView) -> u64 {
    match headers.content_length {
        Some(text) => match spelled_number(text) {
            Some(size) => size,
            None => 0,
        },
        None => 0,
    }
}

/// The type and the size of a content are those that the headers of the reply tell; what they do
/// not tell is empty or zero.
pub proof fn law_headers_describe_contents(headers: ContentHeaders, info: ContentHeadInfo)
    requires
        call_ensures(content_from_headers, (headers,), info),
    ensures
        headers.content_type matches Some(mime_type) ==> info.mime_type@ == mime_type@,
        headers.content_type is None ==> info.mime_type@.len() == 0,
        info.size == told_size(headers.deep_view()),
        info.filename is None,
{
    reveal_strlit("");
}

/// A server that refuses to tell the headers of a content is asked for the content itself, from its
/// first byte on. Any other reply of success or redirection describes the content, and so does such
/// a reply to the second request; every other reply is an error, and so is the lack of one.
pub proof fn law_replies_describe_contents(
    item: &ContentItem,
    reply: Result<HeadReply, ErrorReport>,
    next: AfterHead,
    info: Result<ContentHeadInfo, ServiceError>,
)
    requires
        call_ensures(read_head_reply, (item, reply), next),
        call_ensures(read_final_reply, (reply,), info),
    ensures
        next is AskRange <==> (reply matches Ok(reply) && (reply.status == 401 || reply.status
            == 403 || reply.status == 501)),
        next matches AfterHead::AskRange(request) ==> asks_as(
            request.deep_view(),
            item.deep_view(),
            Method::Get,
            seq![("Range"@, "bytes=0-"@)],
        ),
        next matches AfterHead::Done(done) ==> outcome(done) == outcome(info),
        match reply {
            Ok(reply) => if 200 <= reply.status < 400 {
                &&& info matches Ok(info)
                &&& info.size == told_size(reply.headers.deep_view())
                &&& reply.headers.content_type matches Some(mime_type) ==> info.mime_type@
                    == mime_type@
                &&& reply.headers.content_type is None ==> info.mime_type@.len() == 0
                &&& info.filename is None
            } else {
                failed_with(
                    info,
                    "Head request to content failed with status ["@ + decimal(
                        reply.status as nat,
                    ) + "]"@,
                )
            },
            Err(report) => info matches Err(error) && error.deep_view()
                == ErrorView::ReqwestError(report.deep_view()),
        },
{
    reveal_strlit("");
    if let AfterHead::AskRange(request) = next {
        assert(request.deep_view().headers =~= seq![("Range"@, "bytes=0-"@)]
            + item.deep_view().headers);
    }
}

/// The content that an address is made for is the first that the channel manager found; the address
/// is that of the encrypted one at the pull zone of the settings.
pub proof fn law_channel_addresses(
    service: &ChannelManager,
    settings: &Settings,
    query: &ContentRetrievalQuery,
    answer: Result<Vec<ContentItem>, String>,
    item: Result<ContentItem, ServiceError>,
    encrypted: &str,
    url: String,
)
    requires
        call_ensures(ChannelManager::content_found, (service, query, answer), item),
        call_ensures(ChannelManager::channel_url, (service, settings, encrypted), url),
    ensures
        item is Ok <==> (answer matches Ok(items) && items@.len() > 0),
        item matches Ok(item) ==> item.deep_view() == answer->Ok_0@[0].deep_view(),
        answer matches Err(shown) ==> (item matches Err(error) && error.deep_view()
            == ErrorView::ClientCallError(shown@)),
        answer is Ok && item is Err ==> (item matches Err(ServiceError::NotFoundError(message))
            && message@ == "Content not found in channel manager. Channel ID = ["@
            + query.channel_id@ + "], Content URI = ["@ + query.content_uri@ + "]"@),
        url@ == "https://"@ + settings.bunny_pull_zone_domain@ + "/channel/"@ + encrypted@,
{
    if let Ok(items) = answer {
        if items@.len() > 0 {
            assert(items.deep_view()[0] == items@[0].deep_view());
        }
    }
}

/// There is one channel manager, which is neither created nor changed nor deleted. A URI is one of
/// a channel exactly where it begins as one; it is stored and made again as it is.
pub proof fn law_channel_uris(
    service: &ChannelManager,
    settings: &Settings,
    uri: &str,
    config: &AdapterConfig,
    adapter_id: &str,
    old_config: AdapterConfig,
    new_config: AdapterConfig,
    has_linked_alias: bool,
    content_id: Option<String>,
    representation_type: Option<String>,
    alias: Option<String>,
    slug: Option<String>,
    is_dynamic: bool,
    stripped: Result<String, ServiceError>,
    full: Result<String, ServiceError>,
    valid: bool,
    created: Result<ChannelTask, ServiceError>,
    updated: Result<ChannelTask, ServiceError>,
    deleted: Result<ChannelTask, ServiceError>,
    default_config: AdapterConfig,
)
    requires
        call_ensures(ChannelManager::strip_uri, (service, uri), stripped),
        call_ensures(
            ChannelManager::reconstruct_uri,
            (
                service,
                settings,
                uri,
                config,
                content_id,
                representation_type,
                alias,
                slug,
                is_dynamic,
            ),
            full,
        ),
        call_ensures(ChannelManager::is_valid_uri, (service, settings, uri), valid),
        call_ensures(
            ChannelManager::create_adapter,
            (service, settings, adapter_id, new_config),
            created,
        ),
        call_ensures(
            ChannelManager::update_adapter,
            (service, old_config, new_config, has_linked_alias),
            updated,
        ),
        call_ensures(ChannelManager::delete_adapter, (service, old_config), deleted),
        call_ensures(ChannelManager::get_default_config, (service, settings), default_config),
    ensures
        stripped matches Ok(stripped) && stripped@ == uri@,
        full matches Ok(full) && full@ == uri@,
        valid <==> "chnltyp::"@.is_prefix_of(uri@),
        refused_with(created, "Channel manager adapter creation is not supported"@),
        refused_with(updated, "Channel manager adapter updating is not supported"@),
        refused_with(deleted, "Channel manager adapter deletion is not supported"@),
        default_config.deep_view() == AdapterConfigView::ChannelManager,
{
    reveal_strlit("chnltyp");
    reveal_strlit("::");
    reveal_strlit("chnltyp::");
    assert("chnltyp"@ + "::"@ =~= "chnltyp::"@);
}

/// Nothing is purged from a channel, uploaded or staged to it, whatever is asked for.
pub proof fn law_channels_are_only_read(
    service: &ChannelManager,
    settings: &Settings,
    ctx: &CallContext,
    uri: &str,
    config: AdapterConfig,
    options: GenerateUploadUrlOptions,
    from: FromStageInfo,
    to_alias: Option<String>,
    to_representation_type: Option<String>,
    purge: Result<ChannelTask, ServiceError>,
    purge_url: Result<ChannelTask, ServiceError>,
    upload: Result<ChannelTask, ServiceError>,
    stage: Result<ChannelTask, ServiceError>,
    filename: Option<String>,
)
    requires
        call_ensures(ChannelManager::purge, (service, settings, uri, config), purge),
        call_ensures(ChannelManager::purge_by_url, (service, uri), purge_url),
        call_ensures(
            ChannelManager::generate_upload_url,
            (service, settings, ctx, config, options),
            upload,
        ),
        call_ensures(
            ChannelManager::stage,
            (service, settings, ctx, config, from, to_alias, to_representation_type),
            stage,
        ),
        call_ensures(ChannelManager::get_filename_from_uri, (service, uri), filename),
    ensures
        purge matches Err(ServiceError::ForbiddenError),
        purge_url matches Err(ServiceError::ForbiddenError),
        upload matches Err(ServiceError::ForbiddenError),
        stage matches Err(ServiceError::ForbiddenError),
        filename is None,
{
}

} // verus!
