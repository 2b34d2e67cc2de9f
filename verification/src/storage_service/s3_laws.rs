//! What becomes of contents in S3 buckets.
use vstd::prelude::*;
use crate::error::{forbidden, outcome, CauseView, ErrorView, ServiceError};
use crate::http::{HttpRequest, Method, PayloadView};
use crate::json::{json_text, reads_as, JsonView};
use crate::order::pairs_in_order;
use crate::reading::{failed_with, header_values, refused_with, was_refused};
use crate::storage_service::aws_s3_service::{
    decoded_tagging, filled, law_tagging_is_decoded_to_metadata, optional_tagging, tag_of,
    tagging_of, tags_of, text_map, AwsS3Service, S3Stage, S3Staged, S3Task, S3Upload, S3UploadUrl,
};
use crate::storage_service::head::{
    collected, lemma_all_collected, lemma_collected, lemma_collected_error,
};
use crate::storage_service::s3_transfer::{
    after_pieces, content_uploaded, describe_object, head_object_failed, joined,
    law_upload_is_complete, locate_object, with_transient_retry, AfterFailure, S3Object, SdkFailure, SdkFault, UploadFault,
    UploadStream,
};
use crate::storage_service::s3_uri::{law_parts_of_uri, law_uri_of_parts, AwsS3Uri};
use crate::storage_service::storage_service_trait::{
    ContentRepresentationInfo, FromStageInfo, GenerateUploadUrlOptions, GenerateUploadUrlResult,
    Settings, StageItemResult, StorageServiceTrait,
};
use crate::storage_service_factory::get_adapter_type_from_id;
use crate::text::trimmed;
use crate::types::{
    unique_keys, AdapterConfig, AdapterConfigView, AdapterType, CallContext,
    ContentHeadInfo, Metadata, RetrieveProperties,
};

verus! {

/// Metadata that an object can carry as tags: at most ten entries, with keys of 1 to 128 characters
/// and values of up to 256.
pub open spec fn can_be_tags(metadata: Seq<(Seq<char>, Seq<char>)>) -> bool {
    &&& metadata.len() <= 10
    &&& forall|i: int|
        0 <= i < metadata.len() ==> 1 <= (#[trigger] metadata[i]).0.len() <= 128
            && metadata[i].1.len() <= 256
}

/// The entries of optional metadata.
pub open spec fn entries_of(metadata: Option<Seq<(Seq<char>, Seq<char>)>>) -> Seq<
    (Seq<char>, Seq<char>),
> {
    match metadata {
        Some(entries) => entries,
        None => Seq::empty(),
    }
}

/// The tagging carries exactly the metadata: nothing where there is none, and otherwise a text that
/// is decoded to it.
pub open spec fn carries(tagging: Option<Seq<char>>, metadata: Seq<(Seq<char>, Seq<char>)>) -> bool {
    match tagging {
        Some(tagging) => metadata.len() > 0 && decoded_tagging(tagging).to_multiset()
            == metadata.to_multiset(),
        None => metadata.len() == 0,
    }
}

proof fn lemma_tagging(metadata: Seq<(Seq<char>, Seq<char>)>)
    requires
        unique_keys(metadata),
    ensures
        tagging_of(metadata) is Ok <==> can_be_tags(metadata),
        tagging_of(metadata) matches Ok(tagging) ==> carries(tagging, metadata),
        tagging_of(metadata) matches Err(error) ==> error is InvalidRequestParameters,
{
    law_tagging_is_decoded_to_metadata(metadata);
    if 0 < metadata.len() <= 10 {
        let sorted = pairs_in_order(metadata);
        let leq = crate::order::pair_order();
        crate::order::lemma_pair_order();
        metadata.lemma_sort_by_ensures(leq);
        metadata.to_multiset_ensures();
        sorted.to_multiset_ensures();
        let tags = tags_of(sorted);
        if can_be_tags(metadata) {
            assert forall|i: int| 0 <= i < tags.len() implies (#[trigger] tags[i]) is Ok by {
                assert(sorted.contains(sorted[i]));
                assert(sorted.to_multiset().contains(sorted[i]));
                assert(metadata.contains(sorted[i]));
                let k = metadata.index_of(sorted[i]);
                assert(metadata[k] == sorted[i]);
                assert(tags[i] == tag_of(sorted[i]));
            }
            lemma_all_collected(tags);
        }
        lemma_collected(tags);
        if collected(tags) is Ok {
            assert forall|i: int| 0 <= i < metadata.len() implies 1 <= (
            #[trigger] metadata[i]).0.len() <= 128 && metadata[i].1.len() <= 256 by {
                assert(metadata.contains(metadata[i]));
                assert(metadata.to_multiset().contains(metadata[i]));
                assert(sorted.contains(metadata[i]));
                let k = sorted.index_of(metadata[i]);
                assert(tags[k] == tag_of(sorted[k]));
                assert(tags[k] == Ok::<Seq<char>, ErrorView>(collected(tags)->Ok_0[k]));
            }
        } else {
            lemma_collected_error(tags);
            let k = choose|k: int|
                0 <= k < tags.len() && #[trigger] tags[k] == Err::<Seq<char>, ErrorView>(
                    collected(tags)->Err_0,
                );
            assert(tags[k] == tag_of(sorted[k]));
        }
    }
}

proof fn lemma_optional_tagging(metadata: Option<Seq<(Seq<char>, Seq<char>)>>)
    requires
        unique_keys(entries_of(metadata)),
    ensures
        optional_tagging(metadata) is Ok <==> can_be_tags(entries_of(metadata)),
        optional_tagging(metadata) matches Ok(tagging) ==> carries(tagging, entries_of(metadata)),
        optional_tagging(metadata) matches Err(error) ==> error is InvalidRequestParameters,
{
    lemma_tagging(entries_of(metadata));
}

/// Metadata is written as a tagging exactly where it can be tags, and the tagging is decoded to it.
pub proof fn law_metadata_becomes_a_tagging(
    metadata: &Metadata,
    tagging: Result<Option<String>, ServiceError>,
)
    requires
        unique_keys(metadata.deep_view()),
        call_ensures(AwsS3Service::build_tagging_from_metadata, (metadata,), tagging),
    ensures
        tagging is Ok <==> can_be_tags(metadata.deep_view()),
        tagging is Err ==> was_refused(tagging),
        tagging matches Ok(tagging) ==> carries(tagging.deep_view(), metadata.deep_view()),
{
    lemma_tagging(metadata.deep_view());
}

/// The one request that stores an uploaded content goes to the signed address, carries all of the
/// content, names its type, and tags the object: its tagging is decoded to exactly the metadata
/// that the content has at its origin, and it has none exactly where there is no metadata. An
/// upload fails before that exactly where the metadata cannot be tags.
pub proof fn law_uploads_are_tagged_with_the_metadata(
    upload: &S3Upload,
    target: GenerateUploadUrlResult,
    stream: Result<UploadStream, ServiceError>,
    incoming: Seq<Seq<u8>>,
    full: UploadStream,
    request: HttpRequest,
)
    requires
        unique_keys(entries_of(upload.from.metadata.deep_view())),
        call_ensures(S3Upload::stream, (upload, target), stream),
        stream matches Ok(begun) ==> full.deep_view() == after_pieces(begun.deep_view(), incoming),
        call_ensures(UploadStream::finish, (full,), request),
    ensures
        stream is Ok <==> can_be_tags(entries_of(upload.from.metadata.deep_view())),
        stream is Err ==> was_refused(stream),
        stream is Ok ==> {
            let metadata = entries_of(upload.from.metadata.deep_view());
            let request = request.deep_view();
            let taggings = header_values(request.headers, "x-amz-tagging"@);
            &&& request.method == Method::Put
            &&& request.url == target.upload_url@
            &&& request.payload == PayloadView::Bytes(joined(incoming))
            &&& header_values(request.headers, "content-type"@) == seq![upload.from.mime_type@]
            &&& request.headers.len() == 1 + taggings.len()
            &&& taggings.len() == 0 <==> metadata.len() == 0
            &&& taggings.len() <= 1
            &&& taggings.len() == 1 ==> decoded_tagging(taggings[0]).to_multiset()
                == metadata.to_multiset()
            &&& full.content_uri@ == target.content_uri@
        },
{
    lemma_optional_tagging(upload.from.metadata.deep_view());
    if let Ok(begun) = stream {
        law_upload_is_complete(begun.deep_view(), incoming);
        reveal_strlit("x-amz-tagging");
        reveal_strlit("content-type");
        reveal_with_fuel(header_values, 3);
        let headers = request.deep_view().headers;
        assert("x-amz-tagging"@[0] == 'x' && "content-type"@[0] == 'c');
        if full.tagging is Some {
            assert(headers.drop_last() =~= seq![("content-type"@, upload.from.mime_type@)]);
            assert(headers.drop_last().drop_last() =~= seq![]);
        } else {
            assert(headers.drop_last() =~= seq![]);
        }
        assert(header_values(headers, "content-type"@) =~= seq![upload.from.mime_type@]);
    }
}

/// Staging a content to S3, and uploading one, hands on everything that is known of the content: it
/// is fetched from the adapter that it lies in, as it is described there, and goes to the adapter
/// that was asked for, under its identifier and its file name and with its type and its metadata.
/// What is stored is of the type of representation that was asked for, or of that at the origin.
pub proof fn law_staging_uploads_the_content_of_the_origin(
    service: &AwsS3Service,
    settings: &Settings,
    ctx: &CallContext,
    to_config: AdapterConfig,
    from: FromStageInfo,
    to_alias: Option<String>,
    to_representation_type: Option<String>,
    task: Result<S3Task, ServiceError>,
    adapter_id: &str,
    from_type: Option<AdapterType>,
)
    requires
        call_ensures(
            AwsS3Service::stage,
            (service, settings, ctx, to_config, from, to_alias, to_representation_type),
            task,
        ),
        adapter_id@ == from.adapter_id@,
        call_ensures(get_adapter_type_from_id, (settings, adapter_id), from_type),
    ensures
        task is Ok <==> to_alias is None && from_type is Some,
        to_alias is Some ==> was_refused(task),
        task is Ok ==> {
            let info = from.content_representation_info.deep_view();
            let to_type = match to_representation_type {
                Some(to_type) => to_type@,
                None => info.representation_type,
            };
            &&& task matches Ok(S3Task::Stage(stage))
            &&& Some(stage.upload.from_adapter_type) == from_type
            &&& stage.upload.from_adapter_config.deep_view() == from.adapter_config.deep_view()
            &&& stage.upload.from.deep_view() == info
            &&& stage.upload.to_adapter_config.deep_view() == to_config.deep_view()
            &&& stage.upload.options.content_id@ == info.content_id
            &&& stage.upload.options.representation_type@ == to_type
            &&& stage.upload.options.filename@ == info.filename
            &&& stage.upload.options.mime_type@ == info.mime_type
            &&& stage.upload.options.metadata.deep_view() == info.metadata
            &&& stage.representation_type@ == to_type
            &&& stage.filename@ == info.filename
        },
{
}

/// Uploading a content hands on everything that is known of it, as staging does.
pub proof fn law_uploading_hands_on_the_content(
    service: &AwsS3Service,
    settings: &Settings,
    ctx: &CallContext,
    to_config: AdapterConfig,
    from_adapter_id: &str,
    from_config: AdapterConfig,
    from: ContentRepresentationInfo,
    to_representation_type: &str,
    task: Result<S3Task, ServiceError>,
    from_type: Option<AdapterType>,
)
    requires
        call_ensures(
            AwsS3Service::upload_content,
            (
                service,
                settings,
                ctx,
                to_config,
                from_adapter_id,
                from_config,
                from,
                to_representation_type,
            ),
            task,
        ),
        call_ensures(get_adapter_type_from_id, (settings, from_adapter_id), from_type),
    ensures
        task is Ok <==> from_type is Some,
        task is Ok ==> {
            &&& task matches Ok(S3Task::Upload(upload))
            &&& Some(upload.from_adapter_type) == from_type
            &&& upload.from_adapter_config.deep_view() == from_config.deep_view()
            &&& upload.from.deep_view() == from.deep_view()
            &&& upload.to_adapter_config.deep_view() == to_config.deep_view()
            &&& upload.options.content_id@ == from.content_id@
            &&& upload.options.representation_type@ == to_representation_type@
            &&& upload.options.filename@ == from.filename@
            &&& upload.options.mime_type@ == from.mime_type@
            &&& upload.options.metadata.deep_view() == from.metadata.deep_view()
        },
{
}

/// What comes of an upload is the URI that was handed out with the address where everything went
/// well, the report where fetching the content or sending it failed, and what is said of the
/// failure where the content broke off.
pub proof fn law_uploads_come_to_the_uri(
    content_uri: String,
    transfer: Result<(), UploadFault>,
    uri: Result<String, ServiceError>,
)
    requires
        call_ensures(content_uploaded, (content_uri, transfer), uri),
    ensures
        uri is Ok <==> transfer is Ok,
        match transfer {
            Ok(_) => uri matches Ok(uri) && uri@ == content_uri@,
            Err(UploadFault::Fetch(report)) => uri matches Err(error) && error.deep_view()
                == ErrorView::ReqwestError(report.deep_view()),
            Err(UploadFault::Receive(shown)) => uri matches Err(error) && error.deep_view()
                == ErrorView::GeneralError(CauseView::Plain(shown@)),
            Err(UploadFault::Send(report)) => uri matches Err(error) && error.deep_view()
                == ErrorView::ReqwestError(report.deep_view()),
        },
{
}

/// A content that has been uploaded is described by the first head that is found under its URI at
/// the adapter that it was staged to; its stripped URI is its key.
pub proof fn law_staged_contents_are_described(
    stage: S3Stage,
    content_uri: String,
    staged: Result<S3Staged, ServiceError>,
    query: (Vec<String>, Vec<AdapterConfig>),
    infos: Result<Vec<ContentHeadInfo>, ServiceError>,
    item: Result<StageItemResult, ServiceError>,
    bucket_name: Seq<char>,
    object_key: Seq<char>,
)
    requires
        content_uri@ == "s3://"@ + bucket_name + "/"@ + object_key,
        !bucket_name.contains('/'),
        call_ensures(S3Stage::uploaded, (stage, content_uri), staged),
        staged matches Ok(staged) ==> call_ensures(S3Staged::head_query, (&staged,), query)
            && call_ensures(S3Staged::finish, (staged, infos), item),
    ensures
        staged is Ok,
        query.0.deep_view() == seq![content_uri@],
        query.1.deep_view() == seq![stage.upload.to_adapter_config.deep_view()],
        item is Ok <==> (infos matches Ok(infos) && infos@.len() > 0),
        infos matches Err(error) ==> (item matches Err(found) && found.deep_view()
            == error.deep_view()),
        item matches Ok(item) ==> {
            &&& item.uri@ == content_uri@
            &&& item.stripped_uri@ == object_key
            &&& item.representation_type@ == stage.representation_type@
            &&& item.filename@ == stage.filename@
            &&& item.head_info.deep_view() == infos->Ok_0@[0].deep_view()
        },
{
    law_parts_of_uri(bucket_name, object_key);
    if let Ok(found) = infos {
        if found@.len() > 0 {
            assert(found.deep_view()[0] == found@[0].deep_view());
        }
    }
}

/// An address for an upload is asked for exactly where the adapter is one of S3, its bucket has a
/// name without a slash and the metadata can be tags. The content goes into that bucket, under the
/// organization, its identifier, its type of representation and its file name, with the type that
/// it has and its metadata as tags.
pub proof fn law_upload_addresses(
    service: &AwsS3Service,
    settings: &Settings,
    ctx: &CallContext,
    config: AdapterConfig,
    options: GenerateUploadUrlOptions,
    task: Result<S3Task, ServiceError>,
)
    requires
        unique_keys(entries_of(options.metadata.deep_view())),
        call_ensures(
            AwsS3Service::generate_upload_url,
            (service, settings, ctx, config, options),
            task,
        ),
    ensures
        task is Ok <==> {
            &&& config matches AdapterConfig::AwsS3(bucket)
            &&& !bucket.bucket_name@.contains('/')
            &&& can_be_tags(entries_of(options.metadata.deep_view()))
        },
        task is Err ==> was_refused(task),
        task is Ok ==> {
            let bucket = config.deep_view()->AwsS3_0;
            let key = ctx.org_id@ + "/"@ + options.content_id@ + "/"@ + options.representation_type@
                + "/"@ + options.filename@;
            &&& task matches Ok(S3Task::UploadUrl(request))
            &&& request.object.region@ == bucket.region
            &&& request.object.bucket_name@ == bucket.bucket_name
            &&& request.object.object_key@ == key
            &&& request.content_uri@ == "s3://"@ + bucket.bucket_name + "/"@ + key
            &&& request.mime_type@ == options.mime_type@
            &&& request.expires_in_secs == settings.pre_signed_url_expiration_time
            &&& carries(request.tagging.deep_view(), entries_of(options.metadata.deep_view()))
        },
{
    lemma_optional_tagging(options.metadata.deep_view());
    if let AdapterConfigView::AwsS3(bucket) = config.deep_view() {
        let key = ctx.org_id@ + "/"@ + options.content_id@ + "/"@ + options.representation_type@
            + "/"@ + options.filename@;
        let uri = "s3://"@ + bucket.bucket_name + "/"@ + key;
        if !bucket.bucket_name.contains('/') {
            law_parts_of_uri(bucket.bucket_name, key);
        } else {
            lemma_bucket_has_no_slash(uri);
        }
    }
}

proof fn lemma_bucket_has_no_slash(uri: Seq<char>)
    ensures
        crate::storage_service::s3_uri::s3_parts(uri) matches Ok(parts)
            ==> !parts.bucket_name.contains('/'),
{
    reveal_strlit("s3://");
    reveal_strlit("/");
    if let Ok(parts) = crate::storage_service::s3_uri::s3_parts(uri) {
        let rest = uri.skip(5);
        crate::text::lemma_find_text(rest, "/"@);
        let at = crate::text::find_text(rest, "/"@)->0;
        if parts.bucket_name.contains('/') {
            let i = parts.bucket_name.index_of('/');
            assert(rest[i] == '/');
            assert(rest.subrange(i, i + 1) =~= "/"@);
            assert(crate::text::occurs_at(rest, "/"@, i));
        }
    }
}

proof fn lemma_after_last(s: Seq<char>, c: char)
    ensures
        !crate::text::after_last(s, c).contains(c),
        s.contains(c) ==> s.take(s.len() - crate::text::after_last(s, c).len()).len() > 0
            && s.take(s.len() - crate::text::after_last(s, c).len()).last() == c && s == s.take(
            s.len() - crate::text::after_last(s, c).len(),
        ) + crate::text::after_last(s, c),
        !s.contains(c) ==> crate::text::after_last(s, c) == s,
    decreases s.len(),
{
    let tail = crate::text::after_last(s, c);
    if s.len() > 0 {
        let front = s.drop_last();
        if s.last() == c {
            assert(s[s.len() - 1] == c);
            assert(tail =~= Seq::empty());
            assert(s =~= s.take(s.len() - tail.len()) + tail);
        } else {
            lemma_after_last(front, c);
            let before = crate::text::after_last(front, c);
            assert(tail =~= before.push(s.last()));
            assert(!tail.contains(c)) by {
                if tail.contains(c) {
                    let i = tail.index_of(c);
                    if i < before.len() {
                        assert(before[i] == c);
                    }
                }
            }
            if front.contains(c) {
                let head = s.take(s.len() - tail.len());
                assert(before.len() <= front.len());
                assert(front.take(front.len() - before.len()) =~= head);
                assert(front == head + before);
                assert(s =~= front.push(s.last()));
                assert((head + before).push(s.last()) =~= head + tail);
                assert(s =~= s.take(s.len() - tail.len()) + tail);
                assert(s.contains(c)) by {
                    let i = front.index_of(c);
                    assert(s[i] == c);
                }
            } else {
                assert(!s.contains(c)) by {
                    if s.contains(c) {
                        let i = s.index_of(c);
                        assert(front[i] == c);
                    }
                }
                assert(tail =~= s);
            }
        }
    }
}

/// A text is taken apart as a URI of S3 exactly where it is one: the scheme, the name of a bucket
/// without a slash, a slash, and a key. The file name is what stands after the last slash.
pub proof fn law_uris_are_taken_apart(
    uri: &str,
    parts: Result<AwsS3Uri, ServiceError>,
    valid: bool,
    bucket_name: Seq<char>,
    object_key: Seq<char>,
)
    requires
        call_ensures(AwsS3Uri::parse, (uri,), parts),
        call_ensures(AwsS3Uri::is_valid, (uri,), valid),
    ensures
        uri@ == "s3://"@ + bucket_name + "/"@ + object_key && !bucket_name.contains('/') ==> (
        parts matches Ok(parts) && parts.bucket_name@ == bucket_name && parts.object_key@
            == object_key),
        parts matches Ok(parts) ==> {
            let rest = parts.bucket_name@ + "/"@ + parts.object_key@;
            let cut = rest.len() - parts.filename@.len();
            &&& uri@ == "s3://"@ + rest
            &&& !parts.bucket_name@.contains('/')
            &&& !parts.filename@.contains('/')
            &&& cut > 0 && rest[cut - 1] == '/'
            &&& rest.skip(cut) == parts.filename@
        },
        parts is Err ==> was_refused(parts),
        valid <==> parts is Ok,
{
    if !bucket_name.contains('/') {
        law_parts_of_uri(bucket_name, object_key);
    }
    law_uri_of_parts(uri@);
    lemma_bucket_has_no_slash(uri@);
    if let Ok(found) = parts {
        reveal_strlit("s3://");
        reveal_strlit("/");
        let rest = found.bucket_name@ + "/"@ + found.object_key@;
        assert(uri@ =~= "s3://"@ + rest);
        assert(uri@.skip(5) =~= rest);
        lemma_after_last(rest, '/');
        assert(rest[found.bucket_name@.len() as int] == '/');
        let cut = rest.len() - found.filename@.len();
        assert(rest.take(cut).last() == rest[cut - 1]);
        assert(rest.skip(cut) =~= found.filename@);
    }
}

/// An object is one of an adapter exactly where the URI names the bucket of the adapter. Purging
/// deletes that object, and an address to fetch it is signed for it; the address tells the type
/// that is recorded and the file name, for which that of the object stands where it is blank.
pub proof fn law_objects_lie_in_the_bucket_of_the_adapter(
    service: &AwsS3Service,
    settings: &Settings,
    content_uri: &str,
    config: AdapterConfig,
    properties: Option<RetrieveProperties>,
    described: Option<ContentRepresentationInfo>,
    now_secs: u64,
    parts: Result<AwsS3Uri, ServiceError>,
    purge: Result<S3Task, ServiceError>,
    fetch: Result<S3Task, ServiceError>,
)
    requires
        call_ensures(AwsS3Uri::parse, (content_uri,), parts),
        call_ensures(AwsS3Service::purge, (service, settings, content_uri, config), purge),
        call_ensures(
            AwsS3Service::generate_pre_signed_url,
            (service, settings, content_uri, config, properties, described, now_secs),
            fetch,
        ),
    ensures
        purge is Ok <==> {
            &&& config matches AdapterConfig::AwsS3(bucket)
            &&& parts matches Ok(parts)
            &&& parts.bucket_name@ == bucket.bucket_name@
        },
        fetch is Ok <==> purge is Ok,
        purge is Err ==> was_refused(purge) && was_refused(fetch),
        purge is Ok ==> {
            let parts = parts->Ok_0;
            let region = config.deep_view()->AwsS3_0.region;
            &&& purge matches Ok(S3Task::Purge(object))
            &&& fetch matches Ok(S3Task::PreSign(signing))
            &&& object.region@ == region && signing.object.region@ == region
            &&& object.bucket_name@ == parts.bucket_name@ && signing.object.bucket_name@
                == parts.bucket_name@
            &&& object.object_key@ == parts.object_key@ && signing.object.object_key@
                == parts.object_key@
            &&& signing.object.filename@ == parts.filename@
            &&& signing.expires_in_secs == settings.pre_signed_url_expiration_time
            &&& signing.described is Some <==> described is Some
            &&& described matches Some(info) ==> {
                &&& signing.described->0.mime_type@ == info.mime_type@
                &&& signing.described->0.filename@ == (if trimmed(info.filename@).len() == 0 {
                    parts.filename@
                } else {
                    info.filename@
                })
            }
        },
{
}

/// Heads are asked for objects in order, one for each pair of a URI and a configuration; each is
/// the object that purging would delete, and what is no object of its adapter fails as that does.
pub proof fn law_heads_are_asked_for_objects(
    service: &AwsS3Service,
    settings: &Settings,
    content_uris: &Vec<String>,
    configs: &Vec<AdapterConfig>,
    now_secs: u64,
    task: Result<S3Task, ServiceError>,
    at: int,
    content_uri: &str,
    purge: Result<S3Task, ServiceError>,
)
    requires
        call_ensures(
            AwsS3Service::retrieve_head_infos,
            (service, settings, content_uris, configs, now_secs),
            task,
        ),
        0 <= at < content_uris@.len(),
        at < configs@.len(),
        content_uri@ == content_uris@[at]@,
        call_ensures(AwsS3Service::purge, (service, settings, content_uri, configs@[at]), purge),
    ensures
        task matches Ok(S3Task::HeadInfos(objects)) && {
            &&& objects@.len() <= content_uris@.len() && objects@.len() <= configs@.len()
            &&& objects@.len() == content_uris@.len() || objects@.len() == configs@.len()
            &&& match purge {
                Ok(S3Task::Purge(object)) => objects@[at] matches Ok(found) && found.deep_view()
                    == object.deep_view(),
                Ok(_) => false,
                Err(error) => objects@[at] matches Err(found) && found.deep_view()
                    == error.deep_view(),
            }
        },
{
    let objects = task->Ok_0->HeadInfos_0;
    let views = crate::storage_service::head::outcomes(objects@);
    assert(views.len() == objects@.len());
    assert(views[at] == outcome(objects@[at]));
}

/// The headers of a signed address that an upload must send are those that have a value.
pub proof fn law_filled_headers(headers: Seq<(Seq<char>, Seq<char>)>)
    ensures
        forall|header: (Seq<char>, Seq<char>)| #[trigger]
            filled(headers).contains(header) <==> headers.contains(header) && header.1.len() > 0,
        filled(headers).len() <= headers.len(),
    decreases headers.len(),
{
    if headers.len() > 0 {
        let front = headers.drop_last();
        law_filled_headers(front);
        assert forall|header: (Seq<char>, Seq<char>)| #[trigger]
            filled(headers).contains(header) <==> headers.contains(header) && header.1.len() > 0 by {
            assert(filled(front).contains(header) <==> front.contains(header) && header.1.len() > 0);
            if headers.contains(header) && header != headers.last() {
                let i = headers.index_of(header);
                assert(front[i] == header);
            }
            if front.contains(header) {
                let i = front.index_of(header);
                assert(headers[i] == header);
            }
            if headers.last().1.len() > 0 {
                let all = filled(headers);
                assert(all[all.len() - 1] == headers.last());
                if all.contains(header) && header != headers.last() {
                    let i = all.index_of(header);
                    assert(filled(front)[i] == header);
                }
                if filled(front).contains(header) {
                    let i = filled(front).index_of(header);
                    assert(all[i] == header);
                }
            }
            if header == headers.last() {
                assert(headers[headers.len() - 1] == header);
            }
        }
    }
}

/// The value that the last header with a name and a value has.
pub open spec fn last_value(headers: Seq<(Seq<char>, Seq<char>)>, name: Seq<char>) -> Option<
    Seq<char>,
>
    decreases headers.len(),
{
    if headers.len() == 0 {
        None
    } else if headers.last().0 == name && headers.last().1.len() > 0 {
        Some(headers.last().1)
    } else {
        last_value(headers.drop_last(), name)
    }
}

proof fn lemma_text_map(headers: Seq<(Seq<char>, Seq<char>)>, name: Seq<char>)
    ensures
        text_map(filled(headers)).contains_key(name) <==> last_value(headers, name) is Some,
        last_value(headers, name) matches Some(value) ==> text_map(filled(headers))[name]
            == JsonView::Text(value),
    decreases headers.len(),
{
    if headers.len() > 0 {
        lemma_text_map(headers.drop_last(), name);
        if headers.last().1.len() > 0 {
            let all = filled(headers);
            assert(all.drop_last() =~= filled(headers.drop_last()));
        }
    }
}

/// Once an upload address has been signed, it is given out with the URI of the content and with the
/// headers that an upload must send: a text that is read as the document with exactly those signed
/// headers that have a value, of which the last counts for each name, and nothing where there are
/// none.
pub proof fn law_signed_uploads_tell_their_headers(
    request: S3UploadUrl,
    upload_url: String,
    signed_headers: &Vec<(String, String)>,
    result: Result<GenerateUploadUrlResult, ServiceError>,
)
    requires
        call_ensures(
            AwsS3Service::upload_url_signed,
            (request, upload_url, signed_headers),
            result,
        ),
    ensures
        result matches Ok(found) && {
            let headers = signed_headers.deep_view();
            &&& found.upload_url@ == upload_url@
            &&& found.content_uri@ == request.content_uri@
            &&& found.headers is None <==> forall|i: int|
                0 <= i < headers.len() ==> (#[trigger] headers[i]).1.len() == 0
            &&& found.headers matches Some(text) ==> exists|entries: Map<Seq<char>, JsonView>|
                {
                    &&& #[trigger] reads_as(text@, JsonView::Object(entries))
                    &&& text@ == json_text(JsonView::Object(entries))
                    &&& forall|name: Seq<char>| #[trigger]
                        entries.contains_key(name) <==> last_value(headers, name) is Some
                    &&& forall|name: Seq<char>| #[trigger]
                        entries.contains_key(name) ==> entries[name] == JsonView::Text(
                            last_value(headers, name)->0,
                        )
                }
        },
{
    let headers = signed_headers.deep_view();
    let found = result->Ok_0;
    law_filled_headers(headers);
    if filled(headers).len() == 0 {
        assert forall|i: int| 0 <= i < headers.len() implies (#[trigger] headers[i]).1.len()
            == 0 by {
            if headers[i].1.len() > 0 {
                assert(headers.contains(headers[i]));
                assert(filled(headers).contains(headers[i]));
            }
        }
    } else {
        assert(filled(headers).contains(filled(headers)[0]));
        let k = headers.index_of(filled(headers)[0]);
        assert(headers[k].1.len() > 0);
        let entries = text_map(filled(headers));
        assert forall|name: Seq<char>|
            (#[trigger] entries.contains_key(name) <==> last_value(headers, name) is Some) && (
            entries.contains_key(name) ==> entries[name] == JsonView::Text(
                last_value(headers, name)->0,
            )) by {
            lemma_text_map(headers, name);
        }
        assert(reads_as(found.headers->0@, JsonView::Object(entries)));
    }
}

/// A request that failed is sent again where the connection failed and it has been sent at most
/// twice, as the next attempt, after one second and then after two; otherwise the failure is
/// reported, with the operation or the content that it was about.
pub proof fn law_failed_requests(
    operation: &str,
    content_uri: &str,
    attempt: u32,
    failure: &SdkFailure,
    next: AfterFailure,
    head_next: AfterFailure,
)
    requires
        call_ensures(with_transient_retry, (operation, attempt, failure), next),
        call_ensures(head_object_failed, (content_uri, attempt, failure), head_next),
    ensures
        ({
            let again = attempt < 2 && (failure.fault == SdkFault::Dispatch || failure.fault
                == SdkFault::Timeout);
            let delay: u64 = if attempt == 0 {
                1
            } else {
                2
            };
            &&& again ==> next == (AfterFailure::Again {
                attempt: (attempt + 1) as u32,
                delay_secs: delay,
            }) && head_next == next
            &&& !again ==> {
                &&& next matches AfterFailure::GiveUp(error)
                &&& head_next matches AfterFailure::GiveUp(head_error)
                &&& error.deep_view() == ErrorView::GeneralError(
                    CauseView::AwsS3Client("S3 "@ + operation@ + " failed: "@ + failure.shown@),
                )
                &&& head_error.deep_view() == ErrorView::GeneralError(
                    CauseView::AwsS3Client(
                        "S3 HeadObject failed for ["@ + content_uri@ + "]: "@ + failure.shown@,
                    ),
                )
            }
        }),
{
    reveal_with_fuel(crate::storage_service::s3_transfer::transient_delay, 3);
}

/// What is known of an object is the type and the size that its head tells; what it does not tell
/// is empty or zero. A signed address tells its replies how to present the content, and its type
/// unless that is unknown. Purging succeeds exactly where deleting does.
pub proof fn law_objects_are_described(
    settings: &Settings,
    content_type: Option<String>,
    content_length: Option<i64>,
    info: ContentHeadInfo,
    mime_type: String,
    disposition: String,
    overrides: (String, Option<String>),
    reply: Result<(), String>,
    purged: Result<(), ServiceError>,
)
    requires
        call_ensures(describe_object, (content_type, content_length), info),
        call_ensures(
            AwsS3Service::response_overrides,
            (settings, mime_type, disposition),
            overrides,
        ),
        call_ensures(AwsS3Service::purged, (reply,), purged),
    ensures
        content_type matches Some(content_type) ==> info.mime_type@ == content_type@,
        content_type is None ==> info.mime_type@.len() == 0,
        content_length matches Some(length) ==> info.size == (if length >= 0 {
            length as int
        } else {
            0x1_0000_0000_0000_0000 + length
        }),
        content_length is None ==> info.size == 0,
        info.filename is None,
        overrides.0@ == disposition@,
        overrides.1 is None <==> mime_type@ == settings.unknown_mime_type@,
        overrides.1 matches Some(shown) ==> shown@ == mime_type@,
        purged is Ok <==> reply is Ok,
        reply matches Err(shown) ==> (purged matches Err(error) && error.deep_view()
            == ErrorView::GeneralError(CauseView::AwsS3Client(shown@))),
{
    reveal_strlit("");
    if let Some(length) = content_length {
        assert(length < 0 ==> (length as u64) == 0x1_0000_0000_0000_0000 + length) by (bit_vector);
    }
}

/// A bucket is configured and changed by recording what was asked for, and nothing is left to do
/// when it is given up. The one that is there by default is that of the settings.
pub proof fn law_buckets_are_recorded(
    service: &AwsS3Service,
    settings: &Settings,
    adapter_id: &str,
    old_config: AdapterConfig,
    new_config: AdapterConfig,
    has_linked_alias: bool,
    created: Result<S3Task, ServiceError>,
    updated: Result<S3Task, ServiceError>,
    deleted: Result<S3Task, ServiceError>,
    default_config: AdapterConfig,
)
    requires
        call_ensures(
            AwsS3Service::create_adapter,
            (service, settings, adapter_id, new_config),
            created,
        ),
        call_ensures(
            AwsS3Service::update_adapter,
            (service, old_config, new_config, has_linked_alias),
            updated,
        ),
        call_ensures(AwsS3Service::delete_adapter, (service, old_config), deleted),
        call_ensures(AwsS3Service::get_default_config, (service, settings), default_config),
    ensures
        created matches Ok(S3Task::Config(config)) && config.deep_view() == new_config.deep_view(),
        updated matches Ok(S3Task::Config(config)) && config.deep_view() == new_config.deep_view(),
        deleted matches Ok(S3Task::Nothing),
        default_config.deep_view() matches AdapterConfigView::AwsS3(bucket) && bucket.bucket_name
            == settings.s3_bucket@ && bucket.region == settings.aws_region@ && bucket.app_name
            == "app"@ && bucket.verify_pending_on_read is None,
{
}

/// What is stored of a URI is its key, of which the URI is made again with the bucket of the
/// adapter, unless it is a full URI itself. The file name is that of the URI.
pub proof fn law_stored_keys(
    service: &AwsS3Service,
    settings: &Settings,
    uri: &str,
    parts: Result<AwsS3Uri, ServiceError>,
    stripped: Result<String, ServiceError>,
    filename: Option<String>,
    stored: &str,
    config: &AdapterConfig,
    content_id: Option<String>,
    representation_type: Option<String>,
    alias: Option<String>,
    slug: Option<String>,
    is_dynamic: bool,
    full: Result<String, ServiceError>,
)
    requires
        call_ensures(AwsS3Uri::parse, (uri,), parts),
        call_ensures(AwsS3Service::strip_uri, (service, uri), stripped),
        call_ensures(AwsS3Service::get_filename_from_uri, (service, uri), filename),
        call_ensures(
            AwsS3Service::reconstruct_uri,
            (
                service,
                settings,
                stored,
                config,
                content_id,
                representation_type,
                alias,
                slug,
                is_dynamic,
            ),
            full,
        ),
    ensures
        stripped is Ok <==> parts is Ok,
        parts matches Ok(parts) ==> stripped->Ok_0@ == parts.object_key@ && filename is Some
            && filename->0@ == parts.filename@,
        parts is Err ==> filename is None,
        "s3://"@.is_prefix_of(stored@) ==> (full matches Ok(full) && full@ == stored@),
        !"s3://"@.is_prefix_of(stored@) ==> match config.deep_view() {
            AdapterConfigView::AwsS3(bucket) => full matches Ok(full) && full@ == "s3://"@
                + bucket.bucket_name + "/"@ + stored@,
            _ => was_refused(full),
        },
{
}

/// What is wrong with a tag, where anything is.
pub open spec fn fault_of_tag(pair: (Seq<char>, Seq<char>)) -> Option<Seq<char>> {
    if pair.0.len() == 0 {
        Some("AWS S3 object tag keys cannot be empty"@)
    } else if pair.0.len() > 128 {
        Some("AWS S3 object tag key ["@ + pair.0 + "] exceeds 128 characters"@)
    } else if pair.1.len() > 256 {
        Some("AWS S3 object tag value for key ["@ + pair.0 + "] exceeds 256 characters"@)
    } else {
        None
    }
}

/// Metadata that cannot be tags is refused with the reason: too many entries, or what is wrong with
/// one of them.
pub proof fn law_metadata_is_refused_with_a_reason(
    metadata: &Metadata,
    tagging: Result<Option<String>, ServiceError>,
)
    requires
        unique_keys(metadata.deep_view()),
        call_ensures(AwsS3Service::build_tagging_from_metadata, (metadata,), tagging),
    ensures
        metadata.deep_view().len() > 10 ==> refused_with(
            tagging,
            "AWS S3 object tagging supports at most 10 metadata items"@,
        ),
        tagging is Err && metadata.deep_view().len() <= 10 ==> exists|i: int|
            {
                &&& 0 <= i < metadata.deep_view().len()
                &&& fault_of_tag(#[trigger] metadata.deep_view()[i]) is Some
                &&& refused_with(tagging, fault_of_tag(metadata.deep_view()[i])->0)
            },
{
    let entries = metadata.deep_view();
    if tagging is Err && entries.len() <= 10 {
        let sorted = pairs_in_order(entries);
        let leq = crate::order::pair_order();
        crate::order::lemma_pair_order();
        entries.lemma_sort_by_ensures(leq);
        entries.to_multiset_ensures();
        sorted.to_multiset_ensures();
        let tags = tags_of(sorted);
        lemma_collected_error(tags);
        let k = choose|k: int|
            0 <= k < tags.len() && #[trigger] tags[k] == Err::<Seq<char>, ErrorView>(
                collected(tags)->Err_0,
            );
        assert(tags[k] == tag_of(sorted[k]));
        assert(sorted.contains(sorted[k]));
        assert(sorted.to_multiset().contains(sorted[k]));
        assert(entries.contains(sorted[k]));
        let i = entries.index_of(sorted[k]);
        assert(fault_of_tag(entries[i]) is Some);
    }
}

/// What keeps a URI from naming an object of an adapter is told, in this order: an adapter that is
/// none of S3, a text that is no URI of S3, and a bucket that is another one. Staging to an alias
/// and from an adapter of no kind is refused, and so is fetching by an address.
pub proof fn law_objects_are_refused_with_a_reason(
    service: &AwsS3Service,
    settings: &Settings,
    ctx: &CallContext,
    content_uri: &str,
    config: AdapterConfig,
    from: FromStageInfo,
    to_alias: Option<String>,
    to_representation_type: Option<String>,
    object: Result<S3Object, ServiceError>,
    parts: Result<AwsS3Uri, ServiceError>,
    purge: Result<S3Task, ServiceError>,
    stage: Result<S3Task, ServiceError>,
    purge_url: Result<S3Task, ServiceError>,
    valid: bool,
    options: GenerateUploadUrlOptions,
    upload: Result<S3Task, ServiceError>,
)
    requires
        call_ensures(locate_object, (content_uri, &config), object),
        call_ensures(AwsS3Uri::parse, (content_uri,), parts),
        call_ensures(AwsS3Service::purge, (service, settings, content_uri, config), purge),
        call_ensures(
            AwsS3Service::stage,
            (service, settings, ctx, config, from, to_alias, to_representation_type),
            stage,
        ),
        call_ensures(AwsS3Service::purge_by_url, (service, content_uri), purge_url),
        call_ensures(AwsS3Service::is_valid_uri, (service, settings, content_uri), valid),
        call_ensures(
            AwsS3Service::generate_upload_url,
            (service, settings, ctx, config, options),
            upload,
        ),
    ensures
        parts is Err ==> refused_with(
            parts,
            "Invalid AWS S3 URI ["@ + content_uri@ + "] format"@,
        ),
        valid <==> parts is Ok,
        !(config is AwsS3) ==> refused_with(object, "Invalid AWS S3 Adapter config"@)
            && refused_with(purge, "Invalid AWS S3 Adapter config"@) && refused_with(
            upload,
            "Invalid AWS S3 Adapter config"@,
        ),
        config.deep_view() matches AdapterConfigView::AwsS3(bucket) ==> {
            let mismatch = "Content URI = ["@ + content_uri@ + "] and Bucket Name = ["@
                + bucket.bucket_name + "] are mismatched"@;
            match parts {
                Err(_) => {
                    let reason = "Invalid AWS S3 URI ["@ + content_uri@ + "] format"@;
                    refused_with(object, reason) && refused_with(purge, reason)
                },
                Ok(parts) => parts.bucket_name@ != bucket.bucket_name ==> refused_with(
                    object,
                    mismatch,
                ) && refused_with(purge, mismatch),
            }
        },
        to_alias is Some ==> refused_with(stage, "Stage to alias is not supported for AWS S3"@),
        to_alias is None && stage is Err ==> failed_with(stage, "Invalid adapter ID"@),
        forbidden(purge_url),
{
}

/// Where nothing is found of a content that has been uploaded, the failure names its URI.
pub proof fn law_lost_uploads_are_named(
    staged: S3Staged,
    infos: Vec<ContentHeadInfo>,
    item: Result<StageItemResult, ServiceError>,
)
    requires
        infos@.len() == 0,
        call_ensures(S3Staged::finish, (staged, Ok(infos)), item),
    ensures
        failed_with(
            item,
            "Failed to get head info for Content URI: ["@ + staged.content_uri@ + "]"@,
        ),
{
    assert(infos.deep_view().len() == infos@.len());
}

} // verus!
