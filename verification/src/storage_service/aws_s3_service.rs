//! Contents in S3 buckets.
use vstd::prelude::*;
use crate::encoding::{
    law_encoded_text_is_decoded, law_encoded_text_separates_nothing, percent_decoded,
    percent_encoded, url_encode,
};
use crate::error::{
    aws_s3_client_error, forbidden, general, general_error, invalid, outcome, ErrorView,
    ServiceError,
};
use crate::http::{with_header, HttpRequest, Method, PayloadView, RequestView};
use crate::json::{holds_texts, json_text, reads_as, Json, JsonView};
use crate::order::{pairs_in_order, sort_pairs};
use crate::storage_service::head::{collect_results, collected, lemma_collected, outcomes};
use crate::storage_service::s3_transfer::{
    after_pieces, joined, law_upload_is_complete, locate_object, object_of, upload_fault_error,
    upload_outcome, upload_request, S3Object, S3ObjectView, UploadFault, UploadStream,
    UploadStreamView,
};
use crate::storage_service::s3_uri::{object_uri, s3_parts, s3_uri, AwsS3Uri};
use crate::storage_service::storage_service_trait::{
    copy_metadata, ContentRepresentationInfo, FromStageInfo, FromStageView,
    GenerateUploadUrlOptions, GenerateUploadUrlResult, RepresentationView, Settings,
    StageItemResult, StageItemView, StorageServiceTrait, UploadOptionsView, UploadUrlView,
};
use crate::storage_service_factory::{adapter_type_of, get_adapter_type_from_id};
use crate::text::{
    cat3, cat7, join, join_text, law_joined_parts_are_split, same_text, split_text, starts_with,
    text_le, to_chars, trim, trimmed,
};
use crate::types::{
    unique_keys, AdapterConfig, AdapterConfigView, AdapterType, AwsS3Config, AwsS3ConfigView,
    CallContext, ContentHeadInfo, HeadInfoView, Metadata, RetrieveProperties,
};

verus! {

/// An object carries at most this many tags.
pub const AWS_S3_MAX_OBJECT_TAGS: usize = 10;

/// The key of a tag has at most this many characters.
pub const AWS_S3_MAX_TAG_KEY_CHARS: usize = 128;

/// The value of a tag has at most this many characters.
pub const AWS_S3_MAX_TAG_VALUE_CHARS: usize = 256;

/// The service for contents in S3 buckets.
#[derive(Debug, Default)]
pub struct AwsS3Service {}

/// How a tag is written in the tagging of an object, or why it cannot be one.
pub open spec fn tag_of(pair: (Seq<char>, Seq<char>)) -> Result<Seq<char>, ErrorView> {
    if pair.0.len() == 0 {
        Err(ErrorView::InvalidRequestParameters("AWS S3 object tag keys cannot be empty"@))
    } else if pair.0.len() > AWS_S3_MAX_TAG_KEY_CHARS {
        Err(
            ErrorView::InvalidRequestParameters(
                "AWS S3 object tag key ["@ + pair.0 + "] exceeds 128 characters"@,
            ),
        )
    } else if pair.1.len() > AWS_S3_MAX_TAG_VALUE_CHARS {
        Err(
            ErrorView::InvalidRequestParameters(
                "AWS S3 object tag value for key ["@ + pair.0 + "] exceeds 256 characters"@,
            ),
        )
    } else {
        Ok(percent_encoded(pair.0) + "="@ + percent_encoded(pair.1))
    }
}

/// The tags that metadata is written as, in the order of their keys.
pub open spec fn tags_of(pairs: Seq<(Seq<char>, Seq<char>)>) -> Seq<Result<Seq<char>, ErrorView>> {
    pairs.map_values(|pair: (Seq<char>, Seq<char>)| tag_of(pair))
}

/// The tagging that metadata is written as.
pub open spec fn tagging_of(metadata: Seq<(Seq<char>, Seq<char>)>) -> Result<
    Option<Seq<char>>,
    ErrorView,
> {
    if metadata.len() == 0 {
        Ok(None)
    } else if metadata.len() > AWS_S3_MAX_OBJECT_TAGS {
        Err(
            ErrorView::InvalidRequestParameters(
                "AWS S3 object tagging supports at most 10 metadata items"@,
            ),
        )
    } else {
        match collected(tags_of(pairs_in_order(metadata))) {
            Ok(tags) => Ok(Some(join_text(tags, "&"@))),
            Err(error) => Err(error),
        }
    }
}

/// The tagging that optional metadata is written as.
pub open spec fn optional_tagging(metadata: Option<Seq<(Seq<char>, Seq<char>)>>) -> Result<
    Option<Seq<char>>,
    ErrorView,
> {
    match metadata {
        Some(metadata) => tagging_of(metadata),
        None => Ok(None),
    }
}

/// How a tag is written in the tagging of an object, or why it cannot be one.
fn write_tag(key: &str, value: &str) -> (tag: Result<String, ServiceError>)
    ensures
        outcome(tag) == tag_of((key@, value@)),
{
    let key_chars = to_chars(key);
    if key_chars.len() == 0 {
        return invalid("AWS S3 object tag keys cannot be empty");
    }
    if key_chars.len() > AWS_S3_MAX_TAG_KEY_CHARS {
        let message = cat3("AWS S3 object tag key [", key, "] exceeds 128 characters");
        return invalid(message.as_str());
    }
    let value_chars = to_chars(value);
    if value_chars.len() > AWS_S3_MAX_TAG_VALUE_CHARS {
        let message = cat3("AWS S3 object tag value for key [", key, "] exceeds 256 characters");
        return invalid(message.as_str());
    }
    let key = url_encode(key);
    let value = url_encode(value);
    Ok(cat3(key.as_str(), "=", value.as_str()))
}

/// The headers that have a value.
pub open spec fn filled(headers: Seq<(Seq<char>, Seq<char>)>) -> Seq<(Seq<char>, Seq<char>)>
    decreases headers.len(),
{
    if headers.len() == 0 {
        Seq::empty()
    } else if headers.last().1.len() == 0 {
        filled(headers.drop_last())
    } else {
        filled(headers.drop_last()).push(headers.last())
    }
}

/// The texts by key; the last of a key counts.
pub open spec fn text_map(pairs: Seq<(Seq<char>, Seq<char>)>) -> Map<Seq<char>, JsonView>
    decreases pairs.len(),
{
    if pairs.len() == 0 {
        Map::empty()
    } else {
        text_map(pairs.drop_last()).insert(pairs.last().0, JsonView::Text(pairs.last().1))
    }
}

proof fn lemma_text_map(pairs: Seq<(Seq<char>, Seq<char>)>)
    ensures
        holds_texts(JsonView::Object(text_map(pairs))),
    decreases pairs.len(),
{
    if pairs.len() > 0 {
        lemma_text_map(pairs.drop_last());
    }
}

impl AwsS3Service {
    /// The service.
    pub fn new() -> (service: Self)
        ensures
            service == (AwsS3Service {  }),
    {
        AwsS3Service {  }
    }

    /// The tagging that metadata is written as: the keys in order, keys and values encoded.
    pub fn build_tagging_from_metadata(metadata: &Metadata) -> (tagging: Result<
        Option<String>,
        ServiceError,
    >)
        ensures
            outcome(tagging) == tagging_of(metadata.deep_view()),
    {
        let pairs = metadata.pairs();
        if pairs.len() == 0 {
            return Ok(None);
        }
        if pairs.len() > AWS_S3_MAX_OBJECT_TAGS {
            return invalid("AWS S3 object tagging supports at most 10 metadata items");
        }
        let sorted = sort_pairs(pairs);
        let ghost wanted = tags_of(sorted.deep_view());
        let mut tags: Vec<Result<String, ServiceError>> = Vec::new();
        let mut i: usize = 0;
        while i < sorted.len()
            invariant
                i <= sorted@.len(),
                wanted == tags_of(sorted.deep_view()),
                tags@.len() == i,
                forall|j: int| 0 <= j < i ==> outcome(#[trigger] tags@[j]) == wanted[j],
            decreases sorted@.len() - i,
        {
            let tag = write_tag(sorted[i].0.as_str(), sorted[i].1.as_str());
            assert(outcome(tag) == wanted[i as int]);
            tags.push(tag);
            i += 1;
        }
        assert(outcomes(tags@) =~= wanted);
        match collect_results(tags) {
            Ok(tags) => Ok(Some(join(&tags, "&"))),
            Err(error) => Err(error),
        }
    }

    /// The tagging that optional metadata is written as.
    fn build_tagging(metadata: &Option<Metadata>) -> (tagging: Result<
        Option<String>,
        ServiceError,
    >)
        ensures
            outcome(tagging) == optional_tagging(metadata.deep_view()),
    {
        match metadata {
            Some(metadata) => Self::build_tagging_from_metadata(metadata),
            None => Ok(None),
        }
    }

    /// The request with the header that tags an object, where there is a tagging.
    pub fn add_tagging_header(request: HttpRequest, tagging: Option<&str>) -> (tagged: HttpRequest)
        ensures
            tagged.deep_view() == with_tagging(request.deep_view(), tagging.deep_view()),
    {
        match tagging {
            Some(tagging) => request.header("x-amz-tagging", tagging),
            None => request,
        }
    }

    /// The headers that an upload must send, as the text of a JSON object; none where no header
    /// has a value.
    pub fn build_upload_headers(headers: &Vec<(String, String)>) -> (text: Result<
        Option<String>,
        ServiceError,
    >)
        ensures
            match text {
                Ok(None) => filled(headers.deep_view()).len() == 0,
                Ok(Some(text)) => {
                    let object = JsonView::Object(text_map(filled(headers.deep_view())));
                    filled(headers.deep_view()).len() > 0 && text@ == json_text(object) && reads_as(
                        text@,
                        object,
                    )
                },
                Err(_) => false,
            },
    {
        let mut object = Json::object();
        let mut empty = true;
        let mut i: usize = 0;
        assert(headers.deep_view().take(0) =~= Seq::empty());
        while i < headers.len()
            invariant
                i <= headers@.len(),
                object.deep_view() == JsonView::Object(
                    text_map(filled(headers.deep_view().take(i as int))),
                ),
                empty == (filled(headers.deep_view().take(i as int)).len() == 0),
            decreases headers@.len() - i,
        {
            let ghost upto = headers.deep_view().take(i + 1);
            proof {
                assert(upto.drop_last() =~= headers.deep_view().take(i as int));
                assert(upto.last() == headers.deep_view()[i as int]);
            }
            let value = &headers[i].1;
            if !value.as_str().is_empty() {
                object = object.with(headers[i].0.as_str(), Json::of_text(value.as_str()));
                empty = false;
                assert(filled(upto).drop_last() =~= filled(upto.drop_last()));
            }
            i += 1;
        }
        assert(headers.deep_view().take(i as int) =~= headers.deep_view());
        if empty {
            return Ok(None);
        }
        proof {
            lemma_text_map(filled(headers.deep_view()));
        }
        Ok(Some(object.to_text()))
    }
}

/// The request with the header that tags an object, where there is a tagging.
pub open spec fn with_tagging(request: RequestView, tagging: Option<Seq<char>>) -> RequestView {
    match tagging {
        Some(tagging) => with_header(request, "x-amz-tagging"@, tagging),
        None => request,
    }
}

/// What the type of a content is resolved from when an address to fetch it is generated: what
/// is recorded of it, and its file name.
#[derive(Debug)]
pub struct DescribedContent {
    pub mime_type: String,
    pub filename: String,
}

pub struct DescribedContentView {
    pub mime_type: Seq<char>,
    pub filename: Seq<char>,
}

impl DeepView for DescribedContent {
    type V = DescribedContentView;

    open spec fn deep_view(&self) -> DescribedContentView {
        DescribedContentView { mime_type: self.mime_type@, filename: self.filename@ }
    }
}

/// An object for which an address is to be signed. Where the content is described, its replies
/// carry the headers that follow from the description.
#[derive(Debug)]
pub struct S3PreSign {
    pub object: S3Object,
    pub described: Option<DescribedContent>,
    pub expires_in_secs: u64,
}

pub struct S3PreSignView {
    pub object: S3ObjectView,
    pub described: Option<DescribedContentView>,
    pub expires_in_secs: u64,
}

impl DeepView for S3PreSign {
    type V = S3PreSignView;

    open spec fn deep_view(&self) -> S3PreSignView {
        S3PreSignView {
            object: self.object.deep_view(),
            described: self.described.deep_view(),
            expires_in_secs: self.expires_in_secs,
        }
    }
}

/// The description of a content; the file name of the object stands in for a blank one.
pub open spec fn description_of(
    object: S3ObjectView,
    properties: Option<RepresentationView>,
) -> Option<DescribedContentView> {
    match properties {
        Some(properties) => Some(
            DescribedContentView {
                mime_type: properties.mime_type,
                filename: if trimmed(properties.filename).len() == 0 {
                    object.filename
                } else {
                    properties.filename
                },
            },
        ),
        None => None,
    }
}

/// An upload for which an address is to be signed.
#[derive(Debug)]
pub struct S3UploadUrl {
    pub object: S3Object,
    pub content_uri: String,
    pub mime_type: String,
    pub tagging: Option<String>,
    pub expires_in_secs: u64,
}

pub struct S3UploadUrlView {
    pub object: S3ObjectView,
    pub content_uri: Seq<char>,
    pub mime_type: Seq<char>,
    pub tagging: Option<Seq<char>>,
    pub expires_in_secs: u64,
}

impl DeepView for S3UploadUrl {
    type V = S3UploadUrlView;

    open spec fn deep_view(&self) -> S3UploadUrlView {
        S3UploadUrlView {
            object: self.object.deep_view(),
            content_uri: self.content_uri@,
            mime_type: self.mime_type@,
            tagging: self.tagging.deep_view(),
            expires_in_secs: self.expires_in_secs,
        }
    }
}

/// The key under which a content is stored.
pub open spec fn object_key_for(org_id: Seq<char>, options: UploadOptionsView) -> Seq<char> {
    org_id + "/"@ + options.content_id + "/"@ + options.representation_type + "/"@
        + options.filename
}

/// The upload for which an address is to be signed.
pub open spec fn upload_url_of(
    settings: &Settings,
    org_id: Seq<char>,
    config: AdapterConfigView,
    options: UploadOptionsView,
) -> Result<S3UploadUrlView, ErrorView> {
    match config {
        AdapterConfigView::AwsS3(s3) => {
            let content_uri = s3_uri(s3.bucket_name, object_key_for(org_id, options));
            match object_of(content_uri, config) {
                Err(error) => Err(error),
                Ok(object) => match optional_tagging(options.metadata) {
                    Err(error) => Err(error),
                    Ok(tagging) => Ok(
                        S3UploadUrlView {
                            object,
                            content_uri,
                            mime_type: options.mime_type,
                            tagging,
                            expires_in_secs: settings.pre_signed_url_expiration_time,
                        },
                    ),
                },
            }
        },
        _ => Err(ErrorView::InvalidRequestParameters("Invalid AWS S3 Adapter config"@)),
    }
}

/// A content that is to be uploaded from another adapter: an address to fetch it is to be asked
/// of the service of the given kind, and then an address to upload it of this service.
#[derive(Debug)]
pub struct S3Upload {
    pub from_adapter_type: AdapterType,
    pub from_adapter_config: AdapterConfig,
    pub from: ContentRepresentationInfo,
    pub to_adapter_config: AdapterConfig,
    pub options: GenerateUploadUrlOptions,
}

pub struct S3UploadView {
    pub from_adapter_type: AdapterType,
    pub from_adapter_config: AdapterConfigView,
    pub from: RepresentationView,
    pub to_adapter_config: AdapterConfigView,
    pub options: UploadOptionsView,
}

impl DeepView for S3Upload {
    type V = S3UploadView;

    open spec fn deep_view(&self) -> S3UploadView {
        S3UploadView {
            from_adapter_type: self.from_adapter_type,
            from_adapter_config: self.from_adapter_config.deep_view(),
            from: self.from.deep_view(),
            to_adapter_config: self.to_adapter_config.deep_view(),
            options: self.options.deep_view(),
        }
    }
}

/// How an upload from another adapter begins.
pub open spec fn upload_of(
    settings: &Settings,
    to_adapter_config: AdapterConfigView,
    from_adapter_id: Seq<char>,
    from_adapter_config: AdapterConfigView,
    from: RepresentationView,
    to_representation_type: Seq<char>,
) -> Result<S3UploadView, ErrorView> {
    match adapter_type_of(settings, from_adapter_id) {
        None => Err(general_error("Invalid adapter ID"@)),
        Some(from_adapter_type) => Ok(
            S3UploadView {
                from_adapter_type,
                from_adapter_config,
                from,
                to_adapter_config,
                options: UploadOptionsView {
                    content_id: from.content_id,
                    representation_type: to_representation_type,
                    filename: from.filename,
                    mime_type: from.mime_type,
                    metadata: from.metadata,
                },
            },
        ),
    }
}

/// The upload, once there is an address for it.
pub open spec fn stream_to(upload: S3UploadView, target: UploadUrlView) -> Result<
    UploadStreamView,
    ErrorView,
> {
    match optional_tagging(upload.from.metadata) {
        Err(error) => Err(error),
        Ok(tagging) => Ok(
            UploadStreamView {
                upload_url: target.upload_url,
                content_uri: target.content_uri,
                mime_type: upload.from.mime_type,
                tagging,
                buffer: Seq::empty(),
            },
        ),
    }
}

impl S3Upload {
    /// The stream through which the content goes, once there is an address to upload it.
    pub fn stream(&self, target: GenerateUploadUrlResult) -> (stream: Result<
        UploadStream,
        ServiceError,
    >)
        ensures
            outcome(stream) == stream_to(self.deep_view(), target.deep_view()),
    {
        match AwsS3Service::build_tagging(&self.from.metadata) {
            Ok(tagging) => {
                let buffer: Vec<u8> = Vec::new();
                assert(buffer@ =~= Seq::empty());
                Ok(
                    UploadStream {
                        upload_url: target.upload_url,
                        content_uri: target.content_uri,
                        mime_type: self.from.mime_type.clone(),
                        tagging,
                        buffer,
                    },
                )
            },
            Err(error) => Err(error),
        }
    }
}

/// A content that is being staged: it is to be uploaded first.
#[derive(Debug)]
pub struct S3Stage {
    pub upload: S3Upload,
    pub representation_type: String,
    pub filename: String,
}

pub struct S3StageView {
    pub upload: S3UploadView,
    pub representation_type: Seq<char>,
    pub filename: Seq<char>,
}

impl DeepView for S3Stage {
    type V = S3StageView;

    open spec fn deep_view(&self) -> S3StageView {
        S3StageView {
            upload: self.upload.deep_view(),
            representation_type: self.representation_type@,
            filename: self.filename@,
        }
    }
}

/// How staging to S3 begins.
pub open spec fn stage_of(
    settings: &Settings,
    to_config: AdapterConfigView,
    from: FromStageView,
    to_alias: Option<Seq<char>>,
    to_representation_type: Option<Seq<char>>,
) -> Result<S3StageView, ErrorView> {
    if to_alias is Some {
        Err(
            ErrorView::InvalidRequestParameters("Stage to alias is not supported for AWS S3"@),
        )
    } else {
        let to_type = match to_representation_type {
            Some(to_type) => to_type,
            None => from.content_representation_info.representation_type,
        };
        match upload_of(
            settings,
            to_config,
            from.adapter_id,
            from.adapter_config,
            from.content_representation_info,
            to_type,
        ) {
            Err(error) => Err(error),
            Ok(upload) => Ok(
                S3StageView {
                    upload,
                    representation_type: to_type,
                    filename: from.content_representation_info.filename,
                },
            ),
        }
    }
}

/// What is left of a URI without its bucket.
pub open spec fn stripped_s3_uri(content_uri: Seq<char>) -> Result<Seq<char>, ErrorView> {
    match s3_parts(content_uri) {
        Ok(parts) => Ok(parts.object_key),
        Err(error) => Err(error),
    }
}

/// The full URI of a stripped one. A full URI stays as it is.
pub open spec fn reconstructed_s3_uri(stripped: Seq<char>, config: AdapterConfigView) -> Result<
    Seq<char>,
    ErrorView,
> {
    if "s3://"@.is_prefix_of(stripped) {
        Ok(stripped)
    } else {
        match config {
            AdapterConfigView::AwsS3(config) => Ok(s3_uri(config.bucket_name, stripped)),
            _ => Err(ErrorView::InvalidRequestParameters("Invalid AWS S3 Adapter config"@)),
        }
    }
}

/// A content that has been uploaded: its head is to be retrieved where it was uploaded to.
#[derive(Debug)]
pub struct S3Staged {
    pub content_uri: String,
    pub stripped_uri: String,
    pub adapter_config: AdapterConfig,
    pub representation_type: String,
    pub filename: String,
}

pub struct S3StagedView {
    pub content_uri: Seq<char>,
    pub stripped_uri: Seq<char>,
    pub adapter_config: AdapterConfigView,
    pub representation_type: Seq<char>,
    pub filename: Seq<char>,
}

impl DeepView for S3Staged {
    type V = S3StagedView;

    open spec fn deep_view(&self) -> S3StagedView {
        S3StagedView {
            content_uri: self.content_uri@,
            stripped_uri: self.stripped_uri@,
            adapter_config: self.adapter_config.deep_view(),
            representation_type: self.representation_type@,
            filename: self.filename@,
        }
    }
}

/// What staging has come to, once the content has been uploaded.
pub open spec fn staged_at(stage: S3StageView, content_uri: Seq<char>) -> Result<
    S3StagedView,
    ErrorView,
> {
    match stripped_s3_uri(content_uri) {
        Err(error) => Err(error),
        Ok(stripped_uri) => Ok(
            S3StagedView {
                content_uri,
                stripped_uri,
                adapter_config: stage.upload.to_adapter_config,
                representation_type: stage.representation_type,
                filename: stage.filename,
            },
        ),
    }
}

/// What staging comes to, once the head of the uploaded content has been retrieved.
pub open spec fn staged_item(
    staged: S3StagedView,
    infos: Result<Seq<HeadInfoView>, ErrorView>,
) -> Result<StageItemView, ErrorView> {
    match infos {
        Err(error) => Err(error),
        Ok(infos) => if infos.len() == 0 {
            Err(
                general_error(
                    "Failed to get head info for Content URI: ["@ + staged.content_uri + "]"@,
                ),
            )
        } else {
            Ok(
                StageItemView {
                    uri: staged.content_uri,
                    stripped_uri: staged.stripped_uri,
                    representation_type: staged.representation_type,
                    filename: staged.filename,
                    head_info: infos[0],
                },
            )
        },
    }
}

impl S3Stage {
    /// Takes in the URI under which the content has been uploaded.
    pub fn uploaded(self, content_uri: String) -> (staged: Result<S3Staged, ServiceError>)
        ensures
            outcome(staged) == staged_at(self.deep_view(), content_uri@),
    {
        match AwsS3Uri::parse(content_uri.as_str()) {
            Ok(parts) => Ok(
                S3Staged {
                    content_uri,
                    stripped_uri: parts.object_key,
                    adapter_config: self.upload.to_adapter_config,
                    representation_type: self.representation_type,
                    filename: self.filename,
                },
            ),
            Err(error) => Err(error),
        }
    }
}

impl S3Staged {
    /// What heads are to be retrieved: that of the uploaded content, with the configuration of
    /// the adapter that it was uploaded to.
    pub fn head_query(&self) -> (query: (Vec<String>, Vec<AdapterConfig>))
        ensures
            query.0.deep_view() == seq![self.deep_view().content_uri],
            query.1.deep_view() == seq![self.deep_view().adapter_config],
    {
        let mut uris: Vec<String> = Vec::new();
        uris.push(self.content_uri.clone());
        assert(uris.deep_view() =~= seq![self.content_uri@]);
        let mut configs: Vec<AdapterConfig> = Vec::new();
        configs.push(self.adapter_config.clone());
        assert(configs.deep_view() =~= seq![self.adapter_config.deep_view()]);
        (uris, configs)
    }

    /// What staging comes to, once the head of the uploaded content has been retrieved.
    pub fn finish(self, infos: Result<Vec<ContentHeadInfo>, ServiceError>) -> (item: Result<
        StageItemResult,
        ServiceError,
    >)
        ensures
            outcome(item) == staged_item(self.deep_view(), outcome(infos)),
    {
        let mut infos = match infos {
            Ok(infos) => infos,
            Err(error) => {
                return Err(error);
            },
        };
        if infos.len() == 0 {
            let message = cat3(
                "Failed to get head info for Content URI: [",
                self.content_uri.as_str(),
                "]",
            );
            return general(message.as_str());
        }
        let head_info = infos.remove(0);
        Ok(
            StageItemResult {
                uri: self.content_uri,
                stripped_uri: self.stripped_uri,
                representation_type: self.representation_type,
                filename: self.filename,
                head_info,
            },
        )
    }
}

/// What an operation of the S3 service has left to do.
#[derive(Debug)]
pub enum S3Task {
    /// To ask for the heads of these objects; some contents have failed already.
    HeadInfos(Vec<Result<S3Object, ServiceError>>),
    /// To delete this object.
    Purge(S3Object),
    PreSign(S3PreSign),
    UploadUrl(S3UploadUrl),
    Upload(S3Upload),
    Stage(S3Stage),
    /// Nothing: this is the configuration.
    Config(AdapterConfig),
    Nothing,
}

pub enum S3TaskView {
    HeadInfos(Seq<Result<S3ObjectView, ErrorView>>),
    Purge(S3ObjectView),
    PreSign(S3PreSignView),
    UploadUrl(S3UploadUrlView),
    Upload(S3UploadView),
    Stage(S3StageView),
    Config(AdapterConfigView),
    Nothing,
}

impl DeepView for S3Task {
    type V = S3TaskView;

    open spec fn deep_view(&self) -> S3TaskView {
        match self {
            S3Task::HeadInfos(objects) => S3TaskView::HeadInfos(outcomes(objects@)),
            S3Task::Purge(object) => S3TaskView::Purge(object.deep_view()),
            S3Task::PreSign(pre_sign) => S3TaskView::PreSign(pre_sign.deep_view()),
            S3Task::UploadUrl(upload_url) => S3TaskView::UploadUrl(upload_url.deep_view()),
            S3Task::Upload(upload) => S3TaskView::Upload(upload.deep_view()),
            S3Task::Stage(stage) => S3TaskView::Stage(stage.deep_view()),
            S3Task::Config(config) => S3TaskView::Config(config.deep_view()),
            S3Task::Nothing => S3TaskView::Nothing,
        }
    }
}

/// The objects whose heads are asked for, each in the bucket at the same place. What is left
/// over on either side is left out.
pub open spec fn objects_of(content_uris: Seq<Seq<char>>, configs: Seq<AdapterConfigView>) -> Seq<
    Result<S3ObjectView, ErrorView>,
> {
    Seq::new(
        if content_uris.len() < configs.len() {
            content_uris.len()
        } else {
            configs.len()
        },
        |i: int| object_of(content_uris[i], configs[i]),
    )
}

impl StorageServiceTrait for AwsS3Service {
    type Task = S3Task;

    open spec fn tells_expiration() -> bool {
        false
    }

    fn retrieve_head_infos(
        &self,
        settings: &Settings,
        content_uris: &Vec<String>,
        adapter_configs: &Vec<AdapterConfig>,
        now_secs: u64,
    ) -> (task: Result<S3Task, ServiceError>)
        ensures
            outcome(task) == Ok::<S3TaskView, ErrorView>(
                S3TaskView::HeadInfos(
                    objects_of(content_uris.deep_view(), adapter_configs.deep_view()),
                ),
            ),
    {
        let ghost wanted = objects_of(content_uris.deep_view(), adapter_configs.deep_view());
        let mut objects: Vec<Result<S3Object, ServiceError>> = Vec::new();
        let mut i: usize = 0;
        while i < content_uris.len() && i < adapter_configs.len()
            invariant
                i <= content_uris@.len(),
                i <= adapter_configs@.len(),
                wanted == objects_of(content_uris.deep_view(), adapter_configs.deep_view()),
                objects@.len() == i,
                forall|j: int| 0 <= j < i ==> outcome(#[trigger] objects@[j]) == wanted[j],
            decreases content_uris@.len() - i,
        {
            let object = locate_object(content_uris[i].as_str(), &adapter_configs[i]);
            assert(outcome(object) == wanted[i as int]);
            objects.push(object);
            i += 1;
        }
        assert(outcomes(objects@) =~= wanted);
        Ok(S3Task::HeadInfos(objects))
    }

    fn purge(&self, settings: &Settings, content_uri: &str, adapter_config: AdapterConfig) -> (task:
        Result<S3Task, ServiceError>)
        ensures
            outcome(task) == (match object_of(content_uri@, adapter_config.deep_view()) {
                Ok(object) => Ok::<S3TaskView, ErrorView>(S3TaskView::Purge(object)),
                Err(error) => Err(error),
            }),
    {
        match locate_object(content_uri, &adapter_config) {
            Ok(object) => Ok(S3Task::Purge(object)),
            Err(error) => Err(error),
        }
    }

    fn generate_pre_signed_url(
        &self,
        settings: &Settings,
        content_uri: &str,
        adapter_config: AdapterConfig,
        retrieve_properties: Option<RetrieveProperties>,
        content_repr_properties: Option<ContentRepresentationInfo>,
        now_secs: u64,
    ) -> (task: Result<S3Task, ServiceError>)
        ensures
            outcome(task) == (match object_of(content_uri@, adapter_config.deep_view()) {
                Ok(object) => Ok::<S3TaskView, ErrorView>(
                    S3TaskView::PreSign(
                        S3PreSignView {
                            object,
                            described: description_of(object, content_repr_properties.deep_view()),
                            expires_in_secs: settings.pre_signed_url_expiration_time,
                        },
                    ),
                ),
                Err(error) => Err(error),
            }),
    {
        let object = match locate_object(content_uri, &adapter_config) {
            Ok(object) => object,
            Err(error) => {
                return Err(error);
            },
        };
        let described = match content_repr_properties {
            Some(properties) => {
                let visible = trim(properties.filename.as_str());
                let filename = if visible.as_str().is_empty() {
                    object.filename.clone()
                } else {
                    properties.filename
                };
                Some(DescribedContent { mime_type: properties.mime_type, filename })
            },
            None => None,
        };
        Ok(
            S3Task::PreSign(
                S3PreSign {
                    object,
                    described,
                    expires_in_secs: settings.pre_signed_url_expiration_time,
                },
            ),
        )
    }

    fn generate_upload_url(
        &self,
        settings: &Settings,
        ctx: &CallContext,
        adapter_config: AdapterConfig,
        options: GenerateUploadUrlOptions,
    ) -> (task: Result<S3Task, ServiceError>)
        ensures
            outcome(task) == (match upload_url_of(
                settings,
                ctx.org_id@,
                adapter_config.deep_view(),
                options.deep_view(),
            ) {
                Ok(upload_url) => Ok::<S3TaskView, ErrorView>(S3TaskView::UploadUrl(upload_url)),
                Err(error) => Err(error),
            }),
    {
        let bucket_name = match &adapter_config {
            AdapterConfig::AwsS3(config) => config.bucket_name.clone(),
            _ => {
                return invalid("Invalid AWS S3 Adapter config");
            },
        };
        let object_key = cat7(
            ctx.org_id.as_str(),
            "/",
            options.content_id.as_str(),
            "/",
            options.representation_type.as_str(),
            "/",
            options.filename.as_str(),
        );
        let content_uri = object_uri(bucket_name.as_str(), object_key.as_str());
        let object = match locate_object(content_uri.as_str(), &adapter_config) {
            Ok(object) => object,
            Err(error) => {
                return Err(error);
            },
        };
        let tagging = match Self::build_tagging(&options.metadata) {
            Ok(tagging) => tagging,
            Err(error) => {
                return Err(error);
            },
        };
        Ok(
            S3Task::UploadUrl(
                S3UploadUrl {
                    object,
                    content_uri,
                    mime_type: options.mime_type,
                    tagging,
                    expires_in_secs: settings.pre_signed_url_expiration_time,
                },
            ),
        )
    }

    fn upload_content(
        &self,
        settings: &Settings,
        ctx: &CallContext,
        adapter_config: AdapterConfig,
        from_adapter_id: &str,
        from_adapter_config: AdapterConfig,
        from_content_representation_info: ContentRepresentationInfo,
        to_representation_type: &str,
    ) -> (task: Result<S3Task, ServiceError>)
        ensures
            outcome(task) == (match upload_of(
                settings,
                adapter_config.deep_view(),
                from_adapter_id@,
                from_adapter_config.deep_view(),
                from_content_representation_info.deep_view(),
                to_representation_type@,
            ) {
                Ok(upload) => Ok::<S3TaskView, ErrorView>(S3TaskView::Upload(upload)),
                Err(error) => Err(error),
            }),
    {
        match self.begin_upload(
            settings,
            adapter_config,
            from_adapter_id,
            from_adapter_config,
            from_content_representation_info,
            to_representation_type,
        ) {
            Ok(upload) => Ok(S3Task::Upload(upload)),
            Err(error) => Err(error),
        }
    }

    fn stage(
        &self,
        settings: &Settings,
        ctx: &CallContext,
        adapter_config: AdapterConfig,
        from_stage_info: FromStageInfo,
        to_alias: Option<String>,
        to_representation_type: Option<String>,
    ) -> (task: Result<S3Task, ServiceError>)
        ensures
            outcome(task) == (match stage_of(
                settings,
                adapter_config.deep_view(),
                from_stage_info.deep_view(),
                to_alias.deep_view(),
                to_representation_type.deep_view(),
            ) {
                Ok(stage) => Ok::<S3TaskView, ErrorView>(S3TaskView::Stage(stage)),
                Err(error) => Err(error),
            }),
    {
        if to_alias.is_some() {
            return invalid("Stage to alias is not supported for AWS S3");
        }
        let info = from_stage_info.content_representation_info;
        let representation_type = match to_representation_type {
            Some(representation_type) => representation_type,
            None => info.representation_type.clone(),
        };
        let filename = info.filename.clone();
        match self.begin_upload(
            settings,
            adapter_config,
            from_stage_info.adapter_id.as_str(),
            from_stage_info.adapter_config,
            info,
            representation_type.as_str(),
        ) {
            Ok(upload) => Ok(S3Task::Stage(S3Stage { upload, representation_type, filename })),
            Err(error) => Err(error),
        }
    }

    fn strip_uri(&self, content_uri: &str) -> (stripped: Result<String, ServiceError>)
        ensures
            outcome(stripped) == stripped_s3_uri(content_uri@),
    {
        match AwsS3Uri::parse(content_uri) {
            Ok(parts) => Ok(parts.object_key),
            Err(error) => Err(error),
        }
    }

    fn reconstruct_uri(
        &self,
        settings: &Settings,
        stripped_content_uri: &str,
        adapter_config: &AdapterConfig,
        content_id: Option<String>,
        representation_type: Option<String>,
        alias: Option<String>,
        short_link_slug: Option<String>,
        is_dynamic: bool,
    ) -> (uri: Result<String, ServiceError>)
        ensures
            outcome(uri) == reconstructed_s3_uri(
                stripped_content_uri@,
                adapter_config.deep_view(),
            ),
    {
        if starts_with(stripped_content_uri, "s3://") {
            return Ok(stripped_content_uri.to_string());
        }
        match adapter_config {
            AdapterConfig::AwsS3(config) => Ok(
                object_uri(config.bucket_name.as_str(), stripped_content_uri),
            ),
            _ => invalid("Invalid AWS S3 Adapter config"),
        }
    }

    fn create_adapter(
        &self,
        settings: &Settings,
        adapter_id: &str,
        new_config: AdapterConfig,
    ) -> (task: Result<S3Task, ServiceError>)
        ensures
            outcome(task) == Ok::<S3TaskView, ErrorView>(
                S3TaskView::Config(new_config.deep_view()),
            ),
    {
        Ok(S3Task::Config(new_config))
    }

    fn update_adapter(
        &self,
        old_config: AdapterConfig,
        new_config: AdapterConfig,
        has_linked_alias: bool,
    ) -> (task: Result<S3Task, ServiceError>)
        ensures
            outcome(task) == Ok::<S3TaskView, ErrorView>(
                S3TaskView::Config(new_config.deep_view()),
            ),
    {
        Ok(S3Task::Config(new_config))
    }

    fn delete_adapter(&self, config: AdapterConfig) -> (task: Result<S3Task, ServiceError>)
        ensures
            outcome(task) == Ok::<S3TaskView, ErrorView>(S3TaskView::Nothing),
    {
        Ok(S3Task::Nothing)
    }

    fn purge_by_url(&self, url: &str) -> (task: Result<S3Task, ServiceError>)
        ensures
            forbidden(task),
    {
        Err(ServiceError::ForbiddenError)
    }

    fn is_valid_uri(&self, settings: &Settings, uri: &str) -> (valid: bool)
        ensures
            valid == (s3_parts(uri@) is Ok),
    {
        AwsS3Uri::is_valid(uri)
    }

    fn get_filename_from_uri(&self, uri: &str) -> (filename: Option<String>)
        ensures
            filename.deep_view() == (match s3_parts(uri@) {
                Ok(parts) => Some(parts.filename),
                Err(_) => None,
            }),
    {
        match AwsS3Uri::parse(uri) {
            Ok(parts) => Some(parts.filename),
            Err(_) => None,
        }
    }

    fn get_default_config(&self, settings: &Settings) -> (config: AdapterConfig)
        ensures
            config.deep_view() == AdapterConfigView::AwsS3(
                AwsS3ConfigView {
                    app_name: "app"@,
                    region: settings.aws_region@,
                    bucket_name: settings.s3_bucket@,
                    verify_pending_on_read: None,
                },
            ),
    {
        AdapterConfig::AwsS3(
            AwsS3Config {
                app_name: "app".to_string(),
                region: settings.aws_region.clone(),
                bucket_name: settings.s3_bucket.clone(),
                verify_pending_on_read: None,
            },
        )
    }
}

impl AwsS3Service {
    /// Begins an upload from another adapter.
    fn begin_upload(
        &self,
        settings: &Settings,
        to_adapter_config: AdapterConfig,
        from_adapter_id: &str,
        from_adapter_config: AdapterConfig,
        from: ContentRepresentationInfo,
        to_representation_type: &str,
    ) -> (upload: Result<S3Upload, ServiceError>)
        ensures
            outcome(upload) == upload_of(
                settings,
                to_adapter_config.deep_view(),
                from_adapter_id@,
                from_adapter_config.deep_view(),
                from.deep_view(),
                to_representation_type@,
            ),
    {
        let from_adapter_type = match get_adapter_type_from_id(settings, from_adapter_id) {
            Some(from_adapter_type) => from_adapter_type,
            None => {
                return general("Invalid adapter ID");
            },
        };
        let options = GenerateUploadUrlOptions {
            content_id: from.content_id.clone(),
            representation_type: to_representation_type.to_string(),
            filename: from.filename.clone(),
            mime_type: from.mime_type.clone(),
            metadata: copy_metadata(&from.metadata),
        };
        Ok(
            S3Upload {
                from_adapter_type,
                from_adapter_config,
                from,
                to_adapter_config,
                options,
            },
        )
    }

    /// The headers that replies to a signed address carry: how the content is to be presented,
    /// and its type, unless the type is unknown. Overriding a type that is stored with the
    /// object by an unknown one would only make it worse.
    pub fn response_overrides(
        settings: &Settings,
        resolved_mime_type: String,
        content_disposition: String,
    ) -> (overrides: (String, Option<String>))
        ensures
            overrides.0@ == content_disposition@,
            overrides.1.deep_view() == (if resolved_mime_type@ != settings.unknown_mime_type@ {
                Some(resolved_mime_type@)
            } else {
                None
            }),
    {
        let known = !same_text(resolved_mime_type.as_str(), settings.unknown_mime_type.as_str());
        let content_type = if known {
            Some(resolved_mime_type)
        } else {
            None
        };
        (content_disposition, content_type)
    }

    /// What generating an upload address comes to, once it has been signed.
    pub fn upload_url_signed(
        request: S3UploadUrl,
        upload_url: String,
        signed_headers: &Vec<(String, String)>,
    ) -> (result: Result<GenerateUploadUrlResult, ServiceError>)
        ensures
            result matches Ok(found) && found.upload_url@ == upload_url@ && found.content_uri@
                == request.content_uri@ && match found.headers {
                None => filled(signed_headers.deep_view()).len() == 0,
                Some(text) => {
                    let object = JsonView::Object(text_map(filled(signed_headers.deep_view())));
                    filled(signed_headers.deep_view()).len() > 0 && text@ == json_text(object)
                        && reads_as(text@, object)
                },
            },
    {
        match Self::build_upload_headers(signed_headers) {
            Ok(headers) => Ok(
                GenerateUploadUrlResult {
                    upload_url,
                    content_uri: request.content_uri,
                    headers,
                },
            ),
            Err(error) => Err(error),
        }
    }

    /// What purging comes to, once the object was asked to be deleted; a failure comes as it is
    /// displayed.
    pub fn purged(reply: Result<(), String>) -> (result: Result<(), ServiceError>)
        ensures
            match reply {
                Ok(_) => result is Ok,
                Err(shown) => result matches Err(error) && error.deep_view()
                    == aws_s3_client_error(shown@),
            },
    {
        match reply {
            Ok(_) => Ok(()),
            Err(shown) => Err(ServiceError::of_aws_s3_client(shown)),
        }
    }
}

/// The order in which metadata was recorded does not change the tagging.
pub proof fn law_metadata_order_is_irrelevant(
    a: Seq<(Seq<char>, Seq<char>)>,
    b: Seq<(Seq<char>, Seq<char>)>,
)
    requires
        a.to_multiset() == b.to_multiset(),
    ensures
        tagging_of(a) == tagging_of(b),
{
    let leq = crate::order::pair_order();
    crate::order::lemma_pair_order();
    a.to_multiset_ensures();
    b.to_multiset_ensures();
    a.lemma_sort_by_ensures(leq);
    b.lemma_sort_by_ensures(leq);
    vstd::seq_lib::lemma_sorted_unique(pairs_in_order(a), pairs_in_order(b), leq);
}

/// The key and the value that a tag is decoded to.
pub open spec fn decoded_tag(tag: Seq<char>) -> (Seq<char>, Seq<char>) {
    let halves = split_text(tag, "="@);
    (percent_decoded(halves[0]), percent_decoded(halves[1]))
}

/// The keys and values that a tagging is decoded to.
pub open spec fn decoded_tagging(tagging: Seq<char>) -> Seq<(Seq<char>, Seq<char>)> {
    split_text(tagging, "&"@).map_values(|tag: Seq<char>| decoded_tag(tag))
}

proof fn lemma_tag(pair: (Seq<char>, Seq<char>))
    ensures
        tag_of(pair) matches Ok(tag) ==> split_text(tag, "="@).len() == 2 && decoded_tag(tag)
            == pair && !tag.contains('&'),
{
    if let Ok(tag) = tag_of(pair) {
        let key = percent_encoded(pair.0);
        let value = percent_encoded(pair.1);
        law_encoded_text_is_decoded(pair.0);
        law_encoded_text_is_decoded(pair.1);
        law_encoded_text_separates_nothing(pair.0);
        law_encoded_text_separates_nothing(pair.1);
        reveal_strlit("=");
        assert("="@ =~= seq!['=']);
        let halves = seq![key, value];
        assert(halves.drop_last() =~= seq![key]);
        assert(join_text(seq![key], "="@) == key);
        assert(join_text(halves, "="@) == tag);
        law_joined_parts_are_split(halves, '=');
        assert forall|i: int| 0 <= i < tag.len() implies (#[trigger] tag[i]) != '&' by {
            if i < key.len() {
                assert(key.contains(key[i]));
                assert(tag[i] == key[i]);
            } else if i > key.len() {
                assert(value.contains(value[i - key.len() - 1]));
                assert(tag[i] == value[i - key.len() - 1]);
            }
        }
    }
}

proof fn lemma_sorted_keys(metadata: Seq<(Seq<char>, Seq<char>)>, i: int, j: int)
    requires
        unique_keys(metadata),
        0 <= i < j < pairs_in_order(metadata).len(),
    ensures
        pairs_in_order(metadata)[i].0 != pairs_in_order(metadata)[j].0,
        text_le(pairs_in_order(metadata)[i].0, pairs_in_order(metadata)[j].0),
{
    let leq = crate::order::pair_order();
    let sorted = pairs_in_order(metadata);
    crate::order::lemma_pair_order();
    metadata.lemma_sort_by_ensures(leq);
    metadata.to_multiset_ensures();
    sorted.to_multiset_ensures();
    assert(metadata.no_duplicates());
    metadata.lemma_multiset_has_no_duplicates();
    assert forall|x: (Seq<char>, Seq<char>)| sorted.to_multiset().contains(x) implies (
    #[trigger] sorted.to_multiset().count(x)) == 1 by {
        assert(metadata.to_multiset().contains(x));
    }
    sorted.lemma_multiset_has_no_duplicates_conv();
    assert(sorted.contains(sorted[i]) && sorted.contains(sorted[j]));
    assert(metadata.contains(sorted[i]) && metadata.contains(sorted[j]));
    let k = choose|k: int| 0 <= k < metadata.len() && metadata[k] == sorted[i];
    let l = choose|l: int| 0 <= l < metadata.len() && metadata[l] == sorted[j];
    assert(sorted[i] != sorted[j]);
    assert(k != l);
    if k < l {
        assert(metadata[k].0 != metadata[l].0);
    } else {
        assert(metadata[l].0 != metadata[k].0);
    }
    assert(leq(sorted[i], sorted[j]));
}

/// A tagging is decoded to the metadata that it was built from, one tag for each entry, with the
/// keys strictly ascending. Every tag consists of a key and a value.
pub proof fn law_tagging_is_decoded_to_metadata(metadata: Seq<(Seq<char>, Seq<char>)>)
    requires
        unique_keys(metadata),
    ensures
        tagging_of(metadata) matches Ok(Some(tagging)) ==> {
            &&& split_text(tagging, "&"@).len() == metadata.len()
            &&& forall|i: int|
                0 <= i < metadata.len() ==> split_text(
                    #[trigger] split_text(tagging, "&"@)[i],
                    "="@,
                ).len() == 2
            &&& decoded_tagging(tagging).to_multiset() == metadata.to_multiset()
            &&& forall|i: int, j: int|
                0 <= i < j < metadata.len() ==> (#[trigger] decoded_tagging(tagging)[i]).0 != (
                #[trigger] decoded_tagging(tagging)[j]).0 && text_le(
                    decoded_tagging(tagging)[i].0,
                    decoded_tagging(tagging)[j].0,
                )
        },
{
    if let Ok(Some(tagging)) = tagging_of(metadata) {
        let leq = crate::order::pair_order();
        let sorted = pairs_in_order(metadata);
        crate::order::lemma_pair_order();
        metadata.lemma_sort_by_ensures(leq);
        metadata.to_multiset_ensures();
        sorted.to_multiset_ensures();
        lemma_collected(tags_of(sorted));
        let tags = collected(tags_of(sorted))->Ok_0;
        assert forall|i: int| 0 <= i < tags.len() implies !(#[trigger] tags[i]).contains('&')
            && split_text(tags[i], "="@).len() == 2 && decoded_tag(tags[i]) == sorted[i] by {
            assert(tags_of(sorted)[i] == tag_of(sorted[i]));
            lemma_tag(sorted[i]);
        }
        reveal_strlit("&");
        assert("&"@ =~= seq!['&']);
        law_joined_parts_are_split(tags, '&');
        assert(decoded_tagging(tagging) =~= sorted);
        assert forall|i: int, j: int| 0 <= i < j < metadata.len() implies (
        #[trigger] decoded_tagging(tagging)[i]).0 != (#[trigger] decoded_tagging(tagging)[j]).0
            && text_le(decoded_tagging(tagging)[i].0, decoded_tagging(tagging)[j].0) by {
            lemma_sorted_keys(metadata, i, j);
        }
    }
}

/// Stripping a URI loses nothing: it is reconstructed with the configuration of its bucket,
/// unless its key looks like a full URI itself.
pub proof fn law_stripped_uri_is_reconstructed(content_uri: Seq<char>, config: AwsS3ConfigView)
    requires
        object_of(content_uri, AdapterConfigView::AwsS3(config)) is Ok,
        !"s3://"@.is_prefix_of(s3_parts(content_uri)->Ok_0.object_key),
    ensures
        stripped_s3_uri(content_uri) matches Ok(stripped) && reconstructed_s3_uri(
            stripped,
            AdapterConfigView::AwsS3(config),
        ) == Ok::<Seq<char>, ErrorView>(content_uri),
{
    crate::storage_service::s3_uri::law_uri_of_parts(content_uri);
}

/// A reconstructed URI is stripped to what it was reconstructed from, where that is no full URI
/// and the name of the bucket holds no slash.
pub proof fn law_reconstructed_uri_is_stripped(stripped: Seq<char>, config: AwsS3ConfigView)
    requires
        !"s3://"@.is_prefix_of(stripped),
        !config.bucket_name.contains('/'),
    ensures
        reconstructed_s3_uri(stripped, AdapterConfigView::AwsS3(config)) matches Ok(uri)
            && stripped_s3_uri(uri) == Ok::<Seq<char>, ErrorView>(stripped),
{
    crate::storage_service::s3_uri::law_parts_of_uri(config.bucket_name, stripped);
}

/// An upload address is always granted for an S3 adapter whose bucket name holds no slash, where
/// the metadata can be tags; the content then lies in that bucket.
pub proof fn law_upload_url_is_granted(
    settings: &Settings,
    org_id: Seq<char>,
    config: AwsS3ConfigView,
    options: UploadOptionsView,
)
    requires
        !config.bucket_name.contains('/'),
        optional_tagging(options.metadata) is Ok,
    ensures
        upload_url_of(settings, org_id, AdapterConfigView::AwsS3(config), options) matches Ok(
            upload_url,
        ) && upload_url.object.bucket_name == config.bucket_name && upload_url.object.object_key
            == object_key_for(org_id, options),
{
    crate::storage_service::s3_uri::law_parts_of_uri(
        config.bucket_name,
        object_key_for(org_id, options),
    );
}

/// An upload stores the content of its origin: however the content comes in, the one request
/// carries all of it to the address that was given. Where the transfer succeeds, what comes of it
/// is the URI that was given with the address, and otherwise the error for what went wrong.
pub proof fn law_upload_stores_the_content(
    upload: S3UploadView,
    target: UploadUrlView,
    incoming: Seq<Seq<u8>>,
    transfer: Result<(), UploadFault>,
)
    ensures
        match stream_to(upload, target) {
            Ok(stream) => {
                let done = after_pieces(stream, incoming);
                &&& upload_request(done).method == Method::Put
                &&& upload_request(done).url == target.upload_url
                &&& upload_request(done).payload == PayloadView::Bytes(joined(incoming))
                &&& upload_outcome(done.content_uri, transfer) == match transfer {
                    Ok(_) => Ok(target.content_uri),
                    Err(fault) => Err(upload_fault_error(fault)),
                }
            },
            Err(_) => optional_tagging(upload.from.metadata) is Err,
        },
{
    if let Ok(stream) = stream_to(upload, target) {
        law_upload_is_complete(stream, incoming);
    }
}

/// A content that is staged to an S3 adapter whose bucket name holds no slash lies in that bucket:
/// its head is asked of that adapter, for the object whose key is the stripped URI, and what comes
/// back describes the staged content, whatever adapter it came from.
pub proof fn law_staged_content_lies_at_its_destination(
    settings: &Settings,
    org_id: Seq<char>,
    config: AwsS3ConfigView,
    from: FromStageView,
    to_representation_type: Option<Seq<char>>,
    infos: Seq<HeadInfoView>,
)
    requires
        !config.bucket_name.contains('/'),
        optional_tagging(from.content_representation_info.metadata) is Ok,
        infos.len() > 0,
    ensures
        stage_of(
            settings,
            AdapterConfigView::AwsS3(config),
            from,
            None,
            to_representation_type,
        ) matches Ok(stage) ==> {
            let target = upload_url_of(
                settings,
                org_id,
                stage.upload.to_adapter_config,
                stage.upload.options,
            );
            let uri = target->Ok_0.content_uri;
            let staged = staged_at(stage, uri)->Ok_0;
            let item = staged_item(staged, Ok(infos))->Ok_0;
            let object = object_of(staged.content_uri, staged.adapter_config);
            &&& target is Ok
            &&& staged_at(stage, uri) is Ok
            &&& object is Ok
            &&& object->Ok_0.bucket_name == config.bucket_name
            &&& object->Ok_0.object_key == staged.stripped_uri
            &&& objects_of(seq![staged.content_uri], seq![staged.adapter_config]) == seq![object]
            &&& staged_item(staged, Ok(infos)) is Ok
            &&& item.uri == uri
            &&& item.stripped_uri == object_key_for(org_id, stage.upload.options)
            &&& item.head_info == infos[0]
            &&& item.filename == from.content_representation_info.filename
            &&& item.representation_type == (match to_representation_type {
                Some(to_type) => to_type,
                None => from.content_representation_info.representation_type,
            })
        },
{
    if let Ok(stage) = stage_of(
        settings,
        AdapterConfigView::AwsS3(config),
        from,
        None,
        to_representation_type,
    ) {
        let key = object_key_for(org_id, stage.upload.options);
        let uri = s3_uri(config.bucket_name, key);
        crate::storage_service::s3_uri::law_parts_of_uri(config.bucket_name, key);
        law_upload_url_is_granted(settings, org_id, config, stage.upload.options);
        let config = AdapterConfigView::AwsS3(config);
        assert(objects_of(seq![uri], seq![config]) =~= seq![object_of(uri, config)]);
    }
}

} // verus!
