//! Contents that a CDN serves: addresses, access tokens, and the pull zones of Bunny.net.
use vstd::prelude::*;
use vstd::utf8::encode_utf8;
use crate::encoding::{
    base64_encode, base64_standard, parse_url, parsed_url, sha256, sha256_digest,
};
use crate::error::{general, general_error, invalid, outcome, ErrorView, ServiceError};
use crate::http::{bare_request, HttpRequest, Method, RequestView};
use crate::json::Json;
use crate::order::{in_order, sort_texts};
use crate::storage_service::bunnynet::{idempotent_call, BunnynetCall, CallView};
use crate::storage_service::head::outcomes;
use crate::storage_service::pull_zone::{
    begin_creation, begin_update, creation_of, update_of, CdnCreation, CdnUpdate, CreationView,
    UpdateView,
};
use crate::storage_service::storage_service_trait::{
    ContentRepresentationInfo, FromStageInfo, FromStageView, Settings, StageItemResult,
    StageItemView, StorageServiceTrait,
};
use crate::storage_service_factory::{adapter_type_of, get_adapter_type_from_id};
use crate::text::{
    cat2, cat3, cat4, cat6, decimal, decimal_text, join, join_text, replace, replaced, same_text,
    split, split_text, strip_prefix, to_chars,
};
use crate::types::{
    AdapterConfig, AdapterConfigView, AdapterType, CallContext, CdnConfig, CdnConfigView,
    ContentHeadInfo, HeadInfoView, RetrieveProperties, RetrievePropertiesView,
};

verus! {

/// The service for contents that a CDN serves.
#[derive(Debug, Default)]
pub struct CdnService;

/// The query of an address with its parameters in order.
pub open spec fn sorted_query(query: Seq<char>) -> Seq<char> {
    join_text(in_order(split_text(query, "&"@)), "&"@)
}

/// The token for a text: its SHA-256 digest in base64, written with `-` and `_` and without
/// padding.
pub open spec fn token_for(text: Seq<char>) -> Seq<char> {
    let base64 = base64_standard(sha256_digest(encode_utf8(text)));
    replaced(replaced(replaced(replaced(base64, '\n', ""@), '+', "-"@), '/', "_"@), '=', ""@)
}

/// The query of an address; empty where it has none.
pub open spec fn query_or_empty(query: Option<Seq<char>>) -> Seq<char> {
    match query {
        Some(query) => query,
        None => ""@,
    }
}

/// The address with a token that grants access until a moment, in seconds since the epoch. The
/// token covers the path, the moment and the sorted query.
pub open spec fn signed_url(url: Seq<char>, security_key: Seq<char>, expires: nat) -> Result<
    Seq<char>,
    ErrorView,
> {
    match parsed_url(url) {
        None => Err(general_error("Invalid content URI format"@)),
        Some(parts) => {
            let query = query_or_empty(parts.query);
            let token = token_for(
                security_key + parts.path + decimal(expires) + sorted_query(query),
            );
            Ok(
                url + (if query.len() == 0 {
                    "?"@
                } else {
                    "&"@
                }) + "token="@ + token + "&expires="@ + decimal(expires),
            )
        },
    }
}

/// A character that the name of a pull zone may hold.
pub open spec fn zone_char(c: char) -> bool {
    ('0' <= c <= '9') || ('A' <= c <= 'Z') || ('a' <= c <= 'z') || c == '-'
}

/// The name of the pull zone of an adapter.
pub open spec fn pullzone_name(settings: &Settings, adapter_id: Seq<char>) -> Result<
    Seq<char>,
    ErrorView,
> {
    let prefix = settings.cdn_adapter_id_prefix@ + "_"@;
    if !prefix.is_prefix_of(adapter_id) {
        Err(general_error("Failed to get CND adapter ID suffix"@))
    } else {
        let name = settings.bunnynet_pullzone_name_prefix@ + "-"@ + adapter_id.skip(
            prefix.len() as int,
        );
        if forall|i: int| 0 <= i < name.len() ==> zone_char(#[trigger] name[i]) {
            Ok(name)
        } else {
            Err(
                general_error(
                    "Pullzone name must consist of numbers, letters, and hyphens only"@,
                ),
            )
        }
    }
}

impl CdnService {
    /// The service.
    pub fn new() -> (service: Self)
        ensures
            service == CdnService,
    {
        CdnService {  }
    }

    /// The token for a text.
    fn token(text: &str) -> (token: String)
        ensures
            token@ == token_for(text@),
    {
        let digest = sha256(text.as_bytes());
        let base64 = base64_encode(&digest);
        let one_line = replace(base64.as_str(), '\n', "");
        let no_plus = replace(one_line.as_str(), '+', "-");
        let no_slash = replace(no_plus.as_str(), '/', "_");
        replace(no_slash.as_str(), '=', "")
    }

    /// The address with a token that grants access for a number of seconds.
    pub fn sign_authenticated_url(
        &self,
        url: &str,
        pullzone_security_key: &str,
        expiration_time: u64,
        now_secs: u64,
    ) -> (signed: Result<String, ServiceError>)
        requires
            now_secs + expiration_time <= u64::MAX,
        ensures
            outcome(signed) == signed_url(
                url@,
                pullzone_security_key@,
                (now_secs + expiration_time) as nat,
            ),
    {
        let parts = match parse_url(url) {
            Some(parts) => parts,
            None => {
                return general("Invalid content URI format");
            },
        };
        let expires: u64 = now_secs + expiration_time;
        let expires_text = decimal_text(expires);
        let query = match parts.query {
            Some(query) => query,
            None => "".to_string(),
        };
        proof {
            reveal_strlit("&");
        }
        let params = sort_texts(split(query.as_str(), "&"));
        let sorted = join(&params, "&");
        let hashable = cat4(
            pullzone_security_key,
            parts.path.as_str(),
            expires_text.as_str(),
            sorted.as_str(),
        );
        let token = Self::token(hashable.as_str());
        let separator = if query.as_str().is_empty() {
            "?"
        } else {
            "&"
        };
        Ok(
            cat6(
                url,
                separator,
                "token=",
                token.as_str(),
                "&expires=",
                expires_text.as_str(),
            ),
        )
    }

    /// The name of the pull zone of an adapter.
    pub fn generate_pullzone_name_from_adapter_id(
        &self,
        settings: &Settings,
        adapter_id: &str,
    ) -> (name: Result<String, ServiceError>)
        ensures
            outcome(name) == pullzone_name(settings, adapter_id@),
    {
        let prefix = cat2(settings.cdn_adapter_id_prefix.as_str(), "_");
        let suffix = match strip_prefix(adapter_id, prefix.as_str()) {
            Some(suffix) => suffix,
            None => {
                return general("Failed to get CND adapter ID suffix");
            },
        };
        let name = cat3(
            settings.bunnynet_pullzone_name_prefix.as_str(),
            "-",
            suffix.as_str(),
        );
        let chars = to_chars(name.as_str());
        let mut i: usize = 0;
        while i < chars.len()
            invariant
                i <= chars@.len(),
                chars@ == name@,
                prefix@ == settings.cdn_adapter_id_prefix@ + "_"@,
                prefix@.is_prefix_of(adapter_id@),
                name@ == settings.bunnynet_pullzone_name_prefix@ + "-"@ + adapter_id@.skip(
                    prefix@.len() as int,
                ),
                forall|j: int| 0 <= j < i ==> zone_char(#[trigger] name@[j]),
            decreases chars@.len() - i,
        {
            let c: char = chars[i];
            if !(('0' <= c && c <= '9') || ('A' <= c && c <= 'Z') || ('a' <= c && c <= 'z') || c
                == '-') {
                assert(!zone_char(name@[i as int]));
                return general(
                    "Pullzone name must consist of numbers, letters, and hyphens only",
                );
            }
            i += 1;
        }
        Ok(name)
    }
}

/// The domain under which a pull zone serves its contents.
pub open spec fn zone_domain(config: CdnConfigView) -> Seq<char> {
    match config.domain {
        Some(domain) => domain,
        None => config.pull_zone_name + ".b-cdn.net"@,
    }
}

/// The domain under which a pull zone serves its contents.
fn domain_of(config: &CdnConfig) -> (domain: String)
    ensures
        domain@ == zone_domain(config.deep_view()),
{
    match &config.domain {
        Some(domain) => domain.clone(),
        None => cat2(config.pull_zone_name.as_str(), ".b-cdn.net"),
    }
}

/// The address of what a domain serves.
pub open spec fn served_at(domain: Seq<char>, is_dynamic: bool, tail: Seq<char>) -> Seq<char> {
    if is_dynamic {
        "https://"@ + domain + "/dynamic/"@ + tail
    } else {
        "https://"@ + domain + "/"@ + tail
    }
}

/// The address of what a domain serves.
fn serve_at(domain: &str, is_dynamic: bool, tail: &str) -> (uri: String)
    ensures
        uri@ == served_at(domain@, is_dynamic, tail@),
{
    if is_dynamic {
        cat4("https://", domain, "/dynamic/", tail)
    } else {
        cat4("https://", domain, "/", tail)
    }
}

/// What follows the prefix in the identifier of a content.
pub open spec fn bare_content_id(settings: &Settings, content_id: Seq<char>) -> Option<Seq<char>> {
    let prefix = settings.content_id_prefix@ + "_"@;
    if prefix.is_prefix_of(content_id) {
        Some(content_id.skip(prefix.len() as int))
    } else {
        None
    }
}

/// What follows the prefix in the identifier of a content.
fn strip_content_id(settings: &Settings, content_id: &str) -> (bare: Option<String>)
    ensures
        bare.deep_view() == bare_content_id(settings, content_id@),
{
    let prefix = cat2(settings.content_id_prefix.as_str(), "_");
    strip_prefix(content_id, prefix.as_str())
}

/// The address under which the CDN serves a content: under its alias, under its short link, or
/// under its identifier and representation type.
pub open spec fn cdn_uri(
    settings: &Settings,
    config: AdapterConfigView,
    content_id: Option<Seq<char>>,
    representation_type: Option<Seq<char>>,
    alias: Option<Seq<char>>,
    short_link_slug: Option<Seq<char>>,
    is_dynamic: bool,
) -> Result<Seq<char>, ErrorView> {
    if alias is Some && short_link_slug is Some {
        Err(general_error("Cannot use \"alias\" and \"short_link\" together"@))
    } else {
        match config {
            AdapterConfigView::Cdn(config) => {
                let domain = zone_domain(config);
                if alias is Some {
                    Ok(served_at(domain, is_dynamic, alias->0))
                } else if short_link_slug is Some {
                    Ok(served_at(domain, is_dynamic, short_link_slug->0))
                } else if content_id is None || representation_type is None {
                    Err(
                        general_error(
                            "Content ID with representation type or Alias should be provided."@,
                        ),
                    )
                } else {
                    match bare_content_id(settings, content_id->0) {
                        Some(bare) => Ok(
                            served_at(domain, is_dynamic, bare + "/"@ + representation_type->0),
                        ),
                        None => Err(general_error("Invalid content ID format"@)),
                    }
                }
            },
            _ => Err(general_error("Invalid CDN adapter config"@)),
        }
    }
}

/// The address with the parameters of the image optimizer, where any are given.
pub open spec fn optimized_url(
    uri: Seq<char>,
    properties: Option<RetrievePropertiesView>,
) -> Seq<char> {
    match properties {
        Some(properties) => if properties.width is Some || properties.height is Some
            || properties.aspect_ratio is Some {
            let with_width = match properties.width {
                Some(width) => uri + "?optimizer=image"@ + ("&width="@ + decimal(width as nat)),
                None => uri + "?optimizer=image"@,
            };
            let with_height = match properties.height {
                Some(height) => with_width + ("&height="@ + decimal(height as nat)),
                None => with_width,
            };
            match properties.aspect_ratio {
                Some(ratio) => with_height + ("&aspect_ratio="@ + ratio),
                None => with_height,
            }
        } else {
            uri
        },
        None => uri,
    }
}

/// The address with the parameters of the image optimizer, where any are given.
fn optimize_url(uri: &str, properties: &Option<RetrieveProperties>) -> (url: String)
    ensures
        url@ == optimized_url(uri@, properties.deep_view()),
{
    match properties {
        Some(properties) => {
            if properties.width.is_some() || properties.height.is_some()
                || properties.aspect_ratio.is_some() {
                let mut url = cat2(uri, "?optimizer=image");
                if let Some(width) = properties.width {
                    let number = decimal_text(width as u64);
                    let param = cat2("&width=", number.as_str());
                    url = cat2(url.as_str(), param.as_str());
                }
                if let Some(height) = properties.height {
                    let number = decimal_text(height as u64);
                    let param = cat2("&height=", number.as_str());
                    url = cat2(url.as_str(), param.as_str());
                }
                if let Some(ratio) = &properties.aspect_ratio {
                    let param = cat2("&aspect_ratio=", ratio.as_str());
                    url = cat2(url.as_str(), param.as_str());
                }
                url
            } else {
                uri.to_string()
            }
        },
        None => uri.to_string(),
    }
}

/// The address from which a content can be fetched: with parameters, and with a token where the
/// pull zone asks for one.
pub open spec fn pre_signed_url(
    content_uri: Seq<char>,
    config: AdapterConfigView,
    properties: Option<RetrievePropertiesView>,
    expires: nat,
) -> Result<Seq<char>, ErrorView> {
    match config {
        AdapterConfigView::Cdn(config) => {
            let url = optimized_url(content_uri, properties);
            if !config.use_authentication {
                Ok(url)
            } else {
                match config.api_key {
                    Some(security_key) => signed_url(url, security_key, expires),
                    None => Err(
                        general_error(
                            "Pullzone security key is required in CDN config when using token authentication"@,
                        ),
                    ),
                }
            }
        },
        _ => Err(general_error("Invalid CDN adapter config"@)),
    }
}

impl CdnService {
    /// The address from which a content can be fetched at once.
    pub fn pre_sign(
        &self,
        settings: &Settings,
        content_uri: &str,
        adapter_config: &AdapterConfig,
        retrieve_properties: &Option<RetrieveProperties>,
        now_secs: u64,
    ) -> (url: Result<String, ServiceError>)
        requires
            now_secs + settings.pre_signed_url_expiration_time <= u64::MAX,
        ensures
            outcome(url) == pre_signed_url(
                content_uri@,
                adapter_config.deep_view(),
                retrieve_properties.deep_view(),
                (now_secs + settings.pre_signed_url_expiration_time) as nat,
            ),
    {
        let config = match adapter_config {
            AdapterConfig::Cdn(config) => config,
            _ => {
                return general("Invalid CDN adapter config");
            },
        };
        let url = optimize_url(content_uri, retrieve_properties);
        if !config.use_authentication {
            return Ok(url);
        }
        match &config.api_key {
            Some(security_key) => self.sign_authenticated_url(
                url.as_str(),
                security_key.as_str(),
                settings.pre_signed_url_expiration_time,
                now_secs,
            ),
            None => general(
                "Pullzone security key is required in CDN config when using token authentication",
            ),
        }
    }
}

/// What decides the type of a content: what is recorded of it, what its origin says, its file
/// name and its URI.
#[derive(Debug)]
pub struct MimeTypeQuery {
    pub recorded: String,
    pub from_head: String,
    pub filename: String,
    pub uri: String,
}

pub struct MimeTypeQueryView {
    pub recorded: Seq<char>,
    pub from_head: Seq<char>,
    pub filename: Seq<char>,
    pub uri: Seq<char>,
}

impl DeepView for MimeTypeQuery {
    type V = MimeTypeQueryView;

    open spec fn deep_view(&self) -> MimeTypeQueryView {
        MimeTypeQueryView {
            recorded: self.recorded@,
            from_head: self.from_head@,
            filename: self.filename@,
            uri: self.uri@,
        }
    }
}

/// A content that is being staged: what is known of it at its origin is to be retrieved from
/// the service of the given kind.
#[derive(Debug)]
pub struct CdnStage {
    pub to_uri: String,
    pub stripped_uri: String,
    pub representation_type: String,
    pub from_adapter_type: AdapterType,
    pub from_adapter_config: AdapterConfig,
    pub from_uri: String,
    pub from_mime_type: String,
    pub filename: String,
}

pub struct CdnStageView {
    pub to_uri: Seq<char>,
    pub stripped_uri: Seq<char>,
    pub representation_type: Seq<char>,
    pub from_adapter_type: AdapterType,
    pub from_adapter_config: AdapterConfigView,
    pub from_uri: Seq<char>,
    pub from_mime_type: Seq<char>,
    pub filename: Seq<char>,
}

impl DeepView for CdnStage {
    type V = CdnStageView;

    open spec fn deep_view(&self) -> CdnStageView {
        CdnStageView {
            to_uri: self.to_uri@,
            stripped_uri: self.stripped_uri@,
            representation_type: self.representation_type@,
            from_adapter_type: self.from_adapter_type,
            from_adapter_config: self.from_adapter_config.deep_view(),
            from_uri: self.from_uri@,
            from_mime_type: self.from_mime_type@,
            filename: self.filename@,
        }
    }
}

/// How staging to the CDN begins. Staging from the CDN itself only makes sense for a new alias,
/// and an alias needs a pull zone that takes aliases and asks for no tokens.
pub open spec fn stage_of(
    settings: &Settings,
    to_config: AdapterConfigView,
    from: FromStageView,
    to_alias: Option<Seq<char>>,
    to_representation_type: Option<Seq<char>>,
) -> Result<CdnStageView, ErrorView> {
    let info = from.content_representation_info;
    match to_config {
        AdapterConfigView::Cdn(config) => if to_alias is None && adapter_type_of(
            settings,
            from.adapter_id,
        ) == Some(AdapterType::Cdn) {
            Err(
                ErrorView::InvalidRequestParameters(
                    "Stage from CDN representation allowed only when update alias"@,
                ),
            )
        } else if to_alias is Some && to_representation_type is Some {
            Err(
                ErrorView::InvalidRequestParameters(
                    "Cannot stage to alias when stage to another representation type"@,
                ),
            )
        } else if to_alias is Some && !config.alias_enabled {
            Err(
                ErrorView::InvalidRequestParameters(
                    "Cannot stage to alias when destination CDN adapter alias disabled"@,
                ),
            )
        } else if to_alias is Some && config.use_authentication {
            Err(
                ErrorView::InvalidRequestParameters(
                    "Cannot stage to alias when destination CDN adapter use authentication"@,
                ),
            )
        } else {
            match bare_content_id(settings, info.content_id) {
                None => Err(ErrorView::InvalidRequestParameters("Invalid content ID format"@)),
                Some(bare) => {
                    let to_type = match to_representation_type {
                        Some(to_type) => to_type,
                        None => info.representation_type,
                    };
                    match adapter_type_of(settings, from.adapter_id) {
                        None => Err(general_error("Invalid adapter ID"@)),
                        Some(from_type) => Ok(
                            CdnStageView {
                                to_uri: served_at(
                                    zone_domain(config),
                                    false,
                                    match to_alias {
                                        Some(alias) => alias,
                                        None => bare + "/"@ + to_type,
                                    },
                                ),
                                stripped_uri: if to_type != info.representation_type {
                                    info.representation_type
                                } else {
                                    ""@
                                },
                                representation_type: to_type,
                                from_adapter_type: from_type,
                                from_adapter_config: from.adapter_config,
                                from_uri: info.uri,
                                from_mime_type: info.mime_type,
                                filename: info.filename,
                            },
                        ),
                    }
                },
            }
        },
        _ => Err(ErrorView::InvalidRequestParameters("Invalid CDN config"@)),
    }
}

/// What decides the type of a staged content, once its origin has answered.
pub open spec fn staged_mime_query(
    stage: CdnStageView,
    infos: Result<Seq<HeadInfoView>, ErrorView>,
) -> Result<(MimeTypeQueryView, HeadInfoView), ErrorView> {
    match infos {
        Err(error) => Err(error),
        Ok(infos) => if infos.len() == 0 {
            Err(
                general_error(
                    "Failed to get head info for origin URI ["@ + stage.from_uri + "]"@,
                ),
            )
        } else {
            Ok(
                (
                    MimeTypeQueryView {
                        recorded: stage.from_mime_type,
                        from_head: infos[0].mime_type,
                        filename: stage.filename,
                        uri: stage.from_uri,
                    },
                    infos[0],
                ),
            )
        },
    }
}

/// The staged content, once its type is resolved.
pub open spec fn staged_item(
    stage: CdnStageView,
    from_head_info: HeadInfoView,
    resolved_mime_type: Seq<char>,
) -> StageItemView {
    StageItemView {
        uri: stage.to_uri,
        stripped_uri: stage.stripped_uri,
        representation_type: stage.representation_type,
        filename: stage.filename,
        head_info: HeadInfoView {
            mime_type: resolved_mime_type,
            size: from_head_info.size,
            filename: from_head_info.filename,
        },
    }
}

impl CdnStage {
    /// Takes in what the origin says of the content.
    pub fn origin_answered(&self, infos: Result<Vec<ContentHeadInfo>, ServiceError>) -> (query:
        Result<(MimeTypeQuery, ContentHeadInfo), ServiceError>)
        ensures
            outcome(query) == staged_mime_query(self.deep_view(), outcome(infos)),
    {
        let mut infos = match infos {
            Ok(infos) => infos,
            Err(error) => {
                return Err(error);
            },
        };
        if infos.len() == 0 {
            let message = cat3(
                "Failed to get head info for origin URI [",
                self.from_uri.as_str(),
                "]",
            );
            return general(message.as_str());
        }
        let info = infos.remove(0);
        let query = MimeTypeQuery {
            recorded: self.from_mime_type.clone(),
            from_head: info.mime_type.clone(),
            filename: self.filename.clone(),
            uri: self.from_uri.clone(),
        };
        Ok((query, info))
    }

    /// The staged content, once its type is resolved.
    pub fn finish(
        self,
        from_head_info: ContentHeadInfo,
        resolved_mime_type: String,
    ) -> (item: StageItemResult)
        ensures
            item.deep_view() == staged_item(
                self.deep_view(),
                from_head_info.deep_view(),
                resolved_mime_type@,
            ),
    {
        StageItemResult {
            uri: self.to_uri,
            stripped_uri: self.stripped_uri,
            representation_type: self.representation_type,
            filename: self.filename,
            head_info: ContentHeadInfo {
                mime_type: resolved_mime_type,
                size: from_head_info.size,
                filename: from_head_info.filename,
            },
        }
    }
}

/// What an operation of the CDN service has left to do.
#[derive(Debug)]
pub enum CdnTask {
    /// To send these requests and read the headers of the replies; some contents have failed
    /// already.
    HeadInfos(Vec<Result<HttpRequest, ServiceError>>),
    /// Nothing: this is the address.
    Url(String),
    /// To make a call that empties the cache of the named pull zone.
    Purge { call: BunnynetCall, pull_zone_name: String },
    /// To make a call and hand on what comes of it.
    Call(BunnynetCall),
    /// To make a call that deletes a pull zone.
    Delete(BunnynetCall),
    Stage(CdnStage),
    Create(CdnCreation),
    Update(CdnUpdate),
}

pub enum CdnTaskView {
    HeadInfos(Seq<Result<RequestView, ErrorView>>),
    Url(Seq<char>),
    Purge { call: CallView, pull_zone_name: Seq<char> },
    Call(CallView),
    Delete(CallView),
    Stage(CdnStageView),
    Create(CreationView),
    Update(UpdateView),
}

impl DeepView for CdnTask {
    type V = CdnTaskView;

    open spec fn deep_view(&self) -> CdnTaskView {
        match self {
            CdnTask::HeadInfos(requests) => CdnTaskView::HeadInfos(outcomes(requests@)),
            CdnTask::Url(url) => CdnTaskView::Url(url@),
            CdnTask::Purge { call, pull_zone_name } => CdnTaskView::Purge {
                call: call.deep_view(),
                pull_zone_name: pull_zone_name@,
            },
            CdnTask::Call(call) => CdnTaskView::Call(call.deep_view()),
            CdnTask::Delete(call) => CdnTaskView::Delete(call.deep_view()),
            CdnTask::Stage(stage) => CdnTaskView::Stage(stage.deep_view()),
            CdnTask::Create(creation) => CdnTaskView::Create(creation.deep_view()),
            CdnTask::Update(update) => CdnTaskView::Update(update.deep_view()),
        }
    }
}

/// The request for the headers of a content, where it has an address.
pub open spec fn head_request(
    content_uri: Seq<char>,
    config: AdapterConfigView,
    expires: nat,
) -> Result<RequestView, ErrorView> {
    match pre_signed_url(content_uri, config, None, expires) {
        Ok(url) => Ok(bare_request(Method::Head, url)),
        Err(error) => Err(error),
    }
}

/// The smaller of two numbers.
pub open spec fn smaller(a: nat, b: nat) -> nat {
    if a < b {
        a
    } else {
        b
    }
}

/// The requests for the headers of contents, each with the configuration at the same place.
/// What is left over on either side is left out.
pub open spec fn head_requests(
    content_uris: Seq<Seq<char>>,
    configs: Seq<AdapterConfigView>,
    expires: nat,
) -> Seq<Result<RequestView, ErrorView>> {
    Seq::new(
        smaller(content_uris.len(), configs.len()),
        |i: int| head_request(content_uris[i], configs[i], expires),
    )
}

/// What an operation on a pull zone comes to where the adapter has one.
pub open spec fn zone_task(config: AdapterConfigView, refusal: ErrorView, task: CdnTaskView) -> Result<
    CdnTaskView,
    ErrorView,
> {
    if config is Cdn {
        Ok(task)
    } else {
        Err(refusal)
    }
}

impl StorageServiceTrait for CdnService {
    type Task = CdnTask;

    open spec fn tells_expiration() -> bool {
        true
    }

    fn retrieve_head_infos(
        &self,
        settings: &Settings,
        content_uris: &Vec<String>,
        adapter_configs: &Vec<AdapterConfig>,
        now_secs: u64,
    ) -> (task: Result<CdnTask, ServiceError>)
        ensures
            outcome(task) == Ok::<CdnTaskView, ErrorView>(
                CdnTaskView::HeadInfos(
                    head_requests(
                        content_uris.deep_view(),
                        adapter_configs.deep_view(),
                        (now_secs + settings.pre_signed_url_expiration_time) as nat,
                    ),
                ),
            ),
    {
        let ghost expires = (now_secs + settings.pre_signed_url_expiration_time) as nat;
        let ghost wanted = head_requests(
            content_uris.deep_view(),
            adapter_configs.deep_view(),
            expires,
        );
        let mut requests: Vec<Result<HttpRequest, ServiceError>> = Vec::new();
        let mut i: usize = 0;
        while i < content_uris.len() && i < adapter_configs.len()
            invariant
                i <= content_uris@.len(),
                i <= adapter_configs@.len(),
                now_secs + settings.pre_signed_url_expiration_time <= u64::MAX,
                expires == (now_secs + settings.pre_signed_url_expiration_time) as nat,
                wanted == head_requests(
                    content_uris.deep_view(),
                    adapter_configs.deep_view(),
                    expires,
                ),
                requests@.len() == i,
                forall|j: int| 0 <= j < i ==> outcome(#[trigger] requests@[j]) == wanted[j],
            decreases content_uris@.len() - i,
        {
            let request = match self.pre_sign(
                settings,
                content_uris[i].as_str(),
                &adapter_configs[i],
                &None,
                now_secs,
            ) {
                Ok(url) => Ok(HttpRequest::new(Method::Head, url)),
                Err(error) => Err(error),
            };
            assert(outcome(request) == wanted[i as int]);
            requests.push(request);
            i += 1;
        }
        assert(outcomes(requests@) =~= wanted);
        Ok(CdnTask::HeadInfos(requests))
    }

    fn purge(&self, settings: &Settings, content_uri: &str, adapter_config: AdapterConfig) -> (task:
        Result<CdnTask, ServiceError>)
        ensures
            outcome(task) == zone_task(
                adapter_config.deep_view(),
                general_error("Invalid CDN adapter config"@),
                CdnTaskView::Purge {
                    call: idempotent_call(
                        Method::Post,
                        "pullzone/"@ + adapter_config.deep_view()->Cdn_0.pull_zone_id
                            + "/purgeCache"@,
                        None,
                    ),
                    pull_zone_name: adapter_config.deep_view()->Cdn_0.pull_zone_name,
                },
            ),
    {
        match adapter_config {
            AdapterConfig::Cdn(config) => {
                let path = cat3("pullzone/", config.pull_zone_id.as_str(), "/purgeCache");
                Ok(
                    CdnTask::Purge {
                        call: BunnynetCall::idempotent(Method::Post, path, None),
                        pull_zone_name: config.pull_zone_name,
                    },
                )
            },
            _ => general("Invalid CDN adapter config"),
        }
    }

    fn generate_pre_signed_url(
        &self,
        settings: &Settings,
        content_uri: &str,
        adapter_config: AdapterConfig,
        retrieve_properties: Option<RetrieveProperties>,
        content_repr_properties: Option<ContentRepresentationInfo>,
        now_secs: u64,
    ) -> (task: Result<CdnTask, ServiceError>)
        ensures
            outcome(task) == (match pre_signed_url(
                content_uri@,
                adapter_config.deep_view(),
                retrieve_properties.deep_view(),
                (now_secs + settings.pre_signed_url_expiration_time) as nat,
            ) {
                Ok(url) => Ok::<CdnTaskView, ErrorView>(CdnTaskView::Url(url)),
                Err(error) => Err(error),
            }),
    {
        match self.pre_sign(
            settings,
            content_uri,
            &adapter_config,
            &retrieve_properties,
            now_secs,
        ) {
            Ok(url) => Ok(CdnTask::Url(url)),
            Err(error) => Err(error),
        }
    }

    fn stage(
        &self,
        settings: &Settings,
        ctx: &CallContext,
        adapter_config: AdapterConfig,
        from_stage_info: FromStageInfo,
        to_alias: Option<String>,
        to_representation_type: Option<String>,
    ) -> (task: Result<CdnTask, ServiceError>)
        ensures
            outcome(task) == (match stage_of(
                settings,
                adapter_config.deep_view(),
                from_stage_info.deep_view(),
                to_alias.deep_view(),
                to_representation_type.deep_view(),
            ) {
                Ok(stage) => Ok::<CdnTaskView, ErrorView>(CdnTaskView::Stage(stage)),
                Err(error) => Err(error),
            }),
    {
        let config = match adapter_config {
            AdapterConfig::Cdn(config) => config,
            _ => {
                return invalid("Invalid CDN config");
            },
        };
        let info = from_stage_info.content_representation_info;
        let from_adapter_type = get_adapter_type_from_id(
            settings,
            from_stage_info.adapter_id.as_str(),
        );
        if to_alias.is_none() {
            if let Some(AdapterType::Cdn) = from_adapter_type {
                return invalid("Stage from CDN representation allowed only when update alias");
            }
        }
        if to_alias.is_some() && to_representation_type.is_some() {
            return invalid("Cannot stage to alias when stage to another representation type");
        }
        if to_alias.is_some() && !config.alias_enabled {
            return invalid("Cannot stage to alias when destination CDN adapter alias disabled");
        }
        if to_alias.is_some() && config.use_authentication {
            return invalid("Cannot stage to alias when destination CDN adapter use authentication");
        }
        // The prefix is left out to keep the address short and the prefix to ourselves.
        let bare = match strip_content_id(settings, info.content_id.as_str()) {
            Some(bare) => bare,
            None => {
                return invalid("Invalid content ID format");
            },
        };
        let domain = domain_of(&config);
        let representation_type = match to_representation_type {
            Some(representation_type) => representation_type,
            None => info.representation_type.clone(),
        };
        let tail = match to_alias {
            Some(alias) => alias,
            None => cat3(bare.as_str(), "/", representation_type.as_str()),
        };
        let to_uri = serve_at(domain.as_str(), false, tail.as_str());
        // Where the type changes, the type at the origin takes the place of the stripped URI.
        let stripped_uri = if !same_text(
            representation_type.as_str(),
            info.representation_type.as_str(),
        ) {
            info.representation_type
        } else {
            "".to_string()
        };
        let from_adapter_type = match from_adapter_type {
            Some(from_adapter_type) => from_adapter_type,
            None => {
                return general("Invalid adapter ID");
            },
        };
        Ok(
            CdnTask::Stage(
                CdnStage {
                    to_uri,
                    stripped_uri,
                    representation_type,
                    from_adapter_type,
                    from_adapter_config: from_stage_info.adapter_config,
                    from_uri: info.uri,
                    from_mime_type: info.mime_type,
                    filename: info.filename,
                },
            ),
        )
    }

    /// The URI is fully calculated when it is retrieved, so nothing of it is kept.
    fn strip_uri(&self, content_uri: &str) -> (stripped: Result<String, ServiceError>)
        ensures
            outcome(stripped) == Ok::<Seq<char>, ErrorView>(""@),
    {
        Ok("".to_string())
    }

    fn reconstruct_uri(
        &self,
        settings: &Settings,
        stripped_content_uri: &str,
        adapter_config: &AdapterConfig,
        content_id: Option<String>,
        representation_type: Option<String>,
        alias: Option<String>,
        short_link_slug: Option<String>,
        is_dynamic: bool,
    ) -> (uri: Result<String, ServiceError>)
        ensures
            outcome(uri) == cdn_uri(
                settings,
                adapter_config.deep_view(),
                content_id.deep_view(),
                representation_type.deep_view(),
                alias.deep_view(),
                short_link_slug.deep_view(),
                is_dynamic,
            ),
    {
        if alias.is_some() && short_link_slug.is_some() {
            return general("Cannot use \"alias\" and \"short_link\" together");
        }
        let config = match adapter_config {
            AdapterConfig::Cdn(config) => config,
            _ => {
                return general("Invalid CDN adapter config");
            },
        };
        let domain = domain_of(config);
        if let Some(alias) = alias {
            return Ok(serve_at(domain.as_str(), is_dynamic, alias.as_str()));
        }
        if let Some(slug) = short_link_slug {
            return Ok(serve_at(domain.as_str(), is_dynamic, slug.as_str()));
        }
        match (content_id, representation_type) {
            (Some(content_id), Some(representation_type)) => match strip_content_id(
                settings,
                content_id.as_str(),
            ) {
                Some(bare) => {
                    let tail = cat3(bare.as_str(), "/", representation_type.as_str());
                    Ok(serve_at(domain.as_str(), is_dynamic, tail.as_str()))
                },
                None => general("Invalid content ID format"),
            },
            _ => general("Content ID with representation type or Alias should be provided."),
        }
    }

    fn create_adapter(
        &self,
        settings: &Settings,
        adapter_id: &str,
        new_config: AdapterConfig,
    ) -> (task: Result<CdnTask, ServiceError>)
        ensures
            outcome(task) == (match creation_of(settings, adapter_id@, new_config.deep_view()) {
                Ok(creation) => Ok::<CdnTaskView, ErrorView>(CdnTaskView::Create(creation)),
                Err(error) => Err(error),
            }),
    {
        match begin_creation(settings, adapter_id, new_config) {
            Ok(creation) => Ok(CdnTask::Create(creation)),
            Err(error) => Err(error),
        }
    }

    fn update_adapter(
        &self,
        old_config: AdapterConfig,
        new_config: AdapterConfig,
        has_linked_alias: bool,
    ) -> (task: Result<CdnTask, ServiceError>)
        ensures
            outcome(task) == (match update_of(
                old_config.deep_view(),
                new_config.deep_view(),
                has_linked_alias,
            ) {
                Ok(update) => Ok::<CdnTaskView, ErrorView>(CdnTaskView::Update(update)),
                Err(error) => Err(error),
            }),
    {
        match begin_update(old_config, new_config, has_linked_alias) {
            Ok(update) => Ok(CdnTask::Update(update)),
            Err(error) => Err(error),
        }
    }

    fn delete_adapter(&self, config: AdapterConfig) -> (task: Result<CdnTask, ServiceError>)
        ensures
            outcome(task) == zone_task(
                config.deep_view(),
                ErrorView::InvalidRequestParameters("Invalid CDN config"@),
                CdnTaskView::Delete(
                    idempotent_call(
                        Method::Delete,
                        "pullzone/"@ + config.deep_view()->Cdn_0.pull_zone_id,
                        None,
                    ),
                ),
            ),
    {
        match config {
            AdapterConfig::Cdn(config) => {
                let path = cat2("pullzone/", config.pull_zone_id.as_str());
                Ok(CdnTask::Delete(BunnynetCall::idempotent(Method::Delete, path, None)))
            },
            _ => invalid("Invalid CDN config"),
        }
    }

    fn purge_by_url(&self, url: &str) -> (task: Result<CdnTask, ServiceError>)
        ensures
            outcome(task) == Ok::<CdnTaskView, ErrorView>(
                CdnTaskView::Call(
                    idempotent_call(
                        Method::Post,
                        "purge?url="@ + url@ + "&async=true"@,
                        None,
                    ),
                ),
            ),
    {
        let path = cat3("purge?url=", url, "&async=true");
        Ok(CdnTask::Call(BunnynetCall::idempotent(Method::Post, path, None)))
    }

    fn is_valid_uri(&self, settings: &Settings, uri: &str) -> (valid: bool)
        ensures
            valid == (parsed_url(uri@) matches Some(parts) && parts.scheme == "https"@),
    {
        match parse_url(uri) {
            Some(parts) => same_text(parts.scheme.as_str(), "https"),
            None => false,
        }
    }

    fn get_default_config(&self, settings: &Settings) -> (config: AdapterConfig)
        ensures
            config.deep_view() == AdapterConfigView::Cdn(
                CdnConfigView {
                    api_key: Some(settings.bunnynet_default_pullzone_token_auth_key@),
                    use_authentication: true,
                    pull_zone_name: settings.bunny_pull_zone_name@,
                    domain: Some(settings.bunny_pull_zone_domain@),
                    pull_zone_id: settings.bunnynet_default_pullzone_id@,
                    alias_enabled: false,
                },
            ),
    {
        AdapterConfig::Cdn(
            CdnConfig {
                api_key: Some(settings.bunnynet_default_pullzone_token_auth_key.clone()),
                use_authentication: true,
                pull_zone_name: settings.bunny_pull_zone_name.clone(),
                domain: Some(settings.bunny_pull_zone_domain.clone()),
                pull_zone_id: settings.bunnynet_default_pullzone_id.clone(),
                alias_enabled: false,
            },
        )
    }
}

impl CdnService {
    /// What purging comes to, once the call has been made.
    pub fn purged(pull_zone_name: &str, reply: Result<Option<Json>, ServiceError>) -> (result: Result<
        (),
        ServiceError,
    >)
        ensures
            match reply {
                Ok(_) => result is Ok,
                Err(_) => result matches Err(error) && error.deep_view()
                    == general_error(
                    "Failed to purge cache for CDN pullzone: ["@ + pull_zone_name@ + "]"@,
                ),
            },
    {
        match reply {
            Ok(_) => Ok(()),
            Err(_) => {
                let message = cat3(
                    "Failed to purge cache for CDN pullzone: [",
                    pull_zone_name,
                    "]",
                );
                general(message.as_str())
            },
        }
    }

    /// What deleting comes to, once the call has been made; a failure comes as it is displayed.
    pub fn deleted(reply: Result<Option<Json>, String>) -> (result: Result<(), ServiceError>)
        ensures
            match reply {
                Ok(_) => result is Ok,
                Err(shown) => result matches Err(error) && error.deep_view()
                    == general_error(
                    "Failed to send delete pullzone request: ["@ + shown@ + "]"@,
                ),
            },
    {
        match reply {
            Ok(_) => Ok(()),
            Err(shown) => {
                let message = cat3(
                    "Failed to send delete pullzone request: [",
                    shown.as_str(),
                    "]",
                );
                general(message.as_str())
            },
        }
    }
}

/// A content is staged under the address at which its URI is later reconstructed.
pub proof fn law_staged_uri_is_reconstructed(
    settings: &Settings,
    to_config: AdapterConfigView,
    from: FromStageView,
    to_alias: Option<Seq<char>>,
    to_representation_type: Option<Seq<char>>,
)
    ensures
        stage_of(settings, to_config, from, to_alias, to_representation_type) matches Ok(stage)
            ==> cdn_uri(
            settings,
            to_config,
            Some(from.content_representation_info.content_id),
            Some(stage.representation_type),
            to_alias,
            None,
            false,
        ) == Ok::<Seq<char>, ErrorView>(stage.to_uri),
{
}

proof fn lemma_replaced_lacks(s: Seq<char>, c: char, with: Seq<char>, absent: char)
    requires
        !with.contains(absent),
        c == absent || !s.contains(absent),
    ensures
        !replaced(s, c, with).contains(absent),
    decreases s.len(),
{
    if s.len() > 0 {
        let rest = s.drop_last();
        assert(!rest.contains(absent) || c == absent) by {
            if rest.contains(absent) && c != absent {
                let i = rest.index_of(absent);
                assert(s[i] == absent);
            }
        }
        lemma_replaced_lacks(rest, c, with, absent);
        let tail = if s.last() == c {
            with
        } else {
            seq![s.last()]
        };
        let head = replaced(rest, c, with);
        assert(!tail.contains(absent)) by {
            if s.last() != c && tail.contains(absent) {
                assert(tail[0] == s.last());
                assert(s[s.len() - 1] == absent);
                assert(s.contains(absent));
            }
        }
        if (head + tail).contains(absent) {
            let i = (head + tail).index_of(absent);
            if i < head.len() {
                assert(head[i] == absent);
            } else {
                assert(tail[i - head.len()] == absent);
            }
        }
    }
}

/// A token can stand in an address as it is: it holds no line break, `+`, `/` or `=`.
pub proof fn law_token_is_url_safe(text: Seq<char>)
    ensures
        !token_for(text).contains('\n'),
        !token_for(text).contains('+'),
        !token_for(text).contains('/'),
        !token_for(text).contains('='),
{
    reveal_strlit("");
    reveal_strlit("-");
    reveal_strlit("_");
    let base64 = base64_standard(sha256_digest(encode_utf8(text)));
    let one_line = replaced(base64, '\n', ""@);
    let no_plus = replaced(one_line, '+', "-"@);
    let no_slash = replaced(no_plus, '/', "_"@);
    lemma_replaced_lacks(base64, '\n', ""@, '\n');
    lemma_replaced_lacks(one_line, '+', "-"@, '\n');
    lemma_replaced_lacks(no_plus, '/', "_"@, '\n');
    lemma_replaced_lacks(no_slash, '=', ""@, '\n');
    lemma_replaced_lacks(one_line, '+', "-"@, '+');
    lemma_replaced_lacks(no_plus, '/', "_"@, '+');
    lemma_replaced_lacks(no_slash, '=', ""@, '+');
    lemma_replaced_lacks(no_plus, '/', "_"@, '/');
    lemma_replaced_lacks(no_slash, '=', ""@, '/');
    lemma_replaced_lacks(no_slash, '=', ""@, '=');
}

/// A signed address begins with the address that was signed.
pub proof fn law_signed_url_extends_url(url: Seq<char>, security_key: Seq<char>, expires: nat)
    ensures
        signed_url(url, security_key, expires) matches Ok(signed) ==> url.is_prefix_of(signed),
{
    if let Ok(signed) = signed_url(url, security_key, expires) {
        assert(signed.subrange(0, url.len() as int) =~= url);
    }
}

/// The order of the parameters of an address does not change its token.
pub proof fn law_parameter_order_is_irrelevant(a: Seq<char>, b: Seq<char>)
    requires
        split_text(a, "&"@).to_multiset() == split_text(b, "&"@).to_multiset(),
    ensures
        sorted_query(a) == sorted_query(b),
{
    crate::order::lemma_text_order();
    let leq = crate::order::text_order();
    split_text(a, "&"@).lemma_sort_by_ensures(leq);
    split_text(b, "&"@).lemma_sort_by_ensures(leq);
    vstd::seq_lib::lemma_sorted_unique(
        in_order(split_text(a, "&"@)),
        in_order(split_text(b, "&"@)),
        leq,
    );
}

} // verus!
