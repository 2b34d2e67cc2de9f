//! What the addresses of a CDN are, and what its operations amount to.
use vstd::prelude::*;
use vstd::utf8::encode_utf8;
use crate::encoding::{ascending, base64_standard, parsed_url, sha256_digest};
use crate::error::{outcome, ServiceError};
use crate::http::{CredentialsView, Method, PayloadView};
use crate::json::Json;
use crate::reading::{failed_as, failed_with, refused_with, was_refused};
use crate::storage_service::bunnynet::BunnynetRetryPolicy;
use crate::storage_service::cdn_service::{
    sorted_query, CdnService, CdnStage, CdnTask, MimeTypeQuery,
};
use crate::storage_service::pull_zone::{
    begin_creation, begin_update, CdnCreation, CdnUpdate,
};
use crate::storage_service::storage_service_trait::{
    ContentRepresentationInfo, FromStageInfo, GenerateUploadUrlOptions, Settings, StageItemResult,
    StorageServiceTrait,
};
use crate::storage_service_factory::get_adapter_type_from_id;
use crate::text::{
    decimal, join_text, law_decimal_spells_number, law_joined_parts_are_split,
    lemma_decimal_digits, replaced, split_text,
};
use crate::types::{
    AdapterConfig, AdapterConfigView, AdapterType, CallContext, CdnConfig, CdnConfigView,
    ContentHeadInfo, RetrieveProperties, RetrievePropertiesView,
};

verus! {

/// The parameters of an address that begins with a URI and a question mark.
pub open spec fn parameters_after(uri: Seq<char>, url: Seq<char>) -> Seq<Seq<char>> {
    split_text(url.skip(uri.len() as int + 1), "&"@)
}

/// How many of the properties of an image are asked for.
pub open spec fn asked_count(properties: Option<RetrievePropertiesView>) -> int {
    match properties {
        Some(properties) => {
            (if properties.width is Some {
                1int
            } else {
                0
            }) + (if properties.height is Some {
                1int
            } else {
                0
            }) + (if properties.aspect_ratio is Some {
                1int
            } else {
                0
            })
        },
        None => 0,
    }
}

proof fn lemma_join_push(parts: Seq<Seq<char>>, next: Seq<char>, separator: Seq<char>)
    requires
        parts.len() > 0,
    ensures
        join_text(parts.push(next), separator) == join_text(parts, separator) + separator + next,
{
    assert(parts.push(next).drop_last() =~= parts);
}

proof fn lemma_number_parameter(name: Seq<char>, n: nat)
    requires
        !name.contains('&'),
    ensures
        !(name + decimal(n)).contains('&'),
{
    lemma_decimal_digits(n);
    let param = name + decimal(n);
    if param.contains('&') {
        let i = param.index_of('&');
        if i < name.len() {
            assert(name[i] == '&');
        } else {
            assert(decimal(n)[i - name.len()] == '&');
            assert(crate::text::is_digit(decimal(n)[i - name.len()]));
        }
    }
}

proof fn lemma_different_decimals(a: u32, b: u32)
    ensures
        decimal(a as nat) == decimal(b as nat) ==> a == b,
{
    law_decimal_spells_number(a as nat);
    law_decimal_spells_number(b as nat);
}

proof fn lemma_same_front(front: Seq<char>, a: Seq<char>, b: Seq<char>)
    ensures
        front + a == front + b ==> a == b,
{
    if front + a == front + b {
        assert(a =~= (front + a).skip(front.len() as int));
        assert(b =~= (front + b).skip(front.len() as int));
    }
}

proof fn lemma_parameters(uri: Seq<char>, properties: RetrievePropertiesView) -> (params: Seq<
    Seq<char>,
>)
    requires
        asked_count(Some(properties)) > 0,
        properties.aspect_ratio matches Some(ratio) ==> !ratio.contains('&'),
    ensures
        ({
            let url = crate::storage_service::cdn_service::optimized_url(uri, Some(properties));
            &&& url.len() > uri.len()
            &&& params == parameters_after(uri, url)
        }),
        params == seq!["optimizer=image"@] + (match properties.width {
            Some(width) => seq!["width="@ + decimal(width as nat)],
            None => seq![],
        }) + (match properties.height {
            Some(height) => seq!["height="@ + decimal(height as nat)],
            None => seq![],
        }) + (match properties.aspect_ratio {
            Some(ratio) => seq!["aspect_ratio="@ + ratio],
            None => seq![],
        }),
{
    reveal_strlit("&");
    reveal_strlit("?optimizer=image");
    reveal_strlit("optimizer=image");
    reveal_strlit("&width=");
    reveal_strlit("width=");
    reveal_strlit("&height=");
    reveal_strlit("height=");
    reveal_strlit("&aspect_ratio=");
    reveal_strlit("aspect_ratio=");
    let url = crate::storage_service::cdn_service::optimized_url(uri, Some(properties));
    let first = seq!["optimizer=image"@];
    assert(join_text(first, "&"@) == "optimizer=image"@);
    assert("?optimizer=image"@.skip(1) =~= "optimizer=image"@);
    assert("&width="@ =~= "&"@ + "width="@);
    assert("&height="@ =~= "&"@ + "height="@);
    assert("&aspect_ratio="@ =~= "&"@ + "aspect_ratio="@);
    let second = match properties.width {
        Some(width) => {
            let param = "width="@ + decimal(width as nat);
            lemma_join_push(first, param, "&"@);
            lemma_number_parameter("width="@, width as nat);
            first.push(param)
        },
        None => first,
    };
    let third = match properties.height {
        Some(height) => {
            let param = "height="@ + decimal(height as nat);
            lemma_join_push(second, param, "&"@);
            lemma_number_parameter("height="@, height as nat);
            second.push(param)
        },
        None => second,
    };
    let params = match properties.aspect_ratio {
        Some(ratio) => {
            let param = "aspect_ratio="@ + ratio;
            lemma_join_push(third, param, "&"@);
            assert(!param.contains('&')) by {
                if param.contains('&') {
                    let i = param.index_of('&');
                    if i >= 13 {
                        assert(ratio[i - 13] == '&');
                    }
                }
            }
            third.push(param)
        },
        None => third,
    };
    assert(url.skip(uri.len() as int + 1) =~= join_text(params, "&"@));
    assert("&"@ =~= seq!['&']);
    law_joined_parts_are_split(params, '&');
    assert(params =~= seq!["optimizer=image"@] + (match properties.width {
        Some(width) => seq!["width="@ + decimal(width as nat)],
        None => seq![],
    }) + (match properties.height {
        Some(height) => seq!["height="@ + decimal(height as nat)],
        None => seq![],
    }) + (match properties.aspect_ratio {
        Some(ratio) => seq!["aspect_ratio="@ + ratio],
        None => seq![],
    }));
    params
}

/// Where a pull zone asks for no tokens, the address to fetch a content is its URI, and where any
/// property of an image is asked for, the parameters of the image optimizer after it: one that
/// switches it on and one for each property that is asked for, independently of the others. An
/// aspect ratio that holds a separator stands at the end as it is.
pub proof fn law_fetch_address_has_what_was_asked_for(
    service: &CdnService,
    settings: &Settings,
    content_uri: &str,
    config: CdnConfig,
    retrieve_properties: Option<RetrieveProperties>,
    content_repr_properties: Option<ContentRepresentationInfo>,
    now_secs: u64,
    task: Result<CdnTask, ServiceError>,
)
    requires
        !config.use_authentication,
        call_ensures(
            CdnService::generate_pre_signed_url,
            (
                service,
                settings,
                content_uri,
                AdapterConfig::Cdn(config),
                retrieve_properties,
                content_repr_properties,
                now_secs,
            ),
            task,
        ),
    ensures
        task matches Ok(CdnTask::Url(url)) && {
            let asked = retrieve_properties.deep_view();
            let params = parameters_after(content_uri@, url@);
            &&& asked_count(asked) == 0 ==> url@ == content_uri@
            &&& asked_count(asked) > 0 ==> {
                &&& content_uri@.is_prefix_of(url@)
                &&& url@[content_uri@.len() as int] == '?'
                &&& asked->0.aspect_ratio matches Some(ratio) ==> url@.skip(
                    url@.len() - 14 - ratio.len(),
                ) == "&aspect_ratio="@ + ratio
                &&& (asked->0.aspect_ratio matches Some(ratio) ==> !ratio.contains('&')) ==> {
                    &&& params.len() == 1 + asked_count(asked)
                    &&& params[0] == "optimizer=image"@
                    &&& asked->0.width matches Some(width) ==> params[1] == "width="@ + decimal(
                        width as nat,
                    )
                    &&& asked->0.aspect_ratio matches Some(ratio) ==> params.last()
                        == "aspect_ratio="@ + ratio
                    &&& forall|width: u32|
                        params.contains("width="@ + #[trigger] decimal(width as nat))
                            <==> asked->0.width == Some(width)
                    &&& forall|height: u32|
                        params.contains("height="@ + #[trigger] decimal(height as nat))
                            <==> asked->0.height == Some(height)
                    &&& forall|ratio: Seq<char>| #[trigger]
                        params.contains("aspect_ratio="@ + ratio) <==> asked->0.aspect_ratio
                            == Some(ratio)
                }
            }
        },
{
    let asked = retrieve_properties.deep_view();
    let uri = content_uri@;
    let url = task->Ok_0->Url_0@;
    reveal_strlit("?optimizer=image");
    reveal_strlit("optimizer=image");
    reveal_strlit("&aspect_ratio=");
    reveal_strlit("width=");
    reveal_strlit("height=");
    reveal_strlit("aspect_ratio=");
    if asked_count(asked) > 0 {
        assert(url.subrange(0, uri.len() as int) =~= uri);
        if let Some(ratio) = asked->0.aspect_ratio {
            assert(url.skip(url.len() - 14 - ratio.len()) =~= "&aspect_ratio="@ + ratio);
        }
        if asked->0.aspect_ratio matches Some(ratio) ==> !ratio.contains('&') {
            let params = lemma_parameters(uri, asked->0);
            assert(params[0] == "optimizer=image"@);
            assert forall|width: u32|
                params.contains("width="@ + #[trigger] decimal(width as nat)) <==> asked->0.width
                    == Some(width) by {
                let param = "width="@ + decimal(width as nat);
                assert(param[0] == 'w');
                if params.contains(param) {
                    let i = params.index_of(param);
                    assert(params[i][0] == 'w');
                    assert(i == 1 && asked->0.width is Some);
                    lemma_same_front(
                        "width="@,
                        decimal(width as nat),
                        decimal(asked->0.width->0 as nat),
                    );
                    lemma_different_decimals(width, asked->0.width->0);
                }
                if asked->0.width == Some(width) {
                    assert(params[1] == param);
                }
            }
            assert forall|height: u32|
                params.contains("height="@ + #[trigger] decimal(height as nat))
                    <==> asked->0.height == Some(height) by {
                let param = "height="@ + decimal(height as nat);
                assert(param[0] == 'h');
                let at: int = if asked->0.width is Some {
                    2
                } else {
                    1
                };
                if params.contains(param) {
                    let i = params.index_of(param);
                    assert(params[i][0] == 'h');
                    assert(i == at && asked->0.height is Some);
                    lemma_same_front(
                        "height="@,
                        decimal(height as nat),
                        decimal(asked->0.height->0 as nat),
                    );
                    lemma_different_decimals(height, asked->0.height->0);
                }
                if asked->0.height == Some(height) {
                    assert(params[at] == param);
                }
            }
            assert forall|ratio: Seq<char>| #[trigger]
                params.contains("aspect_ratio="@ + ratio) <==> asked->0.aspect_ratio == Some(
                ratio,
            ) by {
                let param = "aspect_ratio="@ + ratio;
                assert(param[0] == 'a');
                if params.contains(param) {
                    let i = params.index_of(param);
                    assert(params[i][0] == 'a');
                    assert(i == params.len() - 1 && asked->0.aspect_ratio is Some);
                    lemma_same_front("aspect_ratio="@, ratio, asked->0.aspect_ratio->0);
                }
                if asked->0.aspect_ratio == Some(ratio) {
                    assert(params[params.len() - 1] == param);
                }
            }
        }
    }
}

/// A text in base64 as it stands in an address: `+` and `/` written as `-` and `_`, without padding
/// and line breaks.
pub open spec fn url_safe(base64: Seq<char>) -> Seq<char>
    decreases base64.len(),
{
    if base64.len() == 0 {
        Seq::empty()
    } else {
        let front = url_safe(base64.drop_last());
        let c = base64.last();
        if c == '=' || c == '\n' {
            front
        } else if c == '+' {
            front.push('-')
        } else if c == '/' {
            front.push('_')
        } else {
            front.push(c)
        }
    }
}

proof fn lemma_replaced_push(s: Seq<char>, last: char, c: char, with: Seq<char>)
    ensures
        replaced(s.push(last), c, with) == replaced(s, c, with) + (if last == c {
            with
        } else {
            seq![last]
        }),
{
    assert(s.push(last).drop_last() =~= s);
}

proof fn lemma_url_safe(base64: Seq<char>)
    ensures
        replaced(
            replaced(replaced(replaced(base64, '\n', ""@), '+', "-"@), '/', "_"@),
            '=',
            ""@,
        ) == url_safe(base64),
    decreases base64.len(),
{
    reveal_strlit("");
    reveal_strlit("-");
    reveal_strlit("_");
    if base64.len() > 0 {
        let rest = base64.drop_last();
        let last = base64.last();
        lemma_url_safe(rest);
        assert(base64 =~= rest.push(last));
        lemma_replaced_push(rest, last, '\n', ""@);
        let one = replaced(rest, '\n', ""@);
        let two = replaced(one, '+', "-"@);
        let three = replaced(two, '/', "_"@);
        let four = replaced(three, '=', ""@);
        if last == '\n' {
            assert(replaced(base64, '\n', ""@) =~= one);
        } else {
            assert(replaced(base64, '\n', ""@) =~= one.push(last));
            lemma_replaced_push(one, last, '+', "-"@);
            let second = if last == '+' {
                '-'
            } else {
                last
            };
            assert(replaced(one.push(last), '+', "-"@) =~= two.push(second));
            lemma_replaced_push(two, second, '/', "_"@);
            let third = if second == '/' {
                '_'
            } else {
                second
            };
            assert(replaced(two.push(second), '/', "_"@) =~= three.push(third));
            lemma_replaced_push(three, third, '=', ""@);
            if third == '=' {
                assert(replaced(three.push(third), '=', ""@) =~= four);
            } else {
                assert(replaced(three.push(third), '=', ""@) =~= four.push(third));
            }
        }
    }
}

/// The parameters are those of the query, in ascending order.
pub open spec fn are_sorted_parameters(params: Seq<Seq<char>>, query: Seq<char>) -> bool {
    &&& params.to_multiset() == split_text(query, "&"@).to_multiset()
    &&& ascending(params)
}

proof fn lemma_sorted_query(params: Seq<Seq<char>>, query: Seq<char>)
    requires
        are_sorted_parameters(params, query),
    ensures
        sorted_query(query) == join_text(params, "&"@),
{
    let leq = crate::order::text_order();
    crate::order::lemma_text_order();
    split_text(query, "&"@).lemma_sort_by_ensures(leq);
    let sorted = crate::order::in_order(split_text(query, "&"@));
    assert(vstd::relations::sorted_by(params, leq)) by {
        assert forall|i: int, j: int| 0 <= i < j < params.len() implies #[trigger] leq(
            params[i],
            params[j],
        ) by {
            assert(crate::text::text_le(params[i], params[j]));
        }
    }
    vstd::seq_lib::lemma_sorted_unique(params, sorted, leq);
}

/// Signing an address adds a token and the moment at which it expires, after a question mark, or
/// after an ampersand where the address has a query already. The token is the SHA-256 digest of
/// the key, the path, the moment and the parameters in order, in base64 that can stand in an
/// address. An address that cannot be taken apart is not signed.
pub proof fn law_signature_covers_the_address(
    service: &CdnService,
    url: &str,
    security_key: &str,
    expiration_time: u64,
    now_secs: u64,
    signed: Result<String, ServiceError>,
    params: Seq<Seq<char>>,
)
    requires
        call_ensures(
            CdnService::sign_authenticated_url,
            (service, url, security_key, expiration_time, now_secs),
            signed,
        ),
        parsed_url(url@) matches Some(parts) ==> are_sorted_parameters(
            params,
            match parts.query {
                Some(query) => query,
                None => ""@,
            },
        ),
    ensures
        match parsed_url(url@) {
            None => failed_with(signed, "Invalid content URI format"@),
            Some(parts) => {
                let expires = decimal((now_secs + expiration_time) as nat);
                let text = security_key@ + parts.path + expires + join_text(params, "&"@);
                let separator = if parts.query matches Some(query) && query.len() > 0 {
                    "&"@
                } else {
                    "?"@
                };
                signed matches Ok(signed) && signed@ == url@ + separator + "token="@ + url_safe(
                    base64_standard(sha256_digest(encode_utf8(text))),
                ) + "&expires="@ + expires
            },
        },
{
    reveal_strlit("");
    if let Some(parts) = parsed_url(url@) {
        let query = match parts.query {
            Some(query) => query,
            None => ""@,
        };
        lemma_sorted_query(params, query);
        let expires = decimal((now_secs + expiration_time) as nat);
        let text = security_key@ + parts.path + expires + join_text(params, "&"@);
        lemma_url_safe(base64_standard(sha256_digest(encode_utf8(text))));
    }
}

/// Where a pull zone asks for tokens, the address to fetch a content is the one that it would have
/// without tokens, signed with the key of the zone until the time that is set has passed. Without a
/// key, and for an adapter that is none of a CDN, there is no address.
pub proof fn law_addresses_are_signed_where_tokens_are_asked_for(
    service: &CdnService,
    settings: &Settings,
    content_uri: &str,
    config: CdnConfig,
    open_config: CdnConfig,
    retrieve_properties: Option<RetrieveProperties>,
    content_repr_properties: Option<ContentRepresentationInfo>,
    now_secs: u64,
    task: Result<CdnTask, ServiceError>,
    open_task: Result<CdnTask, ServiceError>,
    key: &str,
    plain: &str,
    signed: Result<String, ServiceError>,
)
    requires
        config.use_authentication,
        !open_config.use_authentication,
        call_ensures(
            CdnService::generate_pre_signed_url,
            (
                service,
                settings,
                content_uri,
                AdapterConfig::Cdn(config),
                retrieve_properties,
                content_repr_properties,
                now_secs,
            ),
            task,
        ),
        call_ensures(
            CdnService::generate_pre_signed_url,
            (
                service,
                settings,
                content_uri,
                AdapterConfig::Cdn(open_config),
                retrieve_properties,
                content_repr_properties,
                now_secs,
            ),
            open_task,
        ),
        config.api_key matches Some(api_key) ==> key@ == api_key@,
        open_task matches Ok(CdnTask::Url(url)) ==> plain@ == url@,
        call_ensures(
            CdnService::sign_authenticated_url,
            (service, plain, key, settings.pre_signed_url_expiration_time, now_secs),
            signed,
        ),
    ensures
        open_task matches Ok(CdnTask::Url(_)),
        config.api_key is None ==> failed_with(
            task,
            "Pullzone security key is required in CDN config when using token authentication"@,
        ),
        config.api_key is Some ==> match signed {
            Ok(signed) => task matches Ok(CdnTask::Url(url)) && url@ == signed@,
            Err(error) => task matches Err(found) && found.deep_view() == error.deep_view(),
        },
{
}

/// Contents are looked at by asking for their headers at the addresses at which they are fetched,
/// one for each pair of a URI and a configuration, in order; what has no address fails as asking
/// for its address does.
pub proof fn law_heads_are_asked_at_the_fetch_addresses(
    service: &CdnService,
    settings: &Settings,
    content_uris: &Vec<String>,
    adapter_configs: &Vec<AdapterConfig>,
    now_secs: u64,
    task: Result<CdnTask, ServiceError>,
    at: int,
    content_uri: &str,
    address: Result<String, ServiceError>,
)
    requires
        call_ensures(
            CdnService::retrieve_head_infos,
            (service, settings, content_uris, adapter_configs, now_secs),
            task,
        ),
        0 <= at < content_uris@.len(),
        at < adapter_configs@.len(),
        content_uri@ == content_uris@[at]@,
        call_ensures(
            CdnService::pre_sign,
            (service, settings, content_uri, &adapter_configs@[at], &None, now_secs),
            address,
        ),
    ensures
        task matches Ok(CdnTask::HeadInfos(requests)) && {
            &&& requests@.len() <= content_uris@.len() && requests@.len() <= adapter_configs@.len()
            &&& requests@.len() == content_uris@.len() || requests@.len()
                == adapter_configs@.len()
            &&& match address {
                Ok(url) => requests@[at] matches Ok(request) && {
                    let request = request.deep_view();
                    &&& request.method == Method::Head
                    &&& request.url == url@
                    &&& request.headers == Seq::<(Seq<char>, Seq<char>)>::empty()
                    &&& request.credentials == CredentialsView::Anonymous
                    &&& request.payload == PayloadView::Nothing
                },
                Err(error) => requests@[at] matches Err(found) && found.deep_view()
                    == error.deep_view(),
            }
        },
{
    let requests = task->Ok_0->HeadInfos_0;
    let views = crate::storage_service::head::outcomes(requests@);
    assert(views.len() == requests@.len());
    assert(views[at] == outcome(requests@[at]));
}

/// The domain at which a pull zone is reached: its own, or one with its name.
pub open spec fn reached_at(config: CdnConfigView) -> Seq<char> {
    match config.domain {
        Some(domain) => domain,
        None => config.pull_zone_name + ".b-cdn.net"@,
    }
}

/// The identifier of a content is the prefix for contents, an underscore and the rest.
pub open spec fn names_content(settings: &Settings, content_id: Seq<char>, bare: Seq<char>) -> bool {
    content_id == settings.content_id_prefix@ + "_"@ + bare
}

proof fn lemma_bare(settings: &Settings, content_id: Seq<char>, bare: Seq<char>)
    ensures
        names_content(settings, content_id, bare) <==> ({
            let prefix = settings.content_id_prefix@ + "_"@;
            prefix.is_prefix_of(content_id) && bare == content_id.skip(prefix.len() as int)
        }),
{
    let prefix = settings.content_id_prefix@ + "_"@;
    if names_content(settings, content_id, bare) {
        assert(content_id.subrange(0, prefix.len() as int) =~= prefix);
        assert(bare =~= content_id.skip(prefix.len() as int));
    }
    if prefix.is_prefix_of(content_id) && bare == content_id.skip(prefix.len() as int) {
        assert(content_id =~= prefix + bare);
    }
}

/// The URI of a content at a CDN is the domain of the pull zone and after it, under `dynamic` where
/// that is asked for, the alias, the short link, or the identifier without its prefix together with
/// the type. It exists exactly where at most one of alias and short link is given, and where one is
/// or the identifier and the type are and the identifier has its prefix.
pub proof fn law_reconstructed_addresses(
    service: &CdnService,
    settings: &Settings,
    stripped: &str,
    config: CdnConfig,
    content_id: Option<String>,
    representation_type: Option<String>,
    alias: Option<String>,
    short_link_slug: Option<String>,
    is_dynamic: bool,
    uri: Result<String, ServiceError>,
    bare: Seq<char>,
)
    requires
        call_ensures(
            CdnService::reconstruct_uri,
            (
                service,
                settings,
                stripped,
                &AdapterConfig::Cdn(config),
                content_id,
                representation_type,
                alias,
                short_link_slug,
                is_dynamic,
            ),
            uri,
        ),
    ensures
        ({
            let front = "https://"@ + reached_at(config.deep_view()) + (if is_dynamic {
                "/dynamic/"@
            } else {
                "/"@
            });
            match (alias, short_link_slug) {
                (Some(_), Some(_)) => uri is Err,
                (Some(alias), None) => uri matches Ok(uri) && uri@ == front + alias@,
                (None, Some(slug)) => uri matches Ok(uri) && uri@ == front + slug@,
                (None, None) => match (content_id, representation_type) {
                    (Some(content_id), Some(representation_type)) => {
                        &&& uri is Ok <==> exists|rest: Seq<char>|
                            names_content(settings, content_id@, rest)
                        &&& names_content(settings, content_id@, bare) ==> (uri matches Ok(uri)
                            && uri@ == front + bare + "/"@ + representation_type@)
                    },
                    _ => uri is Err,
                },
            }
        }),
{
    if let (Some(content_id), Some(representation_type)) = (content_id, representation_type) {
        let prefix = settings.content_id_prefix@ + "_"@;
        let rest = content_id@.skip(prefix.len() as int);
        lemma_bare(settings, content_id@, rest);
        lemma_bare(settings, content_id@, bare);
        if exists|rest: Seq<char>| names_content(settings, content_id@, rest) {
            let found = choose|rest: Seq<char>| names_content(settings, content_id@, rest);
            lemma_bare(settings, content_id@, found);
        }
        if alias is None && short_link_slug is None && names_content(settings, content_id@, bare) {
            let front = "https://"@ + reached_at(config.deep_view()) + (if is_dynamic {
                "/dynamic/"@
            } else {
                "/"@
            });
            assert(uri->Ok_0@ =~= front + bare + "/"@ + representation_type@);
        }
    }
}

/// A content is staged to a CDN by registering it: under its alias where one is given, and
/// otherwise under its identifier without the prefix and its type, which is the one at the origin
/// unless another is asked for. Where the type changes, the one at the origin is kept as the
/// stripped URI. What is known of the content is asked of its origin. An alias goes together with
/// neither another type nor tokens and has to be allowed; without one, the content must not come
/// from a CDN.
pub proof fn law_contents_are_registered(
    service: &CdnService,
    settings: &Settings,
    ctx: &CallContext,
    config: CdnConfig,
    from: FromStageInfo,
    to_alias: Option<String>,
    to_representation_type: Option<String>,
    task: Result<CdnTask, ServiceError>,
    adapter_id: &str,
    from_type: Option<AdapterType>,
    bare: Seq<char>,
)
    requires
        call_ensures(
            CdnService::stage,
            (
                service,
                settings,
                ctx,
                AdapterConfig::Cdn(config),
                from,
                to_alias,
                to_representation_type,
            ),
            task,
        ),
        adapter_id@ == from.adapter_id@,
        call_ensures(get_adapter_type_from_id, (settings, adapter_id), from_type),
        names_content(settings, from.content_representation_info.content_id@, bare),
    ensures
        ({
            let info = from.content_representation_info.deep_view();
            let to_type = match to_representation_type {
                Some(to_type) => to_type@,
                None => info.representation_type,
            };
            &&& task is Ok <==> {
                &&& from_type is Some
                &&& to_alias is None ==> from_type != Some(AdapterType::Cdn)
                &&& to_alias is Some ==> to_representation_type is None && config.alias_enabled
                    && !config.use_authentication
            }
            &&& task is Ok ==> {
                &&& task matches Ok(CdnTask::Stage(stage))
                &&& stage.to_uri@ == "https://"@ + reached_at(config.deep_view()) + "/"@ + (
                match to_alias {
                    Some(alias) => alias@,
                    None => bare + "/"@ + to_type,
                })
                &&& stage.representation_type@ == to_type
                &&& stage.stripped_uri@ == (if to_type == info.representation_type {
                    Seq::empty()
                } else {
                    info.representation_type
                })
                &&& Some(stage.from_adapter_type) == from_type
                &&& stage.from_adapter_config.deep_view() == from.adapter_config.deep_view()
                &&& stage.from_uri@ == info.uri
                &&& stage.from_mime_type@ == info.mime_type
                &&& stage.filename@ == info.filename
            }
        }),
{
    reveal_strlit("");
    lemma_bare(settings, from.content_representation_info.content_id@, bare);
    if let Ok(CdnTask::Stage(stage)) = task {
        assert(""@ =~= Seq::empty());
    }
}

/// A content whose identifier lacks the prefix for contents is not staged, nor is anything staged
/// to an adapter that is none of a CDN.
pub proof fn law_unnamed_contents_are_not_registered(
    service: &CdnService,
    settings: &Settings,
    ctx: &CallContext,
    config: AdapterConfig,
    from: FromStageInfo,
    to_alias: Option<String>,
    to_representation_type: Option<String>,
    task: Result<CdnTask, ServiceError>,
)
    requires
        call_ensures(
            CdnService::stage,
            (service, settings, ctx, config, from, to_alias, to_representation_type),
            task,
        ),
        !(config is Cdn) || forall|bare: Seq<char>|
            !names_content(settings, from.content_representation_info.content_id@, bare),
    ensures
        was_refused(task),
{
    if config is Cdn {
        let content_id = from.content_representation_info.content_id@;
        let prefix = settings.content_id_prefix@ + "_"@;
        lemma_bare(settings, content_id, content_id.skip(prefix.len() as int));
        assert(!names_content(settings, content_id, content_id.skip(prefix.len() as int)));
    }
}

/// What is registered has the size and the file name that its origin told first, the type that was
/// resolved from what is recorded and told of it, and the address, the stripped URI, the type of
/// representation and the file name with which staging began.
pub proof fn law_registered_contents_are_described(
    stage: CdnStage,
    infos: Result<Vec<ContentHeadInfo>, ServiceError>,
    query: Result<(MimeTypeQuery, ContentHeadInfo), ServiceError>,
    resolved: String,
    item: StageItemResult,
)
    requires
        call_ensures(CdnStage::origin_answered, (&stage, infos), query),
        query matches Ok((_, info)) ==> call_ensures(
            CdnStage::finish,
            (stage, info, resolved),
            item,
        ),
    ensures
        query is Ok <==> (infos matches Ok(infos) && infos@.len() > 0),
        infos matches Err(error) ==> (query matches Err(found) && found.deep_view()
            == error.deep_view()),
        infos matches Ok(infos) ==> (infos@.len() > 0 ==> {
            let told = infos@[0].deep_view();
            let asked = query->Ok_0.0.deep_view();
            let item = item.deep_view();
            &&& asked.recorded == stage.from_mime_type@
            &&& asked.from_head == told.mime_type
            &&& asked.filename == stage.filename@
            &&& asked.uri == stage.from_uri@
            &&& item.uri == stage.to_uri@
            &&& item.stripped_uri == stage.stripped_uri@
            &&& item.representation_type == stage.representation_type@
            &&& item.filename == stage.filename@
            &&& item.head_info.mime_type == resolved@
            &&& item.head_info.size == told.size
            &&& item.head_info.filename == told.filename
        }),
{
}

/// Purging empties the cache of the pull zone, deleting deletes the zone, and purging an address
/// names that address; all of these can be repeated. They work on the zone of the adapter and on no
/// other adapter.
pub proof fn law_zone_calls(
    service: &CdnService,
    settings: &Settings,
    content_uri: &str,
    config: AdapterConfig,
    url: &str,
    purge: Result<CdnTask, ServiceError>,
    delete: Result<CdnTask, ServiceError>,
    purge_url: Result<CdnTask, ServiceError>,
)
    requires
        call_ensures(CdnService::purge, (service, settings, content_uri, config), purge),
        call_ensures(CdnService::delete_adapter, (service, config), delete),
        call_ensures(CdnService::purge_by_url, (service, url), purge_url),
    ensures
        config.deep_view() matches AdapterConfigView::Cdn(zone) ==> {
            &&& purge matches Ok(CdnTask::Purge { call, pull_zone_name }) && {
                let call = call.deep_view();
                &&& call.method == Method::Post
                &&& call.path == "pullzone/"@ + zone.pull_zone_id + "/purgeCache"@
                &&& call.body is None
                &&& call.policy == BunnynetRetryPolicy::Idempotent
                &&& pull_zone_name@ == zone.pull_zone_name
            }
            &&& delete matches Ok(CdnTask::Delete(call)) && {
                let call = call.deep_view();
                &&& call.method == Method::Delete
                &&& call.path == "pullzone/"@ + zone.pull_zone_id
                &&& call.body is None
                &&& call.policy == BunnynetRetryPolicy::Idempotent
            }
        },
        !(config is Cdn) ==> purge is Err && delete is Err,
        purge_url matches Ok(CdnTask::Call(call)) && {
            let call = call.deep_view();
            &&& call.method == Method::Post
            &&& call.path == "purge?url="@ + url@ + "&async=true"@
            &&& call.body is None
            &&& call.policy == BunnynetRetryPolicy::Idempotent
        },
{
}

/// Purging and deleting succeed exactly where the call does; a failure names the pull zone, or says
/// what went wrong.
pub proof fn law_zone_calls_come_to_what_was_replied(
    pull_zone_name: &str,
    purge_reply: Result<Option<Json>, ServiceError>,
    purged: Result<(), ServiceError>,
    delete_reply: Result<Option<Json>, String>,
    deleted: Result<(), ServiceError>,
)
    requires
        call_ensures(CdnService::purged, (pull_zone_name, purge_reply), purged),
        call_ensures(CdnService::deleted, (delete_reply,), deleted),
    ensures
        purged is Ok <==> purge_reply is Ok,
        deleted is Ok <==> delete_reply is Ok,
        purge_reply is Err ==> failed_with(
            purged,
            "Failed to purge cache for CDN pullzone: ["@ + pull_zone_name@ + "]"@,
        ),
        delete_reply matches Err(shown) ==> failed_with(
            deleted,
            "Failed to send delete pullzone request: ["@ + shown@ + "]"@,
        ),
{
}

/// The adapter that is there by default is the pull zone of the settings, which asks for tokens and
/// takes no aliases. Nothing of an address is stored, and an address is valid exactly where it can
/// be taken apart and is one over HTTPS.
pub proof fn law_default_zone(
    service: &CdnService,
    settings: &Settings,
    uri: &str,
    config: AdapterConfig,
    stripped: Result<String, ServiceError>,
    valid: bool,
)
    requires
        call_ensures(CdnService::get_default_config, (service, settings), config),
        call_ensures(CdnService::strip_uri, (service, uri), stripped),
        call_ensures(CdnService::is_valid_uri, (service, settings, uri), valid),
    ensures
        config.deep_view() matches AdapterConfigView::Cdn(zone) && {
            &&& zone.api_key == Some(settings.bunnynet_default_pullzone_token_auth_key@)
            &&& zone.use_authentication && !zone.alias_enabled
            &&& zone.pull_zone_name == settings.bunny_pull_zone_name@
            &&& zone.domain == Some(settings.bunny_pull_zone_domain@)
            &&& zone.pull_zone_id == settings.bunnynet_default_pullzone_id@
        },
        stripped matches Ok(stripped) && stripped@.len() == 0,
        valid <==> (parsed_url(uri@) matches Some(parts) && parts.scheme == "https"@),
{
    reveal_strlit("");
}

/// An adapter that is none of a CDN has no addresses at a CDN: contents cannot be fetched, looked
/// at or reconstructed, and nothing can be purged or deleted.
pub proof fn law_other_adapters_have_no_addresses(
    service: &CdnService,
    settings: &Settings,
    content_uri: &str,
    config: AdapterConfig,
    retrieve_properties: Option<RetrieveProperties>,
    content_repr_properties: Option<ContentRepresentationInfo>,
    content_id: Option<String>,
    representation_type: Option<String>,
    is_dynamic: bool,
    now_secs: u64,
    task: Result<CdnTask, ServiceError>,
    address: Result<String, ServiceError>,
    uri: Result<String, ServiceError>,
    purge: Result<CdnTask, ServiceError>,
    delete: Result<CdnTask, ServiceError>,
)
    requires
        !(config is Cdn),
        call_ensures(
            CdnService::generate_pre_signed_url,
            (
                service,
                settings,
                content_uri,
                config,
                retrieve_properties,
                content_repr_properties,
                now_secs,
            ),
            task,
        ),
        call_ensures(
            CdnService::pre_sign,
            (service, settings, content_uri, &config, &retrieve_properties, now_secs),
            address,
        ),
        call_ensures(
            CdnService::reconstruct_uri,
            (
                service,
                settings,
                content_uri,
                &config,
                content_id,
                representation_type,
                None,
                None,
                is_dynamic,
            ),
            uri,
        ),
        call_ensures(CdnService::purge, (service, settings, content_uri, config), purge),
        call_ensures(CdnService::delete_adapter, (service, config), delete),
    ensures
        failed_with(task, "Invalid CDN adapter config"@),
        failed_with(address, "Invalid CDN adapter config"@),
        failed_with(uri, "Invalid CDN adapter config"@),
        failed_with(purge, "Invalid CDN adapter config"@),
        refused_with(delete, "Invalid CDN config"@),
{
}

/// What keeps a URI from being reconstructed is told: an alias and a short link together, neither
/// of them and an identifier or a type that is missing, or an identifier without its prefix.
pub proof fn law_missing_addresses_are_explained(
    service: &CdnService,
    settings: &Settings,
    stripped: &str,
    config: CdnConfig,
    content_id: Option<String>,
    representation_type: Option<String>,
    alias: Option<String>,
    short_link_slug: Option<String>,
    is_dynamic: bool,
    uri: Result<String, ServiceError>,
)
    requires
        call_ensures(
            CdnService::reconstruct_uri,
            (
                service,
                settings,
                stripped,
                &AdapterConfig::Cdn(config),
                content_id,
                representation_type,
                alias,
                short_link_slug,
                is_dynamic,
            ),
            uri,
        ),
    ensures
        uri is Err ==> failed_with(
            uri,
            if alias is Some {
                "Cannot use \"alias\" and \"short_link\" together"@
            } else if content_id is None || representation_type is None {
                "Content ID with representation type or Alias should be provided."@
            } else {
                "Invalid content ID format"@
            },
        ),
{
}

/// What keeps a content from being registered is told, and the first fault counts: a content of a
/// CDN without an alias, an alias together with another type, an alias that is not allowed or goes
/// together with tokens, and an adapter at the origin that is of no kind.
pub proof fn law_registrations_are_refused(
    service: &CdnService,
    settings: &Settings,
    ctx: &CallContext,
    config: CdnConfig,
    from: FromStageInfo,
    to_alias: Option<String>,
    to_representation_type: Option<String>,
    task: Result<CdnTask, ServiceError>,
    adapter_id: &str,
    from_type: Option<AdapterType>,
    bare: Seq<char>,
)
    requires
        call_ensures(
            CdnService::stage,
            (
                service,
                settings,
                ctx,
                AdapterConfig::Cdn(config),
                from,
                to_alias,
                to_representation_type,
            ),
            task,
        ),
        adapter_id@ == from.adapter_id@,
        call_ensures(get_adapter_type_from_id, (settings, adapter_id), from_type),
    ensures
        match to_alias {
            None => from_type == Some(AdapterType::Cdn) ==> refused_with(
                task,
                "Stage from CDN representation allowed only when update alias"@,
            ),
            Some(_) => {
                &&& to_representation_type is Some ==> refused_with(
                    task,
                    "Cannot stage to alias when stage to another representation type"@,
                )
                &&& to_representation_type is None && !config.alias_enabled ==> refused_with(
                    task,
                    "Cannot stage to alias when destination CDN adapter alias disabled"@,
                )
                &&& to_representation_type is None && config.alias_enabled
                    && config.use_authentication ==> refused_with(
                    task,
                    "Cannot stage to alias when destination CDN adapter use authentication"@,
                )
            },
        },
        names_content(settings, from.content_representation_info.content_id@, bare) && from_type
            is None && to_alias is None ==> failed_with(task, "Invalid adapter ID"@),
        (forall|rest: Seq<char>|
            !#[trigger] names_content(
                settings,
                from.content_representation_info.content_id@,
                rest,
            )) && to_alias is None && from_type != Some(AdapterType::Cdn) ==> refused_with(
            task,
            "Invalid content ID format"@,
        ),
{
    let content_id = from.content_representation_info.content_id@;
    let prefix = settings.content_id_prefix@ + "_"@;
    lemma_bare(settings, content_id, bare);
    lemma_bare(settings, content_id, content_id.skip(prefix.len() as int));
    assert(names_content(settings, content_id, content_id.skip(prefix.len() as int))
        || !prefix.is_prefix_of(content_id));
}

/// Where the origin tells nothing of a content, the failure names the URI at the origin.
pub proof fn law_untold_contents_are_named(
    stage: CdnStage,
    infos: Vec<ContentHeadInfo>,
    query: Result<(MimeTypeQuery, ContentHeadInfo), ServiceError>,
)
    requires
        call_ensures(CdnStage::origin_answered, (&stage, Ok(infos)), query),
        infos@.len() == 0,
    ensures
        failed_with(
            query,
            "Failed to get head info for origin URI ["@ + stage.from_uri@ + "]"@,
        ),
{
    assert(infos.deep_view().len() == infos@.len());
}

/// Creating and updating an adapter of a CDN creates and updates its pull zone.
pub proof fn law_adapters_are_pull_zones(
    service: &CdnService,
    settings: &Settings,
    adapter_id: &str,
    old_config: AdapterConfig,
    new_config: AdapterConfig,
    has_linked_alias: bool,
    create: Result<CdnTask, ServiceError>,
    creation: Result<CdnCreation, ServiceError>,
    change: Result<CdnTask, ServiceError>,
    update: Result<CdnUpdate, ServiceError>,
)
    requires
        call_ensures(
            CdnService::create_adapter,
            (service, settings, adapter_id, new_config),
            create,
        ),
        call_ensures(begin_creation, (settings, adapter_id, new_config), creation),
        call_ensures(
            CdnService::update_adapter,
            (service, old_config, new_config, has_linked_alias),
            change,
        ),
        call_ensures(begin_update, (old_config, new_config, has_linked_alias), update),
    ensures
        match creation {
            Ok(creation) => create matches Ok(CdnTask::Create(created)) && created.deep_view()
                == creation.deep_view(),
            Err(error) => failed_as(create, error.deep_view()),
        },
        match update {
            Ok(update) => change matches Ok(CdnTask::Update(changed)) && changed.deep_view()
                == update.deep_view(),
            Err(error) => failed_as(change, error.deep_view()),
        },
{
}

/// Nothing is uploaded to a CDN, and its addresses tell no file names.
pub proof fn law_nothing_is_uploaded_to_a_cdn(
    service: &CdnService,
    settings: &Settings,
    ctx: &CallContext,
    uri: &str,
    config: AdapterConfig,
    options: GenerateUploadUrlOptions,
    from: ContentRepresentationInfo,
    upload_url: Result<CdnTask, ServiceError>,
    upload: Result<CdnTask, ServiceError>,
    filename: Option<String>,
)
    requires
        call_ensures(
            CdnService::generate_upload_url,
            (service, settings, ctx, config, options),
            upload_url,
        ),
        call_ensures(
            CdnService::upload_content,
            (service, settings, ctx, config, uri, config, from, uri),
            upload,
        ),
        call_ensures(CdnService::get_filename_from_uri, (service, uri), filename),
    ensures
        upload_url matches Err(ServiceError::ForbiddenError),
        upload matches Err(ServiceError::ForbiddenError),
        filename is None,
{
}

} // verus!
