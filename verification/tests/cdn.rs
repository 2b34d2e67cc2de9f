use content_service::error::{ErrorReport, GeneralCause, ServiceError};
use content_service::http::{HttpRequest, Method};
use content_service::json::Json;
use content_service::storage_service::bunnynet::{BunnynetCall, BunnynetRetryPolicy};
use content_service::storage_service::cdn_service::{CdnService, CdnTask};
use content_service::storage_service::head::{read_head_reply, ContentHeaders};
use content_service::storage_service::pull_zone::{secured, AdapterPlan, CdnUpdate};
use content_service::storage_service::storage_service_trait::{
    ContentRepresentationInfo, FromStageInfo, Settings, StorageServiceTrait,
};
use content_service::types::{
    AdapterConfig, AdapterType, AwsEfsConfig, CallContext, CdnConfig, ContentHeadInfo,
    RetrieveProperties,
};
use sha2::Digest;

fn settings() -> Settings {
    let text = |s: &str| s.to_string();
    Settings {
        aws_s3_adapter_id_prefix: text("awss"),
        channel_manager_adapter_id_prefix: text("chnl"),
        cdn_adapter_id_prefix: text("cdn"),
        aws_efs_adapter_id_prefix: text("efs"),
        content_id_prefix: text("cont"),
        services_base_url: text("https://services"),
        bunnynet_api_key: text("key"),
        bunnynet_pullzone_name_prefix: text("zone"),
        bunnynet_default_pullzone_id: text("1"),
        bunnynet_default_pullzone_token_auth_key: text("auth"),
        bunny_pull_zone_name: text("default-zone"),
        bunny_pull_zone_domain: text("cdn.test"),
        aws_region: text("eu-west-1"),
        s3_bucket: text("bucket"),
        aws_efs_base_path: text("/mnt/efs"),
        unknown_mime_type: text("application/octet-stream"),
        pre_signed_url_expiration_time: 900,
    }
}

fn zone() -> CdnConfig {
    CdnConfig {
        api_key: None,
        use_authentication: false,
        pull_zone_name: "zone-abc".to_string(),
        domain: None,
        pull_zone_id: "77".to_string(),
        alias_enabled: false,
    }
}

fn efs() -> AdapterConfig {
    AdapterConfig::AwsEfs(AwsEfsConfig {})
}

fn some(text: &str) -> Option<String> {
    Some(text.to_string())
}

fn general_message<T>(result: Result<T, ServiceError>) -> String {
    match result {
        Err(ServiceError::GeneralError(GeneralCause::Plain(message))) => message,
        Err(other) => panic!("{other:?}"),
        Ok(_) => panic!("accepted"),
    }
}

fn invalid_message<T>(result: Result<T, ServiceError>) -> String {
    match result {
        Err(ServiceError::InvalidRequestParameters(message)) => message,
        Err(other) => panic!("{other:?}"),
        Ok(_) => panic!("accepted"),
    }
}

fn token(text: &str) -> String {
    base64::encode_config(sha2::Sha256::digest(text.as_bytes()), base64::STANDARD)
        .replace('+', "-")
        .replace('/', "_")
        .replace('=', "")
}

#[test]
fn signed_addresses_carry_token_and_expiry() {
    let service = CdnService::new();
    let signed = service.sign_authenticated_url("https://d.test/a/b", "KEY", 900, 1000).unwrap();
    assert_eq!(
        signed,
        format!("https://d.test/a/b?token={}&expires=1900", token("KEY/a/b1900"))
    );
    let signed = service
        .sign_authenticated_url("https://d.test/p?width=2&a=1", "KEY", 0, 7)
        .unwrap();
    assert_eq!(
        signed,
        format!("https://d.test/p?width=2&a=1&token={}&expires=7", token("KEY/p7a=1&width=2"))
    );
    assert_eq!(
        general_message(service.sign_authenticated_url("no address", "KEY", 0, 0)),
        "Invalid content URI format"
    );
}

#[test]
fn tokens_are_safe_in_addresses() {
    for n in 0..50 {
        let url = format!("https://d.test/{n}");
        let signed = CdnService::new().sign_authenticated_url(&url, "k", 1, n).unwrap();
        let token = signed.split("token=").nth(1).unwrap().split('&').next().unwrap();
        assert_eq!(token.len(), 43);
        assert!(token.chars().all(|c| c.is_ascii_alphanumeric() || c == '-' || c == '_'));
    }
}

#[test]
fn the_order_of_parameters_does_not_change_the_token() {
    let sign = |url: &str| {
        let signed = CdnService::new().sign_authenticated_url(url, "k", 1, 1).unwrap();
        signed.split("token=").nth(1).unwrap().to_string()
    };
    assert_eq!(sign("https://d.test/p?b=1&a=2&a=1"), sign("https://d.test/p?a=1&b=1&a=2"));
    assert_ne!(sign("https://d.test/p?b=1"), sign("https://d.test/p?b=2"));
}

#[test]
fn pull_zones_are_named_after_adapters() {
    let service = CdnService::new();
    let name = service.generate_pullzone_name_from_adapter_id(&settings(), "cdn_01Ab-z").unwrap();
    assert_eq!(name, "zone-01Ab-z");
    assert_eq!(
        general_message(service.generate_pullzone_name_from_adapter_id(&settings(), "efs_01")),
        "Failed to get CND adapter ID suffix"
    );
    for bad in ["cdn_a_b", "cdn_ä", "cdn_a b"] {
        assert_eq!(
            general_message(service.generate_pullzone_name_from_adapter_id(&settings(), bad)),
            "Pullzone name must consist of numbers, letters, and hyphens only"
        );
    }
}

fn reconstruct(
    config: &AdapterConfig,
    content_id: Option<String>,
    representation_type: Option<String>,
    alias: Option<String>,
    slug: Option<String>,
    is_dynamic: bool,
) -> Result<String, ServiceError> {
    CdnService::new().reconstruct_uri(
        &settings(),
        "",
        config,
        content_id,
        representation_type,
        alias,
        slug,
        is_dynamic,
    )
}

#[test]
fn uris_are_reconstructed_from_what_is_known() {
    let plain = AdapterConfig::Cdn(zone());
    let domain = AdapterConfig::Cdn(CdnConfig { domain: some("d.test"), ..zone() });
    assert_eq!(
        reconstruct(&plain, some("cont_1"), some("web"), None, None, false).unwrap(),
        "https://zone-abc.b-cdn.net/1/web"
    );
    assert_eq!(
        reconstruct(&domain, some("cont_1"), some("web"), None, None, true).unwrap(),
        "https://d.test/dynamic/1/web"
    );
    assert_eq!(
        reconstruct(&domain, None, None, some("me"), None, false).unwrap(),
        "https://d.test/me"
    );
    assert_eq!(
        reconstruct(&domain, None, None, some("me"), None, true).unwrap(),
        "https://d.test/dynamic/me"
    );
    assert_eq!(
        reconstruct(&domain, None, None, None, some("s"), false).unwrap(),
        "https://d.test/s"
    );
    assert_eq!(
        reconstruct(&domain, some("x"), None, None, some("s"), true).unwrap(),
        "https://d.test/dynamic/s"
    );
}

#[test]
fn uris_are_not_made_up() {
    let config = AdapterConfig::Cdn(zone());
    assert_eq!(
        general_message(reconstruct(&config, None, None, some("a"), some("s"), false)),
        "Cannot use \"alias\" and \"short_link\" together"
    );
    assert_eq!(
        general_message(reconstruct(&efs(), None, None, some("a"), None, false)),
        "Invalid CDN adapter config"
    );
    for (content_id, representation_type) in
        [(None, None), (some("cont_1"), None), (None, some("web"))]
    {
        assert_eq!(
            general_message(reconstruct(
                &config,
                content_id,
                representation_type,
                None,
                None,
                false
            )),
            "Content ID with representation type or Alias should be provided."
        );
    }
    assert_eq!(
        general_message(reconstruct(&config, some("1"), some("web"), None, None, false)),
        "Invalid content ID format"
    );
}

fn pre_sign(
    config: CdnConfig,
    properties: Option<RetrieveProperties>,
) -> Result<String, ServiceError> {
    let task = CdnService::new().generate_pre_signed_url(
        &settings(),
        "https://d.test/a",
        AdapterConfig::Cdn(config),
        properties,
        None,
        100,
    )?;
    match task {
        CdnTask::Url(url) => Ok(url),
        other => panic!("{other:?}"),
    }
}

#[test]
fn images_are_optimized_on_request() {
    let properties = |width, height, ratio: Option<&str>| {
        Some(RetrieveProperties { width, height, aspect_ratio: ratio.map(str::to_string) })
    };
    assert_eq!(pre_sign(zone(), None).unwrap(), "https://d.test/a");
    assert_eq!(pre_sign(zone(), properties(None, None, None)).unwrap(), "https://d.test/a");
    assert_eq!(
        pre_sign(zone(), properties(Some(10), Some(0), Some("16:9"))).unwrap(),
        "https://d.test/a?optimizer=image&width=10&height=0&aspect_ratio=16:9"
    );
    assert_eq!(
        pre_sign(zone(), properties(None, Some(7), None)).unwrap(),
        "https://d.test/a?optimizer=image&height=7"
    );
    let closed = CdnConfig { use_authentication: true, api_key: some("K"), ..zone() };
    assert_eq!(
        pre_sign(closed, properties(Some(1), None, None)).unwrap(),
        format!(
            "https://d.test/a?optimizer=image&width=1&token={}&expires=1000",
            token("K/a1000optimizer=image&width=1")
        )
    );
    let keyless = CdnConfig { use_authentication: true, ..zone() };
    assert_eq!(
        general_message(pre_sign(keyless, None)),
        "Pullzone security key is required in CDN config when using token authentication"
    );
}

#[test]
fn heads_are_asked_of_every_address() {
    let uris = vec!["https://d.test/a".to_string(), "https://d.test/b".to_string()];
    let configs = vec![AdapterConfig::Cdn(zone()), efs(), efs()];
    let task = CdnService::new().retrieve_head_infos(&settings(), &uris, &configs, 0).unwrap();
    let CdnTask::HeadInfos(mut requests) = task else { panic!("no requests") };
    assert_eq!(requests.len(), 2);
    assert_eq!(general_message(requests.pop().unwrap()), "Invalid CDN adapter config");
    let request: HttpRequest = requests.pop().unwrap().unwrap();
    assert_eq!((request.method, request.url.as_str()), (Method::Head, "https://d.test/a"));

    let headers = |kind: Option<&str>, length: Option<&str>| ContentHeaders {
        content_type: kind.map(str::to_string),
        content_length: length.map(str::to_string),
    };
    let info = read_head_reply(Ok(headers(Some("image/png"), Some("+12")))).unwrap();
    assert_eq!((info.mime_type.as_str(), info.size), ("image/png", 12));
    for length in [None, Some("many"), Some(""), Some("18446744073709551616"), Some("-1")] {
        let info = read_head_reply(Ok(headers(None, length))).unwrap();
        assert_eq!((info.mime_type.as_str(), info.size), ("", 0));
    }
    let report = ErrorReport { message: "HTTP status".to_string(), sources: vec![] };
    assert!(matches!(
        read_head_reply(Err(report)),
        Err(ServiceError::ReqwestError(report)) if report.message == "HTTP status"
    ));
}

fn from(adapter_id: &str) -> FromStageInfo {
    FromStageInfo {
        adapter_id: adapter_id.to_string(),
        adapter_config: efs(),
        content_representation_info: ContentRepresentationInfo {
            content_id: "cont_1".to_string(),
            representation_type: "original".to_string(),
            uri: "/mnt/efs/a.png".to_string(),
            filename: "a.png".to_string(),
            mime_type: "image/png".to_string(),
            metadata: None,
        },
    }
}

const EFS_ID: &str = "efs_01h536gfwffx2rm6pa0xg63337";
const CDN_ID: &str = "cdn_01h536gfwffx2rm6pa0xg63337";

fn stage(
    config: AdapterConfig,
    from: FromStageInfo,
    alias: Option<&str>,
    to_type: Option<&str>,
) -> Result<CdnTask, ServiceError> {
    CdnService::new().stage(
        &settings(),
        &CallContext { org_id: "org".to_string() },
        config,
        from,
        alias.map(str::to_string),
        to_type.map(str::to_string),
    )
}

#[test]
fn contents_are_staged_under_their_identifier() {
    let config = AdapterConfig::Cdn(zone());
    let CdnTask::Stage(staged) = stage(config, from(EFS_ID), None, Some("web")).unwrap() else {
        panic!("no stage");
    };
    assert_eq!(staged.to_uri, "https://zone-abc.b-cdn.net/1/web");
    assert_eq!(staged.stripped_uri, "original");
    assert_eq!(staged.from_adapter_type, AdapterType::AwsEfs);
    let info =
        ContentHeadInfo { mime_type: "image/x".to_string(), size: 5, filename: some("h.png") };
    let (query, info) = staged.origin_answered(Ok(vec![info])).unwrap();
    assert_eq!(query.recorded, "image/png");
    assert_eq!(query.from_head, "image/x");
    assert_eq!(query.filename, "a.png");
    assert_eq!(query.uri, "/mnt/efs/a.png");
    let item = staged.finish(info, "image/resolved".to_string());
    assert_eq!(item.representation_type, "web");
    assert_eq!(item.filename, "a.png");
    assert_eq!(item.head_info.mime_type, "image/resolved");
    assert_eq!(item.head_info.size, 5);
    assert_eq!(item.head_info.filename.as_deref(), Some("h.png"));

    let config = AdapterConfig::Cdn(zone());
    let CdnTask::Stage(staged) = stage(config, from(EFS_ID), None, None).unwrap() else {
        panic!("no stage");
    };
    assert_eq!(staged.stripped_uri, "");
    assert_eq!(
        general_message(staged.origin_answered(Ok(vec![]))),
        "Failed to get head info for origin URI [/mnt/efs/a.png]"
    );
    assert!(matches!(
        staged.origin_answered(Err(ServiceError::ForbiddenError)),
        Err(ServiceError::ForbiddenError)
    ));
}

#[test]
fn contents_are_staged_under_aliases() {
    let aliases = || AdapterConfig::Cdn(CdnConfig { alias_enabled: true, ..zone() });
    let CdnTask::Stage(staged) = stage(aliases(), from(CDN_ID), Some("me"), None).unwrap() else {
        panic!("no stage");
    };
    assert_eq!(staged.to_uri, "https://zone-abc.b-cdn.net/me");
    assert_eq!(
        invalid_message(stage(aliases(), from(CDN_ID), None, None)),
        "Stage from CDN representation allowed only when update alias"
    );
    assert_eq!(
        invalid_message(stage(aliases(), from(EFS_ID), Some("me"), Some("web"))),
        "Cannot stage to alias when stage to another representation type"
    );
    assert_eq!(
        invalid_message(stage(AdapterConfig::Cdn(zone()), from(EFS_ID), Some("me"), None)),
        "Cannot stage to alias when destination CDN adapter alias disabled"
    );
    let closed = CdnConfig { alias_enabled: true, use_authentication: true, ..zone() };
    assert_eq!(
        invalid_message(stage(AdapterConfig::Cdn(closed), from(EFS_ID), Some("me"), None)),
        "Cannot stage to alias when destination CDN adapter use authentication"
    );
    assert_eq!(invalid_message(stage(efs(), from(EFS_ID), None, None)), "Invalid CDN config");
    let mut unprefixed = from(EFS_ID);
    unprefixed.content_representation_info.content_id = "1".to_string();
    assert_eq!(
        invalid_message(stage(aliases(), unprefixed, None, None)),
        "Invalid content ID format"
    );
    assert_eq!(
        general_message(stage(aliases(), from("nobody"), None, None)),
        "Invalid adapter ID"
    );
}

fn document(text: &str) -> Result<Option<Json>, String> {
    Ok(Some(Json::parse(text).unwrap()))
}

fn shown_call(call: &BunnynetCall) -> (Method, String, Option<String>) {
    (call.method, call.path.clone(), call.body.as_ref().map(|body| body.to_text()))
}

fn carry_out(mut plan: AdapterPlan) -> (Vec<(Method, String, Option<String>)>, AdapterConfig) {
    let mut calls = Vec::new();
    loop {
        match plan.next_call() {
            None => break,
            Some(call) => {
                assert_eq!(call.policy, BunnynetRetryPolicy::Idempotent);
                calls.push(shown_call(call));
            }
        }
        plan = plan.advance(Ok(None)).unwrap();
    }
    (calls, plan.finish())
}

#[test]
fn pull_zones_are_created_with_their_domain() {
    let new = CdnConfig { use_authentication: true, domain: some("d.test"), ..zone() };
    let task =
        CdnService::new().create_adapter(&settings(), "cdn_9", AdapterConfig::Cdn(new)).unwrap();
    let CdnTask::Create(creation) = task else { panic!("no creation") };
    assert_eq!(creation.call.policy, BunnynetRetryPolicy::NonIdempotent);
    assert_eq!(
        shown_call(&creation.call),
        (
            Method::Post,
            "pullzone".to_string(),
            some(
                r#"{"FollowRedirects":true,"Name":"zone-9","OptimizerEnabled":true,"OriginUrl":"https://services/content/redirect/cdn_9","ZoneSecurityEnabled":true}"#
            )
        )
    );
    let plan = creation.created(document(r#"{"Id":42,"ZoneSecurityKey":"sk"}"#)).unwrap();
    let (calls, config) = carry_out(plan);
    assert_eq!(
        calls,
        vec![
            (
                Method::Post,
                "pullzone/42/addHostname".to_string(),
                some(r#"{"Hostname":"d.test"}"#)
            ),
            (
                Method::Get,
                "pullzone/loadFreeCertificate?hostname=d.test".to_string(),
                None
            ),
            (
                Method::Post,
                "pullzone/42/setForceSSL".to_string(),
                some(r#"{"ForceSSL":true,"Hostname":"d.test"}"#)
            ),
        ]
    );
    let AdapterConfig::Cdn(config) = config else { panic!("no zone") };
    assert_eq!(config.api_key.as_deref(), Some("sk"));
    assert_eq!(config.pull_zone_id, "42");
    assert_eq!(config.pull_zone_name, "zone-9");
    assert_eq!(config.domain.as_deref(), Some("d.test"));
}

#[test]
fn creation_can_fail() {
    let create = |config: CdnConfig| {
        match CdnService::new().create_adapter(&settings(), "cdn_9", AdapterConfig::Cdn(config)) {
            Ok(CdnTask::Create(creation)) => Ok(creation),
            Ok(other) => panic!("{other:?}"),
            Err(error) => Err(error),
        }
    };
    let both = CdnConfig { alias_enabled: true, use_authentication: true, ..zone() };
    assert_eq!(
        invalid_message(create(both)),
        "Alias and authentication could not be enabled at the same time."
    );
    assert_eq!(
        invalid_message(CdnService::new().create_adapter(&settings(), "cdn_9", efs())),
        "Invalid CDN config"
    );
    assert_eq!(
        general_message(CdnService::new().create_adapter(
            &settings(),
            "other",
            AdapterConfig::Cdn(zone())
        )),
        "Failed to get CND adapter ID suffix"
    );
    assert_eq!(
        general_message(create(zone()).unwrap().created(Err("boom".to_string()))),
        "Failed to send create pullzone request: [boom]"
    );
    assert_eq!(
        general_message(create(zone()).unwrap().created(Ok(None))),
        "Expected response body from create pullzone request"
    );
    assert_eq!(
        general_message(create(zone()).unwrap().created(document(r#"{"Id":"x"}"#))),
        "Failed to get pullzone ID from response"
    );
    let closed = CdnConfig { use_authentication: true, ..zone() };
    assert_eq!(
        general_message(create(closed).unwrap().created(document(r#"{"Id":1}"#))),
        "Failed to get pullzone security key from response"
    );
    let plan = create(zone()).unwrap().created(document(r#"{"Id":1}"#)).unwrap();
    let (calls, _) = carry_out(plan);
    assert!(calls.is_empty());

    let domain = CdnConfig { domain: some("d"), ..zone() };
    let plan = create(domain).unwrap().created(document(r#"{"Id":1}"#)).unwrap();
    let plan = plan.advance(Ok(None)).unwrap();
    assert_eq!(
        general_message(plan.advance(Err("no".to_string()))),
        "Failed to send load free certificate request: [no]"
    );
}

fn update(old: CdnConfig, new: CdnConfig, linked: bool) -> Result<CdnUpdate, ServiceError> {
    match CdnService::new().update_adapter(AdapterConfig::Cdn(old), AdapterConfig::Cdn(new), linked)
    {
        Ok(CdnTask::Update(update)) => Ok(update),
        Ok(other) => panic!("{other:?}"),
        Err(error) => Err(error),
    }
}

#[test]
fn updates_exchange_the_domain() {
    let old = CdnConfig { domain: some("old"), api_key: some("k"), ..zone() };
    let new = CdnConfig {
        domain: some("new"),
        pull_zone_id: "other".to_string(),
        pull_zone_name: "other".to_string(),
        alias_enabled: true,
        ..zone()
    };
    let CdnUpdate::Plan(plan) = update(old, new, true).unwrap() else { panic!("no plan") };
    let (calls, config) = carry_out(plan);
    assert_eq!(
        calls.iter().map(|(method, path, _)| (*method, path.as_str())).collect::<Vec<_>>(),
        vec![
            (Method::Delete, "pullzone/77/removeHostname"),
            (Method::Post, "pullzone/77/addHostname"),
            (Method::Get, "pullzone/loadFreeCertificate?hostname=new"),
            (Method::Post, "pullzone/77/setForceSSL"),
        ]
    );
    assert_eq!(calls[0].2.as_deref(), Some(r#"{"Hostname":"old"}"#));
    let AdapterConfig::Cdn(config) = config else { panic!("no zone") };
    assert_eq!(config.pull_zone_id, "77");
    assert_eq!(config.pull_zone_name, "zone-abc");
    assert_eq!(config.api_key.as_deref(), Some("k"));
    assert!(config.alias_enabled);

    let CdnUpdate::Plan(plan) = update(zone(), zone(), false).unwrap() else { panic!("no plan") };
    assert!(carry_out(plan).0.is_empty());
}

#[test]
fn updates_change_the_security_first() {
    let closed = || CdnConfig { use_authentication: true, ..zone() };
    let CdnUpdate::Secure { call, old, new } = update(zone(), closed(), false).unwrap() else {
        panic!("no call");
    };
    assert_eq!(
        shown_call(&call),
        (
            Method::Post,
            "pullzone/77".to_string(),
            some(r#"{"ZoneSecurityEnabled":true}"#)
        )
    );
    let plan = secured(old, new, document(r#"{"ZoneSecurityKey":"nk"}"#)).unwrap();
    let AdapterConfig::Cdn(config) = carry_out(plan).1 else { panic!("no zone") };
    assert_eq!(config.api_key.as_deref(), Some("nk"));

    let CdnUpdate::Secure { old, new, .. } =
        update(CdnConfig { api_key: some("k"), ..closed() }, zone(), false).unwrap()
    else {
        panic!("no call");
    };
    let plan = secured(old, new, document("{}")).unwrap();
    let AdapterConfig::Cdn(config) = carry_out(plan).1 else { panic!("no zone") };
    assert_eq!(config.api_key, None);

    assert_eq!(
        general_message(secured(zone(), closed(), document("{}"))),
        "Failed to get pullzone security key from response"
    );
    assert_eq!(
        general_message(secured(zone(), closed(), Ok(None))),
        "Expected response body from update pullzone request"
    );
    assert_eq!(
        general_message(secured(zone(), closed(), Err("e".to_string()))),
        "Failed to send update pullzone request: [e]"
    );
}

#[test]
fn updates_can_be_refused() {
    let both = CdnConfig { alias_enabled: true, use_authentication: true, ..zone() };
    assert_eq!(
        invalid_message(update(zone(), both, false)),
        "Cannot enable alias and use authentication at the same time"
    );
    assert_eq!(
        invalid_message(update(zone(), zone(), true)),
        "Cannot disable alias when CDN has linked alias"
    );
    let service = CdnService::new();
    assert_eq!(
        invalid_message(service.update_adapter(efs(), AdapterConfig::Cdn(zone()), false)),
        "Invalid CDN config"
    );
    assert_eq!(
        invalid_message(service.update_adapter(AdapterConfig::Cdn(zone()), efs(), false)),
        "Invalid CDN config"
    );
}

#[test]
fn caches_are_purged_and_zones_deleted() {
    let service = CdnService::new();
    let task = service.purge(&settings(), "ignored", AdapterConfig::Cdn(zone())).unwrap();
    let CdnTask::Purge { call, pull_zone_name } = task else { panic!("no call") };
    assert_eq!(shown_call(&call), (Method::Post, "pullzone/77/purgeCache".to_string(), None));
    assert!(CdnService::purged(&pull_zone_name, Ok(None)).is_ok());
    assert_eq!(
        general_message(CdnService::purged(&pull_zone_name, Err(ServiceError::ForbiddenError))),
        "Failed to purge cache for CDN pullzone: [zone-abc]"
    );
    assert_eq!(
        general_message(service.purge(&settings(), "ignored", efs())),
        "Invalid CDN adapter config"
    );

    let CdnTask::Delete(call) = service.delete_adapter(AdapterConfig::Cdn(zone())).unwrap() else {
        panic!("no call");
    };
    assert_eq!(shown_call(&call), (Method::Delete, "pullzone/77".to_string(), None));
    assert!(CdnService::deleted(Ok(None)).is_ok());
    assert_eq!(
        general_message(CdnService::deleted(Err("e".to_string()))),
        "Failed to send delete pullzone request: [e]"
    );
    assert_eq!(invalid_message(service.delete_adapter(efs())), "Invalid CDN config");

    let CdnTask::Call(call) = service.purge_by_url("https://d/a").unwrap() else {
        panic!("no call");
    };
    assert_eq!(
        shown_call(&call),
        (Method::Post, "purge?url=https://d/a&async=true".to_string(), None)
    );
}

#[test]
fn the_rest_of_the_cdn_service() {
    let service = CdnService::new();
    assert!(service.is_valid_uri(&settings(), "https://d.test/a"));
    assert!(service.is_valid_uri(&settings(), "HTTPS://d.test"));
    assert!(!service.is_valid_uri(&settings(), "http://d.test/a"));
    assert!(!service.is_valid_uri(&settings(), "d.test/a"));
    assert_eq!(service.strip_uri("https://d.test/a").unwrap(), "");
    assert_eq!(service.get_filename_from_uri("https://d.test/a.png"), None);
    let AdapterConfig::Cdn(config) = service.get_default_config(&settings()) else {
        panic!("no zone");
    };
    assert_eq!(config.api_key.as_deref(), Some("auth"));
    assert_eq!(config.domain.as_deref(), Some("cdn.test"));
    assert_eq!(config.pull_zone_id, "1");
    assert!(config.use_authentication && !config.alias_enabled);
    assert!(matches!(
        service.generate_upload_url(
            &settings(),
            &CallContext { org_id: "o".to_string() },
            efs(),
            content_service::storage_service::storage_service_trait::GenerateUploadUrlOptions {
                content_id: "c".to_string(),
                representation_type: "r".to_string(),
                filename: "f".to_string(),
                mime_type: "m".to_string(),
                metadata: None,
            }
        ),
        Err(ServiceError::ForbiddenError)
    ));
}
