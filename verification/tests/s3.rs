use content_service::error::{ErrorReport, GeneralCause, ServiceError};
use content_service::http::{HttpRequest, Method, Payload};
use content_service::storage_service::aws_s3_service::{
    AwsS3Service, S3Task, AWS_S3_MAX_OBJECT_TAGS, AWS_S3_MAX_TAG_KEY_CHARS,
    AWS_S3_MAX_TAG_VALUE_CHARS,
};
use content_service::storage_service::head::collect_results;
use content_service::storage_service::s3_clients::{endpoint_url, S3Clients};
use content_service::storage_service::s3_transfer::{
    content_uploaded, describe_object, head_object_failed, with_transient_retry, AfterFailure,
    SdkFailure, SdkFault, UploadFault, UploadStream,
};
use content_service::storage_service::s3_uri::AwsS3Uri;
use content_service::storage_service::storage_service_trait::{
    ContentRepresentationInfo, FromStageInfo, GenerateUploadUrlOptions, GenerateUploadUrlResult,
    Settings, StorageServiceTrait,
};
use content_service::types::{
    AdapterConfig, AdapterType, AwsEfsConfig, AwsS3Config, CallContext, ContentHeadInfo, Metadata,
};
use std::collections::HashMap;

const AWS_S3_TAGGING_HEADER: &str = "x-amz-tagging";

fn settings() -> Settings {
    let text = |s: &str| s.to_string();
    Settings {
        aws_s3_adapter_id_prefix: text("awss"),
        channel_manager_adapter_id_prefix: text("chnl"),
        cdn_adapter_id_prefix: text("cdn"),
        aws_efs_adapter_id_prefix: text("efs"),
        content_id_prefix: text("cont"),
        services_base_url: text("https://services"),
        bunnynet_api_key: text("key"),
        bunnynet_pullzone_name_prefix: text("zone"),
        bunnynet_default_pullzone_id: text("1"),
        bunnynet_default_pullzone_token_auth_key: text("auth"),
        bunny_pull_zone_name: text("default-zone"),
        bunny_pull_zone_domain: text("cdn.test"),
        aws_region: text("eu-west-1"),
        s3_bucket: text("bucket"),
        aws_efs_base_path: text("/mnt/efs"),
        unknown_mime_type: text("application/octet-stream"),
        pre_signed_url_expiration_time: 900,
    }
}

fn metadata<const N: usize>(pairs: [(String, String); N]) -> Metadata {
    let mut metadata = Metadata::new();
    for (key, value) in pairs.iter() {
        metadata.insert(key, value);
    }
    metadata
}

fn s3_config(bucket: &str) -> AdapterConfig {
    AdapterConfig::AwsS3(AwsS3Config {
        app_name: "app".to_string(),
        region: "eu-west-1".to_string(),
        bucket_name: bucket.to_string(),
        verify_pending_on_read: None,
    })
}

fn content(filename: &str) -> ContentRepresentationInfo {
    ContentRepresentationInfo {
        content_id: "cont_1".to_string(),
        representation_type: "original".to_string(),
        uri: "s3://bucket/org/cont_1/original/a.png".to_string(),
        filename: filename.to_string(),
        mime_type: "image/png".to_string(),
        metadata: None,
    }
}

fn assert_invalid_request_parameters(result: Result<Option<String>, ServiceError>) {
    assert!(matches!(
        result,
        Err(ServiceError::InvalidRequestParameters(_))
    ));
}

fn assert_invalid<T>(result: Result<T, ServiceError>, wanted: &str) {
    match result {
        Err(ServiceError::InvalidRequestParameters(message)) => assert_eq!(message, wanted),
        Err(other) => panic!("{other:?}"),
        Ok(_) => panic!("accepted"),
    }
}

#[test]
fn build_tagging_from_metadata_returns_none_for_empty_metadata() {
    let metadata = Metadata::new();

    let tagging = AwsS3Service::build_tagging_from_metadata(&metadata).unwrap();

    assert_eq!(tagging, None);
}

#[test]
fn build_tagging_from_metadata_encodes_and_sorts_metadata() {
    let metadata = metadata([
        ("source".to_string(), "cms".to_string()),
        ("campaign name".to_string(), "summer & fall".to_string()),
        ("empty".to_string(), "".to_string()),
    ]);

    let tagging = AwsS3Service::build_tagging_from_metadata(&metadata)
        .unwrap()
        .unwrap();

    assert_eq!(
        tagging,
        "campaign%20name=summer%20%26%20fall&empty=&source=cms"
    );
}

#[test]
fn build_tagging_from_metadata_rejects_empty_tag_key() {
    let metadata = metadata([("".to_string(), "value".to_string())]);

    assert_invalid_request_parameters(AwsS3Service::build_tagging_from_metadata(&metadata));
}

#[test]
fn build_tagging_from_metadata_rejects_more_than_ten_metadata_items() {
    let mut metadata = Metadata::new();
    for idx in 0..=AWS_S3_MAX_OBJECT_TAGS {
        metadata.insert(&format!("key-{idx}"), "value");
    }

    assert_invalid_request_parameters(AwsS3Service::build_tagging_from_metadata(&metadata));
}

#[test]
fn build_tagging_from_metadata_rejects_overlong_key() {
    let metadata = metadata([(
        "k".repeat(AWS_S3_MAX_TAG_KEY_CHARS + 1),
        "value".to_string(),
    )]);

    assert_invalid_request_parameters(AwsS3Service::build_tagging_from_metadata(&metadata));
}

#[test]
fn build_tagging_from_metadata_rejects_overlong_value() {
    let metadata = metadata([(
        "key".to_string(),
        "v".repeat(AWS_S3_MAX_TAG_VALUE_CHARS + 1),
    )]);

    assert_invalid_request_parameters(AwsS3Service::build_tagging_from_metadata(&metadata));
}

#[test]
fn tagging_errors_name_the_first_key_at_fault() {
    let overlong = "v".repeat(257);
    let two = metadata([
        ("b".to_string(), overlong.clone()),
        ("a".to_string(), overlong),
    ]);
    assert_invalid(
        AwsS3Service::build_tagging_from_metadata(&two),
        "AWS S3 object tag value for key [a] exceeds 256 characters",
    );
    let mut limit = Metadata::new();
    for idx in 0..AWS_S3_MAX_OBJECT_TAGS {
        limit.insert(&"é".repeat(118 + idx), &"ü".repeat(256));
    }
    assert!(AwsS3Service::build_tagging_from_metadata(&limit).is_ok());
    limit.insert("one-more", "x");
    assert_invalid(
        AwsS3Service::build_tagging_from_metadata(&limit),
        "AWS S3 object tagging supports at most 10 metadata items",
    );
}

#[test]
fn metadata_keeps_the_last_value_of_a_key() {
    let mut metadata = Metadata::new();
    metadata.insert("a", "1");
    metadata.insert("b", "2");
    metadata.insert("a", "3");
    assert_eq!(metadata.len(), 2);
    assert_eq!(
        AwsS3Service::build_tagging_from_metadata(&metadata).unwrap().unwrap(),
        "a=3&b=2"
    );
}

#[test]
fn add_tagging_header_adds_x_amz_tagging_header() {
    let request = AwsS3Service::add_tagging_header(
        HttpRequest::new(Method::Put, "https://example.com/upload".to_string()),
        Some("campaign=summer"),
    );

    assert_eq!(
        request
            .headers
            .iter()
            .find(|(name, _)| name == AWS_S3_TAGGING_HEADER)
            .map(|(_, value)| value.as_str()),
        Some("campaign=summer")
    );
}

#[test]
fn no_tagging_adds_no_header() {
    let request = HttpRequest::new(Method::Put, "https://example.com/upload".to_string());
    assert!(AwsS3Service::add_tagging_header(request, None).headers.is_empty());
}

#[test]
fn build_upload_headers_serializes_non_empty_headers() {
    let headers = AwsS3Service::build_upload_headers(&vec![
        ("content-type".to_string(), "image/png".to_string()),
        (AWS_S3_TAGGING_HEADER.to_string(), "contentId=content-123".to_string()),
        ("x-empty".to_string(), "".to_string()),
    ])
    .unwrap()
    .unwrap();

    let parsed: HashMap<String, String> = serde_json::from_str(&headers).unwrap();

    assert_eq!(
        parsed.get("content-type").map(String::as_str),
        Some("image/png")
    );
    assert_eq!(
        parsed.get(AWS_S3_TAGGING_HEADER).map(String::as_str),
        Some("contentId=content-123")
    );
    assert!(!parsed.contains_key("x-empty"));
}

#[test]
fn build_upload_headers_returns_none_for_empty_headers() {
    let headers =
        AwsS3Service::build_upload_headers(&vec![("x-empty".to_string(), "".to_string())]).unwrap();

    assert_eq!(headers, None);
}

#[test]
fn upload_headers_keep_the_last_of_a_name() {
    let pair = |name: &str, value: &str| (name.to_string(), value.to_string());
    let headers = vec![pair("a", "1"), pair("a", "2\n\"é"), pair("a", "")];
    let text = AwsS3Service::build_upload_headers(&headers).unwrap().unwrap();
    assert_eq!(text, r#"{"a":"2\n\"é"}"#);
}

#[test]
fn uris_are_taken_apart() {
    let parts = AwsS3Uri::parse("s3://bucket/org/cont/original/a.png").unwrap();
    assert_eq!(parts.bucket_name, "bucket");
    assert_eq!(parts.object_key, "org/cont/original/a.png");
    assert_eq!(parts.filename, "a.png");
    let parts = AwsS3Uri::parse("s3:///").unwrap();
    assert_eq!((parts.bucket_name.as_str(), parts.object_key.as_str()), ("", ""));
    for bad in ["s3://bucket", "http://bucket/key", "", "s3:/"] {
        assert_invalid(
            AwsS3Uri::parse(bad),
            &format!("Invalid AWS S3 URI [{bad}] format"),
        );
        assert!(!AwsS3Uri::is_valid(bad));
    }
    assert!(AwsS3Uri::is_valid("s3://b/"));
}

#[test]
fn stripped_uris_are_reconstructed() {
    let service = AwsS3Service::new();
    let uri = "s3://bucket/org/ü/a.png";
    let stripped = service.strip_uri(uri).unwrap();
    assert_eq!(stripped, "org/ü/a.png");
    let back = service.reconstruct_uri(
        &settings(),
        &stripped,
        &s3_config("bucket"),
        None,
        None,
        None,
        None,
        false,
    );
    assert_eq!(back.unwrap(), uri);
    let full = service.reconstruct_uri(
        &settings(),
        uri,
        &AdapterConfig::AwsEfs(AwsEfsConfig {}),
        None,
        None,
        None,
        None,
        false,
    );
    assert_eq!(full.unwrap(), uri);
    let wrong = service.reconstruct_uri(
        &settings(),
        "key",
        &AdapterConfig::AwsEfs(AwsEfsConfig {}),
        None,
        None,
        None,
        None,
        false,
    );
    assert_invalid(wrong, "Invalid AWS S3 Adapter config");
    assert!(service.is_valid_uri(&settings(), uri));
    assert_eq!(service.get_filename_from_uri(uri).as_deref(), Some("a.png"));
    assert_eq!(service.get_filename_from_uri("file"), None);
}

#[test]
fn heads_are_asked_of_the_right_buckets() {
    let uris = vec![
        "s3://bucket/a".to_string(),
        "s3://other/b".to_string(),
        "nonsense".to_string(),
        "s3://bucket/left-over".to_string(),
    ];
    let configs = vec![
        s3_config("bucket"),
        s3_config("bucket"),
        AdapterConfig::AwsEfs(AwsEfsConfig {}),
    ];
    let task = AwsS3Service::new().retrieve_head_infos(&settings(), &uris, &configs, 0).unwrap();
    let S3Task::HeadInfos(mut objects) = task else { panic!("no objects") };
    assert_eq!(objects.len(), 3);
    assert_invalid(objects.pop().unwrap(), "Invalid AWS S3 Adapter config");
    assert_invalid(
        objects.pop().unwrap(),
        "Content URI = [s3://other/b] and Bucket Name = [bucket] are mismatched",
    );
    let object = objects.pop().unwrap().unwrap();
    assert_eq!(object.region, "eu-west-1");
    assert_eq!(object.bucket_name, "bucket");
    assert_eq!(object.object_key, "a");
}

#[test]
fn passing_failures_are_retried_twice() {
    let failure = |fault| SdkFailure { fault, shown: "dispatch failure".to_string() };
    let mut attempt = 0;
    let mut delays = Vec::new();
    let error = loop {
        match with_transient_retry("presign GetObject", attempt, &failure(SdkFault::Dispatch)) {
            AfterFailure::Again { attempt: next, delay_secs } => {
                delays.push(delay_secs);
                attempt = next;
            }
            AfterFailure::GiveUp(error) => break error,
        }
    };
    assert_eq!(delays, vec![1, 2]);
    assert!(matches!(
        error,
        ServiceError::GeneralError(GeneralCause::AwsS3Client(m)) if m == "S3 presign GetObject failed: dispatch failure"
    ));
    assert!(matches!(
        head_object_failed("s3://b/k", 0, &failure(SdkFault::Timeout)),
        AfterFailure::Again { attempt: 1, delay_secs: 1 }
    ));
    assert!(matches!(
        head_object_failed("s3://b/k", 0, &failure(SdkFault::Other)),
        AfterFailure::GiveUp(ServiceError::GeneralError(GeneralCause::AwsS3Client(m)))
            if m == "S3 HeadObject failed for [s3://b/k]: dispatch failure"
    ));
}

#[test]
fn objects_are_described_by_their_heads() {
    let info = describe_object(Some("image/png".to_string()), Some(12));
    assert_eq!((info.mime_type.as_str(), info.size, info.filename), ("image/png", 12, None));
    let info = describe_object(None, None);
    assert_eq!((info.mime_type.as_str(), info.size), ("", 0));
    assert_eq!(describe_object(None, Some(-1)).size, u64::MAX);
}

#[test]
fn results_are_collected_up_to_the_first_error() {
    let info = |size| ContentHeadInfo { mime_type: "".to_string(), size, filename: None };
    let all = collect_results(vec![Ok(info(1)), Ok(info(2))]).unwrap();
    assert_eq!(all.iter().map(|info| info.size).collect::<Vec<_>>(), vec![1, 2]);
    let failed = collect_results(vec![
        Ok(info(1)),
        Err(ServiceError::of_message("first".to_string())),
        Err(ServiceError::of_message("second".to_string())),
    ]);
    assert!(matches!(failed, Err(ServiceError::GeneralError(GeneralCause::Plain(m))) if m == "first"));
}

#[test]
fn pre_signed_addresses_fall_back_to_the_file_name_of_the_object() {
    let service = AwsS3Service::new();
    let uri = "s3://bucket/org/cont_1/original/a.png";
    let task = service.generate_pre_signed_url(
        &settings(),
        uri,
        s3_config("bucket"),
        None,
        Some(content(" \t")),
        0,
    );
    let S3Task::PreSign(request) = task.unwrap() else { panic!("no request") };
    assert_eq!(request.expires_in_secs, 900);
    assert_eq!(request.described.unwrap().filename, "a.png");

    let task = service.generate_pre_signed_url(
        &settings(),
        uri,
        s3_config("bucket"),
        None,
        Some(content("real.png")),
        0,
    );
    let S3Task::PreSign(request) = task.unwrap() else { panic!("no request") };
    assert_eq!(request.described.unwrap().filename, "real.png");

    let task =
        service.generate_pre_signed_url(&settings(), uri, s3_config("bucket"), None, None, 0);
    let S3Task::PreSign(request) = task.unwrap() else { panic!("no request") };
    assert!(request.described.is_none());
}

#[test]
fn unknown_types_are_not_overridden() {
    let overrides = |mime: &str| {
        AwsS3Service::response_overrides(&settings(), mime.to_string(), "inline".to_string())
    };
    assert_eq!(overrides("image/png"), ("inline".to_string(), Some("image/png".to_string())));
    assert_eq!(overrides("application/octet-stream"), ("inline".to_string(), None));
}

fn options() -> GenerateUploadUrlOptions {
    let mut metadata = Metadata::new();
    metadata.insert("k", "v w");
    GenerateUploadUrlOptions {
        content_id: "cont_1".to_string(),
        representation_type: "original".to_string(),
        filename: "a.png".to_string(),
        mime_type: "image/png".to_string(),
        metadata: Some(metadata),
    }
}

#[test]
fn upload_addresses_are_signed_for_the_key_of_the_content() {
    let service = AwsS3Service::new();
    let ctx = CallContext { org_id: "org".to_string() };
    let task = service.generate_upload_url(&settings(), &ctx, s3_config("bucket"), options());
    let S3Task::UploadUrl(request) = task.unwrap() else { panic!("no request") };
    assert_eq!(request.content_uri, "s3://bucket/org/cont_1/original/a.png");
    assert_eq!(request.object.object_key, "org/cont_1/original/a.png");
    assert_eq!(request.tagging.as_deref(), Some("k=v%20w"));
    assert_eq!(request.mime_type, "image/png");

    let headers = vec![("host".to_string(), "h".to_string())];
    let result =
        AwsS3Service::upload_url_signed(request, "https://signed".to_string(), &headers).unwrap();
    assert_eq!(result.upload_url, "https://signed");
    assert_eq!(result.content_uri, "s3://bucket/org/cont_1/original/a.png");
    assert_eq!(result.headers.as_deref(), Some(r#"{"host":"h"}"#));

    let slash = service.generate_upload_url(&settings(), &ctx, s3_config("a/b"), options());
    assert_invalid(
        slash,
        "Content URI = [s3://a/b/org/cont_1/original/a.png] and Bucket Name = [a/b] are mismatched",
    );
    let efs = AdapterConfig::AwsEfs(AwsEfsConfig {});
    assert_invalid(
        service.generate_upload_url(&settings(), &ctx, efs, options()),
        "Invalid AWS S3 Adapter config",
    );
}

fn stream(tagging: Option<&str>) -> UploadStream {
    UploadStream {
        upload_url: "https://signed".to_string(),
        content_uri: "s3://bucket/k".to_string(),
        mime_type: "image/png".to_string(),
        tagging: tagging.map(str::to_string),
        buffer: vec![],
    }
}

#[test]
fn contents_are_uploaded_in_one_request() {
    for pieces in [
        vec![vec![1u8, 2], vec![3], vec![4, 5, 6], vec![], vec![7]],
        vec![vec![1, 2, 3, 4, 5, 6, 7]],
    ] {
        let mut stream = stream(Some("k=v"));
        for piece in &pieces {
            stream.receive(piece);
        }
        let request = stream.finish();
        assert!(matches!(&request.payload, Payload::Bytes(b) if *b == [1, 2, 3, 4, 5, 6, 7]));
        assert_eq!(request.method, Method::Put);
        assert_eq!(request.url, "https://signed");
        assert_eq!(
            request.headers,
            vec![
                ("content-type".to_string(), "image/png".to_string()),
                ("x-amz-tagging".to_string(), "k=v".to_string()),
            ]
        );
    }
}

#[test]
fn empty_contents_are_uploaded_too() {
    let request = stream(None).finish();
    assert!(matches!(&request.payload, Payload::Bytes(bytes) if bytes.is_empty()));
    assert_eq!(request.headers.len(), 1);
}

#[test]
fn uploads_give_the_uri_of_the_content() {
    let uploaded = |transfer| content_uploaded("s3://bucket/k".to_string(), transfer);
    let report = || ErrorReport { message: "m".to_string(), sources: vec!["s".to_string()] };
    assert_eq!(uploaded(Ok(())).unwrap(), "s3://bucket/k");
    for fault in [UploadFault::Fetch(report()), UploadFault::Send(report())] {
        assert!(matches!(
            uploaded(Err(fault)),
            Err(ServiceError::ReqwestError(r)) if r.message == "m" && r.sources == ["s"]
        ));
    }
    assert!(matches!(
        uploaded(Err(UploadFault::Receive("broken".to_string()))),
        Err(ServiceError::GeneralError(GeneralCause::Plain(m))) if m == "broken"
    ));
}

fn from(adapter_id: &str) -> FromStageInfo {
    FromStageInfo {
        adapter_id: adapter_id.to_string(),
        adapter_config: s3_config("origin"),
        content_representation_info: content("a.png"),
    }
}

#[test]
fn contents_are_staged_by_uploading_them() {
    let service = AwsS3Service::new();
    let ctx = CallContext { org_id: "org".to_string() };
    let id = "efs_01h536gfwffx2rm6pa0xg63337";
    let task =
        service.stage(&settings(), &ctx, s3_config("bucket"), from(id), None, Some("web".to_string()));
    let S3Task::Stage(stage) = task.unwrap() else { panic!("no stage") };
    assert_eq!(stage.upload.from_adapter_type, AdapterType::AwsEfs);
    assert_eq!(stage.upload.options.representation_type, "web");
    assert_eq!(stage.representation_type, "web");
    let target = GenerateUploadUrlResult {
        upload_url: "https://signed".to_string(),
        content_uri: "s3://bucket/org/k".to_string(),
        headers: None,
    };
    let stream = stage.upload.stream(target).unwrap();
    assert_eq!(stream.upload_url, "https://signed");
    assert_eq!(stream.tagging, None);
    assert!(stream.buffer.is_empty());
    let content_uri = content_uploaded(stream.content_uri, Ok(())).unwrap();
    let staged = stage.uploaded(content_uri).unwrap();
    let (uris, configs) = staged.head_query();
    assert_eq!(uris, vec!["s3://bucket/org/k"]);
    assert!(matches!(
        configs.as_slice(),
        [AdapterConfig::AwsS3(config)] if config.bucket_name == "bucket"
    ));
    let info = ContentHeadInfo { mime_type: "image/png".to_string(), size: 9, filename: None };
    let item = staged.finish(Ok(vec![info])).unwrap();
    assert_eq!(item.uri, "s3://bucket/org/k");
    assert_eq!(item.stripped_uri, "org/k");
    assert_eq!(item.representation_type, "web");
    assert_eq!(item.filename, "a.png");
    assert_eq!(item.head_info.size, 9);

    let alias = Some("alias".to_string());
    assert_invalid(
        service.stage(&settings(), &ctx, s3_config("bucket"), from(id), alias, None),
        "Stage to alias is not supported for AWS S3",
    );
    let unknown = service.stage(&settings(), &ctx, s3_config("b"), from("nobody"), None, None);
    assert!(matches!(
        unknown,
        Err(ServiceError::GeneralError(GeneralCause::Plain(m))) if m == "Invalid adapter ID"
    ));
}

#[test]
fn staging_needs_a_head() {
    let ctx = CallContext { org_id: "org".to_string() };
    let id = "efs_01h536gfwffx2rm6pa0xg63337";
    let task =
        AwsS3Service::new().stage(&settings(), &ctx, s3_config("bucket"), from(id), None, None);
    let S3Task::Stage(stage) = task.unwrap() else { panic!("no stage") };
    assert_eq!(stage.representation_type, "original");
    let item = stage.uploaded("s3://bucket/k".to_string()).unwrap().finish(Ok(vec![]));
    assert!(matches!(
        item,
        Err(ServiceError::GeneralError(GeneralCause::Plain(m)))
            if m == "Failed to get head info for Content URI: [s3://bucket/k]"
    ));
}

#[test]
fn adapters_of_s3_are_taken_as_they_are() {
    let service = AwsS3Service::new();
    assert!(matches!(
        service.create_adapter(&settings(), "id", s3_config("b")),
        Ok(S3Task::Config(AdapterConfig::AwsS3(config))) if config.bucket_name == "b"
    ));
    assert!(matches!(
        service.update_adapter(s3_config("a"), s3_config("b"), true),
        Ok(S3Task::Config(AdapterConfig::AwsS3(config))) if config.bucket_name == "b"
    ));
    assert!(matches!(service.delete_adapter(s3_config("b")), Ok(S3Task::Nothing)));
    assert!(matches!(service.purge_by_url("u"), Err(ServiceError::ForbiddenError)));
    assert!(matches!(
        service.get_default_config(&settings()),
        AdapterConfig::AwsS3(config) if config.bucket_name == "bucket" && config.app_name == "app"
    ));
    let task = service.purge(&settings(), "s3://b/k", s3_config("b")).unwrap();
    assert!(matches!(task, S3Task::Purge(object) if object.object_key == "k"));
    assert!(AwsS3Service::purged(Ok(())).is_ok());
    assert!(matches!(
        AwsS3Service::purged(Err("boom".to_string())),
        Err(ServiceError::GeneralError(GeneralCause::AwsS3Client(m))) if m == "boom"
    ));
}

#[test]
fn the_first_client_of_a_region_stays() {
    assert_eq!(endpoint_url("eu-west-1"), "https://s3.eu-west-1.amazonaws.com");
    let mut clients: S3Clients<u32> = S3Clients::new();
    assert_eq!(clients.get("eu"), None);
    clients.add_if_absent("eu", 1);
    clients.add_if_absent("us", 2);
    clients.add_if_absent("eu", 3);
    assert_eq!(clients.get("eu"), Some(&1));
    assert_eq!(clients.get("us"), Some(&2));
}

#[test]
fn tagging_does_not_depend_on_the_order_of_metadata() {
    let pairs = [("b", "2"), ("a", "1"), ("c", "3")];
    let mut forth = Metadata::new();
    let mut back = Metadata::new();
    for (key, value) in pairs {
        forth.insert(key, value);
    }
    for (key, value) in pairs.into_iter().rev() {
        back.insert(key, value);
    }
    let tagging = AwsS3Service::build_tagging_from_metadata(&forth).unwrap();
    assert_eq!(tagging.as_deref(), Some("a=1&b=2&c=3"));
    assert_eq!(AwsS3Service::build_tagging_from_metadata(&back).unwrap(), tagging);
}

#[test]
fn taggings_are_decoded_to_metadata() {
    let mut metadata = Metadata::new();
    for (key, value) in [("ü & =", "%/="), ("a", ""), ("b+c", "x y")] {
        metadata.insert(key, value);
    }
    let tagging = AwsS3Service::build_tagging_from_metadata(&metadata).unwrap().unwrap();
    let decoded: Vec<(String, String)> = tagging
        .split('&')
        .map(|tag| {
            let halves: Vec<&str> = tag.split('=').collect();
            assert_eq!(halves.len(), 2);
            (
                urlencoding::decode(halves[0]).unwrap().into_owned(),
                urlencoding::decode(halves[1]).unwrap().into_owned(),
            )
        })
        .collect();
    let pair = |key: &str, value: &str| (key.to_string(), value.to_string());
    assert_eq!(decoded, vec![pair("a", ""), pair("b+c", "x y"), pair("ü & =", "%/=")]);
}
