use content_service::error::{ErrorReport, GeneralCause, ServiceError};
use content_service::http::{Credentials, Method};
use content_service::storage_service::aws_efs_service::{
    read_file_facts, AwsEfsService, DirProbe, EfsStage, EfsTask, FileFacts, PurgeStep, StageFault,
};
use content_service::storage_service::channel_manager_service::{
    read_final_reply, read_head_reply, AfterHead, ChannelHead, ChannelManager, ChannelTask,
    ContentItem, ContentRetrievalQuery, HeadReply,
};
use content_service::storage_service::head::ContentHeaders;
use content_service::storage_service::storage_service_trait::{
    ContentRepresentationInfo, FromStageInfo, GenerateUploadUrlOptions, Settings,
    StorageServiceTrait,
};
use content_service::types::{
    AdapterConfig, AdapterType, AwsEfsConfig, CallContext, ChannelManagerConfig, ContentHeadInfo,
    Metadata,
};

fn settings() -> Settings {
    let text = |s: &str| s.to_string();
    Settings {
        aws_s3_adapter_id_prefix: text("awss"),
        channel_manager_adapter_id_prefix: text("chnl"),
        cdn_adapter_id_prefix: text("cdn"),
        aws_efs_adapter_id_prefix: text("efs"),
        content_id_prefix: text("cont"),
        services_base_url: text("https://services"),
        bunnynet_api_key: text("key"),
        bunnynet_pullzone_name_prefix: text("zone"),
        bunnynet_default_pullzone_id: text("1"),
        bunnynet_default_pullzone_token_auth_key: text("auth"),
        bunny_pull_zone_name: text("default-zone"),
        bunny_pull_zone_domain: text("cdn.test"),
        aws_region: text("eu-west-1"),
        s3_bucket: text("bucket"),
        aws_efs_base_path: text("/mnt/efs"),
        unknown_mime_type: text("application/octet-stream"),
        pre_signed_url_expiration_time: 900,
    }
}

fn efs() -> AdapterConfig {
    AdapterConfig::AwsEfs(AwsEfsConfig {})
}

fn file_error<T>(result: Result<T, ServiceError>) -> String {
    match result {
        Err(ServiceError::FileSystemError(message)) => message,
        Err(other) => panic!("{other:?}"),
        Ok(_) => panic!("accepted"),
    }
}

#[test]
fn files_are_described_by_what_is_in_them() {
    let info = read_file_facts(
        &settings(),
        FileFacts::Known { size: 3, kind: Some("image/png".to_string()) },
    )
    .unwrap();
    assert_eq!((info.mime_type.as_str(), info.size, info.filename), ("image/png", 3, None));
    let info = read_file_facts(&settings(), FileFacts::Known { size: 0, kind: None }).unwrap();
    assert_eq!(info.mime_type, "application/octet-stream");
    assert_eq!(
        file_error(read_file_facts(&settings(), FileFacts::NoMetadata("gone".to_string()))),
        "Failed to get file metadata: [gone]"
    );
    assert_eq!(
        file_error(read_file_facts(&settings(), FileFacts::NoKind("odd".to_string()))),
        "Failed to infer file kind: [odd]"
    );
}

fn probed(step: PurgeStep) -> String {
    match step {
        PurgeStep::Probe(dir) => dir,
        other => panic!("{other:?}"),
    }
}

#[test]
fn purging_climbs_up_to_the_base_path() {
    let service = AwsEfsService::new();
    let s = settings();
    let EfsTask::Purge(path) =
        service.purge(&s, "/mnt/efs/org/cont/a.png", efs()).unwrap()
    else {
        panic!("no purge");
    };
    let dir = probed(service.file_removed(&s, &path, Ok(())));
    assert_eq!(dir, "/mnt/efs/org/cont");
    assert!(matches!(
        service.dir_probed(&dir, DirProbe::Empty),
        PurgeStep::RemoveDir(removed) if removed == dir
    ));
    let dir = probed(service.dir_removed(&s, &dir, Ok(())));
    assert_eq!(dir, "/mnt/efs/org");
    assert!(matches!(service.dir_removed(&s, &dir, Ok(())), PurgeStep::Done(Ok(()))));
    assert!(matches!(
        service.file_removed(&s, "/mnt/efs//a.png", Ok(())),
        PurgeStep::Done(Ok(()))
    ));
    assert!(matches!(service.file_removed(&s, "/", Ok(())), PurgeStep::Done(Ok(()))));
}

#[test]
fn purging_stops_at_what_is_not_empty() {
    let service = AwsEfsService::new();
    assert!(matches!(service.dir_probed("/d", DirProbe::Missing), PurgeStep::Done(Ok(()))));
    assert!(matches!(service.dir_probed("/d", DirProbe::Occupied), PurgeStep::Done(Ok(()))));
    let PurgeStep::Done(result) = service.dir_probed("/d", DirProbe::Unreadable("x".to_string()))
    else {
        panic!("goes on");
    };
    assert_eq!(file_error(result), "Failed to read directory: [/d]. Reason: [x]");
    let PurgeStep::Done(result) = service.dir_removed(&settings(), "/d", Err("y".to_string()))
    else {
        panic!("goes on");
    };
    assert_eq!(file_error(result), "Failed to remove directory: [/d]. Reason: [y]");
    let PurgeStep::Done(result) = service.file_removed(&settings(), "/f", Err("z".to_string()))
    else {
        panic!("goes on");
    };
    assert_eq!(file_error(result), "Failed to remove file: [/f]. Reason: [z]");
}

fn stage(adapter_id: &str, to_type: Option<&str>) -> Result<EfsStage, ServiceError> {
    let mut metadata = Metadata::new();
    metadata.insert("k", "v");
    let from = FromStageInfo {
        adapter_id: adapter_id.to_string(),
        adapter_config: AdapterConfig::ChannelManager(ChannelManagerConfig {}),
        content_representation_info: ContentRepresentationInfo {
            content_id: "cont_1".to_string(),
            representation_type: "original".to_string(),
            uri: "chnltyp::x::y".to_string(),
            filename: "a.png".to_string(),
            mime_type: "image/png".to_string(),
            metadata: Some(metadata),
        },
    };
    let ctx = CallContext { org_id: "org".to_string() };
    let to_type = to_type.map(str::to_string);
    match AwsEfsService::new().stage(&settings(), &ctx, efs(), from, None, to_type)? {
        EfsTask::Stage(stage) => Ok(stage),
        other => panic!("{other:?}"),
    }
}

#[test]
fn contents_are_staged_to_files() {
    let staged = stage("chnl_01h536gfwffx2rm6pa0xg63337", Some("web")).unwrap();
    assert_eq!(staged.from_adapter_type, AdapterType::ChannelManager);
    assert_eq!(staged.file_path, "/mnt/efs/org/cont_1/web/a.png");
    assert_eq!(staged.from.representation_type, "web");
    assert_eq!(staged.parent().unwrap(), "/mnt/efs/org/cont_1/web");
    let info = ContentHeadInfo { mime_type: "image/png".to_string(), size: 4, filename: None };
    let item = staged.finish(Ok(vec![info])).unwrap();
    assert_eq!(item.uri, "/mnt/efs/org/cont_1/web/a.png");
    assert_eq!(item.stripped_uri, item.uri);
    assert_eq!(item.representation_type, "web");
    assert_eq!(item.filename, "a.png");
    assert_eq!(item.head_info.size, 4);

    let staged = stage("chnl_01h536gfwffx2rm6pa0xg63337", None).unwrap();
    assert_eq!(staged.from.representation_type, "original");
    assert_eq!(
        file_error(staged.finish(Ok(vec![]))),
        "Failed to get head info for file: [/mnt/efs/org/cont_1/original/a.png]"
    );
    assert!(matches!(
        stage("nobody", None),
        Err(ServiceError::GeneralError(GeneralCause::Plain(m))) if m == "Invalid adapter ID"
    ));
}

#[test]
fn staging_reports_what_went_wrong() {
    let shown = || "e".to_string();
    let wrong = |fault| file_error::<()>(Err(EfsStage::fail(fault)));
    assert_eq!(
        wrong(StageFault::CreateParent(shown())),
        "Failed to create parent path of file: [e]"
    );
    assert_eq!(wrong(StageFault::CreateFile(shown())), "Failed to create file: [e]");
    assert_eq!(wrong(StageFault::Write(shown())), "Failed to write content to file: [e]");
    assert_eq!(wrong(StageFault::Flush(shown())), "Failed to flush buffer: [e]");
    let report = ErrorReport { message: "r".to_string(), sources: vec![] };
    assert!(matches!(
        EfsStage::fail(StageFault::Fetch(report)),
        ServiceError::ReqwestError(report) if report.message == "r"
    ));
}

#[test]
fn the_rest_of_the_file_service() {
    let service = AwsEfsService::new();
    let s = settings();
    let uris = vec!["/mnt/efs/a".to_string()];
    let task = service.retrieve_head_infos(&s, &uris, &vec![], 0).unwrap();
    assert!(matches!(task, EfsTask::HeadInfos(paths) if paths == uris));
    assert!(service.is_valid_uri(&s, "/mnt/efs/a"));
    assert!(!service.is_valid_uri(&s, "/mnt/other"));
    assert_eq!(service.get_filename_from_uri("/mnt/efs/a.png").as_deref(), Some("a.png"));
    assert_eq!(service.get_filename_from_uri("/mnt/efs/dir/").as_deref(), Some("dir"));
    assert_eq!(service.get_filename_from_uri("/mnt/.."), None);
    let uri = service.reconstruct_uri(&s, "/mnt/x", &efs(), None, None, None, None, false);
    assert_eq!(uri.unwrap(), "/mnt/x");
    assert!(matches!(
        service.update_adapter(efs(), efs(), false),
        Err(ServiceError::InvalidRequestParameters(m))
            if m == "AWS EFS adapter updating is not supported"
    ));
    assert!(matches!(service.get_default_config(&s), AdapterConfig::AwsEfs(_)));
}

#[test]
fn what_a_service_does_not_offer_is_forbidden() {
    let service = AwsEfsService::new();
    let s = settings();
    assert!(matches!(service.strip_uri("u"), Err(ServiceError::ForbiddenError)));
    assert!(matches!(service.create_adapter(&s, "i", efs()), Err(ServiceError::ForbiddenError)));
    assert!(matches!(service.delete_adapter(efs()), Err(ServiceError::ForbiddenError)));
    assert!(matches!(service.purge_by_url("u"), Err(ServiceError::ForbiddenError)));
    assert!(matches!(
        service.generate_pre_signed_url(&s, "u", efs(), None, None, 0),
        Err(ServiceError::ForbiddenError)
    ));
    let channels = ChannelManager::new();
    assert!(matches!(channels.purge(&s, "u", efs()), Err(ServiceError::ForbiddenError)));
    assert!(matches!(channels.purge_by_url("u"), Err(ServiceError::ForbiddenError)));
    let ctx = CallContext { org_id: "o".to_string() };
    let options = GenerateUploadUrlOptions {
        content_id: "c".to_string(),
        representation_type: "r".to_string(),
        filename: "f".to_string(),
        mime_type: "m".to_string(),
        metadata: None,
    };
    assert!(matches!(
        channels.generate_upload_url(&s, &ctx, efs(), options),
        Err(ServiceError::ForbiddenError)
    ));
}

#[test]
fn channels_are_found_in_uris() {
    let service = ChannelManager::new();
    let channel = |uri: &str| service.get_channel_id_from_uri(uri);
    assert_eq!(channel("chnltyp::social::ch_1/posts/2").unwrap(), "ch_1");
    assert_eq!(channel("chnltyp::a::b::ch_2").unwrap(), "ch_2");
    assert_eq!(channel("chnltyp::a::").unwrap(), "");
    for bad in ["chnltyp::a", "chnl::a::b", "chnltyp:a::b", ""] {
        assert!(matches!(
            channel(bad),
            Err(ServiceError::ParseError(m)) if m == "Invalid content URI format for channel"
        ));
    }
    assert!(service.is_valid_uri(&settings(), "chnltyp::a"));
    assert!(!service.is_valid_uri(&settings(), "chnltyp:a"));
}

fn item(url: &str, credentials: Credentials) -> ContentItem {
    ContentItem {
        url: url.to_string(),
        credentials,
        headers: vec![("X-A".to_string(), "1".to_string())],
    }
}

#[test]
fn contents_of_channels_are_queried_together() {
    let service = ChannelManager::new();
    let uris = vec!["chnltyp::a::c1/x".to_string(), "chnltyp::a::c2".to_string()];
    let task = service.retrieve_head_infos(&settings(), &uris, &vec![], 0).unwrap();
    let ChannelTask::HeadInfos(queries) = task else { panic!("no queries") };
    assert_eq!(queries[0].channel_id, "c1");
    assert_eq!(queries[0].content_uri, uris[0]);
    assert_eq!(queries[1].channel_id, "c2");
    let mixed = vec![uris[0].clone(), "bad".to_string()];
    assert!(matches!(
        service.retrieve_head_infos(&settings(), &mixed, &vec![], 0),
        Err(ServiceError::ParseError(_))
    ));

    assert!(matches!(
        service.heads_to_ask(2, Err("unavailable".to_string())),
        Err(ServiceError::ClientCallError(m)) if m == "unavailable"
    ));
    assert!(matches!(
        service.heads_to_ask(2, Ok(vec![item("u", Credentials::Anonymous)])),
        Err(ServiceError::NotFoundError(m)) if m == "Content not found in channel manager. \
            Expected items: [2], Found items: [1]"
    ));
    let found = vec![
        item("", Credentials::Anonymous),
        item("https://h", Credentials::Bearer("t".to_string())),
    ];
    let mut heads = service.heads_to_ask(2, Ok(found)).unwrap();
    let ChannelHead::Ask(request, asked) = heads.pop().unwrap() else { panic!("no request") };
    assert_eq!((request.method, request.url.as_str()), (Method::Head, "https://h"));
    assert!(matches!(request.credentials, Credentials::Bearer(t) if t == "t"));
    assert_eq!(request.headers, vec![("X-A".to_string(), "1".to_string())]);
    assert_eq!(asked.url, "https://h");
    let ChannelHead::Known(info) = heads.pop().unwrap() else { panic!("asked") };
    assert_eq!((info.mime_type.as_str(), info.size, info.filename), ("", 0, None));
}

fn reply(status: u16) -> Result<HeadReply, ErrorReport> {
    Ok(HeadReply {
        status,
        headers: ContentHeaders {
            content_type: Some("video/mp4".to_string()),
            content_length: Some("77".to_string()),
        },
    })
}

#[test]
fn refused_heads_become_range_requests() {
    let basic = item("https://h", Credentials::Basic("u".to_string(), "p".to_string()));
    for status in [401, 403, 501] {
        let AfterHead::AskRange(request) = read_head_reply(&basic, reply(status)) else {
            panic!("{status} is not final");
        };
        assert_eq!(request.method, Method::Get);
        assert_eq!(
            request.headers,
            vec![
                ("Range".to_string(), "bytes=0-".to_string()),
                ("X-A".to_string(), "1".to_string()),
            ]
        );
        assert!(matches!(
            request.credentials,
            Credentials::Basic(user, password) if user == "u" && password == "p"
        ));
    }
    for status in [200, 206, 399] {
        let AfterHead::Done(Ok(info)) = read_head_reply(&basic, reply(status)) else {
            panic!("{status} is fine");
        };
        assert_eq!((info.mime_type.as_str(), info.size), ("video/mp4", 77));
    }
    for status in [199, 400, 404, 500] {
        let AfterHead::Done(Err(ServiceError::GeneralError(GeneralCause::Plain(message)))) =
            read_head_reply(&basic, reply(status))
        else {
            panic!("{status} is a failure");
        };
        assert_eq!(message, format!("Head request to content failed with status [{status}]"));
    }
    assert!(matches!(
        read_final_reply(reply(403)),
        Err(ServiceError::GeneralError(GeneralCause::Plain(m))) if m == "Head request to content failed with status [403]"
    ));
    let report = ErrorReport { message: "r".to_string(), sources: vec![] };
    assert!(matches!(
        read_head_reply(&basic, Err(report)),
        AfterHead::Done(Err(ServiceError::ReqwestError(report))) if report.message == "r"
    ));
}

#[test]
fn addresses_of_channel_contents_need_a_file_name() {
    let service = ChannelManager::new();
    let content = ContentRepresentationInfo {
        content_id: "c".to_string(),
        representation_type: "r".to_string(),
        uri: "u".to_string(),
        filename: "f.png".to_string(),
        mime_type: "m".to_string(),
        metadata: None,
    };
    let uri = "chnltyp::a::c1";
    let task = service.generate_pre_signed_url(&settings(), uri, efs(), None, Some(content), 0);
    let ChannelTask::Content { query, filename } = task.unwrap() else { panic!("no query") };
    assert_eq!((query.channel_id.as_str(), filename.as_str()), ("c1", "f.png"));
    assert!(matches!(
        service.generate_pre_signed_url(&settings(), uri, efs(), None, None, 0),
        Err(ServiceError::GeneralError(GeneralCause::Plain(m)))
            if m == "Representation properties should be provided to generate pre-signed url."
    ));

    let found = service
        .content_found(
            &query,
            Ok(vec![item("first", Credentials::Anonymous), item("second", Credentials::Anonymous)]),
        )
        .unwrap();
    assert_eq!(found.url, "first");
    assert!(matches!(
        service.content_found(&query, Ok(vec![])),
        Err(ServiceError::NotFoundError(m)) if m == "Content not found in channel manager. \
            Channel ID = [c1], Content URI = [chnltyp::a::c1]"
    ));
    assert!(matches!(
        service.content_found(&query, Err("e".to_string())),
        Err(ServiceError::ClientCallError(m)) if m == "e"
    ));
    assert_eq!(service.channel_url(&settings(), "XYZ"), "https://cdn.test/channel/XYZ");
    let again = ContentRetrievalQuery { channel_id: "x".to_string(), content_uri: "y".to_string() };
    assert!(service.content_found(&again, Ok(vec![])).is_err());
}

#[test]
fn the_rest_of_the_channel_manager() {
    let service = ChannelManager::new();
    assert_eq!(service.strip_uri("chnltyp::x").unwrap(), "chnltyp::x");
    let uri =
        service.reconstruct_uri(&settings(), "chnltyp::x", &efs(), None, None, None, None, true);
    assert_eq!(uri.unwrap(), "chnltyp::x");
    let refused = |result: Result<ChannelTask, ServiceError>, wanted: &str| match result {
        Err(ServiceError::InvalidRequestParameters(message)) => assert_eq!(message, wanted),
        other => panic!("{other:?}"),
    };
    refused(
        service.create_adapter(&settings(), "i", efs()),
        "Channel manager adapter creation is not supported",
    );
    refused(
        service.update_adapter(efs(), efs(), false),
        "Channel manager adapter updating is not supported",
    );
    refused(
        service.delete_adapter(efs()),
        "Channel manager adapter deletion is not supported",
    );
    assert_eq!(service.get_filename_from_uri("chnltyp::x::y/z.png"), None);
    assert!(matches!(
        service.get_default_config(&settings()),
        AdapterConfig::ChannelManager(_)
    ));
}
