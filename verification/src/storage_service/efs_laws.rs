//! What becomes of contents in files.
use vstd::prelude::*;
use crate::encoding::{file_name_of, parent_of, same_path_as};
use crate::error::{ErrorView, ServiceError};
use crate::reading::{failed_with, refused_with};
use crate::storage_service::aws_efs_service::{
    read_file_facts, AwsEfsService, DirProbe, EfsStage, EfsTask, FileFacts, PurgeStep, StageFault,
};
use crate::storage_service::storage_service_trait::{
    ContentRepresentationInfo, FromStageInfo, GenerateUploadUrlOptions, Settings, StageItemResult, StorageServiceTrait,
};
use crate::storage_service_factory::get_adapter_type_from_id;
use crate::types::{
    AdapterConfig, AdapterConfigView, AdapterType, CallContext, ContentHeadInfo,
    RetrieveProperties,
};

verus! {

/// A content is staged to a file under the base path, in the directory of its organization, its
/// identifier and its type of representation, under its file name. It is fetched from the adapter
/// that it lies in, as it is described there but for the type of representation, which is the one
/// that was asked for, or that at the origin. Only an origin that is not known stands in the way.
pub proof fn law_contents_are_written_to_files(
    service: &AwsEfsService,
    settings: &Settings,
    ctx: &CallContext,
    config: AdapterConfig,
    from: FromStageInfo,
    to_alias: Option<String>,
    to_representation_type: Option<String>,
    task: Result<EfsTask, ServiceError>,
    adapter_id: &str,
    from_type: Option<AdapterType>,
)
    requires
        call_ensures(
            AwsEfsService::stage,
            (service, settings, ctx, config, from, to_alias, to_representation_type),
            task,
        ),
        adapter_id@ == from.adapter_id@,
        call_ensures(get_adapter_type_from_id, (settings, adapter_id), from_type),
    ensures
        task is Ok <==> from_type is Some,
        from_type is None ==> failed_with(task, "Invalid adapter ID"@),
        task is Ok ==> {
            let info = from.content_representation_info.deep_view();
            let to_type = match to_representation_type {
                Some(to_type) => to_type@,
                None => info.representation_type,
            };
            &&& task matches Ok(EfsTask::Stage(stage))
            &&& Some(stage.from_adapter_type) == from_type
            &&& stage.from_adapter_config.deep_view() == from.adapter_config.deep_view()
            &&& stage.from.uri@ == info.uri
            &&& stage.from.content_id@ == info.content_id
            &&& stage.from.filename@ == info.filename
            &&& stage.from.mime_type@ == info.mime_type
            &&& stage.from.metadata.deep_view() == info.metadata
            &&& stage.from.representation_type@ == to_type
            &&& stage.file_path@ == settings.aws_efs_base_path@ + "/"@ + ctx.org_id@ + "/"@
                + info.content_id + "/"@ + to_type + "/"@ + info.filename
        },
{
}

/// A staged content has the path of its file as its URI, nothing of which can be calculated, and is
/// described by the first head that was found. The directory of the file is the one around it.
pub proof fn law_staged_files_are_described(
    stage: EfsStage,
    parent: Result<String, ServiceError>,
    infos: Result<Vec<ContentHeadInfo>, ServiceError>,
    item: Result<StageItemResult, ServiceError>,
)
    requires
        call_ensures(EfsStage::parent, (&stage,), parent),
        call_ensures(EfsStage::finish, (stage, infos), item),
    ensures
        match parent_of(stage.file_path@) {
            Some(dir) => parent matches Ok(parent) && parent@ == dir,
            None => parent matches Err(ServiceError::FileSystemError(message)) && message@
                == "Failed to get parent path of file: ["@ + stage.file_path@ + "]"@,
        },
        item is Ok <==> (infos matches Ok(infos) && infos@.len() > 0),
        infos matches Err(error) ==> (item matches Err(found) && found.deep_view()
            == error.deep_view()),
        infos is Ok && item is Err ==> (item matches Err(ServiceError::FileSystemError(message))
            && message@ == "Failed to get head info for file: ["@ + stage.file_path@ + "]"@),
        item matches Ok(item) ==> {
            &&& item.uri@ == stage.file_path@
            &&& item.stripped_uri@ == stage.file_path@
            &&& item.representation_type@ == stage.from.representation_type@
            &&& item.filename@ == stage.from.filename@
            &&& item.head_info.deep_view() == infos->Ok_0@[0].deep_view()
        },
{
    if let Ok(found) = infos {
        if found@.len() > 0 {
            assert(found.deep_view()[0] == found@[0].deep_view());
        }
    }
}

/// A failure to fetch a content is passed on; a failure of the file system is reported as one, with
/// what was being done and what is said of it.
pub proof fn law_staging_failures(fault: StageFault, error: ServiceError)
    requires
        call_ensures(EfsStage::fail, (fault,), error),
    ensures
        match fault {
            StageFault::Fetch(report) => error.deep_view() == ErrorView::ReqwestError(
                report.deep_view(),
            ),
            StageFault::CreateParent(shown) => error.deep_view() == ErrorView::FileSystemError(
                "Failed to create parent path of file: ["@ + shown@ + "]"@,
            ),
            StageFault::CreateFile(shown) => error.deep_view() == ErrorView::FileSystemError(
                "Failed to create file: ["@ + shown@ + "]"@,
            ),
            StageFault::Write(shown) => error.deep_view() == ErrorView::FileSystemError(
                "Failed to write content to file: ["@ + shown@ + "]"@,
            ),
            StageFault::Flush(shown) => error.deep_view() == ErrorView::FileSystemError(
                "Failed to flush buffer: ["@ + shown@ + "]"@,
            ),
        },
{
}

/// What is known of a file is its size and the type that its contents suggest, or that for unknown
/// types. Heads are asked for the files with the given paths, in order, and what is purged is the
/// file with the given path.
pub proof fn law_files_are_described(
    service: &AwsEfsService,
    settings: &Settings,
    facts: FileFacts,
    info: Result<ContentHeadInfo, ServiceError>,
    uris: &Vec<String>,
    configs: &Vec<AdapterConfig>,
    now_secs: u64,
    heads: Result<EfsTask, ServiceError>,
    uri: &str,
    config: AdapterConfig,
    purge: Result<EfsTask, ServiceError>,
)
    requires
        call_ensures(read_file_facts, (settings, facts), info),
        call_ensures(
            AwsEfsService::retrieve_head_infos,
            (service, settings, uris, configs, now_secs),
            heads,
        ),
        call_ensures(AwsEfsService::purge, (service, settings, uri, config), purge),
    ensures
        match facts {
            FileFacts::Known { size, kind } => {
                &&& info matches Ok(info)
                &&& info.size == size
                &&& info.mime_type@ == (match kind {
                    Some(kind) => kind@,
                    None => settings.unknown_mime_type@,
                })
                &&& info.filename is None
            },
            FileFacts::NoMetadata(shown) => info matches Err(error) && error.deep_view()
                == ErrorView::FileSystemError(
                "Failed to get file metadata: ["@ + shown@ + "]"@,
            ),
            FileFacts::NoKind(shown) => info matches Err(error) && error.deep_view()
                == ErrorView::FileSystemError("Failed to infer file kind: ["@ + shown@ + "]"@),
        },
        heads matches Ok(EfsTask::HeadInfos(paths)) && paths.deep_view() == uris.deep_view(),
        purge matches Ok(EfsTask::Purge(path)) && path@ == uri@,
{
}

/// After a file or a directory has gone, the directory around it is looked at, unless it is the
/// base path or there is none; an empty directory is removed and any other stays. What fails is
/// reported with its path.
pub proof fn law_purging_goes_outwards(
    service: &AwsEfsService,
    settings: &Settings,
    path: &str,
    removed: Result<(), String>,
    probe: DirProbe,
    after_file: PurgeStep,
    after_probe: PurgeStep,
    after_dir: PurgeStep,
)
    requires
        call_ensures(AwsEfsService::file_removed, (service, settings, path, removed), after_file),
        call_ensures(AwsEfsService::dir_probed, (service, path, probe), after_probe),
        call_ensures(AwsEfsService::dir_removed, (service, settings, path, removed), after_dir),
    ensures
        removed is Ok ==> {
            let goes_on = parent_of(path@) matches Some(dir) && !same_path_as(
                dir,
                settings.aws_efs_base_path@,
            );
            &&& goes_on ==> after_file is Probe && after_file->Probe_0@ == parent_of(path@)->0
                && after_dir is Probe && after_dir->Probe_0@ == parent_of(path@)->0
            &&& !goes_on ==> (after_file matches PurgeStep::Done(Ok(_))) && (
            after_dir matches PurgeStep::Done(Ok(_)))
        },
        removed matches Err(shown) ==> {
            &&& after_file matches PurgeStep::Done(Err(file_error))
            &&& after_dir matches PurgeStep::Done(Err(dir_error))
            &&& file_error.deep_view() == ErrorView::FileSystemError(
                "Failed to remove file: ["@ + path@ + "]. Reason: ["@ + shown@ + "]"@,
            )
            &&& dir_error.deep_view() == ErrorView::FileSystemError(
                "Failed to remove directory: ["@ + path@ + "]. Reason: ["@ + shown@ + "]"@,
            )
        },
        match probe {
            DirProbe::Empty => after_probe matches PurgeStep::RemoveDir(dir) && dir@ == path@,
            DirProbe::Unreadable(shown) => after_probe matches PurgeStep::Done(Err(error))
                && error.deep_view() == ErrorView::FileSystemError(
                "Failed to read directory: ["@ + path@ + "]. Reason: ["@ + shown@ + "]"@,
            ),
            _ => after_probe matches PurgeStep::Done(Ok(_)),
        },
{
}

/// There is one file system, which cannot be changed. A path is one of its URIs exactly where it
/// begins with the base path; it is stored and made again as it is, and its file name is its last
/// component.
pub proof fn law_file_uris(
    service: &AwsEfsService,
    settings: &Settings,
    uri: &str,
    config: &AdapterConfig,
    old_config: AdapterConfig,
    new_config: AdapterConfig,
    has_linked_alias: bool,
    content_id: Option<String>,
    representation_type: Option<String>,
    alias: Option<String>,
    slug: Option<String>,
    is_dynamic: bool,
    full: Result<String, ServiceError>,
    valid: bool,
    filename: Option<String>,
    updated: Result<EfsTask, ServiceError>,
    default_config: AdapterConfig,
)
    requires
        call_ensures(
            AwsEfsService::reconstruct_uri,
            (
                service,
                settings,
                uri,
                config,
                content_id,
                representation_type,
                alias,
                slug,
                is_dynamic,
            ),
            full,
        ),
        call_ensures(AwsEfsService::is_valid_uri, (service, settings, uri), valid),
        call_ensures(AwsEfsService::get_filename_from_uri, (service, uri), filename),
        call_ensures(
            AwsEfsService::update_adapter,
            (service, old_config, new_config, has_linked_alias),
            updated,
        ),
        call_ensures(AwsEfsService::get_default_config, (service, settings), default_config),
    ensures
        full matches Ok(full) && full@ == uri@,
        valid <==> exists|rest: Seq<char>| uri@ == #[trigger] (settings.aws_efs_base_path@ + rest),
        filename.deep_view() == file_name_of(uri@),
        refused_with(updated, "AWS EFS adapter updating is not supported"@),
        default_config.deep_view() == AdapterConfigView::AwsEfs,
{
    let base = settings.aws_efs_base_path@;
    if valid {
        assert(uri@ =~= base + uri@.skip(base.len() as int));
    }
    if exists|rest: Seq<char>| uri@ == #[trigger] (base + rest) {
        let rest = choose|rest: Seq<char>| uri@ == #[trigger] (base + rest);
        assert(uri@.subrange(0, base.len() as int) =~= base);
    }
}

/// Files have no addresses, neither to fetch them nor to upload them, and their paths are not
/// stripped; the file system is neither created nor deleted.
pub proof fn law_files_have_no_addresses(
    service: &AwsEfsService,
    settings: &Settings,
    ctx: &CallContext,
    uri: &str,
    config: AdapterConfig,
    properties: Option<RetrieveProperties>,
    described: Option<ContentRepresentationInfo>,
    now_secs: u64,
    options: GenerateUploadUrlOptions,
    from: ContentRepresentationInfo,
    fetch: Result<EfsTask, ServiceError>,
    upload_url: Result<EfsTask, ServiceError>,
    upload: Result<EfsTask, ServiceError>,
    purge_url: Result<EfsTask, ServiceError>,
    stripped: Result<String, ServiceError>,
    created: Result<EfsTask, ServiceError>,
    deleted: Result<EfsTask, ServiceError>,
)
    requires
        call_ensures(
            AwsEfsService::generate_pre_signed_url,
            (service, settings, uri, config, properties, described, now_secs),
            fetch,
        ),
        call_ensures(
            AwsEfsService::generate_upload_url,
            (service, settings, ctx, config, options),
            upload_url,
        ),
        call_ensures(
            AwsEfsService::upload_content,
            (service, settings, ctx, config, uri, config, from, uri),
            upload,
        ),
        call_ensures(AwsEfsService::purge_by_url, (service, uri), purge_url),
        call_ensures(AwsEfsService::strip_uri, (service, uri), stripped),
        call_ensures(AwsEfsService::create_adapter, (service, settings, uri, config), created),
        call_ensures(AwsEfsService::delete_adapter, (service, config), deleted),
    ensures
        fetch matches Err(ServiceError::ForbiddenError),
        upload_url matches Err(ServiceError::ForbiddenError),
        upload matches Err(ServiceError::ForbiddenError),
        purge_url matches Err(ServiceError::ForbiddenError),
        stripped matches Err(ServiceError::ForbiddenError),
        created matches Err(ServiceError::ForbiddenError),
        deleted matches Err(ServiceError::ForbiddenError),
{
}

} // verus!
