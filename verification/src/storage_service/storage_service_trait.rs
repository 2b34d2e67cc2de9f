//! What every storage adapter offers.
use vstd::prelude::*;
use crate::error::{forbidden, ServiceError};
use crate::types::{
    AdapterConfig, AdapterConfigView, CallContext, ContentHeadInfo, HeadInfoView, Metadata,
    RetrieveProperties,
};

verus! {

/// One form in which a content is stored.
#[derive(Debug)]
pub struct ContentRepresentationInfo {
    pub content_id: String,
    pub representation_type: String,
    pub uri: String,
    pub filename: String,
    pub mime_type: String,
    pub metadata: Option<Metadata>,
}

pub struct RepresentationView {
    pub content_id: Seq<char>,
    pub representation_type: Seq<char>,
    pub uri: Seq<char>,
    pub filename: Seq<char>,
    pub mime_type: Seq<char>,
    pub metadata: Option<Seq<(Seq<char>, Seq<char>)>>,
}

impl DeepView for ContentRepresentationInfo {
    type V = RepresentationView;

    open spec fn deep_view(&self) -> RepresentationView {
        RepresentationView {
            content_id: self.content_id@,
            representation_type: self.representation_type@,
            uri: self.uri@,
            filename: self.filename@,
            mime_type: self.mime_type@,
            metadata: self.metadata.deep_view(),
        }
    }
}

/// A copy of optional metadata.
pub fn copy_metadata(metadata: &Option<Metadata>) -> (copy: Option<Metadata>)
    ensures
        copy.deep_view() == metadata.deep_view(),
{
    match metadata {
        Some(metadata) => Some(metadata.clone()),
        None => None,
    }
}

impl Clone for ContentRepresentationInfo {
    fn clone(&self) -> (copy: Self)
        ensures
            copy.deep_view() == self.deep_view(),
    {
        ContentRepresentationInfo {
            content_id: self.content_id.clone(),
            representation_type: self.representation_type.clone(),
            uri: self.uri.clone(),
            filename: self.filename.clone(),
            mime_type: self.mime_type.clone(),
            metadata: copy_metadata(&self.metadata),
        }
    }
}

/// What an upload address is asked for.
#[derive(Debug)]
pub struct GenerateUploadUrlOptions {
    pub content_id: String,
    pub representation_type: String,
    pub filename: String,
    pub mime_type: String,
    pub metadata: Option<Metadata>,
}

pub struct UploadOptionsView {
    pub content_id: Seq<char>,
    pub representation_type: Seq<char>,
    pub filename: Seq<char>,
    pub mime_type: Seq<char>,
    pub metadata: Option<Seq<(Seq<char>, Seq<char>)>>,
}

impl DeepView for GenerateUploadUrlOptions {
    type V = UploadOptionsView;

    open spec fn deep_view(&self) -> UploadOptionsView {
        UploadOptionsView {
            content_id: self.content_id@,
            representation_type: self.representation_type@,
            filename: self.filename@,
            mime_type: self.mime_type@,
            metadata: self.metadata.deep_view(),
        }
    }
}

impl Clone for GenerateUploadUrlOptions {
    fn clone(&self) -> (copy: Self)
        ensures
            copy.deep_view() == self.deep_view(),
    {
        GenerateUploadUrlOptions {
            content_id: self.content_id.clone(),
            representation_type: self.representation_type.clone(),
            filename: self.filename.clone(),
            mime_type: self.mime_type.clone(),
            metadata: copy_metadata(&self.metadata),
        }
    }
}

/// An upload address, where the content will be, and the headers that an upload must send.
#[derive(Debug)]
pub struct GenerateUploadUrlResult {
    pub upload_url: String,
    pub content_uri: String,
    pub headers: Option<String>,
}

pub struct UploadUrlView {
    pub upload_url: Seq<char>,
    pub content_uri: Seq<char>,
    pub headers: Option<Seq<char>>,
}

impl DeepView for GenerateUploadUrlResult {
    type V = UploadUrlView;

    open spec fn deep_view(&self) -> UploadUrlView {
        UploadUrlView {
            upload_url: self.upload_url@,
            content_uri: self.content_uri@,
            headers: self.headers.deep_view(),
        }
    }
}

/// Where a content has been staged.
#[derive(Debug)]
pub struct StageItemResult {
    pub uri: String,
    pub stripped_uri: String,
    pub representation_type: String,
    pub filename: String,
    pub head_info: ContentHeadInfo,
}

pub struct StageItemView {
    pub uri: Seq<char>,
    pub stripped_uri: Seq<char>,
    pub representation_type: Seq<char>,
    pub filename: Seq<char>,
    pub head_info: HeadInfoView,
}

impl DeepView for StageItemResult {
    type V = StageItemView;

    open spec fn deep_view(&self) -> StageItemView {
        StageItemView {
            uri: self.uri@,
            stripped_uri: self.stripped_uri@,
            representation_type: self.representation_type@,
            filename: self.filename@,
            head_info: self.head_info.deep_view(),
        }
    }
}

/// Where a content is staged from.
#[derive(Debug)]
pub struct FromStageInfo {
    pub adapter_id: String,
    pub adapter_config: AdapterConfig,
    pub content_representation_info: ContentRepresentationInfo,
}

pub struct FromStageView {
    pub adapter_id: Seq<char>,
    pub adapter_config: AdapterConfigView,
    pub content_representation_info: RepresentationView,
}

impl DeepView for FromStageInfo {
    type V = FromStageView;

    open spec fn deep_view(&self) -> FromStageView {
        FromStageView {
            adapter_id: self.adapter_id@,
            adapter_config: self.adapter_config.deep_view(),
            content_representation_info: self.content_representation_info.deep_view(),
        }
    }
}

/// What the service is configured with.
#[derive(Debug)]
pub struct Settings {
    pub aws_s3_adapter_id_prefix: String,
    pub channel_manager_adapter_id_prefix: String,
    pub cdn_adapter_id_prefix: String,
    pub aws_efs_adapter_id_prefix: String,
    pub content_id_prefix: String,
    pub services_base_url: String,
    pub bunnynet_api_key: String,
    pub bunnynet_pullzone_name_prefix: String,
    pub bunnynet_default_pullzone_id: String,
    pub bunnynet_default_pullzone_token_auth_key: String,
    pub bunny_pull_zone_name: String,
    pub bunny_pull_zone_domain: String,
    pub aws_region: String,
    pub s3_bucket: String,
    pub aws_efs_base_path: String,
    pub unknown_mime_type: String,
    pub pre_signed_url_expiration_time: u64,
}

/// A storage service of a specific adapter. An operation checks what it is asked for and
/// answers with the task that remains to be carried out; one that an adapter does not offer
/// is forbidden.
pub trait StorageServiceTrait {
    /// What an accepted operation has left to do.
    type Task;

    /// Whether the addresses of the adapter tell the moment at which they expire.
    spec fn tells_expiration() -> bool;

    /// Retrieves what is known of contents without their bytes.
    fn retrieve_head_infos(
        &self,
        settings: &Settings,
        content_uris: &Vec<String>,
        adapter_configs: &Vec<AdapterConfig>,
        now_secs: u64,
    ) -> (task: Result<Self::Task, ServiceError>)
        requires
            Self::tells_expiration() ==> now_secs + settings.pre_signed_url_expiration_time
                <= u64::MAX,
        default_ensures
            forbidden(task),
    {
        Err(ServiceError::ForbiddenError)
    }

    /// Purges a content from the adapter's storage.
    fn purge(
        &self,
        settings: &Settings,
        content_uri: &str,
        adapter_config: AdapterConfig,
    ) -> (task: Result<Self::Task, ServiceError>)
        default_ensures
            forbidden(task),
    {
        Err(ServiceError::ForbiddenError)
    }

    /// Generates an address from which a content can be fetched for a while.
    fn generate_pre_signed_url(
        &self,
        settings: &Settings,
        content_uri: &str,
        adapter_config: AdapterConfig,
        retrieve_properties: Option<RetrieveProperties>,
        content_repr_properties: Option<ContentRepresentationInfo>,
        now_secs: u64,
    ) -> (task: Result<Self::Task, ServiceError>)
        requires
            Self::tells_expiration() ==> now_secs + settings.pre_signed_url_expiration_time
                <= u64::MAX,
        default_ensures
            forbidden(task),
    {
        Err(ServiceError::ForbiddenError)
    }

    /// Generates an address to which a content can be uploaded for a while.
    fn generate_upload_url(
        &self,
        settings: &Settings,
        ctx: &CallContext,
        adapter_config: AdapterConfig,
        options: GenerateUploadUrlOptions,
    ) -> (task: Result<Self::Task, ServiceError>)
        default_ensures
            forbidden(task),
    {
        Err(ServiceError::ForbiddenError)
    }

    /// Uploads a content from the origin adapter.
    fn upload_content(
        &self,
        settings: &Settings,
        ctx: &CallContext,
        adapter_config: AdapterConfig,
        from_adapter_id: &str,
        from_adapter_config: AdapterConfig,
        from_content_representation_info: ContentRepresentationInfo,
        to_representation_type: &str,
    ) -> (task: Result<Self::Task, ServiceError>)
        default_ensures
            forbidden(task),
    {
        Err(ServiceError::ForbiddenError)
    }

    /// Stages a content from the origin adapter.
    fn stage(
        &self,
        settings: &Settings,
        ctx: &CallContext,
        adapter_config: AdapterConfig,
        from_stage_info: FromStageInfo,
        to_alias: Option<String>,
        to_representation_type: Option<String>,
    ) -> (task: Result<Self::Task, ServiceError>)
        default_ensures
            forbidden(task),
    {
        Err(ServiceError::ForbiddenError)
    }

    /// Strips a content URI of what can be calculated, so that it is not stored twice. How much
    /// that is depends on the adapter: for some it is all of the URI, for some nothing.
    fn strip_uri(&self, content_uri: &str) -> (stripped: Result<String, ServiceError>)
        default_ensures
            forbidden(stripped),
    {
        Err(ServiceError::ForbiddenError)
    }

    /// Reconstructs the full content URI from the stripped one and additional data.
    fn reconstruct_uri(
        &self,
        settings: &Settings,
        stripped_content_uri: &str,
        adapter_config: &AdapterConfig,
        content_id: Option<String>,
        representation_type: Option<String>,
        alias: Option<String>,
        short_link_slug: Option<String>,
        is_dynamic: bool,
    ) -> (uri: Result<String, ServiceError>)
        default_ensures
            forbidden(uri),
    {
        Err(ServiceError::ForbiddenError)
    }

    /// Creates a new adapter with the provider.
    fn create_adapter(
        &self,
        settings: &Settings,
        adapter_id: &str,
        new_config: AdapterConfig,
    ) -> (task: Result<Self::Task, ServiceError>)
        default_ensures
            forbidden(task),
    {
        Err(ServiceError::ForbiddenError)
    }

    /// Updates an adapter.
    fn update_adapter(
        &self,
        old_config: AdapterConfig,
        new_config: AdapterConfig,
        has_linked_alias: bool,
    ) -> (task: Result<Self::Task, ServiceError>)
        default_ensures
            forbidden(task),
    {
        Err(ServiceError::ForbiddenError)
    }

    /// Deletes an adapter.
    fn delete_adapter(&self, config: AdapterConfig) -> (task: Result<Self::Task, ServiceError>)
        default_ensures
            forbidden(task),
    {
        Err(ServiceError::ForbiddenError)
    }

    /// Purges what is cached under an address.
    fn purge_by_url(&self, url: &str) -> (task: Result<Self::Task, ServiceError>)
        default_ensures
            forbidden(task),
    {
        Err(ServiceError::ForbiddenError)
    }

    /// Checks if the URI is valid for this adapter.
    fn is_valid_uri(&self, settings: &Settings, uri: &str) -> (valid: bool)
        default_ensures
            !valid,
    {
        false
    }

    /// Gets the filename from the URI if it is possible.
    fn get_filename_from_uri(&self, uri: &str) -> (filename: Option<String>)
        default_ensures
            filename is None,
    {
        None
    }

    /// Gets the default configuration for the adapter.
    fn get_default_config(&self, settings: &Settings) -> (config: AdapterConfig);
}

} // verus!
