//! Chooses the storage service that an adapter belongs to.
use vstd::prelude::*;
use crate::encoding::{id_prefix, id_prefix_of};
use crate::error::{general, general_error, ServiceError};
use crate::storage_service::storage_service_trait::Settings;
use crate::text::same_text;
use crate::types::AdapterType;

verus! {

/// The prefix of an identifier; empty where it has none.
pub open spec fn prefix_or_empty(id: Seq<char>) -> Seq<char> {
    match id_prefix_of(id) {
        Some(prefix) => prefix,
        None => Seq::empty(),
    }
}

/// The kind of storage that a prefix stands for.
pub open spec fn adapter_type_for(settings: &Settings, prefix: Seq<char>) -> Option<AdapterType> {
    if prefix == settings.aws_s3_adapter_id_prefix@ {
        Some(AdapterType::AwsS3)
    } else if prefix == settings.channel_manager_adapter_id_prefix@ {
        Some(AdapterType::ChannelManager)
    } else if prefix == settings.cdn_adapter_id_prefix@ {
        Some(AdapterType::Cdn)
    } else if prefix == settings.aws_efs_adapter_id_prefix@ {
        Some(AdapterType::AwsEfs)
    } else {
        None
    }
}

/// The kind of storage of the adapter with an identifier.
pub open spec fn adapter_type_of(settings: &Settings, id: Seq<char>) -> Option<AdapterType> {
    adapter_type_for(settings, prefix_or_empty(id))
}

/// The kind of storage that a prefix stands for.
pub fn adapter_type_from_prefix(settings: &Settings, prefix: &str) -> (found: Option<AdapterType>)
    ensures
        found == adapter_type_for(settings, prefix@),
{
    if same_text(prefix, settings.aws_s3_adapter_id_prefix.as_str()) {
        Some(AdapterType::AwsS3)
    } else if same_text(prefix, settings.channel_manager_adapter_id_prefix.as_str()) {
        Some(AdapterType::ChannelManager)
    } else if same_text(prefix, settings.cdn_adapter_id_prefix.as_str()) {
        Some(AdapterType::Cdn)
    } else if same_text(prefix, settings.aws_efs_adapter_id_prefix.as_str()) {
        Some(AdapterType::AwsEfs)
    } else {
        None
    }
}

/// The kind of storage of the adapter with an identifier.
pub fn get_adapter_type_from_id(settings: &Settings, adapter_id: &str) -> (found: Option<
    AdapterType,
>)
    ensures
        found == adapter_type_of(settings, adapter_id@),
{
    match id_prefix(adapter_id) {
        Some(prefix) => adapter_type_from_prefix(settings, prefix.as_str()),
        None => {
            let empty = String::new();
            assert(empty@ =~= Seq::empty());
            adapter_type_from_prefix(settings, empty.as_str())
        },
    }
}

/// One storage service for each kind of storage.
#[derive(Debug)]
pub struct StorageServiceFactory<S> {
    pub aws_s3_service: S,
    pub channel_manager_service: S,
    pub cdn_service: S,
    pub aws_efs_service: S,
}

impl<S> StorageServiceFactory<S> {
    /// The service for a kind of storage.
    pub open spec fn service(&self, adapter_type: AdapterType) -> S {
        match adapter_type {
            AdapterType::AwsS3 => self.aws_s3_service,
            AdapterType::ChannelManager => self.channel_manager_service,
            AdapterType::Cdn => self.cdn_service,
            AdapterType::AwsEfs => self.aws_efs_service,
        }
    }

    /// The factory of the given services.
    pub fn new(
        aws_s3_service: S,
        channel_manager_service: S,
        cdn_service: S,
        aws_efs_service: S,
    ) -> (factory: Self)
        ensures
            factory.service(AdapterType::AwsS3) == aws_s3_service,
            factory.service(AdapterType::ChannelManager) == channel_manager_service,
            factory.service(AdapterType::Cdn) == cdn_service,
            factory.service(AdapterType::AwsEfs) == aws_efs_service,
    {
        StorageServiceFactory {
            aws_s3_service,
            channel_manager_service,
            cdn_service,
            aws_efs_service,
        }
    }

    /// The factory in which each mock that is given takes the place of the usual service.
    pub fn new_from_mocks(
        usual: StorageServiceFactory<S>,
        aws_s3_service_option: Option<S>,
        channel_manager_service_option: Option<S>,
        cdn_service_option: Option<S>,
        aws_efs_service_option: Option<S>,
    ) -> (factory: Self)
        ensures
            factory.service(AdapterType::AwsS3) == mock_or(
                aws_s3_service_option,
                usual.service(AdapterType::AwsS3),
            ),
            factory.service(AdapterType::ChannelManager) == mock_or(
                channel_manager_service_option,
                usual.service(AdapterType::ChannelManager),
            ),
            factory.service(AdapterType::Cdn) == mock_or(
                cdn_service_option,
                usual.service(AdapterType::Cdn),
            ),
            factory.service(AdapterType::AwsEfs) == mock_or(
                aws_efs_service_option,
                usual.service(AdapterType::AwsEfs),
            ),
    {
        StorageServiceFactory {
            aws_s3_service: match aws_s3_service_option {
                Some(mock) => mock,
                None => usual.aws_s3_service,
            },
            channel_manager_service: match channel_manager_service_option {
                Some(mock) => mock,
                None => usual.channel_manager_service,
            },
            cdn_service: match cdn_service_option {
                Some(mock) => mock,
                None => usual.cdn_service,
            },
            aws_efs_service: match aws_efs_service_option {
                Some(mock) => mock,
                None => usual.aws_efs_service,
            },
        }
    }

    /// The service of the adapter with an identifier.
    pub fn get_by_id(&self, settings: &Settings, adapter_id: &str) -> (service: Result<
        &S,
        ServiceError,
    >)
        ensures
            match adapter_type_of(settings, adapter_id@) {
                Some(adapter_type) => service matches Ok(found) && *found == self.service(
                    adapter_type,
                ),
                None => service matches Err(error) && error.deep_view() == general_error(
                    "Invalid adapter ID"@,
                ),
            },
    {
        match get_adapter_type_from_id(settings, adapter_id) {
            Some(adapter_type) => Ok(self.get_by_enum(&adapter_type)),
            None => general("Invalid adapter ID"),
        }
    }

    /// The service for a kind of storage.
    pub fn get_by_enum(&self, adapter_type: &AdapterType) -> (service: &S)
        ensures
            *service == self.service(*adapter_type),
    {
        match adapter_type {
            AdapterType::AwsS3 => &self.aws_s3_service,
            AdapterType::ChannelManager => &self.channel_manager_service,
            AdapterType::Cdn => &self.cdn_service,
            AdapterType::AwsEfs => &self.aws_efs_service,
        }
    }
}

/// The mock, or the usual service where there is no mock.
pub open spec fn mock_or<S>(mock: Option<S>, usual: S) -> S {
    match mock {
        Some(mock) => mock,
        None => usual,
    }
}

/// The prefix that identifiers of a kind of storage have.
pub open spec fn prefix_of_kind(settings: &Settings, kind: AdapterType) -> Seq<char> {
    match kind {
        AdapterType::AwsS3 => settings.aws_s3_adapter_id_prefix@,
        AdapterType::ChannelManager => settings.channel_manager_adapter_id_prefix@,
        AdapterType::Cdn => settings.cdn_adapter_id_prefix@,
        AdapterType::AwsEfs => settings.aws_efs_adapter_id_prefix@,
    }
}

/// The kinds of storage have different prefixes, none of them empty.
pub open spec fn distinct_prefixes(settings: &Settings) -> bool {
    &&& forall|a: AdapterType, b: AdapterType|
        a != b ==> #[trigger] prefix_of_kind(settings, a) != #[trigger] prefix_of_kind(settings, b)
    &&& forall|a: AdapterType| (#[trigger] prefix_of_kind(settings, a)).len() > 0
}

/// An adapter is of the kind whose prefix its identifier has, and of none where it has no prefix or
/// another; its service is the one for that kind.
pub proof fn law_adapters_are_told_by_their_prefix<S>(
    factory: &StorageServiceFactory<S>,
    settings: &Settings,
    adapter_id: &str,
    found: Option<AdapterType>,
    service: Result<&S, ServiceError>,
    kind: AdapterType,
)
    requires
        distinct_prefixes(settings),
        call_ensures(get_adapter_type_from_id, (settings, adapter_id), found),
        call_ensures(
            StorageServiceFactory::<S>::get_by_id,
            (factory, settings, adapter_id),
            service,
        ),
    ensures
        found == Some(kind) <==> id_prefix_of(adapter_id@) == Some(prefix_of_kind(settings, kind)),
        found == Some(kind) ==> (service matches Ok(service) && *service == (match kind {
            AdapterType::AwsS3 => factory.aws_s3_service,
            AdapterType::ChannelManager => factory.channel_manager_service,
            AdapterType::Cdn => factory.cdn_service,
            AdapterType::AwsEfs => factory.aws_efs_service,
        })),
        found is None ==> (service matches Err(error) && error.deep_view() == general_error(
            "Invalid adapter ID"@,
        )),
{
    assert(prefix_of_kind(settings, AdapterType::AwsS3).len() > 0);
    assert(prefix_of_kind(settings, AdapterType::ChannelManager).len() > 0);
    assert(prefix_of_kind(settings, AdapterType::Cdn).len() > 0);
    assert(prefix_of_kind(settings, AdapterType::AwsEfs).len() > 0);
    assert(prefix_of_kind(settings, kind).len() > 0);
}

/// The one of four that belongs to a kind of storage.
pub open spec fn one_for_kind<T>(kind: AdapterType, s3: T, channel: T, cdn: T, efs: T) -> T {
    match kind {
        AdapterType::AwsS3 => s3,
        AdapterType::ChannelManager => channel,
        AdapterType::Cdn => cdn,
        AdapterType::AwsEfs => efs,
    }
}

/// Each kind of storage has the service that was given for it, and a mock that is given takes the
/// place of that service and of no other.
pub proof fn law_kinds_have_their_services<S>(
    s3: S,
    channel: S,
    cdn: S,
    efs: S,
    factory: StorageServiceFactory<S>,
    kind: &AdapterType,
    service: &S,
    s3_mock: Option<S>,
    channel_mock: Option<S>,
    cdn_mock: Option<S>,
    efs_mock: Option<S>,
    mocked: StorageServiceFactory<S>,
    mocked_service: &S,
)
    requires
        call_ensures(StorageServiceFactory::<S>::new, (s3, channel, cdn, efs), factory),
        call_ensures(StorageServiceFactory::<S>::get_by_enum, (&factory, kind), service),
        call_ensures(
            StorageServiceFactory::<S>::new_from_mocks,
            (factory, s3_mock, channel_mock, cdn_mock, efs_mock),
            mocked,
        ),
        call_ensures(StorageServiceFactory::<S>::get_by_enum, (&mocked, kind), mocked_service),
    ensures
        *service == one_for_kind(*kind, s3, channel, cdn, efs),
        *mocked_service == (match one_for_kind(*kind, s3_mock, channel_mock, cdn_mock, efs_mock) {
            Some(mock) => mock,
            None => *service,
        }),
        factory.aws_s3_service == s3 && factory.channel_manager_service == channel,
        factory.cdn_service == cdn && factory.aws_efs_service == efs,
{
}

/// A prefix stands for the kind of storage that has it in the settings, and for none where no kind
/// has it.
pub proof fn law_prefixes_stand_for_kinds(
    settings: &Settings,
    prefix: &str,
    found: Option<AdapterType>,
    kind: AdapterType,
)
    requires
        distinct_prefixes(settings),
        call_ensures(adapter_type_from_prefix, (settings, prefix), found),
    ensures
        found == Some(kind) <==> prefix@ == prefix_of_kind(settings, kind),
{
    assert(prefix_of_kind(settings, AdapterType::AwsS3).len() > 0);
    assert(prefix_of_kind(settings, AdapterType::ChannelManager).len() > 0);
    assert(prefix_of_kind(settings, AdapterType::Cdn).len() > 0);
    assert(prefix_of_kind(settings, AdapterType::AwsEfs).len() > 0);
}

} // verus!
