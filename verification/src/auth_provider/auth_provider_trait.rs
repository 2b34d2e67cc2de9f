//! What every identity provider offers.
use vstd::prelude::*;
use crate::error::{forbidden, ServiceError};
use crate::json::Json;

verus! {

/// The operations of identity providers.
pub enum AuthOperation {
    GetOrgUserData,
    GetUserDataWithUserEmails,
    GetUserDataWithUserIds,
    DeleteUserFromOrg,
    UpdateUser,
    InviteUser,
    CancelInvitation,
    CreateUser,
    CreateSignInToken,
    CreateOrganization,
    GetOrganizationPublicMetadata,
    MergeOrganizationPublicMetadata,
}

/// An identity provider. An operation answers with the task that remains to be carried out; one
/// that a provider does not offer is forbidden.
pub trait AuthProviderTrait {
    /// What an accepted operation has left to do.
    type Task;

    /// Whether the provider offers an operation. One that it does not offer fails closed, with any
    /// arguments: it is forbidden, and no task comes of it.
    spec fn offers(operation: AuthOperation) -> bool;

    /// Finds the users of an organization, the invited ones after the others.
    fn get_org_user_data(&self, org_id: String, search_query: Option<String>) -> (task: Result<
        Self::Task,
        ServiceError,
    >)
        ensures
            !Self::offers(AuthOperation::GetOrgUserData) ==> forbidden(task),
        default_ensures
            forbidden(task),
    {
        Err(ServiceError::ForbiddenError)
    }

    /// Finds the users with the given email addresses.
    fn get_user_data_with_user_emails(&self, user_emails: &Vec<String>) -> (task: Result<
        Self::Task,
        ServiceError,
    >)
        ensures
            !Self::offers(AuthOperation::GetUserDataWithUserEmails) ==> forbidden(task),
        default_ensures
            forbidden(task),
    {
        Err(ServiceError::ForbiddenError)
    }

    /// Finds the users with the given identifiers.
    fn get_user_data_with_user_ids(&self, user_ids: &Vec<String>) -> (task: Result<
        Self::Task,
        ServiceError,
    >)
        ensures
            !Self::offers(AuthOperation::GetUserDataWithUserIds) ==> forbidden(task),
        default_ensures
            forbidden(task),
    {
        Err(ServiceError::ForbiddenError)
    }

    /// Takes a user out of an organization.
    fn delete_user_from_org(&self, email: &str, org_id: &str, user_id: &Option<String>) -> (task:
        Result<Self::Task, ServiceError>)
        ensures
            !Self::offers(AuthOperation::DeleteUserFromOrg) ==> forbidden(task),
        default_ensures
            forbidden(task),
    {
        Err(ServiceError::ForbiddenError)
    }

    /// Changes the names of a user.
    fn update_user(
        &self,
        email: &str,
        first_name: &str,
        last_name: &str,
        user_id: &Option<String>,
        username: &str,
    ) -> (task: Result<Self::Task, ServiceError>)
        ensures
            !Self::offers(AuthOperation::UpdateUser) ==> forbidden(task),
        default_ensures
            forbidden(task),
    {
        Err(ServiceError::ForbiddenError)
    }

    /// Invites somebody to an organization.
    fn invite_user(
        &self,
        org_id: &str,
        user_id: &str,
        email: &str,
        default_site_domain: &str,
        is_admin_role: &bool,
    ) -> (task: Result<Self::Task, ServiceError>)
        ensures
            !Self::offers(AuthOperation::InviteUser) ==> forbidden(task),
        default_ensures
            forbidden(task),
    {
        Err(ServiceError::ForbiddenError)
    }

    /// Takes an invitation back.
    fn cancel_invitation(&self, org_id: &str, invitation_id: &str) -> (task: Result<
        Self::Task,
        ServiceError,
    >)
        ensures
            !Self::offers(AuthOperation::CancelInvitation) ==> forbidden(task),
        default_ensures
            forbidden(task),
    {
        Err(ServiceError::ForbiddenError)
    }

    /// Creates a user.
    fn create_user(
        &self,
        email: &str,
        first_name: &str,
        last_name: &str,
        metadata: &Option<Json>,
    ) -> (task: Result<Self::Task, ServiceError>)
        ensures
            !Self::offers(AuthOperation::CreateUser) ==> forbidden(task),
        default_ensures
            forbidden(task),
    {
        Err(ServiceError::ForbiddenError)
    }

    /// Creates a token with which a user can sign in.
    fn create_sign_in_token(&self, user_id: &str, expires_in_seconds: u32) -> (task: Result<
        Self::Task,
        ServiceError,
    >)
        ensures
            !Self::offers(AuthOperation::CreateSignInToken) ==> forbidden(task),
        default_ensures
            forbidden(task),
    {
        Err(ServiceError::ForbiddenError)
    }

    /// Creates an organization.
    fn create_organization(
        &self,
        organization_name: &str,
        admin_user_id: Option<String>,
        metadata: Option<Json>,
        private_metadata: Option<Json>,
    ) -> (task: Result<Self::Task, ServiceError>)
        ensures
            !Self::offers(AuthOperation::CreateOrganization) ==> forbidden(task),
        default_ensures
            forbidden(task),
    {
        Err(ServiceError::ForbiddenError)
    }

    /// Reads the public metadata of an organization.
    fn get_organization_public_metadata(&self, org_id: &str) -> (task: Result<
        Self::Task,
        ServiceError,
    >)
        ensures
            !Self::offers(AuthOperation::GetOrganizationPublicMetadata) ==> forbidden(task),
        default_ensures
            forbidden(task),
    {
        Err(ServiceError::ForbiddenError)
    }

    /// Deep-merges `public_metadata` into the public metadata that an organization has.
    fn merge_organization_public_metadata(&self, org_id: &str, public_metadata: Json) -> (task:
        Result<Self::Task, ServiceError>)
        ensures
            !Self::offers(AuthOperation::MergeOrganizationPublicMetadata) ==> forbidden(task),
        default_ensures
            forbidden(task),
    {
        Err(ServiceError::ForbiddenError)
    }
}

/// Whatever the provider, an operation that it does not offer fails closed: whatever the arguments,
/// it is forbidden.
pub proof fn law_missing_operations_fail_closed<P: AuthProviderTrait>(provider: &P)
    ensures
        forall|
            org_id: String,
            search_query: Option<String>,
            task: Result<P::Task, ServiceError>,
        | #[trigger]
            call_ensures(P::get_org_user_data, (provider, org_id, search_query), task) && !P::offers(
                AuthOperation::GetOrgUserData,
            ) ==> forbidden(task),
        forall|
            user_emails: &Vec<String>,
            task: Result<P::Task, ServiceError>,
        | #[trigger]
            call_ensures(P::get_user_data_with_user_emails, (provider, user_emails), task) && !P::offers(
                AuthOperation::GetUserDataWithUserEmails,
            ) ==> forbidden(task),
        forall|
            user_ids: &Vec<String>,
            task: Result<P::Task, ServiceError>,
        | #[trigger]
            call_ensures(P::get_user_data_with_user_ids, (provider, user_ids), task) && !P::offers(
                AuthOperation::GetUserDataWithUserIds,
            ) ==> forbidden(task),
        forall|
            email: &str,
            org_id: &str,
            user_id: &Option<String>,
            task: Result<P::Task, ServiceError>,
        | #[trigger]
            call_ensures(P::delete_user_from_org, (provider, email, org_id, user_id), task) && !P::offers(
                AuthOperation::DeleteUserFromOrg,
            ) ==> forbidden(task),
        forall|
            email: &str,
            first_name: &str,
            last_name: &str,
            user_id: &Option<String>,
            username: &str,
            task: Result<P::Task, ServiceError>,
        | #[trigger]
            call_ensures(P::update_user, (provider, email, first_name, last_name, user_id, username), task) && !P::offers(
                AuthOperation::UpdateUser,
            ) ==> forbidden(task),
        forall|
            org_id: &str,
            user_id: &str,
            email: &str,
            default_site_domain: &str,
            is_admin_role: &bool,
            task: Result<P::Task, ServiceError>,
        | #[trigger]
            call_ensures(P::invite_user, (provider, org_id, user_id, email, default_site_domain, is_admin_role), task) && !P::offers(
                AuthOperation::InviteUser,
            ) ==> forbidden(task),
        forall|
            org_id: &str,
            invitation_id: &str,
            task: Result<P::Task, ServiceError>,
        | #[trigger]
            call_ensures(P::cancel_invitation, (provider, org_id, invitation_id), task) && !P::offers(
                AuthOperation::CancelInvitation,
            ) ==> forbidden(task),
        forall|
            email: &str,
            first_name: &str,
            last_name: &str,
            metadata: &Option<Json>,
            task: Result<P::Task, ServiceError>,
        | #[trigger]
            call_ensures(P::create_user, (provider, email, first_name, last_name, metadata), task) && !P::offers(
                AuthOperation::CreateUser,
            ) ==> forbidden(task),
        forall|
            user_id: &str,
            expires_in_seconds: u32,
            task: Result<P::Task, ServiceError>,
        | #[trigger]
            call_ensures(P::create_sign_in_token, (provider, user_id, expires_in_seconds), task) && !P::offers(
                AuthOperation::CreateSignInToken,
            ) ==> forbidden(task),
        forall|
            organization_name: &str,
            admin_user_id: Option<String>,
            metadata: Option<Json>,
            private_metadata: Option<Json>,
            task: Result<P::Task, ServiceError>,
        | #[trigger]
            call_ensures(P::create_organization, (provider, organization_name, admin_user_id, metadata, private_metadata), task) && !P::offers(
                AuthOperation::CreateOrganization,
            ) ==> forbidden(task),
        forall|
            org_id: &str,
            task: Result<P::Task, ServiceError>,
        | #[trigger]
            call_ensures(P::get_organization_public_metadata, (provider, org_id), task) && !P::offers(
                AuthOperation::GetOrganizationPublicMetadata,
            ) ==> forbidden(task),
        forall|
            org_id: &str,
            public_metadata: Json,
            task: Result<P::Task, ServiceError>,
        | #[trigger]
            call_ensures(P::merge_organization_public_metadata, (provider, org_id, public_metadata), task) && !P::offers(
                AuthOperation::MergeOrganizationPublicMetadata,
            ) ==> forbidden(task),
{
}

} // verus!
