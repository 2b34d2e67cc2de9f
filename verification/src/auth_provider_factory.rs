//! Chooses the identity provider.
use vstd::prelude::*;
use crate::storage_service_factory::mock_or;

verus! {

/// The identity providers.
#[derive(Debug, Clone, Copy, PartialEq, Eq, Structural)]
pub enum AuthProviderType {
    Auth0,
    Clerk,
}

/// One service for each identity provider.
#[derive(Debug)]
pub struct AuthProviderFactory<S> {
    pub auth0_service: S,
    pub clerk_service: S,
}

impl<S> AuthProviderFactory<S> {
    /// The service for an identity provider.
    pub open spec fn service(&self, auth_provider_type: AuthProviderType) -> S {
        match auth_provider_type {
            AuthProviderType::Auth0 => self.auth0_service,
            AuthProviderType::Clerk => self.clerk_service,
        }
    }

    /// The factory of the given services.
    pub fn new(auth0_service: S, clerk_service: S) -> (factory: Self)
        ensures
            factory.service(AuthProviderType::Auth0) == auth0_service,
            factory.service(AuthProviderType::Clerk) == clerk_service,
    {
        AuthProviderFactory { auth0_service, clerk_service }
    }

    /// The service for an identity provider.
    pub fn get_by_enum(&self, auth_provider_type: &AuthProviderType) -> (service: &S)
        ensures
            *service == self.service(*auth_provider_type),
    {
        match auth_provider_type {
            AuthProviderType::Auth0 => &self.auth0_service,
            AuthProviderType::Clerk => &self.clerk_service,
        }
    }

    /// The factory in which each mock that is given takes the place of the usual service.
    pub fn new_from_mocks(
        usual: AuthProviderFactory<S>,
        auth0_service: Option<S>,
        clerk_service: Option<S>,
    ) -> (factory: Self)
        ensures
            factory.service(AuthProviderType::Auth0) == mock_or(
                auth0_service,
                usual.service(AuthProviderType::Auth0),
            ),
            factory.service(AuthProviderType::Clerk) == mock_or(
                clerk_service,
                usual.service(AuthProviderType::Clerk),
            ),
    {
        AuthProviderFactory {
            auth0_service: match auth0_service {
                Some(mock) => mock,
                None => usual.auth0_service,
            },
            clerk_service: match clerk_service {
                Some(mock) => mock,
                None => usual.clerk_service,
            },
        }
    }
}

/// Each identity provider has the service that was given for it, and a mock that is given takes the
/// place of that service and of no other.
pub proof fn law_providers_have_their_services<S>(
    auth0: S,
    clerk: S,
    factory: AuthProviderFactory<S>,
    provider: &AuthProviderType,
    service: &S,
    auth0_mock: Option<S>,
    clerk_mock: Option<S>,
    mocked: AuthProviderFactory<S>,
    mocked_service: &S,
)
    requires
        call_ensures(AuthProviderFactory::<S>::new, (auth0, clerk), factory),
        call_ensures(AuthProviderFactory::<S>::get_by_enum, (&factory, provider), service),
        call_ensures(
            AuthProviderFactory::<S>::new_from_mocks,
            (factory, auth0_mock, clerk_mock),
            mocked,
        ),
        call_ensures(AuthProviderFactory::<S>::get_by_enum, (&mocked, provider), mocked_service),
    ensures
        match provider {
            AuthProviderType::Auth0 => *service == auth0 && *mocked_service == (match auth0_mock {
                Some(mock) => mock,
                None => auth0,
            }),
            AuthProviderType::Clerk => *service == clerk && *mocked_service == (match clerk_mock {
                Some(mock) => mock,
                None => clerk,
            }),
        },
        factory.auth0_service == auth0 && factory.clerk_service == clerk,
{
}

} // verus!
