//! The operations of the service.

pub mod auth_service;
pub mod laws;
pub mod url_service;

pub use auth_service::{extract_token_from_header, AuthService, LoginTicket};
pub use url_service::{UrlService, UrlServiceView};


use crate::config::Config;
use crate::database::{UrlRepository, UserRepository};
use vstd::prelude::*;

verus! {

/// What every request handler shares: the settings and the two services.
#[derive(Debug)]
pub struct AppState {
    /// The settings of the service.
    pub config: Config,
    /// Short links.
    pub url_service: UrlService,
    /// Accounts.
    pub auth_service: AuthService,
}

impl AppState {
    /// The state of a service over the given tables and settings: no click
    /// is waiting, and both services work with the settings given.
    pub fn new(urls: UrlRepository, users: UserRepository, config: Config) -> (s: Self)
        ensures
            s.config@ == config@,
            s.url_service@ == (UrlServiceView {
                rows: urls@,
                pending: Seq::empty(),
                base_url: config@.base_url,
            }),
            s.auth_service@ == (auth_service::AuthServiceView {
                users: users@,
                jwt_expiration_hours: config@.jwt_expiration_hours,
            }),
    {
        let url_service = UrlService::new(urls, config.clone());
        let auth_service = AuthService::new(users, config.clone());
        AppState { config, url_service, auth_service }
    }

    /// The settings of the service.
    pub fn config(&self) -> (c: &Config)
        ensures
            c@ == self.config@,
    {
        &self.config
    }
}

/// Marks the types that implement operations of the service.
pub trait Service: Send + Sync {

}

} // verus!
