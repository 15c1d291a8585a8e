//! The application's settings, as the configuration sources spell them.

use vstd::prelude::*;

verus! {

/// All settings of the application.
#[derive(Debug)]
pub struct AppConfiguration {
    pub app: AppSettings,
    pub database: DatabaseSettings,
}

#[derive(Debug)]
pub struct AppSettings {
    pub incoming: IncomingSettings,
}

#[derive(Debug)]
pub struct IncomingSettings {
    pub rest: RestSettings,
}

/// The REST adapter listens on `port`.
#[derive(Debug)]
pub struct RestSettings {
    pub port: u16,
}

/// Where the database is and how many connections the pool may open.
#[derive(Debug)]
pub struct DatabaseSettings {
    pub url: String,
    pub max_connections: u16,
}

} // verus!
