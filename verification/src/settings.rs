//! The server's settings, read from its environment at start-up.

use vstd::prelude::*;

verus! {

/// What the server runs with.
#[derive(Debug)]
pub struct ServerSettings {
    pub database_url: String,
    pub api_key: String,
    /// The address to listen on: every interface, at the configured port.
    pub listen_addr: String,
}

/// Why the server cannot start.
#[derive(Debug, PartialEq, Eq, Structural)]
pub enum SettingsError {
    MissingDatabaseUrl,
    MissingApiKey,
    EmptyApiKey,
}

/// The port used when `PORT` is not set.
pub open spec fn default_port() -> Seq<char> {
    "3000"@
}

/// The message the server stops with.
pub open spec fn settings_error_text(e: SettingsError) -> Seq<char> {
    match e {
        SettingsError::MissingDatabaseUrl => "DATABASE_URL must be set"@,
        SettingsError::MissingApiKey => "API_KEY must be set"@,
        SettingsError::EmptyApiKey => "API_KEY must not be empty"@,
    }
}

impl SettingsError {
    /// The message the server stops with.
    pub fn message(&self) -> (text: String)
        ensures
            text@ == settings_error_text(*self),
    {
        match self {
            SettingsError::MissingDatabaseUrl => String::from_str("DATABASE_URL must be set"),
            SettingsError::MissingApiKey => String::from_str("API_KEY must be set"),
            SettingsError::EmptyApiKey => String::from_str("API_KEY must not be empty"),
        }
    }
}

/// The settings from the values of `DATABASE_URL`, `API_KEY` and `PORT`
/// (each absent when unset): the first two are required, in that order, the
/// key must not be empty, and the port defaults to 3000.
pub fn server_settings(
    database_url: Option<String>,
    api_key: Option<String>,
    port: Option<String>,
) -> (result: Result<ServerSettings, SettingsError>)
    ensures
        database_url is None ==> result == Err::<ServerSettings, _>(SettingsError::MissingDatabaseUrl),
        database_url is Some && api_key is None ==> result == Err::<ServerSettings, _>(SettingsError::MissingApiKey),
        database_url is Some && api_key is Some && api_key->Some_0@.len() == 0
            ==> result == Err::<ServerSettings, _>(SettingsError::EmptyApiKey),
        database_url is Some && api_key is Some && api_key->Some_0@.len() > 0 ==> {
            &&& result is Ok
            &&& result->Ok_0.database_url@ == database_url->Some_0@
            &&& result->Ok_0.api_key@ == api_key->Some_0@
            &&& result->Ok_0.listen_addr@ == "0.0.0.0:"@ + match port {
                Some(p) => p@,
                None => default_port(),
            }
        },
{
    let database_url = match database_url {
        Some(u) => u,
        None => return Err(SettingsError::MissingDatabaseUrl),
    };
    let api_key = match api_key {
        Some(k) => k,
        None => return Err(SettingsError::MissingApiKey),
    };
    let port = match port {
        Some(p) => p,
        None => String::from_str("3000"),
    };
    if api_key.as_str().unicode_len() == 0 {
        return Err(SettingsError::EmptyApiKey);
    }
    let listen_addr = String::from_str("0.0.0.0:").concat(port.as_str());
    Ok(ServerSettings { database_url, api_key, listen_addr })
}

} // verus!
