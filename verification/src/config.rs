//! The stored configuration, as a value that is handed on.
//!
//! The caller loads and writes the file; the value holds what the file
//! holds.

use vstd::prelude::*;
use crate::error::AppError;

verus! {

/// The name of the program, after which its configuration is filed.
pub const APP_NAME: &'static str = "soundcloud-dl";

/// The name under which the program's directories are filed.
pub const ORGANIZATION: &'static str = "damaredayo";

/// The configuration and where it is stored.
#[derive(Clone, Debug, PartialEq, Eq)]
pub struct Config {
    config_path: String,
    oauth_token: Option<String>,
}

/// The text of a token, if there is one.
pub open spec fn token_text(token: Option<String>) -> Option<Seq<char>> {
    match token {
        Some(t) => Some(t@),
        None => None,
    }
}

impl Config {
    /// Where the configuration is stored.
    pub closed spec fn path(&self) -> Seq<char> {
        self.config_path@
    }

    /// The stored token.
    pub closed spec fn token(&self) -> Option<Seq<char>> {
        token_text(self.oauth_token)
    }

    /// The configuration that was read at `config_path`, with the token
    /// that it held.
    pub fn load(config_path: String, oauth_token: Option<String>) -> (config: Config)
        ensures
            config.path() == config_path@,
            config.token() == token_text(oauth_token),
    {
        Config { config_path, oauth_token }
    }

    /// Where the configuration is stored.
    pub fn config_path(&self) -> (path: &String)
        ensures
            path@ == self.path(),
    {
        &self.config_path
    }

    /// The stored token, if there is one.
    pub fn get_oauth_token(&self) -> (r: Result<Option<String>, AppError>)
        ensures
            r matches Ok(token) && token_text(token) == self.token(),
    {
        match &self.oauth_token {
            Some(token) => Ok(Some(token.clone())),
            None => Ok(None),
        }
    }

    /// Sets the token that is to be stored.
    pub fn save_oauth_token(&mut self, token: &str)
        ensures
            final(self).token() == Some(token@),
            final(self).path() == old(self).path(),
    {
        self.oauth_token = Some(token.to_owned());
    }
}

} // verus!
