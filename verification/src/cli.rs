//! The arguments of the program, and what follows from them.

use vstd::prelude::*;
use crate::config::{token_text, Config};
use crate::error::AppError;

verus! {

/// The arguments of the program.
#[derive(Clone, Debug, PartialEq, Eq)]
pub struct Cli {
    /// The token to use; the stored one is used where none is given.
    pub auth: Option<String>,
    /// Where the configuration is stored, if not at its usual place.
    pub config: Option<String>,
    /// Whether the stored token is to be cleared.
    pub clear_token: bool,
    /// Where the remux tool stands, if not on the search path.
    pub ffmpeg_path: Option<String>,
    /// Whether the given token is to be stored.
    pub save_token: bool,
    /// Whether every question is answered with yes.
    pub yes: bool,
    /// What to download.
    pub command: Option<Commands>,
}

/// What to download.
#[derive(Clone, Debug, PartialEq, Eq)]
pub enum Commands {
    /// One track, by the address of its page.
    Track { output: Option<String>, url: String },
    /// The liked tracks of a user.
    Likes { output: Option<String>, skip: usize, limit: u32, chunk_size: u32, user: Option<String> },
    /// A playlist, by the address of its page.
    Playlist { output: Option<String>, url: String },
}

/// What to do about the remux tool.
#[derive(Clone, Copy, Debug, PartialEq, Eq)]
pub enum ToolPlan {
    /// It is at hand: use it.
    Use,
    /// It is missing, and every question is answered with yes: install it.
    Install,
    /// It is missing: ask whether to install it.
    Ask,
}

/// What is to be written to the stored configuration.
#[derive(Clone, Copy, Debug, PartialEq, Eq)]
pub struct ConfigWrites {
    /// The configuration with its new token is to be written.
    pub save: bool,
    /// An empty configuration is to be written, after the other write.
    pub clear: bool,
}

impl ConfigWrites {
    /// Whether anything is to be written.
    pub fn any(&self) -> (r: bool)
        ensures
            r == (self.save || self.clear),
    {
        self.save || self.clear
    }
}

impl Commands {
    /// The directory that the command names for its files.
    pub open spec fn output(self) -> Option<String> {
        match self {
            Commands::Track { output, .. } => output,
            Commands::Likes { output, .. } => output,
            Commands::Playlist { output, .. } => output,
        }
    }

    /// The directory that the command names for its files.
    pub fn output_dir(&self) -> (r: Option<&String>)
        ensures
            r == match self.output() {
                Some(dir) => Some(&dir),
                None => None,
            },
    {
        match self {
            Commands::Track { output, .. } => output.as_ref(),
            Commands::Likes { output, .. } => output.as_ref(),
            Commands::Playlist { output, .. } => output.as_ref(),
        }
    }
}

/// The text of the error where no token is at hand.
pub open spec fn token_required_text() -> Seq<char> {
    "OAuth token is required to run this program. Exiting."@
}

/// The text of the error where the remux tool is missing and is not to be
/// installed.
pub open spec fn ffmpeg_required_text() -> Seq<char> {
    "FFmpeg is required to run this program. Exiting."@
}

impl Cli {
    /// The token to use: the one given, else the stored one.
    pub open spec fn auth_token(self, config: Config) -> Option<Seq<char>> {
        match self.auth {
            Some(token) => Some(token@),
            None => config.token(),
        }
    }

    /// The token to use: the one given, else the stored one. Where there is
    /// neither, the configuration is at fault.
    pub fn resolve_auth_token(&self, config: &Config) -> (r: Result<String, AppError>)
        ensures
            match self.auth_token(*config) {
                Some(token) => r matches Ok(t) && t@ == token,
                None => r matches Err(AppError::Configuration(m)) && m@ == token_required_text(),
            },
    {
        let found = match &self.auth {
            Some(token) => Some(token.clone()),
            None => match config.get_oauth_token() {
                Ok(stored) => stored,
                Err(_) => None,
            },
        };
        match found {
            Some(token) => Ok(token),
            None => Err(
                AppError::Configuration(
                    "OAuth token is required to run this program. Exiting.".to_owned(),
                ),
            ),
        }
    }

    /// The directory that the command names for its files, if there is a
    /// command and it names one.
    pub fn resolve_output_dir(&self) -> (r: Option<String>)
        ensures
            token_text(r) == match self.command {
                Some(command) => token_text(command.output()),
                None => None,
            },
    {
        match &self.command {
            Some(command) => match command.output_dir() {
                Some(dir) => Some(dir.clone()),
                None => None,
            },
            None => None,
        }
    }

    /// What to do about the remux tool, which was `found` or not.
    pub fn resolve_ffmpeg_path(&self, found: bool) -> (plan: ToolPlan)
        ensures
            plan == if found {
                ToolPlan::Use
            } else if self.yes {
                ToolPlan::Install
            } else {
                ToolPlan::Ask
            },
    {
        if found {
            ToolPlan::Use
        } else if self.yes {
            ToolPlan::Install
        } else {
            ToolPlan::Ask
        }
    }

    /// What follows from the answer to the question whether to install the
    /// remux tool: to install it, or to end, for the program cannot run
    /// without it.
    pub fn on_answer(agreed: bool) -> (r: Result<ToolPlan, AppError>)
        ensures
            if agreed {
                r == Ok::<ToolPlan, AppError>(ToolPlan::Install)
            } else {
                r matches Err(AppError::FFmpeg(m)) && m@ == ffmpeg_required_text()
            },
    {
        if agreed {
            Ok(ToolPlan::Install)
        } else {
            Err(AppError::FFmpeg("FFmpeg is required to run this program. Exiting.".to_owned()))
        }
    }

    /// Whether the given token is to be stored.
    pub open spec fn saves(self) -> bool {
        self.auth is Some && self.save_token
    }

    /// Takes the arguments that concern the stored configuration into
    /// `config`, and says what is to be written: a given token that is to be
    /// stored becomes the token of `config`, and clearing is left to the
    /// write.
    pub fn config_init(&self, config: &mut Config) -> (writes: ConfigWrites)
        ensures
            writes.save == self.saves(),
            writes.clear == self.clear_token,
            final(config).path() == old(config).path(),
            final(config).token() == if self.saves() {
                Some(self.auth->0@)
            } else {
                old(config).token()
            },
    {
        let mut save = false;
        if let Some(auth) = &self.auth {
            if self.save_token {
                config.save_oauth_token(auth.as_str());
                save = true;
            }
        }
        ConfigWrites { save, clear: self.clear_token }
    }
}

} // verus!
