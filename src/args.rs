//! The options a session is started with.

use vstd::prelude::*;
use vstd::string::*;

use crate::text::{decimal, decimal_string};

verus! {

/// The options of a session.
#[derive(Debug)]
pub struct Args {
    /// Bearer token or API key.
    pub token: String,
    /// Host name of the service.
    pub host: String,
    /// Path of the endpoint on the host.
    pub path: String,
    /// Port of the service.
    pub port: u16,
    /// Whether to trace diagnostics.
    pub verbose: bool,
    /// A file to read one command from.
    pub file: Option<String>,
    /// One command given directly.
    pub command: Option<String>,
}

/// How a session takes its input.
#[derive(Clone, Copy, Debug, PartialEq, Eq, Structural)]
pub enum Launch {
    /// The command given directly.
    Command,
    /// The command read from a file.
    File,
    /// The command read whole from piped standard input.
    Stdin,
    /// The interactive shell.
    Shell,
}

/// Why a session cannot start.
#[derive(Clone, Copy, Debug, PartialEq, Eq, Structural)]
pub enum LaunchError {
    /// A command was given while standard input is piped.
    CommandWithPipe,
    /// A file was given while standard input is piped.
    FileWithPipe,
}

impl LaunchError {
    /// The message that describes this error.
    pub fn message(&self) -> (r: &'static str)
        ensures
            r@ == match *self {
                LaunchError::CommandWithPipe => "❌ Cannot pipe to stdin and pass a command at the same time"@,
                LaunchError::FileWithPipe => "❌ Cannot pipe to stdin and pass a file at the same time"@,
            },
    {
        match self {
            LaunchError::CommandWithPipe => "❌ Cannot pipe to stdin and pass a command at the same time",
            LaunchError::FileWithPipe => "❌ Cannot pipe to stdin and pass a file at the same time",
        }
    }
}

/// The input of a session: a command given directly comes first, then a
/// file, then piped input; with none of them, the shell. A command or a file
/// cannot be combined with piped input.
pub fn launch(has_command: bool, has_file: bool, stdin_is_terminal: bool) -> (r: Result<
    Launch,
    LaunchError,
>)
    ensures
        r == (if has_command {
            if stdin_is_terminal {
                Ok(Launch::Command)
            } else {
                Err(LaunchError::CommandWithPipe)
            }
        } else if has_file {
            if stdin_is_terminal {
                Ok(Launch::File)
            } else {
                Err(LaunchError::FileWithPipe)
            }
        } else if !stdin_is_terminal {
            Ok(Launch::Stdin)
        } else {
            Ok(Launch::Shell)
        }),
{
    if has_command {
        if stdin_is_terminal {
            Ok(Launch::Command)
        } else {
            Err(LaunchError::CommandWithPipe)
        }
    } else if has_file {
        if stdin_is_terminal {
            Ok(Launch::File)
        } else {
            Err(LaunchError::FileWithPipe)
        }
    } else if !stdin_is_terminal {
        Ok(Launch::Stdin)
    } else {
        Ok(Launch::Shell)
    }
}

impl Args {
    /// The endpoint of one-shot runs: `https://<host>/<path>`.
    pub fn api_url(&self) -> (r: String)
        ensures
            r@ == "https://"@ + self.host@ + "/"@ + self.path@,
    {
        String::from_str("https://").concat(self.host.as_str()).concat("/").concat(
            self.path.as_str(),
        )
    }

    /// The endpoint of the shell: `https://<host>:<port>/<path>`.
    pub fn shell_api_url(&self) -> (r: String)
        ensures
            r@ == "https://"@ + self.host@ + ":"@ + decimal(self.port as nat) + "/"@ + self.path@,
    {
        String::from_str("https://").concat(self.host.as_str()).concat(":").concat(
            decimal_string(self.port as usize).as_str(),
        ).concat("/").concat(self.path.as_str())
    }
}

} // verus!
