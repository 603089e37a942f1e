//! The command line: its commands, which request each one sends to the
//! service, and the text printed for the service's answer.

use vstd::prelude::*;

use crate::ipc::{Request, Response};
use crate::text::{decimal, push_decimal};

verus! {

/// The parsed command line.
#[derive(Debug, Clone)]
pub struct Cli {
    pub command: Command,
}

/// The tool's subcommands.
#[derive(Debug, Clone)]
pub enum Command {
    /// Run the service; optionally enable XDR brightness at start, with the
    /// initial brightness level (0-100).
    Serve { auto_enable: bool, brightness: u8 },
    Enable,
    Disable,
    Toggle,
    Status,
    /// Set the brightness level (0-100).
    SetBrightness { value: u8 },
    PrintLaunchd { program_path: Option<String> },
    InstallLaunchd { program_path: Option<String> },
    UninstallLaunchd,
}

/// The request that a command sends to the running service, if it sends one.
pub open spec fn command_request(command: Command) -> Option<Request> {
    match command {
        Command::Enable => Some(Request::Enable),
        Command::Disable => Some(Request::Disable),
        Command::Toggle => Some(Request::Toggle),
        Command::Status => Some(Request::Status),
        Command::SetBrightness { value } => Some(Request::SetBrightness { value }),
        _ => None,
    }
}

impl Command {
    /// The request this command sends to the service; `None` for the
    /// commands that do not talk to the service.
    pub fn request(&self) -> (request: Option<Request>)
        ensures
            request == command_request(*self),
    {
        match self {
            Command::Enable => Some(Request::Enable),
            Command::Disable => Some(Request::Disable),
            Command::Toggle => Some(Request::Toggle),
            Command::Status => Some(Request::Status),
            Command::SetBrightness { value } => Some(Request::SetBrightness { value: *value }),
            _ => None,
        }
    }
}

/// `true` or `false`, as Rust prints a `bool`.
pub open spec fn bool_text(b: bool) -> Seq<char> {
    if b {
        seq!['t', 'r', 'u', 'e']
    } else {
        seq!['f', 'a', 'l', 's', 'e']
    }
}

/// What the tool prints for a response: the message on its own line, and,
/// when the response asks for it, one line each for the enabled flag, the
/// brightness and the backend.
pub open spec fn response_text(r: Response) -> Seq<char> {
    r.message@ + seq!['\n'] + if r.show_state {
        "Enabled: "@ + bool_text(r.enabled) + seq!['\n'] + "Brightness: "@ + decimal(
            r.brightness as nat,
        ) + seq!['\n'] + "Backend: "@ + r.backend@ + seq!['\n']
    } else {
        Seq::empty()
    }
}

/// The text the tool prints for the service's answer.
pub fn render_response(response: &Response) -> (text: String)
    ensures
        text@ == response_text(*response),
{
    let mut text = response.message.clone();
    text.push('\n');
    if response.show_state {
        text.append("Enabled: ");
        if response.enabled {
            text.append("true");
            proof { reveal_strlit("true"); }
        } else {
            text.append("false");
            proof { reveal_strlit("false"); }
        }
        text.push('\n');
        text.append("Brightness: ");
        push_decimal(&mut text, response.brightness as u64);
        text.push('\n');
        text.append("Backend: ");
        text.append(response.backend.as_str());
        text.push('\n');
    }
    text
}


/// Only the five client commands talk to the service, each with its own
/// request (`set N` asks for brightness `N`); running the service and the
/// launchd helpers send nothing, whatever their flags.
pub proof fn lemma_only_client_commands_send(command: Command)
    ensures
        command_request(command) is Some <==> (command is Enable || command is Disable
            || command is Toggle || command is Status || command is SetBrightness),
        command is Enable ==> command_request(command) == Some(Request::Enable),
        command is Disable ==> command_request(command) == Some(Request::Disable),
        command is Toggle ==> command_request(command) == Some(Request::Toggle),
        command is Status ==> command_request(command) == Some(Request::Status),
        command matches Command::SetBrightness { value } ==> command_request(command) == Some(
            Request::SetBrightness { value },
        ),
        (command is Serve || command is PrintLaunchd || command is InstallLaunchd
            || command is UninstallLaunchd) ==> command_request(command) is None,
{
}

} // verus!
