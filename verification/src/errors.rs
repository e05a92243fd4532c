//! The errors of the diagnostics and their JSON-RPC form.

use vstd::prelude::*;
use vstd::string::*;
use vstd::std_specs::convert::FromSpecImpl;

use crate::config;
use crate::json::{Json, JsonView};
use crate::protocol;

verus! {

/// Why a diagnostic call was refused or could not run.
#[derive(Debug)]
pub enum NetdiagError {
    /// A caller-supplied parameter is out of range or malformed.
    InvalidParam { name: String, reason: String },
    /// The command is not in the effective allowlist.
    CommandNotAllowed { command: String },
    /// The command could not be run to its end.
    CommandExec { message: String },
    /// The command is privileged and the operator has not opted in to it.
    PrivilegedDisabled { key: String },
}

/// The mathematical model of a [`NetdiagError`].
pub enum NetdiagErrorView {
    InvalidParam { name: Seq<char>, reason: Seq<char> },
    CommandNotAllowed { command: Seq<char> },
    CommandExec { message: Seq<char> },
    PrivilegedDisabled { key: Seq<char> },
}

impl View for NetdiagError {
    type V = NetdiagErrorView;

    open spec fn view(&self) -> NetdiagErrorView {
        match self {
            NetdiagError::InvalidParam { name, reason } => NetdiagErrorView::InvalidParam {
                name: name@,
                reason: reason@,
            },
            NetdiagError::CommandNotAllowed { command } => NetdiagErrorView::CommandNotAllowed {
                command: command@,
            },
            NetdiagError::CommandExec { message } => NetdiagErrorView::CommandExec {
                message: message@,
            },
            NetdiagError::PrivilegedDisabled { key } => NetdiagErrorView::PrivilegedDisabled {
                key: key@,
            },
        }
    }
}

/// The error in a result, if it is one.
pub open spec fn failure<T>(r: Result<T, NetdiagError>) -> Option<NetdiagErrorView> {
    match r {
        Ok(_) => None,
        Err(e) => Some(e@),
    }
}

/// A result by its model.
pub open spec fn outcome<T: View>(r: Result<T, NetdiagError>) -> Result<T::V, NetdiagErrorView> {
    match r {
        Ok(v) => Ok(v@),
        Err(e) => Err(e@),
    }
}

/// `r`, unless there is an error before it.
pub open spec fn guarded<T>(
    error: Option<NetdiagErrorView>,
    r: Result<T, NetdiagErrorView>,
) -> Result<T, NetdiagErrorView> {
    match error {
        Some(e) => Err(e),
        None => r,
    }
}

impl NetdiagErrorView {
    /// The pinned JSON-RPC error code.
    pub open spec fn code(self) -> int {
        match self {
            NetdiagErrorView::InvalidParam { .. } => -32010,
            NetdiagErrorView::CommandNotAllowed { .. } => -32011,
            NetdiagErrorView::CommandExec { .. } => -32012,
            NetdiagErrorView::PrivilegedDisabled { .. } => -32011,
        }
    }

    /// The text for people.
    pub open spec fn message(self) -> Seq<char> {
        match self {
            NetdiagErrorView::InvalidParam { name, reason } => "invalid parameter '"@ + name
                + "': "@ + reason,
            NetdiagErrorView::CommandNotAllowed { command } => "command not allowed: "@ + command,
            NetdiagErrorView::CommandExec { message } => "command execution failed: "@ + message,
            NetdiagErrorView::PrivilegedDisabled { key } => "privileged tool disabled; set "@
                + config::PRIVILEGED_ENABLE_ENV@ + "="@ + key + " or "@
                + config::PRIVILEGED_ENABLE_ENV@ + "="@ + config::PRIVILEGED_ALL_SENTINEL@
                + " to enable"@,
        }
    }

    /// The payload for programs.
    pub open spec fn data(self) -> JsonView {
        match self {
            NetdiagErrorView::InvalidParam { name, reason } => JsonView::object().with(
                "name"@,
                JsonView::Str(name),
            ).with("reason"@, JsonView::Str(reason)),
            NetdiagErrorView::CommandNotAllowed { command } => JsonView::object().with(
                "command"@,
                JsonView::Str(command),
            ),
            NetdiagErrorView::CommandExec { message } => JsonView::object().with(
                "message"@,
                JsonView::Str(message),
            ),
            NetdiagErrorView::PrivilegedDisabled { key } => JsonView::object().with(
                "command"@,
                JsonView::Str(key),
            ).with("privileged"@, JsonView::Bool(true)).with(
                "enable_env"@,
                JsonView::Str(config::PRIVILEGED_ENABLE_ENV@),
            ),
        }
    }

    /// The error on the wire.
    pub open spec fn wire(self) -> protocol::ErrorView {
        protocol::ErrorView {
            code: self.code(),
            message: self.message(),
            data: Some(self.data()),
        }
    }
}

impl NetdiagError {
    /// The pinned JSON-RPC error code.
    pub fn code(&self) -> (c: i32)
        ensures
            c == self@.code(),
    {
        match self {
            NetdiagError::InvalidParam { .. } => -32010,
            NetdiagError::CommandNotAllowed { .. } => -32011,
            NetdiagError::CommandExec { .. } => -32012,
            NetdiagError::PrivilegedDisabled { .. } => -32011,
        }
    }

    /// The text for people.
    pub fn to_string(&self) -> (s: String)
        ensures
            s@ == self@.message(),
    {
        match self {
            NetdiagError::InvalidParam { name, reason } => {
                let head: String = "invalid parameter '".to_owned();
                head.concat(name.as_str()).concat("': ").concat(reason.as_str())
            },
            NetdiagError::CommandNotAllowed { command } => {
                let head: String = "command not allowed: ".to_owned();
                head.concat(command.as_str())
            },
            NetdiagError::CommandExec { message } => {
                let head: String = "command execution failed: ".to_owned();
                head.concat(message.as_str())
            },
            NetdiagError::PrivilegedDisabled { key } => {
                let head: String = "privileged tool disabled; set ".to_owned();
                head.concat(config::PRIVILEGED_ENABLE_ENV).concat("=").concat(key.as_str()).concat(
                    " or ",
                ).concat(config::PRIVILEGED_ENABLE_ENV).concat("=").concat(
                    config::PRIVILEGED_ALL_SENTINEL,
                ).concat(" to enable")
            },
        }
    }

    /// The payload for programs.
    pub fn data(&self) -> (d: Json)
        ensures
            d@ == self@.data(),
    {
        match self {
            NetdiagError::InvalidParam { name, reason } => Json::object().with(
                "name",
                Json::text(name.as_str()),
            ).with("reason", Json::text(reason.as_str())),
            NetdiagError::CommandNotAllowed { command } => Json::object().with(
                "command",
                Json::text(command.as_str()),
            ),
            NetdiagError::CommandExec { message } => Json::object().with(
                "message",
                Json::text(message.as_str()),
            ),
            NetdiagError::PrivilegedDisabled { key } => Json::object().with(
                "command",
                Json::text(key.as_str()),
            ).with("privileged", Json::Bool(true)).with(
                "enable_env",
                Json::text(config::PRIVILEGED_ENABLE_ENV),
            ),
        }
    }
}

impl From<NetdiagError> for protocol::Error {
    fn from(err: NetdiagError) -> (e: protocol::Error)
        ensures
            e@ == err@.wire(),
    {
        protocol::Error::with_data(err.code(), err.to_string().as_str(), err.data())
    }
}

impl FromSpecImpl<NetdiagError> for protocol::Error {
    open spec fn obeys_from_spec() -> bool {
        false
    }

    open spec fn from_spec(err: NetdiagError) -> protocol::Error {
        arbitrary()
    }
}

} // verus!
