//! What an error says of what went wrong.

use vstd::prelude::*;

use crate::errors::NetdiagError;
use crate::json::Json;
use crate::protocol;

verus! {

/// Every error has one code: -32010 for a parameter, -32011 for a command that
/// is not allowed or not opted in to, -32012 for one that could not run.
pub proof fn law_error_codes(error: &NetdiagError, code: i32)
    requires
        call_ensures(NetdiagError::code, (error,), code),
    ensures
        error is InvalidParam <==> code == -32010,
        error is CommandNotAllowed || error is PrivilegedDisabled <==> code == -32011,
        error is CommandExec <==> code == -32012,
{
}

/// The message names what was refused, and ends in the reason where there is
/// one; for a privileged command it says how to opt in.
pub proof fn law_error_messages(error: &NetdiagError, message: String)
    requires
        call_ensures(NetdiagError::to_string, (error,), message),
    ensures
        match error {
            NetdiagError::InvalidParam { name, reason } => message@ == "invalid parameter '"@
                + name@ + "': "@ + reason@,
            NetdiagError::CommandNotAllowed { command } => message@ == "command not allowed: "@
                + command@,
            NetdiagError::CommandExec { message: cause } => message@
                == "command execution failed: "@ + cause@,
            NetdiagError::PrivilegedDisabled { key } => message@
                == "privileged tool disabled; set NETDIAG_ENABLE_PRIVILEGED="@ + key@
                + " or NETDIAG_ENABLE_PRIVILEGED=all to enable"@,
        },
{
    match error {
        NetdiagError::PrivilegedDisabled { key } => {
            reveal_strlit("privileged tool disabled; set ");
            reveal_strlit("NETDIAG_ENABLE_PRIVILEGED");
            reveal_strlit("=");
            reveal_strlit(" or ");
            reveal_strlit("all");
            reveal_strlit(" to enable");
            reveal_strlit("privileged tool disabled; set NETDIAG_ENABLE_PRIVILEGED=");
            reveal_strlit(" or NETDIAG_ENABLE_PRIVILEGED=all to enable");
            let head = "privileged tool disabled; set NETDIAG_ENABLE_PRIVILEGED="@;
            let tail = " or NETDIAG_ENABLE_PRIVILEGED=all to enable"@;
            assert("privileged tool disabled; set "@ + "NETDIAG_ENABLE_PRIVILEGED"@ + "="@ =~= head);
            assert(" or "@ + "NETDIAG_ENABLE_PRIVILEGED"@ + "="@ + "all"@ + " to enable"@ =~= tail);
            assert(message@ =~= head + key@ + tail);
        },
        _ => {},
    }
}

/// The data of an error gives each thing that the error knows under its name,
/// and nothing else.
pub proof fn law_error_data(error: &NetdiagError, data: Json)
    requires
        call_ensures(NetdiagError::data, (error,), data),
    ensures
        data@ is Object,
        data@->Object_0.len() == (match error {
            NetdiagError::InvalidParam { .. } => 2nat,
            NetdiagError::CommandNotAllowed { .. } => 1,
            NetdiagError::CommandExec { .. } => 1,
            NetdiagError::PrivilegedDisabled { .. } => 3,
        }),
        match error {
            NetdiagError::InvalidParam { name, reason } => data@.str_at("name"@) == Some(name@)
                && data@.str_at("reason"@) == Some(reason@),
            NetdiagError::CommandNotAllowed { command } => data@.str_at("command"@) == Some(
                command@,
            ),
            NetdiagError::CommandExec { message } => data@.str_at("message"@) == Some(message@),
            NetdiagError::PrivilegedDisabled { key } => {
                &&& data@.str_at("command"@) == Some(key@)
                &&& data@.bool_at("privileged"@) == Some(true)
                &&& data@.str_at("enable_env"@) == Some("NETDIAG_ENABLE_PRIVILEGED"@)
            },
        },
{
    broadcast use crate::json::lemma_get_with;

    reveal_strlit("name");
    reveal_strlit("reason");
    reveal_strlit("command");
    reveal_strlit("message");
    reveal_strlit("privileged");
    reveal_strlit("enable_env");
    assert("name"@.len() == 4 && "reason"@.len() == 6 && "command"@.len() == 7);
    assert("privileged"@[0] == 'p' && "enable_env"@[0] == 'e' && "command"@[0] == 'c');
}

/// On the wire an error has its code, its message and its data.
pub proof fn law_error_on_the_wire(
    error: NetdiagError,
    wire: protocol::Error,
    code: i32,
    message: String,
    data: Json,
)
    requires
        call_ensures(<protocol::Error as From<NetdiagError>>::from, (error,), wire),
        call_ensures(NetdiagError::code, (&error,), code),
        call_ensures(NetdiagError::to_string, (&error,), message),
        call_ensures(NetdiagError::data, (&error,), data),
    ensures
        wire.code == code,
        wire.message@ == message@,
        wire.data is Some && wire.data->0@ == data@,
{
    assert(wire@ == error@.wire());
}

/// An error of the protocol is what it is made of.
pub proof fn law_protocol_errors(
    code: i32,
    message: &str,
    data: Json,
    bare: protocol::Error,
    full: protocol::Error,
)
    requires
        call_ensures(protocol::Error::new, (code, message), bare),
        call_ensures(protocol::Error::with_data, (code, message, data), full),
    ensures
        bare.code == code && bare.message@ == message@ && bare.data is None,
        full.code == code && full.message@ == message@,
        full.data is Some && full.data->0@ == data@,
{
    assert(bare@.data is None);
    assert(full@.data == Some(data@));
}

} // verus!
