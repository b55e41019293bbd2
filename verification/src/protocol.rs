//! The control server's per-request decisions: message-type dispatch, the
//! deploy token gate, manage-action parsing, and how outcomes wrap into
//! the single response each connection gets.

use vstd::prelude::*;
use crate::lifecycle::{spec_error_message, LifecycleError};
use crate::strutil::str_eq;
use crate::tokens::{spec_store_accepts, TokenStore};
use crate::types::{DeployResponse, ManageResponse};

verus! {

/// The closed set of control messages, told apart by `msg_type`.
#[derive(Debug, Clone, Copy, PartialEq, Eq, Structural)]
pub enum MsgKind {
    RegisterToken,
    Deploy,
    Manage,
    /// Anything else: logged and dropped without a response.
    Unknown,
}

/// Reads the `msg_type` discriminator; anything unrecognized is Unknown.
pub fn classify_msg_type(s: &str) -> (r: MsgKind)
    ensures
        r is RegisterToken <==> s@ == "register_token"@,
        r is Deploy <==> s@ == "deploy"@,
        r is Manage <==> s@ == "manage"@,
{
    proof {
        reveal_strlit("register_token");
        reveal_strlit("deploy");
        reveal_strlit("manage");
        // The three discriminators differ in length or first character.
        assert("register_token"@.len() == 14);
        assert("deploy"@.len() == 6);
        assert("manage"@.len() == 6);
        assert("deploy"@[0] == 'd');
        assert("manage"@[0] == 'm');
    }
    if str_eq(s, "register_token") {
        MsgKind::RegisterToken
    } else if str_eq(s, "deploy") {
        MsgKind::Deploy
    } else if str_eq(s, "manage") {
        MsgKind::Manage
    } else {
        MsgKind::Unknown
    }
}

/// A manage request's action.
#[derive(Debug, Clone, Copy, PartialEq, Eq, Structural)]
pub enum ManageAction {
    Start,
    Stop,
    Restart,
    Rollback,
}

/// Parses a manage action; anything else is the unknown-action failure.
pub fn parse_action(s: &str) -> (r: Result<ManageAction, LifecycleError>)
    ensures
        s@ == "start"@ ==> r == Ok::<ManageAction, LifecycleError>(ManageAction::Start),
        s@ == "stop"@ ==> r == Ok::<ManageAction, LifecycleError>(ManageAction::Stop),
        s@ == "restart"@ ==> r == Ok::<ManageAction, LifecycleError>(ManageAction::Restart),
        s@ == "rollback"@ ==> r == Ok::<ManageAction, LifecycleError>(ManageAction::Rollback),
        (s@ != "start"@ && s@ != "stop"@ && s@ != "restart"@ && s@ != "rollback"@) ==> r == Err::<
            ManageAction,
            LifecycleError,
        >(LifecycleError::UnknownAction),
{
    proof {
        reveal_strlit("start");
        reveal_strlit("stop");
        reveal_strlit("restart");
        reveal_strlit("rollback");
        // The four actions all differ in length.
        assert("start"@.len() == 5);
        assert("stop"@.len() == 4);
        assert("restart"@.len() == 7);
        assert("rollback"@.len() == 8);
    }
    if str_eq(s, "start") {
        Ok(ManageAction::Start)
    } else if str_eq(s, "stop") {
        Ok(ManageAction::Stop)
    } else if str_eq(s, "restart") {
        Ok(ManageAction::Restart)
    } else if str_eq(s, "rollback") {
        Ok(ManageAction::Rollback)
    } else {
        Err(LifecycleError::UnknownAction)
    }
}

/// Wraps a lifecycle outcome into the uniform success/message response.
pub fn manage_response(outcome: Result<String, LifecycleError>) -> (r: ManageResponse)
    ensures
        outcome matches Ok(m) ==> r.success && r.message == m,
        outcome matches Err(e) ==> !r.success && r.message@ == spec_error_message(e),
{
    match outcome {
        Ok(m) => ManageResponse { success: true, message: m },
        Err(e) => ManageResponse { success: false, message: e.message() },
    }
}

/// The deploy gate: `None` admits the request; otherwise the exact failure
/// response the daemon sends for a token no enrolled hash accepts.
pub fn deploy_gate(store: &TokenStore, daemon_token: &Option<String>) -> (r: Option<
    DeployResponse,
>)
    ensures
        r is None <==> spec_store_accepts(*store, *daemon_token),
        r matches Some(resp) ==> !resp.success && resp.message@ == "Invalid token"@
            && resp.app_dir is None,
{
    if store.accepts(daemon_token) {
        None
    } else {
        Some(
            DeployResponse {
                success: false,
                message: "Invalid token".to_owned(),
                app_dir: None,
            },
        )
    }
}

/// Wraps a pipeline outcome into the single deploy response: success
/// carries the resolved app directory, failure carries the message.
pub fn deploy_response(outcome: Result<String, String>) -> (r: DeployResponse)
    ensures
        outcome matches Ok(dir) ==> (r.success && r.message@ == "Deployed to "@ + dir@
            && r.app_dir == Some(dir)),
        outcome matches Err(m) ==> !r.success && r.message == m && r.app_dir is None,
{
    match outcome {
        Ok(dir) => {
            let mut message: String = "Deployed to ".to_owned();
            message.append(dir.as_str());
            DeployResponse { success: true, message, app_dir: Some(dir) }
        },
        Err(m) => DeployResponse { success: false, message: m, app_dir: None },
    }
}

} // verus!
