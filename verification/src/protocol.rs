//! The Control Protocol: typed actions, their wire names, the
//! request/response shapes exchanged with the enforcement agent, the
//! liveness probe, and the client-side reading of a response.

use vstd::prelude::*;
use vstd::string::*;

use crate::errors::Error;
use crate::text::str_eq;

verus! {

/// The four logical actions of the protocol.
#[derive(Clone, Copy, Debug, PartialEq, Eq, Structural)]
pub enum ActionKind {
    /// Add one hardware address to the enforcement set.
    Admit,
    /// Remove one hardware address from the enforcement set.
    Revoke,
    /// List the enforcement set's members.
    List,
    /// Empty the enforcement set.
    Flush,
}

/// A logical request: an action kind and its target hardware address
/// (empty for List and Flush).
#[derive(Clone, Debug)]
pub struct Action {
    pub kind: ActionKind,
    pub target: String,
}

/// A request as carried on the wire.
#[derive(Clone, Debug)]
pub struct RouterRequest {
    pub action: String,
    pub body: String,
}

/// A response as carried on the wire.
#[derive(Clone, Debug)]
pub struct AgentResponse {
    pub success: bool,
    pub body: String,
}

impl AgentResponse {
    /// A success response with an empty body.
    pub fn success() -> (r: AgentResponse)
        ensures
            r.success,
            r.body@ == Seq::<char>::empty(),
    {
        AgentResponse { success: true, body: String::new() }
    }

    /// A failure response carrying the given diagnostic text.
    pub fn fail(s: &str) -> (r: AgentResponse)
        ensures
            !r.success,
            r.body@ == s@,
    {
        AgentResponse { success: false, body: String::from_str(s) }
    }
}

/// The wire name of each action kind.
pub open spec fn spec_wire_name(kind: ActionKind) -> Seq<char> {
    match kind {
        ActionKind::Admit => "add"@,
        ActionKind::Revoke => "remove"@,
        ActionKind::List => "get"@,
        ActionKind::Flush => "clear"@,
    }
}

/// Renders an action kind as its wire name.
pub fn wire_name(kind: ActionKind) -> (r: &'static str)
    ensures
        r@ == spec_wire_name(kind),
{
    match kind {
        ActionKind::Admit => "add",
        ActionKind::Revoke => "remove",
        ActionKind::List => "get",
        ActionKind::Flush => "clear",
    }
}

/// The action kind a wire name denotes; unknown names denote none.
pub open spec fn spec_action_of_wire(s: Seq<char>) -> Option<ActionKind> {
    if s == "add"@ {
        Some(ActionKind::Admit)
    } else if s == "remove"@ {
        Some(ActionKind::Revoke)
    } else if s == "get"@ {
        Some(ActionKind::List)
    } else if s == "clear"@ {
        Some(ActionKind::Flush)
    } else {
        None
    }
}

/// Parses a wire name into the closed action type; anything unknown is
/// rejected explicitly rather than falling through.
pub fn action_of_wire(s: &str) -> (r: Option<ActionKind>)
    ensures
        r == spec_action_of_wire(s@),
{
    if str_eq(s, "add") {
        Some(ActionKind::Admit)
    } else if str_eq(s, "remove") {
        Some(ActionKind::Revoke)
    } else if str_eq(s, "get") {
        Some(ActionKind::List)
    } else if str_eq(s, "clear") {
        Some(ActionKind::Flush)
    } else {
        None
    }
}

/// Rendering an action kind to the wire and parsing it back returns the
/// same kind: the four wire names are pairwise distinct.
pub proof fn lemma_wire_round_trip(kind: ActionKind)
    ensures
        spec_action_of_wire(spec_wire_name(kind)) == Some(kind),
{
    reveal_strlit("add");
    reveal_strlit("remove");
    reveal_strlit("get");
    reveal_strlit("clear");
    assert("add"@.len() == 3 && "remove"@.len() == 6 && "get"@.len() == 3 && "clear"@.len() == 5);
    assert("get"@ != "add"@) by {
        assert("get"@[0] == 'g' && "add"@[0] == 'a');
    }
}

/// Renders a logical action as a wire request.
pub fn request_of_action(action: &Action) -> (r: RouterRequest)
    ensures
        r.action@ == spec_wire_name(action.kind),
        r.body@ == action.target@,
{
    RouterRequest { action: String::from_str(wire_name(action.kind)), body: action.target.clone() }
}

/// The liveness probe: succeeds with the fixed acknowledgement exactly
/// when the marker is the expected literal.
pub fn ping_response(marker: &str) -> (r: AgentResponse)
    ensures
        r.success == (marker@ == "ping"@),
        marker@ == "ping"@ ==> r.body@ == "PONG !"@,
        marker@ != "ping"@ ==> r.body@ == "PONG ?"@,
{
    if str_eq(marker, "ping") {
        AgentResponse { success: true, body: String::from_str("PONG !") }
    } else {
        AgentResponse { success: false, body: String::from_str("PONG ?") }
    }
}

/// Client-side reading of an agent response: a failed response becomes a
/// transport-level failure carrying the agent's diagnostic text, so that
/// no failed push is ever mistaken for a successful one.
pub fn trace_router_response(res: AgentResponse) -> (r: Result<(), Error>)
    ensures
        res.success <==> r is Ok,
        !res.success ==> (r matches Err(e) && e matches Error::TransportFailure(detail)
            && detail@ == res.body@),
{
    if res.success {
        Ok(())
    } else {
        Err(Error::TransportFailure(res.body))
    }
}

} // verus!
