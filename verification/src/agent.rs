//! The enforcement agent's server side: dispatching a Control Protocol
//! request onto the enforcement backend.
//!
//! The agent alternates decisions with tool runs, so dispatching is a
//! two-step state machine: [`server_handler`] turns a request into either
//! an immediate response or a command document to run, and
//! [`server_on_tool_result`] turns the tool's outcome into the next step.
//! The surrounding process runs the tool between the two and never
//! decides anything itself.

use vstd::prelude::*;
use vstd::string::*;

use crate::errors::{spec_error_message, Error};
use crate::mac::{is_mac_valid, spec_mac_valid};
use crate::nft::{
    parse_list_output, spec_element_document, spec_list_document, spec_listing_of, Nftables,
};
use crate::protocol::{spec_action_of_wire, action_of_wire, ActionKind, AgentResponse, RouterRequest};
use crate::text::{join_lines, spec_join_lines};

verus! {

/// What the external filter tool reported back: whether it exited
/// successfully, what it wrote on its standard output, and its
/// diagnostic text otherwise.
pub struct ToolResult {
    pub ok: bool,
    pub output: Vec<u8>,
    pub error: String,
}

/// What to do with the tool's outcome once the pending command ran.
#[derive(Clone, Copy, Debug, PartialEq, Eq, Structural)]
pub enum PendingReply {
    /// Acknowledge a mutation: success with an empty body.
    Ack,
    /// Answer a listing: the elements joined with newlines.
    ListBody,
    /// Continue a flush: delete the elements the listing returned.
    DeleteListed,
}

/// One step of the agent: either respond now, or run the tool with the
/// given command document and come back with the result.
pub enum AgentStep {
    Respond(AgentResponse),
    RunTool { document: String, then: PendingReply },
}

/// Dispatches one request. Unknown actions are refused with a failure
/// response, never a protocol error. A hardware address arriving from
/// the remote caller is validated here, before any command document is
/// built: a malformed one is rejected and no tool run is planned.
pub fn server_handler(req: &RouterRequest, nft: &Nftables) -> (r: AgentStep)
    ensures
        ({
            let act = spec_action_of_wire(req.action@);
            let plain = nft.spec_names_plain();
            &&& act is None ==> (r matches AgentStep::Respond(resp) && !resp.success
                && resp.body@ == "unknown method"@)
            &&& (act == Some(ActionKind::Admit) || act == Some(ActionKind::Revoke))
                && !spec_mac_valid(req.body@) ==> (r matches AgentStep::Respond(resp)
                && !resp.success && resp.body@ == "unable to parse mac address"@)
            &&& act == Some(ActionKind::Admit) && spec_mac_valid(req.body@) && plain ==> (
            r matches AgentStep::RunTool { document, then } && document@
                == spec_element_document("add"@, nft.table@, nft.set@, seq![req.body@])
                && then == PendingReply::Ack)
            &&& act == Some(ActionKind::Revoke) && spec_mac_valid(req.body@) && plain ==> (
            r matches AgentStep::RunTool { document, then } && document@
                == spec_element_document("delete"@, nft.table@, nft.set@, seq![req.body@])
                && then == PendingReply::Ack)
            &&& act == Some(ActionKind::List) && plain ==> (r matches AgentStep::RunTool {
                document,
                then,
            } && document@ == spec_list_document(nft.table@, nft.set@) && then
                == PendingReply::ListBody)
            &&& act == Some(ActionKind::Flush) && plain ==> (r matches AgentStep::RunTool {
                document,
                then,
            } && document@ == spec_list_document(nft.table@, nft.set@) && then
                == PendingReply::DeleteListed)
            &&& act is Some && !plain ==> (r matches AgentStep::Respond(resp) ==> !resp.success)
            &&& !spec_mac_valid(req.body@) && (act == Some(ActionKind::Admit) || act == Some(
                ActionKind::Revoke,
            )) ==> r !is RunTool
        }),
{
    match action_of_wire(req.action.as_str()) {
        None => AgentStep::Respond(AgentResponse::fail("unknown method")),
        Some(ActionKind::Admit) => {
            if !is_mac_valid(req.body.as_str()) {
                return AgentStep::Respond(AgentResponse::fail("unable to parse mac address"));
            }
            let mut items: Vec<String> = Vec::new();
            items.push(req.body.clone());
            proof {
                assert(items.deep_view() =~= seq![req.body@]);
            }
            match nft.add_items_in_set(&items) {
                Ok(doc) => AgentStep::RunTool { document: doc, then: PendingReply::Ack },
                Err(e) => AgentStep::Respond(
                    AgentResponse { success: false, body: e.message() },
                ),
            }
        },
        Some(ActionKind::Revoke) => {
            if !is_mac_valid(req.body.as_str()) {
                return AgentStep::Respond(AgentResponse::fail("unable to parse mac address"));
            }
            let mut items: Vec<String> = Vec::new();
            items.push(req.body.clone());
            proof {
                assert(items.deep_view() =~= seq![req.body@]);
            }
            match nft.delete_items_in_set(&items) {
                Ok(doc) => AgentStep::RunTool { document: doc, then: PendingReply::Ack },
                Err(e) => AgentStep::Respond(
                    AgentResponse { success: false, body: e.message() },
                ),
            }
        },
        Some(ActionKind::List) => {
            match nft.list_command() {
                Ok(doc) => AgentStep::RunTool { document: doc, then: PendingReply::ListBody },
                Err(e) => AgentStep::Respond(
                    AgentResponse { success: false, body: e.message() },
                ),
            }
        },
        Some(ActionKind::Flush) => {
            match nft.list_command() {
                Ok(doc) => AgentStep::RunTool {
                    document: doc,
                    then: PendingReply::DeleteListed,
                },
                Err(e) => AgentStep::Respond(
                    AgentResponse { success: false, body: e.message() },
                ),
            }
        },
    }
}

/// Answers a successful listing: the elements joined with newlines.
pub fn list_reply(items: &Vec<String>) -> (r: AgentResponse)
    ensures
        r.success,
        r.body@ == spec_join_lines(items.deep_view()),
{
    AgentResponse { success: true, body: join_lines(items) }
}

/// Continues a flush once the listing arrived: the command that deletes
/// every listed element, or a failure response when a listed element
/// fails validation or the configured names cannot be embedded.
pub fn flush_followup(nft: &Nftables, items: &Vec<String>) -> (r: AgentStep)
    ensures
        nft.spec_names_plain() && (forall|i: int|
            0 <= i < items@.len() ==> spec_mac_valid(#[trigger] items.deep_view()[i])) ==> (
        r matches AgentStep::RunTool { document, then } && document@ == spec_element_document(
            "delete"@,
            nft.table@,
            nft.set@,
            items.deep_view(),
        ) && then == PendingReply::Ack),
        !(nft.spec_names_plain() && (forall|i: int|
            0 <= i < items@.len() ==> spec_mac_valid(#[trigger] items.deep_view()[i]))) ==> (
        r matches AgentStep::Respond(resp) && !resp.success),
{
    match nft.flush_set(items) {
        Ok(doc) => AgentStep::RunTool { document: doc, then: PendingReply::Ack },
        Err(e) => AgentStep::Respond(AgentResponse { success: false, body: e.message() }),
    }
}

/// Consumes the tool's outcome for the pending command. A non-zero exit
/// becomes a failure response carrying the tool's diagnostic text; a
/// successful mutation is acknowledged; a successful listing is either
/// answered ([`list_reply`]) or, for a flush, followed by the deletion
/// of exactly the listed elements ([`flush_followup`]); listing output
/// that yields no element list fails closed either way.
pub fn server_on_tool_result(pending: PendingReply, nft: &Nftables, result: ToolResult) -> (r:
    AgentStep)
    ensures
        !result.ok ==> (r matches AgentStep::Respond(resp) && !resp.success && resp.body@
            == spec_error_message(Error::EnforcementToolFailure(result.error))),
        result.ok && pending == PendingReply::Ack ==> (r matches AgentStep::Respond(resp)
            && resp.success && resp.body@ == Seq::<char>::empty()),
        result.ok && pending == PendingReply::ListBody ==> (match spec_listing_of(
            result.output@,
        ) {
            Some(items) => r matches AgentStep::Respond(resp) && resp.success && resp.body@
                == spec_join_lines(items),
            None => r matches AgentStep::Respond(resp) && !resp.success,
        }),
        result.ok && pending == PendingReply::DeleteListed ==> (match spec_listing_of(
            result.output@,
        ) {
            Some(items) => {
                if nft.spec_names_plain() && (forall|i: int|
                    0 <= i < items.len() ==> spec_mac_valid(#[trigger] items[i])) {
                    r matches AgentStep::RunTool { document, then } && document@
                        == spec_element_document("delete"@, nft.table@, nft.set@, items) && then
                        == PendingReply::Ack
                } else {
                    r matches AgentStep::Respond(resp) && !resp.success
                }
            },
            None => r matches AgentStep::Respond(resp) && !resp.success,
        }),
{
    if !result.ok {
        let e = Error::EnforcementToolFailure(result.error);
        return AgentStep::Respond(AgentResponse { success: false, body: e.message() });
    }
    match pending {
        PendingReply::Ack => AgentStep::Respond(AgentResponse::success()),
        PendingReply::ListBody => {
            match parse_list_output(result.output.as_slice()) {
                Ok(items) => AgentStep::Respond(list_reply(&items)),
                Err(e) => AgentStep::Respond(
                    AgentResponse { success: false, body: e.message() },
                ),
            }
        },
        PendingReply::DeleteListed => {
            match parse_list_output(result.output.as_slice()) {
                Ok(items) => {
                    let step = flush_followup(nft, &items);
                    proof {
                        let dv = items.deep_view();
                        let ls = spec_listing_of(result.output@)->0;
                        assert(ls == dv);
                        if forall|i: int| 0 <= i < ls.len() ==> spec_mac_valid(
                            #[trigger] ls[i],
                        ) {
                            assert forall|i: int|
                                0 <= i < dv.len() implies spec_mac_valid(#[trigger] dv[i]) by {
                                assert(dv[i] == ls[i]);
                            }
                        }
                        if forall|i: int| 0 <= i < dv.len() ==> spec_mac_valid(
                            #[trigger] dv[i],
                        ) {
                            assert forall|i: int|
                                0 <= i < ls.len() implies spec_mac_valid(#[trigger] ls[i]) by {
                                assert(ls[i] == dv[i]);
                            }
                        }
                    }
                    step
                },
                Err(e) => AgentStep::Respond(
                    AgentResponse { success: false, body: e.message() },
                ),
            }
        },
    }
}

/// The agent's test mode: validates and answers exactly as the real
/// handler decides, but plans no tool run.
pub fn server_handler_test(req: &RouterRequest) -> (r: AgentResponse)
    ensures
        ({
            let act = spec_action_of_wire(req.action@);
            &&& act is None ==> !r.success && r.body@ == "unknown method"@
            &&& (act == Some(ActionKind::Admit) || act == Some(ActionKind::Revoke)) ==> {
                &&& r.success == spec_mac_valid(req.body@)
                &&& !spec_mac_valid(req.body@) ==> r.body@ == "unable to parse mac address"@
                &&& spec_mac_valid(req.body@) ==> r.body@ == Seq::<char>::empty()
            }
            &&& (act == Some(ActionKind::List) || act == Some(ActionKind::Flush)) ==> r.success
                && r.body@ == Seq::<char>::empty()
        }),
{
    match action_of_wire(req.action.as_str()) {
        None => AgentResponse::fail("unknown method"),
        Some(ActionKind::Admit) | Some(ActionKind::Revoke) => {
            if !is_mac_valid(req.body.as_str()) {
                AgentResponse::fail("unable to parse mac address")
            } else {
                AgentResponse::success()
            }
        },
        Some(ActionKind::List) | Some(ActionKind::Flush) => AgentResponse::success(),
    }
}

} // verus!
