//! The matching engine: one inbound message in, one action out.
//!
//! The engine owns the registry and decides everything that does not touch
//! a socket. The caller (the dispatch loop) reads one message, hands its
//! bytes to [`Server::handle_message`], performs the returned action —
//! sending the response bytes, or relaying addresses on a match — and, for
//! an accepted host, confirms with [`Server::register_host`] once the code
//! was sent. A host is registered only after that confirmation, so a host
//! is never discoverable before the attempt to tell it its own code.

use vstd::prelude::*;
use crate::code::{spec_valid_code, JoinCode};
use crate::generator::generate_code;
use crate::messages::{
    host_response, illegal_code_response, no_host_response, spec_host_response,
    spec_illegal_code_response, spec_no_host_response, spec_too_short_response,
    too_short_response,
};
use crate::parse::{
    parse_message, spec_is_host_request, spec_is_join_request, spec_join_code_field,
    ParsedMessage, MIN_JOIN_LEN,
};
use crate::registry::Registry;

verus! {

/// What the dispatch loop must do with one inbound message.
pub enum Action<H> {
    /// A host request was accepted: send `response` (the code and a newline)
    /// back to the requester; if the send succeeds, call
    /// [`Server::register_host`] with this code and the requester's handle.
    HostAccepted { code: JoinCode, response: Vec<u8> },
    /// A join request failed (too short, illegal code, or no pending host):
    /// send `response` back to the requester.
    Reject { response: Vec<u8> },
    /// A join request matched: `host` is the pending host's handle, already
    /// removed from the registry. Relay the two addresses: tell the host the
    /// requester's, and — only if that send succeeds — the requester the
    /// host's.
    MatchFound { host: H },
    /// Nothing to send: the message was unrecognized, or (for a host
    /// request) every valid code was already taken.
    NoResponse,
}

/// The rendezvous server's state: the registry of pending hosts. `H` is the
/// peer endpoint handle type the transport uses to reach a peer.
pub struct Server<H> {
    pub registry: Registry<H>,
}

impl<H> View for Server<H> {
    type V = Map<Seq<u8>, H>;

    open spec fn view(&self) -> Map<Seq<u8>, H> {
        self.registry@
    }
}

impl<H> Server<H> {
    /// The registry's invariant holds.
    pub open spec fn wf(&self) -> bool {
        self.registry.wf()
    }

    /// A server with no pending hosts.
    pub fn new() -> (s: Server<H>)
        ensures
            s.wf(),
            s@ == Map::<Seq<u8>, H>::empty(),
    {
        Server { registry: Registry::new() }
    }

    /// Classify one inbound message and decide the action.
    ///
    /// A host request leaves the registry untouched here (registration
    /// waits for [`Server::register_host`]) and yields a fresh code with its
    /// response, or no response in the one case where every valid code is
    /// taken. A join request too short, with an illegal code, or with no
    /// pending host is rejected with the exact protocol text and leaves the
    /// registry untouched. A join request that matches removes the entry —
    /// the code is consumed and cannot match twice. Anything else is
    /// dropped.
    pub fn handle_message(&mut self, msg: &Vec<u8>) -> (action: Action<H>)
        requires
            old(self).wf(),
        ensures
            final(self).wf(),
            spec_is_host_request(msg@) ==> {
                &&& final(self)@ == old(self)@
                &&& match action {
                    Action::HostAccepted { code, response } => {
                        &&& code.wf()
                        &&& !old(self)@.contains_key(code@)
                        &&& response@ == spec_host_response(code@)
                    },
                    Action::NoResponse => forall|c: Seq<u8>|
                        spec_valid_code(c) ==> old(self)@.contains_key(c),
                    _ => false,
                }
            },
            spec_is_join_request(msg@) && msg@.len() < MIN_JOIN_LEN ==> {
                &&& final(self)@ == old(self)@
                &&& action matches Action::Reject { response }
                &&& response@ == spec_too_short_response()
            },
            spec_is_join_request(msg@) && msg@.len() >= MIN_JOIN_LEN && !spec_valid_code(
                spec_join_code_field(msg@),
            ) ==> {
                &&& final(self)@ == old(self)@
                &&& action matches Action::Reject { response }
                &&& response@ == spec_illegal_code_response()
            },
            spec_is_join_request(msg@) && msg@.len() >= MIN_JOIN_LEN && spec_valid_code(
                spec_join_code_field(msg@),
            ) && !old(self)@.contains_key(spec_join_code_field(msg@)) ==> {
                &&& final(self)@ == old(self)@
                &&& action matches Action::Reject { response }
                &&& response@ == spec_no_host_response()
            },
            spec_is_join_request(msg@) && msg@.len() >= MIN_JOIN_LEN && spec_valid_code(
                spec_join_code_field(msg@),
            ) && old(self)@.contains_key(spec_join_code_field(msg@)) ==> {
                &&& final(self)@ == old(self)@.remove(spec_join_code_field(msg@))
                &&& action matches Action::MatchFound { host }
                &&& host == old(self)@[spec_join_code_field(msg@)]
            },
            !spec_is_host_request(msg@) && !spec_is_join_request(msg@) ==> {
                &&& final(self)@ == old(self)@
                &&& action matches Action::NoResponse
            },
    {
        match parse_message(msg) {
            ParsedMessage::HostRequest => {
                match generate_code(&self.registry) {
                    Some(code) => {
                        let response = host_response(&code);
                        Action::HostAccepted { code, response }
                    },
                    None => Action::NoResponse,
                }
            },
            ParsedMessage::JoinTooShort => Action::Reject { response: too_short_response() },
            ParsedMessage::JoinIllegalCode => Action::Reject {
                response: illegal_code_response(),
            },
            ParsedMessage::JoinRequest { code } => {
                match self.registry.remove(&code) {
                    Some(host) => Action::MatchFound { host },
                    None => Action::Reject { response: no_host_response() },
                }
            },
            ParsedMessage::Unrecognized => Action::NoResponse,
        }
    }

    /// Record an accepted host. Called once the host's code was sent to it
    /// successfully; a host whose send failed is never registered.
    pub fn register_host(&mut self, code: JoinCode, handle: H)
        requires
            old(self).wf(),
            code.wf(),
            !old(self)@.contains_key(code@),
        ensures
            final(self).wf(),
            final(self)@ == old(self)@.insert(code@, handle),
    {
        self.registry.insert(code, handle);
    }
}

} // verus!
