//! What the proxy does with each query, and when it reloads its block lists.

use vstd::prelude::*;
use crate::block_list::{blocks, BlockListView, BlockLists};
use crate::dns_message::{
    create_nxdomain, hostname_from_bytes, hostname_of, nxdomain_of, qr_flag, rcode,
    transaction_id, lemma_nxdomain_answer, RCODE_NXDOMAIN,
};
use crate::error::DoTError;
use crate::message::{frame_payload, frameable, framed, is_frame, lemma_frame_round_trip};
use crate::tls_message;

verus! {

/// What to do with a query.
#[derive(Debug)]
pub enum RequestAction {
    /// Send these bytes back to the client; nothing goes upstream.
    Reply(Vec<u8>),
    /// Relay this frame to an upstream resolver.
    Forward(Vec<u8>),
    /// Send nothing.
    Drop,
}

/// What to do with a query, as bytes.
pub enum RequestPlan {
    Reply(Seq<u8>),
    Forward(Seq<u8>),
    Drop,
}

impl View for RequestAction {
    type V = RequestPlan;

    open spec fn view(&self) -> RequestPlan {
        match self {
            RequestAction::Reply(v) => RequestPlan::Reply(v@),
            RequestAction::Forward(v) => RequestPlan::Forward(v@),
            RequestAction::Drop => RequestPlan::Drop,
        }
    }
}

/// The lists that a handler could read, if it could read them.
pub open spec fn readable_lists(lists: Option<&BlockLists>) -> Option<Seq<BlockListView>> {
    match lists {
        Some(l) => Some(l@),
        None => None,
    }
}

/// Whether a query is blocked: its hostname can be read, the lists can be
/// read, and one of them holds it. Where either cannot be read, the query
/// passes.
pub open spec fn blocked_query(m: Seq<u8>, lists: Option<Seq<BlockListView>>) -> bool {
    match (hostname_of(m), lists) {
        (Ok(h), Some(l)) => blocks(l, h),
        _ => false,
    }
}

/// What is done with query `m`: a query that cannot be framed is dropped; a
/// blocked one is answered here with NXDOMAIN; any other is relayed, framed.
pub open spec fn request_plan(m: Seq<u8>, lists: Option<Seq<BlockListView>>) -> RequestPlan {
    if !frameable(m) {
        RequestPlan::Drop
    } else if blocked_query(m, lists) {
        RequestPlan::Reply(nxdomain_of(m))
    } else {
        RequestPlan::Forward(framed(m))
    }
}

/// Decides what to do with the query `msg`. `lists` is `None` where the
/// block lists could not be read without waiting (a reload holds them).
pub fn request_action(msg: &[u8], lists: Option<&BlockLists>) -> (r: RequestAction)
    ensures
        r@ == request_plan(msg@, readable_lists(lists)),
{
    // Framed first, so that the frame is ready whichever way it goes.
    let serialized = match tls_message::serialize(msg) {
        Ok(m) => m,
        Err(_) => return RequestAction::Drop,
    };
    let mut should_block = false;
    match hostname_from_bytes(msg) {
        Ok(hostname) => {
            match lists {
                Some(bl) => {
                    should_block = bl.is_blocked(&hostname);
                },
                None => {},
            }
        },
        Err(_) => {},
    }
    if should_block {
        match create_nxdomain(msg) {
            Ok(r) => RequestAction::Reply(r),
            Err(_) => RequestAction::Drop,
        }
    } else {
        RequestAction::Forward(serialized)
    }
}

/// The reply to send to the client once a relay has ended: the answer's
/// payload as the upstream sent it, or nothing where the relay failed.
pub fn relay_reply(relayed: Result<Vec<u8>, DoTError>) -> (r: Option<Vec<u8>>)
    ensures
        match relayed {
            Ok(p) => r matches Some(v) && v@ == p@,
            Err(_) => r is None,
        },
{
    match relayed {
        Ok(payload) => Some(payload),
        Err(_) => None,
    }
}

/// A query for a blocked name is answered here: the reply carries the
/// query's transaction ID and the NXDOMAIN response code, and nothing is
/// relayed. A query for any other name is relayed as a frame whose payload
/// is exactly the query.
pub proof fn lemma_request_end_to_end(m: Seq<u8>, lists: Seq<BlockListView>)
    requires
        frameable(m),
    ensures
        blocked_query(m, Some(lists)) ==> (request_plan(m, Some(lists)) matches RequestPlan::Reply(a)
            && transaction_id(a) == transaction_id(m) && qr_flag(a) == 1 && rcode(a)
            == RCODE_NXDOMAIN),
        !blocked_query(m, Some(lists)) ==> (request_plan(m, Some(lists)) matches RequestPlan::Forward(
            f,
        ) && is_frame(f) && frame_payload(f) == m),
{
    lemma_frame_round_trip(m);
    if blocked_query(m, Some(lists)) {
        lemma_nxdomain_answer(m);
    }
}

/// Whether a reload is due: more than `interval_minutes` minutes have
/// passed since the last one.
pub fn reload_due(interval_minutes: u64, elapsed_secs: u64) -> (r: bool)
    ensures
        r == (elapsed_secs as int > interval_minutes as int * 60),
{
    (elapsed_secs as u128) > (interval_minutes as u128) * 60
}

/// What the reload task does when it wakes.
#[derive(Debug, Clone, Copy, PartialEq, Eq, Structural)]
pub enum ReloadStep {
    /// Shutdown was asked for: end the task.
    Stop,
    /// Fetch every source again, swap the lists in, and restart the clock.
    Reload,
    /// Sleep until the next wake.
    Sleep,
}

/// Decides the reload task's next step, from whether shutdown was asked for
/// and the seconds since the last reload attempt.
pub fn reload_step(stop_requested: bool, interval_minutes: u64, elapsed_secs: u64) -> (r:
    ReloadStep)
    ensures
        r == (if stop_requested {
            ReloadStep::Stop
        } else if elapsed_secs as int > interval_minutes as int * 60 {
            ReloadStep::Reload
        } else {
            ReloadStep::Sleep
        }),
{
    if stop_requested {
        ReloadStep::Stop
    } else if reload_due(interval_minutes, elapsed_secs) {
        ReloadStep::Reload
    } else {
        ReloadStep::Sleep
    }
}

} // verus!
