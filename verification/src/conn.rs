//! Per-connection state machine of the subscription server. A connection is
//! accepted but detached until it sends the text command `subscribe`; from
//! then on every published payload is forwarded to it, until the first
//! failed send closes it. Any other input is ignored; a closed connection
//! never comes back.

use vstd::prelude::*;
use crate::errors::FeedError;

verus! {

/// The life of one connection.
#[derive(Clone, Copy, Debug, PartialEq, Eq, Structural)]
pub enum ConnPhase {
    /// Accepted; not yet attached to the hub.
    Connected,
    /// Attached; payloads are being forwarded.
    Streaming,
    /// Torn down; no further sends.
    Closed,
}

/// The one command a client can send: `subscribe`, as bytes.
pub open spec fn subscribe_text() -> Seq<u8> {
    seq![115u8, 117u8, 98u8, 115u8, 99u8, 114u8, 105u8, 98u8, 101u8]
}

/// What a text message does to a connection: the subscribe command attaches
/// an accepted connection (the boolean asks the caller to create the hub
/// subscription); every other message, in every phase, changes nothing.
pub open spec fn spec_on_text(phase: ConnPhase, msg: Seq<u8>) -> (ConnPhase, bool) {
    if phase == ConnPhase::Connected && msg == subscribe_text() {
        (ConnPhase::Streaming, true)
    } else {
        (phase, false)
    }
}

/// What the outcome of one forwarded send does: the first failure closes the
/// connection; a success leaves it streaming.
pub open spec fn spec_after_send(phase: ConnPhase, ok: bool) -> ConnPhase {
    if phase == ConnPhase::Streaming && !ok {
        ConnPhase::Closed
    } else {
        phase
    }
}

/// Whether `msg` is exactly the subscribe command.
pub fn is_subscribe(msg: &Vec<u8>) -> (r: bool)
    ensures
        r == (msg@ == subscribe_text()),
{
    if msg.len() != 9 {
        proof {
            assert(msg@ != subscribe_text());
        }
        return false;
    }
    let r = msg[0] == 115 && msg[1] == 117 && msg[2] == 98 && msg[3] == 115 && msg[4] == 99
        && msg[5] == 114 && msg[6] == 105 && msg[7] == 98 && msg[8] == 101;
    proof {
        if r {
            assert(msg@ =~= subscribe_text());
        }
    }
    r
}

/// Applies one inbound text message to a connection.
pub fn on_text(phase: ConnPhase, msg: &Vec<u8>) -> (r: (ConnPhase, bool))
    ensures
        r == spec_on_text(phase, msg@),
{
    if matches!(phase, ConnPhase::Connected) && is_subscribe(msg) {
        (ConnPhase::Streaming, true)
    } else {
        (phase, false)
    }
}

/// Applies the outcome of one forwarded send to a connection.
pub fn after_send(phase: ConnPhase, ok: bool) -> (r: ConnPhase)
    ensures
        r == spec_after_send(phase, ok),
{
    if matches!(phase, ConnPhase::Streaming) && !ok {
        ConnPhase::Closed
    } else {
        phase
    }
}

/// What a send outcome means for the operators' log: a failed delivery is a
/// `DeliveryError`, recovered by closing this connection alone.
pub fn delivery_report(ok: bool) -> (r: Option<FeedError>)
    ensures
        r == if ok {
            None::<FeedError>
        } else {
            Some(FeedError::DeliveryError)
        },
{
    if ok {
        None
    } else {
        Some(FeedError::DeliveryError)
    }
}

/// A subscription is created exactly once, by the subscribe command on an
/// accepted connection; and a closed connection stays closed whatever
/// arrives or is attempted.
pub proof fn lemma_conn_lifecycle(phase: ConnPhase, msg: Seq<u8>, ok: bool)
    ensures
        spec_on_text(phase, msg).1 <==> (phase == ConnPhase::Connected && msg
            == subscribe_text()),
        phase == ConnPhase::Closed ==> spec_on_text(phase, msg).0 == ConnPhase::Closed
            && spec_after_send(phase, ok) == ConnPhase::Closed,
{
}

} // verus!
