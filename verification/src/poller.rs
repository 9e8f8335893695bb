//! One tick of the poll schedule, and the poller's phase machine. A tick
//! takes the outcome of the two feed fetches and drives each successful
//! sample through the hub and the store; the two sequences are independent,
//! and no failure in either aborts the tick. The phase machine decides when
//! a new tick may begin and how the cancellation signal ends the loop.

use vstd::prelude::*;
use crate::errors::Ack;
use crate::errors::FeedError;
use crate::payload::Payload;
use crate::payload::payload_bytes;
use crate::payload::zero_price;
use crate::payload::price_text_ok;
use crate::payload::check_price_text;
use crate::payload::encode_payload;
use crate::store::Store;
use crate::store::spec_record_height;
use crate::store::spec_record_price;
use crate::hub::Hub;

verus! {

/// The decoded answer of the height feed: a height, and the instant the
/// feed attached to it — absent when the feed carried none, in which case
/// the sample is discarded.
#[derive(Clone, Copy, Debug)]
pub struct HeightSample {
    pub height: i32,
    pub time: Option<i64>,
}

/// What one of the two fetch→publish→persist sequences of a tick came to;
/// the caller logs it and never aborts on it.
#[derive(Clone, Copy, Debug, PartialEq, Eq)]
pub enum StepReport {
    /// The fetch did not yield a usable sample.
    FetchFailed(FeedError),
    /// The height feed answered without a timestamp; the sample was dropped
    /// before publishing or persisting.
    Discarded,
    /// The sample was published and recorded.
    Recorded(Ack),
    /// The sample was published, but recording it failed.
    RecordFailed(FeedError),
}

/// Both halves of one tick.
#[derive(Clone, Copy, Debug, PartialEq, Eq)]
pub struct TickReport {
    pub height: StepReport,
    pub price: StepReport,
}

/// What the height half of a tick publishes: one payload with the price
/// zeroed, or nothing.
pub open spec fn height_messages(hf: Result<HeightSample, FeedError>) -> Seq<Seq<u8>> {
    match hf {
        Ok(s) => match s.time {
            Some(t) => seq![payload_bytes(s.height as int, zero_price(), t as int)],
            None => Seq::empty(),
        },
        Err(_) => Seq::empty(),
    }
}

/// What the price half of a tick publishes: one payload with the height
/// zeroed and the tick's own instant, or nothing.
pub open spec fn price_messages(pf: Result<Vec<u8>, FeedError>, now: int) -> Seq<Seq<u8>> {
    match pf {
        Ok(p) => if price_text_ok(p@) {
            seq![payload_bytes(0, p@, now)]
        } else {
            Seq::empty()
        },
        Err(_) => Seq::empty(),
    }
}

/// Everything one tick publishes, height half first.
pub open spec fn tick_messages(
    hf: Result<HeightSample, FeedError>,
    pf: Result<Vec<u8>, FeedError>,
    now: int,
) -> Seq<Seq<u8>> {
    height_messages(hf) + price_messages(pf, now)
}

/// What one tick does to the height table — a function of the height fetch
/// alone.
pub open spec fn spec_tick_heights(
    rows: Seq<(i32, Seq<u8>)>,
    hf: Result<HeightSample, FeedError>,
) -> Seq<(i32, Seq<u8>)> {
    match hf {
        Ok(s) => match s.time {
            Some(t) => spec_record_height(rows, s.height, t as int).0,
            None => rows,
        },
        Err(_) => rows,
    }
}

/// What one tick does to the price table — a function of the price fetch
/// and the tick's instant alone.
pub open spec fn spec_tick_prices(
    rows: Seq<(Seq<u8>, Seq<u8>)>,
    pf: Result<Vec<u8>, FeedError>,
    now: int,
) -> Seq<(Seq<u8>, Seq<u8>)> {
    match pf {
        Ok(p) => if price_text_ok(p@) {
            spec_record_price(rows, p@, now).0
        } else {
            rows
        },
        Err(_) => rows,
    }
}

pub open spec fn spec_height_report(
    rows: Seq<(i32, Seq<u8>)>,
    hf: Result<HeightSample, FeedError>,
) -> StepReport {
    match hf {
        Ok(s) => match s.time {
            Some(t) => match spec_record_height(rows, s.height, t as int).1 {
                Ok(a) => StepReport::Recorded(a),
                Err(e) => StepReport::RecordFailed(e),
            },
            None => StepReport::Discarded,
        },
        Err(e) => StepReport::FetchFailed(e),
    }
}

pub open spec fn spec_price_report(pf: Result<Vec<u8>, FeedError>, now: int) -> StepReport {
    match pf {
        Ok(p) => if price_text_ok(p@) {
            match spec_record_price(Seq::<(Seq<u8>, Seq<u8>)>::empty(), p@, now).1 {
                Ok(a) => StepReport::Recorded(a),
                Err(e) => StepReport::RecordFailed(e),
            }
        } else {
            StepReport::FetchFailed(FeedError::DecodeError)
        },
        Err(e) => StepReport::FetchFailed(e),
    }
}

/// One tick: drives the height fetch outcome, then the price fetch outcome,
/// each through publish-then-record. Each half runs whatever became of the
/// other; every failure is reported, none aborts the tick; subscribers are
/// untouched.
pub fn tick(
    store: &mut Store,
    hub: &mut Hub,
    height_fetch: Result<HeightSample, FeedError>,
    price_fetch: Result<Vec<u8>, FeedError>,
    now: i64,
) -> (r: TickReport)
    requires
        old(store).wf(),
        old(hub).wf(),
        old(hub).total() + 2 < u64::MAX,
    ensures
        final(store).wf(),
        final(hub).wf(),
        final(hub).history() == old(hub).history() + tick_messages(
            height_fetch,
            price_fetch,
            now as int,
        ),
        final(hub).cap() == old(hub).cap(),
        final(hub).num_subs() == old(hub).num_subs(),
        forall|i: int|
            0 <= i < old(hub).num_subs() ==> final(hub).sub_cursor(i) == old(hub).sub_cursor(i)
                && final(hub).sub_active(i) == old(hub).sub_active(i),
        final(store).height_rows() == spec_tick_heights(old(store).height_rows(), height_fetch),
        final(store).price_rows() == spec_tick_prices(
            old(store).price_rows(),
            price_fetch,
            now as int,
        ),
        r.height == spec_height_report(old(store).height_rows(), height_fetch),
        r.price == spec_price_report(price_fetch, now as int),
{
    let height_report: StepReport = match height_fetch {
        Ok(sample) => match sample.time {
            Some(t) => {
                let payload = Payload::for_height(sample.height, t);
                let bytes = encode_payload(&payload);
                hub.publish(bytes);
                match store.record_height(sample.height, t) {
                    Ok(a) => StepReport::Recorded(a),
                    Err(e) => StepReport::RecordFailed(e),
                }
            },
            None => StepReport::Discarded,
        },
        Err(e) => StepReport::FetchFailed(e),
    };
    let ghost mid_history = hub.history();
    let price_report: StepReport = match price_fetch {
        Ok(p) => {
            if check_price_text(&p) {
                let payload = Payload::for_price(p, now);
                let bytes = encode_payload(&payload);
                hub.publish(bytes);
                match store.record_price(&payload.price, now) {
                    Ok(a) => StepReport::Recorded(a),
                    Err(e) => StepReport::RecordFailed(e),
                }
            } else {
                StepReport::FetchFailed(FeedError::DecodeError)
            }
        },
        Err(e) => StepReport::FetchFailed(e),
    };
    proof {
        assert(hub.history() =~= old(hub).history() + tick_messages(
            height_fetch,
            price_fetch,
            now as int,
        ));
    }
    TickReport { height: height_report, price: price_report }
}

/// Fault isolation: the height half of a tick is unaffected by whatever the
/// price fetch did. What a tick publishes always begins with the height
/// publication, and when the price fetch fails it is exactly the height
/// publication; the stored height table is a function of the height fetch
/// alone (see `spec_tick_heights`).
pub proof fn lemma_fault_isolation(
    hf: Result<HeightSample, FeedError>,
    pf: Result<Vec<u8>, FeedError>,
    now: int,
    e: FeedError,
)
    ensures
        tick_messages(hf, pf, now).take(height_messages(hf).len() as int) == height_messages(hf),
        tick_messages(hf, Err(e), now) == height_messages(hf),
{
    assert(tick_messages(hf, pf, now).take(height_messages(hf).len() as int) =~= height_messages(
        hf,
    ));
    assert(tick_messages(hf, Err(e), now) =~= height_messages(hf));
}

/// The poller's phases. A tick is `Fetching` then `Publishing`; between
/// ticks it is `Idle`; `Shutdown` is terminal.
#[derive(Clone, Copy, Debug, PartialEq, Eq, Structural)]
pub enum PollerPhase {
    Idle,
    Fetching,
    Publishing,
    Shutdown,
}

/// The schedule's transition: a new tick begins only from an uncancelled
/// `Idle`; a tick in flight always completes; cancellation is observed at
/// tick boundaries.
pub open spec fn spec_next_phase(phase: PollerPhase, cancelled: bool) -> PollerPhase {
    match phase {
        PollerPhase::Idle => if cancelled {
            PollerPhase::Shutdown
        } else {
            PollerPhase::Fetching
        },
        PollerPhase::Fetching => PollerPhase::Publishing,
        PollerPhase::Publishing => if cancelled {
            PollerPhase::Shutdown
        } else {
            PollerPhase::Idle
        },
        PollerPhase::Shutdown => PollerPhase::Shutdown,
    }
}

pub fn next_phase(phase: PollerPhase, cancelled: bool) -> (r: PollerPhase)
    ensures
        r == spec_next_phase(phase, cancelled),
{
    match phase {
        PollerPhase::Idle => if cancelled {
            PollerPhase::Shutdown
        } else {
            PollerPhase::Fetching
        },
        PollerPhase::Fetching => PollerPhase::Publishing,
        PollerPhase::Publishing => if cancelled {
            PollerPhase::Shutdown
        } else {
            PollerPhase::Idle
        },
        PollerPhase::Shutdown => PollerPhase::Shutdown,
    }
}

/// Shutdown: once the cancellation signal has fired, no new tick begins —
/// nothing transitions into `Fetching` — while a tick already in flight
/// still runs to completion, and `Shutdown` is never left.
pub proof fn lemma_shutdown(phase: PollerPhase, cancelled: bool)
    ensures
        cancelled ==> spec_next_phase(phase, cancelled) != PollerPhase::Fetching,
        phase == PollerPhase::Fetching ==> spec_next_phase(phase, cancelled)
            == PollerPhase::Publishing,
        phase == PollerPhase::Shutdown ==> spec_next_phase(phase, cancelled)
            == PollerPhase::Shutdown,
{
}

} // verus!
