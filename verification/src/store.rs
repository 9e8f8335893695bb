//! The persistence gateway's model of the two tables: heights, keyed by the
//! height value with at-most-one-row-per-height semantics, and prices, an
//! unconditional append-only log. Timestamps are stored in their ISO-8601
//! UTC rendering; an unrepresentable timestamp fails the single record
//! operation and writes nothing.

use vstd::prelude::*;
use crate::errors::Ack;
use crate::errors::FeedError;
use crate::clock::valid_ts;
use crate::clock::iso_of;
use crate::clock::format_timestamp;
use crate::text::clone_bytes;

verus! {

/// One row of the height table.
pub struct HeightRow {
    pub height: i32,
    pub timestamp: Vec<u8>,
}

/// One row of the price table.
pub struct PriceRow {
    pub price: Vec<u8>,
    pub timestamp: Vec<u8>,
}

/// A height table holds a given height at most once.
pub open spec fn unique_keys(rows: Seq<(i32, Seq<u8>)>) -> bool {
    forall|i: int, j: int|
        0 <= i < j < rows.len() ==> (#[trigger] rows[i]).0 != (#[trigger] rows[j]).0
}

pub open spec fn contains_key(rows: Seq<(i32, Seq<u8>)>, height: i32) -> bool {
    exists|k: int| 0 <= k < rows.len() && (#[trigger] rows[k]).0 == height
}

/// How many rows carry `height`.
pub open spec fn count_key(rows: Seq<(i32, Seq<u8>)>, height: i32) -> int
    decreases rows.len(),
{
    if rows.len() == 0 {
        0
    } else {
        count_key(rows.drop_last(), height) + if rows.last().0 == height {
            1int
        } else {
            0int
        }
    }
}

/// What recording a height does to the height table: nothing on an
/// unrepresentable timestamp, nothing but an acknowledgement when the height
/// is already present, one appended row otherwise.
pub open spec fn spec_record_height(rows: Seq<(i32, Seq<u8>)>, height: i32, t: int) -> (
    Seq<(i32, Seq<u8>)>,
    Result<Ack, FeedError>,
) {
    if !valid_ts(t) {
        (rows, Err(FeedError::InvalidTimestamp))
    } else if contains_key(rows, height) {
        (rows, Ok(Ack::AlreadyPresent))
    } else {
        (rows.push((height, iso_of(t))), Ok(Ack::Inserted))
    }
}

/// What recording a price does to the price table: an unconditional append,
/// unless the timestamp is unrepresentable.
pub open spec fn spec_record_price(rows: Seq<(Seq<u8>, Seq<u8>)>, price: Seq<u8>, t: int) -> (
    Seq<(Seq<u8>, Seq<u8>)>,
    Result<Ack, FeedError>,
) {
    if !valid_ts(t) {
        (rows, Err(FeedError::InvalidTimestamp))
    } else {
        (rows.push((price, iso_of(t))), Ok(Ack::Inserted))
    }
}

/// The durable store: the model the gateway's contract speaks of.
pub struct Store {
    heights: Vec<HeightRow>,
    prices: Vec<PriceRow>,
}

impl Store {
    /// The height table as (height, ISO timestamp) pairs, oldest first.
    pub closed spec fn height_rows(self) -> Seq<(i32, Seq<u8>)> {
        self.heights@.map_values(|r: HeightRow| (r.height, r.timestamp@))
    }

    /// The price table as (price text, ISO timestamp) pairs, oldest first.
    pub closed spec fn price_rows(self) -> Seq<(Seq<u8>, Seq<u8>)> {
        self.prices@.map_values(|r: PriceRow| (r.price@, r.timestamp@))
    }

    pub open spec fn wf(self) -> bool {
        unique_keys(self.height_rows())
    }

    pub open spec fn contains_height(self, height: i32) -> bool {
        contains_key(self.height_rows(), height)
    }

    pub fn new() -> (r: Store)
        ensures
            r.wf(),
            r.height_rows() == Seq::<(i32, Seq<u8>)>::empty(),
            r.price_rows() == Seq::<(Seq<u8>, Seq<u8>)>::empty(),
    {
        let r = Store { heights: Vec::new(), prices: Vec::new() };
        proof {
            assert(r.height_rows() =~= Seq::<(i32, Seq<u8>)>::empty());
            assert(r.price_rows() =~= Seq::<(Seq<u8>, Seq<u8>)>::empty());
        }
        r
    }

    /// Whether a row with this height already exists.
    pub fn find_height(&self, height: i32) -> (r: bool)
        ensures
            r == self.contains_height(height),
    {
        let mut i: usize = 0;
        while i < self.heights.len()
            invariant
                0 <= i <= self.height_rows().len(),
                forall|j: int| 0 <= j < i ==> (#[trigger] self.height_rows()[j]).0 != height,
            decreases self.height_rows().len() - i,
        {
            if self.heights[i].height == height {
                proof {
                    assert((self.height_rows()[i as int]).0 == height);
                }
                return true;
            }
            i = i + 1;
        }
        false
    }

    /// Records a height sample: checks for an existing row, inserts one with
    /// the ISO rendering of `t` when absent, acknowledges without writing
    /// when present. Fails only on an unrepresentable timestamp, and then
    /// writes nothing.
    pub fn record_height(&mut self, height: i32, t: i64) -> (r: Result<Ack, FeedError>)
        requires
            old(self).wf(),
        ensures
            final(self).wf(),
            (final(self).height_rows(), r) == spec_record_height(
                old(self).height_rows(),
                height,
                t as int,
            ),
            final(self).price_rows() == old(self).price_rows(),
            r is Ok <==> valid_ts(t as int),
    {
        match format_timestamp(t) {
            Err(e) => Err(e),
            Ok(iso) => {
                if self.find_height(height) {
                    Ok(Ack::AlreadyPresent)
                } else {
                    let ghost pre = self.height_rows();
                    self.heights.push(HeightRow { height, timestamp: iso });
                    proof {
                        assert(self.height_rows() =~= pre.push((height, iso_of(t as int))));
                        assert forall|i: int, j: int|
                            0 <= i < j < self.height_rows().len() implies (
                        #[trigger] self.height_rows()[i]).0 != (
                        #[trigger] self.height_rows()[j]).0 by {
                            if j == self.height_rows().len() - 1 {
                                assert(!contains_key(pre, height));
                                assert(pre[i].0 != height);
                            }
                        }
                    }
                    Ok(Ack::Inserted)
                }
            },
        }
    }

    /// Records a price sample: an unconditional append — repeated prices are
    /// legitimate, so there is no key and no idempotence. Fails only on an
    /// unrepresentable timestamp, and then writes nothing.
    pub fn record_price(&mut self, price: &Vec<u8>, t: i64) -> (r: Result<Ack, FeedError>)
        requires
            old(self).wf(),
        ensures
            final(self).wf(),
            (final(self).price_rows(), r) == spec_record_price(
                old(self).price_rows(),
                price@,
                t as int,
            ),
            final(self).height_rows() == old(self).height_rows(),
            r is Ok <==> valid_ts(t as int),
    {
        match format_timestamp(t) {
            Err(e) => Err(e),
            Ok(iso) => {
                let ghost pre = self.price_rows();
                let row = PriceRow { price: clone_bytes(price), timestamp: iso };
                self.prices.push(row);
                proof {
                    assert(self.price_rows() =~= pre.push((price@, iso_of(t as int))));
                }
                Ok(Ack::Inserted)
            },
        }
    }

    pub fn num_heights(&self) -> (r: usize)
        ensures
            r as int == self.height_rows().len(),
    {
        self.heights.len()
    }

    pub fn num_prices(&self) -> (r: usize)
        ensures
            r as int == self.price_rows().len(),
    {
        self.prices.len()
    }

    pub fn height_at(&self, i: usize) -> (r: &HeightRow)
        requires
            i < self.height_rows().len(),
        ensures
            r.height == self.height_rows()[i as int].0,
            r.timestamp@ == self.height_rows()[i as int].1,
    {
        &self.heights[i]
    }

    pub fn price_at(&self, i: usize) -> (r: &PriceRow)
        requires
            i < self.price_rows().len(),
        ensures
            r.price@ == self.price_rows()[i as int].0,
            r.timestamp@ == self.price_rows()[i as int].1,
    {
        &self.prices[i]
    }
}

/// How the gateway reads the durable store's answer to a conditional height
/// insert. The store's own uniqueness constraint, not the existence
/// pre-check, is the source of truth: a uniqueness violation on the height
/// key means the row is already there, an equivalent-to-success outcome and
/// not an error. Any other failure is a store error.
pub fn classify_store_reply(succeeded: bool, unique_violation: bool) -> (r: Result<
    Ack,
    FeedError,
>)
    ensures
        succeeded ==> r == Ok::<Ack, FeedError>(Ack::Inserted),
        !succeeded && unique_violation ==> r == Ok::<Ack, FeedError>(Ack::AlreadyPresent),
        !succeeded && !unique_violation ==> r == Err::<Ack, FeedError>(FeedError::StoreError),
{
    if succeeded {
        Ok(Ack::Inserted)
    } else if unique_violation {
        Ok(Ack::AlreadyPresent)
    } else {
        Err(FeedError::StoreError)
    }
}

proof fn lemma_count_push(rows: Seq<(i32, Seq<u8>)>, row: (i32, Seq<u8>), height: i32)
    ensures
        count_key(rows.push(row), height) == count_key(rows, height) + if row.0 == height {
            1int
        } else {
            0int
        },
{
    assert(rows.push(row).drop_last() =~= rows);
    assert(rows.push(row).last() == row);
}

proof fn lemma_count_zero(rows: Seq<(i32, Seq<u8>)>, height: i32)
    requires
        !contains_key(rows, height),
    ensures
        count_key(rows, height) == 0,
    decreases rows.len(),
{
    if rows.len() > 0 {
        assert(!contains_key(rows.drop_last(), height)) by {
            if contains_key(rows.drop_last(), height) {
                let k = choose|k: int|
                    0 <= k < rows.drop_last().len() && (#[trigger] rows.drop_last()[k]).0 == height;
                assert(rows[k].0 == height);
            }
        }
        lemma_count_zero(rows.drop_last(), height);
        assert(rows.last().0 != height) by {
            assert(rows[rows.len() - 1] == rows.last());
        }
    }
}

/// Idempotent height insert: recording the same height twice, with the same
/// or different (representable) timestamps, writes exactly one row, and the
/// second call acknowledges success without writing.
pub proof fn lemma_record_height_idempotent(
    rows: Seq<(i32, Seq<u8>)>,
    height: i32,
    t1: int,
    t2: int,
)
    requires
        valid_ts(t1),
        valid_ts(t2),
    ensures
        ({
            let (rows1, r1) = spec_record_height(rows, height, t1);
            let (rows2, r2) = spec_record_height(rows1, height, t2);
            &&& rows2 == rows1
            &&& r2 is Ok
            &&& (!contains_key(rows, height) ==> {
                &&& r1 == Ok::<Ack, FeedError>(Ack::Inserted)
                &&& r2 == Ok::<Ack, FeedError>(Ack::AlreadyPresent)
                &&& count_key(rows2, height) == 1
            })
        }),
{
    let (rows1, r1) = spec_record_height(rows, height, t1);
    if !contains_key(rows, height) {
        assert(rows1 == rows.push((height, iso_of(t1))));
        assert(rows1[rows1.len() - 1].0 == height);
        assert(contains_key(rows1, height));
        lemma_count_zero(rows, height);
        lemma_count_push(rows, (height, iso_of(t1)), height);
    } else {
        assert(rows1 == rows);
    }
}

} // verus!
