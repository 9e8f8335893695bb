//! The published payload and its wire encoding. Every publish event carries
//! one JSON object `{"height":h,"price":p,"timestamp":t}`; the field a tick
//! did not fetch holds its zero sentinel. The price is carried as the decimal
//! text the price feed produced; the encoder only accepts text made of the
//! characters a JSON number can hold, so the frame it builds is well formed.

use vstd::prelude::*;
use crate::text::dec_int;
use crate::text::fmt_i32;
use crate::text::fmt_i64;

verus! {

/// A byte a decimal price rendering may contain: digits, sign, point and
/// exponent marks.
pub open spec fn price_byte_ok(b: u8) -> bool {
    (48 <= b <= 57) || b == 45 || b == 43 || b == 46 || b == 101 || b == 69
}

/// Text that is safe to splice into the payload frame as the price field.
pub open spec fn price_text_ok(s: Seq<u8>) -> bool {
    s.len() >= 1 && forall|i: int| 0 <= i < s.len() ==> price_byte_ok(#[trigger] s[i])
}

/// The zero-price sentinel, `0.0`.
pub open spec fn zero_price() -> Seq<u8> {
    seq![48u8, 46u8, 48u8]
}

/// Checks that `s` is non-empty and made only of price characters.
pub fn check_price_text(s: &Vec<u8>) -> (r: bool)
    ensures
        r == price_text_ok(s@),
{
    if s.len() == 0 {
        return false;
    }
    let mut i: usize = 0;
    while i < s.len()
        invariant
            0 <= i <= s@.len(),
            s@.len() >= 1,
            forall|j: int| 0 <= j < i ==> price_byte_ok(#[trigger] s@[j]),
        decreases s@.len() - i,
    {
        let b = s[i];
        if !((48 <= b && b <= 57) || b == 45 || b == 43 || b == 46 || b == 101 || b == 69) {
            return false;
        }
        i = i + 1;
    }
    true
}

/// One broadcast record: a height, a price rendering, and the instant the
/// sample was taken. A field the tick did not fetch carries its zero
/// sentinel.
pub struct Payload {
    pub height: i32,
    pub price: Vec<u8>,
    pub timestamp: i64,
}

impl Payload {
    /// The price field holds splice-safe text.
    pub open spec fn wf(self) -> bool {
        price_text_ok(self.price@)
    }

    /// A payload for a height sample: the price field is zeroed.
    pub fn for_height(height: i32, timestamp: i64) -> (r: Payload)
        ensures
            r.height == height,
            r.price@ == zero_price(),
            r.timestamp == timestamp,
            r.wf(),
    {
        let mut price: Vec<u8> = Vec::new();
        price.push(48);
        price.push(46);
        price.push(48);
        proof {
            assert(price@ =~= zero_price());
        }
        Payload { height, price, timestamp }
    }

    /// A payload for a price sample: the height field is zeroed.
    pub fn for_price(price: Vec<u8>, timestamp: i64) -> (r: Payload)
        requires
            price_text_ok(price@),
        ensures
            r.height == 0,
            r.price@ == price@,
            r.timestamp == timestamp,
            r.wf(),
    {
        Payload { height: 0, price, timestamp }
    }
}

/// `{"height":`
pub open spec fn key_height() -> Seq<u8> {
    seq![123u8, 34u8, 104u8, 101u8, 105u8, 103u8, 104u8, 116u8, 34u8, 58u8]
}

/// `,"price":`
pub open spec fn key_price() -> Seq<u8> {
    seq![44u8, 34u8, 112u8, 114u8, 105u8, 99u8, 101u8, 34u8, 58u8]
}

/// `,"timestamp":`
pub open spec fn key_timestamp() -> Seq<u8> {
    seq![44u8, 34u8, 116u8, 105u8, 109u8, 101u8, 115u8, 116u8, 97u8, 109u8, 112u8, 34u8, 58u8]
}

/// The full wire frame of one payload.
pub open spec fn payload_bytes(height: int, price: Seq<u8>, timestamp: int) -> Seq<u8> {
    key_height() + dec_int(height) + key_price() + price + key_timestamp() + dec_int(timestamp)
        + seq![125u8]
}

/// Encodes a payload as its JSON wire frame.
pub fn encode_payload(p: &Payload) -> (r: Vec<u8>)
    ensures
        r@ == payload_bytes(p.height as int, p.price@, p.timestamp as int),
{
    let mut v: Vec<u8> = Vec::new();
    v.push(123u8);
    v.push(34u8);
    v.push(104u8);
    v.push(101u8);
    v.push(105u8);
    v.push(103u8);
    v.push(104u8);
    v.push(116u8);
    v.push(34u8);
    v.push(58u8);
    let mut num = fmt_i32(p.height);
    v.append(&mut num);
    v.push(44u8);
    v.push(34u8);
    v.push(112u8);
    v.push(114u8);
    v.push(105u8);
    v.push(99u8);
    v.push(101u8);
    v.push(34u8);
    v.push(58u8);
    proof {
        assert(v@ =~= key_height() + dec_int(p.height as int) + key_price() + p.price@.take(0));
    }
    let mut i: usize = 0;
    while i < p.price.len()
        invariant
            0 <= i <= p.price@.len(),
            v@ == key_height() + dec_int(p.height as int) + key_price() + p.price@.take(i as int),
        decreases p.price@.len() - i,
    {
        v.push(p.price[i]);
        i = i + 1;
        proof {
            assert(v@ =~= key_height() + dec_int(p.height as int) + key_price() + p.price@.take(
                i as int,
            ));
        }
    }
    proof {
        assert(p.price@.take(p.price@.len() as int) =~= p.price@);
    }
    v.push(44u8);
    v.push(34u8);
    v.push(116u8);
    v.push(105u8);
    v.push(109u8);
    v.push(101u8);
    v.push(115u8);
    v.push(116u8);
    v.push(97u8);
    v.push(109u8);
    v.push(112u8);
    v.push(34u8);
    v.push(58u8);
    let mut num = fmt_i64(p.timestamp);
    v.append(&mut num);
    v.push(125u8);
    proof {
        assert(v@ =~= payload_bytes(p.height as int, p.price@, p.timestamp as int));
    }
    v
}

} // verus!
