//! Advertising-data (AD) structures and their canonical byte encoding.
//!
//! Each element is encoded as a length byte (counting the type byte and the
//! payload), a type byte, and the payload. The encoded elements of one
//! advertising PDU must fit the 31-byte advertising-data budget.

use vstd::prelude::*;
use crate::MAX_AD_DATA_SIZE;

verus! {

/// AD type code of the Flags element.
pub const AD_TYPE_FLAGS: u8 = 0x01;

/// AD type code of the Complete Local Name element.
pub const AD_TYPE_COMPLETE_LOCAL_NAME: u8 = 0x09;

/// LE Limited Discoverable mode bit of the Flags element.
pub const FLAG_LE_LIMITED_DISCOVERABLE: u8 = 0x01;

/// LE General Discoverable mode bit of the Flags element.
pub const FLAG_LE_GENERAL_DISCOVERABLE: u8 = 0x02;

/// BR/EDR-not-supported bit of the Flags element.
pub const FLAG_BR_EDR_NOT_SUPPORTED: u8 = 0x04;

/// Payload of a Flags AD element.
#[derive(Clone, Copy, Debug, PartialEq, Eq, Structural)]
pub struct Flags {
    pub bits: u8,
}

impl Flags {
    /// General discoverable, BR/EDR not supported: the flags of a plain
    /// LE-only beacon that wants to be found.
    pub fn discoverable() -> (r: Flags)
        ensures
            r.bits == (FLAG_LE_GENERAL_DISCOVERABLE | FLAG_BR_EDR_NOT_SUPPORTED),
    {
        Flags { bits: FLAG_LE_GENERAL_DISCOVERABLE | FLAG_BR_EDR_NOT_SUPPORTED }
    }

    pub fn from_bits(bits: u8) -> (r: Flags)
        ensures
            r.bits == bits,
    {
        Flags { bits }
    }
}

/// One advertising-data element.
#[derive(Clone, Debug, PartialEq, Eq)]
pub enum AdStructure {
    Flags(Flags),
    CompleteLocalName(Vec<u8>),
}

/// Mathematical value of one advertising-data element.
pub enum AdValue {
    Flags(u8),
    CompleteLocalName(Seq<u8>),
}

impl View for AdStructure {
    type V = AdValue;

    open spec fn view(&self) -> AdValue {
        match self {
            AdStructure::Flags(f) => AdValue::Flags(f.bits),
            AdStructure::CompleteLocalName(name) => AdValue::CompleteLocalName(name@),
        }
    }
}

/// The values of a sequence of AD elements.
pub open spec fn ads_model(s: Seq<AdStructure>) -> Seq<AdValue> {
    s.map_values(|a: AdStructure| a@)
}

/// An element whose length byte fits in one byte.
pub open spec fn ad_valid(ad: AdValue) -> bool {
    match ad {
        AdValue::Flags(_) => true,
        AdValue::CompleteLocalName(name) => name.len() + 1 <= 255,
    }
}

/// Canonical encoding of one AD element: length byte, type byte, payload.
pub open spec fn spec_encode_ad(ad: AdValue) -> Seq<u8> {
    match ad {
        AdValue::Flags(bits) => seq![2u8, AD_TYPE_FLAGS, bits],
        AdValue::CompleteLocalName(name) => seq![
            ((name.len() + 1) as u8),
            AD_TYPE_COMPLETE_LOCAL_NAME,
        ] + name,
    }
}

/// Canonical encoding of a sequence of AD elements, in order.
pub open spec fn spec_encode_ads(ads: Seq<AdValue>) -> Seq<u8>
    decreases ads.len(),
{
    if ads.len() == 0 {
        Seq::empty()
    } else {
        spec_encode_ad(ads[0]) + spec_encode_ads(ads.drop_first())
    }
}

/// Reference parse of encoded advertising data back into AD elements.
/// `None` on anything malformed: a zero length byte, a truncated element,
/// or a type this model does not carry.
pub open spec fn spec_decode_ads(data: Seq<u8>) -> Option<Seq<AdValue>>
    decreases data.len(),
{
    if data.len() == 0 {
        Some(Seq::empty())
    } else {
        let len = data[0] as int;
        if len < 1 || data.len() < 1 + len {
            None
        } else {
            let first = if data[1] == AD_TYPE_FLAGS {
                if len == 2 {
                    Some(AdValue::Flags(data[2]))
                } else {
                    None::<AdValue>
                }
            } else if data[1] == AD_TYPE_COMPLETE_LOCAL_NAME {
                Some(AdValue::CompleteLocalName(data.subrange(2, 1 + len)))
            } else {
                None::<AdValue>
            };
            match (first, spec_decode_ads(data.subrange(1 + len, data.len() as int))) {
                (Some(f), Some(rest)) => Some(seq![f] + rest),
                _ => None,
            }
        }
    }
}

/// Encoding distributes over concatenation of element sequences.
pub proof fn lemma_encode_ads_concat(a: Seq<AdValue>, b: Seq<AdValue>)
    ensures
        spec_encode_ads(a + b) == spec_encode_ads(a) + spec_encode_ads(b),
    decreases a.len(),
{
    if a.len() == 0 {
        assert(a + b =~= b);
        assert(spec_encode_ads(a) + spec_encode_ads(b) =~= spec_encode_ads(b));
    } else {
        assert((a + b).drop_first() =~= a.drop_first() + b);
        lemma_encode_ads_concat(a.drop_first(), b);
        assert(spec_encode_ad((a + b)[0]) + (spec_encode_ads(a.drop_first()) + spec_encode_ads(b))
            =~= spec_encode_ads(a) + spec_encode_ads(b));
    }
}

/// Every element's own encoding is no longer than that of the whole sequence.
pub proof fn lemma_encode_ads_part_len(ads: Seq<AdValue>, i: int)
    requires
        0 <= i < ads.len(),
    ensures
        spec_encode_ad(ads[i]).len() <= spec_encode_ads(ads).len(),
    decreases ads.len(),
{
    if i == 0 {
    } else {
        lemma_encode_ads_part_len(ads.drop_first(), i - 1);
    }
}

/// Decoding one well-formed element followed by arbitrary further data
/// recovers the element and continues with the rest.
proof fn lemma_decode_one(ad: AdValue, tail: Seq<u8>)
    requires
        ad_valid(ad),
    ensures
        spec_decode_ads(spec_encode_ad(ad) + tail) == match spec_decode_ads(tail) {
            Some(rest) => Some(seq![ad] + rest),
            None => None::<Seq<AdValue>>,
        },
{
    let b = spec_encode_ad(ad) + tail;
    match ad {
        AdValue::Flags(bits) => {
            assert(b[0] == 2 && b[1] == AD_TYPE_FLAGS && b[2] == bits);
            assert(b.subrange(3, b.len() as int) =~= tail);
        }
        AdValue::CompleteLocalName(name) => {
            let n = name.len() as int;
            assert(b[0] == n + 1);
            assert(b[1] == AD_TYPE_COMPLETE_LOCAL_NAME);
            assert(b.subrange(2, 2 + n) =~= name);
            assert(b.subrange(2 + n, b.len() as int) =~= tail);
        }
    }
}

/// Law: encoding a sequence of AD elements that fits the advertising-data
/// budget and then parsing the bytes back reproduces exactly that sequence.
pub proof fn lemma_ad_round_trip(ads: Seq<AdValue>)
    requires
        spec_encode_ads(ads).len() <= MAX_AD_DATA_SIZE,
    ensures
        spec_decode_ads(spec_encode_ads(ads)) == Some(ads),
{
    assert forall|i: int| 0 <= i < ads.len() implies ad_valid(#[trigger] ads[i]) by {
        lemma_encode_ads_part_len(ads, i);
    }
    lemma_round_trip_valid(ads);
}

/// Configuration error: the encoded advertising data would not fit one PDU.
#[derive(Clone, Copy, Debug, PartialEq, Eq, Structural)]
pub enum ConfigError {
    SizeExceeded,
}

/// The whole encoding is at least as long as an element's own encoding plus
/// that of the elements before it.
proof fn lemma_encode_prefix_part(ads: Seq<AdValue>, i: int)
    requires
        0 <= i < ads.len(),
    ensures
        spec_encode_ads(ads).len() >= spec_encode_ads(ads.take(i)).len()
            + spec_encode_ad(ads[i]).len(),
{
    assert(ads =~= ads.take(i) + ads.skip(i));
    lemma_encode_ads_concat(ads.take(i), ads.skip(i));
    assert(ads.skip(i)[0] == ads[i]);
    assert(spec_encode_ads(ads.skip(i)).len() >= spec_encode_ad(ads[i]).len());
}

/// Appending one element appends its encoding.
proof fn lemma_encode_ads_snoc(ads: Seq<AdValue>, ad: AdValue)
    ensures
        spec_encode_ads(ads.push(ad)) == spec_encode_ads(ads) + spec_encode_ad(ad),
{
    assert(ads.push(ad) =~= ads + seq![ad]);
    lemma_encode_ads_concat(ads, seq![ad]);
    assert(seq![ad].drop_first() =~= Seq::<AdValue>::empty());
    assert(spec_encode_ads(Seq::<AdValue>::empty()) =~= Seq::<u8>::empty());
    assert(seq![ad][0] == ad);
    assert(spec_encode_ads(seq![ad]) =~= spec_encode_ad(ad));
}

/// Encodes the given AD elements in order; fails exactly when the encoding
/// would exceed the advertising-data budget of one PDU.
pub fn encode_ads(ads: &Vec<AdStructure>) -> (r: Result<Vec<u8>, ConfigError>)
    ensures
        match r {
            Ok(v) => v@ == spec_encode_ads(ads_model(ads@)) && v@.len() <= MAX_AD_DATA_SIZE,
            Err(_) => spec_encode_ads(ads_model(ads@)).len() > MAX_AD_DATA_SIZE,
        },
{
    let mut out: Vec<u8> = Vec::new();
    let mut i: usize = 0;
    while i < ads.len()
        invariant
            i <= ads.len(),
            out@ == spec_encode_ads(ads_model(ads@.take(i as int))),
            out@.len() <= MAX_AD_DATA_SIZE,
        decreases ads.len() - i,
    {
        let ghost pre = out@;
        let remaining: usize = MAX_AD_DATA_SIZE - out.len();
        match &ads[i] {
            AdStructure::Flags(f) => {
                if remaining < 3 {
                    proof {
                        lemma_encode_prefix_part(ads_model(ads@), i as int);
                        assert(ads_model(ads@).take(i as int) =~= ads_model(ads@.take(i as int)));
                    }
                    return Err(ConfigError::SizeExceeded);
                }
                out.push(2u8);
                out.push(AD_TYPE_FLAGS);
                out.push(f.bits);
                proof {
                    assert(out@ =~= pre + spec_encode_ad(ads@[i as int]@));
                }
            }
            AdStructure::CompleteLocalName(name) => {
                if remaining < 2 || name.len() > remaining - 2 {
                    proof {
                        lemma_encode_prefix_part(ads_model(ads@), i as int);
                        assert(ads_model(ads@).take(i as int) =~= ads_model(ads@.take(i as int)));
                    }
                    return Err(ConfigError::SizeExceeded);
                }
                out.push((name.len() + 1) as u8);
                out.push(AD_TYPE_COMPLETE_LOCAL_NAME);
                let ghost mid = out@;
                let mut j: usize = 0;
                while j < name.len()
                    invariant
                        j <= name.len(),
                        out@ == mid + name@.take(j as int),
                    decreases name.len() - j,
                {
                    out.push(name[j]);
                    proof {
                        assert(mid + name@.take(j as int) + seq![name@[j as int]]
                            =~= mid + name@.take(j as int + 1));
                    }
                    j += 1;
                }
                proof {
                    assert(name@.take(name@.len() as int) =~= name@);
                    assert(out@ =~= pre + spec_encode_ad(ads@[i as int]@));
                }
            }
        }
        proof {
            lemma_encode_ads_snoc(ads_model(ads@.take(i as int)), ads@[i as int]@);
            assert(ads_model(ads@.take(i as int)).push(ads@[i as int]@)
                =~= ads_model(ads@.take(i as int + 1)));
        }
        i += 1;
    }
    proof {
        assert(ads@.take(i as int) =~= ads@);
    }
    Ok(out)
}

/// One parsing step: the element beginning at `i` matches `v` and consumes
/// its length byte plus `data[i]` bytes.
proof fn lemma_decode_step(data: Seq<u8>, i: int, v: AdValue)
    requires
        0 <= i < data.len(),
        1 <= data[i],
        i + 1 + data[i] <= data.len(),
        (data[i + 1] == AD_TYPE_FLAGS && data[i] == 2 && v == AdValue::Flags(data[i + 2]))
            || (data[i + 1] == AD_TYPE_COMPLETE_LOCAL_NAME && data[i + 1] != AD_TYPE_FLAGS
                && v == AdValue::CompleteLocalName(data.subrange(i + 2, i + 1 + data[i]))),
    ensures
        spec_decode_ads(data.skip(i)) == match spec_decode_ads(data.skip(i + 1 + data[i])) {
            Some(rest) => Some(seq![v] + rest),
            None => None::<Seq<AdValue>>,
        },
{
    let s = data.skip(i);
    let len = data[i] as int;
    assert(s[0] == data[i]);
    assert(s[1] == data[i + 1]);
    assert(s.len() == data.len() - i);
    assert(s.subrange(2, 1 + len) =~= data.subrange(i + 2, i + 1 + len));
    assert(s.subrange(1 + len, s.len() as int) =~= data.skip(i + 1 + len));
    if data[i + 1] == AD_TYPE_FLAGS {
        assert(s[2] == data[i + 2]);
    }
}

/// Parses encoded advertising data back into AD elements; `None` exactly
/// when the reference parse rejects the bytes.
pub fn decode_ads(data: &Vec<u8>) -> (r: Option<Vec<AdStructure>>)
    ensures
        match r {
            Some(v) => spec_decode_ads(data@) == Some(ads_model(v@)),
            None => spec_decode_ads(data@) is None,
        },
{
    let mut out: Vec<AdStructure> = Vec::new();
    let mut i: usize = 0;
    proof {
        assert(data@.skip(0) =~= data@);
        match spec_decode_ads(data@) {
            Some(rest) => {
                assert(ads_model(out@) + rest =~= rest);
            }
            None => {}
        }
    }
    while i < data.len()
        invariant
            i <= data.len(),
            spec_decode_ads(data@) == match spec_decode_ads(data@.skip(i as int)) {
                Some(rest) => Some(ads_model(out@) + rest),
                None => None::<Seq<AdValue>>,
            },
        decreases data.len() - i,
    {
        let ghost prev = out@;
        let len_b = data[i];
        let len = len_b as usize;
        if len == 0 {
            return None;
        }
        if data.len() - i < 1 + len {
            return None;
        }
        let typ = data[i + 1];
        if typ == AD_TYPE_FLAGS {
            if len != 2 {
                return None;
            }
            out.push(AdStructure::Flags(Flags { bits: data[i + 2] }));
        } else if typ == AD_TYPE_COMPLETE_LOCAL_NAME {
            let mut name: Vec<u8> = Vec::new();
            let mut j: usize = 0;
            while j < len - 1
                invariant
                    j <= len - 1,
                    len == len_b as usize,
                    len >= 1,
                    i + 1 + len <= data.len(),
                    name@ == data@.subrange(i as int + 2, i as int + 2 + j as int),
                decreases len - 1 - j,
            {
                name.push(data[i + 2 + j]);
                proof {
                    assert(data@.subrange(i as int + 2, i as int + 2 + j as int)
                            + seq![data@[i as int + 2 + j as int]]
                        =~= data@.subrange(i as int + 2, i as int + 2 + j as int + 1));
                }
                j += 1;
            }
            out.push(AdStructure::CompleteLocalName(name));
        } else {
            return None;
        }
        proof {
            let vm = out@.last()@;
            lemma_decode_step(data@, i as int, vm);
            assert(ads_model(out@) =~= ads_model(prev).push(vm));
            match spec_decode_ads(data@.skip(i as int + 1 + len as int)) {
                Some(rest) => {
                    assert(ads_model(prev) + (seq![vm] + rest) =~= ads_model(out@) + rest);
                }
                None => {}
            }
        }
        i += 1 + len;
    }
    proof {
        assert(data@.skip(i as int) =~= Seq::<u8>::empty());
        assert(ads_model(out@) + Seq::<AdValue>::empty() =~= ads_model(out@));
    }
    Some(out)
}

/// Law: encoding then parsing reproduces any sequence of well-formed
/// elements, whatever its total length.
pub proof fn lemma_round_trip_valid(ads: Seq<AdValue>)
    requires
        forall|i: int| 0 <= i < ads.len() ==> ad_valid(#[trigger] ads[i]),
    ensures
        spec_decode_ads(spec_encode_ads(ads)) == Some(ads),
    decreases ads.len(),
{
    if ads.len() == 0 {
    } else {
        lemma_round_trip_valid(ads.drop_first());
        lemma_decode_one(ads[0], spec_encode_ads(ads.drop_first()));
        assert(seq![ads[0]] + ads.drop_first() =~= ads);
    }
}

} // verus!
