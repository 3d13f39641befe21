//! The access point's network name: a bounded string of at most 32 bytes,
//! held in a fixed-capacity `heapless` string as the radio configuration
//! expects it. The library restricts it to ASCII so that its byte-level
//! model is exact.

use vstd::prelude::*;

verus! {

/// A fixed-capacity string of the `heapless` crate, capacity 32 bytes.
/// Verus sees it only through `ssid_buf_bytes` and the functions below.
#[verifier::external_body]
pub struct SsidBuf {
    inner: heapless::String<32>,
}

/// The bytes held by the fixed-capacity string.
pub uninterp spec fn ssid_buf_bytes(s: SsidBuf) -> Seq<u8>;

/// Relies on heapless::String::new: a fresh string holds nothing.
#[verifier::external_body]
fn ssid_buf_new() -> (r: SsidBuf)
    ensures
        ssid_buf_bytes(r) == Seq::<u8>::empty(),
{
    SsidBuf { inner: heapless::String::new() }
}

/// Relies on heapless::String::push: a one-byte character is appended
/// exactly when a byte of the 32-byte capacity is free, and the string is
/// unchanged otherwise.
#[verifier::external_body]
fn ssid_buf_push_ascii(s: &mut SsidBuf, b: u8) -> (r: Result<(), ()>)
    requires
        b < 128,
    ensures
        r is Ok <==> ssid_buf_bytes(*old(s)).len() < 32,
        r is Ok ==> ssid_buf_bytes(*final(s)) == ssid_buf_bytes(*old(s)).push(b),
        r !is Ok ==> *final(s) == *old(s),
{
    s.inner.push(b as char).map_err(|_| ())
}

/// Relies on heapless::String::as_str: the string's own bytes, copied out.
#[verifier::external_body]
fn ssid_buf_to_bytes(s: &SsidBuf) -> (r: Vec<u8>)
    ensures
        r@ == ssid_buf_bytes(*s),
{
    s.inner.as_str().as_bytes().to_vec()
}

/// A network name of at most 32 ASCII bytes. Its view is the byte sequence
/// it holds.
pub struct Ssid {
    buf: SsidBuf,
}

impl View for Ssid {
    type V = Seq<u8>;

    closed spec fn view(&self) -> Seq<u8> {
        ssid_buf_bytes(self.buf)
    }
}

impl Ssid {
    /// Every byte is ASCII and the whole name fits the radio's 32-byte
    /// limit.
    pub open spec fn wf(&self) -> bool {
        self@.len() <= 32 && forall|i: int| 0 <= i < self@.len() ==> self@[i] < 128
    }

    /// Build a network name from its bytes. Succeeds exactly on ASCII input
    /// of at most 32 bytes, and then holds exactly those bytes.
    pub fn from_bytes(v: &Vec<u8>) -> (r: Option<Ssid>)
        ensures
            r is Some <==> v@.len() <= 32 && (forall|i: int| 0 <= i < v@.len() ==> v@[i] < 128),
            r matches Some(s) ==> s@ == v@ && s.wf(),
    {
        if v.len() > 32 {
            return None;
        }
        let mut buf = ssid_buf_new();
        proof {
            assert(ssid_buf_bytes(buf) =~= v@.subrange(0, 0));
        }
        let mut i: usize = 0;
        while i < v.len()
            invariant
                i <= v@.len() <= 32,
                ssid_buf_bytes(buf) == v@.subrange(0, i as int),
                forall|j: int| 0 <= j < i ==> v@[j] < 128,
            decreases v@.len() - i,
        {
            let b = v[i];
            if b >= 128 {
                return None;
            }
            let pushed = ssid_buf_push_ascii(&mut buf, b);
            match pushed {
                Ok(()) => (),
                Err(()) => {
                    proof {
                        assert(false);
                    }
                },
            }
            proof {
                assert(ssid_buf_bytes(buf) =~= v@.subrange(0, i as int + 1));
            }
            i += 1;
        }
        proof {
            assert(ssid_buf_bytes(buf) =~= v@);
        }
        Some(Ssid { buf })
    }

    /// The number of bytes in the name.
    pub fn len(&self) -> (n: usize)
        ensures
            n == self@.len(),
    {
        let bytes = ssid_buf_to_bytes(&self.buf);
        bytes.len()
    }

    /// The bytes of the name, copied out.
    pub fn to_bytes(&self) -> (r: Vec<u8>)
        ensures
            r@ == self@,
    {
        ssid_buf_to_bytes(&self.buf)
    }
}

} // verus!
