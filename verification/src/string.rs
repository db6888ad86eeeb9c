//! A thin string type over the acyclic shared vector.
//!
//! An [`RcString`] is a UTF-8 byte buffer held in one allocation of a
//! private acyclic store, abstracted as the sequence of characters it
//! encodes.  Characters pushed onto it are encoded by a verified UTF-8
//! encoder; only the final conversion back to a [`String`] relies on the
//! standard library's decoder.

use vstd::prelude::*;

use crate::counter::AcyclicCounter;
use crate::store::Store;
use crate::vecs::AcycVec;
use vstd::string::StringSliceAdditionalSpecFns;
use vstd::string::StrSliceExecFns;
use vstd::utf8::decode_utf8;
use vstd::utf8::encode_scalar;
use vstd::utf8::encode_utf8;
use vstd::utf8::valid_utf8;

verus! {

broadcast use vstd::utf8::group_utf8_lib;

/// The UTF-8 encoding of a concatenation is the concatenation of the
/// encodings.
proof fn lemma_encode_utf8_app(a: Seq<char>, b: Seq<char>)
    ensures
        encode_utf8(a + b) == encode_utf8(a) + encode_utf8(b),
    decreases a.len(),
{
    if a.len() == 0 {
        assert(a + b =~= b);
        assert(encode_utf8(a) + encode_utf8(b) =~= encode_utf8(b));
    } else {
        assert((a + b).drop_first() =~= a.drop_first() + b);
        lemma_encode_utf8_app(a.drop_first(), b);
        assert(encode_utf8(a) + encode_utf8(b) =~= encode_scalar(a[0] as u32) + (encode_utf8(
            a.drop_first(),
        ) + encode_utf8(b)));
    }
}

/// The UTF-8 encoding of one character, computed exactly as the
/// specification [`encode_scalar`] describes it.
fn encode_char(c: char) -> (r: Vec<u8>)
    ensures
        r@ == encode_scalar(c as u32),
{
    let u: u32 = c as u32;
    let mut r: Vec<u8> = Vec::new();
    if u <= 0x7F {
        r.push((u & 0x7F) as u8);
    } else if u <= 0x7FF {
        r.push(0xC0 | ((u >> 6) & 0x1F) as u8);
        r.push(0x80 | (u & 0x3F) as u8);
    } else if u <= 0xFFFF {
        r.push(0xE0 | ((u >> 12) & 0x0F) as u8);
        r.push(0x80 | ((u >> 6) & 0x3F) as u8);
        r.push(0x80 | (u & 0x3F) as u8);
    } else {
        r.push(0xF0 | ((u >> 18) & 0x7) as u8);
        r.push(0x80 | ((u >> 12) & 0x3F) as u8);
        r.push(0x80 | ((u >> 6) & 0x3F) as u8);
        r.push(0x80 | (u & 0x3F) as u8);
    }
    proof {
        assert(r@ =~= encode_scalar(u));
    }
    r
}

/// Relies on `String::from_utf8`: a byte vector that is valid UTF-8
/// decodes to exactly the character sequence it encodes.
#[verifier::external_body]
fn bytes_to_string(v: Vec<u8>) -> (r: String)
    requires
        valid_utf8(v@),
    ensures
        r@ == decode_utf8(v@),
{
    match String::from_utf8(v) {
        Ok(s) => s,
        Err(_) => String::new(),
    }
}

/// The characters of a sequence of strings, in order.
pub open spec fn concat_view(parts: Seq<RcString>) -> Seq<char>
    decreases parts.len(),
{
    if parts.len() == 0 {
        Seq::empty()
    } else {
        concat_view(parts.drop_last()) + parts.last()@
    }
}

/// A growable string: a byte-buffer wrapper over one instantiation of
/// the shared-vector engine, abstracted as a sequence of characters.
pub struct RcString {
    store: Store<AcyclicCounter, u8>,
    base: AcycVec<u8>,
    chars: Ghost<Seq<char>>,
}

impl View for RcString {
    type V = Seq<char>;

    closed spec fn view(&self) -> Seq<char> {
        self.chars@
    }
}

impl RcString {
    /// The string's byte buffer is one live allocation of its private
    /// store and holds exactly the UTF-8 encoding of its characters.
    pub closed spec fn wf(self) -> bool {
        &&& self.store.wf()
        &&& self.base.valid(self.store)
        &&& self.base.data(self.store) == encode_utf8(self.chars@)
    }

    /// An empty string.
    pub fn new() -> (s: Self)
        ensures
            s.wf(),
            s@ == Seq::<char>::empty(),
    {
        let mut st = Store::new();
        let base = AcycVec::from_vec(&mut st, Vec::new());
        proof {
            assert(encode_utf8(Seq::<char>::empty()) =~= Seq::<u8>::empty());
        }
        RcString { store: st, base, chars: Ghost(Seq::empty()) }
    }

    /// A string holding the characters of a string slice.
    pub fn from_str(src: &str) -> (s: Self)
        ensures
            s.wf(),
            s@ == src@,
    {
        let mut st = Store::new();
        let bytes = src.as_bytes_vec();
        let base = AcycVec::from_vec(&mut st, bytes);
        RcString { store: st, base, chars: Ghost(src@) }
    }

    /// Append one character.
    pub fn push(&mut self, c: char)
        requires
            old(self).wf(),
        ensures
            final(self).wf(),
            final(self)@ == old(self)@.push(c),
    {
        let bytes = encode_char(c);
        self.base.extend_from_slice(&mut self.store, bytes.as_slice());
        proof {
            lemma_encode_utf8_app(self.chars@, seq![c]);
            assert(encode_utf8(seq![c]) =~= encode_scalar(c as u32)) by {
                assert(seq![c].drop_first() =~= Seq::<char>::empty());
                assert(encode_scalar(c as u32) + encode_utf8(Seq::<char>::empty())
                    =~= encode_scalar(c as u32));
            }
            assert(old(self)@.push(c) =~= self.chars@ + seq![c]);
        }
        self.chars = Ghost(self.chars@ + seq![c]);
    }

    /// Append the characters of a string slice.
    pub fn push_str(&mut self, src: &str)
        requires
            old(self).wf(),
        ensures
            final(self).wf(),
            final(self)@ == old(self)@ + src@,
    {
        let bytes = src.as_bytes_vec();
        self.base.extend_from_slice(&mut self.store, bytes.as_slice());
        proof {
            lemma_encode_utf8_app(self.chars@, src@);
        }
        self.chars = Ghost(self.chars@ + src@);
    }

    /// Append the characters of another string.
    pub fn append(&mut self, other: &RcString)
        requires
            old(self).wf(),
            other.wf(),
        ensures
            final(self).wf(),
            final(self)@ == old(self)@ + other@,
    {
        let bytes = other.base.to_vec(&other.store);
        self.base.extend_from_slice(&mut self.store, bytes.as_slice());
        proof {
            lemma_encode_utf8_app(self.chars@, other.chars@);
        }
        self.chars = Ghost(self.chars@ + other.chars@);
    }

    /// The concatenation of a sequence of strings, in order.
    pub fn concat_all(parts: &Vec<RcString>) -> (s: Self)
        requires
            forall|i: int| 0 <= i < parts@.len() ==> (#[trigger] parts@[i]).wf(),
        ensures
            s.wf(),
            s@ == concat_view(parts@),
    {
        let mut s = Self::new();
        let mut k: usize = 0;
        while k < parts.len()
            invariant
                k <= parts@.len(),
                forall|i: int| 0 <= i < parts@.len() ==> (#[trigger] parts@[i]).wf(),
                s.wf(),
                s@ == concat_view(parts@.take(k as int)),
            decreases parts@.len() - k,
        {
            s.append(&parts[k]);
            k = k + 1;
            proof {
                assert(parts@.take(k as int).drop_last() =~= parts@.take(k as int - 1));
            }
        }
        proof {
            assert(parts@.take(parts@.len() as int) =~= parts@);
        }
        s
    }

    /// An independent string holding the same characters in a fresh
    /// allocation.
    pub fn duplicate(&self) -> (s: Self)
        requires
            self.wf(),
        ensures
            s.wf(),
            s@ == self@,
    {
        let bytes = self.base.to_vec(&self.store);
        let mut st = Store::new();
        let base = AcycVec::from_vec(&mut st, bytes);
        RcString { store: st, base, chars: Ghost(self.chars@) }
    }

    /// How many bytes the UTF-8 encoding of the string occupies.
    pub fn byte_len(&self) -> (n: usize)
        requires
            self.wf(),
        ensures
            n == encode_utf8(self@).len(),
    {
        self.base.len(&self.store)
    }

    /// The characters as an owned standard string.
    pub fn to_string(&self) -> (r: String)
        requires
            self.wf(),
        ensures
            r@ == self@,
    {
        let bytes = self.base.to_vec(&self.store);
        bytes_to_string(bytes)
    }
}

} // verus!
