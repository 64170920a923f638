//! A Schnorr signature: the pair `(s, e)`, each scalar as 32 bytes.
use vstd::prelude::*;
use crate::bytes::{le_value, le_bytes};
use crate::scalar::Scalar;

verus! {

/// A signature `(s, e)`.
pub struct Signature {
    pub s: [u8; 32],
    pub e: [u8; 32],
}

impl View for Signature {
    type V = (Seq<u8>, Seq<u8>);

    /// The bytes of `s` and the bytes of `e`.
    open spec fn view(&self) -> (Seq<u8>, Seq<u8>) {
        (self.s@, self.e@)
    }
}

impl Signature {
    /// The signature with the given scalars.
    pub fn new(s: Scalar, e: Scalar) -> (r: Signature)
        requires
            s.wf(),
            e.wf(),
        ensures
            r@ == (le_bytes(s@), le_bytes(e@)),
            le_value(r.s@) == s@,
            le_value(r.e@) == e@,
    {
        Signature { s: s.to_bytes(), e: e.to_bytes() }
    }

    /// The scalar `s`, or nothing when its bytes stand for `r` or more.
    pub fn get_s(&self) -> (r: Option<Scalar>)
        ensures
            r == Scalar::spec_from_bytes(self.s@),
            r matches Some(x) ==> x.wf() && x@ == le_value(self.s@),
    {
        Scalar::from_bytes(self.s)
    }

    /// The scalar `e`, or nothing when its bytes stand for `r` or more.
    pub fn get_e(&self) -> (r: Option<Scalar>)
        ensures
            r == Scalar::spec_from_bytes(self.e@),
            r matches Some(x) ==> x.wf() && x@ == le_value(self.e@),
    {
        Scalar::from_bytes(self.e)
    }
}

} // verus!
