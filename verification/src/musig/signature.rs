//! A two-party signature: the pair `(R, s)`, the point and the scalar each
//! as 32 bytes.
use vstd::prelude::*;
use crate::affine::Affine;
use crate::bytes::{le_value, le_bytes};
use crate::curve::{AffinePoint, encode, decodes};
use crate::scalar::Scalar;

verus! {

/// A signature `(R, s)`.
pub struct Signature {
    pub r: [u8; 32],
    pub s: [u8; 32],
}

impl View for Signature {
    type V = (Seq<u8>, Seq<u8>);

    /// The bytes of `R` and the bytes of `s`.
    open spec fn view(&self) -> (Seq<u8>, Seq<u8>) {
        (self.r@, self.s@)
    }
}

impl Signature {
    /// The signature with the given point and scalar.
    pub fn new(r: Affine, s: Scalar) -> (sig: Signature)
        requires
            r.wf(),
            s.wf(),
        ensures
            sig@ == (encode(r@), le_bytes(s@)),
            le_value(sig.s@) == s@,
    {
        Signature { r: r.to_bytes(), s: s.to_bytes() }
    }

    /// The point `R`, or nothing when its bytes encode no point of the
    /// curve.
    pub fn get_r(&self) -> (p: Option<Affine>)
        ensures
            p.is_some() == exists|a: AffinePoint| #[trigger] decodes(le_value(self.r@), a),
            p matches Some(a) ==> a.wf() && decodes(le_value(self.r@), a@) && encode(a@) == self.r@,
    {
        Affine::from_bytes(self.r)
    }

    /// The scalar `s`, or nothing when its bytes stand for `r` or more.
    pub fn get_s(&self) -> (x: Option<Scalar>)
        ensures
            x == Scalar::spec_from_bytes(self.s@),
            x matches Some(v) ==> v.wf() && v@ == le_value(self.s@),
    {
        Scalar::from_bytes(self.s)
    }
}

} // verus!
