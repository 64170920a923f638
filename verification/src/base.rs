//! The base field of the curve: integers modulo the prime `q`, held in
//! Montgomery form.
use vstd::prelude::*;
use vstd::arithmetic::div_mod::{lemma_mod_bound, lemma_small_mod};
use vstd::arithmetic::power::{lemma_pow0, lemma_pow1};
use vstd::arithmetic::power2::{pow2, lemma2_to64, lemma_pow2, lemma_pow2_pos};
use crate::bits::{bit_at, lemma_prefix_step, lemma_no_high_bits};
use crate::bytes::{le_value, le_bytes, le_value_wide, load_limbs, limbs_bytes};
use crate::limbs::{
    limbs4, limbs_of, lemma_limbs_of, lemma_limbs_unique, montgomery_ready, sub_limbs,
    little_fermat,
};
use crate::primes::lemma_chain_square;
use crate::roots::{is_square, tower, search_open, search_closed, scan};
use crate::modular::{
    radix, mont_reduce, mont_form, add_mod, sub_mod, mul_mod, neg_mod, pow_mod,
    lemma_radix_is_pow2, lemma_form_of_reduce, lemma_reduce_of_form, lemma_mont_reduce_sum,
    lemma_mont_reduce_difference, lemma_mont_reduce_product, lemma_mont_reduce_one,
    lemma_lift_then_reduce, lemma_wide_reduce,
};

verus! {

/// The modulus `q`.
pub const MODULUS: [u64; 4] = [
    0xffffffff00000001,
    0x53bda402fffe5bfe,
    0x3339d80809a1d805,
    0x73eda753299d7d48,
];

/// The radix modulo `q`: the Montgomery form of one.
pub const R: [u64; 4] = [
    0x00000001fffffffe,
    0x5884b7fa00034802,
    0x998c4fefecbc4ff5,
    0x1824b159acc5056f,
];

/// The second power of the radix modulo `q`.
pub const R2: [u64; 4] = [
    0xc999e990f3f29c6d,
    0x2b6cedcb87925c23,
    0x05d314967254398f,
    0x0748d9d99f59ff11,
];

/// The third power of the radix modulo `q`.
pub const R3: [u64; 4] = [
    0xc62c1807439b73af,
    0x1b3e0d188cf06990,
    0x73d13c71c7b5f418,
    0x6e2a5bb9c8db33e9,
];

/// The negated inverse of `q` modulo the word size.
pub const INV: u64 = 0xfffffffeffffffff;

/// The two-adicity of `q - 1`: `q - 1` is `2^32` times an odd number.
pub const S: u32 = 32;

/// A root of unity of order `2^32`, in Montgomery form.
pub const ROOT_OF_UNITY: [u64; 4] = [
    0xb9b58d8c5f0e466a,
    0x5b1b4c801819d7ec,
    0x0af53ae352a31e64,
    0x5bf3adda19e9b27b,
];

/// Half of the odd part of `q - 1`, rounded down.
pub const HALF_ODD_PART: [u64; 4] = [
    0x7fff2dff7fffffff,
    0x04d0ec02a9ded201,
    0x94cebea4199cec04,
    0x0000000039f6d3a9,
];

/// The prime `q`.
pub open spec fn q() -> int {
    0x73eda753299d7d483339d80809a1d80553bda402fffe5bfeffffffff00000001int
}

/// The constants are what their names say.
pub proof fn lemma_constants()
    ensures
        limbs4(MODULUS) == q(),
        montgomery_ready(MODULUS, INV),
        q() % 2 == 1,
        limbs4(R) == radix() % q(),
        limbs4(R2) == (radix() * radix()) % q(),
        limbs4(R3) == (radix() * radix() * radix()) % q(),
{
    assert(limbs4(MODULUS) == q());
    assert(limbs4(R) == 0x1824b159acc5056f998c4fefecbc4ff55884b7fa0003480200000001fffffffeint);
    assert(limbs4(R2) == 0x0748d9d99f59ff1105d314967254398f2b6cedcb87925c23c999e990f3f29c6dint);
    assert(limbs4(R3) == 0x6e2a5bb9c8db33e973d13c71c7b5f4181b3e0d188cf06990c62c1807439b73afint);
}

/// Limbs that hold the Montgomery form of `raw` make the element that
/// stands for `raw`.
pub proof fn lemma_constant(limbs: [u64; 4], raw: int)
    requires
        0 <= raw < q(),
        limbs4(limbs) == (raw * radix()) % q(),
    ensures
        Base(limbs).wf(),
        Base(limbs)@ == raw,
{
    lemma_mod_bound(raw * radix(), q());
    lemma_small_mod(limbs4(limbs) as nat, q() as nat);
    crate::modular::lemma_mont_reduce_unique(raw, limbs4(limbs), q());
}

/// The root of unity that the search for square roots starts from, as an
/// integer.
pub open spec fn root_of_unity() -> int {
    0x16a2a19edfe81f20d09b681922c813b4b63683508c2280b93829971f439f0d2bint
}

/// The odd part of `q - 1`: `q - 1` is `2^32` times this.
pub open spec fn odd_part() -> int {
    0x73eda753299d7d483339d80809a1d80553bda402fffe5bfeffffffffint
}

/// The root of unity has the order `2^32`: squared 31 times it is minus
/// one.
pub proof fn lemma_root_of_unity()
    ensures
        Base(ROOT_OF_UNITY).wf(),
        Base(ROOT_OF_UNITY)@ == root_of_unity(),
        tower(root_of_unity(), 31, q()) == q() - 1,
{
    lemma_constant(ROOT_OF_UNITY, root_of_unity());
    let p = q();
    let g = root_of_unity();
    lemma_pow1(g);
    lemma_small_mod(g as nat, p as nat);
    let e: nat = 1;
    assert(pow_mod(g, e, p) == g);
    let e = lemma_chain_square(p, g, e, 0x16a2a19edfe81f20d09b681922c813b4b63683508c2280b93829971f439f0d2bint, 0x46b6a531156833f2ec469fcaf1ad016c0ac8ff8fe9b35ff8ee05ed0d7179bfaint, 0x4b5371495990693fad1715b02e5713b5f070bb00e28a193d63e7cb4906ffc93fint);
    let e = lemma_chain_square(p, g, e, 0x4b5371495990693fad1715b02e5713b5f070bb00e28a193d63e7cb4906ffc93fint, 0x30f1ab1595c2d2f989fb50964a7330fca73e88614457bfab9c968b2474ec202bint, 0x2c6d4e4511657e1e1339a815da8b398fed3a181fabb30adc694341f608c9dd56int);
    let e = lemma_chain_square(p, g, e, 0x2c6d4e4511657e1e1339a815da8b398fed3a181fabb30adc694341f608c9dd56int, 0x110691833f37afdebb20c8e046d2b3e6decaddee100e33d6994171de12db77c9int, 0xc83ea7744bf1bee8da40c1ef2bb459884d37b826214abc6474650359d8e211bint);
    let e = lemma_chain_square(p, g, e, 0xc83ea7744bf1bee8da40c1ef2bb459884d37b826214abc6474650359d8e211bint, 0x159e2bf6a5370d130211f45b03eac7387e0a96213c5fb1b817c887ed1ecd850int, 0x52dd465e2f09425699e276b571905a7d6558e9e3f6ac7b41d7b688830a4f2089int);
    let e = lemma_chain_square(p, g, e, 0x52dd465e2f09425699e276b571905a7d6558e9e3f6ac7b41d7b688830a4f2089int, 0x3b3b06a28b2a02bf5a5e6c922e12eda976394d9d1a2eff104b9feb132dad6f64int, 0x23397a9300f8f98bece8ea224f31d25db94f1101b1d7a628e2d0a7869f0319edint);
    let e = lemma_chain_square(p, g, e, 0x23397a9300f8f98bece8ea224f31d25db94f1101b1d7a628e2d0a7869f0319edint, 0xab3f0119626603c452151d90394c5fe5f63d733517d87cc5933f6a03156d3e7int, 0xa0a77a3b1980c0d116168bffbedc11d02c8118402867ddc531a11a0d2d75182int);
    let e = lemma_chain_square(p, g, e, 0xa0a77a3b1980c0d116168bffbedc11d02c8118402867ddc531a11a0d2d75182int, 0xdea2b6fae4c13adeb5ceea0db4ad434f85d64802013a04dc120eb4fc3de0e6int, 0x19fe632fd3287390454dc1edc61a1a3c0ba12bb3da64ca5ce32ef844e11a51eint);
    let e = lemma_chain_square(p, g, e, 0x19fe632fd3287390454dc1edc61a1a3c0ba12bb3da64ca5ce32ef844e11a51eint, 0x5d40fa3da1bdb3e982d8325993408e8d10daae5d0d25fe9f5f6c228be37e8int, 0x291cf6d68823e6876e0bcd91ee76273072cf6a8029b7d7bc92cf4deb77bd779cint);
    let e = lemma_chain_square(p, g, e, 0x291cf6d68823e6876e0bcd91ee76273072cf6a8029b7d7bc92cf4deb77bd779cint, 0xe949a21ffecedd8a6ebeda0253d24770c6475e7105136d20b4e24b8fb4dc862int, 0x73560252aa0655b25121af06a3b51e3cc631ffb2585a72db5616c57de0ec9eaeint);
    let e = lemma_chain_square(p, g, e, 0x73560252aa0655b25121af06a3b51e3cc631ffb2585a72db5616c57de0ec9eaeint, 0x72bf23af7a589fbb742d2d81ca32150255935a678663bc32c2871632c29d0ae1int, 0xabe6a5e5abcaa32f2d38f10fbb8d1bbe08fec7c86389beec6e7a6ffb08e3363int);
    let e = lemma_chain_square(p, g, e, 0xabe6a5e5abcaa32f2d38f10fbb8d1bbe08fec7c86389beec6e7a6ffb08e3363int, 0xfee5fb5d0ea236f1b501ec83e593c87e931ac7e47af231b20917dbfee5f80fint, 0x47c8b5817018af4fc70d0874b0691d4e46b3105f04db5844cd3979122d3ea03aint);
    let e = lemma_chain_square(p, g, e, 0x47c8b5817018af4fc70d0874b0691d4e46b3105f04db5844cd3979122d3ea03aint, 0x2c730c3140a37a7f3f53fcbdea18424e87b457e70cd38cf80220f1992ad6ffd9int, 0x3e1c54bcb947035a57a6e07cb98de4a2f69e02d265e09d9fece7e0e39898d4bint);
    let e = lemma_chain_square(p, g, e, 0x3e1c54bcb947035a57a6e07cb98de4a2f69e02d265e09d9fece7e0e39898d4bint, 0x2146e2a0b8e0de7288868eee118eaaab19d42369bf1a60e0036d01018e265cint, 0x520e587a724a6955df625e80d0adef90ad8e16e84419c750194e8c62ecb38d9dint);
    let e = lemma_chain_square(p, g, e, 0x520e587a724a6955df625e80d0adef90ad8e16e84419c750194e8c62ecb38d9dint, 0x3a14a5a3be2166a2bb8b08bf05a97855021e83cee04f46af3e8f720d40eddd4eint, 0x2d3056a530794f01652f717ae1c34bb0bb97a3bf30ce40fd6f421a7d8ef674fbint);
    let e = lemma_chain_square(p, g, e, 0x2d3056a530794f01652f717ae1c34bb0bb97a3bf30ce40fd6f421a7d8ef674fbint, 0x119d5585e49aad5f9259d189b881bf07e02bc04bae10b9fb776bcb2c88215f09int, 0x224262332d8acbf4473a2eef772c33d6cd7f2bd6d0711b7d08692405f3b70f10int);
    let e = lemma_chain_square(p, g, e, 0x224262332d8acbf4473a2eef772c33d6cd7f2bd6d0711b7d08692405f3b70f10int, 0xa1fd62a66e50b750997f40fc9e83eea0500b811d36d501789a2b8ec1c2c2853int, 0x2155379d12180caa88f39a78f1aeb57867a665ae1fcadc91d7118f85cd96b8adint);
    let e = lemma_chain_square(p, g, e, 0x2155379d12180caa88f39a78f1aeb57867a665ae1fcadc91d7118f85cd96b8adint, 0x9958e6f287860573c01eaa5568342998d1392b9d3fcdc8db6ad07ddef7b697bint, 0x3291357ee558b50d483405417a0cbe39c8d5f51db3f32699fbd047e11279bb6eint);
    let e = lemma_chain_square(p, g, e, 0x3291357ee558b50d483405417a0cbe39c8d5f51db3f32699fbd047e11279bb6eint, 0x160e9ebe700aee0e8574c66da309cd89d6ed44211ce409304995ad0b04db0963int, 0x56624634b500a166dc86b01c0d477fa6ae4622f6a9152435034d2ff22a5ad9e1int);
    let e = lemma_chain_square(p, g, e, 0x56624634b500a166dc86b01c0d477fa6ae4622f6a9152435034d2ff22a5ad9e1int, 0x405e6df92310b5afd19ea62edd2f1b3fc5abdf7db6a963f5565a28b9f816ae5aint, 0x485d512737b1da3d2ccddea2972e89ed146b58bc434906ac6fdd00bfc78c8967int);
    let e = lemma_chain_square(p, g, e, 0x485d512737b1da3d2ccddea2972e89ed146b58bc434906ac6fdd00bfc78c8967int, 0x2d2bd4bacd6e3f84defbd926f073f958e1d4245c641a3b8419a3fcd00e94046bint, 0x564c0a11a0f704f4fc3e8acfe0f8245f0ad1347b378fbf96e206da11a5d36306int);
    let e = lemma_chain_square(p, g, e, 0x564c0a11a0f704f4fc3e8acfe0f8245f0ad1347b378fbf96e206da11a5d36306int, 0x403d4f41dc6a8cda3cf38f8e270787fdc5640c7098f15d5c2c4c29dfc4642a3fint, 0x6d031f1b5c49c83409f1ca610a08f16655ea6811be9c622d4a838b5d59cd79e5int);
    let e = lemma_chain_square(p, g, e, 0x6d031f1b5c49c83409f1ca610a08f16655ea6811be9c622d4a838b5d59cd79e5int, 0x668237981ad07340e3bec76b2e667c1f236eb1410dc3572970685a2e07096e85int, 0x325db5c3debf77a18f4de02c0f776af3ea437f9626fc085e3c28d666a5c2d854int);
    let e = lemma_chain_square(p, g, e, 0x325db5c3debf77a18f4de02c0f776af3ea437f9626fc085e3c28d666a5c2d854int, 0x15e1c84c3f26c9b1e00eae02d90a05e7542a1f75ba7e56e4a881715baf3d9842int, 0x95166525526a65439feec240d80689fd697168a3a6000fe4541b8ff2ee0434eint);
    let e = lemma_chain_square(p, g, e, 0x95166525526a65439feec240d80689fd697168a3a6000fe4541b8ff2ee0434eint, 0xbfbb2ef2ee09fe34f8f27564be4b574bb19a28a01c91801d34575360b28279int, 0x4f9b4098e2e9f12e6b368121ac0cf4ad0a0865a899e8deff4935bd2f817f694bint);
    let e = lemma_chain_square(p, g, e, 0x4f9b4098e2e9f12e6b368121ac0cf4ad0a0865a899e8deff4935bd2f817f694bint, 0x36aa29c22b40321ba61b5f8d4f77795c110acbf388c9e1c8d157c28ad3b7763bint, 0x6898111413588742b7c68b4d7fdd60d098d0caac87f5713c5130c2c1660125beint);
    let e = lemma_chain_square(p, g, e, 0x6898111413588742b7c68b4d7fdd60d098d0caac87f5713c5130c2c1660125beint, 0x5e5e2b110231c03083ccd5493c04a498ead16b7e63ad3a7f5df5850ec8628ab1int, 0x45af6345ec055e4d14a1e27164d8fdbd2d967f4be2f951558140d032f0a9ee53int);
    let e = lemma_chain_square(p, g, e, 0x45af6345ec055e4d14a1e27164d8fdbd2d967f4be2f951558140d032f0a9ee53int, 0x29e358a60746b7fbcb35f71de474d1454e6ba9a6ad4648a255653715b40a8f9bint, 0x50e0903a157988bab4bcd40e22f55448bf6e88fb4c38fb8a360c60997369df4eint);
    let e = lemma_chain_square(p, g, e, 0x50e0903a157988bab4bcd40e22f55448bf6e88fb4c38fb8a360c60997369df4eint, 0x386c80aaeff17f5277bec07697315a9256acbcf5e7689d06a0f792c28d823ef6int, 0x20b1ce9140267af9dd1c0af834cec32c17beb312f20b6f7653ea61d87742bcceint);
    let e = lemma_chain_square(p, g, e, 0x20b1ce9140267af9dd1c0af834cec32c17beb312f20b6f7653ea61d87742bcceint, 0x9387c422d7cefe2c20eb21442545c8638ea24eb341e34ae27b3cda3d202f64aint, 0x345766f603fa66e78c0625cd70d77ce2b38b21c28713b7007228fd3397743f7aint);
    let e = lemma_chain_square(p, g, e, 0x345766f603fa66e78c0625cd70d77ce2b38b21c28713b7007228fd3397743f7aint, 0x17a1cdc048cdb1278454e23dc04aaf593e9344a7a37aaf2d77cf0c6b824d4624int, 0x8d51ccce760304d0ec030002760300000001000000000000int);
    let e = lemma_chain_square(p, g, e, 0x8d51ccce760304d0ec030002760300000001000000000000int, 0xac45a4010001a4020000000100000000int, 0x73eda753299d7d483339d80809a1d80553bda402fffe5bfeffffffff00000000int);
    lemma2_to64();
}

/// An element of the base field. The limbs hold the Montgomery form of the
/// element: its value times the radix, modulo `q`.
#[derive(Clone, Copy, Debug)]
pub struct Base(pub [u64; 4]);

impl View for Base {
    type V = int;

    /// The integer in `[0, q)` that the element stands for.
    open spec fn view(&self) -> int {
        mont_reduce(limbs4(self.0), q())
    }
}

impl PartialEq for Base {
    fn eq(&self, other: &Self) -> (r: bool) {
        let r = self.0[0] == other.0[0] && self.0[1] == other.0[1] && self.0[2] == other.0[2]
            && self.0[3] == other.0[3];
        proof {
            if r {
                assert(self.0 =~= other.0);
            }
        }
        r
    }
}

impl vstd::std_specs::cmp::PartialEqSpecImpl for Base {
    open spec fn obeys_eq_spec() -> bool {
        true
    }

    open spec fn eq_spec(&self, other: &Self) -> bool {
        *self == *other
    }
}

impl Eq for Base {

}

impl core::ops::Add for Base {
    type Output = Base;

    fn add(self, rhs: Base) -> (r: Base) {
        Base::add(self, rhs)
    }
}

impl vstd::std_specs::ops::AddSpecImpl for Base {
    open spec fn obeys_add_spec() -> bool {
        true
    }

    open spec fn add_req(self, rhs: Base) -> bool {
        self.wf() && rhs.wf()
    }

    open spec fn add_spec(self, rhs: Base) -> Base {
        self.spec_add(rhs)
    }
}

impl core::ops::Sub for Base {
    type Output = Base;

    fn sub(self, rhs: Base) -> (r: Base) {
        Base::sub(self, rhs)
    }
}

impl vstd::std_specs::ops::SubSpecImpl for Base {
    open spec fn obeys_sub_spec() -> bool {
        true
    }

    open spec fn sub_req(self, rhs: Base) -> bool {
        self.wf() && rhs.wf()
    }

    open spec fn sub_spec(self, rhs: Base) -> Base {
        self.spec_sub(rhs)
    }
}

impl core::ops::Mul for Base {
    type Output = Base;

    fn mul(self, rhs: Base) -> (r: Base) {
        Base::mul(self, rhs)
    }
}

impl vstd::std_specs::ops::MulSpecImpl for Base {
    open spec fn obeys_mul_spec() -> bool {
        true
    }

    open spec fn mul_req(self, rhs: Base) -> bool {
        self.wf() && rhs.wf()
    }

    open spec fn mul_spec(self, rhs: Base) -> Base {
        self.spec_mul(rhs)
    }
}

impl core::ops::Neg for Base {
    type Output = Base;

    fn neg(self) -> (r: Base) {
        Base::neg(self)
    }
}

impl vstd::std_specs::ops::NegSpecImpl for Base {
    open spec fn obeys_neg_spec() -> bool {
        true
    }

    open spec fn neg_req(self) -> bool {
        self.wf()
    }

    open spec fn neg_spec(self) -> Base {
        self.spec_neg()
    }
}

impl Base {
    /// The limbs are reduced: they stand for a residue modulo `q`.
    pub open spec fn wf(self) -> bool {
        limbs4(self.0) < q()
    }

    /// The element that stands for the integer `v`.
    pub open spec fn from_value(v: int) -> Base {
        Base(limbs_of(mont_form(v, q())))
    }

    /// The element of a residue is well formed and stands for it.
    pub proof fn lemma_from_value(v: int)
        requires
            0 <= v < q(),
        ensures
            Base::from_value(v).wf(),
            Base::from_value(v)@ == v,
    {
        lemma_mod_bound(v * radix(), q());
        lemma_limbs_of(mont_form(v, q()));
        lemma_reduce_of_form(v, q());
        lemma_small_mod(v as nat, q() as nat);
    }

    /// A well-formed element stands for a residue and is determined by it.
    pub proof fn lemma_wf(self)
        requires
            self.wf(),
        ensures
            0 <= self@ < q(),
            self == Base::from_value(self@),
    {
        lemma_limbs_unique(self.0);
        lemma_form_of_reduce(limbs4(self.0), q());
    }

    /// A well-formed element stands for a residue.
    pub proof fn lemma_residue(self)
        requires
            self.wf(),
        ensures
            0 <= self@ < q(),
    {
        self.lemma_wf();
    }

    /// Well-formed elements that stand for the same integer are equal.
    pub proof fn lemma_equal_values(self, other: Base)
        requires
            self.wf(),
            other.wf(),
            self@ == other@,
        ensures
            self == other,
    {
        self.lemma_wf();
        other.lemma_wf();
    }

    /// What `to_mont` returns.
    pub open spec fn spec_to_mont(raw: [u64; 4]) -> Base {
        Base::from_value(limbs4(raw) % q())
    }

    /// What `to_raw` returns.
    pub open spec fn spec_to_raw(self) -> [u64; 4] {
        limbs_of(self@)
    }

    /// What `add` returns.
    pub open spec fn spec_add(self, rhs: Base) -> Base {
        Base::from_value(add_mod(self@, rhs@, q()))
    }

    /// What `sub` returns.
    pub open spec fn spec_sub(self, rhs: Base) -> Base {
        Base::from_value(sub_mod(self@, rhs@, q()))
    }

    /// What `mul` returns.
    pub open spec fn spec_mul(self, rhs: Base) -> Base {
        Base::from_value(mul_mod(self@, rhs@, q()))
    }

    /// What `neg` returns.
    pub open spec fn spec_neg(self) -> Base {
        Base::from_value(neg_mod(self@, q()))
    }

    /// What `double` returns.
    pub open spec fn spec_double(self) -> Base {
        Base::from_value(mul_mod(2, self@, q()))
    }

    /// What `square` returns.
    pub open spec fn spec_square(self) -> Base {
        Base::from_value(mul_mod(self@, self@, q()))
    }

    /// What `pow_vartime` returns.
    pub open spec fn spec_pow(self, by: [u64; 4]) -> Base {
        Base::from_value(pow_mod(self@, limbs4(by) as nat, q()))
    }

    /// What `invert` returns: nothing for zero, and otherwise the power
    /// `q - 2`.
    pub open spec fn spec_invert(self) -> Option<Base> {
        if self@ == 0 {
            None
        } else {
            Some(Base::from_value(pow_mod(self@, (q() - 2) as nat, q())))
        }
    }

    /// What `from_bytes` returns: the element that the bytes stand for, or
    /// nothing when they stand for `q` or more.
    pub open spec fn spec_from_bytes(bytes: Seq<u8>) -> Option<Base> {
        if le_value(bytes) < q() {
            Some(Base::from_value(le_value(bytes)))
        } else {
            None
        }
    }

    /// What `from_bytes_wide` returns.
    pub open spec fn spec_from_bytes_wide(bytes: Seq<u8>) -> Base {
        Base::from_value(le_value_wide(bytes) % q())
    }

    /// Going to raw limbs and back into the field gives the element back.
    pub proof fn lemma_raw_round_trip(self)
        requires
            self.wf(),
        ensures
            Base::spec_to_mont(self.spec_to_raw()) == self,
    {
        self.lemma_wf();
        lemma_limbs_of(self@);
        lemma_small_mod(self@ as nat, q() as nat);
    }

    /// Decoding the bytes that an element encodes to gives the element back.
    pub proof fn lemma_bytes_round_trip(self, bytes: Seq<u8>)
        requires
            self.wf(),
            le_value(bytes) == self@,
        ensures
            Base::spec_from_bytes(bytes) == Some(self),
    {
        self.lemma_wf();
    }

    /// Bytes are rejected exactly when they stand for `q` or more.
    pub proof fn lemma_bytes_rejected(bytes: Seq<u8>)
        ensures
            Base::spec_from_bytes(bytes).is_none() <==> le_value(bytes) >= q(),
    {
    }

    /// Adding an element to itself is doubling it:
    /// `a + a + b + b == a.double() + b.double()`.
    pub proof fn lemma_double_is_add(self, b: Base)
        requires
            self.wf(),
            b.wf(),
        ensures
            self.spec_add(self).spec_add(b).spec_add(b) == self.spec_double().spec_add(b.spec_double()),
    {
        let m = q();
        let (x, y) = (self@, b@);
        self.lemma_wf();
        b.lemma_wf();
        let s1 = add_mod(x, x, m);
        let s2 = add_mod(s1, y, m);
        let dx = mul_mod(2, x, m);
        let dy = mul_mod(2, y, m);
        lemma_mod_bound(x + x, m);
        lemma_mod_bound(s1 + y, m);
        lemma_mod_bound(2 * y, m);
        Base::lemma_from_value(s1);
        Base::lemma_from_value(s2);
        Base::lemma_from_value(dx);
        Base::lemma_from_value(dy);
        vstd::arithmetic::div_mod::lemma_add_mod_noop(x + x, y, m);
        vstd::arithmetic::div_mod::lemma_add_mod_noop(x + x + y, y, m);
        vstd::arithmetic::div_mod::lemma_add_mod_noop(2 * x, 2 * y, m);
        lemma_small_mod(y as nat, m as nat);
        assert(add_mod(s2, y, m) == (x + x + y + y) % m);
        assert(add_mod(dx, dy, m) == (2 * x + 2 * y) % m);
    }

    /// Multiplying an element by itself is squaring it:
    /// `a * a + b * b == a.square() + b.square()`.
    pub proof fn lemma_square_is_mul(self, b: Base)
        requires
            self.wf(),
            b.wf(),
        ensures
            self.spec_mul(self).spec_add(b.spec_mul(b)) == self.spec_square().spec_add(b.spec_square()),
    {
    }

    /// The inverse is an inverse: `a * a.invert() == 1` for every element but
    /// zero.
    pub proof fn lemma_invert_is_inverse(self)
        requires
            self.wf(),
            self@ != 0,
        ensures
            self.spec_invert() matches Some(inverse) && self.spec_mul(inverse) == Base::from_value(1),
            mul_mod(self@, pow_mod(self@, (q() - 2) as nat, q()), q()) == 1,
    {
        self.lemma_wf();
        crate::pratt_q::lemma_root_q();
        crate::primes::lemma_fermat_inverse(7, q(), self@);
        let inverse = pow_mod(self@, (q() - 2) as nat, q());
        lemma_mod_bound(vstd::arithmetic::power::pow(self@, (q() - 2) as nat), q());
        Base::lemma_from_value(inverse);
    }

    /// Lifts raw limbs into the field: the element that stands for their
    /// value modulo `q`.
    pub fn to_mont(raw: [u64; 4]) -> (r: Base)
        ensures
            r.wf(),
            r@ == limbs4(raw) % q(),
            r == Base::spec_to_mont(raw),
    {
        proof {
            lemma_constants();
            lemma_lift_then_reduce(limbs4(raw), q());
        }
        let r = Base(crate::limbs::mul(raw, R2, MODULUS, INV));
        proof {
            r.lemma_wf();
        }
        r
    }

    /// The limbs of the integer that the element stands for.
    pub fn to_raw(self) -> (r: [u64; 4])
        requires
            self.wf(),
        ensures
            limbs4(r) == self@,
            r == self.spec_to_raw(),
    {
        proof {
            lemma_constants();
            assert(limbs4(MODULUS) * radix() > limbs4(self.0)) by (nonlinear_arith)
                requires
                    limbs4(MODULUS) > limbs4(self.0),
                    radix() >= 1,
                    limbs4(self.0) >= 0,
            ;
        }
        let r = crate::limbs::mont(
            [self.0[0], self.0[1], self.0[2], self.0[3], 0, 0, 0, 0],
            MODULUS,
            INV,
        );
        proof {
            lemma_limbs_unique(r);
        }
        r
    }

    /// The zero of the field.
    pub fn zero() -> (r: Base)
        ensures
            r.wf(),
            r@ == 0,
            r == Base::from_value(0),
    {
        let r = Base([0, 0, 0, 0]);
        proof {
            lemma_small_mod(0, q() as nat);
            assert(limbs4(r.0) * crate::modular::radix_inv(q()) == 0) by (nonlinear_arith)
                requires
                    limbs4(r.0) == 0,
            ;
            r.lemma_wf();
        }
        r
    }

    /// The one of the field.
    pub fn one() -> (r: Base)
        ensures
            r.wf(),
            r@ == 1,
            r == Base::from_value(1),
    {
        let r = Base(R);
        proof {
            lemma_constants();
            lemma_mod_bound(radix(), q());
            lemma_mont_reduce_one(q());
            r.lemma_wf();
        }
        r
    }

    /// The sum of two elements.
    pub fn add(self, rhs: Base) -> (r: Base)
        requires
            self.wf(),
            rhs.wf(),
        ensures
            r.wf(),
            r@ == add_mod(self@, rhs@, q()),
            r == self.spec_add(rhs),
    {
        proof {
            lemma_constants();
            lemma_mont_reduce_sum(limbs4(self.0), limbs4(rhs.0), q());
        }
        let r = Base(crate::limbs::add(self.0, rhs.0, MODULUS));
        proof {
            r.lemma_wf();
        }
        r
    }

    /// The difference of two elements.
    pub fn sub(self, rhs: Base) -> (r: Base)
        requires
            self.wf(),
            rhs.wf(),
        ensures
            r.wf(),
            r@ == sub_mod(self@, rhs@, q()),
            r == self.spec_sub(rhs),
    {
        proof {
            lemma_constants();
            lemma_mont_reduce_difference(limbs4(self.0), limbs4(rhs.0), q());
        }
        let r = Base(crate::limbs::sub(self.0, rhs.0, MODULUS));
        proof {
            r.lemma_wf();
        }
        r
    }

    /// The negative of an element.
    pub fn neg(self) -> (r: Base)
        requires
            self.wf(),
        ensures
            r.wf(),
            r@ == neg_mod(self@, q()),
            r == self.spec_neg(),
    {
        proof {
            lemma_constants();
            lemma_mont_reduce_difference(0, limbs4(self.0), q());
            lemma_small_mod(0, q() as nat);
            assert(0 * crate::modular::radix_inv(q()) == 0);
        }
        let r = Base(crate::limbs::neg(self.0, MODULUS));
        proof {
            r.lemma_wf();
        }
        r
    }

    /// The product of two elements.
    pub fn mul(self, rhs: Base) -> (r: Base)
        requires
            self.wf(),
            rhs.wf(),
        ensures
            r.wf(),
            r@ == mul_mod(self@, rhs@, q()),
            r == self.spec_mul(rhs),
    {
        proof {
            lemma_constants();
            lemma_mont_reduce_product(limbs4(self.0), limbs4(rhs.0), q());
        }
        let r = Base(crate::limbs::mul(self.0, rhs.0, MODULUS, INV));
        proof {
            r.lemma_wf();
        }
        r
    }

    /// Twice an element.
    pub fn double(self) -> (r: Base)
        requires
            self.wf(),
        ensures
            r.wf(),
            r@ == mul_mod(2, self@, q()),
            r == self.spec_double(),
    {
        proof {
            lemma_constants();
            lemma_mont_reduce_sum(limbs4(self.0), limbs4(self.0), q());
            self.lemma_wf();
        }
        let r = Base(crate::limbs::double(self.0, MODULUS));
        proof {
            r.lemma_wf();
        }
        r
    }

    /// The square of an element.
    pub fn square(self) -> (r: Base)
        requires
            self.wf(),
        ensures
            r.wf(),
            r@ == mul_mod(self@, self@, q()),
            r == self.spec_square(),
    {
        proof {
            lemma_constants();
            lemma_mont_reduce_product(limbs4(self.0), limbs4(self.0), q());
        }
        let r = Base(crate::limbs::square(self.0, MODULUS, INV));
        proof {
            r.lemma_wf();
        }
        r
    }

    /// The inverse of an element by Fermat's little theorem: its power
    /// `q - 2`. Zero has none.
    pub fn invert(self) -> (r: Option<Base>)
        requires
            self.wf(),
        ensures
            r.is_none() == (self@ == 0),
            r matches Some(x) ==> x.wf() && x@ == pow_mod(self@, (q() - 2) as nat, q()),
            r == self.spec_invert(),
    {
        proof {
            lemma_constants();
            self.lemma_wf();
            Base::lemma_from_value(0);
            lemma_limbs_of(0);
            if limbs4(self.0) == 0 {
                lemma_limbs_unique(self.0);
                assert(self.0 == limbs_of(0));
                assert(mont_form(0, q()) == 0) by {
                    lemma_small_mod(0, q() as nat);
                }
            }
            if self@ == 0 {
                assert(mont_form(0, q()) == 0) by {
                    lemma_small_mod(0, q() as nat);
                }
            }
        }
        match crate::limbs::invert(self.0, little_fermat(MODULUS), R, MODULUS, INV) {
            Some(x) => {
                let r = Base(x);
                proof {
                    r.lemma_wf();
                }
                Some(r)
            },
            None => None,
        }
    }

    /// The 32 bytes of the integer that the element stands for, least
    /// significant first.
    pub fn to_bytes(self) -> (r: [u8; 32])
        requires
            self.wf(),
        ensures
            le_value(r@) == self@,
            r@ == le_bytes(self@),
    {
        limbs_bytes(self.to_raw())
    }

    /// The element that 32 bytes stand for, least significant byte first, or
    /// nothing when they stand for `q` or more.
    pub fn from_bytes(bytes: [u8; 32]) -> (r: Option<Base>)
        ensures
            r.is_some() == (le_value(bytes@) < q()),
            r matches Some(x) ==> x.wf() && x@ == le_value(bytes@),
            r == Base::spec_from_bytes(bytes@),
    {
        let raw = load_limbs(bytes.as_slice(), 0);
        let (_, borrow) = sub_limbs(raw, MODULUS);
        proof {
            lemma_constants();
        }
        if borrow != 0 {
            let x = Base::to_mont(raw);
            proof {
                lemma_small_mod(limbs4(raw) as nat, q() as nat);
            }
            Some(x)
        } else {
            None
        }
    }

    /// The element that 64 bytes stand for, least significant byte first,
    /// reduced modulo `q`.
    pub fn from_bytes_wide(bytes: &[u8; 64]) -> (r: Base)
        ensures
            r.wf(),
            r@ == le_value_wide(bytes@) % q(),
            r == Base::spec_from_bytes_wide(bytes@),
    {
        let lo = load_limbs(bytes.as_slice(), 0);
        let hi = load_limbs(bytes.as_slice(), 4);
        proof {
            lemma_constants();
            lemma_wide_reduce(limbs4(lo), limbs4(hi), q());
        }
        let r = Base(
            crate::limbs::from_u512(
                [lo[0], lo[1], lo[2], lo[3], hi[0], hi[1], hi[2], hi[3]],
                R2,
                R3,
                MODULUS,
                INV,
            ),
        );
        proof {
            r.lemma_wf();
        }
        r
    }

    /// The power `by` of an element, by squaring and multiplying over the
    /// 256 binary digits of the exponent from the top.
    pub fn pow_vartime(&self, by: &[u64; 4]) -> (r: Base)
        requires
            self.wf(),
        ensures
            r.wf(),
            r@ == pow_mod(self@, limbs4(*by) as nat, q()),
            r == self.spec_pow(*by),
    {
        let ghost e = limbs4(*by);
        let mut res = Base::one();
        let mut i: usize = 0;
        proof {
            lemma_radix_is_pow2();
            lemma_pow2(256);
            lemma_no_high_bits(e, 256, 256);
            lemma_pow0(self@);
            lemma_small_mod(1, q() as nat);
        }
        while i < 256
            invariant
                i <= 256,
                self.wf(),
                res.wf(),
                e == limbs4(*by),
                res@ == pow_mod(self@, (e / (pow2((256 - i) as nat) as int)) as nat, q()),
            decreases 256 - i,
        {
            let ghost n = e / (pow2((256 - i) as nat) as int);
            proof {
                lemma_pow2_pos((256 - i) as nat);
                vstd::arithmetic::div_mod::lemma_div_pos_is_pos(e, pow2((256 - i) as nat) as int);
                lemma_prefix_step(e, (255 - i) as nat);
                crate::modular::lemma_pow_mod_step(self@, n as nat, q());
            }
            res = res.square();
            if bit_at(by, 255 - i) == 1 {
                res = res.mul(*self);
            }
            i += 1;
        }
        proof {
            lemma2_to64();
            let d = pow2((256 - i) as nat) as int;
            assert(e / d == e) by (nonlinear_arith)
                requires
                    d == 1,
            ;
            res.lemma_wf();
        }
        res
    }

    /// The inner loop of the search for a square root: finds the height `k`
    /// at which the tower of `b` reaches one, and squares `z` once for each
    /// round after `k` and below `v`. Returns `k` and the new `z`.
    fn sqrt_scan(b: Base, z: Base, v: u32, max_v: u32) -> (r: (u32, Base))
        requires
            b.wf(),
            z.wf(),
            1 <= v <= 32,
            max_v <= 32,
        ensures
            r.1.wf(),
            1 <= r.0 <= 32,
            mul_mod(b@, b@, q()) == 1 && mul_mod(z@, z@, q()) == 1 ==> r.0 == 1 && mul_mod(
                r.1@,
                r.1@,
                q(),
            ) == 1,
            2 <= v <= max_v && tower(b@, (v - 1) as nat, q()) == 1 ==> r.0 <= v - 1 && tower(
                b@,
                r.0 as nat,
                q(),
            ) == 1 && (forall|i: int| 1 <= i < r.0 ==> #[trigger] tower(b@, i as nat, q()) != 1)
                && r.1@ == tower(z@, (v - 1 - r.0) as nat, q()),
    {
        let ghost p = q();
        let ghost b0 = b@;
        let ghost z0 = z@;
        let ghost v0 = v as int;
        let ghost closed = mul_mod(b@, b@, p) == 1 && mul_mod(z@, z@, p) == 1;
        let ghost open = 2 <= v <= max_v && tower(b@, (v - 1) as nat, p) == 1;
        let one = Base::one();
        let mut z = z;
        let mut k: u32 = 1;
        let mut b2k = b.square();
        let mut j_less_than_v = true;
        let mut j: u32 = 2;
        proof {
            b.lemma_residue();
            z.lemma_residue();
            if open {
                crate::roots::lemma_scan_begins(b0, z0, v0, p);
            }
        }
        while j < max_v
            invariant
                2 <= j,
                j <= max_v || j == 2,
                max_v <= 32,
                1 <= k < j,
                1 <= v <= 32,
                v0 == v,
                b2k.wf(),
                z.wf(),
                one.wf(),
                one@ == 1,
                p == q(),
                closed ==> b2k@ == 1 && k == 1 && mul_mod(z@, z@, p) == 1,
                open ==> 2 <= v0 <= max_v && tower(b0, (v0 - 1) as nat, p) == 1 && scan(
                    b0,
                    z0,
                    v0,
                    j as int,
                    b2k@,
                    k as int,
                    z@,
                    p,
                ) && j_less_than_v == (j <= v0),
            decreases max_v + 2 - j,
        {
            j_less_than_v = j_less_than_v && j != v;
            if b2k == one {
                proof {
                    if open {
                        crate::roots::lemma_scan_found(b0, z0, v0, j as int, b2k@, k as int, z@, p);
                    }
                    if closed {
                        lemma_small_mod(1, p as nat);
                        assert(1 * 1 == 1);
                    }
                }
                if j_less_than_v {
                    z = z.square();
                }
            } else {
                proof {
                    if b2k@ == 1 {
                        b2k.lemma_equal_values(one);
                    }
                    if open {
                        crate::roots::lemma_scan_goes_on(b0, z0, v0, j as int, b2k@, k as int, z@, p);
                    }
                }
                b2k = b2k.square();
                k = j;
            }
            j += 1;
        }
        proof {
            if open {
                crate::roots::lemma_scan_ends(b0, z0, v0, j as int, b2k@, k as int, z@, p);
            }
        }
        (k, z)
    }

    /// A square root of an element by the method of Tonelli and Shanks, or
    /// nothing when the element is not a square.
    pub fn sqrt(&self) -> (r: Option<Base>)
        requires
            self.wf(),
        ensures
            r.is_some() == is_square(self@, q()),
            r matches Some(x) ==> x.wf() && mul_mod(x@, x@, q()) == self@,
    {
        let ghost a = self@;
        let ghost qr = is_square(a, q()) && a != 0;
        let ghost p = q();
        proof {
            crate::pratt_q::lemma_root_q();
            crate::primes::lemma_root_gives_prime(7, p);
            lemma_root_of_unity();
            self.lemma_residue();
            lemma2_to64();
            assert(limbs4(HALF_ODD_PART) == (odd_part() - 1) / 2);
            assert(p - 1 == pow2(32) * (2 * ((odd_part() - 1) / 2) + 1));
            if qr {
                crate::roots::lemma_search_begins(7, p, a, ((odd_part() - 1) / 2) as nat, 32);
            }
        }
        let w = self.pow_vartime(&HALF_ODD_PART);
        let one = Base::one();
        let mut v: u32 = S;
        let mut x = w.mul(*self);
        let mut b = x.mul(w);
        let mut z = Base(ROOT_OF_UNITY);
        proof {
            if a == 0 {
                assert(w@ * a == 0) by (nonlinear_arith)
                    requires
                        a == 0,
                ;
                lemma_small_mod(0, p as nat);
            }
        }
        let mut max_v: u32 = S;
        while max_v >= 1
            invariant
                max_v <= 32,
                1 <= v <= 32,
                x.wf(),
                b.wf(),
                z.wf(),
                one.wf(),
                one@ == 1,
                self.wf(),
                a == self@,
                p == q(),
                p >= 3,
                crate::primes::is_prime(p),
                a == 0 ==> x@ == 0,
                qr ==> search_closed(a, x@, b@, z@, v as int, p) || (search_open(
                    a,
                    x@,
                    b@,
                    z@,
                    v as int,
                    p,
                ) && 2 <= v <= max_v),
            decreases max_v,
        {
            let ghost closed = search_closed(a, x@, b@, z@, v as int, p);
            let ghost b0 = b@;
            let ghost z0 = z@;
            let ghost x0 = x@;
            let ghost v0 = v as int;
            let (k, zt) = Base::sqrt_scan(b, z, v, max_v);
            proof {
                x.lemma_residue();
                b.lemma_residue();
                z.lemma_residue();
                self.lemma_residue();
                if qr {
                    if closed {
                        crate::roots::lemma_closed_step(a, x0, b0, zt@, p);
                    } else {
                        crate::roots::lemma_search_step(a, x0, b0, z0, v0, k as int, zt@, p);
                    }
                }
                if a == 0 {
                    assert(x0 * zt@ == 0) by (nonlinear_arith)
                        requires
                            x0 == 0,
                    ;
                    lemma_small_mod(0, p as nat);
                }
                if b@ == 1 {
                    b.lemma_equal_values(one);
                }
            }
            if b != one {
                x = x.mul(zt);
            }
            z = zt.square();
            b = b.mul(z);
            v = k;
            max_v -= 1;
            proof {
                b.lemma_residue();
                z.lemma_residue();
                if qr && !closed && v == 1 && b0 != 1 {
                    crate::roots::lemma_open_at_one_is_closed(a, x@, b@, z@, p);
                }
            }
        }
        let xx = x.square();
        proof {
            x.lemma_residue();
            if xx@ == a {
                xx.lemma_equal_values(*self);
                crate::roots::lemma_square_has_root(p, x@, a);
            }
            if is_square(a, p) && a == 0 {
                assert(x@ * x@ == 0) by (nonlinear_arith)
                    requires
                        x@ == 0,
                ;
                lemma_small_mod(0, p as nat);
            }
        }
        if xx == *self {
            Some(x)
        } else {
            None
        }
    }

    /// Whether the integer that the element stands for is odd.
    pub fn is_odd(self) -> (r: bool)
        requires
            self.wf(),
        ensures
            r == (self@ % 2 == 1),
    {
        let raw = self.to_raw();
        (raw[0] % 2) != 0
    }
}

} // verus!
