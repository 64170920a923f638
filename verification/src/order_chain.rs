//! The order of the base point: its multiple by the characteristic `r` of
//! the scalar field is the neutral element. The multiples are computed
//! along the non-adjacent form of `r`, each step with the quotients that
//! witness its residues.
use vstd::prelude::*;
use crate::base::q;
use crate::cipher::{base_point, lemma_base_point_on_curve};
use crate::curve::{
    ExtendedPoint, extend, extended_identity, extended_negative, lemma_is_identity,
};
use crate::group::{extended_valid, lemma_extend_valid};
use crate::modular::lemma_mod_from_parts;
use crate::multiples::{lemma_identity_form, lemma_times_one, same_point, times};
use crate::order::{
    DoubleWitness, SumWitness, lemma_chain_add, lemma_chain_double, lemma_chain_subtract,
};
use crate::scalar::r_prime;

verus! {

/// The base point in extended coordinates.
pub open spec fn base() -> ExtendedPoint {
    ExtendedPoint { x: 0x926d4f32059c712d418a7ff26753b6ad5b9a7d3ef8e282747bf46920a95a753int, y: 0x57a1019e6de9b67553bb37d0c21cfd056d65674dcedbddbc305632adaaf2b530int, t: 0x5539d52ecc710577225482d17a112351d9ce6cfa60e6dc7d2280d93b46f4ab9int, z: 1 }
}

/// The negative of the base point in extended coordinates.
pub open spec fn negative_base() -> ExtendedPoint {
    ExtendedPoint { x: 0x6ac6d2600943b6355f213008e32c9c9a7e03fc2f107033d7b840b96cf56a58aeint, y: 0x57a1019e6de9b67553bb37d0c21cfd056d65674dcedbddbc305632adaaf2b530int, t: 0x6e9a0a003cd66cf0c1148fdaf200c5d03620bd3359efee372dd7f26b4b90b548int, z: 1 }
}

/// The base point in extended coordinates is the affine base point,
/// extended.
pub proof fn lemma_base()
    ensures
        base() == extend(base_point()),
        extended_valid(base()),
{
    lemma_mod_from_parts(
        0x926d4f32059c712d418a7ff26753b6ad5b9a7d3ef8e282747bf46920a95a753int
            * 0x57a1019e6de9b67553bb37d0c21cfd056d65674dcedbddbc305632adaaf2b530int,
        q(),
        0x6eaeb9d7a167ab85a7ee6044ddbc76ec1616177cdab71fe18c5decd6163c3d7int,
        0x5539d52ecc710577225482d17a112351d9ce6cfa60e6dc7d2280d93b46f4ab9int,
    );
    lemma_base_point_on_curve();
    lemma_extend_valid(base_point());
}

/// The negative of the base point has the coordinates that it is given
/// with.
proof fn lemma_negative_base()
    ensures
        negative_base() == extended_negative(base()),
{
    lemma_mod_from_parts(-0x926d4f32059c712d418a7ff26753b6ad5b9a7d3ef8e282747bf46920a95a753int, q(), -1, 0x6ac6d2600943b6355f213008e32c9c9a7e03fc2f107033d7b840b96cf56a58aeint);
    lemma_mod_from_parts(-0x5539d52ecc710577225482d17a112351d9ce6cfa60e6dc7d2280d93b46f4ab9int, q(), -1, 0x6e9a0a003cd66cf0c1148fdaf200c5d03620bd3359efee372dd7f26b4b90b548int);
}

/// The multiples of the base point, from the multiple by
/// 1
/// to the multiple by
/// 0x3a0.
proof fn lemma_order_part_1()
    requires
        extended_valid(base()),
        extended_valid(ExtendedPoint { x: 0x926d4f32059c712d418a7ff26753b6ad5b9a7d3ef8e282747bf46920a95a753int, y: 0x57a1019e6de9b67553bb37d0c21cfd056d65674dcedbddbc305632adaaf2b530int, t: 0x5539d52ecc710577225482d17a112351d9ce6cfa60e6dc7d2280d93b46f4ab9int, z: 1 }),
        same_point(ExtendedPoint { x: 0x926d4f32059c712d418a7ff26753b6ad5b9a7d3ef8e282747bf46920a95a753int, y: 0x57a1019e6de9b67553bb37d0c21cfd056d65674dcedbddbc305632adaaf2b530int, t: 0x5539d52ecc710577225482d17a112351d9ce6cfa60e6dc7d2280d93b46f4ab9int, z: 1 }, times(base(), 1)),
    ensures
        extended_valid(ExtendedPoint { x: 0x4a4d4587d89856dc34a3cf9cc670530560bc8b99f811275fcea569c7b6a510ecint, y: 0x2a77bf8ec53fc0adb175abbaee52dc3d3884d9dbce5effa0b9786c9f0c486f6int, t: 0xae2774ce42aca072c01745a72fa75a07bb1bf53abd9581db7317ef7b263cc2fint, z: 0x33db443cf9327e28c06d66dd8addc11a5cd46d2680de286dd15dada8489a7144int }),
        same_point(ExtendedPoint { x: 0x4a4d4587d89856dc34a3cf9cc670530560bc8b99f811275fcea569c7b6a510ecint, y: 0x2a77bf8ec53fc0adb175abbaee52dc3d3884d9dbce5effa0b9786c9f0c486f6int, t: 0xae2774ce42aca072c01745a72fa75a07bb1bf53abd9581db7317ef7b263cc2fint, z: 0x33db443cf9327e28c06d66dd8addc11a5cd46d2680de286dd15dada8489a7144int }, times(base(), 0x3a0)),
{
    lemma_negative_base();
    lemma_chain_double(
        base(),
        ExtendedPoint { x: 0x926d4f32059c712d418a7ff26753b6ad5b9a7d3ef8e282747bf46920a95a753int, y: 0x57a1019e6de9b67553bb37d0c21cfd056d65674dcedbddbc305632adaaf2b530int, t: 0x5539d52ecc710577225482d17a112351d9ce6cfa60e6dc7d2280d93b46f4ab9int, z: 1 },
        1,
        DoubleWitness {
            xx: (0xb8f304c2f08e81832b658296f6454bec8cbbaf734165f33a1868bc6245d422int, 0x4eacaa28266826778fe2bb4800e108ec9dfef4f6b45a896ecaabb2a04db590c7int),
            a: (-1, 0x2540fd2b033556d0a3571cc008c0cf18b5beaf0c4ba3d29035544d5eb24a6f3aint),
            b: (0x423cdbc634998cbc16ba3c396ed80bcc636a95668993032f119525156943fcc5int, 0x6dcc6c89b706c9d3754b1709659c597fad92f73f143a7cc660e5b94e65b8ec3bint),
            zz: (0, 1),
            c: (0, 2),
            dif: (-1, 0x2b6237f475cc0a456145ddbeacc64d9e5be95bd03767b1c8d46e940f4c918300int),
            xy: (0x6eaeb9d7a167ab85a7ee6044ddbc76ec1616177cdab71fe18c5decd6163c3d7int, 0x5539d52ecc710577225482d17a112351d9ce6cfa60e6dc7d2280d93b46f4ab9int),
            e: (0, 0xaa73aa5d98e20aee44a905a2f42246a3b39cd9f4c1cdb8fa4501b2768de9572int),
            g: (1, 0x1f1fc261909ea35be5685bc164bb50930f9402485fdff357963a06ae18035b74int),
            f: (0, 0x1f1fc261909ea35be5685bc164bb50930f9402485fdff357963a06ae18035b72int),
            x3: (0x2dc3291fe549fb625651b58bf67d9a470d95398d069621c549d344b365a2ca2int, 0x3a88c8ed659e1dc560050ecf69ca3bf9ca0e69e312079aa7b0f96a450c39e622int),
            y3: (0xba5c2dea732624ac7b89f3472e84a94d07cbd0e2caa923cf3c96707b3b9a5f2int, 0x41e1666a931e6bb88a41dc3b152e7dfa2d4abab2ae4f6f589e015a0d40c6b60eint),
            t3: (0x3fc9b3b41201ad73180793d2f63be85da1032d17f71e5434e2f69f2848ec2dbint, 0x4736118ebff0476187716e83efd49320a922e0ae00bc4474bb25a7b0df7c9325int),
            z3: (0x85b286e92051f40f4a04953463a6c999b96faa589b86fe8f2e9a8cfb585ad2eint, 0x666b51e02835d0a18f40fc2c9a364d35ed380da6d8484873c5d259e31fd7487aint),
        },
    );
    lemma_chain_double(
        base(),
        ExtendedPoint { x: 0x3a88c8ed659e1dc560050ecf69ca3bf9ca0e69e312079aa7b0f96a450c39e622int, y: 0x41e1666a931e6bb88a41dc3b152e7dfa2d4abab2ae4f6f589e015a0d40c6b60eint, t: 0x4736118ebff0476187716e83efd49320a922e0ae00bc4474bb25a7b0df7c9325int, z: 0x666b51e02835d0a18f40fc2c9a364d35ed380da6d8484873c5d259e31fd7487aint },
        2,
        DoubleWitness {
            xx: (0x1d8e16dcdbc74451fbb755b097809d0903c264d24db3c1d4db74fd7a3069cd88int, 0xa722a0a0c409465f837d360187bcc4be13abb1024e3f7594d78810d499b4efcint),
            a: (-1, 0x697b7d491d5ce8e23b0204a7f1260bb97282e8f2db1a64a5b2877ef1b664b105int),
            b: (0x25705fa32ca11202503f5b9dcdb4b379c2e163118f9ef45678e131323a998f30int, 0x14408fab91c4823b63e7a786a56ec61e2c1e6d1581a4f62dd268a8aee4865994int),
            zz: (0x5a7bfc3cf20d47df7fa4d71bb5719e62a395f702209469d71bdf1104b9a7494bint, 0x318b6420981e21034301f4d0bdcd94ca0955e154a932027876156d3aa3c990d9int),
            c: (0, 0x6316c841303c42068603e9a17b9b299412abc2a9526404f0ec2ada75479321b2int),
            dif: (0, 0x553aed9d8b9866a6d71a5d214bb7459b46647bdd59756e77e01ed642d1de5771int),
            xy: (0x2143a55f13071b57bb41e09173f4c156ae463cb9ace0fddf4f077a6fcf52899eint, 0x1e805097cdb7133950aa27c4d52cca4add4aa7e8ec947465cfec87b083c0383eint),
            e: (0, 0x3d00a12f9b6e2672a1544f89aa599495ba954fd1d928e8cb9fd90f610780707cint),
            g: (1, 0x9ce65a18583edd56bafd4268cf2f9d24ae3b2055cc0fed484f027a19aeb0a98int),
            f: (-1, 0x1aa544b37ee5291718e5c28d1af9a8438bf5935f0a5b55e298c54d2b5357e8e7int),
            x3: (0xe0568926901264c0a5634cedb54416b789a15a0a2d6af56f079ded9f41db3ceint, 0x6fd92cd6fab8d6a5724a5d9b0e73d2563f6ee5d9d3ad6d51b9ad0640a4dc2c16int),
            y3: (0x735a30a03e4d5bb76325f5904cbf7e8bbc24936e0ff2d87106c3ee036f020b9int, 0x4f98bfa1cb7b429c3c1a61e9c4c4e2917981c33257b204e68df527d5339345fint),
            t3: (0x2cd94d74afca9405936006295b450679870c5fdeb927036089144716bc36952bint, 0x2b0cd4354e88f4bf10f065f871149cdc66deb008879516460f1d16a4013d3591int),
            z3: (0x24100bcbfd5c09025ba3f02a5ed70fb10666439404ac887cfc759df4ba5b11bint, 0x1f4bc8d0ddfe40926afc0210d9e578b93773079251c1fe3e1044e84b61b29e0dint),
        },
    );
    lemma_chain_double(
        base(),
        ExtendedPoint { x: 0x6fd92cd6fab8d6a5724a5d9b0e73d2563f6ee5d9d3ad6d51b9ad0640a4dc2c16int, y: 0x4f98bfa1cb7b429c3c1a61e9c4c4e2917981c33257b204e68df527d5339345fint, t: 0x2b0cd4354e88f4bf10f065f871149cdc66deb008879516460f1d16a4013d3591int, z: 0x1f4bc8d0ddfe40926afc0210d9e578b93773079251c1fe3e1044e84b61b29e0dint },
        4,
        DoubleWitness {
            xx: (0x6be974c85f50ecff8c7c7b1797e6152b5298bbc22f9361bd79d5c0d613d4bdc9int, 0x3ac9820d024d63766ccb5016fdc7312b56006d1f1dba426260ce5cae992d41bint),
            a: (-1, 0x70410f325978a710cc6d230699c564f29e5d9d310e22b7d8d9f31a34166d2be6int),
            b: (0x36a6b98723d0b07e14945c0a6ca2be73a8d996cd4f59439873361f4d0850a8int, 0x2d992b7e12f55e41e9497f7fc632f6860d50752f2e477649288f400ca9fc6a99int),
            zz: (0x872dcd98fc07b6626f61ab1c753be8da62df8623cbd5acc3ca9acf1f72ed620int, 0x19e45fc4c3faa603ff24aafe94415812358724a6c332f47d73d62d320e793689int),
            c: (0, 0x33c8bf8987f54c07fe4955fd2882b0246b0e494d8665e8fae7ac5a641cf26d12int),
            dif: (0, 0x42a7e3b4468348cee323a386d3926e6c910d2801dfdb418fb163da276c70c14dint),
            xy: (0x4ccb9b6d23add89df97976ee57fc46e9a795c44fc0963047f1fcad6120fc7baint, 0x26bf54bd03b6e119bc9a40f6159d8b51c96f3a68feb8f1ea560d1a6cc77f0c70int),
            e: (0, 0x4d7ea97a076dc233793481ec2b3b16a392de74d1fd71e3d4ac1a34d98efe18e0int),
            g: (1, 0x29ec935d42d0880a827cca7e5656837357f06e5d3c6bd22302825a41c069967eint),
            f: (-1, 0x6a117b26e478b94ab76d4c893775ab54409fc912b60445271ad5ffdca377296dint),
            x3: (0x46e7532d9205a3f1036c453fdd3f9ab5de7315635fc7a55f94c17e8ec3eebd38int, 0x3e98681f05fff5a3f3ed3f173cd5c0dbd0d592cd1b6249d12f7e59a6005dba28int),
            y3: (0x181af4a5ff51c0db1f3a41891b5b8bc26a69562db596522ac73fc57c0fd246f2int, 0x4749450e8eab2aa0125961bc082665b50834bacad244a8ed14bb2c2d6984faf4int),
            t3: (0x2c8eb8c24a1b86b3283d0a9228f5cbe692e9d4847626511fe4ea31ec0c82ca7dint, 0x53989414bf7ec9abfcf8345d94a7dc6c4be0e425be0707433d58ce97e8ab90e3int),
            z3: (0x265bbcfbefbd63f3021d8a43a506ed5e01728152bc135487c885eab98eac4d9aint, 0x18765215ec43f5e552d31035532e54915ae21c14bba98daa14a9dadf75f4f40cint),
        },
    );
    lemma_chain_subtract(
        base(),
        negative_base(),
        ExtendedPoint { x: 0x3e98681f05fff5a3f3ed3f173cd5c0dbd0d592cd1b6249d12f7e59a6005dba28int, y: 0x4749450e8eab2aa0125961bc082665b50834bacad244a8ed14bb2c2d6984faf4int, t: 0x53989414bf7ec9abfcf8345d94a7dc6c4be0e425be0707433d58ce97e8ab90e3int, z: 0x18765215ec43f5e552d31035532e54915ae21c14bba98daa14a9dadf75f4f40cint },
        8,
        SumWitness {
            a: (0x39a765e470e144c2e6989dc7a87e44e85addb8b3bd3692cd75122c03a536039fint, 0x194e4f4b778a736349303592d346675791d6b8882269b09310fd21672f0c4391int),
            b: (0x35e26b3857d93f62ab7cd7d53493433f2fa8699cea3f9ae196779bad4da93be9int, 0x2f5e4965fe3bfb6396e399e9581e29c785e80b5cf58dbb4d315f5199c35c55d7int),
            dt: (0x1eb358e77f7227f7983274f8bf1af9a8a25a6a55b42d3a1c9e4a95d06605768cint, 0x670b9b4e7dab9cd3033b5f25fb4d9c04948274227c066df21a068ad635ccb067int),
            c: (0x624f87793f2e1a08f21c7f419f7efdcb6facf6fa336ef2917addf55c116aae13int, 0x16c9c52aeba8eb4d8842b12b2436bd0fca7cd8313d43dc259f9e8cde2fcfc1e5int),
            zz: (0, 0x18765215ec43f5e552d31035532e54915ae21c14bba98daa14a9dadf75f4f40cint),
            h: (0, 0x48ac98b175c66ec6e013cf7c2b64911f17bec3e517f76be0425c7300f2689968int),
            s0: (1, 0x11f405da6b0da2fbd30cc8cb3b5a4e8b854ca994eda896bf443985d469e2b51bint),
            s1: (1, 0x4e7a2cab4d8fef627fa28fd19ba7c19a97abbf79df4db594e896ec1ba05d0dddint),
            ss: (0xc274299c5541010000ea3d3e4aee056fa50f209bb8c7379ef26899b392f2b78int, 0x8436085949ec9d02bd8f1e67bbed9a8518bf1fc7b83f04f3b851a025d888bd7int),
            e: (-1, 0x33846f274875d8517efefa7259fc208e8d8ad21a638ae06df928a7006b1ff270int),
            f: (0, 0x1ac8ceb009b0a97ca905f0a2ef79781906543e37e65b184750b4e0146253227int),
            g: (0, 0x2f401740d7ece132db15c160776511a1255ef445f8ed69cfb44867bda5c4b5f1int),
            x3: (0xbe717a7a2858e9b79cf1e66edd0a869286ea8f6fa90b6fcbe703ba6c3f5c06int, 0x6793b3fd52fcd920bc1fc0fdd502189d770ceff85ac865d6885028a0cd28730aint),
            y3: (0x1d9ee8341f5bb83ea736d1b45d5412f300aaa228fc42807c695a7b6c74193a6eint, 0x30cba13d9f1aef774a01583e410a439b02787b4fc8bbe4eadc3fcb073075b87aint),
            t3: (0x204baf66054c059022d6fef63e418d53beb95f852e2eb3939127ca6e94ba71f4int, 0x2af2040101bb48f88a19c5d63766ea9a5a88dff2e08d43e31f7dc7df65a4fb8cint),
            z3: (0xaeab6e0816aa6bd576b25204a1da44da479b46e21539f98750a79254498b30int, 0x4ac447e6b08ce5b399880dac9ab0ce4507038409ca21eb96cd8f9f018a0c3e87int),
        },
    );
    lemma_chain_double(
        base(),
        ExtendedPoint { x: 0x6793b3fd52fcd920bc1fc0fdd502189d770ceff85ac865d6885028a0cd28730aint, y: 0x30cba13d9f1aef774a01583e410a439b02787b4fc8bbe4eadc3fcb073075b87aint, t: 0x2af2040101bb48f88a19c5d63766ea9a5a88dff2e08d43e31f7dc7df65a4fb8cint, z: 0x4ac447e6b08ce5b399880dac9ab0ce4507038409ca21eb96cd8f9f018a0c3e87int },
        7,
        DoubleWitness {
            xx: (0x5c8aa2ff36e4a98e293cdb9555a111fc76ec5ab08f73b5bea3267346fd5c99c6int, 0x18ee42317965ad8d9f9d0868f9dde6abe14c4322f44c40a69b62e1a12d75629eint),
            a: (-1, 0x5aff6521b037cfba939ccf9f0fc3f159727160e00bb21b58649d1e5dd28a9d63int),
            b: (0x1489db065964ffd47713d90d86d158fd413e31db8f071d05a1c70a5343c2be0eint, 0x5b69a713f7c655a240b4f43d5476a73d368de552a34c8748035a1b6a0b0dc16int),
            zz: (0x3038510b61f3c3d9860b4faeefe73642d649d96b5770426c32378cb3aecd98a4int, 0x336be5a3a7ed0e38ab9ec9feec55158a08fbec60c187d26f219d6efdc920128dint),
            c: (0, 0x66d7cb474fda1c71573d93fdd8aa2b1411f7d8c1830fa4de433addfb9240251aint),
            dif: (0, 0x5548cab070bb6a606f91805b3a7c86e59f08828ae17d52e3e4677ca731d9c14dint),
            xy: (0x2b98bb79be88323acd348a02b576aa8a80f2e4644d0ed7c61de63ad867705a09int, 0x32a9997a2608b46500d213a13416569830e4c7ec7d527d9c2bb07b9be417a8bbint),
            e: (0, 0x655332f44c1168ca01a42742682cad3061c98fd8faa4fb385760f737c82f5176int),
            g: (0, 0x60b5ff92efb43514b7a81ee2e50b5bcd45da3f3535e6e3cce4d2c014733b7979int),
            f: (-1, 0x6dcbdb9ec97795eb93a462ed160308be87a00a76b2d59aeda197e217e0fb5460int),
            x3: (0x5ff725fd7dfd84aa1eeb2d6f151b004e4d1d8d746c7bf2d3cf3a3bbc7d64a696int, 0x5b1d428b53b35f746215fc4128e199e7596bf299b72feecd7b4498ba39c69daaint),
            y3: (0x472593a6197e3f890682ca7c0072d869780d96a6384e84b6aa936b6b4d084ddaint, 0x22d104285d28c7406cd77fdf1af8a974c940c8b4b4cc29abb25dfd0e5300748bint),
            t3: (0x4a8a8b43b0d6c601650be61fea50c7260af8b2b3a3805fe20cd52b00516043b6int, 0x656d020afab98387118dd789add69a7151b8cde16eb352bd437d8d16344b32c8int),
            z3: (0x5b986d5a1c0316392dd3556167a3dadc226769f3e70122d0f29cd1c11c1a1d3aint, 0x502de826ab9451c21d955cd532bb3b019e99d6e308f34cd8f360ca6c97b22426int),
        },
    );
    lemma_chain_double(
        base(),
        ExtendedPoint { x: 0x5b1d428b53b35f746215fc4128e199e7596bf299b72feecd7b4498ba39c69daaint, y: 0x22d104285d28c7406cd77fdf1af8a974c940c8b4b4cc29abb25dfd0e5300748bint, t: 0x656d020afab98387118dd789add69a7151b8cde16eb352bd437d8d16344b32c8int, z: 0x502de826ab9451c21d955cd532bb3b019e99d6e308f34cd8f360ca6c97b22426int },
        0xe,
        DoubleWitness {
            xx: (0x479c92afd8fe82c0e660cb9b0eb41c4e279c1c5eb371f7c187ff72935f21d25eint, 0x30b349056cd98f8d4188090ca145ed37b2064b4ce80f588cd253672098f02286int),
            a: (-1, 0x433a5e4dbcc3edbaf1b1cefb685beacda1b758b617ef03722dac98de670fdd7bint),
            b: (0xa74d2f869d4f19095ae89a9b7f947e9e31fe311297b60020b9c75b7bb1ec886int, 0x3a2c5fc571e8d43e9cdf2264e671a2ceeb08ae4d1dae2f2fbdd11b949bef7af3int),
            zz: (0x37744c9b63bce31f8783a6a42ee1f53e1cac963a8d8de2f061ba4baedb590aadint, 0x64fe2a844862a736557528eaee172cedff7d3c4720be5b3c335cd9a94299aaf7int),
            c: (1, 0x560eadb56727d12477b079cdd28c81d6ab3cd48b417e5a7966b9b353853355edint),
            dif: (0, 0x90dfe884adb197c54d2ac9681ea47feb6aeaa68fa40d4426fdb7d49cb206288int),
            xy: (0x1b5d37b2f4c3429aba46c744fb0e2293664847c7632d4df03d90047af9436d02int, 0x71c0cf4529ccc8486ed46179619353263d40f7f05397751c0d51be3c8305364cint),
            e: (1, 0x6f93f73729fc1348aa6eeaeab984ce4726c44bdda7308e391aa37c7a060a6c97int),
            g: (1, 0x97916c0050f44b15b571958452bb59739026300359ed6a2eb7db47402ff586dint),
            f: (-1, 0x2758105dc784f0d516e077927c410bc5e1833277f41ed82884c4011f7dcc0281int),
            x3: (0x25de1923b8855c643d5c98c3d32358b88e911a3802b4cafc235e02b42ffc9654int, 0x1bc0e924e77a61af8d57a4ae7a074c7ee047cdcc0823b5744b74e5c633714fc3int),
            y3: (0xbd69cd8de99ca294f70cf71deb54fa9a6f77d6493ebe5b7a88f00203ff2b92int, 0x5e029746ed386480c248e32507705ccf3f058927253ada27c16fcd75d0218856int),
            t3: (0x8b70245de55b80ba1416440e505cb0855806429d2edc292d1dbaa25c076cfe7int, 0x58f982e4d8d5354007aaaea58b6dbfe9d03970cac1c0e4d42b52b45cc284ae51int),
            z3: (0x337081e63ad4da49f8558435cd122452597e9bcf8ffe53f2a21b10e4faad50aint, 0x269005316669a95068107eca5dac1f4d73cf5e84c76b8c4080eb2e51e18d93e3int),
        },
    );
    lemma_chain_add(
        base(),
        ExtendedPoint { x: 0x1bc0e924e77a61af8d57a4ae7a074c7ee047cdcc0823b5744b74e5c633714fc3int, y: 0x5e029746ed386480c248e32507705ccf3f058927253ada27c16fcd75d0218856int, t: 0x58f982e4d8d5354007aaaea58b6dbfe9d03970cac1c0e4d42b52b45cc284ae51int, z: 0x269005316669a95068107eca5dac1f4d73cf5e84c76b8c4080eb2e51e18d93e3int },
        0x1c,
        SumWitness {
            a: (0x230e15acce157683f14124ab0186d82c0a636acbb6947479796dc02f5388ee9int, 0x27956a9098cd92c3e8990b2df4f3bfab95f09b4eef9400e7ab6aafeae0b8250int),
            b: (0x470faab484d2a75a99751a806dd137e5c2568fac6d7e116709b7abcbe36ad7feint, 0x70c6eb4fcbab4979d50259613b8a089886ee78014d7eb4fbc0b0f0cad58f8622int),
            dt: (0x20ad065ff157464d15b0526317a8649a22d96d0424e8bfd3a18569c25349197eint, 0x223ad5a4524ffcdfc1c82c9ee1d615feb2c8437ca4f2d6b919930e5b6b1f0a83int),
            c: (0x192a168be00aaef8ddc57f5351713211aade81f0666f6c2e84d0810c5f9c79fint, 0x623c5687b142dd31b595259cfe68d62faed211207e45e82d8ce182a8474baf0cint),
            zz: (0, 0x269005316669a95068107eca5dac1f4d73cf5e84c76b8c4080eb2e51e18d93e3int),
            h: (0, 0x734041f8d53822a6138bea141ad94493404d81b63c77f50a3b679bc9839b0872int),
            s0: (1, 0x5d5d918ab1548e81c66afcb77d5d148cb8fb2f02d60339d0ce4b33d0392d818int),
            s1: (0, 0x60c7d6918e437d8827d3dfcfe8923870431f0f21be6a05e37815793fb5885c83int),
            ss: (0x4df1c7df6c1f70501f64c301fcf322af5fec2d1be9581de70e81268289d8110int, 0x73b7c1260b3deb3578b28371a4c69e203392fdaf690de026205652dd35efb338int),
            e: (0, 0x777f2d3605c88f6526995d89ed598cf3457bf92c95eb1be4eeb713b254aac6int),
            f: (-1, 0x384155fcdec44966e5b5313568e5212318baf16749240011f409aba89a41e4d8int),
            g: (1, 0x14deb465ee0f0939ea6bcc5f52731d77cee3cba245b3186f0dccb0fb28d942eeint),
            x3: (0x39fca1792b02fda652d7b5bcab6e1c1cd0c2c6424114c68886da8b637b7f65int, 0x6029331ddb6aa16664517502716c741d45cbacb61c868746434c3275f452efabint),
            y3: (0x14bf7d3a2b1613534c9d8248c1ab5a4fcba170f7acbaf66480307b8049470466int, 0x5386344330b74f723598e2fe2098725e236a87d0284840f5679bc1ae01aa3996int),
            t3: (0x76cc717ca32a7f119c8b8a9df1f3b4a1c742bb210dc8e93b82b36fc8ab12d5int, 0x4842fe72cadf91fb6dd57656d7cf0f08eaf301cfc3fdfbf81e6c7d9fe412957int),
            z3: (0xa2097dfbcd0e4c9eae5eecd532a353632b136eedf48e4d7a2b51fc01815f956int, 0x41a32e1d11ebe3211be0cb9b8020ad34516af2629e2754048eb4d57f0944777aint),
        },
    );
    lemma_chain_double(
        base(),
        ExtendedPoint { x: 0x6029331ddb6aa16664517502716c741d45cbacb61c868746434c3275f452efabint, y: 0x5386344330b74f723598e2fe2098725e236a87d0284840f5679bc1ae01aa3996int, t: 0x4842fe72cadf91fb6dd57656d7cf0f08eaf301cfc3fdfbf81e6c7d9fe412957int, z: 0x41a32e1d11ebe3211be0cb9b8020ad34516af2629e2754048eb4d57f0944777aint },
        0x1d,
        DoubleWitness {
            xx: (0x4fc39fac6d691f04af2e79d02abc980209efb76b4059a208fbf7013c7a65aed4int, 0x19b79d38ed72258fb9df1ac6877f20610b62bbda2bdb0e06f092bfa1e7870d65int),
            a: (-1, 0x5a360a1a3c2b57b8795abd418222b7a4485ae828d4234df80f6d405d1878f29cint),
            b: (0x3c2d7c37e1820f84ab05b717b9b6e9f5648f8009ff3a0d4cce0216d8ff2eeb7bint, 0x3433c35e3fdf8144efa872ca8d960287add06e5579decd648f0e0e2db4fd3869int),
            zz: (0x2529c95cfa377e20566f7f7a5ec4001a846e4f5a4234061a6357653a74733895int, 0x159b89b40ae2214486ecab28727797be3d6183aab11c78ce8dc1451cd01f6d8fint),
            c: (0, 0x2b37136815c442890dd95650e4ef2f7c7ac307556238f19d1b828a39a03edb1eint),
            dif: (0, 0x260246bbfc4bd67389b24a76f48cb51c9a8a79d35a448093805f322f637bba33int),
            xy: (0x45483d74e8050c10ecb2654f23c70346fc58e9fbfa279d0df08286d9854ce4d5int, 0x27e9d021a7672baa51491a223bf16c06d426dba64ae2cc3e738c95bbed369c5dint),
            e: (0, 0x4fd3a0434ece5754a292344477e2d80da84db74c95c5987ce7192b77da6d38baint),
            g: (1, 0x1a7c2625526d5bb535c958040616e226a26db27b4e03bf5d9e7b4e8bcd762b04int),
            f: (-1, 0x6332ba10664696745b29d9bb2ac98aaf7b684f28ebc929bf82f8c4512d374fe7int),
            x3: (0x444e76152c88f4e25813c89b4b0800464d817c14681c72d2cc24d89c9ba738e4int, 0x6d2c140d3bbb519e72814906d367b45ad7fa24d74ab8974aa7f5111f135e5cf2int),
            y3: (0x8aef9f490fd62ae73f892c66767411dad7c71068bc806c762011b8922502357int, 0x1c28cd332a8e8147384dc92e758a56acdefcf59afc95aef77b265914de675675int),
            t3: (0x1a2c2293dd0961422f640dc8cc9abb0b16292b4d35df0f2aba7bd9a3c647a757int, 0x4d7edecd44e2255fc6872ce63c51984cf83cfb35b742b4df179a78d7480fc9b7int),
            z3: (0x16a9ac33e59c773d790d8c2e1ae4cb6d99968e2e760a5e4bb58231e8374a9344int, 0x3349237b478b3d90ac56b673995ee1d8dbe0561f3ce3ed6732a2fc2097787958int),
        },
    );
    lemma_chain_double(
        base(),
        ExtendedPoint { x: 0x6d2c140d3bbb519e72814906d367b45ad7fa24d74ab8974aa7f5111f135e5cf2int, y: 0x1c28cd332a8e8147384dc92e758a56acdefcf59afc95aef77b265914de675675int, t: 0x4d7edecd44e2255fc6872ce63c51984cf83cfb35b742b4df179a78d7480fc9b7int, z: 0x3349237b478b3d90ac56b673995ee1d8dbe0561f3ce3ed6732a2fc2097787958int },
        0x3a,
        DoubleWitness {
            xx: (0x66cf4cea7a040872787b1ac8c06cb4ea62acc1920b1047a02990d5e1c9ee5029int, 0x5b2521966ff9c83ae8c8fe7ed42a340c3bad605e3deaae8c7e3b45778588849bint),
            a: (-1, 0x18c885bcb9a3b50d4a70d9893577a3f9181043a4c213ad7281c4ba877a777b66int),
            b: (0x6d70ac4fa92936a5be3a596baa040766247c7b19aa0a49783cfe409e8e1de1dint, 0x729605d3a528ba7924616192a294f486499445e2a2836b6ed9483a04b276f35cint),
            zz: (0x16b037cb741c5ad3e1ec82e1b9a9c6d4cb44f3df5828a65e53618eee1d7e071cint, 0x6baaeeb41079f0b9d775a05038c603d10990cd440eca66b7241f6605ae864724int),
            c: (1, 0x63683614f756642b7bb1689867ea2f9cbf63f6851d96716f483ecc0c5d0c8e47int),
            dif: (-1, 0x1a20273c3e1877dc59494ffe9c8487782239a1c51f8e9e02a87c8081c800880bint),
            xy: (0x1a84ae92b9f7eb9089e4eb3659f0be48a7d8a3b465a16f91b71c94cc08cd4b6dint, 0x199e9e53bbfc2aa665ce5baee2421ac6cae97ac1defe1af6a259fecfc5ea7b2dint),
            e: (0, 0x333d3ca777f8554ccb9cb75dc484358d95d2f583bdfc35ed44b3fd9f8bd4f65aint),
            g: (1, 0x1770e43d352ef23e3b986313ce6ac07a0de6e5846498bce25b0cf48d2cee6ec1int),
            f: (-1, 0x27f6557b67760b5af320d283702268e2a24093024700a77212ce287fcfe1e07bint),
            x3: (0x11a9b581e2e6469da2ddcc640ccc60fce2a26d49f1aafc473454865999197d21int, 0x4024facb3d0f0be50addb8f7f914400f88dd14588f2f455b0606cccf38e1a01dint),
            y3: (0x5485c40db1a86ae41c3f32014ca939ca12fde205c380849bbe982fced42c613int, 0x47c9db380ff9067b1bfd033dbab0eb10ae48123fede7f33670ef5acd73d28438int),
            t3: (0xb8c196b84efb57467fc21d5c1126b731b294bc9efec8e5da5ea4dffcc38d3d3int, 0x67bc12e6f86692ff13864521227002985cb6572d80154421b31ab1c7a8cd920bint),
            z3: (0x81498ff6492aac19c46ca1aaadb8826e71fd6074a8c36150ba6a2a14c44faf9int, 0x5c84881ff57c9bde823ab875f5fd36141f3e490b3a2dc1baaa21c25951d41bc2int),
        },
    );
    lemma_chain_double(
        base(),
        ExtendedPoint { x: 0x4024facb3d0f0be50addb8f7f914400f88dd14588f2f455b0606cccf38e1a01dint, y: 0x47c9db380ff9067b1bfd033dbab0eb10ae48123fede7f33670ef5acd73d28438int, t: 0x67bc12e6f86692ff13864521227002985cb6572d80154421b31ab1c7a8cd920bint, z: 0x5c84881ff57c9bde823ab875f5fd36141f3e490b3a2dc1baaa21c25951d41bc2int },
        0x74,
        DoubleWitness {
            xx: (0x237de9ade1abc441dd508a6483d6b30860b7825ada2ea78c19bc9879305a14dbint, 0x102f9ad973d98b7e96db113fa5b03080977a37da6fb8f0df94ac202f56c42e6eint),
            a: (-1, 0x63be0c79b5c3f1c99c5ec6c863f1a784bc436c2890456b1f6b53dfcfa93bd193int),
            b: (0x2c7477f1c75913ef9b4263ff0d9ceaa08a4c1f8ef83fcbbfbf30922e25f603ffint, 0x3a97605b66e81c58694212907822ec35d061f6c0cd82cf23ffdb63685a33c841int),
            zz: (0x49d5aa0ac7767e155575ad0dd77efb708ebc065ed167d12a2808ba4c330f85d8int, 0x32dae22e23b31d5969b4812c0eea5ac924a070e5b4cdf59e54c009be8d42f92cint),
            c: (0, 0x65b5c45c47663ab2d36902581dd4b5924940e1cb699beb3ca980137d1a85f258int),
            dif: (0, 0x2926ac1e4edbd571331cb437ebcebb4eebe17567c2c29bfb6b787c674f080952int),
            xy: (0x27b8acb811387b9e0b58c9785dfa116f6e3ae9af22d2a5641fb0e4d405d41ea0int, 0x169b26a9f024d9e1e2e8e8d31c79aeb4d7931cfb12f4f268dbcf4db020dfdbb8int),
            e: (0, 0x2d364d53e049b3c3c5d1d1a638f35d69af2639f625e9e4d1b79e9b6041bfb770int),
            g: (1, 0x2a67c581f30e90d9d2670150d272bbb538e7bee65dc9de446b2f4339036f99d3int),
            f: (-1, 0x389fa878d545d36f3237d700be3fde284364811df42c4f06c1af2fbae8e9a77cint),
            x3: (0x161550a61699305778e19e7d9de4c6d840f69cf623ce8f0153026c0aa8a866f6int, 0x635190e031084c3fce8132f66da425f4e3cc9ec8af1b4483318f758ab5ce834aint),
            y3: (0xf0d78bbed4532022c1b59f9ed96d1286a80d1ef521645c544b650f6284aeb41int, 0x221c8b9cd25331ff6efb4422bb084765ebe330d6fbc3a170503dc786c974c555int),
            t3: (0x100c873eacf5325a0d458c9f8cbcc99fe402853e7da92ec9a6ac412af11071edint, 0xbeb2fe2de14fce99cae9c83c41a9f83178585ae83c173c45b719d90274b3ff3int),
            z3: (0x14b65bb7e7432634b22ca2c3167c57af0511fc4e69473efaed7a75b0c18afbcdint, 0x2fc5887cbc70ccb31e2de488ed8f10c7797e50e444a1b7c4a4610b3feee72b67int),
        },
    );
    lemma_chain_double(
        base(),
        ExtendedPoint { x: 0x635190e031084c3fce8132f66da425f4e3cc9ec8af1b4483318f758ab5ce834aint, y: 0x221c8b9cd25331ff6efb4422bb084765ebe330d6fbc3a170503dc786c974c555int, t: 0xbeb2fe2de14fce99cae9c83c41a9f83178585ae83c173c45b719d90274b3ff3int, z: 0x2fc5887cbc70ccb31e2de488ed8f10c7797e50e444a1b7c4a4610b3feee72b67int },
        0xe8,
        DoubleWitness {
            xx: (0x5516b300841a3761237f75a4cd5454cf6bddd2a431e6b3896c2a65f9d1f41d20int, 0x717e057793909e7f1304e53f501fc6cee7b7b091d13e3d9cae3a932c6078b444int),
            a: (-1, 0x26fa1db960cdec92034f2c8b98211366c05f3712ec01e6251c56cd29f874bbdint),
            b: (0xa098553adf790c52749cdc50e42bae1b3471e740a0ae143144d3e4c07655b48int, 0x13089b64c37f7d090b4822d052e84994afa034cbef13dd72d2b6b1adfbe92f1int),
            zz: (0x13af8828800673dfc2439841f7c4bb95e9e83164ecec4e85e34e10a10648b033int, 0xb391d7406727f9afef3f288f3607b90cf12b96b505d9f50517d7bb6d8f5133eint),
            c: (0, 0x16723ae80ce4ff35fde7e511e6c0f7219e2572d6a0bb3ea0a2faf76db1ea267cint),
            dif: (0, 0x13f182549d4e6f88f80709bb4538c9d210bf0246fcee08b249a01b7bfc8b8ccint),
            xy: (0x1d39622c60deafddfd2309e7088249bb1874f85f1eacf1e67963b3d65c3d5263int, 0x38e60f1a5b52e6417b048bdd302ec035105c9e1849de7cdc035228e783e4372fint),
            e: (0, 0x71cc1e34b6a5cc82f60917ba605d806a20b93c3093bcf9b806a451cf07c86e5eint),
            g: (0, 0x3a02b91e244d699b0e974f5beb095cfb6fff6bdedb15c397ef0d7ed7f45deaeint),
            f: (-1, 0x611b97fcfefd54abe63b67ebe19176b36c9827ea4cf47997dbf5e07ecd5bb833int),
            x3: (0x5f529fb2c5e21e639061ec17b48146ef0ef6873ee0088f0d4f408e24e4357ef1int, 0x12842fc91b16ab59458fb55aa5fd171387c412b05bcab3c71f7fe18739760dc9int),
            y3: (0x9facd14d2a05c6df9b3bbf11336b2b58c696eb0fb3044c20e246d6a72c0a8int, 0xdb1faedccaa825888d92ba6787b35c4b72549e76f6bd7397c80cd120337c200int),
            t3: (0x1393a8d2abda357136db4a7a874318987e3045239f69115fa6e78919d31d2ccint, 0x5b983c738758e37995182550409b685a284bc531f1c2cc445e4f3aed0149b01cint),
            z3: (0x3097c307e0c0d7fadbed1b6ae9eab8018d5e81f037443df757f671855a23db6int, 0x523ee571d870457f155ac44f0c54a7f5fa07e5ca495e866f3699933bb302ef4int),
        },
    );
    lemma_chain_double(
        base(),
        ExtendedPoint { x: 0x12842fc91b16ab59458fb55aa5fd171387c412b05bcab3c71f7fe18739760dc9int, y: 0xdb1faedccaa825888d92ba6787b35c4b72549e76f6bd7397c80cd120337c200int, t: 0x5b983c738758e37995182550409b685a284bc531f1c2cc445e4f3aed0149b01cint, z: 0x523ee571d870457f155ac44f0c54a7f5fa07e5ca495e866f3699933bb302ef4int },
        0x1d0,
        DoubleWitness {
            xx: (0x2f51d34c011652ea8084f9bb1973dd73796ae76da2a8af702e2c9771ea0d5aeint, 0x4d6c802d9367c81bf09b6e9ce164a20bc21e2be84b3a593a2cfb0c919693223int),
            a: (-1, 0x6f16df50506700c67430211e3b8b8de4979bc1447b4ab66b5d304f35e696cddeint),
            b: (0x19e2e22e476304c8ef029295f99f9c0ef0fbf77b05d47d813e217c48cb1b97dint, 0x1b825a700b467210fd43d65e46623a4f8c75983df09f17873965446962524683int),
            zz: (0x3a5974d695530ccf49a8a8310081330b8dee87d6e0037eef88ebf232cb33b5int, 0x71b755196e73f1721b9142710d2c7f8861fedba6b14ca175b59c12a4e95164dbint),
            c: (1, 0x6f8102dfb34a659c03e8acda10b7270b7040134a629ae6ec6b38254ad2a2c9b5int),
            dif: (0, 0x539484e045208eb576ec4abff52953950b2629068aab9ee423cb0acc8444875bint),
            xy: (0x22ffbcfed47ad6ea95b8f3564657d82cff109e690c532327fa0bda550011b3fint, 0x95a344dc76efe095d9aacd797c0ab60f99b5245ddc1ba996d97ecd77a036c1int),
            e: (0, 0x12b4689b8eddfc12bb3559af2f8156c1f336a48bbb837532db2fd9aef406d82int),
            g: (1, 0x16ab926d320ff58f3e3a1f74784bf02ed053b57f6beb71f3969593a048e91460int),
            f: (-1, 0x1b1836e0a8630d3b6d8b4aa27136a128b3d14638094ee7062b5d6e5476464aacint),
            x3: (0x45f23a9977d949e5b8fbb22f5471bd017e777961127e1db9d4c2a585d8166cint, 0x4a4d4587d89856dc34a3cf9cc670530560bc8b99f811275fcea569c7b6a510ecint),
            y3: (0x10582a933dd693394bd021f665c126443553f4e14d77b970829559b7cd54572aint, 0x2a77bf8ec53fc0adb175abbaee52dc3d3884d9dbce5effa0b9786c9f0c486f6int),
            t3: (0xd7c45258744f90528b1890ca21acc85a6ff183eb826003652f277971caaf07int, 0xae2774ce42aca072c01745a72fa75a07bb1bf53abd9581db7317ef7b263cc2fint),
            z3: (0x54c66d4beef570483b1b5ed5811de15a029789e00ba912d577c24f7e622ff3cint, 0x33db443cf9327e28c06d66dd8addc11a5cd46d2680de286dd15dada8489a7144int),
        },
    );
}

/// The multiples of the base point, from the multiple by
/// 0x3a0
/// to the multiple by
/// 0x39f6d.
proof fn lemma_order_part_2()
    requires
        extended_valid(base()),
        extended_valid(ExtendedPoint { x: 0x4a4d4587d89856dc34a3cf9cc670530560bc8b99f811275fcea569c7b6a510ecint, y: 0x2a77bf8ec53fc0adb175abbaee52dc3d3884d9dbce5effa0b9786c9f0c486f6int, t: 0xae2774ce42aca072c01745a72fa75a07bb1bf53abd9581db7317ef7b263cc2fint, z: 0x33db443cf9327e28c06d66dd8addc11a5cd46d2680de286dd15dada8489a7144int }),
        same_point(ExtendedPoint { x: 0x4a4d4587d89856dc34a3cf9cc670530560bc8b99f811275fcea569c7b6a510ecint, y: 0x2a77bf8ec53fc0adb175abbaee52dc3d3884d9dbce5effa0b9786c9f0c486f6int, t: 0xae2774ce42aca072c01745a72fa75a07bb1bf53abd9581db7317ef7b263cc2fint, z: 0x33db443cf9327e28c06d66dd8addc11a5cd46d2680de286dd15dada8489a7144int }, times(base(), 0x3a0)),
    ensures
        extended_valid(ExtendedPoint { x: 0xbc0c1c1441415bda1abf4ef82af2189c561ba2acab8c267986e9e8c1c424354int, y: 0x68f97327d2a959093d2136084b1a24f4216d037e5d6517573bf982114d722178int, t: 0xa4c6a13e9b00db6ac924a24c5a0ff38ef2172aa156e0e69ab87c2f382f77fa1int, z: 0x7224b06be385f0125a182165809e7a467da09c02c51ee83b1787bb09f40db63int }),
        same_point(ExtendedPoint { x: 0xbc0c1c1441415bda1abf4ef82af2189c561ba2acab8c267986e9e8c1c424354int, y: 0x68f97327d2a959093d2136084b1a24f4216d037e5d6517573bf982114d722178int, t: 0xa4c6a13e9b00db6ac924a24c5a0ff38ef2172aa156e0e69ab87c2f382f77fa1int, z: 0x7224b06be385f0125a182165809e7a467da09c02c51ee83b1787bb09f40db63int }, times(base(), 0x39f6d)),
{
    lemma_negative_base();
    lemma_chain_double(
        base(),
        ExtendedPoint { x: 0x4a4d4587d89856dc34a3cf9cc670530560bc8b99f811275fcea569c7b6a510ecint, y: 0x2a77bf8ec53fc0adb175abbaee52dc3d3884d9dbce5effa0b9786c9f0c486f6int, t: 0xae2774ce42aca072c01745a72fa75a07bb1bf53abd9581db7317ef7b263cc2fint, z: 0x33db443cf9327e28c06d66dd8addc11a5cd46d2680de286dd15dada8489a7144int },
        0x3a0,
        DoubleWitness {
            xx: (0x2f9f494e5705dd36126deed58a76b692571b8ce6ffd743859fd7dcfa30191535int, 0x2d9f7aa8db9d24da849efadef2220511cc9e68af40ffa1760f4a3da1313d445bint),
            a: (-1, 0x464e2caa4e00586dae9add29177fd2f3871f3b53befeba88f0b5c25dcec2bba6int),
            b: (0xf8e9f8727b13352c61f7b81eee1780dc99fc047654a9197f897aa3590e156int, 0x7352d4a137410ba01e57b473781e66aebf896328d3ab25b0ac22d3e3fa45930eint),
            zz: (0x17323a9d0d9ad9dd3b4a7d8af13c42e8fc748175c6d91a972f1ed3adb816ad86int, 0x4a005b7a3e5b3511e592f05b7d07da548e1b03654683c06bf8c1a7faffd66c8aint),
            c: (1, 0x20130fa15318ecdb97ec08aef06ddca3c87862c78d0924d8f1834ff6ffacd913int),
            dif: (-1, 0x46e8ff5c405cca15c37d00bda903444a1b537c2deb51f0d74492ee78d47d2899int),
            xy: (0x1b38050ec1f07ef3d3704a4def743fa9af5afba81311a835343fe846bca863aint, 0x663af12adccb0f7e2c0b6a5f7ee9a9a186d1762f8e411d3e66a51ec3b25f448eint),
            e: (1, 0x58883b028ff8a1b424dcfcb6f4317b3db9e5485c1c83de7dcd4a3d8864be891bint),
            g: (1, 0x45b359f85ba3e6c599b8b99485fc619cf2eafa7992ab843a9cd89642c9084eb3int),
            f: (0, 0x25a04a57088af9ea01ccb0e5958e84f92a7297b205a25f61ab55464bc95b75a0int),
            x3: (0x1cbbfcce669f752b52effa4cd2881e19c87d22385b62759a0659bd517b2a9024int, 0x5d8553a074caa1ebffd294e462d6185b38ebfc5914efbc97d4329466802d77bcint),
            y3: (0x2aa2487b51c5b84216b2a33bca4e722783a48971d0f856bb1ae2f22be23ba13aint, 0x416db6b809513d105cd2763af738460b80981463b870d0926c814484396e5fc1int),
            t3: (0x362714c4eef5aeb8a1427004d313a82054d46976b54d615e960b75189e901083int, 0x1038041b29a012408591044fffceae71bdd806274b0e96100cb50ae7aaeb18a0int),
            z3: (0x169f4e121381845c4173de219a01e625bf21624af51e39f206c259d81411a509int, 0x193b357c9aa38736e119daa084d55d84b6d6d3a067b599e7c851b6fee1b859d7int),
        },
    );
    lemma_chain_subtract(
        base(),
        negative_base(),
        ExtendedPoint { x: 0x5d8553a074caa1ebffd294e462d6185b38ebfc5914efbc97d4329466802d77bcint, y: 0x416db6b809513d105cd2763af738460b80981463b870d0926c814484396e5fc1int, t: 0x1038041b29a012408591044fffceae71bdd806274b0e96100cb50ae7aaeb18a0int, z: 0x193b357c9aa38736e119daa084d55d84b6d6d3a067b599e7c851b6fee1b859d7int },
        0x740,
        SumWitness {
            a: (0x562355e553ccb6978cb887bd7588d3b647eb8d1b8c80ba22c29a1359f7a6837dint, 0x150a2ce78b4df04502196e5ce6ccb6d061bd2eef15d0ffff5b427f9848417e4bint),
            b: (0x3174ebd50e3b4913e991dbe68582311b126ea777c5537712dc316a90e7f7fe54int, 0x93142a077fad800b24531d4d4edf5e14c88dea2aaeeda0715b6e68294df6adcint),
            dt: (0x5f4d32fff29d6752fba31c109e73d0a3318ca3d869aaacc93271d8d66373df0int, 0x8f56019b25edfc92a214af978d90c3f1bf743afaa8ccb32a739fa0b76cb88b0int),
            c: (0x88c001faafa40cba1a1f62d49d4ddfdcdf9257ef79ebc22245f163aafc12548int, 0x2b54aae76c6017d6fdaa4f63e54577a8349d7a7da6a685975dd3725d1421bc38int),
            zz: (0, 0x193b357c9aa38736e119daa084d55d84b6d6d3a067b599e7c851b6fee1b859d7int),
            h: (0, 0x1e3b6f880348c845b45ea031bbbaacb1ae460d91c0bfda0670f9661add20e927int),
            s0: (1, 0x2b056305547e61b4296b3317506c866165c66cb9cd62312b40b3d8ebb99bd77cint),
            s1: (1, 0x4e7a2cab4d8fef627fa28fd19ba7c19a97abbf79df4db594e896ec1ba05d0dddint),
            ss: (0x1d1f785fefa76a7e88d7164b2747dcebe280238d298af627b1363b83940bf3daint, 0x3f6923550c9e29f05b477208f61110ced21faa8e9237daffe27dd2a1597a5e32int),
            e: (0, 0x212db3cd095561aaa6e8d1d73a56641d23d99cfcd17800f971846c867c59750bint),
            f: (-1, 0x61d431e857e0eca816a96344a931bde1d5f6fd25c10d704f6a7e44a0cd969da0int),
            g: (0, 0x448fe06407039f0ddec42a046a1ad52ceb744e1e0e5c1f7f2625295bf5da160fint),
            x3: (0x1bff9cf11be70b97cdbfddba0ae16fec26794dc306953979d2b62ea64958aabfint, 0x5317bb2a922f6554e366115e62f8cd97ad35ff795be8dae88cbf5c6daeca3b21int),
            y3: (0x11e13c5edf5c568e4384bbcf47fd031abd7615ee40d7882e29ad1c5b4d16b18fint, 0x4567d9ab923a93c5763a8894e3bfb9dd9410fc608119ed9835facccd5a1651baint),
            t3: (0x8a703f82625d443d5d893130f9135240583a9ecaf05d11a9dc42b5e31452665int, 0xb86b9ac5e955c05fa6556e11c6b3b7a6f8620d98639b2e5fd07f5084c42b148int),
            z3: (0x39db91b127755eef5458cc9e11aa22d3946e001e01791fd9f4702ce269f422f6int, 0x2ce1234c43ae64245f08f037c4eb99c85496ba2f803381a19e68ac26edaad96aint),
        },
    );
    lemma_chain_double(
        base(),
        ExtendedPoint { x: 0x5317bb2a922f6554e366115e62f8cd97ad35ff795be8dae88cbf5c6daeca3b21int, y: 0x4567d9ab923a93c5763a8894e3bfb9dd9410fc608119ed9835facccd5a1651baint, t: 0xb86b9ac5e955c05fa6556e11c6b3b7a6f8620d98639b2e5fd07f5084c42b148int, z: 0x2ce1234c43ae64245f08f037c4eb99c85496ba2f803381a19e68ac26edaad96aint },
        0x73f,
        DoubleWitness {
            xx: (0x3b8eb578ee2da3300914ed28ab2a70fc8e8f8d4a648e585d456a173faab9ef34int, 0x21a03897f5e448cc9360c1e148e8c5959c14a136794d64f6629b72308f024b0dint),
            a: (-1, 0x524d6ebb33b9347b9fd91626c0b9126fb7a902cc86b0f7089d648dce70fdb4f4int),
            b: (0x298d83fe8fb547eefc2c41f08a6845f059736fc4e06938bb967e66745332ec2eint, 0x4358949edafa884cc8fa56480a57705edee198c3f924208259af8d069adc4ef6int),
            zz: (0x115fccfc5f97e5f6652fc7340dfb4ed129ab89fb1c0786b770a1a5fd47b6c768int, 0x1be6129486082e7adf9ce6a8771a8ed73de2c25b9c7a267a54b9e57675b6187cint),
            c: (0, 0x37cc25290c105cf5bf39cd50ee351dae7bc584b738f44cf4a973caeceb6c30f8int),
            dif: (0, 0xef4da1c58beac2ed6debfdeb661a210d8c76a088d8cd68643b500c7d62165feint),
            xy: (0x31bf4522d3998d9af21ef7ac70fe54411af4dc1dc5d7e01419f7da3235fcc0d6int, 0x56b9e1283ff051845aa08f207732d0d0256166b3cfa076d51e76863a747da624int),
            e: (1, 0x39861afd564325c082074638e4c3c99af70529649f4291ab3ced0c75e8fb4c47int),
            g: (1, 0x21b85c06e5163f8035999466c16eaac942ccf78d7fd6bb8bf7141ad60bda03e9int),
            f: (-1, 0x5dd9de3102a35fd2a9999f1ddcdb65201ac516d946e0ca964da04fe8206dd2f2int),
            x3: (0x2e91addc9a42e9b16e441f80a9b431f88a8eff033ced689c758aa976ced049e8int, 0x6fcafb63461466e6bdf205ad42c5afcd41e535b3eaa08175288ec6e5ed8b0f36int),
            y3: (0x459b3682ca39cc211ee76edc87ac9a2acfd8f61423a433caf08e128531ac541int, 0x1ac7af25abbd9893986da4056345e743efc81788630a1b111150c7a3b9c908edint),
            t3: (0x76be21f35d6104361af4afb37a6dba16c836cfdf0c98276f863869e1a819cd7int, 0x3c09122d9547ebc2d41e76dfe97d3002740a6a2fd9afec5ce5bb5d7a6313149bint),
            z3: (0x1b4c6bb302ea9e14a78f1b88a3bc8fa2202c2c4dd0f30d50689a045b62929a2bint, 0x3f523adc733fad3b7928feca293b5689dc8d66eb38056eb6c304485872ef3a17int),
        },
    );
    lemma_chain_double(
        base(),
        ExtendedPoint { x: 0x6fcafb63461466e6bdf205ad42c5afcd41e535b3eaa08175288ec6e5ed8b0f36int, y: 0x1ac7af25abbd9893986da4056345e743efc81788630a1b111150c7a3b9c908edint, t: 0x3c09122d9547ebc2d41e76dfe97d3002740a6a2fd9afec5ce5bb5d7a6313149bint, z: 0x3f523adc733fad3b7928feca293b5689dc8d66eb38056eb6c304485872ef3a17int },
        0xe7e,
        DoubleWitness {
            xx: (0x6bce135e5d69a8a5a5169250ab4a50d9e4b72b93537505496ffa086880c35804int, 0x39f9d68a1cdbab40be87c396a36cf3a4814ff9d33776b37ac36cd3eb00c80760int),
            a: (-1, 0x39f3d0c90cc1d20774b214716634e460d26daa2fc887a8843c932c13ff37f8a1int),
            b: (0x62fb2624840046d29b8f4d26fb81698679ce2e5f572453afd3d0c15f551d6deint, 0x41fa7322c07306c975f622258e4e7edb5967aba7776ac794aeeacb5b9927d48bint),
            zz: (0x22963062866f6e41a92112b9a2f2a9e557be7e607fbc48b3061003c3737c2f05int, 0x248a212aacf16bbfe094c48a5fbaaeac735a3e4d243a63f810e2fa5b8ca43f0cint),
            c: (0, 0x4914425559e2d77fc1298914bf755d58e6b47c9a4874c7f021c5f4b719487e18int),
            dif: (-1, 0x6be704f975ec488631f5ca53e1883d8accc3a28b511b3cee8da860b766102417int),
            xy: (0x19d32034eb8f52c6be5fa0b98457672cdd491f87e118be0eb8c8ebe4b9727e50int, 0x3aa310338d53d901e98372f84b6a169ed4d8b67a196600d2057d8e43802a46aeint),
            e: (1, 0x1587913f10a34bb9fcd0de88d32553855f3c8f132cda5a50afb1c8800548d5bint),
            g: (1, 0x8009c98a3975b88b76e5e8eeae18b36d817b1d43ff41419eb7df770985fcd2bint),
            f: (-1, 0x32da019673520151297ead82350e05e34520d93cf77da828c9b802b87f174f14int),
            x3: (0x971a18f68e36d11850e6bd2d529e73b60654aba16871e9caf35928a6bec2b3int, 0x4b9f8e997121b53cbad5e2b421359a220a78091b794dc4ac2fe1e5654fa85d69int),
            y3: (0x772c868cc0901919279e96c66200d60b6f38274902c359be87e9c2601967d36int, 0x518a71febca12c77b596d13c2d3be69654761c263be0872278986d141c8efda7int),
            t3: (0x1409fe02f7033f1540e675b21b9e002ba0a2249432998980b786f41b3d0264cint, 0x623b6371f8a538972781d8451713eff07c43fa850c626eaec1b748f64f5958e1int),
            z3: (0x3829dea771e2bc28572326e5ba978a6d148c5c7dd9f4e5b33c19644bbad51e6int, 0x435ba91e089fe2ba7487bde95259d2bcccc48af63f3ee75c6231d3be7ffbfa76int),
        },
    );
    lemma_chain_double(
        base(),
        ExtendedPoint { x: 0x4b9f8e997121b53cbad5e2b421359a220a78091b794dc4ac2fe1e5654fa85d69int, y: 0x518a71febca12c77b596d13c2d3be69654761c263be0872278986d141c8efda7int, t: 0x623b6371f8a538972781d8451713eff07c43fa850c626eaec1b748f64f5958e1int, z: 0x435ba91e089fe2ba7487bde95259d2bcccc48af63f3ee75c6231d3be7ffbfa76int },
        0x1cfc,
        DoubleWitness {
            xx: (0x3154c6bb163535d07a1b559b2c83d980113265956491e399f1aef778e5b4ffc6int, 0x2b0e05cc0ce4bea35ba18a5fe3fa44141d713c70efc77998df58ef88a430754bint),
            a: (-1, 0x48dfa1871cb8bea4d7984da825a793f1364c67921036e26620a710765bcf8ab6int),
            b: (0x395a82bc4efbc7bbcd959225986917dd24d9cb1991be892ca35bdc7d924c9d88int, 0x5352962bfbc120608a4a24c2afc9b6fcf15ccf342b40acb4f2c8307d564ae569int),
            zz: (0x27231d7fe7ec227196e546911b721496a79e4232dd5ebc0e39380abaa5499052int, 0x63db2b3cdb01c9dcf85d0074a353f6175d94449d6a3bdec23e1fcb4587251e12int),
            c: (1, 0x53c8af268c661671bd8028e13d061429676ae537d47961857c3f968c0e4a3c23int),
            dif: (-1, 0x697ab2ae4a951b8c808800ed7f7fb4f998ad3c60e4f491b02ddedff80584a54eint),
            xy: (0x3530faddc3e6e383a89cd86d842d73e943ad6123e8072a962f79e50ed2cdea6eint, 0x50260b1fef2147a25fd9df0b5fa894c694b669e8c304e678099364fed495ca11int),
            e: (1, 0x2c5e6eecb4a511fc8c79e60eb5af5187d5af2fce860b70f11326c9fea92b9421int),
            g: (1, 0x2844905feedc61bd2ea89a62cbcf72e8d3eb92c33b79331c136f40f4b21a701eint),
            f: (-1, 0x4869888c8c13c893a4624989986b36c4c03e518e66fe2d95972faa67a3d033fcint),
            x3: (0x1bb6cf8ee17b621041db45789f43161e13094cef561874f1eed0dfcd683df3c4int, 0x339f2c0d1c5f0a37486c27d58e7da20499ef153f23258e41fc6f5c592afa6fb8int),
            y3: (0x24a36a53096da1ad8fa609b94a80c62fe74aa291eca9e18a78072ee4bbb5657cint, 0x4eaaa3851a2e5edd0e51125a619276dfdd22a91d1a6f3f013b62d0d2f81419a8int),
            t3: (0x285ea7f5e48f7c974c58ab99bb03c3c3c5846ab689f96f35e21db1f8a43313c2int, 0x64c82921ec87b9e5ef1ae338034aa036e7176e1dc82373d7d29363bf0391534cint),
            z3: (0x19270815663d44dda1665616adb29c0e7ed940e9b33a9938a4d284594d9ef05bint, 0x3321e3328c6724a236b8ca533e4dc1ef9d9543328ef522ea0711af4c7b1d672dint),
        },
    );
    lemma_chain_subtract(
        base(),
        negative_base(),
        ExtendedPoint { x: 0x339f2c0d1c5f0a37486c27d58e7da20499ef153f23258e41fc6f5c592afa6fb8int, y: 0x4eaaa3851a2e5edd0e51125a619276dfdd22a91d1a6f3f013b62d0d2f81419a8int, t: 0x64c82921ec87b9e5ef1ae338034aa036e7176e1dc82373d7d29363bf0391534cint, z: 0x3321e3328c6724a236b8ca533e4dc1ef9d9543328ef522ea0711af4c7b1d672dint },
        0x39f8,
        SumWitness {
            a: (0x2f8bee85512be060564d928d8749b0a8aece84987aa9c9d2d7e1eb3d34b12ebaint, 0x3eef9461844a690aefa2c56803d2d567ce3dcdae9fe4915f15af411b721e0056int),
            b: (0x3b76925bd98760920fea5827c8f992742cfcae8aee30f02dd9ff9a0137ae9183int, 0x44ea592df3e27556baca889a14e3402c65a5dcda56cde6998f0f4b08530a05fdint),
            dt: (0x2503173ae76d2a1f9f8ddc8ebbd7301d5cb1436334271e0b646e792600bc3b82int, 0x32088530b057ce254b01a40abe2bd32d8c5d542d04471b29ff5306f91c5ac40aint),
            c: (0x2fbc0023f097303d26f04eeb91621e35d5589e572af21e9dfd6c81c816aeaeb1int, 0x49910efdbc56c8a809395d4694f6cadd7303387961fa52b291a032b04313861fint),
            zz: (0, 0x3321e3328c6724a236b8ca533e4dc1ef9d9543328ef522ea0711af4c7b1d672dint),
            h: (1, 0xfec463c4e8f6119773375fa0f143d8ee0260685f6b41bf9a4be8c24c5280652int),
            s0: (1, 0xe5c283f0cefebcc23836227e66e40df23541a593d96714437d22d2d230e895fint),
            s1: (1, 0x4e7a2cab4d8fef627fa28fd19ba7c19a97abbf79df4db594e896ec1ba05d0dddint),
            ss: (0x9b88f8445b87da2cb4693bbe985b4ca188c360a01f2df8b1e57cb7bab3c376eint, 0x61ccfa8fc1a32c1d9e5b03109ea23e22613cf8cecd002ab1b7c599d99ccd3295int),
            e: (0, 0x51e0b4537313cb0427278d168f8e00938116f248d64c0eb813070db4d7a52c43int),
            f: (-1, 0x5d7e7b87f9add94260b94514b2f8cf177e4faebc2cf92c3675717c9b3809e10fint),
            g: (1, 0x8c54add1f2070020cb84f91c9a2b4c7bcdad7a8f0f1199d98b1e1fdbe30ed4bint),
            x3: (0x42086c50cee2b7f9399e743a1186a164e984c07256887f10da33c540859f8ee7int, 0xccb19ebb70bde4eb56da384448c8aae5697f29f14ad190fc16e7fd57f4fec06int),
            y3: (0x134650437d8950343742321aec1dc3ac578e8eedb70ee6d66bbc2f21ce98132int, 0x8e6faa0dc7790b8b2c5f77fc888ae6dbec1a26f53dc57207c5d4c7bf0a42d4int),
            t3: (0xb3efcb27935988ccc8b8b52b8f4bbfa8ff4000d09f9b77b1f2036b720f8cac2int, 0x5e9f93c09a5dae7a3ae8daba5dd8d05c3a3abcf4fe2bce85ffc9df504a70f4b4int),
            z3: (0x712c9801099c5c3ecc2ac8180261d0c6e5ceae9a299db4caf815fdcf98a9da5int, 0x1c6cac7b2e3d3955899a7971569ab40c18e185065d01ff5e746e3d8eb8534c0int),
        },
    );
    lemma_chain_double(
        base(),
        ExtendedPoint { x: 0xccb19ebb70bde4eb56da384448c8aae5697f29f14ad190fc16e7fd57f4fec06int, y: 0x8e6faa0dc7790b8b2c5f77fc888ae6dbec1a26f53dc57207c5d4c7bf0a42d4int, t: 0x5e9f93c09a5dae7a3ae8daba5dd8d05c3a3abcf4fe2bce85ffc9df504a70f4b4int, z: 0x1c6cac7b2e3d3955899a7971569ab40c18e185065d01ff5e746e3d8eb8534c0int },
        0x39f7,
        DoubleWitness {
            xx: (0x1696d2a1f27b1d94fb0677671f91a51ad08afde5693e688e68ac713ed88f4d9int, 0x400340ead7d6107872c07516b738c22b45235d96ac0c1f064ea348e28bc61b4bint),
            a: (-1, 0x33ea666851c76ccfc07962f1526915da0e9a466c53f23cf8b15cb71c7439e4b6int),
            b: (0xaf0158709edb3b71f604f58cdb29c1f98b0a7f060f08a29a01d5112ab7e2int, 0x70adc1c0f2a6663ab897a77e7e7ad4394dc41484f42d4534700c0bc690d747aeint),
            zz: (0x6f82b88d6ff591051b21c204d7ebd2b4b668011ab4e51b9e7222d82b939c5int, 0x61721445e539dbff03a6f6acfbc125b86405484d33ef54a8a6d56fbfd7a5563bint),
            c: (1, 0x4ef68138a0d63ab5d4141551ede0736b744cec9767e04d524daadf80af4aac75int),
            dif: (-1, 0x372a4bfa88be83dd3b1b937add9019a61493d5ea5fc353c34150ab54e3629d09int),
            xy: (0xfb7fa1609fb4d83fb73b2915f8b2608a0394dc13a4d22c62fe4c9a9d6ffc6int, 0x37027593c10df885c8039675d94573730fef64b28594d0dc9a50d7e116e0132int),
            e: (0, 0x6e04eb27821bf10b90072cebb28ae6e61fdec9650b29a1b934a1afc22dc0264int),
            g: (1, 0x30aa80d61ad055c245d73267c742120e08a0b6ee4821262e2168c2e405112c63int),
            f: (-1, 0x55a1a6f0a3979854a4fcf51de30376a7e8116e59e03f34dad3bde36255c67fefint),
            x3: (0x514441e900e3d335ff0774cc46e30044043b869c58e253e331c0a09ab56c43cint, 0x18c96acc5f9c7261e4400895397dac3f176619d808e3801af28e9a1f12971320int),
            y3: (0x172874e22742c84d6cd96c7455bfc9cd748126580c052317e4199f4f48e05506int, 0x40ab05f2db40a92f85d5fc7e3e9fe7227fc75ac2464b1684c0fc434133d8f175int),
            t3: (0x345a73ceebdb396143d9063694b415ad8021b7a0f2309544c6beff2265726c6int, 0x63cf26fb758342ecf889c37beee8f6d7e88d53db48b49788ea8ace39972442beint),
            z3: (0x23f2946b10f15ae41dfa2ccfbd0075dc2f2b382aef5e364b38066d7eed7a3e3eint, 0x9408c86c29a40657a4cce4b6c8a0792fbed0e024159ee2bda01480e86254f2fint),
        },
    );
    lemma_chain_double(
        base(),
        ExtendedPoint { x: 0x18c96acc5f9c7261e4400895397dac3f176619d808e3801af28e9a1f12971320int, y: 0x40ab05f2db40a92f85d5fc7e3e9fe7227fc75ac2464b1684c0fc434133d8f175int, t: 0x63cf26fb758342ecf889c37beee8f6d7e88d53db48b49788ea8ace39972442beint, z: 0x9408c86c29a40657a4cce4b6c8a0792fbed0e024159ee2bda01480e86254f2fint },
        0x73ee,
        DoubleWitness {
            xx: (0x54cb8c6f055fc47fd6495714a3152cd8c1572835b9a4a306450abfa51280dbaint, 0x69b94d387145bb9a9638e517fbd6e07668c01a75eb5b1fe8e94a1b57c005b646int),
            a: (-1, 0xa345a1ab857c1ad9d00f2f00dcaf78eeafd898d14a33c1616b5e4a73ffa49bbint),
            b: (0x2412da975a2f7377c18cd6024807a220d2e7c94d0375e848e2e796983ed36617int, 0x4ad91a98057b2446ad94f87ea4320ee0a2e4ba7c71589c182751d2f5b85a1962int),
            zz: (0xbd082c57bba3a7c57f2dbcbf16020b5c6ddd3c4fbd3e7583487de3935062c9int, 0x18fbe6a439f71d5cdd272bb7102239e7d90e4e5d663c276fa950125e9cc3a7d8int),
            c: (0, 0x31f7cd4873ee3ab9ba4e576e204473cfb21c9cbacc784edf52a024bd39874fb0int),
            dif: (-1, 0x3348e6d5dc7a1aaf22a5d279733ac0b39bd67313a348fbfcef6411b087a0305aint),
            xy: (0xdd3a69793828757d52a7e6db73638fd9cb0970164ff907f41c761c2ef6bb48bint, 0xf2dbd5a63226353e4df6c27f308d547abc1f4a60a0708ce18b106e34ba12915int),
            e: (0, 0x1e5b7ab4c644c6a7c9bed84fe611aa8f5783e94c140e119c31620dc69742522aint),
            g: (0, 0x550d74b2bdd2e5f44a95eb6eb1fd066f8de2440985fbd82e3e07b79cf854631dint),
            f: (0, 0x2315a76a49e4ab3a9047940091b8929fdbc5a74eb983894eeb6792dfbecd136dint),
            x3: (0x92ff67bc45ae782e0f7080c8101e214a930f1f204ef6979608e5d4f6d0ec7aaint, 0x66eff1a0a7a7014555868cc6e297c692eadce8df65f88e92f917e4cfdde95238int),
            y3: (0x25a037393a92ce807f5b9c5d165c48d725a7fb241f7fe8157ba1be64e21898d2int, 0x2f31d55681b1fa32a5c32ae500e85699c5e9d90660b0eb1e4f979c1e7b47af60int),
            t3: (0xd6df93a6965c151c5eb49318d142c9ebb402a402eac063acb0770971a035f0bint, 0x305ea37f94df1a984c920897af4b029c4e74986852fb9aa81761cc4902f563b9int),
            z3: (0x19bd8672f0aca9bdea16a634d92be5d3290d33a4431839b07e6e6d8a53b812c6int, 0x558dad6975bb292e092b98c81a8e4b828c94106aa1588f814be8d6e58fca4793int),
        },
    );
    lemma_chain_subtract(
        base(),
        negative_base(),
        ExtendedPoint { x: 0x66eff1a0a7a7014555868cc6e297c692eadce8df65f88e92f917e4cfdde95238int, y: 0x2f31d55681b1fa32a5c32ae500e85699c5e9d90660b0eb1e4f979c1e7b47af60int, t: 0x305ea37f94df1a984c920897af4b029c4e74986852fb9aa81761cc4902f563b9int, z: 0x558dad6975bb292e092b98c81a8e4b828c94106aa1588f814be8d6e58fca4793int },
        0xe7dc,
        SumWitness {
            a: (0x5ecfa6fb8c571ea90f74c2d1f165188c4920c9d96170d7c629203e9634d113c0int, 0x528c174f689ded48c50511f625399f3a7b1df1e6bad50b7946e124a677380e50int),
            b: (0x23ac85ccba8187dd6edd45cfd5481d8ca0211c62bb2cd0092c5c0a9b0afdced4int, 0x1643ed423fa97adf5da2c05078ee97c1ef516c1abfe3427d0910ff334a31f32cint),
            dt: (0x11c383e9a2cff8f19048ba9672657718e1b18809ea6e331f82666f4b889f8ff6int, 0xc0ab291a5c0b909485637ca245c9411e9338c8a09faf620017ccb7d8c530f3int),
            c: (0xb7d0e23afdc75aef9efed5a7a6c25615b2fb2d2aea71282ad6b11562225e75int, 0x64a1cb6d3f88440622dbabd191e7167ffcd8527712cdb78deb6d1d2bba9f34e3int),
            zz: (0, 0x558dad6975bb292e092b98c81a8e4b828c94106aa1588f814be8d6e58fca4793int),
            h: (0, 0x68d00491a847682822a7d2469e2836fc6a6f5e017ab84df64ff223d9c16a017cint),
            s0: (1, 0x22341fa3ffbb7e2fc80fdfa3d9de45275d091de2c6ab1db248af80ef59310197int),
            s1: (1, 0x4e7a2cab4d8fef627fa28fd19ba7c19a97abbf79df4db594e896ec1ba05d0dddint),
            ss: (0x17276cab8461ef0389275b02b2aa98595ffa4f1124008a843c9dabbb8d608b65int, 0x5567a11cde20d2733086d93a07561227ca9c86f3986dc378c49fbc89e2dd7ef6int),
            e: (-1, 0x608543de5f76e7934118defb72cfb330b3eaccf51db3d18174ad98af21737d7bint),
            f: (-1, 0x64d9894f5fd062701989c4fe92490d07e37961f68e8933f2607bb9b8d52b12b1int),
            g: (1, 0x4641d1838ba5efebf8cd6c91a2d389fd35aebedeb427eb103755f4124a697c75int),
            x3: (0x53f7607e1eb6b291ecaa0190a84862809482d1ddfed7b22cc15b88a15ac8629dint, 0x67c91a74a33242af8e6df83b34abcc07fe1c9bf84ec398d7c13884a14f8d056eint),
            y3: (0x3f85407b5c7ecdcf5db18431cf6cf78b2cb920cd11f04189a679168e723aaedaint, 0xf116aeae36ed423d5dd830d4ab9f9bf1a4ec4e4bfb0e0c50a0cb820bfcc0ed2int),
            t3: (0x574405b329770968dee3926a31513264816d2f2c74e1b81131ce1329a68805c7int, 0x265ad844eff37384a268928f2742ccd141c4c6bbb0723d239f77b041b0d43ccdint),
            z3: (0x3d1e6fbaa331b33058a3d3741760b65106fdc2b121782016bf4a3c3b5e2751eaint, 0x5d35ad7b01230eb5e59b16cb3f53fba55d4d5ac9b63bb98c866964ecc02ef4fbint),
        },
    );
    lemma_chain_double(
        base(),
        ExtendedPoint { x: 0x67c91a74a33242af8e6df83b34abcc07fe1c9bf84ec398d7c13884a14f8d056eint, y: 0xf116aeae36ed423d5dd830d4ab9f9bf1a4ec4e4bfb0e0c50a0cb820bfcc0ed2int, t: 0x265ad844eff37384a268928f2742ccd141c4c6bbb0723d239f77b041b0d43ccdint, z: 0x5d35ad7b01230eb5e59b16cb3f53fba55d4d5ac9b63bb98c866964ecc02ef4fbint },
        0xe7db,
        DoubleWitness {
            xx: (0x5cea2789bcf5a2d22b6ac13fa0da0fd59b9ddf44658904581a557aaadb71913aint, 0x25c2ae23d8d57c8c046dd6de4d95c00dbcac873ccaa31de192eeb1f403d7ea0aint),
            a: (-1, 0x4e2af92f50c800bc2ecc0129bc0c17f797111cc6355b3e1d6d114e0afc2815f7int),
            b: (0x1f5605269bb60a08775282d0373d8c081a5d0ef02b031d351d3550b515efcc3int, 0x3e57a28b9a63409c391fdcc147cd905576f342f8d46d5f5ea33f5cfcaa2ca781int),
            zz: (0x4af177b20d32050b89b5b6e0e259cda4fd58ea8624b28d7869990d606ceaecdeint, 0x65c891957a861d752f15f11e9d70a74d59957e4bcabefd6153761e5b07b8813bint),
            c: (1, 0x57a37bd7cb6ebda22af20a35313f76955f6d5894957f9ec3a6ec3cb70f710275int),
            dif: (0, 0xfd356a3b664c01ff5ac2468743e87a2201dd9cd60eddebec9d1f10e51fb6e76int),
            xy: (0xd7d6086cc1864049afcdc99072b82dccb3e02e4b14584b4038d67fd3c938a6dint, 0x59bc7d5adea62965a798801c233e43550df9c43166d1c311b6391a4a210eedcfint),
            e: (1, 0x3f8b536293aed5831bf728303cdaaea4c835e45fcda52a246c723495421ddb9dint),
            g: (1, 0x1894f467c18dc41034b205e2fa37d047ba46bbbc09ca417d1050ab08a654bd77int),
            f: (-1, 0x34df1fe31fbc83b63cf9d3b5d29a31b7ae97072a7448feb869646e5096e3bb03int),
            x3: (0x1cfb0f3faa0cd15442e6ea18863702cd11172aee113f01892acf82b130d9d62eint, 0x2553795c85c3dada4bb91822ec1e516107b1371938953fb178e72ec01f226ba9int),
            y3: (0x35b0f655e4d7e4a2258f4690878c0cfff654b16fb245161faeb85da4e891991int, 0x11dfcbd6bc7f1b37e86eee9d76cca04e291a35ffa7da4738ec8c69b6309c5d49int),
            t3: (0x8acacf5abefd09bdd9a5129fedcc132042cfd1445f01d821730cfbf1584b127int, 0x3fdc26a9193779202dd995bca42d446013b24e41eb24dd201f6155f6388aff37int),
            z3: (0xb360924a75c4905b16f84e885235477592094375a7a8798db36d59fe833059eint, 0x6c2a6aa90fc1beaf38f5d7ceea2f70516a47496347798b4a1a5efdefabb61fc7int),
        },
    );
    lemma_chain_double(
        base(),
        ExtendedPoint { x: 0x2553795c85c3dada4bb91822ec1e516107b1371938953fb178e72ec01f226ba9int, y: 0x11dfcbd6bc7f1b37e86eee9d76cca04e291a35ffa7da4738ec8c69b6309c5d49int, t: 0x3fdc26a9193779202dd995bca42d446013b24e41eb24dd201f6155f6388aff37int, z: 0x6c2a6aa90fc1beaf38f5d7ceea2f70516a47496347798b4a1a5efdefabb61fc7int },
        0x1cfb6,
        DoubleWitness {
            xx: (0xc04a0a291b1a39d920e094e79818227a20475d6271bc4fad686c7fe6d7eecc2int, 0x14cd724b239ea144cd376b0b134379cbda1428461f1a55e36811b8f746abc8cfint),
            a: (-1, 0x5f20350805fedc0366026cfcf65e5e3979a97bbce0e4061b97ee4707b9543732int),
            b: (0x2c182d15716d20139ee39a8f71871bc5114137645168906a7d67bf5bb5187c1int, 0x30bd5ffd2ebd7cc01a6a6c1d55fcc5652920399eb3d1d92e1f68941477a49710int),
            zz: (0x64ec3f199a5b7cd9928de6e4d99441c076cde26c7297d6c5390f80822bda132aint, 0xfa32c89d2ad5098744d41159187d0b62869cede5873cfeec0fa0e3ee10bb987int),
            c: (0, 0x1f465913a55aa130e89a822b230fa16c50d39dbcb0e79fdd81f41c7dc217730eint),
            dif: (0, 0x2e62d50ad7415f434b9800dfa06198d45089421e2d122ced7885b2f341afa022int),
            xy: (0x5c14b34ecaaadd9984cee00f036e61abc2a8593c71fa13b505a152e4b13427eint, 0x23c210424602e6884d5f5bd3274529ae97acffff9b824e02e09795b761d5d5b3int),
            e: (0, 0x478420848c05cd109abeb7a64e8a535d2f59ffff37049c05c12f2b6ec3abab66int),
            g: (1, 0x1befedb20b1edb7b4d33011242b94b994f0c115894b7834ab756db1d30f8ce41int),
            f: (-1, 0x70973bf18f61b79297d256ef294b823251f6179ee3ce3f6c3562be9e6ee15b34int),
            x3: (0x45750941f08a7ec086c5e9fa205e5365f758cb1f5455e71bd22e72794c4947d7int, 0x2ebb7c49b14ff73e3b14afe077bfbf8ccf078886646639fc28c341e6f128cae1int),
            y3: (0xb2dae1b1e01ababe65df68eb6fb970fa3356ddf68839e349d90ae87cae6508aint, 0x323cffce69de48bef6f5dc813328abadc9e0beaaff6bc6431d8e9aa4b67cb418int),
            t3: (0x1c9d93b52fac3911a87eb990dfef2846fe2db33e7c5943217192d8b1b3d94128int, 0x6d9bcef0f270039232a6097d8f7d992c496ffe33b0e165a62b345e28a4cd4264int),
            z3: (0x1b22064715e4afb1264c331a0af5321b012bcc38d4f57650e6c3b8a3f66e6781int, 0x5bfc47f237fa366acca5661e1b0522b69d4e8b7824032865996b0e9ea28d98b3int),
        },
    );
    lemma_chain_add(
        base(),
        ExtendedPoint { x: 0x2ebb7c49b14ff73e3b14afe077bfbf8ccf078886646639fc28c341e6f128cae1int, y: 0x323cffce69de48bef6f5dc813328abadc9e0beaaff6bc6431d8e9aa4b67cb418int, t: 0x6d9bcef0f270039232a6097d8f7d992c496ffe33b0e165a62b345e28a4cd4264int, z: 0x5bfc47f237fa366acca5661e1b0522b69d4e8b7824032865996b0e9ea28d98b3int },
        0x39f6c,
        SumWitness {
            a: (0x3b06dce703cac82c714e216a28d8e114fe7cd4347064fa2e5bd89005f41ce2cint, 0x5e206b265c6341ae39036fc47862f5094d63f83b5ad5e6bbe742795a4c45bfc7int),
            b: (0x25f97c45801685de74c7bccc763f080d11b77e877a557e96b988727fe150f8c5int, 0x172fb80f00f6dc7119debcb87ad9651852829b72c1d0bae5c441afdfb015c3bbint),
            dt: (0x2840f1db998dc0915b6b25c1cc2e99d172094eb4f7b7645fd8d27d055a3208a7int, 0x477d0b275dc3cc468303a06dfc350e184866a147104ed50c0af8286e621d167dint),
            c: (0x348e33604ed6522187befed1842ef2aea998d88d21fc5a9e6268563ecd47799int, 0x530016bd5922c36a926d97567cce3a92f0283990b3dca1c0b2ec538a06e3eabcint),
            zz: (0, 0x5bfc47f237fa366acca5661e1b0522b69d4e8b7824032865996b0e9ea28d98b3int),
            h: (1, 0x1627be233bca0d71fa85474e99a821c4c28efab1ca845a2ab84293afc5b8381int),
            s0: (0, 0x60f87c181b2e3ffd320a8c61aae86b3a98e8473163d2003f4651dc8ba7a57ef9int),
            s1: (0, 0x60c7d6918e437d8827d3dfcfe8923870431f0f21be6a05e37815793fb5885c83int),
            ss: (0x50f4429e26032df10edbb39dbea74e3007eab3426f8363e3ff41c72914ce2eb7int, 0x433b4b5f5eaf15c83f54539d01d1e6fe86f5f8a25d4f88d0196763cafcb46b4int),
            e: (0, 0x2d138d3c22e5085644cf0c4e6829c539c466fdf092cb2ea56124d01b36fc333int),
            f: (0, 0x8fc3134ded773003a37cec79e36e823ad2651e7702686a4e67ebb149ba9adf7int),
            g: (1, 0x3b0eb75c677f7c8d2bd9256c8e31854439b92105d7e16e274c576229a971836eint),
            x3: (0x37e620810d92f1e27ae5ae17a01081295264ea332a88e3859aff2f492789e1int, 0xbc0c1c1441415bda1abf4ef82af2189c561ba2acab8c267986e9e8c1c424354int),
            y3: (0xb495c896c4f9c7d1f5709a7e26c59a8ef693a408469cedd67e073e2b1c62f6int, 0x68f97327d2a959093d2136084b1a24f4216d037e5d6517573bf982114d722178int),
            t3: (0x89d577c95f2cb6362edb3d1c559b34123727c3a5a59bc1295113ab05df612int, 0xa4c6a13e9b00db6ac924a24c5a0ff38ef2172aa156e0e69ab87c2f382f77fa1int),
            z3: (0x493ca07b6bf91f3514c6d1b333321b3dfcfda067e96ff2ca7fde0ddf0b449bfint, 0x7224b06be385f0125a182165809e7a467da09c02c51ee83b1787bb09f40db63int),
        },
    );
}

/// The multiples of the base point, from the multiple by
/// 0x39f6d
/// to the multiple by
/// 0x73eda74.
proof fn lemma_order_part_3()
    requires
        extended_valid(base()),
        extended_valid(ExtendedPoint { x: 0xbc0c1c1441415bda1abf4ef82af2189c561ba2acab8c267986e9e8c1c424354int, y: 0x68f97327d2a959093d2136084b1a24f4216d037e5d6517573bf982114d722178int, t: 0xa4c6a13e9b00db6ac924a24c5a0ff38ef2172aa156e0e69ab87c2f382f77fa1int, z: 0x7224b06be385f0125a182165809e7a467da09c02c51ee83b1787bb09f40db63int }),
        same_point(ExtendedPoint { x: 0xbc0c1c1441415bda1abf4ef82af2189c561ba2acab8c267986e9e8c1c424354int, y: 0x68f97327d2a959093d2136084b1a24f4216d037e5d6517573bf982114d722178int, t: 0xa4c6a13e9b00db6ac924a24c5a0ff38ef2172aa156e0e69ab87c2f382f77fa1int, z: 0x7224b06be385f0125a182165809e7a467da09c02c51ee83b1787bb09f40db63int }, times(base(), 0x39f6d)),
    ensures
        extended_valid(ExtendedPoint { x: 0xbffc06d90ae1501f2b5191ab43dd6750108f0b8568455fea388b95c90ba39deint, y: 0x59637887ee88e5ddfc18674c3f3de7c2d589cf9176077d156b02d8c144b00b2fint, t: 0x52449614682c8d980d80b49caefe99e57a0a7d6394b5d0003f37c8527bbb8ca1int, z: 0x5d004d76e2eb711737e3ed865bc169a3c791222ce00c4534239f6d3b48817f47int }),
        same_point(ExtendedPoint { x: 0xbffc06d90ae1501f2b5191ab43dd6750108f0b8568455fea388b95c90ba39deint, y: 0x59637887ee88e5ddfc18674c3f3de7c2d589cf9176077d156b02d8c144b00b2fint, t: 0x52449614682c8d980d80b49caefe99e57a0a7d6394b5d0003f37c8527bbb8ca1int, z: 0x5d004d76e2eb711737e3ed865bc169a3c791222ce00c4534239f6d3b48817f47int }, times(base(), 0x73eda74)),
{
    lemma_negative_base();
    lemma_chain_double(
        base(),
        ExtendedPoint { x: 0xbc0c1c1441415bda1abf4ef82af2189c561ba2acab8c267986e9e8c1c424354int, y: 0x68f97327d2a959093d2136084b1a24f4216d037e5d6517573bf982114d722178int, t: 0xa4c6a13e9b00db6ac924a24c5a0ff38ef2172aa156e0e69ab87c2f382f77fa1int, z: 0x7224b06be385f0125a182165809e7a467da09c02c51ee83b1787bb09f40db63int },
        0x39f6d,
        DoubleWitness {
            xx: (0x131080d53f31df07c86d4dbcc99c83ec766d473987c78ae930a5fd4ec574d95int, 0x71c527a9628e6d1dfca2a8b815a7fba9afefcfc7aa735ec9ac30d1813cadc5fbint),
            a: (-1, 0x2287fa9c70f102a36972f4ff3f9dc5ba3cdd43b558afd3553cf2e7dc3523a06int),
            b: (0x5f0e36318826fe8b4a145cea1cab78d4493975fa01904fef80d4a359171442eeint, 0x1e5168ba4d44cb55fd21f9a47a91489b7596a9b0d3de352d4c43cc88ec2be552int),
            zz: (0x7062c2c5f6f6ec4bc1b164c0d612eff462952e34de8b172d6eb3f2866c5a3cint, 0x24dffd3569a0b61150f4b0baca58d1f4dbecff442189bd799ade115ce1162e0dint),
            c: (0, 0x49bffa6ad3416c22a1e9617594b1a3e9b7d9fe8843137af335bc22b9c22c5c1aint),
            dif: (-1, 0x57c4be42a367c21c6caf0db3830a6bc581f4ce8d81ab2407078b61f3d72654b5int),
            xy: (0xaa476970e5e73596e0a5ae84d2459682bc83290cd9130a56028590cd716a921int, 0x49afd7b288845a19b76dae171265ba31e560015992974dc4b6855bc320eba3fint),
            e: (0, 0x935faf651108b4336edb5c2e24cb7463cac002b3252e9b896d0ab78641d747eint),
            g: (0, 0x2079e8641453db8033b928f46e8b24f719647dec29693262a012fb06af7e1f58int),
            f: (-1, 0x4aa7954c6aafeca5c5099f86e37b5912b5482366e654136e6a56d84bed51c33fint),
            x3: (0x5ee7945b6cb590ddd8645c85af5e0709cf7ba34ca0d47f1cedf2829bc97e7eaint, 0x3a624d27b0981681564ccb6d921dcde99d580b42b0b6c33830b609b7d841bd18int),
            y3: (0x189666b5d3a4abba903aec9b6348ad31e3d18ed0b494b348c09e84c335f6c77aint, 0x736c0acf3f91ab6dfe9f51973d337ee1b9ccbda3ab74386f88e30199cf8e41beint),
            t3: (0x6f935d9523b8a26f4506ba6160ffdebc7eb18392d8e42658ff3693eb90a740bint, 0x6000efa77b2791d9638c4224d6785c69035dbf0490b18db4b65ab293d6b6410bint),
            z3: (0x14e9ecdfb2b8cffcbaa787e451b4bb64053761bc8a586dedd6df65bcbebd2a21int, 0x411c87b7245ae306b159a05815802cc957bc39d815b860bb2b4a5b6ae6049487int),
        },
    );
    lemma_chain_double(
        base(),
        ExtendedPoint { x: 0x3a624d27b0981681564ccb6d921dcde99d580b42b0b6c33830b609b7d841bd18int, y: 0x736c0acf3f91ab6dfe9f51973d337ee1b9ccbda3ab74386f88e30199cf8e41beint, t: 0x6000efa77b2791d9638c4224d6785c69035dbf0490b18db4b65ab293d6b6410bint, z: 0x411c87b7245ae306b159a05815802cc957bc39d815b860bb2b4a5b6ae6049487int },
        0x73eda,
        DoubleWitness {
            xx: (0x1d6746f60bd7bc9280ced83e211d5a088f767fc5b6ab8f1c029309f8f3bba45aint, 0xb14691a93330df193f13e8835f91c5fb0547ef47d1aa754533fa2ab1e20cde6int),
            a: (-1, 0x68d93e38966a6f569f48997fd3a8bba5a369250e82e3b4aaacc05d53e1df321bint),
            b: (0x72eaff34279f5733952161f98ececf76eba7758d5753289fc28ea9adb2e61501int, 0x1fbc072ef39ee207158ddfe72ecb2af9e62e85217e3728fe4420d9cd90c3f403int),
            zz: (0x2491ec317f94fbcc968a4da1f01a98e3ea27c0614683c26cc04b9e6000e26527int, 0xff90e182acd992aefdfeebd173ad7b2e64fea2bee7c2b0a04b1fb8a8d81fa0aint),
            c: (0, 0x1ff21c30559b3255dfbfdd7a2e75af65cc9fd457dcf856140963f7151b03f414int),
            dif: (0, 0x491d3709a2cb8d4f89bab998a4dd90abbd3a9fed04ac8bac689f8386511b3e18int),
            xy: (0x3a2106bcd09f723ed9a05d3a2ac6164ffa2b0b3400e08b7907227ccbcb00c2caint, 0xac958e3c892bc5002ac298f464706875d6fc185115ede41c97620eb21cad06int),
            e: (0, 0x1592b1c7912578a00558531e8c8e0d0ebadf830a22bdbc8392ec41d64395a0cint),
            g: (1, 0x14a79e14606bd415819ca15ef8d20e9a35da062d011c81a9f0e1372272a3261dint),
            f: (-1, 0x68a32937346e1f07d5169becd3fe3739bcf7d5d824228794e77d400c579f320aint),
            x3: (0x1378cdfcd960ff02b10a91ae51100dd76969707c4eaa9f7097cba5f7e493211int, 0xc6a4ad27792f786460cda1d1604bb3d6b668287c8abddc9734dd433a0feaa67int),
            y3: (0xd06d08bb6b6bab031d53edfaecbf0fc31ed86b056d0e4269a8f5a8e093d0c78int, 0x16c40fb6393f56f933b33a374be0f20e4de6e43b2683af5537f6b55a6b588c40int),
            t3: (0xd9b12e828c578700f8221ab5136bd8e06b0d66519e67617a47e683ebc4f116int, 0x17678f946bc963100f9838a8a573c47d8081950c51ceb6c2b9bb896ba8ae680aint),
            z3: (0x12a49f90d3c479a1ac2b0f74e9badd433bf497e2d425e56133b001e3de1ea08fint, 0x1246b8227c175791d0cf4db297f7fbfbd1a6f8a36fcc7776f3b02f0c00b58693int),
        },
    );
    lemma_chain_add(
        base(),
        ExtendedPoint { x: 0xc6a4ad27792f786460cda1d1604bb3d6b668287c8abddc9734dd433a0feaa67int, y: 0x16c40fb6393f56f933b33a374be0f20e4de6e43b2683af5537f6b55a6b588c40int, t: 0x17678f946bc963100f9838a8a573c47d8081950c51ceb6c2b9bb896ba8ae680aint, z: 0x1246b8227c175791d0cf4db297f7fbfbd1a6f8a36fcc7776f3b02f0c00b58693int },
        0xe7db4,
        SumWitness {
            a: (0xfae71954f06a3a6a84e486192568226f9036bba2f4ebdf02194ebe85857a2dint, 0x5a1372a4addf59e4b25a82b11843a7eceb4603a3b1671a97591aa5d10227f638int),
            b: (0x11355dcb85ffa2f85a3a9591ea57b465238ca4e0d1c40d0f3852deb0d60bd27bint, 0x3fd02e47f4c501ecfa6d71108ecbe4bd7d640d2aedcc6c6af8b170bafa37b985int),
            dt: (0x898657ff34a28c15ae4cfb08c8dee4b700997ba74e2a035aa200d257017dac3int, 0x5cf4cc8991df6e2f88d68c01b8c60c60893713494f4741dab96ca0a8ebb88027int),
            c: (0x4456763df0167969d8dcf9a93a820a73d3d6c4c2bd3f6afb0d62e7627c2dd2fint, 0xbad7184c20e7e1511302d42570dd9ba9b717acd5bce04ec09651d6e82860500int),
            zz: (0, 0x1246b8227c175791d0cf4db297f7fbfbd1a6f8a36fcc7776f3b02f0c00b58693int),
            h: (1, 0x25f5f9997906de89798e1bb99d6db4a514ec6ccb9f352b0351cc168cfc5fafbcint),
            s0: (0, 0x232e5a88b0d24e7f79c0145461e5ad4bb94d66c2ef2f8d1eab44898e0c5736a7int),
            s1: (0, 0x60c7d6918e437d8827d3dfcfe8923870431f0f21be6a05e37815793fb5885c83int),
            ss: (0x1d5ec98222c2196926ed60472dcee91b37687fc6e19aeaf454603e91255b6482int, 0x34acf7771826f061bbfa4914ec0a81fc844c7a414e5349ac9eab30229ea196f3int),
            e: (0, 0xeb6fddd9f2011d8426c2d5b4e9ccd576f600d75af1e1ea94cdf1995a241e737int),
            f: (0, 0x699469dba08d97cbf9f207040ea224136357dd613fe728aea4b119d7e2f8193int),
            g: (0, 0x1df429a73e25d5a6e1ff7af4ef05d5b66d187370cb9a7c62fd154c7a833b8b93int),
            x3: (0xd66b91572011947f924995f76b109a08d1bf7392522e585b3b79215199fa7aint, 0x1d2c5fb1949e9d2f06ac5023b98b5d9ed5c66c08f2d8cc9bc49646a994d9811bint),
            y3: (0x9cef26a8ed3ef3dd89c72e7d5ac5a28750b72cc4773c107ed0e9feba793f2f6int, 0x45db8e2577e24476eb3d1068d5e32a3570b3e31b70146859bec98399ec1d09feint),
            t3: (0x4d18140587c2b61976d64b812764531d08397deca1217b95dfb83cbfc27af06int, 0x657dad7aa8678699176c0be43aa7ec339e0e6bb4d6924a0b6b7d812b2ab5b65eint),
            z3: (0x1b47a5c4e7225065028ccdd26ae75d20db80f81fad3ed942f6323fa73671130int, 0x3108766aeed2a88370b24003355671af6c87d43bbc60e5a05bb85677e31c2739int),
        },
    );
    lemma_chain_double(
        base(),
        ExtendedPoint { x: 0x1d2c5fb1949e9d2f06ac5023b98b5d9ed5c66c08f2d8cc9bc49646a994d9811bint, y: 0x45db8e2577e24476eb3d1068d5e32a3570b3e31b70146859bec98399ec1d09feint, t: 0x657dad7aa8678699176c0be43aa7ec339e0e6bb4d6924a0b6b7d812b2ab5b65eint, z: 0x3108766aeed2a88370b24003355671af6c87d43bbc60e5a05bb85677e31c2739int },
        0xe7db5,
        DoubleWitness {
            xx: (0x7576a110f80ecec8769c0192b1c09fd47a6e1f5d1168a573b8b73cdc598d733int, 0x64f04ec3f079456717301aefb2dbce7c621a0e954dfb75acfe04d31e934961a6int),
            a: (-1, 0xefd588f392437e11c09bd1856c60988f1a3956db202e65201fb2ce06cb69e5bint),
            b: (0x2a1882b69d069e73ab2ae75c9276523df3c4aeeace13d31172409801cb96e196int, 0x691993c398ba59373ad0714c692ac1ec3d91d1bf3b3d5c2dee7bce7c858f66eint),
            zz: (0x14bd30c472a0ae4b24eb1ccb3222c26a3956be01d667ea6a0365c7d9c936b247int, 0x17008029cb6c1998898985280e6bc27ada98feebbbcf4e0d85c29e12e743b86aint),
            c: (0, 0x2e01005396d8333113130a501cd784f5b531fdd7779e9c1b0b853c25ce8770d4int),
            dif: (0, 0x86bbf52ff98924da85cb60390335d6a2dca7851be4f108f23136ff8a45da7edint),
            xy: (0x1194645baf6ff2eae734e856c83913077ccfe79e479a7c9ef82d9cbb33c8490aint, 0x6a6707d9fe7bc3151fd42c5a13ae67d92d3e9f0c9321454792e11897a59ec2c0int),
            e: (1, 0x60e06860d35a08e20c6e80ac1dbaf7ad06bf9a1626442e9025c231304b3d857fint),
            g: (0, 0x158ef1cb72afdd748fb6c42d1d58b5a7b57cb289a5b6bc14e0e2e9c8350f94c9int),
            f: (-1, 0x5b7b98cb0575278bafdd91e50a2308b7540858b52e167bf8d55dada1668823f6int),
            x3: (0x4c72cde5f22f1059943c7dfda875ef325d9c9241e1177516d83145cdf04da8d9int, 0x6e27e9a581484702edb7b793e5cdc0abf30507475918cfad5c1e857b4b88fc31int),
            y3: (0x190e3a0f1c660fc2cf49c029a07b1207529be7f14a1fd939033c768282ba174int, 0xabf3430d10c53f7c18a0edc19ccc9b340fd5af63879903faecb6eb3f2553ba1int),
            t3: (0x7097869d9b37429f1dc8b4472835bc9c0fe087e680d2cd78f1c4b6b8779af41int, 0x1d141574566204c17afe0eb5ac3fd336353f16ad855cd233fe291871db3c052int),
            z3: (0x11032d7e5369a329b1d4c42a5fd4ff206836a1b4a034933f2683d31e0038d36fint, 0x1288f159fc8dfdd685bedf97e79bbd321e3ed6594ad8edc02195d2ed3edfa0b7int),
        },
    );
    lemma_chain_double(
        base(),
        ExtendedPoint { x: 0x6e27e9a581484702edb7b793e5cdc0abf30507475918cfad5c1e857b4b88fc31int, y: 0xabf3430d10c53f7c18a0edc19ccc9b340fd5af63879903faecb6eb3f2553ba1int, t: 0x1d141574566204c17afe0eb5ac3fd336353f16ad855cd233fe291871db3c052int, z: 0x1288f159fc8dfdd685bedf97e79bbd321e3ed6594ad8edc02195d2ed3edfa0b7int },
        0x1cfb6a,
        DoubleWitness {
            xx: (0x68abc0c357e30fc0a5a545314b83f5f68323d263a7bd4659c86a3fde445cb60fint, 0x3d224e6b5575ef4e70f0590952c0116cc9995866a6afe509d16544585e23cb52int),
            a: (-1, 0x36cb58e7d4278df9c2497efeb6e1c6988a244b9c594e76f52e9abba6a1dc34afint),
            b: (0xff0b654018fd14bf719e35df0b8128c13c6dcc77ef512177b0227f7216dd82int, 0xee5298b0ec0a505b73d82350ee97a323df081e74b28c3176f91bb4598b6bdbfint),
            zz: (0x2f6a258a9b434cb44630479baa61ddfc0dad8def74894ebf9d163af2111000dint, 0xf7c50f70af471c36dcd4e16891af76b6b2cd5b4c7adfa14c7728065e6a642c4int),
            c: (0, 0x1ef8a1ee15e8e386db9a9c2d1235eed6d659ab698f5bf4298ee500cbcd4c8588int),
            dif: (0, 0x27e62f5cc566e8f40b0bfcc9a7f84c664c33c9b50e25b3ddbf090061092576f0int),
            xy: (0xa3636896984b9e2f23585b9d6c628dcf28e0f698d7d658ad5f6330e94ce7517int, 0x6bad6a63cbdc9798f03092eb14374f50e9c95792e805eff08c2596208cbc70baint),
            e: (1, 0x636d2d746e1bb1e9ad274dce1eccc69c7fd50b22d00d83e2184b2c421978e173int),
            g: (0, 0x45b08272e2e832ff79870133c5cb40cac814cd83a4773a0c9e2c76ec3a92f26eint),
            f: (0, 0x26b7e084ccff4f789dec6506b39551f3f1bb221a151b45e30f4776206d466ce6int),
            x3: (0x2134f7a78e7e9660e56d1e61aefafc35da434d972afd908ae73b481e26c05115int, 0x6b58413f5416c20ac43ee0b5d612151149439e9992ab102633924e845768c03dint),
            y3: (0x17fc2f3400aff58605dc5993299ab78ba5436f4454a5271f6c07dd3fd7f40ee8int, 0x3d9539ed7e3dc9c393b9333d2e911fe4a96bae690cd502e37c2c0f8fb573ec38int),
            t3: (0x22383e457159d3d9552f260231b5985b1079277084f83e3cf024884aa3f93d07int, 0x58e3da0dc87693a40cdcf3845ae7005cf7a33b77b7afe9713a00056a95e420c9int),
            z3: (0x17467440048acfb10a532717723ea8b8dd8ef43faa29a7e50e51dec9a8309799int, 0x308a5ef2736c2db7d9f076023ab5f753f34eab264e08b4604e24d0e9162f9f3bint),
        },
    );
    lemma_chain_double(
        base(),
        ExtendedPoint { x: 0x6b58413f5416c20ac43ee0b5d612151149439e9992ab102633924e845768c03dint, y: 0x3d9539ed7e3dc9c393b9333d2e911fe4a96bae690cd502e37c2c0f8fb573ec38int, t: 0x58e3da0dc87693a40cdcf3845ae7005cf7a33b77b7afe9713a00056a95e420c9int, z: 0x308a5ef2736c2db7d9f076023ab5f753f34eab264e08b4604e24d0e9162f9f3bint },
        0x39f6d4,
        DoubleWitness {
            xx: (0x63658e6e1be2a8a457351e3ab5490e6a8954ef2d566457bc854ce207abb9ffeeint, 0x12943cde3b922c4317337cb5c7eadef5dbeb37c7d5000e16d104e6548c318e9bint),
            a: (-1, 0x61596a74ee0b51051c065b5241b6f90f77d26c3b2afe4de82efb19aa73ce7166int),
            b: (0x20b6bb15721fe484a6246851b32231267a20bed0bce2efa6a2b76c00625cee88int, 0x1c0132f112a6b7988053edf3134c7e9a462397f5421f2ad100b3199ce1ea5db8int),
            zz: (0x1453100f101b2aa5039094be9d6b37612d850c0ac7bf7e7b3ee7ca39ce6b9fa7int, 0x2b96fb1204ec78f8d2a638bef32223149039a280d06326591377c70d3048b7f2int),
            c: (0, 0x572df62409d8f1f1a54c717de644462920734501a0c64cb226ef8e1a60916fe4int),
            dif: (0, 0x45583783db64996c9bb26d5f2e6a7a7531aed445e8df23172e48000d91e413aeint),
            xy: (0x3905ef2b61413def16c96d6c7fb4d6796e8f0e139d2cfc3c00710dff44390702int, 0xab5fcd0bb1e511a737b84ca63ac044900cd1ce25f780d29d0ae6f96e8504256int),
            e: (0, 0x156bf9a1763ca234e6f70994c7580892019a39c4bef01a53a15cdf2dd0a084acint),
            g: (1, 0x96cf612d7148b556920713d4b619fa46a38602d6d1f1cba2fae334855b8cf1dint),
            f: (-1, 0x262ca741f6d916abf70dd7c76ebf31809d82bf2ecc572c0708bea52cf5275f3aint),
            x3: (0x70dd61fc96824ee85a48e8e6a3dbd31db79107a3a5b58a4341e55198fe99bbbint, 0x267e13f4e4ee67501a966fa13e2babe1a461f3f4517bca14630de86b17e4473dint),
            y3: (0x5a35b101868db2557c1bc61d8f3450937ba178b6bcee67180b66fc0a4ff2ec1int, 0x2ff698fc00a9f600cfa7a9c468b998d62856536c697d54d0f00282e838d0bdf5int),
            t3: (0xcd0565c784c457dfe7039e6ba2d9b1e55714e4cbb7c7d94ae3ab2a75449bce3int, 0x13ea2601079dc88e8a5d61a57215722d09fccfbcff6e12aac03e98b2f7d93405int),
            z3: (0x31a9270d43b8fa1be695dc3b63e4c0b7c2bad817dc4c199939baf106e4a7b93int, 0x4e00831c409288e011bfc16423c38e8fb92401cbf170a4a4d0047a0fe0db33ffint),
        },
    );
    lemma_chain_subtract(
        base(),
        negative_base(),
        ExtendedPoint { x: 0x267e13f4e4ee67501a966fa13e2babe1a461f3f4517bca14630de86b17e4473dint, y: 0x2ff698fc00a9f600cfa7a9c468b998d62856536c697d54d0f00282e838d0bdf5int, t: 0x13ea2601079dc88e8a5d61a57215722d09fccfbcff6e12aac03e98b2f7d93405int, z: 0x4e00831c409288e011bfc16423c38e8fb92401cbf170a4a4d0047a0fe0db33ffint },
        0x73eda8,
        SumWitness {
            a: (0x23742bd3180b846e8c086aa43a92b0d5df7c6f814800b9405b6b8fcee5a8694fint, 0x1bcdafe36c0b374e6f4ca83d4f1bb677d3529311d50f03e912d421efb03efa27int),
            b: (0x24414129e928b703729c7c88bce6a4732cada4d5a7b0d9f7cdf8f570cfb79653int, 0x691dd3be85fa3a13ece8f5b5158f60634c31ac4441c918a9a87de8a1b154409dint),
            dt: (0x7504a99dcf9cd576b6243551b7fa3ab4ce927f8644e4ba612b4ec4f9fe3f408int, 0x7670b12f717469bbb9cef0fdf306fd79ec7ae8b0baad94a47f9344516e6396dint),
            c: (0x70ff881444235a18a82e15f48ca140db454bc0588f1b70d37617c27420c2f2cint, 0x123a8688194d22769605d1f2c4d897f8a95f3b7528a8cceeb7569e86319e087cint),
            zz: (0, 0x4e00831c409288e011bfc16423c38e8fb92401cbf170a4a4d0047a0fe0db33ffint),
            h: (1, 0x10fddc4ec867f41a28fbc5ea5b093ed5cbc69b5316d9c093bb520a9261933ac3int),
            s0: (0, 0x5674acf0e5985d50ea3e1965a6e544b7ccb84760baf91ee553106b5350b50532int),
            s1: (1, 0x4e7a2cab4d8fef627fa28fd19ba7c19a97abbf79df4db594e896ec1ba05d0dddint),
            ss: (0x3a86a15e96824fefe23e92d7ef09a55fd54a9b5797caac244a11eb6fd9a80fd8int, 0x60ba7bb08651fcbf6df1567dcb00ebfff0edfa16efc7423de9191fb6270af652int),
            e: (0, 0x4fbc9f61bdea08a544f590936ff7ad2a25275ec3d8ed81aa2dc71523c577bb8fint),
            f: (0, 0x3bc5fc94274566697bb9ef715eeaf6970fc4c656c8c7d7b618addb89af3d2b83int),
            g: (0, 0x603b09a459dfab56a7c59356e89c268862833d411a197193875b189612793c7bint),
            x3: (0x291ce0b83c00a0e98f91cc653c8a2d626add4819718cae4ca7a85f6da504e5e7int, 0x620e2060401d4234e794406a05922fe13281b635ed9588ec9a75f537f5d41946int),
            y3: (0xe1ac3603e9c185f2ecce513e2e6788e202b3468b52bf2c644faddf89b908fa6int, 0x4f38ef4c9f87dc914ba21f4b5f22483140adc232b9e057768d9f43db441d600bint),
            t3: (0xbafe2011a98cb46dc87547d77a6a1a62c199a3edf51c3b78756772b357c2e4cint, 0x1d76e27fe1c98a1eaeeccaa723fd3b7f55df1e01d584baa92d5c3b7d375315a1int),
            z3: (0x319dfb598f5f00132d2d61a6778b128cdf3c1c0aa9e8e8fe93c603d600af2f8cint, 0x1a4e4fb70b67cb2c24f9ef28c121e82ff5039a4cfbdd174a70c8d3aa4ed26c65int),
        },
    );
    lemma_chain_double(
        base(),
        ExtendedPoint { x: 0x620e2060401d4234e794406a05922fe13281b635ed9588ec9a75f537f5d41946int, y: 0x4f38ef4c9f87dc914ba21f4b5f22483140adc232b9e057768d9f43db441d600bint, t: 0x1d76e27fe1c98a1eaeeccaa723fd3b7f55df1e01d584baa92d5c3b7d375315a1int, z: 0x1a4e4fb70b67cb2c24f9ef28c121e82ff5039a4cfbdd174a70c8d3aa4ed26c65int },
        0x73eda7,
        DoubleWitness {
            xx: (0x52f007008ac408ec3220b13c10d2de8b06922c8061235f63ae60773d9bf2f801int, 0x488a231f5beeeb4814c2bdb975bb0a861ff2c6658d44b7f5c52100f13e7bc723int),
            a: (-1, 0x2b638433cdae92001e771a4e93e6cd7f33cadd9d72b9a4093adeff0dc18438deint),
            b: (0x3623764ad9f48f358f912e6be2991e8163d009c0b21f47d07706544f5ea0e7d8int, 0x6866fc0136e55582ab4292cfede2ec5ffa22f4dec0e5d2394fec46bf5fe558a1int),
            zz: (0x5f81e262ae27720e7cee7809e60169eb3541e5e4cac4913a7064d03f09fac21int, 0x39c01303ee8c0165a61666d35c6a8f7a6d5fad5144f81b52add4ba449ef9b3b8int),
            c: (0, 0x73802607dd1802cb4c2ccda6b8d51ef4dabf5aa289f036a55ba974893df36770int),
            dif: (-1, 0x36ea2f85c066b9c5a66e5f86afa5b9248d658cc1b1d22dceeaf2b84d619ee03eint),
            xy: (0x43022388607c92f87890e75892b65e11e061ad78be1cf58f023722fa2461cadfint, 0x702893f2b3c54f8d722c771063380a9650b19fe0b7c4a201b55d4e1b6a238b23int),
            e: (1, 0x6c6380923ded21d2b11f1618bcce3d274da59bbe6f8ae8046aba9c37d4471645int),
            g: (1, 0x1fdcd8e1daf66a3a967fd5167827e1d9da302e7933a11a438acb45ce2169917eint),
            f: (-1, 0x204a5a2d277be4b77d8cdf77c8f49aea532e77d9a9af3f9d2f21d143e3762a0fint),
            x3: (0x1e30bb5c5d745de227e5b20aa33ee2f367ca0a5ae13d724cd8cf7c914eef6223int, 0x6469a2b8be57a3011dbbed1760e08885b7318e1d532e5931f955403d3db03de8int),
            y3: (0xf17dda7da0e20b5805780ad2fa2dc264f8db7a16e7f7e4cae08d0b09ca57c36int, 0x23c245c65f371d68b771be32cab245349ea15c99cad600803b3ce2dc63fe004eint),
            t3: (0x3357e172be065f36cf83ef362a8843f8e5167ee56a7cfd48901f9bfbd2cd0084int, 0x2ef3271d07e459f658460e9c1c0ae5b0d9e4433df40ba17c071151dcad7cc432int),
            z3: (0x8dffdc8debcd625bc2c3c573732acd238ba03c696be262efa9c9c0c6a059baeint, 0x19b88ad89f7f07fff803b37d4c6941d8d5d74524afd4dbafb110dcd6a71c96b4int),
        },
    );
    lemma_chain_double(
        base(),
        ExtendedPoint { x: 0x6469a2b8be57a3011dbbed1760e08885b7318e1d532e5931f955403d3db03de8int, y: 0x23c245c65f371d68b771be32cab245349ea15c99cad600803b3ce2dc63fe004eint, t: 0x2ef3271d07e459f658460e9c1c0ae5b0d9e4433df40ba17c071151dcad7cc432int, z: 0x19b88ad89f7f07fff803b37d4c6941d8d5d74524afd4dbafb110dcd6a71c96b4int },
        0xe7db4e,
        DoubleWitness {
            xx: (0x56f93a2fe40dfed5eee249e49407751e972dfe21b7c2c2d30ad9eb9967e6db8eint, 0x2c38e4834341c9a3082add7c72e36aa4cd56cdd32de07c195cebe75a561186b2int),
            a: (-1, 0x47b4c2cfe65bb3a52b0efa8b96be6d608666d62fd21ddfe5a31418a4a9ee794fint),
            b: (0xb07b278bdb38761589c8dd6199d26489f11ad5e0eb1d7f6301400d44541ce60int, 0xedcb4399773244e4e4389bcb9e734981d01efbcac1196baa9e67bdca9864964int),
            zz: (0x5b4e7623655a7125da1708fd6b33027058bede357675ab7f2adf72e1fc531c7int, 0x19a295240b6569f1f9245ccce3c95e7b6eedc8b182305b81df7edf5908523cc9int),
            c: (0, 0x33452a4816cad3e3f248b999c792bcf6dddb91630460b703befdbeb210a47992int),
            dif: (0, 0x38d80e964ee88f56dccb70cedcd738c86964e673260c492af92d9cc800682febint),
            xy: (0x1ef913a969afe4b1a4858439dcdcd6ad24b9fa8ea80500a16b7d9f8329ff367bint, 0xf914d30436d84944feec02ee0a091bdf1e023c2299475adb69589cec5e3a635int),
            e: (0, 0x1f229a6086db09289fdd805dc141237be3c047845328eb5b6d2b139d8bc74c6aint),
            g: (0, 0x569177097dced7f37952844850a5a1f8a368c5ec7e2f76a04cfa94815374c2b3int),
            f: (0, 0x234c4cc16704040f8709caae8912e501c58d348979cebf9c8dfcd5cf42d04921int),
            x3: (0x97ae6edb316ae664b731ae73bc9f827720ca950f69a2ecf208161c20f307b64int, 0x2720043d13a5b91067a66f1b13f82b02bf75022b9c53eade4af27d24346a9846int),
            y3: (0x2a72971a6a938777e7691b08f7f501c28f7e801b6b18f3fde6d62beaff955c68int, 0x59a0876fc8f7404154e0272da6a1b5eb8afb37e0aea1da92c6e758ce25103ae9int),
            t3: (0xf444873ae4202f6e30390600a8e8e71467ef1382bb23b3a54229128f54d69bfint, 0x26e0f9f83808f095e78f9fe911f8807cc53eb259e3dbce27e736daa5fcbd318fint),
            z3: (0x1a5bc2333b756357e6b784b42bd99f48ba2e82333f32b959c48cfae4e411413aint, 0x69b7d44bd998f6214963f47cce9290f30fea7b20a15f2887615e929a80f0e2d9int),
        },
    );
    lemma_chain_add(
        base(),
        ExtendedPoint { x: 0x2720043d13a5b91067a66f1b13f82b02bf75022b9c53eade4af27d24346a9846int, y: 0x59a0876fc8f7404154e0272da6a1b5eb8afb37e0aea1da92c6e758ce25103ae9int, t: 0x26e0f9f83808f095e78f9fe911f8807cc53eb259e3dbce27e736daa5fcbd318fint, z: 0x69b7d44bd998f6214963f47cce9290f30fea7b20a15f2887615e929a80f0e2d9int },
        0x1cfb69c,
        SumWitness {
            a: (0x316b0ccb880c9f8f02ced6fc8b16bf3fcbba8bdca80bbe8a39c5820313bd1c7int, 0x5901708480de84dece98faca2d900b238dce1874e8293e635aa7527eb36736ebint),
            b: (0x43bf8346c2a34993fb9fe324ead6203853542660ede761edc45b36032a558d9bint, 0x6b0f854be6c922a8e18940ea341df31cf4478f1bd5d044a9cc5fe05eac9e3b15int),
            dt: (0xe47393ac2e96920d45a6ad8e833e4181fbdf581ba45597591c1e0cf31c5be61int, 0x62c0f8d25990f57d08224ce08d0d479cf6ce8b5dfcd586a224c839f0fa16277eint),
            c: (0x48999123033e5ea1b14c22b3dee5a362b31b8c44e2fb8af195f0f2a253c59faint, 0x523bdc9c5e373fb71b004274678818a9fd2fffca7d12d8b2530ce8f8b3d29c14int),
            zz: (0, 0x69b7d44bd998f6214963f47cce9290f30fea7b20a15f2887615e929a80f0e2d9int),
            h: (1, 0x50234e7d3e0a2a3f7ce863ac580c263b2e58038dbdfb270e270732de600571ffint),
            s0: (1, 0xcd2e459b2ff7c09894cbe40b0f808e8f6b296094af7697211d9d5f3597ad32eint),
            s1: (0, 0x60c7d6918e437d8827d3dfcfe8923870431f0f21be6a05e37815793fb5885c83int),
            ss: (0xab4a953c84bf7f43e541710a280ca41c3b95bba60665436137bf4ccf6c76c0cint, 0x9390d5e36d080a22803c824783c784a945b256c1591ee73fc037dcfad672c7eint),
            e: (-1, 0x2d0366342263d3aade553c8029d22a14b9c0c5e157952364d4fc4af04d61ba80int),
            f: (0, 0x177bf7af7b61b66a2e63b208670a784912ba7b56244c4fd50e51a9a1cd1e46c5int),
            g: (1, 0x480609950e32b890312a5ee92c78d197b95cd6e81e73a53ab46b7b9434c37eecint),
            x3: (0x91e5bf082e7c0a38eaec3fafc0d908701ca00bb41b10740b35decb14eaa2bb9int, 0x613637f3ada57921eea5e432a3f980def369c9484528a666e524bd68518958c7int),
            y3: (0x31c9af1222db156d6dda0d484e6643a28be371ad3cc8e7eef5d08433cec21737int, 0x3150c9b1d4fe958ade90052a3f7ede328b0d165255a87e745c029700059b81ddint),
            t3: (0x1f1dcb34a831f2904ff5bdbe64f4b46bb4cf02c5bfd41f6a7a576b7a0e31e2c3int, 0x6b4aed300db53f03d558cd7513361eaebe501b94fcb42e376a012a6cdf962bdint),
            z3: (0xe97188c985bcab95c50e30de2fd78fe27f59bf4023a5c83ee4022d1e5c9847fint, 0x2436457d68ea43245659994057116dce92cabc41968f710faa115b1f0503af1dint),
        },
    );
    lemma_chain_double(
        base(),
        ExtendedPoint { x: 0x613637f3ada57921eea5e432a3f980def369c9484528a666e524bd68518958c7int, y: 0x3150c9b1d4fe958ade90052a3f7ede328b0d165255a87e745c029700059b81ddint, t: 0x6b4aed300db53f03d558cd7513361eaebe501b94fcb42e376a012a6cdf962bdint, z: 0x2436457d68ea43245659994057116dce92cabc41968f710faa115b1f0503af1dint },
        0x1cfb69d,
        DoubleWitness {
            xx: (0x51845b6cbfc141012497b7127a9f861c16c11ae9262db3d9c6ab186f09dcaf1bint, 0x2ef8693b4f7bed73ccac99410fea17eba4f66ff549c10ca067cfc23a07eabb96int),
            a: (-1, 0x44f53e17da218fd4668d3ec6f9b7c019aec7340db63d4f5e98303dc4f815446bint),
            b: (0x14fa8c55e09b6ea4842b6078cefd581da4f32829d3b3e6290d1f6174fb506f16int, 0x1f4585a7ae83a54278a32eaf01000fcbdd9d2e8640e8210c40f7352a2a2e09b3int),
            zz: (0xb4fb63a82579765a016995ccdd44e026234c16f7d727e7e50619618a7c634ffint, 0x3f3ba7335ceb569f4c7f6dd1e972f124022959bb8c4a6861f2bacad10cb0744aint),
            c: (1, 0xa89a71390392ff665c5039bc9440a42b0950f74189674c4e57595a31960e893int),
            dif: (0, 0x25afb8702b9dea91edea1017f8b7b04dd12a058775552e525739089acde73ab8int),
            xy: (0x295a8678c1e26d462da9078cd7db2619a29960c63debf87459d3b98c76933311int, 0x5ee14a4fad179638c2a2d2c28ea80538b8dea0ef8a5780a46194fb8dc637b7baint),
            e: (1, 0x49d4ed4c3091af29520bcd7d13ae326c1dff9ddc14b0a549c329f71c8c6f6f73int),
            g: (0, 0x643ac3bf88a53516df306d75fab7cfe58c646293f725706ad92772ef22434e1eint),
            f: (0, 0x59b11cabf86c0520796b69da3173c5a2dbcf531fde8efba5f3b1dd4c08e2658bint),
            x3: (0x391f5604091ffbfc62edb6e7d558c40e946408130c613b35dd3bb951f2ecdcb3int, 0x35f459800b21f3eac79db92baabba4b775e9891cf4eaf24bc35e6649401305beint),
            y3: (0x20953ecbd77b96dbfc2e001da805f6bebab379a68185dda05700730799a80da0int, 0x704a24623c971ce7192dd55082048335868b70e6b4f135b9c8e02291c97ce3f0int),
            t3: (0x180061f49e1107882f1abd25cd2012ff83e84579f18b0e71dd31cbb50e27e8adint, 0x47d2b9097527ffa2fee474e4fc5568afeeedd44090bfbf01ac73c948c8f53ffbint),
            z3: (0x4d8bc38640c7e7df7b7ea8406256a93be425cf99f2a0002a79cba8332ff9f432int, 0x24aed200724c3c347caae2675758ba925d107d4abdfaacede2497d1ededf4c18int),
        },
    );
    lemma_chain_double(
        base(),
        ExtendedPoint { x: 0x35f459800b21f3eac79db92baabba4b775e9891cf4eaf24bc35e6649401305beint, y: 0x704a24623c971ce7192dd55082048335868b70e6b4f135b9c8e02291c97ce3f0int, t: 0x47d2b9097527ffa2fee474e4fc5568afeeedd44090bfbf01ac73c948c8f53ffbint, z: 0x24aed200724c3c347caae2675758ba925d107d4abdfaacede2497d1ededf4c18int },
        0x39f6d3a,
        DoubleWitness {
            xx: (0x191c708546feaea1ff54450f49fd21610e9ae12a5af96d92a9ff8689b04639e5int, 0x4dfb0781e42c1ac0333bb2a56d8ca319cc20f87145e718ec7544e6002a0ebf1fint),
            a: (-1, 0x25f29fd145716287fffe25629c1534eb879cab91ba1743128abb19fed5f140e2int),
            b: (0x6cc3de5b6242f20694f3e8defffde3d132a3c1b2ff8426f8c5f5428bf4ca73a0int, 0xca26e4058527c4187824dcbed0d30981aa349dfc64fab541d7081d086a90d60int),
            zz: (0xb9b8317caf3f2d5103edcaa21392d2df5777111753382e254c2dd4e06c22e1aint, 0x10a512450c678b458f82bd8bd812fc3fec932ceb5acbdc08865ca12b41ac1426int),
            c: (0, 0x214a248a18cf168b1f057b17b025f87fd92659d6b597b8110cb942568358284cint),
            dif: (0, 0x19503190ed1ee646787bd796af0804536cf961b1f3c797be6d4a982e4f483382int),
            xy: (0x3442d0040b87766d72cba05deef8885e9fe361fbc81aaa69141d6e017558fe09int, 0x6c1cb92d486815c0598ad330f1dcc4378c93be6eb658ae5d9501dddb709bde17int),
            e: (1, 0x644bcb076732ae387fdbce59da17b069c569d8da6cb300bc2a03bbb7e137bc2dint),
            g: (0, 0x32950e119dc3dec98780732e89226583a23ff5718066ee66a82b9bcf5c9a4e42int),
            f: (0, 0x114ae98784f4c83e687af816d8fc6d03c9199b9acacf36559b725978d94225f6int),
            x3: (0xef5f7f7ef022f3e1a04fb566d80640cd1922ac3c52e98c518b6803b91a11a60int, 0xbffc06d90ae1501f2b5191ab43dd6750108f0b8568455fea388b95c90ba39deint),
            y3: (0xb0b75cd28189177cfdf242a0864c976b80369dcc61e051d562a57bbdfd2d855int, 0x59637887ee88e5ddfc18674c3f3de7c2d589cf9176077d156b02d8c144b00b2fint),
            t3: (0x15e66079dbe61dc7c0a6d96e4c5183d81c07bf8e2c17ac7e49c238f9ccb6f939int, 0x52449614682c8d980d80b49caefe99e57a0a7d6394b5d0003f37c8527bbb8ca1int),
            z3: (0x78b90bfd5259b10d38f0939f02c30d0ce27f417ae4d6e3ab1c8cf9d20193e25int, 0x5d004d76e2eb711737e3ed865bc169a3c791222ce00c4534239f6d3b48817f47int),
        },
    );
}

/// The multiples of the base point, from the multiple by
/// 0x73eda74
/// to the multiple by
/// 0x73eda7532.
proof fn lemma_order_part_4()
    requires
        extended_valid(base()),
        extended_valid(ExtendedPoint { x: 0xbffc06d90ae1501f2b5191ab43dd6750108f0b8568455fea388b95c90ba39deint, y: 0x59637887ee88e5ddfc18674c3f3de7c2d589cf9176077d156b02d8c144b00b2fint, t: 0x52449614682c8d980d80b49caefe99e57a0a7d6394b5d0003f37c8527bbb8ca1int, z: 0x5d004d76e2eb711737e3ed865bc169a3c791222ce00c4534239f6d3b48817f47int }),
        same_point(ExtendedPoint { x: 0xbffc06d90ae1501f2b5191ab43dd6750108f0b8568455fea388b95c90ba39deint, y: 0x59637887ee88e5ddfc18674c3f3de7c2d589cf9176077d156b02d8c144b00b2fint, t: 0x52449614682c8d980d80b49caefe99e57a0a7d6394b5d0003f37c8527bbb8ca1int, z: 0x5d004d76e2eb711737e3ed865bc169a3c791222ce00c4534239f6d3b48817f47int }, times(base(), 0x73eda74)),
    ensures
        extended_valid(ExtendedPoint { x: 0x1f57304f76f677d846f6489a542c86a943060158e8d70cab303f5303a82278afint, y: 0x15eb4c726326ee2043f2c3eaa7e5f117e876138e0aa098c60a2c3a21a4eb144cint, t: 0x5fbeac76388299d90958577b2934c69fb6df377890149e147b1afc14dcf4315aint, z: 0x22fc164a76d13aa6e1de2c8d32bf0fdb1855f11f05fb2b47ad7cb0a6b77cd832int }),
        same_point(ExtendedPoint { x: 0x1f57304f76f677d846f6489a542c86a943060158e8d70cab303f5303a82278afint, y: 0x15eb4c726326ee2043f2c3eaa7e5f117e876138e0aa098c60a2c3a21a4eb144cint, t: 0x5fbeac76388299d90958577b2934c69fb6df377890149e147b1afc14dcf4315aint, z: 0x22fc164a76d13aa6e1de2c8d32bf0fdb1855f11f05fb2b47ad7cb0a6b77cd832int }, times(base(), 0x73eda7532)),
{
    lemma_negative_base();
    lemma_chain_add(
        base(),
        ExtendedPoint { x: 0xbffc06d90ae1501f2b5191ab43dd6750108f0b8568455fea388b95c90ba39deint, y: 0x59637887ee88e5ddfc18674c3f3de7c2d589cf9176077d156b02d8c144b00b2fint, t: 0x52449614682c8d980d80b49caefe99e57a0a7d6394b5d0003f37c8527bbb8ca1int, z: 0x5d004d76e2eb711737e3ed865bc169a3c791222ce00c4534239f6d3b48817f47int },
        0x73eda74,
        SumWitness {
            a: (0xf27dfc99fa92f2f87995f9cb66a50a1da18e0d4729ae338b1d18aafd9deb22int, 0x6015efd099c585ae1b3b1023339a6ba94861ff77d758c9d55df18525c4b8a9d8int),
            b: (0x43915c0cb873060b49625e579f41260d7f4e758cf2addc55e2032f86de7106f6int, 0x6616f64ae1bdb04cba160ccbd37abadb1a00682cdc8db03bad77b3d742e74cdaint),
            dt: (0x1e367c4289e5ea8eb531111c051288cf7cf62dbfc1800a1ea340c8217ddb9cd5int, 0x177817d62687a1960fde8ec4adac93861816618c511376d2ab9d86efa1939c7cint),
            c: (0x1140e95a77c2f5963aabae7bdc7bd09e0e1a7e71009ddab25aa634f9bbb307cint, 0x5c1e6bac07149760e93a74c64010cbe0ce5f78d047c682c875809548dcf0bd20int),
            zz: (0, 0x5d004d76e2eb711737e3ed865bc169a3c791222ce00c4534239f6d3b48817f47int),
            h: (1, 0x523f3ec851e5b8b2a21744e6fd734e7f0ea4c3a1b3e81e120b6938fe079ff6b1int),
            s0: (0, 0x656338f57f36fadfeecd8066f37bbe37d692c049cc8bd3140e8b921dd56a450dint),
            s1: (0, 0x60c7d6918e437d8827d3dfcfe8923870431f0f21be6a05e37815793fb5885c83int),
            ss: (0x54a43c535ba3da90ecb77de8c7d0355790812efe79bca263a6e7ae8144bce261int, 0x462b3209ea4910c40a93e9e1fa2621b80eedf4a1a4839044715c5850015d1f46int),
            e: (-1, 0x67d99a94c200d5599bb67d030654ab3e5406d502f099ce3165f31f50f9bd2896int),
            f: (0, 0xe1e1cadbd6d9b64ea978c01bb09dc2f931a95c9845c26bae1ed7f26b90c227int),
            g: (1, 0x453111cfc0628b2fede48a4492305d7f4232f6fa27d46bfd9920028525723c66int),
            x3: (0xca590cb64f79ca3544ca26f72f857cd886eed7d6eb8a73b18f2a80a09d8caeint, 0x1020296609f228f660c35613268c58cd8685463dccc08918d23c66ee4a554e2cint),
            y3: (0x3116cbd23d5d311f8ec7584ff6e5564f3be3527337d724daddb316e0a5a60ddbint, 0x65c543d128af0ed72c276dd1692242300245c79c28a7ba3aea9d45d351b9b8abint),
            t3: (0x49ad8b9a31c1409ecc55d2dd4099b08e2d97079989fae5c88ef93e3bff6a0b46int, 0x64abea16d9a90f289e24fe76a3630dc5003c06839cdd028d79d5a16ec0892870int),
            z3: (0x86d1400ce3c0029239a4adfa84b64fe716a8e823419c3012afc575c9dfefd7int, 0x2df21db65234c4e2175a1fe0da4fc0c0fb407e786514c13b1d3004f717ac8fb3int),
        },
    );
    lemma_chain_double(
        base(),
        ExtendedPoint { x: 0x1020296609f228f660c35613268c58cd8685463dccc08918d23c66ee4a554e2cint, y: 0x65c543d128af0ed72c276dd1692242300245c79c28a7ba3aea9d45d351b9b8abint, t: 0x64abea16d9a90f289e24fe76a3630dc5003c06839cdd028d79d5a16ec0892870int, z: 0x2df21db65234c4e2175a1fe0da4fc0c0fb407e786514c13b1d3004f717ac8fb3int },
        0x73eda75,
        DoubleWitness {
            xx: (0x23e3a30d51faadebef204b0248ed2f01eb17aef58b5f3fdec073309e31a4b07int, 0x4c33aea4c92529c20f43fbe1e8e941f91269cc7a9436539a1230ef6b8dfc8c89int),
            a: (-1, 0x27b9f8ae6078538623f5dc2620b8960c4153d7886bc80864edcf109372037378int),
            b: (0x5957815ca4911dff9999ab44022b3b96bbff05a246cac2da49d2418edf6f5d6cint, 0x4c50f6f5e3258926159e67af885d4bce37e74c49e8fb917fa324c157c2ece4cdint),
            zz: (0x1235ab0f9237a9c8647ebd3cdbcc0c3ef40a07e26f71cc7db49955e8d22c80b1int, 0x39d67919005bedcacd3888451e69329deb46bb24bec3311ea45e8455c104f678int),
            c: (0, 0x73acf23200b7db959a71108a3cd2653bd68d76497d86623d48bd08ab8209ecf0int),
            dif: (-1, 0x4f56a90ba6f047a841914c7ea1fd22435d2a2f4182cad2e44aaa4f3aaf168eacint),
            xy: (0xe28025d18b4e5b700c2b79039164880f63cc5b42b3782bf70f7834cfc227009int, 0x1c01f8fc89d55ac7af6ebbb43fce00a960aba4c806bbf7ab9694f2fa64d4675bint),
            e: (0, 0x3803f1f913aab58f5edd77687f9c0152c15749900d77ef572d29e5f4c9a8ceb6int),
            g: (1, 0x1d48511a005f64065a6bcd9f7409d5257d7fcf54c53de590f3d1ec34f05844int),
            f: (-1, 0x5dfd7242e601169f23334b6c437c9ea2adad88d73d37a74836c93fb2e66b55int),
            x3: (0x2d6a4003c26748cf5032669d40554206916a26c6896342e83deef0eab679b7int, 0x173f494e94753eb54798c7711e244ff3c1d68490f5cd9ecc47df8784dc403ab7int),
            y3: (0x140a4bbf6bac84a64a1c268d64e4ec6a5d6fbd4de65fbc58da99626b72eb1cint, 0x6d0f6094bc185d2d1cbb334b5e43cc3ad7855ac9dc199c63a630363088d61a94int),
            t3: (0x2655e865a599775bac0aa46d959eead69cbeabc4427258e3ebd811c5e23eda52int, 0x43f4eaa9b71ccff37361b3303d8b9a1542c35d18a25a8a424de3c9eb6b78fbf6int),
            z3: (0x17bdb636155e8e9635e324ba7d6b233aec602b8259e3b9604cb38fb4b35bint, 0x3de4ca360db80fb21c812b1fc5cbd3f0301cf33287b8489231d89e400e150739int),
        },
    );
    lemma_chain_double(
        base(),
        ExtendedPoint { x: 0x173f494e94753eb54798c7711e244ff3c1d68490f5cd9ecc47df8784dc403ab7int, y: 0x6d0f6094bc185d2d1cbb334b5e43cc3ad7855ac9dc199c63a630363088d61a94int, t: 0x43f4eaa9b71ccff37361b3303d8b9a1542c35d18a25a8a424de3c9eb6b78fbf6int, z: 0x3de4ca360db80fb21c812b1fc5cbd3f0301cf33287b8489231d89e400e150739int },
        0xe7db4ea,
        DoubleWitness {
            xx: (0x4a96ab0ec8e8e1d0a0c8b5411fc13a0035c3f93f61922359ce7c0fd37a435ebint, 0x22cba9e4dfdec6fdf6b4ff0a9c19d8b6f022163ef8369612053678adb95338e6int),
            a: (-1, 0x5121fd6e49beb64a3c84d8fd6d87ff4e639b8dc407c7c5ecfac9875146acc71bint),
            b: (0x6699457b7eeab06869d7a17911fbc61816e12e34d849a6b6f588fe49ff7e2860int, 0x716a189aed26d719b2cf080ed861647f117b0868bd016c1ade19c0e3b2b43d30int),
            zz: (0x210b7994b0f0a9d1c00f74af24af8e8877e7bc800d9d16133c4c8376017fd09bint, 0x623864f976908c071e7cf4d6bab5da5c593e5aa639b8c8aac79794296a0e5a16int),
            c: (1, 0x5083229fc3839ac609c011a56bc9dcb35ebf1149737335568f2f2853d41cb42bint),
            dif: (-1, 0x53a58c2686355c78bcefa8f69ec872d4a5de295e4ac4b5d11cafc66c93f889ecint),
            xy: (0x15deb297fb90e6601f99865525c7090861b2a891606b84a3ba81c1df97654a6dint, 0x4546a73008abc171a1286f39f8bdaa6728969e53e241582a80b138ed90ad3d5fint),
            e: (1, 0x169fa70ce7ba059b0f17066be7d97cc8fd6f98a4c4845456016271dc215a7abdint),
            g: (1, 0x4e9e6eb60d48101bbc1a09043c478bc82158f229c4cad608d8e34835f961044aint),
            f: (-1, 0x7208f3697361f29de593cf66da1f871a165784e35155fcb149b41fe125445020int),
            x3: (0x16410fd4998ec18e440de93964237c44e9aa454c1050a1e2fd5b963b6d0c05afint, 0x3f3d050b0c01c5a43a7a9e6e9f71fd0b783e26f77916fd9fe6252846efd261f1int),
            y3: (0x38b9fb17b38f76f3ab0b03ffbb5d1e21700188f12fc9cc4a0c9ded157d2249e2int, 0x484ec928f3589b573f07016ab6fc3f8cec39491f6a9efb663b0127adf9494456int),
            t3: (0x1052e55d27fe801f7559d0126c2755ee492d2d547c80361f6e871f829e3fb669int, 0x3cf3661143c9a91c5feb5d10c3540e519f48bdef99da5ad07a1c958bfaf094d3int),
            z3: (0x4d55b8fb8ee1889ca5ab354510f26dc4a90d03d9db5e8aaf182db7c7bb8dc16cint, 0x29b7144b41062323f83e7caa5b46d0f40cbc6702ba11eb72cd8cecbf9791e7d4int),
        },
    );
    lemma_chain_add(
        base(),
        ExtendedPoint { x: 0x3f3d050b0c01c5a43a7a9e6e9f71fd0b783e26f77916fd9fe6252846efd261f1int, y: 0x484ec928f3589b573f07016ab6fc3f8cec39491f6a9efb663b0127adf9494456int, t: 0x3cf3661143c9a91c5feb5d10c3540e519f48bdef99da5ad07a1c958bfaf094d3int, z: 0x29b7144b41062323f83e7caa5b46d0f40cbc6702ba11eb72cd8cecbf9791e7d4int },
        0x1cfb69d4,
        SumWitness {
            a: (0x4fe00f19b267880122e5fd0faa09001649f13a22cac05440c764483b0f4b86bint, 0x332f99b5a34134c0864061bc61b2953c9b7dfccb0cf1adb7ed0b5811b96a3fb8int),
            b: (0x36a8188accd67785266060ac88bbb7af841dd46292b5fde05f2624717ba33619int, 0x69716503427970998cd792bb316ce79cc462b7ee044b0ad4e282cc48c4b66807int),
            dt: (0x1662564deef95e1a4b45bd1cf437a45e382c16755d8c7c17b7db5a247bede9e9int, 0x19eccddba9752d7f72157bbe912041038b6f0aa694ba4c2bde8aa6fbe55015faint),
            c: (0x130f1d6b68ce7f22bc577512cf78924588a1ae042849a9396251438fae3db51int, 0x3f0ac335d07d6169a9f63dfbc662411c2ee74fa88e52a9b010d5512531bc4a59int),
            zz: (0, 0x29b7144b41062323f83e7caa5b46d0f40cbc6702ba11eb72cd8cecbf9791e7d4int),
            h: (1, 0x28b35765bc1d2811dfde1c6f897da4d40c2310b6113e5c8dcf8e245b7e20a7beint),
            s0: (1, 0x139e26e0d5bce3b34647c7d14ccc649310b9cc13e3b79d0721264ff5e91ba646int),
            s1: (0, 0x60c7d6918e437d8827d3dfcfe8923870431f0f21be6a05e37815793fb5885c83int),
            ss: (0x1060a676e808c5bcb90875edf4acf2920167f745774fa029acb3dec62a1eb4b8int, 0xf9e26fe4f3025af3f3d53cc29b65786bcc8ffb9dd083cc174598507e1f8891aint),
            e: (-1, 0x5ad876ebbcb07ae592990f64a9da8ab804639306cbc83c32a4cb60ab63d7e15dint),
            f: (-1, 0x5e99f8689a263f02818216b69e8667dd3192bb5d2bbd9dc1bcb79b9965d59d7cint),
            g: (0, 0x68c1d7811183848da234baa621a912103ba3b6ab48649522de623de4c94e322dint),
            x3: (0x4a2210075eee6524bf5169aad72091162dbb20d50441ecb6d57dd15523279fb8int, 0x420ba683123df0e1772b18e1b4f6c96898a00c3cce085b1bae67fbbfd2009254int),
            y3: (0x24c74ed8d111820897a62553c2d8ac1bf8e47f9192df9a4a196f3e55f1dc967fint, 0x417603badbadc31f3294ffa40e5e7dbdb7888a85d4630b9a193557bfe48801e7int),
            t3: (0x1fe4f763f1a7ed65ea50e4390481c288099306e86e834b751d076ff906aa3f48int, 0x2323188cd773fb6c38c369547172a8b2ac1abe0d0d6de20c6339489bd932aebeint),
            z3: (0x557c445eef485278634a085e61c81853bf4f054b4587baf383baef5bc7662b86int, 0x3b86d41e788f97016be98393127309371b287e163673e5a790461a312fb0bb46int),
        },
    );
    lemma_chain_double(
        base(),
        ExtendedPoint { x: 0x420ba683123df0e1772b18e1b4f6c96898a00c3cce085b1bae67fbbfd2009254int, y: 0x417603badbadc31f3294ffa40e5e7dbdb7888a85d4630b9a193557bfe48801e7int, t: 0x2323188cd773fb6c38c369547172a8b2ac1abe0d0d6de20c6339489bd932aebeint, z: 0x3b86d41e788f97016be98393127309371b287e163673e5a790461a312fb0bb46int },
        0x1cfb69d5,
        DoubleWitness {
            xx: (0x25a0744f915cdcf1ea236514e7ab24f8beb2b71fda6df5c4d6c4e264916db618int, 0x75818aac81bc0bbd6c4303726138e6787f21e79e3501157d250d51d92363578int),
            a: (-1, 0x6c958ea86181bc8c5c75a7d0e38e499dcbcb85891cae4aa72daf2ae16dc9ca89int),
            b: (0x24f6b5f4b5b591623b274e1fc0149ef369576500fde27acef8a4c3d6c15cdd93int, 0x2893d518ee0a193f993e32ea4d35e3bcd9dafb49ba45a461f09e7e13bc16c0deint),
            zz: (0x1e90ce769064029f6e452356fde62a99687cb5ce6917507dd03019ce8ee53af2int, 0x65790cc4229717a4dc054ff539186240ee8e7a11e6718c0f199168b52e5a1c32int),
            c: (1, 0x570472351b90b20184d0c7e2688eec7c895f5020cce4bc1f3322d16b5cb43863int),
            dif: (0, 0x4401b98f7377a34cc33774e6965865e0f1f08a3f6268a6453d10accdb1b309abint),
            xy: (0x254b348fac49e47e55c5b936c31b2d43f03349ef2baa6b2c827246bcda85d58fint, 0x5d1e54eadd5a0ca432b50301feb7ff58cf7fa08f951411a9145f44073130883dint),
            e: (1, 0x464f028291169c0032302dfbf3ce26ac4b419d1c2a29c75328be880f62611079int),
            g: (1, 0x213bbc6e25ee5883c27a02b32722555551e8dccfd6f5930a1e4da8f629e08b66int),
            f: (-1, 0x3e24f18c33fb23ca70e312d8c83540de1c4730b20a0f32e9eb2ad789cd2c5304int),
            x3: (0x25b0835d2c9b4955c5b3823b0c6b887adc86965b39677e8d07e9ce36949c3df3int, 0x3861907618898df5f5378729837749cb996ec8d73bab7ada9bd79f80270b3ef1int),
            y3: (0x137edf00874617a71d7b820ecf2a4a3f6eeb906e06878f2ee513469fc896f677int, 0x18b403753637e6f4453da25c226c637db2258e9a9525e5da9e3fe4cf139ebcabint),
            t3: (0x293eb65d99b83e41ade8bce2719d73d6915b931fdcc6e50c5bd4fd856074fbb4int, 0x1f3662a28c02fd6829845f024572d1e66bd9a8a8941626798fcfce11ed90461fint),
            z3: (0x11d0a3d397c6b91d4261c55b389b4ed0456283b8fc4bf049a98cb3b36b69a737int, 0x71f88d2b9fa249d1611d8dcb81ac7f3026174f330a6193ce11acacbeacd29861int),
        },
    );
    lemma_chain_double(
        base(),
        ExtendedPoint { x: 0x3861907618898df5f5378729837749cb996ec8d73bab7ada9bd79f80270b3ef1int, y: 0x18b403753637e6f4453da25c226c637db2258e9a9525e5da9e3fe4cf139ebcabint, t: 0x1f3662a28c02fd6829845f024572d1e66bd9a8a8941626798fcfce11ed90461fint, z: 0x71f88d2b9fa249d1611d8dcb81ac7f3026174f330a6193ce11acacbeacd29861int },
        0x39f6d3aa,
        DoubleWitness {
            xx: (0x1b6baf58fab185e86b9f348a2ce8d57f75c536dda1f52d92a2e9037248899dacint, 0x6f08a3474d9016884407712031af977eafd1ad37ef302dc23dd156e59da60135int),
            a: (-1, 0x4e5040bdc0d66bfef3266e7d7f24086a3ebf6cb10ce2e3cc22ea9196259feccint),
            b: (0x54395a3a2dfe17d997e93b5e4c648d5da9b82df687f64d672b4424d7ecccaa3int, 0x3ccf99f21d015c7ac514ba1eb2396da00c39b9ca8b6b70cd78892f4e5152cf96int),
            zz: (0x700be909d81e9b9f74e4344b6084be9c6368dd7b414d79994ddc201760d36923int, 0xcbdb329ed4e7235e0bddedf876bcdab599ed08e390b1736b1577b085103eb9eint),
            c: (0, 0x197b6653da9ce46bc17bbdbf0ed79b56b33da11c72162e6d62aef610a207d73cint),
            dif: (-1, 0x3c03116ce8a9878d5d5784d12f5aaaebeb6fe1038561196e49a579ca11072f37int),
            xy: (0xc03a63ad4a344cdbb0b8a2239fa2adcac5de5d53decbe38f5a77a269a26b1deint, 0x53364e855b38b968819ae5c0a90195faf02fc8beb6b3466bdc1c56797853551dint),
            e: (1, 0x327ef5b78cd3f588cffbf379486153f08ca1ed7a6d6830d8b838acf3f0a6aa39int),
            g: (0, 0x41b49dfdf90ec33ab44721068a2bae26b025b0959c399f0a3ab7d867b3acce62int),
            f: (0, 0x283937aa1e71decef2cb63477b5412cffce80f792a23709cd808e25711a4f726int),
            x3: (0x1185402cf3a3ddf09439940108e093e8dd61aa2b7fb2fe991d2940e2288bd52cint, 0x5cab11865d03782abd79cf4ac433804e4148fa9db1da5a15669f052233f26e4aint),
            y3: (0x22036fc2ed9e9578a1dbd81577915bcfef0a99bcc9057946b510c7014e2275aeint, 0x25294d82ad72624619d7438e797170aebeeb91a367f832e03021c5b32c8fdf60int),
            t3: (0x1a23d40ec1d159b01508f724a95a7fcd9b3c2502f38e5b163ab72526c03e1ab7int, 0x27c0d133e78df777b45a5b724a4cc4aec588ab7641e552e110cfcefdfd5fee88int),
            z3: (0x16cc3a5cc01e4e4bed4d2f5eb66039843be528d99db81c8894bfdb21dd565a88int, 0x2deaffe81d36f07bbc3933985ac8b36361a82206c1b5ad90a806e8dd4238d604int),
        },
    );
    lemma_chain_subtract(
        base(),
        negative_base(),
        ExtendedPoint { x: 0x5cab11865d03782abd79cf4ac433804e4148fa9db1da5a15669f052233f26e4aint, y: 0x25294d82ad72624619d7438e797170aebeeb91a367f832e03021c5b32c8fdf60int, t: 0x27c0d133e78df777b45a5b724a4cc4aec588ab7641e552e110cfcefdfd5fee88int, z: 0x2deaffe81d36f07bbc3933985ac8b36361a82206c1b5ad90a806e8dd4238d604int },
        0x73eda754,
        SumWitness {
            a: (0x555a4ea45f06bb7416e89e0fe794521b6984acc9a05e6d999934c068c2dc4b6fint, 0x59f5dff5bc7ab38fc101f8db3930cec24a2f0fcec18a79d14ddb51475e781addint),
            b: (0x1c16ffc6ff7df2f4a4c61d6e0112215052c350ca4b9ab575f93ac59dd1a7c5a0int, 0x354cdd34dc933f186fce251a7fa9422527e074011881c48edf9c1e532b00fc60int),
            dt: (0xe996dcd24caff575b6e99df348f21c2a5a294b5fdcd81d3de1a5f5740cdf06fint, 0x110b116cc7970776686272c29427a596b2da0bf7d02e44963aceb8a34deaeb99int),
            c: (0x1042988dd56a8438e68afe78d3248205fc9d854e8a19a26395e047d7c0d3e3efint, 0x6bef91915f5227f76eb1aae618409e598b9c062c57edef15f7b8c2399ae18c19int),
            zz: (0, 0x2deaffe81d36f07bbc3933985ac8b36361a82206c1b5ad90a806e8dd4238d604int),
            h: (1, 0x1b5515d76f70755ffd9645edaf3838e21e51dfccda0de2612d776f9b8979173cint),
            s0: (1, 0xde6b7b5e0d85d28a4173ad1340318f7ac76e83e19d430f696c0cad660824da9int),
            s1: (1, 0x4e7a2cab4d8fef627fa28fd19ba7c19a97abbf79df4db594e896ec1ba05d0dddint),
            ss: (0x9690f719a25742df2d74b690d020f703c1c909ba58fb4384ce29e409cc8b50fint, 0x156c957b2484573956314e26d154cbcec528622ec9185371e1309179280aead6int),
            e: (-1, 0x6e0526f6deb15f218bd4e0412bbe6af1fa942664ef08cd0fb3b921dc9e91d39bint),
            f: (-1, 0x35e915a9e78245cc80c160ba4c29ed0f29c9bfdd69c61a79b04e26a2a75749ecint),
            g: (1, 0x25ecea2652eb9b2af7b10676696779b79986843019a540a79fbfab17dd1a621cint),
            x3: (0x3329b8c42c4ba131fbbe43fde8508e7c2f5b30fca72fc4b7da203627d4c47cb1int, 0xb1a75b86b89330bf9662c7c6b3cea496d23c1ed6529312de84d55d1f5aec933int),
            y3: (0x8f110dd3077cefbbd53e563fdfd6c34934fb9e11ade5dcf2033f8a707be029eint, 0x117b5258dd7eb9e2c19a3e1bca310ae82d9d32145bda5fb10af77359847d7ff2int),
            t3: (0x19f07bcf285fd9df1ff7807995d51b70a0754d09f631577605e8666e4ad85886int, 0xa0848e38698e2d0a5feaaf57ea0cbb7d34dca3f9b0442fdf19a050ff09b2cceint),
            z3: (0x11a2f6e9cc3442f759a9469689c27e79b27c8e9904eff2d07029df4680f55246int, 0x1e6bdd115008ef0094388f4cb50d3de367962b9a1e2d5935ad6992bb74db1b8aint),
        },
    );
    lemma_chain_double(
        base(),
        ExtendedPoint { x: 0xb1a75b86b89330bf9662c7c6b3cea496d23c1ed6529312de84d55d1f5aec933int, y: 0x117b5258dd7eb9e2c19a3e1bca310ae82d9d32145bda5fb10af77359847d7ff2int, t: 0xa0848e38698e2d0a5feaaf57ea0cbb7d34dca3f9b0442fdf19a050ff09b2cceint, z: 0x1e6bdd115008ef0094388f4cb50d3de367962b9a1e2d5935ad6992bb74db1b8aint },
        0x73eda753,
        DoubleWitness {
            xx: (0x1103e978f08a7ee9aa55d6db4dbf3e5f4a30c355aa6594477f63378fd2cbefeint, 0x3dc3e849c3a530d4ada761dc02ecb7ebf1e9e4dec703444b22acf33cc048612bint),
            a: (-1, 0x3629bf0965f84c738592762c06b5201961d3bf2438fb17b3dd530cc23fb79ed6int),
            b: (0x2a2de40f28a2203df6d4e73720efb12352eaef0ad28df065ba46516435b4c0fint, 0x420c258d011516a81ec3c9d2af20fdc7e5ec3655d258fb44d97af2b47eeab4b5int),
            zz: (0x7fba71b07266616d6294e3a7d077f71ed8eb3191a74fce5b34f8ea584bb8becint, 0xc9378b7dff11b2a6f37bf89db891f1c964074af9f590252c57aed5fac56da78int),
            c: (0, 0x1926f16fbfe23654de6f7f13b7123e392c80e95f3eb204a58af5dabf58adb4f0int),
            dif: (-1, 0x680b40cf8e80b3139a0884616135fa56cfa52cd166a0786e03d81a0cc0ccea22int),
            xy: (0x1aca2ea13e32a154e796b186142260c22efdf6bb045ba345aaa2ae790df3e52int, 0x1da5af70d5e0766cb03a24966f2e724d6bd98d71ef98d8cb63714e97ee1240e4int),
            e: (0, 0x3b4b5ee1abc0ecd96074492cde5ce49ad7b31ae3df31b196c6e29d2fdc2481c8int),
            g: (1, 0x4483d433d6fe5d3711c67f6ac3445dbf40251770b55b6f9b6cdff77bea2538aint),
            f: (-1, 0x5f0ef326a72b2cc6c5e6c0eafec3dfa81b3f0c1acca20e532bd824b765f49e9bint),
            x3: (0x309eb666ece207942debe7e865fc45521e48dae822d6354b05a91eb5b50505e2int, 0x2f1b6fb68f54063589c7c5d3e4ed15cd821d8e54f85140f64425bcfcb7cefe36int),
            y3: (0x3d7dbc605e95a0a7d043aa1fc7192c7abaa95c5e974665eb6b32e9b2df2fc9eint, 0x56f6093be4d9557a0129ccadd796fd72b91699bc39672f14f30cc6a495f03fb6int),
            t3: (0x353742758f54936c871d00815b73b95588aabcd8bacce02b246dc66c33d7f069int, 0x699ebacb666727f7c2512f2fdd6f525f21fee1849634dfd1a413fd5ed3021c27int),
            z3: (0x382e3b050faeb88e2c3782586b2f4bd3679ca24a81f78f34534a43594b479c3int, 0xd01284a190957d892b7f33c865de0a893026026cc462f50a276480918ab46cbint),
        },
    );
    lemma_chain_double(
        base(),
        ExtendedPoint { x: 0x2f1b6fb68f54063589c7c5d3e4ed15cd821d8e54f85140f64425bcfcb7cefe36int, y: 0x56f6093be4d9557a0129ccadd796fd72b91699bc39672f14f30cc6a495f03fb6int, t: 0x699ebacb666727f7c2512f2fdd6f525f21fee1849634dfd1a413fd5ed3021c27int, z: 0xd01284a190957d892b7f33c865de0a893026026cc462f50a276480918ab46cbint },
        0xe7db4ea6,
        DoubleWitness {
            xx: (0x132451f94b17954d2708097ad48c3132f6d51794ac2e83690771f46ed85761edint, 0x434899d4d3183f07cde5e73e5bb37790e263fdf03d92770f655ece9d76ffd177int),
            a: (-1, 0x30a50d7e56853e406553f0c9adee60747159a612c26be4ef9aa1316189002e8aint),
            b: (0x413b5fdae13c4b4869a80d644c011398bdaf0f244be35726a261ed99fba19fbdint, 0x71c0d57c4a1c08c8be15772da441736b40d760c21fcc3bd9ec8066f4657975a7int),
            zz: (0x17574a8ab2b1795ddd4be8b0eb582576e7535867d86bfd3ee81c8c894b07abeint, 0x634c4ed8a5395b2c64fe824a0c9c1f122ee540201cfaa643eb906c1922152a3bint),
            c: (1, 0x52aaf65e20d5391096c32c8c0f96661f0a0cdc3d39f6f088d720d833442a5475int),
            dif: (-1, 0x32d1df553606b2bfda7851a4134ec50e843fe953a29e0514ae20ca6c2386b8e4int),
            xy: (0x23561ea62273553e6c48d3bd5545f1eb6acdf99244fbfa4246ba581c030e481eint, 0x48524f9be8133f1e91df2e16119df8ca3788b29f79a4e97ac252e7845b49bc46int),
            e: (1, 0x1cb6f7e4a68900f4f0848424199a198f1b53c13bf34b76f684a5cf09b693788bint),
            g: (1, 0x2e783ba77703c9c0f02f8fef488dfbda5e7362d1e239c4ca87219856ee79a430int),
            f: (-1, 0x4fbaec9c7fcc0df88ca63b6b42996dc0a8242a97a8413040b000c022aa4f4fbcint),
            x3: (0x13bfa85eca6f876a8a8cb1d33c08bfcd63a9f58cbc646c445f409ec2680a2c87int, 0x3c90f2c8568034ae596bf6a7f4b338ef5aa2edbde0d3b37d5ead2042af5a3e8dint),
            y3: (0x145efbc600016345b0c9c5e202f3d61d4baacb05922267310fae85636bff1f05int, 0x3a88f3e699e7e2eea34afb8729ab78549eaf1726887bb78738b55bd3e7799bbbint),
            t3: (0xc9676b1c1f2023e2c09619b03a78225d560e214e21f6122d4815acb0f2fc70dint, 0x43655fe9eee410181fc873cf06c57e05eb992371115084162cea0f72a48d7cbfint),
            z3: (0x1ff5ae7aa1bedfae5b837ed54648002053be8fa20d7e14ea14c25fb9c8a707f1int, 0x411003c6d4162d333cb27b8147cab477d0f456348d62d8fef30f88976d285b4fint),
        },
    );
    lemma_chain_double(
        base(),
        ExtendedPoint { x: 0x3c90f2c8568034ae596bf6a7f4b338ef5aa2edbde0d3b37d5ead2042af5a3e8dint, y: 0x3a88f3e699e7e2eea34afb8729ab78549eaf1726887bb78738b55bd3e7799bbbint, t: 0x43655fe9eee410181fc873cf06c57e05eb992371115084162cea0f72a48d7cbfint, z: 0x411003c6d4162d333cb27b8147cab477d0f456348d62d8fef30f88976d285b4fint },
        0x1cfb69d4c,
        DoubleWitness {
            xx: (0x1fa47c787c923ed7837d42b1b955c93adf90356e8ce0bdb503978120b068d6c2int, 0x68e59b6fedc0f6ecf21723f0958f24d6783ba4160c7628fd35ab57aa2003c2e7int),
            a: (-1, 0xb080be33bdc865b4122b4177412b32edb81ffecf3883301ca54a854dffc3d1aint),
            b: (0x1d8e424255d7ecd21ec9ccbdd2733b89641a6af9c76552bbf3348efb616c9608int, 0x42d34fb754c04d6611f32adfc7d28de9593a2167b7d567914d20601eae156491int),
            zz: (0x2483de8b30b76d1cfaa5ad2df2876e31c43ee168d0ab22c50987850f6a45d9d1int, 0x64e3a2d479703fdd619384f75ec4021e9235e5d7a4fe467ee32b601184fb6890int),
            c: (1, 0x55d99e55c94302728fed31e6b3e62c37d0ae27ac49fe30fec656c02409f6d11fint),
            dif: (-1, 0x3c22637f10b9b63d6269613fb5e1fd4ad60582883bb1276f7d34483531e6d88aint),
            xy: (0x1e94d12590011ed06142899fea095e74c129612ef6c948918856940243799d89int, 0x70cff090df6f5871892822514cabbe205779a5d2a43474f4cf2ff7b842f67276int),
            e: (1, 0x6db239ce9541339adf166c9a8fb5a43b5b35a7a2486a8dea9e5fef7185ece4ebint),
            g: (0, 0x4ddb5b9a909cd3c15315def73be5411834bc2154ab5d9a93177508738e11a1abint),
            f: (-1, 0x6bef6497f0f74e96f662851891a0ece5b7cb9dab615dc593511e484e841ad08dint),
            x3: (0x6621f81abd3149cf769c9018f34638294273d4f626d59e2f5214ca866a6ae419int, 0x335e1afdffcc20bdb70f8b7ae3a595468bc455506c2f3eefbd68cf9c3eec2156int),
            y3: (0x2862ca96cfe14053384d61aa046768c7f92fd3c7da96e6e4869bf751ac1a9398int, 0x42c0edc920c0abab499c52a51f9a60e957c0c6e9b7beca69f4943e9fc470da96int),
            t3: (0x38e6cefd4d57da26f614560fa377e460de08cbb02639215cd6fa3458616e3aa5int, 0x6205697501a032a9c7abf392c030cd0ee27988f2b3698db64ffd09cc578d7409int),
            z3: (0x487d198cb65bee3fe1e62ba3230772588c23348601de8617e029d5920d095a44int, 0x54907871acc02fa7f9f4353e1166fce1ce7f242d87c953a2ec11ef061d65a0ebint),
        },
    );
    lemma_chain_add(
        base(),
        ExtendedPoint { x: 0x335e1afdffcc20bdb70f8b7ae3a595468bc455506c2f3eefbd68cf9c3eec2156int, y: 0x42c0edc920c0abab499c52a51f9a60e957c0c6e9b7beca69f4943e9fc470da96int, t: 0x6205697501a032a9c7abf392c030cd0ee27988f2b3698db64ffd09cc578d7409int, z: 0x54907871acc02fa7f9f4353e1166fce1ce7f242d87c953a2ec11ef061d65a0ebint },
        0x39f6d3a98,
        SumWitness {
            a: (0x40e1a9418e9649973b58f20cc92af84c5c09d544c2ecabf4c14feabf755f710int, 0x4eb39e40682105b73c5be6fe05d415bbc478e6351155a139910394e13c05f1d2int),
            b: (0x32755482e0460e47426f80ce216a60f899eca6f84d94851d5898d84830786052int, 0x54870b168368c1127af7dc69fbdc9a50ad7bce063ca706428c5e316ad08a9ceint),
            dt: (0x23ff89ab5ba35f52d31740c127cf5421b049e17a1a7e2e51ba490e18eca2367bint, 0x73b012c37d41c2ce9acd111da3a039eeb016b9cc628428af06e2ca1ff61931beint),
            c: (0x550c8fb407aaab9fb5b6d7bb1e4edc87e6f552da02a70ce772aa89966572001int, 0x555363e304e2c423e97343ccac3555a114bd3931815ccc02ce1167a3e3a0be4dint),
            zz: (0, 0x54907871acc02fa7f9f4353e1166fce1ce7f242d87c953a2ec11ef061d65a0ebint),
            h: (0, 0x53fc0ef1d05791c8640b64c4a591df60cf50a3157520119db9c977f7e90e9ba0int),
            s0: (1, 0x2316173f6ef4f20cd720617f99e1e2a8fc7783723efad5ab1fd0e3d035cfbebint),
            s1: (0, 0x60c7d6918e437d8827d3dfcfe8923870431f0f21be6a05e37815793fb5885c83int),
            ss: (0x1d4a8821a39812e0ef2bd9ef670829aad505a2cfb0d86f0503eb1a51a47288fint, 0x1f4e562004afda2d10b61d1c9e36ba1e1570c0ae9f3ee2d71caa46b004ae34b2int),
            e: (-1, 0x3f3fee815df5c5acdfe490600246b2c299ddc19c2a1d2d3862e0ceb71b9f9913int),
            f: (-1, 0x732abbe1d17ae8cc43bac9796ed37f460d7f8eff066ae39f1e00876139c4e29fint),
            g: (1, 0x35f6350188057683b02da102b3fa7a7d8f7eb95c0927c3a6ba2356ab01065f37int),
            x3: (0x3ed595b2fd46ef59fb94e2c1a1012f291612d8bd20430507b5f6c2679f2fab25int, 0x15ac0f243590896f20985e6eac6c204db65d3e8e7b0e3ea9ade0a753db9f2da8int),
            y3: (0x2717bd960e985693fccd99057823f7dd13dfb60b2bbd150add841f640613888cint, 0x10ae32937c8731b845e1625aa17f77bd87f4e990bf37669fb9ff67babd9046d4int),
            t3: (0x2dd24a2d0643647871741adbec8e7847c50a8d1208807175b7e6627c967a53c4int, 0x5312f0897a02523be6704d49fd0e06e03856782ba223fa6e80754cd3f8fdd91cint),
            z3: (0x359b7a0f8f832aef88fa53bc0f65fcbf5766c7ea526e3da12a82145d1c603587int, 0x1c41f53fa725c7bbb12b47a303c47e0b1bd70290b6294a25601b35324bbf7ba2int),
        },
    );
    lemma_chain_double(
        base(),
        ExtendedPoint { x: 0x15ac0f243590896f20985e6eac6c204db65d3e8e7b0e3ea9ade0a753db9f2da8int, y: 0x10ae32937c8731b845e1625aa17f77bd87f4e990bf37669fb9ff67babd9046d4int, t: 0x5312f0897a02523be6704d49fd0e06e03856782ba223fa6e80754cd3f8fdd91cint, z: 0x1c41f53fa725c7bbb12b47a303c47e0b1bd70290b6294a25601b35324bbf7ba2int },
        0x39f6d3a99,
        DoubleWitness {
            xx: (0x40d2d24eb799d6509168dee1c19821a33861e7331128e87b7d37f2dedbb0d05int, 0x369744a7150bd55c008cda922fe6c4f5f8be2486d73d7c1ff1a13de4119713bint),
            a: (-1, 0x70843308b84cbff273310a5ee6a36bb5f431c1ba928a843d00e5ec20bee68ec6int),
            b: (0x2666be4b978fbf6d00b59607aaaf0559ab1454ade3451c102b2d009ca58da21int, 0x1832da505fcdfc318a630bc6a236d2be6ce85a07a37e604f6501e80bffbfc56fint),
            zz: (0x6e348d8e6d935e040adcf08b99c04b02fa2a4ae6ed6476317f998d6ddea68faint, 0x406947a43d3ba41cdcdb8b506e66a9d2c2556130a278bb9e5083f115c586a98aint),
            c: (1, 0xce4e7f550d9caf1867d3e98d32b7ba030ed1e5e44f31b3da107e22c8b0d5313int),
            dif: (0, 0x585158b8587ec3c0e8cdfe98446c98f7874967b2ef0c23ed9be40414bf26c957int),
            xy: (0x31e49ace4dbaad85dd38063d2f05dc1e53d4e0259d3fe82d8e4873f37bb37e6int, 0x3b382ea6ee0abc24afd923156b2299576b67a6b12a3073c852500274e512873aint),
            e: (1, 0x282b5fab277fb012c786e22cca35aa98311a95f54628b91a4a004eaca250e73int),
            g: (1, 0x14c96605ee7d3edbca5a3e1d7f38666f0d5c77bf360a888d65e7d42dbea65434int),
            f: (0, 0x7e47e109da373ea43dcff84ac0ceacedc6f5960f1176d4fc4dff20133990121int),
            x3: (0x2bc1aecab4add2dd831ecc6616ebd827631f92ab878fffea6707a8176dd724int, 0x1f57304f76f677d846f6489a542c86a943060158e8d70cab303f5303a82278afint),
            y3: (0xfd6012bd288ee59b1c2024e892ae6ac351afc86faa798403f4cf30e09705d60int, 0x15eb4c726326ee2043f2c3eaa7e5f117e876138e0aa098c60a2c3a21a4eb144cint),
            t3: (0x1e9a307dd29411a400664b83867bb06ab84ca5ba2210bf6c1679f6be00e02bbint, 0x5fbeac76388299d90958577b2934c69fb6df377890149e147b1afc14dcf4315aint),
            z3: (0x16a499f4589bb1d11b2d9196ac8048984b0043a6f1acd5d9e739de2315c3682int, 0x22fc164a76d13aa6e1de2c8d32bf0fdb1855f11f05fb2b47ad7cb0a6b77cd832int),
        },
    );
}

/// The multiples of the base point, from the multiple by
/// 0x73eda7532
/// to the multiple by
/// 0x73eda75329a.
proof fn lemma_order_part_5()
    requires
        extended_valid(base()),
        extended_valid(ExtendedPoint { x: 0x1f57304f76f677d846f6489a542c86a943060158e8d70cab303f5303a82278afint, y: 0x15eb4c726326ee2043f2c3eaa7e5f117e876138e0aa098c60a2c3a21a4eb144cint, t: 0x5fbeac76388299d90958577b2934c69fb6df377890149e147b1afc14dcf4315aint, z: 0x22fc164a76d13aa6e1de2c8d32bf0fdb1855f11f05fb2b47ad7cb0a6b77cd832int }),
        same_point(ExtendedPoint { x: 0x1f57304f76f677d846f6489a542c86a943060158e8d70cab303f5303a82278afint, y: 0x15eb4c726326ee2043f2c3eaa7e5f117e876138e0aa098c60a2c3a21a4eb144cint, t: 0x5fbeac76388299d90958577b2934c69fb6df377890149e147b1afc14dcf4315aint, z: 0x22fc164a76d13aa6e1de2c8d32bf0fdb1855f11f05fb2b47ad7cb0a6b77cd832int }, times(base(), 0x73eda7532)),
    ensures
        extended_valid(ExtendedPoint { x: 0x4bb20a9d7f837d3734183953a8af215a67d5fcc0b92305d38a1e6be2051908d2int, y: 0x4496d156d0623f0a16c79a12dad44b5d45a1324a06b03d6fa83967004058a10cint, t: 0x2f61e7f3ab38af7b10910309f3767a97c9f9aa0b9265d7a84eba622b69675a7aint, z: 0x4a445a386e7b4e7173b3f8b4d0510eb216eecc4868caaa92c440c0f57bc37ec4int }),
        same_point(ExtendedPoint { x: 0x4bb20a9d7f837d3734183953a8af215a67d5fcc0b92305d38a1e6be2051908d2int, y: 0x4496d156d0623f0a16c79a12dad44b5d45a1324a06b03d6fa83967004058a10cint, t: 0x2f61e7f3ab38af7b10910309f3767a97c9f9aa0b9265d7a84eba622b69675a7aint, z: 0x4a445a386e7b4e7173b3f8b4d0510eb216eecc4868caaa92c440c0f57bc37ec4int }, times(base(), 0x73eda75329a)),
{
    lemma_negative_base();
    lemma_chain_double(
        base(),
        ExtendedPoint { x: 0x1f57304f76f677d846f6489a542c86a943060158e8d70cab303f5303a82278afint, y: 0x15eb4c726326ee2043f2c3eaa7e5f117e876138e0aa098c60a2c3a21a4eb144cint, t: 0x5fbeac76388299d90958577b2934c69fb6df377890149e147b1afc14dcf4315aint, z: 0x22fc164a76d13aa6e1de2c8d32bf0fdb1855f11f05fb2b47ad7cb0a6b77cd832int },
        0x73eda7532,
        DoubleWitness {
            xx: (0x8790644262a5bd07add19c93adee4bbf00af05901ce223623f47502793c7aaeint, 0x5f0f3a712ed9ce4f58bde79675049ac9bc211621e9bcf49114e796cf7e240cf3int),
            a: (-1, 0x14de6ce1fac3aef8da7bf071949d3d3b979c8de11641676deb18692f81dbf30eint),
            b: (0x424f4a0e74d286fecf1bad298d800bfda4cacd9ed1880ba933dbc52258e8d45int, 0x210c291a7aece1028eda441f15becd0d5d8b25d1e7dcf3f7f07c866a7f95694bint),
            zz: (0xa8ec1e002c4f08a5956a0f295909f3dd97e3f92839e14089d0116085fa97f93int, 0x47faeeedbd63fcbf92ca713b13cc06cb70b1edb01bac8b51e9c9445c435aea31int),
            c: (1, 0x1c083688512a7c36f25b0a6e1df635918da6375d375abaa4d39288b986b5d461int),
            dif: (-1, 0x67bfeb1aa9744b3e7edb845a888048338dcf0c122e62cf74fa9be2c4024689c4int),
            xy: (0x5ecfbbfd22612de52902dfa341516c1aaa31742646b9061acd8972c7c8ea7ecint, 0x2d3dae3c8dce1d21188b00ab202df4a98d98ab1ac939e22bb0eda07c03bfd808int),
            e: (0, 0x5a7b5c791b9c3a4231160156405be9531b3156359273c45761db40f8077fb010int),
            g: (0, 0x35ea95fc75b08ffb69563490aa5c0a48f527b3b2fe1e5b65db94ef9a01715c59int),
            f: (0, 0x19e25f74248613c476fb2a228c65d4b767817c55c6c3a0c1080266e07abb87f8int),
            x3: (0x1433df99589ba2e6afb998d2469d4729a00e06bea3d84d9f204fe3fd24378b14int, 0x1e39c58672b99aee228fbf3c452870b31173dbeded68a7656852257fb103746cint),
            y3: (0x3040942b5329fe99d8e671bf82fdbe95a2e8ae0b10bf40e39aa517f81d8083a0int, 0x159d88dad016656ede1c585ad87f6ad53d16c295d16256210f6fd6329a0bd184int),
            t3: (0x50f9f94e608d1053ba5e09f8b340ef9a7cf85ceb38b3164f3f33e8c49e0fe491int, 0xb0aa91728111050fca05f57c364ca17dca407f11efcd1c505406e3fb94b77afint),
            z3: (0xc09d101b66b775b17aedd8af1725689eb71b7209e2a972f3c3c8e1bac347479int, 0x3bd55b743052579666833217daeeb530c3eee2021e06610b0b7792026052f0bfint),
        },
    );
    lemma_chain_add(
        base(),
        ExtendedPoint { x: 0x1e39c58672b99aee228fbf3c452870b31173dbeded68a7656852257fb103746cint, y: 0x159d88dad016656ede1c585ad87f6ad53d16c295d16256210f6fd6329a0bd184int, t: 0xb0aa91728111050fca05f57c364ca17dca407f11efcd1c505406e3fb94b77afint, z: 0x3bd55b743052579666833217daeeb530c3eee2021e06610b0b7792026052f0bfint },
        0xe7db4ea64,
        SumWitness {
            a: (0x262d7097e453c66e60da641ad4e35a3bacc33ab7fb585eb30c4641143d766f8int, 0x6ba508b3d5d9d1256d8c3fa258e7a2bf676909f53f266fdf02c98eed5c15cc0cint),
            b: (0x1056bca47d3a78085aea423dcb38923ea9910af6d84645e885b2636b2f5ff4b3int, 0x30c809d589b6d5e60587ac5ab0bd336437ccbeaf3dc8ac242795830c4c1a80dint),
            dt: (0x40e16cd5c2829d04cc7486f992676f6d70ac525ce760b98190d29c382be4646int, 0x454c3118d4079c72776a34f37bcb825c5f034d5f1fb4736db3617c1c7af7dbb9int),
            c: (0x32f1e27d24bbd0c9131532c5deede30d7bc7b0450f651ae307ddb9ffad2aa08int, 0x20e1791c65e2b378e84b93d28c53ad0ebd45db4589b79803b9dae2b9e10598a9int),
            zz: (0, 0x3bd55b743052579666833217daeeb530c3eee2021e06610b0b7792026052f0bfint),
            h: (0, 0x6eb189512e753e83cde4ba6803f375f5aae5d5e03302faa14542e71e20d77419int),
            s0: (0, 0x33d74e6142d0005d00ac17971da7db884e8a9e83becafd8677c1fbb24b0f45f0int),
            s1: (0, 0x60c7d6918e437d8827d3dfcfe8923870431f0f21be6a05e37815793fb5885c83int),
            ss: (0x2b474db74a5b73e2f3e49fd047a2e95a6471280e720cca82dd3255ccf397adf6int, 0x44d5b74e94cdd7ba03f2dd88a82aa97ec10ec968e108e14fc86789fec9db5bdaint),
            e: (-1, 0x4a11d5508ff6167e6947fb28add90b8e69e6978bae0442ad8324a2dfa903e7c2int),
            f: (0, 0x1af3e257ca6fa41d7e379e454e9b082206a906bc944ec907519caf487f4d5816int),
            g: (0, 0x5cb6d49096350b0f4ecec5ea6742623f8134bd47a7bdf90ec55274bc41588968int),
            x3: (0x113884755af7b1cf7ebfec6c965f2241a672a5b2fcc34796cf8f3a71db7dea63int, 0x226e0ea298f6d7e3a69a97160fcbdcdd6b696a3b37f5de82abef23f8f5dcb049int),
            y3: (0x588710dc14118f5946e6bf005e5ce16001d758210cc0862083c2b031f721b9ccint, 0x4342703fe46db622224686cf67faf78bb7f055b7f443dbdaa8c4a250ef1ed15cint),
            t3: (0x46b998dda534b7c7847d54594155052e1cd353630a57e721f541abfb6d53aa81int, 0x3c61b98f4e03eda50e5ac2629519c6f2ac818aa7d7eab0cfe03e4eebcffdf71int),
            z3: (0x158e363b612666746dbd1e1e745f38807679baedba73c885bcdc8413084a2b66int, 0x69423c6140071b876a640895e178c8ad02f9750e8a8cc0a6a3e3b702f0d5638aint),
        },
    );
    lemma_chain_double(
        base(),
        ExtendedPoint { x: 0x226e0ea298f6d7e3a69a97160fcbdcdd6b696a3b37f5de82abef23f8f5dcb049int, y: 0x4342703fe46db622224686cf67faf78bb7f055b7f443dbdaa8c4a250ef1ed15cint, t: 0x3c61b98f4e03eda50e5ac2629519c6f2ac818aa7d7eab0cfe03e4eebcffdf71int, z: 0x69423c6140071b876a640895e178c8ad02f9750e8a8cc0a6a3e3b702f0d5638aint },
        0xe7db4ea65,
        DoubleWitness {
            xx: (0xa39b6bc626dff517e8c9a3d7c55663a70efbce562e2adbfcb887b95822feb26int, 0x1bc8a4e2dd3e1a1a10006b8628e7a4b4e27b6b1a9099a20a04df1aabaeac89abint),
            a: (-1, 0x582502704c5f632e23396c81e0ba3350714238e86f64b9f4fb20e55351537656int),
            b: (0x2705d3b23423cd484b4dfcdaca65f10c2a16fed8a15927452ed3d4c50c439fcbint, 0x5cfc001723c8eb03e8983928bf13b765e1c543b9a970742d85e5a3257883b945int),
            zz: (0x5f923514ebe7c1bf3c397de15d501cc570f254e609af0e4448780d2e1919627fint, 0x342f6f25e3d306526b2a17f873269cd47011eab6df32dfeacd92fbfa713ea3e5int),
            c: (0, 0x685ede4bc7a60ca4d6542ff0e64d39a8e023d56dbe65bfd59b25f7f4e27d47caint),
            dif: (-1, 0x6f16a9ac5233f5726ddb0b612b4853efe33a9931c5f2a1c6753b422cd8cfbd12int),
            xy: (0x13f9c1b9737bb105e426a46ea7086e745151fe9f25cf7d950cf54b5894786471int, 0x18980343c8200edd4263a6d3dd5eff906bd586b6c48c0f578ef1688ac2508ecbint),
            e: (0, 0x3130068790401dba84c74da7babdff20d7ab0d6d89181eaf1de2d11584a11d96int),
            g: (1, 0x41335b34468ad0e9d897cda2962c12b0ff49d89f18d6d22381068879c9d72f9aint),
            f: (-1, 0x4cc2243ba882418d357d75b9b980b10d72e3a7345a6f6e4ce5e09083e759e7d1int),
            x3: (0x20916bb2aafe946f4365a5ac17816bf7b80cf8b16edef3b5a46a2d8f1cd529c0int, 0x16549945efb465adc6793b3a3e9e79525c4544dba7d404a434c11ae72f8c57b6int),
            y3: (0x3e7a855ca07fcf1956436f06dd2073f02904b1397c415ced839c039de562645bint, 0x228f3eb3bd092a4ea637f58036daa290dffcfa067dc68ea8e9858af29769a679int),
            t3: (0x2f225486014951b6bfff591359160336ffabaf9c97a5b745a975f68fd538880dint, 0x4812f2acb03e555460ee80c604bb0bf2639ff3aa99e2ff18a74418f0ed3d4a7fint),
            z3: (0x2b2baa79cefdc8a51c616283b2702b7c7262a935f9681b59bc14c6a3a0bf7167int, 0x6b85b81b8e9818007a04fb8a6e4f24fd11d1a3a5e99430f734424ee3d66c6153int),
        },
    );
    lemma_chain_double(
        base(),
        ExtendedPoint { x: 0x16549945efb465adc6793b3a3e9e79525c4544dba7d404a434c11ae72f8c57b6int, y: 0x228f3eb3bd092a4ea637f58036daa290dffcfa067dc68ea8e9858af29769a679int, t: 0x4812f2acb03e555460ee80c604bb0bf2639ff3aa99e2ff18a74418f0ed3d4a7fint, z: 0x6b85b81b8e9818007a04fb8a6e4f24fd11d1a3a5e99430f734424ee3d66c6153int },
        0x1cfb69d4ca,
        DoubleWitness {
            xx: (0x44d25fdec9bc1eb1f1ec10b4794a565158147213d4e15eadc5fc0a7b2452685int, 0x4a464c7577168e7311b7d093e361c9e504755ae94b41921f603d7d762ed80edfint),
            a: (-1, 0x29a75addb286eed52182077426400e204f484919b4bcc9df9fc28288d127f122int),
            b: (0xa4d76c85c9ce3286cd085cfc6d8b18ca31f28f36db07881ae5cce1dfc0b293eint, 0x73a9765c077ad8ae6cefef767e2b9f5c63a37c176c00079a0e2f59e0bd77fbf3int),
            zz: (0x63b9d27270874039bd7deea3dd755379f4451364b515e8951732875d7cb1ff4fint, 0x36e0ffc35665d7bebcc46da01ab72e2035422df6422d611d4f6805bc8a56019aint),
            c: (0, 0x6dc1ff86accbaf7d7988db40356e5c406a845bec845ac23a9ed00b7914ac0334int),
            dif: (-1, 0x29eb8bd4d4a9936ee7cbf005b1b646c93f62710548bb1e44919328a713aff530int),
            xy: (0x6a82ed0ee6437ea78a5bb1dea88e8c983ba46fc2a06dc12c9cd528da801c3d4int, 0x55aee6c64079aaa6b66aa715a64853b27f0d2057dab3418e3c4b5fb925d9b532int),
            e: (1, 0x377026395755d805399b762342eecf5faa5c9cacb568271d7896bf734bb36a63int),
            g: (1, 0x296329e690644a3b5b381ee29ac9d5775f2e212e20be757aadf1dc6a8e9fed14int),
            f: (-1, 0x2f8ed1b30d36180614e91baa6efd513c486769449c620f3f0f21d0f079f3e9e1int),
            x3: (0x16be1ea325c28cb03e6480312eff3a0aa2ae37c20fca3ecca07251e4b1a92c44int, 0xe5474c601aa71cc22cf2d22dd4e717aa90ad2be448424ebbd94e401e9d46fbfint),
            y3: (0xef73fcff11360cd8e13143c4eb45b7fe37238c4a80e64f375d53617720a41c2int, 0x73961e25908d9c04e3fd275aead2670c6b1a04d784ace24a24c8801be68255feint),
            t3: (0x140beea4ca7105750240a30a6ca3fea240573f55514225554674b466e7c58281int, 0x3bfd2a559884a8d1ded5dc6b7b67895c63a750b6aae9ba6285bffa4b115c2f0fint),
            z3: (0x10fa826a6bf8679f6faeaac5b9c66915932ef5e49a3e670043947bbbf3237496int, 0x5ac74da0c9c74c8542a85f4ac84da6ea1fb831a90f90756dab7029ed742f1dfeint),
        },
    );
    lemma_chain_add(
        base(),
        ExtendedPoint { x: 0xe5474c601aa71cc22cf2d22dd4e717aa90ad2be448424ebbd94e401e9d46fbfint, y: 0x73961e25908d9c04e3fd275aead2670c6b1a04d784ace24a24c8801be68255feint, t: 0x3bfd2a559884a8d1ded5dc6b7b67895c63a750b6aae9ba6285bffa4b115c2f0fint, z: 0x5ac74da0c9c74c8542a85f4ac84da6ea1fb831a90f90756dab7029ed742f1dfeint },
        0x39f6d3a994,
        SumWitness {
            a: (0x12198f930045b1c26b73e2c048bf2b6ba1de1363751d36d00000b167f84c993int, 0x31e61daec4cd33ec76b3ea32edda4d0c0031e08cd8c1e485a9fe4495656c0a5aint),
            b: (0x575ed6c597bba1a2d071a97c39a9d4382c136b51c1755a71b01e601d7501afc1int, 0x253a01e79ad77171aaa8052f6792210fd6441a1974497041ccb53bcee05705dfint),
            dt: (0x1607e879e04bb7697f3b5132f25371bd50918361ce7a886b067fac4fe9da6fb8int, 0x4284a66d6cafaafc1f5d67c6e52288189f3162ea088dde1d55577d1d8353bba7int),
            c: (0x30e6c99b753ebce086945c9e3cf1b3db2cd8b407163a820e8279498d9ffbd03int, 0x6d42984c1cb0001759ba3ee427e8492696752103815d9eb3e21327d90b2a24acint),
            zz: (0, 0x5ac74da0c9c74c8542a85f4ac84da6ea1fb831a90f90756dab7029ed742f1dfeint),
            h: (0, 0x57201f965fa4a55e215bef62556c6e1bd675faa64d0b54c776b3806445c31039int),
            s0: (1, 0xdfceb98689a9088d3927c75be7f0081c0673392c932ab36e25d641ed056c5bcint),
            s1: (0, 0x60c7d6918e437d8827d3dfcfe8923870431f0f21be6a05e37815793fb5885c83int),
            ss: (0xbad76ff01d6d1219cd543d3eb0286fca5cf64e9b299410d3e6ca03910f89ab2int, 0x4ee4d42922168391e72bb6cf8b1dafe60bec17e9c0659b44d339d647b25e2482int),
            e: (-1, 0x6bb25be5ec0f5b7bf9099f753f5319cf8933c1467358a27c5c8655e26c9b144aint),
            f: (-1, 0x61725ca7d6b4c9b61c27f86eaa0735c8dd00b4a88e3132b8c95d02136904f953int),
            g: (1, 0x541c3e99bcd9cf546928c626e694180b626faea990efb8228d8351c77f5942a9int),
            x3: (0x5a87049530d43bcec2835a0d21b9cd56db56d86e20c2fba3724aaf2dc50e21b1int, 0x4f60f5bd4fc8a7d12ffafc1dccbea577417db24f9a4acdfaf07ce9cbf31d6c4dint),
            y3: (0x3f36792df395698fe8691514f462618f916864cfacc12b825e447ee6917df72cint, 0x25dbb66570f68f9e8dba9d7103ce0825989e42edcdc3fa48dd39bf9fb1477075int),
            t3: (0x50f064f914a54260e11684218019ccaa1f49e2bf06069a1a52adfafb016146b3int, 0x1d9536a4d2fa498e91d437878fb9154b329e3f7693c432956330056c44c8ddc7int),
            z3: (0x46b384166859ff4363bce95952cda280004fae229c305b03840f3cbb5b36e6dbint, 0x59e470c243f97da5af17cbc13399753ad11217b9e19b5b0c9c2a16f31c3416f0int),
        },
    );
    lemma_chain_double(
        base(),
        ExtendedPoint { x: 0x4f60f5bd4fc8a7d12ffafc1dccbea577417db24f9a4acdfaf07ce9cbf31d6c4dint, y: 0x25dbb66570f68f9e8dba9d7103ce0825989e42edcdc3fa48dd39bf9fb1477075int, t: 0x1d9536a4d2fa498e91d437878fb9154b329e3f7693c432956330056c44c8ddc7int, z: 0x59e470c243f97da5af17cbc13399753ad11217b9e19b5b0c9c2a16f31c3416f0int },
        0x39f6d3a995,
        DoubleWitness {
            xx: (0x365a38695ccc45042050ef83e897d10eaff5ff026c8ae814a6b2086559004628int, 0xeff43c392a5d21d893f21e49f6a6a7e80445cdef69f7175039508dc8c42c901int),
            a: (-1, 0x64ee638f96f7ab2aa9fab6236a376d86d3794724095eea89fc6af72273bd3700int),
            b: (0xc5cfbd5e26e7fd15ad2a74ee8569c773553544cbd9e988194058a581b4b1637int, 0x60c6d13be35abc578b309a9f66c7094a09615835b2d801fde8afb0a641017f42int),
            zz: (0x45b425a72e813e004c8ec11ab9b392db367f98c86ad1c9959961be6731f9e204int, 0x48da34f3c37b15fcb64ff2b0fa87e701a10f55277f5c9a1921485edaa1943efcint),
            c: (1, 0x1dc6c2945d58aeb139660d59eb6df5fdee61064bfebad8334290bdb643287df7int),
            dif: (0, 0x4279253b39ceed31eca1b840370643cca17eeee5686e88c13bb467c32bbb7beint),
            xy: (0x19ec226e7c8ad352d6f661405d530daeeb000f54f5dcf4044e6cd9a0b913ed68int, 0x4aa20c2431c887a794bb5a0b08f9c461cd3c2de9954dfff85de7a437891b41c9int),
            e: (1, 0x215670f539f39206f63cdc0e0851b0be46bab7d02a9da3f1bbcf487012368391int),
            g: (1, 0x51c78d7850b4ea3a01f178bac75c9ecb891cfb56bc389088e51aa7c9b4beb641int),
            f: (0, 0x3400cae3f35c3b88c88b6b60dbeea8cd9abbf50abd7db855a289ea137196384aint),
            x3: (0xef460814dbb9097e7a96018656f5a01e66f35b73820b2f03383c7e0576c8bb0int, 0x46ab5c85e60136fdb29464fc4a9b48057b2f9fca9685268e084841f7f113343aint),
            y3: (0x2ee46e52f2f0a0ea6ea97d6edda27c7b6bf02d36b8b2ef515dc81e414594594int, 0x2ab2cbab137d65568d64177c0159ef36359c329c5be548a2b28bcffc38f575aaint),
            t3: (0x131da47ca532b07bf3bc172368ade06a8f5a447703b734eb7202a0ab8e6a8a5int, 0x4a89cff91577e32cb203ddd0334ba529a3b04330884caac0f81eb28d3086a3f9int),
            z3: (0x24af437ca3a40a712409a89d0b92ef15ddb4f4cc212a307dbbc113a0b77e1cf7int, 0x205869ac6ed720055e419a1db66dde516a91b0c5fda26fa0caa5b032ba96c9d3int),
        },
    );
    lemma_chain_double(
        base(),
        ExtendedPoint { x: 0x46ab5c85e60136fdb29464fc4a9b48057b2f9fca9685268e084841f7f113343aint, y: 0x2ab2cbab137d65568d64177c0159ef36359c329c5be548a2b28bcffc38f575aaint, t: 0x4a89cff91577e32cb203ddd0334ba529a3b04330884caac0f81eb28d3086a3f9int, z: 0x205869ac6ed720055e419a1db66dde516a91b0c5fda26fa0caa5b032ba96c9d3int },
        0x73eda7532a,
        DoubleWitness {
            xx: (0x2b14692f5b52abb6e429070d8cec75076e9e43cae75c63b990b8296e79c14108int, 0x230484f23ef39150bf8f13d17e624e9a4c3b7fdc3e69f5b4c0427d4b85825c1cint),
            a: (-1, 0x50e92260eaa9ebf773aac4368b3f896b07822426c194664a3fbd82b37a7da3e5int),
            b: (0xfba00814a740282f0994fc5660c8b859869ca37927897c12e3698de2c88ec4cint, 0xe49e2ad45a1d32067623166d99f8305027c7f683705375c512334f2a0efe898int),
            zz: (0x9065504cdcd0339c97b2f2f21638d10f0608cb484b301b7d02d54aede67b908int, 0x3508822ab176a9aed247281ee376027244b576817b20b53cf4a0d0dcdff94ae1int),
            c: (0, 0x6a11045562ed535da48e503dc6ec04e4896aed02f6416a79e941a1b9bff295c2int),
            dif: (0, 0x429f3fb3a50818d70c4892cfb1a006660505a4be8a8f2eedee9a4dc0d98dbb4dint),
            xy: (0x1a075ce133fbc40e7e1fe1e54be3ea48d97890dc9630aba583d5284b9d4facc6int, 0x6c9120c46f9b9f9b06064c24556b711dc76f9701fa2498d8442de33ebd183beint),
            e: (0, 0xd9224188df373f360c0c9848aad6e23b8edf2e03f44931b0885bc67d7a3077cint),
            g: (0, 0x5f33050e304bbf17db0cf59d64df0c7009fea38ef8999da690e0b7a61b6d8c7dint),
            f: (-1, 0x690fa80bf6fbe90269b87d67a794df90d4515a8f02568f2ba79f15eb5b7af6bcint),
            x3: (0xc4c7930318a7e99ebde639948eb47e96b86924a88ee64c09cb93d743630b2baint, 0x6dffe04c73ed2d67a44d07b0b62f86f63ca0c78f94719527ee265ced73d1f456int),
            y3: (0x36b59d92fd8e71450f9bce43fb94644016ac9b05a453413d0ccd03c7bb2a4889int, 0x16d74165231f96a255ecd49abeaf087b0f67f1f9b3dbe829a74c5ece0414810int),
            t3: (0x7cc87cbd308b7b85103841d92c5eaa9bc69a94e49de6cdcc9ecf07e5398c329int, 0x2527836cb33fe18466c51789b02fbcaa09f8914ff57ca014219e378dda341123int),
            z3: (0x5646780af1efd05ad4daf3dce36258dff27c00e6a5285a6534b459fcfab29aabint, 0x1d9a022be5dac02ea0e6a4428aa26fd0a4a80c03e7750996a320f7e9d152af21int),
        },
    );
    lemma_chain_subtract(
        base(),
        negative_base(),
        ExtendedPoint { x: 0x6dffe04c73ed2d67a44d07b0b62f86f63ca0c78f94719527ee265ced73d1f456int, y: 0x16d74165231f96a255ecd49abeaf087b0f67f1f9b3dbe829a74c5ece0414810int, t: 0x2527836cb33fe18466c51789b02fbcaa09f8914ff57ca014219e378dda341123int, z: 0x1d9a022be5dac02ea0e6a4428aa26fd0a4a80c03e7750996a320f7e9d152af21int },
        0xe7db4ea654,
        SumWitness {
            a: (0x6550dc96176df040f8b871c4d23dc558fb6381518b120a4a869ea83423204acbint, 0x65003bf4841a7e6a38675735d04045cbbd47848f79e261bbe05589d93b2d57a9int),
            b: (0x1143dffe43140b081efc52b4a21ac63550be8b223f7b0dc9fc3bd553077dd52int, 0x58399f30b86fee6f0cf34a0495fed7296f13759590b4635ffef1e155c2d8f5aeint),
            dt: (0xda518b7c7f0f06171cf4b3010ef1c174021845548ce7a5522b8115a3dcfd3ffint, 0x1e17178f4068c3d648c9be089f95daff93840d06a7d7d3b0cbdcafb9f9727f34int),
            c: (0x1cb52770bbf0601804438d4d14ad4a847b6b8429e36ec596caa521ebc57514ddint, 0x4a68d395e994493aff8c4b3cd2ddd55ab0ab12da683e6ee725970b051fee75c3int),
            zz: (0, 0x1d9a022be5dac02ea0e6a4428aa26fd0a4a80c03e7750996a320f7e9d152af21int),
            h: (1, 0x494c33d212ecef911220c9325c9d44efd89d56220a98691cdf476b2ffe064d56int),
            s0: (0, 0x6f6d5462c61f26d1c9abd4fa621a777ded9746af2faf53aa889b22da54133c66int),
            s1: (1, 0x4e7a2cab4d8fef627fa28fd19ba7c19a97abbf79df4db594e896ec1ba05d0dddint),
            ss: (0x4b6e1cf83a060777805f7f537720dbf93c34aa15eadd480698d056ec71db98b1int, 0x4a977d0403bb9f8c37a564493694de7128263e8605e326533136602cddeb95dint),
            e: (-1, 0x2f4aeb5156ec47afe493651a406de0fc8da2b1c955c4254753cbfad1cfd86c08int),
            f: (-1, 0x471ed5e925e3f43bd494310dc166727b47ba9d2c7f34f6ae7d89ece3b164395fint),
            g: (0, 0x6802d5c1cf6f0969a072ef7f5d80452b55531ede4fb3787dc8b802eef14124e4int),
            x3: (0x1d036e0482fe47c5f174667010bd2e42b187333dc189dc6b23ce5faa1ad91402int, 0x37fb2ece191194c6f486272bb243201a3bdeed762f3b33230e067dcef1a4caf6int),
            y3: (0x41c3453508ff0cc0a1c7a55241496c07bf0a73221adb9281b93adcfb36ae177cint, 0x2e881e06589d7f340aaec92043ae7ecbf7ffdb16774706a7c5bb715382a4e11cint),
            t3: (0x1de6ce5a189b07bf090426f88dd1c544b5e929c34240282cc9641fb5b7f1c475int, 0x2059bd02cf867bfd0ecca2dfc01422177ed2deb64693063208c3ca79ab70ee3bint),
            z3: (0x3fcf33324cebb004310f47a422f9f65df633d31cdda46ac4b22bb13284ab6c8eint, 0x634ac4f4e3505460da2d3cb507d4476c85ba41f23337fb62ae5e33de90c8080eint),
        },
    );
    lemma_chain_double(
        base(),
        ExtendedPoint { x: 0x37fb2ece191194c6f486272bb243201a3bdeed762f3b33230e067dcef1a4caf6int, y: 0x2e881e06589d7f340aaec92043ae7ecbf7ffdb16774706a7c5bb715382a4e11cint, t: 0x2059bd02cf867bfd0ecca2dfc01422177ed2deb64693063208c3ca79ab70ee3bint, z: 0x634ac4f4e3505460da2d3cb507d4476c85ba41f23337fb62ae5e33de90c8080eint },
        0xe7db4ea653,
        DoubleWitness {
            xx: (0x1b0873eb6ec5832408d22817e07a22857b4742badd439dfa30be29ab1d4590c8int, 0x2faac7ce55fca046349df4910bef214b9c067aa6f58ed8ee0f91f73cbad3939cint),
            a: (-1, 0x4442df84d3a0dd01fe9be376fdb2b6b9b7b7295c0a6f8310f06e08c2452c6c65int),
            b: (0x12ad5377bc4860e2aaa91734196427982917cd829a5dd8b5bdf41fb270ecd9ebint, 0x61e893c155546a2613782b40d496e16c78fef6b3867923593231493230e56125int),
            zz: (0x550b0e23793424cc1a61cc0c7f686e27446efbc0150eefd0895d24c3575afde2int, 0x49d0e1a7afb444c7b5b8587b29ae66e35a48699be5ea4694e04b0ac2fec5e2e2int),
            c: (1, 0x1fb41bfc35cb0c473836d8ee49baf5c160d32f34cbd6312ac0961586fd8bc5c3int),
            dif: (-1, 0x5647f316a7e9f0241e5d903e32bdad529275d6ab83f4bbb6be3cbf8f14470b41int),
            xy: (0x16784c7cf5fe97904eaf26df2819e98a3627559b9e64ca5bdeac3c54049ee562int, 0x1660d420ab21f1554982318884ce4de2ed68f3ce6a786f5ab83a2e7731618386int),
            e: (0, 0x2cc1a8415643e2aa93046311099c9bc5dad1e79cd4f0deb570745cee62c3070cint),
            g: (1, 0x323dcbf2ff57c9dfdeda36afc8a7c020dcf87c0c90ea4a6b229f51f57611cd89int),
            f: (0, 0x1289aff6c98cbd98a6a35dc17eecca5f7c254cd7c514194062093c6e788607c6int),
            x3: (0x7282b1c543d92eaca1b0b6caf33f8a159c0efcba82847f86a70a69c76a01e43int, 0x1d40345a613a105c4773d3df77452a9a5695b82e75fae5e994acd14591b0a905int),
            y3: (0x25648be0fb25d090b044853057bb9f2c0c020ea6d94fcedaebd704a0992bd30bint, 0x239bd9a07efd11b945bf4101ac705a22a7292776fcb8a16a4f025355da2d3fbeint),
            t3: (0x214f7fb0fa6331e6d41d3f058fa270cbd388e852e581da9ca7df060417c82c1fint, 0x5fd3cf929b72db23268e4aa6fdb30d23a54d18c17e1c43469f4a8138415e21edint),
            z3: (0x808b382159470cd9c354fa086f3fdde0f8cddc8d2bc9363c26ee7c09f332983int, 0x53b990602e73818a6427c39b3c6c59e110ca28d8f6462e3288b2ee5dfce68d73int),
        },
    );
    lemma_chain_double(
        base(),
        ExtendedPoint { x: 0x1d40345a613a105c4773d3df77452a9a5695b82e75fae5e994acd14591b0a905int, y: 0x239bd9a07efd11b945bf4101ac705a22a7292776fcb8a16a4f025355da2d3fbeint, t: 0x5fd3cf929b72db23268e4aa6fdb30d23a54d18c17e1c43469f4a8138415e21edint, z: 0x53b990602e73818a6427c39b3c6c59e110ca28d8f6462e3288b2ee5dfce68d73int },
        0x1cfb69d4ca6,
        DoubleWitness {
            xx: (0x7616889f560a43fd43754d4753ed08efe3064f9d4d27fb7b5050e2801b22e5dint, 0x43732562a1ad84db0adff8b0b518d7c12f134fd778b2a182838400477ec56bbcint),
            a: (-1, 0x307a81f087eff86d2859df575489004424aa542b874bba7c7c7bffb7813a9445int),
            b: (0xaf00b275654c6c6fa12340dd70c58217f25b80a5f78dae746945022067318f2int, 0x24c59516e8783b01a5e05ad9abdaa5f84873bf69706179d4f629698b0a37f812int),
            zz: (0x3c7794eb98ed08d573fc90156106cbb4ce27e8073e143ba0275a35f445b08dfdint, 0xb10ecfe7d7ff2aff8df6a271ad3070d35b813d8110dbce26a9da7b39b1b53acint),
            c: (0, 0x1621d9fcfaffe55ff1bed44e35a60e1a6b7027b0221b79c4d53b4f673636a758int),
            dif: (0, 0xbb4ecd99f77bd6b8279847da8ae5a4bdc3694c216ea40a78652962c77029c33int),
            xy: (0x8fc17b10124d49efdba5905439852613012b3df283f2851552070f662735564int, 0x6785ddac886fd828add0e58d0d807d3e01f1d4f0bda7ec8377e01e8f30235752int),
            e: (1, 0x5b1e1405e74233092867f312115f2276b02605de7b517d07efc03d1f6046aea3int),
            g: (0, 0x554017077068336ece3a3a310063a63c6d1e1394f7ad345172a569428b728c57int),
            f: (0, 0x3f1e3d0a75684e0edc7b65e2cabd982201adebe4d591ba8c9d6a19db553be4ffint),
            x3: (0x319c1265cb881ae7345c76420e9dcb63097f020befa8d8f2048a86f5b4adf289int, 0x24e0658f6c83d264ccbf5506a50e7eff97f5f952ffc09655c246384a83d42dd4int),
            y3: (0x89bda301856158b8676abc6c8fac6a1d57b6432751002b6b2998ae349615aecint, 0x5a7c84c5c01aa0c9a14ec7d0b7034749c7c3486f125ec748f00c459d5a39e69int),
            t3: (0x93386e3268b788e196ac53c9dce02fae3f838e7f3b4285a0d3e48c882e40e80int, 0x1bee8ef46f1d60937c7e700b5a24e78d18fd87c99e368fb6a6e03361dfe20ff9int),
            z3: (0x2e6a4d5e04ae0c51e284e45b069c73731e8a9fae123bb0e3ecfb9df87e0b5292int, 0x12e181e73383a638a7885854f25e0368e99a5247faf7459461ee8b80a918f417int),
        },
    );
    lemma_chain_add(
        base(),
        ExtendedPoint { x: 0x24e0658f6c83d264ccbf5506a50e7eff97f5f952ffc09655c246384a83d42dd4int, y: 0x5a7c84c5c01aa0c9a14ec7d0b7034749c7c3486f125ec748f00c459d5a39e69int, t: 0x1bee8ef46f1d60937c7e700b5a24e78d18fd87c99e368fb6a6e03361dfe20ff9int, z: 0x12e181e73383a638a7885854f25e0368e99a5247faf7459461ee8b80a918f417int },
        0x39f6d3a994c,
        SumWitness {
            a: (0x2e93feb4599db51d2c9a4dca21ff528502a7a522341c14b2b0569e16d361347int, 0x5c188cd775e95882466d276af07cd90230cd4a1ad14a8253eae8a4beaede1475int),
            b: (0x4465cceba25574ac9ff090cefa8d9bf270ed2f403245ae9f64e46450ea5b958int, 0x50be1adf1b2b735a22152083f8b799c2da24c319982b1dfcf3e2f2ca284a3758int),
            dt: (0xa42099aafd7f7ff2b6ba735fd3bdfa601c0dfc6a1c4bed0b09fae14788aca72int, 0xeb69fe8961ac7eac04828cc627d588ed91e87a8cb4a27201a258bad77348eb7int),
            c: (0xad112a9d4241ab6ff7e9c64f331995daa8bf96ef92994cc7c7b31b899d7570int, 0x60aab24fd997c509c4d261541e52a5c5e8e28ae124dd35b09264b95c59f792cfint),
            zz: (0, 0x12e181e73383a638a7885854f25e0368e99a5247faf7459461ee8b80a918f417int),
            h: (1, 0x38e9006367774e9435486fe6df929abfb734693169774451decb9789d7284bccint),
            s0: (0, 0x2a882ddbc8857c7166d44183b07eb37434722dd9f0e682ca5146fca45977cc3dint),
            s1: (0, 0x60c7d6918e437d8827d3dfcfe8923870431f0f21be6a05e37815793fb5885c83int),
            ss: (0x2381cb5197a5349008fe5eee689f18088f69f0d818563ebcf6cc9403af2ade1cint, 0x4558bf154278ec22e2a5f982fa62780cfa79f9fa5ab5c8d93a12f567c7f0911bint),
            e: (0, 0xc6fbeb1db019d8ead5d899c1acfdd4d434590c8f13e84875b475dddf0c8454fint),
            f: (-1, 0x262476ea83895e7715efcf08ddad35a854756b69d6186be2cf89d2234f216149int),
            g: (0, 0x738c34370d1b6b426c5ab9a910b0a92ed27cdd291fd47b44f45344dd031086e6int),
            x3: (0x41781ea23f450df92f2d2971db4166936352123e6695cd7f1bed41afe746497int, 0x48a9246ad0b9691fc16dc227ddff661c99be0654dae15b05e20d8c02dd194df0int),
            y3: (0x38b929a6325313788b7a4c4eed4c0f84ebc776855db5f7df7f530445ac577667int, 0x607e2f117c39270529e42b6ee2864596dd9d9d879eaeca1e7473491bda496ae1int),
            t3: (0x61aed1fa9dae54c3c7734d4a7f754e3cc76834d1bf6e8b139bcdd16f13dd9feint, 0x54ec310a24e5e5db318f69ebe56f2af1c0497e4251f7a6aee0795114c7ff85f6int),
            z3: (0x260466e1fe8621f7b65f6a83010ebfbfa99be198a9bd86b3c81c728e8d659056int, 0x31b3e1aad6671cf34f6a947dae4c75c4310dbcfdda50fd1d37901b2af3140d40int),
        },
    );
    lemma_chain_double(
        base(),
        ExtendedPoint { x: 0x48a9246ad0b9691fc16dc227ddff661c99be0654dae15b05e20d8c02dd194df0int, y: 0x607e2f117c39270529e42b6ee2864596dd9d9d879eaeca1e7473491bda496ae1int, t: 0x54ec310a24e5e5db318f69ebe56f2af1c0497e4251f7a6aee0795114c7ff85f6int, z: 0x31b3e1aad6671cf34f6a947dae4c75c4310dbcfdda50fd1d37901b2af3140d40int },
        0x39f6d3a994d,
        DoubleWitness {
            xx: (0x2d8ab008cb2ea2b9c128e58e246948f87efa122fe5f57b61f4aabab884c43498int, 0x2877e0d970acba0711fc220711b60a7e2d8e71e56d46c3581b11e4b02bd60c68int),
            a: (-1, 0x4b75c679b8f0c341213db600f7ebcd87262f321d92b798a6e4ee1b4ed429f399int),
            b: (0x5050da7d7cca89af41b8fbaf637e0dbe3672e61854785ad51d7e42558ef586f6int, 0x371f415e51e046b0bc85ae23adcee5e30e91bcf336dcb38a042f412bc5fb92cbint),
            zz: (0x154f2ff697cd7b10d3a77e03ad9842e4d289d79bdbadf526e320b92f2c886623int, 0x1b6512449076d67d4a02ba405dcf2c6f4f0e29f5ffee4166959698ad662729ddint),
            c: (0, 0x36ca248920edacfa94057480bb9e58de9e1c53ebffdc82cd2b2d315acc4e53baint),
            dif: (0, 0x1456851b67107c9064b807dd4a1ce7a4179d752a5bdae51ce0beda230e2e60ceint),
            xy: (0x3c7aa75e5d3ae5147c2c2ad82999a72ee4ef9798eba91ba5859df758b562447aint, 0xa08452334b2fd17ce43aa9c0c24155581dfe4cd0e0798322272cc17b1909b76int),
            e: (0, 0x14108a466965fa2f9c87553818482aab03bfc99a1c0f306444e5982f632136ecint),
            g: (1, 0xea76084e1338ca9aa898c1c9c18db64e1034b0dc995f031e91d5c7b9a258663int),
            f: (-1, 0x4bcae34ee9e35cf749bdefa3ea1c5a8b96a49b24c9b7c963bdf02b1fcdd732aaint),
            x3: (0xd1e3510ae99426fac8447d7ee82f67ef61f599692e93c7186a2914c67e387e6int, 0x4bb20a9d7f837d3734183953a8af215a67d5fcc0b92305d38a1e6be2051908d2int),
            y3: (0x292201dead331b0c314824c513b04667d93a1d6bf63ef0921cd6e826c08a29eint, 0x4496d156d0623f0a16c79a12dad44b5d45a1324a06b03d6fa83967004058a10cint),
            t3: (0x38521ec9f6f63a8d606cef4f342090d083f216b9df7a716dad24bcd9653576eint, 0x2f61e7f3ab38af7b10910309f3767a97c9f9aa0b9265d7a84eba622b69675a7aint),
            z3: (0x9949ac33644db7c03435631fa70a4726586629168d649a7d1074b52598c14faint, 0x4a445a386e7b4e7173b3f8b4d0510eb216eecc4868caaa92c440c0f57bc37ec4int),
        },
    );
}

/// The multiples of the base point, from the multiple by
/// 0x73eda75329a
/// to the multiple by
/// 0x1cfb69d4ca6760.
proof fn lemma_order_part_6()
    requires
        extended_valid(base()),
        extended_valid(ExtendedPoint { x: 0x4bb20a9d7f837d3734183953a8af215a67d5fcc0b92305d38a1e6be2051908d2int, y: 0x4496d156d0623f0a16c79a12dad44b5d45a1324a06b03d6fa83967004058a10cint, t: 0x2f61e7f3ab38af7b10910309f3767a97c9f9aa0b9265d7a84eba622b69675a7aint, z: 0x4a445a386e7b4e7173b3f8b4d0510eb216eecc4868caaa92c440c0f57bc37ec4int }),
        same_point(ExtendedPoint { x: 0x4bb20a9d7f837d3734183953a8af215a67d5fcc0b92305d38a1e6be2051908d2int, y: 0x4496d156d0623f0a16c79a12dad44b5d45a1324a06b03d6fa83967004058a10cint, t: 0x2f61e7f3ab38af7b10910309f3767a97c9f9aa0b9265d7a84eba622b69675a7aint, z: 0x4a445a386e7b4e7173b3f8b4d0510eb216eecc4868caaa92c440c0f57bc37ec4int }, times(base(), 0x73eda75329a)),
    ensures
        extended_valid(ExtendedPoint { x: 0x3309df405437bd7464a6a153b6e491ef837aad492ce2927b244ce733db48de83int, y: 0x4fdf9e72802a48a7b50a28884cf642bdc5689f76fc9d4994b44082d5437722d8int, t: 0x8cdf05398d333c79ebb6b1380a83a91d6140fda2eea01ecce3130367be9b62dint, z: 0x421b60060e64d81a53c2820f6a02b43de5274d72b3b5abd3e9e0d1dbcca1ea6int }),
        same_point(ExtendedPoint { x: 0x3309df405437bd7464a6a153b6e491ef837aad492ce2927b244ce733db48de83int, y: 0x4fdf9e72802a48a7b50a28884cf642bdc5689f76fc9d4994b44082d5437722d8int, t: 0x8cdf05398d333c79ebb6b1380a83a91d6140fda2eea01ecce3130367be9b62dint, z: 0x421b60060e64d81a53c2820f6a02b43de5274d72b3b5abd3e9e0d1dbcca1ea6int }, times(base(), 0x1cfb69d4ca6760)),
{
    lemma_negative_base();
    lemma_chain_double(
        base(),
        ExtendedPoint { x: 0x4bb20a9d7f837d3734183953a8af215a67d5fcc0b92305d38a1e6be2051908d2int, y: 0x4496d156d0623f0a16c79a12dad44b5d45a1324a06b03d6fa83967004058a10cint, t: 0x2f61e7f3ab38af7b10910309f3767a97c9f9aa0b9265d7a84eba622b69675a7aint, z: 0x4a445a386e7b4e7173b3f8b4d0510eb216eecc4868caaa92c440c0f57bc37ec4int },
        0x73eda75329a,
        DoubleWitness {
            xx: (0x316ce7541f45d74fefbb0043689b38b4c52cd1a16933e25f67b08afa1c5ff678int, 0x1b15a841ada6cb570c1bba39aabc7a1eee88e829fe31246f1b948710d0f1d5ccint),
            a: (-1, 0x58d7ff117bf6b1f1271e1dce5ee55de66534bbd901cd378fe46b78ee2f0e2a35int),
            b: (0x2894b1d1ed0340c561e704f44cead0ed89a24ee60f464da6b948355830df93e3int, 0x602414ab8082343ce956ba9a2b803bb4b80fdea0f9f769b50b375bfecb084adint),
            zz: (0x2f93db1cc296f275ada0ef68eb92796e2371d00dbeccf7f753a7d6f0facb8a7bint, 0x30bda6f0887efd4e2fc23e28869558b7d5b91cdc8d337deb874fc7ccba91fb95int),
            c: (0, 0x617b4de110fdfa9c5f847c510d2ab16fab7239b91a66fbd70e9f8f997523f72aint),
            dif: (0, 0x52d5bdc6c3ee8ead5888b224bc2d5a2b19b3bdeef22dc0f493b8032e425da588int),
            xy: (0x2cc90a589bd66acdc6a2fcc60dabd1da8fa3575b9c1e076be556bc1af9eedf53int, 0x29348258a78d5442d5005df53607b096565375af808182af2024d7d489f99c85int),
            e: (0, 0x526904b14f1aa885aa00bbea6c0f612caca6eb5f0103055e4049afa913f3390aint),
            g: (0, 0x5eda405c33fed534f5b38978019d61a1b0b5b9c3116cae2b351eeeae1bbeaee2int),
            f: (-1, 0x714c99ce4c9e57e0c968e52efe1488375901240cf7040e53267f5f13a69ab7b9int),
            x3: (0x508a90560cad0f45dea06f5348766559f719f7d3f7efce53e673b08280ec6e87int, 0x148c5a66d40a371982559581bf02979315ade5503bce5454901e358193a1efb3int),
            y3: (0x43c688bca4dc153a7a67a6e9b6a2be8056f1b926894eeff7ba9eeb4b821b4565int, 0x9957986dcf04f46a9462b47b1bcbed7272aa6016eb7272d38e8ae71ee034cabint),
            t3: (0x3ae29251f9e2dc6d80e4b9247b805e5415c7efe5d979ea772fecee1a37afeeb0int, 0xadceeecdc33a54d758e6c5db9edcedbf8c752d99400f9a41409e2071ebd0a0int),
            z3: (0x5cb38f48fa658c2339191b637f79f4f0ab96d3482627fd9e08005b84c4193403int, 0x306abb8541aad72d664a9f907594f3e090a6a73ff408b588d6f6f90757aabb4fint),
        },
    );
    lemma_chain_double(
        base(),
        ExtendedPoint { x: 0x148c5a66d40a371982559581bf02979315ade5503bce5454901e358193a1efb3int, y: 0x9957986dcf04f46a9462b47b1bcbed7272aa6016eb7272d38e8ae71ee034cabint, t: 0xadceeecdc33a54d758e6c5db9edcedbf8c752d99400f9a41409e2071ebd0a0int, z: 0x306abb8541aad72d664a9f907594f3e090a6a73ff408b588d6f6f90757aabb4fint },
        0xe7db4ea6534,
        DoubleWitness {
            xx: (0x3a465492e523eec0885ae0ce922ca70fa75b762545e24aa926b7a446b0d8477int, 0x3b440f999bb6f176892ab8e6c5f883dbd6aece719fb88bdd922d1a4f868832b2int),
            a: (-1, 0x38a997b98de68bd1aa0f1f2143a954297d0ed5916045d0216dd2e5af7977cd4fint),
            b: (0xcad4a65c9479850adcf2ce539c3b59547ae480801ecfa5e793d118097bf637int, 0x66ddb551ab605e7e6d2c45f4ba6a5c171d1133798d622b8d60446aadcd7c0402int),
            zz: (0x14389a0caa40b4923624ffc5be93c11f845320359e2671fcc2d71b543593ed13int, 0xad18bd83a110fc0bc6d35258bdac09fc85ca4c5bd59b2628c4c3b3dca64954eint),
            c: (0, 0x15a317b074221f8178da6a4b17b5813f90b9498b7ab364c51898767b94c92a9cint),
            dif: (-1, 0x45b989bb0c23aa9b701cb13492e0d017b3bb461ad2e200930d8e7b00abfbc94eint),
            xy: (0x1b2e0a2ed454c557e150febf983fb377721658825267635b696e7a6fa8c1f1bint, 0x5ece9d0b4a60a2db43687932567e70078971f5521b37611c35692c96eee12176int),
            e: (1, 0x49af92c36b23c86e53971a5ca35b0809bf2646a1367066396ad2592eddc242ebint),
            g: (1, 0x2b99a5b80fa96d07e4018d0df471d83b46626507eda99fafce17505e46f3d150int),
            f: (0, 0x15f68e079b874d866b2722c2dcbc56fbb5a91b7c72f63aeab57ed9e2b22aa6b4int),
            x3: (0xdf5c848050b278531f5adc8f316f024b2a87bc9a2d99c2bf989f206b9b38ee9int, 0x13e0465c8b57f23841506780b697e190385c99b8cf906a0100a8707e8ad5e053int),
            y3: (0x1a3923e1cef946ebe85bed335af2cc70232152404e4bfb7d751ec17f28a3ee99int, 0x488d48e546cece4c500c0d881205ec4d39cd73da9326466ce27f8d678e6da7c7int),
            t3: (0x2c5170e65d2e84e4508e5552ac1eef07a9418e563452aca580a65528ba2ff2a5int, 0x5641717def33ae8495876b20d0166a749b4d300c35e097fa103baf0bf2f3f3f5int),
            z3: (0x8429ed733274e4a2e6b19ff99a2fb900469e93dd98fff77fa744fe0e5f9da0fint, 0x1c720803b8cc02145d4242bfcea0b64d983fa27a3f02b2ea93dff2a40e4f3231int),
        },
    );
    lemma_chain_double(
        base(),
        ExtendedPoint { x: 0x13e0465c8b57f23841506780b697e190385c99b8cf906a0100a8707e8ad5e053int, y: 0x488d48e546cece4c500c0d881205ec4d39cd73da9326466ce27f8d678e6da7c7int, t: 0x5641717def33ae8495876b20d0166a749b4d300c35e097fa103baf0bf2f3f3f5int, z: 0x1c720803b8cc02145d4242bfcea0b64d983fa27a3f02b2ea93dff2a40e4f3231int },
        0x1cfb69d4ca68,
        DoubleWitness {
            xx: (0x368644b6ffeb54dc76e25b4f3625c488772553502327f64abdfda02ad8834cfint, 0x1f387a3945fc881776b9e9c6bb8ef5707aa607f5702ed8d188b51508dd27261aint),
            a: (-1, 0x54b52d19e3a0f530bc7fee414e12e294d9179c0d8fcf832d774aeaf622d8d9e7int),
            b: (0x2d67cb0af19963010169cd6d343d7b662cb0037997cd090c611be31b199daf73int, 0x3ed01622be370bd7fcbab1d9ebfa74fc6289cb008673c33a423fd992f7cd8d3eint),
            zz: (0x6facc5b0697ea81a2831678bc11306dc5f6db08c3e7a38bb4051da1e7381b43int, 0x3143ec4d9df2479988e09a91e55feaf2faf702ba1da1dcbafbbab26678dd121eint),
            c: (0, 0x6287d89b3be48f3311c13523cabfd5e5f5ee05743b43b975f77564ccf1ba243cint),
            dif: (0, 0x15e516f72569e958bfc53c6762186d98768dd10d095bbff3350b11632b0b4ca9int),
            xy: (0xc706a58abb648c20d60159c5d156b378f158f5a616fc0257a04c367ffa51f1cint, 0x425cc49df94edb4d2ddf5aa9bad214ec1dc3d4ddd06dd13b389e1286ff496669int),
            e: (1, 0x10cbe1e8c90039522884dd4b6c0251d2e7ca05b8a0dd4677713c250efe92ccd1int),
            g: (1, 0x1f979be9783a83c08600c813306b7f8be7e3c30b1644ea68b98ac48a1aa66724int),
            f: (-1, 0x30fd6aa165f371d5a7796af76f4d81ab45b36199daff8cf1c2155fbc28ec42e9int),
            x3: (0x7191403d661513233f7a20fd55f367819f8a20aa848d34752c8020a008266bfint, 0xd6b17883bc852d3c8dd89cd10cde54ce51bf1068066ae235d9494ce0493e57aint),
            y3: (0x5f778bd35231145c8f3df97c22377d39c8c77e440d0d9eb98a33146890f94a2int, 0x1cf00a30b2c564e0228c7db7d2134656ff393696a55a5b08818981d5eff53222int),
            t3: (0x32c19a35a3dd4c7d2e1735c82d51c357ff918448a9e271c1d7f1aafb96cd0f8int, 0x2b93b7117eda35d87806d999828f8f24025459f39bcf989f98644f4ad2457101int),
            z3: (0xd59b9ba6a538c99bdf84c4d56415c31ed6875cc052fca8233087077fb3b152dint, 0x2359dd1896af26e8705e84e097ed76ddb002ae969acb4aef4213cd3ae2001297int),
        },
    );
    lemma_chain_subtract(
        base(),
        negative_base(),
        ExtendedPoint { x: 0xd6b17883bc852d3c8dd89cd10cde54ce51bf1068066ae235d9494ce0493e57aint, y: 0x1cf00a30b2c564e0228c7db7d2134656ff393696a55a5b08818981d5eff53222int, t: 0x2b93b7117eda35d87806d999828f8f24025459f39bcf989f98644f4ad2457101int, z: 0x2359dd1896af26e8705e84e097ed76ddb002ae969acb4aef4213cd3ae2001297int },
        0x39f6d3a994d0,
        SumWitness {
            a: (0xc5beab068498b0536927690843e665a8acc5fa05475a39e9f13dba389901be1int, 0xd6e8d18bd0e61371f5b8b662788e3ae886d25703c160fa13e099f2a305bcd0bint),
            b: (0x15dfa7872294d2f58167d0b79a99e85ae69c1dc689b494fa85ccf319541441bcint, 0x6c6abfeaf4a9c3be4a9ad11c65a161429d9dad3c66f6306c625b1775fe7b2ea4int),
            dt: (0x1000edb0a8997afd5b266fe9025a517d90376cf3c6685c9f4d29e9c66951b8c8int, 0x738d82d09222c1645595e40939080307072cdfcc9d5704a39db159119443a6e9int),
            c: (0x6e3e505fe42d2a679dc92efa426e196574d7f9068b826d9714cf03bc2c94825bint, 0x5f6de7aa8699edcea56e73c2703905282ccbe2bfb61dc59524b136bb81852c2dint),
            zz: (0, 0x2359dd1896af26e8705e84e097ed76ddb002ae969acb4aef4213cd3ae2001297int),
            h: (1, 0x5eba5b0881aa7ad36bc847a83886cebd24d2ea9a30de40ea064b6a12ed6fbaeint),
            s0: (0, 0x2a5b21b8ee8db7b3eb6a0784e2e12ba3e455279d25c1092bdf1e16a3f489179cint),
            s1: (1, 0x4e7a2cab4d8fef627fa28fd19ba7c19a97abbf79df4db594e896ec1ba05d0dddint),
            ss: (0x1cac37791e105dc87e6ef29fe510fcab36998b5d4ae4ee016715d6f054017b14int, 0x114315a0f295ed7fdf5cc42b86037d8bb0a8be486d3635ee2512551bd036d298int),
            e: (0, 0xb576ff06a7b45d2a8a03fb1027b109fde5b8f9eca2851df84ad9e7aa15fd6eaint),
            f: (-1, 0x37d99cc139b2b661fe29e926315649bad6f46fd9e4abe1591d62967e607ae66bint),
            g: (1, 0xeda1d6ff3ab976ee293209afe84a4008910ed5350eab48566c503f763853ec3int),
            x3: (0x576c5323bb15d4b2a57c3d52709f8d5969895ab3ce79380e53eb720da6a31b5int, 0x139819224ecec6d61f3a68af47fb23dc09389b812f0a876d45c0a041df3ede19int),
            y3: (0xc22cdb77d4e2f856adfeb7f8a6c830443800048348e3afc9dd327996256baeint, 0x16c58a68620fb33393cef36a2d8f103f56a8350f9389a1954b5ab73a33f66ddcint),
            t3: (0x94478b15122c3f032f83cd0a2721f47cdf7292b9bde5671b917f6dc3f4f44aint, 0x66d422d8982e8cd0c4d789c40157aa74d44c10d11416d15767c20c5496828cc2int),
            z3: (0x727b871d632641eca1bedeafef19dc13698b8ea18546847e594f5fa80919f17int, 0x41222bb3a41c91f96f51b312d5488b3db280097dd33c603d661e1fefd770ce6aint),
        },
    );
    lemma_chain_double(
        base(),
        ExtendedPoint { x: 0x139819224ecec6d61f3a68af47fb23dc09389b812f0a876d45c0a041df3ede19int, y: 0x16c58a68620fb33393cef36a2d8f103f56a8350f9389a1954b5ab73a33f66ddcint, t: 0x66d422d8982e8cd0c4d789c40157aa74d44c10d11416d15767c20c5496828cc2int, z: 0x41222bb3a41c91f96f51b312d5488b3db280097dd33c603d661e1fefd770ce6aint },
        0x39f6d3a994cf,
        DoubleWitness {
            xx: (0x34fd156d27a036f8917d925ce2912a5718da18593635af4eab00105307e372dint, 0x64647114586912c7701579cf1eb92ab47091bf05d5855a8f9b88d539b24d2744int),
            a: (-1, 0xf89363ed1346a80c3245e38eae8ad50e32be4fd2a79016f64772ac54db2d8bdint),
            b: (0x47916b1a2b737383dd80e07390f509726cb092021a54dfbb5be3728d79244e1int, 0x14002c8a4840b16530347ac0b22848a1b878e95f87b21d502fca7a652262d02fint),
            zz: (0x2498428149bcf07ca4249dd1d3979db64b6ac37e7319996c2a07e32852b4cbdbint, 0xbae43ff82b411a2878449eef81abeabdb4848bd0c3899e94d72ab09fc79f809int),
            c: (0, 0x175c87ff056823450f0893ddf0357d57b690917a187133d29ae55613f8f3f012int),
            dif: (-1, 0x6f76b107b2913663c629bb8042623cb47e709fa0a2c5401e34acb05f2b50088fint),
            xy: (0x3d94e25a72e16df113300a060c43b0bcef488a229d0b42e97053ad23da7ffc9int, 0x67feaa31f8a8deb311c0e8f75e8bb007befcb7fbee87e449a7fac6f2c7f582b3int),
            e: (1, 0x5c0fad10c7b4401df047f9e6b375880a2a3bcbf4dd116c944ff58de68feb0565int),
            g: (0, 0x238962c919751be5f358d8f99d10f5f29ba4ce5cb22b1ebf9441a52a7015a8ecint),
            f: (0, 0xc2cdaca140cf8a0e450451bacdb789ae5143ce299b9eaecf95c4f167721b8daint),
            x3: (0x9ab29a52ca3c6c272c325bed20d993033e81336a486f6aea01d79e61357052aint, 0x1a862c8153ce4c289076a8d232568a8624a646bf33e0e7ce921987870bb12ad8int),
            y3: (0x222b05b97bd274c71657c750f3a71b48738aaaf4290e320b831b7c74a5a5b581int, 0x7358972d71454d7a46f5214c4fc79b852effda8525de2125a93168fa117b0653int),
            t3: (0x588406569c1645d4a895ee5820ed603c3e77194173ccac1900d8b99a54ec0775int, 0x51c83cebfa2902584adc2bf89fb2a700675ec0fa578b0a37dcaea9f90e1723f6int),
            z3: (0x3bb70be8509862246bf16d41647a2f3a1842ada46ccc38aa756e56341cbe6c3int, 0x7dcd71e43924d10b14bfa426e7d89464dc06791c5298b6e9f7204ab3c7b9235int),
        },
    );
    lemma_chain_double(
        base(),
        ExtendedPoint { x: 0x1a862c8153ce4c289076a8d232568a8624a646bf33e0e7ce921987870bb12ad8int, y: 0x7358972d71454d7a46f5214c4fc79b852effda8525de2125a93168fa117b0653int, t: 0x51c83cebfa2902584adc2bf89fb2a700675ec0fa578b0a37dcaea9f90e1723f6int, z: 0x7dcd71e43924d10b14bfa426e7d89464dc06791c5298b6e9f7204ab3c7b9235int },
        0x73eda753299e,
        DoubleWitness {
            xx: (0x611933398de5f940c9cabe1acfe35fabda4452b1c28e35ca4e363e71c752af4int, 0x4e2c5e66377c94d9293c1c92de5c19cf043d6cec3f90d22966557b27b9666b4cint),
            a: (-1, 0x25c148ecf220e86f09fdbb752b45be364f803716c06d89d599aa84d7469994b5int),
            b: (0x72c446b2d663742559f23c350037d8b1b1e84de3c736ac7dde851fd410f4cbb5int, 0x3e13a556611e92e857c4209638085f83d0eef9800778aef54ed307f308f53334int),
            zz: (0x88848a60f69e4709b900667f845b76352fb3d814cb7623452c2b52957755d4int, 0x2d466b22d056fd20b9639a0af3425cd0b8643968fe5238a915704d7e14f72925int),
            c: (0, 0x5a8cd645a0adfa4172c73415e684b9a170c872d1fca471522ae09afc29ee524aint),
            dif: (-1, 0x5b9b4ae9ba9fd2cee57372e6fcdf36b7d24ee199b8f336df4ad77ce33da46182int),
            xy: (0x1a64118ec6ceaf344edb841677f66a9a0f52cd34c64653cae5e5251a8268ef36int, 0x553717b53ca661f25bf7f0b956eef65ecfb2182f03c9ae3ad964de125cd104d2int),
            e: (1, 0x368088174faf469c84b6096aa43c14b84ba68c5b07950076b2c9bc25b9a209a3int),
            g: (0, 0x63d4ee43533f7b5761c1dc0b634e1dba206f3096c7e638cae87d8cca4f8ec7e9int),
            f: (0, 0x94817fdb2918115eefaa7f57cc96418afa6bdc4cb41c778bd9cf1ce25a0759fint),
            x3: (0x45d164931f1fd37bcc225109dbd1dde6597abcd468bcca357b9fde12d72f74bint, 0x5f57726d698f55643bd17ffea5295a144dc585d41374879f4134b783c17883f2int),
            y3: (0x4ee3188d1c458762f82004920262c3879f347723f7ed589681820362009658c8int, 0x4ecd32ec5019fec143293d89adc7806a5b2a25f003c7ee477add98fd15ee748aint),
            t3: (0x2b114ba7983699c924652cdb07d4388769adf7d3db76dd55537f38a489ae7de6int, 0x56a50576c162cc7987cd0d1daba5c7bc4fee49d68703a2864390236323ad29e0int),
            z3: (0x7fe2cb5bfe6a9a6526b94290cdda4871e1938caafbeeb120be65de1629761f2int, 0x2f91884856d8d4341d4f0208ff706390c188cc9e89e0cb5ca0087eb3e71444c5int),
        },
    );
    lemma_chain_subtract(
        base(),
        negative_base(),
        ExtendedPoint { x: 0x5f57726d698f55643bd17ffea5295a144dc585d41374879f4134b783c17883f2int, y: 0x4ecd32ec5019fec143293d89adc7806a5b2a25f003c7ee477add98fd15ee748aint, t: 0x56a50576c162cc7987cd0d1daba5c7bc4fee49d68703a2864390236323ad29e0int, z: 0x2f91884856d8d4341d4f0208ff706390c188cc9e89e0cb5ca0087eb3e71444c5int },
        0xe7db4ea6533c,
        SumWitness {
            a: (0x57d0a8b9c9597d21c2fd1b96a32cd3bd4f0292d11fb318f5a1da6c72e80b3051int, 0x5e5acd3356481b92e612de74b5a1c4737f88ef3425dd6d866e82c832416dae2bint),
            b: (0x3b90b20308e126076a8d5b33970391da3d5ec08cb0f9c2536ca60e9b03c4d502int, 0x6813af15d627aa903820087d8b9676acbd19ff251918a3f68e9306c7fca96deint),
            dt: (0x1fd1f6e1f8541aa5dec184b44e0f9cb1d2696f3bd63e2769fa50c1c73e32853dint, 0x1954863857a09b7f4be58c7d2e53aa1b2e405b8cc815c73de39d5f131e2baea3int),
            c: (0x182a9395327b3969b4a4190ded1536ef2cad743f4d68ce7af02aae89cf7c7fb8int, 0x4ad88a325cd389eec5d11ef8022fbab8bf42be7d34116775a1ebc08bf5dd20int),
            zz: (0, 0x2f91884856d8d4341d4f0208ff706390c188cc9e89e0cb5ca0087eb3e71444c5int),
            h: (0, 0x64dc0824b3aa963be994defc8e5b2bde4b5a8f26776ef7c5d76bf89ec1384509int),
            s0: (1, 0x3a36fe06900bd6dd4bc0e580494f0279553207c1173e19e7bc125081d766f87bint),
            s1: (1, 0x4e7a2cab4d8fef627fa28fd19ba7c19a97abbf79df4db594e896ec1ba05d0dddint),
            ss: (0x2768861939b44e5c1d8ee3e5c217f014f12c7bcf5acd5f403f1552ef292fb6fcint, 0x595bc0fcf3aeb68867770f3eab18648f6f45f70b92fa57234ecbb0c22a020a33int),
            e: (-1, 0x686d602b69a19d94b11c084a265f10b677a90be81b89bb5c775fb82268c9c52bint),
            f: (0, 0x2f46afbe247c00aa2e8930ea076e33d608c989e00cacb9f52a6692f35b1e67a5int),
            g: (0, 0x2fdc60d28935a7be0c14d327f772934b7a480f5d0714dcc415aa6a74730a21e5int),
            x3: (0x2a95ff01db22b4404637d907dd3538e2524fc2bfffcfcfda2a99c14082f621dbint, 0x3b06c3be610691fe496c37d8533c9fd7012e885af9f861dec286957d99743fdcint),
            y3: (0x29a3c3af24aa718ef8f8e73afd3c15191a872627ed5f7eb29e6428093e7c9976int, 0x6554a1b24ad7edecbcf0c259bbc887ec1d99ec3e6c3bd24eb4c923a197195097int),
            t3: (0x5ada768a83867d792eb60f625080e1cc3cd67e1821994b613291c4ce1073255fint, 0x3a5aef5c62325636aa5794ed25075bde27e8af9c1e1fb6bebee982578d316024int),
            z3: (0x138493ce46c1e0b93bc502e9a88cd8e0c4ee89d653d149354ad32fc693fd176fint, 0x4701a48ffca11e9e55d7af89e3ebed82510fe791813049d0bc903a9b0503e42aint),
        },
    );
    lemma_chain_double(
        base(),
        ExtendedPoint { x: 0x3b06c3be610691fe496c37d8533c9fd7012e885af9f861dec286957d99743fdcint, y: 0x6554a1b24ad7edecbcf0c259bbc887ec1d99ec3e6c3bd24eb4c923a197195097int, t: 0x3a5aef5c62325636aa5794ed25075bde27e8af9c1e1fb6bebee982578d316024int, z: 0x4701a48ffca11e9e55d7af89e3ebed82510fe791813049d0bc903a9b0503e42aint },
        0xe7db4ea6533b,
        DoubleWitness {
            xx: (0x1e0dd7ceddd3dd159c0f67b37ba57bfa106a7fd526122e6a1c1e4ac6272e5668int, 0x5dfee4f675018d63becb1a4ed87581b33bce4004469cd510df38a998c01faea8int),
            a: (-1, 0x15eec25cb49befe4746ebdb9312c565217ef63feb96186ee20c756663fe05159int),
            b: (0x58922d4bfa7677c8647a789dfda3bf7b916c93cab8f9fc7f19c8b634a8437ceeint, 0x698ec1325ce3f5ea4709528b3eccc213c5be517e2077fb0cc6a84e3a50993c23int),
            zz: (0x2b7ddaefa3986a8857019e0da0dfd9556ed0818be5f0c598667083d14de7ac98int, 0x6029ae1f8d22a3d923a1ec390b600d96de4ba2fbd2f17ab41ce9a29b7a6f2a4cint),
            c: (1, 0x4c65b4ebf0a7ca6a140a006a0d1e432868d9a1f4a5e4996939d34537f4de5497int),
            dif: (-1, 0x204da87d81557742609f4335fc016c43a5eeb68398e7e7e05a1f082aef471537int),
            xy: (0x339802d840bd32d6bd29c2343168e3937326a9770c19bc92430c0ea7d9615615int, 0x7354ed127201602ef9c23bfeb1fd615fc2bb758cd73d2ad84bc97fd7fea114afint),
            e: (1, 0x72bc32d1ba654315c04a9ff55a58eaba31b94716ae7bf9b19792ffb0fd42295dint),
            g: (1, 0xb8fdc3be7e26886883e383c6657406089f01179d9db25fbe76fa4a190798d7bint),
            f: (-1, 0x3317cea320d81b64a76e0fda62dad53d74d4138833f4e891ad9c5f689b9b38e5int),
            x3: (0x32912f284e0738969bda8b3a52ad6390f78d58c88832f0af78a901a375e0787bint, 0xd85c97bb241d7d1503e7493f07a89aa08138a6d7c069f19330b9e72e9a9dfb6int),
            y3: (0x338c358c87d5c320146f37d339365c418074f870ace2e3d4e871b3ca539be5dint, 0x191d40e7ca221c438ce0bfbf28973244dcda078b20388f3b9722ddaa6f9bbe10int),
            t3: (0x1ff88b163227b01c574840deb7d1cd8a29de03d16d90407a0e2220791134efd0int, 0x16841e3d02c452bd0611524a5f1ce229c3334669bdcf11c21b90f65d1131942bint),
            z3: (0x5187f292a65c83482cf3eb356ef19f67de3154b3ddac1ada552a058c9974bbbint, 0x4adc94d762f9e566c17af669ef0e536fa26f6cf30b21643c3a4878bd2c902b4cint),
        },
    );
    lemma_chain_double(
        base(),
        ExtendedPoint { x: 0xd85c97bb241d7d1503e7493f07a89aa08138a6d7c069f19330b9e72e9a9dfb6int, y: 0x191d40e7ca221c438ce0bfbf28973244dcda078b20388f3b9722ddaa6f9bbe10int, t: 0x16841e3d02c452bd0611524a5f1ce229c3334669bdcf11c21b90f65d1131942bint, z: 0x4adc94d762f9e566c17af669ef0e536fa26f6cf30b21643c3a4878bd2c902b4cint },
        0x1cfb69d4ca676,
        DoubleWitness {
            xx: (0x193cdf283b62907928af771f0786af6e4a435b32f4f5f2019146290c5e5a7e6int, 0x1281188362ba658a002fcb938fbc03acc34850feb3c598a10b2bd55fa7e4ed7eint),
            a: (-1, 0x616c8ecfc6e317be330a0c7479e5d458907553044c38c35df4d42a9f581b1283int),
            b: (0x570cf162f8c8545f4312b3d11aa98a769051fe3bc423fc2ddd846e5f4d0f01eint, 0x4fbdb71e3a3f1baa56efa00e498255bbc52868972856c061c4e124099faad0e2int),
            zz: (0x3057ae64e661bd162e8028dbb1a280a3135fb00a24b37656bcbe2e047c3c90baint, 0x240add2edf73c25d166b94ea421d8bb5c31ff7d9844466508777710060960dd6int),
            c: (0, 0x4815ba5dbee784ba2cd729d4843b176b863fefb30888cca10eeee200c12c1bacint),
            dif: (0, 0x11aed7b18ca3fc13dc1a6c6630637e9ccb4cea6d23e202fc2ff30695b87041a1int),
            xy: (0x2edf2c560c35ce87569735e9a75671090dea0629c395958d5baf34792015fb7int, 0x171a9e9414fd0bf1db415ad1c6578e0013df264726f1ad5530986bc079d7afa9int),
            e: (0, 0x2e353d2829fa17e3b682b5a38caf1c0027be4c8e4de35aaa6130d780f3af5f52int),
            g: (1, 0x3d3c9e9ad784b62056bfd47ab9c6520f01e01798749127c0b9b54ea9f7c5e364int),
            f: (-1, 0x69148b90423aaeae5d2282ae3f2d12a8cf5dcbe86c06b71eaac66ca83699c7b9int),
            x3: (0x29e24f20bbc97db3c45e3b71b95546cb65b87617f762ad064fb55587f222d146int, 0x11b543430c12304f0c41055adc052bd859bb42ed010b3814ea703d16beb3cefcint),
            y3: (0x95736814a0fc6efabf572a7e5694e499c6256b0e4e7efc76b480abf671237d9int, 0x4ff3cc3353efd88c983d6441865f9b69dce6dda0f84cbecb71aa211f06de2e0bint),
            t3: (0x70c5b906afce78128f2779905c4bd150a875c907eef68e503a28dbc52da995aint, 0x5f1443ce9c3026c994ed098886ba661727c5a7d3dfefbcbc475c618d19842b38int),
            z3: (0x3781ab128969d33b1b4d5a9417c4432fca4cdc201ebfc1750294d4fd0d459aabint, 0x3f2c48259dd166d07d388d8633435f0e43b02f88b44282a169d8faf8d3427499int),
        },
    );
    lemma_chain_double(
        base(),
        ExtendedPoint { x: 0x11b543430c12304f0c41055adc052bd859bb42ed010b3814ea703d16beb3cefcint, y: 0x4ff3cc3353efd88c983d6441865f9b69dce6dda0f84cbecb71aa211f06de2e0bint, t: 0x5f1443ce9c3026c994ed098886ba661727c5a7d3dfefbcbc475c618d19842b38int, z: 0x3f2c48259dd166d07d388d8633435f0e43b02f88b44282a169d8faf8d3427499int },
        0x39f6d3a994cec,
        DoubleWitness {
            xx: (0x2b474c0569f50101c9cc772f48fd280c0c4274367f3bfd9327e8ac286f12389int, 0x290665f30e545c8513510e1e242cab332acef3aa3f32b673268da99fa4d16487int),
            a: (-1, 0x4ae741601b4920c31fe8c9e9e5752cd228eeb058c0cba58bd972565f5b2e9b7aint),
            b: (0x37240879cb054b3310bc651056378007f3a973d76f64c2afc2098917e11a2093int, 0x2ffc5b7ac1cf05e4dcd50473f80cd73f6925c81acdfbb3afed89bf218641d3e6int),
            zz: (0x226cc8427392166ab7f66d0860a718b79d08353be54f9a0a890ec8093b74d932int, 0x2da789ef98ae8d3d567f00e45d0d2abc38db4aeaa9ac0de4c1696b0d4e8a2a3fint),
            c: (0, 0x5b4f13df315d1a7aacfe01c8ba1a557871b695d553581bc982d2d61a9d14547eint),
            dif: (0, 0x1aeae5e5597a1ade4313c575ed685592bfc8e83df2cff1dbebe8973dd4ecc794int),
            xy: (0xc3674f68dc62643c42e8466fc6fbf7b66fd332d66974a5df8a3d48bcad591a4int, 0x13b0b18cad374b50b9780783a782647151f5e139a4c7c58a86fc96a21c9d9b30int),
            e: (0, 0x276163195a6e96a172f00f074f04c8e2a3ebc273498f8b150df92d44393b3660int),
            g: (1, 0x6f5f587b37aa95fc983f655d3e02c0c3e56d4708ec8fd3cc6fc1581e1706f5fint),
            f: (-1, 0x1f9488fbabbb0c2d4fbfcc952367ae99205de29e3b6f3d7244293f66445c1ae2int),
            x3: (0xaba493e538e53a62ac277d40a315b64ee943b28e359c2eaabccd18ae6be5d31int, 0xffffd23af805d312b1abcea81d729f3458ae54ca6b5c056d89605a9ad8d638fint),
            y3: (0x19dc175d2b9bbf1a63cfc6e3dbb9433b2511c18ba5fa610ac2594dc03186ce4int, 0x1724961bc19f88bdaa416f5046c25b0c065eed83fba13905e467bfe1100ecf08int),
            t3: (0x924cfe584258ef3d02843f162ded1681e6c63393e5d32957cf0dd36dc2e1a3fint, 0x5fd380f9377f484897f98beba37a967d392cd96ee0ce45d256f3d173e1d1f541int),
            z3: (0x1e56d1c0a48d6ca04d2e24db9b8121c71a22ed9a5091289ab94c0134fceccf5int, 0x1a98d785102e79a679941df8fba8943090fb1f11ddad5ec9b3eedd4762e72ae9int),
        },
    );
    lemma_chain_double(
        base(),
        ExtendedPoint { x: 0xffffd23af805d312b1abcea81d729f3458ae54ca6b5c056d89605a9ad8d638fint, y: 0x1724961bc19f88bdaa416f5046c25b0c065eed83fba13905e467bfe1100ecf08int, t: 0x5fd380f9377f484897f98beba37a967d392cd96ee0ce45d256f3d173e1d1f541int, z: 0x1a98d785102e79a679941df8fba8943090fb1f11ddad5ec9b3eedd4762e72ae9int },
        0x73eda753299d8,
        DoubleWitness {
            xx: (0x2354fcac98b5405961676b78693511d3c4bcf324671f518cfc79c877f3822f5int, 0x729b046d9d3f706bce7a64c18c1b45106495400906492d67cb3df5e19905c6ecint),
            a: (-1, 0x152a2e58c5e0cdc64bf73467d8692f4ef2863f9f9b52e9734c20a1d66fa3915int),
            b: (0x49ebb80eb5ed6f9e56a2ab766eea1efcf7010fffa9c9c64a1dd42e3b3da87d2int, 0x295205af0cf9e476ae697a269d170da93663e0750e4c45253e64fbba9873686eint),
            zz: (0x61a210fa77086967d552a999fab817deaad6acffa5d017c19e3f5d5851a0a55int, 0x572b75587e2438ec4ddf286dce3ac19de8850466bd5271112cf7f95656953dbcint),
            c: (1, 0x3a69435dd2aaf490688478d392d3ab367d4c64ca7aa6862359eff2adad2a7b77int),
            dif: (-1, 0x4bee4489a901a5ade98fd127ea115d510c822787eb674570f65d0e61ce86d0a8int),
            xy: (0x331aff0dbfdd7039585ae3388cf690f06891720229845c8a94103e2011538d0int, 0x17925e97843af80fc096236a121322414b044a07d838c747c64e1b3420a884a8int),
            e: (0, 0x2f24bd2f0875f01f812c46d4242644829608940fb0718e8f8c9c366841510950int),
            g: (0, 0x2aa4a8949957f1531328ed6d1a9da09e258c446f080173bc732705d7ff6da183int),
            f: (-1, 0x64290c89f04a7a0addde4ca1916bcd6cfbfd83a78d594998193713295243260dint),
            x3: (0x28bb35c55c66fd3127d40a7d5caa0d8ab8288880ff84dc136fa31a4ca0fa6aa9int, 0x6869c9eef8ca8c2875d259622d0534e98baa5eaf300a0cb8716a085ac774ee67int),
            y3: (0x1bee313bde330d554cd544ce4c520082983229c056e5ba685c1756d59954398dint, 0x1ba74824b0004762d6d374b994d07d808b7a9ef271760b7db8287ffd0e6a346bint),
            t3: (0x1ee0c82c0d4f97ff12399f4f2380f8469ba07ad7792b18688de4228b1b1e5761int, 0x12297ef36b38f5dc44e042a9ec1f7888d3102ef286ca90f98f5aeb8bd980c51fint),
            z3: (0x24d7d4695cc43cb531cbfafe893ba70202cf9f3b0eee478fdad856caab7e960bint, 0x8167d73f2512db5c0ac12351e8048978955eded55c1fbadb589298ace550f9cint),
        },
    );
    lemma_chain_double(
        base(),
        ExtendedPoint { x: 0x6869c9eef8ca8c2875d259622d0534e98baa5eaf300a0cb8716a085ac774ee67int, y: 0x1ba74824b0004762d6d374b994d07d808b7a9ef271760b7db8287ffd0e6a346bint, t: 0x12297ef36b38f5dc44e042a9ec1f7888d3102ef286ca90f98f5aeb8bd980c51fint, z: 0x8167d73f2512db5c0ac12351e8048978955eded55c1fbadb589298ace550f9cint },
        0xe7db4ea6533b0,
        DoubleWitness {
            xx: (0x5e0abbd7e3b398094b9ed888c9ecffd7a379544dbc818880303886cbf1660c13int, 0x70d99b9adadc51544c3a5d397895959ea88652a8cef0c66344fe95c01bf5a15eint),
            a: (-1, 0x3140bb84ec12bf3e6ff7ace910c4266ab37515a310d959bbb016a3ee40a5ea3int),
            b: (0x698af8dbd3a78959c3068e3f9ec213c66711fbcd4ade97e68b8c04c836e6e63int, 0xcffef15058398028254c90723ec65b9cdde8fc2453a4eac2ae33d5fa3e93656int),
            zz: (0x907321800466de355a0c1845d8f9e9818105ef9f39d3909562cf5007280680int, 0x444c28d805ad0c34b89e1af8a5c50b844af9c11739d8e38f17bf04c26763a090int),
            c: (1, 0x14aaaa5ce1bc9b213e025de941e83f034235de2b73b36b1f2f7e0985cec7411fint),
            dif: (-1, 0x6a01c3f672db113997e489cf76c1b4b23116659aebd1a2ee901e2cde4021284eint),
            xy: (0x18e819c6c2b2de02ce0434b0ef7173dc6678521d8dba5b8a0530ecfe14f842bdint, 0x16108e911f9396b7e5b2fb2f7eb077c0810806f45593c842d636f47361fa4e50int),
            e: (0, 0x2c211d223f272d6fcb65f65efd60ef8102100de8ab279085ac6de8e6c3f49ca0int),
            g: (0, 0x1013facd5444c3f6695443d5b4f8a8207915e11c7647e447e5e4a79e87f394f9int),
            f: (-1, 0x6f56f7c39c25a61d5e8bbdf47cb241228a9da6f40292d527b6669e17b92c53dbint),
            x3: (0x2a61f50aa44052076d30fb63663ab5e2dbdbcccd0fd4c5e928276bb5a140fe5dint, 0x3309df405437bd7464a6a153b6e491ef837aad492ce2927b244ce733db48de83int),
            y3: (0xeb3b94bfc238b76b5323a0c3ba45500f551930d9775d1a2432be54eac202906int, 0x4fdf9e72802a48a7b50a28884cf642bdc5689f76fc9d4994b44082d5437722d8int),
            t3: (0x285a47474254175f135e5220ced388ad1ac83dcde3b16dc193ee93baa1b70293int, 0x8cdf05398d333c79ebb6b1380a83a91d6140fda2eea01ecce3130367be9b62dint),
            z3: (0xf7110261e21dc925e691ca442729eefeb40bbc74bcffcfaf18d3fd615af0d5dint, 0x421b60060e64d81a53c2820f6a02b43de5274d72b3b5abd3e9e0d1dbcca1ea6int),
        },
    );
}

/// The multiples of the base point, from the multiple by
/// 0x1cfb69d4ca6760
/// to the multiple by
/// 0x1cfb69d4ca675f52.
proof fn lemma_order_part_7()
    requires
        extended_valid(base()),
        extended_valid(ExtendedPoint { x: 0x3309df405437bd7464a6a153b6e491ef837aad492ce2927b244ce733db48de83int, y: 0x4fdf9e72802a48a7b50a28884cf642bdc5689f76fc9d4994b44082d5437722d8int, t: 0x8cdf05398d333c79ebb6b1380a83a91d6140fda2eea01ecce3130367be9b62dint, z: 0x421b60060e64d81a53c2820f6a02b43de5274d72b3b5abd3e9e0d1dbcca1ea6int }),
        same_point(ExtendedPoint { x: 0x3309df405437bd7464a6a153b6e491ef837aad492ce2927b244ce733db48de83int, y: 0x4fdf9e72802a48a7b50a28884cf642bdc5689f76fc9d4994b44082d5437722d8int, t: 0x8cdf05398d333c79ebb6b1380a83a91d6140fda2eea01ecce3130367be9b62dint, z: 0x421b60060e64d81a53c2820f6a02b43de5274d72b3b5abd3e9e0d1dbcca1ea6int }, times(base(), 0x1cfb69d4ca6760)),
    ensures
        extended_valid(ExtendedPoint { x: 0x504b59c19ee2865eebc2d6f88b52f658acf5cbafcaaa1aa0b4fefb34cd0eb6bdint, y: 0x613940784d20c3114c2b499cb4672b30e6a89e6de4d771b6d8047c87707a8ed4int, t: 0x1bdfa41cb46fab4fd485e7c44b9b8beb6ac8db36f158a76daf3817ceb015b9a9int, z: 0x47737b35ad681065c0e46e6ced13a969a341b3289d84152ba28b2bf7021fd450int }),
        same_point(ExtendedPoint { x: 0x504b59c19ee2865eebc2d6f88b52f658acf5cbafcaaa1aa0b4fefb34cd0eb6bdint, y: 0x613940784d20c3114c2b499cb4672b30e6a89e6de4d771b6d8047c87707a8ed4int, t: 0x1bdfa41cb46fab4fd485e7c44b9b8beb6ac8db36f158a76daf3817ceb015b9a9int, z: 0x47737b35ad681065c0e46e6ced13a969a341b3289d84152ba28b2bf7021fd450int }, times(base(), 0x1cfb69d4ca675f52)),
{
    lemma_negative_base();
    lemma_chain_subtract(
        base(),
        negative_base(),
        ExtendedPoint { x: 0x3309df405437bd7464a6a153b6e491ef837aad492ce2927b244ce733db48de83int, y: 0x4fdf9e72802a48a7b50a28884cf642bdc5689f76fc9d4994b44082d5437722d8int, t: 0x8cdf05398d333c79ebb6b1380a83a91d6140fda2eea01ecce3130367be9b62dint, z: 0x421b60060e64d81a53c2820f6a02b43de5274d72b3b5abd3e9e0d1dbcca1ea6int },
        0x1cfb69d4ca6760,
        SumWitness {
            a: (0x2f026af8974a353b9f46afe1df289fc25de0563ce35e0253fdbbea3ee83c1ed3int, 0x613043a362fa50d9001ab135ce12c3ccbd08db3b830e68a56df4097b1062637int),
            b: (0x3c60205a5cf124c58beeaf33be07c012989ce86a5a5253847f70a5e989c32ef1int, 0x733651beb7a561d17bd77bec76dd5ce2f0321f5a25793100d0337971b866118fint),
            dt: (0x33bc1e641a62156f5803f98a5e9a3deeaae0d2bc7fc7f71d062ce767319a2e4int, 0x6bc237ffcdb3a56ef89aceb66977e77b222cdae042f2ab443513e27c72c03839int),
            c: (0x66ceb3503e7eeabb5454605254679c2f6e80ec6f321500c54a684d8638665e9eint, 0x516750bfbd36571a7f338a33e0471c24a19edc98b91880acaeb2ffa54879be6aint),
            zz: (0, 0x421b60060e64d81a53c2820f6a02b43de5274d72b3b5abd3e9e0d1dbcca1ea6int),
            h: (1, 0x55baea5c4378996d89f4ef7ca1cb11a6845090addabbb8c2712ba0a696c37c5int),
            s0: (1, 0xefbd65faac488d3e676f1d3fa38fca7f525a8bd29818010d88d6a0a1ec0015aint),
            s1: (1, 0x4e7a2cab4d8fef627fa28fd19ba7c19a97abbf79df4db594e896ec1ba05d0dddint),
            ss: (0xa24a7cf290c0e2133534c0ebb394ad6f966c4f0d353754acaea3d31a5db7d90int, 0x697a226e1fa1d187a095738064360c4eccedc7e405b4efd36e8897c163a93f22int),
            e: (0, 0x641e73c85b6a47f0c7f624889a195b3464a8bed9280934474775ddb6fa3d075dint),
            f: (-1, 0x26a80c93cd4d73af594275f51ffae72490713c417221360f8feb0d777450603dint),
            g: (0, 0x558906c01e1ca49c246fb254d6e747687ff1516fe453db69ed510cc30543dd10int),
            x3: (0x216281479a349500fb9820d05d5f04bf6eb20a1193c2b71069fc4bad83c9d051int, 0x21ccb6169f396e808f8150fbc09d21344b9ef355eb266a5ba7b6f6b77093d0d8int),
            y3: (0x3f4110c00c1da50a6f20f3152774c1086cb934238dfadc56b7c234393d1a714int, 0x24c53dae93b782cb870b742e6f7b472368b4121629785f240f458cf1e0a5e63cint),
            t3: (0x4a09f86f561bf05e477a3c0c670949bdb6cc9ce8c84f483ef177174cae2d4f5int, 0x5ecb35869c15ecf0ee030cd159fc5a12bede1291ed17c3ff8f3bc67822e4d09cint),
            z3: (0x1c8596f3f6ca8fb3bc273e29790e74fcc51157bb7601ce283342545d0e4557faint, 0x22cb8434b79aa0e2d45a5feac227bb348a4925cb4eb6d22ae9e627defacc54d6int),
        },
    );
    lemma_chain_double(
        base(),
        ExtendedPoint { x: 0x21ccb6169f396e808f8150fbc09d21344b9ef355eb266a5ba7b6f6b77093d0d8int, y: 0x24c53dae93b782cb870b742e6f7b472368b4121629785f240f458cf1e0a5e63cint, t: 0x5ecb35869c15ecf0ee030cd159fc5a12bede1291ed17c3ff8f3bc67822e4d09cint, z: 0x22cb8434b79aa0e2d45a5feac227bb348a4925cb4eb6d22ae9e627defacc54d6int },
        0x1cfb69d4ca675f,
        DoubleWitness {
            xx: (0x9dac0f71514e3cc61496d1e0e3be783aa8ba88c364fad67128e6abbcc58d79bint, 0x69f1deda3217e2deca40ce332c723b577880cd117bf536f4b71fcdc5b616dea5int),
            a: (-1, 0x9fbc878f7859a6968f909d4dd2f9caddb3cd6f18409250a48e0323949e9215cint),
            b: (0xba9b7cff44b58cfd5b2d655616bb876bbea5c63021eff32fa356377183936e0int, 0x4a3eb4edaaa5e997acb05ae5a41bdcfec1766927ee7060ab73abaecc802ea730int),
            zz: (0xa718589b7bcd2dde39df4d73678e651d39b69081f7ed74c250d5b8f01ddf3c1int, 0x6f419a151ef84ba1b35ef30a5bd106cf480e1b60494056740b48a823474f2f23int),
            c: (1, 0x6a958cd7145319fb33840e0cae0035993c5e92bd928250e9169150478e9e5e45int),
            dif: (-1, 0x33aabade767d2e19ef8286f742b597b46d8411cc9597205dd534836bc9ba7a2dint),
            xy: (0xab87db88f5a35087da1451895d43ede7a31d8460d1831d17e6178a5b50c2b54int, 0x707a5dea61bd989e0dbe38eda3ac87fdf9bc491cdb8bd4d53187f62c1672d74cint),
            e: (1, 0x6d07148199ddb3f3e84299d33db737f69fbaee36b7194dab630fec592ce5ae97int),
            g: (0, 0x543a7d66a22b840115a964ba814b79ac9cb34019727985b5bc8be105ca17c88cint),
            f: (-1, 0x5d9297e2b775e74e155f2eb5dced1c18b412515edff590cba5fa90bd3b796a48int),
            x3: (0x5800afe6aea400679b78fc73314416c1cdfff55f331ad9f7f4a84e44e13b0c72int, 0x6dd96c78ddfc13b445b3a1bdff9806b31a6c4f8f7ee3c09ecea621202c079406int),
            y3: (0x2589f731cac8f3c9c99c4540a1c04c58f3bc72a3071cd5dd89e5842b3c1c28ccint, 0xefcdb4d725a0481b62187232701b94ccce8d7b0e536aa9865ebed36415ccfd0int),
            t3: (0x309767644b89ac351288aefcd94e479e9e2e787e776b1820e88ad230f8713305int, 0x71f3f48787f25f57e8697a17e1d379ce7aeab240046ee09433639ef8c9d87386int),
            z3: (0x43fc5d1645715070dc97168bf4989cd7e235f0ff48850fcaebd1f7577532e502int, 0x19bccf7c6b4babf5f69d7d54b00111c2fe8c44331184242ad64a6ccb48b37a5eint),
        },
    );
    lemma_chain_double(
        base(),
        ExtendedPoint { x: 0x6dd96c78ddfc13b445b3a1bdff9806b31a6c4f8f7ee3c09ecea621202c079406int, y: 0xefcdb4d725a0481b62187232701b94ccce8d7b0e536aa9865ebed36415ccfd0int, t: 0x71f3f48787f25f57e8697a17e1d379ce7aeab240046ee09433639ef8c9d87386int, z: 0x19bccf7c6b4babf5f69d7d54b00111c2fe8c44331184242ad64a6ccb48b37a5eint },
        0x39f6d3a994cebe,
        DoubleWitness {
            xx: (0x6816cc8e556fd8c92f9731bc67021a063fd8ff9252e309a178081a4256da2494int, 0x618df33c5b6646ad81a1ffc73c0d0b9267bf49ce42e8580f7c3b32ed2710cb90int),
            a: (-1, 0x125fb416ce37369ab197d840cd94cc72ebfe5a34bd1603ef83c4cd11d8ef3471int),
            b: (0x1f00bab41c51c9a582fdebd97bc8346c23e8f176082c51b6593b7a7e5537b28int, 0x3e881c4f7af401c42bb6300351c311aae709cf39bb65d199a43ed26dc0de8dd8int),
            zz: (0x5b6cc62cc834773af7794036dc880cc6869ed1b18ad0ec2240a9a4ebb99bd25int, 0x59306265cc12869dec9d25263d8a6464b931dfc6f4d4d2a54e6ff6937e57fd5fint),
            c: (1, 0x3e731d786e878ff3a60072447172f0c41ea61b8ae9ab494b9cdfed27fcaffabdint),
            dif: (-1, 0x47c53f1a7ce0b21eb91b8045857392cd58b22efe01ae8e54df85faa31810a69aint),
            xy: (0xe33a91389dfd9fbc38f6b7118e2f2366fa75f0488cdea6260783ff2e0226295int, 0x7094ef89a35d5740de039dd7d82657b868b8d18308d95da5b5096f2bedebc4bint),
            e: (0, 0xe129df1346baae81bc073bafb04caf70d171a30611b2bb4b6a12de57dbd7896int),
            g: (0, 0x50e7d066492b385edd4e08441f57de1dd308296e787bd58928039f7f99cdc249int),
            f: (0, 0x1274b2eddaa3a86b374d95ffade4ed59b4620de38ed08c3d8b23b2579d1dc78cint),
            x3: (0x23d89e31be7e9175a6f944e6c29ada3f29665fc79606e2ead79b27649a4231fint, 0x4c833a557a40861c4692a508e3539779c8759948ef92d241fd7a74c69b468e9int),
            y3: (0x32168d6293b5ab1f5b70f5f64575b549b82663a242cec97eb77d650c42a7530eint, 0x5007380580a49d3bc989f9cc08447da834b3d9e32f1daec749d4840dabaae2dcint),
            t3: (0x8b65b73cd9fefd62bdc8048421ba02cc3dfda1ea9320c05f1ba2eb1a9592254int, 0x6b0ae69c2066acd8f7415853ccb24b29c75720933a848f1ee1cd41e07032abe8int),
            z3: (0xce15511e74094cb2544eaceb689ce350f5afca8dc6528f7fd0e3c92eae60b71int, 0x6d694f20461bee657b838c8b96def633447949b8a5cc8db57c959e79eaebf37bint),
        },
    );
    lemma_chain_add(
        base(),
        ExtendedPoint { x: 0x4c833a557a40861c4692a508e3539779c8759948ef92d241fd7a74c69b468e9int, y: 0x5007380580a49d3bc989f9cc08447da834b3d9e32f1daec749d4840dabaae2dcint, t: 0x6b0ae69c2066acd8f7415853ccb24b29c75720933a848f1ee1cd41e07032abe8int, z: 0x6d694f20461bee657b838c8b96def633447949b8a5cc8db57c959e79eaebf37bint },
        0x73eda753299d7c,
        SumWitness {
            a: (0x60a44643bacd6ae9251aecc8551adc311007b7baad816c7c6f9b12179183f5int, 0x4ffbab25e38e4d168119b732acaf8fe74e874f9e538152d17a351c9a07f97e96int),
            b: (0x3c7e0f3b5ed97b8e44efd03ba299a5acad829223343fe464d21ff1f044b4e0e2int, 0x29bdb72fa677f3bc2da6e82acb15e48495f059b209d071da4d6964be49b3345eint),
            dt: (0x274fb2283d31c7fd637a7d010da1719ec7786387962d952063ac85685299bef0int, 0x72918fd442d9543927a53ebb990714a17d4fadfa28374c914ac412d061314c78int),
            c: (0x5439edf2e7f643eb693d069c36b3f6eb76106835e4f9551b88e21dbf155dee7int, 0x10c885fa6386689702eed848c39e2ed30d847016e23790994d8b60c6136d13d1int),
            zz: (0, 0x6d694f20461bee657b838c8b96def633447949b8a5cc8db57c959e79eaebf37bint),
            h: (1, 0x5cbbb026068c38a7b86c7556e239c6690ba054d5d5368acc79e815951acb2f3int),
            s0: (0, 0x54cf6baad848a59d8df3241c9679b71fd13b3377be16dbeb69ac2b5a155f4bc5int),
            s1: (0, 0x60c7d6918e437d8827d3dfcfe8923870431f0f21be6a05e37815793fb5885c83int),
            ss: (0x46cd605bb163d78a64a7ea9a41cb606f78c17a7bdccee6bb47d9ea3cce6550c5int, 0x6210864f8bd3397f8dc94bbbccf20b2da14d50b9c5473e1f0e9e72fcea41410aint),
            e: (0, 0x5c44cb4d2b6a75f5124284665ece6ec710934b6c67f3d57246fff1a398948e17int),
            f: (0, 0x5ca0c925e29585ce7894b442d340c76036f4d9a1c394fd1c2f0a3db3d77edfaaint),
            g: (1, 0xa442dc78004d9b44b388ccc50db4d00fe4015cc8805c24fca20ff40fe59074bint),
            x3: (0x49b949186ea6b472d5e2017011443d0058a1ed7282cc5abd66083f79d21745feint, 0x15a319bbb8b6f46c21d006ddf24ebd96782008bca0cb8486b4cdb09928a71e48int),
            y3: (0x83653d3153ea047f4b39ff8b3b27771c720109808cf2a671d209679d0ef131int, 0x648d701325e3e88f7b84fa0a34e18235c4f966a39e30a2ee2119c68759e92100int),
            t3: (0x49ceb28a51de7746f6c9c2505109fe993b9d283880dd83afed04557dec76262int, 0x465a92ba73ca395a266d681ebe8d9d8405fe7cdc7b5e3f1bd28fbd2eff7b7b73int),
            z3: (0x833f1edd22bce5ab2ba6e3eb60d8a2f721e1769bca666c9dae1ff5173e38339int, 0x130811745671d94298068bef5f653d985555514412f5867ee5c99002947fa995int),
        },
    );
    lemma_chain_double(
        base(),
        ExtendedPoint { x: 0x15a319bbb8b6f46c21d006ddf24ebd96782008bca0cb8486b4cdb09928a71e48int, y: 0x648d701325e3e88f7b84fa0a34e18235c4f966a39e30a2ee2119c68759e92100int, t: 0x465a92ba73ca395a266d681ebe8d9d8405fe7cdc7b5e3f1bd28fbd2eff7b7b73int, z: 0x130811745671d94298068bef5f653d985555514412f5867ee5c99002947fa995int },
        0x73eda753299d7d,
        DoubleWitness {
            xx: (0x409d45bd6eb31296a93bb795e24706d0bf149a1ca28e867b9dd95a3536fb4bfint, 0x1b2ae506f1ce567bbeace130b592adb5bdadbf922454c31dc0bbf7bab2153f81int),
            a: (-1, 0x58c2c24c37cf26cc748cf6d7540f2a4f960fe470dba998e13f4408444deac080int),
            b: (0x57374a97b5876ca8faea0ec85a7a1352116ea5c0c3cfca37319bc0296d41eedaint, 0x2ef27e0b019b30e36dc71ad5ae922d5b0de702b7e7bc397b4026e9efa8ff1126int),
            zz: (0x31fd43a1fa258d0bb7a1e84bd63a60e17790974658af13886110b3582ab01abint, 0x4e9b488dae1a1628a03b59e9ca399a4a4a8a6e0ca30f0f47217e188777810f0eint),
            c: (1, 0x2948e9c83296af090d3cdbcb8ad15c8f41573816461fc28f42fc310fef021e1bint),
            dif: (0, 0x29d044413633f5e906c5dc01a57cfcf48828e1b8f3ed5f65ff1d1e54a4ebaf5aint),
            xy: (0x12c46fd2d63bfb11a3aa3d8aa5712991ed544964be49a4b7ebf10ffbc9a68dfbint, 0x512f7fc691088e46bfe8a02fd4bafda414318bf1fe1204874a95fdd658c8ba05int),
            e: (1, 0x2e715839f8739f454c9768579fd42342d4a573e0fc25ad0f952bfbadb1917409int),
            g: (1, 0x13c799040fccda67af1a39a4f8ff7fa550394325c367765d7f6af234f6e9d1a5int),
            f: (-1, 0x5e6c568f06d3a8a6d51735e177cffb1b629faf127d460fcd3c6ec12407e7b38bint),
            x3: (0x25d3d3aba0733768dec1662c3fc650a938d25fb9ae3498ca5780a2ac20d772afint, 0x30193c45f94f20d4ab4b44d996980b0edc13aedbeccf7118fb96392af063d934int),
            y3: (0x7225c5668357a119def767e69d81ed4333356d19ce1b104807af20f38965968int, 0x6a4c2eab8ab24a4bfae36729392e1824ba42e11a2dd5bb7b6a0e55d69264259aint),
            t3: (0x10c04d157e300a86b99e29b2f83f06f3caadbaf6bf32950c915f2cbbbbb4fcd4int, 0x37d5894de227d1d7dcd96fdf5022bc5b33273a2b5c590dfb6663575a6802f556int),
            z3: (0x101c480cd416ca723213cbb7d008da0bf203673929db8c96b250369bd1994c68int, 0x379006f447452e02630fcba894737aa7289eb812021b90bdd715b31f6bd4e72fint),
        },
    );
    lemma_chain_double(
        base(),
        ExtendedPoint { x: 0x30193c45f94f20d4ab4b44d996980b0edc13aedbeccf7118fb96392af063d934int, y: 0x6a4c2eab8ab24a4bfae36729392e1824ba42e11a2dd5bb7b6a0e55d69264259aint, t: 0x37d5894de227d1d7dcd96fdf5022bc5b33273a2b5c590dfb6663575a6802f556int, z: 0x379006f447452e02630fcba894737aa7289eb812021b90bdd715b31f6bd4e72fint },
        0xe7db4ea6533afa,
        DoubleWitness {
            xx: (0x13f4c077a1450fe38a74fa4211247173f373b43af618001cf4eae9749b6cb18aint, 0xadc05fadbedaedfc36b450449ef0b3a1e09bd2686904bd060a993589b148106int),
            a: (-1, 0x6911a1584dafce686fce9303bfb2cccb35b3e6dc796e102e9f566ca664eb7efbint),
            b: (0x617787b11232654d40bc8546660e93b89f4f7ef4466826e23b65affffa3a7f6cint, 0xf525483e473ecacc9a614222c80fea077ae9d4acb2f79acf7ca52f5139b6138int),
            zz: (0x1aa15992d2a532a322034d5528b4b52e7ec50ecf402065da3cca6721a6eab911int, 0x4f687efc78abe4b99811d943db12fa2ed658545e9f2d1ba4501db3a259b32190int),
            c: (1, 0x2ae356a5c7ba4c2afce9da7fac841c5858f304ba3e5bdb49a03b6745b366431fint),
            dif: (0, 0x59bf4cd4693be1bba6287ee19331ce2abe054991ae3e9681a78c19b151501dc3int),
            xy: (0x2c1a50352b69b5b7a4d0e54b52126d2386a5d551958a53f629be51915049091eint, 0x2780f21330258b77f54babd9853f229488ea2b4f92ab87d8a78fe783a7c242aint),
            e: (0, 0x4f01e426604b16efea9757b30a7e452911d4569f25570fb14f1fcf074f84854int),
            g: (1, 0x4764e8908863dcd063acf1de291f36659a4e024449f2ddc9720bf9c7886e032int),
            f: (-1, 0x4d809f366a696eea3c8acca63fafaf13546f7f6d0641ae91f6e55855c5209d14int),
            x3: (0x34d1c3dcf7742d45e1c4627ecbff6ab709b11d70803b886a3df8e7c9866eba9int, 0x68deb3ead84cc504d0d985cbe9683c9e456ad1098844963342112a477dda3ee7int),
            y3: (0x374547e80b3302c0aeff8cb709dcee3a9ddae7ed769979d0aafeec86a0b8f96int, 0x20d4e479382b821857db0dd24fec6bdc56cd20cb9b136fed50888a4c8db6e080int),
            t3: (0x3d2a1bc78226fe1c6bfa954b69524abe05bfacf309993ff6a74a7412a1ecae3int, 0x436111e983ef88d958215881b2e11c10e4fa4e0c4275de63b6765e983d71d119int),
            z3: (0x2fbacc14b8e584fd7478c0a003ad63a04e4d321aa98a74d9f8251910e54b355int, 0x6edacd1f80ccab652535193ecd278a7c41eb054face493d9a9c6cbe493f37a93int),
        },
    );
    lemma_chain_add(
        base(),
        ExtendedPoint { x: 0x68deb3ead84cc504d0d985cbe9683c9e456ad1098844963342112a477dda3ee7int, y: 0x20d4e479382b821857db0dd24fec6bdc56cd20cb9b136fed50888a4c8db6e080int, t: 0x436111e983ef88d958215881b2e11c10e4fa4e0c4275de63b6765e983d71d119int, z: 0x6edacd1f80ccab652535193ecd278a7c41eb054face493d9a9c6cbe493f37a93int },
        0x1cfb69d4ca675f4,
        SumWitness {
            a: (0x8475961f40e1e6cc2d7e9ba35d99524c427c3361008618ca197ccaadea1f072int, 0x20af6f8acd50763e3495d858d62586acd1ff5343091c6993b4ba4c47f09c2573int),
            b: (0x18d12a080b1d922d90dfd4190c1861fcb92aacc5926b1f274546a87feb756a6cint, 0x7239191b2ff84bcdd864dc65bd79a7e6e39fdb7e5fb0640ec378eeee2c8f2d94int),
            dt: (0x18beb56fa7e44154cb462a60c6e7c1bd42f7f584509a205a2a095fdbde789101int, 0x5cd40dd5ac093843a1c65a18c1d051793b1fb4d42a6d34059acc29188cf10f48int),
            c: (0x443e639c97c0f6c5d3a3fd9c9d79e3001d9c9b2f0b47120318e9cf1461e730dint, 0x73e32cd5f05f20e6894d9a9891e1389029e8e5ddbe8dfa81aa2bab3382b867fbint),
            zz: (0, 0x6edacd1f80ccab652535193ecd278a7c41eb054face493d9a9c6cbe493f37a93int),
            h: (1, 0x1efae152d3ab44c3d9c0dcb689fd568e61e18abe68ce71a378333b371d2b5306int),
            s0: (1, 0x15c5f110e6dac9d4f57abb962fb2d075487a4dd22359aa219299b4950b911f66int),
            s1: (0, 0x60c7d6918e437d8827d3dfcfe8923870431f0f21be6a05e37815793fb5885c83int),
            ss: (0x122d4d3d771c9ecd8c1a001add556cf1d07fc079c86c68b6c633c342ec0bcc2fint, 0x4f143e1d235b1c0572bb3e9ce0e0a3c8f7fc991be6aea3248bacb1bef2afed03int),
            e: (0, 0x30195cca4fafd74198fa61e656e34d3a961b0e5d7de0318113797687d58499fdint),
            f: (-1, 0x6ee5479cba0b07c6cf2156ae44e829f16bbfc374ee54f556ff9b20b0113b1299int),
            g: (1, 0x6ed052a2478e4f037b48dbcf5566eb071816472a6b74325c53f2771916abe28dint),
            x3: (0x2e02cfc6be2f176e01a3bf964958bd3268ef7225e417592139282767d8f27c87int, 0x618ba3ee0bf4297c14ffc870ea7412279618237cff02aeebc1cc3b0a607055aeint),
            y3: (0x1d9cfb7c40a879a92cc2446f957dfe658d53dbce7debc0f5c5aa7ae614d9d6e4int, 0x6a32621d77f01c22efad6cffa2c39a5f4a8682f0284a4142727ebbc234502f6aint),
            t3: (0xcda8ccac5c42a0fb1ac99160ee046d8a2205ca5cd0d332c496ccdfe94dcead6int, 0x90edd3d5bc1c2df7a9ffc765abfa9aa0a73a441b940d7e822193552f0aab818int),
            z3: (0x6a00ca37e36c84ca0481b48d156e6a3bcbd53f6b99bdcb5156947953bae397fcint, 0x22e99a35a52236804bba5353b1199c78aec9fe5ca718c10d6abe14d77b43b849int),
        },
    );
    lemma_chain_double(
        base(),
        ExtendedPoint { x: 0x618ba3ee0bf4297c14ffc870ea7412279618237cff02aeebc1cc3b0a607055aeint, y: 0x6a32621d77f01c22efad6cffa2c39a5f4a8682f0284a4142727ebbc234502f6aint, t: 0x90edd3d5bc1c2df7a9ffc765abfa9aa0a73a441b940d7e822193552f0aab818int, z: 0x22e99a35a52236804bba5353b1199c78aec9fe5ca718c10d6abe14d77b43b849int },
        0x1cfb69d4ca675f5,
        DoubleWitness {
            xx: (0x5213dd2fb4f93c5f97940c6332bbb238e512bec9f92fec2ac9e4ac8223e4ef05int, 0x5bd169d72863a18dd213e24320fdb91c939e50d315bc95e8b7e999a87108133fint),
            a: (-1, 0x181c3d7c0139dbba6125f5c4e8a41ee8c01f532fea41c616481666568ef7ecc2int),
            b: (0x61483dab882c476d0c2585869f240c821abdbe7f48bc9bf843811d686393d79dint, 0x5bfca0a263dfe6c4f89f30b7ceb6003194f88bff7a42689eade81f3d57744047int),
            zz: (0xa839cbd17dd661a8485fd8d973bf31da90d969928311f1bc002d3290ae1215bint, 0x32688c58d3b1b7851d7c13d213c33d9ca9dac531cd7c5897271f65d015fde376int),
            c: (0, 0x64d118b1a7636f0a3af827a427867b3953b58a639af8b12e4e3ecba02bfbc6ecint),
            dif: (-1, 0x300d442cc6f7723d9bc09d15238ff6bc7ee46b336ffdb9769a2e47183783ac7cint),
            xy: (0x595b69becca64e55f7ed8fd31a30509070e0f0ec1c2eb97cc08f0a064381f436int, 0x424c8af01056fe1538cc40adcda20344b49997d5cfc4b35f9a8a408e691c77d6int),
            e: (1, 0x10ab6e8cf7107ee23e5ea95391a22e8415758ba89f8b0ac03514811dd238efabint),
            g: (1, 0x2b36cb3b7c4537268b4e74adb84715015a3b2c6485d2b5f5fe8594e66c2d08int),
            f: (-1, 0xf47c56cbdb653751eccfed88fd3a3e1016254cbc98b7d86a7bfb9f3ba70661dint),
            x3: (0x2327c010ef6c64807e4b4415fe0dfcbcb92c8d697229a3555d4da04802c5a4eint, 0x1f399379622af429af63c88613dba28fc9d517590f8c89608fb86bc91894ee11int),
            y3: (0x11e97ba04aeb6863561a92210e77e1ba4ad96835ec0e2a338216964b3e4ccfint, 0xf18d011f82cf8d9da4f41beb3686c8f8449b0b599c9a8ab1b898cf0c280e311int),
            t3: (0x6e8d544d77bff9734122368bcd359f28100304b1afa5b77c5ae436a99a8abecint, 0x356223ecb6268ede129e66fa9246a6e33aed7e4456be2031399eafd9dc734ee8int),
            z3: (0x5b22bfcd0f863effa7d96d622c7185d0cdb45f05d8f373eb0237d620933faint, 0x1de8e2420ce0c3b2d033f1c0f515f9a592e0777b48943869c12874cd55a915eeint),
        },
    );
    lemma_chain_double(
        base(),
        ExtendedPoint { x: 0x1f399379622af429af63c88613dba28fc9d517590f8c89608fb86bc91894ee11int, y: 0xf18d011f82cf8d9da4f41beb3686c8f8449b0b599c9a8ab1b898cf0c280e311int, t: 0x356223ecb6268ede129e66fa9246a6e33aed7e4456be2031399eafd9dc734ee8int, z: 0x1de8e2420ce0c3b2d033f1c0f515f9a592e0777b48943869c12874cd55a915eeint },
        0x39f6d3a994cebea,
        DoubleWitness {
            xx: (0x8690af4dfc021799cb26901d9f1704a749dfebe24a2730fd677e732b51d033fint, 0x1f60e1fb355ed8e6b78712036744168b5dadb3eeff4a02b330516c059bee99e2int),
            a: (-1, 0x548cc557f43ea4617bb2c604a25dc179f60ff01400b4594bcfae93f96411661fint),
            b: (0x1f74ced4c2154034a8bcfb9de737c472ab78fd8bf2a7241151d085a34496c8bint, 0x18e300aba6020c447caf30a2b857e522bae2152d5874c5cfb2a551a6a1dba96int),
            zz: (0x7b77d1c8300d500f6097a4739a2079ba909efc238e96f0e9b51257e18821342int, 0x6cfcb0be30eaca95022e35dab2c0729db21d2e31ac9ca128bce7752de99ad602int),
            c: (1, 0x660bba29383817e1d12293ad5bdf0d36107cb860593ae65279ceea5cd335ac03int),
            dif: (0, 0x52fe954d39de839d33e7d2fa76d84327ca61cec12b2d0ceed4843edef9f3ab89int),
            xy: (0x410f96c3336221a4f3a609aebc7e76fb227186475c3490eb3fdd8a51724e334int, 0x6f2c071ae9243bb1e017ba9a44ebfbec59dcf4a015942fab6f1026858457feedint),
            e: (1, 0x6a6a66e2a8aafa1b8cf59d2c80361fd35ffc453d2b2a0357de204d0c08affdd9int),
            g: (0, 0x561af562ae9ec525c37db90ecde33fcc21be1166d63ba5a8cad8e913ce2f20b5int),
            f: (-1, 0x63fce28ca0042a8c2594fd697ba60a9b64fefd097cff1b555109feb5faf974b3int),
            x3: (0x5bc87ce347671a95a651ea694ec2c4d35b757ec0f67073b6cc67c682bf32e4d6int, 0x29e65c2b49e378cc0f2ba5ff9918ef2fb7194ff062b0a310ef678b2de4f2ede5int),
            y3: (0x3da4d090f3d36a8477043af03518035dde2d80ce3ace52f6d8032cf2c360b56fint, 0x6df16a3e5a612c898024de32a5ce8852d96442e80604bf9cd6993f51277fb26eint),
            t3: (0x4c2f285f55e52cfbeda2676d1593b618d8448021e492f2087049eea9beb1ec10int, 0x11c9ccd56a806943d7cdbd0864da29bb74365627889b06ef58045fc87c07e011int),
            z3: (0x4a43fbe361c7cec5e3188dfcb81ff5901b0b3a17999ae3d48f640f043980aa4bint, 0x32289eb287e1af2e7ed86254e8c00fb5fe0f136fd7a8e0b0ca24d54dde523844int),
        },
    );
    lemma_chain_double(
        base(),
        ExtendedPoint { x: 0x29e65c2b49e378cc0f2ba5ff9918ef2fb7194ff062b0a310ef678b2de4f2ede5int, y: 0x6df16a3e5a612c898024de32a5ce8852d96442e80604bf9cd6993f51277fb26eint, t: 0x11c9ccd56a806943d7cdbd0864da29bb74365627889b06ef58045fc87c07e011int, z: 0x32289eb287e1af2e7ed86254e8c00fb5fe0f136fd7a8e0b0ca24d54dde523844int },
        0x73eda753299d7d4,
        DoubleWitness {
            xx: (0xf24d0df4a0c85d71b9fc3535667cd9adf44bf28b87ad9220c3d9e32a59be70fint, 0x52641ece518e05782add39e851aa6b2f693054824b95546b62437a4e469e7caint),
            a: (-1, 0x6ec7656644849cf0b08c0469848731525d2a9ebadb4506b849dbc85a1b961837int),
            b: (0x684448f138aff56a7da21be477df51c845b4456286bac24ae8dab9b944817145int, 0x16fc7bc9fda9d7d82a95fd1b58de337a4e7bd062dc7bf6e169dbed37c4ffb5ffint),
            zz: (0x15b3bf19955c349e9ef05d24e70a002aa126d88623c8c2f56732fe6aa24c901eint, 0x10aa991e5c0c8dc5827406c711667801d0a97236b96754a2ae63469965a141f2int),
            c: (0, 0x2155323cb8191b8b04e80d8e22ccf003a152e46d72cea9455cc68d32cb4283e4int),
            dif: (0, 0x57cae99c46dac51885f6074e2ba8fdd80eaece57fec90fd6dfffdb2256966238int),
            xy: (0x27bc90976620c03cb902f50d003d1d621ff7b150f894ecb41722a11d80ebeb33int, 0x70a2e6f13c20afaf375c4069521df55755f68dfd006fbd6225f83835b07a8733int),
            e: (1, 0x6d58268f4ea3e2163b7ea8ca9a9a12a9582f77f700e11ec54bf0706c60f50e65int),
            g: (1, 0x11d639dd1890f780a7e8297cd3c38cc757e8cb1ab7c2a19ab3b7b592e095ce35int),
            f: (-1, 0x646eaef38a15593dd639f3f6ba9874c90a538ab044f2545456f1285f15534a52int),
            x3: (0x5eba7aaeb7b0f8936913273aeacb35f37c2ed83659591d32901a9b7182451153int, 0x1468868c0486c80293e996c37efc7bcbb9b65a8e34a614efdd0a75bc5621bd07int),
            y3: (0xd8201c3868c92213bcde8257f4911f5f5d601878ba9fd27bc8b93e78055d9edint, 0x701631b1f44f29f80e78b0503ef725724479a270bfcd4ebcb015dd369a6d8babint),
            t3: (0x52ce7acc6b1ee3aa46cb33901d9a6f7896181539f5df41427376214ede4699d1int, 0x1ebd0b1eff474d384ee5f8eafee78eb13ed5a910f4e089262ffd002b84053647int),
            z3: (0xf73dd71f49020523f1cfbe528a2e1bd1bdf59db389c9ea6f3e66d2c6212bd8fint, 0x148037ccb6356cf28f36c63796d7bfeed5b7415f987e1c53b240d6810fb3a16bint),
        },
    );
    lemma_chain_add(
        base(),
        ExtendedPoint { x: 0x1468868c0486c80293e996c37efc7bcbb9b65a8e34a614efdd0a75bc5621bd07int, y: 0x701631b1f44f29f80e78b0503ef725724479a270bfcd4ebcb015dd369a6d8babint, t: 0x1ebd0b1eff474d384ee5f8eafee78eb13ed5a910f4e089262ffd002b84053647int, z: 0x148037ccb6356cf28f36c63796d7bfeed5b7415f987e1c53b240d6810fb3a16bint },
        0xe7db4ea6533afa8,
        SumWitness {
            a: (0x19c7010ba137677b5ee3fe2278e2f2fcea40ec7b9e5b30c1aef38593d9efae7int, 0x33e77b58539fa35f5cae5570b8b404f0ae45f4be3129f67ad403f5d0fcb3df5eint),
            b: (0x54b99ecbd2da95ef8eca0017e3eba6394861e6167186db4eb59523ed96510443int, 0x518dde1b8598864fffa75302ce3e8973a345b7c4806a21f47728789e679f12cdint),
            dt: (0xb49e68fe55007bc69aaf9464750d0903c4c1deae7aac6e7473184bfdd2ae296int, 0x227aac460edb8e197be2592fe58461f4b3e29bddbc0d0a3b4b4deaae0e00d681int),
            c: (0x195905001f5d25116244589443cd6cd20cdde4100ca4b2ae8a3df86bd26c80bint, 0x44438db8bb8a2ffd3503c0ea3d42284101f12959549d84d65480329b5564852eint),
            zz: (0, 0x148037ccb6356cf28f36c63796d7bfeed5b7415f987e1c53b240d6810fb3a16bint),
            h: (1, 0x1187b220af9aac67291bd06b7d50b65efdce087fb195bc704b2c6e706452f22aint),
            s0: (1, 0x109110eacf3874b26f286f0bb451c938aa7258fbf47507ad8d2052f3f08f48b1int),
            s1: (0, 0x60c7d6918e437d8827d3dfcfe8923870431f0f21be6a05e37815793fb5885c83int),
            ss: (0xdd49345dc031bf96bfac5c72df431fc862fe4f8e25241b3f879c2ccd8bc93f2int, 0x1426249d79bdcb5e6e7d12b19fbcddcaf18bc9b5fcefc3e71b6d957f81bd3aa1int),
            e: (0, 0x29e727cca231ef745614246226c276bf3bdc1364b5a0776d041270f1d6a4877int),
            f: (-1, 0x442a51672448ba3d8d6cdd5563376fb32783bc0943def37c5dc0a3e4ba4f1c3eint),
            g: (0, 0x58c3c58571bf9cefc43a8721d419e82fd7a86ab8ed1ba12a06c1091c65182699int),
            x3: (0x18a3841626f373ec42559c5be35d0cc3535e37f47576303366143a230ab763cint, 0x5b7438d86f5b504150bec56b14b3e9c898001dec04a952c3066ceae961b81a96int),
            y3: (0xd6c2ac19c5b98761ad1c208f7622aeb6b3cffea715233a40b4856d5b884a9ebint, 0x68542c12db8f6564cb056ed586a7ebea69b54a43080ff80a568d1b0ed2f04d2fint),
            t3: (0x6561a5d885d6032dfdd631895e535c8872ac1c1b834825c921dd6e8fb59e78int, 0x31ac0d1c69d12d57b96fc7918e874ffa29f21f0c1a07a50ccd9c39bc6e58c30eint),
            z3: (0x343177fc1c67172eaffdabae95ab502af0114de0a5746014c82d2edfe3ed4db5int, 0x8d3b71f74c5bac1309ff78a1c155346e8fe96328c17be823e8bf8874f5bc759int),
        },
    );
    lemma_chain_double(
        base(),
        ExtendedPoint { x: 0x5b7438d86f5b504150bec56b14b3e9c898001dec04a952c3066ceae961b81a96int, y: 0x68542c12db8f6564cb056ed586a7ebea69b54a43080ff80a568d1b0ed2f04d2fint, t: 0x31ac0d1c69d12d57b96fc7918e874ffa29f21f0c1a07a50ccd9c39bc6e58c30eint, z: 0x8d3b71f74c5bac1309ff78a1c155346e8fe96328c17be823e8bf8874f5bc759int },
        0xe7db4ea6533afa9,
        DoubleWitness {
            xx: (0x482586319d1776e77be78940729adcb6e412332eb6abdaf7fdc2fcf8f08a1d30int, 0xaf181634e38e5730dc0dccd081ac99a53e069cb661f27b2005ec5cef5d8b2b4int),
            a: (-1, 0x68fc25efdb6497d52578fb3b01870e6affdd3a3799df344cffa13a300a274d4dint),
            b: (0x5de3cf813ecf3fe996e478517517d0117b9294563e1b02917f3701c0935e5726int, 0x43c0078f9b6e0a56a6335a7d28947652142145b56e31b7ec1e4cd0bb5806f77bint),
            zz: (0xac0f27be7bf336774491b0e2198ed8bc3ef5c925d68e4088c5fd64a6b4d706int, 0x218c79133fcdb30514e62d3ec9888a51ba5285b8182dc40e52374f6f9bcca5ebint),
            c: (0, 0x4318f2267f9b660a29cc5a7d931114a374a50b70305b881ca46e9edf37994bd6int),
            dif: (0, 0x253c1e603ff68d7e7f45a0bdd8f29818ebbbf4822bad7c60e1546974b22055d2int),
            xy: (0x524da563b40fb4477cbfa9a0f7ce8df595cdb168c467736dafd5f468ad2fb733int, 0x6d4b41d01f0812e192b5a36afff3ff4d40ffaa3c461a98fd6672fea39c3c4857int),
            e: (1, 0x66a8dc4d1472a87af2316ecdf64626952e41b0758c36d5fbcce5fd48387890adint),
            g: (1, 0x38ce862c4d3524e398727db02079acb7c040dbea0812903a1dee0aec622e44c7int),
            f: (-1, 0x69a33b58f7373c21a1dffb3a970a70199f59747cd7b5641c797f6c0c2a94f8f2int),
            x3: (0x5d8bf6fe0c4848fe7b3deed5d7c6e1659c6e42219aaf43a88565401e6715a4cdint, 0x504b59c19ee2865eebc2d6f88b52f658acf5cbafcaaa1aa0b4fefb34cd0eb6bdint),
            y3: (0x123ee3ecf5f59f7f3a453d331da0cb843588f4c1e8055a77d55a202b6d2fef6aint, 0x613940784d20c3114c2b499cb4672b30e6a89e6de4d771b6d8047c87707a8ed4int),
            t3: (0x20f91ba9ecb08f7a352ac5d199ed0d63f5b36adb5be7703f3d0c747f0a7a6541int, 0x1bdfa41cb46fab4fd485e7c44b9b8beb6ac8db36f158a76daf3817ceb015b9a9int),
            z3: (0x33c39d8949570ca951c88ab2e1bd8df7258d28098b329179b206a5c50949f7ceint, 0x47737b35ad681065c0e46e6ced13a969a341b3289d84152ba28b2bf7021fd450int),
        },
    );
}

/// The multiples of the base point, from the multiple by
/// 0x1cfb69d4ca675f52
/// to the multiple by
/// 0x39f6d3a994cebea41a.
proof fn lemma_order_part_8()
    requires
        extended_valid(base()),
        extended_valid(ExtendedPoint { x: 0x504b59c19ee2865eebc2d6f88b52f658acf5cbafcaaa1aa0b4fefb34cd0eb6bdint, y: 0x613940784d20c3114c2b499cb4672b30e6a89e6de4d771b6d8047c87707a8ed4int, t: 0x1bdfa41cb46fab4fd485e7c44b9b8beb6ac8db36f158a76daf3817ceb015b9a9int, z: 0x47737b35ad681065c0e46e6ced13a969a341b3289d84152ba28b2bf7021fd450int }),
        same_point(ExtendedPoint { x: 0x504b59c19ee2865eebc2d6f88b52f658acf5cbafcaaa1aa0b4fefb34cd0eb6bdint, y: 0x613940784d20c3114c2b499cb4672b30e6a89e6de4d771b6d8047c87707a8ed4int, t: 0x1bdfa41cb46fab4fd485e7c44b9b8beb6ac8db36f158a76daf3817ceb015b9a9int, z: 0x47737b35ad681065c0e46e6ced13a969a341b3289d84152ba28b2bf7021fd450int }, times(base(), 0x1cfb69d4ca675f52)),
    ensures
        extended_valid(ExtendedPoint { x: 0x435573064bb5e5a6817fb6277c7f11717ea8fe936a38207335c61827eae28e61int, y: 0x1cc64b21741245cd975fc15b8f299508ef25e5dd2d00136534acd04610f9b026int, t: 0xd08152ffc21592df4bbaac4e4d91adaa2943dc38b8ba0a39f82e7455f0979aint, z: 0x278eaacd093bcdd9ac0c5e702a5a05d1843ba5242ef0ed0531720c78da861a51int }),
        same_point(ExtendedPoint { x: 0x435573064bb5e5a6817fb6277c7f11717ea8fe936a38207335c61827eae28e61int, y: 0x1cc64b21741245cd975fc15b8f299508ef25e5dd2d00136534acd04610f9b026int, t: 0xd08152ffc21592df4bbaac4e4d91adaa2943dc38b8ba0a39f82e7455f0979aint, z: 0x278eaacd093bcdd9ac0c5e702a5a05d1843ba5242ef0ed0531720c78da861a51int }, times(base(), 0x39f6d3a994cebea41anat)),
{
    lemma_negative_base();
    lemma_chain_double(
        base(),
        ExtendedPoint { x: 0x504b59c19ee2865eebc2d6f88b52f658acf5cbafcaaa1aa0b4fefb34cd0eb6bdint, y: 0x613940784d20c3114c2b499cb4672b30e6a89e6de4d771b6d8047c87707a8ed4int, t: 0x1bdfa41cb46fab4fd485e7c44b9b8beb6ac8db36f158a76daf3817ceb015b9a9int, z: 0x47737b35ad681065c0e46e6ced13a969a341b3289d84152ba28b2bf7021fd450int },
        0x1cfb69d4ca675f52,
        DoubleWitness {
            xx: (0x379d0e873f9b1ec01826d7c90bb442974711314c81a2ffc2585726fec19a9333int, 0x11adaf84e02aaccd82ba697f814f4b54fb42f4b12bf965da9ce0d87f6f82b456int),
            a: (-1, 0x623ff7ce4972d07ab07f6e8888528cb0587aaf51d404f624631f277f907d4babint),
            b: (0x518971cdc33f6b82a786ebd81573bf284b1eefca60568563ad279a0db604a052int, 0x6efacde90f53c914c40ee63763fc122b652e0636f0ec4be4cc8881823bbb3f3eint),
            zz: (0x2c09be9f4f26ec313d0fcbcfa8ea7a34f6131b69f7067546af540b8b41c3f9f1int, 0x276e9f57da7220608d4b2bd90d5477ce9bdbba58e6a0e7672c13040c19b09f0fint),
            c: (0, 0x4edd3eafb4e440c11a9657b21aa8ef9d37b774b1cd41cece5826081833613e1eint),
            dif: (-1, 0x6732d13863bc84ae1faa60592df8528a470a4d1de317063e9696a5fc54c20c6eint),
            xy: (0x4356ce3459793b4e07410e8734a0d7a61455c98081bddd35e842dce5faa32166int, 0x1aee9c487b1c86edd58065e7a1a7688d097b3b4fb5327befcbf9a898c4fb091eint),
            e: (0, 0x35dd3890f6390ddbab00cbcf434ed11a12f6769f6a64f7df97f3513189f6123cint),
            g: (1, 0x5d4d1e642f291c4741547cb7e2acc6d669eb1185c4f2e60a2fa7a902cc388ae8int),
            f: (0, 0xe6fdfb47a44db8626be2505c803d73932339cd3f7b1173bd781a0ea98d74ccaint),
            x3: (0x6b539b4ff939799fe4b09802cff2d258020894a316bebe42c4ac2a7be05e948int, 0x127043b64479e38d5670a4f24c39fd16372184a82ab2e0c9c8e710011bf24a10int),
            y3: (0x530e58fba1359ceaf321d04335ccf05b794b2593dbff4344f9cbfdc11871f83aint, 0x287fdcc37f10a55df75ec7ee5d3bfd669ae0c324801158ec40de500cb22c9776int),
            t3: (0x2ff30ec1c6d42125debfe2b9817c714848c9d716baa80e34a9d38cef52192696int, 0xe2b3812981f7c95afa6db822529989aabdb4cce330069a06292b8ecfff57f32int),
            z3: (0xb9e81c48f4d36897811a9f3360476f6f1108d04f15f16003bb4c152d16c26edint, 0x187002bfdb45978015aaf69265b7eb9fa533539133263f686a32a47685465423int),
        },
    );
    lemma_chain_double(
        base(),
        ExtendedPoint { x: 0x127043b64479e38d5670a4f24c39fd16372184a82ab2e0c9c8e710011bf24a10int, y: 0x287fdcc37f10a55df75ec7ee5d3bfd669ae0c324801158ec40de500cb22c9776int, t: 0xe2b3812981f7c95afa6db822529989aabdb4cce330069a06292b8ecfff57f32int, z: 0x187002bfdb45978015aaf69265b7eb9fa533539133263f686a32a47685465423int },
        0x39f6d3a994cebea4,
        DoubleWitness {
            xx: (0x2eec36ffdb149d52a80a38aff03f09bb4ff1fc4adf68dca22f9888d6c02d0e6int, 0x35bd0ef062106484c769c58957e921b2380a2f8740be9743761cdd680faa701aint),
            a: (-1, 0x3e309862c78d18c36bd0127eb1b8b6531bb3747bbf3fc4bb89e32296f0558fe7int),
            b: (0xe2600ef92fc76749474ed38d837df468f52d76b3b8140c279807dfb27294146int, 0x536990c6ee0eef31591535eae11cbaba1565314ea466f91d6d2ac0bf5b03291eint),
            zz: (0x526c24879f04661ffa851edb8e5aed1b2682da3fc7f042fbad67a1bf1cb30adint, 0x28cb0f46cff00fe69b555e343431213284954b7aad426fd04ea545938affcc1cint),
            c: (0, 0x51961e8d9fe01fcd36aabc6868624265092a96f55a84dfa09d4a8b2715ff9838int),
            dif: (-1, 0x5eb4aeef031ba6da45f4b49bda3dd39e5a0be7301ad7279d1cb861d6955266caint),
            xy: (0x6710530fa8f7e566cda764ad6627df71d1129ea8b63f8785cb7dba2b9a58569int, 0x28bca88a7032286785ba0d98aa4e834c0ba22de4faed2e1707df6fa8ec780df7int),
            e: (0, 0x51795114e06450cf0b741b31549d069817445bc9f5da5c2e0fbedf51d8f01beeint),
            g: (1, 0x1dac81d68bfe8aac91ab706189339907dd5b01c763a861d9f70de3574b58b904int),
            f: (-1, 0x40040a9c15bbe8278e3a8c012a732ea827ee0ed50921de3859c3582f355920cdint),
            x3: (0x2cfd706f01ddf109e60fd3b545ad5de89236100542765bbb085a2816440c5c00int, 0x3803265bb219eb86914f00bbe3ec9cfdcf1cedc7c6871411aacc55867375c196int),
            y3: (0x183dd841e4f34984f7d63afd1c8b8c39f39e784a109ec5c560ead76968c59554int, 0xd8df6b648a65346c5332f158573870e491d14751036cb24275adc43fc3bffd4int),
            t3: (0x428f0ceed503b4035dcff8cfe9b0cc0e4a81b81095e106e38d40c650d7c5c075int, 0x2d7917723b78ac67f019237058bb2d26c8e2f320c6f6f1d55df39147790d1d57int),
            z3: (0x1062cd421b4ecc3a765ea34c05f0be39febe97616e4abcb99328ea12b60403aaint, 0x2ea6c331b669ab007ac04ccf39826e34017fd3a7fa464097846f7cbdd8ca48aint),
        },
    );
    lemma_chain_double(
        base(),
        ExtendedPoint { x: 0x3803265bb219eb86914f00bbe3ec9cfdcf1cedc7c6871411aacc55867375c196int, y: 0xd8df6b648a65346c5332f158573870e491d14751036cb24275adc43fc3bffd4int, t: 0x2d7917723b78ac67f019237058bb2d26c8e2f320c6f6f1d55df39147790d1d57int, z: 0x2ea6c331b669ab007ac04ccf39826e34017fd3a7fa464097846f7cbdd8ca48aint },
        0x73eda753299d7d48,
        DoubleWitness {
            xx: (0x1b10263f02009b603ff25d1c86363aff21fbdf463c525da518dd7cf03c9373c1int, 0x50bea59721ca6a94bc0671aaabfce6c412fe22dcef51550928ad3df00cec1023int),
            a: (-1, 0x232f01bc07d312b37733665d5da4f14140bf812610ad06f5d752c20ef313efdeint),
            b: (0x195b6dbcfd0a76e5551dad6d7e97599f1cba46c1db9fed28cfed8aa1cb80155int, 0x189ad9e0b00026729421834863c1b5417c9e47c448630884286b9f5c2ea8063bint),
            zz: (0x12c5f568fa1755658dc78f3a34ebf32669f3a4a95d7a0454bf684d8fa9d156int, 0x36b2f207d9def135f9bdc7fa65e0fb8bcb17a9c09ac8445d18adc93f1507490eint),
            c: (0, 0x6d65e40fb3bde26bf37b8ff4cbc1f717962f5381359088ba315b927e2a0e921cint),
            dif: (0, 0xa9427db57d2ec40e311e314f9e33bffc4213961c849fe71aee722b2c46be9a3int),
            xy: (0x68c8f09e874d88d1df62ec245d431ee318df40e3a572befbde44cc487836875int, 0x38627ef0c7add3931a91dda43e82ef903ef58fe84808d6ba2695f4ffa76751c3int),
            e: (0, 0x70c4fde18f5ba7263523bb487d05df207deb1fd09011ad744d2be9ff4ecea386int),
            g: (0, 0x3bc9db9cb7d339260b54e9a5c166a682bd5dc8ea59100f79ffbe616b21bbf619int),
            f: (-1, 0x42519ee02db2d4024b1331b8ff4687707aec196c237de2bece62ceebf7ad63feint),
            x3: (0x408302ed7c2f48eabfa763f8f11c9fe59241ae918556c62b24a5b665aa197528int, 0xe052abde177015b38345810a908dbd37e55ca5b8a32f8fd95a736f93bb79bccint),
            y3: (0x574b20e1532316b75d7e3d5daf8229390ee89e6053d126f416cf97981016050int, 0x3d61cf4a9c46461a85a58827fa41b44716eeeb731d7eaad69401611e0d1c129bint),
            t3: (0xa4a5d0737115116ad88f6ce23254a608d2e7f4677be19b88a15c1bf41ad7b36int, 0x705f5850bc91d5b1fd5d3fb4031d9b865f72c68b9a3434c5f7e2ba7cefbb991cint),
            z3: (0x2233fbcc21c2677f9afa12b6cd081175808f4add86ee79c1e95044605672172dint, 0x826b54ebabbf0216083a5527a5184f81accd9a1aa3f476b89ca168e401cc0a1int),
        },
    );
    lemma_chain_double(
        base(),
        ExtendedPoint { x: 0xe052abde177015b38345810a908dbd37e55ca5b8a32f8fd95a736f93bb79bccint, y: 0x3d61cf4a9c46461a85a58827fa41b44716eeeb731d7eaad69401611e0d1c129bint, t: 0x705f5850bc91d5b1fd5d3fb4031d9b865f72c68b9a3434c5f7e2ba7cefbb991cint, z: 0x826b54ebabbf0216083a5527a5184f81accd9a1aa3f476b89ca168e401cc0a1int },
        0xe7db4ea6533afa90nat,
        DoubleWitness {
            xx: (0x1b21167d2e1fa1e7d99a95a2ac97dea83bb547371cbc662f6ce6c8772630420int, 0x41d4bda457a889b228f3d92cd51ffda4259d2404e11d183be691dff0b215a670int),
            a: (-1, 0x3218e9aed1f4f3960a45fedb3481da612e207ffe1ee143c3196e200e4dea5991int),
            b: (0x2080317f8942607b771708051d959ab86431228bfbf584b10962dbc4bbe6e084int, 0x90b9ea6c8a01880df993dc3af1229a4bbb73db3da2217ed6913b40b155b4955int),
            zz: (0x92b8b74d0238c3fd25e94c2531df789d9d19e7211515ca3737866100960f70int, 0x2d7e78ecc4e345718650ceeb13924fd9a9e9618e51454a393a824b363393d5d1int),
            c: (0, 0x5afcf1d989c68ae30ca19dd627249fb353d2c31ca28a94727504966c6727aba2int),
            dif: (0, 0x290d4b080954db152aacc117856fb0bc7269424a44bf2bd5b05a6c03388f103cint),
            xy: (0x76c6709528e1831bd99cc792eef5e1721d73a52b954e803256a239753c98c37int, 0x1144dd07f56ceb739cee292381df5502fe684bf99ee36d16551ea0a023a6204dint),
            e: (0, 0x2289ba0fead9d6e739dc524703beaa05fcd097f33dc6da2caa3d4140474c409aint),
            g: (0, 0x3b2488559a950c16e9df3c9ee3940405e9d7bdb1f9035bb08281d4196345a2e6int),
            f: (-1, 0x54153dcf3a6bfe7c107776d0c6113c57e9c29e985677233d0d7d3dabfc1df745int),
            x3: (0x190cea890f2569e68451264afa70072b091a08150b273ea989906cb4d31f5a0aint, 0x56e7a231728766057e09fe2dd4960ce219315745900d74ae1903848be034a578int),
            y3: (0x14f17c27e274cc727cf83d6d304e3f28c5b5c8436b2626de97195346d4cc0107int, 0xac290342d38db9d0e0731b95a19c3ecf22c2f39582c9fe5e8ad9a22182e8ce1int),
            t3: (0xc3afc3f573dc16e87a055014becc0ed9f24dfbf4a5343f46a746f37565bd06eint, 0x38f2e4306f6f8de700a26fea8db2629d2bdbcd40d8eddc79c020ec43e992f3aaint),
            z3: (0x2ae572c3e029d952ea6cb163191d5b65f9110aed167e223b3d5af57f998e9673int, 0x46ffa1d4cc282e421214d53bf4a516337c3a29b14e8fae64f111b37334703b8bint),
        },
    );
    lemma_chain_add(
        base(),
        ExtendedPoint { x: 0x56e7a231728766057e09fe2dd4960ce219315745900d74ae1903848be034a578int, y: 0xac290342d38db9d0e0731b95a19c3ecf22c2f39582c9fe5e8ad9a22182e8ce1int, t: 0x38f2e4306f6f8de700a26fea8db2629d2bdbcd40d8eddc79c020ec43e992f3aaint, z: 0x46ffa1d4cc282e421214d53bf4a516337c3a29b14e8fae64f111b37334703b8bint },
        0x1cfb69d4ca675f520nat,
        SumWitness {
            a: (0x6dc495bfdbac6fac93a92d7407c355d998e05db3cf403295cee593194a29b79int, 0x6cacd0c006937df0520da2b2457e2fe82f7b664bc9b33c063b48366e7338526fint),
            b: (0x82224c171834268802d34f112d08236c9b404734a7e286023981d9412f6411bint, 0x1104c32aca9ba61534a223736c30216251b1dc90add6a57098be109ff6113e15int),
            dt: (0x14ea16688783f5983a9a3219aba6c0802a078ddf654a3b0bf0e47843d62ad812int, 0x198e9cbbd5afcaab1df22ec865bfa88a6814c45b942d4444a18e3cf9d9facc78int),
            c: (0x12c9de68688d2ebcf990a8b4a8b640211f45e9e07c627aae55e7f46b6b933adint, 0xb7d594d75655616bcb3a3060a9a2a5b3b8964f1261922dd16845a6256a73f0bint),
            zz: (0, 0x46ffa1d4cc282e421214d53bf4a516337c3a29b14e8fae64f111b37334703b8bint),
            h: (1, 0x9c3ec97a791a6bd5375ee1da80c79452d6f9ed9778b8577d406470f69499083int),
            s0: (0, 0x61aa32659fc041a28c112fe72eafd0cf0b5d867ee83a149401b11eadf8633259int),
            s1: (0, 0x60c7d6918e437d8827d3dfcfe8923870431f0f21be6a05e37815793fb5885c83int),
            ss: (0x51889eb11e6a44924d4a33ef0e0ab5e17f5f253f9fbf8de42e4354f4b5df7c15int, 0x6af3cfd80e0dd59a0b8e1fb99ff677d954b823b37e7c992635d1eb9cb7434376int),
            e: (0, 0x612fe340667c2edcb818319bf7e9fe94274884da06f113ae61cba48d4df9b2f3int),
            f: (0, 0x3b82488756c2d82b55613235ea0aebd840b0c4c028768b87da8d5910ddc8fc80int),
            g: (0, 0x527cfb22418d8458cec87841ff3f408eb7c38ea274a8d14207960dd58b177a96int),
            x3: (0x31e378478e28aa79677aed26984ea633d51a9d28ae5df33db63beeeaa191757dint, 0x6d775d4f9743fc16a03d20763088216bab35312206c685c5fe810ababc473803int),
            y3: (0x6f2cee1baa21409b430400c79690b189c009efe11eb734c2a97ef59ba6f6744int, 0x16cca129fcdf16e00bc7f8d809ec4dfcfe864cd5f6e08b8223dbe31224eb37eint),
            t3: (0x82fc7ae8429bc7055d0c51f2363af3baa77bbc55c34711e5240e7359654ca1fint, 0x5f956c52b247c3bcb31d2da5711b38b74a0f357120b18decfd141aeb7765783aint),
            z3: (0x2a57e022bb8fea44a4b185ba09779bdecead28b36b623eb0f4dbecb2c61dadc3int, 0x11a711dc45272191b6c1f131fe50327e5b9b43d724882b8c95829f4c257b453dint),
        },
    );
    lemma_chain_double(
        base(),
        ExtendedPoint { x: 0x6d775d4f9743fc16a03d20763088216bab35312206c685c5fe810ababc473803int, y: 0x16cca129fcdf16e00bc7f8d809ec4dfcfe864cd5f6e08b8223dbe31224eb37eint, t: 0x5f956c52b247c3bcb31d2da5711b38b74a0f357120b18decfd141aeb7765783aint, z: 0x11a711dc45272191b6c1f131fe50327e5b9b43d724882b8c95829f4c257b453dint },
        0x1cfb69d4ca675f521nat,
        DoubleWitness {
            xx: (0x675d49e2aaccbe2fa71626dad8dfdf5e0dd11f43740abe40f9a5f030b6878415int, 0x26dec774d0b06c4b3b829aae015cac22ef47f35a7d8aae7ad63de254cf63cbf4int),
            a: (-1, 0x4d0edfde58ed10fcf7b73d5a08452be26475b0a88273ad8429c21daa309c340dint),
            b: (0x47be01148f760156cfd1bec00aee1ba8345551e2c7c521bf28eb190a7daf7int, 0x7884d0c3a435cd78270805faf7ad3dc03ad04f2302148006fea0a60c5f9970dint),
            zz: (0x2b0207c0976c04106fd9a65d735635bf1856d4b34b3da1b3530f1e295d61570int, 0x5947986fc9f1a56ceeebd0ea1fbb258dd698f513c27c62f01b48e324a781db19int),
            c: (1, 0x3ea1898c6a45cd91aa9dc9cc35d473165974462484fa69e13691c64a4f03b631int),
            dif: (0, 0x458692d21ea9b4257546bcfa58ca580660c8abb652526583b9d813496aa29d00int),
            xy: (0x158748dfbdebdd30282ad1806ac027ba1bcbca3b49bf5fe04a395e3b0a8cda1int, 0x5e75dcd446759b2a4b4fc19f949dd2bfa6bc74c6b8d0dab7dfdad7023d78dcd9int),
            e: (1, 0x48fe1255634db90c6365ab371f99cd79f9bb458a71a35970bfb5ae057af1b9b1int),
            g: (0, 0x54972cea93306dd47a27bdb9b7bfffbe6822b59ab294f58499ac280af695cb1aint),
            f: (0, 0x15f5a35e28eaa042cf89f3ed81eb8ca80eae6f762d9a8ba3631a61c0a79214e9int),
            x3: (0xdd393a6e07acdffd2191fbff973bbffe5b09bdcac7e0a6b875f04ca077c05f6int, 0x3e63fce405ac15acd42965c702a059e1ef69d0f7dfad8ed11c05f5821ef9d023int),
            y3: (0x32bb4115242155c86252d69e68032e65e785bb878f94905d68fffe052342bdb2int, 0x4d05393df091c678f3b7ff8fe7e3cb1e07cc05e414a1c702c695623404c0344eint),
            t3: (0x2bc6981a58f32cfa695af7d616dea06714c26c4278d3a2a7eb916ca0537d3756int, 0x23d203381d346d6674aa4ae086139a4f369291911171174fce13216fb76655aaint),
            z3: (0x1005fe7e9cc1353b8b9c66e2c13eeeca83360390e58c94aa3b0e930ff29ad100int, 0x5e773226891e356b4a8b09f8b5ee648d302fd25cdab02b5c666b1199fa6d11aaint),
        },
    );
    lemma_chain_double(
        base(),
        ExtendedPoint { x: 0x3e63fce405ac15acd42965c702a059e1ef69d0f7dfad8ed11c05f5821ef9d023int, y: 0x4d05393df091c678f3b7ff8fe7e3cb1e07cc05e414a1c702c695623404c0344eint, t: 0x23d203381d346d6674aa4ae086139a4f369291911171174fce13216fb76655aaint, z: 0x5e773226891e356b4a8b09f8b5ee648d302fd25cdab02b5c666b1199fa6d11aaint },
        0x39f6d3a994cebea42nat,
        DoubleWitness {
            xx: (0x2193d7554be85fabe99fa5a3739bb331751720e88c4e185fc2f2c33c73fb21f9int, 0x4d4d1e588d68a51d3f88e4307b32f9cfc8eb1f86a7c52ab31c4040d74d53c2d0int),
            a: (-1, 0x26a088fa9c34d82af3b0f3d78e6ede358ad2847c5839314be3bfbf27b2ac3d31int),
            b: (0x332bb7ec4233a9cd330d1f482d18897524e3e449cbcd71b3831ebfecd166b54aint, 0x10547b0c6561dfa6fa9bded07b3be9feb8e15929d6263795ef4b7efe1e49127aint),
            zz: (0x4cf9f86cdc44b73de8d3334fd75016ac214c7d6c4af01730af846af388e90af7int, 0x6b0d8d14f8cfad7532e8363197b896536160c64a230a7a09dd31862f8b12f9edint),
            c: (1, 0x622d72d6c801dda23296945b25cf54a16f03e89146169814ba630c601625f3d9int),
            dif: (0, 0x164c0dee36d2f883f91515071332f436d1f12b528212f9b5f474402994632ab7int),
            xy: (0x297375f26de7995262b28b93c2ad0c8864580fa41d71c9423d7e8c763b88b87eint, 0x5c9bb6b1d4553f7edaade5765ecdc0c4b635f4d406120f590a9737b0991bce2cint),
            e: (1, 0x4549c6107f0d01b58221f2e4b3f9a98418ae45a50c25c2b3152e6f6232379c57int),
            g: (0, 0x36f504070196b7d1ee4cd2a809aac83443b3dda62e5f68e1d30b3e25d0f54fabint),
            f: (-1, 0x48b5388363325777eef01654ed7d4b98286d9917e8472ccc18a831c4bacf5bd3int),
            x3: (0x2b74c559e409dc88dac85386f5759bdabdce42765b4898063a32242e850a71f4int, 0x51eacc46eec59281f60240436c192b90e0801462b1c514fd83315fb943b756c1int),
            y3: (0xa91f72c4afe2047e9d03e04d63979eb69a9b1bf4562e79d753707934eb96ec1int, 0x52998a558b42233ecf4daf7c8c6cfc21beda9afd3b99e45554dc2bcdfad5927cint),
            t3: (0xd5398b05967acd126d27dac6bc02b8244fd373d3ac9421b45cb429e0d185157int, 0x466a09568b62a02343621014e52b2fa411b8d7b58720f4b2173025fab9f3b6daint),
            z3: (0x2277ccef69079beb497faa1a907a43676bfd73dfa47dcad896133e6138de4c6dint, 0x6f4d01d567edfe5dfe6eeb92c446af7da60caa52b234f0058ed5a4a7dde92684int),
        },
    );
    lemma_chain_subtract(
        base(),
        negative_base(),
        ExtendedPoint { x: 0x51eacc46eec59281f60240436c192b90e0801462b1c514fd83315fb943b756c1int, y: 0x52998a558b42233ecf4daf7c8c6cfc21beda9afd3b99e45554dc2bcdfad5927cint, t: 0x466a09568b62a02343621014e52b2fa411b8d7b58720f4b2173025fab9f3b6daint, z: 0x6f4d01d567edfe5dfe6eeb92c446af7da60caa52b234f0058ed5a4a7dde92684int },
        0x73eda753299d7d484nat,
        SumWitness {
            a: (0x4b734ee2ee716bea293f0df737adcd671abeefc18a8d8dc438910b35c73743d6int, 0x46a4cdeb3b3ebee95e337cfdf327f9832daa57c8ae81d1d1aeb8a2fe6220b58int),
            b: (0x3e6fad68e1899c033a5389b03ae0132a819cf5e10dbc2467f31c19fbe807bbf0int, 0xca3af86f6e16adca7880eea1c62a9e008b643257ffc732690da1e2f1cd6750int),
            dt: (0x19dc0c9418d77a477ea2ed1558efc360f362a15c69d86edcbd0c553dae9af8f4int, 0x726740cd7979fa8122a8f178aec56d9548ce89c4693365fdf71cdfb149773fc6int),
            c: (0x6d259396f1b2bee9826f1291c5ea98cf433e46ca723ae930f9d1eff72dc0397cint, 0x2722137ddc834202f9fcca20b919234e7c1bf70a6990eca0aedfa2d7ad40b434int),
            zz: (0, 0x6f4d01d567edfe5dfe6eeb92c446af7da60caa52b234f0058ed5a4a7dde92684int),
            h: (0, 0x53487d72322029c605bb8be80f8aa36336609aee2e7e44f83f92c12d7ef72a8int),
            s0: (1, 0x3096af49506a3878921617b7eee44fad4b9d0b5ced609d53d80d8b883e8ce93cint),
            s1: (1, 0x4e7a2cab4d8fef627fa28fd19ba7c19a97abbf79df4db594e896ec1ba05d0dddint),
            ss: (0x20e451f8ce7ad2a6f08a655736cd8776fa89bc8e3428f2eab1c94016cc46dfb5int, 0x2181eafb90d34d2680c62663529dbd4932d9c17ba9cd1603aee3b3b396028517int),
            e: (0, 0x1c4d63246db14a8a206a6da4d1a51312ff73b7ccc6e531b42aea87a0be13126fint),
            f: (0, 0x482aee578b6abc5b047221720b2d8c2f29f0b34848a40364dff601d030a87250int),
            g: (1, 0x22816e001ad3c318c531ddab73bdfac6ce6afd5a1bc780a73db547808b29dab7int),
            x3: (0x119e65e4bb956b39af7e68d3a9331d07ea58f5b392857a44a4113f956699e90fint, 0x6a73d0066eb1899372026407c9872788e7f2144d3b71c837ab945982666947a1int),
            y3: (0x18c9f47058ba0c671afc38f7063f2c2d48bceaaef428f9183c8b37f69da84d1int, 0xe2b6ae25509e93b39ada62453e8053456ea88b1791af543049e3466edb8147int),
            t3: (0x14551a0d101cc132aa3cd5b4eaba327f732755572787b08e2f5a5327f266643int, 0x69141e835f3604ea9c0698931f96cb13768d63c60213b7d734ac2f492a342095int),
            z3: (0x157afc6ff6e4b3f54935d478404d7ef66725901d5b7681b5d37b3174ecdc6092int, 0x33ce5c3be171ddb2e089ab157f5a3a5538c276c338bc1fa3f3085d6b0bb5769eint),
        },
    );
    lemma_chain_double(
        base(),
        ExtendedPoint { x: 0x6a73d0066eb1899372026407c9872788e7f2144d3b71c837ab945982666947a1int, y: 0xe2b6ae25509e93b39ada62453e8053456ea88b1791af543049e3466edb8147int, t: 0x69141e835f3604ea9c0698931f96cb13768d63c60213b7d734ac2f492a342095int, z: 0x33ce5c3be171ddb2e089ab157f5a3a5538c276c338bc1fa3f3085d6b0bb5769eint },
        0x73eda753299d7d483nat,
        DoubleWitness {
            xx: (0x61c0424c6da74077f8f82180588700b57d85a79ddb39a5e8b49f7bde469e0926int, 0x444fb5f6d2ccaf2b5fa3eb913463812ab69e9cfa2d338b56d9d94f2bdb7eaa1bint),
            a: (-1, 0x2f9df15c56d0ce1cd395ec76d53e56da9d1f0708d2cad0a82626b0d3248155e6int),
            b: (0x1bb5e848b46a9ad28f76bb10ef7ea254223ffa3f4a81fedee346d6e7922e6int, 0x404c815529a556e9827c7200b37dc6ddb627566e5671756ff258ea9c06497ecbint),
            zz: (0x1726b02ffd3c0f948e80363ea2c717add8c14c8a3e3c4af5cccc3134d61d110cint, 0x65b36a382c4eefc9a40be9649cf69c8b137fb3a97986264b0999ecbdb044f878int),
            c: (1, 0x57792d1d2f00624b14ddfac1304b6110d341c34ff30df0971333d97c6089f0efint),
            dif: (-1, 0x633f175a56c8f47b8453527e2b6268023ab5549d7c57b73733cdc6361e37d71cint),
            xy: (0xd02e9e6d4a7e84fc304e3b83bdc4fdaec92a7afc70b3e071125297d9673196int, 0x488d44edca7214989541ff966840d77c7276fb61ac349f51525999a10f9ecd11int),
            e: (1, 0x1d2ce2886b46abe8f74a2724c6dfd6f3913052c0586ae2a3a4b333431f3d9a21int),
            g: (0, 0x6fea72b18076250656125e7788bc1db853465d77293c4618187f9b6f2acad4b1int),
            f: (0, 0x187145945175c2bb413463b65870bca780049a27362e5581054bc1f2ca40e3c2int),
            x3: (0x626bfa2b750eda11f6ca72671b34e00eaaca637f805da23f6efd36c6b05d68bint, 0x6e94556aa9aaea5dec3d54e82c0a9ab9b5867a2f883954d1b7df5fe673943977int),
            y3: (0x5fcfb2df1609068a30dbef7d9daa1880ecbc370fa981eeafb28a656578353468int, 0x2b8325e3dd1896e4539b104c951f70a183c733017d2e14538716e5f1fea1b5f4int),
            t3: (0x18fa201c8b3edd61046a9fc9f494e68ff1ab7816476c2a25433c2a7160025051int, 0x39d0f2e8f42cb3dfa295f6c5edb6fff09345ea15562188c9bd2317b5c243424bint),
            z3: (0x1798b1cdba414e24ff5afc5ed574f784fd62b1e2ab121272497ec390d1f701bbint, 0x4a4a3eb88a7a925718607fed6a2d16e31a61f6d27342fb7ff67fda354c971f67int),
        },
    );
    lemma_chain_double(
        base(),
        ExtendedPoint { x: 0x6e94556aa9aaea5dec3d54e82c0a9ab9b5867a2f883954d1b7df5fe673943977int, y: 0x2b8325e3dd1896e4539b104c951f70a183c733017d2e14538716e5f1fea1b5f4int, t: 0x39d0f2e8f42cb3dfa295f6c5edb6fff09345ea15562188c9bd2317b5c243424bint, z: 0x4a4a3eb88a7a925718607fed6a2d16e31a61f6d27342fb7ff67fda354c971f67int },
        0xe7db4ea6533afa906nat,
        DoubleWitness {
            xx: (0x697a319d39c4f1dc66d3d691196760f1a9a49f167dae1f3e053d0eaf64efb2e0int, 0x1d633b75e7f4b466eedfaef6bfe0df7a38622b7e3582e3f8430b978038e8271int),
            a: (-1, 0x7217739bcb1e3201c44bdd189da3ca0db037814b1ca62dbf7bcf4686fc717d90int),
            b: (0x1054f1c1435f18c8450c744dedbe0c2c36a7004d2c9770245cb8b215eb771218int, 0x6965c3b70b9233e4a5168c9eb9e7e41297eca6f010f2f842e5f2c8a0a2c3de78int),
            zz: (0x2f9b683052fee8936c13ac75409598ad855f5d0678c674de54f86328623f85eeint, 0x45bb1c8a5244d31a2f12ecf2de7d1abf54886bd030e04e3f5871a346d51c9583int),
            c: (1, 0x178891c17aec28ec2aec01ddb3585d795553339d61c2407fb0e3468eaa392b05int),
            dif: (0, 0x8b1afe4bf8bfe1d1f355079e3bbe5fb184ada5b0bb3357c95dc7de659ad9f18int),
            xy: (0x298130ba253207bb51a8d602869e368641fce6f76a0878d12c19d1633d7fc762int, 0x1e6880c6d1debabd79d5947ee68bea4902d4ec669960bf704ee29a9fee3f210aint),
            e: (0, 0x3cd1018da3bd757af3ab28fdcd17d49205a9d8cd32c17ee09dc5353fdc7e4214int),
            g: (1, 0x678f8fffad12e89e362891af4de9d61af46684382d9aca0361c20f289f355c07int),
            f: (0, 0x5006fe3e3226bfb20b3c8fd19a9178a19f13509acbd88983b0dec899f4fc3102int),
            x3: (0x29fb8d44d89226d180f7a7e8caff84011007e707d5958c6dce00c9903d072f0aint, 0x3fa4b4bc962b4b201a47852cad6ce8915814c473dd2d53962b348a65c24b291eint),
            y3: (0x7c43eaf1679420d4f3d127fa5c263625a3dcef434c5626caebcc22380e3fa45int, 0x61a837031b8d07a5597c7caec861c5f146a283712dd37a7922741c2a2fffff63int),
            t3: (0x48f9a86ad9319e178046fc0e4057e1c34c46d979386e7869724ae13c94465faint, 0x5a5798cb3abfa33780a184b233de43676ff2c609c1fd0e0bd5626818e92037e6int),
            z3: (0x477d62dae8d0c3bb27172fcf1028d83120965877a8b5278cc8728575ed5a26feint, 0x69b284fc4907f038a0c66063236875d8f4a2185a5a6909e625e992beca91e810int),
        },
    );
    lemma_chain_add(
        base(),
        ExtendedPoint { x: 0x3fa4b4bc962b4b201a47852cad6ce8915814c473dd2d53962b348a65c24b291eint, y: 0x61a837031b8d07a5597c7caec861c5f146a283712dd37a7922741c2a2fffff63int, t: 0x5a5798cb3abfa33780a184b233de43676ff2c609c1fd0e0bd5626818e92037e6int, z: 0x69b284fc4907f038a0c66063236875d8f4a2185a5a6909e625e992beca91e810int },
        0x1cfb69d4ca675f520cnat,
        SumWitness {
            a: (0x506305f612b6da950e93237884df6ecf37cbb02cea34fdcd5f54b5b282d6aecint, 0x1e6c026a71979abea4cdecef86f1a8ce0815b18f235c5c7c7cd80cc3f8797bceint),
            b: (0x49d161fa5f08d9d5436b8f676717630b1d0cd86fa62d947f721eeb3b287ff1d3int, 0x70fef858a3875e445747fe024dfd5765efe6b4b4ea1e2690b2f46def00a6efbdint),
            dt: (0x212d97f43e8bdf39adfa2c8209d976784de2652067dd2bf465bcecc2a15b9fd6int, 0x1fec41600bf0f74add1ff5f35368589f2a6494074e38dbf59ce0124bfa2cba30int),
            c: (0x1777eaef508ca931b3824b6fdee81bd51e54a2f1e3b660140c92312858ad1d5int, 0x6df27b9b8186d7bdb58bb6bf1e44dd123decbb48e82dd920277523d9ad699adbint),
            zz: (0, 0x69b284fc4907f038a0c66063236875d8f4a2185a5a6909e625e992beca91e810int),
            h: (1, 0x1b7d536feb817bbac8dc12e9cb4d282ea43ec2410d7c270e2fcc7ab3f9206b8aint),
            s0: (1, 0x2d5f446c881ad57d408a29d36c2cd67d4af9a3e20b0272104da8a690f24b2880int),
            s1: (0, 0x60c7d6918e437d8827d3dfcfe8923870431f0f21be6a05e37815793fb5885c83int),
            ss: (0x25e0ca4e1bba2bf08fb2576cc8f409608e26e91943b91f427bd2decca11b3b8eint, 0x4d2e39da54660df1033e832055cc716561965dc0addbb18cefe5031061e87df2int),
            e: (0, 0x31b0e66a68e492363a6270368a7f4936bd579b7fa05f8a7ec018885c68c81268int),
            f: (-1, 0x6fadb0b3f11e95c31e7481ac0ec570cc0a73011472398cc4fe746ee41d284d36int),
            g: (1, 0x63b75944a0f14aae23183f1a380b7ae5ded12fa0429887074d5eb69977fb82eaint),
            x3: (0x2fde8f686487bb43d5b4deb842436a7f28760d8845644716317bbabe381fb289int, 0x14ac65615c0d361d99d76ddd08f8cf9fdae6a54edc2e27db845ca4c5b7dd7767int),
            y3: (0x17a52ee31ba67831d7bcb44f9e354cb0efff5d188f19d0aabaab6a39bbfcca0cint, 0xd681ecfda6979f849c9782adb6b0a8c8575a13c5c7a1f116f4ca317088f9618int),
            t3: (0xbc872de55a34206e315b051292278081ba2ee2973688418e757572802a85f4eint, 0xfe407b9eb68cb648a2f04be5d0000bfd7dc620ab92923ba368b4b638de304c2int),
            z3: (0x600f88658a1101d3928fb598b2ce8cfd1bffb2bc7ffb80a8264c8335af8e068aint, 0x43f1414b514726e592d7149e57e2ccd39709dd0791f39fa3af0392533c6ff8d2int),
        },
    );
    lemma_chain_double(
        base(),
        ExtendedPoint { x: 0x14ac65615c0d361d99d76ddd08f8cf9fdae6a54edc2e27db845ca4c5b7dd7767int, y: 0xd681ecfda6979f849c9782adb6b0a8c8575a13c5c7a1f116f4ca317088f9618int, t: 0xfe407b9eb68cb648a2f04be5d0000bfd7dc620ab92923ba368b4b638de304c2int, z: 0x43f1414b514726e592d7149e57e2ccd39709dd0791f39fa3af0392533c6ff8d2int },
        0x1cfb69d4ca675f520dnat,
        DoubleWitness {
            xx: (0x3afca17ab72e78184b46aeb3081476bc05c0ef52b3349535fdfc15f47837bd4int, 0x66d8dd15cd7fa5c6c7a9a7d4f393fbac2ac11ee9f16de6b2318fd7475a036f9dint),
            a: (-1, 0xd14ca3d5c1dd7816b903033160ddc5928fc85190e90754cce7028b7a5fc9064int),
            b: (0x18ce9c262ccb77c36a726276fb82a9c1e5b4ee729990bfde5f12d292ff52db4int, 0xb4ee05cdb7e3e0510fbb8c302df08692c70554f9a944e729b7cd2c556daf48cint),
            zz: (0x27d1b521653620b3de525fb32f2d44a3238fb5eed90c4ba0993e4efbd80660c7int, 0x1812a02a70f2144a7025aebb12ba8c18a941d5dbed8e245d26639f934fed2b7dint),
            c: (0, 0x30254054e1e42894e04b5d76257518315283abb7db1c48ba4cc73f269fda56faint),
            dif: (0, 0x1c5e9e0809f997c5a947770132ed3effc8c2fc973fc26da32f355f24f219bd8int),
            xy: (0x2640c3722139b549a1036db38e649691e85aa496962fc8329764532ee71ecdeint, 0x1191074adbc7bb26af0b56e953103bdb8fdbf863df7a53c851e7e3a1fcd09ecaint),
            e: (0, 0x23220e95b78f764d5e16add2a62077b71fb7f0c7bef4a790a3cfc743f9a13d94int),
            g: (0, 0x1863aa9a379c15867c8be8f618ece4c2556cda68a924c3bf69ecfb7cfcd784f0int),
            f: (-1, 0x5c2c11987f556a39cf7a6387fd19a49656a6d2b3ce06d7041d25bc555cfd2df7int),
            x3: (0x1beefb8fe31f8e16973626c8dca71960c72bf82e5b19691b028ac55952c6df6bint, 0x435573064bb5e5a6817fb6277c7f11717ea8fe936a38207335c61827eae28e61int),
            y3: (0x5f7ededd89e33be7dce3ec45711a151ed00a388fe7ad133caa4d4df54bca5aint, 0x1cc64b21741245cd975fc15b8f299508ef25e5dd2d00136534acd04610f9b026int),
            t3: (0x898fef325fe220ce603a3872845fc8c4921821596470feda9c5e028677f946int, 0xd08152ffc21592df4bbaac4e4d91adaa2943dc38b8ba0a39f82e7455f0979aint),
            z3: (0x136434b30e1ec74b37627e5b7191d7e51b8a200fafefab855ca5a3449cf9593fint, 0x278eaacd093bcdd9ac0c5e702a5a05d1843ba5242ef0ed0531720c78da861a51int),
        },
    );
}

/// The multiples of the base point, from the multiple by
/// 0x39f6d3a994cebea41a
/// to the multiple by
/// 0x39f6d3a994cebea4199d.
proof fn lemma_order_part_9()
    requires
        extended_valid(base()),
        extended_valid(ExtendedPoint { x: 0x435573064bb5e5a6817fb6277c7f11717ea8fe936a38207335c61827eae28e61int, y: 0x1cc64b21741245cd975fc15b8f299508ef25e5dd2d00136534acd04610f9b026int, t: 0xd08152ffc21592df4bbaac4e4d91adaa2943dc38b8ba0a39f82e7455f0979aint, z: 0x278eaacd093bcdd9ac0c5e702a5a05d1843ba5242ef0ed0531720c78da861a51int }),
        same_point(ExtendedPoint { x: 0x435573064bb5e5a6817fb6277c7f11717ea8fe936a38207335c61827eae28e61int, y: 0x1cc64b21741245cd975fc15b8f299508ef25e5dd2d00136534acd04610f9b026int, t: 0xd08152ffc21592df4bbaac4e4d91adaa2943dc38b8ba0a39f82e7455f0979aint, z: 0x278eaacd093bcdd9ac0c5e702a5a05d1843ba5242ef0ed0531720c78da861a51int }, times(base(), 0x39f6d3a994cebea41anat)),
    ensures
        extended_valid(ExtendedPoint { x: 0x66239405bbe03cf4afb214c7398b5e4ba700099e4d4d6f1750456fe8a62063afint, y: 0x403318f8ba9340cadf1b6ac2b2f8dcaa7eaec263538f9cabe25fd04889c1298fint, t: 0x22369bd3becba5d84c1002508cf40d0244638fdb43a786f223dc910fdcb63e4aint, z: 0xc87720a6882fd3d370dd3e8115e55035764b10e912709daccd0e88543c554d2int }),
        same_point(ExtendedPoint { x: 0x66239405bbe03cf4afb214c7398b5e4ba700099e4d4d6f1750456fe8a62063afint, y: 0x403318f8ba9340cadf1b6ac2b2f8dcaa7eaec263538f9cabe25fd04889c1298fint, t: 0x22369bd3becba5d84c1002508cf40d0244638fdb43a786f223dc910fdcb63e4aint, z: 0xc87720a6882fd3d370dd3e8115e55035764b10e912709daccd0e88543c554d2int }, times(base(), 0x39f6d3a994cebea4199dnat)),
{
    lemma_negative_base();
    lemma_chain_double(
        base(),
        ExtendedPoint { x: 0x435573064bb5e5a6817fb6277c7f11717ea8fe936a38207335c61827eae28e61int, y: 0x1cc64b21741245cd975fc15b8f299508ef25e5dd2d00136534acd04610f9b026int, t: 0xd08152ffc21592df4bbaac4e4d91adaa2943dc38b8ba0a39f82e7455f0979aint, z: 0x278eaacd093bcdd9ac0c5e702a5a05d1843ba5242ef0ed0531720c78da861a51int },
        0x39f6d3a994cebea41anat,
        DoubleWitness {
            xx: (0x271be60b252f7f6b49622e0f520803cb63cef8a19e785ed892df036d4dc5a8deint, 0x6be9ab3c99d9ac963e613b6776be092af1438eebc155845062f2bc7b8ae17e3int),
            a: (-1, 0x6d2f0c9f5fffe27ecf53c4519235f772a4a96b1443e903b9f9d0d4374751e81eint),
            b: (0x7246372a3023d7056aca016552c6d82270742a689163b6b6193f21585ee1e9bint, 0x57320cc916c6df42fec888f54e1766b24d48df60d84af1184f546ada5d322709int),
            zz: (0xd7f70f58b98db47dffbd8395596a78603ce11e3a82f239f8de8d1ca95d727afint, 0x5afc5c131775c7c9311b3f1649f1082f7b8a88e722687610a4cb44e5eda965f2int),
            c: (1, 0x420b10d3054e124a2efca6248a403859a3576dcb44d29022499689ccdb52cbe3int),
            dif: (0, 0x15fcffd64939033bd08b3b5c441e90c057608bb36b9e12a1aa7c695cea1fc115int),
            xy: (0x10b68253228db7e5329ee569c2f3e971ce766c56ae6209f504598889b0fe434aint, 0x3434899ec4a45243af4f40e887637e1851eda956d2b11d4b80f71ff17ade8f1cint),
            e: (0, 0x6869133d8948a4875e9e81d10ec6fc30a3db52ada5623a9701ee3fe2f5bd1e38int),
            g: (1, 0x507372154d2944799ae2753ed6ab861f9e34a6721c3598d349253f12a4840f26int),
            f: (0, 0xe68614247db322f6be5cf1a4c6b4dc5fadd38a6d76308b0ff8eb545c9314343int),
            x3: (0xcf9ed2f2df7ce85c1ed19e9822738ef70a47907179752e7f55541cecaeee156int, 0x4fc44de86c740686b121ae8e080d6c85cdd82d8c658118729c760142c530af52int),
            y3: (0xf425d77549c6b93d497bc67633dc6ee2ced49d661bdb3fbd255a891aa1b50fbint, 0x1d2f4da8ea3f874bd2ce2cc535c4794728681438c0b8b14e76178c76f5bf9323int),
            t3: (0x13cdbd170920e3e2132adb7a9e2843f29995f168a4dc0c6a9ed76049c0930e97int, 0x5058bd1b34e4b040f16d1f9b01666789dc939c41b75762cbce077ad4d480a401int),
            z3: (0x9ffa16a0e5fe1a53c70b25f73689b155cadee059856fb61bd44b01554c7a6bcint, 0x55aaa4eca0efecb8225992e9b46e974956751d5f30f5ea5628e37a0006054236int),
        },
    );
    lemma_chain_subtract(
        base(),
        negative_base(),
        ExtendedPoint { x: 0x4fc44de86c740686b121ae8e080d6c85cdd82d8c658118729c760142c530af52int, y: 0x1d2f4da8ea3f874bd2ce2cc535c4794728681438c0b8b14e76178c76f5bf9323int, t: 0x5058bd1b34e4b040f16d1f9b01666789dc939c41b75762cbce077ad4d480a401int, z: 0x55aaa4eca0efecb8225992e9b46e974956751d5f30f5ea5628e37a0006054236int },
        0x73eda753299d7d4834nat,
        SumWitness {
            a: (0x4978459d54c325024cf4c7a8cf4c85bf5a9d9ab935f6cc51d598398aedff0243int, 0x14ad3249665085b696c10011ae43133e1cecd97bd47cbdf491240e6ce7505779int),
            b: (0x160f79808c3c741655c0ecded6a1d4d9715f57b684c3e58a4200cc528c5b7eaaint, 0x9200dc3b9962f1340e045709a55433131f8f2539d06323a57afefdb4fadd6e6int),
            dt: (0x1d81dacf3f521c61f16c7805817399b02ad5d81ea2329d98908848ae9a2f17dbint, 0x149cf7d7ac684eff1c6897abcd7e5b95b0293180424bed8662dc72daa0ae8ad6int),
            c: (0x13aa8129add06c90c5fb561436bfb680741ddf9e2096b1daf39a4af4a0f6249aint, 0x31bfe17473b22b4c0475360b93a17adbb5d1e1deffce7f4a608a930ac2aa3596int),
            zz: (0, 0x55aaa4eca0efecb8225992e9b46e974956751d5f30f5ea5628e37a0006054236int),
            h: (0, 0x1dcd400d1fe6b4c9d7a145824898566f4ee5cbcf7182f02ee8d3fe4836fe2e5fint),
            s0: (0, 0x6cf39b9156b38dd283efdb533dd1e5ccf64041c52639c9c1128d8db9baf04275int),
            s1: (1, 0x4e7a2cab4d8fef627fa28fd19ba7c19a97abbf79df4db594e896ec1ba05d0dddint),
            ss: (0x49c11e14f19bf38143f5cef0dac0e1742b8f20124d528d89a2c13841de85336bint, 0x1a95a13d6eb170c7b4112c01e0013879deb6409e4c142e532ea1b425fac51c96int),
            e: (-1, 0x70b60883786839460fa9be87a10aba0fe38e18d1da8f9a2345cdb5dcc3c6ee38int),
            f: (0, 0x23eac3782d3dc16c1de45cde20cd1c6da0a33b8031276b0bc858e6f5435b0ca0int),
            g: (1, 0x137cdf0deb049abbf394f0ed3e6e3a1fb8895b3b30c60da1896e0d0bc8af77cbint),
            x3: (0x22eb96ad3277e49cea0a1e9669845d507bcdd955b38de83231dfad046e378045int, 0x11253a07808f247bf57a319720c3ccb2d0ad62a8382dc32a8ceca0f973002bbint),
            y3: (0x5027de6a05d7de5c7eb79e5c34d4260a782a67fcb97b2123975c2909882779bint, 0x6d0b101dd633e8ab83bedd980c99bdafc67fb358a2371bc6d1c7e6ef158b76baint),
            t3: (0x1cf9858ca13361e8b621f9171537d646640c48eb0f3194374ed9ef0fde660c34int, 0x1c73aedc17506f09b699193303b88143e7cc13f7e2fa0a64f85d0a9eb2ca6a94int),
            z3: (0x609a85b1dec92337f97b81fa8179a66fe3b3ea5dd0865b669a1eb60c6f93790int, 0x6efa949d18d2900075f0960b049a9d08835fa2153ef4df5f9ec84af596782b50int),
        },
    );
    lemma_chain_double(
        base(),
        ExtendedPoint { x: 0x11253a07808f247bf57a319720c3ccb2d0ad62a8382dc32a8ceca0f973002bbint, y: 0x6d0b101dd633e8ab83bedd980c99bdafc67fb358a2371bc6d1c7e6ef158b76baint, t: 0x1c73aedc17506f09b699193303b88143e7cc13f7e2fa0a64f85d0a9eb2ca6a94int, z: 0x6efa949d18d2900075f0960b049a9d08835fa2153ef4df5f9ec84af596782b50int },
        0x73eda753299d7d4833nat,
        DoubleWitness {
            xx: (0x28926ef442430092197305652ca524aa8ed5eaa5ac9c2d7a78aa11fabfcdeint, 0x3d9edd40c65c7a5a60a45653efd9549acc1937b7a365f2cf2318c60807b77bbint),
            a: (-1, 0x7013b97f1d37b5a28d2f92a2caa442bba6fc108785c7fcd20dce739e7f848846int),
            b: (0x66912795761da9e4e3f2ac8969e7103aa6273b2ee98c5afd0dfeab1349509a0aint, 0x67ffc322a71c24d1283eb300efd57db9325a64a80e61e6865a0c03b75fbb651aint),
            zz: (0x6a3d9ac0dbb3f9838e43d0829727bb38fa851708c5f61b1663a02d1d8bbae431int, 0x27fc113aa64bb5867db6b9276cd83946133556ab7c5537696898e95dd69914cfint),
            c: (0, 0x4ff822754c976b0cfb6d724ed9b0728c266aad56f8aa6ed2d131d2bbad32299eint),
            dif: (0, 0x813f65c761b90d164f0dfa1dacec50274a1abdf7766164bb3c26fe71fc9232cint),
            xy: (0x10208b9c7abd399e8724cca807a29fead4c50431d5d00a419cb5302c52118fcint, 0xeb9bc8fca821edfd56d4afbef27d2bd00b9c978bf390565b3395add078c14e2int),
            e: (0, 0x1d73791f95043dbfaada95f7de4fa57a017392f17e720acb6672b5ba0f1829c4int),
            g: (1, 0x6425d54e9ab65d2b82346d9bb0d7e86f8598d12c942b875967da7756df3fed5fint),
            f: (0, 0x142db2d94e1ef21e86c6fb4cd72775e35f2e23d59b81188696a8a49b320dc3c1int),
            x3: (0x5205280edb7f6050ad531aeb07962578875d943c8275f8460ef02c95b151d97int, 0x10257d3516d3c75832c71f2af5e87615b404dcdebe17b0ce07762ba0d4e6ab2dint),
            y3: (0x6fa76e7aff631f2511568b52acb75f675988d650fb4cd960e991a723113b607int, 0x682a5a18be590a5f811df4d993c78244c3dd6a774b27eadf8c2f67b1cbf4134dint),
            t3: (0x20d5b3fee6af7e6d409d358ac05d07ef6dd4bbcb6d2d487a04e800918e2abb0int, 0x1949756429264b528fce3bf32b8fdd1298901dc58fd82699c57f4a9553de4e00int),
            z3: (0x116e86d215ae45690a3935a86d03eb210f1dcf023b4ef2dff2a7e877be706361int, 0x15eaa3d8efb98de82e74e624ad8f8119c72d911714b39a4417850695de63ee3eint),
        },
    );
    lemma_chain_double(
        base(),
        ExtendedPoint { x: 0x10257d3516d3c75832c71f2af5e87615b404dcdebe17b0ce07762ba0d4e6ab2dint, y: 0x682a5a18be590a5f811df4d993c78244c3dd6a774b27eadf8c2f67b1cbf4134dint, t: 0x1949756429264b528fce3bf32b8fdd1298901dc58fd82699c57f4a9553de4e00int, z: 0x15eaa3d8efb98de82e74e624ad8f8119c72d911714b39a4417850695de63ee3eint },
        0xe7db4ea6533afa9066nat,
        DoubleWitness {
            xx: (0x23fb5d8e0d9a62cf5e88b3dc64445704d3cf9e43240f962b6ba659f9f0e06d5int, 0x72d1071257a504126ab7b2b4e172bd5edfaaa7aa8ec492107ab592cff0431f14int),
            a: (-1, 0x11ca040d1f87935c8822553282f1aa67412fc587139c9ee854a6d2f0fbce0edint),
            b: (0x5d98991218e6da768a6f826ab84d04178bf1d955bb68979fa131fc98ea77de17int, 0x2c2aed2f79c61e55ae817d2786a5adfb31dab55ab2f3c98ba9138748ffc4a712int),
            zz: (0x424b4e05e9b06f0808271d2b54d74612102a4d948fcc3036cb83df48a1d84f3int, 0x317ec07384d2f5319513c6ad607034d0df24f7781c3f3ba21e80fb601f8dd211int),
            c: (0, 0x62fd80e709a5ea632a278d5ac0e069a1be49eef0387e77443d01f6c03f1ba422int),
            dif: (-1, 0x48df5a6481cfd8284d3a8033ab2b44b095f5eb00be445c61dc36e5e50ff839dcint),
            xy: (0xe82139346f4529ce5ee67b4bf098bbd3cdc7fa7a3ec6f0e4cbbc5be4b2b2adcint, 0x344b46816528a6d2da5eb43090c3512d0cac3b1d54d15512bf3beffb2cea8adint),
            e: (0, 0x68968d02ca514da5b4bd68612186a25a1958763aa9a2aa257e77dff659d515aint),
            g: (0, 0x2d478d704bbe978b7703a27aaed4c8a1a5edb1b3242d937a2e5df4780f8187ffint),
            f: (-1, 0x3e37b3dc6bb62a708015ed27f79637053b6166c5ebad7834f15bfdb6d065e3deint),
            x3: (0x3821a2d682bf5309093cf1f0fdbe3a53f7e6cc52b6d832832f308c49abf4f24int, 0x568f268209092047e932a335f765028e8622d1bc57877ff77bd3b21a3b520ae8int),
            y3: (0x1c76712d7c31a9554132e5f4e034695997ae60a4728bde8268d7fbd0ca0f9107int, 0x5651c63fb8b0d1a3527620e41f4bb6cb302201fda1725f1593ebc6661091151dint),
            t3: (0x41be76f262a9201dde2bc0ce51055dfa5ec162aadf86390979f5c7d9460b398int, 0x5d33a1340118defa8676e523da798eb1dd18ca711bcf85cd39996be2db1e3fc0int),
            z3: (0x184d1243f0c453dfa729537b08049fe4f5158fb5fedf66ab6ac9511c628be4c7int, 0x737f64fb11ffd0c2ac89b1a6920cf1edcb0fea2429073888ed1d186bc2fa275bint),
        },
    );
    lemma_chain_add(
        base(),
        ExtendedPoint { x: 0x568f268209092047e932a335f765028e8622d1bc57877ff77bd3b21a3b520ae8int, y: 0x5651c63fb8b0d1a3527620e41f4bb6cb302201fda1725f1593ebc6661091151dint, t: 0x5d33a1340118defa8676e523da798eb1dd18ca711bcf85cd39996be2db1e3fc0int, z: 0x737f64fb11ffd0c2ac89b1a6920cf1edcb0fea2429073888ed1d186bc2fa275bint },
        0x1cfb69d4ca675f520ccnat,
        SumWitness {
            a: (0x6d54d2d06bfc239f091c43a84808da9707d5b316170ac04b91e73b19a200835int, 0x3d782a0dc6282adb4224e9cc6fd3c8b251ed034d93e7b5d48e46d3348f9ed903int),
            b: (0x413f75df66f4a70b99578da145e0586e8009151ab69aee096da79e37ff1471e7int, 0x53d7b636f7a63f656df42f581af7c0d76e4a65db365aeb8c644d204ce7770489int),
            dt: (0x223a6e9f28ec8962212efd2290a747a715da7be44bbb66d5548c0f8c6837fac3int, 0x267ae061ad87727dd62a64804ab1fe7ee976adbfe7590143f91ca10de2298fdint),
            c: (0x1c49f92b7feec23d042ebfe51dd290fb3a2e6f13460b95eaa50697a3330a19int, 0x48ac0140a729dccc748eda145dca7ba110a87ac4efebb3f107fd40c11db9a6bcint),
            zz: (0, 0x737f64fb11ffd0c2ac89b1a6920cf1edcb0fea2429073888ed1d186bc2fa275bint),
            h: (1, 0x1d6238f19430ecf87cdf411c8129b1846c79c525ca444561f293f3827715dd8bint),
            s0: (1, 0x38f3456e981c74a3086eec120d0ee15462872fb6f8fb830e0fbf78814be32004int),
            s1: (0, 0x60c7d6918e437d8827d3dfcfe8923870431f0f21be6a05e37815793fb5885c83int),
            ss: (0x2f8b3be1e404f4bde4d9c75e8ed6cea9c58af29d194ec00551cae4201f9b93faint, 0x72fb03b9a11a12c63b80d3ed111198f9f6357364c534a8baa2cc7c912b3f3e12int),
            e: (0, 0x5598cac80ce925cdbea192d08fe7e77589bbae3efaf06358b038890eb4296087int),
            f: (0, 0x2ad363ba6ad5f3f637fad7923442764cba676f5f391b8497e51fd7aaa540809fint),
            g: (1, 0x483dbee88f8c3046eddeb3b2e635958987fac0e618f4907af51a592de0b3ce16int),
            x3: (0x1f9eeda13ec438be1f44692c2071056c70a6dfa573e09c51f0abaff3f9eea20dint, 0x108df8c3e0e52bfd2b78b8c1f7fa32ef22f38191d53516855979c84c0c7d1ccint),
            y3: (0x124f8095b6026776ec415d3ec1e2be56e295064d6ac0c2f950071db2e284b5cbint, 0x6754b04c2293c2256e3b7016903511d34f506f5af3e4e979f58f2bb479d32e27int),
            t3: (0x15b21bacd01754eae120585479ab2a64269a237abb41bce9cf46255c4752fec8int, 0x35d5515220844323d3cce9d78afc8ea9dee5d75400eeda7fd82d22c0ef8bf585int),
            z3: (0x1aafe10740fec786e5839166ce323e479db41c56f316086dee4b6bcf2687a57cint, 0x211ae50544644f0d26a5dc25821216c21e6b03b671aea62159a1f2e903b05a2eint),
        },
    );
    lemma_chain_double(
        base(),
        ExtendedPoint { x: 0x108df8c3e0e52bfd2b78b8c1f7fa32ef22f38191d53516855979c84c0c7d1ccint, y: 0x6754b04c2293c2256e3b7016903511d34f506f5af3e4e979f58f2bb479d32e27int, t: 0x35d5515220844323d3cce9d78afc8ea9dee5d75400eeda7fd82d22c0ef8bf585int, z: 0x211ae50544644f0d26a5dc25821216c21e6b03b671aea62159a1f2e903b05a2eint },
        0x1cfb69d4ca675f520cdnat,
        DoubleWitness {
            xx: (0x25d2ec9a8c20184d60866f69dbf64a6dc4b55a7fd36a25fde46d37c9e6c53int, 0x61bea61f8650bc6cd49d699a9547c3e72dfe7022a1ef6319fa5576895a784e3dint),
            a: (-1, 0x122f0133a34cc0db5e9c6e6d745a141e25bf33e05e0ef8e505aa8975a587b1c4int),
            b: (0x5c1a2b4eb1474568d9370e724ddf7bcb6dbc43dbafccdf42084dca69d7d62945int, 0x4021de04cccca1f2905509d6902568fd31a3bb67ab6d57b7818daf8922c5e0acint),
            zz: (0x97421c99d657189e6e59bc89b0ff074fda2107f591527dd236520582593c2acint, 0x195f5a3a952442cc23baba75cfb7982988f8304caa5d74998d9b5da90d709d98int),
            c: (0, 0x32beb4752a488598477574eb9f6f305311f0609954bae9331b36bb521ae13b30int),
            dif: (-1, 0x45faca82001d9c3101813c9eedd6832647d91c7bb29ffd2c841cd9eb82c1d119int),
            xy: (0xec17249d838b263889d876588087eb3bb98020b6b88feda8f291c49542d45cint, 0x536b56c5763c5d9dcbf28d94e046b5f225f063dea0493bf57ec313c00804c9b8int),
            e: (1, 0x32e90637c2db3df364ab4321b6eb93def82323ba40941bebfd8627811009936fint),
            g: (0, 0x5250df38701962cdeef17844047f7d1b5762ef48097c509c873838fec84d9270int),
            f: (0, 0x1f922ac345d0dd35a77c035865104cc845728eaeb4c167696c017dacad6c5740int),
            x3: (0xddd4e61c8a6e4dff224c696e90a6640685d963dcf18c985fe575bb9d0e2d365int, 0x250ef9fdb09a1c650e227d7e17329af1b54a1aa4f1f9b05a88a6b2a2a870c15bint),
            y3: (0x31b08cfb8217bbce8bcd6f06916b658942770b3647c41e703122b3f0c81b017aint, 0x2570b7631d0010812a4547fd3b08c1c2057b19dffc35f3e67060a39a6275bb76int),
            t3: (0x1ebb5495e2187f17743be2af7048350e60568b649155370eee9c6ec8a40d39f7int, 0x9042ac39946c1e3fd26e6575251917d70ea51da19a8b921832466dc42eecae0int),
            z3: (0x166acfd787e21b31a10dbd1d359a1033bcb24f4efb97496aee71a3e1097138d9int, 0x1d704f7976f7e734096f6f34de650e21ef626235acb94fa284546aabddf77327int),
        },
    );
    lemma_chain_double(
        base(),
        ExtendedPoint { x: 0x250ef9fdb09a1c650e227d7e17329af1b54a1aa4f1f9b05a88a6b2a2a870c15bint, y: 0x2570b7631d0010812a4547fd3b08c1c2057b19dffc35f3e67060a39a6275bb76int, t: 0x9042ac39946c1e3fd26e6575251917d70ea51da19a8b921832466dc42eecae0int, z: 0x1d704f7976f7e734096f6f34de650e21ef626235acb94fa284546aabddf77327int },
        0x39f6d3a994cebea419anat,
        DoubleWitness {
            xx: (0xbd8ad312f4164cadb29509f67a9684a8a9a63bd48d33905c7118048f1f1cb93int, 0x50ffe85e062f136dd8355f90526ffeb0eac70190ee92c14074fbde73fb88ac6int),
            a: (-1, 0x6edda8cd493a8c1155b6820f047ad81a451133e9f1152feaf8b04217c047753bint),
            b: (0xc177ca4b25704a1ed3d3733589acec655790700796610d71ebef311090e16eaint, 0x34648ea0760df7f0a63f6a76e0acd37c2b4db85f5ac88ffc4b0b4b7c3213837aint),
            zz: (0x779c3273d659ba90fbbe83b29f786157a94d72aa7c12f8e4827fc67e1ba55b0int, 0x1e8aa44d7f4f533164d50c61806463a08a61cf31d77523c978fa762dd53ba41int),
            c: (0, 0x3d15489afe9ea662c9aa18c300c8c74114c39e63aeea4792f1f4ec5baa77482int),
            dif: (0, 0x3a791a2cd32c9420af77179823ce049e19c37b8a964c9feeada4f69b8e33f1c1int),
            xy: (0xbf7ebb719d468c9ad55b3c2e06b95400fa83e1e3b94f3e357d3a4eb18cd5489int, 0x352aa018f352be9d32d0e8d2e97eaef9e81e3a4ab9ba186adc303eed1d004469int),
            e: (0, 0x6a554031e6a57d3a65a1d1a5d2fd5df3d03c7495737430d5b8607dda3a0088d2int),
            g: (1, 0x2f54901a95ab06b9c8bc147ddb85d3911ca148464bdf63e843bb8d94f25af8b4int),
            f: (0, 0x2b833b90e5c11c539c2172f1ab79471d0b550e6010f0bf6f149c3ecf37b38432int),
            x3: (0x27e93e9dfe49eebde7a116d7b5fe39a61d82db7e6acbc9d5cfb52626b327a055int, 0x286f30fc7ba05f73c09ca07f020f38791ca77dacc43cd58a58c5be48b05560afint),
            y3: (0x17df78242d9b0ac35ccb77180d133e8ab84a6d3e8f040ac0214e64f6c9fd955dint, 0x7462ca215566dca9934bfe79ee16910da13056c58ed9e1b3bda70e7f4955e57int),
            t3: (0x35a21e34efd3a8523fa8fbd4bef47c37a5fc2ae19a8c723c5d502ccc1726cb7cint, 0xad7f69b0afbbe0042c876e7e157c0a36b947f27935a47ade20a6df5e1e40cd6int),
            z3: (0x11c3d6fb6596f0f53a8c5f4d1b90e30be159940aca17cd97909ce5772a750663int, 0x66e9bc3c1285b6a2390408374fddb1b6fc5e05522af2f327262c4790a5685cc5int),
        },
    );
    lemma_chain_double(
        base(),
        ExtendedPoint { x: 0x286f30fc7ba05f73c09ca07f020f38791ca77dacc43cd58a58c5be48b05560afint, y: 0x7462ca215566dca9934bfe79ee16910da13056c58ed9e1b3bda70e7f4955e57int, t: 0xad7f69b0afbbe0042c876e7e157c0a36b947f27935a47ade20a6df5e1e40cd6int, z: 0x66e9bc3c1285b6a2390408374fddb1b6fc5e05522af2f327262c4790a5685cc5int },
        0x73eda753299d7d48334nat,
        DoubleWitness {
            xx: (0xe1a5d71d0c8e5a043aaa241c9fddee7351be1608a754cd673f463195400fd6cint, 0x14ad07ec95aa9f49cc6cda35c2f5a2d522f610b2b8c6c69c6262422ca4b8ba35int),
            a: (-1, 0x5f409f6693f2ddfe66ccfdd246ac353030c79350473795629d9dbdd25b4745ccint),
            b: (0x74d8634aaea2bb935397e5cf1f5cbefa209835fedfc33339c9be5d3c4d186fint, 0x3a23c6d9016e9d8b2424b65a1a6a3d96530b9515cfedaa01ca78ce108fbce922int),
            zz: (0x5b5be47168502db9c2445c843a5fd2bf5986bf6a8d0795d59d719da623cdc4e4int, 0x6a3d928d31b720b3d055e0934e351ee42fa95514f871839f49d17cff4fe06ab5int),
            c: (1, 0x608d7dc739d0c41f6d71e91e92c865c30b950626f0e4ab3f93a2f9ff9fc0d569int),
            dif: (0, 0x251cd88d9284407342a847782c41f799ddbbfe3a7749eb60d324efc1cb8a5caaint),
            xy: (0x28980c017ef704bd9a39ec3d6c04d70054284d507650bde847b73926530810aint, 0x4c4b81a3d442ae28c81d855915d458693f5b3bc001b5efdd18438abf32e9c6fint),
            e: (0, 0x98970347a8855c51903b0ab22ba8b0d27eb67780036bdfba3087157e65d38deint),
            g: (1, 0x2576beec6bc3fe4157b7dc2457749ac1301584631726e36568168be3eb042eedint),
            f: (-1, 0x38d6e8785b90b76a1d7fcb0dce4e0d03783e223f26409424d47391e34b435985int),
            x3: (0x4ad0890aaff215663c933a82e6cd4fc80b5765a45a3d2ed6d3d7810aadbec3dint, 0x230bb9f6bc0cccdb856ce3e89a23f26fce48c7b1bb9349d0c080aad65871cd19int),
            y3: (0xbfe548bfc05f0db101198f458fb9c8ba26f6eaf96d8e50132e2bdecfe1ae1d3int, 0x1befc78dec3b1cd216d267655993074d952ccb129df73cf42efa96d9ce4b738fint),
            t3: (0x30d96cbfbe81e1b3191d2490a34cebdfc95390d5b401390a04b30ec3bb0e63fint, 0x29934b3fa595c4a9ceff32e4bafab3d049f852d20cea674a6261cc31f052a52dint),
            z3: (0x125e53f5920d7e6110aa5a6368906a93ae20d12dc82055307ecd4877d46ee95aint, 0x1217f946e0209827b49ecbc27845183889fb06614f728caabe3c1ffe7014dcc7int),
        },
    );
    lemma_chain_subtract(
        base(),
        negative_base(),
        ExtendedPoint { x: 0x230bb9f6bc0cccdb856ce3e89a23f26fce48c7b1bb9349d0c080aad65871cd19int, y: 0x1befc78dec3b1cd216d267655993074d952ccb129df73cf42efa96d9ce4b738fint, t: 0x29934b3fa595c4a9ceff32e4bafab3d049f852d20cea674a6261cc31f052a52dint, z: 0x1217f946e0209827b49ecbc27845183889fb06614f728caabe3c1ffe7014dcc7int },
        0xe7db4ea6533afa90668nat,
        SumWitness {
            a: (0x2047798c83982bd0cd8d7090fd11a23e6b8784abe3df998ba7f6e05eb3ee8691int, 0xcb1873ecc028fe16aebae1cae0ec0895f172aa07a36936cc904923d6145786dint),
            b: (0x151df33abb3fcc1bafbb3cf140e058ede862001fcc9f79fbbc0ce7fcf7fe9c77int, 0x52201741b674fb0c877afd2a677707e1fc4f08ef96c2690a3c121fdf42092959int),
            dt: (0xf44bdfe806dec022aff67e1dcba693b8badf04531105dc7269b0125d0258cf9int, 0x706d1f378e366750d3d6407389542d2b424ca8dae9e72b593416800988238d24int),
            c: (0x6b42b367ac46f9cf0fb6a38f68a7b205157a9467e04bc15a9672a82747879a89int, 0x436d78a851684a8d22b51f2045a783622c92ee800b28537f6fb2b6b615828b97int),
            zz: (0, 0x1217f946e0209827b49ecbc27845183889fb06614f728caabe3c1ffe7014dcc7int),
            h: (0, 0x5ed19e8082778aedf266ab471585c86b5b66339010f8fc770516b21ca34ea1c6int),
            s0: (0, 0x3efb8184a847e9ad9c3f4b4df3b6f9bd637592c4598a86c4ef7b41b026bd40a8int),
            s1: (1, 0x4e7a2cab4d8fef627fa28fd19ba7c19a97abbf79df4db594e896ec1ba05d0dddint),
            ss: (0x2aa2bef207cf631ffbd2325d34472ab5f1d60f892837b1991db23dd451fc2fbaint, 0x46f85283510efa4c6464f77083a14ba1be85feff67f2f4dcd93ca5d038b5294eint),
            e: (-1, 0x5c145b55f834eca6a538243177bd5b3bb6dd6f7256f85464d425f3b295668789int),
            f: (-1, 0x429827f1b855cae2c52384aa3c3f6cdbb125bbe44448952a4e8969475a925131int),
            g: (0, 0x558571ef3188e2b4d753eae2bdec9b9ab68df4e15a9ae02a2deed6b48597685eint),
            x3: (0x34e500f0697defd0b699bb7d2a1acea4c2ded536bf2bbd96ca8dcdfcdd0b6c0cint, 0x667f58fe330d1fb9ae3ae2ce9670204aad34d8385fd290a33793cca1a298de2dint),
            y3: (0x45f2d85a998b857331af608103ee8f10ccd2a19ae326cbbe37fce441a37c4aadint, 0x3938959f204c46b6eea302e40b29bbbfbe46a98bb669ac8e3485dfec8ee58c07int),
            t3: (0x4b500ac6b5af1b8695fda13d2344f4565ba6b5f04f8ad65acd94b4f488bfca60int, 0x47139bd46b0375b5069799bc84673979f6eeeda04c692daa988cc40606883296int),
            z3: (0x31209004281ab8fbbdac414a643751b858905fd873d6ae508693fdd35adc2b6eint, 0x71244284a7f3cec246de2ab8dbccd5b8573de52da1436959bff44f89b0c08c90int),
        },
    );
    lemma_chain_double(
        base(),
        ExtendedPoint { x: 0x667f58fe330d1fb9ae3ae2ce9670204aad34d8385fd290a33793cca1a298de2dint, y: 0x3938959f204c46b6eea302e40b29bbbfbe46a98bb669ac8e3485dfec8ee58c07int, t: 0x47139bd46b0375b5069799bc84673979f6eeeda04c692daa988cc40606883296int, z: 0x71244284a7f3cec246de2ab8dbccd5b8573de52da1436959bff44f89b0c08c90int },
        0xe7db4ea6533afa90667nat,
        DoubleWitness {
            xx: (0x5a9f63020697805183cdd54a14c54651c14ae48d621da3dfcb0121b8cacd452cint, 0x7377b0ca2d3ce7a6ea384879fe186fb00761ada502aeec8b0b1f2486bf74cebdint),
            a: (-1, 0x75f688fc6095a149018f8e0b8968554c5bf65dfd4f6f73f4e0db78408b3144int),
            b: (0x1c3e63fc0b4764667963be10778cb3a67d5350b987939b6f6c61475cb94592e9int, 0x61a2d294d5305f033880e5d71ba05f2ac82a91bc195ff98c551c1f9fdbd81548int),
            zz: (0x6e6c03c1d5b0c9c9234d08b2be9d7ddf8f8e7298ffb8a0c3483a4a557368705cint, 0x1588e01bc259e3f1b401ad37d4d114800f74e18bcdbf6bfe7c8eca3fb1c560a4int),
            c: (0, 0x2b11c03784b3c7e368035a6fa9a229001ee9c3179b7ed7fcf91d947f638ac148int),
            dif: (-1, 0x12c0cb4750cdb3e643ba81bef98ae12fd7ef08a4e3edd1e69fc4bbd764b31bfdint),
            xy: (0x329778d53a6682874036166b053653ae3036127a4da03be20ee5278774599934int, 0x42d3325567b45dfe7dc27e09b08e3b11a60ebf60ab02f941305b17b4b961607int),
            e: (0, 0x85a664aacf68bbfcfb84fc13611c76234c1d7ec15605f28260b62f6972c2c0eint),
            g: (0, 0x6218c91dd190f4a4818275652729c7801486881a16af690049fcfb181c63468cint),
            f: (0, 0x370708e64cdd2cc1197f1af57d879e7ff59cc5027b30910350df6698b8d88544int),
            x3: (0x3f707af09a35de608f886b1d6a93cf7fc8c02f611a3e822b9f654042a4d1c27int, 0x8d2eb9bef317c6f5e6c802f4b2405dd1538c3926465e1414e78376c2c21dd91int),
            y3: (0xfde5c26b847c8174f20a29ba6fe36217053a956acfb045bceb9aa6e227faf4fint, 0x3204bad3cdd582b95c0af264320bb82491c002e25bc2dd087150db4067f1cd0dint),
            t3: (0x159ead8f851ec79ff2c52c91557daf723ff4e544cbe2fec7b89f67edc2cfa63int, 0x632fc0e1e9938fcc2bcb30cae9963f516c5bf4dd9e20ed8d59cc026378ea0973int),
            z3: (0x2e903cd6911a55c10c6179a65c48a321aae926a255e9d25e9f87820c70014416int, 0x5fed7f5229ce1c916c4c9fe5614576e858dc7cecce63e9ffb3e0f4c8d424351aint),
        },
    );
    lemma_chain_double(
        base(),
        ExtendedPoint { x: 0x8d2eb9bef317c6f5e6c802f4b2405dd1538c3926465e1414e78376c2c21dd91int, y: 0x3204bad3cdd582b95c0af264320bb82491c002e25bc2dd087150db4067f1cd0dint, t: 0x632fc0e1e9938fcc2bcb30cae9963f516c5bf4dd9e20ed8d59cc026378ea0973int, z: 0x5fed7f5229ce1c916c4c9fe5614576e858dc7cecce63e9ffb3e0f4c8d424351aint },
        0x1cfb69d4ca675f520ccenat,
        DoubleWitness {
            xx: (0xabf02b37d6c0c72700244ecf2245afb12c64807f4ab74518defb62ae7f255bint, 0xbbe94932946ce5e88f6b0e5d3c142134ec72450dabfc68a7af312f508a686c6int),
            a: (-1, 0x682f12c00056aee9aa43272235e095f204f67fb2253e9574850ced09f759793bint),
            b: (0x1594bb960e224d17907a0a7af8278cdf15edf2912c0b90ae1c92f37249dccb22int, 0x1fc4685ef6b7f9538967b434c3b8e465912efd24184ce8e7a7591393e2db0787int),
            zz: (0x4f60b3077b917f29ee410413d3fc68301d68793c6a2c366ae23ba8b1e8fa5caeint, 0x65250547b233f6da941ae57cde5e1b7154c1c1b6b62bb8517dd739ae215969f6int),
            c: (1, 0x565c633c3aca706cf4fbf2f1b31a5edd55c5df6a6c5914a3fbae735d42b2d3ebint),
            dif: (0, 0x486aaa61099eb59620db72ed7227b18c73c7828e0cf1ac8cddb3d976147e71b4int),
            xy: (0x3cea26db26b8e4e8f6dcda097c3e4c65a9f16ac022a48977d57223e59877942int, 0x1e7d1cdeeadfca8643948a90e558443a92a0af0ab236d03f0e96621fef1ee41bint),
            e: (0, 0x3cfa39bdd5bf950c87291521cab0887525415e15646da07e1d2cc43fde3dc836int),
            g: (1, 0x1405d3cbcd712af50071034eeff7a2524267d8d33d8d225d2c66009eda3480c1int),
            f: (-1, 0x319717e2bc4437d03eaee865467f1b7a405f9d6bd13269b830b78d409781acd7int),
            x3: (0x1a15865d704b46b6cec0d288cd2db5d24838ec30c309ad9bbfb0de5f3647ae20int, 0x187a24ef2fc518b11feae2570b05efd4651aad5c89f1bd9c70a1c46faf55bf3aint),
            y3: (0xc81f00e4492dcf372d64d847f737fefe3ea69e53556f67871516a51b2ee0a7fint, 0xbad141333c7428843351f8504f16a2f5c90d53e98c1e24cf020a00c59cfae35int),
            t3: (0x2617335398a9ca4730b4aacabdbd91a70378b4fb11217b54f751196e7dd15666int, 0x5fb89e6cdc85dd0a18786640f035942f493222337eaac4cecc58afe9cd934592int),
            z3: (0x890a7af6dd7811be360befd0a0b6ceccac07164255e87adc0b9f309e6e306c9int, 0x1c949b0b4d078772679d0dd2557c4f0367bac2695baf6347ad00bd6a59f7c74eint),
        },
    );
    lemma_chain_add(
        base(),
        ExtendedPoint { x: 0x187a24ef2fc518b11feae2570b05efd4651aad5c89f1bd9c70a1c46faf55bf3aint, y: 0xbad141333c7428843351f8504f16a2f5c90d53e98c1e24cf020a00c59cfae35int, t: 0x5fb89e6cdc85dd0a18786640f035942f493222337eaac4cecc58afe9cd934592int, z: 0x1c949b0b4d078772679d0dd2557c4f0367bac2695baf6347ad00bd6a59f7c74eint },
        0x39f6d3a994cebea4199cnat,
        SumWitness {
            a: (0x1eeaa765564599a330547dab2aacd8ab1cefdba74790eeff6f8dc20f8014fa3int, 0x870e8ad3f6306bc92307d47b11b28b58362e9e7dab84c55f1f1508d614c862bint),
            b: (0x8d36932f00742344c4588021f6810a385d9db85eb6cf97b130d70677eca7c0bint, 0x5cba3c8b8d77392468530997b4dd384ddc24dbcd3d02da88b981ad470e6ba6e5int),
            dt: (0x23274dcdfcf1f142cd2ae448b19ba375c7ea0a5c4de3ec6fbe35b7de0cfa7dc2int, 0x717b6f420a20e7086d5da812f719856d646532dbd90671daf3613a72ee59f830int),
            c: (0x536d761d950b77497754585286b53c5f082a89acaf2f44c4dac12ab8eb25c6eint, 0x28565b5bbdc26c73984f71daa51ba5b6f49c0c5c183537b1fb5f4ecb0edfde42int),
            zz: (0, 0x1c949b0b4d078772679d0dd2557c4f0367bac2695baf6347ad00bd6a59f7c74eint),
            h: (0, 0x652b2538ccda3fe0fa8386df65f861035f87c5b517bb26deab72fdd46fb82d10int),
            s0: (0, 0x24273902638c5b39632001dc0ff75a03c1ab829b22b39fe960c2647c09256d6fint),
            s1: (0, 0x60c7d6918e437d8827d3dfcfe8923870431f0f21be6a05e37815793fb5885c83int),
            ss: (0x1e2e8d0414e2ba6d5c543551e0e0b923b9c5c6d6eab07cbc7be943b9f8007a20int, 0x5a0b87bba1ed7a89d44bf60a0ad54283532c96e033722744e313ecbac77269adint),
            e: (-1, 0x68ce09d5feb0b7f10d024732ae7eb9854762752e1bb55c6537a0eee557ba3c9eint),
            f: (-1, 0x682be702b8e29847028773ffba028151c6dc5a1043788794b1a16e9e4b17e90dint),
            g: (0, 0x44eaf6670ac9f3e5ffec7facfa97f4ba5c56cec573e49af9a8600c3568d7a590int),
            x3: (0x5e2d13cb3b390b0df31535420528fa94fe033f13389fb80537b1abee0bb27e57int, 0x66239405bbe03cf4afb214c7398b5e4ba700099e4d4d6f1750456fe8a62063afint),
            y3: (0x3c24b0cd1c8e1a970cc7e370eb5323c654c2d00f074b3398ab471cf55b537f71int, 0x403318f8ba9340cadf1b6ac2b2f8dcaa7eaec263538f9cabe25fd04889c1298fint),
            t3: (0x5b76156e41d82c41637619406340b55808dec7a1a282575371b526436f255196int, 0x22369bd3becba5d84c1002508cf40d0244638fdb43a786f223dc910fdcb63e4aint),
            z3: (0x3dedb4cb8c834fb42140be77ace32f04d1a9f301d2ac78fc5c4a1ddc64ce237eint, 0xc87720a6882fd3d370dd3e8115e55035764b10e912709daccd0e88543c554d2int),
        },
    );
}

/// The multiples of the base point, from the multiple by
/// 0x39f6d3a994cebea4199d
/// to the multiple by
/// 0xe7db4ea6533afa906673b0.
proof fn lemma_order_part_10()
    requires
        extended_valid(base()),
        extended_valid(ExtendedPoint { x: 0x66239405bbe03cf4afb214c7398b5e4ba700099e4d4d6f1750456fe8a62063afint, y: 0x403318f8ba9340cadf1b6ac2b2f8dcaa7eaec263538f9cabe25fd04889c1298fint, t: 0x22369bd3becba5d84c1002508cf40d0244638fdb43a786f223dc910fdcb63e4aint, z: 0xc87720a6882fd3d370dd3e8115e55035764b10e912709daccd0e88543c554d2int }),
        same_point(ExtendedPoint { x: 0x66239405bbe03cf4afb214c7398b5e4ba700099e4d4d6f1750456fe8a62063afint, y: 0x403318f8ba9340cadf1b6ac2b2f8dcaa7eaec263538f9cabe25fd04889c1298fint, t: 0x22369bd3becba5d84c1002508cf40d0244638fdb43a786f223dc910fdcb63e4aint, z: 0xc87720a6882fd3d370dd3e8115e55035764b10e912709daccd0e88543c554d2int }, times(base(), 0x39f6d3a994cebea4199dnat)),
    ensures
        extended_valid(ExtendedPoint { x: 0x5f5b148569ddaeded5a3aeadc82951e821c09d7dc378066af0c9154fe20961ecint, y: 0xdb6b8504bd54131f6743c700017d3533395c7eecdde06728be6714afd1fb30int, t: 0x4bd50d91a90f7198a887321f19239f50711a9f76aafef251ab5cd2b2aba8d7d9int, z: 0x7229ce0f2637733dbbe45a2e1fece01a17a01c177a5180d0605c30ed9bd817c0int }),
        same_point(ExtendedPoint { x: 0x5f5b148569ddaeded5a3aeadc82951e821c09d7dc378066af0c9154fe20961ecint, y: 0xdb6b8504bd54131f6743c700017d3533395c7eecdde06728be6714afd1fb30int, t: 0x4bd50d91a90f7198a887321f19239f50711a9f76aafef251ab5cd2b2aba8d7d9int, z: 0x7229ce0f2637733dbbe45a2e1fece01a17a01c177a5180d0605c30ed9bd817c0int }, times(base(), 0xe7db4ea6533afa906673b0nat)),
{
    lemma_negative_base();
    lemma_chain_double(
        base(),
        ExtendedPoint { x: 0x66239405bbe03cf4afb214c7398b5e4ba700099e4d4d6f1750456fe8a62063afint, y: 0x403318f8ba9340cadf1b6ac2b2f8dcaa7eaec263538f9cabe25fd04889c1298fint, t: 0x22369bd3becba5d84c1002508cf40d0244638fdb43a786f223dc910fdcb63e4aint, z: 0xc87720a6882fd3d370dd3e8115e55035764b10e912709daccd0e88543c554d2int },
        0x39f6d3a994cebea4199dnat,
        DoubleWitness {
            xx: (0x59fd654535510be19cc9d49c1d5f7269de4c97a885c5cb0c6213e5c1f1e58d42int, 0x427e50084378aa71b5d3b11ea8add1adc628745883a6faaa491c1c1014ab445fint),
            a: (-1, 0x316f574ae624d2d67d6626e960f406578d952faa7c576154b6e3e3eeeb54bba2int),
            b: (0x238d8aedcb6bfed833b32e85df360b2067e82ad0b43b4c130620e7a888894d58int, 0x192daeded08bdb772625789a7cb240e9628e40a50a4e551c80da765a35d3d089int),
            zz: (0x15aa5f330059e7956d1f1dc4fed3498f6f13fbfc614911ae2b6a11e9aab3e5eint, 0x58b30d83dcb3abf91650d25dcbc461c589270f18c169301763ec41f4f8a33de6int),
            c: (1, 0x3d7873b48fc9daa9f967ccb38de6eb85be907a2e82d4042fc7d883eaf1467bcbint),
            dif: (0, 0x1841a86c1598f75f5740ae4ee441c56e2b06ef0572090c3836096d94b580eb19int),
            xy: (0x38903015405b7dd399fccc72f1f1e85048126bac4380089661f4b30e4df392b2int, 0x245b407bfb88ef8ec1b3d968caba4db72123bc78e13db49b470c722f7c0a230fint),
            e: (0, 0x48b680f7f711df1d8367b2d195749b6e424778f1c27b69368e18e45ef814461eint),
            g: (0, 0x4a9d0629b6b0ae4da38b9f83dda64740f023704f86a5b67137be5a4921288c2bint),
            f: (0, 0xd24927526e6d3a3aa23d2d04fbf5bbb3192f62103d1b2416fe5d65e2fe21060int),
            x3: (0x83e562ea7fd21c9b413df0b1d408aec69cfdffd90b90db79e91cefdc383caa7int, 0x4d8bb52e2d96a0439602c71f092564c7783d918eb5e60592ccd51c90f0f46099int),
            y3: (0xf9ca336eb38152e10b1897794f2572ff81ee17d61d18747f0a2614802c6280eint, 0x65cbc34c83b49626e89a879a3affe5a993a43d64ffde91688405096ef5b0125int),
            t3: (0xf36d6efe199240a92081e6f840fdb752c2a01e979ef765cad14a65dbc6f5c09int, 0x228648a2a613850992e1a79e5b030c7724d51e1bf2068550f6efdfba5ee906e5int),
            z3: (0x8757e64c988f7a0c02550e5fb44418aec18c6fb028ba5b7caa73bccdda6a3d7int, 0x264443d232f61e4ad150abb94ab2d2e0fc40ad325a4fa0051b31f6dabd469c49int),
        },
    );
    lemma_chain_double(
        base(),
        ExtendedPoint { x: 0x4d8bb52e2d96a0439602c71f092564c7783d918eb5e60592ccd51c90f0f46099int, y: 0x65cbc34c83b49626e89a879a3affe5a993a43d64ffde91688405096ef5b0125int, t: 0x228648a2a613850992e1a79e5b030c7724d51e1bf2068550f6efdfba5ee906e5int, z: 0x264443d232f61e4ad150abb94ab2d2e0fc40ad325a4fa0051b31f6dabd469c49int },
        0x73eda753299d7d48333anat,
        DoubleWitness {
            xx: (0x33df065d0cd3e09f0a7df0b71573c7fd4133df13bca6aa31eab72f5770f4b317int, 0x590eb1fef22d9553c5d0cc42c88b71f4adf5339ff0ad942287b0c646b726685aint),
            a: (-1, 0x1adef554376fe7f46d690bc541166610a5c870630f50c7dc784f39b848d997a7int),
            b: (0x5962ea62401e9a8fc2b0c9e6352ebe846548ca2101f9d0fd9d3fecff8fdbbcint, 0x1991e5a0ee2eab8419e59eef79e35f7207b24ce688ae2b82239a1fa7e6bf739dint),
            zz: (0xca1a37bc87c4404d50bcd05414fe49faef20146b741aca5e199c905b01a36dbint, 0x6e22837f999308c95ea45c84cafdaa2c663abb0df4f72bea5023c66f13ad5f6int),
            c: (0, 0xdc4506ff33261192bd48b90995fb5458cc75761be9ee57d4a0478cde275abecint),
            dif: (0, 0x14d0fb349413c7053836cd5c733069e9e16237c86a29c5a54b51a10621a240aint),
            xy: (0x4417a9360abf6a88f1cbd2db2b56c1838e593697a6b69168034268e4671a6fdint, 0xfe048983dabfc9e981ac4d47960ee8c0b15a59b8c0a45aeaa416905aea3e820int),
            e: (0, 0x1fc091307b57f93d303589a8f2c1dd18162b4b3718148b5d5482d20b5d47d040int),
            g: (0, 0x3470daf5259e9378874eaab4baf9c582ad7abd4997fef35e9be959602f990b44int),
            f: (0, 0x26ac8a85326c325f5b7a1f24219a103d20b365e7d9600de151e4e0924d235f58int),
            x3: (0xa97b5f5562c4a918f4f56db3e53fa14120741e329dabad6e2a18a13f3763ba9int, 0x26a80b647892684304b072821ae6033ce8658f27fbcd919b8e883c0f7c411a57int),
            y3: (0x96a984fdbaa0874558f794fd555a1bc7ee9aa4bab74bb6b1b984a3b89c5108int, 0x37e29e20b8bf2a5e515bc70e39cb36470f0b285cc8064325a058d8f2d5dbafa0int),
            t3: (0x5b3951ace32fc8527917ac453aec82638e51400b322f5fd19d3116dcc612a9int, 0x26ec2672827dd5f33b3553b706cc99e72bef488f4d69663c98f2a2587d10fd7int),
            z3: (0x117e90e8026b90b03a3d62e312f1cd131a8d51e16d350864f87ecc95037ffb88int, 0x403923e77c8e9a87fe09c38f2145edc8c90b09beb8d57305fd8e10c522961fd8int),
        },
    );
    lemma_chain_double(
        base(),
        ExtendedPoint { x: 0x26a80b647892684304b072821ae6033ce8658f27fbcd919b8e883c0f7c411a57int, y: 0x37e29e20b8bf2a5e515bc70e39cb36470f0b285cc8064325a058d8f2d5dbafa0int, t: 0x26ec2672827dd5f33b3553b706cc99e72bef488f4d69663c98f2a2587d10fd7int, z: 0x403923e77c8e9a87fe09c38f2145edc8c90b09beb8d57305fd8e10c522961fd8int },
        0xe7db4ea6533afa906674nat,
        DoubleWitness {
            xx: (0xce3d8aa057a1ba652f90eb913083bed609acbe4fbf43f2e12a6ae74c90b37ecint, 0x62a1f60d8b4881e76b54797ee7304aefa6c276e053e2cc1f871d89bbe1d891a5int),
            a: (-1, 0x114bb1459e54fb60c7e55e8922718d15acfb2d22ac1b8fdf78e276431e276e5cint),
            b: (0x1af0bf962f96303ca9a40b9f91e52f7d64a165b6626a9cf73695f097d460d251int, 0x11e7651af4472ece451faed0d2c099d8342b6932f6a7dffe1a283aff5fdb51afint),
            zz: (0x23943c960b66ca4c1c7bc1b613f38c29b15181d1727994e3c0bafe81be0acf0bint, 0xa1c3f6b1104f12d5add07298811a91259b52536c20be8b644a40b77f70b3735int),
            c: (0, 0x14387ed62209e25ab5ba0e5310235224b36a4a6d8417d16c894816efee166e6aint),
            dif: (-1, 0x7351f37dd3ab49dab5ff87c05952cb42cc8d67f2b5720be05eba3b42be4c1caeint),
            xy: (0x12a28e7b1841bbcf28b9b2423f425daf50635e21519a11e0ef5f53d672a687e8int, 0x37db33daed6fad2f83ce59f822f91dbdbbb77fe6c3dbdbeecec91889a2786778int),
            e: (0, 0x6fb667b5dadf5a5f079cb3f045f23b7b776effcd87b7b7dd9d92311344f0cef0int),
            g: (0, 0x23331660929c2a2f0d050d59f53226ede1269655a2c36fdd930ab1427e02c00bint),
            f: (0, 0xefa978a709247d4574aff06e50ed4c92dbc4be81eab9e7109c29a528fec51a1int),
            x3: (0xe6f24f47907f55587c78dcdd68c003d01b59c79585fc8db64a7c8969c88e364int, 0xb5614ca8d0f09cc150001db39a8d40f272667d4b59e1de1c71dcb32c5a3318cint),
            y3: (0x2303cfa74ca7703b4641926773b223b50dc835d9ec02db5b7acec4e524e3bca8int, 0x151a0e2c7c9b3a11a77ecc624e1577506b2716e03fee3aef70f637ebfb3ffed2int),
            t3: (0x6f205d68560bf99db482a50ce00bc2fac9c66f1ecf9c2c620eecdeec7326156bint, 0xc3673b8cdc397c882194a405095738768d4853241cce7319fe88154e68d1b5int),
            z3: (0x48c4e1ab1503dcb34d436e3d165426c321d06ffe30d00b09f834651c78e0cbbint, 0x512ff643a6c7322f5ce2db52f0654e597cc04c6bbf9307e68148206e86143530int),
        },
    );
    lemma_chain_double(
        base(),
        ExtendedPoint { x: 0xb5614ca8d0f09cc150001db39a8d40f272667d4b59e1de1c71dcb32c5a3318cint, y: 0x151a0e2c7c9b3a11a77ecc624e1577506b2716e03fee3aef70f637ebfb3ffed2int, t: 0xc3673b8cdc397c882194a405095738768d4853241cce7319fe88154e68d1b5int, z: 0x512ff643a6c7322f5ce2db52f0654e597cc04c6bbf9307e68148206e86143530int },
        0x1cfb69d4ca675f520cce8nat,
        DoubleWitness {
            xx: (0x11bc8fb2cad43e017a8ccf8a260d70ce14fee1aa9a72f23a8def931b0c47430int, 0x35e4d3dff24672431241852bdc726233ff051a751b8fdbd986856ff7e91a7060int),
            a: (-1, 0x3e08d37337570b0520f852dc2d2f75d154b8898de46e8025797a900716e58fa1int),
            b: (0x3d74e3a027253f76f5d1d411404f931d24120f4e3caa1ece9934348d65be6f8int, 0x1a10e8303e0d4059602f9d411917c587f4801726f01679e225f342ea5ea57d4cint),
            zz: (0x38db7fe5810a3f03c0e79b3e66900bdce4cfc6b0cd55b89255022bb3f30fa719int, 0x67eba4416345268ecd1b45692b2307e27cae8eb28aa0eaaf75f059eba77d41e7int),
            c: (1, 0x5be9a12f9ceccfd566fcb2ca4ca437bfa59f79621543795febe0b3d84efa83cdint),
            dif: (0, 0x23f7eb42f949caabc0c8b59b1417b04960387266f458064353874d1cb8401255int),
            xy: (0x2103fda33edb82557823dcf1ff9c027c967539b8858b41b3215a1f688cbfe08int, 0x4a21bfec489ade53fecf4d3ed8a3c03c965d20da1e72837c5f04a010f7af8ed0int),
            e: (1, 0x2055d88567983f5fca64c275a7a5a873d8fc9db13ce6aaf9be094022ef5f1d9fint),
            g: (0, 0x5819bba375644b5e8127f01d46473b594938a0b4d484fa079f6dd2f1758b0cedint),
            f: (-1, 0x701dc1c70214f8d14d65155b0344db9ef756cb55bf3fdca6b38d1f1826908921int),
            x3: (0x1f45a4c30f71f5b69480d1b0270c8e80a720056fa47fa28f50eb45ead7c9f62bint, 0xbcc7c9e93f1dd09475bdd8bf33101c9a6d3a29f6828b9aafa572a92dc2f254int),
            y3: (0x1b559ec03da7b785619f86c843ec6d90a3d6f65b2693966455791d370d8c1729int, 0xbc569301731b4dc478539efd038f1a2aaa21e8652bbef1aff4c055b53c7dd88int),
            t3: (0xa08521c49d9fa40a5ca06ac64b5b8a33f3c3462471ff1b5a3b93644a23eefa5int, 0x52925077186d27cf3bd3b1d8bf9dbbd3d28a10b642397717d90bbf44382b1426int),
            z3: (0x553417fd4c10ae5f8d733a5155a1103c5523f5afb26b879c9e1ffcf2720be19fint, 0xc564cf93e6edc8491e987bc09733ce990f6bc372c6d8685575ef90e921b9deeint),
        },
    );
    lemma_chain_subtract(
        base(),
        negative_base(),
        ExtendedPoint { x: 0xbcc7c9e93f1dd09475bdd8bf33101c9a6d3a29f6828b9aafa572a92dc2f254int, y: 0xbc569301731b4dc478539efd038f1a2aaa21e8652bbef1aff4c055b53c7dd88int, t: 0x52925077186d27cf3bd3b1d8bf9dbbd3d28a10b642397717d90bbf44382b1426int, z: 0xc564cf93e6edc8491e987bc09733ce990f6bc372c6d8685575ef90e921b9deeint },
        0x39f6d3a994cebea4199d0nat,
        SumWitness {
            a: (0xade0aa91ce0b3e9f4639a0a4789d961475ddab543fd063004ce275eb888a90int, 0x1db2bcda536571fb552389f31179ca090a5646da56606e4ab44f32e4ed0d0a88int),
            b: (0x8e5cdb736e7a7eac9e8958c8471ac456c042575d88160e5b0fbf3187c81d3a9int, 0x303ca73923f35b5b472ac2ad58aa4bc48fdad021fcc2927ab28da4e04328ddd7int),
            dt: (0x1e5307ed8b3536042371f0f268eae2a39bb6776d27be900088adec2d2066cfe6int, 0x6dc94c2832d2e8685cf790d75e2edf0f70d4ffb8538e85fff15b04d9fffb5260int),
            c: (0x68bdedc61f0f7eab1cd1b7620620d850d611f580096145f1c126ce029e1d6e56int, 0x6b77318e0648062eb23d3d56e12f3ee2cee209d77d5358ed5226ec4087cf9caaint),
            zz: (0, 0xc564cf93e6edc8491e987bc09733ce990f6bc372c6d8685575ef90e921b9deeint),
            h: (0, 0x4def64137758cd569c4e4ca06a2415cd9a3116fc532300c566dcd7c53035e85fint),
            s0: (0, 0xc8230fa0070d2acdbfaf7c88f6c01bf450f58b0493e7ab5aef17804818acfdcint),
            s1: (1, 0x4e7a2cab4d8fef627fa28fd19ba7c19a97abbf79df4db594e896ec1ba05d0dddint),
            ss: (0x877b6117f86d7659b78b692a399ca47a595d5346f0c8bb1dbb89c8a995f570cint, 0x2d2bec184426a947b42d27e971a1db4a74d9c97fa1e5f4253df81e844af045e0int),
            e: (-1, 0x532a2f57f66b59394b18b351111f9d822e6656864ec14f5ed71b46be1aba5d82int),
            f: (-1, 0x14ccc2be61c4539e12e6226d31e5d60c15d25662af18899705380ccd0a4c0145int),
            g: (1, 0x3dfd7341b19656b10eced0ae100a3c70c1b220ba9c28373a985e55019eb3a97int),
            x3: (0xeebe1d711b7804d98e5f3fab0d7df7edefd68b01e148e1234edd6b03527e341int, 0x4e116cc09a0ccd8d6a6cb97f79c1051014f9f97cd73c45e4a5650bfd9008d2c9int),
            y3: (0x29ac8d6f64fe564dff9120368a7a9939a4201c361e388e73f0475a4d11fe19bint, 0x3cfed8104e98a3365c0a09185d50a7b592658566f5e0b9b7550a7c0f6b86b46eint),
            t3: (0x37e8bfb449baf4095368daca28295eafa3aac174fff8e80cc4fda612508d33b5int, 0x10e1797e3470f3326a6ac33d505cf6c349f4da22d9a539f79ed3b38f3b434f89int),
            z3: (0xb1f4b6fed3823f23a1184593f3fc6ea58dc964e1e1d8f1c270d7714b529025int, 0x49178ac60ede67d7688998ad0f142ae23c337f2f5386b73680cdb86ee722d18eint),
        },
    );
    lemma_chain_double(
        base(),
        ExtendedPoint { x: 0x4e116cc09a0ccd8d6a6cb97f79c1051014f9f97cd73c45e4a5650bfd9008d2c9int, y: 0x3cfed8104e98a3365c0a09185d50a7b592658566f5e0b9b7550a7c0f6b86b46eint, t: 0x10e1797e3470f3326a6ac33d505cf6c349f4da22d9a539f79ed3b38f3b434f89int, z: 0x49178ac60ede67d7688998ad0f142ae23c337f2f5386b73680cdb86ee722d18eint },
        0x39f6d3a994cebea4199cfnat,
        DoubleWitness {
            xx: (0x349284589e8e8340c8865d87e35a938426f328f1f47cf7e7a2214f687f507243int, 0x6b670bb11e268bfd21f0b58cbb74d0bb260a4c02384952000e60f7947acdef8eint),
            a: (-1, 0x8869ba20b76f14b1149227b4e2d074a2db35800c7b509fef19f086a85321073int),
            b: (0x2017b8d81cedbfcf75a72b18245bf42aa8814264bc04225102c28e998c846fe6int, 0x434cba6dd9bfa8fc45dc9c596b4dc95e9124645ffd6ff0e1f41777e5c9ce6f5eint),
            zz: (0x2e157d508b2e5d15299b0dafac96b10862b26883a483cebc27e84eb898286246int, 0x2b4e3c1f8a814b8248c98e6f797c9896d04dad37e959c1c98d8424800118c87eint),
            c: (0, 0x569c783f1502970491931cdef2f9312da09b5a6fd2b383931b084900023190fcint),
            dif: (-1, 0x392788875b54c596fea65e29ec8115f0f04c97a3ca43751bfd879083bb63a116int),
            xy: (0x29134b96f2b67a37b96a34a89aa0978e794a7da64b62921b4310d461961f2efbint, 0x3f6acbab12946eb20972fcc6ca5f253313230d4029b2db56624c9552da16b763int),
            e: (1, 0xae7f002fb8b601bdfac21858b1c7260d288767d53675aadc4992aa6b42d6ec5int),
            g: (0, 0x4bd3560fe5369a475725bed4b97ad0a8bed7bc60c524fae0e5b680504f007fd1int),
            f: (-1, 0x69248523f9d1808af8cc79fdd023778071fa05f3f26fd34ccaae374f4cceeed6int),
            x3: (0x9e42ec9bcb09c171cd8357a20a0988e574770b964c52e721e10e18c90be8b60int, 0x100a8b7ab7634ccb33865d2e3ced5dc0ea8f64088fb5505918b847ece8bd334eint),
            y3: (0x25621547a609151912776df63ee2e5898e5c595ccd77ca8c336d548eada59ad5int, 0x36f1428f51dec562f325edadbdbc59fb3ffc3cfb6f83bb19f0bbb15e859ad221int),
            t3: (0x56077b1799f743b94afec7724d1405474782ce6e53a9b630c24a840e61b6734int, 0x37efb1f1d723d015a044738e2e5ac49481c6682a6160fbe533799ce1e5a502baint),
            z3: (0x44c55ad10f59be276f5fc4be5fcf3d3917eb90c2be582bbd604729b7ea99da3cint, 0x6bc1e8a1e9395cffe85c17b0dc1cb24d500ddcbb52d242b89aebadf07cd34c7aint),
        },
    );
    lemma_chain_double(
        base(),
        ExtendedPoint { x: 0x100a8b7ab7634ccb33865d2e3ced5dc0ea8f64088fb5505918b847ece8bd334eint, y: 0x36f1428f51dec562f325edadbdbc59fb3ffc3cfb6f83bb19f0bbb15e859ad221int, t: 0x37efb1f1d723d015a044738e2e5ac49481c6682a6160fbe533799ce1e5a502baint, z: 0x6bc1e8a1e9395cffe85c17b0dc1cb24d500ddcbb52d242b89aebadf07cd34c7aint },
        0x73eda753299d7d483339enat,
        DoubleWitness {
            xx: (0x2383aaf6b5d80dac430f71fd8515b368cc2d423a133d745bbf857d7705500fcint, 0x6a9842fdb1e33e7a0d75891585f484c12642260a908abb8f75ffdc6bb1f2ac8int),
            a: (-1, 0x6d4423234e7f496092627f76b1428fb9415981a256f5b04608a0023844e0d539int),
            b: (0x1a0a02962fd2a910b3743fda242c37db07681711d1afe7e32fe86f2bc99ef7e4int, 0x5cacaab011b4e069b0bc0661da55effb4766d44fbf062171efeab6ebfc8f305dint),
            zz: (0x64299831cb54ded3278ff7741644ba9dc4d28d1b7fa1cda3e86a383b75a2f048int, 0x6f4d246b51226f75111f8a562a6b6065f8c2171d57d8a0d09b9e6149e251b9dcint),
            c: (1, 0x6aaca18378a761a1ef053ca44b34e8c69dc68a37afb2e5a2373cc294c4a373b7int),
            dif: (0, 0x109778733cca68f6e1a67914d6ec9fbdf9f2ad5297ef8ed418b54b4c4851a4dcint),
            xy: (0x79a3b945f1a80467c1459210711d2cb24510d3e8c6d3e20ce5bb1ea7a38c477int, 0x1dd859b76f794a8e7b6df9afe0aa445cd8b65342e3b617113ff8c11e1d2cd497int),
            e: (0, 0x3bb0b36edef2951cf6dbf35fc15488b9b16ca685c76c2e227ff1823c3a59a92eint),
            g: (1, 0x560326803696ac820fe4add081f6a7af3502b1ef15fd75b8f88ab92541700595int),
            f: (-1, 0x5f442c4fe78cc82854194934406396edeaf9cbba6648ec15c14df68f7ccc91dfint),
            x3: (0x310d3477820df83095d9c339496a998c1f5c503e1f16453c234fa6f0d8ca9785int, 0x37794cbd642977065e59db18b5265b18302721e92dd8e548395f222edccad58dint),
            y3: (0xc4f6262101368685dcdb5e04fc94502fcd002b7b7e078d0336cb32cc56ba03fint, 0x553f4f481de6c9a8285b2140c4440c93eb6f34339e67741a40406c41e6919fcdint),
            t3: (0x88af9f1d4d6d17d0d9a2b0c3b51f1548a31ec5a12ab2b80a7c8155189144c90int, 0x4a26c393895d4d1548da22ca138462a0bf8915c4002b345b367319fd83e88ef8int),
            z3: (0x46aea73af277edf9cbb456fca6fcc0aca059a98973d7543f258673593699a1bfint, 0x32dd8ff0b6203c16047d0610e88685c059348ff39215dacaefec441ddbe0a00cint),
        },
    );
    lemma_chain_subtract(
        base(),
        negative_base(),
        ExtendedPoint { x: 0x37794cbd642977065e59db18b5265b18302721e92dd8e548395f222edccad58dint, y: 0x553f4f481de6c9a8285b2140c4440c93eb6f34339e67741a40406c41e6919fcdint, t: 0x4a26c393895d4d1548da22ca138462a0bf8915c4002b345b367319fd83e88ef8int, z: 0x32dd8ff0b6203c16047d0610e88685c059348ff39215dacaefec441ddbe0a00cint },
        0xe7db4ea6533afa906673cnat,
        SumWitness {
            a: (0x3318363f6257c19fc7bc4cf232f4b2207217f7e31ae516b562daa23be1f065e7int, 0x3e326abf3fdabbd59454c37184dd0971c7768c1d9af51b49a759a24346b737efint),
            b: (0x406ffee1c2a5ef89a0f0baf9c4833d0f25dbe896f75753809246c290a01d407cint, 0x64f9491b994045e7560251bbbb6f3d35569e99c7af2116af205b139bc2f6a6f4int),
            dt: (0x1b3b6818dc4e2f7b5affa4a2f424fe9986828fc151baa00a000606452e3e558cint, 0x4c525042e7e1a165e64b4a727eec6c2aa998f0017e491bd4cb216b91b28c93ecint),
            c: (0x48d0939514ef81d7da84873be18779e6daa11cff51ddb0b85b932e3e57b4918aint, 0x5a7f6cacaab593ac4db469280dbeff06c24508257a17564b2ba431909d2ae4d6int),
            zz: (0, 0x32dd8ff0b6203c16047d0610e88685c059348ff39215dacaefec441ddbe0a00cint),
            h: (1, 0x2f3e0c87af7d8474b71d3d2536aa6ea1ca5781e24a17d5f9c7b4b5e009addee2int),
            s0: (1, 0x18caf4b25872c366537b24516fc88fa6c7d8b219cc41fd63799f8e71c35c7559int),
            s1: (1, 0x4e7a2cab4d8fef627fa28fd19ba7c19a97abbf79df4db594e896ec1ba05d0dddint),
            ss: (0x10c88c2d5b09e4d98b8333c30a490f10814c3c627ff8b65459af4c786e3e8bb8int, 0x7319eb8424a0c0de083fe771a20477c864fe984c6b35a2f9480b2cb22bdd471dint),
            e: (0, 0x43dbdefc75233c695122aa4c6b5a09269aa7166a211dccff805676d2222f683bint),
            f: (-1, 0x4c4bca97350825b1ea0274f0e4695ebeeaad2bd117fce07ec448128c3eb5bb37int),
            g: (1, 0x196f554a3738527a1ef79730eca3acc1c7bbf4160c2ed5171b9075af790b84e1int),
            x3: (0x2ca8f8a49056f35540abce59f7e3e23b799deb15bc528deea46e806e1169ee01int, 0x98eec4d3bf51ce9db0d0fd16f628c7b4e13e41f3e66778b930d40b7e39f8facint),
            y3: (0xa5d75075b879f482caa9ef16a4f91a44c52c2a067cddd166a6e8bcc55df42d5int, 0x1a03ce361c27412b63b48954c132458eb998f50b84ecd0f79e18553e389429cdint),
            t3: (0x1ba7464a7617074ac4bfbdbe49866f1f0080a50db5300602eb849c6ecdbf450fint, 0x6b40986a8032dad0d4e8e1e2b1a58b6dbbb3024ad8c1acb86d77771aff5ce907int),
            z3: (0x10bd4fd5cf962f8b4b9b2152ae67da9d5b86f3d211dc1cd354bbf715fc90d3f3int, 0x26739854052ac6448ecad8efdaad6876eb6efb854aa0532373232f5ae00e1364int),
        },
    );
    lemma_chain_double(
        base(),
        ExtendedPoint { x: 0x98eec4d3bf51ce9db0d0fd16f628c7b4e13e41f3e66778b930d40b7e39f8facint, y: 0x1a03ce361c27412b63b48954c132458eb998f50b84ecd0f79e18553e389429cdint, t: 0x6b40986a8032dad0d4e8e1e2b1a58b6dbbb3024ad8c1acb86d77771aff5ce907int, z: 0x26739854052ac6448ecad8efdaad6876eb6efb854aa0532373232f5ae00e1364int },
        0xe7db4ea6533afa906673bnat,
        DoubleWitness {
            xx: (0xc9bfb481cd9effdd3a3afd058ba370f0aa35bfa3ce66c615096e34fec91b26int, 0x506b5ae53a0febbfd9923a27a949e6f58a18368386e93a7809917117d180806aint),
            a: (-1, 0x23824c6def8d918859a79de06057f10fc9a56d7f79152186f66e8ee72e7f7f97int),
            b: (0x5d67de58353eb006492a73aab5615f54f1848e695374b1bf4cd4b0e6b53ecf8int, 0x40a6c0f88d5f48125f6d8c317ec470ba5f8809e2cd62769330fe2b3fa0876131int),
            zz: (0xcc0f5db53b0529a4ff0c293866c89f4fe8950258dc60663a4fbdf190cb92100int, 0x2b2d8d9ef923357fc26b1003c80bbf0737c13f70f06786da06323eec13aede10int),
            c: (0, 0x565b1b3df2466aff84d6200790177e0e6f827ee1e0cf0db40c647dd8275dbc20int),
            dif: (-1, 0x56c932c88bcbc6be2d73e9b6eb35585abddb079fabb106f2c57063a68df81e67int),
            xy: (0x22519e05c1b9e2d9d971ab930d933e201ced0f66080e7d0dd4559dfb1a00a43int, 0x342de33abf329152d4e9a6d9c504f17c3cc59382bef5532814e85e6dd2988e79int),
            e: (0, 0x685bc6757e6522a5a9d34db38a09e2f8798b27057deaa65029d0bcdba5311cf2int),
            g: (0, 0x64290d667cecd99ab9152a11df1c61ca292d77624677981a276cba26cf06e0c8int),
            f: (0, 0xdcdf2288aa66e9b343f0a0a4f04e3bbb9aaf88065a88a661b083c4ea7a924a8int),
            x3: (0xc6d4099bb23e45eeb87800e9bee3c7129967cb89a0ae3a26da946942d7a9d68int, 0x27d892a08a0729df2b4d66918b10e2075168047a620d2a7cc66ecb3d1c946968int),
            y3: (0x4afb54689384b83dce9a1eab89893f650485eb94018b81a6041e8a443d61a44eint, 0x4b6c40c594d628a104cebf7e37e61f9b4393a3d5b58be32b054fe11c67a3c2aint),
            t3: (0x4e1fe2b888a5f377eb94f91833ad16eb074d09fe1c2da4e9ff059e91114b00b3int, 0x3d8ccd7bc3def5cb2ba14062b34a2a8d74cc2c8de3e6f0934a118b4e7b4c00abint),
            z3: (0xbed46df58c1e63563063e381250283d271333293b16b37d6fa9c322d735951eint, 0x413e3a03de9ecb9fbd050b1bf70a3ff67be023448240b1a394c6f5acd8f20e22int),
        },
    );
    lemma_chain_double(
        base(),
        ExtendedPoint { x: 0x27d892a08a0729df2b4d66918b10e2075168047a620d2a7cc66ecb3d1c946968int, y: 0x4b6c40c594d628a104cebf7e37e61f9b4393a3d5b58be32b054fe11c67a3c2aint, t: 0x3d8ccd7bc3def5cb2ba14062b34a2a8d74cc2c8de3e6f0934a118b4e7b4c00abint, z: 0x413e3a03de9ecb9fbd050b1bf70a3ff67be023448240b1a394c6f5acd8f20e22int },
        0x1cfb69d4ca675f520cce76nat,
        DoubleWitness {
            xx: (0xdb20fcb9133ed96977ed5e58f54546336ee2ea07a39d44441f80d8cb37938f5int, 0x71f0cb13869f8e57eafcda94787b0b432fdfac94e5a9bf7ee7f72411182d414bint),
            a: (-1, 0x1fcdc3fa2fdeef0483cfd739126ccc223ddf76e1a549c801808dbede7d2beb6int),
            b: (0x3111ee50a12f6d2ab7a674b04c5acd9b222734a3fc8b8bd027eebd0dbef00cint, 0x5225c4b59173a886776f2bc3076728646c25a76fd66575acfea7a651506cc6d8int),
            zz: (0x24b7cff45608509bbb9b819a14534e18cf6d8b8e924089a401e7fb7c7f0bdc15int, 0x6851c6428eb09e7eabbaab7f93e77cc722f4d3ffc68a87f235e54f009a03e06fint),
            c: (1, 0x5cb5e531f3c3bfb5243b7ef71e2d2188f22c03fc8d16b3e56bca9e023407c0ddint),
            dif: (-1, 0x23c4bedd3b27c3b20407a9b893617c630b75f40143ed82d21961359b9765f7dfint),
            xy: (0x19ec7b9d4a95c556c53540942bb0d86f6c7700f29b9e159e63dae55a0b9eef4int, 0x5b4a9808c085e72e60f937a44054c8ba328609511401d5cc9c16838083e3bc1cint),
            e: (1, 0x42a788be576e51148eb897407707b96f114e6e9f28054f9a382d070207c77837int),
            g: (0, 0x5422a0f534719776bfac2936988df52690039eddf0ba122d16b0823f383f858eint),
            f: (-1, 0x6b5a63166a4b5509ceaa82478402aba2f1953ee463a1ba46aae5e43c0437c4b2int),
            x3: (0x3db956a721792783702ffdedec62da5d60c6fe79bf4e6617164a7569a500e73dint, 0x25f66e8ff59ae46eaa35a8a211b59863ec2ed1f2af43f04a29f5d1d12b8bcb01int),
            y3: (0x19f587bac94339908b4b4faba393127da1f2a40fe5162a45c235b122e56505ccint, 0x11670a8b20fc2e6bd0496863e9314560a7caa65e807ec4cf8fa4b4d0d6d252e6int),
            t3: (0x1490c8bebe0f91ccc73951a2010bf22492af52fded25b28687d208ca08fb8d7dint, 0x665cd63aa5d138b0a624a5972876dab479cddd9b40077677c6097ae111763b6cint),
            z3: (0x4de968a35e76e248f4d2f70ef6d3a6159e924fab5bce9845b84cd99080a5fcadint, 0x17ef6a20c25a5b11e090eb327d5b13369cb52e781701e1e6311df3262747980fint),
        },
    );
    lemma_chain_double(
        base(),
        ExtendedPoint { x: 0x25f66e8ff59ae46eaa35a8a211b59863ec2ed1f2af43f04a29f5d1d12b8bcb01int, y: 0x11670a8b20fc2e6bd0496863e9314560a7caa65e807ec4cf8fa4b4d0d6d252e6int, t: 0x665cd63aa5d138b0a624a5972876dab479cddd9b40077677c6097ae111763b6cint, z: 0x17ef6a20c25a5b11e090eb327d5b13369cb52e781701e1e6311df3262747980fint },
        0x39f6d3a994cebea4199cecnat,
        DoubleWitness {
            xx: (0xc6e75866e1c62d2bf9c74527cf600271205552d9f6fbdac8310510fc1fe1f11int, 0x1e11a883540461592b7d84b4f24c7dcdb295d50fc0d727a383f92a2ba81276f0int),
            a: (-1, 0x55dbfecfd5991bef07bc535317555a37a127cef33f27345b7c06d5d357ed8911int),
            b: (0x29cc3fa408c1bdfc8e55f85a0ca68ec6ef581a3ef3f05643c700bc96c298561int, 0x676c57c84097bd5020b22cf6e6506c8bd9aee25964f07e46e907eebc3806a143int),
            zz: (0x4f119aedfa51b8dae1d1e84df18dc0b332e584a6180c917269a99a83063bbc9int, 0x5fd377ecba6c8adc2d38d00844466e484223949f7e40abfdd523a4ef14401518int),
            c: (1, 0x4bb948864b3b98702737c8087eeb048b3089853bfc82fbfcaa4749df28802a2fint),
            dif: (-1, 0x625d4e5abe9edbe71a43fe643aa6c5b11b36909cda35121392fee7161fe6e7cfint),
            xy: (0x5b2e03c7a8ee3b3fd76900d7b46af8a6b93db083908126173007c0cbdb955b6int, 0x5420a9adc7ba9472e7cfeda2d095a053166bd3e536c456d2faba94b885b75f30int),
            e: (1, 0x3453ac0865d7ab9d9c66033d978968a0d91a03c76d8a51a6f57529720b6ebe5fint),
            g: (1, 0x495aaf44ec935bf6f534a841f403eebe27190d49a41956a3650ec4908ff42a53int),
            f: (-1, 0x718f0e11caf540cf0136b8417ebac2384a4d2c10a794b6a5bac77ab067740025int),
            x3: (0x3341dec20c1f30033c797a3fb055247378b6d6c8d203b0024c2b78b1b10ac4e5int, 0x64b4d28687a9411198f09872c130d45c0b122bc6a387d9f62dca2dc57202bed6int),
            y3: (0x3e3d991e2097c14c48b633d1f2a2d6fa7ae1005fa22d6c7d75410739f8ec1c0aint, 0x450503258d1d0ed8a7d779154c3e4bb674380d7f1f279707aed0e639d3450213int),
            t3: (0x2c6625244f5e243b87e5dc7af9b315cc063e25e7ca01243dbec9675c983d828eint, 0x2884c6d006a2b61b66650b220b96ae0eef9639fa59dfea1010fd4a701e702543int),
            z3: (0x47dadb362a15d67de4813456a098c76557d8d65a67f38150222b86bdc0a4301aint, 0x2d9847494138fab7b4f27650d53a4a90bece5bb1e560bdf5fd9530fba041ede5int),
        },
    );
    lemma_chain_double(
        base(),
        ExtendedPoint { x: 0x64b4d28687a9411198f09872c130d45c0b122bc6a387d9f62dca2dc57202bed6int, y: 0x450503258d1d0ed8a7d779154c3e4bb674380d7f1f279707aed0e639d3450213int, t: 0x2884c6d006a2b61b66650b220b96ae0eef9639fa59dfea1010fd4a701e702543int, z: 0x2d9847494138fab7b4f27650d53a4a90bece5bb1e560bdf5fd9530fba041ede5int },
        0x73eda753299d7d483339d8nat,
        DoubleWitness {
            xx: (0x577baa5b530a6c831a271266d62b86fb4bcc26302b15d642e6015acbf9af05ffint, 0x48e89b55dff1071045c1774c6b2b278ad9547dfa16ce5b9a1b7d0e8d27eb54e5int),
            a: (-1, 0x2b050bfd49ac7637ed7860bb9e76b07a7a692608e9300064e482f171d814ab1cint),
            b: (0x29177f4b55b081d0e810bd1c5fb09d304cc4629d6fdfb2e5005525e77783f4ebint, 0x45ec9df675578f62bf0a01c7f63ea2f441db4fb640028e9c6cdeb37ef8be587eint),
            zz: (0x11eebaca90da704e3137eec9041f60767d7724b4289b2c32783f1e604a30ceabint, 0x479f1131a258403a0c2e2a688dcf73c05a5b97534b24f78cbf5489b1a12b002eint),
            c: (1, 0x1b507b101b13032be5227cc911fd0f7b60f98aa3964b931a7ea913644256005bint),
            dif: (-1, 0x59061559fdf2641d61a836fbb1d9e58b8c4b7a55a92bcdc777a43df1df56529fint),
            xy: (0x3bf4fa7f0b5ebd860e5ebe76e4acf79f3c93f6155020efa2b4061e0b65fd6f8eint, 0x568d138ce2e05462e3ee1e68b0a1858a091aa637631431ff1b7501bbe7626654int),
            e: (1, 0x392c7fc69c232b7d94a264c957a1330ebe77a86bc62a07ff36ea0378cec4cca7int),
            g: (0, 0x70f1a9f3bf04059aac82628394b5536ebc4475bf29328f015161a4f0d0d3039aint),
            f: (0, 0x55a12ee3a3f1026ec75fe5ba82b843f35b4aeb1b92e6fbe6d2b8918c8e7d033fint),
            x3: (0x2a3b24ca157eb1c356f2a22adc6001ae3e82e68b5abf0ee7856ec1f4de55f02dint, 0x5f5b148569ddaeded5a3aeadc82951e821c09d7dc378066af0c9154fe20961ecint),
            y3: (0x56bb665fd528c28fe1486864793a84c08b69e6c51831654b91d4cfd6f6209576int, 0xdb6b8504bd54131f6743c700017d3533395c7eecdde06728be6714afd1fb30int),
            t3: (0x2be7ab8b53662457fa53508a4b812719e885ab108521445b1709220a0339c1e0int, 0x4bd50d91a90f7198a887321f19239f50711a9f76aafef251ab5cd2b2aba8d7d9int),
            z3: (0x536cde212f9b166dd37ccfacdf377b35038f7c05385197eafb78072e6f529926int, 0x7229ce0f2637733dbbe45a2e1fece01a17a01c177a5180d0605c30ed9bd817c0int),
        },
    );
}

/// The multiples of the base point, from the multiple by
/// 0xe7db4ea6533afa906673b0
/// to the multiple by
/// 0x73eda753299d7d483339d8080.
proof fn lemma_order_part_11()
    requires
        extended_valid(base()),
        extended_valid(ExtendedPoint { x: 0x5f5b148569ddaeded5a3aeadc82951e821c09d7dc378066af0c9154fe20961ecint, y: 0xdb6b8504bd54131f6743c700017d3533395c7eecdde06728be6714afd1fb30int, t: 0x4bd50d91a90f7198a887321f19239f50711a9f76aafef251ab5cd2b2aba8d7d9int, z: 0x7229ce0f2637733dbbe45a2e1fece01a17a01c177a5180d0605c30ed9bd817c0int }),
        same_point(ExtendedPoint { x: 0x5f5b148569ddaeded5a3aeadc82951e821c09d7dc378066af0c9154fe20961ecint, y: 0xdb6b8504bd54131f6743c700017d3533395c7eecdde06728be6714afd1fb30int, t: 0x4bd50d91a90f7198a887321f19239f50711a9f76aafef251ab5cd2b2aba8d7d9int, z: 0x7229ce0f2637733dbbe45a2e1fece01a17a01c177a5180d0605c30ed9bd817c0int }, times(base(), 0xe7db4ea6533afa906673b0nat)),
    ensures
        extended_valid(ExtendedPoint { x: 0x4047bd60d09b90da5e0fa48b1791b803c460d801a9cb2898572794a5f93cbeb7int, y: 0x3ebd15d11cbdb8ab4c8970020504f986bb90f1ee065cf7d23cc47064e11f5c2cint, t: 0x2d2012bd82c305333aee9d8bb307a193b2153fc577f8ab4ecbdfeae78f8c3039int, z: 0x570531a3dfd8ce225b80d4ab797f0b8277f3c352f394df5062380b399094b988int }),
        same_point(ExtendedPoint { x: 0x4047bd60d09b90da5e0fa48b1791b803c460d801a9cb2898572794a5f93cbeb7int, y: 0x3ebd15d11cbdb8ab4c8970020504f986bb90f1ee065cf7d23cc47064e11f5c2cint, t: 0x2d2012bd82c305333aee9d8bb307a193b2153fc577f8ab4ecbdfeae78f8c3039int, z: 0x570531a3dfd8ce225b80d4ab797f0b8277f3c352f394df5062380b399094b988int }, times(base(), 0x73eda753299d7d483339d8080nat)),
{
    lemma_negative_base();
    lemma_chain_double(
        base(),
        ExtendedPoint { x: 0x5f5b148569ddaeded5a3aeadc82951e821c09d7dc378066af0c9154fe20961ecint, y: 0xdb6b8504bd54131f6743c700017d3533395c7eecdde06728be6714afd1fb30int, t: 0x4bd50d91a90f7198a887321f19239f50711a9f76aafef251ab5cd2b2aba8d7d9int, z: 0x7229ce0f2637733dbbe45a2e1fece01a17a01c177a5180d0605c30ed9bd817c0int },
        0xe7db4ea6533afa906673b0nat,
        DoubleWitness {
            xx: (0x4e6f1bd7a805cbdd948432e405917b9ce9775985b69ab4196d5f440ffcc4127aint, 0x4e4c9642a08d9397f1b9b57469c61f791e7ad100987db039a76c874ebb489f16int),
            a: (-1, 0x25a11110890fe9b0418022939fdbb88c3542d3026780abc5589378b044b760ebint),
            b: (0x19f4d0472353107cd8950eea9dae17b7380bfd2724e29fc6390a0a79bef82int, 0x207245164e5e5b5671c172289927d466f40489956d12dbef70290009133b397eint),
            zz: (0x706cd5f1a8f4d91957e214c823b71b9b28d1c675aee64fd356f3fbec3e09d9d5int, 0x6c352c16c43644b37f2d9a3677828ee20b5c574fd6e39e09eef93a93582a362bint),
            c: (1, 0x647cb0da5ecf0c1ecb215c64e56345bec2fb0a9cadc8e014ddf27527b0546c55int),
            dif: (0, 0x52ecbfa3ab18e59cfbeb06b06b3e425413e496cfa6dcfd5e86a78a7317c276dint),
            xy: (0xb47b5d7cf6ebad1c3c3409d784f92eef475ed689c5ae82a6e0f082cfa4f282int, 0x17366ba990278ef575bb820adce4d17f14b820307b6682c77462e1a20acbcdbeint),
            e: (0, 0x2e6cd753204f1deaeb770415b9c9a2fe29704060f6cd058ee8c5c34415979b7cint),
            g: (0, 0x46135626d76e4506b34194bc39038cf329475c97d49387b4c8bc78b957f29a69int),
            f: (-1, 0x55844c9fa23cb6301b5a105f5d421f39ba09f5fe26c9039eeaca0390a79e2e15int),
            x3: (0x223f15a5ff5e3ebe43436d296919edbc0e3172d3d05ed34faf0f2dcf95ea7380int, 0xe7e09da453f8eb6767f0b2953099c46e64a7f47feb447d16a37a9e747fd95acint),
            y3: (0x322033e054de14636169b7bf2bf8fd4a85cced62f678597a80f720f2f6bb4c6int, 0x6c2d430680563d54429a141fa7fc1fecae5ed1f18f896313d8b9e1971c4208efint),
            t3: (0x21355b2ec2c4257f9ccf9531a14f5781bb129fbac7dbee5050e80e6727bbd6bint, 0x69457d64876e5b649969d7e5d11ee2ea54a94ea21eb10c4a2f9dc7e1e3d15a61int),
            z3: (0x33b14d11b44ff950e90eef01c438709aa32a489d07d0db9ba722870b902d04ecint, 0x223a3387037571079e2174ae587ba1089a80b4286ca217feca1553680a4683b1int),
        },
    );
    lemma_chain_double(
        base(),
        ExtendedPoint { x: 0xe7e09da453f8eb6767f0b2953099c46e64a7f47feb447d16a37a9e747fd95acint, y: 0x6c2d430680563d54429a141fa7fc1fecae5ed1f18f896313d8b9e1971c4208efint, t: 0x69457d64876e5b649969d7e5d11ee2ea54a94ea21eb10c4a2f9dc7e1e3d15a61int, z: 0x223a3387037571079e2174ae587ba1089a80b4286ca217feca1553680a4683b1int },
        0x1cfb69d4ca675f520cce760nat,
        DoubleWitness {
            xx: (0x1cfcbd982e479de22dc09f7c255472a7315c7231bf8d6b8c92917d6146160edint, 0x3c466f9baa91dd92a116d86293f9ba3053d863787d4c5dcadaa021b581184aa3int),
            a: (-1, 0x37a737b77f0b9fb59222ffa575a81dd4ffe5408a82b1fe34255fde497ee7b55eint),
            b: (0x64f18e5b2cc9407f62a309461cf7657979ed2e65a7645a5be7beaeb2f1d93224int, 0x68d7c9eb53eee81b82d1c80e869a3f3ba8de6d9c31dc0357b041ae5ff1b29cfdint),
            zz: (0xa1b00b3a79b2a3b9ede4ddc51592007d37ebeecd0d1cb7243a312b85ac17cd3int, 0x41f48bca9204764f553488675d3b3acf0a105f0a4c6da9ac1941c5a0c1c9238eint),
            c: (1, 0xffb7041fa6b6f56772f38c6b0d49d98c0631a1198dcf75932838b428392471bint),
            dif: (-1, 0x42bd151f54ba34e2428b0f9ef8afb69eaac476f150d456db751e2fe88d351862int),
            xy: (0xd85f7a2c974d4bad42de0491227f11c379f688401602204797ee2eeda74fa25int, 0x1b69cb38f2aaccfd734b95632acdbbc2bfe2009d2aeb99d20228b095ae4f216fint),
            e: (0, 0x36d39671e55599fae6972ac6559b77857fc4013a55d733a40451612b5c9e42deint),
            g: (1, 0x2c915a4fa95d0a88e1baefabf2a0850b55060a23b48fa58cd5a18caa709a525aint),
            f: (0, 0x1c95ea0daef19b326a8bb6e541cbe77294a2f0121bb2ae33a31e0167ed080b3fint),
            x3: (0xd84e4fc2c7bd0480e006bd1f038f05957e0fa35154d2b2cf6ae279b10a43003int, 0x2e36e230f47577aef5ecf7cdaa3ba0ec3fff79201f9a6ca5e936fd3a241dce9fint),
            y3: (0x19a83b8f4bb4531eec7abc32f81acd6d3e1f6adfbecbbe8a91423b055730da9dint, 0x68e0ed3d2943346262b7ad64801ee3f7dfbbd60e186e1cddbc9ea43da3d1bd7int),
            t3: (0x1f902031ea4b572b4c2488f3ba7eb603718943663f65144dafdeb4dd14eae8d1int, 0x2dbecd97d9a1ae4aaaaffc42a3269aa5485a978c309c4641f7042a0453e5802bint),
            z3: (0xafd514edd1244e328df640faac46981499b0fb73c4bd11f2103733c357a6ed1int, 0xfdde6c4286774d8ddaac420365390c6d2631d06cc284781a4cbcba306d9b355int),
        },
    );
    lemma_chain_double(
        base(),
        ExtendedPoint { x: 0x2e36e230f47577aef5ecf7cdaa3ba0ec3fff79201f9a6ca5e936fd3a241dce9fint, y: 0x68e0ed3d2943346262b7ad64801ee3f7dfbbd60e186e1cddbc9ea43da3d1bd7int, t: 0x2dbecd97d9a1ae4aaaaffc42a3269aa5485a978c309c4641f7042a0453e5802bint, z: 0xfdde6c4286774d8ddaac420365390c6d2631d06cc284781a4cbcba306d9b355int },
        0x39f6d3a994cebea4199cec0nat,
        DoubleWitness {
            xx: (0x126c562f87d23d89369473df02f0f02728e11dcd91464fcca65d72a5b218361bint, 0x53dafa2b8a0926b28894c8cb9df7d1cc434d059f2c39d31f1cf0f167cb210a6int),
            a: (-1, 0x6eaff7b070fceadd0ab08b7b4fc25ae88f88d3a90d3abecd0e30f0e8834def5bint),
            b: (0x5ee1d1eeb62868a146d30cc60bfc36bfb9f3395351677a5aa16fcec7acce59int, 0x1e19f012b13cc2ad4b735754057645a632cd7b2221babd8eab971f14abd04038int),
            zz: (0x22bf10ee70878b0f55cedf6f65c90d5ee888ea68604a2b2f00b679df6ae149fint, 0x1f7835cfb6311e4fc2d8027f91fb1bb6dac1b5959d4956ea5342c6c8890be59aint),
            c: (0, 0x3ef06b9f6c623c9f85b004ff23f6376db5836b2b3a92add4a6858d911217cb34int),
            dif: (0, 0x5096079dbfc0282fbf3d34274a4c15425cbb5886eb80013e6299d1d3d77daf23int),
            xy: (0x29cf38ec66a2df774f51504a0089350c5accbfc5fe9aef7b59a64e31d1b4889int, 0x1ec3ff4157e2a8601a1062fbf013e07ee737832c172e61d8dd8217f3fe9b0400int),
            e: (0, 0x3d87fe82afc550c03420c5f7e027c0fdce6f06582e5cc3b1bb042fe7fd360800int),
            g: (1, 0x18dc406ff89c304222ea0ac74b96c8896e98aac82ef7205cb9c80ffe2f1e2f92int),
            f: (-1, 0x4dd97c23b5d770ead073ddd0314269210cd2e39ff462ce871342826c1d06645fint),
            x3: (0x2951f69a49f68accd84a5859eb84388377a24000b802486f300fa146ccf5842dint, 0x28ae3d3cff1f357cf23ba3a87f0205c4d506849ae4b51f876024b712753773d3int),
            y3: (0x11480693d00eee5d74fd3fde96fa73419a5ace5c43d3fdc8e5b2132b31163631int, 0x3b2341edfb8963ee9aa8a7e586baa692ac93fc96f479bcf38a55d802bad918c5int),
            t3: (0x2ac5ca88303de4bb8bb00907edd7f3b0bf2b905d99a161f487309a1b284a5a99int, 0x2588a70e725322b08d5ca1b6ee6b53f1ead442f22e0d8274e16b7f674d90bd67int),
            z3: (0x10b1cbf55dbc87d9ccec175f5535c456a05b6cc211253d8bae9e47c76cf1f175int, 0x2df9d8ae7d82ecbedef9bb9d4c3c305b78506fc8aac3f7a34fa49f198142bdb9int),
        },
    );
    lemma_chain_double(
        base(),
        ExtendedPoint { x: 0x28ae3d3cff1f357cf23ba3a87f0205c4d506849ae4b51f876024b712753773d3int, y: 0x3b2341edfb8963ee9aa8a7e586baa692ac93fc96f479bcf38a55d802bad918c5int, t: 0x2588a70e725322b08d5ca1b6ee6b53f1ead442f22e0d8274e16b7f674d90bd67int, z: 0x2df9d8ae7d82ecbedef9bb9d4c3c305b78506fc8aac3f7a34fa49f198142bdb9int },
        0x73eda753299d7d483339d80nat,
        DoubleWitness {
            xx: (0xe467ac41bc8b405833f801f2b30d23a4f18ab6bf44792acec5f2e93ed5bff13int, 0x4ef4b329ad9946536de4e22776ecd04a7a9233095adbfce4cd64800ce9b540d6int),
            a: (-1, 0x24f8f4297c0436f4c554f5e092b507bad92b70f9a5225f1a329b7ff2164abf2bint),
            b: (0x1e2ae2abc6c5bcc9a8f54b4051e9e199f8bbbd2235d2ff087890662429878745int, 0x678ca9ca6af7119bd877d5ca7c137f3a00354af466793e93555a244e1ad80054int),
            zz: (0x123bcc38efb46786a824664bfa50618c56eb6a7dd0205d2452bf91f98d94b909int, 0x15b26d639f1d735b956a94fe4db24c42ede8467b2a0ac92ae5d657cc4469f6a8int),
            c: (0, 0x2b64dac73e3ae6b72ad529fc9b649885dbd08cf654159255cbacaf9888d3ed50int),
            dif: (-1, 0x3159f1b23aaaa2a12016f81e204360862cb3ca083ea77c85dd415ba2fb72bed8int),
            xy: (0x14c08b5722b91b1e7f2d0566f14401cf2dec028b946df182d972508220823e64int, 0x831be9e748ef21b1cae0a3976e6a814ebd44f9b725283e433821fe1c1e0aafbint),
            e: (0, 0x10637d3ce91de436395c1472edcd5029d7a89f36e4a507c867043fc383c155f6int),
            g: (1, 0x1897f6a0bd5dcb486a92f3a30526aeef85a317eb0b9d41ae87f5a4413122bf7eint),
            f: (-1, 0x6120c32ca8c061d972f7a1ae7363ee6efd902ef7b7860b57bc48f4a7a84ed22fint),
            x3: (0xdbb18edb693d0e4e6aad2126940e8338e1b0ae140237dc7e8de6378782e2a90int, 0x1ce785ce6d7248c25c3a43cebc6504ca4a7885edce8b13eabfac6edcf1c8699aint),
            y3: (0xa783a1f4757c16585a33d5e072b79a344051409b49dbfa2ac426da38081e88eint, 0x67cbd095ec6e6aeeca83fa663f9446b534409b5d9df30179c2ac5f598f0b2dc2int),
            t3: (0x6fa0b19d87fd40526bed8bd48d50a68a7b4e3f904b7f3b52847bf5c0fdce896int, 0x5822ae1691aeefba62bb491293a68e6ed6a1e14699329db5d1a2507129c32faint),
            z3: (0x149aeed7b434ebf909d3894ee374df226f3e5d0fd19d7db8398a9b3e6140b512int, 0x21bba66a724392f87fbadcc59ffdd9da1814c602039b53620247858d2d99cf10int),
        },
    );
    lemma_chain_add(
        base(),
        ExtendedPoint { x: 0x1ce785ce6d7248c25c3a43cebc6504ca4a7885edce8b13eabfac6edcf1c8699aint, y: 0x67cbd095ec6e6aeeca83fa663f9446b534409b5d9df30179c2ac5f598f0b2dc2int, t: 0x5822ae1691aeefba62bb491293a68e6ed6a1e14699329db5d1a2507129c32faint, z: 0x21bba66a724392f87fbadcc59ffdd9da1814c602039b53620247858d2d99cf10int },
        0xe7db4ea6533afa906673b00nat,
        SumWitness {
            a: (0x248234276ecf9ee0363f219c1178d8b3a8da2edcf67c9cfed86f6530b834d6bint, 0x636683a9c2c18c85e509fcc24b64ea8001999d37fcdcae2a18534e0d8ffc6583int),
            b: (0x4e755666b7c5d37e08dadf850d99c7b08d16305b62487b3da531fd9a98688670int, 0x4be292f5ce4d1911eb41819ff7f60690cd9d9c3a058dcccc874330d1366e37f0int),
            dt: (0x205e20d637e6e106ce57adb8b476564e1a075afb47bc38de7b8ef39f12963fcint, 0x6b2053d8f35b8fcfdc6870af6e8ba30f5f5204fc93f457ecddd3827b17f666deint),
            c: (0x4ec146e09d210a50b331bf5f7dfb1c81e0068e57d5d101e280c29081da6cd93int, 0xe0170ce4a2b0a783b231a4f38ab1556a1bd5b2d43b88396fbca80111f67b4dbint),
            zz: (0, 0x21bba66a724392f87fbadcc59ffdd9da1814c602039b53620247858d2d99cf10int),
            h: (1, 0x3b5b6f4c6771284f9d11a65a39b9190b7b79956f026c1ef79f967edfc66a9d72int),
            s0: (1, 0x10c5af1130433668f384662cf257737a2afb7d486c7fb9658258ce3780d3975bint),
            s1: (0, 0x60c7d6918e437d8827d3dfcfe8923870431f0f21be6a05e37815793fb5885c83int),
            ss: (0xe008093d5852feb75972f44c86d1737eac2aa145d621d816499e5ab6f140531int, 0x50ecf0fd45da260eecf94ce716aa2f96863653b18d684cab3cace50946ef2260int),
            e: (0, 0x159181b0de68fdbf4fe7a68cdcf1168b0abcbe428afc2db39d166629808484eeint),
            f: (0, 0x13ba359c281888804497c2766752c48376576ad4bfe2cfcb067d057c0e321a35int),
            g: (0, 0x2fbd1738bc6e9d70baddf714d8a8ef30b9d2212f4753d6f8fe12059e4d0183ebint),
            x3: (0x3ab9681803e8b7fa7a29a1c0a54d1c16ef2ccaadf3015793bd2e77f2f89727dint, 0x1735184bb4f490efac3f53bcba977ff9ff9aeaf68d53f6c64bdb4b11dbe23ec9int),
            y3: (0x187164fe1fa09e39aab33241a7aafc4754d1bc0346902254aabfc11322b99bcdint, 0x1de1cbb9cccbc7543d39733306b194c2ba11de0f9468d167807f12cf772841d9int),
            t3: (0xb0b199716f4855af280dac3d157ef8f79110555f62ba826532d7b955596ae36int, 0x54f99b5fb1eaf6afe01f3b279c7931d5baf8a16a44622681fbf0c9ee497e79c6int),
            z3: (0x81fa5d6e54d88d471c9e8c25f3415689b93e040a0f23f194460ddc1c47f0056int, 0x2e0a647b5c62f7e2de5833d38170070bf17fd0cc9a773188ef9afc82f21d2d51int),
        },
    );
    lemma_chain_double(
        base(),
        ExtendedPoint { x: 0x1735184bb4f490efac3f53bcba977ff9ff9aeaf68d53f6c64bdb4b11dbe23ec9int, y: 0x1de1cbb9cccbc7543d39733306b194c2ba11de0f9468d167807f12cf772841d9int, t: 0x54f99b5fb1eaf6afe01f3b279c7931d5baf8a16a44622681fbf0c9ee497e79c6int, z: 0x2e0a647b5c62f7e2de5833d38170070bf17fd0cc9a773188ef9afc82f21d2d51int },
        0xe7db4ea6533afa906673b01nat,
        DoubleWitness {
            xx: (0x4a555365d416db20ecc5eed5534b6aa7476d367ab79e334f70bdc7d2d074598int, 0x89fddc9755f6841efb7af01a6b1fe83019b199772847c2e994652ba342b439int),
            a: (-1, 0x7363a976924786c4143e5d17ef36b81d23a3f26988d6143c166b9ad35cbd4bc8int),
            b: (0x7b3d53d773a54cb9f84edc129d5d2d61d1074216e85bc902e25f761af8cf524int, 0x4a3e9695c9fbe399216bf94d1a528443efbe3a12d9f7df416a88723cb332f4cdint),
            zz: (0x1248ee54fcad40243128088d737b2b0a7cd9cfa6b4f8d2cf534aac806be98d0cint, 0x29f89482f4b4f3796a7bd88b350cb044fd9b416f7bfa142917e78bd004760695int),
            c: (0, 0x53f12905e969e6f2d4f7b1166a196089fb3682def7f428522fcf17a008ec0d2aint),
            dif: (0, 0x292512e0c84ba32af2d263cad4e433d933e5b856aede34faabe32896a98a56fbint),
            xy: (0x5fb64b5e0223e4f836fa7c99337b4d30bb8a9da7f00da21f1eabf1738b0b31bint, 0x6778618828bf5c93c2af507d6df8b6e26aa62c743bddbaf9a3ca8c0bda6f8e46int),
            e: (1, 0x5b031bbd27e13bdf5224c8f2d24f95bf818eb4e577bd19f447951818b4df1c8bint),
            g: (1, 0x49b498b932a5ed1502707e5cffe7645bbfa4887962cf977e80f40d110ff04094int),
            f: (-1, 0x69b1170672d9836a60b2a54e9f6fdbd7182ba99d6ad9cb2b5124f5700704336bint),
            x3: (0x52f9c6a820ff2cd03fe5f216dc752633482d1cd45523684a1b3bbf3c4d83a68fint, 0x1c676ad00325a74835df9e8026f717a9883ec35a21c78a84853456c2fd98f88aint),
            y3: (0x1a28c43f2b0b60b186efa8c4c6c2ac9fd499bb12810b94b9aae9cc39207c0c9eint, 0x643a80c73ac9befa055ae3b3621832f748ce35b43db434d8300ff456b98cfc7eint),
            t3: (0x204d39de96417c37765d4ce35198df66fff1f330ee3de5aa64f23cd76c45d74eint, 0x2939734ba62671c8f16c5be2af5a1d439319ef60f0582cb298c4c30203ffd6fbint),
            z3: (0x43327b801727cc17010f976b9c6ecdf83048221e9dcc92b0f32bb85de2602308int, 0x12c1a8f423188b4597fa65a76f4cca4965e4d1ebda68213cef3dfd3db23856d4int),
        },
    );
    lemma_chain_double(
        base(),
        ExtendedPoint { x: 0x1c676ad00325a74835df9e8026f717a9883ec35a21c78a84853456c2fd98f88aint, y: 0x643a80c73ac9befa055ae3b3621832f748ce35b43db434d8300ff456b98cfc7eint, t: 0x2939734ba62671c8f16c5be2af5a1d439319ef60f0582cb298c4c30203ffd6fbint, z: 0x12c1a8f423188b4597fa65a76f4cca4965e4d1ebda68213cef3dfd3db23856d4int },
        0x1cfb69d4ca675f520cce7602nat,
        DoubleWitness {
            xx: (0x6f597e20c5013670564f2b9411a97c40e51fcf76506eeb231cad62c2abee872int, 0x5c671f53d37d5f49bcde41baca5fcaea86f44cf8913e7d8873113216ae6cc1f2int),
            a: (-1, 0x178687ff56201dfe765b964d3f420d1accc9570a6ebfde768ceecde851933e0fint),
            b: (0x56a7a73e1f03451ae3d71c49aae60fdde1b132e7b3a23270ad31e9d2e867a8b9int, 0x4c844ab9fda09ab7bc10f3ffebb4613fcd0d569b856835060480a6215670a54bint),
            zz: (0x308e0f5eda4d60ebfbbf871f45fc9ef675fa9bfa0862efcf5df45306936a788int, 0x9acd955fa1fb6b9e7e341e300237c96e95de0cf3255b3672ea308480fc7808int),
            c: (0, 0x1359b2abf43f6d73cfc683c60046f92dd2bbc19e64ab66ce5d4610901f8f010int),
            dif: (-1, 0x3eefe498821d008eed847a555d2f83e05379a471e956056f886e27c5fb2298c5int),
            xy: (0x188eac184220397ad385859b17e63222030c2a8549974db0a5e0d416d5cf91b7int, 0x6ea7c811e978e5f99238b860bce20834fa8f6465444be6000f5ca4db359a9a35int),
            e: (1, 0x6961e8d0a9544eaaf13798b970223864a16124c7889970011eb949b76b353469int),
            g: (0, 0x640ad2b953c0b8b6326c8a4d2af66e5a99d6ada5f428137c916f7409a803e35aint),
            f: (0, 0x62d5378e947cc1def5702210caf1fec7bcaaf18c0ddd5d0fab9b1300a60af34aint),
            x3: (0x59d797b234322b5022c56d7526ce762da0790929ed331c2e3a8d39909e3ad9d6int, 0x4023ebc3408d30f9341e28d03f6ab048c9f2f20bcb8b2013c85b851e01fff784int),
            y3: (0x3650066d339f3b20848baa5ff0a8c9b4d1108ade55577d99ea5dede4574d34d4int, 0x139a6e49e493a3bb66014919f4864acec7a91e7318c25e67c8ea18cfb2a22f6eint),
            t3: (0x3936361ec21f3b29ec7b6e3a18ba2dff9c4c2ec9234b7c173da2b6283a81f0f3int, 0x1a01b940c5c27bce906f9959f2c37c5694d4425164f438b72dbe97d8c57fbbdaint),
            z3: (0x554a1ac965d6cbf4af6ede5051f6945189bedc99f265bee2bb41a90c290f7c53int, 0x3fae39ef815279d44700c9f8efe1560ac5378299458751a1ddb4c205662a9b1int),
        },
    );
    lemma_chain_double(
        base(),
        ExtendedPoint { x: 0x4023ebc3408d30f9341e28d03f6ab048c9f2f20bcb8b2013c85b851e01fff784int, y: 0x139a6e49e493a3bb66014919f4864acec7a91e7318c25e67c8ea18cfb2a22f6eint, t: 0x1a01b940c5c27bce906f9959f2c37c5694d4425164f438b72dbe97d8c57fbbdaint, z: 0x3fae39ef815279d44700c9f8efe1560ac5378299458751a1ddb4c205662a9b1int },
        0x39f6d3a994cebea4199cec04nat,
        DoubleWitness {
            xx: (0x237cbdc279df37c93ddc762af4946d6701ae7f795395fe060f0b652c34589c80int, 0x210b71c329b5d6e6e33282a188e95e686216eb9f8775518ecc566221dbef5f90int),
            a: (-1, 0x52e2358fffe7a6615007556680b8799cf1a6b86378890a7033a99ddd2410a071int),
            b: (0x3509b3f5ab424445410f2986b85781a702adcce186e39bc69d58c1d8435a568int, 0x4ac1a5e8b5ff402cb15bb8daad52e237903a6c6b1a421ee8774b5de383cbeddcint),
            zz: (0x22faf90d7023581fb531692ea5e35817afa22b01ec3b0f5da2f3f975d4a159int, 0x5df35b3daabf1a614527845ba2c9e9e75ac51d8160a0fed7d199a1a8d22a8b08int),
            c: (1, 0x47f90f282be0b77a571530af3bf1fbc961cc96ffc143a1b0a3334352a455160fint),
            dif: (0, 0x8208fa749e866349eab9c8bd3659765616c4bf85e46eb87bc5e3ff9a044b295int),
            xy: (0xad89340dc54a8a694dc98c7777883c5bf234d5197d920cc821c45a9adc814d2int, 0x3e8ff49a63119ea3161c6105e90d12d70815974a5b13e75826a6463b962d81e6int),
            e: (1, 0x93241e19c85bffdf8feea03c8784da8bc6d8a91b62972b14d4c8c782c5b03cbint),
            g: (1, 0x29b634258c496945ce293639246983cf2e2380cb92cccd59aaf4fbc1a7dc8e4cint),
            f: (-1, 0x55aacc508a062f13aa4ddd91f219600b20148dced18787a807c1b86e0387783eint),
            x3: (0x6cbb7c2830111c0b5f38ed8e9e31503e3db74984adfdf6bffdcf11a49bfa1a3int, 0x6dc3a5e74c1f0c8e70d346de4df82b43fddfc7e2c092def6430a08b27f1f7187int),
            y3: (0x2ec994a9db596b595af3e7edcfbd9e00928db28efbb6d16533e719ad8cb4345int, 0x2c3ced7a1c6a1d74476433b11c7837225a54973a2ca7d17fe1fd8b8981b466f7int),
            t3: (0xa50bc3035a1444bcbe401a574cb8cd33e40b04c02d4061ebe86a70fa9afa90int, 0x124ac69026210f1d6c2c9706e568268904a1ed31e7677abfb49030e700ed6097int),
            z3: (0x1ed2d64a841ed2c95ff118d694c7dabcb4ffad83f9d7eeafe32c47e9ff6110f0int, 0x1400c43396ac5ace1c76cf0b7e8f3351653b7a013e4e5d1063fb683df8d10578int),
        },
    );
    lemma_chain_double(
        base(),
        ExtendedPoint { x: 0x6dc3a5e74c1f0c8e70d346de4df82b43fddfc7e2c092def6430a08b27f1f7187int, y: 0x2c3ced7a1c6a1d74476433b11c7837225a54973a2ca7d17fe1fd8b8981b466f7int, t: 0x124ac69026210f1d6c2c9706e568268904a1ed31e7677abfb49030e700ed6097int, z: 0x1400c43396ac5ace1c76cf0b7e8f3351653b7a013e4e5d1063fb683df8d10578int },
        0x73eda753299d7d483339d808nat,
        DoubleWitness {
            xx: (0x67ed8c25165702230c4ad74b2200f9b94537044808be43b44c848dd7447fc53dint, 0x50c2d056a02001a8cd6035c7557909366b48a0eb1bf67f1c7e79bda25e8aaff4int),
            a: (-1, 0x232ad6fc897d7b9f65d9a240b428cecee8750317e407dce28186425ca175500dint),
            b: (0x10e1914deadab41fceb30dfcf17c9b9533cd270f30b3a5e3b3c365bfc0449956int, 0xebd65a2430fd32de20ec6d2c5a2f0312043814e1e1d008bbb54f0da227d28fbint),
            zz: (0x373919c909573b4d5c534115ac3abda60b16f386880929a3da5dedb309193d2int, 0x687e2bf58091c636b828a50ec5029d8b954b1b77cbdf4458d61f75693d7c546eint),
            c: (1, 0x5d0eb097d7860f253d17721580636311d6d892ec97c02cb2ac3eead37af8a8dbint),
            dif: (0, 0x146d715a466da87183cadb6dee85de9dc83181c9c5eadc56c63151827ef82712int),
            xy: (0x29e2c3a156cd21ca450aa2997c1b5ce7753d38ee465dcd666228d343d27979b6int, 0x531a16b07dce78c8cf0da8a5df73d08266df19bc3600e7b421e971e13604d98bint),
            e: (1, 0x3246860dd1ff74496ae17943b545c8ff7a008f756c03736943d2e3c36c09b315int),
            g: (0, 0x31e83c9ecc8d4ecd47e8691379cbbf0008b884660224dd6e3cdb3336c3f27908int),
            f: (-1, 0x48c7335a1ea4bcf03e0acf06030a33f3859d957c6a630cba909c486248f9d02eint),
            x3: (0x1f8fed9901f5e2599772ba52a8aa86fcb2ac79b185457e2f91b683a0383a063fint, 0x2e0a6f990fd6993b5bb36a0df7eeca38a269526d6efa7efcb5ce7d5b2a723787int),
            y3: (0x8cb46be0bce2adc9320d5ab9f4ca66c152c71175674e96e3490bd2ac213c87aint, 0xa8bca45fcecabaca7ae093fcfc1d24839d57654067ee24f5f2e258a2528f216int),
            t3: (0x8dbe3f41c2daaaa7812c7a9daa121f3223ffc8b8d05a8e7afe3bcb3ab73e158int, 0x3e4f1a3943c0a0b984d49a73ac0d7d6e767858470caede1e292ff30b39dae922int),
            z3: (0x1f54bc778243f0d8dea39c97d92ce69e8df9ef2c7d45e43ee352261eda21bfb8int, 0x5f3a313a0d54337e27381fd4c2fcb41fb4391d8c2671322eacecaa97568e7fb8int),
        },
    );
    lemma_chain_double(
        base(),
        ExtendedPoint { x: 0x2e0a6f990fd6993b5bb36a0df7eeca38a269526d6efa7efcb5ce7d5b2a723787int, y: 0xa8bca45fcecabaca7ae093fcfc1d24839d57654067ee24f5f2e258a2528f216int, t: 0x3e4f1a3943c0a0b984d49a73ac0d7d6e767858470caede1e292ff30b39dae922int, z: 0x5f3a313a0d54337e27381fd4c2fcb41fb4391d8c2671322eacecaa97568e7fb8int },
        0xe7db4ea6533afa906673b010nat,
        DoubleWitness {
            xx: (0x1248f729508e243567fd39f0ef6932515da5b7ee16ff283c3dda414bcb19c679int, 0x61613c18dc6cee02704bdda35a0f10e5feb3343c98e593918efa8255012d82b8int),
            a: (-1, 0x128c6b3a4d308f45c2edfa64af92c71f550a6fc66718c86d71057da9fed27d49int),
            b: (0xf599e6ef8afe19cc803b6fd8545c1d6f9c56f7fe1514f471dbc0707362d268int, 0xd0bf4837e4ab8edfc65b249d9f1243d60d9e7a7a373572540f34a36746ac77cint),
            zz: (0x4e390abf2048584471c277de8834efaeac7300aa3cede27d8060be7a089594ccint, 0x42978a320fb0b7d0623b24f245513fe60633cd2f2eb551afbe73ee8387427f74int),
            c: (1, 0x11416d10f5c3f258913c71dc8100a7c6b8a9f65b5d6c47607ce7dd080e84fee7int),
            dif: (0, 0x58076b6cee5d657c688481ad5a1a2e1f430881ec3a57148301233738a67b5cdint),
            xy: (0x43037b68afa95aa3fd0a584802e0efaefd7eb42b9189e96b9128b17687d2b1fint, 0x6af6cc7591270b3af6c56d3a4704f1208a90d0d617d115a7bbe529a265e9387bint),
            e: (1, 0x61fff197f8b0992dba51026c84680a3bc163fda92fa3cf5077ca5345cbd270f5int),
            g: (0, 0x1f985fbdcb7b4833bf53acae8983eb5cb5e4576e0a8c1f92b1f8c7e0733d44c5int),
            f: (0, 0xe56f2acd5b755db2e173ad208834395fd3a6112ad1fd8323510ead864b845deint),
            x3: (0xc1f3a741aec8168d598182c527fc8b5293802a50f1fb4fcb9b26fcd89378291int, 0xbb224529670de62ab98274da194ed168d9764c57506e0fc74530d52d3d07ae5int),
            y3: (0x17fdd2be5d60ca2112878a51686c59ce5c6f94984d1cb8c50d46ac814e39786int, 0x4b6541d2c0f3fdf11f978633f127a99a6d3bfcfe0e822a4b5619752c620ec33bint),
            t3: (0x4a6a4556719b6298a404fdcef08c5ba4cd087e7d70b2640925e89ea633f66e1int, 0x174225f6d6ee571a56fd65931bfd5d5f43c9611e989f1dcf48fde49522b54650int),
            z3: (0x3e87bc060680c485fa92d3251faf9031c02cbf63555c66586626d0f60c75a86int, 0x5b20eee7ad0707ed29e5318d10341ef08d902336daaa3583e6369c48737b6150int),
        },
    );
    lemma_chain_double(
        base(),
        ExtendedPoint { x: 0xbb224529670de62ab98274da194ed168d9764c57506e0fc74530d52d3d07ae5int, y: 0x4b6541d2c0f3fdf11f978633f127a99a6d3bfcfe0e822a4b5619752c620ec33bint, t: 0x174225f6d6ee571a56fd65931bfd5d5f43c9611e989f1dcf48fde49522b54650int, z: 0x5b20eee7ad0707ed29e5318d10341ef08d902336daaa3583e6369c48737b6150int },
        0x1cfb69d4ca675f520cce76020nat,
        DoubleWitness {
            xx: (0x12e1345c784cb6eb141c46da05e437a9751b4b8fdf9e93ed1bb01565a3aa38eint, 0x12ac818387f6472a893ba1b4236974e69d7b168a04eb335c4e48f34912e46d4bint),
            a: (-1, 0x614125cfa1a7361da9fe3653e638631eb6428d78fb1328a2b1b70cb5ed1b92b6int),
            b: (0x3108d45bbafa89696a6e94efca3bdf4690e1e873d3eead7870c231b0ef95a766int, 0x5409b78f79016077c603e59a10921969e020c7205dcef919d6fce502bc14833int),
            zz: (0x47a258f69391ba83f2d5d1c0f1c005220c6b2fab697a859093c5432e8ac10351int, 0x2da818e2f760e8c96b79520a8a74711a20d948ea0c828f74cd41206fd1cb5afint),
            c: (0, 0x5b5031c5eec1d192d6f2a41514e8e23441b291d419051ee99a8240dfa396b5eint),
            dif: (0, 0x5c008a56aa1720162d9df7fa452f418818408106f536391114473e65c15a4a83int),
            xy: (0x79b47b06b32ccbe7def2d9ce43fc76080fbad555d59a6ce1595b81979d5a839int, 0x4f7ccd97a47c82c8bfda49e79386c9c7e663c9e6267efcb98484465c8759198eint),
            e: (1, 0x2b0bf3dc1f5b88494c7abbc71d6bbb8a7909efc94cff9d7409088cba0eb2331bint),
            g: (0, 0x6681c14899374c25265e74ad874184b5544499eb00f018344f26db0618dcdae9int),
            f: (0, 0x60ccbe2c3a4b2f0bf8ef4a6c35f2f692102970cdbf5fc645b57eb6f81ea36f8bint),
            x3: (0x23f19fc1a113d40550e8e34e545424ca102bc5cd7bf192ee4e492b0470437107int, 0x5cf72e975bd611cb5f4143353f51afcd5f6e6611efea90c752144d0382d803a2int),
            y3: (0x5159c52cfc5285f44e39b0b4b424e4d29ef463fa886c1110fb3c412649c9b58cint, 0x71f8bc58a79e6f22b39cef241b21a1ff2ded390657efaa50da68564fe56ba9afint),
            t3: (0x222990e4c61cf1c8a9d5c2e12c1579bb21c3e7cbcdef0dbd758715f64031e82dint, 0x2debe61492afacd856acf1761796c3a49f28f9a061bc7ca8de61d4801a420ca4int),
            z3: (0x5597c763d76fda5bae2a27a7a24d8b5fc06555418236b96388ccd025ef88fed1int, 0x448ba144fca6caa7fa71aa530d873123c3d4d333e1dbdd90fadc2dc103a7e4b2int),
        },
    );
    lemma_chain_double(
        base(),
        ExtendedPoint { x: 0x5cf72e975bd611cb5f4143353f51afcd5f6e6611efea90c752144d0382d803a2int, y: 0x71f8bc58a79e6f22b39cef241b21a1ff2ded390657efaa50da68564fe56ba9afint, t: 0x2debe61492afacd856acf1761796c3a49f28f9a061bc7ca8de61d4801a420ca4int, z: 0x448ba144fca6caa7fa71aa530d873123c3d4d333e1dbdd90fadc2dc103a7e4b2int },
        0x39f6d3a994cebea4199cec040nat,
        DoubleWitness {
            xx: (0x4a8d1a431de3ede8a02b9072cebd9cf8783fd04d995e912c263a555adb6621fbint, 0x5113d6f702b4aece0c525b596a1c5a3e4828c309e79f88dc549b7062ce071089int),
            a: (-1, 0x22d9d05c26e8ce7a26e77cae9f857dc70b94e0f9185ed322ab648f9c31f8ef78int),
            b: (0x700c45cc24f2c4c348f6568aeaabc168a6c1cb7171d367b26a4ad5284f575915int, 0x5a53267779aff67971b50f4784b91bab30676f0e0e1d3f768b4a9cc90f6b2c8cint),
            zz: (0x288775d6ecce058ba2d7ea5931a2a846ba46f917940e311605374adc7f7ebf12int, 0x11282f2aea4c685390660c3ae2db24c60e83eb2eb3799d24bdd23a11d90accb2int),
            c: (0, 0x22505e55d498d0a720cc1875c5b6498c1d07d65d66f33a497ba47423b2159964int),
            dif: (-1, 0x3c745137d6d65548e86c456f246e3a212eeb15ee0a3fefab2019f2d2228dc2edint),
            xy: (0x5b657c0f6700ac3bdc49c1a824342d12d6c8a93d2e2186832db28fa44e67941cint, 0x687eb93a147646ef70676289ffa4c22235de6d031cc3559157a171c62c5ed9a2int),
            e: (1, 0x5d0fcb20ff4f1096ad94ed0bf5a7ac3f17ff360339884f23af42e38d58bdb343int),
            g: (1, 0x93f4f8076fb47ab6562b3ee1a9cc16ce83eac04267db69a36af2c6641641c03int),
            f: (-1, 0x5adc987dcbfff44c77d073805e884fe61ef479a9bf88d84fbb0ab8418f4e82a0int),
            x3: (0x48f07ce57140dfe6752645804d1ae473fed6d438abca6fec243d68dcddc55129int, 0x4047bd60d09b90da5e0fa48b1791b803c460d801a9cb2898572794a5f93cbeb7int),
            y3: (0x4d2819a49e6423ac27e185d7d10cf41e923881168611919e86320c0596fd89bint, 0x3ebd15d11cbdb8ab4c8970020504f986bb90f1ee065cf7d23cc47064e11f5c2cint),
            t3: (0x3087a4b74642679cfe2ad0ebeeb8a637e59f5fbf0fac60313c90dc41fbd28aceint, 0x2d2012bd82c305333aee9d8bb307a193b2153fc577f8ab4ecbdfeae78f8c3039int),
            z3: (0x73f70310321fceed2b0b9ccd2b645a1db13e663a7786fc3974a0d255a204e58int, 0x570531a3dfd8ce225b80d4ab797f0b8277f3c352f394df5062380b399094b988int),
        },
    );
}

/// The multiples of the base point, from the multiple by
/// 0x73eda753299d7d483339d8080
/// to the multiple by
/// 0x73eda753299d7d483339d80809a.
proof fn lemma_order_part_12()
    requires
        extended_valid(base()),
        extended_valid(ExtendedPoint { x: 0x4047bd60d09b90da5e0fa48b1791b803c460d801a9cb2898572794a5f93cbeb7int, y: 0x3ebd15d11cbdb8ab4c8970020504f986bb90f1ee065cf7d23cc47064e11f5c2cint, t: 0x2d2012bd82c305333aee9d8bb307a193b2153fc577f8ab4ecbdfeae78f8c3039int, z: 0x570531a3dfd8ce225b80d4ab797f0b8277f3c352f394df5062380b399094b988int }),
        same_point(ExtendedPoint { x: 0x4047bd60d09b90da5e0fa48b1791b803c460d801a9cb2898572794a5f93cbeb7int, y: 0x3ebd15d11cbdb8ab4c8970020504f986bb90f1ee065cf7d23cc47064e11f5c2cint, t: 0x2d2012bd82c305333aee9d8bb307a193b2153fc577f8ab4ecbdfeae78f8c3039int, z: 0x570531a3dfd8ce225b80d4ab797f0b8277f3c352f394df5062380b399094b988int }, times(base(), 0x73eda753299d7d483339d8080nat)),
    ensures
        extended_valid(ExtendedPoint { x: 0x13da1a93425d5c550411fb2f2619180fcd418e53385cbdc58ed52ebdd6fb775eint, y: 0x42b82041201eb8e56b3151cd0f5fc8fd99b135a036aa7161a37ce353d543d9cint, t: 0x6c3931e75ae3f98cf5318c110832d6322d9cb9ec0b3732b7a3843053f9359c3eint, z: 0x6e8d409e74181c6b26c556354fd90b445902e179f58a679f4054d79e12f0f7d7int }),
        same_point(ExtendedPoint { x: 0x13da1a93425d5c550411fb2f2619180fcd418e53385cbdc58ed52ebdd6fb775eint, y: 0x42b82041201eb8e56b3151cd0f5fc8fd99b135a036aa7161a37ce353d543d9cint, t: 0x6c3931e75ae3f98cf5318c110832d6322d9cb9ec0b3732b7a3843053f9359c3eint, z: 0x6e8d409e74181c6b26c556354fd90b445902e179f58a679f4054d79e12f0f7d7int }, times(base(), 0x73eda753299d7d483339d80809anat)),
{
    lemma_negative_base();
    lemma_chain_double(
        base(),
        ExtendedPoint { x: 0x4047bd60d09b90da5e0fa48b1791b803c460d801a9cb2898572794a5f93cbeb7int, y: 0x3ebd15d11cbdb8ab4c8970020504f986bb90f1ee065cf7d23cc47064e11f5c2cint, t: 0x2d2012bd82c305333aee9d8bb307a193b2153fc577f8ab4ecbdfeae78f8c3039int, z: 0x570531a3dfd8ce225b80d4ab797f0b8277f3c352f394df5062380b399094b988int },
        0x73eda753299d7d483339d8080nat,
        DoubleWitness {
            xx: (0x23a46b79b05f52991de780f3f40378461d0f6c6db7375d04ceff0733b514e5e7int, 0x8362dbb09e8b34a07be5d2eaefd4b6040e036e08e4ac351db5088033cc740eaint),
            a: (-1, 0x6bb779981fb4c9fe2b7b7ad95aa48ca512dd6d2271b398ad24af77fbc338bf17int),
            b: (0x21f40287b380b4bfecc498a89d1965788e42cb53aa4c9f916f42448de2da2621int, 0x100f24684ee1b2b32350565e2cb076b7f16d869a4ea5e7434e1687cfe8fd816fint),
            zz: (0x41521f70558859d4c6ee3dc2a7720ef839b43cb267b14fa1632d5524750b61ceint, 0x23bc397d3dd1dec009cbc1075131f1159163ecb946cb62ccd932025996aa7672int),
            c: (0, 0x477872fa7ba3bd801397820ea263e22b22c7d9728d96c599b26404b32d54ece4int),
            dif: (0, 0x5ba8552fd0d3174b082b247b2df415ed216fe688230db169d698f02bda3b3da8int),
            xy: (0x22c9973df34a3fef329fcbcdd9ec0e3e28728372ba90112c36861a7525d3d0f0int, 0x4be04ee3e42c705ab14d6fa9982d7d2d9abea8db1ab86b5ddaf50a09744fba84int),
            e: (1, 0x23d2f6749ebb636d2f61074b26b92255e1bfadb335727abcb5ea1413e89f7507int),
            g: (1, 0x7d8f6ad44f8ff691b91f92f7db32b57b08d4fb9c05b23f172c5ffccac364085int),
            f: (-1, 0x344e2b05f2f2bf313b344f28e4f12131e1831a4a32c2ba56c061fb187ee153a2int),
            x3: (0x1029d16e7ae2b777e154772169e40d67af8b72434fc7f765d433b0d32a0f9041int, 0x23b3982d14171b62d8f68ac3fedcf9a226b3dc3110526a2e88d4cdda0af0c32dint),
            y3: (0x6345dd122a53a98ae8298877077123b34775fef710dc72bc4ce1404e1d4aa91int, 0x5a77fcd9ae04bf1871d4fe9729f2227e978b8b347057e833224da3af2fcc5db7int),
            t3: (0x1c52ed7e5c077abb1d5c26c673306c964204194db53ebabded11bd4378e8e49aint, 0x5a0cc145ec43c54063639c0b4db332333cef85563fa69f292f92b16a1d3b92feint),
            z3: (0x38a6b0341fd5135be39606b67bdd4624cdbeece1abfff5c953fcf43607e497cint, 0x21c0305a260e5953c453f5d8759dc2522909b376358ccbf9b6dd387b5ba6a9aeint),
        },
    );
    lemma_chain_add(
        base(),
        ExtendedPoint { x: 0x23b3982d14171b62d8f68ac3fedcf9a226b3dc3110526a2e88d4cdda0af0c32dint, y: 0x5a77fcd9ae04bf1871d4fe9729f2227e978b8b347057e833224da3af2fcc5db7int, t: 0x5a0cc145ec43c54063639c0b4db332333cef85563fa69f292f92b16a1d3b92feint, z: 0x21c0305a260e5953c453f5d8759dc2522909b376358ccbf9b6dd387b5ba6a9aeint },
        0xe7db4ea6533afa906673b0100nat,
        SumWitness {
            a: (0x2d180e977bbafccba69357e01d4db61b0414324959572593bbd6d27d06dd187int, 0x207e4ba033dae8a64cbe154498409d86fbd8fe002642bd8b448ec29f2624d110int),
            b: (0x44626025f4fbbadb42678fca1a10b1e4acd0963416d3698574cff722799e7ca9int, 0x1a4939ed49099383a333b8c3936a447228f1f5c9abaefd8b6c540b4217f378a7int),
            dt: (0x21121ba2373f028c1c338e194c94a065a8b6dac6bbc27a8ba3682b01ec89e469int, 0x4bbd9cea5dc4a5d52658223d89232a64b8890f6d5b2e5a336dd0f627e6d84135int),
            c: (0x37ae794338b69d9f8914d8d3daa6f0ed6c977dc3305655b7fd2da7cc258b94dint, 0x19ddc400c36b4132699a34e8a68fd877d1205cca811932230311926d1cc2b800int),
            zz: (0, 0x21c0305a260e5953c453f5d8759dc2522909b376358ccbf9b6dd387b5ba6a9aeint),
            h: (0, 0x3ac7858d7ce47c29eff1ce082baae1f924caf3c9d1f1bb16b0e2cde13e1849b7int),
            s0: (1, 0xa3dedb3987e5d331791b1531f2d441b6a81c36280abf662ab22718a3abd20e3int),
            s1: (0, 0x60c7d6918e437d8827d3dfcfe8923870431f0f21be6a05e37815793fb5885c83int),
            ss: (0x88cde4c3b3eefa31fe216555d88c9ce91579062691619f791f666f843876777int, 0x297703cc37bab5aaddc9c693c3a1aa7f38502f113e761707a5ab16edbaaa00b2int),
            e: (-1, 0x629d2591e473b6c92111d093a198a08b6742df4a6c82b7eff4c8490b7c91b6fcint),
            f: (0, 0x7e26c5962a318215ab9c0efcf0de9da57e956abb47399d6b3cba60e3ee3f1aeint),
            g: (0, 0x3b9df45ae9799a862dee2ac11c2d9ac9fa2a1040b6a5fe1cb9eecae8786961aeint),
            x3: (0x6b4f629c50662a756a896d132a9557dea314c4199e8dbea07b1472e1b971828int, 0x5b0f5eb67492b5ac972121776f908c18b231501245f84bcc2899705c062a8320int),
            y3: (0x1e3a4cd6f8867e295888cd034502808feb71dcdee77ff480b5d1aec1bc8206e7int, 0x347ad7da99fe12a80e52172c35e6de0119521c5a7994961f6ea7ae20affd6a7bint),
            t3: (0x3200193fef5dd5dadf9edab6c852244ec6ac9d1ae37f3e4cc71c8eff0877a579int, 0x712d6099f4dd1139b155049c4549b44e44dd33f777f631e9f0ac2babc08004abint),
            z3: (0x40dfd3b9bea05cd0c1509e9dac9d5f84cb8892abf48eb080f20609ccddcf09fint, 0x4418555a687881cf0385125e2ce37f7d06c5d6ee9bd35fc22f6fc9fd000241a5int),
        },
    );
    lemma_chain_double(
        base(),
        ExtendedPoint { x: 0x5b0f5eb67492b5ac972121776f908c18b231501245f84bcc2899705c062a8320int, y: 0x347ad7da99fe12a80e52172c35e6de0119521c5a7994961f6ea7ae20affd6a7bint, t: 0x712d6099f4dd1139b155049c4549b44e44dd33f777f631e9f0ac2babc08004abint, z: 0x4418555a687881cf0385125e2ce37f7d06c5d6ee9bd35fc22f6fc9fd000241a5int },
        0xe7db4ea6533afa906673b0101nat,
        DoubleWitness {
            xx: (0x4786bee9e514c01bdf67bbfbec10c90bb20b2e6cfcad562823c95e45b0fe2fa3int, 0x2bfee198a6690b9cf498561f6ba04ea1f1de7c612a14ad04eae5159218ab945dint),
            a: (-1, 0x47eec5ba833471ab3ea181e89e01896361df27a1d5e9aefa151aea6ce7546ba4int),
            b: (0x17c1d95f5dc121199074d0f29a78191cf0de6a1a266e5b4e74f8db00c5205550int, 0x2a3793404603f595d338ceaa6cf76f6b22aba375d855da57e5b7bf7f0847c1c9int),
            zz: (0x27ff90828f60c60562797ce4a385bec67830f7812621668b95eded8735920bbdint, 0x70d42ebe7d2b97f712ad58c67387628644e2c9b1a388b4e8b244f85ce1d7289cint),
            c: (1, 0x6dbab629d0b9b2a5f220d984dd6ced073607ef6047130dd26489f0bac3ae5137int),
            dif: (0, 0x1db7327a3d307c156b68b33e310a19f83f33842bfd93d4a22f632aeddf0ca9dbint),
            xy: (0x2938e044720bffd010f38d646745a4c2896855b8e4bf2b2192b3b5439469adafint, 0x1e375510cd248eda6efffd6cef9f828feab6a11d543acdcff36e5ad672ee92b1int),
            e: (0, 0x3c6eaa219a491db4ddfffad9df3f051fd56d423aa8759b9fe6dcb5ace5dd2562int),
            g: (0, 0x722658fac938674111da50930af8f8ce848acb17ae3f8951fad2a9ebef9c2d6dint),
            f: (0, 0x46ba2d0f87eb49b1fb9770e2d8c0bc74e82dbb7672c7b7f9648b9312beddc36int),
            x3: (0x24de919deb5e68b1e0ee50a3681452785446167d4f563fe8c59ef5131baf5b3int, 0x111fa3e3140319de2e7373c9df6b8a881b8587d868f1cbeafea4db2968c524f9int),
            y3: (0x1d427d5fdcbb6a6737c020b9dbb89375f79bdade4c46f293bf38b41d2479e492int, 0x38e317379b6f7e7d8561e58179e0047b223a3829feef67298d9e85460439ecadint),
            t3: (0xf7d8e52cd35fc326a47b4b848f17b66f48e73bad9b9019c3b6547334542ba2aint, 0x49fa5e428497a1e1a9fa3b1b9284851a227327650ad8abae5b61b467b31f2acint),
            z3: (0x45a46571c53c801dc6898bc36c7aaf6d697398be42091fa100a450cb7789b86int, 0x5b67422f18d6b52f919444026778ea3c6344e483dde2fdf0e8f1763c676ba578int),
        },
    );
    lemma_chain_double(
        base(),
        ExtendedPoint { x: 0x111fa3e3140319de2e7373c9df6b8a881b8587d868f1cbeafea4db2968c524f9int, y: 0x38e317379b6f7e7d8561e58179e0047b223a3829feef67298d9e85460439ecadint, t: 0x49fa5e428497a1e1a9fa3b1b9284851a227327650ad8abae5b61b467b31f2acint, z: 0x5b67422f18d6b52f919444026778ea3c6344e483dde2fdf0e8f1763c676ba578int },
        0x1cfb69d4ca675f520cce760202nat,
        DoubleWitness {
            xx: (0x287802d5eda22f091e25a5aed2bc8296594465f19d0988fdfc73118630fb55aint, 0xf7b70605b9a4f5cb1cafa452269d79dff7f1216c0ffc500059927dfd98144d7int),
            a: (-1, 0x647236f2ce032deb816eddc2e7380067543e91ec3efe96fefa66d81f267ebb2aint),
            b: (0x1bea3d39c7ec50338b21cfc248607499de383f07dae00c6dfea9fd5fac238fbbint, 0x800aaa3b8ae6fb7d43a777842b5c08d3c6ea4043e3a2bd7e4b09f77fbb5dd2eint),
            zz: (0x48111391031f456866c5e553b677b124b14be4d10ad45348d7ac48381839a62cint, 0x5e8b0ac9f8f33f4eab3f970417734b62e65aca35d040ce4a2d455a9e350a4214int),
            c: (1, 0x49286e40c8490155234556002544bec078f7f068a08340955a8ab53d6a148427int),
            dif: (0, 0x5c718c4f1554be33ad34664aa4823fda17cfede800c46b2715b638a72ac8ddfcint),
            xy: (0x867176f0aa07e6e6013c6ade4e2049924e2948fb64a2220073cabb0d23739e9int, 0x43a1f559396c26f2f115012e5a9b32c8147733d5a9fa88d55513b758d8894e5cint),
            e: (1, 0x1356435f493ad09daef02a54ab948d8ad530c3a853f6b5abaa276eb2b1129cb7int),
            g: (0, 0x6c72e19686b19da355a9553b29edc0f490ad35f07d38c2d6df17779722349858int),
            f: (0, 0x234a7355be689c4e3263ff3b04a9023417b54587dcb58241848cc259b8201431int),
            x3: (0x5e2f4a5583d2594de21501488f65909ea569f9a0a98e2b6c877b81c518675f7int, 0x6847c59c3d19ce51634d3f8fa793c156d386e22c4a6b60c42f2b907a2627d510int),
            y3: (0x567aabb1ee83a88ed1b54122b9b95f42ac8ccf82396f99dcff3e68ded7468511int, 0x503030a885a1c54115770dff55653cf669e4f028f6b95880474148fcb0c3698fint),
            t3: (0xf6b70126f2a01d0b01d9ec7983997b0846a8173a5e4e83a0456a264646d5c35int, 0x2497c471bbedc952c61270cca607959937a486afa0d08c7bb8a59c357026e2efint),
            z3: (0x21038e8dcd6c0e7d24234a4b532a71b1b1d35c4ec4aa12e31beb3a94786348d7int, 0x5a3eb5c348cc77bf66960a83449615bf259eb99e4c724f19e8a37b867a94c001int),
        },
    );
    lemma_chain_add(
        base(),
        ExtendedPoint { x: 0x6847c59c3d19ce51634d3f8fa793c156d386e22c4a6b60c42f2b907a2627d510int, y: 0x503030a885a1c54115770dff55653cf669e4f028f6b95880474148fcb0c3698fint, t: 0x2497c471bbedc952c61270cca607959937a486afa0d08c7bb8a59c357026e2efint, z: 0x5a3eb5c348cc77bf66960a83449615bf259eb99e4c724f19e8a37b867a94c001int },
        0x39f6d3a994cebea4199cec0404nat,
        SumWitness {
            a: (0x83b6f2c5db040102877fab63af4436e5186c208125610376875afcf4864cf13int, 0x6c1f321d14650522e2593eb79211230e02ecccd9cf84626380ce4c63b4d2b51dint),
            b: (0x3c9d0779a16c98b43308085acebc7906033b87d5b87792cc7ca3df7eaaec036aint, 0x2b50f2322ae07be187293c996def07a769a49e3f79f8e37764179cbc6287e266int),
            dt: (0xd704e5183cf83e1545d9d23a2ca10de60b3c912d42b4aea44a2e906805aac6eint, 0x2eeb248b703d7d51a1ca75fecabd5db74707313700ae4095d7fb63e7580a1cd1int),
            c: (0x227e1d853cdc04b7f1aca5c4fdd8ded4f88f9eea7a3b9073d71bf661b07ba8cint, 0x20136621165299228808ee7a860bb5c26766afe89bab63e09c457e6fe33a827dint),
            zz: (0, 0x5a3eb5c348cc77bf66960a83449615bf259eb99e4c724f19e8a37b867a94c001int),
            h: (1, 0x23827cfc15a803bc3648a348f65e52b018d3c716497ee9dbe4e5e921175a9782int),
            s0: (1, 0x448a4ef1991e164a458a7586f3572647e9ae2e5241265d45766cd977d6eb3e9eint),
            s1: (0, 0x60c7d6918e437d8827d3dfcfe8923870431f0f21be6a05e37815793fb5885c83int),
            ss: (0x393835b5974d123540c0a1e3f840bfc62d82934471506bfa08ebc4c1de130056int, 0x3923e373f71c7f0a5c54612f5c9e192310e631466367ada117132c44a0bed284int),
            e: (0, 0x15a16677e1747b4e260bbde6663fc672f8126a3019e8c3c5322d432389643b02int),
            f: (0, 0x3a2b4fa23279de9cde8d1c08be8a5ffcbe3809b5b0c6eb394c5dfd16975a3d84int),
            g: (1, 0x664749135819399bb6520f5c0fff37c3947c583e81f56fb84e8f9f75dcf427dint),
            x3: (0xada7e2ec3f39539a5414bb7535876da13a68f424f55680601ebd1c0cab0e346int, 0x6f636fe9511317382d952bb848c765860469fbf741b5f25ce64b9fcbdbc103c2int),
            y3: (0x1f542312d69606fae582f2792a9f83033b2ae62f0e2f3e29bfdb46f313309d4int, 0x61c9c8dc36fd4f796106ce3a085a300f4d61a8077bb94eae22661e4b4d3674a6int),
            t3: (0x6a025b523100d2454496edca50e287087e31725d6011873bbbb753738c0b486int, 0x146104959b50642af7df3480f6e063f90571f05703b0d084f6dc093097a7707eint),
            z3: (0x3351f280b83d2e6a88976e0d8b9a78c2bea8f46e438b13a4a9ffbaa4964f04aint, 0x3b0ae1ea54a761ab6fa914c1a10491dd6c495034cd5cac43fbb044599343212aint),
        },
    );
    lemma_chain_double(
        base(),
        ExtendedPoint { x: 0x6f636fe9511317382d952bb848c765860469fbf741b5f25ce64b9fcbdbc103c2int, y: 0x61c9c8dc36fd4f796106ce3a085a300f4d61a8077bb94eae22661e4b4d3674a6int, t: 0x146104959b50642af7df3480f6e063f90571f05703b0d084f6dc093097a7707eint, z: 0x3b0ae1ea54a761ab6fa914c1a10491dd6c495034cd5cac43fbb044599343212aint },
        0x39f6d3a994cebea4199cec0405nat,
        DoubleWitness {
            xx: (0x6b06bc116075bc79e195d6064ea34e4e69ad6fd721453b2d466c4e1f11cf21f5int, 0x1ebdc63e748bbd1265a042f085e61cec298677a10e6177f9a79937684c2fd0fint),
            a: (-1, 0x7201caef4254c1770cdfd3d90143763691253c88ef18447f65866c887b3d02f2int),
            b: (0x527c92f8d7fcaa6e06bfb0fc2084426ac8cdef755ea62d81f33b6c9866a249a0int, 0x5cd06075d56ece79519c9e20783e6cb8bbdade39a5237cfe9837ec0ce08c9204int),
            zz: (0x1e120971e3dbfb4a5c2a143b90456a2b4b2ce4971a7e65b9d5cc0271b9107d9cint, 0x5d0297af3184ab64dacc3979c49aab3970906f79a85ab393c06040ee3375d48int),
            c: (0, 0xba052f5e630956c9b59872f389355672e120def350b5672780c081dc66eba90int),
            dif: (0, 0x15316a796ce5f2fdbb4335b88905097dd54a5e4f49f4c780cd4e807b9ab070eeint),
            xy: (0x5df56da1bc61e33fba3e654e894929536d6129dbd89f71d7690b5b0aca6aca15int, 0x798da3fa9fb7e6f032179a78e24842b00cee7ebd9de4aa14433ab7c4f5d8db7int),
            e: (0, 0xf31b47f53f6fcde0642f34f1c490856019dcfd7b3bc9542886756f89ebb1b6eint),
            g: (1, 0x5ae48411ee2612a82b4299f16fe00ae9f94276bf943d657efdbe58965bc994f5int),
            f: (0, 0x4f44311c07f57d3b8fe912c2374cb582cb3068d05f320f0c85b25078955ada65int),
            x3: (0xa639933b99dfb03e2617afa5c9f228846018521bf875e564449cb09bd476801int, 0x3341f38b0ce74548ea0ecbab79d50399f4c7bd008fc5e2b5aa609487e2921665int),
            y3: (0x109dc07ed026762fb7e06bbf05df3be5aaaf5e42aa156d1a0ea218b92ca0ab3cint, 0x91e68b04059a6d18c41693a6b6b289f4db8a4dfedb3b56c1e48265d2463008aint),
            t3: (0x2c7152fa05faec609f79bc303a2bb68b8dd96f09a43c90e39fc2a14e97da18eint, 0x29693ca206b14bbd72c967e7f921b3e45889f65103664f45532bf50b8c15feb6int),
            z3: (0x3e25ec53ae57a632de9fc3f0a810c41d10a410a608ba856c14899bde10fda48fint, 0x37618e9d2d27eeb214b5458b98e1250381c188a6deeeeadcb8aa0195c584c21aint),
        },
    );
    lemma_chain_double(
        base(),
        ExtendedPoint { x: 0x3341f38b0ce74548ea0ecbab79d50399f4c7bd008fc5e2b5aa609487e2921665int, y: 0x91e68b04059a6d18c41693a6b6b289f4db8a4dfedb3b56c1e48265d2463008aint, t: 0x29693ca206b14bbd72c967e7f921b3e45889f65103664f45532bf50b8c15feb6int, z: 0x37618e9d2d27eeb214b5458b98e1250381c188a6deeeeadcb8aa0195c584c21aint },
        0x73eda753299d7d483339d8080anat,
        DoubleWitness {
            xx: (0x16a9dc4b6495601e9ddd068662e7cdfed1bdbc85c65e672bce36542e097759eeint, 0x47c52d4873ef91d91a5e73e92f5b59e41ec96a51b56b172ad37faf2dd7b229ebint),
            a: (-1, 0x2c287a0ab5adeb6f18db641eda467e2134f439b14a9344d42c8050d1284dd616int),
            b: (0xb79f305111e06b7abab363f28fbc9427d8f33e4d7fa001079ba9cf4656b5fbint, 0x5249ccbe447acc740c63c6606dbb351b2ed37b43a8f598babd9e66dff4659469int),
            zz: (0x1a74e0bf7a2f459138db7312647dd93398131e463a71465daaa07ab26b2e6bf3int, 0xc96af8806c0d0736c7e9f8536d27dd99b27a1ae9ab11f797989af1956ccfeb1int),
            c: (0, 0x192d5f100d81a0e6d8fd3f0a6da4fbb3364f435d35623ef2f3135e32ad99fd62int),
            dif: (-1, 0x4dcc549f9ad09c433fb175c6762d210b59de6270a19c08186ee1e9f033e841aeint),
            xy: (0x4082836dfe585366bb7be98e053d109519dba86c589476656b28b8838eff490int, 0x387e95f498c4dddd531d12e3c57ae801b2bf5132734fb2d6783c49dc6df1de2int),
            e: (0, 0x70fd2be93189bbbaa63a25c78af5d003657ea264e69f65acf07893b8dbe3bc4int),
            g: (1, 0xa849f75d08b3a9af20552773e5fdb37100a10f1f38a818fea1eb7b21cb36a7eint),
            f: (-1, 0x6544e7b8eca716fc4c41eb74da5cb7892d787197be269e9bf70b597e6f196d1dint),
            x3: (0x62b3931dab03ee0740ab7ae3690a6639b54aace8cb2d8bc0e52a90bed2081efint, 0x38fa9de51ba73a4a6a78bb608ab2ee6ee8940b3fa45a87055531a1f1f302b745int),
            y3: (0x70efcf597fc849bc83a0ac11158cd5c663668298c0b7cc9aa44f927c5ff150eint, 0x578e1533091c9957d3eeeb6b7bece4168594b30908a8fe7aef3f752ee62d4a96int),
            t3: (0x4bd35938dc69b966b379ab9339a86a35139cf1764f995e184e84d33a204ff26int, 0xfc9f36ef4dd4e65fbdc9201515d02ba0a2039d694059604bf4add7838146412int),
            z3: (0x93023d047b90d6ed71ac6a9387aa7e6923214679a3bfe865739c439f80c2a70int, 0x7055535a67af4921aa703e5dea4d973c45a8d11f5e78be2a0b18dc51b4ec8bd6int),
        },
    );
    lemma_chain_subtract(
        base(),
        negative_base(),
        ExtendedPoint { x: 0x38fa9de51ba73a4a6a78bb608ab2ee6ee8940b3fa45a87055531a1f1f302b745int, y: 0x578e1533091c9957d3eeeb6b7bece4168594b30908a8fe7aef3f752ee62d4a96int, t: 0xfc9f36ef4dd4e65fbdc9201515d02ba0a2039d694059604bf4add7838146412int, z: 0x7055535a67af4921aa703e5dea4d973c45a8d11f5e78be2a0b18dc51b4ec8bd6int },
        0xe7db4ea6533afa906673b01014nat,
        SumWitness {
            a: (0x347b1c6942510175f24573787e32f3aa4fa4c14b08ab6d8a3a6177a92df168aaint, 0x2a78e79bccb06d14fb01b72dbad568f780d54a982745456b8d959dd878e03cint),
            b: (0x422e8dee863a1f2d12290d4039a33fb75d0835a46369e263af3aae620d262884int, 0x2ef6e2a4409b4390d819bfbd973f006cb6967cd722c9e386966bf9613edfe19cint),
            dt: (0x5cc67530b68b2808b6a9a0f7b857f96ca3307f7a32012d29f7e48d5dbd9cb02int, 0x22bec85716b32e89870811f8230844702bf9bf045aaaa1d1f8a884b73a23c170int),
            c: (0x212616e237f1bb08c5223322a7b487d539d409e692bbffd83280e221ee8c4bddint, 0x65c1e169da4e1cc170f315fad8b67dfd173359c93377153653d30f752464ba3int),
            zz: (0, 0x7055535a67af4921aa703e5dea4d973c45a8d11f5e78be2a0b18dc51b4ec8bd6int),
            h: (0, 0x2f215b8bdc67f3fded14c174c4f9d5d5ae175221baf128cc01f98eff1758c1d8int),
            s0: (1, 0x1c9b0bc4fb26565a0b2dcec3fcfdfa801a6b1a45ad05298144711721d93001daint),
            s1: (1, 0x4e7a2cab4d8fef627fa28fd19ba7c19a97abbf79df4db594e896ec1ba05d0dddint),
            ss: (0x135d4edceecafccc8248fb138a292a98eaf8f22fabca4dac5eb1267bb419b4c9int, 0x1c63ba5f0ba6e5a2fb8c36e83f0ba4a69ebffc04bc72ded587c1502426a1f669int),
            e: (-1, 0x6130062658dc6eed41b14d7b83b3a6d644664de60180120885c7c1240f493492int),
            f: (0, 0x69f93543ca0a675593610cfe3cc22f5c74359b82cb414cd6a5dbab5a62a64033int),
            g: (1, 0x2c3ca1ddbb6ada58e4597b58e372716c35e62b8f1b1d37e70560d4a0732d778int),
            x3: (0x58d78e1713d28d69e267554759e155beb0c0e4dc227628ffe4b3783a0badaa83int, 0x598e89ff5efe35dc62fd555eee923fd3aea979f58f3c5fca220aa13647b84e93int),
            y3: (0x11fbfe74dbca65f21cdfe9ddf7e974f63c5b724f0d468d951a341f9b1cd1114int, 0x5b2abb79f67cb1e81483ddd6348b2d09b4f7de8c1ef0cc00abc3105b8eca342cint),
            t3: (0x2782e5701edabf9bf7514f3ba5e375a640058eb920354e8cbcdf7bc7c32d1b8cint, 0xd996fd3a5a56f474f31de0a405c36a6f6095dd168dfcafeaa4ff408836951a4int),
            z3: (0x28702d293edf90e475f87854313012e09cb9382e60798c9c1dc595f7b4dc33cint, 0x4caa5e543e1e0c7ad964e76bfd47d91fbb3cac2d19c4457ebc1f9b0c518129acint),
        },
    );
    lemma_chain_double(
        base(),
        ExtendedPoint { x: 0x598e89ff5efe35dc62fd555eee923fd3aea979f58f3c5fca220aa13647b84e93int, y: 0x5b2abb79f67cb1e81483ddd6348b2d09b4f7de8c1ef0cc00abc3105b8eca342cint, t: 0xd996fd3a5a56f474f31de0a405c36a6f6095dd168dfcafeaa4ff408836951a4int, z: 0x4caa5e543e1e0c7ad964e76bfd47d91fbb3cac2d19c4457ebc1f9b0c518129acint },
        0xe7db4ea6533afa906673b01013nat,
        DoubleWitness {
            xx: (0x452f2d751d35ca8a7863ceff7658e435a15ca796d9a7500fabf3d07e79544b6bint, 0x3bee5634c66ecec1e7c02ba9490021b004a9f177084152d3258a47371c199cfeint),
            a: (-1, 0x37ff511e632eae864b79ac5ec0a1b6554f13b28bf7bd092bda75b8c7e3e66303int),
            b: (0x47b1c1a777f9e45a4845b1d4865d71d0f70c22960475bcd85a5ba2155ed61c19int, 0x37772fd978a26751450b8abda98a44f380b98b2e9dc461ac616e02e2d13bcb77int),
            zz: (0x32b345a3b91e63aa5d72c45a0863b2308f04ee1797cf4f2d57b1f007e376fcd1int, 0x6aaeac827b91f5d3783586719524ba029e60e9ee1fb59cc269f23a72faa98ebfint),
            c: (1, 0x616fb1b1cd866e5ebd3134db20a79bffe9042fd93f6cdd85d3e474e6f5531d7dint),
            dif: (0, 0x882144ea8c4735066e21a117177161ce5a275d59f8a77f7907b5e512aa978cint),
            xy: (0x466d9ac2e49cde312bb597e8d0f3df398923e83bad8c70116793559f83eee6d5int, 0x53f9f42ffbac10369ee6861a250988cbf25203c95b6a1c817df13e5fc9b2766fint),
            e: (1, 0x3406410ccdbaa3250a93342c4071399290e6638fb6d5dd03fbe27cc09364ecddint),
            g: (0, 0x6f7680f7dbd115d79085371c6a2bfb48cfcd3dba95816ad83be3bbaab5222e7aint),
            f: (0, 0xe06cf460e4aa778d354024149845f48e6c90de156148d5267ff46c3bfcf10fdint),
            x3: (0x64b6cd26bf32ec21592bb171bd7bdbba723bc80f59449d3b005fd9ac786314aint, 0x36681420f9373bb527ac2bdfa8b9deb5090096f47ff754927598dce29bb8b51fint),
            y3: (0x82e2ea2082afd09d7e61299df0f2606f7e8bf38d0521685eef192d6b6ee590int, 0x5380a4f618885cce38a850cee09f976367d27a056eb83187e29aa3ae3db07b28int),
            t3: (0x3d17166851ffcda98fa9896a1d4297b2d3352cc14f6869d94438009f734ea7int, 0x3d986d914c2dca4853081686940582767554c4c83689abfea3ab034558369535int),
            z3: (0xd7c7ee71de8715e9be8ba8189c421b899c8d5608309c644f8308bc9ed4940a4int, 0x17b31715a5217f39e4fdd102aef186949883ac8d19606b263055921fd30c4deeint),
        },
    );
    lemma_chain_double(
        base(),
        ExtendedPoint { x: 0x36681420f9373bb527ac2bdfa8b9deb5090096f47ff754927598dce29bb8b51fint, y: 0x5380a4f618885cce38a850cee09f976367d27a056eb83187e29aa3ae3db07b28int, t: 0x3d986d914c2dca4853081686940582767554c4c83689abfea3ab034558369535int, z: 0x17b31715a5217f39e4fdd102aef186949883ac8d19606b263055921fd30c4deeint },
        0x1cfb69d4ca675f520cce7602026nat,
        DoubleWitness {
            xx: (0x19889d412aa365754b4556390ce8344f7543fe4462c50e781f55c4942eb77e45int, 0x462ec88b67f520c55be5e127e86b8b8b49d759b13dd45cdf4257fd0537fd5b7cint),
            a: (-1, 0x2dbedec7c1a85c82d753f6e021364c7a09e64a51c229ff1fbda802f9c802a485int),
            b: (0x3c25798f6dba2899a1f3d28e77146be3147bf0a409d77f5aa9af3043aa1ba97fint, 0x64e7a4cd547a493d71addda6955ce3e2e1486c75b0041585742667f5f823ccc1int),
            zz: (0x4d85028b49871f895ad4c46f19b4fc842bf12b3ac7be4de8c1ce848fb69198eint, 0x7ef231da0cf5140a93db19044ecde3541fba2673f23fb44333d1f6be9fefb6int),
            c: (0, 0xfde463b419ea281527b632089d9bc6a83f744ce7e47f688667a3ed7d3fdf6cint),
            dif: (-1, 0x3cc4e14d96cb908d98dff141957b409c7c5b81df1224459949819b02cfded7c5int),
            xy: (0x273050c3429b0b86ed7fc723fc4c322abbf9a58eb948f2989399b8210fc14788int, 0x1668818e8f4083fdd3acc0620afb2ec1bb9d282d0c1aa2b4ee94ddd7ec70ea50int),
            e: (0, 0x2cd1031d1e8107fba75980c415f65d83773a505a18354569dd29bbafd8e1d4a0int),
            g: (1, 0x1eb8dc41ec85287815c7fc7eacf15857977112c4722fb8a631ce6af0c0267145int),
            f: (0, 0x1dbaf7de386b3e5000a0464ca453bc90ef319e778a4b393dab66c70342e691d9int),
            x3: (0xb7e4e4632ecf9fb3d981323de53f915edc611ed9ed479f2bb734c6e7aa15fbbint, 0x59816cedda220bf85198877397da5762143d81ca7942b2e27f71b6c98dfa7be5int),
            y3: (0x101ab89c7e0100f7bdc0a6b3de2f5f807c61080bec44932681d91e44a0a593baint, 0x22d1a60e0fbe0e6760927b71f3dfdbd97bba64a13576bb2bbe4152908ae6895fint),
            t3: (0x177e18b823f0cd52222abc5eadecf18dd7c455b222aa5e09f15092287d23beb2int, 0x58807167101d37ef7e7aac92ad4538c5692b1aa075c5a9b7ee8e8204d4f7406eint),
            z3: (0x7e0fa9c4297abbb4828b4f6acf4101565ddd53519dc8e4db69f39f796770c0aint, 0xc978b8f7e3a69531f7a8787505567dd8351175d4396bb6b833757879e450c73int),
        },
    );
    lemma_chain_add(
        base(),
        ExtendedPoint { x: 0x59816cedda220bf85198877397da5762143d81ca7942b2e27f71b6c98dfa7be5int, y: 0x22d1a60e0fbe0e6760927b71f3dfdbd97bba64a13576bb2bbe4152908ae6895fint, t: 0x58807167101d37ef7e7aac92ad4538c5692b1aa075c5a9b7ee8e8204d4f7406eint, z: 0xc978b8f7e3a69531f7a8787505567dd8351175d4396bb6b833757879e450c73int },
        0x39f6d3a994cebea4199cec0404cnat,
        SumWitness {
            a: (0x710d88e5a8d7d96eb24b8e8e60048485aacd488f5ce113cfb8170d1da37de33int, 0x3eee28c9eb0a67b4de3ba0dccafbe443128e0f4ca8b8b2950b43de93a319b00cint),
            b: (0x1a51ba2f8577ee9152d96ffa731b721fce0e04d21af2abcd69c62adac1f496faint, 0x1d2920615929fd2c6d461aed8225b8ce25bc823573cc4d1a1737e1c83a3355d6int),
            dt: (0x208090097a41acd3d1222d943b9575a3c3db8f5d99b747e0c892e06e9d27620dint, 0x15a3af67bd4e4ddcae793245e722313d6b62104615583ea173c832928dbece01int),
            c: (0xfe88e7e8f8aaaa155e0cf028ab958a4430cb69e5d4e1dc0dbe27bb0990eca5int, 0x168b653cbb3b9303cb391c8befe7441b78881581aecc81f39681a3f2934d3c14int),
            zz: (0, 0xc978b8f7e3a69531f7a8787505567dd8351175d4396bb6b833757879e450c73int),
            h: (0, 0x5c17492b443464e14b81bbca4d219d11384a91821c84ffaf227bc05bdd4d05e2int),
            s0: (1, 0x8656ba8c0429d177ef12add82185b363c3a4268aebb120f3db3095b18e10543int),
            s1: (0, 0x60c7d6918e437d8827d3dfcfe8923870431f0f21be6a05e37815793fb5885c83int),
            ss: (0x7026761e1bcfb7348cf821c378be54ceab6b818745b1955d1ac3de16f91ad7aint, 0x6548e27c5fab17b95685df322f0bfd3a080d9a35736ce93c3a383ce7541017cfint),
            e: (0, 0x93199511b76b2d80b042367e1ea6028cfc308b356e7e98d17bc7c8b76c311edint),
            f: (-1, 0x69f9cda5ec9c5397877b43036a0ffbc75e86a5de94c89576ecb5b3940af7d060int),
            g: (0, 0x2322f0cc3975fc56eab3a413403cabf8fbd92cdef2633d5f19b8fb7a31924887int),
            x3: (0x8678a613eae90567a9e47c90e8261144e7e3ab80ef5cbee0a29caf731d281bfint, 0x31eff1692fea87ed80257ff9921ff515466e935cd952de0f079c0480638fc721int),
            y3: (0x1be962dc951d53114a7545e24270554cb4621bb24f97cf548761971267260718int, 0x3ce3efdf823c58459cfa6814c242951e4dd21e3c2fb3fbd86eca0e769303a316int),
            t3: (0x74da5e54fa6fe183a6d9a6ef57743ef81c54561a0240e2a5d5f3ade2b3e8357int, 0x2b989951e31c74afcf6fb007e9ce9bbb49b039097c76209e7d5334e7999f0e3int),
            z3: (0x201eb7bfc4e332919e8d8773662a12cddae27f4090d772152151af20cd5cf0c5int, 0x249cb9c50c2d99f6d56618095c81ace5338e124faaad717fb34db5c2e4acf1dbint),
        },
    );
    lemma_chain_double(
        base(),
        ExtendedPoint { x: 0x31eff1692fea87ed80257ff9921ff515466e935cd952de0f079c0480638fc721int, y: 0x3ce3efdf823c58459cfa6814c242951e4dd21e3c2fb3fbd86eca0e769303a316int, t: 0x2b989951e31c74afcf6fb007e9ce9bbb49b039097c76209e7d5334e7999f0e3int, z: 0x249cb9c50c2d99f6d56618095c81ace5338e124faaad717fb34db5c2e4acf1dbint },
        0x39f6d3a994cebea4199cec0404dnat,
        DoubleWitness {
            xx: (0x1582cf5a72a02191788494aa34dcad8162c6aeed48db84339d02fdefabb02a2eint, 0xd14b05d45c0a4416f3d1c75265853f16166bad012652566c19dda01ec122813int),
            a: (-1, 0x66d8f6f5e3dcd906c3fcbb92e3498413f256e932ed9936983e6225fd13edd7eeint),
            b: (0x1ffb6eabcf81dc0931b90667b929064f41a4c34a88d69aa0dba4a873b2dfc7aaint, 0x3f33db0eafbdb1fc516f74b777393e1efd43c9d5403d67815f910cd6cb893e3aint),
            zz: (0xb9012634291dd977e3392f08a94f7fab80ce6a7988a22fd0656fa0dad66d8e6int, 0x1485fbd9e20747f531f8af8a73a85f88015c1528a3aeb3e5730a0684d5f3873int),
            c: (0, 0x290bf7b3c40e8fea63f15f14e750bf1002b82a51475d67cae6140d09abe70e6int),
            dif: (0, 0x27a51be7341f270a728d46db6c1045f4f5131f5dad5bcf16ded11926486499b4int),
            xy: (0x1a3aa87baefaf48e4cf276ff59ee64e5d69a86f31fa62baf69fb4bd09ce1466cint, 0xcc8ff10d4381441aa4addfe912ed80144cf8ba831adb995070c6e45c5a6d96aint),
            e: (0, 0x1991fe21a87028835495bbfd225db002899f1750635b732a0e18dc8b8b4db2d4int),
            g: (1, 0x321f2ab169fd0dbae232584250e0ea2d9bdd0f052dd8421a9df332d4df771627int),
            f: (0, 0x2f8e6b362dbc24bc3bf34251026bde3c9bb18c6019626b9def91f20444b8a541int),
            x3: (0xa7d4efc37414d7772a7b38b04203dcc78b11b6a592be557eba64c9874619476int, 0x13da1a93425d5c550411fb2f2619180fcd418e53385cbdc58ed52ebdd6fb775eint),
            y3: (0x1123fa8810a458b6b35ebdaf5d3877daacc81f23739ce4b76ab8af5fade0a4d0int, 0x42b82041201eb8e56b3151cd0f5fc8fd99b135a036aa7161a37ce353d543d9cint),
            t3: (0x8be9621f5ff91cfc1941a3cb741ec758498d90338d1a9dd86a6a0fae41cd4d2int, 0x6c3931e75ae3f98cf5318c110832d6322d9cb9ec0b3732b7a3843053f9359c3eint),
            z3: (0x148f9fa41d833004b1af03a6711ed8c44f343344b81fe3896809859cb39acb10int, 0x6e8d409e74181c6b26c556354fd90b445902e179f58a679f4054d79e12f0f7d7int),
        },
    );
}

/// The multiples of the base point, from the multiple by
/// 0x73eda753299d7d483339d80809a
/// to the multiple by
/// 0xe7db4ea6533afa906673b0101343b.
proof fn lemma_order_part_13()
    requires
        extended_valid(base()),
        extended_valid(ExtendedPoint { x: 0x13da1a93425d5c550411fb2f2619180fcd418e53385cbdc58ed52ebdd6fb775eint, y: 0x42b82041201eb8e56b3151cd0f5fc8fd99b135a036aa7161a37ce353d543d9cint, t: 0x6c3931e75ae3f98cf5318c110832d6322d9cb9ec0b3732b7a3843053f9359c3eint, z: 0x6e8d409e74181c6b26c556354fd90b445902e179f58a679f4054d79e12f0f7d7int }),
        same_point(ExtendedPoint { x: 0x13da1a93425d5c550411fb2f2619180fcd418e53385cbdc58ed52ebdd6fb775eint, y: 0x42b82041201eb8e56b3151cd0f5fc8fd99b135a036aa7161a37ce353d543d9cint, t: 0x6c3931e75ae3f98cf5318c110832d6322d9cb9ec0b3732b7a3843053f9359c3eint, z: 0x6e8d409e74181c6b26c556354fd90b445902e179f58a679f4054d79e12f0f7d7int }, times(base(), 0x73eda753299d7d483339d80809anat)),
    ensures
        extended_valid(ExtendedPoint { x: 0x469bc2f6a86b55ba4b55a77005f7187d4454847d77b40008ec31b9fed55aed86int, y: 0x47cda5bb39ac6d20cc11f5acdb0228e06806063d6f91f921053163fa81051d5aint, t: 0x5bb5af76fe67ec1183528b12ffe4a6da5f9e2d0bb08c4af7a4e47f71ab4b4c5dint, z: 0x1747af1ba04168f82bd7d42508a1821099c3521838f25e8490af3e0a29d8cc5int }),
        same_point(ExtendedPoint { x: 0x469bc2f6a86b55ba4b55a77005f7187d4454847d77b40008ec31b9fed55aed86int, y: 0x47cda5bb39ac6d20cc11f5acdb0228e06806063d6f91f921053163fa81051d5aint, t: 0x5bb5af76fe67ec1183528b12ffe4a6da5f9e2d0bb08c4af7a4e47f71ab4b4c5dint, z: 0x1747af1ba04168f82bd7d42508a1821099c3521838f25e8490af3e0a29d8cc5int }, times(base(), 0xe7db4ea6533afa906673b0101343bnat)),
{
    lemma_negative_base();
    lemma_chain_double(
        base(),
        ExtendedPoint { x: 0x13da1a93425d5c550411fb2f2619180fcd418e53385cbdc58ed52ebdd6fb775eint, y: 0x42b82041201eb8e56b3151cd0f5fc8fd99b135a036aa7161a37ce353d543d9cint, t: 0x6c3931e75ae3f98cf5318c110832d6322d9cb9ec0b3732b7a3843053f9359c3eint, z: 0x6e8d409e74181c6b26c556354fd90b445902e179f58a679f4054d79e12f0f7d7int },
        0x73eda753299d7d483339d80809anat,
        DoubleWitness {
            xx: (0x36646e8fafe7b143bdedd66ea09fd06748a5aad1919a7e051e0153fe8087c38int, 0x1dc97d9e248fbca581f6c283dd59ca57aece8f619060c92e0351d25889f40a4cint),
            a: (-1, 0x562429b5050dc0a2b14315842c480dada4ef14a16f9d92d0fcae2da6760bf5b5int),
            b: (0x2665fa8e7984f50d54bb0bd117a13e69e5e572dfd89097b1acd324710a1c05int, 0xa15c4be68370910277194d864f2d3ea06445cb0a51e1ddef1f1c8d64299b0bint),
            zz: (0x696cafbc45b37cbd56dca3dce8df1352d32f1cee12b7dffa9698b4eab92376d3int, 0x5043af809999b9454d4269914545f884772d6e2dd355264f6ac696f825ed1fbeint),
            c: (1, 0x2c99b7ae0995f542674afb1a80ea19039a9d3858a6abf09fd58d2df14bda3f7bint),
            dif: (0, 0x5582cd691e8a5011aecbfc36a5f8e06f048aced6654bb0f30d8f111911e25aaaint),
            xy: (0xb6cdc160b28296a7d0ab944128e8f4b9b45186e052c35365acfa7cd36a51ceint, 0x72167e7c39fad46d48e53f8c0f0e5d200c15cd070c56a0ffe39cdfa4aa1bd17aint),
            e: (1, 0x703f55a54a582b925e90a710147ae23ac46df60b18aee600c739bf4a5437a2f3int),
            g: (0, 0x56c58600eb913133b3ba2ed1b2973aec45535a6c79ef74aeebcd4a33da3590c0int),
            f: (0, 0x2a2bce52e1fb3bf14c6f33b731ad21e8aab62213d343840f16401c428e5b5145int),
            x3: (0x28d505068613f6da49a41f2f1a3bd496f13c0adf625364cae193e49ac90aff09int, 0x2557b80fa7fe62ee424651dfbb0bca6a65ab005af2eb7a40849b90ec3ae3cf76int),
            y3: (0x40011e2bdd0d46e5509fb960ae9cb5e088b04ecd3ca84e72be6b981bbe8465eaint, 0x2b7d39c366d4e346b6cac673f35ae62cc1148a591a3b12de2ede639a87713996int),
            t3: (0x52cbbadb09c2d0a4b7889e8c8e01236dba66c5a631e86472df0e69836fefb6f0int, 0x24cd336de02490e928cc935e944bece3ce4b4252184e6e1b41ae8e0f09d1ec6eint),
            z3: (0x1f909680a5347c2b26372a939e218646304564ef8ed8667206ab60061c378b42int, 0x46381b9001e7b90059bdf5983bfc9cf2e5ebf6da1baba0a89782c159b45387eint),
        },
    );
    lemma_chain_double(
        base(),
        ExtendedPoint { x: 0x2557b80fa7fe62ee424651dfbb0bca6a65ab005af2eb7a40849b90ec3ae3cf76int, y: 0x2b7d39c366d4e346b6cac673f35ae62cc1148a591a3b12de2ede639a87713996int, t: 0x24cd336de02490e928cc935e944bece3ce4b4252184e6e1b41ae8e0f09d1ec6eint, z: 0x46381b9001e7b90059bdf5983bfc9cf2e5ebf6da1baba0a89782c159b45387eint },
        0xe7db4ea6533afa906673b010134nat,
        DoubleWitness {
            xx: (0xc075c92555730b8e79acc6c81fa649951fcbbdd2b9772d9686b4683f4248d2eint, 0x5f85788cbc41d09106aca32d0d6eeeef0b58762f23b4e5e45f948cf5173f7d36int),
            a: (-1, 0x14682ec66d5bacb72c8d34dafc32e91648652dd3dc49761aa06b7309e8c082cbint),
            b: (0x10507ff013e1146729a9470b5e57c93d31102a44df9afa663e8951ee71d82101int, 0x20a47c43959e2e318ab8e6e318f69ebc0b5da60dadf98fcbc9e2b85aa58802e3int),
            zz: (0x2a885797519f53e8bc53fce47e76e9fbd8f3644fac1d8e4f9eba38b3ca9ae8int, 0x7142132a734eecbd8f8e0c0f38380bebccffa7ce0826ff8d93f5a7b6098c31cint),
            c: (0, 0xe2842654e69dd97b1f1c181e707017d799ff4f9c104dff1b27eb4f6c1318638int),
            dif: (-1, 0x67b159d6015afbcdd50e25ffecde225f90c52bc92e4e424dd688baae43387fe9int),
            xy: (0xe0237931fa0bb159bda106c41c87634c40ef11709774fc19aa9a00dcbe11aadint, 0x384065b8b900e38c26f2bd95146214112036859a5dd88e6fb5908e183be1ba77int),
            e: (0, 0x7080cb717201c7184de57b2a28c42822406d0b34bbb11cdf6b211c3077c374eeint),
            g: (0, 0x350cab0a02f9dae8b7461bbe152987d253c2d3e18a4305e66a4e2b648e4885aeint),
            f: (0, 0x26e468a4b48ffd5105545a3c2e228654da22dee7c93e25f4b7cf766dcd16ff76int),
            x3: (0x25be3c57f490ba171791009a05eecbefb11290225c94bd2ebff7eeadfbb4648aint, 0x434d605e44bda1ea5f0ecf07dc52ac7e5ba66d828e27517698b608438c50932aint),
            y3: (0x2f734edd40b9cccb442de8a4ed5b34e6e383a14f97ac53a36fd6317c8740d5feint, 0xc11d26c4035b3b8ddc2246791fb604fd615461f13f6a5154e2e68babb222760int),
            t3: (0x64a10a11f3d5f92e0117b0089ddc18461e1fdb090a327f35a2c2e00fea62fc0aint, 0x1750e3f31a5fc515b7c1c1e435930aadeb43f3cc8f2fe7218bef8fa0eb948294int),
            z3: (0x11cc1c6852cbd6cd82c56ccbdab0314c1913c20d5ca3aff0173977321b8a2f76int, 0x3af673e38e36cd933a31bba483bd3c7c8309b1516893cdb99e574eb589ffc0beint),
        },
    );
    lemma_chain_double(
        base(),
        ExtendedPoint { x: 0x434d605e44bda1ea5f0ecf07dc52ac7e5ba66d828e27517698b608438c50932aint, y: 0xc11d26c4035b3b8ddc2246791fb604fd615461f13f6a5154e2e68babb222760int, t: 0x1750e3f31a5fc515b7c1c1e435930aadeb43f3cc8f2fe7218bef8fa0eb948294int, z: 0x3af673e38e36cd933a31bba483bd3c7c8309b1516893cdb99e574eb589ffc0beint },
        0x1cfb69d4ca675f520cce76020268nat,
        DoubleWitness {
            xx: (0x271285e27758a2256093d3c7ac9807edb223dc041af88faf85dcfde65648c3d6int, 0x1b21e60736acc372cce9763d157358c985f29a66df9c04afb86ba83de8907f0eint),
            a: (-1, 0x58cbc14bf2f0b9d5665061caf42e7f3bcdcb099c2062574f479457c1176f80f3int),
            b: (0x141b099a36dab52848fa9e606ad7c67ca64d2045b5b03e38a4388414fefb13eint, 0x5a1c8db25b1c14177dc4aadf2e4eb4427570a5ffc7a73e0a2964a916b9eb2c2int),
            zz: (0x1dfd3db8ab788cf1161096b8b057bb3415a165bbdb4596403379445bff366822int, 0x34ab7c3b16dd5e52053f5ff2dbc4ba792056c41110b95b6d9c5f343ee86b24e2int),
            c: (0, 0x6956f8762dbabca40a7ebfe5b78974f240ad88222172b6db38be687dd0d649c4int),
            dif: (0, 0x5329f870cd3ef893ee74171d014993f7a673ff3c23e7e36ea4fe0d2fabd0ce31int),
            xy: (0x701cc33c4580d88edf091fb21b0bef0b75ac652719a47a939409b8b96fac53fint, 0x50942503662f4eece1ce02c85d11990f27ad9e097c04acecb997081f873bd081int),
            e: (1, 0x2d3aa2b3a2c1209190622d88b0815a18fb9d980ff80afdda732e10400e77a101int),
            g: (0, 0x5e6d8a2718a27b16de2cac78e7136a7ff52213fc1cdccb2fea2aa252830e33b5int),
            f: (-1, 0x6904390414853bbb06e7c49b392bcd9308322fdcfb687053b16c39d3b237e9f2int),
            x3: (0x28f8c9ba2eda71a5a1d52939c98423f909cdbda099a6d28b5c7f02ada2343127int, 0x2ca863797b1c14104fa75dccd6914e11e44eeec1af630af248bc0eab35a2eacbint),
            y3: (0x43bd76a4ec66502242b5ab4c938f992a2aaa20ba503717fae459f9c2c9ef0216int, 0x54758f23eb5817d08d91eb4d921d4010ec2ff09928c6015410c326e2a374898fint),
            t3: (0x207235a33d8e2159eafe8b4187b726e66166273fbd25af8ebe6d3bfc549d5c0dint, 0x11a70b86f79bfe0a6cfb01b2f184d021baa595ba5ae54204ceec0de52fa74324int),
            z3: (0x558a300195bc5d73121892455982d90e0bac6ee8bc0de3a398544ba5788a0cf0int, 0x3af702ebacd4d36f26bbe5fa4cab8155e79b5d953b4411016cae3fc24dd5912aint),
        },
    );
    lemma_chain_add(
        base(),
        ExtendedPoint { x: 0x2ca863797b1c14104fa75dccd6914e11e44eeec1af630af248bc0eab35a2eacbint, y: 0x54758f23eb5817d08d91eb4d921d4010ec2ff09928c6015410c326e2a374898fint, t: 0x11a70b86f79bfe0a6cfb01b2f184d021baa595ba5ae54204ceec0de52fa74324int, z: 0x3af702ebacd4d36f26bbe5fa4cab8155e79b5d953b4411016cae3fc24dd5912aint },
        0x39f6d3a994cebea4199cec0404d0nat,
        SumWitness {
            a: (0x38680b3fec24f321c2d17f532bc831db229a8a8a6929668bfc85e1d7414e9a1int, 0x5812d5760314b765390d0b7cf924a970024b257fe2aefc44ce27fbc7cd0ea330int),
            b: (0x3fd77ea130aecf70f358e1e704f8560fe4c71d85dd3d3a511b65e3544eca3984int, 0x59fb6da9bbe4fc9bb03bcb74aee680f1e5acc7526fe6587bd3eca965bb7fac4cint),
            dt: (0x67b9db7e74bafb02fdf4b5110bac97959f19e47037591089715ac0fccd5164eint, 0x4416486d6216313818b4cf516b2b90b564b503cec4c7cf21794a837063630d96int),
            c: (0x320e0d51a3d75ec4b0e2977eb21da62680e1aefef28e40dde26324a4a9e1061int, 0x6300b0bbdb24d2cbd664c2eba221dce30e5064f76143f65e5ed7fab85ee1d05int),
            zz: (0, 0x3af702ebacd4d36f26bbe5fa4cab8155e79b5d953b4411016cae3fc24dd5912aint),
            h: (1, 0x3e209bcc955c36b8b60efee99e69525c943a48cf5296f8c1a214a52e888e4f7bint),
            s0: (1, 0xd304b4a3cd6ae98a9ff71125f0cb61d7cc13b57d82ab047597f358ed9177459int),
            s1: (0, 0x60c7d6918e437d8827d3dfcfe8923870431f0f21be6a05e37815793fb5885c83int),
            ss: (0xb02a2ee69b9859723115c24abeff5ee8b6364ef9e5ab7a5fd4447d3ccfaf93bint, 0xc9fc52b03e390c727bc8450a8826561bffc31efab2f12ac8c800c24741d8c50int),
            e: (-1, 0x426cd0b19824d756a4e75d6f13baeb0a7f7f8d23589675e9ea6b66f4eb8f3cd6int),
            f: (0, 0x34c6f7dfef228642695599cb92896387b6b65745c52fd19b86c0c016c7e77425int),
            g: (0, 0x41270df76a87209be422322906cd9f24188063e4b1585067529bbf6dd3c3ae2fint),
            x3: (0x1e3d90ef1e692f82ad65945fde501f29d4f9a1e39c94220b96965719e34afe7aint, 0x24b8d296f17299ddff80ca99e76ff5c2d382fa29a4652311736e24714f13c474int),
            y3: (0x22ea8119b13672e71a29e2b39abc1c9be0e6db99963339d0a047bbdb6f455284int, 0xf925fb870776df26a56685f0b66c98dbf3007e72bede0f39d6a774c4891df11int),
            t3: (0x239915545a099cdb92ae0061233d78c0e995922d6d4fdc0a261031b89ca64d56int, 0xf509c3fa9fd61bd109966c03b9206fa82a08df6c36a3ce0489fc63533a5f77cint),
            z3: (0x1da942e050f1e6051e5bd7e64e7e7a652d2d5abc137b36ddf225c18ee491a7b8int, 0x1326969df4092f09b4c6a87adad531e377bbc7ff558706c5c417bf00170cd113int),
        },
    );
    lemma_chain_double(
        base(),
        ExtendedPoint { x: 0x24b8d296f17299ddff80ca99e76ff5c2d382fa29a4652311736e24714f13c474int, y: 0xf925fb870776df26a56685f0b66c98dbf3007e72bede0f39d6a774c4891df11int, t: 0xf509c3fa9fd61bd109966c03b9206fa82a08df6c36a3ce0489fc63533a5f77cint, z: 0x1326969df4092f09b4c6a87adad531e377bbc7ff558706c5c417bf00170cd113int },
        0x39f6d3a994cebea4199cec0404d1nat,
        DoubleWitness {
            xx: (0xba1d86f93871894cd6309bc8f5540aea85ffcffe6b6336d8f95e51ef78e5795int, 0x363082def8f6694a9ab3fdcb180473caee409c35d79a148feac9b5a4606b7cfbint),
            a: (-1, 0x3dbd247430a713fd9885da3cf19d643a657d07cd2864476f15364a5a9f948306int),
            b: (0x21775979185636a134736484d24e42d39ce55d6ee000f6d4d2773c3ce901086int, 0xa5cfb3c096093652eba8e2cf37aaa256334fccce35f8dbcde0d3d7235108e9bint),
            zz: (0x329e193a449ac9bb5d2da0094ec1cfd4738c7e7ddca0e308dffc32ba1eb693aint, 0x3548d276fbccdd37612126b86f2077183387185c225d84adf634e440c9c9e2fint),
            c: (0, 0x6a91a4edf799ba6ec2424d70de40ee30670e30b844bb095bec69c8819393c5eint),
            dif: (0, 0x336029382746809869cb4c0ffe22ba1502480b004504b9b237290ce86a83f46bint),
            xy: (0x4eebdbafc2722fe63556b665761869245f538a368aef26305adbfddde03f738int, 0x270852e835fcc3b83af1e459c71a97e3f9c6b8d48951dd371d08eea58021207cint),
            e: (0, 0x4e10a5d06bf9877075e3c8b38e352fc7f38d71a912a3ba6e3a11dd4b004240f8int),
            g: (0, 0x481a1fb03a07a762c7406869e5180e5fc8b2049a0bc3d52bf34387ccd4a511a1int),
            f: (0, 0x417105615a8e0bbbdb1c4392d733ff7cc241218e87782496347ceb44bb6bd543int),
            x3: (0x2c1152eb63b0e7c9bc585a1c6b4d54edc97224f4d089879e741afa4e62099c70int, 0x1c96decc9438bb2c0b00dc6e6550585bf17eecec4930ca2a00a15f001f03bc78int),
            y3: (0x1ff408b51a5ba680d6334561da9aeb77b39c3bd68d8096cfae4ac88619a14eeaint, 0x17747bc00614169be1b325b394d897429df1086eb38a368a011335acb8d8361int),
            t3: (0x22988a0d38b08c9ba9091ed8b4a2a2f2512c3173158a7c5c4e6169be49a78c72int, 0x24011ce2eda933c1b481a529440ae221f2310c783702550199f42ed9e6ddfb36int),
            z3: (0x28b39a15700cbb51477cdd494a66b4eac3b8ae031521c8b3a74ac6065987c808int, 0x1549eba648f4b1477598f277b08a45c8ed47515ae039dc2a2fdbe82d9ea1ca1bint),
        },
    );
    lemma_chain_double(
        base(),
        ExtendedPoint { x: 0x1c96decc9438bb2c0b00dc6e6550585bf17eecec4930ca2a00a15f001f03bc78int, y: 0x17747bc00614169be1b325b394d897429df1086eb38a368a011335acb8d8361int, t: 0x24011ce2eda933c1b481a529440ae221f2310c783702550199f42ed9e6ddfb36int, z: 0x1549eba648f4b1477598f277b08a45c8ed47515ae039dc2a2fdbe82d9ea1ca1bint },
        0x73eda753299d7d483339d80809a2nat,
        DoubleWitness {
            xx: (0x70cec2435caf50300a86b2bc328b7497f499045c8f9d052fe9fa8e2c50d4e1bint, 0x35148024a120de2123aa683eac8f7c50126000c09fe6c3c29f009ceb40832a25int),
            a: (-1, 0x3ed9272e887c9f270f8f6fc95d125bb5415da3426017983c60ff6313bf7cd5dcint),
            b: (0x4bed8f06fb25fe65e16fed7d0470f32efc959a31897a1e46b68f21d47f9eaint, 0x5582a520529696beca2897e097cd0ec5f980fa84f824325d0f7153c1b4fe70d7int),
            zz: (0x3e8ced9e528fd13cfc2eb0d0a46c1460e3b6c54f12d150990c7172ac2317bcaint, 0x4685575dfa150c0e9c696ccffccc37272c6d1597c23d27734b1a7dd66753230fint),
            c: (1, 0x191d0768ca8c9ad505990197eff69649051c872c847bf2e79634fbadcea6461dint),
            dif: (-1, 0x5d4429615f8385b078a0aff0cee724f49b9a4cc067f1c1de518e0f510a7e6506int),
            xy: (0x5c8c75451d8a1783bf02f78d56f918176d6147ad7dca875310d67bc1820da6int, 0x5792d6503159a3d2e819081b552e151f411fd7d83ddda310d4b07bc6de71c3d2int),
            e: (1, 0x3b38054d3915ca5d9cf8382ea0ba52392e820bad7bbcea22a960f78ebce387a3int),
            g: (1, 0x206e24fbb175b89da67e2fa1eb3d9275e720f9c4583d6e9a7070b6d6747b46b2int),
            f: (0, 0x7511d92e6e91dc8a0e52e09fb46fc2ce2047297d3c17bb2da3bbb28a5d50095int),
            x3: (0x3bcd47caba05b6f9b9ca632c9542f6b460f4f8e44f58f92a88c6fd7f256d157int, 0x1b052fabd58371a45b868eb41a4da275a5f60d451a54fd94a0ee89c6e7b62088int),
            y3: (0x1a17364c7637cc89fba951ec4d639c23256fe9acb361cce12524482e43263911int, 0x1b4d8038479201ddd9936dda5041f374396016efc3f965c133c4c79fda3da91bint),
            t3: (0x2fa47c92983132ae1069b7ff9e83420a9941bb6ae0aae6e9c1a5eced71e351e0int, 0x6de2589cbcd21de6d2a1b698e8799ccc2c87b6dea8d120a13e2ad5ace02f2af2int),
            z3: (0x20bfe259dda9d1960ec2f2e66974cb08d368f7bf7d384e25503cb435dd42c82int, 0x2f1dccb10f103a9f9558ce2a97fcfe8b482d67f9a56d075ff2da3d02fa05f918int),
        },
    );
    lemma_chain_double(
        base(),
        ExtendedPoint { x: 0x1b052fabd58371a45b868eb41a4da275a5f60d451a54fd94a0ee89c6e7b62088int, y: 0x1b4d8038479201ddd9936dda5041f374396016efc3f965c133c4c79fda3da91bint, t: 0x6de2589cbcd21de6d2a1b698e8799ccc2c87b6dea8d120a13e2ad5ace02f2af2int, z: 0x2f1dccb10f103a9f9558ce2a97fcfe8b482d67f9a56d075ff2da3d02fa05f918int },
        0xe7db4ea6533afa906673b0101344nat,
        DoubleWitness {
            xx: (0x64c3d231768f1563118b105bb55706563054af82a088f49321d180134a63122int, 0x63dca4dc7dcb5da19183260c6d72a5fb56bde134df19ecf4adaf2bc880dc171eint),
            a: (-1, 0x10110276abd21fa6a1b6b1fb9c2f3209fcffc2ce20e46f0a5250d4367f23e8e3int),
            b: (0x66e1ff44c997aaa46a39b821fd6811b81b5b981c5dba254517580ee70d4b52aint, 0x4c58b5031ca32eda0f376cf4169f0d4695279363bffa6d62824450a191bdf3afint),
            zz: (0x13263daf50b6a35fcd11584de2195fde856fcad47987b4b84351bc7bc97bd523int, 0x5d1945fc6ed6136ee36de211d4004e620ad515ac47c10103d80717adc3d3dd1dint),
            c: (1, 0x4644e4a5b40ea99593a1ec1b9e5ec4bec1ec87558f83a608b00e2f5c87a7ba39int),
            dif: (-1, 0x37a5f4c6b8cc6e14c5b91d0f8f31fcc8bb95d36d60e85da6d00c8393ed65f535int),
            xy: (0x65d17fdbf526a7228954078cc0a976adb17b093a4da9e3afbf48b29467edad9int, 0x73d3a94a6c885f457f67fe50ba90d76b7e7b8d8ce19831f86fe56132f5985b7fint),
            e: (1, 0x73b9ab41af734142cb9624996b7fd6d1a9397716c33207f1dfcac266eb30b6fdint),
            g: (0, 0x5c69b779c8754e80b0ee1eefb2ce3f5092275631e0dedc6cd49524d810e1dc92int),
            f: (0, 0x1624d2d41466a4eb1d4c32d4146f7a91d03acedc515b36642486f57b893a2259int),
            x3: (0x161ae4cfce9e9c0584a203b7f1125cb80e5452da01da9f0dec4c06683b314ebaint, 0x4c7d5281e8e570696c76c123e4220a508dc62146d5c8ab752558f0dbdb5de93bint),
            y3: (0x2c5c3f7de2aed4c765b56ac41f742fc2a8307c777ac8fb939ccd7514884ff24dint, 0x9192adf1937058cb66c5179f09d4756adbd2174b1ed92ea77ee06414e2471edint),
            t3: (0x378d0098f41f3fb42739446260c9ee921112cc3380ddfb5bedcad338d5bcc096int, 0x35e0e796f3f3ded0ac5d91af006f54fab4b2886e305d492261c819a8e54a42cbint),
            z3: (0x11a6efa70f18deccad7626db8c59b5aaa5f2ef0a30a44c0ed61bd0166b3e651eint, 0x1d857a14c36cfaf9e791a256bbb4a1f67c0a22dac5d33bf786e67cbf8da6ada4int),
        },
    );
    lemma_chain_double(
        base(),
        ExtendedPoint { x: 0x4c7d5281e8e570696c76c123e4220a508dc62146d5c8ab752558f0dbdb5de93bint, y: 0x9192adf1937058cb66c5179f09d4756adbd2174b1ed92ea77ee06414e2471edint, t: 0x35e0e796f3f3ded0ac5d91af006f54fab4b2886e305d492261c819a8e54a42cbint, z: 0x1d857a14c36cfaf9e791a256bbb4a1f67c0a22dac5d33bf786e67cbf8da6ada4int },
        0x1cfb69d4ca675f520cce760202688nat,
        DoubleWitness {
            xx: (0x3277c2bd3af455e40627dcf14470b9aed7c2b64b69d7a5fd456fa14b4b1c3c2cint, 0x2d53b234766542a56528fbb52f00c16e739db35c1435578490321550f03e376dint),
            a: (-1, 0x4699f51eb3383aa2ce10dc52daa11696e01ff0a6ebc9047a6fcdeaae0fc1c894int),
            b: (0xb6cc559217dd869eeba8b50060427e094243d8a440790a1738106a46229ff4int, 0xf59b646e5a4f03d66ccf1a5e447626312e6f241f7256e98d549c08063387575int),
            zz: (0x7848701ffe6def1759446c369181d65efe806cd967b4065c9bae9230effa4feint, 0xe2d633acd185744a0f1bee0dca67d4c3a8472b86a3bd6091d43be5f3f776c12int),
            c: (0, 0x1c5ac6759a30ae8941e37dc1b94cfa987508e570d477ac123a877cbe7eeed824int),
            dif: (0, 0x37403ed7cd934a656743eaacf659b433cd38fe64f4a395e19a842a2dac89531fint),
            xy: (0x600c902ded26c55ac812dc495dae8fcfc520016295026710dd638a2f27b3d99int, 0x4ddb3923ec93b898c353ee9a5c4029600b6371b1ce72dc3dbe381c945db4b906int),
            e: (1, 0x27c8caf4af89f3e9536e052caede7abac3093f609ce75c7c7c703929bb69720bint),
            g: (0, 0x55f3ab6598dd2ae034ddcdf8bee878f9f306e2e8e2ee73134517ab2e72fa3e09int),
            f: (0, 0x3998e4effeac7c56f2fa5037059b7e617dfdfd780e76c7010a902e6ff40b65e5int),
            x3: (0x13c4291c34232d390a63bc4a99bfa71d1ab2756584f6fbe820a2b3b45d6a390eint, 0x50a95ea38e4e7437b84078a6f5816e2592c2904446f3e230d88a199e446021c9int),
            y3: (0x28f6db5640172f2ef2a2b2a5a2d5bc5566406364124b611956cbb4461e8a2504int, 0x11b160d0c46617e1bf287ed6c2132574fafaff5d5dd362e44e0645d32eb14913int),
            t3: (0x12f60794b4a978186be6740746f84cec237c82bc33386b6ea864b6f94e8bbc53int, 0x72c4a874a88eb7b8161a55c32a01f4139249da8737565a7965717726ff15a402int),
            z3: (0x2ab430ec924837fdac9a3ad9231e46ea702343e198c4a67f0f305250563c651fint, 0x676426e9fea93d84223064baf538ca19aa70ed1da4ee40a11d0d7e807c79a5eeint),
        },
    );
    lemma_chain_subtract(
        base(),
        negative_base(),
        ExtendedPoint { x: 0x50a95ea38e4e7437b84078a6f5816e2592c2904446f3e230d88a199e446021c9int, y: 0x11b160d0c46617e1bf287ed6c2132574fafaff5d5dd362e44e0645d32eb14913int, t: 0x72c4a874a88eb7b8161a55c32a01f4139249da8737565a7965717726ff15a402int, z: 0x676426e9fea93d84223064baf538ca19aa70ed1da4ee40a11d0d7e807c79a5eeint },
        0x39f6d3a994cebea4199cec0404d10nat,
        SumWitness {
            a: (0x4a4b4117a8670fb7f4e1d3bf48064745629aa584ec887f53a48650c37fa827bcint, 0x495256f32754a975f474543e6d03352e8ecd75b2cab48dcfcffe79fb5f85e6e2int),
            b: (0xd5fb4cfb69fa1f40e75c83b3c941b7abc9b8589464ea73e5bf776d017eca746int, 0x4ccb8b3d4bde71805bcd578fd3f32b9e22fdc796b94f9e28559a8e06b3f17b4aint),
            dt: (0x2a26069ee1a2fa272223c4dae26e81b53edf9a7f401e49d2976b36b5214f7d92int, 0x23644af996b51cd51d52a8663cb6912c7fde97f412271150135ad9c576c763d0int),
            c: (0x21c3feb16198a8779f0ac3319e097e90dea05573b19c273ca0822fc540a9393eint, 0x18bd9ace1337b53e77e221fd3dfe556dc4785fecb4c946642bed785335fce942int),
            zz: (0, 0x676426e9fea93d84223064baf538ca19aa70ed1da4ee40a11d0d7e807c79a5eeint),
            h: (1, 0x22303add49959dae1d07d3c6375488c75e0d99468405cff9259908031377622bint),
            s0: (0, 0x625abf7452b48c197768f77db794939a8dbd8fa1a4c7451526905f7173116adcint),
            s1: (1, 0x4e7a2cab4d8fef627fa28fd19ba7c19a97abbf79df4db594e896ec1ba05d0dddint),
            ss: (0x4294a84afd2ae54eb755d1c90df4d232e9a442e27c09dfce9fab4a3572fb1ab8int, 0x568053cd36a51642d712a46c430cf3a2f9d20d37c28788b7352dbd9c17675134int),
            e: (0, 0x345018efed0f7894ba0ad0a60bb86adb9bc473f13e81b8be0f94b59903efef09int),
            f: (0, 0x4ea68c1beb718845aa4e42bdb73a74abe5f88d30f024fa3cf120062d467cbcacint),
            g: (1, 0xc341a64e843757a66d8aeb0299547821b2ba90759b92b0648faf6d4b2768f2fint),
            x3: (0x237dc0ab12b386e53c0bd38380eb405f11f159eaa3be3608706f5e0f363d72a1int, 0x6975d4a641ce35a1abfc3a1856e37e4c5bf0a42acc4e5799eb2d346de0ddc36bint),
            y3: (0x3995419f08d5467915e5a133549d56fbf2be15b47c9aa93f81d9497f4e27117int, 0x3e02c34e57fda295ce03829550f715ba989cc85c033de16a017ba5d473b099ceint),
            t3: (0xf6d75d8cc2f02881d62d55bec86caad18d196e795f69678a0b9ace435a9eaf6int, 0x5dce512505795254dad76d6a6adc9281a21d0b54ca31627d9a840aa81553ad8dint),
            z3: (0x847854dc163d333eec60af29a0e743f36e3378c4746e12aefe9a8d57034449fint, 0x1f14f91a74776b12ca2f77f67a2c4679c2a6855d4725275bd911c797bd5e72f5int),
        },
    );
    lemma_chain_double(
        base(),
        ExtendedPoint { x: 0x6975d4a641ce35a1abfc3a1856e37e4c5bf0a42acc4e5799eb2d346de0ddc36bint, y: 0x3e02c34e57fda295ce03829550f715ba989cc85c033de16a017ba5d473b099ceint, t: 0x5dce512505795254dad76d6a6adc9281a21d0b54ca31627d9a840aa81553ad8dint, z: 0x1f14f91a74776b12ca2f77f67a2c4679c2a6855d4725275bd911c797bd5e72f5int },
        0x39f6d3a994cebea4199cec0404d0fnat,
        DoubleWitness {
            xx: (0x5feffd4e6732cef5673901be41f3a277eed7530ee49dc9425a3bfd18d5743876int, 0x1b89d6ee784a9f99f3651941bb777c5dfa6bfe394d035972fa96f2916675f643int),
            a: (-1, 0x5863d064b152ddae3fd4bec64e2a5ba75951a5c9b2fb028c05690d6d998a09beint),
            b: (0x212b829abcfbac6e93b6d8975b290eaa4ecea7a01718bc3c18ca7bc0c3e039a0int, 0x5110a4ce1e98bdb39eaf6d17d829d1c6789e50fd6f5e0e158a142b1227c7a824int),
            zz: (0x8555ec202d5739314adca8d5c878971a0a054442ba75c89908787a7bbf9bea5int, 0x3bbb76075767e701623350b2ee46e7f47b7650a5c36d85b992355299a5915fd4int),
            c: (1, 0x38944bb853250ba912cc95dd2ebf7e3a32efd4886dcaf74246aa5344b22bfa7int),
            dif: (0, 0x7532b9692ba1ffaa12551ae760089e0e0b354cc439cf4767b54e25b71c2619aint),
            xy: (0x38694f0f014e663c8caf47c0c3a819223022794dcd43da8f70a9c61947e267a8int, 0x6de69285e9a3d41306e2914c7da4a3c28c1054c34e2d86c7f77f80399eebcb72int),
            e: (1, 0x67df7db8a9aa2addda8b4a90f1a76f7fc46305839c5cb190eeff00743dd796e3int),
            g: (1, 0x3586cddfa64e1e19ab4a53d61cb255687e3252c4225ab4a28f7d3880c151b1e1int),
            f: (0, 0x31fd8924211bcd5f1a1d8a7849c65d84db03557b9b7e052e6b12934c762ef23aint),
            x3: (0x2ccaba2771df4c8e0bf0d25fe940229aaf799a55c9bb05a0c472ae52ff39a9f9int, 0x27ba02e1a114c683353b1420e1a46ab01e11c2925e43727ebcfa991f8f0b1b75int),
            y3: (0x361ce56f4bb3cc8383f3a9208f1937761c0570499f3920fe305cf2dd73f8fecint, 0x444005f799016e5f55e32a3129fec8da4bca0b024bcf2372aec4f3da85cdb26eint),
            t3: (0x6902c2015d98f362e876590a3c1597a84999040bde8e9ceb46079a156df0498int, 0x2da4cf8a6e1923ecab872f2f6c04f395f2fd87a554a8ed6390c6ebfe1803c2f6int),
            z3: (0x1714e501d65ccef52c03aef0cdc82d8d9a3eea110253f676d5a2b590f6d79d66int, 0x6dc1eb53d5522f87563babf7e7b37d79d4af6537da689b455d72d237bc3f6194int),
        },
    );
    lemma_chain_double(
        base(),
        ExtendedPoint { x: 0x27ba02e1a114c683353b1420e1a46ab01e11c2925e43727ebcfa991f8f0b1b75int, y: 0x444005f799016e5f55e32a3129fec8da4bca0b024bcf2372aec4f3da85cdb26eint, t: 0x2da4cf8a6e1923ecab872f2f6c04f395f2fd87a554a8ed6390c6ebfe1803c2f6int, z: 0x6dc1eb53d5522f87563babf7e7b37d79d4af6537da689b455d72d237bc3f6194int },
        0x73eda753299d7d483339d80809a1enat,
        DoubleWitness {
            xx: (0xd9d159e1b848db7df7179d80570d1397840541649ef823e0d297c4679a72c48int, 0x28ede19e6ca8e1dd0d8c1f5392d2650386342f47477af0612071997f9b58b731int),
            a: (-1, 0x4affc5b4bcf49b6b25adb8b476cf7301cd8974bbb8836b9ddf8e667f64a748d0int),
            b: (0x282e3e91882046fb8d62eb349fb39208d9957883ce24918595695544212265b6int, 0x2c30632205a1525779e7e33c626474280144d4a41fefd57ff52928776b66c18eint),
            zz: (0x67ea46155d94f25aec82756af2a65f4e7ea10ddf5212d38ef91b3c544dc14bdbint, 0x6b364c7668c35e9e0d43e4e50846ff5f71052d880cda04bb2e35f4213e4831b5int),
            c: (1, 0x627ef199a7e93ff3e74df1c206ec26b98e4cb70d19b5ad775c6be8437c906369int),
            dif: (0, 0x1ecf6292b7534913abc5d578146afed9cc44a0179893961dea653e07f9408742int),
            xy: (0x17635b1a9cade67ee9687acdd0e7aed785312a06dc1fc816cb53cc7f9c9ade50int, 0x62dbc75ecfc8342a3c94ccf0c0191621bbb54e47bd3d9eba2d1c90a058f347f6int),
            e: (1, 0x51c9e76a75f2eb0c45efc1d97690543e23acf88c7a7ce1755a392141b1e68febint),
            g: (1, 0x342818398f8707a6c5bc3e8cf920f247b10a55cd874e51ed4b78ef7d00e0a5dint),
            f: (-1, 0x14b1373d1aacadceb847aa2ed247c07040819252bebd93a6784ba6b3537da6f5int),
            x3: (0xe993e2394590ae43f1ad8c9341de1c01b9eeb7f8f741e31075af3b36a5c8e7aint, 0x29b95ceff87287d870c2df245cd47aa9adcec25a28114d298862a98fcf5c8f6dint),
            y3: (0xddc90e32d1792b6a5fb72a9af97bd3379a2c12f51682cf3931457376f60a3dint, 0x281b33e6fdd7e7e53f59ca1b61bcdf869f82f3d144166fa9d863c986a05facbdint),
            t3: (0x15bca29104ee4fce3b228d6fa0c7da4db08175f32393b1422ca486b6e9f993d8int, 0x4c56ea7d407ca8571c796c154e9479511dba82513f50acc7a0eed9ee171c73beint),
            z3: (0x94f3d0d84cd3f2298fc670f8334333ceb1ca8148038178c63a2b998085c97aint, 0x6f3b7119f5317533f9e2d1a061c12ee93eda34dcc5a4917cb1e9d331ee0b6f87int),
        },
    );
    lemma_chain_subtract(
        base(),
        negative_base(),
        ExtendedPoint { x: 0x29b95ceff87287d870c2df245cd47aa9adcec25a28114d298862a98fcf5c8f6dint, y: 0x281b33e6fdd7e7e53f59ca1b61bcdf869f82f3d144166fa9d863c986a05facbdint, t: 0x4c56ea7d407ca8571c796c154e9479511dba82513f50acc7a0eed9ee171c73beint, z: 0x6f3b7119f5317533f9e2d1a061c12ee93eda34dcc5a4917cb1e9d331ee0b6f87int },
        0xe7db4ea6533afa906673b0101343cnat,
        SumWitness {
            a: (0x266e25f17fe18c8bb8d108cf8995233e68d2a54a9f2ab593c2344015aafbd348int, 0x98657c807ab4442cbd67521861eadac6eb0444993cf1b51ef11facbcb5d20ceint),
            b: (0x1e50dd1a37deb149f60265ae429a621237efc8630a8db610372d45d70632c924int, 0x9317a701b1b87aab51085dc5a1459fc603ded5c6262908a5edd44ce7d893b4cint),
            dt: (0x1c091f3f126eec8e47e04cb70202d4fcb16d30fbddc8760c44fa008adbc454b3int, 0x9a4bc45a5dce16f2dbd8fe20eb67904cf3c9763e49b97d0559568bb5987b5abint),
            c: (0x9334d9c8a4fe4e119eef6453f063d77b5997fd8fe10fb1d1e023ce59bc77f88int, 0x2fcbf54e2001b853ae117a3cb9a06c5881c69926208ab8bb5685e0a8cf057f90int),
            zz: (0, 0x6f3b7119f5317533f9e2d1a061c12ee93eda34dcc5a4917cb1e9d331ee0b6f87int),
            h: (0, 0x12b7d23822c6cbed80e6fafde03307a8ceee31a5f631abdc4def3f9a48e65c1aint),
            s0: (0, 0x51d490d6f64a6fbdb01ca93fbe915a304d51b62b6c27bcd360c673166fbc3c2aint),
            s1: (1, 0x4e7a2cab4d8fef627fa28fd19ba7c19a97abbf79df4db594e896ec1ba05d0dddint),
            ss: (0x37650d3fbca48a0749bb3ecc84d911b943308be2460cd595679af66325bf1eb5int, 0x5064238cba5284b7642545a28e1638ab823b464237467d65d336f3c6fa10f38dint),
            e: (0, 0x3dac5154978bb8c9e33e4aa4ade33102b34d149c4114d1898547b42cb12a9773int),
            f: (0, 0x3f6f7bcbd52fbce04bd15763a820c290bd139bb6a519d8c15b63f2891f05eff7int),
            g: (1, 0x2b19bf14eb95b03f74ba73d511bfc33c6ce329ffe630ee39086fb3dbbd10ef16int),
            x3: (0x21bf4c91739df6bced813c21cd758cdbd66707ae94f1d2ced155c6acc0608f6fint, 0x469bc2f6a86b55ba4b55a77005f7187d4454847d77b40008ec31b9fed55aed86int),
            y3: (0x6f5889fa725d1a19ded010e7b07fbcd41a972e90e4363b8e055c8dbc66312e2int, 0x47cda5bb39ac6d20cc11f5acdb0228e06806063d6f91f921053163fa81051d5aint),
            t3: (0x9f537b052de6e5906aa3cdce5c91eeddb1718fb65e4050f3027d51f0ac76951int, 0x5bb5af76fe67ec1183528b12ffe4a6da5f9e2d0bb08c4af7a4e47f71ab4b4c5dint),
            z3: (0x17959e46ffa5454b8760496304098ea71136d2ea92411104a7c6e328ed5cab75int, 0x1747af1ba04168f82bd7d42508a1821099c3521838f25e8490af3e0a29d8cc5int),
        },
    );
}

/// The multiples of the base point, from the multiple by
/// 0xe7db4ea6533afa906673b0101343b
/// to the multiple by
/// 0x73eda753299d7d483339d80809a1d804.
proof fn lemma_order_part_14()
    requires
        extended_valid(base()),
        extended_valid(ExtendedPoint { x: 0x469bc2f6a86b55ba4b55a77005f7187d4454847d77b40008ec31b9fed55aed86int, y: 0x47cda5bb39ac6d20cc11f5acdb0228e06806063d6f91f921053163fa81051d5aint, t: 0x5bb5af76fe67ec1183528b12ffe4a6da5f9e2d0bb08c4af7a4e47f71ab4b4c5dint, z: 0x1747af1ba04168f82bd7d42508a1821099c3521838f25e8490af3e0a29d8cc5int }),
        same_point(ExtendedPoint { x: 0x469bc2f6a86b55ba4b55a77005f7187d4454847d77b40008ec31b9fed55aed86int, y: 0x47cda5bb39ac6d20cc11f5acdb0228e06806063d6f91f921053163fa81051d5aint, t: 0x5bb5af76fe67ec1183528b12ffe4a6da5f9e2d0bb08c4af7a4e47f71ab4b4c5dint, z: 0x1747af1ba04168f82bd7d42508a1821099c3521838f25e8490af3e0a29d8cc5int }, times(base(), 0xe7db4ea6533afa906673b0101343bnat)),
    ensures
        extended_valid(ExtendedPoint { x: 0x40e566a4600f6e89f50c771ae77cbf0ee01a860504f4a84c2bad5614cb964052int, y: 0x41999c95c3d64fbb3592d0092428700bcef582b449e7001d1feecd0abcbc909dint, t: 0x4d5a08f2636496c791e0b71d24b528e6f46e496fd672755f19d2ef774c376606int, z: 0x6231d0f8de4bb59659384027c28acebd333acc339abe4ee6dc0442b12841070bint }),
        same_point(ExtendedPoint { x: 0x40e566a4600f6e89f50c771ae77cbf0ee01a860504f4a84c2bad5614cb964052int, y: 0x41999c95c3d64fbb3592d0092428700bcef582b449e7001d1feecd0abcbc909dint, t: 0x4d5a08f2636496c791e0b71d24b528e6f46e496fd672755f19d2ef774c376606int, z: 0x6231d0f8de4bb59659384027c28acebd333acc339abe4ee6dc0442b12841070bint }, times(base(), 0x73eda753299d7d483339d80809a1d804nat)),
{
    lemma_negative_base();
    lemma_chain_double(
        base(),
        ExtendedPoint { x: 0x469bc2f6a86b55ba4b55a77005f7187d4454847d77b40008ec31b9fed55aed86int, y: 0x47cda5bb39ac6d20cc11f5acdb0228e06806063d6f91f921053163fa81051d5aint, t: 0x5bb5af76fe67ec1183528b12ffe4a6da5f9e2d0bb08c4af7a4e47f71ab4b4c5dint, z: 0x1747af1ba04168f82bd7d42508a1821099c3521838f25e8490af3e0a29d8cc5int },
        0xe7db4ea6533afa906673b0101343bnat,
        DoubleWitness {
            xx: (0x2b01665f804a82fbd59b2655a609f5fa42c41ea2eefd00b5f96849045ef48292int, 0x370a4a1f28a89fd6fadcd9d8df1927b9868b553b11c5cc07e063ab027ba4df92int),
            a: (-1, 0x3ce35d3400f4dd71385cfe2f2a88b04bcd324ec7ee388ff71f9c54fc845b206fint),
            b: (0x2c792a0bc49057e0a920b344e8269ca15d09f89e477db3105368330b5d7ed8b0int, 0x57a36e5651db0ef9b120cce82e36208cef6221f53d4409e3fe41bd1b7f62aaf4int),
            zz: (0x4acc9809f5db95ba40d2902c0dda74c34bae97609e53156ddc7e0ec485d28int, 0xa686d94e4e93030c8550eca9351f6360f243aecc2e6bf53030eb3265ec1b271int),
            c: (0, 0x14d0db29c9d2606190aa1d9526a3ec6c1e4875d985cd7ea6061d664cbd8364e2int),
            dif: (-1, 0x592d9630d8b74bbfba76094f05f467c4318dd0d5b0f2e212215a97e004f8757cint),
            xy: (0x2bbbb4a86cb4cd61516aa3c83c878380fcd530b12e9c4c336e4cf34b0d03c654int, 0x22b3a44269fbf973eb631977b83aed2a5f44665e82a5afb1ef0dd81e6b79e8c8int),
            e: (0, 0x45674884d3f7f2e7d6c632ef7075da54be88ccbd054b5f63de1bb03cd6f3d190int),
            g: (1, 0x2099243729326f22b643f30f4f1cf8d368d6ccba2b7e3ddc1dde121903bdcb62int),
            f: (0, 0xbc8490d5f600ec12599d57a28790c674a8e56e0a5b0bf3617c0abcc463a6680int),
            x3: (0x70dc6abeeccc67a1a4e090d60e00439c26c8f7044d623a6773973c855d66e42int, 0x3ff4a2e4368fd22e5ded387165fa9deab9eba74633ae3e69c882e3d52431b9beint),
            y3: (0x191383bc756568150556f0c6c2848d092f258a4e636108eff1188bc7939842b0int, 0x1313f0c4214433b5c1d6376fbd491f773afc9b4738a4ad23e01d4486893a0ac8int),
            t3: (0x35638379c8c8539abe2f1fc8fb181807890af6aef69d1ba53b8688824672cdffint, 0x11df29edbafe9bb3236444c782ba644c46bdd0cdd131fd3318c0caab89ed83c1int),
            z3: (0x3502859bda01f9855c462931829d8b761f0150faf4dd186ec712ef7c86cbfa4int, 0x178c39bc11ec957c413c5664951dea526b2efc3007144e065083db6095b5fd5cint),
        },
    );
    lemma_chain_double(
        base(),
        ExtendedPoint { x: 0x3ff4a2e4368fd22e5ded387165fa9deab9eba74633ae3e69c882e3d52431b9beint, y: 0x1313f0c4214433b5c1d6376fbd491f773afc9b4738a4ad23e01d4486893a0ac8int, t: 0x11df29edbafe9bb3236444c782ba644c46bdd0cdd131fd3318c0caab89ed83c1int, z: 0x178c39bc11ec957c413c5664951dea526b2efc3007144e065083db6095b5fd5cint },
        0x1cfb69d4ca675f520cce7602026876nat,
        DoubleWitness {
            xx: (0x23487e6304d80ad4906b1682e0c89c54f30b7a37d1d911abdfd22d1a02ffb49aint, 0x67493282bd5431f92205e616e486e09bdf861076c61a0243176997920e80746aint),
            a: (-1, 0xca474d06c494b4f1133f1f1251af7697437938c39e459bbe896686cf17f8b97int),
            b: (0x323bb58f6b1264ded770eef9943fc4326b2061a4cc026f708b86fbf12ebe0d8int, 0x1767c5a581da59d4168402eb701fccaee1138aa1d7035ef4390272be0285b68int),
            zz: (0x4c8793d0a2c1a4b19458178e3cba69daaae324882ca370da987452c00c26488int, 0x663ac0b86d5e7fbc8353cc8920315cffc09c792b3c23de2722e9e6a956149488int),
            c: (1, 0x5887da1db11f8230d36dc10a36c0e1fa2d7b4e537849604f45d3cd53ac29290fint),
            dif: (0, 0xb2df876142ba5b1cfcbb1c26e18fa9e86265ae21c7423cca50641411157302fint),
            xy: (0xa86622f9dd12be709c8f3e9dc5bc27dbb97f17b900111a3835cc11604947473int, 0x669816aeae7de17131216327807236c2785529be98b5744464ec8669f69213fdint),
            e: (1, 0x5942860a335e459a2f08ee46f742957f9cecaf7a316c8c89c9d90cd4ed2427f9int),
            g: (0, 0xe1af12ac466f0ec529c321fdc1cf4346248cc3657548fab2c268f98d1a7e6ffint),
            f: (-1, 0x2980be603ce4ec03b268491daefdea3f888b21e5df098b5ae652c244257ebdf1int),
            x3: (0x1ff4991a7cdde44b8f25e732b1110b0ab4a80a1e85791dababd62640e70d0abcint, 0x210005a4fcb5280e76e8b9efed5ac6ee1a15c8fe05c4b9097dbf6db8b30d6badint),
            y3: (0x15c38d0717194d6bbae430707183fa0ca5e75982c51a0d6fa8dd707c87b7be9int, 0x2f09859bc5c60a1c742c0fb084a043cebe9b201fb5765480b90c7564a050bce8int),
            t3: (0x89b984a3274c6e0332b30587fc346d9586874c68c2d0f03efe6f307b7f3fb00int, 0x26abb4a4039ba9be79dd48eb895e6432628a4641e34b9914da94acb0b7cd0bb7int),
            z3: (0x50cbc17b5d799c0830f4a896f9301a73672530bf468054b47bff773a9c876f4int, 0x3bc06f07419df63d8fb449ed788fdae70d718b7c5661460533328fe93754421bint),
        },
    );
    lemma_chain_double(
        base(),
        ExtendedPoint { x: 0x210005a4fcb5280e76e8b9efed5ac6ee1a15c8fe05c4b9097dbf6db8b30d6badint, y: 0x2f09859bc5c60a1c742c0fb084a043cebe9b201fb5765480b90c7564a050bce8int, t: 0x26abb4a4039ba9be79dd48eb895e6432628a4641e34b9914da94acb0b7cd0bb7int, z: 0x3bc06f07419df63d8fb449ed788fdae70d718b7c5661460533328fe93754421bint },
        0x39f6d3a994cebea4199cec0404d0ecnat,
        DoubleWitness {
            xx: (0x964cf0030a58c052796d96050b594409ebf8df01b4b66ab7f9a148b334479f2int, 0x44f675c8a955caf88283d62abd51b1f1e125afabd69ae2e4a008455ed79798f7int),
            a: (-1, 0x2ef7318a8047b24fb0b601dd4c5026137297f4572963791a5ff7baa02868670aint),
            b: (0x1315c5a3990fda2df5e4882b3cf96c3603ff669395cfd91c1b796603a9f3b990int, 0x6060ca00c67418d426b1588f2dcabd5e6f0c948a359b8928045efe64f271d8b0int),
            zz: (0x1ecc13854736faba36adc31e21109da2fe0d0d2a78813f3b0579c2eed9b52ac9int, 0x45c4e0e79af077338b14c81f42044adf89e2ccef8ed25b114df737233314c410int),
            c: (1, 0x179c1a7c0c43711ee2efb8367a66bdb9c007f5dc1da65a239bee6e476629881fint),
            dif: (-1, 0x42840edce37116c3bd3e8156282740ba574903cff3c64bf15b98bc3a35f68e5bint),
            xy: (0xd63bb637c2c86600d45b5d3c15a65e6d41b98cf187ad007ffa72bb7042ec128int, 0x4bd10716baa30eb726a4569ea0a5299baa4435b52ebc4e1b6cc72062e11ddfa0int),
            e: (1, 0x23b466da4ba8a0261a0ed53537a87b3200cac7675d7a4037d98e40c6c23bbf3fint),
            g: (1, 0x1b6a54381d1e4ddba42d826470790b6c8de6e4de5f00a6436456b9061ada3fb9int),
            f: (0, 0x3ce39bc10dadcbcc13dca2df6124db2cddeef02415a4c1fc8684abeb4b0b79aint),
            x3: (0x12c0d1520c0f0827fd48cbb5c8002c0fb213defab5dba63c530e1cc4ac29c86int, 0xa5cd728143f1d2848369eeba599480d25f4dd0f6425bb5db5e279710a347860int),
            y3: (0xfbae2b0e9ab064a19964ad0ce4ed7fbf9f89ea9bb5038d9c8072ae51f6824e0int, 0xf473d2565d99aab603d5cc82919d0f798de087b71848fac21596ae0044b1fe3int),
            t3: (0x147c75f9262a1440a21a0a3dec0b30d391fee6d43ad5c4ef526416af372fad15int, 0x13b3559608837d80794a62646710d56f12bc200fc85976e75be37911c9ac4050int),
            z3: (0xe663d86ca1b20d55209fcf1165fc156d44923b6e03fee28d32d2085483ca1fint, 0x3404c1d5cfd3ecf2160f02ac5df673881d20c5e0de1ec4651062531cb983ca2bint),
        },
    );
    lemma_chain_double(
        base(),
        ExtendedPoint { x: 0xa5cd728143f1d2848369eeba599480d25f4dd0f6425bb5db5e279710a347860int, y: 0xf473d2565d99aab603d5cc82919d0f798de087b71848fac21596ae0044b1fe3int, t: 0x13b3559608837d80794a62646710d56f12bc200fc85976e75be37911c9ac4050int, z: 0x3404c1d5cfd3ecf2160f02ac5df673881d20c5e0de1ec4651062531cb983ca2bint },
        0x73eda753299d7d483339d80809a1d8nat,
        DoubleWitness {
            xx: (0xed222590fc9bb79f66f564f512b4ecbb1e323c6ab9179b8cdb436926711706int, 0x5bff760d0a82fdd72c8c7989fffdde11060c45c2db514ff7f9afc8579290cfaint),
            a: (-1, 0x6e2daff258f54d6ac071106f69a1fa24435cdfa6d24946ff8065037986d6f307int),
            b: (0x203770505a90cfb8540ce723bfc6ff9e6a9d6eb8668c1c5ee4fb3fdbbc1d63fint, 0x5e591154d58d6dd03c74f4cba34f46eebbe9aa815f4f3989393a5a8c0f38ed0aint),
            zz: (0x175767de033bb3de1491a65d503c91efeb0729bf44777dc0d8fee09db4e50630int, 0x368c08b86424d69bd79fc8df42feff36f1c626808160acab952dff04f8c4dd09int),
            c: (0, 0x6d181170c849ad37af3f91be85fdfe6de38c4d0102c159572a5bfe09f189ba12int),
            dif: (0, 0xfd49e9d8367df9a83fc1ba3c652b3358773352572fa0d76472aa8ed779e05fdint),
            xy: (0x15d9ea5548e74f26efa4fab61bf895fe6da2f23fcf0b698b6168af729e34a66int, 0x423187625e6328c22347e6112629b946a023575dd698a88761bb0228015712baint),
            e: (1, 0x107567719328d43c1355f41a42b19a87ec890ab8ad32f50fc376045102ae2573int),
            g: (1, 0x589919f404e53df2c9ac2d33034f690dab88e625319a2489b99f5e06960fe010int),
            f: (-1, 0x5f6eafd666390e034da6737c86f342a51bba3d272ed727318f435ffba48625ffint),
            x3: (0xd8c7af222ffc097ef79964fc4fcdf72b31959eb6670f3b7293f641e1c278b00int, 0x33a6e94d80939db69503671bd91be43966ff7576fc493dd326f284dd00eb618dint),
            y3: (0xc193554b3013e8f612cc6eba62e582312dba855e3844f3b1b2bdca7b4c100f3int, 0x3b31544d02c6b0b24c06baad7391d779e87d42e3c49127dfcb1a1f7fa22fbeddint),
            t3: (0x23f5c10f12123d5977660e3321a0a2a1616f89e80cba0e712f05f8bb4b86078int, 0x2a217b270300f6af68a02f4ba25c3c2a0b478670f377fd133b689863ea17e12fint),
            z3: (0x48ef1d7520cedef26b6dc61283a532551e58b0403543890bb4632d6dfde9a5dfint, 0x5ef350c9ddebf4fe188e6c5f9138ea1373415fcc7a4cce7241576c3a4fa8da11int),
        },
    );
    lemma_chain_double(
        base(),
        ExtendedPoint { x: 0x33a6e94d80939db69503671bd91be43966ff7576fc493dd326f284dd00eb618dint, y: 0x3b31544d02c6b0b24c06baad7391d779e87d42e3c49127dfcb1a1f7fa22fbeddint, t: 0x2a217b270300f6af68a02f4ba25c3c2a0b478670f377fd133b689863ea17e12fint, z: 0x5ef350c9ddebf4fe188e6c5f9138ea1373415fcc7a4cce7241576c3a4fa8da11int },
        0xe7db4ea6533afa906673b0101343b0nat,
        DoubleWitness {
            xx: (0x17037b9567a17efe2163f265e68749e1fb0d8cea070f86d7db4744cb592634afint, 0x5bd4ac97303b8642f0ec954a14006f100caf1d26d9c754c81b739dc1e4e3f2faint),
            a: (-1, 0x1818fabbf961f705424d42bdf5a168f5470e86dc26370736e48c623d1b1c0d07int),
            b: (0x1e393faf5094ec3a8d76f8615f760e829c714b97ded351f07f363db012c18cb6int, 0x2e0a6dd21d04cef5b59ef6394905f462641b5f58ccb3becab8c8aac344b13e13int),
            zz: (0x4dc4c536931d8f5b4f34e6872429213099031eb1f6aa9e2ac374c4e78622a4aeint, 0x648cafb21356ff55e8150266f09e6aca06a4da8be25efa8e4586ad6fe7ee5073int),
            c: (1, 0x552bb810fd1081639cf02cc5d79afd8eb98c1114c4bf991d8b0d5ae0cfdca0e5int),
            dif: (-1, 0x5dfc343d05faa557bfe8248cb63d4c9836b0cb865981a46b2bc3b778d66acef5int),
            xy: (0x1a5f952574f2b906bce68b3221177dd18ad91bcf4e7ea116d1aeeb94fd71641bint, 0xea9de1429fe6c2cb995741664be47b3a7e44906f4bb8f39b5cac8e3a30b789eint),
            e: (0, 0x1d53bc2853fcd859732ae82cc97c8f674fc8920de9771e736b9591c74616f13cint),
            g: (0, 0x4623688e1666c5faf7ec38f73ea75d57ab29e634f2eac6019d550d005fcd4b1aint),
            f: (-1, 0x64e557d042f3c1df8e35e43970ae37ce455b79232e2988e31247b21e8ff0aa36int),
            x3: (0x198634644280c180983b4f35b8dfe5eebbc50a47b5eb421b3e327c3b9d95b6e8int, 0x2c9c824211a35caab9372c4c0ada7f7ddb7b31c0f1c98516a8c6d28b13b303c0int),
            y3: (0x38dcc53ab32ee3ae6dcfec3bd33f5ddf6e213079e8dd59b56d923bb4ffc2acceint, 0x3cb7242e8c237f754863f68b106b46bd9f0875e698bd6e8d83024184b6e91f14int),
            t3: (0x17c6a7a7b6e3e8be7ab393f2bf5c7231dc4ee6bfd528a211a70b579f13286103int, 0x7334b91c5203996f839dbaf5d3ee0e147b0bcdbecbade5f9c49112c881c2c569int),
            z3: (0x3d0b2000e812391125306aba31b9326f1422d24d092cf76e1bfae0e19c8ff354int, 0x6299d93124f7a8fdfeafecf6beb5e91178868f5072eeb78631826e9adafd2828int),
        },
    );
    lemma_chain_double(
        base(),
        ExtendedPoint { x: 0x2c9c824211a35caab9372c4c0ada7f7ddb7b31c0f1c98516a8c6d28b13b303c0int, y: 0x3cb7242e8c237f754863f68b106b46bd9f0875e698bd6e8d83024184b6e91f14int, t: 0x7334b91c5203996f839dbaf5d3ee0e147b0bcdbecbade5f9c49112c881c2c569int, z: 0x6299d93124f7a8fdfeafecf6beb5e91178868f5072eeb78631826e9adafd2828int },
        0x1cfb69d4ca675f520cce76020268760nat,
        DoubleWitness {
            xx: (0x112ad29381b1b7cef64b01a4f487345e1eab61c627525e4dad3821fafffafe7bint, 0x453c0cca49a24e20a088cdc790be08d9f0ff8054fdb298de37d3febcbe931185int),
            a: (-1, 0x2eb19a88dffb2f2792b10a4078e3cf2b62be23ae024bc320c82c0142416cee7cint),
            b: (0x1fcc715d515f63590bc00a653fc78aa8278481db59b64e3cc39c78074761593dint, 0x4c805bbebb693d801d2fdeaffba655de33eea751c8c31e31fcf5624fbecc8053int),
            zz: (0x53dd0bc77be1fe7baa7ced46f351369ad41844d603ab90e21a9c87d522f55307int, 0x2e5415183dd2a3ef0ef148ee3851c8481bfcdb9ffdd1c433e3639e0e62673339int),
            c: (0, 0x5ca82a307ba547de1de291dc70a3909037f9b73ffba38867c6c73c1cc4ce6672int),
            dif: (-1, 0x561ee61d4e2f6eefa8bb039886df5152828d205f398700edcb369ef182a06e2aint),
            xy: (0x175d49a2bc13d241a96f760b2ee3824f2425bd425befdb0e8dfd8a6d2dd21b09int, 0x6546aa2b18818060cc21309d0b61042901c1647678cddc094733bc74f35e6ff7int),
            e: (1, 0x569fad0307658379650889320d20304cafc524e9f19d5c138e6778eae6bcdfedint),
            g: (1, 0x7444ef471c6ef5f7ca710e86ae84d0442ef26fccb108553c521639300396eceint),
            f: (-1, 0x1e89cc171fbf24c991fe571403e694795eb313bfcf6b58eafe5a27753b6b085dint),
            x3: (0x16d19937b2ad2d0f856bcfd9909d265d3cb2aabad3f59528de4de77f1364ac9eint, 0x344c9be358bf72af22761994a08915286574ec4474e15c57f3927488dd47147bint),
            y3: (0x565fbcf679a6f74a13fb585f04a2b55752d243b2f25e7e73081ffe74f92f994int, 0x111bda0c26de4c71920562d5b5865a6be67c142cfebc8cad133a3bfb4435b838int),
            t3: (0x4059d6be008e4ff80c58e566eb1ef0f61795f350d775ee796b59951fa1ac7738int, 0x3b0ccffc7f37954476ad108079be54d355edec110f779bb3da3edba6afa81baaint),
            z3: (0x1ea0ca045ab5ba1429ac96457724ffbd8abebcdffa971152e60684f355b0c9cint, 0x1939ab490bdf52846447d07e398c57620420b5b3f56427fa6143c3667512a43aint),
        },
    );
    lemma_chain_double(
        base(),
        ExtendedPoint { x: 0x344c9be358bf72af22761994a08915286574ec4474e15c57f3927488dd47147bint, y: 0x111bda0c26de4c71920562d5b5865a6be67c142cfebc8cad133a3bfb4435b838int, t: 0x3b0ccffc7f37954476ad108079be54d355edec110f779bb3da3edba6afa81baaint, z: 0x1939ab490bdf52846447d07e398c57620420b5b3f56427fa6143c3667512a43aint },
        0x39f6d3a994cebea4199cec0404d0ec0nat,
        DoubleWitness {
            xx: (0x17980fb646dc94a7c1cb09687065fef7a52e71e3c3e15674149cdf579e1fedf1int, 0x5a1e7af6b1939fec5e6dc67327d9107b482851713bb6d617ad2816621dbd8528int),
            a: (-1, 0x19cf2c5c7809dd5bd4cc1194e1c8c78a0b955291c44785e752d7e99ce2427ad9int),
            b: (0x28661cb4616974be335fa7b168bfd6e4dfa35c6db17a2132298e93585a388fbint, 0x3109c154890d0257a5dd979de5db7f6509002fe24641818cc2d842b9061d0345int),
            zz: (0x57d25d6e61126269c069e86c54e617a19dd4b278b1d02db98c683127744e65aint, 0x15153856c6a1683d80851caa672815be6b024534b81b236aaf6fa8f80e3d76caint),
            c: (0, 0x2a2a70ad8d42d07b010a3954ce502b7cd6048a69703646d55edf51f01c7aed94int),
            dif: (-1, 0x5cb3125b189a584c622851ff058f202a5652c6b27e0460598fffa6e2dc257795int),
            xy: (0x7b7e6cd0d15f13f848a5bf37b220a882e8f0bbab704d0302a04a54856bb8b9cint, 0x2b5b1d714b0479473a6780c61e78fbb2e7da15bd1ecd60384ee6e2101100574cint),
            e: (0, 0x56b63ae29608f28e74cf018c3cf1f765cfb42b7a3d9ac0709dcdc4202200ae98int),
            g: (0, 0x4ad8edb10116dfb37aa9a932c7a446ef149582740a89077415b02c55e85f7e1eint),
            f: (0, 0x20ae7d0373d40f38799f6fddf9541b723e90f80a9a52c09eb6d0da65cbe4908aint),
            x3: (0x1871f2db062b6620d29890b1e2aa551b247c2c150ad10b72383d879594c69446int, 0x14dac0661ee541a84fa1564c7a22e9c64c70d9220a174fca3dcdfe29292d09aaint),
            y3: (0x3bd99b95ba80f676331eba05814bf2829c2264ce7012895d5fa912c94ec957dfint, 0x13d2b5265776f83c00fad5cacf22660c784dc4dd1ac95205215972c556c10197int),
            t3: (0x45565166938c2b298406e7f8b8e3247834e653458de3573ce06bd3799eefd970int, 0x5502da55f5becf7a102f3de31a8fa577217f333a7e8801537a884ecc58966d08int),
            z3: (0x1519b25d3454c96c5a446d1eaea339a0a07d65ea9f820d1979b2197e87b39e13int, 0x4f2f9f47f198105534706543dc3db3f229094760ac45d8d83f22b97d8f6f3e19int),
        },
    );
    lemma_chain_double(
        base(),
        ExtendedPoint { x: 0x14dac0661ee541a84fa1564c7a22e9c64c70d9220a174fca3dcdfe29292d09aaint, y: 0x13d2b5265776f83c00fad5cacf22660c784dc4dd1ac95205215972c556c10197int, t: 0x5502da55f5becf7a102f3de31a8fa577217f333a7e8801537a884ecc58966d08int, z: 0x4f2f9f47f198105534706543dc3db3f229094760ac45d8d83f22b97d8f6f3e19int },
        0x73eda753299d7d483339d80809a1d80nat,
        DoubleWitness {
            xx: (0x3c0651a6f29addaa5a5afb0d85da3b9d75c84b6633fba2f245120f5a20bace9int, 0x479d1f68fba1e597f18f29b1979ceb7982ee0acefe42a1079238716c3815b7fbint),
            a: (-1, 0x2c5087ea2dfb97b041aaae567204ec8bd0cf993401bbbaf76dc78e92c7ea4806int),
            b: (0x363bee895dc545fda2b6e45b7b922edcbf97b358de67102a1ee6d780b9c7d8bint, 0x2a8ab4ce08af8e22d67c9e254da5a4b732f34deef251bfe4fa893d0dce140986int),
            zz: (0x3616bcb047a1a07c49e52e84ccc8adb52f2683cb420424a43d52c713a10a2251int, 0x3338e8f4f1b2a61b413e5d5b9a0f81a3b6239146aafc33f15b1b995e35b3fc20int),
            c: (0, 0x6671d1e9e3654c36827cbab7341f03476c47228d55f867e2b63732bc6b67f840int),
            dif: (0, 0x1c5d31c254c098d6b2e1031245f47d49ddc4b450f69fb12733e5184f9d63e80int),
            xy: (0x390e54e6abe2e91cacfb863a986299d08535453833e4ecf4452deaca0bc0cbaint, 0x6a0a75a484fc4fe9e7ffa4a9c5d8dccad17275ce14c2180a13d591833b08508cint),
            e: (1, 0x602743f5e05b228b9cc5714b820fe1904f2747992985d41527ab23077610a117int),
            g: (0, 0x56db3cb836ab25d318274c7bbfaa914303c2e722f40d7adc6850cba095fe518cint),
            f: (-1, 0x645712217ce356e4c8e469cc952d6600eb3968989e136ef8b21998e32a96594dint),
            x3: (0x5339648e461e3d07126b0036aa13c00eea679696bcc0cde0a5fef000a5afbd46int, 0x5b493d041f2a82d0d5a7e6c7b19af3a2054eddaab3bfb43476b95620cecbb5a5int),
            y3: (0x1540448535a92170a3564b41a49accaac644f920b4d5ce2642f8ddb85982af4int, 0x2ad88c90dc6031084622445916b4d9466f37eeb73fc5a552b81869d06858830cint),
            t3: (0x178696112f2e0de448b558cd93c3a27f983f13b0b183559e3384788d1ee8de0int, 0x139eea60d96ce9ac9588adbdf77d7b93cc5a7ea08b1545963cf3ce1c459f8fa0int),
            z3: (0x4b2d64a74c88ac3f3f6c72ba0477aba5fc334abd5f766f7571669578fbd65323int, 0x3372f40e295f777dc7974a3c6791afcea4c8890fa856512f9d4dca54c09dff9int),
        },
    );
    lemma_chain_double(
        base(),
        ExtendedPoint { x: 0x5b493d041f2a82d0d5a7e6c7b19af3a2054eddaab3bfb43476b95620cecbb5a5int, y: 0x2ad88c90dc6031084622445916b4d9466f37eeb73fc5a552b81869d06858830cint, t: 0x139eea60d96ce9ac9588adbdf77d7b93cc5a7ea08b1545963cf3ce1c459f8fa0int, z: 0x3372f40e295f777dc7974a3c6791afcea4c8890fa856512f9d4dca54c09dff9int },
        0xe7db4ea6533afa906673b0101343b00nat,
        DoubleWitness {
            xx: (0x47e1c4a4f7763d8f705ae3a732a36ebf2015f31a64b3d72a71a7b6a374023c97int, 0x49f70882d02a9023be72cc2b90097ae55ced6a1a47ce681dded945a2ac8e7fc2int),
            a: (-1, 0x29f69ed05972ed2474c70bdc79985d1ff6d039e8b82ff3e12126ba5c5371803fint),
            b: (0xfd5dc4ca7c084ee3a11354cb6068e0ab89214f9d5cbff5d7572e6fb197ef4ceint, 0x329e7322a15747742faf171b9c902f7ec2214f1f25b0ac57cc28e26701d653c2int),
            zz: (0x16d5461988fc9ae94bfef1e7bc547e9e2ae9a957536641f04512bf5b455a41int, 0x30934705513c77f3dab0ad5cd967c61e289add9e02ff4f3bd5acd3d9003065f0int),
            c: (0, 0x61268e0aa278efe7b5615ab9b2cf8c3c5135bb3c05fe9e77ab59a7b20060cbe0int),
            dif: (-1, 0x6b45d300e1b922f87851ccc8e6aa05a6886c8ecc927da38854fdd7f4519b2c7eint),
            xy: (0x21bd066a17858cc3e8f05e8a3177f54697df46aec4605456440e20e67f9da0d5int, 0x5ecdd683bbbe7916b311ac3445b3c325641cf053728c0c49c5186e2be89a51e7int),
            e: (1, 0x49ae05b44ddf74e532e9806081c5ae45747c3ca3e519bc948a30dc58d134a3cdint),
            g: (0, 0x5c9511f2faca3498a47622f816288c9eb8f18907dde0a038ed4f9cc35547d401int),
            f: (-1, 0x6f5c2b3b81eec1f9224ea0466cfad867bb7971ced7e05dc041f5f51054e70822int),
            x3: (0x46c6bdac30d6c33cdf9704d5be4c15990bdc9cef3c4a925327d98c4fde439316int, 0x410f1cb5cb61a8eb771ea48af969f9d52babc292233cbcfed4d28b2aa1d39624int),
            y3: (0x55ab78c41842031c2dbfce37400d3148ca97c69a8bbd3baaebcc9396cce5e174int, 0x9fcecfc894a1179cbcf8cea906371cf35e19fb05ab0a1dd89fa4d2f327fa30aint),
            t3: (0x442db90bcb2f2188078f606b5a6b21a6fad6ff7079d6303686ef16d81c8f08b1int, 0x3605303f2ebb152915aab7f33a3149f8b0f55c9660ffc8444da469bf19fd235int),
            z3: (0x58ef199d929a79127827f58d968f0f32d09dfc1c20ed3fd80117daeeb58cbefeint, 0x602b0b679d6205f06b960ce43aac3e2d2a7c7ea3487f587a7a828b1b7d847124int),
        },
    );
    lemma_chain_add(
        base(),
        ExtendedPoint { x: 0x410f1cb5cb61a8eb771ea48af969f9d52babc292233cbcfed4d28b2aa1d39624int, y: 0x9fcecfc894a1179cbcf8cea906371cf35e19fb05ab0a1dd89fa4d2f327fa30aint, t: 0x3605303f2ebb152915aab7f33a3149f8b0f55c9660ffc8444da469bf19fd235int, z: 0x602b0b679d6205f06b960ce43aac3e2d2a7c7ea3487f587a7a828b1b7d847124int },
        0x1cfb69d4ca675f520cce760202687600nat,
        SumWitness {
            a: (0x522cc59eff36053b933a84b322575f2f8dff190d52a46c85ae1f68ec1c510d5int, 0x5666374394df947463d8647d238991b2a8c1317acc32c19790a6f53587ba18d7int),
            b: (0x78cc0659c9d74b9855a495bc59dc8b2a3fbd83a0f3d99a67730ac2a3c5dc789int, 0x6d16db1990843ea99c59f2cde194e45527a49b8937dfe38f9e49939b3d4adc57int),
            dt: (0x13d6c279f1b09ed4d80fd36a9f9529dd51a946b2f6e6f8f4a9b344db7e0872aint, 0x693d5a9c6f632ac39727c6cec26b622e64d243d0045b2adb05cbfab00d4ca57bint),
            c: (0x4d5e36bfb8a4e752a1ab87be79009113f8b34131565d9b2418b1cc22189b7f8int, 0x24a5476438d867b76d866c9a3850208de37be2c962dcebcbcb2f957edf046bebint),
            zz: (0, 0x602b0b679d6205f06b960ce43aac3e2d2a7c7ea3487f587a7a828b1b7d847124int),
            h: (1, 0x4f8f6b09fbc655d5ccf87f42fb7c9e027ca82901041449282ef088d1c504f52dint),
            s0: (0, 0x4b0c09b254abba6542ee317589cd6ba4618d62427ded5edc5eccd859d453392eint),
            s1: (0, 0x60c7d6918e437d8827d3dfcfe8923870431f0f21be6a05e37815793fb5885c83int),
            ss: (0x3ea6d02adcf4d030bdcbda938d7e7545c76044949a21940ce53f751fac12e0c2int, 0x18f340034d8d3d70dc5cd84a56339ae9dce5df79b1db3573185ddddc97fe9c8int),
            e: (-1, 0x25ed704962affb4974072649b38873b174e3d8f99707c62e0295550b047af49cint),
            f: (0, 0x3b85c40364899e38fe0fa04a025c1d9f47009bd9e5a26caeaf52f59c9e800539int),
            g: (1, 0x10e2ab78ac9cf05fa5e2a176695a86b5ba3abd69ab5de84745b2209b5c88dd0eint),
            x3: (0x13793cca3c7700baa68b93550ee959be185621da1097fdd2ba177f19efc1ae41int, 0x16d1bed4842ed6b8974053966c263288fc8d811823ce3b9c6ad7d1340c65d47bint),
            y3: (0xb9698b469e5a1cba8d84575189a34f402b9b4caa9144243256e66d2b07a8ddeint, 0x388a1155af79edd425efc89cb83ce3f801a0d0f2b3ac26bf577f3e96c95ab398int),
            t3: (0x1a0778adb85f7950899f182389f4ef4c6d1f68f9fde597e42b16c2c3fdbfae57int, 0x1b6824f0d34e619a636409a670ffbb3b8ad632429815b086547fad5056669d15int),
            z3: (0x8ab712434d0fbab230f567d04166459c7c04b9cb0e7b87609a86e72dec08773int, 0x3f842cbf2e178b7070a35d5b8677544f523b53ebd6bcb78dc4a03bcb9309f6abint),
        },
    );
    lemma_chain_double(
        base(),
        ExtendedPoint { x: 0x16d1bed4842ed6b8974053966c263288fc8d811823ce3b9c6ad7d1340c65d47bint, y: 0x388a1155af79edd425efc89cb83ce3f801a0d0f2b3ac26bf577f3e96c95ab398int, t: 0x1b6824f0d34e619a636409a670ffbb3b8ad632429815b086547fad5056669d15int, z: 0x3f842cbf2e178b7070a35d5b8677544f523b53ebd6bcb78dc4a03bcb9309f6abint },
        0x1cfb69d4ca675f520cce760202687601nat,
        DoubleWitness {
            xx: (0x47de36e472946c78f10285422b785cb76ca55bc2d3ecd44a2b4f6e6c1a05181int, 0x50f0aca76536460cf31b57fcca3630e339d568f90b74f4df306e36ff1fc9a198int),
            a: (-1, 0x22fcfaabc467373b401e800b3f6ba72219e83b09f489671fcf91c8ffe0365e69int),
            b: (0x1b93233038da249dba753e90e23cc0596e615d3c799781cac1d088b7e199765aint, 0x44b2364ed4e413b9d101d0dca071f99c98262950dcac127f244091e9934473e6int),
            zz: (0x22ccd575613abf0aab12bfd1ecf23095119c76dd34168a854f345c1134f1b150int, 0x3a2ce783cffd392fbb59afaba576175327275ff2c3577b0d3171cc1c72c164e9int),
            c: (1, 0x6c27b4765cf5174379874f414a56a0fa911be286b09a1b62e39839e582c9d1int),
            dif: (-1, 0x52386bb01920a0c9a2568736a89b858ad57fb5bc17dbb09fab5137154cf1ea84int),
            xy: (0xb2112d65ba0f7c70b1e477585a28eba020ede1197cbc6304bd0784358ab85b5int, 0x4dddee90e942931e4bcd036cbc2eddf7ea1eb009285fad7cf17442b77d9aa453int),
            e: (1, 0x27ce35cea8e7a8f464602ed16ebbe3ea807fbc0f50c0fefae2e8856ffb3548a5int),
            g: (0, 0x67af30fa994b4af5112050e7dfdda0beb20e645ad135799ef3d25ae9737ad24fint),
            f: (0, 0x6743094622ee55ddcda6c9989e934a1db77d48784a84df8390eec2af8df8087eint),
            x3: (0x2374d0ac78ea33b8540b2a1f2902d46d0c85be2ebaed06b5d243da96e268ee6fint, 0x54f8b8934dec8570b09b174bac34a03e6a04bd5e950497636879a83bacedfac7int),
            y3: (0x498959f222eb4fe0cdf67f8087e8263a4753346212d2ec169d56485dbf5f9e53int, 0x576dd7ee6088084d452a891e79c5852be37d3ba6aba543d131e9006d80900869int),
            t3: (0x1c3b4012b1236e913c528e090765206fd9292b3cc154ce131a1e9f854259e21bint, 0x244b093695278062940bdaf78a3b6d4da3c0b790db6313dad047233558db64f9int),
            z3: (0x5c5b0c97b86285ffeecdd95f541feec55d31140baea7cb8391a1662bc2a82d26int, 0x68e052a611f97201be45d8feda0338fc8ebab7ebd991f48565f0f84f29e5cdbcint),
        },
    );
    lemma_chain_double(
        base(),
        ExtendedPoint { x: 0x54f8b8934dec8570b09b174bac34a03e6a04bd5e950497636879a83bacedfac7int, y: 0x576dd7ee6088084d452a891e79c5852be37d3ba6aba543d131e9006d80900869int, t: 0x244b093695278062940bdaf78a3b6d4da3c0b790db6313dad047233558db64f9int, z: 0x68e052a611f97201be45d8feda0338fc8ebab7ebd991f48565f0f84f29e5cdbcint },
        0x39f6d3a994cebea4199cec0404d0ec02nat,
        DoubleWitness {
            xx: (0x3e48031e83095a016bc05b7f503c9fcc73d8f597e16e32a4974e3b2ec1bb45d6int, 0x6c593830cfdaf7626f70a8ab2f73e9166ab148b9a3c653e46e327896f06400dbint),
            a: (-1, 0x7946f2259c285e5c3c92f5cda2deeeee90c5b495c38081a91cd87680f9bff26int),
            b: (0x41ef999015bf9ced2bababa0cef1aa264f8d1689982895a3015101f3d828657aint, 0x1d6e85e7bc5d609f8beefc119b2851db2f17b4a7a747037b1330e6629e3e5597int),
            zz: (0x5ee0ba3989bd8cfe6d155b48c3337c71b262202ae32d8b414853bff76fff6962int, 0x1f1a102e4b5de9358632ec34179903a7477697cb3a4fe85061784da27faf38aeint),
            c: (0, 0x3e34205c96bbd26b0c65d8682f32074e8eed2f96749fd0a0c2f09b44ff5e715cint),
            dif: (-1, 0x5e13908dc702a28e6b140b5348a775190db24aa4b4ef609e7e9ca104715da990int),
            xy: (0x40152345e42f3401b835e4be8856903e71117f4a4076429d6673ee3434f77e55int, 0x5bc72bd6b1532112c14a156410580636eabda539262cdfae52677fdb86a954aint),
            e: (0, 0xb78e57ad62a6422582942ac820b00c6dd57b4a724c59bf5ca4ceffb70d52a94int),
            g: (0, 0x2502f50a161fe6854fb82b6e755640ca18240ff1037f0b95a4fe6dcaadda54bdint),
            f: (-1, 0x5abc7c00a9019162768c2b0e4fc61180dcf4845d8edd96f3e20dd284ae7be362int),
            x3: (0x8fab00201d0e0de2453d906923170f73f0a9bfed16924ee074f3b3b77e14856int, 0x40e566a4600f6e89f50c771ae77cbf0ee01a860504f4a84c2bad5614cb964052int),
            y3: (0x1e08f9a9dcd04fd32566b6a6d3585dccb772afcf541a31961495581b65acdeb3int, 0x41999c95c3d64fbb3592d0092428700bcef582b449e7001d1feecd0abcbc909dint),
            t3: (0x94f4e601cf66a3daf6223b8f9f80a3321bc72e5b24ddadbf4e3203ab090413aint, 0x4d5a08f2636496c791e0b71d24b528e6f46e496fd672755f19d2ef774c376606int),
            z3: (0x1cf7faf601a61a880d458ffdacd78f38ae9da3ce654f68987c3e26502b46004fint, 0x6231d0f8de4bb59659384027c28acebd333acc339abe4ee6dc0442b12841070bint),
        },
    );
}

/// The multiples of the base point, from the multiple by
/// 0x73eda753299d7d483339d80809a1d804
/// to the multiple by
/// 0x73eda753299d7d483339d80809a1d80534.
proof fn lemma_order_part_15()
    requires
        extended_valid(base()),
        extended_valid(ExtendedPoint { x: 0x40e566a4600f6e89f50c771ae77cbf0ee01a860504f4a84c2bad5614cb964052int, y: 0x41999c95c3d64fbb3592d0092428700bcef582b449e7001d1feecd0abcbc909dint, t: 0x4d5a08f2636496c791e0b71d24b528e6f46e496fd672755f19d2ef774c376606int, z: 0x6231d0f8de4bb59659384027c28acebd333acc339abe4ee6dc0442b12841070bint }),
        same_point(ExtendedPoint { x: 0x40e566a4600f6e89f50c771ae77cbf0ee01a860504f4a84c2bad5614cb964052int, y: 0x41999c95c3d64fbb3592d0092428700bcef582b449e7001d1feecd0abcbc909dint, t: 0x4d5a08f2636496c791e0b71d24b528e6f46e496fd672755f19d2ef774c376606int, z: 0x6231d0f8de4bb59659384027c28acebd333acc339abe4ee6dc0442b12841070bint }, times(base(), 0x73eda753299d7d483339d80809a1d804nat)),
    ensures
        extended_valid(ExtendedPoint { x: 0x332e54e5733e2d63bfe6365912461b2815eb93066e8748a85623107d70379783int, y: 0x6997d0979900dc6cef238b6b6e93c24e377e8b5108cb2543dbf8c1d03985a148int, t: 0x20a1b0d02bcaa63abb208001cfb2099edc52985e87523770a0c0313e7da67fb5int, z: 0x38431ff0ab54562aedccc7264f97c9027279d9494e03f8054bde32e3864fd1d4int }),
        same_point(ExtendedPoint { x: 0x332e54e5733e2d63bfe6365912461b2815eb93066e8748a85623107d70379783int, y: 0x6997d0979900dc6cef238b6b6e93c24e377e8b5108cb2543dbf8c1d03985a148int, t: 0x20a1b0d02bcaa63abb208001cfb2099edc52985e87523770a0c0313e7da67fb5int, z: 0x38431ff0ab54562aedccc7264f97c9027279d9494e03f8054bde32e3864fd1d4int }, times(base(), 0x73eda753299d7d483339d80809a1d80534nat)),
{
    lemma_negative_base();
    lemma_chain_add(
        base(),
        ExtendedPoint { x: 0x40e566a4600f6e89f50c771ae77cbf0ee01a860504f4a84c2bad5614cb964052int, y: 0x41999c95c3d64fbb3592d0092428700bcef582b449e7001d1feecd0abcbc909dint, t: 0x4d5a08f2636496c791e0b71d24b528e6f46e496fd672755f19d2ef774c376606int, z: 0x6231d0f8de4bb59659384027c28acebd333acc339abe4ee6dc0442b12841070bint },
        0x73eda753299d7d483339d80809a1d804nat,
        SumWitness {
            a: (0x51f81658866ae48737d695e8f571bd9eb3d823320326ed6810fbac1c6b1dce4int, 0x5f05bc8d3d799141e4669a713a53a20b3ea5a0141ee7a03558801369e2b47bb2int),
            b: (0x31961a68d66792f64536e13c0fe889fcad786d6fd7cabd4a879259c9a59c3197int, 0x4dfa9b7633a9abc4bba6cfcf698e881da5406261c4ed12e74baee7a40667ecd9int),
            dt: (0x1c6848876991fb0792c3b0c3428692fbc06e988eaff896f1ae37be356fa1db32int, 0x46506fe2a6405e7fbcfb57e3b2ab6f490c83ab7e7f151316bf81e07b6a9922f4int),
            c: (0x33b134eafebca7f8e949579f32fc8e5daceecedd6e1d9a603eaf848b4eb10a5int, 0x6a4e1efa6814fefc1e6915cf056c718f4912ef7bcf7f1ec8580b59724fa5b9afint),
            zz: (0, 0x6231d0f8de4bb59659384027c28acebd333acc339abe4ee6dc0442b12841070bint),
            h: (1, 0x3912b0b04785bfbe6cd392389a40522390285e72e3d6571da42efb0ee91c688aint),
            s0: (1, 0xe915be6fa4840fcf7656f1c020357155b5264b64edd4c6a4b9c23208852d0eeint),
            s1: (0, 0x60c7d6918e437d8827d3dfcfe8923870431f0f21be6a05e37815793fb5885c83int),
            ss: (0xc2962d8ccf4b46b9f340d204d4c8a4686d207a19115fa1b3122f3ab87e71b70int, 0x59a58ddcd4b256c6a44f96044dab4f9b006dabbd2342a18f329cb4b141ff565aint),
            e: (0, 0x2092dd2c8d2c9708377c03cbb36afd7770454d4a3f6c4a718e6db9a258e2edd0int),
            f: (-1, 0x6bd159519fd433e26e090260c6c035333de580bacb3d8c1d83f8e93dd89b4d5dint),
            g: (1, 0x589248a01cc3374a44677deebe556847289017ac6a3f11b0340f9c2477e6c0b9int),
            x3: (0x1e4b7616cbcaa57e96046ca9ffcf4b8d39df28c216194e9a77c24dafb9cb7643int, 0x52dc7ddfe0e7c299a2695f2d17f6fdb0fa2291bfe652502deb0bb1e74f1c7e4dint),
            y3: (0x2b9ad7588c9987d354852992b855e012210d37465cdbffb0551adccf990abfb1int, 0x3744db5d47645fbfcd7beb441bf45816094c2fe620376434e3b8ef033ce04c09int),
            t3: (0x1009547268bf52076905396aa97c7a217a3bde1d99c1826ac50c40e5582b12bdint, 0x541c3f170b6bc0d4b6cc768b7e2421745b147d500365e7f7554b0c1c15859f63int),
            z3: (0x525ff2ae4827932a2a76935f8bc3c20e4d3ca30574aa99c959cad86e1b4ab0fbint, 0x52091b5beb39ecd1f15081d5aaed18ad86244d0c6cc17c6da1fe2244a383f73aint),
        },
    );
    lemma_chain_double(
        base(),
        ExtendedPoint { x: 0x52dc7ddfe0e7c299a2695f2d17f6fdb0fa2291bfe652502deb0bb1e74f1c7e4dint, y: 0x3744db5d47645fbfcd7beb441bf45816094c2fe620376434e3b8ef033ce04c09int, t: 0x541c3f170b6bc0d4b6cc768b7e2421745b147d500365e7f7554b0c1c15859f63int, z: 0x52091b5beb39ecd1f15081d5aaed18ad86244d0c6cc17c6da1fe2244a383f73aint },
        0x73eda753299d7d483339d80809a1d805nat,
        DoubleWitness {
            xx: (0x3b39e804e41f670f5f7c29ff20c9fec1ebce504a4ed1404f7b5fdd9594be2287int, 0x29809209088edf75e1c7f02e507ad935fe657a1206fb8b9896814706d069c0a2int),
            a: (-1, 0x4a6d154a210e9dd25171e7d9b926fecf555829f0f902d066697eb8f82f963f5fint),
            b: (0x1a597c05c9c721a128b496eb3780186da523c8b4bd4c4b256e7f5f161263a08eint, 0x529c9782770b904d7b98df19e0f89894b32185ef4b27ed213088bfd74bf1b7c3int),
            zz: (0x3a0d3b57b0e123e91641a7da854432518fc6b3417ee2f4785d929838c780a1daint, 0x3ac6af6a1617a1bac0a5b0da4f669dafb43ba71d58569aa493e194c089c574aint),
            c: (0, 0x758d5ed42c2f4375814b61b49ecd3b5f68774e3ab0ad354927c32981138ae94int),
            dif: (-1, 0x6bbe251ad3a08acd0912e0c7e1d03e3ff5f44804add93f4438f5f91fe3a4879dint),
            xy: (0x278114b037253ff5ac77a58f4e553d3d3e6e73be6fcbb0ac7b2da656875f2717int, 0xf406ef61eefa4484ca4782eb3d9a8551f065a23be2598c23ef2b1ce4580259eint),
            e: (0, 0x1e80ddec3ddf48909948f05d67b350aa3e0cb4477c4b31847de5639c8b004b3cint),
            g: (1, 0x291c05796e7cb0d799d0eeeb907dbf5eb4bc0bdd442c61889a0778d07b87f721int),
            f: (0, 0x21c32f8c2bb9bca041bc38d04690eba8be3496f999218e34078b46386a4f488dint),
            x3: (0x8e238174ecb72a063e20e804f9f9be4db5e89b8e6c0cbffc53b3a94c9eec02aint, 0x2d15d072a966a14ec176743b20e84c55d21182a4b0c718d169234b43e9e78fe2int),
            y3: (0x2634ee581bd4d13fd206ab736aadd4d9b65016e9c9a64abc30ba58539e89217dint, 0x3c19c8e63f6f960ccf893b5ac138d757d5141bd6072a8e58079d8b656b4fd4c0int),
            t3: (0x1c597da5896e4af2ab91519b6927a3889bbaf0303afc42be82a3fc6b44c94635int, 0x1fe27102efb0347b60a1b290a1f139011a75ab4f19b469a3cd87b54288818197int),
            z3: (0xbf8f7eb3317d38bf27c0b64852d74eaeab95d772d6ed239962c4be227e15f7cint, 0x4b7437c3638d897c44e1df7448f17c228c30034b2247c7b36685c1ad0cb205b1int),
        },
    );
    lemma_chain_double(
        base(),
        ExtendedPoint { x: 0x2d15d072a966a14ec176743b20e84c55d21182a4b0c718d169234b43e9e78fe2int, y: 0x3c19c8e63f6f960ccf893b5ac138d757d5141bd6072a8e58079d8b656b4fd4c0int, t: 0x1fe27102efb0347b60a1b290a1f139011a75ab4f19b469a3cd87b54288818197int, z: 0x4b7437c3638d897c44e1df7448f17c228c30034b2247c7b36685c1ad0cb205b1int },
        0xe7db4ea6533afa906673b0101343b00anat,
        DoubleWitness {
            xx: (0x1188adf576708557806cc1a5168217e878b387d8831d326ac3bc5d727148d77aint, 0x3d9a352c0b19f589fad8a53ede920562d374a2355c6e3ff05c938bb1ed716c0aint),
            a: (-1, 0x365372271e8387be386132c92b0fd2a2804901cda3901c0ea36c744d128e93f7int),
            b: (0x1f2873a7681546f98bd75999d5c9a7f68fa2e530f7363f7c1e797e8fd8fe132bint, 0x221b6185711dfa9471bc07d732434d9dbd5c2f894fc66a82b906c8d8a6507cd5int),
            zz: (0x311c4bfe721a04cbedcaf51e5c220098d1d3bdf22c79dc46a027d3407a4d3e3dint, 0x2bbe93e5d13030d20e0a4eafb4657551e3f879721085dc5e65e12a8b07f72624int),
            c: (0, 0x577d27cba26061a41c149d5f68caeaa3c7f0f2e4210bb8bccbc255160fee4c48int),
            dif: (0, 0x143810a1ad658d29c6a52af1f8cc8504c2ecd24453c9b18bea65ab746c3e1722int),
            xy: (0x175f9f4ebaca3a47ab27f9049aaf359bf018140e721c1aa680f8c4144ea304b7int, 0x146f3d7ab2377f34a87104f57f2657e720d3419cc200500cee456308beee0cc9int),
            e: (0, 0x28de7af5646efe6950e209eafe4cafce41a683398400a019dc8ac6117ddc1992int),
            g: (0, 0x586ed3ac8fa18252aa1d3aa05d5320403da53156f35686915c733d25b8df10ccint),
            f: (0, 0xf1abe0ed4120ae8e089d40f488359c75b43e72d24acdd490b0e80fa8f0c484int),
            x3: (0x5532bc5c776735e02cca4b9d59082344f46cde73e57dff1062200a0b4bae4cint, 0x72717fd3cb9c6d671b97881c02dea700bec40344c304104da88d525126a548fcint),
            y3: (0xf6c6d393775f2d549e5c9ea726498243b5e31e0e9e47753069174195eb05e95int, 0x4b989cb8355d9b052333d31282c1a473127108574128a76190d42ea65ada3083int),
            t3: (0x720c18c0fd24c110c9554c1f37e1d7606ad32273ce30bd308bb029fd080780cint, 0x34f5df2d15eac65efafe3e0fee80715aa262d8a75804c4be7abec84d76630b58int),
            z3: (0xb85a4db230bf4c1767d254db6a052b626c5e6bbdeaf943d6342a3e45737436int, 0x1ba6c9cde5be9947061cdebd78ec3a6815400e451538d394b2b6430f75ad64faint),
        },
    );
    lemma_chain_add(
        base(),
        ExtendedPoint { x: 0x72717fd3cb9c6d671b97881c02dea700bec40344c304104da88d525126a548fcint, y: 0x4b989cb8355d9b052333d31282c1a473127108574128a76190d42ea65ada3083int, t: 0x34f5df2d15eac65efafe3e0fee80715aa262d8a75804c4be7abec84d76630b58int, z: 0x1ba6c9cde5be9947061cdebd78ec3a6815400e451538d394b2b6430f75ad64faint },
        0x1cfb69d4ca675f520cce7602026876014nat,
        SumWitness {
            a: (0x908d24b13398b1a5aa2204d021bdde4c79f88691e8ea8b060c8d972421d1b17int, 0x6e3269b7df22a8bf1ea85cff0996f696f802f401d341e73f60d35cef6ac1f29dint),
            b: (0x39246c4b9abb51234b401914af5eeebf047511a924263eabf806fba10aefb54eint, 0x3934694f1c459d8cbdb48c376b9109b0bf49319e4a3cc145b0323c1a1c1c0242int),
            dt: (0x13731e6a92e914e1b67e44634ab0db9c9f9390bc0b66ddca1d9461cf016e7de0int, 0x44aac31d7e0250d1c0b5d4a7fc347630001386be090615a0bb095775b3aba9f8int),
            c: (0x327b35448569d77478f16b1ddca20a00dd021760f67261f8ed2a4bd6d022439int, 0x3930884c0aed5ae7662d1713517b3946464f37c10a9b7584b8985d31bb55fffint),
            zz: (0, 0x1ba6c9cde5be9947061cdebd78ec3a6815400e451538d394b2b6430f75ad64faint),
            h: (1, 0x33792bb3d1cac903a923112e6b862842638e819d1d804c861105990a86ddf4deint),
            s0: (1, 0x4a1c7538d75c8b240b9183267bfe736e7d776799042e5bb0396180f8817f797eint),
            s1: (0, 0x60c7d6918e437d8827d3dfcfe8923870431f0f21be6a05e37815793fb5885c83int),
            ss: (0x3ddecde3c12fb29a9e0b9c3cc9afb7547a7ae0cf9f2bf3189945043103ef9200int, 0x605855b4284936075eddf27469b325e98af88d368e0c12602f9e3c23b0e4e17aint),
            e: (0, 0x2cdf2a00567e6d03b5bae145fe2cfda7276a0b99708bc5da1e98a3192a06ec9cint),
            f: (0, 0x1813c149250fc3988fba0d4c43d486d3b0db1ac9048f1c3c672cbd3c59f804fbint),
            g: (0, 0x1f39d252a66d6ef57c7fb02eae03edfc79a501c125e28aecfe3fc8e29162c4f9int),
            x3: (0x951c533d1e479ff996cd47be7de93acd5f8f3606c6c7cbaeb57921229520402int, 0x3b92261594084ffc9d15e3d2495f6647d3d39b179f3d021c54a7fcb9a4a68f2int),
            y3: (0xddd55e7bd2893083209512228050db7d430c5f3d90f00a17d2fcb230c670388int, 0x118b9bf890211aec843c2317a2be78ac64e7186b982cd82ff12217898bf22066int),
            t3: (0x13ec6a00357cdb7669edee3b7567e0d6e7b80e535b161818ebf29d1c4c62683cint, 0x6ac1f9bdb350f78fa4efb87e8047a9497ee73a4269f1ff4e1fb498eca9cf770cint),
            z3: (0x67c3cd6968a7ce7e779a139aedc4951651e612a976e7f2f673d6ad5a755ebc5int, 0x55fb00f6e77d2d6e63bbe212c42c5fe2ac71be9b40b2eb68f02c2eded1cd185eint),
        },
    );
    lemma_chain_double(
        base(),
        ExtendedPoint { x: 0x3b92261594084ffc9d15e3d2495f6647d3d39b179f3d021c54a7fcb9a4a68f2int, y: 0x118b9bf890211aec843c2317a2be78ac64e7186b982cd82ff12217898bf22066int, t: 0x6ac1f9bdb350f78fa4efb87e8047a9497ee73a4269f1ff4e1fb498eca9cf770cint, z: 0x55fb00f6e77d2d6e63bbe212c42c5fe2ac71be9b40b2eb68f02c2eded1cd185eint },
        0x1cfb69d4ca675f520cce7602026876015nat,
        DoubleWitness {
            xx: (0x1e9c6fa710495834d1fafea3ed6b048f3b61069ef0ccbb97fcf810414f8f96int, 0x72766e1813673b82c989cdba94065b65bd45f6d9f0097edbac5abf35bd9df52eint),
            a: (-1, 0x177393b163641c569b00a4d759b7c9f9677ad290ff4dd2353a540c942620ad3int),
            b: (0x2a7ca14d3d190744c7b59c1bdb81b6a6a2bbd0bcf2f6f28f3fb87fabe1f89b6int, 0x8af0f34b51972dcf67625eb61ebd7f7d585315f19af4e5908b5d7174ad21eeeint),
            zz: (0x3fc4e2996a7f157f230e7637f3ab4d3f59805fc792e69b5495b765a8bc5f9843int, 0x593e71f7faef922ccd3e0a3bb5e39b702851226d67a4307e0760c3bbc87e2a41int),
            c: (1, 0x3e8f3c9ccc41a71167423c6f62255edafce4a0d7cf4a04fd0ec1877890fc5481int),
            dif: (-1, 0x6cb5d1598aba4c30a673bc6a1d517cad14b01fccf643eac94aef69b0f78febe6int),
            xy: (0x9040e88b41aa98b1e91102313dcc0dbcb8799f07ae6c5eac0ee18d8cd80568int, 0x30cb96eafd8a09af9e2589179006b8db50b1776982bde2732b13ab17d4b00b04int),
            e: (0, 0x61972dd5fb14135f3c4b122f200d71b6a162eed3057bc4e65627562fa9601608int),
            g: (0, 0xa26486fcb4fb4a260263038d78754976bfcde8829a42b7c5c5b17e08d3429c1int),
            f: (-1, 0x3f84b32628ab8ad92c1dcbd17f03cdc1c2d5e1b35a58827e4d999066fc37d541int),
            x3: (0x35788c306d344f3f70cdabcdfd11a2db5fe0b428f9d1a103a7c1382d01b036afint, 0x549f363f36c19743ffce83889f9794d95e08dcd00ab2f88e7f0ec90d8dc20959int),
            y3: (0x9848131153a5b09e87163f54a9b31ec6557922da63a4bc3a91496037fd7f94cint, 0x2864ae7c575ae50d50480f3b703257cfe80e35f23b334793ac5e0ac2c928b51aint),
            t3: (0x5b83a34849a5c9e975fa62d933ba0218c4c37c7f8eea341b04da90b4bb621b9fint, 0x227826d92e27b9a10b58e1e467ad65ec7fe570e0cae610f9179879a5aba30791int),
            z3: (0x58fa06d59a12cab500c3f127ed2e5520779f0033dc374b8e35799c8e8c5234fint, 0x30cbfcc6051ad013054b8ca18f4cbe6b8dcd6aa9f465617d0b48513b4cae0bb2int),
        },
    );
    lemma_chain_double(
        base(),
        ExtendedPoint { x: 0x549f363f36c19743ffce83889f9794d95e08dcd00ab2f88e7f0ec90d8dc20959int, y: 0x2864ae7c575ae50d50480f3b703257cfe80e35f23b334793ac5e0ac2c928b51aint, t: 0x227826d92e27b9a10b58e1e467ad65ec7fe570e0cae610f9179879a5aba30791int, z: 0x30cbfcc6051ad013054b8ca18f4cbe6b8dcd6aa9f465617d0b48513b4cae0bb2int },
        0x39f6d3a994cebea4199cec0404d0ec02anat,
        DoubleWitness {
            xx: (0x3dc5115df8a2c236022a220e82133354a95bba5ca377d2ad141121e7a0d728eeint, 0x56119dbd95a1f20c271e0ae2a19ac36a5b36b88647c20eb647640d6e94643803int),
            a: (-1, 0x1ddc099593fb8b3c0c1bcd256807149af886eb7cb83c4d48b89bf2906b9bc7feint),
            b: (0xe13099271b9672057fa88624030b9673a87c678a583a04c819e7002a4f8892fint, 0x59a67eaa89917c0958710ac562c13f3f006e414a58315edc05b8f7047453d75int),
            zz: (0x148a281481c0362cb546a7e2fdd59a905f074645391498423a429265808586bfint, 0x63baffbe8121d1f77404d325482dac8fccb2b12c7c5d7e0b8fac9ab15fb4105int),
            c: (0, 0xc775ff7d0243a3eee809a64a905b591f99656258f8bafc171f593562bf6820aint),
            dif: (0, 0x1841a1aaeb62737b7694bc7911db00a70880076812b9375af840632024568a89int),
            xy: (0x1d7c2efc353e39db8584c3ed280ff4359ba5f13a1afab2f220a2018450ca98abint, 0x577378cb3e41435c9ab2775ad113df71e0d5291872e04427d651a6db9c6e475fint),
            e: (1, 0x3af94a4352e50971022b16ad9885e6de6decae2de5c22c50aca34db838dc8ebdint),
            g: (0, 0x237671803c94a2fca1a2ddd1be33288ee88dcf915dbf633678f78200b2e10573int),
            f: (0, 0x16ff11886c7068bdb322436d152d72fceef7796bce33b3750701eeaa86ea8369int),
            x3: (0xbb2ce0a211b7cbe4f8fab63d8dfc6e46e61375790abcd3d7c968846d3ab3a6eint, 0x214f26a0bb3e195c4b9479fcbbc96f48c6da71d1891ab030b7e3c3a2c2980817int),
            y3: (0x76b895be592b1c84d181b66be69361e2414843e62381e13cdc614ba3bddb3dfint, 0x4b597b205c1f23c5068cf7a9e72eb0fc6970e389fbcc4789820075adcc2034acint),
            t3: (0xc56e543a0439bc42cc283bae38f9c6fed6bb1bd253ee0568d12da4a23516e98int, 0x53ba9bd482847b75dccc435631d7f35ce95a3214722a9273336f8755b726d68dint),
            z3: (0x708dd2ec3823dfbbca6c019b319fa7579db01b924cbf512b5d424b704014150int, 0x6249dc437b36f29934ed373cbb2dbdee5af2bdfee83f1dd5ec6e9d52ad31d3dbint),
        },
    );
    lemma_chain_subtract(
        base(),
        negative_base(),
        ExtendedPoint { x: 0x214f26a0bb3e195c4b9479fcbbc96f48c6da71d1891ab030b7e3c3a2c2980817int, y: 0x4b597b205c1f23c5068cf7a9e72eb0fc6970e389fbcc4789820075adcc2034acint, t: 0x53ba9bd482847b75dccc435631d7f35ce95a3214722a9273336f8755b726d68dint, z: 0x6249dc437b36f29934ed373cbb2dbdee5af2bdfee83f1dd5ec6e9d52ad31d3dbint },
        0x73eda753299d7d483339d80809a1d8054nat,
        SumWitness {
            a: (0x1eadfec7438b590230b14ce4ba0d3e4bdca8ad44c8c16b78722383e2f56ea14fint, 0x320fa08a4766bcc2d54513c4b56115bca7ef84bdd2b4680414b62455ed34c653int),
            b: (0x38f4b3ed89a8362ea9feb1f65a96cf7f259ed45b13855560311a8aa63192eae1int, 0x52b3873838dfae5b5b16e60ce275b66d8e0db7ef29eb58c1896fdbcbdc4c915fint),
            dt: (0x1ebfd849b831b433dbec9fea88fe50ccfae1e165864b20f5f004a32a60bc0572int, 0x4eb004fa9b8c5bbc2d44dfb1463852f713f907dca92219d740820f021bb8780bint),
            c: (0x4b1273a50b4771d496bdcefeadf49e01212d6abba24332f61e0f5d8f78f06701int, 0x411e06e8fa75678e3f7bede95f9adc4cd16b96c5e0430bc83b31f52a7f012317int),
            zz: (0, 0x6249dc437b36f29934ed373cbb2dbdee5af2bdfee83f1dd5ec6e9d52ad31d3dbint),
            h: (1, 0x10d5806f56a8edd5fd2221c98e34f424e23f98a9fca164c69e260022c98157b1int),
            s0: (0, 0x6ca8a1c1175d3d21522171a6a2f82045304b555b84e6f7ba39e439508eb83cc3int),
            s1: (1, 0x4e7a2cab4d8fef627fa28fd19ba7c19a97abbf79df4db594e896ec1ba05d0dddint),
            ss: (0x498e5ce72797512def6bbf32b1465644c5effba77ffb5a2172395d2a6616c664int, 0x36e020e5efd2a861691c57c65b7c08c3f59c251e8e31bbade7f7267d1ce294f3int),
            e: (0, 0x260aa0769929ba8b6bfa35fccd47149f135c8c74919056e749d1265a53613d42int),
            f: (0, 0x212bd55a80c18b0af57149535b92e1a18987273907fc120db13ca8282e30b0c4int),
            g: (1, 0x2f7a3bd94c0edcdf412f4d1e1126c235d8a0b0c1c883cd9f27a0927e2c32f6f1int),
            x3: (0xae29161120fd2a6d584dc5cd4d7eeeae52ef967d44064d06e70601dba36060aint, 0x2ce5b6bc3b20331eec12f8a49e46586966dffe91e7132c9adb0d19f44eba407eint),
            y3: (0x6e4eb93fa822916b0666b037b4bc54c5d8a9f5b3895bc64bb7fc7ad0edafefaint, 0x6b2254a603b4d746d2b5f9c6e00f5cd71e593a9d603119d471fc77227abea4a7int),
            t3: (0x586262f06f78b3f0a10441b70c14d35641076f3cf6d53ec3709a7f810a52d74int, 0x1c5087076929eb118948c2c7177053e75d8760cfc2f4904a1cf13c2251a99b2eint),
            z3: (0xd95c2515b820574c71d014258fc26896ac22f9dfa75277483261a30e5126353int, 0x6d5ab90532df51627d46a65eb014594ffdc394a5857f693a1cad5fb496e85d31int),
        },
    );
    lemma_chain_double(
        base(),
        ExtendedPoint { x: 0x2ce5b6bc3b20331eec12f8a49e46586966dffe91e7132c9adb0d19f44eba407eint, y: 0x6b2254a603b4d746d2b5f9c6e00f5cd71e593a9d603119d471fc77227abea4a7int, t: 0x1c5087076929eb118948c2c7177053e75d8760cfc2f4904a1cf13c2251a99b2eint, z: 0x6d5ab90532df51627d46a65eb014594ffdc394a5857f693a1cad5fb496e85d31int },
        0x73eda753299d7d483339d80809a1d8053nat,
        DoubleWitness {
            xx: (0x1163582a6e9b4a652d4fa190365a0d778d30363dd72e2f5e2e81846bc1d05b24int, 0x2bd8e813d7f6f23cd4a64b427318ae95349acf147c3f1923ff469b6cd86e2e0int),
            a: (-1, 0x713018d1ec1e0e2465ef7353e2704d1c0073f711b83a6a6cc00b964832791d21int),
            b: (0x6301ca8f9cc1553c175b85e871517110ae11434173f45f6df779de2b153365fcint, 0x6d8692114c12792763e5d6bbf93e02bdd5dc87b5ef90aec2c712c914e896fef5int),
            zz: (0x672739cff705d1b3fbb680a2256b4afca9f7458c7d91e5b4a02407d8c5bb2336int, 0x6ea4be81ec7a9b5001c0214d4f2c9d0bb632234a4b4a9b63d6b3a663b101802bint),
            c: (1, 0x695bd5b0af57b957d0466a9294b7621218a6a2919696dac8ad674cc862030055int),
            dif: (0, 0x3a986c0a00b94fd02099c97e9324a5e2a976f5bc8a9bba9f8f8cd3349e21e2cint),
            xy: (0x297dcf56abf5a0a8a81701b5fcb036bba5722cb605de86d1eae7dc5846f2b7fdint, 0x3ca16b088bb82de6693ff440383c482a60aaaa71dbf2b02679cda0274f621235int),
            e: (1, 0x5552ebdedd2de849f46107866d6b84f6d97b0e0b7e7044df39b404f9ec42469int),
            g: (1, 0x6ac903900e930a03969b7207d20c77d48292dac4a7ccbd30871e5f5e1b101c15int),
            f: (0, 0x16d2ddf5f3b50abc65507753d5515c269ec38331135e267d9b71295b90d1bc0int),
            x3: (0x10cc621e39fc2dcfab8452de4ae46ffcd30aca71a5145410d42ab481abcab0int, 0x4c7b0b91ebed6a3379864464f3587d0a2cbadfd48748c5678d9ea2d3fb9b9710int),
            y3: (0x35f95b7c49bf7f6203f86ecee0f46ec007ce340f368a909cfda416914182e04int, 0x3d66472058562ff3984f167b7683e7bed92c97e2ab938ba9ea793d5d3d811b98int),
            t3: (0x2b20654b8c0099457bf6e91d2b59e0bbb0e5515812c9db83e57557613d28d6int, 0x5c65d6406a6ee99278f41f3199c91926f508e7590a5040431813833dfa6f6736int),
            z3: (0x15060c201e1428add06dc985d65b9c25e61b265da3de037c9c0b184538217d9int, 0x2b5606f70357f74fba62deac60acecdccb662389daf9b5b2b04ab019459a2ee7int),
        },
    );
    lemma_chain_double(
        base(),
        ExtendedPoint { x: 0x4c7b0b91ebed6a3379864464f3587d0a2cbadfd48748c5678d9ea2d3fb9b9710int, y: 0x3d66472058562ff3984f167b7683e7bed92c97e2ab938ba9ea793d5d3d811b98int, t: 0x5c65d6406a6ee99278f41f3199c91926f508e7590a5040431813833dfa6f6736int, z: 0x2b5606f70357f74fba62deac60acecdccb662389daf9b5b2b04ab019459a2ee7int },
        0xe7db4ea6533afa906673b0101343b00a6nat,
        DoubleWitness {
            xx: (0x3274c18a158c4d1d55ec24affb1142f34303f2b66d7993a33439d1eab20f7e31int, 0x245b7128c0f16d472a68f611e758f47b8e36bd3a92ef41c83a8b696ff47462cfint),
            a: (-1, 0x4f92362a68ac100108d0e1f62248e389c586e6c86d0f1a36c574968f0b8b9d32int),
            b: (0x2084ecf3d1273ad37c45d8c71bba42406a31a1a8e49e1f2c48a8fa08f3efb113int, 0x62e08200ea70c0a06dd3b7bd83b00641df7f318a44c4f262e6b1fbbd4e39b92dint),
            zz: (0x10332451104c96d3240a6d2ea84c84f3d5731a35a1015276b9171e30e5a1bd58int, 0x6a547041234155774ce27f4ab7564bc50decb9b3d9e8c821959de26a16e21719int),
            c: (1, 0x60bb392f1ce52da6668b268d650abf84c81bcf64b3d334442b3bc4d52dc42e31int),
            dif: (-1, 0x609f5b7ca7d8cca8ce370240a83ab54d39c55941284883d2dec29ad0bd51e406int),
            xy: (0x2881b793e555c4f418f6cb48cdb5e8c0ab44c9ab030ef8e5112557a872e0d40eint, 0x5b83474ac9d966da53e38c33b48c293a7dd462777f5aae1f43f31302497f8d72int),
            e: (1, 0x4318e7426a15506c748d405f5f767a6fa7eb20ebfeb7003f87e6260592ff1ae3int),
            g: (1, 0x3e8510d8297f5359436ac1ab9c5711c65148744fb1d5b09aac26924d59c5565eint),
            f: (-1, 0x51b77efc3637a2fb1019732640ee2a46dcea48edfe00d85580eacd772c01282eint),
            x3: (0x2f4bd601a0b9598a6f17a6482e8506670f97e191447ecb8cd1fa6bb3d2b41b13int, 0x5d68132f0c0271e526b03e205ad8d44bbf0c908e6f8b799c2dea157a923931b7int),
            y3: (0x341bb36d6e104cab6ae99c736878cfe15084c6ab33632be3cc5a1027721657abint, 0x56c8f2d2b472df518c209e64ae00acadaef71060e08a217f0c3769db23336689int),
            t3: (0x37ec63aa1f452a1295767232c36eebb94eb3d580b79fcbcfbc4600211f559275int, 0xdd6151d03c9540dbe07d99a29d04f3b1f2d441423a44ffed113ad619f6a3addint),
            z3: (0x2c11d19d00500518ff9b761e538691f3e567c36d0166df60e60b431157af0e51int, 0x2d8ed661b508a947d2603313cebc8e0be48d2a86f211339bf7f9db7c1da32693int),
        },
    );
    lemma_chain_add(
        base(),
        ExtendedPoint { x: 0x5d68132f0c0271e526b03e205ad8d44bbf0c908e6f8b799c2dea157a923931b7int, y: 0x56c8f2d2b472df518c209e64ae00acadaef71060e08a217f0c3769db23336689int, t: 0xdd6151d03c9540dbe07d99a29d04f3b1f2d441423a44ffed113ad619f6a3addint, z: 0x2d8ed661b508a947d2603313cebc8e0be48d2a86f211339bf7f9db7c1da32693int },
        0x1cfb69d4ca675f520cce7602026876014cnat,
        SumWitness {
            a: (0x75fae92d9c830cee47c80514b848c399b9908c38e9a98315f3e5709b8be6293int, 0x5916cc10ac0f3dfc61ab4614846b998d9b2a336fc4b85f511b34b34314be1cc2int),
            b: (0x41998af6684d3e764d8fa2c340e367405de4d5bd2b4c351bc02cee765451e817int, 0x5d40f7b3f376ff4569104430c0d84723db44d559fe912fa598b137dd84522e99int),
            dt: (0x514d3c8afe605bf00f2027262bf771d1c9915e6f304595f54c1eee8352ba993int, 0x63d73ad86b29e3023c8c82fd3e804adb07eb4287bd4ef225f2eca64c706c8f3aint),
            c: (0x49662190231443d5671ba88c36ed25e7f40b97e0a6e0f2c10eee5ffa16613e6int, 0x6fccf523ba6b373b178b52395789992d3f644b99aee5f80c666ab7b7e09a3104int),
            zz: (0, 0x2d8ed661b508a947d2603313cebc8e0be48d2a86f211339bf7f9db7c1da32693int),
            h: (1, 0x426a1c7175e8bff99781b23d3ba208ac22b164c6c34b32f7b3e5eb2199104b5aint),
            s0: (1, 0x40435eae96d7d3ee7f97047cff37a8f41a45fcec50173f1c3a217f56b56c983fint),
            s1: (0, 0x60c7d6918e437d8827d3dfcfe8923870431f0f21be6a05e37815793fb5885c83int),
            ss: (0x35a61ee6743b03a4e61bc04794ec9bd4f0de7b8ec03491e14488acb0c1f8a647int, 0x5202ac5494e26a52048bc76ab965889c119ea4770eb5947a3987b3fe87c7e5f6int),
            e: (0, 0xf988fe31ef9aa586d0a152d7dc37fefeeed3fb04b6a618285a1c8dceeb79a9cint),
            f: (-1, 0x31af8891243aef54ee0eb8e280d4cce3f8e682f04329978e918f23c33d08f590int),
            g: (1, 0x296e243245d6633ab6b1ad451ca44f33d033d21da0f8cfa95e649334fe3d5796int),
            x3: (0x6af2ba8dfd24ad46f28840e442578fd346a590a6df0cc78b4a3aa4ba408f728int, 0x14e70fbbb06234212cd43778c73d50f4c84e86958da544cb848d08005b154c98int),
            y3: (0x17bc2e54955373ea0ea869c42bac28a7413ef9be523e4ad84614e4ef644e9a4bint, 0x71d18b1111d65240fc585db09d870a48b4ec5ad46b19a0e6f47585fd154b2271int),
            t3: (0x8ef4f45bd28c40d4594d9ce56a4500c8ea39d442480acf31ab70784101988e3int, 0x55e8007a1fe9717a15724f1e89f772db1e0d5e9ee7b8231fa0baa1f78c7e85f5int),
            z3: (0x11c1ae8b7dd5ac2e5370221a26805c7b88fb05a3616602266a93c19b732178a2int, 0x4b36b659d2bf8529aa23c4bf7c4b5ee0d342714a4cc1031e8abc0531bee259beint),
        },
    );
    lemma_chain_double(
        base(),
        ExtendedPoint { x: 0x14e70fbbb06234212cd43778c73d50f4c84e86958da544cb848d08005b154c98int, y: 0x71d18b1111d65240fc585db09d870a48b4ec5ad46b19a0e6f47585fd154b2271int, t: 0x55e8007a1fe9717a15724f1e89f772db1e0d5e9ee7b8231fa0baa1f78c7e85f5int, z: 0x4b36b659d2bf8529aa23c4bf7c4b5ee0d342714a4cc1031e8abc0531bee259beint },
        0x1cfb69d4ca675f520cce7602026876014dnat,
        DoubleWitness {
            xx: (0x3c4d434a1c07d5ff4f46732de6b526cd6cc4aa434b0d692c99293b4f34448b1int, 0x57ac1d36121025b86fe502761526ed1798b28856ae62f507be535b35c496518fint),
            a: (-1, 0x1c418a1d178d578fc354d591f47aeaedbb0b1bac519b66f741aca4c93b69ae72int),
            b: (0x6fbf432f1e23c6b6ab2ab366263defde1cb84ac5f1db6258b1983dbc47da0b17int, 0x4c5991871e48e2240929aebd8f1f07eb70b52f494ff7682ea39cb46874fe2acaint),
            zz: (0x30cc5c4611d817958a960107e05610c147dc5aef7cd6e0c0a9c118c38e678326int, 0x6550408e07695e5b98da7f57be40f821c8d90903fd16f0050432f6770c8625deint),
            c: (1, 0x56b2d9c8e5353f6efe7b26a772e0183e3df46e04fa2f840b0865ecef190c4bbbint),
            dif: (-1, 0x43d59fe922e1f2b3ed64fedc6efdbb079e13906601a25ac79e0ff05fc66b83a9int),
            xy: (0x1485ad200dac53fe3499c6d94fcf016ef7abfbb4dba5aea41431c7709dd68fe7int, 0x2635018ab4c17db8ed73813bc731f6979307b0cd986c47161cd8757553446f31int),
            e: (0, 0x4c6a03156982fb71dae702778e63ed2f260f619b30d88e2c39b0eaeaa688de62int),
            g: (0, 0x689b1ba435d639b3cc7e844f8399f2d92bc04af5a192cf25e5495931b067d93cint),
            f: (0, 0x11e841db50a0fa44ce035da810b9da9aedcbdcf0a7634b1adce36c42975b8d81int),
            x3: (0xbcdb60b35e12a871d5b86255620ea8330ae3f5be732fc44b826b07fa9e3647dint, 0x178bd160a78492880c9bed7a8fc2c41bdd4fe09a77bc2e6974eaed0b7e66a4e5int),
            y3: (0x3d3590c580782f708ede5499350c3fc0befba4636ebea74abdaaa8e99368055eint, 0x517d5cbde5f090bfb770d68893e0e404d6601b724eec069906b896373964173eint),
            t3: (0x2cb68b2f1087671d1d8523ce78392065f9655cac069a87fc677d3d0dab44610eint, 0x2ba3217fb1b84725d868e5fabdfc2b14774b0870763634222fae29b30dd893a4int),
            z3: (0x102886168e4e73a796473684e0060a0ed382432561dbd625cd7f5d1267c09ecfint, 0x47eb767b8c1837ec3c3ba3585d5d840dc8e84b0b72500be508add9744b8de46dint),
        },
    );
    lemma_chain_double(
        base(),
        ExtendedPoint { x: 0x178bd160a78492880c9bed7a8fc2c41bdd4fe09a77bc2e6974eaed0b7e66a4e5int, y: 0x517d5cbde5f090bfb770d68893e0e404d6601b724eec069906b896373964173eint, t: 0x2ba3217fb1b84725d868e5fabdfc2b14774b0870763634222fae29b30dd893a4int, z: 0x47eb767b8c1837ec3c3ba3585d5d840dc8e84b0b72500be508add9744b8de46dint },
        0x39f6d3a994cebea4199cec0404d0ec029anat,
        DoubleWitness {
            xx: (0x4c84ed85af22582d1a707dc9e98c59c7af11a1774e1fae0768a20ab068b1ccaint, 0x2fee22c5e394ac38cb4af0bacdfdeed5bf564a88c4a9c11b3305d463627180fint),
            a: (-1, 0x70eec526cb643284a68528fc5cc1f917f7c83f5a73b3bfed4ccfa2b8c9d8e7f2int),
            b: (0x39481caab2627c7d50009dfa050553db8a48edecc10b7880d27d057a9bead500int, 0x5516993fc2f56a2d5289f08fe18bc9f63e3a1f9ebe1306391baa2da52aa15e04int),
            zz: (0x2c9e20cf938897cd82a6c82fe2d28f5d46645bc5ae88b004e0ca9128c6e59f9cint, 0x2218af24ffebba43922e74171374756ab18e7096cd3cd2ba8d914db882feb6cdint),
            c: (0, 0x44315e49ffd77487245ce82e26e8ead5631ce12d9a79a5751b229b7105fd6d9aint),
            dif: (0, 0x1bd82be7086ec85753fb386c7b362f21b98e1fbbb5a0b9b4312575139f3789eeint),
            xy: (0x108d24de7d693acb6af4382031f7854117704fc609c8a007ec8656ff1343aafbint, 0x1454c969522e4eccf055672f6ddd406d98b0e82ca566b592e9d49b2228dcd77bint),
            e: (0, 0x28a992d2a45c9d99e0aace5edbba80db3161d0594acd6b25d3a9364451b9aef6int),
            g: (1, 0x5217b71364bc1f69c5d5418434abeb08e244baf631c86a276879d05ef47a45f5int),
            f: (0, 0xde658c964e4aae2a17859560dc300337f27d9c8974ec4b24d5734edee7cd85bint),
            x3: (0x4e01b44b52b0fceebbc776587947277e333d0263055c260097b3106bb9129efint, 0x332e54e5733e2d63bfe6365912461b2815eb93066e8748a85623107d70379783int),
            y3: (0x13b7b0ddbe25cab833a473d83c14a1e156aa95705918c02aeeb7eeb1b23a857eint, 0x6997d0979900dc6cef238b6b6e93c24e377e8b5108cb2543dbf8c1d03985a148int),
            t3: (0x9c43d2b520cbbf534244f40678313a52eb303e83411b49755ccedd23c75ceffint, 0x20a1b0d02bcaa63abb208001cfb2099edc52985e87523770a0c0313e7da67fb5int),
            z3: (0x9d7c811d9cfaa77c5e36d13b4842f0299f1df6ef808371fac0c617c34d9c443int, 0x38431ff0ab54562aedccc7264f97c9027279d9494e03f8054bde32e3864fd1d4int),
        },
    );
}

/// The multiples of the base point, from the multiple by
/// 0x73eda753299d7d483339d80809a1d80534
/// to the multiple by
/// 0xe7db4ea6533afa906673b0101343b00a6682.
proof fn lemma_order_part_16()
    requires
        extended_valid(base()),
        extended_valid(ExtendedPoint { x: 0x332e54e5733e2d63bfe6365912461b2815eb93066e8748a85623107d70379783int, y: 0x6997d0979900dc6cef238b6b6e93c24e377e8b5108cb2543dbf8c1d03985a148int, t: 0x20a1b0d02bcaa63abb208001cfb2099edc52985e87523770a0c0313e7da67fb5int, z: 0x38431ff0ab54562aedccc7264f97c9027279d9494e03f8054bde32e3864fd1d4int }),
        same_point(ExtendedPoint { x: 0x332e54e5733e2d63bfe6365912461b2815eb93066e8748a85623107d70379783int, y: 0x6997d0979900dc6cef238b6b6e93c24e377e8b5108cb2543dbf8c1d03985a148int, t: 0x20a1b0d02bcaa63abb208001cfb2099edc52985e87523770a0c0313e7da67fb5int, z: 0x38431ff0ab54562aedccc7264f97c9027279d9494e03f8054bde32e3864fd1d4int }, times(base(), 0x73eda753299d7d483339d80809a1d80534nat)),
    ensures
        extended_valid(ExtendedPoint { x: 0x1f7ba6091c56af536070388760819cf80c964b11fea699a32a832ef39b7c6c55int, y: 0x67950f7884db4b7f2633db4b37b4d4b2632929371b88f4af3c4a4aedd553893eint, t: 0xa111425b613bdff7a05b48a255cc1d6fb35b24aad676e445cded46b3d007668int, z: 0x5fe57288a0da37500977153cb8e67c37a8bf68850be0038df6498cdf7abdddd8int }),
        same_point(ExtendedPoint { x: 0x1f7ba6091c56af536070388760819cf80c964b11fea699a32a832ef39b7c6c55int, y: 0x67950f7884db4b7f2633db4b37b4d4b2632929371b88f4af3c4a4aedd553893eint, t: 0xa111425b613bdff7a05b48a255cc1d6fb35b24aad676e445cded46b3d007668int, z: 0x5fe57288a0da37500977153cb8e67c37a8bf68850be0038df6498cdf7abdddd8int }, times(base(), 0xe7db4ea6533afa906673b0101343b00a6682nat)),
{
    lemma_negative_base();
    lemma_chain_subtract(
        base(),
        negative_base(),
        ExtendedPoint { x: 0x332e54e5733e2d63bfe6365912461b2815eb93066e8748a85623107d70379783int, y: 0x6997d0979900dc6cef238b6b6e93c24e377e8b5108cb2543dbf8c1d03985a148int, t: 0x20a1b0d02bcaa63abb208001cfb2099edc52985e87523770a0c0313e7da67fb5int, z: 0x38431ff0ab54562aedccc7264f97c9027279d9494e03f8054bde32e3864fd1d4int },
        0x73eda753299d7d483339d80809a1d80534nat,
        SumWitness {
            a: (0x2f23ffcb2bfbdeeed3559d4e2ec2b192580fea3238bed88cf35e31cfb96208b1int, 0x1686fe135b541e74964803b7124e63b201910694dc3d351bcc8b6bffc3b9fa59int),
            b: (0x4fd10bdf661d5c511c656c5e33b0afe483eb8ac738b8dbf8710e3c25fa2dd20aint, 0x4414628a751b3b341b927abcc6cbb251273ce6ebd76c5247ccd350ae8ff85376int),
            dt: (0xbfbe31194d82f1957f2035d6192ed1c3e90abff04e040018a9a53074d1df31aint, 0x67b2d713c84809af83bb0f75dae2e7d69bc5c459fda5834436de6f9724b22f0bint),
            c: (0x62ef14264faed31f243f2b8f81b045ef51f95e2e39e58a3a7f4d6dcc45bb494bint, 0x5f2b08c869d57b6752b85ba821d226f5be6c90ddc45264cbbed7028eb6d4b8cdint),
            zz: (0, 0x38431ff0ab54562aedccc7264f97c9027279d9494e03f8054bde32e3864fd1d4int),
            h: (0, 0x5a9b609dd06f59a8b1da7e73d91a160328cded80b3a98763995ebcae53b24dcfint),
            s0: (1, 0x28d87e29e2a18c887bcfe9bc77380570f9ac7a54775411ed321bd24ea9bd38caint),
            s1: (1, 0x4e7a2cab4d8fef627fa28fd19ba7c19a97abbf79df4db594e896ec1ba05d0dddint),
            ss: (0x1ba67ba359c6e4a92a053e13802b522200ed24942c7bb1deb8911a4c063ce69bint, 0x1482285d2ec4a34f072bbce23ad9fe925794f02defaa01c937b37b5fff6161c7int),
            e: (-1, 0x2dd46f1287f2c6ee888b16766b61c0948284a6b03bfed6649e54beb0abaf13f9int),
            f: (-1, 0x4d05be7b6b1c580bce4e438637677a1207caec6e89afef388d073053cf7b1908int),
            g: (1, 0x23808165eb8c544a0d4b4ac667c817f2dd28c624125800d20ab535733d248aa0int),
            x3: (0x1e72fe6f67b2dac7b422b83bf2b914cdd4c82cf528014b4cb74bbd0f80952efaint, 0x11c9e778c2d8348ddc36cb906f4c14e704011b8a9afed0faaa94e033e579c1ceint),
            y3: (0x1bbf5e5fca7ab65b8d95861d136d52a6207b317217811297c43ad3776bd44b50int, 0x4a76e60df8097866427aebe321e5c250e5c0aeb1852b90f1438a6e8545a9ec10int),
            t3: (0x23d1cd855f70b821a000dda2f9a2f3c414574ad09cf01e491579eda3c3f00b4bint, 0x2e1f14bb2cf50ed68aef9bf6278a00265893f3976194260e7af1049955c5000cint),
            z3: (0x17966032e0e57b56560649353885dc3839445827eaeb9024c1083da5b77a1652int, 0x51f843f6b58b220a1b632e3360967b7b6774ad438300efe57259a3c4be13deaeint),
        },
    );
    lemma_chain_double(
        base(),
        ExtendedPoint { x: 0x11c9e778c2d8348ddc36cb906f4c14e704011b8a9afed0faaa94e033e579c1ceint, y: 0x4a76e60df8097866427aebe321e5c250e5c0aeb1852b90f1438a6e8545a9ec10int, t: 0x2e1f14bb2cf50ed68aef9bf6278a00265893f3976194260e7af1049955c5000cint, z: 0x51f843f6b58b220a1b632e3360967b7b6774ad438300efe57259a3c4be13deaeint },
        0x73eda753299d7d483339d80809a1d80533nat,
        DoubleWitness {
            xx: (0x2bac6c0cc0b6faff59f424bbd558e269faa24ab9ec572810a45a76d61b70664int, 0x5ecced84574bef02e2bdd5424089d6c8b097d1e27a5a77f0550025adf1bd3b60int),
            a: (-1, 0x1520b9ced2518e45507c02c5c918013ca325d22085a3e40eaaffda510e42c4a1int),
            b: (0x2fd4b467db22cd3e0e541e8ec599b9634843272c2f7fd99f1788c3ba9a94cd89int, 0x15756cef11f14d6a13508557edf09888b12659adfe8fcbc6e0ae1c788c38b377int),
            zz: (0x39f567f43c240804b3e396927b53e843fff7cb47cb908cf3ea649d1af8835bf7int, 0x732ec76d857d29d41dcb0b76f6fa416d69c0adb75867eccec43acd611f02e24dint),
            c: (1, 0x726fe787e15cd660085c3ee5e452aad57fc3b76bb0d17d9e88759ac33e05c499int),
            dif: (-1, 0x7398f432e9fdbe2370655575e4c940b945bd1c7587127446ca51bdd7820a112bint),
            xy: (0xb6d1dfe761d774d174cc7e384285922ec5daea06b21c969d8c93f3af6f7cfffint, 0x455ab21c5cd09c909bf2520052c76791b52d104434db2f4bf1dcee32164c34e1int),
            e: (1, 0x16c7bce59003bbd904aacbf89becf71e169c7c8569b80298e3b9dc652c9869c1int),
            g: (0, 0x2a9626bde442dbaf63cc881db70899c5544c2bce8433afd58badf6c99a7b7818int),
            f: (-1, 0x2c13e6892c8382978eaa213fdc57c6f528461865d3608e3603385c055c75b380int),
            x3: (0x8a9510426a3a28475f457f3ec9687a3345aa2085f9960a4e38b4cb51ae46b99int, 0x163874eeb4e6178bf1c0de3adc9ac6b29f6a4e95892ffc729d9a417747767e7int),
            y3: (0x2a770965d2868815d8f9017e839551b5d05cea0fba8c8c97f10a1b19c6bf15f0int, 0x67c3ec26ee95c04bb8194b2f1a8f1df7bc6f9e03a1b60676b29721ec3fe7ae18int),
            t3: (0x16b7181ad40bddde7d8935cc6a7b1e2c41ce663d2c91d543bc7121d2be986283int, 0x676d189d5e60961e586c156b38fe531897176ac089f5026450c06f64019131e8int),
            z3: (0x10312a6a09fa5715f4d885fe9123a112610b119f8ea106533b071db34ff87c06int, 0x696d716a487c6c9b71e2c1c13b5aaa5d00c13d537c1629f7bdf5ac32c5b457faint),
        },
    );
    lemma_chain_double(
        base(),
        ExtendedPoint { x: 0x163874eeb4e6178bf1c0de3adc9ac6b29f6a4e95892ffc729d9a417747767e7int, y: 0x67c3ec26ee95c04bb8194b2f1a8f1df7bc6f9e03a1b60676b29721ec3fe7ae18int, t: 0x676d189d5e60961e586c156b38fe531897176ac089f5026450c06f64019131e8int, z: 0x696d716a487c6c9b71e2c1c13b5aaa5d00c13d537c1629f7bdf5ac32c5b457faint },
        0xe7db4ea6533afa906673b0101343b00a66nat,
        DoubleWitness {
            xx: (0x442556144fcf9714364b2e9d6edac6169c8b02a3bf331f0a088943a567864int, 0x1910a123b7a1280bf94d3185dd642e375aebb9d3409c99fd8ce5012ce0973a0dint),
            a: (-1, 0x5add062f71fc553c39eca6822c3da9cdf8d1ea2fbf61c201731afed21f68c5f4int),
            b: (0x5ce0e101b3cf3d622cf14308363d98f0767c2b4b0a0a23490d93160b8e85edc3int, 0x42798ca2b889eff4456c9c4328c46302046326b95e10be8ddf41dd52e72eb47dint),
            zz: (0x5fe0bb399eb13a3a3a98238b89500b3307e8ca951d288799590fa3021421ff5dint, 0x2bfbac2a6732737b498ae97c77ff1fcfc55a509fb11480056cefb87585a9e0c7int),
            c: (0, 0x57f75854ce64e6f69315d2f8effe3f9f8ab4a13f6229000ad9df70eb0b53c18eint),
            dif: (0, 0x1863798cb9726547f4800a3f037946cbf46ec3766151037393d9217f383a1177int),
            xy: (0x13e3a21535a17ba5814c2f2844b26919ff50fd656d2310eadaba49db447020fint, 0x433c6aff2522660d8e209abca83fbd2652c8630bee74104a6117bb11f9fabd99int),
            e: (1, 0x128b2eab20a74ed2e9075d7146dda24751d32214dce9c495c22f7624f3f57b31int),
            g: (1, 0x2968eb7f00e8c7e84c1f6abd4b6034caa9776ce61d742490525cdc2606977a70int),
            f: (-1, 0x455f3a7d5c215e39ec436fcc6503cd3072806fa9bb498084787d6b39fb43b8e3int),
            x3: (0xb18bbb119254d7e9189f27050bc51d8d39e7d9d51ad6792caebb2200925bdebint, 0x6505d5ba9efdaf3c569a3bc7649416197f00e8fa28a2da29bd2acfd902e4b688int),
            y3: (0x8b62ea7fc8a9de73a826326947a67a226d7d625ac9115d718a239d0275fbf63int, 0x1be98e637ca2463c915844f5555c96e9acb4bea01bf2dcd89973305a358b9aadint),
            t3: (0x3e6b1d2c6bfa472aa604094c7a283b334d0bc4c8e76dedb76c77ac76eaaf197int, 0x5875991c940fe53b06442dda8699a94ce7b5294222e0083b77bb3d0fe6b99330int),
            z3: (0x18c7a22f4aa2f17b2333cfc2a6c3e4434dceec9d613ca4fa633209559821eba5int, 0x689e1d07aeb82fdd2bc7e5122e481bfcfbf4ea63411909a6f283be64fb8025abint),
        },
    );
    lemma_chain_add(
        base(),
        ExtendedPoint { x: 0x6505d5ba9efdaf3c569a3bc7649416197f00e8fa28a2da29bd2acfd902e4b688int, y: 0x1be98e637ca2463c915844f5555c96e9acb4bea01bf2dcd89973305a358b9aadint, t: 0x5875991c940fe53b06442dda8699a94ce7b5294222e0083b77bb3d0fe6b99330int, z: 0x689e1d07aeb82fdd2bc7e5122e481bfcfbf4ea63411909a6f283be64fb8025abint },
        0x1cfb69d4ca675f520cce7602026876014ccnat,
        SumWitness {
            a: (0x7f999e13f5878514c48e811548ec423144dbeecb96bcf69c546333761da52cfint, 0x7092cfa2a0c2dcdb19eff87483f14ae79185febce120951f6a48fba64e879349int),
            b: (0x15193ef9266b44b4e67a36f6a3ae8bb6bc3b2db94d43eae6cfcf2781dbc28e7bint, 0x716a0eb87805b6d1bdbb1784d4cb084ed2bc784fd813168eb93ce356fc50c2f5int),
            dt: (0x207c947235d3647bb1159066f9e98a2b0453cdfbc42a3ac492894811f6aaf135int, 0x241a7c64cbc24f4dbf6ed06119ec1196faac5e3d6e683ea9975a93de870972fbint),
            c: (0x1a8ab56eb23b23314e1f1fde889998d0014c4467669524d93c0fbb7fabbaf84int, 0x26aebee257327653938e0a22f3eba8dc83bc05278b85d7076d18d9b6ad29f5dfint),
            zz: (0, 0x689e1d07aeb82fdd2bc7e5122e481bfcfbf4ea63411909a6f283be64fb8025abint),
            h: (1, 0x6e0f3707ef2b1664a47137f14f1a7b311084d309b9354faf2385defe4ad8563dint),
            s0: (1, 0xd01bccaf2027830b4b8a8b4b04ed4fdd7f8039744975b03569e003438705134int),
            s1: (0, 0x60c7d6918e437d8827d3dfcfe8923870431f0f21be6a05e37815793fb5885c83int),
            ss: (0xadbc4fec209e94c36a07f5fda502c0f72160034afb3944b6afc891c4916280fint, 0x35e5da3a5161b4c120b01ff12225359278e7ae7284b240b503f572d4dd32158dint),
            e: (-1, 0x3bc44a858bd41ba4af78c007dcac9266bc207f6bcb7b4d04e06f93d59259bf51int),
            f: (0, 0x41ef5e255785b9899839daef3a5c73207838e53bb593329f856ae4ae4e562fccint),
            g: (1, 0x1b5f3496dc4d28e88c1c172d1891ecd42bf34b87cca084af5f9c981ca8aa1b89int),
            x3: (0x21fe25144a76b3ebe87d64e2d71c3d61f4b789524fb51d162b02c07e81b56a6fint, 0x5bb5a73d80967d5bb3876db627e2c523b6e6f0d0c9a263d41c055d7e8b24e91dint),
            y3: (0x19fc76c1f491e3055c141a2f152358fbb8ac93c33743b64d10c4e8a3ec6098c4int, 0x4ff1729273e04303b7bf076a684af823bd0bac38af519599c5ca2b083efffce1int),
            t3: (0x38bdb5c494c21d13f4e1b17dc16593476210feaf0faeeef7d083a005859c0be0int, 0x1cd6969f369e31af20440c5899121b40dffffb6eb32d155a4e2e24d5663c06dint),
            z3: (0xf916555ff96348b997c41327ac5c9bb512c11bfe9de76730c082d9351189bd9int, 0x62f15d4b4829eb4c02316d72caae2a3752eb9a99585e16c1c2aa20ba4f897c53int),
        },
    );
    lemma_chain_double(
        base(),
        ExtendedPoint { x: 0x5bb5a73d80967d5bb3876db627e2c523b6e6f0d0c9a263d41c055d7e8b24e91dint, y: 0x4ff1729273e04303b7bf076a684af823bd0bac38af519599c5ca2b083efffce1int, t: 0x1cd6969f369e31af20440c5899121b40dffffb6eb32d155a4e2e24d5663c06dint, z: 0x62f15d4b4829eb4c02316d72caae2a3752eb9a99585e16c1c2aa20ba4f897c53int },
        0x1cfb69d4ca675f520cce7602026876014cdnat,
        DoubleWitness {
            xx: (0x488ce75b32c707e30291474d0f2bfed6484954a7c68874b1213f7e5697381631int, 0x7f522e0e30af15fd17d6694e1868bdedbd12d910200bbf3fe703cde4b35b718int),
            a: (-1, 0x6bf8847246928be861bc7173281b4c2677ec7671fdfda00b018fc320b4ca48e9int),
            b: (0x3720caac3eedda084a52c15bc880145bb35f179a8a741076401bcbb0de905305int, 0x63564712d5473135c45cb6419cf2c13813da67dfec5d9dccf9fce9dadf796abcint),
            zz: (0x54722cbd6c669538b918c0a66774da8d2b67576eef5951668fe7e2e017c3e9e7int, 0x7319a5d2152472cd7d82044ddfc32434c45bd907ebde4f077dab94346f729902int),
            c: (1, 0x7245a45100ab6852c7ca3093b5e4706434fa0e0cd7be420ffb572869dee53203int),
            dif: (0, 0x8a23d5f714b5ab29d5fbb318b288aee64120e9211a0023e0792d945d550de2dint),
            xy: (0x3f3dfb6d2771d15f63abb941dd6d1eb51810fb2ee879fa8ffb86d414fe0a99eeint, 0x1a63f295d1972c95e5a862bbb2c6d6fb24c499e37e683d9d8034352adcc1d48fint),
            e: (0, 0x34c7e52ba32e592bcb50c577658dadf6498933c6fcd07b3b00686a55b983a91eint),
            g: (1, 0x5b612431f23c3fd5f2df4facbb6c355938093a4eea5ce1d8fb8cacfc9443b3a4int),
            f: (-1, 0x5d0927341b2e54cb5e4ef7210f299cfa56ccd045129cfbc800358491b55e81a2int),
            x3: (0x2a5bad33a17b2da7cafcacf937b81ce6141e6936ba7a49e8e41554ae0edf5d31int, 0x3e1637408ebe42620abab43383249a5d805c4083f405dbeeac12fc25fdadc5cbint),
            y3: (0x6ce33912d29edb981db979b010f7555891e44518d9ea6b79e8fb26b312a3706int, 0x498e276e07c8cac791baf931179348336fa6373a959d8be547b00e672bc494ceint),
            t3: (0x3ee4bfab72dcb057ec9337b18985b8873b7b88dc3d2fe2b0ad9aadcf4161ee4int, 0x3fc4ea687a4690f862b93e6eff6e924fca39a9b39c479bbff5e503e9a4169f62int),
            z3: (0x4955a7af954e51e4dc1eada828718a0c6a991444730fe15244e4d43cf3a0e5aeint, 0x14c9c2db51fb985660141e2f77900e3f5cb44f4b3c847446ee6c6ebfe6f46c1aint),
        },
    );
    lemma_chain_double(
        base(),
        ExtendedPoint { x: 0x3e1637408ebe42620abab43383249a5d805c4083f405dbeeac12fc25fdadc5cbint, y: 0x498e276e07c8cac791baf931179348336fa6373a959d8be547b00e672bc494ceint, t: 0x3fc4ea687a4690f862b93e6eff6e924fca39a9b39c479bbff5e503e9a4169f62int, z: 0x14c9c2db51fb985660141e2f77900e3f5cb44f4b3c847446ee6c6ebfe6f46c1aint },
        0x39f6d3a994cebea4199cec0404d0ec0299anat,
        DoubleWitness {
            xx: (0x2140557a3c0caa5947fe303468463d7a95d86d8772cc2d8baeab9a960512c076int, 0x6d7399fc7aaeafaa66f6b2cfa3c6b3d67db0140830badc3e5bf6e976261d4e83int),
            a: (-1, 0x67a0d56aeeecd9dcc43253865db242ed60d8ffacf437fc0a4091688d9e2b17eint),
            b: (0x2eab880e78b52610859324932e72f8688abca6975f5cb2564b4e3ed620dc401bint, 0xaec966cf01a24dc083cc75c3c66401d22cbf10886e2b05b74bfe7fa451295a9int),
            zz: (0x3ba4ab42c7f234afc52cf9ec0c48725c846fb9e42f0c1da6f1b9b482feb3fa2int, 0x57a83aa8c6e48b256982f7fbf689d64001c8b14e3e3160d7ccbb66c2c74ab302int),
            c: (1, 0x3b62cdfe642b99029fcc17efe371d47aafd3be997c6465b09976cd868e956603int),
            dif: (-1, 0x6f7b1e3ce8722609f74035e43316bc1706ff42f5485f2b642f492e8d94d01bd6int),
            xy: (0x2764b5c6e463ca8953f932ea145bf69f78f7dc6b6cd8a4e07167588a5223a12dint, 0x4c59ff42253ef24de674cf40a344f3beb9bacabee8dd55569ac73dcece76e42dint),
            e: (1, 0x24c6573120e0675399afc6793ce80f781fb7f17ad1bc4eae358e7b9e9cedc859int),
            g: (0, 0x1166a3c39f08f279d47fec94a241644bf8d981035626301c18c8fe831ef54727int),
            f: (-1, 0x49f17d18647ad6bf67edacacc87167d69cc3666cd9c0266a7f5230fb905fe125int),
            x3: (0x1774cf34f7d7b8a3cae50e815b8b6b9663fba4de13ca88cbec12c314d1f7cfbdint, 0x36839909134a79f3f27615fec3cab3d754ce83feb9b1f707bc7b6eb442835e20int),
            y3: (0x10bbbe9eb26323f9dc9826025523ebe82b51b7d37aeee7e552fb6b355326659cint, 0x45c8da9a80c03fa9e130db919ef256184682d1549ecd4f7e1676b72dc81431feint),
            t3: (0x235d2caedc4e7416a002ef00659a69dd533322b9bf67f9ce10cf9b8df6ca99b8int, 0xa0ff33cd4fc58a9e82bb6bce2df6c42a47591a097e757e477115f59886c43aeint),
            z3: (0xb1954dc74c47eb753c7eb473ae4d32d02d412c07bf19883758909d7188feff3int, 0x7909dee8d71478328196c8bb436989a11639eef1982ee3f8f29758d4be59fb0int),
        },
    );
    lemma_chain_double(
        base(),
        ExtendedPoint { x: 0x36839909134a79f3f27615fec3cab3d754ce83feb9b1f707bc7b6eb442835e20int, y: 0x45c8da9a80c03fa9e130db919ef256184682d1549ecd4f7e1676b72dc81431feint, t: 0xa0ff33cd4fc58a9e82bb6bce2df6c42a47591a097e757e477115f59886c43aeint, z: 0x7909dee8d71478328196c8bb436989a11639eef1982ee3f8f29758d4be59fb0int },
        0x73eda753299d7d483339d80809a1d805334nat,
        DoubleWitness {
            xx: (0x19a2784e2cff063d434a4e55280668ee05ba1992aaa3d7e3c5e0aabfd2fa9c37int, 0x3084bb4067e9a8cbd2dacb305277185f655dda12f45ad564fec1ce692460e7c9int),
            a: (-1, 0x4368ec12c1b3d47c605f0cd7b72abfa5ee5fc9f00ba3869a013e3195db9f1838int),
            b: (0x2a01fbd90409537811cfeac3e2849c8bf09a3cf70cda122995f7f5c8e298605aint, 0xa6408b25e99f84602178bf6c495a9082688af83acfc4d73ddbab191d6dad7aaint),
            zz: (0x7e5fc156e2411053576feb15225e6ce26a66ceee1cf86918ed3e5363786904int, 0x62a7c594f55c3751cddcad8f7e365713209819ceb14a64dea6544c18d103affcint),
            c: (1, 0x5161e3d6c11af15b687f8316f2cad620ed728f9a62966dbe4ca89832a2075ff7int),
            dif: (0, 0x3904e3606319dc365e4780e0f295169dc7d71a6c5ea739262383800404c4408eint),
            xy: (0x20d0c1719fcf9a6800715986b4f6142a2c1dd1c9d11d25fd62303bd7da1fb375int, 0x90801500d1e0be27b8afdb8a2c8b884a2f0ce3f5d4cf1d150c40e9ea3bbd04bint),
            e: (0, 0x121002a01a3c17c4f715fb714591710945e19c7eba99e3a2a1881d3d4777a096int),
            g: (0, 0x4dccf4c5204dccc2627698ce7bc068ae14e87973b89fd40ddef8e327b279efe2int),
            f: (-1, 0x7058b84188d058af2d30edbf92976a927b338ddc5607c24e92504af410728fecint),
            x3: (0x118125116d45934f1b2abf52f52699c40dbd9ecd75bf15f179e0cb17cb090bf1int, 0x2234b9fb8b9e3e0179aa71649f51c0def4c5ba32c5a3056c8a0a2889ccbec857int),
            y3: (0x26441c5a756b3db72ccea620b39bf412a02d0f86e861cd8f2a220e4f5602f8beint, 0x17ade3846b16edb0d6b181712001f5f4fa9fc2fa1cbff6a2046623b556a0969eint),
            t3: (0x8e24f27d2069b5f9693cc4a2ba7a47ed825afb0d5f91bced525236fa97072f9int, 0x3676d32191bf9710159bbd72f3d954a949ba4e31f2c8f9fd6a0ef1d62de8203bint),
            z3: (0x4b6597d41c91c234dbeaf1c36073e8f97e8bcedd1786bbcf807c474451f0d09aint, 0x1884030d4628e10fdd9199b4a165f3c3a18b8290f33cc0a03ece2f53461b91beint),
        },
    );
    lemma_chain_double(
        base(),
        ExtendedPoint { x: 0x2234b9fb8b9e3e0179aa71649f51c0def4c5ba32c5a3056c8a0a2889ccbec857int, y: 0x17ade3846b16edb0d6b181712001f5f4fa9fc2fa1cbff6a2046623b556a0969eint, t: 0x3676d32191bf9710159bbd72f3d954a949ba4e31f2c8f9fd6a0ef1d62de8203bint, z: 0x1884030d4628e10fdd9199b4a165f3c3a18b8290f33cc0a03ece2f53461b91beint },
        0xe7db4ea6533afa906673b0101343b00a668nat,
        DoubleWitness {
            xx: (0xa17c55c2a3c388dfd3a45ed788b614fb148438caca474d82a3b00e8bc0f1809int, 0x12a6ae9eee29fed10073509f4843c18daa968e46f897e08f6b2e51b6e9dcf588int),
            a: (-1, 0x6146f8b43b737e7732c68768c15e1677a92715bc07667b6f94d1ae4816230a79int),
            b: (0x4d62ff5be1a56028bbd3d914cce28746bad2e37299d7816e34d27945e2ba0e5int, 0x4f876d042396a15c2b8bb298d5978f61383b5c4c647e6f2af65af2ab67f1e89fint),
            zz: (0x52f3470a9ada2261ac3e09f2ca2e31be4c491f9e0098f8eb97e906f7de0b973int, 0xba67d15941a68d667b8483be6e5d31ff40257c89273719f02c184e37b2c0f91int),
            c: (0, 0x174cfa2b2834d1accf709077cdcba63fe804af9124e6e33e058309c6f6581f22int),
            dif: (0, 0x11bf8bb017dcdd1b073ad4cfebc6871670ebb96fa2e80c449e76bb9cae3121daint),
            xy: (0x6fca0efadb108e881c34227cac4c6b289c9d07f31b479040281165cca4cb281int, 0x48a8984826eed8cdcebc3cb8473f5577eb0a4e92f6f1064f95aaf835cd35ed31int),
            e: (1, 0x1d63893d244034536a3ea16884dcd2ea8256f922ede3b0a02b55f06c9a6bda61int),
            g: (1, 0x3ce0be65356ca28b2b1861f98d53cdd38da4ce056be68e9b8b2ca0f47e14f317int),
            f: (0, 0x2593c43a0d37d0de5ba7d181bf882793a5a01e7446ffab5d85a9972d87bcd3f5int),
            x3: (0x986b12fe60bf094326c3380fffdb1fa544bd663ab85ee402d34c2289d5cc91aint, 0xee33d301a6b5865f2ae6be6338169e924dc1cc7e73e2fae58e8392971528bbint),
            y3: (0x951f8599f47f972bdc9d0b4fa91193cdecd28d924a44e9b025ba87871d9e013int, 0x2d44feebccbe827c5739adab966a9714b3a01560355b3b2911ad1a4ec8ba1883int),
            t3: (0x47fd3c5b2e48f731668e5d566e1fc431e3c1466d2a1d7c96631f733d4bd0743int, 0x4f72bd9f2f46eb5be18b69fb2f885125899549348722f8c2a86a97a14cd27057int),
            z3: (0x13bbaa83a5dbe4e176eccc337db0dd8e6535c6bea82a2f8c35af9ae22705df75int, 0x598fec5159da7011ca8e0f51bc07db57cc48c24aad8cf6d6ffffc2196d46ba8eint),
        },
    );
    lemma_chain_double(
        base(),
        ExtendedPoint { x: 0xee33d301a6b5865f2ae6be6338169e924dc1cc7e73e2fae58e8392971528bbint, y: 0x2d44feebccbe827c5739adab966a9714b3a01560355b3b2911ad1a4ec8ba1883int, t: 0x4f72bd9f2f46eb5be18b69fb2f885125899549348722f8c2a86a97a14cd27057int, z: 0x598fec5159da7011ca8e0f51bc07db57cc48c24aad8cf6d6ffffc2196d46ba8eint },
        0x1cfb69d4ca675f520cce7602026876014cd0nat,
        DoubleWitness {
            xx: (0x1e9719b44f084360c0c008f2635bfcea3074e66731566de9498ba13fe9e63int, 0x703c9ec095cdb94b3f0fb1c39e546115a7f92d64e1c517da47d9d4c13b2a5a36int),
            a: (-1, 0x3b1089293cfc3fcf42a26446b4d76efabc4769e1e394424b8262b3dc4d5a5cbint),
            b: (0x11ad73f09d27a65c4d2f023b094140a6ab8025e43c396971ba01dd3971e47067int, 0x41390b5b7d48c7f15c714a4b004c9f30fc35e56d7df837effab56c95ded062a2int),
            zz: (0x453150e9748f7c52d2ea0761cc9b89ffe0858f184599c12934ccf6c296aa7a3bint, 0x65aa912de4cf61b428966db5918c6e05578141a3b8046ff0a5f6799be2f02c89int),
            c: (1, 0x57677b08a00146201df30363197704055b44df44700a83e24becf338c5e05911int),
            dif: (-1, 0x3665a48a40247953caf2b40174a2afc4034c3533a03f6833bd70bea6e605432aint),
            xy: (0x5d045bc43a271d37acea0518ef077d9a1900c65ed6afaa0efc0705e56827ddint, 0x5fc7436ff005e4df5ec9195358d83953377fe1e64c4bf96de92de730161b37d4int),
            e: (1, 0x4ba0df8cb66e4c768a585a9ea80e9aa11b421fc9989996dcd25bce612c366fa7int),
            g: (0, 0x44ea13ee11188bee509b708f6b9a1620a7fa5c0b9c317c14b2db97d3a3a6086dint),
            f: (-1, 0x617040389ab4c31665e245345bc4ea20a07320ca2c25543166eea499ddc5af5dint),
            x3: (0x3f90eeefaa1271382cf718a39bf73a6fd47e434ebe7d83c3ba96b89ea82b297dint, 0x5dd190e38d12da203e12d9b43fe00261b724f7bfe503e4a27246927ab4718f2eint),
            y3: (0x205630cb5a0f823f1537b3b920e312bc784602256b7727e2c10805d8bd6dcacaint, 0x38ac419a3bbf25e4d02c1a877956d9903975550bae3248eb69eccbfca8251e18int),
            t3: (0x237cb36835cd14ecc82746b8946d1b760a07c96fb729f0224bc7d6cd573f103bint, 0x5dc4638a6a30af89ecf6f0f103784701b386ad1d4ea375bc2163a19b612af62bint),
            z3: (0x39ec4674e1736a864309f54ae2c9356a9524530eb6aebe0df57b0b00c9207f30int, 0x670d2736935707a1005cae4db6ba9d156595f5db127cf9e0e34f6a1fbed41369int),
        },
    );
    lemma_chain_double(
        base(),
        ExtendedPoint { x: 0x5dd190e38d12da203e12d9b43fe00261b724f7bfe503e4a27246927ab4718f2eint, y: 0x38ac419a3bbf25e4d02c1a877956d9903975550bae3248eb69eccbfca8251e18int, t: 0x5dc4638a6a30af89ecf6f0f103784701b386ad1d4ea375bc2163a19b612af62bint, z: 0x670d2736935707a1005cae4db6ba9d156595f5db127cf9e0e34f6a1fbed41369int },
        0x39f6d3a994cebea4199cec0404d0ec0299a0nat,
        DoubleWitness {
            xx: (0x4becf6b36617aeddef2450ace7fafa77a966c61b3d438b0eecf0726535c36f11int, 0x124fa16d29bcb8cbc5557b222a0c7551911dc4708d1f62e090b7d03c30ecfd33int),
            a: (-1, 0x619e05e5ffe0c47c6de45ce5df9562b3c29fdf9272def91e6f482fc2cf1302ceint),
            b: (0x1bb486654f7b503bf2d4bb52d78089199eb18fb753a48a361c3d977c553b6913int, 0x6433f2719e21d84ec2aeea4477e1425c58608adf8af9858eba7bddb7e13e392dint),
            zz: (0x5b9ad1510115d5bfa1ad4668d13af6e14e39a98f4f6244b736763e4ddd32d3a2int, 0x370443b97b125bd564b44a81799cbd697f229ce8321afe403d39b942262ded6fint),
            c: (0, 0x6e088772f624b7aac9689502f3397ad2fe4539d06435fc807a7372844c5bdadeint),
            dif: (-1, 0x7157bac78b5c6975de6f4aa97155f85cbdfcf8b5e7e3cf8eb4cc5209edd4c9a2int),
            xy: (0x2ddd422b1b3b90eb2a6b46b044570922ee53e893e1c24db8a57191dd7d04128eint, 0x577ad21b4dee297fa97b2eab99900ff92cbb8668230565290e3ba2fe9e0ebdc2int),
            e: (1, 0x3b07fce3723ed5b71fbc854f297e47ed05b968cd460c6e531c7745fe3c1d7b83int),
            g: (1, 0x51e4510474651f82fd596f224dd4cd0ac742c66efdda22ae29c40d7bb0513bfaint),
            f: (-1, 0x57c970e4a7dde520672ab227643d2a3d1cbb30a199a2822caf509af663f5611dint),
            x3: (0x2cb392712a7b0e527890ccf71939175ef58e9286e0f20137d5d57bc6156d2183int, 0x15607a8408e6fffc23efa99cb00c494fdf128ea1fb00c71c9ec0552dc3157f54int),
            y3: (0x5010bb9d2b5e9913cc7800856850ee3eb1e8875496756a7f86002117ffda646eint, 0x6cbe8bbb79f3c3ebf689c6b77eaee0bba2b57f54564f7c454e7350a178acd9c6int),
            t3: (0x39b6eeede9bb690ba88c05a6a8824547f30b1d47c3948aad58f8439339e2b691int, 0x77c57d26ae7631dacf24ea48c34cdeda511ccb6ce535b2cf587bc70863b4d55int),
            z3: (0x3e03415e535753c7deed6180d30a89faf3d01b9180bf10fed55662189bdaf56cint, 0x6d4195bad5ef91aabbf9be7b6f013950066d8121e2156d3277a9265139548fe6int),
        },
    );
    lemma_chain_add(
        base(),
        ExtendedPoint { x: 0x15607a8408e6fffc23efa99cb00c494fdf128ea1fb00c71c9ec0552dc3157f54int, y: 0x6cbe8bbb79f3c3ebf689c6b77eaee0bba2b57f54564f7c454e7350a178acd9c6int, t: 0x77c57d26ae7631dacf24ea48c34cdeda511ccb6ce535b2cf587bc70863b4d55int, z: 0x6d4195bad5ef91aabbf9be7b6f013950066d8121e2156d3277a9265139548fe6int },
        0x73eda753299d7d483339d80809a1d8053340nat,
        SumWitness {
            a: (0x1b003065c44b0af2a4df40fd9eefbf20bea27889d58c8a84e3928207a12cfcaint, 0x90351d4e868e04385a50356205c1201d30a93fc6cd8daf5e7c718272fd94472int),
            b: (0x5232d86755b72b45b727f862e081e67b6ded85d13a0d32f7d8bf0705c1a83f63int, 0x80229310f59fe3ca3cc824c7ff74b56090e73aaa7975e73312d33c76de593bdint),
            dt: (0x2bfc68fb1b8cac24e3024217b8f015bf97406b6795e54cdde22068910acb6c2int, 0x3b3385b9ce9decc8ea8021e9074f320ac4cfcdd2130b3951885b4146de525703int),
            c: (0x2b85bd0631a20a5f150cd5f0b2be47eb7b67cf43519f56652cd482fc62cb4c0int, 0x5132245b3c77428208ec66f621c8ca2604ff5ca545b495e566677da586c80a6bint),
            zz: (0, 0x6d4195bad5ef91aabbf9be7b6f013950066d8121e2156d3277a9265139548fe6int),
            h: (0, 0x11057b05f7c2de80297185a2a0535d57dc1907a71470396918f44bee9dbed82fint),
            s0: (1, 0xe315eec593d469fe73f984c251952062e0a69f35151e762ed33a5d03bc25919int),
            s1: (0, 0x60c7d6918e437d8827d3dfcfe8923870431f0f21be6a05e37815793fb5885c83int),
            ss: (0xbd9408d316cf021da5f4a3946386a66e0b523cb85d798bf4ac66ee34f0759aaint, 0x714524fdd96093346e4cf58f7090434b35b3086747ff4db5de2380341fb93a21int),
            e: (0, 0x603fa9f7e19db4b444db6fecd03ce5f3599a00c0338f144cc52f344581fa61f2int),
            f: (0, 0x1c0f715f99784f28b30d57854d386f2a016e247c9c60d74d1141a8abb28c857bint),
            g: (1, 0x4a8612c2e8c956e491ac4d6987282b70b7af39c427cba718de10a3f7c01c9a50int),
            x3: (0x174c00cb179116752cfeaa853e2ada2cce6ea6067aee147ad21fb10507e30ed1int, 0x4e023ffcc61ee584baa749d6ba2c706a0bd23d76a133b77076f5016654a4ba75int),
            y3: (0xaf12d13b2fedaba0febdfc8fe5b0e88ea0b98929cf44adf5800a9c90d905148int, 0x4f03f17cc63a7c6ed1a9e594f25b8015f7ae1444b8bb6830b7b5d250f1438368int),
            t3: (0xe21c487e6a91f319d44a90c3b4fd285af79243079ae2cc004be47ce91dbcc86int, 0x29121716bdc95b18b80806268f52d7221a3de2125cc8ebed3d50be07a95c5ee8int),
            z3: (0x1209d3888390099ff0f78aece220a2758a0c3ce1c4df1faa5e464e8af6840492int, 0x496a5142c274d3c72f64864c4b1f5d1b4634e75c82aa5702752cbb3f3725afdeint),
        },
    );
    lemma_chain_double(
        base(),
        ExtendedPoint { x: 0x4e023ffcc61ee584baa749d6ba2c706a0bd23d76a133b77076f5016654a4ba75int, y: 0x4f03f17cc63a7c6ed1a9e594f25b8015f7ae1444b8bb6830b7b5d250f1438368int, t: 0x29121716bdc95b18b80806268f52d7221a3de2125cc8ebed3d50be07a95c5ee8int, z: 0x496a5142c274d3c72f64864c4b1f5d1b4634e75c82aa5702752cbb3f3725afdeint },
        0x73eda753299d7d483339d80809a1d8053341nat,
        DoubleWitness {
            xx: (0x347e1633babd37e601ab0b2e9e0bb80d3c2cb57d2a40c4c08d8bd1b6b1687bb9int, 0x57b57f1a74ff5ed773d26e0bbc5f3975e32f85378aeb4dd0bc84ad9a844dbdc0int),
            a: (-1, 0x1c382838b49e1e70bf6769fc4d429e8f708e1ecb75130e2e437b52647bb24241int),
            b: (0x35db21787e9e0fd4017bdef76e869b1101dbb43fdad6eb2578140fe75dd40b73int, 0x336fa233836896f6548801cdae4e5e9c572bb95f780c37f5d7f8ebc37e0f8ecdint),
            zz: (0x2e7e194f69c23ef60e17ac4d8604f15f9c8202af5ac895526de508b8b8632a8fint, 0x56bf4b7ca24c239e1244bccc8f4b7a5c4bb4edddb162af4fea2a3c37fa9a19f5int),
            c: (1, 0x3990efa61afac9f3f14fa19114f51cb343ac37b862c702a0d4547870f53433e9int),
            dif: (-1, 0x5cb62d585ad304c29e194036a89617f86d20096efd0532376b82669ffda2b375int),
            xy: (0x352b7d6d5fbf8a166468ffd817c777098310b099801842a6cb91f767d0f9a90fint, 0x5142bf12c24ac820216751c7a679a9589efe60fdedc84deb784619becefaf579int),
            e: (1, 0x2e97d6d25af812f80f94cb8743517aabea3f1df8db923fd7f08c337e9df5eaf1int),
            g: (0, 0x4fa7ca6c3806b56713ef6bc9fb90fd2bc7b9d82aed1f46241b743e27f9c1d10eint),
            f: (0, 0x1616dac61d0beb73229fca38e69be078840da0728a584383471fc5b7048d9d25int),
            x3: (0x8e0c2a99381326bb36393c8c2bb74760f76caea81d7711194307e1e34e15580int, 0x1f7ba6091c56af536070388760819cf80c964b11fea699a32a832ef39b7c6c55int),
            y3: (0x3fb3f9143fc961b9188a12003bb2c15f2b372b880fe8ec63c07ee114f649cc28int, 0x67950f7884db4b7f2633db4b37b4d4b2632929371b88f4af3c4a4aedd553893eint),
            t3: (0x254313eb7eb0bf117f5ca0687cdd7abcbb93dc44a8b8998835599a20c12c6cbdint, 0xa111425b613bdff7a05b48a255cc1d6fb35b24aad676e445cded46b3d007668int),
            z3: (0xf2d80c292d2959a0b82a027c524a5c662a59ad43e2d2157e1dcb047d830ef2eint, 0x5fe57288a0da37500977153cb8e67c37a8bf68850be0038df6498cdf7abdddd8int),
        },
    );
}

/// The multiples of the base point, from the multiple by
/// 0xe7db4ea6533afa906673b0101343b00a6682
/// to the multiple by
/// 0x39f6d3a994cebea4199cec0404d0ec0299a0824.
proof fn lemma_order_part_17()
    requires
        extended_valid(base()),
        extended_valid(ExtendedPoint { x: 0x1f7ba6091c56af536070388760819cf80c964b11fea699a32a832ef39b7c6c55int, y: 0x67950f7884db4b7f2633db4b37b4d4b2632929371b88f4af3c4a4aedd553893eint, t: 0xa111425b613bdff7a05b48a255cc1d6fb35b24aad676e445cded46b3d007668int, z: 0x5fe57288a0da37500977153cb8e67c37a8bf68850be0038df6498cdf7abdddd8int }),
        same_point(ExtendedPoint { x: 0x1f7ba6091c56af536070388760819cf80c964b11fea699a32a832ef39b7c6c55int, y: 0x67950f7884db4b7f2633db4b37b4d4b2632929371b88f4af3c4a4aedd553893eint, t: 0xa111425b613bdff7a05b48a255cc1d6fb35b24aad676e445cded46b3d007668int, z: 0x5fe57288a0da37500977153cb8e67c37a8bf68850be0038df6498cdf7abdddd8int }, times(base(), 0xe7db4ea6533afa906673b0101343b00a6682nat)),
    ensures
        extended_valid(ExtendedPoint { x: 0x596c2a63bc58c008d79616fd0782d038a27a56662e561a28c7697683d5415858int, y: 0x3b19cf60a5112f9efc8eb7b34704e2c74bafaef6611c92c0e7745c8e91542167int, t: 0x19e8ebc952376710feedfd0ef51ffa0b77e4dae23642ddf9699b0046fed416d6int, z: 0x2e484937d6f60945bf772e32a7cdc0a637d9f711156d82c3c258a2eb6da0ff87int }),
        same_point(ExtendedPoint { x: 0x596c2a63bc58c008d79616fd0782d038a27a56662e561a28c7697683d5415858int, y: 0x3b19cf60a5112f9efc8eb7b34704e2c74bafaef6611c92c0e7745c8e91542167int, t: 0x19e8ebc952376710feedfd0ef51ffa0b77e4dae23642ddf9699b0046fed416d6int, z: 0x2e484937d6f60945bf772e32a7cdc0a637d9f711156d82c3c258a2eb6da0ff87int }, times(base(), 0x39f6d3a994cebea4199cec0404d0ec0299a0824nat)),
{
    lemma_negative_base();
    lemma_chain_double(
        base(),
        ExtendedPoint { x: 0x1f7ba6091c56af536070388760819cf80c964b11fea699a32a832ef39b7c6c55int, y: 0x67950f7884db4b7f2633db4b37b4d4b2632929371b88f4af3c4a4aedd553893eint, t: 0xa111425b613bdff7a05b48a255cc1d6fb35b24aad676e445cded46b3d007668int, z: 0x5fe57288a0da37500977153cb8e67c37a8bf68850be0038df6498cdf7abdddd8int },
        0xe7db4ea6533afa906673b0101343b00a6682nat,
        DoubleWitness {
            xx: (0x88cc85fd9c1fedfedc373a7c36e264631c612056b4d65b5f3d58f8229ba19a6int, 0x20d863a05c6bbc502db7d80ecab34982d3f4d108ed7492443c76a729e475ba93int),
            a: (-1, 0x531543b2cd31c0f80581fff93eee8e827fc8d2fa1289c9bac38958d51b8a456eint),
            b: (0x5c8d0fee8a4bf74ca21bf566c2e18131ef153c0ffd649963d65f13d2199d60ecint, 0x6ff3e240382eb5b381d26a0da7487122e80ba540d4bbb707a4de5f895a2a0a18int),
            zz: (0x4f5361174c31b632d83b11a687a3156fad8335d964099be328e28d8f9ae23d4dint, 0x52a0fcf45a307b7a6056c041db3dbc9d9ba27c7f23850ae3d375f250964c68f3int),
            c: (1, 0x315452958ac379ac8d73a87bacd9a135e38754fb470bb9c8a6ebe4a22c98d1e5int),
            dif: (-1, 0x570f08c5bea0888cb6e96df3a147f564eb7ad1bc3dcc6eb21eaaf94ac1603b57int),
            xy: (0x1c2151200a9fc8b679beba2189369dcbcb14d164af67f82e8febfd1e8df10537int, 0xc4bf3968c25613f157067e4b397a03482bf4b669932cbf38d57917888b9b45fint),
            e: (0, 0x1897e72d184ac27e2ae0cfc9672f4069057e96cd326597e71aaf22f1117368beint),
            g: (1, 0x4f1b7e9fdbc2f963541a91fedc9527a01416d437e74724c36867b85f75b44f85int),
            f: (0, 0x1dc72c0a50ff7fb6c6a6e9832fbb866a308f7f3ca03b6afac17bd3bd491b7da0int),
            x3: (0x65133a2b131bbcc07eefa926c8a10c4e6b9cc94b1ed6d32d3accb7728620b0cint, 0x24bc6ef208c05d8d9ca3146b42c700bc60d6366c77d97a8a86747a1553ee31b4int),
            y3: (0x3b6844feed49738bd8516733ec2b28f642bf6ded6d00f7be39481e0b7e6327daint, 0x65f83417c6939d11eedb63976891e8d83eaee42121b5b7218f2b1f6327178559int),
            t3: (0x127809257e4a49c4a697ec7937cd66697f05ae3d8a404d60553f5c0f892cdd96int, 0x4165b25e84a4d85c81659775e3f06c84d795122fa66d1aa8997792a3836f84fcint),
            z3: (0x1451ea348508b3a176ea0ce271fc025f9a8519d0affb83fcd7c337fe6bfcf88aint, 0x6b1c802030167140d20cb764fd622f737f61ea1cac2113202245c1907f8fab96int),
        },
    );
    lemma_chain_double(
        base(),
        ExtendedPoint { x: 0x24bc6ef208c05d8d9ca3146b42c700bc60d6366c77d97a8a86747a1553ee31b4int, y: 0x65f83417c6939d11eedb63976891e8d83eaee42121b5b7218f2b1f6327178559int, t: 0x4165b25e84a4d85c81659775e3f06c84d795122fa66d1aa8997792a3836f84fcint, z: 0x6b1c802030167140d20cb764fd622f737f61ea1cac2113202245c1907f8fab96int },
        0x1cfb69d4ca675f520cce7602026876014cd04nat,
        DoubleWitness {
            xx: (0xba422277cda1d60b1517e801e43f3391f1b30ad462d0c81ce20ef12d85b9298int, 0x598f2989ccfbdaa98fd94109d6715e92bbd951c5ed8fbce46d52ace853fad3f8int),
            a: (-1, 0x1a5e7dc95ca1a29ea36096fe3330797297e4523d126e9f1a92ad5316ac052c09int),
            b: (0x59b107342f90919f8a55632ba3c78739d20228c945b3418185ebe6392073eb10int, 0x4078d3b28b0fa8300f2b74c4091c9951cd7c055d19b70178c8e2e27738ffade1int),
            zz: (0x62f70440779dc1f684ef4b6fe83d0e6b8f93b4f8f3e628a4e7ccc701e2dcbb2dint, 0x96945969bdf6ba766a73547356c7382d71a71404a0a75f6b3d505cb15b900b7int),
            c: (0, 0x12d28b2d37bed74ecd4e6a8e6ad8e705ae34e2809414ebed67aa0b962b72016eint),
            dif: (-1, 0x4dd35169fb2f77b6c76efa4233b5b8261e25f0e2f8b5f9a0c9ca709e73057e29int),
            xy: (0x20500e9850764d3c4da31260ccef10613755be4cbfd499f2d52b23d5b38fa34dint, 0x4fde0fa294bed0886a5dadd00b9fbdb781e017bc29ceeca68a61de111d3e2847int),
            e: (1, 0x2bce77f1ffe023c8a18183980d9da369b0028b75539f7d4e14c3bc233a7c508dint),
            g: (0, 0x5ad7517be7b14aceb28c0bc23c4d12c46560579a2c25a0935b90358de504d9eaint),
            f: (0, 0x4804c64eaff2737fe53da133d1742bbeb72b75199810b4a5f3e629f7b992d87cint),
            x3: (0x1b36cfd5e4b4ca9511696e24b0ed25200a18e8fcf24de8362a5f35419584030eint, 0x3198d88960a641a13f0bd989ca431038562cf3cf0ed5eb69ee93265c7813f93eint),
            y3: (0x3cfbd9d227acb128f70bdb37b6e4407025c16ab6ffae6e13331d4e3f22ef8176int, 0x2ba3721679ae2ddf0eb9c74cc7e8a7c0a663613a157b3d1e82e623114daa9104int),
            t3: (0x1d688a6b56262e1293051db3286a80fbb8d2bff53e1d29771e53636be50e9e1eint, 0x70ac6dadcf0bedfe1bcbeeda6310aef139b99979be51aaedb0dd16c29240ae77int),
            z3: (0x386f0001d8911449078d8df581ed0e76972146d7f92811dd151f8e44a788c671int, 0x62878fbce28d7b16992f229e09e4712a81f68a842e8cf10953b0bb27c02236e7int),
        },
    );
    lemma_chain_double(
        base(),
        ExtendedPoint { x: 0x3198d88960a641a13f0bd989ca431038562cf3cf0ed5eb69ee93265c7813f93eint, y: 0x2ba3721679ae2ddf0eb9c74cc7e8a7c0a663613a157b3d1e82e623114daa9104int, t: 0x70ac6dadcf0bedfe1bcbeeda6310aef139b99979be51aaedb0dd16c29240ae77int, z: 0x62878fbce28d7b16992f229e09e4712a81f68a842e8cf10953b0bb27c02236e7int },
        0x39f6d3a994cebea4199cec0404d0ec0299a08nat,
        DoubleWitness {
            xx: (0x153807974f58c4ce7465e13b8caecfb8f02533179d6e1564765070d1e9e84cadint, 0x6227c6fa136a17dd440241fa7762d9adfa64efd498f364626d7823a427f55e57int),
            a: (-1, 0x11c5e0591633656aef37960d923efe575958b42e670af79c9287dc5ad80aa1aaint),
            b: (0x106d397d27d2e674e1eda067578961e633ccf14c99931cce0d5e338a7142e5a9int, 0x2740b788e0a34fc654addcf0825329696b3fe8f6bf8bab8212f31987e232a267int),
            zz: (0x53bdf331921de63ed5fc2becf489306c6b2a7f6b12fc823c4c2578860577f667int, 0x1a66fff77bdb92fffcac6395257fa1c4784ac63b3622a7217c809301baa4e0aint),
            c: (0, 0x34cdffeef7b725fff958c72a4aff4388f0958c766c454e42f90126037549c14int),
            dif: (-1, 0x5e72d0235f2d92eccdc39125198dacf341d66f3aa77da8197f94c2d1f5d7ff44int),
            xy: (0x12ab6cd513f60deb49ff8c5f22452fed35c1df57ad4cb17ca481bd7db6293f07int, 0x43230805fc09821f09c69479d523826586fbdfc9fd2657688c4f4157a37ec3f1int),
            e: (1, 0x125868b8ce7586f5e05350eba0a52cc5ba3a1b90fa4e52d2189e82b046fd87e1int),
            g: (0, 0x390697e1f6d6b53143e572fe149227c0c4989d252696a31ea57af5e2ba3d4411int),
            f: (0, 0x35b9b7e3075b42d1444fe68b6fe23388358f445dbfd24e3a75eae38282e8a7fdint),
            x3: (0x8807d30cf6d7c6f43ba925ab1a3ef5f7fffceae8d31494f316126b802f5d5c0int, 0x3fb4304f1af43055806f81f116c9076a1b1e9759ee872f27662f6d92ef253a9dint),
            y3: (0x2e75af4f6d7239c9fc4aba45184f4fdfddf94ae0e740a6fbeae2496fda40d1adint, 0x1a2dda4e47d8078df045f30c46d5c6f6f69ec08976a137c61f092f73141931d7int),
            t3: (0xef23b780dcb34165716ec032703b1fe7ff6143745bf719b212f476ab40a407dint, 0x6e0526fcedcc4e5d350fd5fabef5436fad1351772bf4d67dba27f944249df647int),
            z3: (0x1a6d86ade06f0811ac2b0ed77c9531572e40955a3a83b251989104ff9ea8f1c1int, 0x17bef23512ff9083aca1ec089d18d22c1d9e05a3c6d34234a2115d09b8b26a0cint),
        },
    );
    lemma_chain_double(
        base(),
        ExtendedPoint { x: 0x3fb4304f1af43055806f81f116c9076a1b1e9759ee872f27662f6d92ef253a9dint, y: 0x1a2dda4e47d8078df045f30c46d5c6f6f69ec08976a137c61f092f73141931d7int, t: 0x6e0526fcedcc4e5d350fd5fabef5436fad1351772bf4d67dba27f944249df647int, z: 0x17bef23512ff9083aca1ec089d18d22c1d9e05a3c6d34234a2115d09b8b26a0cint },
        0x73eda753299d7d483339d80809a1d80533410nat,
        DoubleWitness {
            xx: (0x2301864351531db0e04c26747f7703f1e546b2a1a66032f14feea4293e718453int, 0x202acd19210109d673c5e9a327faebaf10e9aa0aecf791bce9eff618e65bfff6int),
            a: (-1, 0x53c2da3a089c7371bf73ee64e1a6ec5642d3f9f81306ca42161009e619a4000bint),
            b: (0x5e96c2c9b5169319f3f0dac9ea14078c9f2e9e93d8058ad8a14bda4bdf8c369int, 0x1a16aec7a46be28333f763e32684e053e2e6521337b7dfe81785b1329fb93f28int),
            zz: (0x4dd2a5466a3283f3eb9852210c348025975eadd0b125affbb3f23bd5dcd9092int, 0x22977af903f5854a31914b3b372183288b30c79980f78ca90aff8e7586d05ffeint),
            c: (0, 0x452ef5f207eb0a94632296766e43065116618f3301ef195215ff1ceb0da0bffcint),
            dif: (0, 0x39ac2b72643090ee8b7c8a81bb220c025feda7e4db4eea59fe8a58b379eac0e3int),
            xy: (0xe62bd6adbbfba7c24f3c53ec753b50a824fd234eeadbf872df5d1b818f5fbbbint, 0x1c574a0d36ffbc316416617d9d8139c4310ef5bd3e4cdb8254d7baeddcdb4b20int),
            e: (0, 0x38ae941a6dff7862c82cc2fb3b027388621deb7a7c99b704a9af75dbb9b69640int),
            g: (0, 0x6dd98901ad0855f4f36b5248082bccaa25ba4c0b4abeaa2a2d95bb18b95d3f33int),
            f: (0, 0x28aa930fa51d4b609048bbd199e8c6590f58bcd848cf90d817969e2dabbc7f37int),
            x3: (0x13e2243d918968177f24dce4f888f1fc469cf9bb869254667cca8fc645e74b29int, 0x539386d493c913463fdf12030dce250889852a9c0e5b9005bb04506c4bdcbc97int),
            y3: (0x36a6066af6381d658bd52d3f871d7f725b1075ffd540553237cbaec8cc87e995int, 0x25b6c73732b177f4e58aefd3a52d59a743d33403361006c35674e782602b60a4int),
            t3: (0x1c32c9556584d88e4c94849d15e6f10fbede54558882ecc3dbeb5ee3fccb9aafint, 0x646b7e5d370b8b534af8a19bb20193e74099811c3bec85e24aa593374ba011int),
            z3: (0x2688b4ce8b80d0e2a836467902de95283f071eeab4e517147a8bcc5cdf1c2c4bint, 0x27017cff7ab0003b07c4ca0c159b04a55b42854d38a20d4820cdd5dbb0bab4aaint),
        },
    );
    lemma_chain_double(
        base(),
        ExtendedPoint { x: 0x539386d493c913463fdf12030dce250889852a9c0e5b9005bb04506c4bdcbc97int, y: 0x25b6c73732b177f4e58aefd3a52d59a743d33403361006c35674e782602b60a4int, t: 0x646b7e5d370b8b534af8a19bb20193e74099811c3bec85e24aa593374ba011int, z: 0x27017cff7ab0003b07c4ca0c159b04a55b42854d38a20d4820cdd5dbb0bab4aaint },
        0xe7db4ea6533afa906673b0101343b00a66820nat,
        DoubleWitness {
            xx: (0x3c40b0409a89081fbcd49f2de39d08de1096fa77f6a3fa63b4ab781192ac9142int, 0x4efb7d9455dd96a42b51b19f43c4055b2f430f9524a24c7a6b51ad6d95c98fcfint),
            a: (-1, 0x24f229bed3bfe6a407e82668c5ddd2aa247a946ddb5c0f8494ae52916a367032int),
            b: (0xc44e81f24e51f2d489f05416deb620e78e6f34f976642b082a348d42c28cab0int, 0x10349fb0b30f83e7128b1a7b6e52f5cb6ffe54b00b2c52dd86bc30406f6a9e60int),
            zz: (0xd1fc4227ce384cd5e8a0a6fef061c69a0c36c4c6f3b97870d9be0ef2d486997int, 0x67f545a7016cfd436a82f807516132a73ee6ddc8201a5b6d8205c818993f174dint),
            c: (1, 0x5bfce3fad93c7d3ea1cc180699208d492a10178d40365adc040b9032327e2e99int),
            dif: (0, 0x14bd8a0e20b062bcf55d0bed578adcdeb47c3fbdd02fbca70df22250facbd1d2int),
            xy: (0x1b306ca557e1355256653a736635bebbb799617eca7ceaee795b52bb6825cae4int, 0x53c99e3259a0136c1794592abde42ba92748ee5c3ff4fc385d0a24764558a5d8int),
            e: (1, 0x33a5951189a2a98ffbeeda4d72267f4cfad438b57feb9c71ba1448ed8ab14bafint),
            g: (0, 0x3526c96f86cf6a8b1a7340e43430c8759478e91de68862621b6a82d1d9a10e92int),
            f: (-1, 0x4d178cc7d7306a94abe100e5a4b21331be267593a6506385175ef29ea722dffaint),
            x3: (0x22584fefe5a9d2bfb4d16d37cd3f7200ea66b20d8e93b9f675871e60774de39cint, 0x445af0f6047f2eb2241871d04bc841bc13e7b0532bbe6bfac05d20f2a101764aint),
            y3: (0x982595e6a844e1814b89f248ec3f1966e738d7f4af697d9828d8e91d6de3142int, 0x20f9d2dac56f581afb3d55a8108e55b3555bb02b72b15fc407b412124deaf482int),
            t3: (0x93d6eeda8f7ac2f9733aef2c5f158af26f7a869b7ce27b7b44db48150489915int, 0x70ca25e333bd652b259b80ae35dce5d00cd3bc656ad07ba2efd9a8da1db65b79int),
            z3: (0x235878dcf44383f4b0fa04d0236c9d9beb68bd8ff9accac1d5db9853ca6f8510int, 0x36239ccc7ea430bfa0e84260dff0c104574658e4aeabc259d02c743f35ede384int),
        },
    );
    lemma_chain_add(
        base(),
        ExtendedPoint { x: 0x445af0f6047f2eb2241871d04bc841bc13e7b0532bbe6bfac05d20f2a101764aint, y: 0x20f9d2dac56f581afb3d55a8108e55b3555bb02b72b15fc407b412124deaf482int, t: 0x70ca25e333bd652b259b80ae35dce5d00cd3bc656ad07ba2efd9a8da1db65b79int, z: 0x36239ccc7ea430bfa0e84260dff0c104574658e4aeabc259d02c743f35ede384int },
        0x1cfb69d4ca675f520cce7602026876014cd040nat,
        SumWitness {
            a: (0x565698e805106ad2b6aaa5631425e434d67c971acbf646e088decca4ae5eaa9int, 0x6d225d64e336854ead49bd12f949a715ff7c97cf67e225de08ed6a3d99cfb555int),
            b: (0x18ed147e06724d281f04baf69f1f555ea0c8aa3ce588c6c142ad04001cbe7549int, 0x2f79851f4e9d68cd26421aa48ec3d8df281d20be4682aec9e8dc142215134d17int),
            dt: (0x296c02aa4e6bad30d7aaa5abd7d642f343d45f292b86ef3c89d478ee16692450int, 0x32833eaa5b4c99ecd66ee54b2e06c3bff5dd233e0719d40fda54150a59676859int),
            c: (0x252289ad6802ba49854aa935398650b3442af8e26d616a3728f03b4d8d61b00int, 0x858f549bd4af9f24d5fa02ccd87c125a7ec24b376310f4ec80e32ed79a50751int),
            zz: (0, 0x36239ccc7ea430bfa0e84260dff0c104574658e4aeabc259d02c743f35ede384int),
            h: (1, 0x28ae3b31083670d3a051ffaf7e6ba7efd3dc148aae6678a8f1c97e60aee3026bint),
            s0: (0, 0x6554c3d0c9ee86cd1f55c7785c56976f6943607e9e6fcbbec8113304eeec6accint),
            s1: (0, 0x60c7d6918e437d8827d3dfcfe8923870431f0f21be6a05e37815793fb5885c83int),
            ss: (0x54982a7ea91d6bacc4197ab1403b6126bfb9cb1c28e03759d12eb48faf59af42int, 0xa0dd2a878313bc402b3468f26264744e540dc38d35cb6b0f23ea56482624722int),
            e: (-1, 0x554d3eca99984838959b1ee7b15c775a65226bb124f49a0700752702d37f44b8int),
            f: (0, 0x2dcaa782c15936cd5388a2341268ffdeaf5a3431387ab30b081e4151bc48dc33int),
            g: (0, 0x3e7c92163bef2ab1ee47e28dad788229ff327d9824dcd1a8983aa72caf92ead5int),
            x3: (0x21b1b2b1b08f8b670e5a8e314f1178f8b53fcac45712044944a40058217f9fbaint, 0xd07c171c729b12018f782a408f0bfed2d8489c918a40fbbb71d3b2dd3a930eeint),
            y3: (0x15ed619c0e1077956a0452f9052ff7141fbacea01c0dc5667d13f2c3e02abb17int, 0x60b000f45ad00fe14a5fff696f3f11b128aad767b30a3d2021c87222a8f215f0int),
            t3: (0x1deef101b124ceb097cc19f6fba40e1bb7b2b1f215c29676b551515906e3935dint, 0x1907ae8b2595b89fdc44594330f5908339245a25baac9619101df5685cff958bint),
            z3: (0x18aea29ff9583c17e9c220bc26db60680a0769f007c950392d27defe4e449b40int, 0x6fc50af45b4d0e5088e2fdc079fa58d5ce89bdeeb878231eba0a193665b7392fint),
        },
    );
    lemma_chain_double(
        base(),
        ExtendedPoint { x: 0xd07c171c729b12018f782a408f0bfed2d8489c918a40fbbb71d3b2dd3a930eeint, y: 0x60b000f45ad00fe14a5fff696f3f11b128aad767b30a3d2021c87222a8f215f0int, t: 0x1907ae8b2595b89fdc44594330f5908339245a25baac9619101df5685cff958bint, z: 0x6fc50af45b4d0e5088e2fdc079fa58d5ce89bdeeb878231eba0a193665b7392fint },
        0x1cfb69d4ca675f520cce7602026876014cd041nat,
        DoubleWitness {
            xx: (0x176f00100bcb9e996c44ee1a72e47e45f9542c3f5f82b9f299eeb097c69dc69int, 0x20cdd1a37ec311f27861ac37335879cee52aa829b6323f94c1c02f857b2c40dbint),
            a: (-1, 0x531fd5afaada6b55bad82bd0d6495e366e92fbd949cc1c6a3e3fd07984d3bf26int),
            b: (0x50a3df48f1e9d0566f22ae293217e91a75d39b991ead86ce0f44d9341cf4fb44int, 0x111299eef7e23f9010103abc9b2fdad9edc29e63641b00bd200657885eac45bcint),
            zz: (0x6bc29f47fcc8e8b67534cb51e4dedbf6c46ffd2327e46f5df863cd2084a34e48int, 0x404ccd0015c26b9049fd8b81a60c1b4d06417b1564bee9e42acce53d5f54a859int),
            c: (1, 0xcabf2ad01e759d860c13efb42765e94b8c55227c97f77c95599ca7bbea950b1int),
            dif: (0, 0x420d3bc0b2f82bc5aac7f1143b19835c80d05d75e5b11bad1e3978f12627796aint),
            xy: (0xade1d5c5c5872496655d6415b319d2fb2dee8239a2a5aaf677117566340fa3dint, 0x2b25c140d44460327065ee57a1c6f582438dd9a6fd387cf16d7db9e25d5c6ae3int),
            e: (0, 0x564b8281a888c064e0cbdcaf438deb04871bb34dfa70f9e2dafb73c4bab8d5c6int),
            g: (0, 0x64326f9ea2bcaae5cae8668d717939105c559a3cade71d275e462801e38004e2int),
            f: (0, 0x57867cf1a0d5510d6a2727922f02da7ba3904814e467a55e08ac5d8624d6b431int),
            x3: (0x4126fc4129489b9d11e56c0a11f31c1a333bcaaa9b99198d68b4c33ce4157465int, 0x2ad3e5e3c9520dd757204234e79c1215bf4aee6900e9fb54570f15505b1eae81int),
            y3: (0x3916ac586c639018f0d8030f8409038d47b980cd0381b79823b9d3ce654055bfint, 0x3df262a97870f82ed6933f67f803440a5f1c215625c799aa93ab293c9a7e81d5int),
            t3: (0x312aed9f0f5a5ecc81046cd47a57a387af29c7ad008253a3f209280eeedf852bint, 0x6927a9ba645471496149b0a0fbdfb3a9d8efb4de0db0f4092a83a1cb3dd94d1int),
            z3: (0x4ba5f5344eb1495dd4356dac3b5b14b0e0d38579822cbb660d8c907e93814e30int, 0x246eea0f2bfd274575a4edfdf37de4069d50541f05c6c22989b69003d85a8912int),
        },
    );
    lemma_chain_double(
        base(),
        ExtendedPoint { x: 0x2ad3e5e3c9520dd757204234e79c1215bf4aee6900e9fb54570f15505b1eae81int, y: 0x3df262a97870f82ed6933f67f803440a5f1c215625c799aa93ab293c9a7e81d5int, t: 0x6927a9ba645471496149b0a0fbdfb3a9d8efb4de0db0f4092a83a1cb3dd94d1int, z: 0x246eea0f2bfd274575a4edfdf37de4069d50541f05c6c22989b69003d85a8912int },
        0x39f6d3a994cebea4199cec0404d0ec0299a082nat,
        DoubleWitness {
            xx: (0xfd26c5d00e793c457dfecb666ecab9c92e28033146a0a53065acd40361bd1f3int, 0x510951d6816c557ba0281cbf69c98a2a0e2f3ec288c48be86d1c130fdd13cb0eint),
            a: (-1, 0x22e4557ca83127cc9311bb489fd84ddb458e65407739d01692e3ecef22ec34f3int),
            b: (0x2119ff93333e10daa8eeac412360001df23beed5dfc74205ddfe6465b9c77999int, 0x4fd9e51a0b3f0fd7330e066f0c1fe17963cb4bdb84e0cece3a769dc399bce1a0int),
            zz: (0xb7334db2343ea53b1d7db60c73b4ea250e5c7f77c54bb373a698249d177739bint, 0x5a2798f171b7bf15ef16dba3780ce1957f10ff9cfdda915663d24f103894d1a9int),
            c: (1, 0x40618a8fb9d200e3aaf3df3ee677eb25aa645b36fbb6c6adc7a49e217129a351int),
            dif: (-1, 0x46f817b5c68f953d933d8ce19d5a44673580bd67f2575d47586d4f2a892f5354int),
            xy: (0x16e29b7c5829433599b0cff9228f3c8d12ea78f44455b6317c68e2d2ebd14b59int, 0x4ff9d70c22b22c94e51b8c9a679ed75e63f6ac56f49c590e355e7f9bd822e6fcint),
            e: (1, 0x2c0606c51bc6dbe196fd412cc59bd6b7742fb4aae93a561d6abcff38b045cdf7int),
            g: (0, 0x72be3a96b37037a3c61fc1b7abf82f54a959b11bfc1a9ee4cd5a8ab2bca91693int),
            f: (0, 0x325cb006f99e36c01b2be278c580442efef555e50063d83705b5ec914b7f7342int),
            x3: (0x131ff890e38e40756dc2f16aa335b0d0b30fa3548e9c6b6a1bc792829854cfe0int, 0x1042996e8d8bdb5869d1d00222afaa13be21f66aa149ac16c4bdc409bfb93eceint),
            y3: (0x463e577efa8d9903d7d7f3dc6f93f31329a557ac16fd2864c51fd5d3406a20deint, 0x11d368697fc4f343cdc40ee5ce8d2b175e2c8ca8874a86de9c0af219495ff05eint),
            t3: (0x1af34b7ea8b7304675e9248cf9bde0b82f6599649d0e97449ee2b03c7851d4afint, 0x62b849de3b11acc6b657f09734fe9018ccbc227b7349d6ea681dffc2ffb5d55dint),
            z3: (0x31d8df61c8b41991bd4bdd161ecddc7771430191f15425a21a1ccf885190c378int, 0x4babc4d8972f08e8d61c5d47de031b33a0f2fc540f605ae3928f6f868b18176eint),
        },
    );
    lemma_chain_double(
        base(),
        ExtendedPoint { x: 0x1042996e8d8bdb5869d1d00222afaa13be21f66aa149ac16c4bdc409bfb93eceint, y: 0x11d368697fc4f343cdc40ee5ce8d2b175e2c8ca8874a86de9c0af219495ff05eint, t: 0x62b849de3b11acc6b657f09734fe9018ccbc227b7349d6ea681dffc2ffb5d55dint, z: 0x4babc4d8972f08e8d61c5d47de031b33a0f2fc540f605ae3928f6f868b18176eint },
        0x73eda753299d7d483339d80809a1d805334104nat,
        DoubleWitness {
            xx: (0x247d90a9212aec6ff30f3ad761bce76642a5e3c893b5daff47b1ae249831aa4int, 0x10e93adb80a06b67991856b64bf28b7d9c252a69944730e333fbcc00efa15320int),
            a: (-1, 0x63046c77a8fd11e09a218151bdaf4c87b79879996bb72b1bcc0433fe105eace1int),
            b: (0x2bdb22e156881f86ee9f711c6112c342ab6f30c596d71340d9561861102b3ebint, 0x61d6cdcf1cbce189aeb3f6930606c6605b31c661a111f4ef26fbd7cad271ae99int),
            zz: (0x3164b6b12fa389503ecd41d8c76c2c171d129a08a0f9caa2486d715ba104585dint, 0x5240e421a17bbfa44f87bb0295d304d4eccbc04bcb04b22ca97fddf39c09ae7int),
            c: (0, 0xa481c84342f77f489f0f76052ba609a9d99780979609645952ffbbe738135ceint),
            dif: (0, 0x12d9ea88c403056eb6d8abeb7a886275c66b337caa5362ca5085c333decfe48int),
            xy: (0x28010bc929c1bd275df9e2e764b5100fad492b596e3e22955893e99d1c01d9fint, 0x5cdc2df400789a3c25d69c80096b5a16f6cdc0d39c0e0486fb79d51c4b981205int),
            e: (1, 0x45cab494d753b730187360f80934dc2899dddda4381dad0ef6f3aa3997302409int),
            g: (1, 0x50ed92f39c1c7622159b9fdcba143ae2bf0c9bf80ccac40bf3000bc9e2d05b79int),
            f: (0, 0x46a5766f67ecfe2d8baaa87c6759da48217323ee936a2dc65dd0100b6f4f25abint),
            x3: (0x2a87e90ed2733658649484c7b5fa021c9ac01128d87dfb179d7d5d23a033b68eint, 0x345ade7a9a10f5423989ab9745f4ec71579ee23e755a6161bd09049a57f0a875int),
            y3: (0xd28e85d820c5521c411fb1618e71882824122accaec63aad8fcbc31ada0c1cint, 0x850d24199b32ced4aa17acdd18af86e9dcc09f65be58df3b3525326930dbbecint),
            t3: (0xb59532404b0998894b2f4a3c5644b3c6ee15d9cb8d36ac6352ed318ea1dff0int, 0xa298cc8a653987bcc13cd0a3f758d6b70af8de9ba2207f661ac39b517f53098int),
            z3: (0x3151385d32f9fd6c29a926762cc2c1469e1e0c984cc68986977f55294d0367a3int, 0x243a908b1b1b8f27d92ac46ea174e928829f36f97b176e7540e0f44502b92f30int),
        },
    );
    lemma_chain_add(
        base(),
        ExtendedPoint { x: 0x345ade7a9a10f5423989ab9745f4ec71579ee23e755a6161bd09049a57f0a875int, y: 0x850d24199b32ced4aa17acdd18af86e9dcc09f65be58df3b3525326930dbbecint, t: 0xa298cc8a653987bcc13cd0a3f758d6b70af8de9ba2207f661ac39b517f53098int, z: 0x243a908b1b1b8f27d92ac46ea174e928829f36f97b176e7540e0f44502b92f30int },
        0xe7db4ea6533afa906673b0101343b00a668208nat,
        SumWitness {
            a: (0x4220ec1dc3088f16dbd7ca7589cc10991b2222b21d86fe90f0d80bdd0dca930int, 0x1c421d733df1c8392eb8b607a63a6b347d2caaae7492509eba9bfc3b4e2747bfint),
            b: (0x64926f76e46ee4a4e3b8bcf7a076485ffa8a2f2e6e4ccd741ccccc09569c5aeint, 0x62ac234ffdc7894e28d3b97bd2bdf18dc998645af81bc90fd0390e64101f5292int),
            dt: (0x3bb6ad8ecaa896aa229eb229c4ad7cb975f7e829b52ddb3ecb9c34041b7c960int, 0x51c1dba7344afb2fc68c80f41a138863c63944e9543a8fec6d6aa39f9f739fb8int),
            c: (0x3c1accfb4d2095f60391c2e7209549c2bdda77374ff5a38f7b053e9dcd0b0e1int, 0x5b5a37a8ef1ec37b891fee4c673440d922c0f8b92c4ce7364c113d806ab0eb17int),
            zz: (0, 0x243a908b1b1b8f27d92ac46ea174e928829f36f97b176e7540e0f44502b92f30int),
            h: (1, 0xb009970121bd43f2452977b6f5684bcf3076b066cafbdaf8ad50aa05e469a50int),
            s0: (0, 0x3cabb0bc33c4222f842b2665177fe4dff56aec34d13fef55705b57c0eafe6461int),
            s1: (0, 0x60c7d6918e437d8827d3dfcfe8923870431f0f21be6a05e37815793fb5885c83int),
            ss: (0x32a657e6b2d17dff7db9b3198a97a6ce9d62ae855ab3fe783513346693887936int, 0x6c1b710d92699d6df4c197af8fc99d6f34cda3ec49f4ee4a7b60c1f8013fc06dint),
            e: (0, 0x611ad79d804dc92ed06f0034207318b241c638e5dd45309af08bb757a2f9261dint),
            f: (-1, 0x3cce0035559a48f48344ae2a43e28054b39be2434ec8e33df4cfb6c39808441aint),
            g: (1, 0xba720e0e09cd55b2f10dab2ff0751fc51a28bafa765f9ac8cf231c66d6a1a46int),
            x3: (0x32ee85cbfdfa4ac90a21a461f9083681d45acc6ebe28c52db4cfddbf9f4a486fint, 0xe475e231a20532c5112eda0d9d82b40243825ab872b0f2cf332fd61850b4a83int),
            y3: (0x11b1e349dbbd277029ddaabcf8825666eff889d0d3402ca840d0de503268ff5int, 0x2f8f1cd9508d08adccd6ea03f60309ad6959b7e5945995dbd4be764ce4f3c1ebint),
            t3: (0x937436856d46bc2cd00a5e672347e281e061a4901d741f74622a0d7308bf658int, 0x4a9f38f625b51c11b7e52238a33401e2797ffc7642158fac6181592cb02b64b8int),
            z3: (0x61ca875e05e09b03d405f5089cda241b3a76d52edb8b8e9accb632502ae3a3bint, 0x6c69d2000628f1106f30ada335f589ce25b4809cdeea00ff17f8cc89ab4308e1int),
        },
    );
    lemma_chain_double(
        base(),
        ExtendedPoint { x: 0xe475e231a20532c5112eda0d9d82b40243825ab872b0f2cf332fd61850b4a83int, y: 0x2f8f1cd9508d08adccd6ea03f60309ad6959b7e5945995dbd4be764ce4f3c1ebint, t: 0x4a9f38f625b51c11b7e52238a33401e2797ffc7642158fac6181592cb02b64b8int, z: 0x6c69d2000628f1106f30ada335f589ce25b4809cdeea00ff17f8cc89ab4308e1int },
        0xe7db4ea6533afa906673b0101343b00a668209nat,
        DoubleWitness {
            xx: (0x1c23a63dcb4d58d6239b0ec998541500428cf6dabc1420265618d3063f75a92int, 0x361f4eab1d8fb611cc8398fa5c933ee8282e2dc0464372c434bbee9336faa477int),
            a: (-1, 0x3dce58a80c0dc73666b63f0dad0e991d2b8f7642b9bae93acb44116bc9055b8aint),
            b: (0x1382c7d68c59efc302e3f877d042cf7a86d497515a2b5d6db88483fd7ae832f7int, 0x696a78ac05e1c544a1d9f76d355ced3852fb30b2ff1078c3477a9005d41dfac2int),
            zz: (0x6562b2bb5f96e436eda54363d6fc5a6f98fd92daf873e6d04f41344bc854c274int, 0x6af69a19dbcd894f375857cc6c2143e894e6928b7ff5a0a2b17c466473c0134dint),
            c: (1, 0x61ff8ce08dfd95563b76d790cea0afcbd60f8113ffece54662f88cc9e7802699int),
            dif: (-1, 0x4851874f2fc97f39f8161fa8815383ea2c51e992baa8cc7683c98164f4e760c9int),
            xy: (0x5db98c6ed8cfe1b7c10d5730c6371c5e0bc5991c482d6926589507ec85bb3e5int, 0x739d622644d79519f883014af4e86ef6e47e177162d037eceea35a314287755cint),
            e: (1, 0x734d1cf96011acebbdcc2a8de02f05e8753e8adfc5a213dadd46b463850eeab7int),
            g: (1, 0x334b2a00e8520f32d5565e72d8c9ae502acd02f2b8cd05ff12bea1729d23564bint),
            f: (-1, 0x4539447383f1f724cd195eea13cad689a87b25e1b8de7cb7afc614a7b5a32fb3int),
            x3: (0x44d96799c5266b3b9465e057ac50b1f54b421ea773913c28e9c3ff4707a11d4cint, 0x628187122d4c326f705f585c12bf46951133c385fcdd7ec0a37832dc946999a9int),
            y3: (0x1fff7d40a038c37f5e9f1e27a9cbd2e8824ac5ef5b715a58961ae1e5928af840int, 0x27ac770702de6dc8e82df519dd44855fbc7cdca7d03c4a6c6f05cdb3683ce8a3int),
            t3: (0x47ed6150db54d549c8558680a94cb7b67b1182a98a499aa909710883795f1d96int, 0x4d55d5a456621c62b9a73dd82f3199a17a0a244653ea1816bd7f37c3ce7ccc19int),
            z3: (0x1ea0f217b03816c5cae2e824e01c09784031ee3794e77e59c09aef6281c33bf0int, 0x690150a13bc7a0b2296bf5ada3c6dd7d43f5d551870d2544f8f86afad38adf81int),
        },
    );
    lemma_chain_double(
        base(),
        ExtendedPoint { x: 0x628187122d4c326f705f585c12bf46951133c385fcdd7ec0a37832dc946999a9int, y: 0x27ac770702de6dc8e82df519dd44855fbc7cdca7d03c4a6c6f05cdb3683ce8a3int, t: 0x4d55d5a456621c62b9a73dd82f3199a17a0a244653ea1816bd7f37c3ce7ccc19int, z: 0x690150a13bc7a0b2296bf5ada3c6dd7d43f5d551870d2544f8f86afad38adf81int },
        0x1cfb69d4ca675f520cce7602026876014cd0412nat,
        DoubleWitness {
            xx: (0x53b3b1d4189334ddb803be496e0ddb925bd82505aa11efe7a453ff60af9abf5cint, 0x16e03ef8e7b4ba8f43c19b2a438490483a2436e5c1271d0afb4723ae2142b235int),
            a: (-1, 0x5d0d685a41e8c2b8ef783cddc61d47bd19996d1d3ed73ef404b8dc50debd4dccint),
            b: (0xd93ce747ed76635c1505618ce1a3085db864c9dbc4832e2f35cd4aa40919b4aint, 0x11337e293f20cb79757fd3cc73f479716dea666b365e16439c6b4140f3e3c7fint),
            zz: (0x5f1c752ca30bba9ef39641605f26f549c1f8ff2a1ef9f976c6105ca6cc8bdb5eint, 0x6093fba22252e8859a7b6671fa3ff53844d6d8a19b901821db8d126f93aa23a3int),
            c: (1, 0x4d3a4ff11b0853c301bcf4dbeade126b35f00d403721d444b71a24e027544745int),
            dif: (0, 0x5bfa3077adf6b60158203fa0fede002602bac6b68b715d8fcaf2283ccf7f114dint),
            xy: (0x21b618057470f21355d7ff93dafc9a572ddf88004e14d0387bfcfb3bdedec82cint, 0x31cdd1a1dc99b32817f7e42183e8854788d69943e7a720e28baf8b39ff3b366fint),
            e: (0, 0x639ba343b93366502fefc84307d10a8f11ad3287cf4e41c5175f1673fe766cdeint),
            g: (0, 0x5e20a03cd5dacf7086d03a1a8d5c8f5430781383f23d20583e7f9064edfb8a4bint),
            f: (0, 0x10e6504bbad27bad8513453ea27e7ce8fa880643bb1b4c1387656b84c6a74306int),
            x3: (0xe85417e4f0a03922ac08b759549f5e2f2fe5deb689e313197283e95d8d54edcint, 0x596c2a63bc58c008d79616fd0782d038a27a56662e561a28c7697683d5415858int),
            y3: (0x4aae36a4247383f3d47ee108e811c442529dfd27e16f99b9912fcdf2f7b87228int, 0x3b19cf60a5112f9efc8eb7b34704e2c74bafaef6611c92c0e7745c8e91542167int),
            t3: (0x4f075c31f06f62c2c9f3147f0dd487c539d401b4c034863003910d41ec2765f0int, 0x19e8ebc952376710feedfd0ef51ffa0b77e4dae23642ddf9699b0046fed416d6int),
            z3: (0xdb8baafe231585e965a511108f2fd28db99726350e5a3b782d17caf3462df3bint, 0x2e484937d6f60945bf772e32a7cdc0a637d9f711156d82c3c258a2eb6da0ff87int),
        },
    );
}

/// The multiples of the base point, from the multiple by
/// 0x39f6d3a994cebea4199cec0404d0ec0299a0824
/// to the multiple by
/// 0x39f6d3a994cebea4199cec0404d0ec0299a0824f3.
proof fn lemma_order_part_18()
    requires
        extended_valid(base()),
        extended_valid(ExtendedPoint { x: 0x596c2a63bc58c008d79616fd0782d038a27a56662e561a28c7697683d5415858int, y: 0x3b19cf60a5112f9efc8eb7b34704e2c74bafaef6611c92c0e7745c8e91542167int, t: 0x19e8ebc952376710feedfd0ef51ffa0b77e4dae23642ddf9699b0046fed416d6int, z: 0x2e484937d6f60945bf772e32a7cdc0a637d9f711156d82c3c258a2eb6da0ff87int }),
        same_point(ExtendedPoint { x: 0x596c2a63bc58c008d79616fd0782d038a27a56662e561a28c7697683d5415858int, y: 0x3b19cf60a5112f9efc8eb7b34704e2c74bafaef6611c92c0e7745c8e91542167int, t: 0x19e8ebc952376710feedfd0ef51ffa0b77e4dae23642ddf9699b0046fed416d6int, z: 0x2e484937d6f60945bf772e32a7cdc0a637d9f711156d82c3c258a2eb6da0ff87int }, times(base(), 0x39f6d3a994cebea4199cec0404d0ec0299a0824nat)),
    ensures
        extended_valid(ExtendedPoint { x: 0x292da1b3bc75d8d04ff129c5aa6435cfce4d3896a1746fbadb8d9286086e670cint, y: 0x5f809e6aeb0078ff7b0c6f5337316ead9da4fe87dbba92f865836b9bfe04b950int, t: 0x3f28401b1c7c43ef6360c2baa42ad058ac7b5a3eba6620aa2bb8774c0264f1baint, z: 0x677b8e68c5c85296d3cf91b77aaf143e3a60eab4cc79db8e5010ad285dd14b68int }),
        same_point(ExtendedPoint { x: 0x292da1b3bc75d8d04ff129c5aa6435cfce4d3896a1746fbadb8d9286086e670cint, y: 0x5f809e6aeb0078ff7b0c6f5337316ead9da4fe87dbba92f865836b9bfe04b950int, t: 0x3f28401b1c7c43ef6360c2baa42ad058ac7b5a3eba6620aa2bb8774c0264f1baint, z: 0x677b8e68c5c85296d3cf91b77aaf143e3a60eab4cc79db8e5010ad285dd14b68int }, times(base(), 0x39f6d3a994cebea4199cec0404d0ec0299a0824f3nat)),
{
    lemma_negative_base();
    lemma_chain_add(
        base(),
        ExtendedPoint { x: 0x596c2a63bc58c008d79616fd0782d038a27a56662e561a28c7697683d5415858int, y: 0x3b19cf60a5112f9efc8eb7b34704e2c74bafaef6611c92c0e7745c8e91542167int, t: 0x19e8ebc952376710feedfd0ef51ffa0b77e4dae23642ddf9699b0046fed416d6int, z: 0x2e484937d6f60945bf772e32a7cdc0a637d9f711156d82c3c258a2eb6da0ff87int },
        0x39f6d3a994cebea4199cec0404d0ec0299a0824nat,
        SumWitness {
            a: (0x70f2ae8606d9f80338efcc582135c2f63b7133c4d6d0444abf29bacca8fd9bbint, 0x1804d2e13ccdb511cc0a82ed49bc93026704f555956e959d8242c995d57932cdint),
            b: (0x2cac7443708128576a32c00fd6ae25c4f72e1848793064c8a3b0c1563245bbd6int, 0x3b9c20fc5a20e8dd53d220e1b5c0cc12d39aef20c8b3998f9219124c827c5a7aint),
            dt: (0x983ef80a134c4b5e648cd73151a8abfcb1d8d5a99b6ddce62a7169982b4fac3int, 0x68c14226266819f5a6dc55b5be3506dcffb4421398809082e83d60692eea333int),
            c: (0x4d02fbd638ee46d93075faf7798a4668dbfeb2d43fb7d5d23e58a21326e1b7int, 0x5c98b768e02ff8c31c25ab4b38c2188003ef46087b8a0690397ee7cfb596cc24int),
            zz: (0, 0x2e484937d6f60945bf772e32a7cdc0a637d9f711156d82c3c258a2eb6da0ff87int),
            h: (0, 0x53a0f3dd96ee9def1fdca3ceff7d5f153a9fe4765e222f2d145bdbe257f58d47int),
            s0: (1, 0x2098527137cc725fa0eaf6a844e5dafa9a6c61598f7450eaaeddd313669579beint),
            s1: (0, 0x60c7d6918e437d8827d3dfcfe8923870431f0f21be6a05e37815793fb5885c83int),
            ss: (0x1b361a333dc3cd760e1cd0dc7585e9335aff006fd475c709587d4621396738f3int, 0x65475bd8126a763c22f8b0e2a62e8df24ada9defcf67211fe007e0daffc65b47int),
            e: (0, 0x11a667fa7b7bd84d031c0d13a6b12edd103ab9797144f1f2cbac04f8a7d0ce00int),
            f: (-1, 0x459d392220638dcad68b5aef78ad802b87a8550b99e1d83288d9bb1ab80a3364int),
            g: (1, 0x16f3594d8d8884c0a8630175d6ee0120e80b991690f92d54fbd78abc2337cbaaint),
            x3: (0xa9945717528bacb9eb5f48f7fbcbee92889858a0e692151d81b63891c9d4f50int, 0x2407e45c5e5f2272f36e1b19b7e9ece1365c429b970fd88232b4f48f15fd28b0int),
            y3: (0x108e6057a24b2bc398a8f453002e2c8c7f8e0ed207c6063ab948c1e364af7bd8int, 0x2701be0418f182d19339af57d7564b13abbfbbf357be8e0e7187b838caa8a24eint),
            t3: (0xcbb80458457e894a3436692629aba28261f16d3c8b834d5f95e75f0cf406fbeint, 0x3cc9077c21c7e1e1f83574ebc92099b3f5955d068453e71354e4bc08e31eb242int),
            z3: (0xdc81b181371a448197841a46c02d81521771fe243ebf60190d45b1033329a03int, 0xcd65d2e8d8b19ce0759a0920cc235eea3b718afc60c8b19e0674348d0cfd265int),
        },
    );
    lemma_chain_double(
        base(),
        ExtendedPoint { x: 0x2407e45c5e5f2272f36e1b19b7e9ece1365c429b970fd88232b4f48f15fd28b0int, y: 0x2701be0418f182d19339af57d7564b13abbfbbf357be8e0e7187b838caa8a24eint, t: 0x3cc9077c21c7e1e1f83574ebc92099b3f5955d068453e71354e4bc08e31eb242int, z: 0xcd65d2e8d8b19ce0759a0920cc235eea3b718afc60c8b19e0674348d0cfd265int },
        0x39f6d3a994cebea4199cec0404d0ec0299a0825nat,
        DoubleWitness {
            xx: (0xb32cf4651ad5472c5aa1db24d7f07699a91043bb30d02e607e8ff726f709ce7int, 0x1fd00cb144fb4a6c4ebc3b26eff3440a38602ee52b8cc9fd874e151ae2e6dc19int),
            a: (-1, 0x541d9aa1e4a232dbe47d9ce119ae93fb1b5d751dd471920178b1eae41d1923e8int),
            b: (0xd1fefe34a11edbe677a3ddbc6a5a8c2557a0b3e78a5a32e69711ece23e17a24int, 0x139bb0fedef836da136e2460fc755fd925f12f8522b89b5b783a0cae616555a0int),
            zz: (0x16beaa0bf45d6548599c78872af6fda26c91f470c9b09aaedb0537c15d08477int, 0x5e184bf8bb8d054309b95ebbc135b6047111c1ac2074b9711cbfc664f66f5762int),
            c: (1, 0x4842f09e4d7c8d3de038e56f78c994038e65df5540eb16e3397f8ccaecdeaec3int),
            dif: (0, 0x4081e9a305a9fc01d10f78801d393421f56c4598b1b8f6a60077de35bbb3ce48int),
            xy: (0xc1f983e1ec3868b6a0095c1db8e69c195ae0e358d75a47704712f3dea0ade61int, 0x42135dc26082fd10103bef909f89fdd9d9c4d4adffb780d42a2e55639056e73fint),
            e: (1, 0x1039143197687cd7ed3e0719357223ae5fcc0558ff70a5a9545caac820adce7dint),
            g: (0, 0x67b94ba0c39a69b5f7ebc1421623f3d4414ea4a2f72a2d5cf0ebf7927e7e7988int),
            f: (0, 0x1f765b02761ddc7817b2dbd29d5a5fd0b2e8c54db63f1679b76c6ac7919fcac5int),
            x3: (0x4671f8e1f26c966faf3d07566bb99203934708dca6ba54a14a38321dcba9b7cint, 0x2183c2a304dc738418772b45f291911620265bb1ae96e199154e71377a96ecb5int),
            y3: (0x39b762ee42edbaf3d5acebff462695a7071ddc8c2bccd0b52cd1940ad4e8852cint, 0x21d94bfd01dc5b97ed29071d11cd5bea961e176be7ef6d59c54c627bd68d1914int),
            t3: (0x906f34564c222ee6a067f13c4ba419754e0a98cea2adb6eb63791b208abeb31int, 0x6e82457698151060e7efb1bcada2c4cc011912f527dfa820b0e66151b4c5bdf7int),
            z3: (0x1c266be7b469af1d65a9bd61ebf6b8d292e26c2db23681dedd600f8e88f4de50int, 0x2bbf9cd7e02acb2b4e16b5602f499188631dbf672424372c3028e6681dbbf758int),
        },
    );
    lemma_chain_double(
        base(),
        ExtendedPoint { x: 0x2183c2a304dc738418772b45f291911620265bb1ae96e199154e71377a96ecb5int, y: 0x21d94bfd01dc5b97ed29071d11cd5bea961e176be7ef6d59c54c627bd68d1914int, t: 0x6e82457698151060e7efb1bcada2c4cc011912f527dfa820b0e66151b4c5bdf7int, z: 0x2bbf9cd7e02acb2b4e16b5602f499188631dbf672424372c3028e6681dbbf758int },
        0x73eda753299d7d483339d80809a1d805334104anat,
        DoubleWitness {
            xx: (0x9b064f98f5d182f4499d2b6128f0485e4b809fc8c9b179eb2235ded10837eb1int, 0x3d4f7d39ca7c88f1ef89952f0b24c227d0ac1deb807cc0667331d320b276b948int),
            a: (-1, 0x369e2a195f20f45643b042d8fe7d15dd831186177f819b988cce2cde4d8946b9int),
            b: (0x9e219101a4079f1d7471d8412c27e5cf067b5ceaf39fbe1b50f141e12196c3bint, 0x18eae4c02909080842205830f041975be14c01cd45ed60eaef83f50700637d55int),
            zz: (0x108274f7815a290a70187022b565c6ac1b6cfa5e07613993a040ab06707ba8f6int, 0x3c718dc3ac6b34bda8331bdb3ce7ef565d87c8a413428fed085a357cc90f454aint),
            c: (1, 0x4f574342f38ec331d2c5fae702e06a76751ed452686c3db10b46afa921e8a93int),
            dif: (0, 0x1db345593617ec4e018feaa80e3b7e81a1c5844a39943aad9d4a37d74d25c964int),
            xy: (0x9c91f7676a5c385d3de9335264916c8cc98bc6008d715e835a06ca9c2bc01e5int, 0x1aa238c29217a5d7680c8d75910f11d02491dd5dbea57601d8308c803bdd293fint),
            e: (0, 0x35447185242f4baed0191aeb221e23a04923babb7d4aec03b061190077ba527eint),
            g: (0, 0x4f890ed98829fc5e85d09b09eebead39645d87e4c56efc837c5221e54decc40eint),
            f: (0, 0x4a939aa558f1102b68a43b5b7e90a691fd0b9a9f9ee838a86b9db6eabbce397bint),
            x3: (0x22444f5fe21393bf02de79ff963a6528812d7a5b58e75587ebaec3c2d7aa227fint, 0x260ccef6e69cd3ff836c160cc5d2f5d22963af3aabc23025e743e9fa969d8e0bint),
            y3: (0x1460677faf2cc0405e8809757c6e7b6c7d3515e326033874c8b093ad9b863246int, 0x54ae0a45ef5c23401b081deeb3a20ff1791eded0f68b10fe50200a4c46eb6132int),
            t3: (0xda597357c2bb80e6e83f4341fa719774907ab1d6964ff91291de864b92e1b70int, 0x199a50c460e55abc4b9839be8aab69aa0bbb451d7b00d275275407cb28950bc8int),
            z3: (0x332a3f6962761e01153897121f09d8bb3d401dafe830dce6b22005eab64dde41int, 0xb51bee8a426539d080e84dad747df434d5ffb00f85cc84f740400646f5f7279int),
        },
    );
    lemma_chain_double(
        base(),
        ExtendedPoint { x: 0x260ccef6e69cd3ff836c160cc5d2f5d22963af3aabc23025e743e9fa969d8e0bint, y: 0x54ae0a45ef5c23401b081deeb3a20ff1791eded0f68b10fe50200a4c46eb6132int, t: 0x199a50c460e55abc4b9839be8aab69aa0bbb451d7b00d275275407cb28950bc8int, z: 0xb51bee8a426539d080e84dad747df434d5ffb00f85cc84f740400646f5f7279int },
        0xe7db4ea6533afa906673b0101343b00a6682094nat,
        DoubleWitness {
            xx: (0xc7d218fcd7c408240edffdd4b89158e5a1fd9770382b42831b30fb1c919e449int, 0x2a58b9d07dc98309197ba933da091db0bcb8e3196227b461c0f4b7fa3345030int),
            a: (-1, 0x71481bb621c0e517a1a21d74cc01462a47f215d169dbe0b8e3f0b47f5ccbafd1int),
            b: (0x3ddab915ad27bbcee2ce511867389386b15da9cf0fb5049fa0feb28e4cc65cf0int, 0x30092468a2cc67337a848631eddd04bdd16bad859dfcdf2cb46d9a4a1ec90d4int),
            zz: (0x11af014670407b01e0b20643c1b41a9f2f968c864f307417f2f744206f4bfa0int, 0x4e171834c1852af7b80645385209dfdd6d0db4164a63856ef692a2c110093d91int),
            c: (1, 0x28408916596cd8a73cd2b2689a71e7b5865dc42994c8aedeed25458320127b21int),
            dif: (0, 0x6e47896f97941ea469f9d511ad2375de6adb5af90ffc12c618a9dadabadf1efdint),
            xy: (0x1bcb2c42dd588229225844dcf5bb2ba82717b484452b0f0e1957237f5acbdfe5int, 0x58bc72258a7c52b24dd0f4953dd3acb8d462d32335d38f6864a532528e50941int),
            e: (0, 0xb178e44b14f8a5649ba1e92a7ba75971a8c5a6466ba71ed0c94a64a51ca1282int),
            g: (1, 0x5b06a982502e42a6108dcfe13d3e70d14b2ca6c3bd52acaf378e24feb840a4int),
            f: (-1, 0x4c0824e65280d2e39c77b36f506d2ec09eab0c802ef2ffccc21248a0dea5c584int),
            x3: (0x74653f0d0e833b70b7f497f7b4e43417a8c96c56ebc6da29945e696cea767ceint, 0x2b4683dc551f413fa11f08e695883b311081a9120f3afaf67b76850487922d3aint),
            y3: (0x56972ebb8329534b8c3bac8019bffbc88e72b3c284fbc26b7915e47ddb600eint, 0x5a3daedcc7ba188e9d7dddea05f97088388311773511e3014e748fb24cabba06int),
            t3: (0xa8d30feefb8849fffa0f86063071cb4abb0a8047aa713651249cb951f1dd408int, 0x6d8cf04c8cbb6affc929361c28c7a0d4e1e55256d7574ae3e30b9ca7f6ffb272int),
            z3: (0x3bb3181b52e7812a0fc9559a6f35ed6ccdcf9a0de2b1e75906f9773fe2f456int, 0x350c71564bfe699719ad2af47e2eb81ccdddecbccbf49b3c8b7e3945c290943aint),
        },
    );
    lemma_chain_double(
        base(),
        ExtendedPoint { x: 0x2b4683dc551f413fa11f08e695883b311081a9120f3afaf67b76850487922d3aint, y: 0x5a3daedcc7ba188e9d7dddea05f97088388311773511e3014e748fb24cabba06int, t: 0x6d8cf04c8cbb6affc929361c28c7a0d4e1e55256d7574ae3e30b9ca7f6ffb272int, z: 0x350c71564bfe699719ad2af47e2eb81ccdddecbccbf49b3c8b7e3945c290943aint },
        0x1cfb69d4ca675f520cce7602026876014cd04128nat,
        DoubleWitness {
            xx: (0x10278d749ec1e56eda94cba9c45c01adc533e552be05dbbe3b370540abd213c1int, 0x38871e7bb179d65348a51aba12ef7fe69d54e2e68893be5456e3b7b1e535d63int),
            a: (-1, 0x7065356b6e85dfe2feaf865c6872e006e9e855d497752019ba91c483e1aca29eint),
            b: (0x463ed0aff342bb0c87d3957bcbdf920186637e168c71965530949d19950af911int, 0x517950bfebe8eb7b62cc15acf84703bb4adb7614c0cecab4317e29f50625bf13int),
            zz: (0x18466311e292f311db3afb52da9754f5b57bc86116b4e9627e34c5f34d4ae2caint, 0x202c1915603b395565f47ed74ae30a4f23c178009176897a8bff4a69b1c83a5aint),
            c: (0, 0x4058322ac07672aacbe8fdae95c6149e4782f00122ed12f517fe94d3639074b4int),
            dif: (0, 0x1eebe4ab829cf4679be370af702bdc4b9f0cdfbfd6a6556589139a8edb86e38bint),
            xy: (0x21afbd3aae0f87b271ef3f654bda85e9f9c08243b412a28efa29304ddef2e945int, 0x48040500be3888a760fd4705d3fd7f09be1d0cc8d5be2462daaedf7f1144a17int),
            e: (0, 0x90080a017c71114ec1fa8e0ba7fafe137c3a1991ab7c48c5b55dbefe228942eint),
            g: (1, 0x4df0ded830d14e162e41c40157180bbce10627e658458eceec0fee79e7d261b0int),
            f: (0, 0xd98acad705adb6b6258c652c151f71e998337e535587bd9d41159a68441ecfcint),
            x3: (0x10e47386bea993b40a55eb38e99dbad1478f7a8da31e6d5d415472596ed81fdint, 0x610dcffdfa1cecb98cb947ad0b8d72a396beb6b335a8a2710b854c00c94cc34bint),
            y3: (0x14ca02c2e5baf49f94da21d7c011ebfb1b7fd102710bad3d23abee5b5a08075cint, 0x52b24d35c4965bec3e47f4d028b0f85e323f32ed759d1e7361f0f11c3f21334int),
            t3: (0x266ad855d4060c109edca1a16d40b9770755d75c04e51ba9cc3a04a349f3524int, 0x2b960ec1aba3a0342f8a28007750438e061722baecbb8c8f2098ab287ce209d6int),
            z3: (0x924203f88e416d893117be1c12ea30c5b73a4c28f6a58c6a2ae44d3f54addffint, 0xba85449c979fd09393da1d7255e3f2967433a31d63aa3107db199cabd8b8b41int),
        },
    );
    lemma_chain_subtract(
        base(),
        negative_base(),
        ExtendedPoint { x: 0x610dcffdfa1cecb98cb947ad0b8d72a396beb6b335a8a2710b854c00c94cc34bint, y: 0x52b24d35c4965bec3e47f4d028b0f85e323f32ed759d1e7361f0f11c3f21334int, t: 0x2b960ec1aba3a0342f8a28007750438e061722baecbb8c8f2098ab287ce209d6int, z: 0xba85449c979fd09393da1d7255e3f2967433a31d63aa3107db199cabd8b8b41int },
        0x39f6d3a994cebea4199cec0404d0ec0299a08250nat,
        SumWitness {
            a: (0x59646b39c7daf5f33f077c6735964cc4039467e5accc013a44bb5c46bd63d385int, 0x410fb03d7f563588f149fe1964d26ef2a8c32b983bde14a4789fcc4d1bf8b175int),
            b: (0x3e8264e5219a71672837b71d134e4106c5f2e841f926239b0fd08587614ef08int, 0x4625a34c41ad2e3fc3f20b03d5f6dfc464d2e87d66e42f85d14b67491e0a6eb8int),
            dt: (0x1001c9ecd58b6f07975eeef7ff38dfca3e54b069e4f375d052bd34556fee85b2int, 0x51cc74047b2957929e9a584ed1ef3e9ef90343170afc007294706ba08a341b44int),
            c: (0x4e0a4a9469c5dd70a024330f1aff11b9c119f8230b4c994514c3952ed09f65c9int, 0x2f11a683aa3036d1e9c8b8added3175fd004e8e9a16c48d6a074630278f5957int),
            zz: (0, 0xba85449c979fd09393da1d7255e3f2967433a31d63aa3107db199cabd8b8b41int),
            h: (1, 0x1347ac369765e68082023115312776b1b9d87012a2c3e82b49eb33973a03202cint),
            s0: (0, 0x6638f4d156665278509dc6fa0e18822979e2a9e20d02745841a45b128d3ed67fint),
            s1: (1, 0x4e7a2cab4d8fef627fa28fd19ba7c19a97abbf79df4db594e896ec1ba05d0dddint),
            ss: (0x4532f9a8b2e58d8c966403d01c7e896bfa26d710dcec8fdcbc7d33fa63642505int, 0x4ea7ad116d0cf49e7163f002854b6e92d0d1a5373027b114f235ca8308e2799eint),
            e: (0, 0x3b6000dad5a70e1def61beed5423f7e116f935248d63c8e9a84a96ebcedf5972int),
            f: (0, 0x8b739e18ed6f99c1aa1164c47710db36a42eba33c23de8313aa539a95fc31eaint),
            g: (0, 0xe996eb2041d007657da2d62034b709f644388c07051679de7b8dffae51ae498int),
            x3: (0x476c45c37e38564a2e01a8a3d01c565f770cdb061195e2e5bf9bffff4ff33fbint, 0x31d701f906520a20d36ff3861965e418919287245ff7a7123badf19e497f6039int),
            y3: (0x26d91f4424ef4fed96b69619a3cd5dd67c55fc556b176456d0d2ca9e36149ccint, 0x30aed4e6ab8c42c2519ed5548422037e4997dbd7e2e10f3d8be1dda7f7990054int),
            t3: (0x9dfe74599921a205c7d1fe72234c5c5c16e206c2aaafd643feefba02996abf3int, 0x3612f31537b6e2e90c7ee20d2291ace57fd3d64fd904df6e7d2e99d63050f3a5int),
            z3: (0x118fcdc4fc5ebdf4a3e08597f278f39a33c742301e688db47255c82b435bb46int, 0x6a8fb4349ecdecf620fe4310f7729217e49fa38468790cc7c07918e859c04faaint),
        },
    );
    lemma_chain_double(
        base(),
        ExtendedPoint { x: 0x31d701f906520a20d36ff3861965e418919287245ff7a7123badf19e497f6039int, y: 0x30aed4e6ab8c42c2519ed5548422037e4997dbd7e2e10f3d8be1dda7f7990054int, t: 0x3612f31537b6e2e90c7ee20d2291ace57fd3d64fd904df6e7d2e99d63050f3a5int, z: 0x6a8fb4349ecdecf620fe4310f7729217e49fa38468790cc7c07918e859c04faaint },
        0x39f6d3a994cebea4199cec0404d0ec0299a0824fnat,
        DoubleWitness {
            xx: (0x156d5942268b01e074c15c2d8dc5e8afc4dd89a1d37e8ca0770d7738a36d9f88int, 0x5f832eac2d1798115c7388e8b00459610d5114b30c0504e720ea24ec7b4b2d29int),
            a: (-1, 0x146a78a6fc85e536d6c64f1f599d7ea4466c8f4ff3f95717df15db1284b4d2d8int),
            b: (0x1471a3fdcc75aba75f178c78b53fa39faa96d4cab13b1aa565523e213360d8bcint, 0x3fcf2f8b3053d2fd5458f031a557bf01533c05bd63b53d40bd5eaa46490742d4int),
            zz: (0x61f382191d4992d1e55eab6f353e1ab0a2a19b10fcede38d53eb6bc70de4b637int, 0x389ae1112f8893b65e8be26e64599b3a95d80489b3adf7bde3a4d66bbde5a6adint),
            c: (0, 0x7135c2225f11276cbd17c4dcc8b336752bb00913675bef7bc749acd77bcb4d5aint),
            dif: (-1, 0x4888f06ef5cf8f81b5a736f5bde797a846ee2d95904275d621b730cb3bad9005int),
            xy: (0x14ee04495e499a05ed678b32bf1d25c0cdfb3c5d9bc15b8c604b197b8604cf1eint, 0x1db8bbce33a022b8b60428d4e228fafe1521f89c6144609a4892cab918d7c396int),
            e: (0, 0x3b71779c674045716c0851a9c451f5fc2a43f138c288c1349125957231af872cint),
            g: (0, 0x5439a8322cd9b8342b1f3f50fef53da599a8950d57ae94589c748558cdbc15acint),
            f: (-1, 0x56f18d62f7660e0fa141527c3fe3df35c1b62ffcf05100dbd52ad88051f0c853int),
            x3: (0x2c94bf6867f0fdc552e5b38e8895e201381de8dfdba11ffde97f487c5c3dc077int, 0x2a391b1970caf1748e85be9acfa37ce2f3d589c9bd66b9d7d67ef725868572cdint),
            y3: (0x34b2dc66cf388efa85cdbc7e0762f0ff450924918c8c1f410729ceb31631a835int, 0x577dd726dbf1f0283e38b8b01b43470d2c996f0f94720ce24ee7387503e78427int),
            t3: (0x25316155304318535744fcb079c177f42252acdc313dd2ac99c0d4edbc0405a1int, 0x6a54eefe87bb1b5f5a053711096ed2448f9728e431cc6df207aacf8a752e5e3bint),
            z3: (0x3f2abe33423aeb3f74aa7ef5b739fb1c8605e50a30d1978568d61d0445b7c004int, 0x37d9a677cff4d9c9ccc32ca94c8e7f1dfb529c14cad16ebf5bb98b51c71a6c0int),
        },
    );
    lemma_chain_double(
        base(),
        ExtendedPoint { x: 0x2a391b1970caf1748e85be9acfa37ce2f3d589c9bd66b9d7d67ef725868572cdint, y: 0x577dd726dbf1f0283e38b8b01b43470d2c996f0f94720ce24ee7387503e78427int, t: 0x6a54eefe87bb1b5f5a053711096ed2448f9728e431cc6df207aacf8a752e5e3bint, z: 0x37d9a677cff4d9c9ccc32ca94c8e7f1dfb529c14cad16ebf5bb98b51c71a6c0int },
        0x73eda753299d7d483339d80809a1d8053341049enat,
        DoubleWitness {
            xx: (0xf60dc2d6e716cf54ad57c9971fef7c4a05e247341998ad2f09935352d2fd70dint, 0x1b00a7f633e21ecf5cb9de79f39dde54e67acff44ee0ea26a72d60d8eb4d611cint),
            a: (-1, 0x58ecff5cf5bb5e78d67ff98e1603f9b06d42d40eb11d71d858d29f2614b29ee5int),
            b: (0x4207bcb6971990f4fc73e411d0fe0f1474658ada8c5377273d974b626c6d6bc0int, 0x55d7f1f7427ff0a39aa03431c876c6c7a514461a445ec4614cb73a7c402cd231int),
            zz: (0x1ae81af4e4d4229e6bc8301d1d008d079cc1b7b9de2c135ec2a9232797e162int, 0x69ef8a5f526ed5fc80bf861b51b480ab547a47943732f40f173812ad7a85ae9eint),
            c: (1, 0x5ff16d6b7b402eb0ce45342e99c729515536eb256e678c1f2e70255bf50b5d3bint),
            dif: (0, 0x3150d65b33b6dd53bdfc55c4d8d32e8c82e8df46cbead770c1b64a9d485ccb4int),
            xy: (0x1fddac9648594a70288384617b2b742e1baab5468d70623b3221f6a5db3d71a7int, 0x5468076ec983754c3a83d0e9f36775b4788f8c47408fcff5fa67bd897043bf94int),
            e: (1, 0x34e2678a69696d5041cdc9cbdd2d13639d61748b812143ecf4cf7b13e0877f27int),
            g: (1, 0x3ad74a010e9dd1d43de655b7d4d8e872be997625f57dda3aa589d9a354df7115int),
            f: (-1, 0x4ed383e8bcfb206ba2daf99144b39726bd202f038714aa1a7719b4465fd413dbint),
            x3: (0x23f586e4a78f3d25cbb7b6ee1f9c84ff330e6e79c6d6e0628bd842c8ef2e06e5int, 0x73b5242465510ef5fc155f693a5d7872de00cbb5b3e6e445ba01f0d5f877a478int),
            y3: (0x1907e7966bd619032abd882197ca17f6901549a4e382657fe9c6cea0bab4ae7int, 0x41ca76340a11cde28bdf96140436f77ccc877d7894fc8c13d873090ed375f3ddint),
            t3: (0x167f3879077877b82c969d1570d85ae3e16c4319cf185cc93edc8bc356a40ceint, 0x6cd89d1c06b15895c9741dd76e89d91255516924a69a955be4f1e167fe713a9eint),
            z3: (0x280261d9ccc8be7bb42b4c3269d661db779746d465a490d5dcd212d9e36cde27int, 0xe3d2ecbcfbcd040b77458ed5afbb91815947fc3137a9466d518fd11bd816dd0int),
        },
    );
    lemma_chain_add(
        base(),
        ExtendedPoint { x: 0x73b5242465510ef5fc155f693a5d7872de00cbb5b3e6e445ba01f0d5f877a478int, y: 0x41ca76340a11cde28bdf96140436f77ccc877d7894fc8c13d873090ed375f3ddint, t: 0x6cd89d1c06b15895c9741dd76e89d91255516924a69a955be4f1e167fe713a9eint, z: 0xe3d2ecbcfbcd040b77458ed5afbb91815947fc3137a9466d518fd11bd816dd0int },
        0xe7db4ea6533afa906673b0101343b00a6682093cnat,
        SumWitness {
            a: (0x9225edf52cb54c4a1389b926acbc8b906639066388dbf8ba59028c422180007int, 0x6425c7dc8bf41beda9a59bd35669ac45cfbff71eac4f4dd003f6837e2d49ae1int),
            b: (0x31bb074435e200445e05cfa514b40ae62af158c6582233869c1820c34b3a5391int, 0x5c3e5c3846febafba1153b4fb0f8617a5803320479847c494f2090e20938a6dfint),
            dt: (0x27f94278f4ef29c82b82fc2f8b95e3ce103c05245b950961a4526e5a42f8a9bbint, 0x68322a1eae72002eac1f4f78c0bea4d6bc630660340119eeeb683bfb119b2183int),
            c: (0x4c99c96c590ea5269dfc04aaeaab6c548888cc86d8df90579b2a2e169cf3c3eint, 0x579216754a693ace3881af35c6fa1bd934e60b0e6c9cecc69441fefcac8d96dint),
            zz: (0, 0xe3d2ecbcfbcd040b77458ed5afbb91815947fc3137a9466d518fd11bd816dd0int),
            h: (0, 0x6280b8b60fbdfcba7baf950ce65efc3eb4ff3176644971264f5ff919ec0d41c0int),
            s0: (1, 0x4191f30545c55f9054bb1d7534f297ea56caa52b48e5145a9274f9e5cbed9854int),
            s1: (0, 0x60c7d6918e437d8827d3dfcfe8923870431f0f21be6a05e37815793fb5885c83int),
            ss: (0x36bd702a3bf2e7c54df2244e81ca9046168c4957fb609034caa947cef80cbbf6int, 0x2290ba4cef4502d3ac25939e5608a14e909f2a7094b172b0bfad6da015e66706int),
            e: (-1, 0x33fda8ea0924836163afd699794b7d152f5d9cfd30665d89704d748529d92547int),
            f: (0, 0x8c40d647b163c93d3ec3df9fe8c175a82461f122cb0c59a6bd4dd21f2b89463int),
            g: (0, 0x13b65033246363ed9afc73e0b76b5ad5a8e2e073fa4463333e5d1d01884a473dint),
            x3: (0x3ee663f618c3b6ade92b55f3b9014349caf3a9f901e1f7162b3e22978034659int, 0x446d082c1cecdbbfbb0dc28cef00d915eef6923b5016125e51dde257298b301cint),
            y3: (0x10bfc9a3a296a17ba62a7b0eb425d9173f939b105f212bed09ec257a84b041b8int, 0x3bf53cade1ad1e74ef95027a5be081ad3b116501c0abd85298ddf0656934a908int),
            t3: (0x2c2d0c14f7efea210718789da7a2095933ad1a58d3157efe487564cef9f7810eint, 0x3de8cefd184feda8a1a97a0626f5332e4cb8b9cd4d43d7254d565111e3f67b32int),
            z3: (0x17d92af68ae3ec8e83607e13e2bbcef5108ef71234e532f9aae3c5732394b85int, 0x4655ed4ce99b7d8863e70cd6d4b3d3dad2710c7769cc02ba04d92e2851878512int),
        },
    );
    lemma_chain_double(
        base(),
        ExtendedPoint { x: 0x446d082c1cecdbbfbb0dc28cef00d915eef6923b5016125e51dde257298b301cint, y: 0x3bf53cade1ad1e74ef95027a5be081ad3b116501c0abd85298ddf0656934a908int, t: 0x3de8cefd184feda8a1a97a0626f5332e4cb8b9cd4d43d7254d565111e3f67b32int, z: 0x4655ed4ce99b7d8863e70cd6d4b3d3dad2710c7769cc02ba04d92e2851878512int },
        0xe7db4ea6533afa906673b0101343b00a6682093dnat,
        DoubleWitness {
            xx: (0x28634ee648f0c93489416345329e369902d194c7dcd4d9fad9d016c3c070c776int, 0x529488f9d7f0b3d5966ffbcf4f4ee7ac50b37799595ab298b342b4d07f01bb9aint),
            a: (-1, 0x21591e5951acc9729cc9dc38ba52f059030a2c69a6a3a9664cbd4b2e80fe4467int),
            b: (0x1f029a16194ca76a996ea12f3fdccbf7760c8407818e43dce501b1e358a8e65cint, 0xe42bfba97d5072ef063d5214f55993a2c27687147798896b72fd2465232a9e4int),
            zz: (0x2aac7ef3f109a9c9982b840b2c2efe81a1fc713dc8a73a2e8bf700cc9fc0045bint, 0x62128294e71f22fcd3ced344936282d5eb9dde31651fb4af84701b216267b0e9int),
            c: (1, 0x50375dd6a4a0c8b17463ce811d232da6837e185fca410d6008e03643c4cf61d1int),
            dif: (0, 0x13165e9eb9d7c243ac6607176afd571ed6e2c3f85f2a20cf958d78e82ecb9a83int),
            xy: (0x2363c837cff411002a45130fed29e105591fb6c88daa6d9f6a4c80e9c2e605b2int, 0x152448536c0cf6358d7fa3f92d368b38b87d3032d6f428e924e2e3fbade5f72eint),
            e: (0, 0x2a4890a6d819ec6b1aff47f25a6d167170fa6065ade851d249c5c7f75bcbee5cint),
            g: (0, 0x2f9bde13e981d0a18d2db15a09a889932f3194daee1d31fd03ed1d74d330ee4bint),
            f: (-1, 0x535227906e7e85384c03bae0f62733f1ff71207e23da809bfb0ce7300e618c7bint),
            x3: (0x1e63ea6fdbe803191b469b2ffd5561fcf0c3633e83aedd30e70011fa8b9769b1int, 0x23217b673dcce2473b287ef1640a2b57469794dac1825bea265a56516e9a6c83int),
            y3: (0x7d6b598acdca946a3637d3824e2ac9f6462bae445c88a179dc06fd4bfc89a76int, 0x54fcefec72a57e7e0d0581fa26cc6e6fb61e188d7520e9825c06e30b311373ebint),
            t3: (0x6f63e8321024763363942f7ba31b6d3492526ceedaf09e42717755847152289int, 0x40dc15a3267b9a09aef8bb90892e619dac2ef5033ab063627b5960e7ea9d2e8bint),
            z3: (0x2237c2565ac849ea3ea13e08b0fe8e1175f1de902159b6576b9255d6b76f4451int, 0x3babe29dcb82e09d810c8176d3da03b98f0e9c49d56836cbdc6d06bce7cf3db8int),
        },
    );
    lemma_chain_double(
        base(),
        ExtendedPoint { x: 0x23217b673dcce2473b287ef1640a2b57469794dac1825bea265a56516e9a6c83int, y: 0x54fcefec72a57e7e0d0581fa26cc6e6fb61e188d7520e9825c06e30b311373ebint, t: 0x40dc15a3267b9a09aef8bb90892e619dac2ef5033ab063627b5960e7ea9d2e8bint, z: 0x3babe29dcb82e09d810c8176d3da03b98f0e9c49d56836cbdc6d06bce7cf3db8int },
        0x1cfb69d4ca675f520cce7602026876014cd04127anat,
        DoubleWitness {
            xx: (0xaa55fdcce5b8df3d31d86652120b03b79cea09986d6078f32e6a8a66673fefaint, 0x137f1cc8df8672f093afaed7b6f97c1f401701551288b68f521317a0e926cc0fint),
            a: (-1, 0x606e8a8a4a170a579f8a293052a85be613a6a2aded75a56fadece85e16d933f2int),
            b: (0x3e4e31863b17551e237fd0e740a99939ba0fc4a7dc6ee4937d2214c2eef5e3edint, 0x2851dddc0c8aac81bd40509991dd0bb93cf63cb57c468a88897efb36706915ccint),
            zz: (0x1eb6e8871d43a04fa00f7df25f16fe9e002d8c310a498f7b7f42116721522326int, 0x3ef69a38b94044f9ac111ae45a4c1a71e2b3215729a17db371ef0125cd1f111aint),
            c: (1, 0x9ff8d1e48e30cab24e85dc0aaf65cde71a89eab53449f67e3de024c9a3e2233int),
            dif: (0, 0x381cacae3d8c5dd5e249d896c0cb502cd6b065f8712f1ae7246ded27a6701e26int),
            xy: (0x19c1327eb15446a8fceb7b560fe578bbf07a03782b4550b55672f143a0095cf1int, 0x33190490097812b7aee6e2283cfdffaa7ce646852e016a9b5f6dd3f967301850int),
            e: (0, 0x6632092012f0256f5dcdc45079fbff54f9cc8d0a5c02d536bedba7f2ce6030a0int),
            g: (1, 0x14d2c1132d0439912990a1c1dae38f99fcdf3b6069bdd3f9376be395874249bdint),
            f: (0, 0xad333f4e4212ce604a844012fed32bb8b369cb516793491538de148ed04278aint),
            x3: (0x98aed0bd92a96317a08d385fd58df34553adfa874583dac3d3fcb3971182d5eint, 0x639860e4569358543adfbdd7ebe18b3a08c5e08310011877339b7bfd58aa68e2int),
            y3: (0xa143581529759f3efb7b9192ffbc04ef62a1277aaf64137e83c89fcafc36064int, 0x59457f9f422b575437a7a62f1cd330f21753fad2befc588f202c820ef967b7aaint),
            t3: (0x3177089f231e7e1ceb3e697d920774d081736accd683f0346cfdd8c9a3972c3fint, 0x3f4d262d95efa15f296fc2573488ea9a8f74a603a43c558ae6bae7ac4a62cb81int),
            z3: (0x1f1c4bde46e199f25d8f1623bb44f5583fa5abec6e27e8c962d8cd6b69c634cint, 0x637bb2e28adb74bf18a317151ff39738de9b901d7612b0279e5ea2206c4f2796int),
        },
    );
    lemma_chain_subtract(
        base(),
        negative_base(),
        ExtendedPoint { x: 0x639860e4569358543adfbdd7ebe18b3a08c5e08310011877339b7bfd58aa68e2int, y: 0x59457f9f422b575437a7a62f1cd330f21753fad2befc588f202c820ef967b7aaint, t: 0x3f4d262d95efa15f296fc2573488ea9a8f74a603a43c558ae6bae7ac4a62cb81int, z: 0x637bb2e28adb74bf18a317151ff39738de9b901d7612b0279e5ea2206c4f2796int },
        0x39f6d3a994cebea4199cec0404d0ec0299a0824f4nat,
        SumWitness {
            a: (0x5bbba0a25d208a5a286d4e1755e23e7854d2098805e62b795dc89ec0049ac434int, 0x1ff1aa773404637ce762acbcd5ce31d0e28c62b2636f74073010e0688ada3568int),
            b: (0x437ab42f07dd01522cbdc333cbc06ea37c303516c0061749e233c879319f7ca8int, 0x67083eb42e513b360c247c47c30f18098be26a51845541d21391a33869622538int),
            dt: (0x173f545d2f108fa162c2674b18caf7b139b56023e24c9a34161771f434b737cfint, 0x52b5dfe1ea9552f25b06f93de3401b231231e9927f719cfe1d445d035314ba62int),
            c: (0x4ee8fccf9d2f42359ba2a568e50786e9aaa9a719fafe3f66a31d6a7a8ae919a8int, 0x6ebe5e9b5a383858686c234e785eb087667222304fb5cbc0d8278b1407d29be8int),
            zz: (0, 0x637bb2e28adb74bf18a317151ff39738de9b901d7612b0279e5ea2206c4f2796int),
            h: (1, 0x130c41d838b8216ac04d50fc8f3b71d51ab12900e7c659da43a283a1f43c5a9fint),
            s0: (1, 0x48f039306f2132603f4d8bfeff12e426cc5c3752ceff150753c7fe0d5212208bint),
            s1: (1, 0x4e7a2cab4d8fef627fa28fd19ba7c19a97abbf79df4db594e896ec1ba05d0dddint),
            ss: (0x31601727f2c7d5e225a64df6e65142ef9f6f34a5589c854bab9df038aef0fcacint, 0x3a419a65d24d7c5d4e3cbed149b3809920cda5483903b26845dc2b3c8db2a53int),
            e: (-1, 0x64857f214e0a33a347d052f88f019e39cb1955569bc83d4b40bb3f10d49ecfb5int),
            f: (-1, 0x68aafb9a5a40b9aee370cbceb136beb6cbe711f0265b4065c637170b647c8bafint),
            g: (1, 0x5e4c6a2abb762fcf4dd5625b8eb06fbaf1500e4ac5ca1fe976862d357421c37dint),
            x3: (0x5ac1eeb558fc9bd05695c006530a0fd815c4e34b44a278d40ed9bff2da94dcafint, 0x292da1b3bc75d8d04ff129c5aa6435cfce4d3896a1746fbadb8d9286086e670cint),
            y3: (0xf7e72b32c93d2c0878d3ada073c90eb466015d8a10e3c2ca2476597f6f9a353int, 0x5f809e6aeb0078ff7b0c6f5337316ead9da4fe87dbba92f865836b9bfe04b950int),
            t3: (0x108434010fc674551174fa22ebdd9b74d53c22fb7b9213848ebcc39f13afb1b1int, 0x3f28401b1c7c43ef6360c2baa42ad058ac7b5a3eba6620aa2bb8774c0264f1baint),
            z3: (0x552397469a84faea34c35d89c8a5c4a782ad8e5ac3108527ea488891def4360bint, 0x677b8e68c5c85296d3cf91b77aaf143e3a60eab4cc79db8e5010ad285dd14b68int),
        },
    );
}

/// The multiples of the base point, from the multiple by
/// 0x39f6d3a994cebea4199cec0404d0ec0299a0824f3
/// to the multiple by
/// 0x73eda753299d7d483339d80809a1d8053341049e664.
proof fn lemma_order_part_19()
    requires
        extended_valid(base()),
        extended_valid(ExtendedPoint { x: 0x292da1b3bc75d8d04ff129c5aa6435cfce4d3896a1746fbadb8d9286086e670cint, y: 0x5f809e6aeb0078ff7b0c6f5337316ead9da4fe87dbba92f865836b9bfe04b950int, t: 0x3f28401b1c7c43ef6360c2baa42ad058ac7b5a3eba6620aa2bb8774c0264f1baint, z: 0x677b8e68c5c85296d3cf91b77aaf143e3a60eab4cc79db8e5010ad285dd14b68int }),
        same_point(ExtendedPoint { x: 0x292da1b3bc75d8d04ff129c5aa6435cfce4d3896a1746fbadb8d9286086e670cint, y: 0x5f809e6aeb0078ff7b0c6f5337316ead9da4fe87dbba92f865836b9bfe04b950int, t: 0x3f28401b1c7c43ef6360c2baa42ad058ac7b5a3eba6620aa2bb8774c0264f1baint, z: 0x677b8e68c5c85296d3cf91b77aaf143e3a60eab4cc79db8e5010ad285dd14b68int }, times(base(), 0x39f6d3a994cebea4199cec0404d0ec0299a0824f3nat)),
    ensures
        extended_valid(ExtendedPoint { x: 0x23eac3377403daa811e7ec92c82b7cfe73c90eb8b0bae33c0ea95cb5466b5756int, y: 0x11428f7d3b06042c8988fd06be01c211c1a26e68419c7e92518d2c5d141428ceint, t: 0x11b566fd98f611f37e0087fe7697f685393cf90f512b1d08f38ff09098d26ce2int, z: 0x6465a85bbbc69d07a6e11dc77e9da79e983ca0863e5d0dbae4ebc73c110334c9int }),
        same_point(ExtendedPoint { x: 0x23eac3377403daa811e7ec92c82b7cfe73c90eb8b0bae33c0ea95cb5466b5756int, y: 0x11428f7d3b06042c8988fd06be01c211c1a26e68419c7e92518d2c5d141428ceint, t: 0x11b566fd98f611f37e0087fe7697f685393cf90f512b1d08f38ff09098d26ce2int, z: 0x6465a85bbbc69d07a6e11dc77e9da79e983ca0863e5d0dbae4ebc73c110334c9int }, times(base(), 0x73eda753299d7d483339d80809a1d8053341049e664nat)),
{
    lemma_negative_base();
    lemma_chain_double(
        base(),
        ExtendedPoint { x: 0x292da1b3bc75d8d04ff129c5aa6435cfce4d3896a1746fbadb8d9286086e670cint, y: 0x5f809e6aeb0078ff7b0c6f5337316ead9da4fe87dbba92f865836b9bfe04b950int, t: 0x3f28401b1c7c43ef6360c2baa42ad058ac7b5a3eba6620aa2bb8774c0264f1baint, z: 0x677b8e68c5c85296d3cf91b77aaf143e3a60eab4cc79db8e5010ad285dd14b68int },
        0x39f6d3a994cebea4199cec0404d0ec0299a0824f3nat,
        DoubleWitness {
            xx: (0xea06ef42e70afe39f8d2b1361e324bae7e7a7d3a30f8fdb96b46aed6fede86bint, 0x620b8c41ec8affcac8d96020eae7b66eb771ca213b7bcaa3a5d6241b07dcc025int),
            a: (-1, 0x11e21b113d127d7d6a6077e71eba21969c4bd9e1c482915b5a29dbe3f8233fdcint),
            b: (0x4eace90fa923b8003d6496c235d14a85af3de6a2838fff1854c1fc03e5b9dbfeint, 0x2a52043d26514068c69501efb348be80bc06f60abdf0545de18686ab2aeadd02int),
            zz: (0x5c5f82136fcd2fbe1490b0d7a4cbb7c6f6e55cdea4056ab366a290baac565374int, 0x2834c1381d2833d0234f46810f61b727f1bf97d3982f7f5006679f1f19afc6ccint),
            c: (0, 0x506982703a5067a0469e8d021ec36e4fe37f2fa7305efea00ccf3e3e335f8d98int),
            dif: (-1, 0x5b7dbe27405eba5cd7054dff75133b1b340287da069098fc78a35537cd3862dbint),
            xy: (0x21ec4178906330d32306389717d6ddc738ea45513e4b8cb5bbe94d073b8b61dfint, 0xe23f223b59dbe12428a0ac224a28e90cf2a2f6d5eee1e496846cf0db39c7de1int),
            e: (0, 0x1c47e4476b3b7c248514158449451d219e545edabddc3c92d08d9e1b6738fbc2int),
            g: (0, 0x3c341f4e6363bde630f579d6d202e0175852cfec8272e5b93bb0628f230e1cdeint),
            f: (-1, 0x5fb8443152b0d38e1d90c4dcbce149ccc8914448521243182ee1244fefae8f47int),
            x3: (0x1759d6c88c26c0e17fa167e756eb5ecc841bb815ad022fa2d050aacd2eb5778eint, 0x93db1ffa6b575c995a4fd7034cf40ccf59e78978c02ac475c7a49a68295b940int),
            y3: (0x2f8351a128739c379346145ceb20413b70e655137b23f8f99813a855f5223fcaint, 0x2fd10c998ee8ac3dca9fc926399fb6cbc9125fe4fd5ef068ca079538858d6e20int),
            t3: (0x1651c19fa0d81edc6cd51c43acb3cc4b189b5810385e6a68e3cd980bbe5de526int, 0x68146fff2ae2f6c73027dd9bb9b37f70ae059c3ff3eafa3a573fc2cecc31bdd0int),
            z3: (0x31b57e01dca3c22a8aecd0bd366affdc39afa2e9ee94f91be5a2d113577872e7int, 0x6da949b297740db094e79bf08cc3a7be3aed22a809bb65fd365b0d28247590abint),
        },
    );
    lemma_chain_double(
        base(),
        ExtendedPoint { x: 0x93db1ffa6b575c995a4fd7034cf40ccf59e78978c02ac475c7a49a68295b940int, y: 0x2fd10c998ee8ac3dca9fc926399fb6cbc9125fe4fd5ef068ca079538858d6e20int, t: 0x68146fff2ae2f6c73027dd9bb9b37f70ae059c3ff3eafa3a573fc2cecc31bdd0int, z: 0x6da949b297740db094e79bf08cc3a7be3aed22a809bb65fd365b0d28247590abint },
        0x73eda753299d7d483339d80809a1d8053341049e6nat,
        DoubleWitness {
            xx: (0xbc93a34888f90782a5179aaeed3955a8230ebc8950461074364148be60e833int, 0x81f4299a8b55d2f909b31721f705d5cace37bff20f5c78cdb99cda06c2ca7cdint),
            a: (-1, 0x6bce64b980e82018a29ea695ea317aa8a6da2803df0894722466325e93d35834int),
            b: (0x13b90703073dea9a283e9fcd63ecd9f5180b02cc8f45f8108a73a872605ee197int, 0x1574b10359c89566a0b0626482dd116b39f49ba189631f70b168e9b45e40a269int),
            zz: (0x67bba759fd54161490c06ee452960800eba008453b361a3626c7425162b24e30int, 0x2968d91f12935e2018c7d2fadfb378b680003c08557bb4e5941ce5fc435c8409int),
            c: (0, 0x52d1b23e2526bc40318fa5f5bf66f16d00007810aaf769cb2839cbf886b90812int),
            dif: (0, 0x5659b3b6271f8ab201ee44316754693d6ce58c6255a5750172fd48aa3592b5cbint),
            xy: (0x3cfc55dee33313622d1d194d9eadec9558a2ec30ebd95dcaa11bc787c06f1a6int, 0x3085f20419d5d496435f0728b94474e2772a403496ba193a45c471cf7489b65aint),
            e: (0, 0x610be40833aba92c86be0e517288e9c4ee5480692d7432748b88e39ee9136cb4int),
            g: (1, 0xd556e69b1133837101530f2636cb40e8d111fa2686d57e3d5cf1c13f213fa9cint),
            f: (-1, 0x2e71637eb589f93f11bf6304ada79aa6e0ce4b94bd744a17ad95501a6b5af28bint),
            x3: (0x26e0e601151ac0c1c3d20951c74a3abbd4112f47972fcc3f720db32bb83ee56dint, 0x2487375e6fe9743a98c9446c2d75ef22eefa66dc425bd2b588af5b69a557484fint),
            y3: (0x9ee876ce1173f421b59b5ef23c676eea0c442c2c63a64c0bacebae3aa592debint, 0x3974a834438cd4d0412eee4a9bd7832babf181ea9a6a541a920a4edfa4a6d7c9int),
            t3: (0x4849397eb5b9e9b8cf34516695e3734fe751d45e783f224698c870e5bdb25689int, 0x47dd541fe9fe23da50fe6a0c6efb883635656f9f0ce845cf1da4818e13382033int),
            z3: (0x5577aff51ff81473bf24f7d8ac8331902144ae1b78bb459b68ab80fa60f67a9int, 0x5b6c24e00aebd2b412bab3a94267be3f0b3949919ef99b6b21d971e1fc89230bint),
        },
    );
    lemma_chain_add(
        base(),
        ExtendedPoint { x: 0x2487375e6fe9743a98c9446c2d75ef22eefa66dc425bd2b588af5b69a557484fint, y: 0x3974a834438cd4d0412eee4a9bd7832babf181ea9a6a541a920a4edfa4a6d7c9int, t: 0x47dd541fe9fe23da50fe6a0c6efb883635656f9f0ce845cf1da4818e13382033int, z: 0x5b6c24e00aebd2b412bab3a94267be3f0b3949919ef99b6b21d971e1fc89230bint },
        0xe7db4ea6533afa906673b0101343b00a6682093ccnat,
        SumWitness {
            a: (0x2e235a4d2183719034c3f00613c33aae9bafde7304e4d6c3c30e902c78f569cint, 0x2558a1a1550ebf360db61a7a6b049ac7a34842893adbf9869b4b7763efe3a401int),
            b: (0x2b6e1bfaeb9c62183dedb8a7fbc5044b46a82d2b4a99a7de8d65562663114e73int, 0xefbf6af9c1c78cf7f066e15aec754e24622e87fbe32ad7f9c8a677de8ca443dint),
            dt: (0x1a6467e99fad2cc9f08ca0fbfdf6628b3f149a9b53a1eb644f8df4ef48a07936int, 0x209d6bc504c367fffaf99e89d8da3c8ce0fad4f3a12bd1c23d2d2a1cc556240dint),
            c: (0x17fa29af5f7c883b0fd22a6c7157e1b61b4b4a0016c2fe9d02107230dc55983int, 0x650c5380fadf2b8c476688f36da4e2593ad970d96155d2a8fb01905f398975e2int),
            zz: (0, 0x5b6c24e00aebd2b412bab3a94267be3f0b3949919ef99b6b21d971e1fc89230bint),
            h: (0, 0x34549850f12b38058cbc889019cbefa9e96b2b08f90ea70637d5dee1d8ade83eint),
            s0: (0, 0x5dfbdf92b376490ad9f832b6c94d724e9aebe8c6dcc626d01ab9aa4949fe2018int),
            s1: (0, 0x60c7d6918e437d8827d3dfcfe8923870431f0f21be6a05e37815793fb5885c83int),
            ss: (0x4e75f04710e682e04f0bf4a7ef0c40b7a19c07ee64430b3797a87cb142ddb6ecint, 0x4ae94d4caccd6869c09b0339821e860a42744f317bf120b48e56edecf275555cint),
            e: (0, 0x1694b4fbbba2306433de7aa9685296605909242882e279ae56810f0b19c76d1eint),
            f: (-1, 0x6a4d78b239aa246ffe8e02bdde64b3eb241d7cbb3da224c126d7e181c2ffad2aint),
            g: (1, 0x4c8ad10ddc2d80f826e76494a66ac892f2551668005112151cdb0242361298ecint),
            x3: (0x14b4b9cdd3801f38c669b1c068293dfb251ac4f17c9d715536a7ccf3fa1e6885int, 0x4d22fd3e2c1e7f1764c3702d05a470f4537f3a46a50c9b4edfcbc437238c467int),
            y3: (0x228d2aebee5e22a5256341e73908d6e0e57157dfa741768ade736ee65a342f06int, 0x4e6f576121e4e5a0519f2f156718254fef5940756fb97eee86982e105eba22int),
            t3: (0xa316e575c1afbac61f31b1b8f49316599b67facbedc98f22fa58d4b62149f67int, 0x670a3a19299dff4e6b54aaf49ab1c28225d3bd529f0ea5767870615ca460fdddint),
            z3: (0x462fd4083194dc9df5a9fdeaa2f659fee26a7d8cdc9c628346f36ab4d844d71eint, 0x1a83fade2349d357eec92cca7b6d45a054bf124130cd0444c8aef925c333bb9aint),
        },
    );
    lemma_chain_double(
        base(),
        ExtendedPoint { x: 0x4d22fd3e2c1e7f1764c3702d05a470f4537f3a46a50c9b4edfcbc437238c467int, y: 0x4e6f576121e4e5a0519f2f156718254fef5940756fb97eee86982e105eba22int, t: 0x670a3a19299dff4e6b54aaf49ab1c28225d3bd529f0ea5767870615ca460fdddint, z: 0x1a83fade2349d357eec92cca7b6d45a054bf124130cd0444c8aef925c333bb9aint },
        0xe7db4ea6533afa906673b0101343b00a6682093cdnat,
        DoubleWitness {
            xx: (0x33534cb5afcee5cde9d9db20bb71573ec1e708c9ff52a44d63be50834260e7int, 0x5f6c7cbc9d6a1fc25661878e96120b61f2574cf5cef8d45cf3cb5402bc7b808aint),
            a: (-1, 0x14812a968c335d85dcd85079738fcca36166570d310587a20c34abfc43847f77int),
            b: (0x35114dd6cc7183b72707c2aac705c81c2db868fa23cfc2f262a1e8f92fe5int, 0x9a53ed22ea2b510991578e6a7277ab8eed31f45ea65812b99be0bcc8f543c9fint),
            zz: (0x610923d9438d8a81419750e9bdfa6216a098f7f009000a2acc7e2bc03e53689int, 0x2963d6ad2825c91587d006d36037ab09eab6bd1ce6630132a132fc91e0f1221bint),
            c: (0, 0x52c7ad5a504b922b0fa00da6c06f5613d56d7a39ccc602654265f923c1e24436int),
            dif: (0, 0xadbebc45d90a87543c2d792cc6851ea729337c746a006767276a02fb43042d8int),
            xy: (0x343070de4c63b66e5e5c4216c51874bf0d134b34b2802c9c5e7c2f74ccb2dint, 0x38aaebf6d542307245e1c18e2c233ddc4e4ecb1dc7ed56608c82d4fd00c22081int),
            e: (0, 0x7155d7edaa8460e48bc3831c58467bb89c9d963b8fdaacc11905a9fa01844102int),
            g: (0, 0x1e266968bad6129675edc9601ab7475c503976531b6b08cda5f2b7c8d2d8bc16int),
            f: (-1, 0x3f4c63619427fdb3998793c163e9c94dce89a01c4ea36267638cbea410f677e1int),
            x3: (0x3de1f06ce376f54eadd41a97561fc3a0cb112a6a107029690ebde6581e2a078aint, 0x5f9e9492a4d504e895473cc0c53a2ab3c01f2cde55ea817119d0971049370938int),
            y3: (0x2d2fcd15a1beae63170575525de59a084590a931e9ec8431b1cef498b42718bint, 0x21c1286a4ed4b4f9beb613770f35a9970064bcf5a8cd090c5bb68efbf839ed05int),
            t3: (0xa9dbdd4eae56cb42f875a358e5ec5191ef088b3a67af1ab4252436b9fc57e4cint, 0x53abea82db96a549bec5a3bca226041e129aa916f395c8ae62d3901558f3df64int),
            z3: (0x10765aa49a3531c9d5b92e74c08c7dfebe7beb05cdc6e8ed9029062fcbb69ae9int, 0x10affda2e56550558b4c01f8b24ff0e3e22e54b730ddf5085df0705b6158ee6dint),
        },
    );
    lemma_chain_double(
        base(),
        ExtendedPoint { x: 0x5f9e9492a4d504e895473cc0c53a2ab3c01f2cde55ea817119d0971049370938int, y: 0x21c1286a4ed4b4f9beb613770f35a9970064bcf5a8cd090c5bb68efbf839ed05int, t: 0x53abea82db96a549bec5a3bca226041e129aa916f395c8ae62d3901558f3df64int, z: 0x10affda2e56550558b4c01f8b24ff0e3e22e54b730ddf5085df0705b6158ee6dint },
        0x1cfb69d4ca675f520cce7602026876014cd041279anat,
        DoubleWitness {
            xx: (0x4ede4e3d355ee1503c38216a527a78e02df9f6071dbfcf0de4ea6ebfc2bd7c92int, 0x312a5dfaa1353a2606ef192cff1929259a24b50c90702857f184b3e923a77faeint),
            a: (-1, 0x42c34958886843222c4abedb0a88aedfb998eef66f8e33a70e7b4c15dc588053int),
            b: (0x9d4057591431bb25b93c2ad98150d7af94c8b9b256fcfb3c34695b7d2a42254int, 0x511f7d53e952cf3e2b58670f50c9b3452f623ac1fb81eb0f95b228bf45081fc5int),
            zz: (0x266f0069c4da012422a3ec6492ef5b93f05f583843c3e7fe797869f260e47a9int, 0x30f0cce9bf2b9bea451fb6faca2f0608a271255a0e79965ea7b4261b3cf092c0int),
            c: (0, 0x61e199d37e5737d48a3f6df5945e0c1144e24ab41cf32cbd4f684c3679e12580int),
            dif: (-1, 0x65917357c8b2f12c342c2fd3c360d39fddf45837740aa49678c923559750608fint),
            xy: (0x1bd75bc81e5b0c48ef70ceef2a4f4bae15cdf8cc426086f44101769a19bfe726int, 0x5170d1ad3ef46325e483f404e27b237b70764d4eccdf664ca51c2fbc95541ef2int),
            e: (1, 0x2ef3fc07544b490395ce1001bb546ef18d2ef69a99c0709a4a385f7a2aa83de3int),
            g: (1, 0x1ff51f59481d951824694de251b08a1f953d85b56b11c2b7a42d74d62160a017int),
            f: (-1, 0x32012cd8f363da8bcd63b7f4c6f45613a418df044e1cf1f954c5289ea77f7a98int),
            x3: (0x1440b4e506b1980717707bc10c1b9792845c859e521399f324669d691dfc1e9aint, 0x572ed38476ff074d6593250e53f2ed17ebdbc57110d8b5ecb12dfdfe2c03ce2eint),
            y3: (0x1bffb7ccc2dd359e7f3c9e12565351d03ba7c8fcf0b66c5214d9267fd5d5813cint, 0x5b7484bb8570a228ac249c04c5ad8dddd02e37d3dd1286ba17d2a41fa35c8b9dint),
            t3: (0x29230e5675c382e4b3c35feecde2b7a169d0b482620844a801fa7f5054137d6cint, 0xdabad79435a131bfcafd6dbda157f2653c51763ce498d89fa4849cbd30c3461int),
            z3: (0xdc8d98bf545ffa85be3d317c345fa6255b5e043d6e23ace77aa3bce13e6faa8int, 0x1c900620f1006ee91bb83c48f10450240939a651a2b62954d7422776362c0900int),
        },
    );
    lemma_chain_subtract(
        base(),
        negative_base(),
        ExtendedPoint { x: 0x572ed38476ff074d6593250e53f2ed17ebdbc57110d8b5ecb12dfdfe2c03ce2eint, y: 0x5b7484bb8570a228ac249c04c5ad8dddd02e37d3dd1286ba17d2a41fa35c8b9dint, t: 0xdabad79435a131bfcafd6dbda157f2653c51763ce498d89fa4849cbd30c3461int, z: 0x1c900620f1006ee91bb83c48f10450240939a651a2b62954d7422776362c0900int },
        0x39f6d3a994cebea4199cec0404d0ec0299a0824f34nat,
        SumWitness {
            a: (0x504ceb67374b25e7330d87043e244a454f54f5b5548dafd9ea1eea99fc901554int, 0x24d845e399ec5c3acb7361307e38f53a67d761c7b90d69cba77b43eaa1f1ddf0int),
            b: (0x452142c255b2db5851bc0ebc9e305567f936e3b8c528baf8406dab2fcb469f1eint, 0x2efbd784951db728e57b4315207ca107fe327f8990856607e852fda881338f52int),
            dt: (0x505410ed63100d7eee282d3a0aeeda6e92508fd684e5b73840fe61b55819eb2int, 0x33291527be743820aa256200cb15511b9fd94c94a85152544e08f5fa4452165fint),
            c: (0x30cf4ddf37f1e165b7207660c6a6bf42e9ad48eb4239210da2e296bf15b7c6afint, 0x5c5e71e361d346dd74fa1f34eb0cc1c187654a88624cf3d60e4cf310959faf09int),
            zz: (0, 0x1c900620f1006ee91bb83c48f10450240939a651a2b62954d7422776362c0900int),
            h: (0, 0x53d41d682f0a1363b0eea4459eb596426609e1514992cfd38fce419323256d42int),
            s0: (1, 0x3eb5b0ecd2d22c2dde7de90b0ffea2f0684c5941edece0a7c900a21ecf6059caint),
            s1: (1, 0x4e7a2cab4d8fef627fa28fd19ba7c19a97abbf79df4db594e896ec1ba05d0dddint),
            ss: (0x2a737c29626dc55c35293cf4f9ebfbde031cc44397716887a0bcfff826d876ffint, 0x4ee8369d9559d9a87cbc8214ad42ee289d0194d4e84d5a1398fc3a94a2464e63int),
            e: (-1, 0x6f01c0888fed438cff07b5d7182f2feb8ab557869eb8e63f092df9007f20e122int),
            f: (-1, 0x341f3b90b8caa553d9f7f51c0f996667d591ffcc4067917dc8f53464a08c59f8int),
            g: (1, 0x500d0b12936387e5d788375d26f39e03ce14cd70504c12be58f1a87cbcbb808int),
            x3: (0x31e8c6303dba41f5d6fde9b8b9331bd82815c65aa24492d564634551969fca80int, 0x72a7d84412ebb3f5ab10f411bc9568c7dfcb74e740ee1cfaea2dd5d45e172070int),
            y3: (0x39e2a8fe11fc648ab38b5e57379683cef79d6f05a78835fb0aaffc851a2eef2int, 0x6759885ff612ab1bd9c743ef1cbeb8ac9700345b7f5b56c472ca9b24a765eb1eint),
            t3: (0x5045124986164eef4b01896bb9310079a6b9352365be97c44aad8cc2162e596bint, 0x63e19b4bc813723c4a268eb36f7d323e2fb4c7899d737d0f4b3afbf8e0112b59int),
            z3: (0x23fdc84f7073003f217566534d099d93566239a9b34fb2405967f9a5ccef14bint, 0x2bc883148b57ef61106ed3e1551fdc09002fe8720bb26a043853a4a587e61e75int),
        },
    );
    lemma_chain_double(
        base(),
        ExtendedPoint { x: 0x72a7d84412ebb3f5ab10f411bc9568c7dfcb74e740ee1cfaea2dd5d45e172070int, y: 0x6759885ff612ab1bd9c743ef1cbeb8ac9700345b7f5b56c472ca9b24a765eb1eint, t: 0x63e19b4bc813723c4a268eb36f7d323e2fb4c7899d737d0f4b3afbf8e0112b59int, z: 0x2bc883148b57ef61106ed3e1551fdc09002fe8720bb26a043853a4a587e61e75int },
        0x39f6d3a994cebea4199cec0404d0ec0299a0824f33nat,
        DoubleWitness {
            xx: (0x71659cdef0fe0962b6c9621e68395789eff04b932e8d13811b182614205c6c22int, 0x6906be955f0f582ed1b3b5ecdfa35634dfe95e85ee1991a1a1815d76f7dfc4deint),
            a: (-1, 0xae6e8bdca8e25196186221b29fe81d073d4457d11e4ca5d5e7ea28808203b23int),
            b: (0x5c22ce27b40c545e91032ffb52cb3226b9c8e46cf814051760828cbf9a5e56ccint, 0xc31e9dfca56dff13b65259eed1fe60e8790e785b841696ea0a5fd0e73dc0b8int),
            zz: (0x10892d268dd80a3508273e27ab966482bcbbd31433c183c145d3c711bc106352int, 0x77fc409f8e9e3f440a155ec0877ddf1246dbe3b82e253fcb3e84a0c67cb3e27int),
            c: (0, 0xeff8813f1d3c7e88142abd810efbbe248db7c7705c4a7f967d09418cf967c4eint),
            dif: (0, 0xa23ca1fcde8b71a4dcfcfc13b2c836f8b5b3704b660b3c6747442b720e27a6bint),
            xy: (0x6637134009af67aa6101ee68d4f8d4cf97114322c8701a87ce8543e01e89fa16int, 0x632a1e3608367d11eb0f09c0260b494242222774b1fbe7a76f1c4c80ff22a30aint),
            e: (1, 0x52669518e6cf7cdba2e43b784274ba7f3086aae663f9734fde389902fe454613int),
            g: (0, 0xbaa075bc7339318753c747518d080315c4d53f56d68e0f448890258ef5dfbdbint),
            f: (-1, 0x7098269afefd48782733a0a511829c54672f7b8167a294f9e0b86e3f1fc77f8eint),
            x3: (0x5007ebcac0bceaf6644e513f5f72ec884df60908a8056db24aa81fb52de76583int, 0x713b22893c23666ab0e81ccb13e5550d1f8461a1ebe0a62bdd7b159e000de607int),
            y3: (0x1052d2762b6da4cfe9204aa6e9371ded7f43c7d5778c64e984bea5883f570b2int, 0x71cc111aeec4a2db52214213885d401d6d906058cfa9cb076ad4739909af31d7int),
            t3: (0x7350fbf737bb6dfa7140e29c553f2bc67486956983db3771f9abf03e83b4918int, 0x293198783fdce14fb430d40703ed623222ce75002b32758d13d30b009ee40ed9int),
            z3: (0xb542739b9d64adaa843425e3f511983434e53aa8450e227029dd6c2307f730aint, 0x4373d8b159fbd2f3c5d638a1ca2b7031f443c5bcd1ae6797e9ea90cf81d0e570int),
        },
    );
    lemma_chain_double(
        base(),
        ExtendedPoint { x: 0x713b22893c23666ab0e81ccb13e5550d1f8461a1ebe0a62bdd7b159e000de607int, y: 0x71cc111aeec4a2db52214213885d401d6d906058cfa9cb076ad4739909af31d7int, t: 0x293198783fdce14fb430d40703ed623222ce75002b32758d13d30b009ee40ed9int, z: 0x4373d8b159fbd2f3c5d638a1ca2b7031f443c5bcd1ae6797e9ea90cf81d0e570int },
        0x73eda753299d7d483339d80809a1d8053341049e66nat,
        DoubleWitness {
            xx: (0x6e98aec59676cb4e413a9d678641a33fd195cfaf1cd9cf29036a1c864aec6508int, 0x153cd33eb07d34be6a5697e35e4b108d17b248ec0c3986c8c1215fe6e07a2f29int),
            a: (-1, 0x5eb0d41479204889c8e34024ab56c7783c0b5b16f3c4d5363edea0181f85d0d8int),
            b: (0x6fb4828c8e365889d25f5a2b8990a31b845dc153a908d6aecc7faaaffbf07ba9int, 0x3c61a1a97b108adee18aab599fd987d1925809e4f076410cc217575d4fb586e8int),
            zz: (0x273f3d8ccba4522cbc00e79336a8130b33a69a6df839f825617fced67bd50f61int, 0xd517176fd02dfb45188daabcde1fa50100a4a753b3681f99eda7d5b07cc819fint),
            c: (0, 0x1aa2e2edfa05bf68a311b5579bc3f4a0201494ea766d03f33db4fab60f99033eint),
            dif: (0, 0x224f326afe0fbdaae75894cb0b7d3fa6a9b35132034e94297cc748bacfd049f0int),
            xy: (0x6f263e1086ced3ec1dacd5e92eaa0f9129455b67adf86747ace91add0d17cbeaint, 0x32ae302a6a99f2718ceafbd32f8ca69303a2e58ed85fa007f1233c872564baf7int),
            e: (0, 0x655c6054d533e4e319d5f7a65f194d260745cb1db0bf400fe246790e4ac975eeint),
            g: (1, 0x2724ce6aca93562077341376418e77447aa5c0f8e43cba4400f5f7766f3b57bfint),
            f: (0, 0xc81eb7cd08d96b7d4225e1ea5ca82a45a912c0e6dcfb650c340fcc05fa25481int),
            x3: (0xaef9183c1f8b0d6ebacf026e9a89aed294f35b6fd23044adfd2f0723f467a6eint, 0x4c5d01f2217ab7f86013a5c4060fec86da43b88b8809c6429a2a0b797d8c0a80int),
            y3: (0xb95b0988d2c01593b256b1f29816d41629d6534cb9a2785676389aaee57e535int, 0x547efeeb56e54738ff282725f0734163a10721330fedb4e1a08cf53b017fd4dbint),
            t3: (0x1dff815df736a4670a6459fc60e8d46137492f8a0b2e7d1e0f75006ace78d18aint, 0x2c3250aba5b5da5b843ac5937eedc6af0064fceb968054a8d73caad004669b96int),
            z3: (0x43924e10f5206d9d44341b34905f90e2566079bc3d80044632a70573ffb3636int, 0x1e72d36c6939e46bb810c5b8cccc7faa3b7cce033520b407ddd09169ad94ad09int),
        },
    );
    lemma_chain_double(
        base(),
        ExtendedPoint { x: 0x4c5d01f2217ab7f86013a5c4060fec86da43b88b8809c6429a2a0b797d8c0a80int, y: 0x547efeeb56e54738ff282725f0734163a10721330fedb4e1a08cf53b017fd4dbint, t: 0x2c3250aba5b5da5b843ac5937eedc6af0064fceb968054a8d73caad004669b96int, z: 0x1e72d36c6939e46bb810c5b8cccc7faa3b7cce033520b407ddd09169ad94ad09int },
        0xe7db4ea6533afa906673b0101343b00a6682093cccnat,
        DoubleWitness {
            xx: (0x324d2745589d4f1399791fe23b61c83b440ad69fc880823074b17d6a37ff2af6int, 0x11405fe682b6780b75184dfa6e5eff557e27cf878f8c81372a28a968446f150aint),
            a: (-1, 0x62ad476ca6e7053cbe218a0d9b42d8afd595d47b7071dac7d5d75696bb90eaf7int),
            b: (0x3d96120a9a3882e02b84a1b6fa04209e036fbe164721eb6ad427232c4d8d4e62int, 0x50fc6d87223bd41be6c4494552033476b0dedf75c204db746747b5a64ab824f7int),
            zz: (0x7ff4ef531857ec19a26679828ccf5abd412e4aa0ee9bb906367acc9a968dba7int, 0x46ed52cfb3c6890aa3a9d8b73dfcdcf4a68ca28fa8008dfb444d9a7607f44eaaint),
            c: (1, 0x19ecfe4c3def94cd1419d9667257e1e3f95ba11c5002bff7889b34ed0fe89d53int),
            dif: (0, 0x11b0d9e584ab3120d75d40c8493fa43924b6f505ae6cff536e8fa0f070d8c600int),
            xy: (0x37a89529b837c0993ff38fa96da21fc7cb46e92561966ee44d4c9df9a370d8d4int, 0x17b610f020f8bc9ca1613ad7d13b0d94deedd9e5ca9e9341e7b267c4718e22acint),
            e: (0, 0x2f6c21e041f1793942c275afa2761b29bddbb3cb953d2683cf64cf88e31c4558int),
            g: (1, 0x3fbc0da09f855c1071abfb4ae3a4352132b70fee32785a3d3d1f0c3e06490fedint),
            f: (0, 0x25cf0f546195c7435d9221e4714c533d395b6ed1e2759a45b483d750f660729aint),
            x3: (0xf7760ee7d0877ee04c636446f374093a623f6430880938a51e5cf8ec5f55142int, 0x4714516808f2f7052ebb9b2f6669ebdf66122e152b69e29c8bcc37eb00ed95aeint),
            y3: (0x9b9da35cc6c376f84663b412eba135135511f1e111048e79d4c5b115cfdb826int, 0x61a4048350eeba5fd1fa2828b0d2b114196584e6003109b58414a8be454b95daint),
            t3: (0x73c99dea9b624b2f0f4b77b655edf052ca427bb746d824f7bc2d3b8250a6943int, 0x69d76650cabe10c682c2a25c99ea942742262a37c270f553c2a775e3bad7a6bdint),
            z3: (0x14c94fe38f232ae9d7681b5d604cf11decf1b738b646a9baa0a05efa25803676int, 0x67ebcb8a0f9f7e7b693f6bbe6465d0c1eb6346a44137314c6bc9695be26ae81cint),
        },
    );
    lemma_chain_add(
        base(),
        ExtendedPoint { x: 0x4714516808f2f7052ebb9b2f6669ebdf66122e152b69e29c8bcc37eb00ed95aeint, y: 0x61a4048350eeba5fd1fa2828b0d2b114196584e6003109b58414a8be454b95daint, t: 0x69d76650cabe10c682c2a25c99ea942742262a37c270f553c2a775e3bad7a6bdint, z: 0x67ebcb8a0f9f7e7b693f6bbe6465d0c1eb6346a44137314c6bc9695be26ae81cint },
        0x1cfb69d4ca675f520cce7602026876014cd04127998nat,
        SumWitness {
            a: (0x59c770f7c3473ddd102ba50fbeead7532b985c574e5429b56628adea57a95aaint, 0x70e1130dd3fe7e723518d618b3f0939f4dbc7a2200b16f7c01d83cf48e7773c0int),
            b: (0x49ce35c6ae7f83a4f2b55ccf94422a1e173b82ef01ef55b53ac779bca83425a4int, 0xa28ac5ef1997ce16ea97abeacf300917823ea05445af95f791161db32ff153cint),
            dt: (0x26dec42f51ae6a8d0bd9a3d790a45dc1600944396c8e062788faee669b559278int, 0x7302df388ab4096ed51037891f9b4c0bfd512d0c879bb9cc63b60bf3aa8a7c35int),
            c: (0x548d3b081b20bbaeeac55d04dbcd9e351070e5c183b0c0c1d70556ff2bdd589int, 0x162c5eb98e2fe2f1f3b6096bb6f13f3fb21463daa4cd1317ddfce74b72383ec4int),
            zz: (0, 0x67ebcb8a0f9f7e7b693f6bbe6465d0c1eb6346a44137314c6bc9695be26ae81cint),
            h: (1, 0x71c18199bfa7e0b708878cf5741bc2b7222c024450e0cdc7ae99ed0c17688fbint),
            s0: (1, 0x34caae983044341ccd7beb500d9ac4ee2bba0ef82b9c90530fe0e0aa46392b87int),
            s1: (0, 0x60c7d6918e437d8827d3dfcfe8923870431f0f21be6a05e37815793fb5885c83int),
            ss: (0x2c127b3b9b4b65fc31acc0958e79ceb8abf93908efbb79976dfacc1a113c4132int, 0x48d6d186e0dd10dc3ff05393fb23a9db0e27caac71a34e1f79e4dcd4fc6188e3int),
            e: (0, 0x41bab96d44e292d0cf67dac4a3e1edaf9c050a882c954142fefb3e043aeaffe8int),
            f: (0, 0x51bf6cd0816f9b8975896252ad749182394ee2c99c6a1e348dcc82107032a958int),
            g: (1, 0xa2a82f07431e42529bb9d2211b537fc49ba067be605e86549c650a854a326dfint),
            x3: (0x2e597e63b051413a3f9180022e8f653a72b90eb46cca8ba6b49389255b860df5int, 0x2aa76db3e9691b55d21b75ab2586d90ff669d1869909f488d95ec184838211cbint),
            y3: (0x9f9bdd0226d50e6303f327a3f8ad39fbb8e73b27f6e6ef220555ee601530bcint, 0x528980e51765d276b12714b3bfcb24e378db95d2da55501e21449781525263e9int),
            t3: (0x407f65f2fb122cb12f0db6ee1ae5dfb9c8bc8848ef4c76abecce8d6aefa35b1int, 0x11bf04a288879dd2553c3b3d007f571e9be210cfd601a9d692dcca0cca51f2c7int),
            z3: (0x72b2e517f75376aa899977f42d4937dc21ae46fa4841971ae225da6ad0e4a7bint, 0x2aaf5f2e7aa96bd198164d92a8ea6ff60da9d4196f8422729ce25b60473e492dint),
        },
    );
    lemma_chain_double(
        base(),
        ExtendedPoint { x: 0x2aa76db3e9691b55d21b75ab2586d90ff669d1869909f488d95ec184838211cbint, y: 0x528980e51765d276b12714b3bfcb24e378db95d2da55501e21449781525263e9int, t: 0x11bf04a288879dd2553c3b3d007f571e9be210cfd601a9d692dcca0cca51f2c7int, z: 0x2aaf5f2e7aa96bd198164d92a8ea6ff60da9d4196f8422729ce25b60473e492dint },
        0x1cfb69d4ca675f520cce7602026876014cd04127999nat,
        DoubleWitness {
            xx: (0xfb1a209b332ddb668e6bf9fd1d40add53aadc28021374adafbfdf7ba82148d8int, 0x9999d77a5904c951cfcc10b34bc8c5f26adeadeda401be72ffa39002d474e21int),
            a: (-1, 0x6a5409db840d30b3163d16fcd4e54ba62d0fb92425be4017d005c6fed2b8b1e0int),
            b: (0x3ac3812bfe1edcf86c514b4816a89992f0069cda4b19b50d48addf4f1dcf5887int, 0x56121ed794c35e76086165f5678001e27a9a772b6cb2d35d3e47ea8f4e72b18aint),
            zz: (0xfb77af4a14bad97f08847ed7d2d7463cc2823501f67970ac2236a246990664bint, 0x5ae53228b801f14ecfc6b7340e9466cad0ca46d83cdfaf7c7d7177a513264b9eint),
            c: (1, 0x41dcbcfe466665556c5396601386f5904dd6e9ad79c102f9fae2ef4b264c973bint),
            dif: (0, 0x1441eb03ef49d23d0ddbb1076d6549c3b27541f8b90b6cba91bddc6f84460056int),
            xy: (0x1e5e453729f1d51bd46b303b1164bb1b7929ef651897a057cea79cb6c6c1fb26int, 0x4e3a61d196566f554120ce99280c7fd3b590148c832ac72c4b63c8df087b79dint),
            e: (0, 0x9c74c3a32cacdeaa82419d325018ffa76b20291906558e5896c791be10f6f3aint),
            g: (1, 0x4c78815fef3311e0eb64a4ea32c3758353ec8c4c9272b7760e4db18f212b6369int),
            f: (0, 0xa9bc461a8ccac8b7f110e8a1f3c7ff30615a29f18b1b47c136ac243fadecc2eint),
            x3: (0xe512e6728c333e14a23cde6d3cdf5857f0a41958f2e7a5ed4a318ac9398eb4int, 0x4d996cc6e11e73d216bd55a67bb844ecce16075730f647333da5b30c7aa5b8int),
            y3: (0xd5cd3fff30b4663fd63dc0559e2c70d292ebe335a4e91999de8c52173883f4eint, 0x1553194ef4468bc82019e2c24872a30d4b07cbab29e5997c86b9e7e803c125f8int),
            t3: (0x1b56e16a56d8f90c8442acb188805083f4dd4af1c80f48e36e833959726300fint, 0x223debdc04855baf4a62ee6d725e2cf8091ef723fde1156d9733d8f55e52d6dint),
            z3: (0x6ff6c45dada32a3c7c9f7f74ced2b4c390b5847eb4242a56fede7e4baa219f7int, 0x42101b6a720c20627bdf4c5492c4e3e79671cbee392f2b650ad5e1688d6f6ee7int),
        },
    );
    lemma_chain_double(
        base(),
        ExtendedPoint { x: 0x4d996cc6e11e73d216bd55a67bb844ecce16075730f647333da5b30c7aa5b8int, y: 0x1553194ef4468bc82019e2c24872a30d4b07cbab29e5997c86b9e7e803c125f8int, t: 0x223debdc04855baf4a62ee6d725e2cf8091ef723fde1156d9733d8f55e52d6dint, z: 0x42101b6a720c20627bdf4c5492c4e3e79671cbee392f2b650ad5e1688d6f6ee7int },
        0x39f6d3a994cebea4199cec0404d0ec0299a0824f332nat,
        DoubleWitness {
            xx: (0x33f161e097217c9fd248a7e8543f2e0058204f44a013f405d850efc06901int, 0x4cb56b48e18950014e954eb97188544a3ec46974d1d9ed18d3293a4baee64b3fint),
            a: (-1, 0x27383c0a48142d46e4a4894e981983bb14f93a8e2e246ee62cd6c5b35119b4c2int),
            b: (0x3ec2e8c1997880c41121d38d645fba6aef9c099fe29f184c84d38303c40764cint, 0x47bcc72c598797d20cc848d30808aae5bf543b208bffcf2d550bb839d95129f4int),
            zz: (0x25a5887348642d657e704b1b443096b83ba63a32027c9d714072b1d3acb730e0int, 0x5b0f7af225c0376c7782be6db704046c2787cbf1205ee4f21e4a996825a62391int),
            c: (1, 0x42314e9121e2f190bbcba4d3646630d2fb51f3df40bf6de53c9532d14b4c4721int),
            dif: (-1, 0x53691c31182a12bd0b16188399b2b0daa962a370a222fbb7d7cb0d7877c88acfint),
            xy: (0xe462c9d8f2e6729421c77751a8fc6566ea38f6133a00848530313aa9ffa47int, 0x4285a88139fb6e907a0047bfdcc5ba152731f78caa04422500c16c9d3ddc27f9int),
            e: (1, 0x111da9af4a595fd8c0c6b777afe99c24faa64b16540a284b0182d93b7bb84ff1int),
            g: (0, 0x6ef50336a19bc518f16cd221a0222ea0d44d75aeba243e1381e27ded2a6adeb6int),
            f: (0, 0x2cc3b4a57fb8d38835a12d4e3bbbfdcdd8fb81cf7964d02e454d4b1bdf1e9795int),
            x3: (0x69bee8b56e0c94d4aa65af677d71ef68f09f670a4cb681812f89679c04056efint, 0x23eac3377403daa811e7ec92c82b7cfe73c90eb8b0bae33c0ea95cb5466b5756int),
            y3: (0x4fd57177f5783136ce983a9d8c52f172c345e49f8a06093c9cc6fbf66c94085cint, 0x11428f7d3b06042c8988fd06be01c211c1a26e68419c7e92518d2c5d141428ceint),
            t3: (0xc509cb08c5e2e7d8bce8f014f7617fc2720543d7bd43fb19878f356479620fdint, 0x11b566fd98f611f37e0087fe7697f685393cf90f512b1d08f38ff09098d26ce2int),
            z3: (0x2ad849fe810145fc09903e83f1311b07c625011689f5d79ec5110cb04be1c525int, 0x6465a85bbbc69d07a6e11dc77e9da79e983ca0863e5d0dbae4ebc73c110334c9int),
        },
    );
}

/// The multiples of the base point, from the multiple by
/// 0x73eda753299d7d483339d80809a1d8053341049e664
/// to the multiple by
/// 0x1cfb69d4ca675f520cce7602026876014cd04127999021.
proof fn lemma_order_part_20()
    requires
        extended_valid(base()),
        extended_valid(ExtendedPoint { x: 0x23eac3377403daa811e7ec92c82b7cfe73c90eb8b0bae33c0ea95cb5466b5756int, y: 0x11428f7d3b06042c8988fd06be01c211c1a26e68419c7e92518d2c5d141428ceint, t: 0x11b566fd98f611f37e0087fe7697f685393cf90f512b1d08f38ff09098d26ce2int, z: 0x6465a85bbbc69d07a6e11dc77e9da79e983ca0863e5d0dbae4ebc73c110334c9int }),
        same_point(ExtendedPoint { x: 0x23eac3377403daa811e7ec92c82b7cfe73c90eb8b0bae33c0ea95cb5466b5756int, y: 0x11428f7d3b06042c8988fd06be01c211c1a26e68419c7e92518d2c5d141428ceint, t: 0x11b566fd98f611f37e0087fe7697f685393cf90f512b1d08f38ff09098d26ce2int, z: 0x6465a85bbbc69d07a6e11dc77e9da79e983ca0863e5d0dbae4ebc73c110334c9int }, times(base(), 0x73eda753299d7d483339d80809a1d8053341049e664nat)),
    ensures
        extended_valid(ExtendedPoint { x: 0x504bdb2f5bc50bced16d033c0835d8af80d8dbfaf2dde9437ed3929de74ab01bint, y: 0x40f7024c24e380c5ee18de481dc6de93d4e2c98886e92a1b5d230d5ce554e19bint, t: 0xc02f8aeca80614e60c58defd7bdd54b94a40fd07a8d77116241797994cb7e0eint, z: 0xf2fe44d547a8404136b5657b7ac271504640e2868504c5457996fa734c843ceint }),
        same_point(ExtendedPoint { x: 0x504bdb2f5bc50bced16d033c0835d8af80d8dbfaf2dde9437ed3929de74ab01bint, y: 0x40f7024c24e380c5ee18de481dc6de93d4e2c98886e92a1b5d230d5ce554e19bint, t: 0xc02f8aeca80614e60c58defd7bdd54b94a40fd07a8d77116241797994cb7e0eint, z: 0xf2fe44d547a8404136b5657b7ac271504640e2868504c5457996fa734c843ceint }, times(base(), 0x1cfb69d4ca675f520cce7602026876014cd04127999021nat)),
{
    lemma_negative_base();
    lemma_chain_double(
        base(),
        ExtendedPoint { x: 0x23eac3377403daa811e7ec92c82b7cfe73c90eb8b0bae33c0ea95cb5466b5756int, y: 0x11428f7d3b06042c8988fd06be01c211c1a26e68419c7e92518d2c5d141428ceint, t: 0x11b566fd98f611f37e0087fe7697f685393cf90f512b1d08f38ff09098d26ce2int, z: 0x6465a85bbbc69d07a6e11dc77e9da79e983ca0863e5d0dbae4ebc73c110334c9int },
        0x73eda753299d7d483339d80809a1d8053341049e664nat,
        DoubleWitness {
            xx: (0xb20bb31c4ae649e23bb880f449fb268285373b6caabeceeded2f4ac2111c628int, 0x5c5635258503547f7e8077e7ed891e1824afa769431b6475c7b901dd069dcabcint),
            a: (-1, 0x1797722da49a28c8b4b960201c18b9ed2f0dfc99bce2f7893846fe21f9623545int),
            b: (0x291db9b07743603ff63e66c3678786f3c79e2b880e53cae364063e02ebbd621int, 0x4bb0c17d6fe747b91995e8a249512c6ec443a6a4f28b7510cda70fe367f52fa3int),
            zz: (0x56f2563092b6c64f83f841b30a2d7d5f9c911473ac612daaac80cb41c876454dint, 0x64f819fd9ef5fd8e3023ade9263579394a268ad2f5fab76c03ae235031220084int),
            c: (1, 0x56028ca8144e7dd42d0d83ca42c91a6d408f71a2ebf712d9075c46a162440107int),
            dif: (-1, 0x3fd458035e505e57ce5d4f85dc696583be87f9f7ca55de776a9fee3d916d05a3int),
            xy: (0x558f692334e0ca66fe6b8d18c49e501667f039d3331c45890b161a7c1d0965eint, 0x323c7b9a4cfee59d3959efd5a7a35e3ab78bb85e18eec18733ed870938ed20d6int),
            e: (0, 0x6478f73499fdcb3a72b3dfab4f46bc756f1770bc31dd830e67db0e1271da41acint),
            g: (0, 0x634833ab14817081ce4f48c26569e65bf351a33eaf6e6c9a05ee0e05615764e8int),
            f: (0, 0xd45a7030032f2ada141c4f822a0cbeeb2c2319bc37759c0fe91c763ff1363e1int),
            x3: (0xb80ab8e3b2bec92db914fe7afe2ab410bf6e59892b54f36f22705ee356ca8feint, 0x646c5dd626fb33d84d97232c80407a61b0a144f18ca03936e5176e7690932eint),
            y3: (0x36aa036039056236a29dcbed245b44513231c876ffe73c0e0c0e0af61416bd66int, 0x67a567c464568491371908ecc39b358ed3afdc7409e87d79a7096868fa4f0a52int),
            t3: (0x3751d07aeaf827b0778f43bc4e082a6eb38632b54831de38dfcf04f8b559fa19int, 0x10637dcdbc8c3c689c911c8aca13eb657121fa7b733b6f3bb985ee346e22326bint),
            z3: (0xb5dc778f804245ad560a8d105ce91986dbfad40adf7c47c3d343f28b87b76a2int, 0x1b70671eaa07e96f2391d446fd8bf7d1ba0b138d8cc16f912ee43903691f146int),
        },
    );
    lemma_chain_double(
        base(),
        ExtendedPoint { x: 0x646c5dd626fb33d84d97232c80407a61b0a144f18ca03936e5176e7690932eint, y: 0x67a567c464568491371908ecc39b358ed3afdc7409e87d79a7096868fa4f0a52int, t: 0x10637dcdbc8c3c689c911c8aca13eb657121fa7b733b6f3bb985ee346e22326bint, z: 0x1b70671eaa07e96f2391d446fd8bf7d1ba0b138d8cc16f912ee43903691f146int },
        0xe7db4ea6533afa906673b0101343b00a6682093ccc8nat,
        DoubleWitness {
            xx: (0x56fdf5580c3e2d00530a14dd6352b4a49d04f5375603074a2d02907ecc64int, 0x4874389665e2ed1dfb81e0f5ba5b685043c48bdd4c5ae396571af83dbfdf0fe0int),
            a: (-1, 0x2b796ebcc3ba902a37b7f7124f466fb50ff91825b3a37868a8e507c14020f021int),
            b: (0x5caa47987a0c8b8fc918ec5fde2ef89d412c5d6cfbffb4f0d39d96fabef18c61int, 0x1020402c768d246763abfd89db3357a825f68d2ba0d497612e717095c814f5e3int),
            zz: (0x67e9b0c820499514cca2e35b9772ba8518b5a1790ed2a6472165693637cd9int, 0x57bb30ea0f89e64b74ef8f8eff3d461be06938f6f7aed74979355e3f294d624bint),
            c: (1, 0x3b88ba80f5764f4eb6a54715f4d8b4326d14cdeaef5f5293f26abc7f529ac495int),
            dif: (0, 0x1b592e904d2d6bc2d40bf9887413180cea028afa12cee1077a73972b780bfa3eint),
            xy: (0x59c8a6a6d3729d49f310cfa5eb255f4060e44a11f78897426ca5d8379e72c7int, 0x23d4f02d44c5f9a3410a18d360769cbdd550e3796da72af5ad81dffabfa27df5int),
            e: (0, 0x47a9e05a898bf346821431a6c0ed397baaa1c6f2db4e55eb5b03bff57f44fbeaint),
            g: (0, 0x3b99aee93a47b4919b63f49c2a79c75d35efa55154780fc9d75678570835e604int),
            f: (0, 0x10f46844d16542e4bead8635a1132ac8dad7666518bd35e4ebbbd7b59b216fint),
            x3: (0xa7b1d98d447d6ddc457468a5e49f2577a9c9390124c9a93454bd3eade0564int, 0x66df62a089d71510cf9c64a7525307c26efa45300c1527aa0558eed121325f12int),
            y3: (0xe0f66ff3861545b09cb748bb1e9320a4c51d486b66976c9749e2bd59f56027dint, 0x62df8ec33fd0ddb9ce5fb6aebca32f5a037c26f2261a3e3c224a968ec2839a7bint),
            t3: (0x10e7ee2ab5a94d494eeb4b23d2b70104b5d39c60b947cfbb58760ba7585433d6int, 0x4c9408d9aa2c3006d81f7ee3874505aabdcaf1babd967e86c6bc88475b7152d6int),
            z3: (0x8b7764d44ebe595f56730bdf33301236ea919c4a4fca26e06a22ff2bcc74eint, 0x5125fa24e129b5d9a25ac5a3257a3b7914ac1be652bc87d3682cb888a7b4786eint),
        },
    );
    lemma_chain_double(
        base(),
        ExtendedPoint { x: 0x66df62a089d71510cf9c64a7525307c26efa45300c1527aa0558eed121325f12int, y: 0x62df8ec33fd0ddb9ce5fb6aebca32f5a037c26f2261a3e3c224a968ec2839a7bint, t: 0x4c9408d9aa2c3006d81f7ee3874505aabdcaf1babd967e86c6bc88475b7152d6int, z: 0x5125fa24e129b5d9a25ac5a3257a3b7914ac1be652bc87d3682cb888a7b4786eint },
        0x1cfb69d4ca675f520cce7602026876014cd041279990nat,
        DoubleWitness {
            xx: (0x5b498518a532a049d3b272773bb123313d089e962ea6feef318c1ae66e4e556bint, 0x51311db8b41ac94c5fe91fd55a6b22d8825efffae8050c332e74f4547c0807d9int),
            a: (-1, 0x22bc899a7582b3fbd350b832af36b52cd15ea40817f94fcbd18b0baa83f7f828int),
            b: (0x5453ca3837349ed920804353bb6e6f319eb9ec966d34a7034147feb2c0e51c12int, 0x716a15b6e703d1e2d4258674a57e2e1220b9e9619744fe16118c5b9d22351b07int),
            zz: (0x38cd8488a42960bc352058cd8b8188f43ed9ade62f13635a74bf507fea8e5832int, 0x344526573e9c7617fbc2438366dca201125809f2d93fd894465a10eb2cc8f712int),
            c: (0, 0x688a4cae7d38ec2ff7848706cdb9440224b013e5b27fb1288cb421d65991ee24int),
            dif: (-1, 0x25401b36b81c5f61326509c6135a5f2004625ea980b2adb4bffeb00c61c2dd22int),
            xy: (0x57bcfea9985d7716cedbe3479c5bfd8e1cc82d7588a9bb940b53014fe148d309int, 0x424d85a0a923f4f8674c09281e535a51ac67ba55bb094305645fcefaa951ae9dint),
            e: (1, 0x10ad63ee28aa6ca89b5e3a483304dc9e0511d0a876142a0bc8bf9df652a35d39int),
            g: (1, 0x2038f7fe32e90896743c669f4b130b399e5ae966af3ff1e2e3176748a62d132eint),
            f: (-1, 0x2b9c52a2df4d99aeaff1b7a086fb9f3ccd687983fcbe9cb9566345714c9b250bint),
            x3: (0x64615e9bf012a5a6b6ffeb2af41e9b5d661fdb61c37d63aca21701cc531f7eaint, 0x366d686436f4f758af77c760bfe342c02fa7406e08dc79eac714f713c1cf4689int),
            y3: (0xa5a94e3d19e8a4bcbb0aeda45733ead101f66862899779e38cb831a19549eceint, 0x395afbbb0e744b7d7aa72cc633255b385b6fb318cc2a745d2ac41363d912a34eint),
            t3: (0x55bda36b64135495e3d6f77eac4728b25f12b6bb77d41b7f4f6d2466ad6498bint, 0x28044aa8fc29df8102ca907c8733e2133e6f26281e12161bc9f82c1dd4884d07int),
            z3: (0xc1f25df2990fc45818af68a3ca14fec2820004f36a582c21434eff2c61df91fint, 0x5eaf9898dbfaf5cc62d60b727d0b66d51905b5145d615bb04f04d59a26717fdbint),
        },
    );
    lemma_chain_double(
        base(),
        ExtendedPoint { x: 0x366d686436f4f758af77c760bfe342c02fa7406e08dc79eac714f713c1cf4689int, y: 0x395afbbb0e744b7d7aa72cc633255b385b6fb318cc2a745d2ac41363d912a34eint, t: 0x28044aa8fc29df8102ca907c8733e2133e6f26281e12161bc9f82c1dd4884d07int, z: 0x5eaf9898dbfaf5cc62d60b727d0b66d51905b5145d615bb04f04d59a26717fdbint },
        0x39f6d3a994cebea4199cec0404d0ec0299a0824f3320nat,
        DoubleWitness {
            xx: (0x198d9e0778404d689d0ec94f0b75f1c7fe0465a4a10e0ae7184a3fd368ca972bint, 0x486481bfed11366a59dca2fe45e80e48c7ff91138bf9761ba5835ddb4e329e26int),
            a: (-1, 0x2b8925933c8c46ddd95d3509c3b9c9bc8bbe12ef7404e5e35a7ca223b1cd61dbint),
            b: (0x1c606366b8137863be90072538519f85ba28f50972e3aca5058a2d725d7391d2int, 0x4c26c019c070ca7eb9bcceed3c5c33e9b06d69ba820e6c956011e0e93db0d9f2int),
            zz: (0x4d55fe8d0c0ae347b2f4ae982924919290c9bd7b72f93b88ec37c3c737ebb970int, 0x1e2cc2b165eacfc3af5246d13345cd3bbc15b5997f16a20e99a21b6beb454be9int),
            c: (0, 0x3c598562cbd59f875ea48da2668b9a77782b6b32fe2d441d334436d7d68a97d2int),
            dif: (-1, 0x53500ccca5b8f9a752da3e2490ff6dd82f0e4d37f1f4d54cfa6ac139741c87eaint),
            xy: (0x1aed896484f9e10708228f85ca4eeb8705d23463e0e61939c2dfe9aee1502b21int, 0x65a90406ea20267e2783909d955015ff62c5cc02fb37a2da0f19e3363c628d9dint),
            e: (1, 0x576460baaaa2cfb41bcd493320fe53f971cdf402f670e9b51e33c66d78c51b39int),
            g: (1, 0x3c23e59d35f94145fe02beef67425a0e86dd8a6f614f679ba8e830def7e3bccint),
            f: (-1, 0x3b56604a312771d534757654998a632ec4001176f7e60e5b874a4c3518f3a3fbint),
            x3: (0x2cbb33f44772f4b33c2ae82734079e3be7e23b9745af857e4321c9f2d191dc48int, 0x36777a9ecc11b6ef36c4f356f9b49e0147521cf4536777683225000347201f9bint),
            y3: (0x2b385e05d9e0cfdae73ef5b58ef134fd75cc8397fef38db8ae03e7f8da96204int, 0x38f822f1e164d5d14c55af19e96928f8aa1b9d709e3f0c28cedcc8dfe791da74int),
            t3: (0x3ece103448ec91afe54fe4663692bdd34adfe81e0c38694d646dee8500b4e9adint, 0x5e10095589f137bdf1deff719143f9f5b57519c9e11fdf7e40f3a47e230d076dint),
            z3: (0x1ec8526b785cf74372d94fa0afb5157880838c828bba0844ef93c6fb283d429int, 0x1e2a949a6cd1fc0464612a38e70ff0a85ef41709df83cb4cab40118a60f7b0dbint),
        },
    );
    lemma_chain_double(
        base(),
        ExtendedPoint { x: 0x36777a9ecc11b6ef36c4f356f9b49e0147521cf4536777683225000347201f9bint, y: 0x38f822f1e164d5d14c55af19e96928f8aa1b9d709e3f0c28cedcc8dfe791da74int, t: 0x5e10095589f137bdf1deff719143f9f5b57519c9e11fdf7e40f3a47e230d076dint, z: 0x1e2a949a6cd1fc0464612a38e70ff0a85ef41709df83cb4cab40118a60f7b0dbint },
        0x73eda753299d7d483339d80809a1d8053341049e6640nat,
        DoubleWitness {
            xx: (0x199713d1443bd91e3de689145dbcb3e2f2054bcb3c135b35ee6b629fd95f9bd1int, 0x5758d5357be30c532a3fb908a3ab14e5f423bb2c484b6ad75845cc630b474c08int),
            a: (-1, 0x1c94d21dadba70f508fa1eff65f6c31f5f99e8d6b7b2f127a7ba339bf4b8b3f9int),
            b: (0x1bfee8a8ad66348c9eb38a99b6976884032b97304bfa6a3e814e606cf01d0eb2int, 0x4fa9051227e0029b646e6173025cb7634c35ffa5c7d78d0bbd170fb399b4b5deint),
            zz: (0x7d988a9e14cb8295df0eb327211ed285d95031eb61814a978d778ed586fad67int, 0xce5c2c3134a0dd1f9128dfe589f1a1362f2ffc6e7496f7d745aaae0a8582df2int),
            c: (0, 0x19cb858626941ba3f2251bfcb13e3426c5e5ff8dce92defae8b555c150b05be4int),
            dif: (-1, 0x40d9745eaf77eba1d7c595946d3be3c167218d33efd9c01aeaa323e75b03fe1cint),
            xy: (0x1ac413ff6a54ea8e5601406359eb4bc0c730921d986dd00e10f15fb503df3526int, 0x59f06f021ec02f577ab6e8f8d5d5e1f0593107489597c5d159e873a55641b16int),
            e: (0, 0xb3e0de043d805eaef56dd1f1ababc3e0b2620e912b2f8ba2b3d0e74aac8362cint),
            g: (0, 0x6c3dd72fd59a73906d68807268537a82abcfe87c7f8a7e3364d1434f8e6d69d7int),
            f: (0, 0x527251a9af0657ec7b436475b715465be5e9e8eeb0f79f387c1bed8e3dbd0df3int),
            x3: (0x7fed4a36a3b37c67a970123f1e09f7cf9ca640938fa215d1167fdf9eb4b4f4bint, 0x2854754e925c0fe2628ba15db54a1c6a4e520ab0eb3f6f23934089dbd5fc5879int),
            y3: (0x3c8cacc3fb0525dd80e42156287863dced5c46b86e40c3d871c0e8dfedfd50ecint, 0x2f6051903486956a0699481cfc04d6a9d1ea958bc5aa527c999029f8df829498int),
            t3: (0x649f632f2c92f81ffb79b44ed05f903e36fccdf4eb795ac2de124d57ed21b99int, 0x5d7371ac4e5aaea589de042d7474dd66a0673707ee40df6741e5e471b577937int),
            z3: (0x4cfad6b8d70afa3f0a10702d1f1b86cc360bb00e0719d316c68d3cc041810b17int, 0x43374a92ae1c6df50fc01a2dbe02f9d93ba1b08c8fdd95030e07b657dd7556feint),
        },
    );
    lemma_chain_add(
        base(),
        ExtendedPoint { x: 0x2854754e925c0fe2628ba15db54a1c6a4e520ab0eb3f6f23934089dbd5fc5879int, y: 0x2f6051903486956a0699481cfc04d6a9d1ea958bc5aa527c999029f8df829498int, t: 0x5d7371ac4e5aaea589de042d7474dd66a0673707ee40df6741e5e471b577937int, z: 0x43374a92ae1c6df50fc01a2dbe02f9d93ba1b08c8fdd95030e07b657dd7556feint },
        0xe7db4ea6533afa906673b0101343b00a6682093ccc80nat,
        SumWitness {
            a: (0x32f0a318e4c2c65c80258394310218aab4d295609dfe2f43a29ec32109b0560int, 0x6c63f8686b691cc160d3597645a4c5f106dd2ed57dc84a1cfe2662265998dbint),
            b: (0x23cfa90c04aab1c8d62989347a58b7f7e9245f2090327ca479e9b9895f500afbint, 0x6c2ca4dce38e176bd07c44ec1c53e55e87f29d70cd666c27871f40f843eb4985int),
            dt: (0x2251de2dc188d15fea5d1bf4e560169d73ed694074dedae1a0bcd7b54557e8eint, 0x5e0f1f3ee545270d069ae2789fce9afe1a1dce7d070d8e21d4cf82ee5baca279int),
            c: (0x452603bcfb8b3574537470b2588d456148af08e882c43e0d29c2653b3f9a43aint, 0x75fe29fec48b13f4007914986e2bfbb7241c975d445658312449538f935bf37int),
            zz: (0, 0x43374a92ae1c6df50fc01a2dbe02f9d93ba1b08c8fdd95030e07b657dd7556feint),
            h: (0, 0x6c9908d54bf9808891dd184592998a2478f97a9fa2e43471a41d675a6a44e260int),
            s0: (0, 0x57b4c6dec6e2a54c6924e97ab14ef314203ca03cb0e9c1a02cd0b3d4b57eed11int),
            s1: (0, 0x60c7d6918e437d8827d3dfcfe8923870431f0f21be6a05e37815793fb5885c83int),
            ss: (0x493848ae5dd072ba00880e3cc9984e77a3c9848489d8398b4c637f46ab4b8606int, 0x28de584f57dbaac7469c87006cedf19998df2ed94ecd5f964e56070bc7e1e5adint),
            e: (-1, 0x3032f6cd357fa786e7f946c2e3f63f7a73a3583cabe78723aa389fb05d9d034eint),
            f: (0, 0x3bd767f2c1d3bcb5cfb888e437203a1dc95fe716bb982f7ffbc3211ee43f97c7int),
            g: (0, 0x4a972d329a651f344fc7ab7744e5b994ade37a026422fa86204c4b90d6ab1635int),
            x3: (0x18e14a6612f8fae255a1123e9de400750af75f3637cf214b0543f5de8307bd11int, 0x4705bb9713d81143cdda213efb870a3ab52b6773ce68732c9fd423c272ad691int),
            y3: (0x45dfb937ea3e20d3cf3fbbf5c5bf4067030e91eeb64acd12dbb784064a9d68d9int, 0x362d9f99593d71f3503d32e9b842929e2fb0a0716cb9fe74b7aa16ec1739b507int),
            t3: (0x2d26bab69ffaf6a3d02b9f5cabfcf1b744ab9de45ea7a03599128c4ae0359715int, 0x2eb6b45e7ec7606353b3b4a094684277e8510b27c42161f9f8520c11044e822bint),
            z3: (0x2680cd60dc5840e9ad95d7512b1274efb00691bd3a1ac394dbf8f7a6db20da00int, 0x65cd52654a8b97167d485f692017a94ec30bb45df64a587dca26b1a69901ac33int),
        },
    );
    lemma_chain_double(
        base(),
        ExtendedPoint { x: 0x4705bb9713d81143cdda213efb870a3ab52b6773ce68732c9fd423c272ad691int, y: 0x362d9f99593d71f3503d32e9b842929e2fb0a0716cb9fe74b7aa16ec1739b507int, t: 0x2eb6b45e7ec7606353b3b4a094684277e8510b27c42161f9f8520c11044e822bint, z: 0x65cd52654a8b97167d485f692017a94ec30bb45df64a587dca26b1a69901ac33int },
        0xe7db4ea6533afa906673b0101343b00a6682093ccc81nat,
        DoubleWitness {
            xx: (0x2b82ddb1e8b7d46ea1ee314adf62bc1ac34ca45818ec3b0d7f7097de056099int, 0x394effc582d760bb285c61a91f904894be102c5cd705698a15d55c846b655d88int),
            a: (-1, 0x3a9ea78da6c61c8d0add765eea118f7095ad77a628f8f274ea2aa37a949aa279int),
            b: (0x1951dca9cd5d89a5158c5f9babb7d97411c06ab67bcead327b3d4d2005f82b49int, 0x30a5d40edaad05fc81eddcb6b7e10987b95e87b344df48bbb9a5429a5928bae8int),
            zz: (0x5965a74b26a9bb02a1a329f73145cec803e246cba198b7aa9c1cd6cdb7cbd01dint, 0x39ad3b588ea96b48ff2294e7c03c17b4ecb61ee5974994cd08fd14b0a6ec20cint),
            c: (0, 0x735a76b11d52d691fe4529cf80782f69d96c3dcb2e93299a11fa29614dd8418int),
            dif: (0, 0x9f8d37ecc19169088ef99a8323085e8dc4eeff2e419a9b9308560e03b71e791int),
            xy: (0x213117d812fee2ba734e3c2e2d5e9fdcd2abcd84f98b2cd3328726b7498dce9int, 0x57ac2aba9750391f9e781ac65c0ebaa8edb0ff09e5222a6beb539750b490860eint),
            e: (1, 0x3b6aae220502f4f709b65d84ae7b9d4c87a45a10ca45f8d8d6a72ea269210c1bint),
            g: (0, 0x6b447b9c817322898ccb5315a1f298f84f0bff596dd83b30a3cfe614edc35d61int),
            f: (0, 0x640ed4316f9df5206ce70078a9eb1601b1753b7cbaef089702b0437ed8e5d949int),
            x3: (0x33485c977a3dadcc7cc2a2af640caa96df2f55055be98fc3264bec7c25e99aedint, 0x154d8c7b01690fa5b71800bca5c24115e7b0577717d9c8598cc98ee73ecbbc6int),
            y3: (0x93a1bc8ca667086549adea9a38732fd16f65b45e66bcca9171a194c0fb77eeaint, 0x20607d8a9025d859a2f292edf5fb4a41b93d5c006ab2e49bd5fa8a57803ec07int),
            t3: (0x51c663acd9e046e18c1fc676e16c5ab319d14b753b077e8216f808652972461int, 0x545169ba47d7af03d47c4f992bd3b788d5607579d4c14d88605457b59bf813eaint),
            z3: (0x5c952f73bf15472d012add9269fe2f0bb4b13dacf8fc8ac85289a131068d3c79int, 0x72433167647ec2c6a54dcd6ff15f68ed55557125135fb77f39f1d414c0149d30int),
        },
    );
    lemma_chain_double(
        base(),
        ExtendedPoint { x: 0x154d8c7b01690fa5b71800bca5c24115e7b0577717d9c8598cc98ee73ecbbc6int, y: 0x20607d8a9025d859a2f292edf5fb4a41b93d5c006ab2e49bd5fa8a57803ec07int, t: 0x545169ba47d7af03d47c4f992bd3b788d5607579d4c14d88605457b59bf813eaint, z: 0x72433167647ec2c6a54dcd6ff15f68ed55557125135fb77f39f1d414c0149d30int },
        0x1cfb69d4ca675f520cce7602026876014cd0412799902nat,
        DoubleWitness {
            xx: (0x3ea2419b9a8405846c03d51e970ba49107b741a8a9a9cd5a2aaf8e79943a3int, 0x3c4925c539b04b0dd77a3ecc6a9343ef0c378e647ae713c6552d6870bb319981int),
            a: (-1, 0x37a4818defed323a5bbf993b9f0e94164786159e85174838aad2978e44ce6680int),
            b: (0x90ad7800c0e125abd8064553db14000414e0b8d463f8fcb64686686f61996int, 0x283467ed821d43292a0171b29bb1aaa4634b67a4f495f04f51decf8b6ad0ce9bint),
            zz: (0x709edc4914020166d4f0261748c5ed22e9f45144a42c3f272e34787bc96b98ffint, 0x411f63f55c5670ce111c6d29986f6c21d155706ded91f893a7461d7426985001int),
            c: (1, 0xe5120978f0f6453eeff024b273d003e4eed3cd8db2595284e8c3ae94d30a001int),
            dif: (0, 0xf7019a06dcfef1131be2789035ce971e43aadf9908157e958f3c802d9fd97e5int),
            xy: (0x5f31699a4947f970145a0c57eba253f179bffc67c64b452c4c7ebbbf36f56int, 0x33d338f2fe7ec9f15eb3e804542f829280d9b5c73c9f05dbb42df336aff23b14int),
            e: (0, 0x67a671e5fcfd93e2bd67d008a85f052501b36b8e793e0bb7685be66d5fe47628int),
            g: (0, 0x5fd8e97b720a756385c10aee3ac03ebaaad17d4379ad3887fcb16719af9f351bint),
            f: (0, 0x5187c8e3e2fb110f96c208a313833e7c5be4406a9e87a35fae252c30626e951aint),
            x3: (0x48e5384fadf09efb5e52641db164deedcc16e7cc1e54d89f160227b08bb12618int, 0x277e6ebbc9ce610b0294ce3cf07bc03b8e27876edfac4163f0c3bf393f7821f8int),
            y3: (0xcc3852bbdf932ab5a0e3fb071ac7525a722820de6399e2d1f55561241fab406int, 0x17a7f01c19ee9b10f244e59d7a8acad05a996c581b90f7afecc3c5161e71ba21int),
            t3: (0xdcd86d833539f40a9f866285afbb9e9f4f4d31c64ec8789afe373fe537511a4int, 0x4fbdf74087fe62b96b65353c372cc70307a884aaad43b183c721da4ce3223824int),
            z3: (0x436863acf4cb97c4a32f776868541f400397bba68c98ac2ffae08a0e1433509bint, 0x1ae815685ad61d7dbc748c51ba052a3c82b93992aa95192e787f342d937acb23int),
        },
    );
    lemma_chain_double(
        base(),
        ExtendedPoint { x: 0x277e6ebbc9ce610b0294ce3cf07bc03b8e27876edfac4163f0c3bf393f7821f8int, y: 0x17a7f01c19ee9b10f244e59d7a8acad05a996c581b90f7afecc3c5161e71ba21int, t: 0x4fbdf74087fe62b96b65353c372cc70307a884aaad43b183c721da4ce3223824int, z: 0x1ae815685ad61d7dbc748c51ba052a3c82b93992aa95192e787f342d937acb23int },
        0x39f6d3a994cebea4199cec0404d0ec0299a0824f33204nat,
        DoubleWitness {
            xx: (0xd745ef3220c85ce9d3f98cec13e6421c8b0d80f918ff4cb332d35776e0de447int, 0xa8f98f32e0c5b41cf001c8c5d4df75355040462dea840fa909c38577ef3fbf9int),
            a: (-1, 0x695e0e5ffb9122066439bb7bac53e0b1feb99fa021561b046f63c7a7810c0408int),
            b: (0x4d3c1ee169eed18b2c123c2353727ae120cd28cfcbe9ba79361cf0c0f736876int, 0x3addc70e07bf2e2b0228a251bdff48d4c24d48160ccf782b29f93b3b85028fcbint),
            zz: (0x63eb3780ac1d9d99de496afcdcd6bb207b536475d9a01332b10e659d2a40ae4int, 0x66192c4aa7056901f09e6104657cea8b644e12243aa2d4ec14f507089de87be5int),
            c: (1, 0x5844b142246d54bbae02ea00c157fd1174de804575474dd929ea0e123bd0f7c9int),
            dif: (0, 0x2e804751f3d1f3db62111929ee5497dd3c6c578a1486a2d9456a8c6bfc09743dint),
            xy: (0x80f1b31b2cb65d5e2ebd0512c5beb76cabd1cf4fa88aea08cc52b822c106028int, 0x13dde466777746e25965d220ca1c0348d4877c897d96d3c7658a4e76599230d0int),
            e: (0, 0x27bbc8cceeee8dc4b2cba44194380691a90ef912fb2da78ecb149cecb32461a0int),
            g: (1, 0x304e2e1ad9b2d2e9332885c560b151816d4943b32e273730995d02e4060e93d2int),
            f: (-1, 0x4bf7242bdee2fb75b85f73cca8fb2c754c286770b8de45566f72f4d0ca3d9c0aint),
            x3: (0x1a095b25f5643f3370083f8151afcbc7cf5de53139e49656521ee4ad651a38e4int, 0x13b19f7f2b65f9c6bbef8b6da7c8a4d673b3373c8c8161a3cf06e95348ef175cint),
            y3: (0x136050252ebafb034025ff49fa765f03901b08e240d6a19e64599b17cd33cf02int, 0x469acc5733c767b0d5ec8b0f0ccaa406b0eb6ac13fb0b92cf93067ca29a29208int),
            t3: (0xff019426abd192744c9a45693af207f4557af20dfa624619745898c28508984int, 0x37e77e945f2c9c322d29469319e99beaa7a2acc6665f92d422920fcbf237399cint),
            z3: (0x1fa74c1e92f1de735ce3a6d7e0c4a0a99899842dba04206ef001f02f45315d8fint, 0x6007c38803e38dc10e37fac70832057d470147a12cc774484ff1b2b5c67e60a5int),
        },
    );
    lemma_chain_double(
        base(),
        ExtendedPoint { x: 0x13b19f7f2b65f9c6bbef8b6da7c8a4d673b3373c8c8161a3cf06e95348ef175cint, y: 0x469acc5733c767b0d5ec8b0f0ccaa406b0eb6ac13fb0b92cf93067ca29a29208int, t: 0x37e77e945f2c9c322d29469319e99beaa7a2acc6665f92d422920fcbf237399cint, z: 0x6007c38803e38dc10e37fac70832057d470147a12cc774484ff1b2b5c67e60a5int },
        0x73eda753299d7d483339d80809a1d8053341049e66408nat,
        DoubleWitness {
            xx: (0x35877d3ac18395c36657351622d9026f790c14c65972b0854b6af8a3fe0686eint, 0x24af6b8b1c3bebca035e851f0e3246573882214309baa4ef63cfb2fc200940a2int),
            a: (-1, 0x4f3e3bc80d61917e2fdb52e8fb6f91ae1b3b82bff643b70f9c304d02dff6bf5fint),
            b: (0x2b0039f5c18db2a6732fde8566895ed80918c676b514647123c7b4da18f68c56int, 0x253ddb89951a64317ef9f0717bee61a7049b8af962bae1afd505361f9c7693eaint),
            zz: (0x4f8c31342e8c02cec97f0a22b057eb824430f3d25a8ab42c923baba35b899778int, 0x1cc96f9a10c2d25a4e9c34b00c1edf5a148139a09e7056709cf9c509275e92e1int),
            c: (0, 0x3992df342185a4b49d386960183dbeb4290273413ce0ace139f38a124ebd25c2int),
            dif: (0, 0x2a00603e78472d4cb0e162777f813007169ff7c69388d55fc72b16e343802b75int),
            xy: (0xbfe8958c523fce1a9c6a22211ced4050734709b358d292106835087d33002a1int, 0x1d09213d54ab10a79c1708df3240862c78a20f7a851e3d62cfa660ee53d3303fint),
            e: (0, 0x3a12427aa956214f382e11be64810c58f1441ef50a3c7ac59f4cc1dca7a6607eint),
            g: (1, 0x8e6ffe78de78677b9b6b526dbc1b4fcc1969b659003cc0713583237c6d5348int),
            f: (-1, 0x3ae9381d80f650fb119cd9fa5f2034a0f6d49a781c1debde3741f9102db02d87int),
            x3: (0x1d828cd32b2721ae197bac36ad9ebf3fa088280cf3a95cf3318c74d6fe7091ebint, 0x6150af09bf6c4dbe72c424c2a4889626f388e9c0299917f83ddc392125e27687int),
            y3: (0x339b1aa917119eee599b5cf616387b6fd43026577a19b7ced60e75eb22527aint, 0x3ddb93d1db93ff7c1a83abf033146cd7c964c841787c293e6148056fcbd1d56eint),
            t3: (0x150a2086e0033b398dca7a903e300871f4d18b543ab4c58aed6825ca7def28b8int, 0x450a5b94c5aa46ea9131e15409d4fd121f9d18adb34673f00d5c6f1a4c501adeint),
            z3: (0x4861d11f20f33d7e317922947684b2b9cb6846f591613037878b534e553b9eint, 0x62ec700783d1821bed80e4046329deb7bcb638af9529d34f5176142d7075575aint),
        },
    );
    lemma_chain_double(
        base(),
        ExtendedPoint { x: 0x6150af09bf6c4dbe72c424c2a4889626f388e9c0299917f83ddc392125e27687int, y: 0x3ddb93d1db93ff7c1a83abf033146cd7c964c841787c293e6148056fcbd1d56eint, t: 0x450a5b94c5aa46ea9131e15409d4fd121f9d18adb34673f00d5c6f1a4c501adeint, z: 0x62ec700783d1821bed80e4046329deb7bcb638af9529d34f5176142d7075575aint },
        0xe7db4ea6533afa906673b0101343b00a6682093ccc810nat,
        DoubleWitness {
            xx: (0x51b0c3f944339fde0f57f2f359e81aa4615d4480334efb18ca5ccbdf1a502b3aint, 0x2cc309b8942b4bcb69426b7dc417eeea24df90d2457fdc7200c14ac168ec8ff7int),
            a: (-1, 0x472a9d9a9572317cc9f76c8a4589e91b2ede1330ba7e7f8cff3eb53d9713700aint),
            b: (0x2101a40a3b5e9e466ff05a18dc8f97da0ef0afade2bcf3fb3891b391380dc30fint, 0x4ce0072ff05eec5aa088138a4b750ca0ffbad9b3bbecf47afdefe55c6b7e7835int),
            zz: (0x5469c40398b1d8f81104c1b8d23cabb3ffeceb52c12fe816319c30623e4872a0int, 0x4519ca033ec9f89bc2a24f8a4d206f9469fb386d7ca68f8e97f1ea1977c9d904int),
            c: (1, 0x1645ecb353f673ef520ac70c909f07238038ccd7f94ec31e2fe3d433ef93b207int),
            dif: (-1, 0x6e383dbdceb0c26a5ca9310803b6b47f82e0dd7ffe8fe711014ecfe02b94f7d6int),
            xy: (0x33ed0e83d375e82385196daa74e7174c735da9f0f37b7b52a6ac91e0989d958eint, 0x4d2db82ad3461942055e3afc5558f593fc0e2035641dd3c005aeadd9ec86ab74int),
            e: (1, 0x266dc9027ceeb53bd7829df0a1101322a45e9c67c83d4b810b5d5bb4d90d56e7int),
            g: (1, 0x201cfd775c33a08f3745a80c875d1db6dadb48e1766d1808fd2e9a9b0291e83eint),
            f: (0, 0x9d710c4083d2c9fe53ae0fff6be16935aa27c097d1e54eacd4ac66712fe3637int),
            x3: (0x3430a37859306e82fda5708aa2e08de34060d128c27099954e4c313d6450839int, 0x3a0e36504ca946cbb907b0790f250129f51673e8acc9fb2217d40b12131f5d68int),
            y3: (0x1e882a41dbf3d9d15d00c76e495c577a4311f4c8c0ebc9d1b9cf7f9e1d021573int, 0x3cd0853af58b0228ae6e8f0e1857682a87b6c36e2b1cc525a5b8b9807de1e061int),
            t3: (0x24895834775d6bfa202ef3d138f3589f61b5c346e2a07a140961c5446e176f0eint, 0x50a35225d5c7eaba5063cec9979e65e221f3f1a426c671f373915cd1ec74170cint),
            z3: (0x2b9ce0eb85f5026ec7d07d55dc08be7b68503b5f7d171340e3204a4f4d629eeint, 0x69ef859298d1e557a268fbd7f1980bead7f98e4ec9440dff167f432c2903cf64int),
        },
    );
    lemma_chain_add(
        base(),
        ExtendedPoint { x: 0x3a0e36504ca946cbb907b0790f250129f51673e8acc9fb2217d40b12131f5d68int, y: 0x3cd0853af58b0228ae6e8f0e1857682a87b6c36e2b1cc525a5b8b9807de1e061int, t: 0x50a35225d5c7eaba5063cec9979e65e221f3f1a426c671f373915cd1ec74170cint, z: 0x69ef859298d1e557a268fbd7f1980bead7f98e4ec9440dff167f432c2903cf64int },
        0x1cfb69d4ca675f520cce7602026876014cd04127999020nat,
        SumWitness {
            a: (0x4954313a9e5245ba95eb4903bf4e9b506ce30eb62b95fed0245709f89de9b61int, 0xd250f9c0bff661125816359dbff4f1d32069781383a5435bedb9c4e8cc38557int),
            b: (0x2df812064c7e1b0e6f503058ad3533722c454baf9c2ebd20b5f92ffca9f35e89int, 0x6e90b5ea5e162b3c6f1c3c31c7d540e84b70af8ac1a71b0910e161b829bd48a7int),
            dt: (0x1d9d3eb72daa02896abd96e29ea59607d4531d25fc97856a1b11967a0a38485aint, 0x65c7dd36a6e3ca9349bd1fb043883f1912a5c3c2468202aab550812946108ef2int),
            c: (0x4ad33ca4d7f55fa5e20eb73f30f6b030921f85feea84e9d0ac640b203de981cint, 0x55892931892ca8bacad3e560e3f71650afa6a7ee8872ebe9385901248a58a8c6int),
            zz: (0, 0x69ef859298d1e557a268fbd7f1980bead7f98e4ec9440dff167f432c2903cf64int),
            h: (1, 0x7c81e33407814056163c7839a32b80029b9a308f9e3133fcfbcfe07b680cdfdint),
            s0: (1, 0x2f114381896cbac343c677f1dda914f290f9353d7e86448bd8cc49391013dc8int),
            s1: (0, 0x60c7d6918e437d8827d3dfcfe8923870431f0f21be6a05e37815793fb5885c83int),
            ss: (0x274b1aa68aa9bc8c7a97463c10f46c6ebb021bd69c6280b14b59574a484ccb2int, 0x70dd31145105300d6af5392057a721846fcb8175fda73b7a00517c6c3b91b0a6int),
            e: (0, 0x691512e1108d1c080991719cbd7469844611de6d03c4283a30947e648510e2a9int),
            f: (0, 0x14665c610fa53c9cd79516770da0f59a2852e66040d12215de2642079eab269eint),
            g: (1, 0x4b8b0770f86110ca3a030930cbed4a3633e2923a51b89de94ed84451b35c7829int),
            x3: (0x127dc4801e3bedc7d65cc05086af13b7a00e9d64135623679f7fb82a6fa94a33int, 0x504bdb2f5bc50bced16d033c0835d8af80d8dbfaf2dde9437ed3929de74ab01bint),
            y3: (0x51222c9c2b0dd83bb50c5a92e6863052968af4b99b68547ab4dfab4a3c6b3eaint, 0x40f7024c24e380c5ee18de481dc6de93d4e2c98886e92a1b5d230d5ce554e19bint),
            t3: (0x70dbd521d04be3ce034cf909497ffea075539649002e70b9eee3097ece5d7f7int, 0xc02f8aeca80614e60c58defd7bdd54b94a40fd07a8d77116241797994cb7e0eint),
            z3: (0xd4b14203549055b3df8648ee15bdd6b5d10d87c3d4f8a34676592f1c982fb80int, 0xf2fe44d547a8404136b5657b7ac271504640e2868504c5457996fa734c843ceint),
        },
    );
}

/// The multiples of the base point, from the multiple by
/// 0x1cfb69d4ca675f520cce7602026876014cd04127999021
/// to the multiple by
/// 0x39f6d3a994cebea4199cec0404d0ec0299a0824f3320420b.
proof fn lemma_order_part_21()
    requires
        extended_valid(base()),
        extended_valid(ExtendedPoint { x: 0x504bdb2f5bc50bced16d033c0835d8af80d8dbfaf2dde9437ed3929de74ab01bint, y: 0x40f7024c24e380c5ee18de481dc6de93d4e2c98886e92a1b5d230d5ce554e19bint, t: 0xc02f8aeca80614e60c58defd7bdd54b94a40fd07a8d77116241797994cb7e0eint, z: 0xf2fe44d547a8404136b5657b7ac271504640e2868504c5457996fa734c843ceint }),
        same_point(ExtendedPoint { x: 0x504bdb2f5bc50bced16d033c0835d8af80d8dbfaf2dde9437ed3929de74ab01bint, y: 0x40f7024c24e380c5ee18de481dc6de93d4e2c98886e92a1b5d230d5ce554e19bint, t: 0xc02f8aeca80614e60c58defd7bdd54b94a40fd07a8d77116241797994cb7e0eint, z: 0xf2fe44d547a8404136b5657b7ac271504640e2868504c5457996fa734c843ceint }, times(base(), 0x1cfb69d4ca675f520cce7602026876014cd04127999021nat)),
    ensures
        extended_valid(ExtendedPoint { x: 0x29482e7723780ed164297b81b966b009261f5f81606e3b888aaab9f14517d7fcint, y: 0x3649f35b8e2bd0281ed9b055eff629b8daf2a09237c5ec6eda910bd7796363bbint, t: 0x2f80b8721dff33fcfb6ead329f7076e3f67d8e22ab3d08007b9680e9dcd8afd4int, z: 0x60d81dd7aa15b86fb002b66f69504dd3c58555ce310741d10b1f8b2a911f5a95int }),
        same_point(ExtendedPoint { x: 0x29482e7723780ed164297b81b966b009261f5f81606e3b888aaab9f14517d7fcint, y: 0x3649f35b8e2bd0281ed9b055eff629b8daf2a09237c5ec6eda910bd7796363bbint, t: 0x2f80b8721dff33fcfb6ead329f7076e3f67d8e22ab3d08007b9680e9dcd8afd4int, z: 0x60d81dd7aa15b86fb002b66f69504dd3c58555ce310741d10b1f8b2a911f5a95int }, times(base(), 0x39f6d3a994cebea4199cec0404d0ec0299a0824f3320420bnat)),
{
    lemma_negative_base();
    lemma_chain_double(
        base(),
        ExtendedPoint { x: 0x504bdb2f5bc50bced16d033c0835d8af80d8dbfaf2dde9437ed3929de74ab01bint, y: 0x40f7024c24e380c5ee18de481dc6de93d4e2c98886e92a1b5d230d5ce554e19bint, t: 0xc02f8aeca80614e60c58defd7bdd54b94a40fd07a8d77116241797994cb7e0eint, z: 0xf2fe44d547a8404136b5657b7ac271504640e2868504c5457996fa734c843ceint },
        0x1cfb69d4ca675f520cce7602026876014cd04127999021nat,
        DoubleWitness {
            xx: (0x379dc1d20606daab87aea5d5f8598c6eddfe57bf296b9365ee128d9c3a541625int, 0x2b1c0743b7fa720baa166e836b45a374e976f6048788602ce0363541c86d0cb4int),
            a: (-1, 0x48d1a00f71a30b3c892369849e5c34906a46adfe7875fbd21fc9cabd3792f34dint),
            b: (0x2467d285af3f68bbae99f263c56ca3f3007af29c937cc72885c49877096d13b2int, 0x2278a62c7c6d5206d9600e18748658194293aa1f40d251d313675867191cc027int),
            zz: (0x1fd5456298680e70c6fe6d51c047240e4a224c90299326eac045ef3dd9855a3int, 0x69149af633351c460f1aac65f0dc19c2db10b6cc0c615fcad4c709a8d63d2421int),
            c: (1, 0x5e3b8e993cccbb43eafb80c3d8165b806263c99518c46396a98e1352ac7a4841int),
            dif: (0, 0x2658f9e2f535b935afc35b6c29d5dc7727b303df37a3a9ff0c6272561e763326int),
            xy: (0x2cff42bcf03898f29d1defd1b0fdffa087171e1e5c8c1959bda6efe677256cccint, 0x41ebc5ee56420c4676f6fe3bb0f5471c620533140b27d8c89fa4678727b6ee8dint),
            e: (1, 0xfe9e48982e69b44bab4246f5848b633704cc225165155923f48cf0f4f6ddd19int),
            g: (0, 0x6b4a463bee105d436283779d12e28ca9acda581db9484da53331232450afb374int),
            f: (0, 0xd0eb7a2b143a1ff7787f6d93acc31294a768e88a083ea0e89a30fd1a4356b33int),
            x3: (0x1cadc04dd6e709e69e826d65a1c411301e72373089a491fa905a26d7802567cint, 0x1b6b89b744562ba46614fa46c95853ee4b795045d54be3f6a8261a1077287fint),
            y3: (0x237d7b25dbd5e3f3c6c980dedfc38a736b4bad63dee8fd85bff4cc472a99608dint, 0x2cf71a9f44916c632160a635beb1854155b79e0f8393bc24bd79c0b91fb35eabint),
            t3: (0x543970695e079e25c5e7f38a4d8d32bb0ef015a726b4da4e468e3fe21073074int, 0x1d96af1789b4aa74ffb529a97a7ff28399253362ed054cc7c9f9fa8163d99c42int),
            z3: (0xc15a3f7d0248cba2d4eadc3265b0171100c35772d8072ce58627b912cafb5a3int, 0x1419833e14916bf7ce7e1a3ab2b28a8c4b50dcc77ae5d3049ccdf911cd568679int),
        },
    );
    lemma_chain_double(
        base(),
        ExtendedPoint { x: 0x1b6b89b744562ba46614fa46c95853ee4b795045d54be3f6a8261a1077287fint, y: 0x2cf71a9f44916c632160a635beb1854155b79e0f8393bc24bd79c0b91fb35eabint, t: 0x1d96af1789b4aa74ffb529a97a7ff28399253362ed054cc7c9f9fa8163d99c42int, z: 0x1419833e14916bf7ce7e1a3ab2b28a8c4b50dcc77ae5d3049ccdf911cd568679int },
        0x39f6d3a994cebea4199cec0404d0ec0299a0824f332042nat,
        DoubleWitness {
            xx: (0x67c4db42c31ec8cc50aea116d9452cada99408f6272768604f35bacddf0int, 0x6d375c21a0dab600c9d345483e6fc543ec9ee46d2ba9d96ed91fe34f30cd1111int),
            a: (-1, 0x6b64b3188c2c747696692bfcb3212c1671ebf95d454829026e01cafcf32eef0int),
            b: (0x1170d312d3c95eff0a64593342eb05b91c8d698dfd49b94a6526c12479f2263fint, 0x6c539169e9f5bc86e31acddfc7d191b81dda5c3a595358f4f39da6db7631dffaint),
            zz: (0x37c211187cff5db89e406b3482c323d66fd3490ab1155631f6f38cf61412cb7int, 0x14ff86fd05612e27aa4625599ed414a2e6177e7342ece9115364e29608adb87aint),
            c: (0, 0x29ff0dfa0ac25c4f548c4ab33da82945cc2efce685d9d222a6c9c52c115b70f4int),
            dif: (-1, 0xe50611ac86a8808b9859ce80d02590e9d02075e7aff859a334275d359010ef7int),
            xy: (0xaa2ad05c857083660a836895181709d9bfcdb47a1c4154263f18b3d96c32eint, 0x6616ea29c8a7055df45a5a6b6a4bbae9a129cc8ce0286eee733c4c1734aceba7int),
            e: (1, 0x58402d0067b08d73b57adccecaf59dcdee95f516c05281dde678982f6959d74dint),
            g: (0, 0x7309dc9b72b883ce4c81609f9303a47984f91bd02da7db851a7dc38b4564ceeaint),
            f: (0, 0x490acea167f6277ef7f515ec555b7b33b8ca1ee9a7ce096273b3fe5f34095df6int),
            x3: (0x379a8188a46bbbab5bb757c86cdaa09081e790faec93acc6b588fe94afe3ff83int, 0x4fbf6e5e853640545388b39ac5d6bf9fd91d65cdcf45e88f9a63b73a655cdd7bint),
            y3: (0xe3440d49348baef16a86cd19829271bffc66e067ac27c5dccbe3d114eec4a66int, 0xe4556dd9940c170741ce722f2d95e4bbe8e67fedda421ed5bde24b251922560int),
            t3: (0xae58433298d4e1c205a1bdf3cad10089c0f8a48a2cc593024f4f7e7f4b357d6int, 0x612fc826f4f5531e5b31ff939ef253f7c91759f6626d003c9788181a370e9975int),
            z3: (0x487b48a75b9463a4a01b38cf3c4340938bfc216f009d56d62ee64f228b7a5a91int, 0x65afc40a6c02e2011f85ede0db85b3cb1afdf1143adbfb153cc86ae190c97c4bint),
        },
    );
    lemma_chain_double(
        base(),
        ExtendedPoint { x: 0x4fbf6e5e853640545388b39ac5d6bf9fd91d65cdcf45e88f9a63b73a655cdd7bint, y: 0xe4556dd9940c170741ce722f2d95e4bbe8e67fedda421ed5bde24b251922560int, t: 0x612fc826f4f5531e5b31ff939ef253f7c91759f6626d003c9788181a370e9975int, z: 0x65afc40a6c02e2011f85ede0db85b3cb1afdf1143adbfb153cc86ae190c97c4bint },
        0x73eda753299d7d483339d80809a1d8053341049e664084nat,
        DoubleWitness {
            xx: (0x36dbe4ebff94ddbc0a29ca0c923fff4e65b51098ff76f46e833ceb8778aece75int, 0x234d209db2890e0eb5726711c332ee1f6917f37620ebc3801970811c8556caa4int),
            a: (-1, 0x50a086b577146f397dc770f6466ee9e5eaa5b08cdf12987ee68f7ee27aa9355dint),
            b: (0x1c1ba825e05eeac402e79b88806806926296626d99c1660bdf1dfc02ad4afd4int, 0x1000c6a88171fde5fdd5fc6f4bfe86f9cb77d317c9644025231f98a93c20342cint),
            zz: (0x5931c6187a9a6956e71d3721ed2c5007e1f74788dc81a4f06753d92246dfa880int, 0xb828bd9bf3f2de635b69fb78dba5c7bef378a032a2f92bbebb9b19c833f1579int),
            c: (0, 0x170517b37e7e5bcc6b6d3f6f1b74b8f7de6f1406545f2577d7736339067e2af2int),
            dif: (0, 0x409fc00cf5a271537ff17486fa7062ec1f2ddd7515ae5859c36fe6393e890131int),
            xy: (0x9d12747d1f4d88e1fb7e31c06ceb40dd2de2104ebb0146fe26fb0d7128f357aint, 0x2cbc18f786f21af006c8bd678f47cc6f661fb0e3cab5f6e0cbc127bf976c9fa6int),
            e: (0, 0x597831ef0de435e00d917acf1e8f98decc3f61c7956bedc197824f7f2ed93f4cint),
            g: (0, 0x60a14d5df8866d1f7b9d6d65926d70dfb61d83a4a876d8a409af178bb6c96989int),
            f: (0, 0x499c35aa7a08115310302df676f8b7e7d7ae6f9e5417b32c323bb452b04b3e97int),
            x3: (0x38cf50899552729490505f5d253f7a41cbd5ba1fd3d1775bb32aedd9f6c9ea08int, 0x31e31f558eb22eac17a7ca42b11f039a935c22c705bdbd691bd0790d13f2d3ccint),
            y3: (0x35ddc2cc98d5ab886893264c02bfdc91546c21410bf546ac4f43ce17adb97cbcint, 0x323746c8ab0de6b548b9a0418fc261fb68e356387ac45fac1d2aeaf2c08e3f7dint),
            t3: (0x31dfe61f7eabbcf11ee0c975411447a3aec0a3753e64a543c5c07b78686dc953int, 0x5f2341da0322b8503d4ac426b336cfda0a217af2942d9768708813e4b012a039int),
            z3: (0x3d5b4509929d9afdd5b5bc7503127da82f5ce46d4762a88bc534b4ff156ddee1int, 0x1e263e0af99b06b5565c29a1eaa0808904b4c0b8d673f5c4a1180b019e118eeeint),
        },
    );
    lemma_chain_double(
        base(),
        ExtendedPoint { x: 0x31e31f558eb22eac17a7ca42b11f039a935c22c705bdbd691bd0790d13f2d3ccint, y: 0x323746c8ab0de6b548b9a0418fc261fb68e356387ac45fac1d2aeaf2c08e3f7dint, t: 0x5f2341da0322b8503d4ac426b336cfda0a217af2942d9768708813e4b012a039int, z: 0x1e263e0af99b06b5565c29a1eaa0808904b4c0b8d673f5c4a1180b019e118eeeint },
        0xe7db4ea6533afa906673b0101343b00a6682093ccc8108nat,
        DoubleWitness {
            xx: (0x1577c532771e3d05843d33f571242f55a20bbcf32ef5999cbe113b6cb3916427int, 0x364293a1ff38b5e04f5d15bb71cb76c9a915edb318d4f81abd6e7537b1588669int),
            a: (-1, 0x3dab13b12a64c767e3dcc24c97d6613baaa7b64fe72963e442918ac74ea77998int),
            b: (0x15c06fc7e26ee7e7d747e938b39f3d6d7c7a05f300c7edbc8a9d73005999eec3int, 0x50185e18099a56094b248eaa15f225f7620d080f0bbb8d429fd6b65ca4d0d446int),
            zz: (0x7d746db3475cb7eab846a43f1227813bdd1904da30ffcbd9e207ebe87ee883bint, 0x4e695f7c803b591e074ed33e1cd16f5964fc257eec631b56327348fa8b7a5d09int),
            c: (1, 0x28e517a5d6d934f3db63ce74300106ad763aa6fad8c7daad64e691f616f4ba11int),
            dif: (-1, 0x61805cec4a67eea6cbf20baa8b8613499c585243db6c32a0a2bad469a9d6a553int),
            xy: (0x159bfbf1d1e043238b50b7a206ffbf81365ff66989b187f6bab3bf1c158c81d2int, 0x62513d64359d1adeca2103fe6f6811345d8422d045068f0cde41f463e54c1ccaint),
            e: (1, 0x50b4d375419cb87561082ff4d52e4a63674aa19d8a0ec21abc83e8c8ca983993int),
            g: (1, 0x19d5ca760a61a028fbc778eea426af2db8f71a5bf2e69527e2684124f3784dddint),
            f: (-1, 0x64de5a235d25e87d539d82827dc78085967a17641a1d16797d81af2ddc8393cdint),
            x3: (0x4638dd05490d0501700224dc2f92757d28d4076694041d4066e5c0e4da13e8bcint, 0x21e7bc98172283904e4dccbac9f748bf236b88a59db90aac4a85f62d951a9afbint),
            y3: (0x15ba85ccdd2fdcd3759fb538259ff44e44e6d24395a6db76f51eff7f50962fbcint, 0x40563ee21d9b18a83402876e1198298e96b966f7f554175db84405c125587febint),
            t3: (0x43e0c4bcd28b7e5b9b11c2d7f0a40d5a266581c311e88c2427b4ff0b33f2474bint, 0x2924e64088dbcc1e204cd9ba834ba84f74395f8b1bc59659588e5e7ac466225eint),
            z3: (0x167a9edeb21c32b60bbaa2f6f808ba01655593c4dfd78c9ffe3dc0a17854ef9aint, 0x53b3062b7adb24309957f28f13879d183aa50bc3120c85e9eadc4db057ce515fint),
        },
    );
    lemma_chain_double(
        base(),
        ExtendedPoint { x: 0x21e7bc98172283904e4dccbac9f748bf236b88a59db90aac4a85f62d951a9afbint, y: 0x40563ee21d9b18a83402876e1198298e96b966f7f554175db84405c125587febint, t: 0x2924e64088dbcc1e204cd9ba834ba84f74395f8b1bc59659588e5e7ac466225eint, z: 0x53b3062b7adb24309957f28f13879d183aa50bc3120c85e9eadc4db057ce515fint },
        0x1cfb69d4ca675f520cce7602026876014cd041279990210nat,
        DoubleWitness {
            xx: (0x9ea89890935e429e7f2663cf089f44919dc8d232af0523103844fe77a4ddfa0int, 0x3b2e73335c218da46c2863687a35434fece06a2974b22c897fa46b228c811279int),
            a: (-1, 0x38bf341fcd7befa3c711749f8f6c94b566dd39d98b4c2f75805b94dc737eed88int),
            b: (0x23b4837009bd8cb2a541c3d81138517a12cd0435f4f8d0fc07745dc2c7d37e32int, 0x3b0c02c42ea7ef0d36e98ba7c1a95aae91e5f793534669cb4f19e25757a78387int),
            zz: (0x3c6e23067f612412e698f017ea26dc225bbdcae5e0aa85cb919239b2b351c4a4int, 0x47ad1e2463016a8ed819fbb930750446f2014639bd0b03219fc87526ed6f7c9dint),
            c: (1, 0x1b6c94f59c6557d57cfa1f6a574830889044e8707a17aa443f90ea4edadef939int),
            dif: (-1, 0x71a0d8aec8717ddec361c0ffd765120c28b4e649380421a93141b2841bd76a02int),
            xy: (0x12d10130bbbe4c4957783896a7c090c4b834684abc4770f382f4b4c98c4d1e89int, 0x5575a0df1c6f1825b458be45c2ef7491fd89c9809441770c9e6bda561349aae0int),
            e: (1, 0x36fd9a6b0f40b3033577a4837c3d111ea755eefe2884921a3cd7b4ad269355bfint),
            g: (0, 0x73cb36e3fc23deb0fdfb00475115ef63f8c3316cde929940cf757733cb26710fint),
            f: (0, 0x585ea1ee5fbe86db8100e0dcf9cdbedb687e48fc647aeefc8fe48ce4f04777d6int),
            x3: (0x29eb0d4ff7b1134d34c7ee9acf879e8c873a232decabcdacaebbe595cb08c1b7int, 0x1841291b5ee70e669feec7699e488a9d23504dc8bd6ac07dab030729c8f5b4f3int),
            y3: (0x717f172ad24fd52710117db61767e74aa38f8a66210c1531645d4be6f5711d7aint, 0x5839bdd0676a75f8820107d1b1743b11a78e0488b9b420147484970a1444faa4int),
            t3: (0x35e64d6627c6c0d61b4d8f66ab829e37ef91caad9fce85cdcf1d5540067c9c7eint, 0x3229d0e0299bdc59c43941586c0b76bf1b44760a4805c590ac7156d570942500int),
            z3: (0x5844615ab03500a8a12ac7408a7a6bb5c9aea2016b94cd5e5623369daa526f21int, 0x3937736a38d17380e5fe1daf3bfb2108bb9cd94ed8f703b3ff08384171870c69int),
        },
    );
    lemma_chain_add(
        base(),
        ExtendedPoint { x: 0x1841291b5ee70e669feec7699e488a9d23504dc8bd6ac07dab030729c8f5b4f3int, y: 0x5839bdd0676a75f8820107d1b1743b11a78e0488b9b420147484970a1444faa4int, t: 0x3229d0e0299bdc59c43941586c0b76bf1b44760a4805c590ac7156d570942500int, z: 0x3937736a38d17380e5fe1daf3bfb2108bb9cd94ed8f703b3ff08384171870c69int },
        0x39f6d3a994cebea4199cec0404d0ec0299a0824f3320420nat,
        SumWitness {
            a: (0x1ea2adc6241180df59a889d8d38ca83810c8c51579e80af5412d8008ca26d5bint, 0x6ddcdef6e68388ea6776b8b33c3955bf27226c488b983b52a34b5ea8b380c26eint),
            b: (0x42b04f2ca163d979434a47f91d8e1e98f3ddd1122e22bbbf5545676eab5ad39cint, 0xc574f15e4ce3cc9b7c95ae8344e1c778988ab4a0071878685623edfbdd21f24int),
            dt: (0x126c25d695eaec222aa4101fb2b0d7de24d6194d4b2ba3ff295b4b3c432abb6bint, 0x2f28e7012813485f76ff1b923c9605c9d23778b1b84dd7dfca3cce0af838d995int),
            c: (0x22ab84be2c4153b1c0fcbf1eef2bb6f093f115b62694cb32eba086922f42333int, 0x206459ab8ff80b294db351f4417d66377993c9ef33998b6d5ffd47a9c8a12b7aint),
            zz: (0, 0x3937736a38d17380e5fe1daf3bfb2108bb9cd94ed8f703b3ff08384171870c69int),
            h: (1, 0x64686b9a1b4486bec063b9366e59a315ced738f8c0b66da28ad9d897152e191int),
            s0: (0, 0x707ae6ebc651845f21efcf3b4fbcc5aecade5251771ee0921f879e33dd3aaf97int),
            s1: (0, 0x60c7d6918e437d8827d3dfcfe8923870431f0f21be6a05e37815793fb5885c83int),
            ss: (0x5de6e3af33191daf4ca5bbd82ac223f3a2adc7994989d5b784ea5523206780dcint, 0x41a29bb0a584f7c694cde9057122821baec7820f13b6c1a18f885e4036f29d69int),
            e: (0, 0x3b5c14f703d0af5aa8c7ad720a3ce7ea51da0e7f87ab5ac766dac0b6c59fbbd8int),
            f: (0, 0x18d319bea8d96857984acbbafa7dbad142090f5fa55d78469f0af097a8e5e0efint),
            g: (0, 0x599bcd15c8c97eaa33b16fa37d7887403530a33e0c908f215f057feb3a2837e3int),
            x3: (0xcb60d5113457828f42b1cc8836476b1e905f9e9721351b2d53e9365bcaaa973int, 0x1d759614ca7c2488d8958d9a45945d2e81aff524f0e4f1817b37d52c500ab535int),
            y3: (0x4d9ca1079d8cee2f2385213c21ead06bc4fdaabf77648a81e7198454d405db6int, 0x602af7b04cedad78dcf1fac5c64fc8f75e8755f250ffdfbbaa9178d2165bccddint),
            t3: (0x3369a2d56872246afce5eb73108855af7e6bf3b1c41c4531d1d50e512d423afint, 0x32ff2b9293cab6ef321f49399b0a120f266519ec823baf94c6c6badc3ee19a9int),
            z3: (0x133045f1a5b1af5a5f753c86b80bb2ca18b0d58e30bb7002f3b2bd70954b2d3cint, 0x4b648668f839c1e78aff05892a08b84bd0bc0d2c800444732139e0d5dd369fb1int),
        },
    );
    lemma_chain_double(
        base(),
        ExtendedPoint { x: 0x1d759614ca7c2488d8958d9a45945d2e81aff524f0e4f1817b37d52c500ab535int, y: 0x602af7b04cedad78dcf1fac5c64fc8f75e8755f250ffdfbbaa9178d2165bccddint, t: 0x32ff2b9293cab6ef321f49399b0a120f266519ec823baf94c6c6badc3ee19a9int, z: 0x4b648668f839c1e78aff05892a08b84bd0bc0d2c800444732139e0d5dd369fb1int },
        0x39f6d3a994cebea4199cec0404d0ec0299a0824f3320421nat,
        DoubleWitness {
            xx: (0x77c71562732c64f1e0cceaf244d70a388322914c0267e1fb3c0552a1c234d84int, 0x6f7abd49cbab197bb3fc2372d51afacaff2b4ff3d4c19190a1682645ac44af75int),
            a: (-1, 0x472ea095df263cc7f3db4953486dd3a5492540f2b3cca6e5e97d9b953bb508cint),
            b: (0x4fc68e81410e9630b4ad93963b7a1922b9e716acc81f173f57bd20a1503159bfint, 0x715d561a03418df5f68eac40ca92f2089e446b49cd0df1714f6d6bd2f4dd9d0aint),
            zz: (0x3107e096eec41336a89d225379a3135fa344021a54c8fffea97b6fed6152c523int, 0x51b57561d524f383d60fabd73e8d4070152625094a9faf5fea2c2d1efaf6933eint),
            c: (1, 0x2f7d437080ac69bf78e57fa67378a8dad68ea60f954102c0d4585a3ef5ed267bint),
            dif: (-1, 0x7033b42844e531ebbe8e05c7395c3370a0b8cc85e2d34fc0f2a6de55eddb383int),
            xy: (0x187016ff92bdcb840febf79d4e73a6c40c1126691c47b48bfff863bd26ee80e3int, 0x30f23b3da91de4824cab3220a9ae09fed5fdabb8fc397f321c68510a728d29deint),
            e: (0, 0x61e4767b523bc90499566441535c13fdabfb5771f872fe6438d0a214e51a53bcint),
            g: (1, 0x1e298d03796747a429288cdf577f73d9f191b55f84c5fe0ae05458d4898ed95int),
            f: (-1, 0x4652fcb2e0878802fce6e12f8ba126681c4819496309b91ed9aceb4d52abc71bint),
            x3: (0x3b621e2e24a2d424c795b8840dad342282ea4158b4187786f5ea5bbcecde9fd3int, 0x51e6141b2f72e5fc342cbb6dc6fe0c9caa1a314cc8e80d56ca63d555da935901int),
            y3: (0x1d3159ff0f8a2ddf9db1315071bc7bd6ad0a9779c7d33b6152e9c56a482037int, 0x3a0d8e4fa97e88ab9fe92a1de0bcac077e08ed3efb6927787450620b79b9a208int),
            t3: (0x5ebeed34add154f2f9e3a9f451a149e3c68fed533dc5f4fe0c85330cac4f1feint, 0x71874b303a3cd7733ef3af41c19c9b77a5b81501a04627085d4991552b8c5b36int),
            z3: (0x124c075649d6bb7baa4289bfb2bf6b3be498fcf116629c8e8e21ec48cb94006int, 0x32ab61606667a18178c80c1544e9000477cd56f08d654882f34a01a8689da1b1int),
        },
    );
    lemma_chain_double(
        base(),
        ExtendedPoint { x: 0x51e6141b2f72e5fc342cbb6dc6fe0c9caa1a314cc8e80d56ca63d555da935901int, y: 0x3a0d8e4fa97e88ab9fe92a1de0bcac077e08ed3efb6927787450620b79b9a208int, t: 0x71874b303a3cd7733ef3af41c19c9b77a5b81501a04627085d4991552b8c5b36int, z: 0x32ab61606667a18178c80c1544e9000477cd56f08d654882f34a01a8689da1b1int },
        0x73eda753299d7d483339d80809a1d8053341049e6640842nat,
        DoubleWitness {
            xx: (0x39dbb2bedfbce0a7b12b0e5d34c7d67041003cf5a53958830d45d12a809ad663int, 0x4c5e08634f26f101994e5237206b2770110f1ac3d35b32a6f0af1247897cdb9eint),
            a: (-1, 0x278f9eefda768c4699eb85d0e936b09542ae893f2ca329580f50edb776832463int),
            b: (0x1d1228efaf64ac32363fee76a93354939de3eb7d58540cd00edeb38efcd54379int, 0x1d67f51d1086b63f661e2792264ab694df74a317b111de4a42d99e612948dcc7int),
            zz: (0x1625798ba16f1a12c3edb14f3c4c370a6c6b86ef5260bf7101b725cdb2744bebint, 0x4d90e68470c7eedb58ef9853f537d8c6914dae21550881bde5f934dcd6c5d076int),
            c: (1, 0x273425b5b7f2606e7ea5589fe0cdd987ceddb83faa12a77ccbf269baad8ba0ebint),
            dif: (0, 0xa27a9d2c9efd60733cd5e3ec2ebfa006339e6277b914b0dcc774f564d3a479cint),
            xy: (0x290318b24451f67753d1314403c41aef17dc9aa5a8acbd55b30c3dbb5afcbc2dint, 0x5d788a7217a8acf122ba81f047c9979701b5af42b306d38bf8214c0982a9addbint),
            e: (1, 0x47036d9105b3dc9a123b2bd885f15728afadba82660f4b18f042981405535bb5int),
            g: (0, 0x44f7940ceafd42860009ad630f81672a22232c56ddb507a2522a8c189fcc012aint),
            f: (0, 0x1dc36e57330ae217816454c32eb38da25345741733a260258638225df240603fint),
            x3: (0x123b615f27600d631a76efef9a9aa1d534f2d582e8cbc963a0483cbc17904b55int, 0x3fe4f11cc82ff176379da7341c738d6c64ccf0c3bc74e1b351cb79ce81972636int),
            y3: (0x60a91d8d5e42ee7587a7b19560b2b0df8aaa9540439977b8736b6df2a5df6a4int, 0xb76fb8adfe0affc3a8af9fee001777e4f372338e5b91afc4cfe5dc5afc964f4int),
            t3: (0x638750ae041067cd91a4f5b4bf4a54c4eddf6b65eca4ff3ca235bc7ae0796fdint, 0x43c1a990a9799236b35f5d18dfaac1348c75eb7c02a0b5dd9f3a6628e7357e4fint),
            z3: (0x11b4e32a689921bbb73c535a3c816591be351f983325dcf2cfa3cb3762e6d18fint, 0x724f23b75c5119cbffaee83f850ca1a0049c56403875b1216fef88af6f3d37c7int),
        },
    );
    lemma_chain_subtract(
        base(),
        negative_base(),
        ExtendedPoint { x: 0x3fe4f11cc82ff176379da7341c738d6c64ccf0c3bc74e1b351cb79ce81972636int, y: 0xb76fb8adfe0affc3a8af9fee001777e4f372338e5b91afc4cfe5dc5afc964f4int, t: 0x43c1a990a9799236b35f5d18dfaac1348c75eb7c02a0b5dd9f3a6628e7357e4fint, z: 0x724f23b75c5119cbffaee83f850ca1a0049c56403875b1216fef88af6f3d37c7int },
        0xe7db4ea6533afa906673b0101343b00a6682093ccc81084nat,
        SumWitness {
            a: (0x3ad9ae93e36d033bb58901eec33c84f36f4428c46d1ae2582f4ace83d8c79a1eint, 0x104d664d28847817293307d825dddd4b47d1e478e22fe57b89110771b172ee96int),
            b: (0x8aa853f88843c2db34be5a6c278ea29f8b60d2622cd29fd86eeecfb03b3c9c7int, 0x67029a40273efc9ebbe0cd40aa77ecf6b4717ef84fa8bfef7b280175cd17a7f9int),
            dt: (0x18e22ea630e40dd365255f3be140a8cb8166c6720f9d1611c59015c50764d664int, 0x4804b73ef4c114650544acf17e8280ad41f451577933e19cd4f9e0637b3aa03bint),
            c: (0x44b5982e73bae102ed5e87d36fef982f4dddb3ccd4f8aee4a4df808a3ede7e8dint, 0x1c55a03ce14944ef4e751888f1074ce54d7f8702f585e3546681acb24718490bint),
            zz: (0, 0x724f23b75c5119cbffaee83f850ca1a0049c56403875b1216fef88af6f3d37c7int),
            h: (1, 0x362593a2625f76db1d9fd10c6b3f23ca885bf6e31da496c043908e87e8a968eint),
            s0: (0, 0x4b5beca7a810a1727228a132fc7504eab40413fca22dfcaf9ec9d79431608b2aint),
            s1: (1, 0x4e7a2cab4d8fef627fa28fd19ba7c19a97abbf79df4db594e896ec1ba05d0dddint),
            ss: (0x3303983ed5dbe3088692a83defdc3826753a3e9fccae33e26b4272725c761a19int, 0x2f9d3f94c2e851c0eb770e3dc2a75b76ae676e5053e02e83052cf591f9352b29int),
            e: (0, 0x2c3ae65a9cc25a53399d112cfbf3693a05e1aee22205e51700f3eca97aaa949bint),
            f: (0, 0x55f9837a7b07d4dcb139cfb6940554bab71ccf3d42efcdcd096ddbfd2824eebcint),
            g: (1, 0x1ab71ca113fce1731aea28c06c72167ffe5e39402dfd3876d6713562b65580d1int),
            x3: (0x20cd47405c3cb417bff6137f311a10574e6683cfad921a5602484c2e6562fb8fint, 0x91d78893ad541fb2865e33e7d4c15eb561359dc41cee0de7ff6694563d64045int),
            y3: (0xc7a5a1ef4b802b88522fa3dd0710db5d33a0a835808e00770949b0aad7ee5bint, 0x400aa3083fe108e769b4143325557f47d64bbe724d73924ab4e2bd27e0b9fb93int),
            t3: (0x14a899a57f6af538fa644cb43e29c25dcbc20718a6ac3f664ca93f84381e4ceint, 0x39d5859f1b1a91ed93b116df45a376affe0c0cccd127038522a7e481fbd5b2cint),
            z3: (0x13d004045ceb124f1aa4962245715452b8cc446de1b45a1e2f15ddecf68d5082int, 0x12fb9c88e65d696d950bea841a9cd29aba2bbec6686c440bfa4b864a336396faint),
        },
    );
    lemma_chain_double(
        base(),
        ExtendedPoint { x: 0x91d78893ad541fb2865e33e7d4c15eb561359dc41cee0de7ff6694563d64045int, y: 0x400aa3083fe108e769b4143325557f47d64bbe724d73924ab4e2bd27e0b9fb93int, t: 0x39d5859f1b1a91ed93b116df45a376affe0c0cccd127038522a7e481fbd5b2cint, z: 0x12fb9c88e65d696d950bea841a9cd29aba2bbec6686c440bfa4b864a336396faint },
        0xe7db4ea6533afa906673b0101343b00a6682093ccc81083nat,
        DoubleWitness {
            xx: (0xb7796a86cc53f83d6763dd723b01f271de198358e6ad445bc4476097c5b4a5int, 0x2f0d0d5eaa17783ee78ff643f1c1c5f68325d8eeddd2aca9efc4157b49b8ddf4int),
            a: (-1, 0x44e099f47f8605094ba9e1c417e0120ed097cb14222baf55103bea83b647220dint),
            b: (0x2360c8dde4e300e0bd0bdae1fae0881e279d4a1144e6c00d85eca8dbe1de54a0int, 0x5caa4fb317c901f5b23f1c73a48f3e937f2be5180278149a1ee55fecefd141c9int),
            zz: (0x31bbe8a2e63aee5abdef1a6c0006fcda6b78e94d4dc0a5fa7e46c1931c91d0cint, 0x1f4839513b34c97f42d0ef4c8b779a54569cae16b0775aca4a528660889ccf18int),
            c: (0, 0x3e9072a2766992fe85a1de9916ef34a8ad395c2d60eeb59494a50cc111399e30int),
            dif: (-1, 0x5c23f194915a805bcca49d587cf2ab80a52989ff1fb1f6b9f1568a95c675e045int),
            xy: (0x509107d3d5605a618f7ddaeedcfb92ab711b98275321b451e4b16553064de2cint, 0x5599b82148fbaf6ef878dc76a3e5f4205c17274f751603394509d260682b073int),
            e: (0, 0xab33704291f75eddf0f1b8ed47cbe840b82e4e9eea2c06728a13a4c0d0560e6int),
            g: (1, 0x2d9d42546db189b6caaf262fb2cd789cfc060c2924a567f02f214a71a61863d5int),
            f: (-1, 0x62fa770520e5740078471f9ea5801bf9a28a53fec3b50e5a9a7c3daf94dec5a6int),
            x3: (0x922b6696ab09feacbe0797e92d770da2c3e1773b52955474b5e9c5a05b3e621int, 0x53cdc3f4d6c4f0ad725b8caae2e58edef91a378fb9710b924640f058ecded03int),
            y3: (0x24412475c291695141f0cf8d578e602d16fb4998890e4ebdf19b7e0eeb18e005int, 0x2034682e988a417128033c5c3edb9d85f7e47d50accee6e39b9297428f2d6864int),
            t3: (0x881242fb61560069f60ab7cdff061c582984d0d0ac749dee6859f1bc4dba911int, 0x4b5ef909f6825264bfbd2171588658e447761ec39edcadf4e942ca1e9f7eb4edint),
            z3: (0x26f1eb6a3000f403f6196e50319f88300e331c80a319649c1006c2d4edc5c528int, 0x4ee94fcdacf5e2da88dc8fb3eceb179155200af5fe05f25125d4df4e4193dff6int),
        },
    );
    lemma_chain_double(
        base(),
        ExtendedPoint { x: 0x53cdc3f4d6c4f0ad725b8caae2e58edef91a378fb9710b924640f058ecded03int, y: 0x2034682e988a417128033c5c3edb9d85f7e47d50accee6e39b9297428f2d6864int, t: 0x4b5ef909f6825264bfbd2171588658e447761ec39edcadf4e942ca1e9f7eb4edint, z: 0x4ee94fcdacf5e2da88dc8fb3eceb179155200af5fe05f25125d4df4e4193dff6int },
        0x1cfb69d4ca675f520cce7602026876014cd0412799902106nat,
        DoubleWitness {
            xx: (0x3c94c665e8b2a6cedaed0aec7589571ba55dc1991367a9edfc9829a08d5b84int, 0xe4b3f0c0d7140ecadc3f60a872930f3fad948a6cbc92cbeba63780d25af3285int),
            a: (-1, 0x65a268471c2c3c5b8575e1fd8278a71158e45b5c34352f40459c87f1da50cd7cint),
            b: (0x8f248a027a59a278e373268e9f791c408c5c788165fe87cd1f554ce726c996cint, 0x6054325c812ce7e7dc908eed407d4ab376ac357eb76de97f7f2ad2db234ccda4int),
            zz: (0x35b6d9e1684699adbbdbfe7c7d8b341e48a1ba1aa3596a4d0a02ae2c4441ef92int, 0x3cd51b73c03d1d1db0ddf7b1692ebf38672809c40dee56f0ecc6bc73a03090d2int),
            c: (1, 0x5bc8f9456dcbcf32e82175ac8bba66b7a926f851bde51e2d98d78e8406121a3int),
            dif: (0, 0x54e35ea9aff5473a8e5531041fb5c5de23825dd7cc745c0c671b516b703ffd8int),
            xy: (0x1747d2c7af1a4f07bdf5ec252d3ae6c1022569e23539a3cd0f656d428168362int, 0x47880fbf18b3612310421abb3171359830c0eee77c31335437a94e1a9f2a49caint),
            e: (1, 0x1b22782b07c944fded4a5d6e5940932b0dc439cbf8640aa96f529c363e549393int),
            g: (1, 0x5208f35073bba6fb2ecc98e2b95419bf7bd2ecd7eba4bcc0c4c75acdfd9d9b1fint),
            f: (0, 0x4c4c63bc1cdeea08004a8187f098735401407d52cfc66addeb39e1e5bd3c797cint),
            x3: (0x11dbd421abdadb4e987aed28f542e6dabbad0c57203b0d341ce77e37b6b606d1int, 0x5dfb1d8add40d673b4e1dbf2452d22eb0d5071931f43e1b71e7a189a9175ef63int),
            y3: (0x3c11e17c66ad83874388a1d48676b691bc021cb88d21c0b67982628aa48c05bint, 0x7860ee0ee98b686b1d898822971a53fdefccbaa601b2a2fdbf54a064a9302cdint),
            t3: (0x13de87d9feb81c85e18f48946fd0c67e1823072b062d6bd3195464e648d3038int, 0x34bb78b1840bdb978493b0b59fcb770576f30c635aa0a1b902f58de24187c0d0int),
            z3: (0x35fdce1f0210922a1d4aa2065bef38fffa19a81565d5736fa768662991f1b174int, 0x42a776110e4c8ce79851801893ce823aa72bd1c0b532f6be33c2722202fb1890int),
        },
    );
    lemma_chain_subtract(
        base(),
        negative_base(),
        ExtendedPoint { x: 0x5dfb1d8add40d673b4e1dbf2452d22eb0d5071931f43e1b71e7a189a9175ef63int, y: 0x7860ee0ee98b686b1d898822971a53fdefccbaa601b2a2fdbf54a064a9302cdint, t: 0x34bb78b1840bdb978493b0b59fcb770576f30c635aa0a1b902f58de24187c0d0int, z: 0x42a776110e4c8ce79851801893ce823aa72bd1c0b532f6be33c2722202fb1890int },
        0x39f6d3a994cebea4199cec0404d0ec0299a0824f3320420cnat,
        SumWitness {
            a: (0x568fd361db8ddf9bc29e2d78a7daf0c9ff0d713767347f5d4ad5a7b64ba2c655int, 0x6e635a07bdcaf47e1b38c26beb37bd3093087dd572e732bc65f49b60facdf6f5int),
            b: (0x5afe2c2b316312536ca97d9f76b7e150f280ec609721bff5ba3b8390f1b6353int, 0x33da963cfdb1ab330dd806c708404ff83ac9891bd58ca25903070c5fa53a141dint),
            dt: (0x135dabdcb3ce5c2b3896879d514845c870009e35a2d1fa261f8f0ca91be3fce4int, 0x21b65ac95066a9cabbd1441abeb7f2de0378e1bb6606ec8f21dfe2a1deab2ecint),
            c: (0x2029cfae41efef9ab191880b99e86967726f8b2705b8aee7fb2c1ac63b6d1bbint, 0x4d0ea661788cce9e0c674b1e408528b8585f56ad2c1550a79e0bca21bf8c5ca5int),
            zz: (0, 0x42a776110e4c8ce79851801893ce823aa72bd1c0b532f6be33c2722202fb1890int),
            h: (1, 0x2e5048f191df2268f5d6f12ae9d635237a1462ee4875791668fba7c1a0080b11int),
            s0: (0, 0x65812c6bcbd98cfa66ba74746e9ec82aec4d3d3d7f5f0be6fa6f62a0dc08f230int),
            s1: (1, 0x4e7a2cab4d8fef627fa28fd19ba7c19a97abbf79df4db594e896ec1ba05d0dddint),
            ss: (0x44b6906d1bf9a3f1df893a41f8cd762e597b45c03b40bb3ef4d8b2e2ef9c6ab8int, 0x6d3cc9eaa2834351eff99f5a1845bb5ff141e5a79b8d89de0f39598d73d918b8int),
            e: (0, 0x3eec80f910a420e8fa22ae2f2e6f863c772d82b9531810c7a63db1cbd3d10da7int),
            f: (-1, 0x69867702bf5d3b91bf240d025ceb3187a28a1f16891c021595b6a7ff436ebbecint),
            g: (1, 0x1bc8751f5d3bde3d717ef32ecab1d2edabcd846ae149eb66d1ce3c44c2877534int),
            x3: (0x3946f8e2f79aee01a23c1193971cdb413de1b4bddae414d811541167475bbaf8int, 0x29482e7723780ed164297b81b966b009261f5f81606e3b888aaab9f14517d7fcint),
            y3: (0xb197113e9434981a56b9aa0c77f98e7514d26c082defc5f49478f7e6d44a0b9int, 0x3649f35b8e2bd0281ed9b055eff629b8daf2a09237c5ec6eda910bd7796363bbint),
            t3: (0x1923618f53f0653b6e5dc101441180509834184cec536c606ffef7f3fcd76543int, 0x2f80b8721dff33fcfb6ead329f7076e3f67d8e22ab3d08007b9680e9dcd8afd4int),
            z3: (0x194a34a794a4eabe3dd3ea3f5269fb1bfd7b6539ab64a27f518ba059aeb5ad5bint, 0x60d81dd7aa15b86fb002b66f69504dd3c58555ce310741d10b1f8b2a911f5a95int),
        },
    );
}

/// The multiples of the base point, from the multiple by
/// 0x39f6d3a994cebea4199cec0404d0ec0299a0824f3320420b
/// to the multiple by
/// 0x73eda753299d7d483339d80809a1d8053341049e6640841685.
proof fn lemma_order_part_22()
    requires
        extended_valid(base()),
        extended_valid(ExtendedPoint { x: 0x29482e7723780ed164297b81b966b009261f5f81606e3b888aaab9f14517d7fcint, y: 0x3649f35b8e2bd0281ed9b055eff629b8daf2a09237c5ec6eda910bd7796363bbint, t: 0x2f80b8721dff33fcfb6ead329f7076e3f67d8e22ab3d08007b9680e9dcd8afd4int, z: 0x60d81dd7aa15b86fb002b66f69504dd3c58555ce310741d10b1f8b2a911f5a95int }),
        same_point(ExtendedPoint { x: 0x29482e7723780ed164297b81b966b009261f5f81606e3b888aaab9f14517d7fcint, y: 0x3649f35b8e2bd0281ed9b055eff629b8daf2a09237c5ec6eda910bd7796363bbint, t: 0x2f80b8721dff33fcfb6ead329f7076e3f67d8e22ab3d08007b9680e9dcd8afd4int, z: 0x60d81dd7aa15b86fb002b66f69504dd3c58555ce310741d10b1f8b2a911f5a95int }, times(base(), 0x39f6d3a994cebea4199cec0404d0ec0299a0824f3320420bnat)),
    ensures
        extended_valid(ExtendedPoint { x: 0x3d3e0ce5bfe43f3a330023eaa38ac2e2d41350df240cae3351462280629cd3baint, y: 0xebfb7b5d26ef5b32814a3c6c607c2bcf6c3ef356770d05662004ab3cb082302int, t: 0x1893552eb9f307fc6c01336e6278006024412c76be7be6bac41a1dd277bac2bbint, z: 0x1afc4f1d4c4a3d81f3ab58ed10608ab57a6f40c9c0583789d8db53d59c4b0b75int }),
        same_point(ExtendedPoint { x: 0x3d3e0ce5bfe43f3a330023eaa38ac2e2d41350df240cae3351462280629cd3baint, y: 0xebfb7b5d26ef5b32814a3c6c607c2bcf6c3ef356770d05662004ab3cb082302int, t: 0x1893552eb9f307fc6c01336e6278006024412c76be7be6bac41a1dd277bac2bbint, z: 0x1afc4f1d4c4a3d81f3ab58ed10608ab57a6f40c9c0583789d8db53d59c4b0b75int }, times(base(), 0x73eda753299d7d483339d80809a1d8053341049e6640841685nat)),
{
    lemma_negative_base();
    lemma_chain_double(
        base(),
        ExtendedPoint { x: 0x29482e7723780ed164297b81b966b009261f5f81606e3b888aaab9f14517d7fcint, y: 0x3649f35b8e2bd0281ed9b055eff629b8daf2a09237c5ec6eda910bd7796363bbint, t: 0x2f80b8721dff33fcfb6ead329f7076e3f67d8e22ab3d08007b9680e9dcd8afd4int, z: 0x60d81dd7aa15b86fb002b66f69504dd3c58555ce310741d10b1f8b2a911f5a95int },
        0x39f6d3a994cebea4199cec0404d0ec0299a0824f3320420bnat,
        DoubleWitness {
            xx: (0xeb3518397ff4e134b86c9f7c32286ce36ebdb2a5eab06d5c4034089e0335065int, 0x4163b92d0ceebcc15a3dd2179d1c6d942cb639d312e0f39f4694ccf97d4defabint),
            a: (-1, 0x3289ee261caec086d8fc05f06c856a7127076a2fed1d685fb96b330582b21056int),
            b: (0x196c5db142dfea139e02872593497f85f7d6e607ee55a2ffa3a0d0cb5953c9d0int, 0x2fc5d0fb8cd20623240173fa44e5763d14c67535431b68cd49ba9fbb62860c9int),
            zz: (0x50e6d6405842c2be087f7c445a10040ffef9fbbe784466260e19cc2182ca464dint, 0x267cf48de247d002ec3d54ce818832fbc70347717bbca99f2fb289835758d46cint),
            c: (0, 0x4cf9e91bc48fa005d87aa99d031065f78e068ee2f779533e5f651306aeb1a8d8int),
            dif: (0, 0x2f8d911663e1a024a6bbeeb0c837130d55bb02dc98ebb1d2e4cf8909cc89af8dint),
            xy: (0x13550bb47560ba6031a521678609d8da69eca6f2b541b7084963fc7017a49fc7int, 0x4245fd4841bd52626cf1775ca0ec58ae26c8dd0df8f213c40bdefa3f3bc0994dint),
            e: (1, 0x109e533d59dd277ca6a916b13836d956f9d41618f1e5cb8917bdf47f77813299int),
            g: (0, 0x35864b35d57be0e90b3c1d3010d3c1d4f853d183414f1eec8e06dd0138da711fint),
            f: (-1, 0x5c7a096d3a89be2b65fb4b9b176533e2be0ae6a349d427ad2ea1c9f98a28c848int),
            x3: (0xd41b32d41850a8dbada0a8adf5802ae450c5bbf6e8416790e23bb36deba9971int, 0x2081e54a4307e7677e8aa4019d80862679ce7837c70adb51ccfae0b80f0b2997int),
            y3: (0x15f495dffb43a66c3ace05dbe5a17023709742e71e22d7a41cc6c8571ef1a9f7int, 0x49eb96126ad833ea4c9d1716f50e2856a1454f3814eb3a1b2644814bc249d51cint),
            t3: (0x6d11833afd55c75c634c4e48aef577fdc06fffa9d08bac11d6fafe8507b9242int, 0x2c33603fa808e2fec5c18603e4311c5a78390a696744811d11964016d324e303int),
            z3: (0x2ab266403223dd9cc23fafdb1297810f34376d175109240bbc241f9aa484e519int, 0x4a73945f9ecada5a786a0b29cacb7bc67efd5328952162d5ed96e3846423239fint),
        },
    );
    lemma_chain_double(
        base(),
        ExtendedPoint { x: 0x2081e54a4307e7677e8aa4019d80862679ce7837c70adb51ccfae0b80f0b2997int, y: 0x49eb96126ad833ea4c9d1716f50e2856a1454f3814eb3a1b2644814bc249d51cint, t: 0x2c33603fa808e2fec5c18603e4311c5a78390a696744811d11964016d324e303int, z: 0x4a73945f9ecada5a786a0b29cacb7bc67efd5328952162d5ed96e3846423239fint },
        0x73eda753299d7d483339d80809a1d8053341049e66408416nat,
        DoubleWitness {
            xx: (0x91d89db79f7df8eccf5fb00ac856b5d8f100085940dc33287c9157a69e8de58int, 0x1fcf1e86cc0e77f0279293b2873fb33a40d093830f2b06eceec22149e1d2d8b9int),
            a: (-1, 0x541e88cc5d8f05580ba74455826224cb12ed107ff0d35512113ddeb51e2d2748int),
            b: (0x2f22639a854e018a20a45f1f46695bd59a558398f8dd94ec4bb24894392a95bfint, 0x102ee7a3ebb357f081083db9a687a4b5bffd2e49ea72dc0647d55fdc72350551int),
            zz: (0x2fd070f24eb08a5ba17f195889a6b747de18ac92f74dab79dfafb373c4fa712eint, 0x27189ee793a532dd931c1ea56af866ea87bd7b5de88b6aedc632ec5935746b93int),
            c: (0, 0x4e313dcf274a65bb26383d4ad5f0cdd50f7af6bbd116d5db8c65d8b26ae8d726int),
            dif: (0, 0x43efa12871dbad678a9f069bdbda801552efe2360660790bc9687ed8abf821f7int),
            xy: (0x14ba5a66a8261a13c74937efa8b06e319bb885a6e01267d2fd56480bf347f2f9int, 0x44ba45460dea4d119b73b93f8bb0187ea23ee40b0393cb182c946983459a3c8bint),
            e: (1, 0x1586e338f2371cdb03ad9a770dbe58f7f0c0241307293a315928d3078b347915int),
            g: (0, 0x644d707049425d488caf820f28e9c980d2ea3ec9db46311859133e9190622c99int),
            f: (0, 0x161c32a121f7f78d667744c452f8fbabc36f480e0a2f5b3cccad65df25795573int),
            x3: (0x41b0cefb73ad6cb59c111e50a074f0d6c683d03867c70de46da6c72c9e9d879int, 0x55e290d065b6979f6190b20cb7941bbcb920fca6758671fb79d2dd3a6ec984f6int),
            y3: (0x3ac76ee56548dec0cd064550e7c7feb3a417266ef559b3f219482dfea129214cint, 0xabebd1c5ae416e618a4cbc8a91a366cebb56eccf1105b1d30e97759bc879f53int),
            t3: (0xc9d7a3eee2e1c49cd885df946e00c0ad5290c719d771d505624646b06ec7d0bint, 0x7252ddc53c2161b1019313806a48b701b0161478f46c9cee691115475fa80b38int),
            z3: (0x13214445335181dc398bff8c94cfa85c699dd9f7333aee5fd6ec85418bc5e15eint, 0x3a5b04cb182272aeaa10703b1e85d988568f6a6cbb404968497271911a73f45dint),
        },
    );
    lemma_chain_add(
        base(),
        ExtendedPoint { x: 0x55e290d065b6979f6190b20cb7941bbcb920fca6758671fb79d2dd3a6ec984f6int, y: 0xabebd1c5ae416e618a4cbc8a91a366cebb56eccf1105b1d30e97759bc879f53int, t: 0x7252ddc53c2161b1019313806a48b701b0161478f46c9cee691115475fa80b38int, z: 0x3a5b04cb182272aeaa10703b1e85d988568f6a6cbb404968497271911a73f45dint },
        0xe7db4ea6533afa906673b0101343b00a6682093ccc81082cnat,
        SumWitness {
            a: (0x6c7ad5b682b922e4f170b6d842f668bfe428345ba5d67f5a01529054273fbf6int, 0xc9c1deada1a140a2fc2abbda5e640f93279ec7b989dddb872371df01dcc99ccint),
            b: (0x81f40ab8f335ac9c59f5960c8dd2485129ab1bb5f9f6cd8814b6d49de2540f4int, 0x4379508d65b4befc814973ea81c7e93bc30704c496aa2a41feafcfe219644d9cint),
            dt: (0x29fc3c65a8118f110f6075a04ca10a96ee202810b927c3582e55bdb265a5f42aint, 0x6e6f66d0af96bacba90de62836fc744488b670b6a4d8e283c9b0464e87a15d8eint),
            c: (0x513003199778b024024d6d74d38f7910d39782ecde56bf5eeaf851f6082d09fint, 0x3e941e3b6bbae4c9909eafb044071e3c7c111c8f53170f82078c00bdb0b6d6ffint),
            zz: (0, 0x3a5b04cb182272aeaa10703b1e85d988568f6a6cbb404968497271911a73f45dint),
            h: (0, 0x50156e783fced306b10c1fa827ae2a34f580f1402f4807fa70e6edd23730e768int),
            s0: (0, 0x60a14decc09aae857a357dd560ae5229a4d66b736696cd18aabc54942b512449int),
            s1: (0, 0x60c7d6918e437d8827d3dfcfe8923870431f0f21be6a05e37815793fb5885c83int),
            ss: (0x50ab7ab55adb1b9c63a89c6720cfa191388b7291e414154bb9f1ab1cdacbb3cfint, 0x3f0b06f2b5eaf75aaf88af4d88ede6d0daaaed739a059bca141160cf5c8c198cint),
            e: (-1, 0x62e33fcd9fb9a19c31b667ad6ae194a138e7a0366abbefcea32a72fc255b3225int),
            f: (-1, 0x6fb48de2d6050b2d4cab9892e42093512e3bf1e0682795e541e670d269bd1d5fint),
            g: (1, 0x5017bb35a3fda30077547e358eb1fbf7ee2e2f90e58fceb50fe724fcb2acb5bint),
            x3: (0x5f491054bf649f7dd0b087e72522a785361af21f2d346e08af1284578ad0f626int, 0x652decc9c479330a48504f83b587cac8056741b7c75691183fcfbdad905d695int),
            y3: (0x37540d6ea1f0ae9c10d170be78f3795e2b51feb4e4a88585995b64fbf4199f9int, 0x73dd9b7bc075018449b434c255dbcc0a18c81dfa9d2135b744ecadc415b01fffint),
            t3: (0x444fdddc29e327cfc112cd1fd52470e1d75d245dfcfee40577111d1f303df072int, 0x29d70c017570dd2ba0698d79b2e1b7310770bf223951fbd05af40bb0a0fdd196int),
            z3: (0x4d2cd1f334a59b48e8895b9c94d6c1c176b83724c16babbabb5ec30892ad051int, 0x5040644b917dce3d48ff8347dac44e84191d67881db285d60ee6866729eef574int),
        },
    );
    lemma_chain_double(
        base(),
        ExtendedPoint { x: 0x652decc9c479330a48504f83b587cac8056741b7c75691183fcfbdad905d695int, y: 0x73dd9b7bc075018449b434c255dbcc0a18c81dfa9d2135b744ecadc415b01fffint, t: 0x29d70c017570dd2ba0698d79b2e1b7310770bf223951fbd05af40bb0a0fdd196int, z: 0x5040644b917dce3d48ff8347dac44e84191d67881db285d60ee6866729eef574int },
        0xe7db4ea6533afa906673b0101343b00a6682093ccc81082dnat,
        DoubleWitness {
            xx: (0x584e8fdf01e215fdb08653fe93fe54947b672b4ceeb42932faed0005c0b60fint, 0x232d2955d2374d50c7ec6bee46c6dd9e94a1b4bff83a62728ed252bda9eebcaaint),
            a: (-1, 0x50c07dfd57662ff76b4d6c19c2dafa66bf1bef4307c3f98c712dad4156114357int),
            b: (0x73cd91dceddbc178a857291059d9e5fb9abb20efdc81c56ee2361dbab68ce081int, 0x37121668da61187d52263eb9bb7760f7f4c4e95bd4605a9a8d44c5aa2212df80int),
            zz: (0x378de153189f42e0f129704e9e370e27c48edc94d24a70027c592eaca464dec8int, 0x4e40a8d61deb738f23af191fb443df0dd1adc6f6e0564914d2990d1fd2a25dc8int),
            c: (1, 0x2893aa59123969d614245a375ee5e6164f9de9eac0ae362aa5321a40a544bb8fint),
            dif: (0, 0x19ae67947d05177a19272d600763996eca5705e733639ef1e3e8e79733fe63d7int),
            xy: (0x651feb90b9dfb35c54a7f194c1d9ef6aaed1ad9685e303f7197d13fd3bbaab4int, 0x57ca944a58e6c57f20bef2bfa6bab10a4ffaf8a853a775d417bbe26bcd811eb7int),
            e: (1, 0x3ba7814188300db60e440d7743d38a0f4c384d4da7508fa92f77c4d89b023d6dint),
            g: (1, 0x13e4ed130829cb2c8a39d2cb74b083596023349bdc25f827fe7272ec782422d6int),
            f: (-1, 0x5f3eea0d1f8dde9ea94f509c1f6c75486442eeb41b761dfc594058aad2df6748int),
            x3: (0x3102f11e8e479dd177f1293399b252ee2ca6a97f9f7540b6f04d8a685339ecaaint, 0x6e8cc9ef0092fa2aabd51114bf93384ab3110254edc4b62e09800544181134feint),
            y3: (0x468389d9fde76367758f8d8b9d81d0d03a59c3e2d01f22e9ba5eb98805c7479int, 0x4feaf6e3bd2b32eb5b0c3c1b864a7e4fa42af87212a20a4fc8848cf491c98f41int),
            t3: (0xd370d5ef9b420c4b823de3f0c2fa8c2a2361cbb8f48f6500d7301773eeb955aint, 0x2abc9c3ea18faf89741280cbcea4cef1ca51a97277d671be9b817e7f76dd2831int),
            z3: (0x10584e4c7691a9f9e9238fee0df96c99a3dc40e46a626e50851944eddb9b73a3int, 0x4958d1e89a32d563a8f707968462a2c7702fd18f67acdcf958f2a3b75cfc728dint),
        },
    );
    lemma_chain_double(
        base(),
        ExtendedPoint { x: 0x6e8cc9ef0092fa2aabd51114bf93384ab3110254edc4b62e09800544181134feint, y: 0x4feaf6e3bd2b32eb5b0c3c1b864a7e4fa42af87212a20a4fc8848cf491c98f41int, t: 0x2abc9c3ea18faf89741280cbcea4cef1ca51a97277d671be9b817e7f76dd2831int, z: 0x4958d1e89a32d563a8f707968462a2c7702fd18f67acdcf958f2a3b75cfc728dint },
        0x1cfb69d4ca675f520cce7602026876014cd0412799902105anat,
        DoubleWitness {
            xx: (0x696bcd601d41f260f2bbfe824edf3535b3dc5e3b5c2d1b797494f9f90345dbbeint, 0x71e9372eb09ebcfb76905569f88d0615cbad6198548ea781e02a2fccb16e5046int),
            a: (-1, 0x204702478fec04cbca9829e1114d1ef8810426aab6fb47d1fd5d0324e91afbbint),
            b: (0x3717da07da291d36d9414624a49fcfed842611572adcdb96e946e305d3c35aa2int, 0x3ec1fc01139d1fc2460b89ba9e07cc68f5cf41240c5858fae572967e127853dfint),
            zz: (0x2e67f2911f78297ba8c522e12c51a23cdb331a386cfbef0ecba7b894315ad191int, 0x4af3cc2c83cd37f10106009c6a876c554b42f9aaba960d2974d8d7d9df7f1018int),
            c: (1, 0x21f9f105ddfcf299ced22930cb6d00a542c84f52752dbe53e9b1afb4befe202fint),
            dif: (-1, 0x37301b768eff1dd2a9d7d0eb7caedd8be5fea5499f15b7813a6339b33c195bddint),
            xy: (0x4c35ca98a01d6eedcc2ab1b3e7d6f2de97e92d69c1b8fb2e6b5e5af5969b3cd3int, 0x5a7cd59c152db9512071016540631c38b645723cc7351cd0e82150379bcb19abint),
            e: (1, 0x410c03e500bdf55a0da82ac27724606c18cd40768e6bdda2d042a07037963355int),
            g: (0, 0x40c66c258c9be00f02b50c58af1c9e587ddf838eb7c80d78054866b0610a039aint),
            f: (0, 0x1ecc7b1fae9eed7533e2e327e3af9db33b17343c429a4f241b96b6fba20be36bint),
            x3: (0x1147f38de09eacbb150749c38df9b034c000f0e360850f9d0592ea549f37ca74int, 0x228f854f276dd16f105532f877dfd32b8d6464bde3eb0532f551a297cabb0913int),
            y3: (0x1ed6188bf11787a294c89013632286874e398762f5f8c2e9e5b3b556a99a710dint, 0x4a9bb23f54369ddbef6d736d0afa798b7cf37cc6ae314353cb3bb5f91d5c68e5int),
            t3: (0x1ef739c504b26564e3c99f8531fbc33e7ec3fc92af542d0d52424efc6f426853int, 0x103ac45bad5a2445066721661a536d683abe6d886c9d3256f8dbf11ae0f41f0eint),
            z3: (0x1135766ee8a315b59b3d55fbb81e780d0186c0d85d3bfcf74c42d6486ae7f72cint, 0x14bca9c3c845b90e8f828eeb279c66f75eff0b7eaf3e1f422b8ff85ba1171832int),
        },
    );
    lemma_chain_double(
        base(),
        ExtendedPoint { x: 0x228f854f276dd16f105532f877dfd32b8d6464bde3eb0532f551a297cabb0913int, y: 0x4a9bb23f54369ddbef6d736d0afa798b7cf37cc6ae314353cb3bb5f91d5c68e5int, t: 0x103ac45bad5a2445066721661a536d683abe6d886c9d3256f8dbf11ae0f41f0eint, z: 0x14bca9c3c845b90e8f828eeb279c66f75eff0b7eaf3e1f422b8ff85ba1171832int },
        0x39f6d3a994cebea4199cec0404d0ec0299a0824f3320420b4nat,
        DoubleWitness {
            xx: (0xa4da0e1809638464761d0f9a07743ed58f939e9e029a8d419433344d68be6b5int, 0x4c4a8342ed0c24b94dfdaa6ca808f5ada22da0b45cf6ee159fb26d2678870b4int),
            a: (-1, 0x6f28ff1efaccbafc9e59fd613f2148aa799ac9f7ba2eed1da604d92c98778f4dint),
            b: (0x300405dd08b97f4d137e56944014371909ee2655f5c7770a2cd72073446ee089int, 0x44d7d787724b461ad86d951d2d68d2e0e8894373b71b7d526c9bb0af2d23fc50int),
            zz: (0x3b599a38ab8652e40ba713d72405fc913490824f24f70136ce76df1aeb943a2int, 0x72c54657d7d937c98b8f9b06cd8b92b7350c6bc707b1021ec057f7c0908c2622int),
            c: (1, 0x719ce55c8614f24ae3e55e0591754d69165b338b0f63a83e80afef8221184c43int),
            dif: (0, 0x2a512797888174e1c5ec684411b875c99111868403136fcb3969287d6b5392fdint),
            xy: (0x163e0371aeb962a92320247781e133b11c438ff2acdf55d1339cbf6a1a76c6abint, 0x526909795f7dc625b285234acddc16d842a576e4fe58eab4b929711ea45c0f54int),
            e: (1, 0x30e46b9f955e0f0331d06e8d921655ab318d49c6fcb3796a7252e23e48b81ea7int),
            g: (1, 0x40132f53437a83cf438dba7662e843860e666968714c0e7112a089dcc59b8b9cint),
            f: (-1, 0x4263f149e7030ecc92e23478db14ce224bc8d9e061e6c23191f09a59a4833f5aint),
            x3: (0x1bfff6dd0c67efee1d9cb6e09c74f6074902012088d38f200f2c9da367823448int, 0x3030916aa75468f4b2046c5080c249eb6d5910322051df09f99ebc592438ab6eint),
            y3: (0x17639c5b9c456504e88a9e82ca54d29fe632c837c2a4b6f983e04e80682fc8a0int, 0x26470044b3a7d94768bc8a85c735e6ba76c898df0e599d749e8341f60fbc288cint),
            t3: (0x11d8d5e4a20e15ef8621bdc681af5a5fc5b107467a610ca9bae53374834e75f7int, 0x7016616ced83e70a5cdc7e184859a6c3ad168c589b83ff227420f79619481314int),
            z3: (0x24b1dafcfd337f83bb936e34cb26ee9fb91dd4e92dbe4db9faf9f0039f1d45fcint, 0x17f4b14827c0e7a4e4312c4ad868862c9a8d8bf4679fa9763061477b81c132dcint),
        },
    );
    lemma_chain_double(
        base(),
        ExtendedPoint { x: 0x3030916aa75468f4b2046c5080c249eb6d5910322051df09f99ebc592438ab6eint, y: 0x26470044b3a7d94768bc8a85c735e6ba76c898df0e599d749e8341f60fbc288cint, t: 0x7016616ced83e70a5cdc7e184859a6c3ad168c589b83ff227420f79619481314int, z: 0x17f4b14827c0e7a4e4312c4ad868862c9a8d8bf4679fa9763061477b81c132dcint },
        0x73eda753299d7d483339d80809a1d8053341049e664084168nat,
        DoubleWitness {
            xx: (0x140821ab1d1b56e84245ba901bcd265ef0b951f02c857bf73608f50f442174dfint, 0x4cad704eef1baa40b38a7e7f1dcda6e8f3327621e4b67b6016313f0e1ecaae65int),
            a: (-1, 0x274037043a81d3077faf5988ebd4311c608b2de11b47e09ee9cec0f0e135519cint),
            b: (0xca371f7c797e5bfe7b9586746ca1c528f8f9d27a1729f3638d06d954a4c3047int, 0x30158638538f85e3fc6bdc37d41837d5fac598e2bcb62ea42bf05ecdb1bfdc49int),
            zz: (0x4f347db63b7c8cc6bef84a023971652eb37234c59c4b06785fc346e4d2e42efint, 0x5e3adba806c9ba4ab2ead10ddaab8db76593ea98d7f5c2cfed8b3cf824a46a21int),
            c: (1, 0x48880ffce3f5f74d329bca13abb54369776a312eafed29a0db1679f14948d441int),
            dif: (-1, 0x6b18581f108fca6bb67d5559215dd14bb98339015e900df9bdde62222f757554int),
            xy: (0xfe94d49dca1529e2152e06c17b11a0d4e33ad7240ca8e5a8f7eb405267a8bc5int, 0x26a11d4c724b6085dbe935de3f59be66b0ec5358b573520141145b85da146463int),
            e: (0, 0x4d423a98e496c10bb7d26bbc7eb37ccd61d8a6b16ae6a4028228b70bb428c8c6int),
            g: (0, 0x5755bd3c8e1158eb7c1b35c0bfec68f25b50c6c3d7fe0f4315bf1fbe92f52de5int),
            f: (0, 0xecdad3faa1b619e497f6bad14372588e3e695952810e5a23aa8a5cd49ac59a4int),
            x3: (0x9dd92ce21ac7cb8caa3e27389084053f454d6eb6922f6c545a679c6e4a2d3e2int, 0x263fbd49612cc5b5a2325944f4003e60d0965574b134e256a6f1c0720e52a0f6int),
            y3: (0x50ae2cff2ea6d2a19f42f4226584c13a125c5cdfdaea177f83fe7ef6727cb952int, 0x15d0d8da317117b0848d45862b5dc759657a043e94833eb82782adf2d898fed2int),
            t3: (0x475f3689779840b32516e11cc8521353972ec357285ad3f261100d31b3ac4c62int, 0x7018afe4fcec9d4de4fbfc6a42ca1a3c9e107598b240b2db4607f22a29f61296int),
            z3: (0xb26f68a8508bd540fe969610ef5b0d9ffeff6edfbbddc06d672e40bd1511137int, 0x2462babfe75777c73bdf8b74a86153464d6fcfb353fdacc5bc7cc48ab390f27dint),
        },
    );
    lemma_chain_double(
        base(),
        ExtendedPoint { x: 0x263fbd49612cc5b5a2325944f4003e60d0965574b134e256a6f1c0720e52a0f6int, y: 0x15d0d8da317117b0848d45862b5dc759657a043e94833eb82782adf2d898fed2int, t: 0x7018afe4fcec9d4de4fbfc6a42ca1a3c9e107598b240b2db4607f22a29f61296int, z: 0x2462babfe75777c73bdf8b74a86153464d6fcfb353fdacc5bc7cc48ab390f27dint },
        0xe7db4ea6533afa906673b0101343b00a6682093ccc81082d0nat,
        DoubleWitness {
            xx: (0xc9ea6d2471926547bbacfc977986d65bef3bf684d1b3fc9032a8321b60fdaeeint, 0x64f39cb3681aa1c5706a172e3ce6e2cfc995b04b54f17c2d7de6d72ab4bc9176int),
            a: (-1, 0xefa0a9fc182db82c2cfc0d9ccbaf5358a27f3b7ab0cdfd1821928d44b436e8bint),
            b: (0x41af9fcbcfbc445783968106ecab1169c5497aeb758c36688e6be796667b519int, 0x262b843bb28732adf76bdd9ace1bf396f823458e8e2f722fa7b51919909daf2bint),
            zz: (0xb6b8d80418febb0e56218954f929ad2ab9b8b031733ea81d36634629344ef64int, 0x1564269657ae8309845c83b458fe75ea95aff61a9935fc554a7f96f1ed0ba1a5int),
            c: (0, 0x2ac84d2caf5d061308b90768b1fcebd52b5fec35326bf8aa94ff2de3da17434aint),
            dif: (-1, 0x5cbc2db73899261cfe9dbb470840d9a3e5c2522c1cdbc9a0da640fb9baa5bf61int),
            xy: (0x732a5025a48baf1d9d67cbe4d5bcf4e2ed28814eb244a926c798f551e01d9e8int, 0x4980874b500f93080b41441847abc9e4c1e7f6e2d0a9e189865f1c3bf8a43e4int),
            e: (0, 0x93010e96a01f2610168288308f5793c983cfedc5a153c3130cbe3877f1487c8int),
            g: (0, 0x35258edb740a0e30ba3b9e749ad6e8cc824b3946393c520129ce41eddbe11db6int),
            f: (0, 0xa5d41aec4ad081db182970be8d9fcf756eb4d1106d0595694cf140a01c9da6cint),
            x3: (0xd247d53f268917420da7cd216047b011c2cd03d0ff10fec8a5bd26d0a3f161int, 0x691283a6b5150f7ab76c1e9e17b69d0a8125a9db46b4645266c65d11abada6ffint),
            y3: (0x2a838e1902941f9cfc9fe7428606684e066e66b306eb7f20a4cec4d603d26e6fint, 0x18b2cdfce0f916c8840f444c87b4a17e8fefc76b5cd8326016ef85faa3f29d87int),
            t3: (0x7597fae6aa022914e9e1ca4c5b5d2ec949b41dadd2d4b0ae9faa076a0ced3cbint, 0x6415e7530700405c5e487e6cf2a8f3ed63af3c47908caffecf6c2be6ab2ed6fdint),
            z3: (0x4c05ef7d67b10d2fbe690d23afe8631ab5edfc8f8ee58cb0540468bcd3fc425int, 0x42b1b10c2c7f2655e7ff024b16b2ef9c882712257935f7012c0cc129b2ebc0a3int),
        },
    );
    lemma_chain_add(
        base(),
        ExtendedPoint { x: 0x691283a6b5150f7ab76c1e9e17b69d0a8125a9db46b4645266c65d11abada6ffint, y: 0x18b2cdfce0f916c8840f444c87b4a17e8fefc76b5cd8326016ef85faa3f29d87int, t: 0x6415e7530700405c5e487e6cf2a8f3ed63af3c47908caffecf6c2be6ab2ed6fdint, z: 0x42b1b10c2c7f2655e7ff024b16b2ef9c882712257935f7012c0cc129b2ebc0a3int },
        0x1cfb69d4ca675f520cce7602026876014cd0412799902105a0nat,
        SumWitness {
            a: (0x84b7074e23216f3da5df3dfa4cb9c7dc6a6128487bc653decb19fc7fc83e91eint, 0xa98f26666a95b6b6d485d177f1b7b0d6bc521652f34a6405acaa9151d24948fint),
            b: (0x12ab56585eaf39403787f9697af096b31ad055c8aa70b7eb9015e935bb389341int, 0x4c2a1ee66bca38b6d8f459984b47f1428f7a15dbaa4bd1c052a6e9241b43690fint),
            dt: (0x24c1a03f10450f832340183b5bf1015da16599f989070bf6dd29603097687e4bint, 0x62d12598acbc80f02402017201d1258c032639a1245c6371967cddc5456f6ca2int),
            c: (0x48a575451b252eb6b8ed933f7ebaa06158d5ad3cc4e9eb38e219f722d72b6b2int, 0x6d0583e7145ec809250810d6b309350db769a079bd0d875ab9d36f9937b79e60int),
            zz: (0, 0x42b1b10c2c7f2655e7ff024b16b2ef9c882712257935f7012c0cc129b2ebc0a3int),
            h: (0, 0x56c3114cd2739422463cb6afca636c4ffb3f3740d9807800ad7192393867fd9eint),
            s0: (1, 0xdd7aa506c70a8fb08418ae295c96683bd57cd43a38e3ab37db5e30d4fa04485int),
            s1: (0, 0x60c7d6918e437d8827d3dfcfe8923870431f0f21be6a05e37815793fb5885c83int),
            ss: (0xb8e5cf9568dc0771ae7229c2a1bfea8102b8f2fa0359945c9e544d89b7d83b2int, 0x60e553942733c7dc186e643b15be30c3be67e40f2e5e5290db5f8e982bcd585dint),
            e: (0, 0xa22424754c033b9d231ad8b4b5ac473c328acce54ddda902dedfc5ef3655abfint),
            f: (-1, 0x4999d47841bddb94f630c97c6d4b9294247b15aebc26cba57239518f7b342244int),
            g: (1, 0x3bc98da017407116d9cd3b19c01a4ca4ebd30e9c3645225ce5e030c3eaa35f02int),
            x3: (0x66f0cd9636af7efe2a7b3739f76c6334b4fda7a43209118ed25f7cfa5ae3b04int, 0x122e08298db61301049e2e460bc239376d4202833fca5cdbb35a2ba1ab173db8int),
            y3: (0x2cbed634a5e50f4cca37f0e5f22c9916f12a54d287797eb72ee3ac67bd817888int, 0x32a36fa256b18d38a7cf654e12cd8b6b562247658443d35d2dc5f3e4320624b4int),
            t3: (0x7959212ea23ea4c0d4505f56a18f055978d004dba183ddd9c09dd670efccf17int, 0x213ef04cc2f7b9ce61e289b4ed1d04948b5519e81e05e4fa6e51c6fd9f18f5cbint),
            z3: (0x25f53b4542b20acae24177ec9b8d296004be6c09f6abc22e3da61a2c96177157int, 0x3219b06b551a5e8294340bfd1aeb945fce1c54c554f7712905c42c51b2540f31int),
        },
    );
    lemma_chain_double(
        base(),
        ExtendedPoint { x: 0x122e08298db61301049e2e460bc239376d4202833fca5cdbb35a2ba1ab173db8int, y: 0x32a36fa256b18d38a7cf654e12cd8b6b562247658443d35d2dc5f3e4320624b4int, t: 0x213ef04cc2f7b9ce61e289b4ed1d04948b5519e81e05e4fa6e51c6fd9f18f5cbint, z: 0x3219b06b551a5e8294340bfd1aeb945fce1c54c554f7712905c42c51b2540f31int },
        0x1cfb69d4ca675f520cce7602026876014cd0412799902105a1nat,
        DoubleWitness {
            xx: (0x2d9d7adcb8bbc7f2513f824261db623b7abdd03ccf9ade3071535353d70181bint, 0x59d11b88b9110beb4eaa10e80ec85444633f58478df64676600a62e5b8811c25int),
            a: (-1, 0x1a1c8bca708c715ce48fc71ffad983c0f07e4bbb720815889ff59d19477ee3dcint),
            b: (0x161e884a89b6d523521e5871abdf658e443396ba06dc616e344df5a66bcd072eint, 0xbb3cced7ded09708633a652186949e0331f1dd7c75b9eeacaec90a3a1e61762int),
            zz: (0x15a6d574998eefb6420109c225f6c458150ad4c5dac47b71c3087796842d11b4int, 0xc343507835bfc5081a31399ee6b19268c06ed40401d063928d00fd998e1b5adint),
            c: (0, 0x18686a0f06b7f8a103462733dcd6324d180dda80803a0c7251a01fb331c36b5aint),
            dif: (0, 0xe68bedcf29f67ec5e5c20cde27039e0bd5f2de3aaac769dd5090c75a598cc7aint),
            xy: (0x7f0eb14fb101f93b00171532ae25c9efc28142bf82aaf6a63e18e715bd74b02int, 0xfa8c14661727184b2f6fa742cf964ed63c694b20cd09655a19452c5977dfa5eint),
            e: (0, 0x1f51828cc2e4e30965edf4e859f2c9dac78d296419a12cab4328a58b2efbf4bcint),
            g: (0, 0x25d058b7ee797acd6ac36d721342cda1239d69933963b4736ae22dbce964fb3eint),
            f: (0, 0xd67eea8e7c1822c677d463e366c9b540b8f8f12b929a80119420e09b7a18fe4int),
            x3: (0x39f25a9bf16c685ed94ba5afa86f7122f107ccee9dd620f6ca32c872419df77int, 0x3560ddcefefe4766cc8b38085d6741d248981385ea5d1eeeb9f76d27c03d1bf9int),
            y3: (0x4b334c64d1067279fec7cb479c881110a32931746f27f65e9daf4ff15936bf1int, 0x524bc28dc6cc9a467bcca6b8871e32dd0bc3224d10c206214a9322fbf91b79bint),
            t3: (0x3e486a9bcab19e4bfeaf541f1000508f634d8580701f0c7e81a06cb90c65d84int, 0x28f3d2bb208608960473e47bd0b89f8b376045ede4a211175d1e18c015f21414int),
            z3: (0x45f7021d23be0304f74db119dd2eb071a33e0035cae0622ec0e7d0a59cc16dbint, 0x985227a8a6626b563552eb454134cfb5834ca7a2269946a53a70db940794e5dint),
        },
    );
    lemma_chain_double(
        base(),
        ExtendedPoint { x: 0x3560ddcefefe4766cc8b38085d6741d248981385ea5d1eeeb9f76d27c03d1bf9int, y: 0x524bc28dc6cc9a467bcca6b8871e32dd0bc3224d10c206214a9322fbf91b79bint, t: 0x28f3d2bb208608960473e47bd0b89f8b376045ede4a211175d1e18c015f21414int, z: 0x985227a8a6626b563552eb454134cfb5834ca7a2269946a53a70db940794e5dint },
        0x39f6d3a994cebea4199cec0404d0ec0299a0824f3320420b42nat,
        DoubleWitness {
            xx: (0x1893e4359d14e409433dbfdf55ec9bd55da81bd8a7e83cb3de4c48ba3100e696int, 0x2b31e511b43027437d5f7eb6db1abeacaac8525b71e391d25bfee645a6b7919bint),
            a: (-1, 0x48bbc241756d5604b5da59512e871958a8f551a78e1aca2ca40119b959486e66int),
            b: (0x3a6bb6e08080c36782756ce8685ca8a4ed28b7f696495d3532b23b618a71e6int, 0x50e49086b2cd529ea6d10c61d719e9925843e05febd3e841a192797f69ba85f3int),
            zz: (0xc823523f726560cc56d516d1df2ee95fc6626daa6f88fea7c7cd867eddbabdint, 0x23eedf4f35e090f47b9ce30dff104e65bc9238d9ee2b9df7f3f1824a2d09130cint),
            c: (0, 0x47ddbe9e6bc121e8f739c61bfe209ccb792471b3dc573befe7e304945a122618int),
            dif: (-1, 0x6bc4d90dec3d80ae424324f7610f07cba46f154aa2453dea026ea038ef8de874int),
            xy: (0x25e48068a33dfa684fbc5d1d0770bf3d80eac839d65879b6bf7bafebb62c0eaint, 0x32feb4849c30187978b7dc093cdcbc464eafbc321d7b7f0e6942c69af7a52dd9int),
            e: (0, 0x65fd6909386030f2f16fb81279b9788c9d5f78643af6fe1cd2858d35ef4a5bb2int),
            g: (1, 0x25b2ab74fe9d2b5b29718daafbff2ae5ad7b8e0479f0566f45939339c302f458int),
            f: (-1, 0x51c29429bc7986ba65719f970780661f8814c0539d97767e5db08ea468f0ce41int),
            x3: (0x47ee068348802d2d84cfe0926993b1935c47dc8e3ed6e869c0c43bcd45b9450bint, 0x18ea94d4a97f56ad0436a90db64e299e7a9a689c526a0f0cfb254f7b98d13f27int),
            y3: (0x230b6cf0602549852e4a93388632b4a4599e89c81dc23b5e3eaa9a732a3a643fint, 0x3afdc263fa62cb23c56b828e726510a95fbbc5b14f5ca9aa62e776b19d0413a1int),
            t3: (0x5ecfbfa6aca10ea71b5bf31a139aef96f1f3071865a8b9095ae801590d84d83cint, 0x38d159ad56771ed6435ab8c3417beb0cfbd3f91acd75b181dc443aae7250046cint),
            z3: (0x1a9644f2693d4f91d4ed746cab30435ad4b209294bbcee2a35abe846ab7597daint, 0x25dae61dc3cbfb4465ce5c61fd1617c19839bfa2c6e37a5e407ea930b69427eint),
        },
    );
    lemma_chain_add(
        base(),
        ExtendedPoint { x: 0x18ea94d4a97f56ad0436a90db64e299e7a9a689c526a0f0cfb254f7b98d13f27int, y: 0x3afdc263fa62cb23c56b828e726510a95fbbc5b14f5ca9aa62e776b19d0413a1int, t: 0x38d159ad56771ed6435ab8c3417beb0cfbd3f91acd75b181dc443aae7250046cint, z: 0x25dae61dc3cbfb4465ce5c61fd1617c19839bfa2c6e37a5e407ea930b69427eint },
        0x73eda753299d7d483339d80809a1d8053341049e6640841684nat,
        SumWitness {
            a: (0x1f78abd10a5d5c510791c6acc0ae55dd184c04dcc15e02a541ed34ff00ef043int, 0x46fa90067501c6507a1ba571b78b0a0cce7040d494d4ae1ec47e4f3563adfa62int),
            b: (0x2c97403c5830923d7b573da30f2961d05ef710412421fadfbe14f2e84709d6b5int, 0x35d9187f984f078d2a412aed1796c4c1a2b2cdbd58b30f38911e91ce83ccac7bint),
            dt: (0x14ddc504905e4abe608761ed10ffe9cecc6c380fde1d99617c7d0c206b1ff605int, 0x6b5cae76e8d3affbdeb35c4b9ede1b1faedb91f8e5a23dfb46139e6c2d3540a7int),
            c: (0x4eeda58ec250ec0999ee5f8131511eb3571375b01c30b9a2b29737705558e16int, 0x126b862d4944b0b9f6cea30a2a059ed674ccca744f953b45acca824e7f3f7099int),
            zz: (0, 0x25dae61dc3cbfb4465ce5c61fd1617c19839bfa2c6e37a5e407ea930b69427eint),
            h: (1, 0x8e60132e3b350957122f856c57ff6c91d656a8eed896158559ce104e77aa6dcint),
            s0: (0, 0x53e85738a3e221d0c9a22b9c28b33a47da562e4da1c6b8b75e0cc62d35d552c8int),
            s1: (0, 0x60c7d6918e437d8827d3dfcfe8923870431f0f21be6a05e37815793fb5885c83int),
            ss: (0x460c76b286a7816ecd44a95ad3b5bd25e5b153300996d63809e80d71a90f0496int, 0x4a625a00d93bd699a2070860d5d5715e5d25605386399a903404f3b2ef1a37c2int),
            e: (0, 0x417c58cdf588860430e4100a10557a953fbff5c498b03937de6812ae079f90e6int),
            f: (-1, 0x63dfcf87bc958c4282c81ac3ff6d9aaaf8747588dcd7585f373d68438c29d1e6int),
            g: (0, 0x14c9348f2581706e3d2b88d049d700528e50666e7c0372eb90d26ce18aa8b317int),
            x3: (0x386ac62c23bc81ff2cdae1369f5911cde9d5bdb12b65207f1cd4b2fbb8e120eaint, 0x3d3e0ce5bfe43f3a330023eaa38ac2e2d41350df240cae3351462280629cd3baint),
            y3: (0x1987246e748d56e551c5093719d3c311981249efe79cc01fe208725dc08aec2int, 0xebfb7b5d26ef5b32814a3c6c607c2bcf6c3ef356770d05662004ab3cb082302int),
            t3: (0x506cd48962a5dbe3f87cb49e4513848764e517443e4acb1f53ab6fd24f6e6edint, 0x1893552eb9f307fc6c01336e6278006024412c76be7be6bac41a1dd277bac2bbint),
            z3: (0x11e84f68938417f4fc12b161f0e7a979e436ea0040b3eb8b3b97f12ff42aa235int, 0x1afc4f1d4c4a3d81f3ab58ed10608ab57a6f40c9c0583789d8db53d59c4b0b75int),
        },
    );
}

/// The multiples of the base point, from the multiple by
/// 0x73eda753299d7d483339d80809a1d8053341049e6640841685
/// to the multiple by
/// 0xe7db4ea6533afa906673b0101343b00a6682093ccc81082d0971.
proof fn lemma_order_part_23()
    requires
        extended_valid(base()),
        extended_valid(ExtendedPoint { x: 0x3d3e0ce5bfe43f3a330023eaa38ac2e2d41350df240cae3351462280629cd3baint, y: 0xebfb7b5d26ef5b32814a3c6c607c2bcf6c3ef356770d05662004ab3cb082302int, t: 0x1893552eb9f307fc6c01336e6278006024412c76be7be6bac41a1dd277bac2bbint, z: 0x1afc4f1d4c4a3d81f3ab58ed10608ab57a6f40c9c0583789d8db53d59c4b0b75int }),
        same_point(ExtendedPoint { x: 0x3d3e0ce5bfe43f3a330023eaa38ac2e2d41350df240cae3351462280629cd3baint, y: 0xebfb7b5d26ef5b32814a3c6c607c2bcf6c3ef356770d05662004ab3cb082302int, t: 0x1893552eb9f307fc6c01336e6278006024412c76be7be6bac41a1dd277bac2bbint, z: 0x1afc4f1d4c4a3d81f3ab58ed10608ab57a6f40c9c0583789d8db53d59c4b0b75int }, times(base(), 0x73eda753299d7d483339d80809a1d8053341049e6640841685nat)),
    ensures
        extended_valid(ExtendedPoint { x: 0xd81cbf37be01e4687bc91bfbfb5f6598e20e9940bacd95a59acedcc4ef24463int, y: 0x54ce87e7ac0bd3a390ec26315d38300d8ee8b2eb4c163e43eb1f71f9c3c9e9ddint, t: 0x65a2ebc6e2b8aed057be87b59ffdab05c5ae2bd0649ea5a4ee347aa90c0e47c9int, z: 0x4f094c902d270506aaadbbb6f62b53567a9c489dce0e94d18be4a17beabc580int }),
        same_point(ExtendedPoint { x: 0xd81cbf37be01e4687bc91bfbfb5f6598e20e9940bacd95a59acedcc4ef24463int, y: 0x54ce87e7ac0bd3a390ec26315d38300d8ee8b2eb4c163e43eb1f71f9c3c9e9ddint, t: 0x65a2ebc6e2b8aed057be87b59ffdab05c5ae2bd0649ea5a4ee347aa90c0e47c9int, z: 0x4f094c902d270506aaadbbb6f62b53567a9c489dce0e94d18be4a17beabc580int }, times(base(), 0xe7db4ea6533afa906673b0101343b00a6682093ccc81082d0971nat)),
{
    lemma_negative_base();
    lemma_chain_double(
        base(),
        ExtendedPoint { x: 0x3d3e0ce5bfe43f3a330023eaa38ac2e2d41350df240cae3351462280629cd3baint, y: 0xebfb7b5d26ef5b32814a3c6c607c2bcf6c3ef356770d05662004ab3cb082302int, t: 0x1893552eb9f307fc6c01336e6278006024412c76be7be6bac41a1dd277bac2bbint, z: 0x1afc4f1d4c4a3d81f3ab58ed10608ab57a6f40c9c0583789d8db53d59c4b0b75int },
        0x73eda753299d7d483339d80809a1d8053341049e6640841685nat,
        DoubleWitness {
            xx: (0x205a5e56afed7c29b177ed48e9c81c90525f8312882f854ca03b156b210f2933int, 0x4acceb31628f35fece15a5ad5c9356a3189e4d5ddb31fc16999a7f500bcf9f1int),
            a: (-1, 0x6f40d8a0137489e846587dad33d8a29b2233bf2d224b3c3d96665809ff430610int),
            b: (0x1e05ce685c8b06326888651d2608fe78202aceabe5662db34d28526f35b857dint, 0x7be2ec13a993236dfe4a021e685b5cf354f7fec2e322b94892d04e96d8e0687int),
            zz: (0x6481a7447f277006cec5b6693191d069cc2ba2be02b7a4fcc9f6fa164aac589int, 0x4e228d9ae453a4a106d87e8c7e05a0f55248c3fe678e4965bff3d08fea667df0int),
            c: (1, 0x285773e29f09cbf9da772510f26969e550d3e3f9cf1e36cc7fe7a120d4ccfbdfint),
            dif: (0, 0x6782a9ded8db57b16673dd8b4d52eccbece43f40f41910a90d39532091b4ff89int),
            xy: (0x7caa0df7ba210758ed5d0a268e3f970177ba07f3c44ed9f3f6eeb8011516bd4int, 0x6ed59a0f9d847a35073f718326168290d364b0e6143447946a3792a940aaa9a0int),
            e: (1, 0x69bd8ccc116b7721db450afe428b2d1c530bbdc9286a3329d46f25538155533fint),
            g: (1, 0x311600e24703ed6f30345c710bc806503c59b16507f0bd31f935cf46cd10c96int),
            f: (-1, 0x4ea7937eaf03f0254bc5f8be27f4ee8506af5b1f815f31059fabbbd2980410b8int),
            x3: (0x47be0a57949c28b313b5b84d4d449ff954ea0b492f8901e1be5b44ab2c30ececint, 0x34b7bf3e81c6c9ecb8b017c3769c67ee7b5466b0108dc2da6208b1cbd352d85cint),
            y3: (0x2bd3f79533bb017eb16a432f499995bd5651c151d16a9abdb6d9d92a8c4846aint, 0x6d30f5d6996ba234340730fdb23cb7cd5cb9202f4565110f16e63de79e1ca1dcint),
            t3: (0x5e69eed57b53808e7a46b56bf030401d06bab26b3579046171c04ce602df1ee0int, 0xa5f6dc1f0a18b8360a1d8b1b9e3a3813891a8e36a2d08dc126f128369022ed7int),
            z3: (0x214dbb60b8363ca5b628b90c1bfd6f0c0a7cfd4e5f9cb14f6f15a510ff9f0e9int, 0x888b32bbed2cb7753578022e615422b0f0c7f3a5e14babc1f1064dc79687ae7int),
        },
    );
    lemma_chain_double(
        base(),
        ExtendedPoint { x: 0x34b7bf3e81c6c9ecb8b017c3769c67ee7b5466b0108dc2da6208b1cbd352d85cint, y: 0x6d30f5d6996ba234340730fdb23cb7cd5cb9202f4565110f16e63de79e1ca1dcint, t: 0xa5f6dc1f0a18b8360a1d8b1b9e3a3813891a8e36a2d08dc126f128369022ed7int, z: 0x888b32bbed2cb7753578022e615422b0f0c7f3a5e14babc1f1064dc79687ae7int },
        0xe7db4ea6533afa906673b0101343b00a6682093ccc81082d0anat,
        DoubleWitness {
            xx: (0x17f91d923fadb90784d80576092a3ef4e909cc0e66c8f2c4c54533ca454d1a6eint, 0x46132a1aad3721e07bf764c47b08f2c80366c3901785df78d8cbec02b47e46a2int),
            a: (-1, 0x2dda7d387c665b67b74273438e98e53d5056e072e8787c86273413fc4b81b95fint),
            b: (0x66d87f05d5c37d44917f49d1df7ce449dd740d602e6315b6795b5025b8a112c3int, 0x5fcaa0505dcc13a445d2b612bb6fc4fc6d1a1d970528a327450c10a4a5d5624dint),
            zz: (0xa0d33e21eafeb60a60d8c8e29d7c6a02a7f83a7ff102b287331aab376cad36int, 0x3c14182cb7c0acce5485bb04b4d91899b187f68afb30404844536653d444f3bint),
            c: (0, 0x782830596f81599ca90b760969b23133630fed15f660809088a6cca7a889e76int),
            dif: (-1, 0x41fd843b4837c50ba4a99538dccaf84636fa66dee34e355de2280356a5ac5713int),
            xy: (0x31a773d117d64950356e1c2dcda4cd392b1536c44e0407e6b7e7d0167987c619int, 0x15545a756f8b4462f612eb12038b89ebe545022bf23338fc6f9956afadcc04f7int),
            e: (0, 0x2aa8b4eadf1688c5ec25d624071713d7ca8a0457e46671f8df32ad5f5b9809eeint),
            g: (1, 0x19b77635b094f1c3c9db514e4066d23469b35a06eda2c3ae6c4024a1f1571babint),
            f: (0, 0x1234f330199cdc29ff4a99eda9cbaf2133825b358e3cbba563b5b7d776ce7d35int),
            x3: (0x6b31fd7bbce3d4850f26cacafbb24c2c1d0b4405d6ce2b448bb71fb9debd82eint, 0x4194db7fc6b9d3287b364a2b8b9a802e0af125e6c64487f46b591c7746eb6c18int),
            y3: (0xea387038700756efbf8184f8c4f3b208dad4464009fdfa2b3edbaa4ec43a610int, 0x11b389493420c421c45791c34dddb365c6666076075ee4e66c354442657e84a1int),
            t3: (0x18486ecbe1f5111dbc8502a9c5c799524b24f30da1f6011a98dc7d93b7ee042aint, 0x16618d62217832d835f289c7c39de00029b352a596afd7d8113b754bd1a29a80int),
            z3: (0x409f2fdc8b1ed051a75390c04274838e13136278f5f10b073f5038331a2f86eint, 0xba2b243ded3c6bb0005693dbf799d31f638aa0dcd9e55c03e3d71bf638240f9int),
        },
    );
    lemma_chain_subtract(
        base(),
        negative_base(),
        ExtendedPoint { x: 0x4194db7fc6b9d3287b364a2b8b9a802e0af125e6c64487f46b591c7746eb6c18int, y: 0x11b389493420c421c45791c34dddb365c6666076075ee4e66c354442657e84a1int, t: 0x16618d62217832d835f289c7c39de00029b352a596afd7d8113b754bd1a29a80int, z: 0xba2b243ded3c6bb0005693dbf799d31f638aa0dcd9e55c03e3d71bf638240f9int },
        0x1cfb69d4ca675f520cce7602026876014cd0412799902105a14nat,
        SumWitness {
            a: (0x3c67803f7babb3897f741c15a9add7d3493aeec0cd5fad50ac782474d17265deint, 0xad4fab4df01fe20c7751087df121608c09ea76dafa1f274000638ea09a95272int),
            b: (0xd61566ae8e1a3c2459af7708b56ee2d394bb535b56e4ef14e0d29c562746612int, 0x712112206c3ab97617bf72b7a09660ead0862b2c7fa59596b04e02fb633c4d1eint),
            dt: (0x8382c8c74081245cdde757e4210cefa15dd2419f7388dd6632b624583eed939int, 0x1bb087f39dbd75351ea69af0d585de22627c409064a021f05a2f165330e8f947int),
            c: (0x1a6ad4a54878924db0e668b5f92c09cd2200ab6d4245378689342504453f2611int, 0x4882a0b8c141b6a831076eb1f9720cdb7b696922439f89afd4d82cc8397628e7int),
            zz: (0, 0xba2b243ded3c6bb0005693dbf799d31f638aa0dcd9e55c03e3d71bf638240f9int),
            h: (1, 0x8086582219f3a4eabfaab3776069eee3d672e972f492c0bb0543be66ce59f8fint),
            s0: (0, 0x534864c8fada974a3f8ddbeed9783393d157865ccda36cdad78e60b9ac69f0b9int),
            s1: (1, 0x4e7a2cab4d8fef627fa28fd19ba7c19a97abbf79df4db594e896ec1ba05d0dddint),
            ss: (0x3860c25da2beb4988c5c4857a9d6985d0823df6bea9e0c48cdf9d817877b52e4int, 0x11b5f23c8663089470007573568cf90ce0ded7a3f4fbee73c707314ac467e1d1int),
            e: (0, 0x9ad8cba64c3ce45c405ca3be0865a1ea377a90cc5b2c26816b2f56457824242int),
            f: (-1, 0x370db8de472f8d5b0237d293cfa9685bce8ce4ee89fd280f696544f62a0c1813int),
            g: (0, 0x542552fca0157d63310cd7efb8ebaa0d71a21330113ddf7013159e879cf869e0int),
            x3: (0x4989270f2f694e76ffdb892f0b9ea56549827937969d1f6025e3926bd6effc5int, 0x516910fdd60d8968d41c78d26ab6899d25f1082e9af2d2900f3911aae68a1b21int),
            y3: (0x5d49f1aec1041d53284c72c37fbab7de821cb3740bf4e2b28dadd9c410833b4int, 0xd3fea72781000efc6ba807bef550a5191fbccb1f7bab5c339551477ecdd106cint),
            t3: (0xabac0da0e35b75c8b90913b1e533f4aef321acf45773445f1855676ccd7e3eint, 0x2bed5ad6b78cff31fa17db9dd1ae28824a387e628e3031ad7bb78702792682a0int),
            z3: (0x27f5d5390e824a714ab6c49e1894a7a9fbac70c8420cc4d73c406b966fa8dd98int, 0x4b98684c7d644f743a16b6be1a54088e708cd5002b94ce09cb31470d3733fe08int),
        },
    );
    lemma_chain_double(
        base(),
        ExtendedPoint { x: 0x516910fdd60d8968d41c78d26ab6899d25f1082e9af2d2900f3911aae68a1b21int, y: 0xd3fea72781000efc6ba807bef550a5191fbccb1f7bab5c339551477ecdd106cint, t: 0x2bed5ad6b78cff31fa17db9dd1ae28824a387e628e3031ad7bb78702792682a0int, z: 0x4b98684c7d644f743a16b6be1a54088e708cd5002b94ce09cb31470d3733fe08int },
        0x1cfb69d4ca675f520cce7602026876014cd0412799902105a13nat,
        DoubleWitness {
            xx: (0x392b97b49376762bcee57132f71bcd6d3ad72f2d4653e8b777b57b3adcfcda9aint, 0x5d63f72061637ef3ee14b62a34b284693cb36469b99ebba0ae9c3c73b1771fa7int),
            a: (-1, 0x1689b032c839fe54452521ddd4ef539c170a3f99465fa05e5163c38b4e88e05aint),
            b: (0x183ab25e68f956c73afee875e1fbcdc9bd51f859cae438436d4eb1888482ee3int, 0x69652344c2f843d16bb2df20180ceb77c04ab550470bb04cec69bd5ef33d7eadint),
            zz: (0x314b73428f9b4f0c3ea9f6c0bfa7ef2754e83ce829bef00de39315685b1c792cint, 0x766e414d5ff28aa8d99e1782f8e5f872d7b71e9ffcd772be4b1024a48276714int),
            c: (0, 0xecdc829abfe51551b33c2f05f1cbf0e5af6e3d3ff9aee57c9620494904ece28int),
            dif: (-1, 0x211234412edf37cb0cac1ac5c6844029aa7d2e4bff524c1064fa062b5b4b61aeint),
            xy: (0x94df7210975344f54573810df56d12b0e2efe326aee1f5e010472c51e3763b4int, 0x255eb5c43582c1b1287305600a6a81535b7e7708f53778df36b79a039d3b1e38int),
            e: (0, 0x4abd6b886b05836250e60ac014d502a6b6fcee11ea6ef1be6d6f34073a763c70int),
            g: (1, 0xc012c246194c4dd7d9e28f5e35a670e839750e68d6cf4ac3dcd80eb41c65f06int),
            f: (-1, 0x71210b4ddf33f0d095a43e0d8ddf80057c5e11158dd06253746b7c55b17790dfint),
            x3: (0x48ef6a8d352295264615f91d58c50d397d476a35c0e01a9a78537b27386d5423int, 0x3dd1cd5f992140ecddcfa4b13efd28738e99897530d3d69f815c7a19bea0516dint),
            y3: (0x36cb0aa5681d13e6c121ab0876c9b16f61099ece917e8bd4d5f62e79e7e4395int, 0x521cfd3042aa53eafdf6971d037608138eb333cae359868a6c5b87673919987fint),
            t3: (0x15523ab5f0be7be9cb2a8d74c6d32e4ffdc3746fd4ba89713b427d0295d3a9d6int, 0x28552a3b7ccccabfe5e270438961432ec6e48dec6fb0fa080b6a35d3783fda4aint),
            z3: (0xbb6f75e1e9c0a6e191925c59b239ebf637d0d20ac99fa21da06b97d2f4de3deint, 0x99dc8a201afcbbaf74b52ddd0d4563fb4c3be98c749ee93b60afc3603bc425cint),
        },
    );
    lemma_chain_double(
        base(),
        ExtendedPoint { x: 0x3dd1cd5f992140ecddcfa4b13efd28738e99897530d3d69f815c7a19bea0516dint, y: 0x521cfd3042aa53eafdf6971d037608138eb333cae359868a6c5b87673919987fint, t: 0x28552a3b7ccccabfe5e270438961432ec6e48dec6fb0fa080b6a35d3783fda4aint, z: 0x99dc8a201afcbbaf74b52ddd0d4563fb4c3be98c749ee93b60afc3603bc425cint },
        0x39f6d3a994cebea4199cec0404d0ec0299a0824f3320420b426nat,
        DoubleWitness {
            xx: (0x20f73652f741eae51cacba8ea7b1cf516d486a8e7857ff0339092b68633b5c2dint, 0x6dfa60f99ea6dfb1e4d7835dbfb14ec90ca097b962f6df8a216859524aeacc3cint),
            a: (-1, 0x5f346598af69d964e6254aa49f0893c471d0c499d077c74de97a6acb51533c5int),
            b: (0x3a29624a5681b5d5554a94e9dd7717f303a9c409408de99f4c1b4cc852ddeab8int, 0x3952aa80a42b51fee896337c8b4a3c21ba3e3adcb43ac3829737ae995ec72449int),
            zz: (0xcc34f1c4b83feb05252508ca29a06bca3a6031cdefb3c649dd7117adb07a6aint, 0x5857873678aa9734868ca1e822e3764fef38283c6285c13399221c2202a316a6int),
            c: (1, 0x3cc16719c7b7b120d9df6bc83c25149a8ab2ac75c50d26683244384505462d4bint),
            dif: (-1, 0x408e432c1068c8df9905f935c848251fe09c756fe8cb14f1475ff812564e0f7dint),
            xy: (0x2bc99454ac0aa6ada4106af78d484a654df303e8dc8434ecaaea6f12c0bd888eint, 0x1be8b7f150995ed7cc93f26ef3209846d6a4af9fb42f2dd6fe58831439c89485int),
            e: (0, 0x37d16fe2a132bdaf9927e4dde641308dad495f3f685e5badfcb106287391290aint),
            g: (0, 0x3f45f0da2f21ef9536f88826d53ac55e015b472651423ff775cf554613dc580eint),
            f: (0, 0x28489c0676a3e745d191c5e9915b0c376a89ab08c35198f438b1d010e962ac3int),
            x3: (0x13656613f467fce1c72ea6f30b64b7d28fa1a6343caa0fd4487133901505f3dint, 0x1ee72f057b7abff299989eb6151d544142bbbb46bfbe43e9e04e92206ed98761int),
            y3: (0x233bf73e11cefade05f76ab7f606f45e59d1c8eb7c34f6c9e4ccaea16a2a43acint, 0x52a9880e093ca835ab30ced8ec0c1c12116dea0afbf7cd9a219d271fb9d98d2aint),
            t3: (0x1f1532dcaa3c27ee48b0202839ec8fbb1a58a0124e039d07d675b228f475f4caint, 0x62da841f2e06514a8a59f54d0c276da36b4b39e63200c26179f2fded7deab18int),
            z3: (0x15fc9465d9ed5970b4791659fdee1a2728eaa08de071aefa6888efb1c99ed98int, 0x4f0c929820128e1a53a592b2352ffc30104e198c4c9ab9a38692703a86e37112int),
        },
    );
    lemma_chain_double(
        base(),
        ExtendedPoint { x: 0x1ee72f057b7abff299989eb6151d544142bbbb46bfbe43e9e04e92206ed98761int, y: 0x52a9880e093ca835ab30ced8ec0c1c12116dea0afbf7cd9a219d271fb9d98d2aint, t: 0x62da841f2e06514a8a59f54d0c276da36b4b39e63200c26179f2fded7deab18int, z: 0x4f0c929820128e1a53a592b2352ffc30104e198c4c9ab9a38692703a86e37112int },
        0x73eda753299d7d483339d80809a1d8053341049e6640841684cnat,
        DoubleWitness {
            xx: (0x83ce326ee907ae86e96583bfd27791135837cd760aacbfe15b12ef35ce0d446int, 0x500cc114fd4f7d0610a1174f2a66cd1e219fe08266247fd18b17cac0c9289e7bint),
            a: (-1, 0x23e0e63e2c4e00422298c0b8df3b0ae7321dc38099d9dc2d74e8353e36d76186int),
            b: (0x3af125145022c9e0d3aecc4dca2d45ec4994e1bfc093cd60d426c83c746b0e18int, 0x4a3a927bfc70bd6e04c2b2f3261f81a8aa4b2add24cb3d466c6768eedea03cccint),
            zz: (0x35e6e5841b7f338ad4ddcca290ea45ad65455d9fcfc994ef390efc0c4ba46e0cint, 0x6d3374a22bbbbda719224b9f80325320a8e0c862b56bf494c2f529844387738int),
            c: (0, 0xda66e94457777b4e3244973f0064a64151c190c56ad7e92985ea5308870ee70int),
            dif: (-1, 0x4d93fb15597ac01c510fe5cdc2bd6143db903ca6750cfae60880cc4e583724bbint),
            xy: (0x160909a5739b1d0084ed9d6e352c5c87f442f618f257c5bba8ba8e1d441f8445int, 0x57618b130760bc895119d072f64fd132d1eff47a0c4a25ca13d2217f955a1ea5int),
            e: (1, 0x3ad56ed2e523fbca6ef9c8dde2fdca60502244f11895ef9527a443002ab43d49int),
            g: (0, 0x6e1b78ba28bebdb0275b73ac055a8c8fdc68ee5dbea51973e14f9e2d15779e52int),
            f: (0, 0x60750a25e34745fb44372a381554422bc74cd55167f79ae148f0f8fc8d06afe2int),
            x3: (0x30f3bcc1f4f815db0591da9429a4631ec72150fd8c262161a34091ad2ef71793int, 0x1613f11290c742ffc0785f607d141615cdb36e1418b3314d1f481b135ec1e9dfint),
            y3: (0x49aec42c3fd95c9f43f5c6d6064f39f8423dda8e39f2cc077ac4217f2331e29aint, 0x39328b892d6aa356684e084f2dbf80b12e1d4b9f9abf73268080f32991104b4cint),
            t3: (0x275ef4c3b17a46684dfa65a6a887e647142d90b0d72eed6b43e216659aa0a2d4int, 0x6c3ae823d31983d3cece073f860ba3b0da26e75f756a745b691f7d973255657fint),
            z3: (0x5b9d2576dd70c8424763e4daf849bd04464fc1e53a8224f5c043cc5007af4b21int, 0x5257fd956204ff48fbf769f8706a08a5b6439ea2311087b4a6b6a00391108743int),
        },
    );
    lemma_chain_subtract(
        base(),
        negative_base(),
        ExtendedPoint { x: 0x1613f11290c742ffc0785f607d141615cdb36e1418b3314d1f481b135ec1e9dfint, y: 0x39328b892d6aa356684e084f2dbf80b12e1d4b9f9abf73268080f32991104b4cint, t: 0x6c3ae823d31983d3cece073f860ba3b0da26e75f756a745b691f7d973255657fint, z: 0x5257fd956204ff48fbf769f8706a08a5b6439ea2311087b4a6b6a00391108743int },
        0xe7db4ea6533afa906673b0101343b00a6682093ccc81082d098nat,
        SumWitness {
            a: (0x1455c338c266a9003d8a086282635f07aa02d2dfa8bf20c41ebca0d10c398d98int, 0x6eef9430b7d1798b130384fc55d34bba333c1eaf0113bc1795139eb5454e0ffaint),
            b: (0x2b3c22d00fea3a8b95f9d4434ab8fedf3696eb72b17e53d7f5bb06c95c4c8e3cint, 0x580ad64068072abb35a99456c4efd608cf09b4ddb2b6bf73e48b309201d64c04int),
            dt: (0x27bf57872b6df5e4ebe885ffc19d2f443f9e25f9e2da5a53d0ca2bd9293b9582int, 0x39d5773e99ecc4bf53981e8b06e08edfcea35e84936f8264327272be1a30594dint),
            c: (0x372d30fe5b93f9d09913f7ad14992a1d0d37714778c08adf31f176a638b62665int, 0x173c7b781259d2a0d704cf7560598b99e04d061f907220128dfb60451e566843int),
            zz: (0, 0x5257fd956204ff48fbf769f8706a08a5b6439ea2311087b4a6b6a00391108743int),
            h: (1, 0x530cc31df63b26fe1573414b112149bdae882f89b3cc1f8c799ecf4847245bfdint),
            s0: (0, 0x4f467c9bbe31e65628c667afaad396c6fbd0b9b3b372a4739fc90e3cefd2352bint),
            s1: (1, 0x4e7a2cab4d8fef627fa28fd19ba7c19a97abbf79df4db594e896ec1ba05d0dddint),
            ss: (0x35aa4683cc3ad1d9f2e5c71c093083ebfc1be6eec0f85e33d50358eb86ac9c77int, 0x3709dbd1df5a1fc80bee2a0e19b14d46503bf948060835c64d5b66755f1d78a8int),
            e: (-1, 0x57eac00712bc761229b4c0cb1231db8df5716dc1523a7238d3bc972c17f91cacint),
            f: (0, 0x3b1b821d4fab2ca824f29a8310107d0bd5f69882a09e67a218bb3fbe72ba1f00int),
            g: (0, 0x6994790d745ed1e9d2fc396dd0c3943f9690a4c1c182a7c734b20048af66ef86int),
            x3: (0x2cd3564280dc30e98fd643b4998ab46bfbc2f0301b8db3934607c9b9d1363499int, 0x46759e9d0ab8369a4ad2610a142fc661c6e0a49f005a45db04c8b731c63a9f67int),
            y3: (0x4ba2eaaa0e0a37b64ab51008117671d1bd6a8eec912381da25a2b322d8f9b600int, 0x30e3165072178bfedab043df76a8021d6f9f3f0ddf98484afb8e0fa3efbda36eint),
            t3: (0x3efb99fe506a2f3428730019a9fa43f6f0066ceb90a862d94156d11915d75a48int, 0x1b7eb851b1f7697e9c15fd84739e2f6a69dad3dc874f4a8dc6df36a3e4bb1fb4int),
            z3: (0x35d4caa7ee23fef10075cdbbac5181df27381d66c61abad2b04c3d3d953462deint, 0x3d91ce24e75c6198e8360dbde96cd4d309eab0a3ce0d26ad1015f9c59528d722int),
        },
    );
    lemma_chain_double(
        base(),
        ExtendedPoint { x: 0x46759e9d0ab8369a4ad2610a142fc661c6e0a49f005a45db04c8b731c63a9f67int, y: 0x30e3165072178bfedab043df76a8021d6f9f3f0ddf98484afb8e0fa3efbda36eint, t: 0x1b7eb851b1f7697e9c15fd84739e2f6a69dad3dc874f4a8dc6df36a3e4bb1fb4int, z: 0x3d91ce24e75c6198e8360dbde96cd4d309eab0a3ce0d26ad1015f9c59528d722int },
        0xe7db4ea6533afa906673b0101343b00a6682093ccc81082d097nat,
        DoubleWitness {
            xx: (0x2ad2fc94d99598142c7f88f25620bcda56082309edeb28e96a0d7ae35e6ca5b5int, 0x127770a9f41e9009801d4160bc7ab794370d24d54021ef9289242e3f938075bcint),
            a: (-1, 0x617636a9357eed3eb31c96a74d2720711cb07f2dbfdc6c6c76dbd1bf6c7f8a45int),
            b: (0x149d9ef73aadaf3338bb65d2321ca39f247cc6f17ac9d23b257aae69767c1942int, 0x21ba7760f38b51d100e11e6c21a84212655d208a89be0cf6b832108ea6452a02int),
            zz: (0x20b318b9af12ec3033d5ebd8736eca86d928dc4b59e99a3c97cf40fcdd630fa4int, 0x6776ce5b8f7e8a0fc118dee997a22a62bfe12f548c382a982b6b9deca60710e0int),
            c: (1, 0x5afff563f55f96d74ef7e5cb25a27cc02c04baa61871f93156d73bda4c0e21bfint),
            dif: (0, 0x3fbbbf4841f39b6db23b783b2b7ede5eb7535ea3361e5f75bea9c130c63a6043int),
            xy: (0x1db67a0a63c9fb3c29a74c1217561ffb2b66964c524902129aaae632f2c31fc9int, 0x2f7b7ae965d2a31dcb296081926844a83ff034066a28352af9983dde65f6f379int),
            e: (0, 0x5ef6f5d2cba5463b9652c10324d089507fe0680cd4506a55f3307bbccbede6f2int),
            g: (1, 0xf4306b6ff6cc1c780c3dd0b652d8a7e2e4ffbb5499c1d642f0de24f12c4b446int),
            f: (-1, 0x2830b8a633aaa8386505cf48492ce5c35608e51231288031d836a673c6b69288int),
            x3: (0x20ec2ed5d5761654b4c0cbf760bd4b2d5e72005145df93bd1f451cb05cf489dbint, 0x5628fcef46f0996d242ebdce2666c43d17bfc1ca9bcf3abddaa17c3c03302ab5int),
            y3: (0x863f2a6438b138a99f7ac5ef342acf6a3f40fe3b592de2b778e3b5961c02695int, 0x555961fbc4c237e0e339400acba3b30afc146a8c2e5a6c6da520c416473147bdint),
            t3: (0x34355329c583c133ee94e8327b2d3ec4f7a6cfb35a2ab4747a3075826be1672bint, 0x273a7a4a01472987312bf0dbf87d45d0aa50c62231ce71cd7dc21470a8d0ca2bint),
            z3: (0x54a7f5403dd5e71a8f1ac32a4354c6bd038fba14d5ce60d1d36e9558b26c86cint, 0x3921620bcc1bc5ab1852e9140f6163c683815bde9c5c4b5b77230c84e9ece8c4int),
        },
    );
    lemma_chain_double(
        base(),
        ExtendedPoint { x: 0x5628fcef46f0996d242ebdce2666c43d17bfc1ca9bcf3abddaa17c3c03302ab5int, y: 0x555961fbc4c237e0e339400acba3b30afc146a8c2e5a6c6da520c416473147bdint, t: 0x273a7a4a01472987312bf0dbf87d45d0aa50c62231ce71cd7dc21470a8d0ca2bint, z: 0x3921620bcc1bc5ab1852e9140f6163c683815bde9c5c4b5b77230c84e9ece8c4int },
        0x1cfb69d4ca675f520cce7602026876014cd0412799902105a12enat,
        DoubleWitness {
            xx: (0x40092aa8176a4ad2bf4ff3eec27eea4c9a7051c844fe6f7fb4190cc5c428ca04int, 0xfef4ac75f175913ad29cadd13264d8fcf9e8d069b15470633b7442684d719f5int),
            a: (-1, 0x63fe5c8bca86243486100d2af67b8a75841f16fc64e914f8cc48bbd87b28e60cint),
            b: (0x3ed606d185ff40cc8a8a606c52eb38e65ddda1229a44ae86afc30503e3e3dd17int, 0x364cba24d236a6c87a899d1b70e8358b160ee82bb507f0458b7ef3d67c908472int),
            zz: (0x1c2781338808c11b56f4bceeae0f03566a85152103666c5e68f5594d2638b54bint, 0x2a74beacc12280a465128b168e2da0ca5a666343df55f3afe2bee1109ecb20c5int),
            c: (0, 0x54e97d5982450148ca25162d1c5b4194b4ccc687beabe75fc57dc2213d96418aint),
            dif: (0, 0x2db1a266f84f7d6c0b86700f859354ea6e102ed0afe124b340c9c801fe98619aint),
            xy: (0x3f6eded8d7106694cf76a22ac0c24a68d12f07e90a18685136f1c7face56864cint, 0x4bcfba71e70fcfc2149140d0c6a645b81a890b39307cda565ce7532047b63455int),
            e: (1, 0x23b1cd90a482223bf5e8a99983aab36ae154726f60fb58adb9cea6418f6c68a9int),
            g: (1, 0x265d6f5d731f4db4cd5fd23e5dc1e7fb46705b2519f2a93f57c7afaff7b96a7dint),
            f: (-1, 0x456199571a77c9b4367494194b087e6be56138a05b451dde9249ed8dba2328f4int),
            x3: (0x155cd40c330a0869df4abc74c7f04411098947de488b11d9b040db74e770ad57int, 0x39654e40d7c661659c1934cc94cc336c1c2fb7d39d5a4ea78d1700b9d5587bbdint),
            y3: (0xf1f2e39bc4d61761a0e34b19ac6d934120ca759c832c89bb8d014287a934468int, 0x46a82496ec4b592abd0c4dd40f1dca9b35624a2e88d74d06d0c9ad340c8827caint),
            t3: (0xe11b902443cac58b108f5c0218f3ca4627bd1070069ed1e0059de6ba2242f4aint, 0xd47e0c0564bde0ddbb1795969aa5aaaf775446ebd0c96ea263554858b12cf60int),
            z3: (0x16f5f89a12bfe8d17e28641cdff2c20fbba0c54156a25b83005bfeadf4757c14int, 0x6a58621089121d7597ea0e4bdd699da1f562e03bce8dcb8b7146656481fe8b10int),
        },
    );
    lemma_chain_double(
        base(),
        ExtendedPoint { x: 0x39654e40d7c661659c1934cc94cc336c1c2fb7d39d5a4ea78d1700b9d5587bbdint, y: 0x46a82496ec4b592abd0c4dd40f1dca9b35624a2e88d74d06d0c9ad340c8827caint, t: 0xd47e0c0564bde0ddbb1795969aa5aaaf775446ebd0c96ea263554858b12cf60int, z: 0x6a58621089121d7597ea0e4bdd699da1f562e03bce8dcb8b7146656481fe8b10int },
        0x39f6d3a994cebea4199cec0404d0ec0299a0824f3320420b425cnat,
        DoubleWitness {
            xx: (0x1c6a9b17109ddaaf9f1ad5c7a698056d4559f3d9b205e3844d3bfe111b6c267dint, 0x21e7ed5677ee57022e9831166defa4336b3fba2113ec46ba47d55c13b453030cint),
            a: (-1, 0x5205b9fcb1af264604a1a6f19bb233d1e87de9e1ec121544b82aa3eb4bacfcf5int),
            b: (0x2b107cbdffd2fbcdfda0496b6737f0bd0157f70482e0406c40c8237cc8854becint, 0x2b49878e03ff61a33724769732f00245205ca3fd2fe2127060a562a47449df78int),
            zz: (0x618de8d00d8f5d02372831e176f7d1fb7d8fa04eac33ac2a05bc2ba6507f4c2cint, 0x62785b30568003f613d258256107782baf72accea378a309221cea440ecb14d4int),
            c: (1, 0x51030f0d83628aa3f46ad842b86d18520b27b59a46f2ea134439d4891d9629a7int),
            dif: (0, 0x26bc326eadafc4a2cd7d305a68c2318cc82145e4bc3002d457854146d7631d7dint),
            xy: (0x22fb60d3df7c3fcf143f99496863c0dfd109ba2b78b0200d70b000f77e690cebint, 0x3ae2bf61fa34c4b0ccc14309382508c3483f7faa12e7fa26d4b24648ecaa6137int),
            e: (1, 0x1d7d770cacc0c196648ae0a66a839813cc15b5125d1984ea9648c92d954c26dint),
            g: (1, 0x9619a378c110aa1088c4580c5005e11b51ce9dc1bf5cbb618d00690bff6dc6cint),
            f: (-1, 0x2c4c327d324bfd45475b454616351dc4fdb2d844d5013da1d4963206a260b2c6int),
            x3: (0xb44be5f0e5e2caeaeaa71e32ad799340bef9bcc187670519e10a383c27fa49int, 0x24d6184fea28d9420b5b199987d3a62ea8a4bbd3f5b9c8e18a36c021ad763005int),
            y3: (0x322729776c51b90c14f96739736d9c79b13cb711494516310988b0dd292a584int, 0x5cc323510cfe693f637a4213ae3c113d2cd767d25ae263c9ef11f600d1b33738int),
            t3: (0x9da80dfc0788ca3b62bbb7dcfc2497ffc5834ee1877cca0d1b47b08c7f95ccint, 0xfbeb0f4428367772ddb441234b0dd6deb2cc8c0239998f34ae5a64ce710b26dint),
            z3: (0x395ae8fbb4ac15f7e1d09d96f4f3cf09143293f84bf267b2a377286a81fe446int, 0x4cb824fc0ffbca3c2ac0cb9529073cf15ca060ccfafbd890b13ea1c47691af42int),
        },
    );
    lemma_chain_double(
        base(),
        ExtendedPoint { x: 0x24d6184fea28d9420b5b199987d3a62ea8a4bbd3f5b9c8e18a36c021ad763005int, y: 0x5cc323510cfe693f637a4213ae3c113d2cd767d25ae263c9ef11f600d1b33738int, t: 0xfbeb0f4428367772ddb441234b0dd6deb2cc8c0239998f34ae5a64ce710b26dint, z: 0x4cb824fc0ffbca3c2ac0cb9529073cf15ca060ccfafbd890b13ea1c47691af42int },
        0x73eda753299d7d483339d80809a1d8053341049e6640841684b8nat,
        DoubleWitness {
            xx: (0xbb46b50c5376c0c5998f587a2ecb81b6eecd9738fcf12c575f9ccaae35ab580int, 0x4a8b38b6261ed8247080c5906f2f406ec7f3128c16b8ca708985bd962c432a99int),
            a: (-1, 0x29626e9d037ea523c2b912779a7297968bca9176e945918e767a4268d3bcd568int),
            b: (0x4a39b927d63d8d2469c9e65d738a3f8bd8ab75d3c5e57f4b2d7eff839255774eint, 0x7e7d8e6ce040bf4000e7f07fe214448fb0dec5818bb0363642c356a21e3a4f2int),
            zz: (0x32c57fc234df8785c41620737c94cc2ea3b21121e9408ad8028967dffd6160bfint, 0x256039e5099c3c960a2190bd09f4310c4180ec5715cbbada273ffa67db5dec45int),
            c: (0, 0x4ac073ca1338792c1443217a13e862188301d8ae2b9775b44e7ff4cfb6bbd88aint),
            dif: (0, 0x217a95b6357a992fc2aa936f9c51534d90bca51ed08a8e2b124e0cfeb1d93076int),
            xy: (0x1d79ab65667aa5b2121eafe6f1d8e079caa54fc94ec5adcd222f635a403259cfint, 0x3142b72d2f1ad215a3cbc39d897eea303e1743fecde043d260e7ceeebe783a49int),
            e: (0, 0x62856e5a5e35a42b4797873b12fdd4607c2e87fd9bc087a4c1cf9ddd7cf07492int),
            g: (0, 0x314a4783d182b117c2c7917f9893dbdf86d87dcf020094f1daa677d2f5a07a5aint),
            f: (-1, 0x5a777b0ce7e7b533e1be480d8e4d51cc57944923d6677b3c8c2683023ee4a1d1int),
            x3: (0x4ce1fd2011f6712b25c0261fe331bf5b69e78abca48536975df116564713173eint, 0x190c6647a5fc8a0d1406ff8ef86fd383775f1f1a598205da1ea34fd52093e5f4int),
            y3: (0xe3c05b9748c8b22c62bbba653226738998bc80c0bdb70f8c5fa7395912dff68int, 0x43b34afde89eee6c7fbe46a4205151c65750823fb46071e40e6e1c09ae054614int),
            t3: (0x1c73ad0fcf839163320dcca3ac225416567640df7aebaaa952a80af44d569bb2int, 0x51a73dcb26f7bf91a05291043a3b93044c9c987c8cc3d10136a2858a211c7f9aint),
            z3: (0x2676e59e5526b6abe26f83a1d3e916a868e623034c6b2ba3764633faa70fa2a2int, 0x3e1f7f9f7b5ab57b78215e75ebb0613d862bd444e11b3b619ea5919e920edad8int),
        },
    );
    lemma_chain_add(
        base(),
        ExtendedPoint { x: 0x190c6647a5fc8a0d1406ff8ef86fd383775f1f1a598205da1ea34fd52093e5f4int, y: 0x43b34afde89eee6c7fbe46a4205151c65750823fb46071e40e6e1c09ae054614int, t: 0x51a73dcb26f7bf91a05291043a3b93044c9c987c8cc3d10136a2858a211c7f9aint, z: 0x3e1f7f9f7b5ab57b78215e75ebb0613d862bd444e11b3b619ea5919e920edad8int },
        0xe7db4ea6533afa906673b0101343b00a6682093ccc81082d0970nat,
        SumWitness {
            a: (0x1fa362e2728323bcded02f4601eaae1f21a7c969db0c0bdd3d22a0810fd32afint, 0x1056c7024ceeafe1ad40c8d748cbb2b40ce7dafeab376799c1c98d3958fc876dint),
            b: (0x332c87c9d4be461ae9a40b3cbe81b62a195bafc8671ae47a0c187692065d98b2int, 0x25ce2d4ac7f64e7431ff6f0eb8657c8d8a04a05639e49296636b8103dc13af0eint),
            dt: (0x1dfcb35a74b9d37d5fc654c10f0fc11406f00ab47a49f6971b1d29f7cf041ddcint, 0x21298f0a7d09753a4d5b0a38ad7d888c5cf7f4b4e75b2cbb4722199aa3df679eint),
            c: (0x18612fc2a4b5c8415e4ac30e26f08133f95bd5b1cf7bfd80dada9e4e7f195e2int, 0x67c3b20696951110dd66aa594b5188906d82d47ce07bcd7730d0c88f1df5f74cint),
            zz: (0, 0x3e1f7f9f7b5ab57b78215e75ebb0613d862bd444e11b3b619ea5919e920edad8int),
            h: (0, 0x3624f44d14e4fe55df4037e601312f4196ec7b54e51bfa3025350e3d3510367bint),
            s0: (0, 0x5cbfb1458e9b787993c5463318c12549ceafa15a0de277be2d116bdece992c08int),
            s1: (0, 0x60c7d6918e437d8827d3dfcfe8923870431f0f21be6a05e37815793fb5885c83int),
            ss: (0x4d6dfb1999d512271fd906f6713804a2cb702c77d8c3bef902c5e99f4828de9aint, 0x41a3dd16c49582958b0fe2746bfc8ff4869e8f960893601108aae5b6884b897eint),
            e: (0, 0xb7ee8c9afb0843fabcfaa8e6acb60b2efb21441237765e0e375d779533b5303int),
            f: (-1, 0x4a4974ec0e6321b2cdf48c24aa00b0b26c66a3cb009dc9e96dd4c90e7418e38dint),
            g: (1, 0x31f58a52e8524944224e30c72d6011c89ff104bec198acd9cf765a2eb004d223int),
            x3: (0x75dd162b85d73a84286b8c10eadfc9125f331c6d5a93cc707e8066f479e1d44int, 0xd81cbf37be01e4687bc91bfbfb5f6598e20e9940bacd95a59acedcc4ef24463int),
            y3: (0x17555b8367c633e00821ce405da2d5849fe5b008a676e089000d26af340a6ef4int, 0x54ce87e7ac0bd3a390ec26315d38300d8ee8b2eb4c163e43eb1f71f9c3c9e9ddint),
            t3: (0x55e7c85a6d128709a2859ca1c76a5383c19dcaca5aeccc6c31f4e7444253ca8int, 0x65a2ebc6e2b8aed057be87b59ffdab05c5ae2bd0649ea5a4ee347aa90c0e47c9int),
            z3: (0x20038b61eb51b75c07987387303fa78873f46e6be4e4948018617110099900c7int, 0x4f094c902d270506aaadbbb6f62b53567a9c489dce0e94d18be4a17beabc580int),
        },
    );
}

/// The multiples of the base point, from the multiple by
/// 0xe7db4ea6533afa906673b0101343b00a6682093ccc81082d0971
/// to the multiple by
/// 0x1cfb69d4ca675f520cce7602026876014cd0412799902105a12e1cc.
proof fn lemma_order_part_24()
    requires
        extended_valid(base()),
        extended_valid(ExtendedPoint { x: 0xd81cbf37be01e4687bc91bfbfb5f6598e20e9940bacd95a59acedcc4ef24463int, y: 0x54ce87e7ac0bd3a390ec26315d38300d8ee8b2eb4c163e43eb1f71f9c3c9e9ddint, t: 0x65a2ebc6e2b8aed057be87b59ffdab05c5ae2bd0649ea5a4ee347aa90c0e47c9int, z: 0x4f094c902d270506aaadbbb6f62b53567a9c489dce0e94d18be4a17beabc580int }),
        same_point(ExtendedPoint { x: 0xd81cbf37be01e4687bc91bfbfb5f6598e20e9940bacd95a59acedcc4ef24463int, y: 0x54ce87e7ac0bd3a390ec26315d38300d8ee8b2eb4c163e43eb1f71f9c3c9e9ddint, t: 0x65a2ebc6e2b8aed057be87b59ffdab05c5ae2bd0649ea5a4ee347aa90c0e47c9int, z: 0x4f094c902d270506aaadbbb6f62b53567a9c489dce0e94d18be4a17beabc580int }, times(base(), 0xe7db4ea6533afa906673b0101343b00a6682093ccc81082d0971nat)),
    ensures
        extended_valid(ExtendedPoint { x: 0xa6946e826a48730dca046233a6575db882a6946b3b40969803e474facd518eint, y: 0x2887c7b236103507a6cc7bba9f081a1c50abf74745746ffae9e21b9b7b1117b6int, t: 0x4d59caf1879f8e2482c5dacd8f6cfa592e384b298a413f5fa0e21abb660a5eb0int, z: 0x1f8fb6bd71dfcf2710c4d34f9d739a1a848d5fba020f5cc2e348a3e2f20c93fdint }),
        same_point(ExtendedPoint { x: 0xa6946e826a48730dca046233a6575db882a6946b3b40969803e474facd518eint, y: 0x2887c7b236103507a6cc7bba9f081a1c50abf74745746ffae9e21b9b7b1117b6int, t: 0x4d59caf1879f8e2482c5dacd8f6cfa592e384b298a413f5fa0e21abb660a5eb0int, z: 0x1f8fb6bd71dfcf2710c4d34f9d739a1a848d5fba020f5cc2e348a3e2f20c93fdint }, times(base(), 0x1cfb69d4ca675f520cce7602026876014cd0412799902105a12e1ccnat)),
{
    lemma_negative_base();
    lemma_chain_double(
        base(),
        ExtendedPoint { x: 0xd81cbf37be01e4687bc91bfbfb5f6598e20e9940bacd95a59acedcc4ef24463int, y: 0x54ce87e7ac0bd3a390ec26315d38300d8ee8b2eb4c163e43eb1f71f9c3c9e9ddint, t: 0x65a2ebc6e2b8aed057be87b59ffdab05c5ae2bd0649ea5a4ee347aa90c0e47c9int, z: 0x4f094c902d270506aaadbbb6f62b53567a9c489dce0e94d18be4a17beabc580int },
        0xe7db4ea6533afa906673b0101343b00a6682093ccc81082d0971nat,
        DoubleWitness {
            xx: (0x192dfc4d6892074f5d0db9f8a30a906aeb361adfe75534bb3ea8edb6b949f3aint, 0x19382a1c587726b34508424005c32f15a84eead60de764b8efc6e31845dc1f0fint),
            a: (-1, 0x5ab57d36d1265694ee3195c803dea8efab6eb92cf216f74610391ce6ba23e0f2int),
            b: (0x3e0a396afb8dd5f376c3dca1de392b66e8063e3236b235c348385829968ff9e5int, 0x65203cc2ffb7c6e60ec3c7451ecf2df99df6850cebb5d6c264d8e52d2a1e0ee4int),
            zz: (0x35e26ebc995af3bcf5e89dd6643d74b70d3606f1431cb6e6f6b844ddf9b48aint, 0x2f3beb8fae8eb0a3e0f25f70d8a74653ec4c674605287f884011e5b093648b76int),
            c: (0, 0x5e77d71f5d1d6147c1e4bee1b14e8ca7d898ce8c0a50ff108023cb6126c916ecint),
            dif: (-1, 0x6982e7c6fb0c0cf712a7a68aeeb152fb6135d823065f7c82ab6037b89005d20fint),
            xy: (0x9e1886d2db10b139ceb305bc4624c56fc0f89bf16e9909553a80dd384fb3842int, 0x4693383eb38125158e8339abaf874d62b273500e4b2a4c9f386925433d22ec35int),
            e: (1, 0x1938c92a3d64cce2e9cc9b4f556cc2c01128fc1996563d3f70d24a877a45d869int),
            g: (1, 0x4be812a6a740a032c9bb8505190bfee3f5a79a36ddce720975120214e441efd5int),
            f: (-1, 0x615de2da73c0bc333b109e2b715f4a4170cc6fadd37bcef7f4ee36b2bd78d8eaint),
            x3: (0x152ef90828b0885414a8cf829f34cb35af3ddff161ec5339515330194b11c753int, 0x29d741d3b59d90cabacd5d2ee341aa1477be18e30b70677a837486bf5d96a0a7int),
            y3: (0x4515f681ad24cbc26a3eb220bf1320d74a67d1864a3c8138a351e86ac3696f07int, 0x4037b563213614f17cd86d9bb64111103172547292b7c37afd73795d32595874int),
            t3: (0x16f49901751c868ce0d8e073d912a2cf0d19d25d9acd35a19853545a385c20a9int, 0x1453c731fabb858f72156288c181c4a75e1e61e9325b926394fd141c874eaf7eint),
            z3: (0x3fc0c09b664dfa3d63d7aab4f7b1b45f24a164f0e1d62988a38fc228aa0cde4eint, 0x69819cf31aca90bd0b070a2a3e3a38e2f36ddd37082b87683b7a00e8496c1264int),
        },
    );
    lemma_chain_double(
        base(),
        ExtendedPoint { x: 0x29d741d3b59d90cabacd5d2ee341aa1477be18e30b70677a837486bf5d96a0a7int, y: 0x4037b563213614f17cd86d9bb64111103172547292b7c37afd73795d32595874int, t: 0x1453c731fabb858f72156288c181c4a75e1e61e9325b926394fd141c874eaf7eint, z: 0x69819cf31aca90bd0b070a2a3e3a38e2f36ddd37082b87683b7a00e8496c1264int },
        0x1cfb69d4ca675f520cce7602026876014cd0412799902105a12e2nat,
        DoubleWitness {
            xx: (0xf19e80651919fe845d17962349172069d95dec0269bf7a9c3048f75f34173bbint, 0x7c46ad079dc301e4e80b4534e865d898b10f4b184a236a62abe3ad10b43b936int),
            a: (-1, 0x6c293c82afc14d29e4b923b4bb1b7a7bc8acaf517b5c2558d541c52df4bc46cbint),
            b: (0x2392a682856c38c39238189a97fb91ae8f7a3701dc355beded29e5ec43c30d6fint, 0x26a82acab9e6127242d216c2c92c8a5a40c14b28af4bca9e2b401986ab74e721int),
            zz: (0x60056e5fd8280ba6cb3b00082801cebce3c3b7c3078948bc258e9da29b46b2e1int, 0x37112ced27288456d7692518ed7905b4aa48e3e0b6d033483df83a9af26b842fint),
            c: (0, 0x6e2259da4e5108adaed24a31daf20b695491c7c16da066907bf07535e4d7085eint),
            dif: (0, 0x458111b7f5db3ab7a1e70cf1f1eef02187eb6428cc105abaaa01aba749475faaint),
            xy: (0x172d6b3121d48d5da643eb2e0fb7cb79eeee14aba77ed6cfe3fccec227afa73aint, 0x328fc706662cc900ec4cfe7d00e03409d013bc3451507a834cefc37fd98c72int),
            e: (0, 0x651f8e0ccc599201d899fcfa01c06813a0277868a2a0f50699df86ffb318e4int),
            g: (1, 0x1ee3bffa4009e253f451626f7aa62cd0b5b056772aa993f80081deb5a0312debint),
            f: (-1, 0x24af0d731b5656ee78b8f045a955f96cb4dc32b8bd0789668491697ebb5a258eint),
            x3: (0x1fffbb6b661b20d80600a2b9029f95218bace8d5476ff7db78a432a6f756e5int, 0x3c53250976508244001a665a5c1ef9837a7067a7e4cb28cedce4aee65d216b93int),
            y3: (0x12850bf40ee6aaf7fef0ca9a61c7e444e3ff5f1031d27d5e650a723685431c13int, 0x554185815a372437b029511aa5c6b234d09e9b4e371e923bccd555f3da9c96fbint),
            t3: (0x3ca0bcaa77b47931778b8126b2baf709e4e2d76c562576c8177bfadc9f33ccint, 0x5edb65ff72cbe7fd5882eae84a1b600b270ab3e15b0fe9a3fe5dc5db51c7ef9cint),
            z3: (0x9c64a3b47c9a5d154e2a378d28022d8e822452ab8c0b59c1d72e932b1b91085int, 0x47af663e69670de08ccd2e07abc20f78c566808a44dcb158cb832ab712cf5ed5int),
        },
    );
    lemma_chain_double(
        base(),
        ExtendedPoint { x: 0x3c53250976508244001a665a5c1ef9837a7067a7e4cb28cedce4aee65d216b93int, y: 0x554185815a372437b029511aa5c6b234d09e9b4e371e923bccd555f3da9c96fbint, t: 0x5edb65ff72cbe7fd5882eae84a1b600b270ab3e15b0fe9a3fe5dc5db51c7ef9cint, z: 0x47af663e69670de08ccd2e07abc20f78c566808a44dcb158cb832ab712cf5ed5int },
        0x39f6d3a994cebea4199cec0404d0ec0299a0824f3320420b425c4nat,
        DoubleWitness {
            xx: (0x1f64096db8139fc573acbd07301bd961d9c5728f8cd1429e231aac76da65a2c9int, 0x26af8af4a9b5c17bc75c5f45f0131976a38bfd9de82f2b86e54d62fbdcb493a0int),
            a: (-1, 0x4d3e1c5e7fe7bbcc6bdd78c2198ebe8eb031a66517cf30781ab29d03234b6c61int),
            b: (0x3eb2e9521a47f712511ea0e6aeddf194d61ed6e6e07cadfad2d3793f84453daaint, 0x711a1add8d4b303d81fcb743faf86bda8b9d364760e0548b35823d852addc6fint),
            zz: (0x2c53b9aaa756b07aabba5119323dfbc992041db908784f4dd74a6649e01ff355int, 0x86b93121ce9490ac76290fad842d74ab45e08d70647f079d5ccd6e1937729e4int),
            c: (0, 0x10d7262439d292158ec521f5b085ae9568bc11ae0c8fe0f3ab99adc326ee53c8int),
            dif: (0, 0x462c7ab0a71308c893bdad4dd9df37d10777d300a1c12b2f675a792ad09d8ff2int),
            xy: (0x2c5d301529a138cab590fe543dec5d1974c5f8dc082499c2731a507706dc0fdaint, 0x43f26324388f55fc0dbb5a838219a381fdecd0a8486540190ae3575399848b47int),
            e: (1, 0x13f71ef547812eafe83cdcfefa916efea81bfd4d90cc243315c6aea83309168dint),
            g: (0, 0x544fbe0c58bc6ed043fd4436593e454c58eb79c98ddd35c0ce0ac0db75f948d0int),
            f: (0, 0x437897e81ee9dcbab5382240a8b896b6f02f681b814d54cd227113184f0af508int),
            x3: (0xb9eb4e70b44c1dec19e73bc69caded076bd4ff2d45ffc781de60911331b19b6int, 0x4d5fc4877aa1b3581c4083dd7fe76a349e40a926ed3fd7e0c6a6df467c448bb2int),
            y3: (0x33091286d724fa5065e2a866f81e87a4a97ab9339bf7722e330eb6b0c236a6e2int, 0x28259227295d28e7af1839dfd5e02b30ea7847ff873cc2ed64eefdb7aaac5dbeint),
            t3: (0xc15dd331e860e96c7f059d1759d518b17556c9f620d1d2c7e2b674f23ff463cint, 0x4e1fa61567bae1671c6265ecb75925a5d46f854fcf231e74518bf57692a9ce0eint),
            z3: (0x3111e1fdb7975b73272a037ad2840b23a195a0aa647436ed5386b8918e4fac22int, 0x42ec203a5b2dbbdd2f7e8cb13203c130a51144fe4f32a2858b41cf08bc49aa5eint),
        },
    );
    lemma_chain_subtract(
        base(),
        negative_base(),
        ExtendedPoint { x: 0x4d5fc4877aa1b3581c4083dd7fe76a349e40a926ed3fd7e0c6a6df467c448bb2int, y: 0x28259227295d28e7af1839dfd5e02b30ea7847ff873cc2ed64eefdb7aaac5dbeint, t: 0x4e1fa61567bae1671c6265ecb75925a5d46f854fcf231e74518bf57692a9ce0eint, z: 0x42ec203a5b2dbbdd2f7e8cb13203c130a51144fe4f32a2858b41cf08bc49aa5eint },
        0x73eda753299d7d483339d80809a1d8053341049e6640841684b88nat,
        SumWitness {
            a: (0x4744172dfbda4321ace69d70afff7d7f21289112989343ad3609c8fcc0b433a7int, 0x157038b897ac6d512ffc112fb33e807b4b4d70c5dba8e860a7520675779bef55int),
            b: (0x1e58b36bb9403d81530536e48a49814b97b2097c36115aafb633e38040436cefint, 0x27426c4f7fcce28b10c55ff0feff208274f0a0ff61936e7e5dd63a2167f17cb1int),
            dt: (0x1cb0db5a872908cfad021d6ebb45d5e8158c1f090fd3ad9188699e96e90b6404int, 0x5331bd9288de4f6ea0893bec92244582a548339279f1263d2246625f2d1b77aaint),
            c: (0x4f5f2984f31e40b20bd9392f90bfd2d5cb49c074507d4173d15bcd26f31521ecint, 0x76f35c2612c5ecb30ad0913ff5678340f4d7d4e98074c81f4326dfe45dfb7e4int),
            zz: (0, 0x42ec203a5b2dbbdd2f7e8cb13203c130a51144fe4f32a2858b41cf08bc49aa5eint),
            h: (0, 0x3cb2a50817794fdc40c17120b23da0fdc03e11c53d3c56df05284096df8d6c06int),
            s0: (1, 0x197af5b7a615ef7981ee5b54c25bd6034fb4d23747e3ecf2b95dcff26f0e96fint),
            s1: (1, 0x4e7a2cab4d8fef627fa28fd19ba7c19a97abbf79df4db594e896ec1ba05d0dddint),
            ss: (0x113fb15b086b9f2d45892f528f1cb3389cd88213bb41531ad366573834c5813int, 0x5c8b80d2c5dba1be9ecbfffafd7059065299b7c6b5052ca5655b59fd83dacfc0int),
            e: (0, 0x1fd8dbcaae6251e25e0a8eda4b32b808925ba60177c8d5c660331966a44d63baint),
            f: (0, 0x3b7cea77fa015d11fed1839d32ad48fc95c3c7afb72b5603970f610a7669f27aint),
            g: (0, 0x4a5b55fcbc5a1aa8602b95c5315a3964b45ec24ce739ef077f743d0702296242int),
            x3: (0x10579794219cffbbf9568d00176aa7378a8e67d590dbb7d29c8227c911ba295dint, 0x60573183e0d93adadc23c07ca45c450a1b4d3c9f60f06745a21f92c906b73147int),
            y3: (0x26ee888043ec48394baaf0a7f9a5461654ddd0d7c36f34f05b76cf6c366ac076int, 0x392db6aa1376988b876cddcf764eed34c445b33bf1959698da4aa42be85b6516int),
            t3: (0x10acadc8b2bc980efe75790145bb268472ecc67b7ff8f6c1afd876de89a29faaint, 0x6a1b28f541108d103575166b65cdbe162b04f0c48a754f8fe5b2e5fee9b22eb2int),
            z3: (0x2627df4beaac9cbb253cbaaba339f179c5ed5185f0c9892e8bf2167b7eeca79cint, 0x5ac59e6e74d786a01807d3278e903a18454e8c3a2962e60548a6155a60c08fd8int),
        },
    );
    lemma_chain_double(
        base(),
        ExtendedPoint { x: 0x60573183e0d93adadc23c07ca45c450a1b4d3c9f60f06745a21f92c906b73147int, y: 0x392db6aa1376988b876cddcf764eed34c445b33bf1959698da4aa42be85b6516int, t: 0x6a1b28f541108d103575166b65cdbe162b04f0c48a754f8fe5b2e5fee9b22eb2int, z: 0x5ac59e6e74d786a01807d3278e903a18454e8c3a2962e60548a6155a60c08fd8int },
        0x73eda753299d7d483339d80809a1d8053341049e6640841684b87nat,
        DoubleWitness {
            xx: (0x500fff51e3af30340ae97c1c596864af24e3a53001954e472c88daf951b099d5int, 0x12c80fe45ab8c2caf1fbb59bcdf1e3dddebfa4ab33e6b10d706735c07f4da7dcint),
            a: (-1, 0x6125976ecee4ba7d413e226c3baff42774fdff57cc17aaf18f98ca3e80b25825int),
            b: (0x1c33a9b9d0a0166ded2515d9f93bcbb80a0131c8585ceb9dc5d549007e38f3a6int, 0x4154689fa6f8ea8171a113a4efbab8559ec227a1946dc1659c3997e267556a3eint),
            zz: (0x47131174321b5315bbf97e1cc0e6008e66668eb40896b05ff4c2a64e6bf111afint, 0x676bc500286113a72dbc0ca51b2c14b0a34f628a7de7a07946ddfbfaa8e1f491int),
            c: (1, 0x5ae9e2ad2724aa06283e41422cb6515bf2e12111fbd0e4f38dbbf7f651c3e921int),
            dif: (0, 0x1fd12ecf27ebcffbcf9d0ec74bf53bd1d63bd7b637a9e98bf35f325c195cede7int),
            xy: (0x2f8476e12eb56f54cdb91959c09cfb9ea9c132d5c02cdc708773397b246f5815int, 0x1e50b1e6d13ae7b68ab5ef98f068bdb7079ddcf4826efd758d04363a91fce705int),
            e: (0, 0x3ca163cda275cf6d156bdf31e0d17b6e0f3bb9e904ddfaeb1a086c7523f9ce0aint),
            g: (1, 0x2e8c58bb4c4027b67fa55e0921c8d477c00282f6608710582bd26221e807c262int),
            f: (-1, 0x47901d614eb8faf88aa0f4cefeb45b2120df05e764b487639e166a2a9643d942int),
            x3: (0x256d67e4d0827ea7c709e7f201aaa4758e6ec9769332b05e16970f62a5a0098aint, 0x594e6fc0a9c25b17633f258f57bcfa416926bb285d390e9aa608f698290b8f0aint),
            y3: (0xcc6807b5e516d23ef015da7ba71fc016f1a5d09bff15a72e3644c5ea5b54c10int, 0x6fa5e5d4a19d70ed8d26ffda17445dfc67851ce3b7594268b4f814165577d45eint),
            t3: (0x10a3eca05cf985eb5e763e530cc1cca6c9f767635ae21f8322fecb8f09ae9fa4int, 0x335a2e07d74a388c66d59604b37556da7cbab5f9d7ede76147087693b6118d62int),
            z3: (0x1cbc0026967bc308c9a49abafdc7871d65290227770fdf0665c31bcb2b26a1f1int, 0x35a86774b141dd14a685386796ada5a6b42423723ca5ac526bd24e9386448d53int),
        },
    );
    lemma_chain_double(
        base(),
        ExtendedPoint { x: 0x594e6fc0a9c25b17633f258f57bcfa416926bb285d390e9aa608f698290b8f0aint, y: 0x6fa5e5d4a19d70ed8d26ffda17445dfc67851ce3b7594268b4f814165577d45eint, t: 0x335a2e07d74a388c66d59604b37556da7cbab5f9d7ede76147087693b6118d62int, z: 0x35a86774b141dd14a685386796ada5a6b42423723ca5ac526bd24e9386448d53int },
        0xe7db4ea6533afa906673b0101343b00a6682093ccc81082d0970enat,
        DoubleWitness {
            xx: (0x44cc4676e4c84cda285e5bdf9850aa1980fef56d14c3b3d3c9a8f47f03659242int, 0x11ebf842964c38238576c395e3432abdfa840591a486a2821d9265f9cb629a22int),
            a: (-1, 0x6201af1093514524adc31472265ead4759399e715b77b97ce26d9a05349d65dfint),
            b: (0x6b86996e998eeaf4b36662632fe4a19e7b638a7f43aa6c1336ffd9e4b8c4fe8eint, 0x10741fa3708be9edaf60d5cb56c8282dabf97737afe02dcae351feed2cad3f6int),
            zz: (0x18d5f122471224de93263c24681dd8492db54fae74d3bb361b6dd8d926a7a78aint, 0xeda6b04f046c7049a1275f0f37e49f6602fd1967540fc988aa86511f74e15fint),
            c: (0, 0x1db4d609e08d8e093424ebe1e6fc93ecc05fa32cea81f9311550ca23ee9c2beint),
            dif: (0, 0x60fa6d165c488685d2cd071570f22ac47e7a06fde079b6a034387a1661d291e9int),
            xy: (0x56024fc30a96979d2e681de36452175c93f7e054cecb3ce090d57625bff4a4e6int, 0x4b8c60e2a850a8c7eec6a6651e5acda6b43432edef1749cc0d6ba56b46428c6int),
            e: (0, 0x9718c1c550a1518fdd8d4cca3cb59b4d686865dbde2e93981ad74ad68c8518cint),
            g: (0, 0x6308f10aca5a03c388b921cedbcb2fca33f935e4d675bc5990a2b9f4076839d5int),
            f: (0, 0x612da3aa2c512ae2f576d310bd5b668b67f33bb207cd9cc67f4dad51c87e7717int),
            x3: (0x7ea8987e464b96438eb8751ec28636b8cdcd32b4c04415e140c3568e2b5e4ddint, 0x6dbaf79e40e93521f4b50cdc61dc821b42f0d062f43dd48b7f4b4257281982b7int),
            y3: (0x52d8a613d186bed1a2c78eaea48c0c05a1f5fb01e0759d69ab6db8bf9bd3aa84int, 0x5dcc83a44ceb8b5137b9ba9c30e6e9a2c9a1791aa6157068f9ed74c850849d59int),
            t3: (0x7e65d8a6b611c42b2b77d9fd5f62f004c36911dbf3b1420fb1f4d2b9f81f40aint, 0x49168be02b58d2b412e3f575edf9850adc122ecb04c84d1713ffa64d25d89062int),
            z3: (0x53046624ea9edf50b8f21f4f8313e8370614f832557ec306ff7fe64da43cdad1int, 0x26f4982cc644eaa69fc46552772cbc6c9f2e5528eb17f6bd4ad168c157d85a52int),
        },
    );
    lemma_chain_add(
        base(),
        ExtendedPoint { x: 0x6dbaf79e40e93521f4b50cdc61dc821b42f0d062f43dd48b7f4b4257281982b7int, y: 0x5dcc83a44ceb8b5137b9ba9c30e6e9a2c9a1791aa6157068f9ed74c850849d59int, t: 0x49168be02b58d2b412e3f575edf9850adc122ecb04c84d1713ffa64d25d89062int, z: 0x26f4982cc644eaa69fc46552772cbc6c9f2e5528eb17f6bd4ad168c157d85a52int },
        0x1cfb69d4ca675f520cce7602026876014cd0412799902105a12e1cnat,
        SumWitness {
            a: (0x8a9931c5a4f05f68534cdfd5f53b1518f13b54c30a149dc860075b05977a093int, 0x374924101dc5e4cae8da1c5a654070f22ae91a7ceb2c13e65543749f859621c2int),
            b: (0x46e6ca74c602eb9763f0ad59e09caf1f33bb1ea22fc259e84f59bc8d79b96f1aint, 0x6f26eae0f5f0664cf0ce5a79994b9e1109cb466f00520faa318b1e083a85fe96int),
            dt: (0x1ad76f56a027b1cbbe58379fa5f038af18b38f8c20874121f91225005c375c3eint, 0x1dd737cf5feb1cc169c1db3486dd4eed7f3e842b24088a942b65aa5a81643384int),
            c: (0x15f00cc0108e6900007b9cc6ae91e822f917d66bfb56a017f326b29fa5807c1int, 0x2c3f1e600bdfdd29848808ce9ead95d628f0a0f086e6077572dbb8dca4315aa3int),
            zz: (0, 0x26f4982cc644eaa69fc46552772cbc6c9f2e5528eb17f6bd4ad168c157d85a52int),
            h: (1, 0x3282679dea18cdcfa66e9ecbf4ea36fde0f6bce8eb7fc79186ce92a8c01c2057int),
            s0: (1, 0x5799d3ef6437432af934ef70892193b8b8d4a57a9a54e8f57938b720789e200fint),
            s1: (0, 0x60c7d6918e437d8827d3dfcfe8923870431f0f21be6a05e37815793fb5885c83int),
            ss: (0x4921c93bb4e12e2360ee5432264dc371bb1b3f5ca36775c3984b95072154d73aint, 0x59ec69f9e5021830a3b4dafc2906608a16ceca006a61319346b27e860e12f473int),
            e: (0, 0x276a025bfae94a60fd463c30341c298c35d80d177ee16a01bfe3ebdd4df6d41cint),
            f: (-1, 0x6ea3211fe4028ac54e76348be220fe9bc9fb583b64304b46d7f5afe3b3a6ffb0int),
            g: (0, 0x5333b68cd224c7d0244c6e2115da5242c81ef61971fdfe32bdad219dfc09b4f5int),
            x3: (0x259d7d29c89be42ec43e340fd94a196ed56122ee8252fda203e9e40dad0f1610int, 0x50c41d23db324d3eacf62b413194d265983719348c363216ac762801e812a130int),
            y3: (0x24402d987207b63bd5be2bd53d35d3047f386c9a153411c24ff5c7db6cc249c8int, 0x5f92b756efdfb506acfb4954a86e50d44003ed2db10372b32bde01adfbf4d57bint),
            t3: (0x112c2a980d7a840959cf8877eca690f66aa0bcd8bafd5adc9ad7c1899d6888caint, 0x24ee1b4b3feac24bf563dd9fcd75fd5b43ed6960b4345b12c2aa69a8ef0d0cbaint),
            z3: (0x4f679179d9697a19f6ad44a328d2b8d03440a03862f5c5092c349866d731077eint, 0x6f139aeef2ab6c1e94e9716f570c594c88f22cdb890e5a15daf411d3c0996bf2int),
        },
    );
    lemma_chain_double(
        base(),
        ExtendedPoint { x: 0x50c41d23db324d3eacf62b413194d265983719348c363216ac762801e812a130int, y: 0x5f92b756efdfb506acfb4954a86e50d44003ed2db10372b32bde01adfbf4d57bint, t: 0x24ee1b4b3feac24bf563dd9fcd75fd5b43ed6960b4345b12c2aa69a8ef0d0cbaint, z: 0x6f139aeef2ab6c1e94e9716f570c594c88f22cdb890e5a15daf411d3c0996bf2int },
        0x1cfb69d4ca675f520cce7602026876014cd0412799902105a12e1dnat,
        DoubleWitness {
            xx: (0x3844d5956f7bdeff60f0015edace1f60a0e3c26384e709ac10bb2758e4f59b68int, 0x69f611c25abcda9011756bfa47215e0aeb8292fb86065fa361607bf12b47cd98int),
            a: (-1, 0x9f79590cee0a2b821c46c0dc28079fa683b110779f7fc5b9e9f840dd4b83269int),
            b: (0x4ecabd24123416490a5c53a17b39d3569db90395827fe0aaa48fe224178f1730int, 0x125fbb9060d43571b8846659a4d1c281a92d54ad577fd3b70e0b810beeed1e9int),
            zz: (0x6a6d89c3e8e5267a4e19b39e643ae653de1184051271870e7fd7c8de6462e959int, 0x24a0e86b9d63721dabaff2c594189eb161b1762405134be63fffb343d065476bint),
            c: (0, 0x4941d0d73ac6e43b575fe58b28313d62c362ec480a2697cc7fff6687a0ca8ed6int),
            dif: (0, 0x8d199d7c8d35f61063c25a828335dd24da83bbca47fff202dbecbfd15c96080int),
            xy: (0x4295b52b79133bf9e32b92deafe72b29ce30926813d5d63404f58246ba7a9e34int, 0x454e85440aed6fe6d000f8078e057fc35696ca09ef94437ea0c77e2af855c3dcint),
            e: (1, 0x16af6334ec3d62856cc8180712692781596ff010df2a2afe418efc56f0ab87b7int),
            g: (0, 0xb1d9149d4ede60f3d4cb2735ccd962282cde6524f6ff9970f803c1e93a70452int),
            f: (-1, 0x35c967c5c3c47f1c1926a4f03e3e30c513289e0d4547bdc98f80d595f2dc757dint),
            x3: (0xa866d53bc3aff99a7b59601e33e4a54c599d3689b9651157c6e576d63f8dda6int, 0x5a36bb03bfd0034b8cc72e518590d84333e549a786e1f4a02e29b2e1241309b5int),
            y3: (0xd876e3fa2bb654e6822efced220639a0a88eda4274e8db122938bd53112651int, 0x699551cde311a5a06d4907131cdd3b77a1843679d6024f6dc90860c34071c2afint),
            t3: (0x1b9c5b1afdc0f40583f401b468b2343e14a1375d15bcd8b30d8eb217a166227int, 0x47055dd510f1bca8a2f1e74d916778f12c29a294d378e038b4528268c0411959int),
            z3: (0x5283eb63840c7c0ab67f1d0c66b92aff829eb6632e614d45da5ba0fc04f468bint, 0x5c92916795b7bf5a0b2fd62928549c6ab1dcf738a07fe79aff69643be7af4f7fint),
        },
    );
    lemma_chain_double(
        base(),
        ExtendedPoint { x: 0x5a36bb03bfd0034b8cc72e518590d84333e549a786e1f4a02e29b2e1241309b5int, y: 0x699551cde311a5a06d4907131cdd3b77a1843679d6024f6dc90860c34071c2afint, t: 0x47055dd510f1bca8a2f1e74d916778f12c29a294d378e038b4528268c0411959int, z: 0x5c92916795b7bf5a0b2fd62928549c6ab1dcf738a07fe79aff69643be7af4f7fint },
        0x39f6d3a994cebea4199cec0404d0ec0299a0824f3320420b425c3anat,
        DoubleWitness {
            xx: (0x4633fe2a639ff3f5208085d7980a510fddf05f0707ebe16a162a1d2d26a89447int, 0x2db074aa7cabf0d2320ec9c77bbdad4c2ac87f3368b4b80b208497693293a5b2int),
            a: (-1, 0x463d32a8acf18c76012b0e408de42ab928f524cf9749a3f3df7b6895cd6c5a4fint),
            b: (0x6029505cad3e7726ac51ce7c8eda6d5bec89c3449ce6de740f6bce472be051b4int, 0x27cb7d6916df474b65ab5cd3e61c26d07201894c262e0ca0a4ef6debc6ab61edint),
            zz: (0x49ec130b167e81a81eba94a7693b489e475ce935ba816a1b3df006b78cda63bbint, 0x5d654b5dad27927ee86246079d447c0e658865a5d43ecc5719b013126d773d46int),
            c: (1, 0x46dcef6830b1a7b59d8ab40730e7201777532748a87f3caf33602625daee7a8bint),
            dif: (0, 0x1e71b53f9612452a9b7fb16ca7c803e8b6f39b83711b97533a8bfaaa06c0f862int),
            xy: (0x5229d59ac4a09fa74b762be456e7a3fd3cedfd3e59dd9c8a0bbca1ae957b81c9int, 0x7a382ee14409880d888c10d7d495ca65083ea61251673d6f900b90c09c84af2int),
            e: (0, 0xf4705dc28813101b111821afa92b94ca107d4c24a2ce7adf2017218139095e4int),
            g: (0, 0x6e08b011c3d0d3c166d66b14740051899af6ae1bbd77b094846ad6819417bc3cint),
            f: (0, 0x272bc0a9931f2c0bc94bb70d4319317223a386d314f873e5510ab05bb92941b1int),
            x3: (0x5297dd9656c958aa7f3c2067fc84e3abe962df6ef8be25077157641995176e0int, 0x972675b4058a6c9d79d6ca1f7e6f629958986b1d721d23fd98ca6c169390fc4int),
            y3: (0x1ce56f7a75678237e83929ddab57a24c812295b1768378ed25f7eb295439d5b6int, 0x5ea58e99eb08fc524abaa96842afc0df086211b8be0f5be49bc6c7acf0365942int),
            t3: (0x40314e04ac5237d0e50b84110cfee615d3a9aaf49e1523c2742dccb47e0ff49int, 0x4926cbe95ab7be919a5d1fa2c7f894fe3917f3aa9d11c81d8967640509ad41ffint),
            z3: (0x252de3bf0e67c5a5d47868b18204659838ff88c825b69ec7c7bf7ff4bf0dafe1int, 0x2443cc97c8bf8aa12360fcc0b9b2dddb3989ff4ae7fde284f09a6e462dc2b19bint),
        },
    );
    lemma_chain_subtract(
        base(),
        negative_base(),
        ExtendedPoint { x: 0x972675b4058a6c9d79d6ca1f7e6f629958986b1d721d23fd98ca6c169390fc4int, y: 0x5ea58e99eb08fc524abaa96842afc0df086211b8be0f5be49bc6c7acf0365942int, t: 0x4926cbe95ab7be919a5d1fa2c7f894fe3917f3aa9d11c81d8967640509ad41ffint, z: 0x2443cc97c8bf8aa12360fcc0b9b2dddb3989ff4ae7fde284f09a6e462dc2b19bint },
        0x73eda753299d7d483339d80809a1d8053341049e6640841684b874nat,
        SumWitness {
            a: (0x8b37d14ed74ce707b688ad632b43fd83c1ce71f6ad89d5062d7de62603c06d1int, 0x3db3a85b3817b293b9d5c1803d009f45cdb8788ed8f46fbccb907476dd201067int),
            b: (0x478ad9e0231a3840c5ca3b6ac79fa4f16b937d85c15caa6528aa635c9d12c66dint, 0x2d46f46fb794e17a01b40cbf516359b943a712e3623793261c2f79940e9d9ff3int),
            dt: (0x1add671bce0c95da7b422be3dd66572a17de0684f9d09c4f24034c6da3bcf770int, 0x79fbac225c00599707e4b1b8aa6e553f4a1983f920fd2d6fed8a35c94d56bdfint),
            c: (0x7460d69d261770e8ccdb06681dc06f5aaa6ec16e8516223fd4b49e20605d906int, 0x522e9fbe0d5fa3cf9d30e6e7be782fb48d32a96df56487a3a54d1944bdb528b2int),
            zz: (0, 0x2443cc97c8bf8aa12360fcc0b9b2dddb3989ff4ae7fde284f09a6e462dc2b19bint),
            h: (0, 0x6afa9ccaefac940dbb89ce3f8e63f8ff115f8b723b2c02e2e7bfee0aebbdb05aint),
            s0: (0, 0x6817f5f52b61a31c2258160a3a96b7089deb986a95312e2475536e6e596f6906int),
            s1: (1, 0x4e7a2cab4d8fef627fa28fd19ba7c19a97abbf79df4db594e896ec1ba05d0dddint),
            ss: (0x46773c47b2397f37a9595b137b152676213e2c24793046d5dbb908608b5ceba0int, 0x7241d551a3e3b2729b3179e1cd31145d732ff4f5819f54f068578dcc39540c8eint),
            e: (0, 0x7473886b4371e64dfa7aba23ecd1b5e61d069834673520d80979fc14d965c34int),
            f: (-1, 0x4602d42ce4fd6419b969ede104dc862c0014f9dff297b6e04b4d5500700d88eaint),
            g: (1, 0x284c502ac81b1288d580ba06e89358a72ff04b5dd640e2995e7878beb77da4cint),
            x3: (0x4653ae4465bfb80bb2f63a56d4cdaaac02c15496196e4b916a687f2ee71d997int, 0x2595f2097918460d8e5b65b9d1db4acc3416c8a83237a90824606864c9e0df1int),
            y3: (0x252feb5df7cc58464feb0194930ce53763166821a602019ddccc02d317b939bint, 0x369055d9e6ca6e07b3445ea2b7f51d451176e14e49cbca97ca0db858ead76b1dint),
            t3: (0x6b762816d11ee6fab35c360148b26bedfcaec52a0d757d1b0a14d55ba1b9632int, 0x5bad2414baee193039984fae754b5b7f25ec237d2d5a266d68f098d6ba889416int),
            z3: (0x1856317308c872f012da3dc2acb54997214777ec9cc68ef5339aaa5bfbb364bint, 0x31cabfe5b52bc3c143c5fedec3e4b6b97e22de1b58e0e566439c67397da6b32dint),
        },
    );
    lemma_chain_double(
        base(),
        ExtendedPoint { x: 0x2595f2097918460d8e5b65b9d1db4acc3416c8a83237a90824606864c9e0df1int, y: 0x369055d9e6ca6e07b3445ea2b7f51d451176e14e49cbca97ca0db858ead76b1dint, t: 0x5bad2414baee193039984fae754b5b7f25ec237d2d5a266d68f098d6ba889416int, z: 0x31cabfe5b52bc3c143c5fedec3e4b6b97e22de1b58e0e566439c67397da6b32dint },
        0x73eda753299d7d483339d80809a1d8053341049e6640841684b873nat,
        DoubleWitness {
            xx: (0xc2f94a66dfe2c2438d94616b8fee3c4dc8ad6e2ebd5eb798706f5006dfd46int, 0x52efbc921f785ab19d7b12cd7e20b5c3f3c116214efc68139fbf14794dd05f9bint),
            a: (-1, 0x20fdeac10a25229695bec53a8b8122415ffc8de1b101f3eb6040eb85b22fa066int),
            b: (0x19ae746e9a123ad9677411022fd7e81d762a28a1026a1e8d0d401c1835d9000cint, 0x46293da70904d6ff268d5b3c58b5ecc448fc19c83e4e8d2fc30cbcf9e5ae413dint),
            zz: (0x1562d0504dd1e2e281caded7abc83d8747e8a56cbac500839a5341cc7fc41b17int, 0x43685c4100b96268e792a67e26e690928189c1d5075f1735285f10db4dffdad2int),
            c: (1, 0x12e3112ed7d547899beb74f4442b491faf55dfa70ebfd26b50be21b79bffb5a3int),
            dif: (-1, 0x4ec2546d2abdc8dfa26b42063c6d0d826abe181c72b1c2ba9d342e8acc815f2aint),
            xy: (0x11b0bf06bda2490c4cca3fa8c8cac597dcf73bf2335eae102c1b0e885a7a333int, 0x4c427669387dfbc13a198e01d7e60beac3eb62793c028c3c95f8a5db377aac1aint),
            e: (1, 0x2497457f475e7a3a40f943fba62a3fd0341920ef7806bc7a2bf14bb76ef55833int),
            g: (0, 0x672728681329f995bc4c2076e4370f05a8f8a7a9ef50811b234da87f97dde1a3int),
            f: (0, 0x544417393b54b20c2060ab82a00bc5e5f9a2c802e090aeafd28f86c7fbde2c00int),
            x3: (0x1a98e1b16063e173906dc832f6a08dd2a1b4e0aded1e13a20915a1edc84cf5acint, 0x890a3619c1e1f43cc1f02a89d0501ff21dbbb029dc975f08276e2b1e015ce54int),
            y3: (0x46146db7a782b81a5b57706df28bc347f7161028070f57100ecafb25a34196c0int, 0x615b9500c97f7f87473edf9c38012514162db55fa2554cbd4e4edc5f3503eafeint),
            t3: (0x18dbe9d2c50d303d0070c5071ce7f695607b500c9df538cf83a9373e215f09e7int, 0x5fb2566313d5d58ffdd3f0fd36117be4d894f583a14b3669c9b67256344f5b77int),
            z3: (0x4afad53e7569b3206cf6589a03521a24f6460dc14b3e29e0aae257f22f091d0dint, 0x5f964e1cd35922a0bef149a8903450c4ca5a5cbef6d1afe0074ba98e7018e6f3int),
        },
    );
    lemma_chain_double(
        base(),
        ExtendedPoint { x: 0x890a3619c1e1f43cc1f02a89d0501ff21dbbb029dc975f08276e2b1e015ce54int, y: 0x615b9500c97f7f87473edf9c38012514162db55fa2554cbd4e4edc5f3503eafeint, t: 0x5fb2566313d5d58ffdd3f0fd36117be4d894f583a14b3669c9b67256344f5b77int, z: 0x5f964e1cd35922a0bef149a8903450c4ca5a5cbef6d1afe0074ba98e7018e6f3int },
        0xe7db4ea6533afa906673b0101343b00a6682093ccc81082d0970e6nat,
        DoubleWitness {
            xx: (0xa1fefc5e074a7ad61c231d914ccc89936d0c332e2adc82f57e62adb5e00fe4int, 0x1b18286e46d0628fc97ac7826a80755053461e20a2f89074686b784cca333bacint),
            a: (-1, 0x58d57ee4e2cd1ab869bf10859f2162b5007785e25d05cb8a979487b235ccc455int),
            b: (0x51c31107539ad1c3e1c323f80d4acb74be734fb50760b7af0cf9adfb5f9fccf6int, 0x71143767b00060e49f9cb730963bc59fef9c5120bd7e9e6b6d35b6db2609870eint),
            zz: (0x4ed0a827408292feb04be8cdd90c98ce2999be377e2a56c2564960001fe69caaint, 0x346846048d0d7edb446a2ef474bb5f6e230a7c44390b5ba1d3a214be9e02edffint),
            c: (0, 0x68d08c091a1afdb688d45de8e976bedc4614f8887216b743a744297d3c05dbfeint),
            dif: (-1, 0x5baeeed05c6a371bfd5c315d1287751a6498d8c49f85891e2a5ed0d60fc33d48int),
            xy: (0x731661d54007593ebcc0a41d495e5639da3c7c539ca76b61635f89cd28df741int, 0x3f0924b4c9e7cd010c46ab09c23f2c9fcaa9a952e5cb4978affd671940a98817int),
            e: (1, 0xa24a2166a321cb9e5537e0b7adc813a4195aea2cb9836f25fface338153102dint),
            g: (1, 0x55fc0ef9692ffe54d621efae2bbb504f9c5633001a860df704ca3e8e5bd64b62int),
            f: (-1, 0x61192a4378b27de6808769cd4be66978a9fede7aa86db2b25d8615101fd06f65int),
            x3: (0x87edddc9500db44c2eaa9d8707727eda00545220267d77828783465a68b9333int, 0xa6946e826a48730dca046233a6575db882a6946b3b40969803e474facd518eint),
            y3: (0x440080fc447cfe6daf493b77d9f908b9fbc3f712c7af1a19d4e804bc92d075daint, 0x2887c7b236103507a6cc7bba9f081a1c50abf74745746ffae9e21b9b7b1117b6int),
            t3: (0x8059430ffe5a337bbd165ab7080fe5f6f901821ea8760b0db27865fb973e6f8int, 0x4d59caf1879f8e2482c5dacd8f6cfa592e384b298a413f5fa0e21abb660a5eb0int),
            z3: (0x4804add067ccac61aba694809cabd76a85f8440b46f5eb9d7519bd2451cea7adint, 0x1f8fb6bd71dfcf2710c4d34f9d739a1a848d5fba020f5cc2e348a3e2f20c93fdint),
        },
    );
}

/// The multiples of the base point, from the multiple by
/// 0x1cfb69d4ca675f520cce7602026876014cd0412799902105a12e1cc
/// to the multiple by
/// 0x39f6d3a994cebea4199cec0404d0ec0299a0824f3320420b425c397b6.
proof fn lemma_order_part_25()
    requires
        extended_valid(base()),
        extended_valid(ExtendedPoint { x: 0xa6946e826a48730dca046233a6575db882a6946b3b40969803e474facd518eint, y: 0x2887c7b236103507a6cc7bba9f081a1c50abf74745746ffae9e21b9b7b1117b6int, t: 0x4d59caf1879f8e2482c5dacd8f6cfa592e384b298a413f5fa0e21abb660a5eb0int, z: 0x1f8fb6bd71dfcf2710c4d34f9d739a1a848d5fba020f5cc2e348a3e2f20c93fdint }),
        same_point(ExtendedPoint { x: 0xa6946e826a48730dca046233a6575db882a6946b3b40969803e474facd518eint, y: 0x2887c7b236103507a6cc7bba9f081a1c50abf74745746ffae9e21b9b7b1117b6int, t: 0x4d59caf1879f8e2482c5dacd8f6cfa592e384b298a413f5fa0e21abb660a5eb0int, z: 0x1f8fb6bd71dfcf2710c4d34f9d739a1a848d5fba020f5cc2e348a3e2f20c93fdint }, times(base(), 0x1cfb69d4ca675f520cce7602026876014cd0412799902105a12e1ccnat)),
    ensures
        extended_valid(ExtendedPoint { x: 0x6363d2e4e259dde8f3fd89d711f4cd205041c61a88e0ad26599502c525e9bf78int, y: 0x11c7f45ab0ccd3e7e791b2514ace5de4064d8b3dc236470a082040d158d79dc4int, t: 0x2eee45da4ba2a1b9a3bb557d532a23e6e8a980e4b3727de2549d02e77fb69902int, z: 0x19130f022749554e946c4db5cae4f03d898c86f1e0513f6347b5c0d1dcfaec3dint }),
        same_point(ExtendedPoint { x: 0x6363d2e4e259dde8f3fd89d711f4cd205041c61a88e0ad26599502c525e9bf78int, y: 0x11c7f45ab0ccd3e7e791b2514ace5de4064d8b3dc236470a082040d158d79dc4int, t: 0x2eee45da4ba2a1b9a3bb557d532a23e6e8a980e4b3727de2549d02e77fb69902int, z: 0x19130f022749554e946c4db5cae4f03d898c86f1e0513f6347b5c0d1dcfaec3dint }, times(base(), 0x39f6d3a994cebea4199cec0404d0ec0299a0824f3320420b425c397b6nat)),
{
    lemma_negative_base();
    lemma_chain_double(
        base(),
        ExtendedPoint { x: 0xa6946e826a48730dca046233a6575db882a6946b3b40969803e474facd518eint, y: 0x2887c7b236103507a6cc7bba9f081a1c50abf74745746ffae9e21b9b7b1117b6int, t: 0x4d59caf1879f8e2482c5dacd8f6cfa592e384b298a413f5fa0e21abb660a5eb0int, z: 0x1f8fb6bd71dfcf2710c4d34f9d739a1a848d5fba020f5cc2e348a3e2f20c93fdint },
        0x1cfb69d4ca675f520cce7602026876014cd0412799902105a12e1ccnat,
        DoubleWitness {
            xx: (0xef5ca98109ab6a699ecaa450be39cbf113b8d8a6e91e78b0125d249f24e9int, 0x3854e283454e2677e9b9b1e15126dddef7038bf3ca7f6a6a2e4f9330eac805dbint),
            a: (-1, 0x3b98c4cfe44f56d049802626b87afa265cba180f357ef194d1b06cce1537fa26int),
            b: (0xe2b89b0d7328fb893aca89e01a41f9c1fa492079de3d0b46ccd9b41b847e5f8int, 0x142f5ad2795e8c7c52411a6ef3743b0d0e5d51f10ce345b851aed30754164f6cint),
            zz: (0x897b1d3da0fa2ea4e055ff4afb4ccca0f2f0de9fa3bcc2376f86ad67d2685c9int, 0x4fd70bf8c7dc6bc5d6c8a2dba018c1a129c83a6704a4ae23a035c0f0c1e0240int),
            c: (0, 0x9fae17f18fb8d78bad9145b740318342539074ce09495c47406b81e183c0480int),
            dif: (0, 0x276969fd6af0ca53f73f0bb7c506bf194e5cc61e289babdc800199c6c121aabaint),
            xy: (0x3a3d2c0c035ec79a1c82ab315ed15432adc0859330ba353947a57151e503ceint, 0xb80765ba694e839c30a382b1b4613581e2e0b27ae657938a473f4db12d4b926int),
            e: (0, 0x1700ecb74d29d07386147056368c26b03c5c164f5ccaf27148e7e9b625a9724cint),
            g: (0, 0x4fc81fa25dade34c9bc14095abef35336b176a004262374d235f3fd5694e4992int),
            f: (0, 0x45cd3e2344b255d3e0e82c3a37ec1cff45de62b361cda188af5887b751124512int),
            x3: (0xdd9c959e295281daefa7450afdb524fc139bd441f0dfd096004ef55cadff125int, 0x4a3a6cc2bce1fcbfbeb2a04374bead3266acd695bb431822a367942c9c309433int),
            y3: (0x1b1f859d60be198b3f2cc02ca5f2de6ae682ffa9b759423eb6f8c9deec229ed9int, 0x63b4316f59e92c529189959bb708d0a2ffd246c7d83028f7cdbfaf71216bc93bint),
            t3: (0x7d209cdfbbfa97005129869256ad6c1f4be57b1db73bc8271ccb45defdeb09cint, 0x4013c62df37523f4a123a4f9d45427f15952831d548eb1cac34e2c62faf0d29cint),
            z3: (0x30099715dc58e9a9446982c497fe0c389ecd401ce9e1cd67475fc104987af6a9int, 0x57f2f51feb37728830e15938c9461b650042e33be3f246fb2547fa2e471e8f9bint),
        },
    );
    lemma_chain_double(
        base(),
        ExtendedPoint { x: 0x4a3a6cc2bce1fcbfbeb2a04374bead3266acd695bb431822a367942c9c309433int, y: 0x63b4316f59e92c529189959bb708d0a2ffd246c7d83028f7cdbfaf71216bc93bint, t: 0x4013c62df37523f4a123a4f9d45427f15952831d548eb1cac34e2c62faf0d29cint, z: 0x57f2f51feb37728830e15938c9461b650042e33be3f246fb2547fa2e471e8f9bint },
        0x39f6d3a994cebea4199cec0404d0ec0299a0824f3320420b425c398nat,
        DoubleWitness {
            xx: (0x2f8723b2f9993f534617fe5060ff0674aa370a0be9cb0b36e0d6ef0594a0a79bint, 0x5c23f40eec15073fb959b4dd903eb0cbe0db20412c98ed24222cdff37c4a5a8eint),
            a: (-1, 0x17c9b3443d88760879e0232a7963273972e283c1d3656edaddd3200b83b5a573int),
            b: (0x55c00504435bfdcf127fced2a10ef66d5d672789d7b5cc4df4e7042c25f3fdd1int, 0xd974b7be606a167c429bbe0d986df88689d38bd35233657d7ba40fde58bb5c8int),
            zz: (0x42b8fa0dd3e68b50bb7babd1c794b58f22b7133310b0752caaf3eee4cbab06bbint, 0x12d587daa054eeed94fd587e01198414d62e52eaa7345e20e9e966d82737811eint),
            c: (0, 0x25ab0fb540a9dddb29fab0fc02330829ac5ca5d54e68bc41d3d2cdb04e6f023cint),
            dif: (0, 0xa3267c85781d4a0b5b667499fdc47b10a454b049e4238830618df0d9e29efabint),
            xy: (0x3fd6fd236d78eb0f278f09a06dbfcca011c666c60359eed2102a2052e57b3534int, 0xca59f0eaf915d70a677216a2d19736d5310351dca7e69f8101c14b6c263fd8dint),
            e: (0, 0x194b3e1d5f22bae14cee42d45a32e6daa6206a3b94fcd3f02038296d84c7fb1aint),
            g: (0, 0x2560fec0238f17703e09df0b52ea06c1db7fbc7f0888a532b58d610969415b3bint),
            f: (-1, 0x73a3965e0c82b6dd474906175a58d69d82e0baacba1e44efe1ba93581ad25900int),
            x3: (0x193b151a604a7b8b01c7494cc8b18cae4fcb6962b1ebcae5d8f93a06ddcd2087int, 0xbeec0b1bd9d48aed13152ceaacdbed5120559b0c6f75c4b6b60742647d2e979int),
            y3: (0x349acf34cc1eb86768efefa9e46fd54e0b8ef89ee4361a4124a88d79b0fcab5int, 0x3444633fcb972d745c76d15a2d588dd0150b620e7700096e5b97152fbe373ab4int),
            t3: (0x2398dab3e1cd4abda0029872ef0ad4c5bb42be80c99a08662b5c4f7f78cd675int, 0x50e5d65518885c9243ee8ad1eaa45871a013b2118de0531adbd913eeb09f29e9int),
            z3: (0x25491d267bcc7e07994d6122a95a11dd8eae2c6b60598260e1b14a88b71cc089int, 0x109e8bf791280bfe3fc37440f2fefd639ed518291ca1bd106448f3c0d600c277int),
        },
    );
    lemma_chain_double(
        base(),
        ExtendedPoint { x: 0xbeec0b1bd9d48aed13152ceaacdbed5120559b0c6f75c4b6b60742647d2e979int, y: 0x3444633fcb972d745c76d15a2d588dd0150b620e7700096e5b97152fbe373ab4int, t: 0x50e5d65518885c9243ee8ad1eaa45871a013b2118de0531adbd913eeb09f29e9int, z: 0x109e8bf791280bfe3fc37440f2fefd639ed518291ca1bd106448f3c0d600c277int },
        0x73eda753299d7d483339d80809a1d8053341049e6640841684b8730nat,
        DoubleWitness {
            xx: (0x13a6dd1248eddad4c25a6aef0b8a9f56c689ce42e075ba66cb8cfcb297b134cint, 0x249c86bb222bbfc51e2bac02101557957a6a4eba0629e08187dbe6b1d3f667e5int),
            a: (-1, 0x4f5120980771bd83150e2c05f98c806fd9535548f9d47b7d7824194d2c09981cint),
            b: (0x1790a558636ade8adaa6905bb2dc4b46d1f228262da3fb86db8103bef1964f49int, 0x467ed5b4a5eedeee5e596ed2fd26d9dc11495083dc6cbd30c3ac68af8537bf47int),
            zz: (0x261ed044f11b5408294e9513dacb7a847ae39dbf94c10b7728b99130b28c8fbint, 0x298c0471527ed1b2d0700250488796be852cc0399acec21818c411877c8fca56int),
            c: (0, 0x531808e2a4fda365a0e004a0910f2d7d0a598073359d84303188230ef91f94acint),
            dif: (0, 0x8d24ae36182de94b6b4bd32fc65a693c80a04c51d67be4cb477b09da6d1d8d5int),
            xy: (0x56141f59d51b3761ccccfee33645e21b663926bf0645a1c21d647f5e31b5929int, 0x57296eaf1239eaa63a73656c1b8fe808fc96bebcf5be8e9aaf2e2a325d1539ebint),
            e: (1, 0x3a65360afad6580441acf2d02d7df80ca56fd976eb7ec1365e5c5465ba2a73d5int),
            g: (1, 0x21e24ef983c31f29402dc2d0ed11824696df01c9d642dcaf3bd081fdb1415762int),
            f: (-1, 0x42b7ed6a0862f90bd287963865a42ccee0432559a0a3b47e0a485eedb821c2b7int),
            x3: (0x219b7dd265958e874a15613450eee703e1f37190dbef2c095867ad459dc147ceint, 0x196526d6fd93d41879efda74034cb46bba150383e932e0cf85f7fb3fa8d3ef75int),
            y3: (0x294102bd95924b6c21ee2371e4233977e5d7ca2d94f03f053b5c5f16a83b55aint, 0x4729edde6497093883dccf8cdf0af12c5b4142bbac9cc77f91ba31281596af30int),
            t3: (0x4718bbd085e8c3e95d933f1d8914e896265e454197f64a2d1b82e84c1847a95int, 0x73625b564aeb7a297720cb475590ae16eb72b5f15203d1362f47572da46e9da4int),
            z3: (0x13803146ad8803fa782daccc5654e4a6d2faa2f8f209f7d93f27de8ba98d1956int, 0xd11785b88881c77f8782769c230e1cad7a1122b29e308e8c733196c4402a1b8int),
        },
    );
    lemma_chain_subtract(
        base(),
        negative_base(),
        ExtendedPoint { x: 0x196526d6fd93d41879efda74034cb46bba150383e932e0cf85f7fb3fa8d3ef75int, y: 0x4729edde6497093883dccf8cdf0af12c5b4142bbac9cc77f91ba31281596af30int, t: 0x73625b564aeb7a297720cb475590ae16eb72b5f15203d1362f47572da46e9da4int, z: 0xd11785b88881c77f8782769c230e1cad7a1122b29e308e8c733196c4402a1b8int },
        0xe7db4ea6533afa906673b0101343b00a6682093ccc81082d0970e60nat,
        SumWitness {
            a: (0x1763ef09f64555f55e0b56c084c02fcb31f0cb14e1adce39834b4ee67965437eint, 0x5bb78c40640988720a219849f4d54bd7832263fa4d115e9e8ea7ea2d4069b608int),
            b: (0x35caba94f9feb05e5083892dbb486d03871fdd350e0f906d8109dc7333a4e0a0int, 0x5224298af3091eba22789413f5dc31b72cd1f343f8db52469fabcf2bddd8e860int),
            dt: (0x2a5ff0cc595bb40cfa745bc094c98b4d49182ddecfc70ebd2862c4866cf5341dint, 0x3582ad0d5e4d311c5f6538825d025d8de71587f2c06e94e7ef8c454f2b038247int),
            c: (0x330d417cf95f162db68e0851b2e9cfaffe0f2d02e1bf8f12052557023c0aee20int, 0x32f5274b1993f54158e122ba41ceaed168742d71fb7e76b921bbd99c6cfde8d8int),
            zz: (0, 0xd11785b88881c77f8782769c230e1cad7a1122b29e308e8c733196c4402a1b8int),
            h: (1, 0x39ee0e782d7529e3f9605455e10fa5895c36b33b45ee54e62e53b95a1e429e67int),
            s0: (0, 0x608f14b5622add50fdccaa00e257a5981556463f95cfa84f17b22c67be6a9ea5int),
            s1: (1, 0x4e7a2cab4d8fef627fa28fd19ba7c19a97abbf79df4db594e896ec1ba05d0dddint),
            ss: (0x415d7cd27fff58c6de881e7a1c0b68a4f9202a1aabaa5567b5ab9060a61a6afeint, 0x4afee2ac07e71dc263f3294f28fb3cc480cfb0082f838b0b46601c21e7efea73int),
            e: (0, 0x1110d433da71f3de6a92d4f947eb973b2498fccce9953625180c62c7c9ad4c0cint),
            f: (-1, 0x4e09f8639891a47ed2d0dcb78a040afec2ea88bc2e62ee2ea5773fced704b8e1int),
            g: (0, 0x40069fa6a21c11b951594a2403ff909c40153f9d25617fa1e8eef308b1008a90int),
            x3: (0xb7cf1cf3fc33566eb5a772f2fdbe758b1b2555886004b9aefd0a1f9afab4a40int, 0x3c9335c681a81263591dc4776a7864bcf31fb6e35eb392c923faea0e647d2c4cint),
            y3: (0x1ffe77d4d8948e23ac3dd6162f858cd9466b000931114bcac615398f8b1bfbe7int, 0x3bde09a93f2d7eb792fdedfc49fcb9c2fe16978be4872e140f2861159ac0a409int),
            t3: (0x8871f967b00cfe7c902030b38dd3b6ac87cf7bb8536f0bad1370ada6060bafaint, 0x3793d043bcc665296aaa5a4fe62d7b3087421eb21287363fb50672c9bc6045daint),
            z3: (0x2b1999e20c9e54a108ddd04c113a5adb5393da666c4f904c13228125a3c59d74int, 0x43cea67266203c66a8ca25d11e4d9ca16414d65f73c1d7dbeb981e6b6b8bab1cint),
        },
    );
    lemma_chain_double(
        base(),
        ExtendedPoint { x: 0x3c9335c681a81263591dc4776a7864bcf31fb6e35eb392c923faea0e647d2c4cint, y: 0x3bde09a93f2d7eb792fdedfc49fcb9c2fe16978be4872e140f2861159ac0a409int, t: 0x3793d043bcc665296aaa5a4fe62d7b3087421eb21287363fb50672c9bc6045daint, z: 0x43cea67266203c66a8ca25d11e4d9ca16414d65f73c1d7dbeb981e6b6b8bab1cint },
        0xe7db4ea6533afa906673b0101343b00a6682093ccc81082d0970e5fnat,
        DoubleWitness {
            xx: (0x1fa6d97fb5d82d7e5c56bc08d5fe773f0c58c66e8b6f47df01324df71a075160int, 0xe1d41e7cb4d53c7992f66decbaa514a3725b7dd03ee5eb5f62d3888fdae530int),
            a: (-1, 0x730bd334ace8a80bb9a6e19a1ce732f0b04b48852fbf7613a09d2c7670251ad1int),
            b: (0x1eea9f6d40140bd50d49a4d9a7141285a0d646ad40470a20f4e21928af7d7165int, 0x6325bb27b658ed8ca4d0453739b4d29cc2b56036a8616259c8e16a079b1e16ecint),
            zz: (0x27a92f9b7ff05f69688feadab1f4402c02d9f1ca6e3b3adf693c1a33fd2517bbint, 0x380e2cd3711dee0b9c395ad2db51283a51c92b2ff04c093ffd32a42bada15355int),
            c: (0, 0x701c59a6e23bdc173872b5a5b6a25074a392565fe098127ffa6548575b42a6aaint),
            dif: (0, 0xfe6180cf68fba7f14d69c62e3326053ed95e84e875e13b9d7bbc26ed50703e5int),
            xy: (0x1f482ee527aa213892f7b2a2625257101a81a796ea1cd5ca640166cf05833a8aint, 0x118040f1528aa60531b88dec53f19a9b7f64140a1483f302e2715f5fa4440422int),
            e: (0, 0x230081e2a5154c0a63711bd8a7e33536fec828142907e605c4e2bebf48880844int),
            g: (1, 0x6243e70939a418502b3d4ec94cfa2d881f4304b8d8227c6e697e967f0b4331bcint),
            f: (-1, 0x661534b58105b9812604712b9ff9b518cf6e525bf788c5ed6f194e26b0008b13int),
            x3: (0x1ed2571887d425135c150c86b84473cd62711272866459584d29fadbdd62339dint, 0x6ff93375a14b4def9744649fcde013f34217e00cc30024e94dd5b51c2133556fint),
            y3: (0xd79f736dd2c81060ec6512f768cfccb0a6c5ddd5004ebf28e38764d53a08235int, 0x60a72893526f51f739ef18111bcd2667d9f1316555884f146c2436ae51342ef7int),
            t3: (0x4ccdfd44cb0578c8cc50001a6a71016ac855ceb5010f5b8dcc73af62c82ad60int, 0x8cbce0baefd35b5667509753e23b707c714f7eed1e87c98dbc391301b218374int),
            z3: (0x56877e93d52a4850d7eeab0985316817dc58fe10aeb0ca7a602befa5b7ab73c6int, 0x1955544f33f1da19dfa6ce4255d366e98bf9f1a25507a758c3d686c4da52512eint),
        },
    );
    lemma_chain_double(
        base(),
        ExtendedPoint { x: 0x6ff93375a14b4def9744649fcde013f34217e00cc30024e94dd5b51c2133556fint, y: 0x60a72893526f51f739ef18111bcd2667d9f1316555884f146c2436ae51342ef7int, t: 0x8cbce0baefd35b5667509753e23b707c714f7eed1e87c98dbc391301b218374int, z: 0x1955544f33f1da19dfa6ce4255d366e98bf9f1a25507a758c3d686c4da52512eint },
        0x1cfb69d4ca675f520cce7602026876014cd0412799902105a12e1cbenat,
        DoubleWitness {
            xx: (0x6c2749c887ab608e7157921f36f6500a791bf45ea710f16e4e130695b67be36cint, 0x3501cea0d1e154e41f672eaffe616f0b8b6b173864fccf7c3776c9700e4102b5int),
            a: (-1, 0x3eebd8b257bc286413d2a9580b4068f9c8528cca9b018c82c889368ef1befd4cint),
            b: (0x50951ed8e9ebb95e9a9c1f42b8d999a38f7599ff7d34e44cf01ca6e9cb9b4994int, 0x24e77561d17a85ac2128e4b8ee22537333ea16ab5606840af978bec99f5a68bdint),
            zz: (0x5893602cb3e2d0c0cd55fbe58972ea0ddafe62da31021b8ded0799757ed0034int, 0x31b7f2603ba5e4a5cf3a63f9656f7682ec4a6ab5fb190eb7b3d49c71b492410int),
            c: (0, 0x636fe4c0774bc94b9e74c7f2cadeed05d894d56bf6321d6f67a938e36924820int),
            dif: (0, 0x1a0463508641a2b7f2a9c49f1d1e15869468761f44fb0877cf1077c55264948fint),
            xy: (0x5d5b0bcdb599096c4928871e63e831552bbf2a3436d918a5dc657ded1f1a5320int, 0x6bd125416a6e333e566f5336ad03b8e242adf76870947842af2f19359c530cf9int),
            e: (1, 0x63b4a32fab3ee93479a4ce65506599bf319e4acde12a94865e5e326c38a619f1int),
            g: (0, 0x63d34e142936ae1034fb8e10f962bc6cfc3ca375f108108dc201f55891196609int),
            f: (0, 0x5d9c4fc821c1f17b7b144191ccb4cd9c9eb3561f31a4eeb6cb8761ca5a871de9int),
            x3: (0x5082ce61b96762d32361653b946c87d1aafe7e2d853cb98393a65a931b087405int, 0x5ccaf1807252789da99174dbda1065ed2992b25d5b6c71d325cc4e3cad2c7554int),
            y3: (0x16673b893a1358426e01b1a671945b7de0e6c4a5167913b70c2d76cf05137eb4int, 0x4aefc1e25df9d6ae69794798bc96f44b2062855af77b185fcd71ccc8749db453int),
            t3: (0x1660599ac92402ef9920d3b23d93162d0937b770c45dfb5a6805de265b859cc0int, 0x3214d2c9172f55011065039b290d3e1ecc1f2948b185ba1ac7a0cc73a46634dfint),
            z3: (0x509b91df92bc44a3fd2db732ae7b10ca2ba3ebba400db9c95995d903df730fa4int, 0x705bd2e35e27f5f215c9a06e58a7d51981c6f2ce5c615b8e69aeb0a09f8d38dint),
        },
    );
    lemma_chain_double(
        base(),
        ExtendedPoint { x: 0x5ccaf1807252789da99174dbda1065ed2992b25d5b6c71d325cc4e3cad2c7554int, y: 0x4aefc1e25df9d6ae69794798bc96f44b2062855af77b185fcd71ccc8749db453int, t: 0x3214d2c9172f55011065039b290d3e1ecc1f2948b185ba1ac7a0cc73a46634dfint, z: 0x705bd2e35e27f5f215c9a06e58a7d51981c6f2ce5c615b8e69aeb0a09f8d38dint },
        0x39f6d3a994cebea4199cec0404d0ec0299a0824f3320420b425c397cnat,
        DoubleWitness {
            xx: (0x4a463773e3f0f4a722b515c3286cd56dbc310d09082ade8445b70e36a1fc3e15int, 0x1858f14d2930b9437830cef0ec555c93fbcc55ba75cc52ed5ba07d8a70a9a57bint),
            a: (-1, 0x5b94b606006cc404bb0909171d4c7b7157f14e488a320911a45f82748f565a86int),
            b: (0x307075ac59735244617aab2cfe34e4a6216da3a4200f0b7e3c0c5801745bd6edint, 0x348d641b14b67a3cafc4848bb44a10cb7f843b0e451ef9e21a82d52d7076fbfcint),
            zz: (0x6ce621e8faba7b61ef30c7bd069232f46278fa83442e5e11ecbb34f5872701int, 0xb8cd51c137e1f245887b536f1b910b09dd2106792791ebb6177418a847a94a8int),
            c: (0, 0x1719aa3826fc3e48b10f6a6de37221613ba420cf24f23d76c2ee831508f52950int),
            dif: (0, 0x270751eaebb649c80b44848b69026aa5d86d133a45130f2f89dcad471edf5e8aint),
            xy: (0x3bfb4b0862aa87ab2e99e907e80aaddf2614ecd81a88c25e19031577bdfdabc4int, 0x4eeab8c0d84d9f75c08cbf473433855235a7a7ca995b9ccccd3790c9ae6f6e78int),
            e: (1, 0x29e7ca2e86fdc1a34ddfa6865ec5329f1791ab9232b8dd9a9a6f21945cdedcefint),
            g: (1, 0x1c3472cdeb85c0f93793b59ac7f4b43783b7e553cf52a6f4bee257a2ffcd5681int),
            f: (0, 0x51ac895c48982b086844b2ce48292d64813c484aa60697dfbf3d48df6d82d31int),
            x3: (0x1d85f49a3dcec583fec5510de29a38819edf5d72ee3ac4618f78e02124a27cbint, 0x5a0f39ed5c0628883e618021bf1cb0b7f977be6823cdb2c9b97e3b7cf4dc24f4int),
            y3: (0x97ed89f690a0d441d7b790d415d34c03a850c29c87c91fe6d038d5c53ddb9d2int, 0x6fa21a26299f714dd130176bd09d52800cb1882c96fd86286f4653096ef545b8int),
            t3: (0xe1ba1f028282a8aaa823fcd4daf3721b4ce86c9749367115b0f0aeb98fa71b0int, 0x400cc906e1684e84a41a4e1d5129337129761f30df16d3df10c7c827c2796926int),
            z3: (0x13def5887ce83b448047c622a3add2befdb099633951a81f819ae651eda399cint, 0x32db47e0553f3aafd22be09cbab472a8b3270fe1fbded169940097cee2800215int),
        },
    );
    lemma_chain_subtract(
        base(),
        negative_base(),
        ExtendedPoint { x: 0x5a0f39ed5c0628883e618021bf1cb0b7f977be6823cdb2c9b97e3b7cf4dc24f4int, y: 0x6fa21a26299f714dd130176bd09d52800cb1882c96fd86286f4653096ef545b8int, t: 0x400cc906e1684e84a41a4e1d5129337129761f30df16d3df10c7c827c2796926int, z: 0x32db47e0553f3aafd22be09cbab472a8b3270fe1fbded169940097cee2800215int },
        0x73eda753299d7d483339d80809a1d8053341049e6640841684b872f8nat,
        SumWitness {
            a: (0x52f32facd2e9e8e70964aea5289325c76f9052f818a4f6aa415896d9b025f842int, 0x157add2b6f5ac6d0faa2efe666fa6d09cf2819be59f0d6b31fb4c1f73b370596int),
            b: (0x5461de1fb3438c70286a6837f864f1fc1695ed09a6df7df9a0ff224fe80662c2int, 0x72254149432fd94f8ca3083f6bab9818e130bbe1e1c349c6eb44f2a6831c7beint),
            dt: (0x1785b53105b697ac79a91eb65993516f9a102866ea2a1aea217c23c91bc65915int, 0x2ea1d502f8ba1192948ae2807e9f95a59547498c4112c77217f13835e15a8e31int),
            c: (0x2c7d517cf7e06e5d94260d9597675671567ba504d72a811225a2b50d1a009b52int, 0x5ef45423852240b76e8434c9249b5da6789aeedcb2fff39877b2d8d4a4900776int),
            zz: (0, 0x32db47e0553f3aafd22be09cbab472a8b3270fe1fbded169940097cee2800215int),
            h: (0, 0x1c9d3140038dc465f36d206a5db5268b5d3b257c780d0b4f8e691121a368cd54int),
            s0: (1, 0x55c3acc05c081c8ddc57bf8586182b32b26ba291baccdcf328c48e8763d16aabint),
            s1: (1, 0x4e7a2cab4d8fef627fa28fd19ba7c19a97abbf79df4db594e896ec1ba05d0dddint),
            ss: (0x3a0ecf7498a97250f1e3e9ab68f35c428cbda3daf87328ad515886bcc3546e5fint, 0x50d4b084e23cd2c2d3a01421c51abf9b37ba46dc0f07176f1217dc5caafe5640int),
            e: (0, 0x34377f44deaf0e5ce032f3b76765990fda7f215f96fa0c1f83aecb3b079588ecint),
            f: (-1, 0x47d49b0ff9ba774096e183db9fbaed078e49c50848dd39d01c4dbef93deffaa0int),
            g: (1, 0x1de1f4b0b0c3fe1f0d763d5dd5adf849d8045abbaee069030bb370a48710098aint),
            x3: (0x205aa68b30b855e4b3394f34e0fbca397ca9954a646bbc5a00c0cc44e4565f34int, 0x6ea3becda1a12bbe2745b2b7a239c21c734cf4aa02ee9ac60b444902f129ac4cint),
            y3: (0x76033a743e3e4fca9532e688be12fc7f4fecd8ff52b882a6c2a8d24954c6075int, 0x674ab8ee3f3416e2cf83d5e61f2fc3e693fd0dec7755dd0e255a02d551aa42d3int),
            t3: (0xce36f5a6de113ccffb8c1b3c37b726b6a07e1006eb5b6a78dc51902661dac5aint, 0x3d4c07b7fb8957783d3720433cebee1775850490fdcd4921256b2522b9783d16int),
            z3: (0x1283ff828b3c7ad2d5e145d2aa461e1bc59532efe23305c178151166ebf97119int, 0x372e85bd5dd242e379e52b16131ace670b217036c08751b39a040fe4f1334927int),
        },
    );
    lemma_chain_double(
        base(),
        ExtendedPoint { x: 0x6ea3becda1a12bbe2745b2b7a239c21c734cf4aa02ee9ac60b444902f129ac4cint, y: 0x674ab8ee3f3416e2cf83d5e61f2fc3e693fd0dec7755dd0e255a02d551aa42d3int, t: 0x3d4c07b7fb8957783d3720433cebee1775850490fdcd4921256b2522b9783d16int, z: 0x372e85bd5dd242e379e52b16131ace670b217036c08751b39a040fe4f1334927int },
        0x73eda753299d7d483339d80809a1d8053341049e6640841684b872f7nat,
        DoubleWitness {
            xx: (0x69979a5b97bc8cf22efae8b8546fce8cf17b9649470b31ce187f8a480b4b6e8fint, 0x506b01026350d7ea17f799b9968caffcefc2a0f57a50b91d6f456aa6b102c801int),
            a: (-1, 0x2382a650c64ca55e1b423e4e7315280863fb030d85ada2e190ba95584efd3800int),
            b: (0x5c0867ed33710b79090053a72cb5bac6a0c6795bf5cae163d6468ab0ad89fc4aint, 0x167f61309338acdba1dc9e53da0ba8db337c5d9607ad54ba7a0b203daa237d9fint),
            zz: (0x1a44348e84bbe0ea7ca5205b5e04239957f8c11fe2d91c945c80dae5bd8d8582int, 0x4204662fcf343cc0f6a9ecabf187328e0ab49511c1b964fd1f732415eae3be6fint),
            c: (1, 0x101b250c74cafc39ba1a014fd96c8d16c1ab862083746dfb3ee6482cd5c77cddint),
            dif: (0, 0xd0345203313f88279659ffa99097f2d307ea5777e004e2716af751aa4d9ba61int),
            xy: (0x629464a5efd86e80e4f91fa84a6ccc78b17315fe785b8f0583a3dcd10dd1c5b5int, 0x2bc6e6b0f6889f792b1268a7f69390a8f185cd7754a35a20624820e9ec6ad4efint),
            e: (0, 0x578dcd61ed113ef25624d14fed272151e30b9aeea946b440c49041d3d8d5a9deint),
            g: (0, 0x3a02078159855239bd1edca24d20d0e3977760a38d5af79c0ac5b595f920b59fint),
            f: (0, 0x29e6e274e4ba56000304db5273b443ccd5cbda8309e689a0cbdf6d69235938c2int),
            x3: (0x1fa5640c691e02d537e16aa9dcf59048be5a93fe31c595edbc9c22a28d0a2160int, 0x3e004b8c18293ac3e4966c805cea96265af010da39c7d1918ca0345ea3728dcint),
            y3: (0x682e479477214eb27012e4b7bad14f0598b849adc0c5ce8f2cb4d583f2a0354int, 0xd250b1bc69efb121e65ecade43def8dddc6cd496b3bf5ea18f5b90ab9f753ebint),
            t3: (0x9d3ea0369ff14bcc4dcb21749dae75a9410898f356f251a7b56a56145bfda82int, 0x2bf54fd76cda4a9ad53a684b3f510cbef418597c9937a3af7779766c55cece9cint),
            z3: (0x14f77dccd4c4f82e3d69b74d2dc70d2c2a368f17361510b81d0dc0f69ea4359bint, 0x674b42fb68be2918e4e5043d67266e456f87c2620a78a27df3962535352734e3int),
        },
    );
    lemma_chain_double(
        base(),
        ExtendedPoint { x: 0x3e004b8c18293ac3e4966c805cea96265af010da39c7d1918ca0345ea3728dcint, y: 0xd250b1bc69efb121e65ecade43def8dddc6cd496b3bf5ea18f5b90ab9f753ebint, t: 0x2bf54fd76cda4a9ad53a684b3f510cbef418597c9937a3af7779766c55cece9cint, z: 0x674b42fb68be2918e4e5043d67266e456f87c2620a78a27df3962535352734e3int },
        0xe7db4ea6533afa906673b0101343b00a6682093ccc81082d0970e5eenat,
        DoubleWitness {
            xx: (0x2128decb2385120007a2e142e80a99785fe9daa1ce63d778c7e9b803a93344int, 0x36da25271a05f9a1a2d5ad1c301b8ff21bda19ec49d5c967a90b5ab8c16449ccint),
            a: (-1, 0x3d13822c0f9783a690642aebd986481337e38a16b628929756f4a5463e9bb635int),
            b: (0x17d8cdf1fc6c442eb7fd25f3fe979263d83af6d64d201a1562e940fcba53030int, 0x3462d14da97944bde3e68e9a0a3c2c39825b0018f64e8e97aaf836b8e5570989int),
            zz: (0x5c095defa27e1f6b35ccd385a1f3db5aace6a980450ff66bd463829c87b36641int, 0x528c187588c8d975b2fb43033505322f325a4604e57dace501e2a9899e639b08int),
            c: (1, 0x312a8997e7f435a332bcadfe60688c5910f6e806cafcfdcb03c553143cc7360fint),
            dif: (0, 0x8b0b0de661e3ee8ac7d9c51cf4a1bd9b58889fdbfda03ffabfc6e8d5944acacint),
            xy: (0x707b3f6c6ea5371ede7beba3feb12278d21851b84ad3743de0daaa1e9501e8int, 0x2392e9e6464128f9b7403fe466c4eec4e87cd253c1fc682b8d263fb32c90d40cint),
            e: (0, 0x4725d3cc8c8251f36e807fc8cd89dd89d0f9a4a783f8d0571a4c7f665921a818int),
            g: (0, 0x71765379b910c864744ab985e3c2744cba3e8a2fac77212f01ecdbff23f2bfbeint),
            f: (0, 0x404bc9e1d11c92c1418e0b878359e7f3a947a228e17a2363fe2788eae72b89afint),
            x3: (0x2775bbc689a356084e4c723bacd7da5f260f52aaef20aa8440b967932d37351aint, 0x105b134093b75342282224f94cc27669e9ba342aeff129ad5d4d6775a7c78b4eint),
            y3: (0x8815d8d0645aaf8ac236fa070285add3e4a363efeeae16d6799d39a724109deint, 0x3881bb141d9766b8c223ef771e53ee03f76143a8249d7e9560fea2a0ca2371caint),
            t3: (0x5555774c1f7fee857b5e23ba9f706c527d6facf1bbfbbf175959119f6d0b3d3int, 0x5433ea7a592abf515606e765ad0b72c5510c9de58932dfc60bc9c4f8871c5c4dint),
            z3: (0x3eeda4741d2564cec834dce44d26d64009f098d4f7423480cf3ff134db15a629int, 0x47db7e8b535396f0e7f7de085f6f3f9cef13bd80920fa256d778eb1147621ab9int),
        },
    );
    lemma_chain_subtract(
        base(),
        negative_base(),
        ExtendedPoint { x: 0x105b134093b75342282224f94cc27669e9ba342aeff129ad5d4d6775a7c78b4eint, y: 0x3881bb141d9766b8c223ef771e53ee03f76143a8249d7e9560fea2a0ca2371caint, t: 0x5433ea7a592abf515606e765ad0b72c5510c9de58932dfc60bc9c4f8871c5c4dint, z: 0x47db7e8b535396f0e7f7de085f6f3f9cef13bd80920fa256d778eb1147621ab9int },
        0x1cfb69d4ca675f520cce7602026876014cd0412799902105a12e1cbdcnat,
        SumWitness {
            a: (0xf1089583f8a1b8ec76bb87bd2e3a2e712c1cc5a96d4af2772c05fd9a660d391int, 0xa8f1c83daf97daf3ecb7db7f1e90f0921c7ba29bb9b9ca28970cb354f6eab73int),
            b: (0x2ab67bea79e0be1ffedd69e0f0ceff763b2f192f98fb59f10e7e1893bd2f874eint, 0x16f5e5b72e2697d853170800d005d42dc7632c4f3f272df509af945eeddda092int),
            dt: (0x1eec6515dc0d9fc70dd856ee2553ff20f17838e3353c6121160d6e3bd320e9c6int, 0x2f8f24674a79f8b4c913f0d33d38f383a684184b9107a2a67379be6193798d77int),
            c: (0x2d5fb9811a869a01e39465b9a7f9520710945130fb5dbcaa0b00bd2acd70012bint, 0x1789625fde67ca66471ee20e8f2dd4ba7ebf34cd970dab1942d8fc450db4eb4dint),
            zz: (0, 0x47db7e8b535396f0e7f7de085f6f3f9cef13bd80920fa256d778eb1147621ab9int),
            h: (0, 0x2185023b0920158791e285b8c1eee336e92ae678fac2ca9793205f943d4c4c05int),
            s0: (0, 0x48dcce54b14eb9faea4614706b16646de11b77d3148ea842be4c0a1671eafd18int),
            s1: (1, 0x4e7a2cab4d8fef627fa28fd19ba7c19a97abbf79df4db594e896ec1ba05d0dddint),
            ss: (0x3152f227055f01ec9a46ccc39b1fea7beddc68ac4d0dcd1faa9095877a36822dint, 0x5217bb3f453335d8bef178ee47759276e1e290638ee62c1b5652d7e3be38338bint),
            e: (0, 0x3092b9043c1320512d0ef3358586af3ff8b7a9ea94236183c332784f80ebe786int),
            f: (0, 0x30521c2b74ebcc8aa0d8fbf9d0416ae2705488b2fb01f73d949feecc39ad2f6cint),
            g: (0, 0x5f64e0eb31bb61572f16c016ee9d14576dd2f24e291d4d701a51e75655170606int),
            x3: (0x143efca20fe26dafce14054afa62b63be9265e0ae389843b4313b5df82ef8e60int, 0x1e36f74c99e976ea6949b53d772e73f2e97f1755e87e6cd83020eb767ba5b828int),
            y3: (0x1b95100aeb1fe57f7581e37c94c257dd6526bc9be23070b29280fead74300d84int, 0x21cfb6c7771f5a39accec0222dde8c75961d1e951085374ce529a98642d4d89aint),
            t3: (0xe0b6177c097a0acfa73ed24b94c8ee1e89ec8a4d22cadebae225388d64260aaint, 0x27825890cc80b6cb65d242437b3f1236d51e63f21b3fdbba933310a060dcecf4int),
            z3: (0x27c3010753c5a4286d3313e7d4f69d70894d0620075dbd3f9b129b246637b43aint, 0x1e69a6d2ed054dddc86e21e2ecd7f5bdd709fb1a7d46fe37e9218ccf21a7f04eint),
        },
    );
    lemma_chain_double(
        base(),
        ExtendedPoint { x: 0x1e36f74c99e976ea6949b53d772e73f2e97f1755e87e6cd83020eb767ba5b828int, y: 0x21cfb6c7771f5a39accec0222dde8c75961d1e951085374ce529a98642d4d89aint, t: 0x27825890cc80b6cb65d242437b3f1236d51e63f21b3fdbba933310a060dcecf4int, z: 0x1e69a6d2ed054dddc86e21e2ecd7f5bdd709fb1a7d46fe37e9218ccf21a7f04eint },
        0x1cfb69d4ca675f520cce7602026876014cd0412799902105a12e1cbdbnat,
        DoubleWitness {
            xx: (0x7dffc1d403246c042752d4425d1142cc1d644156e486d64a7ae6b3d3ca9b5adint, 0x308f39d0e561731cf1ed5501ca0434c6d0cf53524b17d75b1793298d1b5fd093int),
            a: (-1, 0x435e6d82443c0a2b414c83063f9da33e82ee50b0b4e684a3e86cd671e4a02f6eint),
            b: (0x9dc8146c5c2908312b224367d0763cc2086efac4e79820bd33c5c07cb43ff6fint, 0x6b9fc222add92a974e1727dbe05ce0cd70c9cd9743647b32eb9c294613103d35int),
            zz: (0x7fa7df74d26781a202f6093e0d4e01bee0e2f0c032ff5edfef90686ab3af548int, 0x5e5bebbc8ccfe64921c4801d0820e8d35aee89595537c485bd369704d81b627cint),
            c: (1, 0x48ca3025f0024f4a104f2832069ff9a1621f6eafaa712d0c7a6d2e0ab036c4f7int),
            dif: (-1, 0x4bac52b2c0005cdc266f333268e29a7665e2271c7180656ffcd0ad2ad18ff23aint),
            xy: (0x8cff639d67e110f264d3b27783193eab72b9ad51fe6139449845fc7e571d8c6int, 0x6c6c5d70e5f7ef095ddef017244498caf124bdb459d5fe65461f023f20c0af4aint),
            e: (1, 0x64eb138ea25260ca888408263ee759908e8bd765b3ada0cb8c3e047f41815e93int),
            g: (1, 0x3b108851c877b77a5c29d2da1658ac069ffa7a44f84ca3d7d408ffb8f7b06ca2int),
            f: (-1, 0x6633ff7f0212e5787f1482b0195a8a6a9198af984dd9d2ca599bd1ad4779a7acint),
            x3: (0x58f85bdc5db0d74d6f3c1319c34121b9232f65f18606431abb287a79ba2eb04cint, 0x6363d2e4e259dde8f3fd89d711f4cd205041c61a88e0ad26599502c525e9bf78int),
            y3: (0x268e0c11333ebd0d4ea9db67a156260a8e35db9e9f90ca46727b5cfc7c5022f0int, 0x11c7f45ab0ccd3e7e791b2514ace5de4064d8b3dc236470a082040d158d79dc4int),
            t3: (0x41e00ce5b7587b6a5234e0a0169fa0eb99057836f907453faaf028bd7a1cca4cint, 0x2eee45da4ba2a1b9a3bb557d532a23e6e8a980e4b3727de2549d02e77fb69902int),
            z3: (0x34125a3a178ce44f4cd3433f8b06fa3ae6eef438dc7241fba64423a1eafdbe9bint, 0x19130f022749554e946c4db5cae4f03d898c86f1e0513f6347b5c0d1dcfaec3dint),
        },
    );
}

/// The multiples of the base point, from the multiple by
/// 0x39f6d3a994cebea4199cec0404d0ec0299a0824f3320420b425c397b6
/// to the multiple by
/// 0xe7db4ea6533afa906673b0101343b00a6682093ccc81082d0970e5ed6f8.
proof fn lemma_order_part_26()
    requires
        extended_valid(base()),
        extended_valid(ExtendedPoint { x: 0x6363d2e4e259dde8f3fd89d711f4cd205041c61a88e0ad26599502c525e9bf78int, y: 0x11c7f45ab0ccd3e7e791b2514ace5de4064d8b3dc236470a082040d158d79dc4int, t: 0x2eee45da4ba2a1b9a3bb557d532a23e6e8a980e4b3727de2549d02e77fb69902int, z: 0x19130f022749554e946c4db5cae4f03d898c86f1e0513f6347b5c0d1dcfaec3dint }),
        same_point(ExtendedPoint { x: 0x6363d2e4e259dde8f3fd89d711f4cd205041c61a88e0ad26599502c525e9bf78int, y: 0x11c7f45ab0ccd3e7e791b2514ace5de4064d8b3dc236470a082040d158d79dc4int, t: 0x2eee45da4ba2a1b9a3bb557d532a23e6e8a980e4b3727de2549d02e77fb69902int, z: 0x19130f022749554e946c4db5cae4f03d898c86f1e0513f6347b5c0d1dcfaec3dint }, times(base(), 0x39f6d3a994cebea4199cec0404d0ec0299a0824f3320420b425c397b6nat)),
    ensures
        extended_valid(ExtendedPoint { x: 0xc2093eb0fe86b47fcfd7b66bec75415f34052f0b56ff36151de4eac113daca2int, y: 0x37a8d0866e71ad61d173cdc5f2dcae5ca8b2ae6b87793727e498a43a38062803int, t: 0x6cefb5e85ebaf497951687ff4565fe18a46407bd87d9b7ea791a21a59449848bint, z: 0x4fe9e61e9537567de479d1f5b5993f8da62d00a9717bcfcbe1c35f774c78d36fint }),
        same_point(ExtendedPoint { x: 0xc2093eb0fe86b47fcfd7b66bec75415f34052f0b56ff36151de4eac113daca2int, y: 0x37a8d0866e71ad61d173cdc5f2dcae5ca8b2ae6b87793727e498a43a38062803int, t: 0x6cefb5e85ebaf497951687ff4565fe18a46407bd87d9b7ea791a21a59449848bint, z: 0x4fe9e61e9537567de479d1f5b5993f8da62d00a9717bcfcbe1c35f774c78d36fint }, times(base(), 0xe7db4ea6533afa906673b0101343b00a6682093ccc81082d0970e5ed6f8nat)),
{
    lemma_negative_base();
    lemma_chain_double(
        base(),
        ExtendedPoint { x: 0x6363d2e4e259dde8f3fd89d711f4cd205041c61a88e0ad26599502c525e9bf78int, y: 0x11c7f45ab0ccd3e7e791b2514ace5de4064d8b3dc236470a082040d158d79dc4int, t: 0x2eee45da4ba2a1b9a3bb557d532a23e6e8a980e4b3727de2549d02e77fb69902int, z: 0x19130f022749554e946c4db5cae4f03d898c86f1e0513f6347b5c0d1dcfaec3dint },
        0x39f6d3a994cebea4199cec0404d0ec0299a0824f3320420b425c397b6nat,
        DoubleWitness {
            xx: (0x5535fe913bfffc4c9f061cadc82d8b52b7dcc03f4c94937240c589ead0965279int, 0x728409280e4ca2d57cd1b1d8017f9ec5000c933672252a36e7dcbe04f70df5c7int),
            a: (-1, 0x1699e2b1b50da72b66826300822394053b110cc8dd931c8182341fa08f20a3aint),
            b: (0x2ba2d9c76a8e639dbbd85dcf11618e600accd3bd4489e5f1769e17dbaa40ba7int, 0x44a0d4422d93de48b7fc4a5781db1d2557f95f1ca43b5d775200b64265cdf269int),
            zz: (0x56c652fdd8d82d77471f355cbc13ac82d32907bdb0a6f3f2c8d6da60a11fd26int, 0xcd27f5e7dbdab0fd7bd9f2b1ab8e9a1ba67bf9e2a6b3219b49807150f128963int),
            c: (0, 0x19a4febcfb7b561faf7b3e563571d34374cf7f3c54d6643369300e2a1e2512c6int),
            dif: (-1, 0x30b6713c175a797231a5b3e08fe8f4204f7555b2e99c304fc6228bb6a32417d2int),
            xy: (0xf3e91fcd07796c16a17a03cecf0a2ea953d9484f50711e456d400502a464859int, 0x12519edff88ba5272ea691319ec3129ff267c91a92b3207cf789d15344e4e787int),
            e: (0, 0x24a33dbff1174a4e5d4d22633d86253fe4cf9235256640f9ef13a2a689c9cf0eint),
            g: (0, 0x460a726d48e4b8bb6e64708789fd5665abaa6fe932148f3f6a23f83c6ebffca3int),
            f: (0, 0x2c6573b04d69629bbee93231548b832236daf0acdd3e2b0c00f3ea12509ae9ddint),
            x3: (0xe07e7b3a251444a1bf0a6721659547bbba48a757938eddd13228d0688490309int, 0x6e027fc330c8a7bc4e32a174f3c193c77894860336a70124d1ec24706ce7a0dint),
            y3: (0x1d6e4f095b22b1dbe26a93e7f5a9d5f900ad43a9a90f9eaff3314d73d382e640int, 0xcfaec504e78ba99ed222cf82d10e5b6e4f501cc809da1fb2a74960f9598fc76int),
            t3: (0xf651f843a7477bcacec991430d233511cff6ec004376a214edbb5e6d529d879int, 0x318cc54febf892c05455abb4d281d9cc06b3f1973ba3808d2def32bb5bf44303int),
            z3: (0x1ad2b3f74823de78a962b70903af00298ae043d6f8d19205c352078fe3d01869int, 0x11af3fbe2a979c113c675ae8bbc3d6cac0d7f276558354deca96bdb85eeb5b4eint),
        },
    );
    lemma_chain_double(
        base(),
        ExtendedPoint { x: 0x6e027fc330c8a7bc4e32a174f3c193c77894860336a70124d1ec24706ce7a0dint, y: 0xcfaec504e78ba99ed222cf82d10e5b6e4f501cc809da1fb2a74960f9598fc76int, t: 0x318cc54febf892c05455abb4d281d9cc06b3f1973ba3808d2def32bb5bf44303int, z: 0x11af3fbe2a979c113c675ae8bbc3d6cac0d7f276558354deca96bdb85eeb5b4eint },
        0x73eda753299d7d483339d80809a1d8053341049e6640841684b872f6cnat,
        DoubleWitness {
            xx: (0x6864b2e4c549efbcbd3667c663ff7f356fbacea4c33bba17a21a6b07dda402int, 0x1162a36b2c2875d82ab61353d4cca1feaaaabe18d295dc5d14f9450e3b3ec0a7int),
            a: (-1, 0x628b03e7fd7507700883c4b434d53606a912e5ea2d687fa1eb06baf0c4c13f5aint),
            b: (0x1740eee0785f8d3a10880b661d172c9faa0bcb68fcaeb710785479613f344e7int, 0x3df648eedb8e68f6357694f940438ee8075ef9918c2c222db6914c730d25417dint),
            zz: (0x2b29ebd7677214713e978ebf63fe5145dad205e1ff2112bc89af152a307480dint, 0x5030a3ace2cca0976d06b17a3c741c141d8da313664b70520c2a724866bd43b7int),
            c: (1, 0x2c73a0069bfbc3e6a6d38aec6f466022e75da223cc9884a51854e491cd7a876dint),
            dif: (0, 0x2494baf921e69e79d30d2fbaf491a71ea1b3ec58a13c5d7434756e7db79bfdddint),
            xy: (0xc514688b4e40e59683f4307faf25c58fedbebd3198f9ee7012d5c5532a0a66int, 0xba6a139b11e6375ae99481298aeaf4ea2d079850f269683925a87618df0398int),
            e: (0, 0x174d4273623cc6eb5d329025315d5e9d45a0f30a1e4d2d0724b50ec31be0730int),
            g: (1, 0x2c93a583af65f31e0ac081a56b76ece95cb43b78b99645d0a1980764d1e680d6int),
            f: (0, 0x20057d136a2f3763ecf6b8fc308cc675569954ecfdc12b894322d3046bf969int),
            x3: (0x66fb597abf0ec68f4f5d243d1f9691e09985cef781048f6afc90986c459dint, 0x27946673f0a31df2a52f254651f294a62cb334fe13eeab7e7d3f456864925d13int),
            y3: (0xe10ecb25bda62413dc56c052a34d67d5836e446dcf5d986d9d60c418b940ab3int, 0x3dd2c214ec7827881bd6c9132bf8ec79f9795bc44418b079e018bd12714eac0bint),
            t3: (0x75a53b3896fea48312269cc99bfc9d5a68d4de175e16dcc12c5d6769f84a61int, 0x321122f9c151d8bb5146d0a4ba52a2071d9b71bf8e29c608932b4daafe3e5a0fint),
            z3: (0xc5018d3547bbcb873123cf8663d64326b173329e439f86e95137963026885int, 0x18dcad992372e3ea1bc13f4e4ec1605fa1f0ee303dc9b09fa17f5f4c194a9541int),
        },
    );
    lemma_chain_subtract(
        base(),
        negative_base(),
        ExtendedPoint { x: 0x27946673f0a31df2a52f254651f294a62cb334fe13eeab7e7d3f456864925d13int, y: 0x3dd2c214ec7827881bd6c9132bf8ec79f9795bc44418b079e018bd12714eac0bint, t: 0x321122f9c151d8bb5146d0a4ba52a2071d9b71bf8e29c608932b4daafe3e5a0fint, z: 0x18dcad992372e3ea1bc13f4e4ec1605fa1f0ee303dc9b09fa17f5f4c194a9541int },
        0xe7db4ea6533afa906673b0101343b00a6682093ccc81082d0970e5ed8nat,
        SumWitness {
            a: (0x2474859ea87a67e9fe2c9962fdb95ef91a8d0a12b6497cdb5419ac4a71a8c3a1int, 0x4715324f073b45fd06bb3a4e71a2ec2868896bc811d98fe0c3a7dd8ef2af0749int),
            b: (0x2ebb44f73b788e8bea213d9accfc8a882bcde6a2c6aabd1092c7cc7f300b1a4dint, 0x318334a88fc01aaa2b52faaec55adca05c63929f95870c53e5b88f6c9ebeeec3int),
            dt: (0x126315980aa09ecfd42187f180e560a03f716e6ad1eb3eadbb827df061386b9dint, 0x32a9dad2fceabae9cc30e4b4238b297413b500180c947c7e719ea7f656bf7ac2int),
            c: (0x3055ec1117b51dd1b53387617aa907038f1da5a9ad772923868ec6380a76b302int, 0x4aa2f8e38f4aed24916dd850eff9da503511ad2ec30ab778c244ed29a04efd8eint),
            zz: (0, 0x18dcad992372e3ea1bc13f4e4ec1605fa1f0ee303dc9b09fa17f5f4c194a9541int),
            h: (1, 0x4aabfa46d5de35efed45cf52d5bf0c3712f5a64a7624035a9606cfc916df60bint),
            s0: (0, 0x65672888dd1b457ac105ee597deb8120262c90c258075bf85d58027ad5e1091eint),
            s1: (1, 0x4e7a2cab4d8fef627fa28fd19ba7c19a97abbf79df4db594e896ec1ba05d0dddint),
            ss: (0x44a4f40a9cfe68a28ec740610f05102c89fd807f5b5118869c20d98d080f023dint, 0x5fb293b650dac8bd988dc9b27275b07033f294964c120185b00c8034189262a9int),
            e: (0, 0x5b07d411e37ce55e99b96cbd4519bfacc2c33a31a4afc15006ac133787246c9eint),
            f: (-1, 0x42275c08bdc5740dbd8d3f0568695e14c09ce5047abd5525df3a722178fb97b4int),
            g: (0, 0x637fa67cb2bdd10ead2f179f3ebb3aafd7029b5f00d4681863c44c75b99992cfint),
            x3: (0x33f22d7e96372174befbf1b9a71a7b4aabb510aacd0a3a696ee062600a310cebint, 0x4ff89faa6b1555dc0a60be20c0ce5c7fb11cf19fb6ecad98c4ade4b0666842dint),
            y3: (0x4016ce46bec93e40d32fd0b88d2a4389f2f4dacf41ec5018c78626fa322b3a5int, 0x12cdf7e1ff6e05cebc73788781fadb7600713321e929a66d6f8e94ecaaac8540int),
            t3: (0x3aa277beee0087dacc189541204d0d790f39a80f3fd3f2386ebf10b45fbcfebint, 0x36a557aa01f70d4be3dfdc826fa8ffa4e1bf740f56e89e927409cdaf463aaedfint),
            z3: (0x38c73b2dd30ad854cd12093c79b3fa6f4d686552e79e4450e9cc7733bb3ebac2int, 0x3fec147b6a3d74d1b58ad68ebb2e27920e24175404b7ad5dcb1087e1534997caint),
        },
    );
    lemma_chain_double(
        base(),
        ExtendedPoint { x: 0x4ff89faa6b1555dc0a60be20c0ce5c7fb11cf19fb6ecad98c4ade4b0666842dint, y: 0x12cdf7e1ff6e05cebc73788781fadb7600713321e929a66d6f8e94ecaaac8540int, t: 0x36a557aa01f70d4be3dfdc826fa8ffa4e1bf740f56e89e927409cdaf463aaedfint, z: 0x3fec147b6a3d74d1b58ad68ebb2e27920e24175404b7ad5dcb1087e1534997caint },
        0xe7db4ea6533afa906673b0101343b00a6682093ccc81082d0970e5ed7nat,
        DoubleWitness {
            xx: (0x372ab0cdd840fc45747c4fcdbea4e843139566c3d651f813caa1c8577076fdint, 0x5e403e431a352bf1743169a1b729404d5b09ed3cf510fc0373224ad25ca9f8ecint),
            a: (-1, 0x15ad69100f685156bf086e66527897b7f8b3b6c60aed5ffb8cddb52ca3560715int),
            b: (0x30cddde74f7782f39d94363045a4998c285d148b7577c4fe5d5b435ffdb3082int, 0x3032a1d9651f54bba5336e8f1217e2fb116a613bd5589bfc06f6bf8853805f7eint),
            zz: (0x233f0e32b8f287fb311f44a05a30c11d136ff2a4c076488d0b089faa29c6dd0fint, 0x2cedc0c709b303bee70d0e9818b840e265dab44da2d1a908948ae80dbd6d0e55int),
            c: (0, 0x59db818e1366077dce1a1d30317081c4cbb5689b45a352112915d01b7ada1caaint),
            dif: (-1, 0x59686e89d3e679e34d0ed7df4a028cc23b06f98d35931ffe85e6f5a34fd5a798int),
            xy: (0xcf8d5816315e74811327f8847409c4e57aa70091da22eaef4c1c54eb8e9f74int, 0x64cedf35b690c020b911638c389c8416e25832cd3981614220014e56a0f9ccccint),
            e: (1, 0x55b01718438402f93ee8ef106797302870f2c1977304668540029cae41f39997int),
            g: (0, 0x45e00ae97487a612643bdcf564907ab30a1e1801e045fbf793d474b4f6d66693int),
            f: (-1, 0x5ff230ae8abf1bdcc95b97cd3cc1d0f3922653699aa105e56abea4987bfc49eaint),
            x3: (0x46eb055490996c77b5cabe679f8a7f097fceb2d4b0f480d0d7599845fed25ba8int, 0x63c5346576c67a4c9518f4ca5136754eef075dcfe534dd3318dc8fb77e48175eint),
            y3: (0x35e3e0610d2b0342206aea43dd5e89cc1f69efe8b96600fa8cc2a6b83967b2a0int, 0x18027e374f57877b6455faadb954c0fc45faebe091b4becedf69ed03e81e19a8int),
            t3: (0x4215dee208be288c907130b9d5d23dce22b40c455e099e83a10ad0fe04207201int, 0x66de9c5f00215f5d6a2958821c6fdb54d54cf2d309b8296cccf1afb9715740a7int),
            z3: (0x39d4b9a2e960bd07aa34800cee1389a3bffe7a537260d527d3f824f7876c21a2int, 0x73dab68c619f60a539a970eeee7f8117c41d12f09c6a8fc825c75614d5818bbcint),
        },
    );
    lemma_chain_double(
        base(),
        ExtendedPoint { x: 0x63c5346576c67a4c9518f4ca5136754eef075dcfe534dd3318dc8fb77e48175eint, y: 0x18027e374f57877b6455faadb954c0fc45faebe091b4becedf69ed03e81e19a8int, t: 0x66de9c5f00215f5d6a2958821c6fdb54d54cf2d309b8296cccf1afb9715740a7int, z: 0x73dab68c619f60a539a970eeee7f8117c41d12f09c6a8fc825c75614d5818bbcint },
        0x1cfb69d4ca675f520cce7602026876014cd0412799902105a12e1cbdaenat,
        DoubleWitness {
            xx: (0x55dd4a75eca0ec9cd79ef6b6ebdeb278ab8074dc8a2ef3228522d77ba3eeed7bint, 0x59b3729236e025868cf22567efad11e22634237ecb7f4c2c3bd38db10b131909int),
            a: (-1, 0x1a3a34c0f2bd57c1a647b2a019f4c6232d898084347f0fd2c42c724df4ece6f8int),
            b: (0x4f8fd9d7f4a57248dc234195e1702ca27d63e054491634da6626fa481b57929int, 0x6deb370dedc6eb2677a740e400fab30a28e0993b581d891a95cf457f043cc517int),
            zz: (0x73c7c8ddcccc2f1bb9740e5a3b3c1247362ad0a68e81eefa41231f5b52ff1782int, 0x6173465b2d7ed943c1e74e7a30cc5758d3b5a695ab755093c054f19ba4be9a8eint),
            c: (1, 0x4ef8e5633160353f5094c4ec57f6d6ac53ada92856ec452880a9e338497d351bint),
            dif: (-1, 0x203ca5062e93e9e361da49c4229beb1e58668b4bdc5fe2b72e5d2ccdf0b021e2int),
            xy: (0x14a9ccaa7b00c8594c6e2574f299ded0acdf83348a7bfdc10cca390465d4196cint, 0x3079a85bcb23721da9180122fa8815b0318d7ba8c100305c05cb89e170c76a44int),
            e: (0, 0x60f350b79646e43b52300245f5102b60631af751820060b80b9713c2e18ed488int),
            g: (1, 0x1437c47bb6e6c59feab51b7c114da12802ac75bc8c9e3cee59fbb7cdf929ac0eint),
            f: (-1, 0x392c866baf240da8cd5a2e97c2f8a28102bc709735b053c4d951d494afac76f4int),
            x3: (0x2fd079338c8d89b70b1b7977e0bacd69f4a3ef3ff2a6da1e8e0298fade167306int, 0x1029672183bbb5e023fa231494a195b2462fac6cb6002e95b3ea31a1b762ce9aint),
            y3: (0x59f41c913bd4314928c7684db400d35050505dfa0d1b11a5b5bcbb4d8778b09int, 0x405930379665be7b926a78944e3decc2b30c39e57785b8db8c3f1d71e7202753int),
            t3: (0x1af5a8384a21e193a21241b26c58283277a9db1df020f406ca5b2dcd64d47cabint, 0x3ef8c764472230bedadfa60d2f902f0261dcfb833aafe2ed6a256a55c228ab65int),
            z3: (0x9f89a397a497c5c533996b44cec62d8f711c09f379fccfead2a6e7bdca10184int, 0x59d2d48e8b3249df0b5f6949ea60b94ec365618bffa4ee9822d2a8e7ffcd6fd4int),
        },
    );
    lemma_chain_double(
        base(),
        ExtendedPoint { x: 0x1029672183bbb5e023fa231494a195b2462fac6cb6002e95b3ea31a1b762ce9aint, y: 0x405930379665be7b926a78944e3decc2b30c39e57785b8db8c3f1d71e7202753int, t: 0x3ef8c764472230bedadfa60d2f902f0261dcfb833aafe2ed6a256a55c228ab65int, z: 0x59d2d48e8b3249df0b5f6949ea60b94ec365618bffa4ee9822d2a8e7ffcd6fd4int },
        0x39f6d3a994cebea4199cec0404d0ec0299a0824f3320420b425c397b5cnat,
        DoubleWitness {
            xx: (0x240cd12fb9792d5e1287711fb4e0b57742f1f9d6cac1e8b9641c129a6fb97b4int, 0x3a5d64c4f7cdbe45d5affc400700d57d8ecffa71746f1d7f1eff11c159a89cf0int),
            a: (-1, 0x3990428e31cfbf025d89dbc802a10287c4eda9918b8f3e7fe100ee3da6576311int),
            b: (0x23b7c7ab709339ce160ad1b0ac6e01f26b197144038bcd18e52d7faa3a0e617fint, 0x42315bad06df3f1680d3b891782e59de21e0339b79aaf5f39bb1721c6abc036aint),
            zz: (0x4598d8e3fd1f49feec1dcf461eb39b4985d20ef106181f3ce61887682b6af9b6int, 0x3c217f19ef5fd89848683aa55a361bdd93dbab5e18a0865e54436c8a76f68ddaint),
            c: (1, 0x45556e0b52233e85d969d42aaca5fb5d3f9b2b93142b0bda886d915eded1bb3int),
            dif: (-1, 0x6b4c8e34548dfd340feffb3e941480aef6cb19f911e2a48b454f7c203b9b5fa8int),
            xy: (0x8f88ccf3b2143dd7486e23ae2dc263e337cdaa448f034268e79c9d439b735ffint, 0x73d70160150a4f31bb9a2deb8199d3a8d3119396702ab2e10256df4a120b3befint),
            e: (1, 0x73c05b6d0077211b43fa83cef991cf4c52658329e05709c304adbe95241677ddint),
            g: (1, 0x7d3f6e80f1180d0ab23bc51712d84609310392a053bd8747cb2605b1113667aint),
            f: (0, 0x37ea00759ef4ce84d8d1f0ec66324aabf168670d3f927b6d42b874523264ac7int),
            x3: (0x37d42792eb9569ddbb5c823eb789b57ae159b2d8c76b715163ca1c2361f81fdint, 0x6084afc26639f7ebfb15293a22a3b73c8973200d52af7ad7637e69e257cb8cceint),
            y3: (0x73ecbea8ea46addde9d3b395ae8be604ce8ec6d21b788c43e3b33d710927feeint, 0x41dccd17ad6131ba8be4d4d406c884114bd3672d9c65f96f36f109cd810e0622int),
            t3: (0x6b22a176665e899d9660533297661d5beb9b8fc1cbf462b286bc949b8588f32cint, 0x4b1a8e418fbe66b98f91e9921e78856ffeb786458c09e6474139d7af017fb8dcint),
            z3: (0x3c68b345d167853cc027241f91f12460c26395ae118dd68058e036643402edint, 0x6d6d3a9afb4dd2d6e75153de49385ce337000eb3911b5bf436fb8136619be9e9int),
        },
    );
    lemma_chain_double(
        base(),
        ExtendedPoint { x: 0x6084afc26639f7ebfb15293a22a3b73c8973200d52af7ad7637e69e257cb8cceint, y: 0x41dccd17ad6131ba8be4d4d406c884114bd3672d9c65f96f36f109cd810e0622int, t: 0x4b1a8e418fbe66b98f91e9921e78856ffeb786458c09e6474139d7af017fb8dcint, z: 0x6d6d3a9afb4dd2d6e75153de49385ce337000eb3911b5bf436fb8136619be9e9int },
        0x73eda753299d7d483339d80809a1d8053341049e6640841684b872f6b8nat,
        DoubleWitness {
            xx: (0x505bae109e4155d99c683fac6f0835afab72015a5f6a9bfc3cccd79f67e356f0int, 0x2ec0735b448e18d158030cc430f3970f788e097baa277c0134e0129538429ed4int),
            a: (-1, 0x452d33f7e50f6476db36cb43d8ae40f5db2f9a8755d6dffdcb1fed69c7bd612dint),
            b: (0x256b25b4c6b8b63bdf39b73bcdf646e84c86b5ed04f58b7599bbee65ea71f14aint, 0x681b4b9b854379132bed1579fcdcf42c3cfc058b0fc030bf22ad5c4b056bab3aint),
            zz: (0x674a26a0d48622268cfd9283c0f5d5b36278f4c1ad98aefced04717dbd20b102int, 0x69f556fd9e3fbb006939da75483979a235d8f35864a44e023fbd4607eabf450fint),
            c: (1, 0x5ffd06a812e1f8b89f39dce286d11b3f17f442adc94a40057f7a8c10d57e8a1dint),
            dif: (-1, 0x50ff8faf896968abe2838dd1e57324cef1f138ff46150b3da872911dc251b5f4int),
            xy: (0x36d5c6a139dce4728330b282e7358617e6af9d1e38d5820885ab5cbe65dc495eint, 0x36281acb2c197f543189b2ca858db86270d8b60d21339e445df5a8c989bd3dfeint),
            e: (0, 0x6c5035965832fea8631365950b1b70c4e1b16c1a42673c88bbeb5193137a7bfcint),
            g: (1, 0x395ad84040b56041d3ea08b5cbe95d1cc46dfc0f6598b4bdedcd49b5cd290c66int),
            f: (-1, 0x4d4b78eb5770e4d167ea03db4eba19e300375d649c4cd0b76e52bda3f7aa824aint),
            x3: (0x4837afe8847aca3ff178beca81ea76688306c9968e278b9c92d665daba554b53int, 0x3573cac08e68975a1c6d3d041bb5c6823b403f6bf2eedc2adfa5444a93608385int),
            y3: (0x2812cc0e2ca8756e3b8e86707c2c8f0289bfbb21c25bb786b23f673d73e8ecdcint, 0x39f50af4671dc4b36428db5ff9aa6ee7fa4741815b51e010998883e45541025cint),
            t3: (0x4bad7faa400cfc6b708f98d26cd04b0d871431880d90f8d94f258910bf6665beint, 0xf2a2281e5232623ae89b38a71f29479268b9cc97417cf125cd55ce39dbcf272int),
            z3: (0x263dbc5476c5a109648f2feabaf1248d5c00ec2b517c7a096a6ec7d4f96e6b2eint, 0x59f65a0e905ef82676faabf361f4412865a86961f6ed1db0a3684f3fd276f64eint),
        },
    );
    lemma_chain_double(
        base(),
        ExtendedPoint { x: 0x3573cac08e68975a1c6d3d041bb5c6823b403f6bf2eedc2adfa5444a93608385int, y: 0x39f50af4671dc4b36428db5ff9aa6ee7fa4741815b51e010998883e45541025cint, t: 0xf2a2281e5232623ae89b38a71f29479268b9cc97417cf125cd55ce39dbcf272int, z: 0x59f65a0e905ef82676faabf361f4412865a86961f6ed1db0a3684f3fd276f64eint },
        0xe7db4ea6533afa906673b0101343b00a6682093ccc81082d0970e5ed70nat,
        DoubleWitness {
            xx: (0x18a554f077ff040d4cb202848ebcc6f17b77dbd5569ba8b8569188569ac55a12int, 0x6c4b9427e2923fcd38380a32d63a30075247a9aaa6a054e452287e0d0a8c0907int),
            a: (-1, 0x7a2132b470b3d7afb01cdd53367a7fe0175fa58595e071aadd781f1f573f6faint),
            b: (0x1cf9a126a3f1be8c7454a219f0c27e706a357b40e800b4d8ccd80777a1613bfbint, 0x3ee0657d5783451c595957fc11dcc0d60bd1d19ab38f6ae6cee3cc76a95c5515int),
            zz: (0x45cfef6ba383efa7a076046a284731b385bac3b4d2fb75a209c3b36524001276int, 0x4023597b5c38773fd9d633f48a751249134ee69a874531973d3520d4d0e1ed4eint),
            c: (1, 0xc590ba38ed3713780728fe10b484c8cd2e029320e8c072f7a6a41aaa1c3da9bint),
            dif: (-1, 0x3caf5501192575a6d4e24de12b2cbf2d4961ccc0a5ccf832def3b57a4c17a1e6int),
            xy: (0x1ab912cc075da13add7057a3cad8694f91ac7327a8dfbc5b17101f939d7b56f4int, 0xdcf1b66f9fbaa6d3030bb0cdfa6cf203840ffe4dd0fb5fd4b20fff4a7fff6d8int),
            e: (0, 0x1b9e36cdf3f754da60617619bf4d9e407081ffc9ba1f6bfa9641ffe94fffedb0int),
            g: (0, 0x468278a89e8e8297545b25d1454468d40d47cbf30ced72017cbb4e689ed04c0fint),
            f: (0, 0x3a296d050fbb115fd3e895f039fc1c473a67a2c0fe616ad202510cbdfd0c7174int),
            x3: (0xddb2953be83fdacf0252bbd87e40f06e1062b227772979d59d7a22591b772ceint, 0x33a9b6136156fd2d160bf7463a9ac8c6297d0b4671d24d6ca6842b86ba6af0f2int),
            y3: (0x24e8dcc6df4372d183dddb2c8c15c3020bae6974a27588a5e298d99f57c24525int, 0x56359b3761498354dc0433dd597bc57ac0184e440e9391c195959ed6a0907f55int),
            t3: (0xe7509b983959922e7b5a0b1d28d3d188418eeb1e9e9dd8025a9b82dba1b6235int, 0x223f771031e6d95cba4afc21d0afa5f6c923034ddff69b99a87a3163b51fd9ebint),
            z3: (0x236002ca0e4db4378c97fe7f52658321883f43ff71e9fec675989e2b87ee6c73int, 0x19accb6459f714d347173b1e122e77499e1ffa4ae924435588c4abcac3baa959int),
        },
    );
    lemma_chain_subtract(
        base(),
        negative_base(),
        ExtendedPoint { x: 0x33a9b6136156fd2d160bf7463a9ac8c6297d0b4671d24d6ca6842b86ba6af0f2int, y: 0x56359b3761498354dc0433dd597bc57ac0184e440e9391c195959ed6a0907f55int, t: 0x223f771031e6d95cba4afc21d0afa5f6c923034ddff69b99a87a3163b51fd9ebint, z: 0x19accb6459f714d347173b1e122e77499e1ffa4ae924435588c4abcac3baa959int },
        0x1cfb69d4ca675f520cce7602026876014cd0412799902105a12e1cbdae0nat,
        SumWitness {
            a: (0x2f95a38e5e6c17e8123856eb50c6995ba2f4131170d29113a6476fd028ab677fint, 0x2140e647656c98f1e86f5be5989f2cdb91ec0a4d2866ce6a2f1dee4dad0b8cfdint),
            b: (0x412a2b22419fcb1a3bba4dd35dac0dd1f1e069e0460cbdb96e01f7024926f16cint, 0x6d84ebac911ab7b05cbdd1d5f4bcbe9b4cc44eaa2577eebcf16e5c5cc520784int),
            dt: (0xc93d868b682a6515316e9e1ac3b01db1e8bebca61ec80964bf26187cecdda77int, 0x14dc7dde7e382a1771792d3cdff8976a5c838713c63d419a39f78ed1d8babb04int),
            c: (0x13e71bfd5b3751a742a5cff562369deb4fdeb141adb254b9fe2e6e83bcf691ddint, 0x6a7db439ea946e7452257a5854436801eed9fecdf6a2ae3fc41d3d199c07db43int),
            zz: (0, 0x19accb6459f714d347173b1e122e77499e1ffa4ae924435588c4abcac3baa959int),
            h: (0, 0x281935022e7e446cee3b3902f7eaf8c546b84f37cabe4d55fe34d413795d9481int),
            s0: (1, 0x15f1a9f799030339bed6531b8a74b63b95d7b5878067832f3c19ca5e5afb7046int),
            s1: (1, 0x4e7a2cab4d8fef627fa28fd19ba7c19a97abbf79df4db594e896ec1ba05d0dddint),
            ss: (0xedadb2f13f3caf27acb0fb49f709f848ea7c5d157b204c7279fcbeca50b6e20int, 0x6789d45bc3ab49515ae0fbfa1d81237caed2caa9d0353651c923b32c34260c4eint),
            e: (0, 0x3f709f59952d04e46ca5c2f725962ab7681a7b720576e8fbcaeedf18bac877cdint),
            f: (-1, 0x231cbe7d990023a7282b98cdc78ce74d03039f7ff27ff114c4a76eb027b2ce17int),
            g: (1, 0x103cd84b1aee05ff6602dd6e5cd00746393c5515dfc895964ce1e8e55fc2849bint),
            x3: (0x1336f261bf0bbd409ad344a90ee38aa03f117cd7a672d0363177f2e824fd3d9eint, 0x6fda67e56c5d9f5b63cc09abf902cc1a3f603908da9e5114f22f18cf7af67bcdint),
            y3: (0x59dcfc2bce314466091ee65f01ebc374aa2975478ad5b6305f66bfadb5eb87fint, 0x68b51244bd621ac6b281ba8c1b72faf0a9f562799f96754b1e36314e499eb59cint),
            t3: (0x15f17885fb655c137c5e12c8b6e26b9d04bf414f0b52c24ec0e651508ef9b520int, 0xfbee85d538e710dea9b404d4fc85ba1e9cf08cecf48adb9816b5eebdfc62d2dint),
            z3: (0x4eb05997f13ef45b243607ffc803bea6598ef2bae96ff105524b3108b0f23faint, 0x226e6a82521a2cbbfcb32c92aac235ed8048d655d5819b466084ec9766e57ff3int),
        },
    );
    lemma_chain_double(
        base(),
        ExtendedPoint { x: 0x6fda67e56c5d9f5b63cc09abf902cc1a3f603908da9e5114f22f18cf7af67bcdint, y: 0x68b51244bd621ac6b281ba8c1b72faf0a9f562799f96754b1e36314e499eb59cint, t: 0xfbee85d538e710dea9b404d4fc85ba1e9cf08cecf48adb9816b5eebdfc62d2dint, z: 0x226e6a82521a2cbbfcb32c92aac235ed8048d655d5819b466084ec9766e57ff3int },
        0x1cfb69d4ca675f520cce7602026876014cd0412799902105a12e1cbdadfnat,
        DoubleWitness {
            xx: (0x6bebd4bb7b9c79a7601bbb9302ca3e33def908d2a0d3663081f9324d952db00eint, 0x2506f1ec1f414159f7aa0dcc69560d024bafa9f7f4223dfa695cfe97f8acf21bint),
            a: (-1, 0x4ee6b5670a5c3bee3b8fca3ba04bcb03080dfa0b0bdc1e0496a3016707530de6int),
            b: (0x5e9288c7c90ab16815ca299549d3333c9454c764f7e5470340f5c786b23f899eint, 0x5510d88bf9a59d2b9a82252676cc0d35389129f938ad952e52820b1ef3266d72int),
            zz: (0xa39ed4f0edc0da2e8a05d390f3a85a224ce0700efb26f2b5ac5ec2d55def0b3int, 0x48ea205b18c22a0602311a0d5f85c03a9093bc906726107cddb1ace376d20ff6int),
            c: (1, 0x1de6996307e6d6c3d1285c12b569a86fcd69d51dce4dc4fabb6359c7eda41febint),
            dif: (-1, 0x6dc3842e3a541c0ad4477d1d332195d3233a7414d32ce4d54420f647142ca075int),
            xy: (0x6506cd6c3aeada42606b253d590545b2d65b71598d555889dd655ae8fdbd20f8int, 0x70219af51cb5f213a492728bbba459a40093e10da7dd30ca43bdb952138440f4int),
            e: (1, 0x6c558e970fce66df15eb0d0f6da6db42ad6a1e184fbc0595877b72a5270881e7int),
            g: (1, 0x3009e69fda645bd1a2d8175a0d760032ece18001448b5733e9250c86fa797b57int),
            f: (0, 0x12234d3cd27d850dd1afbb47580c57c31f77aae3763d92392dc1b2bf0cd55b6cint),
            x3: (0x10f321ee558526f0fe936e50f10f2dd170035b216da9cc826a476437cc14f057int, 0x23d8815b1a64fbc81bb4209998e31b537d72d1749e493e6b20b3082f9ae1fa1dint),
            y3: (0x2d7bf2c89b30bb2d7b43de4982500d0e74ed780c355c828290bf8ce153dd22d6int, 0xe3f9420f609aae4a666cc860731056c90a0a7b821526673e6bc05d611b29bedint),
            t3: (0x6692cc83c3400ffcbbd85e5ba73d15a170c754d3f7a9a62b15253c008b69e505int, 0x44a0ea6d4b5de50e5cc6649fc74b5776cbf7e2012a3b131fbdd6a791fc5dd98eint),
            z3: (0x7841a6235e63a712ce7d64f483868160a97b64084d485870a0a3b0300d315feint, 0x272ec7de1a6ab856f2a631bafd636dc8e8b30867b247f12adde6bbba8ca7dfb6int),
        },
    );
    lemma_chain_double(
        base(),
        ExtendedPoint { x: 0x23d8815b1a64fbc81bb4209998e31b537d72d1749e493e6b20b3082f9ae1fa1dint, y: 0xe3f9420f609aae4a666cc860731056c90a0a7b821526673e6bc05d611b29bedint, t: 0x44a0ea6d4b5de50e5cc6649fc74b5776cbf7e2012a3b131fbdd6a791fc5dd98eint, z: 0x272ec7de1a6ab856f2a631bafd636dc8e8b30867b247f12adde6bbba8ca7dfb6int },
        0x39f6d3a994cebea4199cec0404d0ec0299a0824f3320420b425c397b5benat,
        DoubleWitness {
            xx: (0xb156df2d5c5d99a81c143dd374873aab114b52bedcfccbc6d9b1a4f0ab5398dint, 0x5150bd85b2dbe802dac4179516e5464c9f8d4ebf95111470fdf86e4874a16dbcint),
            a: (-1, 0x229ce9cd76c195455875c072f2bc91b8b43055436aed478e020791b68b5e9245int),
            b: (0x1c04fb699f4ac6f64c643ffcfb14b49c1daeb56806dc8239bdeaee95684487dint, 0x4d94193e1bf2543458bee83d5a410fe7c3cf6682ebc834662caac122580890ecint),
            zz: (0xd3e505cf50790194e00946750544749aa0e8feb0eb0c23371d1ea226aac91dcint, 0x477b7b11f047f06f75338de9d020625f59ddd0a54a1164d721efaaf648460388int),
            c: (1, 0x1b094ed0b6f26396b72d43cb969eecb95ffdfd4794246daf43df55ed908c070fint),
            dif: (-1, 0x48f677e2846cbe5932f0b03da21d59d6441e92c37f236f26d55cd0933356015aint),
            xy: (0x467da50d2709d13161a45456448a3a80fd65a3b1afab4b001ff099557fab6b1int, 0x685135f4713d5e889fd568c4cdc5920a960685c40d5f29197a276beeb2d36528int),
            e: (1, 0x5cb4c495b8dd3fc90c70f98191e94c0fd84f67851abff633f44ed7de65a6ca4fint),
            g: (0, 0x7031030b92b3e979b134a8b04cfda1a077ffbbc656b57bf42eb252d8e3672331int),
            f: (0, 0x5527b43adbc185e2fa0764e4b65eb4e71801be7ec2910e44ead2fceb52db1c22int),
            x3: (0x4418e43ad4817ee274b6e545d4af97480bd5697ea1020c734b2007aeede9291bint, 0x430822083c2b5716fe34273ec8fa08ec602ddcdc0ed0e7f46bdfd152ff35963int),
            y3: (0x469c60fca6681c73cc23685ec39ac9a0ee93b04264b0761401fccbbb9b1abc26int, 0x168d25463235d287967d2db34e86f71721c0f52716d4f52a8bb8df5953c0d414int),
            t3: (0x3a58e30695ca582cda789531dacc449e10d8830681e758c5d2841e5b1b031046int, 0xd4373f368c3f3fd573fd922f0c8f83541a1c9bde25775dba08f7032fbf45e80int),
            z3: (0x526900dd7a6453905582de07796a732b672412b95c9047648128a83d78eaba88int, 0x7101e0248bfea35762165b9b519b43d569a551db0f25dcbcf365e873cf8c4dfaint),
        },
    );
    lemma_chain_double(
        base(),
        ExtendedPoint { x: 0x430822083c2b5716fe34273ec8fa08ec602ddcdc0ed0e7f46bdfd152ff35963int, y: 0x168d25463235d287967d2db34e86f71721c0f52716d4f52a8bb8df5953c0d414int, t: 0xd4373f368c3f3fd573fd922f0c8f83541a1c9bde25775dba08f7032fbf45e80int, z: 0x7101e0248bfea35762165b9b519b43d569a551db0f25dcbcf365e873cf8c4dfaint },
        0x73eda753299d7d483339d80809a1d8053341049e6640841684b872f6b7cnat,
        DoubleWitness {
            xx: (0x26c2492d5c6833bf7eaedbb657b5d3e9af7469cf0bdbaea6cc8828855e4573int, 0x1432ddd560f8d5d1946d2b228ae74eaf828db2c47b4be6e2e45557ada5c9b6d6int),
            a: (-1, 0x5fbac97dc8a4a7769eccace57eba8955d12ff13e84b2751c1baaa8515a36492bint),
            b: (0x4630a6542da432e5e014b509e031764b84471da0e99e7360c512866d0a3a453int, 0x43944ecb71af332eadde8d551246fc6e2eeb80ac5e7f7aa7a2076497f50d7d3dint),
            zz: (0x6e28f063996c2d5029fc3f87db68560b6d485515310da894e6529de6c05fe9c4int, 0x1ff42525cebce69685a8ef4345c60ef22ca65bd4bdfee3966af8ad78ecd06e60int),
            c: (0, 0x3fe84a4b9d79cd2d0b51de868b8c1de4594cb7a97bfdc72cd5f15af1d9a0dcc0int),
            dif: (0, 0x1c267ab256f57447f0ee1f906c738ce7a24470922632fa7479a343b96528cbeeint),
            xy: (0xd0a21f8ae1873830b13f957c55fc0eb5d9897f0def6b32771cef29c08e1e92int, 0x34e62ff06c1e915dbe61413e46d3f146e92764e4a408cd6d7aedadaea7bad92aint),
            e: (0, 0x69cc5fe0d83d22bb7cc2827c8da7e28dd24ec9c948119adaf5db5b5d4f75b254int),
            g: (1, 0x2f6170f610b65d5d19716232875fadbeac5dcde7e33393c4bdb20cea4f43c667int),
            f: (-1, 0x6366cdfd9cda0d7841595bb4057567dfa6ceba4167342896e7c0b1f775a2e9a8int),
            x3: (0x5ab73941f0f3aba70410b41a8f1e311fb01d274b1e86feeb28eb98677075ce7eint, 0xc2093eb0fe86b47fcfd7b66bec75415f34052f0b56ff36151de4eac113daca2int),
            y3: (0xb8155338340443a792d16fd39639d68b5b81c9887f9a203fef39881da67f8bfint, 0x37a8d0866e71ad61d173cdc5f2dcae5ca8b2ae6b87793727e498a43a38062803int),
            t3: (0x19b0c41a16b20820dafe0611cb2883baeb6d1b37d29bf01b3b16631ca0aae18dint, 0x6cefb5e85ebaf497951687ff4565fe18a46407bd87d9b7ea791a21a59449848bint),
            z3: (0x28a0445b7fd521b9015c50b8b1f04501e025e4353b77b45607eb428c07c31f29int, 0x4fe9e61e9537567de479d1f5b5993f8da62d00a9717bcfcbe1c35f774c78d36fint),
        },
    );
}

/// The multiples of the base point, from the multiple by
/// 0xe7db4ea6533afa906673b0101343b00a6682093ccc81082d0970e5ed6f8
/// to the multiple by
/// 0xe7db4ea6533afa906673b0101343b00a6682093ccc81082d0970e5ed6f72c.
proof fn lemma_order_part_27()
    requires
        extended_valid(base()),
        extended_valid(ExtendedPoint { x: 0xc2093eb0fe86b47fcfd7b66bec75415f34052f0b56ff36151de4eac113daca2int, y: 0x37a8d0866e71ad61d173cdc5f2dcae5ca8b2ae6b87793727e498a43a38062803int, t: 0x6cefb5e85ebaf497951687ff4565fe18a46407bd87d9b7ea791a21a59449848bint, z: 0x4fe9e61e9537567de479d1f5b5993f8da62d00a9717bcfcbe1c35f774c78d36fint }),
        same_point(ExtendedPoint { x: 0xc2093eb0fe86b47fcfd7b66bec75415f34052f0b56ff36151de4eac113daca2int, y: 0x37a8d0866e71ad61d173cdc5f2dcae5ca8b2ae6b87793727e498a43a38062803int, t: 0x6cefb5e85ebaf497951687ff4565fe18a46407bd87d9b7ea791a21a59449848bint, z: 0x4fe9e61e9537567de479d1f5b5993f8da62d00a9717bcfcbe1c35f774c78d36fint }, times(base(), 0xe7db4ea6533afa906673b0101343b00a6682093ccc81082d0970e5ed6f8nat)),
    ensures
        extended_valid(ExtendedPoint { x: 0x31d83e72affe6a5d8262a29996c725c64ace903220ebee89e37ba6ebdef6bb2dint, y: 0x5f17fae277ddcfdf052dd2539feb18ce70610bb57d49648bfefc86af5904372eint, t: 0xd74bf2932fe0bf525668390b8e17e881fb5092008f464e2d74cc891660a9190int, z: 0xb1d287bb6bdef8acb06908ed7a0f7285c43dc7a1515310d98ce294631f68a99int }),
        same_point(ExtendedPoint { x: 0x31d83e72affe6a5d8262a29996c725c64ace903220ebee89e37ba6ebdef6bb2dint, y: 0x5f17fae277ddcfdf052dd2539feb18ce70610bb57d49648bfefc86af5904372eint, t: 0xd74bf2932fe0bf525668390b8e17e881fb5092008f464e2d74cc891660a9190int, z: 0xb1d287bb6bdef8acb06908ed7a0f7285c43dc7a1515310d98ce294631f68a99int }, times(base(), 0xe7db4ea6533afa906673b0101343b00a6682093ccc81082d0970e5ed6f72cnat)),
{
    lemma_negative_base();
    lemma_chain_subtract(
        base(),
        negative_base(),
        ExtendedPoint { x: 0xc2093eb0fe86b47fcfd7b66bec75415f34052f0b56ff36151de4eac113daca2int, y: 0x37a8d0866e71ad61d173cdc5f2dcae5ca8b2ae6b87793727e498a43a38062803int, t: 0x6cefb5e85ebaf497951687ff4565fe18a46407bd87d9b7ea791a21a59449848bint, z: 0x4fe9e61e9537567de479d1f5b5993f8da62d00a9717bcfcbe1c35f774c78d36fint },
        0xe7db4ea6533afa906673b0101343b00a6682093ccc81082d0970e5ed6f8nat,
        SumWitness {
            a: (0xb2b7e89b548b492252066465cd8f143ad02431ce3025332b7e6ec4a45093e45int, 0x41444ef4d527215534b8ae5f844b4c5bf55673e1ee9a01984d4c00f42b4dc7d7int),
            b: (0x2a1284fdea6de6ca762278cda9ae8d266e43510d9f4ad269bb5b72286738667dint, 0x5d9f47449a312ae3f50e50aa1c84ef4f4859b6b8429668bf6dd19546450f3913int),
            dt: (0x2801bdf185c145a73b8d4fc4568e38b1fbba8be116fe5d6a5bab87eb711a463eint, 0x63542539fb8f6c53a5da37fd91c474376c4bbe0d352ecdf1482410a5021007ddint),
            c: (0x5ec3c904a41b81d2af62a790e769be987abec8a0d1b46a29acf75cf77cf4b287int, 0x13bdb49e54027a1ffd0f00b04bc2af9275682b4221926e9ac60fbd1e986cc4a1int),
            zz: (0, 0x4fe9e61e9537567de479d1f5b5993f8da62d00a9717bcfcbe1c35f774c78d36fint),
            h: (1, 0x2af5eee645bacef0f68d2701972e63a5e9f2869731320e58bb1d963b705d00e9int),
            s0: (0, 0x43c964717e5a18a9ce71492cb1a402729bf3015c3ce92a893676f2e64943d4a5int),
            s1: (1, 0x4e7a2cab4d8fef627fa28fd19ba7c19a97abbf79df4db594e896ec1ba05d0dddint),
            ss: (0x2de350143dd34934f18c01f1b5366de3bf738ed2f5480727c2d2af2f3491c415int, 0x299c4ded14c085c305f9ea850df199a1a9bf3c9737219a070f15035ddcba2f5cint),
            e: (-1, 0x72940659f8a3341a42a69b8b80650e01138a5a0305ede7ad53f76d216c5d2e74int),
            f: (0, 0x3c2c31804134dc5de76ad14569d68ffb30c4d5674fe961311bb3a258b40c0eceint),
            g: (0, 0x63a79abce939d09de188d2a6015bef201b952beb930e3e66a7d31c95e4e59810int),
            x3: (0x3b78cb6e1c372cf526f36a55f47679a77deaa559c7b04580e088d08e644e33d2int, 0x502c48f15a79caa26a704003c4a6848e69d7561fb25e3297292300fda4a78586int),
            y3: (0x24ee149120aaf7626033f4cbab53ff6550c7c88bf2ef2dde710c830a5fcfcb0cint, 0x537896bfc54032064ad3b73c652dc8f1fdeffc844fae2419d654520e32f79b84int),
            t3: (0x2a75d9a7ba28a9b2ab1a856fd97f5205c4fd0eb82784e115d2757c8e6820c8e3int, 0x6f5a52caf10550e33e24b9145711e6d98b0efe73fb04d14dd8406ea8d8d27eb1int),
            z3: (0x33b9cdf54d8a51897a816fa107b6b3a024ef2cdcf43500287033b1b91a259946int, 0x5383d48bb832fd650b8ad06627afbd7ad1eeaa1cb70761a0f9b1a9de05aba39aint),
        },
    );
    lemma_chain_double(
        base(),
        ExtendedPoint { x: 0x502c48f15a79caa26a704003c4a6848e69d7561fb25e3297292300fda4a78586int, y: 0x537896bfc54032064ad3b73c652dc8f1fdeffc844fae2419d654520e32f79b84int, t: 0x6f5a52caf10550e33e24b9145711e6d98b0efe73fb04d14dd8406ea8d8d27eb1int, z: 0x5383d48bb832fd650b8ad06627afbd7ad1eeaa1cb70761a0f9b1a9de05aba39aint },
        0xe7db4ea6533afa906673b0101343b00a6682093ccc81082d0970e5ed6f7nat,
        DoubleWitness {
            xx: (0x37720e4a4116a07e41deb2d3cb9ddee42230a341c40b452d9b38fcae322a4159int, 0x3b86c9ca6d3148ef38062082c38d70f148755aa8f4d782cfe29a4039f84e40cbint),
            a: (-1, 0x3866dd88bc6c3458fb33b785461467140b48495a0b26d92f1d65bfc507b1bf36int),
            b: (0x3c19df5217a4762eef3d126057c98ec6c1437e64b825e52eb4d5a64b478c5bd7int, 0x1403b2d364f434a4a2395aca0637a28cd41133b6b346dcaa8e31f038bfa4c039int),
            zz: (0x3c2a1091c9ec3eda4e18baa986d339cfd1f43dc1058786a5a60523cfc722a052int, 0x2c021382ac4bbf81daab4ac4d15c69fc157898fdba5c99a063e2b7123526d852int),
            c: (0, 0x5804270558977f03b5569589a2b8d3f82af131fb74b93340c7c56e246a4db0a4int),
            dif: (0, 0x24632ab55777ffb458fa5cbb3fdcc487373715a357dffc848f33cf8c480cfefdint),
            xy: (0x39b9f447c51f6bb13294c79f4878579401fa85dbe64738de094756b5993ce2d9int, 0x1b9053e179d73fd4d44c629bdd2a2853d37778786ce66c9f46470a7bb46183fint),
            e: (0, 0x3720a7c2f3ae7fa9a898c537ba5450a7a6eef0f0d9ccd93e8c8e14f768c307eint),
            g: (0, 0x4c6a905c216068fd9d6d124f4c4c09a0df597d10be6db5d9ab97affdc7567f6fint),
            f: (-1, 0x685410a9f26667421b5054cdb3350dae0825ef1849b2de97e3d241d85d08ceccint),
            x3: (0x319c85d76140f69086aa85d115f6544850b08ea8d5f8c61ccbe98879b1e1dbbint, 0x7058ad02e116c9217e98ab8ec0b17d4977d8ed174a2fc1a7fc428c39f58deaadint),
            y3: (0x17fc42e11e9237f297d479ef69a7d9b163546f0fb2834ba59b0143c5af2a5e7fint, 0x4e3fda6c867a71884c5b544e59f88873345931bfdee88b38221af1e854f5b434int),
            t3: (0x114da77037a76f16a8b0e249708bc5c20103dc177434a4f4ba2274051691eb2int, 0x50e5c67d232c6739c212b5666c2647b2d3f164521259c6dc87e5ddb6a527d1d4int),
            z3: (0x44c51b12427d775ccbfb10f375667b43236c44ca79f6ca1e20137b462ed7aa7fint, 0x54cd6c1e9f37924b2de3835c1c2b44022ef76c2ffce2d306a9ffff82931933f5int),
        },
    );
    lemma_chain_double(
        base(),
        ExtendedPoint { x: 0x7058ad02e116c9217e98ab8ec0b17d4977d8ed174a2fc1a7fc428c39f58deaadint, y: 0x4e3fda6c867a71884c5b544e59f88873345931bfdee88b38221af1e854f5b434int, t: 0x50e5c67d232c6739c212b5666c2647b2d3f164521259c6dc87e5ddb6a527d1d4int, z: 0x54cd6c1e9f37924b2de3835c1c2b44022ef76c2ffce2d306a9ffff82931933f5int },
        0x1cfb69d4ca675f520cce7602026876014cd0412799902105a12e1cbdadeenat,
        DoubleWitness {
            xx: (0x6ce007dee0f3cb2a4915999522727ff7f30cc5b378231f6310ce976bb2395b1eint, 0x90003016deb069a27eb4dc6ecb15146de287842a50a87c0b8076e97c9795dcbint),
            a: (-1, 0x6aeda451bbb276ae0b4e8a411cf086be75952bc05af3d43e47f891673686a236int),
            b: (0x34d11ef52879173f0ce923d1a1fae2c3904a9d5eb0f63891c8947d943eab5807int, 0x63aa1c35dd199a2251f569d0648bbee7a1f807fbfc7e306097798ac74bb5d289int),
            zz: (0x3e089a39a34979349d87bf06ce5ef506e088c8ad809555034d2cc0c7323b5b1dint, 0x6e04cf7137361ae5ebd918263bb32378431ed0e351145ed1d0c569505c2a2d5cint),
            c: (1, 0x681bf78f44ceb883a47858446dc46eeb327ffdc3a22a61a4a18ad2a1b8545ab7int),
            dif: (0, 0x743881bde98dc8bb9592070b864c7d6d39d23c45e75a3ddb07f069fead0cfadint),
            xy: (0x4bd4e91d81c8c8ff8f2864a16bf4313e90bc18db00e944abe315e24a53d34cc5int, 0x2d7560f362bbeae32087980d232933cac1526c3a56b86b2a300c282b193025fint),
            e: (0, 0x5aeac1e6c577d5c6410f301a4652679582a4d874ad70d6546018505632604beint),
            g: (1, 0x5aaa19346f2e93882a0a1c0977da6da0c3cf8fb95773a89fdf721c2f823c74beint),
            f: (-1, 0x667bc8f853fd584cb8cb9bcd13b7d6bae50d35f8b547a2fa3de7498cc9e81a08int),
            x3: (0x505f771f41f4f27caeb65531ac17599181eeff7362d07912d17acbe21010d33int, 0x18ccf9a060b7384b40bc9b471d9636a7f4351082387961abb0c98ec74eda64bdint),
            y3: (0x5ae4a39e421988f1ccec5c3212a3826c17b8ece91a1968dc1e4bd4d4a121a49int, 0x1741c65a5064384c101f05d6c138f5334d27b435151aa60ff944dd3c218e6c1dint),
            t3: (0x5b2576106c821642a877b1d327115e6147395d6d29f7f32f198d6dfa5c4c19int, 0x63e5d0943126433d3c2e8de7259e58b8d5bf9a8006273f42c8d5b3b64a8a8a4dint),
            z3: (0x50264e203f51ed259326990ebbb0a5b44de24449fc7d8e3575d109a07936a273int, 0x1d2d510b57a2860d056ced8a32b8a1a2e211e8f60c13832281eed1e3b6b84f7dint),
        },
    );
    lemma_chain_add(
        base(),
        ExtendedPoint { x: 0x18ccf9a060b7384b40bc9b471d9636a7f4351082387961abb0c98ec74eda64bdint, y: 0x1741c65a5064384c101f05d6c138f5334d27b435151aa60ff944dd3c218e6c1dint, t: 0x63e5d0943126433d3c2e8de7259e58b8d5bf9a8006273f42c8d5b3b64a8a8a4dint, z: 0x1d2d510b57a2860d056ced8a32b8a1a2e211e8f60c13832281eed1e3b6b84f7dint },
        0x39f6d3a994cebea4199cec0404d0ec0299a0824f3320420b425c397b5bdcnat,
        SumWitness {
            a: (0x1f5346a909bdd230da2717c0c21829a2e32d6c7f935d0e96e6de16d7bf0fe57int, 0x6ac0c2d9e66cdc1ff1b8befa81803ea342cff94a92c06fa40231face9095f5f0int),
            b: (0x1194644b131838254c11657a72e93ea0b246b0ac1fd89afadfd332b4fa75f6faint, 0x664344ea955e13c4dcf449bf1c16c24dd6cad11e90a52b8dd932c94b7818cf76int),
            dt: (0x24aff722401879d58517457caf464d2dc1f672f598eb8ab8a2cc38399f498d34int, 0x102184fae4e7aae2e19df9980ed2180fb1ffa0fd742dce6bc10bdf2feda2b809int),
            c: (0xbdbdbd7d13c4d87d47439411f616042cc3feb7d364dc5bd718d601bed4d2ceint, 0x293036b89ce3e3dc29fc86e3d24efc655f68859ff0873b2d2be2b63f24dbc5b3int),
            zz: (0, 0x1d2d510b57a2860d056ced8a32b8a1a2e211e8f60c13832281eed1e3b6b84f7dint),
            h: (1, 0x5d166071522d729c9b7330b193f528ebc5dd266623673f32db64c41b08aec565int),
            s0: (0, 0x300ebffab11b709750dba11ddecf2bdb415cc4b74d9407bbaa0e6c037068d0daint),
            s1: (0, 0x60c7d6918e437d8827d3dfcfe8923870431f0f21be6a05e37815793fb5885c83int),
            ss: (0x281eb8ed5900ba64102c8556ac3f281491ec3b7b4b8c6999c396997ee8fd3a3cint, 0x1f7681b5710849cd4efdc3a5d83b015c0bf57a13a7e4cd15b04b65e45d83fd52int),
            e: (-1, 0x364dc89748785478e6c46afc4de7b07599d5f7b0847be9e1d4e6a1c854d537eeint),
            f: (-1, 0x67eac1a5e45c1f790eaa3eae6a0b7d42d66707591b8aa3f4560c1ba391dc89cbint),
            g: (0, 0x465d87c3f48669e92f69746e05079e08417a6e95fc9abe4fadd18822db941530int),
            x3: (0x30ad6c0045e38048c475eb70d4302c1d68c139871b1b81fbdecba0dbf3668460int, 0x710076109b25d0391b4b1b7521756a7cbbfdbf4ad048a339e817c5394b23335aint),
            y3: (0x38806456facca25be0e1f9a6269c44f6dad1675960068e5f6f77e7b53c200e66int, 0x4789b580d169f8d2e708810ad31c23650110021aa38449bc1c3a8aca403a3d8aint),
            t3: (0x2b9ac4699c281b4f26ee37f53f81dda29896fa6d6c2a735e3f550381304f96dfint, 0x53cd7248a1edeb004b55167bf9acaf769fd51ccaed327573478f0174cf9da007int),
            z3: (0x3f1326b4d536ee02f8e09f831ec7ceba2f5f0d987fd9f30e6a594c32a2fde3d2int, 0x56507340f905d8f2dd6c2db9bad8de77da8e7be6cf69878077bf53982005993eint),
        },
    );
    lemma_chain_double(
        base(),
        ExtendedPoint { x: 0x710076109b25d0391b4b1b7521756a7cbbfdbf4ad048a339e817c5394b23335aint, y: 0x4789b580d169f8d2e708810ad31c23650110021aa38449bc1c3a8aca403a3d8aint, t: 0x53cd7248a1edeb004b55167bf9acaf769fd51ccaed327573478f0174cf9da007int, z: 0x56507340f905d8f2dd6c2db9bad8de77da8e7be6cf69878077bf53982005993eint },
        0x39f6d3a994cebea4199cec0404d0ec0299a0824f3320420b425c397b5bddnat,
        DoubleWitness {
            xx: (0x6e262e7f3114c564b17e2d024f6c1dcc83632eb0325afd8c080d16713c5fa6bcint, 0x46b69e11ca48b32d5ac0ba7d248c39d596749c4c4bbc31924741974c948954e8int),
            a: (-1, 0x2d3709415f54ca1ad8791d8ae5159e2fbd4907b6b4422a6cb8be68b26b76ab19int),
            b: (0x2c25292dac303b3e315bb317d049f102515509cced923fb175d0bd0d01911601int, 0x1e7ce8ce905b1c661a1f8152f467158644557f64bdccd2eed4a76ac0efc1f863int),
            zz: (0x4043e08e1fd06ca6a942c13bfd001c8e4d81da204d33f9ed19ee12e75a4a5723int, 0x5eccbb4496c88a5b81bf4b15cb921e8730490bda4a1f7a193ae5d84a7ddcd3e1int),
            c: (1, 0x49abcf3603f3976ed044be238d8265090cd473b19440983375cbb095fbb9a7c1int),
            dif: (0, 0xeba2072cef9adb4be599c37f0ae88a978f38851f675577de416fdf17bb4b2b6int),
            xy: (0x45bb6447c65a4df3e12ae420b1e5246d0ab474e6a587660d809ed442941f0838int, 0x6dc17adc22b3d219df9d510c9a1886075f96c43d4a0f680899ec0793727b184cint),
            e: (1, 0x67954e651bca26eb8c00ca112a8f34096b6fe4779420741233d80f27e4f63097int),
            g: (0, 0x4bb3f20fefafe680f2989eddd97cb3b6019e871b720efd5b8d65d3735b38a37cint),
            f: (0, 0x20822d9ebbc4f122253e0ba4bfa4eacf4ca1369ddce6528179a22dd5f7efbbbint),
            x3: (0x1d0bf4ebd5c041358a281652b44cd10b36a29e194662dcefa184a9b21b7fffeint, 0x25d41b54c1134c27883c520851887b442ba36afdd25b8fca47baf29373138b4fint),
            y3: (0x99df2c8ee704873d2ba4dc7f14960b700f4a74354eb8de2d941f1545bab8c9cint, 0x6cfc9b3581f14edca3577e44536ef8f7765f322848b3506a464ff2d36774e58cint),
            t3: (0xd28a6354b8983e11fe638fd220df7ceecb5c3cd0a6d81658b2e4a94216bfe17int, 0x6a03b43a6db5afaa945384e03b7701391bd3920bfafca075023476ac8a8f8b43int),
            z3: (0x153a814f7e7d447c27cdabc873b23037bd8ecf9ba318d84b0636ab3431cb00dint, 0x53f7762a2e531259f1185c377a898c0fe1a9401f54bd632a564159a562954f87int),
        },
    );
    lemma_chain_double(
        base(),
        ExtendedPoint { x: 0x25d41b54c1134c27883c520851887b442ba36afdd25b8fca47baf29373138b4fint, y: 0x6cfc9b3581f14edca3577e44536ef8f7765f322848b3506a464ff2d36774e58cint, t: 0x6a03b43a6db5afaa945384e03b7701391bd3920bfafca075023476ac8a8f8b43int, z: 0x53f7762a2e531259f1185c377a898c0fe1a9401f54bd632a564159a562954f87int },
        0x73eda753299d7d483339d80809a1d8053341049e6640841684b872f6b7banat,
        DoubleWitness {
            xx: (0xc5804a4d7c163a8cac19114ad202eea09d364b363b363aa50ab210cced2965bint, 0x3402929018a946affd4c5340d148a967aa2481317f0ee4940e815eaf24b64c06int),
            a: (-1, 0x3feb14c310f4369835ed84c738592e9da99922d180ef776af17ea14fdb49b3fbint),
            b: (0x6675f72c8dc813d714920f5ab5a9abb03e33d208411ea57bb22c40d7b37a2093int, 0xba95c0e37051311045cf27f7084218071dd4cdc6168a5b9f4343a9ac939a3fdint),
            zz: (0x3cd11e039eda66820fb964c30f9e7b98fcb15f273d9ea15b582a622d0208a5bbint, 0x1672a9d0b51c46e72fff5cf5ac56181848bc5b4de9ee7f7dcc274d8d05d1f376int),
            c: (0, 0x2ce553a16a388dce5ffeb9eb58ac30309178b69bd3dcfefb984e9b1a0ba3e6ecint),
            dif: (0, 0x3441b8b4d9ef238731909247c7d50d1d37bbd5f51f86d1b0fd4a66b512100ffeint),
            xy: (0x23903d2be1e130e21bb69d538b34928cb92fb1b18af3c2f372a25a59e81737f4int, 0x34d1a575fc735eae6304871aa9d89fbdffc95699cb03f89912f9ee326b02a240int),
            e: (0, 0x69a34aebf8e6bd5cc6090e3553b13f7bff92ad339607f13225f3dc64d6054480int),
            g: (0, 0x4b9470d147f949a93a4a7746a8dd501e1b766fade2581d24e5b2dbeaa48357f8int),
            f: (0, 0x1eaf1d2fddc0bbdada4bbd5b50311fed89fdb9120e7b1e294d6440d098df710cint),
            x3: (0x1bf5d9347a423dd14df43c0eb189a00f89945cff3218be3ace940fcf509e41ccint, 0x5a40cb72ac46cb58a1fa70f08b1975f8dceda2fa0378fe5c40124071b65d7434int),
            y3: (0x2211a5e9dfd515830bb0883e5bd9bd032c6f32ff7669fcb0579f2a3a90dcea3dint, 0x1c6252a1ca927a5b5bb3f62ff17de05cfbeb533c94617757056c39324b1be5d3int),
            t3: (0x2f9e3cbb1016b2a5f4314846936a219623210476777aa499c361614677d8eaedint, 0x27927fbec7db88d5acef50797c9a02dda4ce52cb96ceb1b3bb44be278648c13int),
            z3: (0x14012aa469639a0e7a4725b7d7ef81104a53dec145280eee64b54b8b7b68f7a3int, 0x919ac32dc0cf2c6252bfae93f6bb6e656683f0802b3d40226d151da159b9ffdint),
        },
    );
    lemma_chain_subtract(
        base(),
        negative_base(),
        ExtendedPoint { x: 0x5a40cb72ac46cb58a1fa70f08b1975f8dceda2fa0378fe5c40124071b65d7434int, y: 0x1c6252a1ca927a5b5bb3f62ff17de05cfbeb533c94617757056c39324b1be5d3int, t: 0x27927fbec7db88d5acef50797c9a02dda4ce52cb96ceb1b3bb44be278648c13int, z: 0x919ac32dc0cf2c6252bfae93f6bb6e656683f0802b3d40226d151da159b9ffdint },
        0xe7db4ea6533afa906673b0101343b00a6682093ccc81082d0970e5ed6f74nat,
        SumWitness {
            a: (0x5320d773a881ed4663391cd8e87610d444a31df7ed273e3b1efec1cb1ebdcc85int, 0x62e70be117f826764523ac98135102d940d8823730792f5b3a517b8bd6410ed3int),
            b: (0x1574883738d7bcae94a382f0989c945a72a4d2efcda3a5e2acd79f7395fe0d81int, 0x6bc52656b13268aaad4a1a0a912188f9de319c9cae8b6e94e2ecc32a9831390fint),
            dt: (0xe886b289123fa6ed1abc13cfd43bc025b32664caaf2978d72eb73412f7748fint, 0x3ef4ea0a443df7ea19da8bf23ecb0ec72f49aa75e852bf5a37f0b47eda55fe94int),
            c: (0x3c1061cac8596c0022c7d43f4ff7a5f9f5d4d180ddf9df985d2c9168776511dcint, 0x194d9c373598a5d8038ec835b641b474ddf814d07c116c0f15c046504d092bc4int),
            zz: (0, 0x919ac32dc0cf2c6252bfae93f6bb6e656683f0802b3d40226d151da159b9ffdint),
            h: (1, 0x5abe8ae49f8d11d8bf33ee9a9ad0b3cdcb4c7ad0df0641f11d3e3eb76e7247e1int),
            s0: (1, 0x2b576c14d3bc86bca748f1872f57e50851b523397dc19b4457e79a501795a06int),
            s1: (1, 0x4e7a2cab4d8fef627fa28fd19ba7c19a97abbf79df4db594e896ec1ba05d0dddint),
            ss: (0x1d5700f66ed82e6e9fc599cf150bb6118e5432bfa49780326171896ad2ce450int, 0x2bcfc122ac4c9526beb03b148769775939794c7f78e679ef799d983a365620deint),
            e: (-1, 0x44fedd91365d009632b62481f63a9b90c1ea75b199de93fd5c5f5981c7e3d8feint),
            f: (-1, 0x63b9b74ed011ca3654d70abb92cbda76cc2dce3a86a0c3f211110b88c892743aint),
            g: (0, 0x2267486a11a5989e28bac31ef5ad6b5b346053d87ec540113c91982a62a4cbc1int),
            x3: (0x3b5a30ec9e88e2e8c0e97c8d378c692b46750187d956f5d03e4cb46428399080int, 0x470f6f9e137bf7b1413ff72b2fc5c31a24d74200de37f2d3be80247e9094b10cint),
            y3: (0x1aee01dbb9407bb61e5174b3a8ee9259667ca34b03670762ab30bac5f4817f17int, 0x6b865146f31b2365997b907388773522c8e22624f166f88482a264d41cca1c8aint),
            t3: (0x3601d25d881264dbd5bcd4ea594a0c501e8a0bc3aebddf159101e80c34439407int, 0x3d310c16ed47fcba209050848df5d8a9916871e39207f2464a82e1c171489537int),
            z3: (0x1d98522e1b1e2e6aed9d9521612897100acc8da1803ac568ff460a24a156e0ccint, 0x25f71bfec8f2fadc92892c1ffc9805fe6ca0816243ec39780e5c0fa76064bceeint),
        },
    );
    lemma_chain_double(
        base(),
        ExtendedPoint { x: 0x470f6f9e137bf7b1413ff72b2fc5c31a24d74200de37f2d3be80247e9094b10cint, y: 0x6b865146f31b2365997b907388773522c8e22624f166f88482a264d41cca1c8aint, t: 0x3d310c16ed47fcba209050848df5d8a9916871e39207f2464a82e1c171489537int, z: 0x25f71bfec8f2fadc92892c1ffc9805fe6ca0816243ec39780e5c0fa76064bceeint },
        0xe7db4ea6533afa906673b0101343b00a6682093ccc81082d0970e5ed6f73nat,
        DoubleWitness {
            xx: (0x2b8ec2237f2a589809561fa14f394d95b89bb7ea2453efa1db672290825378ffint, 0x70566355ccac3377d355f12172a66818f2a7c45ce548b470f8bd9bc92dfe1f91int),
            a: (-1, 0x39743fd5cf149d05fe3e6e696fb6fec6115dfa61ab5a78e07426435d201e070int),
            b: (0x63baee938f01ee082c3dc6a0277d5ac4c594b4c0f63acafde97dac75d1765ae5int, 0xe5ceeaac4a48a2601ba2ea7730c1681a170b34fcf1d9b2c6e898ce6b801f7fint),
            zz: (0xc6ee71daeec2c36c831dce3ca3a52dac84d9287cc748f864eef9e94e591d98cint, 0x31cf6598907766e35e1610f78148797b8f00071466270b871f9052d1bfcc93b8int),
            c: (0, 0x639ecb3120eecdc6bc2c21ef0290f2f71e000e28cc4e170e3f20a5a37f992770int),
            dif: (0, 0x2b17512b0a7012dffc843fc1fcaae8446fed4711dc3cddb4059cb676681c0f1int),
            xy: (0x41e8bca99468067904490194ab4c7dc0bac901db873eb6283d277557acdb5a28int, 0x189ede09fa8809944e9fb8704a9ab9e27a2f948f8c29b0e6ba570f7b8a216650int),
            e: (0, 0x313dbc13f51013289d3f70e0953573c4f45f291f185361cd74ae1ef71442cca0int),
            g: (0, 0x47d12e8093b9272bfff89d10e2c31547b2ceadb17a78140ce2afd043d81ffefint),
            f: (-1, 0x14cbef0a11ea41f4370d3fea153d1662b0ea80b54b57c6318f0a575fbde8d880int),
            x3: (0x8d55e356a9e184f4cf0302b348fdb68075cab2e2923e7ab7337b985cc727802int, 0x7ea9ef2cea1b2c372d3b56c165d6b0f5c7148fc617e98ceaadeb01a429ad7feint),
            y3: (0x1ab1dac37b73628e1c3edf54484cf3f75a01fa1125ff494a0e684aab9e2d5cint, 0x254f59222a0ba1cd29fb2030b3550a3c3a61a3230e5d339674c76cd4ed2602a3int),
            t3: (0x124d9bb0a612caacff88eb92e69bd50bb97a62564be637fb8a4d74b07e93be4int, 0x59725fe850f51bd5e15136d5dfc0366cd902f632f564636c0dbfe1f6011166bcint),
            z3: (0xce2279238c8a7189899a05492b921ca406aac596cd84ca35a98cc0cffc4a76int, 0x6d6fa7fbbf4af115fe266c1c45504f41bdb9dcff2c45fdcce41bbe2e048d550aint),
        },
    );
    lemma_chain_double(
        base(),
        ExtendedPoint { x: 0x7ea9ef2cea1b2c372d3b56c165d6b0f5c7148fc617e98ceaadeb01a429ad7feint, y: 0x254f59222a0ba1cd29fb2030b3550a3c3a61a3230e5d339674c76cd4ed2602a3int, t: 0x59725fe850f51bd5e15136d5dfc0366cd902f632f564636c0dbfe1f6011166bcint, z: 0x6d6fa7fbbf4af115fe266c1c45504f41bdb9dcff2c45fdcce41bbe2e048d550aint },
        0x1cfb69d4ca675f520cce7602026876014cd0412799902105a12e1cbdadee6nat,
        DoubleWitness {
            xx: (0x8a64b7bfaad741e83787a2b4bbd3b4f07aee82e4a3d3e55200348a58c2e7ffint, 0x286f190c5e43a70c71de533f5770bcf05ba720ae7d9c2b1e7d1008143311b805int),
            a: (-1, 0x4b7e8e46cb59d63bc15b84c8b2311b14f8168354826230e082eff7eaccee47fcint),
            b: (0xc01f89f80bc3302fea88154c012469ed5fc508d7850e38fbf5a6be23c49e539int, 0xe5a23360ce33bb54d89fde30ed14b8bf5236c9ae3a2773d0336c5d55a210e90int),
            zz: (0x674ebbbcad939f0e6cfef959380c2b35a2fd363b2a41cb653c90231f0f0ea1dbint, 0x32a58f563e88aa309bd8afa897ab86cf5cd39adda8ba9dd5ffb49f030a350289int),
            c: (0, 0x654b1eac7d11546137b15f512f570d9eb9a735bb51753babff693e06146a0512int),
            dif: (0, 0x3d246b10be769a8673d186e5a35fcf8902f316b99ebfb9a37fb9321572cd396cint),
            xy: (0x28c3d8475b275d78b78cd439153f405b6dd14781c6e6ee14345dac9c2f8af05int, 0x3503f23b0bd13fe41ae74c198fecad759d8ce24f74f3c0d9f6386cc31102d3b5int),
            e: (0, 0x6a07e47617a27fc835ce98331fd95aeb3b19c49ee9e781b3ec70d9862205a76aint),
            g: (0, 0x59d8b17cd83d11f10ee582abc10266a0ed39efef6604a81d8626bdc0270f568cint),
            f: (-1, 0x687b3a2384c93ad80a6dfb629b4d310787505e37148dc87086bd7fb912a5517bint),
            x3: (0x5f8fa779325910dc8819542d39fdc9db17e451ebb7eb3064a596e92e73451700int, 0xd698a349bfd7933675d3e31d5c607f6080027300e7c421137f8070c0abce2eeint),
            y3: (0x2f62e4df6a4c71312f9edeebbe66b8299b33f1334ccc02f2b5681678cda8e2a8int, 0x4e8b5982be5be36823549d6080c81b67456ff2531724f89407722f40bd30cc68int),
            t3: (0x37ec138ef7e60e4fc12955f774d2135142d1636db4726b5feb6f0eb3c80a30d0int, 0x2e6e29c5d7dd3e9d905a785c64fdec297d26fb352d3f14341ef8f70c188109e8int),
            z3: (0x50f98feea3576bc323b0ae18bb80bfbf4148bff781b5598097d04a6b6ccc5904int, 0x14ec845ea2df2ae234cc6a0921f15d7124def13633b5b5fd5e9c466bd2308840int),
        },
    );
    lemma_chain_subtract(
        base(),
        negative_base(),
        ExtendedPoint { x: 0xd698a349bfd7933675d3e31d5c607f6080027300e7c421137f8070c0abce2eeint, y: 0x4e8b5982be5be36823549d6080c81b67456ff2531724f89407722f40bd30cc68int, t: 0x2e6e29c5d7dd3e9d905a785c64fdec297d26fb352d3f14341ef8f70c188109e8int, z: 0x14ec845ea2df2ae234cc6a0921f15d7124def13633b5b5fd5e9c466bd2308840int },
        0x39f6d3a994cebea4199cec0404d0ec0299a0824f3320420b425c397b5bdccnat,
        SumWitness {
            a: (0xc5a7cba7b3d5f2f1a60bcb69f4f575c75e8302929fcb81ed229e5aaafc1c5cbint, 0x6a93926ff644aec140ff1a8bdaa3b13ab0b88278b7b97cc66f09bfcc472e47f9int),
            b: (0x3b5eebaeb480109eee187287b4869a4962c15f4f755cd9890ec0973160594330int, 0x2384478f271aae1d3b1abe513215107d2ffffcfa25690ffaa816000be3a29850int),
            dt: (0x110d2f5ce7e2d673a8da350068fb89934c82545b4c0f9767dbade630767d0822int, 0x605d6d8ee9137ac641646631c06dfb573092a91c7daef53f1db317abae410146int),
            c: (0x5befedd02774951c6dea2a4c1ac85d8f607ed9a85d9d378366291e86aad2904aint, 0x1e612663ee3c9c9b14200757eb44c6ea8ba97de5d072f510838d407286bc4966int),
            zz: (0, 0x14ec845ea2df2ae234cc6a0921f15d7124def13633b5b5fd5e9c466bd2308840int),
            h: (1, 0x1a2a32abf3c1df9648e000d50316e9b28cfadb6fdd2430c2171fbfd92ad0e048int),
            s0: (0, 0x5bf4e3b75a595c9b8ab1db92568e235d4d70198325a13aa53f6a364cc7edaf56int),
            s1: (1, 0x4e7a2cab4d8fef627fa28fd19ba7c19a97abbf79df4db594e896ec1ba05d0dddint),
            ss: (0x3e3fea595927e94fd308d2aa8c43b654308f3b062a5c3d7a2a4c819a9045cd1cint, 0x46148efec77f954a2f3d58a793926e08e516b5baa03aabed205e06f18c0fee22int),
            e: (0, 0x2bea5c52d3bdb5b3e65d57d2907b8456581bda4ac3167b2b093e4718613f0ddaint),
            f: (-1, 0x6a79054dde400b8f53e63ab9404e6e8becf3175363411cebdb0f05f84b743edbint),
            g: (0, 0x334daac2911bc77d48ec71610d36245bb0886f1c0428ab0de22986de58ecd1a6int),
            x3: (0x2855630e28af4581ef54885cdd57da504698a7a06300ba7795c9fdaad0b49b72int, 0x135a3330fa332501f82ed0d0fee95502b434597541e0abed52138e00ca5f0a0cint),
            y3: (0xb943f480418bd10b6fcc45b34d9f5325271ab340995e4e898b4cba4786f558dint, 0x6628e2dd62a17c10f8362fdcdc701a2dcdce8fff4743a6143eecb0c6547ce123int),
            t3: (0x9e961e6e8c8d2ac608133c11882a0a5e800fc4207745d90882cc99386b7fc74int, 0x409d432976c47184fcf7d44f7101181cfa61391c50c203399736461e0442a8dcint),
            z3: (0x2f1e6e35e30130afe42607c720a910abadd4c3d5edc6d1c7b1d1041a1306b423int, 0x3656afaa3532fcaa07f402241a4e3a19dda3e0e6ccce112e3a70ed52fb8ed8dfint),
        },
    );
    lemma_chain_double(
        base(),
        ExtendedPoint { x: 0x135a3330fa332501f82ed0d0fee95502b434597541e0abed52138e00ca5f0a0cint, y: 0x6628e2dd62a17c10f8362fdcdc701a2dcdce8fff4743a6143eecb0c6547ce123int, t: 0x409d432976c47184fcf7d44f7101181cfa61391c50c203399736461e0442a8dcint, z: 0x3656afaa3532fcaa07f402241a4e3a19dda3e0e6ccce112e3a70ed52fb8ed8dfint },
        0x39f6d3a994cebea4199cec0404d0ec0299a0824f3320420b425c397b5bdcbnat,
        DoubleWitness {
            xx: (0x33b05d8af4542fa4b238ee497f39db832d9ecd86f81f59109a421177ad1f8f1int, 0x148a86f7cc54e5b0f41c275cfd45a375cad5d529ce4bf7bcae1546fcea7af79fint),
            a: (-1, 0x5f63205b5d4897973f1db0ab0c5c348f88e7ced931b2644251eab90215850862int),
            b: (0x5a06bfefe0364afee2a82466c1155d0a621e92a4f1f32908bafbbe1c611204f4int, 0x26a1af091d550e570eb984326b2f44b87733f5e49cb30c9e353cd9a576d485d5int),
            zz: (0x19784cacac2087714342da33ad70a77f78a1e0ac310b7a37e084f4e7d68b4c70int, 0x17de1229222c77917d72f43511eaae19ad8965f1fd0fad336167995ec291c5d1int),
            c: (0, 0x2fbc24524458ef22fae5e86a23d55c335b12cbe3fa1f5a66c2cf32bd85238ba2int),
            dif: (0, 0x38c171523ff3894030642c78a12cefd711b3d8f494ff57a41caddf5c9eb0828dint),
            xy: (0x110dcc2d38e21f210eff547f9ca9177aa4f0e56c1d1acaaf19b7e86d430ae34fint, 0x4554e4c97cbe15035f56b6311f3f7d3dc7d5e13926dd646da4115177bd980855int),
            e: (1, 0x16bc223fcfdeacbe8b73945a34dd22763bee1e6f4dbc6cdc4822a2f07b3010a9int),
            g: (1, 0x12172811510028a61a9d5cd56de9a142ac5e20bace6714e1872792a88c598e36int),
            f: (-1, 0x5648ab123644b6cb52f14c7353b61d14a508f8d9d4461679c4585fea07360295int),
            x3: (0x10ebd865a9a3590c027b3f1de66f1c223b79b6df740145248c923b8625867c3dint, 0x104c74e5eb1d246477cb8f350f3264880ce10bfa5e587dd75ab135b7103a8820int),
            y3: (0x8db4c9e691de1317c3f0061f7fb91135d4e2d591a644c4f3249551557178fccint, 0x532470690479d6165d6977d58438462d05fe0b20797746a3fe21819089932ff2int),
            t3: (0xb21649f5446976f9e6212c27b3190d582043a512d33facf75d2efa766e04033int, 0x4dba57527f80b80c76100f2921f1047dd48b8c93f40351ad9639bc9d9d3ebee2int),
            z3: (0xd76e7ea2d9868e5d8933a9ebc04ae7e36935bfd5db057b6c538e1a9aa2ba527int, 0x54fb3058a3bfcd12f33a65208927f5e97d82e7b78163f21d29b685d332748c47int),
        },
    );
    lemma_chain_double(
        base(),
        ExtendedPoint { x: 0x104c74e5eb1d246477cb8f350f3264880ce10bfa5e587dd75ab135b7103a8820int, y: 0x532470690479d6165d6977d58438462d05fe0b20797746a3fe21819089932ff2int, t: 0x4dba57527f80b80c76100f2921f1047dd48b8c93f40351ad9639bc9d9d3ebee2int, z: 0x54fb3058a3bfcd12f33a65208927f5e97d82e7b78163f21d29b685d332748c47int },
        0x73eda753299d7d483339d80809a1d8053341049e6640841684b872f6b7b96nat,
        DoubleWitness {
            xx: (0x24a9dc3a1d017ad18ceadf228221bfa58b93aff7bcf0e2e2835467010102c43int, 0x6cc92a01430270b9d622705208c5958fa42159abd0271e8c152e21f8e6d1d7bdint),
            a: (-1, 0x7247d51e69b0c8e5d1767b600dc4275af9c4a572fd73d72ead1de06192e2844int),
            b: (0x3ba0ee734f4db8a5ebc2da5e428c12885f15df39f7f1355687bd71f2efd73b0dint, 0x419b6ec68eca7030f557bdc46c2dd29415f4b1d81cfeb92d62547b4b2d0f85b7int),
            zz: (0x3e4ba14e240bb0c7673d5c810a5986b7847a29f67344258f9c264bb5819a0e3cint, 0x6f28aad98ac6deb6ccbb3a127262d624622e367f72c8dbc7683a816ba79bad75int),
            c: (1, 0x6a63ae5febf04025663c9c1cdb23d443709ec8fbe5935b8fd07502d84f375ae9int),
            dif: (-1, 0x3976b5de816e19a59af981f99e5047e6ed653c8212d6e044887d62b9ec1ea28eint),
            xy: (0xbb06eed26958237aaccc93429d94ebbc4473ecd9bfbf519eecc9efdf1d2af32int, 0x5a082bbbdc3ce9402b60de78d246949af610601f78d4d6f302d9c9b16edfdf0eint),
            e: (1, 0x4022b0248edc55382387e4e99aeb513098631c3bf1ab51e705b39363ddbfbe1bint),
            g: (0, 0x48bfec1875657cbf526f257a6d0a1509c590fc2f4cd5f6a04d265951463dadfbint),
            f: (-1, 0x5249e50bb312b9e21f6c61659b8818cba8afd7366740f70f7cb15677f7065313int),
            x3: (0x2d865eb3d336700701ed11c805ea2fe1243b4750e4464588d61f6fae428921d4int, 0x31d83e72affe6a5d8262a29996c725c64ace903220ebee89e37ba6ebdef6bb2dint),
            y3: (0x240f901cbf7d58e83863d65e8820ab4c3bcda459468618ce8c867ae56cb5200cint, 0x5f17fae277ddcfdf052dd2539feb18ce70610bb57d49648bfefc86af5904372eint),
            t3: (0x1fca773744e9e9ee8000f128990a4cd5df0a18a8c78aebd9390299cd1bc7f76aint, 0xd74bf2932fe0bf525668390b8e17e881fb5092008f464e2d74cc891660a9190int),
            z3: (0x33a3b2676083242950239321aaa6848073335e0a7b6d5283953deb8c44e7c008int, 0xb1d287bb6bdef8acb06908ed7a0f7285c43dc7a1515310d98ce294631f68a99int),
        },
    );
}

/// The multiples of the base point, from the multiple by
/// 0xe7db4ea6533afa906673b0101343b00a6682093ccc81082d0970e5ed6f72c
/// to the multiple by
/// 0xe7db4ea6533afa906673b0101343b00a6682093ccc81082d0970e5ed6f72cb7.
proof fn lemma_order_part_28()
    requires
        extended_valid(base()),
        extended_valid(ExtendedPoint { x: 0x31d83e72affe6a5d8262a29996c725c64ace903220ebee89e37ba6ebdef6bb2dint, y: 0x5f17fae277ddcfdf052dd2539feb18ce70610bb57d49648bfefc86af5904372eint, t: 0xd74bf2932fe0bf525668390b8e17e881fb5092008f464e2d74cc891660a9190int, z: 0xb1d287bb6bdef8acb06908ed7a0f7285c43dc7a1515310d98ce294631f68a99int }),
        same_point(ExtendedPoint { x: 0x31d83e72affe6a5d8262a29996c725c64ace903220ebee89e37ba6ebdef6bb2dint, y: 0x5f17fae277ddcfdf052dd2539feb18ce70610bb57d49648bfefc86af5904372eint, t: 0xd74bf2932fe0bf525668390b8e17e881fb5092008f464e2d74cc891660a9190int, z: 0xb1d287bb6bdef8acb06908ed7a0f7285c43dc7a1515310d98ce294631f68a99int }, times(base(), 0xe7db4ea6533afa906673b0101343b00a6682093ccc81082d0970e5ed6f72cnat)),
    ensures
        extended_valid(ExtendedPoint { x: 0, y: 0x453f9d69dbd75b2349dbd8c323fbc1a5534dbbabb510432dc178dfdb4f9522beint, t: 0, z: 0x453f9d69dbd75b2349dbd8c323fbc1a5534dbbabb510432dc178dfdb4f9522beint }),
        same_point(ExtendedPoint { x: 0, y: 0x453f9d69dbd75b2349dbd8c323fbc1a5534dbbabb510432dc178dfdb4f9522beint, t: 0, z: 0x453f9d69dbd75b2349dbd8c323fbc1a5534dbbabb510432dc178dfdb4f9522beint }, times(base(), 0xe7db4ea6533afa906673b0101343b00a6682093ccc81082d0970e5ed6f72cb7nat)),
{
    lemma_negative_base();
    lemma_chain_add(
        base(),
        ExtendedPoint { x: 0x31d83e72affe6a5d8262a29996c725c64ace903220ebee89e37ba6ebdef6bb2dint, y: 0x5f17fae277ddcfdf052dd2539feb18ce70610bb57d49648bfefc86af5904372eint, t: 0xd74bf2932fe0bf525668390b8e17e881fb5092008f464e2d74cc891660a9190int, z: 0xb1d287bb6bdef8acb06908ed7a0f7285c43dc7a1515310d98ce294631f68a99int },
        0xe7db4ea6533afa906673b0101343b00a6682093ccc81082d0970e5ed6f72cnat,
        SumWitness {
            a: (0x3ef53bef6b8a49b90dd51442f016358b2f7e1a8aefefbc112d85b7bc55e522bint, 0x6b2b37c76758613c0d7ac3ddf24b1735459d8a1b920bc8d43cf76a302bebb86cint),
            b: (0x47e15795b72dc61afcd3aa123900b8ff29784c2ae35ef3cb47fd9df7262fc468int, 0x141f606c88005ea3368ab77ed7fba1ff082cbdbd4c30d1b11fb899f83b1a1a38int),
            dt: (0x4f114aefd6105ea90cc282b066da8f4ec1f5d17a9e5b702d70e3335ec27ba51int, 0x55c9b386effcf6a76078ec2474a7870076404b5c8ca6af5c04d3188d21a7ca3fint),
            c: (0x3f115ef3e162efa40cc5b651878061f64c34bbc3e1db421e3f8cdd6b57f9801int, 0x632f7f76df366e265e2c857beffb67a34180af9cdd48613d547e3b041a88c586int),
            zz: (0, 0xb1d287bb6bdef8acb06908ed7a0f7285c43dc7a1515310d98ce294631f68a99int),
            h: (1, 0xb5cf0e0c5bb429710cba354c0a4e12efa0ca3d5de3e3e865cb004296705d2a3int),
            s0: (1, 0x1d029201fe3ebcf454569ce52d10668f6771f7e49e36f716e2782d9c37faf25aint),
            s1: (0, 0x60c7d6918e437d8827d3dfcfe8923870431f0f21be6a05e37815793fb5885c83int),
            ss: (0x1837ef3363cd6823e5903e1c5d19778bb4c1170f3cf2d25a4366494961f19847int, 0x1e90f2ad3f7af9b21a049898d8783866323c0a1720226e4c55b122dcd460c3c7int),
            e: (0, 0x133401cc79bfb71b0938f54417d35737382f664141e42fc5f9011eb36d5af124int),
            f: (-1, 0x1bdb50580124feaca013e31af147678a6e80d0e037cb2bcf444fee41176dc514int),
            g: (0, 0x6e4ca7f295f45db12933160ac79c5ecb9dc48c16f25d924aed4c644a4c7f501fint),
            x3: (0x49d476c7dcdc8ba5e1a876e4455d2ab8914175ccafcf69aeb3299f5152920b0int, 0x45d52cf152363637358a202d4dd301ece95afa3e9b1541cef6486d6d59d66a20int),
            y3: (0xacfb2883fc34b362253307fa9eaae1e333571bc252e482fce1229b322211fddint, 0x647c1087e9b1cdc9d953efa3cd8f8bed5b965c763abe943a6726cce90c4351e0int),
            t3: (0x1e1db4bde69bd566221742efc84cf1daf8dbcfa43c2c5f04e835cd4b93f2b28int, 0x4f58aa52f2502d52b9b0380090f60d7f208c56b7f5f0a35543772d6b32be6c4int),
            z3: (0x1a810d9908d6ad75c9dab86d8730757d500c90c485e76946206ffd52396ce0d8int, 0x3a5c47e439448bce05f483f64df543846fb321ddced1c6828b0512789f603c94int),
        },
    );
    lemma_chain_double(
        base(),
        ExtendedPoint { x: 0x45d52cf152363637358a202d4dd301ece95afa3e9b1541cef6486d6d59d66a20int, y: 0x647c1087e9b1cdc9d953efa3cd8f8bed5b965c763abe943a6726cce90c4351e0int, t: 0x4f58aa52f2502d52b9b0380090f60d7f208c56b7f5f0a35543772d6b32be6c4int, z: 0x3a5c47e439448bce05f483f64df543846fb321ddced1c6828b0512789f603c94int },
        0xe7db4ea6533afa906673b0101343b00a6682093ccc81082d0970e5ed6f72dnat,
        DoubleWitness {
            xx: (0x2a10d2bfcb91926cf29a4523a096b275855c46f53fa6d6e32babf9b1ec88b163int, 0x21d9a2ef18e7dbef26bf3a7ee29619343eb7251ea0bc357929592050ecf5d29dint),
            a: (-1, 0x5214046410b5a1590c7a9d89270bbed115067ee45f422685d6a6dfae130a2d64int),
            b: (0x571929e26d2dd9249e78a369e9534ebf985c7d6224c400a367fdfc59dcaa13c0int, 0xffefb9ab5b16b20ccacc026b086114ab1fb707597093887a0ca828718c57040int),
            zz: (0x1d6136d8e189cce57b21b16ba574a20b431fd3572c27fd36a7735106fb75ad3eint, 0x8b25b50b94cd4a79da5d15c714f8a8414b1e71613331a28bfc0a66459e00852int),
            c: (0, 0x1164b6a17299a94f3b4ba2b8e29f15082963ce2c266634517f814cc8b3c010a4int),
            dif: (0, 0x421508c95b0436383fcddd627685ad86630b0e6ec838edfe35dc5d26fa44bd24int),
            xy: (0x3c879e82593f009e32b9120c83bdd5c8f64eb0be570b11e07b2d8fc4a1df9565int, 0x735d0435a58bc5a742c4d84ffdc89bcda5d5a4d5606b944795fe05f317b1669bint),
            e: (1, 0x72cc6118217a0e06524fd897f1ef5f95f7eda5a7c0d8cc902bfc0be72f62cd35int),
            g: (0, 0x6212fffec6670c79d9275dafd791d01bc701ef59f64b5f0d777162352bcf9da4int),
            f: (0, 0x50ae495d53cd632a9ddbbaf6f4f2bb139d9e212dcfe52abbf7f0156c780f8d00int),
            x3: (0x4fe4f703b59bbbbe545241615da00b213258cc4a99e4133bfccdd52339810ad8int, 0x3276136a5050192f083138b321427a5d3f1f122efcf4a312bd378d250fa02628int),
            y3: (0x37e7a494a86bc91c92d0635bf66d0fd15d825cb53f0674f5ea01978b7803476aint, 0x28b646043e6c6eea2fa32c020e35b167f1ad234cce3bd8ae6c631e210020f7a6int),
            t3: (0x417023f307c4347eec84828aadd2250d48439f7fd58700d40b4bea32865d11f8int, 0x11fd96e8641128211fab495e29d8b7e1b7d75fc7b3327c2aecbe4bc6591bea7cint),
            z3: (0x44415237665a4159b02cf1ebf348c399a1e0f8091e95062d173362e345ab8f83int, 0x3e188d3cbf157a2f76716a4a88420d543873f9fedb19a63fd87b4e0030c3c47dint),
        },
    );
    lemma_chain_double(
        base(),
        ExtendedPoint { x: 0x3276136a5050192f083138b321427a5d3f1f122efcf4a312bd378d250fa02628int, y: 0x28b646043e6c6eea2fa32c020e35b167f1ad234cce3bd8ae6c631e210020f7a6int, t: 0x11fd96e8641128211fab495e29d8b7e1b7d75fc7b3327c2aecbe4bc6591bea7cint, z: 0x3e188d3cbf157a2f76716a4a88420d543873f9fedb19a63fd87b4e0030c3c47dint },
        0x1cfb69d4ca675f520cce7602026876014cd0412799902105a12e1cbdadee5anat,
        DoubleWitness {
            xx: (0x15f6f96b7839bceb07b965f51f32bfd4a02b84dd8b95990f65e4927afcd89989int, 0x139a3049e9e4309b00c2b9ac2563f4b8cf02653f7f39ac4ffb6b47466ad74cb7int),
            a: (-1, 0x605377093fb94cad32771e5be43de34c84bb3ec380c4afaf0494b8b89528b34aint),
            b: (0xe4c1ed186eaa0e29b9a1e13121331a1f0fccd29ed3d39137ac46c6e177eacc7int, 0x443a4cb5051e30a78607f3a13b9b8f37585cedbfbee6cc85f9a90563c19312ddint),
            zz: (0x2142d60a5a552b44a7cdd6e5e31adda867269f657eac33266e48a8010ca2fdafint, 0x40ef4081e49225ba478f70fb989ff20baf345c40e446b578b37e8111c09aa75aint),
            c: (1, 0xdf0d9b09f86ce2c5be509ef279e0c120aab147ec88f0ef266fd022481354eb3int),
            dif: (0, 0x1c192a543a9b1c05ac6f2abaa8a254152c5e5103c1dde3290aebb354d395a06dint),
            xy: (0x11b89a41c6dd693277907788516a1c00ee9b9ee491517655e9328db889c0cf3cint, 0x8f5a017e1f4bfff498e259a38f480322324550d80d4a41af9fa18cbe1e886b4int),
            e: (0, 0x11eb402fc3e97ffe931c4b3471e900644648aa1b01a94835f3f43197c3d10d68int),
            g: (1, 0x30a01c6b1b3a000c854539f516379a7e895a88803fad2035fe3dbe1d56bbc626int),
            f: (0, 0x22af42ba7bb331e029603005ee998e6c7eaf7401771e11439740bbf8d5867773int),
            x3: (0x55c75c7f71632f6725de8852c1fb7fbeddf7a8086d34f3f574aa8c9798dc402int, 0x2cd837c451da820119144d9546612dc317cee427aa725db790b052c0370699b6int),
            y3: (0xbc9211f4bd3153a1707ce9bfafc7b46eb6f6df2ee551cf90aa6c570286fcf84int, 0xad546ab8f83f39f17eb9524e5ba79d4d39cde1aa21fa2f8ec8128dac7794eaaint),
            t3: (0x457d779f572465861bc73ba53bfe8f0b88762302aae533710646f5d808839fbint, 0x70690c7c3107d95969fe4c907a4327e4e3f3b05dbf78860ad4627780d637b4dint),
            z3: (0xe8c5a0ee6901fd02aa68b155332f6cb9e8d4611110088930d52a1c60937b5a3int, 0x6e55de3a22157283e10693da340ab7eb73cd536b9203ad50f4ac77538c21f76fint),
        },
    );
    lemma_chain_subtract(
        base(),
        negative_base(),
        ExtendedPoint { x: 0x2cd837c451da820119144d9546612dc317cee427aa725db790b052c0370699b6int, y: 0xad546ab8f83f39f17eb9524e5ba79d4d39cde1aa21fa2f8ec8128dac7794eaaint, t: 0x70690c7c3107d95969fe4c907a4327e4e3f3b05dbf78860ad4627780d637b4dint, z: 0x6e55de3a22157283e10693da340ab7eb73cd536b9203ad50f4ac77538c21f76fint },
        0x39f6d3a994cebea4199cec0404d0ec0299a0824f3320420b425c397b5bdcb4nat,
        SumWitness {
            a: (0x294df0779af25e2bbcf2a7565902db29ff8699353efb8ef9ad0b59a15cf85180int, 0x1bd81c544bdc286fd8935ac9c636c9db332493e24ac03bb315d4c20d21b6b834int),
            b: (0x83049d0c7e7c633b9be0d56c7da1e5e4052ea515f2fb6009c31181d53aa0cbcint, 0x3b8ca5e6f2bfbf745adb437d241feb24cd21c424c7ab631d144dc8781866e524int),
            dt: (0x294859cd44c6c9d59e9d428a19da44deebd9ae9c1125d016201a43490340edcint, 0xe5bca844a9485bd1cb288d4083c13e12e18acf0dee297ada58f4e8c3314d761int),
            c: (0xdb2e5c9346d1ff273b5cb86e5450a679c3c181b5d9644e41c8904e92ade7409int, 0x6151238bedefd672fdb81eb1832573ce6a23c3aa647be4a92fc7350980d5b43fint),
            zz: (0, 0x6e55de3a22157283e10693da340ab7eb73cd536b9203ad50f4ac77538c21f76fint),
            h: (0, 0x5764c23b3e9be7e4336e9e46ea56b50000465807126b9ed02a228a853a1d9d58int),
            s0: (0, 0x37ad7e6fe15e75a030ffe2ba2c1ba797eb6bc2424c9200b07d317b9afe7fe860int),
            s1: (1, 0x4e7a2cab4d8fef627fa28fd19ba7c19a97abbf79df4db594e896ec1ba05d0dddint),
            ss: (0x25b0d92e300653711315845bd4f93e3bad33048c3555a46315da1ed0a29ad6a0int, 0x157d9e2049c99edbc75480eae7eb2fd3e61c99ff696bf4ffd413b35cfb7da440int),
            e: (-1, 0x3206833834cb343fc71fbaac073652d93993e5fb56feb22ea9f128d6c16006e9int),
            f: (0, 0xd04baae34259c10e34e7528b0e5441d09a98fc12d87c8a7c4e5424a0b4c4330int),
            g: (1, 0x5bb95a72e667cbaeab84da83ad8e53b48a337312f68135fb2473ac5e0cf7abadint),
            x3: (0x59e23fe97b6372916814b44603000b7dc18ffb6421d1e193a3aa9503563dfccint, 0x2e5856a1cc2bdec8f1d18a0f7720eea4221a900aed86c0b48a18ad843e9866e4int),
            y3: (0x45259fa0e84665c8fd37c2d9707dbee3122e7cb51d3b71ad8752e7b0874f1a6fint, 0x4213a5c286310bb807faeca9b2613fdc682dc86ba52073c2bc3e28db76b60209int),
            t3: (0x25b64d2f48d0fc0229c40d7f81502900fab24e0a7505a306e7db8c3f66b72710int, 0x69b9c7b1be8cff5db582a2ae66398729990764f2cc7ae921778033b988ed1e08int),
            z3: (0xa4ce64ad9982f89f3ea64f274e5cd0c4535073c055253b879573aa2a935584aint, 0xc12f356775ea121fec8cf29847dd54c9c791abdef68bcf421c0c497fd851f26int),
        },
    );
    lemma_chain_double(
        base(),
        ExtendedPoint { x: 0x2e5856a1cc2bdec8f1d18a0f7720eea4221a900aed86c0b48a18ad843e9866e4int, y: 0x4213a5c286310bb807faeca9b2613fdc682dc86ba52073c2bc3e28db76b60209int, t: 0x69b9c7b1be8cff5db582a2ae66398729990764f2cc7ae921778033b988ed1e08int, z: 0xc12f356775ea121fec8cf29847dd54c9c791abdef68bcf421c0c497fd851f26int },
        0x39f6d3a994cebea4199cec0404d0ec0299a0824f3320420b425c397b5bdcb3nat,
        DoubleWitness {
            xx: (0x12870c341a8ffa00b792cde21174fd2853d357791b5891bc43f751fd7b96b179int, 0x50b6f3dc4d150504cb435c461159a5ff61ff0fc6f09ab2c5e9e7cf2c4c83c997int),
            a: (-1, 0x2336b376dc88784367f67bc1f8483205f1be943c0f63a939161830d2b37c366aint),
            b: (0x25a991896f93182d38a22df9f8602fb9073e897506149c482a0677cd56dc29d6int, 0x5f3d353dba59d00a34e9ae72f352da24e6c25ba7648e6d62944848b5d9f3fa7bint),
            zz: (0x141ecc544fc27c5dfb0ec0252c4f1d0cec92e1227078f5a7663562ede48c00bint, 0x1275fb489534588b8359fba4f1de11135f5bd461416b7376d2b2bd7a9efd7999int),
            c: (0, 0x24ebf6912a68b11706b3f749e3bc2226beb7a8c282d6e6eda5657af53dfaf332int),
            dif: (-1, 0x37e7258c4bcc25816646a5570e972fe65eb9dc97aad397d581cfe81bd9883bf0int),
            xy: (0x1a6a6d5055206d060d0e75531693fbe481071ad2cef4abb13610e65a70ee7c55int, 0x3f8f43642312011877c919e433253748be3dc6cb93b47b1b4fa11cf03152e9afint),
            e: (1, 0xb30df751c8684e8bc585bc05ca8968c28bde994276a9a379f4239e162a5d35dint),
            g: (1, 0xe8641616d44cb0569a6522ce1f9342584c34be073f3ba9caa6079898d7030e4int),
            f: (-1, 0x5d87f2236c799736962c32eb07deea0419c94720f11b2fae04fafe934f753db3int),
            x3: (0x90761815eb5d28145ae2019eb05c2cf6655c5971c090242a2ecf3265ecbd86bint, 0x6c9194a410d7ca381aab0d5dedfc60090e8457507b062a06ea2bf8c86b051a9cint),
            y3: (0x7010403a4f33f221b1abb03e2a49a18699cbf3a32eac60182286100a7c8cb4aint, 0x275b78cb4c693f0342c7860a91ba4eeaed0fe778c09eb071498c13ee09c99676int),
            t3: (0x5657f760af6ff79ce96c738cdff74ac6e77df51ac345bd8e3cb8c17e3bb60b4int, 0x5cde696e6b31e511d3845ca2b138eaba46bc25fc2ab16c2fd1f494b5edd9357cint),
            z3: (0xbb7e3ec03bdacf1aa018f76d2c5d5cd10bba9b899e2323d552d38b565803893int, 0x4b3d9ca8f0751b0dcfe1777cd1b0b37af9ff7f84327a1a6503d75007efcc4ad9int),
        },
    );
    lemma_chain_double(
        base(),
        ExtendedPoint { x: 0x6c9194a410d7ca381aab0d5dedfc60090e8457507b062a06ea2bf8c86b051a9cint, y: 0x275b78cb4c693f0342c7860a91ba4eeaed0fe778c09eb071498c13ee09c99676int, t: 0x5cde696e6b31e511d3845ca2b138eaba46bc25fc2ab16c2fd1f494b5edd9357cint, z: 0x4b3d9ca8f0751b0dcfe1777cd1b0b37af9ff7f84327a1a6503d75007efcc4ad9int },
        0x73eda753299d7d483339d80809a1d8053341049e6640841684b872f6b7b966nat,
        DoubleWitness {
            xx: (0x65ad1e00ea65a62ddc10345e2c78c0a093e9537fe10f34024dc8ec3facda0bc2int, 0x1362c5b5d044a23de716921aea89c6bb4e7f453f95e4afecc7be379ac802034eint),
            a: (-1, 0x608ae19d5958db0a4c2345ed1f18114a053e5ec36a19ac123841c86437fdfcb3int),
            b: (0xd5c9773f3b28db37acddb0e85b35764bdfda7922a166ba474af3aabfa96e876int, 0x344a7129ec29fbffbfd30155f99626703e4a633ff68f42bf8280c083ef2395eeint),
            zz: (0x30d550a112d2ca66756f38c15ba26a7878ecbe352f60caa5068ee9d4e3610b98int, 0x6112f11e414e1632d2f380656e7fb741e88c163478c8370757e2f069aa592059int),
            c: (1, 0x4e383ae958feaf1d72ad28c2d35d967e7d5a8865f192120fafc5e0d454b240b1int),
            dif: (0, 0x2c4070736d2edf0a8c5044972581ead9c6f3fb83738a6952b5c107e048da66c5int),
            xy: (0x24dbd5bb153032ef7975dfa25324e548cf7bf5bb2fe34c6cbdbf3fc05bbb13c6int, 0x626c206a2f9e6534d361a24fd4ae58ac8bd3830bd73d8469c2d751556b29822int),
            e: (0, 0xc4d840d45f3cca69a6c3449fa95cb15917a70617ae7b08d385aea2aad653044int),
            g: (1, 0x20e7ab741be559c1d8bc6f3b0f0c5fb4efcb1e0060aa92d2bac288e9272192a0int),
            f: (-1, 0x469d17ddec8427ec99491e804550a13bc62e399d6f16dcc20afca813d26f51f0int),
            x3: (0x77e6a8b9637bc9f7848eb62a232d063830581d76554db532414f1907a3c2c7aint, 0x3eb426116c4d7ba63bac3f4a3fb4ece3e926a681e2b1ab6eeb57a94cce629746int),
            y3: (0xc8f735eb54e389c82a6ea0e5e31e7cec4b3475e70f9f871cd469652488006eaint, 0x4f099040723f9eaf81e0f1b01619ba681faf47b5a6d3fd6b209216e11018e36int),
            t3: (0x4b238943afd16656595ece7271e71814ac88b5c52369073d5397dcfde13487bint, 0x532cfd1a07f48e46804910468e459c4b9bc0f5c517556085fd5933d71bedf3d9int),
            z3: (0x140afb04d70289445c4a16fd658f0d04fa3bde68aa85ee2f34394e71aac7ab77int, 0x3bc26634892e7ed37d760d6e55b8cac33a5be84bcb40c60b3ea8e0b177766a89int),
        },
    );
    lemma_chain_double(
        base(),
        ExtendedPoint { x: 0x3eb426116c4d7ba63bac3f4a3fb4ece3e926a681e2b1ab6eeb57a94cce629746int, y: 0x4f099040723f9eaf81e0f1b01619ba681faf47b5a6d3fd6b209216e11018e36int, t: 0x532cfd1a07f48e46804910468e459c4b9bc0f5c517556085fd5933d71bedf3d9int, z: 0x3bc26634892e7ed37d760d6e55b8cac33a5be84bcb40c60b3ea8e0b177766a89int },
        0xe7db4ea6533afa906673b0101343b00a6682093ccc81082d0970e5ed6f72ccnat,
        DoubleWitness {
            xx: (0x21ea5707dec3f650b1cc62b330de280427704e3dcc8045e7ddee20d9baaa9384int, 0x5f18e3a11f761968cb9114df7d24793322b9e0c104ce4ae48ef781a7185113a0int),
            a: (-1, 0x14d4c3b20a2763df67a8c3288c7d5ed23103c341fb30111a71087e57e7aeec61int),
            b: (0x35e2cb08807ccf2e091747ec9cc5cf3e15fc753f6757e2b5abc8d893df088bint, 0x616d2bc8ee3be31e1a984adb52406ab689113fa7a67cc75cfb209700038cead9int),
            zz: (0x1ece1a3f7eb8de7dd17503838146d1cae244e333224544b89575820fb3afeac7int, 0x23f8b59e17ba3729600059f1d4f45c0be2f3bec66388eafff1f8c7fb0cf1d28aint),
            c: (0, 0x47f16b3c2f746e52c000b3e3a9e8b817c5e77d8cc711d5ffe3f18ff619e3a514int),
            dif: (-1, 0x27553f3c4588fe09804a505543decc20fbb0279d54b1a5bc75e7e756e4220189int),
            xy: (0x2abfff628b000d80a7908f1222a3f68cd955528937854f8adde63cc227417a2int, 0x2c9d0c5de2bc7c03bb712b384930c70e718ca40ab1657ec0dd5065065386a522int),
            e: (0, 0x593a18bbc578f80776e2567092618e1ce319481562cafd81baa0ca0ca70d4a44int),
            g: (1, 0x2544827cec5c9b54f0735fbd51bf18366575ee6a1ae7c786c291558eb3bd739int),
            f: (-1, 0x2e50843ec8eed8aac2405a2034d51170f42d855cda9b027788378561d1583226int),
            x3: (0x23a5a4d3a7125e8dbdcaed697f76ce286345c72f2a1f62c9213b4a38db859620int, 0x3f4a4df4840adbbf1aa449a1e038a863e782f2b95cd283fee694805f9454b7f8int),
            y3: (0xca4f8f69ac4749aa49c5e3457e46b74e12a53522ab50bdce21f41c221a3de3int, 0x583a9b3340847307129273b865d9372127bafcc3fb2b25f1ad18550f5655289eint),
            t3: (0x1e4607be30202335bdbd1189c92a504ba9da85d2b16ccf153a13eddbfecfe573int, 0x58b6a9e07d65ab8ee588c33160291fe67d93c40744b6528b93de79c3e19f1cf1int),
            z3: (0xee38733c6d2725767c5f354545f8189cd1f7dee1292e6c24c2abe074eb61d9int, 0x1db3a72ac2b48d2b67a5d1d713cfdcdedd16e244e3b2b57210c61ffdaa97b29dint),
        },
    );
    lemma_chain_subtract(
        base(),
        negative_base(),
        ExtendedPoint { x: 0x3f4a4df4840adbbf1aa449a1e038a863e782f2b95cd283fee694805f9454b7f8int, y: 0x583a9b3340847307129273b865d9372127bafcc3fb2b25f1ad18550f5655289eint, t: 0x58b6a9e07d65ab8ee588c33160291fe67d93c40744b6528b93de79c3e19f1cf1int, z: 0x1db3a72ac2b48d2b67a5d1d713cfdcdedd16e244e3b2b57210c61ffdaa97b29dint },
        0x1cfb69d4ca675f520cce7602026876014cd0412799902105a12e1cbdadee598nat,
        SumWitness {
            a: (0x3a4b4088d1d23ff81a076dbe409809bf4fb34bce769e4ab9b2544881fa7a00c2int, 0x4bdfa30260386cc662710379c6316f568fad0cf44055529ab86e27f87b0849ceint),
            b: (0x42b0f6848394165858b3ac8524cd7ab328e3932348bc946eb3c3e94888349ca2int, 0x42a40df4022b80ed2e11b44483d4f96d8101c58f34b22c265387f6832ed6b6feint),
            dt: (0x209479a1a2d0cbea75fe34bc7dd4c238f9a5f4b973935ffbb7179c1511373c05int, 0x2891dc953dc852a70e9e481362e598c607f66dd2881e0b803839b7fccdc2249cint),
            c: (0x26b4a83653e728bebb353bd2e665125da0f990a1df678a417506abc346bc48fbint, 0x54b141b1d5652e52216161f8080101108f72786f753058d7b1477cee27804ee5int),
            zz: (0, 0x1db3a72ac2b48d2b67a5d1d713cfdcdedd16e244e3b2b57210c61ffdaa97b29dint),
            h: (1, 0x1a9609a338c6706b5d48dfb6406490bebcf12e80750922c20bf61e7ca9df00cbint),
            s0: (1, 0x239741d49af1d17df9fce5523c70077fbb804b7a57ff4df193acd56feaa9e095int),
            s1: (1, 0x4e7a2cab4d8fef627fa28fd19ba7c19a97abbf79df4db594e896ec1ba05d0dddint),
            ss: (0x1817d4af2cbffbc43e7f36e14bc22bd888f3e4e4e3a9f145bf80e1207cfa72ddint, 0x735e5b230a2b0b803b272b8ebeb5fff6825bb196fab9814a7718fa0f6e34fec4int),
            e: (0, 0x58c8517fd1649b14ddde4bd87e516f37c56a831685b05e886b22db92c455fdf9int),
            f: (-1, 0x3cf00ccc16ecdc21797e47e71570b3d3a1620dd86e80b8995f7ea30e831763b9int),
            g: (0, 0x7264e8dc9819bb7d890733cf1bd0ddef6c895ab458e30e49c20d9cebd2180182int),
            x3: (0x2eab22497140f9d0e319f20c3c7a438db4b36bb7d9468eb92c65601090a5ca17int, 0x9120c80d8a38eeff61673b311ad4f06c632c1acb8a8a25d04f9ec51cf1509daint),
            y3: (0x1a3bf806d4fd1fdacae7c378888bcd58e204bd8c5519431d2e20c749c83e44b3int, 0x128f17689d330d0dd05784323c94aec784f672f1caf7c84e76c0bf48f308ed63int),
            t3: (0x145c550ce8cf3c433c6e386bd4b6fb69a7a629ca1a06227302d8f33153bf9695int, 0x71e1e24bbe261839e232729c630ac1df1b8a82dd31c59b285bb0bef2f957cddeint),
            z3: (0x3c219aae430f09d18a22541845dc38affccde344912ab09ea8857fcf062ed004int, 0x50d6f5cee6294ec8f7d22fd24948a23285de3d7a7178d1cf6522ece8be6d8ceeint),
        },
    );
    lemma_chain_double(
        base(),
        ExtendedPoint { x: 0x9120c80d8a38eeff61673b311ad4f06c632c1acb8a8a25d04f9ec51cf1509daint, y: 0x128f17689d330d0dd05784323c94aec784f672f1caf7c84e76c0bf48f308ed63int, t: 0x71e1e24bbe261839e232729c630ac1df1b8a82dd31c59b285bb0bef2f957cddeint, z: 0x50d6f5cee6294ec8f7d22fd24948a23285de3d7a7178d1cf6522ece8be6d8ceeint },
        0x1cfb69d4ca675f520cce7602026876014cd0412799902105a12e1cbdadee597nat,
        DoubleWitness {
            xx: (0xb5aeb976917f82338e5d162519a1bec71b0b2b43f99fb10881c225a09bb415int, 0x4ac44ceca0b9af4d7a2cff54bc67d0abc4507d895c3bca1d0f2b258c8989598fint),
            a: (-1, 0x29295a6688e3cdfab90cd8b34d3a07598f6d2679a3c291e1f0d4da727676a672int),
            b: (0x2f89a005bcef1f58cab00deec59a2b2b5f2a1a2667c2a5aa3ed3df9769cc1c6int, 0x616bb9a454bb727cc857d5eee4112bfe5737efe1fbc2bd651928b8762db3b283int),
            zz: (0x385f1b3d7cdc083a131ce21dc2b04922fd7a99bae9b15b2c04b620cbd910f750int, 0x4a298cdd696ab12f5ddc95c57227dccf8cf7e369498e7ad4bf9fe1f6bf3035f4int),
            c: (1, 0x20657267a937e516887f5382daade199c63222cf931e99aa7f3fc3ee7e606be7int),
            dif: (-1, 0x3bab48155dc5d8c623eedacc72cab3608bf2da9aa7fe307bd7ac21fb48c2f3f0int),
            xy: (0x173bc89b21804766aa02efb87dda289d3b824bb81d5ebb66771fe0bf959775bint, 0x3add0b36047a791b9353088181cd513dceae07706acaf3a6b83975fad2b829f3int),
            e: (1, 0x1cc6f18df5774eef36c38faf9f8ca76499e6addd5978b4e7072ebf6a57053e5int),
            g: (1, 0x16a76cb7b401c32f4e2ad69a27a95b5292e772589f86f34809fd92e9a42a58f4int),
            f: (-1, 0x6a2fa1a334675b60f8e55b1f569d51be2072f38c0c66b59c8abdcefa25c9ed0eint),
            x3: (0x1a5bd8f1057a7776b0b5a5841463e5ec6dec5a6c2c75d4ed646133b78622f83int, 0x671339fe8ac9fe6c856e878264386958aea0512c2c4f95db6caeafe1893a6803int),
            y3: (0xba9006bfd7862445156f73d1a9b9dff4c34f2bf400b4e567409a4fdf4bb549eint, 0x211a054fe2150b348076ff57375626d453b24afb6eecbf67b7062dd62e4fac22int),
            t3: (0xecfd057307cac4c1ca85d6f2432762832e8b6ed1cfb5765a3a111f56627701int, 0x20415c707f3baf0e4f402edf09a1d6db433b21da0f13f1810e2079655e188eafint),
            z3: (0x14c00ee528e0d4670126573e017180701cb5e7c6bdafe9bcdd70697da69c9673int, 0xb7b164b40fc4e6f7d6274142a13398bf5142bd2d58f79e3cd4bbd1aa3a22ae5int),
        },
    );
    lemma_chain_double(
        base(),
        ExtendedPoint { x: 0x671339fe8ac9fe6c856e878264386958aea0512c2c4f95db6caeafe1893a6803int, y: 0x211a054fe2150b348076ff57375626d453b24afb6eecbf67b7062dd62e4fac22int, t: 0x20415c707f3baf0e4f402edf09a1d6db433b21da0f13f1810e2079655e188eafint, z: 0xb7b164b40fc4e6f7d6274142a13398bf5142bd2d58f79e3cd4bbd1aa3a22ae5int },
        0x39f6d3a994cebea4199cec0404d0ec0299a0824f3320420b425c397b5bdcb2enat,
        DoubleWitness {
            xx: (0x5ba59dcbe3c2e71122acc62eeb92ce5cd727c88fc66d302777a2cfa041b4bf62int, 0x11ec65ee4cdad9f1865ea804fef1a5f1aa3ddaec58f88d7512946fae3fe9b0a7int),
            a: (-1, 0x62014164dcc2a356acdb30030ab03213a97fc916a705ce89ed6b9050c0164f5aint),
            b: (0x973a2070e2c779bccf216de751f1cf623b629a390fe694873efbe91dfbd610aint, 0x111bce11d7160d4a8786a2467955600e420c24cc97ff70fd917e19f808fc537aint),
            zz: (0x123118f595003fc88eb294474a1379aef4f5ea4d0a8b62ea117ef55489d5679int, 0x684d2846a03d6a098239110e667fc44eef8b9209ba4391d8a4922901a6669a60int),
            c: (1, 0x5caca93a16dd56cad1384a14c35db0988b5980107488c7b2492452044ccd34bfint),
            dif: (0, 0x50e5735305ac960c25548dbc915ad2056773a44a0f065d8c5bed7658b719fbe0int),
            xy: (0x1d6e7cc1e83fdf13735a1f939db5112f46f3180ab5a559848dec6aa4e90b76e3int, 0x4d42cc384db8cb7f5f432019a81efb0489a198e1760fef4585ed419e31855d83int),
            e: (1, 0x2697f11d71d419b68b4c682b469c1e03bf858dbfec21828c0bda833d630abb05int),
            g: (0, 0x731d0f76b3d8b0a13461d24984059221eb8bede33f053f877ee9aa48c912a2d4int),
            f: (0, 0x1670663c9cfb59d663298834c0a7e18960326dd2ca7c77d535c558447c456e15int),
            x3: (0x7785bef9dfa738af0aebecc96a7d770c6b45eb0b0f9e257ba5a7e9307cba8baint, 0x40a7f312c7e88a6f07cb4b4cb079d4004c90f5e3e081ad7e3943988d88cad4afint),
            y3: (0x5053e435ea52b762a2ed8b9b66a6a789aee4754d923d909da7729ca08c07f12fint, 0x1b20dce043780f9382052c527c8d4904a31724b8d4bfe2818391577b1ca06451int),
            t3: (0x1aee59e7eee5964dfad030594714e417feece373e24a3ae869c25fae84f6f962int, 0x4345ed7fa0806229d7b360216751ce2f6a9be9ef6c9dce6054658efa804791feint),
            z3: (0x1648062c37ae584024088f133b5f4c9e305edfc2bef0dfaa6c2e9a5039cb8efdint, 0x6ff6a0a107d5daf2760e6b3bdbfbbaa630e8191b4c790da3c7068c3fd9d6e467int),
        },
    );
    lemma_chain_double(
        base(),
        ExtendedPoint { x: 0x40a7f312c7e88a6f07cb4b4cb079d4004c90f5e3e081ad7e3943988d88cad4afint, y: 0x1b20dce043780f9382052c527c8d4904a31724b8d4bfe2818391577b1ca06451int, t: 0x4345ed7fa0806229d7b360216751ce2f6a9be9ef6c9dce6054658efa804791feint, z: 0x6ff6a0a107d5daf2760e6b3bdbfbbaa630e8191b4c790da3c7068c3fd9d6e467int },
        0x73eda753299d7d483339d80809a1d8053341049e6640841684b872f6b7b965cnat,
        DoubleWitness {
            xx: (0x240f6cca6d20d0be2f2f17261573482f25c770928390ecb96a11b73a810bfba6int, 0x46a9cd0078e87d24663f6b4830b1fa1e41ca7b1aafcd4dfd2daa7fdfc3d253fbint),
            a: (-1, 0x2d43da52b0b50023ccfa6cbfd8efdde711f328e850310e01d255801f3c2dac06int),
            b: (0x6592a8b7854b44882f8e96166862336e2f8aa1932925bccde724b67efd6f055int, 0x6c073430f5b05db770f4ed178e3070378d87322f584bee9824a9933254b8714cint),
            zz: (0x6c225121a9c7c057b6bce8d8cb229297768958218c37fa5339bfcbe4ff461f47int, 0x1c03e342700eb277f626ed30d8ace948af4f5b3128d5f15d974d69ad46b5822aint),
            c: (0, 0x3807c684e01d64efec4dda61b159d2915e9eb66251abe2bb2e9ad35a8d6b0454int),
            dif: (-1, 0x352a4d74e4a21fb48f3f57b0546145b4d8299abbf7e37b68adabecebe7753abbint),
            xy: (0xf2151a72a5e03172f4e583955adda6e8b04ef255a70c4009d9d44ab8379e9a9int, 0x692dea1e126a7226849cf0030b134c7b0cd67daa1f965f5eb1d8a521127bdb6int),
            e: (0, 0xd25bd43c24d4e44d0939e006162698f619acfb543f2cbebd63b14a4224f7b6cint),
            g: (1, 0x255d67307cc7e0930ab581cf5d7e76194bbcb714a87ea09af6ff135290e61d51int),
            f: (-1, 0x614347fec647f8eb51a17f75b5c67b8d40dba4b556d119dec8643ff7037b18feint),
            x3: (0xb07d31c1dd3da019d9d0267f975e00cfe71ef582575d2f30cd71449dd50a2f7int, 0x3b70060996c6d096f129da0699d3886f35c54d3a130d91f2008a80953201f231int),
            y3: (0x1122bc677582659bbb56a9bce2260fad68cbedce2d978243882b79214622cf2fint, 0x3f2d61c5c8d06de10e39e5a6da5b36a81d059c37e6a35604c2859b2c319df4fcint),
            t3: (0x6078af91735714ced6fe53a7f7503bd50f56b5d25584dfca476d938717d9f96int, 0x13ce755272df69ead989804e10a6d115b46b6b124985caed68b74cde7ce4004eint),
            z3: (0x1f59493ed85e3b29fe8e810121968ae26575b0efdbc0d53e0c814e996d6fefcaint, 0x6b0b5fb3e326a4d938a76dff42c6d62a8722dedeb4800831c71313c0f28bbe94int),
        },
    );
    lemma_chain_subtract(
        base(),
        negative_base(),
        ExtendedPoint { x: 0x3b70060996c6d096f129da0699d3886f35c54d3a130d91f2008a80953201f231int, y: 0x3f2d61c5c8d06de10e39e5a6da5b36a81d059c37e6a35604c2859b2c319df4fcint, t: 0x13ce755272df69ead989804e10a6d115b46b6b124985caed68b74cde7ce4004eint, z: 0x6b0b5fb3e326a4d938a76dff42c6d62a8722dedeb4800831c71313c0f28bbe94int },
        0xe7db4ea6533afa906673b0101343b00a6682093ccc81082d0970e5ed6f72cb8nat,
        SumWitness {
            a: (0x36bed4ace62520f59600792c621a82759e132a940d08a4150c20cafe76f9adcbint, 0x1e00875db7f8ff61e0970ad96c8453caafad8b67d83a2a93b0e9b8a85ee3c783int),
            b: (0x2fc147481bbf99bbc23d8937cbb7a2003cc14bca4dcc8e901aa09aad709d76b1int, 0x6f01c456a08f10a0cb238f6822ad09f722f221bee71a3d313cb9c5ae796ea48fint),
            dt: (0x7461f49a0001b463331728368c7d98c287c8a7cbabc4bf325e82d00e432bc8aint, 0x6fbbedf445be74c975f4b06c3ec5c4cdd1f607caec18d7d875c5c161f15c5d64int),
            c: (0x6a99a6612efda23a5d1749ccf5589ea36c79e95d193ba750af9f1782ea08a59dint, 0x51f6bb52b43c121ec026abc5bd37506e0840d5baf529fc6bd96f95691a395283int),
            zz: (0, 0x6b0b5fb3e326a4d938a76dff42c6d62a8722dedeb4800831c71313c0f28bbe94int),
            h: (1, 0x1914a4612eea92ba7880c239858f85bc7ee20923bf560bc5eda37e57d8526c11int),
            s0: (1, 0x6afc07c35f9c12fcc29e7a56a8ce711ff0d456ef9b28bf7c3101bc2639fe72cint),
            s1: (1, 0x4e7a2cab4d8fef627fa28fd19ba7c19a97abbf79df4db594e896ec1ba05d0dddint),
            ss: (0x486c3904f1f9d289e48f095a33d5bb16689ea0194a330c5ddc2cba8c27160ebint, 0x1914a4612eea92ba7880c239858f85bc7ee20923bf560bc5eda37e57d8526c11int),
            e: (0, 0),
            f: (0, 0x1914a4612eea92ba7880c239858f85bc7ee20923bf560bc5eda37e57d8526c11int),
            g: (1, 0x491473b36dc539afc59441bcf65c4e933ba61096a9aba89ea082a92b0cc51116int),
            x3: (0, 0),
            y3: (0xfcf7fc0dcfa6a4e14b16633bc377e1036af0a53fb17d0a3d348cd1fb5c247b8int, 0x453f9d69dbd75b2349dbd8c323fbc1a5534dbbabb510432dc178dfdb4f9522beint),
            t3: (0, 0),
            z3: (0xfcf7fc0dcfa6a4e14b16633bc377e1036af0a53fb17d0a3d348cd1fb5c247b8int, 0x453f9d69dbd75b2349dbd8c323fbc1a5534dbbabb510432dc178dfdb4f9522beint),
        },
    );
}

/// The multiple of the base point by `r` is the neutral element.
pub proof fn lemma_base_point_order()
    ensures
        same_point(times(extend(base_point()), r_prime() as nat), extended_identity()),
{
    lemma_base();
    lemma_times_one(base());
    lemma_order_part_1();
    lemma_order_part_2();
    lemma_order_part_3();
    lemma_order_part_4();
    lemma_order_part_5();
    lemma_order_part_6();
    lemma_order_part_7();
    lemma_order_part_8();
    lemma_order_part_9();
    lemma_order_part_10();
    lemma_order_part_11();
    lemma_order_part_12();
    lemma_order_part_13();
    lemma_order_part_14();
    lemma_order_part_15();
    lemma_order_part_16();
    lemma_order_part_17();
    lemma_order_part_18();
    lemma_order_part_19();
    lemma_order_part_20();
    lemma_order_part_21();
    lemma_order_part_22();
    lemma_order_part_23();
    lemma_order_part_24();
    lemma_order_part_25();
    lemma_order_part_26();
    lemma_order_part_27();
    lemma_order_part_28();
    lemma_is_identity(ExtendedPoint { x: 0, y: 0x453f9d69dbd75b2349dbd8c323fbc1a5534dbbabb510432dc178dfdb4f9522beint, t: 0, z: 0x453f9d69dbd75b2349dbd8c323fbc1a5534dbbabb510432dc178dfdb4f9522beint });
    lemma_identity_form();
}

} // verus!
