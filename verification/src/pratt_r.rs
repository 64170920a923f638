//! The certificate of primality for the characteristic `r` of the scalar field:
//! six is a primitive root modulo `r`.
use vstd::prelude::*;
use vstd::arithmetic::div_mod::lemma_small_mod;
use crate::scalar::r_prime;
use crate::pratt::{lemma_prime_3, lemma_prime_12281, lemma_prime_1710050753150114629, lemma_prime_203928654140967434528233, lemma_prime_255074062430788457494141376149};
use crate::modular::pow_mod;
use crate::primes::{
    is_prime, is_primitive_root, refutes, lemma_chain_multiply, lemma_chain_rebase,
    lemma_chain_square, lemma_chain_start, lemma_euclid, lemma_lucas, lemma_root_gives_prime,
    lemma_two_is_prime,
};

verus! {

/// A power of a power of the root 6 modulo the prime `r`: the steps from the exponent
/// 0
/// to the exponent
/// 0xe53640dea41.
proof fn lemma_power_r_1_part_1(p: int, g: int)
    requires
        p == r_prime(),
        g == 6,
        pow_mod(g, 0, p) == 1,
    ensures
        pow_mod(g, 0xe53640dea41, p) == 0xd3f41a335516a9da7a58a537e0fa1ba5e4a15653da844294955abb432338163int,
{
    let e: nat = 0;
    let e = lemma_chain_square(p, g, e, 1, 0, 1);
    let e = lemma_chain_multiply(p, g, e, 1, 0, 6);
    let e = lemma_chain_square(p, g, e, 6, 0, 0x24);
    let e = lemma_chain_multiply(p, g, e, 0x24, 0, 0xd8);
    let e = lemma_chain_square(p, g, e, 0xd8, 0, 0xb640);
    let e = lemma_chain_multiply(p, g, e, 0xb640, 0, 0x44580);
    let e = lemma_chain_square(p, g, e, 0x44580, 0, 0x123ede4000);
    let e = lemma_chain_square(p, g, e, 0x123ede4000, 0, 0x14ce6b167f310000000int);
    let e = lemma_chain_square(p, g, e, 0x14ce6b167f310000000int, 0, 0x1b0e72c08e02b29119da76100000000000000int);
    let e = lemma_chain_multiply(p, g, e, 0x1b0e72c08e02b29119da76100000000000000int, 0, 0xa256b08354102f669b1ec4600000000000000int);
    let e = lemma_chain_square(p, g, e, 0xa256b08354102f669b1ec4600000000000000int, 0x71aa11024a3, 0x4f960952614ae93f0a16806a94b197148769937dc330062cf5a153a7be4cb7bint);
    let e = lemma_chain_square(p, g, e, 0x4f960952614ae93f0a16806a94b197148769937dc330062cf5a153a7be4cb7bint, 0x1b518014a2609d365d59afa9c576b252bbfcb8f7e37ee057ef73a42ad86ca39int, 0x5a90cfadff89938e1967a2f765cf341d5b0f856213021140331753b4db8f25aint);
    let e = lemma_chain_multiply(p, g, e, 0x5a90cfadff89938e1967a2f765cf341d5b0f856213021140331753b4db8f25aint, 2, 0x4fae40c756c38033cb8671ac3c53d89b55590dd2d90a57271faa2a6246754aeint);
    let e = lemma_chain_square(p, g, e, 0x4fae40c756c38033cb8671ac3c53d89b55590dd2d90a57271faa2a6246754aeint, 0x1b62229afe0e229b1fb76cacf61488df39d882995481962ccd53892f665a723int, 0x8ced04e07218f62c96f0fb35a0fcd64c29d263206c5ee9f722d91210fdd283fint);
    let e = lemma_chain_square(p, g, e, 0x8ced04e07218f62c96f0fb35a0fcd64c29d263206c5ee9f722d91210fdd283fint, 0x55a8230ce9ae92f51592d61c9ca3c6a3ba18d9d8613efd3b68651296f6e1330int, 0x397f5a3fb5d0cc10413e406cc9025ffaf8e35b158e2f5bd1ede115faecdc831int);
    let e = lemma_chain_square(p, g, e, 0x397f5a3fb5d0cc10413e406cc9025ffaf8e35b158e2f5bd1ede115faecdc831int, 0xe4235c5edf4a20b1388daae9842a9659a45100f8adf8dc379eca330adb4b03int, 0x1259c816a7aa127b30bc2a7d0cdb85566b497b3c6da97c8c0aea82c817a763cint);
    let e = lemma_chain_multiply(p, g, e, 0x1259c816a7aa127b30bc2a7d0cdb85566b497b3c6da97c8c0aea82c817a763cint, 0, 0x6e1ab087edfc6ee32468feee4d25200683b8e36a91f8eb48417f10b08dec568int);
    let e = lemma_chain_square(p, g, e, 0x6e1ab087edfc6ee32468feee4d25200683b8e36a91f8eb48417f10b08dec568int, 0x344950934b19ca5f340fa4ba748e8410fd76b55c7f15aca5d597651a293ac16int, 0x9ac2c20595540d9631dbf9388e44e8937fe1a2016a0ff244340266b723b6e86int);
    let e = lemma_chain_multiply(p, g, e, 0x9ac2c20595540d9631dbf9388e44e8937fe1a2016a0ff244340266b723b6e86int, 4, 0x1235188330c674391591713088eb34b6541a7154a5b8ce5124ad095187e448int);
    let e = lemma_chain_square(p, g, e, 0x1235188330c674391591713088eb34b6541a7154a5b8ce5124ad095187e448int, 0x16e07a3984fa488de5716a3e8bb8690640f83fa70d0ca4bedaa667d99f0aint, 0xb1307ed3c08fd9a06aaa7fae134306f919b15a5106f915ea96cad43acf3ec1aint);
    let e = lemma_chain_square(p, g, e, 0xb1307ed3c08fd9a06aaa7fae134306f919b15a5106f915ea96cad43acf3ec1aint, 0x8769626bdea1866eb198eca5362a272d7bb724b264b3f0b6b67bb1c0ea0e379int, 0xd5f522e6be2ccabc096d62aa63daa7fe402a296c13952e3f41213e647418b25int);
    let e = lemma_chain_multiply(p, g, e, 0xd5f522e6be2ccabc096d62aa63daa7fe402a296c13952e3f41213e647418b25int, 5, 0x7c764828d4e5db96384ddfadf6cd7fc18072ca5876f9ec9a5792f8b78b5634bint);
    let e = lemma_chain_square(p, g, e, 0x7c764828d4e5db96384ddfadf6cd7fc18072ca5876f9ec9a5792f8b78b5634bint, 0x42cfdcc4c566255ac484bf960c4ee3b37eda2fc25b379cd70885b08dd29742cint, 0x4e8ce2752dd74e9c6cd6cc05e66d684971ad61ff98a3526942c3770c7837c85int);
    let e = lemma_chain_multiply(p, g, e, 0x4e8ce2752dd74e9c6cd6cc05e66d684971ad61ff98a3526942c3770c7837c85int, 2, 0x796b1726c95e289c0216803400911a3dd0c3983fad1de1d7db2fe6ff2691b0int);
    let e = lemma_chain_square(p, g, e, 0x796b1726c95e289c0216803400911a3dd0c3983fad1de1d7db2fe6ff2691b0int, 0x3f958ac5bf7b2fc3da6a28e72b675fb070face6e5f70df6a684332fd7ab6eint, 0xd782f2c902d4c4eef7a39332e7f99d9ba9e71a38c5206e162a48eb39364655eint);
    let e = lemma_chain_square(p, g, e, 0xd782f2c902d4c4eef7a39332e7f99d9ba9e71a38c5206e162a48eb39364655eint, 0xc85192cb654e1f680f0451dd6472bffd40de9df95e433e3d53891bafbba1ea4int, 0xc242a4df8275c8746ac230e00122bf7174ff692eeb27fa8af137ee6b6073748int);
    let e = lemma_chain_square(p, g, e, 0xc242a4df8275c8746ac230e00122bf7174ff692eeb27fa8af137ee6b6073748int, 0xa2c2a705d085ed9ca48262c8213722de435382faba1a8ae95e9bf9e7a0234b1int, 0x8a83d0fb737f2939f295b5689992f1cf6d83773c88901dd27ba9c20c76edb9int);
    let e = lemma_chain_multiply(p, g, e, 0x8a83d0fb737f2939f295b5689992f1cf6d83773c88901dd27ba9c20c76edb9int, 0, 0x33f16e5e4b4faf75baf8240739971aadc9114cb6b3360b2eee5fa8c4ac99256int);
    let e = lemma_chain_square(p, g, e, 0x33f16e5e4b4faf75baf8240739971aadc9114cb6b3360b2eee5fa8c4ac99256int, 0xba3098cea056013df298a2a38b7d806d905ee1f7e54502044d1392b66693d1int, 0xba370fc7f8d1dc4f75a0a950b08a5d18b066975f29360c4da7886df7d4f9e7dint);
    let e = lemma_chain_square(p, g, e, 0xba370fc7f8d1dc4f75a0a950b08a5d18b066975f29360c4da7886df7d4f9e7dint, 0x958ee3d6b92886e8391fa2c675f8c5c44c954afcba884d4a3b2938dbb97e20fint, 0x84f1d1b13ab6d1d5ec5360facb3b663c7c940537266cd4e1b9832ba6a5e5c50int);
    let e = lemma_chain_square(p, g, e, 0x84f1d1b13ab6d1d5ec5360facb3b663c7c940537266cd4e1b9832ba6a5e5c50int, 0x4c3ab276c45a48666b4376bad6bdcf59a0fbca21dbfe1600e045672cfac10adint, 0x9365b4bdbbf0ff9a1dc2c904bb08138a37957b79a4e93a3e1e7593b7040f155int);
    let e = lemma_chain_square(p, g, e, 0x9365b4bdbbf0ff9a1dc2c904bb08138a37957b79a4e93a3e1e7593b7040f155int, 0x5db44b4e6fa42ffe99c02ac30eda6bf35f60d4d56849ce212a717dc59ec4d28int, 0x92094d40ea445d710c5e41d066d353cd74f1a2cd319da52ce747cab273b1ea1int);
    let e = lemma_chain_square(p, g, e, 0x92094d40ea445d710c5e41d066d353cd74f1a2cd319da52ce747cab273b1ea1int, 0x5bfb5c2a86e757ea4c7bc21d91356a62bc5e0bb5ad95b14c67a063dd7975255int, 0x639dbcf19d248336bdb28f784b413392b2d710ad943aeb6f02d79c5928aaa7eint);
    let e = lemma_chain_square(p, g, e, 0x639dbcf19d248336bdb28f784b413392b2d710ad943aeb6f02d79c5928aaa7eint, 0x2accb4b515dad6f37fb258307f90350b2644a737ab6035b747034a584f32900int, 0x5c157ab092699ffff9087bba219247d07b0670555fe21242824497195854704int);
    let e = lemma_chain_square(p, g, e, 0x5c157ab092699ffff9087bba219247d07b0670555fe21242824497195854704int, 0x249269d52e0e3992b8a1c43c5bd4a9b316065e6c25f5b0659fefa353f5bc491int, 0xda0da28435526d52334f831615e382dfe2db660e4f0f1cd74076d879791c869int);
    let e = lemma_chain_multiply(p, g, e, 0xda0da28435526d52334f831615e382dfe2db660e4f0f1cd74076d879791c869int, 5, 0x950945d99fc7ab1b339aa2342302a10b509a3625dbd5842a53949535a96d2e3int);
    let e = lemma_chain_square(p, g, e, 0x950945d99fc7ab1b339aa2342302a10b509a3625dbd5842a53949535a96d2e3int, 0x5fccb80eacb0fb8f0b35bb508a40fc8c36f9f9f4a0ac2a3fb9027739be4d4d6int, 0x45f6de08ce0025fbdd5f6a520dd350022c8a7df838984c8eda1f99d681a484fint);
    let e = lemma_chain_multiply(p, g, e, 0x45f6de08ce0025fbdd5f6a520dd350022c8a7df838984c8eda1f99d681a484fint, 1, 0xbbede58e80c5e956c9c8cddc3fb03002a4bcea948710c32c134cb5199a68523int);
    let e = lemma_chain_square(p, g, e, 0xbbede58e80c5e956c9c8cddc3fb03002a4bcea948710c32c134cb5199a68523int, 0x9853086f6e578b3da7ce447743dfcdae56c24e9574c65c7f273dd5c932eb89eint, 0x6055e041da18828229aad9ddd76313fdee8eccf4a7da67b7a4994b5520e41d7int);
    let e = lemma_chain_square(p, g, e, 0x6055e041da18828229aad9ddd76313fdee8eccf4a7da67b7a4994b5520e41d7int, 0x2806e764de2a5cb7e1935026478e50e16da0e897aabb82ebee52883b6723242int, 0xa5d7da667a49478a707bf698630c2477b662b12bafb118b8b39ad0e4a7f9d63int);
    let e = lemma_chain_multiply(p, g, e, 0xa5d7da667a49478a707bf698630c2477b662b12bafb118b8b39ad0e4a7f9d63int, 4, 0x43a1e3cd90cbc2fd09190752053a1aa4ac480212ec2273a00fdd4da6320fd76int);
    let e = lemma_chain_square(p, g, e, 0x43a1e3cd90cbc2fd09190752053a1aa4ac480212ec2273a00fdd4da6320fd76int, 0x13ba7235db4c6106f2118caa30f87d0304484d5bd5b0bc344f75f5d309f6d3eint, 0xd54aee5565792a4baec3c554ccec490db037ce71ebf312a7cbbc56038e2b312int);
    let e = lemma_chain_multiply(p, g, e, 0xd54aee5565792a4baec3c554ccec490db037ce71ebf312a7cbbc56038e2b312int, 5, 0x78790cc0c0b018f418542fac6d37461e20c4a87b892d470d9735867227c52d9int);
    let e = lemma_chain_square(p, g, e, 0x78790cc0c0b018f418542fac6d37461e20c4a87b892d470d9735867227c52d9int, 0x3e9906b572dc7aa72e331e9f0185cabb270dd60d580adf5ec5bb010c273bb82int, 0x5737e7d00076dec86085b70c9bf04aca9cf96f76b32c2ccffa70d7485a45a03int);
    let e = lemma_chain_multiply(p, g, e, 0x5737e7d00076dec86085b70c9bf04aca9cf96f76b32c2ccffa70d7485a45a03int, 2, 0x3b98d1935c534391763aea2b811a60aae0d48a4e9a06fc85cbc33fd73ebc2a4int);
    let e = lemma_chain_square(p, g, e, 0x3b98d1935c534391763aea2b811a60aae0d48a4e9a06fc85cbc33fd73ebc2a4int, 0xf51a56dd7e831ac8a2d0e0527f52eaa1b55b6f6413dac3692fe2fe5e8d5d31int, 0x6d5608fad62f454bb85c6d1e2c3ffcea501937217494242b74b71c681bbef09int);
    let e = lemma_chain_multiply(p, g, e, 0x6d5608fad62f454bb85c6d1e2c3ffcea501937217494242b74b71c681bbef09int, 2, 0xc04d98945ea5aaa585432e94e2f88d691393384f2276c8aaa968de95c7940c8int);
    let e = lemma_chain_square(p, g, e, 0xc04d98945ea5aaa585432e94e2f88d691393384f2276c8aaa968de95c7940c8int, 0x9f7f477c4578060e10a8e712b522003ad80f08987ad20446aec79b6add2c08eint, 0x37a31c0a8726eac3f754cbcfedbf90591afd10de61d1eb30ba8d92515b28ebeint);
    let e = lemma_chain_square(p, g, e, 0x37a31c0a8726eac3f754cbcfedbf90591afd10de61d1eb30ba8d92515b28ebeint, 0xd59d3b3a3c7477e4fe8159c0c9489febe458b925b22c932f4ca52ae8d78a0bint, 0x56aa71a6ac8862872063d9b1174ac1c3f5dc81f1001bebfce6b95cb1b64c327int);
    let e = lemma_chain_multiply(p, g, e, 0x56aa71a6ac8862872063d9b1174ac1c3f5dc81f1001bebfce6b95cb1b64c327int, 2, 0x38480c9b64bc5a09f56fba0665392a82f626f92c67a577935576604f66e397cint);
    let e = lemma_chain_square(p, g, e, 0x38480c9b64bc5a09f56fba0665392a82f626f92c67a577935576604f66e397cint, 0xda971c0044806b0602683fc88d48e36ad5ba0a3d4748dd0cc187a329d9c105int, 0x196bbc12671ef45637fbc2045a9d77862f8c5a566d3e1150b3912b201cf9d7dint);
    let e = lemma_chain_square(p, g, e, 0x196bbc12671ef45637fbc2045a9d77862f8c5a566d3e1150b3912b201cf9d7dint, 0x2c98294fb7016c7ccfa8df83252279140655f421286891d841bb5fddcdfb9dint, 0x4c06c84d1c94c128b6b76a19f37c1a3b8b08f7507427d0e176f460f130fb5ceint);
    let e = lemma_chain_multiply(p, g, e, 0x4c06c84d1c94c128b6b76a19f37c1a3b8b08f7507427d0e176f460f130fb5ceint, 1, 0xe04d632858418c63e1d8cc8ba1a4ed5adbb3c2a5ec6ddd1bc0495fb9b67161dint);
    let e = lemma_chain_square(p, g, e, 0xe04d632858418c63e1d8cc8ba1a4ed5adbb3c2a5ec6ddd1bc0495fb9b67161dint, 0xd8fe7a8511108f4fecd94796d5bb92b06091e9d5087b2c46ed8b619470aaecbint, 0x697810eeaf10767cd8bb31361eb880812c3469daa515ae15debd6e9f4b4282cint);
    let e = lemma_chain_square(p, g, e, 0x697810eeaf10767cd8bb31361eb880812c3469daa515ae15debd6e9f4b4282cint, 0x2ffa0748234866a5b19c1f233f6de98b1e6b81af61197a6e1bad1acf8ededafint, 0xb7773fa8e3282164e3250862e6b0373cf601b64716b67241aa41382ef65cb77int);
    let e = lemma_chain_square(p, g, e, 0xb7773fa8e3282164e3250862e6b0373cf601b64716b67241aa41382ef65cb77int, 0x912cb453aa8ecb0aaf1d758fd2cb8744332d029a8237037f4f6c2603a70026dint, 0x6eaa2da684974d6b4dace3001c158b2a1f8eb9ff0a87721e6e02e49e3f47966int);
    let e = lemma_chain_multiply(p, g, e, 0x6eaa2da684974d6b4dace3001c158b2a1f8eb9ff0a87721e6e02e49e3f47966int, 2, 0xc846749a7515db630525f1e081f9e2e7f0544980a62a9c5c812f8fda9cc7ef6int);
    let e = lemma_chain_square(p, g, e, 0xc846749a7515db630525f1e081f9e2e7f0544980a62a9c5c812f8fda9cc7ef6int, 0xacfed9acf152d7f5364a402845332062204993a881949f10806eb48226916efint, 0xca4a05dbcd5f3fdf4692128610626f7ab7ed0a0785fa3af29d71469cf5d9b8bint);
    let e = lemma_chain_square(p, g, e, 0xca4a05dbcd5f3fdf4692128610626f7ab7ed0a0785fa3af29d71469cf5d9b8bint, 0xb07e02e98366688421d1edf04e206c6cbb356778e61c043608cbeaf69bce569int, 0x2824c75dd030e0b7f32a19007e59db5d1e564b5b29350f190ad76a4ffba936aint);
    let e = lemma_chain_square(p, g, e, 0x2824c75dd030e0b7f32a19007e59db5d1e564b5b29350f190ad76a4ffba936aint, 0x6f3525656224a1175111725877bc9462212bcac3b1c80a6d516cf20eb134d1int, 0xa7d22e1a7b33ad70c0b08b8e3f066563760af98f3cac18d7cad340a15833a7dint);
    let e = lemma_chain_square(p, g, e, 0xa7d22e1a7b33ad70c0b08b8e3f066563760af98f3cac18d7cad340a15833a7dint, 0x79789c7f157c92f4d42ebc9599b50efe728285c75d370a6885101fdb17e32fcint, 0x3853c311bb4034be1f7ee3aec3bd3bdc4097657661156dde299dddc002d1ee5int);
    let e = lemma_chain_square(p, g, e, 0x3853c311bb4034be1f7ee3aec3bd3bdc4097657661156dde299dddc002d1ee5int, 0xdaf220cb0024dde486ba7f150af206e2c34405f1e8939e66779f961eee68adint, 0x153003a21f2910d8fc5e9a306af8323109ab6a1546a523a7cab98dd2ce6e92eint);
    let e = lemma_chain_square(p, g, e, 0x153003a21f2910d8fc5e9a306af8323109ab6a1546a523a7cab98dd2ce6e92eint, 0x1efa86f7a2c148c5f6285ec0d2cf42791192306d0f144fe997f18416b857bdint, 0xe48a1b3dd38a4272146f2e4160376ca450dc9615f98191e8f617ded10d69029int);
    let e = lemma_chain_multiply(p, g, e, 0xe48a1b3dd38a4272146f2e4160376ca450dc9615f98191e8f617ded10d69029int, 5, 0xd3f41a335516a9da7a58a537e0fa1ba5e4a15653da844294955abb432338163int);
}

/// A power of a power of the root 6 modulo the prime `r`: the steps from the exponent
/// 0xe53640dea41
/// to the exponent
/// 0x1ca6c81bd4831b9d9378bc.
proof fn lemma_power_r_1_part_2(p: int, g: int)
    requires
        p == r_prime(),
        g == 6,
        pow_mod(g, 0xe53640dea41, p) == 0xd3f41a335516a9da7a58a537e0fa1ba5e4a15653da844294955abb432338163int,
    ensures
        pow_mod(g, 0x1ca6c81bd4831b9d9378bcnat, p) == 0x18ec51c0adde9bbb82ea6807989151882b2e8b6c90fb4e0160fb09cc3bfe22aint,
{
    let e: nat = 0xe53640dea41;
    let e = lemma_chain_square(p, g, e, 0xd3f41a335516a9da7a58a537e0fa1ba5e4a15653da844294955abb432338163int, 0xc1c248468d3d2f28adec6e0e9b1ab525775f780b585b1adf66cae06f0559b90int, 0xd61e3103aec0fab4167373e12d2e1f0e3a9ffb3b231dbdb97ca54577ef7f859int);
    let e = lemma_chain_multiply(p, g, e, 0xd61e3103aec0fab4167373e12d2e1f0e3a9ffb3b231dbdb97ca54577ef7f859int, 5, 0x7d6c9cd6785efb66867246f6aec24a215f35b532d42d4977bcab232c6fbf283int);
    let e = lemma_chain_square(p, g, e, 0x7d6c9cd6785efb66867246f6aec24a215f35b532d42d4977bcab232c6fbf283int, 0x43d9592bd804cc0a755cee79fdf1a8639c8f0d73ae392a26db01f2d3d5f8a34int, 0xd1e3c2d8b1319fd7bf7cbdae6b02b8beb66f3e38dd0dbfe2f89de92fb6533ddint);
    let e = lemma_chain_square(p, g, e, 0xd1e3c2d8b1319fd7bf7cbdae6b02b8beb66f3e38dd0dbfe2f89de92fb6533ddint, 0xbe0102d25093e92d132474acf28d995e30a95a9476d454ff08c325ca35d2260int, 0x89ee07ea3351d8806c35cb2d8ace65d1288aff90b88e5e47546caa420c7ba29int);
    let e = lemma_chain_square(p, g, e, 0x89ee07ea3351d8806c35cb2d8ace65d1288aff90b88e5e47546caa420c7ba29int, 0x520dacc21236f62dfabfb46147626251e12db173bff7aa0698e693976c50291int, 0x71a464e736788da292f0f03203d45b5f3c852d8cfdc78ae49ae82eebff0d8eaint);
    let e = lemma_chain_square(p, g, e, 0x71a464e736788da292f0f03203d45b5f3c852d8cfdc78ae49ae82eebff0d8eaint, 0x37b35691ea6347b2f3888ae87768dc792bb755eb403a6c3e19c009ec229ec0eint, 0xafce27eef17a7b11f8d3f2f835348acfd55d3bfe35ea96cc976b396247f8fe2int);
    let e = lemma_chain_multiply(p, g, e, 0xafce27eef17a7b11f8d3f2f835348acfd55d3bfe35ea96cc976b396247f8fe2int, 4, 0x7f67b5005bf2f82a3b28f190f22c80b566274302117b681766bfc097f20ac70int);
    let e = lemma_chain_square(p, g, e, 0x7f67b5005bf2f82a3b28f190f22c80b566274302117b681766bfc097f20ac70int, 0x46024feae3202458cc7fb70500d6f94828d7f770af6ef7290b998b94b8eee62int, 0xc2072680ba80502f7a3d46eac402fe6b14489e5361564598259c3872f7370f2int);
    let e = lemma_chain_multiply(p, g, e, 0xc2072680ba80502f7a3d46eac402fe6b14489e5361564598259c3872f7370f2int, 5, 0x4e25dc4bedafc4add2d393037bf864e792987c4498078afb274d50e9e0c619int);
    let e = lemma_chain_square(p, g, e, 0x4e25dc4bedafc4add2d393037bf864e792987c4498078afb274d50e9e0c619int, 0x1a5706fba980749b5b56dd90886742af2dcdd6efb58284067078d4e901344int, 0x2cef1b577e1c7ff8d4fd3747f897bdeb51bcaa55a109b401be90ffb6c2138d5int);
    let e = lemma_chain_square(p, g, e, 0x2cef1b577e1c7ff8d4fd3747f897bdeb51bcaa55a109b401be90ffb6c2138d5int, 0x8b54fbb52c6e28d68ff2ea633badd9dd9b33c79a30f4a461b50df7d910e779int, 0x3addbc4f03eaaffe95e8122883e62f34e95768b43d24b87638db139dcea9dbaint);
    let e = lemma_chain_multiply(p, g, e, 0x3addbc4f03eaaffe95e8122883e62f34e95768b43d24b87638db139dcea9dbaint, 1, 0x79571b33c44525671cfcbce304216b33118a6afca25b4a984bb18fc568885a5int);
    let e = lemma_chain_square(p, g, e, 0x79571b33c44525671cfcbce304216b33118a6afca25b4a984bb18fc568885a5int, 0x3f809e455e33081096cf99793fc020d9809a5bfddf1fe3d0ace5a47dc082a0dint, 0x6a80d05372c8e5c40582e6098b1db58a5ac585511cc280380e1e673ff79910eint);
    let e = lemma_chain_multiply(p, g, e, 0x6a80d05372c8e5c40582e6098b1db58a5ac585511cc280380e1e673ff79910eint, 2, 0xaf4e44a80a3f6d77542a04191c2ae129539d0d6d138cf0f641d49fa4eeb0ce6int);
    let e = lemma_chain_square(p, g, e, 0xaf4e44a80a3f6d77542a04191c2ae129539d0d6d138cf0f641d49fa4eeb0ce6int, 0x848c3f46903a739f61218e6c268ac0b40d1d794253ea8f49f89c020c04c9f6bint, 0x5b00539890006d39fb08797e03cc866f879d9a4c1701fa1a7117df2f2810527int);
    let e = lemma_chain_multiply(p, g, e, 0x5b00539890006d39fb08797e03cc866f879d9a4c1701fa1a7117df2f2810527int, 2, 0x524b5846b98c9a3b154b78d3f043c68860ad8b4ef109cc4493ad6f40117c57cint);
    let e = lemma_chain_square(p, g, e, 0x524b5846b98c9a3b154b78d3f043c68860ad8b4ef109cc4493ad6f40117c57cint, 0x1d358ffe8719617b42ac6711c3c32419a60a57ef04f4f31c9c8e7382e444867int, 0xc640e4cd28a9800381a163e76ae90d0cef591b2a6cadb515a714c947fd9e6fint);
    let e = lemma_chain_square(p, g, e, 0xc640e4cd28a9800381a163e76ae90d0cef591b2a6cadb515a714c947fd9e6fint, 0xa9853c323ae734d819cd12abb43ab65be016a256a39770e3928e65c9e625cint, 0x145bd61c68502472a44f898b08864e337e585c82126fbc136b40e08de8f145dint);
    let e = lemma_chain_square(p, g, e, 0x145bd61c68502472a44f898b08864e337e585c82126fbc136b40e08de8f145dint, 0x1c9a34da416b2849fc873dd3bf7ccf48d8a1bc3fb9b02eb92fb8087434ecd9int, 0xa09e4344dfd7c49a31478ca8541f30be6526b3bd44e6b406503b458f79b0eaaint);
    let e = lemma_chain_multiply(p, g, e, 0xa09e4344dfd7c49a31478ca8541f30be6526b3bd44e6b406503b458f79b0eaaint, 4, 0x24485903f222b15b8dde8bb1abac644cc4e0117c6b641771bba009a71c5a520int);
    let e = lemma_chain_square(p, g, e, 0x24485903f222b15b8dde8bb1abac644cc4e0117c6b641771bba009a71c5a520int, 0x5ad8200979b1d662ce012cad54af0fc79fda8aedcf7fec0d874918586700d7int, 0x137fdb4e04d4b5de84992f1e4c78e374eb73e6be4f61ddeb382d83d5e8ab64fint);
    let e = lemma_chain_multiply(p, g, e, 0x137fdb4e04d4b5de84992f1e4c78e374eb73e6be4f61ddeb382d83d5e8ab64fint, 0, 0x74ff23d41cfc43371b971ab5cad554bd84b76875dc4b33835111170374045daint);
    let e = lemma_chain_square(p, g, e, 0x74ff23d41cfc43371b971ab5cad554bd84b76875dc4b33835111170374045daint, 0x3b0992c1b915f5d19bcb80a70bb1da3da8b12ee6edcc29fe23abcd5363fe3d7int, 0x62524284c871bdaa336b2df85a0fca66795f5dfcb8f706bbd25f41d5ac96af3int);
    let e = lemma_chain_multiply(p, g, e, 0x62524284c871bdaa336b2df85a0fca66795f5dfcb8f706bbd25f41d5ac96af3int, 2, 0x7e36f1d00c347cdc679bb3b1f5d75e520b382172bcc8180cdb59bf272ca2844int);
    let e = lemma_chain_square(p, g, e, 0x7e36f1d00c347cdc679bb3b1f5d75e520b382172bcc8180cdb59bf272ca2844int, 0x44b4f18322173e59da70d9e46d19b4c5d8c790166e9b0628ca031911b5a481aint, 0xabe36069726ce4e97f0fd2b45fb093814e3f51951c5e38a0d4202b4c2a14f7aint);
    let e = lemma_chain_square(p, g, e, 0xabe36069726ce4e97f0fd2b45fb093814e3f51951c5e38a0d4202b4c2a14f7aint, 0x7f6e23e31f23fe22348ac058bdda0e34d7793da7d1002b8c2cb126baf0716f3int, 0xe284f9ab856474f8b9504dbbe3f0dadd9f39a1a136f363a993b5c5a5ba85a6fint);
    let e = lemma_chain_multiply(p, g, e, 0xe284f9ab856474f8b9504dbbe3f0dadd9f39a1a136f363a993b5c5a5ba85a6fint, 5, 0xc7d550c58033d902579f6216f752b0fdbacf9b974b2f2d18470e243f31e3f07int);
    let e = lemma_chain_square(p, g, e, 0xc7d550c58033d902579f6216f752b0fdbacf9b974b2f2d18470e243f31e3f07int, 0xac3b9b9cad4822ee5d721a448dfd7e0ec4266e0caea95f51e3346b6aace3923int, 0x2d834e4ccc896baf53a49111eb44f3485fd7135d75e51ef77cbc15e3126962cint);
    let e = lemma_chain_multiply(p, g, e, 0x2d834e4ccc896baf53a49111eb44f3485fd7135d75e51ef77cbc15e3126962cint, 1, 0x2938872677fd8b8b8f67b65b705a03a7d8886af3f6ddb19fe2f79d64ff05851int);
    let e = lemma_chain_square(p, g, e, 0x2938872677fd8b8b8f67b65b705a03a7d8886af3f6ddb19fe2f79d64ff05851int, 0x75416d028a6a244e0520486911cb0b6b4a7ef9075b9cf7b0fb81a2fd9738ceint, 0xbf03094b326af4e9ffccf6791e1fcb4469771923c07f31dc58f8c726cb8c65fint);
    let e = lemma_chain_square(p, g, e, 0xbf03094b326af4e9ffccf6791e1fcb4469771923c07f31dc58f8c726cb8c65fint, 0x9d5cc8caf759f57eebe61d41c2df575f564502c5303ff902836d67e738fdcecint, 0xac1b75cc0142ddccf21e5511dba326458c282d5a2cbb830bf0e27f524c39a8dint);
    let e = lemma_chain_square(p, g, e, 0xac1b75cc0142ddccf21e5511dba326458c282d5a2cbb830bf0e27f524c39a8dint, 0x7fc1594d71a8dc477a9cefc53e0776fbc951e605766d136a94de04b9336778dint, 0x77d5d612f0115c3493ae46b53f6f662c08ff2c8f8fba65d2e48e037a8953fdeint);
    let e = lemma_chain_multiply(p, g, e, 0x77d5d612f0115c3493ae46b53f6f662c08ff2c8f8fba65d2e48e037a8953fdeint, 3, 0x1771187ea6b7398a42ba980f42d154e90274efa6f8db4a6a3f016316e99f90fint);
    let e = lemma_chain_square(p, g, e, 0x1771187ea6b7398a42ba980f42d154e90274efa6f8db4a6a3f016316e99f90fint, 0x25ebd0d9542f437c75d665604e0c60bca0dc7c4f80672fb3385e18847c0a9bint, 0xc55021af742f797c3fa517f0d75dbe79b67b12b69d72f2e5e3c3ca0b630f614int);
    let e = lemma_chain_square(p, g, e, 0xc55021af742f797c3fa517f0d75dbe79b67b12b69d72f2e5e3c3ca0b630f614int, 0xa7ea79a143e2be4c7ab1a2d204f54af201d400edfc6b85e60bd687a2dea3e7aint, 0x36aecc670cbac1c90e9249ec1fbbe5a28880fe9078f5fb5f09436fe4b24d05aint);
    let e = lemma_chain_square(p, g, e, 0x36aecc670cbac1c90e9249ec1fbbe5a28880fe9078f5fb5f09436fe4b24d05aint, 0xce594c027c66ee2b00833c58b91e46944dc387e79149a4b11a6c959062e161int, 0xd6042c2e1646f51426519228ea2bd03d2f6e4728d419cd746aaa6d03edf974dint);
    let e = lemma_chain_multiply(p, g, e, 0xd6042c2e1646f51426519228ea2bd03d2f6e4728d419cd746aaa6d03edf974dint, 5, 0x7cd07fd4e582d9a6e5a6fca51cb4713b1c0b7cc4fa15a7d950ca1074669ac3bint);
    let e = lemma_chain_square(p, g, e, 0x7cd07fd4e582d9a6e5a6fca51cb4713b1c0b7cc4fa15a7d950ca1074669ac3bint, 0x4330dba94c4b65986174a85d5960c276e306bc4fe1889b55f9d68899d2599e3int, 0x2b4a1e33d7e879d09b3064a8abc4dc2b00631fb46e280d366903c61f7ec5054int);
    let e = lemma_chain_multiply(p, g, e, 0x2b4a1e33d7e879d09b3064a8abc4dc2b00631fb46e280d366903c61f7ec5054int, 1, 0x1be16690bc37e0533caeabe3f35978f79bd0b4fdc86f47196ca5becf892b541int);
    let e = lemma_chain_square(p, g, e, 0x1be16690bc37e0533caeabe3f35978f79bd0b4fdc86f47196ca5becf892b541int, 0x35a436e65850a738ff926469396c112388c1dd4be1d329e2eb98d6b1a9d876int, 0x25a161f77e0b926fd7b4a311d9132ef3838c4fe3b476d70b247bf07f00f627int);
    let e = lemma_chain_square(p, g, e, 0x25a161f77e0b926fd7b4a311d9132ef3838c4fe3b476d70b247bf07f00f627int, 0x61b802b21c0bf769d274a964d80dce3d57dab40134202340b6bcdf9c63acint, 0x1b8173d81ca572985e3ba7526a6f3cc5b1ed3442c68c862929638af1ce29fdint);
    let e = lemma_chain_multiply(p, g, e, 0x1b8173d81ca572985e3ba7526a6f3cc5b1ed3442c68c862929638af1ce29fdint, 0, 0xa508b710abe0af923565ebee7e9b6ca22b8f3990a74b24f6f85541aad4fbeeint);
    let e = lemma_chain_square(p, g, e, 0xa508b710abe0af923565ebee7e9b6ca22b8f3990a74b24f6f85541aad4fbeeint, 0x75785b20afb57dacb0f653639614033d629cac14efffd88cf3ab713c660deint, 0x90a20cdb82dd2495754160fc488c94a430fdbd91cee03866c177b7c0c752a92int);
    let e = lemma_chain_multiply(p, g, e, 0x90a20cdb82dd2495754160fc488c94a430fdbd91cee03866c177b7c0c752a92int, 3, 0xac3a6132177debcf8c2d35b979806bb9f26c55b473be39e16c7b9cbc5d97947int);
    let e = lemma_chain_square(p, g, e, 0xac3a6132177debcf8c2d35b979806bb9f26c55b473be39e16c7b9cbc5d97947int, 0x7fef44a189c69c8183fe66801ce0c433061020bf1977a283495686ad558539aint, 0xa1388a9384b28b81b7623b5780f9edc838e41939d8e01668476944f03b9f69bint);
    let e = lemma_chain_multiply(p, g, e, 0xa1388a9384b28b81b7623b5780f9edc838e41939d8e01668476944f03b9f69bint, 4, 0x27e604dbcf435ac8b27ea3ccb8ccd287bb507267e33c65bd86b405eba7f14c6int);
    let e = lemma_chain_square(p, g, e, 0x27e604dbcf435ac8b27ea3ccb8ccd287bb507267e33c65bd86b405eba7f14c6int, 0x6dda7d0827d5fae06551644ac2024651c88bbfa033b34f24f916a3b01ab0a2int, 0x88b7f9fb7a97d8dc6db27c1c3b62634ecea9ecdc5eb93e8aafae88204656d56int);
    let e = lemma_chain_multiply(p, g, e, 0x88b7f9fb7a97d8dc6db27c1c3b62634ecea9ecdc5eb93e8aafae88204656d56int, 3, 0x7cbdeff1e5de25795ed3d8792a8343b9a4757173d2d45eb901c47ef957b09dfint);
    let e = lemma_chain_square(p, g, e, 0x7cbdeff1e5de25795ed3d8792a8343b9a4757173d2d45eb901c47ef957b09dfint, 0x431ce1051c0457ee2718db3152d36f9550c8df92fb4988d2b49c6401be32086int, 0x7bae783b7fb30e690dd9a5c092740567af12c06033a49cd8414cddab46e2877int);
    let e = lemma_chain_square(p, g, e, 0x7bae783b7fb30e690dd9a5c092740567af12c06033a49cd8414cddab46e2877int, 0x41fa03a5df497c0eaafce0ba38a4ff6e3bf390abeadc4df89ace83f16ba557bint, 0xd96f7c9c6e13d15e2d6b836b46b18a7c9685fd40a724fae6925ed9193182864int);
    let e = lemma_chain_square(p, g, e, 0xd96f7c9c6e13d15e2d6b836b46b18a7c9685fd40a724fae6925ed9193182864int, 0xcbe94ae65a4aa61dc552bd21c3986f1694128e2bbdd124547be43111e612c3aint, 0x28e1bf7ce1d495b93d668232b5aad9c8bb55654851120bb5d1d376de18d19aint);
    let e = lemma_chain_square(p, g, e, 0x28e1bf7ce1d495b93d668232b5aad9c8bb55654851120bb5d1d376de18d19aint, 0x7355c096e03b89957806e75f2fcc33ec9dd466953c371827b14754f6f96fint, 0x5b4049723ea8a7bd21bcdc4c61eacd918e0f9cb49672fe1a20a0fbf6cf86e4bint);
    let e = lemma_chain_multiply(p, g, e, 0x5b4049723ea8a7bd21bcdc4c61eacd918e0f9cb49672fe1a20a0fbf6cf86e4bint, 2, 0x53cb1b60d17df94dfd85c9aa24f97154875999c1edafe442b0e41bedfe43c54int);
    let e = lemma_chain_square(p, g, e, 0x53cb1b60d17df94dfd85c9aa24f97154875999c1edafe442b0e41bedfe43c54int, 0x1e48773e8e8e9cd951a89de36b48ae97124653b736d32d2eb12ab725fe668a8int, 0xceae4fa9ff78afa9d64e4934948bad2d1bc220ce5c9c1dd7faaa98c4a0dcb78int);
    let e = lemma_chain_square(p, g, e, 0xceae4fa9ff78afa9d64e4934948bad2d1bc220ce5c9c1dd7faaa98c4a0dcb78int, 0xb83d225a0f7def8dcd7d66f57bb6ea57ba0625f35f09cdcc6d2da9e54edecc2int, 0x7ee8b3358beb609c35ecd03ede402a7b4ffc39928ffefda75b9172275f3f192int);
    let e = lemma_chain_multiply(p, g, e, 0x7ee8b3358beb609c35ecd03ede402a7b4ffc39928ffefda75b9172275f3f192int, 3, 0x41e2474e4dd353f81031d148fbb5eec4ac633db8fa76d9650915fb23ed22347int);
    let e = lemma_chain_square(p, g, e, 0x41e2474e4dd353f81031d148fbb5eec4ac633db8fa76d9650915fb23ed22347int, 0x12b8af9fa81eb695876b5a2283d72e14788161a0ef7252b658ad7669655ff1aint, 0x7de907487018f6a80bccde670f0c7c57400efc786b998722f76925f2bf0aa1bint);
    let e = lemma_chain_multiply(p, g, e, 0x7de907487018f6a80bccde670f0c7c57400efc786b998722f76925f2bf0aa1bint, 3, 0x3be43fbfa6e4d83f1372263a207fd9ec4cd3cf1c2016124ab02431e82be767dint);
    let e = lemma_chain_square(p, g, e, 0x3be43fbfa6e4d83f1372263a207fd9ec4cd3cf1c2016124ab02431e82be767dint, 0xf788507123302dc38d8bc8401c7a1566eb03d00b9a08ac1b416b47730adc24int, 0x87bfc68d5e8bdd5e6024f5c6301f1f894e5bfb2abbbbde88bd158c5730deb4dint);
    let e = lemma_chain_multiply(p, g, e, 0x87bfc68d5e8bdd5e6024f5c6301f1f894e5bfb2abbbbde88bd158c5730deb4dint, 3, 0x76ecbb5d3d9640850d82b274e6efad18a2a1c74a00e41ead522e9842d6dfda9int);
    let e = lemma_chain_square(p, g, e, 0x76ecbb5d3d9640850d82b274e6efad18a2a1c74a00e41ead522e9842d6dfda9int, 0x3cffd18407017d0a7bfdaefd70e1347153017afa067e49e392bd5bc02bc4628int, 0x9a7a10274477cf22b3b9fbef94f21e24f7d078048ed9cc5bbccffdbf60472f9int);
    let e = lemma_chain_multiply(p, g, e, 0x9a7a10274477cf22b3b9fbef94f21e24f7d078048ed9cc5bbccffdbf60472f9int, 3, 0xe74a74f8a11deb1f0300d76d43e1a4be9b5cb464f397b19f508d40b3f352bb1int);
    let e = lemma_chain_square(p, g, e, 0xe74a74f8a11deb1f0300d76d43e1a4be9b5cb464f397b19f508d40b3f352bb1int, 0xe6b9f5c95e6bfe95886576f7c853a0fca4a3f9ffb50715c55d3449e0c6632a8int, 0x546e2ec27931a76828e87ae3892f124b01f18ef79c03d489189ba027ee3da49int);
    let e = lemma_chain_square(p, g, e, 0x546e2ec27931a76828e87ae3892f124b01f18ef79c03d489189ba027ee3da49int, 0x1ebec916f35a893a39534d6d843ea1a2924f50a6d15231ecda1d9c5b25e6591int, 0x18ec51c0adde9bbb82ea6807989151882b2e8b6c90fb4e0160fb09cc3bfe22aint);
}

/// A power of a power of the root 6 modulo the prime `r`: the steps from the exponent
/// 0x1ca6c81bd4831b9d9378bc
/// to the exponent
/// 0xe53640dea418dcec9bc5eda6af6d56b.
proof fn lemma_power_r_1_part_3(p: int, g: int)
    requires
        p == r_prime(),
        g == 6,
        pow_mod(g, 0x1ca6c81bd4831b9d9378bcnat, p) == 0x18ec51c0adde9bbb82ea6807989151882b2e8b6c90fb4e0160fb09cc3bfe22aint,
    ensures
        pow_mod(g, 0xe53640dea418dcec9bc5eda6af6d56bnat, p) == 0x57711fd6575d51ec1223a1f50b7f9fcc332ffd9e472446bc7c0f5a58565b1d9int,
{
    let e: nat = 0x1ca6c81bd4831b9d9378bcnat;
    let e = lemma_chain_multiply(p, g, e, 0x18ec51c0adde9bbb82ea6807989151882b2e8b6c90fb4e0160fb09cc3bfe22aint, 0, 0x9589ea841337a665117e702d9367e9310317448b65e3d40845e23ac967f4cfcint);
    let e = lemma_chain_square(p, g, e, 0x9589ea841337a665117e702d9367e9310317448b65e3d40845e23ac967f4cfcint, 0x60726150b506e02f590996af8e882b2ba682190c6030cdb1a97e7c3a0b40e8cint, 0x6a3a686413189c336feb1d00005e3936f666a0dd129852457a5ea62e4e421fcint);
    let e = lemma_chain_multiply(p, g, e, 0x6a3a686413189c336feb1d00005e3936f666a0dd129852457a5ea62e4e421fcint, 2, 0xada7d50bcc1db413d29b4ddfdbadf734f963b2b4d68fdd46cb56193af6a727aint);
    let e = lemma_chain_square(p, g, e, 0xada7d50bcc1db413d29b4ddfdbadf734f963b2b4d68fdd46cb56193af6a727aint, 0x821073315b3305055bad99d7d21d8719694db2069c63d10c64800ed3b936ff9int, 0x341afc917a7a48636bfbb762840207eaf4fc806085e263bc941bac5af560b25int);
    let e = lemma_chain_square(p, g, e, 0x341afc917a7a48636bfbb762840207eaf4fc806085e263bc941bac5af560b25int, 0xbb5af928620a3ae9a575f0e7c13893c21d94c4263ab924941c6854fb3c4e73int, 0x9acf65897d06fee0307a142842916d78e28072b3a75acce64fb922e4acb5b24int);
    let e = lemma_chain_multiply(p, g, e, 0x9acf65897d06fee0307a142842916d78e28072b3a75acce64fb922e4acb5b24int, 4, 0x16f269fa13e0eff890db8b14259d0abb4fa8b42ba1cacb1b89339a64e76ffcint);
    let e = lemma_chain_square(p, g, e, 0x16f269fa13e0eff890db8b14259d0abb4fa8b42ba1cacb1b89339a64e76ffcint, 0x2456484e2229352be8e0c94f8814100f0fb33d002e859c4e74d51c6e75e9int, 0x75c3ce2002862fe00ee9a210e369d1af4208814857adb7c5990cffb50bb2a81int);
    let e = lemma_chain_multiply(p, g, e, 0x75c3ce2002862fe00ee9a210e369d1af4208814857adb7c5990cffb50bb2a81int, 3, 0xb04e8cd15742f8f261ebc351aafd9fc58acebfba88f361a79fb4c75f7d78e1int);
    let e = lemma_chain_square(p, g, e, 0xb04e8cd15742f8f261ebc351aafd9fc58acebfba88f361a79fb4c75f7d78e1int, 0x8610e6996a58f82b9aa06905e3e8353ab9de4f3ffa32cd20b5da1375e10ddint, 0x499c986a8d9ebb2c1adf8c06ef98b367ebe8a08a010e09e8f4cba40806eabc6int);
    let e = lemma_chain_square(p, g, e, 0x499c986a8d9ebb2c1adf8c06ef98b367ebe8a08a010e09e8f4cba40806eabc6int, 0x175eeea04993907e7fbaf31fc94fe149deaa8ae1d08b77fe816c5b3f5a4282eint, 0x716a04ae2b28b48326785ae28e31127ee006cf9ca581dfe3919b4e409c77c42int);
    let e = lemma_chain_multiply(p, g, e, 0x716a04ae2b28b48326785ae28e31127ee006cf9ca581dfe3919b4e409c77c42int, 2, 0xd8c57ec85c7e45f219eac12f2e9f0ee47324cb3248092efb56c209a8cbe901eint);
    let e = lemma_chain_square(p, g, e, 0xd8c57ec85c7e45f219eac12f2e9f0ee47324cb3248092efb56c209a8cbe901eint, 0xcaaaf160ac0f846f1fe1cc7ae56ee0b8d362c04b58d533d92a2bfaf058123aaint, 0xab2e8555db611d0fd6edce8a4e6317ea378e7b6e30e8f01981cae67320cfeint);
    let e = lemma_chain_square(p, g, e, 0xab2e8555db611d0fd6edce8a4e6317ea378e7b6e30e8f01981cae67320cfeint, 0x7e6288d23ccadd4d3fb60972eaea3170b4962e9415fd00f942d5fda583eint, 0xaf4f66222af0e98f46bb2cc0ee5a563cbc74c853e445baaf006046973cf0fb2int);
    let e = lemma_chain_square(p, g, e, 0xaf4f66222af0e98f46bb2cc0ee5a563cbc74c853e445baaf006046973cf0fb2int, 0x848df506903588cfd7e6c64d5180f0b802103130f90d6d3e4bd07cf9bb124d4int, 0x7fd1a24f607c73f859c6f2d6fe18d1c2b01feef9e17e3163f0b70e1d0509438int);
    let e = lemma_chain_multiply(p, g, e, 0x7fd1a24f607c73f859c6f2d6fe18d1c2b01feef9e17e3163f0b70e1d0509438int, 3, 0x4757e1e94939c820e74ea0d9bac9da70ed397e24e3720fd087f7a2e5cfdf32bint);
    let e = lemma_chain_square(p, g, e, 0x4757e1e94939c820e74ea0d9bac9da70ed397e24e3720fd087f7a2e5cfdf32bint, 0x15f3dffb11fe4e02ee425b650b4d676f76790b6e6b8cbcd141f0b9a209ef67eint, 0x2dc08efc05d9d4555c0904ca009939d6ac5febeef8250135c2457aba666cd27int);
    let e = lemma_chain_multiply(p, g, e, 0x2dc08efc05d9d4555c0904ca009939d6ac5febeef8250135c2457aba666cd27int, 1, 0x2aa80b41cfdfff6fc1c26cabf053aafda3bd7e5d045cff15842ffa70f71a233int);
    let e = lemma_chain_square(p, g, e, 0x2aa80b41cfdfff6fc1c26cabf053aafda3bd7e5d045cff15842ffa70f71a233int, 0x7d90afd7efc8bb53ba66fc7388f372e7367650abb9a66f6bff25e7a09d93c1int, 0xc16e2423c61fd4c072439224cddf722d5c73100a1cb22006b2e5362c689cb32int);
    let e = lemma_chain_square(p, g, e, 0xc16e2423c61fd4c072439224cddf722d5c73100a1cb22006b2e5362c689cb32int, 0xa15f52d863ae5b8fa0fd9b31ef86a449f6d02a7297aede7cb39bc02356de731int, 0xad212c4115ccf1121b58e003855da50a64d4a1b2add567386eba9b65938a5bdint);
    let e = lemma_chain_multiply(p, g, e, 0xad212c4115ccf1121b58e003855da50a64d4a1b2add567386eba9b65938a5bdint, 4, 0x6f59ceed35e1bc2b0a467fd4d3231e14c2f3a53ce0fc4a9e729c0cabb772f92int);
    let e = lemma_chain_square(p, g, e, 0x6f59ceed35e1bc2b0a467fd4d3231e14c2f3a53ce0fc4a9e729c0cabb772f92int, 0x357a1dfb2a801c45a3a37f07520d9c8bed5e91d214852bfc161acf3ebb4acadint, 0x3ac90c6f288bf3fa42d6c76aeaa97e3e5aa85a17c2b83b3cbb8952c9d2c399int);
    let e = lemma_chain_square(p, g, e, 0x3ac90c6f288bf3fa42d6c76aeaa97e3e5aa85a17c2b83b3cbb8952c9d2c399int, 0xee78fe83ac1c5bc7fd9b7884fecffa924d796bf7a3374c94dad3ea0ab5d7int, 0x258797e8df3203fef069f47020744fedeef4f69ca6d7cd0e52f8fb06d1c80c0int);
    let e = lemma_chain_multiply(p, g, e, 0x258797e8df3203fef069f47020744fedeef4f69ca6d7cd0e52f8fb06d1c80c0int, 0, 0xe12d8f753b2c17f9a27bbaa0c2b9df9399bdc7abe90ece55f1d5e228eab0480int);
    let e = lemma_chain_square(p, g, e, 0xe12d8f753b2c17f9a27bbaa0c2b9df9399bdc7abe90ece55f1d5e228eab0480int, 0xdab11034004fe1ee4b2b59df2009c80a641ee06622c451ceaab46050daa663dint, 0x357c85e0816de34c49a0c7776404ab4463466d8129d8093a454f00151d7ae65int);
    let e = lemma_chain_square(p, g, e, 0x357c85e0816de34c49a0c7776404ab4463466d8129d8093a454f00151d7ae65int, 0xc56b15f0a8cb99ceb611abe10104396faed27d1af549358fe2a7e8f4ff236cint, 0xb32d6a69d2dcd284afe636602454f57178a21cb5fcd0750e25849c9dcc691a5int);
    let e = lemma_chain_multiply(p, g, e, 0xb32d6a69d2dcd284afe636602454f57178a21cb5fcd0750e25849c9dcc691a5int, 4, 0x93a343e1a44104da859686008cef007f39c48750bade9da0bb5813fd0cab702int);
    let e = lemma_chain_square(p, g, e, 0x93a343e1a44104da859686008cef007f39c48750bade9da0bb5813fd0cab702int, 0x5e02a0a34b6faad2e72e5811251fe0be8952f672927c7284bb7c187628f0874int, 0xe30d1aee8b2da9099bfeea49817f1beb64178d67ee70dfad44a6882685ce118int);
    let e = lemma_chain_multiply(p, g, e, 0xe30d1aee8b2da9099bfeea49817f1beb64178d67ee70dfad44a6882685ce118int, 5, 0xcb061857a2eb1167a7b70d68a8a837505803223f9820152e6cb2b343f5966fdint);
    let e = lemma_chain_square(p, g, e, 0xcb061857a2eb1167a7b70d68a8a837505803223f9820152e6cb2b343f5966fdint, 0xb1c6c8ad51aa6db78a71fa6d3dcc01c2f7b4a832ca1d301a8ac3e2a24faa2c9int, 0x1efce83292e2e74b29eb9a9fc5400038f117499b96fffdec4f55080b244ac5aint);
    let e = lemma_chain_multiply(p, g, e, 0x1efce83292e2e74b29eb9a9fc5400038f117499b96fffdec4f55080b244ac5aint, 0, 0xb9ed712f71516bc2fb859fbe9f800155a68bb9a589fff389dbfe3042d9c0a1cint);
    let e = lemma_chain_square(p, g, e, 0xb9ed712f71516bc2fb859fbe9f800155a68bb9a589fff389dbfe3042d9c0a1cint, 0x9518ba066b7b9573a3922958d4b480549e8e8f21274c8f11ae471a43c850a34int, 0x34088cb01b97db56611c7434e05a5b3e051f0604b9623466bbe8abfb97ef7e4int);
    let e = lemma_chain_multiply(p, g, e, 0x34088cb01b97db56611c7434e05a5b3e051f0604b9623466bbe8abfb97ef7e4int, 1, 0x5057fd7a52542975e037092d2eda7369b8381adf8bcc323b5e0321f8202a2a1int);
    let e = lemma_chain_square(p, g, e, 0x5057fd7a52542975e037092d2eda7369b8381adf8bcc323b5e0321f8202a2a1int, 0x1bd74914851a6cb95a7f1d8945d6d651fa796fe15732cfbb9fe8c053e3ef66eint, 0x86b1651c67cfccb600afd31ec004df57dbdbc9fec370f27d257c49a6c55189fint);
    let e = lemma_chain_square(p, g, e, 0x86b1651c67cfccb600afd31ec004df57dbdbc9fec370f27d257c49a6c55189fint, 0x4e3f582811ff18f153311a3dac4762a1a76faf696cb0f2196a3ced14b4091b9int, 0x3e5676930cc7d88699129dd33fe7d5a8f8d2915153e897aa4b5fac460413b82int);
    let e = lemma_chain_multiply(p, g, e, 0x3e5676930cc7d88699129dd33fe7d5a8f8d2915153e897aa4b5fac460413b82int, 1, 0x8e2b78cbf97418972ffc02e36c2b51eb6e6d5eab2af285d0bacd23b6a903855int);
    let e = lemma_chain_square(p, g, e, 0x8e2b78cbf97418972ffc02e36c2b51eb6e6d5eab2af285d0bacd23b6a903855int, 0x572cf74a7878744b2c2010ed0d972bc904fd9754817e420c96ebee19975a1f1int, 0x3a42a7a6981486c2e75163b440d8bf2b6d0082c14f127f70158e7122f921cf2int);
    let e = lemma_chain_multiply(p, g, e, 0x3a42a7a6981486c2e75163b440d8bf2b6d0082c14f127f70158e7122f921cf2int, 1, 0x75b49f413d402e010574a62971d0cafa2781074b0dedf47377e5c0e467580f5int);
    let e = lemma_chain_square(p, g, e, 0x75b49f413d402e010574a62971d0cafa2781074b0dedf47377e5c0e467580f5int, 0x3bc1485e95b20d501b276c08a50015802a54b26be467d76d54ffd20304f890cint, 0x7611974b78c10c37ee8662c841f7ee66f0097b3657d853669331d3ba5eae2e5int);
    let e = lemma_chain_square(p, g, e, 0x7611974b78c10c37ee8662c841f7ee66f0097b3657d853669331d3ba5eae2e5int, 0x3c1fd28ce6631503494e5ecf081266fb6e524b55dff1669055e2f189e794a31int, 0xccefbbe1a378d22d9dafd4c8f0948aab67c72a680b9a428ed4dfaad1901abd2int);
    let e = lemma_chain_multiply(p, g, e, 0xccefbbe1a378d22d9dafd4c8f0948aab67c72a680b9a428ed4dfaad1901abd2int, 5, 0x4655de0a34ae083fb1dc8c654328cfd06e20d04047186677ce0983463362759int);
    let e = lemma_chain_square(p, g, e, 0x4655de0a34ae083fb1dc8c654328cfd06e20d04047186677ce0983463362759int, 0x15563637b5eb343144e3046f5ead328896e26a797ef077c3007b9019f592375int, 0x9a9d1341901a28387556dd814a6b5febcbbaa90da39ebcaf52764e436e4c84eint);
    let e = lemma_chain_multiply(p, g, e, 0x9a9d1341901a28387556dd814a6b5febcbbaa90da39ebcaf52764e436e4c84eint, 4, 0x4138f013b10711263a70c771757f5d2c57d15ea3b44b67c9023dded7ffef8int);
    let e = lemma_chain_square(p, g, e, 0x4138f013b10711263a70c771757f5d2c57d15ea3b44b67c9023dded7ffef8int, 0x1258ee1e231f5534f77b96978dff2e632b7c6d72926042edbfe1a9a64beint, 0x93671c4363775ffd7a310093fe4f3cb9a2f0a9dc39ae6c8480f3a1c9300646eint);
    let e = lemma_chain_square(p, g, e, 0x93671c4363775ffd7a310093fe4f3cb9a2f0a9dc39ae6c8480f3a1c9300646eint, 0x5db6146e0e0a8f8a0ed446c0f96f3b8b48f6f63b45e778c4636fda426e39222int, 0x37e27b1433526d613b3603facc25a0b5c1a9300f4c96b272c7e762926ccd0f6int);
    let e = lemma_chain_multiply(p, g, e, 0x37e27b1433526d613b3603facc25a0b5c1a9300f4c96b272c7e762926ccd0f6int, 1, 0x677393d2e0b395b6fcd067d0b59e14382375171eff072683a5fb69811d5b90dint);
    let e = lemma_chain_square(p, g, e, 0x677393d2e0b395b6fcd067d0b59e14382375171eff072683a5fb69811d5b90dint, 0x2e28a2032da7bdbb3a8ac2f63b663106742dc2b4fa4eb6892025795446d7b58int, 0x57c4b586976227d3d9fef0f75bba587e7e957c86e5eba5fe10167ece2077ec1int);
    let e = lemma_chain_square(p, g, e, 0x57c4b586976227d3d9fef0f75bba587e7e957c86e5eba5fe10167ece2077ec1int, 0x2139702361c4f0989210f69e8a5bb9d62455b7978fb2390a979fa27ec372433int, 0x660960d5880f4be7a38d116354e54e01e7b5771dce86e6e696978890c77e90cint);
    let e = lemma_chain_multiply(p, g, e, 0x660960d5880f4be7a38d116354e54e01e7b5771dce86e6e696978890c77e90cint, 2, 0x9481a7b489e5d24d08670833d6d873f6a13cb8393e27590d74ab6789ce11cdaint);
    let e = lemma_chain_square(p, g, e, 0x9481a7b489e5d24d08670833d6d873f6a13cb8393e27590d74ab6789ce11cdaint, 0x5f1eae1bd100cc099c1dd4d41655883e2ddaced22794bf91b23f915a5548c5aint, 0x50f57b1f76969416d976ba5813786dfaae5e0a911141e7b22cfb7a70c0e9d4eint);
    let e = lemma_chain_square(p, g, e, 0x50f57b1f76969416d976ba5813786dfaae5e0a911141e7b22cfb7a70c0e9d4eint, 0x1c44da0e0c7b30061c26c73ad057c32c1605156ba0731b1232b5b7dbab5f1e8int, 0xb6acd6f16774431d902c23cbf1ff485f20ff0db24a8279212af5b6cd0b4f6ecint);
    let e = lemma_chain_multiply(p, g, e, 0xb6acd6f16774431d902c23cbf1ff485f20ff0db24a8279212af5b6cd0b4f6ecint, 4, 0xa89fcf0f1fcda86fc73a16875eecf2112bf22d3a8d0ab612dbfeb11886116acint);
    let e = lemma_chain_square(p, g, e, 0xa89fcf0f1fcda86fc73a16875eecf2112bf22d3a8d0ab612dbfeb11886116acint, 0x7aa2ff58945903b011c15cb75048bcec459e2f383c1617722ab126a0a61e9ebint, 0x5048eb6402ae4ac277d0b0d2657ea6d53a8466edba9798c450617dd8c6a6893int);
    let e = lemma_chain_square(p, g, e, 0x5048eb6402ae4ac277d0b0d2657ea6d53a8466edba9798c450617dd8c6a6893int, 0x1bccd839f8470f8543592b24b7605fc75fcf9eb3f1ba83f2d2616f15b8fb16dint, 0x110e25da2d20adbdad78215bd890bd19b10582b0c08045b971412291812337eint);
    let e = lemma_chain_multiply(p, g, e, 0x110e25da2d20adbdad78215bd890bd19b10582b0c08045b971412291812337eint, 0, 0x6654e31d0ec4127210d0c82713646e9a262110248301a258a786cf6906d34f4int);
    let e = lemma_chain_square(p, g, e, 0x6654e31d0ec4127210d0c82713646e9a262110248301a258a786cf6906d34f4int, 0x2d2a2ebb150f99e581ef60c298151ed4f38ba272dd9dcae45c38a4c95a25262int, 0x6230d47cfc5ef270505751cbe61b8ba3e8be23aadae6bbec359fc2a5cfc4c82int);
    let e = lemma_chain_multiply(p, g, e, 0x6230d47cfc5ef270505751cbe61b8ba3e8be23aadae6bbec359fc2a5cfc4c82int, 2, 0x7d6e5da143c3b98115248aa73e1de5c2a770c3878866572f2edcc407ffb719eint);
    let e = lemma_chain_square(p, g, e, 0x7d6e5da143c3b98115248aa73e1de5c2a770c3878866572f2edcc407ffb719eint, 0x43db3ebcfa752439a9fc9cfcdddd4501ef6d121a3346cbc8eed07439b79374bint, 0xa44e286271955ce5921f40488494c722c36b123dc8c925a5dac82eebdbc72e7int);
    let e = lemma_chain_square(p, g, e, 0xa44e286271955ce5921f40488494c722c36b123dc8c925a5dac82eebdbc72e7int, 0x746f5c9c375fe9c9072c3442ac7aeddd7ddaccf60ae2123d494a4528ab75839int, 0x9721b384b47baa7246180d0674abec7b71a4509564b47e29a42c9799ba1afb2int);
    let e = lemma_chain_multiply(p, g, e, 0x9721b384b47baa7246180d0674abec7b71a4509564b47e29a42c9799ba1afb2int, 3, 0xd338492941350efc71353df6823c7ac57653c7c9f6b7dc72bcb8dbd20e49807int);
    let e = lemma_chain_square(p, g, e, 0xd338492941350efc71353df6823c7ac57653c7c9f6b7dc72bcb8dbd20e49807int, 0xc06b7d2074b1e1c5d5de233c15c4044ba17a38efa2b2b0fdec2d99f29922b9eint, 0x7d71ce875fa09f3019d2a86fde6598aa85386a15be5ca4abe114208e651fa3fint);
    let e = lemma_chain_square(p, g, e, 0x7d71ce875fa09f3019d2a86fde6598aa85386a15be5ca4abe114208e651fa3fint, 0x43def7e57d3ed23e47a8779d91c5afc531654eaf0e75dfd790800da08b5b2eaint, 0xab382c25d6f047810319954beae61a30d301033f5e8418074b2a9b2d413fe3bint);
    let e = lemma_chain_multiply(p, g, e, 0xab382c25d6f047810319954beae61a30d301033f5e8418074b2a9b2d413fe3bint, 4, 0x63e3ce49bcb5c2c478cabf873455dcfb57fdee8905146f779d3c0b59c9b4286int);
    let e = lemma_chain_square(p, g, e, 0x63e3ce49bcb5c2c478cabf873455dcfb57fdee8905146f779d3c0b59c9b4286int, 0x2b08ff4768760af4d71fd7f9792f8afdec14a19426f8d148f0c826ddd48db54int, 0x353767bf71c40cbf696e8dab85208d4e6ef30124834637d196400ab64ba2518int);
    let e = lemma_chain_multiply(p, g, e, 0x353767bf71c40cbf696e8dab85208d4e6ef30124834637d196400ab64ba2518int, 1, 0x57711fd6575d51ec1223a1f50b7f9fcc332ffd9e472446bc7c0f5a58565b1d9int);
}

/// A power of a power of the root 6 modulo the prime `r`: the steps from the exponent
/// 0xe53640dea418dcec9bc5eda6af6d56b
/// to the exponent
/// 0xe53640dea418dcec9bc5eda6af6d56b20226277b.
proof fn lemma_power_r_1_part_4(p: int, g: int)
    requires
        p == r_prime(),
        g == 6,
        pow_mod(g, 0xe53640dea418dcec9bc5eda6af6d56bnat, p) == 0x57711fd6575d51ec1223a1f50b7f9fcc332ffd9e472446bc7c0f5a58565b1d9int,
    ensures
        pow_mod(g, 0xe53640dea418dcec9bc5eda6af6d56b20226277bnat, p) == 0xe202e797a88364260be56fa670b57120e46cdd525b0dfd6021986ce4279e2dcint,
{
    let e: nat = 0xe53640dea418dcec9bc5eda6af6d56bnat;
    let e = lemma_chain_square(p, g, e, 0x57711fd6575d51ec1223a1f50b7f9fcc332ffd9e472446bc7c0f5a58565b1d9int, 0x20fa4641697dff8971c58be03e3f8bddc6c32fc39a3520084879c934e9d6124int, 0xd168f585608fcbfb354b17fb391e43452915817e7c7137bbd7b23d639d92935int);
    let e = lemma_chain_square(p, g, e, 0xd168f585608fcbfb354b17fb391e43452915817e7c7137bbd7b23d639d92935int, 0xbd22ee31bffa894772b95854f424894d2484e10e3e0520abbe2e7446af19aeeint, 0x8dea7b968b4dba3b2e5fbf2ce46a10ba5dd7b943a16f01a1f67acdf13835cd7int);
    let e = lemma_chain_square(p, g, e, 0x8dea7b968b4dba3b2e5fbf2ce46a10ba5dd7b943a16f01a1f67acdf13835cd7int, 0x56dd564f01dc6a8746e0dac7d70598cd9f98499fbf3a9b3436833a86543d1dfint, 0x3e3ec414dcb2b0ef394c152de7deddd15c59a98988e3ae1b8b2e3381bfee228int);
    let e = lemma_chain_multiply(p, g, e, 0x3e3ec414dcb2b0ef394c152de7deddd15c59a98988e3ae1b8b2e3381bfee228int, 1, 0x8d9d49d6d8f52b0af154cf035bf582ddc397effc68d50c7839a44f1d1022039int);
    let e = lemma_chain_square(p, g, e, 0x8d9d49d6d8f52b0af154cf035bf582ddc397effc68d50c7839a44f1d1022039int, 0x567ef046cfe58426fb96b436f8787922afd7ee5caa61e06cf9f6f3bb3b45c4aint, 0xb3a729c7a30adfcc78985a0a5022e506e32d19bb195578af6818e0c39c19bcbint);
    let e = lemma_chain_square(p, g, e, 0xb3a729c7a30adfcc78985a0a5022e506e32d19bb195578af6818e0c39c19bcbint, 0x8b3405e28278e7afb82deb87d881218178fc2272b4a2caaa7f4fc12ed896babint, 0x7a48b853079344daf2c3e39f7e3f403fcd2274fb64cfaca041c34176d2b17bcint);
    let e = lemma_chain_square(p, g, e, 0x7a48b853079344daf2c3e39f7e3f403fcd2274fb64cfaca041c34176d2b17bcint, 0x407e7eafac9f70826f6c70a0bd0e18a47de3329145cb85badfca3ab3fcaebf7int, 0x2389c76ee28404a508ddc05d82305cad759c25360ef901f1dac9a21736d307fint);
    let e = lemma_chain_square(p, g, e, 0x2389c76ee28404a508ddc05d82305cad759c25360ef901f1dac9a21736d307fint, 0x57279fe73689a5f5432931baeceec31ad71ce2e70899b7e1e53f6376612507int, 0x9a5940b6b65c270adc8e8d3168e3a49073fac389c9aef53c6adc52f89c63300int);
    let e = lemma_chain_square(p, g, e, 0x9a5940b6b65c270adc8e8d3168e3a49073fac389c9aef53c6adc52f89c63300int, 0x66c04151a51bc369c00679ce73cd36c1041b7b3b158f933592f48e0663f78cdint, 0x7695b3689bfa4676dd6656587a8c6fb0ffe00d3b5bf75623d46848e023b6975int);
    let e = lemma_chain_square(p, g, e, 0x7695b3689bfa4676dd6656587a8c6fb0ffe00d3b5bf75623d46848e023b6975int, 0x3ca6aa5bd0682f43a839bb211293e8cbff7d79bbdc08cfb5b14e5ef4f36e80eint, 0xba379f9cc601e98dd29bec2c306578176e8a4ac9e3513733bfbd472f1bae577int);
    let e = lemma_chain_square(p, g, e, 0xba379f9cc601e98dd29bec2c306578176e8a4ac9e3513733bfbd472f1bae577int, 0x958fcae022909c19d40316ad176f7882b41eb2b9fa317c2dcd8a809e5d5c73eint, 0x2c5d9d5cd160bbe6fe601521c54714dfc2e9c4e44f56b80db70d4f31b807ffint);
    let e = lemma_chain_square(p, g, e, 0x2c5d9d5cd160bbe6fe601521c54714dfc2e9c4e44f56b80db70d4f31b807ffint, 0x87d466d5d3cfd076b5e47b14ed104b92561c08fd531c802ec24204a42b7eint, 0x7fde70dd2a66b5a67b675f61a848df2848aed548436a278c04003ba496930efint);
    let e = lemma_chain_multiply(p, g, e, 0x7fde70dd2a66b5a67b675f61a848df2848aed548436a278c04003ba496930efint, 3, 0x47a4b93c04b75235b1112c19b7ea2ad28092e3fb2ef9d4c0fbaeb4133919f75int);
    let e = lemma_chain_square(p, g, e, 0x47a4b93c04b75235b1112c19b7ea2ad28092e3fb2ef9d4c0fbaeb4133919f75int, 0x162343591b68fa6403c04db8f889c9fa5e9d3a56fec2ab7c0f6fc18c6f23fabint, 0xcab58f26282ed05eb9ca01bb9991bd2d8a215713a66140de0b6782269c2a43cint);
    let e = lemma_chain_square(p, g, e, 0xcab58f26282ed05eb9ca01bb9991bd2d8a215713a66140de0b6782269c2a43cint, 0xb139da064775d9fa369da3896c894059eaa3f361b957fd2debc04911422c0fcint, 0x66c16eb590d98e521b12e4ef07577f227f0e77fd7562b262ab8cc185325a9ecint);
    let e = lemma_chain_square(p, g, e, 0x66c16eb590d98e521b12e4ef07577f227f0e77fd7562b262ab8cc185325a9ecint, 0x2d8a320d9e3428ee87fd8391033491107a27b34375a4535fd640906a9927c3aint, 0xa7ce815c519751634ff8c252b157f2dd98cbcdd220f19112418fb96d9faac1aint);
    let e = lemma_chain_square(p, g, e, 0xa7ce815c519751634ff8c252b157f2dd98cbcdd220f19112418fb96d9faac1aint, 0x79734ab5b0290ca694d1a8da5ed7978ab36b2f2de8a33e5125a2a0987478774int, 0x78824e18caa3e395fe3670742db8de05b84e405855f041a6eaa81ca02252eb8int);
    let e = lemma_chain_multiply(p, g, e, 0x78824e18caa3e395fe3670742db8de05b84e405855f041a6eaa81ca02252eb8int, 3, 0x1b7be8a1c62665d2c1eb9288d88a24031e4f665b9e1e7162639df9f87f9922bint);
    let e = lemma_chain_square(p, g, e, 0x1b7be8a1c62665d2c1eb9288d88a24031e4f665b9e1e7162639df9f87f9922bint, 0x3420744c1a6f16c100fd91df6562e402d5c3f0878a4ce35a16d1be0dccd83aint, 0x2a987579fb0aabdf14c633e5f529369b21351eb3e423d5f5883eef4d68c89c3int);
    let e = lemma_chain_square(p, g, e, 0x2a987579fb0aabdf14c633e5f529369b21351eb3e423d5f5883eef4d68c89c3int, 0x7d34ffa4b728b8a9ef942df86e45aa045fbaf1c4f5c3d40da6fe22077e4bb4int, 0x802c54dff7f1e71167a24f238dbf935bcc2783d3c696d8d62987d5868733cddint);
    let e = lemma_chain_square(p, g, e, 0x802c54dff7f1e71167a24f238dbf935bcc2783d3c696d8d62987d5868733cddint, 0x46db0dbafd9d0868960f6bc4c15136368c26c29c267016cb1362b41b6b3a7d3int, 0x3fe2fa4171679d96d96a389c760ec1be2bc76ef61795f3efed3a8c7832c1af4int);
    let e = lemma_chain_multiply(p, g, e, 0x3fe2fa4171679d96d96a389c760ec1be2bc76ef61795f3efed3a8c7832c1af4int, 1, 0x97768ee25532b6f8b209a39ab114da6aa02a9087c102af7285ee64e3c117501int);
    let e = lemma_chain_square(p, g, e, 0x97768ee25532b6f8b209a39ab114da6aa02a9087c102af7285ee64e3c117501int, 0x62f1f096f55f687f2ca41cc786ec93af402948f518b35f91f089b4d90b1596aint, 0x8bd0132d3a6061b8835785286a0d59d0984a4fbb41812223989728c6c30c73bint);
    let e = lemma_chain_multiply(p, g, e, 0x8bd0132d3a6061b8835785286a0d59d0984a4fbb41812223989728c6c30c73bint, 3, 0x8f4e871c64915aa1e0b20ec242850ac45e37c2ad2383b44e773842e043f253dint);
    let e = lemma_chain_square(p, g, e, 0x8f4e871c64915aa1e0b20ec242850ac45e37c2ad2383b44e773842e043f253dint, 0x58935517624c893136cbd7d66a3bab670d92f01c9c614884be52dfd7270f739int, 0xe7d444930ae7005e7f035152ceae34f399a06fa94161c2ef86a243ada332acaint);
    let e = lemma_chain_square(p, g, e, 0xe7d444930ae7005e7f035152ceae34f399a06fa94161c2ef86a243ada332acaint, 0xe7cd3ab678f775b94e5ee1895fdbc7f00efcdc713f55ebc66d9b8c21738e68eint, 0xe0f684f607d94dd3b59c322706889ed218d81234303535d57268f209353afe2int);
    let e = lemma_chain_square(p, g, e, 0xe0f684f607d94dd3b59c322706889ed218d81234303535d57268f209353afe2int, 0xda4634099266067f8e28af25b36e26fede41d7cbf52c0f87c5e3f8f555f0c95int, 0x82f4021f85345b56f21be7852e2583c70f443a8267d780234dd01c702842901int);
    let e = lemma_chain_square(p, g, e, 0x82f4021f85345b56f21be7852e2583c70f443a8267d780234dd01c702842901int, 0x49f66f09e5ad1192a6f4e9884385cce346a898a17b45dbda72677f980cc1e4bint, 0xa289a66b87307a5d6d91a39bc3768a5460540fcb4b8261e762d5120401dc664int);
    let e = lemma_chain_multiply(p, g, e, 0xa289a66b87307a5d6d91a39bc3768a5460540fcb4b8261e762d5120401dc664int, 4, 0x2fccabebde36f3eef79b156647b87dd0a7f039d0930a2ab82b3ad4624d5f37cint);
    let e = lemma_chain_square(p, g, e, 0x2fccabebde36f3eef79b156647b87dd0a7f039d0930a2ab82b3ad4624d5f37cint, 0x9dab5588727cee8ac6d902db530736374ec7131d8bdc314dfc7d0faa133d6eint, 0x1a4880fa70770c2c522f031e0b428bb296539780c28eb2bc137c75dd87ad26eint);
    let e = lemma_chain_square(p, g, e, 0x1a4880fa70770c2c522f031e0b428bb296539780c28eb2bc137c75dd87ad26eint, 0x2fabddb58452843f4624f51938c620ca88da1041cea66bfdd10d3e2474ddabint, 0xd037de757d05cfbcb7b560a37fb5972f21678f576b7beb2ababa369e62fce07int);
    let e = lemma_chain_square(p, g, e, 0xd037de757d05cfbcb7b560a37fb5972f21678f576b7beb2ababa369e62fce07int, 0xbafd6443600c69a279348b54a74c9d2af92936cac4788c8c5f94085f03e692dint, 0xb4162dcce00f0ade86acca873fff9f595de1aebdf14fd5c4b5ea92d51455906int);
    let e = lemma_chain_multiply(p, g, e, 0xb4162dcce00f0ade86acca873fff9f595de1aebdf14fd5c4b5ea92d51455906int, 4, 0x9917d833f36e56f58e3dfeeb32eefbee9941f38075dae1e81dbbd948bc36348int);
    let e = lemma_chain_square(p, g, e, 0x9917d833f36e56f58e3dfeeb32eefbee9941f38075dae1e81dbbd948bc36348int, 0x6516116ac9c5c4d45bf18dbd4ca35e42cc65c265d037dee8382822c52002f73int, 0x97e703caefe3f27feb1e6b0742a1302f2fef2f7d8dd6223288365805f2150bint);
    let e = lemma_chain_multiply(p, g, e, 0x97e703caefe3f27feb1e6b0742a1302f2fef2f7d8dd6223288365805f2150bint, 0, 0x38f6a16c19f57aeff82b6822b8fc7211b1f9b1cf15304cd2f31461023ac7e42int);
    let e = lemma_chain_square(p, g, e, 0x38f6a16c19f57aeff82b6822b8fc7211b1f9b1cf15304cd2f31461023ac7e42int, 0xdfeb6e2eea187570ee4f8504a37b293d591137906dfa3ea2e47581ffef2f39int, 0x817f4ae8bb9b7cf07c62cff4756908ffd6f8af70e57341165eed0e6acdd7b45int);
    let e = lemma_chain_multiply(p, g, e, 0x817f4ae8bb9b7cf07c62cff4756908ffd6f8af70e57341165eed0e6acdd7b45int, 3, 0x5169d5816bf3fdf1b6f5cf8a86ab25dfd64e00eefb306dff1d3ba4b884b5d79int);
    let e = lemma_chain_square(p, g, e, 0x5169d5816bf3fdf1b6f5cf8a86ab25dfd64e00eefb306dff1d3ba4b884b5d79int, 0x1c9655db5433c63ba20fae6ef3d79a55818636adadb5c435c81401c5e82c1f2int, 0x2f799670f4e27fb27d1d23482c0e1edabb1a2228e8769d5c5dc1cbb01bae733int);
    let e = lemma_chain_square(p, g, e, 0x2f799670f4e27fb27d1d23482c0e1edabb1a2228e8769d5c5dc1cbb01bae733int, 0x9b8914cac38c82813c8110d608469c505935e3e548db14e83578f131efc8c0int, 0x6d5eb8df10480bb1cd5e9a94771b7f9b5aa2c26de58de08eb8d2b1a12bf92e9int);
    let e = lemma_chain_multiply(p, g, e, 0x6d5eb8df10480bb1cd5e9a94771b7f9b5aa2c26de58de08eb8d2b1a12bf92e9int, 2, 0xc081b7edbb3a510a03503f5aa41d9d8f52cc7c19c85132fe420e5dec28f1808int);
    let e = lemma_chain_square(p, g, e, 0xc081b7edbb3a510a03503f5aa41d9d8f52cc7c19c85132fe420e5dec28f1808int, 0x9fd5c94979aed760f2b5958aec029c8709943425a60b15d6ffce888797de6a3int, 0xdd6713c98a20df6c712254a16a9bb6efd345aae5e3866ce570e6eb7b5489dbbint);
    let e = lemma_chain_multiply(p, g, e, 0xdd6713c98a20df6c712254a16a9bb6efd345aae5e3866ce570e6eb7b5489dbbint, 5, 0xa921ed799c9e57b8a68b8b781f53d96af317d33356a1647f76350740cdfd2cfint);
    let e = lemma_chain_square(p, g, e, 0xa921ed799c9e57b8a68b8b781f53d96af317d33356a1647f76350740cdfd2cfint, 0x7b608c3bf6c976737756de29135457edd6164d5297c80713ccfdb92a76fe56fint, 0x164c0fb8ca998c785c2ed6258579f397229a7a46fc4a3184a7298ec45b52d08int);
    let e = lemma_chain_multiply(p, g, e, 0x164c0fb8ca998c785c2ed6258579f397229a7a46fc4a3184a7298ec45b52d08int, 0, 0x85c85e54bf994ad2291904e120dbb58acf9edda9e9bd291beaf9589a23f0e30int);
    let e = lemma_chain_square(p, g, e, 0x85c85e54bf994ad2291904e120dbb58acf9edda9e9bd291beaf9589a23f0e30int, 0x4d31839f4e524fca6d0c9f9c9004ab418def9d8cb83eebbed3613192873d2e0int, 0x5d30f03a99967362765dd6f9f929604821f167460a04567363e6aa5333f0ae0int);
    let e = lemma_chain_multiply(p, g, e, 0x5d30f03a99967362765dd6f9f929604821f167460a04567363e6aa5333f0ae0int, 2, 0x5f6f0412f310bf2df94ba9bbb070e19bfea4592aa317f65a4486321858be7d2int);
    let e = lemma_chain_square(p, g, e, 0x5f6f0412f310bf2df94ba9bbb070e19bfea4592aa317f65a4486321858be7d2int, 0x2747f5840306018d588487eaf7eef50699cffd8d76376e229bea6a411bf7570int, 0x842998376df88f4aa2119c6abc23771b91072f58b1f4490924f1e1e3cdc7534int);
    let e = lemma_chain_square(p, g, e, 0x842998376df88f4aa2119c6abc23771b91072f58b1f4490924f1e1e3cdc7534int, 0x4b55c22fbd05a5a710b1ef6fc98e33c11c1bc601d74d265f3e6bdbec2341c38int, 0x2abdf2028942094bcfe04dc12d8834429f0eb95892fa445ca0af3ce34e6c688int);
    let e = lemma_chain_multiply(p, g, e, 0x2abdf2028942094bcfe04dc12d8834429f0eb95892fa445ca0af3ce34e6c688int, 1, 0x18985d68e4513d3678ce2276fded898553d64ed6a55c91febaaa87666717a79int);
    let e = lemma_chain_square(p, g, e, 0x18985d68e4513d3678ce2276fded898553d64ed6a55c91febaaa87666717a79int, 0x29be9dad70a50c0b8ec6a49eac07a96080ad0334236fd1ed7e488ad74d1aabint, 0xc03d5b0828e7e2669b9e07fbca4b5d8c6a68d5b6422dafae0be4ab6efb918f4int);
    let e = lemma_chain_multiply(p, g, e, 0xc03d5b0828e7e2669b9e07fbca4b5d8c6a68d5b6422dafae0be4ab6efb918f4int, 4, 0xe202e797a88364260be56fa670b57120e46cdd525b0dfd6021986ce4279e2dcint);
}

/// A power of a power of the root 6 modulo the prime `r`.
proof fn lemma_power_r_1()
    ensures
        pow_mod(6, 0xe53640dea418dcec9bc5eda6af6d56b20226277bnat, r_prime()) == 0xe202e797a88364260be56fa670b57120e46cdd525b0dfd6021986ce4279e2dcint,
{
    let p = r_prime();
    let g = 6;
    lemma_chain_start(p, g);
    lemma_power_r_1_part_1(p, g);
    lemma_power_r_1_part_2(p, g);
    lemma_power_r_1_part_3(p, g);
    lemma_power_r_1_part_4(p, g);
}

/// A power of a power of the root 6 modulo the prime `r`.
proof fn lemma_power_r_2()
    ensures
        pow_mod(0xe202e797a88364260be56fa670b57120e46cdd525b0dfd6021986ce4279e2dcint, 0x2ff9, r_prime()) == 0x7ea64bca3e20bc768d5a1956adf929225231720a97c0cddd8da0e140fdacc8aint,
{
    let p = r_prime();
    let g = 0xe202e797a88364260be56fa670b57120e46cdd525b0dfd6021986ce4279e2dcint;
    lemma_chain_start(p, g);
    let e: nat = 0;
    let e = lemma_chain_square(p, g, e, 1, 0, 1);
    let e = lemma_chain_multiply(p, g, e, 1, 0, 0xe202e797a88364260be56fa670b57120e46cdd525b0dfd6021986ce4279e2dcint);
    let e = lemma_chain_square(p, g, e, 0xe202e797a88364260be56fa670b57120e46cdd525b0dfd6021986ce4279e2dcint, 0xdc503a509c4c43954ccfe551831529df46b8a485baa7d704dc7b4a75008f211int, 0x6a21cd2b3c2756bae13fcd2c460d3d7b45d0e0e43221f30d631147c289a36e9int);
    let e = lemma_chain_square(p, g, e, 0x6a21cd2b3c2756bae13fcd2c460d3d7b45d0e0e43221f30d631147c289a36e9int, 0x3094ef69eec55ea640d142a7802c2d9f5f7ec73d07aa7746f7bf4a6eb257b3bint, 0x189db562ca955f55ab42ece6d11e20da1b684bad9d6beec6c07e4332b34e4e4int);
    let e = lemma_chain_multiply(p, g, e, 0x189db562ca955f55ab42ece6d11e20da1b684bad9d6beec6c07e4332b34e4e4int, 0x17fed62b4ca85b98196d14088bcff228e4451790f15aeb400671650cb104dbeint, 0xc05e6933d1b2c2b5c5fcb8611027e63dd68ecdcd259818cafaa8a74fef3c11eint);
    let e = lemma_chain_square(p, g, e, 0xc05e6933d1b2c2b5c5fcb8611027e63dd68ecdcd259818cafaa8a74fef3c11eint, 0x9f9b2d41e59442d07cce366845ab7fbb13c7c055ba15c3992ec52231e020286int, 0x7e72c46d470f47f319c300009fed08e3648a8cbd422780398ed52fc797969baint);
    let e = lemma_chain_multiply(p, g, e, 0x7e72c46d470f47f319c300009fed08e3648a8cbd422780398ed52fc797969baint, 0x7b42ab8bff5c641a027c8e97d6576ecfea0e3758fe6da4fba9d7e457013c990int, 0xbef1ccbddba19b2a2dadd412ebc19900145f5cf62cec0cedade982a21dd39e8int);
    let e = lemma_chain_square(p, g, e, 0xbef1ccbddba19b2a2dadd412ebc19900145f5cf62cec0cedade982a21dd39e8int, 0x9d4063a2d471927768164f1c46c6692c8971caaa289a5f9ca48907c116a49aeint, 0x3b7d05b3851a1843e58cf83c8497566789f75a9670a9749288c738395228edeint);
    let e = lemma_chain_multiply(p, g, e, 0x3b7d05b3851a1843e58cf83c8497566789f75a9670a9749288c738395228edeint, 0x39fd159db41478a48e8d94130d0881d869efea6909d2a81db04d23dbb5856a4int, 0x80e8b27704f848dcce59ef1157deb8844bc8595f6d34a4851edb656a37aa38cint);
    let e = lemma_chain_square(p, g, e, 0x80e8b27704f848dcce59ef1157deb8844bc8595f6d34a4851edb656a37aa38cint, 0x47abe9b8103e53cfe6f7548b76a364969ff6873e1384b9b833d3f5a0ec62342int, 0x56861ff5b6a2424b779595a6212e130dcb6db6bbc9b04669a082448c38b0862int);
    let e = lemma_chain_multiply(p, g, e, 0x56861ff5b6a2424b779595a6212e130dcb6db6bbc9b04669a082448c38b0862int, 0x5457b316f8da1665de22a35a0c5faeb02b9527d9bdb9a1c1ed6256cbe6835f7int, 0xc8158ed6833963e61b0abdb52f0c02ff8038ede4638d4702f292314721db0a7int);
    let e = lemma_chain_square(p, g, e, 0xc8158ed6833963e61b0abdb52f0c02ff8038ede4638d4702f292314721db0a7int, 0xacaa6a9300119c8d1199962a07cf29e4a97bc2bfb3c9102971561501ebb5c58int, 0x4939a84cd39e8bd577109e58d84d6d505e6c15a97cc9a36028c65086705ea09int);
    let e = lemma_chain_multiply(p, g, e, 0x4939a84cd39e8bd577109e58d84d6d505e6c15a97cc9a36028c65086705ea09int, 0x47610fdb76549af345351c070e1b14670f3b626ceec69a3b35edd5ec0c4740fint, 0xe6c9ff66c2d1d1dc519f8f8d43cca50aa8ff5931c6836217bc3519b9d178703int);
    let e = lemma_chain_square(p, g, e, 0xe6c9ff66c2d1d1dc519f8f8d43cca50aa8ff5931c6836217bc3519b9d178703int, 0xe5b9f253a91570413b1687e89eac74278bc225a252472aa625dff2a488ae5d2int, 0xa5aa96f8afc092456be504d8991ce77e165932253cda0dda0f89c763355c8ebint);
    let e = lemma_chain_multiply(p, g, e, 0xa5aa96f8afc092456be504d8991ce77e165932253cda0dda0f89c763355c8ebint, 0xa17d6117f3f1999a2283dbb10ada6144e825590d1599bb25ca6bdaa3e1f5ce2int, 0x94ad7cb4ab15151393cce3368def8af66ef38907307184cc52569150fbae266int);
    let e = lemma_chain_square(p, g, e, 0x94ad7cb4ab15151393cce3368def8af66ef38907307184cc52569150fbae266int, 0x5f56dcb75d7003b78b29baddc0468352166cbe801f7c66ff769a68b4d66757cint, 0xbc8b160af5e556d566a65bff7a22ec088623f2af623cbb316630136c55cf500int);
    let e = lemma_chain_multiply(p, g, e, 0xbc8b160af5e556d566a65bff7a22ec088623f2af623cbb316630136c55cf500int, 0xb7ca3a58c7080cb8535740a40a8a38f69b826cb6bc72ab0f8478804895d3961int, 0x612c4fe8023c74f650d1869c3276fe60264f6fb41a04534bcaaf205cf14dba9int);
    let e = lemma_chain_square(p, g, e, 0x612c4fe8023c74f650d1869c3276fe60264f6fb41a04534bcaaf205cf14dba9int, 0x28b9df8862749cbaa934ffd96dac17b0f49af448e81c3b8d2f562d2d8aa86dcint, 0x3ec3ddf881bc6e9b833e647003422d0524eab3f45eb3cbc5f5dcd86258a5e4dint);
    let e = lemma_chain_multiply(p, g, e, 0x3ec3ddf881bc6e9b833e647003422d0524eab3f45eb3cbc5f5dcd86258a5e4dint, 0x3d2ec7fb854e511b202c5d4c74aa1edb02dd16f20d879c0e735ddf248ba24f3int, 0xa709c32c35092b9473eed849d3f13f64cd45e94c2eedd4f9b70b8b012aed677int);
    let e = lemma_chain_square(p, g, e, 0xa709c32c35092b9473eed849d3f13f64cd45e94c2eedd4f9b70b8b012aed677int, 0x7857286d54e789ecefd3a9201f5e5b196260d765e692a00b12157967a217664int, 0x18a3db38dc2dc0eda3a34c015f11cc0dc7753ca1db7901e6044c7a918ae59d5int);
    let e = lemma_chain_multiply(p, g, e, 0x18a3db38dc2dc0eda3a34c015f11cc0dc7753ca1db7901e6044c7a918ae59d5int, 0x1804d453d4f3276510e267ef84d9c45efde450fc1e3aa034d2dbfa815ca8a7dint, 0x45f1f80b447061c8d02fb92410a3086542f21495e318e7e30115716009ec1b1int);
    let e = lemma_chain_square(p, g, e, 0x45f1f80b447061c8d02fb92410a3086542f21495e318e7e30115716009ec1b1int, 0x1519c5246011ae0118e42f5805ab0ce5dc7bad0d3c6602a6fe4c31d6fd83511int, 0x39d3e353fc26199c4c09a0099e761bbcf6e479b239378abf02a616622f4813aint);
    let e = lemma_chain_square(p, g, e, 0x39d3e353fc26199c4c09a0099e761bbcf6e479b239378abf02a616622f4813aint, 0xe6c42036e720caec99ca99af843620a8d4a119604b2c4b53b6a301961496beint, 0xb587a85a798a0ea6446a9b576df6ce6a1f0c1138056d1a3f5233c7fe7d91752int);
    let e = lemma_chain_square(p, g, e, 0xb587a85a798a0ea6446a9b576df6ce6a1f0c1138056d1a3f5233c7fe7d91752int, 0x8e2087b5496fdb1ed907558c5a43a7dbe0c8e77823dab50634eba4afa8c246bint, 0x8fee8c72e22f4fa44cc542c7aa0b27fa634e37d53a278f5ed13e7eec17669c7int);
    let e = lemma_chain_multiply(p, g, e, 0x8fee8c72e22f4fa44cc542c7aa0b27fa634e37d53a278f5ed13e7eec17669c7int, 0x8c4d9ce21b40526a7234ebba9b2ffd4a76029776ad913e799bca27ac3415556int, 0x7ea64bca3e20bc768d5a1956adf929225231720a97c0cddd8da0e140fdacc8aint);
}

/// A power of a power of the root 6 modulo the prime `r`: the steps from the exponent
/// 0
/// to the exponent
/// 0x15977f4b886.
proof fn lemma_power_r_3_part_1(p: int, g: int)
    requires
        p == r_prime(),
        g == 0x7ea64bca3e20bc768d5a1956adf929225231720a97c0cddd8da0e140fdacc8aint,
        pow_mod(g, 0, p) == 1,
    ensures
        pow_mod(g, 0x15977f4b886, p) == 0x294e32c4f32d1edb49067a4b690d99796290a4033ce3eeb21b7a1c731ddaf47int,
{
    let e: nat = 0;
    let e = lemma_chain_square(p, g, e, 1, 0, 1);
    let e = lemma_chain_multiply(p, g, e, 1, 0, 0x7ea64bca3e20bc768d5a1956adf929225231720a97c0cddd8da0e140fdacc8aint);
    let e = lemma_chain_square(p, g, e, 0x7ea64bca3e20bc768d5a1956adf929225231720a97c0cddd8da0e140fdacc8aint, 0x452e624baeac926efeeebfb316227af87ef8b07b43c53e9985a1725825d1688int, 0x83394419a1e267f269ebbcb30c187c44a9b4e46a2b90dc0d0651fba8cd1bf2cint);
    let e = lemma_chain_square(p, g, e, 0x83394419a1e267f269ebbcb30c187c44a9b4e46a2b90dc0d0651fba8cd1bf2cint, 0x4a44bf9633a960ced229873bb93e7a813c289636dc065d8fc4c579d1101137bint, 0xa414920fcf4e8493970295758870bc7bdce39947e264d4e09ddb931dfcf9ea3int);
    let e = lemma_chain_multiply(p, g, e, 0xa414920fcf4e8493970295758870bc7bdce39947e264d4e09ddb931dfcf9ea3int, 0x59a09d390c56c8a0710f315d3136a17d914da1b0e21477927b018e0faeac550int, 0xe62a208358ac9c1a0348798a3a0d5deaa9180c145e0003606390247c4369baeint);
    let e = lemma_chain_square(p, g, e, 0xe62a208358ac9c1a0348798a3a0d5deaa9180c145e0003606390247c4369baeint, 0xe47c1bb108c6740e2efe3fdfbe061f37b921070e50842884285b6d744fa35d2int, 0xbad0218f6443ae7a0f507501bf19f0d96c9b1979ab186bd7a8a134bb2599926int);
    let e = lemma_chain_square(p, g, e, 0xbad0218f6443ae7a0f507501bf19f0d96c9b1979ab186bd7a8a134bb2599926int, 0x968528ced77d19ab2ba278bfe250b33edfa050a507eabbbd0a4a3a48a2a5f71int, 0xd8179d17eb68a48ba7091d4643f0c6bf27126a9560e66df94f3e2121751cbddint);
    let e = lemma_chain_multiply(p, g, e, 0xd8179d17eb68a48ba7091d4643f0c6bf27126a9560e66df94f3e2121751cbddint, 0x7609d5cee1a120153554d43fd516f4f30a454dcfc2fc0eb3a7d5a11cba96ec7int, 0xe2c3a893768eb5ab9ab68268beb35f4010408b39f128b2c5df7ce535c949ce1int);
    let e = lemma_chain_square(p, g, e, 0xe2c3a893768eb5ab9ab68268beb35f4010408b39f128b2c5df7ce535c949ce1int, 0xddc8a4763d861c814684e340fd579dc0cb27d72ac8b4865ed1386c15cfa82a6int, 0x1fd39aa8bb6107af338dbca7d7ca991fb20cc50d9c4a9da470d40da24991117int);
    let e = lemma_chain_multiply(p, g, e, 0x1fd39aa8bb6107af338dbca7d7ca991fb20cc50d9c4a9da470d40da24991117int, 0x11628df7e872dc629b9963a60658c343b86c741315539ed5f347f8e9ee365bbint, 0x8a2fe108ceeb2d6d4b19c9d0941fb63bb3640a7c1d182e6f6f7d9887740adb9int);
    let e = lemma_chain_square(p, g, e, 0x8a2fe108ceeb2d6d4b19c9d0941fb63bb3640a7c1d182e6f6f7d9887740adb9int, 0x525c17cf3205578c4676c4be531d275ad25aff156943f8d1b94495a3c717bcbint, 0x37e359db78156dcef4670eb625ca58fc7daa0da9b3e94f99666b90077202d94int);
    let e = lemma_chain_square(p, g, e, 0x37e359db78156dcef4670eb625ca58fc7daa0da9b3e94f99666b90077202d94int, 0xd78ba4b39289b1cd522b940a390049e1e8385a92f984288f1a934a3946c840int, 0xdbe66dac39e191ff00620959b1099028d6db25039383d7070bf5453335937d0int);
    let e = lemma_chain_square(p, g, e, 0xdbe66dac39e191ff00620959b1099028d6db25039383d7070bf5453335937d0int, 0xd08f6530f07b4df6fe3325726dcc56dd0914ff83bedbe72915406ba098ac5deint, 0x649635930733406ce1853ea291e88b8e7c9b3ebe9d4aef1a7bc91c391636f4eint);
    let e = lemma_chain_multiply(p, g, e, 0x649635930733406ce1853ea291e88b8e7c9b3ebe9d4aef1a7bc91c391636f4eint, 0x36f1d13c12837182dacff702b1afbebf510243ed8c7ec640d3234b18c86aa97int, 0x81826447c1071c5097469968585f6117c72c1277213fc551192c6848b71421bint);
    let e = lemma_chain_square(p, g, e, 0x81826447c1071c5097469968585f6117c72c1277213fc551192c6848b71421bint, 0x4857370413404c3324f71f12ca479b0535cec745090b173ec95f87925042ec5int, 0x811ee52ea99f67ff62d3e8f0a0c7e38766aeeb2d950e144e7c5864ec2cda406int);
    let e = lemma_chain_square(p, g, e, 0x811ee52ea99f67ff62d3e8f0a0c7e38766aeeb2d950e144e7c5864ec2cda406int, 0x47e83aacbdfeb96bc98ddbafa364c13c15d94284ec9de0b48109a15b3a92f23int, 0xd81042a0cbf22fcb5fc524c01df16aeba3a851aad76c3ed32acae8ef3e3fa1fint);
    let e = lemma_chain_multiply(p, g, e, 0xd81042a0cbf22fcb5fc524c01df16aeba3a851aad76c3ed32acae8ef3e3fa1fint, 0x7605d18751a92ffbab2b5dae1ee285252e0ef70deeab2eca4922708f018e384int, 0x5e792712b9cfeb59fc280bbffbac8ca432aaa3424a7cbe4c024a24c2e5a355aint);
    let e = lemma_chain_square(p, g, e, 0x5e792712b9cfeb59fc280bbffbac8ca432aaa3424a7cbe4c024a24c2e5a355aint, 0x267e946978e279d37730b19558c6db40a3b26c24f0eb4a1c96e78f5c31555bcint, 0x76e19eac30ffff492fe7b103c60fa633ffc96b013cf72727b6a98e6e705ca40int);
    let e = lemma_chain_multiply(p, g, e, 0x76e19eac30ffff492fe7b103c60fa633ffc96b013cf72727b6a98e6e705ca40int, 0x40f01672458a1694469d2bb529b9211d7a3647d3b01e62df8c861ecae1e9609int, 0x7873588a11b84ef7910fce6601f9e1f5d58b72d7746db88c5c0f6ff1e743a11int);
    let e = lemma_chain_square(p, g, e, 0x7873588a11b84ef7910fce6601f9e1f5d58b72d7746db88c5c0f6ff1e743a11int, 0x3e931964bf4fc82360ab2d6de7211cc872554c34e0f748671d9beed0457e877int, 0x994f4fa8723a64a0fc17f347ed178312cf5b9e48629d3bef54c093aacf71410int);
    let e = lemma_chain_multiply(p, g, e, 0x994f4fa8723a64a0fc17f347ed178312cf5b9e48629d3bef54c093aacf71410int, 0x53be7c7f66f6308033f19d880dbc0a40f7b7604e0acac70c4cb43072982c0cdint, 0x15cf933703de0ae804c0fb320743eeeb0311c91205d8886c790706f9d678215int);
    let e = lemma_chain_square(p, g, e, 0x15cf933703de0ae804c0fb320743eeeb0311c91205d8886c790706f9d678215int, 0x20d3fb8930d1067c1ad9e80b771cb6e1e366c77a12adb7143c16f3f1996887int, 0x344cdbe4ab1c4dc5b52b267740767a468dddd05a25082ca2215dbbeea1d6938int);
    let e = lemma_chain_square(p, g, e, 0x344cdbe4ab1c4dc5b52b267740767a468dddd05a25082ca2215dbbeea1d6938int, 0xbcc24bb3059c7403fa8c55702444ef0c88acbebdb4fecf9a893c699d11795aint, 0xe11b12817d981ac623ce44dc51a50aa8503d03e485da339d824ce03c7bfc4eaint);
    let e = lemma_chain_multiply(p, g, e, 0xe11b12817d981ac623ce44dc51a50aa8503d03e485da339d824ce03c7bfc4eaint, 0x7af6437203d1c1bc8a7434f0a73416d90d417b2386e962da2920171e683cd8eint, 0x96d4f12dea3851c383e586bb2280e0e9650a9f84fd14992545724276c0045a2int);
    let e = lemma_chain_square(p, g, e, 0x96d4f12dea3851c383e586bb2280e0e9650a9f84fd14992545724276c0045a2int, 0x621f3984a15d032181cdbc65b251966e299eac8bd3097202687c395941c5f36int, 0x7a97f9f5a123ebe05814d92fb0c10b5d8c526da56b7277a3510f3f0013162eaint);
    let e = lemma_chain_multiply(p, g, e, 0x7a97f9f5a123ebe05814d92fb0c10b5d8c526da56b7277a3510f3f0013162eaint, 0x42f73618a72adc0245e5c5d0ff6d45d5ac16940bdc032272875099620032e0bint, 0xbc7432a3e658638ba17e3c0d90b50d0851ff11ba2465b9a906a7a0be3e8fc47int);
    let e = lemma_chain_square(p, g, e, 0xbc7432a3e658638ba17e3c0d90b50d0851ff11ba2465b9a906a7a0be3e8fc47int, 0x992d0cc4b33288f2de170aecf05c9f1db5549b86c9306a60d8916384bbdfb7dint, 0x2dd5e620be14ad011deb2278a1516ee8f574e237f006f66657bbbd933a89956int);
    let e = lemma_chain_multiply(p, g, e, 0x2dd5e620be14ad011deb2278a1516ee8f574e237f006f66657bbbd933a89956int, 0x19098912990f6f24d2970c12ca0a35e75b326fc1c719873f9e37e41c063997bint, 0xdc46a3f3ed38221015a9e39d8770242ac4b5e34e0858f552115fe5430e556fint);
    let e = lemma_chain_square(p, g, e, 0xdc46a3f3ed38221015a9e39d8770242ac4b5e34e0858f552115fe5430e556fint, 0xd1460d5ed548e9ae54960bfb66ff5ebee0cd29ec5a3c68686132cc1b1c8abint, 0x20942fcd071f7633a4281a510a31b80e678527948909fbdd00ccc0fb160fe4int);
    let e = lemma_chain_multiply(p, g, e, 0x20942fcd071f7633a4281a510a31b80e678527948909fbdd00ccc0fb160fe4int, 0x11cbc044a41c98884f5b86dd19d52c71dd70b5f163f8b8323c5c22691e3d68int, 0xcc31df3ce02562fe629558c693f6fd3ff45ea252ca75de7408743484c327b90int);
    let e = lemma_chain_square(p, g, e, 0xcc31df3ce02562fe629558c693f6fd3ff45ea252ca75de7408743484c327b90int, 0xb3d54b1f31b5f1fa2f1f2c38c83064fcae065ab5fdb745dc8f5d50456e8bc3dint, 0x4fc6d3877381f20bdfa6ffe56663fceed39e0eb68bd3ad165b702f9424fa565int);
    let e = lemma_chain_multiply(p, g, e, 0x4fc6d3877381f20bdfa6ffe56663fceed39e0eb68bd3ad165b702f9424fa565int, 0x2b93c86abcfc57b6ab8e9cb903ce1a1c8fe188380d3ded2ad293441a3887071int, 0x6a8fb0602105de6d3b3c8acdece9649adfa96d91d4fb18d9b12de74acdad7abint);
    let e = lemma_chain_square(p, g, e, 0x6a8fb0602105de6d3b3c8acdece9649adfa96d91d4fb18d9b12de74acdad7abint, 0x30f9bd874a27148b8c7694d368485e1afc22dc04d86ea16e9220adb48c6dc50int, 0xe6bcded14ae1040878427ff81f184bda56fc1ad4a60e27b3944a72d27b76f09int);
    let e = lemma_chain_multiply(p, g, e, 0xe6bcded14ae1040878427ff81f184bda56fc1ad4a60e27b3944a72d27b76f09int, 0x7e09d52123b8a23f1b1cfe6e720ecc6f675fe2c69685796422afa1f63228bc0int, 0x12b4ee368533a6e9543e541cdcba0d86c454ffeeba732f8e4a14d468610209aint);
    let e = lemma_chain_square(p, g, e, 0x12b4ee368533a6e9543e541cdcba0d86c454ffeeba732f8e4a14d468610209aint, 0x18261ef69b2fba17b826a371d1db3a69464ac179828e7372bd653f7eaf0cd2int, 0x3dbd6cc3420cf6d28468ac446256d9cfc49892d8b663ca1fe8b507abf729a86int);
    let e = lemma_chain_multiply(p, g, e, 0x3dbd6cc3420cf6d28468ac446256d9cfc49892d8b663ca1fe8b507abf729a86int, 0x21b991c3e125f8a7763179126d169eb9506764a00651f693f669ec63f984cf4int, 0x23e638ce26fb8ccf6061986910e32ebdf6cce125bbee0d1a2597f541c8121d0int);
    let e = lemma_chain_square(p, g, e, 0x23e638ce26fb8ccf6061986910e32ebdf6cce125bbee0d1a2597f541c8121d0int, 0x58ef58bede6249b4144f56df2a9fa4ffc37df8e2e23bd1f56f780529dd44e0int, 0x53e6c5c509c5af2d0592ba7479cd77aa625a008ebb0628fc7a97bd4eef48ce0int);
    let e = lemma_chain_square(p, g, e, 0x53e6c5c509c5af2d0592ba7479cd77aa625a008ebb0628fc7a97bd4eef48ce0int, 0x1e5c79b8bdbd98759a6920d8cc5a83159eaa56029831e842ddfa20ff548ca4aint, 0xc2b573284ccb7b3431a283ea2f25d656708b6f106a5991e769bc57b7552711aint);
    let e = lemma_chain_multiply(p, g, e, 0xc2b573284ccb7b3431a283ea2f25d656708b6f106a5991e769bc57b7552711aint, 0x6a5b9f8093f61bf52aa329cdcf29eed3d82389ea71967670da8d8e748aaa4c8int, 0x35db648f7807d05eb3ea855819410e0334614536c06840e4898d341536f850cint);
    let e = lemma_chain_square(p, g, e, 0x35db648f7807d05eb3ea855819410e0334614536c06840e4898d341536f850cint, 0xc829d745a3425036d1c2aa52a325e025065b49f7f4849c53e0e34168a00975int, 0x48d982d075211dcc0e9fa8f56aec7897a861576d669056fafb68dee33a399edint);
    let e = lemma_chain_square(p, g, e, 0x48d982d075211dcc0e9fa8f56aec7897a861576d669056fafb68dee33a399edint, 0x16e3b30e41b470f801c9d104500b8aae025fdc3b81808307c419d20dbd5e8fbint, 0x7d202f2ff7989bfe3d613e6f765e0ef4220ebf6aa14366c356fb3f8483975fcint);
    let e = lemma_chain_square(p, g, e, 0x7d202f2ff7989bfe3d613e6f765e0ef4220ebf6aa14366c356fb3f8483975fcint, 0x4386c20d02193453a8f9763d268e12b6d51561d0c15caedd64ba75fe815e518int, 0x2b5e4df1427af9dab23b6e0f0278fb86cceec61df094433211d949ebb696be8int);
    let e = lemma_chain_multiply(p, g, e, 0x2b5e4df1427af9dab23b6e0f0278fb86cceec61df094433211d949ebb696be8int, 0x17b0885fad48cca001964602a3c7e0676d3cbc980148d496023a34ed3ddebaeint, 0xa9307d044341a05f9925cf509dea4f5b815b19decd90871b28338581359a9aeint);
    let e = lemma_chain_square(p, g, e, 0xa9307d044341a05f9925cf509dea4f5b815b19decd90871b28338581359a9aeint, 0x7b75cb68e01ed3a1e742f1c78cf0f36f26b009f7ca89d19af4db41fbca4cb6bint, 0x224a8ec0b8355850ccb3bb261f39a5fe8dccc0347f7f947f7d9aec55c7264c7int);
    let e = lemma_chain_square(p, g, e, 0x224a8ec0b8355850ccb3bb261f39a5fe8dccc0347f7f947f7d9aec55c7264c7int, 0x51255c3e97bfb1832ce24683a0af324649084cd9b2c91f17870983f19a743bint, 0xc930ad5d42126ca53b187475390997ada4f34a3debd3fee9c7f6e213897d884int);
    let e = lemma_chain_multiply(p, g, e, 0xc930ad5d42126ca53b187475390997ada4f34a3debd3fee9c7f6e213897d884int, 0x6de5f5fd5b6905b4853dbc15857a06b25fdaa77e66473c349e15831bdef9a37int, 0x4ab3159606d278518bc86932e284e1085278892c61ea348664d48d1e4f235d7int);
    let e = lemma_chain_square(p, g, e, 0x4ab3159606d278518bc86932e284e1085278892c61ea348664d48d1e4f235d7int, 0x18111292826a38626abdbd59ab44a1dbf1bbad3fbe00621759e5397fb841e52int, 0x3489ca965e6f8cd903c67bdd9fc99524ebf56c5790e59e180e191518008f5f3int);
    let e = lemma_chain_multiply(p, g, e, 0x3489ca965e6f8cd903c67bdd9fc99524ebf56c5790e59e180e191518008f5f3int, 0x1cb2d377ec9bac997612a3680f610801ac335b4ff8d4ec4bb66d6ae26b9b733int, 0x29e40bf54f8625635fa630a722654e34efb94ebd79906477d4646c8d84c7f89int);
    let e = lemma_chain_square(p, g, e, 0x29e40bf54f8625635fa630a722654e34efb94ebd79906477d4646c8d84c7f89int, 0x791926ac7ad4f604208ddf60bbcaa84ebe085b85a6c2336aadbde8bd807f0dint, 0x483a0a80858ac60b797be86f4a0263d4c7fb2e3d2a7d0500758003c28a52906int);
    let e = lemma_chain_multiply(p, g, e, 0x483a0a80858ac60b797be86f4a0263d4c7fb2e3d2a7d0500758003c28a52906int, 0x2774043b526cb5e0a41bfad9a2b656b68adffa8f32e3754770f6c20399b2c16int, 0xcf42d5d43960c2a99d7f41a993c02bbf84c5d67272953b179455ec0081a9982int);
    let e = lemma_chain_square(p, g, e, 0xcf42d5d43960c2a99d7f41a993c02bbf84c5d67272953b179455ec0081a9982int, 0xb9464cadbc69efb3f9e6d24f92a2b29142907362dd8d2821ddfc8665798582dint, 0xb70b29f96826308c15941268de92a49b8e5cf7bbed2b6e88a47daec2bfae1d9int);
    let e = lemma_chain_square(p, g, e, 0xb70b29f96826308c15941268de92a49b8e5cf7bbed2b6e88a47daec2bfae1d9int, 0x9081d93bc1a336b7591ddf18fe9eec8985fd503b5ebe6fdd483a523cf932e68int, 0x72828ac3cbefa9b5a5149252860cec205f8d20abe9254e0ada5fb91648b1d99int);
    let e = lemma_chain_square(p, g, e, 0x72828ac3cbefa9b5a5149252860cec205f8d20abe9254e0ada5fb91648b1d99int, 0x388defc5d1738ef00219153faeae1ed64c090044fb3cc36c3af8befbefe1e6fint, 0x177d569eda58aaa247f60ad9f350763a69e3634b7f4d382362577353963018int);
    let e = lemma_chain_square(p, g, e, 0x177d569eda58aaa247f60ad9f350763a69e3634b7f4d382362577353963018int, 0x2613772dd50d19b3f441036dd0044db27aca20f40dfbdcc62e6280c0565eint, 0xa44d5c6bf33ad56c915b68f97384f0f16f7fa98af86cbdc94304e06f4211d0eint);
    let e = lemma_chain_multiply(p, g, e, 0xa44d5c6bf33ad56c915b68f97384f0f16f7fa98af86cbdc94304e06f4211d0eint, 0x59bfa2ab683f7a61410bf3c61707734ef510b08a58b28981b33ada213113b7bint, 0x9a5bbb38c6eaceed5cf63551f4efa0585e09beafa3c5e785c4f1fa2bfb5289fint);
    let e = lemma_chain_square(p, g, e, 0x9a5bbb38c6eaceed5cf63551f4efa0585e09beafa3c5e785c4f1fa2bfb5289fint, 0x66c38e237767dc6a7d20ca1cd78a863c0cbf5bc361ad363be7fb406166bbbd8int, 0x43c573f2992157657a61c83c65ade6c5055c4092e9c4de615ba878e6093ab59int);
    let e = lemma_chain_square(p, g, e, 0x43c573f2992157657a61c83c65ade6c5055c4092e9c4de615ba878e6093ab59int, 0x13cf3701bfb394b8acc4b30582a6d4a1f8ecc7995f6e1da61b1a5a27e7b9abbint, 0xd8124864d7310390106e402715ae684e8f9afa3894cb8ba322e4e42b5854544int);
    let e = lemma_chain_square(p, g, e, 0xd8124864d7310390106e402715ae684e8f9afa3894cb8ba322e4e42b5854544int, 0xc95c610ee11a02fed47431afa78213bdbdc5567454ed4cfd4ea25af31a1a314int, 0xd0874a045e5bfe4a7421e687f8c492b1a479d842b5f512401a0d8ffe086b6c4int);
    let e = lemma_chain_square(p, g, e, 0xd0874a045e5bfe4a7421e687f8c492b1a479d842b5f512401a0d8ffe086b6c4int, 0xbb8c24ddd201ee6913d3242403c083693a5c8cd1e32ae380967431f0db6dfc6int, 0xb399c78108f68084b080e9ed6c2b6916179e3e9b2de57ca4ac2766f2f714786int);
    let e = lemma_chain_square(p, g, e, 0xb399c78108f68084b080e9ed6c2b6916179e3e9b2de57ca4ac2766f2f714786int, 0x8b1f48fdf648cfb381a342ad74c1b5d54b7acd987a39d0c48b357e106a1396dint, 0xe43361dd05cc505df83b3b3c3bda287fcda721098e23a91975a20272fdd139int);
    let e = lemma_chain_multiply(p, g, e, 0xe43361dd05cc505df83b3b3c3bda287fcda721098e23a91975a20272fdd139int, 0x7ca70e3a33db1db554b9f236d925e317ddb4cbf2d6cd5a160d783c9d62f21aint, 0x757407769b5956ad42f867b4d6fbbb0a290ff945c2ea2a2cde54a07eaa8ac24int);
    let e = lemma_chain_square(p, g, e, 0x757407769b5956ad42f867b4d6fbbb0a290ff945c2ea2a2cde54a07eaa8ac24int, 0x3b7fc512d760ace6cebd722293653bd67f42f77de240d2d5d439a3969576c07int, 0x7cbee94a4f02eccdd94afc0afae238a2d9706294b940596dcd3226dca2ff80fint);
    let e = lemma_chain_multiply(p, g, e, 0x7cbee94a4f02eccdd94afc0afae238a2d9706294b940596dcd3226dca2ff80fint, 0x4424278bdeca2fda79e87624aca49244d1bc2f3430aa91b7ce06fff49585e35int, 0x536105ba4e411106d66e96b7a0d2f9e3297518fc9f3d439a6812b4983ce3833int);
    let e = lemma_chain_square(p, g, e, 0x536105ba4e411106d66e96b7a0d2f9e3297518fc9f3d439a6812b4983ce3833int, 0x1dfbfa247723fa28fc80e39ea897c97b273e1f8973533f74c8b97c0ca746e2eint, 0x294e32c4f32d1edb49067a4b690d99796290a4033ce3eeb21b7a1c731ddaf47int);
}

/// A power of a power of the root 6 modulo the prime `r`: the steps from the exponent
/// 0x15977f4b886
/// to the exponent
/// 0x2b2efe9710e4d05725e9.
proof fn lemma_power_r_3_part_2(p: int, g: int)
    requires
        p == r_prime(),
        g == 0x7ea64bca3e20bc768d5a1956adf929225231720a97c0cddd8da0e140fdacc8aint,
        pow_mod(g, 0x15977f4b886, p) == 0x294e32c4f32d1edb49067a4b690d99796290a4033ce3eeb21b7a1c731ddaf47int,
    ensures
        pow_mod(g, 0x2b2efe9710e4d05725e9nat, p) == 0xe7db4ea6533afa906673b0101343b00a6682093ccc81082d0970e5ed6f72cb6int,
{
    let e: nat = 0x15977f4b886;
    let e = lemma_chain_multiply(p, g, e, 0x294e32c4f32d1edb49067a4b690d99796290a4033ce3eeb21b7a1c731ddaf47int, 0x16900f3dd8e0a5bb247323ddc916c684a2ad8d8f1d35478426f97a05c1a6d95int, 0x4c156f179fa91fece507414eaab449e432fc8e024e1cdb625b0ad6f4a261ec3int);
    let e = lemma_chain_square(p, g, e, 0x4c156f179fa91fece507414eaab449e432fc8e024e1cdb625b0ad6f4a261ec3int, 0x18f784421e5f8bb92eef03221dca885262803443e93da94af55e621082a171fint, 0x47ba30f1f02d9e8435ab9bf11c0fa5350b153d4f7a0d690b193dc39969d6d60int);
    let e = lemma_chain_square(p, g, e, 0x47ba30f1f02d9e8435ab9bf11c0fa5350b153d4f7a0d690b193dc39969d6d60int, 0x163089ac3218ec6d46eb1167a531554a5f886b647de658afe00b84fbbeac7c1int, 0xd4a88319a99f67417288c82fb525dc0734bce7d6068f3bcb2c5a3101619ed09int);
    let e = lemma_chain_square(p, g, e, 0xd4a88319a99f67417288c82fb525dc0734bce7d6068f3bcb2c5a3101619ed09int, 0xc30cad342c04706830e28eb4e9d5ebdc80f3211164244d4a0772ea81f74af6eint, 0xd6f31f4fcd97f67feab4343f9c32d4b1f7a9b84c50ef0a894cdfc47f1895aafint);
    let e = lemma_chain_multiply(p, g, e, 0xd6f31f4fcd97f67feab4343f9c32d4b1f7a9b84c50ef0a894cdfc47f1895aafint, 0x756a1080726e27713ba5543110ddc13f6631a43d81184f817c4032297e535fcint, 0x9a55c6f1fdf7aea28e3df56d7cf84df3deef299c66c0cd12570c28f6a0f6f32int);
    let e = lemma_chain_square(p, g, e, 0x9a55c6f1fdf7aea28e3df56d7cf84df3deef299c66c0cd12570c28f6a0f6f32int, 0x66bba0b878cfe51ebfbdcfc57fac42b4857645d66d09304da2799df072e3952int, 0xb41de647017f5dd9a5fc54c130445ab3f4f948fe8f3f2d08d0b5d95b2255426int);
    let e = lemma_chain_square(p, g, e, 0xb41de647017f5dd9a5fc54c130445ab3f4f948fe8f3f2d08d0b5d95b2255426int, 0x8bec43d6e356cf18b6cdafd5a3dadd23faefa7cf5cf3373bd39704778816f9bint, 0x8f0efd4ffba60abb930b60c7ec9f1638241c527214d1d83c2b805cca26289d7int);
    let e = lemma_chain_square(p, g, e, 0x8f0efd4ffba60abb930b60c7ec9f1638241c527214d1d83c2b805cca26289d7int, 0x5844db43c14cdfb51172b00a8740fe39debbc14ae711d3f110a2353837e9a67int, 0x974991c53ec07ef0cb55d5b6ee64d791d0c0dc560adb7e844fe4db21968bef0int);
    let e = lemma_chain_multiply(p, g, e, 0x974991c53ec07ef0cb55d5b6ee64d791d0c0dc560adb7e844fe4db21968bef0int, 0x52a3acb2d7b6129b23697f73f3f75c8082e0c81434e0a320262efa5a4c30d53int, 0xda534ea17070e45eb2535fb1728f0bbe91f1579765b3a48626163da4830630bint);
    let e = lemma_chain_square(p, g, e, 0xda534ea17070e45eb2535fb1728f0bbe91f1579765b3a48626163da4830630bint, 0xcd9577b0cbc36c406e40c70bbd0c60289dd801adf2f30c0c18c3595776f5351int, 0xc2200b539fc1d4bfe3ae12f2a9d768b8caf19662d06f39aee01216ade640792int);
    let e = lemma_chain_multiply(p, g, e, 0xc2200b539fc1d4bfe3ae12f2a9d768b8caf19662d06f39aee01216ade640792int, 0x6a0a02f916d6f8bdc0ad312c12a3e0248198946c5615514791ebca04092b430int, 0xe2a831f5078d29d1fccafdb3175fb2ad5d52d8fb6af6dbe8fcee2683e215e64int);
    let e = lemma_chain_square(p, g, e, 0xe2a831f5078d29d1fccafdb3175fb2ad5d52d8fb6af6dbe8fcee2683e215e64int, 0xdd92ef4f8e4a4bae0137a6dc0cb1020e7591f041cd78a3b00c3a0d341a20318int, 0xbabbf8577359c854ecd6bb0878825ba104253f2a6dc81d0dccaf44f191540e8int);
    let e = lemma_chain_square(p, g, e, 0xbabbf8577359c854ecd6bb0878825ba104253f2a6dc81d0dccaf44f191540e8int, 0x9664ad8092927c28911d76be126514ad4458051d6bab87fe129c8587df04e6dint, 0xc06706ae47d5d7da5e5d6c42884121ea74aa0d36216a84090a5e448e9170655int);
    let e = lemma_chain_multiply(p, g, e, 0xc06706ae47d5d7da5e5d6c42884121ea74aa0d36216a84090a5e448e9170655int, 0x69191c05f87acc495bb1a6df36b9ef8839449e5f3f03acb3262eba03665d6b6int, 0xa7f6a0d1dd9046bbf88a07d36d8d0fb11e0299aae0f756a10dcc337ad8961b8int);
    let e = lemma_chain_square(p, g, e, 0xa7f6a0d1dd9046bbf88a07d36d8d0fb11e0299aae0f756a10dcc337ad8961b8int, 0x79ad65a016be411a51630718ac19bbb05d362dbb9b7ec057c1f40d9274d8f7bint, 0xc4c9b395918b9d7700f66863e5a4e38142cc5dc5d536fe7d60c6befbd753f53int);
    let e = lemma_chain_square(p, g, e, 0xc4c9b395918b9d7700f66863e5a4e38142cc5dc5d536fe7d60c6befbd753f53int, 0xa705f9e28a166ce9a500e9a5b39483a851d0401afce321c956ed9624219d13eint, 0x8c952dba9549564888739580036e0964611e3aa9ad7555c8b216fd184ab997int);
    let e = lemma_chain_square(p, g, e, 0x8c952dba9549564888739580036e0964611e3aa9ad7555c8b216fd184ab997int, 0x553d7c4c58860b87f4b61f21f4c293fbd42c2e71136c2315e837d3fd8a806int, 0x41fb7df7f85bbcb3e1ae6d16c4dc1f755cfc855241e995183399edd1f4c72c7int);
    let e = lemma_chain_square(p, g, e, 0x41fb7df7f85bbcb3e1ae6d16c4dc1f755cfc855241e995183399edd1f4c72c7int, 0x12c706a6f4319ad7b7ae9a8271f3a42c66a865e3314a1b0dd40bdc74ab39a79int, 0x142ea05a37d422f8eb191cbb94b3b601246cbdeaa5f375986b7f31015ee9e32int);
    let e = lemma_chain_square(p, g, e, 0x142ea05a37d422f8eb191cbb94b3b601246cbdeaa5f375986b7f31015ee9e32int, 0x1c1bb98577346b53d20513fa2c4b853a4a107afc4160bf6c3e489e7898a083int, 0xa89ad858eef130756588a0f6954862f81ee4b9b9b03722ee6b58511e9a3801fint);
    let e = lemma_chain_square(p, g, e, 0xa89ad858eef130756588a0f6954862f81ee4b9b9b03722ee6b58511e9a3801fint, 0x7a9bc721888bffe8e23466c43400ca160f2855110c3ebe38fa0665854acdf6aint, 0x4386a612de158b2d30d7b8f69cc156312d8fd85cebc2685596ddf966c5916fbint);
    let e = lemma_chain_multiply(p, g, e, 0x4386a612de158b2d30d7b8f69cc156312d8fd85cebc2685596ddf966c5916fbint, 0x24e2aca87d59aa37d83720d8dcfdf92a84eeb27fbff81bccd395dda21f35525int, 0xd27a30c3cc88dbbd3a57851f75c6ec6c27c0e840e685f024fd5df180cd2ddbint);
    let e = lemma_chain_square(p, g, e, 0xd27a30c3cc88dbbd3a57851f75c6ec6c27c0e840e685f024fd5df180cd2ddbint, 0xbf11bf1b63f2a4b6523c8c09ceac0ce88d8717c6288f4bde57930e5e9422fint, 0x4ce0d2a56a9650ca8851a2563d1c733a7204015c639506bac128c86e27d55c0int);
    let e = lemma_chain_square(p, g, e, 0x4ce0d2a56a9650ca8851a2563d1c733a7204015c639506bac128c86e27d55c0int, 0x197db297b28bd8279d70562f8aa69ec5df9470356b763dd46e42e354b3bb57cint, 0x73526ed2d87b1e20db628ea9c337b735c205b3bbae383ab510630e30cb5045cint);
    let e = lemma_chain_multiply(p, g, e, 0x73526ed2d87b1e20db628ea9c337b735c205b3bbae383ab510630e30cb5045cint, 0x3efe5c316c95d17b65c7daf983ea63f6de0ee9ec22edeedd11a3c8e8cd71018int, 0x506c4049fb37d0536bf8584a9b4e24a94f136e334f649b1baab673bf7bd0870int);
    let e = lemma_chain_square(p, g, e, 0x506c4049fb37d0536bf8584a9b4e24a94f136e334f649b1baab673bf7bd0870int, 0x1be5558d248f63b1e90dbd1c5f4bc811474bbf34a3a5f1dde1a2fca885b5d4eint, 0xa8c3551e71da8ef9e0827e99b468a4c1557968dbefea6321a4ce57c2e0c163eint);
    let e = lemma_chain_square(p, g, e, 0xa8c3551e71da8ef9e0827e99b468a4c1557968dbefea6321a4ce57c2e0c163eint, 0x7ad6b09ba2ec66f8ec1dc8455c29eb8a4f24325362b65ab048f9c011992ad03int, 0xef5abe650591bab727d4ca2fdf0149faae019ebac1201cc8992132724385dfint);
    let e = lemma_chain_multiply(p, g, e, 0xef5abe650591bab727d4ca2fdf0149faae019ebac1201cc8992132724385dfint, 0x82bec550e36592f5fae6d761041b49a73e6a481a3fe059774c76108e5f0dacint, 0x35072ddc6748bdc22dc2d8d6a4b54ed1bce5d5c4af2c28eb21b836962b98842int);
    let e = lemma_chain_square(p, g, e, 0x35072ddc6748bdc22dc2d8d6a4b54ed1bce5d5c4af2c28eb21b836962b98842int, 0xc20c90d3b052fcdad3ede8078041aa8172a5103bbbe5896456abb3bd7c55daint, 0x403862722bf2e04715bfbd271befb8b7d9d9ac606e2337cdb6b0e17dbf15a2eint);
    let e = lemma_chain_multiply(p, g, e, 0x403862722bf2e04715bfbd271befb8b7d9d9ac606e2337cdb6b0e17dbf15a2eint, 0x2314690ca426b8b0c3129f37194280c60b5bc45391ab4c71ae55ce7723e0ae6int, 0xa99edbdbafae57fe4baa1a5ec4c22e35453325842c61cf89253bf0644fff262int);
    let e = lemma_chain_square(p, g, e, 0xa99edbdbafae57fe4baa1a5ec4c22e35453325842c61cf89253bf0644fff262int, 0x7c1713f1006fc24c6f235eff97afef8f91009f7f9d03c96fd525537f51df652int, 0x76c1e414171478de191d3547f061fbad8bd3a6a4b6119df62968e3240da40e6int);
    let e = lemma_chain_multiply(p, g, e, 0x76c1e414171478de191d3547f061fbad8bd3a6a4b6119df62968e3240da40e6int, 0x40dec18da4657bea174411cae988f82dc1513ba57ebfcc0bdcb82acacadffa2int, 0x4e32b79010e8713778578d8f5c61fab236f0b87153221b913357c39359aaf2eint);
    let e = lemma_chain_square(p, g, e, 0x4e32b79010e8713778578d8f5c61fab236f0b87153221b913357c39359aaf2eint, 0x1a5fb25b070c354dd514893db5bb5dd80b7d00354b192463b3b437fa0d3829eint, 0x72860aa572e361b244530711d82e5db05f00a833fdbab7bbf4f3754db206552int);
    let e = lemma_chain_square(p, g, e, 0x72860aa572e361b244530711d82e5db05f00a833fdbab7bbf4f3754db206552int, 0x389164bee7f089251bb89547d29fb60d31128053ca5f91ef45c699f260f1710int, 0x32f6e8b45b8a0a37f7b286303eee67dae5c0d69d462bb656f25a23e5b6991d4int);
    let e = lemma_chain_square(p, g, e, 0x32f6e8b45b8a0a37f7b286303eee67dae5c0d69d462bb656f25a23e5b6991d4int, 0xb33d860c7679705b3a3fbf3c3daaa4b020d059c224186c35f4398bcc78845aint, 0x2fb3b6ff19c68e61bf73a2c8105708c4369c8e6531254ee38c375dadb3dc33aint);
    let e = lemma_chain_multiply(p, g, e, 0x2fb3b6ff19c68e61bf73a2c8105708c4369c8e6531254ee38c375dadb3dc33aint, 0x1a0e89bbb328b038f4005e38054f15bd4bf29f174aaf2375da2066af5a579a7int, 0xd96f11abdbcb29a1bf6ceece42c364b1ffaeab7ee3c702728008fe607edcae3int);
    let e = lemma_chain_square(p, g, e, 0xd96f11abdbcb29a1bf6ceece42c364b1ffaeab7ee3c702728008fe607edcae3int, 0xcbe88252f97bd188c41dcfb8802c384bafe9d07b1049fe958d9e31aa12221a7int, 0x24e0c76367e9e797ae84e3a48e51497bc4c7a0b7951d19ee229ec093c942e8int);
    let e = lemma_chain_square(p, g, e, 0x24e0c76367e9e797ae84e3a48e51497bc4c7a0b7951d19ee229ec093c942e8int, 0x5dd9b38ef3d78bd19b6b97a317a2a5a512a59a67a746f5c3f8abc29be814int, 0x2a05fb1de416e81265d7d33d51ca7c7c8c22863bedf66279773cd10052a1bf4int);
    let e = lemma_chain_square(p, g, e, 0x2a05fb1de416e81265d7d33d51ca7c7c8c22863bedf66279773cd10052a1bf4int, 0x79dda7f05d59b00fbbede1c6ef93cb0bb56aa87ecd337db40a2bbf39e445c9int, 0x68c5210202d2d63376351bd01a4fd6e5ec9cf3ec5a2a715179837bbe01f1e1int);
    let e = lemma_chain_multiply(p, g, e, 0x68c5210202d2d63376351bd01a4fd6e5ec9cf3ec5a2a715179837bbe01f1e1int, 0x393acc24c535061a96ad86a0fdd785178aa3c72356853fcdc5f3c8cfff7de9int, 0xbe230a2be9035738674452fa9c3c69345a7d0c93da504099c9a95e8474fa1bbint);
    let e = lemma_chain_square(p, g, e, 0xbe230a2be9035738674452fa9c3c69345a7d0c93da504099c9a95e8474fa1bbint, 0x9bec8e8b3c93376c9887e05df056a67c8a30fa76737cc2e8b8ab17bcb271155int, 0x3faa22e2be09c664a7be8be3d51c6b01dcc489da1481d892e1a409d3aabbed6int);
    let e = lemma_chain_square(p, g, e, 0x3faa22e2be09c664a7be8be3d51c6b01dcc489da1481d892e1a409d3aabbed6int, 0x117b3d71923c9b14d65db531fb6978604f3b3dd55f61d7652f860f604994e4bint, 0x40979a8dfa9549e6ea5d5e058b1195a6846a9d0d98d832928bf4e9e98bd7f47int);
    let e = lemma_chain_multiply(p, g, e, 0x40979a8dfa9549e6ea5d5e058b1195a6846a9d0d98d832928bf4e9e98bd7f47int, 0x23486c46d80c7b15cc0047782c950b519e80868970bc24e6f3f37ce41dd913dint, 0x4bee69524c0581e5981a420f87232e65c855cd99a329d200ee0fc3b98d4e1abint);
    let e = lemma_chain_square(p, g, e, 0x4bee69524c0581e5981a420f87232e65c855cd99a329d200ee0fc3b98d4e1abint, 0x18ddee8af317dd3b205825201cc1db71c8248ab725bab25842f8414fbf1a570int, 0x78d2f1114142fe3240400ab237a8ce80cc137d37966a1a196892df3b8e98529int);
    let e = lemma_chain_multiply(p, g, e, 0x78d2f1114142fe3240400ab237a8ce80cc137d37966a1a196892df3b8e98529int, 0x41ffbec66f68bbb666b70dde365792c67ca0488ebe4bb2cdb2c5d9f65c62511int, 0xcd777a9bdd2bfbbee3ce19e840d43fa5e322596458658cf51e615c0c77e08f3int);
    let e = lemma_chain_square(p, g, e, 0xcd777a9bdd2bfbbee3ce19e840d43fa5e322596458658cf51e615c0c77e08f3int, 0xb614998ff54ec3c1530a2e3ada2112007d72e3903a9ed94c1b73ed61f14cb87int, 0xa9c904a352a8c4fb6c5e80a329371bfe32fcd137410a8897fdb4549956a6528int);
    let e = lemma_chain_multiply(p, g, e, 0xa9c904a352a8c4fb6c5e80a329371bfe32fcd137410a8897fdb4549956a6528int, 0x5cbe5ece30a5c09049d9ac928fb861c34843b859b361770a75cc93ed05544f5int, 0xbdfebe2939c9cd33a46da5f425fa6af8fd523e654c5cef33077e2cce4d5006dint);
    let e = lemma_chain_square(p, g, e, 0xbdfebe2939c9cd33a46da5f425fa6af8fd523e654c5cef33077e2cce4d5006dint, 0x9bb10c2c9e92c9402c273ae702bf255ad1125393f5559ad4bad56a315378abfint, 0x1ca1668bffa3f67b3cf836efa589fb31e2aae1bd53dae0e3093fac59e8c2be0int);
    let e = lemma_chain_multiply(p, g, e, 0x1ca1668bffa3f67b3cf836efa589fb31e2aae1bd53dae0e3093fac59e8c2be0int, 0xfa39e4a1e1256f7faffe50ea29e670b57ddc7304c47485d6c991c2e8584384int, 0x51f9968bacdcc3e60ffb00275418e2b74e873a6bfbcb7caaee4e5f9e8373364int);
    let e = lemma_chain_square(p, g, e, 0x51f9968bacdcc3e60ffb00275418e2b74e873a6bfbcb7caaee4e5f9e8373364int, 0x1cfba362fc3501a33350963c0f200b22b35bd6877f65b83db5d7f61c2024a6eint, 0x6d7e76bb2e7ec3c77a9a14e243d31762dd63787f118d08fa510aa8886b8e26eint);
    let e = lemma_chain_square(p, g, e, 0x6d7e76bb2e7ec3c77a9a14e243d31762dd63787f118d08fa510aa8886b8e26eint, 0x33b559461d2e6af7d0506be138dfd8ea8c49fd1391dc555c65a647cb23fd34dint, 0x8cb58e4c7c84618396d6d86f2844c6b20839d13e8d8ea086933592dcd2a1f39int);
    let e = lemma_chain_multiply(p, g, e, 0x8cb58e4c7c84618396d6d86f2844c6b20839d13e8d8ea086933592dcd2a1f39int, 0x4cdc72652f3e01386b1714fb94452fb2d26ea9cf3de713f152c4861d6e8a1b3int, 0x40e2cef3200e7f4332feba04ac84013cc72b93d07858e657250c41ad554e5c5int);
    let e = lemma_chain_square(p, g, e, 0x40e2cef3200e7f4332feba04ac84013cc72b93d07858e657250c41ad554e5c5int, 0x1228990ef8288aa9c59887ec490709b39d5a9f6fbcb58f28ba46cfbe2064db1int, 0x7a75d2e06e04a92dafac83e43df95ff9ea5e1837249b0ea50c5f598d5df1412int);
    let e = lemma_chain_square(p, g, e, 0x7a75d2e06e04a92dafac83e43df95ff9ea5e1837249b0ea50c5f598d5df1412int, 0x40ae1b0c566e266d15d29da454ab6fb6cf0061f5f83a2b6fe7968de344f7427int, 0x1d89c87c3b2c6b37c34fcfb09bbfefecd5aeda3ede0a48a563c6f41348b1563int);
    let e = lemma_chain_square(p, g, e, 0x1d89c87c3b2c6b37c34fcfb09bbfefecd5aeda3ede0a48a563c6f41348b1563int, 0x3c35c503ca2337852016e71d01db55efbaa57e0b386356a656a5ce7cf6a4a8int, 0xd8c01f7c96ca093870ce1d622971083e67dae72f6c85d817e9319236c96d031int);
    let e = lemma_chain_multiply(p, g, e, 0xd8c01f7c96ca093870ce1d622971083e67dae72f6c85d817e9319236c96d031int, 0x7665e1c339b607f505029e5dc955741ce79e2d99c71a86c5a5dbdbdadff27ecint, 0xe7db4ea6533afa906673b0101343b00a6682093ccc81082d0970e5ed6f72cb6int);
}

/// A power of a power of the root 6 modulo the prime `r`.
proof fn lemma_power_r_3()
    ensures
        pow_mod(0x7ea64bca3e20bc768d5a1956adf929225231720a97c0cddd8da0e140fdacc8aint, 0x2b2efe9710e4d05725e9nat, r_prime()) == 0xe7db4ea6533afa906673b0101343b00a6682093ccc81082d0970e5ed6f72cb6int,
{
    let p = r_prime();
    let g = 0x7ea64bca3e20bc768d5a1956adf929225231720a97c0cddd8da0e140fdacc8aint;
    lemma_chain_start(p, g);
    lemma_power_r_3_part_1(p, g);
    lemma_power_r_3_part_2(p, g);
}

/// A power of a power of the root 6 modulo the prime `r`.
proof fn lemma_power_r_4()
    ensures
        pow_mod(0x7ea64bca3e20bc768d5a1956adf929225231720a97c0cddd8da0e140fdacc8aint, 2, r_prime()) == 0x83394419a1e267f269ebbcb30c187c44a9b4e46a2b90dc0d0651fba8cd1bf2cint,
{
    let p = r_prime();
    let g = 0x7ea64bca3e20bc768d5a1956adf929225231720a97c0cddd8da0e140fdacc8aint;
    lemma_chain_start(p, g);
    let e: nat = 0;
    let e = lemma_chain_square(p, g, e, 1, 0, 1);
    let e = lemma_chain_multiply(p, g, e, 1, 0, 0x7ea64bca3e20bc768d5a1956adf929225231720a97c0cddd8da0e140fdacc8aint);
    let e = lemma_chain_square(p, g, e, 0x7ea64bca3e20bc768d5a1956adf929225231720a97c0cddd8da0e140fdacc8aint, 0x452e624baeac926efeeebfb316227af87ef8b07b43c53e9985a1725825d1688int, 0x83394419a1e267f269ebbcb30c187c44a9b4e46a2b90dc0d0651fba8cd1bf2cint);
}

/// A power of a power of the root 6 modulo the prime `r`: the steps from the exponent
/// 0
/// to the exponent
/// 0x15977f4b886.
proof fn lemma_power_r_5_part_1(p: int, g: int)
    requires
        p == r_prime(),
        g == 0xe202e797a88364260be56fa670b57120e46cdd525b0dfd6021986ce4279e2dcint,
        pow_mod(g, 0, p) == 1,
    ensures
        pow_mod(g, 0x15977f4b886, p) == 0xd4f5d56436c266463e95c7bd16088fa52fb13bb45190e21bd8cec9a48300535int,
{
    let e: nat = 0;
    let e = lemma_chain_square(p, g, e, 1, 0, 1);
    let e = lemma_chain_multiply(p, g, e, 1, 0, 0xe202e797a88364260be56fa670b57120e46cdd525b0dfd6021986ce4279e2dcint);
    let e = lemma_chain_square(p, g, e, 0xe202e797a88364260be56fa670b57120e46cdd525b0dfd6021986ce4279e2dcint, 0xdc503a509c4c43954ccfe551831529df46b8a485baa7d704dc7b4a75008f211int, 0x6a21cd2b3c2756bae13fcd2c460d3d7b45d0e0e43221f30d631147c289a36e9int);
    let e = lemma_chain_square(p, g, e, 0x6a21cd2b3c2756bae13fcd2c460d3d7b45d0e0e43221f30d631147c289a36e9int, 0x3094ef69eec55ea640d142a7802c2d9f5f7ec73d07aa7746f7bf4a6eb257b3bint, 0x189db562ca955f55ab42ece6d11e20da1b684bad9d6beec6c07e4332b34e4e4int);
    let e = lemma_chain_multiply(p, g, e, 0x189db562ca955f55ab42ece6d11e20da1b684bad9d6beec6c07e4332b34e4e4int, 0x17fed62b4ca85b98196d14088bcff228e4451790f15aeb400671650cb104dbeint, 0xc05e6933d1b2c2b5c5fcb8611027e63dd68ecdcd259818cafaa8a74fef3c11eint);
    let e = lemma_chain_square(p, g, e, 0xc05e6933d1b2c2b5c5fcb8611027e63dd68ecdcd259818cafaa8a74fef3c11eint, 0x9f9b2d41e59442d07cce366845ab7fbb13c7c055ba15c3992ec52231e020286int, 0x7e72c46d470f47f319c300009fed08e3648a8cbd422780398ed52fc797969baint);
    let e = lemma_chain_square(p, g, e, 0x7e72c46d470f47f319c300009fed08e3648a8cbd422780398ed52fc797969baint, 0x44f6226c71d306960ffc24ddfb5566c868c852cb5b1d3e3135a26f7c6add841int, 0x648a1effd6ecd4becf5a4d40d92e6024aa16cd3d7ccf538e980e2120d5658adint);
    let e = lemma_chain_multiply(p, g, e, 0x648a1effd6ecd4becf5a4d40d92e6024aa16cd3d7ccf538e980e2120d5658adint, 0x62013d35103c4d6e4f24cae8c3d680bec3cdaa7fd726ab5664ade672fa16b5dint, 0xb5b3b69892f784d94d2385206ef112a0a05d81c81c71deddafb929514af3331int);
    let e = lemma_chain_square(p, g, e, 0xb5b3b69892f784d94d2385206ef112a0a05d81c81c71deddafb929514af3331int, 0x8e658c7576944489274e6f2496e021f65bf51a8b0a76a131861b475150aa344int, 0x4936fc0c9137221e04047c8ac30642a33b9944d50530850b0bb56ea71f429c5int);
    let e = lemma_chain_multiply(p, g, e, 0x4936fc0c9137221e04047c8ac30642a33b9944d50530850b0bb56ea71f429c5int, 0x475e74db5b9736e5a8e03d438b12a6936f90a15e8d8217cd99ee397777b19bfint, 0xddf54353f5ba3ea0a5ba5b2ab014955095fb6deee2ce197d9816488f01b93c3int);
    let e = lemma_chain_square(p, g, e, 0xddf54353f5ba3ea0a5ba5b2ab014955095fb6deee2ce197d9816488f01b93c3int, 0xd47b677ab5d39fe6c1513337c1a578566a03bd85faca867e382a656750397ffint, 0x44e388ccbf4c3b6d61ff8042e426133d7d77f04b06041712f34a2230bb10b40int);
    let e = lemma_chain_square(p, g, e, 0x44e388ccbf4c3b6d61ff8042e426133d7d77f04b06041712f34a2230bb10b40int, 0x1477d600dd2053cca91771cfebb185878ba43d30d66928b142200bfe708d2e6int, 0x440423c26881c0347ba71a5c042db3c0e23411867ea5e616005f1c0a3864596int);
    let e = lemma_chain_square(p, g, e, 0x440423c26881c0347ba71a5c042db3c0e23411867ea5e616005f1c0a3864596int, 0x13f3ed73415e76b9b1e81ff7d2ecfd6c40cc1b0b3506db8a04f422b85f0b137int, 0xc63c49632ffdc3e8ff6b214b85c542f3b0987451f8d7b70b73cc456dc5d1193int);
    let e = lemma_chain_multiply(p, g, e, 0xc63c49632ffdc3e8ff6b214b85c542f3b0987451f8d7b70b73cc456dc5d1193int, 0xc13ce006e78fd2351e09af9256c4212c3e698ff8f44e0aee54537f5df9bbdc7int, 0x1a50abab28f79bf6f1d17c0a1ef7bdf51fe5ccb064353b4a5abe1d2ac060313int);
    let e = lemma_chain_square(p, g, e, 0x1a50abab28f79bf6f1d17c0a1ef7bdf51fe5ccb064353b4a5abe1d2ac060313int, 0x2fc9825126023bace09c2c41be72a9f02bbb17ef1700717fbe5d0fab51c5c3int, 0xa096f0263a6d931f9d8ae5be267cbad996ab64b3a51dcda74fa5efb56569104int);
    let e = lemma_chain_square(p, g, e, 0xa096f0263a6d931f9d8ae5be267cbad996ab64b3a51dcda74fa5efb56569104int, 0x6f3a710da2d8fb4503054d896430164e00d869e9948ce4d25b281ab806807e0int, 0xe26a175be64549a38ee44dea2c218cf429e547b69b0e4b642b869acebfd66f0int);
    let e = lemma_chain_multiply(p, g, e, 0xe26a175be64549a38ee44dea2c218cf429e547b69b0e4b642b869acebfd66f0int, 0xdcb4d01d89707d3e6dfbcdd7abdda426dc77baf5e6b6b8a20ee35df31f0c001int, 0x7f749e8e7cd1019badcf3a9a70b98f5e6022c34ce7615518771f015df03e989int);
    let e = lemma_chain_square(p, g, e, 0x7f749e8e7cd1019badcf3a9a70b98f5e6022c34ce7615518771f015df03e989int, 0x461081701e4ca91a317b024e39ec63c5a86f944c96ade0dbbe208b7c4c23d23int, 0x4bb6473dfd79e9bb52c569a9f93551f89f16707d95c99bcc9929cd8b41ff34cint);
    let e = lemma_chain_multiply(p, g, e, 0x4bb6473dfd79e9bb52c569a9f93551f89f16707d95c99bcc9929cd8b41ff34cint, 0x49cda20c9cb2dd9086bb11e54a801690446e47fc722a8f374014758bbeceb65int, 0xbff8228f7fe079f6a5a6987d4f62ddfab59a94031071124a77b740bfbe58c1dint);
    let e = lemma_chain_square(p, g, e, 0xbff8228f7fe079f6a5a6987d4f62ddfab59a94031071124a77b740bfbe58c1dint, 0x9ef1a380ef695d6e164a7d95d36a0dd26c19cff7e6db91437338d21d6db33ecint, 0x45390ded387b02b607293acfe1c21789e10893b7b83e93a15890966323f0d95int);
    let e = lemma_chain_multiply(p, g, e, 0x45390ded387b02b607293acfe1c21789e10893b7b83e93a15890966323f0d95int, 0x437a4a4522e682f4ae5d800a0262d2e4003d4c9f694c99c31ad77fe9cc1b5aaint, 0xdb1672b51c23df0699c5f83aafe5f8509db120cf939335ad40e8240f0e22186int);
    let e = lemma_chain_square(p, g, e, 0xdb1672b51c23df0699c5f83aafe5f8509db120cf939335ad40e8240f0e22186int, 0xcf059d2b597e22233bdd10466446e22472ec9b9a7a3fbb429e8401b1c44e539int, 0x6f160bd61583212dab85d2d471c7e9086bf063d8f6ebe9a8a24fe5898572a65int);
    let e = lemma_chain_square(p, g, e, 0x6f160bd61583212dab85d2d471c7e9086bf063d8f6ebe9a8a24fe5898572a65int, 0x35391ba880a6ad0aa9d269a166ccd050262548c044e5b357dc64db16f03dcfeint, 0x391756c342608ddf21d8d435ad627b93a79c66205e33585e4aec7d034daaa47int);
    let e = lemma_chain_multiply(p, g, e, 0x391756c342608ddf21d8d435ad627b93a79c66205e33585e4aec7d034daaa47int, 0x37a6df638e1bc65551b5e740b033bb9967c7ee4f965ded31340493808b3d249int, 0x57ecb1566d861ca47654e15afefdcb15beaa6c37392c3d871312b5534ad24d5int);
    let e = lemma_chain_square(p, g, e, 0x57ecb1566d861ca47654e15afefdcb15beaa6c37392c3d871312b5534ad24d5int, 0x2157bc7ba06213bd4152d7cce84ad8b9b72f24942e17197d78bc0db51d318d4int, 0x6f99a6ade206898d13afa665890e092f16057def93fdc4b53c12165627769adint);
    let e = lemma_chain_multiply(p, g, e, 0x6f99a6ade206898d13afa665890e092f16057def93fdc4b53c12165627769adint, 0x6cc9623273a6d1875ea804e908df7abe857cfb49189aabf8c35ac77d4bdf71fint, 0x7197ad872658fa80ad6bd58a46d0d265696bc51e65873995309bd7a83808f83int);
    let e = lemma_chain_square(p, g, e, 0x7197ad872658fa80ad6bd58a46d0d265696bc51e65873995309bd7a83808f83int, 0x37a6e017063f5267851c393fb318c3dcbcde8844d6c25e263bd87d663bddbc7int, 0x43906e55a05275e09adb87c566d83e2510eaa813a08934dfc068fec8ff44dc8int);
    let e = lemma_chain_multiply(p, g, e, 0x43906e55a05275e09adb87c566d83e2510eaa813a08934dfc068fec8ff44dc8int, 0x41dc5f3259cf9ae2227901090fe86b9e232bd6e3f3d28ab474074976a9e606dint, 0x4efee7fa8100687bb937ddec7ce8b98f2156e92fd728432f066d3d71f30bdf5int);
    let e = lemma_chain_square(p, g, e, 0x4efee7fa8100687bb937ddec7ce8b98f2156e92fd728432f066d3d71f30bdf5int, 0x1aea21ee37a74f3433e97305eff76dd296c0c301e0ec461c79cc5d9804eb8bbint, 0xab123c858e37d14844cc253fa8f71645e588173cb48e8acd58b4d3c50607accint);
    let e = lemma_chain_multiply(p, g, e, 0xab123c858e37d14844cc253fa8f71645e588173cb48e8acd58b4d3c50607accint, 0xa6c22497237d157b75da91d527cd1d2e9390db1654228a6cd7e1015d887da89int, 0xde83d98facd134c5af8a4d7fad29c4123424c36270ef18fd15a9b4f5ee1db61int);
    let e = lemma_chain_square(p, g, e, 0xde83d98facd134c5af8a4d7fad29c4123424c36270ef18fd15a9b4f5ee1db61int, 0xd58cbede5ff3fd0439d578dc4e19710628be06eface538356a4ecabc2b0e04aint, 0x6247cfc0d6765ebb22993b1d5ffbdaadbf66ac8be4b52470883b0abc21e0ddbint);
    let e = lemma_chain_multiply(p, g, e, 0x6247cfc0d6765ebb22993b1d5ffbdaadbf66ac8be4b52470883b0abc21e0ddbint, 0x5fcd825ebfe8bd38087d43bfcc879f11a31ec6c85cf1d430b9933735a95cbc8int, 0x995c682251e54804b05e770f583f3fa46337bf10e64fbbd83b1bfa20e7f323cint);
    let e = lemma_chain_square(p, g, e, 0x995c682251e54804b05e770f583f3fa46337bf10e64fbbd83b1bfa20e7f323cint, 0x6570b07f3b02781e2f13a26c1470068b71420487e07a060c2c75e769529af77int, 0x7c628af84445f276efb334af5cfa1ec18d7486443c2d7dc03c7a8a1e09d9bffint);
    let e = lemma_chain_multiply(p, g, e, 0x7c628af84445f276efb334af5cfa1ec18d7486443c2d7dc03c7a8a1e09d9bffint, 0x793fc33fde70d6c13a41a3c7e1f9e3bcd9775d63b01efd97330f7d4c3d4000aint, 0x39d611ba62373d26e6ffcdc885f7d4305bd4ce502192e3708ed2d4fd27c6dfeint);
    let e = lemma_chain_square(p, g, e, 0x39d611ba62373d26e6ffcdc885f7d4305bd4ce502192e3708ed2d4fd27c6dfeint, 0xe6d5893978782ad88dadbe05f98f32b107586136e70bb5e34e927b6c5976a3int, 0x696d867ed9b883a307ee29f0fa67755b287ca41980202c34557d581e7b5757fint);
    let e = lemma_chain_multiply(p, g, e, 0x696d867ed9b883a307ee29f0fa67755b287ca41980202c34557d581e7b5757fint, 0x66c5182466e56ded2c5f4874c42b0db5514b740a4cba82e754e3de437f23dafint, 0x83ad84a806d46e099371f0d62d429b5bf9c75ec337acbe148f453252a14eb0bint);
    let e = lemma_chain_square(p, g, e, 0x83ad84a806d46e099371f0d62d429b5bf9c75ec337acbe148f453252a14eb0bint, 0x4ac890fb58f440b21d9fd1ed7a3d5cc6764f9d37fc6c519d1693d88e5011aeeint, 0x7fb80251787f88881962e2e6ce815ef52964b5e939abf7efec2a5d359780a57int);
    let e = lemma_chain_square(p, g, e, 0x7fb80251787f88881962e2e6ce815ef52964b5e939abf7efec2a5d359780a57int, 0x465aac3272973b25e2114d2c8f35b23a34b4099e87ca34ea95b339270e9da49int, 0x3c37c8aa4934b719333986bef4e61f08030bd39850f11286dbb44e4a4dc5362int);
    let e = lemma_chain_multiply(p, g, e, 0x3c37c8aa4934b719333986bef4e61f08030bd39850f11286dbb44e4a4dc5362int, 0x3ab3233895d13a3e9dbfd61e5989fc56759dc1cce5e496d5568573f5582502cint, 0xd08418815d9e39056ed1b4aebbecfa6912058ea06ab678a5b7aa3a633e34cc4int);
    let e = lemma_chain_square(p, g, e, 0xd08418815d9e39056ed1b4aebbecfa6912058ea06ab678a5b7aa3a633e34cc4int, 0xbb866664faa954105f27a8f528bb6138dec84f93beec02540c388c4b37e2900int, 0xb4199cc2a354854830e8bbe0e51e1f996fca424b20bbafe032f3a21c561a710int);
    let e = lemma_chain_square(p, g, e, 0xb4199cc2a354854830e8bbe0e51e1f996fca424b20bbafe032f3a21c561a710int, 0x8be59ab7687c70a725a2646d04d92668336f442a8bff5859110d9e223e11180int, 0x80e8dca9fd924bb1f532cc5420f8d9c18e8bb5ce8f0aa2c928f3e36fc05e80int);
    let e = lemma_chain_square(p, g, e, 0x80e8dca9fd924bb1f532cc5420f8d9c18e8bb5ce8f0aa2c928f3e36fc05e80int, 0x47ac18a4afc2b1e81685a1a2f51f9745a58696c62c88a6fddb20dfd59e534int, 0x333db61d0fc4decaa9405d71acf6fe31aba151c44c07f2428c2b187b70e77d4int);
    let e = lemma_chain_multiply(p, g, e, 0x333db61d0fc4decaa9405d71acf6fe31aba151c44c07f2428c2b187b70e77d4int, 0x31f3006ce5f701d6b73675da2d1372c4a29698d06fff9ca3da8e50d650cafa6int, 0x40fb98fe25726c84791ac594ac51dbeb29a5faba5870ce875c64e97ba000a86int);
    let e = lemma_chain_square(p, g, e, 0x40fb98fe25726c84791ac594ac51dbeb29a5faba5870ce875c64e97ba000a86int, 0x12367ba32c5744e95700742aa88382cd93044d7344d93524e415d4580a61668int, 0x68ef8013e5f75f623ead9c9dd99d601ed3a7830c403d7f76ef8a168a782d9ccint);
    let e = lemma_chain_square(p, g, e, 0x68ef8013e5f75f623ead9c9dd99d601ed3a7830c403d7f76ef8a168a782d9ccint, 0x2f7e191db352ce19ac11c024344f102eb080afedff128ef714a23f3e48bb042int, 0x76bad656c0f8da3e1c5b076c4790d4c0233bc4d4831916ef7b74dcf76a72362int);
    let e = lemma_chain_multiply(p, g, e, 0x76bad656c0f8da3e1c5b076c4790d4c0233bc4d4831916ef7b74dcf76a72362int, 0x73bc8e1badea2a7015e817b395f8a2dd87a9abe3c775c1072b6296f46496ac0int, 0xa03dafe83f16a8824e2c5674df50d9ccbf79560fde01f360ef354d2261c9cf8int);
    let e = lemma_chain_square(p, g, e, 0xa03dafe83f16a8824e2c5674df50d9ccbf79560fde01f360ef354d2261c9cf8int, 0x6ebef0e80e0c9c59e56165ecf842b1287b01d7c6419f64e2296175a78596007int, 0x1ddc6c674c05b5bc307ee0ed4db45e667a048cc8abaaf675c0b113d7159573fint);
    let e = lemma_chain_multiply(p, g, e, 0x1ddc6c674c05b5bc307ee0ed4db45e667a048cc8abaaf675c0b113d7159573fint, 0x1d1bb34e8e04dab931412e42fa709d623b758307afa124d52d954f4a4a460a9int, 0xc306be0f23797ae906dc5da1dd1ccd76cf3d34cd2d7143b05bf12a647667355int);
    let e = lemma_chain_square(p, g, e, 0xc306be0f23797ae906dc5da1dd1ccd76cf3d34cd2d7143b05bf12a647667355int, 0xa40be6aaa6d3f7d47f4d2af6482dcece7f9f3d9aab67b42e62c27146209fa23int, 0xd3b1096b53129aabf501120e2d4d0928f35ff38e99f95361af26135dbcca734int);
    let e = lemma_chain_multiply(p, g, e, 0xd3b1096b53129aabf501120e2d4d0928f35ff38e99f95361af26135dbcca734int, 0xce5ac7a5a1c42d2cbe23d039098c1847bf92b462df305c794ae52ddb127f126int, 0xe078b4a13026c2965c94d0e2271eaad72ff6ff5c6e8d27dd36739020e65ae86int);
    let e = lemma_chain_square(p, g, e, 0xe078b4a13026c2965c94d0e2271eaad72ff6ff5c6e8d27dd36739020e65ae86int, 0xd95252ebb8eece80b5ac135c155cfdb14853707fdc2286ce2b598d475f31347int, 0xa83f7454f13f94c5d1b9f46af8ca88622cc658e54f83478d715f3b4c9227263int);
    let e = lemma_chain_square(p, g, e, 0xa83f7454f13f94c5d1b9f46af8ca88622cc658e54f83478d715f3b4c9227263int, 0x7a170040b95b24c1d7a7bc354c74b272b648d7acf159d2fedf21b4546eea40cint, 0x35380fd9653bcf30e5a6b6f0e3dd164322d243095c3dd19604cb0f9030afdb5int);
    let e = lemma_chain_square(p, g, e, 0x35380fd9653bcf30e5a6b6f0e3dd164322d243095c3dd19604cb0f9030afdb5int, 0xc372f847db58de55ac7b8268958d75c86f78f4364716511f251525e7657096int, 0x1959184c7956e1cd3a6eb74d57c505a5e651a0aa79235b3e5b470962dfbfebfint);
    let e = lemma_chain_square(p, g, e, 0x1959184c7956e1cd3a6eb74d57c505a5e651a0aa79235b3e5b470962dfbfebfint, 0x2c56db918ea1f3e467ef62ad71de0fa55759a59ad5e3f55b64ce43dbfd165dint, 0xdab8c898b024e10c5cb54b5a72dd0d66125332922de0026982bfd169a8b9a06int);
    let e = lemma_chain_multiply(p, g, e, 0xdab8c898b024e10c5cb54b5a72dd0d66125332922de0026982bfd169a8b9a06int, 0xd5352742e74661c4cbdd0fa0a0b343f69a88a02afaf58936c9b28177656ed91int, 0x5ecbf81313ab8d6d411bc9aca88bd1e0cf62887b8a4d632d57fdf9070e7ea81int);
    let e = lemma_chain_square(p, g, e, 0x5ecbf81313ab8d6d411bc9aca88bd1e0cf62887b8a4d632d57fdf9070e7ea81int, 0x26c22f48adfc3f78e55a33dffaa38a818f22b723a81aff4d724b43e06fe669cint, 0x8e31037c6d664621695c07f1bec8450b0903fa87942cd08fa4b2e5bc99beb7dint);
    let e = lemma_chain_square(p, g, e, 0x8e31037c6d664621695c07f1bec8450b0903fa87942cd08fa4b2e5bc99beb7dint, 0x5733c33f1397dd73f37358325376b9f7bf063a9ecb387b98c2cb486953de389int, 0xa2b84b90eaf0a1abda21322430e175733961aa3ead1172cd4ec9a8aea74881aint);
    let e = lemma_chain_square(p, g, e, 0xa2b84b90eaf0a1abda21322430e175733961aa3ead1172cd4ec9a8aea74881aint, 0x7232e85ee6579b0d159498531bfacba6a078d58e21c2b0723beb9377cf068e0int, 0xca8d50772a4df96e333a4824428c1d6a03c1399ec5cee9a81c20bdf15ea2a84int);
    let e = lemma_chain_square(p, g, e, 0xca8d50772a4df96e333a4824428c1d6a03c1399ec5cee9a81c20bdf15ea2a84int, 0xb0f38202acdf728c5d76099a47388d66e0c12fd2ee819339bb0638b420b7b22int, 0x7310737506a5bedf56ae19ae70f2df63b3294c66c1f12f994c72ebeff32b6c2int);
    let e = lemma_chain_square(p, g, e, 0x7310737506a5bedf56ae19ae70f2df63b3294c66c1f12f994c72ebeff32b6c2int, 0x391a72d5339f56beb81e25c6bdbcbec88124f8ffec62b032ceb6cb82b522a56int, 0x65c077bb298f0c6721096ae99482123a505fcbdb71c735ccddf7c28e435f8aint);
    let e = lemma_chain_multiply(p, g, e, 0x65c077bb298f0c6721096ae99482123a505fcbdb71c735ccddf7c28e435f8aint, 0x632fc2f666462d292b7a4962cf5ae658a2aa0ef2c0b0dc516ec0417af4c006int, 0x783f82e4c0d9b47a1fa4feb475b93aa53786a097e408f5546baa58038b7a24eint);
    let e = lemma_chain_square(p, g, e, 0x783f82e4c0d9b47a1fa4feb475b93aa53786a097e408f5546baa58038b7a24eint, 0x3e5d49b3b2d3ad632c732d880c5340a33f3c5e44ef0505b3c10f9bf50dc8976int, 0xd4c9af31ebbe4615826fccd651f858c5d1608d83e8ecdad876bfe0d984a446aint);
    let e = lemma_chain_multiply(p, g, e, 0xd4c9af31ebbe4615826fccd651f858c5d1608d83e8ecdad876bfe0d984a446aint, 0xcf6c5a1fb5056c638d94415577b989993a900de000e3ade2623fb6c9fc984c5int, 0x62f66b02cb8efb8ed8b429b457e08e63cf6c77d9645349e52ee714b765f9a45int);
    let e = lemma_chain_square(p, g, e, 0x62f66b02cb8efb8ed8b429b457e08e63cf6c77d9645349e52ee714b765f9a45int, 0x2a3d66a52469ad678a842d3b82d87e6f0f8aad3089f50fde8f8622f70549dbcint, 0xd4f5d56436c266463e95c7bd16088fa52fb13bb45190e21bd8cec9a48300535int);
}

/// A power of a power of the root 6 modulo the prime `r`: the steps from the exponent
/// 0x15977f4b886
/// to the exponent
/// 0x565dfd2e21c9a0ae4bd2.
proof fn lemma_power_r_5_part_2(p: int, g: int)
    requires
        p == r_prime(),
        g == 0xe202e797a88364260be56fa670b57120e46cdd525b0dfd6021986ce4279e2dcint,
        pow_mod(g, 0x15977f4b886, p) == 0xd4f5d56436c266463e95c7bd16088fa52fb13bb45190e21bd8cec9a48300535int,
    ensures
        pow_mod(g, 0x565dfd2e21c9a0ae4bd2nat, p) == 0x5cb782a45ab0ea74bdbb41d81139677f1de02a8fff64d3062653f08900b15b0int,
{
    let e: nat = 0x15977f4b886;
    let e = lemma_chain_multiply(p, g, e, 0xd4f5d56436c266463e95c7bd16088fa52fb13bb45190e21bd8cec9a48300535int, 0xcf976361a47490c553a6897f583fa69522aa7e5826c2300253f5b1ce18e9267int, 0xa073a78a395fa67a78622957db86398c8e8b798eea84dd1d494abd37474e7ebint);
    let e = lemma_chain_square(p, g, e, 0xa073a78a395fa67a78622957db86398c8e8b798eea84dd1d494abd37474e7ebint, 0x6f099602982b0389205400e8e8826b1f63ddfb9dd261513c95b9c7462bb4f44int, 0x417aab495a46596f16e1f9f12db78aedac3b17be9056dc14ccee4d2def0981dint);
    let e = lemma_chain_square(p, g, e, 0x417aab495a46596f16e1f9f12db78aedac3b17be9056dc14ccee4d2def0981dint, 0x127dfbe7aec6b08e9d3b590d00a5e7ee9bd1d7934cbe7dae140c72a94972187int, 0xd8b664356f5aab87989aa83e38336281acbafd291c8c92fe6b54b1f77b547c8int);
    let e = lemma_chain_square(p, g, e, 0xd8b664356f5aab87989aa83e38336281acbafd291c8c92fe6b54b1f77b547c8int, 0xca8eb45a40e6c2c7930058515596bf189b47c81c94344f93ae89d22ebe9186fint, 0x888542054eedc9ae4230ac0c1d11a488d857f428edff6427129c3f2740400e7int);
    let e = lemma_chain_multiply(p, g, e, 0x888542054eedc9ae4230ac0c1d11a488d857f428edff6427129c3f2740400e7int, 0x851427910931bda7661e6f8adf76d9354c3daa9e5519aefb0ade6a193ce4cd0int, 0xb5add7acb93be2e1fc3e168867f32a2934118f13b4d5829f297a93f1d0f0bd4int);
    let e = lemma_chain_square(p, g, e, 0xb5add7acb93be2e1fc3e168867f32a2934118f13b4d5829f297a93f1d0f0bd4int, 0x8e5c58fb3bb65b2004ac9f6f355cdf28addfa18e687f7959a0391270a8be98fint, 0xaae4e10591755993fd9e1efca397c0b78ba45b132b880ee13eff471f2425e57int);
    let e = lemma_chain_square(p, g, e, 0xaae4e10591755993fd9e1efca397c0b78ba45b132b880ee13eff471f2425e57int, 0x7df5e291a1ad54a6e87a8079e48086d2b6379705d0faf534b47ae2cd2a63062int, 0x409c5c33f45e3b6fc11d07fa4b3887e975c99c9b0e16fe517242b5983f49383int);
    let e = lemma_chain_square(p, g, e, 0x409c5c33f45e3b6fc11d07fa4b3887e975c99c9b0e16fe517242b5983f49383int, 0x1201404761f69e5afd6a2912d10bdb22bc2b89f217576ba9a642df7d0f48065int, 0xedb42e343165ccb2c7885bf89754e6a9d0d7376e2a420737cead54e46b90d6int);
    let e = lemma_chain_multiply(p, g, e, 0xedb42e343165ccb2c7885bf89754e6a9d0d7376e2a420737cead54e46b90d6int, 0xe7b60a543864acf7e84fc084189169f243004f73472458bca5361ca03936daint, 0xb05a7a16854bc99c0a8e797d488de65089e123d01d41076545d13e35cc9b612int);
    let e = lemma_chain_square(p, g, e, 0xb05a7a16854bc99c0a8e797d488de65089e123d01d41076545d13e35cc9b612int, 0x86230ab4b29b899f78b4149f69015bf175196d44f4b99f9d4e1e8ac3a3d4ea1int, 0x612504b5dae6bbf15ffb2008db4dbfa3cc9a458323b297553581e98bb13b82dint);
    let e = lemma_chain_multiply(p, g, e, 0x612504b5dae6bbf15ffb2008db4dbfa3cc9a458323b297553581e98bb13b82dint, 0x5eb20c1b0bc961bda1340925b54f920f3500e9ed290dcfb5e955e0b81753509int, 0x3c912a805a39b2ce7020b8e05d43c4b111d68c82594ecf84552563873398b3dint);
    let e = lemma_chain_square(p, g, e, 0x3c912a805a39b2ce7020b8e05d43c4b111d68c82594ecf84552563873398b3dint, 0xfd25b58763d70676d77b99b3ed305d56c63bbdaf1fc0f3b2bde62dee2c703cint, 0x6efad182c7dd5dedf724e526a9a338d98b9b223e544aba5a118c638c3f2c1a5int);
    let e = lemma_chain_square(p, g, e, 0x6efad182c7dd5dedf724e526a9a338d98b9b223e544aba5a118c638c3f2c1a5int, 0x351f07ac94d1b5d2ae3e42d1ca40c56e84049e95f48615178d2cc7558526088int, 0x592d484dd4507e02b0c8dbd743d2c34cae1fb56f41f972a560b6436edbbd321int);
    let e = lemma_chain_multiply(p, g, e, 0x592d484dd4507e02b0c8dbd743d2c34cae1fb56f41f972a560b6436edbbd321int, 0x56edbc26e3f0a008a006d17bffd37218f98e7911a96677753a2a242fd984826int, 0xc4fce0749c8740691abc5b8cd1ef1c68e2fce0a9b398457d957842c95797732int);
    let e = lemma_chain_square(p, g, e, 0xc4fce0749c8740691abc5b8cd1ef1c68e2fce0a9b398457d957842c95797732int, 0xa75ce3dbb7fea3d8cd364d4a81703242a721e407b6006a68712f5168795a850int, 0x1df98b59d01f1ecc6e217b3dc1f092180f6385e57d49c265d5fbb12eaa7494int);
    let e = lemma_chain_square(p, g, e, 0x1df98b59d01f1ecc6e217b3dc1f092180f6385e57d49c265d5fbb12eaa7494int, 0x3e00c27649a23fec66ed4c5e68b3965fc8dabb6a4df33bf450eb3e3ab7e0int, 0x32c9d2254f0e95501fa97c0ca348517d021bf4eba8832f97fcef493fcf28470int);
    let e = lemma_chain_square(p, g, e, 0x32c9d2254f0e95501fa97c0ca348517d021bf4eba8832f97fcef493fcf28470int, 0xb200ecc90235606296ae20b6c162b4e525be769fc1354a2b18860da75c429cint, 0x692dd4c8b2b07466292d77c41e5fe35c62478b75d31623cb8f92f99fd59437cint);
    let e = lemma_chain_square(p, g, e, 0x692dd4c8b2b07466292d77c41e5fe35c62478b75d31623cb8f92f99fd59437cint, 0x2fb695801ef70edd9bf9e10974b29eacce70d1b3660fc7a8b25fee422c845e9int, 0x5630c234942e146b386d81ec896647c013a4314177ab3433476f27193051e81int);
    let e = lemma_chain_square(p, g, e, 0x5630c234942e146b386d81ec896647c013a4314177ab3433476f27193051e81int, 0x200a5c0d4eb98c2c906e352204a7aaf1f32979f7801dcffe93dc314b5db2aafint, 0x59aa2ec30888dd31f00c2d1a72445b5ea6118e5e21d8ceb51d4c58e36d1e5e8int);
    let e = lemma_chain_square(p, g, e, 0x59aa2ec30888dd31f00c2d1a72445b5ea6118e5e21d8ceb51d4c58e36d1e5e8int, 0x22acf4f4e206f969963181ea1d6e1b6f1fe9b9594ba1f1d68bcef12566240b2int, 0x58941e01637e781624e09aa25fa2cf6c8925aeeb74acfe94906514538300b02int);
    let e = lemma_chain_multiply(p, g, e, 0x58941e01637e781624e09aa25fa2cf6c8925aeeb74acfe94906514538300b02int, 0x56586e61a759c0115fcfcf9a3778410599daa933ce64ca64f6599b2e58c6668int, 0xc185b0ccec96640c28aff18432ae075d1b994cb288d17541cf50ba673a42560int);
    let e = lemma_chain_square(p, g, e, 0xc185b0ccec96640c28aff18432ae075d1b994cb288d17541cf50ba673a42560int, 0xa186a04182dbc814ec74b492aecb60dee333a7bb64014cd713b135733b20c11int, 0x9fec1b384bf2df1593d3038860da528a98d4bb6beb7b9bc851bb7fdbfb457d9int);
    let e = lemma_chain_square(p, g, e, 0x9fec1b384bf2df1593d3038860da528a98d4bb6beb7b9bc851bb7fdbfb457d9int, 0x6e4e49ed90ca6f276877274d771cb0516dd469291a1c1092a9475f1cd158825int, 0xd5613c261262a225b31ef3e05ce00a4f733f33af83b0dd19612b8c6ddcf877eint);
    let e = lemma_chain_multiply(p, g, e, 0xd5613c261262a225b31ef3e05ce00a4f733f33af83b0dd19612b8c6ddcf877eint, 0xd00014f861989005c0b69b8bfc142865c50abe80143901bc7ce17abf2dc5e5bint, 0x9be46daf7d28e72dc32aa1b24049735bcce37945243e5c1c98d0b8fc2f7953bint);
    let e = lemma_chain_square(p, g, e, 0x9be46daf7d28e72dc32aa1b24049735bcce37945243e5c1c98d0b8fc2f7953bint, 0x68d10758a6bb5989597451e40c8d62bb66ce697450619e919194a61cb0f4743int, 0xe265c09420e516875bc55daeae78940f640d67200f09f0b08e876d02f0746b4int);
    let e = lemma_chain_square(p, g, e, 0xe265c09420e516875bc55daeae78940f640d67200f09f0b08e876d02f0746b4int, 0xdd111a812955fc81d642ff73855e22fceaf8018602d6e96202722d1650189a8int, 0x3acb88c95db47630848ca8b9b89fcafdea531480babe28b594726615084a778int);
    let e = lemma_chain_multiply(p, g, e, 0x3acb88c95db47630848ca8b9b89fcafdea531480babe28b594726615084a778int, 0x3950123552da686374925c2d18aac59f323c4381a4608a9fabd556f0039f6f9int, 0x62aa172a3d23c7983db0387f2bbdb0d936789b53ed3d5a0aed98f3d56e8321int);
    let e = lemma_chain_square(p, g, e, 0x62aa172a3d23c7983db0387f2bbdb0d936789b53ed3d5a0aed98f3d56e8321int, 0x29fc57862dbd762a6b8a240b5096f3f8ea9bd77387fc4172b490dd5d89f39int, 0xce074fbfd7a5bae77bdf49b04e5273cde9e69840a17ce9d6149ee17e502c82int);
    let e = lemma_chain_multiply(p, g, e, 0xce074fbfd7a5bae77bdf49b04e5273cde9e69840a17ce9d6149ee17e502c82int, 0xc8d59a80710d7068e487cc7c2af8c3968c2e873439e505e26cb81bde9af588int, 0x3c9f48dc67fe38477ee084a32b8f368c98656152a6afbc85dc1886488721f80int);
    let e = lemma_chain_square(p, g, e, 0x3c9f48dc67fe38477ee084a32b8f368c98656152a6afbc85dc1886488721f80int, 0xfd9bc8964ca3a5a6dd662ef330146b024c01802310f4e63d4930e17f03e284int, 0x664f4eb9e78cc58f83cef5652e3b7abe791ff9fdde041b4df362cbfb5cea3a4int);
    let e = lemma_chain_multiply(p, g, e, 0x664f4eb9e78cc58f83cef5652e3b7abe791ff9fdde041b4df362cbfb5cea3a4int, 0x63bb0011d07184195f16759edd9269a97a8a5c338a0b0bd97676feb40fe6a38int, 0x603ebc47643ac9db0a3b76f5e1067e28d6580454f710f75dbf8ae9ce67dae8int);
    let e = lemma_chain_square(p, g, e, 0x603ebc47643ac9db0a3b76f5e1067e28d6580454f710f75dbf8ae9ce67dae8int, 0x27f3aeeda39bc7352fc856d4e6e40dd724ba1d9f03cab1c3b7fcdb2652730int, 0x43c8284744db5b1979490322aafb5f8ad91f523d6678932bbf980106984aef0int);
    let e = lemma_chain_square(p, g, e, 0x43c8284744db5b1979490322aafb5f8ad91f523d6678932bbf980106984aef0int, 0x13d0cbc5c3c0707fccecc56f8b14689078d9677d3ce34f25cd301e92ab8ce2aint, 0x520eb47b48a97545f8ee952022ba23557026441170627d11322d52e6afa88faint);
    let e = lemma_chain_square(p, g, e, 0x520eb47b48a97545f8ee952022ba23557026441170627d11322d52e6afa88faint, 0x1d0a93f11c687e60828b25aade1bc2f57654c0d6d5d4a75e111c7960a19d9efint, 0xaa0798faa520253d301e2b776b4017d6f43ea434348243e397ac3982009b64bint);
    let e = lemma_chain_multiply(p, g, e, 0xaa0798faa520253d301e2b776b4017d6f43ea434348243e397ac3982009b64bint, 0xa5be39ef34d0296d5946109073887f049790024fe424f21a53b8688b4e004d9int, 0x15d4125a24c53bb801ecd4953d28a87cd250f8758fab4376d99e244ba621b55int);
    let e = lemma_chain_square(p, g, e, 0x15d4125a24c53bb801ecd4953d28a87cd250f8758fab4376d99e244ba621b55int, 0x20e18624cd20caa61637d0149830fdbb70cca40652276fcd07a814a55687e9int, 0x40beab6a11bac5718d6b085b6474877b20a9a6fa6b62423968b19a37bf8d6aaint);
    let e = lemma_chain_square(p, g, e, 0x40beab6a11bac5718d6b085b6474877b20a9a6fa6b62423968b19a37bf8d6aaint, 0x12146489603b35e46338095d34492c7fd92e0e73fc1360cfa27ecbc0611e577int, 0x72b167ca1e327bef8941c5b947d52da8a5e43977da22f65856c8068af542cd3int);
    let e = lemma_chain_square(p, g, e, 0x72b167ca1e327bef8941c5b947d52da8a5e43977da22f65856c8068af542cd3int, 0x38bc437bd66068132c0c6b75cd576305a34c576c52e0b82632ffb9c7dc83352int, 0xb3f74ea6d36832d1a982d7edfc551318356e1050369a89465f5cebd89446e4bint);
    let e = lemma_chain_multiply(p, g, e, 0xb3f74ea6d36832d1a982d7edfc551318356e1050369a89465f5cebd89446e4bint, 0xaf6dce8249d65fdd7f1d1c9c26804edbf3b127c20ee78eee55d79a99a7396a5int, 0x8bd7a2f0c99078cccffc6bbd3619e12c8f36d4e979c274b25c6b5e49e7f281int);
    let e = lemma_chain_square(p, g, e, 0x8bd7a2f0c99078cccffc6bbd3619e12c8f36d4e979c274b25c6b5e49e7f281int, 0x54583d276ca7d028a535b7fac0408801169d283776795c7dc5e73d59adf40int, 0x88150a6637c669e045769eaba78849e10c1ab2391f6dbe7a632911fe5b18e41int);
    let e = lemma_chain_square(p, g, e, 0x88150a6637c669e045769eaba78849e10c1ab2391f6dbe7a632911fe5b18e41int, 0x4fdeafeb083a801c0fc2fc346bd5f3ba67c3784693f32d0797f397f3a3624b8int, 0x4ceb0517366a1284d8d2cdf837e3a9a1866a34d34fecc7d64f748f126624cf9int);
    let e = lemma_chain_multiply(p, g, e, 0x4ceb0517366a1284d8d2cdf837e3a9a1866a34d34fecc7d64f748f126624cf9int, 0x4afa9747aff6d735994198b001555fac4597cc3470b5e3d6fbec89581fd53b2int, 0x9169ba9537cba59e6549f10bbef75df31daa126d72695fc42199d654e78bbeint);
    let e = lemma_chain_square(p, g, e, 0x9169ba9537cba59e6549f10bbef75df31daa126d72695fc42199d654e78bbeint, 0x5b32c5e72d6579135bdccf40ba24472a026d0bf9c57d7a3aebb449b6ce3bbint, 0x33d857f78a9879db2d770612dee28d313cdc5600be5114c6e5804f04fc3f257int);
    let e = lemma_chain_multiply(p, g, e, 0x33d857f78a9879db2d770612dee28d313cdc5600be5114c6e5804f04fc3f257int, 0x3289bc4857feb1943b8130d68673e2d6960f10ccf3b9c984c865d260d2f4426int, 0x3c270f7eea7d0a54ea6695c36c670cbef9771b8d5efeb15f0e1b30b7049d19aint);
    let e = lemma_chain_square(p, g, e, 0x3c270f7eea7d0a54ea6695c36c670cbef9771b8d5efeb15f0e1b30b7049d19aint, 0xf9b1c85734665bb54321e1176b26c7792909bbc2a63861852b8888acccd28aint, 0xc1113162254a59a0fa7a2d3691ae5afad9aea99bef77a3da363283abbb097feint);
    let e = lemma_chain_multiply(p, g, e, 0xc1113162254a59a0fa7a2d3691ae5afad9aea99bef77a3da363283abbb097feint, 0xbc3323449780337928fa34e3a4bf5c021612e3f742384effffa1d9168176ba2int, 0xa6ac1926ad6dd28633e39ece0c59f6df165f9cb2ec80980bc1e6752d073117aint);
    let e = lemma_chain_square(p, g, e, 0xa6ac1926ad6dd28633e39ece0c59f6df165f9cb2ec80980bc1e6752d073117aint, 0x77d058f46968cdd79047f398913e285fe9f063a591e62c54bf68fd7d1842221int, 0x75030c220fafb5f375d57f5c5d31b416a769e845cb0c9ce19e7b1daf5a45c8dint);
    let e = lemma_chain_multiply(p, g, e, 0x75030c220fafb5f375d57f5c5d31b416a769e845cb0c9ce19e7b1daf5a45c8dint, 0x720fda4e2d93d786dd9804df0002afad1da5efa413a6e86c25188109b73e1dcint, 0x15326b22289ebab7ab6a68215c4e04771716aac806d9272af1cf60c6dacbee8int);
    let e = lemma_chain_square(p, g, e, 0x15326b22289ebab7ab6a68215c4e04771716aac806d9272af1cf60c6dacbee8int, 0x1f018f3aa155a840527095d9d92968d79ef5ba69b16ad42f560bc613af9e5dint, 0xa7518689b266c45eda80c955704e20f8a8cd341c20794d509b9d5eedaa001c5int);
    let e = lemma_chain_square(p, g, e, 0xa7518689b266c45eda80c955704e20f8a8cd341c20794d509b9d5eedaa001c5int, 0x78bea5768ed4faf48199ff8e2ae84e1fb9096e78528d9e0d4a10a06441afc0dint, 0x8402889fbb6f70c65cb573a4b4b2dff92e4789460ce34829ab63da0591bb84eint);
    let e = lemma_chain_multiply(p, g, e, 0x8402889fbb6f70c65cb573a4b4b2dff92e4789460ce34829ab63da0591bb84eint, 0x80ae8ac207e0df17f1158cdf4e952ca303cbbc75d289c00739a3c817792e23bint, 0xa62e0c9e19759a7b822082d117cc8d73fb33fb89b962ecb0f8af63ff39662dbint);
    let e = lemma_chain_square(p, g, e, 0xa62e0c9e19759a7b822082d117cc8d73fb33fb89b962ecb0f8af63ff39662dbint, 0x771b646da27235322df74aba536761a2010854912d7cc9058de1b82c0b1dbafint, 0xb39bfffb377345a1968c9e474a5fd40682fd1266b895296449c6ab630114940int);
    let e = lemma_chain_square(p, g, e, 0xb39bfffb377345a1968c9e474a5fd40682fd1266b895296449c6ab630114940int, 0x8b22b9b871b0da7e40d19dba8b4b9a4ef2954d3402738661270a105130e8d2aint, 0x7058d00b518940f1a07bbb65184e25997be31c59b736886a569fb4460456efaint);
    let e = lemma_chain_square(p, g, e, 0x7058d00b518940f1a07bbb65184e25997be31c59b736886a569fb4460456efaint, 0x367025e2cb0c7efea1f2000391a1ed4c746f6cb114c592c932198700316ce81int, 0xcaea6b195714115df0ed74edc0da40d7347ab2829da1abd142831474d9d01edint);
    let e = lemma_chain_multiply(p, g, e, 0xcaea6b195714115df0ed74edc0da40d7347ab2829da1abd142831474d9d01edint, 0xc5ccccff9febdb56019aa582f60fb89a27c0faf099720c0d4910716df243872int, 0x278679c55f7f51cfa83dd56cf6749705e608414db5a0e807c218784d30ff02eint);
    let e = lemma_chain_square(p, g, e, 0x278679c55f7f51cfa83dd56cf6749705e608414db5a0e807c218784d30ff02eint, 0x6bced3760be42b8a46e0b2e0e34e1465af7a48e3d2453c76f705494c29b60cint, 0x5cb782a45ab0ea74bdbb41d81139677f1de02a8fff64d3062653f08900b15b0int);
}

/// A power of a power of the root 6 modulo the prime `r`.
proof fn lemma_power_r_5()
    ensures
        pow_mod(0xe202e797a88364260be56fa670b57120e46cdd525b0dfd6021986ce4279e2dcint, 0x565dfd2e21c9a0ae4bd2nat, r_prime()) == 0x5cb782a45ab0ea74bdbb41d81139677f1de02a8fff64d3062653f08900b15b0int,
{
    let p = r_prime();
    let g = 0xe202e797a88364260be56fa670b57120e46cdd525b0dfd6021986ce4279e2dcint;
    lemma_chain_start(p, g);
    lemma_power_r_5_part_1(p, g);
    lemma_power_r_5_part_2(p, g);
}

/// A power of a power of the root 6 modulo the prime `r`: the steps from the exponent
/// 0
/// to the exponent
/// 0x817a1735d09.
proof fn lemma_power_r_6_part_1(p: int, g: int)
    requires
        p == r_prime(),
        g == 6,
        pow_mod(g, 0, p) == 1,
    ensures
        pow_mod(g, 0x817a1735d09, p) == 0xad25ec3317d2f2ad05482010293551ef90b0892b1b1af3efc3fccb216cc6a2int,
{
    let e: nat = 0;
    let e = lemma_chain_square(p, g, e, 1, 0, 1);
    let e = lemma_chain_multiply(p, g, e, 1, 0, 6);
    let e = lemma_chain_square(p, g, e, 6, 0, 0x24);
    let e = lemma_chain_square(p, g, e, 0x24, 0, 0x510);
    let e = lemma_chain_square(p, g, e, 0x510, 0, 0x19a100);
    let e = lemma_chain_square(p, g, e, 0x19a100, 0, 0x290d7410000);
    let e = lemma_chain_square(p, g, e, 0x290d7410000, 0, 0x6954fe21e3e8100000000int);
    let e = lemma_chain_square(p, g, e, 0x6954fe21e3e8100000000int, 0, 0x2b56d4af8f7932278c797ebd010000000000000000int);
    let e = lemma_chain_square(p, g, e, 0x2b56d4af8f7932278c797ebd010000000000000000int, 0x819df102d09f8bcfde7cint, 0x3df69430301d7a6d74e56c7d915eedf71aadb2ade03e2fbe2af4ed80286a55cint);
    let e = lemma_chain_multiply(p, g, e, 0x3df69430301d7a6d74e56c7d915eedf71aadb2ade03e2fbe2af4ed80286a55cint, 1, 0x8bec2a7acd75e40056ecdae154f5e3c0399026d674f41647f84cab13830b371int);
    let e = lemma_chain_square(p, g, e, 0x8bec2a7acd75e40056ecdae154f5e3c0399026d674f41647f84cab13830b371int, 0x547102a3148adbd8ec00dc7d71cd5249a7f646d3da66bc0dd333033ff9f8c7cint, 0x6e6df83f50a37effb3d5831088771c76180b9dee2f48f09ac400903dd507b3dint);
    let e = lemma_chain_square(p, g, e, 0x6e6df83f50a37effb3d5831088771c76180b9dee2f48f09ac400903dd507b3dint, 0x34988721cdf644c865d752a43f87b4befb27b523719bfe2820b6e0463d91cacint, 0xb1cc61a6d27aa54d75d6f81fc5e52724a1d02daee4584b63cdb119b705e9d95int);
    let e = lemma_chain_multiply(p, g, e, 0xb1cc61a6d27aa54d75d6f81fc5e52724a1d02daee4584b63cdb119b705e9d95int, 4, 0x8b5d0f4fa1f3f58f293b107e56502ab230d8ed26280da3a2ac63029465afea2int);
    let e = lemma_chain_square(p, g, e, 0x8b5d0f4fa1f3f58f293b107e56502ab230d8ed26280da3a2ac63029465afea2int, 0x53c4a141bcfe8ecfb42563d9acab22ddd6e077f7911acb6422dc22020f35384int, 0x9debd6ef3eb3fff65128379132a7406487a1b0c3b5ac0a7872bd3cd52867b28int);
    let e = lemma_chain_multiply(p, g, e, 0x9debd6ef3eb3fff65128379132a7406487a1b0c3b5ac0a7872bd3cd52867b28int, 4, 0x1419cf022b4c15844d228d26e2dcc23193c1ffa310041e1e8aabd54934a3014int);
    let e = lemma_chain_square(p, g, e, 0x1419cf022b4c15844d228d26e2dcc23193c1ffa310041e1e8aabd54934a3014int, 0x1be1dabc1ad7f81b544c275b54b2beeb5127b3f7325c1f7eee2c2ad602fca4int, 0x7ea1284be7621f9de5e8b520977f654640bb5668a5b25748741b62472ccb854int);
    let e = lemma_chain_multiply(p, g, e, 0x7ea1284be7621f9de5e8b520977f654640bb5668a5b25748741b62472ccb854int, 3, 0x403505d4729bce0230192e9353314f8650ddeabd7caaf32b9c519be2be6cbd3int);
    let e = lemma_chain_square(p, g, e, 0x403505d4729bce0230192e9353314f8650ddeabd7caaf32b9c519be2be6cbd3int, 0x11c7d66b3e064cc56f8e5e46233f40d00a2dd9047b74412c38ea96f54941361int, 0x587418be702feab13a35636d623f180236887f7a05b2e8adcd0bf111a6c992int);
    let e = lemma_chain_multiply(p, g, e, 0x587418be702feab13a35636d623f180236887f7a05b2e8adcd0bf111a6c992int, 0, 0x212b89476a11f80275d4054904d7a900d4732fcdc22317412ce47a669e8b96cint);
    let e = lemma_chain_square(p, g, e, 0x212b89476a11f80275d4054904d7a900d4732fcdc22317412ce47a669e8b96cint, 0x4bed2ab141844144895549bc79722eaf5ffad556d2e3df6bcd363c51fd0983int, 0xb3e180ccfba94f3dadc60a166160e2e3652921bb8cc40b422d6af536923f4ebint);
    let e = lemma_chain_square(p, g, e, 0xb3e180ccfba94f3dadc60a166160e2e3652921bb8cc40b422d6af536923f4ebint, 0x8b8e7d378902520460d610cbc4099257408f6e9cf923f58a3c96eb4a8759970int, 0x3e81e79acaf3010b95e2ca1c274271589986a8dbce119b312741f645b12e0a9int);
    let e = lemma_chain_multiply(p, g, e, 0x3e81e79acaf3010b95e2ca1c274271589986a8dbce119b312741f645b12e0a9int, 1, 0x8f301efa6e770bb51cdd0c98d84af80932a5ebea07e89af9e21adfb4b7a173fint);
    let e = lemma_chain_square(p, g, e, 0x8f301efa6e770bb51cdd0c98d84af80932a5ebea07e89af9e21adfb4b7a173fint, 0x586dc297e0e4974ddc29ffd0ffe41c3055442f6ecc4e137c072437434077f7dint, 0x524cf012d6b350f07484619634d35eab159b32ccc01bf6e28fc30ac1947c326int);
    let e = lemma_chain_square(p, g, e, 0x524cf012d6b350f07484619634d35eab159b32ccc01bf6e28fc30ac1947c326int, 0x1d36b17d3db5f1ae53b6ceed86192326a5c4f22e1cf6361279b01cba12cd072int, 0x6358105c64ab1b0d6db7ec6743499480f0415348108d082d9818caeeafc5026int);
    let e = lemma_chain_square(p, g, e, 0x6358105c64ab1b0d6db7ec6743499480f0415348108d082d9818caeeafc5026int, 0x2a90ead4cad6c7d97577d4699a23e84f4954002fde3a8fa6f61e0234a31df14int, 0x31192169bc5b5ba0e0112fc38ef2a81ea8ef327321567b6fc62cefcb9dde58int);
    let e = lemma_chain_square(p, g, e, 0x31192169bc5b5ba0e0112fc38ef2a81ea8ef327321567b6fc62cefcb9dde58int, 0xa65a659c01f54c0524eedb02ff079fd97bc5229b9e970fddefaa05c7f9a8int, 0xc005801300a98a740f7c282d9f8350dd86cab8c00ab5423ab62026d37186728int);
    let e = lemma_chain_square(p, g, e, 0xc005801300a98a740f7c282d9f8350dd86cab8c00ab5423ab62026d37186728int, 0x9f07c6103622e9b160911413b7d8706405ecf41f8ee3930d16be4c6c7ed35f3int, 0x23cece1eb360ac30c3712954f27a81dd837705962457c93f81ff80ed1c4e18bint);
    let e = lemma_chain_multiply(p, g, e, 0x23cece1eb360ac30c3712954f27a81dd837705962457c93f81ff80ed1c4e18bint, 0, 0xd6d8d4b83444092494a6f7fdaedf0b3114ca2184da0eb77d0bfd058ea9d4942int);
    let e = lemma_chain_square(p, g, e, 0xd6d8d4b83444092494a6f7fdaedf0b3114ca2184da0eb77d0bfd058ea9d4942int, 0xc715cfc2ee53cd65b9cd4efdd400f752b97957510f4663996a63fa1cae7a0a6int, 0x61af8ab3582e9d71eebdb94c7745b1846d997989bc638a0946dc5acf890565aint);
    let e = lemma_chain_square(p, g, e, 0x61af8ab3582e9d71eebdb94c7745b1846d997989bc638a0946dc5acf890565aint, 0x29282988abf7bc5ae1f0f9d505a8fb320ec703c7252446f05963d586d56c7c8int, 0xb7ff5c8f70eff16c9e5ac047f71e9ce0c99a4c0f1133e99886b23729d0967acint);
    let e = lemma_chain_multiply(p, g, e, 0xb7ff5c8f70eff16c9e5ac047f71e9ce0c99a4c0f1133e99886b23729d0967acint, 4, 0xb08ef0c358b3be4a1c51c16f7da8ed1b1f95a367353358df0269b34525bbb2cint);
    let e = lemma_chain_square(p, g, e, 0xb08ef0c358b3be4a1c51c16f7da8ed1b1f95a367353358df0269b34525bbb2cint, 0x8672e5b21e83ba03c22abf7c9cfc47c6ac355beb75c921274ee4bd6eefbe9e3int, 0x14bc0b5a649c1e61a9cd12caea11359ed251589bfcf6e9465c299023bd51a4bint);
    let e = lemma_chain_multiply(p, g, e, 0x14bc0b5a649c1e61a9cd12caea11359ed251589bfcf6e9465c299023bd51a4bint, 0, 0x7c68441e5ba8b649face70c17c6741b8ede813a7edc977a628f960d66fe9dc2int);
    let e = lemma_chain_square(p, g, e, 0x7c68441e5ba8b649face70c17c6741b8ede813a7edc977a628f960d66fe9dc2int, 0x42c0d173d6ed5d8212c8ddf9f0e71f2d98785157ba3673f199a3a34a629a6ccint, 0x3da20811e4236e62b86e8e9aa5a212c496e1e6442571a785f350def9eea3b30int);
    let e = lemma_chain_multiply(p, g, e, 0x3da20811e4236e62b86e8e9aa5a212c496e1e6442571a785f350def9eea3b30int, 1, 0x89f0e1c505999bbfec23a78fce88c09122c95c5c1428e4f6aa7453ee2863669int);
    let e = lemma_chain_square(p, g, e, 0x89f0e1c505999bbfec23a78fce88c09122c95c5c1428e4f6aa7453ee2863669int, 0x52111129db22672c231a549b6ff77cf500c107d45bb28e9b31743aa28e7ee8dint, 0x5fc68546daa7fc03d7f98f87ba46cbbf7abcfc086ff61bb45c3eea842a5b446int);
    let e = lemma_chain_square(p, g, e, 0x5fc68546daa7fc03d7f98f87ba46cbbf7abcfc086ff61bb45c3eea842a5b446int, 0x27901f7dbe61b5bb2b3aed902d6e9f374823b713e414f52874b4d1df658e247int, 0xc8d33e726b587494b3a2d5f263275e1e837dde29f695e396fdc6457ec3f8e63int);
    let e = lemma_chain_square(p, g, e, 0xc8d33e726b587494b3a2d5f263275e1e837dde29f695e396fdc6457ec3f8e63int, 0xadf2684113483f730654fc2695c4c55ec9092991c75579894ade35115d8e9c4int, 0x160f01370d6e5d75f4030c2468d58f8ab7ce32b693670c35cb3f934a1932f2dint);
    let e = lemma_chain_multiply(p, g, e, 0x160f01370d6e5d75f4030c2468d58f8ab7ce32b693670c35cb3f934a1932f2dint, 0, 0x845a074a509630c3b81248da75015d404ed53047746a4942c37d73bc9731b0eint);
    let e = lemma_chain_square(p, g, e, 0x845a074a509630c3b81248da75015d404ed53047746a4942c37d73bc9731b0eint, 0x4b8d03b1ed692164709444e63629cd99e6cbfdb34b13e85932c999c7c830597int, 0x5b9b964e0d2d85e34d13f073810ed566be21eed7fdac1497d3443e5282001d3int);
    let e = lemma_chain_multiply(p, g, e, 0x5b9b964e0d2d85e34d13f073810ed566be21eed7fdac1497d3443e5282001d3int, 2, 0x55eee887a89b2e3301904294dfd1a053a7c7869659066b34e0b7aa142d1b184int);
    let e = lemma_chain_square(p, g, e, 0x55eee887a89b2e3301904294dfd1a053a7c7869659066b34e0b7aa142d1b184int, 0x1fd979667820512156d139d3aa3c26923326c844187a57576e0397978cf273cint, 0x676dec2a6f7a89f15c16959a9eb1272f95a53e22d9a768693c782076ae8702cint);
    let e = lemma_chain_square(p, g, e, 0x676dec2a6f7a89f15c16959a9eb1272f95a53e22d9a768693c782076ae8702cint, 0x2e23964c267358e1cdcbb775f6ed7af8e930c3440df0d62f4519706d1fa38a6int, 0x3c8568d972991b0381e7acbf78288ee5864bf09b6f0971d9685ba5692180e6int);
    let e = lemma_chain_multiply(p, g, e, 0x3c8568d972991b0381e7acbf78288ee5864bf09b6f0971d9685ba5692180e6int, 0, 0x16b207518af96a2150b6e0c7cd0f3596125c7a3a49a38ab187225e076c90564int);
    let e = lemma_chain_square(p, g, e, 0x16b207518af96a2150b6e0c7cd0f3596125c7a3a49a38ab187225e076c90564int, 0x238b7cf7ca944636eb74f5fd55d2c7ab15f7f1a76251e266610f3a828ffca2int, 0xa3707a7c5d3aac0f9615c277e42459447289a0f171884e3d2b05ef5667d9f42int);
    let e = lemma_chain_square(p, g, e, 0xa3707a7c5d3aac0f9615c277e42459447289a0f171884e3d2b05ef5667d9f42int, 0x733600e3f78e127286b84a9baf091ecfd485bfe76d39afb2ebe890d71918e5aint, 0x28e05d3c35b6051c10c0f86951ab6e5ed86f5c57b1318347633eb44b92cd2aeint);
    let e = lemma_chain_multiply(p, g, e, 0x28e05d3c35b6051c10c0f86951ab6e5ed86f5c57b1318347633eb44b92cd2aeint, 1, 0xd66e0c2ef092417fe122267d6c0e62eac1a20d15aa80b7f4a0753d8015c35dint);
    let e = lemma_chain_square(p, g, e, 0xd66e0c2ef092417fe122267d6c0e62eac1a20d15aa80b7f4a0753d8015c35dint, 0xc6501ad7cf231af3bb2c6f7f0bee1931a45914843d31dd5605c3fffa9d88dint, 0x996eb48ac869ec8f3e94866deafbc65e9bf492aa3f4c0209cb30e2be0abc6feint);
    let e = lemma_chain_multiply(p, g, e, 0x996eb48ac869ec8f3e94866deafbc65e9bf492aa3f4c0209cb30e2be0abc6feint, 3, 0xe1064f4db8ca9baa44201663481b9618743554471644f3b3a6d29eabf2123cfint);
    let e = lemma_chain_square(p, g, e, 0xe1064f4db8ca9baa44201663481b9618743554471644f3b3a6d29eabf2123cfint, 0xda64d96b4c07ea0533d7d976a35ee2bc4e2df0374a9427df47400f14d088ed7int, 0x5e4bf379d0d572473b11da4f0e821cc5857a4a4235c2778def466ce0d4431b0int);
    let e = lemma_chain_multiply(p, g, e, 0x5e4bf379d0d572473b11da4f0e821cc5857a4a4235c2778def466ce0d4431b0int, 2, 0x6611178e3e8ab88a9583bdba30854c8c53d9ab13a98cbcf988c4c16a1aad0b2int);
    let e = lemma_chain_square(p, g, e, 0x6611178e3e8ab88a9583bdba30854c8c53d9ab13a98cbcf988c4c16a1aad0b2int, 0x2cee6a8e6782ce9c5fb612069555a2dc184ff5a19e4c9e88cb9226cfda15fc2int, 0xaa7469507dcbd2a9eff1035162c81bc67be272a07f5ff4870b221951f8af016int);
    let e = lemma_chain_square(p, g, e, 0xaa7469507dcbd2a9eff1035162c81bc67be272a07f5ff4870b221951f8af016int, 0x7d504e3fee4377b55bd1606ba92711db5a7e600c413cfce576825969d63383bint, 0x137d23bbec39015ceb468aa6929e555ea67873882e5f524cc01aa0aea5cebb7int);
    let e = lemma_chain_multiply(p, g, e, 0x137d23bbec39015ceb468aa6929e555ea67873882e5f524cc01aa0aea5cebb7int, 0, 0x74eed6678956082d83a73fe76fb60037e6d2b531163bedcc809fc417e2d864aint);
    let e = lemma_chain_square(p, g, e, 0x74eed6678956082d83a73fe76fb60037e6d2b531163bedcc809fc417e2d864aint, 0x3af92005128a98b9e31ae4c9d5359a21f012ab34c319b6e634f4159f3249cc1int, 0x20327450000e63e82f28f125c7617b3b7377a587cfbc403991c3c8ba621536dint);
    let e = lemma_chain_square(p, g, e, 0x20327450000e63e82f28f125c7617b3b7377a587cfbc403991c3c8ba621536dint, 0x47899775ca1c226b9615a4a1fcbe8f05d8a589c9fd3d89f1d926f21eb7dcdbint, 0xa58c3fc33fd8bb5aa4ef76746b8af9b0a28e06334f155ad43f9101b409857dcint);
    let e = lemma_chain_square(p, g, e, 0xa58c3fc33fd8bb5aa4ef76746b8af9b0a28e06334f155ad43f9101b409857dcint, 0x7633e5c13364df8f69e54b273990c6028da4523281c1cf9f7d61bbc285ef7d2int, 0xd0635b53dca3a0f579d96919f5ca056ebb8e8491c2c754df8fb92a69d4e05f2int);
    let e = lemma_chain_square(p, g, e, 0xd0635b53dca3a0f579d96919f5ca056ebb8e8491c2c754df8fb92a69d4e05f2int, 0xbb4b881a7e501288e958a0984860556ec255093e884e4f5c12519912693fabfint, 0xcc4be41fc8a19dff1240c05675d52101f140c85572005811d40df01d871463bint);
    let e = lemma_chain_square(p, g, e, 0xcc4be41fc8a19dff1240c05675d52101f140c85572005811d40df01d871463bint, 0xb4032272f6511daa52bdb0de6df111b70e911843f8ef507f47f1832460d4482int, 0x7af9528d62b3718167e688f0bddfb075cc6e7fb765eddbfc25ccd5082aa00abint);
    let e = lemma_chain_multiply(p, g, e, 0x7af9528d62b3718167e688f0bddfb075cc6e7fb765eddbfc25ccd5082aa00abint, 3, 0x2a46035d5683b9573c0c2574397312a39710e295fe100f61c67a4c68b167dddint);
    let e = lemma_chain_square(p, g, e, 0x2a46035d5683b9573c0c2574397312a39710e295fe100f61c67a4c68b167dddint, 0x7b52246de24042cda83b4b32e91b43b1ecb4b16c502457a8222a471bf0d437int, 0x7e692bb4fadcb7a1fa13f97862a63dd91f491974b431fa54d53a1ecc52b6978int);
    let e = lemma_chain_square(p, g, e, 0x7e692bb4fadcb7a1fa13f97862a63dd91f491974b431fa54d53a1ecc52b6978int, 0x44ebab2a23f33c36eeb0044b0947f8e2abb84dd9bcec7e191b069e2988cfc34int, 0xd3e5d19f3265e44e063ab81f2063020aaa775853c20d63b85ae1bc933766f14int);
    let e = lemma_chain_square(p, g, e, 0xd3e5d19f3265e44e063ab81f2063020aaa775853c20d63b85ae1bc933766f14int, 0xc1a82bc70d31dbce8ca36402dd050f3f1b05ccd934b743619b1dd007e103033int, 0x1cdba75dd94dd31cd636b002b188e2fd42c816dc84847dfd4b54cc8592211bint);
    let e = lemma_chain_multiply(p, g, e, 0x1cdba75dd94dd31cd636b002b188e2fd42c816dc84847dfd4b54cc8592211bint, 0, 0xad25ec3317d2f2ad05482010293551ef90b0892b1b1af3efc3fccb216cc6a2int);
}

/// A power of a power of the root 6 modulo the prime `r`: the steps from the exponent
/// 0x817a1735d09
/// to the exponent
/// 0x40bd0b9ae84b867525cd34.
proof fn lemma_power_r_6_part_2(p: int, g: int)
    requires
        p == r_prime(),
        g == 6,
        pow_mod(g, 0x817a1735d09, p) == 0xad25ec3317d2f2ad05482010293551ef90b0892b1b1af3efc3fccb216cc6a2int,
    ensures
        pow_mod(g, 0x40bd0b9ae84b867525cd34nat, p) == 0x4681f8c0866707b72d58915a858641d77b6e3486dedf901adf010fecf81bdf7int,
{
    let e: nat = 0x817a1735d09;
    let e = lemma_chain_square(p, g, e, 0xad25ec3317d2f2ad05482010293551ef90b0892b1b1af3efc3fccb216cc6a2int, 0x814e22ac8dde6982137535f7c7c155966c2c00fc541527476532c39de90a2int, 0x32280dbe2efb994353737ff636d0f77fa851d5c80a5ec041a9e45a95f8bc2b6int);
    let e = lemma_chain_square(p, g, e, 0x32280dbe2efb994353737ff636d0f77fa851d5c80a5ec041a9e45a95f8bc2b6int, 0xad9a0d57d7e6c3a718da141616ad1f97ff2d034c4d52c5dc78d1f944004154int, 0x82ba7b3c651d8742856a19ccff6b31325fe1ff891bd58c1d8c9de8932473658int);
    let e = lemma_chain_multiply(p, g, e, 0x82ba7b3c651d8742856a19ccff6b31325fe1ff891bd58c1d8c9de8932473658int, 3, 0x58ccf77765003bdded218a9dc2b8170f0bc5e180417e302a2f60c1aa8c5bfebint);
    let e = lemma_chain_square(p, g, e, 0x58ccf77765003bdded218a9dc2b8170f0bc5e180417e302a2f60c1aa8c5bfebint, 0x2202ae8abcb4cfc88a8be6b51ba02c18701a51f4fa665af850f5521950eb372int, 0x470cfa501de0a413a12f33191c8502d6a53d53ef421a3138d044cb4dc36a33bint);
    let e = lemma_chain_multiply(p, g, e, 0x470cfa501de0a413a12f33191c8502d6a53d53ef421a3138d044cb4dc36a33bint, 1, 0xc2728f3a6008dde560a7828697da60fd78edee5ec01c1f27d82bdde5250a6abint);
    let e = lemma_chain_square(p, g, e, 0xc2728f3a6008dde560a7828697da60fd78edee5ec01c1f27d82bdde5250a6abint, 0xa312fb92bb7b55f1ad1241a9f8bfd6e3595d64159387b032b15e8cdfcb8f880int, 0xabba671cf267d8952b8084d05b8c61d78635b15c074abb35a6ccadfecf292b9int);
    let e = lemma_chain_multiply(p, g, e, 0xabba671cf267d8952b8084d05b8c61d78635b15c074abb35a6ccadfecf292b9int, 4, 0x66f130146183293d6b345ca1d83b8ae38b3a0334f9bc428dc3087c431d2bd7aint);
    let e = lemma_chain_square(p, g, e, 0x66f130146183293d6b345ca1d83b8ae38b3a0334f9bc428dc3087c431d2bd7aint, 0x2db4901c99cf2fa3784545ef32c58d8756f6c0b38113394e0ef6fe97d174ff5int, 0x2649e21b66944f3c79160ed7775f63b8ffb7c661075485ccc4b1720bb9a1a01int);
    let e = lemma_chain_square(p, g, e, 0x2649e21b66944f3c79160ed7775f63b8ffb7c661075485ccc4b1720bb9a1a01int, 0x652aca3e26ee7c25866450b13a136c416117ec8592049fccdf2770051efc70int, 0xe1af24d5e2500ae5b108914276ece4cf623459fce99b1f5fc5b1200953e7ff1int);
    let e = lemma_chain_square(p, g, e, 0xe1af24d5e2500ae5b108914276ece4cf623459fce99b1f5fc5b1200953e7ff1int, 0xdbad0c3e87f4dcdfb9c4cc8cc759b2c501047b32914e47289de8b26cfbb9c5fint, 0x15d620569367211ce8ce3c3063811f42f0485b537e5ce6a16c2b020bb06e4f8int);
    let e = lemma_chain_square(p, g, e, 0x15d620569367211ce8ce3c3063811f42f0485b537e5ce6a16c2b020bb06e4f8int, 0x20e7b70f7e92cc6a701a3a8d5c4ad137322dcf2b36b0fa0ecff677e83924feint, 0xa90f33cf008eeb208d62022765d2c2279a0dcaeb9a4a911776737be002396aeint);
    let e = lemma_chain_square(p, g, e, 0xa90f33cf008eeb208d62022765d2c2279a0dcaeb9a4a911776737be002396aeint, 0x7b453c12aaed5ccd0d68973c6461130a333afb0f2dc3942a787a769c8008d8eint, 0x9b841950cd4b420c23557b5266a9ea04f1c6a85b237466825e36b3b3388c5c2int);
    let e = lemma_chain_multiply(p, g, e, 0x9b841950cd4b420c23557b5266a9ea04f1c6a85b237466825e36b3b3388c5c2int, 4, 0x5ab5d4b82d7a2073a3223ae1aecbbf4109fcd2fa2b6465a0f849e7d957efb0int);
    let e = lemma_chain_square(p, g, e, 0x5ab5d4b82d7a2073a3223ae1aecbbf4109fcd2fa2b6465a0f849e7d957efb0int, 0x237d2d23a8ad7cdf99496f05b0bf3225efd0fcbeacf3a6df8431cc5611145int, 0xbafbddc03ef0bc947f714f11ac3741f565cc3a4f2c54bcd62df84420b1be4adint);
    let e = lemma_chain_multiply(p, g, e, 0xbafbddc03ef0bc947f714f11ac3741f565cc3a4f2c54bcd62df84420b1be4adint, 4, 0xc279f7e82cb8813962d91a29bc3ccb96c8c138e7d7f84c50ee0e010e6caa932int);
    let e = lemma_chain_square(p, g, e, 0xc279f7e82cb8813962d91a29bc3ccb96c8c138e7d7f84c50ee0e010e6caa932int, 0xa31f691fccae0a6c5bb4940c9addcb9c8e0d0f6bba2de9d1751376a08af6979int, 0xe2dc5bd16f646abcfc46a1db9242e7734299a215c89291cd74b3c930576dc45int);
    let e = lemma_chain_square(p, g, e, 0xe2dc5bd16f646abcfc46a1db9242e7734299a215c89291cd74b3c930576dc45int, 0xddf8f7d1114cc31ecf5d1722998c5796a70531643016516b668cc489f7b5a7eint, 0x532b7378f2bab5fbbd8d832a107e6b85e1cde06727e8297ae538bc7a6d55287int);
    let e = lemma_chain_square(p, g, e, 0x532b7378f2bab5fbbd8d832a107e6b85e1cde06727e8297ae538bc7a6d55287int, 0x1dd57ed551d4f5d2b18589d59a462604484319478a1ce1f1dc2a99ac04f0a37int, 0xb8b15c0c685661718a8503c427d658e7f14170597e9e680192308ff9fee01e0int);
    let e = lemma_chain_multiply(p, g, e, 0xb8b15c0c685661718a8503c427d658e7f14170597e9e680192308ff9fee01e0int, 4, 0xb4baedb1251a5e67a54f5658a1f755460d807d25c5b24f55475fc8263b75864int);
    let e = lemma_chain_square(p, g, e, 0xb4baedb1251a5e67a54f5658a1f755460d807d25c5b24f55475fc8263b75864int, 0x8ce0a7a74e3d916a837598079a2470fe2be6f57e0420ee052c0254491342c3cint, 0xa03e6ac972740808f21e43b98ca45e4b649b63f010a674e57364deb3bb2f82cint);
    let e = lemma_chain_multiply(p, g, e, 0xa03e6ac972740808f21e43b98ca45e4b649b63f010a674e57364deb3bb2f82cint, 4, 0x2209461f61cc45f412e6d618fecb759ac19c32ad31e29cac8e99a080a551e2cint);
    let e = lemma_chain_square(p, g, e, 0x2209461f61cc45f412e6d618fecb759ac19c32ad31e29cac8e99a080a551e2cint, 0x4ff189a66cfcc5be532ae636016b29cf5c392a6bda31b0a986bc3c033d9147int, 0xc5b63bae49e220f2118dcd055b2614bdb72f12b49788fcfaa6be409114a49cfint);
    let e = lemma_chain_multiply(p, g, e, 0xc5b63bae49e220f2118dcd055b2614bdb72f12b49788fcfaa6be409114a49cfint, 5, 0x1afcdcd61b25e0da69105dcfc2920c3e4a90420b8eb0c4feb94105c34e9db47int);
    let e = lemma_chain_square(p, g, e, 0x1afcdcd61b25e0da69105dcfc2920c3e4a90420b8eb0c4feb94105c34e9db47int, 0x3242e37dba3764abcdf1871fd90d0c3e21f33f7df2d8e9d787f3279ddb6b71int, 0x47d7c8d654d8854dbcde54050a977ea4318f7ddd81cdcb3e34555470cb853eaint);
    let e = lemma_chain_square(p, g, e, 0x47d7c8d654d8854dbcde54050a977ea4318f7ddd81cdcb3e34555470cb853eaint, 0x1642dcd07827cc39b90e2431da3ff9758594670e55e9781ecff7496700e6866int, 0x1c7cb6033218047bd00a4485f04df160ff51da443d5788cba1b76f6193968faint);
    let e = lemma_chain_multiply(p, g, e, 0x1c7cb6033218047bd00a4485f04df160ff51da443d5788cba1b76f6193968faint, 0, 0xaaec44132c901ae6e03d9b23a1d3a845fbeb1d99700d34c5ca4c9c4975875dcint);
    let e = lemma_chain_square(p, g, e, 0xaaec44132c901ae6e03d9b23a1d3a845fbeb1d99700d34c5ca4c9c4975875dcint, 0x7e00c678f994f1585c3a45083ba2f9b2e87af8e000dcb1784f884698c79790cint, 0x7d2cd1041cfc0643860f3d0d1f7f8ec111506014b5dffa302e77016a74b3d7cint);
    let e = lemma_chain_square(p, g, e, 0x7d2cd1041cfc0643860f3d0d1f7f8ec111506014b5dffa302e77016a74b3d7cint, 0x439465212260747dc76b97838286113bea477c0a075fe5805a45d9f016ec215int, 0xc10d9454b2e3633209a7fc1ccf5b3beb9660d4ea30eae2641f7aeeafda0fb0dint);
    let e = lemma_chain_multiply(p, g, e, 0xc10d9454b2e3633209a7fc1ccf5b3beb9660d4ea30eae2641f7aeeafda0fb0dint, 4, 0xe6e43f62e46868eaa021286c8f14a75bec3cd889f37d2da4971e00695e92f72int);
    let e = lemma_chain_square(p, g, e, 0xe6e43f62e46868eaa021286c8f14a75bec3cd889f37d2da4971e00695e92f72int, 0xe5ee3761e059203a6e2ceaa61fcbaf0f92be62f4f07a6473760a1a58e611ae4int, 0x6932a7044345f5d71743639e9031af3f4bf1d5cdb7f3051172919451849a5c8int);
    let e = lemma_chain_square(p, g, e, 0x6932a7044345f5d71743639e9031af3f4bf1d5cdb7f3051172919451849a5c8int, 0x2fbaf564088ea0609ffbb0f68c3a78046d9dbefeee7c2ff3e74f0d535bd0b9eint, 0x130ba8dba258c18583108d77b3283a5baca18245ad60c94e293bb4f45d6f64eint);
    let e = lemma_chain_square(p, g, e, 0x130ba8dba258c18583108d77b3283a5baca18245ad60c94e293bb4f45d6f64eint, 0x190811aa98de3a33dc0ce234cbd600bd7ee441cff6684f88b49a7cf3d74255int, 0x92ef839461e7b5cab15a5b07a1aeacf091bd6b274e95e870a486cd56717f901int);
    let e = lemma_chain_multiply(p, g, e, 0x92ef839461e7b5cab15a5b07a1aeacf091bd6b274e95e870a486cd56717f901int, 3, 0xba0b298751bd530ef4c311fd904cfd8436ea673572005a1cbed61e3e5aa4fe1int);
    let e = lemma_chain_square(p, g, e, 0xba0b298751bd530ef4c311fd904cfd8436ea673572005a1cbed61e3e5aa4fe1int, 0x95486834207cd6dbf9880c13376dca60b03f5ff0b34344192d76748e49c4e0dint, 0x6385d5abf887abb62db5556de3a93657b92f58dff0388313bb75802440f9c76int);
    let e = lemma_chain_square(p, g, e, 0x6385d5abf887abb62db5556de3a93657b92f58dff0388313bb75802440f9c76int, 0x2ab82cefd4dd8fe714d1182bd0003b224a87d4e550b368d191e8da111575679int, 0x98b76a8e6471ed29552f854dd79551bab03434c86f9d40efc5ad4d0686969e5int);
    let e = lemma_chain_square(p, g, e, 0x98b76a8e6471ed29552f854dd79551bab03434c86f9d40efc5ad4d0686969e5int, 0x6496e20afae7077e08add9cd3ea7f0d3a6f04d9ca5b5b7ae9662c776041d521int, 0x8f5abd7e33119a6b8de13b1aca7a341c9a0e497b2931ca828aae7e4c11fa042int);
    let e = lemma_chain_multiply(p, g, e, 0x8f5abd7e33119a6b8de13b1aca7a341c9a0e497b2931ca828aae7e4c11fa042int, 3, 0xa48e850238b8aed41fec52708512288c68cf9d2c91a7a68823c444001d83b67int);
    let e = lemma_chain_square(p, g, e, 0xa48e850238b8aed41fec52708512288c68cf9d2c91a7a68823c444001d83b67int, 0x74caa6ce844b587efe69d9eca07fa45e4a73664b669eeeb872806cd622cb4b7int, 0xac2168a90b7b2368fa186ea9c01b5b7c5da9db81955ac8bbab73384e60300a0int);
    let e = lemma_chain_square(p, g, e, 0xac2168a90b7b2368fa186ea9c01b5b7c5da9db81955ac8bbab73384e60300a0int, 0x7fca2e4c8b269b847995660524a146ebdde5e459b68dbde2e2072f4254a54f3int, 0x4b0fba55a22b5462e509681bf12155f94b02ac9d5dfd77bbdcc0e43fc8ee64bint);
    let e = lemma_chain_multiply(p, g, e, 0x4b0fba55a22b5462e509681bf12155f94b02ac9d5dfd77bbdcc0e43fc8ee64bint, 1, 0xda830f5b79c8ffc0f7c4c097938453cd5b8e0273676fc63a23147391462390bint);
    let e = lemma_chain_square(p, g, e, 0xda830f5b79c8ffc0f7c4c097938453cd5b8e0273676fc63a23147391462390bint, 0xcdef70195772b8efb35453ae17f24e3182890bc14f4321871ef9829bbc10cc9int, 0xb1cb21626be3ca0d3cf160928ec8737ff1d1dd1108c90fda56dd5a3b00036caint);
    let e = lemma_chain_multiply(p, g, e, 0xb1cb21626be3ca0d3cf160928ec8737ff1d1dd1108c90fda56dd5a3b00036caint, 4, 0x8b558db53a6ad20dd3d9832f0ba3f4d610e3097302b23e69e36c85ac42495e0int);
    let e = lemma_chain_square(p, g, e, 0x8b558db53a6ad20dd3d9832f0ba3f4d610e3097302b23e69e36c85ac42495e0int, 0x53bb9b70ad8be252fa27d7cf29c44bdbf77995c73ada8f7902fced78d1e400dint, 0x50481df7a85001b9d51ef06191fb43bf341e045cf6c1a7488bdd761c0917eb5int);
    let e = lemma_chain_multiply(p, g, e, 0x50481df7a85001b9d51ef06191fb43bf341e045cf6c1a7488bdd761c0917eb5int, 2, 0x11fa16814b6a153a31d24229455c36666bb007b42f87db59344ef8cd57a9ed0int);
    let e = lemma_chain_square(p, g, e, 0x11fa16814b6a153a31d24229455c36666bb007b42f87db59344ef8cd57a9ed0int, 0x164d2256362d26b7767ab5c89ab86a770b288afe1b8d1d34099461a47e6a7dint, 0x3b00adb69f764b5ae2888db9a80e8e1fc98603c59da23911212d8c537ecda5int);
    let e = lemma_chain_square(p, g, e, 0x3b00adb69f764b5ae2888db9a80e8e1fc98603c59da23911212d8c537ecda5int, 0xf03d2c5b795d40662ed0cfb000f3d4c23132e6df0b72cbe7feefc552767dint, 0x75a014b750e5588af7dd04adbefe9357c021393990cb9797b5249cd06b27cfeint);
    let e = lemma_chain_square(p, g, e, 0x75a014b750e5588af7dd04adbefe9357c021393990cb9797b5249cd06b27cfeint, 0x3bac6f090d45fac2b890f892329d6d78ab1c898e22dfe1dce167689562fe33bint, 0x1b2e708915aa5b7ad7f839799957a9e0ff945789e48631f153db44b8f0878d7int);
    let e = lemma_chain_multiply(p, g, e, 0x1b2e708915aa5b7ad7f839799957a9e0ff945789e48631f153db44b8f0878d7int, 0, 0xa316a33681fe24e10fd158d9980dfb45fd7a0d3b5b252ba7f7239c55a32d50aint);
    let e = lemma_chain_square(p, g, e, 0xa316a33681fe24e10fd158d9980dfb45fd7a0d3b5b252ba7f7239c55a32d50aint, 0x72b77a9cdcb1c8bdac2cfc13f1402313dad3457241c7be435c4155f7c731770int, 0xf6c56e4b33e267c1562d3891ae85c3a785a2cab9bec261d92e68ddf5d4a354int);
    let e = lemma_chain_multiply(p, g, e, 0xf6c56e4b33e267c1562d3891ae85c3a785a2cab9bec261d92e68ddf5d4a354int, 0, 0x5c8a095c3374e6e88050f536a172295ed21d0c05a788e4b17167533c2fbd3f8int);
    let e = lemma_chain_square(p, g, e, 0x5c8a095c3374e6e88050f536a172295ed21d0c05a788e4b17167533c2fbd3f8int, 0x24ef39ce2896be50bd88eec338d4cdcc5c7cd348e3c5ae19fe28d9477887057int, 0x30be4fbe43c09c745eadd158f585f2e2351c96377ca18af3436aba1340a7e0fint);
    let e = lemma_chain_square(p, g, e, 0x30be4fbe43c09c745eadd158f585f2e2351c96377ca18af3436aba1340a7e0fint, 0xa3f532f52819ae22f161e18767b674172cace390770ab285bf95807b86fa3dint, 0x739ffeab8cd2f83f768b390c3864c54b4a7e4699f5e42e8b368ab9e3fe46746int);
    let e = lemma_chain_multiply(p, g, e, 0x739ffeab8cd2f83f768b390c3864c54b4a7e4699f5e42e8b368ab9e3fe46746int, 2, 0xe6095ab8a67bdc5bfa5bf6292bd53faef1f195222a5706e9345e8f7d16c1236int);
    let e = lemma_chain_square(p, g, e, 0xe6095ab8a67bdc5bfa5bf6292bd53faef1f195222a5706e9345e8f7d16c1236int, 0xe43b0f32ff79d830306e353ca19ef951ed5ec24a9fbc7df143443a15b72ad08int, 0x94e40bb1df58ddf02dc136391ded76cced01da4d365789c86938245d36c92acint);
    let e = lemma_chain_square(p, g, e, 0x94e40bb1df58ddf02dc136391ded76cced01da4d365789c86938245d36c92acint, 0x5f9ce22b540773704eb4f29d0ef270a16759694cab8d777d8abc2dcdfd413dcint, 0xc7a654d348575803c63e22cfce4a70c66cbcc5bd5c367d11f6b152e17e0a14cint);
    let e = lemma_chain_square(p, g, e, 0xc7a654d348575803c63e22cfce4a70c66cbcc5bd5c367d11f6b152e17e0a14cint, 0xabeaa7c63cc20a10c1ba89c07ed0926a70b2f8177b4f688f9296aae55ebeca4int, 0x35f032a4ce7f802b74051b59a34a59b27a38e3e80d72fd981ab5d57f0125554int);
    let e = lemma_chain_multiply(p, g, e, 0x35f032a4ce7f802b74051b59a34a59b27a38e3e80d72fd981ab5d57f0125554int, 1, 0x5bc5e13683c2067451aaf409c07a6a2476d34e338430e96396d21b0c976d341int);
    let e = lemma_chain_square(p, g, e, 0x5bc5e13683c2067451aaf409c07a6a2476d34e338430e96396d21b0c976d341int, 0x24534af9624bf2c36492b1fa2ca09292484692b009c838a60693e1b5ed82175int, 0x37008d29e435befaeaefa1881a3e2d7e1946faa88fa3c30daf212ef781d2fdeint);
    let e = lemma_chain_multiply(p, g, e, 0x37008d29e435befaeaefa1881a3e2d7e1946faa88fa3c30daf212ef781d2fdeint, 1, 0x6228005506077f511b2a19208a3160ea3127d6b691558a25115633df9b7f27dint);
    let e = lemma_chain_square(p, g, e, 0x6228005506077f511b2a19208a3160ea3127d6b691558a25115633df9b7f27dint, 0x298de91a19d39e4a32eeb835484e71fdf93f50aa4697d85b649c1daa7bcad70int, 0x4e8f9bdab5424f9ced254d4564f1da3f665a2324138814e1941102c71a755f9int);
    let e = lemma_chain_square(p, g, e, 0x4e8f9bdab5424f9ced254d4564f1da3f665a2324138814e1941102c71a755f9int, 0x1a9e804ab954bb424462e0f812e08d4af29c0104302d8f6dcf345c1f187ca78int, 0x472356ea0d6390f46316be08136651c63b9da60a9fceafc3f892c637116f069int);
    let e = lemma_chain_multiply(p, g, e, 0x472356ea0d6390f46316be08136651c63b9da60a9fceafc3f892c637116f069int, 1, 0xc2f8bad5fd1a6b29ec14c42061223a9aff2fdb02f257166ac9ffbf5cf9275bfint);
    let e = lemma_chain_square(p, g, e, 0xc2f8bad5fd1a6b29ec14c42061223a9aff2fdb02f257166ac9ffbf5cf9275bfint, 0xa3f454b9866f82033a96c81f963be87d0a2eb4f35c2baed48e3ebf36dd2d45cint, 0x7b326be563867e846edc58b1f84a7103a79cf5d2b4c281cca56602fdb0a86bdint);
    let e = lemma_chain_square(p, g, e, 0x7b326be563867e846edc58b1f84a7103a79cf5d2b4c281cca56602fdb0a86bdint, 0x4175edd7e87ff2513bc89a2996a03e48ab0dccd7edf8f955f5ce1a1c81014feint, 0x4681f8c0866707b72d58915a858641d77b6e3486dedf901adf010fecf81bdf7int);
}

/// A power of a power of the root 6 modulo the prime `r`: the steps from the exponent
/// 0x40bd0b9ae84b867525cd34
/// to the exponent
/// 0x102f42e6ba12e19d49734d42.
proof fn lemma_power_r_6_part_3(p: int, g: int)
    requires
        p == r_prime(),
        g == 6,
        pow_mod(g, 0x40bd0b9ae84b867525cd34nat, p) == 0x4681f8c0866707b72d58915a858641d77b6e3486dedf901adf010fecf81bdf7int,
    ensures
        pow_mod(g, 0x102f42e6ba12e19d49734d42nat, p) == 0xc65e63fc84a29618963c191904505e1be6e55bc5b54b6511631b904f09cee3fint,
{
    let e: nat = 0x40bd0b9ae84b867525cd34nat;
    let e = lemma_chain_multiply(p, g, e, 0x4681f8c0866707b72d58915a858641d77b6e3486dedf901adf010fecf81bdf7int, 1, 0xbf3085dcd32f33baa99fb80f0de1db027e1331ec6cbc5874309579a06134713int);
    let e = lemma_chain_square(p, g, e, 0xbf3085dcd32f33baa99fb80f0de1db027e1331ec6cbc5874309579a06134713int, 0x9da7c425484b0ba16a6776437ede66172f23328cd8dd6751b1390ee4c0efc98int, 0x3ad9fae4025bc58e2071a47cf3bc5fe336c9f85d159cd145c9ccccccbc4dac1int);
    let e = lemma_chain_square(p, g, e, 0x3ad9fae4025bc58e2071a47cf3bc5fe336c9f85d159cd145c9ccccccbc4dac1int, 0xef027132f361de2286416c9392fb4f4fa9d14bd88fbc451bc01f4441a84a80int, 0xa07d2466527f41a3e4e087e92ce9df8462ac3f4313bccc41cf78e2b0ada0401int);
    let e = lemma_chain_square(p, g, e, 0xa07d2466527f41a3e4e087e92ce9df8462ac3f4313bccc41cf78e2b0ada0401int, 0x6f16b8160b8d758287ee950e4e908dfb59d944dc090e8efedc9788bd16c2c7eint, 0x6769554eb0182ab2b17d7b69b6545cc2352051e2fd2be1d39e44b8b583891efint);
    let e = lemma_chain_square(p, g, e, 0x6769554eb0182ab2b17d7b69b6545cc2352051e2fd2be1d39e44b8b583891efint, 0x2e1f7e32daa87b70048be2fc14b3b1fd8f44eaf5660a9dc44f3724454615b38int, 0x8b80e83e6c682176bb079f617542221334dddc1167b670a5429ac459b72c819int);
    let e = lemma_chain_square(p, g, e, 0x8b80e83e6c682176bb079f617542221334dddc1167b670a5429ac459b72c819int, 0x53efbedebdeed3e74572df20a318daf73b305c9ec448b8a861afe7ad39a2499int, 0x28bc38b8edb94e1edf191efca65bae128bae16123499f929e0ce9421919d12int);
    let e = lemma_chain_multiply(p, g, e, 0x28bc38b8edb94e1edf191efca65bae128bae16123499f929e0ce9421919d12int, 0, 0xf46954559257d4b93a96b9ebe626146f4614846d3b9bd6fb44d778c969ae6cint);
    let e = lemma_chain_square(p, g, e, 0xf46954559257d4b93a96b9ebe626146f4614846d3b9bd6fb44d778c969ae6cint, 0x101a563245cabe834ada40421198d9f5e092c8bc4852fe6c8c994940382c37int, 0xc65e63fc84a29618963c191904505e1be6e55bc5b54b6511631b904f09cee3fint);
}

/// A power of a power of the root 6 modulo the prime `r`.
proof fn lemma_power_r_6()
    ensures
        pow_mod(6, 0x102f42e6ba12e19d49734d42nat, r_prime()) == 0xc65e63fc84a29618963c191904505e1be6e55bc5b54b6511631b904f09cee3fint,
{
    let p = r_prime();
    let g = 6;
    lemma_chain_start(p, g);
    lemma_power_r_6_part_1(p, g);
    lemma_power_r_6_part_2(p, g);
    lemma_power_r_6_part_3(p, g);
}

/// A power of a power of the root 6 modulo the prime `r`: the steps from the exponent
/// 0
/// to the exponent
/// 0x5eed4866258.
proof fn lemma_power_r_7_part_1(p: int, g: int)
    requires
        p == r_prime(),
        g == 0xc65e63fc84a29618963c191904505e1be6e55bc5b54b6511631b904f09cee3fint,
        pow_mod(g, 0, p) == 1,
    ensures
        pow_mod(g, 0x5eed4866258, p) == 0x211ba03fe32bbfb25be832721a6ee9ce0474a187ca5920d299ee7b5ce86f20eint,
{
    let e: nat = 0;
    let e = lemma_chain_square(p, g, e, 1, 0, 1);
    let e = lemma_chain_multiply(p, g, e, 1, 0, 0xc65e63fc84a29618963c191904505e1be6e55bc5b54b6511631b904f09cee3fint);
    let e = lemma_chain_square(p, g, e, 0xc65e63fc84a29618963c191904505e1be6e55bc5b54b6511631b904f09cee3fint, 0xa9b7b18517bf3972444f002787be92816acea5c9f70e7ca81dd6a7ac412090dint, 0xa01a7a3a7232621ccad984053c654c158f57258f52726a11dcb9dae7e837f36int);
    let e = lemma_chain_square(p, g, e, 0xa01a7a3a7232621ccad984053c654c158f57258f52726a11dcb9dae7e837f36int, 0x6e8e4b2be90e392d5c07d01ef61a820d8ebeef14464059db4c8a245b45ce777int, 0xbe8ca2cc07f12cd2e7418c496a01c6ec450fef52e92749d6ba5b485e477b553int);
    let e = lemma_chain_multiply(p, g, e, 0xbe8ca2cc07f12cd2e7418c496a01c6ec450fef52e92749d6ba5b485e477b553int, 0xa3070f5975e7dbd833b781271e7ee84961790e245db771a5e4f92ae6ece0768int, 0x76de25ad3e76d967b012285f2a38b51164d2d0f7f815f12bcc2c9b01eb79e15int);
    let e = lemma_chain_square(p, g, e, 0x76de25ad3e76d967b012285f2a38b51164d2d0f7f815f12bcc2c9b01eb79e15int, 0x3cf0dc3db687cd7b88c2cec6ff27e25b54c1f5c2115d1a9e4aa34fbebbb07e4int, 0xd93e9cf7c6f04833db2a9c3295ef69fd4b80d2e8f709da9e8bc8f41729a19bdint);
    let e = lemma_chain_multiply(p, g, e, 0xd93e9cf7c6f04833db2a9c3295ef69fd4b80d2e8f709da9e8bc8f41729a19bdint, 0xb9ddfabb2c2b8bec614bf9a4fd67404da5328593e9fb0e55e744274a64fd475int, 0x8a11068f6c7b9cbafcda9f789166d75154b703c72a372c49b0b3a14f08e0fe0int);
    let e = lemma_chain_square(p, g, e, 0x8a11068f6c7b9cbafcda9f789166d75154b703c72a372c49b0b3a14f08e0fe0int, 0x523754e72b27433a3732e17a3c378b0035154d75e9f488cb9df88b1bf346370int, 0x9132910755d86f99ac27b56d1512baf8410072f81a3005df75379e15ce1aef0int);
    let e = lemma_chain_multiply(p, g, e, 0x9132910755d86f99ac27b56d1512baf8410072f81a3005df75379e15ce1aef0int, 0x7c39e0b6fe0f16cfc5ecaf12f2a2afa17c0769229ee2de9a6b6558e209f1c46int, 0xf1337c439329b3a89bd6290b436ab5c88ca9452870a58a92709507d049ef06int);
    let e = lemma_chain_square(p, g, e, 0xf1337c439329b3a89bd6290b436ab5c88ca9452870a58a92709507d049ef06int, 0xfaec13254911ca115337965e977162ad5b771eb5e0010cc65ddf8178ad81cint, 0xa4d604fea5ac1661f9fc2342d1f033af369f8671f138c6e78aa4dcd542ee820int);
    let e = lemma_chain_multiply(p, g, e, 0xa4d604fea5ac1661f9fc2342d1f033af369f8671f138c6e78aa4dcd542ee820int, 0x8d073240a6cda56b940f67fb65421f4db70135548faaa4dd36910dd57948561int, 0xb954a21b730147328eee78723847026dcfd4d5f0920b72131207cdde29db89int);
    let e = lemma_chain_square(p, g, e, 0xb954a21b730147328eee78723847026dcfd4d5f0920b72131207cdde29db89int, 0x94240b00e6c26ced76a8ecec6ac755ad4267614f80de105dc9bb4453c9282int, 0x31cdd9b25b50b7383d4cfcb8f8a24b4759ae219c146618e3fe71599bb3c9c63int);
    let e = lemma_chain_square(p, g, e, 0x31cdd9b25b50b7383d4cfcb8f8a24b4759ae219c146618e3fe71599bb3c9c63int, 0xab2bd23f3c5c2697cbab0ead098fd2d6873682f7b7c69a79ca53337206be94int, 0xd321f219b92986bdc2593fcaf4fff90617092b7de278afe39a1bb9f0b91227dint);
    let e = lemma_chain_multiply(p, g, e, 0xd321f219b92986bdc2593fcaf4fff90617092b7de278afe39a1bb9f0b91227dint, 0xb4a34d8d8a4112d02242dc2c440696b1a097179e8ca9ac3b0705e45bdfd4cc4int, 0x2d3c547fc0c7bff5b6b316b0776914a2712eed19ab3a9fc8ba7ae93b89422a7int);
    let e = lemma_chain_square(p, g, e, 0x2d3c547fc0c7bff5b6b316b0776914a2712eed19ab3a9fc8ba7ae93b89422a7int, 0x8d35802740e6edb19157928aa6b252b076545898ddd0bf9f00d71ee2397b1cint, 0x63208a3bfb11cf295e60dcd8fec856c57c5c218a30e2e06ac5bf2b55d84f7edint);
    let e = lemma_chain_multiply(p, g, e, 0x63208a3bfb11cf295e60dcd8fec856c57c5c218a30e2e06ac5bf2b55d84f7edint, 0x54cf4ee1d148497b25f5ac8a63509f55b5d42d5fc79c121576115297515e463int, 0xe94d8dec4ec993644cd2395ae0edcf3e83572a310b9506a43c55965337128eint);
    let e = lemma_chain_square(p, g, e, 0xe94d8dec4ec993644cd2395ae0edcf3e83572a310b9506a43c55965337128eint, 0xeac21c6fc1b4efa331460ba366e2b066d6b83ac348494efe007317ffc8f1cint, 0xbb77b2ea357a1c14e838ba93c182233fe77a5a38f9e59469043754fac3529c0int);
    let e = lemma_chain_multiply(p, g, e, 0xbb77b2ea357a1c14e838ba93c182233fe77a5a38f9e59469043754fac3529c0int, 0xa06412784c63efb044c0c6d82d37d75259e122beca3f946ae735434056efef4int, 0x7ba67f818abf384c580db31e2ca81af7b07a0e418886fae0b24004f534f95d4int);
    let e = lemma_chain_square(p, g, e, 0x7ba67f818abf384c580db31e2ca81af7b07a0e418886fae0b24004f534f95d4int, 0x41f182b6ada5237e66d3ee36a34e07190658638850fad7a1a6cd32a743bea19int, 0xb76e77a321a8f8b3f2d5e8b5a7ffc871f0520749155e17eb5185ebc2158d3b1int);
    let e = lemma_chain_square(p, g, e, 0xb76e77a321a8f8b3f2d5e8b5a7ffc871f0520749155e17eb5185ebc2158d3b1int, 0x911ecefc23cc72cdc2d13cce5d3c231d36330c1dd1c9140f0ea09ac676d447aint, 0x5d2e79bbeabdcfa5bd9940cdcfd41eedb969dca76dfd43fd8dd6ee21626552bint);
    let e = lemma_chain_multiply(p, g, e, 0x5d2e79bbeabdcfa5bd9940cdcfd41eedb969dca76dfd43fd8dd6ee21626552bint, 0x4fb914d27b5f6ae537dc59c169e0b19e87aaa165f3c37d50ef955a86d706d8dint, 0xc4829676e8a4e60f4c9de28315c7b8082c3febea3db17364a1aa0122d9363caint);
    let e = lemma_chain_square(p, g, e, 0xc4829676e8a4e60f4c9de28315c7b8082c3febea3db17364a1aa0122d9363caint, 0xa68d58939a762261b0471f5670a8ed0ad226f71bd6c3695479a34990eee8bbeint, 0xae4706d44b35d3c4624ae2b4a3dddf8c99ca4757401c69703df41a070054e92int);
    let e = lemma_chain_multiply(p, g, e, 0xae4706d44b35d3c4624ae2b4a3dddf8c99ca4757401c69703df41a070054e92int, 0x951b1b13b46f2cee860055199be777097c0b351653383fc5f78687d043cf442int, 0x95aaf57f736688b8e99c8c8d2ef360e70b24680b1b3915b3baec279e8161ec0int);
    let e = lemma_chain_square(p, g, e, 0x95aaf57f736688b8e99c8c8d2ef360e70b24680b1b3915b3baec279e8161ec0int, 0x609d0577bc128b94607a334633b3288e82c95a8c580ab95cd1d249cdc72e728int, 0xbf75e3dfa03037cd8dae08a7b922aecf834624511a313eee1be38577f3b7268int);
    let e = lemma_chain_square(p, g, e, 0xbf75e3dfa03037cd8dae08a7b922aecf834624511a313eee1be38577f3b7268int, 0x9e1a3f7e0cf0a3f7df7cbd1695230c7dcb83fc28ad1f6720af80a564623990fint, 0x38b0fcff5a9c4efac93b46f33a45da799971da0c959be6ea1d1a079a5d6cc87int);
    let e = lemma_chain_multiply(p, g, e, 0x38b0fcff5a9c4efac93b46f33a45da799971da0c959be6ea1d1a079a5d6cc87int, 0x3080d23c02dcc9cc7c6917242270a199cb542233d68b1b6796f1fa51b71a863int, 0x6a2e432b5991d3b119f5c4b467d7cbd13fddaad5aefd2c499ed0a5853907474int);
    let e = lemma_chain_square(p, g, e, 0x6a2e432b5991d3b119f5c4b467d7cbd13fddaad5aefd2c499ed0a5853907474int, 0x30a05884e9bf4ddc26fb9db8f1b7b04e65158008fabfe11636f87ce5a8f2f6aint, 0x9f6cb98599eb3ac0ba4bbaff15b39fab14d673eee03a81b29e849fdbbb237caint);
    let e = lemma_chain_square(p, g, e, 0x9f6cb98599eb3ac0ba4bbaff15b39fab14d673eee03a81b29e849fdbbb237caint, 0x6d9ed712305d6de8882868c1ffdac926caeb4a606be9b8c4aa8a2f0ef15117eint, 0x73be448db0b7a3ecac5aed133cf2d0790f0add3a1c2a7d462edd54d016d4252int);
    let e = lemma_chain_multiply(p, g, e, 0x73be448db0b7a3ecac5aed133cf2d0790f0add3a1c2a7d462edd54d016d4252int, 0x6306a750e9957834015a0f22187eef891c99db94fa04d2f1d11d705b31dfd3fint, 0x3a3525c245bcfd0c8134dd2c76554e940d9e227bd5ae0f74d76aab003c3b225int);
    let e = lemma_chain_square(p, g, e, 0x3a3525c245bcfd0c8134dd2c76554e940d9e227bd5ae0f74d76aab003c3b225int, 0xe9ceeb709bb6994b539b99f46cda027f275762825c40a4b57afccabcab188eint, 0x8d7ddfca600fa0ba0ced5d5404214927a2c921c2ad5f755d43add8c12cc83d7int);
    let e = lemma_chain_square(p, g, e, 0x8d7ddfca600fa0ba0ced5d5404214927a2c921c2ad5f755d43add8c12cc83d7int, 0x5658949e7ce7bb17392ebd9c6f1bed0be5e997f349ac906a2d6226c69e54f7aint, 0xfff57f4e01557f331b8da3b3932a0bb7ece1322e628968087fd9e5d742f65bint);
    let e = lemma_chain_square(p, g, e, 0xfff57f4e01557f331b8da3b3932a0bb7ece1322e628968087fd9e5d742f65bint, 0x11a9119999fb07025aa9a8be597567a7508a16b072fa0f87ca61499efc4c87int, 0x12fde35c51f36c6e4044b8e906221fcb64519f7077359c132f694321a3c1bd8int);
    let e = lemma_chain_multiply(p, g, e, 0x12fde35c51f36c6e4044b8e906221fcb64519f7077359c132f694321a3c1bd8int, 0x103faab46ff725456f3c13c1b310400a0e3048987ba505b2ef48bb27212b461int, 0x538e9d9b9da485bfcbf86aac65794fbc4260f8362aaf78321b02635ec570cd1int);
    let e = lemma_chain_square(p, g, e, 0x538e9d9b9da485bfcbf86aac65794fbc4260f8362aaf78321b02635ec570cd1int, 0x1e1ccddc30068230f4c7a4d9c2a682b741c3354a25e8e7b53d5b2f86b99cea3int, 0x8c14305d4660888375cb91192b149ecd6030a4104737390d15627b512f6881cint);
    let e = lemma_chain_square(p, g, e, 0x8c14305d4660888375cb91192b149ecd6030a4104737390d15627b512f6881cint, 0x54a15810c491bdefe90bc5177a1b890b8b089a460878aa0b118f98f6f30e289int, 0x7f8de27de184ef2d6731fa85517e2a7360f06e28fd62001710b9a9d31d4721int);
    let e = lemma_chain_square(p, g, e, 0x7f8de27de184ef2d6731fa85517e2a7360f06e28fd62001710b9a9d31d4721int, 0x462c4b422aedd512165adff531a26a1bb9fbe2cbde6af196ba09d9745318cint, 0x1796788ae3a16632790bea2caa224bf23e44c496225c46dff156eeba2ed72dint);
    let e = lemma_chain_square(p, g, e, 0x1796788ae3a16632790bea2caa224bf23e44c496225c46dff156eeba2ed72dint, 0x26651d3582d0bead9be4b9f1dee6756ea1857db2564c168195c3b60edf93int, 0xa1d0cd38e1bbbc0da1f3027a1ca4839c45bea5fcf8bbe0348028181212487d4int);
    let e = lemma_chain_square(p, g, e, 0xa1d0cd38e1bbbc0da1f3027a1ca4839c45bea5fcf8bbe0348028181212487d4int, 0x70eee1659f33562091bb61497065b30946e7c76d6a7cb58655744530939a4d1int, 0x9e1a077f93859bad8ddef4e1adce074c969d0ed89dc628442e5d5cee7818a29int);
    let e = lemma_chain_multiply(p, g, e, 0x9e1a077f93859bad8ddef4e1adce074c969d0ed89dc628442e5d5cee7818a29int, 0x8744356a7acca131b0f5613cdd2e6d58777ee649bef986363dd592ee4fcd4d3int, 0xb1240ae4deb3dce276a8589691761b325b59e2c332824250a037e0b2969b742int);
    let e = lemma_chain_square(p, g, e, 0xb1240ae4deb3dce276a8589691761b325b59e2c332824250a037e0b2969b742int, 0x87565a870e0c2cc3d2571e74ae9c1d361fb1380152fde5518aac08499fce806int, 0xbb04e388a39167af85cc88c429dfe7b71e983a691f333856ad1d3988dde88baint);
    let e = lemma_chain_multiply(p, g, e, 0xbb04e388a39167af85cc88c429dfe7b71e983a691f333856ad1d3988dde88baint, 0xa001d8331d702ec5c1f15fc71db9ee244047ff9d724bcc9bbfbd6661caca7abint, 0xc836ad3ec693e76d5345991fa9793cb42daa8e1c073fcc8d168cdac99fe5289int);
    let e = lemma_chain_square(p, g, e, 0xc836ad3ec693e76d5345991fa9793cb42daa8e1c073fcc8d168cdac99fe5289int, 0xace39871a5ba142cf2903cb1275ab572cb49615f2df3f77ab69c22b5a346a72int, 0xa97fc9cffda4a071b73b97c375ecc5af80a5f7ab8fb92f5aa5be17f26b65dd3int);
    let e = lemma_chain_square(p, g, e, 0xa97fc9cffda4a071b73b97c375ecc5af80a5f7ab8fb92f5aa5be17f26b65dd3int, 0x7be9a224a60645c67866ef833f3c1fbce80b093bc08ec2ab4624a4f8a8bb350int, 0x359bcfceeea975223a2e59dbcb991c59f1dd9b6dd067358a0d82c633f880db9int);
    let e = lemma_chain_square(p, g, e, 0x359bcfceeea975223a2e59dbcb991c59f1dd9b6dd067358a0d82c633f880db9int, 0xc65252cacce6f80913dd2fd9c506f0c23bdeb0ecbd7879b4938023bbcda846int, 0xcdc55f43dc1469898e7099e0be0ed539923b540bc20ead018f5fa872ad2fda7int);
    let e = lemma_chain_multiply(p, g, e, 0xcdc55f43dc1469898e7099e0be0ed539923b540bc20ead018f5fa872ad2fda7int, 0xb00cf9b8da5253dadd3ca540edbaa2c8ae2c96d44b5e676d2dade2c12fce96eint, 0x2a842c14a534d09d7853a7a44d866ee50a436fe257e4f43d6f900be9b75e877int);
    let e = lemma_chain_square(p, g, e, 0x2a842c14a534d09d7853a7a44d866ee50a436fe257e4f43d6f900be9b75e877int, 0x7cbdd8b257be34a253fdee8fc03a552416205aac64cfc3a626280fa5ce719cint, 0x190f79eecd121e3e1559e3e92463442684b7a7c50a455664e05ee53623fe0cdint);
    let e = lemma_chain_multiply(p, g, e, 0x190f79eecd121e3e1559e3e92463442684b7a7c50a455664e05ee53623fe0cdint, 0x1570dd3eb63fcdcf94bdd30c90518da3a784a4d4ca3ace8389b3922f74039e7int, 0x6837b9b51a7e773f46d81c84496e94238f9e29bdbe8bc9dd16e970efce4d052int);
    let e = lemma_chain_square(p, g, e, 0x6837b9b51a7e773f46d81c84496e94238f9e29bdbe8bc9dd16e970efce4d052int, 0x2ed85188b9e89c5137e3034dd723cb8dfc122a5f6af119383152613cba15ae6int, 0xaadb3b55ba62db8c6097995fb0af0d084b018f574d7b321c534dd57e7b3d7daint);
    let e = lemma_chain_square(p, g, e, 0xaadb3b55ba62db8c6097995fb0af0d084b018f574d7b321c534dd57e7b3d7daint, 0x7de7aa51475c7ad8554d6390ecdacc5277d5c33586887397ff2b701cc7c731aint, 0x7276d84ac48d0105529ad272758600e2d2765e4b2a65379db3c02c9a207260eint);
    let e = lemma_chain_square(p, g, e, 0x7276d84ac48d0105529ad272758600e2d2765e4b2a65379db3c02c9a207260eint, 0x388262872b633de597fa3f1c1cba6acd8cce1230494710a9d4d73aad2233212int, 0x16e12a18bc1919fa52dd4938a8ba4ba995a1e52ccc0f23256ee70b2334a45e6int);
    let e = lemma_chain_square(p, g, e, 0x16e12a18bc1919fa52dd4938a8ba4ba995a1e52ccc0f23256ee70b2334a45e6int, 0x241fbb85f1351df762abb281e734fe74964ab98538a2b1c6faa287d15d828eint, 0x14e47cb51f18fe679eec3d6416f23718a8184a37a8bb932cffcb9abb8c30f22int);
    let e = lemma_chain_multiply(p, g, e, 0x14e47cb51f18fe679eec3d6416f23718a8184a37a8bb932cffcb9abb8c30f22int, 0x11dffc04de3980fd4e4ecc070857530809ad498a78a4ab80c1d4d0091976f33int, 0x68906159ad75120b8b027a811ab3802949eede697527781b3f4c763e23813e9int);
    let e = lemma_chain_square(p, g, e, 0x68906159ad75120b8b027a811ab3802949eede697527781b3f4c763e23813e9int, 0x2f282671e38e08ab858548bce366ee2676a825c74e1b73c21968e27ea3a25f8int, 0x4217a70d5d170ca3e3a00b06b0c8693757c3d96ffd8a0d43a4f1df3bb1ca5c9int);
    let e = lemma_chain_square(p, g, e, 0x4217a70d5d170ca3e3a00b06b0c8693757c3d96ffd8a0d43a4f1df3bb1ca5c9int, 0x12d7113ba5bc3baeb94a608a04d9952a369e51203ad4eb079bcd88f01d2bf3cint, 0x3d3d589aa27bf49d0706ea9b5bb64d567bd783ab7450312edcf523923ebb3edint);
    let e = lemma_chain_square(p, g, e, 0x3d3d589aa27bf49d0706ea9b5bb64d567bd783ab7450312edcf523923ebb3edint, 0x102ccfed29454d433963838b64a19fd594d87b8bb4f440ad75768d95840933cint, 0x5c73e422019c248f21e43110d7b2ce0d2e6d67a100340d9776777cd3b37b985int);
    let e = lemma_chain_multiply(p, g, e, 0x5c73e422019c248f21e43110d7b2ce0d2e6d67a100340d9776777cd3b37b985int, 0x4f19723109f23c87c359fc6907f4bae43f2eab6b9cbc6e708fb054f28a8e380int, 0x6f6dbecb0f3ccd6e3dc368f1b56932b110716d1c6d50d7fe82446d185e7ad3bint);
    let e = lemma_chain_square(p, g, e, 0x6f6dbecb0f3ccd6e3dc368f1b56932b110716d1c6d50d7fe82446d185e7ad3bint, 0x358d46082b33cee824f14abb8317ba55ca24dadda0e77db889c39fea738c854int, 0xa108354fc7d9ea54ef9db578942064be5174c8d6c50e933042b7a2096a1278dint);
    let e = lemma_chain_square(p, g, e, 0xa108354fc7d9ea54ef9db578942064be5174c8d6c50e933042b7a2096a1278dint, 0x6fd790ad8fce827c5d053ea64295a8bd408ab11aeebb4174146fc74f5075c68int, 0x11a40b93aace7a5ea68af96ce9d93edafc3235d5170d51b412c5ca7cf95551int);
    let e = lemma_chain_multiply(p, g, e, 0x11a40b93aace7a5ea68af96ce9d93edafc3235d5170d51b412c5ca7cf95551int, 0xf17c67c9f9a629a813c9d07cb709f1100066e7ec7efc920885410fc375741int, 0x1e7290c4d117493a3f0074195441415dbf0c0790c2fafcca48d7b8327c3c178int);
    let e = lemma_chain_square(p, g, e, 0x1e7290c4d117493a3f0074195441415dbf0c0790c2fafcca48d7b8327c3c178int, 0x3ff95f8ec984849eed4ea0b21597f2ea59de8ac4f4b14969d5a5c8376dd6feint, 0x34b0a650d1a030f73c68721ef9e9fdaa9d3355df89470c873fa7dd59b7bd0aeint);
    let e = lemma_chain_multiply(p, g, e, 0x34b0a650d1a030f73c68721ef9e9fdaa9d3355df89470c873fa7dd59b7bd0aeint, 0x2d146e8b6560f828c53fc46b4f0a388fd87a78cc2af828a5b776f20f7307577int, 0x28550df499a2cd52ed0730ec31c730e9518a6c21a0007521447a13ad1dcb2c1int);
    let e = lemma_chain_square(p, g, e, 0x28550df499a2cd52ed0730ec31c730e9518a6c21a0007521447a13ad1dcb2c1int, 0x70413ebe6f431faa5db5c165b546cfe93ce0aca74c3d33f8544afd3b23180cint, 0x7c8088f8f436d489333277dd685616177a0bc40323483130fbfd90950bcb4edint);
    let e = lemma_chain_square(p, g, e, 0x7c8088f8f436d489333277dd685616177a0bc40323483130fbfd90950bcb4edint, 0x42dadf40a2bd3a34fd82e6549874291cebe1ce018e1736fcfeaa1023c1a3747int, 0xcdc09e403386a7735de7dc57fb8d6c35cb618ba98c9d00179c86e5834376ba8int);
    let e = lemma_chain_square(p, g, e, 0xcdc09e403386a7735de7dc57fb8d6c35cb618ba98c9d00179c86e5834376ba8int, 0xb69651a9e1a3b32c77baead143e7a9f3d415f42ef8364da427f02524b28875eint, 0x211ba03fe32bbfb25be832721a6ee9ce0474a187ca5920d299ee7b5ce86f20eint);
}

/// A power of a power of the root 6 modulo the prime `r`: the steps from the exponent
/// 0x5eed4866258
/// to the exponent
/// 0x17bb52198966db45.
proof fn lemma_power_r_7_part_2(p: int, g: int)
    requires
        p == r_prime(),
        g == 0xc65e63fc84a29618963c191904505e1be6e55bc5b54b6511631b904f09cee3fint,
        pow_mod(g, 0x5eed4866258, p) == 0x211ba03fe32bbfb25be832721a6ee9ce0474a187ca5920d299ee7b5ce86f20eint,
    ensures
        pow_mod(g, 0x17bb52198966db45, p) == 0xd49672ad5118f44dd944fc7f0247f8f33959f2ff57b645cfc75b04965a81331int,
{
    let e: nat = 0x5eed4866258;
    let e = lemma_chain_multiply(p, g, e, 0x211ba03fe32bbfb25be832721a6ee9ce0474a187ca5920d299ee7b5ce86f20eint, 0x1c537561e851adb8aaa0c0ae27af53f20897792bb4c009fbbbe1b497cf07dbaint, 0xc7a343887a800f280ccdde3d52ca61759c00e21f379a02ef1d140af78cabd7cint);
    let e = lemma_chain_square(p, g, e, 0xc7a343887a800f280ccdde3d52ca61759c00e21f379a02ef1d140af78cabd7cint, 0xabe55f6608f646b4a2a36d7f6f02c3df07a95c0f98deb0fa1215cd7ebd3a1e9int, 0x544d3bfebd1dc0358328e703b69c753a29d27c271ad727ba01ea2c1e2048a81int);
    let e = lemma_chain_multiply(p, g, e, 0x544d3bfebd1dc0358328e703b69c753a29d27c271ad727ba01ea2c1e2048a81int, 0x48202c55df3b3e260ebb747d6bc69657034830b4c33c6d5d0f22c7af89794b4int, 0x9c28f5660d37a0815f6e382cb604c0d11913302fe82b3810290bc2f7ae7c713int);
    let e = lemma_chain_square(p, g, e, 0x9c28f5660d37a0815f6e382cb604c0d11913302fe82b3810290bc2f7ae7c713int, 0x692d43285857a8629aa5e021ef14715a2559cd952060dd5743d59f3d8e714dfint, 0x14efb1f27049d2da6beca498497caacdee0dbc498be4079fd7137afa9294c00int);
    let e = lemma_chain_square(p, g, e, 0x14efb1f27049d2da6beca498497caacdee0dbc498be4079fd7137afa9294c00int, 0x1e3f8f075628233e5f921ac6948c0ab00f540c20b5b99326369d0d89738575int, 0x916ef739cca8aeadfba8a297a02f902ab4ced60f025dbaf6e2c45b8c0287d5dint);
    let e = lemma_chain_multiply(p, g, e, 0x916ef739cca8aeadfba8a297a02f902ab4ced60f025dbaf6e2c45b8c0287d5dint, 0x7c6d8da5a117effe769645b5debc497fbe5b623f55f62b2c4405717b868ec6bint, 0x15ccff3b0df0e4685e1d92288b341189888d44c7d99fc212ae681f61a4eeb66int);
    let e = lemma_chain_square(p, g, e, 0x15ccff3b0df0e4685e1d92288b341189888d44c7d99fc212ae681f61a4eeb66int, 0x20cc3946acc6279870bb53bf1b8f2a4713d63332c93f59e63f3efa9384c03aint, 0x5020aec80ac9bc6422ee05631a747aa2f3db052881eaecee4f2ea0c9b70b2eint);
    let e = lemma_chain_multiply(p, g, e, 0x5020aec80ac9bc6422ee05631a747aa2f3db052881eaecee4f2ea0c9b70b2eint, 0x448df4e49bc3bc3c2856c7da25db9a0ba490ea6c4d1113716463575a6670d0int, 0xa774d7d9662133126408cae0266593e39f5c30d69c312a46a823757cd2a1fa2int);
    let e = lemma_chain_square(p, g, e, 0xa774d7d9662133126408cae0266593e39f5c30d69c312a46a823757cd2a1fa2int, 0x78f1a418cd0fb0d7fc1b9d8d985241c99fced19840384f982f9a5eeace9abddint, 0xe065df65fc06405ea205902a0b94af4f203ed3aa7957d911dd09a188441cb89int);
    let e = lemma_chain_square(p, g, e, 0xe065df65fc06405ea205902a0b94af4f203ed3aa7957d911dd09a188441cb89int, 0xd92ddd1f5428ca8f48b7940d504310ebc4b564d59ae73bf66c616c7da3c75d9int, 0x7a6b4d70713d374e7f06f95a2442c389580b420515ebf1d2fc00797c58c0532int);
    let e = lemma_chain_multiply(p, g, e, 0x7a6b4d70713d374e7f06f95a2442c389580b420515ebf1d2fc00797c58c0532int, 0x68bcd885e9a689cdc2e32722c1acd6f2d03cf991f63c1d0dd826ad9c6c8c6d7int, 0xa6f4cf056363f9c7a81e24a2cc951f515e1fe67b018ff60e9379e42a59dab9dint);
    let e = lemma_chain_square(p, g, e, 0xa6f4cf056363f9c7a81e24a2cc951f515e1fe67b018ff60e9379e42a59dab9dint, 0x7838f940eb05c485965d46ef6549a058d415a181dd97e413b2efdbe79d10b1cint, 0x7ce0ab3bcd58788891c6f731a1741fd0aebaf8a5cc17644120ae4ec31415d45int);
    let e = lemma_chain_multiply(p, g, e, 0x7ce0ab3bcd58788891c6f731a1741fd0aebaf8a5cc17644120ae4ec31415d45int, 0x6ad74f737b9333169e6b2845011178d0dcd17332b2bf40a55de767c9909517aint, 0x44da2cd0adca6aac8eae3f845b2261d6e31fb72856044d14dde62ffd177e3c5int);
    let e = lemma_chain_square(p, g, e, 0x44da2cd0adca6aac8eae3f845b2261d6e31fb72856044d14dde62ffd177e3c5int, 0x14724699bb13650e974c3051b2079c809f40c373740486f7d7afd597ae4a34cint, 0xa21f44c46fadacc52216cf48760ee9c0ebe4b84924a2a33870e4369f9f72a45int);
    let e = lemma_chain_square(p, g, e, 0xa21f44c46fadacc52216cf48760ee9c0ebe4b84924a2a33870e4369f9f72a45int, 0x715c82a4d6b169c4f482c41ce0974bc0dc130e512d7f741ae9c1566abf33be7int, 0x49728c0e3cf069a498665f61d9bcd52a4f82eefe685c7d23199baf033143078int);
    let e = lemma_chain_multiply(p, g, e, 0x49728c0e3cf069a498665f61d9bcd52a4f82eefe685c7d23199baf033143078int, 0x3ed6d28d9c99a2d23b6b2060ecf8aec113caa9e8b657518cadc9d5527822d41int, 0x950e311c14ac8f0981b8a66c307d7705304c8179c8df07b28a5a141c29af811int);
    let e = lemma_chain_square(p, g, e, 0x950e311c14ac8f0981b8a66c307d7705304c8179c8df07b28a5a141c29af811int, 0x5fd30b0d63723a2a65fbf49c8413958aadaa92aa5de6cf34553024edaab6f2dint, 0xc24cdf6687e2c9cd16ef925255b6f6a5b27ed043095a53da261d1997ec1bbf6int);
    let e = lemma_chain_multiply(p, g, e, 0xc24cdf6687e2c9cd16ef925255b6f6a5b27ed043095a53da261d1997ec1bbf6int, 0xa63c9b21d6e7d8366a98cb2021efdca02a160609b519da3c35cb77208e765e5int, 0x8d726b124a666933a2159af22f175cfbd4a974d440c58efa15c2a289773c2d7int);
    let e = lemma_chain_square(p, g, e, 0x8d726b124a666933a2159af22f175cfbd4a974d440c58efa15c2a289773c2d7int, 0x564a99c5a4c268f563607916e59fdb71ca997cf368aa4a994ff99e665ec87e8int, 0x43fb052c90811593c0452d20bb82dac47498f00897336d39471ee27af2b89b9int);
    let e = lemma_chain_square(p, g, e, 0x43fb052c90811593c0452d20bb82dac47498f00897336d39471ee27af2b89b9int, 0x13ee941653ec343c7fbbe8ee4d11911ceee1c029675d051ecc630ae95fee4a0int, 0xacb3223062b3d3ae05ad7b5e6f4790ec7a9e9ac0533a6a82e2d32af1d5c9951int);
    let e = lemma_chain_multiply(p, g, e, 0xacb3223062b3d3ae05ad7b5e6f4790ec7a9e9ac0533a6a82e2d32af1d5c9951int, 0x93c18c69d9813247356fa96a3e08e361274a769f70be26a7b1212b987a2b7f7int, 0x2039f18a3d393e1a24dec565a5dd20727bc9a53540cc13fb32b067c76e135eint);
    let e = lemma_chain_square(p, g, e, 0x2039f18a3d393e1a24dec565a5dd20727bc9a53540cc13fb32b067c76e135eint, 0x47aae2f558b6643021d415080664100f5d65617efdd79f00aaabfb2411e1int, 0x5319105235246f65d1aee55462d1483c62c63e3f7b8287e92aa419cba4ca2adint);
    let e = lemma_chain_square(p, g, e, 0x5319105235246f65d1aee55462d1483c62c63e3f7b8287e92aa419cba4ca2adint, 0x1dc84f450bee31d9fe579161f915df1ce713a015ae35c3aaf0424aa04dfcad4int, 0x94231341cb73cb5aa96cb191deacb64ed7db732c968f15ba4a8487a84b4fb5dint);
    let e = lemma_chain_square(p, g, e, 0x94231341cb73cb5aa96cb191deacb64ed7db732c968f15ba4a8487a84b4fb5dint, 0x5ea5ac11ecd9685b6d1368a8b1ae43862c857217ac5195a92eb50d1bf40630cint, 0x8b0acdf24b13af1ae1b4a5b40df1655dd1dcdcdc0338a5fed41d4abf8f6a235int);
    let e = lemma_chain_square(p, g, e, 0x8b0acdf24b13af1ae1b4a5b40df1655dd1dcdcdc0338a5fed41d4abf8f6a235int, 0x5361dc47642a1437164d68d73877925baa403e4d1e81836212c2912c4af03bdint, 0x82f8b0e5f7614b60234fcd33ab4a9f664122438f1e4548e5b13e5158d87f6deint);
    let e = lemma_chain_multiply(p, g, e, 0x82f8b0e5f7614b60234fcd33ab4a9f664122438f1e4548e5b13e5158d87f6deint, 0x700e0330143335a8a7b464ad504e4b20eeee1921eaa4fa854c7044a9377b92dint, 0x1de2fdcf0dfadff7f47d2e67fd5e6a0b29d58b3da1760cfbcd8b527846c0977int);
    let e = lemma_chain_square(p, g, e, 0x1de2fdcf0dfadff7f47d2e67fd5e6a0b29d58b3da1760cfbcd8b527846c0977int, 0x3da3985e60458fea207409dbc773c2d8f72a463ccad5c065e7c71d1a3179b4int, 0x93fa35a5bbcd9868e0b3ad2f6da04c49d534d854e37414ba7bc3fbd95cca5a5int);
    let e = lemma_chain_square(p, g, e, 0x93fa35a5bbcd9868e0b3ad2f6da04c49d534d854e37414ba7bc3fbd95cca5a5int, 0x5e717b1614fc9448640b105a794e2c42c94747eb2bf5c1bf84c772f518be41eint, 0xb4c48e22bd02e67a7bdc73b66896cd3ccfc64ee2705c17e1c324d86f8fee2e7int);
    let e = lemma_chain_multiply(p, g, e, 0xb4c48e22bd02e67a7bdc73b66896cd3ccfc64ee2705c17e1c324d86f8fee2e7int, 0x9aa8a73fa63b9bc23b16ce751fc101587791f0dce9d5d35b7b74a713812cf98int, 0xd49672ad5118f44dd944fc7f0247f8f33959f2ff57b645cfc75b04965a81331int);
}

/// A power of a power of the root 6 modulo the prime `r`.
proof fn lemma_power_r_7()
    ensures
        pow_mod(0xc65e63fc84a29618963c191904505e1be6e55bc5b54b6511631b904f09cee3fint, 0x17bb52198966db45, r_prime()) == 0xd49672ad5118f44dd944fc7f0247f8f33959f2ff57b645cfc75b04965a81331int,
{
    let p = r_prime();
    let g = 0xc65e63fc84a29618963c191904505e1be6e55bc5b54b6511631b904f09cee3fint;
    lemma_chain_start(p, g);
    lemma_power_r_7_part_1(p, g);
    lemma_power_r_7_part_2(p, g);
}

/// A power of a power of the root 6 modulo the prime `r`: the steps from the exponent
/// 0
/// to the exponent
/// 0x67060a36f36.
proof fn lemma_power_r_8_part_1(p: int, g: int)
    requires
        p == r_prime(),
        g == 0xd49672ad5118f44dd944fc7f0247f8f33959f2ff57b645cfc75b04965a81331int,
        pow_mod(g, 0, p) == 1,
    ensures
        pow_mod(g, 0x67060a36f36, p) == 0x8add9421f5aa4cf7652ca36390895f9bdcacf640d2d7d72fb634a0f2d930a05int,
{
    let e: nat = 0;
    let e = lemma_chain_square(p, g, e, 1, 0, 1);
    let e = lemma_chain_multiply(p, g, e, 1, 0, 0xd49672ad5118f44dd944fc7f0247f8f33959f2ff57b645cfc75b04965a81331int);
    let e = lemma_chain_square(p, g, e, 0xd49672ad5118f44dd944fc7f0247f8f33959f2ff57b645cfc75b04965a81331int, 0xc2eb8b98babb6a2388250468df0d42f134163285d1aa4f765f0d2ca0443887cint, 0x73d3deea055dd37a3a0802fa7298998a1f5c0cdb4e8e36938238182dc606ebdint);
    let e = lemma_chain_multiply(p, g, e, 0x73d3deea055dd37a3a0802fa7298998a1f5c0cdb4e8e36938238182dc606ebdint, 0x6a33957858ea090552d683b57e1dd0e5c006003281847e82fcb8051b4af122dint, 0x4aee0e97feb6deb2a8dd1c5953e12f95437531039a65df55805192d2c047f02int);
    let e = lemma_chain_square(p, g, e, 0x4aee0e97feb6deb2a8dd1c5953e12f95437531039a65df55805192d2c047f02int, 0x18372179bb024d83e52c93b980ae3848b6b8a0d51d52718a7e0a83ba9efe65cint, 0x18b1f044eb34ae85918650be5071b9d038388647fb6566dc2f2f3c506398040int);
    let e = lemma_chain_square(p, g, e, 0x18b1f044eb34ae85918650be5071b9d038388647fb6566dc2f2f3c506398040int, 0x2a159a5ab18f60f52c094dd4b0e93b0b48db327830adb34f65e2c5df908ed4int, 0x63b3a082478fa19cad9786e11f2062f3ed109f1306ce7e3e92edd6ad518674int);
    let e = lemma_chain_square(p, g, e, 0x63b3a082478fa19cad9786e11f2062f3ed109f1306ce7e3e92edd6ad518674int, 0x2adf85ddccc25b033d7a8e4a1781e943802c4c4ae7d9a2a7dcb71a7e9efa0int, 0x5b3a8aa032403c53cbf99248c63dfd13bb0fe9e65b64171a29b96bdf33bd930int);
    let e = lemma_chain_multiply(p, g, e, 0x5b3a8aa032403c53cbf99248c63dfd13bb0fe9e65b64171a29b96bdf33bd930int, 0x53a59bcfedfa9c4436210eaf48fc223ae3cc482ee75b7473ce829af538850b7int, 0xc4876a55d21c76e292d218b01ad14e73d1a29de0fc81114e861fe2e7830fb5fint);
    let e = lemma_chain_square(p, g, e, 0xc4876a55d21c76e292d218b01ad14e73d1a29de0fc81114e861fe2e7830fb5fint, 0xa6958799fabdb0adeb97c1ac01d1ed721003288b93d923f32143d1c2eaf8fe7int, 0x4a428b18fb6f0ed52770623ef30de01aa59f3b976fbaf702f10017fcc56db20int);
    let e = lemma_chain_multiply(p, g, e, 0x4a428b18fb6f0ed52770623ef30de01aa59f3b976fbaf702f10017fcc56db20int, 0x4416a0e1584ff8304839d54584fd955cd4bff737679db8e0069b09b63cbc449int, 0x2674f6b91d87b36a9dd3e96fc380904378f613c8f896b7098d4fa7b370e74f1int);
    let e = lemma_chain_square(p, g, e, 0x2674f6b91d87b36a9dd3e96fc380904378f613c8f896b7098d4fa7b370e74f1int, 0x660ef282058119dd2b61a93bc544ae04b82da5d0dc4b432e64f0fac4262da2int, 0xbcbd2b5be7079a592967507b286ce7e7a9ea64ead8b5205c2ba25365356d413int);
    let e = lemma_chain_multiply(p, g, e, 0xbcbd2b5be7079a592967507b286ce7e7a9ea64ead8b5205c2ba25365356d413int, 0xad0da8f0f0ebd09440f5bc5a3b3c59e8030396a19316c957ade0b7cac304551int, 0x4a5979322e2a738cd03c51ade4cba103706351fe068f4852af1a1ad174187bcint);
    let e = lemma_chain_square(p, g, e, 0x4a5979322e2a738cd03c51ade4cba103706351fe068f4852af1a1ad174187bcint, 0x17d77757d92f737ff6780db24d78ecf0bc6374aa02f55c128766689e8d943b5int, 0x2331774ac1b5ec9016bc24d4994264a9b2094e14bdd991c3e2ab7f790da4fadint);
    let e = lemma_chain_square(p, g, e, 0x2331774ac1b5ec9016bc24d4994264a9b2094e14bdd991c3e2ab7f790da4fadint, 0x5578908d0c4f82abcb4d2aa6e39e713eb3767776f46df528603675ce571e2eint, 0x248cc953ce156767b64a3c240ef6eed890a2b2ee6dc1d38c4d9b9ca5f97c007int);
    let e = lemma_chain_square(p, g, e, 0x248cc953ce156767b64a3c240ef6eed890a2b2ee6dc1d38c4d9b9ca5f97c007int, 0x5c3019d33b515b7ced31077af88f117dfc30e1f9aff036347b342dd9e4869eint, 0x7367b1de7d96336af8337b92ebf232cda99d8f65bed6217f0b09f414a5b1d3fint);
    let e = lemma_chain_square(p, g, e, 0x7367b1de7d96336af8337b92ebf232cda99d8f65bed6217f0b09f414a5b1d3fint, 0x39712b9a7d2b4d47e6e2e0b21ffdc37f1e5fb2973781c53b53b8cd204e401abint, 0x984c256346dfbfd63f1fb6a8bd840c9717efdda8ac7973af4a5de2efcddc044int);
    let e = lemma_chain_square(p, g, e, 0x984c256346dfbfd63f1fb6a8bd840c9717efdda8ac7973af4a5de2efcddc044int, 0x6409c41c1eec4ed272ca696d9fd86e1a5a721906ec1776dab7154102a03a498int, 0x4cb41046a17c6ef5101d5f18dccab3b044e60c1a8b897940d682759de414968int);
    let e = lemma_chain_square(p, g, e, 0x4cb41046a17c6ef5101d5f18dccab3b044e60c1a8b897940d682759de414968int, 0x19600c94d9cf4af7325a3dba7cbe6e1f4173a6fc2b5738c41ee64b8a0953382int, 0xb4ac5187647e6195d9dab4a2da283bbdd580cdaab3f5fc4a2d69bf2edec5052int);
    let e = lemma_chain_multiply(p, g, e, 0xb4ac5187647e6195d9dab4a2da283bbdd580cdaab3f5fc4a2d69bf2edec5052int, 0xa5a869c80c512378127555aa56661809bd61a2593d33438bcba86bb0e04acf9int, 0x9197b7c5a646c37195fdcc7d28facf5e7e89e94781bedaef24980a646b003b3int);
    let e = lemma_chain_square(p, g, e, 0x9197b7c5a646c37195fdcc7d28facf5e7e89e94781bedaef24980a646b003b3int, 0x5b6c7e8d4a30667d74683103487dd2d162c8688c0ebc9b8039d7a9d00e5c880int, 0x18ed069f80e360c5b657ab93ab3ebdefd05cdeb6720a3a5efda527c63f55ba9int);
    let e = lemma_chain_multiply(p, g, e, 0x18ed069f80e360c5b657ab93ab3ebdefd05cdeb6720a3a5efda527c63f55ba9int, 0x16dab74ec960e442fbaafb68de121bc990c2ece68d0af06226ec97cb49c06c8int, 0x818decbe704a4652c7d43608ca8eed978fb51a667154461a7129c38400dd61int);
    let e = lemma_chain_square(p, g, e, 0x818decbe704a4652c7d43608ca8eed978fb51a667154461a7129c38400dd61int, 0x486419ef3630cc0149aa1bc3083e845f7d3b35017f66f18f25ec68f8f365cint, 0x83f012535768489b0ec3e253e9010dbebe47ce7ce25a87b80f81f0f2ff4f2fdint);
    let e = lemma_chain_square(p, g, e, 0x83f012535768489b0ec3e253e9010dbebe47ce7ce25a87b80f81f0f2ff4f2fdint, 0x4b143c6952014b9a26ad17f655ea2f421a83b404ef26ad65f2ec3570b0ab5f9int, 0xbe69a8ce1267617e00e2dd4c55bb222c8e9cc52ac054a042ac0f73e89bd6d0aint);
    let e = lemma_chain_square(p, g, e, 0xbe69a8ce1267617e00e2dd4c55bb222c8e9cc52ac054a042ac0f73e89bd6d0aint, 0x9c6077424091daf394f72aa02b6c38998744ceaeeee8fae71faa916c7e1f327int, 0xd4a91a8f1224c1d66df0d5933961d522255f8f01ac8c2e0c5b1777cf644ff83int);
    let e = lemma_chain_square(p, g, e, 0xd4a91a8f1224c1d66df0d5933961d522255f8f01ac8c2e0c5b1777cf644ff83int, 0xc30dc30a44e148ae622d8474250ff6b15d8222474bc2fb83b9ab7a020fd6d95int, 0x3cbfa3ccf3256d82814d3d68d479c1e99e836ff9fecb65bb046249813dc4b86int);
    let e = lemma_chain_square(p, g, e, 0x3cbfa3ccf3256d82814d3d68d479c1e99e836ff9fecb65bb046249813dc4b86int, 0xfeaac6f6d0c673b4e73e8c117dad33b360306db1c9b059a292cfbc6efe9c41int, 0xa2b329621c59bd4f7f4884cd5e3297ec166dc46d975bac90b0b10fb9503ebadint);
    let e = lemma_chain_square(p, g, e, 0xa2b329621c59bd4f7f4884cd5e3297ec166dc46d975bac90b0b10fb9503ebadint, 0x722bb3dd52351ed0c3b7b192698a856eb34dac4bcd746c88fae98d02e2d03b9int, 0x6e71bde55720445a02e721707b45eceff0c89b05e3b9e5e0c5da66ac4b49daaint);
    let e = lemma_chain_multiply(p, g, e, 0x6e71bde55720445a02e721707b45eceff0c89b05e3b9e5e0c5da66ac4b49daaint, 0x6543fccaa3885e488d6bbd23cd6b9c4e51626d444a063f89aea6c7edf051cefint, 0x490fc8f4edf5831dca6b716e0cdeae693f55eb0f21c3daa200b7257959c08b1int);
    let e = lemma_chain_square(p, g, e, 0x490fc8f4edf5831dca6b716e0cdeae693f55eb0f21c3daa200b7257959c08b1int, 0x1705dadfb7c0de8f4c7e6d06f26573579ae4d42f4aced0e4f49779ef63240ceint, 0xa2b84b72712ebecaa8a3f142e339117184c72506bd39a65a4ae1c474631cf1fint);
    let e = lemma_chain_square(p, g, e, 0xa2b84b72712ebecaa8a3f142e339117184c72506bd39a65a4ae1c474631cf1fint, 0x7232e8341f99d791fb495eb156470dde87aba686604a91dd1fa0bd121218da4int, 0x9adee5e4db4e92a0b187136865d238cb57c38e2ac193e7216468ff8b0e0b585int);
    let e = lemma_chain_multiply(p, g, e, 0x9adee5e4db4e92a0b187136865d238cb57c38e2ac193e7216468ff8b0e0b585int, 0x8dfff38fc5bf8ffa8d0489b3e76f677b89d786ae1cf7c92b1d6371aa285670aint, 0x36b57d04ebbe9558093ae207aae9e11d5c87bcb83551f7a829453e3f0b3d4fint);
    let e = lemma_chain_square(p, g, e, 0x36b57d04ebbe9558093ae207aae9e11d5c87bcb83551f7a829453e3f0b3d4fint, 0xce8bcc6b6aefcb6c7377da18f3495b3aebc73fe8f96c06fd668931928de8int, 0x8f71def1e2b14ccb2e8689c0e6ac146d747a4588bb645c6554ce20ba796d89int);
    let e = lemma_chain_square(p, g, e, 0x8f71def1e2b14ccb2e8689c0e6ac146d747a4588bb645c6554ce20ba796d89int, 0x58bf0b1c307459726587b95bed964f1e12eefb52b9e520ced969e7f89ab72int, 0x45c205cad5615456979e9834145bfd3b46615355bf2084a8cf14ec94280ccd3int);
    let e = lemma_chain_square(p, g, e, 0x45c205cad5615456979e9834145bfd3b46615355bf2084a8cf14ec94280ccd3int, 0x14fce167bcca0eeb7faea780960ebc7e6a16f0bbe950f8f4cc4595f6a6ba6e8int, 0x4c117cd22c3e9eefcb71e6a6e2ea6d447b44efb725c76b3e260f3acb564c611int);
    let e = lemma_chain_square(p, g, e, 0x4c117cd22c3e9eefcb71e6a6e2ea6d447b44efb725c76b3e260f3acb564c611int, 0x18f4ed48e4cc53a3f474c58c51c2e782acd631a5b5b894bc4b87597f5682012int, 0xda3a560f2f339be3f05596699e990a319991b9125c589dcf74651e710364843int);
    let e = lemma_chain_multiply(p, g, e, 0xda3a560f2f339be3f05596699e990a319991b9125c589dcf74651e710364843int, 0xc8176f94a4860d5b9617dc9b5241ae5c79eaef4510490da4d143b6ffd81dc1cint, 0xddcf66729828e8a21afa00705fe56205bc2dcfb9ff3230412774f77ac0ba5cfint);
    let e = lemma_chain_square(p, g, e, 0xddcf66729828e8a21afa00705fe56205bc2dcfb9ff3230412774f77ac0ba5cfint, 0xd432ef88beab769a3fa168c87e93c4ba15bc676ed3674132bcd6237c676e89aint, 0x8401a2889c70a23fc51f661bb26cb80002d24691ba3b19425990c155b9dbf4bint);
    let e = lemma_chain_multiply(p, g, e, 0x8401a2889c70a23fc51f661bb26cb80002d24691ba3b19425990c155b9dbf4bint, 0x7909231dec694cfa455c682e19c92da672eb4fcee531df2f7086d8300210536int, 0x998f28bf62418e66c23214d362e86928bbb1e870fae80b8bb83f98e6f022cc1int);
    let e = lemma_chain_square(p, g, e, 0x998f28bf62418e66c23214d362e86928bbb1e870fae80b8bb83f98e6f022cc1int, 0x65b3df76df0bfce3937fd22b7aadca9c0867eb6526e8ffdab128b62fbe37ab2int, 0x74b1a47639b5712e61daf80a821d78a5b483317032fdb6b29f597ac2659c43int);
    let e = lemma_chain_square(p, g, e, 0x74b1a47639b5712e61daf80a821d78a5b483317032fdb6b29f597ac2659c43int, 0x3abb767813e8eb7340c2757712e59116e035d8d4e2d5aa76696b59bc3b8e5int, 0xdce726a1306d70bdb3e67175640dd7f88d4dfde1d15541d3f9e6bf1689c31d6int);
    let e = lemma_chain_multiply(p, g, e, 0xdce726a1306d70bdb3e67175640dd7f88d4dfde1d15541d3f9e6bf1689c31d6int, 0xca8b566591c201ccbc61e5060aba5084e2aa9d678a0a1431083af94c12e9177int, 0x339f539d1c652fe1fa5a0b89d3d6399d762684d9a4fd3187f10de64d2ecfbe5int);
    let e = lemma_chain_square(p, g, e, 0x339f539d1c652fe1fa5a0b89d3d6399d762684d9a4fd3187f10de64d2ecfbe5int, 0xb7e5ceb116793afce022bd37a94c54e222bb8c8bd0dbff87e71e8adf28ea6dint, 0xba5f0401dad5e5d27dd9392e3773ba0044bbe4cc8773151bc4c5d753e5d8aeeint);
    let e = lemma_chain_multiply(p, g, e, 0xba5f0401dad5e5d27dd9392e3773ba0044bbe4cc8773151bc4c5d753e5d8aeeint, 0xaae1e1cb35f2be7c8ee907aa0afc3dad6d6ed0fa2b3baf16d8cdb48d85e7007int, 0x8e97a30364537966250e7b3db1eb14cf3e9b3b4e79c2e78cc982a8a1be2f88dint);
    let e = lemma_chain_square(p, g, e, 0x8e97a30364537966250e7b3db1eb14cf3e9b3b4e79c2e78cc982a8a1be2f88dint, 0x57b1cfe93c4ea14cf71556320626a214eb22c05c1d0ec6f1cefa6aadbcdd9acint, 0x9d5af76a56f0adbb71fa712fdc5aef9854955d9d2180d2bce3ce70839c153b5int);
    let e = lemma_chain_square(p, g, e, 0x9d5af76a56f0adbb71fa712fdc5aef9854955d9d2180d2bce3ce70839c153b5int, 0x6acb0b66522978fdb15058e56e48d03c9d328dec2998a03c2972dfd8fd2404dint, 0x4a8254f20e31c1665b3123a4deb0c9456b6df2498883edcdf09bdb991a4aaeeint);
    let e = lemma_chain_multiply(p, g, e, 0x4a8254f20e31c1665b3123a4deb0c9456b6df2498883edcdf09bdb991a4aaeeint, 0x44511d994074882a7c0d58589dae2e5086f9f34b4142f4072d6cc6aa05f253aint, 0x6d6025a683030d0a2009b7cacaedc5084be313f7871d67dbaa06fb1c604cd18int);
    let e = lemma_chain_square(p, g, e, 0x6d6025a683030d0a2009b7cacaedc5084be313f7871d67dbaa06fb1c604cd18int, 0x3398baeb0c5a739808290981ad86f0cdc63d8e3019c4c3bf36b986400d6e31dint, 0xd5568335e77d5301ca935d7ad418482ba4e28cf9cd24af81cf04d11456f1c85int);
    let e = lemma_chain_multiply(p, g, e, 0xd5568335e77d5301ca935d7ad418482ba4e28cf9cd24af81cf04d11456f1c85int, 0xc39ba5ddba347463b21de9377ab643c1c609a6579bd45410966b0eab71b2a7fint, 0x3f269f0e17eb9d89ebbff306c2bbbc398aede63c8b2bbbba8f744edff681facint);
    let e = lemma_chain_square(p, g, e, 0x3f269f0e17eb9d89ebbff306c2bbbc398aede63c8b2bbbba8f744edff681facint, 0x11334e9ccbba20343d638cbc33d80d47080bf688d5d49f17d3c8ddb1ccdd8d5int, 0x7623bfdb4ecdb754a91f4921ca8ac19f0b88c1e9367d1c6521a6b412bbd7f4dint);
    let e = lemma_chain_multiply(p, g, e, 0x7623bfdb4ecdb754a91f4921ca8ac19f0b88c1e9367d1c6521a6b412bbd7f4dint, 0x6c5245ea95ddac90297405d8872fde4a3552952d8814b92d18adc486e65db96int, 0xc99694d98b1297ecafb41cdcb7182b8ba6371dfb496cc90419ba897acf85483int);
    let e = lemma_chain_square(p, g, e, 0xc99694d98b1297ecafb41cdcb7182b8ba6371dfb496cc90419ba897acf85483int, 0xaf45700098138a84f31fb2a2a244619f02990dc883aac96b24eebe91ba1bf86int, 0xb451330e1273d87544fd7cd7a01a1ab60f22e5b626dd4fef57f0a3d85e14a3fint);
    let e = lemma_chain_multiply(p, g, e, 0xb451330e1273d87544fd7cd7a01a1ab60f22e5b626dd4fef57f0a3d85e14a3fint, 0xa554dde863ce3d269d210869b5c72eb956a6ae1d344e350f660121e37972c80int, 0x8c2256fdafcf8117afc0ab6d8d5823e5f3bce19c2386e301f7e429a44c3138fint);
    let e = lemma_chain_square(p, g, e, 0x8c2256fdafcf8117afc0ab6d8d5823e5f3bce19c2386e301f7e429a44c3138fint, 0x54b2723b5ea39167fa4e508084f621fb6c832920e99635258ae8eeb084a269fint, 0x12a12099c313500e0afaa4cdaf865e1e78d8647277e693271da0f70ec4a9a38int);
    let e = lemma_chain_square(p, g, e, 0x12a12099c313500e0afaa4cdaf865e1e78d8647277e693271da0f70ec4a9a38int, 0x17f3191bee17abffa13aa5323d228da93d8aa99e9a1a2b6d232290c2ff5817int, 0x6a03cdf7acf1673c2f8db7a6771e0a62d517d6bd115cb4ccff259a2456a7fcfint);
    let e = lemma_chain_square(p, g, e, 0x6a03cdf7acf1673c2f8db7a6771e0a62d517d6bd115cb4ccff259a2456a7fcfint, 0x30797d025c15904ef96f6c7c1a56bb7662ac9a9ef99e95f5ce11a92e8259fc0int, 0x92e36c4981b8b416e5b87407eaeed3acff61e41fa12756851c06deda0a0d721int);
    let e = lemma_chain_multiply(p, g, e, 0x92e36c4981b8b416e5b87407eaeed3acff61e41fa12756851c06deda0a0d721int, 0x86ae4dd7ecd12f88ce326d9eabdebcd069bb483f8e6445c29c2039f32d6b64eint, 0xe18782c43a5069e7c6565bee76abeee6714af53f4a0551eebece2808954e68fint);
    let e = lemma_chain_square(p, g, e, 0xe18782c43a5069e7c6565bee76abeee6714af53f4a0551eebece2808954e68fint, 0xdb5feb19bfd007933d8ddc284c4f3f51ff31aea41dd833fffd8f7ce1f07d052int, 0x8c1ae228f3a8920523c1110970e356ac2888be1a8b06640402d017519fb4143int);
    let e = lemma_chain_multiply(p, g, e, 0x8c1ae228f3a8920523c1110970e356ac2888be1a8b06640402d017519fb4143int, 0x80761568b9ba3b3275eb05760d9d1977117396d8162542675e3d2ced05bd6bdint, 0x12da5dd40683fb9b86a131f2edf5c00c8729913128e9d43e3396e9f8fd79b8int);
    let e = lemma_chain_square(p, g, e, 0x12da5dd40683fb9b86a131f2edf5c00c8729913128e9d43e3396e9f8fd79b8int, 0x18872703eaa6e0f6f1d61c73d5ecf8afea6a02ce178254fd27ffdec56379int, 0xd431b13300cf49b73fb92b9bf38157423ec4f97e1772d07854c9f84039d8cc1int);
    let e = lemma_chain_square(p, g, e, 0xd431b13300cf49b73fb92b9bf38157423ec4f97e1772d07854c9f84039d8cc1int, 0xc232f3ad952bb21b261377642b786ba0466b64aced12cf0d27b5e74fab08abbint, 0x44fc8c65fc175cf328812d812d4a062a0ccd3f3f9f166207c65b79cbfa559d4int);
    let e = lemma_chain_multiply(p, g, e, 0x44fc8c65fc175cf328812d812d4a062a0ccd3f3f9f166207c65b79cbfa559d4int, 0x3f40d3f49b4ae3b3a17a61733492645579e1872b76caa031c636e53844f3c56int, 0xe226626fbcfb46b443df694bdaa68995e2bccfbb0f335aebe072cb93d74041aint);
    let e = lemma_chain_square(p, g, e, 0xe226626fbcfb46b443df694bdaa68995e2bccfbb0f335aebe072cb93d74041aint, 0xdc956b7559b80608cc348f317ce6ac20470ba085f1f754e635dcd8d4560b046int, 0xaf52c9c0da0b70d4f24bd21426a12fa590cb3230765ed066425d2da4dacc89aint);
    let e = lemma_chain_multiply(p, g, e, 0xaf52c9c0da0b70d4f24bd21426a12fa590cb3230765ed066425d2da4dacc89aint, 0xa0c0b3680242cad9bf8dd692f75a24b12b34b1c5ff813028ea671c7d97a9682int, 0xdbc728db7803c4e5077e95107d2c46c12fa936c12c695284e4769edac17e48cint);
    let e = lemma_chain_square(p, g, e, 0xdbc728db7803c4e5077e95107d2c46c12fa936c12c695284e4769edac17e48cint, 0xd054195fb4db299e11001ac26f6ffa32d297556743f81c89fa2aba11a62cccdint, 0x8add9421f5aa4cf7652ca36390895f9bdcacf640d2d7d72fb634a0f2d930a05int);
}

/// A power of a power of the root 6 modulo the prime `r`: the steps from the exponent
/// 0x67060a36f36
/// to the exponent
/// 0x67060a36f376635e923052.
proof fn lemma_power_r_8_part_2(p: int, g: int)
    requires
        p == r_prime(),
        g == 0xd49672ad5118f44dd944fc7f0247f8f33959f2ff57b645cfc75b04965a81331int,
        pow_mod(g, 0x67060a36f36, p) == 0x8add9421f5aa4cf7652ca36390895f9bdcacf640d2d7d72fb634a0f2d930a05int,
    ensures
        pow_mod(g, 0x67060a36f376635e923052nat, p) == 0x4e1af2162cdbb7ddd185997c0f02e636ecf4594bbc912c9dafa5bb88d54188fint,
{
    let e: nat = 0x67060a36f36;
    let e = lemma_chain_multiply(p, g, e, 0x8add9421f5aa4cf7652ca36390895f9bdcacf640d2d7d72fb634a0f2d930a05int, 0x7f532630a02021ace520dc2e025da7902d132c82370f49df07d8085d42dde49int, 0xb4463a5493116cebcc3171c11cf244ff55af773c8f80a537530f72621bdd7c6int);
    let e = lemma_chain_square(p, g, e, 0xb4463a5493116cebcc3171c11cf244ff55af773c8f80a537530f72621bdd7c6int, 0x8c2af33daabe222b1ea8a94d7b084a3bee7987715bb5051555a732398a5722bint, 0x8bac47189cfd9ed341a17049d3f1f384ad378c9f68676ab7cae59a7b4d92c67int);
    let e = lemma_chain_square(p, g, e, 0x8bac47189cfd9ed341a17049d3f1f384ad378c9f68676ab7cae59a7b4d92c67int, 0x5423f7b6a3e945cb2cc58e35448a851abea69e9f859af417300ccc2d3b61a62int, 0xe555ab8a52e8852dfff32f4d4aeca332865bced03d62e39f02844a9220ddd63int);
    let e = lemma_chain_multiply(p, g, e, 0xe555ab8a52e8852dfff32f4d4aeca332865bced03d62e39f02844a9220ddd63int, 0xd24677cce998cb99c0af67417b5e2a8a425b3b6a98928e7e98863598c3a7c81int, 0x2b99a0df367790d1e1b6cdb15f027b23d70814d09259ba296115595a2618cbcint);
    let e = lemma_chain_square(p, g, e, 0x2b99a0df367790d1e1b6cdb15f027b23d70814d09259ba296115595a2618cbcint, 0x832eb1eb0e5f7167b2c94257166a0133f152e293d628b3051161021747aec6int, 0xded780391a7b1e666682e42c9b9ab48fb3140129c1b3f88d1bc2eabc8843286int);
    let e = lemma_chain_multiply(p, g, e, 0xded780391a7b1e666682e42c9b9ab48fb3140129c1b3f88d1bc2eabc8843286int, 0xcc526fe9722ca725db562a9b6625a84e751f9e3ae5fa0ac01b1238c968e51e9int, 0xc7a6ea721b9e7d67280816d4628e176d2090ccdfdb96a42679754f1535e0417int);
    let e = lemma_chain_square(p, g, e, 0xc7a6ea721b9e7d67280816d4628e176d2090ccdfdb96a42679754f1535e0417int, 0xabeba9731077ac0d8b226b23e5a1e28cbcda602907a6bd960ff0e39908ae6d5int, 0x3bc8c9ef4bfbe78679f4708b44a581f400f68fcc00024883193d94cf27a1bceint);
    let e = lemma_chain_square(p, g, e, 0x3bc8c9ef4bfbe78679f4708b44a581f400f68fcc00024883193d94cf27a1bceint, 0xf6a587eb24e9ad79fe2ce833996d76d494aa70121410bf8b17c53ec2c15736int, 0xb18e8c26db750ace453519120d3a8c901154d66334ec849fb058a833f107a2aint);
    let e = lemma_chain_square(p, g, e, 0xb18e8c26db750ace453519120d3a8c901154d66334ec849fb058a833f107a2aint, 0x87f9494e22a81c168423212169ba5e0cc7064044cd2b48e82a593b336fe0fe5int, 0xc475a50c85795da98be7a4acdd70bc342effd90060f8601cde23d1b6d405631int);
    let e = lemma_chain_multiply(p, g, e, 0xc475a50c85795da98be7a4acdd70bc342effd90060f8601cde23d1b6d405631int, 0xb421e0312067c9d607ee2a6f9edac8be2fdb076bbb021025c8ce7fadd889180int, 0xa0acb70c6cfe18a411e6ba3aa0d74e38819710b86344e859680cbc15cbc1fe1int);
    let e = lemma_chain_square(p, g, e, 0xa0acb70c6cfe18a411e6ba3aa0d74e38819710b86344e859680cbc15cbc1fe1int, 0x6f589db8cad415855af5ce313f6b40a546983b9d7a85326eef731d2c5e740efint, 0x2527ba97939b31c25ff057fc8c0f4222b37d79992bff6977c4da491e65ec4e8int);
    let e = lemma_chain_multiply(p, g, e, 0x2527ba97939b31c25ff057fc8c0f4222b37d79992bff6977c4da491e65ec4e8int, 0x22113c1a7cb78c4bf32b052fb714171c3c455d9d8aa4473af813101c8d4f724int, 0xc8a7f9041b6aba63e552eba5e7322995b4f02ab35cd5cc979cfb1f92a8e0dacint);
    let e = lemma_chain_square(p, g, e, 0xc8a7f9041b6aba63e552eba5e7322995b4f02ab35cd5cc979cfb1f92a8e0dacint, 0xada77aa7dcf7b177193f530a6094fe8927dfa624959fd5b510d04e5c80bd927int, 0x3df5cf2e6287ff4bc6448308fa37a906a5b0d90145b1bb3162a93fc731efcafint);
    let e = lemma_chain_square(p, g, e, 0x3df5cf2e6287ff4bc6448308fa37a906a5b0d90145b1bb3162a93fc731efcafint, 0x108ed435c0940fb0c7dc78c92e8ae0b2aaf6c5c20e4ec4ee875762d93fd3328int, 0x69e4c465d1622a61f79ec201a71c22628a99e5da2c1edf2140f9289520a8e09int);
    let e = lemma_chain_square(p, g, e, 0x69e4c465d1622a61f79ec201a71c22628a99e5da2c1edf2140f9289520a8e09int, 0x305d1f0cd743a135cb595fcfe1d88e16848d612583a0c2e71e99d4194cd27afint, 0xbe774f6f63476cf45654a4d18e00330cdb9e9470d559eb56b3d283af62f8a38int);
    let e = lemma_chain_square(p, g, e, 0xbe774f6f63476cf45654a4d18e00330cdb9e9470d559eb56b3d283af62f8a38int, 0x9c76e401806451f5e18636b153096ff9d413ddcdcbb186bf9b5624219019a07int, 0xa5f6d0a4e539986168f27addc7331b7f4cc84270331255d78cd866c0dd11d3fint);
    let e = lemma_chain_multiply(p, g, e, 0xa5f6d0a4e539986168f27addc7331b7f4cc84270331255d78cd866c0dd11d3fint, 0x982bd9bf402041c9fe77869f45d35d81f5a363f54b35eb9a58482632528ca38int, 0x11828a731c08b4ad693ccc33271e760b22e47aeb97cb6d6e1487538b7981807int);
    let e = lemma_chain_square(p, g, e, 0x11828a731c08b4ad693ccc33271e760b22e47aeb97cb6d6e1487538b7981807int, 0x152860a8d84a0a358a1f6ec4fee5f49f157efa4cdf0097273bd0e44f06a027int, 0x4e12654ffe7272f2d158c59e8967a6c309e7e801b466ec16be86b65cbad2050int);
    let e = lemma_chain_multiply(p, g, e, 0x4e12654ffe7272f2d158c59e8967a6c309e7e801b466ec16be86b65cbad2050int, 0x47956160c7c64b8ab35445767292d3e085a57826a6749b7a7255cf82b1d6f5eint, 0x3dd7f3774a20f91be2c20feccdfb9427e9d014d33a0cbd29a3ef0f3b1285b1eint);
    let e = lemma_chain_square(p, g, e, 0x3dd7f3774a20f91be2c20feccdfb9427e9d014d33a0cbd29a3ef0f3b1285b1eint, 0x107ee2b8603032e395c6eb0fd5a0a62c2c648e789d53b1e2d89298cd15cfa51int, 0x8474422441d972c40a4e183fb4775f3696aed2077780c8d58e815f7372a7b9dint);
    let e = lemma_chain_square(p, g, e, 0x8474422441d972c40a4e183fb4775f3696aed2077780c8d58e815f7372a7b9dint, 0x4baaf8cb2574ebeb3e19009f539b67b2733af0971615cfba85a9e0c6ed93456int, 0x8400a99a00662e0cee478dd997583218608ad992144236452c4044a4bf70ccfint);
    let e = lemma_chain_multiply(p, g, e, 0x8400a99a00662e0cee478dd997583218608ad992144236452c4044a4bf70ccfint, 0x79083edf75d9181049c2be6deff6108b400f38fc6a8c5262496ed07993f6de5int, 0x1a3d2c725048ea9b7d98bb1b7500076ab8b76dfd5b41783e0fc1e2509e6e5ecint);
    let e = lemma_chain_square(p, g, e, 0x1a3d2c725048ea9b7d98bb1b7500076ab8b76dfd5b41783e0fc1e2509e6e5ecint, 0x2f82ccda40fea529310010ff319243344bc48ba96af3405494517e6abdc593int, 0x659d1ca0722451881542985b99d7b929c10a2c85f7df208d536a0b11c1d917bint);
    let e = lemma_chain_square(p, g, e, 0x659d1ca0722451881542985b99d7b929c10a2c85f7df208d536a0b11c1d917bint, 0x2c8887cad6103afcafb9781682855e074535e7ff9f9fdda72f449db84993e15int, 0x3a7939ba38298a2599fc547fe22426d62ffdbda161fc0383ab2e5269c109416int);
    let e = lemma_chain_multiply(p, g, e, 0x3a7939ba38298a2599fc547fe22426d62ffdbda161fc0383ab2e5269c109416int, 0x359d2c70e4a31cf4fd0c9e23b7867020ffdecdd41d732a01269d51fa5b520e1int, 0xc227f9767563398d7bfa78fcaa12e08fa16e1350498d221f76393959161cd5fint);
    let e = lemma_chain_square(p, g, e, 0xc227f9767563398d7bfa78fcaa12e08fa16e1350498d221f76393959161cd5fint, 0xa295f971e603e1659440c9558ed0bf7a2c875ca7f11252d78dab5e47c2a44dfint, 0xd9d992ed19cc7b3e4c0e83ed45601136103a470bfd37c9dd81130b00188b9d8int);
    let e = lemma_chain_multiply(p, g, e, 0xd9d992ed19cc7b3e4c0e83ed45601136103a470bfd37c9dd81130b00188b9d8int, 0xc7beb71c05f9893bc238524c2d39563bb43ce7e6aaea88b7b3dbbde08b3936eint, 0x93dc2dc82772371a4cf681fa7be74b38e45c7ce8ea79bf717aeb55555df4eb6int);
    let e = lemma_chain_square(p, g, e, 0x93dc2dc82772371a4cf681fa7be74b38e45c7ce8ea79bf717aeb55555df4eb6int, 0x5e4b29c19ae38042f7f3e1c1368d56abd7d8e5427dff566bcbf48ae9dcb5861int, 0xbed8d8d0ca64fcc4444cb34fcde8c88d8f51f5ab46559d3b579b947fa23900dint);
    let e = lemma_chain_multiply(p, g, e, 0xbed8d8d0ca64fcc4444cb34fcde8c88d8f51f5ab46559d3b579b947fa23900dint, 0xaefc7c81348c6a6aa4362155a16945c85749fe25adb7ac1aa01b28f63162ce9int, 0x5d1f2e38a41940162864f344b62043185c92f8f1f93caabcdfa58326ea662eeint);
    let e = lemma_chain_square(p, g, e, 0x5d1f2e38a41940162864f344b62043185c92f8f1f93caabcdfa58326ea662eeint, 0x2566a76c23838c41e6e50763e2cd4941e8f5abfe580ad8d6a1ffb099e0e5bb3int, 0x1a3075f75e023ac854ac7c372b4cb182bbfaabdeb6e364a3c659cda6b27c44fint);
    let e = lemma_chain_multiply(p, g, e, 0x1a3075f75e023ac854ac7c372b4cb182bbfaabdeb6e364a3c659cda6b27c44fint, 0x1803456bd3b9310fc5d5cc23e027e3be6f692517b57c3543f16ac73da0434a2int, 0x68252d965786f74fec06446a7dc05be5d2b58f3512b95f168424b01aeaaf851int);
    let e = lemma_chain_square(p, g, e, 0x68252d965786f74fec06446a7dc05be5d2b58f3512b95f168424b01aeaaf851int, 0x2ec7a6890e71a5b08adfbca315db72adc9e6067f5fc6d0d658a1caa12e63d13int, 0x8d63bc8599c85e327299e98451394fb3d00326a4667dbf8b7235f5ef4071d0cint);
    let e = lemma_chain_square(p, g, e, 0x8d63bc8599c85e327299e98451394fb3d00326a4667dbf8b7235f5ef4071d0cint, 0x5638b0ce1b3e3d977679042f5f4ea152f829878c343495db9bce3990af28bffint, 0x5787f96a5f25d79b19eb40b3c9703221ecc1a592e002887ad98216ab978d147int);
    let e = lemma_chain_multiply(p, g, e, 0x5787f96a5f25d79b19eb40b3c9703221ecc1a592e002887ad98216ab978d147int, 0x5041b54365189dd016f566fadded19cf80c406d2da35e45e8384493c4210e43int, 0x2d0653f19e1b674c602b971b02d6c8f2a890ea7900c93f7019f00892a869db2int);
    let e = lemma_chain_square(p, g, e, 0x2d0653f19e1b674c602b971b02d6c8f2a890ea7900c93f7019f00892a869db2int, 0x8be5231df475b58f703fac34d4b50072e23c04210d4ed87825fa19d2e4f1d6int, 0x7bd249a3bc2b28816c824ba487664d2c99d40bfec25cf1b0864a4b48ac827caint);
    let e = lemma_chain_square(p, g, e, 0x7bd249a3bc2b28816c824ba487664d2c99d40bfec25cf1b0864a4b48ac827caint, 0x42203fd49b084d6737c940ca38ca7b161a6f5f9392df4156630b420720446ffint, 0x193970f0f46ee77c718bba95591ef8671612a307b6fb6551d3e3b8e1283971bint);
    let e = lemma_chain_square(p, g, e, 0x193970f0f46ee77c718bba95591ef8671612a307b6fb6551d3e3b8e1283971bint, 0x2be8639820a007b3f07d720f6a2bb3b1569ac11715d880ac6570cc2fe13647int, 0xc16da1c32c8437d39a792c4016705d2cc9accde1a717beab792d8ea22ffdc18int);
    let e = lemma_chain_multiply(p, g, e, 0xc16da1c32c8437d39a792c4016705d2cc9accde1a717beab792d8ea22ffdc18int, 0xb15a5af12eeb9be940ddb229a6bbd476cc0ee84ff71ec028e90bed06b198a3cint, 0xb808c7f083f25012fbffa2203547f1efec01fa96a1a9cfbab21f601d26c7b4int);
    let e = lemma_chain_square(p, g, e, 0xb808c7f083f25012fbffa2203547f1efec01fa96a1a9cfbab21f601d26c7b4int, 0x921360b3e05f4b7c27dcf196f232f97f1f645bdec12bd048620fb0ae4bfe2int, 0x94c81380b758ee12eaacf4c55f857fa06845ec41ad3dd1c436ae8b283ab5402int);
    let e = lemma_chain_square(p, g, e, 0x94c81380b758ee12eaacf4c55f857fa06845ec41ad3dd1c436ae8b283ab5402int, 0x5f78f9757cc9d9d0f9eaebff9562fb24c55a75ccbcd14196696afcacf68f258int, 0xc3bcd66b1e96e8b99b2f1e424090fac55db111c2f7d18fcca3512a3b1a8f31cint);
    let e = lemma_chain_square(p, g, e, 0xc3bcd66b1e96e8b99b2f1e424090fac55db111c2f7d18fcca3512a3b1a8f31cint, 0xa53ecc6bfe3ca269a4dab360b4bd25b26af20a55aefd94f53b4bdea33df4f2cint, 0xce66377449686921b684bfb6678e1dc00debfddd5f91feeb3c45f3311ed029cint);
    let e = lemma_chain_multiply(p, g, e, 0xce66377449686921b684bfb6678e1dc00debfddd5f91feeb3c45f3311ed029cint, 0xbd3ef9a34b52238c8007d06fedf740ec1d0502b638eac9a88a707748c61638aint, 0xc1e77108ffaf194f90f31a52e8ce29f12e28d71482f4615b1d4f6decb0f3436int);
    let e = lemma_chain_square(p, g, e, 0xc1e77108ffaf194f90f31a52e8ce29f12e28d71482f4615b1d4f6decb0f3436int, 0xa229f715523f8e865be8fbf5735d151f29977fdd6fa8c6f533b4cc275414916int, 0xd92f82021891531043783532345d1d0d808897e6fa8763e430c6909da84f4aaint);
    let e = lemma_chain_square(p, g, e, 0xd92f82021891531043783532345d1d0d808897e6fa8763e430c6909da84f4aaint, 0xcb715ccd8272b5e0c3b625e936431f1b4dd41cb2821ee2b2e9a9a543010f45bint, 0x562f1171f2cdfa3629fb2d1fa8e3c6333df05e6d4c5572944cc5337a5392fd7int);
    let e = lemma_chain_square(p, g, e, 0x562f1171f2cdfa3629fb2d1fa8e3c6333df05e6d4c5572944cc5337a5392fd7int, 0x20091a50c1a7936ed6410c340f3c3d728de3b4be8d5718965abc2a5e50aeabfint, 0xc4928da6093b57161d28322cb656f98c61c448f5d7f2decec9d52f8b93f0408int);
    let e = lemma_chain_square(p, g, e, 0xc4928da6093b57161d28322cb656f98c61c448f5d7f2decec9d52f8b93f0408int, 0xa6a869dc7f07ffbe9d54688d944b4f407964e086ccfa3bfc5fd8a4e22fe703bint, 0xafbd61f413dfc9436d787639463aaa4640bfbb03371d49cbb83e1fe31e6e213int);
    let e = lemma_chain_multiply(p, g, e, 0xafbd61f413dfc9436d787639463aaa4640bfbb03371d49cbb83e1fe31e6e213int, 0xa1226fc1fdcf25a4a834c37ce048252a1278055d2b94e758c02da26e762e127int, 0x7a7cd7d5b1391a387cbaecf104f27b640ddcb1f4701c819d25924f84e6e07c2int);
    let e = lemma_chain_square(p, g, e, 0x7a7cd7d5b1391a387cbaecf104f27b640ddcb1f4701c819d25924f84e6e07c2int, 0x40b58577a1f79c220a233a6af32d1e5a186138cb97ccdda19a9cb4e570ccfd6int, 0x937cb1747f9cb7a68abddc8f3599988b2f8415ad939864f5e5050410998d50aint);
    let e = lemma_chain_multiply(p, g, e, 0x937cb1747f9cb7a68abddc8f3599988b2f8415ad939864f5e5050410998d50aint, 0x873ad61dc8b7395522659f0219fa97d36aa0f148c8951ec5fb25e32d9238674int, 0x6a470480f8a1ff4e95a8567eff615c5d04a3b36c1089bf2ab526a6ce93377feint);
    let e = lemma_chain_square(p, g, e, 0x6a470480f8a1ff4e95a8567eff615c5d04a3b36c1089bf2ab526a6ce93377feint, 0x30b707a231c74bfea74a32616cecc58d552cf86340721c18578c28532a8198bint, 0x378936332126ac73f10fe05641783476ba51b65459804606c37fe9471c6f9a7int);
    let e = lemma_chain_square(p, g, e, 0x378936332126ac73f10fe05641783476ba51b65459804606c37fe9471c6f9a7int, 0xd4d68c108b97405a8671bb5bb1df82722ce5a2707019bb7a5373b863fd432bint, 0x3ab97072668c89b2a6ff4e10e3bd55211c95cb893389bfb12b9b2d9cdb6e334int);
    let e = lemma_chain_square(p, g, e, 0x3ab97072668c89b2a6ff4e10e3bd55211c95cb893389bfb12b9b2d9cdb6e334int, 0xedfa6a8a458e4fe7ff9dd8065b8d8cb7505869be7e9f2cbbf657f614e6a3ceint, 0x23310389e355618cde225eb7d9d0a8d8d2f336f3554dae2da325b164accc24eint);
    let e = lemma_chain_square(p, g, e, 0x23310389e355618cde225eb7d9d0a8d8d2f336f3554dae2da325b164accc24eint, 0x55765e52bc424bf5361ebc3497cccda80de8cd03d91764a401cee16a4b9171int, 0x2ac2019d9f28e74b135f8d2e7e965d99983da03a5b1a338e71aec1f94beebfdint);
    let e = lemma_chain_square(p, g, e, 0x2ac2019d9f28e74b135f8d2e7e965d99983da03a5b1a338e71aec1f94beebfdint, 0x7e29b757bd9ad8848512f35a503112ab5b95b736aefd5c79dd3b42a1ff21f0int, 0x2b392599aa160536c67601bd777cb8f830972efa23a6d316d04f463a74ff579int);
    let e = lemma_chain_square(p, g, e, 0x2b392599aa160536c67601bd777cb8f830972efa23a6d316d04f463a74ff579int, 0x80ec9fc8320564f3d4f9dfc44f398bca0bfe48b9c29a9561414b53a217a84aint, 0x9c49e1a240aa19ced0284c33b4ba40253f36134c2cab3476d8db3811ed2ce4bint);
    let e = lemma_chain_multiply(p, g, e, 0x9c49e1a240aa19ced0284c33b4ba40253f36134c2cab3476d8db3811ed2ce4bint, 0x8f4cc4a910334fe1aa7158508b06bf70358d11fd56952d160a55245826d0c2bint, 0x97777e33a794e96a28cd54fd60952c7792ab08a56835cba1a1326d6da58f69eint);
    let e = lemma_chain_square(p, g, e, 0x97777e33a794e96a28cd54fd60952c7792ab08a56835cba1a1326d6da58f69eint, 0x62f3294484df3767be962baa52c5fbf473339c88420017d4d1c2ae850227a93int, 0x9c0054e454ffffa86dfe994fd6bcf5cc0d035ad6a0a2de747ec118b36a8266fint);
    let e = lemma_chain_square(p, g, e, 0x9c0054e454ffffa86dfe994fd6bcf5cc0d035ad6a0a2de747ec118b36a8266fint, 0x68f690633de3f78e7403a7b294711835596370f23bf7580f3b3e088b8e4d684int, 0x508f7fce218b6bcf08049af8b6b6e57a3982e39ccb374b1ebc32b1a79a51bc5int);
    let e = lemma_chain_multiply(p, g, e, 0x508f7fce218b6bcf08049af8b6b6e57a3982e39ccb374b1ebc32b1a79a51bc5int, 0x49dd89321042025ab661a09da3cb3b81f0a60c0906e05a5a13f5ee526ec0694int, 0x6998afc7efd3b68ecb0b13870dcc26bf0c1e4bb0c650ed68d90f483074bcbe9int);
    let e = lemma_chain_square(p, g, e, 0x6998afc7efd3b68ecb0b13870dcc26bf0c1e4bb0c650ed68d90f483074bcbe9int, 0x3017b94968d1f9ec5e105d11ea73283024d2628fd2a1f1145b4e9ef24f4157bint, 0xdaac7726c492f5e8347dc52ad7f50233542d50f54c8c841f3197120f117db24int);
    let e = lemma_chain_square(p, g, e, 0xdaac7726c492f5e8347dc52ad7f50233542d50f54c8c841f3197120f117db24int, 0xce3d82eba0a0a2606ff5953552f13e90dbd2bf341d8e356a43a4b84253c147bint, 0x82022035ae7fbf82e4cc24d72dd39c668d6f5ab5d499969a58066b55de9d523int);
    let e = lemma_chain_square(p, g, e, 0x82022035ae7fbf82e4cc24d72dd39c668d6f5ab5d499969a58066b55de9d523int, 0x48e6301d3c613edf8ec6bc7a360eb7fe9d6ec6aa972810ef3c42011a528ed8eint, 0x8eab68186ac3a8712160f6aa66c5a12ffedeb69b30126387d5f7db918110a47int);
    let e = lemma_chain_multiply(p, g, e, 0x8eab68186ac3a8712160f6aa66c5a12ffedeb69b30126387d5f7db918110a47int, 0x82d00b81906eab7c6802e47f895261c8ad45ddb5cf81c472205c5ff1df5dab4int, 0x5fd92c1b539a605e0c8975d9ff0e3fbcd605fd25d9646eb79301a0d789bf5ebint);
    let e = lemma_chain_square(p, g, e, 0x5fd92c1b539a605e0c8975d9ff0e3fbcd605fd25d9646eb79301a0d789bf5ebint, 0x279f89c5202c43636bbec092bb1d0e09b73a21be904a9a2808c7ee70ac86626int, 0x4e1af2162cdbb7ddd185997c0f02e636ecf4594bbc912c9dafa5bb88d54188fint);
}

/// A power of a power of the root 6 modulo the prime `r`: the steps from the exponent
/// 0x67060a36f376635e923052
/// to the exponent
/// 0x3383051b79bb31af491829695.
proof fn lemma_power_r_8_part_3(p: int, g: int)
    requires
        p == r_prime(),
        g == 0xd49672ad5118f44dd944fc7f0247f8f33959f2ff57b645cfc75b04965a81331int,
        pow_mod(g, 0x67060a36f376635e923052nat, p) == 0x4e1af2162cdbb7ddd185997c0f02e636ecf4594bbc912c9dafa5bb88d54188fint,
    ensures
        pow_mod(g, 0x3383051b79bb31af491829695nat, p) == 0x7e1d6906f41bf2fb133fd7dbbf3e5fa7242494d4a86d10b59bfba8663cdb2c4int,
{
    let e: nat = 0x67060a36f376635e923052nat;
    let e = lemma_chain_square(p, g, e, 0x4e1af2162cdbb7ddd185997c0f02e636ecf4594bbc912c9dafa5bb88d54188fint, 0x1a4fabe7c992d9cafa17877eeaf9d5be6b0aa5731cde317736466f732d52075int, 0xb993aa74c7e808af248500ebd12f28e66d492f383c190812719118f61d03eint);
    let e = lemma_chain_multiply(p, g, e, 0xb993aa74c7e808af248500ebd12f28e66d492f383c190812719118f61d03eint, 0xaa276e9aed876820b82f05e312ab30685206be3172b4e820dfa8855379587int, 0x4ffc9185fa29b6174038f2de8b38756d288bd7611352f680fc94bbb3b2d5e5dint);
    let e = lemma_chain_square(p, g, e, 0x4ffc9185fa29b6174038f2de8b38756d288bd7611352f680fc94bbb3b2d5e5dint, 0x1b98111a2d1cca6be682371efc8eeac43af8c9e13c5b830427cca2dcfc3676eint, 0xda3b45d02b2c9f40406be51217da1e4f4a4b3330ce46bcc782b188f53e29627int);
    let e = lemma_chain_multiply(p, g, e, 0xda3b45d02b2c9f40406be51217da1e4f4a4b3330ce46bcc782b188f53e29627int, 0xc8184b68c065b52cd6cb8ea1a1dd12e60d9e06fd2e178920c5823db8019e202int, 0xc2481def20583b4497c9e91a8f604a678a2aa13918c41e421cfb9280ad4bb09int);
    let e = lemma_chain_square(p, g, e, 0xc2481def20583b4497c9e91a8f604a678a2aa13918c41e421cfb9280ad4bb09int, 0xa2cbd2e67ee30459ec679652ffd947db26186d3c5456dd6709654fa42a6503dint, 0x8ed679e4e586cd248f4167455bc5935a8c30b239ef26ca9ab21dfe860054eb6int);
    let e = lemma_chain_square(p, g, e, 0x8ed679e4e586cd248f4167455bc5935a8c30b239ef26ca9ab21dfe860054eb6int, 0x57ff2bdf4e8eb4350a6bd3975bf593ad6799a6667945a42b258d33331011b17int, 0x453a8be7f333c7a8d7bb96defe6825292917d8502355a1d01489d815ac17f3int);
    let e = lemma_chain_multiply(p, g, e, 0x453a8be7f333c7a8d7bb96defe6825292917d8502355a1d01489d815ac17f3int, 0x3f79ac6ccf2fe4a0ca55a466245b9c55ade67d089a07bb076510814450d3ffint, 0xd01f8ee425c9ed84efc9eafdfed35b79a47ce7b3cb8c775548525aa12ef3f3aint);
    let e = lemma_chain_square(p, g, e, 0xd01f8ee425c9ed84efc9eafdfed35b79a47ce7b3cb8c775548525aa12ef3f3aint, 0xbad1bcb25edbbea388433bd3c820530c7c3be41e77d7807bcdb1a9f21848f63int, 0x88a0462236eb29ec5a395d256ba1d0ccc37a3f3dc2c9b02106a8e26cfd155fint);
    let e = lemma_chain_square(p, g, e, 0x88a0462236eb29ec5a395d256ba1d0ccc37a3f3dc2c9b02106a8e26cfd155fint, 0x508273d6eeb77f916551709972e60f36b17811ad28994f8b5a75e3577659dint, 0xc20ad414c26fad95f65aac4c6d79b50d314c2a6675e8cab5f89cfa461431a06int);
    let e = lemma_chain_square(p, g, e, 0xc20ad414c26fad95f65aac4c6d79b50d314c2a6675e8cab5f89cfa461431a06int, 0xa2652cd3b591fb2cdd3fec7cc9e8c3a66b7977bc7d271115cfb50d093f6985fint, 0x16ba347a3209843583a8dec9330d113347eb2bd3bcbd762b60b4d4898a8f83bint);
    let e = lemma_chain_multiply(p, g, e, 0x16ba347a3209843583a8dec9330d113347eb2bd3bcbd762b60b4d4898a8f83bint, 0x14d6ab70a3dee6f424f9edc1148260511e0550765b99a2b77aa0d4a55a2d219int, 0x614b724e4f52329f3c35721036c965c709107d7065d7d81f366da1c20dc686cint);
    let e = lemma_chain_square(p, g, e, 0x614b724e4f52329f3c35721036c965c709107d7065d7d81f366da1c20dc686cint, 0x28d3fca3382e6348554f7549d3cf823fb37b9575517ce2ded23f6fd66702ec7int, 0xbf5299d59c44b7f481b0a1472744e2c910cf8e6366dc823f7ecd655a5fb494fint);
    let e = lemma_chain_square(p, g, e, 0xbf5299d59c44b7f481b0a1472744e2c910cf8e6366dc823f7ecd655a5fb494fint, 0x9ddffcc4d31f40faddb32a0382dee372f4504efdc47162ebe0183c8a82ea6b0int, 0x5982c155c83449adce5803999227a547ac2fd9e5c401fa1c5b8db4c7a18be91int);
    let e = lemma_chain_multiply(p, g, e, 0x5982c155c83449adce5803999227a547ac2fd9e5c401fa1c5b8db4c7a18be91int, 0x52125f2e53d3d54f586bae76236f73bb2f8a5b14322034eb2bc247b21bd6b76int, 0x112d2c277f2ce2a229b135650b4bd85e553e01299f9a635118e84bb794f2367int);
    let e = lemma_chain_square(p, g, e, 0x112d2c277f2ce2a229b135650b4bd85e553e01299f9a635118e84bb794f2367int, 0x145c09478dc610dd7646e3b3c318bb8c384cbac31189b401cf8c0a771fa0e0int, 0x19d3adaf2f5c5362952ce80a9a609917316cae9b29decc1d23a3e342d14d351int);
    let e = lemma_chain_square(p, g, e, 0x19d3adaf2f5c5362952ce80a9a609917316cae9b29decc1d23a3e342d14d351int, 0x2e07c2759a17ff4a5e42076ce1b8b4617f8fcceb293af78e60f5573c27c8beint, 0x9da1159e172f8e55b3309b79fc73579e91a428b95114647f2dea33bd2d377cfint);
    let e = lemma_chain_multiply(p, g, e, 0x9da1159e172f8e55b3309b79fc73579e91a428b95114647f2dea33bd2d377cfint, 0x908772d6945d7503f240ad2efd511bac7db035b49bbfd8b1879a5871ed1d8fdint, 0x7e1d6906f41bf2fb133fd7dbbf3e5fa7242494d4a86d10b59bfba8663cdb2c4int);
}

/// A power of a power of the root 6 modulo the prime `r`.
proof fn lemma_power_r_8()
    ensures
        pow_mod(0xd49672ad5118f44dd944fc7f0247f8f33959f2ff57b645cfc75b04965a81331int, 0x3383051b79bb31af491829695nat, r_prime()) == 0x7e1d6906f41bf2fb133fd7dbbf3e5fa7242494d4a86d10b59bfba8663cdb2c4int,
{
    let p = r_prime();
    let g = 0xd49672ad5118f44dd944fc7f0247f8f33959f2ff57b645cfc75b04965a81331int;
    lemma_chain_start(p, g);
    lemma_power_r_8_part_1(p, g);
    lemma_power_r_8_part_2(p, g);
    lemma_power_r_8_part_3(p, g);
}

/// A power of a power of the root 6 modulo the prime `r`.
proof fn lemma_power_r_9()
    ensures
        pow_mod(0xd49672ad5118f44dd944fc7f0247f8f33959f2ff57b645cfc75b04965a81331int, 3, r_prime()) == 0x4aee0e97feb6deb2a8dd1c5953e12f95437531039a65df55805192d2c047f02int,
{
    let p = r_prime();
    let g = 0xd49672ad5118f44dd944fc7f0247f8f33959f2ff57b645cfc75b04965a81331int;
    lemma_chain_start(p, g);
    let e: nat = 0;
    let e = lemma_chain_square(p, g, e, 1, 0, 1);
    let e = lemma_chain_multiply(p, g, e, 1, 0, 0xd49672ad5118f44dd944fc7f0247f8f33959f2ff57b645cfc75b04965a81331int);
    let e = lemma_chain_square(p, g, e, 0xd49672ad5118f44dd944fc7f0247f8f33959f2ff57b645cfc75b04965a81331int, 0xc2eb8b98babb6a2388250468df0d42f134163285d1aa4f765f0d2ca0443887cint, 0x73d3deea055dd37a3a0802fa7298998a1f5c0cdb4e8e36938238182dc606ebdint);
    let e = lemma_chain_multiply(p, g, e, 0x73d3deea055dd37a3a0802fa7298998a1f5c0cdb4e8e36938238182dc606ebdint, 0x6a33957858ea090552d683b57e1dd0e5c006003281847e82fcb8051b4af122dint, 0x4aee0e97feb6deb2a8dd1c5953e12f95437531039a65df55805192d2c047f02int);
}

/// A power of a power of the root 6 modulo the prime `r`: the steps from the exponent
/// 0
/// to the exponent
/// 0x9a890f526d2.
proof fn lemma_power_r_10_part_1(p: int, g: int)
    requires
        p == r_prime(),
        g == 0xc65e63fc84a29618963c191904505e1be6e55bc5b54b6511631b904f09cee3fint,
        pow_mod(g, 0, p) == 1,
    ensures
        pow_mod(g, 0x9a890f526d2, p) == 0x3bc3fe37ed26f5ffdc67a859fbf8849cd4b4cff83ede9c265c48ae954b1fb2dint,
{
    let e: nat = 0;
    let e = lemma_chain_square(p, g, e, 1, 0, 1);
    let e = lemma_chain_multiply(p, g, e, 1, 0, 0xc65e63fc84a29618963c191904505e1be6e55bc5b54b6511631b904f09cee3fint);
    let e = lemma_chain_square(p, g, e, 0xc65e63fc84a29618963c191904505e1be6e55bc5b54b6511631b904f09cee3fint, 0xa9b7b18517bf3972444f002787be92816acea5c9f70e7ca81dd6a7ac412090dint, 0xa01a7a3a7232621ccad984053c654c158f57258f52726a11dcb9dae7e837f36int);
    let e = lemma_chain_square(p, g, e, 0xa01a7a3a7232621ccad984053c654c158f57258f52726a11dcb9dae7e837f36int, 0x6e8e4b2be90e392d5c07d01ef61a820d8ebeef14464059db4c8a245b45ce777int, 0xbe8ca2cc07f12cd2e7418c496a01c6ec450fef52e92749d6ba5b485e477b553int);
    let e = lemma_chain_square(p, g, e, 0xbe8ca2cc07f12cd2e7418c496a01c6ec450fef52e92749d6ba5b485e477b553int, 0x9c99ef8052011cda9b1c5bf605f6425bc90a7ce28d5dc08c1d882aea41b6d0eint, 0x9fe77c04e569fe0cc7a276ca5653318e9d8495586d8134a550d1163f8bd1be7int);
    let e = lemma_chain_multiply(p, g, e, 0x9fe77c04e569fe0cc7a276ca5653318e9d8495586d8134a550d1163f8bd1be7int, 0x88cf039986f065c8dbc5d0b1051bf7b5fb210f6e5b89a736238bb1553cd8dc7int, 0x39a3d095f75905f71a20716baf7b4d011d1db8d9b81323b83e16d4b35ef1298int);
    let e = lemma_chain_square(p, g, e, 0x39a3d095f75905f71a20716baf7b4d011d1db8d9b81323b83e16d4b35ef1298int, 0xe5451192525ad7a2ae76b5d88e75dadde54d3a71f04a38bf0a502556f63a4aint, 0xed8d5377323475523305d0005af7e7a9be448d2564c15fb2594ceb13bb575aint);
    let e = lemma_chain_multiply(p, g, e, 0xed8d5377323475523305d0005af7e7a9be448d2564c15fb2594ceb13bb575aint, 0xcb3dd2743e6fc1330da57646566aaeb0373cddcb24e8dbe99f224369bd4b5cint, 0x3cd64078f9663f4ecd6c60109100f0b2ef9efb9821863fc2b8a7edfe41f7c62int);
    let e = lemma_chain_square(p, g, e, 0x3cd64078f9663f4ecd6c60109100f0b2ef9efb9821863fc2b8a7edfe41f7c62int, 0xff6880303afe801d5425719a2c216a8255caf15b7f8679f29cef8527db9b2cint, 0xab560d0923b135ac5e030d8fe61ee61ea17b1c297a467e8202be5f300f9910int);
    let e = lemma_chain_square(p, g, e, 0xab560d0923b135ac5e030d8fe61ee61ea17b1c297a467e8202be5f300f9910int, 0x7e9cee7ae1d524ac668ad2834c85071145df4bb2e00096277c1501ddbb5d6int, 0xa758bf6705387b4b861c5c67c1583a363baf7b527bc7d58ee1d4d40da9a5d06int);
    let e = lemma_chain_multiply(p, g, e, 0xa758bf6705387b4b861c5c67c1583a363baf7b527bc7d58ee1d4d40da9a5d06int, 0x8f2d17bdd0f30bf340ae0b4e34242220b47c015a745f5fc212597bddd8563b3int, 0xbdf95dc22e70df32f68eb41c238aa95e6f10ebf899e6f80d8f147fe82ee6f85int);
    let e = lemma_chain_square(p, g, e, 0xbdf95dc22e70df32f68eb41c238aa95e6f10ebf899e6f80d8f147fe82ee6f85int, 0x9ba83c82de45d13461db4ac43f1eb784baebbc785cbd8e2e36f5b610349a8daint, 0x73b3c891e73245ac13f08da73cd87b9b9c1e40efda05185cddb6f1476dd6f43int);
    let e = lemma_chain_square(p, g, e, 0x73b3c891e73245ac13f08da73cd87b9b9c1e40efda05185cddb6f1476dd6f43int, 0x39bd035a009a22e0fd98031030dd3a21ba99b1383a19bdb34c09e147b202cc6int, 0x4773739827426946574745a17245bfdb6af53b09498b978c44ee298cb4d21ffint);
    let e = lemma_chain_multiply(p, g, e, 0x4773739827426946574745a17245bfdb6af53b09498b978c44ee298cb4d21ffint, 0x3d218be2cb2e404727a87bfc37cb06cfc28c46e0cb57f7ba15d06d41b562b18int, 0x156abd7939c7bc8e448da7ea3fd59a20919f55ff1b6956c6908f12b86d18199int);
    let e = lemma_chain_square(p, g, e, 0x156abd7939c7bc8e448da7ea3fd59a20919f55ff1b6956c6908f12b86d18199int, 0x1fa72f55e57bdbad11f4d0ca85197106fbc75a851547c816398cce0b6d0885int, 0x605adeb20cbe07a3b8ca96cb9b0c95003148c6c4d0d8699844ef71dbab29a5eint);
    let e = lemma_chain_square(p, g, e, 0x605adeb20cbe07a3b8ca96cb9b0c95003148c6c4d0d8699844ef71dbab29a5eint, 0x280b0ddf720b70a93528a4acd494a3c3ac82ad8b32491df97736c1190033e96int, 0xe58183cad55ad3f1410f50e8e4c46f485eb8ad7d7de8f479547446257ffb54aint);
    let e = lemma_chain_square(p, g, e, 0xe58183cad55ad3f1410f50e8e4c46f485eb8ad7d7de8f479547446257ffb54aint, 0xe32dd2e8b4b60f784e9d41daa8fb241fe6431c6019bf3826d69aec482f31511int, 0xbca0a99889485843c2b02ed34a5f5e0f99b841d5a9f45e5264afdec0903be3dint);
    let e = lemma_chain_square(p, g, e, 0xbca0a99889485843c2b02ed34a5f5e0f99b841d5a9f45e5264afdec0903be3dint, 0x99755d81ae4044a6358ada70dff8c1c8a6ed868f24db3d00208ef9471f6e896int, 0x74f99956c884bdb795534fc19aac48d542b557a8f85cfc17595d87698988f4fint);
    let e = lemma_chain_multiply(p, g, e, 0x74f99956c884bdb795534fc19aac48d542b557a8f85cfc17595d87698988f4fint, 0x641470b560b4ac16114d57b6f4616aeb6d1de12a94f9cdd49ba08d45cc12e12int, 0x41342339fd2c2ec4599f64bb1fe147db6f1d407bb652b830c822d58c589af93int);
    let e = lemma_chain_square(p, g, e, 0x41342339fd2c2ec4599f64bb1fe147db6f1d407bb652b830c822d58c589af93int, 0x12563ada96e6af93da15aece6602a45d42b375e87a06c576d0ec61f4e4b1008int, 0x694c75083ade2869e8fd215a6d19d4950b8590d7d129db845aef6bc9b9e78b1int);
    let e = lemma_chain_square(p, g, e, 0x694c75083ade2869e8fd215a6d19d4950b8590d7d129db845aef6bc9b9e78b1int, 0x2fd262d12ad93d0e390a9ffda33383c04d419bf8d4eaad8437b5816702136bdint, 0x78ece74dccae6381d293fc6a4ef178c49bc81daa6c0c4b4f38d81b3dde0cd46int);
    let e = lemma_chain_square(p, g, e, 0x78ece74dccae6381d293fc6a4ef178c49bc81daa6c0c4b4f38d81b3dde0cd46int, 0x3f11a5cbf320aac4ad4169c38309b82270c53aac3ef6b46c0025f2b8d500f9bint, 0x26c61f84403d2ceb76ce0a50e632dbfbf79e6360bdc60004cc8851653a26357int);
    let e = lemma_chain_multiply(p, g, e, 0x26c61f84403d2ceb76ce0a50e632dbfbf79e6360bdc60004cc8851653a26357int, 0x212c746a6e2e218898aac1c718c302196d9367b33c2d61c749849af91785f21int, 0xbea7a23812f90e282742a9eaaaa2f0bad4e0970636bc2f831ac92689a18a7d2int);
    let e = lemma_chain_square(p, g, e, 0xbea7a23812f90e282742a9eaaaa2f0bad4e0970636bc2f831ac92689a18a7d2int, 0x9cc652d3d3c7107223e12c2b452799723162499d4366daaed4dd43cfb059c1cint, 0x164b49a4fafb64ff58d6f9e7b7978df56be3985c650b5c9837e9efb1e884040int);
    let e = lemma_chain_square(p, g, e, 0x164b49a4fafb64ff58d6f9e7b7978df56be3985c650b5c9837e9efb1e884040int, 0x224c83a6796d638b0663d7eb950d681e35c8dc21317b948e0aae64317b0e25int, 0x90bca8dd2494c0fac4bd3476679abe5d3fda1d7a442cd581fb47fcf3b07978dint);
    let e = lemma_chain_square(p, g, e, 0x90bca8dd2494c0fac4bd3476679abe5d3fda1d7a442cd581fb47fcf3b07978dint, 0x5a5a30dcd238c0f8e1bba5351d3825dc72f2cbb695ffa280644b6c9cbe56feeint, 0xa81cddc8306d3d7d5cd4b383f2a53860272cdf240566278291a7f7a7e8bb887int);
    let e = lemma_chain_square(p, g, e, 0xa81cddc8306d3d7d5cd4b383f2a53860272cdf240566278291a7f7a7e8bb887int, 0x79e4d2b8e34f42de5d8d42c05774ca48a66a6736a2fbe409c26e69b267accd0int, 0x50039a1e356edd9e0fd041e3405f67c32db247642d4a7590df2c8fbb1f02e81int);
    let e = lemma_chain_square(p, g, e, 0x50039a1e356edd9e0fd041e3405f67c32db247642d4a7590df2c8fbb1f02e81int, 0x1b9cebaa1c9f11962a3c9e87ead530727a0f4f05c0cbf6e90a9abeef91d3971int, 0x28eec0c373545e6a9f6bd7e5b92a8820ab6badc6fa75001b908b941a088213aint);
    let e = lemma_chain_multiply(p, g, e, 0x28eec0c373545e6a9f6bd7e5b92a8820ab6badc6fa75001b908b941a088213aint, 0x230544225df52dbae78f6d3df553ff0f4e9c56ce4a350b741ad1ae9c6fc20b7int, 0x915280664fba03765e442812b52ff08104626fe9c3081fc5c884a4891504275int);
    let e = lemma_chain_square(p, g, e, 0x915280664fba03765e442812b52ff08104626fe9c3081fc5c884a4891504275int, 0x5b15a5b8ebf6b04b4ca9c2a5be2e9dd89704458d9dbda2224d8729548ce1e4eint, 0x6d4fdd928048ce8008419690a192a2cbecb1274321da9ff05b2882f3a9177b7int);
    let e = lemma_chain_multiply(p, g, e, 0x6d4fdd928048ce8008419690a192a2cbecb1274321da9ff05b2882f3a9177b7int, 0x5d860c2cb9cc426eadbf0a90356994d2b5b72919a8a9e8a152527ea654ed1e9int, 0x254090231ec884676b78e7479ecab07f511b2bd95bbc416bbed54c3e5617e7aint);
    let e = lemma_chain_square(p, g, e, 0x254090231ec884676b78e7479ecab07f511b2bd95bbc416bbed54c3e5617e7aint, 0x5fc3b1adb9199fa4bf62a438b906dcf5eb218a6dd5fa05793d05c7d08be43cint, 0x42917bccf88ad37415246bea460be897bb6eed445c8d00947f897c9ddd1db40int);
    let e = lemma_chain_multiply(p, g, e, 0x42917bccf88ad37415246bea460be897bb6eed445c8d00947f897c9ddd1db40int, 0x38f41dbeb5cdfbf9821fd8cd2fd324d85bd3d315feb00650c9bc38e40e9ee8fint, 0x85c7eacb4dabd2a380ac11492e27a5bf5231dfdc9734e523f77c5d8f9475887int);
    let e = lemma_chain_square(p, g, e, 0x85c7eacb4dabd2a380ac11492e27a5bf5231dfdc9734e523f77c5d8f9475887int, 0x4d30fe4acde466c047a507765bdaf1225ec491fd1699cc168619ba070b20df3int, 0x4cb616aa3826c6d60dbe2fe1e65e4aac4c83c938a4490a3b5e2382b165c5a7cint);
    let e = lemma_chain_multiply(p, g, e, 0x4cb616aa3826c6d60dbe2fe1e65e4aac4c83c938a4490a3b5e2382b165c5a7cint, 0x41a1aef5749af54cb155104b5fbb93eedfad62c8a68524e43b5396256a5186aint, 0x5cbc355196935f11825af546ba78ffeae40a0b8940ee71d4579d1a045ece0beint);
    let e = lemma_chain_square(p, g, e, 0x5cbc355196935f11825af546ba78ffeae40a0b8940ee71d4579d1a045ece0beint, 0x251751496d0dd674fc88291428fca345a14e9bec2c8b9ba4dadd341bcad7a82int, 0x406814031686d92bea56858cb0b34e0efca0fca2606e7764af93de3ff1e2216int);
    let e = lemma_chain_square(p, g, e, 0x406814031686d92bea56858cb0b34e0efca0fca2606e7764af93de3ff1e2216int, 0x11e4289b136fd3e2d96f7f953eaa9f6209bfa167420d38b9be62b7e3cb34c88int, 0x93d269fa78ed8befd4233b02359cad418e235d13eb2838995ed33e31926c4acint);
    let e = lemma_chain_multiply(p, g, e, 0x93d269fa78ed8befd4233b02359cad418e235d13eb2838995ed33e31926c4acint, 0x7e78b00eb432918db14a8b185892a4846e3fbba72698df55db61974cd806199int, 0x23ac682039a1a68df67d85d66e4853a63d1b5101718ed92ee7ade834c073df5int);
    let e = lemma_chain_square(p, g, e, 0x23ac682039a1a68df67d85d66e4853a63d1b5101718ed92ee7ade834c073df5int, 0x57d1caa52144c435d2ed547e2e58e04d49f20e2b7673a401ac3937a42cb987int, 0x7ac37ad2aa28421084e73ffd482e4656bb5bb97f548e625b1e4deee0347d8f8int);
    let e = lemma_chain_square(p, g, e, 0x7ac37ad2aa28421084e73ffd482e4656bb5bb97f548e625b1e4deee0347d8f8int, 0x41003d20bb6ee23f51ec426391dce0e3a6aefec718aadacb23849124e9cb695int, 0x6496c08815ceeda3dd4d33e97d3dc8d8db054e83e70cebb0d19e43c08484fbdint);
    let e = lemma_chain_multiply(p, g, e, 0x6496c08815ceeda3dd4d33e97d3dc8d8db054e83e70cebb0d19e43c08484fbdint, 0x560f78a922baba25aebcc132e5635c6ba05fe7e5a29135c8bf5e439ba4a0426int, 0x583bd874189842d4e4755c605222a4d6279bed10da7946d00975d2062cfd659int);
    let e = lemma_chain_square(p, g, e, 0x583bd874189842d4e4755c605222a4d6279bed10da7946d00975d2062cfd659int, 0x2193dfd8098d16e192fd3fbbb03ab79306e627aa78aa3b3f2327088c0bb7cf0int, 0x8962c55d65111a366babd6a9ec1bd8c64aaffa68d407e224f2266c050575b61int);
    let e = lemma_chain_square(p, g, e, 0x8962c55d65111a366babd6a9ec1bd8c64aaffa68d407e224f2266c050575b61int, 0x51684fe8519ce2ff0145fc363b8771af30a417b4fcca06319d58c90c8eb1a3cint, 0xc86ca18de7191a24bf6089a73ce16f636d794e378dc916cae3769975c1609ddint);
    let e = lemma_chain_square(p, g, e, 0xc86ca18de7191a24bf6089a73ce16f636d794e378dc916cae3769975c1609ddint, 0xad40d37e8c6ce077e8cfe94deaef380d09744d24f0efd41dff9721e45e0567bint, 0x6f5519a3fc74d8d2635b74e6c545d5d79381dadb67713bb3bf88f23c57552dcint);
    let e = lemma_chain_multiply(p, g, e, 0x6f5519a3fc74d8d2635b74e6c545d5d79381dadb67713bb3bf88f23c57552dcint, 0x5f409374a9db640550eca753e19c6a574a6c0557d7997a630361e1333317cb3int, 0x97b1e53bcd5af06609bd16b35a574faac523e407c7d593be93bf0c05c74042fint);
    let e = lemma_chain_square(p, g, e, 0x97b1e53bcd5af06609bd16b35a574faac523e407c7d593be93bf0c05c74042fint, 0x633f8653c457d0bf35204542fb34908a741e78bca61a13c1f444845b3482527int, 0x1ec8ee26a4ceeba9cc31d48541c2b567a28c3a381c6cb0e5d0b497591133dc0int);
    let e = lemma_chain_square(p, g, e, 0x1ec8ee26a4ceeba9cc31d48541c2b567a28c3a381c6cb0e5d0b497591133dc0int, 0x41664f87061f05c2c07f4143e28128b1a74deec5b47e5376d853b04fd97179int, 0x8eb6b247e711b9f0ec1f1dac5b0db0700ecf8d7ea157b78fc36860da3b52681int);
    let e = lemma_chain_square(p, g, e, 0x8eb6b247e711b9f0ec1f1dac5b0db0700ecf8d7ea157b78fc36860da3b52681int, 0x57d80829f6cf010b6ecd20ee080062928fcb038b70a1e8560862d3dd08fde19int, 0x131fab02d2e1c2a826791f0177e1d733887dd2d241c1f2bd6bc3a2bd117d22int);
    let e = lemma_chain_multiply(p, g, e, 0x131fab02d2e1c2a826791f0177e1d733887dd2d241c1f2bd6bc3a2bd117d22int, 0x105c9157755f29407b16ac0232f30420e239f7efca1eca823dc292c600a4abint, 0x568ff3774eed08f3b5fe908f85fd25b05f3de706f15c6d51a33dd4f709b4d21int);
    let e = lemma_chain_square(p, g, e, 0x568ff3774eed08f3b5fe908f85fd25b05f3de706f15c6d51a33dd4f709b4d21int, 0x20514934d4f12b41bdd28b50b181bfa41fd39f4530273e3cb96cec94278b10fint, 0x897007e1eb77f71f7ed09a2a8c1f4e112f52cd1dfe083226bc190cebb04b888int);
    let e = lemma_chain_multiply(p, g, e, 0x897007e1eb77f71f7ed09a2a8c1f4e112f52cd1dfe083226bc190cebb04b888int, 0x759643ddf558c383a8767d8d5ff0a96c2c0372532e60004a57e3bba5b0c1054int, 0x35000c2077621b190fde4d289f90df1b98883d1a84128997cbd23bf3b1dbd6cint);
    let e = lemma_chain_square(p, g, e, 0x35000c2077621b190fde4d289f90df1b98883d1a84128997cbd23bf3b1dbd6cint, 0xc1d862460575dfcff9ef90557e96ad0b941627904cd7c0d375d241a78e4ca2int, 0x8e937d6a61fd1d76ff0e93e36c8d16c19fc6322d724f1296c85b459a66e05c2int);
    let e = lemma_chain_square(p, g, e, 0x8e937d6a61fd1d76ff0e93e36c8d16c19fc6322d724f1296c85b459a66e05c2int, 0x57acb637377cf486f6f3602025c265488d68ec5b7fd2ee8ed83b9b9f3b27763int, 0x7364a3e61e8fc2552e93ae2d69402e665cc1293574c4aed5db4647cb73bcb3fint);
    let e = lemma_chain_multiply(p, g, e, 0x7364a3e61e8fc2552e93ae2d69402e665cc1293574c4aed5db4647cb73bcb3fint, 0x62b9f8a58f48baee519ca4661e40ad744c1ac6bbb154702268d34f57a3d8935int, 0xcea85610fac005620deba193fed458d720e8631554303aef10761fcf35a659eint);
    let e = lemma_chain_square(p, g, e, 0xcea85610fac005620deba193fed458d720e8631554303aef10761fcf35a659eint, 0xb8327b7ce74241d2a1f356d5d461add30e44abb7a9b3368dd312d044cb5744dint, 0x9ff6c974e521dee4c5e0373c1413b7da776f8ebc0af66f2b3610011f56fae79int);
    let e = lemma_chain_multiply(p, g, e, 0x9ff6c974e521dee4c5e0373c1413b7da776f8ebc0af66f2b3610011f56fae79int, 0x88dc1b39ffb21fea91e6477540c4c968cc7ef60f9003e930e89230cbc1b9f1bint, 0x3859a152e89cda70301e523e4e80d981d96bb544275e27ebf9b6b1cb0480d7aint);
    let e = lemma_chain_square(p, g, e, 0x3859a152e89cda70301e523e4e80d981d96bb544275e27ebf9b6b1cb0480d7aint, 0xdb1fc1cdb1be6cae26aefafe41b85af3ea7f7e11bb99ebd437e48f158cfa18int, 0x974e96d994f533901743858a2735f376e28339cc67019b98d3e529d556ab6fcint);
    let e = lemma_chain_square(p, g, e, 0x974e96d994f533901743858a2735f376e28339cc67019b98d3e529d556ab6fcint, 0x62bdbf15a110d34a3f754b2a1a559858c9fdde5fb382fe0c300ddcbedf3e1b0int, 0xdb0aa1dc3c7bc6306c30f39ebb36a745313c23684a658f89f8f5dd27e8ab340int);
    let e = lemma_chain_multiply(p, g, e, 0xdb0aa1dc3c7bc6306c30f39ebb36a745313c23684a658f89f8f5dd27e8ab340int, 0xbb678e62719d1d81c176f5d88d7b413a070586fe93ba32f3053c5bcb74b3034int, 0xd03915591a80a49d19b6bded55aa3888316519feb0855628045f1ac64933794int);
    let e = lemma_chain_square(p, g, e, 0xd03915591a80a49d19b6bded55aa3888316519feb0855628045f1ac64933794int, 0xbaff92a7e0a55e14ec900d56a270cd7e5009b9fa6bd132a9fc2024e03fb529cint, 0x33fea94d356b5b9be6afce53605be2b126393181b1e9837c642d4ad58aa100cint);
    let e = lemma_chain_square(p, g, e, 0x33fea94d356b5b9be6afce53605be2b126393181b1e9837c642d4ad58aa100cint, 0xba8f7dc9affc8d1d0d193a5c77cb1913a2382d710d1e1f4a5744c35e33c590int, 0x62bc89b0c67ed197822e366378630cb42382962038e03ffb41f9a66560a86a0int);
    let e = lemma_chain_square(p, g, e, 0x62bc89b0c67ed197822e366378630cb42382962038e03ffb41f9a66560a86a0int, 0x2a0c0c3e81a4f0c7ca9ba46d6b0495fc97a130ea5f5cb99f12044b823ac1cc8int, 0xd89fd2f780fa276ddf3cfb4f3549951f3e328573b13f1f1cfec48104158f108int);
    let e = lemma_chain_multiply(p, g, e, 0xd89fd2f780fa276ddf3cfb4f3549951f3e328573b13f1f1cfec48104158f108int, 0xb9561ff78cee2084ca9aa4a86567e44922d260217958ac98737970e08f8e197int, 0x4df0c67e01ae79e37c75ad8639a366f094e6cb6fd20679c2e2685012788a07int);
    let e = lemma_chain_square(p, g, e, 0x4df0c67e01ae79e37c75ad8639a366f094e6cb6fd20679c2e2685012788a07int, 0x1a334a2df4592db326022f3e2e81d418993564ae329d0b10d80d99c21bb1cint, 0x3bc3fe37ed26f5ffdc67a859fbf8849cd4b4cff83ede9c265c48ae954b1fb2dint);
}

/// A power of a power of the root 6 modulo the prime `r`: the steps from the exponent
/// 0x9a890f526d2
/// to the exponent
/// 0x26a243d49b4c654376d21f.
proof fn lemma_power_r_10_part_2(p: int, g: int)
    requires
        p == r_prime(),
        g == 0xc65e63fc84a29618963c191904505e1be6e55bc5b54b6511631b904f09cee3fint,
        pow_mod(g, 0x9a890f526d2, p) == 0x3bc3fe37ed26f5ffdc67a859fbf8849cd4b4cff83ede9c265c48ae954b1fb2dint,
    ensures
        pow_mod(g, 0x26a243d49b4c654376d21fnat, p) == 0x2398f7271c6b7dc71ec4c780f1443fdd45c4898bf7e9c0e534c59b9b3ca0d4int,
{
    let e: nat = 0x9a890f526d2;
    let e = lemma_chain_multiply(p, g, e, 0x3bc3fe37ed26f5ffdc67a859fbf8849cd4b4cff83ede9c265c48ae954b1fb2dint, 0x332227e60dc6ec4ad24be4b07ba2501a1c35508fc950c9971b1dd238ac75629int, 0x66553a44b5b2902ccf979c595587b1b9a671f970c37407323766c21afe002c4int);
    let e = lemma_chain_square(p, g, e, 0x66553a44b5b2902ccf979c595587b1b9a671f970c37407323766c21afe002c4int, 0x2d2a7baa05e55686b8e4f51cbcdf6e81bd67c4fcf826c6ccb23cfd103eddb88int, 0x5182fc60e7dc082b172104e9b0f2289b5ea1fd0a547e088ecc4f74b9e0c57d8int);
    let e = lemma_chain_square(p, g, e, 0x5182fc60e7dc082b172104e9b0f2289b5ea1fd0a547e088ecc4f74b9e0c57d8int, 0x1ca8026fa0174e74dfcf617e4ae09b61cd82553290908575303093f4dd307eeint, 0xd66ac247dc7e341eb02ade6113609be3e45288caf67610db1de9b54788af31eint);
    let e = lemma_chain_square(p, g, e, 0xd66ac247dc7e341eb02ade6113609be3e45288caf67610db1de9b54788af31eint, 0xc64a05a47527ccf59d1282a82865741742d6841862831234fab788da94da1efint, 0x3247764163e9418a04d7204e653e9894bf171af662681e8748a21a2bd4d21abint);
    let e = lemma_chain_square(p, g, e, 0x3247764163e9418a04d7204e653e9894bf171af662681e8748a21a2bd4d21abint, 0xae73bd2297a0245497e78af687aa6517d9266c60606e80d41eedbaf3edb4dfint, 0x3cb8576c8309b34211bade67e735b3808296872a652bd593dabef609c1fe8d0int);
    let e = lemma_chain_multiply(p, g, e, 0x3cb8576c8309b34211bade67e735b3808296872a652bd593dabef609c1fe8d0int, 0x33f3364d7725567100370d41fb258341343759ea68e90a4b367ef89e22fac90int, 0x733d05dcb74c659f50462ff25a25ebebd689d708f85173477307950345e9040int);
    let e = lemma_chain_square(p, g, e, 0x733d05dcb74c659f50462ff25a25ebebd689d708f85173477307950345e9040int, 0x3946b8c23f3ae723b345087fdc31cce412b4e97d0ee462f9dc8ec98d4fb88f8int, 0x964dfcac0b1e777501f533c1af76e81680aa783f0e6bb0c2540316c4da686b8int);
    let e = lemma_chain_multiply(p, g, e, 0x964dfcac0b1e777501f533c1af76e81680aa783f0e6bb0c2540316c4da686b8int, 0x80987664d2b57ebcfd9fcd4e999cb3ec8139078491a6d5389dcb338a53c9b79int, 0x9c16eaa65ac70be0ecbefb70d838da586086be657e7b606e43cb6bad48f47c9int);
    let e = lemma_chain_square(p, g, e, 0x9c16eaa65ac70be0ecbefb70d838da586086be657e7b606e43cb6bad48f47c9int, 0x6914f6ed2de57d35c4e816cfbf46ca75fadb7a2733b71969a87140c9ff2c147int, 0xe6781326d39847342c4603c0f69dcbca905479d8cbbe210b2811fca496dbe10int);
    let e = lemma_chain_square(p, g, e, 0xe6781326d39847342c4603c0f69dcbca905479d8cbbe210b2811fca496dbe10int, 0xe516f7e99ec859b1a839cf1f0deb71f4917099bd315122979676f2eaf1304d5int, 0x949e1a40a858cb4a787a326c2991182fdf8090a6ab3a9413d13d8a063cbb0bdint);
    let e = lemma_chain_square(p, g, e, 0x949e1a40a858cb4a787a326c2991182fdf8090a6ab3a9413d13d8a063cbb0bdint, 0x5f4322af45f9924db898a2bd9b8f0941d3793f9287ef2cd7f76b6c5d92e4fe4int, 0x3f9e5846da91c73207d2d8103cfecbb46809caca314a2aa053d501210f01f8dint);
    let e = lemma_chain_multiply(p, g, e, 0x3f9e5846da91c73207d2d8103cfecbb46809caca314a2aa053d501210f01f8dint, 0x366e0b87b2d98f566ff6e8abcbb941f7ccc2167d89a6233938292d663ced115int, 0x6e4903323367751b919b43d99f23e9a45bf5b599de59a48d75567daa44ec7b0int);
    let e = lemma_chain_square(p, g, e, 0x6e4903323367751b919b43d99f23e9a45bf5b599de59a48d75567daa44ec7b0int, 0x347558bb8892106d8355682b5b063723454898b21ca54636bf6a2275acf2734int, 0xb363d9a83f555bc92347eb50b6f0515b7e34a975fbcb3ace8410c5dfb0522d4int);
    let e = lemma_chain_square(p, g, e, 0xb363d9a83f555bc92347eb50b6f0515b7e34a975fbcb3ace8410c5dfb0522d4int, 0x8acbc8faa0860d573f843c7b8ecd8cc2cb5d8fe4a03938bcaa00893e246b7d6int, 0xaec21ecbc35d69ac303ac8802e3b76bf3c285d3063452e23fd50f56ed64cd96int);
    let e = lemma_chain_multiply(p, g, e, 0xaec21ecbc35d69ac303ac8802e3b76bf3c285d3063452e23fd50f56ed64cd96int, 0x95846ba5fce22d5bea9352173f5f8d6fcd86a41bcf3a46f7163657f283132feint, 0xba13ec51075380bf730e90a55e113f6c981f769f9515d59299e6f6f5356f058int);
    let e = lemma_chain_square(p, g, e, 0xba13ec51075380bf730e90a55e113f6c981f769f9515d59299e6f6f5356f058int, 0x955677cbb7541e0f501272430cc8b6575ff2f7009b06382443383b2197f3fe2int, 0x5d233e3d00207620119e02cb9827d359c4f5b3f7f6e0504736faed3c4c59bb2int);
    let e = lemma_chain_square(p, g, e, 0x5d233e3d00207620119e02cb9827d359c4f5b3f7f6e0504736faed3c4c59bb2int, 0x2569eae892de212d59d2284f3a10ed41b5e1baca8226bb4e1be92a61ce9ab61int, 0x3966ff2e22ddbc78520aa84ed8cac2230d68a2221146c00bebbf651498fd96dint);
    let e = lemma_chain_multiply(p, g, e, 0x3966ff2e22ddbc78520aa84ed8cac2230d68a2221146c00bebbf651498fd96dint, 0x311c8aa39b32c6985077483407bab8a43b4418ecfe0780c02ffb6ee9a3e3d89int, 0x3b80e0a010c5a4845a0e4012ac8f698881d8379dabeec08609253b8aab54ee4int);
    let e = lemma_chain_square(p, g, e, 0x3b80e0a010c5a4845a0e4012ac8f698881d8379dabeec08609253b8aab54ee4int, 0xf45591a7c4a7977c08af855e4ad57644c86d0cbc2f2aaa81ba6b9fe2b26f8eint, 0x4825191c95fe05f5eeef02bb9f4e79e0d4a05cf58e7fa01f1c6851f67fb948eint);
    let e = lemma_chain_square(p, g, e, 0x4825191c95fe05f5eeef02bb9f4e79e0d4a05cf58e7fa01f1c6851f67fb948eint, 0x1672e03aab8d2df8e123cedf5c35d9235020c88899a4ad79ca2959e460f361bint, 0x3dc40abb37dafc892bde6366b3e4bb28a610f955379a449ec7f1f2a706f2d77int);
    let e = lemma_chain_square(p, g, e, 0x3dc40abb37dafc892bde6366b3e4bb28a610f955379a449ec7f1f2a706f2d77int, 0x10744581bf886e8fe249821d82e6c9483a9c2927c26a9763b0f24fccb098583int, 0x1fc8475971129e976167090b96689bece17fd310af64086700f459c7b1f18acint);
    let e = lemma_chain_square(p, g, e, 0x1fc8475971129e976167090b96689bece17fd310af64086700f459c7b1f18acint, 0x45b4d0bd14119f717f33a06e683e266b78ec992d5bb7ac8d61eef7d72ebce9int, 0x6187612c1bf31d67b0d0c08415a5dbd80b66a3cc10544437c8e77645e589d01int);
    let e = lemma_chain_square(p, g, e, 0x6187612c1bf31d67b0d0c08415a5dbd80b66a3cc10544437c8e77645e589d01int, 0x290658e058cdcd8cdbbccf9214e0fa6daf6577d1f6af3c04041481eeb867414int, 0x89050b911cfc3091a4fefa65157c57add1747cfd0074c3b3bc78f10dc9dcfb5int);
    let e = lemma_chain_multiply(p, g, e, 0x89050b911cfc3091a4fefa65157c57add1747cfd0074c3b3bc78f10dc9dcfb5int, 0x753abb5a0d17fdcddb700251dab9b3096c81ac891172576c241832b0c9ba800int, 0x3882c27b79b7abe2b44a7f0f18d2cad49ddc540ae1fd4f420a32e6968174b8bint);
    let e = lemma_chain_square(p, g, e, 0x3882c27b79b7abe2b44a7f0f18d2cad49ddc540ae1fd4f420a32e6968174b8bint, 0xdc6016475a83f3c8fb5c0e84e87e0e06bc926671d343d760a2398e5f2f90b9int, 0x9c9384790d29622c5245efc94c4d0a22a9e06a7c9d3860d234b629618e57d3aint);
    let e = lemma_chain_multiply(p, g, e, 0x9c9384790d29622c5245efc94c4d0a22a9e06a7c9d3860d234b629618e57d3aint, 0x85f61997a90735eb2f7a43acbc3ac8f1be9a4b672a4159d5ab863f4819b4cb8int, 0xd6a3dc0fa3d6dbf0c264c5dafa20c0c4e7bc31a36f66900893369a3fd8245beint);
    let e = lemma_chain_square(p, g, e, 0xd6a3dc0fa3d6dbf0c264c5dafa20c0c4e7bc31a36f66900893369a3fd8245beint, 0xc6b3b03e9e0d72749920834691e0b8940453456e0cb292cbcc8cf0dfdb7429eint, 0x1fa12698ac7b37b122fcef915e6effabcfef72e0f3c0cd407fee9f73c123212int);
    let e = lemma_chain_square(p, g, e, 0x1fa12698ac7b37b122fcef915e6effabcfef72e0f3c0cd407fee9f73c123212int, 0x450998183354e971812122c8f0415673b4fc4da91a38aa3d99b2d109f353f6int, 0x703998ca2255561ae7ef6846873e5e8eb59037ecf276ec05a6ae011ee99bc6aint);
    let e = lemma_chain_multiply(p, g, e, 0x703998ca2255561ae7ef6846873e5e8eb59037ecf276ec05a6ae011ee99bc6aint, 0x600411ec8efb3b6d5a06ee5ace80c5a9354727418f0da13087a59409469f7b4int, 0x8c5a4477be85effc62b6156b5b03006d6f325946c0d18bc214768241098e86aint);
    let e = lemma_chain_square(p, g, e, 0x8c5a4477be85effc62b6156b5b03006d6f325946c0d18bc214768241098e86aint, 0x54f61aaf49cf50b1c9ad252fefe304ec08a4f05eb26cee02ec97b395f778308int, 0xa58178731076bd7eea45d5540bbd2445de6b3b25b9b5cfad99472fe2b34412cint);
    let e = lemma_chain_multiply(p, g, e, 0xa58178731076bd7eea45d5540bbd2445de6b3b25b9b5cfad99472fe2b34412cint, 0x8d99e24b706f4341563b6cd2a0803aa114a2f8ff1cde62e1b20949098ba700bint, 0x9c613316021592b0aa90265ed840e2232743302f3f480b71914b925a81df5f7int);
    let e = lemma_chain_square(p, g, e, 0x9c613316021592b0aa90265ed840e2232743302f3f480b71914b925a81df5f7int, 0x6979130c0a897c89a98fd647301e5454301d9e5a2e00402b0562af26e3d3d25int, 0x33b1e59cf0c8a562729d37c7ccbcd6b7d231de9070f8d78177607b3954ca2deint);
    let e = lemma_chain_multiply(p, g, e, 0x33b1e59cf0c8a562729d37c7ccbcd6b7d231de9070f8d78177607b3954ca2deint, 0x2c3a7957b08207719719bb7228fa500a47cc5cb6d0f6f779736e2ec370d5a83int, 0x4245e3754f0c465485652f40f001d4ff4a66ecb4fa11a4cd1b428e2e00f40fdint);
    let e = lemma_chain_square(p, g, e, 0x4245e3754f0c465485652f40f001d4ff4a66ecb4fa11a4cd1b428e2e00f40fdint, 0x12f1768e8206a8e8f83b8b935edeb41af45d0e8e8e679074190a619d1967d56int, 0x31b86e8fd926a841e29ee9062edfb77c3cba0abd46263c81039964fec0d198fint);
    let e = lemma_chain_square(p, g, e, 0x31b86e8fd926a841e29ee9062edfb77c3cba0abd46263c81039964fec0d198fint, 0xaa98b80d794dc481e16a4a187197cb21c3770a852136527d6fcfef1bd26d6cint, 0x26d62c0bfc62e4fb809df8604d66473e0278beb79686a9fbdcaf03059a475adint);
    let e = lemma_chain_multiply(p, g, e, 0x26d62c0bfc62e4fb809df8604d66473e0278beb79686a9fbdcaf03059a475adint, 0x213a2f88f8ae79c235e8616a0d8700fd35866f57e246fddf479a754f3380922int, 0xe01f10538f8bffd4a8644066f670ad91bc789128856564c3155c8c41fdd6c45int);
    let e = lemma_chain_square(p, g, e, 0xe01f10538f8bffd4a8644066f670ad91bc789128856564c3155c8c41fdd6c45int, 0xd8a4e2e23151b1a0eebb7e2c6b4f73da8dfdd53eb9ec2772b0c93621eed6fa1int, 0xc2c8b4b4395a649c50685c913b64987cd73e2cd9791aa58efe9a36a9daad282int);
    let e = lemma_chain_multiply(p, g, e, 0xc2c8b4b4395a649c50685c913b64987cd73e2cd9791aa58efe9a36a9daad282int, 0xa6a68db19aba2d045df203ae66d58053d0a3a9692d3573cb7e38dc10df3ffebint, 0xb42d52ff0b14d1e9027f3e772863b43013001cf5f03262116b807407cd15501int);
    let e = lemma_chain_square(p, g, e, 0xb42d52ff0b14d1e9027f3e772863b43013001cf5f03262116b807407cd15501int, 0x8c043bf43db47759a7dc9aebf4994f78f7ee0b422ac66ce2df3562199a91168int, 0xb0631ec36d8a61e4625263c800990bc543151c04069b95e299d00ba3daa58a9int);
    let e = lemma_chain_square(p, g, e, 0xb0631ec36d8a61e4625263c800990bc543151c04069b95e299d00ba3daa58a9int, 0x86303103059ed8f910bd9a57571f13c6794b70a206c436285256497bba54e18int, 0x766b9c15a1ebd55527024a1699cbe3feae3eb34ccf6e3578a463fe07369ac69int);
    let e = lemma_chain_multiply(p, g, e, 0x766b9c15a1ebd55527024a1699cbe3feae3eb34ccf6e3578a463fe07369ac69int, 0x655102480b1cd66d3eab7db496f8787d705289a19864741e193f787e6cf107fint, 0x29910013a862e4a8e07d3ea5a1982a1aadc0a9fd25c67dbc4c3442d7be36d0eint);
    let e = lemma_chain_square(p, g, e, 0x29910013a862e4a8e07d3ea5a1982a1aadc0a9fd25c67dbc4c3442d7be36d0eint, 0x773ade2add9f33f74bd29fda09d46d14f3754d8b64799ab2c8e3c4c2f3ee0cint, 0xc0643aea3d0b40f694d23a8d487c706c19a433db6d7de7886f165d80a6bb230int);
    let e = lemma_chain_multiply(p, g, e, 0xc0643aea3d0b40f694d23a8d487c706c19a433db6d7de7886f165d80a6bb230int, 0xa49a8a3d01758b4547528b0f4e8a4730eb8d15f911fc32a601c315f1454a76eint, 0xe51c679093cc58294aba4f2c6b31c178c68b0740c82b7948fa730cab0fce22eint);
    let e = lemma_chain_square(p, g, e, 0xe51c679093cc58294aba4f2c6b31c178c68b0740c82b7948fa730cab0fce22eint, 0xe265d36af0f00e0f9b0a39d006e801cde230722db22933db62cd812ed8f6150int, 0x86d827eade9f1500c005adfc8633fe41111b435903fd3236613fef917fcf014int);
    let e = lemma_chain_square(p, g, e, 0x86d827eade9f1500c005adfc8633fe41111b435903fd3236613fef917fcf014int, 0x4e6c679659617ab763cd9141457c02a1eb3ec3233a90bc522b5460cd5b62e67int, 0xece1b6332b3cab59d02e522d8beaf6d404a61abb3b281764d2b2aa2befa1efint);
    let e = lemma_chain_multiply(p, g, e, 0xece1b6332b3cab59d02e522d8beaf6d404a61abb3b281764d2b2aa2befa1efint, 0xcaaafea3cf5d53d8808eb49c7b0027f912bf1a786db1fbfadd78f5b9608b2bint, 0x70a150a279aac344844cb65d1d410c38b0fac30c214c8ee9cc6218201bd2c14int);
    let e = lemma_chain_square(p, g, e, 0x70a150a279aac344844cb65d1d410c38b0fac30c214c8ee9cc6218201bd2c14int, 0x36b67fbfffe921e378dce3ab64e6b564e63f5e11f209d06315b76e63283cb62int, 0x3ca0f21992cd1a8712648772d5ca20234136e989ab34d6998f8700c5a65a682int);
    let e = lemma_chain_square(p, g, e, 0x3ca0f21992cd1a8712648772d5ca20234136e989ab34d6998f8700c5a65a682int, 0xfda9aeb062c79260cf9a456896afe79ff678bfd7724f8fc0348c04469bdc15int, 0xdca6af484a8d9b61fec6c8bc49d5fdfabbcdfb824c27fa01a96ca5e0d5feb01int);
    let e = lemma_chain_square(p, g, e, 0xdca6af484a8d9b61fec6c8bc49d5fdfabbcdfb824c27fa01a96ca5e0d5feb01int, 0xd1fcb3a627c811be6e5ac969adda5e96951350af3d1db14069f1d7a35630128int, 0x59993e2a7e03a0a8e4efd0f5277440e9f6dfd2adadd7dfde9d114d3a0e82269int);
    let e = lemma_chain_multiply(p, g, e, 0x59993e2a7e03a0a8e4efd0f5277440e9f6dfd2adadd7dfde9d114d3a0e82269int, 0x4ca853ff513a568d9fb0f5a2641fb98634eee52aa3252b5e9a0eb81669a939dint, 0x4757252483b79b4ed3b1354a831634abfb9b62d108c57b511a660b53cc0949cint);
    let e = lemma_chain_square(p, g, e, 0x4757252483b79b4ed3b1354a831634abfb9b62d108c57b511a660b53cc0949cint, 0x15f36bd0312301e70d9970bc8381d8cefc819b9d3fd82011769a036b920a645int, 0xab902173c6691d278710a086ae1d9240e324beabf4aabb3bb214f5c52c707bdint);
    let e = lemma_chain_square(p, g, e, 0xab902173c6691d278710a086ae1d9240e324beabf4aabb3bb214f5c52c707bdint, 0x7ef2d3c956a50878a09be2974f8444b445bab31d3d42921a6e387e83abee5b8int, 0x731a61e35fe4d4f99d5259f89a84c8e236f5a6a72d39d41e0f394a7d9980b01int);
    let e = lemma_chain_square(p, g, e, 0x731a61e35fe4d4f99d5259f89a84c8e236f5a6a72d39d41e0f394a7d9980b01int, 0x39244ebd3ee863d3f423c736020eab24d30d80cf4bf37f9ffba46a4a337a4efint, 0xac4ccb27eff254661bb9133f2e970a35aaec8af4c8dee08ffed343299f01b28int);
    let e = lemma_chain_square(p, g, e, 0xac4ccb27eff254661bb9133f2e970a35aaec8af4c8dee08ffed343299f01b28int, 0x800aa15a4651277d54d56428b396dda14385fb30ea169566afa15339407dd3aint, 0x3df7411518d7e0d762c67e3247641e476fb68aa117554a99454ea27a34659caint);
    let e = lemma_chain_square(p, g, e, 0x3df7411518d7e0d762c67e3247641e476fb68aa117554a99454ea27a34659caint, 0x108f99eb853a524379b72317b6c5a829f9a45b41f4beb2df981468b6461575dint, 0x891d2a54d51fc5460538f46f5ba1ea9c6cd96b23d264590cff68739f0a1a3e9int);
    let e = lemma_chain_multiply(p, g, e, 0x891d2a54d51fc5460538f46f5ba1ea9c6cd96b23d264590cff68739f0a1a3e9int, 0x754f5e456ad3ab9954693b6e42baebce85c7cc241540c215bbda09bc28210a4int, 0xd88753d97055f9ff1bb22ed97cfc363734983320a3201581f6b33614413df1bint);
    let e = lemma_chain_square(p, g, e, 0xd88753d97055f9ff1bb22ed97cfc363734983320a3201581f6b33614413df1bint, 0xca36c31d5b7a25c6daec3bfe34b217963254ca253acc3114582a5978871fff5int, 0xe733dcfcd4af0ef236a195a8580abde54ccfe5d88b309caa923a5d65392f8b6int);
    let e = lemma_chain_multiply(p, g, e, 0xe733dcfcd4af0ef236a195a8580abde54ccfe5d88b309caa923a5d65392f8b6int, 0xc5cf2193e5b0911b0bdb3428a440201d77cf99d45cc63d896982f0a16b26b13int, 0x404e94c6d3d52607f60e335d9080cff1883665f67c2a474339d6e454e059a35int);
    let e = lemma_chain_square(p, g, e, 0x404e94c6d3d52607f60e335d9080cff1883665f67c2a474339d6e454e059a35int, 0x11d6010f3296cb9570d282c6b611c6754659036415df9c55996cd6ab0272077int, 0x4e01547a470b082b7e5271ad743f0baa4b810c862a35fc63ab2d0893c9825e8int);
    let e = lemma_chain_multiply(p, g, e, 0x4e01547a470b082b7e5271ad743f0baa4b810c862a35fc63ab2d0893c9825e8int, 0x42bd15186b12b8ee964563be97ad77b6dc7f0eb12d150c96968d6f982b07f5dint, 0x8764030abfba24411ca701d99575a9ea8405fa6bd710901d2fbac409344fc9dint);
    let e = lemma_chain_square(p, g, e, 0x8764030abfba24411ca701d99575a9ea8405fa6bd710901d2fbac409344fc9dint, 0x4f0f691179e3a7d5abebb919eb14ca8713e8088370148a778ce495fc5fb7488int, 0x1e0470b62e38d0faa1d6c0af7f14123b42d68c8f6bc273940a036be9cadcb11int);
    let e = lemma_chain_multiply(p, g, e, 0x1e0470b62e38d0faa1d6c0af7f14123b42d68c8f6bc273940a036be9cadcb11int, 0x19ae8bfdc63b465e45769f74c6221ef6ac87ebf7f5b4796e835672f4231a21dint, 0x79291092236d47b6ec981cf0945b97b9c255bbdcd058c29d80b31e74e97e874int);
    let e = lemma_chain_square(p, g, e, 0x79291092236d47b6ec981cf0945b97b9c255bbdcd058c29d80b31e74e97e874int, 0x3f50768af7cfa4dd6762998cd49c0dd2a02665b3ccdcc12ab1da2ee04ae8bbbint, 0x63c49225c8d03c8d323e79a4aee856f58fa711b16f8c3e89a717e4e3fb36de3int);
    let e = lemma_chain_multiply(p, g, e, 0x63c49225c8d03c8d323e79a4aee856f58fa711b16f8c3e89a717e4e3fb36de3int, 0x555ba5bdabbbc5b49ddbb7f7bff9eb0766e57198387a3a8a7fce8f976d2253fint, 0x2398f7271c6b7dc71ec4c780f1443fdd45c4898bf7e9c0e534c59b9b3ca0d4int);
}

/// A power of a power of the root 6 modulo the prime `r`: the steps from the exponent
/// 0x26a243d49b4c654376d21f
/// to the exponent
/// 0x9a890f526d31950ddb487c3bf.
proof fn lemma_power_r_10_part_3(p: int, g: int)
    requires
        p == r_prime(),
        g == 0xc65e63fc84a29618963c191904505e1be6e55bc5b54b6511631b904f09cee3fint,
        pow_mod(g, 0x26a243d49b4c654376d21fnat, p) == 0x2398f7271c6b7dc71ec4c780f1443fdd45c4898bf7e9c0e534c59b9b3ca0d4int,
    ensures
        pow_mod(g, 0x9a890f526d31950ddb487c3bfnat, p) == 0xaf1bcd0380b6e89174b02ea84583487fa4c1e9ca9a74277bf40a2ede871c9b1int,
{
    let e: nat = 0x26a243d49b4c654376d21fnat;
    let e = lemma_chain_square(p, g, e, 0x2398f7271c6b7dc71ec4c780f1443fdd45c4898bf7e9c0e534c59b9b3ca0d4int, 0x57722c80d5dfcb83adc64e2dd74b17818251f47df858911560bd8b27277dint, 0x80aab5c4072bc14af2357cc560c9236bde9aabfe4cb4a4203d272bbb507f935int);
    let e = lemma_chain_square(p, g, e, 0x80aab5c4072bc14af2357cc560c9236bde9aabfe4cb4a4203d272bbb507f935int, 0x47670cc118e64891f982fbde1222baef92cb50979a9e937c7a484d9801b2d70int, 0x36c5b822067df2629959b3a42f6b6e680976199b76a3271dca9133ecf3169e9int);
    let e = lemma_chain_square(p, g, e, 0x36c5b822067df2629959b3a42f6b6e680976199b76a3271dca9133ecf3169e9int, 0xcf066cb8cbfc6fdef14f010382e45f9b902af4b4e50d5886f119acbae00726int, 0xe0515c8a5ef6734862f7895defc9267c14bde8dca2c2aea04782ffc3f951e7int);
    let e = lemma_chain_square(p, g, e, 0xe0515c8a5ef6734862f7895defc9267c14bde8dca2c2aea04782ffc3f951e7int, 0xd9062b0e8bb9591ce2eef510b8904be8e5dfc75c137d3e167aa01f92d5c47int, 0x162f1f65d52897a8b633ea3f613a14b0eb328e8df756fc7adec939209c7d3b0int);
    let e = lemma_chain_square(p, g, e, 0x162f1f65d52897a8b633ea3f613a14b0eb328e8df756fc7adec939209c7d3b0int, 0x21f610d6389afd2ecc1b54e72714aa8634291dd6a0715e57606ec5106483adint, 0xcdd0d0d0d7a98718e6f6117112394e28b3f531303f73f3a6df289598244bc55int);
    let e = lemma_chain_multiply(p, g, e, 0xcdd0d0d0d7a98718e6f6117112394e28b3f531303f73f3a6df289598244bc55int, 0xb016c4257dde7f8dd5306bf71dc46bb72fabf967c7ff85781494393c7f7a530int, 0xb865b63182b764e5378fd13b312ad5003a6952eb8ba751e0f7b44406612099bint);
    let e = lemma_chain_square(p, g, e, 0xb865b63182b764e5378fd13b312ad5003a6952eb8ba751e0f7b44406612099bint, 0x92a70c950d9f9ee1cf299a0621262ae5a7d593d5435077a8d349aec6e851f09int, 0xaedce504e9876b9098b5f2aafd2fcc370a3763d583149e8972356ba83fa886aint);
    let e = lemma_chain_multiply(p, g, e, 0xaedce504e9876b9098b5f2aafd2fcc370a3763d583149e8972356ba83fa886aint, 0x959b53e3c007a2d1b067b57c092c50daf6e5dfd0f678762844b0c0cbde1049dint, 0x6925f2efb34d08bacba6a519c061d4461e205d5556eeb3108476374cbf1d5dbint);
    let e = lemma_chain_square(p, g, e, 0x6925f2efb34d08bacba6a519c061d4461e205d5556eeb3108476374cbf1d5dbint, 0x2faf6f05ebc8464cd5dfb35eb7ad49a05c14e63d3b846a239d2619e20c1b4cdint, 0x4c09b60fe07ca8e4b099dd28fcff949bd9c1d55f88dddc41f77871c25a5aeceint);
    let e = lemma_chain_multiply(p, g, e, 0x4c09b60fe07ca8e4b099dd28fcff949bd9c1d55f88dddc41f77871c25a5aeceint, 0x410e34054fdccd0c1b55f65fe8733f07011ff41a6ee3318dc5f7148dda95b18int, 0xa5767830994358510cb328d84e2b7466b72c51e8b7de72d093194706df14a8aint);
    let e = lemma_chain_square(p, g, e, 0xa5767830994358510cb328d84e2b7466b72c51e8b7de72d093194706df14a8aint, 0x7614cdc7022f71a297806a194e9c5213da991b5e1be08cb06f6ba29b044f87eint, 0x3dbc025ce13a9b1efbdeda05b3811773f129f397f4fa31b522f0b04fff2c852int);
    let e = lemma_chain_square(p, g, e, 0x3dbc025ce13a9b1efbdeda05b3811773f129f397f4fa31b522f0b04fff2c852int, 0x106ffe2aaa8593e6dce6e27b5a42fbd12c39ad05992490496f855bed6efb059int, 0x563c211515c73451f5f5801f08236d9f3c4eef87918d1abb9986a2a5042dea5int);
    let e = lemma_chain_multiply(p, g, e, 0x563c211515c73451f5f5801f08236d9f3c4eef87918d1abb9986a2a5042dea5int, 0x49c796a665814125859e49f44a5852f069d9feda2b54cf19a503c81b76d6766int, 0x783bb23bf00054e2c2f8258475b6af14e001bba6c6790c9fe8641635399beb1int);
    let e = lemma_chain_square(p, g, e, 0x783bb23bf00054e2c2f8258475b6af14e001bba6c6790c9fe8641635399beb1int, 0x3e5954b673f423ca82fb23317ed982722af3ce8949ce198462ee75c1b6db915int, 0xac0c38f223c0d5f6037b8830e3ecb6fdf9ed019be45c9a2f274ea08ab1b4c5eint);
    let e = lemma_chain_multiply(p, g, e, 0xac0c38f223c0d5f6037b8830e3ecb6fdf9ed019be45c9a2f274ea08ab1b4c5eint, 0x9332beb8609663146383fc3dd55f5a0a05586fad3b6877a59506c5b1b7efa7aint, 0xab4d357d8d67cc6efdbc96ea7525ac7354eda6289dd382bea5d335c037729ecint);
    let e = lemma_chain_square(p, g, e, 0xab4d357d8d67cc6efdbc96ea7525ac7354eda6289dd382bea5d335c037729ecint, 0x7e8fdd69cf75547ab91a4cda2018657311d4113ec2c29403c871d9e9773598dint, 0x85c42e40de7b48acb127cf9ce52a2803d4f78858bf0b896ec2698c02c6131c5int);
    let e = lemma_chain_multiply(p, g, e, 0x85c42e40de7b48acb127cf9ce52a2803d4f78858bf0b896ec2698c02c6131c5int, 0x727229431510d1b5e3169af0b28424adfef96134c856fd9487fdf8653f68811int, 0x8cb3db6ca644081dd6eb7f34b125e0d33a4769d5c1b2e2a7cccb23669373554int);
    let e = lemma_chain_square(p, g, e, 0x8cb3db6ca644081dd6eb7f34b125e0d33a4769d5c1b2e2a7cccb23669373554int, 0x5562b44af4f840eea98844077a261909e03ea87cbc8674df1e8969585ee1113int, 0xd33d2e34bd48d167809be375682841b9dcb5bfb09cfbc55cea4c33cd9c16afbint);
    let e = lemma_chain_multiply(p, g, e, 0xd33d2e34bd48d167809be375682841b9dcb5bfb09cfbc55cea4c33cd9c16afbint, 0xb4ba9aa67699d5066f16b9572084175f14bad527d29c95e9bf65fc8f54de7c9int, 0x7f39cbcdc209372d7af53cc7520228d5c0f5c04241b12d7ac48c8f4818c7116int);
    let e = lemma_chain_square(p, g, e, 0x7f39cbcdc209372d7af53cc7520228d5c0f5c04241b12d7ac48c8f4818c7116int, 0x45cfe44205652ab0869f2fce16a1e33af9bd2c73cb425fab1ebf8799501f874int, 0xc30830f31793b2d90fcedc5bcde5b20c011a64b1eb6a0f5155b473e82fbe2f8int);
    let e = lemma_chain_multiply(p, g, e, 0xc30830f31793b2d90fcedc5bcde5b20c011a64b1eb6a0f5155b473e82fbe2f8int, 0xa6dcde908c4c2e13f9a062683aad3b67c7dff66e5d2361ed8b58c7b694cf9d3int, 0x6ebb785c53197da19c925ac48b375fa94b5ac49feca4ce5789b86684a939133int);
    let e = lemma_chain_square(p, g, e, 0x6ebb785c53197da19c925ac48b375fa94b5ac49feca4ce5789b86684a939133int, 0x34e27415df9a3a215461f16d291416926ab89d123e536065c62acd134b81f61int, 0xcebb684be12d6d08d09bdf7f030ea421a5ffa605ed11f776dafe855dd52b5d2int);
    let e = lemma_chain_multiply(p, g, e, 0xcebb684be12d6d08d09bdf7f030ea421a5ffa605ed11f776dafe855dd52b5d2int, 0xb0df7994e7bb67dc587a1b7caacab4b354d892db81ce299849d8167e47203ebint, 0xaf1bcd0380b6e89174b02ea84583487fa4c1e9ca9a74277bf40a2ede871c9b1int);
}

/// A power of a power of the root 6 modulo the prime `r`.
proof fn lemma_power_r_10()
    ensures
        pow_mod(0xc65e63fc84a29618963c191904505e1be6e55bc5b54b6511631b904f09cee3fint, 0x9a890f526d31950ddb487c3bfnat, r_prime()) == 0xaf1bcd0380b6e89174b02ea84583487fa4c1e9ca9a74277bf40a2ede871c9b1int,
{
    let p = r_prime();
    let g = 0xc65e63fc84a29618963c191904505e1be6e55bc5b54b6511631b904f09cee3fint;
    lemma_chain_start(p, g);
    lemma_power_r_10_part_1(p, g);
    lemma_power_r_10_part_2(p, g);
    lemma_power_r_10_part_3(p, g);
}

/// A power of a power of the root 6 modulo the prime `r`.
proof fn lemma_power_r_11()
    ensures
        pow_mod(0xe7db4ea6533afa906673b0101343b00a6682093ccc81082d0970e5ed6f72cb6int, 2, r_prime()) == 1,
{
    let p = r_prime();
    let g = 0xe7db4ea6533afa906673b0101343b00a6682093ccc81082d0970e5ed6f72cb6int;
    lemma_chain_start(p, g);
    let e: nat = 0;
    let e = lemma_chain_square(p, g, e, 1, 0, 1);
    let e = lemma_chain_multiply(p, g, e, 1, 0, 0xe7db4ea6533afa906673b0101343b00a6682093ccc81082d0970e5ed6f72cb6int);
    let e = lemma_chain_square(p, g, e, 0xe7db4ea6533afa906673b0101343b00a6682093ccc81082d0970e5ed6f72cb6int, 0xe7db4ea6533afa906673b0101343b00a6682093ccc81082d0970e5ed6f72cb5int, 1);
}

/// 6 is a primitive root modulo the prime `r`.
pub proof fn lemma_root_r()
    ensures
        is_primitive_root(6, r_prime()),
{
    let p = r_prime();
    let g = 6;
    lemma_chain_start(p, g);
    lemma_chain_multiply(p, g, 0, 1, 0, g);
    lemma_power_r_1();
    lemma_chain_rebase(p, g, 1, 6, 0xe53640dea418dcec9bc5eda6af6d56b20226277bnat, 0xe202e797a88364260be56fa670b57120e46cdd525b0dfd6021986ce4279e2dcint);
    lemma_power_r_2();
    lemma_chain_rebase(p, g, 0xe53640dea418dcec9bc5eda6af6d56b20226277bnat, 0xe202e797a88364260be56fa670b57120e46cdd525b0dfd6021986ce4279e2dcint, 0x2ff9, 0x7ea64bca3e20bc768d5a1956adf929225231720a97c0cddd8da0e140fdacc8aint);
    lemma_power_r_3();
    lemma_chain_rebase(p, g, 0x2af3e7adf8ae2cbe52bcda25c155b4440189185bfba3nat, 0x7ea64bca3e20bc768d5a1956adf929225231720a97c0cddd8da0e140fdacc8aint, 0x2b2efe9710e4d05725e9nat, 0xe7db4ea6533afa906673b0101343b00a6682093ccc81082d0970e5ed6f72cb6int);
    lemma_power_r_4();
    lemma_chain_rebase(p, g, 0x2af3e7adf8ae2cbe52bcda25c155b4440189185bfba3nat, 0x7ea64bca3e20bc768d5a1956adf929225231720a97c0cddd8da0e140fdacc8aint, 2, 0x83394419a1e267f269ebbcb30c187c44a9b4e46a2b90dc0d0651fba8cd1bf2cint);
    lemma_power_r_5();
    lemma_chain_rebase(p, g, 0xe53640dea418dcec9bc5eda6af6d56b20226277bnat, 0xe202e797a88364260be56fa670b57120e46cdd525b0dfd6021986ce4279e2dcint, 0x565dfd2e21c9a0ae4bd2nat, 0x5cb782a45ab0ea74bdbb41d81139677f1de02a8fff64d3062653f08900b15b0int);
    lemma_power_r_6();
    lemma_chain_rebase(p, g, 1, 6, 0x102f42e6ba12e19d49734d42nat, 0xc65e63fc84a29618963c191904505e1be6e55bc5b54b6511631b904f09cee3fint);
    lemma_power_r_7();
    lemma_chain_rebase(p, g, 0x102f42e6ba12e19d49734d42nat, 0xc65e63fc84a29618963c191904505e1be6e55bc5b54b6511631b904f09cee3fint, 0x17bb52198966db45, 0xd49672ad5118f44dd944fc7f0247f8f33959f2ff57b645cfc75b04965a81331int);
    lemma_power_r_8();
    lemma_chain_rebase(p, g, 0x18016b959fcd9b1141514aed74a04f5897748canat, 0xd49672ad5118f44dd944fc7f0247f8f33959f2ff57b645cfc75b04965a81331int, 0x3383051b79bb31af491829695nat, 0x7e1d6906f41bf2fb133fd7dbbf3e5fa7242494d4a86d10b59bfba8663cdb2c4int);
    lemma_power_r_9();
    lemma_chain_rebase(p, g, 0x18016b959fcd9b1141514aed74a04f5897748canat, 0xd49672ad5118f44dd944fc7f0247f8f33959f2ff57b645cfc75b04965a81331int, 3, 0x4aee0e97feb6deb2a8dd1c5953e12f95437531039a65df55805192d2c047f02int);
    lemma_power_r_10();
    lemma_chain_rebase(p, g, 0x102f42e6ba12e19d49734d42nat, 0xc65e63fc84a29618963c191904505e1be6e55bc5b54b6511631b904f09cee3fint, 0x9a890f526d31950ddb487c3bfnat, 0xaf1bcd0380b6e89174b02ea84583487fa4c1e9ca9a74277bf40a2ede871c9b1int);
    lemma_power_r_11();
    lemma_chain_rebase(p, g, 0x73eda753299d7d483339d80809a1d8053341049e6640841684b872f6b7b965bnat, 0xe7db4ea6533afa906673b0101343b00a6682093ccc81082d0970e5ed6f72cb6int, 2, 1);
    lemma_two_is_prime();
    lemma_prime_3();
    lemma_prime_12281();
    lemma_prime_1710050753150114629();
    lemma_prime_203928654140967434528233();
    lemma_prime_255074062430788457494141376149();
    assert forall|m: int| m >= 2 && #[trigger] (0xe7db4ea6533afa906673b0101343b00a6682093ccc81082d0970e5ed6f72cb6int % m) == 0 implies exists|f: int| #[trigger]
        refutes(6, 0xe7db4ea6533afa906673b0101343b00a6682093ccc81082d0970e5ed6f72cb6int, 0xe7db4ea6533afa906673b0101343b00a6682093ccc81082d0970e5ed6f72cb7int, m, f) by {
        lemma_euclid(m, 2, 0x73eda753299d7d483339d80809a1d8053341049e6640841684b872f6b7b965bint);
        if m % 2 == 0 {
            assert(refutes(6, 0xe7db4ea6533afa906673b0101343b00a6682093ccc81082d0970e5ed6f72cb6int, 0xe7db4ea6533afa906673b0101343b00a6682093ccc81082d0970e5ed6f72cb7int, m, 2));
        } else {
            lemma_euclid(m, 3, 0x26a48d1bb889d46d66689d580335f2ac666b018a2215815cd6e826523d3dcc9int);
            if m % 3 == 0 {
                assert(refutes(6, 0xe7db4ea6533afa906673b0101343b00a6682093ccc81082d0970e5ed6f72cb6int, 0xe7db4ea6533afa906673b0101343b00a6682093ccc81082d0970e5ed6f72cb7int, m, 3));
            } else {
                lemma_euclid(m, 0x2ff9, 0xce365880c05078ae664786ee6939bc02e2a66b25ab4656dbcf8f113e751int);
                if m % 0x2ff9 == 0 {
                    assert(refutes(6, 0xe7db4ea6533afa906673b0101343b00a6682093ccc81082d0970e5ed6f72cb6int, 0xe7db4ea6533afa906673b0101343b00a6682093ccc81082d0970e5ed6f72cb7int, m, 0x2ff9));
                } else {
                    lemma_euclid(m, 0x17bb52198966db45, 0x8b076a0ed21d1e628de694481f80e1dadc0e8c41969dint);
                    if m % 0x17bb52198966db45 == 0 {
                        assert(refutes(6, 0xe7db4ea6533afa906673b0101343b00a6682093ccc81082d0970e5ed6f72cb6int, 0xe7db4ea6533afa906673b0101343b00a6682093ccc81082d0970e5ed6f72cb7int, m, 0x17bb52198966db45));
                    } else {
                        lemma_euclid(m, 0x2b2efe9710e4d05725e9int, 0x3383051b79bb31af491829695int);
                        if m % 0x2b2efe9710e4d05725e9int == 0 {
                            assert(refutes(6, 0xe7db4ea6533afa906673b0101343b00a6682093ccc81082d0970e5ed6f72cb6int, 0xe7db4ea6533afa906673b0101343b00a6682093ccc81082d0970e5ed6f72cb7int, m, 0x2b2efe9710e4d05725e9int));
                        } else {
                            lemma_euclid(m, 0x3383051b79bb31af491829695int, 1);
                            if m % 0x3383051b79bb31af491829695int == 0 {
                                assert(refutes(6, 0xe7db4ea6533afa906673b0101343b00a6682093ccc81082d0970e5ed6f72cb6int, 0xe7db4ea6533afa906673b0101343b00a6682093ccc81082d0970e5ed6f72cb7int, m, 0x3383051b79bb31af491829695int));
                            } else {
                                lemma_small_mod(1, m as nat);
                            }
                        }
                    }
                }
            }
        }
    }
    lemma_lucas(0xe7db4ea6533afa906673b0101343b00a6682093ccc81082d0970e5ed6f72cb7int, 0xe7db4ea6533afa906673b0101343b00a6682093ccc81082d0970e5ed6f72cb6int, 6);
}

/// The prime `r` is prime.
pub proof fn lemma_prime_r()
    ensures
        is_prime(r_prime()),
{
    lemma_root_r();
    lemma_root_gives_prime(6, r_prime());
}

} // verus!
