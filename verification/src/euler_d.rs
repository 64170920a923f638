//! Euler's criterion for the curve constant `d`: its power `(q - 1) / 2` is
//! minus one, so `d` is not a square modulo `q`.
use vstd::prelude::*;
use crate::base::q;
use crate::modular::pow_mod;
use crate::primes::{lemma_chain_multiply, lemma_chain_square, lemma_chain_start};

verus! {

/// The power `(q - 1) / 2` of the curve constant `d`: the steps from the exponent
/// 0
/// to the exponent
/// 995816810067.
proof fn lemma_power_of_d_part_1(p: int, g: int)
    requires
        p == q(),
        g == 0x2a9318e74bfa2b48f5fd9207e6bd7fd4292d7f6d37579d2601065fd6d6343eb1int,
        pow_mod(g, 0, p) == 1,
    ensures
        pow_mod(g, 0xe7db4ea653, p) == 0x4fecc370bfe2695d75a335472e88f422385bb9502910c34d4a242763d079453dint,
{
    let e: nat = 0;
    let e = lemma_chain_square(p, g, e, 1, 0, 1);
    let e = lemma_chain_multiply(p, g, e, 1, 0, 0x2a9318e74bfa2b48f5fd9207e6bd7fd4292d7f6d37579d2601065fd6d6343eb1int);
    let e = lemma_chain_square(p, g, e, 0x2a9318e74bfa2b48f5fd9207e6bd7fd4292d7f6d37579d2601065fd6d6343eb1int, 0xfa2af8df687febf80f6089befd2f46696a8c4e85da469c87050c221a0c884e9int, 0x1f3c70b96faf1d81ac2f27bdd2a5aef941b5cea853d872041bdf542cd279b178int);
    let e = lemma_chain_multiply(p, g, e, 0x1f3c70b96faf1d81ac2f27bdd2a5aef941b5cea853d872041bdf542cd279b178int, 0xb78afe282c83901ba05c4d3c5ff8d99f54f77a3fbb2146ca605598eb93c83e4int, 0x3dba1a827e53b9c548c3b6b67484184335773d30f2d35e46bb7595aea2424014int);
    let e = lemma_chain_square(p, g, e, 0x3dba1a827e53b9c548c3b6b67484184335773d30f2d35e46bb7595aea2424014int, 0x20ddf4c78be86cb048c7b46b18b420d80cba9c1c45455a1d61b8b70eaeb15ee4int, 0x5e75df3a9cfcaeccd9796f657d530ce49582c232e94660f32ebef543bba8a2acint);
    let e = lemma_chain_multiply(p, g, e, 0x5e75df3a9cfcaeccd9796f657d530ce49582c232e94660f32ebef543bba8a2acint, 0x22b0c67e8a5872b0b88e9cc62199fcf5ee76fd339e701cf497ede348eb9385dbint, 0x72b2a4dcf39a0505cd30756c5f34ed383f044b3b3807ed6451283de7e5a9b11int);
    let e = lemma_chain_square(p, g, e, 0x72b2a4dcf39a0505cd30756c5f34ed383f044b3b3807ed6451283de7e5a9b11int, 0x717afa5eccc0fa5769bad4ee460dcfe70b502e0a213b000a916babc27fa0aeint, 0xb417d0dd20bf883b474d7a893ec278372f631912d0158cace87dd345f61f673int);
    let e = lemma_chain_square(p, g, e, 0xb417d0dd20bf883b474d7a893ec278372f631912d0158cace87dd345f61f673int, 0x117c5a084ff8c960f9702b29cff2bfe43a29b8ceba61d358abbc427c595276cint, 0x4683ba0e69a5a81da369bd14f663621d03364bb8aa27b53342fbea6244d2103dint);
    let e = lemma_chain_square(p, g, e, 0x4683ba0e69a5a81da369bd14f663621d03364bb8aa27b53342fbea6244d2103dint, 0x2ae42441ac34cbe1cf8bd28818c20fc8c6516bb5dc3697f6715b32f92a39cc89int, 0x1e614df32fdafdbe28dea241fb6de8ab68eb3f601ef4f5adcd80d142e2e1e200int);
    let e = lemma_chain_multiply(p, g, e, 0x1e614df32fdafdbe28dea241fb6de8ab68eb3f601ef4f5adcd80d142e2e1e200int, 0xb2835a64d7e7848c2bde6cc1d44b6103467b15c0b7808888bfd56866d9eac43int, 0x37cd5c5701e22c5ea23fb07c2e6d611f85c6929ef1a3c7925d500cbc0d4a95bdint);
    let e = lemma_chain_square(p, g, e, 0x37cd5c5701e22c5ea23fb07c2e6d611f85c6929ef1a3c7925d500cbc0d4a95bdint, 0x1adc44df1d61e2b05a3e19af76b4b9bc94f5077daa35abe2d9f841460bc9f67cint, 0x45ba60ed45a722cb0fe816ea6b7b151f52546734d24f483e9e3803be0f0f970dint);
    let e = lemma_chain_multiply(p, g, e, 0x45ba60ed45a722cb0fe816ea6b7b151f52546734d24f483e9e3803be0f0f970dint, 0x199b89f618f47cd782babff2a675b84a38c207f493a1141518bbe7ad49f30d60int, 0x19b312dbefc529d1fe2e1ab1591b0e288c2a512ff62ec70c16ff30e730d889dint);
    let e = lemma_chain_square(p, g, e, 0x19b312dbefc529d1fe2e1ab1591b0e288c2a512ff62ec70c16ff30e730d889dint, 0x5b27a6a3dd83db9474693705eab45640181260d08c2d640c203302e2fa383int, 0x34f0f4c3b4b152692e49fed5d60aca82917a6cecfedf6e329a1dc8f308a98cc6int);
    let e = lemma_chain_multiply(p, g, e, 0x34f0f4c3b4b152692e49fed5d60aca82917a6cecfedf6e329a1dc8f308a98cc6int, 0x13715043f92432fd01b37c2295dff76e0521a96a4f40d4d403c11880d9a2a1dcint, 0x3c323bbc1d91e510687eff14d4d67e68abaf1e0494f4d82ad15cfb1f4fe7a70aint);
    let e = lemma_chain_square(p, g, e, 0x3c323bbc1d91e510687eff14d4d67e68abaf1e0494f4d82ad15cfb1f4fe7a70aint, 0x1f41d25877a1f5572fe35cb147ad4479b36abb0a679181dd2426f88b7d2a4e7dint, 0x1854c899fae8a3cc1aaeecc61d5fbd9070a6853654c8a03670cc31148fdfbde7int);
    let e = lemma_chain_multiply(p, g, e, 0x1854c899fae8a3cc1aaeecc61d5fbd9070a6853654c8a03670cc31148fdfbde7int, 0x8ef8430a65d22d4f7f9e5ddb7cbb1b4eed9fd3a263c6e553ca5e1612483a3a1int, 0x4d58fd7e14178ca7a8dba42d3b24e4588623b81b7f5f8cfe284c669b32189b16int);
    let e = lemma_chain_square(p, g, e, 0x4d58fd7e14178ca7a8dba42d3b24e4588623b81b7f5f8cfe284c669b32189b16int, 0x339b42b08eab41e1aebd096e56f6365065f0d1b53b5e5cd1f88411c1736df166int, 0x5f2b6c3bb2e5d73456ddf58c55995c2a790b127366544711bf28d33a96a5b47eint);
    let e = lemma_chain_multiply(p, g, e, 0x5f2b6c3bb2e5d73456ddf58c55995c2a790b127366544711bf28d33a96a5b47eint, 0x22f3732425e0b859309342079df2e7341e9ab9fbc8f6e13b0ff55ed8d28f58d4int, 0x3e2a52a80e21ce095a063f59640a0c38da0a698a3bc19a0cd844f7d77550f64aint);
    let e = lemma_chain_square(p, g, e, 0x3e2a52a80e21ce095a063f59640a0c38da0a698a3bc19a0cd844f7d77550f64aint, 0x2155e278741db1771fbf4d2b68956fdfe282cbd286cdd01aadf4fd6ab936816dint, 0x6a18cca95f5d3d4577c408eebc9fb9fa6c641cd35c910e0541951b08c5fbcbf7int);
    let e = lemma_chain_square(p, g, e, 0x6a18cca95f5d3d4577c408eebc9fb9fa6c641cd35c910e0541951b08c5fbcbf7int, 0x611963fce3091e5587299936a531c8add017bfc76ca6212a8ae2acaa5ccd2d83int, 0x5e6a56cec25ed8a9d5db9bd01ae7488280ecaf57e542cf67c350d9dc620e7aceint);
    let e = lemma_chain_multiply(p, g, e, 0x5e6a56cec25ed8a9d5db9bd01ae7488280ecaf57e542cf67c350d9dc620e7aceint, 0x22ac8a383beefcc0a8c15d77f8e1c65cc5e1fbd9f6214f64e696ce3f36559c1cint, 0x2d9f5b968fe30e0d48176a382620ec126e0633add622a78f70a5eec93d433052int);
    let e = lemma_chain_square(p, g, e, 0x2d9f5b968fe30e0d48176a382620ec126e0633add622a78f70a5eec93d433052int, 0x11f44cc98d81fb62bd9a64604fde1287023887096ecda9195948b353b3762a40int, 0x26239f1bdba7695e73d8e3a5874da93203a52dc546e3bb1493e4e659b494b004int);
    let e = lemma_chain_multiply(p, g, e, 0x26239f1bdba7695e73d8e3a5874da93203a52dc546e3bb1493e4e659b494b004int, 0xe01aedf08f989d645246819de5f8a1457ae2695046fae6512b14778e9207b88int, 0x62bf0b9a27bbde2cc0531badabbaa920d91ea1d69ea32a79945dca800d1e2f3cint);
    let e = lemma_chain_square(p, g, e, 0x62bf0b9a27bbde2cc0531badabbaa920d91ea1d69ea32a79945dca800d1e2f3cint, 0x541c5dfa739d164d8cc19c1337dfca617d3f75dfc291b6e5ea859af9be712defint, 0x6b2add7496a2064b1d145ebb8ca2a7aa3b305f8dea94480746e993507455e821int);
    let e = lemma_chain_square(p, g, e, 0x6b2add7496a2064b1d145ebb8ca2a7aa3b305f8dea94480746e993507455e821int, 0x63119153e655c225e02b07ce25e21729859206183059aa946438ba08566db2b1int, 0x434e61912a99ca5cb5b91aea321afa93730c33cc69bca6291d6bea7a89f82190int);
    let e = lemma_chain_multiply(p, g, e, 0x434e61912a99ca5cb5b91aea321afa93730c33cc69bca6291d6bea7a89f82190int, 0x18b7d86388622018b2d3a404f7542cfa7b44acced52a2f12dfc25defb554d39aint, 0x4a95e5d85494373b08b3edf6e4b65aa13492a87072b1ace7237332a2f89b40f6int);
    let e = lemma_chain_square(p, g, e, 0x4a95e5d85494373b08b3edf6e4b65aa13492a87072b1ace7237332a2f89b40f6int, 0x2ffc8f83d2e36745452661805b0de58f8fd2f4f306dcab722064ddd60a961ae6int, 0x170860ef7d8f79af6140f1383dbcba2ca7e8eca8b44f5159c680b86c4fc9d17eint);
    let e = lemma_chain_multiply(p, g, e, 0x170860ef7d8f79af6140f1383dbcba2ca7e8eca8b44f5159c680b86c4fc9d17eint, 0x87570ddf08b01fe308a438a316b9b305f29587cd9b4308c959e162f06d45442int, 0x2e1cb9a72c620e17a24f9a597e9225533042afcde3d6cec0dbf9c7bae60a07dcint);
    let e = lemma_chain_square(p, g, e, 0x2e1cb9a72c620e17a24f9a597e9225533042afcde3d6cec0dbf9c7bae60a07dcint, 0x125780fd3c9672e8a08c7d73c76a0ed786e8705b3a8f26a3d0e77680a85568bfint, 0x59b0340ba4affaff1d0956e9c512798812ab1dc6c905b1a836e76c7245185c51int);
    let e = lemma_chain_square(p, g, e, 0x59b0340ba4affaff1d0956e9c512798812ab1dc6c905b1a836e76c7245185c51int, 0x45633a70087a9cb1ffac99aeab59c63b4752957235b12b3333a2e401b441f0feint, 0x2d4eb0248b7e79627233270ff60a5ca5aaa6a23727af24537109c135663860a3int);
    let e = lemma_chain_multiply(p, g, e, 0x2d4eb0248b7e79627233270ff60a5ca5aaa6a23727af24537109c135663860a3int, 0x10a39c2784bf0228542f886f06c42fc5f3da8e43f3739da067fb6880a00da7c0int, 0x99c47cac82d0103e82b78776f5633356075d182edaa23a6e4b6ed6a9770a2f3int);
    let e = lemma_chain_square(p, g, e, 0x99c47cac82d0103e82b78776f5633356075d182edaa23a6e4b6ed6a9770a2f3int, 0xcbf51e45612112fad1ab0f00f9168de62184bb406ec7523b150db97a84745bint, 0x623dfb0d94b259da96cebc94064b92ad74a94d9c9cec4b17198657a72bd3fe4eint);
    let e = lemma_chain_square(p, g, e, 0x623dfb0d94b259da96cebc94064b92ad74a94d9c9cec4b17198657a72bd3fe4eint, 0x53410ea26f3b7e7424ad888fcf5069bf5aad517d6a0033e46e3c69b11380c63bint, 0x47b7222df3e7f71253ddbe59f0fc8e074e9f098eb73849967dc114951b21989int);
    let e = lemma_chain_square(p, g, e, 0x47b7222df3e7f71253ddbe59f0fc8e074e9f098eb73849967dc114951b21989int, 0x2c5d4acc7a6df6c42258ca97772b64bee8874ca3f98a63fec14a8d16613a68int, 0x595eb78a892f9be41d13abf8137e86559a6c23b27435f4d49220e20d20aed0e9int);
    let e = lemma_chain_multiply(p, g, e, 0x595eb78a892f9be41d13abf8137e86559a6c23b27435f4d49220e20d20aed0e9int, 0x20d2314e9fdeea0f019ab5c4d87055ae3faf936beed58be8ad27660a521227d2int, 0x46d40f1070099ae010b65f300d372d63394bd2ef84b7a88f88821ab0d2b8b747int);
    let e = lemma_chain_square(p, g, e, 0x46d40f1070099ae010b65f300d372d63394bd2ef84b7a88f88821ab0d2b8b747int, 0x2b4615a96e7f01444923d77228910a16d3833acbfd1cc5390dc99599a35c2a6aint, 0x1239c88d37d87afda221fe63fbb90c0bdfc9a10e024d7f621a589468d1ea6b47int);
    let e = lemma_chain_multiply(p, g, e, 0x1239c88d37d87afda221fe63fbb90c0bdfc9a10e024d7f621a589468d1ea6b47int, 0x6b181726e60202b66c9f735b12fcf74465cabdc7948ae7e71c3f09c2efe8c7cint, 0x4f2986293882e4f74685aa3d1d0aac3fb1f2df0a6f74bcd66f9e3ad4de7cd19bint);
    let e = lemma_chain_square(p, g, e, 0x4f2986293882e4f74685aa3d1d0aac3fb1f2df0a6f74bcd66f9e3ad4de7cd19bint, 0x360e6854e81b9f38f9c66c49a4d315f46cbe7fa3dfe7092f7594536ab4d7366eint, 0x68f926262bc8c69277db28673b96fa53fe6db6d8500b157633a9001fd8ef3d6bint);
    let e = lemma_chain_multiply(p, g, e, 0x68f926262bc8c69277db28673b96fa53fe6db6d8500b157633a9001fd8ef3d6bint, 0x268d251ba4571bc14070a84c4ef427301eb8474637717c1ed5f3ff5ee9add3c8int, 0x4863458c409ad702cbd9455d216b479291343a28b927608e5ab4bb59f0578d33int);
    let e = lemma_chain_square(p, g, e, 0x4863458c409ad702cbd9455d216b479291343a28b927608e5ab4bb59f0578d33int, 0x2d334424d3e8f72eebc4f38553bea9dec94c7f7a2ee788054fa6d661ca13ef13int, 0xb07b5177f982173e752276586ef4d7e98b3548e2335d22ccf20ed81c774916int);
    let e = lemma_chain_square(p, g, e, 0xb07b5177f982173e752276586ef4d7e98b3548e2335d22ccf20ed81c774916int, 0x10caa09ccfa0d16676fae86aea1c99eb6b149f7e828ea727cc2fb87d7f032int, 0x2d2123f30dd1a2c03e1822b9599f2f2b4406dc74f8dc3fa96b6739e84f799db2int);
    let e = lemma_chain_multiply(p, g, e, 0x2d2123f30dd1a2c03e1822b9599f2f2b4406dc74f8dc3fa96b6739e84f799db2int, 0x1092e1f4e56d95dc82e4be08f9b7a5e884a5b42d8ec38664d726cf45f7a40d3dint, 0x5a9736ffd01579d144d971183ba6561d6b1b4482ed6f18384ddd3a2843cb16d5int);
    let e = lemma_chain_square(p, g, e, 0x5a9736ffd01579d144d971183ba6561d6b1b4482ed6f18384ddd3a2843cb16d5int, 0x46ca78d32b43f87822f6beaf60f82aae7e68724e07378fff62dbc8074b92a0acint, 0x71b9ed7c9a24ae8a149149f5694fc6358857c8e6d22c7352be3c6e456a44ac8dint);
    let e = lemma_chain_square(p, g, e, 0x71b9ed7c9a24ae8a149149f5694fc6358857c8e6d22c7352be3c6e456a44ac8dint, 0x6f90e8e27583e14f8d0d671b01c02082241a1dc1ebfa5f498c490ecd5a5ff906int, 0x13b65a4f702949872258824c3f7fdf31b490c97bc4813355759a0b8b88d5cca3int);
    let e = lemma_chain_multiply(p, g, e, 0x13b65a4f702949872258824c3f7fdf31b490c97bc4813355759a0b8b88d5cca3int, 0x73d44fce6d8fe34b3df42dffb9f732a26e3e7e77c42d8ced7bf4f4ebdc394cbint, 0x375d2e5443af383b388cf0b1571af83d238a8be04748c13aa9881dd978ba61e8int);
    let e = lemma_chain_square(p, g, e, 0x375d2e5443af383b388cf0b1571af83d238a8be04748c13aa9881dd978ba61e8int, 0x1a70b28d57fb898ca4b2bf2934b3c440e5a9530a8cbe0233566e5177657a0bccint, 0x50744394f27081329633ae020cc38d9c566f0f3ac50a919484a3892085179674int);
    let e = lemma_chain_square(p, g, e, 0x50744394f27081329633ae020cc38d9c566f0f3ac50a919484a3892085179674int, 0x37d5c9bd4e2283d51d36a2b505915998f1c6d7256b9ef2093b4b5d5a402a23acint, 0x3ff8d55226cba57d5186df23e3ace27a267d8b5893fbee306b60fd2a91a00e4int);
    let e = lemma_chain_square(p, g, e, 0x3ff8d55226cba57d5186df23e3ace27a267d8b5893fbee306b60fd2a91a00e4int, 0x234d2006b27f30af7ab161b1d52413a7bdf5035d5bc81454e5770681539361int, 0x330a39b86f9fcfdc9e2c00e790791898e2bcf71cecc070da0b15a23bb4fd37afint);
    let e = lemma_chain_multiply(p, g, e, 0x330a39b86f9fcfdc9e2c00e790791898e2bcf71cecc070da0b15a23bb4fd37afint, 0x12be8fe2c4ba8da7dcff630c2c88903ebf1be05d30869148da199178be218cbcint, 0x38f25c440d440a1e2964abb23b0b446dc419d0ccf324c093e92489a651fa5543int);
    let e = lemma_chain_square(p, g, e, 0x38f25c440d440a1e2964abb23b0b446dc419d0ccf324c093e92489a651fa5543int, 0x1bf93ba5bb0b5560d0dc4116cfac8defbc8fec8d41a62d7d07269a379d45212fint, 0x239a0d71dbc9171309c637353d30ba478d41c06e61754243e11f2e9a6bfc6e5aint);
    let e = lemma_chain_multiply(p, g, e, 0x239a0d71dbc9171309c637353d30ba478d41c06e61754243e11f2e9a6bfc6e5aint, 0xd13211c1da5642a43688a9d1045d0ac1cf426992d1d90862b0133dc91ff56d8int, 0x3d2481efd9195e4c4f7838ee0bb27ffe1820dd139898c1cb0a8d5aa8e08ac162int);
    let e = lemma_chain_square(p, g, e, 0x3d2481efd9195e4c4f7838ee0bb27ffe1820dd139898c1cb0a8d5aa8e08ac162int, 0x203f6730641436fd915a7dd30a593b7bff4927c922a827105d187cd42b0ecf13int, 0x14491cae48886c5e142c06ef5d8b343956e3100438ec238086f4287f64ae1a71int);
    let e = lemma_chain_square(p, g, e, 0x14491cae48886c5e142c06ef5d8b343956e3100438ec238086f4287f64ae1a71int, 0x38cb609320b9485679c1d8f826d51b2298d03bd6e0e6a764ce46bab291a3469int, 0x522205f55511a58b92f79df62fea42a86f1658e116400f0a0437cfec133cf178int);
    let e = lemma_chain_square(p, g, e, 0x522205f55511a58b92f79df62fea42a86f1658e116400f0a0437cfec133cf178int, 0x3a308434fc4048658570a7e2a517d11f1b4d6142508790cd3b0552a0418eba0eint, 0x351ac525f3a09d701c441cfc93f6b507c18207d5b7442dcc9068c707a2746e32int);
    let e = lemma_chain_multiply(p, g, e, 0x351ac525f3a09d701c441cfc93f6b507c18207d5b7442dcc9068c707a2746e32int, 0x1380ab7160c5727d0a0e43fd5e4f8773965b9fd64614439d5e34872fffd79dfbint, 0xc5d427dc6daee1dc951a559a0a2a7134693d42b5fc54cdf73078bfab380ae97int);
    let e = lemma_chain_square(p, g, e, 0xc5d427dc6daee1dc951a559a0a2a7134693d42b5fc54cdf73078bfab380ae97int, 0x15196f458eafdf5981715c8bfa781ded9ff4c40d441ee79cba40366c699c377int, 0x278c42b9a45ee3989cb8400b9386ba583d6dc2bf1c7089cc0401edd27177d99aint);
    let e = lemma_chain_square(p, g, e, 0x278c42b9a45ee3989cb8400b9386ba583d6dc2bf1c7089cc0401edd27177d99aint, 0xd7dcc926c0a4ccd92a72262e085616741f40f16c1dec4e008069a2582951d70int, 0x401072fad2e8287a359eb4988b3e36087ef7b268edd248f84195ae28778d5334int);
    let e = lemma_chain_multiply(p, g, e, 0x401072fad2e8287a359eb4988b3e36087ef7b268edd248f84195ae28778d5334int, 0x17870da76eba2669b9b35f65579bbbe6f90f195327de90162dbbdb64ed962454int, 0xd19695c4c15f7f6d9818f293a2343462b04a83e763677b415e9c59853d6faa0int);
    let e = lemma_chain_square(p, g, e, 0xd19695c4c15f7f6d9818f293a2343462b04a83e763677b415e9c59853d6faa0int, 0x17aeac42679a50f3558c73ef9eff14e5c697c6692e327cab18494ae0f81431dint, 0x4681d1ff98850b3f16a8ec9fc112d177c6f31374849d231f5db5a77aa95ba0e3int);
    let e = lemma_chain_square(p, g, e, 0x4681d1ff98850b3f16a8ec9fc112d177c6f31374849d231f5db5a77aa95ba0e3int, 0x2ae1d28e497422f0957aeaa2bb07dd8d50f10e0f4baf2e7541494136e8c53203int, 0x60567bf8d8e19248caf99e55244bd59b8a844416451a8bf07dc18e5f93b95746int);
    let e = lemma_chain_square(p, g, e, 0x60567bf8d8e19248caf99e55244bd59b8a844416451a8bf07dc18e5f93b95746int, 0x500ed1962b05c9beb4337b53ea20def0171ed41d24cdac3aaad18ff531293d92int, 0x971cb608e94755e84593248e8b18f78bbb8dbbf684038cd0f827bfa73c36992int);
    let e = lemma_chain_multiply(p, g, e, 0x971cb608e94755e84593248e8b18f78bbb8dbbf684038cd0f827bfa73c36992int, 0x377eeec90da748bed0fbbe687e6d1597c1c449a7600d670f465ca3d9b3a5dcaint, 0x19c8c90de3eb816aca265435d41685d0bd823ca3fd0c2740daab3fbd401afc28int);
    let e = lemma_chain_square(p, g, e, 0x19c8c90de3eb816aca265435d41685d0bd823ca3fd0c2740daab3fbd401afc28int, 0x5bc1ecfd96dfd368db88f1d4947ae84a7021cab8a159a33e9a194661e96db51int, 0x1bfddbd675d055082583e0485e73e0ac6f91fd4e7fe648793266cae711e7eaefint);
    let e = lemma_chain_multiply(p, g, e, 0x1bfddbd675d055082583e0485e73e0ac6f91fd4e7fe648793266cae711e7eaefint, 0xa47a813a42156cc25acd1baefd1508fb815caea7bdd0ed78af2bb013e520c02int, 0x4fecc370bfe2695d75a335472e88f422385bb9502910c34d4a242763d079453dint);
}

/// The power `(q - 1) / 2` of the curve constant `d`: the steps from the exponent
/// 995816810067
/// to the exponent
/// 0x39f6d3a994cebea4199ce.
proof fn lemma_power_of_d_part_2(p: int, g: int)
    requires
        p == q(),
        g == 0x2a9318e74bfa2b48f5fd9207e6bd7fd4292d7f6d37579d2601065fd6d6343eb1int,
        pow_mod(g, 0xe7db4ea653, p) == 0x4fecc370bfe2695d75a335472e88f422385bb9502910c34d4a242763d079453dint,
    ensures
        pow_mod(g, 0x39f6d3a994cebea4199cenat, p) == 0x17954742ea4cf731998f142763aecd1e1363b6981640295abbce0a2ae06da6edint,
{
    let e: nat = 0xe7db4ea653;
    let e = lemma_chain_square(p, g, e, 0x4fecc370bfe2695d75a335472e88f422385bb9502910c34d4a242763d079453dint, 0x371a550a7a1854ee3b3476f1610543935b609c7a3e53202ac749d27263124757int, 0x17572f8820555e96d0931073490c8cb82c1173a311ca98e33399e2084351a932int);
    let e = lemma_chain_square(p, g, e, 0x17572f8820555e96d0931073490c8cb82c1173a311ca98e33399e2084351a932int, 0x4b305677cb4ffac079575cb4fbe0d5627eaf9a671559a8183eaf56289673746int, 0x4fd3ace9722595083271ba38a8309a3fe3f59004359670f9a4caf5a0240fd67eint);
    let e = lemma_chain_square(p, g, e, 0x4fd3ace9722595083271ba38a8309a3fe3f59004359670f9a4caf5a0240fd67eint, 0x36f7c2a8e87e8d8abf1aa134e3e0ca5e3929d473f21475989769bf2e2040626bint, 0x391b5e15c11305e50c85a3c6ce5fd1d681933bfcabcbd61fe11c620b263a8399int);
    let e = lemma_chain_multiply(p, g, e, 0x391b5e15c11305e50c85a3c6ce5fd1d681933bfcabcbd61fe11c620b263a8399int, 0x14f8f3cea5127c2d8bfc48c546376342ba790a4805329c7458f239dab2d92b8dint, 0x3898d28440f020e2d8da2cf7274b71a97a39d223d166eb5674d3e574888edf3cint);
    let e = lemma_chain_square(p, g, e, 0x3898d28440f020e2d8da2cf7274b71a97a39d223d166eb5674d3e574888edf3cint, 0x1ba1896655598c5b2351826db4f4e4354f70117a6bd74978f80488630e0bee43int, 0x1cdd0eb685cd65fb96630e7df7a6ffd645c0f5bdbe4984ab18a3292c1b2da7cdint);
    let e = lemma_chain_multiply(p, g, e, 0x1cdd0eb685cd65fb96630e7df7a6ffd645c0f5bdbe4984ab18a3292c1b2da7cdint, 0xa99a049c7d95e58f87c51e3c4ca310f729554ec7de7012d4fca882238a06d8bint, 0x208fce9aba87d6db2613fdedf180c5759d20f2fdf8b5cb6f1689136614383d32int);
    let e = lemma_chain_square(p, g, e, 0x208fce9aba87d6db2613fdedf180c5759d20f2fdf8b5cb6f1689136614383d32int, 0x92558c78360f80ca5b2d3c34e19743804421253eb9d15ffa16d112000b11103int, 0x4c2123c2d7a43343b83d768d03ffb10292301122a923f3e9ee4705a5a3cfccc1int);
    let e = lemma_chain_multiply(p, g, e, 0x4c2123c2d7a43343b83d768d03ffb10292301122a923f3e9ee4705a5a3cfccc1int, 0x1bf55f6cda216e17cb8c7c5ad585d93df031b30d143eec7ce1d197026307ebc7int, 0x40bdeea0cd6a610832ccffc8b263615c2d55e360f0dbc77aa7b1dac206f63aaint);
    let e = lemma_chain_square(p, g, e, 0x40bdeea0cd6a610832ccffc8b263615c2d55e360f0dbc77aa7b1dac206f63aaint, 0x2427f635237a3ab8411ba6f30cb2b34195d51089faf8983ea62655a38527a3int, 0x56069200be9696b6087d31dbf60de1b1b9924838bc57a7e8c8997b1f70b3c541int);
    let e = lemma_chain_square(p, g, e, 0x56069200be9696b6087d31dbf60de1b1b9924838bc57a7e8c8997b1f70b3c541int, 0x3fd60bf9cbb67dac400d7506e9de1c26c3e7407a53d4263cdffd05fa5f63f202int, 0x88a91d0505e360b9d395cdcb3b0b66fc3b16cfac6db42d013ccf29bf17f287fint);
    let e = lemma_chain_multiply(p, g, e, 0x88a91d0505e360b9d395cdcb3b0b66fc3b16cfac6db42d013ccf29bf17f287fint, 0x32304213b7cb71509e5256739b78937c4db1e92d79db0df407dbca9cf20c007int, 0x422bf388993d43c56d41c9bb6f6e9d6e22208cead577f1e207f2da84596501c8int);
    let e = lemma_chain_square(p, g, e, 0x422bf388993d43c56d41c9bb6f6e9d6e22208cead577f1e207f2da84596501c8int, 0x25c54b3239b2b77e4b2bec85cb9855b4f908cb41278c29724b35ad6ea409d994int, 0x551b2654e9f5e7663dc17732111aeb8fd55b96d585ee186cfd5e057cd3c952acint);
    let e = lemma_chain_square(p, g, e, 0x551b2654e9f5e7663dc17732111aeb8fd55b96d585ee186cfd5e057cd3c952acint, 0x3e7a85b79ba873c337408b550a4c27dcc9d5e62626e4fefd82f4cc9da848bad4int, 0x66b1e08c5547884eeca602f9686c7741e81dabedfa6febf88b1c3970cc81e8bcint);
    let e = lemma_chain_multiply(p, g, e, 0x66b1e08c5547884eeca602f9686c7741e81dabedfa6febf88b1c3970cc81e8bcint, 0x25b6f0532257f070c6d91a36ff9a72a3ea613d0a8e0b019185a7b3345fcd9e5cint, 0x2eebabe9e69529a79e13175d2e7a73aee063dfa6b3c977532ecf67c4ea91d3a0int);
    let e = lemma_chain_square(p, g, e, 0x2eebabe9e69529a79e13175d2e7a73aee063dfa6b3c977532ecf67c4ea91d3a0int, 0x12fd942f897bd1ee8e0db3baa987d4cb061b5c2891c0cdfe3a5ab6f70a146002int, 0x34e26da8449e46dc458e2db15bd4178f614a14d79d8f56d5eaff5ffce01cc3feint);
    let e = lemma_chain_multiply(p, g, e, 0x34e26da8449e46dc458e2db15bd4178f614a14d79d8f56d5eaff5ffce01cc3feint, 0x136bfa6d111367e40e253100a422deae78256e2b568f9b7a6e9347f2a758c810int, 0x23aa773eb9da20bc3611b46f11f3d61aefc108f70d4f13290a06c63d679a3e8eint);
    let e = lemma_chain_square(p, g, e, 0x23aa773eb9da20bc3611b46f11f3d61aefc108f70d4f13290a06c63d679a3e8eint, 0xaf9079013a840ff0bb7e2f36a27f7ce3ad44168e1b8093fd4ae9719a1ce4703int, 0x155cf11c6e1d571d47be7de53464d054e6b01a5ce16d173f5faa2daf452cfc1int);
    let e = lemma_chain_multiply(p, g, e, 0x155cf11c6e1d571d47be7de53464d054e6b01a5ce16d173f5faa2daf452cfc1int, 0x7d8770b7da7fc1f06b32c1c34a9cf9264c4b5f703b86640e516c075e33c2a9int, 0x1536e44ee4a4163975a5016e670a01c07c75c5e9d4a9f231ca2d1c0426929fc8int);
    let e = lemma_chain_square(p, g, e, 0x1536e44ee4a4163975a5016e670a01c07c75c5e9d4a9f231ca2d1c0426929fc8int, 0x3e1d4db15fbe85a7d19c27a22baee4fa1095e82bd246362118ee2616d197ef5int, 0xabbcb585be6487f739cc7d101ba6233ab7588572f7b18b97533363d96c08d4bint);
    let e = lemma_chain_multiply(p, g, e, 0xabbcb585be6487f739cc7d101ba6233ab7588572f7b18b97533363d96c08d4bint, 0x3f12021ecb48976c644b3927365fef7da73fb4d23af7e918d3b674fc9b3076bint, 0x166999759575cffacb2a47b2b2f56b6e5e2056f2b2d9902440b1921e78e2d370int);
    let e = lemma_chain_square(p, g, e, 0x166999759575cffacb2a47b2b2f56b6e5e2056f2b2d9902440b1921e78e2d370int, 0x45540f350811293af7d39243c4b6c9c95dd97c7d00dd54bacb30409e12d31a8int, 0x67ace6d1741c0d5fdb9be837e0106ee50e7c4521e2ced0c9dcc4eb111f349f58int);
    let e = lemma_chain_multiply(p, g, e, 0x67ace6d1741c0d5fdb9be837e0106ee50e7c4521e2ced0c9dcc4eb111f349f58int, 0x26132099107197928af8768dc22061eba18df424779dd1e3b19e2f482e7b5723int, 0x19e4721c514510260f4b22e1a2dc4f29eb162f3ffc5c3de092b103b4115e24b5int);
    let e = lemma_chain_square(p, g, e, 0x19e4721c514510260f4b22e1a2dc4f29eb162f3ffc5c3de092b103b4115e24b5int, 0x5c8734ad2f59a0fe91677557023be918de98c660346b7658ae97140b376c9aaint, 0x65b8bae180eb1af8bb4ef78c4b1e9fc162086ba9d2807630144d87050b89e4fint);
    let e = lemma_chain_square(p, g, e, 0x65b8bae180eb1af8bb4ef78c4b1e9fc162086ba9d2807630144d87050b89e4fint, 0x594180a0f4148ac7b198f994c8f5fe0bf5074a9cf235473aa8e3bd64081bb0int, 0x5fa563c43eb0cb861a1b21ef925b8011e17748eec8985a0f277af527ef6d80b1int);
    let e = lemma_chain_multiply(p, g, e, 0x5fa563c43eb0cb861a1b21ef925b8011e17748eec8985a0f277af527ef6d80b1int, 0x23203df6342b9476379539cef88e3e2836a145549182eb3455f7961a3d750ea9int, 0x3071cb916f332deb17b05f933abbff898d61e5e199282e15a69413efec5fc9b8int);
    let e = lemma_chain_square(p, g, e, 0x3071cb916f332deb17b05f933abbff898d61e5e199282e15a69413efec5fc9b8int, 0x143e80b9921eba15024d72f2c7245b309889b4eeed7b32fe893fe9b81373dd2aint, 0x481370cdd0a02206b65ec5f4b81b0963c7a8e8822949ba60d400a8c4820e9716int);
    let e = lemma_chain_square(p, g, e, 0x481370cdd0a02206b65ec5f4b81b0963c7a8e8822949ba60d400a8c4820e9716int, 0x2ccfc8f61cf800348fa33b837b0d8c89d43ffefa8f996473b67bebc53941ec6aint, 0x1448c1df75a9fb38120768445c8e3262d1ba98e463b65002817d0c9bfe51097aint);
    let e = lemma_chain_multiply(p, g, e, 0x1448c1df75a9fb38120768445c8e3262d1ba98e463b65002817d0c9bfe51097aint, 0x7730954aa464cbc8ce872a8d77923d3d96253259afb8fa5baaa7cb1ad3d61f8int, 0x2f7abb1f3a08480f6254e5f2303874ee924f274161ffe0df167bfd16b1ddb762int);
    let e = lemma_chain_square(p, g, e, 0x2f7abb1f3a08480f6254e5f2303874ee924f274161ffe0df167bfd16b1ddb762int, 0x13721253d19562b41c600fa30fe9436a7fd22edac8cb69a9c8f34bca3291f1f9int, 0x1aa7540c20f8b6fb3a41ee66e3a5ce76298d707032ba38fbc3f236a273ff4f8bint);
    let e = lemma_chain_square(p, g, e, 0x1aa7540c20f8b6fb3a41ee66e3a5ce76298d707032ba38fbc3f236a273ff4f8bint, 0x620c88a72a28b24040694f3244ea020776ff63cbf06a5aaa5f3cb06907e02a8int, 0x4d5d0fd613ed6752b0150539ca760a5dbbc234f312b8c47cc894e7a3e12312d1int);
    let e = lemma_chain_square(p, g, e, 0x4d5d0fd613ed6752b0150539ca760a5dbbc234f312b8c47cc894e7a3e12312d1int, 0x33a0b1bd891ff9ca935dc0aa4a8fce8f83b19d2e8ebcb25a5f6f294c9afd9de3int, 0x2fea3775e84a42bce5ba946745145328d0de30fa78cf0a7751d4449ded8a70beint);
    let e = lemma_chain_multiply(p, g, e, 0x2fea3775e84a42bce5ba946745145328d0de30fa78cf0a7751d4449ded8a70beint, 0x1198c2669ee04d8de3edc136662fd5d8eb7db865627c94b45b521ad96eef32e0int, 0x39d7665b0da639f3ac1cf04f4153a4938797476b145bc0de58a983f10faec47eint);
    let e = lemma_chain_square(p, g, e, 0x39d7665b0da639f3ac1cf04f4153a4938797476b145bc0de58a983f10faec47eint, 0x1cdc050b433ad00aa83f9e092ea41b8d875edb79beab8b94098ab8800ac09d2dint, 0x21c6af56a5a20bd3850cc5197616474a118bd19145fadd8274aec03f6b5890d7int);
    let e = lemma_chain_square(p, g, e, 0x21c6af56a5a20bd3850cc5197616474a118bd19145fadd8274aec03f6b5890d7int, 0x9d73dae5acd56ab04d634f6cda410dddce2e62b2029ca1e5c436177ac728274int, 0x15fcf5749c6faf3b5ab613c1551b04860784e2dae0621a8be8501285f350121dint);
    let e = lemma_chain_square(p, g, e, 0x15fcf5749c6faf3b5ab613c1551b04860784e2dae0621a8be8501285f350121dint, 0x42ba4efe7a88e7992c527bdef158026a81f46165aa104594666f7966c178e08int, 0x5a234875000b3adcd7a51f3dfff4361614b8fd75c87ff102d09801f5508941int);
    let e = lemma_chain_square(p, g, e, 0x5a234875000b3adcd7a51f3dfff4361614b8fd75c87ff102d09801f5508941int, 0x4615bcf1110d6ba6c95104c61526219240bc11cd591e9d86edadd7540b2eint, 0xe6653a353ddd19e1c15093a9549ac44391f58ff540c3a76c01ea00ea4e29753int);
    let e = lemma_chain_square(p, g, e, 0xe6653a353ddd19e1c15093a9549ac44391f58ff540c3a76c01ea00ea4e29753int, 0x1c9e3029eeaf0dfdf58fdfe3dda11965ce0e20d1c3569d9709b05eac4956811int, 0x1acce7d73f951c96eaf612e556735eee33bd6fe66bc8dbaffb91c9ac1b699cd8int);
    let e = lemma_chain_square(p, g, e, 0x1acce7d73f951c96eaf612e556735eee33bd6fe66bc8dbaffb91c9ac1b699cd8int, 0x6321c2f4a972a3a5c501aa9109655e4dface4b0a6724211450d65f7f8811a2aint, 0x2be31e0fdfa33807b523d9bea01ac84b4bf90781c5df0354a1491919a0c6dc16int);
    let e = lemma_chain_multiply(p, g, e, 0x2be31e0fdfa33807b523d9bea01ac84b4bf90781c5df0354a1491919a0c6dc16int, 0x101e16c39c6c698b3139a96867580d9d1d73674c0e66130be1d73a102fabd8afint, 0x5af32b29ce3f96c7fad87c809c7bef411e47b9c02c3df8fa7b7a370a3b97a687int);
    let e = lemma_chain_square(p, g, e, 0x5af32b29ce3f96c7fad87c809c7bef411e47b9c02c3df8fa7b7a370a3b97a687int, 0x475a7811d577ac480f3917b5aa183d6eaa155df6507b07309915e77df9576a1fint, 0x682336ec048a4ed6e40d8ef4964685c862ae9220fe13e2acb233c7c5203df112int);
    let e = lemma_chain_multiply(p, g, e, 0x682336ec048a4ed6e40d8ef4964685c862ae9220fe13e2acb233c7c5203df112int, 0x263e93e1f051b0c3a83813074eb61588c9065776618f36f2e7adad1b0c7da352int, 0x34b90add0a3e89eb5b60d3bdcb9cfb65567f1305ca91a15deaa65a7742606620int);
    let e = lemma_chain_square(p, g, e, 0x34b90add0a3e89eb5b60d3bdcb9cfb65567f1305ca91a15deaa65a7742606620int, 0x17fa4b3095316ac8c492521125d314b56ac4cd97f8acbf62e830dd88a366d41dint, 0x282cecf300cda56757ee78a32da2d282d34f404e69a35b743b5941499d56afe3int);
    let e = lemma_chain_square(p, g, e, 0x282cecf300cda56757ee78a32da2d282d34f404e69a35b743b5941499d56afe3int, 0xdec49a36aa23848caf78d3a60e1631bd76577e63faf4a7678232e1e16e14c0aint, 0x1f65a486f5a2fbfb18234668a30858dc6817fce2bd1e31d3ae092478fc7ad73fint);
    let e = lemma_chain_square(p, g, e, 0x1f65a486f5a2fbfb18234668a30858dc6817fce2bd1e31d3ae092478fc7ad73fint, 0x880d8bc027fc352d605d3b6296b29e51c7d4ae4669607af40a98c386c792c03int, 0x3aa6a00cc2f6a35d4362fb13a7662b68e075eac9d15589d32af33590788db57eint);
    let e = lemma_chain_multiply(p, g, e, 0x3aa6a00cc2f6a35d4362fb13a7662b68e075eac9d15589d32af33590788db57eint, 0x158a1c47fae85d246690aa40098ea953c2f26f7f9652157e7249eb8019799c57int, 0x4437e3f42e33be5478c3d4d59f33c0b122d5afa4f975a12b023322c0c40d63c7int);
    let e = lemma_chain_square(p, g, e, 0x4437e3f42e33be5478c3d4d59f33c0b122d5afa4f975a12b023322c0c40d63c7int, 0x2824abaa76817412ae48d3a09d9d9715d223010ad99bbc37b23f15ba61f7c6feint, 0x48a82a66a36bdb77ee9f410fd0d3f79549abb012a38fc379c5bdb93f9f21bdb3int);
    let e = lemma_chain_multiply(p, g, e, 0x48a82a66a36bdb77ee9f410fd0d3f79549abb012a38fc379c5bdb93f9f21bdb3int, 0x1aaee5cd00a5ac57373ca9279ae261595f594cb620c54209f300eebd9fae6023int, 0x481e8ed4b257e2f5f17455a335413b42a5d7b8f780c24a7d87676fcbcf322a0int);
    let e = lemma_chain_square(p, g, e, 0x481e8ed4b257e2f5f17455a335413b42a5d7b8f780c24a7d87676fcbcf322a0int, 0x2cdd9cf0681e79e06ef27bee0c0a4573db8cf9a74a21e72265a15b9adfdde5int, 0x4b5df07bd36ac80bc8cfa1cf14fc1694b5c1bb31eb21b0601207e94f258f061bint);
    let e = lemma_chain_square(p, g, e, 0x4b5df07bd36ac80bc8cfa1cf14fc1694b5c1bb31eb21b0601207e94f258f061bint, 0x30ff501e1a7053f34f605da70f4ab0cfff69a7f4d20c21a9c3e27c1ed39141dcint, 0x50ad7835dc935518b1b9c4838967244b4195cbd3c6519615be0e5812ccbe04fdint);
    let e = lemma_chain_square(p, g, e, 0x50ad7835dc935518b1b9c4838967244b4195cbd3c6519615be0e5812ccbe04fdint, 0x38254caf653ed0aa49e8e10f7f61d20580f666b480e3d335c495ff36cb567d58int, 0x88b512a6b0a70c626c8bd811ccf83da7fde36dc6611b92f305286b3d44e64b1int);
    let e = lemma_chain_multiply(p, g, e, 0x88b512a6b0a70c626c8bd811ccf83da7fde36dc6611b92f305286b3d44e64b1int, 0x3234a67582e4e1cd34632727c25037a3d5ba8354b41940041b777bcce21bd49int, 0x68bf55628691843b4e993a66e20802df6f63bebdc3c7c7554025785b6268bf18int);
    let e = lemma_chain_square(p, g, e, 0x68bf55628691843b4e993a66e20802df6f63bebdc3c7c7554025785b6268bf18int, 0x5ea513598d22b6751fc2e24343065f1575337412d52d73325a3a42c28d371041int, 0x631d4c9c4b67ff8649fa783f9441858ef5a2b98cf7195875bf5f85b8a4edc1ffint);
    let e = lemma_chain_multiply(p, g, e, 0x631d4c9c4b67ff8649fa783f9441858ef5a2b98cf7195875bf5f85b8a4edc1ffint, 0x246653813790aeceed5915c9ce9500276d9526df071481cd66e0e31110bfce60int, 0x64a8de0019088f0a3c3ed57389415575e267f492ca585e524565248b1e6b14efint);
    let e = lemma_chain_square(p, g, e, 0x64a8de0019088f0a3c3ed57389415575e267f492ca585e524565248b1e6b14efint, 0x5766e643eaf29fb2c51c060bf772dbff8e76aca4527f17b032f542c0786287f7int, 0x13873af94a88cfee2c930cfa804820c57a593fcb89960212c9cc7e730d1daf2aint);
    let e = lemma_chain_multiply(p, g, e, 0x13873af94a88cfee2c930cfa804820c57a593fcb89960212c9cc7e730d1daf2aint, 0x72bf6bc714a111e3990ded1ef514f00f4a3505f859ec7bdf504ce9f70e80142int, 0x2e7df55fbcf92897bb3503553179690621641f4fc9d0cfe6a508faec819246c8int);
    let e = lemma_chain_square(p, g, e, 0x2e7df55fbcf92897bb3503553179690621641f4fc9d0cfe6a508faec819246c8int, 0x12a52ca44fa2de418b53e5cf4c9a8fe5bb0b0328efe20259076ae7bca2ad5f66int, 0x522e051e43f34ef027bb6fcf90b1480008c83a3124c9ac1cb1485753bd049cdaint);
    let e = lemma_chain_square(p, g, e, 0x522e051e43f34ef027bb6fcf90b1480008c83a3124c9ac1cb1485753bd049cdaint, 0x3a418528b4dc5b5b99a96ed4827bf3f627636f4540b00ea5bc1569bc182d94d6int, 0x320a4c0fa02c5476076c323931a8b10850a78978e2200f749e1dc2512bcd4ceint);
    let e = lemma_chain_square(p, g, e, 0x320a4c0fa02c5476076c323931a8b10850a78978e2200f749e1dc2512bcd4ceint, 0x159989b79164b02f7dd279f9057c0c95a08c366240f733e9eb88db4f0213b1int, 0x48bb9e6c856fbeb9df2268ce52e1ec9804eb2a0251400dbaece93797e873c213int);
    let e = lemma_chain_multiply(p, g, e, 0x48bb9e6c856fbeb9df2268ce52e1ec9804eb2a0251400dbaece93797e873c213int, 0x1ab60ab5f0c2bf8ea10363424c55852f346d296011171faa30358d4e09334945int, 0x2ace6cef4ab54dc1e512f72f1b8a3e675482c8bd0dddf6e94e1b3aec05b27fdeint);
    let e = lemma_chain_square(p, g, e, 0x2ace6cef4ab54dc1e512f72f1b8a3e675482c8bd0dddf6e94e1b3aec05b27fdeint, 0xfce618112b135678c4e7d07d5fa59e7f05689e0665d486ba08d762c3c2b63dcint, 0x4c6b71b1a89625602e551a8567143b00cc1ac836b2f9b17a3f9ebc74806aa0a8int);
    let e = lemma_chain_multiply(p, g, e, 0x4c6b71b1a89625602e551a8567143b00cc1ac836b2f9b17a3f9ebc74806aa0a8int, 0x1c10a93772287e10b2ffeeaae14ff8f8be5893f897452d47cb0599d3a4c63e4cint, 0x214d28a5bcc218a63d3236fe6e13b343c35c5369a7ad5ca949d9048409fb85dcint);
    let e = lemma_chain_square(p, g, e, 0x214d28a5bcc218a63d3236fe6e13b343c35c5369a7ad5ca949d9048409fb85dcint, 0x990ecaa33e97c128eba67f6acd29b693905989746251991409d76665dd8aff3int, 0x6edf5f0e71596e8da86339106d56e28ca224a49cb83f586aac27caf5dd8da51dint);
    let e = lemma_chain_multiply(p, g, e, 0x6edf5f0e71596e8da86339106d56e28ca224a49cb83f586aac27caf5dd8da51dint, 0x28b7c5e4bb7695dd6ea2ad5dec9c52400bda031bfbabf9598ba43969ead9ad85int, 0x6639f27c2bd8c821768b259568a1d04ff398e143f6a445ca8b6185cb59f68188int);
    let e = lemma_chain_square(p, g, e, 0x6639f27c2bd8c821768b259568a1d04ff398e143f6a445ca8b6185cb59f68188int, 0x5a24d437c477dcea4b00549a6caa732633ef0c72fcddf157eee4b845e27cb153int, 0x17954742ea4cf731998f142763aecd1e1363b6981640295abbce0a2ae06da6edint);
}

/// The power `(q - 1) / 2` of the curve constant `d`: the steps from the exponent
/// 0x39f6d3a994cebea4199ce
/// to the exponent
/// 0x73eda753299d7d483339d80809a1d8054.
proof fn lemma_power_of_d_part_3(p: int, g: int)
    requires
        p == q(),
        g == 0x2a9318e74bfa2b48f5fd9207e6bd7fd4292d7f6d37579d2601065fd6d6343eb1int,
        pow_mod(g, 0x39f6d3a994cebea4199cenat, p) == 0x17954742ea4cf731998f142763aecd1e1363b6981640295abbce0a2ae06da6edint,
    ensures
        pow_mod(g, 0x73eda753299d7d483339d80809a1d8054nat, p) == 0x1a5a93e598bd7d94ec6d2b38b9f4a7d7a552d7283dbbd9d007ab26cc1fe878d3int,
{
    let e: nat = 0x39f6d3a994cebea4199cenat;
    let e = lemma_chain_square(p, g, e, 0x17954742ea4cf731998f142763aecd1e1363b6981640295abbce0a2ae06da6edint, 0x4cc276ee1e964a116f1386d60e84f111ef697a9365bb731c8670d15f850974aint, 0x536b3281672ccbf58806d1a19f07b17c768cd9d0e2eb60e00d1ae70e5a59a01fint);
    let e = lemma_chain_multiply(p, g, e, 0x536b3281672ccbf58806d1a19f07b17c768cd9d0e2eb60e00d1ae70e5a59a01fint, 0x1ea2ae5b9e6dde1080df7b8eb27789f97d345a3117511e3a55c14314f835c349int, 0x5ae524862fb294507a972596b9af94b5079892f226aac9b0cd865bfaa4d57426int);
    let e = lemma_chain_square(p, g, e, 0x5ae524862fb294507a972596b9af94b5079892f226aac9b0cd865bfaa4d57426int, 0x474477ccc6cbfcc372414485390c98aee693c76f2b7331412edbe627ac694a38int, 0x596e9192f254459a063ff9a620176c1fb660674da55fd16f0cf171137f852b6cint);
    let e = lemma_chain_multiply(p, g, e, 0x596e9192f254459a063ff9a620176c1fb660674da55fd16f0cf171137f852b6cint, 0x20d8039de7e8011044f052dbf8099a0c18a8242363c79f819fe36178bfe47d28int, 0x332be6600fa4dabafa683911658e7006592214df7887fa8c45d99cadc5a2b084int);
    let e = lemma_chain_square(p, g, e, 0x332be6600fa4dabafa683911658e7006592214df7887fa8c45d99cadc5a2b084int, 0x16966079d2c15494823044d3736b391a5a6d17d607800e1cf699c8e1142c8b47int, 0x6fc7a08cc3f91bfd3d847d6ab6c164e162cccef898b8a23482f1ffdcf49938c9int);
    let e = lemma_chain_square(p, g, e, 0x6fc7a08cc3f91bfd3d847d6ab6c164e162cccef898b8a23482f1ffdcf49938c9int, 0x6bc79b103a06eaa9df383542adb1e20324d2c8e3bab898147eb4e28d679f0b9aint, 0x1268a09d2e738260047513b1c7f61490111a3a06dbdb87e2878aa078ad3b8237int);
    let e = lemma_chain_square(p, g, e, 0x1268a09d2e738260047513b1c7f61490111a3a06dbdb87e2878aa078ad3b8237int, 0x2ec5604fbf4696dc9abd91d3d0219de6c2bc73f6956b07bddd59cbc294ca1deint, 0x54515e07dc865555ff361c57ad79904eed40736689444a25f08b5485744945f3int);
    let e = lemma_chain_square(p, g, e, 0x54515e07dc865555ff361c57ad79904eed40736689444a25f08b5485744945f3int, 0x3d53a06ca48c8d66786ea2264c0c4981ba64cda03c1fbc8713d31308f82cd492int, 0x2ef7532d8eea8ac72cfdbcfb1dbc6f158c16efb433ebed9918646437861017int);
    let e = lemma_chain_square(p, g, e, 0x2ef7532d8eea8ac72cfdbcfb1dbc6f158c16efb433ebed9918646437861017int, 0x1307043cc81e1c8c1bc502febad3a633894c3cd42b4e09568d756519f6a4int, 0x6826f3fd896327d2d54f1057384165fc2af184383fb6885c076cd44555fceb6dint);
    let e = lemma_chain_square(p, g, e, 0x6826f3fd896327d2d54f1057384165fc2af184383fb6885c076cd44555fceb6dint, 0x5d927d8829d21d000cb92a19114e8d4a673392b82e8c97fe68d12d065acb3fb0int, 0x1bf61433f5da7f138b5d5e71997687406775a6728bace688e91771a25e4e0cb9int);
    let e = lemma_chain_square(p, g, e, 0x1bf61433f5da7f138b5d5e71997687406775a6728bace688e91771a25e4e0cb9int, 0x6be7cc387e81c283d650ac3c662599ac49f59f39f74ea2e4f83229ceb79c608int, 0x2dcb61f01095cdb96ef0bcaf03bb3ff914f89b810216d2720bf578b2b1e417a9int);
    let e = lemma_chain_square(p, g, e, 0x2dcb61f01095cdb96ef0bcaf03bb3ff914f89b810216d2720bf578b2b1e417a9int, 0x1217042efa38555abaf43328854ee60192daec12042def4fe649fda43a134308int, 0x36b8621497f83eb1639b3ebb8d8e6b594853d7b6ab64e3ffd63fd0599f248a89int);
    let e = lemma_chain_multiply(p, g, e, 0x36b8621497f83eb1639b3ebb8d8e6b594853d7b6ab64e3ffd63fd0599f248a89int, 0x1418919bf93785702a9ad43ebab2c41bc3b21a0d03f9a19999a025b1f96d290dint, 0x816acb5722420fb34447ce67ab34cb54935f94c52cb59c293c94a9d9237cdacint);
    let e = lemma_chain_square(p, g, e, 0x816acb5722420fb34447ce67ab34cb54935f94c52cb59c293c94a9d9237cdacint, 0x9079b9900ac7d50eaa433a9c51eea82433a4c107acf7243ed0f193ac0d1a15int, 0x3a69d747ce5433023048e1609e22911ca58e92d36174048ddc31903b8917d17bint);
    let e = lemma_chain_square(p, g, e, 0x3a69d747ce5433023048e1609e22911ca58e92d36174048ddc31903b8917d17bint, 0x1d6edf8e7184fa161a6909638e8c3545067e62a32a65b78923bbf0368cf9dcb4int, 0x111897993ee87ba88571bbd44bc3519f5f87bcbe2056721c48635b9c688a3465int);
    let e = lemma_chain_square(p, g, e, 0x111897993ee87ba88571bbd44bc3519f5f87bcbe2056721c48635b9c688a3465int, 0x2856b96a3bb5a52cab85e759d5bb2e29777838a619d0ebd15b102adefbb3d36int, 0x305e3c3f94e6a4c7b1099cf549f5644e4499e4d8338c5d7e048878cea7e1f2a3int);
    let e = lemma_chain_square(p, g, e, 0x305e3c3f94e6a4c7b1099cf549f5644e4499e4d8338c5d7e048878cea7e1f2a3int, 0x142e2b13209e9ed0e53a5e2d0c0ad56a1c31ce773dab223e2e74db5684674d54int, 0x5a333d49922c0ee6d58cbb7915ef828175737727badff0bdac56524e8e174675int);
    let e = lemma_chain_square(p, g, e, 0x5a333d49922c0ee6d58cbb7915ef828175737727badff0bdac56524e8e174675int, 0x462e8f4c833762a0e8a3552915858c8aff40fb5ed4d58b5ff580a07ad3d69746int, 0x3deed7fcd164719cefa6638fbcb799e7fc1ca0e9312d16953b21ae5eb4939a33int);
    let e = lemma_chain_square(p, g, e, 0x3deed7fcd164719cefa6638fbcb799e7fc1ca0e9312d16953b21ae5eb4939a33int, 0x211636b654a8e31c9cf16c876fd5e5c97bf37435609e588a1afac089bd8edb42int, 0x147c389246ecb6a2ac5bc25516768c18f482ffee384f4642a71c921e6de48ae7int);
    let e = lemma_chain_square(p, g, e, 0x147c389246ecb6a2ac5bc25516768c18f482ffee384f4642a71c921e6de48ae7int, 0x39eaf824bfbd66303f2a671cd787596ec90400b212a5b49850ba9e55bd41c19int, 0xa2bf3dd9688ab4a5174213d953e1253d04d44752b9d51ff3a7ce6a81101c058int);
    let e = lemma_chain_square(p, g, e, 0xa2bf3dd9688ab4a5174213d953e1253d04d44752b9d51ff3a7ce6a81101c058int, 0xe479513e2ded02e1a95bb2dc9e53739f3abf82de32802aa83d9f2b7207149cint, 0x5258ca96238bd756aa426eac2ed3338809e2f4fbd5eb4ac7815447f4f2d09a4int);
    let e = lemma_chain_multiply(p, g, e, 0x5258ca96238bd756aa426eac2ed3338809e2f4fbd5eb4ac7815447f4f2d09a4int, 0x1e3de7dbff4e4102616c9d2edc539ce95132c0c29394746dd087c455a1f104aint, 0xf1a9bce464797630b2050855c568a4c2e9a7ea0521146ec47f6b8459aa521aint);
    let e = lemma_chain_square(p, g, e, 0xf1a9bce464797630b2050855c568a4c2e9a7ea0521146ec47f6b8459aa521aint, 0x1f7c4b1b32bb938ceb7d87fbb572f2f3a21b4d6be7000b4939ba2dae9bb93int, 0x69e817e7ecccaf3a1153ccb439ea2dca5490f2d18e285da363d065275df2ef11int);
    let e = lemma_chain_square(p, g, e, 0x69e817e7ecccaf3a1153ccb439ea2dca5490f2d18e285da363d065275df2ef11int, 0x60c051ccbce834219278bf3005c3effcb7b1ab078f44330c6b83702e577645bdint, 0x54b5da7d54139ea6cc18f53460f505591aa0b7a2ef19066000b57ef7ddee7964int);
    let e = lemma_chain_square(p, g, e, 0x54b5da7d54139ea6cc18f53460f505591aa0b7a2ef19066000b57ef7ddee7964int, 0x3de623ba24dd37c6158535d5fec3f3ac34c1719c9470cb1f8cbde881067bfad8int, 0x4ee9725859e22049d86936fee0926e0f4b8132e63ddff4e5e3385d0b9103b438int);
    let e = lemma_chain_multiply(p, g, e, 0x4ee9725859e22049d86936fee0926e0f4b8132e63ddff4e5e3385d0b9103b438int, 0x1cfaf78c4fb47c326ad95f63c72333fe448cd066345212abaae34de439d4bd58int, 0x3496d3b17e7c905072e3212fcf8f2c35a48c360bcf6c325aeb4e8dc95ac06d60int);
    let e = lemma_chain_square(p, g, e, 0x3496d3b17e7c905072e3212fcf8f2c35a48c360bcf6c325aeb4e8dc95ac06d60int, 0x17db362806e9d69efde0fc553029339665efc3322891dd279345eae206d1cdc8int, 0x269b7c7379f1e7070f130c55040c6b92a38ea19e8c00656af4df4131b7e91638int);
    let e = lemma_chain_multiply(p, g, e, 0x269b7c7379f1e7070f130c55040c6b92a38ea19e8c00656af4df4131b7e91638int, 0xe2db40a9c99283fc2eae5ee93a5c544006c0d0254e985cfa9cbda6c6cdca9aaint, 0x6d595d0864cfbdd5b2f75b91c1007a164eeb4bfcc8521a0cea747be3820d430eint);
    let e = lemma_chain_square(p, g, e, 0x6d595d0864cfbdd5b2f75b91c1007a164eeb4bfcc8521a0cea747be3820d430eint, 0x6724a951e68a1151697f033e65996fa16f5616a83ce74b3ec35e0a89008ddbe8int, 0x1ca345e085ad437e259eab19c20056792c430c606784e0453de5a8fd186e78dcint);
    let e = lemma_chain_square(p, g, e, 0x1ca345e085ad437e259eab19c20056792c430c606784e0453de5a8fd186e78dcint, 0x7130b7e76b76d6241b71e4f46ddfacefa034301b2c3aa425dc0cdb372ab1cd0int, 0x53a3521373b5c1e1b17cafd2a25d704b9075a69364db2c6071d2d849e373e040int);
    let e = lemma_chain_multiply(p, g, e, 0x53a3521373b5c1e1b17cafd2a25d704b9075a69364db2c6071d2d849e373e040int, 0x1eb74ad68602ae77c1d1c66ec6ea321d4d00161a88746343a41d5cc16b5459edint, 0x2705ca9a00b2bd96232976ccb34f33929541e717e72a1c8fe21ab3d6f5193253int);
    let e = lemma_chain_square(p, g, e, 0x2705ca9a00b2bd96232976ccb34f33929541e717e72a1c8fe21ab3d6f5193253int, 0xd22a998a77bd641c0536263a9667dc78e8d69571fc801ff7caa9b94ba5f88f7int, 0x5bf10c4051d4201637565a2b65d403d538273131051c547eefba5ef401bafdf2int);
    let e = lemma_chain_square(p, g, e, 0x5bf10c4051d4201637565a2b65d403d538273131051c547eefba5ef401bafdf2int, 0x48eafeced5f48d1ca570db54c1823daa6fe926a4f5d7b3959615d4085ced46a3int, 0x2ba3a220e696315c7438e1c5867c5a7ecabf814a69bd610945743e7c86a2f221int);
    let e = lemma_chain_square(p, g, e, 0x2ba3a220e696315c7438e1c5867c5a7ecabf814a69bd610945743e7c86a2f221int, 0x106d5da821bf17120c3765aac9f8d36e96d60987007e86dc4d92b8d4e713f290int, 0x6f443fd5c145cbb4b68b365d594c78cd13aebf244876d4d5735ac2e4fbb275b1int);
    let e = lemma_chain_square(p, g, e, 0x6f443fd5c145cbb4b68b365d594c78cd13aebf244876d4d5735ac2e4fbb275b1int, 0x6acad5a3b8ce8055ff1d191b04c716a29b94a27044f79fc284410465e02399eaint, 0x3d7591840f1e77cf805e55e85385b4da36fa4f665885109aea0febfd161baa77int);
    let e = lemma_chain_square(p, g, e, 0x3d7591840f1e77cf805e55e85385b4da36fa4f665885109aea0febfd161baa77int, 0x2095215a34ca01adfae0c4df2b5408d1b771790121b2d9ab541a5ce028082a9eint, 0x3f6b595a679287b51cb0c84a9894fe5d1331b9ccec36a8a9d96dfb3db29418b3int);
    let e = lemma_chain_multiply(p, g, e, 0x3f6b595a679287b51cb0c84a9894fe5d1331b9ccec36a8a9d96dfb3db29418b3int, 0x174a6ba1f03dfcbe604d9f3937a921b217b8f20b09fb536a1907fe66f9bd666fint, 0x1b5f99019a7b0dd663ab87844fa778bce0f846f2740527dbf892344d02ff0754int);
    let e = lemma_chain_square(p, g, e, 0x1b5f99019a7b0dd663ab87844fa778bce0f846f2740527dbf892344d02ff0754int, 0x676a8f364879ffab4181beccd2c0afb0cb9a051bb19c84a79c6b2f0818329b4int, 0x564c9ded30d70cf96112ded48f5e222c66aa353496ca6f8b8bf9f978680a89dcint);
    let e = lemma_chain_multiply(p, g, e, 0x564c9ded30d70cf96112ded48f5e222c66aa353496ca6f8b8bf9f978680a89dcint, 0x1fb17f77747a12b039df824df668637ddedc4b159024e5e57b26354bea83cec9int, 0xd2d9c4a63a2ad0a066ed473a03503f1df1f2bbacac249970e2c12397ad8ca53int);
    let e = lemma_chain_square(p, g, e, 0xd2d9c4a63a2ad0a066ed473a03503f1df1f2bbacac249970e2c12397ad8ca53int, 0x17f7edbe06133086759ca94fd00aeee981cd3afc4e113d8216c4a6b1cad30aaint, 0x3851c3e1d9d5ac50c1958a67cbb940acc4d11f8e5c7b65fc07ba03a20b49e63fint);
    let e = lemma_chain_multiply(p, g, e, 0x3851c3e1d9d5ac50c1958a67cbb940acc4d11f8e5c7b65fc07ba03a20b49e63fint, 0x14aee9ff2d40c5cb6a6a49e6ecd3984a0c56330f62bb8dd7f223a44b1584e111int, 0x14755f5a7e83d1e9f6e4d8e6e7aee52ca1477ea1dc1e03183aeae9b10d22927eint);
    let e = lemma_chain_square(p, g, e, 0x14755f5a7e83d1e9f6e4d8e6e7aee52ca1477ea1dc1e03183aeae9b10d22927eint, 0x39c444e1caa9b15561e364771b316507cbd947b3d11550ef525ee5119a9a483int, 0xf7293e4da40e36e134c9b198a50d7a8031aeeca960b075624002bf9efa25181int);
    let e = lemma_chain_square(p, g, e, 0xf7293e4da40e36e134c9b198a50d7a8031aeeca960b075624002bf9efa25181int, 0x20ef3973b883d33824537e7fef82def97dc1751303287c82902a8004c8541daint, 0x63715747fb4900f5ff3260f40cb220210112b6e446ec6c2efcf6f7e5d2b1a127int);
    let e = lemma_chain_multiply(p, g, e, 0x63715747fb4900f5ff3260f40cb220210112b6e446ec6c2efcf6f7e5d2b1a127int, 0x248530c0980dafd5f48190d203e9a002858e5c107dbca41e414dc6746c99602dint, 0xa13acc0d0c26962d3ed51dab2895bf7bab220738bbb558b541a210b9b2a7dcaint);
    let e = lemma_chain_square(p, g, e, 0xa13acc0d0c26962d3ed51dab2895bf7bab220738bbb558b541a210b9b2a7dcaint, 0xe03bc2490c90ca88aa248ef4cdfa2f1ccd12239aa0cff96de334845d83e144int, 0x32e9e0171a9404f5d1388d935f84a8a7e5c00022bf95f8e0b4ca0b7bc2930220int);
    let e = lemma_chain_multiply(p, g, e, 0x32e9e0171a9404f5d1388d935f84a8a7e5c00022bf95f8e0b4ca0b7bc2930220int, 0x12b2ae76862c7602a280bbc7c229d832dc7cbb54e1183aeda875b25345a84d72int, 0x1a683a4228932912a9ae09508e17affc74be3840d8a3847eb6e495330affeaaeint);
    let e = lemma_chain_square(p, g, e, 0x1a683a4228932912a9ae09508e17affc74be3840d8a3847eb6e495330affeaaeint, 0x603e6e689eb2bbb1897feccf4b3818c7d55e94588bc5ce15bb6fda19273ccd6int, 0xdbad8c30509917735268fb6fd8070ea04aaadc14683e762ee4bdab36352c16eint);
    let e = lemma_chain_square(p, g, e, 0xdbad8c30509917735268fb6fd8070ea04aaadc14683e762ee4bdab36352c16eint, 0x1a0471c06667ab8a76811643dccd99b1dc2b0ff2213c0de48ff7b2999da0c62int, 0x53e476e6beb195a1a3751c9bb9319b5a20556a596cbb3fe82d018567f6c4fee2int);
    let e = lemma_chain_square(p, g, e, 0x53e476e6beb195a1a3751c9bb9319b5a20556a596cbb3fe82d018567f6c4fee2int, 0x3cb59c3973d923299b7a243e3948ee8b015f5858b8cc1e0a20faa41c7e23e783int, 0x3306488580b6dd747a91adfcccd2445a0c12303f3e8eefc002862b421b15801int);
    let e = lemma_chain_square(p, g, e, 0x3306488580b6dd747a91adfcccd2445a0c12303f3e8eefc002862b421b15801int, 0x16753753e6c4b2a526f0a477d1ec2b937f183453f0900870ce91756252542dint, 0x4cf4782b24878e8d23909f7d279a0b24f5ff2a400c3a37889f077baaaf505bd4int);
    let e = lemma_chain_square(p, g, e, 0x4cf4782b24878e8d23909f7d279a0b24f5ff2a400c3a37889f077baaaf505bd4int, 0x331577331ab8c8dfdf33a155e532b7079e46ba03a56e153f259d61749b52c237int, 0x4a40dfa2657306e813f70ee15ce6da81acf904692fe3d2675a540517c21da559int);
    let e = lemma_chain_square(p, g, e, 0x4a40dfa2657306e813f70ee15ce6da81acf904692fe3d2675a540517c21da559int, 0x2f8f6625a16b589e34aecffd708180bd67107e9e8ae7f56d85657e6a47d4ba09int, 0x691d1b87586671010f4aa451015832419c30320210ae442475d15da67d211ee8int);
    let e = lemma_chain_square(p, g, e, 0x691d1b87586671010f4aa451015832419c30320210ae442475d15da67d211ee8int, 0x5f4ed4d9c9b61d7891444beebff860d8c650d4cce9125ebe1c0d69a3143dce64int, 0x53d04eff2dda3b5e187e54dde16e72d18bc23241b56bd40e13926618774d63dcint);
    let e = lemma_chain_square(p, g, e, 0x53d04eff2dda3b5e187e54dde16e72d18bc23241b56bd40e13926618774d63dcint, 0x3c9873b805e2a13bce2672cc85bb958609f24ec81158f49805c6604d8920040dint, 0x3d84cdbe5d6ad967801467d1fd3a9249d21b69b30e4b225353f8b73b382be103int);
    let e = lemma_chain_square(p, g, e, 0x3d84cdbe5d6ad967801467d1fd3a9249d21b69b30e4b225353f8b73b382be103int, 0x20a54ac1727e3cedcd8723369f1d0e7ce5ea88a641b9502d58b46909bfbbd596int, 0xd8adef1d2c1d51143ab0385e380924b2ffa30a92d6abb51fb16a7e4ed0c7073int);
    let e = lemma_chain_multiply(p, g, e, 0xd8adef1d2c1d51143ab0385e380924b2ffa30a92d6abb51fb16a7e4ed0c7073int, 0x4f934b4402070454258d3bf8e7e88f7d74ce23348062018c86d2f7c44db9282int, 0x637d409b6d9c6b826005dd3504c3bf7a9ebcd5abb4c25979e83d235f9d560701int);
    let e = lemma_chain_square(p, g, e, 0x637d409b6d9c6b826005dd3504c3bf7a9ebcd5abb4c25979e83d235f9d560701int, 0x55619e3680627b88458913c488e74fa35350cab4c4be1c3eabb21866a2c7e622int, 0x47631be6bf2f2dfaef80c3768af719379392ac3ea12ba8ca05e7f94c1527dfint);
    let e = lemma_chain_square(p, g, e, 0x47631be6bf2f2dfaef80c3768af719379392ac3ea12ba8ca05e7f94c1527dfint, 0x2bf59267a9e29423c5c1da05b74759fbda97037504b133b3c65425ba24e5int, 0x39cac0d9eeb55f3fe05daada6704083e73646342a2a0f0ab274f1cad3118f5cint);
    let e = lemma_chain_multiply(p, g, e, 0x39cac0d9eeb55f3fe05daada6704083e73646342a2a0f0ab274f1cad3118f5cint, 0x15395cd8ec13769f4533129999d89c1cd59c67d8c0c32450c118011b7babb35int, 0x62fb50d4c98496b06ab465fcb6c4cb87ec61626587d11800b7c00fcd7ed1ab67int);
    let e = lemma_chain_square(p, g, e, 0x62fb50d4c98496b06ab465fcb6c4cb87ec61626587d11800b7c00fcd7ed1ab67int, 0x54832a26e828ed7cb445f025c909b8075e10dfdc2273879a74644acf33d2da05int, 0x96c467b470f7f1847c28d511f7b6d2f48d2061c44cd89908a4349e811de96cint);
    let e = lemma_chain_square(p, g, e, 0x96c467b470f7f1847c28d511f7b6d2f48d2061c44cd89908a4349e811de96cint, 0xc4136d3bedb65daec6db31910097050f5302fa507915bb288c24e3046a28int, 0x304895b6cddd5c702a989efe699dc2de16ecbf3107c573d0c31b0810ac495b68int);
    let e = lemma_chain_multiply(p, g, e, 0x304895b6cddd5c702a989efe699dc2de16ecbf3107c573d0c31b0810ac495b68int, 0x11bb6a809a8bc39501eb751c10708eaeda660b2bb42fcaaae22ff2d6a71caa47int, 0x2e46fe20748b9e31195ccdeecbabcaacfd2f4af0717cc5a894a7a6f0bcdeb8a1int);
    let e = lemma_chain_square(p, g, e, 0x2e46fe20748b9e31195ccdeecbabcaacfd2f4af0717cc5a894a7a6f0bcdeb8a1int, 0x12793068135056459fa7c7eeb34f3f5ac3a639f0232e019895c8716124c20c63int, 0x16d41f904140eddffabba33d8c7ac63d75bbc64833760cde1d6a75d30fa1c8deint);
    let e = lemma_chain_square(p, g, e, 0x16d41f904140eddffabba33d8c7ac63d75bbc64833760cde1d6a75d30fa1c8deint, 0x47ed32022f410ce788762a9ea7a64e95dbe4b6d37517d536c5c66a128ef27b1int, 0x1a5a93e598bd7d94ec6d2b38b9f4a7d7a552d7283dbbd9d007ab26cc1fe878d3int);
}

/// The power `(q - 1) / 2` of the curve constant `d`: the steps from the exponent
/// 0x73eda753299d7d483339d80809a1d8054
/// to the exponent
/// 0x73eda753299d7d483339d80809a1d80553bda402ffe.
proof fn lemma_power_of_d_part_4(p: int, g: int)
    requires
        p == q(),
        g == 0x2a9318e74bfa2b48f5fd9207e6bd7fd4292d7f6d37579d2601065fd6d6343eb1int,
        pow_mod(g, 0x73eda753299d7d483339d80809a1d8054nat, p) == 0x1a5a93e598bd7d94ec6d2b38b9f4a7d7a552d7283dbbd9d007ab26cc1fe878d3int,
    ensures
        pow_mod(g, 0x73eda753299d7d483339d80809a1d80553bda402ffenat, p) == 0x3493c9775fd2b9743707d9deb764f472176f3fcf5a7d136b9c8b630b88803449int,
{
    let e: nat = 0x73eda753299d7d483339d80809a1d8054nat;
    let e = lemma_chain_multiply(p, g, e, 0x1a5a93e598bd7d94ec6d2b38b9f4a7d7a552d7283dbbd9d007ab26cc1fe878d3int, 0x9adad0746d7a0423747d0677fe9491d26912fd828ab80c969619a15ab7a4584int, 0x6c075a5ec70f14f3ed75e0726159e8501f3a26662d3ab76b20140be59e605e5fint);
    let e = lemma_chain_square(p, g, e, 0x6c075a5ec70f14f3ed75e0726159e8501f3a26662d3ab76b20140be59e605e5fint, 0x64aadb3e1e9c29a8a961b4ce82644d86bb4512c2612f2ee1269c44d96bde475fint, 0x3c83b86a5c29358db9dce6d44fb6d48e3762af4b76f04ef8c69a1b3fc22b9fe2int);
    let e = lemma_chain_square(p, g, e, 0x3c83b86a5c29358db9dce6d44fb6d48e3762af4b76f04ef8c69a1b3fc22b9fe2int, 0x1f96ab98ef1082dad2952f6bbed0aec3a69492cbe0691c6b87479505c7cf20e0int, 0x3cdfe41bab8360de7d7e51d1fb08dddd5eba1037964831fe8ce80ed7d9f762a4int);
    let e = lemma_chain_square(p, g, e, 0x3cdfe41bab8360de7d7e51d1fb08dddd5eba1037964831fe8ce80ed7d9f762a4int, 0x1ff72ec23a55db64917827882b9e0143765b846996afff701275a93fa4ef9e48int, 0x32af00ee3c8c2e96ea2d374c49c830e2009db19b25cbe3a4a1a0e8c9e18a5ac8int);
    let e = lemma_chain_multiply(p, g, e, 0x32af00ee3c8c2e96ea2d374c49c830e2009db19b25cbe3a4a1a0e8c9e18a5ac8int, 0x129d0f971c691395b06ad8c3934f44f8e20dde02a87d99251cef99e8e670adf9int, 0x25274425b2c474b3bff1bd52de71daba5da6c892cfa746bb57b67f722cd4864fint);
    let e = lemma_chain_square(p, g, e, 0x25274425b2c474b3bff1bd52de71daba5da6c892cfa746bb57b67f722cd4864fint, 0xbe839c3a9bdd50c166bc6d6febbbc1d8967dec5575b5072853db0f650422d8cint, 0x6ff16b97b942ce68a6607cc195595596f3c2044dd622565947bc3b8b910c9ed5int);
    let e = lemma_chain_multiply(p, g, e, 0x6ff16b97b942ce68a6607cc195595596f3c2044dd622565947bc3b8b910c9ed5int, 0x291c6ad4ee1868d9c3dd177e69b7e4a9d9d516b41edeca31e2ecd63fc78e1247int, 0x6f2f7ca34835465a4ff71a08d62b9444cb74f7cff14e12795548090be1e754feint);
    let e = lemma_chain_square(p, g, e, 0x6f2f7ca34835465a4ff71a08d62b9444cb74f7cff14e12795548090be1e754feint, 0x6aa2fe6f7a318a22539fa15e296665cb748227d77d5e706898e4b4cc7f346cc1int, 0x22b98920bea11da8901aac5e1b55af9e3c4284d5b395ec40d66356397b673f43int);
    let e = lemma_chain_multiply(p, g, e, 0x22b98920bea11da8901aac5e1b55af9e3c4284d5b395ec40d66356397b673f43int, 0xcc0acf920964f8f7257569319831bbfcc7cd1b7bf172984ad064f2faec1d3c3int, 0x2d2717fdf5b27635084493fa21d96366267d31732121b7e5137c2d11808f2390int);
    let e = lemma_chain_square(p, g, e, 0x2d2717fdf5b27635084493fa21d96366267d31732121b7e5137c2d11808f2390int, 0x1196213818324a8c3bc6f4d2a9f628c4eb988876249ff5c1ed62a6939db31b3eint, 0x2ae170e3ff149003bf96a0f4df2ed6280f3aa5a792df60629e34163221d95c2int);
    let e = lemma_chain_square(p, g, e, 0x2ae170e3ff149003bf96a0f4df2ed6280f3aa5a792df60629e34163221d95c2int, 0xfdc6f97c81cb9d62fcb432305ee9ff7d19bd1b41869b2c268147c34215a88int, 0x250ff636f1d7053f93389323e2a7fd2e5fc48d9141cf7a8f993f7d4a996e0c7cint);
    let e = lemma_chain_multiply(p, g, e, 0x250ff636f1d7053f93389323e2a7fd2e5fc48d9141cf7a8f993f7d4a996e0c7cint, 0xd9c727eab01ec745d23535bf89f88c6bcf4a4612a912a29233b76818fc3733fint, 0x334b45aa2d0004ddf5acbf53a864e2796ca6404febf62bf470b74aec5d89367dint);
    let e = lemma_chain_square(p, g, e, 0x334b45aa2d0004ddf5acbf53a864e2796ca6404febf62bf470b74aec5d89367dint, 0x16b21b1665dd338f842a9be5a483f1532a8427907c404bee295babd713e72f3aint, 0x4decd893ed02bc5048282c39e878d173eb76e4dbac4add941beb38fd1b7bc9cfint);
    let e = lemma_chain_multiply(p, g, e, 0x4decd893ed02bc5048282c39e878d173eb76e4dbac4add941beb38fd1b7bc9cfint, 0x1c9e331740f1b4c5aac2af939451aaafeef591aabdafdad60d67223a4e8fc6ccint, 0x46d0f178119bf983187e75ada9bee03a4f4d13d59495b6f82233ec1bb4f2e353int);
    let e = lemma_chain_square(p, g, e, 0x46d0f178119bf983187e75ada9bee03a4f4d13d59495b6f82233ec1bb4f2e353int, 0x2b42472328233568d1fc32272871cdd992c440c390259d0d7cc74096549012baint, 0x597f1f16e4f58d9a3fd3df93da77503f1754a358713908daf51e43c4f6383a2fint);
    let e = lemma_chain_multiply(p, g, e, 0x597f1f16e4f58d9a3fd3df93da77503f1754a358713908daf51e43c4f6383a2fint, 0x20de17d7634234e0db4582da9ba62e4b371048e322e819acc728a96c949e4935int, 0x5253d3ada1221a7dc15b616539ae2f0a6dc80ece3bf63c0c425346f161e5534aint);
    let e = lemma_chain_square(p, g, e, 0x5253d3ada1221a7dc15b616539ae2f0a6dc80ece3bf63c0c425346f161e5534aint, 0x3a772b72063b79ccbd2082c2e88438eead65684d4de20dacd40e915d14c5579dint, 0x6043ca4cd1b4adea8e62541c7b8d0f05d1c32661c41a8d064b75a6201cb7b9c7int);
    let e = lemma_chain_multiply(p, g, e, 0x6043ca4cd1b4adea8e62541c7b8d0f05d1c32661c41a8d064b75a6201cb7b9c7int, 0x235a6a1dcfc6ca9b68a90c510da6f144e17210853eb848a39ef982e7125eeba1int, 0x5bff1d695a7e93215ec61786c852857cb1de08c6afc4ca5c05b09bda5e12b8f6int);
    let e = lemma_chain_square(p, g, e, 0x5bff1d695a7e93215ec61786c852857cb1de08c6afc4ca5c05b09bda5e12b8f6int, 0x4901509a4b6c210d263e8ac7e0e89048b4fb5eba39bc730b05a4be33b63d4fbbint, 0x64c7bcb527493f528137473749bf506991c811ba01cdccdaa54739b279fd3ca9int);
    let e = lemma_chain_square(p, g, e, 0x64c7bcb527493f528137473749bf506991c811ba01cdccdaa54739b279fd3ca9int, 0x579c8a330b31f0bacdf7076e216346644e7f03ae1fffad5039e077b32679ba83int, 0x4968aa65eceee7dd36c9b6871cb4af2b0e007d20ea3d2a240fa43dac8fefed0eint);
    let e = lemma_chain_multiply(p, g, e, 0x4968aa65eceee7dd36c9b6871cb4af2b0e007d20ea3d2a240fa43dac8fefed0eint, 0x1af597d84a23cb03f2bfc4787681b331b55ffec20b94d34836708989ddb8273cint, 0x1d50f1b34669572b3c52fc7ae5f5082ddc81cb9cda62526bfe0235779d6c2372int);
    let e = lemma_chain_square(p, g, e, 0x1d50f1b34669572b3c52fc7ae5f5082ddc81cb9cda62526bfe0235779d6c2372int, 0x769dd7efceb0d275c4ebaa2817a1a55588b3ba952504ce3c76ea31e33300e88int, 0x5a3a8962b7be3e2fe1ca1b4e95fb07e078425bc9e7f3f927b38d648d8de8503cint);
    let e = lemma_chain_multiply(p, g, e, 0x5a3a8962b7be3e2fe1ca1b4e95fb07e078425bc9e7f3f927b38d648d8de8503cint, 0x2122ebd62fc80dc9fddab59c991ee5987ac1e750a633a0b1fd45acb6f9123935int, 0x600d14a46d8b44b9e547a339a641a8fcdda8f704a3a54c9813abb725dc2bc847int);
    let e = lemma_chain_square(p, g, e, 0x600d14a46d8b44b9e547a339a641a8fcdda8f704a3a54c9813abb725dc2bc847int, 0x4f95006d06d1e2dff834da4a1e793eaa19553b3433060197d6f80050a37830f1int, 0x2d0324883f2b42c709d46bed5160fe8512dcd9d24e6d5891dfb2dedd4910d2c0int);
    let e = lemma_chain_square(p, g, e, 0x2d0324883f2b42c709d46bed5160fe8512dcd9d24e6d5891dfb2dedd4910d2c0int, 0x117a2b17650dc66a29efd79382880377fa1fce1f89dc30e3ae1f6f0b0a136637int, 0x15e3bb28a73a489eb82059f47349d61a5de4f19b0285126e585f6ff87b6c29c9int);
    let e = lemma_chain_multiply(p, g, e, 0x15e3bb28a73a489eb82059f47349d61a5de4f19b0285126e585f6ff87b6c29c9int, 0x809f75dd279851591700bd68314b78b3edad75df9404b497ef87a7cfa01c067int, 0x5d8bbb4e6c1ad9010ed9d7122fcdc829853923240c5b7563b6be08810b9d192int);
    let e = lemma_chain_square(p, g, e, 0x5d8bbb4e6c1ad9010ed9d7122fcdc829853923240c5b7563b6be08810b9d192int, 0x4b7c18c972d25f3fe877d906722002a7dab976b73eb3702ef754c29f39acf3int, 0x5df35a314bb866bde431306d6b15006c4be63f34563e8be2e1944463315a0a51int);
    let e = lemma_chain_square(p, g, e, 0x5df35a314bb866bde431306d6b15006c4be63f34563e8be2e1944463315a0a51int, 0x4c23affc0dfa5159f70fa59cf41d9315452bfe2e97777b49bfd5060c0df932f4int, 0x176723da7578f2008b1fb104d7e1e9533c93437be50f699fa86ec72c35653aadint);
    let e = lemma_chain_square(p, g, e, 0x176723da7578f2008b1fb104d7e1e9533c93437be50f699fa86ec72c35653aadint, 0x4b9743e5141c768fd516685aa6a27366c05ea2d00ed9a7ebce942ec4798e042int, 0x10fca7cf913695da4d4338b046b73451039d3f145eb0203cce83d120b45bf8a7int);
    let e = lemma_chain_multiply(p, g, e, 0x10fca7cf913695da4d4338b046b73451039d3f145eb0203cce83d120b45bf8a7int, 0x63d0a688d188bc668ddfe2563d68ad395a9b00d0e26af45f399dfd670e1db8dint, 0x687a821bac0d305831cf4b8c41defcb7733289f7864465f3658cd825a4d981eaint);
    let e = lemma_chain_square(p, g, e, 0x687a821bac0d305831cf4b8c41defcb7733289f7864465f3658cd825a4d981eaint, 0x5e28dc4f2313a37a8d661b3c8f144d82d9438a78d14a6fed77b06f86383ff3d1int, 0x41ba4d51e73ddfa52a6cc2ef56979641b669b280302797c698c159301861b613int);
    let e = lemma_chain_square(p, g, e, 0x41ba4d51e73ddfa52a6cc2ef56979641b669b280302797c698c159301861b613int, 0x2543fcc2f59413c360b7ac83b82f3bded08e00df00ea0e55a1bf3acbf5f13bf6int, 0x4315ee5f032855abe0c60768253c1ab9b1740c06a96b55588467f5b915f3c973int);
    let e = lemma_chain_square(p, g, e, 0x4315ee5f032855abe0c60768253c1ab9b1740c06a96b55588467f5b915f3c973int, 0x26d23fbd12094b30abb6cf778253711b1b1daa2c530d083c9b5c7633eaa2b252int, 0x3cbdccaecbdbc6aa17daaa431560a20ce3e80cdadc7261195da1698902351757int);
    let e = lemma_chain_square(p, g, e, 0x3cbdccaecbdbc6aa17daaa431560a20ce3e80cdadc7261195da1698902351757int, 0x1fd36b269deadfc06383cf84abf9175760a76c4de54329600b0ebc3e41ec37cbint, 0x23cae6e1d2588ac91e4e79f47d856f022cfb268b643c5a86b248b40ac63a87c6int);
    let e = lemma_chain_square(p, g, e, 0x23cae6e1d2588ac91e4e79f47d856f022cfb268b643c5a86b248b40ac63a87c6int, 0xb0d05f12a34555252ee62dbbd9a0dd0b1fa9ea12bc72de10f50539152269e44int, 0x60662c33a75259252b826cf55d76ff63bb15ff00533cbc2e5f35ed92c393cee0int);
    let e = lemma_chain_square(p, g, e, 0x60662c33a75259252b826cf55d76ff63bb15ff00533cbc2e5f35ed92c393cee0int, 0x5028e6c7808e920e244b73035ff4fd1fd8a804b3af1ea4c8d9f248c1b4046194int, 0x2bc67f83ff4f6557597e28b132b48c80fd2c868ed14bef0e19df52d2c868e26cint);
    let e = lemma_chain_square(p, g, e, 0x2bc67f83ff4f6557597e28b132b48c80fd2c868ed14bef0e19df52d2c868e26cint, 0x1087a7c0f210e306447cc98d319c9baf80ca32e239ea1da42e7044510002ed53int, 0x6a0c673eff695578511e15471a852ec00d3d1058189504b3fbbf5ef37ffff03dint);
    let e = lemma_chain_square(p, g, e, 0x6a0c673eff695578511e15471a852ec00d3d1058189504b3fbbf5ef37ffff03dint, 0x6102b4bbe8bb62cb5857ebd9ca6eef555a52c6e18d74e055eeb99f1f772b84ffint, 0x52cde3074cc4a325be2ae43002e2dfda639b6bc8a4a117b2d5c6b5ea89cce98aint);
    let e = lemma_chain_square(p, g, e, 0x52cde3074cc4a325be2ae43002e2dfda639b6bc8a4a117b2d5c6b5ea89cce98aint, 0x3b250914aa5c2da9a05630c543fe9c38e6828683853f2bce00ee1390a75648e5int, 0xae9065f281d9ddff77b5e5deabef0bc1099032ce67e17e482e53f9715a6357fint);
    let e = lemma_chain_multiply(p, g, e, 0xae9065f281d9ddff77b5e5deabef0bc1099032ce67e17e482e53f9715a6357fint, 0x401bc85962b52d3b6c75126d0c5f5d1ba5a5721fce823b8cf8e42b965e4394aint, 0x61d1d22811e4625a85b45215c5251049ecba20099cd60bff59cbb4e9dac78585int);
    let e = lemma_chain_square(p, g, e, 0x61d1d22811e4625a85b45215c5251049ecba20099cd60bff59cbb4e9dac78585int, 0x528a22486635d48eafe9c88552fcf05c0e749b241eace93146b678791895144dint, 0x31e72374a96f2feaa953acf17027a83f75233e2d2c17c9179ab91ad545d462ccint);
    let e = lemma_chain_square(p, g, e, 0x31e72374a96f2feaa953acf17027a83f75233e2d2c17c9179ab91ad545d462ccint, 0x157b3a31eb4592f50552d32a3be69903fdec71e2c0d4fc895f510b8db54f1c2dint, 0x5e9acbcd1c48e36e1339608bc4c41dc4c884f915710d8f89fb60158d0ab1b663int);
    let e = lemma_chain_multiply(p, g, e, 0x5e9acbcd1c48e36e1339608bc4c41dc4c884f915710d8f89fb60158d0ab1b663int, 0x22be55f1dc445d38f92fb817885b1f27d25a2e2158d062a2967c9a6677b0edc9int, 0x28a22f6545ae8c02b4118d49ad076a4e5fa9d20e9b530acec80150cfc57626aaint);
    let e = lemma_chain_square(p, g, e, 0x28a22f6545ae8c02b4118d49ad076a4e5fa9d20e9b530acec80150cfc57626aaint, 0xe3e064d581da0f67cd59e7154f8406a2eec90a2f302a4b07e220f866ad37399int, 0x232f6db5f8aa829da26395f39db3fe97bb89e42832ac0f679f913907e3bb754bint);
    let e = lemma_chain_multiply(p, g, e, 0x232f6db5f8aa829da26395f39db3fe97bb89e42832ac0f679f913907e3bb754bint, 0xcebf8c55752a48ea20093891cf81c2e2cb367237c52efe26febb7142550648bint, 0x1d7a6690a754c18c99ded561eed2503fa1fb7171d6e0da4a5c92dce53aefde50int);
    let e = lemma_chain_square(p, g, e, 0x1d7a6690a754c18c99ded561eed2503fa1fb7171d6e0da4a5c92dce53aefde50int, 0x77ee3ed032375fc5588273ead20e1366cb2b95fbf6c3d1423f3b7fe2d18bc35int, 0x2eba8d81a600e4f389ff1188a12dc763bfba230f02225d50e133d0d3ed561ccbint);
    let e = lemma_chain_multiply(p, g, e, 0x2eba8d81a600e4f389ff1188a12dc763bfba230f02225d50e133d0d3ed561ccbint, 0x11293d313690b6df605fe60474e31de143a972e3ea42d0a736eee200966e312bint, 0x1a4470251d45f1637d5f6bb689ec48ba9656b80cadf1da9106c59d6de850e130int);
    let e = lemma_chain_square(p, g, e, 0x1a4470251d45f1637d5f6bb689ec48ba9656b80cadf1da9106c59d6de850e130int, 0x5f3a3e6d85ead8aef86c063f7732a23bed93488beaaf8597ef3c0eb478ed18aint, 0x6e9d0bdf8523d0d16feb5702513931226a1ce0bef1fe2fa7786265333c869776int);
    let e = lemma_chain_multiply(p, g, e, 0x6e9d0bdf8523d0d16feb5702513931226a1ce0bef1fe2fa7786265333c869776int, 0x289f6a4ce9c0a2c141199597afb0a374941bf425a0b09109dbbe720ee45539a5int, 0xdd69cb73707b4357defaf242203871bba048856911c6cbf099d5d42f56012f1int);
    let e = lemma_chain_square(p, g, e, 0xdd69cb73707b4357defaf242203871bba048856911c6cbf099d5d42f56012f1int, 0x1a6e1686eb911248d7f16aeb4079d6bb2a00ea0c8ffec4ad276a30f09d97c40int, 0x113a15dd2859e4b6fbc5d58ea305bb02bca51ec47a943f99a37abfc4764d4aa1int);
    let e = lemma_chain_multiply(p, g, e, 0x113a15dd2859e4b6fbc5d58ea305bb02bca51ec47a943f99a37abfc4764d4aa1int, 0x65399ca4ee33e8c24b804c2cb5b1888aab84737eeec538d1d8a6b9f712a1be1int, 0x557852f7a5204ddea271c0307ab2fc4bacda2b151a16722438d0a169d10d7b70int);
    let e = lemma_chain_square(p, g, e, 0x557852f7a5204ddea271c0307ab2fc4bacda2b151a16722438d0a169d10d7b70int, 0x3f039e4dcf01b6b6d26de195e6a04740ea4216f193201b62cd9d79947deac6b6int, 0x693b0317eea08fed5fcfcb5744b4611cdca850d4a89515016356734426fa0a4aint);
    let e = lemma_chain_multiply(p, g, e, 0x693b0317eea08fed5fcfcb5744b4611cdca850d4a89515016356734426fa0a4aint, 0x26a55547220a7899be78bba4094eeafec02cea5d727b4b285b19f3096e2e0813int, 0xddae531643649afa0382525dc0b25e3dcf17e4990e59c34fac347d906390117int);
    let e = lemma_chain_square(p, g, e, 0xddae531643649afa0382525dc0b25e3dcf17e4990e59c34fac347d906390117int, 0x1a7e756a62f69ccd35963f6b0923da50d2b7fbf28c64bc303ea35d579bc3e2bint, 0x5747640ad35b9c928231825c1830867e48c02a6f677217fd36415c121682f1e6int);
    let e = lemma_chain_multiply(p, g, e, 0x5747640ad35b9c928231825c1830867e48c02a6f677217fd36415c121682f1e6int, 0x200d982ddf21be89bf3974115f8cd579fed20255e89f107bf6c0c96be86ba233int, 0x504cc7b2ed5a65a6b2b111627d78f9a36032332e5a69463816447bcfc56b51d3int);
    let e = lemma_chain_square(p, g, e, 0x504cc7b2ed5a65a6b2b111627d78f9a36032332e5a69463816447bcfc56b51d3int, 0x379f0976f1766db5e0e3cb7acb1ef4b7291e2c74c03130a8251aad73fb64634dint, 0x54acf5a2718d138c8d72d4eb6506910fbe8f000d563207d28ecf23ff4324d09cint);
    let e = lemma_chain_multiply(p, g, e, 0x54acf5a2718d138c8d72d4eb6506910fbe8f000d563207d28ecf23ff4324d09cint, 0x1f18d918c2bc926409c041d882c477b79d5fbcccfa7576c9571173f5bae48634int, 0x14634ddb1290ee8cde91b3848b5685ccbceb4945f7d90d84795784363c57da8int);
    let e = lemma_chain_square(p, g, e, 0x14634ddb1290ee8cde91b3848b5685ccbceb4945f7d90d84795784363c57da8int, 0x395e68c939371a4ff05e3e9b1531148422f846bb62f2aa0c4b68252c8c26fint, 0x3a63470201ed10fddd981d9da11ff9f69e9eb0fd6fcf6024ada3a9673f74bbd1int);
    let e = lemma_chain_multiply(p, g, e, 0x3a63470201ed10fddd981d9da11ff9f69e9eb0fd6fcf6024ada3a9673f74bbd1int, 0x157160854c9ffaf75dedd8bb339fadca75bf4a92d1b87f797c09bc0d0b8e2920int, 0x237315e289c599017a6f524c382aa70eea84a12ea97e42518de59740f6185061int);
    let e = lemma_chain_square(p, g, e, 0x237315e289c599017a6f524c382aa70eea84a12ea97e42518de59740f6185061int, 0xad70e8f2fec4eec4b4dc3051599d3b574ca0c89d810c462bdd9f69735a1ba66int, 0x727fd0797250430918db223876201b1930bf66ac6a37e8d3c6df1f1861cb0a5bint);
    let e = lemma_chain_multiply(p, g, e, 0x727fd0797250430918db223876201b1930bf66ac6a37e8d3c6df1f1861cb0a5bint, 0x2a0cbe39d9907d68ae56537c4ce0d1eeadc3279b4907c24b866df03f52ef534aint, 0x45e75aa259e6a33665decee15a29b6b68405d6cd7cb5901fbab5cf8da370dfa1int);
    let e = lemma_chain_square(p, g, e, 0x45e75aa259e6a33665decee15a29b6b68405d6cd7cb5901fbab5cf8da370dfa1int, 0x2a26bc2a66b06ed59a8011f0ae8348abb4c0ebbbf6cdc0a28c4a3a3eb939908aint, 0x27c47d46d65ef6cb36ea6f7fd0db48985102f6697a7d3a6456eefa30bd0052b7int);
    let e = lemma_chain_multiply(p, g, e, 0x27c47d46d65ef6cb36ea6f7fd0db48985102f6697a7d3a6456eefa30bd0052b7int, 0xe9ac70af7693e5cd41fc0688278e0b7535f0760b4cbb97a775e237cdd18842aint, 0x303a141c0fe44f9f6cfbb91e41e60bf4d40f1055b0bd1ba9b5b2e155ab54fe5dint);
    let e = lemma_chain_square(p, g, e, 0x303a141c0fe44f9f6cfbb91e41e60bf4d40f1055b0bd1ba9b5b2e155ab54fe5dint, 0x14100a94d822e768e42fb3ef885d09706d1dbdf3595722d4de48223e9f447980int, 0x3493c9775fd2b9743707d9deb764f472176f3fcf5a7d136b9c8b630b88803449int);
}

/// The power `(q - 1) / 2` of the curve constant `d`: the steps from the exponent
/// 0x73eda753299d7d483339d80809a1d80553bda402ffe
/// to the exponent
/// 0x1cfb69d4ca675f520cce76020268760154ef6900bfff96ffbfff.
proof fn lemma_power_of_d_part_5(p: int, g: int)
    requires
        p == q(),
        g == 0x2a9318e74bfa2b48f5fd9207e6bd7fd4292d7f6d37579d2601065fd6d6343eb1int,
        pow_mod(g, 0x73eda753299d7d483339d80809a1d80553bda402ffenat, p) == 0x3493c9775fd2b9743707d9deb764f472176f3fcf5a7d136b9c8b630b88803449int,
    ensures
        pow_mod(g, 0x1cfb69d4ca675f520cce76020268760154ef6900bfff96ffbfffnat, p) == 0x4a4e0f7055ca94c690e39900af66ae2d6e0394bc6d1c4fb461e9d44e3df76f87int,
{
    let e: nat = 0x73eda753299d7d483339d80809a1d80553bda402ffenat;
    let e = lemma_chain_multiply(p, g, e, 0x3493c9775fd2b9743707d9deb764f472176f3fcf5a7d136b9c8b630b88803449int, 0x134f18e4a5a73ac8a3b22a8a8fd80ee13b6d26486033622c584349c544472e38int, 0x68a6d009ff3f2138020ca10d8f219bbd0a5895f5110d1294de1bdc40cddaa641int);
    let e = lemma_chain_square(p, g, e, 0x68a6d009ff3f2138020ca10d8f219bbd0a5895f5110d1294de1bdc40cddaa641int, 0x5e78c8b4f5d8c5c694ccb903d0aaf89fccfcd608e3c98f3a1f2a972a8e69f8ddint, 0xb8adaa8dfa9327db8aab19ef35e43a285ae950787130aa49d9023361e4263a4int);
    let e = lemma_chain_multiply(p, g, e, 0xb8adaa8dfa9327db8aab19ef35e43a285ae950787130aa49d9023361e4263a4int, 0x43d2b07ffbf532fbef4eb5d5233d77ec79474f990bf2667c02d4299e3044223int, 0x57b95785211f7721da8dda0e47ec5b785a586ebc5f7c5dc748a13f2772545a41int);
    let e = lemma_chain_square(p, g, e, 0x57b95785211f7721da8dda0e47ec5b785a586ebc5f7c5dc748a13f2772545a41int, 0x4261ab1ba0b4e3658b068d27a1ca03f0181bbf3b4ca52c64f5ae748a1ebe9061int, 0x61425da50b566aa150b0685e97a05f9cac7760a8d1d838cbcc00d5d21fbb3420int);
    let e = lemma_chain_multiply(p, g, e, 0x61425da50b566aa150b0685e97a05f9cac7760a8d1d838cbcc00d5d21fbb3420int, 0x23b7e83f231c56348b25b6972d75f0f7e50c04f9e16d01229f896b1905e0fc31int, 0xcadd190ced5242053aeae4f45b9f0f9c0fac44904a61b25137ead6897adcdefint);
    let e = lemma_chain_square(p, g, e, 0xcadd190ced5242053aeae4f45b9f0f9c0fac44904a61b25137ead6897adcdefint, 0x162fe074fd27e3aedd8b21771e14e606600a07a7f873059b9cb62aee7c640d1int, 0x70d43cbc75e858d5e81ec107c2e754aa0b650b281ef2eba0dea9b54204e86450int);
    let e = lemma_chain_multiply(p, g, e, 0x70d43cbc75e858d5e81ec107c2e754aa0b650b281ef2eba0dea9b54204e86450int, 0x296fb736f03b74f10a8da1b4d53d4889f0fc8fe89cf3a5b39e17210525b94f9bint, 0x25066bd33894f236fe860800a0ee95241cfa26a0e4320dca97bf4c5ac77f6bb5int);
    let e = lemma_chain_square(p, g, e, 0x25066bd33894f236fe860800a0ee95241cfa26a0e4320dca97bf4c5ac77f6bb5int, 0xbd33593122e1bb36557c72da9c66f533216eff0aae59d1450f5fe781329123dint, 0x36a8e47043e8655f6dabb9a59a4761eb893c96c07973eb1b894b9fe85dbdbbbcint);
    let e = lemma_chain_square(p, g, e, 0x36a8e47043e8655f6dabb9a59a4761eb893c96c07973eb1b894b9fe85dbdbbbcint, 0x19c5976e3dc31b5452a5af82c56bdffdc9c0134cd746ba292156c3a236f7e02aint, 0x6ee9bba12a5f3823899d50a6c21f281d9194e0b976c40ac20734504d1e4c51e6int);
    let e = lemma_chain_square(p, g, e, 0x6ee9bba12a5f3823899d50a6c21f281d9194e0b976c40ac20734504d1e4c51e6int, 0x6a1d5b83de10cd3064404446beb583f1e006f7b004ccdc5587bb56cfaa389b72int, 0x1b3e7821f80a11b40deef0e206bf433ab2de55824e9cfc2aec9c42f0f88abf32int);
    let e = lemma_chain_multiply(p, g, e, 0x1b3e7821f80a11b40deef0e206bf433ab2de55824e9cfc2aec9c42f0f88abf32int, 0xa015e7050b7e15aec24fb19237fe911ceb357ac316b2c3cf5a126db95656cbcint, 0x43ea2c1ea568074a2ea9d38faec4935664107d77380d112006d6c47c7efee0d6int);
    let e = lemma_chain_square(p, g, e, 0x43ea2c1ea568074a2ea9d38faec4935664107d77380d112006d6c47c7efee0d6int, 0x27c968428bd7df02edf4a345b21ceda445db34658d695c7b4c2424e75650da3bint, 0xfa11e9d86b86137e53fe5a35c154e4bbe61547db74c33d2862617b93fce58a9int);
    let e = lemma_chain_square(p, g, e, 0xfa11e9d86b86137e53fe5a35c154e4bbe61547db74c33d2862617b93fce58a9int, 0x21b6d92d7c538af5a2620e83069314da7c0a9a95bbb0555c9441f657402a745int, 0x3aa5afe8df36b253ebcffe435a9fddbd93d8c7c1602b863044fc401788adf84cint);
    let e = lemma_chain_multiply(p, g, e, 0x3aa5afe8df36b253ebcffe435a9fddbd93d8c7c1602b863044fc401788adf84cint, 0x1589c41700ced813789940bb11e21e9063d133231ede6a0007562a15fdd359d5int, 0x58538b391ca57040b01e447486798b484b64b325d9668f895fce278c9c07bab7int);
    let e = lemma_chain_square(p, g, e, 0x58538b391ca57040b01e447486798b484b64b325d9668f895fce278c9c07bab7int, 0x434bd771a2e0fb7a588a819d2218cd42d6b6daa9b886b238d1c76f5856c5d93fint, 0x49ceb6a1c311398ff60d9f2cfa604fbc37d4b34dbb593a0637f3cfd96f6a9592int);
    let e = lemma_chain_multiply(p, g, e, 0x49ceb6a1c311398ff60d9f2cfa604fbc37d4b34dbb593a0637f3cfd96f6a9592int, 0x1b1b11f383951ca395750443302e04ef619f0e6110b56dccfd2cfe7d7935b10aint, 0x2126bafbb1a30af42e4e63fcbcfe170685785603af8dabb6f7460198cd5d14e8int);
    let e = lemma_chain_square(p, g, e, 0x2126bafbb1a30af42e4e63fcbcfe170685785603af8dabb6f7460198cd5d14e8int, 0x97ae57f5fe263533c4819db1cd76db5b08ba1b82d34b4c8e93eea400836a4e9int, 0x1b1f0d29b6f34ee515a1220cc0aad2ebf4414275b883424e7b48937cba0e6d57int);
    let e = lemma_chain_square(p, g, e, 0x1b1f0d29b6f34ee515a1220cc0aad2ebf4414275b883424e7b48937cba0e6d57int, 0x658518bd80718024eb13963200ac6b8e74b9f1401aa6d2d636781b7a112aa56int, 0x35f8e39063ffefdab5aedf0b0e4a5defb74174c690655384af5ff698ef24893bint);
    let e = lemma_chain_multiply(p, g, e, 0x35f8e39063ffefdab5aedf0b0e4a5defb74174c690655384af5ff698ef24893bint, 0x13d23e1ff4545e5c584558896c168fc9930af0a436add940fa16919514b4e061int, 0x24b2637f78c8fe32f7ff7424387256188ffe947a8f5a74a728392e94ec64b6aint);
    let e = lemma_chain_square(p, g, e, 0x24b2637f78c8fe32f7ff7424387256188ffe947a8f5a74a728392e94ec64b6aint, 0xb9dc55025bc9d3aac3b5b4c549d5528f1aed6826b258b160413064d3b8c70int, 0xa4bb1c6f7ed43f50de94ccb297c42f411b61493c6664bc978eb17eb08f3bb74int);
    let e = lemma_chain_multiply(p, g, e, 0xa4bb1c6f7ed43f50de94ccb297c42f411b61493c6664bc978eb17eb08f3bb74int, 0x3c7f4f8943203a263931f8d5460f47794d0c7b02ef08c5f29db7ff8e68a5b10int, 0x3ba9bddcc65e85ca132707e8b0e9174a904376d1dd732d7463459ff05cf05824int);
    let e = lemma_chain_square(p, g, e, 0x3ba9bddcc65e85ca132707e8b0e9174a904376d1dd732d7463459ff05cf05824int, 0x1eb4b3a68df736ec00b4859de8f5d2702ef764883e6391ccf8130841363c15c3int, 0x2a6a1942c7092c75c829d0530ac9981533f741182473b38b70aa010b9caf4dint);
    let e = lemma_chain_multiply(p, g, e, 0x2a6a1942c7092c75c829d0530ac9981533f741182473b38b70aa010b9caf4dint, 0xf93a1098683c80f5ba87753eabd395a275b80fede043eb6857de7161cdec3int, 0x3846a5420cfbf92db737c56e40e43e888c3537b992c3e14bbc6aa020dd50fb7aint);
    let e = lemma_chain_square(p, g, e, 0x3846a5420cfbf92db737c56e40e43e888c3537b992c3e14bbc6aa020dd50fb7aint, 0x1b518699a5f9ac6195c26c55e4083315699b4ed377fe21d511cb390156015e8dint, 0x1fe4f164a79d3ae219ee435bd72376bb2ac497e3beb8e87e032a6fda71471797int);
    let e = lemma_chain_multiply(p, g, e, 0x1fe4f164a79d3ae219ee435bd72376bb2ac497e3beb8e87e032a6fda71471797int, 0xbb691cbbfc4baa23a517a40c012cc69c889d7a40806103d46c7e455b28345f4int, 0x5e057a65f1aa791d78c6930303d9508f3496b5df445066e06df2d078dc069b73int);
    let e = lemma_chain_square(p, g, e, 0x5e057a65f1aa791d78c6930303d9508f3496b5df445066e06df2d078dc069b73int, 0x4c4113d88c5fa681a89311a0d5a09c29ac15f59d7f665e5a5955d2876be165bdint, 0x257da5b756a114710e2f8c0c2c130987127c68c759acd6a1a5df8a5ee3e70fecint);
    let e = lemma_chain_multiply(p, g, e, 0x257da5b756a114710e2f8c0c2c130987127c68c759acd6a1a5df8a5ee3e70fecint, 0xdc4baabfee48a382b07f00391ffa462201c8a785b4d6c6536047a48d83bef52int, 0x56b187f2e76e19de7ebacd5d4de9724e93b5ced47e27d9a070aa715d34513adaint);
    let e = lemma_chain_square(p, g, e, 0x56b187f2e76e19de7ebacd5d4de9724e93b5ced47e27d9a070aa715d34513adaint, 0x40d4c1ec2c52b6400d6e5bd5c8e6ce33e4369bbcc775430f79332ae7f9483f38int, 0x483a82192ece4c75fce7f34b56ceef0980634d2b243d25102d476462e233426cint);
    let e = lemma_chain_multiply(p, g, e, 0x483a82192ece4c75fce7f34b56ceef0980634d2b243d25102d476462e233426cint, 0x1a86a0447e1a915e66a75359a98450d63e6c82e7b297b1586ed1c699da7bd092int, 0x4ec3d367345e940267c1f318a71f2568e6ea4a4182770e7d288acb56bafb441aint);
    let e = lemma_chain_square(p, g, e, 0x4ec3d367345e940267c1f318a71f2568e6ea4a4182770e7d288acb56bafb441aint, 0x3583dda297b72b2c666c41a3d890f5c0dbe1c1c4af316baa08530231002bcdd0int, 0x5caf217a64c7baf8b199cfe33e470fadf38ac4d6f968c3d52b45deab64ee04d4int);
    let e = lemma_chain_multiply(p, g, e, 0x5caf217a64c7baf8b199cfe33e470fadf38ac4d6f968c3d52b45deab64ee04d4int, 0x2209c5a0700ddb4ce8b519a6cbfa8cdebe34b00774c4959ca0e71d54913b170aint, 0x72a3ca88a094f89e44dbde6ec5614ee2cdce67619b4a04bfec7a9e420f91978aint);
    let e = lemma_chain_square(p, g, e, 0x72a3ca88a094f89e44dbde6ec5614ee2cdce67619b4a04bfec7a9e420f91978aint, 0x715d985549c1bb26a2a3acbb4d91c64d646a6df6efa3102b087aef1888132537int, 0x22eb623ace06f13bb41c701409b6bb11ff11dabc8f3e927f1e3313d5a7f4f12dint);
    let e = lemma_chain_multiply(p, g, e, 0x22eb623ace06f13bb41c701409b6bb11ff11dabc8f3e927f1e3313d5a7f4f12dint, 0xcd2fb7a8fa81bbfa8d5ec843f295c396112e7e41b9bdddbfdf78f92288f1fe6int, 0x4bd3e49af4c82c873c72a36bc16507c24c8d224d59573a102cd233b4e5588637int);
    let e = lemma_chain_square(p, g, e, 0x4bd3e49af4c82c873c72a36bc16507c24c8d224d59573a102cd233b4e5588637int, 0x31992623daa273993e47ee59f66643aba638aa2133ea5ce0e433ff505df468b1int, 0x4cd2e6993bc97060ffe4fec0f096fd382fa0139d575468942b6a8f7394393720int);
    let e = lemma_chain_multiply(p, g, e, 0x4cd2e6993bc97060ffe4fec0f096fd382fa0139d575468942b6a8f7394393720int, 0x1c36a7c76f991212c6511fa39f79781df557d5ceeb3a18a8676fa08c0303d6c5int, 0x67e29a26e0f08548985897dffe39d38fd44bde8a126ef91bbe6a477c4665065bint);
    let e = lemma_chain_square(p, g, e, 0x67e29a26e0f08548985897dffe39d38fd44bde8a126ef91bbe6a477c4665065bint, 0x5d17d5115172f06bae6a63379f96e3ae4e58a3e175abe81e990da766b0c154a4int, 0x247a32a2f0e45a15307e70cb0740c1e07e867cea643eed96bdcfb6bd17350fb5int);
    let e = lemma_chain_square(p, g, e, 0x247a32a2f0e45a15307e70cb0740c1e07e867cea643eed96bdcfb6bd17350fb5int, 0xb7a4d9045df3b7e6fd110f1563235e1e51425a01ccf8279539643f85fd786cfint, 0x13104c60b8e0592e0c1925a2204482ae810c4d6ae13ab8156dc063eaa8112f2aint);
    let e = lemma_chain_multiply(p, g, e, 0x13104c60b8e0592e0c1925a2204482ae810c4d6ae13ab8156dc063eaa8112f2aint, 0x700493ecb21ebe80a314803df01301157505c5345b10ca28df8a3482dc62acaint, 0x7011bedd624427a43cf1f71a6391afa654b9b5e0c4581dc8b207f57ae00f9d40int);
    let e = lemma_chain_square(p, g, e, 0x7011bedd624427a43cf1f71a6391afa654b9b5e0c4581dc8b207f57ae00f9d40int, 0x6c56b912f1f2fe5fda65d86642244cb925b4a94be2fdf4acbc41670b9f85b659int, 0x49735fde5c9d6f4ee448731955eecedd9c20b8fecdabc417b2be04712e91d9a7int);
    let e = lemma_chain_multiply(p, g, e, 0x49735fde5c9d6f4ee448731955eecedd9c20b8fecdabc417b2be04712e91d9a7int, 0x1af986a5e104e5e26755b9ee55074f588f745509a8d930ddfb798dbe20604f27int, 0x56d915aee4f56b65dcce6adf1b68b4d53c56ce6e958e39f711e1891d35199f50int);
    let e = lemma_chain_square(p, g, e, 0x56d915aee4f56b65dcce6adf1b68b4d53c56ce6e958e39f711e1891d35199f50int, 0x410ff7dcf306fc3661d6731b3f55776ecaed423e5346daec2bf56a700069fa6eint, 0x657ca41a507800810ee5129d854f357e59f2140ba4ed12aefe69e6a5a05a7e92int);
    let e = lemma_chain_multiply(p, g, e, 0x657ca41a507800810ee5129d854f357e59f2140ba4ed12aefe69e6a5a05a7e92int, 0x25455f3cfbe160c02eb0eaf06e7a0e2bc7175c0746ab01b647a2a7abfd854c99int, 0x71fa1bf988eaec9bbfd31ede0c0aeec62e45ec60ec1d2cbabab16e828d5b9259int);
    let e = lemma_chain_square(p, g, e, 0x71fa1bf988eaec9bbfd31ede0c0aeec62e45ec60ec1d2cbabab16e828d5b9259int, 0x700ef9335954be608024b484e6236fa70f33fcec87dab8e97353169cd8ce1844int, 0x6f372532484aca9a527780816d8885cefd91caafbd4444a3a960200290218aadint);
    let e = lemma_chain_multiply(p, g, e, 0x6f372532484aca9a527780816d8885cefd91caafbd4444a3a960200290218aadint, 0x28d8020957917b06a7928d4f34465c630a34d125f7bd9af8561360df51cddfceint, 0x60e4325b940d35a66d22563bd876629c4ebb02bfe0a65ecddf80aff73e1ce7cfint);
    let e = lemma_chain_square(p, g, e, 0x60e4325b940d35a66d22563bd876629c4ebb02bfe0a65ecddf80aff73e1ce7cfint, 0x50fb065c5223ffd17407463b927a01d36af131aaabc091810b218ec4333601a6int, 0x4980bab668e794e29760d328d461610d26e3928df0af0ae608dac9df97f937bbint);
    let e = lemma_chain_multiply(p, g, e, 0x4980bab668e794e29760d328d461610d26e3928df0af0ae608dac9df97f937bbint, 0x1afe6e374a7f64df9a0f15fa858a8701e15c7ffd61fd70d7846a0c24d8124ea2int, 0x1dd844c6c919d17bdcfe4b19dbc2a2e41ffcf7dd09a8da71e9ac2b6b3ab883a9int);
    let e = lemma_chain_square(p, g, e, 0x1dd844c6c919d17bdcfe4b19dbc2a2e41ffcf7dd09a8da71e9ac2b6b3ab883a9int, 0x7aeecaea14d378a70b1295a64188aa66b0e01ddae9c49345a5269354e1f5021int, 0x9910896dcb4acdb6db82dc034cd9e8270e15b0cb0939d92a0d5dcd7cc871570int);
    let e = lemma_chain_multiply(p, g, e, 0x9910896dcb4acdb6db82dc034cd9e8270e15b0cb0939d92a0d5dcd7cc871570int, 0x38367e503162ea22085287981f4c59fb7ea9266e02e9cc8a8e7ed0a08a4e5edint, 0x3824f337686cce0f7d59326d2500d879f2647de26e4d3bbaa65e09c12b20c83int);
    let e = lemma_chain_square(p, g, e, 0x3824f337686cce0f7d59326d2500d879f2647de26e4d3bbaa65e09c12b20c83int, 0x1b30d99610105a63abc9c0ae2205373747e0f2ee96675cb4101d67d248fd09int, 0x6827c94cccb9be7be4b54f4af6a20eb746b6a5769e08697059d8e4e1007f8e00int);
    let e = lemma_chain_multiply(p, g, e, 0x6827c94cccb9be7be4b54f4af6a20eb746b6a5769e08697059d8e4e1007f8e00int, 0x264041b3fd649612809d13b89d6b55f8b7210e1889faca41a228a20c49e699f6int, 0x4b13a0fcb1aeccd652ff857d8212830f822d80bf7e1f64f6942436caae940aint);
    let e = lemma_chain_square(p, g, e, 0x4b13a0fcb1aeccd652ff857d8212830f822d80bf7e1f64f6942436caae940aint, 0x309ee0c3875a450a5788c57071d8000c084a97549914aa4c64a9603c82b0int, 0x312fdaf7d29764add2b0d705ab69c5249586bd3f31b4752e55415aebfaf70db4int);
    let e = lemma_chain_multiply(p, g, e, 0x312fdaf7d29764add2b0d705ab69c5249586bd3f31b4752e55415aebfaf70db4int, 0x121059970825736aa83dfe9fe4490401dc927f98586c1809576df1787c3d1547int, 0x37a70f9bac874044e483ef950292a9489a04b1fdf81d74a22590e7da1e74fc2dint);
    let e = lemma_chain_square(p, g, e, 0x37a70f9bac874044e483ef950292a9489a04b1fdf81d74a22590e7da1e74fc2dint, 0x1ab7727eb0bc605854d60adbd0941c91228c8315b3006f3bb1c65be12954195aint, 0x4d8a22a941f84eea311783bae33cb3a172184684b8a710432e2410ace3dc868fint);
    let e = lemma_chain_multiply(p, g, e, 0x4d8a22a941f84eea311783bae33cb3a172184684b8a710432e2410ace3dc868fint, 0x1c79f2bb58f899c4ebc1f7b552c719b2baa97fdce665cccd8de20c92c91ed7bfint, 0x2f70e61d0c91f8816fb3417f572a01d10d5ca5972c5c7568ce705fb609fcd320int);
    let e = lemma_chain_square(p, g, e, 0x2f70e61d0c91f8816fb3417f572a01d10d5ca5972c5c7568ce705fb609fcd320int, 0x136a057004aaccbfae48d9ad80bde093409c9d72f036a8ee7ed7f65690b98c8eint, 0x4583a61382ffd000c7af0ab96d722628467c04095a7ed9d22673484004643772int);
    let e = lemma_chain_multiply(p, g, e, 0x4583a61382ffd000c7af0ab96d722628467c04095a7ed9d22673484004643772int, 0x1987707c811394482defb7855de380c6ec50975e26b57903fc1296f256c123a2int, 0x11f9419202c1c619f4ba180f3ca479f57ef9ede4902f819ea7955403871ece30int);
    let e = lemma_chain_square(p, g, e, 0x11f9419202c1c619f4ba180f3ca479f57ef9ede4902f819ea7955403871ece30int, 0x2c9624245039ce6240c429f1948fa7918310c2573c0249d7e3aa067597d1595int, 0x674b7d59f9ae9d761812453f48d1f16348ad6af6a8cab436287c4b793fd4336bint);
    let e = lemma_chain_multiply(p, g, e, 0x674b7d59f9ae9d761812453f48d1f16348ad6af6a8cab436287c4b793fd4336bint, 0x25ef5a54b69c97de4d6ef98254a997a4b30d047c55095301842e8c0e81b4abaaint, 0x163e2fd10fd4f602445855e978c62003e26f28fe10864e677fb3b66de832cb51int);
    let e = lemma_chain_square(p, g, e, 0x163e2fd10fd4f602445855e978c62003e26f28fe10864e677fb3b66de832cb51int, 0x44487fe143006d71d30b7f0f8f42dd36161fe51dbde659adf40ff3d147d58ccint, 0x1f47a2e8b7c1f25eeaf03749fade5967f5aaa82c2f352bb6ad76c31fc8a036d5int);
    let e = lemma_chain_multiply(p, g, e, 0x1f47a2e8b7c1f25eeaf03749fade5967f5aaa82c2f352bb6ad76c31fc8a036d5int, 0xb7ccc7d362941367b46feee92cd0ba950f8c7cc3bbb9c4a433443b5a7eba572int, 0x2b8f54822f479f4be33c78f1fc4ce7cf7bfc19fc9a4c500593858cbc0d65d9d3int);
    let e = lemma_chain_square(p, g, e, 0x2b8f54822f479f4be33c78f1fc4ce7cf7bfc19fc9a4c500593858cbc0d65d9d3int, 0x105e181b3e9087335be90363299265b595753fa002776a70967a085fc92eb13eint, 0x2936ab9828e106526ce9cb2d0636eeec3dc9c67dd7888632ee7cdf6b3ea6b2abint);
    let e = lemma_chain_multiply(p, g, e, 0x2936ab9828e106526ce9cb2d0636eeec3dc9c67dd7888632ee7cdf6b3ea6b2abint, 0xf22b9e7e9d100b8ce3b69c35e1f92b6a66d7930f0a9e6d77c4181ebb7649741int, 0x3c2662350dbbcafb4865b9d4f548b4005113f8df8f38dc527c666ad135de5afaint);
    let e = lemma_chain_square(p, g, e, 0x3c2662350dbbcafb4865b9d4f548b4005113f8df8f38dc527c666ad135de5afaint, 0x1f3585372fbc5a5055262747c7501966319ca1196f3f00937460ffcf9138eb73int, 0x3f6e954c1dc5934afa033bf7a3d39c1a586cb8b9b84bcfbeefcd52a4dcb3d0b1int);
    let e = lemma_chain_multiply(p, g, e, 0x3f6e954c1dc5934afa033bf7a3d39c1a586cb8b9b84bcfbeefcd52a4dcb3d0b1int, 0x174b9bb1c9fd711662b75eb742f6ec09467ec4fa49a833f8cdce3dec40dab8daint, 0x4a4e0f7055ca94c690e39900af66ae2d6e0394bc6d1c4fb461e9d44e3df76f87int);
}

/// The power `(q - 1) / 2` of the curve constant `d`: the steps from the exponent
/// 0x1cfb69d4ca675f520cce76020268760154ef6900bfff96ffbfff
/// to the exponent
/// 0x73eda753299d7d483339d80809a1d80553bda402fffe5bfeffffffff0000000.
proof fn lemma_power_of_d_part_6(p: int, g: int)
    requires
        p == q(),
        g == 0x2a9318e74bfa2b48f5fd9207e6bd7fd4292d7f6d37579d2601065fd6d6343eb1int,
        pow_mod(g, 0x1cfb69d4ca675f520cce76020268760154ef6900bfff96ffbfffnat, p) == 0x4a4e0f7055ca94c690e39900af66ae2d6e0394bc6d1c4fb461e9d44e3df76f87int,
    ensures
        pow_mod(g, 0x73eda753299d7d483339d80809a1d80553bda402fffe5bfeffffffff0000000nat, p) == 0x3b25b475ab91194b687a73c92f188612fc010d53ccb225425e544cdf4c887948int,
{
    let e: nat = 0x1cfb69d4ca675f520cce76020268760154ef6900bfff96ffbfffnat;
    let e = lemma_chain_square(p, g, e, 0x4a4e0f7055ca94c690e39900af66ae2d6e0394bc6d1c4fb461e9d44e3df76f87int, 0x2fa04c2106c01f38438c2d7fe7a62c3653b4238c8cae4dbf0a71865bab55d162int, 0x17fa8ebd05c65cfa28a4f87e6882c65e2315e39f9c63f74f9521b39911c287cfint);
    let e = lemma_chain_multiply(p, g, e, 0x17fa8ebd05c65cfa28a4f87e6882c65e2315e39f9c63f74f9521b39911c287cfint, 0x8ce6184232480962a3955ef478da49102cfa4efc63875e5a835190fab27fe87int, 0x4960332ef1007a6d9e09754d68d7ed7533504be9cf8f112cbf8cb5ae59480998int);
    let e = lemma_chain_square(p, g, e, 0x4960332ef1007a6d9e09754d68d7ed7533504be9cf8f112cbf8cb5ae59480998int, 0x2e7149b20cae38cbce21268ebc7dcc6311143947c9600987fdf05b34733c633fint, 0xe095fd14dde53072c5f272adbb3435a9ecf57b0e554b3441e2d2d9ba29fa701int);
    let e = lemma_chain_multiply(p, g, e, 0xe095fd14dde53072c5f272adbb3435a9ecf57b0e554b3441e2d2d9ba29fa701int, 0x527aa0699428cc7fd78e9567b94a04c26acbcaa07943ea2ba50af7580444801int, 0x30d04218eedf17b894634cadfb9298e7a533bf8a579b6b870d3f4a685cc46db0int);
    let e = lemma_chain_square(p, g, e, 0x30d04218eedf17b894634cadfb9298e7a533bf8a579b6b870d3f4a685cc46db0int, 0x148dc0a575ff59626cdb38d58ffb38a0f958940944ff0de4d1a3a954eba4df2bint, 0x5bb98cf8a5164288bde9456bb1bcab2128183b46c2d2f23a0741da64b8da79d5int);
    let e = lemma_chain_multiply(p, g, e, 0x5bb98cf8a5164288bde9456bb1bcab2128183b46c2d2f23a0741da64b8da79d5int, 0x21af95364b139fb247e5013273180af3c774e9d937e02169ba45b47ebb39c326int, 0x2cd66a74e2f091832627d772fcef7089b4962e411ddd930ed1328456ca9a0f1fint);
    let e = lemma_chain_square(p, g, e, 0x2cd66a74e2f091832627d772fcef7089b4962e411ddd930ed1328456ca9a0f1fint, 0x115780c062ddd90afab969757f550457334fba7b49bb6d706bc83ff1a20d67b0int, 0x2d20c9cee6aceaf2203e6aac8bdef3fd39cc9d16a7148acf5bd2c5257c233e11int);
    let e = lemma_chain_multiply(p, g, e, 0x2d20c9cee6aceaf2203e6aac8bdef3fd39cc9d16a7148acf5bd2c5257c233e11int, 0x1092c0da3204cf4598f3e6a1dba0458e8aca4e89e1ab47336e03bcc3f93836aaint, 0x466c362f85aef61cfcc06e61d7dd4ef2079b9044dbc0371d3f4bb2235a1d117int);
    let e = lemma_chain_square(p, g, e, 0x466c362f85aef61cfcc06e61d7dd4ef2079b9044dbc0371d3f4bb2235a1d117int, 0x2ac78dbc058d6f14932941c835eb42f9aafab48d23d135897eacaae74b8de7int, 0xcc0dba0e2827afbf97f4d7319969d2018597cfe92687fb98d546c344869022aint);
    let e = lemma_chain_multiply(p, g, e, 0xcc0dba0e2827afbf97f4d7319969d2018597cfe92687fb98d546c344869022aint, 0x4af044a75550a4b56d402b8880f5779ed18572005b9167bf6a25dc85bafad07int, 0x4ab5e35c8a00c6b241f834e39b424833154ce1c39e901b9f458ab2daff8fe03int);
    let e = lemma_chain_square(p, g, e, 0x4ab5e35c8a00c6b241f834e39b424833154ce1c39e901b9f458ab2daff8fe03int, 0x3025c2393baefd6be4f16faf294ea2e1270eec0c021fd52bf01285008298c7int, 0x8432e1638505c3606ed1301ef9e6a01fd5593609bb9de6f287a32c53b575b42int);
    let e = lemma_chain_multiply(p, g, e, 0x8432e1638505c3606ed1301ef9e6a01fd5593609bb9de6f287a32c53b575b42int, 0x308cc61cd302f768e87a91d5bb310cef5e59bb6dd6c9b34e584f192d9d95042int, 0x32c89aedde231b86dc98799f1e1c1286a92797f9eb9f67a4243818a00b0ec460int);
    let e = lemma_chain_square(p, g, e, 0x32c89aedde231b86dc98799f1e1c1286a92797f9eb9f67a4243818a00b0ec460int, 0x163f0cec0dc2028bd41f1424a8a4956d3994649b3bfecadb9d08d68bef74aebaint, 0x6092b2eb753b9a177de299bacf87e723c35fe245c6d8213bd42d95e861ae7546int);
    let e = lemma_chain_multiply(p, g, e, 0x6092b2eb753b9a177de299bacf87e723c35fe245c6d8213bd42d95e861ae7546int, 0x237764c79c57b513f383106fa07b7a61d9c97272044e9fa4021aca506addd446int, 0xb059909e6be6639c36a3351c42a344cac6e373207195eb74670a745b5603520int);
    let e = lemma_chain_square(p, g, e, 0xb059909e6be6639c36a3351c42a344cac6e373207195eb74670a745b5603520int, 0x10c434f196c49bb7336e0835f8df7de2e6f3186a6e82f4a478087c2c9e19fb0int, 0x65fa403441e3e2e3e2501a5a1b35172d988ccdc794c182c34a0eaa745924a450int);
    let e = lemma_chain_multiply(p, g, e, 0x65fa403441e3e2e3e2501a5a1b35172d988ccdc794c182c34a0eaa745924a450int, 0x2573808b2e055fac8e7b8230e3d2142f9df6c41c534d7db708b304e142cf3677int, 0x1bff6123baf33d9e735c2461cbbf4c7710b013d4fc9655c6252a014a7f91c4d9int);
    let e = lemma_chain_square(p, g, e, 0x1bff6123baf33d9e735c2461cbbf4c7710b013d4fc9655c6252a014a7f91c4d9int, 0x6c2fa0bda5158761eab6ea80eb76a80656febab013d989cf3d1f7eddf3953cbint, 0x476166e569376a6e4b6b82b1f0071b7751de3ab6dd1b02305ffccfa103f5ac26int);
    let e = lemma_chain_multiply(p, g, e, 0x476166e569376a6e4b6b82b1f0071b7751de3ab6dd1b02305ffccfa103f5ac26int, 0x1a36e4d849c322631992b90260ec96592403f2375b9327ccd288c3f09d76c52eint, 0x241f14e4fca683c92a4146355c5ede49a9bf3066b5522311d22abc195ace7518int);
    let e = lemma_chain_square(p, g, e, 0x241f14e4fca683c92a4146355c5ede49a9bf3066b5522311d22abc195ace7518int, 0xb413e17f84cfe38bbf33b8d6b0d473eee85191f203638c966d007932666793bint, 0x6ec2b5de3ec7968b99226350bd413996fd0cd571de36f4f0a3fa612d61c87905int);
    let e = lemma_chain_multiply(p, g, e, 0x6ec2b5de3ec7968b99226350bd413996fd0cd571de36f4f0a3fa612d61c87905int, 0x28ad3f50f82f0d177ebb4971e4a9c3bb9666e0ec52eedc8a91f662fb6b276075int, 0x67b25b39532ce34de3afbb264068936f2e4a71b73d3147388768a29980c78200int);
    let e = lemma_chain_square(p, g, e, 0x67b25b39532ce34de3afbb264068936f2e4a71b73d3147388768a29980c78200int, 0x5cc1716ece886b328bce207a49dbea4a5d95181165be5d5dec09f0c7a4d42f61int, 0x5ecbb76b9f9edd0d1d557ccb8bc7a1e65481198a781177080893c014b92fd09fint);
    let e = lemma_chain_multiply(p, g, e, 0x5ecbb76b9f9edd0d1d557ccb8bc7a1e65481198a781177080893c014b92fd09fint, 0x22d04d3c2c326b141098e889a55f7673a9187d318d82ad46cb2e2fde6a27eeccint, 0x13dc10691b709223e724b96390b4a72d25f5e1ec361e42ebbc78e207eb9d123int);
    let e = lemma_chain_square(p, g, e, 0x13dc10691b709223e724b96390b4a72d25f5e1ec361e42ebbc78e207eb9d123int, 0x366f2d0b4d42ec21ddab5bf4da2df551f248f74f45537637e192e28baf9d2int, 0x107100b3e4a5dc2f8a1c474375a2420019c77f6ced85537f1cd96e223ab530f7int);
    let e = lemma_chain_multiply(p, g, e, 0x107100b3e4a5dc2f8a1c474375a2420019c77f6ced85537f1cd96e223ab530f7int, 0x609c0d6d9e1f88bf266f9e64dec2bfc965a89e9bc1830fcbca70ae63fdb33d4int, 0x97e8e24e25d9747682a48afebec5418c9e94ecfac4f995887a99406a57378f3int);
    let e = lemma_chain_square(p, g, e, 0x97e8e24e25d9747682a48afebec5418c9e94ecfac4f995887a99406a57378f3int, 0xc70f0f1595c7acb45a70e94cc26e40d7617b086fbb6ade1f1a377f3800a471int, 0x186f76d97636728c75979924921d3fe9d7588371b1f65da1c3ed1e54e9761238int);
    let e = lemma_chain_multiply(p, g, e, 0x186f76d97636728c75979924921d3fe9d7588371b1f65da1c3ed1e54e9761238int, 0x8f9509801714fca0b3d1fb1aa1fbd67ed1ec1b5640d9c3308b5bf525a9686adint, 0x33099d6d12948014ebd63107a2f752d2f4e075b403f54461f95972a12bd5a20bint);
    let e = lemma_chain_square(p, g, e, 0x33099d6d12948014ebd63107a2f752d2f4e075b403f54461f95972a12bd5a20bint, 0x1678263750704419efde011e8eb52f8f37d56aba48108d47b86620290d476f5fint, 0x13740c2275d0fc142b99358d6ecb67a876eee63a400782dcd51063c2b1987d1aint);
    let e = lemma_chain_multiply(p, g, e, 0x13740c2275d0fc142b99358d6ecb67a876eee63a400782dcd51063c2b1987d1aint, 0x724eb3be039ad2494660957d66c18d83a7a0842235046a1cae91269ec3aed12int, 0x7194db934adc7cca2bbcaea9066f2ce153bd3fdecbcb1c708252c090f1c7dde8int);
    let e = lemma_chain_square(p, g, e, 0x7194db934adc7cca2bbcaea9066f2ce153bd3fdecbcb1c708252c090f1c7dde8int, 0x6f48396fc6bafdbf5a8b40ed38830004e0f11839f221b5a6f49b3e7e3178f8f9int, 0x49944a7d0e2e641c8f4739bad0aae9e692334b7cf50b8ef6b78d4b545d916947int);
    let e = lemma_chain_multiply(p, g, e, 0x49944a7d0e2e641c8f4739bad0aae9e692334b7cf50b8ef6b78d4b545d916947int, 0x1b059d5172b28574da6713338f3398118235a275b55bd61669ce39a30530cd78int, 0xf2a629e5e0acb99b24b52bd782b5a5c3f796b1b5c9745547bf601b7a0442e9fint);
    let e = lemma_chain_square(p, g, e, 0xf2a629e5e0acb99b24b52bd782b5a5c3f796b1b5c9745547bf601b7a0442e9fint, 0x1fbe33fef6b34056595481f45aa4663b4fa039aef8e3d1d32c1461edc2937f6int, 0x6ffc32baf8caf4dfa6ac67c8dc94a95acb4a2161b58aa21d1b292398b0cc4ecbint);
    let e = lemma_chain_multiply(p, g, e, 0x6ffc32baf8caf4dfa6ac67c8dc94a95acb4a2161b58aa21d1b292398b0cc4ecbint, 0x2920601f84d7059ce744e3e5737ad06e5c8e6359d40e8aa0dfe0fcdfd58a19c8int, 0x39c4fdf1625647cd41687d0661f6f613dad0b9bf23e54451d2519a5b96098a93int);
    let e = lemma_chain_square(p, g, e, 0x39c4fdf1625647cd41687d0661f6f613dad0b9bf23e54451d2519a5b96098a93int, 0x1cc9a988d5a6e2db641bc166397d1b08ffaf6afa7df1465a6843568c554f60dfint, 0x6127c54db2261d597f68775a8a223b9f3d980680e86400c147829993f8096f8aint);
    let e = lemma_chain_multiply(p, g, e, 0x6127c54db2261d597f68775a8a223b9f3d980680e86400c147829993f8096f8aint, 0x23ae23e35d45b79634dd6c19ed22e5136f4fc764e93b194cc1921a6782fcca77int, 0x6f5b8b8e2093d3ada7646b64a21380edb7dd83f24a2a644fb6d26df44894bff3int);
    let e = lemma_chain_square(p, g, e, 0x6f5b8b8e2093d3ada7646b64a21380edb7dd83f24a2a644fb6d26df44894bff3int, 0x6af79221e54d68e6dd6d1c26bc19d9adc16a9b688930ed144f59d1c13400ee10int, 0x36f4af1bdda1111fa3dfd69d351a39cfa29c128ae570e6986ee9f3edfce39299int);
    let e = lemma_chain_multiply(p, g, e, 0x36f4af1bdda1111fa3dfd69d351a39cfa29c128ae570e6986ee9f3edfce39299int, 0x142eb6d8d6a7b752434e9ad59e7cfec21e0bd26a3443e298df1d7fe116615315int, 0x22066211043036bc1c57c0b68b53d19b36b0063fa6767a74f0100baa8d8c16b4int);
    let e = lemma_chain_square(p, g, e, 0x22066211043036bc1c57c0b68b53d19b36b0063fa6767a74f0100baa8d8c16b4int, 0x9fc7eb8bddec65b6efc14f0ffbfa849d0700063c7045be9adafb7dc22c8d261int, 0x4d1b49d97b1d702c2931e30b313acda22942a0d9ec63eb5221de573ffc1a9c2fint);
    let e = lemma_chain_square(p, g, e, 0x4d1b49d97b1d702c2931e30b313acda22942a0d9ec63eb5221de573ffc1a9c2fint, 0x33490dc2a29e804a320ad519d3952c3f7e7926801f802fcf76fc43ecb2b98b51int, 0x6df80317d509fc662b76b18841b051788236222b329f834d5ec67ec6ee1bc550int);
    let e = lemma_chain_square(p, g, e, 0x6df80317d509fc662b76b18841b051788236222b329f834d5ec67ec6ee1bc550int, 0x6850cca0d5e63ef3442de83c43d7c8b7dc62d0a8dd7d84f01e1f7bbe5e435ca3int, 0x6129217947ded95bc7513cfc86e08c639e9f639396427665be8b7e8898b0dc5dint);
    let e = lemma_chain_square(p, g, e, 0x6129217947ded95bc7513cfc86e08c639e9f639396427665be8b7e8898b0dc5dint, 0x516e69cf7ddb1fea832d635836c742f614c8978f6d3f27dedcfe7e860be66d8cint, 0x19b1ec1d76ad8108f186b9267a20c86135c82055138e27ef37ce1db421a98c3dint);
    let e = lemma_chain_square(p, g, e, 0x19b1ec1d76ad8108f186b9267a20c86135c82055138e27ef37ce1db421a98c3dint, 0x5b1f7bf01646ce1af40a4441add94003b00f64d8855dcafa1615d148ba4536dint, 0x593e2dc4f733112f08a50398409e9369b0719d039a586d37970f2492a3b8731cint);
    let e = lemma_chain_square(p, g, e, 0x593e2dc4f733112f08a50398409e9369b0719d039a586d37970f2492a3b8731cint, 0x44b33c4e19b3e8290541cb2b160b8d062b8a1e8986bc6d4825b08699fff18359int, 0x498b5de6bc12222ceba93b39ce701eae7cd7e7a2647748266700902a5410a7b7int);
    let e = lemma_chain_square(p, g, e, 0x498b5de6bc12222ceba93b39ce701eae7cd7e7a2647748266700902a5410a7b7int, 0x2ea7feabcf142e038d3ceb104bf3da5f468cd7b59ad79bb43500649a74726149int, 0x4573a3ff26999e8942bce571b36d7686a5a767c54e76b50aef31d3e0084de388int);
    let e = lemma_chain_square(p, g, e, 0x4573a3ff26999e8942bce571b36d7686a5a767c54e76b50aef31d3e0084de388int, 0x299ba34e0d8d498346f0135a5ea2f1d470b670c87b1064bb055c5a3a29907b58int, 0x5819d3d8e20db7e39d3ef9835305b9526d0c12a8440c95df1be975090079fce8int);
    let e = lemma_chain_square(p, g, e, 0x5819d3d8e20db7e39d3ef9835305b9526d0c12a8440c95df1be975090079fce8int, 0x42f401526879a3588d6fb6d00617b5c096625338284cee9a2d169de342b2dff4int, 0x3694f7e5675b64288081c42ef9aacf853bdc00f4af935f94edac5481ca76b24cint);
    let e = lemma_chain_square(p, g, e, 0x3694f7e5675b64288081c42ef9aacf853bdc00f4af935f94edac5481ca76b24cint, 0x19b2d115c68ce14c20d396e0d4e969f4c2a6d5021c64de6314f6e010abf38a29int, 0x3de7a6174bb33a6491fc5f18c08fb925a211a0d70b38a40275ddc3191e4a3c67int);
    let e = lemma_chain_square(p, g, e, 0x3de7a6174bb33a6491fc5f18c08fb925a211a0d70b38a40275ddc3191e4a3c67int, 0x210e8725b17e922759cf247edf1f41fe942483f99ce56200f7f14c9a8822432bint, 0x61eb6b2812e8acd1f7047a4579564fca905de2c95abb115f0621285d95aa2e46int);
    let e = lemma_chain_square(p, g, e, 0x61eb6b2812e8acd1f7047a4579564fca905de2c95abb115f0621285d95aa2e46int, 0x52b55ab2649b32de253e8b83747e7b02b80063d658028865c9ef363a72cd4e68int, 0x21203a487fe36cc4ee36f92e30fbd48efd5d3a850b963137228522088687ecbcint);
    let e = lemma_chain_square(p, g, e, 0x21203a487fe36cc4ee36f92e30fbd48efd5d3a850b963137228522088687ecbcint, 0x9772dc661364392f723c7974248f0a7954bf92f3cd201c9487340b5493a317fint, 0x370bafd07ad0bacb045ad4fc100b01bd9285cb5fde85a555b632408a0ff8f891int);
    let e = lemma_chain_square(p, g, e, 0x370bafd07ad0bacb045ad4fc100b01bd9285cb5fde85a555b632408a0ff8f891int, 0x1a23152f222eb2eeb02eb33e5a3ef096a0d4f0612cfc294bd1ccfaf29d18088fint, 0x403dc45880fc74a4645c23508ab4153e760b33e934701a0c5a2a933eb313992int);
    let e = lemma_chain_square(p, g, e, 0x403dc45880fc74a4645c23508ab4153e760b33e934701a0c5a2a933eb313992int, 0x23995d1c0d739cd309e3c81fd748cb6804e9eda883fb6ed46ff2b89d93af99int, 0x712e74ebac271b471144405d97e5ee9fdaf288998e12c958e59eda358542a7abint);
    let e = lemma_chain_square(p, g, e, 0x712e74ebac271b471144405d97e5ee9fdaf288998e12c958e59eda358542a7abint, 0x6e7febf5f4e25f1c2882228e4de629a8ea56d44ca24245b8af31324dcc4e723aint, 0x4693f31ea7ba0f3e2aae5d03a82cb152d9083707f24742c3fab83c4cc3ae19ffint);
    let e = lemma_chain_square(p, g, e, 0x4693f31ea7ba0f3e2aae5d03a82cb152d9083707f24742c3fab83c4cc3ae19ffint, 0x2af7e2cf8ad5b22970e83cde9e9be65dee31d1a5ad374fb357a55b3bc0e488c8int, 0x202aed25ce8e6205ab14b0ad89aa289fd0dda5476e8d329434f0d6f612634339int);
    let e = lemma_chain_square(p, g, e, 0x202aed25ce8e6205ab14b0ad89aa289fd0dda5476e8d329434f0d6f612634339int, 0x8ed04f2b33c4a28c804985618e0b4a473f6dcc820ad540e85789a13f22b27b2int, 0x6d09a7aa1d22b949e9caa0618b374db9ff0003e9ef439451ec0d271b2191baffint);
    let e = lemma_chain_square(p, g, e, 0x6d09a7aa1d22b949e9caa0618b374db9ff0003e9ef439451ec0d271b2191baffint, 0x668e81831ecab3a3ad488f3e9fbef85302dc4758d9acfec9a0a35e5aab39be28int, 0x506db28cd8c7d1ae0acf5542d43f0fda3af6669ef4b24bc4b09a68c2703bcbd9int);
    let e = lemma_chain_square(p, g, e, 0x506db28cd8c7d1ae0acf5542d43f0fda3af6669ef4b24bc4b09a68c2703bcbd9int, 0x37ccacd7b6b3887f1208e0a77d3abcaf14a0745cab5f879b30108ec9753055acint, 0x79114461e4a1131fa3b366dda348f3893ec958cdc54a63cc7a96c1c03278845int);
    let e = lemma_chain_square(p, g, e, 0x79114461e4a1131fa3b366dda348f3893ec958cdc54a63cc7a96c1c03278845int, 0x7e6f33b05d0976d31988113a02d2beb785729a45d1aabd95443b085d25cbe7int, 0x6f482e6efad085ce099ee55f6c643d7050090554eb33fa5104a58b430e6996b2int);
    let e = lemma_chain_square(p, g, e, 0x6f482e6efad085ce099ee55f6c643d7050090554eb33fa5104a58b430e6996b2int, 0x6ad26203cd813fbab085c87c4212842bff93b2cdeb5620670258adaeebf6b45dint, 0x7a0985bbe50fcdf18c268a03833d98497ab86dadb989e51f0cbebe282c25f67int);
    let e = lemma_chain_square(p, g, e, 0x7a0985bbe50fcdf18c268a03833d98497ab86dadb989e51f0cbebe282c25f67int, 0x8077ccac4ae8e4fa80b0179990b53ff29406f9ad9018186edcf895e55f1988int, 0x2ca0b0c5760e32cd0b9943d2d6d61529ebbc8a5b856414d3e0fda947724a81e9int);
    let e = lemma_chain_square(p, g, e, 0x2ca0b0c5760e32cd0b9943d2d6d61529ebbc8a5b856414d3e0fda947724a81e9int, 0x112e0aa230393f58f8072b5a4a771d8f42aec81543039a04e3c6fd5ff861e5f6int, 0x7328993461faf18fdb43e6645492ac8622df56fce8bd22da93050b36e83ec01bint);
    let e = lemma_chain_square(p, g, e, 0x7328993461faf18fdb43e6645492ac8622df56fce8bd22da93050b36e83ec01bint, 0x7264da09fe727d5a56d8777ccc083b3694fe86193c057b85c4df1610ae1c1feaint, 0x1325b766f5943eadc0dcf3788fe23b2f533c9d94a870e33f9df832cfdf2062efint);
    let e = lemma_chain_square(p, g, e, 0x1325b766f5943eadc0dcf3788fe23b2f533c9d94a870e33f9df832cfdf2062efint, 0x32997d5e444426efb05c78aef744471afcda3b6f27e20d3b4d62aa92d7020f5int, 0x640d097461a2eeaf4e84b3cd7dc75b61db872ef3dce28e788d28c143168bba2cint);
    let e = lemma_chain_square(p, g, e, 0x640d097461a2eeaf4e84b3cd7dc75b61db872ef3dce28e788d28c143168bba2cint, 0x56591afaf1c18abc59336533e63761fe0ba7f2c4b85ecf779b90c7d1262f54a4int, 0x5e73ed8c432405d0ae25b21df6c52b2a6c7876bf0928e68fae34a81e1cfca2ecint);
    let e = lemma_chain_square(p, g, e, 0x5e73ed8c432405d0ae25b21df6c52b2a6c7876bf0928e68fae34a81e1cfca2ecint, 0x4cf4a515f4a6c521b61faa99a6b03856b98308484a3acc0c81a6efad7bc71048int, 0x3b25b475ab91194b687a73c92f188612fc010d53ccb225425e544cdf4c887948int);
}

/// The power `(q - 1) / 2` of the curve constant `d`: the steps from the exponent
/// 0x73eda753299d7d483339d80809a1d80553bda402fffe5bfeffffffff0000000
/// to the exponent
/// 0x39f6d3a994cebea4199cec0404d0ec02a9ded2017fff2dff7fffffff80000000.
proof fn lemma_power_of_d_part_7(p: int, g: int)
    requires
        p == q(),
        g == 0x2a9318e74bfa2b48f5fd9207e6bd7fd4292d7f6d37579d2601065fd6d6343eb1int,
        pow_mod(g, 0x73eda753299d7d483339d80809a1d80553bda402fffe5bfeffffffff0000000nat, p) == 0x3b25b475ab91194b687a73c92f188612fc010d53ccb225425e544cdf4c887948int,
    ensures
        pow_mod(g, 0x39f6d3a994cebea4199cec0404d0ec02a9ded2017fff2dff7fffffff80000000nat, p) == 0x73eda753299d7d483339d80809a1d80553bda402fffe5bfeffffffff00000000int,
{
    let e: nat = 0x73eda753299d7d483339d80809a1d80553bda402fffe5bfeffffffff0000000nat;
    let e = lemma_chain_square(p, g, e, 0x3b25b475ab91194b687a73c92f188612fc010d53ccb225425e544cdf4c887948int, 0x1e2d61f005c32493544abee9073232a5ac25162878522f61d0adcf23848e746dint, 0x60b9f524ccbc6d03787d7d083f1b189fc54913cc6b4e0c269fc8017d5166afd3int);
    let e = lemma_chain_square(p, g, e, 0x60b9f524ccbc6d03787d7d083f1b189fc54913cc6b4e0c269fc8017d5166afd3int, 0x50b47aa9e214905572f8fc4d4ed49e2b17a0e169ceff03ce5420a66b1ae627e8int, 0x73eda753299d7d47a5e80b39939ed33467baa40089fb5bfefffeffff00000001int);
    let e = lemma_chain_square(p, g, e, 0x73eda753299d7d47a5e80b39939ed33467baa40089fb5bfefffeffff00000001int, 0x73eda753299d7d4718963e6b1d9bce6427fd47ff13fa0000fffe000000000001int, 0x73eda753299d7d483339d80809a1d80553bda402fffe5bfeffffffff00000000int);
}

/// The power `(q - 1) / 2` of the curve constant `d`.
pub proof fn lemma_power_of_d()
    ensures
        pow_mod(0x2a9318e74bfa2b48f5fd9207e6bd7fd4292d7f6d37579d2601065fd6d6343eb1int, 0x39f6d3a994cebea4199cec0404d0ec02a9ded2017fff2dff7fffffff80000000nat, q()) == 0x73eda753299d7d483339d80809a1d80553bda402fffe5bfeffffffff00000000int,
{
    let p = q();
    let g = 0x2a9318e74bfa2b48f5fd9207e6bd7fd4292d7f6d37579d2601065fd6d6343eb1int;
    lemma_chain_start(p, g);
    lemma_power_of_d_part_1(p, g);
    lemma_power_of_d_part_2(p, g);
    lemma_power_of_d_part_3(p, g);
    lemma_power_of_d_part_4(p, g);
    lemma_power_of_d_part_5(p, g);
    lemma_power_of_d_part_6(p, g);
    lemma_power_of_d_part_7(p, g);
}

} // verus!
