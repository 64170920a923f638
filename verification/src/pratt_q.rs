//! The certificate of primality for the characteristic `q` of the base field:
//! seven is a primitive root modulo `q`.
use vstd::prelude::*;
use vstd::arithmetic::div_mod::lemma_small_mod;
use crate::base::q;
use crate::pratt::{lemma_prime_3, lemma_prime_11, lemma_prime_19, lemma_prime_10177, lemma_prime_125527, lemma_prime_859267, lemma_prime_906349, lemma_prime_2508409, lemma_prime_2529403, lemma_prime_52437899, lemma_prime_254760293};
use crate::modular::pow_mod;
use crate::primes::{
    is_prime, is_primitive_root, refutes, lemma_chain_multiply, lemma_chain_rebase,
    lemma_chain_square, lemma_chain_start, lemma_euclid, lemma_lucas, lemma_root_gives_prime,
    lemma_two_is_prime,
};

verus! {

/// A power of the root 7 modulo the prime `q`: the steps from the exponent
/// 0
/// to the exponent
/// 0x348040000000400.
proof fn lemma_power_q_1_part_1(p: int, g: int)
    requires
        p == q(),
        g == 7,
        pow_mod(g, 0, p) == 1,
    ensures
        pow_mod(g, 0x348040000000400, p) == 0x16cfd78056b974d74fa388a427b04b1003c71cfbae5707bdaf221452f242cc40int,
{
    let e: nat = 0;
    let e = lemma_chain_square(p, g, e, 1, 0, 1);
    let e = lemma_chain_multiply(p, g, e, 1, 0, 7);
    let e = lemma_chain_square(p, g, e, 7, 0, 0x31);
    let e = lemma_chain_multiply(p, g, e, 0x31, 0, 0x157);
    let e = lemma_chain_square(p, g, e, 0x157, 0, 0x1cb91);
    let e = lemma_chain_square(p, g, e, 0x1cb91, 0, 0x339014821);
    let e = lemma_chain_multiply(p, g, e, 0x339014821, 0, 0x168f08f8e7);
    let e = lemma_chain_square(p, g, e, 0x168f08f8e7, 0, 0x1fce575ce1692706071int);
    let e = lemma_chain_square(p, g, e, 0x1fce575ce1692706071int, 0, 0x3f39f7935e27f9685fd64ab94cec16b34f1e1int);
    let e = lemma_chain_square(p, g, e, 0x3f39f7935e27f9685fd64ab94cec16b34f1e1int, 0x227bb42183, 0x4dbe2b6749917d902165e559aa047cd6c237ebfa85c54a73c5dc3fc7c23d463eint);
    let e = lemma_chain_multiply(p, g, e, 0x4dbe2b6749917d902165e559aa047cd6c237ebfa85c54a73c5dc3fc7c23d463eint, 4, 0x507c92865c8479d01ce1e5537f9809ca0090e3cda86b992e6905be7a4facebaeint);
    let e = lemma_chain_square(p, g, e, 0x507c92865c8479d01ce1e5537f9809ca0090e3cda86b992e6905be7a4facebaeint, 0x37e15287231ae36a1f4bd86afacd40cd8ab2b736ed33606528c43d598d103319int, 0x5b96ce5a7557c97ec9db8919389fd75395d82acb67a181600c8b0dda61b8b72bint);
    let e = lemma_chain_square(p, g, e, 0x5b96ce5a7557c97ec9db8919389fd75395d82acb67a181600c8b0dda61b8b72bint, 0x485c214a3fd5c646e7e93943cc79ad01ba22ceb7ec30c75f05971b9c7108c54eint, 0x18d524e57eadb15da03da763d22176fbaca76cd2e46b1fc5b2a37d03f5d5bbebint);
    let e = lemma_chain_square(p, g, e, 0x18d524e57eadb15da03da763d22176fbaca76cd2e46b1fc5b2a37d03f5d5bbebint, 0x551bdba6fd0977459374c15f9e583e478617b150c8fb3f09ca79645778a519fint, 0x12e211f7b84956c15810272bf3fada7582a5e338b46857445cbd6cfd9574d81aint);
    let e = lemma_chain_square(p, g, e, 0x12e211f7b84956c15810272bf3fada7582a5e338b46857445cbd6cfd9574d81aint, 0x31366d50e56a9eea7adf9611d63f16064f138a3238c0db62587d8f39da64aafint, 0x657dfa94cc0d81ebf5dc77b9cfe7f19e6579bb9fc87f46e1950cbe02345597f5int);
    let e = lemma_chain_square(p, g, e, 0x657dfa94cc0d81ebf5dc77b9cfe7f19e6579bb9fc87f46e1950cbe02345597f5int, 0x58da841b84c97cab3f28701573ccebd4d4a8f2004399faf44dd807e3642c3db5int, 0x2767c79505ec9e61aeb652cf2785e20cb505d912547427eb70e523ff66b8b2c4int);
    let e = lemma_chain_square(p, g, e, 0x2767c79505ec9e61aeb652cf2785e20cb505d912547427eb70e523ff66b8b2c4int, 0xd64f4200e6d35c044da5867fc50514c6400473562387fddd911bf05950e57aeint, 0x9118bb520e650553c6e920d46bcb79616e38e3df8d0326d5cb206d61186ce62int);
    let e = lemma_chain_square(p, g, e, 0x9118bb520e650553c6e920d46bcb79616e38e3df8d0326d5cb206d61186ce62int, 0xb59a9274333784e4b49b80b56866b4aea7520ec0aa75580d9d73ec993b99f4int, 0x8722ea9b0942767e0cf0af0d4bdfdb9ed00443be1e4ef9d9c26f8451fbe4390int);
    let e = lemma_chain_square(p, g, e, 0x8722ea9b0942767e0cf0af0d4bdfdb9ed00443be1e4ef9d9c26f8451fbe4390int, 0x9d86ea7b57cf25dff6681fe6701a384be6a45ad44ef0b94c14f01df374dc7aint, 0x9fd170b13d84c08d206cd32c1daa498dfe15f16b2f4117cf986f9c1481fd486int);
    let e = lemma_chain_square(p, g, e, 0x9fd170b13d84c08d206cd32c1daa498dfe15f16b2f4117cf986f9c1481fd486int, 0xdc5307b332af52710036ca28797b2ceae024a8f35e7ee70ae1df12c448af6bint, 0x2f13da8b857587a0ab47695c47e9427f1dc49c2d14664661a16bd9e4c49986b9int);
    let e = lemma_chain_multiply(p, g, e, 0x2f13da8b857587a0ab47695c47e9427f1dc49c2d14664661a16bd9e4c49986b9int, 2, 0x61afab2a52fbbad448803175e41d216f28e4fd358ecf34ad69f2f5436032af0dint);
    let e = lemma_chain_square(p, g, e, 0x61afab2a52fbbad448803175e41d216f28e4fd358ecf34ad69f2f5436032af0dint, 0x525089c7afc2ffd9d6b7f7429ad39e517cb5e94ff21ebaa8217afe8fcb1b1bf6int, 0x3c7ab2e42e298a52a42aad215d2cc3b3905cd6b4764052b7c9f0ad86cdabaab3int);
    let e = lemma_chain_square(p, g, e, 0x3c7ab2e42e298a52a42aad215d2cc3b3905cd6b4764052b7c9f0ad86cdabaab3int, 0x1f8d412897a3bcdb2aac49e93e9583808047c7515937146f0be684a80fe123d2int, 0x4877e26876504ce8e3f937c70d1a8f7cfcdc448704f680d82343a30e1b131557int);
    let e = lemma_chain_square(p, g, e, 0x4877e26876504ce8e3f937c70d1a8f7cfcdc448704f680d82343a30e1b131557int, 0x2d4d05bee348ef291c5f5eb740b979eaa6adaa2f35ff12db259c054a4c96d74fint, 0x1f21515b1ff125e0931b71fd3e88015d3495601fd2d4c3a262a4f9753a1a8c42int);
    let e = lemma_chain_square(p, g, e, 0x1f21515b1ff125e0931b71fd3e88015d3495601fd2d4c3a262a4f9753a1a8c42int, 0x85bfeaf0caff45af4cff7be9e9f2c64fc3c4aed11090a71933d31b9e4577a6dint, 0x6801aa4a3002337345e9be42524b87447d77f2d7cdc08b595bf6eb55cde8c697int);
    let e = lemma_chain_square(p, g, e, 0x6801aa4a3002337345e9be42524b87447d77f2d7cdc08b595bf6eb55cde8c697int, 0x5d4f897515e86b4cd447da6e8a5a2cda97f236b46b08180534da4c6ec46f6280int, 0x4621915574d896c5e9420a00fc8f5819fa06c21c197f83405294d20d9d4e8a91int);
    let e = lemma_chain_square(p, g, e, 0x4621915574d896c5e9420a00fc8f5819fa06c21c197f83405294d20d9d4e8a91int, 0x2a6d0dc800160d65d54dae05727f8822e19790b2f96e6839fbcc5847fc8ef491int, 0x184368588b04122d989530ffd0d67efd2452aa0da3fd01825264011198cdb190int);
    let e = lemma_chain_square(p, g, e, 0x184368588b04122d989530ffd0d67efd2452aa0da3fd01825264011198cdb190int, 0x51405798f9e8d8c9d77fb73ecaca7ea003f1fa053c00cf99ca544a6d7ec29b5int, 0x31aa3e836ec2dd091300825a0d523f11d3172b3fd3ce167c75b0824f03dc474bint);
    let e = lemma_chain_square(p, g, e, 0x31aa3e836ec2dd091300825a0d523f11d3172b3fd3ce167c75b0824f03dc474bint, 0x1546ed3f9e49f1160833e251e9367dedbeba1afb18819ce130023274d1b5f1bdint, 0x697fbd0ac9816da992734123a9511c733fe7b22a0aab9054513ed2c88d0cbe3cint);
    let e = lemma_chain_square(p, g, e, 0x697fbd0ac9816da992734123a9511c733fe7b22a0aab9054513ed2c88d0cbe3cint, 0x600204e0b262b3c9d67d81c93d734dd79321a81082ae4cd34ae7fd8aa2775a95int, 0x151c6726ae58cabdf7e1bd960e3fb7e57e159dc5a5c9ddc00e5a14fad885c37bint);
    let e = lemma_chain_square(p, g, e, 0x151c6726ae58cabdf7e1bd960e3fb7e57e159dc5a5c9ddc00e5a14fad885c37bint, 0x3d8290f23e1dd3c76a2af8c6409fce56aad5c8d92b5d6b473694b9c6689aa58int, 0x53acea4e2dd88feea1bfeac0f99ed50a7ec5b46695ca1ccf5c8b62bbdc88f2c1int);
    let e = lemma_chain_square(p, g, e, 0x53acea4e2dd88feea1bfeac0f99ed50a7ec5b46695ca1ccf5c8b62bbdc88f2c1int, 0x3c65512709fac3ec9bb3664809b18e660de61abf475a228b4693ed54a6d2bcd8int, 0x48216bc476fa0286465edb3a34d1468a7badcbb2259dfda67dbee3f7e46eb8a9int);
    let e = lemma_chain_square(p, g, e, 0x48216bc476fa0286465edb3a34d1468a7badcbb2259dfda67dbee3f7e46eb8a9int, 0x2ce12cef163aa183a42d6d04daf2acfcda9f9e81b2b2e8302dd87d5b93d010c7int, 0x487174a1b2861d429c08f57bea4ba96168bbf16020686af47fcd0859aa9f4ecaint);
    let e = lemma_chain_square(p, g, e, 0x487174a1b2861d429c08f57bea4ba96168bbf16020686af47fcd0859aa9f4ecaint, 0x2d44fc828e71ea1974b3f886d092272069009dc037d7c899668f5c5a522b9aa5int, 0x32125f8e3226ee4d5e5877f118a39f97da86516f12d268d890899e85ed001cbfint);
    let e = lemma_chain_square(p, g, e, 0x32125f8e3226ee4d5e5877f118a39f97da86516f12d268d890899e85ed001cbfint, 0x15a08323936631f4df31dab06badea088e4c391d4dec0baae82a46783dfbd08dint, 0x61c0ca58f65595ce320e4a4c58c04b7938aeabcdbf6a72bc3b4261c46b3e85f4int);
    let e = lemma_chain_square(p, g, e, 0x61c0ca58f65595ce320e4a4c58c04b7938aeabcdbf6a72bc3b4261c46b3e85f4int, 0x526d67398d8280afcc85614bc4051211017f6ac2ffffcf8c2d727f28382341acint, 0x44e90607430bda1b3bb4c5632630a0d4ebd9b9c08e92bd9d5aae1b62e8242ee4int);
    let e = lemma_chain_square(p, g, e, 0x44e90607430bda1b3bb4c5632630a0d4ebd9b9c08e92bd9d5aae1b62e8242ee4int, 0x28f6325784c1162dd649b9380e71c606ecf0c7f0ffe30f180b220a37a37510b9int, 0x6f12506b6627dd5a53a60489ee91acf6b736326b1c6cc0d6d65c9f2bd541aa57int);
    let e = lemma_chain_square(p, g, e, 0x6f12506b6627dd5a53a60489ee91acf6b736326b1c6cc0d6d65c9f2bd541aa57int, 0x6a6b106ab3183ed470ab482bcc745a7efed18e6b66b5ad0df7cb33dc64a57126int, 0x312852023eb3c473c1a6d17510802d12ce29c25c411323cd36afded052e0386bint);
    let e = lemma_chain_square(p, g, e, 0x312852023eb3c473c1a6d17510802d12ce29c25c411323cd36afded052e0386bint, 0x14d82c80395992622d5e0b3eccb0efebb5d8162515ce85119a400a5610f42476int, 0x195ec996f7997952f05a5fdf5cf15dd5860f05a82756beb66607c48742bad843int);
    let e = lemma_chain_square(p, g, e, 0x195ec996f7997952f05a5fdf5cf15dd5860f05a82756beb66607c48742bad843int, 0x58d5901a3f812c0ca7b01d1871bc7b1154d6eaa3e06aac4dd78ceb81acbc66aint, 0x523ad07af09eeef5c7ff7e4fb85e265be5c37d211ce8b5d40298863d69415b1fint);
    let e = lemma_chain_square(p, g, e, 0x523ad07af09eeef5c7ff7e4fb85e265be5c37d211ce8b5d40298863d69415b1fint, 0x3a53aa469f51ecbf3ed5ee434ed1c11db541222dfbc9e934c154627b34e84be0int, 0x1bf07cd11e009bffac9e3cac30bf4af35b97a8966b2d6272e43477999f44c1e1int);
    let e = lemma_chain_square(p, g, e, 0x1bf07cd11e009bffac9e3cac30bf4af35b97a8966b2d6272e43477999f44c1e1int, 0x6bbca8ca03b5d632d978035f161937cabe41e85f59c871998f74d8961934f2dint, 0x1f90714a0f489edd082268b01972c98a4c90f722e196358a038969e2aec9b894int);
    let e = lemma_chain_square(p, g, e, 0x1f90714a0f489edd082268b01972c98a4c90f722e196358a038969e2aec9b894int, 0x898176869c3dbb2100cd3a7d28bbde7056a5a5f7898a1b84c0cc153a22b858bint, 0x3704276ad36327715ae112e31f6e8790b4ea33451a93830be970e763eb519005int);
    let e = lemma_chain_square(p, g, e, 0x3704276ad36327715ae112e31f6e8790b4ea33451a93830be970e763eb519005int, 0x1a1bee5f384936b6107d67b342e0d83e4482f6535ccf8fb424b50bf4e93ecd8bint, 0x90a7dc8d48156551399ce99d0b04801a1044d69016fad6dee3703d9b8f0d28eint);
    let e = lemma_chain_square(p, g, e, 0x90a7dc8d48156551399ce99d0b04801a1044d69016fad6dee3703d9b8f0d28eint, 0xb480769c3f42153ea3655655699257b6ecebd3c60c2665628957589d4b7b33int, 0x158f84667e3bd9ce79b85ebe10311d4df71e1fb1382fa38d6e957dcdfa21cb91int);
    let e = lemma_chain_square(p, g, e, 0x158f84667e3bd9ce79b85ebe10311d4df71e1fb1382fa38d6e957dcdfa21cb91int, 0x4028844c3262072edb8d1c52a865929308cb8a35a18e31b203b4b03441ee81eint, 0x16b4830c9f3015a9a8a0227a8f0d0c63235dcfb333526e0745ff43620d226003int);
    let e = lemma_chain_square(p, g, e, 0x16b4830c9f3015a9a8a0227a8f0d0c63235dcfb333526e0745ff43620d226003int, 0x4726896f5bfa2c6d761a94848ee1fb84f0ee4b7c66e4f555aa748326c7782e5int, 0x7a9d5859e01411af7c4fe9f16d1717b97b9f60e33e72e970309d15c8656bd24int);
    let e = lemma_chain_square(p, g, e, 0x7a9d5859e01411af7c4fe9f16d1717b97b9f60e33e72e970309d15c8656bd24int, 0x81afc2a5196a00e740f77f427ecbb339ec99be69dd0bc58ab89fd1003d41f1int, 0x414f17d2b6078d4e5e276be3a840432f9a5b22f5856bf9c70fb847654fb0eb1fint);
    let e = lemma_chain_square(p, g, e, 0x414f17d2b6078d4e5e276be3a840432f9a5b22f5856bf9c70fb847654fb0eb1fint, 0x24cace6dddb3c7173fb88835693bd990850eb8523367d5f8bdff5d26bb8b90f8int, 0xdf76e6559ff32f498063f2797c332ae318a5caba5367483b8ef97a889065cc9int);
    let e = lemma_chain_square(p, g, e, 0xdf76e6559ff32f498063f2797c332ae318a5caba5367483b8ef97a889065cc9int, 0x1aec082c357632758a4acbc608939069a22e6a4b1cd8999dceaf5e1f22a11a2int, 0x21ca9c35657b5d705602db4ee6509f23df77f8f72d1ba37be7b3d107aae3042fint);
    let e = lemma_chain_square(p, g, e, 0x21ca9c35657b5d705602db4ee6509f23df77f8f72d1ba37be7b3d107aae3042fint, 0x9d9875bcd8813be7375933f749e87472c10a5bbd5340779e348ebcc62f2c727int, 0x722faae5745e725cf02785153a3217ff7050eefe46f3b6e9a2b51ecb7478b97aint);
    let e = lemma_chain_square(p, g, e, 0x722faae5745e725cf02785153a3217ff7050eefe46f3b6e9a2b51ecb7478b97aint, 0x70786236ad9482ab5dac1b729bc0151f70534a830123eb22bf5ea3ea88d15a13int, 0x3c652573c0ea3df443bfea691b43864e4f71ee934eba2561afe316a96ff03411int);
    let e = lemma_chain_square(p, g, e, 0x3c652573c0ea3df443bfea691b43864e4f71ee934eba2561afe316a96ff03411int, 0x1f76c851a34ff1d3ef8f9c82c7e370cafce31acca0262662c01a2d8510608a3cint, 0x54676526bd7faa5fe10e059208d35a6f03a652c0b46fdace297635b158165ee5int);
    let e = lemma_chain_multiply(p, g, e, 0x54676526bd7faa5fe10e059208d35a6f03a652c0b46fdace297635b158165ee5int, 5, 0xb2f7f6f5e6a36362740eed60d9e40ee76d80f35ef172fa8223b77de689c983eint);
    let e = lemma_chain_square(p, g, e, 0xb2f7f6f5e6a36362740eed60d9e40ee76d80f35ef172fa8223b77de689c983eint, 0x1144a12ceed8e55a4d5c83890e33868bf24e80111c27707dd1274749ee58c4eint, 0x2254c16be8b9ec325ea8dafb5930b66901d5114f7d666e34964862dda73422b6int);
    let e = lemma_chain_square(p, g, e, 0x2254c16be8b9ec325ea8dafb5930b66901d5114f7d666e34964862dda73422b6int, 0xa2ab4e20d5c36d5aac3070bd80ae4ba83822c8f5698d5c75b4cacf6c5f8ddf8int, 0x5afdff7b7d66ccd14204c6458609aca7181a06e8b9afb10640d88724ccabfb6cint);
    let e = lemma_chain_square(p, g, e, 0x5afdff7b7d66ccd14204c6458609aca7181a06e8b9afb10640d88724ccabfb6cint, 0x476b770bc4624f8b412f1b6e6511b6202233484d0e71fc9609bbf581c63efeaaint, 0x57a0ceeffd2223fb6157a4553d8b674558650ac6168235bb99f033c632f5f6e6int);
    let e = lemma_chain_square(p, g, e, 0x57a0ceeffd2223fb6157a4553d8b674558650ac6168235bb99f033c632f5f6e6int, 0x423c8f27d2b858fdd1a8048f2ab41ec7852bebdcdf9adeb15830d24a3301f88dint, 0x4a20085d22390bf7224a416dbeba68931282e319838b5038950fb6cf2758de17int);
    let e = lemma_chain_square(p, g, e, 0x4a20085d22390bf7224a416dbeba68931282e319838b5038950fb6cf2758de17int, 0x2f655d8bd1eea628551ba4450239b10383804232cd00856fc6ae359d029972f9int, 0x50380a4f69a9a3d9f155b75750b4e59de995cb7a483073ba0c294d126fe27318int);
    let e = lemma_chain_square(p, g, e, 0x50380a4f69a9a3d9f155b75750b4e59de995cb7a483073ba0c294d126fe27318int, 0x378251e17e5470aedf2ca18a784b92e5c0e0e9a2b0564407fd371fb8f2b3f438int, 0x6912485cfdd18f6092756fd38a9a09f544cdb961af50a8be39279bfd476a9e08int);
    let e = lemma_chain_square(p, g, e, 0x6912485cfdd18f6092756fd38a9a09f544cdb961af50a8be39279bfd476a9e08int, 0x5f3b348f2f3ddbed02224a8ab7ab12df01514e9361fd4a6e1f2e9f4af4331886int, 0x38c1f5326280c4e3463e3b7aeecd593f0e32ce42dc53452fe37ad51abbfac7baint);
    let e = lemma_chain_square(p, g, e, 0x38c1f5326280c4e3463e3b7aeecd593f0e32ce42dc53452fe37ad51abbfac7baint, 0x1bc9c249d1097d289a2434848a1ce4fd6eea978723dc8214e39e75c703ce325bint, 0x44c36111c77ba2195409a5713a180c204ddff952aec8752d62cc27d06b4c80c9int);
    let e = lemma_chain_square(p, g, e, 0x44c36111c77ba2195409a5713a180c204ddff952aec8752d62cc27d06b4c80c9int, 0x28c97dbe08cc635828370bad9bc03f15ddaba6c78729450a015e1722aa3b2813int, 0x67496530b86e6598749ad1eb2b5a4b3342f28c785b5ee5bca5bca01513e675beint);
    let e = lemma_chain_square(p, g, e, 0x67496530b86e6598749ad1eb2b5a4b3342f28c785b5ee5bca5bca01513e675beint, 0x5c060a86a89d14114c707bbe177a916f0d0fbb080e8ba7858dc32e8f094c6cc4int, 0x16cfd78056b974d74fa388a427b04b1003c71cfbae5707bdaf221452f242cc40int);
}

/// A power of the root 7 modulo the prime `q`: the steps from the exponent
/// 0x348040000000400
/// to the exponent
/// 0x69008000000080000000.
proof fn lemma_power_q_1_part_2(p: int, g: int)
    requires
        p == q(),
        g == 7,
        pow_mod(g, 0x348040000000400, p) == 0x16cfd78056b974d74fa388a427b04b1003c71cfbae5707bdaf221452f242cc40int,
    ensures
        pow_mod(g, 0x69008000000080000000nat, p) == 0x36fb34ca1cf1bdf3cfcae97d3d3292f63e19c2f2cf2ab065378f4171e23ad3a2int,
{
    let e: nat = 0x348040000000400;
    let e = lemma_chain_square(p, g, e, 0x16cfd78056b974d74fa388a427b04b1003c71cfbae5707bdaf221452f242cc40int, 0x47d239c4d16dab16cff726035a56beeec643d269f8785e076f42e4ff122b6eaint, 0x62d3cf56a66999304cd44ff3c92d138902d6b682bcd11b91c325bd3102d35916int);
    let e = lemma_chain_square(p, g, e, 0x62d3cf56a66999304cd44ff3c92d138902d6b682bcd11b91c325bd3102d35916int, 0x543fc1732812c55184fbd57a9ef3593605d55624c651709f8305ac4b56094c98int, 0xce68cab8d22f317ea8358bb41b22e94f27a1053c8d2a98d3dda3298fb3b014cint);
    let e = lemma_chain_square(p, g, e, 0xce68cab8d22f317ea8358bb41b22e94f27a1053c8d2a98d3dda3298fb3b014cint, 0x16f828c6d97003d24dc026bb7242e406e33d210cf668ed0b259e1a53fed277bint, 0x50d4b7a032de74ef01a9de8aabc865db5e5e9d41dd5228b25423423a611c8715int);
    let e = lemma_chain_square(p, g, e, 0x50d4b7a032de74ef01a9de8aabc865db5e5e9d41dd5228b25423423a611c8715int, 0x385bfa801c9311f2872f04ec46e3808bf4de50f4e05427776ef315a5cf92cb24int, 0x2479e8b13acfb491476969cd2d3c6f555388d54d71a2a05bf3c8608dee4c5c95int);
    let e = lemma_chain_square(p, g, e, 0x2479e8b13acfb491476969cd2d3c6f555388d54d71a2a05bf3c8608dee4c5c95int, 0xb7a1f07d4e2b7f4ead0cba173837d2c88b679e815cb795ba4e548c5a44cfb89int, 0x5a5249df8182d1d69f88b4d8ae1fbf9f99cb8c1a893fb15e299781d181a67330int);
    let e = lemma_chain_square(p, g, e, 0x5a5249df8182d1d69f88b4d8ae1fbf9f99cb8c1a893fb15e299781d181a67330int, 0x465ee8b2e2ef354c64c821428bdd4d5dddf468f886608fbceeceaeb5c09b548fint, 0x1b9715f207a6329101e55d46b904110bc6a33524f56c1a27c7f446893578d471int);
    let e = lemma_chain_square(p, g, e, 0x1b9715f207a6329101e55d46b904110bc6a33524f56c1a27c7f446893578d471int, 0x690f7c167037c610af840924e251630e980981edf8f3221e28c2a71e026df84int, 0x2478e13eef8d49d437bfc35897a94ee9270a636ee34731a6fdaf2302c4147a5dint);
    let e = lemma_chain_square(p, g, e, 0x2478e13eef8d49d437bfc35897a94ee9270a636ee34731a6fdaf2302c4147a5dint, 0xb7979417bbf383df7c7a208553ed64d44d1ab7b8808e81ddb661c1524495584int, 0x5f2cacebcfbd04a8f9e6306f29718cae549bba71111b397a5ffede49cbb7045int);
    let e = lemma_chain_square(p, g, e, 0x5f2cacebcfbd04a8f9e6306f29718cae549bba71111b397a5ffede49cbb7045int, 0x4e22d781c269387aaa58d47957e2a252d7e14da24333a35186802f8fe69699int, 0x257f7cff8c1882b5b490abab1de3cbb6007250082210c908758acd62be23dc00int);
    let e = lemma_chain_square(p, g, e, 0x257f7cff8c1882b5b490abab1de3cbb6007250082210c908758acd62be23dc00int, 0xc21092637c27fd52f4516fc6cd57cd686f3bd4ddf469fb8e7c0b18bf71a211aint, 0xa4368f6d4e7f8a0e35500e003398ea58a6944b9e4a1ab49ce5f1f23edf5dee6int);
    let e = lemma_chain_square(p, g, e, 0xa4368f6d4e7f8a0e35500e003398ea58a6944b9e4a1ab49ce5f1f23edf5dee6int, 0xe89bda514df228b2d6494dd3ede6af27fde3ebef0dfe87bcd309a4e2279741int, 0x488f77ac208e44c3bc31b5b9c75e521f214d618d2cbb16c36705f5a60281f63int);
    let e = lemma_chain_square(p, g, e, 0x488f77ac208e44c3bc31b5b9c75e521f214d618d2cbb16c36705f5a60281f63int, 0x2d6a867ca17070e1ef53fe0147164bd7031168d1193682756369a67206e6eaint, 0x27cd13b2867fc2c3aef5cb17a6b892327ad6c58bec95a734bee326b3a0c2395fint);
    let e = lemma_chain_square(p, g, e, 0x27cd13b2867fc2c3aef5cb17a6b892327ad6c58bec95a734bee326b3a0c2395fint, 0xdaa29e4a93197eb57f41b1be7c540031260aafb1680182125e408abe00e3c5cint, 0xb11bcbca6ffd7b4f44fd5504c11de84d02197143bd994dd5a3bfd9be0c934e5int);
    let e = lemma_chain_square(p, g, e, 0xb11bcbca6ffd7b4f44fd5504c11de84d02197143bd994dd5a3bfd9be0c934e5int, 0x10e938206cc80b6faec8b3093b89acb16fa0d47aebfbd4b23601ff45f0a06c0int, 0x32d82b76460cfbff40c76b3bb52e7292fdc03c54bcaa13f24ccb50ce7b7dce19int);
    let e = lemma_chain_square(p, g, e, 0x32d82b76460cfbff40c76b3bb52e7292fdc03c54bcaa13f24ccb50ce7b7dce19int, 0x164cb1f1a940fe183cdac279428c93eca3eccf1afb375cf13db3ed673c96522fint, 0x7196ed588c35ef4634ce392cd67c45367a1450738fd99b864d61d6e2b3bfec42int);
    let e = lemma_chain_square(p, g, e, 0x7196ed588c35ef4634ce392cd67c45367a1450738fd99b864d61d6e2b3bfec42int, 0x6f4c4790b260ffc03d59aeaee41ca5bca937f516d5bcdd7b689b3480c0958920int, 0x630a2a98e7aedc3f31502cdbe95a9d38f69e61be6da11a14d20fc56deff037e4int);
    let e = lemma_chain_square(p, g, e, 0x630a2a98e7aedc3f31502cdbe95a9d38f69e61be6da11a14d20fc56deff037e4int, 0x549c8816553165884cc781d2ee799b497f6d0ccc37d9b17339dc1aac35ec8e40int, 0x5020644b587f362ae27b9a699c4b775521cbc60527c59f6f823f5d8059c734d0int);
    let e = lemma_chain_square(p, g, e, 0x5020644b587f362ae27b9a699c4b775521cbc60527c59f6f823f5d8059c734d0int, 0x37619c5001ac6dc41df4b8be6748795b8d484735b633b1ef5b40af6f1e908a12int, 0x53ac2d357f172cfb2baf338d17107db8e22ae05f5f1e3f35a4bfe85ea7b49eeeint);
    let e = lemma_chain_square(p, g, e, 0x53ac2d357f172cfb2baf338d17107db8e22ae05f5f1e3f35a4bfe85ea7b49eeeint, 0x3c64402ed2e72a7a64c072cfbd453db751953bd66155ba397d22f2537d34cccfint, 0xc5ed8193aef84831aaf1e15f88feb89fe9777f44ad9f1920dc7180de825d875int);
    let e = lemma_chain_square(p, g, e, 0xc5ed8193aef84831aaf1e15f88feb89fe9777f44ad9f1920dc7180de825d875int, 0x151ed7ef5609d4903fb3dab7168d108a9f9bf5c34e0b1f6ad1727f6f5ad5f35int, 0x1f3ba0a773c8c66664d8f67a789e7c866cb87c93569d57c42f6ec10c632a4644int);
    let e = lemma_chain_square(p, g, e, 0x1f3ba0a773c8c66664d8f67a789e7c866cb87c93569d57c42f6ec10c632a4644int, 0x86a25e75c0b6cf00bb6e43a4304b42a245bef36987a77192a9204afd75e6e6eint, 0x36fb34ca1cf1bdf3cfcae97d3d3292f63e19c2f2cf2ab065378f4171e23ad3a2int);
}

/// A power of the root 7 modulo the prime `q`.
proof fn lemma_power_q_1()
    ensures
        pow_mod(7, 0x69008000000080000000nat, q()) == 0x36fb34ca1cf1bdf3cfcae97d3d3292f63e19c2f2cf2ab065378f4171e23ad3a2int,
{
    let p = q();
    let g = 7;
    lemma_chain_start(p, g);
    lemma_power_q_1_part_1(p, g);
    lemma_power_q_1_part_2(p, g);
}

/// A power of a power of the root 7 modulo the prime `q`: the steps from the exponent
/// 0
/// to the exponent
/// 0xd80aad41cae.
proof fn lemma_power_q_2_part_1(p: int, g: int)
    requires
        p == q(),
        g == 0x36fb34ca1cf1bdf3cfcae97d3d3292f63e19c2f2cf2ab065378f4171e23ad3a2int,
        pow_mod(g, 0, p) == 1,
    ensures
        pow_mod(g, 0xd80aad41cae, p) == 0x398050755156966a71ba774eeddc01b5f18745f075b65a394ae2ea164dea691bint,
{
    let e: nat = 0;
    let e = lemma_chain_square(p, g, e, 1, 0, 1);
    let e = lemma_chain_multiply(p, g, e, 1, 0, 0x36fb34ca1cf1bdf3cfcae97d3d3292f63e19c2f2cf2ab065378f4171e23ad3a2int);
    let e = lemma_chain_square(p, g, e, 0x36fb34ca1cf1bdf3cfcae97d3d3292f63e19c2f2cf2ab065378f4171e23ad3a2int, 0x1a1370ee76fb87a88011c1434380d5674af5f4a0da45c55598476da8995cf9caint, 0x4251124e16f712ac26f2b25a73c71a62432da1a7d0ead4246b64905402ff78baint);
    let e = lemma_chain_multiply(p, g, e, 0x4251124e16f712ac26f2b25a73c71a62432da1a7d0ead4246b64905402ff78baint, 0x1f73b51609df530d542521829aa7eaf34516205f0137a759ba3aac9d9d4e8c7bint, 0x394a6484d9854cd53ef989501a9f473a6b99ed33cf38d8602fac2e0f67012739int);
    let e = lemma_chain_square(p, g, e, 0x394a6484d9854cd53ef989501a9f473a6b99ed33cf38d8602fac2e0f67012739int, 0x1c4ffb2b772119c4e5e870afb71e595db274c036b05c187f926d7606d9565102int, 0xf465e9496cd49304a7913bbbfba6b7df5db1e97771af12e8f2ddd3a591e19afint);
    let e = lemma_chain_square(p, g, e, 0xf465e9496cd49304a7913bbbfba6b7df5db1e97771af12e8f2ddd3a591e19afint, 0x2033c5ca9edf2abc7d31e6d203e6b36db25986c7f325914ffdf7f7892621706int, 0x1d7519d020f1a98a89f07f81cab163353676fbc952ce8ebe950a523f23358e9bint);
    let e = lemma_chain_multiply(p, g, e, 0x1d7519d020f1a98a89f07f81cab163353676fbc952ce8ebe950a523f23358e9bint, 0xdf883a1ea9238631cca65b039f2dc0d138742c6fa8f170ae6c975d3007f3a69int, 0x72f253bb49383b664cbd4fd51d78f55e6a67f847408b7d1964d96a01910cc4adint);
    let e = lemma_chain_square(p, g, e, 0x72f253bb49383b664cbd4fd51d78f55e6a67f847408b7d1964d96a01910cc4adint, 0x71f921004424c4876ca44ddc5a08a2415eaa8c5f808b2c7f1321c87ee3716067int, 0x4644c80b2624bfeb56b63da49319320a901c7624747d819e6cc1dcb11ddffc82int);
    let e = lemma_chain_multiply(p, g, e, 0x4644c80b2624bfeb56b63da49319320a901c7624747d819e6cc1dcb11ddffc82int, 0x215387d0fe5358689d890d0d67476bd972561b792124597d95ba29eafe549afaint, 0x71eb3eacb9347aba633cf26ec061e9de1b53e0b1859827786a480dcf7ffc554aint);
    let e = lemma_chain_square(p, g, e, 0x71eb3eacb9347aba633cf26ec061e9de1b53e0b1859827786a480dcf7ffc554aint, 0x6ff1c09c526260eecf1cb5fc825ca2a96cca6f358c00d497e307a0f4813ec6b8int, 0xfaab7f762fdecf0057d2aaff8d27261acde7e107c2ba435ba8eecc6f0db72acint);
    let e = lemma_chain_square(p, g, e, 0xfaab7f762fdecf0057d2aaff8d27261acde7e107c2ba435ba8eecc6f0db72acint, 0x21e04f7077625e45b54798a938c088748d73114c97c5dea7ad790846de4bd25int, 0x3ea654fe00fab564b7ce9ec8f262a1d47bb52b5b0ed3fbba2b5be1d077c0e66bint);
    let e = lemma_chain_square(p, g, e, 0x3ea654fe00fab564b7ce9ec8f262a1d47bb52b5b0ed3fbba2b5be1d077c0e66bint, 0x21db6662f737304c62a65439a4047ff1a8c9e93ed65e3061e2e4955e98a4809fint, 0x330ebd31155e629e78c947b56285c2323d14e0ecb25673e75e5556b2513ff01aint);
    let e = lemma_chain_square(p, g, e, 0x330ebd31155e629e78c947b56285c2323d14e0ecb25673e75e5556b2513ff01aint, 0x167ca974671da5e8429cb9a5278a9562fcf365966cdfe90f08959846769cb421int, 0x5b8e56305cc7c653d5d69f9d14b6bb154f5299aa59dc65d9034ffdeb0b600e83int);
    let e = lemma_chain_square(p, g, e, 0x5b8e56305cc7c653d5d69f9d14b6bb154f5299aa59dc65d9034ffdeb0b600e83int, 0x484ebffee58d03d8c4ebbc0d12ef6d1be8ad277295c2ca52beecd5fcc3d02d36int, 0x55a4120ea74c034ebbcfb7c072b11f74188f260dc7ca7adfcb484f05614269d3int);
    let e = lemma_chain_square(p, g, e, 0x55a4120ea74c034ebbcfb7c072b11f74188f260dc7ca7adfcb484f05614269d3int, 0x3f44303a4c65a1a98584b6a37d60e22ea7ea5d4be67415c39ab726978b9c970bint, 0x1acfd04c2196e44b64cbeac67a17e5bc75265d9004e588cd0871321e16ee2cdeint);
    let e = lemma_chain_square(p, g, e, 0x1acfd04c2196e44b64cbeac67a17e5bc75265d9004e588cd0871321e16ee2cdeint, 0x633747745c2ed988c5ed10cf680e61ece3f36477706f47672b82dfb86bea021int, 0x488172078a98b82de4609d308e12a0d324944fd869409ec1fb697b7b15e67063int);
    let e = lemma_chain_square(p, g, e, 0x488172078a98b82de4609d308e12a0d324944fd869409ec1fb697b7b15e67063int, 0x2d58fa9d18f35ac27ad14c4f86adabe2314efe0670cdc78c40bcfe0dff918e63int, 0x80a9e388c91ae7e273bd7555f0cd049099c8668604433ce8f594f5561a937e6int);
    let e = lemma_chain_multiply(p, g, e, 0x80a9e388c91ae7e273bd7555f0cd049099c8668604433ce8f594f5561a937e6int, 0x3d056fb4dd2e78f092bbb1e4dae061d0817b4f61db3f7f4cb9d147431f71a06int, 0x42352f0c71b787621a5f27ac38b8ed27173a7ea71ff2326ac92e2f4dca4cd786int);
    let e = lemma_chain_square(p, g, e, 0x42352f0c71b787621a5f27ac38b8ed27173a7ea71ff2326ac92e2f4dca4cd786int, 0x25cfd61c990d4cbe57cc4d1cd03061b056d63b462465a6885cabda848bdaca36int, 0x1cdfd62c17eebf7256e7871c7b4504c65dc910f4616b6f239891257d99278feeint);
    let e = lemma_chain_square(p, g, e, 0x1cdfd62c17eebf7256e7871c7b4504c65dc910f4616b6f239891257d99278feeint, 0x73117302fa9dca5c6e9e45a4836b7f285521e6ecd86fa0031065d56739ca17fint, 0x1b5f6786586aad2322142aa10ee9acc81ba0c7e5504a25894a0feebc33d31fc5int);
    let e = lemma_chain_multiply(p, g, e, 0x1b5f6786586aad2322142aa10ee9acc81ba0c7e5504a25894a0feebc33d31fc5int, 0xcfb65f329437fd4dcc4c33432ed191fb7f95533e645270b9fce677374cf9fd3int, 0x5ec507addcea34dc54ee798781e4e2d26e8415b811463f3b9e8c9505769bd9d7int);
    let e = lemma_chain_square(p, g, e, 0x5ec507addcea34dc54ee798781e4e2d26e8415b811463f3b9e8c9505769bd9d7int, 0x4d7905ccd544f71449a2bc0c5f25837c148fe849de6f111eb671330220a637d3int, 0x382b5d2ba1b6052399698858c464e9ef17163733d002385b55fbd8ea9711fabeint);
    let e = lemma_chain_square(p, g, e, 0x382b5d2ba1b6052399698858c464e9ef17163733d002385b55fbd8ea9711fabeint, 0x1b3710583700cdad2b7d152d5a73952c6abffb7874bf20cd1ef3239f8f3f38f6int, 0x5f8fd667024ce8abc927dd2036f3a3363f15fb34be7d1a872a054fbdd7946c0eint);
    let e = lemma_chain_multiply(p, g, e, 0x5f8fd667024ce8abc927dd2036f3a3363f15fb34be7d1a872a054fbdd7946c0eint, 0x2d5273c3b9ea09972551d54ba909f76cd9f224a8676fca9947e221504dfc683eint, 0xd8f814175ac4d816fa50e7e88c7be526704621da54cd4e7dd4954f24a2b829eint);
    let e = lemma_chain_square(p, g, e, 0xd8f814175ac4d816fa50e7e88c7be526704621da54cd4e7dd4954f24a2b829eint, 0x1961323ff2609fc4c98fc4848d26371593f2686960ec52f2c7b5b87e9c25052int, 0x38e0ca69dc4485c0454f43f9b7ee7fb758c57684530e2a20e4dac66a91f68932int);
    let e = lemma_chain_square(p, g, e, 0x38e0ca69dc4485c0454f43f9b7ee7fb758c57684530e2a20e4dac66a91f68932int, 0x1be7fb68a939ab34b353ede7e8abe61f0ad0192b56983ab6368ed15d7fd8474fint, 0x2495f9065602651f83af3979c517ec8b70a64d256033f0df920da03019c64675int);
    let e = lemma_chain_multiply(p, g, e, 0x2495f9065602651f83af3979c517ec8b70a64d256033f0df920da03019c64675int, 0x1159fecbf14a757728ec3cca1195991da401febd065341f97bbf2f9521da6450int, 0x64c636a6cf1753ea802049144a4d90a94c4da85fe9cb8a1c462ce82dda32a0baint);
    let e = lemma_chain_square(p, g, e, 0x64c636a6cf1753ea802049144a4d90a94c4da85fe9cb8a1c462ce82dda32a0baint, 0x5799e40afeb1ed12e661768047f75ca9d2553d2b33b4cf3a2f2e2bf90edb188dint, 0x2b164e85d5658f7673da361876d470c0fd022bc9ff9d4efb0ab4d1b7e6b5ee97int);
    let e = lemma_chain_square(p, g, e, 0x2b164e85d5658f7673da361876d470c0fd022bc9ff9d4efb0ab4d1b7e6b5ee97int, 0x1003a396529d2d11e01d90675bd86d92dbf3766ee7a8c9ef01e3f458f91a2036int, 0x6f30e3636951da2d4609f573006920fd78e106caa1fa3405ff273fc19ac8fcdbint);
    let e = lemma_chain_multiply(p, g, e, 0x6f30e3636951da2d4609f573006920fd78e106caa1fa3405ff273fc19ac8fcdbint, 0x34bc07504c864ff41535fed250693745417e2fb7b663659f0b96e326a737981aint, 0x1fb4668654a445887b16cf5d37fce88f89d391be9cc253a96ec6587893feeb7cint);
    let e = lemma_chain_square(p, g, e, 0x1fb4668654a445887b16cf5d37fce88f89d391be9cc253a96ec6587893feeb7cint, 0x8abb73f31b7f1e6a01ea06cd98f693b72ce339890f08520824cb5bbe84854b3int, 0x55b15fc77ecc86198123c7489177febc5031b48cd816a243903c637fa2648f5dint);
    let e = lemma_chain_multiply(p, g, e, 0x55b15fc77ecc86198123c7489177febc5031b48cd816a243903c637fa2648f5dint, 0x28a43a4815e859c01f07042f9908bf7a6706fa46c345b1a9e3b12ae0bd16a192int, 0x343e728a7ecb156c1d4052971aa9229204d9bb46b9e3232d64a316b47dc7be48int);
    let e = lemma_chain_square(p, g, e, 0x343e728a7ecb156c1d4052971aa9229204d9bb46b9e3232d64a316b47dc7be48int, 0x178b4a679ee9942876090a416fe8b5a9aa390569b7f2edcdb7d22230bbee447fint, 0x217bf9e94318eb7b31b67b7c42520358a17afd85ec3e28160730c339f570afc1int);
    let e = lemma_chain_square(p, g, e, 0x217bf9e94318eb7b31b67b7c42520358a17afd85ec3e28160730c339f570afc1int, 0x9abe54f68a4b74f5297fce62e58b389712c1b25052a8a0b2c480722bb2a9cf9int, 0x550a1d94d42038d212fac3162bcb80fdbdb733fb21a0b023e881c1c9f05ed288int);
    let e = lemma_chain_multiply(p, g, e, 0x550a1d94d42038d212fac3162bcb80fdbdb733fb21a0b023e881c1c9f05ed288int, 0x2854e6ea7712790abb96163a451611343a8bf8b51667197410824452b0d77110int, 0xab07bf13e44f36f06d04218880ce11c616f0d5331629cae266e105557fe100int);
    let e = lemma_chain_square(p, g, e, 0xab07bf13e44f36f06d04218880ce11c616f0d5331629cae266e105557fe100int, 0xfc529c0dea40901245bff56a957da5a19b2f76cb0d8ae70cbdc56b814420int, 0x4dff991059ea1715be9e10aff20c03d56e1678350068d3ed0d837ba5983fbbe0int);
    let e = lemma_chain_square(p, g, e, 0x4dff991059ea1715be9e10aff20c03d56e1678350068d3ed0d837ba5983fbbe0int, 0x347a848f6e8fff7cc225a0993544f1abc59da32d68e3b80a6d4a115ed6a70458int, 0x32540a9918cde119d19b0b23967778de24e85792128bb0264bda20b12b79ffa8int);
    let e = lemma_chain_multiply(p, g, e, 0x32540a9918cde119d19b0b23967778de24e85792128bb0264bda20b12b79ffa8int, 0x17de820b8e5719cfe6da2220ae5c38db7347026b63743e6b33c2fe1ae3a586e3int, 0x682afca3a339317fabf9c8ce843c108ecddcda2cdcd2c2345afe4e396955b96dint);
    let e = lemma_chain_square(p, g, e, 0x682afca3a339317fabf9c8ce843c108ecddcda2cdcd2c2345afe4e396955b96dint, 0x5d99bd2c833f79d25397c81eabd32b4aa0a9d71de34d8bb57d882bea9d951916int, 0x2f79b0ee8ab8ec8205c204554e6987cc28398730cb8caf2008db5a85751b9f53int);
    let e = lemma_chain_square(p, g, e, 0x2f79b0ee8ab8ec8205c204554e6987cc28398730cb8caf2008db5a85751b9f53int, 0x1371384bc1a6a3b749882bcb55e696eb81d968579e689ac4fcbfeaffcd544789int, 0x205d218b68947c9926514a7b0ad65c20bd9e6c9b835dda5e8e287640f55ed60int);
    let e = lemma_chain_square(p, g, e, 0x205d218b68947c9926514a7b0ad65c20bd9e6c9b835dda5e8e287640f55ed60int, 0x908f73b28f895ef6d0f8a39835a067a15469c155376c02425004e84c02b4eint, 0x625dbb3e62e5176ec0947a0d83599685baa14f30f50aebda1a830ca8391ab8b2int);
    let e = lemma_chain_square(p, g, e, 0x625dbb3e62e5176ec0947a0d83599685baa14f30f50aebda1a830ca8391ab8b2int, 0x5376e79c5d8f403fb1d058c9cd0f3aec70dce763ca4836abafd0471d297bd623int, 0x1b32865279e7f5e800f262876f44585c18f48366cd3ac07f28f791af23ec85a1int);
    let e = lemma_chain_square(p, g, e, 0x1b32865279e7f5e800f262876f44585c18f48366cd3ac07f28f791af23ec85a1int, 0x661715c8188c7446a3c795f1134f1978b12c25d34b8b400c4a11bc6d4e5559dint, 0x34a10bddd15862f8cd8972b2404e599b602993f1a76e81d14ebbd504d7b359a4int);
    let e = lemma_chain_square(p, g, e, 0x34a10bddd15862f8cd8972b2404e599b602993f1a76e81d14ebbd504d7b359a4int, 0x17e47ca2288a11b2063623fc67f03a8bc08e27fbc36a69426c64cdf945d28372int, 0x21ff0aa03edcf27021041e58bb2cf8c46ada23f1c590f9da58a28d0ace8ed9eint);
    let e = lemma_chain_multiply(p, g, e, 0x21ff0aa03edcf27021041e58bb2cf8c46ada23f1c590f9da58a28d0ace8ed9eint, 0x101f96544216f17056e6b9dd23cf583bd55ff822178bcf0a268eb85571f75a3int, 0x6ad541db3a38d7df81f5333c4687c84f7c0410b864635b43f21d2bf861ec2259int);
    let e = lemma_chain_square(p, g, e, 0x6ad541db3a38d7df81f5333c4687c84f7c0410b864635b43f21d2bf861ec2259int, 0x627389bdf466a5e0d7c9cfa263f62bcf390531b090f12e3708796fb759082847int, 0x429f6596a2aae9fd3701fa6797606a4b9400c0f8047628b08f39f6d671ab9aaaint);
    let e = lemma_chain_multiply(p, g, e, 0x429f6596a2aae9fd3701fa6797606a4b9400c0f8047628b08f39f6d671ab9aaaint, 0x1f98dacc64d5ee63941d55c94ab14d2133fc849b455661cf37a756258f4a9d54int, 0x4c16990100a3418b0434529ee3f83cf990e48726c5def029a7ade907ee4b6040int);
    let e = lemma_chain_square(p, g, e, 0x4c16990100a3418b0434529ee3f83cf990e48726c5def029a7ade907ee4b6040int, 0x31f08f911cb05ab615b2ca05b457a46cc5e01df3845bf97f2fb4faa84d49378cint, 0x550654059a3e94a276eee57cd2d9002fea7cddbe511e96accf383d8c3c66d874int);
    let e = lemma_chain_multiply(p, g, e, 0x550654059a3e94a276eee57cd2d9002fea7cddbe511e96accf383d8c3c66d874int, 0x28531b15588a2608619ccd76c57dffb353d1a410d45c0f74eb05c38ec1ebf188int, 0x636061a9d8892430b64dfac4ef9ed6f4a4c083b048a9e8d0ad773017add8a3e0int);
    let e = lemma_chain_square(p, g, e, 0x636061a9d8892430b64dfac4ef9ed6f4a4c083b048a9e8d0ad773017add8a3e0int, 0x553017a45711e3183e3895a8e5d16420d19b35125a5ca72198f668f6229a9e4fint, 0x3d8b9cf8cfdfa835b91eb3f48fa4ce4934678d2553c1986a94542c6a904c65b1int);
    let e = lemma_chain_square(p, g, e, 0x3d8b9cf8cfdfa835b91eb3f48fa4ce4934678d2553c1986a94542c6a904c65b1int, 0x20ac8549272960d5bd215814541c74eb8cdaea24a1e53f6087013b9d04f40cdcint, 0x453555d0afb3234319c8a9cc072d532835805554068d3559f5a9e906a4891785int);
    let e = lemma_chain_square(p, g, e, 0x453555d0afb3234319c8a9cc072d532835805554068d3559f5a9e906a4891785int, 0x29511d8b0671592fcc5d8c6395cdf014a5648f83c6089bfb4ded297e6e86a357int, 0x2671dd0d56fcf22fe1dae702a76d605ae02eda375fc815076d309da127fc87c2int);
    let e = lemma_chain_multiply(p, g, e, 0x2671dd0d56fcf22fe1dae702a76d605ae02eda375fc815076d309da127fc87c2int, 0x123bb21d894677ac0ddaefe9e3c9c35bf9bf1f3d6c9cf945b4bb543c31606066int, 0x576f9c846212bab013d19f87fe02528e3f5938a72e8f2f48eb72cdcc46466e5eint);
    let e = lemma_chain_square(p, g, e, 0x576f9c846212bab013d19f87fe02528e3f5938a72e8f2f48eb72cdcc46466e5eint, 0x41f2443d181144a8206be0dcb58d6245e7359e0d098defda6219b59f9fd0afa6int, 0x2ad73d0d663a50111c1c3086954a2356e89731b0ca161732fdbc0392532c3adeint);
    let e = lemma_chain_square(p, g, e, 0x2ad73d0d663a50111c1c3086954a2356e89731b0ca161732fdbc0392532c3adeint, 0xfd4e44f48bde944ba50fb1d7dd36140c9bc9c154814afd71c6d57c24d46caffint, 0x14615e3e3b38d29777849f88a925313bb8d6544ea409088975c38244f0928d85int);
    let e = lemma_chain_multiply(p, g, e, 0x14615e3e3b38d29777849f88a925313bb8d6544ea409088975c38244f0928d85int, 0x9aa7049b9c466dd1a45c44412383157a850fcef93a13f2985fd42cf5aae9162int, 0x28dd533dd8f453f53de691646ea630f897ab51c7ddec7ca1e5b2af5426d59bc8int);
    let e = lemma_chain_square(p, g, e, 0x28dd533dd8f453f53de691646ea630f897ab51c7ddec7ca1e5b2af5426d59bc8int, 0xe6799accbaed2f54851137af5215da8a3c42e947549f2ac4c9d0d10d680d089int, 0x12d9b5a85a309778ae47d0f67da67e6759179d142ae0b2ff89118b34231afbb7int);
    let e = lemma_chain_square(p, g, e, 0x12d9b5a85a309778ae47d0f67da67e6759179d142ae0b2ff89118b34231afbb7int, 0x310ae2ec67a4a72dd66766242fb850ec54a1f6a15a914c2276c14d0885327daint, 0x668b874695013a23b62556eb82527fd65603b98c9fb4f6374254730d9a5934f7int);
    let e = lemma_chain_multiply(p, g, e, 0x668b874695013a23b62556eb82527fd65603b98c9fb4f6374254730d9a5934f7int, 0x30a24cabc8d99955e33daeffe0f2a3f860ec25c8b7c8898cb4e74f78b0122274int, 0x48c0bb91c2957927f077ecd82d3210e9f3ea9a49c29f7c921193a8cd90fef6daint);
    let e = lemma_chain_square(p, g, e, 0x48c0bb91c2957927f077ecd82d3210e9f3ea9a49c29f7c921193a8cd90fef6daint, 0x2da8472f930f6af5f939efa2ed654e64d7b51a058d373b729ec3302bbb2febccint, 0x5c2f718eb0b95084f1bd4faea4f2c9305e46d90370fc2625bd3e08684b6fc5d8int);
    let e = lemma_chain_multiply(p, g, e, 0x5c2f718eb0b95084f1bd4faea4f2c9305e46d90370fc2625bd3e08684b6fc5d8int, 0x2bb87f1c190b2c6f4afdcbdf0f1e3ce471d5574cf63e5c860f713ed555918342int, 0x3c42bc59fec325997caec2016cdd5cfe1569c1738e447640bbc37ced0a2ab76eint);
    let e = lemma_chain_square(p, g, e, 0x3c42bc59fec325997caec2016cdd5cfe1569c1738e447640bbc37ced0a2ab76eint, 0x1f52f7fdaf5e3edb40d89a0bb8a0ee68751c0779ccdbbe2cb1b021d0a2bc47e0int, 0x1f0402f7714e736f180c1df27894eeffd14f6892394face74bd1b530a8ca2b64int);
    let e = lemma_chain_multiply(p, g, e, 0x1f0402f7714e736f180c1df27894eeffd14f6892394face74bd1b530a8ca2b64int, 0xeb5b494f461a279508f5fc3fd242320d11ea1b46dfcb8eb844b27b41ff8aa12int, 0x492649c683fbdd5da5b7fdc885de9ee13a669d106b94ea38ffdf89876e623736int);
    let e = lemma_chain_square(p, g, e, 0x492649c683fbdd5da5b7fdc885de9ee13a669d106b94ea38ffdf89876e623736int, 0x2e28176978527463bbb5b6537f83255a3079ab1fec0fd4db9ecd80476b55d649int, 0x398050755156966a71ba774eeddc01b5f18745f075b65a394ae2ea164dea691bint);
}

/// A power of a power of the root 7 modulo the prime `q`: the steps from the exponent
/// 0xd80aad41cae
/// to the exponent
/// 0x1b0155a8395d3e3586fe68.
proof fn lemma_power_q_2_part_2(p: int, g: int)
    requires
        p == q(),
        g == 0x36fb34ca1cf1bdf3cfcae97d3d3292f63e19c2f2cf2ab065378f4171e23ad3a2int,
        pow_mod(g, 0xd80aad41cae, p) == 0x398050755156966a71ba774eeddc01b5f18745f075b65a394ae2ea164dea691bint,
    ensures
        pow_mod(g, 0x1b0155a8395d3e3586fe68nat, p) == 0x58a3011da7814951cea1dc351b49986a7026a5e6b1379ae1e5e42c64c212dd7fint,
{
    let e: nat = 0xd80aad41cae;
    let e = lemma_chain_square(p, g, e, 0x398050755156966a71ba774eeddc01b5f18745f075b65a394ae2ea164dea691bint, 0x1c855fc8074e6620038510a1c7e54597220d5aa630cbf13349c2b4edd1aaceb1int, 0x3ee8d229e0c883f7961bd4f47a2aabcf47633a92d4e39f78bbba6045bcd85a28int);
    let e = lemma_chain_multiply(p, g, e, 0x3ee8d229e0c883f7961bd4f47a2aabcf47633a92d4e39f78bbba6045bcd85a28int, 0x1dd60688e285e0cd3e610e9627113d65869c6b56cb2b03c8b4d47790ef843696int, 0xcfd42e15b496d3b593cfcd30715c40d19e9b94022707e734339e210a0c3cebaint);
    let e = lemma_chain_square(p, g, e, 0xcfd42e15b496d3b593cfcd30715c40d19e9b94022707e734339e210a0c3cebaint, 0x17495043ef7de36f26843b430842318cac7d2a6cf7294e5afd5374206c3fdd9int, 0x431dc0cfb36ff9a79d1a9cfe8c242eb7ccbe00ea14f8e9a6f8325e040f87e14bint);
    let e = lemma_chain_square(p, g, e, 0x431dc0cfb36ff9a79d1a9cfe8c242eb7ccbe00ea14f8e9a6f8325e040f87e14bint, 0x26db4dd1ca1fb3417687f881d60b348f7d4b82071664f184b504a8c31d0771f8int, 0x2fd9aabc2af8a8ce55481f9ef6b4532cedeb1f2762790d87fff21c1310577a01int);
    let e = lemma_chain_square(p, g, e, 0x2fd9aabc2af8a8ce55481f9ef6b4532cedeb1f2762790d87fff21c1310577a01int, 0x13c023915e4df2717bdaa92e2b3cb710fae3c7446ee4041015792d4ce6b16d48int, 0x70568e5c651bc4c73299748ad0e51531a036c7ceedd6d50209d3a145602186b9int);
    let e = lemma_chain_multiply(p, g, e, 0x70568e5c651bc4c73299748ad0e51531a036c7ceedd6d50209d3a145602186b9int, 0x35474e6878a0b64518729a94a99330ecb9bab0a0c0653bd72bc1ac994101473bint, 0x6a262d62f283fb9959791c1488245d3f4115ce8122d916637605a7f50e2a74d7int);
    let e = lemma_chain_square(p, g, e, 0x6a262d62f283fb9959791c1488245d3f4115ce8122d916637605a7f50e2a74d7int, 0x6131e21abb12f3961574140e618bf9cb9c99b5fb12c226194a68a3bfeca888b5int, 0x4efd87d659f839118baa7a522fe1d83c53ffb2a2fcd4a113e922b64d233703dcint);
    let e = lemma_chain_multiply(p, g, e, 0x4efd87d659f839118baa7a522fe1d83c53ffb2a2fcd4a113e922b64d233703dcint, 0x25767494e601a15d8b2ee9fb1454de4a23827b62e58a47dc026d0eda12a583f4int, 0x1bf3e778fd50b674e9f1aac333c6d7cfc8eb93426b60bad98a2981eba6314144int);
    let e = lemma_chain_square(p, g, e, 0x1bf3e778fd50b674e9f1aac333c6d7cfc8eb93426b60bad98a2981eba6314144int, 0x6bd703e898b1c83b9bc74dd46bdc3ef2459d963bbdffca9cd2881933414e052int, 0x18d6035b78b7a68b4e8b15c77321a8fa435c03b191530f0fcccca3b50896b9beint);
    let e = lemma_chain_multiply(p, g, e, 0x18d6035b78b7a68b4e8b15c77321a8fa435c03b191530f0fcccca3b50896b9beint, 0xbc76968ffef1192414792079fe7d85c752406c3fee131dcd28b41074f794473int, 0x4c72a449ad767770433af2fa5b2f4c88b7a1cfbcb0fdec734cc80f0d2c0bdfc9int);
    let e = lemma_chain_square(p, g, e, 0x4c72a449ad767770433af2fa5b2f4c88b7a1cfbcb0fdec734cc80f0d2c0bdfc9int, 0x3269aba54f323c6da50726d4af1deadb0207459b713eaac83e9e9a2ae48d6723int, 0x5412235610f50502472175656309ab78aa7b119e3150d45f8d012adc325864aeint);
    let e = lemma_chain_multiply(p, g, e, 0x5412235610f50502472175656309ab78aa7b119e3150d45f8d012adc325864aeint, 0x27df4b38fe51cb5fd580744a93b5453133eff0a26ec68e63e7d19b67fd0b75acint, 0x650bb47bd9bcb6fcf02cbe23ca5d134f8dc6689231511c1baa6686d1254baa70int);
    let e = lemma_chain_square(p, g, e, 0x650bb47bd9bcb6fcf02cbe23ca5d134f8dc6689231511c1baa6686d1254baa70int, 0x5812de6aa37e64941d91ecb41ac897b0ec76133664ea1688d68ff34d6a1b1e7fint, 0x4f1aee571c9f180174b2f22c079c745566c5be7bfb199f754633abb344fdd281int);
    let e = lemma_chain_multiply(p, g, e, 0x4f1aee571c9f180174b2f22c079c745566c5be7bfb199f754633abb344fdd281int, 0x2584662c292bd5caa89036551f66e757ad26a7e5c7fb46b4d1840819dd7a7fe5int, 0x29c6b9ac3747a2df15b85ca86caa5285c02de5e2a76b29336c3f426292df08bdint);
    let e = lemma_chain_square(p, g, e, 0x29c6b9ac3747a2df15b85ca86caa5285c02de5e2a76b29336c3f426292df08bdint, 0xf0dfb71c4dd19a4a674961487a301a7844977fe812053232863acf42d716fbfint, 0x4fcba5c7acafef97f7e68c2a5e34ca42a23040ecb3599db3919b0fc6a020ebcaint);
    let e = lemma_chain_square(p, g, e, 0x4fcba5c7acafef97f7e68c2a5e34ca42a23040ecb3599db3919b0fc6a020ebcaint, 0x36ecb4effd28735889d296db65bc4ccf78461f30bec1910e084bec7122f93456int, 0x2e7554a71090b2e6eacf4fc69da24350f02419b520f83c0d6800db5528b3470eint);
    let e = lemma_chain_square(p, g, e, 0x2e7554a71090b2e6eacf4fc69da24350f02419b520f83c0d6800db5528b3470eint, 0x129e41b5392a34a148f53472a9e6ec7641ffac999dbdf5a8f99f6ddb038f9a21int, 0x18e27cc76a6dc5b8cfe86edd18836b918c75dd383bef77713307d352cdbd2aa3int);
    let e = lemma_chain_square(p, g, e, 0x18e27cc76a6dc5b8cfe86edd18836b918c75dd383bef77713307d352cdbd2aa3int, 0x55776ac0b06d99d56d752f5d1fe9c41175b365e0f34039a92e342e7503caa9aint, 0x4214c40fc28a1c534a90c5d2e18d54a3b127fef5d3bff9104b13ec2fb98b392fint);
    let e = lemma_chain_multiply(p, g, e, 0x4214c40fc28a1c534a90c5d2e18d54a3b127fef5d3bff9104b13ec2fb98b392fint, 0x1f571b32abcfaa4617266adf2cae7fbe0a626370c8339ab8ca765f0b049c0d5aint, 0x49ff04f0f097a5000a85b4f3db26a097e44e3c51c6bfe9a9174399359845df64int);
    let e = lemma_chain_square(p, g, e, 0x49ff04f0f097a5000a85b4f3db26a097e44e3c51c6bfe9a9174399359845df64int, 0x2f3b2f301f6632ce659e90d2cb82987155e106a9e3177e28df24109f551fe8b9int, 0x4b910c7a9d9be42004c23d1f8e39411a05394c091e34572a48daebda99b77657int);
    let e = lemma_chain_multiply(p, g, e, 0x4b910c7a9d9be42004c23d1f8e39411a05394c091e34572a48daebda99b77657int, 0x23d6c44b2374c947cc69dd3d8176258b400d8bcd546e569435fc6af043642799int, 0x130de7190a6cc579064028b454d0dbe57fc33d09c9706d543e314720d6f47075int);
    let e = lemma_chain_square(p, g, e, 0x130de7190a6cc579064028b454d0dbe57fc33d09c9706d543e314720d6f47075int, 0x321beeea8a583c3fc9fc537305cf9f973dab88cb7ae571fa23c57158850e948int, 0x37e56397d8b233b94068c1223f68a90a8bb492b2c09a6383a6d92adca41dac31int);
    let e = lemma_chain_square(p, g, e, 0x37e56397d8b233b94068c1223f68a90a8bb492b2c09a6383a6d92adca41dac31int, 0x1af36bac2dceafb88332c76aad5f99008e30e5558c6054917b1025b45d558dc7int, 0x383b27e933913897ebec04c22ef002c4f9b8876b1331d4b1920d7859e196539aint);
    let e = lemma_chain_multiply(p, g, e, 0x383b27e933913897ebec04c22ef002c4f9b8876b1331d4b1920d7859e196539aint, 0x1aab2efb55b4e7d8dad090ccbe614e61625ba8398af82f0d71a98294b7e13fc9int, 0x40db4fb453660fad6ceaf32065287840567ad29b5a746300f20ecddad50b95abint);
    let e = lemma_chain_square(p, g, e, 0x40db4fb453660fad6ceaf32065287840567ad29b5a746300f20ecddad50b95abint, 0x2448ce2b5d451e59c023485f81b520ebd1e1e92b0df02b44825cf4617bb7817fint, 0x6bd4ed3098663aa4c40e1e0464e94f0bc2408498b994511bbac999ee467afebaint);
    let e = lemma_chain_square(p, g, e, 0x6bd4ed3098663aa4c40e1e0464e94f0bc2408498b994511bbac999ee467afebaint, 0x644cf622e2025b82b3261b0216efc84c240092de12c5d7c0da74278b1592aebdint, 0x62e2c4fc5c0c64c6a35195737676de9b863dde28e5469713a7c5fb6f692af067int);
    let e = lemma_chain_multiply(p, g, e, 0x62e2c4fc5c0c64c6a35195737676de9b863dde28e5469713a7c5fb6f692af067int, 0x2ee605f66a500531c502d956156c7da35fa54bb32c604f2bed41c111317a66b5int, 0x57507c1e5c1e99f2a64ed276a7d0010a3d7861c10fcb4c4cad5b963f252c9f79int);
    let e = lemma_chain_square(p, g, e, 0x57507c1e5c1e99f2a64ed276a7d0010a3d7861c10fcb4c4cad5b963f252c9f79int, 0x41c358aca4deb8194d54cc0b178bd69cacfa8855cbd278f7e1afd3d7b22c5bc7int, 0x4e85f7bb7a610a5c4648229d895dc3522ce808c2b90186e556c0bf5d7cc32b6aint);
    let e = lemma_chain_multiply(p, g, e, 0x4e85f7bb7a610a5c4648229d895dc3522ce808c2b90186e556c0bf5d7cc32b6aint, 0x253dc017391c4f91c5403a4b4ff35cc134c7364898ded56009e6bf8b1dc549a4int, 0x23fca4ca6aec1fdc124ba602ec4fcca16f6c0cb90a3f4d296146556c1c888d70int);
    let e = lemma_chain_square(p, g, e, 0x23fca4ca6aec1fdc124ba602ec4fcca16f6c0cb90a3f4d296146556c1c888d70int, 0xb2bd2690991ec65ec83f974960af47ce8e5f33d771ffb593e2a1f3bba8e1a38int, 0x49adc1dca8267bf3a041c54bc04bfa8ac7445ebd0bceda7179f5d9435a9676c8int);
    let e = lemma_chain_square(p, g, e, 0x49adc1dca8267bf3a041c54bc04bfa8ac7445ebd0bceda7179f5d9435a9676c8int, 0x2ed3ab41e0cfc3b929c80d36168b167f5ec154fed7f348515180e7cdcad31d7bint, 0x9df0f6a93b2dd2b366101c3d9d6b5ea5bd52a5774b0e71b845196513ea9dec5int);
    let e = lemma_chain_square(p, g, e, 0x9df0f6a93b2dd2b366101c3d9d6b5ea5bd52a5774b0e71b845196513ea9dec5int, 0xd72e0b516a9d2f10c60103af61d74f7f56b6bac2c3b2632e026ff2e85cc281int, 0x31659952669a89df2d908e2dc7bd55a7b0ecbfe961bfcc10a2e8dfd765978118int);
    let e = lemma_chain_square(p, g, e, 0x31659952669a89df2d908e2dc7bd55a7b0ecbfe961bfcc10a2e8dfd765978118int, 0x150c44c9273e3909c66e3ebb034596f6fd26a5edbce64ec33b5e1fc698154962int, 0x14c3de9970fe1899bff487ecf02ab8a0353aff8914251f9b77eab571e353e8deint);
    let e = lemma_chain_square(p, g, e, 0x14c3de9970fe1899bff487ecf02ab8a0353aff8914251f9b77eab571e353e8deint, 0x3b82e15df5c7b215292d06e45c84f0b968b111f6a902a14467155ce4a137502int, 0x12cc916791782e41705d597b41db76e31caae65cc23f7f933eb589aa3db3ab82int);
    let e = lemma_chain_multiply(p, g, e, 0x12cc916791782e41705d597b41db76e31caae65cc23f7f933eb589aa3db3ab82int, 0x8ea744a24622596af104bc41bf542a7109b6e31db7c7c12f68f1da945018ac8int, 0x33f9596d3e675e3afdac6c406cda8678cdc78dc16d61f634af4e2a347c81237cint);
    let e = lemma_chain_square(p, g, e, 0x33f9596d3e675e3afdac6c406cda8678cdc78dc16d61f634af4e2a347c81237cint, 0x174d2c234164921ecae09f9b91ab7dc3e0513a4c1e0157b190a643d3ec9cc86bint, 0x37e3a167f67539210f07f3a85e3dc0bb0cb0916259dbabbfb42efa7bfb465ba5int);
    let e = lemma_chain_multiply(p, g, e, 0x37e3a167f67539210f07f3a85e3dc0bb0cb0916259dbabbfb42efa7bfb465ba5int, 0x1a81ac427d762506264c594a2dd673a434361033aef72af8a8668b4f6ed96d42int, 0x204b949da9b54d37dde2ec5248a911a51b51d5932c042fcf240af82ffe979028int);
    let e = lemma_chain_square(p, g, e, 0x204b949da9b54d37dde2ec5248a911a51b51d5932c042fcf240af82ffe979028int, 0x8ff2d4cd1bd5cc3787334292ffca6db34783862c96241b04127e5e4fbb2a6a3int, 0x6026cc5453bb58b5b0bff8b23d6dcc3cde467bd4021d122f5dd04b38c4aa5f9dint);
    let e = lemma_chain_square(p, g, e, 0x6026cc5453bb58b5b0bff8b23d6dcc3cde467bd4021d122f5dd04b38c4aa5f9dint, 0x4fbfa3cef5aedd1d40be6c44b9bf61c36a30b20a643fc2307178d210d9afca4aint, 0xfd5c201a9d127eca25f8009f6759e16f82dcd3f299b1ff64efc1eb4ae8a1bffint);
    let e = lemma_chain_multiply(p, g, e, 0xfd5c201a9d127eca25f8009f6759e16f82dcd3f299b1ff64efc1eb4ae8a1bffint, 0x78292e099a38bbc08def253a57ee75061d1d7a2d322f539c54177bc83ec945aint, 0x91cfc17c6a736ed2078b648e00f3992d20122bea8e68e5870e09603a525004int);
    let e = lemma_chain_square(p, g, e, 0x91cfc17c6a736ed2078b648e00f3992d20122bea8e68e5870e09603a525004int, 0xb765d952d0b65332e38b6aa886a093abe50930aad96b7f36dfc797a3da7dint, 0x15438facff9600888403362f2419800fc26e089f89bc75aba582ac6e93eea593int);
    let e = lemma_chain_multiply(p, g, e, 0x15438facff9600888403362f2419800fc26e089f89bc75aba582ac6e93eea593int, 0xa15b711b1f6d304c72b7def8c03ff2524ffcd3dbd63278c1518e34c7f7bf4f6int, 0x2515eb33d84efdc3df3cf90ecc9fa65614ab1217aa728fd38157eeb1194efb10int);
    let e = lemma_chain_square(p, g, e, 0x2515eb33d84efdc3df3cf90ecc9fa65614ab1217aa728fd38157eeb1194efb10int, 0xbdd1dd74009ebf7fad76d670a5ef3704c35c269611e66ad6e0efb263b4accabint, 0x4a6379ef93a6df0a41f76973159d564efdf3425165603bcb6ea5430bd8ad9455int);
    let e = lemma_chain_multiply(p, g, e, 0x4a6379ef93a6df0a41f76973159d564efdf3425165603bcb6ea5430bd8ad9455int, 0x2347bd7b3588b3f3b944d2a425f552dced58f8026948fcd0e0744f0ef6ca8cf8int, 0xc98b01ae1a543b0a6ea78c2a957fdaeb629d28608bc1c61cce8d1cadd915fd2int);
    let e = lemma_chain_square(p, g, e, 0xc98b01ae1a543b0a6ea78c2a957fdaeb629d28608bc1c61cce8d1cadd915fd2int, 0x15e629fd3b068db2953a0e19bcbe3b2796a5803061411d0b3d5a510e7c3a594int, 0x5c3667a409747b737f5e63486dbd06e5e47bf4055f7abcb658326de95bfde2b0int);
    let e = lemma_chain_multiply(p, g, e, 0x5c3667a409747b737f5e63486dbd06e5e47bf4055f7abcb658326de95bfde2b0int, 0x2bbbcc4c2d80f3cc9df1c7d7380fb05f1284ab40d55ec4f1b59e88342d195da9int, 0x2a1bfc09d3126b0a176c1bb52036a4c6d5f03fb59790bdc844007348074725b7int);
    let e = lemma_chain_square(p, g, e, 0x2a1bfc09d3126b0a176c1bb52036a4c6d5f03fb59790bdc844007348074725b7int, 0xf4bacf911dd02efdbffd8b4a7a97eec9363f385343e961ddfcab74cb3fa6935int, 0x2e0a5979aec278684688a77811d198e7e5cf3f6468a4392b104c4aae3f15ff9cint);
    let e = lemma_chain_multiply(p, g, e, 0x2e0a5979aec278684688a77811d198e7e5cf3f6468a4392b104c4aae3f15ff9cint, 0x15d5e7fc89514cdd5d20bf178fa75bbcb5014d03aa4f632a3f8432862bf1e09eint, 0x4cdb5e865d48e696a388cc9cdd7aea01f7320711ef60e38e982eb4da82ff741aint);
    let e = lemma_chain_square(p, g, e, 0x4cdb5e865d48e696a388cc9cdd7aea01f7320711ef60e38e982eb4da82ff741aint, 0x32f429c201f82248f3ebf1a747094e4ee8a8c2cfd7665a4798f240d4ae9ace92int, 0x5d4937856c5039dd8e17e5fdea2017d760a8ae35fb3965e485f4ad839d8c412int);
    let e = lemma_chain_multiply(p, g, e, 0x5d4937856c5039dd8e17e5fdea2017d760a8ae35fb3965e485f4ad839d8c412int, 0x2c3e220ca28a77d65ef3d2c9ea2c2d170ad336040e17cd8dcb56f9bef59a222int, 0xf42537cbe9482de01048919ba1ce034b65e8b10748f4d5038355d2ea5814742int);
    let e = lemma_chain_square(p, g, e, 0xf42537cbe9482de01048919ba1ce034b65e8b10748f4d5038355d2ea5814742int, 0x2022bbb79e73f97eeac3573d13842e21a1563f5d590ab6fdd51e4d74ce84902int, 0x5908567294e333af2978bb8b0adc23449a2297552d7b0b1da425db06ab716402int);
    let e = lemma_chain_multiply(p, g, e, 0x5908567294e333af2978bb8b0adc23449a2297552d7b0b1da425db06ab716402int, 0x2a39b5f74b1930f8ad5674db3914b9eceee568293d9759df4616f5de9e8d74efint, 0x5283b6425fe8a73553b3d6f7c5b76c5bbd95aece143f9501b15e3173c1157a55int);
    let e = lemma_chain_square(p, g, e, 0x5283b6425fe8a73553b3d6f7c5b76c5bbd95aece143f9501b15e3173c1157a55int, 0x3abb42495cda9fef4caa3f657319930bb236472cdaa105f67ab0484e15b8d9e5int, 0x731668189aed74d3d290c34dc3eae259da0c363c673aba173f36683660ae4654int);
    let e = lemma_chain_square(p, g, e, 0x731668189aed74d3d290c34dc3eae259da0c363c673aba173f36683660ae4654int, 0x7240b8859111eee64d0da0a7fa3bfbd2e822cc4aadcb0b548f6b88c368749331int, 0x17fb2d5b49113663879d432a20ccc36c401c45a68416f1f563a62140450d785fint);
    let e = lemma_chain_square(p, g, e, 0x17fb2d5b49113663879d432a20ccc36c401c45a68416f1f563a62140450d785fint, 0x4f5f64e8cbcadd78d4acfd369b882c304a83a12990995b5393f1826770c186fint, 0x365f8db6028b2e5a9f9c7066d87509bf7646ce00f92a9537e565f16131331ad2int);
    let e = lemma_chain_multiply(p, g, e, 0x365f8db6028b2e5a9f9c7066d87509bf7646ce00f92a9537e565f16131331ad2int, 0x19c99ead5887575ae3103af554de54e4bffcaa6c9bba445f1fe11316437cfcf1int, 0x721447ac47d28e2c5075134dbe1940eae58518c65ef04bd89c3230dc758911f3int);
    let e = lemma_chain_square(p, g, e, 0x721447ac47d28e2c5075134dbe1940eae58518c65ef04bd89c3230dc758911f3int, 0x704274f63be0ff4a081a732862a34cd689c1e098dbbc486452ace86256e6d5e1int, 0x6496ce4dcbc076c8eacbb53e09f6a86e5a44357a16dfa747cf6e7af2fe7156c8int);
    let e = lemma_chain_multiply(p, g, e, 0x6496ce4dcbc076c8eacbb53e09f6a86e5a44357a16dfa747cf6e7af2fe7156c8int, 0x2fb4d272876caab369740fa2f5772d51739b2fcec80d175115021dc0a7bcab93int, 0x21ab68e5aaacae0994aacd5a586d75837dbd3d505c8ea0b7ce706de0ffd316fdint);
    let e = lemma_chain_square(p, g, e, 0x21ab68e5aaacae0994aacd5a586d75837dbd3d505c8ea0b7ce706de0ffd316fdint, 0x9c75f61e4ac8875746c005c8ad658e2e69e4632fc4c7596884619753dd42e2dint, 0x40dd03ab38d6432406bae0c4463a4e52bcee34414a83b50f718ff752af4a47dcint);
    let e = lemma_chain_square(p, g, e, 0x40dd03ab38d6432406bae0c4463a4e52bcee34414a83b50f718ff752af4a47dcint, 0x244ab5ffd69713a9d921133df09714e021fcc29263aa43d402e6a1d2c9d8d738int, 0x5178bb0b9a590ab7594dfe7fbc39ac2e413a16b9b5b6aa6161016a219d82edd8int);
    let e = lemma_chain_multiply(p, g, e, 0x5178bb0b9a590ab7594dfe7fbc39ac2e413a16b9b5b6aa6161016a219d82edd8int, 0x26a3b61e92c6df7721c24d970e294402ec58e1630f5a4cf2bb5eba663fb84ca7int, 0x6cb65f53873c71b41cbf60b46cee31ca293e8860ec04d9fad33a8a53ea1b3e09int);
    let e = lemma_chain_square(p, g, e, 0x6cb65f53873c71b41cbf60b46cee31ca293e8860ec04d9fad33a8a53ea1b3e09int, 0x65f2132b23543c420a60c14cdb2c5a57d49fa8bd3608b4dcd2db310674545eaaint, 0x357cb9ae2fdaac1140e41df7a33428f65fa66e2dbdcbbee9962eebc82499fda7int);
    let e = lemma_chain_square(p, g, e, 0x357cb9ae2fdaac1140e41df7a33428f65fa66e2dbdcbbee9962eebc82499fda7int, 0x18ad928b62a35b4743ae6d2818c3fa5e71e3e1f9ce199f232c589c950ffd4346int, 0x4000340220a243d8136056130e7bf5b60d5db12e224362f8ad31419914f43fabint);
    let e = lemma_chain_square(p, g, e, 0x4000340220a243d8136056130e7bf5b60d5db12e224362f8ad31419914f43fabint, 0x235542bb7fbbe2c624e5fe08ebe63c78909ae8d991f0649b114c95b763babebaint, 0x58a3011da7814951cea1dc351b49986a7026a5e6b1379ae1e5e42c64c212dd7fint);
}

/// A power of a power of the root 7 modulo the prime `q`: the steps from the exponent
/// 0x1b0155a8395d3e3586fe68
/// to the exponent
/// 0xd80aad41cae9f1ac37f34a5.
proof fn lemma_power_q_2_part_3(p: int, g: int)
    requires
        p == q(),
        g == 0x36fb34ca1cf1bdf3cfcae97d3d3292f63e19c2f2cf2ab065378f4171e23ad3a2int,
        pow_mod(g, 0x1b0155a8395d3e3586fe68nat, p) == 0x58a3011da7814951cea1dc351b49986a7026a5e6b1379ae1e5e42c64c212dd7fint,
    ensures
        pow_mod(g, 0xd80aad41cae9f1ac37f34a5nat, p) == 0x25f2d9263c0f76ac67d580b0425ff883d13b53a5325ee1dfbd3ced86ae920680int,
{
    let e: nat = 0x1b0155a8395d3e3586fe68nat;
    let e = lemma_chain_multiply(p, g, e, 0x58a3011da7814951cea1dc351b49986a7026a5e6b1379ae1e5e42c64c212dd7fint, 0x2a09a6c8877f55b5055e8b6d6a280e9d00cd1ae510fbf0023035aea02f3827d2int, 0x19366eadd0cb25470448be8961cd124e3e2059a25a467dbd03a840c97a0daf8cint);
    let e = lemma_chain_square(p, g, e, 0x19366eadd0cb25470448be8961cd124e3e2059a25a467dbd03a840c97a0daf8cint, 0x57bbd54b227b4891d924111ea8f9bc78f8879f88985cde42fa47879b8182a93int, 0x47827bcc398194c1133f6d634c355cafc2578197dbf5cd8bf3a867fe048089fdint);
    let e = lemma_chain_square(p, g, e, 0x47827bcc398194c1133f6d634c355cafc2578197dbf5cd8bf3a867fe048089fdint, 0x2c1c3ec4bee9e1e8baa19e534bd7a02304399762260edf544ae3d51ae73e2171int, 0x51af84b66fd2698ed83cf1bdb2bc8aad57aea9f49bf7d84d6499f93c4822a298int);
    let e = lemma_chain_multiply(p, g, e, 0x51af84b66fd2698ed83cf1bdb2bc8aad57aea9f49bf7d84d6499f93c4822a298int, 0x26bdb210d7092dbe07aac0091aedf3674dbba7b125b07945299776bda7d550dcint, 0x1e13284cdbc940b98353d02d9b20e01449a2c20579aa564edceb8a339088db54int);
    let e = lemma_chain_square(p, g, e, 0x1e13284cdbc940b98353d02d9b20e01449a2c20579aa564edceb8a339088db54int, 0x7cd5cbc792c8dfd7fbc513c76f80e6dbe7180b63a1e404bda838696b1880c2bint, 0x723fba77d703bc1175de9daa89c6480b70169216e5e82c1757d4b8f493a0c765int);
    let e = lemma_chain_square(p, g, e, 0x723fba77d703bc1175de9daa89c6480b70169216e5e82c1757d4b8f493a0c765int, 0x70980801f1f0880ebe16c66de4c06df2aea25e2a0aac944de03b6edc5a542d25int, 0x648259457dc3ec642d9c4ff7652a4d6ea8b4346e457e8f8b3da010c87d3a00b4int);
    let e = lemma_chain_square(p, g, e, 0x648259457dc3ec642d9c4ff7652a4d6ea8b4346e457e8f8b3da010c87d3a00b4int, 0x57240f14abb32429fc9ea19c6eb60a191b984ebdb716ceb04d63ca035ebd2335int, 0x3b0fc7a01fe90a1d774bc0457953e904fdef99a24d26c781e252a445bad35b5bint);
    let e = lemma_chain_multiply(p, g, e, 0x3b0fc7a01fe90a1d774bc0457953e904fdef99a24d26c781e252a445bad35b5bint, 0x1c02d9bcc6662266b140daf4c3aa6b1368179936e1ea5359a520c060d5095c47int, 0x69277e8dbe35c2026f68e9c0bd188ea2e8f9542dd03f659702a761b6a1a0744fint);
    let e = lemma_chain_square(p, g, e, 0x69277e8dbe35c2026f68e9c0bd188ea2e8f9542dd03f659702a761b6a1a0744fint, 0x5f61abb9a651ef9395c24ca1aad6f33949c534ef66c87ef4e8eee5e3703ae7e5int, 0x5d3548f98d8375fa583b83c363dc8ca81a545a0cf8dfd7f450b27732855cc87cint);
    let e = lemma_chain_square(p, g, e, 0x5d3548f98d8375fa583b83c363dc8ca81a545a0cf8dfd7f450b27732855cc87cint, 0x4af0d613f84ee7311630a9b8f46168cff599bc3503a6a5934734ce2432faae07int, 0x1cdfcf2b329751a01c067237b964085c429c7ffe2ce3b40d85102445b274e09int);
    let e = lemma_chain_multiply(p, g, e, 0x1cdfcf2b329751a01c067237b964085c429c7ffe2ce3b40d85102445b274e09int, 0xdb1b5b1e0aab5ca571d5734ad075620d64012b80e3c96a89b3b3d305a8c632int, 0x25f2d9263c0f76ac67d580b0425ff883d13b53a5325ee1dfbd3ced86ae920680int);
}

/// A power of a power of the root 7 modulo the prime `q`.
proof fn lemma_power_q_2()
    ensures
        pow_mod(0x36fb34ca1cf1bdf3cfcae97d3d3292f63e19c2f2cf2ab065378f4171e23ad3a2int, 0xd80aad41cae9f1ac37f34a5nat, q()) == 0x25f2d9263c0f76ac67d580b0425ff883d13b53a5325ee1dfbd3ced86ae920680int,
{
    let p = q();
    let g = 0x36fb34ca1cf1bdf3cfcae97d3d3292f63e19c2f2cf2ab065378f4171e23ad3a2int;
    lemma_chain_start(p, g);
    lemma_power_q_2_part_1(p, g);
    lemma_power_q_2_part_2(p, g);
    lemma_power_q_2_part_3(p, g);
}

/// A power of a power of the root 7 modulo the prime `q`: the steps from the exponent
/// 0
/// to the exponent
/// 0x1c2c81d504d6.
proof fn lemma_power_q_3_part_1(p: int, g: int)
    requires
        p == q(),
        g == 0x25f2d9263c0f76ac67d580b0425ff883d13b53a5325ee1dfbd3ced86ae920680int,
        pow_mod(g, 0, p) == 1,
    ensures
        pow_mod(g, 0x1c2c81d504d6, p) == 0x46b55df6aa1751d3b04ed51f196d5b6547d3a48524fa2c4665525ea472d85e8dint,
{
    let e: nat = 0;
    let e = lemma_chain_square(p, g, e, 1, 0, 1);
    let e = lemma_chain_multiply(p, g, e, 1, 0, 0x25f2d9263c0f76ac67d580b0425ff883d13b53a5325ee1dfbd3ced86ae920680int);
    let e = lemma_chain_square(p, g, e, 0x25f2d9263c0f76ac67d580b0425ff883d13b53a5325ee1dfbd3ced86ae920680int, 0xc6c1ccacd54ff4f030ec5890a50086c3d1eb5f11670b52f37b4a2d3d168d8d8int, 0x2d68b450c4656108b45d1f5ab8310ffac5a96e9a9f8b919e3da6d82598c16728int);
    let e = lemma_chain_multiply(p, g, e, 0x2d68b450c4656108b45d1f5ab8310ffac5a96e9a9f8b919e3da6d82598c16728int, 0xedd4b9f16438145d82384a3c21bdc584415b7b3878b34b4086d02071355e530int, 0x1350395c4ab9782285b989d6b5804bf66a9d715a086d139251c670e3da989ed0int);
    let e = lemma_chain_square(p, g, e, 0x1350395c4ab9782285b989d6b5804bf66a9d715a086d139251c670e3da989ed0int, 0x337b2106a29efa2938f8d922f228dc7c778edc368f78c78806ae26417518e8dint, 0x5a377fe43be6af4aa13cfa71d4bfa74eb284757339ff2060d0ee9a802233da73int);
    let e = lemma_chain_multiply(p, g, e, 0x5a377fe43be6af4aa13cfa71d4bfa74eb284757339ff2060d0ee9a802233da73int, 0x1d883595eae16f50be6323e017a0fd3f26a1e416f954e2b05a4f97eb9c4bf27bint, 0x5e1438ac6e38392876b8a20d6d0373e735e91493f23e667287902aac7455f905int);
    let e = lemma_chain_square(p, g, e, 0x5e1438ac6e38392876b8a20d6d0373e735e91493f23e667287902aac7455f905int, 0x4c58ffd31c9311bb7d9ae52862707ab3bf5e96719c95cc00d0ac8642fcde803aint, 0x73eb61016cfe395f4cf456877d164fbc5016eaf5894bea455ec433adaae39dfint);
    let e = lemma_chain_square(p, g, e, 0x73eb61016cfe395f4cf456877d164fbc5016eaf5894bea455ec433adaae39dfint, 0x73e91abb1d6ad1a5c15748497f799b61316fb67b9e6973a31d31bb861b9ea0int, 0x52c5b7fb982f451bc704229b5c087ca7da7a1a702034d047b0309112fe1d71a1int);
    let e = lemma_chain_square(p, g, e, 0x52c5b7fb982f451bc704229b5c087ca7da7a1a702034d047b0309112fe1d71a1int, 0x3b195e8279ae66a5853f649d0ff8264d5c55e7ca443115cb67470d3d5fb8feafint, 0x3e57b72294897b940691149b2521745f1fd1b3a511c705fd07ecbef40d308892int);
    let e = lemma_chain_square(p, g, e, 0x3e57b72294897b940691149b2521745f1fd1b3a511c705fd07ecbef40d308892int, 0x2186a2f535869e872132ca039b798019c0367407a7530babc85aac93181a3697int, 0x38eaa4c2630c29a97a9bf17f918cd6b289992810e2115d4348da8f663b813cadint);
    let e = lemma_chain_square(p, g, e, 0x38eaa4c2630c29a97a9bf17f918cd6b289992810e2115d4348da8f663b813cadint, 0x1bf1a754a7a7f2a18aab91f9c1cf30af734725ed3afb2140b3781114fd172e90int, 0x1f1f45b96cc463e18abad4f55bbf46bca9a76ddf18973c7ccadd908cf5a45e59int);
    let e = lemma_chain_multiply(p, g, e, 0x1f1f45b96cc463e18abad4f55bbf46bca9a76ddf18973c7ccadd908cf5a45e59int, 0xa300d1f4e84b147449d4cce6fe96f7e64d7d3adafc285b43882cfd6b5a56734int, 0x17854352abb7f95dd39ce0106a8a19c94d37505d7cc6f4ffede5c30e4381db4cint);
    let e = lemma_chain_square(p, g, e, 0x17854352abb7f95dd39ce0106a8a19c94d37505d7cc6f4ffede5c30e4381db4cint, 0x4c5a58ebe3ab195631c3091f13a9e3e0674768164dd28fed45329f8a57b1d77int, 0x43f71b225e3f778f661cf2568940a53ffa934690e6b60dd92736f276e0f80119int);
    let e = lemma_chain_square(p, g, e, 0x43f71b225e3f778f661cf2568940a53ffa934690e6b60dd92736f276e0f80119int, 0x27d8911c7e6e244ea9c2f344dea2c779f1cdc4c23e7af8057d71fcf5648a39b0int, 0x3149eb02ea66b7d51300bc099ea1b0a9acfdb0e3e297d681080b75f47be6fac1int);
    let e = lemma_chain_multiply(p, g, e, 0x3149eb02ea66b7d51300bc099ea1b0a9acfdb0e3e297d681080b75f47be6fac1int, 0x10226b630897fa4ca5898f3e9cf48349f0bdf61066bc3ef3a67214ac330cd0c2int, 0x4d935e41124a225f0b65d466485697239ebbe17e09b14af43c07076b5a6315beint);
    let e = lemma_chain_square(p, g, e, 0x4d935e41124a225f0b65d466485697239ebbe17e09b14af43c07076b5a6315beint, 0x33e9466feb8627de73c6c6435fb8f77d57739cb7f418687fe3408a705f173aecint, 0x3ef4cebb246b64a3143436ec4c1b4f872baba99b278e469ed62912f30bb57e18int);
    let e = lemma_chain_multiply(p, g, e, 0x3ef4cebb246b64a3143436ec4c1b4f872baba99b278e469ed62912f30bb57e18int, 0x149bc3f4233662742320df9db19597aa17356312735f3ab1b347a77cb292d340int, 0x8e0202499bbff09531fb55ce9d8d43629a5c1bee263ef6177349955a2d0c8c0int);
    let e = lemma_chain_square(p, g, e, 0x8e0202499bbff09531fb55ce9d8d43629a5c1bee263ef6177349955a2d0c8c0int, 0xadf44b00dbd3a2556b8371fef742ef593f3b6d78d8b073033769b8bf7e0d35int, 0xc937e356cb69d710c74128dc7e7ea2671aef47bd91614b1e06e5b5615ee82cbint);
    let e = lemma_chain_square(p, g, e, 0xc937e356cb69d710c74128dc7e7ea2671aef47bd91614b1e06e5b5615ee82cbint, 0x15d41da0c377d1d469752c9b81030cf123abe01e072858cf8df7053fe4a1275int, 0x67cfb6c412d0bc13a0e62a25339d852c1b62af5f1b161457fafbd431c3fcba84int);
    let e = lemma_chain_square(p, g, e, 0x67cfb6c412d0bc13a0e62a25339d852c1b62af5f1b161457fafbd431c3fcba84int, 0x5cf5fe047ed48bdd6c399c182c49cf3d0e78d6c361ff597b0d7c4f61521df84eint, 0x4f667cc98b037c076506cf4c62c643d30e275345bed8b013052ead1981a61bc2int);
    let e = lemma_chain_multiply(p, g, e, 0x4f667cc98b037c076506cf4c62c643d30e275345bed8b013052ead1981a61bc2int, 0x19fdc91584bbc1d8510befb24b0171afb28a1a64d554cac1c0cd811a30cbe0dfint, 0x70e396461ed0263add922e7a373a780c87658c9ec8be8aea8e2b7eb5378c8c21int);
    let e = lemma_chain_square(p, g, e, 0x70e396461ed0263add922e7a373a780c87658c9ec8be8aea8e2b7eb5378c8c21int, 0x6dedeb4ee53ccad1c2c3f068349b3c0c7daa3dc3ef54badfa93769b8348606d7int, 0x72e8cd4036d55cd207b8dff6d00520ffca4db7ec4fd8a9a52d20f1288a46156aint);
    let e = lemma_chain_square(p, g, e, 0x72e8cd4036d55cd207b8dff6d00520ffca4db7ec4fd8a9a52d20f1288a46156aint, 0x71e63e1f7a55935694ceeb7f85f230e74201db9c7776e09dd6bf0e70cc32e2cdint, 0x1177c44ed67f2df93e7010186905f08c93d4c2d26afd831408dbbbc2338fad17int);
    let e = lemma_chain_square(p, g, e, 0x1177c44ed67f2df93e7010186905f08c93d4c2d26afd831408dbbbc2338fad17int, 0x2a1cbe62b09fda9440decae9671cf31b979cfdeb3a94f034c772b4901a5519cint, 0xe4106e051062755e51c850657239ec5afc6d6d0049830c3618ca6c8fd14c675int);
    let e = lemma_chain_square(p, g, e, 0xe4106e051062755e51c850657239ec5afc6d6d0049830c3618ca6c8fd14c675int, 0x1c0aaddb0fc36b2644c3b5a900130f9de1f46359450f446b8a60e2196909aadint, 0x70a619a5cafd7ffeaefbcb59f80f3c81f5a1d4f4cbf391e6f3ea714e479096ccint);
    let e = lemma_chain_square(p, g, e, 0x70a619a5cafd7ffeaefbcb59f80f3c81f5a1d4f4cbf391e6f3ea714e479096ccint, 0x6d764c04f9005fe95bafb9a3bc1c68466cdf32eb583435dec9c7047e6f267e2dint, 0x5a711495e377f13082c56039f4ffcef19413d7542ac2b514ef8cfb4db72d3463int);
    let e = lemma_chain_square(p, g, e, 0x5a711495e377f13082c56039f4ffcef19413d7542ac2b514ef8cfb4db72d3463int, 0x468eebf298b5634c73ea2432a5c48885ef4a600ed174323bfc8748bce8bee4d2int, 0xf32a3e0232b28c9b7157696fa73047b35f4a702a022eed76b7cea8416c77977int);
    let e = lemma_chain_square(p, g, e, 0xf32a3e0232b28c9b7157696fa73047b35f4a702a022eed76b7cea8416c77977int, 0x1fe0cbe5e3d3e37d265617900a3cdddb8f9c028c27bfd2c71e1283c36921f6eint, 0x156a8f9cbcfa166391a95fe9c3061f8d945712623fe19af313c2aa384e1195e3int);
    let e = lemma_chain_multiply(p, g, e, 0x156a8f9cbcfa166391a95fe9c3061f8d945712623fe19af313c2aa384e1195e3int, 0x702b127d706aba9238bd73392a508dc501368592671ea1a78a252d209ad497eint, 0x25278a328be742b0162b0e408cf0ebe6a09cac1b54a7c03138b57a612e16fa02int);
    let e = lemma_chain_square(p, g, e, 0x25278a328be742b0162b0e408cf0ebe6a09cac1b54a7c03138b57a612e16fa02int, 0xbe866aa463c4712ff57e3e44d997fa671947ab481e4019509474d48083a4837int, 0x42860dfb864d8a6d30a6d877db26cf60b5b314019498835e41c69c5b9c459fcdint);
    let e = lemma_chain_multiply(p, g, e, 0x42860dfb864d8a6d30a6d877db26cf60b5b314019498835e41c69c5b9c459fcdint, 0x15c6b67b8a5f49d69fc8055913616605cda61e307639e0a8343646631ff3c643int, 0x6a3bfbf5cfa3368329791e5adc8dc843cd78184e48f08db3f59ab3f81d84ee3dint);
    let e = lemma_chain_square(p, g, e, 0x6a3bfbf5cfa3368329791e5adc8dc843cd78184e48f08db3f59ab3f81d84ee3dint, 0x6159d582d7a56df08954ad118b4120545df138fde3b45354aabce637c9389dc5int, 0x66985bccee42da8f675c6eb211cdb6f0e2edad4119559da69bfdfebd9564dcc4int);
    let e = lemma_chain_multiply(p, g, e, 0x66985bccee42da8f675c6eb211cdb6f0e2edad4119559da69bfdfebd9564dcc4int, 0x219585714497192fe6cf4ff574348bf629b1f09d25a479e559f5f214d64f6a22int, 0x20770b1b6d69459ef02dda6f7b4a579d36f833d8c0ace72e98180c8359138fdeint);
    let e = lemma_chain_square(p, g, e, 0x20770b1b6d69459ef02dda6f7b4a579d36f833d8c0ace72e98180c8359138fdeint, 0x91774d0c59bee740b4d5dde39c0de8e436f0fd7a17c85277a0c33c55375b0edint, 0x4aeca04bfb6c79221aa0e37c4a387918c97fdf0538490d93918a25e2b4581397int);
    let e = lemma_chain_square(p, g, e, 0x4aeca04bfb6c79221aa0e37c4a387918c97fdf0538490d93918a25e2b4581397int, 0x306c69757f62debcdc08cdc3a7e87c66604baa77e6ec4a62c7b7d0bca74e3fb6int, 0x5d166e75622589f3fe9816495c626577138826d8e233b9846c9aa56f2a01835bint);
    let e = lemma_chain_multiply(p, g, e, 0x5d166e75622589f3fe9816495c626577138826d8e233b9846c9aa56f2a01835bint, 0x1e78c9385e5a397fc2ddf7e47e063403dd069d9dedd3130d288142ec457852e1int, 0x6bc5051a50e7d5922e8be390dbbeba226e9defe3d1066fd34dd75f4c88437c9fint);
    let e = lemma_chain_square(p, g, e, 0x6bc5051a50e7d5922e8be390dbbeba226e9defe3d1066fd34dd75f4c88437c9fint, 0x642f60f1dd590e1ab13e05531a4ef9189f2e0a9367469db47e86fddbcb4f2a0aint, 0x257a9fdd6a5952d8a10babc29ed6c8e23af77e49e4ca0a18cf1f2c99c9540b7int);
    let e = lemma_chain_square(p, g, e, 0x257a9fdd6a5952d8a10babc29ed6c8e23af77e49e4ca0a18cf1f2c99c9540b7int, 0xc1de3db03734959a517d0d087bc8f1d1b332e03d71ec7d46be42ca71037bdint, 0x4a865ab362c33e22dd152d1961fca98f31afdea7717d11ed43b22cd1c651cb14int);
    let e = lemma_chain_multiply(p, g, e, 0x4a865ab362c33e22dd152d1961fca98f31afdea7717d11ed43b22cd1c651cb14int, 0x186536f257382685a1d9a2b7e9c49a338a2cb6892f97872d7a33e94deb1071baint, 0x3eba41fc71cdc0b07d118fac335a8e4085fb16a73bf53b137ff05f1a91ff9046int);
    let e = lemma_chain_square(p, g, e, 0x3eba41fc71cdc0b07d118fac335a8e4085fb16a73bf53b137ff05f1a91ff9046int, 0x21f0f325ab0d48a38ff195ebbe0db5ac008680fa447470f2520ee7c49dd3f8f0int, 0x6e5d3c6911bcd7a6789e702690df76c42b3000272445e997eb45d3f36aeeda34int);
    let e = lemma_chain_square(p, g, e, 0x6e5d3c6911bcd7a6789e702690df76c42b3000272445e997eb45d3f36aeeda34int, 0x69112f643af2621e4e870dc5b15bfbae0b7929b83c79754242b55c347c11aaffint, 0x18295f437334ab9b1a83148ff7fd288565f41c4284dd52603b32f110069aef91int);
    let e = lemma_chain_multiply(p, g, e, 0x18295f437334ab9b1a83148ff7fd288565f41c4284dd52603b32f110069aef91int, 0x7e8c10e21d7469d99ac43a633104dbdd3b28a3adc774500b838b3b090f51178int, 0x2e5024bf59fe47a610318106220b6d7e2bd6cb743050488d1b5afc098cd21d08int);
    let e = lemma_chain_square(p, g, e, 0x2e5024bf59fe47a610318106220b6d7e2bd6cb743050488d1b5afc098cd21d08int, 0x12807f6cf848fb49a36c7bdbe54f55d199fd3df67077b9f7fd53078a181a7abeint, 0x6ce289fb07077a9ea8061f748fcdb40d147c0b8dbdac1e9511cbb9f84c505582int);
    let e = lemma_chain_square(p, g, e, 0x6ce289fb07077a9ea8061f748fcdb40d147c0b8dbdac1e9511cbb9f84c505582int, 0x6644f9bdde4023c638c9cc1f83cca53aa466a12d4403633f2c1ceda5617a6a1dint, 0x6e79cf06af895b054aa3c1ee12b543a00ee0167514ee0bba2384d8525c552be7int);
    let e = lemma_chain_square(p, g, e, 0x6e79cf06af895b054aa3c1ee12b543a00ee0167514ee0bba2384d8525c552be7int, 0x69479d8423ffe5c32e0648fbb1e2df1041721d8cf69b78b370a4fdb0d13e1ef1int, 0x5e49dc332e871acb1582292ed897323be1508561be1245bfd2c4652065af4b80int);
    let e = lemma_chain_square(p, g, e, 0x5e49dc332e871acb1582292ed897323be1508561be1245bfd2c4652065af4b80int, 0x4cb027a7c8517ffb0c039cb679188ec1e39d26cd758dbb320702bf9a26dd743dint, 0xc06c033620986d8a2cc27fa3d441639f015ac800bae1644a1a45e3e2866cbc3int);
    let e = lemma_chain_square(p, g, e, 0xc06c033620986d8a2cc27fa3d441639f015ac800bae1644a1a45e3e2866cbc3int, 0x13f63800a7673d6941fc97278b3a32fabdad53ba44551bfac91d028e818e029int, 0x5654257519fb120b5367321bc9190fd3fd79f944b2052aeda92d3f680979f660int);
    let e = lemma_chain_square(p, g, e, 0x5654257519fb120b5367321bc9190fd3fd79f944b2052aeda92d3f680979f660int, 0x404961a96f3f06b0c950cff000863f04f6278b97c3664393717cef17b8cd4d38int, 0x311265391241fe4e726ddec04538f48fb38b671a0c841995fc5998ddb0f56c8int);
    let e = lemma_chain_multiply(p, g, e, 0x311265391241fe4e726ddec04538f48fb38b671a0c841995fc5998ddb0f56c8int, 0x10103e90f6832b8436affb7ede3b457b5d96f1a38320184f9ed4353eea6493eint, 0x4c9f23c06fc209dba2a629e6e8bab9a64316f525426953fb53291065631dcac2int);
    let e = lemma_chain_square(p, g, e, 0x4c9f23c06fc209dba2a629e6e8bab9a64316f525426953fb53291065631dcac2int, 0x32a46cb51045b06059039a592f3d362ab021fa7d76300b92f320b7e0d23f5735int, 0x1ffad12c0d698410cc3dc0d80c56a30c659ccfa54318417eb27ceab1ca4b63cfint);
    let e = lemma_chain_square(p, g, e, 0x1ffad12c0d698410cc3dc0d80c56a30c659ccfa54318417eb27ceab1ca4b63cfint, 0x8d266102eb81131c7baef0029096bc176d696f7b4263d0d308a52a4eb0bbdb3int, 0x6eff89b8133e6bb08b21a817fc8d6b55b4fb78897152e2e759aeb02632803aeint);
    let e = lemma_chain_square(p, g, e, 0x6eff89b8133e6bb08b21a817fc8d6b55b4fb78897152e2e759aeb02632803aeint, 0x6a4718cef560e627b8491600c4572005f3a722b805214bfcea1c5fc9057680int, 0x60be23dfa75ab19e1b577b27c0499065fcbec7ababd38dae6f3cd5f1f16813c4int);
    let e = lemma_chain_multiply(p, g, e, 0x60be23dfa75ab19e1b577b27c0499065fcbec7ababd38dae6f3cd5f1f16813c4int, 0x1fab160a270f2a81b638a2dacfa9d819cc4c751afb70adb06992c8dbeed55564int, 0x20a7aa82a455e19d4ef4a4c941cba133c19250c0361718591378688bb373249cint);
    let e = lemma_chain_square(p, g, e, 0x20a7aa82a455e19d4ef4a4c941cba133c19250c0361718591378688bb373249cint, 0x932c4d86de5877b8d8d2fdf51ed900a808078156d293caf51726cf8d5e4f695int, 0xb14b9fe86cd66a39c2d4f1d98c24c63614fd109fc70c1e94544003b7f487bint);
    let e = lemma_chain_multiply(p, g, e, 0xb14b9fe86cd66a39c2d4f1d98c24c63614fd109fc70c1e94544003b7f487bint, 0x3a097003a008ebd25b0befc6a832286d7badbb461c8d378dcdb37af5fe5d6int, 0x53ab4dbec6fb79ea3ae2c416983a793b5c1ea85378de12102fdd4d5dfc1d39aaint);
    let e = lemma_chain_square(p, g, e, 0x53ab4dbec6fb79ea3ae2c416983a793b5c1ea85378de12102fdd4d5dfc1d39aaint, 0x3c62fd9d55afe80e8b36fd29dbcbda4c7147ce84f6a66808b606bbfb7d7e3b12int, 0x6a37298e0ecb7948c21709cf93d716757886c812869ce6117d3135775002e9d2int);
    let e = lemma_chain_square(p, g, e, 0x6a37298e0ecb7948c21709cf93d716757886c812869ce6117d3135775002e9d2int, 0x6150ff5853bac87e0670e0ab2830974694156ddf0e5a9c7480a3b2efa7502173int, 0x137ca5bc7e327c30ce5446ef62318df516cf26d243ec62036d9895eb1587ced1int);
    let e = lemma_chain_multiply(p, g, e, 0x137ca5bc7e327c30ce5446ef62318df516cf26d243ec62036d9895eb1587ced1int, 0x66102f7f077451ab97aab55d47ed16f375d2d62e3dee13c4bc2d4770795c37aint, 0x5afd6ee963b59b8dabcec5cb48f8df6da981a0db1295707829dfbb7aec5c8b06int);
    let e = lemma_chain_square(p, g, e, 0x5afd6ee963b59b8dabcec5cb48f8df6da981a0db1295707829dfbb7aec5c8b06int, 0x476a9419ff2a39691211cbf78672c84370ffbce66f68f33d72afd1144abf3e62int, 0x7d8890f9ebad9a4feae6eaeebb7661f5ab21215d6ecb7f04e0d74ccfd1045c2int);
    let e = lemma_chain_square(p, g, e, 0x7d8890f9ebad9a4feae6eaeebb7661f5ab21215d6ecb7f04e0d74ccfd1045c2int, 0x87ef35b568fbedfd48224dfb6129f32cb544d24364621f04d43415fea517cfint, 0x64a793204d2f93cd41ff669cdec9b701c8454e3b4f64b52a52d50bd3409d0f35int);
    let e = lemma_chain_multiply(p, g, e, 0x64a793204d2f93cd41ff669cdec9b701c8454e3b4f64b52a52d50bd3409d0f35int, 0x20f2e6b8ec21d60ea51ccfa64b537fc6ab1e38dc27abcc907c76db8684e169eaint, 0x50a84d7720696ee583211da1ee41340c7b3f49b166cbb01eb0530c2e2a3b6e96int);
    let e = lemma_chain_square(p, g, e, 0x50a84d7720696ee583211da1ee41340c7b3f49b166cbb01eb0530c2e2a3b6e96int, 0x381e1bd930d1647103ba5f267973ffc35a04a469a5054312882b882aaa39cbc1int, 0x6629d3538542a53b879d6f73edf8c1e2e7b8d38481e56e1de039f93b6af7423int);
    let e = lemma_chain_multiply(p, g, e, 0x6629d3538542a53b879d6f73edf8c1e2e7b8d38481e56e1de039f93b6af7423int, 0x217156b796f14edd3feaaf2dee149a5b1e99a1009b3c162675e673455738068int, 0x21d17beeb38c70810bf9695e92c66a2efe94a403e09725b08b9afba924f56318int);
    let e = lemma_chain_square(p, g, e, 0x21d17beeb38c70810bf9695e92c66a2efe94a403e09725b08b9afba924f56318int, 0x9dd89a27b5534b1071a81138a553a37ffcf10f613549d5304a4a9d41f7333b3int, 0x46b55df6aa1751d3b04ed51f196d5b6547d3a48524fa2c4665525ea472d85e8dint);
}

/// A power of a power of the root 7 modulo the prime `q`: the steps from the exponent
/// 0x1c2c81d504d6
/// to the exponent
/// 0x1c2c81d504d6b.
proof fn lemma_power_q_3_part_2(p: int, g: int)
    requires
        p == q(),
        g == 0x25f2d9263c0f76ac67d580b0425ff883d13b53a5325ee1dfbd3ced86ae920680int,
        pow_mod(g, 0x1c2c81d504d6, p) == 0x46b55df6aa1751d3b04ed51f196d5b6547d3a48524fa2c4665525ea472d85e8dint,
    ensures
        pow_mod(g, 0x1c2c81d504d6b, p) == 0x2966cc72141c38e4cc63e15a8d2c5a99b1b037a556c16994d5f0135ba46f1aa6int,
{
    let e: nat = 0x1c2c81d504d6;
    let e = lemma_chain_square(p, g, e, 0x46b55df6aa1751d3b04ed51f196d5b6547d3a48524fa2c4665525ea472d85e8dint, 0x2b209ceeec50775c7be97137a41dc240ce6e557e3ff6ec6a65f1edb6e40f2ce6int, 0x5b1269b119cf7fa2ccb62b5fd0886e7d404c2663f8e12e80909f5aec60ccacc3int);
    let e = lemma_chain_multiply(p, g, e, 0x5b1269b119cf7fa2ccb62b5fd0886e7d404c2663f8e12e80909f5aec60ccacc3int, 0x1dcfde9ecb60776b26e085021a8b876801ea5a0d2e60fa1fb5463a3689977dbbint, 0x61ae2d49ed969f3942a65531bc9ecabdad238be80340b1e600818b32ba0175c5int);
    let e = lemma_chain_square(p, g, e, 0x61ae2d49ed969f3942a65531bc9ecabdad238be80340b1e600818b32ba0175c5int, 0x524e063a5d0420d0050616961b7e5fc8825ffaa34fb24b5188645ae94f6000d1int, 0x123efea7c9027ed980f4ce5bdeca31e6324d7dd55e3291e83d21b4001657a8c8int);
    let e = lemma_chain_square(p, g, e, 0x123efea7c9027ed980f4ce5bdeca31e6324d7dd55e3291e83d21b4001657a8c8int, 0x2df2c22a0afb1bfde5966b74e78b623b47014f585246462051028e5e43d49ffint, 0x296602d3696b362f0717a8e792d985aaf5861d7a7cff8d76fa09901fa2f9d241int);
    let e = lemma_chain_multiply(p, g, e, 0x296602d3696b362f0717a8e792d985aaf5861d7a7cff8d76fa09901fa2f9d241int, 0xd8d363ea4a9edb60c91e98bc14b12082f0a855992ab4013c4adf678cf85d47fint, 0x3e42945788552e4347d5ca442375763e319c1323e8802a7dd677a6119f62d201int);
    let e = lemma_chain_square(p, g, e, 0x3e42945788552e4347d5ca442375763e319c1323e8802a7dd677a6119f62d201int, 0x216feb4cd536bc2f0fbfa08c3b47c82ec7e4b05a7d23c4c0fc620f86568307edint, 0x29b34c592939e1565c2eeec90ac82fb9ea71e6e1f9c1d08ff9c40f8b5c869c14int);
    let e = lemma_chain_multiply(p, g, e, 0x29b34c592939e1565c2eeec90ac82fb9ea71e6e1f9c1d08ff9c40f8b5c869c14int, 0xda682f29c1bc8ce9f06b7b3a1ebca8be22cecc6f3949af70266d72a61ef675aint, 0x2966cc72141c38e4cc63e15a8d2c5a99b1b037a556c16994d5f0135ba46f1aa6int);
}

/// A power of a power of the root 7 modulo the prime `q`.
proof fn lemma_power_q_3()
    ensures
        pow_mod(0x25f2d9263c0f76ac67d580b0425ff883d13b53a5325ee1dfbd3ced86ae920680int, 0x1c2c81d504d6b, q()) == 0x2966cc72141c38e4cc63e15a8d2c5a99b1b037a556c16994d5f0135ba46f1aa6int,
{
    let p = q();
    let g = 0x25f2d9263c0f76ac67d580b0425ff883d13b53a5325ee1dfbd3ced86ae920680int;
    lemma_chain_start(p, g);
    lemma_power_q_3_part_1(p, g);
    lemma_power_q_3_part_2(p, g);
}

/// A power of a power of the root 7 modulo the prime `q`.
proof fn lemma_power_q_4()
    ensures
        pow_mod(0x2966cc72141c38e4cc63e15a8d2c5a99b1b037a556c16994d5f0135ba46f1aa6int, 0x27c1, q()) == 0x389379c7961dd831f328b4267269444d480d84df1c5bf46348078d2270ecbeebint,
{
    let p = q();
    let g = 0x2966cc72141c38e4cc63e15a8d2c5a99b1b037a556c16994d5f0135ba46f1aa6int;
    lemma_chain_start(p, g);
    let e: nat = 0;
    let e = lemma_chain_square(p, g, e, 1, 0, 1);
    let e = lemma_chain_multiply(p, g, e, 1, 0, 0x2966cc72141c38e4cc63e15a8d2c5a99b1b037a556c16994d5f0135ba46f1aa6int);
    let e = lemma_chain_square(p, g, e, 0x2966cc72141c38e4cc63e15a8d2c5a99b1b037a556c16994d5f0135ba46f1aa6int, 0xec927cb1651bc3886a16fc4db16c4ad7f299d0fa5add40ad42a4e253a1e74d3int, 0x4805e60ae64cbb06260f56b2bc5e863530bf419f27d004be67c4470e949baed1int);
    let e = lemma_chain_square(p, g, e, 0x4805e60ae64cbb06260f56b2bc5e863530bf419f27d004be67c4470e949baed1int, 0x2cbef3c66ecbdc958ab8da54e3408a6b3e3a19a61be31bc58bf2b6ae37f055f4int, 0x4cae01dfca79983f2680bc43b99328198dede689c8d4336b7c490cf0988670adint);
    let e = lemma_chain_square(p, g, e, 0x4cae01dfca79983f2680bc43b99328198dede689c8d4336b7c490cf0988670adint, 0x32b815d956f26f713e2da7aeee4c70e59f45ee22412c9e79f13024bd58fd1958int, 0x212ebac6d4735c5b0eb127db505caba9c03d7a35bc04c87833fa5d623db6bb91int);
    let e = lemma_chain_multiply(p, g, e, 0x212ebac6d4735c5b0eb127db505caba9c03d7a35bc04c87833fa5d623db6bb91int, 0xbd9ba5d35afc5129fbdac84ecaf59b003ed8f81005c657a1f4115a3287b8752int, 0x56ad07e0610efff2c0ea346a7088056aa0a73cd85d882ac995013b96a2edd2b4int);
    let e = lemma_chain_square(p, g, e, 0x56ad07e0610efff2c0ea346a7088056aa0a73cd85d882ac995013b96a2edd2b4int, 0x40ce07033de6edbdf89eaeb996025f420fb0d00c0910d2d89a54c9fb52e3524aint, 0x69fbab7436a912e600f65dcc35acd45d26a708ce3fb584f2db7a46da4bd07c46int);
    let e = lemma_chain_multiply(p, g, e, 0x69fbab7436a912e600f65dcc35acd45d26a708ce3fb584f2db7a46da4bd07c46int, 0x25d98cc2119ab6a92f040d727c0370aa1d36f16626312a873660a594904ffc70int, 0x30d37ded9a05ce99fe8b1ada93d356eb45cb13ca857f1336d39942007fd9b4f4int);
    let e = lemma_chain_square(p, g, e, 0x30d37ded9a05ce99fe8b1ada93d356eb45cb13ca857f1336d39942007fd9b4f4int, 0x149079e133a265db0b09560fd95163a730fbfa884ed4925030b05b753a5c1d53int, 0x2dc305414b373287987dd810443de184af8785d7577e95d90e7b4c8c2333eb3dint);
    let e = lemma_chain_multiply(p, g, e, 0x2dc305414b373287987dd810443de184af8785d7577e95d90e7b4c8c2333eb3dint, 0x1057cade83d8b885c0d615597e35cb97fe08d217acf42afa7f9773f52d555fc6int, 0xfba8fa9707fdc8d20694c078148c87c27ddbec1d475cf9036e27627ffac5bc8int);
    let e = lemma_chain_square(p, g, e, 0xfba8fa9707fdc8d20694c078148c87c27ddbec1d475cf9036e27627ffac5bc8int, 0x2224f534affc60a90158c65b8908f669790c205da7f0a2ab33c7c5ce3525042int, 0x408a9581b3ad6392fc287d7734643ce02d2a4e73ffe5c47167aefdb902557bfeint);
    let e = lemma_chain_multiply(p, g, e, 0x408a9581b3ad6392fc287d7734643ce02d2a4e73ffe5c47167aefdb902557bfeint, 0x170cb875f063915a981d3c69d82966bd5f239611f08eaccf759c8a27bb67f29bint, 0xe3be9f01cc4480d82551457d76d801507f30e1dbf362a8590766c70f1c04019int);
    let e = lemma_chain_square(p, g, e, 0xe3be9f01cc4480d82551457d76d801507f30e1dbf362a8590766c70f1c04019int, 0x1bf6935a2705c4a7c504ce53852aeea5996312304d2cdcc8011b1f29ec1e5f6int, 0x22a6e0cfd9f0d63cd37d8fd6a2a1d58c019c5d100ca5d33bf854eaf2a8ca9c7bint);
    let e = lemma_chain_multiply(p, g, e, 0x22a6e0cfd9f0d63cd37d8fd6a2a1d58c019c5d100ca5d33bf854eaf2a8ca9c7bint, 0xc600fe97213ee10940594fb430ec764c45c444bbaf10d8db979da495f1360afint, 0x391ddcabcc71911ed9afb6f566c20f463c106c58ece7afe5b3d241b54d879513int);
    let e = lemma_chain_square(p, g, e, 0x391ddcabcc71911ed9afb6f566c20f463c106c58ece7afe5b3d241b54d879513int, 0x1c2408e6144b2f691b4f2d1752dfaf168935008aa7ca6001ad2c4bc2281286f2int, 0x481ae2d86a818536c6bdfa4d62ff04cce8925ab1e40875f32f98589d6c69877int);
    let e = lemma_chain_square(p, g, e, 0x481ae2d86a818536c6bdfa4d62ff04cce8925ab1e40875f32f98589d6c69877int, 0x2cd90b8510bad89d2bcf67e9479b1e757196a32faa255b27d48bf937d7dfecint, 0x2838415a196ef2e490ff1864d80790faf5ac16bf3ac6062112acca47ef09a765int);
    let e = lemma_chain_square(p, g, e, 0x2838415a196ef2e490ff1864d80790faf5ac16bf3ac6062112acca47ef09a765int, 0xdf4250a82bd69cddcedeaf670c1ef8132507a927e1c61e4fca66e9c1785a0a3int, 0x6cab1d231a761722ce5cab45db3429ce08f9acee28492758f15076f8b1094d36int);
    let e = lemma_chain_square(p, g, e, 0x6cab1d231a761722ce5cab45db3429ce08f9acee28492758f15076f8b1094d36int, 0x65dcf6afbc98e6c102853d85f996f16b44e63260761eff243cc63fd7e676b0d8int, 0x419405c8131fb24c268e501b037639147ae0fa3aac0438a7a711aebb4a9ed68cint);
    let e = lemma_chain_square(p, g, e, 0x419405c8131fb24c268e501b037639147ae0fa3aac0438a7a711aebb4a9ed68cint, 0x2518a15661d2b099ab67389a883137ca3f69d36e76356efc00354fcd15a2473bint, 0x2d48b49f5cfef8557f7df20327d4fcd3f4842a0c9176662d4178ee8c62fc1555int);
    let e = lemma_chain_square(p, g, e, 0x2d48b49f5cfef8557f7df20327d4fcd3f4842a0c9176662d4178ee8c62fc1555int, 0x11b059c4695c795158d4d4c9a54b651892bb0094332abe8666094d85d5931735int, 0x36b7a1ff560c8c680eb40a117aa3a823a8217743c8a9fa48bae123363f8bf704int);
    let e = lemma_chain_multiply(p, g, e, 0x36b7a1ff560c8c680eb40a117aa3a823a8217743c8a9fa48bae123363f8bf704int, 0x138a8df2a9eaba070333c926d42d18d30d75398eb3a19d2f5041f286a5a7d5adint, 0x389379c7961dd831f328b4267269444d480d84df1c5bf46348078d2270ecbeebint);
}

/// A power of a power of the root 7 modulo the prime `q`.
proof fn lemma_power_q_5()
    ensures
        pow_mod(0x389379c7961dd831f328b4267269444d480d84df1c5bf46348078d2270ecbeebint, 0x264679, q()) == 0x73eda753299d7d483339d80809a1d80553bda402fffe5bfeffffffff00000000int,
{
    let p = q();
    let g = 0x389379c7961dd831f328b4267269444d480d84df1c5bf46348078d2270ecbeebint;
    lemma_chain_start(p, g);
    let e: nat = 0;
    let e = lemma_chain_square(p, g, e, 1, 0, 1);
    let e = lemma_chain_multiply(p, g, e, 1, 0, 0x389379c7961dd831f328b4267269444d480d84df1c5bf46348078d2270ecbeebint);
    let e = lemma_chain_square(p, g, e, 0x389379c7961dd831f328b4267269444d480d84df1c5bf46348078d2270ecbeebint, 0x1b9c51319fb4aea015976a4d2e278a55459a4a97d7f616db1659f2c0fe251927int, 0x86fb27a35f67dd3f695a1e882f5bdb7c92d2f844520e02c83a6bcd031849292int);
    let e = lemma_chain_square(p, g, e, 0x86fb27a35f67dd3f695a1e882f5bdb7c92d2f844520e02c83a6bcd031849292int, 0x9d2a4518e54adbdb35ccdcc09c3147ef0816c2a2a2d832978fc1ad31301b37int, 0x62108469ac656a9eb01e0401d9bc465c1b5c04f1ed457adc5340fb8d2d4ac00dint);
    let e = lemma_chain_square(p, g, e, 0x62108469ac656a9eb01e0401d9bc465c1b5c04f1ed457adc5340fb8d2d4ac00dint, 0x52f412678ee6300d0ba71153d7f0681755e5ccf5acf9ae3006190d8ff37cd93eint, 0x5ad71e334ff4a3dcca01100f68bf2124ab97c6541ab1ad89e2d83558361aa76bint);
    let e = lemma_chain_multiply(p, g, e, 0x5ad71e334ff4a3dcca01100f68bf2124ab97c6541ab1ad89e2d83558361aa76bint, 0x2c551bfe47c967e7b39d4fcecc1b67a9029669a90f93bc0022e06b47357da89aint, 0xeec10939a93403bf51bf74d72a5038071e1a027254cba2e1558627b63df709fint);
    let e = lemma_chain_square(p, g, e, 0xeec10939a93403bf51bf74d72a5038071e1a027254cba2e1558627b63df709fint, 0x1ebb695c9b4fee162701d224f8ee27c01d1918b5780dcd10bbcf713ca1ef970int, 0x50f2a86075b5328c2be451bedaf7ed600a115173d10c5ede73988b46966e8951int);
    let e = lemma_chain_multiply(p, g, e, 0x50f2a86075b5328c2be451bedaf7ed600a115173d10c5ede73988b46966e8951int, 0x278133be7b570e9a083ceb3be90fbd7aa45540d0d04220956ee07a9b7f5e1d1aint, 0x575067a245a51a78c09d358f62424b12e59198839dc57ee1114dc3aca8b00e41int);
    let e = lemma_chain_square(p, g, e, 0x575067a245a51a78c09d358f62424b12e59198839dc57ee1114dc3aca8b00e41int, 0x41c339d1385a635ee3087f924d0b56a1fcc58990c21ae67923d18ba9b00ae75cint, 0x72235603ac8ec6d5e39e4e7c9ad9a43f0ee25571acb4e00b12c514d33a204525int);
    let e = lemma_chain_square(p, g, e, 0x72235603ac8ec6d5e39e4e7c9ad9a43f0ee25571acb4e00b12c514d33a204525int, 0x706018a480a8e8dbcd642591ca4d959e9202d1157bfa05f71f0a8d49b82628aaint, 0xb16516103df2be2670211e7eed1a201c6fc7c724b1f7ec214001c467c6ceafint);
    let e = lemma_chain_square(p, g, e, 0xb16516103df2be2670211e7eed1a201c6fc7c724b1f7ec214001c467c6ceafint, 0x10f73a02eaff8472a7d4643307f2170ab0c869c67e2afd8d35fda05523c2bint, 0x24ffded88ef49b5ef5126cdd23c561d027414a30b0cd4e2c421a4afe2a3fdf76int);
    let e = lemma_chain_multiply(p, g, e, 0x24ffded88ef49b5ef5126cdd23c561d027414a30b0cd4e2c421a4afe2a3fdf76int, 0x120e85a06fc2dbb5304145a11d0de8990bcc76de3499f277084294501351a853int, 0x1dc8f7f75ccdb01a61f59e87e6c8cf3c64260f9b53997729a86f1f00bdf20cffint);
    let e = lemma_chain_square(p, g, e, 0x1dc8f7f75ccdb01a61f59e87e6c8cf3c64260f9b53997729a86f1f00bdf20cffint, 0x7a70e00029866c0b28073c37098a853df25dc72099ea5a9d349804c02d4125aint, 0x719cdab20dc63ff7fc7804928cdade71a52f65655cb967a150c1a01b15f0d3a7int);
    let e = lemma_chain_square(p, g, e, 0x719cdab20dc63ff7fc7804928cdade71a52f65655cb967a150c1a01b15f0d3a7int, 0x6f57e558337b5697fb87e3cf3f8594194cd522cb79101a1f8b1e99ee133a8341int, 0x2d7b1742102bdbeae64457bf93184cddeb42554031e7b8cfb528b3d3dae233b0int);
    let e = lemma_chain_square(p, g, e, 0x2d7b1742102bdbeae64457bf93184cddeb42554031e7b8cfb528b3d3dae233b0int, 0x11d7cc9d2036f8b10fefafd5dd8c5a79ea0ba4ea07952ca05481371fa86999faint, 0x62742b9b77c8be3adeb16d48f5014f991fd9fd3b45ba9a4b3b37bee164c5ff06int);
    let e = lemma_chain_square(p, g, e, 0x62742b9b77c8be3adeb16d48f5014f991fd9fd3b45ba9a4b3b37bee164c5ff06int, 0x539d003b9e7980a3a2d321fd0ddf6821832bd6f1280ad624ec385405b6c81bf9int, 0x5e247241eb7fc1c0172cf38ed372419b8e3632915408ac06556640de7680d82bint);
    let e = lemma_chain_multiply(p, g, e, 0x5e247241eb7fc1c0172cf38ed372419b8e3632915408ac06556640de7680d82bint, 0x2df1a6ddbae92333f358b969c6e2acd66ca4943b802750e23c65bfb676e3b17cint, 0x9241a2f5ba54448a98b11ee56e19015bfed1bcadf05d7eb59c79c000976a7fdint);
    let e = lemma_chain_square(p, g, e, 0x9241a2f5ba54448a98b11ee56e19015bfed1bcadf05d7eb59c79c000976a7fdint, 0xb884c21b2667eb818c7bd142e7aa32d034f329621b507558cdc28a6a59f650int, 0x155d41dd771319640df4689edccf8f33bf928205eac04bb2c3f81a94ab1e19b9int);
    let e = lemma_chain_multiply(p, g, e, 0x155d41dd771319640df4689edccf8f33bf928205eac04bb2c3f81a94ab1e19b9int, 0xa6d243531e9c8877131339ee1387d27ec29cd1252f94eed3ecb1674a69d6e35int, 0x4534b59c5c1697dde5052fba5e75d52fdafa9149862f5e3a06714fcc6ba77c9eint);
    let e = lemma_chain_square(p, g, e, 0x4534b59c5c1697dde5052fba5e75d52fdafa9149862f5e3a06714fcc6ba77c9eint, 0x29505e43ca8476f48ecd61bb47f47ad81e0a5df45b6645d0369fd8b4c1a2258eint, 0x657bc4e36668deaee62b6d18d89646a8d7df9b3ab447e16b159bdc69252b4bf6int);
    let e = lemma_chain_square(p, g, e, 0x657bc4e36668deaee62b6d18d89646a8d7df9b3ab447e16b159bdc69252b4bf6int, 0x58d6a5a6ea066645f77b97692c7431a182d9739759a8a93cf8c9c63e1f233d40int, 0x23075217fc5d9d0221d4c2c6bfd6b44cea4403d0b41e45db6bb62215980ad324int);
    let e = lemma_chain_square(p, g, e, 0x23075217fc5d9d0221d4c2c6bfd6b44cea4403d0b41e45db6bb62215980ad324int, 0xa958aad22ec22299ac764f43179f9547c59835e57efd560c8a849c32b64393fint, 0x2a3c3056b8a7c6b5f7c5592fb24c4a45a3bf4c27a725ab52de14fe93c19023d1int);
    let e = lemma_chain_multiply(p, g, e, 0x2a3c3056b8a7c6b5f7c5592fb24c4a45a3bf4c27a725ab52de14fe93c19023d1int, 0x149ca1f119d7f576bb57a4070c93fabc7f799c886180b9c80f72974315bc7803int, 0x6c7fee3a1c5891a145b5c7f217af84913e54889cf6850631a8fc9b5a08d586d8int);
    let e = lemma_chain_square(p, g, e, 0x6c7fee3a1c5891a145b5c7f217af84913e54889cf6850631a8fc9b5a08d586d8int, 0x658c118fe6c38e7a5abd2c7bda69bfa7ab814468ced5d6f22fd770f83e279d57int, 0x61e067b602769e1850e020d801349587c574fc4a0eb7dc6cf4a96c5ec4f38e9int);
    let e = lemma_chain_multiply(p, g, e, 0x61e067b602769e1850e020d801349587c574fc4a0eb7dc6cf4a96c5ec4f38e9int, 0x2fc42f535385bc5823756026c61f48977da7a7aeb3e6ec959633b74dc3a82ccint, 0x625548197890d1c0eba2d129e60e80a1627c68e1b8fa9b42d94bfa4a4387a917int);
    let e = lemma_chain_square(p, g, e, 0x625548197890d1c0eba2d129e60e80a1627c68e1b8fa9b42d94bfa4a4387a917int, 0x53689155ed8a50319015777c950fe31dc77b349d26292e2983e0fb66811417acint, 0x4576c7b40cbe66044c55ec4d2474834215965d18c1f7ce5b212c13f74edd4865int);
    let e = lemma_chain_multiply(p, g, e, 0x4576c7b40cbe66044c55ec4d2474834215965d18c1f7ce5b212c13f74edd4865int, 0x21e676e98d9a1f3002849563875011dc3d7c8e8364255fe45a523aa41eeda38aint, 0x28f5889214d95426688e29a74be56993c9c7c41e02d658af46670b886f0ac72dint);
    let e = lemma_chain_square(p, g, e, 0x28f5889214d95426688e29a74be56993c9c7c41e02d658af46670b886f0ac72dint, 0xe78afd3c58ea4988c89b6ae6999f0ad6dda08a57b750bebec4888417b559d37int, 0x6897f201692d149539b09e6cad4f7b97379762913406d6ec89feebf2b52560b2int);
    let e = lemma_chain_multiply(p, g, e, 0x6897f201692d149539b09e6cad4f7b97379762913406d6ec89feebf2b52560b2int, 0x330b5da0319c67820c5797e8476d24a5d5cd7fb0b7f0eb320f5220e6ff00b164int, 0x5a1a6ea0053040851dd25174875c8a898648f405e4ed16f1dce585220c2b2e02int);
    let e = lemma_chain_square(p, g, e, 0x5a1a6ea0053040851dd25174875c8a898648f405e4ed16f1dce585220c2b2e02int, 0x4607fa1c34caf0593f82598d7b44e4376d281bc39886e4dd330dba32591408e6int, 0x11237bfd0c7fc0b133eff0031719ef0de2068785e02d8f7eff74aed453dcaf1eint);
    let e = lemma_chain_square(p, g, e, 0x11237bfd0c7fc0b133eff0031719ef0de2068785e02d8f7eff74aed453dcaf1eint, 0x288a3065f98a43d886ce81be73e4a7d730bde8949f96b42c85027af6f07b55aint, 0xa088f678ddb7d4f59d87a2c0922dd88bd88fde6a334f6461cef37257852522aint);
    let e = lemma_chain_square(p, g, e, 0xa088f678ddb7d4f59d87a2c0922dd88bd88fde6a334f6461cef37257852522aint, 0xde4e2bd81e81764095daa369542d9eb15715d4c9253de0a6c4c008c3207064int, 0xd11d97b757da1498008ee84eb4e4606ffe3a3e8ef4b7462166ec3ff5a267e80int);
    let e = lemma_chain_multiply(p, g, e, 0xd11d97b757da1498008ee84eb4e4606ffe3a3e8ef4b7462166ec3ff5a267e80int, 0x660dcd3141417209404ae4706b0674495061e6dfe3f3c66c77fcfa5f1391f80int, 0x73eda753299d7d483339d80809a1d80553bda402fffe5bfeffffffff00000000int);
}

/// A power of a power of the root 7 modulo the prime `q`.
proof fn lemma_power_q_6()
    ensures
        pow_mod(0x389379c7961dd831f328b4267269444d480d84df1c5bf46348078d2270ecbeebint, 2, q()) == 0x86fb27a35f67dd3f695a1e882f5bdb7c92d2f844520e02c83a6bcd031849292int,
{
    let p = q();
    let g = 0x389379c7961dd831f328b4267269444d480d84df1c5bf46348078d2270ecbeebint;
    lemma_chain_start(p, g);
    let e: nat = 0;
    let e = lemma_chain_square(p, g, e, 1, 0, 1);
    let e = lemma_chain_multiply(p, g, e, 1, 0, 0x389379c7961dd831f328b4267269444d480d84df1c5bf46348078d2270ecbeebint);
    let e = lemma_chain_square(p, g, e, 0x389379c7961dd831f328b4267269444d480d84df1c5bf46348078d2270ecbeebint, 0x1b9c51319fb4aea015976a4d2e278a55459a4a97d7f616db1659f2c0fe251927int, 0x86fb27a35f67dd3f695a1e882f5bdb7c92d2f844520e02c83a6bcd031849292int);
}

/// A power of a power of the root 7 modulo the prime `q`.
proof fn lemma_power_q_7()
    ensures
        pow_mod(0x2966cc72141c38e4cc63e15a8d2c5a99b1b037a556c16994d5f0135ba46f1aa6int, 0x4c8cf2, q()) == 0x1cba928b731970571e9595239f325fced6538e1240ff7965553667549739ebb9int,
{
    let p = q();
    let g = 0x2966cc72141c38e4cc63e15a8d2c5a99b1b037a556c16994d5f0135ba46f1aa6int;
    lemma_chain_start(p, g);
    let e: nat = 0;
    let e = lemma_chain_square(p, g, e, 1, 0, 1);
    let e = lemma_chain_multiply(p, g, e, 1, 0, 0x2966cc72141c38e4cc63e15a8d2c5a99b1b037a556c16994d5f0135ba46f1aa6int);
    let e = lemma_chain_square(p, g, e, 0x2966cc72141c38e4cc63e15a8d2c5a99b1b037a556c16994d5f0135ba46f1aa6int, 0xec927cb1651bc3886a16fc4db16c4ad7f299d0fa5add40ad42a4e253a1e74d3int, 0x4805e60ae64cbb06260f56b2bc5e863530bf419f27d004be67c4470e949baed1int);
    let e = lemma_chain_square(p, g, e, 0x4805e60ae64cbb06260f56b2bc5e863530bf419f27d004be67c4470e949baed1int, 0x2cbef3c66ecbdc958ab8da54e3408a6b3e3a19a61be31bc58bf2b6ae37f055f4int, 0x4cae01dfca79983f2680bc43b99328198dede689c8d4336b7c490cf0988670adint);
    let e = lemma_chain_square(p, g, e, 0x4cae01dfca79983f2680bc43b99328198dede689c8d4336b7c490cf0988670adint, 0x32b815d956f26f713e2da7aeee4c70e59f45ee22412c9e79f13024bd58fd1958int, 0x212ebac6d4735c5b0eb127db505caba9c03d7a35bc04c87833fa5d623db6bb91int);
    let e = lemma_chain_multiply(p, g, e, 0x212ebac6d4735c5b0eb127db505caba9c03d7a35bc04c87833fa5d623db6bb91int, 0xbd9ba5d35afc5129fbdac84ecaf59b003ed8f81005c657a1f4115a3287b8752int, 0x56ad07e0610efff2c0ea346a7088056aa0a73cd85d882ac995013b96a2edd2b4int);
    let e = lemma_chain_square(p, g, e, 0x56ad07e0610efff2c0ea346a7088056aa0a73cd85d882ac995013b96a2edd2b4int, 0x40ce07033de6edbdf89eaeb996025f420fb0d00c0910d2d89a54c9fb52e3524aint, 0x69fbab7436a912e600f65dcc35acd45d26a708ce3fb584f2db7a46da4bd07c46int);
    let e = lemma_chain_multiply(p, g, e, 0x69fbab7436a912e600f65dcc35acd45d26a708ce3fb584f2db7a46da4bd07c46int, 0x25d98cc2119ab6a92f040d727c0370aa1d36f16626312a873660a594904ffc70int, 0x30d37ded9a05ce99fe8b1ada93d356eb45cb13ca857f1336d39942007fd9b4f4int);
    let e = lemma_chain_square(p, g, e, 0x30d37ded9a05ce99fe8b1ada93d356eb45cb13ca857f1336d39942007fd9b4f4int, 0x149079e133a265db0b09560fd95163a730fbfa884ed4925030b05b753a5c1d53int, 0x2dc305414b373287987dd810443de184af8785d7577e95d90e7b4c8c2333eb3dint);
    let e = lemma_chain_square(p, g, e, 0x2dc305414b373287987dd810443de184af8785d7577e95d90e7b4c8c2333eb3dint, 0x1210698b85011c11f7ddefd03107e649136cd365bbc55014708ef4cd48647689int, 0x2540e70c5d60d157f7bd3475d3ca0756c213266aecf3b1e7e9c0414df8129600int);
    let e = lemma_chain_square(p, g, e, 0x2540e70c5d60d157f7bd3475d3ca0756c213266aecf3b1e7e9c0414df8129600int, 0xbf8ae11087b539da6c540fe22bd0a0bb701fad92e2a3afcb4a13c7cdb0af1b8int, 0xc5a91412454a0bb15bc3f6f3d3995567e3a41b0723927ddc227f53494d90e48int);
    let e = lemma_chain_multiply(p, g, e, 0xc5a91412454a0bb15bc3f6f3d3995567e3a41b0723927ddc227f53494d90e48int, 0x469731b2761debae8262639751783a7c6d526c144d9b485539e667a613b19e6int, 0x232f4fc0cc0c80f2345361c0320f1f19594ec66a444d4a84544c0d7d802f78caint);
    let e = lemma_chain_square(p, g, e, 0x232f4fc0cc0c80f2345361c0320f1f19594ec66a444d4a84544c0d7d802f78caint, 0xaadc33d47d2e2fcdf281a3f4ccde1ab73d1f780c2d5dd2b8c48e37a523e4914int, 0x27dceb62c190d3f96bd73e6ac36df99b940717d3473cb7b24eb5607540ebb650int);
    let e = lemma_chain_square(p, g, e, 0x27dceb62c190d3f96bd73e6ac36df99b940717d3473cb7b24eb5607540ebb650int, 0xdb50ce54cda0423e1df02ac86904630af18bc04943f2922cda799f60ba9065eint, 0x2a3638f71eeafeee9b77c7a4fa83eb1607ef49c1ad292d3efbc8c5b82d0cd2a2int);
    let e = lemma_chain_square(p, g, e, 0x2a3638f71eeafeee9b77c7a4fa83eb1607ef49c1ad292d3efbc8c5b82d0cd2a2int, 0xf5ec29136862f2d182f0ad6c073f62d6553548562aaa44ed8e902b1515f707eint, 0x1df6efe0960b60270132de63b65d072c47afc7c8cd260441c8200d5e0f1ebe06int);
    let e = lemma_chain_square(p, g, e, 0x1df6efe0960b60270132de63b65d072c47afc7c8cd260441c8200d5e0f1ebe06int, 0x7bebf32cbc3d75b0250ba1ac38566ec3aecff9a1492649c0502ffa254e80603int, 0x1b963384692ed007585274f122a6c4f6233783e0e860bcc66c29ccbe758ce221int);
    let e = lemma_chain_multiply(p, g, e, 0x1b963384692ed007585274f122a6c4f6233783e0e860bcc66c29ccbe758ce221int, 0x9da20d55136e203dd6a9f778aae7e89103dd6575f312563d44dc9964c93db58int, 0x521b90f469f14717326f868036e40ab197401b6e1544b73555dc3ae06c0d200eint);
    let e = lemma_chain_square(p, g, e, 0x521b90f469f14717326f868036e40ab197401b6e1544b73555dc3ae06c0d200eint, 0x3a275e53a56dfea7daa3db26bfb796e9d16a17627cd21a50785951a5f9fad48aint, 0x5bbc117dbb646dcbe01f6c79f537c74531e2034e95eca1371ccb071c1b74ac3aint);
    let e = lemma_chain_multiply(p, g, e, 0x5bbc117dbb646dcbe01f6c79f537c74531e2034e95eca1371ccb071c1b74ac3aint, 0x20c2e13483439edec3c8af76564fcea06f668982ab286a516a93d64ce342f220int, 0x719bfa9d992960c7ce46e6f64df00c326ee58f5755c85697fd76bf6099089f7cint);
    let e = lemma_chain_square(p, g, e, 0x719bfa9d992960c7ce46e6f64df00c326ee58f5755c85697fd76bf6099089f7cint, 0x6f562e24a577d863c40b9cf40530bdb8166d95ef1f45399d4f7a11521102835cint, 0x3081a681daf8f399912f4ca5d66b4bd47ab03c9e28672754dfc665f68218c0b4int);
    let e = lemma_chain_square(p, g, e, 0x3081a681daf8f399912f4ca5d66b4bd47ab03c9e28672754dfc665f68218c0b4int, 0x144bc3380dc08a1ac7c8dc308aff6ab0a6280c865e6e741e2e004c09d6d87d43int, 0x40e7777829603acc5739980b35b12dd9d90d6375684e5d582905b944abf6014dint);
    let e = lemma_chain_square(p, g, e, 0x40e7777829603acc5739980b35b12dd9d90d6375684e5d582905b944abf6014dint, 0x2456693a91d1b46b13d3577006a6e086985ad726410ebe12d22d8dcef92a320eint, 0x5de14498ae8a4603aed885829fdffb80fa02fa53d73ea7b63a13314a64d37f1bint);
    let e = lemma_chain_multiply(p, g, e, 0x5de14498ae8a4603aed885829fdffb80fa02fa53d73ea7b63a13314a64d37f1bint, 0x218704056dabe9981d8d9778407d55ccb02fb42aaaa839caa9791d127b1816dbint, 0x307fede6e57627682720d79ee4bb4da058f70beb80291aaa9ed8e2fdc9aa12a7int);
    let e = lemma_chain_square(p, g, e, 0x307fede6e57627682720d79ee4bb4da058f70beb80291aaa9ed8e2fdc9aa12a7int, 0x144a5287d1cfbfce038db41232a0f16d01a7581376f05c31db6fc8da425c18f0int, 0x5249fa7414fdb49515cfce544ff2d07f47c990ba3565491286b08c72c2cbd001int);
    let e = lemma_chain_multiply(p, g, e, 0x5249fa7414fdb49515cfce544ff2d07f47c990ba3565491286b08c72c2cbd001int, 0x1d634e457afa16df957d5d37b90a5ca1898c62981f6df66b0ccc747f08b0f91aint, 0x2ba95350164c16042ead20283d2fa0d47d890e8b44e7315de00349c8cf07018cint);
    let e = lemma_chain_square(p, g, e, 0x2ba95350164c16042ead20283d2fa0d47d890e8b44e7315de00349c8cf07018cint, 0x1071a6ffd3927f85977456855ef8e9cd369f09508fc1bcc7d047086311472c9eint, 0xd1291c48fe11b6ba9da7c339f67449350c41829959ba8666b88bbac6c6337f2int);
    let e = lemma_chain_multiply(p, g, e, 0xd1291c48fe11b6ba9da7c339f67449350c41829959ba8666b88bbac6c6337f2int, 0x4ab2991dd498c1e011d3780643f3659908b6ddb6a2b90a405f39d959482fea4int, 0x4ae923b29855268e92f6677f6a39451993f1f2112983343db2c6fdc1116fdc48int);
    let e = lemma_chain_square(p, g, e, 0x4ae923b29855268e92f6677f6a39451993f1f2112983343db2c6fdc1116fdc48int, 0x3067e7caeae6402680a6d087a1d782910f28c89b785c9ffb6646f1ff5ae956b3int, 0x5169b45f2b78c497b19159c270731d68ebe9c9ad5bfb44763942e565f9127d8dint);
    let e = lemma_chain_multiply(p, g, e, 0x5169b45f2b78c497b19159c270731d68ebe9c9ad5bfb44763942e565f9127d8dint, 0x1d1335f1fb5b5f1139b024da7b171f4cc219405fd37e2061c5b24891717397e5int, 0xa44771735096d3077dd260633aff540bd9ca08c71cff49151495a50b56d2389int);
    let e = lemma_chain_square(p, g, e, 0xa44771735096d3077dd260633aff540bd9ca08c71cff49151495a50b56d2389int, 0xe8cbb11dd47dcaf4bfa77fd337cacd6c8961ac1e06d6cec987b181a5a6b597int, 0x25b4cee102797946e9fe6c477d46b99c1dfd84cc82b417397407107c5bf209baint);
    let e = lemma_chain_square(p, g, e, 0x25b4cee102797946e9fe6c477d46b99c1dfd84cc82b417397407107c5bf209baint, 0xc43a003146727748a97a60117a89b890f5f3f34b303f0c57f6451c3580dc9a8int, 0x6c2cfca349e4332cad31d27f69bed1a2a52d088a638db36e658c1bd547f8d17cint);
    let e = lemma_chain_square(p, g, e, 0x6c2cfca349e4332cad31d27f69bed1a2a52d088a638db36e658c1bd547f8d17cint, 0x64f10afe9ecffcca3d8bd53ed180665d20376d963f92a7b9efbaf3834a1cfad3int, 0x206b924e4fefb046b3d40bebb2e781c65df5d326be3e9d7ca67abdb1098eb93dint);
    let e = lemma_chain_multiply(p, g, e, 0x206b924e4fefb046b3d40bebb2e781c65df5d326be3e9d7ca67abdb1098eb93dint, 0xb9407f3585d14a2515c846b461da7081b9114f8c44c86c66764f702b2b32831int, 0x2d5fd3da3bd89cbe4e70dd83283d37a79a5dc9e1c223f8bcc7b7202f641c275dint);
    let e = lemma_chain_square(p, g, e, 0x2d5fd3da3bd89cbe4e70dd83283d37a79a5dc9e1c223f8bcc7b7202f641c275dint, 0x11c26eb9f07cf964c9fe80de5959cc3b011b411914b1f53d2e3edabab32b8c10int, 0x1cba928b731970571e9595239f325fced6538e1240ff7965553667549739ebb9int);
}

/// A power of a power of the root 7 modulo the prime `q`.
proof fn lemma_power_q_8()
    ensures
        pow_mod(0x25f2d9263c0f76ac67d580b0425ff883d13b53a5325ee1dfbd3ced86ae920680int, 0xbe32f2072, q()) == 0x10ebf44e61093cb5fe8f1a0a3375bfaddc3f2ab7b883726a36e705a1eea2298aint,
{
    let p = q();
    let g = 0x25f2d9263c0f76ac67d580b0425ff883d13b53a5325ee1dfbd3ced86ae920680int;
    lemma_chain_start(p, g);
    let e: nat = 0;
    let e = lemma_chain_square(p, g, e, 1, 0, 1);
    let e = lemma_chain_multiply(p, g, e, 1, 0, 0x25f2d9263c0f76ac67d580b0425ff883d13b53a5325ee1dfbd3ced86ae920680int);
    let e = lemma_chain_square(p, g, e, 0x25f2d9263c0f76ac67d580b0425ff883d13b53a5325ee1dfbd3ced86ae920680int, 0xc6c1ccacd54ff4f030ec5890a50086c3d1eb5f11670b52f37b4a2d3d168d8d8int, 0x2d68b450c4656108b45d1f5ab8310ffac5a96e9a9f8b919e3da6d82598c16728int);
    let e = lemma_chain_square(p, g, e, 0x2d68b450c4656108b45d1f5ab8310ffac5a96e9a9f8b919e3da6d82598c16728int, 0x11c9624a0653e1c0aa5f1849db90b34144d4eb96303672ed85f9662225dec131int, 0x371c9da17374e9e1604220d707a3b26e49bf3d843daa7b0c58e6e93b0e02750fint);
    let e = lemma_chain_multiply(p, g, e, 0x371c9da17374e9e1604220d707a3b26e49bf3d843daa7b0c58e6e93b0e02750fint, 0x120a648c7ac7967e1039c1f997fa32f68e5740980e5c33ec3c81839da3c5399fint, 0x1cdb26d04055c30311a6943b1b06df2bdc779d75a28bdcbb898f87ad60c1a7e1int);
    let e = lemma_chain_square(p, g, e, 0x1cdb26d04055c30311a6943b1b06df2bdc779d75a28bdcbb898f87ad60c1a7e1int, 0x72ec1ed562a2b4e0a89806fdf444d58b9a25cfb72ac553f68710c91c6f16269int, 0x53b5f0f60f3876e9e90a0a27a4df00a16b5a81b6752007f1e73c5a588867f158int);
    let e = lemma_chain_multiply(p, g, e, 0x53b5f0f60f3876e9e90a0a27a4df00a16b5a81b6752007f1e73c5a588867f158int, 0x1b66ff066c104b5a23e1557ed0503b58b7cd41e45337cefdecc42b06dd73c2b8int, 0x1b84b4d270869e256b4f5f190c03683b6dfa5f81147412c5d5a614893a5cf948int);
    let e = lemma_chain_square(p, g, e, 0x1b84b4d270869e256b4f5f190c03683b6dfa5f81147412c5d5a614893a5cf948int, 0x6883b17bc974ecec37b63b4986df7744dd93ceeb7fb378adfc9be20d6ea9213int, 0x119359b2ccbe9a0e442fc46090208e846a1d7e35e4822f8c1c4525bae792922dint);
    let e = lemma_chain_multiply(p, g, e, 0x119359b2ccbe9a0e442fc46090208e846a1d7e35e4822f8c1c4525bae792922dint, 0x5c0d7a69e9d5c7cf8f3973f41640b6c1ba830ca34e6d3ff33e45f629f90c19eint, 0x3b8437fde63b733437a68f76c35ee1693d5c60ae6a1bd97e1eb77e9c8ccf62e2int);
    let e = lemma_chain_square(p, g, e, 0x3b8437fde63b733437a68f76c35ee1693d5c60ae6a1bd97e1eb77e9c8ccf62e2int, 0x1e8e2062640b3cbc7970a0bf64744fd7bfff83639549dcf3d507e87a7a7047a6int, 0x24a72e049d07002e7c11afeb2fe41784f810eed8189f8ba90c0ed6c3c53d87deint);
    let e = lemma_chain_multiply(p, g, e, 0x24a72e049d07002e7c11afeb2fe41784f810eed8189f8ba90c0ed6c3c53d87deint, 0xbff8ad1c823ecbdcef7931963fabe739e4a269998c935bac4b1fce33c337e8dint, 0x970672aab3e7d53f67ea400423f2656d8a688768d02232356b16dd0345ba473int);
    let e = lemma_chain_square(p, g, e, 0x970672aab3e7d53f67ea400423f2656d8a688768d02232356b16dd0345ba473int, 0xc4bf5a9180a3453b442087d3938a4325d3ae5405710bda7902b206d4bbffa2int, 0x6264817b08840490114f6871164794c2f54fb24543b6c6623069d21836a98c07int);
    let e = lemma_chain_multiply(p, g, e, 0x6264817b08840490114f6871164794c2f54fb24543b6c6623069d21836a98c07int, 0x2035587a3537e331a94caa74cf4d2bd97ef64e374fa867454d5b478484f5448eint, 0x64965c1352e9aad9bfa077b519c8361db116d7b7c353a4acbe6bcaf56716e8f2int);
    let e = lemma_chain_square(p, g, e, 0x64965c1352e9aad9bfa077b519c8361db116d7b7c353a4acbe6bcaf56716e8f2int, 0x5746c56a81293d920ee9fafc7a40637f4e6f78bb91deb20dc319071056b8199eint, 0x135d034f24c34b5b1bfdd5362f964d78a3c2405bb371cad28e64b4142d76b26int);
    let e = lemma_chain_square(p, g, e, 0x135d034f24c34b5b1bfdd5362f964d78a3c2405bb371cad28e64b4142d76b26int, 0x33bf656a96ca59c79d5c30d6d79b113d7364a431a97d8dda8d35d90f0d4fcint, 0x33899ef3861a29a42be7e5565af1ba05dab0d9dc021e5c3a5730776f2dbbf4a8int);
    let e = lemma_chain_square(p, g, e, 0x33899ef3861a29a42be7e5565af1ba05dab0d9dc021e5c3a5730776f2dbbf4a8int, 0x16e9692fc2dd191ee4c17c656aa6d51daa551d15d07f39693ae47dc60e86eb09int, 0x33f0fa31bb9fd4a01514fcaf548dc1e12bb2ff0e2d6a0319314064f558b9c337int);
    let e = lemma_chain_square(p, g, e, 0x33f0fa31bb9fd4a01514fcaf548dc1e12bb2ff0e2d6a0319314064f558b9c337int, 0x1745aaff0c37c115610980c5439c59a8a69c208c4cbab4d12e535dda7e59ea78int, 0x2bdaab1478bad9fa6347b91d03cb0c174310ad56217af0500c5968e50c00eb59int);
    let e = lemma_chain_multiply(p, g, e, 0x2bdaab1478bad9fa6347b91d03cb0c174310ad56217af0500c5968e50c00eb59int, 0xe5b000372b4287b795e387beb1b1b7f4d1dd3a240a4aec93ae4cb76ed2bd01aint, 0x230ce2f8734c66d876cb5fc9097ba50b3e1fa030dac51ae17872e383cf8ff266int);
    let e = lemma_chain_square(p, g, e, 0x230ce2f8734c66d876cb5fc9097ba50b3e1fa030dac51ae17872e383cf8ff266int, 0xa98e8047afe6c4414bca7f6300bf06a13e3c681e66f64043aef546a91aee396int, 0x124e1bb0f2c2fb6a76df9694738fa7aa1e46a585b30090b33714a28115ca1d0eint);
    let e = lemma_chain_multiply(p, g, e, 0x124e1bb0f2c2fb6a76df9694738fa7aa1e46a585b30090b33714a28115ca1d0eint, 0x5fdfa0a3511b92a1eb9bcba1fc594365298327a41b73080e8695f74c9c14b63int, 0x23fd10456d8084d7cf4f62ce96097e29fae79529c1c66436fbdf2b53edf78f9dint);
    let e = lemma_chain_square(p, g, e, 0x23fd10456d8084d7cf4f62ce96097e29fae79529c1c66436fbdf2b53edf78f9dint, 0xb2c15240afd74d21fb2b0ee79664db0d397011efea0559d5feb59ab7a9cf555int, 0x1a950b0ab61ad0caef19034040219d595c910df0241801fe8231c8c6a8e9d0f4int);
    let e = lemma_chain_square(p, g, e, 0x1a950b0ab61ad0caef19034040219d595c910df0241801fe8231c8c6a8e9d0f4int, 0x61862f60a76ea4b0c50d2a4cae906ffd275182bd0817d7b0afadf114cf6e546int, 0x22e666a9e0311ec59629b7cf235f4f60a5e8b010a604cedd1f043772f9be834aint);
    let e = lemma_chain_square(p, g, e, 0x22e666a9e0311ec59629b7cf235f4f60a5e8b010a604cedd1f043772f9be834aint, 0xa81af346982e10a51a6d8a06db20d347598516d42326306e76ee68018cbb2aaint, 0x58c14e44be42958e75feeaa5a29365b19010f6336fc7709a7567af3f00611ebaint);
    let e = lemma_chain_multiply(p, g, e, 0x58c14e44be42958e75feeaa5a29365b19010f6336fc7709a7567af3f00611ebaint, 0x1d0db7f7d74c66e51641835a3c8ea85eeda093af43cb1753ac836d5f1a561457int, 0x3f4bb963937e6ecc0f2975767f2e6cb50ce7daccd5229768f5d6421c4f05a4a9int);
    let e = lemma_chain_square(p, g, e, 0x3f4bb963937e6ecc0f2975767f2e6cb50ce7daccd5229768f5d6421c4f05a4a9int, 0x228f155ae11a9415dc9b7c430fec272daf6aaded4e154fe6837b33b832ce4119int, 0x6ad671b08a6ccc2430505469f1ada60e0403ceaf6661d6b5be66b218f3b4b678int);
    let e = lemma_chain_square(p, g, e, 0x6ad671b08a6ccc2430505469f1ada60e0403ceaf6661d6b5be66b218f3b4b678int, 0x6275b9bed647fc9504ff27f2ccdd8f1ecb3f0b684376f4bc1478bf4672dc2750int, 0x24a81e05fb3698a6d170bb8b97bc43d8b1e9f7cf8b70ffbbcda5108277f2b0f0int);
    let e = lemma_chain_multiply(p, g, e, 0x24a81e05fb3698a6d170bb8b97bc43d8b1e9f7cf8b70ffbbcda5108277f2b0f0int, 0xbffd962574b07c96e939e443c45ae9cedc06454fec5e619856733a65d2e1a10int, 0x3c00cc3dec7daea2da85141e02e757fe57855466abce2d9abfb860c1552ffdf0int);
    let e = lemma_chain_square(p, g, e, 0x3c00cc3dec7daea2da85141e02e757fe57855466abce2d9abfb860c1552ffdf0int, 0x1f0e909a0d8ab4e6adad59757f942916e05c4e0363e32cb58b0cc8b64846ea16int, 0x20ede4f9e6c78cc3863cec91b50354433379f72f2a5a26a57363ece051bd56eaint);
    let e = lemma_chain_multiply(p, g, e, 0x20ede4f9e6c78cc3863cec91b50354433379f72f2a5a26a57363ece051bd56eaint, 0xac77d113081d032137260bd066374519437f7572c139df0b4935d20fe0422c9int, 0x6fe03861b3400554efde62c96f621ab1539ab0ab5d1e8ddd15dbe745ee24ce37int);
    let e = lemma_chain_square(p, g, e, 0x6fe03861b3400554efde62c96f621ab1539ab0ab5d1e8ddd15dbe745ee24ce37int, 0x6bf70d58b51b446addb27002dd0c70878bd5285147f06b25d5f92b9fc05b0221int, 0x4b29b46421a0972c62c75797f08cf7df0e772f7d9b214b3f6c02b6e029398db0int);
    let e = lemma_chain_multiply(p, g, e, 0x4b29b46421a0972c62c75797f08cf7df0e772f7d9b214b3f6c02b6e029398db0int, 0x189aafc835993ddafc0c1ede3d8e82eea556a63c7c6f7882984acea60a5af73dint, 0x22381c7e86a582fbca952600458aa92867765b5a0ed1725f2d1d94e35a1e00c3int);
    let e = lemma_chain_square(p, g, e, 0x22381c7e86a582fbca952600458aa92867765b5a0ed1725f2d1d94e35a1e00c3int, 0xa19c4ce922ff9b49c60ae1c984729e6312062f8303721c9c6c5824ffd64e14eint, 0x534373d4826f21792243caa7c22cabefbb8adfe242b817ba929d4cdd4c4fb33bint);
    let e = lemma_chain_multiply(p, g, e, 0x534373d4826f21792243caa7c22cabefbb8adfe242b817ba929d4cdd4c4fb33bint, 0x1b4184cfa25c45905f4d12d434d27a3719fcd09fb11d7322c04aad02d0028a3dint, 0x3db298c1e8259b57528365d532fa93c305d4fb08adf66dab99b89cd287b07543int);
    let e = lemma_chain_square(p, g, e, 0x3db298c1e8259b57528365d532fa93c305d4fb08adf66dab99b89cd287b07543int, 0x20d5f6c2c94b0293994c97defcb23ca164a7ce6509958f79d365efbc887493afint, 0x5bbd732178f4b6336fd6363de3b8b5e7dce51ed47dd101c84fb4432c9361bbdaint);
    let e = lemma_chain_square(p, g, e, 0x5bbd732178f4b6336fd6363de3b8b5e7dce51ed47dd101c84fb4432c9361bbdaint, 0x48993dbba6527c404f2f567973fbfdef15bbce8aa1e3598be64fc78d746e3067int, 0x2a23fda368fe28722b0899c25c7f3084482437a735aac3516b747ad5cc9e053dint);
    let e = lemma_chain_square(p, g, e, 0x2a23fda368fe28722b0899c25c7f3084482437a735aac3516b747ad5cc9e053dint, 0xf517e8073edf3510f89c52acc8426b7304b43147db3e2e0529fa6426878dc71int, 0x39c9c975dbbe7f5c71f7ad0aed117e7f73ef80743bca439792a04b9446ee9418int);
    let e = lemma_chain_multiply(p, g, e, 0x39c9c975dbbe7f5c71f7ad0aed117e7f73ef80743bca439792a04b9446ee9418int, 0x12eaae36d56ed21e5ed3f6bc8843af077cfb8e4221ec646246a88533b526f975int, 0x39a0db1ddcbf1add3e56b556716a5c0c751448ecdfc3abb9d0cc11571f4ba28bint);
    let e = lemma_chain_square(p, g, e, 0x39a0db1ddcbf1add3e56b556716a5c0c751448ecdfc3abb9d0cc11571f4ba28bint, 0x1ca5b10a4f9c2aac5b59779f92b7eed937110dfc9dc8ac1a2efcaf2fbc9ee43aint, 0x194004cc5c4745d543a10e2c6e0a7a10ce7bcf57435c26b0cffc8d3a9207533fint);
    let e = lemma_chain_square(p, g, e, 0x194004cc5c4745d543a10e2c6e0a7a10ce7bcf57435c26b0cffc8d3a9207533fint, 0x57fe996ff74d3756c677d78d867563a650c0fb83581c439f585e6a16825a009int, 0x627d0cd48ee39181a44c8344adbd993e549800fcba2a9a5ec8f9331d1c5e4978int);
    let e = lemma_chain_square(p, g, e, 0x627d0cd48ee39181a44c8344adbd993e549800fcba2a9a5ec8f9331d1c5e4978int, 0x53ac160c1112fb49847ddf578e34498a66453a84b9e19b9d81a89f178301da28int, 0x42242a83ac68b75800be1261b0f727c8ab263c8e0addf0956e90730cc633ce18int);
    let e = lemma_chain_square(p, g, e, 0x42242a83ac68b75800be1261b0f727c8ab263c8e0addf0956e90730cc633ce18int, 0x25bc687ed3e702ee4fd36782c103621ac59f3e3281792cf911fbf889eeaac56aint, 0x167bb135d6e82b7f89f4d3b78e753d1daa3a73aed7a25b051127dc68f4cfdcd6int);
    let e = lemma_chain_square(p, g, e, 0x167bb135d6e82b7f89f4d3b78e753d1daa3a73aed7a25b051127dc68f4cfdcd6int, 0x45c42b15d86c4c72480bc9ab3e3ed29641916c34e2ea38c5d685b5752897a6fint, 0x4cf55026dac6b6cfdb4b4e335464b8b229bd9ec80edad50cc0e542b67e0b0875int);
    let e = lemma_chain_square(p, g, e, 0x4cf55026dac6b6cfdb4b4e335464b8b229bd9ec80edad50cc0e542b67e0b0875int, 0x331695f39a793b612b0f43ab1cb96cd7d335a72c0e24ea5d485d3de347279b4fint, 0x203bc41db73b16a2846357eaee76b7d8446f16a8057daf4ec63794949f2dea2aint);
    let e = lemma_chain_square(p, g, e, 0x203bc41db73b16a2846357eaee76b7d8446f16a8057daf4ec63794949f2dea2aint, 0x8f65fcd0048d5ba499cc0b82e1f714fff773b1854c9423993de950babc9febfint, 0x5e9b115bee82f01d3108fba0f6008ecd23e9f8fc7c48657234c8cb5fa92ad025int);
    let e = lemma_chain_multiply(p, g, e, 0x5e9b115bee82f01d3108fba0f6008ecd23e9f8fc7c48657234c8cb5fa92ad025int, 0x1ef8012005875ec39b1e6ea964f0a85fa60745e718102e76cc4e91997fcc830dint, 0x582790fd63d09c41799c037a64e19482cc89412981264fe416f8a780f1966d73int);
    let e = lemma_chain_square(p, g, e, 0x582790fd63d09c41799c037a64e19482cc89412981264fe416f8a780f1966d73int, 0x4308e4b999e431cc04d89fc13cab8b616ce2655348a7aeae5dfe9024fda338ccint, 0x4a88d187fc165384ce18705f0c335f43874e98208cc023832faab81df9ebe8ddint);
    let e = lemma_chain_multiply(p, g, e, 0x4a88d187fc165384ce18705f0c335f43874e98208cc023832faab81df9ebe8ddint, 0x1866057239f9b09843f8dfa1913c899331f09aca7b3c1c2c2b971d8ca45e9151int, 0x60dcd7014edcd37407ffc62a7ee754ee1fae05fec6ea77b1a447941bdd150b2fint);
    let e = lemma_chain_square(p, g, e, 0x60dcd7014edcd37407ffc62a7ee754ee1fae05fec6ea77b1a447941bdd150b2fint, 0x50eebaaa0dd3aa7bbff4cbf0e8c4dd22b132bf8cb2ea648b1a78d881d131ecfaint, 0x51ecaf9eb585c4ea667098fc5dbb88de0888c8a9bf5d8497d9171f6c2b0125a7int);
    let e = lemma_chain_multiply(p, g, e, 0x51ecaf9eb585c4ea667098fc5dbb88de0888c8a9bf5d8497d9171f6c2b0125a7int, 0x1ad150d2e3b97f71ee117a0133034c844d7515d60dae244dff20a63030c634ddint, 0x3b2e4c273d20f073f413a1d762542db8081626a31adc34669766c6d51ec88a3int);
    let e = lemma_chain_square(p, g, e, 0x3b2e4c273d20f073f413a1d762542db8081626a31adc34669766c6d51ec88a3int, 0x1e36272a9cdb4647f7e23491b68406febdb307455a7b8b96a1d349ba4fc7e0int, 0x3922574eb2cf67197221e5c13cd847212bce2524f73ba4b440df6067a125cfe9int);
    let e = lemma_chain_square(p, g, e, 0x3922574eb2cf67197221e5c13cd847212bce2524f73ba4b440df6067a125cfe9int, 0x1c2872f152dab20b02dffc5a465ee4c2aded9116343dccf2263767a27590a102int, 0x3da384a19fdd87be5031b712c01c4c430ec4ded31c11f5fe7513dbf65ea4010fint);
    let e = lemma_chain_square(p, g, e, 0x3da384a19fdd87be5031b712c01c4c430ec4ded31c11f5fe7513dbf65ea4010fint, 0x20c5ebf70c6b4dcb2d883b753cf852ea55592ea97791fca3b36465bb8f971905int, 0x438400bf501ce5d81cf58e3da33b7fe45894d79b69ffee375a6b3ff5cfa205dcint);
    let e = lemma_chain_multiply(p, g, e, 0x438400bf501ce5d81cf58e3da33b7fe45894d79b69ffee375a6b3ff5cfa205dcint, 0x1619d777cf22ed3f11c048fbe318d02858d6631ecefcc8974df404731bd3099aint, 0x6d2ef0dbae918a1e06cd25ddcef6b360e5f367eacb7096b98e1b0a7760cb0c66int);
    let e = lemma_chain_square(p, g, e, 0x6d2ef0dbae918a1e06cd25ddcef6b360e5f367eacb7096b98e1b0a7760cb0c66int, 0x66d4b12f7a6fca3ee44eab395dbc3e8d5b62696d1cea6291c8aef2a53bbb8f1aint, 0x10ebf44e61093cb5fe8f1a0a3375bfaddc3f2ab7b883726a36e705a1eea2298aint);
}

/// A power of a power of the root 7 modulo the prime `q`.
proof fn lemma_power_q_9()
    ensures
        pow_mod(0x10ebf44e61093cb5fe8f1a0a3375bfaddc3f2ab7b883726a36e705a1eea2298aint, 0xd1c83, q()) == 0x2ae4c2a421633ef4b13677eed229a526b9f0dc6b1f40ca7d12981c7e5dfbf239int,
{
    let p = q();
    let g = 0x10ebf44e61093cb5fe8f1a0a3375bfaddc3f2ab7b883726a36e705a1eea2298aint;
    lemma_chain_start(p, g);
    let e: nat = 0;
    let e = lemma_chain_square(p, g, e, 1, 0, 1);
    let e = lemma_chain_multiply(p, g, e, 1, 0, 0x10ebf44e61093cb5fe8f1a0a3375bfaddc3f2ab7b883726a36e705a1eea2298aint);
    let e = lemma_chain_square(p, g, e, 0x10ebf44e61093cb5fe8f1a0a3375bfaddc3f2ab7b883726a36e705a1eea2298aint, 0x2785263716e072eba7234c20d350baed674247568f38b012224bae0d3b388c1int, 0x675a29cf12797375212337f06341bbecc14ce8f282cf76d63ca45d695db1f5a3int);
    let e = lemma_chain_multiply(p, g, e, 0x675a29cf12797375212337f06341bbecc14ce8f282cf76d63ca45d695db1f5a3int, 0xf1603f066711625729cec2290046b41eb75c60bf5e5f72de84548a80134353bint, 0x152e539fff42c155aa23678345c90b3365eddaf17b3e0fbe9d148edefc374fa3int);
    let e = lemma_chain_square(p, g, e, 0x152e539fff42c155aa23678345c90b3365eddaf17b3e0fbe9d148edefc374fa3int, 0x3deb2fbf01d2bfe87ac094645e6a6f1502e5607d300cbee1f342897d6b0a586int, 0x350b06e614ee1bc4e06134bb5c27365f742d3dce28c68c7ddbb8605e621f5c43int);
    let e = lemma_chain_square(p, g, e, 0x350b06e614ee1bc4e06134bb5c27365f742d3dce28c68c7ddbb8605e621f5c43int, 0x184517628527c426757f90b601709d5017c3a65c1d6c174a5f7d32cee924f33dint, 0x1282c158bc391b4432f1a56f119cc6c96e87cdcb949258285cdc81cdc55464cint);
    let e = lemma_chain_multiply(p, g, e, 0x1282c158bc391b4432f1a56f119cc6c96e87cdcb949258285cdc81cdc55464cint, 0x2b3b387d307a1f8660fd0be0f8137764c326974b76c45bf4567cabea61e878int, 0x36396d948f82f64a1efd68ba4ccbfbe2c8d388a836dc88835b551c1a7f02880int);
    let e = lemma_chain_square(p, g, e, 0x36396d948f82f64a1efd68ba4ccbfbe2c8d388a836dc88835b551c1a7f02880int, 0x195ce676fd772619e2ea1e8124814f864871c0b60b027d504bd9a43e4362c1int, 0x4dffb66db8f41c65986c37b532c1228489ab92aa7778ef0ad2e0d03fb824dd3fint);
    let e = lemma_chain_square(p, g, e, 0x4dffb66db8f41c65986c37b532c1228489ab92aa7778ef0ad2e0d03fb824dd3fint, 0x347aac131338dda284df8b60d90d631b02948f160121c2933edf64ed3b624565int, 0x2f9211d72d4fe5f5b82a3418d9bc9a1f205cbf798b0cdd4194e328d34d8b901cint);
    let e = lemma_chain_square(p, g, e, 0x2f9211d72d4fe5f5b82a3418d9bc9a1f205cbf798b0cdd4194e328d34d8b901cint, 0x138535048c98cf26d2519ee2f3ef537e0f31339226e68cf854ab53d56d20f70fint, 0x5283558c0f0dd66130b2cd9e398571e36cbb291ab1717aea92b332283a668c01int);
    let e = lemma_chain_square(p, g, e, 0x5283558c0f0dd66130b2cd9e398571e36cbb291ab1717aea92b332283a668c01int, 0x3abab89d24e55488a11835b2325e81bbae0749ebfa97bf80761d39d14b0033b4int, 0x66be5dbfff79a8d399a01ab5d75b04747a642d84a7d644141e57beb7065ce44dint);
    let e = lemma_chain_multiply(p, g, e, 0x66be5dbfff79a8d399a01ab5d75b04747a642d84a7d644141e57beb7065ce44dint, 0xeff46300b3e1fb9fb0370083d1ad884f2213f9c02d95abfaf01f16b7f2b716cint, 0xb24a2860ed207d7c9cca0fb393df5935a1c8223aeb096b8211a1723de31f516int);
    let e = lemma_chain_square(p, g, e, 0xb24a2860ed207d7c9cca0fb393df5935a1c8223aeb096b8211a1723de31f516int, 0x11232731c0fef701e01a0ca5cf5f1fec26ada8f541a552d0cd5fd78f85d5959int, 0x468b475c4200f9ca178037e82fc8e337dfdb1f5a59e978ddc8d02b5ecb1c48bint);
    let e = lemma_chain_multiply(p, g, e, 0x468b475c4200f9ca178037e82fc8e337dfdb1f5a59e978ddc8d02b5ecb1c48bint, 0xa4c0e7460d7a3f47d72e9526f27aa47cc9375c1a5ef4b4b8bfa8092ffefa94int, 0x67a1bc1a5b482b2a8bccdbcf80350889cd7d694188232fe9c9ef4b277a453b5aint);
    let e = lemma_chain_square(p, g, e, 0x67a1bc1a5b482b2a8bccdbcf80350889cd7d694188232fe9c9ef4b277a453b5aint, 0x5ca3b77df37b2d8c29d5098106a5b7a868f92c561d5dde5369df293ce09cb103int, 0x12856cb3461e8e746e8144ccdb69333d1f62a2d77fbb29f3a90e687cf3a9eaa1int);
    let e = lemma_chain_multiply(p, g, e, 0x12856cb3461e8e746e8144ccdb69333d1f62a2d77fbb29f3a90e687cf3a9eaa1int, 0x2b417470e51fb55d91ddb90f71c83437dfb502201a06b22f24bad9450b1adb1int, 0x717bea2384202674e55f48c287fe83e16e4367783fc60da355393467675c9619int);
    let e = lemma_chain_square(p, g, e, 0x717bea2384202674e55f48c287fe83e16e4367783fc60da355393467675c9619int, 0x6f175e76ddbee454281cc52d7a9799a7add1a3958a8c570642ff0863c6e010aeint, 0x37b3269fda7a8302324b50c41b3770b9cbc0545ca9eb968ae8399aac91193dc3int);
    let e = lemma_chain_square(p, g, e, 0x37b3269fda7a8302324b50c41b3770b9cbc0545ca9eb968ae8399aac91193dc3int, 0x1ac30f581ae535000ba81b0d74a2c04f2997136cab44b9700ec9169a165a93f9int, 0x2394b25db4e419e167ec23a1d1be885c7972cecef786ff73a2deb1daeea1ee90int);
    let e = lemma_chain_square(p, g, e, 0x2394b25db4e419e167ec23a1d1be885c7972cecef786ff73a2deb1daeea1ee90int, 0xaeba69b723aa2569784897abec73a17b6dc4b78a24f48fe8543c98d5e3c5a7fint, 0x4c8f35c3baf8e73709be20fd2af86646326fd2bbec73b86d10d77c335133b681int);
    let e = lemma_chain_multiply(p, g, e, 0x4c8f35c3baf8e73709be20fd2af86646326fd2bbec73b86d10d77c335133b681int, 0xb2cd5ddd5bfcd3dd3e6a54fe6d4fb8470e78fa8efc4a4ea11d25c210022a102int, 0x3eb5507209d1f92cb6386e6c5010b9af35bdb8438102cef9cbd23312799a6988int);
    let e = lemma_chain_square(p, g, e, 0x3eb5507209d1f92cb6386e6c5010b9af35bdb8438102cef9cbd23312799a6988int, 0x21eb99d13408ca61028734bad0dba575a7838a342b8221318b1f7f34e579bb74int, 0x1343f48a7fc78e300c447798a22e2046a637bd82e454568307009844cda71cccint);
    let e = lemma_chain_square(p, g, e, 0x1343f48a7fc78e300c447798a22e2046a637bd82e454568307009844cda71cccint, 0x3339cdb609360168be8e3693f8c102947ded660e5bc040265f750f024dc13d4int, 0x731752da08121a0b4bc88127859722ad944ca09fd9b0a3d13f13607928892ebcint);
    let e = lemma_chain_square(p, g, e, 0x731752da08121a0b4bc88127859722ad944ca09fd9b0a3d13f13607928892ebcint, 0x72428aa28600508edb6decf34a7ddd03b7dfa9102c348ac65a0435344ada66e3int, 0x138c1e1cf4c9a537d27a6fad6ef7ce36185ef6d8bdc2d564a3e4878482e5b32dint);
    let e = lemma_chain_square(p, g, e, 0x138c1e1cf4c9a537d27a6fad6ef7ce36185ef6d8bdc2d564a3e4878482e5b32dint, 0x34bc5ce2fea6cb0aff0c23552a9d89f8c4598a8fca94d8e135497a195cf2e3fint, 0x7023ffe7fe58f3f8513f81845e480c766808182280a163727b6aeb192a1ac7aaint);
    let e = lemma_chain_square(p, g, e, 0x7023ffe7fe58f3f8513f81845e480c766808182280a163727b6aeb192a1ac7aaint, 0x6c7a06eb574cd438191268e8aaf1da9f0399d44901948c8a33979a6f6617ff4fint, 0x41e55cb0d209f4e8eb52daa8ca86bf88c644e6500847c86d52024c648c29bd95int);
    let e = lemma_chain_square(p, g, e, 0x41e55cb0d209f4e8eb52daa8ca86bf88c644e6500847c86d52024c648c29bd95int, 0x2574e091abe8f33d3686c0c4b7426ac0c4e21bcf238fbffe842f99470ae37856int, 0x6e1bb4c71f6d78c5a4e7f93de439d6cb651c80085b83735186f221a0333be063int);
    let e = lemma_chain_multiply(p, g, e, 0x6e1bb4c71f6d78c5a4e7f93de439d6cb651c80085b83735186f221a0333be063int, 0x101278aa5dee1ea88238e78dc5eb5d455b09d5ab7cf93ac07b8111b3dc5bb32eint, 0x11697d1f53665c5bbd109fadf5ba3001dfdc92a60ae7dd47dd248dcd61811d30int);
    let e = lemma_chain_square(p, g, e, 0x11697d1f53665c5bbd109fadf5ba3001dfdc92a60ae7dd47dd248dcd61811d30int, 0x29d80256b4cc5edeb59610cd01743192926eb1dd1f420c27a450d864235f958int, 0x349f46f0089924e9b605a3d4f5e133b97290479fb0e6919e6583a3ee8b7defa8int);
    let e = lemma_chain_multiply(p, g, e, 0x349f46f0089924e9b605a3d4f5e133b97290479fb0e6919e6583a3ee8b7defa8int, 0x7ae5c3665ad8398f2cfaca975e1ca6f975bf931854ec9a2f655f7eed7992657int, 0x2ae4c2a421633ef4b13677eed229a526b9f0dc6b1f40ca7d12981c7e5dfbf239int);
}

/// A power of a power of the root 7 modulo the prime `q`.
proof fn lemma_power_q_10()
    ensures
        pow_mod(0x2ae4c2a421633ef4b13677eed229a526b9f0dc6b1f40ca7d12981c7e5dfbf239int, 0x320238b, q()) == 0x32e3ee16442ae00d0ade6607de0a05957900e657e09c952e618a16c99985bcdaint,
{
    let p = q();
    let g = 0x2ae4c2a421633ef4b13677eed229a526b9f0dc6b1f40ca7d12981c7e5dfbf239int;
    lemma_chain_start(p, g);
    let e: nat = 0;
    let e = lemma_chain_square(p, g, e, 1, 0, 1);
    let e = lemma_chain_multiply(p, g, e, 1, 0, 0x2ae4c2a421633ef4b13677eed229a526b9f0dc6b1f40ca7d12981c7e5dfbf239int);
    let e = lemma_chain_square(p, g, e, 0x2ae4c2a421633ef4b13677eed229a526b9f0dc6b1f40ca7d12981c7e5dfbf239int, 0xfdee4509b956072099c903c4ffb3029ad1406f6734db458973ca6c8397d7f7bint, 0x68f71b87089052c326ea27b41a4bc6b104c1fc712dd1a9c40d70c6c111785136int);
    let e = lemma_chain_multiply(p, g, e, 0x68f71b87089052c326ea27b41a4bc6b104c1fc712dd1a9c40d70c6c111785136int, 0x26d655e8180fb9797e673b8e6acf5e5a264f177bd0ffa0c78eadbe6ecf55120dint, 0x36e2d34fb525b3a23afcda08a408a1b9692d69ed0955d44aa374ce2b0f2c0ef9int);
    let e = lemma_chain_square(p, g, e, 0x36e2d34fb525b3a23afcda08a408a1b9692d69ed0955d44aa374ce2b0f2c0ef9int, 0x19fc55c600a0e54f94df33a83a3e1a36c3cc9a48d183cc7bc5af0bb3cc4d7273int, 0x716be4a6223f098ce9c1c3b55c6a9bc46e3d2f2543d9c46b0125bbb882abbbeint);
    let e = lemma_chain_square(p, g, e, 0x716be4a6223f098ce9c1c3b55c6a9bc46e3d2f2543d9c46b0125bbb882abbbeint, 0x6ef802a7a268c5b6f2e503187edd887ec83cdb08e45eb16686f758c1d0ab5bint, 0x5271dbaa81081e2bd672ed31b7ace727bb76fbd80fc790409a567e32423675a9int);
    let e = lemma_chain_square(p, g, e, 0x5271dbaa81081e2bd672ed31b7ace727bb76fbd80fc790409a567e32423675a9int, 0x3aa1da99570ce3fe87c8deaa7afa74b3c27bec9cb5ddc732c21a767c2ad09e7eint, 0x2f66475b27473c71f005f50111b0b63ded748a27150e7f79547a9a46d28f4b13int);
    let e = lemma_chain_multiply(p, g, e, 0x2f66475b27473c71f005f50111b0b63ded748a27150e7f79547a9a46d28f4b13int, 0x1189b1dcdf823d0e7d8215018e56b874739dd4958182b9a164fa8a769695caceint, 0x72d400ff27453ef683db61a1f2cc373881def8763430724a1cb2154642eae26dint);
    let e = lemma_chain_square(p, g, e, 0x72d400ff27453ef683db61a1f2cc373881def8763430724a1cb2154642eae26dint, 0x71bd06f0e3a570a8d997defe1231b0eeff3c45b9e32cf881caa077c9672e4b95int, 0x24e290887276325635c0d2b58b64ccd0a0f02684b13444e87397daa845a56d4int);
    let e = lemma_chain_square(p, g, e, 0x24e290887276325635c0d2b58b64ccd0a0f02684b13444e87397daa845a56d4int, 0xbbc595149eee0f229a93fdbe341a3b2349d314d444761215afb648a93c059int, 0x1f7c6f8cbdf67e2a43c94ccad0e6a2056e19e189218302ef0d467f03fef5f37int);
    let e = lemma_chain_square(p, g, e, 0x1f7c6f8cbdf67e2a43c94ccad0e6a2056e19e189218302ef0d467f03fef5f37int, 0x88d35d4d4e2a9e97dcacfbaf93b28f357e2f1338152ae25f7257889dd0536int, 0x8fbece694c4d953fc4f2453c2ed9adbb4bdd8fe34e833abc666598d743ed89bint);
    let e = lemma_chain_square(p, g, e, 0x8fbece694c4d953fc4f2453c2ed9adbb4bdd8fe34e833abc666598d743ed89bint, 0xb23cadf2fd8b46560df1d5e776e322073b6c72977b8a07fd562441c6a2dbdfint, 0x3bdceea77bf570a2579a2ae6439d4dbb548dd4559047f54c1d701c1553b711faint);
    let e = lemma_chain_square(p, g, e, 0x3bdceea77bf570a2579a2ae6439d4dbb548dd4559047f54c1d701c1553b711faint, 0x1ee97b2367db298ba56db1e38a23891a5694e9d4666276e62dd245fee06e362dint, 0x3563b6e3eb04df971a1bf42c452c237eb6affee3393c700ef4b3cbc4f040f1f7int);
    let e = lemma_chain_square(p, g, e, 0x3563b6e3eb04df971a1bf42c452c237eb6affee3393c700ef4b3cbc4f040f1f7int, 0x189683ae33d3b81e4a9c56eeb0b8addf93c33b252d426b7d080729e927e34bd5int, 0x28f9c900e1009f74019fe06b655f791670fa28e77141c9de1bf0344cd84fb07cint);
    let e = lemma_chain_square(p, g, e, 0x28f9c900e1009f74019fe06b655f791670fa28e77141c9de1bf0344cd84fb07cint, 0xe7bb119b8dcdb9f7b04f3422d551d3d37eec406c7df619c043d5b227a601d70int, 0x2e53e80d1eeaddaf1647ff7f99f323eb8f1d0991bc0599d0c6c7e8d2bd29ea0int);
    let e = lemma_chain_square(p, g, e, 0x2e53e80d1eeaddaf1647ff7f99f323eb8f1d0991bc0599d0c6c7e8d2bd29ea0int, 0x12838138eee229674bb1f2572c32c06adebfe9d7e9e8e4137d3d62ff9f8bf0int, 0x2f0a51037c3baf3cfe7e5a09913b33b739fbee0b21326e4064caf95f612a5810int);
    let e = lemma_chain_multiply(p, g, e, 0x2f0a51037c3baf3cfe7e5a09913b33b739fbee0b21326e4064caf95f612a5810int, 0x1167ab2c6985ba6781e33159d93057663ed8d422a925f0759eb9cb6b7bd161c9int, 0x25e608f2e33effd38a9f72ef1a60c7b4a46e26d4e7d472af32cf04d6558b59c7int);
    let e = lemma_chain_square(p, g, e, 0x25e608f2e33effd38a9f72ef1a60c7b4a46e26d4e7d472af32cf04d6558b59c7int, 0xc63bab0b17a4823e22e46b40331911ae3da91635267b28f6ad5ee77a3b4687aint, 0x3bef167c5cbef63778fcf8e2d12d12a85c5edb927bcf300a10ea02f1fe19037int);
    let e = lemma_chain_square(p, g, e, 0x3bef167c5cbef63778fcf8e2d12d12a85c5edb927bcf300a10ea02f1fe19037int, 0x1efc3e1256080b55d6678553cfc2b9fd5c61fc184237ca1d912ce51aad8c39int, 0x593c67049e784b2519338da037cce2508535695ed41693eb9e307b32093e5f98int);
    let e = lemma_chain_square(p, g, e, 0x593c67049e784b2519338da037cce2508535695ed41693eb9e307b32093e5f98int, 0x44b0802ff154491dce1cd7f715ab55bae8aa3f11ff40068eed19e2c7f35f4af5int, 0x57a6aa9b2335ed870e5891ddd8ad1e95d10b2f153214c04b0bd441782df2df4bint);
    let e = lemma_chain_square(p, g, e, 0x57a6aa9b2335ed870e5891ddd8ad1e95d10b2f153214c04b0bd441782df2df4bint, 0x42456a98d0374635b27e06a691702e01a091709ff5fbdff1bc4f1d81c8c6c91cint, 0xad9841fe23b4d3d2ce83e03d10650b2796cf753efc085d0c40460d581c8f6ddint);
    let e = lemma_chain_multiply(p, g, e, 0xad9841fe23b4d3d2ce83e03d10650b2796cf753efc085d0c40460d581c8f6ddint, 0x403af0228ee8dbb8808d86e9d6913773b9454dcdfaf916609ae11968ea35960int, 0x409cc32771da4fb7f445b00de9be3a5b6128377c055565afc8169a81a42787d5int);
    let e = lemma_chain_square(p, g, e, 0x409cc32771da4fb7f445b00de9be3a5b6128377c055565afc8169a81a42787d5int, 0x2402f350bc15a50b0c549df4048a45a4d09cacb7df61b19019ef12ef44bd1001int, 0x6eb9c85abc877c4bca597ec590097506de7e56a04e3e12c4bbefd1df4e3b4738int);
    let e = lemma_chain_multiply(p, g, e, 0x6eb9c85abc877c4bca597ec590097506de7e56a04e3e12c4bbefd1df4e3b4738int, 0x28f7f77eb06438434be672c1752ce4795360e1837a8d36848bc011aeabd960a5int, 0x139c0ce1cd25981f33fa1758393b93207e62bd2df28dc7a9c8788c30f4946ad3int);
    let e = lemma_chain_square(p, g, e, 0x139c0ce1cd25981f33fa1758393b93207e62bd2df28dc7a9c8788c30f4946ad3int, 0x351277be0d75d2feda1c07e0ae97408b3c0324a1c3e0a47aea1055c9156d65dint, 0x29f566970c51dc874a295483878a0169d6ce8f0a16b440f4aeafe9ce5734938cint);
    let e = lemma_chain_multiply(p, g, e, 0x29f566970c51dc874a295483878a0169d6ce8f0a16b440f4aeafe9ce5734938cint, 0xf86541dfe594d9a3f8afe3921d0c79c0fdacf9b5d03271f8df93828d443baf7int, 0x4e39b96b0987442d058ab74c4d90c7c812a133949fc39c13c89c293dd02f7735int);
    let e = lemma_chain_square(p, g, e, 0x4e39b96b0987442d058ab74c4d90c7c812a133949fc39c13c89c293dd02f7735int, 0x34c8d92ef045f8d2ca4b6e063af315f137a91dc7a58dd494e2462244e24cf357int, 0x4ca33dcb872bf6240c32e2f5341fa250e9d52c986e97069d2cb9c4d73aab5da2int);
    let e = lemma_chain_square(p, g, e, 0x4ca33dcb872bf6240c32e2f5341fa250e9d52c986e97069d2cb9c4d73aab5da2int, 0x32a9d8e21036f6e3ce6796d6186643ca29d5a68ddbf583780270c119195931c9int, 0x40766e7899842417cd64362fdc3c414c6183b67453ca9ec51bb5dfef8751e8bbint);
    let e = lemma_chain_square(p, g, e, 0x40766e7899842417cd64362fdc3c414c6183b67453ca9ec51bb5dfef8751e8bbint, 0x23d845d7cb49cb582b2c35281d3d7ed902e5b0268ca88e4f3deee2fa48856fe7int, 0x49badde4eceee3915487ce179ce2a76dbbe6bc2fc0f993293af261c10b6408b2int);
    let e = lemma_chain_square(p, g, e, 0x49badde4eceee3915487ce179ce2a76dbbe6bc2fc0f993293af261c10b6408b2int, 0x2ee4569ee08b4712342de76f55a358c1d83c720a22264afbacc26c8905c44e29int, 0xf6ef48aa84567585a599f93447c8472eb897828825da1ff6d77a1da11974d9bint);
    let e = lemma_chain_multiply(p, g, e, 0xf6ef48aa84567585a599f93447c8472eb897828825da1ff6d77a1da11974d9bint, 0x5b5db73773dd22c67da64ac83d9443536008300558f9a6af89a5611801dbde0int, 0x10b4f347de7d7cd5b9dcfe2e07638f914774d56ea40716341656f2d1d7e80fa3int);
    let e = lemma_chain_square(p, g, e, 0x10b4f347de7d7cd5b9dcfe2e07638f914774d56ea40716341656f2d1d7e80fa3int, 0x2685dc26a2b1fa5eb39c47ad1b8a741d574616bea7fb842c26a4f9d04982a2bint, 0x4bbff9841ca2be274d0c14bc08d14e4d1ccfcde9e9fc068cc4432b541dcc579eint);
    let e = lemma_chain_square(p, g, e, 0x4bbff9841ca2be274d0c14bc08d14e4d1ccfcde9e9fc068cc4432b541dcc579eint, 0x317f1b05f2065486aef4acc1c42bc7fe1b4dbb4512c9d2673226ceb3a5968d26int, 0x1638c951044520a3e946c5ecb010b75980210ed38e2efb0877244117e836385eint);
    let e = lemma_chain_multiply(p, g, e, 0x1638c951044520a3e946c5ecb010b75980210ed38e2efb0877244117e836385eint, 0x838db3ea2504b780d2bf149c95434277cf4fbf0507c9af9b248d6e4e0097d00int, 0xe66544b3a25fcb9dbfe536392be39bf5902a222ad32a3d7c8d223d87f7bebeeint);
    let e = lemma_chain_square(p, g, e, 0xe66544b3a25fcb9dbfe536392be39bf5902a222ad32a3d7c8d223d87f7bebeeint, 0x1c9e32c54c4ec3faf47ecf7e99e08d5c1098e628a755949ff7bad956353fefcint, 0x72b02ee0f3e539951c275b009aff0c21c8913b7d87a6d2f1996db71950ced248int);
    let e = lemma_chain_multiply(p, g, e, 0x72b02ee0f3e539951c275b009aff0c21c8913b7d87a6d2f1996db71950ced248int, 0x2a6f4bc21105e81cf59ddd9d1c783d54e4c097e3c9b610fcc2997e073be7252eint, 0x32e3ee16442ae00d0ade6607de0a05957900e657e09c952e618a16c99985bcdaint);
}

/// A power of a power of the root 7 modulo the prime `q`.
proof fn lemma_power_q_11()
    ensures
        pow_mod(0x2ae4c2a421633ef4b13677eed229a526b9f0dc6b1f40ca7d12981c7e5dfbf239int, 0xb, q()) == 0x3e39ee7633914a22fac6ea2b1dcd35740df1759a75ebe390042407c065689b64int,
{
    let p = q();
    let g = 0x2ae4c2a421633ef4b13677eed229a526b9f0dc6b1f40ca7d12981c7e5dfbf239int;
    lemma_chain_start(p, g);
    let e: nat = 0;
    let e = lemma_chain_square(p, g, e, 1, 0, 1);
    let e = lemma_chain_multiply(p, g, e, 1, 0, 0x2ae4c2a421633ef4b13677eed229a526b9f0dc6b1f40ca7d12981c7e5dfbf239int);
    let e = lemma_chain_square(p, g, e, 0x2ae4c2a421633ef4b13677eed229a526b9f0dc6b1f40ca7d12981c7e5dfbf239int, 0xfdee4509b956072099c903c4ffb3029ad1406f6734db458973ca6c8397d7f7bint, 0x68f71b87089052c326ea27b41a4bc6b104c1fc712dd1a9c40d70c6c111785136int);
    let e = lemma_chain_square(p, g, e, 0x68f71b87089052c326ea27b41a4bc6b104c1fc712dd1a9c40d70c6c111785136int, 0x5f09f84d0369ec3f87e60346fa59df402460a3488d4f0aca006997906f0a299fint, 0x7e7e67edda64a68b05ed327825532efe18e57a0df13f33d701bc0cff9590dc5int);
    let e = lemma_chain_multiply(p, g, e, 0x7e7e67edda64a68b05ed327825532efe18e57a0df13f33d701bc0cff9590dc5int, 0x2ecd8572fe1a97eadca84bd35bc560bf7be4412f19974213a8cdccd6a8cc993int, 0x18dc6413d7e453de80ec9946946012934c0e75aca7eabbd47a3f9c115a72814aint);
    let e = lemma_chain_square(p, g, e, 0x18dc6413d7e453de80ec9946946012934c0e75aca7eabbd47a3f9c115a72814aint, 0x554d8f6f53e64883010b3386038f7d69900c924a98adb30c02cb7e3648ceab4int, 0x21d6072f373cea62b700157aefcc5f2df51c6fad63f324f57f8844c40aa6beb0int);
    let e = lemma_chain_multiply(p, g, e, 0x21d6072f373cea62b700157aefcc5f2df51c6fad63f324f57f8844c40aa6beb0int, 0xc84f56d1ec1ca957d04d5dd75335d8238b9f424cd6d24326a40f326808a39ccint, 0x3e39ee7633914a22fac6ea2b1dcd35740df1759a75ebe390042407c065689b64int);
}

/// A power of a power of the root 7 modulo the prime `q`.
proof fn lemma_power_q_12()
    ensures
        pow_mod(0x10ebf44e61093cb5fe8f1a0a3375bfaddc3f2ab7b883726a36e705a1eea2298aint, 0x226186f9, q()) == 0x672315bde95b3660335e8a5dcace029b6404f0331eae7401fa8c8374cd50438dint,
{
    let p = q();
    let g = 0x10ebf44e61093cb5fe8f1a0a3375bfaddc3f2ab7b883726a36e705a1eea2298aint;
    lemma_chain_start(p, g);
    let e: nat = 0;
    let e = lemma_chain_square(p, g, e, 1, 0, 1);
    let e = lemma_chain_multiply(p, g, e, 1, 0, 0x10ebf44e61093cb5fe8f1a0a3375bfaddc3f2ab7b883726a36e705a1eea2298aint);
    let e = lemma_chain_square(p, g, e, 0x10ebf44e61093cb5fe8f1a0a3375bfaddc3f2ab7b883726a36e705a1eea2298aint, 0x2785263716e072eba7234c20d350baed674247568f38b012224bae0d3b388c1int, 0x675a29cf12797375212337f06341bbecc14ce8f282cf76d63ca45d695db1f5a3int);
    let e = lemma_chain_square(p, g, e, 0x675a29cf12797375212337f06341bbecc14ce8f282cf76d63ca45d695db1f5a3int, 0x5c23edfe8de8ff3fc87779f10d737a3d217514b04f5fd2118376c92a92e2b9f1int, 0x696d6fbd547a71beafe5e7ca7aae5eb18d00acff729d36267b02a6aa7234abd8int);
    let e = lemma_chain_square(p, g, e, 0x696d6fbd547a71beafe5e7ca7aae5eb18d00acff729d36267b02a6aa7234abd8int, 0x5fe0b82d6c4f141ab8b3f1788a22f65ddb3db2402693382cd0f21ca131ea46cdint, 0x121b60a39b14ebfd88ed73acdd248e7340a174f9506d86edd01b78ee712fff73int);
    let e = lemma_chain_square(p, g, e, 0x121b60a39b14ebfd88ed73acdd248e7340a174f9506d86edd01b78ee712fff73int, 0x2d400e427a0dcc7023c9768688c967baf5d1b1190446cf4e1f2c648c4a52bbfint, 0x3147f095d61de986a1298d44b9540525f724533d7fac876f4bba97cd8c7b21eaint);
    let e = lemma_chain_multiply(p, g, e, 0x3147f095d61de986a1298d44b9540525f724533d7fac876f4bba97cd8c7b21eaint, 0x7318260e9636c5ffc5fe9bc14762c8dcdee8d199b9ebe95acaacaec67bd3131int, 0x9221510f5a6a41ddf9fdf825a936e673ca23ce9a54553074fe56c2f0d2590f3int);
    let e = lemma_chain_square(p, g, e, 0x9221510f5a6a41ddf9fdf825a936e673ca23ce9a54553074fe56c2f0d2590f3int, 0xb8333e3d7e25039fb5bf4e872ff842dddd374986c1b4444a81e35ae91aa2baint, 0x5199c1a321450e3dc7589c19c64a7d0fe9578f7f98dfe983721bd6d4fd35a3efint);
    let e = lemma_chain_square(p, g, e, 0x5199c1a321450e3dc7589c19c64a7d0fe9578f7f98dfe983721bd6d4fd35a3efint, 0x39700eb1db7dee4e88826af86c812892d3b544513ad235d035815d66636315bcint, 0x98860dbf8270da7d1e93a45c038680b4f37944d82579c7a7a9e1714c8d2365int);
    let e = lemma_chain_square(p, g, e, 0x98860dbf8270da7d1e93a45c038680b4f37944d82579c7a7a9e1714c8d2365int, 0xc8abcb480a056b092792201e495576fe986dc86975fe3288f5bc5ca13d74int, 0x5853b10744cf194d3ae1f781ca07cf3c365c1477a9a71f736f272bb59d858865int);
    let e = lemma_chain_multiply(p, g, e, 0x5853b10744cf194d3ae1f781ca07cf3c365c1477a9a71f736f272bb59d858865int, 0xce48ed40d59cbb571306554de077b7b092327139d85094508aff3d19b17837fint, 0x4eae9186269231399a8007d72ef1700e5505f8e389d0c7e052acc9a1e7a62ff3int);
    let e = lemma_chain_square(p, g, e, 0x4eae9186269231399a8007d72ef1700e5505f8e389d0c7e052acc9a1e7a62ff3int, 0x3566fecdd51fa8281bed0e7713eb46bbf81998e74e5195c80d2b8f0feffdeaccint, 0x4ed0177b0c14c6cba22498c4151a5d9a49cd1ee04f13a984254b97ccd22135ddint);
    let e = lemma_chain_multiply(p, g, e, 0x4ed0177b0c14c6cba22498c4151a5d9a49cd1ee04f13a984254b97ccd22135ddint, 0xb810a81454b6d1a6e5bf2b35816066c68889508945c871e0d00346d18fced1aint, 0x46a188eaf4da6dcf351c70211da9d71541419af5be247b55c25f64d20a648108int);
    let e = lemma_chain_square(p, g, e, 0x46a188eaf4da6dcf351c70211da9d71541419af5be247b55c25f64d20a648108int, 0x2b086f03de75278343a1a16a8d8fb726383cf74eaca965424a78381f3c10722eint, 0xda0a75369fe3cf1aa59009eeaa7691761a74d01cd86eaf667a62cb873389e12int);
    let e = lemma_chain_square(p, g, e, 0xda0a75369fe3cf1aa59009eeaa7691761a74d01cd86eaf667a62cb873389e12int, 0x19a18b90a8ea7885b2c73564301a5c925edc6ba47825f2fcd31072185d8d2c1int, 0x179db25833c62781b3ceaeb0dbf90856f029287979a9ba6b7f9520092fa16683int);
    let e = lemma_chain_square(p, g, e, 0x179db25833c62781b3ceaeb0dbf90856f029287979a9ba6b7f9520092fa16683int, 0x4cf94dad36419a33fc1e552d06846c6c16de0b4bbe6f8fe84ef8e00e1ebb6a2int, 0x28b5325194ab6761d3d2d2bf3b5f59150289e86e576402fa6750c73d51e6f067int);
    let e = lemma_chain_square(p, g, e, 0x28b5325194ab6761d3d2d2bf3b5f59150289e86e576402fa6750c73d51e6f067int, 0xe4b5d3019e3cf887c77d383c5b215d008f076cacfacb825d5ac232c8031c7edint, 0x6c2760f2e2149307d529563e882ec5e29d11aa4410c495edf8e84c4c88a38184int);
    let e = lemma_chain_square(p, g, e, 0x6c2760f2e2149307d529563e882ec5e29d11aa4410c495edf8e84c4c88a38184int, 0x64e693e89aae8c1937c5a1268705066bbd10785c88b843e6eaffa1c6c117966eint, 0x5bc2391dc3b0e8fca578d04a2e825fe7cd552e2a5fede02d4415d11ae86b5a2int);
    let e = lemma_chain_multiply(p, g, e, 0x5bc2391dc3b0e8fca578d04a2e825fe7cd552e2a5fede02d4415d11ae86b5a2int, 0xd64cb5ffccb76f728bda64e66fec420c29b61dfb3ee550fca9b64a50e3031bint, 0x6d2be617fffa996db5d736bdff40d8b8f52969304bb876f602416049e355d839int);
    let e = lemma_chain_square(p, g, e, 0x6d2be617fffa996db5d736bdff40d8b8f52969304bb876f602416049e355d839int, 0x66cef65b67fa26879b6d86eb6ebc51951b1479c7b8b9bb27e92a9097bd8241feint, 0x44c00d9899bef4c8c51c36fa8ee0d68ff660782717c231c6584b1c26a4f7fab3int);
    let e = lemma_chain_multiply(p, g, e, 0x44c00d9899bef4c8c51c36fa8ee0d68ff660782717c231c6584b1c26a4f7fab3int, 0xa090654d5b46e03e18b358688f17235d2815f852d3cfbc06538c24f118b2113int, 0xab049ad5e2faeae5360d0997aa12cfc6819ecd3946a84ae9b83d596a28eae6bint);
    let e = lemma_chain_square(p, g, e, 0xab049ad5e2faeae5360d0997aa12cfc6819ecd3946a84ae9b83d596a28eae6bint, 0xfc4957203e860cad73ce1fdee7bb34f77f486660c402fb5b9e043c2e6fd406int, 0x6a7a0f527183fa58b8b621df5198037b2a9924159aca471b3aff27733319ccb3int);
    let e = lemma_chain_square(p, g, e, 0x6a7a0f527183fa58b8b621df5198037b2a9924159aca471b3aff27733319ccb3int, 0x61cbbbc6f026e74dee5acee32dc4acdcf556d342da8ca541608e76ee35d44becint, 0x43ffd816e9569f73d95ce6193cb765ddbddf76aa569990ea8d9f91f8bacf793dint);
    let e = lemma_chain_square(p, g, e, 0x43ffd816e9569f73d95ce6193cb765ddbddf76aa569990ea8d9f91f8bacf793dint, 0x27e2d0b0090702fdb231e258577e36883c92049f5a38d487bd8b75110cf021e6int, 0x6f1fe1da5a36d5aa26a54e90c6f08bbb0e9e4a1ade74ac829cced156e12096a3int);
    let e = lemma_chain_square(p, g, e, 0x6f1fe1da5a36d5aa26a54e90c6f08bbb0e9e4a1ade74ac829cced156e12096a3int, 0x6a8511d58045ac48f4f39061bf240cd76e0ac823d84fbae074ba2b92d4764cfaint, 0x47f395f88fa605dc21297d17473c58286cb664d2a3c7ec54b3e5c9dbb2ed1ecfint);
    let e = lemma_chain_square(p, g, e, 0x47f395f88fa605dc21297d17473c58286cb664d2a3c7ec54b3e5c9dbb2ed1ecfint, 0x2ca83588159f3727b3b786563df71b273c583b97b3c51b90d29f5743b38fa450int, 0x7093f2b11b58bcf02211fd16aff569ee6c70330096a970ad7268abb0376b8711int);
    let e = lemma_chain_multiply(p, g, e, 0x7093f2b11b58bcf02211fd16aff569ee6c70330096a970ad7268abb0376b8711int, 0x106ec1f9b008bff3df7d944d3e8e5673a1946447e835e4004039516278950698int, 0x307276fb2b3fff772a3d12ad9ff5e9c2b3b17c75792ba91d8beacb61e6c58192int);
    let e = lemma_chain_square(p, g, e, 0x307276fb2b3fff772a3d12ad9ff5e9c2b3b17c75792ba91d8beacb61e6c58192int, 0x143f0ffd72718a0b866dfa252e21f4e61520232c4e27f3424bdb6cc4fe4ac5fcint, 0x4b7699fc9dda67bcbbca21fc056d23603fc2ed7702d693c60a88930e05fdb148int);
    let e = lemma_chain_multiply(p, g, e, 0x4b7699fc9dda67bcbbca21fc056d23603fc2ed7702d693c60a88930e05fdb148int, 0xb03e038fe31a8dc9353fab505e89ba2de6e16f537350f7ab1df46b9580b7981int, 0x3559f04298ef726cc0b8282c74623f4bf4f5d1280a057d652cc542efa3aa9f4fint);
    let e = lemma_chain_square(p, g, e, 0x3559f04298ef726cc0b8282c74623f4bf4f5d1280a057d652cc542efa3aa9f4fint, 0x188d83633fc8eca37ecf5ef2fad53bb8f0455fb038415b9cfe058d6f1b23753bint, 0x47601188bec158addb4f2ed3ae23b1a0439e63ebad1c49767010d1e476ebc526int);
    let e = lemma_chain_square(p, g, e, 0x47601188bec158addb4f2ed3ae23b1a0439e63ebad1c49767010d1e476ebc526int, 0x2bf1d3de3c41c530a992c0da4a505878dd0faf69769eb07b9061f6c062d79f58int, 0x4783851476397076f44b688e1e419d5f2569e2f3a2d4b0afba53132a30bfe24cint);
    let e = lemma_chain_multiply(p, g, e, 0x4783851476397076f44b688e1e419d5f2569e2f3a2d4b0afba53132a30bfe24cint, 0xa704a9bc694179e81ea5be172b1b314b3dc04806756be961768da6867ac065bint, 0x283d05e53132823ff6cc80b906d1bc0b1e91a94a65a2d8f80bcf4e1b771a229dint);
    let e = lemma_chain_square(p, g, e, 0x283d05e53132823ff6cc80b906d1bc0b1e91a94a65a2d8f80bcf4e1b771a229dint, 0xdf774238271ed54c506d4f792e21a218dcd086fcb9f55c77a86cee4385f6411int, 0x5525e3ed2ed1026c6c11739a86fa22ba56694875b9ae5c2179c2dd23ca32b038int);
    let e = lemma_chain_multiply(p, g, e, 0x5525e3ed2ed1026c6c11739a86fa22ba56694875b9ae5c2179c2dd23ca32b038int, 0xc6dc518c304cae246d94206a2217d705f2b9a92119f4dea8362298941602626int, 0x89c129fb16c16c135839823924262f9f4ebe74814c969c5c6eeec696f9bd00aint);
    let e = lemma_chain_square(p, g, e, 0x89c129fb16c16c135839823924262f9f4ebe74814c969c5c6eeec696f9bd00aint, 0xa3b0a74b316e945a8e420fa47f1ad77326446588296f9ec637dd9b93f95ffcint, 0x17040dd40b3a81b31b590124fe695287eb0a30f750aebe171e6517d2ad32e068int);
    let e = lemma_chain_multiply(p, g, e, 0x17040dd40b3a81b31b590124fe695287eb0a30f750aebe171e6517d2ad32e068int, 0x35c0b71cfa1c188c35f66cd88d88ed6f0eae53d2f0ec37a649a024200818f84int, 0x52a84a088e5245601e8a8a504501317853ce8abc03ee1aee78c732cb34ac108cint);
    let e = lemma_chain_square(p, g, e, 0x52a84a088e5245601e8a8a504501317853ce8abc03ee1aee78c732cb34ac108cint, 0x3aef5f909cb9bf56d3b481d05f2a2cb434cfd91120bcc70be3898a52b1278647int, 0x42210349daa47d4390360066d8e88ba81f5d36bf3d2ec29175445b6c0a4649int);
    let e = lemma_chain_multiply(p, g, e, 0x42210349daa47d4390360066d8e88ba81f5d36bf3d2ec29175445b6c0a4649int, 0x9a7133899b263af7161177219b8af437e58052044787b1c517f362ccd7392int, 0x3b49e621450a09ef85006528c8b24b533c0a32913907d2b79a5feb30e3020c8int);
    let e = lemma_chain_square(p, g, e, 0x3b49e621450a09ef85006528c8b24b533c0a32913907d2b79a5feb30e3020c8int, 0x1e525c080a26e613a119387120134cbb0a911b0fb377ed2bbaabcd39493215int, 0x1f1efea55744a55027092bb6668680e76acf47d8544ac390b8828a99f5e96a2bint);
    let e = lemma_chain_multiply(p, g, e, 0x1f1efea55744a55027092bb6668680e76acf47d8544ac390b8828a99f5e96a2bint, 0x48aead4f2cbd972b38f43f6392ece1c35f546a7376ade020afb270e94c775e9int, 0x508ad944906285cfcff333540cc682ed14a397687e10266fd615e8af8642a845int);
    let e = lemma_chain_square(p, g, e, 0x508ad944906285cfcff333540cc682ed14a397687e10266fd615e8af8642a845int, 0x37f5271bd73dc925c0e5ae60900d88a83191a6303eceb3f3decbdaa4095ca1fbint, 0x6c673f31409645639d2b22b0a5f73f6a755360d3443e1075c86bbf3064d2009eint);
    let e = lemma_chain_square(p, g, e, 0x6c673f31409645639d2b22b0a5f73f6a755360d3443e1075c86bbf3064d2009eint, 0x655de2964fc8ef34ea5931e25be734fe75bbb8544229a1179d57f5aec45b996aint, 0x16ec31c8667e869d63ec3dc9c0814444399f25c60a91ce87de785fbbaedcc81aint);
    let e = lemma_chain_square(p, g, e, 0x16ec31c8667e869d63ec3dc9c0814444399f25c60a91ce87de785fbbaedcc81aint, 0x488530d4eb202226f78f03dc15d3d5aae4d08487cb36a5eea6428fd6e499444int, 0x6dee90306c7604135be518c50e26e588ca486d2e6e9a75b7fec5ebae72cf0e60int);
    let e = lemma_chain_multiply(p, g, e, 0x6dee90306c7604135be518c50e26e588ca486d2e6e9a75b7fec5ebae72cf0e60int, 0x100be1c94fe7c0b310287b28e45b77d2bc618c568ed03c0b727f65ef985adc33int, 0x672315bde95b3660335e8a5dcace029b6404f0331eae7401fa8c8374cd50438dint);
}

/// A power of a power of the root 7 modulo the prime `q`: the steps from the exponent
/// 0
/// to the exponent
/// 0xa7751d82854.
proof fn lemma_power_q_13_part_1(p: int, g: int)
    requires
        p == q(),
        g == 0x36fb34ca1cf1bdf3cfcae97d3d3292f63e19c2f2cf2ab065378f4171e23ad3a2int,
        pow_mod(g, 0, p) == 1,
    ensures
        pow_mod(g, 0xa7751d82854, p) == 0x43032067c6455f396acb8d582c293dfa6a76ccb17e2321880a393aec7bedb22bint,
{
    let e: nat = 0;
    let e = lemma_chain_square(p, g, e, 1, 0, 1);
    let e = lemma_chain_multiply(p, g, e, 1, 0, 0x36fb34ca1cf1bdf3cfcae97d3d3292f63e19c2f2cf2ab065378f4171e23ad3a2int);
    let e = lemma_chain_square(p, g, e, 0x36fb34ca1cf1bdf3cfcae97d3d3292f63e19c2f2cf2ab065378f4171e23ad3a2int, 0x1a1370ee76fb87a88011c1434380d5674af5f4a0da45c55598476da8995cf9caint, 0x4251124e16f712ac26f2b25a73c71a62432da1a7d0ead4246b64905402ff78baint);
    let e = lemma_chain_square(p, g, e, 0x4251124e16f712ac26f2b25a73c71a62432da1a7d0ead4246b64905402ff78baint, 0x25efb769699c6d7deaaf1a9c9af1cbeb12a36e14225f3b80e6c01d46dab39d41int, 0x3ba4f5ae6d6af8788251faac796c0ba9b511b861866bacca20c4f6dec8c749e3int);
    let e = lemma_chain_multiply(p, g, e, 0x3ba4f5ae6d6af8788251faac796c0ba9b511b861866bacca20c4f6dec8c749e3int, 0x1c499a1dcfba10a64f97e16a858dfd8e231b89fa7a57ec402e858002d2e502b2int, 0x16a8feb6d39da5f038c61a17899ddec15720c132c8a4960298be07baa08bd7f4int);
    let e = lemma_chain_square(p, g, e, 0x16a8feb6d39da5f038c61a17899ddec15720c132c8a4960298be07baa08bd7f4int, 0x46de6d7abc47dc8acb660996352e2b419218b76f36c6eb72469b260abe70db3int, 0x3bfa93966816de2d809a6ceb64d87da29117dbc45b276a082b619c378d3cb2ddint);
    let e = lemma_chain_square(p, g, e, 0x3bfa93966816de2d809a6ceb64d87da29117dbc45b276a082b619c378d3cb2ddint, 0x1f0820420d421ff9c6285ee300607bf381edba87a00c019af8aa35d7dad2ee78int, 0xfa72b19fcb76c1e6d82b11fef09b3f9f61ed8b662cd60caa3a0d701ebbd2451int);
    let e = lemma_chain_square(p, g, e, 0xfa72b19fcb76c1e6d82b11fef09b3f9f61ed8b662cd60caa3a0d701ebbd2451int, 0x21d0f6bb70df04c161decf38bd452df6aaa9ed3483a26ab143b6a6af83abde0int, 0xb92dbd96f98ee2b07605eeca8d0c6cdb61e5e791c61541bd2ce7682628623c1int);
    let e = lemma_chain_multiply(p, g, e, 0xb92dbd96f98ee2b07605eeca8d0c6cdb61e5e791c61541bd2ce7682628623c1int, 0x57d318e990b5e307484e9969e15c8ccde93a0495ef0a1f355598c0dd29e5b25int, 0xcd89f490bd0fe93db2e1debb3e837995a63cd4d164639540036cbf3917657fdint);
    let e = lemma_chain_square(p, g, e, 0xcd89f490bd0fe93db2e1debb3e837995a63cd4d164639540036cbf3917657fdint, 0x16c6ab4704b59a839892e801556531025973a8ef11780c2210ce5a30fcc70dbint, 0x6af2344b6de6cfc585723dcbc4c83e9f87b27193195b1820365919e7c5ad7f2eint);
    let e = lemma_chain_multiply(p, g, e, 0x6af2344b6de6cfc585723dcbc4c83e9f87b27193195b1820365919e7c5ad7f2eint, 0x32b8a5c29f4414fa24392056e689ca322d23f0e8e761f0ed54db78953df16e94int, 0x3970862035c32666aca38bf5f0ed88daa2f42fe601eb585a746a277b4617f688int);
    let e = lemma_chain_square(p, g, e, 0x3970862035c32666aca38bf5f0ed88daa2f42fe601eb585a746a277b4617f688int, 0x1c75b7e2668391e4095a47c10579a9b6c54810976e915f65e52cce7fc73fa26aint, 0x48f82774cb2ca88233794a43be2cb92e019f9fea840a5f1f060847aad29a05d6int);
    let e = lemma_chain_multiply(p, g, e, 0x48f82774cb2ca88233794a43be2cb92e019f9fea840a5f1f060847aad29a05d6int, 0x229b6d726009a9ff80de3e19ed35ce4fd208f4716b59f5d8a72643949a6f978bint, 0x57ab1c60264184cc0411819c5728e63a83fa52006f958c9ef03a1326dc537be1int);
    let e = lemma_chain_square(p, g, e, 0x57ab1c60264184cc0411819c5728e63a83fa52006f958c9ef03a1326dc537be1int, 0x424c234182337e1560fa0b942988c7b5e204ebf137afd8264fce7dbda8edef54int, 0x11e709a00b11fccbe6ab54f90e97c58bb7d10dc1424e8f5be5df36869eea0c6dint);
    let e = lemma_chain_square(p, g, e, 0x11e709a00b11fccbe6ab54f90e97c58bb7d10dc1424e8f5be5df36869eea0c6dint, 0x2c3beea626d2baf86f43917a122d670e09697da22bf1e331e08eae43bf33de0int, 0x69d8711aa69893f6db9b4d10752ea422ebd440c565e7cde142b90e6907eb2889int);
    let e = lemma_chain_multiply(p, g, e, 0x69d8711aa69893f6db9b4d10752ea422ebd440c565e7cde142b90e6907eb2889int, 0x32330422cb7025df1f385e683072170cf5cb73379bcc9b408f2c8a23602d8644int, 0x33d67316fbaf36f4be3d7aae66956fc1d82797ef57fc9bd4d564bea796150b6eint);
    let e = lemma_chain_square(p, g, e, 0x33d67316fbaf36f4be3d7aae66956fc1d82797ef57fc9bd4d564bea796150b6eint, 0x172deb99fcbf06f6ea7aa4e371715e637bc39d6afe30942846f5be780a2faab4int, 0x25daa33e473bd14b4565f02588b276c76e9ba9d3aefbd262192c8dfbe5ef890int);
    let e = lemma_chain_multiply(p, g, e, 0x25daa33e473bd14b4565f02588b276c76e9ba9d3aefbd262192c8dfbe5ef890int, 0x11f3f956158b2c93f4cfdb6ffee702478b42d9329d5c4acdc32f0cf18c04e2dint, 0x52bbd80a50814a91513af251a7bae569296fe4b6afeae8106d3a256016d7acf3int);
    let e = lemma_chain_square(p, g, e, 0x52bbd80a50814a91513af251a7bae569296fe4b6afeae8106d3a256016d7acf3int, 0x3b0b45786aa6bf73a8908d0a07c59779028c1ed2ea2e9739ddcdad072afddb9aint, 0x4d7ab83514d5ffdf69c950cbe48cedba68ec75db8e0295741515ea408e03930fint);
    let e = lemma_chain_multiply(p, g, e, 0x4d7ab83514d5ffdf69c950cbe48cedba68ec75db8e0295741515ea408e03930fint, 0x24bf00b179f9b35819a44eeb98b1f44ccdc9453a3f202ef5e0cf69aabfe0a661int, 0xf0da89e6c6b0833143ae837a38ed903b56dac839df49dc04d4dbbde9ffdc61dint);
    let e = lemma_chain_square(p, g, e, 0xf0da89e6c6b0833143ae837a38ed903b56dac839df49dc04d4dbbde9ffdc61dint, 0x1f4664a42652c47d7b7daf0db330ea1b9a10579a5702bb6a593c97ff86e06adint, 0x225101d2752b8b8673b1a57cb791bb6da94fae8570801d2391db6d223c34d89cint);
    let e = lemma_chain_square(p, g, e, 0x225101d2752b8b8673b1a57cb791bb6da94fae8570801d2391db6d223c34d89cint, 0xa287ca6d5327c63ac63213f51fab08465cee10df3f3b05da6322a35dd255998int, 0xaa827e6dfc1f95ceae6f16226c64e729fed66bd1134d1bc96826143f9824578int);
    let e = lemma_chain_multiply(p, g, e, 0xaa827e6dfc1f95ceae6f16226c64e729fed66bd1134d1bc96826143f9824578int, 0x50de1929ed373aefc989a0bdce031bbe87edb40d78f1638815c33e1cee12b7cint, 0x2835194e89ff25e36e1aa5d5e6e34e5fd767dc4839948c56da0936142200b274int);
    let e = lemma_chain_square(p, g, e, 0x2835194e89ff25e36e1aa5d5e6e34e5fd767dc4839948c56da0936142200b274int, 0xdf1f47254dda827d263a3d6b39372753a3aa65fe0b0a6235e0b8d4a0a9c0a7bint, 0x58f7a4693c6a135a09fa8d033eca6185d1de87b145af977968a17eb841c97a15int);
    let e = lemma_chain_square(p, g, e, 0x58f7a4693c6a135a09fa8d033eca6185d1de87b145af977968a17eb841c97a15int, 0x4446cdb9367ae66cf7be7b7f49c5162cfd380e2864d87df8176ac1d17e39cd8cint, 0x5810845fca663a951ce99c659453e4e2a66415027726473cfbed247a1af8382dint);
    let e = lemma_chain_multiply(p, g, e, 0x5810845fca663a951ce99c659453e4e2a66415027726473cfbed247a1af8382dint, 0x29c42d53321ba364d24b7d3efac4f845b7d83c5112227ff97f6423bc006970c8int, 0x3db29ec9f935fe37d6da42b2110db4ab89d2caa442bb93ed6b977d3d1b2932b2int);
    let e = lemma_chain_square(p, g, e, 0x3db29ec9f935fe37d6da42b2110db4ab89d2caa442bb93ed6b977d3d1b2932b2int, 0x20d5fd2e4ec0aa825c49f16ec30896b124a284a0a4571c92570d9482c1f9370aint, 0x510b9c69e69f428f1d0db336d2c682f2a87b7aa2d59796a534ed56ae1114ccbaint);
    let e = lemma_chain_square(p, g, e, 0x510b9c69e69f428f1d0db336d2c682f2a87b7aa2d59796a534ed56ae1114ccbaint, 0x38a8a114b0f39bfc2083e763fbb64708fa63171ed61d4ef00462229e95522f5fint, 0x5384a056d0d2f359680c2f1fd26ca09a50e24393580a3c55644b1679bf76c7c5int);
    let e = lemma_chain_square(p, g, e, 0x5384a056d0d2f359680c2f1fd26ca09a50e24393580a3c55644b1679bf76c7c5int, 0x3c2b363379744d0350aa22e9a6c8c8689b5cf3db752d6d028c5bcc9025643aa9int, 0x5480602a0e6063e8c51faa5feb80383891e6b61fd59d018286479787961ba2f0int);
    let e = lemma_chain_square(p, g, e, 0x5480602a0e6063e8c51faa5feb80383891e6b61fd59d018286479787961ba2f0int, 0x3d9814fe54e8e868379632a0486987d870e9aba295ff5927d8099d6f136372b2int, 0x628d1cd93b638cfbc0946dcea13fc9a67065f35ebb5c87851fdb344ff2f12e4eint);
    let e = lemma_chain_multiply(p, g, e, 0x628d1cd93b638cfbc0946dcea13fc9a67065f35ebb5c87851fdb344ff2f12e4eint, 0x2ebd661d9dabb26af2772c41d974102f724fc864ffb5a78d0188feccdf71004cint, 0x3f1177ceaf1504506fe9f0768351a3eb357a6378c5f80d4f3a1c354700049710int);
    let e = lemma_chain_square(p, g, e, 0x3f1177ceaf1504506fe9f0768351a3eb357a6378c5f80d4f3a1c354700049710int, 0x224f9546589e89439826974e3f96bcb96fbc177ada5ca30feeccfb1c95d820faint, 0x16c8a316f78f37537d48cffa7baf3c147c2bdd0fe8300c0ddba390d27bcbc006int);
    let e = lemma_chain_multiply(p, g, e, 0x16c8a316f78f37537d48cffa7baf3c147c2bdd0fe8300c0ddba390d27bcbc006int, 0xace3dee6d1512d504c9588a7a44b7d19ffc5cc531351757016dbfcb1111a9c2int, 0x6d7eae14895b94da2a69ad5bb973929ed74f07f23ab4fdb26c883f87027ecc0aint);
    let e = lemma_chain_square(p, g, e, 0x6d7eae14895b94da2a69ad5bb973929ed74f07f23ab4fdb26c883f87027ecc0aint, 0x676b1b1a2a8eac18ab4e514276cd6bedb15200fa347938471c900d6e380fe815int, 0x7111006c8e15cf984d5eca088676b18e4379a2ed3fea1073604e33306c68084fint);
    let e = lemma_chain_multiply(p, g, e, 0x7111006c8e15cf984d5eca088676b18e4379a2ed3fea1073604e33306c68084fint, 0x359fbb525ab4255fbbeb8518a37abaec2889181fedada2706b9d01bad65402c4int, 0x4fad1e8fc6f94144a05b29e9697c012e5d3482e80135b1510a396fce22405c3aint);
    let e = lemma_chain_square(p, g, e, 0x4fad1e8fc6f94144a05b29e9697c012e5d3482e80135b1510a396fce22405c3aint, 0x36c2b6462133e90d47168d3fa03f8fe802244028e2c55daba3505660f7520152int, 0x5555a50796651a85df82c79211c73e902e2d139ca79ac247e1f98cf6aee7bbd2int);
    let e = lemma_chain_square(p, g, e, 0x5555a50796651a85df82c79211c73e902e2d139ca79ac247e1f98cf6aee7bbd2int, 0x3ed085e019fdfb9fe26672c87013cbf2184c32c9ace4d0f4abaf7962929ce7fdint, 0x6b6b042d9ae000de6b85f2095b71a30c74d98ce354d16edb7bbbeb48642b9047int);
    let e = lemma_chain_multiply(p, g, e, 0x6b6b042d9ae000de6b85f2095b71a30c74d98ce354d16edb7bbbeb48642b9047int, 0x32f1f1e990d0e8a458fbb42aebe87d0148190bf446387e11b0cc8f31cafe8d66int, 0x4a6c18a34fc388986aa75559189528bc1226ed67de173b6aa0646a27de934488int);
    let e = lemma_chain_square(p, g, e, 0x4a6c18a34fc388986aa75559189528bc1226ed67de173b6aa0646a27de934488int, 0x2fc6d4c8564f26324634ac0cedac923f0016200268985a297ce4c885d9c849e8int, 0x380b6adb44ef38eb0e5e5bd70ed5712e92f372b4dcb3cc236e46c265ccc03e58int);
    let e = lemma_chain_multiply(p, g, e, 0x380b6adb44ef38eb0e5e5bd70ed5712e92f372b4dcb3cc236e46c265ccc03e58int, 0x1a948ae8860b63e0b6cf87d67ada14bb443bfd21ee1ba64db98d9f534416039eint, 0x73c39a97fdbbdee3e5829f765e59889ef51644a7ff7878057b3347e890e3f812int);
    let e = lemma_chain_square(p, g, e, 0x73c39a97fdbbdee3e5829f765e59889ef51644a7ff7878057b3347e890e3f812int, 0x73999d1d6c0ed64b66160ee67227ecca870bf2fd49318d8ac32f9b3147c3a9b1int, 0x4501cc423a1c34c312bb1feacf1a860edaf70c1bc8984ae70a8ced35d88b3793int);
    let e = lemma_chain_square(p, g, e, 0x4501cc423a1c34c312bb1feacf1a860edaf70c1bc8984ae70a8ced35d88b3793int, 0x2913ab8c1d40023ac33e725a3a3e1906f1b44aafd99951470ed677fdf69cc336int, 0x3e96d69db3f0618a2e605f5f3789d9e08c43fb2fd5aa40185244b5937f15bb33int);
    let e = lemma_chain_square(p, g, e, 0x3e96d69db3f0618a2e605f5f3789d9e08c43fb2fd5aa40185244b5937f15bb33int, 0x21caa974f02940f9e3114d94ad93f3ecfdcfbc386af2d33470c37ba0c39d0d56int, 0x67aaa86d23fb37c21660cf77e96710f17a17a6981746bd7a5eb33ddc15a47ed3int);
    let e = lemma_chain_square(p, g, e, 0x67aaa86d23fb37c21660cf77e96710f17a17a6981746bd7a5eb33ddc15a47ed3int, 0x5cb3ac3a476e5c508372100f0fcf4632fbc6a146f0acbe0b19e2d50ebd9630abint, 0x5d8a831e7a3a647ec47ea19eee2d1a8dc255b2d248b2f37c8bc44ac59d96313eint);
    let e = lemma_chain_square(p, g, e, 0x5d8a831e7a3a647ec47ea19eee2d1a8dc255b2d248b2f37c8bc44ac59d96313eint, 0x4b7a20f97075bdf6c8da41eda71a900333d6c11e2cde87d128803f1dd5c2d432int, 0x29066f64d0d0d035491a10cad49bc372e6df6e86c84b3aaa26d3c703f45df6d2int);
    let e = lemma_chain_square(p, g, e, 0x29066f64d0d0d035491a10cad49bc372e6df6e86c84b3aaa26d3c703f45df6d2int, 0xe84a3bf25b52d2961ec341363a1157d4774a14e7afd2a3f6d1dcceea9696f78int, 0x4f04a305fa83da27a829977153510c8d0d713c394de1c7342ba92872e922d4ccint);
    let e = lemma_chain_multiply(p, g, e, 0x4f04a305fa83da27a829977153510c8d0d713c394de1c7342ba92872e922d4ccint, 0x2579d35db92554ccaa97e30548de9901451a3ada0ca9769eb334e7f17473408cint, 0x3fbad23a4c0ef0be8c90b8c529ce71c5560d2c200d0a9d7adcd5f34617338c8cint);
    let e = lemma_chain_square(p, g, e, 0x3fbad23a4c0ef0be8c90b8c529ce71c5560d2c200d0a9d7adcd5f34617338c8cint, 0x2308d0b104edfa20d7cc6af0d2bc1f571cb893097beb6b55e225b6812a6c52ecint, 0x6a704bd6c51872306c12f28df796bc92234e32304d8d41c585b8e9d4a8519a4int);
    let e = lemma_chain_square(p, g, e, 0x6a704bd6c51872306c12f28df796bc92234e32304d8d41c585b8e9d4a8519a4int, 0x61b9cd31d4941d021a777454388d8e396a3a840d7982786b07f29236035f22int, 0x5baec99f6a21cec2ada1d11c898492bc4cf3c29e167c2eaceaf807be40f611eeint);
    let e = lemma_chain_multiply(p, g, e, 0x5baec99f6a21cec2ada1d11c898492bc4cf3c29e167c2eaceaf807be40f611eeint, 0x2b7b7a99a6120ba781fd18a393d44de91359bf46ed2c136aba0f9b8b6b8467b1int, 0x42b8b5e81ee51adff34e20f62f619313b5d915b15753299dd45ccdb7ace61aebint);
    let e = lemma_chain_square(p, g, e, 0x42b8b5e81ee51adff34e20f62f619313b5d915b15753299dd45ccdb7ace61aebint, 0x2666a6d0d3e567adbe504fa6dacaefe898ebc1b2c41afe02307f1606aa73d350int, 0x7f7ffb2b91448d6672da741e3df8d3b9e89d18bca76863c37b99a437ea4c069int);
    let e = lemma_chain_square(p, g, e, 0x7f7ffb2b91448d6672da741e3df8d3b9e89d18bca76863c37b99a437ea4c069int, 0x8c39ffa57aef1b4128d5d2bb49212a8b76d3a968c9a97b98a49024885a06a0int, 0x306ce5f1841853c50711273584446c43b1322468a974a575e5d918dfeacba471int);
    let e = lemma_chain_square(p, g, e, 0x306ce5f1841853c50711273584446c43b1322468a974a575e5d918dfeacba471int, 0x143a6931b44a2aa70d5d8b72e4569fd6430af27e581e452ac58ca447c23ad5b5int, 0x629f91f766f37e207b4f4af604538da0a492c7ead6e3436c0336c8e8069c242cint);
    let e = lemma_chain_square(p, g, e, 0x629f91f766f37e207b4f4af604538da0a492c7ead6e3436c0336c8e8069c242cint, 0x53e6c7bdf8baec8d065da5a1f9c7ccb79e2a58dfa0dceb2f16a500e10562bfc3int, 0x4f7597f9253d32d35a49eeb103895b6c1a52e3952321ded2cffbf902559a7cdint);
    let e = lemma_chain_square(p, g, e, 0x4f7597f9253d32d35a49eeb103895b6c1a52e3952321ded2cffbf902559a7cdint, 0x36767dd04b25ba7445e536fb2ab2b6f0ed829de97d6053c685f75a9524f9feint, 0x7050efb3d311a8bc9059479f8df6153ee85b7a4a31c50fc763b8b92ac762202bint);
    let e = lemma_chain_multiply(p, g, e, 0x7050efb3d311a8bc9059479f8df6153ee85b7a4a31c50fc763b8b92ac762202bint, 0x3544a418a335af75c31b57206c158f0b660b241e6d30130bc95366a2c545f016int, 0x6e3027268f0115c984f9b0411354c29325f7c0841a63a88f30abe3778713dc20int);
    let e = lemma_chain_square(p, g, e, 0x6e3027268f0115c984f9b0411354c29325f7c0841a63a88f30abe3778713dc20int, 0x68bb6a479baa84d3a5a36c0f1c7cb390d93f86c8d9a9ef35db7226bf542f4abbint, 0x5fdcc116912129e8d9127677c4ccbe31641535b524df52749f9a7d6fd5d7b945int);
    let e = lemma_chain_square(p, g, e, 0x5fdcc116912129e8d9127677c4ccbe31641535b524df52749f9a7d6fd5d7b945int, 0x4f44fff3b08bf73d8553c39679e2e758d10bbaf68c1b6a07c1d2bc5fe8fbb6bcint, 0x3b710c82ec270d995631c4d92064948b610e9060568b3afa92cdb647a0ff15ddint);
    let e = lemma_chain_multiply(p, g, e, 0x3b710c82ec270d995631c4d92064948b610e9060568b3afa92cdb647a0ff15ddint, 0x1c30fb77e597f0399c30d1abd959f6e8251e83147652645d80f15e85cb7faa9bint, 0x189fc5a01012f33fa4502bc643280dab47139519ccb899b9cced1dc06303523fint);
    let e = lemma_chain_square(p, g, e, 0x189fc5a01012f33fa4502bc643280dab47139519ccb899b9cced1dc06303523fint, 0x53af8c77b794fd6c7276721fb4ae715c2ef77066ea1f1b9d5e3edae3d75675fint, 0x73d055b9d7c0105cb41f5583ba000c4d6534f2b5af75329f8420afd884710422int);
    let e = lemma_chain_square(p, g, e, 0x73d055b9d7c0105cb41f5583ba000c4d6534f2b5af75329f8420afd884710422int, 0x73b30b8ab8293436efe55f7f710cb77e7b55318082deff1269e8a6d8fa928459int, 0x5d052b8ce982f393ac17dcc8b410607225e14db4e751ff11f00c1107bb82902bint);
    let e = lemma_chain_multiply(p, g, e, 0x5d052b8ce982f393ac17dcc8b410607225e14db4e751ff11f00c1107bb82902bint, 0x2c1ddc49d3616eedfc9121a5ea4076fae21930177efa6ec3770adc27ebe2bfa9int, 0x9da826603971c1210582aafff68664b8e823a9cd96e63eaae0f56c7f94dec8dint);
    let e = lemma_chain_square(p, g, e, 0x9da826603971c1210582aafff68664b8e823a9cd96e63eaae0f56c7f94dec8dint, 0xd667d1d76c5758a58845ceccb06f6151e8f42fbdebbe3fe7494a808669bb9dint, 0x521d30687fb9ddfa61c632278e492bdec98edf5ea1ea7808e8839e34eafc8a0cint);
    let e = lemma_chain_square(p, g, e, 0x521d30687fb9ddfa61c632278e492bdec98edf5ea1ea7808e8839e34eafc8a0cint, 0x3a29aad97ea12cdd1c3a6398586eb8d214b9f14c843cd51e8ce38dd686233e65int, 0x43032067c6455f396acb8d582c293dfa6a76ccb17e2321880a393aec7bedb22bint);
}

/// A power of a power of the root 7 modulo the prime `q`: the steps from the exponent
/// 0xa7751d82854
/// to the exponent
/// 0x14eea3b050aac42f14d9a6.
proof fn lemma_power_q_13_part_2(p: int, g: int)
    requires
        p == q(),
        g == 0x36fb34ca1cf1bdf3cfcae97d3d3292f63e19c2f2cf2ab065378f4171e23ad3a2int,
        pow_mod(g, 0xa7751d82854, p) == 0x43032067c6455f396acb8d582c293dfa6a76ccb17e2321880a393aec7bedb22bint,
    ensures
        pow_mod(g, 0x14eea3b050aac42f14d9a6nat, p) == 0x7e55526ed9aac088441536bdec83efc6c7ad979070579b3a14faa23a260b30bint,
{
    let e: nat = 0xa7751d82854;
    let e = lemma_chain_multiply(p, g, e, 0x43032067c6455f396acb8d582c293dfa6a76ccb17e2321880a393aec7bedb22bint, 0x1fc8274953c0bf7f89b610901723a21f85ee932751f933fea01fa9375932af03int, 0x4dc87b40a4eb31529bed06b9bf5047a3f18942b15a76739a4d04b4b650cf8133int);
    let e = lemma_chain_square(p, g, e, 0x4dc87b40a4eb31529bed06b9bf5047a3f18942b15a76739a4d04b4b650cf8133int, 0x3430742731a7993f5342663cd8ef5e675d08af5a979aa4c1d7a4e110ee95522dint, 0x11e5dfeaceecca315b86b9edd7d8925ead133ac69a10e3879cc6369223191dfcint);
    let e = lemma_chain_square(p, g, e, 0x11e5dfeaceecca315b86b9edd7d8925ead133ac69a10e3879cc6369223191dfcint, 0x2c362fa931a5cde566cc7d6a322c566efd460217ce2c596648c96e8a402eb56int, 0x404afbe71bca1ff2806b3e82b0f237ecc814e0d165673e106762b88722b824baint);
    let e = lemma_chain_multiply(p, g, e, 0x404afbe71bca1ff2806b3e82b0f237ecc814e0d165673e106762b88722b824baint, 0x1e7dfe87c2d827219fbb402d856e8a01955874f8734ee1139482fd1b5facd505int, 0x71d1bff40c517420c0274f24cbb4a9129ad9169764a099833f7fdd49e543b6afint);
    let e = lemma_chain_square(p, g, e, 0x71d1bff40c517420c0274f24cbb4a9129ad9169764a099833f7fdd49e543b6afint, 0x6fbfab085ef6b4064da40e8ee43558724de131cb49c8901a1210a8153667e0dbint, 0x3f526ed6d22b39e7352e35be3bda8cac457f357bf72e234ff53c552018f6ac6int);
    let e = lemma_chain_multiply(p, g, e, 0x3f526ed6d22b39e7352e35be3bda8cac457f357bf72e234ff53c552018f6ac6int, 0x1e081d349eef092b48abea92c0bc4249152d06ae84c6e79129e60d7161086ecint, 0x107218ea421a9a6f55c260ff830b8eab95949240e3fe25360510f96a188e3c60int);
    let e = lemma_chain_square(p, g, e, 0x107218ea421a9a6f55c260ff830b8eab95949240e3fe25360510f96a188e3c60int, 0x2553f7d68282f8a2718673ec54079c71081142dccac4b60a7bd0cbd2e03a33fint, 0x6f5367c5c07ce098e27c8efb94444b59f01895bcce1528fbdbde505adab980c1int);
    let e = lemma_chain_square(p, g, e, 0x6f5367c5c07ce098e27c8efb94444b59f01895bcce1528fbdbde505adab980c1int, 0x6ae7ef74448e66ea49d404d2bec3884405d642ecda6ec63ff0721f811f3fd5b7int, 0x3f0d99c739c3ec441e7be5571003b898984b051f7491da662951539dec73bbcaint);
    let e = lemma_chain_square(p, g, e, 0x3f0d99c739c3ec441e7be5571003b898984b051f7491da662951539dec73bbcaint, 0x224b60327500fe56c0ff00ad2b6c7195571f206928c44acfd800b60223dde879int, 0x47af914c3f571f4b0d6ecf4728b2d6aa62300137d25f00c5c1d01ac98d5ed2ebint);
    let e = lemma_chain_square(p, g, e, 0x47af914c3f571f4b0d6ecf4728b2d6aa62300137d25f00c5c1d01ac98d5ed2ebint, 0x2c53eee995dece6dc852064a0037a8b44bca263a5a6018ca3b3e455903e2efd2int, 0x34d54c85eb1ccde15e5ee0213831cb9acd548bfa520c85926c5532f56c7773e7int);
    let e = lemma_chain_multiply(p, g, e, 0x34d54c85eb1ccde15e5ee0213831cb9acd548bfa520c85926c5532f56c7773e7int, 0x190ea30a6f0b828a09e7bb88f28f1892a361631cea0f085bf528a8c7f9b33a32int, 0x170bd55d2315e5de51b85855a01e9bed40e802a731c1747d9501f0784ec182fcint);
    let e = lemma_chain_square(p, g, e, 0x170bd55d2315e5de51b85855a01e9bed40e802a731c1747d9501f0784ec182fcint, 0x494dec3be88037a64ae7762bf5abdc5bf44eaac4247fd691a918b31d29b1563int, 0x4115f6d18c8e66ec91d6f82e39c59aad20b576cc28210574d93f54898061d2adint);
    let e = lemma_chain_square(p, g, e, 0x4115f6d18c8e66ec91d6f82e39c59aad20b576cc28210574d93f54898061d2adint, 0x248a8c67bb84085dd524ac91a36d94ffe1c60e4da108d0c98bf45a1343bdc106int, 0x6fd7bc04ea6e5def59415a76544b212b2a10f002de105e818e46642b10bc87e3int);
    let e = lemma_chain_square(p, g, e, 0x6fd7bc04ea6e5def59415a76544b212b2a10f002de105e818e46642b10bc87e3int, 0x6be6ad1ebf40d904f2579fe0ca71d15475226c632765263c24f6b4ccc081eca7int, 0x6cbbd088861fe5545e6fa3c1a94912581285297c9dd11829aa4651f07d0746a2int);
    let e = lemma_chain_square(p, g, e, 0x6cbbd088861fe5545e6fa3c1a94912581285297c9dd11829aa4651f07d0746a2int, 0x65fc4865e8b78beabb65f8be6846eac15964fca089bdf0cfef3d0589577ee91eint, 0x2998d0bbc8f662574d65d204b334c94a2dd8bfcb556508e7640f283ccda1566int);
    let e = lemma_chain_square(p, g, e, 0x2998d0bbc8f662574d65d204b334c94a2dd8bfcb556508e7640f283ccda1566int, 0xeecf6faabaeebf6280d7a3e0ce45ec4e054ddec4f09096355e56a3f4f71b7int, 0x10a28b8da71a70926a69a0aa114438db04709c32e13af32c328c9693c43272edint);
    let e = lemma_chain_multiply(p, g, e, 0x10a28b8da71a70926a69a0aa114438db04709c32e13af32c328c9693c43272edint, 0x7e3b2b738567beaba63ff71ffa9424d75d944bcacefed3c05e301a3a8ee9427int, 0x729db8c70438a58b289baea20a6b889d94a5855b1a18376397a38b3b57697cd3int);
    let e = lemma_chain_square(p, g, e, 0x729db8c70438a58b289baea20a6b889d94a5855b1a18376397a38b3b57697cd3int, 0x715197ad8744dba3132cc5b66a8dd9b28d81fed9b82449be7e9f569d1d46fb51int, 0x4cc5003f8fe8ea1aee1d2b733339998c266ee2eb254561a5735f2e44eeac1a98int);
    let e = lemma_chain_square(p, g, e, 0x4cc5003f8fe8ea1aee1d2b733339998c266ee2eb254561a5735f2e44eeac1a98int, 0x32d6856259eafc5876abafeae8bd2de1baf7a0b3780f0ad1588b6f22f7618b12int, 0x3ab3ed7624c99f635c9545c7dda6379ce7e6321c89ed8b496f2751d567a1af2eint);
    let e = lemma_chain_multiply(p, g, e, 0x3ab3ed7624c99f635c9545c7dda6379ce7e6321c89ed8b496f2751d567a1af2eint, 0x1bd749afb75df0333fa4f7e1b734a836b936e1d0245d38275f52d302730f36b9int, 0x4866d0837e418653a23697ac1e6913919cd613c2af10916d4b7249c2b1108e63int);
    let e = lemma_chain_square(p, g, e, 0x4866d0837e418653a23697ac1e6913919cd613c2af10916d4b7249c2b1108e63int, 0x2d37b0e780062dcbd8ad6312daf66aa5898d8d1648322ff97bedefdd31b6c4fdint, 0x511adf421432d3eda22ce6d989b869893240e0bfcacd0267d0b8ff22cfdb354cint);
    let e = lemma_chain_multiply(p, g, e, 0x511adf421432d3eda22ce6d989b869893240e0bfcacd0267d0b8ff22cfdb354cint, 0x26773278fb6cb6103f8f8cc2cc8ea52face8db6f4e356df53228f20e06cea31eint, 0x1ab54166efb2b001e5def03ca40bfe5be1714fff7102011e6f2245ac5a0ebafaint);
    let e = lemma_chain_square(p, g, e, 0x1ab54166efb2b001e5def03ca40bfe5be1714fff7102011e6f2245ac5a0ebafaint, 0x62731ab33fae4f1e7c0105d4ace00aa3ef87ce4c13d432a5bc7f73946171a7cint, 0x17bf1529cad90d62742e66c39d671d365355927babbe13c674fb83837dd121a8int);
    let e = lemma_chain_multiply(p, g, e, 0x17bf1529cad90d62742e66c39d671d365355927babbe13c674fb83837dd121a8int, 0xb431fa12a80971534d207f029148558210e06eca2fbf0e2abd5c8e8bffeb58cint, 0x491aeed25c78b517866888534f414063d1b9bd52af9e4bfad1482acc2d260ec4int);
    let e = lemma_chain_square(p, g, e, 0x491aeed25c78b517866888534f414063d1b9bd52af9e4bfad1482acc2d260ec4int, 0x2e19c40276952dcf4d55dadbd9ad0a0bca9c93e14f16a7503b07511fca5e18e3int, 0x6690c7a72d6e696ef63f5f83eea935234d4d9a183fc808af5f0d06fc80abed2dint);
    let e = lemma_chain_multiply(p, g, e, 0x6690c7a72d6e696ef63f5f83eea935234d4d9a183fc808af5f0d06fc80abed2dint, 0x30a4ca44a9442e533ee375e66b3b2e8348fd8ae0db3b4898a5a0efff00cef0d0int, 0x46817d4c4cdc7e4b023b2019b9da6471e1388e6f01297086573a96da96ab3caaint);
    let e = lemma_chain_square(p, g, e, 0x46817d4c4cdc7e4b023b2019b9da6471e1388e6f01297086573a96da96ab3caaint, 0x2ae16b8727ea23a48e2f0c39f9f83b36aba084ce23e51722bf64a594930ea346int, 0x24b806c28ebed09a7e78306c28b985c6b94914b6cb92d7b87c19a4dabe6d7d9eint);
    let e = lemma_chain_square(p, g, e, 0x24b806c28ebed09a7e78306c28b985c6b94914b6cb92d7b87c19a4dabe6d7d9eint, 0xba1574f345b888260d9113ce0a4108c97bad7852833f8182ff2909c9d3b0cc8int, 0x2e261da95f62c229586c5d42ebfdb6ce48fec4238de9fe652f37928e20f4a0bcint);
    let e = lemma_chain_square(p, g, e, 0x2e261da95f62c229586c5d42ebfdb6ce48fec4238de9fe652f37928e20f4a0bcint, 0x125efa35b2b7a7ec451696587897d558f4bcd2f7b032aa5ccdfea070f0c89e73int, 0x228bf25a63cae5203442303c0db68ea8e365a6b5cdcf8d80d688d083da82eb9dint);
    let e = lemma_chain_square(p, g, e, 0x228bf25a63cae5203442303c0db68ea8e365a6b5cdcf8d80d688d083da82eb9dint, 0xa4b7f74db87ee6229d6055cb7e32e5963ca63d3559d0753383b6b3ec63a2302int, 0xf6bca80e892c248ae58f67f01a3d46f0879f84de5e5f1f07c2e36acc2137b47int);
    let e = lemma_chain_multiply(p, g, e, 0xf6bca80e892c248ae58f67f01a3d46f0879f84de5e5f1f07c2e36acc2137b47int, 0x75051213d1dca3a991436f32a000bd83d6cf36a21befa5dce9663a50f2e72fdint, 0x5b267c09e332b38b098d93997b8265610ea5a2d3de473a738defa9366bd714f1int);
    let e = lemma_chain_square(p, g, e, 0x5b267c09e332b38b098d93997b8265610ea5a2d3de473a738defa9366bd714f1int, 0x47ab13789c0296e9d4a40efb98162042359fdc0b9be66915765612226a40673dint, 0x2e34cbe30b4566c0f7501ffb3bb2a0989410bf3236b9576e2db8dcfc3a4423a4int);
    let e = lemma_chain_square(p, g, e, 0x2e34cbe30b4566c0f7501ffb3bb2a0989410bf3236b9576e2db8dcfc3a4423a4int, 0x126aac39f978ff86dbd099ae9470eef83a22c9d32f4ded0b746d740193f07d3bint, 0x151c5b308c1ca9c5c5b1bc52dc7d03ace4fa5f5f92271c43e3ee0662b025c3d5int);
    let e = lemma_chain_multiply(p, g, e, 0x151c5b308c1ca9c5c5b1bc52dc7d03ace4fa5f5f92271c43e3ee0662b025c3d5int, 0xa031f11dc5f70049f358aa69453af47541d37524a70e1edf8ef01b3bf13f45eint, 0x3a639e9fe92c93aef7bacd06dba7b49d75c1c38ddc44ff05424519c2417c876cint);
    let e = lemma_chain_square(p, g, e, 0x3a639e9fe92c93aef7bacd06dba7b49d75c1c38ddc44ff05424519c2417c876cint, 0x1d689ae3d36aa9b1ee6f4738f4a601aa8c59f6af30d34a562c23c8ed4d9b1650int, 0x2193098ad735f56d6b3c816f95c50adc7d5628d3fea04e4575a01e6b02a7ff40int);
    let e = lemma_chain_square(p, g, e, 0x2193098ad735f56d6b3c816f95c50adc7d5628d3fea04e4575a01e6b02a7ff40int, 0x9b93c42b7d1c823ae247b388408a52c9ce5a47673fa1bc68aa54fe5eb942494int, 0x6ca290d01045a29d4c317ed0b2a05f3361008f3cc62ae3dd8938426a186c6b6cint);
    let e = lemma_chain_square(p, g, e, 0x6ca290d01045a29d4c317ed0b2a05f3361008f3cc62ae3dd8938426a186c6b6cint, 0x65ccf0c09225131eaa66981ee5ceed9e0741306b190c9b2f3c09a060fdace809int, 0x36bb56e0aa12807e0d34f8b99659567d6f8781893c454cab7c646f2712868d87int);
    let e = lemma_chain_multiply(p, g, e, 0x36bb56e0aa12807e0d34f8b99659567d6f8781893c454cab7c646f2712868d87int, 0x19f526aab3f9ec5928b14bc056c4317966f9631614a04d4b23ff662edb52ad3eint, 0x72a1b073e80809385015c045e9578f8fe10472f0a98716d64a708d12030f2730int);
    let e = lemma_chain_square(p, g, e, 0x72a1b073e80809385015c045e9578f8fe10472f0a98716d64a708d12030f2730int, 0x7159702bb68941158e058b4ab81518169fcc18bf6318e7e49b83d1abc1e3ba1eint, 0x6d7115d3b20c6fc1cfaed2f1a1a7e2079fabaff72b9de8b24fb5a702fbbbeee2int);
    let e = lemma_chain_multiply(p, g, e, 0x6d7115d3b20c6fc1cfaed2f1a1a7e2079fabaff72b9de8b24fb5a702fbbbeee2int, 0x33e7a636b582319037b68710623bc4a3333ff4aa2126d7b9181a43e91ad1fb0bint, 0x25ef6dd50fd3c4c7e8a052abb94452c23afeca9526eb300f7915a1babb3375f9int);
    let e = lemma_chain_square(p, g, e, 0x25ef6dd50fd3c4c7e8a052abb94452c23afeca9526eb300f7915a1babb3375f9int, 0xc69dfd4a9d0c8da81baac3e2ba6135e3a7ba5a444ec3ac85806c18496feab19int, 0x2976ba2f21fa0846ad2022801c40650a11f3873dadff2ca545e0c21a6694e118int);
    let e = lemma_chain_square(p, g, e, 0x2976ba2f21fa0846ad2022801c40650a11f3873dadff2ca545e0c21a6694e118int, 0xed48a8d6b1baff8e422b6fe4567bd35f8da8e3a384a73e2100a6e65f89d2b8bint, 0x699298be3538d3f682754634e1337fe3d0ec72d36f9367126713cff9310e06b5int);
    let e = lemma_chain_multiply(p, g, e, 0x699298be3538d3f682754634e1337fe3d0ec72d36f9367126713cff9310e06b5int, 0x3211e4069d086206537376d061d5e58e00d7ce86669d5308f2b1843b3fe6e875int, 0x686ab55e3d75250024200b9b109dcb10ba1a2c4504e1dc7bd0eccd57a9828515int);
    let e = lemma_chain_square(p, g, e, 0x686ab55e3d75250024200b9b109dcb10ba1a2c4504e1dc7bd0eccd57a9828515int, 0x5e0c63f2dedfa0013ddd7540a04a58a9a23004413cfc0ce51ed2c69526032d57int, 0x63e5763d098a47360fca0626c171e9e748dbe4c8bf18c19c36001349027fa662int);
    let e = lemma_chain_multiply(p, g, e, 0x63e5763d098a47360fca0626c171e9e748dbe4c8bf18c19c36001349027fa662int, 0x2f60b694a386989dd3bb6a0da9766a43da59dbe5c43979cab4babbe9d1dd3155int, 0x4070457a6c9018507bc69345d482a5c2396999ae5ab05d6eae286bbe2f40deafint);
    let e = lemma_chain_square(p, g, e, 0x4070457a6c9018507bc69345d482a5c2396999ae5ab05d6eae286bbe2f40deafint, 0x23d16c60d1b4dd2c09428c790b24ef559b7ecd03410935a4c37ef7a65b391ae6int, 0x488c1172184a44dfce27ed455e097da560c5dd86e8fe35117993db37fffae0bbint);
    let e = lemma_chain_square(p, g, e, 0x488c1172184a44dfce27ed455e097da560c5dd86e8fe35117993db37fffae0bbint, 0x2d6645393e39dd0f1e6a8079db273580c8efbfcbf93d2184712c3e3dfeac7684int, 0x594c2757f1d6b0971460806de265fddbd1e199389a8368d9a4847c303dd75215int);
    let e = lemma_chain_square(p, g, e, 0x594c2757f1d6b0971460806de265fddbd1e199389a8368d9a4847c303dd75215int, 0x44c8c219aae1cfff67bc0a39185c9b113ba3f0e46bb7cd1915ca115d1223b330int, 0x5a58c602a8f9b71c1e7528a288570cbff6f1e1c97aa35b45613513ebe973c289int);
    let e = lemma_chain_multiply(p, g, e, 0x5a58c602a8f9b71c1e7528a288570cbff6f1e1c97aa35b45613513ebe973c289int, 0x2ad945a4964fe85ec646e4b74c53413b1bf181fc8ce095cb1066dcd6ccac72cfint, 0x24912ac3447a2855dbf93f93b43295320979bc8fe01106850d7601c5cf592e3int);
    let e = lemma_chain_square(p, g, e, 0x24912ac3447a2855dbf93f93b43295320979bc8fe01106850d7601c5cf592e3int, 0xb88c686f4ba219be434bd27d20093b8a89c10cfe844615fd8728cd31ed4bdint, 0x583bd7c6f0378b86d5d3cf6b09a2574e676ff5091991b87fb23430fdcfa6e08cint);
    let e = lemma_chain_multiply(p, g, e, 0x583bd7c6f0378b86d5d3cf6b09a2574e676ff5091991b87fb23430fdcfa6e08cint, 0x29d8b9a3a2b3c909ad9654e35e319e5a76f4e597aa2a713d215acdde3539bc8fint, 0x53510000cbb7d9dcfe7a8a0e3af6159f3be7e55db859ea6691fa294b352bc009int);
    let e = lemma_chain_square(p, g, e, 0x53510000cbb7d9dcfe7a8a0e3af6159f3be7e55db859ea6691fa294b352bc009int, 0x3be0ea57b1d6b37fda1beffc8aff253967ac4506c4141c4734070c5dd4b84981int, 0x49adc3e37a481a4a6d96ab0f9f53256e6a18d7a4d3aeee11a75c966f85b36d0int);
    let e = lemma_chain_square(p, g, e, 0x49adc3e37a481a4a6d96ab0f9f53256e6a18d7a4d3aeee11a75c966f85b36d0int, 0x2ed3add55b169919b9304a99fad43094812f99c7094f5ad25e6fe8680f2024int, 0x5bf688422e9fc36e0b87d87b420aa95446bd06905a4d03e0583d8ae9b8d48dcint);
    let e = lemma_chain_multiply(p, g, e, 0x5bf688422e9fc36e0b87d87b420aa95446bd06905a4d03e0583d8ae9b8d48dcint, 0x2b9d8155e5e833f229a535eae616f3f8e7066124b199f9197a4232afbb7a7e1int, 0x646c2c3c422971fbebfd847008f73ac04415f529bfa2125f49bd8adaa095c757int);
    let e = lemma_chain_square(p, g, e, 0x646c2c3c422971fbebfd847008f73ac04415f529bfa2125f49bd8adaa095c757int, 0x56fd9f68f1e287471744e1512892c8ce52ea40d2b0a126a164670c156ba3285bint, 0x5e5d632c7f6c4078c36db1a479b79824388ee0ac2aa381105a6ef93ffadb3736int);
    let e = lemma_chain_square(p, g, e, 0x5e5d632c7f6c4078c36db1a479b79824388ee0ac2aa381105a6ef93ffadb3736int, 0x4ccfee9ee488a235429e704f38a91cc163449346c8ec6ab5f4d06d1e6347d9a0int, 0x19eff0dadd1416b98a3f0dc905019efcd301fe91e210ebf9b7fc88a2970465c4int);
    let e = lemma_chain_square(p, g, e, 0x19eff0dadd1416b98a3f0dc905019efcd301fe91e210ebf9b7fc88a2970465c4int, 0x5cd96f1c754dd7d3876be4fb9a58ec67142659b69b7cd0bf256a73fd4950277int, 0x20d95fd2af72aed50799cc0c9f821d1ca2c4b2543411a9d19ae59767b9ff3b99int);
    let e = lemma_chain_multiply(p, g, e, 0x20d95fd2af72aed50799cc0c9f821d1ca2c4b2543411a9d19ae59767b9ff3b99int, 0xf944f50ae24c0d76a2471c05487b05027066434927cae59d0f49e27a02208f8int, 0x48b1878fae593c592596ed1945bebccfdce4d55a9b277383013756bb042ac8daint);
    let e = lemma_chain_square(p, g, e, 0x48b1878fae593c592596ed1945bebccfdce4d55a9b277383013756bb042ac8daint, 0x2d95342efc075e04ce1a9081cd08689fbc5c41d13490545822625b12788e05a5int, 0x69e4dcc25424b27f1ba663dee48efd04581f4bc522127adb2d5cee7bdc8f53ffint);
    let e = lemma_chain_multiply(p, g, e, 0x69e4dcc25424b27f1ba663dee48efd04581f4bc522127adb2d5cee7bdc8f53ffint, 0x3238e8263a67d7ce416cea47f2a3c5f79b773e034998253e285ecdd7c255ebe8int, 0x48fb4df451f9b09d05f431e7c3d4802504a6ea10b0151592bc25726b185e6876int);
    let e = lemma_chain_square(p, g, e, 0x48fb4df451f9b09d05f431e7c3d4802504a6ea10b0151592bc25726b185e6876int, 0x2df1e8c20c60fa9548e34aa13f206ad8e38febb4eaebadb6b5f9fa405ee76359int, 0x7e55526ed9aac088441536bdec83efc6c7ad979070579b3a14faa23a260b30bint);
}

/// A power of a power of the root 7 modulo the prime `q`.
proof fn lemma_power_q_13()
    ensures
        pow_mod(0x36fb34ca1cf1bdf3cfcae97d3d3292f63e19c2f2cf2ab065378f4171e23ad3a2int, 0x14eea3b050aac42f14d9a6nat, q()) == 0x7e55526ed9aac088441536bdec83efc6c7ad979070579b3a14faa23a260b30bint,
{
    let p = q();
    let g = 0x36fb34ca1cf1bdf3cfcae97d3d3292f63e19c2f2cf2ab065378f4171e23ad3a2int;
    lemma_chain_start(p, g);
    lemma_power_q_13_part_1(p, g);
    lemma_power_q_13_part_2(p, g);
}

/// A power of a power of the root 7 modulo the prime `q`: the steps from the exponent
/// 0
/// to the exponent
/// 0x7cb0980000009.
proof fn lemma_power_q_14_part_1(p: int, g: int)
    requires
        p == q(),
        g == 0x7e55526ed9aac088441536bdec83efc6c7ad979070579b3a14faa23a260b30bint,
        pow_mod(g, 0, p) == 1,
    ensures
        pow_mod(g, 0x7cb0980000009, p) == 0x1c141ce416f2cc6376fbb0f33ab1f5505a36886c29543cbec9ac2f6df5511d1aint,
{
    let e: nat = 0;
    let e = lemma_chain_square(p, g, e, 1, 0, 1);
    let e = lemma_chain_multiply(p, g, e, 1, 0, 0x7e55526ed9aac088441536bdec83efc6c7ad979070579b3a14faa23a260b30bint);
    let e = lemma_chain_square(p, g, e, 0x7e55526ed9aac088441536bdec83efc6c7ad979070579b3a14faa23a260b30bint, 0x89ac1042a6d452092f7b53a622fe0af24a69d6b1b9ec71b9e1ac22c995de67int, 0xbe8200d1ae3a148b533ce67f62e55b2010a1c5a0cd692faa1b84a66e7e28412int);
    let e = lemma_chain_multiply(p, g, e, 0xbe8200d1ae3a148b533ce67f62e55b2010a1c5a0cd692faa1b84a66e7e28412int, 0xcf9b460d67063a68b3f6dc6684c4b5818748df4df871adcc83b7c9e67422e9int, 0x2282d6c359a8b6ca8b3d457aff725042d4d9a1b1adf0e1a9216fe0a95d601fddint);
    let e = lemma_chain_square(p, g, e, 0x2282d6c359a8b6ca8b3d457aff725042d4d9a1b1adf0e1a9216fe0a95d601fddint, 0xa46128b1f65b03ddaf142f280fbc1bc15a1ffaa0928742fe3bde7c75d93ae4eint, 0x176724477213119c2954bd23cdc90aabc5f7d66075883ab6b837938f1e23967bint);
    let e = lemma_chain_multiply(p, g, e, 0x176724477213119c2954bd23cdc90aabc5f7d66075883ab6b837938f1e23967bint, 0x1980ddddc9f25b51357af73927bb60768af4748a25e0b82297fee4331e7e4dfint, 0x5ca7a5c08996b8911c62763e7ce80998b4645d7f4a66cb5417673383ff7936aint);
    let e = lemma_chain_square(p, g, e, 0x5ca7a5c08996b8911c62763e7ce80998b4645d7f4a66cb5417673383ff7936aint, 0x4a0dc1315de7a73d9e4036f94654f646fca201220e6946dc0878b928ef678bint, 0x30e6d16fa7b36539c2c1eb7645decfd91d072b7c3aebadcd815c732dce7f8059int);
    let e = lemma_chain_multiply(p, g, e, 0x30e6d16fa7b36539c2c1eb7645decfd91d072b7c3aebadcd815c732dce7f8059int, 0x354a6c7d567f868dafc87c791c0d2a46a41d33ded754145656e0753e75fb940int, 0x6cc4e0bccd45420f1ce1fef82882e31189b303c4fc888ed45e6e717a92390593int);
    let e = lemma_chain_square(p, g, e, 0x6cc4e0bccd45420f1ce1fef82882e31189b303c4fc888ed45e6e717a92390593int, 0x660d498643beabbb168de6e30e46231e38193a00be56dc2a39151fc61fbfe661int, 0x4cd31cbc23f7808b54fadf7c10c190cfe0c5c9bff04a9653adc8f3c607d52c08int);
    let e = lemma_chain_multiply(p, g, e, 0x4cd31cbc23f7808b54fadf7c10c190cfe0c5c9bff04a9653adc8f3c607d52c08int, 0x53b84d18ff217d36546559a23306cbc6dd832942b88cb4a6842108c680a447cint, 0x3c3001bd6825f20e5b2950a9cec11b81e001b758943429d0f4f04fd18ee837dcint);
    let e = lemma_chain_square(p, g, e, 0x3c3001bd6825f20e5b2950a9cec11b81e001b758943429d0f4f04fd18ee837dcint, 0x1f3f8271bcc467e14cff9fe899f8fa51b5d6a48199a050aba0ad967554d7e637int, 0x1771e04d3bf5ed8624afbdd635c1bb3c89b91f6578704522ca15bd9706185ed9int);
    let e = lemma_chain_square(p, g, e, 0x1771e04d3bf5ed8624afbdd635c1bb3c89b91f6578704522ca15bd9706185ed9int, 0x4bdcaeac08322f6e45130fc3373117ff7634c7b0a215bd9b804748cd681882fint, 0x4c537de2ff4873062db3ff0ec260b7e60b589353419b64c4f08886441528bc2int);
    let e = lemma_chain_square(p, g, e, 0x4c537de2ff4873062db3ff0ec260b7e60b589353419b64c4f08886441528bc2int, 0x32409ebb7b680a3eedc13a21e0ea0a2fd16d2757304ff26b37fe784ef9f657int, 0x64733c3f0b178ebeae684d7ed2b3b7fd59b73de96e06e82229884d05099a48adint);
    let e = lemma_chain_multiply(p, g, e, 0x64733c3f0b178ebeae684d7ed2b3b7fd59b73de96e06e82229884d05099a48adint, 0x6d774372f20ecdd66b354c3358835974d2348bc85fb941c82e079130dbc2537int, 0x342a57a9db78fa7a703a97de48e5bbcfb7d5765edb5e6ae2b2468e91f795f138int);
    let e = lemma_chain_square(p, g, e, 0x342a57a9db78fa7a703a97de48e5bbcfb7d5765edb5e6ae2b2468e91f795f138int, 0x17792eefdee1362f7a9c3f0ec5ea5b6d10804c2f288a8290c5889d265979ad5cint, 0x5fe22e932ec7f8889b4793dfaa8cbc4dd241b4a920092a281d7920f26500cee4int);
    let e = lemma_chain_square(p, g, e, 0x5fe22e932ec7f8889b4793dfaa8cbc4dd241b4a920092a281d7920f26500cee4int, 0x4f4dfa2ae7750f914de96ca8d1a2f0e6434571177dab3000d2cdd27a6b9f4caaint, 0x1e33b447ce2b2780780a3fc067bef7a9332b32718ef776ca2573448023946e66int);
    let e = lemma_chain_multiply(p, g, e, 0x1e33b447ce2b2780780a3fc067bef7a9332b32718ef776ca2573448023946e66int, 0x20e9a6849aa2177148b931d28ec92218dc27834c73812097b31a96e8f5a704aint, 0x34a6cdb764d932602227b5c2cd3ee3cb4ea11819a6e00fd4b5a86ab5b377a018int);
    let e = lemma_chain_square(p, g, e, 0x34a6cdb764d932602227b5c2cd3ee3cb4ea11819a6e00fd4b5a86ab5b377a018int, 0x17e9b71d58ac89175c0fca3bdd9cfe038c185e37fbcf0be222b35f244d23c4a8int, 0x432ce152f8e98950b7bf7dc81384db1959b744b6da4d5ea48f7d293b7d4a3d98int);
    let e = lemma_chain_multiply(p, g, e, 0x432ce152f8e98950b7bf7dc81384db1959b744b6da4d5ea48f7d293b7d4a3d98int, 0x49345b868f8a2ed912d5a8db5b84b733a627fb471b8fa32d22f76b9949a80e1int, 0x11c5b291f9119cc0e3e8bc9f186d49d40a3bfbeb7828ae18942dbae9ffa76ca7int);
    let e = lemma_chain_square(p, g, e, 0x11c5b291f9119cc0e3e8bc9f186d49d40a3bfbeb7828ae18942dbae9ffa76ca7int, 0x2b97c6a0bfb8afbf8323ea0d85c21dc22df5f7936aedb8cd408a4841039e5d3int, 0x3b76f2d2f29bf3d9d91d22aac62e143496b6c837843f91fa2edcad4091c56f1eint);
    let e = lemma_chain_square(p, g, e, 0x3b76f2d2f29bf3d9d91d22aac62e143496b6c837843f91fa2edcad4091c56f1eint, 0x1e8081c1effda019a7a7d6fce37197712c7a0ca8c2f483e53755ff9137512b75int, 0x2934fbd4a1fa1ae741fa9e4639e315f6ea00cb9345dd724cd1728707f915dc0fint);
    let e = lemma_chain_square(p, g, e, 0x2934fbd4a1fa1ae741fa9e4639e315f6ea00cb9345dd724cd1728707f915dc0fint, 0xea5a88024669efa0673c77dbbe0eed94a6428aebf2e6e4701b944cc507ea143int, 0x36173fdd5e5972aa63383eef7c153a5430e4c48e47825a6d69c6bf3bb521279eint);
    let e = lemma_chain_square(p, g, e, 0x36173fdd5e5972aa63383eef7c153a5430e4c48e47825a6d69c6bf3bb521279eint, 0x193cf75b2e74adc6cbcdaa3912634d942e50450c982cf0fd25a0ac68d6063e1dint, 0x2bf2b447665812f6343ae789108a5acc417abd7169bbea120b5b7ed8d2d74767int);
    let e = lemma_chain_square(p, g, e, 0x2bf2b447665812f6343ae789108a5acc417abd7169bbea120b5b7ed8d2d74767int, 0x10a91b31e72e63362e2987ed2b39fcef098721d9d03c9fdba2f3bc0a083651dcint, 0x6cf50f0a619d19338a7b0aecc9c6dae50a4cbd7d0ba140e665b45dcff6b5f995int);
    let e = lemma_chain_multiply(p, g, e, 0x6cf50f0a619d19338a7b0aecc9c6dae50a4cbd7d0ba140e665b45dcff6b5f995int, 0x76bc8dc6047916602e6e9cfb27522704a06f76a98f23daabf7f0678ae03b26eint, 0x1f719b612bdc6d7eb6c2865289fb5b116905a7e2ac68ed17f91daf30b3135f9int);
    let e = lemma_chain_square(p, g, e, 0x1f719b612bdc6d7eb6c2865289fb5b116905a7e2ac68ed17f91daf30b3135f9int, 0x8875500b97f68eaaf7c2995e91d7c4abd166297b450f1383911f70198bc29int, 0x38fc097517d348629c32b99000e51a1a00d4e9342de774db0b477901191a5008int);
    let e = lemma_chain_square(p, g, e, 0x38fc097517d348629c32b99000e51a1a00d4e9342de774db0b477901191a5008int, 0x1c02be2a181e6e1d1b807f41a1a484e63f548b76844580e25446df43a189a95cint, 0x40b5fbdb9d6f73bf850aea60c9726b9d6859bd7bc5585ea27605207e491b56e4int);
    let e = lemma_chain_square(p, g, e, 0x40b5fbdb9d6f73bf850aea60c9726b9d6859bd7bc5585ea27605207e491b56e4int, 0x241f160e701248954902e44ecd86ee74671e456c86ce64372ae68597ed503a2bint, 0x12237e6765b18278e586165c9b645cb2c303c06b24742fda38d4d77c8c45c0e5int);
    let e = lemma_chain_multiply(p, g, e, 0x12237e6765b18278e586165c9b645cb2c303c06b24742fda38d4d77c8c45c0e5int, 0x13c443480056f41027f0da7c825d8bd0cce3aed931b9fc832e18e197a5b0b08int, 0x211c8543821bcae9b1bda6ad353d7d244d86329554be2dc7361004e592645dcfint);
    let e = lemma_chain_square(p, g, e, 0x211c8543821bcae9b1bda6ad353d7d244d86329554be2dc7361004e592645dcfint, 0x9750f8a07483e8a1472a802ae65fa9848aa8482489127078260798ab4ae8cc1int, 0x1d5b24cbd707c39066f032049e27175b5b0ab12ebc3fbfa79e6301e5d36980a0int);
    let e = lemma_chain_multiply(p, g, e, 0x1d5b24cbd707c39066f032049e27175b5b0ab12ebc3fbfa79e6301e5d36980a0int, 0x1ffda727b6ef130e51fde8219fc476fb6b2cd5e71a6ff6086c58a784eafe295int, 0x514eafdd843316aab637575bf160879f368c4751a8be66173eae00a507c8844bint);
    let e = lemma_chain_square(p, g, e, 0x514eafdd843316aab637575bf160879f368c4751a8be66173eae00a507c8844bint, 0x390690f8dece709e03ebbe5c488d7b9a91a9fba3803a517c4ed64812780bf482int, 0x48d4c6805e2d3de615a0a19098168e5517803085b2b0db9d5be0c9689b817977int);
    let e = lemma_chain_square(p, g, e, 0x48d4c6805e2d3de615a0a19098168e5517803085b2b0db9d5be0c9689b817977int, 0x2dc172a9fe25523f5026129efc484836a710202f138b09dc871f1af1bf95ec2cint, 0x365a19aaa14fd62f48d3108658c73240dfb8fbf360f661166b1c6a7bfdf9c925int);
    let e = lemma_chain_square(p, g, e, 0x365a19aaa14fd62f48d3108658c73240dfb8fbf360f661166b1c6a7bfdf9c925int, 0x197b801c0adfc5591b8a9988a7529d4bc3ed9c3f3a9dbc6db7c0f963fb3a8025int, 0x1e2ff3fe4afd8904c04f0bee123a584e187fd269d4cc54a116231f9b0eca9f34int);
    let e = lemma_chain_square(p, g, e, 0x1e2ff3fe4afd8904c04f0bee123a584e187fd269d4cc54a116231f9b0eca9f34int, 0x7dc54b5307eefd42cf230a573824920b23cc77c3c44c2b973804fff202f1477int, 0x1101834b0cf730f1d7abd4dd530b9d81a1b706e6520c076921acef3930e28e19int);
    let e = lemma_chain_square(p, g, e, 0x1101834b0cf730f1d7abd4dd530b9d81a1b706e6520c076921acef3930e28e19int, 0x27ea1937d2fe58d55adfe6960d6cf9d77ab72fff81eaf495251674afa6e4f35int, 0x1c5b312cfe0380b62565e2d3432793a0569d66193589d8d7df409ad498956f3cint);
    let e = lemma_chain_square(p, g, e, 0x1c5b312cfe0380b62565e2d3432793a0569d66193589d8d7df409ad498956f3cint, 0x6ef9b91457b6851d467b67572a836e0d5664f0f2e0cce2de2daf4c65b186f6eint, 0x59a0e99b395cd01bea686adf34aedb6f4d64567ad6a3f717a83b1599114a6a2int);
    let e = lemma_chain_square(p, g, e, 0x59a0e99b395cd01bea686adf34aedb6f4d64567ad6a3f717a83b1599114a6a2int, 0x454b939eb4855ef774412324a9958e57d3d187c2b59cf54b083d61c72b0cafint, 0x3bbbd4a7e6ee9fa1d9f3122e995051229e8419747b82c4092eef165f329b71d5int);
    let e = lemma_chain_square(p, g, e, 0x3bbbd4a7e6ee9fa1d9f3122e995051229e8419747b82c4092eef165f329b71d5int, 0x1ec754fddf3ebce372fd7cc50dd51b19dbd7a569044097032c2c0b341ccec1e6int, 0x567694cb0fa7cdf10e348ac9b8e61aca3f448a2e584c92515948e5a221bcf953int);
    let e = lemma_chain_square(p, g, e, 0x567694cb0fa7cdf10e348ac9b8e61aca3f448a2e584c92515948e5a221bcf953int, 0x407cb4f988438bfb1ae7e9e5ab8764e66e1bdcdb9d41c9eae869e4643dd0ee1cint, 0x48058701141db3d8482e79fdf3bdb4fc2112997d038341ce17c3588a4ce9a2cdint);
    let e = lemma_chain_square(p, g, e, 0x48058701141db3d8482e79fdf3bdb4fc2112997d038341ce17c3588a4ce9a2cdint, 0x2cbe7dafdbc32bb2b0b79de3be78d811e4367966c67f6ef8952b527248f9664fint, 0x4369a3e71d27820374cb2cd12ff126803369988af71d887b310816c42fb8b1daint);
    let e = lemma_chain_square(p, g, e, 0x4369a3e71d27820374cb2cd12ff126803369988af71d887b310816c42fb8b1daint, 0x27335df63696d6a3644b297f1fd3573726ed1a425c7f635c2cc8e325b924a8c1int, 0x27420f735c08070a7cbe87e979527efa2908b40246af5233f842e9f977ca84e3int);
    let e = lemma_chain_square(p, g, e, 0x27420f735c08070a7cbe87e979527efa2908b40246af5233f842e9f977ca84e3int, 0xd4b5bef5e21fe0c16378c52fcbe05dd1aa676f52452b622e4647f043c23c5d1int, 0x6dfc8b46f814f1b1adda7cfe18db29b3191e0f77c97f063192b4e623c9131b78int);
    let e = lemma_chain_square(p, g, e, 0x6dfc8b46f814f1b1adda7cfe18db29b3191e0f77c97f063192b4e623c9131b78int, 0x685965e3ecb2275b53fd97189646646da4e5d3747d31daf2cf82e3480ae800b9int, 0xbd5c2904691fff223da4b8e4c084e4dae674f9cd0a39180aaa942d07bda8787int);
    let e = lemma_chain_square(p, g, e, 0xbd5c2904691fff223da4b8e4c084e4dae674f9cd0a39180aaa942d07bda8787int, 0x1354e127956ca6f10b3d77c204e7a237db52a47c7fbba9f8c8d703f85700590int, 0x6aba6e43e7069cf807c63c5b66bbbedfe1734e9e4c5c5c620a25774e3ba3a1int);
    let e = lemma_chain_square(p, g, e, 0x6aba6e43e7069cf807c63c5b66bbbedfe1734e9e4c5c5c620a25774e3ba3a1int, 0x62421e60c561a4fc5ab1976aef4f82267055d798ec54b5187a63421685b0int, 0x616b6f07ef51156120360dd36ea8fa8308065e5059afa19daa391a95aeb5e591int);
    let e = lemma_chain_square(p, g, e, 0x616b6f07ef51156120360dd36ea8fa8308065e5059afa19daa391a95aeb5e591int, 0x51ddb32383d3f7c082853f463b21e476c6716b943313859c13bf8c1b8833ef39int, 0x5e2b165e454a08c4df1537276e560b6ce029924106e790790ca0d73700b2cce8int);
    let e = lemma_chain_square(p, g, e, 0x5e2b165e454a08c4df1537276e560b6ce029924106e790790ca0d73700b2cce8int, 0x4c7e2132f36de2934653c6fa5ba716de79381c9496e9d07b8d17a13a9dc21e18int, 0x21ce7cb3c1f6a6dfab4021ffa02e908505f0e3c7694913da93acb56ef8e07428int);
    let e = lemma_chain_square(p, g, e, 0x21ce7cb3c1f6a6dfab4021ffa02e908505f0e3c7694913da93acb56ef8e07428int, 0x9dbca15633091d73363e0f4e302725100e501aa89693b037c1d2d153e33ab7fint, 0x4038fd9b50618413950457fabb223d619605be4bf41e0cbafeee86a2bc809ac1int);
    let e = lemma_chain_square(p, g, e, 0x4038fd9b50618413950457fabb223d619605be4bf41e0cbafeee86a2bc809ac1int, 0x239412274172da0015b1f28dd137e69309721e0794946c46df1f187d8560887bint, 0x2ba5484f23a287e3f8491908d5da46cb863d85e7e1e8702620b07c28112c3d06int);
    let e = lemma_chain_square(p, g, e, 0x2ba5484f23a287e3f8491908d5da46cb863d85e7e1e8702620b07c28112c3d06int, 0x106e9b8675da553a1698fd35967db977acec15a244a7df126f96b4e780ecf61aint, 0x139d8639a3aaab468fe25b781768cdc69a87765c9f54b4b3ae0ad253aee60aint);
    let e = lemma_chain_square(p, g, e, 0x139d8639a3aaab468fe25b781768cdc69a87765c9f54b4b3ae0ad253aee60aint, 0x351a728e4128f5229005024c62cead4b6ed53536a248fa3f0011386620fint, 0x7601dd3c56f365f2a6be8e7315e3b9c31af030a057304c545bf831decc79655int);
    let e = lemma_chain_square(p, g, e, 0x7601dd3c56f365f2a6be8e7315e3b9c31af030a057304c545bf831decc79655int, 0x781f9e7339e3832ecfcbaf939e03ef4faee79ffebebeb94e2b9a798c091afbint, 0x6e8fe9ec1a41d629973ed84f50e9b3706047899ce16a563d26c7268b3c649d3eint);
    let e = lemma_chain_square(p, g, e, 0x6e8fe9ec1a41d629973ed84f50e9b3706047899ce16a563d26c7268b3c649d3eint, 0x6971c3352b64db79c37012d3d9b97df661e0d1f2582703e2f9cabedb7e730be2int, 0x530297d6fe86925b6fe620cbd0bae09053d5a530bcb98b29e53cc79aca920f22int);
    let e = lemma_chain_square(p, g, e, 0x530297d6fe86925b6fe620cbd0bae09053d5a530bcb98b29e53cc79aca920f22int, 0x3b706c1731c9f8345796b8f648d798793f43cf385f6308e3cd62f5f286e3ef04int, 0x2028eb89058fa926ba3b0acded62079678e0590c51fc790810fcdd3064c91180int);
    let e = lemma_chain_square(p, g, e, 0x2028eb89058fa926ba3b0acded62079678e0590c51fc790810fcdd3064c91180int, 0x8ebe7f30c99304f4df9e60fecbf560de10f9b6acbfe066f16d49ddb78c8f817int, 0x30b8081a1450f248cb8c98928c72600c1f92eb6890bd88b6f13f9dd4036947e9int);
    let e = lemma_chain_square(p, g, e, 0x30b8081a1450f248cb8c98928c72600c1f92eb6890bd88b6f13f9dd4036947e9int, 0x14795ecea5e794e4d41c4c6f811f06a6e80ab5c2244e5de521c73b93ab88f794int, 0x11585a3996caac24f80479d0b673f1f04a05a41ea1681789690e42e3dbcc1a7dint);
    let e = lemma_chain_square(p, g, e, 0x11585a3996caac24f80479d0b673f1f04a05a41ea1681789690e42e3dbcc1a7dint, 0x2985ce21e6dd52616e0e8094cfd06e8812c3abcc36425f018731645ef8b9a70int, 0x188e994b39bd955ff3e46e7fc1450f500b9a18a74774dac20d1ac9e4286a0699int);
    let e = lemma_chain_square(p, g, e, 0x188e994b39bd955ff3e46e7fc1450f500b9a18a74774dac20d1ac9e4286a0699int, 0x533afb0e57d5b2c2429936ab25d84eeee0018388dead649e7d4a23550c2fd6cint, 0x562f9405fbd7fa763f9384a6fef877031c73b9d00cb39a3ecb9babb7f61c8a05int);
    let e = lemma_chain_multiply(p, g, e, 0x562f9405fbd7fa763f9384a6fef877031c73b9d00cb39a3ecb9babb7f61c8a05int, 0x5debdba263918c31a89070941e90a541b33e43c8b89f9eedd95846401040b71int, 0x5ea22c18fa5d3015301028d04d295d2b38e29faff8f2c7b1e10413c4729761c6int);
    let e = lemma_chain_square(p, g, e, 0x5ea22c18fa5d3015301028d04d295d2b38e29faff8f2c7b1e10413c4729761c6int, 0x4d40127f42773d9e6d9ba36d661dd611420068330cf84b5f5d902d7948a46870int, 0x6161e12da6bb88358fcb5aa86a4e478e553691798f5b80b128e082bf8c473cb4int);
    let e = lemma_chain_square(p, g, e, 0x6161e12da6bb88358fcb5aa86a4e478e553691798f5b80b128e082bf8c473cb4int, 0x51cda5362cc66781a9f68c9f5706a4e0d43e731d1fd50094d00e07741a144c99int, 0x14df32841d10a5e47bba2a507ea6d7791d4707707cf921cdbdd7a7f4802891f7int);
    let e = lemma_chain_square(p, g, e, 0x14df32841d10a5e47bba2a507ea6d7791d4707707cf921cdbdd7a7f4802891f7int, 0x3c1febf9d2513c640296302a967a18110d3d126ad53f4ce436b2d514b8e4cc2int, 0x5a7830e12136be4cee1c0f563508368128f18365d8c9554066f438ada4db6f8fint);
    let e = lemma_chain_multiply(p, g, e, 0x5a7830e12136be4cee1c0f563508368128f18365d8c9554066f438ada4db6f8fint, 0x6296e533531e9b65112a6036d16aabe6a1be270c8af165d0ad83ac7e2bdab0bint, 0x1c141ce416f2cc6376fbb0f33ab1f5505a36886c29543cbec9ac2f6df5511d1aint);
}

/// A power of a power of the root 7 modulo the prime `q`: the steps from the exponent
/// 0x7cb0980000009
/// to the exponent
/// 0xf961300000013.
proof fn lemma_power_q_14_part_2(p: int, g: int)
    requires
        p == q(),
        g == 0x7e55526ed9aac088441536bdec83efc6c7ad979070579b3a14faa23a260b30bint,
        pow_mod(g, 0x7cb0980000009, p) == 0x1c141ce416f2cc6376fbb0f33ab1f5505a36886c29543cbec9ac2f6df5511d1aint,
    ensures
        pow_mod(g, 0xf961300000013, p) == 0xc44f4e54b508cd615312cab1a42841204e01d661a4e51f46280e7c7cae19205int,
{
    let e: nat = 0x7cb0980000009;
    let e = lemma_chain_square(p, g, e, 0x1c141ce416f2cc6376fbb0f33ab1f5505a36886c29543cbec9ac2f6df5511d1aint, 0x6cd017aad368cf90445c351924060e578bc95809528d07adfd7209adb5357beint, 0x1c7f31f51d9ac039dd17117353cdde955a0e9b2de8d556768542e6ae566f8ee6int);
    let e = lemma_chain_multiply(p, g, e, 0x1c7f31f51d9ac039dd17117353cdde955a0e9b2de8d556768542e6ae566f8ee6int, 0x1f0df696fcf0154d69cb959a91549fc673b533f617be450a6f193b80f1463ddint, 0xc44f4e54b508cd615312cab1a42841204e01d661a4e51f46280e7c7cae19205int);
}

/// A power of a power of the root 7 modulo the prime `q`.
proof fn lemma_power_q_14()
    ensures
        pow_mod(0x7e55526ed9aac088441536bdec83efc6c7ad979070579b3a14faa23a260b30bint, 0xf961300000013, q()) == 0xc44f4e54b508cd615312cab1a42841204e01d661a4e51f46280e7c7cae19205int,
{
    let p = q();
    let g = 0x7e55526ed9aac088441536bdec83efc6c7ad979070579b3a14faa23a260b30bint;
    lemma_chain_start(p, g);
    lemma_power_q_14_part_1(p, g);
    lemma_power_q_14_part_2(p, g);
}

/// A power of a power of the root 7 modulo the prime `q`.
proof fn lemma_power_q_15()
    ensures
        pow_mod(0xc44f4e54b508cd615312cab1a42841204e01d661a4e51f46280e7c7cae19205int, 0x1ea57, q()) == 0x379c9b3067a39ba171e820d2fff7bb2d6339a70bad6025a6b89010e504f1fa49int,
{
    let p = q();
    let g = 0xc44f4e54b508cd615312cab1a42841204e01d661a4e51f46280e7c7cae19205int;
    lemma_chain_start(p, g);
    let e: nat = 0;
    let e = lemma_chain_square(p, g, e, 1, 0, 1);
    let e = lemma_chain_multiply(p, g, e, 1, 0, 0xc44f4e54b508cd615312cab1a42841204e01d661a4e51f46280e7c7cae19205int);
    let e = lemma_chain_square(p, g, e, 0xc44f4e54b508cd615312cab1a42841204e01d661a4e51f46280e7c7cae19205int, 0x14c6cecd790c51f3a8b4140156cdb3586b8b1c18bca1fead70376454998c13eint, 0x4625073b9a5e858a03f34fdfbedd0b12d59abc283e47148e6c9415f09a7af2dbint);
    let e = lemma_chain_multiply(p, g, e, 0x4625073b9a5e858a03f34fdfbedd0b12d59abc283e47148e6c9415f09a7af2dbint, 0x76c7ed8692a5ca88d67fef1d77f42992cc0f1b37ea34d8d0ad1fd8de5b59d00int, 0x329a471cc926b5dfc70594faa72c8dbbb09d65fc168970c6dade742c7dad0747int);
    let e = lemma_chain_square(p, g, e, 0x329a471cc926b5dfc70594faa72c8dbbb09d65fc168970c6dade742c7dad0747int, 0x161688cd963f1c7cae1884cc0efbac1ee601982bf09a8e13ba0f33e2efec8445int, 0x698e86ad21ebb88e00035c6333b30eeecaea96c90652c20600c696d83c3e716cint);
    let e = lemma_chain_multiply(p, g, e, 0x698e86ad21ebb88e00035c6333b30eeecaea96c90652c20600c696d83c3e716cint, 0xb2bf300089fdd9fde98ffe20fb4feec3c62434b0f84e6b97c5c6bead9599d3fint, 0x30e449626978b578f6f1185f063793b6c57192b5964ec498115e4d3dd87a31ddint);
    let e = lemma_chain_square(p, g, e, 0x30e449626978b578f6f1185f063793b6c57192b5964ec498115e4d3dd87a31ddint, 0x149ea1f6294de2c692f1985b6427f4e4d645dcafa2e1e4f9eded0ab08b722fd8int, 0x223ff76e7c2462e13673cf4a2d3b67d0b431918cc096cb84f91a48f1f4e828f1int);
    let e = lemma_chain_multiply(p, g, e, 0x223ff76e7c2462e13673cf4a2d3b67d0b431918cc096cb84f91a48f1f4e828f1int, 0x39ff6db3bc3085467bebc82475a071751b196af5dd917aeb7a8c7410143252dint, 0x5635e0301cc9840cb512491634c4cb1fd3fdbcbc5d27c899c488830354701988int);
    let e = lemma_chain_square(p, g, e, 0x5635e0301cc9840cb512491634c4cb1fd3fdbcbc5d27c899c488830354701988int, 0x401c5439147a95220d77c5b761fb9c33169ead7ba423f03a7294c37bbf8b30c3int, 0x592c9500ac419fdb16e255ee2763ddb0e41119f92730bb3d7e11f84eda00a77dint);
    let e = lemma_chain_square(p, g, e, 0x592c9500ac419fdb16e255ee2763ddb0e41119f92730bb3d7e11f84eda00a77dint, 0x44982756f74209d3af50ffed58782ead60ef0a5227c4467e26f90873c469f2e2int, 0x1a0dc9ec21c07691c7982d15b1b05e208ff8fa69dde46409be9847db8d2a6027int);
    let e = lemma_chain_multiply(p, g, e, 0x1a0dc9ec21c07691c7982d15b1b05e208ff8fa69dde46409be9847db8d2a6027int, 0x2c1e6ee33d1188686a2925a5e7abd7f43ff890c2a57388105df527fee695223int, 0x55ab8358984fc5319a9ba2c451af7a4a3562a5289e4c9c6da0d0edd4687cca0int);
    let e = lemma_chain_square(p, g, e, 0x55ab8358984fc5319a9ba2c451af7a4a3562a5289e4c9c6da0d0edd4687cca0int, 0x3f4f2fbb5563e7603c127df62b9120344032f9c5068369f1b5902bc610b5a8int, 0x5e8ab13950cf4e454e13246fa523e6a897f53704d2a08f2ed0e27dad2e3eae58int);
    let e = lemma_chain_square(p, g, e, 0x5e8ab13950cf4e454e13246fa523e6a897f53704d2a08f2ed0e27dad2e3eae58int, 0x4d19c1c700ab1347f9505d5ad16d05007ae998933106d7ef9104d38342b5c084int, 0x4595e3aa4688fa67e47669f370b65ba1ef20fa6a54775a03446515f146a5fdbcint);
    let e = lemma_chain_multiply(p, g, e, 0x4595e3aa4688fa67e47669f370b65ba1ef20fa6a54775a03446515f146a5fdbcint, 0x75d58a561400d89bcd0710ec5fa414cd9280ca1ff7e5e1bb97e148fb36334d7int, 0x3c91abe07e487b01b2cc0095847e5e0eb48e98c4926b1d242a2d1b86b2cbf7d5int);
    let e = lemma_chain_square(p, g, e, 0x3c91abe07e487b01b2cc0095847e5e0eb48e98c4926b1d242a2d1b86b2cbf7d5int, 0x1fa53de0e46e41e24841103b527c03697bf13977501e9a4412f5e5e7a4afa75fint, 0x6cd86199400adc9f919ddfc1f52ed7ba3e217f18ac3e88474a699a8b0b0fdaint);
    let e = lemma_chain_square(p, g, e, 0x6cd86199400adc9f919ddfc1f52ed7ba3e217f18ac3e88474a699a8b0b0fdaint, 0x6631e5d94961357648d0b3bd160dbf534ce66d953ad227337dca508c41c4int, 0x3e2187edbb162e26e4d1591f13c799ed6ed146745c772ce6e735adf2c92b03e0int);
    let e = lemma_chain_square(p, g, e, 0x3e2187edbb162e26e4d1591f13c799ed6ed146745c772ce6e735adf2c92b03e0int, 0x214c7547b216a681b7532c8f3ca1efad38d4c0b0e901767dee0075dfca241b84int, 0x137093b73a29e2591d53ae21bbb8c6bb5d4955208cec9858cd884c74432ae87cint);
    let e = lemma_chain_multiply(p, g, e, 0x137093b73a29e2591d53ae21bbb8c6bb5d4955208cec9858cd884c74432ae87cint, 0x20eb3225f58ceecce4c9b23f11dc12790b3a24d998dbd6b5a8f4defdde91334int, 0xf02414669e2572aac9e12b60052d1370262d5be2e2cef6ad5ef126417802f38int);
    let e = lemma_chain_square(p, g, e, 0xf02414669e2572aac9e12b60052d1370262d5be2e2cef6ad5ef126417802f38int, 0x1f171415739fdab8c3e36716ee3469c692fc00f394e1bcab4ffdc480f9b4000int, 0x218e33bf00b977a2d5c4ec1906d5fd6f2a5ff069513015391a1c7023411a5c40int);
    let e = lemma_chain_square(p, g, e, 0x218e33bf00b977a2d5c4ec1906d5fd6f2a5ff069513015391a1c7023411a5c40int, 0x9b66f7f8e713504507e1c88215c00f9c9dfd61a3af9a073b1d511ea9a8c9e53int, 0x3ea4a82a9da24c20c1b1246f1c6bb6c6f93601ee1016469d05332b77c3b171adint);
    let e = lemma_chain_multiply(p, g, e, 0x3ea4a82a9da24c20c1b1246f1c6bb6c6f93601ee1016469d05332b77c3b171adint, 0x6a14065d810184a849f24cbbf0be477e4d8642d7d43a48e9624b28d5119f7d4int, 0x6b03bf675bc81993cba8fef4d53cdf7821603b35a9fd6df0056ee75b1f3eea8dint);
    let e = lemma_chain_square(p, g, e, 0x6b03bf675bc81993cba8fef4d53cdf7821603b35a9fd6df0056ee75b1f3eea8dint, 0x62c94bfae112210c0420215c1b18132409cee0680870e689f362af92768ff7c3int, 0x2d0dc73b17c11656a4f224aacc26fe53860b05e6b50069395c2ecab322a219e6int);
    let e = lemma_chain_square(p, g, e, 0x2d0dc73b17c11656a4f224aacc26fe53860b05e6b50069395c2ecab322a219e6int, 0x11826e6362808ab77c61894ce6ad51ad4b779b757674c47472a3d4913b081dbfint, 0x3a8c1fd0bf7339aeb63bb02cc3c1fdf4108b2b806336e327ab4aee57a6ae9ce5int);
    let e = lemma_chain_multiply(p, g, e, 0x3a8c1fd0bf7339aeb63bb02cc3c1fdf4108b2b806336e327ab4aee57a6ae9ce5int, 0x63247819a70988295d264230d59805ebd70b711a19baf85c07e1dc74e70fd7eint, 0x466b9a368e8f6dfc2036c42d3d09ba2371a98bc9a9a66c4f84b564c41fb7acfbint);
    let e = lemma_chain_square(p, g, e, 0x466b9a368e8f6dfc2036c42d3d09ba2371a98bc9a9a66c4f84b564c41fb7acfbint, 0x2ac6d03dbd54bd383a88263875076ecbce8ebd63625928ba61a734c127253d66int, 0x4c48b7d08498705d2fdc62655795b907a896891d6db73f7c4cbf00aa669700b3int);
    let e = lemma_chain_multiply(p, g, e, 0x4c48b7d08498705d2fdc62655795b907a896891d6db73f7c4cbf00aa669700b3int, 0x812d621955bd5dbc04881fc8e8304c9d470b36962ae6b3fd61ecb87267a1a06int, 0x67e61fd23af024d309c07fae09890c17690c489ffa6f4c4ea9b1e1bed431ff79int);
    let e = lemma_chain_square(p, g, e, 0x67e61fd23af024d309c07fae09890c17690c489ffa6f4c4ea9b1e1bed431ff79int, 0x5d1e252c98e98b68973b8c52c7c6bf3449164f9957985bb69595316402bb79a7int, 0x18b445c35e330bb8d919ba0030ab0afa2db33198968040c101a50ac33088cd8aint);
    let e = lemma_chain_multiply(p, g, e, 0x18b445c35e330bb8d919ba0030ab0afa2db33198968040c101a50ac33088cd8aint, 0x29d5587b9c2edfa7c327e6cb81bc9dbee984e796a53acdb2bb21ab37d3cbd69int, 0x379c9b3067a39ba171e820d2fff7bb2d6339a70bad6025a6b89010e504f1fa49int);
}

/// A power of a power of the root 7 modulo the prime `q`.
proof fn lemma_power_q_16()
    ensures
        pow_mod(0x379c9b3067a39ba171e820d2fff7bb2d6339a70bad6025a6b89010e504f1fa49int, 0x26987b, q()) == 0xac45a4010001a40200000000ffffffffint,
{
    let p = q();
    let g = 0x379c9b3067a39ba171e820d2fff7bb2d6339a70bad6025a6b89010e504f1fa49int;
    lemma_chain_start(p, g);
    let e: nat = 0;
    let e = lemma_chain_square(p, g, e, 1, 0, 1);
    let e = lemma_chain_multiply(p, g, e, 1, 0, 0x379c9b3067a39ba171e820d2fff7bb2d6339a70bad6025a6b89010e504f1fa49int);
    let e = lemma_chain_square(p, g, e, 0x379c9b3067a39ba171e820d2fff7bb2d6339a70bad6025a6b89010e504f1fa49int, 0x1aad69c0cbd6658ab39bd61b36929373bd7c47f80829d4f093c59b66e5dd9d6bint, 0x6da37cb5c4178da7f58a3824427894a2430a9d12fe85760fec835d2994470b66int);
    let e = lemma_chain_square(p, g, e, 0x6da37cb5c4178da7f58a3824427894a2430a9d12fe85760fec835d2994470b66int, 0x67b0ae38fd00dae3ed6da9c83359282f69e445e83f9cccdec8b04c14aa68d301int, 0x337570dff1ff4d84acbe13930ae5e055db42172270534e610f08827d98ad19a3int);
    let e = lemma_chain_square(p, g, e, 0x337570dff1ff4d84acbe13930ae5e055db42172270534e610f08827d98ad19a3int, 0x16d77b6500b1111be231e6d0b71fac4cabb516f073dbf725b8e95bcb96696d02int, 0x43670bedfcee8dd2a6f779c4c8389a02c8a2ab83630e7baed3d2a9e1a275d0c7int);
    let e = lemma_chain_multiply(p, g, e, 0x43670bedfcee8dd2a6f779c4c8389a02c8a2ab83630e7baed3d2a9e1a275d0c7int, 0x20556207f6f2d4da46961011732efb1ad326e1a761d56122b72f2d5bede5f9e9int, 0x1dc87bd641f137f7f42cfadacf6d83181afb3904a703032df40390bb1aebe4d6int);
    let e = lemma_chain_square(p, g, e, 0x1dc87bd641f137f7f42cfadacf6d83181afb3904a703032df40390bb1aebe4d6int, 0x7a6ce37c8a23126ab21ad9a041c8da4d7ac7e8e5da55d0b41625d41a9979c46int, 0x57d5541b3a6d81ba9741c5ae11bc16be5972324a3a8e40816e1f1381bbda469eint);
    let e = lemma_chain_multiply(p, g, e, 0x57d5541b3a6d81ba9741c5ae11bc16be5972324a3a8e40816e1f1381bbda469eint, 0x2a22640701f98774dd00717e92f935e223f5051c837c8cfebd6585c1b9d764f3int, 0x667b8d3f31ba1900fc359dfccd831cf87aabbbc3fa80b88017f76d8ff31b0a1bint);
    let e = lemma_chain_square(p, g, e, 0x667b8d3f31ba1900fc359dfccd831cf87aabbbc3fa80b88017f76d8ff31b0a1bint, 0x5a98accda908aa54f3c6088a41d36cbe87f980167cafe9ecfcd61390097f80deint, 0x35a070cc1e98fc7e4f220c88c872f78bb6a7b68901fcad75ec700d825a989dfbint);
    let e = lemma_chain_square(p, g, e, 0x35a070cc1e98fc7e4f220c88c872f78bb6a7b68901fcad75ec700d825a989dfbint, 0x18ce927b11da90fa9485fb9c23990a535565060f9c880d3457e2381bf01f3d3cint, 0x157d83a6a5984bbb23a04a08ed9c001f4807c76626eca5f63ef8a01c876e96ddint);
    let e = lemma_chain_multiply(p, g, e, 0x157d83a6a5984bbb23a04a08ed9c001f4807c76626eca5f63ef8a01c876e96ddint, 0xa4f1ebeb0331637d30f3d2a1f4c9b1b0b00959ae3f2d4f785658cd6dc4b2f3cint, 0x4f78cb1d2c102ccd65401b2c8ca07f31687a5b9149c7bf4f08cb23f23b9ea7c9int);
    let e = lemma_chain_square(p, g, e, 0x4f78cb1d2c102ccd65401b2c8ca07f31687a5b9149c7bf4f08cb23f23b9ea7c9int, 0x367ae0cf2ff28367c6066f6766772266c34519dea0d468bb0b285e5b56b5aef6int, 0x29e2ffe4ec024d7f82c6e853dd6a9a57f431fe8c05cd52411c0c0248d95e2cdbint);
    let e = lemma_chain_square(p, g, e, 0x29e2ffe4ec024d7f82c6e853dd6a9a57f431fe8c05cd52411c0c0248d95e2cdbint, 0xf22631d033ad46cec6bc5cc976d022dc0b9fc7bae20d11576f6fabf7e004becint, 0x6a871c4533b2740cef5519580b43986f1385cdb90518eb9099cec30cc0afb76dint);
    let e = lemma_chain_square(p, g, e, 0x6a871c4533b2740cef5519580b43986f1385cdb90518eb9099cec30cc0afb76dint, 0x61e3b65f9d5cb24ce4cf9897956e2ffad07bec98b4b6af052ee434fc0d7eb731int, 0x47b0b930b2a8bae8f8068a07c32db4dfc20e43df2e8dac01aef7ce2cbcf44d38int);
    let e = lemma_chain_multiply(p, g, e, 0x47b0b930b2a8bae8f8068a07c32db4dfc20e43df2e8dac01aef7ce2cbcf44d38int, 0x2263f27cad0f6731fb73d8d6afdd0f66547033538ae4f91026e34b1b2ad945dbint, 0x18d02cbd76c5f3fe56d61f077ff3b449443e5347963f70d0ade5bc51dbf16f1dint);
    let e = lemma_chain_square(p, g, e, 0x18d02cbd76c5f3fe56d61f077ff3b449443e5347963f70d0ade5bc51dbf16f1dint, 0x54f9ceee2888f0d4e142afe1caa5da68d2fbb65781695e900223f2768fec2c5int, 0x2abb749314e759e4c752afd6439aa6a276b9d8e856a9b278ebb063c599d56684int);
    let e = lemma_chain_multiply(p, g, e, 0x2abb749314e759e4c752afd6439aa6a276b9d8e856a9b278ebb063c599d56684int, 0x147fbe5facd336c3f40dbc0a3a9757b44649d1269858da0889f571adbd7dbb9cint, 0x19c83738f70fa5ad9ac187871642108a424099368b87f1342a3dd11518bd6808int);
    let e = lemma_chain_square(p, g, e, 0x19c83738f70fa5ad9ac187871642108a424099368b87f1342a3dd11518bd6808int, 0x5bbddf1af6acfea7179a288bf132af0afbf46f4375348a42a46646e4571e43cint, 0x2b1a50ffad82de1dd9fa8578a1572ed46ee56e24610827cea44fb0c200a49c04int);
    let e = lemma_chain_square(p, g, e, 0x2b1a50ffad82de1dd9fa8578a1572ed46ee56e24610827cea44fb0c200a49c04int, 0x10069ebf57b5a3172545c915b070f375e1611a40801619cab2addc42d64466c6int, 0x5639e2f0b5cbd240d71d4ee2bfcd20198da4585a5cc7f112de10ea6b6df0794aint);
    let e = lemma_chain_square(p, g, e, 0x5639e2f0b5cbd240d71d4ee2bfcd20198da4585a5cc7f112de10ea6b6df0794aint, 0x40224b74e43ded914d621df9876a832fb94fe43854a901c00786012e25c4fb55int, 0x5c353838d33eee369c5e324f01fe0a63c76eed8a76f733a753764f2f82720e0fint);
    let e = lemma_chain_square(p, g, e, 0x5c353838d33eee369c5e324f01fe0a63c76eed8a76f733a753764f2f82720e0fint, 0x495748dc474c1a570e09266f6883937e19fe12d712319d07012a3dd8bde1c18aint, 0x597f1f09e200c3c49975c3cf223b7421c141aa258c9bad83f991f84b043fe357int);
    let e = lemma_chain_square(p, g, e, 0x597f1f09e200c3c49975c3cf223b7421c141aa258c9bad83f991f84b043fe357int, 0x45175d4f4670f1f5e29d6e44bdee46ae4e28b972b4dcde0a2ccbabc1baa5d6efint, 0x27599dcb81de01da2a5a286ae2f75255348d17b0914588869a61ff33ac0f90a2int);
    let e = lemma_chain_multiply(p, g, e, 0x27599dcb81de01da2a5a286ae2f75255348d17b0914588869a61ff33ac0f90a2int, 0x12e064d0a7e9d41a17e061fc057c7eefd27aebf3742194e7df3bd90bebf81e7eint, 0x30a461a9b3a60eebbd36f37a2bfdd28b91f3b8fcd17909c182523b09083853b4int);
    let e = lemma_chain_square(p, g, e, 0x30a461a9b3a60eebbd36f37a2bfdd28b91f3b8fcd17909c182523b09083853b4int, 0x1468de0e0673cd2a7b0a32776b4613c50f0b98000d10185784c09ad65b5b433eint, 0x55d56dd60edffd5cd0682c0f9b82de534841d431fc15fe58d0b914af9ec2f352int);
    let e = lemma_chain_multiply(p, g, e, 0x55d56dd60edffd5cd0682c0f9b82de534841d431fc15fe58d0b914af9ec2f352int, 0x292cd4172a06496b3f287971b67ff12a534e276eac246af5b1a01d08c5f80941int, 0x2a0b0851863a11b47b91ba02a79f75c03b52880ed83e8dc890da9d05396f6d21int);
    let e = lemma_chain_square(p, g, e, 0x2a0b0851863a11b47b91ba02a79f75c03b52880ed83e8dc890da9d05396f6d21int, 0xf3f5ec4df15515fff90de90bd200df4392ffaadbccb980ae3ec40c8ea50b40dint, 0x4e81a3f79976548cb107895109fa25f8e2cacec2ef62373f9afffa698d26a34int);
    let e = lemma_chain_multiply(p, g, e, 0x4e81a3f79976548cb107895109fa25f8e2cacec2ef62373f9afffa698d26a34int, 0x25a8ff70658b3cbe204e586e32b6565b94df15b3393c9f7d490b4396ced401aint, 0x423f5558516eda53453c13087ffe78b96afb1ed79d3aaceee98a8be26dbdd0baint);
    let e = lemma_chain_square(p, g, e, 0x423f5558516eda53453c13087ffe78b96afb1ed79d3aaceee98a8be26dbdd0baint, 0x25db6ed29ec8e53bb3f0a1cd7e361cf7c436660b57586aadd642d243ded23a61int, 0x23aa4e3d6f11f9492939d9b9fb3472cbb634f3df638751d8b7f11d0162008cc3int);
    let e = lemma_chain_multiply(p, g, e, 0x23aa4e3d6f11f9492939d9b9fb3472cbb634f3df638751d8b7f11d0162008cc3int, 0x111be15104f79d1b5d8e78b35c5490fbb508d57226c81ae5a2f758089415c60cint, 0x5a3c1637d19e318509256e34ab1647e062181976dd239f5738026c43771bcb8fint);
    let e = lemma_chain_square(p, g, e, 0x5a3c1637d19e318509256e34ab1647e062181976dd239f5738026c43771bcb8fint, 0x463c5483e813efa117b028303c582db11af2adf2ffcba15a16c0a6527326f7f7int, 0x5cc452135e727a5bb6b5a15178dd5ddbae7b52d5e6ba39e61e5a60c210df21eaint);
    let e = lemma_chain_square(p, g, e, 0x5cc452135e727a5bb6b5a15178dd5ddbae7b52d5e6ba39e61e5a60c210df21eaint, 0x4a3b9daf3ab5054720522fa77359d944c20df0b42f00f1e93a0f2a979d673072int, 0x550e3d270df26fb32b47b63f37d2f20eacc5b4150afdde34009b933bbcc2f972int);
    let e = lemma_chain_multiply(p, g, e, 0x550e3d270df26fb32b47b63f37d2f20eacc5b4150afdde34009b933bbcc2f972int, 0x28cd467ebbeed7c425baedecd9ab10bc734bb64b13b25385bf9d2ee0fcc4e4fbint, 0x874d09cefc1935cc7e0a23cb890f980601d918eeb95ada32b9d0ae5dabf9087int);
    let e = lemma_chain_square(p, g, e, 0x874d09cefc1935cc7e0a23cb890f980601d918eeb95ada32b9d0ae5dabf9087int, 0x9de92d82973111d98e3ae4779fd2b3ee0568709badb7d8adf00d19370583e0int, 0x488c9f8c70dafab2f3e0799d39dd618f354df59b7bf34807359965cbb004a351int);
    let e = lemma_chain_multiply(p, g, e, 0x488c9f8c70dafab2f3e0799d39dd618f354df59b7bf34807359965cbb004a351int, 0x22cd6f5683bcfff8acf880d4d654be154aeef93c940b68a9a9a38b72bc10ac1aint, 0xac45a4010001a40200000000ffffffffint);
}

/// A power of a power of the root 7 modulo the prime `q`.
proof fn lemma_power_q_17()
    ensures
        pow_mod(0x379c9b3067a39ba171e820d2fff7bb2d6339a70bad6025a6b89010e504f1fa49int, 3, q()) == 0x6d8ceec08003f0a44f6c0b36a44ab7b7576b0589fa20719fc0b3e86b24aeeacfint,
{
    let p = q();
    let g = 0x379c9b3067a39ba171e820d2fff7bb2d6339a70bad6025a6b89010e504f1fa49int;
    lemma_chain_start(p, g);
    let e: nat = 0;
    let e = lemma_chain_square(p, g, e, 1, 0, 1);
    let e = lemma_chain_multiply(p, g, e, 1, 0, 0x379c9b3067a39ba171e820d2fff7bb2d6339a70bad6025a6b89010e504f1fa49int);
    let e = lemma_chain_square(p, g, e, 0x379c9b3067a39ba171e820d2fff7bb2d6339a70bad6025a6b89010e504f1fa49int, 0x1aad69c0cbd6658ab39bd61b36929373bd7c47f80829d4f093c59b66e5dd9d6bint, 0x6da37cb5c4178da7f58a3824427894a2430a9d12fe85760fec835d2994470b66int);
    let e = lemma_chain_multiply(p, g, e, 0x6da37cb5c4178da7f58a3824427894a2430a9d12fe85760fec835d2994470b66int, 0x34983251f01d0bc6b988dad52a333d695ec67eb3894febdcf99079d1d7baf147int, 0x6d8ceec08003f0a44f6c0b36a44ab7b7576b0589fa20719fc0b3e86b24aeeacfint);
}

/// A power of a power of the root 7 modulo the prime `q`.
proof fn lemma_power_q_18()
    ensures
        pow_mod(0xc44f4e54b508cd615312cab1a42841204e01d661a4e51f46280e7c7cae19205int, 0x73c971, q()) == 0x3dd479f5454967ce0dcb2b172ac73d5ce93d58a856569621c247fb7ed7f91c4fint,
{
    let p = q();
    let g = 0xc44f4e54b508cd615312cab1a42841204e01d661a4e51f46280e7c7cae19205int;
    lemma_chain_start(p, g);
    let e: nat = 0;
    let e = lemma_chain_square(p, g, e, 1, 0, 1);
    let e = lemma_chain_multiply(p, g, e, 1, 0, 0xc44f4e54b508cd615312cab1a42841204e01d661a4e51f46280e7c7cae19205int);
    let e = lemma_chain_square(p, g, e, 0xc44f4e54b508cd615312cab1a42841204e01d661a4e51f46280e7c7cae19205int, 0x14c6cecd790c51f3a8b4140156cdb3586b8b1c18bca1fead70376454998c13eint, 0x4625073b9a5e858a03f34fdfbedd0b12d59abc283e47148e6c9415f09a7af2dbint);
    let e = lemma_chain_multiply(p, g, e, 0x4625073b9a5e858a03f34fdfbedd0b12d59abc283e47148e6c9415f09a7af2dbint, 0x76c7ed8692a5ca88d67fef1d77f42992cc0f1b37ea34d8d0ad1fd8de5b59d00int, 0x329a471cc926b5dfc70594faa72c8dbbb09d65fc168970c6dade742c7dad0747int);
    let e = lemma_chain_square(p, g, e, 0x329a471cc926b5dfc70594faa72c8dbbb09d65fc168970c6dade742c7dad0747int, 0x161688cd963f1c7cae1884cc0efbac1ee601982bf09a8e13ba0f33e2efec8445int, 0x698e86ad21ebb88e00035c6333b30eeecaea96c90652c20600c696d83c3e716cint);
    let e = lemma_chain_multiply(p, g, e, 0x698e86ad21ebb88e00035c6333b30eeecaea96c90652c20600c696d83c3e716cint, 0xb2bf300089fdd9fde98ffe20fb4feec3c62434b0f84e6b97c5c6bead9599d3fint, 0x30e449626978b578f6f1185f063793b6c57192b5964ec498115e4d3dd87a31ddint);
    let e = lemma_chain_square(p, g, e, 0x30e449626978b578f6f1185f063793b6c57192b5964ec498115e4d3dd87a31ddint, 0x149ea1f6294de2c692f1985b6427f4e4d645dcafa2e1e4f9eded0ab08b722fd8int, 0x223ff76e7c2462e13673cf4a2d3b67d0b431918cc096cb84f91a48f1f4e828f1int);
    let e = lemma_chain_square(p, g, e, 0x223ff76e7c2462e13673cf4a2d3b67d0b431918cc096cb84f91a48f1f4e828f1int, 0xa1e687f547c705d2920360f172165dc289de20d53577b105a9340ced8aa3a24int, 0x41d5fe8b7aba8ad86e176aec4e7bede64c749674f667dba93f7affaccab1f8bdint);
    let e = lemma_chain_square(p, g, e, 0x41d5fe8b7aba8ad86e176aec4e7bede64c749674f667dba93f7affaccab1f8bdint, 0x25636a1d4b65f0bae8c6a1e82322dda6ba8fbb265870c49fb963db432d98d525int, 0x2be3156dce245c8b4d38c2fa1026a2f6694ee858aaee1d01b85161dfd6fe664int);
    let e = lemma_chain_multiply(p, g, e, 0x2be3156dce245c8b4d38c2fa1026a2f6694ee858aaee1d01b85161dfd6fe664int, 0x4a512cefbd80daffeec779d613da7b2e22f800d763262d64eee2f4c95a939cint, 0x1449d7f6a7f51451a05af56e300b2c151aae01f56756970763d898a7611df458int);
    let e = lemma_chain_square(p, g, e, 0x1449d7f6a7f51451a05af56e300b2c151aae01f56756970763d898a7611df458int, 0x38cf7955d9130f56f0815d2938fcc281954c60ed68cac09d2c1eab5746da136int, 0x1eed1e6a8836938bdedebc5980297071df6ce4d58bae2fd7240b7fc80ba3d0aint);
    let e = lemma_chain_multiply(p, g, e, 0x1eed1e6a8836938bdedebc5980297071df6ce4d58bae2fd7240b7fc80ba3d0aint, 0x345ea07ab37d751db7a6b2efe7959de515be8d5db2c9517514ad8ece98d500int, 0x1d86d417c6e081bdb294492d6dd9d1cf1efffffa8b2c0cdce70f516975a41032int);
    let e = lemma_chain_square(p, g, e, 0x1d86d417c6e081bdb294492d6dd9d1cf1efffffa8b2c0cdce70f516975a41032int, 0x785373fb29f856d95056259be00a1fcc54c1041c7a8f2f12b42996eec021b4aint, 0x68dd4e3cdc26e9e126d329299d3e8fa2ad080b382b9f760f6b7fced189142e7aint);
    let e = lemma_chain_multiply(p, g, e, 0x68dd4e3cdc26e9e126d329299d3e8fa2ad080b382b9f760f6b7fced189142e7aint, 0xb193165c7204b24b02d6699995f05693bb8db0a6995b2a3813d150fb4a43068int, 0x15c4ec0a303fc2bf6773205bf6a129d1b1b5dbb7ffdca2b302cd43dc987c4bfaint);
    let e = lemma_chain_square(p, g, e, 0x15c4ec0a303fc2bf6773205bf6a129d1b1b5dbb7ffdca2b302cd43dc987c4bfaint, 0x4167e3c4df3ed8b04e75143615ec95074357cd6fe6a80b1d19fa4b9502a535eint, 0x482ad2d9b3696cfcbc6cfb230fad5182d0e37f89f77bb52a9529f6e740921cc6int);
    let e = lemma_chain_multiply(p, g, e, 0x482ad2d9b3696cfcbc6cfb230fad5182d0e37f89f77bb52a9529f6e740921cc6int, 0x7a34bf7d4bab16aebe207344f0816abf8dd9b9187224d84bd514189d5d06dc4int, 0x6db12df615c1931e69c84344370df17d614258dea965df35a3def49b47790e1aint);
    let e = lemma_chain_square(p, g, e, 0x6db12df615c1931e69c84344370df17d614258dea965df35a3def49b47790e1aint, 0x67ca95fc7a4869997e9349925c8045c91240a714f18dddc557606f440d9b2122int, 0x5ce610bdb95e8fcfc4469c148783e98848642c97cd0b19bcaabfb46ab3bfb982int);
    let e = lemma_chain_square(p, g, e, 0x5ce610bdb95e8fcfc4469c148783e98848642c97cd0b19bcaabfb46ab3bfb982int, 0x4a71a8fad78d00d798cca8f9d523f8db2b65982b498fffd2acadaedeb1d770d9int, 0x6bf437c401e9b0e6c96b8f0d0ed7b9c10bf623b09032128b72ffdea47091b52bint);
    let e = lemma_chain_square(p, g, e, 0x6bf437c401e9b0e6c96b8f0d0ed7b9c10bf623b09032128b72ffdea47091b52bint, 0x648734cb9c6c1547aff48c5970fc305b3d230cfe6d5697f84f9f0d6cfc52bc77int, 0x3c8cfbd9b2cdd5e2e54f9f9458f9a0ae4b847f433dcadb1c06c433965e9918c2int);
    let e = lemma_chain_multiply(p, g, e, 0x3c8cfbd9b2cdd5e2e54f9f9458f9a0ae4b847f433dcadb1c06c433965e9918c2int, 0x6688ee593fedc43a09066d808f3870a751e03d2cb69a56e78368e0609946af7int, 0x6c04763c85e858ebf15ef78e4539fd51a03ae0a44f17424ae9c5dfb9f609b4d3int);
    let e = lemma_chain_square(p, g, e, 0x6c04763c85e858ebf15ef78e4539fd51a03ae0a44f17424ae9c5dfb9f609b4d3int, 0x64a577ea743191976f82d62945c0bde064b46ad74146cd9ede0c96fa12713f4bint, 0x6b6e4544aaa799eb6721dc5af69a536c780e9c650b69427506a8432aa81e269eint);
    let e = lemma_chain_square(p, g, e, 0x6b6e4544aaa799eb6721dc5af69a536c780e9c650b69427506a8432aa81e269eint, 0x638e580bc7c0e1806c29ef7e467c30b912e1ea3fc3ee2fa11bbb2c3461e19e18int, 0x384ef01a862e81aeaf03215ac1f58d220ed8660893a02b94be0967f810f9ab6cint);
    let e = lemma_chain_square(p, g, e, 0x384ef01a862e81aeaf03215ac1f58d220ed8660893a02b94be0967f810f9ab6cint, 0x1b599436042fe6fd2b73c9974692de2dc788c931c36c784cfc36cab39cebb48bint, 0x1b62d0746ca76440fcefe909aec9756a0f863a890c0be9ddcb1a1c03cdf5c105int);
    let e = lemma_chain_multiply(p, g, e, 0x1b62d0746ca76440fcefe909aec9756a0f863a890c0be9ddcb1a1c03cdf5c105int, 0x2e5fea8beeb4aad19bd79283a155125c4101f158c0e41b44f1fb11fd73dc02bint, 0x58339576135b994897ff37dd8cbdf22438041fa5c88ab9244b2b43c3ee08deeeint);
    let e = lemma_chain_square(p, g, e, 0x58339576135b994897ff37dd8cbdf22438041fa5c88ab9244b2b43c3ee08deeeint, 0x431b2ccf27cf73c21ef22613924a7750e625031c2790cd74a0346bea037450fbint, 0x15bfc293349bd2a4f7fa9aae55b8cb60345583d4f179b887debc9676358d5449int);
    let e = lemma_chain_square(p, g, e, 0x15bfc293349bd2a4f7fa9aae55b8cb60345583d4f179b887debc9676358d5449int, 0x4148e2be41c7bf123c6b2809381dfe456abf461a944a69648af27b6cb97a1f4int, 0x1cc99f892749f9f60622878ba13d95d44d23ced14edecb2bf2638c7562925addint);
    let e = lemma_chain_multiply(p, g, e, 0x1cc99f892749f9f60622878ba13d95d44d23ced14edecb2bf2638c7562925addint, 0x30bf835d15774ec7f99482969f08e86b51a44c7971c64b254aed9a2c2c00b19int, 0xf2583221ce460a5bd93f5457dde945423246e5738c51540bb530d17e02ac538int);
    let e = lemma_chain_square(p, g, e, 0xf2583221ce460a5bd93f5457dde945423246e5738c51540bb530d17e02ac538int, 0x1fa9d10facbb42e4c7dbbc18bd9d890c21a57bb3cd7628745ba855a61a4208cint, 0x51f78d04dd73177b07233c0a374ff2405ffc91a931800639323b9b88ecab1bb4int);
    let e = lemma_chain_multiply(p, g, e, 0x51f78d04dd73177b07233c0a374ff2405ffc91a931800639323b9b88ecab1bb4int, 0x8accf4cfd1782756eef371bc22fd43f49075c2dd7b9dc86188cf727af6d33a4int, 0x2d41b5fe4a45bc4f1996d8a4bfd4eb5cd59fa38b225ef1de6fd7584de6eafee0int);
    let e = lemma_chain_square(p, g, e, 0x2d41b5fe4a45bc4f1996d8a4bfd4eb5cd59fa38b225ef1de6fd7584de6eafee0int, 0x11aae3469028ed3f0fa295407af4ae99e4884f473778a7e1f244e7082bee6987int, 0x41ccf2040fd5dd565c6a6c44a78aa911ea583e43ab5f3f61decbeef04352da79int);
    let e = lemma_chain_multiply(p, g, e, 0x41ccf2040fd5dd565c6a6c44a78aa911ea583e43ab5f3f61decbeef04352da79int, 0x6f6cc20500b7f794379b1bed2a1896352d05e9c4c1288dc7cb1739346495b1aint, 0xf217cb3a946bcb767e5e3dcec121578c631971e4e322678af2e27e1c946eb43int);
    let e = lemma_chain_square(p, g, e, 0xf217cb3a946bcb767e5e3dcec121578c631971e4e322678af2e27e1c946eb43int, 0x1f98ff20eda1278a6eb40ba950a1fa09436afd4e3e712b9a0fd837fd5618263int, 0x4f7579cee5e0d53fced01925d2ad2323a44d405b136caf92631065bde1769126int);
    let e = lemma_chain_square(p, g, e, 0x4f7579cee5e0d53fced01925d2ad2323a44d405b136caf92631065bde1769126int, 0x36765476643ee0a0ccaf6649aab3650051b66d149a3debd8e36c499614312225int, 0x2712562cd7497d566ddc068d3e1f6fc71575443917b0fb0df7b0c8b9d922ef7fint);
    let e = lemma_chain_square(p, g, e, 0x2712562cd7497d566ddc068d3e1f6fc71575443917b0fb0df7b0c8b9d922ef7fint, 0xd2b1d0c76a7e46ae1365632f25776c03eb94d220c9a90cb48c1cc38d8fec5abint, 0x254314ade8c2927921bb65c07159b0be0e79dc98ff30ce6113bdcdc9f2cb9b56int);
    let e = lemma_chain_square(p, g, e, 0x254314ade8c2927921bb65c07159b0be0e79dc98ff30ce6113bdcdc9f2cb9b56int, 0xbfa147f1a85f6527f5e25261d1e33f421d507392a1f22584524c2b043bc2420int, 0xed853e6f5d61cafcad647431feddb52aee8c18ec6382b7f605a9e1a0ce91cc4int);
    let e = lemma_chain_multiply(p, g, e, 0xed853e6f5d61cafcad647431feddb52aee8c18ec6382b7f605a9e1a0ce91cc4int, 0x19235e4dea796f4111cd10d2ab72a5fae295db1d0adc4576827b3d64b403b85int, 0x3dd479f5454967ce0dcb2b172ac73d5ce93d58a856569621c247fb7ed7f91c4fint);
}

/// A power of a power of the root 7 modulo the prime `q`: the steps from the exponent
/// 0
/// to the exponent
/// 238131277785.
proof fn lemma_power_q_19_part_1(p: int, g: int)
    requires
        p == q(),
        g == 0x7e55526ed9aac088441536bdec83efc6c7ad979070579b3a14faa23a260b30bint,
        pow_mod(g, 0, p) == 1,
    ensures
        pow_mod(g, 0x3771baefd9, p) == 0x6e3b6439a6e53b89bb8c6b2abfa7379ffe7254744b2b9f33a030524e9db5d264int,
{
    let e: nat = 0;
    let e = lemma_chain_square(p, g, e, 1, 0, 1);
    let e = lemma_chain_multiply(p, g, e, 1, 0, 0x7e55526ed9aac088441536bdec83efc6c7ad979070579b3a14faa23a260b30bint);
    let e = lemma_chain_square(p, g, e, 0x7e55526ed9aac088441536bdec83efc6c7ad979070579b3a14faa23a260b30bint, 0x89ac1042a6d452092f7b53a622fe0af24a69d6b1b9ec71b9e1ac22c995de67int, 0xbe8200d1ae3a148b533ce67f62e55b2010a1c5a0cd692faa1b84a66e7e28412int);
    let e = lemma_chain_multiply(p, g, e, 0xbe8200d1ae3a148b533ce67f62e55b2010a1c5a0cd692faa1b84a66e7e28412int, 0xcf9b460d67063a68b3f6dc6684c4b5818748df4df871adcc83b7c9e67422e9int, 0x2282d6c359a8b6ca8b3d457aff725042d4d9a1b1adf0e1a9216fe0a95d601fddint);
    let e = lemma_chain_square(p, g, e, 0x2282d6c359a8b6ca8b3d457aff725042d4d9a1b1adf0e1a9216fe0a95d601fddint, 0xa46128b1f65b03ddaf142f280fbc1bc15a1ffaa0928742fe3bde7c75d93ae4eint, 0x176724477213119c2954bd23cdc90aabc5f7d66075883ab6b837938f1e23967bint);
    let e = lemma_chain_square(p, g, e, 0x176724477213119c2954bd23cdc90aabc5f7d66075883ab6b837938f1e23967bint, 0x4b9746a520ef2a437a38c7aa5be80d0af0f2bc1bc25f41e02cd69ad6777b002int, 0x42fdb5956c740d51bc541e1c489291029c51feb5ce3be8b06ba401f5ea9eaf17int);
    let e = lemma_chain_multiply(p, g, e, 0x42fdb5956c740d51bc541e1c489291029c51feb5ce3be8b06ba401f5ea9eaf17int, 0x4900f3f27d62b14ff808f48c37e04608a3f35d03352549ca4b38f5afed40065int, 0x289cc942744cd30ce740b5d5141a9e0a8105afd2e5bb8250f54c161b410a9a98int);
    let e = lemma_chain_square(p, g, e, 0x289cc942744cd30ce740b5d5141a9e0a8105afd2e5bb8250f54c161b410a9a98int, 0xe3a3da91e3735fb6003113de9dce3d72e0c0e81649350a7031d6025ddccfafaint, 0x5d66273012673625755d4673eaf15279268d50b84a61cdc03044b9d5c36e3f46int);
    let e = lemma_chain_multiply(p, g, e, 0x5d66273012673625755d4673eaf15279268d50b84a61cdc03044b9d5c36e3f46int, 0x65c82b478354cc9496bec0f055a37863dc862e3d3750711c7af4b7ab2566519int, 0xd4a1b51802e7c07ab91a1abf2f8992ad4d411f9ae25d2a67c11bd67cfe444e9int);
    let e = lemma_chain_square(p, g, e, 0xd4a1b51802e7c07ab91a1abf2f8992ad4d411f9ae25d2a67c11bd67cfe444e9int, 0x1860063c11e92916faa9a84cd412ca1b77159004990b049b34460c277dbc477int, 0x62c0e841db8625b92a7ce53c029a5e118372c4a179a5853ea3cbd42e27b8d79aint);
    let e = lemma_chain_multiply(p, g, e, 0x62c0e841db8625b92a7ce53c029a5e118372c4a179a5853ea3cbd42e27b8d79aint, 0x6b9df3f79794969535b402c978055d39f52e92e88e35a2aef86e946010f30abint, 0x49626aa23182d1e3f528881e064c34a865ebcd65b61defb3f71046f54062c0f3int);
    let e = lemma_chain_square(p, g, e, 0x49626aa23182d1e3f528881e064c34a865ebcd65b61defb3f71046f54062c0f3int, 0x2e7418100fbfe4a1c65cb753977293fbe7a45f022036def20e161e5c427c2c55int, 0x173d9cc594bf9f1109972ada52dce93c84be03fec71614688b81c9a888fd3a54int);
    let e = lemma_chain_square(p, g, e, 0x173d9cc594bf9f1109972ada52dce93c84be03fec71614688b81c9a888fd3a54int, 0x4a8bed8a11dfe501cfe17add1c0dfacf8455110826a168aaaa52c907359ad6aint, 0x2488a2123a7aebeb203857bac01a042d94fb531118da524d849eff8f23f87e26int);
    let e = lemma_chain_multiply(p, g, e, 0x2488a2123a7aebeb203857bac01a042d94fb531118da524d849eff8f23f87e26int, 0x27d010278462601740668ad0b0d3bdd3ddf3f018cec14e10f382aeb4c69f5e3int, 0x579eb57e40686fdb4ee17ac5f49b3cfcd06b115eff66186149a1147a59b807bfint);
    let e = lemma_chain_square(p, g, e, 0x579eb57e40686fdb4ee17ac5f49b3cfcd06b115eff66186149a1147a59b807bfint, 0x423962b45a4bdcf6ba4ed6108c5f9e315ce36f40ece920ab115eca39d73f3c5dint, 0x1e9c4c365e6dc5249a1c45ca780f31bdb841fc9c728e4f0cd62d25dd198cc424int);
    let e = lemma_chain_multiply(p, g, e, 0x1e9c4c365e6dc5249a1c45ca780f31bdb841fc9c728e4f0cd62d25dd198cc424int, 0x215ba1add7030ec3acb603ae8f5947411c9298c432668ee8a842c6315a97e23int, 0x72df5dc47916bc8bedc9b7f9e13ec3c3a1bcb5a3d82882f3913eecf1c6081b69int);
    let e = lemma_chain_square(p, g, e, 0x72df5dc47916bc8bedc9b7f9e13ec3c3a1bcb5a3d82882f3913eecf1c6081b69int, 0x71d38a62d072493199cf5da7a187f846c90b54cc3aace8331916bc8854007020int, 0x241d000980cd7dffb8e48b204f057430681ed3df5d29363adac371f1d17ee0f1int);
    let e = lemma_chain_multiply(p, g, e, 0x241d000980cd7dffb8e48b204f057430681ed3df5d29363adac371f1d17ee0f1int, 0x275ac50dc7748e9b3245cde2f7b72dca92549083360ec003c0ad61dfa383ba3int, 0x3b8e7be9050e3a40181e8891018478b30564e4230b6d90f46f98054499e3f1b8int);
    let e = lemma_chain_square(p, g, e, 0x3b8e7be9050e3a40181e8891018478b30564e4230b6d90f46f98054499e3f1b8int, 0x1e98ab96bf1a278782654939a61f1c2c763afe861b6f43899d96cde5e487287dint, 0x1e2953319bb52b3d9f68afb792f2ba8a726e924f5545b84ae67c363b9c04cbc3int);
    let e = lemma_chain_square(p, g, e, 0x1e2953319bb52b3d9f68afb792f2ba8a726e924f5545b84ae67c363b9c04cbc3int, 0x7d8e167e69d35b5e43548297ce28408c36400ab8834afc0468d33e28f553e8aint, 0x3c429167524d14764f748bcb5bf1198a7a85633546a93de360f212f618f197ffint);
    let e = lemma_chain_square(p, g, e, 0x3c429167524d14764f748bcb5bf1198a7a85633546a93de360f212f618f197ffint, 0x1f52cb5777f0e7725bd88cf8ca8f5c9658d1409161c822c40cfd27be2dfe2945int, 0x27fbbc4dfa256538e742713d86ff93266ff8f0bac3dd5951ab3b2c1a2a5ea6bcint);
    let e = lemma_chain_square(p, g, e, 0x27fbbc4dfa256538e742713d86ff93266ff8f0bac3dd5951ab3b2c1a2a5ea6bcint, 0xdca466f1cef6a2e0762d738bf2d133fcf1061f2ae7d43c1b7d50c1f7ce035aaint, 0x3926630b6b0e587375f8c306093b1a285c6a650b96f21c9cf340d96f11c82466int);
    let e = lemma_chain_multiply(p, g, e, 0x3926630b6b0e587375f8c306093b1a285c6a650b96f21c9cf340d96f11c82466int, 0x3e47834e25cd2bac4b7f08b4f81c7ac677b7c227606b3c0d1c4caf11a0d7772int, 0xe4be3ea3faab2fff4f6e11ef9728f52a8dd66d72ed052589f04b5bdcd3f6af0int);
    let e = lemma_chain_square(p, g, e, 0xe4be3ea3faab2fff4f6e11ef9728f52a8dd66d72ed052589f04b5bdcd3f6af0int, 0x1c357c5728d7b570c772263fabe64f312849b1ea02db90e52eaf024f606d81eint, 0x65925913af324bb05fac3ebc65e14cfdf6a185cb9959adfa7c05cf5338c4c8e2int);
    let e = lemma_chain_multiply(p, g, e, 0x65925913af324bb05fac3ebc65e14cfdf6a185cb9959adfa7c05cf5338c4c8e2int, 0x6eb025396d10b297b5f15efe6cdb31d0e1c7e26180bd2278c062f5d7c3e2dc4int, 0x575375c84c1dd030da566266c9986903e71e8392f00913ff4d9c737be56c79f2int);
    let e = lemma_chain_square(p, g, e, 0x575375c84c1dd030da566266c9986903e71e8392f00913ff4d9c737be56c79f2int, 0x41c7d4157f0c1db945ae41b3df31d499b4584b1d8b6376c4f4b90a04978658c1int, 0x17d5b419ce9038a6ccbba1f5f21b1fe0cfc44c4660ccd5c28f25296a7ac05003int);
    let e = lemma_chain_square(p, g, e, 0x17d5b419ce9038a6ccbba1f5f21b1fe0cfc44c4660ccd5c28f25296a7ac05003int, 0x4e68176059b853ec1ecc8f75edb6b318d92bca0ae7a059a6186e0c11e7f57bbint, 0xaf06b7ca089036d33986bfd5f32e7b91dbc1408877ede03b3958c30db02884eint);
    let e = lemma_chain_multiply(p, g, e, 0xaf06b7ca089036d33986bfd5f32e7b91dbc1408877ede03b3958c30db02884eint, 0xbebc45323a4a1bd4391dfbe506d81cf3f446566483782ec4c190981213357aint, 0x12088cf05070b96bc52ea4ba11f04a45628eac3d10d88791d09cfdfc95972fe0int);
    let e = lemma_chain_square(p, g, e, 0x12088cf05070b96bc52ea4ba11f04a45628eac3d10d88791d09cfdfc95972fe0int, 0x2ce225cdaba3a52c2ee456a5faf20806db6adafedc38b9c66c6edb283f296a2int, 0x2448993b82298753ba37d10277e815f46063e0f7aac3736a23dc00f3bf416d5eint);
    let e = lemma_chain_multiply(p, g, e, 0x2448993b82298753ba37d10277e815f46063e0f7aac3736a23dc00f3bf416d5eint, 0x278a4800f015635c8cb9e56009dd23b80ceb451b6902aee66416111c98df12bint, 0x15d775125aadccdc2d34bdf71186a72a8a41ac91bdfe9b12d36e88e5acfa7bdfint);
    let e = lemma_chain_square(p, g, e, 0x15d775125aadccdc2d34bdf71186a72a8a41ac91bdfe9b12d36e88e5acfa7bdfint, 0x41d77428d9a0249bc2e8be8ca382f1468d9fab80b08f7c0d44799f5dcfc78e7int, 0x577058a82190bfb59ca5ddda11524d8a5da96a93200df1c526f8f770f67f935aint);
    let e = lemma_chain_multiply(p, g, e, 0x577058a82190bfb59ca5ddda11524d8a5da96a93200df1c526f8f770f67f935aint, 0x5f496a826a8633a52bc38dc0340bf23334bfb31e2294e157e2849e925af22b6int, 0x535b160fe9f1ca93cb134a4d2c26ba187bc3a449b1b7d54f2da78b66db942028int);
    let e = lemma_chain_square(p, g, e, 0x535b160fe9f1ca93cb134a4d2c26ba187bc3a449b1b7d54f2da78b66db942028int, 0x3bef6a9d4a4f6283c8367d7236f309550cb4cb17dab83446aaf26472a5fb6873int, 0x4f927984b343adf59b072191f58941ebbbd2e12f8efe17a59084d899fc4e9dcdint);
    let e = lemma_chain_square(p, g, e, 0x4f927984b343adf59b072191f58941ebbbd2e12f8efe17a59084d899fc4e9dcdint, 0x369e1c582b3efa6076a95f3e29d873c7c9846cd80f82918aea6c8f07ca1b482aint, 0x38c3e37fd25fa25ab620a6b697a5062be751839aa5d146e6740426fc5815cdffint);
    let e = lemma_chain_multiply(p, g, e, 0x38c3e37fd25fa25ab620a6b697a5062be751839aa5d146e6740426fc5815cdffint, 0x3ddc2c94a74942c6895d6accd02de7277fa98b71b65659340af5048201c081cint, 0x6ad07f844131586c4fbe2defaa2dabf454f35270616c90a487b32aa8857d1ed9int);
    let e = lemma_chain_square(p, g, e, 0x6ad07f844131586c4fbe2defaa2dabf454f35270616c90a487b32aa8857d1ed9int, 0x626ac46e39097757dffe95c8062abda6d3f0ac1827c1bf20b7a620f8e5bda145int, 0x4e9e325479cf4438c3c8ce6baba35a73541d9c6a41e33b63b7807050b7e3f2acint);
    let e = lemma_chain_square(p, g, e, 0x4e9e325479cf4438c3c8ce6baba35a73541d9c6a41e33b63b7807050b7e3f2acint, 0x3550c7e4540e5fd9fcb5ba4e78666f330893130bdd3c9aa13815c6b751059252int, 0x273fce1ad392c8e6349e01622545ade96a183a64ba04c2af93d5a704da0c113eint);
    let e = lemma_chain_multiply(p, g, e, 0x273fce1ad392c8e6349e01622545ade96a183a64ba04c2af93d5a704da0c113eint, 0x2ac5a10db24243e971f3455c86792d2b2c52578d556b2abfa80575d435ed379int, 0x59fafdf61527bc9fcf22fe2311e2e8216c302fab4cc10d44ddddfcb13e744431int);
    let e = lemma_chain_square(p, g, e, 0x59fafdf61527bc9fcf22fe2311e2e8216c302fab4cc10d44ddddfcb13e744431int, 0x45d72345f15566d145c6137e3991417e22f9a3748396db937900404099b160abint, 0x676f24831338409a3b6241dc5bd5e28079ba5710c18e8586c98e6a0200e0b0b6int);
    let e = lemma_chain_multiply(p, g, e, 0x676f24831338409a3b6241dc5bd5e28079ba5710c18e8586c98e6a0200e0b0b6int, 0x70b7bbe69cbec82a9e6f152788f89087e550593ac828be4bd41ed5d09d71e20int, 0x102f6ef75aba6f96216ebbfe48dfcb64a30d0666b6d0ac64e15cae6d8b9fbbb2int);
    let e = lemma_chain_square(p, g, e, 0x102f6ef75aba6f96216ebbfe48dfcb64a30d0666b6d0ac64e15cae6d8b9fbbb2int, 0x2427bd824a0552ab219881be256a7a320f7b9f4c575d20d85b3c08467e8c1ebint, 0x5df42aae97ac6fe3f8a6f6829bdd1da7747ab2fe3d924add0377a87894d0c5d9int);
    let e = lemma_chain_multiply(p, g, e, 0x5df42aae97ac6fe3f8a6f6829bdd1da7747ab2fe3d924add0377a87894d0c5d9int, 0x6662edcce8bb2706120dc1e8813f5b3af7dd245665c1ecf3b3fc101a2a9ea11int, 0x6e189e2202e6ff7b67c19c3470b0db50a5a06a87640a728f36a2c87440055142int);
    let e = lemma_chain_square(p, g, e, 0x6e189e2202e6ff7b67c19c3470b0db50a5a06a87640a728f36a2c87440055142int, 0x688eb1af3804b26065b1dc922ca6359df5a9b3321e128f33478343de37b1abd4int, 0x66fb09994c94cab6050a14063ae0a72ad923f23c659ade100381d4830ead2930int);
    let e = lemma_chain_square(p, g, e, 0x66fb09994c94cab6050a14063ae0a72ad923f23c659ade100381d4830ead2930int, 0x5b7a9f2e8afe7781885ca59b0fcbe1d88b24809c6ae622fb33939d60344112f3int, 0x5869b5739b101c7a07675c010c9ae1e7c87fb49f45afcc3975548254bd3f560dint);
    let e = lemma_chain_multiply(p, g, e, 0x5869b5739b101c7a07675c010c9ae1e7c87fb49f45afcc3975548254bd3f560dint, 0x605928de97a3d3a42a169fd0efffb7f74ca3755c3eb1e035e58d254eb15d71cint, 0x4fbd886c683dc881c60f8b8c9a45994f1931d3592f0e8c1cd7d950b9feadf273int);
    let e = lemma_chain_square(p, g, e, 0x4fbd886c683dc881c60f8b8c9a45994f1931d3592f0e8c1cd7d950b9feadf273int, 0x36d94862136e0c752b6b5a28793790acd17f5bd38afd8bf6c2194ff30e001adfint, 0x65d9e4a67d6fe924cbd0208d5cd9be687a39cbc4858f4274492ab86fbb0b84caint);
    let e = lemma_chain_multiply(p, g, e, 0x65d9e4a67d6fe924cbd0208d5cd9be687a39cbc4858f4274492ab86fbb0b84caint, 0x6efe1cae7c3bb6bc337b86c26c3b5128e80fc2b22d6d64b628ae223b892f7d3int, 0x3338dd24eceee2e890eb65b2037f550b4907a7be6896865a752edc3cfe84fadbint);
    let e = lemma_chain_square(p, g, e, 0x3338dd24eceee2e890eb65b2037f550b4907a7be6896865a752edc3cfe84fadbint, 0x16a1d3c6a364c37aaecfda5d7eeb85294df24a4b7f7249488e1c93f843efc4ccint, 0x38a5ac4f34772ad7670d7695dda6e99807f6ddfc6a444e8ae5115659f7b8b28dint);
    let e = lemma_chain_multiply(p, g, e, 0x38a5ac4f34772ad7670d7695dda6e99807f6ddfc6a444e8ae5115659f7b8b28dint, 0x3dbb3f21b57f70dfb655180979106200c7ac9b4cfcc61b401ea433d890f72d6int, 0x72fb72e02c1844c9d8160ee916d400869544bff3aa096e561a199f336f98d039int);
    let e = lemma_chain_square(p, g, e, 0x72fb72e02c1844c9d8160ee916d400869544bff3aa096e561a199f336f98d039int, 0x720b3874d63b6af7a20412add2e596a7e83e2f27706c49d4aaacc99143cc306bint, 0x3f206e435feeac2e4edf5909c877feb590c2a31610d2e38d52710b5917407c46int);
    let e = lemma_chain_multiply(p, g, e, 0x3f206e435feeac2e4edf5909c877feb590c2a31610d2e38d52710b5917407c46int, 0x44cae21df7c5b9c0ed0e96024a69c3f6b41715d93881c818c923299f11feb40int, 0x58a3c325054f6ef1b1fec4b8c06e7ea8e036b27f2cc27941fc6981210bca5dc2int);
    let e = lemma_chain_square(p, g, e, 0x58a3c325054f6ef1b1fec4b8c06e7ea8e036b27f2cc27941fc6981210bca5dc2int, 0x43c64bc85bf92462f7773f53cc48af010655adc7fb07dd162cccb8d60732c66bint, 0x5a677816390e33aa6d131f8d7499848155b51bc0d760956bb0bec19fbd4bc099int);
    let e = lemma_chain_multiply(p, g, e, 0x5a677816390e33aa6d131f8d7499848155b51bc0d760956bb0bec19fbd4bc099int, 0x6284ac3145a11a2fb6e3703dccd98b2b959edc79ed8b1780bd96f4264de9a0aint, 0x599a4dda1dda46bce23d59786ea6c40601fda9ef27710d20dbc30934c06da789int);
    let e = lemma_chain_square(p, g, e, 0x599a4dda1dda46bce23d59786ea6c40601fda9ef27710d20dbc30934c06da789int, 0x45415c141e86431831766922258d15036d4d4a0d4fc7ffcc52727c46f2d6d075int, 0x5afd3c3a570eb3b257f2e02f708d41cab7a91fc98ece9147b412b01ba57736dcint);
    let e = lemma_chain_multiply(p, g, e, 0x5afd3c3a570eb3b257f2e02f708d41cab7a91fc98ece9147b412b01ba57736dcint, 0x6327e17d349a02fc37cca14ef029d5e21f915ca884c87a4289a3db3063be6f6int, 0x723810f105f00e06899e7af79d1c101e497a94103f6fc13d4844a4a53bbf487eint);
    let e = lemma_chain_square(p, g, e, 0x723810f105f00e06899e7af79d1c101e497a94103f6fc13d4844a4a53bbf487eint, 0x7088ee4ac501d909d864f99f88e0c2e9cd815fcf2e1f6d122967803e9b694d9aint, 0x65f46d4f038f9fca7f910b7552e137d18faab2d4f304066afc586a1eb921d06aint);
    let e = lemma_chain_square(p, g, e, 0x65f46d4f038f9fca7f910b7552e137d18faab2d4f304066afc586a1eb921d06aint, 0x59aa6293b9410949e8db37bab644dbc54c283b3af58150094b7aa4865071620dint, 0x505919da0e683cf636b237f26acdd76495faaf03edf4e8e1e83d420f488f09d7int);
    let e = lemma_chain_multiply(p, g, e, 0x505919da0e683cf636b237f26acdd76495faaf03edf4e8e1e83d420f488f09d7int, 0x578f3f13ee6909cd3b48c6164adef295d1b9f002a6f13c21b7db563a3f343e7int, 0x62c407ef0564d5e2596dad371a1542564c5e076849e7bb55f25ded2a3cb37d56int);
    let e = lemma_chain_square(p, g, e, 0x62c407ef0564d5e2596dad371a1542564c5e076849e7bb55f25ded2a3cb37d56int, 0x5424dc84b69af6e3c089c607264c3a0175a71e009e6f3f23e00c6e1067348f6dint, 0x4848dc50686c285f271281372fa78a53b870531ab0cc20317eff1e2d6c6c8977int);
    let e = lemma_chain_multiply(p, g, e, 0x4848dc50686c285f271281372fa78a53b870531ab0cc20317eff1e2d6c6c8977int, 0x4ec5bbca6c37c5142b4a3a63286868477ed3733386a4253479ca34834cde728int, 0x12500581b5cd766f2532916cee95e052583dec3280c3562afcbf7b99329a35f5int);
    let e = lemma_chain_square(p, g, e, 0x12500581b5cd766f2532916cee95e052583dec3280c3562afcbf7b99329a35f5int, 0x2e48ab94562cfab7c734884f9ce366baf2fe3b8a683b1845546d08c5d046f66int, 0x6e2417fcab0328118752321b63d2652187e9602c0288e576998225ac4d1eed13int);
    let e = lemma_chain_square(p, g, e, 0x6e2417fcab0328118752321b63d2652187e9602c0288e576998225ac4d1eed13int, 0x68a47eee5e7f9de7bbff3248713efb2a19b23aa8f08ff40d79d57d1195fac3b9int, 0x4579bfaa4a7daf6a1163634c811074b16ab63c7561eae94d42c2f48944056bb0int);
    let e = lemma_chain_square(p, g, e, 0x4579bfaa4a7daf6a1163634c811074b16ab63c7561eae94d42c2f48944056bb0int, 0x29a2f53059c1641254e0381c9fe21ff05665d53b64ebdf0fb43a009c142ed2a3int, 0xd3d38c43316505b6ac5c41822459f6916e9aefb8ccd5f118bdc75b9cdfdc65dint);
    let e = lemma_chain_multiply(p, g, e, 0xd3d38c43316505b6ac5c41822459f6916e9aefb8ccd5f118bdc75b9cdfdc65dint, 0xe6d6a6b3d3f1abb1460ddda3eed7e264be1b2673e01f21908519b8eac4ba9bint, 0x6e3b6439a6e53b89bb8c6b2abfa7379ffe7254744b2b9f33a030524e9db5d264int);
}

/// A power of a power of the root 7 modulo the prime `q`: the steps from the exponent
/// 238131277785
/// to the exponent
/// 952525111143.
proof fn lemma_power_q_19_part_2(p: int, g: int)
    requires
        p == q(),
        g == 0x7e55526ed9aac088441536bdec83efc6c7ad979070579b3a14faa23a260b30bint,
        pow_mod(g, 0x3771baefd9, p) == 0x6e3b6439a6e53b89bb8c6b2abfa7379ffe7254744b2b9f33a030524e9db5d264int,
    ensures
        pow_mod(g, 0xddc6ebbf67, p) == 0x7510fcd786a247541500e17cf120be046c23c84b0fb3c82914ea88a7d6ca91aint,
{
    let e: nat = 0x3771baefd9;
    let e = lemma_chain_square(p, g, e, 0x6e3b6439a6e53b89bb8c6b2abfa7379ffe7254744b2b9f33a030524e9db5d264int, 0x68d0c899750c71c20192f9892d07865961e4bb8e711cc9f957632108467cd794int, 0x1e8ff10ade915d4d1ed0492dd75bd6971b6c1e9332e8ead3cb5680ad8fd35f7cint);
    let e = lemma_chain_multiply(p, g, e, 0x1e8ff10ade915d4d1ed0492dd75bd6971b6c1e9332e8ead3cb5680ad8fd35f7cint, 0x214e2a9aa5cc22f26f899ff7902868dd2001dab4f696c0b6de7f92066107ecdint, 0x3bd606a6f38d10e640792e947c9bf6e7a34c14b58c88163fc1858056da484f87int);
    let e = lemma_chain_square(p, g, e, 0x3bd606a6f38d10e640792e947c9bf6e7a34c14b58c88163fc1858056da484f87int, 0x1ee259a12fc369552eeb6145f562c555f8629f14eeba7f88685059dcfdfc9f7bint, 0x46d99b9745f390c1c7a7a6b42c9f919efb125aad81a16d0d782df030c2a7f9b6int);
    let e = lemma_chain_multiply(p, g, e, 0x46d99b9745f390c1c7a7a6b42c9f919efb125aad81a16d0d782df030c2a7f9b6int, 0x4d3584c0c8ec82e5ab9df2b9231b01f56f4fe381744236276ad604623a553b8int, 0x7510fcd786a247541500e17cf120be046c23c84b0fb3c82914ea88a7d6ca91aint);
}

/// A power of a power of the root 7 modulo the prime `q`.
proof fn lemma_power_q_19()
    ensures
        pow_mod(0x7e55526ed9aac088441536bdec83efc6c7ad979070579b3a14faa23a260b30bint, 0xddc6ebbf67, q()) == 0x7510fcd786a247541500e17cf120be046c23c84b0fb3c82914ea88a7d6ca91aint,
{
    let p = q();
    let g = 0x7e55526ed9aac088441536bdec83efc6c7ad979070579b3a14faa23a260b30bint;
    lemma_chain_start(p, g);
    lemma_power_q_19_part_1(p, g);
    lemma_power_q_19_part_2(p, g);
}

/// A power of a power of the root 7 modulo the prime `q`.
proof fn lemma_power_q_20()
    ensures
        pow_mod(0x7510fcd786a247541500e17cf120be046c23c84b0fb3c82914ea88a7d6ca91aint, 0xdd46d, q()) == 0x63c8787e2223d22082851d96fa745ab1156b3832dc76d91a2bd95632a3f36827int,
{
    let p = q();
    let g = 0x7510fcd786a247541500e17cf120be046c23c84b0fb3c82914ea88a7d6ca91aint;
    lemma_chain_start(p, g);
    let e: nat = 0;
    let e = lemma_chain_square(p, g, e, 1, 0, 1);
    let e = lemma_chain_multiply(p, g, e, 1, 0, 0x7510fcd786a247541500e17cf120be046c23c84b0fb3c82914ea88a7d6ca91aint);
    let e = lemma_chain_square(p, g, e, 0x7510fcd786a247541500e17cf120be046c23c84b0fb3c82914ea88a7d6ca91aint, 0x76372e7f322860dce4e4434fa5f923029ee94591f6c504143e3a3efb22bd09int, 0x120d2e26f2ae3e2bb5e5da57fc7460998a1ea7d92b9879fc7b483e148680999bint);
    let e = lemma_chain_multiply(p, g, e, 0x120d2e26f2ae3e2bb5e5da57fc7460998a1ea7d92b9879fc7b483e148680999bint, 0x123a8b6c5723d833334615b1b3ad3e3657f0f13dd096ed3f8ae87a396cf626aint, 0x736391d3bf9aef11236b3e3da898cc18c7739309c90ad3458922c476740b8a54int);
    let e = lemma_chain_square(p, g, e, 0x736391d3bf9aef11236b3e3da898cc18c7739309c90ad3458922c476740b8a54int, 0x72da20cda688aad7d5ad0884aea7efe07161f775b26e3c86f2f01cb914d36e77int, 0x2ec8a1f13487bcf19cda4b9421824e179b148bc0fd05990a341ed0f39233d19int);
    let e = lemma_chain_square(p, g, e, 0x2ec8a1f13487bcf19cda4b9421824e179b148bc0fd05990a341ed0f39233d19int, 0x12e141cd12883069da84ac0d60baac825c49b0a049100e1b3cb1b12c88639aint, 0x576b38ba7e181a69af88b82a7ed29a3b37d3652b09a7dfc2ebffdae5b8e288d7int);
    let e = lemma_chain_multiply(p, g, e, 0x576b38ba7e181a69af88b82a7ed29a3b37d3652b09a7dfc2ebffdae5b8e288d7int, 0x5846e8e61eceae106aeac0f83d9183ec25ff140c38f378d5a82f9d484a6089eint, 0xa0d10f4d3da8a82c2e2c5a0e56054a4e25ea6a7c82b2f2f5a3e69748465cc38int);
    let e = lemma_chain_square(p, g, e, 0xa0d10f4d3da8a82c2e2c5a0e56054a4e25ea6a7c82b2f2f5a3e69748465cc38int, 0xdf1605e808fc2801dc057a6db8e80e31ee3559c8730fca469640117b891863int, 0x3b0ac46de55a7eff296a657de1dceeee422621232bd4bfc44252fe260b9033ddint);
    let e = lemma_chain_multiply(p, g, e, 0x3b0ac46de55a7eff296a657de1dceeee422621232bd4bfc44252fe260b9033ddint, 0x3b9f24a411f0e81fe3894fd6fafae1da3fdcf0d08dddd784be2ff5b1180382bint, 0x739d4864ebd3ed017a546e39848e87ae324e9776fac9be83ef9f6d9a179df147int);
    let e = lemma_chain_square(p, g, e, 0x739d4864ebd3ed017a546e39848e87ae324e9776fac9be83ef9f6d9a179df147int, 0x734d212edf6017254cf61abc59921fd7139997b2684bb2c9e58dc09d583057edint, 0x37460e1dc0a6e39445ae506467f76e1eba23de065d6a5ffba67f19883e4c69c4int);
    let e = lemma_chain_multiply(p, g, e, 0x37460e1dc0a6e39445ae506467f76e1eba23de065d6a5ffba67f19883e4c69c4int, 0x37d0f5f47cdfc4e24b8fbeae9b098cd518666ff4e82b1e58aadcbd98b2a53c8int, 0x6c22404f96f4cc183cb1b98aecd316cf56c3955f683fd05715774c6e8d1ace20int);
    let e = lemma_chain_square(p, g, e, 0x6c22404f96f4cc183cb1b98aecd316cf56c3955f683fd05715774c6e8d1ace20int, 0x64dd02eb332004152e9f8e82b980e530511adc97da88d4a4ffa917368871428dint, 0x2ff8cb5b24e06ee6fa3f2339d1bbec334ad94473b26c5b20e5bad8b43c064173int);
    let e = lemma_chain_square(p, g, e, 0x2ff8cb5b24e06ee6fa3f2339d1bbec334ad94473b26c5b20e5bad8b43c064173int, 0x13d9de235736c97fd640d83f75a3a290546f775e2f270f3ba4c4fc2154b2ca03int, 0x3fca57cb1703c892771046cb3f4d76cc483d5655c798d0068e5ad66eb56ccfa6int);
    let e = lemma_chain_multiply(p, g, e, 0x3fca57cb1703c892771046cb3f4d76cc483d5655c798d0068e5ad66eb56ccfa6int, 0x406aa6cf9bef7b8f908d1b894a9e82dee9670ce466ef2b1275d2c24672b0f2bint, 0x2f59b2324706fd9eedeb717b95dce9304549aa2bc7f83416b1624ad182fe9db1int);
    let e = lemma_chain_square(p, g, e, 0x2f59b2324706fd9eedeb717b95dce9304549aa2bc7f83416b1624ad182fe9db1int, 0x13570c882fc3c69b36d16565daa92f404ead58e14ee6c9cc28e8a58e992a5b39int, 0x4f6f2c78a756ac3129e40d03fa345393306e3275af02e99947b51a1177343928int);
    let e = lemma_chain_square(p, g, e, 0x4f6f2c78a756ac3129e40d03fa345393306e3275af02e99947b51a1177343928int, 0x366db132b39f0603633a579119cc8ce3218809c27cdcfea595af1a300ab833d6int, 0x23b948110b01bc8f909e8c12e2fe333da751371e09259e251fa668c06a4aa26aint);
    let e = lemma_chain_multiply(p, g, e, 0x23b948110b01bc8f909e8c12e2fe333da751371e09259e251fa668c06a4aa26aint, 0x24130ea4d638e9488b1639edf5a7ecadfe8e1c6b8c12833c585ebad721e4df3int, 0x66b191fe813b7b158a5a3ff08169d2210811bd979348a27ab0d671e9e5662ad1int);
    let e = lemma_chain_square(p, g, e, 0x66b191fe813b7b158a5a3ff08169d2210811bd979348a27ab0d671e9e5662ad1int, 0x5af847abbd87a607b13e3892e272ab6df4fe7dd715130be906bbb39afd5cb900int, 0x4e94bb67a7414c80a18183f2ea42d6a37f1e03135ed307cc7f636937125885a1int);
    let e = lemma_chain_square(p, g, e, 0x4e94bb67a7414c80a18183f2ea42d6a37f1e03135ed307cc7f636937125885a1int, 0x3543f2672bb1988293c30cbc5b78d56fa2de443b8a4b96f9f35d13046ad496a9int, 0x1c2a642d565a054fe775ca74e608e8e08b0df4c662e75b3e10f592395d9c1898int);
    let e = lemma_chain_square(p, g, e, 0x1c2a642d565a054fe775ca74e608e8e08b0df4c662e75b3e10f592395d9c1898int, 0x6d7d080e679a57a43947537521e8a586d33691e9754855055a37570e81073ecint, 0x158b2387ec74bcfdd9efc4eceead563cd9c2ba7118fcb92783281b37838c6654int);
    let e = lemma_chain_square(p, g, e, 0x158b2387ec74bcfdd9efc4eceead563cd9c2ba7118fcb92783281b37838c6654int, 0x400e782a36fb5b0f88d9e86b8839a52d5992a496a9f2cabd5bf6ab66ecf41a4int, 0x55d104f1b00f48267a73ec37e5b43c3995f434e86c8cb3a9f2d284bf9df7c9ecint);
    let e = lemma_chain_multiply(p, g, e, 0x55d104f1b00f48267a73ec37e5b43c3995f434e86c8cb3a9f2d284bf9df7c9ecint, 0x56a8ae412232f1d25b50d715a0cf764d6c1b933d7d38817dd9680f40e39df90int, 0x19b3eace34fa388d0a2408cf7cd66d82884bbdee43ee68495a9db4b3fccd6e68int);
    let e = lemma_chain_square(p, g, e, 0x19b3eace34fa388d0a2408cf7cd66d82884bbdee43ee68495a9db4b3fccd6e68int, 0x5b2da2a3ff6e898fd2492422c06c854f462b31d38d3f7e49c4b3cab0693ede3int, 0x11ca780d02fcf941a8daf7e6ed553fcff84fe1fa9ea335a05a086cdebb999c5dint);
    let e = lemma_chain_multiply(p, g, e, 0x11ca780d02fcf941a8daf7e6ed553fcff84fe1fa9ea335a05a086cdebb999c5dint, 0x11f72dac3ae1af0db9f78b7729c5d8d20e7cc767684ce1f442a4e7b71e16e84int, 0x635eb63f08e890c9d9390636e601a3038aa2cb8ac7601e15d2c3b0c9642dd7eeint);
    let e = lemma_chain_square(p, g, e, 0x635eb63f08e890c9d9390636e601a3038aa2cb8ac7601e15d2c3b0c9642dd7eeint, 0x552d3ae1bf75a9630af579e50753efacdd4460a62432a0c2be588bcc0afff64fint, 0x1d93d609929bdb1afb88bb7fe24d6b7c21768fdbef200eab3953972684cdaaf5int);
    let e = lemma_chain_square(p, g, e, 0x1d93d609929bdb1afb88bb7fe24d6b7c21768fdbef200eab3953972684cdaaf5int, 0x78bd8f7643c609cff5aea7fa1a86bbb63af1833363628e90cf98fb393367d4fint, 0x24cc4f58808105169aaad00c2a701a0eca6610666fa0d95bccbb71df5355d12aint);
    let e = lemma_chain_multiply(p, g, e, 0x24cc4f58808105169aaad00c2a701a0eca6610666fa0d95bccbb71df5355d12aint, 0x2528c915857137bf5f7c03c126c283e25dbe9709ddfdbad219bef89bff48e6aint, 0x2d32a92c88e9af1dce10148b268e2fbefcafc1887ba91d74ffc8fd8c1d8f69daint);
    let e = lemma_chain_square(p, g, e, 0x2d32a92c88e9af1dce10148b268e2fbefcafc1887ba91d74ffc8fd8c1d8f69daint, 0x119f25104d02a773d0d7b995723dca605af0f1c1dbf29ae68c00f4309ebbe1a1int, 0x1d98b47a94cb694bc8d0233a88acca6ea9e28275badd48e92d966333294ac03int);
    let e = lemma_chain_multiply(p, g, e, 0x1d98b47a94cb694bc8d0233a88acca6ea9e28275badd48e92d966333294ac03int, 0x1de31523e479ab6c6365fa79707c264a82949266d06abae3f5b50eafbfa170int, 0x101204686613bb676d08142570d03a193a47bca922d7d8d94892ba4ca12bd1deint);
    let e = lemma_chain_square(p, g, e, 0x101204686613bb676d08142570d03a193a47bca922d7d8d94892ba4ca12bd1deint, 0x23a4c8e8f35be3f7154589c690d849b38441d68fae483675ad2c215d1038923int, 0x38e9d7e08378b91b77a9bb11627261cabd9a70d1c8e78b597bdc2056979cb361int);
    let e = lemma_chain_square(p, g, e, 0x38e9d7e08378b91b77a9bb11627261cabd9a70d1c8e78b597bdc2056979cb361int, 0x1bf0de28205daf102146622c32bb6e1d62a016055626a499d9726e5f689fb672int, 0x377baed4701c960801e7aef59313cea1bed5beda0a7848e77d048c62149144fint);
    let e = lemma_chain_multiply(p, g, e, 0x377baed4701c960801e7aef59313cea1bed5beda0a7848e77d048c62149144fint, 0x38071d70288c68c79397b082f4d32892585ff61f095f5fe72f2d1a2034cedfint, 0x63c8787e2223d22082851d96fa745ab1156b3832dc76d91a2bd95632a3f36827int);
}

/// A power of a power of the root 7 modulo the prime `q`.
proof fn lemma_power_q_21()
    ensures
        pow_mod(0x63c8787e2223d22082851d96fa745ab1156b3832dc76d91a2bd95632a3f36827int, 0xf2f5565, q()) == 0x4b11569521af839931a5fb948d45c34bf87b7fc14f41215b554781951820e40eint,
{
    let p = q();
    let g = 0x63c8787e2223d22082851d96fa745ab1156b3832dc76d91a2bd95632a3f36827int;
    lemma_chain_start(p, g);
    let e: nat = 0;
    let e = lemma_chain_square(p, g, e, 1, 0, 1);
    let e = lemma_chain_multiply(p, g, e, 1, 0, 0x63c8787e2223d22082851d96fa745ab1156b3832dc76d91a2bd95632a3f36827int);
    let e = lemma_chain_square(p, g, e, 0x63c8787e2223d22082851d96fa745ab1156b3832dc76d91a2bd95632a3f36827int, 0x55e2e9ad2a1e605b20230506dd38ad9364206476ad01526a4d408bff91095ef8int, 0x267169e15683a4814fcc53498d4d761b26491d55d3028648edf59444fd6056f9int);
    let e = lemma_chain_multiply(p, g, e, 0x267169e15683a4814fcc53498d4d761b26491d55d3028648edf59444fd6056f9int, 0x2116cecec1a3909ed6be5d11e76b65248b4828c12fa6475a1d6a2e862879c754int, 0x19a6511be55e45cc899f328ddf73beda8c53c10eab08cff3209fb2b4ade3a09bint);
    let e = lemma_chain_square(p, g, e, 0x19a6511be55e45cc899f328ddf73beda8c53c10eab08cff3209fb2b4ade3a09bint, 0x5acd3e30996adab096eb621068c6e8541182d793f829bb334bec33e5b35bd2fint, 0x64ca6e8093c79fdd025e7bd81a6cbae6f752dd177093b39f08fd1605a6e60aaint);
    let e = lemma_chain_multiply(p, g, e, 0x64ca6e8093c79fdd025e7bd81a6cbae6f752dd177093b39f08fd1605a6e60aaint, 0x56c0f2a02209c53d63ed003d2c9383673c0bc73b0f6071ebade2753387cc8ecint, 0x9ecce0ee631526af21e40479b1130d867507715676f3c5e4c2c78964f700faint);
    let e = lemma_chain_square(p, g, e, 0x9ecce0ee631526af21e40479b1130d867507715676f3c5e4c2c78964f700faint, 0xd986e6821ccfcfd8fdde79c0436fe44d2edb7cc7defd99642c2256146fa9int, 0x5f26d9ab889d5af4f54b45b80feb2cd35fdda655ebf80261c34de230dc58847bint);
    let e = lemma_chain_multiply(p, g, e, 0x5f26d9ab889d5af4f54b45b80feb2cd35fdda655ebf80261c34de230dc58847bint, 0x51e669ad0c4d68289c84076d5b874a53535c5f4d8387976504d905cd39b2386cint, 0x47ef31c44d545e98d5aa12e59c6b3f85cbd3fb4cc317d95b255637fa5f5cee51int);
    let e = lemma_chain_square(p, g, e, 0x47ef31c44d545e98d5aa12e59c6b3f85cbd3fb4cc317d95b255637fa5f5cee51int, 0x2ca2c236431cb773cc924aa163ee423e3ceddeaa43497cfee365bfe8826d369aint, 0x2de7c67ec6324f9d41caa6624c855a5c7e95df27e8c95a457ae1d581c3a57f07int);
    let e = lemma_chain_square(p, g, e, 0x2de7c67ec6324f9d41caa6624c855a5c7e95df27e8c95a457ae1d581c3a57f07int, 0x122d79a52fa03315f2016e93b7bc5213fcf90a260549f85f95a96efcaf9f53abint, 0x1fa5e3fd92ffc7d9d1a8788617ce5166ae74d8d3516d936237f51a3df86e9e86int);
    let e = lemma_chain_square(p, g, e, 0x1fa5e3fd92ffc7d9d1a8788617ce5166ae74d8d3516d936237f51a3df86e9e86int, 0x8a3c95283fc2bfb05131c1857647386c582424a61ed7659d5d21393cb26fba5int, 0x5993b6ca606387ff93ff2c80f9728a06b2d981b1acf40c6c3d22edd722ab27fint);
    let e = lemma_chain_multiply(p, g, e, 0x5993b6ca606387ff93ff2c80f9728a06b2d981b1acf40c6c3d22edd722ab27fint, 0x4d1a085cc4ca0c76025c1ced915e666bfb8c7e90941e36a4ea3c67f07df5319int, 0x4363dfebf58b928c21c82d90ddd0d7ecf0670b66ffb0d209b423bbb400b27640int);
    let e = lemma_chain_square(p, g, e, 0x4363dfebf58b928c21c82d90ddd0d7ecf0670b66ffb0d209b423bbb400b27640int, 0x272ca9ac9204336dd3ac18588c4e8aa1dd7532b72bb9af1e986faa34d90cedf9int, 0x4a7abc2fc71b628ab6c079591ec50dde60808d7f68905c3b49d58a2cce922207int);
    let e = lemma_chain_square(p, g, e, 0x4a7abc2fc71b628ab6c079591ec50dde60808d7f68905c3b49d58a2cce922207int, 0x2fd9a23de89c3e893736388abf51d653c058b66e716a66b10065702312a5789eint, 0x64093c561d12dc7b8dbb692aebff62d54657022e1a27de6be580c91105dc6393int);
    let e = lemma_chain_multiply(p, g, e, 0x64093c561d12dc7b8dbb692aebff62d54657022e1a27de6be580c91105dc6393int, 0x561aa875676f817986dee3ad101152a19d5093211a10f1519125506e2cc2f68cint, 0x5cbe2f20ef8590991fc5e9e99a4b808ae7008c3486f8485cdce8ea665dccecd9int);
    let e = lemma_chain_square(p, g, e, 0x5cbe2f20ef8590991fc5e9e99a4b808ae7008c3486f8485cdce8ea665dccecd9int, 0x4a31cbd6857057702cbad430da19311721a866bd506b4213661a3068b6df34a1int, 0x3fe77232397219b602088b6de24bf90a12d02028613c19da14bcfd4448199b50int);
    let e = lemma_chain_multiply(p, g, e, 0x3fe77232397219b602088b6de24bf90a12d02028613c19da14bcfd4448199b50int, 0x370114459f0dc41a32df2a81b7555571a73802abf6ed78b6da2243292a1b4e8fint, 0x3798b387e23f3fb76c1dbd8be7a039574a4ee805892daac7e75d51e995d3daa1int);
    let e = lemma_chain_square(p, g, e, 0x3798b387e23f3fb76c1dbd8be7a039574a4ee805892daac7e75d51e995d3daa1int, 0x1aa9aacbee06415f3d54ca7da71af1d0370ba67c8e91c9b73a825de3ef197c18int, 0x16b5b4d32682d1667675b2126c317f7d55a987de114801003f3f45179b031d29int);
    let e = lemma_chain_multiply(p, g, e, 0x16b5b4d32682d1667675b2126c317f7d55a987de114801003f3f45179b031d29int, 0x138c09409b0cf64879f2b83b02ff0ec9ae814c1e2852cf804200532b42044d3bint, 0x8cc3413446d2e566dc973b545b0f46406719ad59ad43f10e0fcaf296838cc04int);
    let e = lemma_chain_square(p, g, e, 0x8cc3413446d2e566dc973b545b0f46406719ad59ad43f10e0fcaf296838cc04int, 0xaaeacaee3bd0da585cfec81caed756b330a94acb7b5b242da655aaddf40005int, 0x3365e0012c1fb9c593d6a9e0cc45cfc6deeddc330a0cdf148bbaadff4662600bint);
    let e = lemma_chain_multiply(p, g, e, 0x3365e0012c1fb9c593d6a9e0cc45cfc6deeddc330a0cdf148bbaadff4662600bint, 0x2c3d636b068eaeaa612ce7cac7b223863cb5062113fe8b320fb04c14da46817cint, 0x445d0f483a795e42696e134644a4fa8ae0c690f4bc0e8764aba45291012b9831int);
    let e = lemma_chain_square(p, g, e, 0x445d0f483a795e42696e134644a4fa8ae0c690f4bc0e8764aba45291012b9831int, 0x28507638a54a9a1803075d9613a4ad9f2ccf74c1d738972995065170dcdc9513int, 0x56df067888d4fe6f349a4c3b5565ac9ccd2b78fa9d2703b0fd816dc10013a44eint);
    let e = lemma_chain_square(p, g, e, 0x56df067888d4fe6f349a4c3b5565ac9ccd2b78fa9d2703b0fd816dc10013a44eint, 0x4118dec557c42952a8e4165a3ea6d09a9d26ba85dfca192a65e8db417887f726int, 0x8870476a50c1a55e181bbbe15b8903cd25c0fcea277a29cacc347025480109eint);
    let e = lemma_chain_multiply(p, g, e, 0x8870476a50c1a55e181bbbe15b8903cd25c0fcea277a29cacc347025480109eint, 0x756fd87d2bfe4b40a9af3b2565075b7681010813931459c7f6d8b65abae54b9int, 0x3ffc5d954b755dfdcd6d863681f525cc249c6db4ed01465edc63a0029a8e6359int);
    let e = lemma_chain_square(p, g, e, 0x3ffc5d954b755dfdcd6d863681f525cc249c6db4ed01465edc63a0029a8e6359int, 0x2351061edbb88e9eabe0f14b77f9647f9180d8b1bdad1afab330b4a05deb36caint, 0x525693c8bb35ca60c8ec7a1f719fcf11e79bad11c8955fe63d48ee47135ebe27int);
    let e = lemma_chain_square(p, g, e, 0x525693c8bb35ca60c8ec7a1f719fcf11e79bad11c8955fe63d48ee47135ebe27int, 0x3a7b13904c76f0cc5853ecdeceb0557f4edf71f7e007c03a6127ce0b5987299cint, 0xe255bc47b8d569964eca86facdb0dbc5152995bc8ae0f2a6de48c7ca25ac055int);
    let e = lemma_chain_multiply(p, g, e, 0xe255bc47b8d569964eca86facdb0dbc5152995bc8ae0f2a6de48c7ca25ac055int, 0xc2d03c91711a63ef4f4840c1308a267414aafab41b9614d3f14ac660e9b6741int, 0x3c5e0d95cb1bf87f8c93db8600a6af1c6b4a9326137779999d7bc7013b096db2int);
    let e = lemma_chain_square(p, g, e, 0x3c5e0d95cb1bf87f8c93db8600a6af1c6b4a9326137779999d7bc7013b096db2int, 0x1f6f64bb20d90e4d3af1db5325e728bb2fb66dc8d85c6bcddaa80096b5d729acint, 0x68d4e016f417f4ddef69d3a8cd1e2287089cf108f33f869ec47619623bade618int);
    let e = lemma_chain_square(p, g, e, 0x68d4e016f417f4ddef69d3a8cd1e2287089cf108f33f869ec47619623bade618int, 0x5ecc05025151461e3808914223bc20b0b6908d7081fb3aac7941695fe98b72adint, 0x244ad3e812fdca46094137ccc5abc9b28cd792bc04c43cff046881dcf1b3af93int);
    let e = lemma_chain_multiply(p, g, e, 0x244ad3e812fdca46094137ccc5abc9b28cd792bc04c43cff046881dcf1b3af93int, 0x1f3ce6d2c899ba3d721aeb2e06dcd53061058cc503ddeba6797b964cf28cc0f1int, 0x6628c63019c33b35014ab1cd2fb9a9096c9c616854038433a30c388e20afb674int);
    let e = lemma_chain_square(p, g, e, 0x6628c63019c33b35014ab1cd2fb9a9096c9c616854038433a30c388e20afb674int, 0x5a068d6528d5b247b5816db4cd4f40e100667b30ea9ef7ab09779cc72cb9f882int, 0x4bbc0d4974aa8d220d66f783a48f61936fc592275f9b87dc1d0feaa2c7e72c0eint);
    let e = lemma_chain_square(p, g, e, 0x4bbc0d4974aa8d220d66f783a48f61936fc592275f9b87dc1d0feaa2c7e72c0eint, 0x3179fac9fd363a0340cb8c19afdb94e3ea03ac9f77e7e5c7a4b9b54bb570bf6aint, 0x216f6395790aab3ae7353fd772b99d480fb0998c3676bd049f919b149768115aint);
    let e = lemma_chain_multiply(p, g, e, 0x216f6395790aab3ae7353fd772b99d480fb0998c3676bd049f919b149768115aint, 0x1cc7546c871dbb1d590def2f214ee3a2583fb35b4e18454c1ad0f9ddb566f5baint, 0x2a1ceca6aa483a71bd1982d549cbc32093b498a84051bfeebd2993ea68ee3efcint);
    let e = lemma_chain_square(p, g, e, 0x2a1ceca6aa483a71bd1982d549cbc32093b498a84051bfeebd2993ea68ee3efcint, 0xf4c5bc75e68329c7f5595b7c42891d7d33827f3e96a4fbd50d035456407ab8eint, 0x119c0cdccad8bcce5fd741f3f6f5d84af30ce71aaed01e1bf2d273de88075c82int);
    let e = lemma_chain_square(p, g, e, 0x119c0cdccad8bcce5fd741f3f6f5d84af30ce71aaed01e1bf2d273de88075c82int, 0x2acc66a43b3dfad748d1cf4839e449169a93565ecdefd8debdc9cbe9355a9c2int, 0x5fde8a3a957f5acd28cd97d2aeb73f452a47665d9a0852ff06ea1cfbbd340842int);
    let e = lemma_chain_multiply(p, g, e, 0x5fde8a3a957f5acd28cd97d2aeb73f452a47665d9a0852ff06ea1cfbbd340842int, 0x528485298c3432a9be1bd7e8969386c2db57afcce4657d55dd83100e388352fbint, 0x5c4367112427ce8a719637935ebc3a8bd2a9ef505a91b3f6d5bf74ad9a6abf13int);
    let e = lemma_chain_square(p, g, e, 0x5c4367112427ce8a719637935ebc3a8bd2a9ef505a91b3f6d5bf74ad9a6abf13int, 0x496dda730ae46baa52c08ef7a010e0e8dcda92dc3da8d7db9a25440fe3e017f0int, 0x3e8f51f10422547322c692abe5530a5b26dd9f2ef6b3e591d4a8e5f3c2794379int);
    let e = lemma_chain_multiply(p, g, e, 0x3e8f51f10422547322c692abe5530a5b26dd9f2ef6b3e591d4a8e5f3c2794379int, 0x35d8e11c9b57714a38634aaa265bf67c0f76a0342729051a5cdc27a22b6c41cbint, 0x4e76752b5ba22066d281b3f7340f6d4cf08cc6892f5f7e0589d5cbffcf512da4int);
    let e = lemma_chain_square(p, g, e, 0x4e76752b5ba22066d281b3f7340f6d4cf08cc6892f5f7e0589d5cbffcf512da4int, 0x351aef7412b7218b1337c0f5a17037a7f051d73d0a3ce397098d97f0612587ffint, 0x451530f7ef92eb563d52625b45a4daa08824952ff38963193c7f5653c0c58911int);
    let e = lemma_chain_square(p, g, e, 0x451530f7ef92eb563d52625b45a4daa08824952ff38963193c7f5653c0c58911int, 0x292ac55647496bf742ef10d46409f9d5cfcf738b1cda3d860d7d4809e5dfff40int, 0x51a4641e2611fd3c418fe7fc8419bca699bc588bc4a4323f1897ea41d7ad33e1int);
    let e = lemma_chain_square(p, g, e, 0x51a4641e2611fd3c418fe7fc8419bca699bc588bc4a4323f1897ea41d7ad33e1int, 0x397f0850b92d05b5b3043a735bb79e72d45e566b09ac2e0271d6688cf7dd100fint, 0x14fb3baf18310a6aba61cd77a13cca150632290966a4aa9cc7f4b6171ec05bb2int);
    let e = lemma_chain_multiply(p, g, e, 0x14fb3baf18310a6aba61cd77a13cca150632290966a4aa9cc7f4b6171ec05bb2int, 0x120f2f92197111afe2c86c0dd1d11aefab860d9657517be87a2164b4b183aad5int, 0x50a6aaa472bc9493c2710e3ec1fc024974c62d4a0f2b3b59e86bc7e183009d49int);
    let e = lemma_chain_square(p, g, e, 0x50a6aaa472bc9493c2710e3ec1fc024974c62d4a0f2b3b59e86bc7e183009d49int, 0x381bd513c484aa01c6b901a55725a368d6b931b35c7e9bfdfce92c3006fb237aint, 0x3536329f3db9bae91c08531b348986c67034f130e111de5853bd90950fa77b57int);
    let e = lemma_chain_square(p, g, e, 0x3536329f3db9bae91c08531b348986c67034f130e111de5853bd90950fa77b57int, 0x186ca8e7d51ebc60bad115a6d71cfbbc227a066d87643db784796aa6c66983ecint, 0x408213239172f78a5a668871e6ef2e5b658c731fe27350596f129a91928533a5int);
    let e = lemma_chain_multiply(p, g, e, 0x408213239172f78a5a668871e6ef2e5b658c731fe27350596f129a91928533a5int, 0x37862c4067c29a1e8616ed1538714058471761d0e27d8d4ad4d098bf6bc40215int, 0x4b11569521af839931a5fb948d45c34bf87b7fc14f41215b554781951820e40eint);
}

/// A power of a power of the root 7 modulo the prime `q`.
proof fn lemma_power_q_22()
    ensures
        pow_mod(0x63c8787e2223d22082851d96fa745ab1156b3832dc76d91a2bd95632a3f36827int, 0x13, q()) == 0x4a7a5acf5dc0e762414782ae22b4119ca76fee9d4c748ed263a7435fa7fde54fint,
{
    let p = q();
    let g = 0x63c8787e2223d22082851d96fa745ab1156b3832dc76d91a2bd95632a3f36827int;
    lemma_chain_start(p, g);
    let e: nat = 0;
    let e = lemma_chain_square(p, g, e, 1, 0, 1);
    let e = lemma_chain_multiply(p, g, e, 1, 0, 0x63c8787e2223d22082851d96fa745ab1156b3832dc76d91a2bd95632a3f36827int);
    let e = lemma_chain_square(p, g, e, 0x63c8787e2223d22082851d96fa745ab1156b3832dc76d91a2bd95632a3f36827int, 0x55e2e9ad2a1e605b20230506dd38ad9364206476ad01526a4d408bff91095ef8int, 0x267169e15683a4814fcc53498d4d761b26491d55d3028648edf59444fd6056f9int);
    let e = lemma_chain_square(p, g, e, 0x267169e15683a4814fcc53498d4d761b26491d55d3028648edf59444fd6056f9int, 0xcbf83710ac8d7f19e4db0394d3ad046bd96e3858188d9792b7a3da45ce6b0adint, 0x5b21cd4c83751d2eb70830fe5a49f5478aef266192e6b3e6ae8c1f7a25658d84int);
    let e = lemma_chain_square(p, g, e, 0x5b21cd4c83751d2eb70830fe5a49f5478aef266192e6b3e6ae8c1f7a25658d84int, 0x47a3b69b7a844fba68827aa9fcf68bc2618e864addc35a33021d6f83a912b22aint, 0x2575c5d761606304a67461d11cdb04aea74ce3810598537321dc9fa7774ff9e6int);
    let e = lemma_chain_multiply(p, g, e, 0x2575c5d761606304a67461d11cdb04aea74ce3810598537321dc9fa7774ff9e6int, 0x203e367ee7e6ad095e906c762441e62a534987c31a9e0ed8d5af263bca4f2ae3int, 0x3c6b11a686b5578329c9fea88419fa9bdbddf89a9a60228f8c8e9f9687b75727int);
    let e = lemma_chain_square(p, g, e, 0x3c6b11a686b5578329c9fea88419fa9bdbddf89a9a60228f8c8e9f9687b75727int, 0x1f7cf468334533f7df110fc5522caa5f00d2c9f5459de095492406906c110eaaint, 0x6797ad69c28470ec479e391f81ff1d523d75580119cb42078b407d066d5c7947int);
    let e = lemma_chain_multiply(p, g, e, 0x6797ad69c28470ec479e391f81ff1d523d75580119cb42078b407d066d5c7947int, 0x592a4da2b029b40df3183d122a421236c42a2f6bbab6de97d7710b67e5c26c82int, 0x4a7a5acf5dc0e762414782ae22b4119ca76fee9d4c748ed263a7435fa7fde54fint);
}

/// A power of a power of the root 7 modulo the prime `q`.
proof fn lemma_power_q_23()
    ensures
        pow_mod(0x7510fcd786a247541500e17cf120be046c23c84b0fb3c82914ea88a7d6ca91aint, 0x12083567f, q()) == 0x67ee5d1f3b069511cd89744d5897256537cb1d8475a21d7924a57ba2b69a4d76int,
{
    let p = q();
    let g = 0x7510fcd786a247541500e17cf120be046c23c84b0fb3c82914ea88a7d6ca91aint;
    lemma_chain_start(p, g);
    let e: nat = 0;
    let e = lemma_chain_square(p, g, e, 1, 0, 1);
    let e = lemma_chain_multiply(p, g, e, 1, 0, 0x7510fcd786a247541500e17cf120be046c23c84b0fb3c82914ea88a7d6ca91aint);
    let e = lemma_chain_square(p, g, e, 0x7510fcd786a247541500e17cf120be046c23c84b0fb3c82914ea88a7d6ca91aint, 0x76372e7f322860dce4e4434fa5f923029ee94591f6c504143e3a3efb22bd09int, 0x120d2e26f2ae3e2bb5e5da57fc7460998a1ea7d92b9879fc7b483e148680999bint);
    let e = lemma_chain_square(p, g, e, 0x120d2e26f2ae3e2bb5e5da57fc7460998a1ea7d92b9879fc7b483e148680999bint, 0x2cf93486562bddc2a32e04dd63fe21f55260f49a2fee550405f0872ed5e8d60int, 0x54441595da339f19a4d8eabce850b6a7621ef27836fc4e679b597a8d4dcc1679int);
    let e = lemma_chain_square(p, g, e, 0x54441595da339f19a4d8eabce850b6a7621ef27836fc4e679b597a8d4dcc1679int, 0x3d404f7913c56db20d5e3d976d3a887b02b74bea2045bbe4f6830a3f27fb027fint, 0x591a1b89e91b593b688fea8e90193fba42b8ffd69d94b57aa77a75c274d602b2int);
    let e = lemma_chain_multiply(p, g, e, 0x591a1b89e91b593b688fea8e90193fba42b8ffd69d94b57aa77a75c274d602b2int, 0x59fa068c66a4a76cd73772530bd93b942d76cd5148f3149865fd2db4fb03082int, 0x190d30b50d6ad0b4f49d913636e4aee8bc362f559e10f2e155f1c015e2eb9792int);
    let e = lemma_chain_square(p, g, e, 0x190d30b50d6ad0b4f49d913636e4aee8bc362f559e10f2e155f1c015e2eb9792int, 0x569db9c505cf8d054a2c4a70d75a7be065efc2fc61aa1aa07fadbd0c0b46552int, 0x1220a98e3b024f5ed0a20106a7b32e50fb4a2a5431c6269774c437e2a71529f2int);
    let e = lemma_chain_square(p, g, e, 0x1220a98e3b024f5ed0a20106a7b32e50fb4a2a5431c6269774c437e2a71529f2int, 0x2d5a7c22ad03073f4f35d34d89ae749fcf0a46335956770791bc7d2fdd9f1dcint, 0x3a53d1436147973bd48719ad85d41d02991f0b67c29ec89c95bed3caa6b976e8int);
    let e = lemma_chain_square(p, g, e, 0x3a53d1436147973bd48719ad85d41d02991f0b67c29ec89c95bed3caa6b976e8int, 0x1d58b205fcf1a60d7046390d40b0cc7954200933dad4248b62f6592ed09932eeint, 0x3861de2064c304bebb783155dd05f98f856c2a14089859494149fc7121f17f52int);
    let e = lemma_chain_square(p, g, e, 0x3861de2064c304bebb783155dd05f98f856c2a14089859494149fc7121f17f52int, 0x1b6bfae479cbd72a655090a33c38cb5739fbb12be4bad313dd3b4c2b35c237bdint, 0x6c467f71c7233cd8f5de8a76f74a963f19f6144dce0750cd07a6e899e5f43e87int);
    let e = lemma_chain_square(p, g, e, 0x6c467f71c7233cd8f5de8a76f74a963f19f6144dce0750cd07a6e899e5f43e87int, 0x6520acbce7b57cfd58ad22ac1adc9f8453f2fed27fbff0effc96bacdc572ca60int, 0x383647f767603686996f1d636f62818b119106ac1b7279ef9fc65dd5012ae0d1int);
    let e = lemma_chain_square(p, g, e, 0x383647f767603686996f1d636f62818b119106ac1b7279ef9fc65dd5012ae0d1int, 0x1b41a5a1c0291eebccc89b444222e9a7cfad674bba4fe92be731f40a5cffbd9cint, 0x3f52c0ab4755f3a51a01512b9d566c8e093ed93503049663efcd1c4bcf02ad05int);
    let e = lemma_chain_multiply(p, g, e, 0x3f52c0ab4755f3a51a01512b9d566c8e093ed93503049663efcd1c4bcf02ad05int, 0x3ff1e3265e0ce2de9e5af0f0a444eb2819270cfa87f1a29740cf61fee4546b1int, 0x63006f218d63126d98b05934dfea1433b13594fd3819b787164d6c3b4b5498d1int);
    let e = lemma_chain_square(p, g, e, 0x63006f218d63126d98b05934dfea1433b13594fd3819b787164d6c3b4b5498d1int, 0x548be7e4ac8ef035219e92ca567684f87226ca23b65f04da9057c43cf8afe99fint, 0x3dfbb04fc9fe8ef2db594dd1ef5affa47ab92ed396d76fe2722b9b3721b0f102int);
    let e = lemma_chain_square(p, g, e, 0x3dfbb04fc9fe8ef2db594dd1ef5affa47ab92ed396d76fe2722b9b3721b0f102int, 0x2123f19c965583381a16f8e8745ad888f9ff94ee0662a32c62ef9a36f7512164int, 0x13374d7e187c10b29b66c04d59791292ddf00f33220e22b9155c9a77d253a2a0int);
    let e = lemma_chain_square(p, g, e, 0x13374d7e187c10b29b66c04d59791292ddf00f33220e22b9155c9a77d253a2a0int, 0x32f69ae5049d9b88191a7cad92d3aefa45db5cafef180c8e823647b90d535e6int, 0xd0a12142d31d7bc946ec4db271c0e04a7bf1b60cfdd42c5a1e8d44bca39ae1aint);
    let e = lemma_chain_square(p, g, e, 0xd0a12142d31d7bc946ec4db271c0e04a7bf1b60cfdd42c5a1e8d44bca39ae1aint, 0x17775461ade1af6542e7894d0fd4d5bf353442cbc699ec6083df8e451fdef0aint, 0x1a01f1914414674b7ae2cf98d85368a46f0db33ca736c01432c61d21b3fd6b9aint);
    let e = lemma_chain_square(p, g, e, 0x1a01f1914414674b7ae2cf98d85368a46f0db33ca736c01432c61d21b3fd6b9aint, 0x5d5a8010fd56e9fd242131010013a14595014833307e25819b14fb61281a6f7int, 0x4e009da2b882736d2bf78b155a595b77df0718717ed231a6e34b584c251c71adint);
    let e = lemma_chain_square(p, g, e, 0x4e009da2b882736d2bf78b155a595b77df0718717ed231a6e34b584c251c71adint, 0x347be333ef52eca232445994c0bd80b100018497a6400433f54cd48d6e9e55b4int, 0x31a9d696019f17c23a48e66086117fc83a47178d3764bcd67f1b2be3a3b3d935int);
    let e = lemma_chain_multiply(p, g, e, 0x31a9d696019f17c23a48e66086117fc83a47178d3764bcd67f1b2be3a3b3d935int, 0x3226a522b127becf3aef47e605a8e426937ef179e64d5d7e5c1ea1670d86d72int, 0x39a9fbca5b30d46630805c915ac847555ac46164aaf2b928876dff0c6d2b9ef0int);
    let e = lemma_chain_square(p, g, e, 0x39a9fbca5b30d46630805c915ac847555ac46164aaf2b928876dff0c6d2b9ef0int, 0x1caec4e51789b8a382de333198ba3931cd8ce7701dd01adc1b5c148b40959dd0int, 0x12c4df3c57c33b5970b2b2f1b25e9882b110e17965f61d5ceee0bc8be6b78330int);
    let e = lemma_chain_multiply(p, g, e, 0x12c4df3c57c33b5970b2b2f1b25e9882b110e17965f61d5ceee0bc8be6b78330int, 0x12f40a2243778b94b67b2778cc32e52c58d4af7078079849a46d521c4b3f9caint, 0x3e5ce37d2cf70da1d84e150b47edcbb6af9a01f4f2b323d49a09ce8697ca0916int);
    let e = lemma_chain_square(p, g, e, 0x3e5ce37d2cf70da1d84e150b47edcbb6af9a01f4f2b323d49a09ce8697ca0916int, 0x218c3394bea472ece0506bfc2cc3274f8b9fa88818e28c1856c8b972268167cdint, 0x5f988521df796c3e33a3dd2cbd5f78e22332bdb4bf459bc653658f8d24892617int);
    let e = lemma_chain_square(p, g, e, 0x5f988521df796c3e33a3dd2cbd5f78e22332bdb4bf459bc653658f8d24892617int, 0x4ed44f409e615c03011c622902f5662a89907a3c96c7ada1a5b9d30bc35c1232int, 0xe981c0c54117f6926dd337ee73b7411cb55ef6d6e63c4bd92a0c2ac7eecc3dfint);
    let e = lemma_chain_multiply(p, g, e, 0xe981c0c54117f6926dd337ee73b7411cb55ef6d6e63c4bd92a0c2ac7eecc3dfint, 0xebcc916eeaa157db47f465e133e373445857f7232f109563bef4385dcd238bint, 0x299d9a859591ce99ab51bf58ccd588a9caa77f09ace835b622c2ea5e58a0f81bint);
    let e = lemma_chain_square(p, g, e, 0x299d9a859591ce99ab51bf58ccd588a9caa77f09ace835b622c2ea5e58a0f81bint, 0xef066d77a9e1fa7e2c4822547fb539ebdb83a02df9b77d6a290eaced1e122fcint, 0x26368de977deaed148c40096ea11dd8d474e7691b3e1ad02deb2d7cad0532fddint);
    let e = lemma_chain_square(p, g, e, 0x26368de977deaed148c40096ea11dd8d474e7691b3e1ad02deb2d7cad0532fddint, 0xc9897f0d608de2e8f689f4e68873d227bae30b2415e4e7dc5231abcc5e87014int, 0x63aee55aa96612b7a266a7c05a3d10ce037370710f45c312034d5cea6c5874b5int);
    let e = lemma_chain_multiply(p, g, e, 0x63aee55aa96612b7a266a7c05a3d10ce037370710f45c312034d5cea6c5874b5int, 0x64a967b14e1d58f222f10f48a68af046a7028fefd16639c29506978b00f7a34int, 0x56305e3b801241ba899ffa55c1e681dd0fc10860340f69852129d9f05353dd2eint);
    let e = lemma_chain_square(p, g, e, 0x56305e3b801241ba899ffa55c1e681dd0fc10860340f69852129d9f05353dd2eint, 0x4014237309f648cb4694f02e48925cb5fac9b657cd47271dbf0df006afa36293int, 0x2114ec6a2cad693d6e847aad4e1d2944e0670683291a840b2aa7a1b14f4911b1int);
    let e = lemma_chain_square(p, g, e, 0x2114ec6a2cad693d6e847aad4e1d2944e0670683291a840b2aa7a1b14f4911b1int, 0x970b9101c4e02fa49f01b76bc9a24378b0a1237cf67a106021e8a194e63b584int, 0x24538d23d17b5f559b1351f662be63b88dc047214db2779190c71f307c746ddint);
    let e = lemma_chain_multiply(p, g, e, 0x24538d23d17b5f559b1351f662be63b88dc047214db2779190c71f307c746ddint, 0x24aed767cca152f8d7122bce46bcdd8b082a9dabbf6da12ff50b6b4072dfccint, 0x339fed95e2bf70824cd561d1e914e2ac534bbf34ece3b6814c91a7ffe5ce37a6int);
    let e = lemma_chain_square(p, g, e, 0x339fed95e2bf70824cd561d1e914e2ac534bbf34ece3b6814c91a7ffe5ce37a6int, 0x16fd42f729922f81a9cf00494b6f139fcf0de26a24766d2d335997be8c8f049dint, 0x738e3aca02471aca0723acc376f6a0df60582a4c7ef082be9ef9733f0ab1bb07int);
    let e = lemma_chain_multiply(p, g, e, 0x738e3aca02471aca0723acc376f6a0df60582a4c7ef082be9ef9733f0ab1bb07int, 0x74b0a0802aac298497505e779659cf15f466f5ecc102cc9e1b6c1378e8c8561int, 0x36776410d3b0b8e753588b06f058cb8520211393941f44443fbecbb32dec1855int);
    let e = lemma_chain_square(p, g, e, 0x36776410d3b0b8e753588b06f058cb8520211393941f44443fbecbb32dec1855int, 0x1996fe9fb44dc091f526ae58c29e84b8abd93f5df40a9221bf522de6aa530a19int, 0x41a9999953bda70cba5262aba2144170348756c8e1c3c5b18e2a8b5b16b50220int);
    let e = lemma_chain_square(p, g, e, 0x41a9999953bda70cba5262aba2144170348756c8e1c3c5b18e2a8b5b16b50220int, 0x25310ec47bda79df99b9891d2581c8a592eabda86ec85d04712fb3d1d8595473int, 0x54694168693181a13ece371659935a2b4bf6a6d7f48fd45250ab7fbaa8eb2f8dint);
    let e = lemma_chain_square(p, g, e, 0x54694168693181a13ece371659935a2b4bf6a6d7f48fd45250ab7fbaa8eb2f8dint, 0x3d76651bae98f7cbca75f260e4cc02f851f6f49da5865572683ea1873663dda7int, 0x1a45420d9e3acc623253246dc2d75ad12b6aa4ef025f87acb2e7c17d2f4f3602int);
    let e = lemma_chain_multiply(p, g, e, 0x1a45420d9e3acc623253246dc2d75ad12b6aa4ef025f87acb2e7c17d2f4f3602int, 0x1a8746fbb1600c2482af9612dd1daf13b70f92d8826a2c440c1ffbfde39d9d6int, 0x62c6df3da3af24246368b6b4a5b28bf68f57fc00ad645cfb9b6734e5fd50f45eint);
    let e = lemma_chain_square(p, g, e, 0x62c6df3da3af24246368b6b4a5b28bf68f57fc00ad645cfb9b6734e5fd50f45eint, 0x5429b3daaa067f5a6efdd8f969078c2c3e6781a84659f71b65ce554f630f8a50int, 0x1b276bdc403e76227e1ee08e6f897adbb8a4b8990002056e85a9b1c80cf3c834int);
    let e = lemma_chain_multiply(p, g, e, 0x1b276bdc403e76227e1ee08e6f897adbb8a4b8990002056e85a9b1c80cf3c834int, 0x1b6ba92695bb21a6ef33a6ebd6b04a6321b06cdb87be6c0ce5a58c9aa509fe2int, 0x63c3678a30a095c61d7a5b65f3030c728146595a444f9c328eebf1986f8c0966int);
    let e = lemma_chain_square(p, g, e, 0x63c3678a30a095c61d7a5b65f3030c728146595a444f9c328eebf1986f8c0966int, 0x55da313e41c9876439524cbecc110ff7a0c05fd1680fc4132207bb2c53801e16int, 0x6045aad15af7998237961bb70900aec0b8ecec47078cab57eb5454ca6868368eint);
    let e = lemma_chain_multiply(p, g, e, 0x6045aad15af7998237961bb70900aec0b8ecec47078cab57eb5454ca6868368eint, 0x61379aafb34ecefbcf1df8aecc8adf1ac53216407bb7115676b7960fd0de6b0int, 0x428724dd0317e58aacf783db43a5b058c430aa174074f1a27bca2ff0c37361bcint);
    let e = lemma_chain_square(p, g, e, 0x428724dd0317e58aacf783db43a5b058c430aa174074f1a27bca2ff0c37361bcint, 0x262dade023bd3d3f0b4116f0a9d8dd600f657d49af2bf19b76cbeff360eebaa1int, 0xf375327717d9f5949b7ba72ac5a18fdeafd53180dea231d3a460e12fb49476fint);
    let e = lemma_chain_multiply(p, g, e, 0xf375327717d9f5949b7ba72ac5a18fdeafd53180dea231d3a460e12fb49476fint, 0xf5d904fd768b89bc7570ca9d175ba0736dcea7c39c18a089a81386f95228b7int, 0x6bbb538a05d673407be4dd38f5822d300d4e5afd29cf6dc5fdfa2fa2421b5f8fint);
    let e = lemma_chain_square(p, g, e, 0x6bbb538a05d673407be4dd38f5822d300d4e5afd29cf6dc5fdfa2fa2421b5f8fint, 0x641d5beb6d3dd654281c6bb8515a3549243acb5398323f9eccbfac1df7bb53ffint, 0x39c0019b0ce59aa87c16bdb6eae53379b56cff0eaf4a28093d153b10101a1de2int);
    let e = lemma_chain_multiply(p, g, e, 0x39c0019b0ce59aa87c16bdb6eae53379b56cff0eaf4a28093d153b10101a1de2int, 0x3a512298e7405a3d88dbd5176befe92e3f3ac2e0a8c8e413265a07f74e544beint, 0x3eda65c468593991bf0e34ed42bca6f9096302c5d74794eb2bd535f160d3f636int);
    let e = lemma_chain_square(p, g, e, 0x3eda65c468593991bf0e34ed42bca6f9096302c5d74794eb2bd535f160d3f636int, 0x2213c3fc055378b4dff75efccbe6210165d7563c07344bddc09faa2c40673fc9int, 0x3b5683e88abc9709ea56a4398110e3682064ad2863d10458914b2b710968939bint);
    let e = lemma_chain_multiply(p, g, e, 0x3b5683e88abc9709ea56a4398110e3682064ad2863d10458914b2b710968939bint, 0x3beba27a87fc52a35f8761afdfb481e991bace3e8af5a931e1903474256777cint, 0x3c3145d024ca7964425e0ffb618d4c1f2cb29ac903a8744f824ccea4b01dd942int);
    let e = lemma_chain_square(p, g, e, 0x3c3145d024ca7964425e0ffb618d4c1f2cb29ac903a8744f824ccea4b01dd942int, 0x1f40d2f64127d2365d4cca5aa48e9d65f25fa8ffd45e3b239eba8ba5a4cff065int, 0x2c9bc21041ebcc1a3a64581d9864894ed524a912a2f63365365307850c85049fint);
    let e = lemma_chain_multiply(p, g, e, 0x2c9bc21041ebcc1a3a64581d9864894ed524a912a2f63365365307850c85049fint, 0x2d0bdc855f9bf192bc2b4ece8286e0b74c31e6c40e3b5cbca364fe9f50921b0int, 0x67ee5d1f3b069511cd89744d5897256537cb1d8475a21d7924a57ba2b69a4d76int);
}

/// A power of a power of the root 7 modulo the prime `q`.
proof fn lemma_power_q_24()
    ensures
        pow_mod(0x73eda753299d7d483339d80809a1d80553bda402fffe5bfeffffffff00000000int, 2, q()) == 1,
{
    let p = q();
    let g = 0x73eda753299d7d483339d80809a1d80553bda402fffe5bfeffffffff00000000int;
    lemma_chain_start(p, g);
    let e: nat = 0;
    let e = lemma_chain_square(p, g, e, 1, 0, 1);
    let e = lemma_chain_multiply(p, g, e, 1, 0, 0x73eda753299d7d483339d80809a1d80553bda402fffe5bfeffffffff00000000int);
    let e = lemma_chain_square(p, g, e, 0x73eda753299d7d483339d80809a1d80553bda402fffe5bfeffffffff00000000int, 0x73eda753299d7d483339d80809a1d80553bda402fffe5bfefffffffeffffffffint, 1);
}

/// 7 is a primitive root modulo the prime `q`.
pub proof fn lemma_root_q()
    ensures
        is_primitive_root(7, q()),
{
    let p = q();
    let g = 7;
    lemma_power_q_1();
    lemma_power_q_2();
    lemma_chain_rebase(p, g, 0x69008000000080000000nat, 0x36fb34ca1cf1bdf3cfcae97d3d3292f63e19c2f2cf2ab065378f4171e23ad3a2int, 0xd80aad41cae9f1ac37f34a5nat, 0x25f2d9263c0f76ac67d580b0425ff883d13b53a5325ee1dfbd3ced86ae920680int);
    lemma_power_q_3();
    lemma_chain_rebase(p, g, 0x589ccd1552db4599f269cae96dfe1bf9a5280000000nat, 0x25f2d9263c0f76ac67d580b0425ff883d13b53a5325ee1dfbd3ced86ae920680int, 0x1c2c81d504d6b, 0x2966cc72141c38e4cc63e15a8d2c5a99b1b037a556c16994d5f0135ba46f1aa6int);
    lemma_power_q_4();
    lemma_chain_rebase(p, g, 0x9c08e5254355dfecd9a11f7bfc049a5add93c498ec850fb80000000nat, 0x2966cc72141c38e4cc63e15a8d2c5a99b1b037a556c16994d5f0135ba46f1aa6int, 0x27c1, 0x389379c7961dd831f328b4267269444d480d84df1c5bf46348078d2270ecbeebint);
    lemma_power_q_5();
    lemma_chain_rebase(p, g, 0x183afd9d6e59d8dae6b79e449fddb2fc36428f5a835295b5e1b80000000nat, 0x389379c7961dd831f328b4267269444d480d84df1c5bf46348078d2270ecbeebint, 0x264679, 0x73eda753299d7d483339d80809a1d80553bda402fffe5bfeffffffff00000000int);
    lemma_power_q_6();
    lemma_chain_rebase(p, g, 0x183afd9d6e59d8dae6b79e449fddb2fc36428f5a835295b5e1b80000000nat, 0x389379c7961dd831f328b4267269444d480d84df1c5bf46348078d2270ecbeebint, 2, 0x86fb27a35f67dd3f695a1e882f5bdb7c92d2f844520e02c83a6bcd031849292int);
    lemma_power_q_7();
    lemma_chain_rebase(p, g, 0x9c08e5254355dfecd9a11f7bfc049a5add93c498ec850fb80000000nat, 0x2966cc72141c38e4cc63e15a8d2c5a99b1b037a556c16994d5f0135ba46f1aa6int, 0x4c8cf2, 0x1cba928b731970571e9595239f325fced6538e1240ff7965553667549739ebb9int);
    lemma_power_q_8();
    lemma_chain_rebase(p, g, 0x589ccd1552db4599f269cae96dfe1bf9a5280000000nat, 0x25f2d9263c0f76ac67d580b0425ff883d13b53a5325ee1dfbd3ced86ae920680int, 0xbe32f2072, 0x10ebf44e61093cb5fe8f1a0a3375bfaddc3f2ab7b883726a36e705a1eea2298aint);
    lemma_power_q_9();
    lemma_chain_rebase(p, g, 0x41d6029c92e44a071021b453c23c841e257a774288bd00000000nat, 0x10ebf44e61093cb5fe8f1a0a3375bfaddc3f2ab7b883726a36e705a1eea2298aint, 0xd1c83, 0x2ae4c2a421633ef4b13677eed229a526b9f0dc6b1f40ca7d12981c7e5dfbf239int);
    lemma_power_q_10();
    lemma_chain_rebase(p, g, 0x35f333abfebc7e546791719394d2db8f2cebea1173f99a4b700000000nat, 0x2ae4c2a421633ef4b13677eed229a526b9f0dc6b1f40ca7d12981c7e5dfbf239int, 0x320238b, 0x32e3ee16442ae00d0ade6607de0a05957900e657e09c952e618a16c99985bcdaint);
    lemma_power_q_11();
    lemma_chain_rebase(p, g, 0x35f333abfebc7e546791719394d2db8f2cebea1173f99a4b700000000nat, 0x2ae4c2a421633ef4b13677eed229a526b9f0dc6b1f40ca7d12981c7e5dfbf239int, 0xb, 0x3e39ee7633914a22fac6ea2b1dcd35740df1759a75ebe390042407c065689b64int);
    lemma_power_q_12();
    lemma_chain_rebase(p, g, 0x41d6029c92e44a071021b453c23c841e257a774288bd00000000nat, 0x10ebf44e61093cb5fe8f1a0a3375bfaddc3f2ab7b883726a36e705a1eea2298aint, 0x226186f9, 0x672315bde95b3660335e8a5dcace029b6404f0331eae7401fa8c8374cd50438dint);
    lemma_power_q_13();
    lemma_chain_rebase(p, g, 0x69008000000080000000nat, 0x36fb34ca1cf1bdf3cfcae97d3d3292f63e19c2f2cf2ab065378f4171e23ad3a2int, 0x14eea3b050aac42f14d9a6nat, 0x7e55526ed9aac088441536bdec83efc6c7ad979070579b3a14faa23a260b30bint);
    lemma_power_q_14();
    lemma_chain_rebase(p, g, 0x895eb9aa2ee3d44037cf7d835178a6cd300000000nat, 0x7e55526ed9aac088441536bdec83efc6c7ad979070579b3a14faa23a260b30bint, 0xf961300000013, 0xc44f4e54b508cd615312cab1a42841204e01d661a4e51f46280e7c7cae19205int);
    lemma_power_q_15();
    lemma_chain_rebase(p, g, 0x85d1493ca3e7e9b116e418d8bc951a81cbc199bf4613a900000000nat, 0xc44f4e54b508cd615312cab1a42841204e01d661a4e51f46280e7c7cae19205int, 0x1ea57, 0x379c9b3067a39ba171e820d2fff7bb2d6339a70bad6025a6b89010e504f1fa49int);
    lemma_power_q_16();
    lemma_chain_rebase(p, g, 0x10050104df555991d60ff5f134a9d7b68721ccf135c2272286f00000000nat, 0x379c9b3067a39ba171e820d2fff7bb2d6339a70bad6025a6b89010e504f1fa49int, 0x26987b, 0xac45a4010001a40200000000ffffffffint);
    lemma_power_q_17();
    lemma_chain_rebase(p, g, 0x10050104df555991d60ff5f134a9d7b68721ccf135c2272286f00000000nat, 0x379c9b3067a39ba171e820d2fff7bb2d6339a70bad6025a6b89010e504f1fa49int, 3, 0x6d8ceec08003f0a44f6c0b36a44ab7b7576b0589fa20719fc0b3e86b24aeeacfint);
    lemma_power_q_18();
    lemma_chain_rebase(p, g, 0x85d1493ca3e7e9b116e418d8bc951a81cbc199bf4613a900000000nat, 0xc44f4e54b508cd615312cab1a42841204e01d661a4e51f46280e7c7cae19205int, 0x73c971, 0x3dd479f5454967ce0dcb2b172ac73d5ce93d58a856569621c247fb7ed7f91c4fint);
    lemma_power_q_19();
    lemma_chain_rebase(p, g, 0x895eb9aa2ee3d44037cf7d835178a6cd300000000nat, 0x7e55526ed9aac088441536bdec83efc6c7ad979070579b3a14faa23a260b30bint, 0xddc6ebbf67, 0x7510fcd786a247541500e17cf120be046c23c84b0fb3c82914ea88a7d6ca91aint);
    lemma_power_q_20();
    lemma_chain_rebase(p, g, 0x7701840c2d7bce29328943606360d793850d79435e500000000nat, 0x7510fcd786a247541500e17cf120be046c23c84b0fb3c82914ea88a7d6ca91aint, 0xdd46d, 0x63c8787e2223d22082851d96fa745ab1156b3832dc76d91a2bd95632a3f36827int);
    lemma_power_q_21();
    lemma_chain_rebase(p, g, 0x66dd3a19d9e235c88765c9c228e41753fb5adf79435d968100000000nat, 0x63c8787e2223d22082851d96fa745ab1156b3832dc76d91a2bd95632a3f36827int, 0xf2f5565, 0x4b11569521af839931a5fb948d45c34bf87b7fc14f41215b554781951820e40eint);
    lemma_power_q_22();
    lemma_chain_rebase(p, g, 0x66dd3a19d9e235c88765c9c228e41753fb5adf79435d968100000000nat, 0x63c8787e2223d22082851d96fa745ab1156b3832dc76d91a2bd95632a3f36827int, 0x13, 0x4a7a5acf5dc0e762414782ae22b4119ca76fee9d4c748ed263a7435fa7fde54fint);
    lemma_power_q_23();
    lemma_chain_rebase(p, g, 0x7701840c2d7bce29328943606360d793850d79435e500000000nat, 0x7510fcd786a247541500e17cf120be046c23c84b0fb3c82914ea88a7d6ca91aint, 0x12083567f, 0x67ee5d1f3b069511cd89744d5897256537cb1d8475a21d7924a57ba2b69a4d76int);
    lemma_power_q_24();
    lemma_chain_rebase(p, g, 0x39f6d3a994cebea4199cec0404d0ec02a9ded2017fff2dff7fffffff80000000nat, 0x73eda753299d7d483339d80809a1d80553bda402fffe5bfeffffffff00000000int, 2, 1);
    lemma_two_is_prime();
    lemma_prime_3();
    lemma_prime_11();
    lemma_prime_19();
    lemma_prime_10177();
    lemma_prime_125527();
    lemma_prime_859267();
    lemma_prime_906349();
    lemma_prime_2508409();
    lemma_prime_2529403();
    lemma_prime_52437899();
    lemma_prime_254760293();
    assert forall|m: int| m >= 2 && #[trigger] (0x73eda753299d7d483339d80809a1d80553bda402fffe5bfeffffffff00000000int % m) == 0 implies exists|f: int| #[trigger]
        refutes(7, 0x73eda753299d7d483339d80809a1d80553bda402fffe5bfeffffffff00000000int, 0x73eda753299d7d483339d80809a1d80553bda402fffe5bfeffffffff00000001int, m, f) by {
        lemma_euclid(m, 2, 0x39f6d3a994cebea4199cec0404d0ec02a9ded2017fff2dff7fffffff80000000int);
        if m % 2 == 0 {
            assert(refutes(7, 0x73eda753299d7d483339d80809a1d80553bda402fffe5bfeffffffff00000000int, 0x73eda753299d7d483339d80809a1d80553bda402fffe5bfeffffffff00000001int, m, 2));
        } else {
            lemma_euclid(m, 2, 0x1cfb69d4ca675f520cce76020268760154ef6900bfff96ffbfffffffc0000000int);
            lemma_euclid(m, 2, 0xe7db4ea6533afa906673b0101343b00aa77b4805fffcb7fdfffffffe0000000int);
            lemma_euclid(m, 2, 0x73eda753299d7d483339d80809a1d80553bda402fffe5bfeffffffff0000000int);
            lemma_euclid(m, 2, 0x39f6d3a994cebea4199cec0404d0ec02a9ded2017fff2dff7fffffff8000000int);
            lemma_euclid(m, 2, 0x1cfb69d4ca675f520cce76020268760154ef6900bfff96ffbfffffffc000000int);
            lemma_euclid(m, 2, 0xe7db4ea6533afa906673b0101343b00aa77b4805fffcb7fdfffffffe000000int);
            lemma_euclid(m, 2, 0x73eda753299d7d483339d80809a1d80553bda402fffe5bfeffffffff000000int);
            lemma_euclid(m, 2, 0x39f6d3a994cebea4199cec0404d0ec02a9ded2017fff2dff7fffffff800000int);
            lemma_euclid(m, 2, 0x1cfb69d4ca675f520cce76020268760154ef6900bfff96ffbfffffffc00000int);
            lemma_euclid(m, 2, 0xe7db4ea6533afa906673b0101343b00aa77b4805fffcb7fdfffffffe00000int);
            lemma_euclid(m, 2, 0x73eda753299d7d483339d80809a1d80553bda402fffe5bfeffffffff00000int);
            lemma_euclid(m, 2, 0x39f6d3a994cebea4199cec0404d0ec02a9ded2017fff2dff7fffffff80000int);
            lemma_euclid(m, 2, 0x1cfb69d4ca675f520cce76020268760154ef6900bfff96ffbfffffffc0000int);
            lemma_euclid(m, 2, 0xe7db4ea6533afa906673b0101343b00aa77b4805fffcb7fdfffffffe0000int);
            lemma_euclid(m, 2, 0x73eda753299d7d483339d80809a1d80553bda402fffe5bfeffffffff0000int);
            lemma_euclid(m, 2, 0x39f6d3a994cebea4199cec0404d0ec02a9ded2017fff2dff7fffffff8000int);
            lemma_euclid(m, 2, 0x1cfb69d4ca675f520cce76020268760154ef6900bfff96ffbfffffffc000int);
            lemma_euclid(m, 2, 0xe7db4ea6533afa906673b0101343b00aa77b4805fffcb7fdfffffffe000int);
            lemma_euclid(m, 2, 0x73eda753299d7d483339d80809a1d80553bda402fffe5bfeffffffff000int);
            lemma_euclid(m, 2, 0x39f6d3a994cebea4199cec0404d0ec02a9ded2017fff2dff7fffffff800int);
            lemma_euclid(m, 2, 0x1cfb69d4ca675f520cce76020268760154ef6900bfff96ffbfffffffc00int);
            lemma_euclid(m, 2, 0xe7db4ea6533afa906673b0101343b00aa77b4805fffcb7fdfffffffe00int);
            lemma_euclid(m, 2, 0x73eda753299d7d483339d80809a1d80553bda402fffe5bfeffffffff00int);
            lemma_euclid(m, 2, 0x39f6d3a994cebea4199cec0404d0ec02a9ded2017fff2dff7fffffff80int);
            lemma_euclid(m, 2, 0x1cfb69d4ca675f520cce76020268760154ef6900bfff96ffbfffffffc0int);
            lemma_euclid(m, 2, 0xe7db4ea6533afa906673b0101343b00aa77b4805fffcb7fdfffffffe0int);
            lemma_euclid(m, 2, 0x73eda753299d7d483339d80809a1d80553bda402fffe5bfeffffffff0int);
            lemma_euclid(m, 2, 0x39f6d3a994cebea4199cec0404d0ec02a9ded2017fff2dff7fffffff8int);
            lemma_euclid(m, 2, 0x1cfb69d4ca675f520cce76020268760154ef6900bfff96ffbfffffffcint);
            lemma_euclid(m, 2, 0xe7db4ea6533afa906673b0101343b00aa77b4805fffcb7fdfffffffeint);
            lemma_euclid(m, 2, 0x73eda753299d7d483339d80809a1d80553bda402fffe5bfeffffffffint);
            lemma_euclid(m, 3, 0x26a48d1bb889d46d66689d580335f2ac713f36abaaaa1eaa55555555int);
            if m % 3 == 0 {
                assert(refutes(7, 0x73eda753299d7d483339d80809a1d80553bda402fffe5bfeffffffff00000000int, 0x73eda753299d7d483339d80809a1d80553bda402fffe5bfeffffffff00000001int, m, 3));
            } else {
                lemma_euclid(m, 0xb, 0x38352a56dddfc09f20982aae904e7840a4b909b3e0f7726c1f07c1fint);
                if m % 0xb == 0 {
                    assert(refutes(7, 0x73eda753299d7d483339d80809a1d80553bda402fffe5bfeffffffff00000000int, 0x73eda753299d7d483339d80809a1d80553bda402fffe5bfeffffffff00000001int, m, 0xb));
                } else {
                    lemma_euclid(m, 0x13, 0x2f553120bad75ed6d81459d65e92ec008ab6c4cd5f2137ef428d45int);
                    if m % 0x13 == 0 {
                        assert(refutes(7, 0x73eda753299d7d483339d80809a1d80553bda402fffe5bfeffffffff00000000int, 0x73eda753299d7d483339d80809a1d80553bda402fffe5bfeffffffff00000001int, m, 0x13));
                    } else {
                        lemma_euclid(m, 0x27c1, 0x130ce189ea5a7466deda556911b6aae6fce4362770f8d176685int);
                        if m % 0x27c1 == 0 {
                            assert(refutes(7, 0x73eda753299d7d483339d80809a1d80553bda402fffe5bfeffffffff00000000int, 0x73eda753299d7d483339d80809a1d80553bda402fffe5bfeffffffff00000001int, m, 0x27c1));
                        } else {
                            lemma_euclid(m, 0x1ea57, 0x9f227d55b5907e9a126f51e2e36d657d8d5f437171e483int);
                            if m % 0x1ea57 == 0 {
                                assert(refutes(7, 0x73eda753299d7d483339d80809a1d80553bda402fffe5bfeffffffff00000000int, 0x73eda753299d7d483339d80809a1d80553bda402fffe5bfeffffffff00000001int, m, 0x1ea57));
                            } else {
                                lemma_euclid(m, 0xd1c83, 0xc231c541406e2552634d865ec6a98c97ca9fd9801int);
                                if m % 0xd1c83 == 0 {
                                    assert(refutes(7, 0x73eda753299d7d483339d80809a1d80553bda402fffe5bfeffffffff00000000int, 0x73eda753299d7d483339d80809a1d80553bda402fffe5bfeffffffff00000001int, m, 0xd1c83));
                                } else {
                                    lemma_euclid(m, 0xdd46d, 0xe0ab011aa716f01e39d9f1d5ccb23bb44d65int);
                                    if m % 0xdd46d == 0 {
                                        assert(refutes(7, 0x73eda753299d7d483339d80809a1d80553bda402fffe5bfeffffffff00000000int, 0x73eda753299d7d483339d80809a1d80553bda402fffe5bfeffffffff00000001int, m, 0xdd46d));
                                    } else {
                                        lemma_euclid(m, 0xdd46d, 0x103ec6e5aca40b72118562ee8c6011d9int);
                                        lemma_euclid(m, 0x264679, 0x6ca784f37ac601d76a17face61int);
                                        if m % 0x264679 == 0 {
                                            assert(refutes(7, 0x73eda753299d7d483339d80809a1d80553bda402fffe5bfeffffffff00000000int, 0x73eda753299d7d483339d80809a1d80553bda402fffe5bfeffffffff00000001int, m, 0x264679));
                                        } else {
                                            lemma_euclid(m, 0x26987b, 0x2d0b0e2bbbf0fe26e13d3int);
                                            if m % 0x26987b == 0 {
                                                assert(refutes(7, 0x73eda753299d7d483339d80809a1d80553bda402fffe5bfeffffffff00000000int, 0x73eda753299d7d483339d80809a1d80553bda402fffe5bfeffffffff00000001int, m, 0x26987b));
                                            } else {
                                                lemma_euclid(m, 0x320238b, 0xe694c24d9239d9);
                                                if m % 0x320238b == 0 {
                                                    assert(refutes(7, 0x73eda753299d7d483339d80809a1d80553bda402fffe5bfeffffffff00000000int, 0x73eda753299d7d483339d80809a1d80553bda402fffe5bfeffffffff00000001int, m, 0x320238b));
                                                } else {
                                                    lemma_euclid(m, 0xf2f5565, 0xf2f5565);
                                                    if m % 0xf2f5565 == 0 {
                                                        assert(refutes(7, 0x73eda753299d7d483339d80809a1d80553bda402fffe5bfeffffffff00000000int, 0x73eda753299d7d483339d80809a1d80553bda402fffe5bfeffffffff00000001int, m, 0xf2f5565));
                                                    } else {
                                                        lemma_euclid(m, 0xf2f5565, 1);
                                                        lemma_small_mod(1, m as nat);
                                                    }
                                                }
                                            }
                                        }
                                    }
                                }
                            }
                        }
                    }
                }
            }
        }
    }
    lemma_lucas(0x73eda753299d7d483339d80809a1d80553bda402fffe5bfeffffffff00000001int, 0x73eda753299d7d483339d80809a1d80553bda402fffe5bfeffffffff00000000int, 7);
}

/// The prime `q` is prime.
pub proof fn lemma_prime_q()
    ensures
        is_prime(q()),
{
    lemma_root_q();
    lemma_root_gives_prime(7, q());
}

} // verus!
