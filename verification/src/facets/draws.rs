//! The first draws of the generator that fills the unpredictable dispatch streams, worked out
//! one step at a time, and what they show about the values those streams take.

use vstd::prelude::*;
use crate::facets::SEED;
use crate::facets::dispatch::lcg_after;

verus! {

/// How many draws are worked out here: enough to meet every value of every span.
pub const KNOWN_DRAWS: i128 = 154;

/// What the fill looks at on its draw number `at`: bits sixteen and up of the generator's
/// state after `at + 1` steps from the seed.
pub open spec fn draw(at: int) -> int {
    (lcg_after(SEED as u32, (at + 1) as nat) >> 16u32) as int
}

/// Whether some of the first draws is `k` modulo `span`.
pub open spec fn drawn(span: int, k: int) -> bool {
    exists|at: int| 0 <= at < KNOWN_DRAWS && #[trigger] draw(at) % span == k
}

/// Whether shifting the first draws by `p` places moves one of the first three, modulo `span`.
pub open spec fn unaligned(span: int, p: int) -> bool {
    exists|i: int| 0 <= i <= 2 && #[trigger] draw(i) % span != draw(i + p) % span
}

proof fn lemma_high_bits(s: u32)
    ensures
        s >> 16u32 == s / 0x10000,
{
    assert(s >> 16u32 == s / 0x10000) by (bit_vector);
}

/// The first draws, each worked out from the one before.
#[verifier::rlimit(100)]
proof fn lemma_first_draws()
    ensures
        draw(0) == 52332,
        draw(1) == 9806,
        draw(2) == 10868,
        draw(3) == 22674,
        draw(4) == 32531,
        draw(5) == 36133,
        draw(6) == 32034,
        draw(7) == 31790,
        draw(8) == 7985,
        draw(9) == 43681,
        draw(10) == 11213,
        draw(11) == 58131,
        draw(12) == 29630,
        draw(13) == 58642,
        draw(14) == 33517,
        draw(15) == 322,
        draw(16) == 14185,
        draw(17) == 23654,
        draw(18) == 51918,
        draw(19) == 40228,
        draw(20) == 33020,
        draw(21) == 18467,
        draw(22) == 5079,
        draw(23) == 62426,
        draw(24) == 18061,
        draw(25) == 14624,
        draw(26) == 31639,
        draw(27) == 51041,
        draw(28) == 59242,
        draw(29) == 47878,
        draw(30) == 46741,
        draw(31) == 12910,
        draw(32) == 26818,
        draw(33) == 37258,
        draw(34) == 27348,
        draw(35) == 56835,
        draw(36) == 53523,
        draw(37) == 36200,
        draw(38) == 42792,
        draw(39) == 62676,
        draw(40) == 52823,
        draw(41) == 46366,
        draw(42) == 33596,
        draw(43) == 61533,
        draw(44) == 37614,
        draw(45) == 15726,
        draw(46) == 46174,
        draw(47) == 7104,
        draw(48) == 38218,
        draw(49) == 36241,
        draw(50) == 41745,
        draw(51) == 26719,
        draw(52) == 40541,
        draw(53) == 19259,
        draw(54) == 19793,
        draw(55) == 61502,
        draw(56) == 21186,
        draw(57) == 10835,
        draw(58) == 420,
        draw(59) == 16918,
        draw(60) == 8877,
        draw(61) == 64622,
        draw(62) == 48869,
        draw(63) == 21304,
        draw(64) == 19604,
        draw(65) == 15377,
        draw(66) == 50384,
        draw(67) == 45864,
        draw(68) == 24218,
        draw(69) == 4003,
        draw(70) == 41292,
        draw(71) == 23797,
        draw(72) == 25280,
        draw(73) == 32820,
        draw(74) == 50812,
        draw(75) == 16985,
        draw(76) == 41418,
        draw(77) == 24560,
        draw(78) == 30084,
        draw(79) == 27797,
        draw(80) == 43251,
        draw(81) == 7265,
        draw(82) == 35355,
        draw(83) == 20235,
        draw(84) == 65104,
        draw(85) == 30824,
        draw(86) == 29397,
        draw(87) == 42904,
        draw(88) == 45060,
        draw(89) == 59897,
        draw(90) == 25134,
        draw(91) == 2231,
        draw(92) == 43561,
        draw(93) == 6041,
        draw(94) == 33877,
        draw(95) == 59735,
        draw(96) == 32633,
        draw(97) == 45465,
        draw(98) == 50622,
        draw(99) == 54904,
        draw(100) == 4288,
        draw(101) == 41744,
        draw(102) == 30310,
        draw(103) == 8839,
        draw(104) == 16130,
        draw(105) == 22169,
        draw(106) == 54757,
        draw(107) == 11903,
        draw(108) == 37996,
        draw(109) == 35538,
        draw(110) == 21557,
        draw(111) == 10428,
        draw(112) == 36859,
        draw(113) == 62095,
        draw(114) == 4932,
        draw(115) == 56733,
        draw(116) == 65518,
        draw(117) == 40162,
        draw(118) == 62779,
        draw(119) == 62945,
        draw(120) == 38636,
        draw(121) == 57548,
        draw(122) == 17292,
        draw(123) == 48831,
        draw(124) == 42997,
        draw(125) == 18623,
        draw(126) == 47806,
        draw(127) == 22466,
        draw(128) == 46347,
        draw(129) == 47579,
        draw(130) == 34552,
        draw(131) == 57963,
        draw(132) == 15516,
        draw(133) == 53989,
        draw(134) == 32079,
        draw(135) == 3973,
        draw(136) == 61878,
        draw(137) == 16135,
        draw(138) == 40399,
        draw(139) == 9798,
        draw(140) == 19177,
        draw(141) == 30794,
        draw(142) == 43595,
        draw(143) == 24874,
        draw(144) == 5115,
        draw(145) == 13780,
        draw(146) == 24037,
        draw(147) == 15503,
        draw(148) == 28239,
        draw(149) == 33249,
        draw(150) == 37212,
        draw(151) == 4881,
        draw(152) == 27666,
        draw(153) == 13186,
{
    assert(lcg_after(SEED as u32, 0) == 7u32);
    assert(lcg_after(SEED as u32, 1) == 3429651764u32);
    lemma_high_bits(3429651764u32);
    assert(draw(0) == 52332);
    assert(lcg_after(SEED as u32, 2) == 642666333u32);
    lemma_high_bits(642666333u32);
    assert(draw(1) == 9806);
    assert(lcg_after(SEED as u32, 3) == 712265938u32);
    lemma_high_bits(712265938u32);
    assert(draw(2) == 10868);
    assert(lcg_after(SEED as u32, 4) == 1486001571u32);
    lemma_high_bits(1486001571u32);
    assert(draw(3) == 22674);
    assert(lcg_after(SEED as u32, 5) == 2131988640u32);
    lemma_high_bits(2131988640u32);
    assert(draw(4) == 32531);
    assert(lcg_after(SEED as u32, 6) == 2368046169u32);
    lemma_high_bits(2368046169u32);
    assert(draw(5) == 36133);
    assert(lcg_after(SEED as u32, 7) == 2099423262u32);
    lemma_high_bits(2099423262u32);
    assert(draw(6) == 32034);
    assert(lcg_after(SEED as u32, 8) == 2083449087u32);
    lemma_high_bits(2083449087u32);
    assert(draw(7) == 31790);
    assert(lcg_after(SEED as u32, 9) == 523310796u32);
    lemma_high_bits(523310796u32);
    assert(draw(8) == 7985);
    assert(lcg_after(SEED as u32, 10) == 2862681365u32);
    lemma_high_bits(2862681365u32);
    assert(draw(9) == 43681);
    assert(lcg_after(SEED as u32, 11) == 734865450u32);
    lemma_high_bits(734865450u32);
    assert(draw(10) == 11213);
    assert(lcg_after(SEED as u32, 12) == 3809678875u32);
    lemma_high_bits(3809678875u32);
    assert(draw(11) == 58131);
    assert(lcg_after(SEED as u32, 13) == 1941885880u32);
    lemma_high_bits(1941885880u32);
    assert(draw(12) == 29630);
    assert(lcg_after(SEED as u32, 14) == 3843188113u32);
    lemma_high_bits(3843188113u32);
    assert(draw(13) == 58642);
    assert(lcg_after(SEED as u32, 15) == 2196610294u32);
    lemma_high_bits(2196610294u32);
    assert(draw(14) == 33517);
    assert(lcg_after(SEED as u32, 16) == 21166327u32);
    lemma_high_bits(21166327u32);
    assert(draw(15) == 322);
    assert(lcg_after(SEED as u32, 17) == 929657700u32);
    lemma_high_bits(929657700u32);
    assert(draw(16) == 14185);
    assert(lcg_after(SEED as u32, 18) == 1550240205u32);
    lemma_high_bits(1550240205u32);
    assert(draw(17) == 23654);
    assert(lcg_after(SEED as u32, 19) == 3402535554u32);
    lemma_high_bits(3402535554u32);
    assert(draw(18) == 51918);
    assert(lcg_after(SEED as u32, 20) == 2636393875u32);
    lemma_high_bits(2636393875u32);
    assert(draw(19) == 40228);
    assert(lcg_after(SEED as u32, 21) == 2164023760u32);
    lemma_high_bits(2164023760u32);
    assert(draw(20) == 33020);
    assert(lcg_after(SEED as u32, 22) == 1210267081u32);
    lemma_high_bits(1210267081u32);
    assert(draw(21) == 18467);
    assert(lcg_after(SEED as u32, 23) == 332879054u32);
    lemma_high_bits(332879054u32);
    assert(draw(22) == 5079);
    assert(lcg_after(SEED as u32, 24) == 4091154415u32);
    lemma_high_bits(4091154415u32);
    assert(draw(23) == 62426);
    assert(lcg_after(SEED as u32, 25) == 1183697660u32);
    lemma_high_bits(1183697660u32);
    assert(draw(24) == 18061);
    assert(lcg_after(SEED as u32, 26) == 958424453u32);
    lemma_high_bits(958424453u32);
    assert(draw(25) == 14624);
    assert(lcg_after(SEED as u32, 27) == 2073554906u32);
    lemma_high_bits(2073554906u32);
    assert(draw(26) == 31639);
    assert(lcg_after(SEED as u32, 28) == 3345071115u32);
    lemma_high_bits(3345071115u32);
    assert(draw(27) == 51041);
    assert(lcg_after(SEED as u32, 29) == 3882523368u32);
    lemma_high_bits(3882523368u32);
    assert(draw(28) == 59242);
    assert(lcg_after(SEED as u32, 30) == 3137787137u32);
    lemma_high_bits(3137787137u32);
    assert(draw(29) == 47878);
    assert(lcg_after(SEED as u32, 31) == 3063230374u32);
    lemma_high_bits(3063230374u32);
    assert(draw(30) == 46741);
    assert(lcg_after(SEED as u32, 32) == 846073319u32);
    lemma_high_bits(846073319u32);
    assert(draw(31) == 12910);
    assert(lcg_after(SEED as u32, 33) == 1757576596u32);
    lemma_high_bits(1757576596u32);
    assert(draw(32) == 26818);
    assert(lcg_after(SEED as u32, 34) == 2441789501u32);
    lemma_high_bits(2441789501u32);
    assert(draw(33) == 37258);
    assert(lcg_after(SEED as u32, 35) == 1792319538u32);
    lemma_high_bits(1792319538u32);
    assert(draw(34) == 27348);
    assert(lcg_after(SEED as u32, 36) == 3724779907u32);
    lemma_high_bits(3724779907u32);
    assert(draw(35) == 56835);
    assert(lcg_after(SEED as u32, 37) == 3507740416u32);
    lemma_high_bits(3507740416u32);
    assert(draw(36) == 53523);
    assert(lcg_after(SEED as u32, 38) == 2372412217u32);
    lemma_high_bits(2372412217u32);
    assert(draw(37) == 36200);
    assert(lcg_after(SEED as u32, 39) == 2804452734u32);
    lemma_high_bits(2804452734u32);
    assert(draw(38) == 42792);
    assert(lcg_after(SEED as u32, 40) == 4107588319u32);
    lemma_high_bits(4107588319u32);
    assert(draw(39) == 62676);
    assert(lcg_after(SEED as u32, 41) == 3461868332u32);
    lemma_high_bits(3461868332u32);
    assert(draw(40) == 52823);
    assert(lcg_after(SEED as u32, 42) == 3038689781u32);
    lemma_high_bits(3038689781u32);
    assert(draw(41) == 46366);
    assert(lcg_after(SEED as u32, 43) == 2201748362u32);
    lemma_high_bits(2201748362u32);
    assert(draw(42) == 33596);
    assert(lcg_after(SEED as u32, 44) == 4032675323u32);
    lemma_high_bits(4032675323u32);
    assert(draw(43) == 61533);
    assert(lcg_after(SEED as u32, 45) == 2465107480u32);
    lemma_high_bits(2465107480u32);
    assert(draw(44) == 37614);
    assert(lcg_after(SEED as u32, 46) == 1030619249u32);
    lemma_high_bits(1030619249u32);
    assert(draw(45) == 15726);
    assert(lcg_after(SEED as u32, 47) == 3026112086u32);
    lemma_high_bits(3026112086u32);
    assert(draw(46) == 46174);
    assert(lcg_after(SEED as u32, 48) == 465583831u32);
    lemma_high_bits(465583831u32);
    assert(draw(47) == 7104);
    assert(lcg_after(SEED as u32, 49) == 2504684484u32);
    lemma_high_bits(2504684484u32);
    assert(draw(48) == 38218);
    assert(lcg_after(SEED as u32, 50) == 2375103149u32);
    lemma_high_bits(2375103149u32);
    assert(draw(49) == 36241);
    assert(lcg_after(SEED as u32, 51) == 2735831522u32);
    lemma_high_bits(2735831522u32);
    assert(draw(50) == 41745);
    assert(lcg_after(SEED as u32, 52) == 1751118195u32);
    lemma_high_bits(1751118195u32);
    assert(draw(51) == 26719);
    assert(lcg_after(SEED as u32, 53) == 2656897072u32);
    lemma_high_bits(2656897072u32);
    assert(draw(52) == 40541);
    assert(lcg_after(SEED as u32, 54) == 1262177449u32);
    lemma_high_bits(1262177449u32);
    assert(draw(53) == 19259);
    assert(lcg_after(SEED as u32, 55) == 1297175086u32);
    lemma_high_bits(1297175086u32);
    assert(draw(54) == 19793);
    assert(lcg_after(SEED as u32, 56) == 4030607823u32);
    lemma_high_bits(4030607823u32);
    assert(draw(55) == 61502);
    assert(lcg_after(SEED as u32, 57) == 1388476252u32);
    lemma_high_bits(1388476252u32);
    assert(draw(56) == 21186);
    assert(lcg_after(SEED as u32, 58) == 710085221u32);
    lemma_high_bits(710085221u32);
    assert(draw(57) == 10835);
    assert(lcg_after(SEED as u32, 59) == 27550522u32);
    lemma_high_bits(27550522u32);
    assert(draw(58) == 420);
    assert(lcg_after(SEED as u32, 60) == 1108745195u32);
    lemma_high_bits(1108745195u32);
    assert(draw(59) == 16918);
    assert(lcg_after(SEED as u32, 61) == 581807432u32);
    lemma_high_bits(581807432u32);
    assert(draw(60) == 8877);
    assert(lcg_after(SEED as u32, 62) == 4235126753u32);
    lemma_high_bits(4235126753u32);
    assert(draw(61) == 64622);
    assert(lcg_after(SEED as u32, 63) == 3202709766u32);
    lemma_high_bits(3202709766u32);
    assert(draw(62) == 48869);
    assert(lcg_after(SEED as u32, 64) == 1396214727u32);
    lemma_high_bits(1396214727u32);
    assert(draw(63) == 21304);
    assert(lcg_after(SEED as u32, 65) == 1284789748u32);
    lemma_high_bits(1284789748u32);
    assert(draw(64) == 19604);
    assert(lcg_after(SEED as u32, 66) == 1007755549u32);
    lemma_high_bits(1007755549u32);
    assert(draw(65) == 15377);
    assert(lcg_after(SEED as u32, 67) == 3301973906u32);
    lemma_high_bits(3301973906u32);
    assert(draw(66) == 50384);
    assert(lcg_after(SEED as u32, 68) == 3005750627u32);
    lemma_high_bits(3005750627u32);
    assert(draw(67) == 45864);
    assert(lcg_after(SEED as u32, 69) == 1587207520u32);
    lemma_high_bits(1587207520u32);
    assert(draw(68) == 24218);
    assert(lcg_after(SEED as u32, 70) == 262386201u32);
    lemma_high_bits(262386201u32);
    assert(draw(69) == 4003);
    assert(lcg_after(SEED as u32, 71) == 2706154206u32);
    lemma_high_bits(2706154206u32);
    assert(draw(70) == 41292);
    assert(lcg_after(SEED as u32, 72) == 1559571647u32);
    lemma_high_bits(1559571647u32);
    assert(draw(71) == 23797);
    assert(lcg_after(SEED as u32, 73) == 1656778636u32);
    lemma_high_bits(1656778636u32);
    assert(draw(72) == 25280);
    assert(lcg_after(SEED as u32, 74) == 2150913749u32);
    lemma_high_bits(2150913749u32);
    assert(draw(73) == 32820);
    assert(lcg_after(SEED as u32, 75) == 3330019050u32);
    lemma_high_bits(3330019050u32);
    assert(draw(74) == 50812);
    assert(lcg_after(SEED as u32, 76) == 1113183707u32);
    lemma_high_bits(1113183707u32);
    assert(draw(75) == 16985);
    assert(lcg_after(SEED as u32, 77) == 2714433656u32);
    lemma_high_bits(2714433656u32);
    assert(draw(76) == 41418);
    assert(lcg_after(SEED as u32, 78) == 1609599825u32);
    lemma_high_bits(1609599825u32);
    assert(draw(77) == 24560);
    assert(lcg_after(SEED as u32, 79) == 1971597238u32);
    lemma_high_bits(1971597238u32);
    assert(draw(78) == 30084);
    assert(lcg_after(SEED as u32, 80) == 1821766839u32);
    lemma_high_bits(1821766839u32);
    assert(draw(79) == 27797);
    assert(lcg_after(SEED as u32, 81) == 2834506788u32);
    lemma_high_bits(2834506788u32);
    assert(draw(80) == 43251);
    assert(lcg_after(SEED as u32, 82) == 476154765u32);
    lemma_high_bits(476154765u32);
    assert(draw(81) == 7265);
    assert(lcg_after(SEED as u32, 83) == 2317062466u32);
    lemma_high_bits(2317062466u32);
    assert(draw(82) == 35355);
    assert(lcg_after(SEED as u32, 84) == 1326130515u32);
    lemma_high_bits(1326130515u32);
    assert(draw(83) == 20235);
    assert(lcg_after(SEED as u32, 85) == 4266679952u32);
    lemma_high_bits(4266679952u32);
    assert(draw(84) == 65104);
    assert(lcg_after(SEED as u32, 86) == 2020103049u32);
    lemma_high_bits(2020103049u32);
    assert(draw(85) == 30824);
    assert(lcg_after(SEED as u32, 87) == 1926594446u32);
    lemma_high_bits(1926594446u32);
    assert(draw(86) == 29397);
    assert(lcg_after(SEED as u32, 88) == 2811806639u32);
    lemma_high_bits(2811806639u32);
    assert(draw(87) == 42904);
    assert(lcg_after(SEED as u32, 89) == 2953106364u32);
    lemma_high_bits(2953106364u32);
    assert(draw(88) == 45060);
    assert(lcg_after(SEED as u32, 90) == 3925450565u32);
    lemma_high_bits(3925450565u32);
    assert(draw(89) == 59897);
    assert(lcg_after(SEED as u32, 91) == 1647183514u32);
    lemma_high_bits(1647183514u32);
    assert(draw(90) == 25134);
    assert(lcg_after(SEED as u32, 92) == 146271179u32);
    lemma_high_bits(146271179u32);
    assert(draw(91) == 2231);
    assert(lcg_after(SEED as u32, 93) == 2854842280u32);
    lemma_high_bits(2854842280u32);
    assert(draw(92) == 43561);
    assert(lcg_after(SEED as u32, 94) == 395963073u32);
    lemma_high_bits(395963073u32);
    assert(draw(93) == 6041);
    assert(lcg_after(SEED as u32, 95) == 2220225126u32);
    lemma_high_bits(2220225126u32);
    assert(draw(94) == 33877);
    assert(lcg_after(SEED as u32, 96) == 3914824103u32);
    lemma_high_bits(3914824103u32);
    assert(draw(95) == 59735);
    assert(lcg_after(SEED as u32, 97) == 2138693204u32);
    lemma_high_bits(2138693204u32);
    assert(draw(96) == 32633);
    assert(lcg_after(SEED as u32, 98) == 2979623421u32);
    lemma_high_bits(2979623421u32);
    assert(draw(97) == 45465);
    assert(lcg_after(SEED as u32, 99) == 3317616370u32);
    lemma_high_bits(3317616370u32);
    assert(draw(98) == 50622);
    assert(lcg_after(SEED as u32, 100) == 3598190915u32);
    lemma_high_bits(3598190915u32);
    assert(draw(99) == 54904);
    assert(lcg_after(SEED as u32, 101) == 281054144u32);
    lemma_high_bits(281054144u32);
    assert(draw(100) == 4288);
    assert(lcg_after(SEED as u32, 102) == 2735747321u32);
    lemma_high_bits(2735747321u32);
    assert(draw(101) == 41744);
    assert(lcg_after(SEED as u32, 103) == 1986455614u32);
    lemma_high_bits(1986455614u32);
    assert(draw(102) == 30310);
    assert(lcg_after(SEED as u32, 104) == 579335839u32);
    lemma_high_bits(579335839u32);
    assert(draw(103) == 8839);
    assert(lcg_after(SEED as u32, 105) == 1057137644u32);
    lemma_high_bits(1057137644u32);
    assert(draw(104) == 16130);
    assert(lcg_after(SEED as u32, 106) == 1452925877u32);
    lemma_high_bits(1452925877u32);
    assert(draw(105) == 22169);
    assert(lcg_after(SEED as u32, 107) == 3588573770u32);
    lemma_high_bits(3588573770u32);
    assert(draw(106) == 54757);
    assert(lcg_after(SEED as u32, 108) == 780099003u32);
    lemma_high_bits(780099003u32);
    assert(draw(107) == 11903);
    assert(lcg_after(SEED as u32, 109) == 2490110680u32);
    lemma_high_bits(2490110680u32);
    assert(draw(108) == 37996);
    assert(lcg_after(SEED as u32, 110) == 2329019953u32);
    lemma_high_bits(2329019953u32);
    assert(draw(109) == 35538);
    assert(lcg_after(SEED as u32, 111) == 1412808982u32);
    lemma_high_bits(1412808982u32);
    assert(draw(110) == 21557);
    assert(lcg_after(SEED as u32, 112) == 683416215u32);
    lemma_high_bits(683416215u32);
    assert(draw(111) == 10428);
    assert(lcg_after(SEED as u32, 113) == 2415625348u32);
    lemma_high_bits(2415625348u32);
    assert(draw(112) == 36859);
    assert(lcg_after(SEED as u32, 114) == 4069512301u32);
    lemma_high_bits(4069512301u32);
    assert(draw(113) == 62095);
    assert(lcg_after(SEED as u32, 115) == 323279010u32);
    lemma_high_bits(323279010u32);
    assert(draw(114) == 4932);
    assert(lcg_after(SEED as u32, 116) == 3718105395u32);
    lemma_high_bits(3718105395u32);
    assert(draw(115) == 56733);
    assert(lcg_after(SEED as u32, 117) == 4293813488u32);
    lemma_high_bits(4293813488u32);
    assert(draw(116) == 65518);
    assert(lcg_after(SEED as u32, 118) == 2632075881u32);
    lemma_high_bits(2632075881u32);
    assert(draw(117) == 40162);
    assert(lcg_after(SEED as u32, 119) == 4114341102u32);
    lemma_high_bits(4114341102u32);
    assert(draw(118) == 62779);
    assert(lcg_after(SEED as u32, 120) == 4125214095u32);
    lemma_high_bits(4125214095u32);
    assert(draw(119) == 62945);
    assert(lcg_after(SEED as u32, 121) == 2532106268u32);
    lemma_high_bits(2532106268u32);
    assert(draw(120) == 38636);
    assert(lcg_after(SEED as u32, 122) == 3771474981u32);
    lemma_high_bits(3771474981u32);
    assert(draw(121) == 57548);
    assert(lcg_after(SEED as u32, 123) == 1133304314u32);
    lemma_high_bits(1133304314u32);
    assert(draw(122) == 17292);
    assert(lcg_after(SEED as u32, 124) == 3200199595u32);
    lemma_high_bits(3200199595u32);
    assert(draw(123) == 48831);
    assert(lcg_after(SEED as u32, 125) == 2817909256u32);
    lemma_high_bits(2817909256u32);
    assert(draw(124) == 42997);
    assert(lcg_after(SEED as u32, 126) == 1220533665u32);
    lemma_high_bits(1220533665u32);
    assert(draw(125) == 18623);
    assert(lcg_after(SEED as u32, 127) == 3133053894u32);
    lemma_high_bits(3133053894u32);
    assert(draw(126) == 47806);
    assert(lcg_after(SEED as u32, 128) == 1472386951u32);
    lemma_high_bits(1472386951u32);
    assert(draw(127) == 22466);
    assert(lcg_after(SEED as u32, 129) == 3037402804u32);
    lemma_high_bits(3037402804u32);
    assert(draw(128) == 46347);
    assert(lcg_after(SEED as u32, 130) == 3118183133u32);
    lemma_high_bits(3118183133u32);
    assert(draw(129) == 47579);
    assert(lcg_after(SEED as u32, 131) == 2264444498u32);
    lemma_high_bits(2264444498u32);
    assert(draw(130) == 34552);
    assert(lcg_after(SEED as u32, 132) == 3798689059u32);
    lemma_high_bits(3798689059u32);
    assert(draw(131) == 57963);
    assert(lcg_after(SEED as u32, 133) == 1016916512u32);
    lemma_high_bits(1016916512u32);
    assert(draw(132) == 15516);
    assert(lcg_after(SEED as u32, 134) == 3538264025u32);
    lemma_high_bits(3538264025u32);
    assert(draw(133) == 53989);
    assert(lcg_after(SEED as u32, 135) == 2102353310u32);
    lemma_high_bits(2102353310u32);
    assert(draw(134) == 32079);
    assert(lcg_after(SEED as u32, 136) == 260386943u32);
    lemma_high_bits(260386943u32);
    assert(draw(135) == 3973);
    assert(lcg_after(SEED as u32, 137) == 4055271500u32);
    lemma_high_bits(4055271500u32);
    assert(draw(136) == 61878);
    assert(lcg_after(SEED as u32, 138) == 1057448085u32);
    lemma_high_bits(1057448085u32);
    assert(draw(137) == 16135);
    assert(lcg_after(SEED as u32, 139) == 2647635370u32);
    lemma_high_bits(2647635370u32);
    assert(draw(138) == 40399);
    assert(lcg_after(SEED as u32, 140) == 642143643u32);
    lemma_high_bits(642143643u32);
    assert(draw(139) == 9798);
    assert(lcg_after(SEED as u32, 141) == 1256840504u32);
    lemma_high_bits(1256840504u32);
    assert(draw(140) == 19177);
    assert(lcg_after(SEED as u32, 142) == 2018144529u32);
    lemma_high_bits(2018144529u32);
    assert(draw(141) == 30794);
    assert(lcg_after(SEED as u32, 143) == 2857075318u32);
    lemma_high_bits(2857075318u32);
    assert(draw(142) == 43595);
    assert(lcg_after(SEED as u32, 144) == 1630187639u32);
    lemma_high_bits(1630187639u32);
    assert(draw(143) == 24874);
    assert(lcg_after(SEED as u32, 145) == 335254756u32);
    lemma_high_bits(335254756u32);
    assert(draw(144) == 5115);
    assert(lcg_after(SEED as u32, 146) == 903089485u32);
    lemma_high_bits(903089485u32);
    assert(draw(145) == 13780);
    assert(lcg_after(SEED as u32, 147) == 1575309314u32);
    lemma_high_bits(1575309314u32);
    assert(draw(146) == 24037);
    assert(lcg_after(SEED as u32, 148) == 1016061203u32);
    lemma_high_bits(1016061203u32);
    assert(draw(147) == 15503);
    assert(lcg_after(SEED as u32, 149) == 1850678096u32);
    lemma_high_bits(1850678096u32);
    assert(draw(148) == 28239);
    assert(lcg_after(SEED as u32, 150) == 2179019081u32);
    lemma_high_bits(2179019081u32);
    assert(draw(149) == 33249);
    assert(lcg_after(SEED as u32, 151) == 2438752846u32);
    lemma_high_bits(2438752846u32);
    assert(draw(150) == 37212);
    assert(lcg_after(SEED as u32, 152) == 319895407u32);
    lemma_high_bits(319895407u32);
    assert(draw(151) == 4881);
    assert(lcg_after(SEED as u32, 153) == 1813159036u32);
    lemma_high_bits(1813159036u32);
    assert(draw(152) == 27666);
    assert(lcg_after(SEED as u32, 154) == 864196869u32);
    lemma_high_bits(864196869u32);
    assert(draw(153) == 13186);
}

/// Among the first draws, every value modulo 7 turns up, and no shift of one to sixty four
/// places lines the draws up with themselves.
#[verifier::rlimit(100)]
proof fn lemma_draws_modulo_7()
    ensures
        forall|k: int| 0 <= k < 7 ==> #[trigger] drawn(7, k),
        forall|p: int| 1 <= p <= 64 ==> #[trigger] unaligned(7, p),
{
    lemma_first_draws();
    assert forall|k: int| 0 <= k < 7 implies #[trigger] drawn(7, k) by {
        if k == 0 {
            assert(draw(0) % 7 == 0);
        } else if k == 1 {
            assert(draw(3) % 7 == 1);
        } else if k == 2 {
            assert(draw(4) % 7 == 2);
        } else if k == 3 {
            assert(draw(7) % 7 == 3);
        } else if k == 4 {
            assert(draw(2) % 7 == 4);
        } else if k == 5 {
            assert(draw(8) % 7 == 5);
        } else if k == 6 {
            assert(draw(1) % 7 == 6);
        }
    }
    assert forall|p: int| 1 <= p <= 64 implies #[trigger] unaligned(7, p) by {
        if p == 1 {
            assert(draw(0) % 7 != draw(1) % 7);
        } else if p == 2 {
            assert(draw(0) % 7 != draw(2) % 7);
        } else if p == 3 {
            assert(draw(0) % 7 != draw(3) % 7);
        } else if p == 4 {
            assert(draw(0) % 7 != draw(4) % 7);
        } else if p == 5 {
            assert(draw(0) % 7 != draw(5) % 7);
        } else if p == 6 {
            assert(draw(0) % 7 != draw(6) % 7);
        } else if p == 7 {
            assert(draw(0) % 7 != draw(7) % 7);
        } else if p == 8 {
            assert(draw(0) % 7 != draw(8) % 7);
        } else if p == 9 {
            assert(draw(0) % 7 != draw(9) % 7);
        } else if p == 10 {
            assert(draw(0) % 7 != draw(10) % 7);
        } else if p == 11 {
            assert(draw(0) % 7 != draw(11) % 7);
        } else if p == 12 {
            assert(draw(0) % 7 != draw(12) % 7);
        } else if p == 13 {
            assert(draw(0) % 7 != draw(13) % 7);
        } else if p == 14 {
            assert(draw(0) % 7 != draw(14) % 7);
        } else if p == 15 {
            assert(draw(1) % 7 != draw(16) % 7);
        } else if p == 16 {
            assert(draw(0) % 7 != draw(16) % 7);
        } else if p == 17 {
            assert(draw(0) % 7 != draw(17) % 7);
        } else if p == 18 {
            assert(draw(0) % 7 != draw(18) % 7);
        } else if p == 19 {
            assert(draw(0) % 7 != draw(19) % 7);
        } else if p == 20 {
            assert(draw(0) % 7 != draw(20) % 7);
        } else if p == 21 {
            assert(draw(0) % 7 != draw(21) % 7);
        } else if p == 22 {
            assert(draw(0) % 7 != draw(22) % 7);
        } else if p == 23 {
            assert(draw(1) % 7 != draw(24) % 7);
        } else if p == 24 {
            assert(draw(0) % 7 != draw(24) % 7);
        } else if p == 25 {
            assert(draw(0) % 7 != draw(25) % 7);
        } else if p == 26 {
            assert(draw(0) % 7 != draw(26) % 7);
        } else if p == 27 {
            assert(draw(0) % 7 != draw(27) % 7);
        } else if p == 28 {
            assert(draw(0) % 7 != draw(28) % 7);
        } else if p == 29 {
            assert(draw(0) % 7 != draw(29) % 7);
        } else if p == 30 {
            assert(draw(0) % 7 != draw(30) % 7);
        } else if p == 31 {
            assert(draw(0) % 7 != draw(31) % 7);
        } else if p == 32 {
            assert(draw(0) % 7 != draw(32) % 7);
        } else if p == 33 {
            assert(draw(0) % 7 != draw(33) % 7);
        } else if p == 34 {
            assert(draw(0) % 7 != draw(34) % 7);
        } else if p == 35 {
            assert(draw(0) % 7 != draw(35) % 7);
        } else if p == 36 {
            assert(draw(0) % 7 != draw(36) % 7);
        } else if p == 37 {
            assert(draw(0) % 7 != draw(37) % 7);
        } else if p == 38 {
            assert(draw(0) % 7 != draw(38) % 7);
        } else if p == 39 {
            assert(draw(0) % 7 != draw(39) % 7);
        } else if p == 40 {
            assert(draw(0) % 7 != draw(40) % 7);
        } else if p == 41 {
            assert(draw(0) % 7 != draw(41) % 7);
        } else if p == 42 {
            assert(draw(0) % 7 != draw(42) % 7);
        } else if p == 43 {
            assert(draw(0) % 7 != draw(43) % 7);
        } else if p == 44 {
            assert(draw(0) % 7 != draw(44) % 7);
        } else if p == 45 {
            assert(draw(0) % 7 != draw(45) % 7);
        } else if p == 46 {
            assert(draw(0) % 7 != draw(46) % 7);
        } else if p == 47 {
            assert(draw(0) % 7 != draw(47) % 7);
        } else if p == 48 {
            assert(draw(0) % 7 != draw(48) % 7);
        } else if p == 49 {
            assert(draw(0) % 7 != draw(49) % 7);
        } else if p == 50 {
            assert(draw(0) % 7 != draw(50) % 7);
        } else if p == 51 {
            assert(draw(1) % 7 != draw(52) % 7);
        } else if p == 52 {
            assert(draw(0) % 7 != draw(52) % 7);
        } else if p == 53 {
            assert(draw(0) % 7 != draw(53) % 7);
        } else if p == 54 {
            assert(draw(0) % 7 != draw(54) % 7);
        } else if p == 55 {
            assert(draw(1) % 7 != draw(56) % 7);
        } else if p == 56 {
            assert(draw(0) % 7 != draw(56) % 7);
        } else if p == 57 {
            assert(draw(0) % 7 != draw(57) % 7);
        } else if p == 58 {
            assert(draw(2) % 7 != draw(60) % 7);
        } else if p == 59 {
            assert(draw(0) % 7 != draw(59) % 7);
        } else if p == 60 {
            assert(draw(0) % 7 != draw(60) % 7);
        } else if p == 61 {
            assert(draw(0) % 7 != draw(61) % 7);
        } else if p == 62 {
            assert(draw(0) % 7 != draw(62) % 7);
        } else if p == 63 {
            assert(draw(0) % 7 != draw(63) % 7);
        } else if p == 64 {
            assert(draw(0) % 7 != draw(64) % 7);
        }
    }
}

/// Among the first draws, every value modulo 8 turns up, and no shift of one to sixty four
/// places lines the draws up with themselves.
#[verifier::rlimit(100)]
proof fn lemma_draws_modulo_8()
    ensures
        forall|k: int| 0 <= k < 8 ==> #[trigger] drawn(8, k),
        forall|p: int| 1 <= p <= 64 ==> #[trigger] unaligned(8, p),
{
    lemma_first_draws();
    assert forall|k: int| 0 <= k < 8 implies #[trigger] drawn(8, k) by {
        if k == 0 {
            assert(draw(25) % 8 == 0);
        } else if k == 1 {
            assert(draw(8) % 8 == 1);
        } else if k == 2 {
            assert(draw(3) % 8 == 2);
        } else if k == 3 {
            assert(draw(4) % 8 == 3);
        } else if k == 4 {
            assert(draw(0) % 8 == 4);
        } else if k == 5 {
            assert(draw(5) % 8 == 5);
        } else if k == 6 {
            assert(draw(1) % 8 == 6);
        } else if k == 7 {
            assert(draw(22) % 8 == 7);
        }
    }
    assert forall|p: int| 1 <= p <= 64 implies #[trigger] unaligned(8, p) by {
        if p == 1 {
            assert(draw(0) % 8 != draw(1) % 8);
        } else if p == 2 {
            assert(draw(1) % 8 != draw(3) % 8);
        } else if p == 3 {
            assert(draw(0) % 8 != draw(3) % 8);
        } else if p == 4 {
            assert(draw(0) % 8 != draw(4) % 8);
        } else if p == 5 {
            assert(draw(0) % 8 != draw(5) % 8);
        } else if p == 6 {
            assert(draw(0) % 8 != draw(6) % 8);
        } else if p == 7 {
            assert(draw(0) % 8 != draw(7) % 8);
        } else if p == 8 {
            assert(draw(0) % 8 != draw(8) % 8);
        } else if p == 9 {
            assert(draw(0) % 8 != draw(9) % 8);
        } else if p == 10 {
            assert(draw(0) % 8 != draw(10) % 8);
        } else if p == 11 {
            assert(draw(0) % 8 != draw(11) % 8);
        } else if p == 12 {
            assert(draw(0) % 8 != draw(12) % 8);
        } else if p == 13 {
            assert(draw(0) % 8 != draw(13) % 8);
        } else if p == 14 {
            assert(draw(0) % 8 != draw(14) % 8);
        } else if p == 15 {
            assert(draw(0) % 8 != draw(15) % 8);
        } else if p == 16 {
            assert(draw(0) % 8 != draw(16) % 8);
        } else if p == 17 {
            assert(draw(0) % 8 != draw(17) % 8);
        } else if p == 18 {
            assert(draw(0) % 8 != draw(18) % 8);
        } else if p == 19 {
            assert(draw(1) % 8 != draw(20) % 8);
        } else if p == 20 {
            assert(draw(1) % 8 != draw(21) % 8);
        } else if p == 21 {
            assert(draw(0) % 8 != draw(21) % 8);
        } else if p == 22 {
            assert(draw(0) % 8 != draw(22) % 8);
        } else if p == 23 {
            assert(draw(0) % 8 != draw(23) % 8);
        } else if p == 24 {
            assert(draw(0) % 8 != draw(24) % 8);
        } else if p == 25 {
            assert(draw(0) % 8 != draw(25) % 8);
        } else if p == 26 {
            assert(draw(0) % 8 != draw(26) % 8);
        } else if p == 27 {
            assert(draw(0) % 8 != draw(27) % 8);
        } else if p == 28 {
            assert(draw(0) % 8 != draw(28) % 8);
        } else if p == 29 {
            assert(draw(0) % 8 != draw(29) % 8);
        } else if p == 30 {
            assert(draw(0) % 8 != draw(30) % 8);
        } else if p == 31 {
            assert(draw(0) % 8 != draw(31) % 8);
        } else if p == 32 {
            assert(draw(0) % 8 != draw(32) % 8);
        } else if p == 33 {
            assert(draw(0) % 8 != draw(33) % 8);
        } else if p == 34 {
            assert(draw(1) % 8 != draw(35) % 8);
        } else if p == 35 {
            assert(draw(0) % 8 != draw(35) % 8);
        } else if p == 36 {
            assert(draw(0) % 8 != draw(36) % 8);
        } else if p == 37 {
            assert(draw(0) % 8 != draw(37) % 8);
        } else if p == 38 {
            assert(draw(0) % 8 != draw(38) % 8);
        } else if p == 39 {
            assert(draw(1) % 8 != draw(40) % 8);
        } else if p == 40 {
            assert(draw(0) % 8 != draw(40) % 8);
        } else if p == 41 {
            assert(draw(0) % 8 != draw(41) % 8);
        } else if p == 42 {
            assert(draw(1) % 8 != draw(43) % 8);
        } else if p == 43 {
            assert(draw(0) % 8 != draw(43) % 8);
        } else if p == 44 {
            assert(draw(0) % 8 != draw(44) % 8);
        } else if p == 45 {
            assert(draw(0) % 8 != draw(45) % 8);
        } else if p == 46 {
            assert(draw(0) % 8 != draw(46) % 8);
        } else if p == 47 {
            assert(draw(0) % 8 != draw(47) % 8);
        } else if p == 48 {
            assert(draw(0) % 8 != draw(48) % 8);
        } else if p == 49 {
            assert(draw(0) % 8 != draw(49) % 8);
        } else if p == 50 {
            assert(draw(0) % 8 != draw(50) % 8);
        } else if p == 51 {
            assert(draw(0) % 8 != draw(51) % 8);
        } else if p == 52 {
            assert(draw(0) % 8 != draw(52) % 8);
        } else if p == 53 {
            assert(draw(0) % 8 != draw(53) % 8);
        } else if p == 54 {
            assert(draw(0) % 8 != draw(54) % 8);
        } else if p == 55 {
            assert(draw(0) % 8 != draw(55) % 8);
        } else if p == 56 {
            assert(draw(0) % 8 != draw(56) % 8);
        } else if p == 57 {
            assert(draw(0) % 8 != draw(57) % 8);
        } else if p == 58 {
            assert(draw(2) % 8 != draw(60) % 8);
        } else if p == 59 {
            assert(draw(0) % 8 != draw(59) % 8);
        } else if p == 60 {
            assert(draw(0) % 8 != draw(60) % 8);
        } else if p == 61 {
            assert(draw(0) % 8 != draw(61) % 8);
        } else if p == 62 {
            assert(draw(0) % 8 != draw(62) % 8);
        } else if p == 63 {
            assert(draw(0) % 8 != draw(63) % 8);
        } else if p == 64 {
            assert(draw(1) % 8 != draw(65) % 8);
        }
    }
}

/// Among the first draws, every value modulo 9 turns up, and no shift of one to sixty four
/// places lines the draws up with themselves.
#[verifier::rlimit(100)]
proof fn lemma_draws_modulo_9()
    ensures
        forall|k: int| 0 <= k < 9 ==> #[trigger] drawn(9, k),
        forall|p: int| 1 <= p <= 64 ==> #[trigger] unaligned(9, p),
{
    lemma_first_draws();
    assert forall|k: int| 0 <= k < 9 implies #[trigger] drawn(9, k) by {
        if k == 0 {
            assert(draw(11) % 9 == 0);
        } else if k == 1 {
            assert(draw(14) % 9 == 1);
        } else if k == 2 {
            assert(draw(7) % 9 == 2);
        } else if k == 3 {
            assert(draw(3) % 9 == 3);
        } else if k == 4 {
            assert(draw(9) % 9 == 4);
        } else if k == 5 {
            assert(draw(1) % 9 == 5);
        } else if k == 6 {
            assert(draw(0) % 9 == 6);
        } else if k == 7 {
            assert(draw(5) % 9 == 7);
        } else if k == 8 {
            assert(draw(10) % 9 == 8);
        }
    }
    assert forall|p: int| 1 <= p <= 64 implies #[trigger] unaligned(9, p) by {
        if p == 1 {
            assert(draw(0) % 9 != draw(1) % 9);
        } else if p == 2 {
            assert(draw(0) % 9 != draw(2) % 9);
        } else if p == 3 {
            assert(draw(0) % 9 != draw(3) % 9);
        } else if p == 4 {
            assert(draw(0) % 9 != draw(4) % 9);
        } else if p == 5 {
            assert(draw(0) % 9 != draw(5) % 9);
        } else if p == 6 {
            assert(draw(0) % 9 != draw(6) % 9);
        } else if p == 7 {
            assert(draw(0) % 9 != draw(7) % 9);
        } else if p == 8 {
            assert(draw(0) % 9 != draw(8) % 9);
        } else if p == 9 {
            assert(draw(0) % 9 != draw(9) % 9);
        } else if p == 10 {
            assert(draw(0) % 9 != draw(10) % 9);
        } else if p == 11 {
            assert(draw(0) % 9 != draw(11) % 9);
        } else if p == 12 {
            assert(draw(0) % 9 != draw(12) % 9);
        } else if p == 13 {
            assert(draw(0) % 9 != draw(13) % 9);
        } else if p == 14 {
            assert(draw(0) % 9 != draw(14) % 9);
        } else if p == 15 {
            assert(draw(0) % 9 != draw(15) % 9);
        } else if p == 16 {
            assert(draw(0) % 9 != draw(16) % 9);
        } else if p == 17 {
            assert(draw(0) % 9 != draw(17) % 9);
        } else if p == 18 {
            assert(draw(1) % 9 != draw(19) % 9);
        } else if p == 19 {
            assert(draw(0) % 9 != draw(19) % 9);
        } else if p == 20 {
            assert(draw(0) % 9 != draw(20) % 9);
        } else if p == 21 {
            assert(draw(0) % 9 != draw(21) % 9);
        } else if p == 22 {
            assert(draw(0) % 9 != draw(22) % 9);
        } else if p == 23 {
            assert(draw(0) % 9 != draw(23) % 9);
        } else if p == 24 {
            assert(draw(0) % 9 != draw(24) % 9);
        } else if p == 25 {
            assert(draw(0) % 9 != draw(25) % 9);
        } else if p == 26 {
            assert(draw(0) % 9 != draw(26) % 9);
        } else if p == 27 {
            assert(draw(0) % 9 != draw(27) % 9);
        } else if p == 28 {
            assert(draw(0) % 9 != draw(28) % 9);
        } else if p == 29 {
            assert(draw(0) % 9 != draw(29) % 9);
        } else if p == 30 {
            assert(draw(0) % 9 != draw(30) % 9);
        } else if p == 31 {
            assert(draw(0) % 9 != draw(31) % 9);
        } else if p == 32 {
            assert(draw(0) % 9 != draw(32) % 9);
        } else if p == 33 {
            assert(draw(0) % 9 != draw(33) % 9);
        } else if p == 34 {
            assert(draw(1) % 9 != draw(35) % 9);
        } else if p == 35 {
            assert(draw(0) % 9 != draw(35) % 9);
        } else if p == 36 {
            assert(draw(0) % 9 != draw(36) % 9);
        } else if p == 37 {
            assert(draw(0) % 9 != draw(37) % 9);
        } else if p == 38 {
            assert(draw(1) % 9 != draw(39) % 9);
        } else if p == 39 {
            assert(draw(0) % 9 != draw(39) % 9);
        } else if p == 40 {
            assert(draw(0) % 9 != draw(40) % 9);
        } else if p == 41 {
            assert(draw(0) % 9 != draw(41) % 9);
        } else if p == 42 {
            assert(draw(0) % 9 != draw(42) % 9);
        } else if p == 43 {
            assert(draw(0) % 9 != draw(43) % 9);
        } else if p == 44 {
            assert(draw(0) % 9 != draw(44) % 9);
        } else if p == 45 {
            assert(draw(0) % 9 != draw(45) % 9);
        } else if p == 46 {
            assert(draw(0) % 9 != draw(46) % 9);
        } else if p == 47 {
            assert(draw(0) % 9 != draw(47) % 9);
        } else if p == 48 {
            assert(draw(0) % 9 != draw(48) % 9);
        } else if p == 49 {
            assert(draw(0) % 9 != draw(49) % 9);
        } else if p == 50 {
            assert(draw(0) % 9 != draw(50) % 9);
        } else if p == 51 {
            assert(draw(0) % 9 != draw(51) % 9);
        } else if p == 52 {
            assert(draw(0) % 9 != draw(52) % 9);
        } else if p == 53 {
            assert(draw(0) % 9 != draw(53) % 9);
        } else if p == 54 {
            assert(draw(0) % 9 != draw(54) % 9);
        } else if p == 55 {
            assert(draw(0) % 9 != draw(55) % 9);
        } else if p == 56 {
            assert(draw(0) % 9 != draw(56) % 9);
        } else if p == 57 {
            assert(draw(0) % 9 != draw(57) % 9);
        } else if p == 58 {
            assert(draw(1) % 9 != draw(59) % 9);
        } else if p == 59 {
            assert(draw(0) % 9 != draw(59) % 9);
        } else if p == 60 {
            assert(draw(0) % 9 != draw(60) % 9);
        } else if p == 61 {
            assert(draw(0) % 9 != draw(61) % 9);
        } else if p == 62 {
            assert(draw(0) % 9 != draw(62) % 9);
        } else if p == 63 {
            assert(draw(0) % 9 != draw(63) % 9);
        } else if p == 64 {
            assert(draw(0) % 9 != draw(64) % 9);
        }
    }
}

/// Among the first draws, every value modulo 10 turns up, and no shift of one to sixty four
/// places lines the draws up with themselves.
#[verifier::rlimit(100)]
proof fn lemma_draws_modulo_10()
    ensures
        forall|k: int| 0 <= k < 10 ==> #[trigger] drawn(10, k),
        forall|p: int| 1 <= p <= 64 ==> #[trigger] unaligned(10, p),
{
    lemma_first_draws();
    assert forall|k: int| 0 <= k < 10 implies #[trigger] drawn(10, k) by {
        if k == 0 {
            assert(draw(7) % 10 == 0);
        } else if k == 1 {
            assert(draw(4) % 10 == 1);
        } else if k == 2 {
            assert(draw(0) % 10 == 2);
        } else if k == 3 {
            assert(draw(5) % 10 == 3);
        } else if k == 4 {
            assert(draw(3) % 10 == 4);
        } else if k == 5 {
            assert(draw(8) % 10 == 5);
        } else if k == 6 {
            assert(draw(1) % 10 == 6);
        } else if k == 7 {
            assert(draw(14) % 10 == 7);
        } else if k == 8 {
            assert(draw(2) % 10 == 8);
        } else if k == 9 {
            assert(draw(22) % 10 == 9);
        }
    }
    assert forall|p: int| 1 <= p <= 64 implies #[trigger] unaligned(10, p) by {
        if p == 1 {
            assert(draw(0) % 10 != draw(1) % 10);
        } else if p == 2 {
            assert(draw(0) % 10 != draw(2) % 10);
        } else if p == 3 {
            assert(draw(0) % 10 != draw(3) % 10);
        } else if p == 4 {
            assert(draw(0) % 10 != draw(4) % 10);
        } else if p == 5 {
            assert(draw(0) % 10 != draw(5) % 10);
        } else if p == 6 {
            assert(draw(0) % 10 != draw(6) % 10);
        } else if p == 7 {
            assert(draw(0) % 10 != draw(7) % 10);
        } else if p == 8 {
            assert(draw(0) % 10 != draw(8) % 10);
        } else if p == 9 {
            assert(draw(0) % 10 != draw(9) % 10);
        } else if p == 10 {
            assert(draw(0) % 10 != draw(10) % 10);
        } else if p == 11 {
            assert(draw(0) % 10 != draw(11) % 10);
        } else if p == 12 {
            assert(draw(0) % 10 != draw(12) % 10);
        } else if p == 13 {
            assert(draw(1) % 10 != draw(14) % 10);
        } else if p == 14 {
            assert(draw(0) % 10 != draw(14) % 10);
        } else if p == 15 {
            assert(draw(1) % 10 != draw(16) % 10);
        } else if p == 16 {
            assert(draw(0) % 10 != draw(16) % 10);
        } else if p == 17 {
            assert(draw(0) % 10 != draw(17) % 10);
        } else if p == 18 {
            assert(draw(0) % 10 != draw(18) % 10);
        } else if p == 19 {
            assert(draw(0) % 10 != draw(19) % 10);
        } else if p == 20 {
            assert(draw(0) % 10 != draw(20) % 10);
        } else if p == 21 {
            assert(draw(0) % 10 != draw(21) % 10);
        } else if p == 22 {
            assert(draw(0) % 10 != draw(22) % 10);
        } else if p == 23 {
            assert(draw(0) % 10 != draw(23) % 10);
        } else if p == 24 {
            assert(draw(0) % 10 != draw(24) % 10);
        } else if p == 25 {
            assert(draw(0) % 10 != draw(25) % 10);
        } else if p == 26 {
            assert(draw(0) % 10 != draw(26) % 10);
        } else if p == 27 {
            assert(draw(0) % 10 != draw(27) % 10);
        } else if p == 28 {
            assert(draw(1) % 10 != draw(29) % 10);
        } else if p == 29 {
            assert(draw(0) % 10 != draw(29) % 10);
        } else if p == 30 {
            assert(draw(0) % 10 != draw(30) % 10);
        } else if p == 31 {
            assert(draw(0) % 10 != draw(31) % 10);
        } else if p == 32 {
            assert(draw(0) % 10 != draw(32) % 10);
        } else if p == 33 {
            assert(draw(0) % 10 != draw(33) % 10);
        } else if p == 34 {
            assert(draw(0) % 10 != draw(34) % 10);
        } else if p == 35 {
            assert(draw(0) % 10 != draw(35) % 10);
        } else if p == 36 {
            assert(draw(0) % 10 != draw(36) % 10);
        } else if p == 37 {
            assert(draw(0) % 10 != draw(37) % 10);
        } else if p == 38 {
            assert(draw(2) % 10 != draw(40) % 10);
        } else if p == 39 {
            assert(draw(0) % 10 != draw(39) % 10);
        } else if p == 40 {
            assert(draw(0) % 10 != draw(40) % 10);
        } else if p == 41 {
            assert(draw(0) % 10 != draw(41) % 10);
        } else if p == 42 {
            assert(draw(0) % 10 != draw(42) % 10);
        } else if p == 43 {
            assert(draw(0) % 10 != draw(43) % 10);
        } else if p == 44 {
            assert(draw(0) % 10 != draw(44) % 10);
        } else if p == 45 {
            assert(draw(0) % 10 != draw(45) % 10);
        } else if p == 46 {
            assert(draw(0) % 10 != draw(46) % 10);
        } else if p == 47 {
            assert(draw(0) % 10 != draw(47) % 10);
        } else if p == 48 {
            assert(draw(0) % 10 != draw(48) % 10);
        } else if p == 49 {
            assert(draw(0) % 10 != draw(49) % 10);
        } else if p == 50 {
            assert(draw(0) % 10 != draw(50) % 10);
        } else if p == 51 {
            assert(draw(0) % 10 != draw(51) % 10);
        } else if p == 52 {
            assert(draw(0) % 10 != draw(52) % 10);
        } else if p == 53 {
            assert(draw(0) % 10 != draw(53) % 10);
        } else if p == 54 {
            assert(draw(0) % 10 != draw(54) % 10);
        } else if p == 55 {
            assert(draw(2) % 10 != draw(57) % 10);
        } else if p == 56 {
            assert(draw(0) % 10 != draw(56) % 10);
        } else if p == 57 {
            assert(draw(0) % 10 != draw(57) % 10);
        } else if p == 58 {
            assert(draw(0) % 10 != draw(58) % 10);
        } else if p == 59 {
            assert(draw(0) % 10 != draw(59) % 10);
        } else if p == 60 {
            assert(draw(0) % 10 != draw(60) % 10);
        } else if p == 61 {
            assert(draw(1) % 10 != draw(62) % 10);
        } else if p == 62 {
            assert(draw(0) % 10 != draw(62) % 10);
        } else if p == 63 {
            assert(draw(0) % 10 != draw(63) % 10);
        } else if p == 64 {
            assert(draw(0) % 10 != draw(64) % 10);
        }
    }
}

/// Among the first draws, every value modulo 20 turns up, and no shift of one to sixty four
/// places lines the draws up with themselves.
#[verifier::rlimit(100)]
proof fn lemma_draws_modulo_20()
    ensures
        forall|k: int| 0 <= k < 20 ==> #[trigger] drawn(20, k),
        forall|p: int| 1 <= p <= 64 ==> #[trigger] unaligned(20, p),
{
    lemma_first_draws();
    assert forall|k: int| 0 <= k < 20 implies #[trigger] drawn(20, k) by {
        if k == 0 {
            assert(draw(20) % 20 == 0);
        } else if k == 1 {
            assert(draw(9) % 20 == 1);
        } else if k == 2 {
            assert(draw(13) % 20 == 2);
        } else if k == 3 {
            assert(draw(36) % 20 == 3);
        } else if k == 4 {
            assert(draw(25) % 20 == 4);
        } else if k == 5 {
            assert(draw(8) % 20 == 5);
        } else if k == 6 {
            assert(draw(1) % 20 == 6);
        } else if k == 7 {
            assert(draw(21) % 20 == 7);
        } else if k == 8 {
            assert(draw(2) % 20 == 8);
        } else if k == 9 {
            assert(draw(62) % 20 == 9);
        } else if k == 10 {
            assert(draw(7) % 20 == 10);
        } else if k == 11 {
            assert(draw(4) % 20 == 11);
        } else if k == 12 {
            assert(draw(0) % 20 == 12);
        } else if k == 13 {
            assert(draw(5) % 20 == 13);
        } else if k == 14 {
            assert(draw(3) % 20 == 14);
        } else if k == 15 {
            assert(draw(35) % 20 == 15);
        } else if k == 16 {
            assert(draw(39) % 20 == 16);
        } else if k == 17 {
            assert(draw(14) % 20 == 17);
        } else if k == 18 {
            assert(draw(18) % 20 == 18);
        } else if k == 19 {
            assert(draw(22) % 20 == 19);
        }
    }
    assert forall|p: int| 1 <= p <= 64 implies #[trigger] unaligned(20, p) by {
        if p == 1 {
            assert(draw(0) % 20 != draw(1) % 20);
        } else if p == 2 {
            assert(draw(0) % 20 != draw(2) % 20);
        } else if p == 3 {
            assert(draw(0) % 20 != draw(3) % 20);
        } else if p == 4 {
            assert(draw(0) % 20 != draw(4) % 20);
        } else if p == 5 {
            assert(draw(0) % 20 != draw(5) % 20);
        } else if p == 6 {
            assert(draw(0) % 20 != draw(6) % 20);
        } else if p == 7 {
            assert(draw(0) % 20 != draw(7) % 20);
        } else if p == 8 {
            assert(draw(0) % 20 != draw(8) % 20);
        } else if p == 9 {
            assert(draw(0) % 20 != draw(9) % 20);
        } else if p == 10 {
            assert(draw(0) % 20 != draw(10) % 20);
        } else if p == 11 {
            assert(draw(0) % 20 != draw(11) % 20);
        } else if p == 12 {
            assert(draw(0) % 20 != draw(12) % 20);
        } else if p == 13 {
            assert(draw(0) % 20 != draw(13) % 20);
        } else if p == 14 {
            assert(draw(0) % 20 != draw(14) % 20);
        } else if p == 15 {
            assert(draw(0) % 20 != draw(15) % 20);
        } else if p == 16 {
            assert(draw(0) % 20 != draw(16) % 20);
        } else if p == 17 {
            assert(draw(0) % 20 != draw(17) % 20);
        } else if p == 18 {
            assert(draw(0) % 20 != draw(18) % 20);
        } else if p == 19 {
            assert(draw(0) % 20 != draw(19) % 20);
        } else if p == 20 {
            assert(draw(0) % 20 != draw(20) % 20);
        } else if p == 21 {
            assert(draw(0) % 20 != draw(21) % 20);
        } else if p == 22 {
            assert(draw(0) % 20 != draw(22) % 20);
        } else if p == 23 {
            assert(draw(0) % 20 != draw(23) % 20);
        } else if p == 24 {
            assert(draw(0) % 20 != draw(24) % 20);
        } else if p == 25 {
            assert(draw(0) % 20 != draw(25) % 20);
        } else if p == 26 {
            assert(draw(0) % 20 != draw(26) % 20);
        } else if p == 27 {
            assert(draw(0) % 20 != draw(27) % 20);
        } else if p == 28 {
            assert(draw(0) % 20 != draw(28) % 20);
        } else if p == 29 {
            assert(draw(0) % 20 != draw(29) % 20);
        } else if p == 30 {
            assert(draw(0) % 20 != draw(30) % 20);
        } else if p == 31 {
            assert(draw(0) % 20 != draw(31) % 20);
        } else if p == 32 {
            assert(draw(0) % 20 != draw(32) % 20);
        } else if p == 33 {
            assert(draw(0) % 20 != draw(33) % 20);
        } else if p == 34 {
            assert(draw(0) % 20 != draw(34) % 20);
        } else if p == 35 {
            assert(draw(0) % 20 != draw(35) % 20);
        } else if p == 36 {
            assert(draw(0) % 20 != draw(36) % 20);
        } else if p == 37 {
            assert(draw(0) % 20 != draw(37) % 20);
        } else if p == 38 {
            assert(draw(1) % 20 != draw(39) % 20);
        } else if p == 39 {
            assert(draw(0) % 20 != draw(39) % 20);
        } else if p == 40 {
            assert(draw(0) % 20 != draw(40) % 20);
        } else if p == 41 {
            assert(draw(0) % 20 != draw(41) % 20);
        } else if p == 42 {
            assert(draw(0) % 20 != draw(42) % 20);
        } else if p == 43 {
            assert(draw(0) % 20 != draw(43) % 20);
        } else if p == 44 {
            assert(draw(0) % 20 != draw(44) % 20);
        } else if p == 45 {
            assert(draw(0) % 20 != draw(45) % 20);
        } else if p == 46 {
            assert(draw(0) % 20 != draw(46) % 20);
        } else if p == 47 {
            assert(draw(0) % 20 != draw(47) % 20);
        } else if p == 48 {
            assert(draw(0) % 20 != draw(48) % 20);
        } else if p == 49 {
            assert(draw(0) % 20 != draw(49) % 20);
        } else if p == 50 {
            assert(draw(0) % 20 != draw(50) % 20);
        } else if p == 51 {
            assert(draw(0) % 20 != draw(51) % 20);
        } else if p == 52 {
            assert(draw(0) % 20 != draw(52) % 20);
        } else if p == 53 {
            assert(draw(0) % 20 != draw(53) % 20);
        } else if p == 54 {
            assert(draw(0) % 20 != draw(54) % 20);
        } else if p == 55 {
            assert(draw(0) % 20 != draw(55) % 20);
        } else if p == 56 {
            assert(draw(0) % 20 != draw(56) % 20);
        } else if p == 57 {
            assert(draw(0) % 20 != draw(57) % 20);
        } else if p == 58 {
            assert(draw(0) % 20 != draw(58) % 20);
        } else if p == 59 {
            assert(draw(0) % 20 != draw(59) % 20);
        } else if p == 60 {
            assert(draw(0) % 20 != draw(60) % 20);
        } else if p == 61 {
            assert(draw(0) % 20 != draw(61) % 20);
        } else if p == 62 {
            assert(draw(0) % 20 != draw(62) % 20);
        } else if p == 63 {
            assert(draw(0) % 20 != draw(63) % 20);
        } else if p == 64 {
            assert(draw(0) % 20 != draw(64) % 20);
        }
    }
}

/// Among the first draws, every value modulo 36 turns up, and no shift of one to sixty four
/// places lines the draws up with themselves.
#[verifier::rlimit(100)]
proof fn lemma_draws_modulo_36()
    ensures
        forall|k: int| 0 <= k < 36 ==> #[trigger] drawn(36, k),
        forall|p: int| 1 <= p <= 64 ==> #[trigger] unaligned(36, p),
{
    lemma_first_draws();
    assert forall|k: int| 0 <= k < 36 implies #[trigger] drawn(36, k) by {
        if k == 0 {
            assert(draw(39) % 36 == 0);
        } else if k == 1 {
            assert(draw(14) % 36 == 1);
        } else if k == 2 {
            assert(draw(7) % 36 == 2);
        } else if k == 3 {
            assert(draw(22) % 36 == 3);
        } else if k == 4 {
            assert(draw(99) % 36 == 4);
        } else if k == 5 {
            assert(draw(52) % 36 == 5);
        } else if k == 6 {
            assert(draw(18) % 36 == 6);
        } else if k == 7 {
            assert(draw(51) % 36 == 7);
        } else if k == 8 {
            assert(draw(20) % 36 == 8);
        } else if k == 9 {
            assert(draw(43) % 36 == 9);
        } else if k == 10 {
            assert(draw(153) % 36 == 10);
        } else if k == 11 {
            assert(draw(40) % 36 == 11);
        } else if k == 12 {
            assert(draw(47) % 36 == 12);
        } else if k == 13 {
            assert(draw(9) % 36 == 13);
        } else if k == 14 {
            assert(draw(1) % 36 == 14);
        } else if k == 15 {
            assert(draw(80) % 36 == 15);
        } else if k == 16 {
            assert(draw(19) % 36 == 16);
        } else if k == 17 {
            assert(draw(10) % 36 == 17);
        } else if k == 18 {
            assert(draw(56) % 36 == 18);
        } else if k == 19 {
            assert(draw(103) % 36 == 19);
        } else if k == 20 {
            assert(draw(37) % 36 == 20);
        } else if k == 21 {
            assert(draw(50) % 36 == 21);
        } else if k == 22 {
            assert(draw(28) % 36 == 22);
        } else if k == 23 {
            assert(draw(4) % 36 == 23);
        } else if k == 24 {
            assert(draw(0) % 36 == 24);
        } else if k == 25 {
            assert(draw(5) % 36 == 25);
        } else if k == 26 {
            assert(draw(68) % 36 == 26);
        } else if k == 27 {
            assert(draw(11) % 36 == 27);
        } else if k == 28 {
            assert(draw(63) % 36 == 28);
        } else if k == 29 {
            assert(draw(8) % 36 == 29);
        } else if k == 30 {
            assert(draw(3) % 36 == 30);
        } else if k == 31 {
            assert(draw(26) % 36 == 31);
        } else if k == 32 {
            assert(draw(2) % 36 == 32);
        } else if k == 33 {
            assert(draw(97) % 36 == 33);
        } else if k == 34 {
            assert(draw(13) % 36 == 34);
        } else if k == 35 {
            assert(draw(21) % 36 == 35);
        }
    }
    assert forall|p: int| 1 <= p <= 64 implies #[trigger] unaligned(36, p) by {
        if p == 1 {
            assert(draw(0) % 36 != draw(1) % 36);
        } else if p == 2 {
            assert(draw(0) % 36 != draw(2) % 36);
        } else if p == 3 {
            assert(draw(0) % 36 != draw(3) % 36);
        } else if p == 4 {
            assert(draw(0) % 36 != draw(4) % 36);
        } else if p == 5 {
            assert(draw(0) % 36 != draw(5) % 36);
        } else if p == 6 {
            assert(draw(0) % 36 != draw(6) % 36);
        } else if p == 7 {
            assert(draw(0) % 36 != draw(7) % 36);
        } else if p == 8 {
            assert(draw(0) % 36 != draw(8) % 36);
        } else if p == 9 {
            assert(draw(0) % 36 != draw(9) % 36);
        } else if p == 10 {
            assert(draw(0) % 36 != draw(10) % 36);
        } else if p == 11 {
            assert(draw(0) % 36 != draw(11) % 36);
        } else if p == 12 {
            assert(draw(0) % 36 != draw(12) % 36);
        } else if p == 13 {
            assert(draw(0) % 36 != draw(13) % 36);
        } else if p == 14 {
            assert(draw(0) % 36 != draw(14) % 36);
        } else if p == 15 {
            assert(draw(0) % 36 != draw(15) % 36);
        } else if p == 16 {
            assert(draw(0) % 36 != draw(16) % 36);
        } else if p == 17 {
            assert(draw(0) % 36 != draw(17) % 36);
        } else if p == 18 {
            assert(draw(0) % 36 != draw(18) % 36);
        } else if p == 19 {
            assert(draw(0) % 36 != draw(19) % 36);
        } else if p == 20 {
            assert(draw(0) % 36 != draw(20) % 36);
        } else if p == 21 {
            assert(draw(0) % 36 != draw(21) % 36);
        } else if p == 22 {
            assert(draw(0) % 36 != draw(22) % 36);
        } else if p == 23 {
            assert(draw(0) % 36 != draw(23) % 36);
        } else if p == 24 {
            assert(draw(0) % 36 != draw(24) % 36);
        } else if p == 25 {
            assert(draw(0) % 36 != draw(25) % 36);
        } else if p == 26 {
            assert(draw(0) % 36 != draw(26) % 36);
        } else if p == 27 {
            assert(draw(0) % 36 != draw(27) % 36);
        } else if p == 28 {
            assert(draw(0) % 36 != draw(28) % 36);
        } else if p == 29 {
            assert(draw(0) % 36 != draw(29) % 36);
        } else if p == 30 {
            assert(draw(0) % 36 != draw(30) % 36);
        } else if p == 31 {
            assert(draw(0) % 36 != draw(31) % 36);
        } else if p == 32 {
            assert(draw(0) % 36 != draw(32) % 36);
        } else if p == 33 {
            assert(draw(0) % 36 != draw(33) % 36);
        } else if p == 34 {
            assert(draw(1) % 36 != draw(35) % 36);
        } else if p == 35 {
            assert(draw(0) % 36 != draw(35) % 36);
        } else if p == 36 {
            assert(draw(0) % 36 != draw(36) % 36);
        } else if p == 37 {
            assert(draw(0) % 36 != draw(37) % 36);
        } else if p == 38 {
            assert(draw(1) % 36 != draw(39) % 36);
        } else if p == 39 {
            assert(draw(0) % 36 != draw(39) % 36);
        } else if p == 40 {
            assert(draw(0) % 36 != draw(40) % 36);
        } else if p == 41 {
            assert(draw(0) % 36 != draw(41) % 36);
        } else if p == 42 {
            assert(draw(0) % 36 != draw(42) % 36);
        } else if p == 43 {
            assert(draw(0) % 36 != draw(43) % 36);
        } else if p == 44 {
            assert(draw(0) % 36 != draw(44) % 36);
        } else if p == 45 {
            assert(draw(0) % 36 != draw(45) % 36);
        } else if p == 46 {
            assert(draw(0) % 36 != draw(46) % 36);
        } else if p == 47 {
            assert(draw(0) % 36 != draw(47) % 36);
        } else if p == 48 {
            assert(draw(0) % 36 != draw(48) % 36);
        } else if p == 49 {
            assert(draw(0) % 36 != draw(49) % 36);
        } else if p == 50 {
            assert(draw(0) % 36 != draw(50) % 36);
        } else if p == 51 {
            assert(draw(0) % 36 != draw(51) % 36);
        } else if p == 52 {
            assert(draw(0) % 36 != draw(52) % 36);
        } else if p == 53 {
            assert(draw(0) % 36 != draw(53) % 36);
        } else if p == 54 {
            assert(draw(0) % 36 != draw(54) % 36);
        } else if p == 55 {
            assert(draw(0) % 36 != draw(55) % 36);
        } else if p == 56 {
            assert(draw(0) % 36 != draw(56) % 36);
        } else if p == 57 {
            assert(draw(0) % 36 != draw(57) % 36);
        } else if p == 58 {
            assert(draw(1) % 36 != draw(59) % 36);
        } else if p == 59 {
            assert(draw(0) % 36 != draw(59) % 36);
        } else if p == 60 {
            assert(draw(0) % 36 != draw(60) % 36);
        } else if p == 61 {
            assert(draw(0) % 36 != draw(61) % 36);
        } else if p == 62 {
            assert(draw(0) % 36 != draw(62) % 36);
        } else if p == 63 {
            assert(draw(0) % 36 != draw(63) % 36);
        } else if p == 64 {
            assert(draw(0) % 36 != draw(64) % 36);
        }
    }
}

/// For each span a stream is drawn over: every value below it turns up among the first draws,
/// and no shift of one to sixty four places lines the draws up with themselves.
pub proof fn lemma_draws_cover(span: int)
    requires
        span == 7 || span == 8 || span == 9 || span == 10 || span == 20 || span == 36,
    ensures
        forall|k: int| 0 <= k < span ==> #[trigger] drawn(span, k),
        forall|p: int| 1 <= p <= 64 ==> #[trigger] unaligned(span, p),
{
    if span == 7 {
        lemma_draws_modulo_7();
    } else if span == 8 {
        lemma_draws_modulo_8();
    } else if span == 9 {
        lemma_draws_modulo_9();
    } else if span == 10 {
        lemma_draws_modulo_10();
    } else if span == 20 {
        lemma_draws_modulo_20();
    } else if span == 36 {
        lemma_draws_modulo_36();
    }
}

} // verus!
