//! How far [`calc_blob_gasprice`](crate::eip4844::calc_blob_gasprice) reaches:
//! the proof that [`MAX_EXCESS_BLOB_GAS`] is the largest excess blob gas whose
//! price can be computed in 128 bits.
//!
//! The proof goes through the terms of the series for that excess blob gas,
//! and for the one after it, as far as they grow. In the calls below, the
//! arguments are the sum so far, the term, the numerator, the denominator,
//! the index of the next term, and the next term.
use crate::eip4844::{
    fake_exponential_fits, lemma_taylor_fits_monotone, lemma_taylor_fits_next,
    lemma_taylor_fits_past_growth, lemma_taylor_fits_step, taylor_fits,
    BLOB_GASPRICE_UPDATE_FRACTION, BLOB_TX_MIN_BLOB_GASPRICE, MAX_EXCESS_BLOB_GAS,
};
use vstd::prelude::*;

verus! {

/// At the largest excess blob gas, the summation fits from the term of index
/// 0 on if it fits from the term of index 19 on.
proof fn lemma_limit_fits_from_0()
    requires
        taylor_fits(36_246_210_093_424_305_695_236, 76_303_435_751_325_087_200_693, 192_204_552, 3_338_477, 20),
    ensures
        taylor_fits(0, 3_338_477, 192_204_552, 3_338_477, 1),
{
    lemma_taylor_fits_step(11_064_662_674_824_386_481_524, 25_181_547_418_599_919_213_712, 192_204_552, 3_338_477, 19, 76_303_435_751_325_087_200_693);
    lemma_taylor_fits_step(3_191_673_777_738_881_217_616, 7_872_988_897_085_505_263_908, 192_204_552, 3_338_477, 18, 25_181_547_418_599_919_213_712);
    lemma_taylor_fits_step(866_939_709_937_091_861_098, 2_324_734_067_801_789_356_518, 192_204_552, 3_338_477, 17, 7_872_988_897_085_505_263_908);
    lemma_taylor_fits_step(220_872_079_532_774_333_752, 646_067_630_404_317_527_346, 192_204_552, 3_338_477, 16, 2_324_734_067_801_789_356_518);
    lemma_taylor_fits_step(52_545_010_628_393_122_811, 168_327_068_904_381_210_941, 192_204_552, 3_338_477, 15, 646_067_630_404_317_527_346);
    lemma_taylor_fits_step(11_612_657_100_128_681_876, 40_932_353_528_264_440_935, 192_204_552, 3_338_477, 14, 168_327_068_904_381_210_941);
    lemma_taylor_fits_step(2_370_043_686_218_818_192, 9_242_613_413_909_863_684, 192_204_552, 3_338_477, 13, 40_932_353_528_264_440_935);
    lemma_taylor_fits_step(443_580_323_234_809_781, 1_926_463_362_984_008_411, 192_204_552, 3_338_477, 12, 9_242_613_413_909_863_684);
    lemma_taylor_fits_step(75_503_765_322_110_617, 368_076_557_912_699_164, 192_204_552, 3_338_477, 11, 1_926_463_362_984_008_411);
    lemma_taylor_fits_step(11_571_089_948_703_531, 63_932_675_373_407_086, 192_204_552, 3_338_477, 10, 368_076_557_912_699_164);
    lemma_taylor_fits_step(1_576_842_275_821_810, 9_994_247_672_881_721, 192_204_552, 3_338_477, 9, 63_932_675_373_407_086);
    lemma_taylor_fits_step(188_089_901_706_585, 1_388_752_374_115_225, 192_204_552, 3_338_477, 8, 9_994_247_672_881_721);
    lemma_taylor_fits_step(19_237_371_004_016, 168_852_530_702_569, 192_204_552, 3_338_477, 7, 1_388_752_374_115_225);
    lemma_taylor_fits_step(1_640_172_052_901, 17_597_198_951_115, 192_204_552, 3_338_477, 6, 168_852_530_702_569);
    lemma_taylor_fits_step(111_908_456_867, 1_528_263_596_034, 192_204_552, 3_338_477, 5, 17_597_198_951_115);
    lemma_taylor_fits_step(5_728_393_758, 106_180_063_109, 192_204_552, 3_338_477, 4, 1_528_263_596_034);
    lemma_taylor_fits_step(195_543_029, 5_532_850_729, 192_204_552, 3_338_477, 3, 106_180_063_109);
    lemma_taylor_fits_step(3_338_477, 192_204_552, 192_204_552, 3_338_477, 2, 5_532_850_729);
    lemma_taylor_fits_step(0, 3_338_477, 192_204_552, 3_338_477, 1, 192_204_552);
}

/// At the largest excess blob gas, the summation fits from the term of index
/// 19 on if it fits from the term of index 38 on.
proof fn lemma_limit_fits_from_19()
    requires
        taylor_fits(85_055_252_209_647_952_995_761_164_722, 49_341_070_907_540_609_005_980_286_986, 192_204_552, 3_338_477, 39),
    ensures
        taylor_fits(36_246_210_093_424_305_695_236, 76_303_435_751_325_087_200_693, 192_204_552, 3_338_477, 20),
{
    lemma_taylor_fits_step(52_488_317_195_292_251_941_223_153_982, 32_566_935_014_355_701_054_538_010_740, 192_204_552, 3_338_477, 38, 49_341_070_907_540_609_005_980_286_986);
    lemma_taylor_fits_step(31_558_601_390_647_398_482_135_030_534, 20_929_715_804_644_853_459_088_123_448, 192_204_552, 3_338_477, 37, 32_566_935_014_355_701_054_538_010_740);
    lemma_taylor_fits_step(18_471_286_508_051_068_963_907_485_747, 13_087_314_882_596_329_518_227_544_787, 192_204_552, 3_338_477, 36, 20_929_715_804_644_853_459_088_123_448);
    lemma_taylor_fits_step(10_515_130_035_462_978_941_274_562_535, 7_956_156_472_588_090_022_632_923_212, 192_204_552, 3_338_477, 35, 13_087_314_882_596_329_518_227_544_787);
    lemma_taylor_fits_step(5_816_546_500_705_488_148_378_862_635, 4_698_583_534_757_490_792_895_699_900, 192_204_552, 3_338_477, 34, 7_956_156_472_588_090_022_632_923_212);
    lemma_taylor_fits_step(3_123_365_066_110_238_507_968_661_018, 2_693_181_434_595_249_640_410_201_617, 192_204_552, 3_338_477, 33, 4_698_583_534_757_490_792_895_699_900);
    lemma_taylor_fits_step(1_626_439_140_863_973_541_878_954_062, 1_496_925_925_246_264_966_089_706_956, 192_204_552, 3_338_477, 32, 2_693_181_434_595_249_640_410_201_617);
    lemma_taylor_fits_step(820_417_460_709_959_173_472_714_313, 806_021_680_154_014_368_406_239_749, 192_204_552, 3_338_477, 31, 1_496_925_925_246_264_966_089_706_956);
    lemma_taylor_fits_step(400_414_165_362_063_340_090_928_736, 420_003_295_347_895_833_381_785_577, 192_204_552, 3_338_477, 30, 806_021_680_154_014_368_406_239_749);
    lemma_taylor_fits_step(188_853_260_697_060_609_530_797_269, 211_560_904_665_002_730_560_131_467, 192_204_552, 3_338_477, 29, 420_003_295_347_895_833_381_785_577);
    lemma_taylor_fits_step(85_962_076_303_818_346_540_368_777, 102_891_184_393_242_262_990_428_492, 192_204_552, 3_338_477, 28, 211_560_904_665_002_730_560_131_467);
    lemma_taylor_fits_step(37_708_817_347_760_153_072_711_403, 48_253_258_956_058_193_467_657_374, 192_204_552, 3_338_477, 27, 102_891_184_393_242_262_990_428_492);
    lemma_taylor_fits_step(15_917_438_155_055_333_426_262_894, 21_791_379_192_704_819_646_448_509, 192_204_552, 3_338_477, 26, 48_253_258_956_058_193_467_657_374);
    lemma_taylor_fits_step(6_454_860_724_380_901_717_328_071, 9_462_577_430_674_431_708_934_823, 192_204_552, 3_338_477, 25, 21_791_379_192_704_819_646_448_509);
    lemma_taylor_fits_step(2_510_238_587_062_236_996_211_630, 3_944_622_137_318_664_721_116_441, 192_204_552, 3_338_477, 24, 9_462_577_430_674_431_708_934_823);
    lemma_taylor_fits_step(934_377_384_670_049_695_831_517, 1_575_861_202_392_187_300_380_113, 192_204_552, 3_338_477, 23, 3_944_622_137_318_664_721_116_441);
    lemma_taylor_fits_step(332_198_720_627_116_049_784_236, 602_178_664_042_933_646_047_281, 192_204_552, 3_338_477, 22, 1_575_861_202_392_187_300_380_113);
    lemma_taylor_fits_step(112_549_645_844_749_392_895_929, 219_649_074_782_366_656_888_307, 192_204_552, 3_338_477, 21, 602_178_664_042_933_646_047_281);
    lemma_taylor_fits_step(36_246_210_093_424_305_695_236, 76_303_435_751_325_087_200_693, 192_204_552, 3_338_477, 20, 219_649_074_782_366_656_888_307);
}

/// At the largest excess blob gas, the summation fits from the term of index
/// 38 on if it fits from the term of index 57 on.
proof fn lemma_limit_fits_from_38()
    requires
        taylor_fits(15_221_520_727_485_828_122_323_527_489_855, 1_770_417_825_027_798_933_594_767_858_039, 192_204_552, 3_338_477, 58),
    ensures
        taylor_fits(85_055_252_209_647_952_995_761_164_722, 49_341_070_907_540_609_005_980_286_986, 192_204_552, 3_338_477, 39),
{
    lemma_taylor_fits_step(13_468_708_682_810_716_199_248_221_711_348, 1_752_812_044_675_111_923_075_305_778_507, 192_204_552, 3_338_477, 57, 1_770_417_825_027_798_933_594_767_858_039);
    lemma_taylor_fits_step(11_763_772_625_924_994_350_442_528_773_686, 1_704_936_056_885_721_848_805_692_937_662, 192_204_552, 3_338_477, 56, 1_752_812_044_675_111_923_075_305_778_507);
    lemma_taylor_fits_step(10_135_018_590_582_990_217_601_072_532_943, 1_628_754_035_342_004_132_841_456_240_743, 192_204_552, 3_338_477, 55, 1_704_936_056_885_721_848_805_692_937_662);
    lemma_taylor_fits_step(8_607_332_993_288_139_113_890_522_012_077, 1_527_685_597_294_851_103_710_550_520_866, 192_204_552, 3_338_477, 54, 1_628_754_035_342_004_132_841_456_240_743);
    lemma_taylor_fits_step(7_200_979_250_014_636_937_456_109_359_476, 1_406_353_743_273_502_176_434_412_652_601, 192_204_552, 3_338_477, 53, 1_527_685_597_294_851_103_710_550_520_866);
    lemma_taylor_fits_step(5_930_748_456_829_834_687_170_362_278_109, 1_270_230_793_184_802_250_285_747_081_367, 192_204_552, 3_338_477, 52, 1_406_353_743_273_502_176_434_412_652_601);
    lemma_taylor_fits_step(4_805_528_224_404_225_057_651_870_369_514, 1_125_220_232_425_609_629_518_491_908_595, 192_204_552, 3_338_477, 51, 1_270_230_793_184_802_250_285_747_081_367);
    lemma_taylor_fits_step(3_828_308_427_370_606_426_412_063_335_305, 977_219_797_033_618_631_239_807_034_209, 192_204_552, 3_338_477, 50, 1_125_220_232_425_609_629_518_491_908_595);
    lemma_taylor_fits_step(2_996_596_257_511_440_982_031_155_612_895, 831_712_169_859_165_444_380_907_722_410, 192_204_552, 3_338_477, 49, 977_219_797_033_618_631_239_807_034_209);
    lemma_taylor_fits_step(2_303_172_026_927_370_217_606_694_405_656, 693_424_230_584_070_764_424_461_207_239, 192_204_552, 3_338_477, 48, 831_712_169_859_165_444_380_907_722_410);
    lemma_taylor_fits_step(1_737_087_100_295_466_149_955_041_426_309, 566_084_926_631_904_067_651_652_979_347, 192_204_552, 3_338_477, 47, 693_424_230_584_070_764_424_461_207_239);
    lemma_taylor_fits_step(1_284_789_647_163_680_993_176_712_761_947, 452_297_453_131_785_156_778_328_664_362, 192_204_552, 3_338_477, 46, 566_084_926_631_904_067_651_652_979_347);
    lemma_taylor_fits_step(931_263_633_899_661_511_639_860_317_897, 353_526_013_264_019_481_536_852_444_050, 192_204_552, 3_338_477, 45, 452_297_453_131_785_156_778_328_664_362);
    lemma_taylor_fits_step(661_080_165_903_131_156_140_480_221_937, 270_183_467_996_530_355_499_380_095_960, 192_204_552, 3_338_477, 44, 353_526_013_264_019_481_536_852_444_050);
    lemma_taylor_fits_step(459_284_447_617_926_001_996_317_858_505, 201_795_718_285_205_154_144_162_363_432, 192_204_552, 3_338_477, 43, 270_183_467_996_530_355_499_380_095_960);
    lemma_taylor_fits_step(312_071_517_426_071_089_057_247_035_393, 147_212_930_191_854_912_939_070_823_112, 192_204_552, 3_338_477, 42, 201_795_718_285_205_154_144_162_363_432);
    lemma_taylor_fits_step(207_234_529_780_364_124_835_360_635_337, 104_836_987_645_706_964_221_886_400_056, 192_204_552, 3_338_477, 41, 147_212_930_191_854_912_939_070_823_112);
    lemma_taylor_fits_step(134_396_323_117_188_562_001_741_451_708, 72_838_206_663_175_562_833_619_183_629, 192_204_552, 3_338_477, 40, 104_836_987_645_706_964_221_886_400_056);
    lemma_taylor_fits_step(85_055_252_209_647_952_995_761_164_722, 49_341_070_907_540_609_005_980_286_986, 192_204_552, 3_338_477, 39, 72_838_206_663_175_562_833_619_183_629);
}

/// The blob gas price of the largest excess blob gas can be computed in 128
/// bits.
///
/// The terms of its series grow up to the one of index 57. From there on they
/// shrink, and [`lemma_taylor_fits_past_growth`] bounds what is left of the
/// sum. The growing terms are gone through one by one, the last one first.
pub proof fn lemma_blob_gasprice_fits_at_limit()
    ensures
        fake_exponential_fits(
            BLOB_TX_MIN_BLOB_GASPRICE as nat,
            MAX_EXCESS_BLOB_GAS as nat,
            BLOB_GASPRICE_UPDATE_FRACTION as nat,
        ),
{
    lemma_taylor_fits_past_growth(
        15_221_520_727_485_828_122_323_527_489_855,
        1_770_417_825_027_798_933_594_767_858_039,
        192_204_552,
        3_338_477,
        58,
        136 * 1_770_417_825_027_798_933_594_767_858_039,
    );
    lemma_limit_fits_from_38();
    lemma_limit_fits_from_19();
    lemma_limit_fits_from_0();
}

/// One excess blob gas past the largest, the summation fits from the term of
/// index 19 on if it fits from the term of index 0 on.
proof fn lemma_past_limit_fits_from_19()
    requires
        taylor_fits(0, 3_338_477, 192_204_553, 3_338_477, 1),
    ensures
        taylor_fits(36_246_213_410_675_577_648_834, 76_303_443_300_395_445_974_890, 192_204_553, 3_338_477, 20),
{
    lemma_taylor_fits_next(0, 3_338_477, 192_204_553, 3_338_477, 1, 192_204_553);
    lemma_taylor_fits_next(3_338_477, 192_204_553, 192_204_553, 3_338_477, 2, 5_532_850_787);
    lemma_taylor_fits_next(195_543_030, 5_532_850_787, 192_204_553, 3_338_477, 3, 106_180_064_775);
    lemma_taylor_fits_next(5_728_393_817, 106_180_064_775, 192_204_553, 3_338_477, 4, 1_528_263_627_964);
    lemma_taylor_fits_next(111_908_458_592, 1_528_263_627_964, 192_204_553, 3_338_477, 5, 17_597_199_410_328);
    lemma_taylor_fits_next(1_640_172_086_556, 17_597_199_410_328, 192_204_553, 3_338_477, 6, 168_852_535_987_415);
    lemma_taylor_fits_next(19_237_371_496_884, 168_852_535_987_415, 192_204_553, 3_338_477, 7, 1_388_752_424_806_602);
    lemma_taylor_fits_next(188_089_907_484_299, 1_388_752_424_806_602, 192_204_553, 3_338_477, 8, 9_994_248_089_683_523);
    lemma_taylor_fits_next(1_576_842_332_290_901, 9_994_248_089_683_523, 192_204_553, 3_338_477, 9, 63_932_678_372_294_560);
    lemma_taylor_fits_next(11_571_090_421_974_424, 63_932_678_372_294_560, 192_204_553, 3_338_477, 10, 368_076_577_093_076_977);
    lemma_taylor_fits_next(75_503_768_794_268_984, 368_076_577_093_076_977, 192_204_553, 3_338_477, 11, 1_926_463_473_394_520_363);
    lemma_taylor_fits_next(443_580_345_887_345_961, 1_926_463_473_394_520_363, 192_204_553, 3_338_477, 12, 9_242_613_991_714_914_191);
    lemma_taylor_fits_next(2_370_043_819_281_866_324, 9_242_613_991_714_914_191, 192_204_553, 3_338_477, 13, 40_932_356_300_126_600_462);
    lemma_taylor_fits_next(11_612_657_810_996_780_515, 40_932_356_300_126_600_462, 192_204_553, 3_338_477, 14, 168_327_081_178_944_921_916);
    lemma_taylor_fits_next(52_545_014_111_123_380_977, 168_327_081_178_944_921_916, 192_204_553, 3_338_477, 15, 646_067_680_877_514_342_188);
    lemma_taylor_fits_next(220_872_095_290_068_302_893, 646_067_680_877_514_342_188, 192_204_553, 3_338_477, 16, 2_324_734_261_513_732_382_523);
    lemma_taylor_fits_next(866_939_776_167_582_645_081, 2_324_734_261_513_732_382_523, 192_204_553, 3_338_477, 17, 7_872_989_594_075_594_349_379);
    lemma_taylor_fits_next(3_191_674_037_681_315_027_604, 7_872_989_594_075_594_349_379, 192_204_553, 3_338_477, 18, 25_181_549_778_918_668_271_851);
    lemma_taylor_fits_next(11_064_663_631_756_909_376_983, 25_181_549_778_918_668_271_851, 192_204_553, 3_338_477, 19, 76_303_443_300_395_445_974_890);
}

/// One excess blob gas past the largest, the summation fits from the term of
/// index 38 on if it fits from the term of index 19 on.
proof fn lemma_past_limit_fits_from_38()
    requires
        taylor_fits(36_246_213_410_675_577_648_834, 76_303_443_300_395_445_974_890, 192_204_553, 3_338_477, 20),
    ensures
        taylor_fits(85_055_267_938_844_960_592_619_362_289, 49_341_080_666_607_427_388_916_937_244, 192_204_553, 3_338_477, 39),
{
    lemma_taylor_fits_next(36_246_213_410_675_577_648_834, 76_303_443_300_395_445_974_890, 192_204_553, 3_338_477, 20, 219_649_097_656_107_132_336_681);
    lemma_taylor_fits_next(112_549_656_711_071_023_623_724, 219_649_097_656_107_132_336_681, 192_204_553, 3_338_477, 21, 602_178_729_885_419_795_725_838);
    lemma_taylor_fits_next(332_198_754_367_178_155_960_405, 602_178_729_885_419_795_725_838, 192_204_553, 3_338_477, 22, 1_575_861_382_896_436_868_107_496);
    lemma_taylor_fits_next(934_377_484_252_597_951_686_243, 1_575_861_382_896_436_868_107_496, 192_204_553, 3_338_477, 23, 3_944_622_609_671_513_628_979_832);
    lemma_taylor_fits_next(2_510_238_867_149_034_819_793_739, 3_944_622_609_671_513_628_979_832, 192_204_553, 3_338_477, 24, 9_462_578_613_012_345_073_959_828);
    lemma_taylor_fits_next(6_454_861_476_820_548_448_773_571, 9_462_578_613_012_345_073_959_828, 192_204_553, 3_338_477, 25, 21_791_382_028_887_996_154_200_860);
    lemma_taylor_fits_next(15_917_440_089_832_893_522_733_399, 21_791_382_028_887_996_154_200_860, 192_204_553, 3_338_477, 26, 48_253_265_487_349_360_293_099_741);
    lemma_taylor_fits_next(37_708_822_118_720_889_676_934_259, 48_253_265_487_349_360_293_099_741, 192_204_553, 3_338_477, 27, 102_891_198_855_338_670_785_679_337);
    lemma_taylor_fits_next(85_962_087_606_070_249_970_034_000, 102_891_198_855_338_670_785_679_337, 192_204_553, 3_338_477, 28, 211_560_935_502_117_549_002_730_198);
    lemma_taylor_fits_next(188_853_286_461_408_920_755_713_337, 211_560_935_502_117_549_002_730_198, 192_204_553, 3_338_477, 29, 420_003_358_752_760_347_158_561_900);
    lemma_taylor_fits_next(400_414_221_963_526_469_758_443_535, 420_003_358_752_760_347_158_561_900, 192_204_553, 3_338_477, 30, 806_021_806_026_849_369_155_817_758);
    lemma_taylor_fits_next(820_417_580_716_286_816_917_005_435, 806_021_806_026_849_369_155_817_758, 192_204_553, 3_338_477, 31, 1_496_926_166_802_748_185_696_515_637);
    lemma_taylor_fits_next(1_626_439_386_743_136_186_072_823_193, 1_496_926_166_802_748_185_696_515_637, 192_204_553, 3_338_477, 32, 2_693_181_883_201_584_642_894_048_147);
    lemma_taylor_fits_next(3_123_365_553_545_884_371_769_338_830, 2_693_181_883_201_584_642_894_048_147, 192_204_553, 3_338_477, 33, 4_698_584_341_851_713_940_029_278_551);
    lemma_taylor_fits_next(5_816_547_436_747_469_014_663_386_977, 4_698_584_341_851_713_940_029_278_551, 192_204_553, 3_338_477, 34, 7_956_157_880_642_685_009_178_774_093);
    lemma_taylor_fits_next(10_515_131_778_599_182_954_692_665_528, 7_956_157_880_642_685_009_178_774_093, 192_204_553, 3_338_477, 35, 13_087_317_266_837_154_657_296_957_963);
    lemma_taylor_fits_next(18_471_289_659_241_867_963_871_439_621, 13_087_317_266_837_154_657_296_957_963, 192_204_553, 3_338_477, 36, 20_929_719_726_503_507_726_374_348_355);
    lemma_taylor_fits_next(31_558_606_926_079_022_621_168_397_584, 20_929_719_726_503_507_726_374_348_355, 192_204_553, 3_338_477, 37, 32_566_941_286_262_430_245_076_616_350);
    lemma_taylor_fits_next(52_488_326_652_582_530_347_542_745_939, 32_566_941_286_262_430_245_076_616_350, 192_204_553, 3_338_477, 38, 49_341_080_666_607_427_388_916_937_244);
}

/// One excess blob gas past the largest, the summation fits from the term of
/// index 57 on if it fits from the term of index 38 on.
proof fn lemma_past_limit_fits_from_57()
    requires
        taylor_fits(85_055_267_938_844_960_592_619_362_289, 49_341_080_666_607_427_388_916_937_244, 192_204_553, 3_338_477, 39),
    ensures
        taylor_fits(15_221_524_763_119_315_126_130_709_223_577, 1_770_418_350_206_210_959_935_168_393_041, 192_204_553, 3_338_477, 58),
{
    lemma_taylor_fits_next(85_055_267_938_844_960_592_619_362_289, 49_341_080_666_607_427_388_916_937_244, 192_204_553, 3_338_477, 39, 72_838_221_448_653_525_880_880_421_706);
    lemma_taylor_fits_next(134_396_348_605_452_387_981_536_299_533, 72_838_221_448_653_525_880_880_421_706, 192_204_553, 3_338_477, 40, 104_837_009_472_084_601_704_673_663_323);
    lemma_taylor_fits_next(207_234_570_054_105_913_862_416_721_239, 104_837_009_472_084_601_704_673_663_323, 192_204_553, 3_338_477, 41, 147_212_961_606_545_818_529_109_483_374);
    lemma_taylor_fits_next(312_071_579_526_190_515_567_090_384_562, 147_212_961_606_545_818_529_109_483_374, 192_204_553, 3_338_477, 42, 201_795_762_397_560_759_166_862_512_599);
    lemma_taylor_fits_next(459_284_541_132_736_334_096_199_867_936, 201_795_762_397_560_759_166_862_512_599, 192_204_553, 3_338_477, 43, 270_183_528_464_092_458_968_478_264_305);
    lemma_taylor_fits_next(661_080_303_530_297_093_263_062_380_535, 270_183_528_464_092_458_968_478_264_305, 192_204_553, 3_338_477, 44, 353_526_094_223_120_218_826_968_145_552);
    lemma_taylor_fits_next(931_263_831_994_389_552_231_540_644_840, 353_526_094_223_120_218_826_968_145_552, 192_204_553, 3_338_477, 45, 452_297_559_063_214_246_928_229_028_193);
    lemma_taylor_fits_next(1_284_789_926_217_509_771_058_508_790_392, 452_297_559_063_214_246_928_229_028_193, 192_204_553, 3_338_477, 46, 566_085_062_158_428_067_089_273_781_489);
    lemma_taylor_fits_next(1_737_087_485_280_724_017_986_737_818_585, 566_085_062_158_428_067_089_273_781_489, 192_204_553, 3_338_477, 47, 693_424_400_204_668_952_897_599_957_754);
    lemma_taylor_fits_next(2_303_172_547_439_152_085_076_011_600_074, 693_424_400_204_668_952_897_599_957_754, 192_204_553, 3_338_477, 48, 831_712_377_634_019_847_752_066_627_567);
    lemma_taylor_fits_next(2_996_596_947_643_821_037_973_611_557_828, 831_712_377_634_019_847_752_066_627_567, 192_204_553, 3_338_477, 49, 977_220_046_242_850_712_760_938_723_890);
    lemma_taylor_fits_next(3_828_309_325_277_840_885_725_678_185_395, 977_220_046_242_850_712_760_938_723_890, 192_204_553, 3_338_477, 50, 1_125_220_525_231_993_215_420_969_641_460);
    lemma_taylor_fits_next(4_805_529_371_520_691_598_486_616_909_285, 1_125_220_525_231_993_215_420_969_641_460, 192_204_553, 3_338_477, 51, 1_270_231_130_334_783_203_503_498_320_937);
    lemma_taylor_fits_next(5_930_749_896_752_684_813_907_586_550_745, 1_270_231_130_334_783_203_503_498_320_937, 192_204_553, 3_338_477, 52, 1_406_354_123_870_772_775_806_372_006_848);
    lemma_taylor_fits_next(7_200_981_027_087_468_017_411_084_871_682, 1_406_354_123_870_772_775_806_372_006_848, 192_204_553, 3_338_477, 53, 1_527_686_018_676_025_427_832_686_548_149);
    lemma_taylor_fits_next(8_607_335_150_958_240_793_217_456_878_530, 1_527_686_018_676_025_427_832_686_548_149, 192_204_553, 3_338_477, 54, 1_628_754_493_074_931_180_213_674_926_976);
    lemma_taylor_fits_next(10_135_021_169_634_266_221_050_143_426_679, 1_628_754_493_074_931_180_213_674_926_976, 192_204_553, 3_338_477, 55, 1_704_936_544_898_705_405_863_113_541_276);
    lemma_taylor_fits_next(11_763_775_662_709_197_401_263_818_353_655, 1_704_936_544_898_705_405_863_113_541_276, 192_204_553, 3_338_477, 56, 1_752_812_555_511_412_319_003_777_328_646);
    lemma_taylor_fits_next(13_468_712_207_607_902_807_126_931_894_931, 1_752_812_555_511_412_319_003_777_328_646, 192_204_553, 3_338_477, 57, 1_770_418_350_206_210_959_935_168_393_041);
}

/// One excess blob gas past the largest the computation does not fit any
/// more: the term of index 57 of the series, times the numerator, is above
/// 128 bits. The terms up to that one are gone through one by one.
pub proof fn lemma_blob_gasprice_overflows_past_limit()
    ensures
        !fake_exponential_fits(
            BLOB_TX_MIN_BLOB_GASPRICE as nat,
            (MAX_EXCESS_BLOB_GAS + 1) as nat,
            BLOB_GASPRICE_UPDATE_FRACTION as nat,
        ),
{
    if taylor_fits(0, 3_338_477, 192_204_553, 3_338_477, 1) {
        lemma_past_limit_fits_from_19();
        lemma_past_limit_fits_from_38();
        lemma_past_limit_fits_from_57();
        assert(!taylor_fits(15_221_524_763_119_315_126_130_709_223_577, 1_770_418_350_206_210_959_935_168_393_041, 192_204_553, 3_338_477, 58));
    }
}

/// The blob gas price of every excess blob gas up to the largest one can be
/// computed in 128 bits.
pub proof fn lemma_blob_gasprice_fits(excess_blob_gas: nat)
    requires
        excess_blob_gas <= MAX_EXCESS_BLOB_GAS,
    ensures
        fake_exponential_fits(
            BLOB_TX_MIN_BLOB_GASPRICE as nat,
            excess_blob_gas,
            BLOB_GASPRICE_UPDATE_FRACTION as nat,
        ),
{
    lemma_blob_gasprice_fits_at_limit();
    lemma_taylor_fits_monotone(
        0,
        BLOB_GASPRICE_UPDATE_FRACTION as nat,
        excess_blob_gas,
        0,
        BLOB_GASPRICE_UPDATE_FRACTION as nat,
        MAX_EXCESS_BLOB_GAS as nat,
        BLOB_GASPRICE_UPDATE_FRACTION as nat,
        1,
    );
}

/// The blob gas price of an excess blob gas above the largest one cannot be
/// computed in 128 bits.
pub proof fn lemma_blob_gasprice_overflows(excess_blob_gas: nat)
    requires
        excess_blob_gas > MAX_EXCESS_BLOB_GAS,
    ensures
        !fake_exponential_fits(
            BLOB_TX_MIN_BLOB_GASPRICE as nat,
            excess_blob_gas,
            BLOB_GASPRICE_UPDATE_FRACTION as nat,
        ),
{
    lemma_blob_gasprice_overflows_past_limit();
    if fake_exponential_fits(
        BLOB_TX_MIN_BLOB_GASPRICE as nat,
        excess_blob_gas,
        BLOB_GASPRICE_UPDATE_FRACTION as nat,
    ) {
        lemma_taylor_fits_monotone(
            0,
            BLOB_GASPRICE_UPDATE_FRACTION as nat,
            (MAX_EXCESS_BLOB_GAS + 1) as nat,
            0,
            BLOB_GASPRICE_UPDATE_FRACTION as nat,
            excess_blob_gas,
            BLOB_GASPRICE_UPDATE_FRACTION as nat,
            1,
        );
    }
}

} // verus!
