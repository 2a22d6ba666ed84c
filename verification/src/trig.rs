//! Integer trigonometry at whole-degree resolution.
//!
//! The kinematics solver needs the arctangent and arccosine of exact
//! integer ratios, rounded to the nearest whole degree. Both are computed
//! against fixed tables of the boundary values that separate adjacent
//! degrees: `tan` and `cos` at every half-degree mark, in fixed-point form
//! scaled by [`TRIG_SCALE`]. An angle rounds to degree `d` exactly when its
//! ratio falls between the boundaries at `d - 1/2` and `d + 1/2`, so a scan
//! over the boundary table is the rounding itself; no floating point is
//! involved anywhere.

use vstd::prelude::*;
use vstd::arithmetic::div_mod::lemma_mod_multiples_vanish;

verus! {

/// Fixed-point scale of the trigonometric boundary tables.
pub const TRIG_SCALE: i64 = 1000000000;

/// `tan((d + 1/2) degrees)` scaled by [`TRIG_SCALE`] and rounded to the
/// nearest integer, for `0 <= d < 90`: the boundary above which a ratio
/// stops rounding to degree `d`.
pub open spec fn tan_half_scaled(d: int) -> int {
    if d == 0 {
        8726868
    } else if d == 1 {
        26185922
    } else if d == 2 {
        43660943
    } else if d == 3 {
        61162620
    } else if d == 4 {
        78701707
    } else if d == 5 {
        96289048
    } else if d == 6 {
        113935608
    } else if d == 7 {
        131652498
    } else if d == 8 {
        149451001
    } else if d == 9 {
        167342609
    } else if d == 10 {
        185339045
    } else if d == 11 {
        203452299
    } else if d == 12 {
        221694663
    } else if d == 13 {
        240078759
    } else if d == 14 {
        258617584
    } else if d == 15 {
        277324544
    } else if d == 16 {
        296213495
    } else if d == 17 {
        315298789
    } else if d == 18 {
        334595320
    } else if d == 19 {
        354118573
    } else if d == 20 {
        373884679
    } else if d == 21 {
        393910476
    } else if d == 22 {
        414213562
    } else if d == 23 {
        434812375
    } else if d == 24 {
        455726256
    } else if d == 25 {
        476975533
    } else if d == 26 {
        498581608
    } else if d == 27 {
        520567051
    } else if d == 28 {
        542955700
    } else if d == 29 {
        565772778
    } else if d == 30 {
        589045016
    } else if d == 31 {
        612800788
    } else if d == 32 {
        637070261
    } else if d == 33 {
        661885561
    } else if d == 34 {
        687280959
    } else if d == 35 {
        713293068
    } else if d == 36 {
        739961075
    } else if d == 37 {
        767326988
    } else if d == 38 {
        795435917
    } else if d == 39 {
        824336386
    } else if d == 40 {
        854080685
    } else if d == 41 {
        884725265
    } else if d == 42 {
        916331174
    } else if d == 43 {
        948964567
    } else if d == 44 {
        982697263
    } else if d == 45 {
        1017607393
    } else if d == 46 {
        1053780125
    } else if d == 47 {
        1091308501
    } else if d == 48 {
        1130294386
    } else if d == 49 {
        1170849566
    } else if d == 50 {
        1213097004
    } else if d == 51 {
        1257172299
    } else if d == 52 {
        1303225373
    } else if d == 53 {
        1351422438
    } else if d == 54 {
        1401948294
    } else if d == 55 {
        1455009029
    } else if d == 56 {
        1510835194
    } else if d == 57 {
        1569685577
    } else if d == 58 {
        1631851687
    } else if d == 59 {
        1697663119
    } else if d == 60 {
        1767494016
    } else if d == 61 {
        1841770886
    } else if d == 62 {
        1920982127
    } else if d == 63 {
        2005689708
    } else if d == 64 {
        2096543599
    } else if d == 65 {
        2194299731
    } else if d == 66 {
        2299842547
    } else if d == 67 {
        2414213562
    } else if d == 68 {
        2538647896
    } else if d == 69 {
        2674621494
    } else if d == 70 {
        2823912886
    } else if d == 71 {
        2988684963
    } else if d == 72 {
        3171594802
    } else if d == 73 {
        3375943423
    } else if d == 74 {
        3605883509
    } else if d == 75 {
        3866713095
    } else if d == 76 {
        4165299770
    } else if d == 77 {
        4510708504
    } else if d == 78 {
        4915157031
    } else if d == 79 {
        5395517174
    } else if d == 80 {
        5975764364
    } else if d == 81 {
        6691156238
    } else if d == 82 {
        7595754113
    } else if d == 83 {
        8776887357
    } else if d == 84 {
        10385397080
    } else if d == 85 {
        12706204736
    } else if d == 86 {
        16349855476
    } else if d == 87 {
        22903765548
    } else if d == 88 {
        38188459297
    } else {
        114588650129
    }

}

/// Table lookup for [`tan_half_scaled`].
pub(crate) fn tan_half(d: u32) -> (r: i64)
    requires
        d < 90,
    ensures
        r == tan_half_scaled(d as int),
        0 < r <= 114588650129,
{
    if d == 0 {
        8726868
    } else if d == 1 {
        26185922
    } else if d == 2 {
        43660943
    } else if d == 3 {
        61162620
    } else if d == 4 {
        78701707
    } else if d == 5 {
        96289048
    } else if d == 6 {
        113935608
    } else if d == 7 {
        131652498
    } else if d == 8 {
        149451001
    } else if d == 9 {
        167342609
    } else if d == 10 {
        185339045
    } else if d == 11 {
        203452299
    } else if d == 12 {
        221694663
    } else if d == 13 {
        240078759
    } else if d == 14 {
        258617584
    } else if d == 15 {
        277324544
    } else if d == 16 {
        296213495
    } else if d == 17 {
        315298789
    } else if d == 18 {
        334595320
    } else if d == 19 {
        354118573
    } else if d == 20 {
        373884679
    } else if d == 21 {
        393910476
    } else if d == 22 {
        414213562
    } else if d == 23 {
        434812375
    } else if d == 24 {
        455726256
    } else if d == 25 {
        476975533
    } else if d == 26 {
        498581608
    } else if d == 27 {
        520567051
    } else if d == 28 {
        542955700
    } else if d == 29 {
        565772778
    } else if d == 30 {
        589045016
    } else if d == 31 {
        612800788
    } else if d == 32 {
        637070261
    } else if d == 33 {
        661885561
    } else if d == 34 {
        687280959
    } else if d == 35 {
        713293068
    } else if d == 36 {
        739961075
    } else if d == 37 {
        767326988
    } else if d == 38 {
        795435917
    } else if d == 39 {
        824336386
    } else if d == 40 {
        854080685
    } else if d == 41 {
        884725265
    } else if d == 42 {
        916331174
    } else if d == 43 {
        948964567
    } else if d == 44 {
        982697263
    } else if d == 45 {
        1017607393
    } else if d == 46 {
        1053780125
    } else if d == 47 {
        1091308501
    } else if d == 48 {
        1130294386
    } else if d == 49 {
        1170849566
    } else if d == 50 {
        1213097004
    } else if d == 51 {
        1257172299
    } else if d == 52 {
        1303225373
    } else if d == 53 {
        1351422438
    } else if d == 54 {
        1401948294
    } else if d == 55 {
        1455009029
    } else if d == 56 {
        1510835194
    } else if d == 57 {
        1569685577
    } else if d == 58 {
        1631851687
    } else if d == 59 {
        1697663119
    } else if d == 60 {
        1767494016
    } else if d == 61 {
        1841770886
    } else if d == 62 {
        1920982127
    } else if d == 63 {
        2005689708
    } else if d == 64 {
        2096543599
    } else if d == 65 {
        2194299731
    } else if d == 66 {
        2299842547
    } else if d == 67 {
        2414213562
    } else if d == 68 {
        2538647896
    } else if d == 69 {
        2674621494
    } else if d == 70 {
        2823912886
    } else if d == 71 {
        2988684963
    } else if d == 72 {
        3171594802
    } else if d == 73 {
        3375943423
    } else if d == 74 {
        3605883509
    } else if d == 75 {
        3866713095
    } else if d == 76 {
        4165299770
    } else if d == 77 {
        4510708504
    } else if d == 78 {
        4915157031
    } else if d == 79 {
        5395517174
    } else if d == 80 {
        5975764364
    } else if d == 81 {
        6691156238
    } else if d == 82 {
        7595754113
    } else if d == 83 {
        8776887357
    } else if d == 84 {
        10385397080
    } else if d == 85 {
        12706204736
    } else if d == 86 {
        16349855476
    } else if d == 87 {
        22903765548
    } else if d == 88 {
        38188459297
    } else {
        114588650129
    }

}

/// `cos((d + 1/2) degrees)` scaled by [`TRIG_SCALE`] and rounded to the
/// nearest integer, for `0 <= d < 180`: the boundary below which a cosine
/// stops rounding to degree `d`.
pub open spec fn half_cos_scaled(d: int) -> int {
    if d == 0 {
        999961923
    } else if d == 1 {
        999657325
    } else if d == 2 {
        999048222
    } else if d == 3 {
        998134798
    } else if d == 4 {
        996917334
    } else if d == 5 {
        995396198
    } else if d == 6 {
        993571856
    } else if d == 7 {
        991444861
    } else if d == 8 {
        989015863
    } else if d == 9 {
        986285602
    } else if d == 10 {
        983254908
    } else if d == 11 {
        979924705
    } else if d == 12 {
        976296007
    } else if d == 13 {
        972369920
    } else if d == 14 {
        968147640
    } else if d == 15 {
        963630453
    } else if d == 16 {
        958819735
    } else if d == 17 {
        953716951
    } else if d == 18 {
        948323655
    } else if d == 19 {
        942641491
    } else if d == 20 {
        936672189
    } else if d == 21 {
        930417568
    } else if d == 22 {
        923879533
    } else if d == 23 {
        917060074
    } else if d == 24 {
        909961271
    } else if d == 25 {
        902585284
    } else if d == 26 {
        894934362
    } else if d == 27 {
        887010833
    } else if d == 28 {
        878817113
    } else if d == 29 {
        870355696
    } else if d == 30 {
        861629160
    } else if d == 31 {
        852640164
    } else if d == 32 {
        843391446
    } else if d == 33 {
        833885822
    } else if d == 34 {
        824126189
    } else if d == 35 {
        814115518
    } else if d == 36 {
        803856861
    } else if d == 37 {
        793353340
    } else if d == 38 {
        782608157
    } else if d == 39 {
        771624583
    } else if d == 40 {
        760405966
    } else if d == 41 {
        748955721
    } else if d == 42 {
        737277337
    } else if d == 43 {
        725374371
    } else if d == 44 {
        713250449
    } else if d == 45 {
        700909264
    } else if d == 46 {
        688354576
    } else if d == 47 {
        675590208
    } else if d == 48 {
        662620048
    } else if d == 49 {
        649448048
    } else if d == 50 {
        636078220
    } else if d == 51 {
        622514637
    } else if d == 52 {
        608761429
    } else if d == 53 {
        594822787
    } else if d == 54 {
        580702956
    } else if d == 55 {
        566406237
    } else if d == 56 {
        551936985
    } else if d == 57 {
        537299608
    } else if d == 58 {
        522498565
    } else if d == 59 {
        507538363
    } else if d == 60 {
        492423560
    } else if d == 61 {
        477158760
    } else if d == 62 {
        461748613
    } else if d == 63 {
        446197813
    } else if d == 64 {
        430511097
    } else if d == 65 {
        414693243
    } else if d == 66 {
        398749069
    } else if d == 67 {
        382683432
    } else if d == 68 {
        366501227
    } else if d == 69 {
        350207381
    } else if d == 70 {
        333806859
    } else if d == 71 {
        317304656
    } else if d == 72 {
        300705800
    } else if d == 73 {
        284015345
    } else if d == 74 {
        267238376
    } else if d == 75 {
        250380004
    } else if d == 76 {
        233445364
    } else if d == 77 {
        216439614
    } else if d == 78 {
        199367934
    } else if d == 79 {
        182235525
    } else if d == 80 {
        165047606
    } else if d == 81 {
        147809411
    } else if d == 82 {
        130526192
    } else if d == 83 {
        113203214
    } else if d == 84 {
        95845753
    } else if d == 85 {
        78459096
    } else if d == 86 {
        61048540
    } else if d == 87 {
        43619387
    } else if d == 88 {
        26176948
    } else if d == 89 {
        8726535
    } else if d == 90 {
        -8726535
    } else if d == 91 {
        -26176948
    } else if d == 92 {
        -43619387
    } else if d == 93 {
        -61048540
    } else if d == 94 {
        -78459096
    } else if d == 95 {
        -95845753
    } else if d == 96 {
        -113203214
    } else if d == 97 {
        -130526192
    } else if d == 98 {
        -147809411
    } else if d == 99 {
        -165047606
    } else if d == 100 {
        -182235525
    } else if d == 101 {
        -199367934
    } else if d == 102 {
        -216439614
    } else if d == 103 {
        -233445364
    } else if d == 104 {
        -250380004
    } else if d == 105 {
        -267238376
    } else if d == 106 {
        -284015345
    } else if d == 107 {
        -300705800
    } else if d == 108 {
        -317304656
    } else if d == 109 {
        -333806859
    } else if d == 110 {
        -350207381
    } else if d == 111 {
        -366501227
    } else if d == 112 {
        -382683432
    } else if d == 113 {
        -398749069
    } else if d == 114 {
        -414693243
    } else if d == 115 {
        -430511097
    } else if d == 116 {
        -446197813
    } else if d == 117 {
        -461748613
    } else if d == 118 {
        -477158760
    } else if d == 119 {
        -492423560
    } else if d == 120 {
        -507538363
    } else if d == 121 {
        -522498565
    } else if d == 122 {
        -537299608
    } else if d == 123 {
        -551936985
    } else if d == 124 {
        -566406237
    } else if d == 125 {
        -580702956
    } else if d == 126 {
        -594822787
    } else if d == 127 {
        -608761429
    } else if d == 128 {
        -622514637
    } else if d == 129 {
        -636078220
    } else if d == 130 {
        -649448048
    } else if d == 131 {
        -662620048
    } else if d == 132 {
        -675590208
    } else if d == 133 {
        -688354576
    } else if d == 134 {
        -700909264
    } else if d == 135 {
        -713250449
    } else if d == 136 {
        -725374371
    } else if d == 137 {
        -737277337
    } else if d == 138 {
        -748955721
    } else if d == 139 {
        -760405966
    } else if d == 140 {
        -771624583
    } else if d == 141 {
        -782608157
    } else if d == 142 {
        -793353340
    } else if d == 143 {
        -803856861
    } else if d == 144 {
        -814115518
    } else if d == 145 {
        -824126189
    } else if d == 146 {
        -833885822
    } else if d == 147 {
        -843391446
    } else if d == 148 {
        -852640164
    } else if d == 149 {
        -861629160
    } else if d == 150 {
        -870355696
    } else if d == 151 {
        -878817113
    } else if d == 152 {
        -887010833
    } else if d == 153 {
        -894934362
    } else if d == 154 {
        -902585284
    } else if d == 155 {
        -909961271
    } else if d == 156 {
        -917060074
    } else if d == 157 {
        -923879533
    } else if d == 158 {
        -930417568
    } else if d == 159 {
        -936672189
    } else if d == 160 {
        -942641491
    } else if d == 161 {
        -948323655
    } else if d == 162 {
        -953716951
    } else if d == 163 {
        -958819735
    } else if d == 164 {
        -963630453
    } else if d == 165 {
        -968147640
    } else if d == 166 {
        -972369920
    } else if d == 167 {
        -976296007
    } else if d == 168 {
        -979924705
    } else if d == 169 {
        -983254908
    } else if d == 170 {
        -986285602
    } else if d == 171 {
        -989015863
    } else if d == 172 {
        -991444861
    } else if d == 173 {
        -993571856
    } else if d == 174 {
        -995396198
    } else if d == 175 {
        -996917334
    } else if d == 176 {
        -998134798
    } else if d == 177 {
        -999048222
    } else if d == 178 {
        -999657325
    } else {
        -999961923
    }

}

/// Table lookup for [`half_cos_scaled`].
pub(crate) fn half_cos(d: u32) -> (r: i64)
    requires
        d < 180,
    ensures
        r == half_cos_scaled(d as int),
        -1000000000 <= r <= 1000000000,
{
    if d == 0 {
        999961923
    } else if d == 1 {
        999657325
    } else if d == 2 {
        999048222
    } else if d == 3 {
        998134798
    } else if d == 4 {
        996917334
    } else if d == 5 {
        995396198
    } else if d == 6 {
        993571856
    } else if d == 7 {
        991444861
    } else if d == 8 {
        989015863
    } else if d == 9 {
        986285602
    } else if d == 10 {
        983254908
    } else if d == 11 {
        979924705
    } else if d == 12 {
        976296007
    } else if d == 13 {
        972369920
    } else if d == 14 {
        968147640
    } else if d == 15 {
        963630453
    } else if d == 16 {
        958819735
    } else if d == 17 {
        953716951
    } else if d == 18 {
        948323655
    } else if d == 19 {
        942641491
    } else if d == 20 {
        936672189
    } else if d == 21 {
        930417568
    } else if d == 22 {
        923879533
    } else if d == 23 {
        917060074
    } else if d == 24 {
        909961271
    } else if d == 25 {
        902585284
    } else if d == 26 {
        894934362
    } else if d == 27 {
        887010833
    } else if d == 28 {
        878817113
    } else if d == 29 {
        870355696
    } else if d == 30 {
        861629160
    } else if d == 31 {
        852640164
    } else if d == 32 {
        843391446
    } else if d == 33 {
        833885822
    } else if d == 34 {
        824126189
    } else if d == 35 {
        814115518
    } else if d == 36 {
        803856861
    } else if d == 37 {
        793353340
    } else if d == 38 {
        782608157
    } else if d == 39 {
        771624583
    } else if d == 40 {
        760405966
    } else if d == 41 {
        748955721
    } else if d == 42 {
        737277337
    } else if d == 43 {
        725374371
    } else if d == 44 {
        713250449
    } else if d == 45 {
        700909264
    } else if d == 46 {
        688354576
    } else if d == 47 {
        675590208
    } else if d == 48 {
        662620048
    } else if d == 49 {
        649448048
    } else if d == 50 {
        636078220
    } else if d == 51 {
        622514637
    } else if d == 52 {
        608761429
    } else if d == 53 {
        594822787
    } else if d == 54 {
        580702956
    } else if d == 55 {
        566406237
    } else if d == 56 {
        551936985
    } else if d == 57 {
        537299608
    } else if d == 58 {
        522498565
    } else if d == 59 {
        507538363
    } else if d == 60 {
        492423560
    } else if d == 61 {
        477158760
    } else if d == 62 {
        461748613
    } else if d == 63 {
        446197813
    } else if d == 64 {
        430511097
    } else if d == 65 {
        414693243
    } else if d == 66 {
        398749069
    } else if d == 67 {
        382683432
    } else if d == 68 {
        366501227
    } else if d == 69 {
        350207381
    } else if d == 70 {
        333806859
    } else if d == 71 {
        317304656
    } else if d == 72 {
        300705800
    } else if d == 73 {
        284015345
    } else if d == 74 {
        267238376
    } else if d == 75 {
        250380004
    } else if d == 76 {
        233445364
    } else if d == 77 {
        216439614
    } else if d == 78 {
        199367934
    } else if d == 79 {
        182235525
    } else if d == 80 {
        165047606
    } else if d == 81 {
        147809411
    } else if d == 82 {
        130526192
    } else if d == 83 {
        113203214
    } else if d == 84 {
        95845753
    } else if d == 85 {
        78459096
    } else if d == 86 {
        61048540
    } else if d == 87 {
        43619387
    } else if d == 88 {
        26176948
    } else if d == 89 {
        8726535
    } else if d == 90 {
        -8726535
    } else if d == 91 {
        -26176948
    } else if d == 92 {
        -43619387
    } else if d == 93 {
        -61048540
    } else if d == 94 {
        -78459096
    } else if d == 95 {
        -95845753
    } else if d == 96 {
        -113203214
    } else if d == 97 {
        -130526192
    } else if d == 98 {
        -147809411
    } else if d == 99 {
        -165047606
    } else if d == 100 {
        -182235525
    } else if d == 101 {
        -199367934
    } else if d == 102 {
        -216439614
    } else if d == 103 {
        -233445364
    } else if d == 104 {
        -250380004
    } else if d == 105 {
        -267238376
    } else if d == 106 {
        -284015345
    } else if d == 107 {
        -300705800
    } else if d == 108 {
        -317304656
    } else if d == 109 {
        -333806859
    } else if d == 110 {
        -350207381
    } else if d == 111 {
        -366501227
    } else if d == 112 {
        -382683432
    } else if d == 113 {
        -398749069
    } else if d == 114 {
        -414693243
    } else if d == 115 {
        -430511097
    } else if d == 116 {
        -446197813
    } else if d == 117 {
        -461748613
    } else if d == 118 {
        -477158760
    } else if d == 119 {
        -492423560
    } else if d == 120 {
        -507538363
    } else if d == 121 {
        -522498565
    } else if d == 122 {
        -537299608
    } else if d == 123 {
        -551936985
    } else if d == 124 {
        -566406237
    } else if d == 125 {
        -580702956
    } else if d == 126 {
        -594822787
    } else if d == 127 {
        -608761429
    } else if d == 128 {
        -622514637
    } else if d == 129 {
        -636078220
    } else if d == 130 {
        -649448048
    } else if d == 131 {
        -662620048
    } else if d == 132 {
        -675590208
    } else if d == 133 {
        -688354576
    } else if d == 134 {
        -700909264
    } else if d == 135 {
        -713250449
    } else if d == 136 {
        -725374371
    } else if d == 137 {
        -737277337
    } else if d == 138 {
        -748955721
    } else if d == 139 {
        -760405966
    } else if d == 140 {
        -771624583
    } else if d == 141 {
        -782608157
    } else if d == 142 {
        -793353340
    } else if d == 143 {
        -803856861
    } else if d == 144 {
        -814115518
    } else if d == 145 {
        -824126189
    } else if d == 146 {
        -833885822
    } else if d == 147 {
        -843391446
    } else if d == 148 {
        -852640164
    } else if d == 149 {
        -861629160
    } else if d == 150 {
        -870355696
    } else if d == 151 {
        -878817113
    } else if d == 152 {
        -887010833
    } else if d == 153 {
        -894934362
    } else if d == 154 {
        -902585284
    } else if d == 155 {
        -909961271
    } else if d == 156 {
        -917060074
    } else if d == 157 {
        -923879533
    } else if d == 158 {
        -930417568
    } else if d == 159 {
        -936672189
    } else if d == 160 {
        -942641491
    } else if d == 161 {
        -948323655
    } else if d == 162 {
        -953716951
    } else if d == 163 {
        -958819735
    } else if d == 164 {
        -963630453
    } else if d == 165 {
        -968147640
    } else if d == 166 {
        -972369920
    } else if d == 167 {
        -976296007
    } else if d == 168 {
        -979924705
    } else if d == 169 {
        -983254908
    } else if d == 170 {
        -986285602
    } else if d == 171 {
        -989015863
    } else if d == 172 {
        -991444861
    } else if d == 173 {
        -993571856
    } else if d == 174 {
        -995396198
    } else if d == 175 {
        -996917334
    } else if d == 176 {
        -998134798
    } else if d == 177 {
        -999048222
    } else if d == 178 {
        -999657325
    } else {
        -999961923
    }

}

/// Nearest whole degree of `arctan(az / ax)` for `az, ax >= 0`, scanning up
/// from degree `d`: the first degree whose upper boundary lies at or above
/// the ratio, or 90 when none does (in particular when `ax == 0`).
pub open spec fn atan_deg_from(az: int, ax: int, d: int) -> int
    decreases 90 - d,
{
    if d < 0 || d >= 90 {
        90
    } else if az * TRIG_SCALE <= ax * tan_half_scaled(d) {
        d
    } else {
        atan_deg_from(az, ax, d + 1)
    }
}

/// Nearest whole degree of `arctan(az / ax)` for `az, ax >= 0`, in
/// `[0, 90]`. For `ax == 0` this is 90, and for `az == ax == 0` it is 0,
/// matching the conventional arctangent of a zero vector.
pub open spec fn atan_deg(az: int, ax: int) -> int {
    atan_deg_from(az, ax, 0)
}

/// Computes [`atan_deg`] by scanning the boundary table.
pub(crate) fn atan_deg_exec(az: u128, ax: u128) -> (r: u32)
    requires
        az <= 0x10000000000000000,
        ax <= 0x10000000000000000,
    ensures
        r == atan_deg(az as int, ax as int),
        r <= 90,
{
    let mut d: u32 = 0;
    while d < 90
        invariant
            d <= 90,
            az <= 0x10000000000000000,
            ax <= 0x10000000000000000,
            atan_deg(az as int, ax as int) == atan_deg_from(az as int, ax as int, d as int),
        decreases 90 - d,
    {
        let bound: i64 = tan_half(d);
        if az * (TRIG_SCALE as u128) <= ax * (bound as u128) {
            return d;
        }
        d = d + 1;
    }
    90
}

/// Nearest whole degree of `arccos(num / den)` for `den > 0`, scanning up
/// from degree `d`: the first degree whose lower cosine boundary lies at or
/// below the ratio, or 180 when none does.
pub open spec fn acos_deg_from(num: int, den: int, d: int) -> int
    decreases 180 - d,
{
    if d < 0 || d >= 180 {
        180
    } else if num * TRIG_SCALE >= half_cos_scaled(d) * den {
        d
    } else {
        acos_deg_from(num, den, d + 1)
    }
}

/// Nearest whole degree of `arccos(num / den)` for `den > 0`, in
/// `[0, 180]`.
pub open spec fn acos_deg(num: int, den: int) -> int {
    acos_deg_from(num, den, 0)
}

/// Computes [`acos_deg`] by scanning the boundary table.
pub(crate) fn acos_deg_exec(num: i128, den: i128) -> (r: u32)
    requires
        -0x100000000000000 <= num <= 0x100000000000000,
        0 < den <= 0x100000000000000,
    ensures
        r == acos_deg(num as int, den as int),
        r <= 180,
{
    let mut d: u32 = 0;
    while d < 180
        invariant
            d <= 180,
            -0x100000000000000 <= num <= 0x100000000000000,
            0 < den <= 0x100000000000000,
            acos_deg(num as int, den as int) == acos_deg_from(num as int, den as int, d as int),
        decreases 180 - d,
    {
        let bound: i64 = half_cos(d);
        proof {
            assert(TRIG_SCALE == 1000000000);
            assert(-100000000000000000000000000 <= num * 1000000000
                <= 100000000000000000000000000) by (nonlinear_arith)
                requires
                    -0x100000000000000 <= num <= 0x100000000000000,
            ;
            assert(-100000000000000000000000000 <= (bound as int) * den
                <= 100000000000000000000000000) by (nonlinear_arith)
                requires
                    -1000000000 <= bound <= 1000000000,
                    0 < den <= 0x100000000000000,
            ;
        }
        if num * (TRIG_SCALE as i128) >= (bound as i128) * den {
            return d;
        }
        d = d + 1;
    }
    180
}

/// An angle wrapped into the canonical `[-180, 180)` range.
pub open spec fn wrap_deg(v: int) -> int {
    (v + 180) % 360 - 180
}

/// Wraps an angle into the canonical `[-180, 180)` range.
pub(crate) fn wrap_deg_exec(v: i64) -> (r: i64)
    requires
        -1000 <= v <= 1000,
    ensures
        r == wrap_deg(v as int),
        -180 <= r < 180,
{
    let shifted: u32 = (v + 180 + 359640) as u32;
    let u: u32 = shifted % 360;
    proof {
        lemma_mod_multiples_vanish(999, v + 180, 360);
    }
    (u as i64) - 180
}

} // verus!
