//! Whole-degree trigonometry in thousandths: the model's quantization of
//! launch directions. A direction for angle `d` degrees is the vector
//! `(cos_milli(d), sin_milli(d))`, each coordinate in [-1000, 1000].

use vstd::prelude::*;

verus! {

/// Quarter-wave cosine in thousandths for whole degrees `0..=90`
/// (rounded to the nearest thousandth; `90` falls to the final branch).
pub open spec fn cos_q_milli(d: int) -> int {
    if d == 0 {
        1000
    } else if d == 1 {
        1000
    } else if d == 2 {
        999
    } else if d == 3 {
        999
    } else if d == 4 {
        998
    } else if d == 5 {
        996
    } else if d == 6 {
        995
    } else if d == 7 {
        993
    } else if d == 8 {
        990
    } else if d == 9 {
        988
    } else if d == 10 {
        985
    } else if d == 11 {
        982
    } else if d == 12 {
        978
    } else if d == 13 {
        974
    } else if d == 14 {
        970
    } else if d == 15 {
        966
    } else if d == 16 {
        961
    } else if d == 17 {
        956
    } else if d == 18 {
        951
    } else if d == 19 {
        946
    } else if d == 20 {
        940
    } else if d == 21 {
        934
    } else if d == 22 {
        927
    } else if d == 23 {
        921
    } else if d == 24 {
        914
    } else if d == 25 {
        906
    } else if d == 26 {
        899
    } else if d == 27 {
        891
    } else if d == 28 {
        883
    } else if d == 29 {
        875
    } else if d == 30 {
        866
    } else if d == 31 {
        857
    } else if d == 32 {
        848
    } else if d == 33 {
        839
    } else if d == 34 {
        829
    } else if d == 35 {
        819
    } else if d == 36 {
        809
    } else if d == 37 {
        799
    } else if d == 38 {
        788
    } else if d == 39 {
        777
    } else if d == 40 {
        766
    } else if d == 41 {
        755
    } else if d == 42 {
        743
    } else if d == 43 {
        731
    } else if d == 44 {
        719
    } else if d == 45 {
        707
    } else if d == 46 {
        695
    } else if d == 47 {
        682
    } else if d == 48 {
        669
    } else if d == 49 {
        656
    } else if d == 50 {
        643
    } else if d == 51 {
        629
    } else if d == 52 {
        616
    } else if d == 53 {
        602
    } else if d == 54 {
        588
    } else if d == 55 {
        574
    } else if d == 56 {
        559
    } else if d == 57 {
        545
    } else if d == 58 {
        530
    } else if d == 59 {
        515
    } else if d == 60 {
        500
    } else if d == 61 {
        485
    } else if d == 62 {
        469
    } else if d == 63 {
        454
    } else if d == 64 {
        438
    } else if d == 65 {
        423
    } else if d == 66 {
        407
    } else if d == 67 {
        391
    } else if d == 68 {
        375
    } else if d == 69 {
        358
    } else if d == 70 {
        342
    } else if d == 71 {
        326
    } else if d == 72 {
        309
    } else if d == 73 {
        292
    } else if d == 74 {
        276
    } else if d == 75 {
        259
    } else if d == 76 {
        242
    } else if d == 77 {
        225
    } else if d == 78 {
        208
    } else if d == 79 {
        191
    } else if d == 80 {
        174
    } else if d == 81 {
        156
    } else if d == 82 {
        139
    } else if d == 83 {
        122
    } else if d == 84 {
        105
    } else if d == 85 {
        87
    } else if d == 86 {
        70
    } else if d == 87 {
        52
    } else if d == 88 {
        35
    } else if d == 89 {
        17
    } else {
        0
    }
}

/// Quarter-wave cosine table, matching `cos_q_milli`.
fn cos_quarter(d: u64) -> (r: i64)
    requires
        d <= 90,
    ensures
        r == cos_q_milli(d as int),
{
    match d {
        0 => 1000,
        1 => 1000,
        2 => 999,
        3 => 999,
        4 => 998,
        5 => 996,
        6 => 995,
        7 => 993,
        8 => 990,
        9 => 988,
        10 => 985,
        11 => 982,
        12 => 978,
        13 => 974,
        14 => 970,
        15 => 966,
        16 => 961,
        17 => 956,
        18 => 951,
        19 => 946,
        20 => 940,
        21 => 934,
        22 => 927,
        23 => 921,
        24 => 914,
        25 => 906,
        26 => 899,
        27 => 891,
        28 => 883,
        29 => 875,
        30 => 866,
        31 => 857,
        32 => 848,
        33 => 839,
        34 => 829,
        35 => 819,
        36 => 809,
        37 => 799,
        38 => 788,
        39 => 777,
        40 => 766,
        41 => 755,
        42 => 743,
        43 => 731,
        44 => 719,
        45 => 707,
        46 => 695,
        47 => 682,
        48 => 669,
        49 => 656,
        50 => 643,
        51 => 629,
        52 => 616,
        53 => 602,
        54 => 588,
        55 => 574,
        56 => 559,
        57 => 545,
        58 => 530,
        59 => 515,
        60 => 500,
        61 => 485,
        62 => 469,
        63 => 454,
        64 => 438,
        65 => 423,
        66 => 407,
        67 => 391,
        68 => 375,
        69 => 358,
        70 => 342,
        71 => 326,
        72 => 309,
        73 => 292,
        74 => 276,
        75 => 259,
        76 => 242,
        77 => 225,
        78 => 208,
        79 => 191,
        80 => 174,
        81 => 156,
        82 => 139,
        83 => 122,
        84 => 105,
        85 => 87,
        86 => 70,
        87 => 52,
        88 => 35,
        89 => 17,
        _ => 0,
    }
}

/// The table stays within one thousandth-scaled unit.
pub proof fn lemma_cos_q_bounds(d: int)
    ensures
        0 <= cos_q_milli(d) <= 1000,
{
}

/// Cosine in thousandths for whole degrees in `[-180, 180]`.
pub open spec fn cos_milli(d: int) -> int {
    let a = if d < 0 { -d } else { d };
    if a <= 90 {
        cos_q_milli(a)
    } else {
        -cos_q_milli(180 - a)
    }
}

/// Sine in thousandths for whole degrees in `[-180, 180]`.
pub open spec fn sin_milli(d: int) -> int {
    let a = if d < 0 { -d } else { d };
    let v = cos_q_milli(if a <= 90 { 90 - a } else { a - 90 });
    if d < 0 {
        -v
    } else {
        v
    }
}

/// Cosine of a whole-degree angle, in thousandths.
pub fn cos_deg(d: i64) -> (r: i64)
    requires
        -180 <= d <= 180,
    ensures
        r == cos_milli(d as int),
        -1000 <= r <= 1000,
{
    let a: u64 = if d < 0 { (-d) as u64 } else { d as u64 };
    proof { lemma_cos_q_bounds(a as int); lemma_cos_q_bounds(180 - a as int); }
    if a <= 90 {
        cos_quarter(a)
    } else {
        -cos_quarter(180 - a)
    }
}

/// Sine of a whole-degree angle, in thousandths.
pub fn sin_deg(d: i64) -> (r: i64)
    requires
        -180 <= d <= 180,
    ensures
        r == sin_milli(d as int),
        -1000 <= r <= 1000,
{
    let a: u64 = if d < 0 { (-d) as u64 } else { d as u64 };
    let q: u64 = if a <= 90 { 90 - a } else { a - 90 };
    proof { lemma_cos_q_bounds(q as int); }
    let v: i64 = cos_quarter(q);
    if d < 0 {
        -v
    } else {
        v
    }
}

} // verus!
