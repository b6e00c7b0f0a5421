use tuple_conv::RepeatedTuple;
use tuple_conv::TupleOrVec;

/// Holds the five conversions of `t`, whose elements are `1, 2, .., n`, against
/// the vectors that count up to `n` and down from it.
fn counts_to<R: RepeatedTuple<u8> + TupleOrVec<u8> + Copy>(t: R, n: u8) {
    let forward: Vec<u8> = (1..=n).collect();
    let reversed: Vec<u8> = (1..=n).rev().collect();
    assert_eq!(forward.len(), usize::from(n));
    assert_eq!(t.to_boxed_slice_reversed().into_vec(), reversed);
    assert_eq!(t.to_boxed_slice().into_vec(), forward);
    assert_eq!(t.to_vec_reversed(), reversed);
    assert_eq!(t.to_vec(), forward);
    assert_eq!(t.as_vec(), forward);
}

#[test]
fn arity_1() {
    counts_to((1u8,), 1);
}

#[test]
fn arity_2() {
    counts_to((1u8, 2), 2);
}

#[test]
fn arity_3() {
    counts_to((1u8, 2, 3), 3);
}

#[test]
fn arity_4() {
    counts_to((1u8, 2, 3, 4), 4);
}

#[test]
fn arity_5() {
    counts_to((1u8, 2, 3, 4, 5), 5);
}

#[test]
fn arity_6() {
    counts_to((1u8, 2, 3, 4, 5, 6), 6);
}

#[test]
fn arity_7() {
    counts_to((1u8, 2, 3, 4, 5, 6, 7), 7);
}

#[test]
fn arity_8() {
    counts_to((1u8, 2, 3, 4, 5, 6, 7, 8), 8);
}

#[test]
fn arity_9() {
    counts_to((1u8, 2, 3, 4, 5, 6, 7, 8, 9), 9);
}

#[test]
fn arity_10() {
    counts_to((1u8, 2, 3, 4, 5, 6, 7, 8, 9, 10), 10);
}

#[test]
fn arity_11() {
    counts_to((1u8, 2, 3, 4, 5, 6, 7, 8, 9, 10, 11), 11);
}

#[test]
fn arity_12() {
    counts_to((1u8, 2, 3, 4, 5, 6, 7, 8, 9, 10, 11, 12), 12);
}

#[test]
fn arity_13() {
    counts_to((1u8, 2, 3, 4, 5, 6, 7, 8, 9, 10, 11, 12, 13), 13);
}

#[test]
fn arity_14() {
    counts_to((1u8, 2, 3, 4, 5, 6, 7, 8, 9, 10, 11, 12, 13, 14), 14);
}

#[test]
fn arity_15() {
    counts_to((1u8, 2, 3, 4, 5, 6, 7, 8, 9, 10, 11, 12, 13, 14, 15), 15);
}

#[test]
fn arity_16() {
    counts_to((1u8, 2, 3, 4, 5, 6, 7, 8, 9, 10, 11, 12, 13, 14, 15, 16), 16);
}

#[test]
fn arity_17() {
    counts_to((1u8, 2, 3, 4, 5, 6, 7, 8, 9, 10, 11, 12, 13, 14, 15, 16, 17), 17);
}

#[test]
fn arity_18() {
    counts_to((1u8, 2, 3, 4, 5, 6, 7, 8, 9, 10, 11, 12, 13, 14, 15, 16, 17, 18), 18);
}

#[test]
fn arity_19() {
    counts_to((1u8, 2, 3, 4, 5, 6, 7, 8, 9, 10, 11, 12, 13, 14, 15, 16, 17, 18, 19), 19);
}

#[test]
fn arity_20() {
    counts_to((1u8, 2, 3, 4, 5, 6, 7, 8, 9, 10, 11, 12, 13, 14, 15, 16, 17, 18, 19, 20), 20);
}

#[test]
fn arity_21() {
    counts_to((1u8, 2, 3, 4, 5, 6, 7, 8, 9, 10, 11, 12, 13, 14, 15, 16, 17, 18, 19, 20, 21), 21);
}

#[test]
fn arity_22() {
    counts_to(
        (
            1u8, 2, 3, 4, 5, 6, 7, 8, 9, 10, 11, 12, 13, 14, 15, 16, 17, 18, 19, 20, 21, 22,
        ),
        22,
    );
}

#[test]
fn arity_23() {
    counts_to(
        (
            1u8, 2, 3, 4, 5, 6, 7, 8, 9, 10, 11, 12, 13, 14, 15, 16, 17, 18, 19, 20, 21, 22, 23,
        ),
        23,
    );
}

#[test]
fn arity_24() {
    counts_to(
        (
            1u8, 2, 3, 4, 5, 6, 7, 8, 9, 10, 11, 12, 13, 14, 15, 16, 17, 18, 19, 20, 21, 22, 23, 24,
        ),
        24,
    );
}

#[test]
fn arity_25() {
    counts_to(
        (
            1u8, 2, 3, 4, 5, 6, 7, 8, 9, 10, 11, 12, 13, 14, 15, 16, 17, 18, 19, 20, 21, 22, 23, 24,
            25,
        ),
        25,
    );
}

#[test]
fn arity_26() {
    counts_to(
        (
            1u8, 2, 3, 4, 5, 6, 7, 8, 9, 10, 11, 12, 13, 14, 15, 16, 17, 18, 19, 20, 21, 22, 23, 24,
            25, 26,
        ),
        26,
    );
}

#[test]
fn arity_27() {
    counts_to(
        (
            1u8, 2, 3, 4, 5, 6, 7, 8, 9, 10, 11, 12, 13, 14, 15, 16, 17, 18, 19, 20, 21, 22, 23, 24,
            25, 26, 27,
        ),
        27,
    );
}

#[test]
fn arity_28() {
    counts_to(
        (
            1u8, 2, 3, 4, 5, 6, 7, 8, 9, 10, 11, 12, 13, 14, 15, 16, 17, 18, 19, 20, 21, 22, 23, 24,
            25, 26, 27, 28,
        ),
        28,
    );
}

#[test]
fn arity_29() {
    counts_to(
        (
            1u8, 2, 3, 4, 5, 6, 7, 8, 9, 10, 11, 12, 13, 14, 15, 16, 17, 18, 19, 20, 21, 22, 23, 24,
            25, 26, 27, 28, 29,
        ),
        29,
    );
}

#[test]
fn arity_30() {
    counts_to(
        (
            1u8, 2, 3, 4, 5, 6, 7, 8, 9, 10, 11, 12, 13, 14, 15, 16, 17, 18, 19, 20, 21, 22, 23, 24,
            25, 26, 27, 28, 29, 30,
        ),
        30,
    );
}

#[test]
fn arity_31() {
    counts_to(
        (
            1u8, 2, 3, 4, 5, 6, 7, 8, 9, 10, 11, 12, 13, 14, 15, 16, 17, 18, 19, 20, 21, 22, 23, 24,
            25, 26, 27, 28, 29, 30, 31,
        ),
        31,
    );
}

#[test]
fn arity_32() {
    counts_to(
        (
            1u8, 2, 3, 4, 5, 6, 7, 8, 9, 10, 11, 12, 13, 14, 15, 16, 17, 18, 19, 20, 21, 22, 23, 24,
            25, 26, 27, 28, 29, 30, 31, 32,
        ),
        32,
    );
}

#[test]
fn arity_33() {
    counts_to(
        (
            1u8, 2, 3, 4, 5, 6, 7, 8, 9, 10, 11, 12, 13, 14, 15, 16, 17, 18, 19, 20, 21, 22, 23, 24,
            25, 26, 27, 28, 29, 30, 31, 32, 33,
        ),
        33,
    );
}

#[test]
fn arity_34() {
    counts_to(
        (
            1u8, 2, 3, 4, 5, 6, 7, 8, 9, 10, 11, 12, 13, 14, 15, 16, 17, 18, 19, 20, 21, 22, 23, 24,
            25, 26, 27, 28, 29, 30, 31, 32, 33, 34,
        ),
        34,
    );
}

#[test]
fn arity_35() {
    counts_to(
        (
            1u8, 2, 3, 4, 5, 6, 7, 8, 9, 10, 11, 12, 13, 14, 15, 16, 17, 18, 19, 20, 21, 22, 23, 24,
            25, 26, 27, 28, 29, 30, 31, 32, 33, 34, 35,
        ),
        35,
    );
}

#[test]
fn arity_36() {
    counts_to(
        (
            1u8, 2, 3, 4, 5, 6, 7, 8, 9, 10, 11, 12, 13, 14, 15, 16, 17, 18, 19, 20, 21, 22, 23, 24,
            25, 26, 27, 28, 29, 30, 31, 32, 33, 34, 35, 36,
        ),
        36,
    );
}

#[test]
fn arity_37() {
    counts_to(
        (
            1u8, 2, 3, 4, 5, 6, 7, 8, 9, 10, 11, 12, 13, 14, 15, 16, 17, 18, 19, 20, 21, 22, 23, 24,
            25, 26, 27, 28, 29, 30, 31, 32, 33, 34, 35, 36, 37,
        ),
        37,
    );
}

#[test]
fn arity_38() {
    counts_to(
        (
            1u8, 2, 3, 4, 5, 6, 7, 8, 9, 10, 11, 12, 13, 14, 15, 16, 17, 18, 19, 20, 21, 22, 23, 24,
            25, 26, 27, 28, 29, 30, 31, 32, 33, 34, 35, 36, 37, 38,
        ),
        38,
    );
}

#[test]
fn arity_39() {
    counts_to(
        (
            1u8, 2, 3, 4, 5, 6, 7, 8, 9, 10, 11, 12, 13, 14, 15, 16, 17, 18, 19, 20, 21, 22, 23, 24,
            25, 26, 27, 28, 29, 30, 31, 32, 33, 34, 35, 36, 37, 38, 39,
        ),
        39,
    );
}

#[test]
fn arity_40() {
    counts_to(
        (
            1u8, 2, 3, 4, 5, 6, 7, 8, 9, 10, 11, 12, 13, 14, 15, 16, 17, 18, 19, 20, 21, 22, 23, 24,
            25, 26, 27, 28, 29, 30, 31, 32, 33, 34, 35, 36, 37, 38, 39, 40,
        ),
        40,
    );
}

#[test]
fn arity_41() {
    counts_to(
        (
            1u8, 2, 3, 4, 5, 6, 7, 8, 9, 10, 11, 12, 13, 14, 15, 16, 17, 18, 19, 20, 21, 22, 23, 24,
            25, 26, 27, 28, 29, 30, 31, 32, 33, 34, 35, 36, 37, 38, 39, 40, 41,
        ),
        41,
    );
}

#[test]
fn arity_42() {
    counts_to(
        (
            1u8, 2, 3, 4, 5, 6, 7, 8, 9, 10, 11, 12, 13, 14, 15, 16, 17, 18, 19, 20, 21, 22, 23, 24,
            25, 26, 27, 28, 29, 30, 31, 32, 33, 34, 35, 36, 37, 38, 39, 40, 41, 42,
        ),
        42,
    );
}

#[test]
fn arity_43() {
    counts_to(
        (
            1u8, 2, 3, 4, 5, 6, 7, 8, 9, 10, 11, 12, 13, 14, 15, 16, 17, 18, 19, 20, 21, 22, 23, 24,
            25, 26, 27, 28, 29, 30, 31, 32, 33, 34, 35, 36, 37, 38, 39, 40, 41, 42, 43,
        ),
        43,
    );
}

#[test]
fn arity_44() {
    counts_to(
        (
            1u8, 2, 3, 4, 5, 6, 7, 8, 9, 10, 11, 12, 13, 14, 15, 16, 17, 18, 19, 20, 21, 22, 23, 24,
            25, 26, 27, 28, 29, 30, 31, 32, 33, 34, 35, 36, 37, 38, 39, 40, 41, 42, 43, 44,
        ),
        44,
    );
}

#[test]
fn arity_45() {
    counts_to(
        (
            1u8, 2, 3, 4, 5, 6, 7, 8, 9, 10, 11, 12, 13, 14, 15, 16, 17, 18, 19, 20, 21, 22, 23, 24,
            25, 26, 27, 28, 29, 30, 31, 32, 33, 34, 35, 36, 37, 38, 39, 40, 41, 42, 43, 44, 45,
        ),
        45,
    );
}

#[test]
fn arity_46() {
    counts_to(
        (
            1u8, 2, 3, 4, 5, 6, 7, 8, 9, 10, 11, 12, 13, 14, 15, 16, 17, 18, 19, 20, 21, 22, 23, 24,
            25, 26, 27, 28, 29, 30, 31, 32, 33, 34, 35, 36, 37, 38, 39, 40, 41, 42, 43, 44, 45, 46,
        ),
        46,
    );
}

#[test]
fn arity_47() {
    counts_to(
        (
            1u8, 2, 3, 4, 5, 6, 7, 8, 9, 10, 11, 12, 13, 14, 15, 16, 17, 18, 19, 20, 21, 22, 23, 24,
            25, 26, 27, 28, 29, 30, 31, 32, 33, 34, 35, 36, 37, 38, 39, 40, 41, 42, 43, 44, 45, 46,
            47,
        ),
        47,
    );
}

#[test]
fn arity_48() {
    counts_to(
        (
            1u8, 2, 3, 4, 5, 6, 7, 8, 9, 10, 11, 12, 13, 14, 15, 16, 17, 18, 19, 20, 21, 22, 23, 24,
            25, 26, 27, 28, 29, 30, 31, 32, 33, 34, 35, 36, 37, 38, 39, 40, 41, 42, 43, 44, 45, 46,
            47, 48,
        ),
        48,
    );
}

#[test]
fn arity_49() {
    counts_to(
        (
            1u8, 2, 3, 4, 5, 6, 7, 8, 9, 10, 11, 12, 13, 14, 15, 16, 17, 18, 19, 20, 21, 22, 23, 24,
            25, 26, 27, 28, 29, 30, 31, 32, 33, 34, 35, 36, 37, 38, 39, 40, 41, 42, 43, 44, 45, 46,
            47, 48, 49,
        ),
        49,
    );
}

#[test]
fn arity_50() {
    counts_to(
        (
            1u8, 2, 3, 4, 5, 6, 7, 8, 9, 10, 11, 12, 13, 14, 15, 16, 17, 18, 19, 20, 21, 22, 23, 24,
            25, 26, 27, 28, 29, 30, 31, 32, 33, 34, 35, 36, 37, 38, 39, 40, 41, 42, 43, 44, 45, 46,
            47, 48, 49, 50,
        ),
        50,
    );
}

#[test]
fn arity_51() {
    counts_to(
        (
            1u8, 2, 3, 4, 5, 6, 7, 8, 9, 10, 11, 12, 13, 14, 15, 16, 17, 18, 19, 20, 21, 22, 23, 24,
            25, 26, 27, 28, 29, 30, 31, 32, 33, 34, 35, 36, 37, 38, 39, 40, 41, 42, 43, 44, 45, 46,
            47, 48, 49, 50, 51,
        ),
        51,
    );
}

#[test]
fn arity_52() {
    counts_to(
        (
            1u8, 2, 3, 4, 5, 6, 7, 8, 9, 10, 11, 12, 13, 14, 15, 16, 17, 18, 19, 20, 21, 22, 23, 24,
            25, 26, 27, 28, 29, 30, 31, 32, 33, 34, 35, 36, 37, 38, 39, 40, 41, 42, 43, 44, 45, 46,
            47, 48, 49, 50, 51, 52,
        ),
        52,
    );
}

#[test]
fn arity_53() {
    counts_to(
        (
            1u8, 2, 3, 4, 5, 6, 7, 8, 9, 10, 11, 12, 13, 14, 15, 16, 17, 18, 19, 20, 21, 22, 23, 24,
            25, 26, 27, 28, 29, 30, 31, 32, 33, 34, 35, 36, 37, 38, 39, 40, 41, 42, 43, 44, 45, 46,
            47, 48, 49, 50, 51, 52, 53,
        ),
        53,
    );
}

#[test]
fn arity_54() {
    counts_to(
        (
            1u8, 2, 3, 4, 5, 6, 7, 8, 9, 10, 11, 12, 13, 14, 15, 16, 17, 18, 19, 20, 21, 22, 23, 24,
            25, 26, 27, 28, 29, 30, 31, 32, 33, 34, 35, 36, 37, 38, 39, 40, 41, 42, 43, 44, 45, 46,
            47, 48, 49, 50, 51, 52, 53, 54,
        ),
        54,
    );
}

#[test]
fn arity_55() {
    counts_to(
        (
            1u8, 2, 3, 4, 5, 6, 7, 8, 9, 10, 11, 12, 13, 14, 15, 16, 17, 18, 19, 20, 21, 22, 23, 24,
            25, 26, 27, 28, 29, 30, 31, 32, 33, 34, 35, 36, 37, 38, 39, 40, 41, 42, 43, 44, 45, 46,
            47, 48, 49, 50, 51, 52, 53, 54, 55,
        ),
        55,
    );
}

#[test]
fn arity_56() {
    counts_to(
        (
            1u8, 2, 3, 4, 5, 6, 7, 8, 9, 10, 11, 12, 13, 14, 15, 16, 17, 18, 19, 20, 21, 22, 23, 24,
            25, 26, 27, 28, 29, 30, 31, 32, 33, 34, 35, 36, 37, 38, 39, 40, 41, 42, 43, 44, 45, 46,
            47, 48, 49, 50, 51, 52, 53, 54, 55, 56,
        ),
        56,
    );
}

#[test]
fn arity_57() {
    counts_to(
        (
            1u8, 2, 3, 4, 5, 6, 7, 8, 9, 10, 11, 12, 13, 14, 15, 16, 17, 18, 19, 20, 21, 22, 23, 24,
            25, 26, 27, 28, 29, 30, 31, 32, 33, 34, 35, 36, 37, 38, 39, 40, 41, 42, 43, 44, 45, 46,
            47, 48, 49, 50, 51, 52, 53, 54, 55, 56, 57,
        ),
        57,
    );
}

#[test]
fn arity_58() {
    counts_to(
        (
            1u8, 2, 3, 4, 5, 6, 7, 8, 9, 10, 11, 12, 13, 14, 15, 16, 17, 18, 19, 20, 21, 22, 23, 24,
            25, 26, 27, 28, 29, 30, 31, 32, 33, 34, 35, 36, 37, 38, 39, 40, 41, 42, 43, 44, 45, 46,
            47, 48, 49, 50, 51, 52, 53, 54, 55, 56, 57, 58,
        ),
        58,
    );
}

#[test]
fn arity_59() {
    counts_to(
        (
            1u8, 2, 3, 4, 5, 6, 7, 8, 9, 10, 11, 12, 13, 14, 15, 16, 17, 18, 19, 20, 21, 22, 23, 24,
            25, 26, 27, 28, 29, 30, 31, 32, 33, 34, 35, 36, 37, 38, 39, 40, 41, 42, 43, 44, 45, 46,
            47, 48, 49, 50, 51, 52, 53, 54, 55, 56, 57, 58, 59,
        ),
        59,
    );
}

#[test]
fn arity_60() {
    counts_to(
        (
            1u8, 2, 3, 4, 5, 6, 7, 8, 9, 10, 11, 12, 13, 14, 15, 16, 17, 18, 19, 20, 21, 22, 23, 24,
            25, 26, 27, 28, 29, 30, 31, 32, 33, 34, 35, 36, 37, 38, 39, 40, 41, 42, 43, 44, 45, 46,
            47, 48, 49, 50, 51, 52, 53, 54, 55, 56, 57, 58, 59, 60,
        ),
        60,
    );
}

#[test]
fn arity_61() {
    counts_to(
        (
            1u8, 2, 3, 4, 5, 6, 7, 8, 9, 10, 11, 12, 13, 14, 15, 16, 17, 18, 19, 20, 21, 22, 23, 24,
            25, 26, 27, 28, 29, 30, 31, 32, 33, 34, 35, 36, 37, 38, 39, 40, 41, 42, 43, 44, 45, 46,
            47, 48, 49, 50, 51, 52, 53, 54, 55, 56, 57, 58, 59, 60, 61,
        ),
        61,
    );
}

#[test]
fn arity_62() {
    counts_to(
        (
            1u8, 2, 3, 4, 5, 6, 7, 8, 9, 10, 11, 12, 13, 14, 15, 16, 17, 18, 19, 20, 21, 22, 23, 24,
            25, 26, 27, 28, 29, 30, 31, 32, 33, 34, 35, 36, 37, 38, 39, 40, 41, 42, 43, 44, 45, 46,
            47, 48, 49, 50, 51, 52, 53, 54, 55, 56, 57, 58, 59, 60, 61, 62,
        ),
        62,
    );
}

#[test]
fn arity_63() {
    counts_to(
        (
            1u8, 2, 3, 4, 5, 6, 7, 8, 9, 10, 11, 12, 13, 14, 15, 16, 17, 18, 19, 20, 21, 22, 23, 24,
            25, 26, 27, 28, 29, 30, 31, 32, 33, 34, 35, 36, 37, 38, 39, 40, 41, 42, 43, 44, 45, 46,
            47, 48, 49, 50, 51, 52, 53, 54, 55, 56, 57, 58, 59, 60, 61, 62, 63,
        ),
        63,
    );
}

#[test]
fn arity_64() {
    counts_to(
        (
            1u8, 2, 3, 4, 5, 6, 7, 8, 9, 10, 11, 12, 13, 14, 15, 16, 17, 18, 19, 20, 21, 22, 23, 24,
            25, 26, 27, 28, 29, 30, 31, 32, 33, 34, 35, 36, 37, 38, 39, 40, 41, 42, 43, 44, 45, 46,
            47, 48, 49, 50, 51, 52, 53, 54, 55, 56, 57, 58, 59, 60, 61, 62, 63, 64,
        ),
        64,
    );
}
