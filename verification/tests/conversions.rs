use tuple_conv::RepeatedTuple;

fn long_tuple() -> (
    i32, i32, i32, i32, i32, i32, i32, i32, i32, i32, i32, i32, i32, i32, i32, i32,
    i32, i32, i32, i32, i32, i32, i32, i32, i32, i32, i32, i32, i32, i32, i32, i32,
    i32, i32, i32, i32, i32, i32, i32, i32, i32, i32, i32, i32, i32, i32, i32, i32,
    i32, i32, i32, i32, i32, i32, i32, i32, i32, i32, i32, i32, i32, i32, i32, i32,
) {
    (
        1, 2, 3, 4, 5, 6, 7, 8,
        9, 10, 11, 12, 13, 14, 15, 16,
        17, 18, 19, 20, 21, 22, 23, 24,
        25, 26, 27, 28, 29, 30, 31, 32,
        33, 34, 35, 36, 37, 38, 39, 40,
        41, 42, 43, 44, 45, 46, 47, 48,
        49, 50, 51, 52, 53, 54, 55, 56,
        57, 58, 59, 60, 61, 62, 63, 64,
    )
}

fn long_slice_reversed() -> [i32; 64] {
    [
        64, 63, 62, 61, 60, 59, 58, 57,
        56, 55, 54, 53, 52, 51, 50, 49,
        48, 47, 46, 45, 44, 43, 42, 41,
        40, 39, 38, 37, 36, 35, 34, 33,
        32, 31, 30, 29, 28, 27, 26, 25,
        24, 23, 22, 21, 20, 19, 18, 17,
        16, 15, 14, 13, 12, 11, 10, 9,
        8, 7, 6, 5, 4, 3, 2, 1,
    ]
}

fn long_slice() -> [i32; 64] {
    let mut s = long_slice_reversed();
    s.sort();
    s
}

#[test]
fn to_boxed_slice_reversed() {
    let t = (1,);
    let b = t.to_boxed_slice_reversed();
    assert!(b == Box::new([1]));

    let t = (1, 2, 3);
    let b = t.to_boxed_slice_reversed();
    assert!(b == Box::new([3, 2, 1]));

    let t = long_tuple();
    let b = t.to_boxed_slice_reversed();
    assert!(b == Box::new(long_slice_reversed()));
}

#[test]
fn to_boxed_slice() {
    let t = (1, 2, 3);
    let b = t.to_boxed_slice();
    assert!(b == Box::new([1, 2, 3]));
}

#[test]
fn to_vec() {
    let t = (1, 2, 3);
    let v = t.to_vec();
    assert_eq!(v, [1, 2, 3]);
}

#[test]
fn to_vec_reversed() {
    let t = (1, 2, 3);
    let v = t.to_vec_reversed();
    assert_eq!(v, [3, 2, 1]);
}

#[test]
fn single_element_tuple() {
    let b: Box<[i32]> = (7,).to_boxed_slice_reversed();
    assert_eq!(&b[..], &[7]);
    let b: Box<[i32]> = (7,).to_boxed_slice();
    assert_eq!(&b[..], &[7]);
    assert_eq!((7,).to_vec(), vec![7]);
    assert_eq!((7,).to_vec_reversed(), vec![7]);
}

#[test]
fn longest_tuple_all_four_conversions() {
    let forward = long_slice();
    let reversed = long_slice_reversed();
    assert_eq!(forward[0], 1);
    assert_eq!(forward[63], 64);

    let b = long_tuple().to_boxed_slice();
    assert_eq!(b.len(), 64);
    assert_eq!(&b[..], &forward[..]);

    let b = long_tuple().to_boxed_slice_reversed();
    assert_eq!(b.len(), 64);
    assert_eq!(&b[..], &reversed[..]);

    let v = long_tuple().to_vec();
    assert_eq!(v.len(), 64);
    assert_eq!(v, forward);

    let v = long_tuple().to_vec_reversed();
    assert_eq!(v.len(), 64);
    assert_eq!(v, reversed);
}

#[test]
fn three_elements_end_to_end() {
    let t = (1, 2, 3);
    assert_eq!(t.to_vec(), vec![1, 2, 3]);
    assert_eq!(t.to_vec_reversed(), vec![3, 2, 1]);
    let b: Box<[i32]> = t.to_boxed_slice();
    assert_eq!(&b[..], &[1, 2, 3]);
}

#[test]
fn output_length_is_the_arity() {
    assert_eq!((0u8,).to_vec().len(), 1);
    assert_eq!((0u8, 0u8).to_vec_reversed().len(), 2);
    assert_eq!((0u8, 0u8, 0u8, 0u8, 0u8).to_boxed_slice().len(), 5);
    assert_eq!((0u8, 0u8, 0u8, 0u8, 0u8, 0u8, 0u8, 0u8, 0u8).to_boxed_slice_reversed().len(), 9);
}

#[test]
fn reversing_the_reversed_buffer_gives_the_forward_buffer() {
    let t = ('a', 'b', 'c', 'd');
    let forward = t.to_boxed_slice();
    let mut reversed = t.to_boxed_slice_reversed();
    assert_ne!(forward, reversed);
    reversed.reverse();
    assert_eq!(forward, reversed);

    let mut forward = t.to_boxed_slice();
    let reversed = t.to_boxed_slice_reversed();
    forward.reverse();
    assert_eq!(forward, reversed);
}

#[test]
fn forward_conversion_is_not_the_reversed_one() {
    let t = (10, 20);
    assert_eq!(t.to_boxed_slice().to_vec(), vec![10, 20]);
    assert_eq!(t.to_boxed_slice_reversed().to_vec(), vec![20, 10]);
    assert_ne!(t.to_vec(), t.to_vec_reversed());
}

#[test]
fn equal_elements_are_all_kept() {
    let t = (5, 5, 5, 5);
    assert_eq!(t.to_vec(), vec![5, 5, 5, 5]);
    assert_eq!(t.to_vec_reversed(), vec![5, 5, 5, 5]);
}

#[test]
fn elements_are_moved_not_copied() {
    let t = (String::from("bar"), String::from("baz"));
    let v = t.to_vec();
    assert_eq!(v, vec![String::from("bar"), String::from("baz")]);

    let t = (String::from("bar"), String::from("baz"));
    let v = t.to_vec_reversed();
    assert_eq!(v, vec![String::from("baz"), String::from("bar")]);
}

#[test]
fn nested_tuples_convert_level_by_level() {
    let rows: Vec<Vec<i32>> = ((1, 2, 3), (4, 5, 6), (7, 8, 9))
        .to_vec()
        .into_iter()
        .map(|row| row.to_vec())
        .collect();
    assert_eq!(rows, vec![vec![1, 2, 3], vec![4, 5, 6], vec![7, 8, 9]]);
}
