use tuple_conv::RepeatedTuple;
use tuple_conv::TupleOrVec;

fn joined<V: TupleOrVec<&'static str>>(words: V) -> String {
    words.as_vec().join(" ")
}

fn total<V: TupleOrVec<u32>>(numbers: V) -> u32 {
    numbers.as_vec().into_iter().sum()
}

#[test]
fn as_vec_of_a_vector_is_the_vector() {
    let v: Vec<i32> = vec![3, 1, 2];
    assert_eq!(v.clone().as_vec(), v);

    let empty: Vec<i32> = Vec::new();
    assert_eq!(empty.as_vec(), Vec::<i32>::new());
}

#[test]
fn as_vec_of_a_vector_keeps_the_allocation() {
    let v: Vec<u8> = vec![1, 2, 3];
    let before = v.as_ptr();
    let w = v.as_vec();
    assert_eq!(w.as_ptr(), before);
    assert_eq!(w, vec![1, 2, 3]);
}

#[test]
fn as_vec_of_a_tuple_is_to_vec() {
    let t = (1, 2, 3);
    assert_eq!(TupleOrVec::as_vec(t), RepeatedTuple::to_vec(t));
    assert_eq!(TupleOrVec::as_vec(t), vec![1, 2, 3]);

    let one = (9,);
    assert_eq!(TupleOrVec::as_vec(one), vec![9]);
    assert_eq!(TupleOrVec::as_vec(one), RepeatedTuple::to_vec(one));
}

#[test]
fn as_vec_of_the_longest_tuple() {
    let t = (
        1u8, 2, 3, 4, 5, 6, 7, 8, 9, 10, 11, 12, 13, 14, 15, 16, 17, 18, 19, 20, 21, 22, 23, 24, 25,
        26, 27, 28, 29, 30, 31, 32, 33, 34, 35, 36, 37, 38, 39, 40, 41, 42, 43, 44, 45, 46, 47, 48,
        49, 50, 51, 52, 53, 54, 55, 56, 57, 58, 59, 60, 61, 62, 63, 64,
    );
    let v = t.as_vec();
    let expected: Vec<u8> = (1..=64).collect();
    assert_eq!(v, expected);
    assert_eq!(v, t.to_vec());
}

#[test]
fn one_function_takes_a_tuple_or_a_vector() {
    assert_eq!(joined(("bar", "baz")), "bar baz");
    assert_eq!(joined(vec!["baz", "bar"]), "baz bar");
    assert_eq!(total((1, 2, 3, 4)), 10);
    assert_eq!(total(vec![1, 2, 3, 4]), 10);
    assert_eq!(total(Vec::new()), 0);
}
