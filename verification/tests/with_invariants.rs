use quick_builder::machine::{BuilderInstance, RecordValue};

// The record shapes these tests build, as heterogeneous field values.

#[derive(PartialEq, Debug)]
enum PlainVal {
    I(i32),
    F(f32),
    S(String),
}

#[derive(PartialEq, Debug)]
enum GenVal {
    T(i32),
    OptT(Option<i32>),
}

#[derive(PartialEq, Debug)]
enum ImgVal<'a, T> {
    U(usize),
    Data(&'a mut [T]),
}

fn check_foo<T: Default + Ord>(t: &T) -> bool {
    t < &Default::default()
}

// WithoutGenerics: first: i32, second: f32 (validator: |this| *this > 0.),
// third: String; record validator: |this| this.first as f32 > this.second.

fn without_generics_field_pred(i: usize, v: &PlainVal) -> bool {
    match (i, v) {
        (1, PlainVal::F(second)) => *second > 0.,
        _ => true,
    }
}

fn without_generics_record_pred(r: &RecordValue<PlainVal>) -> bool {
    match (&r.fields[0], &r.fields[1]) {
        (PlainVal::I(first), PlainVal::F(second)) => *first as f32 > *second,
        _ => false,
    }
}

fn build_without_generics(first: i32, second: f32, third: String) -> Option<RecordValue<PlainVal>> {
    let b = BuilderInstance::new(3)
        .supply(PlainVal::I(first))
        .supply(PlainVal::F(second))
        .supply(PlainVal::S(third));
    b.build_validated(
        &vec![false, true, false],
        without_generics_field_pred,
        Some(without_generics_record_pred),
    )
    .into_option()
}

// WithOneGeneric<T = i32>: foo: T (validator: checks::check_foo),
// bar: Option<T> (validator: |me| me.as_ref().is_some_and(|v| *v > T::default())).

fn one_generic_field_pred(i: usize, v: &GenVal) -> bool {
    match (i, v) {
        (0, GenVal::T(foo)) => check_foo(foo),
        (1, GenVal::OptT(bar)) => bar.as_ref().is_some_and(|v| *v > i32::default()),
        _ => true,
    }
}

fn build_one_generic(foo: i32, bar: Option<i32>) -> Option<RecordValue<GenVal>> {
    let b = BuilderInstance::new(2).supply(GenVal::T(foo)).supply(GenVal::OptT(bar));
    b.build_validated(
        &vec![true, true],
        one_generic_field_pred,
        None::<fn(&RecordValue<GenVal>) -> bool>,
    )
    .into_option()
}

// ImageMut<'a, T>: width: usize (validator: |w| *w > 0), height: usize
// (validator: |h| *h > 0), data: &'a mut [T]; record validator:
// |this| this.width * this.height == this.data.len().

fn image_field_pred<T>(i: usize, v: &ImgVal<'_, T>) -> bool {
    match (i, v) {
        (0, ImgVal::U(w)) => *w > 0,
        (1, ImgVal::U(h)) => *h > 0,
        _ => true,
    }
}

fn image_record_pred<T>(r: &RecordValue<ImgVal<'_, T>>) -> bool {
    match (&r.fields[0], &r.fields[1], &r.fields[2]) {
        (ImgVal::U(w), ImgVal::U(h), ImgVal::Data(d)) => w * h == d.len(),
        _ => false,
    }
}

fn build_image<T>(
    width: usize,
    height: usize,
    data: &mut [T],
) -> Option<RecordValue<ImgVal<'_, T>>> {
    let b = BuilderInstance::new(3)
        .supply(ImgVal::U(width))
        .supply(ImgVal::U(height))
        .supply(ImgVal::Data(data));
    b.build_validated(&vec![true, true, false], image_field_pred, Some(image_record_pred))
        .into_option()
}

#[test]
fn happy_paths_for_builders_with_invariants() {
    let built = build_without_generics(123, 32.0, "hello".into())
        .expect("builder with valid invariants should not fail");
    let expected = RecordValue {
        fields: vec![PlainVal::I(123), PlainVal::F(32.0), PlainVal::S("hello".into())],
    };
    assert_eq!(built, expected);

    let built =
        build_one_generic(-1, Some(337)).expect("builder with valid invariants should not fail");
    let expected = RecordValue { fields: vec![GenVal::T(-1), GenVal::OptT(Some(337))] };
    assert_eq!(built, expected);

    let mut data1 = [1, 2, 3, 4, 5, 6];
    let mut data2 = [1, 2, 3, 4, 5, 6];
    let built =
        build_image(2, 3, &mut data1).expect("builder with valid invariants should not fail");
    let expected = RecordValue {
        fields: vec![ImgVal::U(2), ImgVal::U(3), ImgVal::Data(&mut data2)],
    };
    assert_eq!(built, expected);
}

#[test]
fn sad_path_for_builder_without_generics() {
    let built = build_without_generics(123, -1., "hello".into());
    assert_eq!(built, None);

    let built = build_without_generics(123, 124., "hello".into());
    assert_eq!(built, None);
}

#[test]
fn sad_path_for_builder_with_one_generic() {
    let built = build_one_generic(1, Some(337));
    assert_eq!(built, None);
    let built = build_one_generic(-1, Some(-337));
    assert_eq!(built, None);
    let built = build_one_generic(1, Some(-337));
    assert_eq!(built, None);
}

#[test]
fn sad_path_for_builder_with_generics_and_lifetimes() {
    let incorrectly_sized_data: &mut [f32] = &mut [1., 2., 3., 4.];
    let built = build_image(2, 3, incorrectly_sized_data);
    assert_eq!(built, None);

    // correctly sized, but the width and height invariants should trigger
    let mut zero_data: [f32; 0] = [];
    let built = build_image(0, 3, &mut zero_data);
    assert_eq!(built, None);
    let mut zero_data: [f32; 0] = [];

    let built = build_image(2, 0, &mut zero_data);
    assert_eq!(built, None);
}
