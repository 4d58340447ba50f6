use quick_builder::machine::{BuilderInstance, RecordValue};

#[derive(PartialEq, Debug)]
enum PlainVal {
    I(i32),
    F(f32),
    S(String),
}

#[derive(PartialEq, Debug)]
enum GenVal {
    T(i32),
    OptT(Option<i32>),
}

#[derive(PartialEq, Debug)]
enum MultiVal<'a, 'b, 'c, T, U: Clone> {
    First(&'a str),
    Second(&'b T),
    Third(&'c usize),
    Fourth(Option<(T, U)>),
}

#[test]
fn builder_without_generics() {
    let built = BuilderInstance::new(3)
        .supply(PlainVal::I(1))
        .supply(PlainVal::F(32.0))
        .supply(PlainVal::S("hello".into()))
        .build();
    let expected = RecordValue {
        fields: vec![PlainVal::I(1), PlainVal::F(32.0), PlainVal::S("hello".into())],
    };
    assert_eq!(built, expected);
}

#[test]
fn builder_with_one_generic() {
    let built =
        BuilderInstance::new(2).supply(GenVal::T(1)).supply(GenVal::OptT(Some(337))).build();
    let expected = RecordValue { fields: vec![GenVal::T(1), GenVal::OptT(Some(337))] };
    assert_eq!(built, expected);
}

#[test]
fn builder_with_multi_generics() {
    let myint = Box::new(1337);
    let myfloat = Box::new(123.);
    let my_str = String::from("hi");

    let expected: RecordValue<MultiVal<'_, '_, '_, f64, u8>> = RecordValue {
        fields: vec![
            MultiVal::First(&my_str),
            MultiVal::Second(myfloat.as_ref()),
            MultiVal::Third(&myint),
            MultiVal::Fourth(Some((3., 0u8))),
        ],
    };

    let built = BuilderInstance::new(4)
        .supply(MultiVal::First(&my_str))
        .supply(MultiVal::Second(myfloat.as_ref()))
        .supply(MultiVal::Third(&myint))
        .supply(MultiVal::Fourth(Some((3., 0u8))))
        .build();
    assert_eq!(built, expected);
}
