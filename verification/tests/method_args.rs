use gdnative_core::method::{ArgumentError, Varargs};

fn to_i32(v: &i64) -> Result<i32, String> {
    if *v >= i32::MIN as i64 && *v <= i32::MAX as i64 {
        Ok(*v as i32)
    } else {
        Err(format!("{} is out of range", v))
    }
}

#[test]
fn varargs_reads_in_order_and_done() {
    let values: Vec<i64> = vec![1, 2, 3];
    let mut args = Varargs::from_sys(values.as_slice());
    assert_eq!(args.len(), 3);
    assert!(!args.is_empty());
    let a: i32 = args.read().get(to_i32).unwrap();
    let b: i32 = args.read().with_name("b").get(to_i32).unwrap();
    assert_eq!((a, b), (1, 2));
    assert_eq!(args.as_slice(), &[3i64][..]);
    let c: Option<i32> = args.read().get_optional(to_i32).unwrap();
    assert_eq!(c, Some(3));
    assert!(args.is_empty());
    assert!(args.done::<String>().is_ok());
}

#[test]
fn varargs_missing_argument() {
    let values: Vec<i64> = vec![7];
    let mut args = Varargs::from_sys(values.as_slice());
    let _first: i32 = args.read().get(to_i32).unwrap();
    let missing = args.read::<i32>().with_name("count").get(to_i32);
    match missing {
        Err(ArgumentError::Missing { idx, name }) => {
            assert_eq!(idx, 1);
            assert_eq!(name, Some("count"));
        }
        _ => panic!("expected a missing argument"),
    }
    let optional: Option<i32> = args.read().get_optional(to_i32).unwrap();
    assert_eq!(optional, None);
}

#[test]
fn varargs_cannot_convert() {
    let values: Vec<i64> = vec![5_000_000_000];
    let mut args = Varargs::from_sys(values.as_slice());
    let res = args.read::<i32>().with_name("x").with_type_name("int").get(to_i32);
    match res {
        Err(ArgumentError::CannotConvert { idx, name, ty, value, err }) => {
            assert_eq!(idx, 0);
            assert_eq!(name, Some("x"));
            assert_eq!(ty, Some("int"));
            assert_eq!(*value, 5_000_000_000);
            assert_eq!(err, "5000000000 is out of range");
        }
        _ => panic!("expected a conversion error"),
    }
    assert!(args.is_empty());
}

#[test]
fn varargs_excess_arguments() {
    let values: Vec<i64> = vec![1, 2, 3];
    let mut args = Varargs::from_sys(values.as_slice());
    let _a: i32 = args.read().get(to_i32).unwrap();
    match args.done::<String>() {
        Err(ArgumentError::ExcessArguments { rest }) => assert_eq!(rest, &[2i64, 3][..]),
        _ => panic!("expected excess arguments"),
    }
}

#[test]
fn varargs_next_does_not_advance_index() {
    let values: Vec<i64> = vec![1, 2];
    let mut args = Varargs::from_sys(values.as_slice());
    assert_eq!(args.next(), Some(&1));
    let missing = args.read::<i32>().get(to_i32);
    assert!(missing.is_ok());
    let again = args.read::<i32>().get(to_i32);
    match again {
        Err(ArgumentError::Missing { idx, name }) => {
            assert_eq!(idx, 1);
            assert_eq!(name, None);
        }
        _ => panic!("expected a missing argument"),
    }
}

#[test]
fn argument_error_messages_missing() {
    let named: ArgumentError<'_, i64, String> = ArgumentError::Missing { idx: 2, name: Some("speed") };
    assert_eq!(named.message("i32", &[], ""), "missing non-optional parameter `speed` (#2)");
    let unnamed: ArgumentError<'_, i64, String> = ArgumentError::Missing { idx: 13, name: None };
    assert_eq!(unnamed.message("i32", &[], ""), "missing non-optional parameter #13");
}

#[test]
fn argument_error_messages_cannot_convert() {
    let value: i64 = 9;
    let named: ArgumentError<'_, i64, String> = ArgumentError::CannotConvert {
        idx: 0,
        name: Some("n"),
        ty: None,
        value: &value,
        err: String::from("bad"),
    };
    assert_eq!(
        named.message("i32", &[String::from("I64(9)")], "bad"),
        "cannot convert argument `n` (#0, I64(9)) to i32: bad (non-primitive types may impose structural checks)"
    );
    let unnamed: ArgumentError<'_, i64, String> = ArgumentError::CannotConvert {
        idx: 4,
        name: None,
        ty: Some("Vector2"),
        value: &value,
        err: String::from("bad"),
    };
    assert_eq!(
        unnamed.message("i32", &[String::from("I64(9)")], "wrong type"),
        "cannot convert argument #4 (I64(9)) to Vector2: wrong type (non-primitive types may impose structural checks)"
    );
}

#[test]
fn argument_error_messages_excess() {
    let values: Vec<i64> = vec![1, 2];
    let many: ArgumentError<'_, i64, String> = ArgumentError::ExcessArguments { rest: values.as_slice() };
    assert_eq!(
        many.message("", &[String::from("I64(1)"), String::from("I64(2)")], ""),
        "2 excessive arguments are given: [I64(1), I64(2)]"
    );
    let one: ArgumentError<'_, i64, String> = ArgumentError::ExcessArguments { rest: &values[1..] };
    assert_eq!(one.message("", &[String::from("I64(2)")], ""), "an excessive argument is given: I64(2)");
}
