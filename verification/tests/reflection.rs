use tuple_info::AnyValue;
use tuple_info::MutHandle;
use tuple_info::Tuple;
use tuple_info::TupleError;
use tuple_info::TupleInfo;
use tuple_info::TypeIdentity;

fn integer_text_tuple() -> Tuple {
    Tuple::try_new(vec![
        AnyValue::Integer(42),
        AnyValue::Text(String::from("hi")),
    ])
    .unwrap()
}

#[test]
fn scenario_integer_text_length_and_types() {
    let t = integer_text_tuple();
    assert_eq!(t.len(), 2);
    assert_eq!(
        t.types(),
        vec![TypeIdentity::Integer, TypeIdentity::Text]
    );
}

#[test]
fn scenario_integer_text_index_of_text() {
    let t = integer_text_tuple();
    assert_eq!(t.index(TypeIdentity::Text), Ok(1));
    assert_eq!(t.index(TypeIdentity::Integer), Ok(0));
}

#[test]
fn scenario_integer_text_get_and_downcast() {
    let t = integer_text_tuple();
    let h = t.get(0).unwrap();
    assert_eq!(h.downcast_integer(), Some(&42));
    let h = t.get(1).unwrap();
    assert_eq!(h.downcast_text(), Some(&String::from("hi")));
}

#[test]
fn scenario_integer_text_deconstruct() {
    let t = integer_text_tuple();
    let view = t.deconstruct();
    assert_eq!(view.len(), 2);
    assert_eq!(view[0], &AnyValue::Integer(42));
    assert_eq!(view[1], &AnyValue::Text(String::from("hi")));
}

#[test]
fn scenario_integer_text_round_trip() {
    let t = integer_text_tuple();
    let expected = t.types();
    let handles = t.as_anyies();
    let rebuilt = Tuple::try_deconstruction(&expected, &handles).unwrap();
    assert_eq!(rebuilt, t.deconstruct());
    assert_eq!(rebuilt[0], &AnyValue::Integer(42));
    assert_eq!(rebuilt[1], &AnyValue::Text(String::from("hi")));
}

#[test]
fn scenario_three_integers_lowest_index_tie_break() {
    let t = Tuple::try_new(vec![
        AnyValue::Integer(1),
        AnyValue::Integer(2),
        AnyValue::Integer(3),
    ])
    .unwrap();
    assert_eq!(t.index(TypeIdentity::Integer), Ok(0));
}

#[test]
fn scenario_get_five_on_three_arity() {
    let t = Tuple::try_new(vec![
        AnyValue::Integer(1),
        AnyValue::Integer(2),
        AnyValue::Integer(3),
    ])
    .unwrap();
    assert_eq!(t.get(5), Err(TupleError::IndexOutOfRange));
}

#[test]
fn length_matches_arity_for_every_supported_arity() {
    for n in 2..=16usize {
        let mut parts = Vec::new();
        for i in 0..n {
            parts.push(AnyValue::Integer(i as i64));
        }
        let t = Tuple::try_new(parts).unwrap();
        assert_eq!(t.len(), n);
        assert_eq!(t.types().len(), n);
    }
}

#[test]
fn arity_outside_supported_range_is_refused() {
    assert!(matches!(
        Tuple::try_new(vec![]),
        Err(TupleError::UnsupportedArity)
    ));
    assert!(matches!(
        Tuple::try_new(vec![AnyValue::Boolean(true)]),
        Err(TupleError::UnsupportedArity)
    ));
    let mut parts = Vec::new();
    for i in 0..17 {
        parts.push(AnyValue::Integer(i));
    }
    assert!(matches!(
        Tuple::try_new(parts),
        Err(TupleError::UnsupportedArity)
    ));
}

#[test]
fn get_agrees_with_deconstruct_at_every_position() {
    let t = Tuple::try_new(vec![
        AnyValue::Integer(7),
        AnyValue::Text(String::from("mid")),
        AnyValue::Boolean(false),
    ])
    .unwrap();
    let view = t.deconstruct();
    assert_eq!(view.len(), 3);
    for i in 0..3 {
        assert_eq!(t.get(i).unwrap(), view[i]);
    }
    assert_eq!(view[0].downcast_integer(), Some(&7));
    assert_eq!(view[1].downcast_text(), Some(&String::from("mid")));
    assert_eq!(view[2].downcast_boolean(), Some(&false));
}

#[test]
fn get_at_and_beyond_arity_is_out_of_range() {
    let t = integer_text_tuple();
    assert_eq!(t.get(2), Err(TupleError::IndexOutOfRange));
    assert_eq!(t.get(3), Err(TupleError::IndexOutOfRange));
}

#[test]
fn index_of_duplicated_type_returns_lowest_position() {
    let t = Tuple::try_new(vec![
        AnyValue::Text(String::from("first")),
        AnyValue::Integer(1),
        AnyValue::Integer(2),
    ])
    .unwrap();
    assert_eq!(t.index(TypeIdentity::Integer), Ok(1));
    assert_eq!(t.index(TypeIdentity::Text), Ok(0));
}

#[test]
fn index_of_absent_type_is_not_found() {
    let t = integer_text_tuple();
    assert_eq!(t.index(TypeIdentity::Boolean), Err(TupleError::TypeNotFound));
}

#[test]
fn try_deconstruction_with_wrong_length_fails() {
    let t = integer_text_tuple();
    let expected = t.types();
    let lone = AnyValue::Integer(42);
    let handles = vec![&lone];
    assert_eq!(
        Tuple::try_deconstruction(&expected, &handles),
        Err(TupleError::DeconstructionFailed)
    );
    assert_eq!(
        Tuple::try_deconstruction(&expected, &vec![]),
        Err(TupleError::DeconstructionFailed)
    );
}

#[test]
fn try_deconstruction_with_swapped_type_fails() {
    let t = integer_text_tuple();
    let expected = t.types();
    let first = AnyValue::Integer(42);
    let second = AnyValue::Boolean(true);
    let handles = vec![&first, &second];
    assert_eq!(
        Tuple::try_deconstruction(&expected, &handles),
        Err(TupleError::DeconstructionFailed)
    );
}

#[test]
fn try_mut_deconstruction_round_trip() {
    let mut t = integer_text_tuple();
    let expected = t.types();
    {
        let handles = t.as_mut_anyies();
        let mut view = Tuple::try_mut_deconstruction(&expected, handles).unwrap();
        assert_eq!(view.len(), 2);
        match view.remove(0) {
            MutHandle::Integer(x) => *x = 5,
            _ => panic!("expected an integer handle"),
        }
    }
    assert_eq!(t.get(0).unwrap(), &AnyValue::Integer(5));
    assert_eq!(t.get(1).unwrap(), &AnyValue::Text(String::from("hi")));
}

#[test]
fn try_mut_deconstruction_rejects_wrong_length_and_type() {
    let t = integer_text_tuple();
    let expected = t.types();
    let mut lone = AnyValue::Integer(1);
    assert!(matches!(
        Tuple::try_mut_deconstruction(&expected, vec![lone.erase_mut()]),
        Err(TupleError::DeconstructionFailed)
    ));
    let mut a = AnyValue::Text(String::from("hi"));
    let mut b = AnyValue::Integer(42);
    assert!(matches!(
        Tuple::try_mut_deconstruction(&expected, vec![a.erase_mut(), b.erase_mut()]),
        Err(TupleError::DeconstructionFailed)
    ));
    assert_eq!(a, AnyValue::Text(String::from("hi")));
    assert_eq!(b, AnyValue::Integer(42));
}

#[test]
fn mut_deconstruct_writes_back_in_position_order() {
    let mut t = integer_text_tuple();
    {
        let view = t.mut_deconstruct();
        assert_eq!(view.len(), 2);
        for h in view {
            match h {
                MutHandle::Integer(x) => *x = 99,
                MutHandle::Text(x) => x.push('!'),
                MutHandle::Boolean(_) => {},
            }
        }
    }
    assert_eq!(t.get(0).unwrap(), &AnyValue::Integer(99));
    assert_eq!(t.get(1).unwrap(), &AnyValue::Text(String::from("hi!")));
    assert_eq!(
        t.types(),
        vec![TypeIdentity::Integer, TypeIdentity::Text]
    );
}

#[test]
fn as_mut_anyies_hands_out_every_position() {
    let mut t = integer_text_tuple();
    {
        let mut handles = t.as_mut_anyies();
        assert_eq!(handles.len(), 2);
        assert_eq!(handles[0].type_identity(), TypeIdentity::Integer);
        match handles.remove(0) {
            MutHandle::Integer(x) => *x = -1,
            _ => panic!("expected an integer handle"),
        }
    }
    assert_eq!(t.get(0).unwrap(), &AnyValue::Integer(-1));
    assert_eq!(t.get(1).unwrap(), &AnyValue::Text(String::from("hi")));
}

#[test]
fn get_mut_writes_one_position_in_place() {
    let mut t = integer_text_tuple();
    {
        match t.get_mut(0).unwrap() {
            MutHandle::Integer(x) => *x = 7,
            _ => panic!("expected an integer handle"),
        }
    }
    assert_eq!(t.get(0).unwrap(), &AnyValue::Integer(7));
    assert_eq!(t.get(1).unwrap(), &AnyValue::Text(String::from("hi")));
    assert_eq!(
        t.types(),
        vec![TypeIdentity::Integer, TypeIdentity::Text]
    );
}

#[test]
fn get_mut_beyond_arity_is_out_of_range() {
    let mut t = integer_text_tuple();
    assert!(matches!(t.get_mut(2), Err(TupleError::IndexOutOfRange)));
}

#[test]
fn downcast_fails_only_across_types() {
    let v = AnyValue::Integer(3);
    assert_eq!(v.downcast_text(), None);
    assert_eq!(v.downcast_boolean(), None);
    assert_eq!(v.downcast_integer(), Some(&3));
    assert_eq!(v.type_identity(), TypeIdentity::Integer);
    let mut w = AnyValue::Text(String::from("x"));
    assert!(w.downcast_integer_mut().is_none());
    assert_eq!(w.downcast_text_mut(), Some(&mut String::from("x")));
    let mut b = AnyValue::Boolean(false);
    *b.downcast_boolean_mut().unwrap() = true;
    assert_eq!(b, AnyValue::Boolean(true));
}

#[test]
fn erase_mut_preserves_the_type_tag() {
    let mut v = AnyValue::Integer(3);
    {
        let h = v.erase_mut();
        assert_eq!(h.type_identity(), TypeIdentity::Integer);
        match h {
            MutHandle::Integer(x) => *x = 8,
            _ => panic!("wrong tag"),
        }
    }
    assert_eq!(v, AnyValue::Integer(8));
    assert_eq!(v.type_identity(), TypeIdentity::Integer);
}

#[test]
fn expect_type_signals_downcast_failed() {
    let v = AnyValue::Integer(3);
    assert_eq!(v.expect_type(TypeIdentity::Integer), Ok(()));
    assert_eq!(
        v.expect_type(TypeIdentity::Text),
        Err(TupleError::DowncastFailed)
    );
}
