use tuple_info::AnyValue;
use tuple_info::ElementEcho;
use tuple_info::PositionEcho;
use tuple_info::Tuple;
use tuple_info::TupleInfo;

fn mixed_tuple() -> Tuple {
    Tuple::try_new(vec![
        AnyValue::Integer(10),
        AnyValue::Text(String::from("mid")),
        AnyValue::Boolean(true),
    ])
    .unwrap()
}

#[test]
fn foreach_visits_positions_in_order_exactly_once() {
    let t = mixed_tuple();
    let (outputs, calls) = t.foreach_type::<PositionEcho>(0);
    assert_eq!(outputs, vec![0, 1, 2]);
    assert_eq!(calls, 3);
}

#[test]
fn foreach_threads_the_accumulator_through_every_call() {
    let t = mixed_tuple();
    let (outputs, calls) = t.foreach_type::<PositionEcho>(100);
    assert_eq!(outputs.len(), 3);
    assert_eq!(calls, 103);
}

#[test]
fn foreach_leaves_the_tuple_usable() {
    let t = mixed_tuple();
    let _ = t.foreach_type::<PositionEcho>(0);
    assert_eq!(t.len(), 3);
    assert_eq!(t.get(0).unwrap(), &AnyValue::Integer(10));
}

#[test]
fn map_consumes_every_element_in_position_order() {
    let t = mixed_tuple();
    let (outputs, calls) = t.map_type::<ElementEcho>(0);
    assert_eq!(
        outputs,
        vec![
            AnyValue::Integer(10),
            AnyValue::Text(String::from("mid")),
            AnyValue::Boolean(true),
        ]
    );
    assert_eq!(calls, 3);
}

#[test]
fn map_output_length_equals_arity_for_larger_arities() {
    for n in 2..=16usize {
        let mut parts = Vec::new();
        for i in 0..n {
            parts.push(AnyValue::Integer(i as i64));
        }
        let t = Tuple::try_new(parts).unwrap();
        let (outputs, calls) = t.map_type::<ElementEcho>(0);
        assert_eq!(outputs.len(), n);
        assert_eq!(calls, n as u64);
        for (i, out) in outputs.iter().enumerate() {
            assert_eq!(out, &AnyValue::Integer(i as i64));
        }
    }
}
