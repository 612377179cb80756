use midi_to_wlambda::mirror::unknown_method_message;
use midi_to_wlambda::mirror::write_block_params;
use midi_to_wlambda::mirror::AtomicFloatVec;

fn bits(x: f32) -> u32 {
    x.to_bits()
}

#[test]
fn get_right_after_set_returns_value() {
    let mut m = AtomicFloatVec::new(15);
    m.set(3, bits(0.25));
    assert_eq!(m.get(3), bits(0.25));
    m.set(3, bits(0.75));
    assert_eq!(m.get(3), bits(0.75));
}

#[test]
fn get_out_of_range_returns_zero() {
    let m = AtomicFloatVec::new(4);
    assert_eq!(m.get(4), 0);
    assert_eq!(m.get(1000), 0);
    assert_eq!(f32::from_bits(m.get(4)), 0.0);
}

#[test]
fn set_out_of_range_is_noop_and_leaves_other_slots() {
    let mut m = AtomicFloatVec::new(3);
    m.set(0, 10);
    m.set(1, 11);
    m.set(2, 12);
    m.set(3, 99);
    m.set(1000, 99);
    assert_eq!(m.get(0), 10);
    assert_eq!(m.get(1), 11);
    assert_eq!(m.get(2), 12);
    assert_eq!(m.len(), 3);
}

#[test]
fn method_get_loads_slot() {
    let mut m = AtomicFloatVec::new(2);
    m.set(1, bits(0.5));
    assert_eq!(m.method_get(&vec![1]), Ok(bits(0.5)));
    // Out of range, negative included: the zero pattern, never a panic.
    assert_eq!(m.method_get(&vec![2]), Ok(0));
    assert_eq!(m.method_get(&vec![-1]), Ok(0));
}

#[test]
fn method_get_wrong_arity_is_an_error() {
    let m = AtomicFloatVec::new(2);
    assert_eq!(
        m.method_get(&vec![]),
        Err(String::from("get method expects 1 arguments: index"))
    );
    assert_eq!(
        m.method_get(&vec![0, 1]),
        Err(String::from("get method expects 1 arguments: index"))
    );
}

#[test]
fn unknown_method_text() {
    assert_eq!(
        unknown_method_message("frobnicate"),
        String::from("unknown method called: frobnicate")
    );
}

#[test]
fn write_block_updates_prefix_only() {
    let mut m = AtomicFloatVec::new(4);
    m.set(3, 77);
    write_block_params(&mut m, &vec![1, 2, 3]);
    assert_eq!(m.get(0), 1);
    assert_eq!(m.get(1), 2);
    assert_eq!(m.get(2), 3);
    assert_eq!(m.get(3), 77);
    // A block with more values than slots drops the excess.
    write_block_params(&mut m, &vec![9, 9, 9, 9, 9, 9]);
    assert_eq!(m.get(3), 9);
    assert_eq!(m.len(), 4);
}
