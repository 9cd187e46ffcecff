use layerrd::naming::{layer_name, push_decimal};

#[test]
fn layer_names() {
    assert_eq!(layer_name(0), "Layer 0");
    assert_eq!(layer_name(2), "Layer 2");
    assert_eq!(layer_name(10), "Layer 10");
    assert_eq!(layer_name(1234567), "Layer 1234567");
}

#[test]
fn decimal_of_largest_usize() {
    let mut s = String::from("n=");
    push_decimal(&mut s, usize::MAX);
    assert_eq!(s, format!("n={}", usize::MAX));
}

#[test]
fn decimal_round_numbers() {
    for n in [0usize, 9, 10, 99, 100, 1000, 40960] {
        let mut s = String::new();
        push_decimal(&mut s, n);
        assert_eq!(s, n.to_string());
    }
}
