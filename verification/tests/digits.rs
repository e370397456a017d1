use simple_fps::digits::Digits;

#[test]
fn zero_yields_one_digit() {
    let mut d = Digits::new(400000, 300000, 100000, 0);
    let slots = d.get_instance_controllers();
    assert_eq!(slots.len(), 1);
    let ic = slots[0].unwrap();
    // The glyph strip slot of the digit zero.
    assert_eq!(ic.uv.x, 0);
    assert_eq!(ic.uv.w, 100);
}

#[test]
fn twelve_hundred_yields_four_digits_right_to_left() {
    let mut d = Digits::new(400000, 300000, 100000, 1200);
    let slots = d.get_instance_controllers();
    assert_eq!(slots.len(), 4);
    // Least significant first: 0, 0, 2, 1.
    let digits: Vec<i64> = slots.iter().map(|s| s.unwrap().uv.x / 100).collect();
    assert_eq!(digits, vec![0, 0, 2, 1]);
    // Each quad sits one width further left, the rightmost anchored at
    // the given x minus half a width.
    for (i, s) in slots.iter().enumerate() {
        let ic = s.unwrap();
        assert_eq!(ic.position.x, 400000 - 50000 - (i as i64) * 100000);
        assert_eq!(ic.scale.x, 100000);
        // Five fourths of the width high, centered on the anchor line.
        assert_eq!(ic.scale.y, 125000);
        assert_eq!(ic.position.y, 300000 - 62500);
    }
}

#[test]
fn digit_caches_emit_once() {
    let mut d = Digits::new(0, 0, 100000, 42);
    let first = d.get_instance_controllers();
    assert_eq!(first.len(), 2);
    assert!(first.iter().all(|s| s.is_some()));
    let second = d.get_instance_controllers();
    assert_eq!(second.len(), 2);
    assert!(second.iter().all(|s| s.is_none()));
}

#[test]
fn set_number_refreshes_the_quads() {
    let mut d = Digits::new(0, 0, 100000, 5);
    let _ = d.get_instance_controllers();
    d.set_number(67);
    let slots = d.get_instance_controllers();
    assert_eq!(slots.len(), 2);
    let digits: Vec<i64> = slots.iter().map(|s| s.unwrap().uv.x / 100).collect();
    assert_eq!(digits, vec![7, 6]);
}
