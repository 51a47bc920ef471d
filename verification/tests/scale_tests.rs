use gui_shell::ScaleFactor;

#[test]
fn starts_at_one() {
    let s = ScaleFactor::new();
    assert_eq!(s.tenths(), 10);
}

#[test]
fn three_plus_clicks_read_one_point_three() {
    let mut s = ScaleFactor::new();
    s.increase();
    s.increase();
    s.increase();
    assert_eq!(s.tenths(), 13);
}

#[test]
fn plus_clicks_clamp_at_three() {
    let mut s = ScaleFactor::new();
    for _ in 0..25 {
        s.increase();
    }
    assert_eq!(s.tenths(), 30);
    s.increase();
    assert_eq!(s.tenths(), 30);
}

#[test]
fn minus_clicks_clamp_at_zero_point_three() {
    let mut s = ScaleFactor::new();
    for _ in 0..10 {
        s.decrease();
    }
    assert_eq!(s.tenths(), 3);
    s.decrease();
    assert_eq!(s.tenths(), 3);
}

#[test]
fn clamping_is_idempotent_at_both_ends() {
    let mut s = ScaleFactor::new();
    for _ in 0..30 {
        s.increase();
    }
    let top = s.tenths();
    s.increase();
    assert_eq!(s.tenths(), top);
    for _ in 0..40 {
        s.decrease();
    }
    let bottom = s.tenths();
    s.decrease();
    assert_eq!(s.tenths(), bottom);
    assert_eq!(top, 30);
    assert_eq!(bottom, 3);
}

#[test]
fn mixed_clicks_stay_in_bounds() {
    let mut s = ScaleFactor::new();
    for i in 0..100 {
        if i % 3 == 0 {
            s.decrease();
        } else {
            s.increase();
        }
        assert!(s.tenths() >= 3);
        assert!(s.tenths() <= 30);
    }
}
