use bottle_thermal::time_scale::TimeScale;

#[test]
fn cycle_visits_one_two_five_ten_and_wraps() {
    let mut scale = TimeScale::X1;
    let mut seen = Vec::new();
    for _ in 0..5 {
        seen.push(scale.factor());
        scale = scale.next();
    }
    assert_eq!(seen, vec![1, 2, 5, 10, 1]);
}

#[test]
fn each_selector_has_its_factor() {
    assert_eq!(TimeScale::X1.factor(), 1);
    assert_eq!(TimeScale::X2.factor(), 2);
    assert_eq!(TimeScale::X5.factor(), 5);
    assert_eq!(TimeScale::X10.factor(), 10);
}

#[test]
fn each_selector_has_its_successor() {
    assert_eq!(TimeScale::X1.next(), TimeScale::X2);
    assert_eq!(TimeScale::X2.next(), TimeScale::X5);
    assert_eq!(TimeScale::X5.next(), TimeScale::X10);
    assert_eq!(TimeScale::X10.next(), TimeScale::X1);
}

#[test]
fn four_presses_return_to_the_start_and_fewer_do_not() {
    for start in [TimeScale::X1, TimeScale::X2, TimeScale::X5, TimeScale::X10] {
        assert_ne!(start.next(), start);
        assert_ne!(start.next().next(), start);
        assert_ne!(start.next().next().next(), start);
        assert_eq!(start.next().next().next().next(), start);
    }
}
