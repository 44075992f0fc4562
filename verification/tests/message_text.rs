use button_blink::message::{diagnostic, render_decimal};

#[test]
fn diagnostic_reports_the_delay() {
    assert_eq!(diagnostic(350), "Button pressed with a delay of: 350");
    assert_eq!(diagnostic(400), "Button pressed with a delay of: 400");
    assert_eq!(diagnostic(50), "Button pressed with a delay of: 50");
}

#[test]
fn diagnostic_of_every_delay_on_the_cycle() {
    for delay in [400u32, 350, 300, 250, 200, 150, 100, 50] {
        assert_eq!(
            diagnostic(delay),
            format!("Button pressed with a delay of: {}", delay)
        );
    }
}

#[test]
fn decimal_of_zero_is_one_digit() {
    assert_eq!(render_decimal(0), "0");
}

#[test]
fn decimal_has_no_leading_zeros() {
    assert_eq!(render_decimal(7), "7");
    assert_eq!(render_decimal(10), "10");
    assert_eq!(render_decimal(105), "105");
    assert_eq!(render_decimal(1000), "1000");
}

#[test]
fn decimal_of_the_largest_value() {
    assert_eq!(render_decimal(u32::MAX), "4294967295");
}

#[test]
fn decimal_agrees_with_the_standard_formatting() {
    let mut n: u32 = 1;
    for _ in 0..32 {
        assert_eq!(render_decimal(n), format!("{}", n));
        assert_eq!(render_decimal(n - 1), format!("{}", n - 1));
        n = n.wrapping_mul(2);
        if n == 0 {
            n = 3;
        }
    }
}
