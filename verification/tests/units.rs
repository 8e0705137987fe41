use gridpaper::units::mm;

#[test]
fn whole_millimetres_have_no_fraction() {
    assert_eq!(mm(500), "5mm");
    assert_eq!(mm(2400), "24mm");
    assert_eq!(mm(0), "0mm");
}

#[test]
fn two_digit_fractions_are_kept() {
    assert_eq!(mm(10795), "107.95mm");
    assert_eq!(mm(12345), "123.45mm");
    assert_eq!(mm(5), "0.05mm");
}

#[test]
fn trailing_zero_of_fraction_is_trimmed() {
    assert_eq!(mm(250), "2.5mm");
    assert_eq!(mm(27940), "279.4mm");
    assert_eq!(mm(13970), "139.7mm");
}

#[test]
fn negative_lengths_carry_a_sign() {
    assert_eq!(mm(-250), "-2.5mm");
    assert_eq!(mm(-500), "-5mm");
    assert_eq!(mm(-10795), "-107.95mm");
}
