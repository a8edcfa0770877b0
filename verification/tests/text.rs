use hecras_bridge::text::{append_text, i32_to_decimal, replace_separators};

#[test]
fn separators_become_underscores() {
    assert_eq!(
        replace_separators("Results/Unsteady/Depth Map"),
        "Results_Unsteady_Depth_Map"
    );
}

#[test]
fn text_without_separators_is_unchanged() {
    assert_eq!(replace_separators("depth"), "depth");
    assert_eq!(replace_separators(""), "");
}

#[test]
fn only_slash_and_space_are_replaced() {
    assert_eq!(replace_separators("a\\b\tc.d-e_f"), "a\\b\tc.d-e_f");
    assert_eq!(replace_separators("/ /"), "___");
    assert_eq!(replace_separators("Área/Sección 1"), "Área_Sección_1");
}

#[test]
fn replacement_agrees_with_str_replace() {
    for s in ["", "/", " ", "a/b c", "//  //", "Geometry/2D Flow Areas/Cell Info"] {
        assert_eq!(replace_separators(s), s.replace(['/', ' '], "_"));
    }
}

#[test]
fn decimal_of_small_numbers() {
    assert_eq!(i32_to_decimal(0), "0");
    assert_eq!(i32_to_decimal(7), "7");
    assert_eq!(i32_to_decimal(10), "10");
    assert_eq!(i32_to_decimal(-1), "-1");
    assert_eq!(i32_to_decimal(-10), "-10");
    assert_eq!(i32_to_decimal(1234567890), "1234567890");
}

#[test]
fn decimal_of_the_extremes() {
    assert_eq!(i32_to_decimal(i32::MAX), "2147483647");
    assert_eq!(i32_to_decimal(i32::MIN), "-2147483648");
}

#[test]
fn decimal_agrees_with_the_standard_text_form() {
    for v in [0, 1, 9, 10, 11, 99, 100, 101, 1000, 65535, -5, -99, -100, -65536, i32::MAX, i32::MIN] {
        assert_eq!(i32_to_decimal(v), v.to_string());
    }
}

#[test]
fn concat_puts_head_before_tail() {
    assert_eq!(append_text("Failed: ", "disk full"), "Failed: disk full");
    assert_eq!(append_text("", "x"), "x");
    assert_eq!(append_text("x", ""), "x");
}
