use podpipe::text::{str_ends_with, str_eq, str_starts_with, u64_to_dec};

#[test]
fn decimal_rendering_matches_the_standard_form() {
    assert_eq!(u64_to_dec(0), "0");
    assert_eq!(u64_to_dec(7), "7");
    assert_eq!(u64_to_dec(10), "10");
    assert_eq!(u64_to_dec(305), "305");
    assert_eq!(u64_to_dec(18_446_744_073_709_551_615), "18446744073709551615");
}

#[test]
fn string_comparisons_work_on_characters() {
    assert!(str_eq("", ""));
    assert!(str_eq("größer", "größer"));
    assert!(!str_eq("a", "b"));
    assert!(!str_eq("a", "ab"));

    assert!(str_starts_with("ggml-small.bin", "ggml-"));
    assert!(str_starts_with("x", ""));
    assert!(!str_starts_with("gg", "ggml-"));

    assert!(str_ends_with("ggml-small.bin", ".bin"));
    assert!(!str_ends_with("bin", ".bin"));
    assert!(str_ends_with("", ""));
}
