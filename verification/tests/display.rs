use jmon_rs::text::truncate_for_display;

#[test]
fn display_truncation_preserves_ascii_layout() {
    assert_eq!(
        truncate_for_display("abcdefghijklmnopqrstuvwxyz", 25, 22),
        "abcdefghijklmnopqrstuv..."
    );
    assert_eq!(
        truncate_for_display("abcdefghijklmnopqrstuvwxy", 25, 22),
        "abcdefghijklmnopqrstuvwxy"
    );
}

#[test]
fn display_truncation_respects_utf8_boundaries() {
    assert_eq!(truncate_for_display("你好世界", 3, 2), "你好...");
    assert_eq!(truncate_for_display("你好世界", 4, 2), "你好世界");
}
