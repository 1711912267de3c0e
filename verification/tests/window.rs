use menfis::window::{blink_step, window_title};

#[test]
fn title_names_the_file_or_untitled() {
    assert_eq!(window_title(Some("/tmp/a.txt")), "menfis — /tmp/a.txt");
    assert_eq!(window_title(None), "menfis — 無題");
}

#[test]
fn cursor_blinks_after_the_interval() {
    assert_eq!(blink_step(true, 529), (true, false));
    assert_eq!(blink_step(true, 530), (false, true));
    assert_eq!(blink_step(false, 1000), (true, true));
}
