//! Small decisions of the editor window: its title, and the cursor's blink.
use vstd::prelude::*;

verus! {

/// How long the cursor stays shown, or hidden, before it blinks.
pub const BLINK_INTERVAL_MILLIS: u128 = 530;

/// The window's title: the program's name and the file's, or "無題"
/// (untitled) when the text belongs to no file.
pub fn window_title(file_name: Option<&str>) -> (title: String)
    ensures
        title@ == "menfis — "@ + match file_name {
            Some(name) => name@,
            None => "無題"@,
        },
{
    let mut title = String::from_str("menfis — ");
    match file_name {
        Some(name) => title.append(name),
        None => title.append("無題"),
    }
    title
}

/// One check of the cursor's blink, `elapsed_millis` after the last change:
/// once the interval has passed, visibility flips and the timer restarts.
/// Gives (visible, restart the timer).
pub fn blink_step(visible: bool, elapsed_millis: u128) -> (step: (bool, bool))
    ensures
        step == if elapsed_millis >= BLINK_INTERVAL_MILLIS {
            (!visible, true)
        } else {
            (visible, false)
        },
{
    if elapsed_millis >= BLINK_INTERVAL_MILLIS {
        (!visible, true)
    } else {
        (visible, false)
    }
}

} // verus!
