use harness_desktop::window_guard::{
    escapes_swallowed, on_key_down, KeyPress, WindowGuard, ESCAPE_KEY_CODE,
};

fn press(guard: &mut WindowGuard, key_code: u16, fullscreen: Option<bool>) -> bool {
    on_key_down(guard, KeyPress { key_code, fullscreen })
}

#[test]
fn only_escape_in_fullscreen_is_swallowed() {
    assert_eq!(ESCAPE_KEY_CODE, 53);
    let mut guard = WindowGuard::new();
    assert!(!press(&mut guard, 53, Some(false)));
    assert!(!press(&mut guard, 53, None));
    assert!(!press(&mut guard, 52, Some(true)));
    assert_eq!(escapes_swallowed(&guard), 0);
    assert!(press(&mut guard, 53, Some(true)));
    assert_eq!(escapes_swallowed(&guard), 1);
}

#[test]
fn the_count_is_that_of_swallowed_escapes() {
    let mut guard = WindowGuard::new();
    let presses = [(53, Some(true)), (53, Some(false)), (12, Some(true)), (53, Some(true)), (53, None)];
    let mut swallowed = 0;
    for (key, fullscreen) in presses {
        if press(&mut guard, key, fullscreen) {
            swallowed += 1;
        }
    }
    assert_eq!(swallowed, 2);
    assert_eq!(escapes_swallowed(&guard), 2);
    let mut full = WindowGuard { swallowed: u64::MAX };
    assert!(press(&mut full, 53, Some(true)));
    assert_eq!(escapes_swallowed(&full), 0);
}
