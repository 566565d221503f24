use immutable_bot::hug::{handle_hug, hug_message, HUG_COUNT};

#[test]
fn hug_table() {
    assert_eq!(HUG_COUNT, 16);
    assert_eq!(hug_message(0), "( っ˶´ ˘ `)っ");
    assert_eq!(hug_message(15), "(❀❛ ֊ ❛„)♡");
}

#[test]
fn hug_picks_from_table() {
    for _ in 0..50 {
        let h = handle_hug();
        assert!((0..HUG_COUNT).any(|i| hug_message(i) == h));
    }
}

#[test]
fn hug_varies() {
    let mut seen = std::collections::HashSet::new();
    for _ in 0..100 {
        seen.insert(handle_hug());
    }
    assert!(seen.len() > 1);
}

