use alertangel::buttons::{same_text, ArrowKeys};

#[test]
fn key_names_map_to_directions() {
    assert_eq!(ArrowKeys::from_key_string("ArrowUp"), Some(ArrowKeys::TopArrow));
    assert_eq!(ArrowKeys::from_key_string("ArrowDown"), Some(ArrowKeys::BottomArrow));
    assert_eq!(ArrowKeys::from_key_string("ArrowLeft"), Some(ArrowKeys::LeftArrow));
    assert_eq!(ArrowKeys::from_key_string("ArrowRight"), Some(ArrowKeys::RightArrow));
}

#[test]
fn other_key_names_map_to_nothing() {
    assert_eq!(ArrowKeys::from_key_string("Escape"), None);
    assert_eq!(ArrowKeys::from_key_string(""), None);
    assert_eq!(ArrowKeys::from_key_string("arrowup"), None);
    assert_eq!(ArrowKeys::from_key_string("ArrowUp "), None);
    assert_eq!(ArrowKeys::from_key_string("Up"), None);
    assert_eq!(ArrowKeys::from_key_string("a"), None);
}

#[test]
fn directions_have_glyphs() {
    assert_eq!(ArrowKeys::TopArrow.as_symbol(), "↑");
    assert_eq!(ArrowKeys::BottomArrow.as_symbol(), "↓");
    assert_eq!(ArrowKeys::LeftArrow.as_symbol(), "←");
    assert_eq!(ArrowKeys::RightArrow.as_symbol(), "→");
}

#[test]
fn directions_have_names() {
    assert_eq!(ArrowKeys::TopArrow.as_name(), "Up");
    assert_eq!(ArrowKeys::BottomArrow.as_name(), "Down");
    assert_eq!(ArrowKeys::LeftArrow.as_name(), "Left");
    assert_eq!(ArrowKeys::RightArrow.as_name(), "Right");
}

#[test]
fn same_text_compares_characters() {
    assert!(same_text("Escape", "Escape"));
    assert!(same_text("", ""));
    assert!(!same_text("Escape", "escape"));
    assert!(!same_text("Escape", "Escap"));
    assert!(same_text("↑", "↑"));
    assert!(!same_text("↑", "↓"));
}
