use qalttab::config::{Colors, Font, Orientation, UiConfig, UiItem};
use qalttab::keys::{is_alt_release, release_hook_args, HOOK_PROGRAM};
use qalttab::window::{same_windows, shortened_name, WindowDescriptor};

#[test]
fn alt_release_lines_are_recognised() {
    assert!(is_alt_release(" event3   KEYBOARD_KEY  +1.20s  KEY_LEFTALT (56) released"));
    assert!(is_alt_release(" event3   KEYBOARD_KEY  +1.20s  KEY_RIGHTALT (100) released"));
    assert!(!is_alt_release(" event3   KEYBOARD_KEY  +1.20s  KEY_LEFTALT (56) pressed"));
    assert!(!is_alt_release(" event3   KEYBOARD_KEY  +1.20s  KEY_TAB (15) released"));
    assert!(!is_alt_release(""));
}

#[test]
fn release_hook_fires_user_hook() {
    assert_eq!(HOOK_PROGRAM, "qticc");
    assert_eq!(release_hook_args(), vec!["cmd-obj", "-f", "fire_user_hook", "-a", "alt_release"]);
}

#[test]
fn short_names_are_kept() {
    assert_eq!(shortened_name("term"), "term");
    assert_eq!(shortened_name(""), "");
    let exact = "a".repeat(31);
    assert_eq!(shortened_name(&exact), exact);
}

#[test]
fn long_names_keep_thirty_chars() {
    let long = "abcdefghij".repeat(4);
    assert_eq!(shortened_name(&long), "abcdefghij".repeat(3));
}

#[test]
fn multibyte_names_are_counted_in_chars() {
    // 20 characters, 40 bytes: over the byte limit but under 30 characters
    let wide = "é".repeat(20);
    assert_eq!(shortened_name(&wide), wide);
    let wider = "é".repeat(35);
    assert_eq!(shortened_name(&wider), "é".repeat(30));
}

#[test]
fn descriptors_compare_in_order() {
    let a = WindowDescriptor { entries: vec![("id".into(), "1".into()), ("name".into(), "x".into())] };
    let b = WindowDescriptor { entries: vec![("name".into(), "x".into()), ("id".into(), "1".into())] };
    assert!(a.same_as(&a.copy()));
    assert!(!a.same_as(&b));
    assert_eq!(a.get(&"name".to_string()), Some("x".to_string()));
    assert_eq!(a.get(&"class".to_string()), None);
    assert!(same_windows(&vec![a.copy()], &vec![a.copy()]));
    assert!(!same_windows(&vec![a.copy()], &vec![a.copy(), b.copy()]));
}

#[test]
fn font_new_copies_fields() {
    let f = Font::new("fa-brands", "/usr/share/fonts/TTF/fa-brands-400.ttf");
    assert_eq!(f.name, "fa-brands");
    assert_eq!(f.path, "/usr/share/fonts/TTF/fa-brands-400.ttf");
}

#[test]
fn default_colors_and_layout() {
    let c = Colors::default();
    assert_eq!(c.bg_color, "#1E1E2E");
    assert_eq!(c.text_color, "#6C7086");
    assert_eq!(c.normal_group_color, "#313244");
    assert_eq!(c.group_hover_color, "#B4BEFE");
    let u = UiConfig::default();
    assert_eq!(u.items, vec![UiItem::Icon, UiItem::Name, UiItem::GroupName, UiItem::GroupLabel]);
    assert_eq!(u.orientation, Orientation::Vertical);
}
