use fl_signin::parts::{BottomLinkItemPosition, SigninSubTitleProps, Spinner, BottomLinks};
use fl_signin::style_cache::{ClassSlot, YieldStyle};
use fl_signin::{AvatarProps, ButtonColor, Input, InputMsg, InputProps, InputType, StyleCache};

#[test]
fn button_colours() {
    assert_eq!(ButtonColor::default(), ButtonColor::Blue);
    assert_eq!(ButtonColor::Blue.normal_color(), (92, 184, 230));
    assert_eq!(ButtonColor::Blue.hover_color(), (125, 198, 235));
    assert_eq!(ButtonColor::Red.normal_color(), (238, 82, 26));
    assert_eq!(ButtonColor::Yellow.hover_color(), (255, 205, 57));
    let c = ButtonColor::Custom { normal: (1, 2, 3), hover: (4, 5, 6) };
    assert_eq!(c.normal_color(), (1, 2, 3));
    assert_eq!(c.hover_color(), (4, 5, 6));
}

#[test]
fn field_style_follows_invalid_look() {
    let mut p = InputProps::new(InputType::Text);
    p.required = true;
    p.width = "100%".to_string();
    let mut input = Input::new(p);
    let valid_text = input.style_text();
    assert!(valid_text.starts_with("height: 40px;\nwidth: 100%;\n"));
    assert!(valid_text.contains("&:focus"));
    assert!(!valid_text.contains("rgb(254, 237, 234)"));
    input.trigger_validation();
    let invalid_text = input.style_text();
    assert!(invalid_text.contains("background-color: rgb(254, 237, 234);"));

    let mut cache = StyleCache::new();
    let a = input.yield_style_class(&mut cache).unwrap();
    let b = input.yield_style_class(&mut cache).unwrap();
    assert_eq!(a, b);
    assert!(a.starts_with("fl-input-"));
    assert_eq!(cache.injection_count(), 1);
    input.update(InputMsg::Input("ok".to_string()));
    let c = input.yield_style_class(&mut cache).unwrap();
    assert_ne!(a, c);
    assert_eq!(cache.injection_count(), 2);
}

#[test]
fn class_slot_swaps_only_on_change() {
    let mut slot = ClassSlot::new();
    let first = slot.apply("a-1".to_string()).expect("first class goes on");
    assert_eq!(first.add, "a-1");
    assert!(first.remove.is_none());
    assert!(slot.apply("a-1".to_string()).is_none());
    let swap = slot.apply("a-2".to_string()).unwrap();
    assert_eq!(swap.remove.as_deref(), Some("a-1"));
    assert_eq!(swap.add, "a-2");
    assert_eq!(slot.current().map(|s| s.as_str()), Some("a-2"));
}

#[test]
fn page_styles_register_under_their_element() {
    let mut cache = StyleCache::new();
    let body = fl_signin::viewport::PageStyle { root: false, grey_background: true, compensated: false };
    let html = fl_signin::viewport::PageStyle { root: true, grey_background: true, compensated: true };
    assert_eq!(body.element_name(), "fl-body");
    assert_eq!(html.element_name(), "fl-html");
    assert!(body.yield_style_str().contains("min-height: 100vh;"));
    assert!(!html.yield_style_str().contains("min-height"));
    let b = body.yield_style_class(&mut cache).unwrap();
    assert!(b.starts_with("fl-body-"));
    let h = html.yield_style_class(&mut cache).unwrap();
    assert!(h.starts_with("fl-html-"));
    assert_eq!(cache.injection_count(), 2);
}

#[test]
fn small_part_styles() {
    let avatar = AvatarProps { src: "https://example.com/a.png".to_string() };
    assert_eq!(avatar.element_name(), "fl-avatar");
    assert!(avatar.yield_style_str().ends_with("background-image: url(https://example.com/a.png);\n"));
    let mut sub = SigninSubTitleProps::new();
    assert!(sub.yield_style_str().ends_with("text-align: center;\n"));
    sub.text_align = "right".to_string();
    assert!(sub.yield_style_str().ends_with("text-align: right;\n"));
    assert_eq!(BottomLinkItemPosition::First.extra_style_str(), "text-align: right;\n");
    assert_eq!(BottomLinkItemPosition::Last.extra_style_str(), "text-align: left;\n");
    assert!(BottomLinkItemPosition::Last.yield_style_str().ends_with("color: rgb(100, 100, 100);\ntext-align: left;\n"));
    assert_eq!(BottomLinkItemPosition::First.element_name(), "fl-bottom-link-item");
}

#[test]
fn spinner_style() {
    let mut cache = StyleCache::new();
    assert_eq!(Spinner.element_name(), "fl-spinner");
    assert!(Spinner.yield_style_str().contains("@keyframes sk-bouncedelay"));
    let a = Spinner.yield_style_class(&mut cache).unwrap();
    assert!(a.starts_with("fl-spinner-"));
    assert_eq!(Spinner.yield_style_class(&mut cache).unwrap(), a);
}

#[test]
fn bottom_links_row_style() {
    assert_eq!(BottomLinks.element_name(), "fl-bottom-links");
    assert!(BottomLinks.yield_style_str().contains("flex-direction: row;"));
}
