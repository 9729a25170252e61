use fl_signin::sections::{
    bottom_links, button_label, button_link, field_props, section_fields, subtitle, LinkAction,
};
use fl_signin::{
    check_value, ButtonColor, ButtonProps, CardProps, FailureReason, Field, InputType, SigninSection,
    StyleCache, YieldStyle,
};

#[test]
fn steps_show_their_fields() {
    assert_eq!(section_fields(SigninSection::Name), vec![Field::Name]);
    assert_eq!(
        section_fields(SigninSection::Signup),
        vec![Field::Name, Field::Password, Field::Email]
    );
    assert!(section_fields(SigninSection::SignupFinish).is_empty());
    assert_eq!(button_label(SigninSection::Password), "登入");
    assert_eq!(subtitle(SigninSection::Signup), "要註冊新帳戶，請填寫以下項目。");
    assert_eq!(
        bottom_links(SigninSection::Name),
        vec![LinkAction::SignUp, LinkAction::ForgotPassword]
    );
    assert_eq!(
        bottom_links(SigninSection::Otp),
        vec![LinkAction::Restart, LinkAction::ForgotPassword]
    );
    assert_eq!(bottom_links(SigninSection::Signup), vec![LinkAction::SignIn]);
    assert!(bottom_links(SigninSection::SignupFinish).is_empty());
    assert_eq!(LinkAction::SignUp.href(), Some("./signup"));
    assert_eq!(LinkAction::SignIn.href(), Some("./signin"));
    assert_eq!(LinkAction::Restart.href(), None);
    assert_eq!(LinkAction::Restart.label(), "使用其它帳戶");
    assert_eq!(LinkAction::ForgotPassword.label(), "忘記密碼");
    assert_eq!(button_link(SigninSection::SignupFinish), Some(LinkAction::SignIn));
    assert_eq!(button_link(SigninSection::Name), None);
    assert_eq!(button_label(SigninSection::SignupFinish), "繼續");
}

#[test]
fn name_field_rules() {
    let p = field_props(Field::Name);
    assert!(p.required);
    assert_eq!(p.minlength, Some(3));
    assert_eq!(p.maxlength, Some(32));
    assert_eq!(p.name.as_deref(), Some("name"));
    assert_eq!(check_value(&p, "ab").failure, Some(FailureReason::TooShort));
    assert!(check_value(&p, "abc").valid);
    assert_eq!(check_value(&p, "ab c").failure, Some(FailureReason::PatternMismatch));
}

#[test]
fn other_field_rules() {
    let pw = field_props(Field::Password);
    assert_eq!(pw.type_, InputType::Password);
    assert_eq!(check_value(&pw, "1234567").failure, Some(FailureReason::TooShort));
    assert!(check_value(&pw, "12345678").valid);
    let otp = field_props(Field::Otp);
    assert_eq!(check_value(&otp, "12345a").failure, Some(FailureReason::PatternMismatch));
    assert_eq!(check_value(&otp, "1234567").failure, Some(FailureReason::TooLong));
    assert!(check_value(&otp, "123456").valid);
    let email = field_props(Field::Email);
    assert_eq!(check_value(&email, "").failure, Some(FailureReason::ValueMissing));
    assert!(check_value(&email, "a@b.co").valid);
}

#[test]
fn card_style_text() {
    let mut p = CardProps::new();
    let s = p.style_text();
    assert!(s.ends_with("box-shadow: 0 0 10px 0 rgba(150, 150, 150, 0.8);\nmargin: 20px;\npadding: 20px;\n"));
    p.with_margin = false;
    p.with_shadow = false;
    p.max_width = Some("400px".to_string());
    p.height = Some("500px".to_string());
    let s = p.style_text();
    assert!(s.ends_with("margin: 0;\npadding: 20px;\nmax-width: 400px;\nheight: 500px;\n"));
    assert!(!s.contains("box-shadow"));
}

#[test]
fn button_style_text() {
    let mut p = ButtonProps::new();
    let s = p.style_text();
    assert!(s.contains("height: 40px;\n"));
    assert!(s.contains("background-color: rgb(92, 184, 230);\n&:hover {\n    background-color: rgb(125, 198, 235);\n}\n"));
    assert!(!s.contains("width:"));
    p.color = ButtonColor::Custom { normal: (0, 7, 255), hover: (10, 99, 100) };
    p.width = Some("100%".to_string());
    let s = p.style_text();
    assert!(s.contains("rgb(0, 7, 255)"));
    assert!(s.contains("rgb(10, 99, 100)"));
    assert!(s.ends_with("width: 100%;\n"));
}

#[test]
fn card_and_button_classes_come_from_the_cache() {
    let mut cache = StyleCache::new();
    let card = CardProps::new();
    assert_eq!(card.element_name(), "fl-card");
    let a = card.yield_style_class(&mut cache).unwrap();
    assert!(a.starts_with("fl-card-"));
    assert_eq!(card.yield_style_class(&mut cache).unwrap(), a);
    let button = ButtonProps::new();
    let b = button.yield_style_class(&mut cache).unwrap();
    assert!(b.starts_with("fl-button-"));
    assert_eq!(button.yield_style_str(), button.style_text());
    assert_eq!(cache.injection_count(), 2);
}
