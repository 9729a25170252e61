use fl_signin::wizard::{key_message, page_title};
use fl_signin::{
    Deferred, Field, InputValue, Manifest, SigninApp, SigninAppProps, SigninMsg, SigninSection,
};

fn snap(value: &str, valid: bool) -> InputValue {
    InputValue::new(value.to_string(), valid)
}

fn fire_pending(app: &mut SigninApp, effects: &fl_signin::SigninEffects) {
    let scheduled = effects.schedule.expect("a message was scheduled");
    app.update(SigninMsg::Fired(scheduled.msg));
}

#[test]
fn invalid_name_does_not_advance() {
    let mut app = SigninApp::new(SigninSection::Name);
    app.update(SigninMsg::FieldChanged(Field::Name, snap("ab", false)));
    let e = app.update(SigninMsg::AdvanceRequested);
    assert_eq!(app.section(), SigninSection::Name);
    assert!(!app.is_busy());
    assert_eq!(e.validate, vec![Field::Name]);
    assert!(e.schedule.is_none());
    assert!(!e.render);
}

#[test]
fn missing_name_does_not_advance() {
    let mut app = SigninApp::new(SigninSection::Name);
    let e = app.update(SigninMsg::AdvanceRequested);
    assert_eq!(app.section(), SigninSection::Name);
    assert!(!app.is_busy());
    assert!(e.schedule.is_none());
}

#[test]
fn valid_name_advances_to_password() {
    let mut app = SigninApp::new(SigninSection::Name);
    app.update(SigninMsg::FieldChanged(Field::Name, snap("abc", true)));
    let e = app.update(SigninMsg::AdvanceRequested);
    assert!(app.is_busy());
    assert!(app.shows_placeholder());
    assert!(e.render);
    let s = e.schedule.expect("completion scheduled");
    assert_eq!(s.delay.as_millis(), 2000);
    assert_eq!(s.msg, Deferred::StepCompleted(SigninSection::Password));
    fire_pending(&mut app, &e);
    assert_eq!(app.section(), SigninSection::Password);
    assert!(!app.is_busy());
    let r = app.resident().expect("profile attached");
    assert_eq!(r.name, "futursolo");
    assert_eq!(r.display_name.as_deref(), Some("星川かえで"));
}

#[test]
fn password_step_leads_to_otp_and_otp_never_completes() {
    let mut app = SigninApp::new(SigninSection::Password);
    app.update(SigninMsg::FieldChanged(Field::Password, snap("12345678", true)));
    let e = app.update(SigninMsg::AdvanceRequested);
    assert_eq!(e.schedule.unwrap().msg, Deferred::StepCompleted(SigninSection::Otp));
    fire_pending(&mut app, &e);
    assert_eq!(app.section(), SigninSection::Otp);
    app.update(SigninMsg::FieldChanged(Field::Otp, snap("123456", true)));
    let e = app.update(SigninMsg::AdvanceRequested);
    assert_eq!(e.validate, vec![Field::Otp]);
    assert!(e.schedule.is_none());
    assert!(!app.is_busy());
    assert_eq!(app.section(), SigninSection::Otp);
}

#[test]
fn restart_returns_to_first_step_from_each_state() {
    for busy in [false, true] {
        let mut app = SigninApp::new(SigninSection::Name);
        app.update(SigninMsg::FieldChanged(Field::Name, snap("abc", true)));
        let e = app.update(SigninMsg::AdvanceRequested);
        fire_pending(&mut app, &e);
        assert_eq!(app.section(), SigninSection::Password);
        if busy {
            app.update(SigninMsg::FieldChanged(Field::Password, snap("12345678", true)));
            app.update(SigninMsg::AdvanceRequested);
            assert!(app.is_busy());
        }
        let e = app.update(SigninMsg::Restart);
        assert!(!app.is_busy());
        assert!(app.resident().is_none());
        assert!(app.snapshot(Field::Name).is_none());
        let s = e.schedule.expect("restart deferred");
        assert_eq!(s.msg, Deferred::RestartDue);
        assert_eq!(s.delay.as_millis(), 1);
        fire_pending(&mut app, &e);
        assert_eq!(app.section(), SigninSection::Name);
        assert!(app.resident().is_none());
        assert!(!app.is_busy());
    }
}

#[test]
fn signup_needs_all_three_fields() {
    let fields = [Field::Name, Field::Email, Field::Password];
    for omitted in 0..3 {
        let mut app = SigninApp::new(SigninSection::Signup);
        for (i, f) in fields.iter().enumerate() {
            if i != omitted {
                app.update(SigninMsg::FieldChanged(*f, snap("valid1234", true)));
            }
        }
        let e = app.update(SigninMsg::AdvanceRequested);
        assert_eq!(app.section(), SigninSection::Signup);
        assert!(!app.is_busy());
        assert!(e.schedule.is_none());
        assert_eq!(e.validate, vec![Field::Name, Field::Email, Field::Password]);
    }
    let mut app = SigninApp::new(SigninSection::Signup);
    app.update(SigninMsg::FieldChanged(Field::Name, snap("abc", true)));
    app.update(SigninMsg::FieldChanged(Field::Email, snap("a@b.c", false)));
    app.update(SigninMsg::FieldChanged(Field::Password, snap("12345678", true)));
    app.update(SigninMsg::AdvanceRequested);
    assert_eq!(app.section(), SigninSection::Signup);
    app.update(SigninMsg::FieldChanged(Field::Email, snap("a@b.c", true)));
    let e = app.update(SigninMsg::AdvanceRequested);
    assert!(app.is_busy());
    assert_eq!(e.schedule.unwrap().msg, Deferred::StepCompleted(SigninSection::SignupFinish));
    fire_pending(&mut app, &e);
    assert_eq!(app.section(), SigninSection::SignupFinish);
}

#[test]
fn field_changes_are_ignored_while_busy() {
    let mut app = SigninApp::new(SigninSection::Name);
    app.update(SigninMsg::FieldChanged(Field::Name, snap("abc", true)));
    app.update(SigninMsg::AdvanceRequested);
    app.update(SigninMsg::FieldChanged(Field::Name, snap("zz", false)));
    assert_eq!(app.snapshot(Field::Name).unwrap().as_str(), "abc");
    let e = app.update(SigninMsg::AdvanceRequested);
    assert!(e.schedule.is_none());
    assert!(e.validate.is_empty());
}

#[test]
fn snapshot_is_overwritten() {
    let mut app = SigninApp::new(SigninSection::Name);
    app.update(SigninMsg::FieldChanged(Field::Name, snap("a", false)));
    app.update(SigninMsg::FieldChanged(Field::Name, snap("abcd", true)));
    let s = app.snapshot(Field::Name).unwrap();
    assert_eq!(s.to_string(), "abcd");
    assert!(s.is_valid());
}

#[test]
fn section_titles_and_card_height() {
    assert_eq!(SigninSection::Name.title(), "歡迎來到未來領域管理局");
    assert_eq!(SigninSection::Password.title(), "歡迎回來");
    assert_eq!(SigninSection::Otp.title(), "額外的安全驗證");
    assert_eq!(SigninSection::SignupFinish.title(), "註冊成功");
    assert_eq!(SigninApp::new(SigninSection::Name).card_height(), "500px");
    assert_eq!(SigninApp::new(SigninSection::Signup).card_height(), "550px");
}

#[test]
fn enter_key_asks_to_advance() {
    assert!(matches!(key_message(13), SigninMsg::AdvanceRequested));
    assert!(matches!(key_message(65), SigninMsg::Ignore));
}

#[test]
fn props_and_page_title() {
    let manifest = Manifest {
        site_title: "Futur".to_string(),
        endpoint: "/api".to_string(),
        asset_base_url: "https://example.com/".to_string(),
    };
    let mut props = SigninAppProps::from_manifest(manifest);
    assert_eq!(props.first_section, SigninSection::Name);
    props.set_first_section(SigninSection::Signup);
    assert_eq!(props.first_section, SigninSection::Signup);
    assert_eq!(props.to_title(), "登入 - Futur");
    assert_eq!(page_title(""), "登入 - ");
}
