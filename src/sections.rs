//! What each step of the wizard shows: its fields with their rules, its
//! subtitle and the label of its button.
use vstd::prelude::*;
use vstd::string::*;
use crate::field::{InputProps, InputType};
use crate::resident::opt_view;
use crate::wizard::{Field, SigninSection};

verus! {

pub const NAME_PATTERN: &'static str = "[a-zA-Z0-9]+";

pub const NAME_PATTERN_HINT: &'static str = "用戶名只能是數字和大小寫半角英文字符";

pub const OTP_PATTERN: &'static str = "[0-9]+";

pub const OTP_PATTERN_HINT: &'static str = "兩步驗證代碼只能是六位數字";

/// The text shown in place of the step while the wizard is busy.
pub const WAITING_TEXT: &'static str = "請稍候...";

/// The fields a step shows, in order.
pub open spec fn spec_shown(s: SigninSection) -> Seq<Field> {
    match s {
        SigninSection::Name => seq![Field::Name],
        SigninSection::Password => seq![Field::Password],
        SigninSection::Otp => seq![Field::Otp],
        SigninSection::Signup => seq![Field::Name, Field::Password, Field::Email],
        SigninSection::SignupFinish => Seq::empty(),
    }
}

pub fn section_fields(section: SigninSection) -> (r: Vec<Field>)
    ensures
        r@ == spec_shown(section),
{
    let r = match section {
        SigninSection::Name => vec![Field::Name],
        SigninSection::Password => vec![Field::Password],
        SigninSection::Otp => vec![Field::Otp],
        SigninSection::Signup => vec![Field::Name, Field::Password, Field::Email],
        SigninSection::SignupFinish => Vec::new(),
    };
    assert(r@ =~= spec_shown(section));
    r
}

/// The rules of a field: (type, length bounds, pattern and its hint).
pub open spec fn spec_field_rules(f: Field) -> (
    InputType,
    Option<u64>,
    Option<u64>,
    Option<Seq<char>>,
    Option<Seq<char>>,
) {
    match f {
        Field::Name => (
            InputType::Text,
            Some(3u64),
            Some(32u64),
            Some(NAME_PATTERN@),
            Some(NAME_PATTERN_HINT@),
        ),
        Field::Password => (InputType::Password, Some(8u64), None, None, None),
        Field::Otp => (
            InputType::Text,
            Some(6u64),
            Some(6u64),
            Some(OTP_PATTERN@),
            Some(OTP_PATTERN_HINT@),
        ),
        Field::Email => (InputType::Email, None, None, None, None),
    }
}

pub open spec fn spec_field_name(f: Field) -> Seq<char> {
    match f {
        Field::Name => "name"@,
        Field::Password => "password"@,
        Field::Otp => "otpcode"@,
        Field::Email => "email"@,
    }
}

/// The configuration of a field of the wizard: every field is required and
/// fills the width of the card.
pub fn field_props(f: Field) -> (r: InputProps)
    ensures
        r.required,
        (r.type_, r.minlength, r.maxlength, opt_view(r.pattern), opt_view(r.pattern_hint))
            == spec_field_rules(f),
        opt_view(r.name) == Some(spec_field_name(f)),
        r.width@ == "100%"@,
{
    let mut p = match f {
        Field::Name => {
            let mut p = InputProps::new(InputType::Text);
            p.name = Some(String::from_str("name"));
            p.placeholder = Some(String::from_str("用戶名"));
            p.minlength = Some(3);
            p.maxlength = Some(32);
            p.pattern = Some(String::from_str(NAME_PATTERN));
            p.pattern_hint = Some(String::from_str(NAME_PATTERN_HINT));
            p
        },
        Field::Password => {
            let mut p = InputProps::new(InputType::Password);
            p.name = Some(String::from_str("password"));
            p.placeholder = Some(String::from_str("密碼"));
            p.minlength = Some(8);
            p
        },
        Field::Otp => {
            let mut p = InputProps::new(InputType::Text);
            p.name = Some(String::from_str("otpcode"));
            p.placeholder = Some(String::from_str("兩步驗證代碼"));
            p.minlength = Some(6);
            p.maxlength = Some(6);
            p.pattern = Some(String::from_str(OTP_PATTERN));
            p.pattern_hint = Some(String::from_str(OTP_PATTERN_HINT));
            p
        },
        Field::Email => {
            let mut p = InputProps::new(InputType::Email);
            p.name = Some(String::from_str("email"));
            p.placeholder = Some(String::from_str("電子郵件地址"));
            p
        },
    };
    p.required = true;
    p.width = String::from_str("100%");
    p
}

pub open spec fn spec_subtitle(s: SigninSection) -> Seq<char> {
    match s {
        SigninSection::Name => "如要繼續，請輸入用戶名並點擊「下一步」。"@,
        SigninSection::Password => "如要繼續，請輸入密碼並點擊「登入」。"@,
        SigninSection::Otp => "由於你已啟用兩步驗證，你需要輸入兩步驗證代碼來完成登入。"@,
        SigninSection::Signup => "要註冊新帳戶，請填寫以下項目。"@,
        SigninSection::SignupFinish => "請點擊「繼續」來登入。"@,
    }
}

/// The line of guidance under the step's heading.
pub fn subtitle(section: SigninSection) -> (r: &'static str)
    ensures
        r@ == spec_subtitle(section),
{
    match section {
        SigninSection::Name => "如要繼續，請輸入用戶名並點擊「下一步」。",
        SigninSection::Password => "如要繼續，請輸入密碼並點擊「登入」。",
        SigninSection::Otp => "由於你已啟用兩步驗證，你需要輸入兩步驗證代碼來完成登入。",
        SigninSection::Signup => "要註冊新帳戶，請填寫以下項目。",
        SigninSection::SignupFinish => "請點擊「繼續」來登入。",
    }
}

pub open spec fn spec_button_label(s: SigninSection) -> Seq<char> {
    match s {
        SigninSection::Name => "下一步"@,
        SigninSection::Password => "登入"@,
        SigninSection::Otp => "驗證"@,
        SigninSection::Signup => "註冊"@,
        SigninSection::SignupFinish => "繼續"@,
    }
}

/// The label of the step's button.
pub fn button_label(section: SigninSection) -> (r: &'static str)
    ensures
        r@ == spec_button_label(section),
{
    match section {
        SigninSection::Name => "下一步",
        SigninSection::Password => "登入",
        SigninSection::Otp => "驗證",
        SigninSection::Signup => "註冊",
        SigninSection::SignupFinish => "繼續",
    }
}

/// What a link under the card does.
#[derive(Clone, Copy, Debug, PartialEq, Eq, Structural)]
pub enum LinkAction {
    /// Go to the sign-up page.
    SignUp,
    /// Go to the sign-in page.
    SignIn,
    /// Sign in with another account: restart the wizard.
    Restart,
    /// Recover a forgotten password; it leads nowhere yet.
    ForgotPassword,
}

pub open spec fn spec_href(a: LinkAction) -> Option<Seq<char>> {
    match a {
        LinkAction::SignUp => Some("./signup"@),
        LinkAction::SignIn => Some("./signin"@),
        _ => None,
    }
}

pub open spec fn spec_link_label(a: LinkAction) -> Seq<char> {
    match a {
        LinkAction::SignUp => "註冊新帳戶"@,
        LinkAction::SignIn => "已有帳戶？"@,
        LinkAction::Restart => "使用其它帳戶"@,
        LinkAction::ForgotPassword => "忘記密碼"@,
    }
}

impl LinkAction {
    /// The page the link leads to, where it leads to one.
    pub fn href(&self) -> (r: Option<&'static str>)
        ensures
            match r {
                Some(h) => spec_href(*self) == Some(h@),
                None => spec_href(*self) is None,
            },
    {
        match self {
            LinkAction::SignUp => Some("./signup"),
            LinkAction::SignIn => Some("./signin"),
            _ => None,
        }
    }

    pub fn label(&self) -> (r: &'static str)
        ensures
            r@ == spec_link_label(*self),
    {
        match self {
            LinkAction::SignUp => "註冊新帳戶",
            LinkAction::SignIn => "已有帳戶？",
            LinkAction::Restart => "使用其它帳戶",
            LinkAction::ForgotPassword => "忘記密碼",
        }
    }
}

/// The links under a step's button, from left to right.
pub open spec fn spec_bottom_links(s: SigninSection) -> Seq<LinkAction> {
    match s {
        SigninSection::Name => seq![LinkAction::SignUp, LinkAction::ForgotPassword],
        SigninSection::Password => seq![LinkAction::Restart, LinkAction::ForgotPassword],
        SigninSection::Otp => seq![LinkAction::Restart, LinkAction::ForgotPassword],
        SigninSection::Signup => seq![LinkAction::SignIn],
        SigninSection::SignupFinish => Seq::empty(),
    }
}

pub fn bottom_links(section: SigninSection) -> (r: Vec<LinkAction>)
    ensures
        r@ == spec_bottom_links(section),
{
    let r = match section {
        SigninSection::Name => vec![LinkAction::SignUp, LinkAction::ForgotPassword],
        SigninSection::Password => vec![LinkAction::Restart, LinkAction::ForgotPassword],
        SigninSection::Otp => vec![LinkAction::Restart, LinkAction::ForgotPassword],
        SigninSection::Signup => vec![LinkAction::SignIn],
        SigninSection::SignupFinish => Vec::new(),
    };
    assert(r@ =~= spec_bottom_links(section));
    r
}

/// Where the step's button leads instead of asking to go on: the end of
/// sign-up sends the person to the sign-in page.
pub fn button_link(section: SigninSection) -> (r: Option<LinkAction>)
    ensures
        r == (if section == SigninSection::SignupFinish {
            Some(LinkAction::SignIn)
        } else {
            None
        }),
{
    if matches!(section, SigninSection::SignupFinish) {
        Some(LinkAction::SignIn)
    } else {
        None
    }
}

} // verus!
