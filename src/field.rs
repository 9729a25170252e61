//! One text field: the rules its value must meet, the snapshot it reports,
//! and the controller that decides when the field shows itself as invalid.
use vstd::prelude::*;
use vstd::string::*;
use crate::pattern::{found, regex_search, search};
use crate::style_cache::YieldStyle;

verus! {

/// The shape a value of an email field must have.
pub const EMAIL_PATTERN: &'static str = "^[a-zA-Z0-9.!#$%&'*+/=?^_`{|}~-]+@[a-zA-Z0-9](?:[a-zA-Z0-9-]{0,61}[a-zA-Z0-9])?(?:\\.[a-zA-Z0-9](?:[a-zA-Z0-9-]{0,61}[a-zA-Z0-9])?)*$";

/// The last value a field reported, with whether it met the field's rules.
#[derive(Clone, Debug, PartialEq)]
pub struct InputValue {
    value: String,
    is_valid: bool,
}

impl View for InputValue {
    type V = (Seq<char>, bool);

    closed spec fn view(&self) -> (Seq<char>, bool) {
        (self.value@, self.is_valid)
    }
}

impl InputValue {
    pub fn new(value: String, is_valid: bool) -> (r: InputValue)
        ensures
            r@ == (value@, is_valid),
    {
        InputValue { value, is_valid }
    }

    pub fn into_string(self) -> (r: String)
        ensures
            r@ == self@.0,
    {
        self.value
    }

    pub fn is_valid(&self) -> (r: bool)
        ensures
            r == self@.1,
    {
        self.is_valid
    }

    pub fn as_str(&self) -> (r: &str)
        ensures
            r@ == self@.0,
    {
        self.value.as_str()
    }

    pub fn to_string(&self) -> (r: String)
        ensures
            r@ == self@.0,
    {
        self.value.clone()
    }
}

#[derive(Clone, Copy, Debug, PartialEq, Eq, Structural)]
pub enum InputType {
    Text,
    Password,
    Email,
}

impl InputType {
    pub fn type_str(&self) -> (r: &'static str)
        ensures
            r@ == self.spec_type_str(),
    {
        match self {
            InputType::Text => "text",
            InputType::Password => "password",
            InputType::Email => "email",
        }
    }

    pub open spec fn spec_type_str(&self) -> Seq<char> {
        match self {
            InputType::Text => "text"@,
            InputType::Password => "password"@,
            InputType::Email => "email"@,
        }
    }
}

/// Why a value fails its field's rules, in the order the rules are checked.
#[derive(Clone, Copy, Debug, PartialEq, Eq, Structural)]
pub enum FailureReason {
    ValueMissing,
    TypeMismatch,
    PatternMismatch,
    TooLong,
    TooShort,
}

/// The outcome of checking a value against a field's rules.
#[derive(Clone, Copy, Debug, PartialEq, Eq, Structural)]
pub struct ValidationResult {
    pub valid: bool,
    pub failure: Option<FailureReason>,
}

/// The configuration of a field: its validation rules and how it is shown.
#[derive(Clone, Debug, PartialEq)]
pub struct InputProps {
    pub value: Option<String>,
    pub type_: InputType,
    pub height: String,
    pub width: String,
    pub pattern_hint: Option<String>,
    pub disabled: bool,
    pub required: bool,
    pub readonly: bool,
    pub autofocus: bool,
    pub maxlength: Option<u64>,
    pub minlength: Option<u64>,
    pub pattern: Option<String>,
    pub placeholder: Option<String>,
    pub spellcheck: Option<bool>,
    pub autocomplete: Option<bool>,
    pub name: Option<String>,
    pub tabindex: Option<u64>,
    pub title: Option<String>,
}

impl InputProps {
    /// A field of the given type with no rules, 40px high and 400px wide.
    pub fn new(type_: InputType) -> (r: InputProps)
        ensures
            r.type_ == type_,
            !r.required,
            r.minlength is None,
            r.maxlength is None,
            r.pattern is None,
            r.pattern_hint is None,
            r.height@ == "40px"@,
            r.width@ == "400px"@,
    {
        InputProps {
            value: None,
            type_,
            height: String::from_str("40px"),
            width: String::from_str("400px"),
            pattern_hint: None,
            disabled: false,
            required: false,
            readonly: false,
            autofocus: false,
            maxlength: None,
            minlength: None,
            pattern: None,
            placeholder: None,
            spellcheck: None,
            autocomplete: None,
            name: None,
            tabindex: None,
            title: None,
        }
    }
}

/// A field pattern applies to the whole value.
pub open spec fn anchored(pattern: Seq<char>) -> Seq<char> {
    "^(?:"@ + pattern + ")$"@
}

/// A non-empty value that a pattern which compiles does not match whole.
pub open spec fn pattern_mismatch(pattern: Option<String>, v: Seq<char>) -> bool {
    match pattern {
        Some(p) => v.len() > 0 && regex_search(anchored(p@), v) == Some(false),
        None => false,
    }
}

/// The first rule of `props` that `v` breaks.
pub open spec fn failure_of(props: InputProps, v: Seq<char>) -> Option<FailureReason> {
    if props.required && v.len() == 0 {
        Some(FailureReason::ValueMissing)
    } else if props.type_ == InputType::Email && v.len() > 0 && !found(EMAIL_PATTERN@, v) {
        Some(FailureReason::TypeMismatch)
    } else if pattern_mismatch(props.pattern, v) {
        Some(FailureReason::PatternMismatch)
    } else if props.maxlength is Some && v.len() > props.maxlength.unwrap() {
        Some(FailureReason::TooLong)
    } else if props.minlength is Some && v.len() > 0 && v.len() < props.minlength.unwrap() {
        Some(FailureReason::TooShort)
    } else {
        None
    }
}

pub open spec fn valid_for(props: InputProps, v: Seq<char>) -> bool {
    failure_of(props, v) is None
}

fn matches_pattern_whole(pattern: &String, value: &str) -> (r: bool)
    ensures
        r == (regex_search(anchored(pattern@), value@) != Some(false)),
{
    let mut full = String::from_str("^(?:");
    full.append(pattern.as_str());
    full.append(")$");
    match search(full.as_str(), value) {
        Some(false) => false,
        _ => true,
    }
}

/// Checks `value` against the rules of `props`.
pub fn check_value(props: &InputProps, value: &str) -> (r: ValidationResult)
    ensures
        r.failure == failure_of(*props, value@),
        r.valid == (r.failure is None),
{
    let len = value.unicode_len();
    let failure = if props.required && len == 0 {
        Some(FailureReason::ValueMissing)
    } else if matches!(props.type_, InputType::Email) && len > 0 && search(EMAIL_PATTERN, value)
        != Some(true) {
        Some(FailureReason::TypeMismatch)
    } else if match &props.pattern {
        Some(p) => len > 0 && !matches_pattern_whole(p, value),
        None => false,
    } {
        Some(FailureReason::PatternMismatch)
    } else if match props.maxlength {
        Some(max) => len as u64 > max,
        None => false,
    } {
        Some(FailureReason::TooLong)
    } else if match props.minlength {
        Some(min) => len > 0 && (len as u64) < min,
        None => false,
    } {
        Some(FailureReason::TooShort)
    } else {
        None
    };
    ValidationResult { valid: failure.is_none(), failure }
}

} // verus!

verus! {

/// What a field controller can be told.
#[derive(Clone, Debug)]
pub enum InputMsg {
    /// The field gained keyboard focus.
    Focus,
    /// The field's text changed to the given value.
    Input(String),
    /// Check the value now and show the outcome.
    Validate,
    /// Show the field as invalid, with the given message.
    BecomeInvalid(String),
}

/// The abstract state of a field controller.
pub struct InputState {
    pub value: Seq<char>,
    /// Whether the field is shown as invalid.
    pub invalid: bool,
    /// Set by a forced check that failed: the next focus keeps the invalid look.
    pub keep_on_focus: bool,
}

/// What the host must do after a controller handled a message.
#[derive(Clone, Debug)]
pub struct InputEffects {
    /// Whether the field must be drawn again.
    pub render: bool,
    /// A snapshot to hand to the field's owner.
    pub emit: Option<InputValue>,
    /// The message to set as the field's custom validity message.
    pub custom_validity: Option<String>,
}

pub struct InputEffectsView {
    pub render: bool,
    pub emit: Option<(Seq<char>, bool)>,
    pub custom_validity: Option<Seq<char>>,
}

impl View for InputEffects {
    type V = InputEffectsView;

    open spec fn view(&self) -> InputEffectsView {
        InputEffectsView {
            render: self.render,
            emit: match self.emit {
                Some(v) => Some(v@),
                None => None,
            },
            custom_validity: match self.custom_validity {
                Some(m) => Some(m@),
                None => None,
            },
        }
    }
}

/// The custom validity message for `v`: the pattern hint where the pattern
/// is the rule broken, and no message otherwise.
pub open spec fn custom_message(props: InputProps, v: Seq<char>) -> Seq<char> {
    if failure_of(props, v) == Some(FailureReason::PatternMismatch) {
        match props.pattern_hint {
            Some(h) => h@,
            None => Seq::empty(),
        }
    } else {
        Seq::empty()
    }
}

/// The state of a controller after it handled `msg`.
pub open spec fn input_next(s: InputState, props: InputProps, msg: InputMsg) -> InputState {
    match msg {
        InputMsg::Focus => if s.keep_on_focus {
            InputState { keep_on_focus: false, ..s }
        } else {
            InputState { invalid: false, ..s }
        },
        InputMsg::Input(v) => InputState {
            value: v@,
            invalid: s.invalid && !valid_for(props, v@),
            ..s
        },
        InputMsg::Validate => InputState {
            invalid: !valid_for(props, s.value),
            keep_on_focus: !valid_for(props, s.value),
            ..s
        },
        InputMsg::BecomeInvalid(_) => InputState { invalid: true, ..s },
    }
}

/// What the host must do after a controller in state `s` handled `msg`.
pub open spec fn input_effects(s: InputState, props: InputProps, msg: InputMsg) -> InputEffectsView {
    match msg {
        InputMsg::Focus => InputEffectsView { render: true, emit: None, custom_validity: None },
        InputMsg::Input(v) => InputEffectsView {
            render: s.invalid && valid_for(props, v@),
            emit: Some((v@, valid_for(props, v@))),
            custom_validity: Some(custom_message(props, v@)),
        },
        InputMsg::Validate => InputEffectsView {
            render: true,
            emit: Some((s.value, valid_for(props, s.value))),
            custom_validity: Some(custom_message(props, s.value)),
        },
        InputMsg::BecomeInvalid(m) => InputEffectsView {
            render: true,
            emit: None,
            custom_validity: Some(m@),
        },
    }
}

/// Controller of one text field: it checks each new value, reports a snapshot
/// to the field's owner, and shows the field as invalid only after a forced
/// check failed.
#[derive(Clone, Debug)]
pub struct Input {
    props: InputProps,
    value: String,
    invalid: bool,
    focus_after_report_validity: bool,
}

impl View for Input {
    type V = InputState;

    closed spec fn view(&self) -> InputState {
        InputState {
            value: self.value@,
            invalid: self.invalid,
            keep_on_focus: self.focus_after_report_validity,
        }
    }
}

impl Input {
    pub closed spec fn spec_props(&self) -> InputProps {
        self.props
    }

    /// A controller for an empty field that is not shown as invalid.
    pub fn new(props: InputProps) -> (r: Input)
        ensures
            r.spec_props() == props,
            r@.value == Seq::<char>::empty(),
            !r@.invalid,
            !r@.keep_on_focus,
    {
        Input { props, value: String::new(), invalid: false, focus_after_report_validity: false }
    }

    pub fn props(&self) -> (r: &InputProps)
        ensures
            *r == self.spec_props(),
    {
        &self.props
    }

    pub fn value(&self) -> (r: &str)
        ensures
            r@ == self@.value,
    {
        self.value.as_str()
    }

    /// Whether the field is shown as invalid.
    pub fn is_invalid(&self) -> (r: bool)
        ensures
            r == self@.invalid,
    {
        self.invalid
    }

    fn custom_message_for(&self, check: &ValidationResult) -> (r: String)
        requires
            check.failure == failure_of(self.spec_props(), self@.value),
        ensures
            r@ == custom_message(self.spec_props(), self@.value),
    {
        match check.failure {
            Some(FailureReason::PatternMismatch) => match &self.props.pattern_hint {
                Some(h) => h.clone(),
                None => String::new(),
            },
            _ => String::new(),
        }
    }

    /// Handles one message and says what the host must do.
    pub fn update(&mut self, msg: InputMsg) -> (r: InputEffects)
        ensures
            final(self).spec_props() == old(self).spec_props(),
            final(self)@ == input_next(old(self)@, old(self).spec_props(), msg),
            r@ == input_effects(old(self)@, old(self).spec_props(), msg),
    {
        match msg {
            InputMsg::Focus => {
                if self.focus_after_report_validity {
                    self.focus_after_report_validity = false;
                } else {
                    self.invalid = false;
                }
                InputEffects { render: true, emit: None, custom_validity: None }
            },
            InputMsg::Input(v) => {
                let check = check_value(&self.props, v.as_str());
                let render = self.invalid && check.valid;
                if check.valid {
                    self.invalid = false;
                }
                self.value = v;
                let custom = self.custom_message_for(&check);
                let emit = InputValue::new(self.value.clone(), check.valid);
                InputEffects { render, emit: Some(emit), custom_validity: Some(custom) }
            },
            InputMsg::Validate => {
                let check = check_value(&self.props, self.value.as_str());
                self.invalid = !check.valid;
                self.focus_after_report_validity = !check.valid;
                let custom = self.custom_message_for(&check);
                let emit = InputValue::new(self.value.clone(), check.valid);
                InputEffects { render: true, emit: Some(emit), custom_validity: Some(custom) }
            },
            InputMsg::BecomeInvalid(m) => {
                self.invalid = true;
                InputEffects { render: true, emit: None, custom_validity: Some(m) }
            },
        }
    }

    /// Forces a check of the current value and shows its outcome.
    pub fn trigger_validation(&mut self) -> (r: InputEffects)
        ensures
            final(self).spec_props() == old(self).spec_props(),
            final(self)@ == input_next(old(self)@, old(self).spec_props(), InputMsg::Validate),
            r@ == input_effects(old(self)@, old(self).spec_props(), InputMsg::Validate),
    {
        self.update(InputMsg::Validate)
    }
}

} // verus!

verus! {

/// A forced check of an empty required field shows the field as invalid and
/// asks for a redraw; the focus that follows keeps the invalid look, and a
/// later keystroke that gives a valid value clears it.
pub proof fn lemma_forced_failure_survives_focus(s: InputState, props: InputProps, typed: String)
    requires
        props.required,
        s.value.len() == 0,
        valid_for(props, typed@),
    ensures
        input_next(s, props, InputMsg::Validate).invalid,
        input_effects(s, props, InputMsg::Validate).render,
        input_next(input_next(s, props, InputMsg::Validate), props, InputMsg::Focus).invalid,
        !input_next(
            input_next(input_next(s, props, InputMsg::Validate), props, InputMsg::Focus),
            props,
            InputMsg::Input(typed),
        ).invalid,
{
}

} // verus!

verus! {

/// The element name under which field styles are registered.
pub const INPUT_ELEMENT: &'static str = "fl-input";

pub const INPUT_BASE_STYLE: &'static str = "border-radius: 500px;\nborder: 1px solid rgb(150, 150, 150);\nbox-sizing: border-box;\npadding-left: 20px;\npadding-right: 20px;\noutline: 0;\ntransition: box-shadow 0.20s, border-color 0.20s, background-color 0.20s;\nfont-size: 1rem;\n-webkit-appearance: none;\n";

/// The red outline of a field shown as invalid.
pub const INPUT_INVALID_STYLE: &'static str = "border-color: rgb(238, 82, 26);\nbox-shadow: 0 0 0 2px rgba(238, 82, 26, 1);\nbackground-color: rgb(254, 237, 234);\n";

pub const INPUT_VALID_STYLE: &'static str = "box-shadow: 0 0 0 2px rgba(125, 198, 235, 0);\nbackground-color: rgb(255, 255, 255);\n&:hover {\n    border-color: rgb(100, 100, 100);\n}\n&:focus {\n    border-color: rgb(125, 198, 235);\n    box-shadow: 0 0 0 2px rgba(125, 198, 235, 1);\n}\n";

/// The style text of a field of the given size, shown as invalid or not.
pub open spec fn spec_input_style(height: Seq<char>, width: Seq<char>, invalid: bool) -> Seq<char> {
    "height: "@ + height + ";\nwidth: "@ + width + ";\n"@ + INPUT_BASE_STYLE@ + (if invalid {
        INPUT_INVALID_STYLE@
    } else {
        INPUT_VALID_STYLE@
    })
}

impl Input {
    /// The style text of the field in its current state.
    pub fn style_text(&self) -> (r: String)
        ensures
            r@ == spec_input_style(self.spec_props().height@, self.spec_props().width@, self@.invalid),
    {
        let mut s = String::from_str("height: ");
        s.append(self.props.height.as_str());
        s.append(";\nwidth: ");
        s.append(self.props.width.as_str());
        s.append(";\n");
        s.append(INPUT_BASE_STYLE);
        if self.invalid {
            s.append(INPUT_INVALID_STYLE);
        } else {
            s.append(INPUT_VALID_STYLE);
        }
        assert(s@ =~= spec_input_style(self.props.height@, self.props.width@, self.invalid));
        s
    }
}

impl YieldStyle for Input {
    open spec fn spec_element_name(&self) -> Seq<char> {
        INPUT_ELEMENT@
    }

    open spec fn spec_style(&self) -> Seq<char> {
        spec_input_style(self.spec_props().height@, self.spec_props().width@, self@.invalid)
    }

    fn element_name(&self) -> (r: String) {
        String::from_str(INPUT_ELEMENT)
    }

    fn yield_style_str(&self) -> (r: String) {
        self.style_text()
    }
}

} // verus!
