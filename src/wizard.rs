//! The sign-in / sign-up wizard: which step is shown, the snapshots the
//! fields reported, the busy flag, and the profile once a step completed.
use vstd::prelude::*;
use vstd::string::*;
use crate::field::InputValue;
use crate::manifest::Manifest;
use crate::resident::{ResidentView, SigninResident};
use crate::time::Duration;

verus! {

/// How long the stand-in for a network round trip lasts, in milliseconds.
pub const COMPLETION_DELAY_MS: u64 = 2000;

/// How long a restart waits before it shows the first step, in milliseconds.
pub const RESTART_DELAY_MS: u64 = 1;

/// The key code of the Enter key.
pub const ENTER_KEY: u32 = 13;

pub const CANNED_NAME: &'static str = "futursolo";

pub const CANNED_DISPLAY_NAME: &'static str = "星川かえで";

pub const CANNED_AVATAR_URL: &'static str = "https://www.gravatar.com/avatar/0dd494a963ae648caebe34288b664ca6?s=200&d=mp";

/// One screen of the wizard.
#[derive(Clone, Copy, Debug, PartialEq, Eq, Structural)]
pub enum SigninSection {
    Name,
    Password,
    Otp,
    Signup,
    SignupFinish,
}

/// A field whose snapshot the wizard keeps.
#[derive(Clone, Copy, Debug, PartialEq, Eq, Structural)]
pub enum Field {
    Name,
    Password,
    Email,
    Otp,
}

/// The step that a completed step leads to; the one-time-passcode step and
/// the end of sign-up lead nowhere.
pub open spec fn spec_next(s: SigninSection) -> Option<SigninSection> {
    match s {
        SigninSection::Name => Some(SigninSection::Password),
        SigninSection::Password => Some(SigninSection::Otp),
        SigninSection::Otp => None,
        SigninSection::Signup => Some(SigninSection::SignupFinish),
        SigninSection::SignupFinish => None,
    }
}

/// The fields that must hold a valid snapshot before a step may advance.
pub open spec fn spec_required(s: SigninSection) -> Seq<Field> {
    match s {
        SigninSection::Name => seq![Field::Name],
        SigninSection::Password => seq![Field::Password],
        SigninSection::Otp => seq![Field::Otp],
        SigninSection::Signup => seq![Field::Name, Field::Email, Field::Password],
        SigninSection::SignupFinish => Seq::empty(),
    }
}

pub open spec fn spec_title(s: SigninSection) -> Seq<char> {
    match s {
        SigninSection::Name => "歡迎來到未來領域管理局"@,
        SigninSection::Password => "歡迎回來"@,
        SigninSection::Otp => "額外的安全驗證"@,
        SigninSection::Signup => "歡迎來到未來領域管理局"@,
        SigninSection::SignupFinish => "註冊成功"@,
    }
}

impl SigninSection {
    /// The heading shown above the step.
    pub fn title(&self) -> (r: &'static str)
        ensures
            r@ == spec_title(*self),
    {
        match self {
            SigninSection::Name => "歡迎來到未來領域管理局",
            SigninSection::Password => "歡迎回來",
            SigninSection::Otp => "額外的安全驗證",
            SigninSection::Signup => "歡迎來到未來領域管理局",
            SigninSection::SignupFinish => "註冊成功",
        }
    }

    pub fn next_section(&self) -> (r: Option<SigninSection>)
        ensures
            r == spec_next(*self),
    {
        match self {
            SigninSection::Name => Some(SigninSection::Password),
            SigninSection::Password => Some(SigninSection::Otp),
            SigninSection::Otp => None,
            SigninSection::Signup => Some(SigninSection::SignupFinish),
            SigninSection::SignupFinish => None,
        }
    }

    pub fn required_fields(&self) -> (r: Vec<Field>)
        ensures
            r@ == spec_required(*self),
    {
        let r = match self {
            SigninSection::Name => vec![Field::Name],
            SigninSection::Password => vec![Field::Password],
            SigninSection::Otp => vec![Field::Otp],
            SigninSection::Signup => vec![Field::Name, Field::Email, Field::Password],
            SigninSection::SignupFinish => Vec::new(),
        };
        assert(r@ =~= spec_required(*self));
        r
    }
}

/// A message that the wizard asks to receive again after a delay.
#[derive(Clone, Copy, Debug, PartialEq, Eq, Structural)]
pub enum Deferred {
    /// The simulated round trip for the step ended: show the given step.
    StepCompleted(SigninSection),
    /// The pause of a restart ended: show the first step.
    RestartDue,
}

/// What the wizard can be told.
#[derive(Clone, Debug)]
pub enum SigninMsg {
    /// A field reported a new snapshot.
    FieldChanged(Field, InputValue),
    /// The person asked to go on from the current step.
    AdvanceRequested,
    /// A delayed message came due.
    Fired(Deferred),
    /// Go back to the first step and forget everything entered.
    Restart,
    Ignore,
}

/// A request to hand `msg` back to the wizard after `delay`.
#[derive(Clone, Copy, Debug)]
pub struct Scheduled {
    pub delay: Duration,
    pub msg: Deferred,
}

/// What the host must do after the wizard handled a message.
#[derive(Clone, Debug)]
pub struct SigninEffects {
    /// Whether the view must be drawn again.
    pub render: bool,
    /// Fields whose controllers must run a forced check, in this order.
    pub validate: Vec<Field>,
    /// A message to deliver later.
    pub schedule: Option<Scheduled>,
}

pub struct SigninEffectsView {
    pub render: bool,
    pub validate: Seq<Field>,
    /// The delay in microseconds and the message.
    pub schedule: Option<(nat, Deferred)>,
}

impl View for SigninEffects {
    type V = SigninEffectsView;

    open spec fn view(&self) -> SigninEffectsView {
        SigninEffectsView {
            render: self.render,
            validate: self.validate@,
            schedule: match self.schedule {
                Some(s) => Some((s.delay.spec_micros(), s.msg)),
                None => None,
            },
        }
    }
}

/// The abstract state of the wizard.
pub struct SigninModel {
    pub first: SigninSection,
    pub section: SigninSection,
    pub busy: bool,
    pub identity: Option<ResidentView>,
    /// The last snapshot of each field, as (value, valid).
    pub snapshots: Map<Field, (Seq<char>, bool)>,
}

pub open spec fn canned_identity() -> ResidentView {
    ResidentView {
        name: CANNED_NAME@,
        display_name: Some(CANNED_DISPLAY_NAME@),
        avatar_url: Some(CANNED_AVATAR_URL@),
    }
}

/// Field `f` holds a snapshot that is valid.
pub open spec fn valid_snapshot(snapshots: Map<Field, (Seq<char>, bool)>, f: Field) -> bool {
    snapshots.contains_key(f) && snapshots[f].1
}

/// Every field of `fields` holds a snapshot that is valid.
pub open spec fn all_valid(snapshots: Map<Field, (Seq<char>, bool)>, fields: Seq<Field>) -> bool {
    forall|i: int| 0 <= i < fields.len() ==> #[trigger] valid_snapshot(snapshots, fields[i])
}

/// Whether a request to go on from the current step is taken up.
pub open spec fn advance_accepted(s: SigninModel) -> bool {
    !s.busy && spec_next(s.section) is Some && all_valid(s.snapshots, spec_required(s.section))
}

/// The state of the wizard after it handled `msg`.
pub open spec fn signin_next(s: SigninModel, msg: SigninMsg) -> SigninModel {
    match msg {
        SigninMsg::FieldChanged(f, v) => if s.busy {
            s
        } else {
            SigninModel { snapshots: s.snapshots.insert(f, v@), ..s }
        },
        SigninMsg::AdvanceRequested => if advance_accepted(s) {
            SigninModel { busy: true, ..s }
        } else {
            s
        },
        SigninMsg::Fired(Deferred::StepCompleted(n)) => SigninModel {
            section: n,
            busy: false,
            identity: Some(canned_identity()),
            ..s
        },
        SigninMsg::Fired(Deferred::RestartDue) => SigninModel { section: s.first, busy: false, ..s },
        SigninMsg::Restart => SigninModel {
            busy: false,
            identity: None,
            snapshots: Map::empty(),
            ..s
        },
        SigninMsg::Ignore => s,
    }
}

pub open spec fn no_effects() -> SigninEffectsView {
    SigninEffectsView { render: false, validate: Seq::empty(), schedule: None }
}

/// What the host must do after the wizard in state `s` handled `msg`.
pub open spec fn signin_effects(s: SigninModel, msg: SigninMsg) -> SigninEffectsView {
    match msg {
        SigninMsg::AdvanceRequested => if s.busy {
            no_effects()
        } else if advance_accepted(s) {
            SigninEffectsView {
                render: true,
                validate: spec_required(s.section),
                schedule: Some(
                    (
                        (COMPLETION_DELAY_MS * 1000) as nat,
                        Deferred::StepCompleted(spec_next(s.section).unwrap()),
                    ),
                ),
            }
        } else {
            SigninEffectsView { validate: spec_required(s.section), ..no_effects() }
        },
        SigninMsg::Fired(_) => SigninEffectsView { render: true, ..no_effects() },
        SigninMsg::Restart => SigninEffectsView {
            schedule: Some(((RESTART_DELAY_MS * 1000) as nat, Deferred::RestartDue)),
            ..no_effects()
        },
        _ => no_effects(),
    }
}

/// The wizard: the step shown, the busy flag, the profile, and the last
/// snapshot of each field.
#[derive(Clone, Debug)]
pub struct SigninApp {
    first_section: SigninSection,
    section: SigninSection,
    busy: bool,
    resident: Option<SigninResident>,
    name_input_val: Option<InputValue>,
    password_input_val: Option<InputValue>,
    email_input_val: Option<InputValue>,
    otp_input_val: Option<InputValue>,
}

impl SigninApp {
    pub closed spec fn slot(&self, f: Field) -> Option<InputValue> {
        match f {
            Field::Name => self.name_input_val,
            Field::Password => self.password_input_val,
            Field::Email => self.email_input_val,
            Field::Otp => self.otp_input_val,
        }
    }
}

impl View for SigninApp {
    type V = SigninModel;

    closed spec fn view(&self) -> SigninModel {
        SigninModel {
            first: self.first_section,
            section: self.section,
            busy: self.busy,
            identity: match self.resident {
                Some(r) => Some(r@),
                None => None,
            },
            snapshots: Map::new(|f: Field| self.slot(f) is Some, |f: Field| self.slot(f).unwrap()@),
        }
    }
}

impl SigninApp {
    /// A wizard that shows `first_section`, with nothing entered yet.
    pub fn new(first_section: SigninSection) -> (r: SigninApp)
        ensures
            r@.first == first_section,
            r@.section == first_section,
            !r@.busy,
            r@.identity is None,
            r@.snapshots == Map::<Field, (Seq<char>, bool)>::empty(),
    {
        let r = SigninApp {
            first_section,
            section: first_section,
            busy: false,
            resident: None,
            name_input_val: None,
            password_input_val: None,
            email_input_val: None,
            otp_input_val: None,
        };
        assert(r@.snapshots =~= Map::<Field, (Seq<char>, bool)>::empty());
        r
    }

    pub fn first_section(&self) -> (r: SigninSection)
        ensures
            r == self@.first,
    {
        self.first_section
    }

    pub fn section(&self) -> (r: SigninSection)
        ensures
            r == self@.section,
    {
        self.section
    }

    pub fn is_busy(&self) -> (r: bool)
        ensures
            r == self@.busy,
    {
        self.busy
    }

    /// The profile, once a step completed.
    pub fn resident(&self) -> (r: Option<&SigninResident>)
        ensures
            match r {
                Some(p) => self@.identity == Some(p@),
                None => self@.identity is None,
            },
    {
        match &self.resident {
            Some(p) => Some(p),
            None => None,
        }
    }

    /// The last snapshot that `f` reported.
    pub fn snapshot(&self, f: Field) -> (r: Option<&InputValue>)
        ensures
            match r {
                Some(v) => self@.snapshots.contains_key(f) && self@.snapshots[f] == v@,
                None => !self@.snapshots.contains_key(f),
            },
    {
        match f {
            Field::Name => self.name_input_val.as_ref(),
            Field::Password => self.password_input_val.as_ref(),
            Field::Email => self.email_input_val.as_ref(),
            Field::Otp => self.otp_input_val.as_ref(),
        }
    }

    /// While busy the view shows a waiting placeholder instead of the step.
    pub fn shows_placeholder(&self) -> (r: bool)
        ensures
            r == self@.busy,
    {
        self.busy
    }

    /// The height of the card: taller where the wizard does not open on the
    /// name step.
    pub fn card_height(&self) -> (r: &'static str)
        ensures
            r@ == (if self@.first == SigninSection::Name {
                "500px"@
            } else {
                "550px"@
            }),
    {
        if matches!(self.first_section, SigninSection::Name) {
            "500px"
        } else {
            "550px"
        }
    }

    fn field_valid(&self, f: Field) -> (r: bool)
        ensures
            r == valid_snapshot(self@.snapshots, f),
    {
        match self.snapshot(f) {
            Some(v) => v.is_valid(),
            None => false,
        }
    }

    fn fields_valid(&self, fields: &Vec<Field>) -> (r: bool)
        ensures
            r == all_valid(self@.snapshots, fields@),
    {
        let mut i: usize = 0;
        while i < fields.len()
            invariant
                i <= fields@.len(),
                forall|j: int| 0 <= j < i ==> #[trigger] valid_snapshot(self@.snapshots, fields@[j]),
            decreases fields@.len() - i,
        {
            if !self.field_valid(fields[i]) {
                return false;
            }
            i = i + 1;
        }
        true
    }

    fn store(&mut self, f: Field, v: InputValue)
        ensures
            final(self)@ == (SigninModel { snapshots: old(self)@.snapshots.insert(f, v@), ..old(self)@ }),
    {
        match f {
            Field::Name => self.name_input_val = Some(v),
            Field::Password => self.password_input_val = Some(v),
            Field::Email => self.email_input_val = Some(v),
            Field::Otp => self.otp_input_val = Some(v),
        }
        assert(self@.snapshots =~= old(self)@.snapshots.insert(f, v@));
    }

    fn advance(&mut self) -> (r: SigninEffects)
        ensures
            final(self)@ == signin_next(old(self)@, SigninMsg::AdvanceRequested),
            r@ == signin_effects(old(self)@, SigninMsg::AdvanceRequested),
    {
        if self.busy {
            return SigninEffects { render: false, validate: Vec::new(), schedule: None };
        }
        let validate = self.section.required_fields();
        let valid = self.fields_valid(&validate);
        match self.section.next_section() {
            Some(next) => {
                if valid {
                    self.busy = true;
                    let r = SigninEffects {
                        render: true,
                        validate,
                        schedule: Some(
                            Scheduled {
                                delay: Duration::from_millis(COMPLETION_DELAY_MS),
                                msg: Deferred::StepCompleted(next),
                            },
                        ),
                    };
                    proof {
                        assert(self@.snapshots =~= old(self)@.snapshots);
                    }
                    r
                } else {
                    SigninEffects { render: false, validate, schedule: None }
                }
            },
            None => SigninEffects { render: false, validate, schedule: None },
        }
    }

    /// Handles one message and says what the host must do.
    pub fn update(&mut self, msg: SigninMsg) -> (r: SigninEffects)
        ensures
            final(self)@ == signin_next(old(self)@, msg),
            r@ == signin_effects(old(self)@, msg),
    {
        match msg {
            SigninMsg::FieldChanged(f, v) => {
                if !self.busy {
                    self.store(f, v);
                }
                SigninEffects { render: false, validate: Vec::new(), schedule: None }
            },
            SigninMsg::AdvanceRequested => self.advance(),
            SigninMsg::Fired(Deferred::StepCompleted(next)) => {
                self.section = next;
                self.busy = false;
                self.resident = Some(
                    SigninResident {
                        name: String::from_str(CANNED_NAME),
                        display_name: Some(String::from_str(CANNED_DISPLAY_NAME)),
                        avatar_url: Some(String::from_str(CANNED_AVATAR_URL)),
                    },
                );
                proof {
                    assert(self@.snapshots =~= old(self)@.snapshots);
                }
                SigninEffects { render: true, validate: Vec::new(), schedule: None }
            },
            SigninMsg::Fired(Deferred::RestartDue) => {
                self.section = self.first_section;
                self.busy = false;
                proof {
                    assert(self@.snapshots =~= old(self)@.snapshots);
                }
                SigninEffects { render: true, validate: Vec::new(), schedule: None }
            },
            SigninMsg::Restart => {
                self.busy = false;
                self.resident = None;
                self.name_input_val = None;
                self.password_input_val = None;
                self.email_input_val = None;
                self.otp_input_val = None;
                proof {
                    assert(self@.snapshots =~= Map::<Field, (Seq<char>, bool)>::empty());
                }
                SigninEffects {
                    render: false,
                    validate: Vec::new(),
                    schedule: Some(
                        Scheduled {
                            delay: Duration::from_millis(RESTART_DELAY_MS),
                            msg: Deferred::RestartDue,
                        },
                    ),
                }
            },
            SigninMsg::Ignore => SigninEffects {
                render: false,
                validate: Vec::new(),
                schedule: None,
            },
        }
    }
}

/// What the wizard is started with: the site manifest and the first step.
#[derive(Clone, Debug, PartialEq)]
pub struct SigninAppProps {
    pub manifest: Manifest,
    pub first_section: SigninSection,
}

impl SigninAppProps {
    /// Props that open on the name step.
    pub fn from_manifest(manifest: Manifest) -> (r: SigninAppProps)
        ensures
            r.manifest == manifest,
            r.first_section == SigninSection::Name,
    {
        SigninAppProps { manifest, first_section: SigninSection::Name }
    }

    pub fn set_first_section(&mut self, section: SigninSection)
        ensures
            final(self).first_section == section,
            final(self).manifest == old(self).manifest,
    {
        self.first_section = section;
    }

    /// The title of the page: "登入 - " followed by the site's title.
    pub fn to_title(&self) -> (r: String)
        ensures
            r@ == "登入 - "@ + self.manifest.site_title@,
    {
        page_title(self.manifest.site_title.as_str())
    }
}

/// The message a key release in a field of the wizard stands for: Enter asks
/// to go on, any other key is ignored.
pub fn key_message(key_code: u32) -> (r: SigninMsg)
    ensures
        key_code == ENTER_KEY ==> (r is AdvanceRequested),
        key_code != ENTER_KEY ==> (r is Ignore),
{
    if key_code == ENTER_KEY {
        SigninMsg::AdvanceRequested
    } else {
        SigninMsg::Ignore
    }
}

/// The page title for a site: "登入 - " followed by the site's title.
pub fn page_title(site_title: &str) -> (r: String)
    ensures
        r@ == "登入 - "@ + site_title@,
{
    let mut t = String::from_str("登入 - ");
    t.append(site_title);
    t
}

} // verus!

verus! {

/// A step whose required field holds no snapshot, or an invalid one, does not
/// advance: the request changes nothing and schedules nothing.
pub proof fn lemma_invalid_field_blocks(s: SigninModel, f: Field)
    requires
        spec_required(s.section).contains(f),
        !valid_snapshot(s.snapshots, f),
    ensures
        signin_next(s, SigninMsg::AdvanceRequested) == s,
        signin_effects(s, SigninMsg::AdvanceRequested).schedule is None,
{
    let i = choose|i: int| 0 <= i < spec_required(s.section).len() && spec_required(s.section)[i] == f;
    assert(!valid_snapshot(s.snapshots, spec_required(s.section)[i]));
}

/// A request accepted on a step makes the wizard busy and schedules the
/// completion of the step after the round-trip delay; when that comes due
/// the next step shows, the wizard is no longer busy and holds a profile.
pub proof fn lemma_accepted_step_completes(s: SigninModel)
    requires
        advance_accepted(s),
    ensures
        signin_next(s, SigninMsg::AdvanceRequested).busy,
        signin_effects(s, SigninMsg::AdvanceRequested).schedule == Some(
            (
                (COMPLETION_DELAY_MS * 1000) as nat,
                Deferred::StepCompleted(spec_next(s.section).unwrap()),
            ),
        ),
        signin_next(
            signin_next(s, SigninMsg::AdvanceRequested),
            SigninMsg::Fired(Deferred::StepCompleted(spec_next(s.section).unwrap())),
        ).section == spec_next(s.section).unwrap(),
        !signin_next(
            signin_next(s, SigninMsg::AdvanceRequested),
            SigninMsg::Fired(Deferred::StepCompleted(spec_next(s.section).unwrap())),
        ).busy,
        signin_next(
            signin_next(s, SigninMsg::AdvanceRequested),
            SigninMsg::Fired(Deferred::StepCompleted(spec_next(s.section).unwrap())),
        ).identity is Some,
{
}

/// On the name step, with a valid name snapshot and not busy, going on makes
/// the wizard busy; when the completion comes due the password step shows,
/// the wizard is not busy, and it holds a profile.
pub proof fn lemma_name_step_leads_to_password(s: SigninModel)
    requires
        s.section == SigninSection::Name,
        !s.busy,
        valid_snapshot(s.snapshots, Field::Name),
    ensures
        signin_next(s, SigninMsg::AdvanceRequested).busy,
        signin_effects(s, SigninMsg::AdvanceRequested).schedule == Some(
            ((COMPLETION_DELAY_MS * 1000) as nat, Deferred::StepCompleted(SigninSection::Password)),
        ),
        signin_next(
            signin_next(s, SigninMsg::AdvanceRequested),
            SigninMsg::Fired(Deferred::StepCompleted(SigninSection::Password)),
        ).section == SigninSection::Password,
        !signin_next(
            signin_next(s, SigninMsg::AdvanceRequested),
            SigninMsg::Fired(Deferred::StepCompleted(SigninSection::Password)),
        ).busy,
        signin_next(
            signin_next(s, SigninMsg::AdvanceRequested),
            SigninMsg::Fired(Deferred::StepCompleted(SigninSection::Password)),
        ).identity is Some,
{
    assert(all_valid(s.snapshots, spec_required(s.section)));
    lemma_accepted_step_completes(s);
}

/// A restart, from any state and busy or not, schedules its deferred half;
/// when that comes due the first step shows, with no profile, no snapshot,
/// and the wizard not busy.
pub proof fn lemma_restart_returns_to_first(s: SigninModel)
    ensures
        signin_effects(s, SigninMsg::Restart).schedule == Some(
            ((RESTART_DELAY_MS * 1000) as nat, Deferred::RestartDue),
        ),
        signin_next(signin_next(s, SigninMsg::Restart), SigninMsg::Fired(Deferred::RestartDue)).section
            == s.first,
        signin_next(
            signin_next(s, SigninMsg::Restart),
            SigninMsg::Fired(Deferred::RestartDue),
        ).identity is None,
        !signin_next(signin_next(s, SigninMsg::Restart), SigninMsg::Fired(Deferred::RestartDue)).busy,
        signin_next(
            signin_next(s, SigninMsg::Restart),
            SigninMsg::Fired(Deferred::RestartDue),
        ).snapshots == Map::<Field, (Seq<char>, bool)>::empty(),
{
}

/// On the sign-up step and not busy, going on is accepted exactly when the
/// name, email and password snapshots are all valid; otherwise the wizard
/// stays on the sign-up step and is not busy.
pub proof fn lemma_signup_needs_all_three(s: SigninModel)
    requires
        s.section == SigninSection::Signup,
        !s.busy,
    ensures
        advance_accepted(s) <==> (valid_snapshot(s.snapshots, Field::Name) && valid_snapshot(
            s.snapshots,
            Field::Email,
        ) && valid_snapshot(s.snapshots, Field::Password)),
        !advance_accepted(s) ==> signin_next(s, SigninMsg::AdvanceRequested).section
            == SigninSection::Signup,
        !advance_accepted(s) ==> !signin_next(s, SigninMsg::AdvanceRequested).busy,
{
    let req = spec_required(s.section);
    assert(req[0] == Field::Name && req[1] == Field::Email && req[2] == Field::Password);
    if valid_snapshot(s.snapshots, Field::Name) && valid_snapshot(s.snapshots, Field::Email)
        && valid_snapshot(s.snapshots, Field::Password) {
        assert(forall|i: int| 0 <= i < req.len() ==> #[trigger] valid_snapshot(s.snapshots, req[i]));
    }
}

} // verus!
