//! Sign-in and sign-up flow logic: a multi-step wizard, per-field validation
//! controllers, a memoizing style registry and a viewport-height throttle.

pub mod button;
pub mod card;
pub mod field;
pub mod manifest;
pub mod parts;
pub mod pattern;
pub mod resident;
pub mod sections;
pub mod style_cache;
pub mod time;
pub mod viewport;
pub mod wizard;

pub use button::{ButtonColor, ButtonProps};
pub use card::CardProps;
pub use field::{check_value, FailureReason, Input, InputEffects, InputMsg, InputProps, InputType, InputValue, ValidationResult};
pub use manifest::{Error, Manifest};
pub use parts::AvatarProps;
pub use resident::SigninResident;
pub use style_cache::{StyleCache, YieldStyle};
pub use time::{Duration, Instant};
pub use viewport::{is_mobile_safari, ViewportCompensator};
pub use wizard::{Deferred, Field, SigninApp, SigninAppProps, SigninEffects, SigninMsg, SigninSection};
