//! The profile of the person signing in.
use vstd::prelude::*;
use vstd::string::*;

verus! {

/// The picture shown for a profile that has none of its own.
pub const DEFAULT_AVATAR_URL: &'static str = "https://www.gravatar.com/avatar/55ea921519aa759f6a15711ad4faea7c?s=200&d=mp";

#[derive(Clone, Debug, PartialEq)]
pub struct SigninResident {
    pub name: String,
    pub display_name: Option<String>,
    pub avatar_url: Option<String>,
}

/// A profile as plain text: name, display name and picture address.
pub struct ResidentView {
    pub name: Seq<char>,
    pub display_name: Option<Seq<char>>,
    pub avatar_url: Option<Seq<char>>,
}

pub open spec fn opt_view(o: Option<String>) -> Option<Seq<char>> {
    match o {
        Some(s) => Some(s@),
        None => None,
    }
}

impl View for SigninResident {
    type V = ResidentView;

    open spec fn view(&self) -> ResidentView {
        ResidentView {
            name: self.name@,
            display_name: opt_view(self.display_name),
            avatar_url: opt_view(self.avatar_url),
        }
    }
}

impl SigninResident {
    /// The profile's own picture, or the shared default picture.
    pub fn avatar_url(&self) -> (r: String)
        ensures
            r@ == match self.avatar_url {
                Some(u) => u@,
                None => DEFAULT_AVATAR_URL@,
            },
    {
        match &self.avatar_url {
            Some(u) => u.clone(),
            None => String::from_str(DEFAULT_AVATAR_URL),
        }
    }
}

impl Default for SigninResident {
    fn default() -> (r: SigninResident)
        ensures
            r.name@ == Seq::<char>::empty(),
            r.display_name is None,
            r.avatar_url is None,
    {
        SigninResident { name: String::new(), display_name: None, avatar_url: None }
    }
}

} // verus!
