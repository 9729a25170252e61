//! The styles of the small parts of a step: the avatar, the subtitle and the
//! links at the bottom of the card.
use vstd::prelude::*;
use vstd::string::*;
use crate::style_cache::YieldStyle;

verus! {

pub const AVATAR_ELEMENT: &'static str = "fl-avatar";

pub const AVATAR_BASE_STYLE: &'static str = "height: 100px;\nwidth: 100px;\nborder-radius: 100%;\nbackground-repeat: no-repeat;\nbackground-size: contain;\nbackground-position: center;\ndisplay: block;\n";

/// A round profile picture.
#[derive(Clone, Debug, PartialEq)]
pub struct AvatarProps {
    pub src: String,
}

pub open spec fn spec_avatar_style(src: Seq<char>) -> Seq<char> {
    AVATAR_BASE_STYLE@ + "background-image: url("@ + src + ");\n"@
}

impl YieldStyle for AvatarProps {
    open spec fn spec_element_name(&self) -> Seq<char> {
        AVATAR_ELEMENT@
    }

    open spec fn spec_style(&self) -> Seq<char> {
        spec_avatar_style(self.src@)
    }

    fn element_name(&self) -> (r: String) {
        String::from_str(AVATAR_ELEMENT)
    }

    fn yield_style_str(&self) -> (r: String) {
        let mut s = String::from_str(AVATAR_BASE_STYLE);
        s.append("background-image: url(");
        s.append(self.src.as_str());
        s.append(");\n");
        assert(s@ =~= spec_avatar_style(self.src@));
        s
    }
}

pub const SUB_TITLE_ELEMENT: &'static str = "fl-signin-sub-title";

pub const SUB_TITLE_BASE_STYLE: &'static str = "font-size: 0.9rem;\ncolor: rgb(100, 100, 100);\n";

/// A line of guidance in grey, aligned as asked.
#[derive(Clone, Debug, PartialEq)]
pub struct SigninSubTitleProps {
    pub text_align: String,
}

impl SigninSubTitleProps {
    /// A centred line.
    pub fn new() -> (r: SigninSubTitleProps)
        ensures
            r.text_align@ == "center"@,
    {
        SigninSubTitleProps { text_align: String::from_str("center") }
    }
}

pub open spec fn spec_sub_title_style(align: Seq<char>) -> Seq<char> {
    SUB_TITLE_BASE_STYLE@ + "text-align: "@ + align + ";\n"@
}

impl YieldStyle for SigninSubTitleProps {
    open spec fn spec_element_name(&self) -> Seq<char> {
        SUB_TITLE_ELEMENT@
    }

    open spec fn spec_style(&self) -> Seq<char> {
        spec_sub_title_style(self.text_align@)
    }

    fn element_name(&self) -> (r: String) {
        String::from_str(SUB_TITLE_ELEMENT)
    }

    fn yield_style_str(&self) -> (r: String) {
        let mut s = String::from_str(SUB_TITLE_BASE_STYLE);
        s.append("text-align: ");
        s.append(self.text_align.as_str());
        s.append(";\n");
        assert(s@ =~= spec_sub_title_style(self.text_align@));
        s
    }
}

pub const BOTTOM_LINK_ELEMENT: &'static str = "fl-bottom-link-item";

pub const BOTTOM_LINK_BASE_STYLE: &'static str = "min-width: 120px;\npadding-left: 5px;\npadding-right: 5px;\nfont-size: 0.9rem;\ntext-align: center;\ncolor: rgb(100, 100, 100);\n";

/// Where a link stands in the row at the bottom of the card.
#[derive(Clone, Copy, Debug, PartialEq, Eq, Structural)]
pub enum BottomLinkItemPosition {
    First,
    Last,
}

pub open spec fn spec_position_style(p: BottomLinkItemPosition) -> Seq<char> {
    match p {
        BottomLinkItemPosition::First => "text-align: right;\n"@,
        BottomLinkItemPosition::Last => "text-align: left;\n"@,
    }
}

impl BottomLinkItemPosition {
    /// The first link leans to the right and the last to the left, so the
    /// two meet in the middle.
    pub fn extra_style_str(&self) -> (r: &'static str)
        ensures
            r@ == spec_position_style(*self),
    {
        match self {
            BottomLinkItemPosition::First => "text-align: right;\n",
            BottomLinkItemPosition::Last => "text-align: left;\n",
        }
    }
}

impl YieldStyle for BottomLinkItemPosition {
    open spec fn spec_element_name(&self) -> Seq<char> {
        BOTTOM_LINK_ELEMENT@
    }

    open spec fn spec_style(&self) -> Seq<char> {
        BOTTOM_LINK_BASE_STYLE@ + spec_position_style(*self)
    }

    fn element_name(&self) -> (r: String) {
        String::from_str(BOTTOM_LINK_ELEMENT)
    }

    fn yield_style_str(&self) -> (r: String) {
        let mut s = String::from_str(BOTTOM_LINK_BASE_STYLE);
        s.append(self.extra_style_str());
        s
    }
}

pub const SPINNER_ELEMENT: &'static str = "fl-spinner";

/// Three dots that bounce in turn; they have the classes "bounce" and
/// "bounce1" to "bounce3".
pub const SPINNER_STYLE: &'static str = "display: inline-flex;\nalign-items: center;\nflex-direction: row;\njustify-content: space-evenly;\npadding-left: 20px;\npadding-right: 20px;\nheight: 40px;\nwidth: 120px;\nbox-sizing: border-box;\ntext-align: center;\n.bounce {\n    width: 0.7rem;\n    height: 0.7rem;\n    background-color: rgb(100, 100, 100);\n    transition: background-color 0.20s;\n    border-radius: 100%;\n    display: inline-block;\n    -webkit-animation: sk-bouncedelay 1.4s infinite ease-in-out both;\n    animation: sk-bouncedelay 1.4s infinite ease-in-out both;\n}\n.bounce1 {\n    -webkit-animation-delay: -0.32s;\n    animation-delay: -0.32s;\n}\n.bounce2 {\n    -webkit-animation-delay: -0.16s;\n    animation-delay: -0.16s;\n}\n@-webkit-keyframes sk-bouncedelay {\n    0%, 80%, 100% { -webkit-transform: scale(0) }\n    40% { -webkit-transform: scale(1.0) }\n}\n@keyframes sk-bouncedelay {\n    0%, 80%, 100% {\n        -webkit-transform: scale(0);\n        transform: scale(0);\n    } 40% {\n        -webkit-transform: scale(1.0);\n        transform: scale(1.0);\n    }\n}\n";

/// The waiting indicator.
#[derive(Clone, Copy, Debug, PartialEq, Eq)]
pub struct Spinner;

impl YieldStyle for Spinner {
    open spec fn spec_element_name(&self) -> Seq<char> {
        SPINNER_ELEMENT@
    }

    open spec fn spec_style(&self) -> Seq<char> {
        SPINNER_STYLE@
    }

    fn element_name(&self) -> (r: String) {
        String::from_str(SPINNER_ELEMENT)
    }

    fn yield_style_str(&self) -> (r: String) {
        String::from_str(SPINNER_STYLE)
    }
}

pub const BOTTOM_LINKS_ELEMENT: &'static str = "fl-bottom-links";

pub const BOTTOM_LINKS_STYLE: &'static str = "width: 100%;\ncursor: default;\ndisplay: flex;\nflex-direction: row;\njustify-content: center;\nalign-items: center;\n";

/// The row of links at the bottom of the card.
#[derive(Clone, Copy, Debug, PartialEq, Eq)]
pub struct BottomLinks;

impl YieldStyle for BottomLinks {
    open spec fn spec_element_name(&self) -> Seq<char> {
        BOTTOM_LINKS_ELEMENT@
    }

    open spec fn spec_style(&self) -> Seq<char> {
        BOTTOM_LINKS_STYLE@
    }

    fn element_name(&self) -> (r: String) {
        String::from_str(BOTTOM_LINKS_ELEMENT)
    }

    fn yield_style_str(&self) -> (r: String) {
        String::from_str(BOTTOM_LINKS_STYLE)
    }
}

} // verus!
