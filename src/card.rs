//! The style of cards, the boxes that hold a step.
use vstd::prelude::*;
use vstd::string::*;
use crate::style_cache::YieldStyle;

verus! {

pub const CARD_ELEMENT: &'static str = "fl-card";

pub const CARD_BASE_STYLE: &'static str = "display: flex;\nflex-direction: column;\njustify-content: space-around;\nalign-items: center;\nborder-radius: 10px;\nbackground-color: white;\nbox-sizing: border-box;\npadding: 20px;\n@supports (backdrop-filter: blur(100px) saturate(180%)) or (-webkit-backdrop-filter: blur(100px) saturate(180%)) {\n    background-color: rgba(255, 255, 255, 0.7);\n    backdrop-filter: blur(100px) saturate(180%);\n    -webkit-backdrop-filter: blur(100px) saturate(180%)\n}\n";

pub const CARD_SHADOW_RULE: &'static str = "box-shadow: 0 0 10px 0 rgba(150, 150, 150, 0.8);\n";

/// How a card is laid out.
#[derive(Clone, Debug, PartialEq)]
pub struct CardProps {
    pub with_shadow: bool,
    pub with_margin: bool,
    pub with_padding: bool,
    pub max_width: Option<String>,
    pub width: Option<String>,
    pub max_height: Option<String>,
    pub height: Option<String>,
    pub flex_direction: Option<String>,
    pub justify_content: Option<String>,
    pub align_items: Option<String>,
}

/// The rule "`key`: `value`;" where a value is given, and nothing otherwise.
pub open spec fn optional_rule(key: Seq<char>, value: Option<String>) -> Seq<char> {
    match value {
        Some(v) => key + ": "@ + v@ + ";\n"@,
        None => Seq::empty(),
    }
}

fn push_optional_rule(s: &mut String, key: &str, value: &Option<String>)
    ensures
        final(s)@ == old(s)@ + optional_rule(key@, *value),
{
    match value {
        Some(v) => {
            s.append(key);
            s.append(": ");
            s.append(v.as_str());
            s.append(";\n");
            assert(final(s)@ =~= old(s)@ + optional_rule(key@, *value));
        },
        None => {
            assert(s@ =~= old(s)@ + optional_rule(key@, *value));
        },
    }
}

pub open spec fn spec_card_style(p: CardProps) -> Seq<char> {
    CARD_BASE_STYLE@ + (if p.with_shadow {
        CARD_SHADOW_RULE@
    } else {
        Seq::empty()
    }) + (if p.with_margin {
        "margin: 20px;\n"@
    } else {
        "margin: 0;\n"@
    }) + (if p.with_padding {
        "padding: 20px;\n"@
    } else {
        "padding: 0;\n"@
    }) + optional_rule("max-width"@, p.max_width) + optional_rule("width"@, p.width)
        + optional_rule("max-height"@, p.max_height) + optional_rule("height"@, p.height)
        + optional_rule("flex-direction"@, p.flex_direction) + optional_rule(
        "justify-content"@,
        p.justify_content,
    ) + optional_rule("align-items"@, p.align_items)
}

impl CardProps {
    /// A card with shadow, margin and padding, and no sizes of its own.
    pub fn new() -> (r: CardProps)
        ensures
            r.with_shadow && r.with_margin && r.with_padding,
            r.max_width is None && r.width is None && r.max_height is None && r.height is None,
            r.flex_direction is None && r.justify_content is None && r.align_items is None,
    {
        CardProps {
            with_shadow: true,
            with_margin: true,
            with_padding: true,
            max_width: None,
            width: None,
            max_height: None,
            height: None,
            flex_direction: None,
            justify_content: None,
            align_items: None,
        }
    }

    /// The style text of the card.
    pub fn style_text(&self) -> (r: String)
        ensures
            r@ == spec_card_style(*self),
    {
        let mut s = String::from_str(CARD_BASE_STYLE);
        if self.with_shadow {
            s.append(CARD_SHADOW_RULE);
        }
        if self.with_margin {
            s.append("margin: 20px;\n");
        } else {
            s.append("margin: 0;\n");
        }
        if self.with_padding {
            s.append("padding: 20px;\n");
        } else {
            s.append("padding: 0;\n");
        }
        push_optional_rule(&mut s, "max-width", &self.max_width);
        push_optional_rule(&mut s, "width", &self.width);
        push_optional_rule(&mut s, "max-height", &self.max_height);
        push_optional_rule(&mut s, "height", &self.height);
        push_optional_rule(&mut s, "flex-direction", &self.flex_direction);
        push_optional_rule(&mut s, "justify-content", &self.justify_content);
        push_optional_rule(&mut s, "align-items", &self.align_items);
        assert(s@ =~= spec_card_style(*self));
        s
    }
}

impl YieldStyle for CardProps {
    open spec fn spec_element_name(&self) -> Seq<char> {
        CARD_ELEMENT@
    }

    open spec fn spec_style(&self) -> Seq<char> {
        spec_card_style(*self)
    }

    fn element_name(&self) -> (r: String) {
        String::from_str(CARD_ELEMENT)
    }

    fn yield_style_str(&self) -> (r: String) {
        self.style_text()
    }
}

} // verus!
