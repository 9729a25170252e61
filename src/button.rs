//! The colours of buttons.
use vstd::prelude::*;
use vstd::string::*;
use crate::style_cache::YieldStyle;

verus! {

/// A button's colour scheme: a named scheme, or a pair of colours of its own.
#[derive(Clone, Copy, Debug, PartialEq, Eq)]
pub enum ButtonColor {
    Blue,
    Black,
    Red,
    Green,
    Yellow,
    Custom { normal: (u8, u8, u8), hover: (u8, u8, u8) },
}

impl ButtonColor {
    pub open spec fn spec_normal(&self) -> (u8, u8, u8) {
        match self {
            ButtonColor::Blue => (92, 184, 230),
            ButtonColor::Black => (5, 5, 5),
            ButtonColor::Red => (238, 82, 26),
            ButtonColor::Green => (50, 191, 50),
            ButtonColor::Yellow => (255, 193, 7),
            ButtonColor::Custom { normal, .. } => *normal,
        }
    }

    pub open spec fn spec_hover(&self) -> (u8, u8, u8) {
        match self {
            ButtonColor::Blue => (125, 198, 235),
            ButtonColor::Black => (50, 50, 50),
            ButtonColor::Red => (240, 99, 48),
            ButtonColor::Green => (91, 204, 91),
            ButtonColor::Yellow => (255, 205, 57),
            ButtonColor::Custom { hover, .. } => *hover,
        }
    }

    /// The colour at rest, as red, green and blue.
    pub fn normal_color(&self) -> (r: (u8, u8, u8))
        ensures
            r == self.spec_normal(),
    {
        match self {
            ButtonColor::Blue => (92, 184, 230),
            ButtonColor::Black => (5, 5, 5),
            ButtonColor::Red => (238, 82, 26),
            ButtonColor::Green => (50, 191, 50),
            ButtonColor::Yellow => (255, 193, 7),
            ButtonColor::Custom { normal, .. } => *normal,
        }
    }

    /// The colour under the pointer, as red, green and blue.
    pub fn hover_color(&self) -> (r: (u8, u8, u8))
        ensures
            r == self.spec_hover(),
    {
        match self {
            ButtonColor::Blue => (125, 198, 235),
            ButtonColor::Black => (50, 50, 50),
            ButtonColor::Red => (240, 99, 48),
            ButtonColor::Green => (91, 204, 91),
            ButtonColor::Yellow => (255, 205, 57),
            ButtonColor::Custom { hover, .. } => *hover,
        }
    }
}

impl Default for ButtonColor {
    fn default() -> (r: ButtonColor)
        ensures
            r == ButtonColor::Blue,
    {
        ButtonColor::Blue
    }
}

} // verus!

verus! {

pub const BUTTON_ELEMENT: &'static str = "fl-button";

pub const BUTTON_LAYOUT_STYLE: &'static str = "display: inline-flex;\njustify-content: center;\nalign-items: center;\nflex-direction: row;\nborder-radius: 500px;\npadding-left: 30px;\npadding-right: 30px;\n";

pub const BUTTON_TEXT_STYLE: &'static str = "text-align: center;\ncolor: white;\ntransition: background-color 0.20s;\ncursor: default;\n-moz-user-select: none;\n-webkit-user-select: none;\n-ms-user-select: none;\nuser-select: none;\n";

pub open spec fn digit(d: nat) -> char {
    if d == 0 { '0' } else if d == 1 { '1' } else if d == 2 { '2' } else if d == 3 { '3' }
    else if d == 4 { '4' } else if d == 5 { '5' } else if d == 6 { '6' } else if d == 7 { '7' }
    else if d == 8 { '8' } else { '9' }
}

/// The decimal digits of `n`, without leading zeros.
pub open spec fn decimal(n: nat) -> Seq<char>
    decreases n,
{
    if n < 10 {
        seq![digit(n)]
    } else {
        decimal(n / 10).push(digit(n % 10))
    }
}

fn digit_str(d: u8) -> (r: &'static str)
    requires
        d < 10,
    ensures
        r@ == seq![digit(d as nat)],
{
    proof {
        reveal_strlit("0");
        reveal_strlit("1");
        reveal_strlit("2");
        reveal_strlit("3");
        reveal_strlit("4");
        reveal_strlit("5");
        reveal_strlit("6");
        reveal_strlit("7");
        reveal_strlit("8");
        reveal_strlit("9");
    }
    let r = if d == 0 { "0" } else if d == 1 { "1" } else if d == 2 { "2" } else if d == 3 { "3" }
    else if d == 4 { "4" } else if d == 5 { "5" } else if d == 6 { "6" } else if d == 7 { "7" }
    else if d == 8 { "8" } else { "9" };
    assert(r@ =~= seq![digit(d as nat)]);
    r
}

fn push_decimal(s: &mut String, n: u8)
    ensures
        final(s)@ == old(s)@ + decimal(n as nat),
{
    if n >= 100 {
        s.append(digit_str(n / 100));
    }
    if n >= 10 {
        s.append(digit_str((n / 10) % 10));
    }
    s.append(digit_str(n % 10));
    proof {
        if n >= 100 {
            assert(decimal((n / 100) as nat) == seq![digit((n / 100) as nat)]);
            assert(decimal((n / 10) as nat) =~= seq![digit((n / 100) as nat)].push(digit(((n / 10) % 10) as nat)));
        } else if n >= 10 {
            assert(decimal((n / 10) as nat) == seq![digit((n / 10) as nat)]);
        }
    }
    assert(final(s)@ =~= old(s)@ + decimal(n as nat));
}

/// "rgb(r, g, b)" for a colour.
pub open spec fn rgb(c: (u8, u8, u8)) -> Seq<char> {
    "rgb("@ + decimal(c.0 as nat) + ", "@ + decimal(c.1 as nat) + ", "@ + decimal(c.2 as nat) + ")"@
}

fn push_rgb(s: &mut String, c: (u8, u8, u8))
    ensures
        final(s)@ == old(s)@ + rgb(c),
{
    s.append("rgb(");
    push_decimal(s, c.0);
    s.append(", ");
    push_decimal(s, c.1);
    s.append(", ");
    push_decimal(s, c.2);
    s.append(")");
    assert(final(s)@ =~= old(s)@ + rgb(c));
}

/// How a button looks.
#[derive(Clone, Debug, PartialEq)]
pub struct ButtonProps {
    pub color: ButtonColor,
    pub height: String,
    pub width: Option<String>,
}

pub open spec fn spec_button_style(p: ButtonProps) -> Seq<char> {
    BUTTON_LAYOUT_STYLE@ + "height: "@ + p.height@ + ";\nbox-sizing: border-box;\n"@
        + BUTTON_TEXT_STYLE@ + "background-color: "@ + rgb(p.color.spec_normal()) + ";\n"@
        + "&:hover {\n    background-color: "@ + rgb(p.color.spec_hover()) + ";\n}\n"@ + match p.width {
        Some(w) => "width: "@ + w@ + ";\n"@,
        None => Seq::empty(),
    }
}

impl ButtonProps {
    /// A blue button 40px high, as wide as its text.
    pub fn new() -> (r: ButtonProps)
        ensures
            r.color == ButtonColor::Blue,
            r.height@ == "40px"@,
            r.width is None,
    {
        ButtonProps { color: ButtonColor::Blue, height: String::from_str("40px"), width: None }
    }

    /// The style text of the button.
    pub fn style_text(&self) -> (r: String)
        ensures
            r@ == spec_button_style(*self),
    {
        let mut s = String::from_str(BUTTON_LAYOUT_STYLE);
        s.append("height: ");
        s.append(self.height.as_str());
        s.append(";\nbox-sizing: border-box;\n");
        s.append(BUTTON_TEXT_STYLE);
        s.append("background-color: ");
        push_rgb(&mut s, self.color.normal_color());
        s.append(";\n");
        s.append("&:hover {\n    background-color: ");
        push_rgb(&mut s, self.color.hover_color());
        s.append(";\n}\n");
        match &self.width {
            Some(w) => {
                s.append("width: ");
                s.append(w.as_str());
                s.append(";\n");
            },
            None => {},
        }
        assert(s@ =~= spec_button_style(*self));
        s
    }
}

impl YieldStyle for ButtonProps {
    open spec fn spec_element_name(&self) -> Seq<char> {
        BUTTON_ELEMENT@
    }

    open spec fn spec_style(&self) -> Seq<char> {
        spec_button_style(*self)
    }

    fn element_name(&self) -> (r: String) {
        String::from_str(BUTTON_ELEMENT)
    }

    fn yield_style_str(&self) -> (r: String) {
        self.style_text()
    }
}

} // verus!
