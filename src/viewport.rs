//! Works around browsers whose viewport height goes stale: it tells such
//! browsers apart by their user agent, and throttles the writes of an
//! explicit minimum height to one per 100 ms.
use vstd::prelude::*;
use vstd::string::*;
use crate::pattern::{found, search};
use crate::style_cache::YieldStyle;
use crate::time::Instant;

verus! {

pub const IOS_PATTERN: &'static str = "(?i)iP(ad|od|hone)";

pub const WEBKIT_PATTERN: &'static str = "(?i)WebKit";

pub const IOS_CHROME_PATTERN: &'static str = "(?i)CriOS";

/// The least time between two height writes, in microseconds.
pub const THROTTLE_MICROS: u64 = 100_000;

/// A browser needs the work-around when it runs on iOS with WebKit and is
/// not Chrome for iOS.
pub fn needs_compensation(is_ios: bool, is_webkit: bool, is_ios_chrome: bool) -> (r: bool)
    ensures
        r == (is_ios && is_webkit && !is_ios_chrome),
{
    is_ios && is_webkit && !is_ios_chrome
}

/// Whether the browser that sends `user_agent` needs the work-around.
pub fn is_mobile_safari(user_agent: &str) -> (r: bool)
    ensures
        r == (found(IOS_PATTERN@, user_agent@) && found(WEBKIT_PATTERN@, user_agent@) && !found(
            IOS_CHROME_PATTERN@,
            user_agent@,
        )),
{
    let is_ios = matches!(search(IOS_PATTERN, user_agent), Some(true));
    let is_webkit = matches!(search(WEBKIT_PATTERN, user_agent), Some(true));
    let is_ios_chrome = matches!(search(IOS_CHROME_PATTERN, user_agent), Some(true));
    needs_compensation(is_ios, is_webkit, is_ios_chrome)
}

/// Whether a height write at `now` may go ahead, given the time of the last
/// one.
pub open spec fn allows(last: Option<nat>, now: nat) -> bool {
    match last {
        None => true,
        Some(t) => now >= t && now - t >= THROTTLE_MICROS,
    }
}

/// The time of the last write after an event at `now`.
pub open spec fn after_event(last: Option<nat>, now: nat) -> Option<nat> {
    if allows(last, now) {
        Some(now)
    } else {
        last
    }
}

/// How many writes a run of events at `times` makes.
pub open spec fn writes(last: Option<nat>, times: Seq<nat>) -> nat
    decreases times.len(),
{
    if times.len() == 0 {
        0
    } else if allows(last, times[0]) {
        1 + writes(Some(times[0]), times.drop_first())
    } else {
        writes(last, times.drop_first())
    }
}

/// The time of the last write after a run of events at `times`.
pub open spec fn last_after(last: Option<nat>, times: Seq<nat>) -> Option<nat>
    decreases times.len(),
{
    if times.len() == 0 {
        last
    } else {
        last_after(after_event(last, times[0]), times.drop_first())
    }
}

/// Events that all lie within 50 ms of each other.
pub open spec fn burst(times: Seq<nat>) -> bool {
    forall|i: int, j: int|
        0 <= i < times.len() && 0 <= j < times.len() ==> #[trigger] times[i] <= #[trigger] times[j]
            + 50_000
}

/// The readings of a run of instants, in microseconds.
pub open spec fn micros_of(times: Seq<Instant>) -> Seq<nat> {
    times.map_values(|t: Instant| t.spec_micros())
}

/// The throttle of height writes on a browser that needs them.
#[derive(Clone, Copy, Debug)]
pub struct ViewportCompensator {
    active: bool,
    last_vh_update: Option<Instant>,
}

impl ViewportCompensator {
    /// Whether this browser gets height writes at all.
    pub closed spec fn spec_active(&self) -> bool {
        self.active
    }

    /// The time of the last write, in microseconds.
    pub closed spec fn spec_last(&self) -> Option<nat> {
        match self.last_vh_update {
            Some(t) => Some(t.spec_micros()),
            None => None,
        }
    }

    /// A throttle that has written nothing yet; `active` says whether the
    /// browser needs the work-around.
    pub fn new(active: bool) -> (r: ViewportCompensator)
        ensures
            r.spec_active() == active,
            r.spec_last() is None,
    {
        ViewportCompensator { active, last_vh_update: None }
    }

    pub fn is_active(&self) -> (r: bool)
        ensures
            r == self.spec_active(),
    {
        self.active
    }

    pub fn last_update(&self) -> (r: Option<Instant>)
        ensures
            match r {
                Some(t) => self.spec_last() == Some(t.spec_micros()),
                None => self.spec_last() is None,
            },
    {
        self.last_vh_update
    }

    /// An event came at `now`: says whether to write the viewport height now.
    /// On a browser that does not need it nothing is ever written; otherwise
    /// a write goes ahead unless the last one was under 100 ms before `now`,
    /// and the dropped event is not retried.
    pub fn on_event(&mut self, now: Instant) -> (r: bool)
        ensures
            final(self).spec_active() == old(self).spec_active(),
            !old(self).spec_active() ==> !r && final(self).spec_last() == old(self).spec_last(),
            old(self).spec_active() ==> r == allows(old(self).spec_last(), now.spec_micros())
                && final(self).spec_last() == after_event(old(self).spec_last(), now.spec_micros()),
    {
        if !self.active {
            return false;
        }
        match self.last_vh_update {
            Some(last) => {
                if last.elapsed_at(now).as_micros() < THROTTLE_MICROS {
                    return false;
                }
            },
            None => {},
        }
        self.last_vh_update = Some(now);
        true
    }

    /// Events came at `times`, in this order: hands each to `on_event` and
    /// says how many height writes they made.
    pub fn on_events(&mut self, times: &Vec<Instant>) -> (n: usize)
        ensures
            final(self).spec_active() == old(self).spec_active(),
            old(self).spec_active() ==> n == writes(old(self).spec_last(), micros_of(times@))
                && final(self).spec_last() == last_after(old(self).spec_last(), micros_of(times@)),
            !old(self).spec_active() ==> n == 0 && final(self).spec_last() == old(self).spec_last(),
            burst(micros_of(times@)) ==> n <= 1,
            old(self).spec_active() && times@.len() == 2 && times@[1].spec_micros()
                == times@[0].spec_micros() + 150_000 && allows(
                old(self).spec_last(),
                times@[0].spec_micros(),
            ) ==> n == 2,
    {
        let ghost all = micros_of(times@);
        let ghost first = self.spec_last();
        let ghost active = self.spec_active();
        let mut n: usize = 0;
        let mut i: usize = 0;
        proof {
            assert(all.subrange(0, all.len() as int) =~= all);
        }
        while i < times.len()
            invariant
                i <= times@.len(),
                n <= i,
                all == micros_of(times@),
                self.spec_active() == active,
                active ==> n + writes(self.spec_last(), all.subrange(i as int, all.len() as int))
                    == writes(first, all),
                active ==> last_after(self.spec_last(), all.subrange(i as int, all.len() as int))
                    == last_after(first, all),
                !active ==> n == 0 && self.spec_last() == first,
            decreases times@.len() - i,
        {
            let ghost rest = all.subrange(i as int, all.len() as int);
            let wrote = self.on_event(times[i]);
            proof {
                assert(rest[0] == all[i as int]);
                assert(rest.drop_first() =~= all.subrange(i + 1, all.len() as int));
            }
            if wrote {
                n = n + 1;
            }
            i = i + 1;
        }
        proof {
            assert(all.subrange(i as int, all.len() as int) =~= Seq::<nat>::empty());
            if active && burst(all) {
                lemma_burst_writes_once(first, all);
            }
            if active && all.len() == 2 && all[1] == all[0] + 150_000 && allows(first, all[0]) {
                assert(all =~= seq![all[0], (all[0] + 150_000) as nat]);
                lemma_spaced_events_write_twice(first, all[0]);
            }
        }
        n
    }
}

pub const BODY_BASE_STYLE: &'static str = "margin: 0;\npadding: 0;\nwidth: 100vw;\nfont-size: 15px;\ndisplay: flex;\nflex-direction: row;\njustify-content: space-around;\nalign-items: center;\n@media only screen and (max-width: 340px) {\n    font-size: 14px;\n}\n";

pub const HTML_BASE_STYLE: &'static str = "margin: 0;\npadding: 0;\nwidth: 100vw;\n&[lang=\"zh-hant\"] {\n    font-family: \"PingFang TC\", \"Helvetica Neue\", Helvetica, sans-serif;\n}\n";

pub const GREY_BACKGROUND_RULE: &'static str = "background-color: rgb(244, 245, 249);\n";

pub const FULL_HEIGHT_RULE: &'static str = "min-height: 100vh;\n";

/// A base style, with the grey background where asked, and with the
/// full-height rule only where no height writes are made: the stylesheet
/// and the writes never both set the minimum height.
pub open spec fn spec_page_style(base: Seq<char>, grey_background: bool, compensated: bool) -> Seq<char> {
    base + (if grey_background {
        GREY_BACKGROUND_RULE@
    } else {
        Seq::empty()
    }) + (if compensated {
        Seq::empty()
    } else {
        FULL_HEIGHT_RULE@
    })
}

fn page_style(base: &str, grey_background: bool, compensated: bool) -> (r: String)
    ensures
        r@ == spec_page_style(base@, grey_background, compensated),
{
    let mut s = String::from_str(base);
    if grey_background {
        s.append(GREY_BACKGROUND_RULE);
    }
    if !compensated {
        s.append(FULL_HEIGHT_RULE);
    }
    assert(s@ =~= spec_page_style(base@, grey_background, compensated));
    s
}

/// The style of the page body.
pub fn body_style(grey_background: bool, compensated: bool) -> (r: String)
    ensures
        r@ == spec_page_style(BODY_BASE_STYLE@, grey_background, compensated),
{
    page_style(BODY_BASE_STYLE, grey_background, compensated)
}

/// The style of the root document element.
pub fn html_style(grey_background: bool, compensated: bool) -> (r: String)
    ensures
        r@ == spec_page_style(HTML_BASE_STYLE@, grey_background, compensated),
{
    page_style(HTML_BASE_STYLE, grey_background, compensated)
}

/// The style of the page body, or of the root element above it.
#[derive(Clone, Copy, Debug, PartialEq, Eq)]
pub struct PageStyle {
    /// The root element rather than the body.
    pub root: bool,
    pub grey_background: bool,
    /// Whether height writes set the minimum height on this browser.
    pub compensated: bool,
}

impl YieldStyle for PageStyle {
    open spec fn spec_element_name(&self) -> Seq<char> {
        if self.root {
            "fl-html"@
        } else {
            "fl-body"@
        }
    }

    open spec fn spec_style(&self) -> Seq<char> {
        spec_page_style(
            if self.root {
                HTML_BASE_STYLE@
            } else {
                BODY_BASE_STYLE@
            },
            self.grey_background,
            self.compensated,
        )
    }

    fn element_name(&self) -> (r: String) {
        if self.root {
            String::from_str("fl-html")
        } else {
            String::from_str("fl-body")
        }
    }

    fn yield_style_str(&self) -> (r: String) {
        if self.root {
            html_style(self.grey_background, self.compensated)
        } else {
            body_style(self.grey_background, self.compensated)
        }
    }
}

} // verus!

verus! {

/// Once a write happened at `t`, events that come less than 100 ms after
/// it, or before it, write nothing.
proof fn lemma_no_writes_near(t: nat, times: Seq<nat>)
    requires
        forall|i: int| 0 <= i < times.len() ==> #[trigger] times[i] < t || times[i] - t < THROTTLE_MICROS,
    ensures
        writes(Some(t), times) == 0,
    decreases times.len(),
{
    if times.len() > 0 {
        assert(times[0] < t || times[0] - t < THROTTLE_MICROS);
        let rest = times.drop_first();
        assert(forall|i: int| 0 <= i < rest.len() ==> #[trigger] rest[i] == times[i + 1]);
        lemma_no_writes_near(t, rest);
    }
}

/// A burst of events that all lie within 50 ms of each other makes at most
/// one height write, whatever came before.
pub proof fn lemma_burst_writes_once(last: Option<nat>, times: Seq<nat>)
    requires
        burst(times),
    ensures
        writes(last, times) <= 1,
    decreases times.len(),
{
    if times.len() > 0 {
        let rest = times.drop_first();
        assert(forall|i: int| 0 <= i < rest.len() ==> #[trigger] rest[i] == times[i + 1]);
        if allows(last, times[0]) {
            assert forall|i: int| 0 <= i < rest.len() implies #[trigger] rest[i] < times[0]
                || rest[i] - times[0] < THROTTLE_MICROS by {
                assert(times[i + 1] <= times[0] + 50_000);
            }
            lemma_no_writes_near(times[0], rest);
        } else {
            assert forall|i: int, j: int|
                0 <= i < rest.len() && 0 <= j < rest.len() implies #[trigger] rest[i] <= #[trigger] rest[j]
                + 50_000 by {
                assert(times[i + 1] <= times[j + 1] + 50_000);
            }
            lemma_burst_writes_once(last, rest);
        }
    }
}

/// Two events 150 ms apart, the first of which may write, make exactly two
/// height writes.
pub proof fn lemma_spaced_events_write_twice(last: Option<nat>, first: nat)
    requires
        allows(last, first),
    ensures
        writes(last, seq![first, (first + 150_000) as nat]) == 2,
{
    let second = (first + 150_000) as nat;
    let times = seq![first, second];
    let rest = times.drop_first();
    assert(rest =~= seq![second]);
    assert(rest.drop_first() =~= Seq::<nat>::empty());
    assert(writes(Some(second), rest.drop_first()) == 0);
    assert(allows(Some(first), second));
    assert(writes(Some(first), rest) == 1);
}

} // verus!
