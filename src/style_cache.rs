//! A registry that gives each (element name, style text) pair one generated
//! class name, and registers the style with the stylesheet engine only the
//! first time the pair is asked for.
use vstd::prelude::*;
use vstd::string::*;
use crate::resident::opt_view;

verus! {

/// A generated class name: the element name, a dash, and a non-empty suffix.
pub open spec fn generated_for(element: Seq<char>, name: Seq<char>) -> bool {
    name.len() > element.len() + 1 && element.push('-').is_prefix_of(name)
}

/// Relies on css_in_rust::Style::create, which registers `css` under the
/// class name "`element`-" followed by a non-empty random suffix (in the
/// browser it also parses `css` and fails with a message where it cannot;
/// elsewhere parse errors are dropped and it does not fail); and on
/// css_in_rust::Style::get_class_name to read that class name back. Two calls
/// may give the same name: nothing is promised of the suffix.
#[verifier::external_body]
fn register_style(element: &str, css: &str) -> (r: Result<String, String>)
    ensures
        r matches Ok(name) ==> generated_for(element@, name@),
{
    match css_in_rust::Style::create(element, css) {
        Ok(style) => Ok(style.get_class_name()),
        Err(e) => Err(e),
    }
}

/// One registered style: its element name, its text and its class name.
#[derive(Clone, Debug)]
pub struct StyleEntry {
    pub element: String,
    pub css: String,
    pub class_name: String,
}

/// An entry as plain text: (element name, style text, class name).
pub type EntryView = (Seq<char>, Seq<char>, Seq<char>);

/// Entry `i` of `entries` is the one for the pair (`element`, `css`).
pub open spec fn holds_key(entries: Seq<EntryView>, element: Seq<char>, css: Seq<char>, i: int) -> bool {
    0 <= i < entries.len() && entries[i].0 == element && entries[i].1 == css
}

/// No two entries are for the same pair.
pub open spec fn keys_unique(entries: Seq<EntryView>) -> bool {
    forall|i: int, j: int|
        #![trigger entries[i], entries[j]]
        0 <= i < entries.len() && 0 <= j < entries.len() && i != j ==> (entries[i].0, entries[i].1)
            != (entries[j].0, entries[j].1)
}

/// No two entries share a class name.
pub open spec fn names_unique(entries: Seq<EntryView>) -> bool {
    forall|i: int, j: int|
        #![trigger entries[i], entries[j]]
        0 <= i < entries.len() && 0 <= j < entries.len() && i != j ==> entries[i].2 != entries[j].2
}

/// Some entry has the class name `name`.
pub open spec fn holds_name(entries: Seq<EntryView>, name: Seq<char>) -> bool {
    exists|i: int| 0 <= i < entries.len() && #[trigger] entries[i].2 == name
}

/// A registry with one entry per pair and one pair per class name.
pub open spec fn registry_ok(entries: Seq<EntryView>) -> bool {
    keys_unique(entries) && names_unique(entries)
}

/// The class name registered for the pair, if any.
pub open spec fn cached(entries: Seq<EntryView>, element: Seq<char>, css: Seq<char>) -> Option<Seq<char>> {
    if exists|i: int| holds_key(entries, element, css, i) {
        Some(entries[choose|i: int| holds_key(entries, element, css, i)].2)
    } else {
        None
    }
}

/// How a request for (`element`, `css`) relates the registry `before` and
/// `after` it to its result `r`: a cached pair gives its class name and
/// changes nothing; a new pair is registered and kept with its new name, or
/// gives an error and changes nothing; a name that some other pair already
/// holds is refused. Either way a class name that comes back is the one the
/// registry now holds for the pair, and every pair cached before keeps its
/// class name.
pub open spec fn request_outcome(
    before: Seq<EntryView>,
    after: Seq<EntryView>,
    element: Seq<char>,
    css: Seq<char>,
    r: Result<String, String>,
) -> bool {
    &&& match cached(before, element, css) {
        Some(name) => r matches Ok(n) && n@ == name && after == before,
        None => match r {
            Ok(n) => after == before.push((element, css, n@)) && generated_for(element, n@)
                && !holds_name(before, n@),
            Err(_) => after == before,
        },
    }
    &&& r matches Ok(n) ==> cached(after, element, css) == Some(n@)
    &&& forall|e: Seq<char>, c: Seq<char>|
        #[trigger] cached(after, e, c) != cached(before, e, c) ==> cached(before, e, c) is None
}

/// The memoizing style registry: its entries in the order they were
/// registered, with one entry per pair and one pair per class name (`wf`),
/// and, for proofs, the log of every pair handed to the style engine.
#[derive(Clone)]
pub struct StyleCache {
    entries: Vec<StyleEntry>,
    registered: Ghost<Seq<(Seq<char>, Seq<char>)>>,
}

impl View for StyleCache {
    type V = Seq<EntryView>;

    closed spec fn view(&self) -> Seq<EntryView> {
        self.entries@.map_values(|e: StyleEntry| (e.element@, e.css@, e.class_name@))
    }
}

impl StyleCache {
    pub open spec fn wf(&self) -> bool {
        registry_ok(self@)
    }

    /// Every (element name, style text) pair handed to the style engine, in
    /// the order of the registrations.
    pub closed spec fn registrations(&self) -> Seq<(Seq<char>, Seq<char>)> {
        self.registered@
    }

    /// An empty registry that has registered nothing.
    pub fn new() -> (r: StyleCache)
        ensures
            r.wf(),
            r@ == Seq::<EntryView>::empty(),
            r.registrations() == Seq::<(Seq<char>, Seq<char>)>::empty(),
    {
        let r = StyleCache { entries: Vec::new(), registered: Ghost(Seq::empty()) };
        assert(r@ =~= Seq::<EntryView>::empty());
        r
    }

    /// How many styles this registry holds: one per registration that
    /// succeeded.
    pub fn injection_count(&self) -> (r: usize)
        ensures
            r == self@.len(),
    {
        self.entries.len()
    }

    /// The index of the entry for the pair, if there is one.
    fn find(&self, element: &String, css: &String) -> (r: Option<usize>)
        ensures
            match r {
                Some(i) => holds_key(self@, element@, css@, i as int),
                None => !exists|i: int| holds_key(self@, element@, css@, i),
            },
    {
        let mut i: usize = 0;
        while i < self.entries.len()
            invariant
                i <= self.entries@.len(),
                forall|j: int| 0 <= j < i ==> !#[trigger] holds_key(self@, element@, css@, j),
            decreases self.entries@.len() - i,
        {
            let e = &self.entries[i];
            if e.element == *element && e.css == *css {
                return Some(i);
            }
            i = i + 1;
        }
        None
    }

    /// Whether some entry has the class name `name`.
    fn holds_class(&self, name: &String) -> (r: bool)
        ensures
            r == holds_name(self@, name@),
    {
        let mut i: usize = 0;
        while i < self.entries.len()
            invariant
                i <= self.entries@.len(),
                forall|j: int| 0 <= j < i ==> #[trigger] self@[j].2 != name@,
            decreases self.entries@.len() - i,
        {
            if self.entries[i].class_name == *name {
                assert(self@[i as int].2 == name@);
                return true;
            }
            i = i + 1;
        }
        false
    }

    /// Hands the pair to the style engine, and logs the registration.
    fn register(&mut self, element: &str, css: &str) -> (r: Result<String, String>)
        ensures
            final(self)@ == old(self)@,
            final(self).registrations() == old(self).registrations().push((element@, css@)),
            r matches Ok(n) ==> generated_for(element@, n@),
    {
        let r = register_style(element, css);
        self.registered = Ghost(self.registered@.push((element@, css@)));
        r
    }

    /// Keeps the outcome `reg` of registering a pair that is not cached: a
    /// new name that no other pair holds is stored and returned; a name that
    /// another pair holds is refused; an error of the engine is returned and
    /// nothing is stored.
    pub fn record(
        &mut self,
        element_key: String,
        css_key: String,
        reg: Result<String, String>,
    ) -> (r: Result<String, String>)
        requires
            old(self).wf(),
            cached(old(self)@, element_key@, css_key@) is None,
            reg matches Ok(n) ==> generated_for(element_key@, n@),
        ensures
            final(self).wf(),
            final(self).registrations() == old(self).registrations(),
            request_outcome(old(self)@, final(self)@, element_key@, css_key@, r),
            match reg {
                Ok(n) => if holds_name(old(self)@, n@) {
                    r is Err && final(self)@ == old(self)@
                } else {
                    r == Ok::<String, String>(n) && final(self)@ == old(self)@.push(
                        (element_key@, css_key@, n@),
                    )
                },
                Err(e) => r == Err::<String, String>(e) && final(self)@ == old(self)@,
            },
    {
        match reg {
            Ok(name) => {
                if self.holds_class(&name) {
                    return Err(String::from_str("the generated class name is already in use"));
                }
                let ghost before = self@;
                let ghost element = element_key@;
                let ghost css = css_key@;
                self.entries.push(
                    StyleEntry { element: element_key, css: css_key, class_name: name.clone() },
                );
                assert(self@ =~= before.push((element, css, name@)));
                proof {
                    lemma_second_request_hits(before, element, css, name@);
                }
                Ok(name)
            },
            Err(e) => Err(e),
        }
    }

    /// The class name for the pair (`element`, `css`). The first request for
    /// a pair registers the style once and keeps its class name; later
    /// requests return that name and register nothing. A style that fails to
    /// register, or whose new name another pair holds, gives an error and
    /// leaves the registry as it was. What becomes of a registration is
    /// `record`'s to say.
    pub fn class_name_for(&mut self, element: &str, css: &str) -> (r: Result<String, String>)
        requires
            old(self).wf(),
        ensures
            final(self).wf(),
            request_outcome(old(self)@, final(self)@, element@, css@, r),
            cached(old(self)@, element@, css@) is Some ==> final(self).registrations() == old(
                self,
            ).registrations(),
            cached(old(self)@, element@, css@) is None ==> final(self).registrations() == old(
                self,
            ).registrations().push((element@, css@)),
    {
        let element_key = String::from_str(element);
        let css_key = String::from_str(css);
        match self.find(&element_key, &css_key) {
            Some(i) => {
                proof {
                    let c = choose|k: int| holds_key(self@, element@, css@, k);
                    assert(holds_key(self@, element@, css@, c));
                    assert(c == i);
                }
                Ok(self.entries[i].class_name.clone())
            },
            None => {
                let reg = self.register(element, css);
                self.record(element_key, css_key, reg)
            },
        }
    }
}

/// A styled element: its name and its style text, and the class that gives
/// it that style.
pub trait YieldStyle {
    spec fn spec_element_name(&self) -> Seq<char>;

    spec fn spec_style(&self) -> Seq<char>;

    fn element_name(&self) -> (r: String)
        ensures
            r@ == self.spec_element_name(),
    ;

    fn yield_style_str(&self) -> (r: String)
        ensures
            r@ == self.spec_style(),
    ;

    /// The class for the element's current style, from `cache`.
    fn yield_style_class(&self, cache: &mut StyleCache) -> (r: Result<String, String>)
        requires
            old(cache).wf(),
        ensures
            final(cache).wf(),
            request_outcome(old(cache)@, final(cache)@, self.spec_element_name(), self.spec_style(), r),
            cached(old(cache)@, self.spec_element_name(), self.spec_style()) is Some
                ==> final(cache).registrations() == old(cache).registrations(),
            cached(old(cache)@, self.spec_element_name(), self.spec_style()) is None
                ==> final(cache).registrations() == old(cache).registrations().push(
                (self.spec_element_name(), self.spec_style()),
            ),
    {
        let element = self.element_name();
        let style = self.yield_style_str();
        cache.class_name_for(element.as_str(), style.as_str())
    }
}

/// The class an element carries, swapped as its generated class changes.
#[derive(Clone, Debug)]
pub struct ClassSlot {
    current: Option<String>,
}

/// A change to an element's class list: the class to take off, if any, and
/// the class to put on.
#[derive(Clone, Debug)]
pub struct ClassChange {
    pub remove: Option<String>,
    pub add: String,
}

impl ClassSlot {
    pub closed spec fn spec_current(&self) -> Option<Seq<char>> {
        opt_view(self.current)
    }

    /// A slot for an element that carries no generated class yet.
    pub fn new() -> (r: ClassSlot)
        ensures
            r.spec_current() is None,
    {
        ClassSlot { current: None }
    }

    pub fn current(&self) -> (r: Option<&String>)
        ensures
            match r {
                Some(c) => self.spec_current() == Some(c@),
                None => self.spec_current() is None,
            },
    {
        self.current.as_ref()
    }

    /// The element's class is now to be `class`: nothing changes where it
    /// already is; else the old class, if any, comes off and `class` goes on.
    pub fn apply(&mut self, class: String) -> (r: Option<ClassChange>)
        ensures
            final(self).spec_current() == Some(class@),
            old(self).spec_current() == Some(class@) ==> r is None,
            old(self).spec_current() != Some(class@) ==> (r matches Some(c) && c.add@ == class@
                && opt_view(c.remove) == old(self).spec_current()),
    {
        match &self.current {
            Some(c) => {
                if *c == class {
                    return None;
                }
            },
            None => {},
        }
        let remove = self.current.take();
        self.current = Some(class.clone());
        Some(ClassChange { remove, add: class })
    }
}

/// Entry `i` of a registry with unique keys is the entry `cached` picks.
proof fn lemma_cached_at(entries: Seq<EntryView>, element: Seq<char>, css: Seq<char>, i: int)
    requires
        keys_unique(entries),
        holds_key(entries, element, css, i),
    ensures
        cached(entries, element, css) == Some(entries[i].2),
{
    let k = choose|k: int| holds_key(entries, element, css, k);
    assert(holds_key(entries, element, css, k));
    if k != i {
        assert((entries[i].0, entries[i].1) != (entries[k].0, entries[k].1));
    }
}

/// Asking twice for one pair gives the same class name and registers the
/// style once: after a request that registered the pair under a name no
/// other pair holds, the registry holds it with that name, keeps one entry
/// per pair and one pair per name, grows by one entry, and leaves every
/// pair cached before with its class name.
pub proof fn lemma_second_request_hits(
    entries: Seq<EntryView>,
    element: Seq<char>,
    css: Seq<char>,
    name: Seq<char>,
)
    requires
        registry_ok(entries),
        cached(entries, element, css) is None,
        !holds_name(entries, name),
    ensures
        registry_ok(entries.push((element, css, name))),
        cached(entries.push((element, css, name)), element, css) == Some(name),
        entries.push((element, css, name)).len() == entries.len() + 1,
        forall|e: Seq<char>, c: Seq<char>|
            #[trigger] cached(entries.push((element, css, name)), e, c) != cached(entries, e, c)
                ==> cached(entries, e, c) is None,
{
    let after = entries.push((element, css, name));
    let last = entries.len() as int;
    assert(!exists|i: int| holds_key(entries, element, css, i));
    assert forall|i: int, j: int|
        #![trigger after[i], after[j]]
        0 <= i < after.len() && 0 <= j < after.len() && i != j implies (after[i].0, after[i].1)
            != (after[j].0, after[j].1) && after[i].2 != after[j].2 by {
        if i == last {
            assert(!holds_key(entries, element, css, j));
            assert(entries[j].2 != name);
        } else if j == last {
            assert(!holds_key(entries, element, css, i));
            assert(entries[i].2 != name);
        } else {
            assert(after[i] == entries[i] && after[j] == entries[j]);
        }
    }
    assert(holds_key(after, element, css, last));
    lemma_cached_at(after, element, css, last);
    assert forall|e: Seq<char>, c: Seq<char>|
        #[trigger] cached(after, e, c) != cached(entries, e, c) implies cached(entries, e, c) is None by {
        if exists|i: int| holds_key(entries, e, c, i) {
            let i = choose|i: int| holds_key(entries, e, c, i);
            lemma_cached_at(entries, e, c, i);
            assert(holds_key(after, e, c, i));
            lemma_cached_at(after, e, c, i);
        }
    }
}

/// Two distinct pairs that a sound registry holds have distinct class names.
pub proof fn lemma_distinct_pairs_distinct_names(
    entries: Seq<EntryView>,
    element_a: Seq<char>,
    css_a: Seq<char>,
    element_b: Seq<char>,
    css_b: Seq<char>,
)
    requires
        registry_ok(entries),
        cached(entries, element_a, css_a) is Some,
        cached(entries, element_b, css_b) is Some,
        (element_a, css_a) != (element_b, css_b),
    ensures
        cached(entries, element_a, css_a) != cached(entries, element_b, css_b),
{
    let i = choose|i: int| holds_key(entries, element_a, css_a, i);
    let j = choose|j: int| holds_key(entries, element_b, css_b, j);
    assert(holds_key(entries, element_a, css_a, i));
    assert(holds_key(entries, element_b, css_b, j));
    assert(i != j);
    assert(entries[i].2 != entries[j].2);
}

} // verus!
