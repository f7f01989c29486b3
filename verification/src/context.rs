//! The data context: the key/value map consulted during rendering. Structural
//! keys map a region of the page to the template meant to fill it; flag keys
//! carry rendering-relevant primitives as strings.

use vstd::prelude::*;
use crate::kv::{Entry, lemma_map_of_contains, lemma_map_of_index, lemma_map_of_push,
    lemma_map_of_update, map_of, unique_keys};

verus! {

/// The name/value mapping injected into every render.
#[derive(Debug, Clone)]
pub struct Context {
    pub(crate) entries: Vec<Entry>,
}

impl View for Context {
    type V = Map<Seq<char>, Seq<char>>;

    closed spec fn view(&self) -> Map<Seq<char>, Seq<char>> {
        map_of(self.entries@)
    }
}

impl Context {
    /// Each key appears in at most one entry.
    pub closed spec fn wf(&self) -> bool {
        unique_keys(self.entries@)
    }

    /// An empty context.
    pub fn new() -> (c: Context)
        ensures
            c.wf(),
            c@ == Map::<Seq<char>, Seq<char>>::empty(),
    {
        Context { entries: Vec::new() }
    }

    /// The index of the entry carrying `key`, if any.
    fn find(&self, key: &str) -> (r: Option<usize>)
        requires
            self.wf(),
        ensures
            match r {
                Some(i) => i < self.entries@.len() && self.entries@[i as int].key@ == key@,
                None => !self@.contains_key(key@),
            },
    {
        let owned: String = key.to_owned();
        let n = self.entries.len();
        for i in 0..n
            invariant
                n == self.entries@.len(),
                owned@ == key@,
                forall|j: int| 0 <= j < i ==> self.entries@[j].key@ != key@,
        {
            if self.entries[i].key == owned {
                return Some(i);
            }
        }
        proof {
            lemma_map_of_contains(self.entries@, key@);
        }
        None
    }

    /// Bind `key` to `value`, replacing any earlier binding of the same key.
    pub fn insert(&mut self, key: &str, value: &str)
        requires
            old(self).wf(),
        ensures
            final(self).wf(),
            final(self)@ == old(self)@.insert(key@, value@),
    {
        let e = Entry { key: key.to_owned(), value: value.to_owned() };
        match self.find(key) {
            Some(i) => {
                proof {
                    lemma_map_of_update(self.entries@, i as int, e);
                }
                self.entries[i] = e;
            },
            None => {
                proof {
                    lemma_map_of_push(self.entries@, e);
                    lemma_map_of_contains(self.entries@, key@);
                }
                self.entries.push(e);
            },
        }
    }

    /// The value bound to `key`, if any.
    pub fn get(&self, key: &str) -> (r: Option<&String>)
        requires
            self.wf(),
        ensures
            match r {
                Some(v) => self@.contains_key(key@) && self@[key@] == v@,
                None => !self@.contains_key(key@),
            },
    {
        match self.find(key) {
            Some(i) => {
                proof {
                    lemma_map_of_index(self.entries@, i as int);
                }
                Some(&self.entries[i].value)
            },
            None => None,
        }
    }
}

/// The fixed context of the site: each structural region name bound to the
/// template file meant to fill it, plus the feature flags.
pub open spec fn spec_standard_context() -> Map<Seq<char>, Seq<char>> {
    Map::empty()
        .insert("app"@, "app.hbs"@)
        .insert("footer"@, "footer.hbs"@)
        .insert("header"@, "header.hbs"@)
        .insert("main"@, "main.hbs"@)
        .insert("leftside"@, "leftside.hbs"@)
        .insert("rightside"@, "rightside.hbs"@)
        .insert("carousel_images"@, "carousel_images.hbs"@)
        .insert("news"@, "news.hbs"@)
        .insert("courses_card"@, "courses_card.hbs"@)
        .insert("events_card"@, "events_card.hbs"@)
        .insert("faculity_card"@, "faculity_card.hbs"@)
        .insert("about"@, "about.hbs"@)
        .insert("is_admin"@, "true"@)
}

/// Build the fixed context the site renders with: pure and deterministic.
pub fn construct_data() -> (c: Context)
    ensures
        c.wf(),
        c@ == spec_standard_context(),
{
    let mut c = Context::new();
    c.insert("app", "app.hbs");
    c.insert("footer", "footer.hbs");
    c.insert("header", "header.hbs");
    c.insert("main", "main.hbs");
    c.insert("leftside", "leftside.hbs");
    c.insert("rightside", "rightside.hbs");
    c.insert("carousel_images", "carousel_images.hbs");
    c.insert("news", "news.hbs");
    c.insert("courses_card", "courses_card.hbs");
    c.insert("events_card", "events_card.hbs");
    c.insert("faculity_card", "faculity_card.hbs");
    c.insert("about", "about.hbs");
    c.insert("is_admin", "true");
    c
}

} // verus!
