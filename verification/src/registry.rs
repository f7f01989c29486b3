//! The template registry: the mapping from logical template names to
//! template sources. Registration parses eagerly, so malformed sources are
//! caught at startup, and never overwrites: a repeated name is an error.
//! Registration also records which child names each source references, but
//! does not resolve them — a reference may name a template registered later,
//! so templates may be registered in any order, and a name still missing when
//! a render needs it is that render's error. The recorded references are
//! checked before each render: a root whose references include each other in
//! a cycle is refused with an error instead of being handed to the engine,
//! whose expansion would never end on it.

use vstd::prelude::*;
use crate::context::Context;
use crate::engine;
use crate::errors::{RegistrationError, RenderError, render_result_view};
use crate::kv::{Entry, lemma_map_of_contains, lemma_map_of_index, lemma_map_of_len,
    lemma_map_of_push, map_of, unique_keys};

verus! {

/// The registry: the engine that holds the parsed templates, beside the
/// entries that record exactly which name carries which source, and, for
/// each entry, the child-template names its source references.
pub struct Registry {
    pub(crate) hbs: handlebars::Handlebars<'static>,
    pub(crate) entries: Vec<Entry>,
    pub(crate) refs: Vec<Vec<String>>,
}

impl View for Registry {
    type V = Map<Seq<char>, Seq<char>>;

    closed spec fn view(&self) -> Map<Seq<char>, Seq<char>> {
        map_of(self.entries@)
    }
}

impl Registry {
    /// Names are unique, the engine is strict, the engine holds exactly the
    /// recorded templates, and each entry's recorded references are the ones
    /// its source statically names.
    pub closed spec fn wf(&self) -> bool {
        &&& unique_keys(self.entries@)
        &&& engine::engine_templates(self.hbs) == map_of(self.entries@)
        &&& engine::engine_strict(self.hbs)
        &&& self.refs@.len() == self.entries@.len()
        &&& forall|i: int|
            0 <= i < self.entries@.len() ==> engine::refs_of(#[trigger] self.entries@[i].value@)
                == Some(self.refs@[i].deep_view())
    }

    /// An empty registry.
    pub fn new() -> (r: Registry)
        ensures
            r.wf(),
            r@ == engine::no_templates(),
    {
        let mut h = engine::engine_new();
        engine::engine_set_strict(&mut h);
        Registry { hbs: h, entries: Vec::new(), refs: Vec::new() }
    }

    /// The index of the entry carrying `name`, if any.
    fn find(&self, name: &str) -> (r: Option<usize>)
        requires
            self.wf(),
        ensures
            match r {
                Some(i) => i < self.entries@.len() && self.entries@[i as int].key@ == name@,
                None => !self@.contains_key(name@),
            },
    {
        let owned: String = name.to_owned();
        let n = self.entries.len();
        for i in 0..n
            invariant
                n == self.entries@.len(),
                owned@ == name@,
                forall|j: int| 0 <= j < i ==> self.entries@[j].key@ != name@,
        {
            if self.entries[i].key == owned {
                return Some(i);
            }
        }
        proof {
            lemma_map_of_contains(self.entries@, name@);
        }
        None
    }

    /// Whether a template is registered under `name`.
    pub fn has_template(&self, name: &str) -> (b: bool)
        requires
            self.wf(),
        ensures
            b == self@.contains_key(name@),
    {
        proof {
            lemma_map_of_contains(self.entries@, name@);
        }
        self.find(name).is_some()
    }

    /// The source registered under `name`, if any.
    pub fn get_source(&self, name: &str) -> (r: Option<&String>)
        requires
            self.wf(),
        ensures
            match r {
                Some(s) => self@.contains_key(name@) && self@[name@] == s@,
                None => !self@.contains_key(name@),
            },
    {
        match self.find(name) {
            Some(i) => {
                proof {
                    lemma_map_of_index(self.entries@, i as int);
                }
                Some(&self.entries[i].value)
            },
            None => None,
        }
    }

    /// Register `source` under `name`. The source is parsed now: a malformed
    /// source is rejected here, not at render time, and so is one whose child
    /// references cannot be recorded statically. A name registered before is
    /// rejected — registration never overwrites — and the registry is left
    /// unchanged by any failure.
    pub fn register(&mut self, name: &str, source: &str) -> (r: Result<(), RegistrationError>)
        requires
            old(self).wf(),
        ensures
            final(self).wf(),
            r is Ok <==> !old(self)@.contains_key(name@) && engine::engine_accepts(source@)
                && engine::refs_of(source@) is Some,
            r is Ok ==> final(self)@ == old(self)@.insert(name@, source@),
            r is Err ==> final(self)@ == old(self)@,
            old(self)@.contains_key(name@) ==> is_duplicate_report(r, name@),
            !old(self)@.contains_key(name@) && !engine::engine_accepts(source@)
                ==> r matches Err(RegistrationError::BadSyntax(_)),
            !old(self)@.contains_key(name@) && engine::engine_accepts(source@)
                && engine::refs_of(source@) is None ==> is_dynamic_report(r, name@),
    {
        if self.find(name).is_some() {
            proof {
                lemma_map_of_contains(self.entries@, name@);
            }
            return Err(RegistrationError::DuplicateName(name.to_owned()));
        }
        match engine::engine_refs(source) {
            engine::RefScan::Invalid(msg) => Err(RegistrationError::BadSyntax(msg)),
            engine::RefScan::Dynamic => Err(
                RegistrationError::DynamicReference(name.to_owned()),
            ),
            engine::RefScan::Static(reference_list) => {
                match engine::engine_register(&mut self.hbs, name, source) {
                    Ok(()) => {
                        let e = Entry { key: name.to_owned(), value: source.to_owned() };
                        proof {
                            lemma_map_of_push(self.entries@, e);
                            lemma_map_of_contains(self.entries@, name@);
                        }
                        self.entries.push(e);
                        self.refs.push(reference_list);
                        Ok(())
                    },
                    Err(msg) => {
                        proof {
                            assert(false);
                        }
                        Err(RegistrationError::BadSyntax(msg))
                    },
                }
            },
        }
    }

    /// Whether every chain of recorded references out of `name` resolves
    /// within `fuel` levels of expansion.
    fn expands_within(&self, name: &str, fuel: usize) -> (b: bool)
        requires
            self.wf(),
        ensures
            b == engine::spec_expands(self@, name@, fuel as nat),
        decreases fuel,
    {
        let found = self.find(name);
        match found {
            None => true,
            Some(i) => {
                proof {
                    lemma_map_of_index(self.entries@, i as int);
                }
                if fuel == 0 {
                    return false;
                }
                let ghost rs_spec = engine::refs_of(self@[name@])->Some_0;
                let reference_list = &self.refs[i];
                let m = reference_list.len();
                proof {
                    assert(rs_spec == reference_list.deep_view());
                    assert(rs_spec.len() == m);
                }
                for k in 0..m
                    invariant
                        self.wf(),
                        fuel >= 1,
                        m == reference_list@.len(),
                        reference_list == &self.refs[i as int],
                        i < self.entries@.len(),
                        self.entries@[i as int].key@ == name@,
                        rs_spec == engine::refs_of(self@[name@])->Some_0,
                        engine::refs_of(self@[name@]) is Some,
                        self@.contains_key(name@),
                        rs_spec.len() == m,
                        forall|j: int| 0 <= j < m ==> rs_spec[j] == reference_list@[j]@,
                        forall|j: int|
                            0 <= j < k ==> engine::spec_expands(
                                self@,
                                #[trigger] rs_spec[j],
                                (fuel - 1) as nat,
                            ),
                {
                    if !self.expands_within(reference_list[k].as_str(), fuel - 1) {
                        proof {
                            assert(!engine::spec_expands(
                                self@,
                                rs_spec[k as int],
                                (fuel - 1) as nat,
                            ));
                        }
                        return false;
                    }
                }
                true
            },
        }
    }

    /// Render the template registered under `template_name` against the
    /// context: look the name up, evaluate its body, substitute context
    /// values, and recursively render every referenced child template. The
    /// outcome is a function of the registry contents, the name and the
    /// context data alone — nothing is mutated, and repeating the call with
    /// unchanged inputs yields a byte-identical result. A name with no
    /// registered template fails with a missing-template error of that name;
    /// a name whose recorded references include each other in a cycle fails
    /// with a circular-reference error before the engine is asked to expand
    /// them.
    pub fn render(&self, template_name: &str, context: &Context) -> (r: Result<
        String,
        RenderError,
    >)
        requires
            self.wf(),
            context.wf(),
        ensures
            render_result_view(r) == engine::spec_render_outcome(self@, template_name@, context@),
            !self@.contains_key(template_name@) ==> engine::reports_missing_template(
                r,
                template_name@,
            ),
    {
        proof {
            lemma_map_of_len(self.entries@);
        }
        let fuel = self.entries.len();
        if self.expands_within(template_name, fuel) {
            engine::engine_render_page(&self.hbs, template_name, context)
        } else {
            Err(RenderError::CircularReference(template_name.to_owned()))
        }
    }

    /// Register every pair of `templates` in order, stopping at the first
    /// failure.
    pub fn register_all(&mut self, templates: &Vec<(String, String)>) -> (r: Result<
        (),
        RegistrationError,
    >)
        requires
            old(self).wf(),
        ensures
            final(self).wf(),
            r is Ok <==> all_registrable(old(self)@, templates@),
            r is Ok ==> final(self)@ == registered(old(self)@, templates@),
    {
        let ghost goal = registered(old(self)@, templates@);
        proof {
            assert(templates@.skip(0) =~= templates@);
        }
        let n = templates.len();
        for i in 0..n
            invariant
                n == templates@.len(),
                self.wf(),
                goal == registered(self@, templates@.skip(i as int)),
                all_registrable(old(self)@, templates@) <==> all_registrable(
                    self@,
                    templates@.skip(i as int),
                ),
                all_registrable(self@, templates@.skip(i as int)) ==> goal == registered(
                    old(self)@,
                    templates@,
                ),
        {
            let ghost rest = templates@.skip(i as int);
            proof {
                assert(rest[0] == templates@[i as int]);
                assert(rest.drop_first() =~= templates@.skip(i as int + 1));
            }
            let name = &templates[i].0;
            let source = &templates[i].1;
            match self.register(name.as_str(), source.as_str()) {
                Ok(()) => {},
                Err(e) => {
                    return Err(e);
                },
            }
        }
        proof {
            assert(templates@.skip(n as int) =~= Seq::<(String, String)>::empty());
        }
        Ok(())
    }
}

/// The registry contents after registering each pair in order, first to last.
pub open spec fn registered(m: Map<Seq<char>, Seq<char>>, pairs: Seq<(String, String)>) -> Map<
    Seq<char>,
    Seq<char>,
>
    decreases pairs.len(),
{
    if pairs.len() == 0 {
        m
    } else {
        registered(m.insert(pairs[0].0@, pairs[0].1@), pairs.drop_first())
    }
}

/// Whether registering each pair in order succeeds throughout: every name
/// fresh at its turn, every source accepted by the engine.
pub open spec fn all_registrable(m: Map<Seq<char>, Seq<char>>, pairs: Seq<(String, String)>) -> bool
    decreases pairs.len(),
{
    if pairs.len() == 0 {
        true
    } else {
        &&& !m.contains_key(pairs[0].0@)
        &&& engine::engine_accepts(pairs[0].1@)
        &&& engine::refs_of(pairs[0].1@) is Some
        &&& all_registrable(m.insert(pairs[0].0@, pairs[0].1@), pairs.drop_first())
    }
}

/// Whether a registration result reports a dynamic reference in the source
/// registered under exactly this name.
pub open spec fn is_dynamic_report(r: Result<(), RegistrationError>, name: Seq<char>) -> bool {
    r matches Err(RegistrationError::DynamicReference(n)) && n@ == name
}

/// Whether a registration result reports a duplicate of exactly this name.
pub open spec fn is_duplicate_report(r: Result<(), RegistrationError>, name: Seq<char>) -> bool {
    r matches Err(RegistrationError::DuplicateName(n)) && n@ == name
}

/// Rendering is deterministic: the outcome depends on nothing beyond the
/// registry contents, the template name and the context data, so two renders
/// of equal inputs — in particular two renders of the same unchanged registry
/// and context — are byte-identical.
pub proof fn lemma_render_deterministic(
    t1: Map<Seq<char>, Seq<char>>,
    t2: Map<Seq<char>, Seq<char>>,
    name1: Seq<char>,
    name2: Seq<char>,
    d1: Map<Seq<char>, Seq<char>>,
    d2: Map<Seq<char>, Seq<char>>,
)
    requires
        t1 == t2,
        name1 == name2,
        d1 == d2,
    ensures
        engine::spec_render_outcome(t1, name1, d1) == engine::spec_render_outcome(t2, name2, d2),
{
}

/// Registering two accepted sources under distinct fresh names succeeds in
/// either order, and both orders leave the same registry contents.
pub proof fn lemma_two_registrations_commute(
    m: Map<Seq<char>, Seq<char>>,
    p1: (String, String),
    p2: (String, String),
)
    requires
        p1.0@ != p2.0@,
        !m.contains_key(p1.0@),
        !m.contains_key(p2.0@),
        engine::engine_accepts(p1.1@),
        engine::engine_accepts(p2.1@),
        engine::refs_of(p1.1@) is Some,
        engine::refs_of(p2.1@) is Some,
    ensures
        all_registrable(m, seq![p1, p2]),
        all_registrable(m, seq![p2, p1]),
        registered(m, seq![p1, p2]) == registered(m, seq![p2, p1]),
{
    assert(seq![p1, p2].drop_first() =~= seq![p2]);
    assert(seq![p2, p1].drop_first() =~= seq![p1]);
    assert(seq![p2].drop_first() =~= Seq::<(String, String)>::empty());
    assert(seq![p1].drop_first() =~= Seq::<(String, String)>::empty());
    let m1 = m.insert(p1.0@, p1.1@);
    let m2 = m.insert(p2.0@, p2.1@);
    assert(seq![p1][0] == p1 && seq![p2][0] == p2);
    assert(seq![p1, p2][0] == p1 && seq![p2, p1][0] == p2);
    assert(all_registrable(m1.insert(p2.0@, p2.1@), Seq::<(String, String)>::empty()));
    assert(all_registrable(m2.insert(p1.0@, p1.1@), Seq::<(String, String)>::empty()));
    assert(all_registrable(m1, seq![p2]));
    assert(all_registrable(m2, seq![p1]));
    assert(registered(m1.insert(p2.0@, p2.1@), Seq::<(String, String)>::empty()) == m1.insert(
        p2.0@,
        p2.1@,
    ));
    assert(registered(m2.insert(p1.0@, p1.1@), Seq::<(String, String)>::empty()) == m2.insert(
        p1.0@,
        p1.1@,
    ));
    assert(registered(m1, seq![p2]) == m1.insert(p2.0@, p2.1@));
    assert(registered(m2, seq![p1]) == m2.insert(p1.0@, p1.1@));
    assert(registered(m, seq![p1, p2]) == m1.insert(p2.0@, p2.1@));
    assert(registered(m, seq![p2, p1]) == m2.insert(p1.0@, p1.1@));
    lemma_registration_order_irrelevant(m, p1.0@, p1.1@, p2.0@, p2.1@);
}

/// Registering two templates under distinct names leaves the same registry
/// contents in either order: registration order is irrelevant as long as the
/// names differ.
pub proof fn lemma_registration_order_irrelevant(
    m: Map<Seq<char>, Seq<char>>,
    n1: Seq<char>,
    s1: Seq<char>,
    n2: Seq<char>,
    s2: Seq<char>,
)
    requires
        n1 != n2,
    ensures
        m.insert(n1, s1).insert(n2, s2) == m.insert(n2, s2).insert(n1, s1),
{
    assert(m.insert(n1, s1).insert(n2, s2) =~= m.insert(n2, s2).insert(n1, s1));
}

} // verus!
