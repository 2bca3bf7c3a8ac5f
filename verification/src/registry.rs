//! In-memory glyph registry hydrated from `system/glyphs/{name}` retained
//! publishes. An empty payload is a tombstone.
use vstd::prelude::*;
use crate::text::{contains_char, strip_prefix};

verus! {

broadcast use vstd::string::group_string_axioms;

/// Topic prefix of the retained glyph publishes.
pub const GLYPH_TOPIC_PREFIX: &'static str = "system/glyphs/";

/// A named glyph of the registry: `pattern` is a 9x9 text grid for
/// `Glyph::from_str`; `builtin` glyphs are drawn by the consumer itself.
#[derive(Debug)]
pub struct RegisteredGlyph {
    pub name: String,
    pub pattern: String,
    pub builtin: bool,
}

impl View for RegisteredGlyph {
    type V = (Seq<char>, Seq<char>, bool);

    open spec fn view(&self) -> (Seq<char>, Seq<char>, bool) {
        (self.name@, self.pattern@, self.builtin)
    }
}

impl Clone for RegisteredGlyph {
    fn clone(&self) -> (c: Self)
        ensures
            c@ == self@,
    {
        RegisteredGlyph {
            name: self.name.clone(),
            pattern: self.pattern.clone(),
            builtin: self.builtin,
        }
    }
}

/// The glyph (name, pattern, builtin) that serde_json decodes from a JSON
/// payload as a `weave_contracts::Glyph`, or `None` where decoding fails.
pub uninterp spec fn weave_glyph_from_json(payload: Seq<u8>) -> Option<(Seq<char>, Seq<char>, bool)>;

/// Decodes a glyph payload with `serde_json::from_slice::<weave_contracts::Glyph>`.
///
/// Trusted: the result is the value `weave_glyph_from_json` names for the
/// payload's bytes (serde decoding depends on the bytes alone); the decoding
/// rules themselves (JSON syntax, required `name`, defaulted `pattern` and
/// `builtin`) are not restated.
#[verifier::external_body]
fn decode_weave_glyph(payload: &[u8]) -> (g: Option<RegisteredGlyph>)
    ensures
        match g {
            Some(g) => weave_glyph_from_json(payload@) == Some(g@),
            None => weave_glyph_from_json(payload@) is None,
        },
{
    serde_json::from_slice::<weave_contracts::Glyph>(payload).ok().map(
        |g| RegisteredGlyph { name: g.name, pattern: g.pattern, builtin: g.builtin },
    )
}

/// What applying a retained payload did.
#[derive(Debug, Clone, Copy, PartialEq, Eq, Structural)]
pub enum ApplyOutcome {
    /// The payload was a tombstone; the name is gone.
    Removed,
    /// The payload decoded; the glyph is stored under its own name.
    Stored,
    /// The payload did not decode; nothing changed.
    Undecodable,
}

/// Registry of named glyphs, keyed by glyph name.
pub struct GlyphRegistry {
    entries: Vec<RegisteredGlyph>,
}

impl View for GlyphRegistry {
    type V = Map<Seq<char>, (Seq<char>, Seq<char>, bool)>;

    /// Each name maps to its glyph (name, pattern, builtin).
    closed spec fn view(&self) -> Map<Seq<char>, (Seq<char>, Seq<char>, bool)> {
        Map::new(
            |n: Seq<char>| exists|i: int| 0 <= i < self.entries.len() && self.entries[i].name@ == n,
            |n: Seq<char>|
                self.entries[choose|i: int|
                    0 <= i < self.entries.len() && self.entries[i].name@ == n]@,
        )
    }
}

impl GlyphRegistry {
    /// No name occurs twice.
    #[verifier::type_invariant]
    spec fn names_unique(self) -> bool {
        forall|i: int, j: int|
            0 <= i < self.entries.len() && 0 <= j < self.entries.len() && i != j
                ==> #[trigger] self.entries[i].name@ != #[trigger] self.entries[j].name@
    }

    proof fn lemma_view_at(&self, i: int)
        requires
            self.names_unique(),
            0 <= i < self.entries.len(),
        ensures
            self@.contains_key(self.entries[i].name@),
            self@[self.entries[i].name@] == self.entries[i]@,
    {
        let n = self.entries[i].name@;
        assert(exists|k: int| 0 <= k < self.entries.len() && self.entries[k].name@ == n);
        let k: int = choose|k: int| 0 <= k < self.entries.len() && self.entries[k].name@ == n;
        assert(k == i);
    }

    /// Position of the entry named `name`, if any.
    fn position(&self, name: &String) -> (pos: Option<usize>)
        requires
            self.names_unique(),
        ensures
            match pos {
                Some(i) => i < self.entries.len() && self.entries[i as int].name@ == name@,
                None => !self@.contains_key(name@),
            },
    {
        let mut i: usize = 0;
        while i < self.entries.len()
            invariant
                i <= self.entries.len(),
                forall|j: int| 0 <= j < i ==> self.entries[j].name@ != name@,
            decreases self.entries.len() - i,
        {
            if self.entries[i].name == *name {
                return Some(i);
            }
            i = i + 1;
        }
        None
    }

    /// An empty registry.
    pub fn new() -> (r: Self)
        ensures
            r@ == Map::<Seq<char>, (Seq<char>, Seq<char>, bool)>::empty(),
    {
        let r = GlyphRegistry { entries: Vec::new() };
        assert(r@ =~= Map::<Seq<char>, (Seq<char>, Seq<char>, bool)>::empty());
        r
    }

    /// Insert a glyph under its own name, replacing any glyph of that name.
    pub fn upsert(&mut self, glyph: RegisteredGlyph)
        ensures
            final(self)@ == old(self)@.insert(glyph.name@, glyph@),
    {
        proof {
            use_type_invariant(&*self);
        }
        let ghost g = glyph@;
        let ghost before = *self;
        let ghost old_view = self@;
        match self.position(&glyph.name) {
            Some(i) => {
                let mut entries: Vec<RegisteredGlyph> = Vec::new();
                std::mem::swap(&mut entries, &mut self.entries);
                entries.set(i, glyph);
                let ghost es = entries;
                proof {
                    assert forall|a: int, b: int|
                        0 <= a < es.len() && 0 <= b < es.len() && a != b
                            implies #[trigger] es[a].name@ != #[trigger] es[b].name@ by {
                        assert(es[a].name@ == before.entries[a].name@);
                        assert(es[b].name@ == before.entries[b].name@);
                    }
                }
                self.entries = entries;
                proof {
                    let ents = before.entries;
                    assert forall|n: Seq<char>| #[trigger] self@.contains_key(n)
                        <==> old_view.insert(g.0, g).contains_key(n) by {
                        if old_view.contains_key(n) {
                            let k: int = choose|k: int| 0 <= k < ents.len() && ents[k].name@ == n;
                            assert(self.entries[k].name@ == n);
                        }
                        if self@.contains_key(n) {
                            let k: int = choose|k: int|
                                0 <= k < self.entries.len() && self.entries[k].name@ == n;
                            assert(ents[k].name@ == n);
                        }
                    }
                    assert forall|n: Seq<char>| #[trigger] self@.contains_key(n) implies self@[n]
                        == old_view.insert(g.0, g)[n] by {
                        let k: int = choose|k: int|
                            0 <= k < self.entries.len() && self.entries[k].name@ == n;
                        self.lemma_view_at(k);
                        if k != i {
                            before.lemma_view_at(k);
                        }
                    }
                    assert(self@ =~= old_view.insert(g.0, g));
                }
            },
            None => {
                let mut entries: Vec<RegisteredGlyph> = Vec::new();
                std::mem::swap(&mut entries, &mut self.entries);
                entries.push(glyph);
                let ghost es = entries;
                proof {
                    assert forall|a: int, b: int|
                        0 <= a < es.len() && 0 <= b < es.len() && a != b
                            implies #[trigger] es[a].name@ != #[trigger] es[b].name@ by {
                        if a == es.len() - 1 || b == es.len() - 1 {
                        } else {
                            assert(es[a] == before.entries[a]);
                            assert(es[b] == before.entries[b]);
                        }
                    }
                }
                self.entries = entries;
                proof {
                    let ents = before.entries;
                    let last: int = self.entries.len() - 1;
                    assert forall|n: Seq<char>| #[trigger] self@.contains_key(n)
                        <==> old_view.insert(g.0, g).contains_key(n) by {
                        if old_view.contains_key(n) {
                            let k: int = choose|k: int| 0 <= k < ents.len() && ents[k].name@ == n;
                            assert(self.entries[k].name@ == n);
                        }
                        if n == g.0 {
                            assert(self.entries[last].name@ == n);
                        }
                    }
                    assert forall|n: Seq<char>| #[trigger] self@.contains_key(n) implies self@[n]
                        == old_view.insert(g.0, g)[n] by {
                        let k: int = choose|k: int|
                            0 <= k < self.entries.len() && self.entries[k].name@ == n;
                        self.lemma_view_at(k);
                        if k != last {
                            before.lemma_view_at(k);
                        }
                    }
                    assert(self@ =~= old_view.insert(g.0, g));
                }
            },
        }
    }

    /// Remove the glyph named `name`, if any.
    pub fn remove(&mut self, name: &str)
        ensures
            final(self)@ == old(self)@.remove(name@),
    {
        proof {
            use_type_invariant(&*self);
        }
        let key = String::from_str(name);
        let ghost before = *self;
        let ghost old_view = self@;
        match self.position(&key) {
            Some(i) => {
                let mut entries: Vec<RegisteredGlyph> = Vec::new();
                std::mem::swap(&mut entries, &mut self.entries);
                let ghost es0 = entries;
                let _removed = entries.remove(i);
                let ghost es = entries;
                proof {
                    assert forall|a: int, b: int|
                        0 <= a < es.len() && 0 <= b < es.len() && a != b
                            implies #[trigger] es[a].name@ != #[trigger] es[b].name@ by {
                        let a0: int = if a < i { a } else { a + 1 };
                        let b0: int = if b < i { b } else { b + 1 };
                        assert(es[a] == es0[a0]);
                        assert(es[b] == es0[b0]);
                    }
                }
                self.entries = entries;
                proof {
                    let ents = before.entries;
                    assert forall|n: Seq<char>| #[trigger] self@.contains_key(n)
                        <==> old_view.remove(name@).contains_key(n) by {
                        if old_view.contains_key(n) && n != name@ {
                            let k: int = choose|k: int| 0 <= k < ents.len() && ents[k].name@ == n;
                            assert(k != i);
                            let k2: int = if k < i { k } else { k - 1 };
                            assert(self.entries[k2] == ents[k]);
                        }
                        if self@.contains_key(n) {
                            let k: int = choose|k: int|
                                0 <= k < self.entries.len() && self.entries[k].name@ == n;
                            let k0: int = if k < i { k } else { k + 1 };
                            assert(ents[k0] == self.entries[k]);
                            assert(k0 != i);
                        }
                    }
                    assert forall|n: Seq<char>| #[trigger] self@.contains_key(n) implies self@[n]
                        == old_view.remove(name@)[n] by {
                        let k: int = choose|k: int|
                            0 <= k < self.entries.len() && self.entries[k].name@ == n;
                        let k0: int = if k < i { k } else { k + 1 };
                        assert(ents[k0] == self.entries[k]);
                        self.lemma_view_at(k);
                        before.lemma_view_at(k0);
                    }
                    assert(self@ =~= old_view.remove(name@));
                }
            },
            None => {
                proof {
                    assert(self@ =~= old_view.remove(name@));
                }
            },
        }
    }

    /// Store a decoded glyph under `name`, the name its topic gives; a
    /// payload that did not decode (`None`) leaves the registry as it was.
    pub fn apply_decoded(&mut self, name: &str, decoded: Option<RegisteredGlyph>)
        ensures
            match decoded {
                Some(g) => final(self)@ == old(self)@.insert(name@, (name@, g.pattern@, g.builtin)),
                None => final(self)@ == old(self)@,
            },
    {
        match decoded {
            Some(g) => self.upsert(
                RegisteredGlyph { name: String::from_str(name), pattern: g.pattern, builtin: g.builtin },
            ),
            None => {},
        }
    }

    /// Apply a retained message payload. Name is taken from the last segment
    /// of the topic. Empty payload removes the entry; any other payload is
    /// decoded as a glyph and stored under that name.
    pub fn apply(&mut self, name: &str, payload: &[u8]) -> (outcome: ApplyOutcome)
        ensures
            payload@.len() == 0 ==> final(self)@ == old(self)@.remove(name@) && outcome
                == ApplyOutcome::Removed,
            payload@.len() > 0 ==> match weave_glyph_from_json(payload@) {
                Some(g) => final(self)@ == old(self)@.insert(name@, (name@, g.1, g.2)) && outcome
                    == ApplyOutcome::Stored,
                None => final(self)@ == old(self)@ && outcome == ApplyOutcome::Undecodable,
            },
    {
        if payload.len() == 0 {
            self.remove(name);
            return ApplyOutcome::Removed;
        }
        let decoded = decode_weave_glyph(payload);
        let outcome = if decoded.is_some() {
            ApplyOutcome::Stored
        } else {
            ApplyOutcome::Undecodable
        };
        self.apply_decoded(name, decoded);
        outcome
    }

    /// The glyph named `name`, if any.
    pub fn get(&self, name: &str) -> (g: Option<RegisteredGlyph>)
        ensures
            match g {
                Some(g) => self@.contains_key(name@) && self@[name@] == g@,
                None => !self@.contains_key(name@),
            },
    {
        proof {
            use_type_invariant(self);
        }
        let key = String::from_str(name);
        match self.position(&key) {
            Some(i) => {
                proof {
                    self.lemma_view_at(i as int);
                }
                Some(self.entries[i].clone())
            },
            None => None,
        }
    }
}

/// The glyph name a topic carries: the segment after `system/glyphs/`,
/// when that is the topic's final segment.
pub open spec fn glyph_topic_name(topic: Seq<char>) -> Option<Seq<char>> {
    let rest = topic.skip(GLYPH_TOPIC_PREFIX@.len() as int);
    if GLYPH_TOPIC_PREFIX@.is_prefix_of(topic) && !rest.contains('/') {
        Some(rest)
    } else {
        None
    }
}

/// Parse `system/glyphs/{name}` into its final segment. Returns None for
/// any topic that doesn't match, including one with further segments.
pub fn topic_to_name(topic: &str) -> (name: Option<&str>)
    ensures
        match glyph_topic_name(topic@) {
            Some(n) => name matches Some(r) && r@ == n,
            None => name is None,
        },
        name matches Some(n) ==> topic@ == GLYPH_TOPIC_PREFIX@ + n@ && !n@.contains('/'),
{
    match strip_prefix(topic, GLYPH_TOPIC_PREFIX) {
        Some(rest) => {
            proof {
                assert(rest@ =~= topic@.skip(GLYPH_TOPIC_PREFIX@.len() as int));
            }
            if contains_char(rest, '/') {
                None
            } else {
                Some(rest)
            }
        },
        None => None,
    }
}

/// Reading the registry gives back what the last write of a name left:
/// a stored glyph after an upsert, nothing after a tombstone, and other
/// names are untouched by either.
pub proof fn law_registry_read_after_write(
    m: Map<Seq<char>, (Seq<char>, Seq<char>, bool)>,
    g: (Seq<char>, Seq<char>, bool),
    other: Seq<char>,
)
    requires
        other != g.0,
    ensures
        m.insert(g.0, g).contains_key(g.0) && m.insert(g.0, g)[g.0] == g,
        !m.remove(g.0).contains_key(g.0),
        m.insert(g.0, g).contains_key(other) == m.contains_key(other),
        m.remove(g.0).contains_key(other) == m.contains_key(other),
        m.contains_key(other) ==> m.insert(g.0, g)[other] == m[other] && m.remove(g.0)[other]
            == m[other],
{
}

/// Every name without a `'/'` is recovered from its glyph topic.
pub proof fn law_topic_name_roundtrip(name: Seq<char>)
    requires
        !name.contains('/'),
    ensures
        glyph_topic_name(GLYPH_TOPIC_PREFIX@ + name) == Some(name),
{
    let t = GLYPH_TOPIC_PREFIX@ + name;
    assert(t.take(GLYPH_TOPIC_PREFIX@.len() as int) =~= GLYPH_TOPIC_PREFIX@);
    assert(t.skip(GLYPH_TOPIC_PREFIX@.len() as int) =~= name);
}

} // verus!
