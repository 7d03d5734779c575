//! The namespace registry: a mapping from short prefix to IRI base, seeded
//! with a fixed set of well-known prefixes, used to expand `prefix:local`
//! notation into full IRIs.
//!
//! Resolution of text with no registered prefix treats the text as a full
//! IRI and validates it; malformed IRI text is reported as an explicit
//! resolution failure instead of silently degrading to an unmatchable
//! empty term.

use vstd::prelude::*;
use vstd::pervasive::VecAdditionalExecFns;
use vstd::string::StrSliceExecFns;
use vstd::string::StringExecFns;

use crate::term::Term;
use crate::term::TermV;
use crate::text::find_first;
use crate::text::first_occ;

verus! {

/// Is the text a well-formed IRI reference? Left abstract: the judgement
/// depends on the characters alone and is made by an IRI parser.
pub uninterp spec fn iri_valid(s: Seq<char>) -> bool;

/// Relies on `sophia_iri::IriRef::new`, which returns `Ok` exactly when
/// the text satisfies the RFC 3987 `IRI-reference` grammar; the judgement
/// is a function of the characters alone.
#[verifier::external_body]
fn check_iri(s: &str) -> (r: bool)
    ensures
        r == iri_valid(s@),
{
    sophia_iri::IriRef::new(s).is_ok()
}

/// Are all pair keys distinct?
pub open spec fn unique_keys(s: Seq<(Seq<char>, Seq<char>)>) -> bool {
    forall|i: int, j: int| 0 <= i < j < s.len() ==> (#[trigger] s[i]).0 != (#[trigger] s[j]).0
}

/// The mapping denoted by a sequence of (prefix, base) pairs; on duplicate
/// keys the later pair wins.
pub open spec fn pairs_to_map(s: Seq<(Seq<char>, Seq<char>)>) -> Map<Seq<char>, Seq<char>>
    decreases s.len(),
{
    if s.len() == 0 {
        Map::empty()
    } else {
        pairs_to_map(s.drop_last()).insert(s.last().0, s.last().1)
    }
}

/// The fixed seed set of well-known prefixes, part of the observable
/// contract: data expressed with these prefixes must resolve the same way
/// in every store instance.
pub open spec fn seed_map() -> Map<Seq<char>, Seq<char>> {
    Map::empty().insert("sn"@, "https://sinople.org/ontology#"@).insert(
        "rdf"@,
        "https://www.w3.org/1999/02/22-rdf-syntax-ns#"@,
    ).insert("rdfs"@, "https://www.w3.org/2000/01/rdf-schema#"@).insert(
        "owl"@,
        "https://www.w3.org/2002/07/owl#"@,
    ).insert("xsd"@, "https://www.w3.org/2001/XMLSchema#"@)
}

/// What resolving `input` against the registry mapping `ns` yields: if the
/// text up to the first `:` is a registered prefix, the base concatenated
/// with the rest; otherwise the whole text as a full IRI when it is valid,
/// and a resolution failure when it is not.
pub open spec fn resolve_spec(ns: Map<Seq<char>, Seq<char>>, input: Seq<char>) -> Result<
    TermV,
    (),
> {
    let i = first_occ(input, ':');
    if i >= 0 && ns.contains_key(input.take(i)) {
        Ok(TermV::Iri(ns[input.take(i)] + input.skip(i + 1)))
    } else if iri_valid(input) {
        Ok(TermV::Iri(input))
    } else {
        Err(())
    }
}

/// An unregistered prefix or malformed IRI could not be resolved; carries
/// the text that failed.
#[derive(Debug)]
pub struct ResolutionFailure {
    pub input: String,
}

/// Mapping from short prefix to IRI base. Prefixes are unique keys;
/// lookup of an unregistered prefix falls back to full-IRI interpretation
/// of the whole text, never to a silent empty term.
pub struct NamespaceRegistry {
    pairs: Vec<(String, String)>,
}

impl View for NamespaceRegistry {
    type V = Map<Seq<char>, Seq<char>>;

    closed spec fn view(&self) -> Map<Seq<char>, Seq<char>> {
        pairs_to_map(self.pairs.deep_view())
    }
}

proof fn lemma_pairs_map_index(s: Seq<(Seq<char>, Seq<char>)>, i: int)
    requires
        unique_keys(s),
        0 <= i < s.len(),
    ensures
        pairs_to_map(s).contains_key(s[i].0),
        pairs_to_map(s)[s[i].0] == s[i].1,
    decreases s.len(),
{
    if i == s.len() - 1 {
    } else {
        assert(unique_keys(s.drop_last()));
        lemma_pairs_map_index(s.drop_last(), i);
        assert(s.drop_last()[i] == s[i]);
        assert(s.last().0 != s[i].0);
    }
}

proof fn lemma_pairs_map_absent(s: Seq<(Seq<char>, Seq<char>)>, k: Seq<char>)
    requires
        forall|i: int| 0 <= i < s.len() ==> (#[trigger] s[i]).0 != k,
    ensures
        !pairs_to_map(s).contains_key(k),
    decreases s.len(),
{
    if s.len() == 0 {
    } else {
        assert(forall|i: int|
            0 <= i < s.drop_last().len() ==> (#[trigger] s.drop_last()[i]).0 != k);
        lemma_pairs_map_absent(s.drop_last(), k);
    }
}

proof fn lemma_pairs_map_update(s: Seq<(Seq<char>, Seq<char>)>, i: int, k: Seq<char>, v: Seq<char>)
    requires
        unique_keys(s),
        0 <= i < s.len(),
        s[i].0 == k,
    ensures
        pairs_to_map(s.update(i, (k, v))) == pairs_to_map(s).insert(k, v),
    decreases s.len(),
{
    let su = s.update(i, (k, v));
    if i == s.len() - 1 {
        assert(su.drop_last() =~= s.drop_last());
        assert(su.last() == (k, v));
        assert(pairs_to_map(s).insert(k, v) =~= pairs_to_map(s.drop_last()).insert(k, v));
    } else {
        assert(unique_keys(s.drop_last()));
        assert(s.drop_last()[i] == s[i]);
        lemma_pairs_map_update(s.drop_last(), i, k, v);
        assert(su.drop_last() =~= s.drop_last().update(i, (k, v)));
        assert(su.last() == s.last());
        assert(s.last().0 != k);
        assert(pairs_to_map(s.drop_last()).insert(k, v).insert(s.last().0, s.last().1)
            =~= pairs_to_map(s.drop_last()).insert(s.last().0, s.last().1).insert(k, v));
    }
}

impl NamespaceRegistry {
    /// Well-formedness: prefixes are unique keys. Established by [`Self::new`]
    /// and preserved by [`Self::register`].
    pub closed spec fn wf(self) -> bool {
        unique_keys(self.pairs.deep_view())
    }

    /// A registry holding exactly the fixed seed set of well-known
    /// prefixes.
    pub fn new() -> (r: NamespaceRegistry)
        ensures
            r@ == seed_map(),
            r.wf(),
    {
        let mut pairs: Vec<(String, String)> = Vec::new();
        pairs.push(("sn".to_owned(), "https://sinople.org/ontology#".to_owned()));
        pairs.push(("rdf".to_owned(), "https://www.w3.org/1999/02/22-rdf-syntax-ns#".to_owned()));
        pairs.push(("rdfs".to_owned(), "https://www.w3.org/2000/01/rdf-schema#".to_owned()));
        pairs.push(("owl".to_owned(), "https://www.w3.org/2002/07/owl#".to_owned()));
        pairs.push(("xsd".to_owned(), "https://www.w3.org/2001/XMLSchema#".to_owned()));
        let r = NamespaceRegistry { pairs };
        proof {
            reveal_strlit("sn");
            reveal_strlit("rdf");
            reveal_strlit("rdfs");
            reveal_strlit("owl");
            reveal_strlit("xsd");
            let dv = r.pairs.deep_view();
            assert(dv.len() == 5);
            assert(dv[0].0 =~= "sn"@);
            assert("sn"@.len() == 2 && "rdf"@.len() == 3 && "rdfs"@.len() == 4 && "owl"@.len()
                == 3 && "xsd"@.len() == 3);
            assert("rdf"@[0] == 'r' && "owl"@[0] == 'o' && "xsd"@[0] == 'x');
            assert(unique_keys(dv));
            assert(dv[0] == ("sn"@, "https://sinople.org/ontology#"@));
            assert(dv[1] == ("rdf"@, "https://www.w3.org/1999/02/22-rdf-syntax-ns#"@));
            assert(dv[2] == ("rdfs"@, "https://www.w3.org/2000/01/rdf-schema#"@));
            assert(dv[3] == ("owl"@, "https://www.w3.org/2002/07/owl#"@));
            assert(dv[4] == ("xsd"@, "https://www.w3.org/2001/XMLSchema#"@));
            let s4 = dv.drop_last();
            let s3 = s4.drop_last();
            let s2 = s3.drop_last();
            let s1 = s2.drop_last();
            let s0 = s1.drop_last();
            assert(s0 =~= Seq::<(Seq<char>, Seq<char>)>::empty());
            assert(s1.last() == dv[0] && s2.last() == dv[1] && s3.last() == dv[2] && s4.last()
                == dv[3] && dv.last() == dv[4]);
            assert(pairs_to_map(s0) == Map::<Seq<char>, Seq<char>>::empty());
            assert(pairs_to_map(s1) == pairs_to_map(s0).insert(dv[0].0, dv[0].1));
            assert(pairs_to_map(s2) == pairs_to_map(s1).insert(dv[1].0, dv[1].1));
            assert(pairs_to_map(s3) == pairs_to_map(s2).insert(dv[2].0, dv[2].1));
            assert(pairs_to_map(s4) == pairs_to_map(s3).insert(dv[3].0, dv[3].1));
            assert(pairs_to_map(dv) == pairs_to_map(s4).insert(dv[4].0, dv[4].1));
            assert(r@ == seed_map());
        }
        r
    }

    /// The base registered for a prefix, if any.
    fn lookup(&self, prefix: &str) -> (r: Option<&String>)
        requires
            self.wf(),
        ensures
            match r {
                Some(v) => self@.contains_key(prefix@) && v@ == self@[prefix@],
                None => !self@.contains_key(prefix@),
            },
    {
        let p = prefix.to_owned();
        let n = self.pairs.len();
        let mut i: usize = 0;
        while i < n
            invariant
                n == self.pairs.len(),
                i <= n,
                p@ == prefix@,
                unique_keys(self.pairs.deep_view()),
                forall|j: int| 0 <= j < i ==> (#[trigger] self.pairs.deep_view()[j]).0 != prefix@,
            decreases n - i,
        {
            if self.pairs[i].0 == p {
                proof {
                    assert(self.pairs.deep_view()[i as int].0 == prefix@);
                    lemma_pairs_map_index(self.pairs.deep_view(), i as int);
                }
                return Some(&self.pairs[i].1);
            }
            i += 1;
        }
        proof {
            lemma_pairs_map_absent(self.pairs.deep_view(), prefix@);
        }
        None
    }

    /// Register a prefix, replacing any earlier base for the same prefix.
    pub fn register(&mut self, prefix: &str, base: &str)
        requires
            old(self).wf(),
        ensures
            final(self)@ == old(self)@.insert(prefix@, base@),
            final(self).wf(),
    {
        let p = prefix.to_owned();
        let n = self.pairs.len();
        let mut i: usize = 0;
        while i < n
            invariant
                n == self.pairs.len(),
                i <= n,
                p@ == prefix@,
                *self == *old(self),
                unique_keys(self.pairs.deep_view()),
                forall|j: int| 0 <= j < i ==> (#[trigger] self.pairs.deep_view()[j]).0 != prefix@,
            decreases n - i,
        {
            if self.pairs[i].0 == p {
                proof {
                    assert(self.pairs.deep_view()[i as int].0 == prefix@);
                    lemma_pairs_map_update(self.pairs.deep_view(), i as int, prefix@, base@);
                }
                let ghost before = self.pairs.deep_view();
                self.pairs.set(i, (p, base.to_owned()));
                proof {
                    assert(self.pairs.deep_view() =~= before.update(i as int, (prefix@, base@)));
                    assert(unique_keys(self.pairs.deep_view()));
                }
                return ;
            }
            i += 1;
        }
        let ghost before = self.pairs.deep_view();
        self.pairs.push((p, base.to_owned()));
        proof {
            assert(self.pairs.deep_view() =~= before.push((prefix@, base@)));
            assert(self.pairs.deep_view().drop_last() =~= before);
            assert(unique_keys(self.pairs.deep_view()));
        }
    }

    /// Resolve namespaced or full-IRI text into a term, per
    /// [`resolve_spec`]: `prefix:local` with a registered prefix expands
    /// to the base concatenated with the local part; any other text is
    /// taken as a full IRI, and malformed IRI text is an explicit
    /// resolution failure.
    pub fn resolve(&self, input: &str) -> (r: Result<Term, ResolutionFailure>)
        requires
            self.wf(),
        ensures
            match r {
                Ok(t) => resolve_spec(self@, input@) == Ok::<TermV, ()>(t@),
                Err(e) => resolve_spec(self@, input@) == Err::<TermV, ()>(()) && e.input@
                    == input@,
            },
    {
        let n = input.unicode_len();
        match find_first(input, ':') {
            Some(i) => {
                let prefix = input.substring_char(0, i);
                proof {
                    assert(prefix@ =~= input@.take(i as int));
                }
                match self.lookup(prefix) {
                    Some(base) => {
                        let local = input.substring_char(i + 1, n);
                        proof {
                            assert(local@ =~= input@.skip(i + 1 as int));
                        }
                        let mut out = base.clone();
                        out.append(local);
                        return Ok(Term::Iri(out));
                    },
                    None => {},
                }
            },
            None => {},
        }
        if check_iri(input) {
            Ok(Term::Iri(input.to_owned()))
        } else {
            Err(ResolutionFailure { input: input.to_owned() })
        }
    }
}

} // verus!
