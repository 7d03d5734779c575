//! The triple store: an insertion-ordered, append-only sequence of triples,
//! and the pattern scanner that selects triples matching a partially
//! specified (subject, predicate, object) pattern.

use vstd::prelude::*;

use crate::term::Term;
use crate::term::TermV;
use crate::term::Triple;
use crate::term::TripleV;

verus! {

/// Does the triple match the pattern? A position given as `None` is a
/// wildcard; a position given as `Some(t)` matches exactly the term `t`.
pub open spec fn matches_pattern(
    t: TripleV,
    s: Option<TermV>,
    p: Option<TermV>,
    o: Option<TermV>,
) -> bool {
    &&& (s matches Some(x) ==> t.subject == x)
    &&& (p matches Some(x) ==> t.predicate == x)
    &&& (o matches Some(x) ==> t.object == x)
}

/// The subsequence of `g` whose triples match the pattern, in store order.
pub open spec fn scan_spec(
    g: Seq<TripleV>,
    s: Option<TermV>,
    p: Option<TermV>,
    o: Option<TermV>,
) -> Seq<TripleV>
    decreases g.len(),
{
    if g.len() == 0 {
        Seq::empty()
    } else {
        scan_spec(g.drop_last(), s, p, o) + if matches_pattern(g.last(), s, p, o) {
            seq![g.last()]
        } else {
            Seq::empty()
        }
    }
}

/// The object of the first (lowest store-order) triple matching
/// `(s, p, *)`, or `None` if no triple matches.
pub open spec fn first_object_spec(g: Seq<TripleV>, s: TermV, p: TermV) -> Option<TermV> {
    let m = scan_spec(g, Some(s), Some(p), None);
    if m.len() == 0 {
        None
    } else {
        Some(m[0].object)
    }
}

/// Every object across all triples matching `(s, p, *)`, in store order,
/// duplicates kept.
pub open spec fn all_objects_spec(g: Seq<TripleV>, s: TermV, p: TermV) -> Seq<TermV> {
    scan_spec(g, Some(s), Some(p), None).map_values(|t: TripleV| t.object)
}

/// The subjects of every triple whose object equals `o` and whose predicate
/// is one of `preds`, in store order.
pub open spec fn subjects_by_object_spec(
    g: Seq<TripleV>,
    o: TermV,
    preds: Seq<TermV>,
) -> Seq<TermV>
    decreases g.len(),
{
    if g.len() == 0 {
        Seq::empty()
    } else {
        subjects_by_object_spec(g.drop_last(), o, preds) + if g.last().object == o
            && preds.contains(g.last().predicate) {
            seq![g.last().subject]
        } else {
            Seq::empty()
        }
    }
}

/// The view of an optional pattern position.
pub open spec fn opt_term_view(t: Option<&Term>) -> Option<TermV> {
    match t {
        Some(x) => Some(x@),
        None => None,
    }
}

/// An ordered sequence of triples. Order is insertion order; repeated loads
/// accumulate, and the only other mutation is a full clear.
pub struct TripleStore {
    triples: Vec<Triple>,
}

impl View for TripleStore {
    type V = Seq<TripleV>;

    closed spec fn view(&self) -> Seq<TripleV> {
        self.triples.deep_view()
    }
}

impl TripleStore {
    /// An empty store.
    pub fn new() -> (r: TripleStore)
        ensures
            r@ == Seq::<TripleV>::empty(),
    {
        let r = TripleStore { triples: Vec::new() };
        proof {
            assert(r@ =~= Seq::<TripleV>::empty());
        }
        r
    }

    /// The number of stored triples.
    pub fn count(&self) -> (r: usize)
        ensures
            r == self@.len(),
    {
        self.triples.len()
    }

    /// Append a batch of triples; earlier contents are kept, so repeated
    /// loads accumulate.
    pub fn bulk_load(&mut self, batch: Vec<Triple>)
        ensures
            final(self)@ == old(self)@ + batch.deep_view(),
    {
        let ghost old_view = self@;
        let ghost batch_view = batch.deep_view();
        let mut b = batch;
        self.triples.append(&mut b);
        proof {
            assert(self@ =~= old_view + batch_view);
        }
    }

    /// Discard all triples, returning the store to empty.
    pub fn clear(&mut self)
        ensures
            final(self)@ == Seq::<TripleV>::empty(),
    {
        self.triples.clear();
        proof {
            assert(self@ =~= Seq::<TripleV>::empty());
        }
    }

    /// The stored triples, in insertion order.
    pub fn iterate(&self) -> (r: Vec<Triple>)
        ensures
            r.deep_view() == self@,
    {
        let mut out: Vec<Triple> = Vec::new();
        proof {
            assert(out.deep_view() =~= self@.take(0));
        }
        let n = self.triples.len();
        let mut i: usize = 0;
        while i < n
            invariant
                n == self@.len(),
                i <= n,
                out.deep_view() == self@.take(i as int),
            decreases n - i,
        {
            let ghost prev = out.deep_view();
            let t = &self.triples[i];
            out.push(t.clone());
            proof {
                assert(out.deep_view() =~= prev.push(t@));
                assert(out.deep_view() =~= self@.take(i + 1 as int));
            }
            i += 1;
        }
        proof {
            assert(self@.take(n as int) =~= self@);
        }
        out
    }

    /// Read one stored triple.
    pub fn get(&self, i: usize) -> (r: &Triple)
        requires
            i < self@.len(),
        ensures
            r@ == self@[i as int],
    {
        &self.triples[i]
    }

    /// Does the stored triple match the pattern? Matching uses term
    /// equality on every specified position.
    fn matches(t: &Triple, s: Option<&Term>, p: Option<&Term>, o: Option<&Term>) -> (r: bool)
        ensures
            r == matches_pattern(t@, opt_term_view(s), opt_term_view(p), opt_term_view(o)),
    {
        let sm = match s {
            Some(x) => t.subject.equals(x),
            None => true,
        };
        let pm = match p {
            Some(x) => t.predicate.equals(x),
            None => true,
        };
        let om = match o {
            Some(x) => t.object.equals(x),
            None => true,
        };
        sm && pm && om
    }

    /// Select every stored triple matching the pattern, in store order, by
    /// one linear pass; no index is built or reused across calls.
    pub fn scan(&self, s: Option<&Term>, p: Option<&Term>, o: Option<&Term>) -> (r: Vec<Triple>)
        ensures
            r.deep_view() == scan_spec(self@, opt_term_view(s), opt_term_view(p), opt_term_view(o)),
    {
        let ghost sv = opt_term_view(s);
        let ghost pv = opt_term_view(p);
        let ghost ov = opt_term_view(o);
        let mut out: Vec<Triple> = Vec::new();
        proof {
            assert(out.deep_view() =~= scan_spec(self@.take(0), sv, pv, ov));
        }
        let n = self.triples.len();
        let mut i: usize = 0;
        while i < n
            invariant
                n == self@.len(),
                i <= n,
                sv == opt_term_view(s),
                pv == opt_term_view(p),
                ov == opt_term_view(o),
                out.deep_view() == scan_spec(self@.take(i as int), sv, pv, ov),
            decreases n - i,
        {
            let ghost prev = out.deep_view();
            let t = &self.triples[i];
            if Self::matches(t, s, p, o) {
                out.push(t.clone());
                proof {
                    assert(out.deep_view() =~= prev.push(t@));
                }
            }
            proof {
                let g = self@;
                assert(g.take(i + 1 as int).drop_last() =~= g.take(i as int));
                assert(g.take(i + 1 as int).last() == g[i as int]);
                assert(out.deep_view() =~= scan_spec(g.take(i + 1 as int), sv, pv, ov));
            }
            i += 1;
        }
        proof {
            assert(self@.take(n as int) =~= self@);
        }
        out
    }

    /// First-match lookup: the object of the first triple matching
    /// `(s, p, *)` in store order, or `None`. When a subject has several
    /// values for the same predicate, only the first is visible here; later
    /// values are deliberately ignored.
    pub fn first_object(&self, s: &Term, p: &Term) -> (r: Option<Term>)
        ensures
            r.deep_view() == first_object_spec(self@, s@, p@),
    {
        let m = self.scan(Some(s), Some(p), None);
        if m.len() > 0 {
            let t = &m[0];
            proof {
                assert(m.deep_view()[0] == t@);
            }
            Some(t.object.clone())
        } else {
            proof {
                assert(m.deep_view().len() == 0);
            }
            None
        }
    }

    /// All-matches collection: every object of every triple matching
    /// `(s, p, *)`, in store order, duplicates kept.
    pub fn all_objects(&self, s: &Term, p: &Term) -> (r: Vec<Term>)
        ensures
            r.deep_view() == all_objects_spec(self@, s@, p@),
    {
        let m = self.scan(Some(s), Some(p), None);
        let ghost mv = m.deep_view();
        let mut out: Vec<Term> = Vec::new();
        proof {
            assert(out.deep_view() =~= mv.take(0).map_values(|t: TripleV| t.object));
        }
        let n = m.len();
        let mut i: usize = 0;
        while i < n
            invariant
                n == m.len(),
                i <= n,
                mv == m.deep_view(),
                mv.len() == n,
                out.deep_view() == mv.take(i as int).map_values(|t: TripleV| t.object),
            decreases n - i,
        {
            let ghost prev = out.deep_view();
            let t = &m[i];
            out.push(t.object.clone());
            proof {
                assert(out.deep_view() =~= prev.push(t@.object));
                assert(out.deep_view() =~= mv.take(i + 1 as int).map_values(
                    |t: TripleV| t.object,
                ));
            }
            i += 1;
        }
        proof {
            assert(mv.take(n as int) =~= mv);
        }
        out
    }

    /// Does one of the terms in `preds` equal `t`?
    fn contains_term(preds: &Vec<Term>, t: &Term) -> (r: bool)
        ensures
            r == preds.deep_view().contains(t@),
    {
        let n = preds.len();
        let mut i: usize = 0;
        while i < n
            invariant
                n == preds.len(),
                i <= n,
                forall|j: int| 0 <= j < i ==> preds.deep_view()[j] != t@,
            decreases n - i,
        {
            if preds[i].equals(t) {
                proof {
                    assert(preds.deep_view()[i as int] == t@);
                }
                return true;
            }
            i += 1;
        }
        false
    }

    /// Reverse lookup: the subjects of every triple whose object equals `o`
    /// and whose predicate is one of `preds`, in store order.
    pub fn all_subjects_by_object(&self, o: &Term, preds: &Vec<Term>) -> (r: Vec<Term>)
        ensures
            r.deep_view() == subjects_by_object_spec(self@, o@, preds.deep_view()),
    {
        let ghost pv = preds.deep_view();
        let mut out: Vec<Term> = Vec::new();
        proof {
            assert(out.deep_view() =~= subjects_by_object_spec(self@.take(0), o@, pv));
        }
        let n = self.triples.len();
        let mut i: usize = 0;
        while i < n
            invariant
                n == self@.len(),
                i <= n,
                pv == preds.deep_view(),
                out.deep_view() == subjects_by_object_spec(self@.take(i as int), o@, pv),
            decreases n - i,
        {
            let ghost prev = out.deep_view();
            let t = &self.triples[i];
            if t.object.equals(o) && Self::contains_term(preds, &t.predicate) {
                out.push(t.subject.clone());
                proof {
                    assert(out.deep_view() =~= prev.push(t@.subject));
                }
            }
            proof {
                let g = self@;
                assert(g.take(i + 1 as int).drop_last() =~= g.take(i as int));
                assert(g.take(i + 1 as int).last() == g[i as int]);
                assert(out.deep_view() =~= subjects_by_object_spec(g.take(i + 1 as int), o@, pv));
            }
            i += 1;
        }
        proof {
            assert(self@.take(n as int) =~= self@);
        }
        out
    }
}

} // verus!
