//! The term model: a tagged union for the five RDF term kinds, with exact
//! structural equality, plus the triple type built from terms.

use vstd::prelude::*;

verus! {

/// Mathematical model of a term: one variant per term kind, over sequences
/// of characters. Two terms are equal exactly when their variant tags and
/// all constituent fields are equal.
#[verifier::ext_equal]
pub enum TermV {
    /// An absolute IRI.
    Iri(Seq<char>),
    /// A blank node's local identifier, scoped to one store instance.
    BlankNode(Seq<char>),
    /// A string literal with no language tag or datatype.
    LiteralPlain(Seq<char>),
    /// A literal with a language tag: (value, language-tag).
    LiteralLanguage(Seq<char>, Seq<char>),
    /// A literal with a datatype: (value, datatype-IRI).
    LiteralTyped(Seq<char>, Seq<char>),
}

/// An RDF term. Equality between terms never coerces between variants: an
/// IRI is never equal to a literal sharing the same text.
#[derive(Debug)]
pub enum Term {
    /// An absolute IRI.
    Iri(String),
    /// A blank node's local identifier.
    BlankNode(String),
    /// A string literal with no language tag or datatype.
    LiteralPlain(String),
    /// A literal with a language tag: (value, language-tag).
    LiteralLanguage(String, String),
    /// A literal with a datatype: (value, datatype-IRI).
    LiteralTyped(String, String),
}

impl View for Term {
    type V = TermV;

    open spec fn view(&self) -> TermV {
        match self {
            Term::Iri(s) => TermV::Iri(s@),
            Term::BlankNode(s) => TermV::BlankNode(s@),
            Term::LiteralPlain(s) => TermV::LiteralPlain(s@),
            Term::LiteralLanguage(v, l) => TermV::LiteralLanguage(v@, l@),
            Term::LiteralTyped(v, d) => TermV::LiteralTyped(v@, d@),
        }
    }
}

impl DeepView for Term {
    type V = TermV;

    open spec fn deep_view(&self) -> TermV {
        self@
    }
}

impl Term {
    /// Tagged-union equality: true exactly when the two terms have the same
    /// variant and all fields agree character for character.
    pub fn equals(&self, other: &Term) -> (r: bool)
        ensures
            r <==> self@ == other@,
    {
        match (self, other) {
            (Term::Iri(a), Term::Iri(b)) => *a == *b,
            (Term::BlankNode(a), Term::BlankNode(b)) => *a == *b,
            (Term::LiteralPlain(a), Term::LiteralPlain(b)) => *a == *b,
            (Term::LiteralLanguage(a, la), Term::LiteralLanguage(b, lb)) => *a == *b && *la
                == *lb,
            (Term::LiteralTyped(a, da), Term::LiteralTyped(b, db)) => *a == *b && *da == *db,
            _ => false,
        }
    }
}

/// Mathematical model of a stored triple.
#[verifier::ext_equal]
pub struct TripleV {
    pub subject: TermV,
    pub predicate: TermV,
    pub object: TermV,
}

/// A (subject, predicate, object) statement, the atomic unit of the store.
/// Triples are immutable once stored.
pub struct Triple {
    pub subject: Term,
    pub predicate: Term,
    pub object: Term,
}

impl View for Triple {
    type V = TripleV;

    open spec fn view(&self) -> TripleV {
        TripleV { subject: self.subject@, predicate: self.predicate@, object: self.object@ }
    }
}

impl DeepView for Triple {
    type V = TripleV;

    open spec fn deep_view(&self) -> TripleV {
        self@
    }
}

impl Clone for Term {
    /// An exact copy: the clone denotes the same term.
    fn clone(&self) -> (r: Self)
        ensures
            r@ == self@,
    {
        match self {
            Term::Iri(s) => Term::Iri(s.clone()),
            Term::BlankNode(s) => Term::BlankNode(s.clone()),
            Term::LiteralPlain(s) => Term::LiteralPlain(s.clone()),
            Term::LiteralLanguage(v, l) => Term::LiteralLanguage(v.clone(), l.clone()),
            Term::LiteralTyped(v, d) => Term::LiteralTyped(v.clone(), d.clone()),
        }
    }
}

impl Clone for Triple {
    /// An exact copy: the clone denotes the same triple.
    fn clone(&self) -> (r: Self)
        ensures
            r@ == self@,
    {
        Triple {
            subject: self.subject.clone(),
            predicate: self.predicate.clone(),
            object: self.object.clone(),
        }
    }
}

/// The plain text carried by a term: the IRI text of an IRI, `_:` followed
/// by the local identifier of a blank node, and the lexical value of any
/// literal (its language tag or datatype is not part of the text).
pub open spec fn term_text(t: TermV) -> Seq<char> {
    match t {
        TermV::Iri(s) => s,
        TermV::BlankNode(s) => "_:"@ + s,
        TermV::LiteralPlain(s) => s,
        TermV::LiteralLanguage(v, _) => v,
        TermV::LiteralTyped(v, _) => v,
    }
}

impl Term {
    /// Render the term as its plain text, per [`term_text`].
    pub fn to_text(&self) -> (r: String)
        ensures
            r@ == term_text(self@),
    {
        match self {
            Term::Iri(s) => s.clone(),
            Term::BlankNode(s) => {
                let mut out = String::from_str("_:");
                out.append(s.as_str());
                out
            },
            Term::LiteralPlain(s) => s.clone(),
            Term::LiteralLanguage(v, _) => v.clone(),
            Term::LiteralTyped(v, _) => v.clone(),
        }
    }
}

} // verus!

