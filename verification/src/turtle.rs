//! The boundary to the external Turtle parser: Turtle text goes in, a
//! sequence of the library's triples (or a structured parse error) comes
//! out. The syntax itself is not interpreted here.

use vstd::prelude::*;

use sophia_api::source::TripleSource;

use crate::term::Term;
use crate::term::Triple;
use crate::term::TripleV;

verus! {

/// What parsing Turtle text emits: the triple sequence in emission order,
/// or a parse failure. Left abstract: the result depends on the text alone
/// and is computed by the external parser.
pub uninterp spec fn turtle_parse(s: Seq<char>) -> Result<Seq<TripleV>, ()>;

/// A bulk load failed: the external parser rejected the Turtle text;
/// carries the underlying message.
#[derive(Debug)]
pub struct LoadError {
    pub message: String,
}

/// Relies on `sophia_api::term::SimpleTerm`, the parser's term
/// representation, which is carried opaquely into the conversion below.
#[verifier::external_type_specification]
#[verifier::external_body]
pub struct ExSimpleTerm<'a>(sophia_api::term::SimpleTerm<'a>);

/// Relies on the `Display` renderings of `sophia_api`'s term parts: each
/// parser term variant moves, as text, into the corresponding term kind of
/// the library; term kinds with no counterpart (quoted triples, variables)
/// degrade to an empty plain literal. Called only from [`parse_turtle`],
/// whose contract covers the composition.
#[verifier::external_body]
fn term_from_simple(t: sophia_api::term::SimpleTerm<'_>) -> Term {
    match t {
        sophia_api::term::SimpleTerm::Iri(i) => Term::Iri(i.to_string()),
        sophia_api::term::SimpleTerm::BlankNode(b) => Term::BlankNode(b.to_string()),
        sophia_api::term::SimpleTerm::LiteralDatatype(v, d) => Term::LiteralTyped(
            v.to_string(),
            d.to_string(),
        ),
        sophia_api::term::SimpleTerm::LiteralLanguage(v, l) => Term::LiteralLanguage(
            v.to_string(),
            l.to_string(),
        ),
        _ => Term::LiteralPlain(String::new()),
    }
}

/// Relies on `sophia_api::term::SimpleTerm` again: one emitted triple
/// moves, position by position, through [`term_from_simple`]. Called only
/// from [`parse_turtle`], whose contract covers the composition.
#[verifier::external_body]
fn triple_from_simple(t: [sophia_api::term::SimpleTerm<'static>; 3]) -> Triple {
    let [s, p, o] = t;
    Triple {
        subject: term_from_simple(s),
        predicate: term_from_simple(p),
        object: term_from_simple(o),
    }
}

/// Relies on `sophia_turtle::parser::turtle::TurtleParser` (through
/// `sophia_api`'s `TripleParser` and `TripleSource`): parses Turtle text
/// into the emitted triple sequence, in emission order, or fails with the
/// parser's message; the outcome depends on the text alone.
#[verifier::external_body]
pub fn parse_turtle(ttl: &str) -> (r: Result<Vec<Triple>, String>)
    ensures
        match r {
            Ok(v) => turtle_parse(ttl@) matches Ok(ts) && v.deep_view() == ts,
            Err(_) => turtle_parse(ttl@) is Err,
        },
{
    let parser = sophia_turtle::parser::turtle::TurtleParser { base: None };
    let mut emitted: Vec<[sophia_api::term::SimpleTerm<'static>; 3]> = Vec::new();
    let source = sophia_api::parser::TripleParser::parse_str(&parser, ttl);
    if let Err(e) = source.add_to_graph(&mut emitted) {
        return Err(format!("Failed to parse Turtle: {}", e));
    }
    Ok(emitted.into_iter().map(triple_from_simple).collect())
}

} // verus!
