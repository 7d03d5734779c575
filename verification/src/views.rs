//! The derived views and the processor that builds them: type-membership
//! enumeration, single- and multi-valued property lookup, reverse-reference
//! lookup, and a node/edge projection for visualization. Every view is a
//! pure function of the current store contents; none mutates the store.

use vstd::prelude::*;
use vstd::string::StringExecFns;

use crate::namespace::NamespaceRegistry;
use crate::namespace::ResolutionFailure;
use crate::namespace::resolve_spec;
use crate::namespace::seed_map;
use crate::store::TripleStore;
use crate::store::all_objects_spec;
use crate::store::first_object_spec;
use crate::store::scan_spec;
use crate::store::subjects_by_object_spec;
use crate::term::Term;
use crate::term::TermV;
use crate::term::Triple;
use crate::term::TripleV;
use crate::term::term_text;
use crate::text::contains_substring;
use crate::text::extract_local_name;
use crate::text::has_substring;
use crate::text::local_name_of;
use crate::turtle::LoadError;
use crate::turtle::parse_turtle;
use crate::turtle::turtle_parse;

verus! {

// The fixed vocabulary read by the view builders: the seed bases of the
// `rdf`, `rdfs` and `sn` prefixes, with the local names used by the views.
pub open spec fn rdf_type() -> TermV {
    TermV::Iri("https://www.w3.org/1999/02/22-rdf-syntax-ns#type"@)
}

pub open spec fn rdfs_label() -> TermV {
    TermV::Iri("https://www.w3.org/2000/01/rdf-schema#label"@)
}

pub open spec fn rdfs_comment() -> TermV {
    TermV::Iri("https://www.w3.org/2000/01/rdf-schema#comment"@)
}

pub open spec fn sn_construct() -> TermV {
    TermV::Iri("https://sinople.org/ontology#Construct"@)
}

pub open spec fn sn_entanglement() -> TermV {
    TermV::Iri("https://sinople.org/ontology#Entanglement"@)
}

pub open spec fn sn_character() -> TermV {
    TermV::Iri("https://sinople.org/ontology#Character"@)
}

pub open spec fn sn_has_source() -> TermV {
    TermV::Iri("https://sinople.org/ontology#hasSource"@)
}

pub open spec fn sn_has_target() -> TermV {
    TermV::Iri("https://sinople.org/ontology#hasTarget"@)
}

pub open spec fn sn_relationship_type() -> TermV {
    TermV::Iri("https://sinople.org/ontology#relationshipType"@)
}

pub open spec fn sn_has_gloss() -> TermV {
    TermV::Iri("https://sinople.org/ontology#hasGloss"@)
}

pub open spec fn sn_has_construct() -> TermV {
    TermV::Iri("https://sinople.org/ontology#hasConstruct"@)
}

fn t_rdf_type() -> (r: Term)
    ensures
        r@ == rdf_type(),
{
    Term::Iri("https://www.w3.org/1999/02/22-rdf-syntax-ns#type".to_owned())
}

fn t_rdfs_label() -> (r: Term)
    ensures
        r@ == rdfs_label(),
{
    Term::Iri("https://www.w3.org/2000/01/rdf-schema#label".to_owned())
}

fn t_rdfs_comment() -> (r: Term)
    ensures
        r@ == rdfs_comment(),
{
    Term::Iri("https://www.w3.org/2000/01/rdf-schema#comment".to_owned())
}

fn t_sn_construct() -> (r: Term)
    ensures
        r@ == sn_construct(),
{
    Term::Iri("https://sinople.org/ontology#Construct".to_owned())
}

fn t_sn_entanglement() -> (r: Term)
    ensures
        r@ == sn_entanglement(),
{
    Term::Iri("https://sinople.org/ontology#Entanglement".to_owned())
}

fn t_sn_character() -> (r: Term)
    ensures
        r@ == sn_character(),
{
    Term::Iri("https://sinople.org/ontology#Character".to_owned())
}

fn t_sn_has_source() -> (r: Term)
    ensures
        r@ == sn_has_source(),
{
    Term::Iri("https://sinople.org/ontology#hasSource".to_owned())
}

fn t_sn_has_target() -> (r: Term)
    ensures
        r@ == sn_has_target(),
{
    Term::Iri("https://sinople.org/ontology#hasTarget".to_owned())
}

fn t_sn_relationship_type() -> (r: Term)
    ensures
        r@ == sn_relationship_type(),
{
    Term::Iri("https://sinople.org/ontology#relationshipType".to_owned())
}

fn t_sn_has_gloss() -> (r: Term)
    ensures
        r@ == sn_has_gloss(),
{
    Term::Iri("https://sinople.org/ontology#hasGloss".to_owned())
}

fn t_sn_has_construct() -> (r: Term)
    ensures
        r@ == sn_has_construct(),
{
    Term::Iri("https://sinople.org/ontology#hasConstruct".to_owned())
}

/// Model of a gloss record.
#[verifier::ext_equal]
pub struct GlossV {
    pub id: Seq<char>,
    pub text: Seq<char>,
    pub language: Seq<char>,
    pub position: Option<usize>,
}

/// A gloss (annotation) of a construct. The id is synthesized as the
/// subject text followed by `#gloss` for every gloss of that subject — a
/// known limitation: it is not unique when one subject has several glosses.
pub struct Gloss {
    pub id: String,
    pub text: String,
    pub language: String,
    pub position: Option<usize>,
}

impl DeepView for Gloss {
    type V = GlossV;

    open spec fn deep_view(&self) -> GlossV {
        GlossV {
            id: self.id@,
            text: self.text@,
            language: self.language@,
            position: self.position,
        }
    }
}

/// Model of a construct record.
#[verifier::ext_equal]
pub struct ConstructV {
    pub id: Seq<char>,
    pub label: Seq<char>,
    pub description: Option<Seq<char>>,
    pub glosses: Seq<GlossV>,
    pub relationships: Seq<Seq<char>>,
}

/// A construct: a typed entity with its label, description, glosses, and
/// the subjects that reference it as a source or target.
pub struct Construct {
    pub id: String,
    pub label: String,
    pub description: Option<String>,
    pub glosses: Vec<Gloss>,
    pub relationships: Vec<String>,
}

impl DeepView for Construct {
    type V = ConstructV;

    open spec fn deep_view(&self) -> ConstructV {
        ConstructV {
            id: self.id@,
            label: self.label@,
            description: self.description.deep_view(),
            glosses: self.glosses.deep_view(),
            relationships: self.relationships.deep_view(),
        }
    }
}

/// Model of an entanglement record.
#[verifier::ext_equal]
pub struct EntanglementV {
    pub id: Seq<char>,
    pub label: Seq<char>,
    pub source: Seq<char>,
    pub target: Seq<char>,
    pub relationship_type: Seq<char>,
    pub description: Option<Seq<char>>,
}

/// An entanglement: a relationship between constructs, with its endpoints
/// and relationship type.
pub struct Entanglement {
    pub id: String,
    pub label: String,
    pub source: String,
    pub target: String,
    pub relationship_type: String,
    pub description: Option<String>,
}

impl DeepView for Entanglement {
    type V = EntanglementV;

    open spec fn deep_view(&self) -> EntanglementV {
        EntanglementV {
            id: self.id@,
            label: self.label@,
            source: self.source@,
            target: self.target@,
            relationship_type: self.relationship_type@,
            description: self.description.deep_view(),
        }
    }
}

/// Model of a character record.
#[verifier::ext_equal]
pub struct CharacterV {
    pub id: Seq<char>,
    pub name: Seq<char>,
    pub description: Option<Seq<char>>,
    pub constructs: Seq<Seq<char>>,
}

/// A character, with the constructs associated with it.
pub struct Character {
    pub id: String,
    pub name: String,
    pub description: Option<String>,
    pub constructs: Vec<String>,
}

impl DeepView for Character {
    type V = CharacterV;

    open spec fn deep_view(&self) -> CharacterV {
        CharacterV {
            id: self.id@,
            name: self.name@,
            description: self.description.deep_view(),
            constructs: self.constructs.deep_view(),
        }
    }
}

/// Model of a network graph node.
#[verifier::ext_equal]
pub struct GraphNodeV {
    pub id: Seq<char>,
    pub label: Seq<char>,
    pub node_type: Seq<char>,
}

/// A network graph node for visualization.
pub struct GraphNode {
    pub id: String,
    pub label: String,
    pub node_type: String,
}

impl DeepView for GraphNode {
    type V = GraphNodeV;

    open spec fn deep_view(&self) -> GraphNodeV {
        GraphNodeV { id: self.id@, label: self.label@, node_type: self.node_type@ }
    }
}

/// Model of a network graph edge.
#[verifier::ext_equal]
pub struct GraphEdgeV {
    pub source: Seq<char>,
    pub target: Seq<char>,
    pub label: Seq<char>,
}

/// A network graph edge for visualization.
pub struct GraphEdge {
    pub source: String,
    pub target: String,
    pub label: String,
}

impl DeepView for GraphEdge {
    type V = GraphEdgeV;

    open spec fn deep_view(&self) -> GraphEdgeV {
        GraphEdgeV { source: self.source@, target: self.target@, label: self.label@ }
    }
}

/// Model of the network graph.
#[verifier::ext_equal]
pub struct NetworkGraphV {
    pub nodes: Seq<GraphNodeV>,
    pub edges: Seq<GraphEdgeV>,
}

/// The node/edge projection of the store for visualization.
pub struct NetworkGraph {
    pub nodes: Vec<GraphNode>,
    pub edges: Vec<GraphEdge>,
}

impl DeepView for NetworkGraph {
    type V = NetworkGraphV;

    open spec fn deep_view(&self) -> NetworkGraphV {
        NetworkGraphV { nodes: self.nodes.deep_view(), edges: self.edges.deep_view() }
    }
}

/// Model of the processor: the stored triples and the registered
/// namespaces.
#[verifier::ext_equal]
pub struct ProcessorV {
    pub triples: Seq<TripleV>,
    pub namespaces: Map<Seq<char>, Seq<char>>,
}

/// The subjects of every `(*, rdf:type, ty)` triple, in store order.
pub open spec fn entities_of_type_spec(g: Seq<TripleV>, ty: TermV) -> Seq<TermV> {
    scan_spec(g, None, Some(rdf_type()), Some(ty)).map_values(|t: TripleV| t.subject)
}

/// The rendered object of the first `(s, p, *)` triple, if any.
pub open spec fn object_value_spec(g: Seq<TripleV>, s: TermV, p: TermV) -> Option<Seq<char>> {
    match first_object_spec(g, s, p) {
        Some(t) => Some(term_text(t)),
        None => None,
    }
}

/// The rendered object of the first `(s, p, *)` triple, or empty text.
pub open spec fn object_value_or_empty(g: Seq<TripleV>, s: TermV, p: TermV) -> Seq<char> {
    match first_object_spec(g, s, p) {
        Some(t) => term_text(t),
        None => Seq::empty(),
    }
}

/// One gloss record per `(s, sn:hasGloss, *)` triple, in store order.
pub open spec fn glosses_spec(g: Seq<TripleV>, s: TermV) -> Seq<GlossV> {
    all_objects_spec(g, s, sn_has_gloss()).map_values(
        |o: TermV|
            GlossV {
                id: term_text(s) + "#gloss"@,
                text: term_text(o),
                language: "en"@,
                position: None,
            },
    )
}

/// The rendered subjects of every triple pointing at `s` through
/// `sn:hasSource` or `sn:hasTarget`, in store order.
pub open spec fn relationships_spec(g: Seq<TripleV>, s: TermV) -> Seq<Seq<char>> {
    subjects_by_object_spec(g, s, seq![sn_has_source(), sn_has_target()]).map_values(
        |t: TermV| term_text(t),
    )
}

/// The construct view of one subject.
pub open spec fn construct_view_spec(g: Seq<TripleV>, s: TermV) -> ConstructV {
    ConstructV {
        id: term_text(s),
        label: object_value_or_empty(g, s, rdfs_label()),
        description: object_value_spec(g, s, rdfs_comment()),
        glosses: glosses_spec(g, s),
        relationships: relationships_spec(g, s),
    }
}

/// One construct view per `sn:Construct`-typed subject, in store order.
pub open spec fn constructs_spec(g: Seq<TripleV>) -> Seq<ConstructV> {
    entities_of_type_spec(g, sn_construct()).map_values(|s: TermV| construct_view_spec(g, s))
}

/// The entanglement view of one subject; a missing relationship type
/// defaults to the literal text `related`.
pub open spec fn entanglement_view_spec(g: Seq<TripleV>, s: TermV) -> EntanglementV {
    EntanglementV {
        id: term_text(s),
        label: object_value_or_empty(g, s, rdfs_label()),
        source: object_value_or_empty(g, s, sn_has_source()),
        target: object_value_or_empty(g, s, sn_has_target()),
        relationship_type: match first_object_spec(g, s, sn_relationship_type()) {
            Some(t) => term_text(t),
            None => "related"@,
        },
        description: object_value_spec(g, s, rdfs_comment()),
    }
}

/// One entanglement view per `sn:Entanglement`-typed subject, in store
/// order.
pub open spec fn entanglements_spec(g: Seq<TripleV>) -> Seq<EntanglementV> {
    entities_of_type_spec(g, sn_entanglement()).map_values(
        |s: TermV| entanglement_view_spec(g, s),
    )
}

/// The character view of one subject.
pub open spec fn character_view_spec(g: Seq<TripleV>, s: TermV) -> CharacterV {
    CharacterV {
        id: term_text(s),
        name: object_value_or_empty(g, s, rdfs_label()),
        description: object_value_spec(g, s, rdfs_comment()),
        constructs: all_objects_spec(g, s, sn_has_construct()).map_values(
            |t: TermV| term_text(t),
        ),
    }
}

/// One character view per `sn:Character`-typed subject, in store order.
pub open spec fn characters_spec(g: Seq<TripleV>) -> Seq<CharacterV> {
    entities_of_type_spec(g, sn_character()).map_values(|s: TermV| character_view_spec(g, s))
}

/// Node classification: inspects the type IRI text for the substrings
/// `Construct`, `Character`, `Entanglement`, first match wins, else
/// `other`.
pub open spec fn classify_spec(o: Seq<char>) -> Seq<char> {
    if has_substring(o, "Construct"@) {
        "construct"@
    } else if has_substring(o, "Character"@) {
        "character"@
    } else if has_substring(o, "Entanglement"@) {
        "entanglement"@
    } else {
        "other"@
    }
}

/// The node emitted for one `(subject, rdf:type, object)` triple: labelled
/// by the subject's `rdfs:label`, else by the local name of its text.
pub open spec fn node_view_spec(g: Seq<TripleV>, t: TripleV) -> GraphNodeV {
    GraphNodeV {
        id: term_text(t.subject),
        label: match first_object_spec(g, t.subject, rdfs_label()) {
            Some(l) => term_text(l),
            None => local_name_of(term_text(t.subject)),
        },
        node_type: classify_spec(term_text(t.object)),
    }
}

/// One node per `rdf:type` triple, in store order; deliberately not
/// deduplicated, so a subject with two type assertions yields two nodes.
pub open spec fn nodes_spec(g: Seq<TripleV>) -> Seq<GraphNodeV> {
    scan_spec(g, None, Some(rdf_type()), None).map_values(|t: TripleV| node_view_spec(g, t))
}

/// The edge emitted for one entanglement subject, when both endpoints
/// resolve; an entanglement missing either endpoint yields no edge.
pub open spec fn edge_view_spec(g: Seq<TripleV>, s: TermV) -> Option<GraphEdgeV> {
    match (first_object_spec(g, s, sn_has_source()), first_object_spec(g, s, sn_has_target())) {
        (Some(src), Some(tgt)) => Some(
            GraphEdgeV {
                source: term_text(src),
                target: term_text(tgt),
                label: match first_object_spec(g, s, sn_relationship_type()) {
                    Some(t) => term_text(t),
                    None => "related"@,
                },
            },
        ),
        _ => None,
    }
}

/// The edges emitted for a sequence of entanglement subjects, in order,
/// skipping those with a missing endpoint.
pub open spec fn edges_over_spec(g: Seq<TripleV>, ents: Seq<TermV>) -> Seq<GraphEdgeV>
    decreases ents.len(),
{
    if ents.len() == 0 {
        Seq::empty()
    } else {
        edges_over_spec(g, ents.drop_last()) + match edge_view_spec(g, ents.last()) {
            Some(e) => seq![e],
            None => Seq::empty(),
        }
    }
}

/// All edges of the network graph, in store order of the entanglements.
pub open spec fn edges_spec(g: Seq<TripleV>) -> Seq<GraphEdgeV> {
    edges_over_spec(g, entities_of_type_spec(g, sn_entanglement()))
}

/// The full network graph projection.
pub open spec fn network_spec(g: Seq<TripleV>) -> NetworkGraphV {
    NetworkGraphV { nodes: nodes_spec(g), edges: edges_spec(g) }
}

/// The processor: an in-memory triple store plus the namespace registry,
/// with the view builders as read-only queries over the current contents.
pub struct SemanticProcessor {
    store: TripleStore,
    namespaces: NamespaceRegistry,
}

impl View for SemanticProcessor {
    type V = ProcessorV;

    closed spec fn view(&self) -> ProcessorV {
        ProcessorV { triples: self.store@, namespaces: self.namespaces@ }
    }
}

impl SemanticProcessor {
    /// Well-formedness, established by [`Self::new`] and preserved by every
    /// method.
    pub closed spec fn wf(self) -> bool {
        self.namespaces.wf()
    }

    /// An empty processor with the fixed namespace seed set registered.
    pub fn new() -> (r: SemanticProcessor)
        ensures
            r.wf(),
            r@.triples == Seq::<TripleV>::empty(),
            r@.namespaces == seed_map(),
    {
        SemanticProcessor { store: TripleStore::new(), namespaces: NamespaceRegistry::new() }
    }

    /// The number of stored triples.
    pub fn triple_count(&self) -> (r: usize)
        ensures
            r == self@.triples.len(),
    {
        self.store.count()
    }

    /// Discard all triples; the registered namespaces are kept.
    pub fn clear(&mut self)
        requires
            old(self).wf(),
        ensures
            final(self).wf(),
            final(self)@.triples == Seq::<TripleV>::empty(),
            final(self)@.namespaces == old(self)@.namespaces,
    {
        self.store.clear();
    }

    /// Append a batch of already-parsed triples; earlier contents are
    /// kept, so repeated loads accumulate.
    pub fn load_triples(&mut self, batch: Vec<Triple>)
        requires
            old(self).wf(),
        ensures
            final(self).wf(),
            final(self)@.triples == old(self)@.triples + batch.deep_view(),
            final(self)@.namespaces == old(self)@.namespaces,
    {
        self.store.bulk_load(batch);
    }

    /// Parse Turtle text and append the emitted triples. On a parse
    /// failure the error is reported and the store is left exactly as it
    /// was: none of the failed load's triples is applied.
    pub fn load_turtle(&mut self, ttl: &str) -> (r: Result<(), LoadError>)
        requires
            old(self).wf(),
        ensures
            final(self).wf(),
            final(self)@.namespaces == old(self)@.namespaces,
            match r {
                Ok(_) => turtle_parse(ttl@) matches Ok(ts) && final(self)@.triples == old(
                    self,
                )@.triples + ts,
                Err(_) => turtle_parse(ttl@) is Err && final(self)@.triples == old(
                    self,
                )@.triples,
            },
    {
        match parse_turtle(ttl) {
            Ok(batch) => {
                self.store.bulk_load(batch);
                Ok(())
            },
            Err(message) => Err(LoadError { message }),
        }
    }

    /// The subjects typed `ty` by an `rdf:type` triple, in store order.
    pub fn entities_of_type(&self, ty: &Term) -> (r: Vec<Term>)
        ensures
            r.deep_view() == entities_of_type_spec(self@.triples, ty@),
    {
        let rdft = t_rdf_type();
        let m = self.store.scan(None, Some(&rdft), Some(ty));
        let ghost mv = m.deep_view();
        let mut out: Vec<Term> = Vec::new();
        proof {
            assert(out.deep_view() =~= mv.take(0).map_values(|t: TripleV| t.subject));
        }
        let n = m.len();
        let mut i: usize = 0;
        while i < n
            invariant
                n == m.len(),
                i <= n,
                mv == m.deep_view(),
                mv.len() == n,
                out.deep_view() == mv.take(i as int).map_values(|t: TripleV| t.subject),
            decreases n - i,
        {
            let ghost prev = out.deep_view();
            let t = &m[i];
            out.push(t.subject.clone());
            proof {
                assert(out.deep_view() =~= prev.push(t@.subject));
                assert(out.deep_view() =~= mv.take(i + 1 as int).map_values(
                    |t: TripleV| t.subject,
                ));
            }
            i += 1;
        }
        proof {
            assert(mv.take(n as int) =~= mv);
        }
        out
    }

    /// The rendered object of the first `(subject, predicate, *)` triple,
    /// if any: the single-valued property lookup.
    pub fn get_object_value(&self, subject: &Term, predicate: &Term) -> (r: Option<String>)
        ensures
            r.deep_view() == object_value_spec(self@.triples, subject@, predicate@),
    {
        match self.store.first_object(subject, predicate) {
            Some(t) => Some(t.to_text()),
            None => None,
        }
    }

    /// The rendered objects of every `(subject, predicate, *)` triple, in
    /// store order, duplicates kept.
    fn get_object_values(&self, subject: &Term, predicate: &Term) -> (r: Vec<String>)
        ensures
            r.deep_view() == all_objects_spec(self@.triples, subject@, predicate@).map_values(
                |t: TermV| term_text(t),
            ),
    {
        let m = self.store.all_objects(subject, predicate);
        render_terms(&m)
    }

    /// Every gloss of a subject, one record per `sn:hasGloss` triple, in
    /// store order. Every gloss of one subject shares the synthesized id
    /// `<subject text>#gloss` — a known limitation kept for compatibility.
    pub fn get_glosses(&self, subject: &Term) -> (r: Vec<Gloss>)
        ensures
            r.deep_view() == glosses_spec(self@.triples, subject@),
    {
        let has_gloss = t_sn_has_gloss();
        let m = self.store.all_objects(subject, &has_gloss);
        let ghost mv = m.deep_view();
        let ghost f = |o: TermV|
            GlossV {
                id: term_text(subject@) + "#gloss"@,
                text: term_text(o),
                language: "en"@,
                position: None,
            };
        let mut out: Vec<Gloss> = Vec::new();
        proof {
            assert(out.deep_view() =~= mv.take(0).map_values(f));
        }
        let n = m.len();
        let mut i: usize = 0;
        while i < n
            invariant
                n == m.len(),
                i <= n,
                mv == m.deep_view(),
                mv.len() == n,
                f == (|o: TermV|
                    GlossV {
                        id: term_text(subject@) + "#gloss"@,
                        text: term_text(o),
                        language: "en"@,
                        position: None,
                    }),
                out.deep_view() == mv.take(i as int).map_values(f),
            decreases n - i,
        {
            let ghost prev = out.deep_view();
            let o = &m[i];
            let mut id = subject.to_text();
            id.append("#gloss");
            let gloss = Gloss { id, text: o.to_text(), language: "en".to_owned(), position: None };
            proof {
                assert(gloss.deep_view() == f(o@));
            }
            out.push(gloss);
            proof {
                assert(out.deep_view() =~= prev.push(f(o@)));
                assert(out.deep_view() =~= mv.take(i + 1 as int).map_values(f));
            }
            i += 1;
        }
        proof {
            assert(mv.take(n as int) =~= mv);
        }
        out
    }

    /// The rendered subjects of every triple that points at `subject`
    /// through `sn:hasSource` or `sn:hasTarget`, in store order: the
    /// reverse-reference lookup.
    pub fn get_relationships(&self, subject: &Term) -> (r: Vec<String>)
        ensures
            r.deep_view() == relationships_spec(self@.triples, subject@),
    {
        let preds = vec![t_sn_has_source(), t_sn_has_target()];
        proof {
            assert(preds.deep_view() =~= seq![sn_has_source(), sn_has_target()]);
        }
        let m = self.store.all_subjects_by_object(subject, &preds);
        render_terms(&m)
    }

    /// The rendered constructs associated with a character through
    /// `sn:hasConstruct`, in store order, duplicates kept.
    pub fn get_character_constructs(&self, subject: &Term) -> (r: Vec<String>)
        ensures
            r.deep_view() == all_objects_spec(self@.triples, subject@, sn_has_construct())
                .map_values(|t: TermV| term_text(t)),
    {
        let has_construct = t_sn_has_construct();
        self.get_object_values(subject, &has_construct)
    }

    /// The construct view of one subject.
    fn build_construct(&self, subject: &Term) -> (r: Construct)
        ensures
            r.deep_view() == construct_view_spec(self@.triples, subject@),
    {
        let label_p = t_rdfs_label();
        let comment_p = t_rdfs_comment();
        let label = match self.get_object_value(subject, &label_p) {
            Some(v) => v,
            None => String::new(),
        };
        let description = self.get_object_value(subject, &comment_p);
        let glosses = self.get_glosses(subject);
        let relationships = self.get_relationships(subject);
        let r = Construct { id: subject.to_text(), label, description, glosses, relationships };
        proof {
            assert(r.deep_view() =~= construct_view_spec(self@.triples, subject@));
        }
        r
    }

    /// Every construct in the store, one view per `sn:Construct`-typed
    /// subject, in store order.
    pub fn query_constructs(&self) -> (r: Vec<Construct>)
        ensures
            r.deep_view() == constructs_spec(self@.triples),
    {
        let ty = t_sn_construct();
        let ents = self.entities_of_type(&ty);
        let ghost ev = ents.deep_view();
        let ghost f = |s: TermV| construct_view_spec(self@.triples, s);
        let mut out: Vec<Construct> = Vec::new();
        proof {
            assert(out.deep_view() =~= ev.take(0).map_values(f));
        }
        let n = ents.len();
        let mut i: usize = 0;
        while i < n
            invariant
                n == ents.len(),
                i <= n,
                ev == ents.deep_view(),
                ev.len() == n,
                f == (|s: TermV| construct_view_spec(self@.triples, s)),
                out.deep_view() == ev.take(i as int).map_values(f),
            decreases n - i,
        {
            let ghost prev = out.deep_view();
            let c = self.build_construct(&ents[i]);
            out.push(c);
            proof {
                assert(out.deep_view() =~= prev.push(f(ev[i as int])));
                assert(out.deep_view() =~= ev.take(i + 1 as int).map_values(f));
            }
            i += 1;
        }
        proof {
            assert(ev.take(n as int) =~= ev);
        }
        out
    }

    /// The entanglement view of one subject.
    fn build_entanglement(&self, subject: &Term) -> (r: Entanglement)
        ensures
            r.deep_view() == entanglement_view_spec(self@.triples, subject@),
    {
        let label_p = t_rdfs_label();
        let comment_p = t_rdfs_comment();
        let source_p = t_sn_has_source();
        let target_p = t_sn_has_target();
        let rel_p = t_sn_relationship_type();
        let label = match self.get_object_value(subject, &label_p) {
            Some(v) => v,
            None => String::new(),
        };
        let source = match self.get_object_value(subject, &source_p) {
            Some(v) => v,
            None => String::new(),
        };
        let target = match self.get_object_value(subject, &target_p) {
            Some(v) => v,
            None => String::new(),
        };
        let relationship_type = match self.get_object_value(subject, &rel_p) {
            Some(v) => v,
            None => "related".to_owned(),
        };
        let description = self.get_object_value(subject, &comment_p);
        let r = Entanglement {
            id: subject.to_text(),
            label,
            source,
            target,
            relationship_type,
            description,
        };
        proof {
            assert(r.deep_view() =~= entanglement_view_spec(self@.triples, subject@));
        }
        r
    }

    /// Every entanglement in the store, one view per
    /// `sn:Entanglement`-typed subject, in store order.
    pub fn query_entanglements(&self) -> (r: Vec<Entanglement>)
        ensures
            r.deep_view() == entanglements_spec(self@.triples),
    {
        let ty = t_sn_entanglement();
        let ents = self.entities_of_type(&ty);
        let ghost ev = ents.deep_view();
        let ghost f = |s: TermV| entanglement_view_spec(self@.triples, s);
        let mut out: Vec<Entanglement> = Vec::new();
        proof {
            assert(out.deep_view() =~= ev.take(0).map_values(f));
        }
        let n = ents.len();
        let mut i: usize = 0;
        while i < n
            invariant
                n == ents.len(),
                i <= n,
                ev == ents.deep_view(),
                ev.len() == n,
                f == (|s: TermV| entanglement_view_spec(self@.triples, s)),
                out.deep_view() == ev.take(i as int).map_values(f),
            decreases n - i,
        {
            let ghost prev = out.deep_view();
            let e = self.build_entanglement(&ents[i]);
            out.push(e);
            proof {
                assert(out.deep_view() =~= prev.push(f(ev[i as int])));
                assert(out.deep_view() =~= ev.take(i + 1 as int).map_values(f));
            }
            i += 1;
        }
        proof {
            assert(ev.take(n as int) =~= ev);
        }
        out
    }

    /// The character view of one subject.
    fn build_character(&self, subject: &Term) -> (r: Character)
        ensures
            r.deep_view() == character_view_spec(self@.triples, subject@),
    {
        let label_p = t_rdfs_label();
        let comment_p = t_rdfs_comment();
        let name = match self.get_object_value(subject, &label_p) {
            Some(v) => v,
            None => String::new(),
        };
        let description = self.get_object_value(subject, &comment_p);
        let constructs = self.get_character_constructs(subject);
        let r = Character { id: subject.to_text(), name, description, constructs };
        proof {
            assert(r.deep_view() =~= character_view_spec(self@.triples, subject@));
        }
        r
    }

    /// Every character in the store, one view per `sn:Character`-typed
    /// subject, in store order.
    pub fn query_characters(&self) -> (r: Vec<Character>)
        ensures
            r.deep_view() == characters_spec(self@.triples),
    {
        let ty = t_sn_character();
        let ents = self.entities_of_type(&ty);
        let ghost ev = ents.deep_view();
        let ghost f = |s: TermV| character_view_spec(self@.triples, s);
        let mut out: Vec<Character> = Vec::new();
        proof {
            assert(out.deep_view() =~= ev.take(0).map_values(f));
        }
        let n = ents.len();
        let mut i: usize = 0;
        while i < n
            invariant
                n == ents.len(),
                i <= n,
                ev == ents.deep_view(),
                ev.len() == n,
                f == (|s: TermV| character_view_spec(self@.triples, s)),
                out.deep_view() == ev.take(i as int).map_values(f),
            decreases n - i,
        {
            let ghost prev = out.deep_view();
            let c = self.build_character(&ents[i]);
            out.push(c);
            proof {
                assert(out.deep_view() =~= prev.push(f(ev[i as int])));
                assert(out.deep_view() =~= ev.take(i + 1 as int).map_values(f));
            }
            i += 1;
        }
        proof {
            assert(ev.take(n as int) =~= ev);
        }
        out
    }

    /// The reverse-reference lookup for a construct given as namespaced or
    /// full-IRI text: resolves the text through the registry, then renders
    /// the subjects pointing at the resolved term. Text that resolves to
    /// no term is an explicit resolution failure.
    pub fn find_relationships(&self, construct_id: &str) -> (r: Result<
        Vec<String>,
        ResolutionFailure,
    >)
        requires
            self.wf(),
        ensures
            match r {
                Ok(v) => resolve_spec(self@.namespaces, construct_id@) matches Ok(t)
                    && v.deep_view() == relationships_spec(self@.triples, t),
                Err(e) => resolve_spec(self@.namespaces, construct_id@) is Err && e.input@
                    == construct_id@,
            },
    {
        match self.namespaces.resolve(construct_id) {
            Ok(t) => Ok(self.get_relationships(&t)),
            Err(e) => Err(e),
        }
    }

    /// The node emitted for one `rdf:type` triple.
    fn build_node(&self, t: &Triple) -> (r: GraphNode)
        ensures
            r.deep_view() == node_view_spec(self@.triples, t@),
    {
        let label_p = t_rdfs_label();
        let subject_text = t.subject.to_text();
        let label = match self.get_object_value(&t.subject, &label_p) {
            Some(v) => v,
            None => extract_local_name(subject_text.as_str()),
        };
        let object_text = t.object.to_text();
        let node_type = if contains_substring(object_text.as_str(), "Construct") {
            "construct".to_owned()
        } else if contains_substring(object_text.as_str(), "Character") {
            "character".to_owned()
        } else if contains_substring(object_text.as_str(), "Entanglement") {
            "entanglement".to_owned()
        } else {
            "other".to_owned()
        };
        GraphNode { id: subject_text, label, node_type }
    }

    /// The edge emitted for one entanglement subject, when both endpoints
    /// resolve; an entanglement missing either endpoint is silently
    /// skipped.
    fn build_edge(&self, subject: &Term) -> (r: Option<GraphEdge>)
        ensures
            r.deep_view() == edge_view_spec(self@.triples, subject@),
    {
        let source_p = t_sn_has_source();
        let target_p = t_sn_has_target();
        let rel_p = t_sn_relationship_type();
        let source = self.get_object_value(subject, &source_p);
        let target = self.get_object_value(subject, &target_p);
        match (source, target) {
            (Some(source), Some(target)) => {
                let label = match self.get_object_value(subject, &rel_p) {
                    Some(v) => v,
                    None => "related".to_owned(),
                };
                Some(GraphEdge { source, target, label })
            },
            _ => None,
        }
    }

    /// The network graph projection: one node per `rdf:type` triple (no
    /// deduplication: a subject with two type assertions yields two node
    /// entries sharing the same id), and one edge per entanglement with
    /// both endpoints present.
    pub fn generate_network_graph(&self) -> (r: NetworkGraph)
        ensures
            r.deep_view() == network_spec(self@.triples),
    {
        let rdft = t_rdf_type();
        let typed = self.store.scan(None, Some(&rdft), None);
        let ghost tv = typed.deep_view();
        let ghost fnode = |t: TripleV| node_view_spec(self@.triples, t);
        let mut nodes: Vec<GraphNode> = Vec::new();
        proof {
            assert(nodes.deep_view() =~= tv.take(0).map_values(fnode));
        }
        let n = typed.len();
        let mut i: usize = 0;
        while i < n
            invariant
                n == typed.len(),
                i <= n,
                tv == typed.deep_view(),
                tv.len() == n,
                fnode == (|t: TripleV| node_view_spec(self@.triples, t)),
                nodes.deep_view() == tv.take(i as int).map_values(fnode),
            decreases n - i,
        {
            let ghost prev = nodes.deep_view();
            let node = self.build_node(&typed[i]);
            nodes.push(node);
            proof {
                assert(nodes.deep_view() =~= prev.push(fnode(tv[i as int])));
                assert(nodes.deep_view() =~= tv.take(i + 1 as int).map_values(fnode));
            }
            i += 1;
        }
        proof {
            assert(tv.take(n as int) =~= tv);
        }
        let ty = t_sn_entanglement();
        let ents = self.entities_of_type(&ty);
        let ghost ev = ents.deep_view();
        let mut edges: Vec<GraphEdge> = Vec::new();
        proof {
            assert(edges.deep_view() =~= edges_over_spec(self@.triples, ev.take(0)));
        }
        let m = ents.len();
        let mut j: usize = 0;
        while j < m
            invariant
                m == ents.len(),
                j <= m,
                ev == ents.deep_view(),
                ev.len() == m,
                edges.deep_view() == edges_over_spec(self@.triples, ev.take(j as int)),
            decreases m - j,
        {
            let ghost prev = edges.deep_view();
            match self.build_edge(&ents[j]) {
                Some(e) => {
                    proof {
                        let ghost edge = e.deep_view();
                        assert(edge_view_spec(self@.triples, ev[j as int]) == Some(edge));
                    }
                    let ghost edge = e.deep_view();
                    edges.push(e);
                    proof {
                        assert(edges.deep_view() =~= prev.push(edge));
                    }
                },
                None => {},
            }
            proof {
                assert(ev.take(j + 1 as int).drop_last() =~= ev.take(j as int));
                assert(ev.take(j + 1 as int).last() == ev[j as int]);
                assert(edges.deep_view() =~= edges_over_spec(
                    self@.triples,
                    ev.take(j + 1 as int),
                ));
            }
            j += 1;
        }
        proof {
            assert(ev.take(m as int) =~= ev);
        }
        NetworkGraph { nodes, edges }
    }
}

impl Default for SemanticProcessor {
    /// The default processor is the empty one of [`SemanticProcessor::new`].
    fn default() -> (r: Self)
        ensures
            r.wf(),
            r@.triples == Seq::<TripleV>::empty(),
            r@.namespaces == seed_map(),
    {
        Self::new()
    }
}

/// Render each term in order to its plain text.
fn render_terms(terms: &Vec<Term>) -> (r: Vec<String>)
    ensures
        r.deep_view() == terms.deep_view().map_values(|t: TermV| term_text(t)),
{
    let ghost mv = terms.deep_view();
    let ghost f = |t: TermV| term_text(t);
    let mut out: Vec<String> = Vec::new();
    proof {
        assert(out.deep_view() =~= mv.take(0).map_values(f));
    }
    let n = terms.len();
    let mut i: usize = 0;
    while i < n
        invariant
            n == terms.len(),
            i <= n,
            mv == terms.deep_view(),
            mv.len() == n,
            f == (|t: TermV| term_text(t)),
            out.deep_view() == mv.take(i as int).map_values(f),
        decreases n - i,
    {
        let ghost prev = out.deep_view();
        let t = &terms[i];
        out.push(t.to_text());
        proof {
            assert(out.deep_view() =~= prev.push(f(mv[i as int])));
            assert(out.deep_view() =~= mv.take(i + 1 as int).map_values(f));
        }
        i += 1;
    }
    proof {
        assert(mv.take(n as int) =~= mv);
    }
    out
}

} // verus!
