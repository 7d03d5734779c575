use semantic_processor::SemanticProcessor;
use semantic_processor::Term;
use semantic_processor::Triple;

fn iri(s: &str) -> Term {
    Term::Iri(s.to_string())
}

fn lit(s: &str) -> Term {
    Term::LiteralPlain(s.to_string())
}

fn triple(s: &str, p: &str, o: Term) -> Triple {
    Triple { subject: iri(s), predicate: iri(p), object: o }
}

fn rdf_type() -> String {
    "https://www.w3.org/1999/02/22-rdf-syntax-ns#type".to_string()
}

fn rdfs(local: &str) -> String {
    format!("https://www.w3.org/2000/01/rdf-schema#{}", local)
}

fn sn(local: &str) -> String {
    format!("https://sinople.org/ontology#{}", local)
}

#[test]
fn test_processor_creation() {
    let processor = SemanticProcessor::new();
    assert_eq!(processor.triple_count(), 0);
}

#[test]
fn test_load_simple_turtle() {
    let mut processor = SemanticProcessor::new();
    let ttl = r#"
            @prefix sn: <https://sinople.org/ontology#> .
            @prefix rdfs: <https://www.w3.org/2000/01/rdf-schema#> .

            <https://example.org/test> a sn:Construct ;
                rdfs:label "Test Construct" .
        "#;

    assert!(processor.load_turtle(ttl).is_ok());
    assert!(processor.triple_count() > 0);
}

#[test]
fn empty_store_views_are_empty() {
    let p = SemanticProcessor::new();
    assert_eq!(p.triple_count(), 0);
    assert!(p.query_constructs().is_empty());
    assert!(p.query_entanglements().is_empty());
    assert!(p.query_characters().is_empty());
    let g = p.generate_network_graph();
    assert!(g.nodes.is_empty());
    assert!(g.edges.is_empty());
    assert!(p.entities_of_type(&iri(&sn("Construct"))).is_empty());
    assert!(p.get_relationships(&iri("https://example.org/A")).is_empty());
}

#[test]
fn repeated_queries_observe_identical_sequences() {
    let mut p = SemanticProcessor::new();
    p.load_triples(vec![
        triple("https://example.org/A", &rdf_type(), iri(&sn("Construct"))),
        triple("https://example.org/B", &rdf_type(), iri(&sn("Construct"))),
        triple("https://example.org/C", &rdf_type(), iri(&sn("Character"))),
    ]);
    let r1 = p.entities_of_type(&iri(&sn("Construct")));
    let r2 = p.entities_of_type(&iri(&sn("Construct")));
    assert_eq!(r1.len(), 2);
    assert_eq!(r1.len(), r2.len());
    for (a, b) in r1.iter().zip(r2.iter()) {
        assert!(a.equals(b));
    }
    assert!(r1[0].equals(&iri("https://example.org/A")));
    assert!(r1[1].equals(&iri("https://example.org/B")));
}

#[test]
fn clear_empties_every_view() {
    let mut p = SemanticProcessor::new();
    p.load_triples(vec![
        triple("https://example.org/A", &rdf_type(), iri(&sn("Construct"))),
        triple("https://example.org/A", &rdfs("label"), lit("Alpha")),
    ]);
    assert_eq!(p.triple_count(), 2);
    p.clear();
    assert_eq!(p.triple_count(), 0);
    assert!(p.query_constructs().is_empty());
    assert!(p.query_entanglements().is_empty());
    assert!(p.query_characters().is_empty());
    let g = p.generate_network_graph();
    assert!(g.nodes.is_empty());
    assert!(g.edges.is_empty());
}

#[test]
fn first_match_wins_over_later_values() {
    let mut p = SemanticProcessor::new();
    p.load_triples(vec![
        triple("https://example.org/A", &rdfs("label"), lit("first")),
        triple("https://example.org/A", &rdfs("label"), lit("second")),
    ]);
    let v = p.get_object_value(&iri("https://example.org/A"), &iri(&rdfs("label")));
    assert_eq!(v, Some("first".to_string()));
}

#[test]
fn construct_scenario_end_to_end() {
    let mut p = SemanticProcessor::new();
    p.load_triples(vec![
        triple("https://example.org/A", &rdf_type(), iri(&sn("Construct"))),
        triple("https://example.org/A", &rdfs("label"), lit("Alpha")),
        triple("https://example.org/A", &rdfs("comment"), lit("desc")),
    ]);
    let ents = p.entities_of_type(&iri(&sn("Construct")));
    assert_eq!(ents.len(), 1);
    assert!(ents[0].equals(&iri("https://example.org/A")));
    let cs = p.query_constructs();
    assert_eq!(cs.len(), 1);
    assert_eq!(cs[0].id, "https://example.org/A");
    assert_eq!(cs[0].label, "Alpha");
    assert_eq!(cs[0].description, Some("desc".to_string()));
    assert!(cs[0].glosses.is_empty());
    assert!(cs[0].relationships.is_empty());
}

#[test]
fn entanglement_defaults_relationship_type_to_related() {
    let mut p = SemanticProcessor::new();
    p.load_triples(vec![
        triple("https://example.org/E", &rdf_type(), iri(&sn("Entanglement"))),
        triple("https://example.org/E", &sn("hasSource"), iri("https://example.org/A")),
        triple("https://example.org/E", &sn("hasTarget"), iri("https://example.org/B")),
    ]);
    let es = p.query_entanglements();
    assert_eq!(es.len(), 1);
    assert_eq!(es[0].id, "https://example.org/E");
    assert_eq!(es[0].source, "https://example.org/A");
    assert_eq!(es[0].target, "https://example.org/B");
    assert_eq!(es[0].relationship_type, "related");
    assert_eq!(es[0].label, "");
    assert_eq!(es[0].description, None);
}

#[test]
fn network_graph_keeps_one_node_per_type_assertion() {
    let mut p = SemanticProcessor::new();
    p.load_triples(vec![
        triple("https://example.org/A", &rdf_type(), iri(&sn("Construct"))),
        triple("https://example.org/A", &rdf_type(), iri(&sn("Character"))),
    ]);
    let g = p.generate_network_graph();
    assert_eq!(g.nodes.len(), 2);
    assert_eq!(g.nodes[0].id, "https://example.org/A");
    assert_eq!(g.nodes[1].id, "https://example.org/A");
    assert_eq!(g.nodes[0].node_type, "construct");
    assert_eq!(g.nodes[1].node_type, "character");
    // no label triple: both nodes fall back to the local name
    assert_eq!(g.nodes[0].label, "A");
    assert_eq!(g.nodes[1].label, "A");
}

#[test]
fn network_graph_edges_skip_incomplete_entanglements() {
    let mut p = SemanticProcessor::new();
    p.load_triples(vec![
        triple("https://example.org/E1", &rdf_type(), iri(&sn("Entanglement"))),
        triple("https://example.org/E1", &sn("hasSource"), iri("https://example.org/A")),
        triple("https://example.org/E1", &sn("hasTarget"), iri("https://example.org/B")),
        triple("https://example.org/E1", &sn("relationshipType"), lit("contains")),
        triple("https://example.org/E2", &rdf_type(), iri(&sn("Entanglement"))),
        triple("https://example.org/E2", &sn("hasSource"), iri("https://example.org/A")),
    ]);
    let g = p.generate_network_graph();
    assert_eq!(g.edges.len(), 1);
    assert_eq!(g.edges[0].source, "https://example.org/A");
    assert_eq!(g.edges[0].target, "https://example.org/B");
    assert_eq!(g.edges[0].label, "contains");
}

#[test]
fn glosses_share_the_synthesized_id() {
    let mut p = SemanticProcessor::new();
    p.load_triples(vec![
        triple("https://example.org/A", &rdf_type(), iri(&sn("Construct"))),
        triple("https://example.org/A", &sn("hasGloss"), lit("one")),
        triple("https://example.org/A", &sn("hasGloss"), lit("two")),
    ]);
    let cs = p.query_constructs();
    assert_eq!(cs.len(), 1);
    let glosses = &cs[0].glosses;
    assert_eq!(glosses.len(), 2);
    assert_eq!(glosses[0].id, "https://example.org/A#gloss");
    assert_eq!(glosses[1].id, "https://example.org/A#gloss");
    assert_eq!(glosses[0].text, "one");
    assert_eq!(glosses[1].text, "two");
    assert_eq!(glosses[0].language, "en");
    assert_eq!(glosses[0].position, None);
}

#[test]
fn characters_collect_their_constructs() {
    let mut p = SemanticProcessor::new();
    p.load_triples(vec![
        triple("https://example.org/C", &rdf_type(), iri(&sn("Character"))),
        triple("https://example.org/C", &rdfs("label"), lit("Cara")),
        triple("https://example.org/C", &sn("hasConstruct"), iri("https://example.org/A")),
        triple("https://example.org/C", &sn("hasConstruct"), iri("https://example.org/B")),
    ]);
    let chars = p.query_characters();
    assert_eq!(chars.len(), 1);
    assert_eq!(chars[0].id, "https://example.org/C");
    assert_eq!(chars[0].name, "Cara");
    assert_eq!(chars[0].description, None);
    assert_eq!(
        chars[0].constructs,
        vec!["https://example.org/A".to_string(), "https://example.org/B".to_string()]
    );
}

#[test]
fn relationships_point_back_at_the_subject() {
    let mut p = SemanticProcessor::new();
    p.load_triples(vec![
        triple("https://example.org/A", &rdf_type(), iri(&sn("Construct"))),
        triple("https://example.org/E1", &sn("hasSource"), iri("https://example.org/A")),
        triple("https://example.org/E2", &sn("hasTarget"), iri("https://example.org/A")),
        triple("https://example.org/E3", &sn("unrelated"), iri("https://example.org/A")),
    ]);
    let cs = p.query_constructs();
    assert_eq!(cs.len(), 1);
    assert_eq!(
        cs[0].relationships,
        vec!["https://example.org/E1".to_string(), "https://example.org/E2".to_string()]
    );
    let found = p.find_relationships("https://example.org/A").unwrap();
    assert_eq!(found, cs[0].relationships);
}

#[test]
fn find_relationships_rejects_malformed_iri_text() {
    let p = SemanticProcessor::new();
    let err = p.find_relationships("not a valid iri").unwrap_err();
    assert_eq!(err.input, "not a valid iri");
}

#[test]
fn load_turtle_failure_leaves_store_unchanged() {
    let mut p = SemanticProcessor::new();
    p.load_triples(vec![triple("https://example.org/A", &rdf_type(), iri(&sn("Construct")))]);
    let err = p.load_turtle("@prefix broken").unwrap_err();
    assert!(!err.message.is_empty());
    assert_eq!(p.triple_count(), 1);
}

#[test]
fn load_turtle_accumulates_and_feeds_the_views() {
    let mut p = SemanticProcessor::new();
    let ttl = r#"
        @prefix sn: <https://sinople.org/ontology#> .
        @prefix rdf: <https://www.w3.org/1999/02/22-rdf-syntax-ns#> .
        @prefix rdfs: <https://www.w3.org/2000/01/rdf-schema#> .

        <https://example.org/A> rdf:type sn:Construct ;
            rdfs:label "Alpha" .
    "#;
    assert!(p.load_turtle(ttl).is_ok());
    assert_eq!(p.triple_count(), 2);
    let cs = p.query_constructs();
    assert_eq!(cs.len(), 1);
    assert_eq!(cs[0].id, "https://example.org/A");
    assert_eq!(cs[0].label, "Alpha");
    // a second load accumulates instead of replacing
    assert!(p.load_turtle(ttl).is_ok());
    assert_eq!(p.triple_count(), 4);
}

#[test]
fn load_turtle_keeps_literal_kinds_apart() {
    let mut p = SemanticProcessor::new();
    let ttl = r#"
        @prefix sn: <https://sinople.org/ontology#> .
        @prefix rdf: <https://www.w3.org/1999/02/22-rdf-syntax-ns#> .
        @prefix rdfs: <https://www.w3.org/2000/01/rdf-schema#> .
        @prefix xsd: <https://www.w3.org/2001/XMLSchema#> .

        <https://example.org/A> rdf:type sn:Construct ;
            rdfs:label "Alpha"@en ;
            rdfs:comment "42"^^xsd:integer .
    "#;
    assert!(p.load_turtle(ttl).is_ok());
    let cs = p.query_constructs();
    assert_eq!(cs.len(), 1);
    assert_eq!(cs[0].label, "Alpha");
    assert_eq!(cs[0].description, Some("42".to_string()));
}
