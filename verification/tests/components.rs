use semantic_processor::Term;
use semantic_processor::Triple;
use semantic_processor::namespace::NamespaceRegistry;
use semantic_processor::store::TripleStore;
use semantic_processor::text::extract_local_name;

fn iri(s: &str) -> Term {
    Term::Iri(s.to_string())
}

fn lit(s: &str) -> Term {
    Term::LiteralPlain(s.to_string())
}

fn triple(s: &str, p: &str, o: Term) -> Triple {
    Triple { subject: iri(s), predicate: iri(p), object: o }
}

#[test]
fn term_equality_never_coerces_between_kinds() {
    assert!(!iri("http://x").equals(&lit("http://x")));
    assert!(!lit("http://x").equals(&iri("http://x")));
    assert!(!Term::BlankNode("b".to_string()).equals(&lit("b")));
    assert!(iri("http://x").equals(&iri("http://x")));
    assert!(!iri("http://x").equals(&iri("http://y")));
}

#[test]
fn term_equality_compares_every_field() {
    let en = Term::LiteralLanguage("a".to_string(), "en".to_string());
    let fr = Term::LiteralLanguage("a".to_string(), "fr".to_string());
    let plain = lit("a");
    assert!(!en.equals(&fr));
    assert!(!en.equals(&plain));
    assert!(en.equals(&Term::LiteralLanguage("a".to_string(), "en".to_string())));
    let n1 = Term::LiteralTyped("1".to_string(), "http://t1".to_string());
    let n2 = Term::LiteralTyped("1".to_string(), "http://t2".to_string());
    assert!(!n1.equals(&n2));
    assert!(n1.equals(&Term::LiteralTyped("1".to_string(), "http://t1".to_string())));
}

#[test]
fn term_rendering_by_kind() {
    assert_eq!(iri("http://x").to_text(), "http://x");
    assert_eq!(Term::BlankNode("b0".to_string()).to_text(), "_:b0");
    assert_eq!(lit("hello").to_text(), "hello");
    assert_eq!(Term::LiteralLanguage("hi".to_string(), "en".to_string()).to_text(), "hi");
    assert_eq!(Term::LiteralTyped("7".to_string(), "http://int".to_string()).to_text(), "7");
}

#[test]
fn registry_expands_registered_prefixes() {
    let ns = NamespaceRegistry::new();
    match ns.resolve("sn:Construct") {
        Ok(Term::Iri(s)) => assert_eq!(s, "https://sinople.org/ontology#Construct"),
        other => panic!("unexpected resolution: {:?}", other.is_ok()),
    }
    match ns.resolve("rdf:type") {
        Ok(Term::Iri(s)) => assert_eq!(s, "https://www.w3.org/1999/02/22-rdf-syntax-ns#type"),
        other => panic!("unexpected resolution: {:?}", other.is_ok()),
    }
}

#[test]
fn registry_falls_back_to_full_iri_for_unknown_prefixes() {
    let ns = NamespaceRegistry::new();
    match ns.resolve("https://example.org/A") {
        Ok(Term::Iri(s)) => assert_eq!(s, "https://example.org/A"),
        other => panic!("unexpected resolution: {:?}", other.is_ok()),
    }
}

#[test]
fn registry_reports_malformed_iri_text() {
    let ns = NamespaceRegistry::new();
    let err = ns.resolve("not a valid iri").unwrap_err();
    assert_eq!(err.input, "not a valid iri");
    let err = ns.resolve("ht tp://x y").unwrap_err();
    assert_eq!(err.input, "ht tp://x y");
}

#[test]
fn registry_register_extends_and_overrides() {
    let mut ns = NamespaceRegistry::new();
    ns.register("ex", "https://example.org/");
    match ns.resolve("ex:A") {
        Ok(Term::Iri(s)) => assert_eq!(s, "https://example.org/A"),
        other => panic!("unexpected resolution: {:?}", other.is_ok()),
    }
    ns.register("ex", "https://elsewhere.org/");
    match ns.resolve("ex:A") {
        Ok(Term::Iri(s)) => assert_eq!(s, "https://elsewhere.org/A"),
        other => panic!("unexpected resolution: {:?}", other.is_ok()),
    }
}

#[test]
fn store_scan_selects_by_every_fixed_position() {
    let mut st = TripleStore::new();
    st.bulk_load(vec![
        triple("https://x/s1", "https://x/p1", lit("a")),
        triple("https://x/s1", "https://x/p2", lit("b")),
        triple("https://x/s2", "https://x/p1", lit("a")),
    ]);
    assert_eq!(st.count(), 3);
    assert_eq!(st.scan(None, None, None).len(), 3);
    assert_eq!(st.scan(Some(&iri("https://x/s1")), None, None).len(), 2);
    assert_eq!(st.scan(None, Some(&iri("https://x/p1")), None).len(), 2);
    assert_eq!(st.scan(None, None, Some(&lit("a"))).len(), 2);
    let both = st.scan(Some(&iri("https://x/s1")), Some(&iri("https://x/p1")), None);
    assert_eq!(both.len(), 1);
    assert!(both[0].object.equals(&lit("a")));
    // a literal object never matches an IRI pattern with the same text
    assert_eq!(st.scan(None, None, Some(&iri("a"))).len(), 0);
}

#[test]
fn store_first_object_and_all_objects_keep_store_order() {
    let mut st = TripleStore::new();
    st.bulk_load(vec![
        triple("https://x/s", "https://x/p", lit("one")),
        triple("https://x/s", "https://x/p", lit("two")),
        triple("https://x/s", "https://x/p", lit("one")),
    ]);
    let first = st.first_object(&iri("https://x/s"), &iri("https://x/p")).unwrap();
    assert!(first.equals(&lit("one")));
    let all = st.all_objects(&iri("https://x/s"), &iri("https://x/p"));
    // store order, duplicates kept
    assert_eq!(all.len(), 3);
    assert!(all[0].equals(&lit("one")));
    assert!(all[1].equals(&lit("two")));
    assert!(all[2].equals(&lit("one")));
    assert!(st.first_object(&iri("https://x/s"), &iri("https://x/q")).is_none());
}

#[test]
fn store_reverse_lookup_filters_by_predicate_set() {
    let mut st = TripleStore::new();
    st.bulk_load(vec![
        triple("https://x/e1", "https://x/hasSource", iri("https://x/a")),
        triple("https://x/e2", "https://x/hasTarget", iri("https://x/a")),
        triple("https://x/e3", "https://x/other", iri("https://x/a")),
        triple("https://x/e4", "https://x/hasSource", iri("https://x/b")),
    ]);
    let preds = vec![iri("https://x/hasSource"), iri("https://x/hasTarget")];
    let subjects = st.all_subjects_by_object(&iri("https://x/a"), &preds);
    assert_eq!(subjects.len(), 2);
    assert!(subjects[0].equals(&iri("https://x/e1")));
    assert!(subjects[1].equals(&iri("https://x/e2")));
}

#[test]
fn store_iterate_reflects_insertion_order_and_clear_resets() {
    let mut st = TripleStore::new();
    st.bulk_load(vec![triple("https://x/s1", "https://x/p", lit("a"))]);
    st.bulk_load(vec![triple("https://x/s2", "https://x/p", lit("b"))]);
    let all = st.iterate();
    assert_eq!(all.len(), 2);
    assert!(all[0].subject.equals(&iri("https://x/s1")));
    assert!(all[1].subject.equals(&iri("https://x/s2")));
    st.clear();
    assert_eq!(st.count(), 0);
    assert!(st.iterate().is_empty());
}

#[test]
fn local_name_extraction_rules() {
    assert_eq!(extract_local_name("https://x/path#name"), "name");
    assert_eq!(extract_local_name("https://x/path/name"), "name");
    assert_eq!(extract_local_name("plain"), "plain");
    assert_eq!(extract_local_name("https://x/a#b#c"), "c");
    assert_eq!(extract_local_name("https://x/a#"), "");
}
