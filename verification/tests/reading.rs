use curie::{ExpansionError, PrefixMapping};
use horned_owl::acceptor::{Acceptor, OntologyAcceptor};
use horned_owl::error::ReadError;
use horned_owl::model::{declaration, AnnotatedAxiom, Build, NamedEntity};
use horned_owl::ontology::{Ontology, OntologyID};
use horned_owl::reader::{read, read_then_complete, read_with_build};
use horned_owl::term::{Term, Triple};

const TYPE: &str = "http://www.w3.org/1999/02/22-rdf-syntax-ns#type";
const CLASS: &str = "http://www.w3.org/2002/07/owl#Class";
const ONTOLOGY: &str = "http://www.w3.org/2002/07/owl#Ontology";
const VERSION_IRI: &str = "http://www.w3.org/2002/07/owl#versionIRI";

fn item(s: &str, p: &str, o: &str) -> Result<Triple, String> {
    Ok(Triple::new(
        Term::Iri(s.to_string()),
        Term::Iri(p.to_string()),
        Term::Iri(o.to_string()),
    ))
}

fn class_decl(b: &Build, s: &str) -> AnnotatedAxiom {
    AnnotatedAxiom::new(declaration(NamedEntity::from(b.class(s.to_string()))))
}

fn expected(b: &Build, iri: Option<&str>, viri: Option<&str>, classes: &[&str]) -> Ontology {
    let mut o = Ontology::new();
    o.set_id(OntologyID {
        iri: iri.map(|i| b.iri(i.to_string())),
        viri: viri.map(|i| b.iri(i.to_string())),
    });
    for c in classes {
        o.insert(class_decl(b, c));
    }
    o
}

#[test]
fn empty_stream_reads_as_empty_ontology() {
    let (o, m) = read(vec![]).unwrap();
    assert_eq!(o, Ontology::default());
    assert!(o.is_empty());
    assert_eq!(o.len(), 0);
    assert_eq!(m, PrefixMapping::default());
}

#[test]
fn prefix_mapping_of_a_read_is_empty() {
    let (_, m) = read(vec![
        item("http://e.org/o", TYPE, ONTOLOGY),
        item("http://e.org/o#C", TYPE, CLASS),
    ])
    .unwrap();
    assert_eq!(m.mappings().count(), 0);
    assert_eq!(m.expand_curie_string("Entity"), Err(ExpansionError::MissingDefault));
    assert_eq!(m.expand_curie_string("owl:Class"), Err(ExpansionError::Invalid));
}

#[test]
fn single_class_declaration() {
    let b = Build::new();
    let (o, _) = read_with_build(vec![item("http://e.org/C", TYPE, CLASS)], &b).unwrap();
    assert_eq!(o.id().iri, None);
    assert_eq!(o.id().viri, None);
    assert_eq!(o.len(), 1);
    assert!(o.contains(&class_decl(&b, "http://e.org/C")));
    assert_eq!(o, expected(&b, None, None, &["http://e.org/C"]));
}

#[test]
fn ontology_identity() {
    let b = Build::new();
    let (o, _) = read_with_build(
        vec![
            item("http://e.org/o", TYPE, ONTOLOGY),
            item("http://e.org/o", VERSION_IRI, "http://e.org/o/1.0"),
        ],
        &b,
    )
    .unwrap();
    assert_eq!(o.id().iri, Some(b.iri("http://e.org/o".to_string())));
    assert_eq!(o.id().viri, Some(b.iri("http://e.org/o/1.0".to_string())));
    assert!(o.is_empty());
    assert_eq!(o, expected(&b, Some("http://e.org/o"), Some("http://e.org/o/1.0"), &[]));
}

#[test]
fn mismatched_version_subject_leaves_version_unset() {
    let b = Build::new();
    let (o, _) = read_with_build(
        vec![
            item("http://e.org/o", TYPE, ONTOLOGY),
            item("http://e.org/other", VERSION_IRI, "http://e.org/o/1.0"),
        ],
        &b,
    )
    .unwrap();
    assert_eq!(o.id().iri, Some(b.iri("http://e.org/o".to_string())));
    assert_eq!(o.id().viri, None);
    assert!(o.is_empty());
}

#[test]
fn version_before_identity_leaves_version_unset() {
    let b = Build::new();
    let (o, _) = read_with_build(
        vec![
            item("http://e.org/o", VERSION_IRI, "http://e.org/o/1.0"),
            item("http://e.org/o", TYPE, ONTOLOGY),
        ],
        &b,
    )
    .unwrap();
    assert_eq!(o.id().iri, Some(b.iri("http://e.org/o".to_string())));
    assert_eq!(o.id().viri, None);
    assert!(o.is_empty());
}

#[test]
fn two_contexts_give_equal_ontologies() {
    let items = || {
        vec![
            item("http://e.org/o", TYPE, ONTOLOGY),
            item("http://e.org/o", VERSION_IRI, "http://e.org/o/1.0"),
            item("http://e.org/o#C", TYPE, CLASS),
            item("http://e.org/o#D", TYPE, CLASS),
        ]
    };
    let b1 = Build::new();
    let b2 = Build::new();
    let (o1, m1) = read_with_build(items(), &b1).unwrap();
    let (o2, m2) = read_with_build(items(), &b2).unwrap();
    assert_eq!(o1, o2);
    assert_eq!(m1, m2);
    let (o3, _) = read(items()).unwrap();
    assert_eq!(o1, o3);
    assert_eq!(
        o1,
        expected(
            &b1,
            Some("http://e.org/o"),
            Some("http://e.org/o/1.0"),
            &["http://e.org/o#C", "http://e.org/o#D"],
        )
    );
}

#[test]
fn order_of_declarations_leaves_no_trace() {
    let (o1, _) = read(vec![
        item("http://e.org/o#C", TYPE, CLASS),
        item("http://e.org/o#D", TYPE, CLASS),
    ])
    .unwrap();
    let (o2, _) = read(vec![
        item("http://e.org/o#D", TYPE, CLASS),
        item("http://e.org/o#C", TYPE, CLASS),
    ])
    .unwrap();
    assert_eq!(o1, o2);
    assert_eq!(o1.len(), 2);
}

#[test]
fn repeated_declaration_is_held_once() {
    let b = Build::new();
    let (o, _) = read_with_build(
        vec![
            item("http://e.org/o#C", TYPE, CLASS),
            item("http://e.org/o#C", TYPE, CLASS),
        ],
        &b,
    )
    .unwrap();
    assert_eq!(o.len(), 1);
    assert!(o.contains(&class_decl(&b, "http://e.org/o#C")));
}

#[test]
fn unrecognized_triples_are_left_out() {
    let b = Build::new();
    let label = Ok(Triple::new(
        Term::Iri("http://e.org/o#C".to_string()),
        Term::Iri("http://www.w3.org/2000/01/rdf-schema#label".to_string()),
        Term::Literal { value: "C".to_string(), lang: Some("en".to_string()), datatype: None },
    ));
    let blank = Ok(Triple::new(
        Term::BlankNode("n0".to_string()),
        Term::Iri(TYPE.to_string()),
        Term::Iri(CLASS.to_string()),
    ));
    let (o, _) =
        read_with_build(vec![label, item("http://e.org/o#C", TYPE, CLASS), blank], &b).unwrap();
    assert_eq!(o, expected(&b, None, None, &["http://e.org/o#C"]));
}

#[test]
fn syntax_error_ends_the_read() {
    let r = read(vec![
        item("http://e.org/o#C", TYPE, CLASS),
        Err("unexpected end of input".to_string()),
        item("http://e.org/o#D", TYPE, CLASS),
    ]);
    match r {
        Err(ReadError::Malformed(m)) => assert_eq!(m, "unexpected end of input"),
        other => panic!("expected a syntax error, got {:?}", other),
    }
}

#[test]
fn first_syntax_error_is_reported() {
    let r = read(vec![Err("first".to_string()), Err("second".to_string())]);
    match r {
        Err(e) => {
            assert!(matches!(e, ReadError::Malformed(_)));
            assert_eq!(e.message(), "first");
        },
        Ok(_) => panic!("expected a syntax error"),
    }
}

#[test]
fn incomplete_error_has_its_message() {
    assert_eq!(
        ReadError::Incomplete.message(),
        "a recognizer was finalized before it had seen the triples it requires"
    );
}

#[test]
fn read_then_complete_goes_on_from_the_acceptor_it_is_given() {
    let b = Build::new();
    let mut acc = OntologyAcceptor::default();
    acc.accept(&b, item("http://e.org/o", TYPE, ONTOLOGY).unwrap());
    let o = read_then_complete(
        vec![
            item("http://e.org/o", VERSION_IRI, "http://e.org/o/2"),
            item("http://e.org/o#C", TYPE, CLASS),
        ],
        &b,
        acc,
    )
    .unwrap();
    assert_eq!(
        o,
        expected(&b, Some("http://e.org/o"), Some("http://e.org/o/2"), &["http://e.org/o#C"])
    );
}
