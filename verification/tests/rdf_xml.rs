use horned_owl::model::{declaration, AnnotatedAxiom, Build, NamedEntity};
use horned_owl::ontology::{Ontology, OntologyID};
use horned_owl::reader::read;
use horned_owl::term::{Term, Triple};
use sophia::term::{LiteralKind, Term as SophiaTerm};
use std::rc::Rc;

fn term_of(t: &SophiaTerm<Rc<str>>) -> Result<Term, String> {
    match t {
        SophiaTerm::Iri(i) => Ok(Term::Iri(i.to_string())),
        SophiaTerm::BNode(id) => Ok(Term::BlankNode(id.as_ref().to_string())),
        SophiaTerm::Literal(value, LiteralKind::Lang(tag)) => Ok(Term::Literal {
            value: value.to_string(),
            lang: Some(tag.to_string()),
            datatype: None,
        }),
        SophiaTerm::Literal(value, LiteralKind::Datatype(iri)) => Ok(Term::Literal {
            value: value.to_string(),
            lang: None,
            datatype: Some(iri.to_string()),
        }),
        SophiaTerm::Variable(name) => Err(format!("variable ?{} in a triple", name)),
    }
}

fn items_of(rdf: &str) -> Vec<Result<Triple, String>> {
    let mut items = Vec::new();
    for parsed in sophia::parser::xml::Config::default().parse_bufread(rdf.as_bytes()) {
        let item = match parsed {
            Ok([s, p, o]) => match (term_of(&s), term_of(&p), term_of(&o)) {
                (Ok(s), Ok(p), Ok(o)) => Ok(Triple::new(s, p, o)),
                (Err(m), _, _) | (_, Err(m), _) | (_, _, Err(m)) => Err(m),
            },
            Err(e) => Err(e.to_string()),
        };
        let failed = item.is_err();
        items.push(item);
        if failed {
            break;
        }
    }
    items
}

fn read_ok(rdf: &str) -> Ontology {
    let r = read(items_of(rdf));
    assert!(r.is_ok(), "Expected ontology, get failure: {:?}", r.err());
    r.unwrap().0
}

fn structured(iri: Option<&str>, classes: &[&str]) -> Ontology {
    let b = Build::new();
    let mut o = Ontology::default();
    o.set_id(OntologyID { iri: iri.map(|i| b.iri(i.to_string())), viri: None });
    for c in classes {
        o.insert(AnnotatedAxiom::new(declaration(NamedEntity::from(b.class(c.to_string())))));
    }
    o
}

const ONE_CLASS: &str = r#"<?xml version="1.0"?>
<rdf:RDF xmlns="http://example.com/iri#"
     xml:base="http://example.com/iri"
     xmlns:owl="http://www.w3.org/2002/07/owl#"
     xmlns:rdf="http://www.w3.org/1999/02/22-rdf-syntax-ns#"
     xmlns:xml="http://www.w3.org/XML/1998/namespace"
     xmlns:xsd="http://www.w3.org/2001/XMLSchema#"
     xmlns:rdfs="http://www.w3.org/2000/01/rdf-schema#">
    <owl:Ontology rdf:about="http://example.com/iri"/>

    <!-- http://example.com/iri#C -->

    <owl:Class rdf:about="http://example.com/iri#C"/>
</rdf:RDF>
"#;

const ONE_ONT: &str = r#"<?xml version="1.0"?>
<rdf:RDF xmlns="http://example.com/iri#"
     xml:base="http://example.com/iri"
     xmlns:owl="http://www.w3.org/2002/07/owl#"
     xmlns:rdf="http://www.w3.org/1999/02/22-rdf-syntax-ns#"
     xmlns:xml="http://www.w3.org/XML/1998/namespace"
     xmlns:xsd="http://www.w3.org/2001/XMLSchema#"
     xmlns:rdfs="http://www.w3.org/2000/01/rdf-schema#">
    <owl:Ontology rdf:about="http://example.com/iri"/>
</rdf:RDF>
"#;

#[test]
fn one_class() {
    let rdfont = read_ok(ONE_CLASS);
    let xmlont = structured(Some("http://example.com/iri"), &["http://example.com/iri#C"]);
    assert_eq!(rdfont, xmlont);
}

#[test]
fn one_ont() {
    let rdfont = read_ok(ONE_ONT);
    let xmlont = structured(Some("http://example.com/iri"), &[]);
    assert_eq!(rdfont, xmlont);
}

#[test]
fn versioned_ontology_from_rdf_xml() {
    let rdf = r#"<?xml version="1.0"?>
<rdf:RDF xmlns:owl="http://www.w3.org/2002/07/owl#"
     xmlns:rdf="http://www.w3.org/1999/02/22-rdf-syntax-ns#">
    <owl:Ontology rdf:about="http://example.com/iri">
        <owl:versionIRI rdf:resource="http://example.com/viri"/>
    </owl:Ontology>
</rdf:RDF>
"#;
    let o = read_ok(rdf);
    let b = Build::new();
    assert_eq!(o.id().iri, Some(b.iri("http://example.com/iri".to_string())));
    assert_eq!(o.id().viri, Some(b.iri("http://example.com/viri".to_string())));
    assert!(o.is_empty());
}

#[test]
fn broken_rdf_xml_is_a_syntax_error() {
    let rdf = r#"<rdf:RDF xmlns:rdf="http://www.w3.org/1999/02/22-rdf-syntax-ns#">
    <undeclared:Thing rdf:about="http://example.com/iri"/>
</rdf:RDF>
"#;
    let items = items_of(rdf);
    assert!(items.iter().any(|i| i.is_err()));
    let r = read(items);
    assert!(matches!(r, Err(horned_owl::error::ReadError::Malformed(_))));
}
