//! RDF terms and triples.

use crate::vocab::{OWL, RDF};
use vstd::prelude::*;
use vstd::std_specs::cmp::PartialEqSpecImpl;

verus! {

/// What a [`Term`] stands for: its kind and its characters.
pub enum TermView {
    Iri(Seq<char>),
    BlankNode(Seq<char>),
    Literal { value: Seq<char>, lang: Option<Seq<char>>, datatype: Option<Seq<char>> },
}

/// What a [`Triple`] stands for.
pub struct TripleView {
    pub subject: TermView,
    pub predicate: TermView,
    pub object: TermView,
}

/// The characters of an optional string.
pub open spec fn text_of(s: Option<String>) -> Option<Seq<char>> {
    match s {
        Some(t) => Some(t@),
        None => None,
    }
}

/// Whether two optional strings hold the same characters.
pub fn same_text(a: &Option<String>, b: &Option<String>) -> (r: bool)
    ensures
        r == (text_of(*a) == text_of(*b)),
{
    match (a, b) {
        (Some(x), Some(y)) => *x == *y,
        (None, None) => true,
        _ => false,
    }
}

/// A copy of an optional string.
pub fn copy_text(a: &Option<String>) -> (r: Option<String>)
    ensures
        text_of(r) == text_of(*a),
{
    match a {
        Some(x) => Some(x.clone()),
        None => None,
    }
}

/// An RDF term. Terms are compared by what they hold, never by identity.
#[derive(Debug)]
pub enum Term {
    /// An IRI reference, held as its full text.
    Iri(String),
    /// A blank node, held as its identifier.
    BlankNode(String),
    /// A literal: lexical value, language tag and datatype IRI.
    Literal { value: String, lang: Option<String>, datatype: Option<String> },
}

impl View for Term {
    type V = TermView;

    open spec fn view(&self) -> TermView {
        match *self {
            Term::Iri(s) => TermView::Iri(s@),
            Term::BlankNode(s) => TermView::BlankNode(s@),
            Term::Literal { value, lang, datatype } => TermView::Literal {
                value: value@,
                lang: text_of(lang),
                datatype: text_of(datatype),
            },
        }
    }
}

impl Clone for Term {
    fn clone(&self) -> (r: Term)
        ensures
            r@ == self@,
    {
        match self {
            Term::Iri(s) => Term::Iri(s.clone()),
            Term::BlankNode(s) => Term::BlankNode(s.clone()),
            Term::Literal { value, lang, datatype } => Term::Literal {
                value: value.clone(),
                lang: copy_text(lang),
                datatype: copy_text(datatype),
            },
        }
    }
}

impl PartialEq for Term {
    fn eq(&self, other: &Term) -> (r: bool) {
        match (self, other) {
            (Term::Iri(a), Term::Iri(b)) => *a == *b,
            (Term::BlankNode(a), Term::BlankNode(b)) => *a == *b,
            (
                Term::Literal { value: v1, lang: l1, datatype: d1 },
                Term::Literal { value: v2, lang: l2, datatype: d2 },
            ) => *v1 == *v2 && same_text(l1, l2) && same_text(d1, d2),
            _ => false,
        }
    }
}

impl PartialEqSpecImpl for Term {
    open spec fn obeys_eq_spec() -> bool {
        true
    }

    open spec fn eq_spec(&self, other: &Term) -> bool {
        self@ == other@
    }
}

impl Eq for Term {

}

/// A statement: subject, predicate and object, fixed once it is made.
#[derive(Debug)]
pub struct Triple {
    subject: Term,
    predicate: Term,
    object: Term,
}

impl View for Triple {
    type V = TripleView;

    closed spec fn view(&self) -> TripleView {
        TripleView { subject: self.subject@, predicate: self.predicate@, object: self.object@ }
    }
}

impl Triple {
    pub fn new(subject: Term, predicate: Term, object: Term) -> (t: Triple)
        ensures
            t@ == (TripleView { subject: subject@, predicate: predicate@, object: object@ }),
    {
        Triple { subject, predicate, object }
    }

    pub fn subject(&self) -> (r: &Term)
        ensures
            r@ == self@.subject,
    {
        &self.subject
    }

    pub fn predicate(&self) -> (r: &Term)
        ensures
            r@ == self@.predicate,
    {
        &self.predicate
    }

    pub fn object(&self) -> (r: &Term)
        ensures
            r@ == self@.object,
    {
        &self.object
    }

    /// The texts of subject, predicate and object where all three are IRIs.
    pub fn as_iris(&self) -> (r: Option<(&String, &String, &String)>)
        ensures
            match r {
                Some((s, p, o)) => self@.iris() == Some((s@, p@, o@)),
                None => self@.iris() is None,
            },
    {
        match (&self.subject, &self.predicate, &self.object) {
            (Term::Iri(s), Term::Iri(p), Term::Iri(o)) => Some((s, p, o)),
            _ => None,
        }
    }
}

impl TripleView {
    /// The texts of subject, predicate and object where all three are IRIs.
    pub open spec fn iris(self) -> Option<(Seq<char>, Seq<char>, Seq<char>)> {
        match (self.subject, self.predicate, self.object) {
            (TermView::Iri(s), TermView::Iri(p), TermView::Iri(o)) => Some((s, p, o)),
            _ => None,
        }
    }

    /// The triple `(s, rdf:type, o)` over IRIs.
    pub open spec fn typing(s: Seq<char>, o: Seq<char>) -> TripleView {
        TripleView {
            subject: TermView::Iri(s),
            predicate: TermView::Iri(RDF::Type.iri_text()),
            object: TermView::Iri(o),
        }
    }

    /// The triple `(s, owl:versionIRI, v)` over IRIs.
    pub open spec fn version(s: Seq<char>, v: Seq<char>) -> TripleView {
        TripleView {
            subject: TermView::Iri(s),
            predicate: TermView::Iri(OWL::VersionIRI.iri_text()),
            object: TermView::Iri(v),
        }
    }

    /// Whether the triple types its subject: `(s, rdf:type, o)` with three IRIs.
    pub open spec fn is_typing(self) -> bool {
        &&& self.subject is Iri
        &&& self.predicate == TermView::Iri(RDF::Type.iri_text())
        &&& self.object is Iri
    }

    /// Whether the triple types its subject as an ontology:
    /// `(s, rdf:type, owl:Ontology)`.
    pub open spec fn is_ontology_typing(self) -> bool {
        &&& self.subject is Iri
        &&& self.predicate == TermView::Iri(RDF::Type.iri_text())
        &&& self.object == TermView::Iri(OWL::Ontology.iri_text())
    }

    /// Whether the triple gives a version to the ontology named `iri`:
    /// `(iri, owl:versionIRI, v)` with three IRIs.
    pub open spec fn is_version_of(self, iri: Seq<char>) -> bool {
        &&& self.subject == TermView::Iri(iri)
        &&& self.predicate == TermView::Iri(OWL::VersionIRI.iri_text())
        &&& self.object is Iri
    }

    /// The text of the subject, where it is an IRI.
    pub open spec fn subject_iri(self) -> Seq<char> {
        self.subject->Iri_0
    }

    /// The text of the object, where it is an IRI.
    pub open spec fn object_iri(self) -> Seq<char> {
        self.object->Iri_0
    }
}

impl Clone for Triple {
    fn clone(&self) -> (r: Triple)
        ensures
            r@ == self@,
    {
        Triple {
            subject: self.subject.clone(),
            predicate: self.predicate.clone(),
            object: self.object.clone(),
        }
    }
}

impl PartialEq for Triple {
    fn eq(&self, other: &Triple) -> (r: bool) {
        self.subject == other.subject && self.predicate == other.predicate && self.object
            == other.object
    }
}

impl PartialEqSpecImpl for Triple {
    open spec fn obeys_eq_spec() -> bool {
        true
    }

    open spec fn eq_spec(&self, other: &Triple) -> bool {
        self@ == other@
    }
}

impl Eq for Triple {

}

} // verus!
