//! The ontology model: identifiers, named entities, axioms, and the ontology
//! that collects them.

use crate::term::{Term, TermView};
use vstd::prelude::*;
use vstd::std_specs::cmp::PartialEqSpecImpl;
use vstd::std_specs::convert::FromSpecImpl;

verus! {

/// An identifier. Two identifiers are the same when their texts are.
#[derive(Debug)]
pub struct IRI(String);

impl View for IRI {
    type V = Seq<char>;

    closed spec fn view(&self) -> Seq<char> {
        self.0@
    }
}

impl IRI {
    /// The identifier's text.
    pub fn as_str(&self) -> (r: &str)
        ensures
            r@ == self@,
    {
        self.0.as_str()
    }
}

impl Clone for IRI {
    fn clone(&self) -> (r: IRI)
        ensures
            r@ == self@,
    {
        IRI(self.0.clone())
    }
}

impl PartialEq for IRI {
    fn eq(&self, other: &IRI) -> (r: bool) {
        self.0 == other.0
    }
}

impl PartialEqSpecImpl for IRI {
    open spec fn obeys_eq_spec() -> bool {
        true
    }

    open spec fn eq_spec(&self, other: &IRI) -> bool {
        self@ == other@
    }
}

impl Eq for IRI {

}

/// The text of an optional identifier.
pub open spec fn iri_text(i: Option<IRI>) -> Option<Seq<char>> {
    match i {
        Some(iri) => Some(iri@),
        None => None,
    }
}

/// Whether two optional identifiers have the same text.
pub fn same_iri(a: &Option<IRI>, b: &Option<IRI>) -> (r: bool)
    ensures
        r == (iri_text(*a) == iri_text(*b)),
{
    match (a, b) {
        (Some(x), Some(y)) => *x == *y,
        (None, None) => true,
        _ => false,
    }
}

/// A named class.
#[derive(Debug)]
pub struct Class(pub IRI);

/// The construction context: the one place where identifiers and named
/// entities are made from strings. Equal strings give equal identifiers,
/// whichever context made them.
#[derive(Debug)]
pub struct Build {}

impl Build {
    pub fn new() -> Build {
        Build {  }
    }

    /// The identifier with the text of `s`.
    pub fn iri(&self, s: String) -> (r: IRI)
        ensures
            r@ == s@,
    {
        IRI(s)
    }

    /// The class named by the text of `s`.
    pub fn class(&self, s: String) -> (r: Class)
        ensures
            r.0@ == s@,
    {
        Class(self.iri(s))
    }
}

/// The kinds of entity that an identifier can be declared to denote.
#[derive(Clone, Copy, Debug, PartialEq, Eq, Structural)]
pub enum EntityKind {
    Class,
    Datatype,
    ObjectProperty,
    DataProperty,
    AnnotationProperty,
    NamedIndividual,
}

/// What a [`NamedEntity`] stands for.
pub struct EntityView {
    pub kind: EntityKind,
    pub iri: Seq<char>,
}

/// An identifier together with the kind of thing it names.
#[derive(Debug)]
pub struct NamedEntity {
    pub kind: EntityKind,
    pub iri: IRI,
}

impl View for NamedEntity {
    type V = EntityView;

    open spec fn view(&self) -> EntityView {
        EntityView { kind: self.kind, iri: self.iri@ }
    }
}

impl Clone for NamedEntity {
    fn clone(&self) -> (r: NamedEntity)
        ensures
            r@ == self@,
    {
        NamedEntity { kind: self.kind, iri: self.iri.clone() }
    }
}

impl PartialEq for NamedEntity {
    fn eq(&self, other: &NamedEntity) -> (r: bool) {
        self.kind == other.kind && self.iri == other.iri
    }
}

impl PartialEqSpecImpl for NamedEntity {
    open spec fn obeys_eq_spec() -> bool {
        true
    }

    open spec fn eq_spec(&self, other: &NamedEntity) -> bool {
        self@ == other@
    }
}

impl Eq for NamedEntity {

}

impl From<Class> for NamedEntity {
    fn from(c: Class) -> (r: NamedEntity)
        ensures
            r@ == (EntityView { kind: EntityKind::Class, iri: c.0@ }),
    {
        NamedEntity { kind: EntityKind::Class, iri: c.0 }
    }
}

impl FromSpecImpl<Class> for NamedEntity {
    open spec fn obeys_from_spec() -> bool {
        true
    }

    open spec fn from_spec(c: Class) -> NamedEntity {
        NamedEntity { kind: EntityKind::Class, iri: c.0 }
    }
}

/// What an [`Axiom`] stands for.
pub enum AxiomView {
    Declaration(EntityView),
}

/// A logical statement of the ontology.
#[derive(Debug)]
pub enum Axiom {
    /// The identifier denotes an entity of the given kind.
    Declaration(NamedEntity),
}

impl View for Axiom {
    type V = AxiomView;

    open spec fn view(&self) -> AxiomView {
        match *self {
            Axiom::Declaration(e) => AxiomView::Declaration(e@),
        }
    }
}

impl Clone for Axiom {
    fn clone(&self) -> (r: Axiom)
        ensures
            r@ == self@,
    {
        match self {
            Axiom::Declaration(e) => Axiom::Declaration(e.clone()),
        }
    }
}

impl PartialEq for Axiom {
    fn eq(&self, other: &Axiom) -> (r: bool) {
        match (self, other) {
            (Axiom::Declaration(a), Axiom::Declaration(b)) => *a == *b,
        }
    }
}

impl PartialEqSpecImpl for Axiom {
    open spec fn obeys_eq_spec() -> bool {
        true
    }

    open spec fn eq_spec(&self, other: &Axiom) -> bool {
        self@ == other@
    }
}

impl Eq for Axiom {

}

/// The axiom that declares `entity`.
pub fn declaration(entity: NamedEntity) -> (r: Axiom)
    ensures
        r@ == AxiomView::Declaration(entity@),
{
    Axiom::Declaration(entity)
}

/// What an [`Annotation`] stands for.
pub struct AnnotationView {
    pub property: Seq<char>,
    pub value: TermView,
}

/// A remark attached to an axiom: an annotation property and its value.
#[derive(Debug)]
pub struct Annotation {
    pub property: IRI,
    pub value: Term,
}

impl View for Annotation {
    type V = AnnotationView;

    open spec fn view(&self) -> AnnotationView {
        AnnotationView { property: self.property@, value: self.value@ }
    }
}

impl Clone for Annotation {
    fn clone(&self) -> (r: Annotation)
        ensures
            r@ == self@,
    {
        Annotation { property: self.property.clone(), value: self.value.clone() }
    }
}

impl PartialEq for Annotation {
    fn eq(&self, other: &Annotation) -> (r: bool) {
        self.property == other.property && self.value == other.value
    }
}

impl PartialEqSpecImpl for Annotation {
    open spec fn obeys_eq_spec() -> bool {
        true
    }

    open spec fn eq_spec(&self, other: &Annotation) -> bool {
        self@ == other@
    }
}

impl Eq for Annotation {

}

/// What an [`AnnotatedAxiom`] stands for.
pub struct AnnotatedAxiomView {
    pub statement: AxiomView,
    pub annotations: Seq<AnnotationView>,
}

/// The declaration of the class with the given identifier, without annotations.
pub open spec fn class_declaration(iri: Seq<char>) -> AnnotatedAxiomView {
    AnnotatedAxiomView {
        statement: AxiomView::Declaration(EntityView { kind: EntityKind::Class, iri }),
        annotations: Seq::empty(),
    }
}

/// What each annotation of a list stands for, in order.
pub open spec fn annotation_views(annotations: Seq<Annotation>) -> Seq<AnnotationView> {
    annotations.map_values(|a: Annotation| a@)
}

/// A logical statement together with the annotations made on it.
#[derive(Debug)]
pub struct AnnotatedAxiom {
    pub statement: Axiom,
    pub annotations: Vec<Annotation>,
}

impl View for AnnotatedAxiom {
    type V = AnnotatedAxiomView;

    open spec fn view(&self) -> AnnotatedAxiomView {
        AnnotatedAxiomView {
            statement: self.statement@,
            annotations: annotation_views(self.annotations@),
        }
    }
}

impl Clone for AnnotatedAxiom {
    fn clone(&self) -> (r: AnnotatedAxiom)
        ensures
            r@ == self@,
    {
        let mut annotations: Vec<Annotation> = Vec::new();
        let mut i: usize = 0;
        while i < self.annotations.len()
            invariant
                i <= self.annotations@.len(),
                annotations@.len() == i,
                forall|j: int| 0 <= j < i ==> annotations@[j]@ == self.annotations@[j]@,
            decreases self.annotations@.len() - i,
        {
            annotations.push(self.annotations[i].clone());
            i += 1;
        }
        assert(annotation_views(annotations@) =~= annotation_views(self.annotations@));
        AnnotatedAxiom { statement: self.statement.clone(), annotations }
    }
}

impl PartialEq for AnnotatedAxiom {
    fn eq(&self, other: &AnnotatedAxiom) -> (r: bool) {
        if !(self.statement == other.statement) || self.annotations.len() != other.annotations.len() {
            assert(annotation_views(self.annotations@).len() == self.annotations@.len());
            assert(annotation_views(other.annotations@).len() == other.annotations@.len());
            return false;
        }
        let mut i: usize = 0;
        while i < self.annotations.len()
            invariant
                i <= self.annotations@.len(),
                self.annotations@.len() == other.annotations@.len(),
                forall|j: int| 0 <= j < i ==> self.annotations@[j]@ == other.annotations@[j]@,
            decreases self.annotations@.len() - i,
        {
            if !(self.annotations[i] == other.annotations[i]) {
                assert(annotation_views(self.annotations@)[i as int] != annotation_views(
                    other.annotations@,
                )[i as int]);
                return false;
            }
            i += 1;
        }
        assert(annotation_views(self.annotations@) =~= annotation_views(other.annotations@));
        true
    }
}

impl PartialEqSpecImpl for AnnotatedAxiom {
    open spec fn obeys_eq_spec() -> bool {
        true
    }

    open spec fn eq_spec(&self, other: &AnnotatedAxiom) -> bool {
        self@ == other@
    }
}

impl Eq for AnnotatedAxiom {

}

impl AnnotatedAxiom {
    /// The statement alone, with no annotations.
    pub fn new(statement: Axiom) -> (r: AnnotatedAxiom)
        ensures
            r@ == (AnnotatedAxiomView { statement: statement@, annotations: Seq::empty() }),
    {
        let r = AnnotatedAxiom { statement, annotations: Vec::new() };
        assert(annotation_views(r.annotations@) =~= Seq::empty());
        r
    }
}

} // verus!
