//! The ontology: an identity and a set of annotated axioms.

use crate::model::{iri_text, same_iri, AnnotatedAxiom, AnnotatedAxiomView, IRI};
use vstd::prelude::*;
use vstd::std_specs::cmp::PartialEqSpecImpl;

verus! {

/// What an [`Ontology`] stands for. The axioms form a set: the order in which
/// they were inserted leaves no trace.
pub struct OntologyView {
    pub iri: Option<Seq<char>>,
    pub version_iri: Option<Seq<char>>,
    pub axioms: Set<AnnotatedAxiomView>,
}

/// The names of an ontology: its primary IRI and its version IRI.
#[derive(Debug)]
pub struct OntologyID {
    pub iri: Option<IRI>,
    pub viri: Option<IRI>,
}

impl Clone for OntologyID {
    fn clone(&self) -> (r: OntologyID)
        ensures
            iri_text(r.iri) == iri_text(self.iri),
            iri_text(r.viri) == iri_text(self.viri),
    {
        OntologyID {
            iri: match &self.iri {
                Some(i) => Some(i.clone()),
                None => None,
            },
            viri: match &self.viri {
                Some(i) => Some(i.clone()),
                None => None,
            },
        }
    }
}

/// What each axiom of a list stands for, in order.
pub open spec fn axiom_views(axioms: Seq<AnnotatedAxiom>) -> Seq<AnnotatedAxiomView> {
    axioms.map_values(|a: AnnotatedAxiom| a@)
}

/// An identity and a set of annotated axioms.
#[derive(Debug)]
pub struct Ontology {
    id: OntologyID,
    axioms: Vec<AnnotatedAxiom>,
}

impl View for Ontology {
    type V = OntologyView;

    closed spec fn view(&self) -> OntologyView {
        OntologyView {
            iri: iri_text(self.id.iri),
            version_iri: iri_text(self.id.viri),
            axioms: axiom_views(self.axioms@).to_set(),
        }
    }
}

impl Ontology {
    /// No axiom is held twice. Every ontology that this library hands out is
    /// well formed, and its methods keep it so.
    pub closed spec fn wf(&self) -> bool {
        axiom_views(self.axioms@).no_duplicates()
    }

    /// The ontology without identity and without axioms.
    pub fn new() -> (o: Ontology)
        ensures
            o.wf(),
            o@ == (OntologyView { iri: None, version_iri: None, axioms: Set::empty() }),
    {
        let o = Ontology { id: OntologyID { iri: None, viri: None }, axioms: Vec::new() };
        assert(axiom_views(o.axioms@).to_set() =~= Set::empty());
        o
    }

    /// The ontology's names.
    pub fn id(&self) -> (r: &OntologyID)
        ensures
            iri_text(r.iri) == self@.iri,
            iri_text(r.viri) == self@.version_iri,
    {
        &self.id
    }

    /// Gives the ontology new names and leaves its axioms as they are.
    pub fn set_id(&mut self, id: OntologyID)
        ensures
            old(self).wf() ==> final(self).wf(),
            final(self)@ == (OntologyView {
                iri: iri_text(id.iri),
                version_iri: iri_text(id.viri),
                axioms: old(self)@.axioms,
            }),
    {
        self.id = id;
    }

    /// Whether the ontology holds an axiom like `a`.
    pub fn contains(&self, a: &AnnotatedAxiom) -> (r: bool)
        ensures
            r == self@.axioms.contains(a@),
    {
        let mut i: usize = 0;
        while i < self.axioms.len()
            invariant
                i <= self.axioms@.len(),
                forall|j: int| 0 <= j < i ==> self.axioms@[j]@ != a@,
            decreases self.axioms@.len() - i,
        {
            if self.axioms[i] == *a {
                assert(axiom_views(self.axioms@)[i as int] == a@);
                return true;
            }
            i += 1;
        }
        assert forall|j: int| 0 <= j < axiom_views(self.axioms@).len() implies axiom_views(
            self.axioms@,
        )[j] != a@ by {
            assert(axiom_views(self.axioms@)[j] == self.axioms@[j]@);
        }
        false
    }

    /// Adds `a` unless an axiom like it is already held. Says whether it was added.
    pub fn insert(&mut self, a: AnnotatedAxiom) -> (added: bool)
        requires
            old(self).wf(),
        ensures
            final(self).wf(),
            final(self)@ == (OntologyView {
                axioms: old(self)@.axioms.insert(a@),
                ..old(self)@
            }),
            added == !old(self)@.axioms.contains(a@),
    {
        if self.contains(&a) {
            assert(self@.axioms.insert(a@) =~= self@.axioms);
            false
        } else {
            let ghost before = axiom_views(self.axioms@);
            self.axioms.push(a);
            proof {
                assert(axiom_views(self.axioms@) =~= before.push(a@));
                before.lemma_push_to_set_commute(a@);
                assert forall|i: int, j: int|
                    0 <= i < before.push(a@).len() && 0 <= j < before.push(a@).len() && i
                        != j implies before.push(a@)[i] != before.push(a@)[j] by {
                    if i < before.len() {
                        assert(before.contains(before[i]));
                    }
                    if j < before.len() {
                        assert(before.contains(before[j]));
                    }
                }
            }
            true
        }
    }

    /// The number of axioms.
    pub fn len(&self) -> (n: usize)
        requires
            self.wf(),
        ensures
            n == self@.axioms.len(),
    {
        proof {
            axiom_views(self.axioms@).unique_seq_to_set();
        }
        self.axioms.len()
    }

    /// Whether the ontology holds no axiom.
    pub fn is_empty(&self) -> (r: bool)
        ensures
            r == (self@.axioms.len() == 0),
    {
        proof {
            let views = axiom_views(self.axioms@);
            vstd::seq_lib::seq_to_set_is_finite(views);
            vstd::set_lib::lemma_set_empty_equivalency_len(views.to_set());
            if views.len() > 0 {
                assert(views.contains(views[0]));
                assert(views.to_set().contains(views[0]));
                assert(!Set::<AnnotatedAxiomView>::empty().contains(views[0]));
            } else {
                assert(views.to_set() =~= Set::empty());
            }
        }
        self.axioms.len() == 0
    }

    /// Whether every axiom of `self` is also held by `other`.
    pub fn subset_of(&self, other: &Ontology) -> (r: bool)
        ensures
            r == self@.axioms.subset_of(other@.axioms),
    {
        let mut i: usize = 0;
        while i < self.axioms.len()
            invariant
                i <= self.axioms@.len(),
                forall|j: int| 0 <= j < i ==> other@.axioms.contains(self.axioms@[j]@),
            decreases self.axioms@.len() - i,
        {
            if !other.contains(&self.axioms[i]) {
                assert(axiom_views(self.axioms@)[i as int] == self.axioms@[i as int]@);
                assert(axiom_views(self.axioms@).contains(self.axioms@[i as int]@));
                return false;
            }
            i += 1;
        }
        assert forall|v: AnnotatedAxiomView| self@.axioms.contains(v) implies other@.axioms.contains(
            v,
        ) by {
            let j = choose|j: int|
                0 <= j < axiom_views(self.axioms@).len() && axiom_views(self.axioms@)[j] == v;
            assert(axiom_views(self.axioms@)[j] == self.axioms@[j]@);
        }
        true
    }
}

impl Default for Ontology {
    fn default() -> (o: Ontology)
        ensures
            o.wf(),
            o@ == (OntologyView { iri: None, version_iri: None, axioms: Set::empty() }),
    {
        Ontology::new()
    }
}

impl PartialEq for Ontology {
    fn eq(&self, other: &Ontology) -> (r: bool) {
        let r = same_iri(&self.id.iri, &other.id.iri) && same_iri(&self.id.viri, &other.id.viri)
            && self.subset_of(other) && other.subset_of(self);
        assert(r ==> self@.axioms =~= other@.axioms);
        r
    }
}

impl PartialEqSpecImpl for Ontology {
    open spec fn obeys_eq_spec() -> bool {
        true
    }

    open spec fn eq_spec(&self, other: &Ontology) -> bool {
        self@ == other@
    }
}

impl Eq for Ontology {

}

} // verus!
