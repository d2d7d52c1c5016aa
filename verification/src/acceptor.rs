//! The acceptor protocol and the recognizers that follow it.
//!
//! A recognizer is offered triples one at a time. It claims those that belong
//! to its construct and, once the stream has ended, is finalized into a typed
//! value.

use crate::error::ReadError;
use crate::model::{
    class_declaration, declaration, AnnotatedAxiom, AnnotatedAxiomView, Build, NamedEntity,
};
use crate::ontology::{Ontology, OntologyID, OntologyView};
use crate::term::{text_of, Triple, TripleView};
use crate::vocab::{text_is, OWL, RDF};
use vstd::prelude::*;

verus! {

/// The outcome of offering one triple to one acceptor.
#[derive(Debug)]
pub enum AcceptState {
    /// The triple was taken.
    Accept,
    /// The triple does not belong here: it comes back as it was offered.
    Return(Triple),
    /// Triples taken earlier are given up, in the order in which they were taken.
    BackTrack(Vec<Triple>),
}

/// How far an acceptor is from being finalized.
#[derive(Clone, Copy, Debug, PartialEq, Eq, Structural)]
pub enum CompleteState {
    /// Required triples are missing: finalizing now fails.
    NotComplete,
    /// Enough has been seen to finalize, and further triples would still be taken.
    CanComplete,
    /// Enough has been seen to finalize, and nothing further is expected.
    Complete,
}

/// What each triple of a list stands for, in order.
pub open spec fn triple_views(triples: Seq<Triple>) -> Seq<TripleView> {
    triples.map_values(|t: Triple| t@)
}

/// What every recognizer offers: take a triple, report readiness, finalize.
pub trait Acceptor<O>: Sized {
    /// The triples that may be offered to the recognizer as it stands.
    spec fn admits(&self, triple: TripleView) -> bool;

    /// How far the recognizer is from being finalized.
    spec fn readiness(&self) -> CompleteState;

    /// The triples that the recognizer has taken and not given up, in the
    /// order in which it took them.
    spec fn taken(&self) -> Seq<TripleView>;

    /// Whether the recognizer is as it was made: it holds nothing.
    spec fn is_fresh(&self) -> bool;

    /// Offers one triple. A triple that is taken is added to those taken
    /// before. A triple that is handed back leaves the recognizer as it was.
    /// A recognizer that backtracks gives up all that it had taken, in the
    /// order in which it took them, and starts afresh.
    fn accept(&mut self, b: &Build, triple: Triple) -> (r: AcceptState)
        requires
            old(self).admits(triple@),
        ensures
            r is Accept ==> final(self).taken() == old(self).taken().push(triple@),
            r matches AcceptState::Return(t) ==> t == triple && *final(self) == *old(self),
            r matches AcceptState::BackTrack(ts) ==> {
                &&& triple_views(ts@) == old(self).taken()
                &&& ts@.len() > 0
                &&& final(self).is_fresh()
            },
    ;

    /// Reports how far the recognizer is from being finalized.
    fn can_complete(&mut self) -> (r: CompleteState)
        ensures
            r == old(self).readiness(),
            *final(self) == *old(self),
    ;

    /// Uses the recognizer up and produces its value, reading the ontology as
    /// built so far. A recognizer that is not complete fails.
    fn complete(self, b: &Build, o: &Ontology) -> (r: Result<O, ReadError>)
        ensures
            self.readiness() is NotComplete ==> r is Err,
    ;
}

/// The recognizer of declarations: one typing triple declares its subject a class.
pub struct AnnotatedAxiomAcceptor {
    iri: Option<String>,
    /// The triples taken so far. Only the subject of the last one is kept.
    history: Ghost<Seq<TripleView>>,
}

impl AnnotatedAxiomAcceptor {
    /// The subject recorded so far.
    pub closed spec fn subject(&self) -> Option<Seq<char>> {
        text_of(self.iri)
    }

    /// The triples taken so far, in their order.
    pub closed spec fn triples(&self) -> Seq<TripleView> {
        self.history@
    }

    /// Whether a declaration recognizer takes `triple`: it takes the triples
    /// `(s, rdf:type, o)` over IRIs, and no others may be offered to it.
    pub fn claims(triple: &Triple) -> (r: bool)
        ensures
            r == triple@.is_typing(),
    {
        match triple.as_iris() {
            Some((_, p, _)) => text_is(p, RDF::Type.iri_str()),
            None => false,
        }
    }

    /// How far the recognizer is from being finalized: complete once a
    /// subject is recorded.
    pub fn state(&self) -> (r: CompleteState)
        ensures
            r == self.readiness(),
    {
        if self.iri.is_some() {
            CompleteState::Complete
        } else {
            CompleteState::NotComplete
        }
    }

    /// The subject recorded so far.
    pub fn recorded(&self) -> (r: Option<&String>)
        ensures
            match r {
                Some(s) => self.subject() == Some(s@),
                None => self.subject() is None,
            },
    {
        match &self.iri {
            Some(s) => Some(s),
            None => None,
        }
    }
}

impl Default for AnnotatedAxiomAcceptor {
    fn default() -> (r: AnnotatedAxiomAcceptor)
        ensures
            r.is_fresh(),
    {
        AnnotatedAxiomAcceptor { iri: None, history: Ghost(Seq::empty()) }
    }
}

impl Acceptor<AnnotatedAxiom> for AnnotatedAxiomAcceptor {
    open spec fn admits(&self, triple: TripleView) -> bool {
        triple.is_typing()
    }

    open spec fn readiness(&self) -> CompleteState {
        if self.subject() is Some {
            CompleteState::Complete
        } else {
            CompleteState::NotComplete
        }
    }

    open spec fn taken(&self) -> Seq<TripleView> {
        self.triples()
    }

    open spec fn is_fresh(&self) -> bool {
        self.subject() is None && self.triples().len() == 0
    }

    /// Takes the typing triple and records its subject in place of any recorded before.
    fn accept(&mut self, b: &Build, triple: Triple) -> (r: AcceptState)
        ensures
            r is Accept,
            final(self).subject() == Some(triple@.subject_iri()),
    {
        match triple.as_iris() {
            Some((s, _, _)) => {
                self.iri = Some(s.clone());
            },
            None => {},
        }
        self.history = Ghost(self.history@.push(triple@));
        AcceptState::Accept
    }

    fn can_complete(&mut self) -> (r: CompleteState) {
        self.state()
    }

    /// Declares the recorded subject a class, without annotations. Fails
    /// where no subject was recorded.
    fn complete(self, b: &Build, o: &Ontology) -> (r: Result<AnnotatedAxiom, ReadError>)
        ensures
            match r {
                Ok(a) => self.subject() matches Some(s) && a@ == class_declaration(s),
                Err(e) => self.subject() is None && e is Incomplete,
            },
    {
        match self.iri {
            Some(s) => {
                let n: NamedEntity = NamedEntity::from(b.class(s));
                Ok(AnnotatedAxiom::new(declaration(n)))
            },
            None => Err(ReadError::Incomplete),
        }
    }
}

/// What an [`OntologyAcceptor`] holds: the names seen so far, and for each
/// axiom recognizer the subject that it has recorded.
pub struct OntologyAcceptorView {
    pub iri: Option<Seq<char>>,
    pub version_iri: Option<Seq<char>>,
    pub in_progress: Seq<Option<Seq<char>>>,
    pub finished: Seq<Option<Seq<char>>>,
    /// The triples taken so far, by the recognizer itself or by one of its
    /// axiom recognizers, in their order.
    pub taken: Seq<TripleView>,
}

impl OntologyAcceptorView {
    /// The state before any triple was offered.
    pub open spec fn initial() -> OntologyAcceptorView {
        OntologyAcceptorView {
            iri: None,
            version_iri: None,
            in_progress: Seq::empty(),
            finished: Seq::empty(),
            taken: Seq::empty(),
        }
    }

    /// Whether `t` names the ontology: no name is known yet, and `t` types
    /// its subject as an ontology.
    pub open spec fn names(self, t: TripleView) -> bool {
        self.iri is None && t.is_ontology_typing()
    }

    /// Whether `t` gives the ontology its version: `t` is a version triple
    /// whose subject is the name already known.
    pub open spec fn versions(self, t: TripleView) -> bool {
        self.iri matches Some(i) && t.is_version_of(i)
    }

    /// Whether `t` goes to a declaration recognizer: to the first one in
    /// progress, which is finished by it, or else to a new one.
    pub open spec fn declares(self, t: TripleView) -> bool {
        !self.names(t) && !self.versions(t) && t.is_typing()
    }

    /// Whether `t` is taken at all.
    pub open spec fn claims(self, t: TripleView) -> bool {
        self.names(t) || self.versions(t) || self.declares(t)
    }

    /// The state after `t` was offered.
    pub open spec fn after(self, t: TripleView) -> OntologyAcceptorView {
        if self.names(t) {
            OntologyAcceptorView { iri: Some(t.subject_iri()), taken: self.taken.push(t), ..self }
        } else if self.versions(t) {
            OntologyAcceptorView {
                version_iri: Some(t.object_iri()),
                taken: self.taken.push(t),
                ..self
            }
        } else if self.declares(t) {
            OntologyAcceptorView {
                in_progress: if self.in_progress.len() > 0 {
                    self.in_progress.remove(0)
                } else {
                    self.in_progress
                },
                finished: self.finished.push(Some(t.subject_iri())),
                taken: self.taken.push(t),
                ..self
            }
        } else {
            self
        }
    }

    /// Whether every finished recognizer has recorded its subject.
    pub open spec fn can_finalize(self) -> bool {
        forall|i: int| 0 <= i < self.finished.len() ==> (#[trigger] self.finished[i]) is Some
    }

    /// Whether the recognizers are settled: none is in progress, and every
    /// finished one has recorded its subject. This holds at the start and
    /// after every triple.
    pub open spec fn settled(self) -> bool {
        self.in_progress.len() == 0 && self.can_finalize()
    }

    /// A class declaration for the subject of each finished recognizer.
    pub open spec fn declared(self) -> Set<AnnotatedAxiomView> {
        self.finished.map_values(|s: Option<Seq<char>>| class_declaration(s->0)).to_set()
    }

    /// The ontology that the state is finalized into: the names seen, and a
    /// class declaration for the subject of each finished recognizer.
    pub open spec fn finalized(self) -> OntologyView {
        OntologyView {
            iri: self.iri,
            version_iri: self.version_iri,
            axioms: self.declared(),
        }
    }
}

/// The subject that each recognizer of a list has recorded, in order.
pub open spec fn subjects(acceptors: Seq<AnnotatedAxiomAcceptor>) -> Seq<Option<Seq<char>>> {
    acceptors.map_values(|a: AnnotatedAxiomAcceptor| a.subject())
}

/// The recognizer of a whole ontology. It takes the triples that name the
/// ontology itself and hands every other triple on to the axiom recognizers.
pub struct OntologyAcceptor {
    /// Recognizers that have taken triples and wait for more.
    incomplete: Vec<AnnotatedAxiomAcceptor>,
    /// Recognizers that expect nothing further, in the order in which they finished.
    complete_acceptors: Vec<AnnotatedAxiomAcceptor>,
    iri: Option<String>,
    viri: Option<String>,
    /// The triples taken so far. What they said is kept in the other fields.
    history: Ghost<Seq<TripleView>>,
}

impl View for OntologyAcceptor {
    type V = OntologyAcceptorView;

    closed spec fn view(&self) -> OntologyAcceptorView {
        OntologyAcceptorView {
            iri: text_of(self.iri),
            version_iri: text_of(self.viri),
            in_progress: subjects(self.incomplete@),
            finished: subjects(self.complete_acceptors@),
            taken: self.history@,
        }
    }
}

impl Default for OntologyAcceptor {
    fn default() -> (r: OntologyAcceptor)
        ensures
            r@ == OntologyAcceptorView::initial(),
    {
        let r = OntologyAcceptor {
            incomplete: Vec::new(),
            complete_acceptors: Vec::new(),
            iri: None,
            viri: None,
            history: Ghost(Seq::empty()),
        };
        assert(subjects(r.incomplete@) =~= Seq::empty());
        assert(subjects(r.complete_acceptors@) =~= Seq::empty());
        r
    }
}

impl OntologyAcceptor {
    /// The name recorded for the ontology.
    pub fn iri(&self) -> (r: Option<&String>)
        ensures
            match r {
                Some(s) => self@.iri == Some(s@),
                None => self@.iri is None,
            },
    {
        match &self.iri {
            Some(s) => Some(s),
            None => None,
        }
    }

    /// The version recorded for the ontology.
    pub fn version_iri(&self) -> (r: Option<&String>)
        ensures
            match r {
                Some(s) => self@.version_iri == Some(s@),
                None => self@.version_iri is None,
            },
    {
        match &self.viri {
            Some(s) => Some(s),
            None => None,
        }
    }

    /// The number of recognizers that wait for more triples.
    pub fn in_progress_len(&self) -> (n: usize)
        ensures
            n == self@.in_progress.len(),
    {
        self.incomplete.len()
    }

    /// The number of recognizers that expect nothing further.
    pub fn finished_len(&self) -> (n: usize)
        ensures
            n == self@.finished.len(),
    {
        self.complete_acceptors.len()
    }
}

impl Acceptor<Ontology> for OntologyAcceptor {
    open spec fn admits(&self, triple: TripleView) -> bool {
        true
    }

    open spec fn readiness(&self) -> CompleteState {
        if self@.can_finalize() {
            CompleteState::CanComplete
        } else {
            CompleteState::NotComplete
        }
    }

    open spec fn taken(&self) -> Seq<TripleView> {
        self@.taken
    }

    open spec fn is_fresh(&self) -> bool {
        self@ == OntologyAcceptorView::initial()
    }

    /// Takes the first triple that types a subject as an ontology: that
    /// subject is the ontology's name from then on. Takes the version triples
    /// whose subject is that name; the last of them gives the version. Any
    /// other triple goes to the axiom recognizers: first to those in
    /// progress, in their order, then to a new one. The recognizer that
    /// takes it is kept, among the finished ones once it reports itself
    /// complete. A triple that none of them takes comes back.
    fn accept(&mut self, b: &Build, triple: Triple) -> (r: AcceptState)
        ensures
            final(self)@ == old(self)@.after(triple@),
            old(self)@.claims(triple@) ==> r is Accept,
            !old(self)@.claims(triple@) ==> r == AcceptState::Return(triple),
    {
        match triple.as_iris() {
            Some((s, p, ob)) => {
                if self.iri.is_none() && text_is(p, RDF::Type.iri_str()) && text_is(
                    ob,
                    OWL::Ontology.iri_str(),
                ) {
                    self.iri = Some(s.clone());
                    self.history = Ghost(self.history@.push(triple@));
                    return AcceptState::Accept;
                }
                if text_is(p, OWL::VersionIRI.iri_str()) && match &self.iri {
                    Some(i) => *i == *s,
                    None => false,
                } {
                    self.viri = Some(ob.clone());
                    self.history = Ghost(self.history@.push(triple@));
                    return AcceptState::Accept;
                }
            },
            None => {},
        }
        if !AnnotatedAxiomAcceptor::claims(&triple) {
            return AcceptState::Return(triple);
        }
        // Recognizers in progress come first, in the order in which they were made.
        let mut held = triple;
        let mut i: usize = 0;
        while i < self.incomplete.len()
            invariant
                i == 0,
                *self == *old(self),
                held == triple,
                old(self)@.declares(triple@),
            decreases self.incomplete@.len() - i,
        {
            match self.incomplete[i].accept(b, held) {
                AcceptState::Accept => {
                    if self.incomplete[i].state() == CompleteState::Complete {
                        let done = self.incomplete.remove(i);
                        self.complete_acceptors.push(done);
                    }
                    self.history = Ghost(self.history@.push(triple@));
                    assert(subjects(self.incomplete@) =~= subjects(old(self).incomplete@).remove(0));
                    assert(subjects(self.complete_acceptors@) =~= subjects(
                        old(self).complete_acceptors@,
                    ).push(Some(triple@.subject_iri())));
                    return AcceptState::Accept;
                },
                AcceptState::Return(t) => {
                    held = t;
                },
                AcceptState::BackTrack(v) => {
                    return AcceptState::BackTrack(v);
                },
            }
            i += 1;
        }
        // Then a new recognizer, which is kept where it takes the triple.
        let mut d = AnnotatedAxiomAcceptor::default();
        match d.accept(b, held) {
            AcceptState::Accept => {
                if d.state() == CompleteState::Complete {
                    self.complete_acceptors.push(d);
                } else {
                    self.incomplete.push(d);
                }
                self.history = Ghost(self.history@.push(triple@));
                assert(subjects(self.complete_acceptors@) =~= subjects(
                    old(self).complete_acceptors@,
                ).push(Some(triple@.subject_iri())));
                AcceptState::Accept
            },
            AcceptState::Return(t) => AcceptState::Return(t),
            AcceptState::BackTrack(v) => AcceptState::BackTrack(v),
        }
    }

    fn can_complete(&mut self) -> (r: CompleteState) {
        let mut i: usize = 0;
        while i < self.complete_acceptors.len()
            invariant
                i <= self.complete_acceptors@.len(),
                *self == *old(self),
                forall|j: int| 0 <= j < i ==> (#[trigger] self@.finished[j]) is Some,
            decreases self.complete_acceptors@.len() - i,
        {
            if self.complete_acceptors[i].state() == CompleteState::NotComplete {
                assert(self@.finished[i as int] is None);
                return CompleteState::NotComplete;
            }
            i += 1;
        }
        CompleteState::CanComplete
    }

    /// Builds the ontology: the names that were recorded, and the axiom of
    /// each finished recognizer, in the order in which they finished. Fails
    /// where one of them fails.
    fn complete(self, b: &Build, o: &Ontology) -> (r: Result<Ontology, ReadError>)
        ensures
            match r {
                Ok(ont) => self@.can_finalize() && ont.wf() && ont@ == self@.finalized(),
                Err(e) => !self@.can_finalize() && e is Incomplete,
            },
    {
        let mut o = Ontology::default();
        o.set_id(
            OntologyID {
                iri: match self.iri {
                    Some(i) => Some(b.iri(i)),
                    None => None,
                },
                viri: match self.viri {
                    Some(i) => Some(b.iri(i)),
                    None => None,
                },
            },
        );
        let ghost finished = self@.finished;
        let ghost declare = |s: Option<Seq<char>>| class_declaration(s->0);
        assert(finished.take(0).map_values(declare).to_set() =~= Set::empty());
        for ac in it: self.complete_acceptors
            invariant
                o.wf(),
                o@.iri == self@.iri,
                o@.version_iri == self@.version_iri,
                finished == self@.finished,
                finished == subjects(it.seq()),
                declare == |s: Option<Seq<char>>| class_declaration(s->0),
                forall|j: int| 0 <= j < it.index() ==> (#[trigger] finished[j]) is Some,
                o@.axioms == finished.take(it.index()).map_values(declare).to_set(),
        {
            let ghost k = it.index();
            assert(finished[k] == ac.subject());
            match ac.complete(b, &o) {
                Ok(a) => {
                    o.insert(a);
                    proof {
                        assert(finished.take(k + 1) =~= finished.take(k).push(finished[k]));
                        finished.take(k).lemma_push_map_commute(declare, finished[k]);
                        finished.take(k).map_values(declare).lemma_push_to_set_commute(
                            declare(finished[k]),
                        );
                    }
                },
                Err(e) => {
                    return Err(e);
                },
            }
        }
        assert(finished.take(finished.len() as int) =~= finished);
        Ok(o)
    }
}

} // verus!
