//! What holds of every read, proved from the definitions that the contracts
//! of the recognizers and of the driver are stated in.

use crate::acceptor::{Acceptor, AnnotatedAxiomAcceptor, OntologyAcceptorView};
use crate::error::{ReadError, ReadErrorView};
use crate::model::{class_declaration, AnnotatedAxiomView};
use crate::ontology::{Ontology, OntologyView};
use crate::reader::{
    fed, item_views, prefix_default, prefix_entries, read_ends_in, read_result,
};
use crate::term::{Triple, TripleView};
use crate::vocab::{lemma_vocabulary_distinct, OWL};
use curie::PrefixMapping;
use vstd::prelude::*;
use vstd::std_specs::cmp::PartialEqSpec;

verus! {

/// The ontology is named at most once: a name that is recorded stays,
/// whatever triple is offered next.
pub proof fn law_name_is_set_once(state: OntologyAcceptorView, t: TripleView)
    requires
        state.iri is Some,
    ensures
        state.after(t).iri == state.iri,
{
}

/// The version changes only through a version triple whose subject is the
/// name already recorded, and then it is that triple's object.
pub proof fn law_version_needs_the_name(state: OntologyAcceptorView, t: TripleView)
    ensures
        state.after(t).version_iri != state.version_iri ==> {
            &&& state.iri matches Some(i)
            &&& t.is_version_of(i)
            &&& state.after(t).version_iri == Some(t.object_iri())
        },
{
}

/// A version triple that comes before the ontology is named is not taken as
/// the ontology's version: it goes to the axiom recognizers, none of which
/// takes it, so it is handed back and changes nothing.
pub proof fn law_version_before_name(state: OntologyAcceptorView, s: Seq<char>, v: Seq<char>)
    requires
        state.iri is None,
    ensures
        !state.claims(TripleView::version(s, v)),
        state.after(TripleView::version(s, v)) == state,
{
    lemma_vocabulary_distinct();
}

/// A version triple about another subject than the recorded name is not
/// taken either, and changes nothing.
pub proof fn law_version_of_another_subject(
    state: OntologyAcceptorView,
    s: Seq<char>,
    v: Seq<char>,
)
    requires
        state.iri != Some(s),
    ensures
        !state.claims(TripleView::version(s, v)),
        state.after(TripleView::version(s, v)) == state,
{
    lemma_vocabulary_distinct();
}

/// One triple `(c, rdf:type, owl:Class)` reads as the ontology without name
/// and version whose one axiom declares the class `c`.
pub proof fn law_single_class(c: Seq<char>)
    ensures
        read_result(
            OntologyAcceptorView::initial(),
            seq![Ok(TripleView::typing(c, OWL::Class.iri_text()))],
        ) == Ok::<OntologyView, ReadErrorView>(
            OntologyView {
                iri: None,
                version_iri: None,
                axioms: Set::empty().insert(class_declaration(c)),
            },
        ),
{
    lemma_vocabulary_distinct();
    let t = TripleView::typing(c, OWL::Class.iri_text());
    let items = seq![Ok::<TripleView, Seq<char>>(t)];
    let start = OntologyAcceptorView::initial();
    assert(items.drop_last() =~= Seq::empty());
    assert(fed(start, items.drop_last()) == Ok::<OntologyAcceptorView, Seq<char>>(start));
    let end = start.after(t);
    assert(end.declared() =~= Set::empty().insert(class_declaration(c))) by {
        let declare = |s: Option<Seq<char>>| class_declaration(s->0);
        assert(end.finished.map_values(declare) =~= Seq::empty().push(class_declaration(c)));
        Seq::<AnnotatedAxiomView>::empty().lemma_push_to_set_commute(class_declaration(c));
        assert(Seq::<AnnotatedAxiomView>::empty().to_set() =~= Set::empty());
    }
}

/// The triples `(o, rdf:type, owl:Ontology)` and then `(o, owl:versionIRI, v)`
/// read as the ontology named `o` with version `v`, without axioms.
pub proof fn law_ontology_identity(o: Seq<char>, v: Seq<char>)
    ensures
        read_result(
            OntologyAcceptorView::initial(),
            seq![
                Ok(TripleView::typing(o, OWL::Ontology.iri_text())),
                Ok(TripleView::version(o, v)),
            ],
        ) == Ok::<OntologyView, ReadErrorView>(
            OntologyView { iri: Some(o), version_iri: Some(v), axioms: Set::empty() },
        ),
{
    lemma_vocabulary_distinct();
    let first = TripleView::typing(o, OWL::Ontology.iri_text());
    let second = TripleView::version(o, v);
    let start = OntologyAcceptorView::initial();
    lemma_fed_two(start, first, second);
    let end = start.after(first).after(second);
    assert(end.finished =~= Seq::empty());
    assert(end.declared() =~= Set::empty());
}

/// After `(o, rdf:type, owl:Ontology)`, a version triple about another
/// subject gives the ontology no version: the two read as the ontology named
/// `o`, without version and without axioms.
pub proof fn law_mismatched_version(o: Seq<char>, other: Seq<char>, v: Seq<char>)
    requires
        other != o,
    ensures
        read_result(
            OntologyAcceptorView::initial(),
            seq![
                Ok(TripleView::typing(o, OWL::Ontology.iri_text())),
                Ok(TripleView::version(other, v)),
            ],
        ) == Ok::<OntologyView, ReadErrorView>(
            OntologyView { iri: Some(o), version_iri: None, axioms: Set::empty() },
        ),
{
    lemma_vocabulary_distinct();
    let first = TripleView::typing(o, OWL::Ontology.iri_text());
    let second = TripleView::version(other, v);
    let start = OntologyAcceptorView::initial();
    lemma_fed_two(start, first, second);
    let end = start.after(first).after(second);
    assert(end.finished =~= Seq::empty());
    assert(end.declared() =~= Set::empty());
}

/// Two triples are offered one after the other.
proof fn lemma_fed_two(start: OntologyAcceptorView, first: TripleView, second: TripleView)
    ensures
        fed(start, seq![Ok(first), Ok(second)]) == Ok::<OntologyAcceptorView, Seq<char>>(
            start.after(first).after(second),
        ),
{
    let items = seq![Ok::<TripleView, Seq<char>>(first), Ok::<TripleView, Seq<char>>(second)];
    assert(items.drop_last() =~= seq![Ok::<TripleView, Seq<char>>(first)]);
    assert(items.drop_last().drop_last() =~= Seq::empty());
    assert(fed(start, items.drop_last().drop_last()) == Ok::<OntologyAcceptorView, Seq<char>>(
        start,
    ));
    assert(fed(start, items.drop_last()) == Ok::<OntologyAcceptorView, Seq<char>>(
        start.after(first),
    ));
}

/// A read is determined by what its items stand for: two reads of items
/// that stand for the same triples and the same syntax errors, in whatever
/// construction contexts, end alike. Either both give an ontology, and the
/// two stand for the same names and the same axioms, so that they compare
/// equal; or both fail, in the same way.
pub proof fn law_reads_agree(
    first_items: Seq<Result<Triple, String>>,
    second_items: Seq<Result<Triple, String>>,
    first: Result<(Ontology, PrefixMapping), ReadError>,
    second: Result<(Ontology, PrefixMapping), ReadError>,
)
    requires
        item_views(first_items) == item_views(second_items),
        read_ends_in(first_items, first),
        read_ends_in(second_items, second),
    ensures
        match (first, second) {
            (Ok((o1, m1)), Ok((o2, m2))) => {
                &&& o1@ == o2@
                &&& o1.eq_spec(&o2)
                &&& prefix_entries(m1) == prefix_entries(m2)
                &&& prefix_default(m1) == prefix_default(m2)
            },
            (Err(e1), Err(e2)) => e1@ == e2@,
            _ => false,
        },
{
    if first is Ok && second is Ok {
        assert(prefix_entries(first->Ok_0.1) =~= prefix_entries(second->Ok_0.1));
    }
}

/// A declaration recognizer that was offered nothing cannot be finalized.
pub proof fn law_fresh_recognizer_is_not_complete(a: AnnotatedAxiomAcceptor)
    requires
        a.is_fresh(),
    ensures
        a.readiness() is NotComplete,
{
}

/// Where every finished recognizer has recorded its subject and none is in
/// progress, this is still so after any triple.
pub proof fn law_recognizers_stay_settled(state: OntologyAcceptorView, t: TripleView)
    requires
        state.settled(),
    ensures
        state.after(t).settled(),
{
}

/// From the initial state every sequence of triples leaves the recognizers
/// settled.
pub proof fn law_reads_stay_settled(items: Seq<Result<TripleView, Seq<char>>>)
    ensures
        fed(OntologyAcceptorView::initial(), items) matches Ok(state) ==> state.settled(),
    decreases items.len(),
{
    if items.len() > 0 {
        law_reads_stay_settled(items.drop_last());
        match fed(OntologyAcceptorView::initial(), items.drop_last()) {
            Ok(state) => match items.last() {
                Ok(t) => law_recognizers_stay_settled(state, t),
                Err(_) => {},
            },
            Err(_) => {},
        }
    }
}

/// A read from the initial state fails exactly where an item is a syntax
/// error, and then with the message of the first such item.
pub proof fn law_read_fails_on_syntax_errors_only(items: Seq<Result<TripleView, Seq<char>>>)
    ensures
        read_result(OntologyAcceptorView::initial(), items) is Err <==> exists|k: int|
            0 <= k < items.len() && (#[trigger] items[k]) is Err,
        read_result(OntologyAcceptorView::initial(), items) matches Err(e) ==> exists|k: int|
            {
                &&& 0 <= k < items.len()
                &&& #[trigger] items[k] matches Err(m)
                &&& e == ReadErrorView::Malformed(m)
                &&& forall|j: int| 0 <= j < k ==> (#[trigger] items[j]) is Ok
            },
{
    law_reads_stay_settled(items);
    lemma_first_failure(OntologyAcceptorView::initial(), items);
}

/// Feeding fails exactly where an item is a syntax error, with the message
/// of the first one.
proof fn lemma_first_failure(start: OntologyAcceptorView, items: Seq<Result<TripleView, Seq<char>>>)
    ensures
        fed(start, items) is Ok <==> forall|k: int|
            0 <= k < items.len() ==> (#[trigger] items[k]) is Ok,
        fed(start, items) matches Err(m) ==> exists|k: int|
            {
                &&& 0 <= k < items.len()
                &&& #[trigger] items[k] == Err::<TripleView, Seq<char>>(m)
                &&& forall|j: int| 0 <= j < k ==> (#[trigger] items[j]) is Ok
            },
    decreases items.len(),
{
    if items.len() > 0 {
        let rest = items.drop_last();
        lemma_first_failure(start, rest);
        assert forall|k: int| 0 <= k < rest.len() implies rest[k] == items[k] by {}
        match fed(start, rest) {
            Ok(_) => {
                if items.last() is Err {
                    let k = items.len() - 1;
                    assert(items[k] == Err::<TripleView, Seq<char>>(items.last()->Err_0));
                } else {
                    assert forall|k: int| 0 <= k < items.len() implies (#[trigger] items[k]) is Ok by {
                        if k < rest.len() {
                            assert(rest[k] is Ok);
                        }
                    }
                }
            },
            Err(m) => {
                let k = choose|k: int|
                    {
                        &&& 0 <= k < rest.len()
                        &&& #[trigger] rest[k] == Err::<TripleView, Seq<char>>(m)
                        &&& forall|j: int| 0 <= j < k ==> (#[trigger] rest[j]) is Ok
                    };
                assert(items[k] == Err::<TripleView, Seq<char>>(m));
                assert forall|j: int| 0 <= j < k implies (#[trigger] items[j]) is Ok by {
                    assert(rest[j] is Ok);
                }
            },
        }
    }
}

} // verus!
