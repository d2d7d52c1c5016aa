//! The driver: it feeds a sequence of triples to the ontology recognizer and
//! finalizes it.

use crate::acceptor::{Acceptor, OntologyAcceptor, OntologyAcceptorView};
use crate::error::{ReadError, ReadErrorView};
use crate::laws::law_read_fails_on_syntax_errors_only;
use crate::model::Build;
use crate::ontology::{Ontology, OntologyView};
use crate::term::{Triple, TripleView};
use curie::PrefixMapping;
use vstd::prelude::*;

verus! {

/// What one item of a triple source stands for: a triple, or the message of
/// the syntax error that the source met in its place.
pub open spec fn item_view(item: Result<Triple, String>) -> Result<TripleView, Seq<char>> {
    match item {
        Ok(t) => Ok(t@),
        Err(m) => Err(m@),
    }
}

/// What each item of a list stands for, in order.
pub open spec fn item_views(
    items: Seq<Result<Triple, String>>,
) -> Seq<Result<TripleView, Seq<char>>> {
    items.map_values(|i: Result<Triple, String>| item_view(i))
}

/// The recognizer after the items were offered to it one after the other, or
/// the message of the first syntax error among them.
pub open spec fn fed(
    start: OntologyAcceptorView,
    items: Seq<Result<TripleView, Seq<char>>>,
) -> Result<OntologyAcceptorView, Seq<char>>
    decreases items.len(),
{
    if items.len() == 0 {
        Ok(start)
    } else {
        match fed(start, items.drop_last()) {
            Err(m) => Err(m),
            Ok(state) => match items.last() {
                Ok(t) => Ok(state.after(t)),
                Err(m) => Err(m),
            },
        }
    }
}

/// What a read gives: the first syntax error where there is one; else the
/// ontology that the recognizer is finalized into after all the triples, or
/// the failure of that finalization.
pub open spec fn read_result(
    start: OntologyAcceptorView,
    items: Seq<Result<TripleView, Seq<char>>>,
) -> Result<OntologyView, ReadErrorView> {
    match fed(start, items) {
        Err(m) => Err(ReadErrorView::Malformed(m)),
        Ok(state) => if state.can_finalize() {
            Ok(state.finalized())
        } else {
            Err(ReadErrorView::Incomplete)
        },
    }
}

/// What the outcome of a read stands for.
pub open spec fn outcome_view(
    r: Result<Ontology, ReadError>,
) -> Result<OntologyView, ReadErrorView> {
    match r {
        Ok(o) => Ok(o@),
        Err(e) => Err(e@),
    }
}

/// Offers the items to `acceptor` in their order and then finalizes it. The
/// first syntax error ends the read. A triple that the recognizer hands back
/// is left out of the ontology.
pub fn read_then_complete(
    items: Vec<Result<Triple, String>>,
    b: &Build,
    acceptor: OntologyAcceptor,
) -> (r: Result<Ontology, ReadError>)
    ensures
        outcome_view(r) == read_result(acceptor@, item_views(items@)),
        r matches Ok(o) ==> o.wf(),
{
    let ghost views = item_views(items@);
    let ghost start = acceptor@;
    let mut running = acceptor;
    assert(views.take(0) =~= Seq::empty());
    for item in it: items
        invariant
            start == acceptor@,
            views == item_views(items@),
            views == item_views(it.seq()),
            fed(start, views.take(it.index())) == Ok::<OntologyAcceptorView, Seq<char>>(running@),
    {
        let ghost k = it.index();
        assert(views.take(k + 1).drop_last() =~= views.take(k));
        assert(views.take(k + 1).last() == item_view(item));
        match item {
            Ok(t) => {
                let taken = running.accept(b, t);
                // Nothing is given up by this recognizer, so nothing is offered again.
                assert(!(taken is BackTrack));
            },
            Err(m) => {
                proof {
                    lemma_failure_stays(start, views, k + 1);
                }
                return Err(ReadError::Malformed(m));
            },
        }
    }
    assert(views.take(views.len() as int) =~= views);
    running.complete(b, &Ontology::default())
}

/// Once a prefix of the items has met a syntax error, the whole list gives
/// that error.
proof fn lemma_failure_stays(
    start: OntologyAcceptorView,
    items: Seq<Result<TripleView, Seq<char>>>,
    n: int,
)
    requires
        0 <= n <= items.len(),
        fed(start, items.take(n)) is Err,
    ensures
        fed(start, items) == fed(start, items.take(n)),
    decreases items.len(),
{
    if n == items.len() {
        assert(items.take(n) =~= items);
    } else {
        assert(items.drop_last().take(n) =~= items.take(n));
        lemma_failure_stays(start, items.drop_last(), n);
    }
}

/// The prefix mapping of the `curie` crate, carried through as it is.
#[verifier::external_type_specification]
#[verifier::external_body]
pub struct ExPrefixMapping(curie::PrefixMapping);

/// The pairs of prefix and IRI that a prefix mapping holds, in the order in
/// which they were added: what `PrefixMapping::mappings` walks.
pub uninterp spec fn prefix_entries(m: PrefixMapping) -> Seq<(Seq<char>, Seq<char>)>;

/// The default prefix of a prefix mapping: what `PrefixMapping::set_default` sets.
pub uninterp spec fn prefix_default(m: PrefixMapping) -> Option<Seq<char>>;

/// Calls `PrefixMapping::default` of the `curie` crate, which that crate
/// derives: the mapping it makes has no default prefix and no entry.
#[verifier::external_body]
fn empty_prefix_mapping() -> (m: PrefixMapping)
    ensures
        prefix_entries(m).len() == 0,
        prefix_default(m) is None,
{
    PrefixMapping::default()
}

/// Whether a read of `items` that started afresh ended in `r`: it fails
/// exactly where an item is a syntax error, with the message of the first
/// one, and gives the ontology of [`read_result`] otherwise, with an empty
/// prefix mapping.
pub open spec fn read_ends_in(
    items: Seq<Result<Triple, String>>,
    r: Result<(Ontology, PrefixMapping), ReadError>,
) -> bool {
    &&& r is Err <==> exists|k: int| 0 <= k < items.len() && (#[trigger] items[k]) is Err
    &&& match r {
        Ok((o, m)) => {
            &&& o.wf()
            &&& Ok::<OntologyView, ReadErrorView>(o@) == read_result(
                OntologyAcceptorView::initial(),
                item_views(items),
            )
            &&& prefix_entries(m).len() == 0
            &&& prefix_default(m) is None
        },
        Err(e) => Err::<OntologyView, ReadErrorView>(e@) == read_result(
            OntologyAcceptorView::initial(),
            item_views(items),
        ),
    }
}

/// Reads an ontology from the items of a triple source, making identifiers
/// in `build`. The reader keeps no record of prefixes: the mapping that comes
/// with the ontology is empty.
pub fn read_with_build(
    items: Vec<Result<Triple, String>>,
    build: &Build,
) -> (r: Result<(Ontology, PrefixMapping), ReadError>)
    ensures
        read_ends_in(items@, r),
{
    proof {
        let views = item_views(items@);
        law_read_fails_on_syntax_errors_only(views);
        assert forall|k: int| 0 <= k < items@.len() implies (#[trigger] items@[k] is Err
            <==> views[k] is Err) by {}
        if exists|k: int| 0 <= k < views.len() && (#[trigger] views[k]) is Err {
            let k = choose|k: int| 0 <= k < views.len() && (#[trigger] views[k]) is Err;
            assert(items@[k] is Err);
        }
    }
    match read_then_complete(items, build, OntologyAcceptor::default()) {
        Ok(o) => Ok((o, empty_prefix_mapping())),
        Err(e) => Err(e),
    }
}

/// Reads an ontology from the items of a triple source, in a construction
/// context of its own.
pub fn read(
    items: Vec<Result<Triple, String>>,
) -> (r: Result<(Ontology, PrefixMapping), ReadError>)
    ensures
        read_ends_in(items@, r),
{
    let b = Build::new();
    read_with_build(items, &b)
}

} // verus!
