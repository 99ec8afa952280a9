//! What holds of the catalog browser whatever reaches it.

use crate::catalog::model::{
    created, fetches_issued, idle, issues_fetch, rendered, run, step, CatalogModel, Event,
    FetchLifecycle, Selection, Step,
};
use vstd::prelude::*;

verus! {

/// Creation asks for the catalog, and no event ever asks again: whatever
/// state an event meets, it does not take the machine into `InFlight`.
pub proof fn lemma_only_creation_fetches(selection: Selection, m: CatalogModel, event: Event)
    ensures
        issues_fetch(idle(selection).lifecycle, created(selection).lifecycle),
        !issues_fetch(m.lifecycle, step(m, event).next.lifecycle),
{
}

/// Over its whole life a machine asks for the catalog exactly once: its
/// creation does, and of the events that follow, however many and whichever,
/// none does.
pub proof fn lemma_single_fetch(selection: Selection, events: Seq<Event>)
    ensures
        issues_fetch(idle(selection).lifecycle, created(selection).lifecycle),
        fetches_issued(created(selection), events) == 0,
    decreases events.len(),
{
    if events.len() > 0 {
        lemma_single_fetch(selection, events.drop_last());
    }
}

/// Once the request is settled it stays settled, and no event takes a
/// machine back to `Idle`.
pub proof fn lemma_lifecycle_moves_forward(m: CatalogModel, events: Seq<Event>)
    ensures
        m.lifecycle == FetchLifecycle::Settled ==> run(m, events).lifecycle
            == FetchLifecycle::Settled,
        m.lifecycle != FetchLifecycle::Idle ==> run(m, events).lifecycle != FetchLifecycle::Idle,
    decreases events.len(),
{
    if events.len() > 0 {
        lemma_lifecycle_moves_forward(m, events.drop_last());
    }
}

/// After a good answer the indicator is off and the listing holds the names
/// that came, in the order in which they came. The page is drawn again.
pub proof fn lemma_fetch_success(m: CatalogModel, names: Seq<Seq<char>>)
    ensures
        !rendered(step(m, Event::FetchSucceeded(names)).next).fetching,
        step(m, Event::FetchSucceeded(names)).next.listing == Some(names),
        rendered(step(m, Event::FetchSucceeded(names)).next).repositories == Some(names),
        step(m, Event::FetchSucceeded(names)).next.selection == m.selection,
        step(m, Event::FetchSucceeded(names)).render,
{
}

/// After a bad answer the indicator is off and everything else is as it
/// was: a listing that was absent stays absent, and nothing in the state
/// tells the failure from an answer that is still to come. No redraw is
/// asked for.
pub proof fn lemma_fetch_failure(m: CatalogModel)
    ensures
        !rendered(step(m, Event::FetchFailed).next).fetching,
        step(m, Event::FetchFailed).next.listing == m.listing,
        step(m, Event::FetchFailed).next.selection == m.selection,
        step(m, Event::FetchFailed).next == (CatalogModel {
            lifecycle: FetchLifecycle::Settled,
            ..m
        }),
        !step(m, Event::FetchFailed).render,
{
}

/// A listing, once there, is never taken away again.
pub proof fn lemma_listing_stays(m: CatalogModel, events: Seq<Event>)
    requires
        m.listing is Some,
    ensures
        run(m, events).listing is Some,
    decreases events.len(),
{
    if events.len() > 0 {
        lemma_listing_stays(m, events.drop_last());
    }
}

/// Selecting a repository leaves no reference selected, whatever was
/// selected before, and touches neither the listing nor the request.
pub proof fn lemma_repository_selection_resets_reference(m: CatalogModel, name: Seq<char>)
    ensures
        step(m, Event::RepositorySelected(name)).next.selection.repository == name,
        step(m, Event::RepositorySelected(name)).next.selection.reference.len() == 0,
        step(m, Event::RepositorySelected(name)).next.listing == m.listing,
        step(m, Event::RepositorySelected(name)).next.lifecycle == m.lifecycle,
        step(m, Event::RepositorySelected(name)).render,
{
}

/// Selecting a reference changes the reference and nothing else.
pub proof fn lemma_reference_selection_keeps_repository(m: CatalogModel, reference: Seq<char>)
    ensures
        step(m, Event::ReferenceSelected(reference)).next.selection == (Selection {
            repository: m.selection.repository,
            reference,
        }),
        step(m, Event::ReferenceSelected(reference)).next.listing == m.listing,
        step(m, Event::ReferenceSelected(reference)).next.lifecycle == m.lifecycle,
        step(m, Event::ReferenceSelected(reference)).render,
{
}

/// A selection from outside that equals the one held changes nothing and
/// asks for no redraw. One that differs is taken over as it is, and asks
/// for one.
pub proof fn lemma_outside_selection(m: CatalogModel, selection: Selection)
    ensures
        selection == m.selection ==> step(m, Event::SelectionReplaced(selection)) == (Step {
            next: m,
            render: false,
        }),
        selection != m.selection ==> step(m, Event::SelectionReplaced(selection)) == (Step {
            next: CatalogModel { selection, ..m },
            render: true,
        }),
        step(m, Event::SelectionReplaced(selection)).next.selection == selection,
        step(m, Event::SelectionReplaced(selection)).render == (selection != m.selection),
{
}

/// An event suits a state when it keeps a reference from being selected
/// outside a repository: a reference is picked only while a repository is
/// selected, which is when the repository detail is drawn and can send the
/// pick, and a selection from outside is coherent itself.
pub open spec fn suits(m: CatalogModel, event: Event) -> bool {
    match event {
        Event::ReferenceSelected(reference) => reference.len() > 0
            ==> m.selection.repository.len() > 0,
        Event::SelectionReplaced(selection) => selection.is_coherent(),
        _ => true,
    }
}

/// Every one of `events` suits the state that it meets on the run from `m`.
pub open spec fn all_suit(m: CatalogModel, events: Seq<Event>) -> bool
    decreases events.len(),
{
    events.len() > 0 ==> all_suit(m, events.drop_last()) && suits(
        run(m, events.drop_last()),
        events.last(),
    )
}

/// Where the selection is coherent, the reference detail is not drawn
/// unless a repository is selected.
pub proof fn lemma_reference_detail_needs_repository(m: CatalogModel)
    requires
        m.selection.is_coherent(),
    ensures
        m.selection.repository.len() == 0 ==> rendered(m).reference_details is None,
        rendered(m).reference_details is Some ==> rendered(m).repository is Some,
{
}

/// A coherent selection stays coherent over events that suit, so that on
/// such a run the reference detail is never drawn without a repository.
pub proof fn lemma_coherence_is_kept(m: CatalogModel, events: Seq<Event>)
    requires
        m.selection.is_coherent(),
        all_suit(m, events),
    ensures
        run(m, events).selection.is_coherent(),
        run(m, events).selection.repository.len() == 0 ==> rendered(
            run(m, events),
        ).reference_details is None,
    decreases events.len(),
{
    if events.len() > 0 {
        lemma_coherence_is_kept(m, events.drop_last());
    }
}

} // verus!
