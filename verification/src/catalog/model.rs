//! The catalog browser as a state machine over mathematical values: what it
//! holds, the events that reach it, what each event does to it, and what is
//! drawn of it.

use vstd::prelude::*;

verus! {

/// Where the request for the catalog stands. A machine is `Idle` until it is
/// created, `InFlight` while the owner waits for the answer, and `Settled`
/// once the answer, good or bad, has arrived.
#[derive(Clone, Copy, Debug, PartialEq, Eq, Structural)]
pub enum FetchLifecycle {
    Idle,
    InFlight,
    Settled,
}

/// The repository and the reference that are selected. Empty stands for
/// "none".
#[verifier::ext_equal]
pub struct Selection {
    pub repository: Seq<char>,
    pub reference: Seq<char>,
}

impl Selection {
    /// Nothing selected.
    pub open spec fn none() -> Selection {
        Selection { repository: Seq::empty(), reference: Seq::empty() }
    }

    /// A reference is selected only within a repository.
    pub open spec fn is_coherent(self) -> bool {
        self.reference.len() > 0 ==> self.repository.len() > 0
    }
}

/// The state of the machine.
#[verifier::ext_equal]
pub struct CatalogModel {
    pub selection: Selection,
    /// The repository names as the registry listed them, once it has.
    pub listing: Option<Seq<Seq<char>>>,
    pub lifecycle: FetchLifecycle,
}

/// What can happen to the machine.
#[verifier::ext_equal]
pub enum Event {
    /// The registry answered with its repository names.
    FetchSucceeded(Seq<Seq<char>>),
    /// The request failed. Why is of no interest to the machine.
    FetchFailed,
    /// The user picked a repository from the listing.
    RepositorySelected(Seq<char>),
    /// The user picked a reference of the selected repository.
    ReferenceSelected(Seq<char>),
    /// The surrounding navigation handed down a selection of its own.
    SelectionReplaced(Selection),
}

/// The outcome of one event: the state that follows, and whether the page
/// has to be drawn again.
#[verifier::ext_equal]
pub struct Step {
    pub next: CatalogModel,
    pub render: bool,
}

/// A machine before its creation has asked for anything.
pub open spec fn idle(selection: Selection) -> CatalogModel {
    CatalogModel { selection, listing: None, lifecycle: FetchLifecycle::Idle }
}

/// A machine as its creation leaves it: the request is out, nothing is
/// listed yet.
pub open spec fn created(selection: Selection) -> CatalogModel {
    CatalogModel { lifecycle: FetchLifecycle::InFlight, ..idle(selection) }
}

/// What `event` does to a machine in state `m`.
///
/// An answer settles the request either way. A good one replaces the
/// listing as a whole; a bad one leaves the listing as it was, records
/// nothing and asks for no redraw. Selecting a repository forgets the
/// reference. A selection from outside is taken over as it comes, and counts
/// as a change only where it differs from the one held.
pub open spec fn step(m: CatalogModel, event: Event) -> Step {
    match event {
        Event::FetchSucceeded(names) => Step {
            next: CatalogModel {
                listing: Some(names),
                lifecycle: FetchLifecycle::Settled,
                ..m
            },
            render: true,
        },
        Event::FetchFailed => Step {
            next: CatalogModel { lifecycle: FetchLifecycle::Settled, ..m },
            render: false,
        },
        Event::RepositorySelected(name) => Step {
            next: CatalogModel {
                selection: Selection { repository: name, reference: Seq::empty() },
                ..m
            },
            render: true,
        },
        Event::ReferenceSelected(reference) => Step {
            next: CatalogModel { selection: Selection { reference, ..m.selection }, ..m },
            render: true,
        },
        Event::SelectionReplaced(selection) => if selection == m.selection {
            Step { next: m, render: false }
        } else {
            Step { next: CatalogModel { selection, ..m }, render: true }
        },
    }
}

/// The state after `events` have reached a machine in state `m`, one after
/// the other.
pub open spec fn run(m: CatalogModel, events: Seq<Event>) -> CatalogModel
    decreases events.len(),
{
    if events.len() == 0 {
        m
    } else {
        step(run(m, events.drop_last()), events.last()).next
    }
}

/// A transition asks its owner for a fetch when it takes the machine into
/// `InFlight`.
pub open spec fn issues_fetch(before: FetchLifecycle, after: FetchLifecycle) -> bool {
    before != FetchLifecycle::InFlight && after == FetchLifecycle::InFlight
}

/// How many of `events` make a machine that starts in state `m` ask for a
/// fetch.
pub open spec fn fetches_issued(m: CatalogModel, events: Seq<Event>) -> nat
    decreases events.len(),
{
    if events.len() == 0 {
        0
    } else {
        let before = run(m, events.drop_last());
        let after = step(before, events.last()).next;
        let earlier = fetches_issued(m, events.drop_last());
        if issues_fetch(before.lifecycle, after.lifecycle) {
            earlier + 1
        } else {
            earlier
        }
    }
}

/// What is drawn of a machine.
#[verifier::ext_equal]
pub struct PageView {
    /// Whether the "fetching" indicator shows.
    pub fetching: bool,
    /// The names in the repository list, where there is a list.
    pub repositories: Option<Seq<Seq<char>>>,
    /// What the repository detail is drawn for, where it is drawn.
    pub repository: Option<Selection>,
    /// What the reference detail is drawn for, where it is drawn.
    pub reference_details: Option<Selection>,
}

/// The page of a machine in state `m`. The indicator shows while the request
/// is out. The list shows once there is a listing, one line for each name,
/// in the registry's order. Each detail shows for a selection of its kind,
/// and is given the whole selection.
pub open spec fn rendered(m: CatalogModel) -> PageView {
    PageView {
        fetching: m.lifecycle == FetchLifecycle::InFlight,
        repositories: m.listing,
        repository: if m.selection.repository.len() > 0 {
            Some(m.selection)
        } else {
            None
        },
        reference_details: if m.selection.reference.len() > 0 {
            Some(m.selection)
        } else {
            None
        },
    }
}

} // verus!
