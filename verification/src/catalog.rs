//! The catalog browser: which repository and reference are selected, what
//! the registry listed, and what is drawn of both.
//!
//! The browser decides; it does not fetch or draw. Its owner sends the one
//! request that `Catalog::create` leaves open, hands the answer back as a
//! `Msg`, and draws the `Page` that `Catalog::view` describes.

pub mod laws;
pub mod model;

use crate::catalog::model::{
    created, rendered, step, CatalogModel, Event, FetchLifecycle, PageView, Selection, Step,
};
use vstd::prelude::*;
use vstd::std_specs::cmp::PartialEqSpecImpl;

verus! {

/// The selection as the browser holds it and as the navigation around it
/// hands it down. An empty string stands for "none".
#[derive(Debug)]
pub struct Props {
    pub reference: String,
    pub repository: String,
}

impl View for Props {
    type V = Selection;

    open spec fn view(&self) -> Selection {
        Selection { repository: self.repository@, reference: self.reference@ }
    }
}

impl PartialEq for Props {
    fn eq(&self, other: &Props) -> (equal: bool) {
        self.reference == other.reference && self.repository == other.repository
    }
}

impl PartialEqSpecImpl for Props {
    open spec fn obeys_eq_spec() -> bool {
        true
    }

    open spec fn eq_spec(&self, other: &Props) -> bool {
        self.reference@ == other.reference@ && self.repository@ == other.repository@
    }
}

impl Clone for Props {
    fn clone(&self) -> (copy: Props)
        ensures
            copy@ == self@,
    {
        Props { reference: self.reference.clone(), repository: self.repository.clone() }
    }
}

impl Default for Props {
    /// Nothing selected.
    fn default() -> (props: Props)
        ensures
            props@ == Selection::none(),
    {
        Props { reference: String::new(), repository: String::new() }
    }
}

/// The registry's answer to a request for its catalog.
#[derive(Debug)]
pub struct RepositoriesResponse {
    pub repositories: Vec<String>,
}

/// Why a request failed. The browser hands it on and never looks inside.
#[derive(Debug)]
pub struct ApiError {
    pub cause: String,
}

/// What the browser is told.
#[derive(Debug)]
pub enum Msg {
    FetchCatalogResponseReady(Result<RepositoriesResponse, ApiError>),
    SetCurrentRepository(String),
    SetCurrentReference(String),
}

impl View for Msg {
    type V = Event;

    open spec fn view(&self) -> Event {
        match *self {
            Msg::FetchCatalogResponseReady(Ok(response)) => Event::FetchSucceeded(
                response.repositories.deep_view(),
            ),
            Msg::FetchCatalogResponseReady(Err(_)) => Event::FetchFailed,
            Msg::SetCurrentRepository(repository) => Event::RepositorySelected(repository@),
            Msg::SetCurrentReference(reference) => Event::ReferenceSelected(reference@),
        }
    }
}

/// One line of the repository list, showing a repository's name.
#[derive(Debug)]
pub struct RepositoryLink {
    pub name: String,
}

impl RepositoryLink {
    /// What a click on the line sends: the selection of the repository that
    /// the line names.
    pub fn message(&self) -> (msg: Msg)
        ensures
            msg@ == Event::RepositorySelected(self.name@),
    {
        Msg::SetCurrentRepository(self.name.clone())
    }
}

/// The names on the lines of a repository list, top to bottom.
pub open spec fn names_of(links: Seq<RepositoryLink>) -> Seq<Seq<char>> {
    links.map_values(|link: RepositoryLink| link.name@)
}

/// What the owner has to draw.
#[derive(Debug)]
pub struct Page {
    /// Whether the "fetching" indicator shows.
    pub fetching: bool,
    /// The repository list, where there is one.
    pub repositories: Option<Vec<RepositoryLink>>,
    /// What the repository detail is given, where it is drawn. It also gets
    /// the means to send `Msg::SetCurrentReference`.
    pub repository: Option<Props>,
    /// What the reference detail is given, where it is drawn.
    pub reference_details: Option<Props>,
}

impl View for Page {
    type V = PageView;

    open spec fn view(&self) -> PageView {
        PageView {
            fetching: self.fetching,
            repositories: match self.repositories {
                Some(links) => Some(names_of(links@)),
                None => None,
            },
            repository: match self.repository {
                Some(props) => Some(props@),
                None => None,
            },
            reference_details: match self.reference_details {
                Some(props) => Some(props@),
                None => None,
            },
        }
    }
}

/// The browser's state.
#[derive(Debug)]
pub struct Catalog {
    lifecycle: FetchLifecycle,
    repositories: Option<Vec<String>>,
    props: Props,
}

/// What a browser does with the cause of a failed request unless it is told
/// otherwise: nothing.
pub fn discard_failure(_cause: &ApiError) {
}

impl Catalog {
    /// The state as a mathematical value.
    pub closed spec fn model(&self) -> CatalogModel {
        CatalogModel {
            selection: self.props@,
            listing: self.repositories.deep_view(),
            lifecycle: self.lifecycle,
        }
    }

    /// Sets up a browser with the selection `props`. Nothing is listed yet,
    /// and the request for the catalog is out: the owner sends it, once, and
    /// reports the answer with `Msg::FetchCatalogResponseReady`.
    pub fn create(props: Props) -> (catalog: Catalog)
        ensures
            catalog.model() == created(props@),
            catalog.model().lifecycle == FetchLifecycle::InFlight,
            catalog.model().listing is None,
            catalog.model().selection == props@,
    {
        let mut catalog = Catalog { props, repositories: None, lifecycle: FetchLifecycle::Idle };
        catalog.lifecycle = FetchLifecycle::InFlight;
        catalog
    }

    /// Takes in `msg` and says whether the page has to be drawn again.
    /// A failed request is settled and otherwise dropped: see
    /// `update_with` for a browser that reports it.
    pub fn update(&mut self, msg: Msg) -> (render: bool)
        ensures
            (Step { next: final(self).model(), render }) == step(old(self).model(), msg@),
            msg matches Msg::FetchCatalogResponseReady(Ok(response)) ==> {
                &&& render
                &&& !rendered(final(self).model()).fetching
                &&& final(self).model().listing == Some(response.repositories.deep_view())
                &&& final(self).model().selection == old(self).model().selection
            },
            msg matches Msg::FetchCatalogResponseReady(Err(_)) ==> {
                &&& !render
                &&& !rendered(final(self).model()).fetching
                &&& final(self).model().listing == old(self).model().listing
                &&& final(self).model().selection == old(self).model().selection
            },
            msg matches Msg::SetCurrentRepository(repository) ==> {
                &&& render
                &&& final(self).model().selection.repository == repository@
                &&& final(self).model().selection.reference.len() == 0
                &&& final(self).model().listing == old(self).model().listing
                &&& final(self).model().lifecycle == old(self).model().lifecycle
            },
            msg matches Msg::SetCurrentReference(reference) ==> {
                &&& render
                &&& final(self).model().selection.repository == old(self).model().selection.repository
                &&& final(self).model().selection.reference == reference@
                &&& final(self).model().listing == old(self).model().listing
                &&& final(self).model().lifecycle == old(self).model().lifecycle
            },
    {
        self.update_with(msg, discard_failure)
    }

    /// Takes in `msg` as `update` does, and hands the cause of a failed
    /// request to `on_failure` before it is dropped.
    pub fn update_with<F: FnOnce(&ApiError)>(&mut self, msg: Msg, on_failure: F) -> (render: bool)
        requires
            forall|cause: ApiError| call_requires(on_failure, (&cause,)),
        ensures
            (Step { next: final(self).model(), render }) == step(old(self).model(), msg@),
            msg matches Msg::FetchCatalogResponseReady(Err(cause)) ==> call_ensures(
                on_failure,
                (&cause,),
                (),
            ),
    {
        match msg {
            Msg::FetchCatalogResponseReady(Ok(response)) => {
                self.lifecycle = FetchLifecycle::Settled;
                self.repositories = Some(response.repositories);
                true
            },
            Msg::FetchCatalogResponseReady(Err(cause)) => {
                self.lifecycle = FetchLifecycle::Settled;
                on_failure(&cause);
                false
            },
            Msg::SetCurrentRepository(repository) => {
                self.props.repository = repository;
                self.props.reference = String::new();
                true
            },
            Msg::SetCurrentReference(reference) => {
                self.props.reference = reference;
                true
            },
        }
    }

    /// Takes over the selection `props` that the surrounding navigation
    /// hands down, and says whether it changed anything.
    pub fn change(&mut self, props: Props) -> (changed: bool)
        ensures
            (Step { next: final(self).model(), render: changed }) == step(
                old(self).model(),
                Event::SelectionReplaced(props@),
            ),
            changed == (props@ != old(self).model().selection),
            final(self).model().selection == props@,
            final(self).model().listing == old(self).model().listing,
            final(self).model().lifecycle == old(self).model().lifecycle,
            !changed ==> final(self).model() == old(self).model(),
    {
        let changed = !(self.props == props);
        if changed {
            self.props = props;
        }
        changed
    }

    /// The selection.
    pub fn props(&self) -> (props: &Props)
        ensures
            props@ == self.model().selection,
    {
        &self.props
    }

    /// The repository names as the registry listed them, once it has.
    pub fn repositories(&self) -> (repositories: &Option<Vec<String>>)
        ensures
            repositories.deep_view() == self.model().listing,
    {
        &self.repositories
    }

    /// Where the request for the catalog stands.
    pub fn lifecycle(&self) -> (lifecycle: FetchLifecycle)
        ensures
            lifecycle == self.model().lifecycle,
    {
        self.lifecycle
    }

    /// The whole page: the indicator, the list and the two details.
    pub fn view(&self) -> (page: Page)
        ensures
            page@ == rendered(self.model()),
    {
        Page {
            fetching: self.view_fetching(),
            repositories: self.view_repositories(),
            repository: self.view_repo(),
            reference_details: self.view_reference_details(),
        }
    }

    /// The repository list: none before the registry has answered, then one
    /// line for each name it listed, in its order.
    pub fn view_repositories(&self) -> (list: Option<Vec<RepositoryLink>>)
        ensures
            list is Some <==> self.model().listing is Some,
            list matches Some(links) ==> {
                &&& names_of(links@) == self.model().listing->0
                &&& links@.len() == self.model().listing->0.len()
                &&& forall|i: int|
                    0 <= i < links@.len() ==> (#[trigger] links@[i]).name@
                        == self.model().listing->0[i]
            },
    {
        if let Some(repositories) = &self.repositories {
            let mut links: Vec<RepositoryLink> = Vec::new();
            let mut i: usize = 0;
            while i < repositories.len()
                invariant
                    i <= repositories@.len(),
                    links@.len() == i,
                    forall|j: int| 0 <= j < i ==> (#[trigger] links@[j]).name@ == repositories@[j]@,
                decreases repositories@.len() - i,
            {
                links.push(RepositoryLink { name: repositories[i].clone() });
                i += 1;
            }
            assert(names_of(links@) =~= repositories.deep_view());
            Some(links)
        } else {
            None
        }
    }

    /// Whether the "fetching" indicator shows: while the request is out.
    pub fn view_fetching(&self) -> (visible: bool)
        ensures
            visible == rendered(self.model()).fetching,
            visible == (self.model().lifecycle == FetchLifecycle::InFlight),
    {
        match self.lifecycle {
            FetchLifecycle::InFlight => true,
            _ => false,
        }
    }

    /// What the repository detail is given: the selection, where a
    /// repository is selected, and nothing where none is.
    pub fn view_repo(&self) -> (detail: Option<Props>)
        ensures
            detail is Some <==> self.model().selection.repository.len() > 0,
            detail matches Some(props) ==> props@ == self.model().selection,
    {
        if !self.props.repository.as_str().is_empty() {
            Some(self.props.clone())
        } else {
            None
        }
    }

    /// What the reference detail is given: the selection, where a reference
    /// is selected, and nothing where none is.
    pub fn view_reference_details(&self) -> (detail: Option<Props>)
        ensures
            detail is Some <==> self.model().selection.reference.len() > 0,
            detail matches Some(props) ==> props@ == self.model().selection,
    {
        if !self.props.reference.as_str().is_empty() {
            Some(self.props.clone())
        } else {
            None
        }
    }
}

} // verus!
