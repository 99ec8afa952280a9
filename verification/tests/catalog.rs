use registry_front::catalog::model::FetchLifecycle;
use registry_front::catalog::{
    discard_failure, ApiError, Catalog, Msg, Props, RepositoriesResponse,
};
use std::cell::RefCell;

fn selection(repository: &str, reference: &str) -> Props {
    Props { repository: repository.to_string(), reference: reference.to_string() }
}

fn answer(names: &[&str]) -> Msg {
    Msg::FetchCatalogResponseReady(Ok(RepositoriesResponse {
        repositories: names.iter().map(|name| name.to_string()).collect(),
    }))
}

fn failure(cause: &str) -> Msg {
    Msg::FetchCatalogResponseReady(Err(ApiError { cause: cause.to_string() }))
}

#[test]
fn default_selection_is_empty() {
    let props = Props::default();
    assert_eq!(props.repository, "");
    assert_eq!(props.reference, "");
    assert_eq!(props, selection("", ""));
}

#[test]
fn selections_compare_by_value() {
    assert_eq!(selection("nginx", "latest"), selection("nginx", "latest"));
    assert_ne!(selection("nginx", "latest"), selection("nginx", ""));
    assert_ne!(selection("nginx", "latest"), selection("alpine", "latest"));
    assert_eq!(selection("nginx", "latest").clone(), selection("nginx", "latest"));
}

#[test]
fn creation_leaves_the_request_out() {
    let catalog = Catalog::create(selection("nginx", "1.0"));
    assert_eq!(catalog.lifecycle(), FetchLifecycle::InFlight);
    assert!(catalog.view_fetching());
    assert!(catalog.repositories().is_none());
    assert!(catalog.view_repositories().is_none());
    assert_eq!(*catalog.props(), selection("nginx", "1.0"));
}

#[test]
fn no_event_sends_the_request_again() {
    let mut catalog = Catalog::create(Props::default());
    assert_eq!(catalog.lifecycle(), FetchLifecycle::InFlight);
    catalog.update(Msg::SetCurrentRepository("nginx".to_string()));
    assert_eq!(catalog.lifecycle(), FetchLifecycle::InFlight);
    catalog.change(selection("alpine", ""));
    assert_eq!(catalog.lifecycle(), FetchLifecycle::InFlight);
    catalog.update(failure("gone"));
    assert_eq!(catalog.lifecycle(), FetchLifecycle::Settled);
    catalog.update(Msg::SetCurrentReference("latest".to_string()));
    catalog.update(Msg::SetCurrentRepository("nginx".to_string()));
    catalog.change(selection("", ""));
    catalog.update(answer(&["alpine"]));
    catalog.update(failure("again"));
    assert_eq!(catalog.lifecycle(), FetchLifecycle::Settled);
    assert!(!catalog.view_fetching());
}

#[test]
fn fetch_success_fills_the_listing() {
    let mut catalog = Catalog::create(Props::default());
    let render = catalog.update(answer(&["alpine", "nginx"]));
    assert!(render);
    assert!(!catalog.view_fetching());
    assert_eq!(catalog.lifecycle(), FetchLifecycle::Settled);
    assert_eq!(
        *catalog.repositories(),
        Some(vec!["alpine".to_string(), "nginx".to_string()])
    );
    let links = catalog.view_repositories().unwrap();
    assert_eq!(links.len(), 2);
    assert_eq!(links[0].name, "alpine");
    assert_eq!(links[1].name, "nginx");
    assert!(matches!(links[0].message(), Msg::SetCurrentRepository(name) if name == "alpine"));
    assert!(matches!(links[1].message(), Msg::SetCurrentRepository(name) if name == "nginx"));
}

#[test]
fn fetch_success_with_no_repositories_shows_an_empty_list() {
    let mut catalog = Catalog::create(Props::default());
    assert!(catalog.update(answer(&[])));
    assert_eq!(*catalog.repositories(), Some(Vec::new()));
    assert_eq!(catalog.view_repositories().unwrap().len(), 0);
}

#[test]
fn fetch_failure_is_dropped() {
    let mut catalog = Catalog::create(selection("nginx", ""));
    let render = catalog.update(failure("connection refused"));
    assert!(!render);
    assert!(!catalog.view_fetching());
    assert_eq!(catalog.lifecycle(), FetchLifecycle::Settled);
    assert!(catalog.repositories().is_none());
    assert!(catalog.view_repositories().is_none());
    assert_eq!(*catalog.props(), selection("nginx", ""));
}

#[test]
fn fetch_failure_keeps_an_earlier_listing() {
    let mut catalog = Catalog::create(Props::default());
    catalog.update(answer(&["alpine", "nginx"]));
    assert!(!catalog.update(failure("late")));
    assert_eq!(
        *catalog.repositories(),
        Some(vec!["alpine".to_string(), "nginx".to_string()])
    );
}

#[test]
fn later_answer_replaces_the_listing() {
    let mut catalog = Catalog::create(Props::default());
    catalog.update(answer(&["alpine", "nginx"]));
    assert!(catalog.update(answer(&["busybox"])));
    assert_eq!(*catalog.repositories(), Some(vec!["busybox".to_string()]));
}

#[test]
fn failure_observer_is_handed_the_cause() {
    let seen: RefCell<Vec<String>> = RefCell::new(Vec::new());
    let mut catalog = Catalog::create(Props::default());
    let render = catalog.update_with(failure("connection refused"), |cause: &ApiError| {
        seen.borrow_mut().push(cause.cause.clone());
    });
    assert!(!render);
    assert!(!catalog.view_fetching());
    assert!(catalog.repositories().is_none());
    assert_eq!(*seen.borrow(), vec!["connection refused".to_string()]);
    let render = catalog.update_with(answer(&["alpine"]), |cause: &ApiError| {
        seen.borrow_mut().push(cause.cause.clone());
    });
    assert!(render);
    let render = catalog
        .update_with(Msg::SetCurrentRepository("alpine".to_string()), |cause: &ApiError| {
            seen.borrow_mut().push(cause.cause.clone());
        });
    assert!(render);
    assert_eq!(seen.borrow().len(), 1);
}

#[test]
fn default_observer_does_nothing() {
    discard_failure(&ApiError { cause: "anything".to_string() });
    let mut with_default = Catalog::create(selection("a", "b"));
    let mut explicit = Catalog::create(selection("a", "b"));
    assert_eq!(
        with_default.update(failure("x")),
        explicit.update_with(failure("x"), discard_failure)
    );
    assert_eq!(format!("{:?}", with_default), format!("{:?}", explicit));
}

#[test]
fn select_repository_then_reference() {
    let mut catalog = Catalog::create(Props::default());
    assert!(catalog.update(Msg::SetCurrentRepository("nginx".to_string())));
    assert!(catalog.update(Msg::SetCurrentReference("latest".to_string())));
    assert_eq!(*catalog.props(), selection("nginx", "latest"));
    assert_eq!(catalog.view_reference_details(), Some(selection("nginx", "latest")));
    assert_eq!(catalog.view_repo(), Some(selection("nginx", "latest")));
}

#[test]
fn selecting_another_repository_forgets_the_reference() {
    let mut catalog = Catalog::create(Props::default());
    catalog.update(Msg::SetCurrentRepository("nginx".to_string()));
    catalog.update(Msg::SetCurrentReference("latest".to_string()));
    assert!(catalog.update(Msg::SetCurrentRepository("alpine".to_string())));
    assert_eq!(*catalog.props(), selection("alpine", ""));
    assert_eq!(catalog.view_reference_details(), None);
    assert_eq!(catalog.view_repo(), Some(selection("alpine", "")));
}

#[test]
fn selecting_the_same_repository_again_forgets_the_reference_too() {
    let mut catalog = Catalog::create(selection("nginx", "latest"));
    assert!(catalog.update(Msg::SetCurrentRepository("nginx".to_string())));
    assert_eq!(*catalog.props(), selection("nginx", ""));
}

#[test]
fn selecting_a_reference_keeps_the_repository() {
    let mut catalog = Catalog::create(selection("nginx", "1.0"));
    assert!(catalog.update(Msg::SetCurrentReference("2.0".to_string())));
    assert_eq!(*catalog.props(), selection("nginx", "2.0"));
    assert!(catalog.update(Msg::SetCurrentReference("2.0".to_string())));
    assert_eq!(*catalog.props(), selection("nginx", "2.0"));
}

#[test]
fn selection_does_not_touch_the_fetch() {
    let mut catalog = Catalog::create(Props::default());
    catalog.update(Msg::SetCurrentRepository("nginx".to_string()));
    catalog.update(Msg::SetCurrentReference("latest".to_string()));
    assert!(catalog.view_fetching());
    assert!(catalog.repositories().is_none());
    catalog.update(answer(&["nginx"]));
    catalog.update(Msg::SetCurrentRepository("alpine".to_string()));
    assert!(!catalog.view_fetching());
    assert_eq!(*catalog.repositories(), Some(vec!["nginx".to_string()]));
    assert_eq!(*catalog.props(), selection("alpine", ""));
}

#[test]
fn outside_selection_equal_to_the_held_one_changes_nothing() {
    let mut catalog = Catalog::create(selection("nginx", "latest"));
    assert!(!catalog.change(selection("nginx", "latest")));
    assert_eq!(*catalog.props(), selection("nginx", "latest"));
    let mut empty = Catalog::create(Props::default());
    assert!(!empty.change(Props::default()));
}

#[test]
fn outside_selection_that_differs_is_taken_over() {
    let mut catalog = Catalog::create(selection("nginx", "latest"));
    assert!(catalog.change(selection("nginx", "stable")));
    assert_eq!(*catalog.props(), selection("nginx", "stable"));
    assert!(catalog.change(selection("alpine", "stable")));
    assert_eq!(*catalog.props(), selection("alpine", "stable"));
    assert!(catalog.change(selection("", "")));
    assert_eq!(*catalog.props(), Props::default());
    assert!(catalog.view_fetching());
}

#[test]
fn outside_selection_is_taken_over_as_it_comes() {
    let mut catalog = Catalog::create(selection("nginx", ""));
    assert!(catalog.change(selection("", "latest")));
    assert_eq!(*catalog.props(), selection("", "latest"));
    assert_eq!(catalog.view_repo(), None);
    assert_eq!(catalog.view_reference_details(), Some(selection("", "latest")));
}

#[test]
fn details_show_for_a_selection_of_their_kind() {
    let nothing = Catalog::create(Props::default());
    assert_eq!(nothing.view_repo(), None);
    assert_eq!(nothing.view_reference_details(), None);
    let repository = Catalog::create(selection("nginx", ""));
    assert_eq!(repository.view_repo(), Some(selection("nginx", "")));
    assert_eq!(repository.view_reference_details(), None);
    let both = Catalog::create(selection("nginx", "latest"));
    assert_eq!(both.view_repo(), Some(selection("nginx", "latest")));
    assert_eq!(both.view_reference_details(), Some(selection("nginx", "latest")));
}

#[test]
fn page_is_made_of_its_parts() {
    let mut catalog = Catalog::create(selection("nginx", ""));
    let page = catalog.view();
    assert!(page.fetching);
    assert!(page.repositories.is_none());
    assert_eq!(page.repository, Some(selection("nginx", "")));
    assert_eq!(page.reference_details, None);

    catalog.update(answer(&["alpine", "nginx"]));
    catalog.update(Msg::SetCurrentReference("latest".to_string()));
    let page = catalog.view();
    assert!(!page.fetching);
    let links = page.repositories.unwrap();
    let names: Vec<&str> = links.iter().map(|link| link.name.as_str()).collect();
    assert_eq!(names, vec!["alpine", "nginx"]);
    assert_eq!(page.repository, Some(selection("nginx", "latest")));
    assert_eq!(page.reference_details, Some(selection("nginx", "latest")));
}

#[test]
fn clicking_a_line_selects_its_repository() {
    let mut catalog = Catalog::create(selection("nginx", "latest"));
    catalog.update(answer(&["alpine", "nginx"]));
    let links = catalog.view_repositories().unwrap();
    assert!(catalog.update(links[0].message()));
    assert_eq!(*catalog.props(), selection("alpine", ""));
    assert!(catalog.update(links[0].message()));
    assert!(catalog.update(links[1].message()));
    assert_eq!(*catalog.props(), selection("nginx", ""));
}
