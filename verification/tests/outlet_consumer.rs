use nested_routes::children::Children;
use nested_routes::diff::build_nested_route;
use nested_routes::diff::rebuild_nested_route;
use nested_routes::matching::MatchNode;
use nested_routes::matching::RouteMatchId;
use nested_routes::outlet::mount_outlet;
use nested_routes::outlet::Outlet;
use nested_routes::outlet::OutletContext;
use nested_routes::outlet::OutletError;
use reactive_graph::computed::ArcMemo;
use reactive_graph::owner::Owner;
use reactive_graph::signal::ArcRwSignal;
use reactive_graph::traits::GetUntracked;
use std::sync::atomic::AtomicUsize;
use std::sync::atomic::Ordering;
use std::sync::Arc;
use std::sync::Mutex;
use tachys::view::any_view::IntoAny;
use tachys::view::RenderHtml;

fn text_view(text: &'static str, runs: &Arc<AtomicUsize>) -> Children {
    let runs = Arc::clone(runs);
    Children::new(move || {
        runs.fetch_add(1, Ordering::SeqCst);
        text.into_any()
    })
}

fn two_deep(runs: &Arc<AtomicUsize>) -> MatchNode {
    MatchNode::leaf(RouteMatchId(1), Vec::new(), text_view("parent", runs))
        .with_child(MatchNode::leaf(RouteMatchId(2), Vec::new(), text_view("child", runs)))
}

fn built(runs: &Arc<AtomicUsize>, outer: &Owner) -> Vec<OutletContext> {
    let mut outlets = Vec::new();
    build_nested_route(two_deep(runs), &mut outlets, outer);
    outlets
}

#[test]
fn a_new_outlet_has_an_empty_slot_and_no_consumer() {
    let parent = Owner::new();
    let params = vec![("a".to_string(), "b".to_string())];
    let outlet = OutletContext::new(RouteMatchId(3), params.clone(), &parent);
    assert_eq!(outlet.id(), RouteMatchId(3));
    assert!(outlet.owner() != parent);
    assert!(outlet.owner().parent() == Some(parent));
    assert_eq!(outlet.params().get_untracked(), params);
    assert!(!outlet.has_pending());
    assert!(!outlet.is_claimed());
    let handle = outlet.handle(4);
    assert_eq!(handle.depth, 4);
    assert!(handle.params == outlet.params());
    assert!(handle.clone().params == outlet.params());
    assert_eq!(handle.clone().depth, 4);
}

#[test]
fn set_route_hands_back_the_scope_that_was_there() {
    let first = Owner::new();
    let second = Owner::new();
    let mut outlet = OutletContext::new(RouteMatchId(1), Vec::new(), &first);
    let before = outlet.owner();
    let previous = outlet.set_route(RouteMatchId(2), &second);
    assert!(previous == before);
    assert!(outlet.owner() != before);
    assert!(outlet.owner().parent() == Some(second));
    assert_eq!(outlet.id(), RouteMatchId(2));
}

#[test]
fn update_params_replaces_what_the_signal_holds() {
    let mut outlet = OutletContext::new(
        RouteMatchId(1),
        vec![("id".to_string(), "1".to_string())],
        &Owner::new(),
    );
    let signal = outlet.params();
    outlet.update_params(vec![("id".to_string(), "2".to_string())]);
    assert_eq!(signal.get_untracked(), vec![("id".to_string(), "2".to_string())]);
    assert!(outlet.params() == signal);
}

#[test]
fn mounting_without_a_context_fails() {
    let runs = Arc::default();
    let mut outlets = built(&runs, &Owner::new());
    let r = mount_outlet(None, &mut outlets);
    assert_eq!(r.err(), Some(OutletError::NoContext));
    assert!(outlets.iter().all(|o| !o.is_claimed()));
    assert_eq!(
        OutletError::NoContext.message(),
        "<Outlet/> used without OutletContext being provided."
    );
}

#[test]
fn mounting_on_a_depth_that_is_gone_fails() {
    let runs = Arc::default();
    let mut outlets = built(&runs, &Owner::new());
    let handle = outlets[1].handle(2);
    let r = mount_outlet(Some(handle), &mut outlets);
    assert_eq!(r.err(), Some(OutletError::NoContext));
}

#[test]
fn mounting_claims_the_outlet_of_the_handle() {
    let runs = Arc::default();
    let mut outlets = built(&runs, &Owner::new());
    let handle = outlets[1].handle(1);
    let outlet = mount_outlet(Some(handle), &mut outlets).unwrap();
    assert_eq!(outlet.depth(), 1);
    assert!(!outlets[0].is_claimed());
    assert!(outlets[1].is_claimed());
    assert!(outlets[1].has_pending());
}

#[test]
fn mounting_twice_on_one_outlet_fails_the_second_time() {
    let runs = Arc::default();
    let mut outlets = built(&runs, &Owner::new());
    let first = mount_outlet(Some(outlets[0].handle(0)), &mut outlets);
    assert!(first.is_ok());
    let second = mount_outlet(Some(outlets[0].handle(0)), &mut outlets);
    assert_eq!(second.err(), Some(OutletError::ReceiverTaken));
    assert!(outlets[0].is_claimed());
    assert_eq!(
        OutletError::ReceiverTaken.message(),
        "Tried to render <Outlet/> but could not find the view receiver. Are you using the same <Outlet/> twice?"
    );
}

#[test]
fn claim_succeeds_once() {
    let runs = Arc::default();
    let mut outlets = built(&runs, &Owner::new());
    assert_eq!(outlets[0].claim(), Ok(()));
    assert_eq!(outlets[0].claim(), Err(OutletError::ReceiverTaken));
    assert!(outlets[0].is_claimed());
}

#[test]
fn the_ambient_lookup_finds_the_outlet_below_the_current_scope() {
    let runs = Arc::default();
    let outer = Owner::new();
    let mut outlets = built(&runs, &outer);

    let root = outer.with(|| Outlet(&mut outlets)).unwrap();
    assert_eq!(root.depth(), 0);

    let scope = outlets[0].owner();
    let nested = scope.with(|| Outlet(&mut outlets)).unwrap();
    assert_eq!(nested.depth(), 1);

    // below the last depth the nearest outlet is the last one, which is taken
    let scope = outlets[1].owner();
    let again = scope.with(|| Outlet(&mut outlets));
    assert_eq!(again.err(), Some(OutletError::ReceiverTaken));
}

#[test]
fn the_ambient_lookup_fails_outside_any_route() {
    let runs = Arc::default();
    let mut outlets = built(&runs, &Owner::new());
    let elsewhere = Owner::new();
    let r = elsewhere.with(|| Outlet(&mut outlets));
    assert_eq!(r.err(), Some(OutletError::NoContext));
}

#[test]
fn a_view_is_constructed_once_however_often_the_consumer_polls() {
    let runs = Arc::new(AtomicUsize::new(0));
    let mut outlets = built(&runs, &Owner::new());
    let outlet = mount_outlet(Some(outlets[1].handle(1)), &mut outlets).unwrap();

    let first = outlet.poll(&mut outlets);
    assert!(first.is_some());
    assert_eq!(runs.load(Ordering::SeqCst), 0);
    let html = first.unwrap().construct().to_html();
    assert!(html.contains("child"), "{html}");
    assert_eq!(runs.load(Ordering::SeqCst), 1);

    assert!(outlet.poll(&mut outlets).is_none());
    assert!(outlet.poll(&mut outlets).is_none());
    assert_eq!(runs.load(Ordering::SeqCst), 1);
    assert!(outlets[0].has_pending());
}

#[test]
fn render_takes_the_view_that_waits() {
    let runs = Arc::new(AtomicUsize::new(0));
    let mut outlets = built(&runs, &Owner::new());
    let outlet = mount_outlet(Some(outlets[0].handle(0)), &mut outlets).unwrap();
    let view = outlet.render(&mut outlets).ok().unwrap();
    assert!(!outlets[0].has_pending());
    let html = view.construct().to_html();
    assert!(html.contains("parent"), "{html}");
}

#[test]
fn render_with_nothing_waiting_is_an_error() {
    let runs = Arc::default();
    let mut outlets = built(&runs, &Owner::new());
    let outlet = mount_outlet(Some(outlets[0].handle(0)), &mut outlets).unwrap();
    assert!(outlet.render(&mut outlets).is_ok());
    let again = outlet.render(&mut outlets);
    assert_eq!(again.err(), Some(OutletError::NothingPending));
    assert_eq!(
        OutletError::NothingPending.message(),
        "<Outlet/> was woken but no view had been sent to it."
    );
}

#[test]
fn render_for_an_outlet_that_is_gone_is_an_error() {
    let runs = Arc::default();
    let outer = Owner::new();
    let mut outlets = built(&runs, &outer);
    let outlet = mount_outlet(Some(outlets[1].handle(1)), &mut outlets).unwrap();
    let mut cursor = 0;
    rebuild_nested_route(
        MatchNode::leaf(RouteMatchId(1), Vec::new(), text_view("parent", &runs)),
        &mut cursor,
        &mut outlets,
        &outer,
    );
    assert_eq!(outlets.len(), 1);
    assert_eq!(outlet.render(&mut outlets).err(), Some(OutletError::NoContext));
    assert!(outlet.poll(&mut outlets).is_none());
}

#[test]
fn a_replaced_route_wakes_the_consumer_that_polled() {
    let runs = Arc::new(AtomicUsize::new(0));
    let outer = Owner::new();
    let stack = Arc::new(Mutex::new(built(&runs, &outer)));
    let handle = stack.lock().unwrap()[0].handle(0);
    let outlet = mount_outlet(Some(handle), &mut stack.lock().unwrap()).unwrap();

    let rendered: Arc<Mutex<Vec<String>>> = Arc::default();
    let memo = ArcMemo::new({
        let stack = Arc::clone(&stack);
        let rendered = Arc::clone(&rendered);
        move |_| {
            let taken = outlet.poll(&mut stack.lock().unwrap());
            if let Some(view) = taken {
                rendered.lock().unwrap().push(view.construct().to_html());
            }
            rendered.lock().unwrap().len()
        }
    });
    assert_eq!(memo.get_untracked(), 1);
    assert_eq!(memo.get_untracked(), 1);

    let mut cursor = 0;
    rebuild_nested_route(
        MatchNode::leaf(RouteMatchId(7), Vec::new(), text_view("other", &runs)),
        &mut cursor,
        &mut stack.lock().unwrap(),
        &outer,
    );
    assert_eq!(memo.get_untracked(), 2);
    let rendered = rendered.lock().unwrap();
    assert!(rendered[0].contains("parent"));
    assert!(rendered[1].contains("other"));
}

#[test]
fn wake_notifies_whoever_tracks_the_trigger() {
    let mut outlet = OutletContext::new(RouteMatchId(1), Vec::new(), &Owner::new());
    let trigger = outlet.trigger();
    let runs = Arc::new(AtomicUsize::new(0));
    let memo = ArcMemo::new({
        let runs = Arc::clone(&runs);
        move |_| {
            reactive_graph::traits::Track::track(&trigger);
            runs.fetch_add(1, Ordering::SeqCst) + 1
        }
    });
    assert_eq!(memo.get_untracked(), 1);
    assert_eq!(memo.get_untracked(), 1);
    outlet.wake();
    assert_eq!(memo.get_untracked(), 2);
}

#[test]
fn an_outlet_knows_its_own_params_signal() {
    let runs = Arc::default();
    let outlets = built(&runs, &Owner::new());
    assert!(outlets[0].has_params(&outlets[0].params()));
    assert!(!outlets[0].has_params(&outlets[1].params()));
    assert!(!outlets[0].has_params(&ArcRwSignal::new(Vec::new())));
}

#[test]
fn a_handle_of_a_discarded_outlet_finds_nothing() {
    let runs = Arc::default();
    let outer = Owner::new();
    let mut outlets = built(&runs, &outer);
    let stale = outlets[1].handle(1);

    // the parent changes, so the outlet below it is discarded and built anew
    let mut cursor = 0;
    rebuild_nested_route(
        MatchNode::leaf(RouteMatchId(8), Vec::new(), text_view("other", &runs))
            .with_child(MatchNode::leaf(RouteMatchId(2), Vec::new(), text_view("child", &runs))),
        &mut cursor,
        &mut outlets,
        &outer,
    );
    assert_eq!(outlets.len(), 2);
    assert_eq!(mount_outlet(Some(stale), &mut outlets).err(), Some(OutletError::NoContext));
    assert!(!outlets[1].is_claimed());

    let fresh = outlets[1].handle(1);
    assert!(mount_outlet(Some(fresh), &mut outlets).is_ok());
}

#[test]
fn a_consumer_of_a_discarded_outlet_takes_nothing_from_its_successor() {
    let runs = Arc::default();
    let outer = Owner::new();
    let mut outlets = built(&runs, &outer);
    let old = mount_outlet(Some(outlets[1].handle(1)), &mut outlets).unwrap();
    assert!(old.stands_in(&outlets));

    let mut cursor = 0;
    rebuild_nested_route(
        MatchNode::leaf(RouteMatchId(8), Vec::new(), text_view("other", &runs))
            .with_child(MatchNode::leaf(RouteMatchId(2), Vec::new(), text_view("child", &runs))),
        &mut cursor,
        &mut outlets,
        &outer,
    );

    assert!(!old.stands_in(&outlets));
    assert!(old.poll(&mut outlets).is_none());
    assert_eq!(old.render(&mut outlets).err(), Some(OutletError::NoContext));
    assert!(outlets[1].has_pending());
}

#[test]
fn a_consumer_stays_with_its_outlet_when_the_route_there_changes() {
    let runs = Arc::default();
    let outer = Owner::new();
    let mut outlets = built(&runs, &outer);
    let consumer = mount_outlet(Some(outlets[1].handle(1)), &mut outlets).unwrap();
    assert!(consumer.render(&mut outlets).is_ok());

    let mut cursor = 0;
    rebuild_nested_route(
        MatchNode::leaf(RouteMatchId(1), Vec::new(), text_view("parent", &runs))
            .with_child(MatchNode::leaf(RouteMatchId(5), Vec::new(), text_view("sibling", &runs))),
        &mut cursor,
        &mut outlets,
        &outer,
    );

    assert!(consumer.stands_in(&outlets));
    let html = consumer.render(&mut outlets).ok().unwrap().construct().to_html();
    assert!(html.contains("sibling"), "{html}");
}
