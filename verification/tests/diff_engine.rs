use nested_routes::children::Children;
use nested_routes::diff::build_nested_route;
use nested_routes::diff::rebuild_nested_route;
use nested_routes::matching::MatchNode;
use nested_routes::matching::Params;
use nested_routes::matching::RouteMatchId;
use nested_routes::outlet::OutletContext;
use reactive_graph::computed::ArcMemo;
use reactive_graph::owner::on_cleanup;
use reactive_graph::owner::Owner;
use reactive_graph::signal::ArcTrigger;
use reactive_graph::traits::GetUntracked;
use reactive_graph::traits::Track;
use std::sync::atomic::AtomicBool;
use std::sync::atomic::AtomicUsize;
use std::sync::atomic::Ordering;
use std::sync::Arc;
use std::sync::Mutex;
use tachys::view::any_view::IntoAny;

type Log = Arc<Mutex<Vec<String>>>;

fn params(pairs: &[(&str, &str)]) -> Params {
    pairs.iter().map(|(k, v)| (k.to_string(), v.to_string())).collect()
}

fn view(log: &Log, name: &str) -> Children {
    let log = Arc::clone(log);
    let name = name.to_string();
    Children::new(move || {
        log.lock().unwrap().push(name);
        ().into_any()
    })
}

fn chain(log: &Log, levels: &[(u16, &str, &[(&str, &str)])]) -> MatchNode {
    let mut node: Option<MatchNode> = None;
    for (id, name, pairs) in levels.iter().rev() {
        let this = MatchNode::leaf(RouteMatchId(*id), params(pairs), view(log, name));
        node = Some(match node {
            None => this,
            Some(child) => this.with_child(child),
        });
    }
    node.unwrap()
}

fn ids(outlets: &[OutletContext]) -> Vec<u16> {
    outlets.iter().map(|o| o.id().0).collect()
}

fn drain(outlets: &mut [OutletContext]) {
    for outlet in outlets.iter_mut() {
        if let Some(view) = outlet.try_receive() {
            let _ = view.construct();
        }
    }
}

fn fires(trigger: ArcTrigger) -> (ArcMemo<usize>, Arc<AtomicUsize>) {
    let runs = Arc::new(AtomicUsize::new(0));
    let memo = ArcMemo::new({
        let runs = Arc::clone(&runs);
        move |_| {
            trigger.track();
            runs.fetch_add(1, Ordering::SeqCst) + 1
        }
    });
    assert_eq!(memo.get_untracked(), 1);
    (memo, runs)
}

fn flag_on_cleanup(owner: &Owner) -> Arc<AtomicBool> {
    let flag = Arc::new(AtomicBool::new(false));
    let seen = Arc::clone(&flag);
    owner.with(move || on_cleanup(move || seen.store(true, Ordering::SeqCst)));
    flag
}

#[test]
fn build_makes_one_fresh_outlet_per_depth() {
    let log = Log::default();
    let outer = Owner::new();
    let mut outlets = Vec::new();
    let node = chain(&log, &[(1, "a", &[]), (2, "b", &[("id", "7")]), (3, "c", &[])]);
    build_nested_route(node, &mut outlets, &outer);

    assert_eq!(ids(&outlets), vec![1, 2, 3]);
    for outlet in &outlets {
        assert!(outlet.has_pending());
        assert!(!outlet.is_claimed());
    }
    assert_eq!(outlets[1].params().get_untracked(), params(&[("id", "7")]));
    assert!(log.lock().unwrap().is_empty());
}

#[test]
fn build_nests_each_scope_under_the_one_above() {
    let log = Log::default();
    let outer = Owner::new();
    let mut outlets = Vec::new();
    build_nested_route(chain(&log, &[(1, "a", &[]), (2, "b", &[])]), &mut outlets, &outer);

    assert!(outlets[0].owner().parent() == Some(outer.clone()));
    assert!(outlets[1].owner().parent() == Some(outlets[0].owner()));
}

#[test]
fn build_appends_to_the_outlets_that_are_there() {
    let log = Log::default();
    let outer = Owner::new();
    let mut outlets = Vec::new();
    build_nested_route(chain(&log, &[(1, "a", &[])]), &mut outlets, &outer);
    let first = outlets[0].owner();
    build_nested_route(chain(&log, &[(2, "b", &[]), (3, "c", &[])]), &mut outlets, &first);

    assert_eq!(ids(&outlets), vec![1, 2, 3]);
    assert!(outlets[0].owner() == first);
}

#[test]
fn the_view_is_constructed_under_the_scope_of_its_outlet() {
    let outer = Owner::new();
    let seen: Arc<Mutex<Option<Owner>>> = Arc::default();
    let view = {
        let seen = Arc::clone(&seen);
        Children::new(move || {
            *seen.lock().unwrap() = Owner::current();
            ().into_any()
        })
    };
    let mut outlets = Vec::new();
    build_nested_route(MatchNode::leaf(RouteMatchId(1), Vec::new(), view), &mut outlets, &outer);
    let scope = outlets[0].owner();
    assert!(scope != outer);

    let waiting = outlets[0].try_receive().unwrap();
    let _ = waiting.construct();
    assert!(seen.lock().unwrap().clone() == Some(scope));
}

#[test]
fn same_ids_update_only_the_params() {
    let log = Log::default();
    let outer = Owner::new();
    let mut outlets = Vec::new();
    build_nested_route(chain(&log, &[(1, "user", &[("id", "1")])]), &mut outlets, &outer);
    drain(&mut outlets);
    let scope = outlets[0].owner();
    let signal = outlets[0].params();
    let disposed = flag_on_cleanup(&scope);
    let (memo, runs) = fires(outlets[0].trigger());
    assert_eq!(signal.get_untracked(), params(&[("id", "1")]));

    let mut cursor = 0;
    rebuild_nested_route(
        chain(&log, &[(1, "user", &[("id", "2")])]),
        &mut cursor,
        &mut outlets,
        &outer,
    );

    assert_eq!(ids(&outlets), vec![1]);
    assert!(outlets[0].owner() == scope);
    assert!(outlets[0].params() == signal);
    assert_eq!(signal.get_untracked(), params(&[("id", "2")]));
    assert!(!outlets[0].has_pending());
    assert!(!disposed.load(Ordering::SeqCst));
    assert_eq!(memo.get_untracked(), 1);
    assert_eq!(runs.load(Ordering::SeqCst), 1);
    assert_eq!(*log.lock().unwrap(), vec!["user".to_string()]);
    assert_eq!(cursor, 0);
}

#[test]
fn a_changed_id_replaces_the_outlet_and_rebuilds_below() {
    let log = Log::default();
    let outer = Owner::new();
    let mut outlets = Vec::new();
    build_nested_route(
        chain(&log, &[(1, "a", &[]), (2, "x", &[]), (3, "x1", &[("n", "1")])]),
        &mut outlets,
        &outer,
    );
    drain(&mut outlets);
    let top = outlets[0].owner();
    let old_child = flag_on_cleanup(&outlets[1].owner());
    let old_grandchild = flag_on_cleanup(&outlets[2].owner());
    let child_signal = outlets[1].params();
    let grandchild_signal = outlets[2].params();
    let (top_memo, _) = fires(outlets[0].trigger());
    let (child_memo, _) = fires(outlets[1].trigger());

    let mut cursor = 0;
    rebuild_nested_route(
        chain(&log, &[(1, "a", &[]), (4, "y", &[]), (5, "y1", &[("n", "1")])]),
        &mut cursor,
        &mut outlets,
        &outer,
    );

    assert_eq!(ids(&outlets), vec![1, 4, 5]);
    assert_eq!(cursor, 1);
    // the parent is untouched
    assert!(outlets[0].owner() == top);
    assert!(!outlets[0].has_pending());
    assert_eq!(top_memo.get_untracked(), 1);
    // the changed depth keeps its outlet, under a new scope, and is woken
    assert!(outlets[1].params() == child_signal);
    assert!(outlets[1].has_pending());
    assert!(outlets[1].owner().parent() == Some(top));
    assert_eq!(child_memo.get_untracked(), 2);
    assert!(old_child.load(Ordering::SeqCst));
    // the depth below is another outlet
    assert!(outlets[2].params() != grandchild_signal);
    assert!(outlets[2].has_pending());
    assert!(!outlets[2].is_claimed());
    assert!(outlets[2].owner().parent() == Some(outlets[1].owner()));
    assert!(old_grandchild.load(Ordering::SeqCst));

    drain(&mut outlets);
    assert_eq!(*log.lock().unwrap(), vec!["a", "x", "x1", "y", "y1"]);
}

#[test]
fn a_shorter_chain_truncates_the_stack() {
    let log = Log::default();
    let outer = Owner::new();
    let mut outlets = Vec::new();
    build_nested_route(
        chain(&log, &[(1, "a", &[]), (2, "b", &[]), (3, "c", &[])]),
        &mut outlets,
        &outer,
    );
    drain(&mut outlets);
    let first = outlets[0].owner();
    let second = outlets[1].owner();
    let removed = flag_on_cleanup(&outlets[2].owner());
    let kept = flag_on_cleanup(&second);

    let mut cursor = 0;
    rebuild_nested_route(
        chain(&log, &[(1, "a", &[]), (2, "b", &[])]),
        &mut cursor,
        &mut outlets,
        &outer,
    );

    assert_eq!(ids(&outlets), vec![1, 2]);
    assert_eq!(cursor, 1);
    assert!(outlets[0].owner() == first);
    assert!(outlets[1].owner() == second);
    assert!(!outlets[1].has_pending());
    assert!(removed.load(Ordering::SeqCst));
    assert!(!kept.load(Ordering::SeqCst));
}

#[test]
fn a_longer_chain_builds_the_missing_depths() {
    let log = Log::default();
    let outer = Owner::new();
    let mut outlets = Vec::new();
    build_nested_route(chain(&log, &[(1, "a", &[])]), &mut outlets, &outer);
    drain(&mut outlets);
    let first = outlets[0].owner();

    let mut cursor = 0;
    rebuild_nested_route(
        chain(&log, &[(1, "a", &[]), (2, "b", &[]), (3, "c", &[])]),
        &mut cursor,
        &mut outlets,
        &outer,
    );

    assert_eq!(ids(&outlets), vec![1, 2, 3]);
    assert_eq!(cursor, 1);
    assert!(outlets[0].owner() == first);
    assert!(!outlets[0].has_pending());
    assert!(outlets[1].has_pending());
    assert!(outlets[2].has_pending());
    assert!(outlets[1].owner().parent() == Some(first));
}

#[test]
fn a_changed_root_replaces_everything_but_the_first_outlet() {
    let log = Log::default();
    let outer = Owner::new();
    let mut outlets = Vec::new();
    build_nested_route(chain(&log, &[(1, "a", &[]), (2, "b", &[])]), &mut outlets, &outer);
    drain(&mut outlets);
    outlets[0].claim().unwrap();
    let signal = outlets[0].params();
    let old_scope = outlets[0].owner();

    let mut cursor = 0;
    rebuild_nested_route(chain(&log, &[(9, "z", &[("k", "v")])]), &mut cursor, &mut outlets, &outer);

    assert_eq!(ids(&outlets), vec![9]);
    assert_eq!(cursor, 0);
    assert!(outlets[0].is_claimed());
    assert!(outlets[0].params() == signal);
    assert_eq!(signal.get_untracked(), params(&[("k", "v")]));
    assert!(outlets[0].owner() != old_scope);
    assert!(outlets[0].owner().parent() == Some(outer));
    assert!(outlets[0].has_pending());
}

#[test]
fn a_rebuild_of_an_empty_stack_is_a_build() {
    let log = Log::default();
    let outer = Owner::new();
    let mut outlets = Vec::new();
    let mut cursor = 0;
    rebuild_nested_route(
        chain(&log, &[(1, "a", &[]), (2, "b", &[])]),
        &mut cursor,
        &mut outlets,
        &outer,
    );

    assert_eq!(ids(&outlets), vec![1, 2]);
    assert_eq!(cursor, 0);
    assert!(outlets.iter().all(|o| o.has_pending() && !o.is_claimed()));
}

#[test]
fn a_cursor_beyond_the_stack_builds_at_its_end() {
    let log = Log::default();
    let outer = Owner::new();
    let mut outlets = Vec::new();
    build_nested_route(chain(&log, &[(1, "a", &[])]), &mut outlets, &outer);
    let mut cursor = 5;
    rebuild_nested_route(chain(&log, &[(2, "b", &[])]), &mut cursor, &mut outlets, &outer);

    assert_eq!(ids(&outlets), vec![1, 2]);
    assert_eq!(cursor, 5);
}

#[test]
fn a_view_sent_twice_before_it_is_taken_leaves_the_latest() {
    let log = Log::default();
    let outer = Owner::new();
    let mut outlets = Vec::new();
    build_nested_route(chain(&log, &[(1, "first", &[])]), &mut outlets, &outer);
    let mut cursor = 0;
    rebuild_nested_route(chain(&log, &[(2, "second", &[])]), &mut cursor, &mut outlets, &outer);

    drain(&mut outlets);
    assert_eq!(*log.lock().unwrap(), vec!["second".to_string()]);
}
