use todo_sync::config::Config;
use todo_sync::errors::TodoAppError;
use todo_sync::handle::next_init_step;
use todo_sync::handle::HandleProvider;
use todo_sync::handle::InitStep;
use todo_sync::store::Store;
use todo_sync::sync::Command;
use todo_sync::sync::TodosCore;
use todo_sync::view::Row;

fn run_fetch(core: &mut TodosCore, store: &Store) {
    core.finish_fetch(store.list());
}

#[test]
fn versions_move_once_per_settlement_not_per_dispatch() {
    let mut core = TodosCore::new();
    let c1 = core.dispatch_add("one".to_string());
    let c2 = core.dispatch_add("two".to_string());
    // dispatching never moves a version
    assert_eq!(core.add.version, 0);
    let t1 = match c1 {
        Command::RunCreate { token, .. } => token,
        _ => panic!("expected a create command"),
    };
    let t2 = match c2 {
        Command::RunCreate { token, .. } => token,
        _ => panic!("expected a create command"),
    };
    core.settle_add(t2);
    assert_eq!(core.add.version, 1);
    core.settle_add(t1);
    assert_eq!(core.add.version, 2);
    core.dispatch_delete(0);
    assert_eq!(core.delete.version, 0);
    core.settle_delete();
    assert_eq!(core.delete.version, 1);
}

#[test]
fn pending_overlay_shows_the_title_until_settlement() {
    let mut core = TodosCore::new();
    let cmd = core.dispatch_add("Buy milk".to_string());
    let token = match cmd {
        Command::RunCreate { token, .. } => token,
        _ => panic!("expected a create command"),
    };
    let vm = core.view();
    assert_eq!(vm.rows.len(), 1);
    match &vm.rows[0] {
        Row::Pending { title } => assert_eq!(title, "Buy milk"),
        _ => panic!("expected a pending row"),
    }
    core.settle_add(token);
    // settled, success or failure alike: the overlay entry is gone
    let vm = core.view();
    assert_eq!(vm.rows.len(), 0);
}

#[test]
fn settlements_coalesce_into_one_refetch() {
    let mut core = TodosCore::new();
    assert!(core.sync());
    core.finish_fetch(Ok(Vec::new()));
    let c1 = core.dispatch_add("one".to_string());
    let c2 = core.dispatch_add("two".to_string());
    let t1 = match c1 {
        Command::RunCreate { token, .. } => token,
        _ => panic!("expected a create command"),
    };
    let t2 = match c2 {
        Command::RunCreate { token, .. } => token,
        _ => panic!("expected a create command"),
    };
    core.settle_add(t1);
    core.settle_add(t2);
    // both settlements fall into one stale window: a single re-fetch
    assert!(core.sync());
    core.finish_fetch(Ok(Vec::new()));
    // nothing moved since: no fetch is asked for
    assert!(!core.sync());
}

#[test]
fn previous_list_stays_visible_while_refetching() {
    let mut store = Store::new();
    let mut core = TodosCore::new();
    store.create("keep me".to_string()).unwrap();
    assert!(core.sync());
    run_fetch(&mut core, &store);
    let cmd = core.dispatch_delete(0);
    assert!(matches!(cmd, Command::RunDelete { id: 0 }));
    core.settle_delete();
    // stale again, fetch still in flight: the old row is still shown
    assert!(core.sync());
    let vm = core.view();
    assert_eq!(vm.rows.len(), 1);
    match &vm.rows[0] {
        Row::Confirmed { title, .. } => assert_eq!(title, "keep me"),
        _ => panic!("expected a confirmed row"),
    }
}

#[test]
fn fetch_error_supersedes_rows_but_not_overlay() {
    let mut core = TodosCore::new();
    core.dispatch_add("still pending".to_string());
    assert!(core.sync());
    core.finish_fetch(Err(TodoAppError::OperationFailed("query failed".to_string())));
    let vm = core.view();
    assert!(matches!(
        vm.error,
        Some(TodoAppError::OperationFailed(detail)) if detail == "query failed"
    ));
    // the optimistic entry is still shown below the error
    assert_eq!(vm.rows.len(), 1);
    match &vm.rows[0] {
        Row::Pending { title } => assert_eq!(title, "still pending"),
        _ => panic!("expected a pending row"),
    }
}

#[test]
fn a_failed_fetch_recovers_on_the_next_change() {
    let mut store = Store::new();
    let mut core = TodosCore::new();
    assert!(core.sync());
    core.finish_fetch(Err(TodoAppError::BackendUnavailable("couldn't connect".to_string())));
    assert!(core.view().error.is_some());
    // a settled mutation triggers a fresh attempt, which succeeds
    store.create("back again".to_string()).unwrap();
    let cmd = core.dispatch_add("back again".to_string());
    let token = match cmd {
        Command::RunCreate { token, .. } => token,
        _ => panic!("expected a create command"),
    };
    core.settle_add(token);
    assert!(core.sync());
    run_fetch(&mut core, &store);
    let vm = core.view();
    assert!(vm.error.is_none());
    assert_eq!(vm.rows.len(), 1);
}

#[test]
fn failed_init_surfaces_as_backend_unavailable_on_list() {
    let config = Config::networked(Some("198.51.100.1".to_string()), None, None, None, None, None);
    let mut provider: HandleProvider<u64> = HandleProvider::new();
    let mut core = TodosCore::new();
    assert!(core.sync());
    // the connection attempt failed, so initialization yields its cause
    let err = next_init_step(&config, InitStep::Connect, false).unwrap_err();
    let refused = provider.record(Err(err)).unwrap_err();
    core.finish_fetch(Err(refused));
    let vm = core.view();
    assert!(matches!(
        vm.error,
        Some(TodoAppError::BackendUnavailable(cause)) if cause == "couldn't connect"
    ));
    // nothing was cached: the next use retries initialization from scratch
    assert!(provider.cached().is_none());
    assert!(provider.record(Ok(4)).is_ok());
    assert_eq!(provider.cached(), Some(&4));
}

#[test]
fn scenario_add_buy_milk() {
    let mut store = Store::new();
    let mut core = TodosCore::new();
    assert!(core.sync());
    run_fetch(&mut core, &store);
    assert_eq!(core.view().rows.len(), 0);
    let cmd = core.dispatch_add("Buy milk".to_string());
    let (token, title) = match cmd {
        Command::RunCreate { token, title } => (token, title),
        _ => panic!("expected a create command"),
    };
    // before settlement: one pending row, zero confirmed rows
    let vm = core.view();
    assert_eq!(vm.rows.len(), 1);
    assert!(matches!(&vm.rows[0], Row::Pending { title } if title == "Buy milk"));
    assert!(vm.error.is_none());
    // the driver runs the create (the deliberate delay is elided here)
    store.create(title).unwrap();
    core.settle_add(token);
    assert!(core.sync());
    run_fetch(&mut core, &store);
    // after settlement: one confirmed item, the pending row is gone
    let listed = store.list().unwrap();
    assert_eq!(listed.len(), 1);
    assert_eq!(listed[0].title, "Buy milk");
    assert!(!listed[0].completed);
    assert!(listed[0].id.is_some());
    let vm = core.view();
    assert_eq!(vm.rows.len(), 1);
    assert!(matches!(&vm.rows[0], Row::Confirmed { title, .. } if title == "Buy milk"));
}

#[test]
fn scenario_delete_a_keeps_b() {
    let mut store = Store::new();
    let mut core = TodosCore::new();
    store.create("A".to_string()).unwrap();
    store.create("B".to_string()).unwrap();
    assert!(core.sync());
    run_fetch(&mut core, &store);
    assert_eq!(core.view().rows.len(), 2);
    let a_id = store.list().unwrap()[0].id.unwrap();
    let cmd = core.dispatch_delete(a_id);
    let id = match cmd {
        Command::RunDelete { id } => id,
        _ => panic!("expected a delete command"),
    };
    store.delete(id).unwrap();
    core.settle_delete();
    assert!(core.sync());
    run_fetch(&mut core, &store);
    let vm = core.view();
    assert_eq!(vm.rows.len(), 1);
    assert!(matches!(&vm.rows[0], Row::Confirmed { title, .. } if title == "B"));
    let listed = store.list().unwrap();
    assert_eq!(listed.len(), 1);
    assert_eq!(listed[0].title, "B");
}
