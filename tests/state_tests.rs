use todo_lists::collection::{Collection, CollectionMessage, Filter};
use todo_lists::nav::{NavEntry, NavHandle, NavModel};
use todo_lists::state::{App, AppData, Message};

fn app_with(names: &[&str], current: usize) -> App {
    let collections = names.iter().map(|n| Collection::new(n.to_string())).collect();
    App::init(AppData::restore(collections, current))
}

fn create(app: &mut App, name: &str) {
    app.update(Message::DialogInputChanged(name.to_string()));
    app.update(Message::NewCollection);
}

#[test]
fn create_then_add_task_scenario() {
    let mut app = App::init(AppData::default());
    assert_eq!(app.data.collections.len(), 0);
    assert_eq!(app.data.current_index, 0);
    create(&mut app, "Work");
    assert_eq!(app.data.collections.len(), 1);
    assert_eq!(app.data.collections[0].name, "Work");
    assert!(app.data.collections[0].tasks.is_empty());
    assert_eq!(app.data.collections[0].filter, Filter::All);
    app.update(Message::CollectionMessage(
        0,
        CollectionMessage::AddTaskInputChanged("Ship report".to_string()),
    ));
    app.update(Message::CollectionMessage(0, CollectionMessage::AddTask));
    let tasks = &app.data.collections[0].tasks;
    assert_eq!(tasks.len(), 1);
    assert_eq!(tasks[0].name, "Ship report");
    assert!(!tasks[0].completed);
}

#[test]
fn create_collection_with_name_adds_one() {
    let mut app = app_with(&["A"], 0);
    app.create_collection("B".to_string());
    assert_eq!(app.data.collections.len(), 2);
    assert_eq!(app.data.collections[1].name, "B");
    assert_eq!(app.data.current_index, 0);
    assert_eq!(app.nav_model.len(), 3);
}

#[test]
fn create_collection_with_empty_name_is_noop() {
    let mut app = app_with(&["A"], 0);
    let generation = app.nav_model.generation;
    app.create_collection(String::new());
    assert_eq!(app.data.collections.len(), 1);
    assert_eq!(app.nav_model.generation, generation);
}

#[test]
fn new_collection_with_empty_dialog_input_keeps_dialog_open() {
    let mut app = app_with(&[], 0);
    app.update(Message::ShowDialog);
    app.update(Message::NewCollection);
    assert!(app.show_dialog);
    assert_eq!(app.data.collections.len(), 0);
}

#[test]
fn new_collection_closes_dialog_and_clears_input() {
    let mut app = app_with(&[], 0);
    app.update(Message::ShowDialog);
    create(&mut app, "Home chores");
    assert!(!app.show_dialog);
    assert_eq!(app.dialog_input, "");
    assert_eq!(app.data.collections[0].name, "Home chores");
}

#[test]
fn hide_dialog_cancels_without_mutation() {
    let mut app = app_with(&["A"], 0);
    app.update(Message::ShowDialog);
    app.update(Message::DialogInputChanged("B".to_string()));
    app.update(Message::HideDialog);
    assert!(!app.show_dialog);
    assert_eq!(app.data.collections.len(), 1);
}

#[test]
fn remove_first_of_two_clamps_current_index() {
    let mut app = app_with(&["A", "B"], 1);
    assert_eq!(app.data.current_index, 1);
    let h = app.nav_model.collection_handle(0);
    app.update(Message::RemoveCollection(h));
    assert_eq!(app.data.collections.len(), 1);
    assert_eq!(app.data.current_index, 0);
    assert_eq!(app.data.collections[0].name, "B");
    assert_eq!(app.nav_model.len(), 2);
}

#[test]
fn remove_last_collection_resets_index() {
    let mut app = app_with(&["A"], 0);
    let h = app.nav_model.collection_handle(0);
    app.remove_collection(h);
    assert_eq!(app.data.collections.len(), 0);
    assert_eq!(app.data.current_index, 0);
    assert!(app.get_current_collection().is_none());
}

#[test]
fn remove_after_current_keeps_index() {
    let mut app = app_with(&["A", "B", "C"], 0);
    let h = app.nav_model.collection_handle(2);
    app.remove_collection(h);
    assert_eq!(app.data.current_index, 0);
    assert_eq!(app.data.collections.len(), 2);
}

#[test]
fn remove_with_create_entry_or_stale_handle_is_noop() {
    let mut app = app_with(&["A", "B"], 1);
    let create_entry = app.nav_model.create_handle();
    app.remove_collection(create_entry);
    assert_eq!(app.data.collections.len(), 2);
    let stale = app.nav_model.collection_handle(0);
    app.create_collection("C".to_string());
    app.remove_collection(stale);
    assert_eq!(app.data.collections.len(), 3);
}

#[test]
fn select_collection_sets_current_index() {
    let mut app = app_with(&["A", "B"], 0);
    let h = app.nav_model.collection_handle(1);
    app.update(Message::SelectCollection(h));
    assert_eq!(app.data.current_index, 1);
    assert!(!app.show_dialog);
    assert_eq!(app.title(), "Todo - B");
}

#[test]
fn select_create_entry_opens_dialog() {
    let mut app = app_with(&["A", "B"], 1);
    let h = app.nav_model.create_handle();
    app.on_nav_select(h);
    assert!(app.show_dialog);
    assert_eq!(app.data.current_index, 1);
}

#[test]
fn title_without_collections_is_home() {
    let app = app_with(&[], 0);
    assert_eq!(app.title(), "Todo - Home");
}

#[test]
fn dispatch_out_of_range_is_ignored() {
    let mut app = app_with(&["A"], 0);
    app.dispatch_to_collection(3, CollectionMessage::FilterChanged(Filter::Active));
    assert_eq!(app.data.collections[0].filter, Filter::All);
    app.dispatch_to_collection(0, CollectionMessage::FilterChanged(Filter::Active));
    assert_eq!(app.data.collections[0].filter, Filter::Active);
}

#[test]
fn restore_clamps_current_index() {
    let data = AppData::restore(vec![Collection::new("A".to_string())], 9);
    assert_eq!(data.current_index, 0);
    let data = AppData::restore(Vec::new(), 4);
    assert_eq!(data.current_index, 0);
    let data = AppData::restore(
        vec![Collection::new("A".to_string()), Collection::new("B".to_string())],
        1,
    );
    assert_eq!(data.current_index, 1);
}

#[test]
fn nav_model_lists_create_entry_first() {
    let m = NavModel::build(2, 7);
    assert_eq!(m.len(), 3);
    assert_eq!(m.entry(NavHandle { generation: 7, slot: 0 }), Some(NavEntry::CreateNew));
    assert_eq!(m.data(NavHandle { generation: 7, slot: 1 }), Some(0));
    assert_eq!(m.data(NavHandle { generation: 7, slot: 2 }), Some(1));
    assert_eq!(m.data(NavHandle { generation: 7, slot: 3 }), None);
    assert_eq!(m.data(NavHandle { generation: 6, slot: 1 }), None);
}

#[test]
fn rebuilt_nav_model_has_new_generation() {
    let m = NavModel::build(1, u64::MAX);
    let r = m.rebuilt(2);
    assert_eq!(r.generation, 0);
    assert_eq!(r.len(), 3);
    assert_eq!(r.data(m.collection_handle(0)), None);
}

#[test]
fn can_create_only_with_name() {
    let mut app = app_with(&[], 0);
    assert!(!app.can_create());
    app.update(Message::DialogInputChanged("X".to_string()));
    assert!(app.can_create());
}
