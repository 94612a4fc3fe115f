use paceman::tabcontrol::{tab_tick, TabStore};

fn panes() -> Vec<String> {
    vec![
        "Params".to_string(),
        "Headers".to_string(),
        "Body".to_string(),
    ]
}

#[test]
fn default_is_first_pane_and_is_persisted() {
    let mut store = TabStore::new();
    let render = tab_tick(&mut store, 7, &panes(), None);
    assert_eq!(render, Some(0));
    assert_eq!(store.get(7), Some(&"Params".to_string()));
}

#[test]
fn persisted_selection_survives_repeated_ticks() {
    let mut store = TabStore::new();
    store.set(7, "Headers".to_string());
    let first = tab_tick(&mut store, 7, &panes(), None);
    assert_eq!(first, Some(1));
    assert_eq!(store.get(7), Some(&"Headers".to_string()));
    let second = tab_tick(&mut store, 7, &panes(), None);
    assert_eq!(second, Some(1));
    assert_eq!(store.get(7), Some(&"Headers".to_string()));
}

#[test]
fn empty_pane_list_is_a_no_op() {
    let mut store = TabStore::new();
    let render = tab_tick(&mut store, 7, &Vec::new(), None);
    assert_eq!(render, None);
    assert_eq!(store.get(7), None);
}

#[test]
fn click_selects_and_persists_that_pane() {
    let mut store = TabStore::new();
    store.set(7, "Params".to_string());
    let render = tab_tick(&mut store, 7, &panes(), Some(2));
    assert_eq!(render, Some(2));
    assert_eq!(store.get(7), Some(&"Body".to_string()));
}

#[test]
fn unmatched_selection_renders_nothing_but_stays() {
    let mut store = TabStore::new();
    store.set(7, "Authorization".to_string());
    let render = tab_tick(&mut store, 7, &panes(), None);
    assert_eq!(render, None);
    assert_eq!(store.get(7), Some(&"Authorization".to_string()));
}

#[test]
fn identities_are_independent() {
    let mut store = TabStore::new();
    store.set(1, "Headers".to_string());
    tab_tick(&mut store, 2, &panes(), None);
    assert_eq!(store.get(1), Some(&"Headers".to_string()));
    assert_eq!(store.get(2), Some(&"Params".to_string()));
}

#[test]
fn changed_pane_list_changes_the_default() {
    let mut store = TabStore::new();
    let shorter = vec!["Body".to_string()];
    let render = tab_tick(&mut store, 9, &shorter, None);
    assert_eq!(render, Some(0));
    assert_eq!(store.get(9), Some(&"Body".to_string()));
}
