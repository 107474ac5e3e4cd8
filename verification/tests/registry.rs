use echo_guest::handlers::initialize;
use echo_guest::registry::DispatchTable;
use echo_guest::registry::HandlerKind;

#[test]
fn a_new_table_is_empty() {
    let table = DispatchTable::new();
    assert_eq!(table.len(), 0);
    assert!(!table.contains("echo"));
    assert_eq!(table.lookup("echo"), None);
}

#[test]
fn initialize_registers_exactly_the_two_handlers() {
    let mut table = DispatchTable::new();
    initialize(&mut table);
    assert_eq!(table.len(), 2);
    assert_eq!(table.lookup("echo"), Some(HandlerKind::Echo));
    assert_eq!(table.lookup("nope"), Some(HandlerKind::Nope));
    assert_eq!(table.lookup("other"), None);
}

#[test]
fn initialize_twice_keeps_the_same_two_entries() {
    let mut table = DispatchTable::new();
    initialize(&mut table);
    initialize(&mut table);
    assert_eq!(table.len(), 2);
    assert_eq!(table.lookup("echo"), Some(HandlerKind::Echo));
    assert_eq!(table.lookup("nope"), Some(HandlerKind::Nope));
}

#[test]
fn register_overwrites_an_existing_name() {
    let mut table = DispatchTable::new();
    table.register("echo", HandlerKind::Echo);
    table.register("echo", HandlerKind::Nope);
    assert_eq!(table.len(), 1);
    assert_eq!(table.lookup("echo"), Some(HandlerKind::Nope));
}

#[test]
fn register_keeps_unrelated_entries() {
    let mut table = DispatchTable::new();
    table.register("echo", HandlerKind::Echo);
    table.register("nope", HandlerKind::Nope);
    table.register("echo", HandlerKind::Echo);
    assert_eq!(table.len(), 2);
    assert_eq!(table.lookup("nope"), Some(HandlerKind::Nope));
}
