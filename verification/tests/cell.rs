use mb2_console::cell::ConsoleCell;
use mb2_console::line::{LineConfig, Parity};
use mb2_console::serial::init_serial;

/// A stand-in for a port: it is told apart by its name and remembers what was
/// written to it.
#[derive(Debug, PartialEq, Eq)]
struct Port {
    name: &'static str,
    written: Vec<u8>,
}

fn port(name: &'static str) -> Port {
    Port { name, written: Vec::new() }
}

#[test]
fn a_new_cell_is_empty() {
    let mut cell: ConsoleCell<Port> = ConsoleCell::new();
    assert!(!cell.is_ready());
    assert!(!cell.is_held());
    assert!(!cell.is_consumed());
    assert_eq!(cell.try_acquire(), None);
    assert!(!cell.is_held());
}

#[test]
fn init_installs_the_port() {
    let mut cell = ConsoleCell::new();
    assert_eq!(cell.init(port("uart")), None);
    assert!(cell.is_ready());
    assert!(!cell.is_held());
    assert_eq!(cell.acquire().name, "uart");
}

#[test]
fn a_second_init_replaces_the_first_port() {
    let mut cell = ConsoleCell::new();
    assert_eq!(cell.init(port("first")), None);
    let displaced = cell.init(port("second"));
    assert_eq!(displaced, Some(port("first")));
    assert!(cell.is_ready());

    cell.with_lock(|mut p: Port| {
        p.written.push(b'x');
        (p, ())
    });
    let now = cell.acquire();
    assert_eq!(now.name, "second");
    assert_eq!(now.written, b"x".to_vec());
    assert!(displaced.unwrap().written.is_empty());
}

#[test]
fn the_lock_has_one_holder_at_a_time() {
    let mut cell = ConsoleCell::new();
    cell.init(port("uart"));
    let held = cell.acquire();
    assert!(cell.is_held());
    assert!(!cell.is_ready());
    assert_eq!(cell.try_acquire(), None);
    assert!(cell.is_held());
    cell.release(held);
    assert!(cell.is_ready());
    assert!(!cell.is_held());
    assert_eq!(cell.try_acquire(), Some(port("uart")));
    assert!(cell.is_held());
}

#[test]
fn with_lock_runs_the_block_and_frees_the_cell() {
    let mut cell = ConsoleCell::new();
    cell.init(port("uart"));
    let n = cell.with_lock(|mut p: Port| {
        p.written.extend_from_slice(b"abc");
        let n = p.written.len();
        (p, n)
    });
    assert_eq!(n, 3);
    assert!(cell.is_ready());
    let n = cell.with_lock(|mut p: Port| {
        p.written.extend_from_slice(b"de");
        let n = p.written.len();
        (p, n)
    });
    assert_eq!(n, 5);
    assert_eq!(cell.acquire().written, b"abcde".to_vec());
}

#[test]
fn try_with_lock_on_an_empty_cell_does_nothing() {
    let mut cell: ConsoleCell<Port> = ConsoleCell::new();
    let mut ran = false;
    let r = cell.try_with_lock(|p: Port| {
        ran = true;
        (p, 1)
    });
    assert_eq!(r, None);
    assert!(!ran);
    assert!(!cell.is_ready());
    assert!(!cell.is_held());
}

#[test]
fn try_with_lock_on_a_held_cell_does_nothing() {
    let mut cell = ConsoleCell::new();
    cell.init(port("uart"));
    let held = cell.acquire();
    let mut ran = false;
    let r = cell.try_with_lock(|p: Port| {
        ran = true;
        (p, 1)
    });
    assert_eq!(r, None);
    assert!(!ran);
    assert!(cell.is_held());
    cell.release(held);
    assert!(cell.is_ready());
}

#[test]
fn try_with_lock_on_a_free_cell_runs_the_block() {
    let mut cell = ConsoleCell::new();
    cell.init(port("uart"));
    let r = cell.try_with_lock(|mut p: Port| {
        p.written.push(b'!');
        (p, 42)
    });
    assert_eq!(r, Some(42));
    assert!(cell.is_ready());
    assert_eq!(cell.acquire().written, b"!".to_vec());
}

#[test]
fn consume_empties_a_free_cell_and_hands_out_the_port() {
    let mut cell = ConsoleCell::new();
    cell.init(port("uart"));
    assert!(!cell.is_consumed());
    assert_eq!(cell.consume(), Some(port("uart")));
    assert!(cell.is_consumed());
    assert!(!cell.is_ready());
    assert!(!cell.is_held());
    assert_eq!(cell.try_acquire(), None);
    assert_eq!(cell.consume(), None);
    assert!(cell.is_consumed());
}

#[test]
fn consume_of_an_empty_cell_hands_out_nothing() {
    let mut cell: ConsoleCell<Port> = ConsoleCell::new();
    assert_eq!(cell.consume(), None);
    assert!(cell.is_consumed());
    assert!(!cell.is_ready());
}

#[test]
fn consume_empties_a_held_cell() {
    let mut cell = ConsoleCell::new();
    cell.init(port("uart"));
    let _lost = cell.acquire();
    assert_eq!(cell.consume(), None);
    assert!(cell.is_consumed());
    assert!(!cell.is_held());
    assert!(!cell.is_ready());
    assert_eq!(cell.try_acquire(), None);
}

#[test]
fn a_consumed_cell_stays_empty() {
    let mut cell = ConsoleCell::new();
    cell.init(port("old"));
    cell.consume();
    assert_eq!(cell.init(port("new")), Some(port("new")));
    assert!(cell.is_consumed());
    assert!(!cell.is_ready());
    assert_eq!(cell.try_acquire(), None);
    let mut ran = false;
    let r = cell.try_with_lock(|p: Port| {
        ran = true;
        (p, ())
    });
    assert_eq!(r, None);
    assert!(!ran);
    assert!(cell.is_consumed());
}

#[test]
fn init_serial_opens_the_port_with_the_console_settings() {
    let mut cell = ConsoleCell::new();
    let mut seen: Option<LineConfig> = None;
    let r: Result<Option<Port>, ()> = init_serial(&mut cell, |cfg: LineConfig| {
        seen = Some(cfg);
        Ok(port("uart"))
    });
    assert_eq!(r, Ok(None));
    assert_eq!(seen, Some(LineConfig { baud: 115200, parity: Parity::Excluded }));
    assert!(cell.is_ready());
    assert_eq!(cell.acquire().name, "uart");
}

#[test]
fn init_serial_twice_keeps_the_second_port() {
    let mut cell = ConsoleCell::new();
    let r: Result<Option<Port>, ()> = init_serial(&mut cell, |_| Ok(port("first")));
    assert_eq!(r, Ok(None));
    let r: Result<Option<Port>, ()> = init_serial(&mut cell, |_| Ok(port("second")));
    assert_eq!(r, Ok(Some(port("first"))));
    assert_eq!(cell.acquire().name, "second");
}

#[test]
fn init_serial_on_a_consumed_cell_installs_nothing() {
    let mut cell: ConsoleCell<Port> = ConsoleCell::new();
    cell.consume();
    let r: Result<Option<Port>, ()> = init_serial(&mut cell, |_| Ok(port("late")));
    assert_eq!(r, Ok(Some(port("late"))));
    assert!(cell.is_consumed());
    assert!(!cell.is_ready());
}

#[test]
fn init_serial_hands_on_a_refusal_and_leaves_the_cell_alone() {
    let mut cell: ConsoleCell<Port> = ConsoleCell::new();
    let r: Result<Option<Port>, &str> = init_serial(&mut cell, |_| Err("will not split"));
    assert_eq!(r, Err("will not split"));
    assert!(!cell.is_ready());

    cell.init(port("kept"));
    let r: Result<Option<Port>, &str> = init_serial(&mut cell, |_| Err("will not split"));
    assert_eq!(r, Err("will not split"));
    assert_eq!(cell.acquire().name, "kept");
}
