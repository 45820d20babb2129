use mb2_console::cell::ConsoleCell;
use mb2_console::fault::{FaultHook, Stage};
use mb2_console::line::Poll;
use mb2_console::transfer::Request;

#[derive(Clone, Copy, Debug, PartialEq, Eq)]
enum LineFault {
    Framing,
    Overrun,
}

#[derive(Debug, PartialEq, Eq)]
struct MockPort {
    script: Vec<Poll<(), LineFault>>,
    asked: Vec<Request>,
    wire: Vec<u8>,
}

impl MockPort {
    fn willing() -> MockPort {
        MockPort::scripted(Vec::new())
    }

    fn scripted(script: Vec<Poll<(), LineFault>>) -> MockPort {
        MockPort { script, asked: Vec::new(), wire: Vec::new() }
    }

    fn attempt(&mut self, request: Request) -> Poll<(), LineFault> {
        let answer = if self.asked.len() < self.script.len() {
            self.script[self.asked.len()]
        } else {
            Poll::Ready(())
        };
        self.asked.push(request);
        if let (Request::Write(b), Poll::Ready(())) = (request, answer) {
            self.wire.push(b);
        }
        answer
    }
}

/// The hook as the panic handler runs it, up to the halt. Returns the halted
/// hook, what the port saw if the hook had it, and how many attempts it made.
fn run_hook(
    cell: &mut ConsoleCell<MockPort>,
    description: &str,
) -> (FaultHook, Option<(Vec<Request>, Vec<u8>)>) {
    let (mut hook, mut port) = FaultHook::new().enter(cell, description);
    while let Some(request) = hook.request() {
        let line = port.as_mut().expect("an attempt without a port");
        let answer = line.attempt(request);
        hook = hook.advance(answer);
    }
    let seen = port.as_ref().map(|p| (p.asked.clone(), p.wire.clone()));
    (hook.halt(cell, port), seen)
}

#[test]
fn a_fault_with_the_console_uninitialized_skips_logging_and_halts() {
    let mut cell: ConsoleCell<MockPort> = ConsoleCell::new();
    let (hook, port) = FaultHook::new().enter(&mut cell, "deliberate panic");
    assert!(port.is_none());
    assert!(matches!(hook, FaultHook::Faulting(Stage::Idle)));
    assert_eq!(hook.request(), None);
    assert!(!cell.is_ready());
    assert!(!cell.is_held());
    let hook = hook.halt(&mut cell, port);
    assert!(matches!(hook, FaultHook::Halted));
    assert_eq!(hook.request(), None);
    assert!(!cell.is_ready());
    assert!(cell.is_consumed());
}

#[test]
fn a_fault_while_the_lock_is_held_halts_without_a_word() {
    let mut cell = ConsoleCell::new();
    cell.init(MockPort::willing());
    let in_use = cell.acquire();

    let (hook, seen) = run_hook(&mut cell, "fault inside a print");
    assert!(matches!(hook, FaultHook::Halted));
    assert_eq!(seen, None);
    assert!(in_use.asked.is_empty());
    assert!(in_use.wire.is_empty());
    assert!(!cell.is_held());
    assert!(!cell.is_ready());
    assert!(cell.is_consumed());
}

#[test]
fn a_fault_on_a_held_console_asks_for_no_attempt() {
    let mut cell = ConsoleCell::new();
    cell.init(MockPort::willing());
    let _in_use = cell.acquire();
    let (hook, port) = FaultHook::new().enter(&mut cell, "x");
    assert!(port.is_none());
    assert_eq!(hook.request(), None);
    assert!(cell.is_held());
    let hook = hook.advance(Poll::<(), LineFault>::Ready(()));
    assert!(matches!(hook, FaultHook::Faulting(Stage::Idle)));
    let hook = hook.advance(Poll::<(), LineFault>::Failed(LineFault::Framing));
    assert!(matches!(hook, FaultHook::Faulting(Stage::Idle)));
}

#[test]
fn a_fault_writes_the_description_and_a_line_end() {
    let mut cell = ConsoleCell::new();
    cell.init(MockPort::willing());
    let (hook, seen) = run_hook(&mut cell, "deliberate panic");
    assert!(matches!(hook, FaultHook::Halted));
    let (asked, wire) = seen.unwrap();
    assert_eq!(wire, b"deliberate panic\r\n".to_vec());
    assert_eq!(asked.len(), 19);
    assert_eq!(asked[18], Request::Flush);
    assert!(asked[..18].iter().all(|r| matches!(r, Request::Write(_))));
}

#[test]
fn a_fault_with_no_description_still_ends_the_line() {
    let mut cell = ConsoleCell::new();
    cell.init(MockPort::willing());
    let (_, seen) = run_hook(&mut cell, "");
    let (asked, wire) = seen.unwrap();
    assert_eq!(wire, b"\r\n".to_vec());
    assert_eq!(asked, vec![Request::Write(13), Request::Write(10), Request::Flush]);
}

#[test]
fn the_hook_waits_for_a_busy_line() {
    let script = vec![
        Poll::WouldBlock,
        Poll::Ready(()),
        Poll::WouldBlock,
        Poll::WouldBlock,
        Poll::Ready(()),
        Poll::Ready(()),
        Poll::WouldBlock,
        Poll::Ready(()),
    ];
    let mut cell = ConsoleCell::new();
    cell.init(MockPort::scripted(script));
    let (_, seen) = run_hook(&mut cell, "x");
    let (asked, wire) = seen.unwrap();
    assert_eq!(wire, b"x\r\n".to_vec());
    assert_eq!(asked.len(), 8);
    assert_eq!(asked[6], Request::Flush);
    assert_eq!(asked[7], Request::Flush);
}

#[test]
fn the_hook_ignores_a_failed_write_and_still_flushes() {
    let script = vec![Poll::Ready(()), Poll::Failed(LineFault::Overrun)];
    let mut cell = ConsoleCell::new();
    cell.init(MockPort::scripted(script));
    let (hook, seen) = run_hook(&mut cell, "abc");
    assert!(matches!(hook, FaultHook::Halted));
    let (asked, wire) = seen.unwrap();
    assert_eq!(wire, b"a".to_vec());
    assert_eq!(asked, vec![Request::Write(b'a'), Request::Write(b'b'), Request::Flush]);
}

#[test]
fn the_hook_ignores_a_failed_flush() {
    let script = vec![
        Poll::Ready(()),
        Poll::Ready(()),
        Poll::Ready(()),
        Poll::Failed(LineFault::Framing),
    ];
    let mut cell = ConsoleCell::new();
    cell.init(MockPort::scripted(script));
    let (hook, seen) = run_hook(&mut cell, "a");
    assert!(matches!(hook, FaultHook::Halted));
    let (asked, wire) = seen.unwrap();
    assert_eq!(wire, b"a\r\n".to_vec());
    assert_eq!(asked.len(), 4);
}

#[test]
fn the_hook_consumes_the_console() {
    let mut cell = ConsoleCell::new();
    cell.init(MockPort::willing());
    let (hook, _) = run_hook(&mut cell, "bye");
    assert!(matches!(hook, FaultHook::Halted));
    assert!(cell.is_consumed());
    assert!(!cell.is_ready());
    assert!(!cell.is_held());
    assert!(cell.try_acquire().is_none());
    assert!(cell.init(MockPort::willing()).is_some());
    assert!(cell.try_acquire().is_none());
    let mut ran = false;
    let r = cell.try_with_lock(|p: MockPort| {
        ran = true;
        (p, ())
    });
    assert_eq!(r, None);
    assert!(!ran);
}

#[test]
fn the_hook_takes_the_lock_while_it_writes() {
    let mut cell = ConsoleCell::new();
    cell.init(MockPort::willing());
    let (hook, port) = FaultHook::new().enter(&mut cell, "x");
    assert!(port.is_some());
    assert!(cell.is_held());
    assert_eq!(hook.request(), Some(Request::Write(b'x')));
}

#[test]
fn the_hook_moves_one_way_only() {
    let mut cell = ConsoleCell::new();
    cell.init(MockPort::willing());

    let hook = FaultHook::new();
    assert!(matches!(hook, FaultHook::Running));
    assert_eq!(hook.request(), None);
    let hook = hook.advance(Poll::<(), LineFault>::Ready(()));
    assert!(matches!(hook, FaultHook::Running));

    let (hook, port) = hook.enter(&mut cell, "one");
    assert!(matches!(hook, FaultHook::Faulting(Stage::Writing(_))));
    let (hook, again) = hook.enter(&mut cell, "two");
    assert!(again.is_none());
    assert_eq!(hook.request(), Some(Request::Write(b'o')));

    let hook = hook.halt(&mut cell, port);
    assert!(matches!(hook, FaultHook::Halted));
    let hook = hook.advance(Poll::<(), LineFault>::Ready(()));
    assert!(matches!(hook, FaultHook::Halted));
    let (hook, port) = hook.enter(&mut cell, "three");
    assert!(matches!(hook, FaultHook::Halted));
    assert!(port.is_none());
    assert!(cell.is_consumed());
}

#[test]
fn a_second_fault_finds_no_console() {
    let mut cell = ConsoleCell::new();
    cell.init(MockPort::willing());
    let (_, seen) = run_hook(&mut cell, "first");
    assert_eq!(seen.unwrap().1, b"first\r\n".to_vec());
    let (hook, seen) = run_hook(&mut cell, "second");
    assert!(matches!(hook, FaultHook::Halted));
    assert_eq!(seen, None);
}

#[test]
fn an_entered_hook_leaves_a_free_console_alone() {
    let mut empty: ConsoleCell<MockPort> = ConsoleCell::new();
    let (hook, _) = FaultHook::new().enter(&mut empty, "one");
    let mut cell = ConsoleCell::new();
    cell.init(MockPort::willing());
    let (hook, port) = hook.enter(&mut cell, "two");
    assert!(matches!(hook, FaultHook::Faulting(Stage::Idle)));
    assert!(port.is_none());
    assert!(cell.is_ready());
}
