use blueprint::run;
use blueprint::Blueprint;
use blueprint::Event;
use blueprint::Handle;
use blueprint::Reply;
use blueprint::Step;

/// Finishes on its first step, without ever suspending.
struct Immediate;

impl Blueprint<u8, u8> for Immediate {
    type Return = u64;

    fn step(&mut self, _handle: &mut Handle<u8, u8>) -> Step<u64> {
        Step::Ready(7)
    }
}

#[test]
fn zero_suspension_points_yield_exactly_one_return() {
    let mut events = run(Immediate);
    match events.next(None) {
        Some(Event::Return(value)) => assert_eq!(value, 7),
        _ => panic!("expected the return event first"),
    }
    assert!(events.next(None).is_none());
    assert!(events.next(None).is_none());
}

/// Requests one input value and finishes with it.
enum EchoBack {
    Start,
    Resumed,
}

impl Blueprint<u32, u32> for EchoBack {
    type Return = u32;

    fn step(&mut self, handle: &mut Handle<u32, u32>) -> Step<u32> {
        match self {
            EchoBack::Start => {
                handle.want_input();
                *self = EchoBack::Resumed;
                Step::Pending
            }
            EchoBack::Resumed => {
                let value = handle.take_input().expect("input to have been supplied");
                Step::Ready(value)
            }
        }
    }
}

#[test]
fn supplied_value_is_observed_exactly() {
    let mut events = run(EchoBack::Start);
    let reply: Reply<u32> = match events.next(None) {
        Some(Event::Input(res)) => res.provide(1234),
        _ => panic!("expected an input request first"),
    };
    match events.next(Some(reply)) {
        Some(Event::Return(value)) => assert_eq!(value, 1234),
        _ => panic!("expected the supplied value back"),
    }
    assert!(events.next(None).is_none());
}

/// Publishes three outputs, then finishes.
struct Counting {
    emitted: u8,
}

impl Blueprint<u8, u8> for Counting {
    type Return = u8;

    fn step(&mut self, handle: &mut Handle<u8, u8>) -> Step<u8> {
        if self.emitted < 3 {
            self.emitted += 1;
            handle.provide_output(self.emitted);
            Step::Pending
        } else {
            Step::Ready(99)
        }
    }
}

#[test]
fn outputs_come_in_the_order_they_were_published() {
    let mut events = run(Counting { emitted: 0 });
    let mut seen: Vec<u8> = Vec::new();
    while let Some(io) = events.next(None) {
        match io {
            Event::Output(out) => seen.push(out),
            Event::Return(end) => {
                assert_eq!(end, 99);
                seen.push(200);
            }
            Event::Input(_) => panic!("no input request expected"),
        }
    }
    assert_eq!(seen, vec![1, 2, 3, 200]);
}

/// Waits once for a unit value, then finishes.
enum WaitForGo {
    Start,
    Resumed,
}

impl Blueprint<(), u8> for WaitForGo {
    type Return = bool;

    fn step(&mut self, handle: &mut Handle<(), u8>) -> Step<bool> {
        match self {
            WaitForGo::Start => {
                handle.want_input();
                *self = WaitForGo::Resumed;
                Step::Pending
            }
            WaitForGo::Resumed => Step::Ready(handle.take_input().is_some()),
        }
    }
}

#[test]
fn resume_supplies_the_unit_value() {
    let mut events = run(WaitForGo::Start);
    let reply: Reply<()> = match events.next(None) {
        Some(Event::Input(res)) => res.resume(),
        _ => panic!("expected an input request first"),
    };
    match events.next(Some(reply)) {
        Some(Event::Return(resumed)) => assert!(resumed),
        _ => panic!("expected the return event"),
    }
}

#[test]
fn discarding_after_an_input_request_is_quiet() {
    let mut events = run(EchoBack::Start);
    let responder = match events.next(None) {
        Some(Event::Input(res)) => res,
        _ => panic!("expected an input request first"),
    };
    // Drop the sequence first, then the never-used responder: no panic, no
    // deadlock, simply no further events.
    drop(events);
    drop(responder);
}
