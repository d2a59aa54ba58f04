use tsmusicbot::command::Intent;
use tsmusicbot::orchestrator::{Action, ControlSignal, Event, ExitReason, Orchestrator, OutputFrame};

fn play(s: &str) -> Event {
    Event::Intent(Intent::PlayRequest(s.to_string()))
}

/// Drives an orchestrator and counts the pipelines alive.
struct Harness {
    orch: Orchestrator,
    live: i32,
    max_live: i32,
    spawned: Vec<String>,
    forwarded: Vec<Vec<u8>>,
}

impl Harness {
    fn new() -> Harness {
        Harness {
            orch: Orchestrator::new(),
            live: 0,
            max_live: 0,
            spawned: Vec::new(),
            forwarded: Vec::new(),
        }
    }

    fn send(&mut self, ev: Event) -> Action {
        if ev == Event::Frame(OutputFrame::EndOfStream) && self.orch.is_playing() {
            self.live -= 1;
        }
        let a = self.orch.handle(ev);
        match &a {
            Action::Spawn(s) => {
                self.live += 1;
                self.max_live = self.max_live.max(self.live);
                self.spawned.push(s.clone());
            }
            Action::Forward(p) => self.forwarded.push(p.clone()),
            _ => {}
        }
        a
    }
}

#[test]
fn first_request_spawns_second_is_queued() {
    let mut h = Harness::new();
    assert_eq!(h.send(play("A")), Action::Spawn("A".to_string()));
    assert!(h.orch.is_playing());
    assert_eq!(h.send(play("B")), Action::Nothing);
    assert_eq!(h.orch.queued(), 1);
    assert_eq!(h.live, 1);
    assert_eq!(h.max_live, 1);
    assert_eq!(h.spawned, vec!["A".to_string()]);
}

#[test]
fn queued_source_waits_for_end_of_stream() {
    let mut h = Harness::new();
    h.send(play("A"));
    h.send(play("B"));
    h.send(Event::Frame(OutputFrame::Payload(vec![1])));
    h.send(Event::Frame(OutputFrame::Payload(vec![2])));
    assert_eq!(h.spawned, vec!["A".to_string()]);
    assert_eq!(
        h.send(Event::Frame(OutputFrame::EndOfStream)),
        Action::Spawn("B".to_string())
    );
    h.send(Event::Frame(OutputFrame::Payload(vec![3])));
    assert_eq!(h.forwarded, vec![vec![1], vec![2], vec![3]]);
    assert_eq!(h.send(Event::Frame(OutputFrame::EndOfStream)), Action::Nothing);
    assert!(!h.orch.is_playing());
    assert_eq!(h.max_live, 1);
    assert_eq!(h.live, 0);
}

#[test]
fn stop_with_queue_starts_next_in_order() {
    let mut h = Harness::new();
    h.send(play("A"));
    h.send(play("B"));
    h.send(play("C"));
    assert_eq!(
        h.send(Event::Intent(Intent::Stop)),
        Action::Control(ControlSignal::Stop)
    );
    assert!(h.orch.is_playing());
    assert_eq!(
        h.send(Event::Frame(OutputFrame::EndOfStream)),
        Action::Spawn("B".to_string())
    );
    assert_eq!(
        h.send(Event::Frame(OutputFrame::EndOfStream)),
        Action::Spawn("C".to_string())
    );
    assert_eq!(h.orch.queued(), 0);
    assert_eq!(h.max_live, 1);
}

#[test]
fn stop_with_empty_queue_goes_idle() {
    let mut h = Harness::new();
    h.send(play("A"));
    assert_eq!(
        h.send(Event::Intent(Intent::Stop)),
        Action::Control(ControlSignal::Stop)
    );
    assert_eq!(h.send(Event::Frame(OutputFrame::EndOfStream)), Action::Nothing);
    assert!(!h.orch.is_playing());
    assert_eq!(h.live, 0);
}

#[test]
fn idle_ignores_stop_and_volume() {
    let mut h = Harness::new();
    assert_eq!(h.send(Event::Intent(Intent::Stop)), Action::Nothing);
    assert_eq!(h.send(Event::Intent(Intent::SetVolume(50))), Action::Nothing);
    assert_eq!(h.send(Event::Intent(Intent::NoOp)), Action::Nothing);
    assert_eq!(h.send(Event::Frame(OutputFrame::EndOfStream)), Action::Nothing);
    assert!(!h.orch.is_playing());
}

#[test]
fn volume_is_passed_to_pipeline() {
    let mut h = Harness::new();
    h.send(play("A"));
    assert_eq!(
        h.send(Event::Intent(Intent::SetVolume(70))),
        Action::Control(ControlSignal::SetVolume(70))
    );
}

#[test]
fn forward_failure_ends_loop() {
    let mut h = Harness::new();
    h.send(play("A"));
    assert_eq!(
        h.send(Event::Frame(OutputFrame::Payload(vec![9, 9]))),
        Action::Forward(vec![9, 9])
    );
    assert_eq!(
        h.send(Event::ForwardFailed),
        Action::Exit(ExitReason::ForwardFailed)
    );
    assert!(h.orch.is_done());
}

#[test]
fn terminate_and_session_close_end_loop() {
    let mut o = Orchestrator::new();
    assert_eq!(o.handle(Event::Terminate), Action::Exit(ExitReason::Terminated));
    assert!(o.is_done());
    let mut o = Orchestrator::new();
    assert_eq!(
        o.handle(Event::SessionClosed),
        Action::Exit(ExitReason::SessionClosed)
    );
    assert!(o.is_done());
}
