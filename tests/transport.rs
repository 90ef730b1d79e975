use overlay::transport::{Action, Outcome, Phase, Transport};

fn transport() -> Transport {
    Transport::new(vec![5000, 5001], 5001, 500, 5000)
}

#[test]
fn first_answering_port_is_used_for_the_stream() {
    let mut t = transport();
    assert_eq!(t.start(), Action::Probe(5000));
    assert_eq!(t.step(Outcome::Unreachable), Action::Probe(5001));
    assert_eq!(t.step(Outcome::Success), Action::OpenStream(5001));
    assert_eq!(t.current_port(), 5001);
    assert_eq!(t.step(Outcome::Success), Action::ReadStream);
    assert_eq!(t.phase(), Phase::Streaming);
}

#[test]
fn no_answer_falls_back_to_default_port() {
    let mut t = Transport::new(vec![5000, 5001], 6000, 500, 5000);
    t.start();
    t.step(Outcome::Failure);
    assert_eq!(t.step(Outcome::Unreachable), Action::OpenStream(6000));
    assert_eq!(t.current_port(), 6000);
    let mut t = Transport::new(vec![], 6000, 500, 5000);
    assert_eq!(t.start(), Action::OpenStream(6000));
}

#[test]
fn stream_refused_switches_to_polling() {
    let mut t = transport();
    t.start();
    t.step(Outcome::Success);
    assert_eq!(t.step(Outcome::Failure), Action::Wait(500));
    assert_eq!(t.step(Outcome::Done), Action::Poll(5000));
    assert_eq!(t.step(Outcome::Success), Action::Wait(500));
    assert_eq!(t.step(Outcome::Done), Action::Poll(5000));
    assert_eq!(t.step(Outcome::Failure), Action::Wait(500));
}

#[test]
fn ended_stream_cools_down_and_rediscovers() {
    let mut t = transport();
    t.start();
    t.step(Outcome::Success);
    t.step(Outcome::Success);
    assert_eq!(t.step(Outcome::Done), Action::Wait(5000));
    assert_eq!(t.step(Outcome::Done), Action::Probe(5000));
}

#[test]
fn failed_poll_switches_to_the_other_port() {
    let mut t = transport();
    t.start();
    t.step(Outcome::Success);
    t.step(Outcome::Unreachable);
    assert_eq!(t.step(Outcome::Done), Action::Poll(5000));
    assert_eq!(t.step(Outcome::Unreachable), Action::Probe(5001));
    assert_eq!(t.step(Outcome::Success), Action::Wait(500));
    assert_eq!(t.current_port(), 5001);
    assert_eq!(t.step(Outcome::Done), Action::Poll(5001));
}

#[test]
fn failed_failover_keeps_the_port() {
    let mut t = Transport::new(vec![5000, 5001, 5002], 5000, 50, 5000);
    t.start();
    t.step(Outcome::Success);
    t.step(Outcome::Failure);
    t.step(Outcome::Done);
    assert_eq!(t.step(Outcome::Unreachable), Action::Probe(5001));
    assert_eq!(t.step(Outcome::Unreachable), Action::Probe(5002));
    assert_eq!(t.step(Outcome::Failure), Action::Wait(50));
    assert_eq!(t.current_port(), 5000);
    assert_eq!(t.step(Outcome::Done), Action::Poll(5000));
}
