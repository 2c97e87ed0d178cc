use rustroast::bridge::telemetry_frame;
use rustroast::client::{Action, MqttService, PollOutcome, EVENT_BUS_CAPACITY};
use rustroast::event::MqttEvent;
use tokio::sync::broadcast;
use tokio::sync::broadcast::error::TryRecvError;

fn emit(service: &mut MqttService, bus: &broadcast::Sender<MqttEvent>, outcome: PollOutcome) {
    for action in service.on_poll(outcome) {
        if let Action::Emit(event) = action {
            let _ = bus.send(event);
        }
    }
}

fn telemetry(n: usize) -> PollOutcome {
    PollOutcome::Publish {
        topic: format!("roaster/dev{}/telemetry", n % 7),
        payload: format!("{{\"n\":{}}}", n).into_bytes(),
    }
}

fn drain(reader: &mut broadcast::Receiver<MqttEvent>) -> Vec<String> {
    let mut frames = Vec::new();
    loop {
        match reader.try_recv() {
            Ok(event) => {
                if let Some(frame) = telemetry_frame(&event) {
                    frames.push(frame);
                }
            }
            Err(TryRecvError::Lagged(_)) => panic!("no reader falls behind here"),
            Err(_) => return frames,
        }
    }
}

#[test]
fn a_hundred_bridges_see_every_message_in_order() {
    let (bus, _) = broadcast::channel(EVENT_BUS_CAPACITY);
    let mut service = MqttService::new();
    emit(&mut service, &bus, telemetry(0));
    let mut readers: Vec<broadcast::Receiver<MqttEvent>> =
        (0..100).map(|_| bus.subscribe()).collect();
    emit(&mut service, &bus, PollOutcome::ConnAck);
    let mut seen: Vec<Vec<String>> = vec![Vec::new(); readers.len()];
    let total = 200;
    for n in 1..=total {
        emit(&mut service, &bus, telemetry(n));
        emit(&mut service, &bus, PollOutcome::PubAck(n as u16));
        for (i, reader) in readers.iter_mut().enumerate() {
            if n % (i + 1) == 0 {
                seen[i].extend(drain(reader));
            }
        }
    }
    let expected: Vec<String> = (1..=total)
        .map(|n| format!("{{\"device_id\":\"dev{}\",\"telemetry\":{{\"n\":{}}}}}", n % 7, n))
        .collect();
    for (i, reader) in readers.iter_mut().enumerate() {
        seen[i].extend(drain(reader));
        assert_eq!(seen[i], expected, "for reader {}", i);
    }
}

#[test]
fn a_reader_does_not_see_what_was_sent_before_it_came() {
    let (bus, _keep) = broadcast::channel(EVENT_BUS_CAPACITY);
    let mut service = MqttService::new();
    emit(&mut service, &bus, telemetry(1));
    let mut late = bus.subscribe();
    emit(&mut service, &bus, telemetry(2));
    assert_eq!(drain(&mut late), vec!["{\"device_id\":\"dev2\",\"telemetry\":{\"n\":2}}".to_string()]);
}

#[test]
fn a_reader_that_falls_behind_loses_only_its_own_events() {
    let (bus, _) = broadcast::channel(EVENT_BUS_CAPACITY);
    let mut service = MqttService::new();
    let mut slow = bus.subscribe();
    let mut fast = bus.subscribe();
    let mut fast_seen = 0;
    for n in 0..(EVENT_BUS_CAPACITY + 10) {
        emit(&mut service, &bus, telemetry(n));
        fast_seen += drain(&mut fast).len();
    }
    assert_eq!(fast_seen, EVENT_BUS_CAPACITY + 10);
    assert!(matches!(slow.try_recv(), Err(TryRecvError::Lagged(10))));
}
