use rustroast::client::{
    Action, ClientError, MqttService, PollOutcome, QoS, ResubscribeStep, Subscription,
    BACKOFF_CEILING_SECS, BACKOFF_FLOOR_SECS, BACKOFF_WAIT_CAP_SECS, RESUBSCRIBE_PAUSE_MS,
};
use rustroast::event::MqttEvent;

fn sub(topic: &str, qos: QoS) -> Subscription {
    Subscription { topic: topic.to_string(), qos }
}

fn service_with_three() -> MqttService {
    let mut service = MqttService::new();
    assert_eq!(service.subscribe("roaster/+/telemetry", QoS::AtMostOnce, Ok(())), Ok(()));
    assert_eq!(service.subscribe("roaster/+/status", QoS::AtLeastOnce, Ok(())), Ok(()));
    assert_eq!(service.subscribe("roaster/+/autotune/#", QoS::AtMostOnce, Ok(())), Ok(()));
    service
}

fn three() -> Vec<Subscription> {
    vec![
        sub("roaster/+/telemetry", QoS::AtMostOnce),
        sub("roaster/+/status", QoS::AtLeastOnce),
        sub("roaster/+/autotune/#", QoS::AtMostOnce),
    ]
}

#[test]
fn a_new_service_is_idle() {
    let service = MqttService::new();
    assert!(!service.is_ready());
    assert_eq!(service.backoff_secs(), 1);
    assert_eq!(service.tracked_len(), 0);
    assert!(service.subscriptions().is_empty());
}

#[test]
fn backoff_bounds() {
    assert_eq!(BACKOFF_FLOOR_SECS, 1);
    assert_eq!(BACKOFF_WAIT_CAP_SECS, 30);
    assert_eq!(BACKOFF_CEILING_SECS, 60);
    assert_eq!(RESUBSCRIBE_PAUSE_MS, 50);
}

#[test]
fn an_accepted_subscription_is_tracked() {
    let service = service_with_three();
    assert_eq!(service.tracked_len(), 3);
    assert_eq!(service.subscriptions(), three());
}

#[test]
fn a_refused_subscription_is_not_tracked() {
    let mut service = MqttService::new();
    assert_eq!(
        service.subscribe("roaster/#", QoS::AtMostOnce, Err(ClientError::Request)),
        Err(ClientError::Request)
    );
    assert_eq!(
        service.subscribe("roaster/#", QoS::AtMostOnce, Err(ClientError::TryRequest)),
        Err(ClientError::TryRequest)
    );
    assert_eq!(service.tracked_len(), 0);
}

#[test]
fn subscribing_again_replaces_the_guarantee() {
    let mut service = service_with_three();
    assert_eq!(service.subscribe("roaster/+/telemetry", QoS::ExactlyOnce, Ok(())), Ok(()));
    assert_eq!(
        service.subscriptions(),
        vec![
            sub("roaster/+/telemetry", QoS::ExactlyOnce),
            sub("roaster/+/status", QoS::AtLeastOnce),
            sub("roaster/+/autotune/#", QoS::AtMostOnce),
        ]
    );
    assert_eq!(
        service.subscribe("roaster/+/status", QoS::AtMostOnce, Err(ClientError::Request)),
        Err(ClientError::Request)
    );
    assert_eq!(service.subscriptions()[1], sub("roaster/+/status", QoS::AtLeastOnce));
}

#[test]
fn an_acknowledged_connection_replays_every_subscription_once() {
    let mut service = service_with_three();
    service.on_poll(PollOutcome::Failed);
    let actions = service.on_poll(PollOutcome::ConnAck);
    assert_eq!(
        actions,
        vec![
            Action::Emit(MqttEvent::Connected),
            Action::Subscribe { topic: "roaster/+/telemetry".to_string(), qos: QoS::AtMostOnce },
            Action::Subscribe { topic: "roaster/+/status".to_string(), qos: QoS::AtLeastOnce },
            Action::Subscribe { topic: "roaster/+/autotune/#".to_string(), qos: QoS::AtMostOnce },
        ]
    );
    let subscribes =
        actions.iter().filter(|action| matches!(action, Action::Subscribe { .. })).count();
    assert_eq!(subscribes, 3);
    assert!(service.is_ready());
    assert_eq!(service.backoff_secs(), 1);
}

#[test]
fn the_first_connection_of_a_new_service_replays_nothing() {
    let mut service = MqttService::new();
    assert_eq!(service.on_poll(PollOutcome::ConnAck), vec![Action::Emit(MqttEvent::Connected)]);
    assert!(service.is_ready());
}

#[test]
fn messages_and_acknowledgments_are_announced() {
    let mut service = MqttService::new();
    let actions = service.on_poll(PollOutcome::Publish {
        topic: "roaster/dev1/telemetry".to_string(),
        payload: vec![1, 2, 3],
    });
    assert_eq!(
        actions,
        vec![Action::Emit(MqttEvent::Publish {
            topic: "roaster/dev1/telemetry".to_string(),
            payload: vec![1, 2, 3],
        })]
    );
    assert_eq!(service.on_poll(PollOutcome::PubAck(9)), vec![Action::Emit(MqttEvent::PubAck(9))]);
    assert!(service.on_poll(PollOutcome::Other).is_empty());
    assert!(!service.is_ready());
    assert_eq!(service.backoff_secs(), 1);
}

#[test]
fn a_disconnect_that_went_out_is_announced() {
    let mut service = service_with_three();
    service.on_poll(PollOutcome::ConnAck);
    assert_eq!(
        service.on_poll(PollOutcome::DisconnectSent),
        vec![Action::Emit(MqttEvent::Disconnected)]
    );
    assert!(!service.is_ready());
    assert_eq!(service.subscriptions(), three());
}

#[test]
fn asking_for_a_disconnect_keeps_the_subscriptions() {
    let mut service = service_with_three();
    service.on_poll(PollOutcome::ConnAck);
    service.disconnect();
    assert!(!service.is_ready());
    assert_eq!(service.subscriptions(), three());
    assert_eq!(service.backoff_secs(), 1);
}

#[test]
fn failures_back_off_exponentially() {
    let mut service = MqttService::new();
    let mut waits = Vec::new();
    let mut delays = Vec::new();
    for _ in 0..9 {
        let actions = service.on_poll(PollOutcome::Failed);
        assert_eq!(actions.len(), 3);
        assert_eq!(actions[0], Action::Emit(MqttEvent::Disconnected));
        match actions[1] {
            Action::Sleep { secs } => waits.push(secs),
            _ => panic!("the second action is the wait"),
        }
        assert_eq!(actions[2], Action::Rebuild);
        assert!(!service.is_ready());
        delays.push(service.backoff_secs());
    }
    assert_eq!(waits, vec![1, 2, 4, 8, 16, 30, 30, 30, 30]);
    assert_eq!(delays, vec![2, 4, 8, 16, 32, 60, 60, 60, 60]);
}

#[test]
fn a_connection_resets_the_backoff() {
    let mut service = MqttService::new();
    for _ in 0..4 {
        service.on_poll(PollOutcome::Failed);
    }
    assert_eq!(service.backoff_secs(), 16);
    service.on_poll(PollOutcome::ConnAck);
    assert_eq!(service.backoff_secs(), 1);
    let actions = service.on_poll(PollOutcome::Failed);
    assert_eq!(actions[1], Action::Sleep { secs: 1 });
}

#[test]
fn subscriptions_survive_any_number_of_reconnects() {
    let mut service = service_with_three();
    let before = service.subscriptions();
    for round in 0..25 {
        for _ in 0..(round % 4) {
            service.on_poll(PollOutcome::Failed);
        }
        service.on_poll(PollOutcome::Other);
        let actions = service.on_poll(PollOutcome::ConnAck);
        assert_eq!(actions.len(), 4);
        service.on_poll(PollOutcome::Publish { topic: "t".to_string(), payload: Vec::new() });
        service.on_poll(PollOutcome::DisconnectSent);
    }
    assert_eq!(service.subscriptions(), before);
    assert_eq!(service.subscriptions(), three());
}

#[test]
fn only_disconnected_is_announced_while_the_link_is_down() {
    let mut service = service_with_three();
    service.on_poll(PollOutcome::ConnAck);
    let mut announced = Vec::new();
    for outcome in [
        PollOutcome::Failed,
        PollOutcome::Other,
        PollOutcome::Failed,
        PollOutcome::DisconnectSent,
        PollOutcome::Failed,
    ] {
        for action in service.on_poll(outcome) {
            if let Action::Emit(event) = action {
                announced.push(event);
            }
        }
        assert!(!service.is_ready());
    }
    assert_eq!(announced.len(), 4);
    assert!(announced.iter().all(|event| *event == MqttEvent::Disconnected));
    let actions = service.on_poll(PollOutcome::ConnAck);
    assert_eq!(actions[0], Action::Emit(MqttEvent::Connected));
}

#[test]
fn resubscribing_issues_every_subscription_in_order() {
    let service = service_with_three();
    assert_eq!(
        service.resubscribe_tracked(),
        ResubscribeStep::Issue {
            index: 0,
            topic: "roaster/+/telemetry".to_string(),
            qos: QoS::AtMostOnce,
            after_ms: 0,
        }
    );
    assert_eq!(
        service.resubscribe_next(0, Ok(())),
        ResubscribeStep::Issue {
            index: 1,
            topic: "roaster/+/status".to_string(),
            qos: QoS::AtLeastOnce,
            after_ms: 50,
        }
    );
    assert_eq!(
        service.resubscribe_next(1, Ok(())),
        ResubscribeStep::Issue {
            index: 2,
            topic: "roaster/+/autotune/#".to_string(),
            qos: QoS::AtMostOnce,
            after_ms: 50,
        }
    );
    assert_eq!(
        service.resubscribe_next(2, Ok(())),
        ResubscribeStep::Done { result: Ok(()), after_ms: 50 }
    );
}

#[test]
fn resubscribing_stops_at_the_first_failure() {
    let service = service_with_three();
    let mut issued = Vec::new();
    let mut step = service.resubscribe_tracked();
    let result = loop {
        match step {
            ResubscribeStep::Issue { index, topic, .. } => {
                issued.push(topic);
                let outcome = if index == 1 { Err(ClientError::Request) } else { Ok(()) };
                step = service.resubscribe_next(index, outcome);
            }
            ResubscribeStep::Done { result, after_ms } => {
                assert_eq!(after_ms, 0);
                break result;
            }
        }
    };
    assert_eq!(result, Err(ClientError::Request));
    assert_eq!(issued, vec!["roaster/+/telemetry".to_string(), "roaster/+/status".to_string()]);
}

#[test]
fn resubscribing_nothing_is_done_at_once() {
    let service = MqttService::new();
    assert_eq!(service.resubscribe_tracked(), ResubscribeStep::Done { result: Ok(()), after_ms: 0 });
    assert_eq!(
        service.resubscribe_next(usize::MAX, Ok(())),
        ResubscribeStep::Done { result: Ok(()), after_ms: 50 }
    );
}
