use mqtt_broker::config::{config, BrokerConfig};
use mqtt_broker::lifecycle::{Action, BrokerError, BrokerLifecycle, Event};
use mqtt_broker::settings::Settings;

fn sample_config() -> BrokerConfig {
    config(Settings { mqtt_port: 1884, ws_port: Some(9001), console_port: 3031 })
}

fn failure(message: &str) -> BrokerError {
    BrokerError { message: message.to_string() }
}

fn drive(
    config: BrokerConfig,
    mut start: impl FnMut(BrokerConfig) -> Result<(), BrokerError>,
) -> (Result<(), BrokerError>, usize) {
    let mut state = BrokerLifecycle::Ready(config);
    let mut event = Event::Begin;
    let mut started = 0;
    loop {
        let (next, action) = state.step(event);
        state = next;
        match action {
            Action::Start(config) => {
                started += 1;
                event = Event::Stopped(start(config));
            }
            Action::Exit(outcome) => {
                assert_eq!(state, BrokerLifecycle::Finished);
                return (outcome, started);
            }
            Action::Nothing => panic!("the run stalled"),
        }
    }
}

#[test]
fn beginning_hands_the_configuration_to_the_runtime() {
    let (state, action) = BrokerLifecycle::Ready(sample_config()).step(Event::Begin);
    assert_eq!(state, BrokerLifecycle::Running);
    assert_eq!(action, Action::Start(sample_config()));
}

#[test]
fn failure_of_the_runtime_is_returned_unchanged() {
    let (state, action) =
        BrokerLifecycle::Running.step(Event::Stopped(Err(failure("I/O address in use"))));
    assert_eq!(state, BrokerLifecycle::Finished);
    assert_eq!(action, Action::Exit(Err(failure("I/O address in use"))));
}

#[test]
fn success_of_the_runtime_is_returned_unchanged() {
    let (state, action) = BrokerLifecycle::Running.step(Event::Stopped(Ok(())));
    assert_eq!(state, BrokerLifecycle::Finished);
    assert_eq!(action, Action::Exit(Ok(())));
}

#[test]
fn run_returns_the_failure_of_the_runtime() {
    let outcome = BrokerLifecycle::run(sample_config(), |_| Err(failure("Timeout")));
    assert_eq!(outcome, Err(failure("Timeout")));
}

#[test]
fn run_returns_the_success_of_the_runtime() {
    let outcome = BrokerLifecycle::run(sample_config(), |_| Ok(()));
    assert_eq!(outcome, Ok(()));
}

#[test]
fn run_starts_the_runtime_once_with_the_configuration_it_was_given() {
    let mut seen = Vec::new();
    let outcome = BrokerLifecycle::run(sample_config(), |config| {
        seen.push(config);
        Err(failure("Channel recv error"))
    });
    assert_eq!(outcome, Err(failure("Channel recv error")));
    assert_eq!(seen, vec![sample_config()]);
}

#[test]
fn stepping_by_hand_returns_the_failure_of_the_runtime() {
    let (outcome, started) = drive(sample_config(), |_| Err(failure("Timeout")));
    assert_eq!(outcome, Err(failure("Timeout")));
    assert_eq!(started, 1);
}

#[test]
fn stepping_by_hand_returns_the_success_of_the_runtime() {
    let (outcome, started) = drive(sample_config(), |_| Ok(()));
    assert_eq!(outcome, Ok(()));
    assert_eq!(started, 1);
}

#[test]
fn nothing_is_retried_after_a_failure() {
    let (state, _) = BrokerLifecycle::Running.step(Event::Stopped(Err(failure("Accept error"))));
    let (state, action) = state.step(Event::Begin);
    assert_eq!(state, BrokerLifecycle::Finished);
    assert_eq!(action, Action::Nothing);
    let (state, action) = state.step(Event::Stopped(Ok(())));
    assert_eq!(state, BrokerLifecycle::Finished);
    assert_eq!(action, Action::Nothing);
}

#[test]
fn beginning_again_while_running_does_nothing() {
    let (state, action) = BrokerLifecycle::Running.step(Event::Begin);
    assert_eq!(state, BrokerLifecycle::Running);
    assert_eq!(action, Action::Nothing);
}

#[test]
fn an_outcome_before_the_start_does_nothing() {
    let (state, action) =
        BrokerLifecycle::Ready(sample_config()).step(Event::Stopped(Err(failure("early"))));
    assert_eq!(state, BrokerLifecycle::Ready(sample_config()));
    assert_eq!(action, Action::Nothing);
    let (state, action) = BrokerLifecycle::Ready(sample_config()).step(Event::Stopped(Ok(())));
    assert_eq!(state, BrokerLifecycle::Ready(sample_config()));
    assert_eq!(action, Action::Nothing);
}

#[test]
fn any_sequence_of_events_starts_and_ends_at_most_once() {
    let events = || {
        vec![
            Event::Stopped(Ok(())),
            Event::Begin,
            Event::Begin,
            Event::Stopped(Err(failure("first"))),
            Event::Begin,
            Event::Stopped(Err(failure("second"))),
            Event::Stopped(Ok(())),
        ]
    };
    let mut state = BrokerLifecycle::Ready(sample_config());
    let mut actions = Vec::new();
    for event in events() {
        let (next, action) = state.step(event);
        state = next;
        actions.push(action);
    }
    assert_eq!(state, BrokerLifecycle::Finished);
    assert_eq!(
        actions,
        vec![
            Action::Nothing,
            Action::Start(sample_config()),
            Action::Nothing,
            Action::Exit(Err(failure("first"))),
            Action::Nothing,
            Action::Nothing,
            Action::Nothing,
        ]
    );
}
