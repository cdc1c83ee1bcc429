use solar_modbus::retry::{FixedRetry, COMMAND_RETRIES, CONNECT_RETRIES, RETRY_INTERVAL_MILLIS};
use solar_modbus::session::{Phase, ReadSession, Reconnect, Step};

type Reply = Result<Vec<u16>, u8>;

#[test]
fn command_budget_hands_out_three_fixed_delays() {
    let mut r = FixedRetry::for_command();
    assert_eq!(r.remaining(), 3);
    assert_eq!(r.next_delay(), Some(10));
    assert_eq!(r.next_delay(), Some(10));
    assert_eq!(r.next_delay(), Some(10));
    assert_eq!(r.next_delay(), None);
    assert_eq!(r.next_delay(), None);
    assert_eq!(r.remaining(), 0);
    assert_eq!((COMMAND_RETRIES, CONNECT_RETRIES, RETRY_INTERVAL_MILLIS), (3, 3, 10));
}

#[test]
fn custom_budget_hands_out_its_delay() {
    let mut r = FixedRetry::new(25, 1);
    assert_eq!(r.next_delay(), Some(25));
    assert_eq!(r.next_delay(), None);
    assert_eq!(FixedRetry::for_connect().remaining(), 3);
}

#[test]
fn first_reply_ends_the_command() {
    let mut s: ReadSession<&str> = ReadSession::begin();
    assert_eq!(s.phase(), Phase::Reading);
    let reply: Reply = Ok(vec![230, 1]);
    match s.on_read(Ok::<Reply, &str>(reply)) {
        Step::Finish(Ok(Ok(words))) => assert_eq!(words, vec![230, 1]),
        other => panic!("unexpected step {:?}", other),
    }
    assert_eq!(s.phase(), Phase::Finished);
}

#[test]
fn exception_reply_is_not_retried() {
    let mut s: ReadSession<&str> = ReadSession::begin();
    let reply: Reply = Err(2);
    match s.on_read(Ok::<Reply, &str>(reply)) {
        Step::Finish(Ok(Err(code))) => assert_eq!(code, 2),
        other => panic!("unexpected step {:?}", other),
    }
    assert_eq!(s.phase(), Phase::Finished);
}

#[test]
fn transport_failure_reconnects_then_retries() {
    let mut s: ReadSession<&str> = ReadSession::begin();
    let step: Step<Reply, &str> = s.on_read(Err("broken pipe"));
    assert!(matches!(step, Step::Connect));
    assert_eq!(s.phase(), Phase::Reconnecting);
    let (step, report) = s.on_connect::<Reply>(false);
    assert!(matches!(step, Step::ConnectAfter(10)));
    assert_eq!(report, None);
    let (step, report) = s.on_connect::<Reply>(false);
    assert!(matches!(step, Step::ConnectAfter(10)));
    assert_eq!(report, None);
    let (step, report) = s.on_connect::<Reply>(true);
    assert!(matches!(step, Step::ReadAfter(10)));
    assert_eq!(report, Some(Reconnect::Reconnected));
    assert_eq!(s.phase(), Phase::Reading);
    match s.on_read(Ok::<Reply, &str>(Ok(vec![7]))) {
        Step::Finish(Ok(Ok(words))) => assert_eq!(words, vec![7]),
        other => panic!("unexpected step {:?}", other),
    }
}

#[test]
fn dead_device_gets_four_reads_and_the_last_error() {
    let mut s: ReadSession<String> = ReadSession::begin();
    let mut reads = 0;
    let mut connects = 0;
    let mut events = 0;
    let mut step: Step<Reply, String> = {
        reads += 1;
        events += 1;
        s.on_read(Err(format!("error {}", reads)))
    };
    let result = loop {
        match step {
            Step::Connect | Step::ConnectAfter(_) => {
                connects += 1;
                events += 1;
                let (next, report) = s.on_connect::<Reply>(false);
                if connects % 4 == 0 {
                    assert_eq!(report, Some(Reconnect::GaveUp));
                } else {
                    assert_eq!(report, None);
                }
                step = next;
            }
            Step::ReadAfter(ms) => {
                assert_eq!(ms, 10);
                reads += 1;
                events += 1;
                step = s.on_read(Err(format!("error {}", reads)));
            }
            Step::Finish(r) => break r,
        }
    };
    assert_eq!(reads, 4);
    assert_eq!(connects, 16);
    assert_eq!(events, 20);
    assert!(events <= 20);
    assert_eq!(result, Err("error 4".to_string()));
    assert_eq!(s.phase(), Phase::Finished);
}

#[test]
fn failed_reconnect_still_retries_the_command() {
    let mut s: ReadSession<u8> = ReadSession::begin();
    let _: Step<Reply, u8> = s.on_read(Err(1));
    for _ in 0..3 {
        let (step, report) = s.on_connect::<Reply>(false);
        assert!(matches!(step, Step::ConnectAfter(10)));
        assert_eq!(report, None);
    }
    let (step, report) = s.on_connect::<Reply>(false);
    assert_eq!(report, Some(Reconnect::GaveUp));
    assert!(matches!(step, Step::ReadAfter(10)));
}
