use presence::connection::{Action, Connection, Frame, Input};
use presence::event::{Event, Request};
use presence::heartbeat::{HeartbeatPolicy, Phase, CLIENT_TIMEOUT, HEARTBEAT_INTERVAL};

fn started(id: u64, now: u64) -> Connection {
    Connection::start(id, now, HeartbeatPolicy::default()).0
}

#[test]
fn default_policy_probes_every_five_and_gives_up_after_ten() {
    assert_eq!(HEARTBEAT_INTERVAL, 5);
    assert_eq!(CLIENT_TIMEOUT, 10);
    let policy = HeartbeatPolicy::default();
    assert_eq!(policy.interval, 5);
    assert_eq!(policy.timeout, 10);
    assert_eq!(policy, HeartbeatPolicy::new(5, 10));
}

#[test]
fn policy_is_configurable() {
    let policy = HeartbeatPolicy::new(2, 3);
    assert_eq!(policy.interval, 2);
    assert_eq!(policy.timeout, 3);
    let (mut conn, actions) = Connection::start(1, 100, policy);
    assert_eq!(actions, vec![Action::Schedule(2), Action::Notify(Request::Join(1))]);
    assert_eq!(conn.tick(103), vec![Action::Ping]);
    assert_eq!(conn.tick(104), vec![Action::Stop]);
}

#[test]
fn silence_expires_strictly_after_the_timeout() {
    let policy = HeartbeatPolicy::new(5, 10);
    assert!(!policy.is_expired(100, 100));
    assert!(!policy.is_expired(100, 109));
    assert!(!policy.is_expired(100, 110));
    assert!(policy.is_expired(100, 111));
    assert!(policy.is_expired(0, u64::MAX));
}

#[test]
fn a_clock_that_ran_backwards_expires_nothing() {
    let policy = HeartbeatPolicy::new(5, 10);
    assert!(!policy.is_expired(100, 0));
    assert!(!policy.is_expired(u64::MAX, 0));
    let zero = HeartbeatPolicy::new(1, 0);
    assert!(!zero.is_expired(7, 7));
    assert!(zero.is_expired(7, 8));
}

#[test]
fn start_schedules_the_heartbeat_and_joins() {
    let (conn, actions) = Connection::start(42, 1000, HeartbeatPolicy::default());
    assert_eq!(actions, vec![Action::Schedule(5), Action::Notify(Request::Join(42))]);
    assert_eq!(conn.id(), 42);
    assert_eq!(conn.last_ack(), 1000);
    assert_eq!(conn.phase(), Phase::Active);
    assert_eq!(conn.policy(), HeartbeatPolicy::default());
}

#[test]
fn tick_probes_a_live_peer() {
    let mut conn = started(1, 0);
    assert_eq!(conn.tick(5), vec![Action::Ping]);
    assert_eq!(conn.tick(10), vec![Action::Ping]);
    assert_eq!(conn.phase(), Phase::Active);
    assert_eq!(conn.last_ack(), 0);
}

#[test]
fn tick_after_the_timeout_stops_the_session() {
    let mut conn = started(1, 0);
    assert_eq!(conn.tick(11), vec![Action::Stop]);
    assert_eq!(conn.phase(), Phase::TimedOut);
    assert_eq!(conn.tick(12), Vec::<Action>::new());
    assert_eq!(conn.phase(), Phase::TimedOut);
}

#[test]
fn pong_renews_the_lease() {
    let mut conn = started(1, 0);
    assert_eq!(conn.receive(Frame::Pong, 9), Vec::<Action>::new());
    assert_eq!(conn.last_ack(), 9);
    assert_eq!(conn.tick(19), vec![Action::Ping]);
    assert_eq!(conn.tick(20), vec![Action::Stop]);
}

#[test]
fn ping_is_echoed_and_renews_nothing() {
    let mut conn = started(1, 0);
    assert_eq!(conn.receive(Frame::Ping("abc".to_string()), 9), vec![Action::Pong("abc".to_string())]);
    assert_eq!(conn.receive(Frame::Ping(String::new()), 9), vec![Action::Pong(String::new())]);
    assert_eq!(conn.last_ack(), 0);
    assert_eq!(conn.phase(), Phase::Active);
}

#[test]
fn data_frames_are_ignored() {
    let mut conn = started(1, 0);
    assert_eq!(conn.receive(Frame::Text, 3), Vec::<Action>::new());
    assert_eq!(conn.receive(Frame::Binary, 4), Vec::<Action>::new());
    assert_eq!(conn.receive(Frame::Unknown, 5), Vec::<Action>::new());
    assert_eq!(conn.phase(), Phase::Active);
    assert_eq!(conn.last_ack(), 0);
}

#[test]
fn close_frame_leaves_and_stops() {
    let mut conn = started(8, 0);
    assert_eq!(
        conn.receive(Frame::Close, 1),
        vec![Action::Notify(Request::Leave(8)), Action::Stop]
    );
    assert_eq!(conn.phase(), Phase::Closed);
}

#[test]
fn transport_failure_leaves_and_stops() {
    let mut conn = started(8, 0);
    assert_eq!(conn.fail(), vec![Action::Notify(Request::Leave(8)), Action::Stop]);
    assert_eq!(conn.phase(), Phase::Closed);
    assert_eq!(conn.fail(), Vec::<Action>::new());
}

#[test]
fn teardown_of_a_live_session_leaves_once() {
    let mut conn = started(8, 0);
    assert_eq!(conn.stop(), vec![Action::Notify(Request::Leave(8))]);
    assert_eq!(conn.phase(), Phase::Closed);
    assert_eq!(conn.stop(), Vec::<Action>::new());
    assert_eq!(conn.phase(), Phase::Closed);
}

#[test]
fn teardown_after_a_timeout_leaves_once() {
    let mut conn = started(8, 0);
    assert_eq!(conn.tick(50), vec![Action::Stop]);
    assert_eq!(conn.stop(), vec![Action::Notify(Request::Leave(8))]);
    assert_eq!(conn.phase(), Phase::Closed);
    assert_eq!(conn.stop(), Vec::<Action>::new());
}

#[test]
fn a_timed_out_session_only_waits_for_teardown() {
    let mut conn = started(8, 0);
    conn.tick(11);
    assert_eq!(conn.receive(Frame::Pong, 12), Vec::<Action>::new());
    assert_eq!(conn.last_ack(), 0);
    assert_eq!(conn.receive(Frame::Ping("x".to_string()), 12), Vec::<Action>::new());
    assert_eq!(conn.receive(Frame::Close, 12), Vec::<Action>::new());
    assert_eq!(conn.fail(), Vec::<Action>::new());
    assert_eq!(conn.deliver(Event::PeerJoined), Vec::<Action>::new());
    assert_eq!(conn.phase(), Phase::TimedOut);
}

#[test]
fn a_closed_session_ignores_everything() {
    let mut conn = started(8, 0);
    conn.stop();
    assert_eq!(conn.tick(100), Vec::<Action>::new());
    assert_eq!(conn.receive(Frame::Pong, 100), Vec::<Action>::new());
    assert_eq!(conn.receive(Frame::Ping("x".to_string()), 100), Vec::<Action>::new());
    assert_eq!(conn.receive(Frame::Close, 100), Vec::<Action>::new());
    assert_eq!(conn.fail(), Vec::<Action>::new());
    assert_eq!(conn.deliver(Event::PeerLeft), Vec::<Action>::new());
    assert_eq!(conn.stop(), Vec::<Action>::new());
    assert_eq!(conn.phase(), Phase::Closed);
    assert_eq!(conn.last_ack(), 0);
    assert_eq!(conn.id(), 8);
}

#[test]
fn a_live_session_forwards_presence_events() {
    let conn = started(8, 0);
    assert_eq!(conn.deliver(Event::PeerJoined), vec![Action::Forward(Event::PeerJoined)]);
    assert_eq!(conn.deliver(Event::PeerLeft), vec![Action::Forward(Event::PeerLeft)]);
    assert_eq!(conn.phase(), Phase::Active);
}

#[test]
fn step_does_what_the_named_handlers_do() {
    let mut conn = started(3, 0);
    assert_eq!(conn.step(Input::Tick(5)), vec![Action::Ping]);
    assert_eq!(conn.step(Input::Frame(Frame::Ping("probe".to_string()), 6)), vec![Action::Pong("probe".to_string())]);
    assert_eq!(conn.step(Input::Frame(Frame::Pong, 7)), Vec::<Action>::new());
    assert_eq!(conn.last_ack(), 7);
    assert_eq!(
        conn.step(Input::Deliver(Event::PeerLeft)),
        vec![Action::Forward(Event::PeerLeft)]
    );
    assert_eq!(conn.step(Input::Tick(17)), vec![Action::Ping]);
    assert_eq!(conn.step(Input::Tick(18)), vec![Action::Stop]);
    assert_eq!(conn.step(Input::Error), Vec::<Action>::new());
    assert_eq!(conn.step(Input::Stopped), vec![Action::Notify(Request::Leave(3))]);
    assert_eq!(conn.step(Input::Stopped), Vec::<Action>::new());
    assert_eq!(conn.phase(), Phase::Closed);

    let mut other = started(4, 0);
    assert_eq!(
        other.step(Input::Error),
        vec![Action::Notify(Request::Leave(4)), Action::Stop]
    );
    let mut third = started(5, 0);
    assert_eq!(
        third.step(Input::Frame(Frame::Close, 1)),
        vec![Action::Notify(Request::Leave(5)), Action::Stop]
    );
}

#[test]
fn no_run_of_inputs_asks_for_a_second_leave() {
    let scripts: Vec<Vec<Input>> = vec![
        vec![Input::Tick(11), Input::Stopped, Input::Stopped, Input::Error],
        vec![Input::Frame(Frame::Close, 1), Input::Stopped, Input::Tick(50)],
        vec![Input::Error, Input::Frame(Frame::Close, 1), Input::Stopped],
        vec![Input::Stopped, Input::Stopped, Input::Frame(Frame::Close, 2)],
        vec![Input::Tick(11), Input::Frame(Frame::Close, 12), Input::Error, Input::Stopped],
    ];
    for script in scripts {
        let mut conn = started(6, 0);
        let mut leaves = 0;
        for input in script {
            for action in conn.step(input) {
                if action == Action::Notify(Request::Leave(6)) {
                    leaves += 1;
                }
            }
        }
        assert_eq!(leaves, 1);
        assert_eq!(conn.phase(), Phase::Closed);
    }
}

#[test]
fn a_session_that_never_closes_asks_for_no_leave() {
    let mut conn = started(6, 0);
    let inputs = vec![
        Input::Tick(5),
        Input::Frame(Frame::Pong, 6),
        Input::Tick(10),
        Input::Frame(Frame::Text, 11),
        Input::Deliver(Event::PeerJoined),
        Input::Tick(15),
    ];
    for input in inputs {
        for action in conn.step(input) {
            assert!(!matches!(action, Action::Notify(_)));
            assert_ne!(action, Action::Stop);
        }
    }
    assert_eq!(conn.phase(), Phase::Active);
}
