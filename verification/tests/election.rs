use tp::candidates::candidate::{Candidate, Step};
use tp::candidates::election_code::ElectionCode;
use tp::candidates::election_message::ElectionMessage;
use tp::candidates::leader::Leader;
use tp::sockets::datagram::Datagram;

fn frame(addr: &str, code: ElectionCode) -> Datagram {
    Datagram::new(addr.to_string(), ElectionMessage::build(code))
}

fn reply(byte: u8, addr: &str) -> Option<(Vec<u8>, String)> {
    Some((vec![byte], addr.to_string()))
}

#[test]
fn a_lone_replica_with_no_leader_leads_without_asking() {
    let mut candidate = Candidate::new(49354, vec![49354, 49355], None);
    assert!(!candidate.im_the_leader());
    let outcome = candidate.send_to();
    assert!(outcome.send.is_empty());
    assert_eq!(outcome.listen, None);
    assert!(candidate.im_the_leader());
    assert_eq!(candidate.step(), Step::Idle);
}

#[test]
fn with_no_leader_every_port_below_is_asked_in_turn() {
    let mut candidate = Candidate::new(49355, vec![49353, 49354, 49355, 49356, 49352], None);
    let outcome = candidate.send_to();
    assert_eq!(outcome.send, vec![frame("127.0.0.1:49353", ElectionCode::Election)]);
    assert_eq!(outcome.listen, Some(100));
    assert_eq!(
        candidate.step(),
        Step::Electing { probed: 0, unanswered: true, announce: false, wait_for_leader: false }
    );

    let outcome = candidate.recv(None);
    assert_eq!(outcome.send, vec![frame("127.0.0.1:49354", ElectionCode::Election)]);
    assert_eq!(outcome.listen, Some(100));

    let outcome = candidate.recv(None);
    assert_eq!(outcome.send, vec![frame("127.0.0.1:49352", ElectionCode::Election)]);

    let outcome = candidate.recv(None);
    assert!(outcome.send.is_empty());
    assert_eq!(outcome.listen, None);
    assert!(candidate.im_the_leader());
}

#[test]
fn any_answer_from_a_rival_loses_the_election() {
    let mut candidate = Candidate::new(49355, vec![49353, 49354], None);
    candidate.send_to();
    let outcome = candidate.recv(reply(b'v', "127.0.0.1:49353"));
    assert_eq!(outcome.send, vec![frame("127.0.0.1:49354", ElectionCode::Election)]);
    let outcome = candidate.recv(None);
    assert!(outcome.send.is_empty());
    assert_eq!(outcome.listen, None);
    assert!(!candidate.im_the_leader());
    assert_eq!(candidate.step(), Step::Idle);
}

#[test]
fn a_known_leader_is_probed() {
    let mut candidate = Candidate::new(49355, vec![49354], Some("10.0.0.7:49354".to_string()));
    let outcome = candidate.send_to();
    assert_eq!(outcome.send, vec![frame("10.0.0.7:49354", ElectionCode::Alive)]);
    assert_eq!(outcome.listen, Some(1000));
    assert_eq!(candidate.step(), Step::Probing);

    let outcome = candidate.recv(reply(b'v', "10.0.0.7:49354"));
    assert!(outcome.send.is_empty());
    assert_eq!(outcome.listen, Some(10000));
    assert_eq!(candidate.step(), Step::Lingering);

    let outcome = candidate.recv(None);
    assert!(outcome.send.is_empty());
    assert_eq!(outcome.listen, None);
    assert!(!candidate.im_the_leader());
    assert_eq!(candidate.leader_address(), Some("10.0.0.7:49354".to_string()));
}

#[test]
fn a_silent_leader_is_replaced_and_the_winner_tells_every_port() {
    let mut candidate =
        Candidate::new(49354, vec![49353, 49354, 49355], Some("10.0.0.7:49353".to_string()));
    candidate.send_to();
    let outcome = candidate.recv(None);
    assert_eq!(outcome.send, vec![frame("10.0.0.7:49353", ElectionCode::Election)]);
    assert_eq!(outcome.listen, Some(100));

    let outcome = candidate.recv(None);
    assert_eq!(
        outcome.send,
        vec![
            frame("10.0.0.7:49353", ElectionCode::Leader),
            frame("10.0.0.7:49354", ElectionCode::Leader),
            frame("10.0.0.7:49355", ElectionCode::Leader),
        ]
    );
    assert_eq!(outcome.listen, None);
    assert!(candidate.im_the_leader());
}

#[test]
fn a_loser_waits_for_the_announcement_of_the_leader() {
    let mut candidate =
        Candidate::new(49354, vec![49353, 49354], Some("10.0.0.7:49353".to_string()));
    candidate.send_to();
    candidate.recv(None);
    let outcome = candidate.recv(reply(b'v', "10.0.0.7:49353"));
    assert!(outcome.send.is_empty());
    assert_eq!(outcome.listen, Some(10000));
    assert_eq!(candidate.step(), Step::AwaitingLeader);
    assert!(!candidate.im_the_leader());

    let outcome = candidate.recv(None);
    assert_eq!(outcome.listen, Some(10000));
    let outcome = candidate.recv(reply(b'e', "10.0.0.9:49399"));
    assert_eq!(outcome.listen, Some(10000));
    assert_eq!(candidate.step(), Step::AwaitingLeader);

    let outcome = candidate.recv(reply(b'l', "10.0.0.8:49353"));
    assert!(outcome.send.is_empty());
    assert_eq!(outcome.listen, None);
    assert_eq!(candidate.step(), Step::Idle);
    assert_eq!(candidate.leader_address(), Some("10.0.0.8:49353".to_string()));
}

#[test]
fn a_call_for_an_election_is_answered_before_rivals_are_asked() {
    let mut candidate =
        Candidate::new(49355, vec![49353, 49354], Some("10.0.0.7:49353".to_string()));
    candidate.send_to();
    let outcome = candidate.recv(reply(b'e', "10.0.0.9:49356"));
    assert_eq!(
        outcome.send,
        vec![
            frame("10.0.0.9:49356", ElectionCode::Alive),
            frame("10.0.0.9:49353", ElectionCode::Election),
        ]
    );
    assert_eq!(outcome.listen, Some(100));
}

#[test]
fn an_announcement_replaces_the_leader() {
    let mut candidate = Candidate::new(49355, vec![49353], Some("10.0.0.7:49353".to_string()));
    candidate.send_to();
    let outcome = candidate.recv(reply(b'l', "10.0.0.8:49354"));
    assert!(outcome.send.is_empty());
    assert_eq!(outcome.listen, None);
    assert_eq!(candidate.leader_address(), Some("10.0.0.8:49354".to_string()));
    assert!(!candidate.im_the_leader());
}

#[test]
fn a_frame_after_the_leaders_answer_starts_an_election() {
    let mut candidate = Candidate::new(49353, vec![49353, 49354], Some("10.0.0.7:49354".to_string()));
    candidate.send_to();
    candidate.recv(reply(b'v', "10.0.0.7:49354"));
    let outcome = candidate.recv(reply(b'x', "10.0.0.9:49354"));
    assert_eq!(
        outcome.send,
        vec![
            frame("10.0.0.9:49354", ElectionCode::Alive),
            frame("10.0.0.9:49353", ElectionCode::Leader),
            frame("10.0.0.9:49354", ElectionCode::Leader),
        ]
    );
    assert_eq!(outcome.listen, None);
    assert!(candidate.im_the_leader());
}

#[test]
fn unknown_and_empty_frames_end_the_round() {
    for frame in [vec![b'?'], vec![]] {
        let mut candidate = Candidate::new(49355, vec![49353], Some("10.0.0.7:49353".to_string()));
        candidate.send_to();
        let outcome = candidate.recv(Some((frame, "10.0.0.7:49353".to_string())));
        assert!(outcome.send.is_empty());
        assert_eq!(outcome.listen, None);
        assert_eq!(candidate.step(), Step::Idle);
    }
    let mut idle = Candidate::new(1, vec![], None);
    let outcome = idle.recv(reply(b'l', "a:1"));
    assert!(outcome.send.is_empty());
    assert_eq!(idle.leader_address(), None);
}

#[test]
fn leader_answers_probes_first_contacts_and_elections() {
    let leader = Leader::new(vec![49354, 49355]);
    assert_eq!(
        leader.recv(&[b'f'], "10.0.0.9:49400"),
        vec![frame("10.0.0.9:49400", ElectionCode::Leader)]
    );
    assert_eq!(
        leader.recv(&[b'v'], "10.0.0.9:49400"),
        vec![frame("10.0.0.9:49400", ElectionCode::Alive)]
    );
    assert_eq!(
        leader.recv(&[b'e'], "10.0.0.9:49400"),
        vec![
            frame("10.0.0.9:49354", ElectionCode::Leader),
            frame("10.0.0.9:49355", ElectionCode::Leader),
        ]
    );
    assert!(leader.recv(&[b'l'], "10.0.0.9:49400").is_empty());
    assert!(leader.recv(&[], "10.0.0.9:49400").is_empty());
}
