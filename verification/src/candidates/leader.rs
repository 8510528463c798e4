use super::election_code::ElectionCode;
use super::election_message::{ElectionMessage, ALIVE_BYTE, ELECTION_BYTE, FIRST_BYTE};
use crate::sockets::datagram::Datagram;
use crate::text::{address, host_of, spec_address, spec_host_of};
use vstd::prelude::*;
use vstd::string::*;

verus! {

/// The replica that leads, as the other replicas see it.
pub struct Leader {
    possible_ports: Vec<u64>,
}

impl View for Leader {
    type V = Seq<u64>;

    closed spec fn view(&self) -> Seq<u64> {
        self.possible_ports@
    }
}

impl Leader {
    /// The announcement of the leader on the host of `addr`: one frame to every port.
    pub open spec fn spec_announce(ports: Seq<u64>, addr: Seq<char>) -> Seq<(Seq<char>, Seq<u8>)> {
        Seq::new(
            ports.len(),
            |index: int|
                (
                    spec_address(spec_host_of(addr), ports[index]),
                    ElectionMessage::spec_build(ElectionCode::Leader),
                ),
        )
    }

    /// What the leader answers to one frame. A first contact learns who leads, a
    /// probe is answered in kind, and a call for an election has every port
    /// told who leads. Any other frame is left unanswered.
    pub open spec fn spec_recv(ports: Seq<u64>, frame: Seq<u8>, addr: Seq<char>) -> Seq<
        (Seq<char>, Seq<u8>),
    > {
        if frame.len() == 0 {
            Seq::empty()
        } else if frame[0] == FIRST_BYTE {
            seq![(addr, ElectionMessage::spec_build(ElectionCode::Leader))]
        } else if frame[0] == ALIVE_BYTE {
            seq![(addr, ElectionMessage::spec_build(ElectionCode::Alive))]
        } else if frame[0] == ELECTION_BYTE {
            Self::spec_announce(ports, addr)
        } else {
            Seq::empty()
        }
    }

    pub fn new(possible_ports: Vec<u64>) -> (leader: Self)
        ensures
            leader@ == possible_ports@,
    {
        Leader { possible_ports }
    }

    fn announce(&self, addr: &str) -> (frames: Vec<Datagram>)
        ensures
            Datagram::views(frames@) == Self::spec_announce(self@, addr@),
    {
        let host = host_of(addr);
        let mut frames: Vec<Datagram> = Vec::new();
        let mut index: usize = 0;
        while index < self.possible_ports.len()
            invariant
                index <= self.possible_ports.len(),
                frames@.len() == index,
                host@ == spec_host_of(addr@),
                forall|i: int|
                    0 <= i < index ==> (#[trigger] frames@[i])@ == (
                        spec_address(host@, self.possible_ports@[i]),
                        ElectionMessage::spec_build(ElectionCode::Leader),
                    ),
            decreases self.possible_ports.len() - index,
        {
            let frame = Datagram::new(
                address(host.as_str(), self.possible_ports[index]),
                ElectionMessage::build(ElectionCode::Leader),
            );
            frames.push(frame);
            index = index + 1;
        }
        assert(Datagram::views(frames@) =~= Self::spec_announce(self@, addr@));
        frames
    }

    /// The datagrams with which the leader answers the frame `frame` that came
    /// from `addr`, in the order in which to send them.
    pub fn recv(&self, frame: &[u8], addr: &str) -> (answers: Vec<Datagram>)
        ensures
            Datagram::views(answers@) == Self::spec_recv(self@, frame@, addr@),
    {
        let mut answers: Vec<Datagram> = Vec::new();
        if frame.len() == 0 {
            assert(Datagram::views(answers@) =~= Seq::empty());
        } else if frame[0] == FIRST_BYTE {
            let answer = Datagram::new(
                String::from_str(addr),
                ElectionMessage::build(ElectionCode::Leader),
            );
            answers.push(answer);
            assert(Datagram::views(answers@) =~= seq![answer@]);
        } else if frame[0] == ALIVE_BYTE {
            let answer = Datagram::new(
                String::from_str(addr),
                ElectionMessage::build(ElectionCode::Alive),
            );
            answers.push(answer);
            assert(Datagram::views(answers@) =~= seq![answer@]);
        } else if frame[0] == ELECTION_BYTE {
            answers = self.announce(addr);
        } else {
            assert(Datagram::views(answers@) =~= Seq::empty());
        }
        answers
    }
}

} // verus!
