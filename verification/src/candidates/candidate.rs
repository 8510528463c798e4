use super::constants::{ANNOUNCE_TIMEOUT, DEFAULT_IP, ELECTION_TIMEOUT, PROBE_TIMEOUT};
use super::election_code::ElectionCode;
use super::election_message::{ElectionMessage, ALIVE_BYTE, ELECTION_BYTE, LEADER_BYTE};
use crate::sockets::datagram::Datagram;
use crate::text::{address, host_of, spec_address, spec_host_of};
use vstd::prelude::*;
use vstd::string::*;

verus! {

/// Where a replica that is not the leader stands between two of its moves.
#[derive(PartialEq, Eq, Structural, Clone, Copy, Debug)]
pub enum Step {
    /// Nothing is under way.
    Idle,
    /// The leader was probed and has yet to answer.
    Probing,
    /// The leader answered; another frame may follow.
    Lingering,
    /// An election is under way: the rival at place `probed` of the ports was
    /// asked, and `unanswered` says that no rival asked so far has answered.
    Electing { probed: usize, unanswered: bool, announce: bool, wait_for_leader: bool },
    /// An election was lost; the winner has yet to announce itself.
    AwaitingLeader,
}

/// What a replica does next: the datagrams to send, in order, and for how many
/// milliseconds to listen for one frame afterwards. With nothing to listen
/// for, the move is over.
pub struct Outcome {
    pub send: Vec<Datagram>,
    pub listen: Option<u64>,
}

impl View for Outcome {
    type V = (Seq<(Seq<char>, Seq<u8>)>, Option<u64>);

    open spec fn view(&self) -> Self::V {
        (Datagram::views(self.send@), self.listen)
    }
}

/// What a replica knows during the election.
pub struct CandidateView {
    pub my_port: u64,
    pub possible_ports: Seq<u64>,
    /// The address of the last known leader, if any is known.
    pub leader_address: Option<Seq<char>>,
    pub im_the_leader: bool,
    pub step: Step,
    /// The host on which the rivals of the election under way are addressed.
    pub host: Seq<char>,
}

impl CandidateView {
    /// The first place at or after `from` whose port has priority over this
    /// replica's: a smaller one. The number of ports if there is none.
    pub open spec fn rival_from(self, from: int) -> int
        decreases self.possible_ports.len() - from,
    {
        if from >= self.possible_ports.len() || self.possible_ports[from] < self.my_port {
            from
        } else {
            self.rival_from(from + 1)
        }
    }

    /// The frame `code` on its way to the port at place `index`.
    pub open spec fn frame_to(self, index: int, code: ElectionCode) -> (Seq<char>, Seq<u8>) {
        (spec_address(self.host, self.possible_ports[index]), ElectionMessage::spec_build(code))
    }

    /// The announcement of a new leader: one frame to every port.
    pub open spec fn communicate_new_leader(self) -> Seq<(Seq<char>, Seq<u8>)> {
        Seq::new(
            self.possible_ports.len(),
            |index: int| self.frame_to(index, ElectionCode::Leader),
        )
    }

    /// The end of an election. With no answer from any rival this replica leads,
    /// and says so to every port if `announce` is set. Otherwise it does not lead,
    /// and waits for the winner to announce itself if `wait_for_leader` is set.
    pub open spec fn conclude(self, unanswered: bool, announce: bool, wait_for_leader: bool) -> (
        CandidateView,
        Seq<(Seq<char>, Seq<u8>)>,
        Option<u64>,
    ) {
        if unanswered {
            (
                CandidateView { im_the_leader: true, step: Step::Idle, ..self },
                if announce {
                    self.communicate_new_leader()
                } else {
                    Seq::empty()
                },
                None,
            )
        } else if wait_for_leader {
            (
                CandidateView { im_the_leader: false, step: Step::AwaitingLeader, ..self },
                Seq::empty(),
                Some(ANNOUNCE_TIMEOUT),
            )
        } else {
            (CandidateView { im_the_leader: false, step: Step::Idle, ..self }, Seq::empty(), None)
        }
    }

    /// The election from place `from` on: the next rival is asked, and the
    /// replica listens for its answer. With no rival left the election ends.
    pub open spec fn continue_election(
        self,
        from: int,
        unanswered: bool,
        announce: bool,
        wait_for_leader: bool,
    ) -> (CandidateView, Seq<(Seq<char>, Seq<u8>)>, Option<u64>) {
        let rival = self.rival_from(from);
        if rival < self.possible_ports.len() {
            (
                CandidateView {
                    step: Step::Electing {
                        probed: rival as usize,
                        unanswered,
                        announce,
                        wait_for_leader,
                    },
                    ..self
                },
                seq![self.frame_to(rival, ElectionCode::Election)],
                Some(ELECTION_TIMEOUT),
            )
        } else {
            self.conclude(unanswered, announce, wait_for_leader)
        }
    }

    /// The start of an election among the ports on the host of `his_address`.
    pub open spec fn start_election(
        self,
        his_address: Seq<char>,
        announce: bool,
        wait_for_leader: bool,
    ) -> (CandidateView, Seq<(Seq<char>, Seq<u8>)>, Option<u64>) {
        (CandidateView { host: spec_host_of(his_address), ..self }).continue_election(
            0,
            true,
            announce,
            wait_for_leader,
        )
    }

    /// The move `rest`, with `first` sent before whatever it sends.
    pub open spec fn after(
        first: (Seq<char>, Seq<u8>),
        rest: (CandidateView, Seq<(Seq<char>, Seq<u8>)>, Option<u64>),
    ) -> (CandidateView, Seq<(Seq<char>, Seq<u8>)>, Option<u64>) {
        (rest.0, seq![first] + rest.1, rest.2)
    }

    /// The address at which the leader is taken to be.
    pub open spec fn leader_or_default(self) -> Seq<char> {
        match self.leader_address {
            Some(leader) => leader,
            None => DEFAULT_IP@,
        }
    }

    /// The first move of a round. With no leader known an election starts at
    /// once. Otherwise the leader is probed.
    pub open spec fn send_to(self) -> (CandidateView, Seq<(Seq<char>, Seq<u8>)>, Option<u64>) {
        match self.leader_address {
            None => self.start_election(DEFAULT_IP@, false, false),
            Some(leader) => (
                CandidateView { step: Step::Probing, ..self },
                seq![(leader, ElectionMessage::spec_build(ElectionCode::Alive))],
                Some(PROBE_TIMEOUT),
            ),
        }
    }

    /// The round is over and nothing changes.
    pub open spec fn rest(self) -> (CandidateView, Seq<(Seq<char>, Seq<u8>)>, Option<u64>) {
        (CandidateView { step: Step::Idle, ..self }, Seq::empty(), None)
    }

    /// The move after listening: `reply` is the frame that came with the address
    /// of its sender, or nothing if the time ran out.
    pub open spec fn recv(self, reply: Option<(Seq<u8>, Seq<char>)>) -> (
        CandidateView,
        Seq<(Seq<char>, Seq<u8>)>,
        Option<u64>,
    ) {
        match self.step {
            Step::Idle => self.rest(),
            Step::Probing => match reply {
                None => self.start_election(self.leader_or_default(), true, true),
                Some((frame, addr)) => if frame.len() == 0 {
                    self.rest()
                } else if frame[0] == ALIVE_BYTE {
                    (
                        CandidateView { step: Step::Lingering, ..self },
                        Seq::empty(),
                        Some(ANNOUNCE_TIMEOUT),
                    )
                } else if frame[0] == ELECTION_BYTE {
                    Self::after(
                        (addr, ElectionMessage::spec_build(ElectionCode::Alive)),
                        self.start_election(addr, true, true),
                    )
                } else if frame[0] == LEADER_BYTE {
                    (CandidateView { leader_address: Some(addr), ..self }).rest()
                } else {
                    self.rest()
                },
            },
            Step::Lingering => match reply {
                None => self.rest(),
                Some((frame, addr)) => Self::after(
                    (addr, ElectionMessage::spec_build(ElectionCode::Alive)),
                    self.start_election(addr, true, false),
                ),
            },
            Step::Electing { probed, unanswered, announce, wait_for_leader } => {
                self.continue_election(
                    probed + 1,
                    unanswered && reply is None,
                    announce,
                    wait_for_leader,
                )
            },
            Step::AwaitingLeader => match reply {
                Some((frame, addr)) => if frame.len() > 0 && frame[0] == LEADER_BYTE {
                    (CandidateView { leader_address: Some(addr), ..self }).rest()
                } else {
                    (self, Seq::empty(), Some(ANNOUNCE_TIMEOUT))
                },
                None => (self, Seq::empty(), Some(ANNOUNCE_TIMEOUT)),
            },
        }
    }

    /// `rival_from` finds the next rival: every port it passes over is at least
    /// this replica's own, and the port it stops at is smaller.
    pub proof fn rival_from_is_next(self, from: int)
        requires
            0 <= from <= self.possible_ports.len(),
        ensures
            from <= self.rival_from(from) <= self.possible_ports.len(),
            forall|i: int|
                from <= i < self.rival_from(from) ==> self.possible_ports[i] >= self.my_port,
            self.rival_from(from) < self.possible_ports.len() ==> self.possible_ports[self.rival_from(
                from,
            )] < self.my_port,
        decreases self.possible_ports.len() - from,
    {
        if from < self.possible_ports.len() && self.possible_ports[from] >= self.my_port {
            self.rival_from_is_next(from + 1);
        }
    }

    /// A replica comes to lead only through an election in which no rival
    /// answered. In the middle of one, the rival asked last stayed silent, as did
    /// all before it, and no port after it has priority. At the start of one, no
    /// port at all has priority over this replica's.
    pub proof fn leadership_needs_silence(self, reply: Option<(Seq<u8>, Seq<char>)>)
        requires
            !self.im_the_leader,
            self.recv(reply).0.im_the_leader,
        ensures
            match self.step {
                Step::Electing { probed, unanswered, .. } => unanswered && reply is None
                    && self.rival_from(probed + 1) >= self.possible_ports.len(),
                _ => forall|i: int|
                    0 <= i < self.possible_ports.len() ==> self.possible_ports[i] >= self.my_port,
            },
    {
        match self.step {
            Step::Probing => {
                match reply {
                    None => {
                        self.no_rival_at_start(self.leader_or_default(), true, true);
                    },
                    Some((frame, addr)) => {
                        if frame.len() > 0 && frame[0] == ELECTION_BYTE {
                            self.no_rival_at_start(addr, true, true);
                        }
                    },
                }
            },
            Step::Lingering => {
                match reply {
                    None => {},
                    Some((frame, addr)) => {
                        self.no_rival_at_start(addr, true, false);
                    },
                }
            },
            _ => {},
        }
    }

    /// The first move of a round makes a replica lead only if no leader is known
    /// and no port has priority over its own.
    pub proof fn first_move_leads_alone(self)
        requires
            !self.im_the_leader,
            self.send_to().0.im_the_leader,
        ensures
            self.leader_address is None,
            forall|i: int|
                0 <= i < self.possible_ports.len() ==> self.possible_ports[i] >= self.my_port,
    {
        self.no_rival_at_start(DEFAULT_IP@, false, false);
    }

    /// Every frame that asks for an election goes to a port with priority over
    /// this replica's own, on the host of the election.
    pub proof fn elections_ask_rivals(
        self,
        from: int,
        unanswered: bool,
        announce: bool,
        wait_for_leader: bool,
    )
        requires
            0 <= from <= self.possible_ports.len() <= usize::MAX,
        ensures
            self.continue_election(from, unanswered, announce, wait_for_leader).0.step matches Step::Electing {
                probed,
                ..
            } ==> from <= probed < self.possible_ports.len() && self.possible_ports[probed as int]
                < self.my_port && self.continue_election(
                from,
                unanswered,
                announce,
                wait_for_leader,
            ).1 == seq![self.frame_to(probed as int, ElectionCode::Election)],
    {
        self.rival_from_is_next(from);
    }

    proof fn rival_ignores_the_host(self, host: Seq<char>, from: int)
        ensures
            (CandidateView { host, ..self }).rival_from(from) == self.rival_from(from),
        decreases self.possible_ports.len() - from,
    {
        if !(from >= self.possible_ports.len() || self.possible_ports[from] < self.my_port) {
            self.rival_ignores_the_host(host, from + 1);
        }
    }

    proof fn no_rival_at_start(self, his_address: Seq<char>, announce: bool, wait_for_leader: bool)
        requires
            !self.im_the_leader,
            self.start_election(his_address, announce, wait_for_leader).0.im_the_leader,
        ensures
            forall|i: int|
                0 <= i < self.possible_ports.len() ==> self.possible_ports[i] >= self.my_port,
    {
        self.rival_ignores_the_host(spec_host_of(his_address), 0);
        self.rival_from_is_next(0);
    }
}

/// A replica that is not the leader: what it knows, and where it stands.
pub struct Candidate {
    my_port: u64,
    possible_ports: Vec<u64>,
    leader_address: Option<String>,
    im_the_leader: bool,
    step: Step,
    host: String,
}

impl View for Candidate {
    type V = CandidateView;

    closed spec fn view(&self) -> CandidateView {
        CandidateView {
            my_port: self.my_port,
            possible_ports: self.possible_ports@,
            leader_address: Candidate::address_view(self.leader_address),
            im_the_leader: self.im_the_leader,
            step: self.step,
            host: self.host@,
        }
    }
}

impl Candidate {
    pub open spec fn address_view(address: Option<String>) -> Option<Seq<char>> {
        match address {
            Some(address) => Some(address@),
            None => None,
        }
    }

    pub open spec fn reply_view(reply: Option<(Vec<u8>, String)>) -> Option<(Seq<u8>, Seq<char>)> {
        match reply {
            Some((frame, addr)) => Some((frame@, addr@)),
            None => None,
        }
    }

    /// A replica between rounds that does not lead. `leader_address` is the address
    /// of the leader, if one is known.
    pub fn new(my_port: u64, possible_ports: Vec<u64>, leader_address: Option<String>) -> (candidate:
        Self)
        ensures
            candidate@ == (CandidateView {
                my_port,
                possible_ports: possible_ports@,
                leader_address: Self::address_view(leader_address),
                im_the_leader: false,
                step: Step::Idle,
                host: Seq::empty(),
            }),
    {
        Candidate {
            my_port,
            possible_ports,
            leader_address,
            im_the_leader: false,
            step: Step::Idle,
            host: String::new(),
        }
    }

    pub fn im_the_leader(&self) -> (leads: bool)
        ensures
            leads == self@.im_the_leader,
    {
        self.im_the_leader
    }

    pub fn step(&self) -> (step: Step)
        ensures
            step == self@.step,
    {
        self.step
    }

    pub fn leader_address(&self) -> (leader: Option<String>)
        ensures
            Self::address_view(leader) == self@.leader_address,
    {
        match &self.leader_address {
            Some(leader) => Some(leader.clone()),
            None => None,
        }
    }

    fn leader_or_default(&self) -> (leader: String)
        ensures
            leader@ == self@.leader_or_default(),
    {
        match &self.leader_address {
            Some(leader) => leader.clone(),
            None => String::from_str(DEFAULT_IP),
        }
    }

    fn frame_to(&self, index: usize, code: ElectionCode) -> (frame: Datagram)
        requires
            index < self.possible_ports.len(),
        ensures
            frame@ == self@.frame_to(index as int, code),
    {
        Datagram::new(
            address(self.host.as_str(), self.possible_ports[index]),
            ElectionMessage::build(code),
        )
    }

    fn communicate_new_leader(&self) -> (frames: Vec<Datagram>)
        ensures
            Datagram::views(frames@) == self@.communicate_new_leader(),
    {
        let mut frames: Vec<Datagram> = Vec::new();
        let mut index: usize = 0;
        while index < self.possible_ports.len()
            invariant
                index <= self.possible_ports.len(),
                frames@.len() == index,
                forall|i: int|
                    0 <= i < index ==> (#[trigger] frames@[i])@ == self@.frame_to(
                        i,
                        ElectionCode::Leader,
                    ),
            decreases self.possible_ports.len() - index,
        {
            let frame = self.frame_to(index, ElectionCode::Leader);
            frames.push(frame);
            index = index + 1;
        }
        assert(Datagram::views(frames@) =~= self@.communicate_new_leader());
        frames
    }

    fn conclude(&mut self, unanswered: bool, announce: bool, wait_for_leader: bool) -> (outcome:
        Outcome)
        ensures
            final(self)@ == old(self)@.conclude(unanswered, announce, wait_for_leader).0,
            outcome@ == (
                old(self)@.conclude(unanswered, announce, wait_for_leader).1,
                old(self)@.conclude(unanswered, announce, wait_for_leader).2,
            ),
    {
        if unanswered {
            let send = if announce {
                self.communicate_new_leader()
            } else {
                Vec::new()
            };
            self.im_the_leader = true;
            self.step = Step::Idle;
            assert(Datagram::views(send@) =~= old(self)@.conclude(
                unanswered,
                announce,
                wait_for_leader,
            ).1);
            Outcome { send, listen: None }
        } else if wait_for_leader {
            self.im_the_leader = false;
            self.step = Step::AwaitingLeader;
            let send: Vec<Datagram> = Vec::new();
            assert(Datagram::views(send@) =~= Seq::empty());
            Outcome { send, listen: Some(ANNOUNCE_TIMEOUT) }
        } else {
            self.im_the_leader = false;
            self.step = Step::Idle;
            let send: Vec<Datagram> = Vec::new();
            assert(Datagram::views(send@) =~= Seq::empty());
            Outcome { send, listen: None }
        }
    }

    fn continue_election(
        &mut self,
        from: usize,
        unanswered: bool,
        announce: bool,
        wait_for_leader: bool,
    ) -> (outcome: Outcome)
        requires
            from <= old(self).possible_ports.len(),
        ensures
            final(self)@ == old(self)@.continue_election(
                from as int,
                unanswered,
                announce,
                wait_for_leader,
            ).0,
            outcome@ == (
                old(self)@.continue_election(from as int, unanswered, announce, wait_for_leader).1,
                old(self)@.continue_election(from as int, unanswered, announce, wait_for_leader).2,
            ),
    {
        let mut rival = from;
        while rival < self.possible_ports.len() && self.possible_ports[rival] >= self.my_port
            invariant
                from <= rival <= self.possible_ports.len(),
                self@.rival_from(from as int) == self@.rival_from(rival as int),
            decreases self.possible_ports.len() - rival,
        {
            rival = rival + 1;
        }
        if rival < self.possible_ports.len() {
            let probe = self.frame_to(rival, ElectionCode::Election);
            let mut send: Vec<Datagram> = Vec::new();
            send.push(probe);
            self.step = Step::Electing { probed: rival, unanswered, announce, wait_for_leader };
            assert(Datagram::views(send@) =~= seq![
                old(self)@.frame_to(rival as int, ElectionCode::Election),
            ]);
            Outcome { send, listen: Some(ELECTION_TIMEOUT) }
        } else {
            self.conclude(unanswered, announce, wait_for_leader)
        }
    }

    fn start_election(&mut self, his_address: &str, announce: bool, wait_for_leader: bool) -> (outcome:
        Outcome)
        ensures
            final(self)@ == old(self)@.start_election(his_address@, announce, wait_for_leader).0,
            outcome@ == (
                old(self)@.start_election(his_address@, announce, wait_for_leader).1,
                old(self)@.start_election(his_address@, announce, wait_for_leader).2,
            ),
    {
        self.host = host_of(his_address);
        self.continue_election(0, true, announce, wait_for_leader)
    }

    fn answer_and_start_election(&mut self, addr: String, wait_for_leader: bool) -> (outcome:
        Outcome)
        ensures
            final(self)@ == old(self)@.start_election(addr@, true, wait_for_leader).0,
            outcome@ == (
                CandidateView::after(
                    (addr@, ElectionMessage::spec_build(ElectionCode::Alive)),
                    old(self)@.start_election(addr@, true, wait_for_leader),
                ).1,
                old(self)@.start_election(addr@, true, wait_for_leader).2,
            ),
    {
        let mut outcome = self.start_election(addr.as_str(), true, wait_for_leader);
        let ghost asked = outcome.send@;
        let alive = Datagram::new(addr, ElectionMessage::build(ElectionCode::Alive));
        outcome.send.insert(0, alive);
        assert(Datagram::views(outcome.send@) =~= seq![alive@] + Datagram::views(asked));
        outcome
    }

    fn rest(&mut self) -> (outcome: Outcome)
        ensures
            final(self)@ == old(self)@.rest().0,
            outcome@ == (old(self)@.rest().1, old(self)@.rest().2),
    {
        self.step = Step::Idle;
        let send: Vec<Datagram> = Vec::new();
        assert(Datagram::views(send@) =~= Seq::empty());
        Outcome { send, listen: None }
    }

    fn listen_on(&mut self, step: Step) -> (outcome: Outcome)
        ensures
            final(self)@ == (CandidateView { step, ..old(self)@ }),
            outcome@ == (Seq::<(Seq<char>, Seq<u8>)>::empty(), Some(ANNOUNCE_TIMEOUT)),
    {
        self.step = step;
        let send: Vec<Datagram> = Vec::new();
        assert(Datagram::views(send@) =~= Seq::empty());
        Outcome { send, listen: Some(ANNOUNCE_TIMEOUT) }
    }

    /// The first move of a round: an election if no leader is known, else a
    /// probe of the leader.
    pub fn send_to(&mut self) -> (outcome: Outcome)
        ensures
            final(self)@ == old(self)@.send_to().0,
            outcome@ == (old(self)@.send_to().1, old(self)@.send_to().2),
    {
        if self.leader_address.is_none() {
            self.start_election(DEFAULT_IP, false, false)
        } else {
            let leader = self.leader_or_default();
            let probe = Datagram::new(leader, ElectionMessage::build(ElectionCode::Alive));
            let mut send: Vec<Datagram> = Vec::new();
            send.push(probe);
            self.step = Step::Probing;
            assert(Datagram::views(send@) =~= seq![probe@]);
            Outcome { send, listen: Some(PROBE_TIMEOUT) }
        }
    }

    /// The move after listening: `reply` is the frame that came with the address
    /// of its sender, or nothing if the time ran out.
    pub fn recv(&mut self, reply: Option<(Vec<u8>, String)>) -> (outcome: Outcome)
        ensures
            final(self)@ == old(self)@.recv(Self::reply_view(reply)).0,
            outcome@ == (
                old(self)@.recv(Self::reply_view(reply)).1,
                old(self)@.recv(Self::reply_view(reply)).2,
            ),
    {
        match self.step {
            Step::Idle => self.rest(),
            Step::Probing => match reply {
                None => {
                    let leader = self.leader_or_default();
                    self.start_election(leader.as_str(), true, true)
                },
                Some((frame, addr)) => {
                    if frame.len() == 0 {
                        self.rest()
                    } else if frame[0] == ALIVE_BYTE {
                        self.listen_on(Step::Lingering)
                    } else if frame[0] == ELECTION_BYTE {
                        self.answer_and_start_election(addr, true)
                    } else if frame[0] == LEADER_BYTE {
                        self.leader_address = Some(addr);
                        self.rest()
                    } else {
                        self.rest()
                    }
                },
            },
            Step::Lingering => match reply {
                None => self.rest(),
                Some((frame, addr)) => self.answer_and_start_election(addr, false),
            },
            Step::Electing { probed, unanswered, announce, wait_for_leader } => {
                if probed < self.possible_ports.len() {
                    self.continue_election(
                        probed + 1,
                        unanswered && reply.is_none(),
                        announce,
                        wait_for_leader,
                    )
                } else {
                    self.conclude(unanswered && reply.is_none(), announce, wait_for_leader)
                }
            },
            Step::AwaitingLeader => match reply {
                Some((frame, addr)) => {
                    if frame.len() > 0 && frame[0] == LEADER_BYTE {
                        self.leader_address = Some(addr);
                        self.rest()
                    } else {
                        self.listen_on(Step::AwaitingLeader)
                    }
                },
                None => self.listen_on(Step::AwaitingLeader),
            },
        }
    }
}

} // verus!
