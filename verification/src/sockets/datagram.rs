use vstd::prelude::*;

verus! {

/// A message on its way to an address.
#[derive(PartialEq, Eq, Clone, Debug)]
pub struct Datagram {
    pub addr: String,
    pub payload: Vec<u8>,
}

impl View for Datagram {
    type V = (Seq<char>, Seq<u8>);

    open spec fn view(&self) -> (Seq<char>, Seq<u8>) {
        (self.addr@, self.payload@)
    }
}

impl Datagram {
    pub fn new(addr: String, payload: Vec<u8>) -> (datagram: Self)
        ensures
            datagram@ == (addr@, payload@),
    {
        Datagram { addr, payload }
    }

    /// What a list of datagrams stands for: address and payload of each, in order.
    pub open spec fn views(datagrams: Seq<Datagram>) -> Seq<(Seq<char>, Seq<u8>)> {
        datagrams.map_values(|datagram: Datagram| datagram@)
    }
}

} // verus!
