use vstd::prelude::*;
use vstd::string::*;

verus! {

/// A peer known by its address.
pub struct Client {
    addr: String,
}

impl View for Client {
    type V = Seq<char>;

    closed spec fn view(&self) -> Seq<char> {
        self.addr@
    }
}

impl Client {
    pub fn new(addr: &str) -> (client: Self)
        ensures
            client@ == addr@,
    {
        Client { addr: String::from_str(addr) }
    }

    pub fn get_addr(&self) -> (addr: String)
        ensures
            addr@ == self@,
    {
        self.addr.clone()
    }
}

} // verus!
