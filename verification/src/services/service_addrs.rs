use super::service_name::ServiceName;
use vstd::prelude::*;
use vstd::string::*;

verus! {

/// The address of each of the three services.
#[derive(PartialEq, Eq, Clone, Debug)]
pub struct ServiceAddrs {
    pub airline: String,
    pub hotel: String,
    pub bank: String,
}

impl View for ServiceAddrs {
    type V = Map<ServiceName, Seq<char>>;

    open spec fn view(&self) -> Map<ServiceName, Seq<char>> {
        Map::new(|name: ServiceName| true, |name: ServiceName| self.spec_get(name))
    }
}

impl ServiceAddrs {
    pub open spec fn spec_get(&self, name: ServiceName) -> Seq<char> {
        match name {
            ServiceName::Airline => self.airline@,
            ServiceName::Hotel => self.hotel@,
            ServiceName::Bank => self.bank@,
        }
    }

    /// The service that answers from `addr`: the first of Airline, Hotel, Bank
    /// whose address it is.
    pub open spec fn spec_service_of(&self, addr: Seq<char>) -> Option<ServiceName> {
        if addr == self.airline@ {
            Some(ServiceName::Airline)
        } else if addr == self.hotel@ {
            Some(ServiceName::Hotel)
        } else if addr == self.bank@ {
            Some(ServiceName::Bank)
        } else {
            None
        }
    }

    pub fn new(airline: &str, hotel: &str, bank: &str) -> (addrs: Self)
        ensures
            addrs.spec_get(ServiceName::Airline) == airline@,
            addrs.spec_get(ServiceName::Hotel) == hotel@,
            addrs.spec_get(ServiceName::Bank) == bank@,
    {
        ServiceAddrs {
            airline: String::from_str(airline),
            hotel: String::from_str(hotel),
            bank: String::from_str(bank),
        }
    }

    pub fn get(&self, name: ServiceName) -> (addr: String)
        ensures
            addr@ == self.spec_get(name),
            addr@ == self@[name],
    {
        match name {
            ServiceName::Airline => self.airline.clone(),
            ServiceName::Hotel => self.hotel.clone(),
            ServiceName::Bank => self.bank.clone(),
        }
    }

    pub fn service_of(&self, addr: &str) -> (name: Option<ServiceName>)
        ensures
            name == self.spec_service_of(addr@),
            name matches Some(name) ==> self.spec_get(name) == addr@,
            name is None ==> forall|other: ServiceName| self.spec_get(other) != addr@,
    {
        let addr = String::from_str(addr);
        if addr == self.airline {
            Some(ServiceName::Airline)
        } else if addr == self.hotel {
            Some(ServiceName::Hotel)
        } else if addr == self.bank {
            Some(ServiceName::Bank)
        } else {
            None
        }
    }
}

} // verus!
