use super::service_name::ServiceName;
use vstd::prelude::*;

verus! {

/// A fee for some of the three services: a finite map keyed by the service.
/// A fee is held as the 64 bits that encode it.
#[derive(PartialEq, Eq, Clone, Copy, Debug)]
pub struct ServiceFees {
    pub airline: Option<u64>,
    pub hotel: Option<u64>,
    pub bank: Option<u64>,
}

impl View for ServiceFees {
    type V = Map<ServiceName, u64>;

    open spec fn view(&self) -> Map<ServiceName, u64> {
        Map::new(|name: ServiceName| self.spec_get(name) is Some, |name: ServiceName| self.spec_get(name)->0)
    }
}

impl ServiceFees {
    pub open spec fn spec_get(&self, name: ServiceName) -> Option<u64> {
        match name {
            ServiceName::Airline => self.airline,
            ServiceName::Hotel => self.hotel,
            ServiceName::Bank => self.bank,
        }
    }

    pub open spec fn entry(name: ServiceName, fee: Option<u64>) -> Seq<(ServiceName, u64)> {
        match fee {
            Some(fee) => seq![(name, fee)],
            None => Seq::empty(),
        }
    }

    /// What a map holds for one service, if anything.
    pub open spec fn lookup(fees: Map<ServiceName, u64>, name: ServiceName) -> Option<u64> {
        if fees.dom().contains(name) {
            Some(fees[name])
        } else {
            None
        }
    }

    /// The entries of a map in the order Airline, Hotel, Bank.
    pub open spec fn ordered(fees: Map<ServiceName, u64>) -> Seq<(ServiceName, u64)> {
        Self::entry(ServiceName::Airline, Self::lookup(fees, ServiceName::Airline)) + Self::entry(
            ServiceName::Hotel,
            Self::lookup(fees, ServiceName::Hotel),
        ) + Self::entry(ServiceName::Bank, Self::lookup(fees, ServiceName::Bank))
    }

    pub fn new() -> (fees: Self)
        ensures
            fees@ == Map::<ServiceName, u64>::empty(),
            fees == (ServiceFees { airline: None, hotel: None, bank: None }),
    {
        let fees = ServiceFees { airline: None, hotel: None, bank: None };
        assert(fees@ =~= Map::<ServiceName, u64>::empty());
        fees
    }

    pub fn insert(&mut self, name: ServiceName, fee: u64)
        ensures
            final(self)@ == old(self)@.insert(name, fee),
            final(self).spec_get(name) == Some(fee),
            forall|other: ServiceName|
                other != name ==> final(self).spec_get(other) == old(self).spec_get(other),
    {
        match name {
            ServiceName::Airline => {
                self.airline = Some(fee);
            },
            ServiceName::Hotel => {
                self.hotel = Some(fee);
            },
            ServiceName::Bank => {
                self.bank = Some(fee);
            },
        }
        assert(self@ =~= old(self)@.insert(name, fee));
    }

    #[verifier::when_used_as_spec(spec_get)]
    pub fn get(&self, name: ServiceName) -> (fee: Option<u64>)
        ensures
            fee == self.spec_get(name),
            fee is Some <==> self@.dom().contains(name),
            fee is Some ==> self@[name] == fee->0,
    {
        match name {
            ServiceName::Airline => self.airline,
            ServiceName::Hotel => self.hotel,
            ServiceName::Bank => self.bank,
        }
    }

    pub fn contains_key(&self, name: ServiceName) -> (held: bool)
        ensures
            held == self@.dom().contains(name),
    {
        self.get(name).is_some()
    }

    pub fn len(&self) -> (len: usize)
        ensures
            len == Self::ordered(self@).len(),
            len <= 3,
    {
        let mut len: usize = 0;
        if self.airline.is_some() {
            len = len + 1;
        }
        if self.hotel.is_some() {
            len = len + 1;
        }
        if self.bank.is_some() {
            len = len + 1;
        }
        len
    }

    pub fn to_vec(&self) -> (entries: Vec<(ServiceName, u64)>)
        ensures
            entries@ == Self::ordered(self@),
    {
        let mut entries: Vec<(ServiceName, u64)> = Vec::new();
        if let Some(fee) = self.airline {
            entries.push((ServiceName::Airline, fee));
        }
        if let Some(fee) = self.hotel {
            entries.push((ServiceName::Hotel, fee));
        }
        if let Some(fee) = self.bank {
            entries.push((ServiceName::Bank, fee));
        }
        assert(entries@ =~= Self::ordered(self@));
        entries
    }
}

} // verus!
