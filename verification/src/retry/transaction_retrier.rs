use crate::alglobo::transactionable::{TransactionView, Transactionable};
use crate::sockets::datagram::Datagram;
use vstd::prelude::*;

verus! {

/// Asks every replica to run a booking again.
pub struct TransactionRetrier {
    replicas_addrs: Vec<String>,
}

impl View for TransactionRetrier {
    type V = Seq<Seq<char>>;

    closed spec fn view(&self) -> Seq<Seq<char>> {
        Self::addrs_view(self.replicas_addrs@)
    }
}

impl TransactionRetrier {
    pub open spec fn addrs_view(addrs: Seq<String>) -> Seq<Seq<char>> {
        addrs.map_values(|addr: String| addr@)
    }

    /// The retry of a booking on its way to every replica, in their order.
    pub open spec fn spec_process(replicas_addrs: Seq<Seq<char>>, transaction: TransactionView) -> Seq<
        (Seq<char>, Seq<u8>),
    > {
        replicas_addrs.map_values(|addr: Seq<char>| (addr, transaction.retry()))
    }

    pub fn new(replicas_addrs: Vec<String>) -> (retrier: Self)
        ensures
            retrier@ == Self::addrs_view(replicas_addrs@),
    {
        TransactionRetrier { replicas_addrs }
    }

    /// One retry of `transaction` for every replica. No answer is expected.
    pub fn process<T: Transactionable>(&self, transaction: &T) -> (retries: Vec<Datagram>)
        ensures
            Datagram::views(retries@) == Self::spec_process(self@, transaction.model()),
            retries@.len() == self@.len(),
    {
        let msg = transaction.retry();
        let mut retries: Vec<Datagram> = Vec::new();
        let mut index: usize = 0;
        while index < self.replicas_addrs.len()
            invariant
                index <= self.replicas_addrs.len(),
                retries@.len() == index,
                msg@ == transaction.model().retry(),
                forall|i: int|
                    0 <= i < index ==> (#[trigger] retries@[i])@ == (
                        self.replicas_addrs@[i]@,
                        transaction.model().retry(),
                    ),
            decreases self.replicas_addrs.len() - index,
        {
            let retry = Datagram::new(self.replicas_addrs[index].clone(), msg.clone());
            retries.push(retry);
            index = index + 1;
        }
        assert(Datagram::views(retries@) =~= Self::spec_process(self@, transaction.model()));
        retries
    }
}

} // verus!
