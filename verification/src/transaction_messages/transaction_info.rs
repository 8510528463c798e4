use vstd::prelude::*;

verus! {

/// Number of bytes of every frame that the receiver reads.
pub const INFO_SIZE: usize = 36;

/// The envelope shared by answers, snapshots and retries.
pub struct TransactionInfo;

impl TransactionInfo {
    /// `message` followed by as many zero bytes as it lacks to fill the envelope.
    pub open spec fn spec_add_padding(message: Seq<u8>) -> Seq<u8> {
        if message.len() < INFO_SIZE {
            message + Seq::new((INFO_SIZE - message.len()) as nat, |i: int| 0u8)
        } else {
            message
        }
    }

    pub fn size() -> (size: usize)
        ensures
            size == INFO_SIZE,
    {
        INFO_SIZE
    }

    pub fn add_padding(message: &mut Vec<u8>)
        ensures
            final(message)@ == Self::spec_add_padding(old(message)@),
            old(message)@.len() <= INFO_SIZE ==> final(message)@.len() == INFO_SIZE,
    {
        while message.len() < INFO_SIZE
            invariant
                old(message)@.len() <= message@.len(),
                old(message)@.len() < INFO_SIZE ==> message@.len() <= INFO_SIZE,
                old(message)@.len() >= INFO_SIZE ==> message@.len() == old(message)@.len(),
                message@.subrange(0, old(message)@.len() as int) == old(message)@,
                forall|i: int| old(message)@.len() <= i < message@.len() ==> message@[i] == 0u8,
            decreases INFO_SIZE - message@.len(),
        {
            message.push(0);
        }
        assert(message@ =~= Self::spec_add_padding(old(message)@));
    }
}

} // verus!
