use vstd::prelude::*;

verus! {

/// The eight bytes of a 64-bit word, most significant first: its digits in
/// base 256.
pub open spec fn be_bytes(word: u64) -> Seq<u8> {
    seq![
        (word / 0x100_0000_0000_0000) as u8,
        (word / 0x1_0000_0000_0000 % 0x100) as u8,
        (word / 0x100_0000_0000 % 0x100) as u8,
        (word / 0x1_0000_0000 % 0x100) as u8,
        (word / 0x100_0000 % 0x100) as u8,
        (word / 0x1_0000 % 0x100) as u8,
        (word / 0x100 % 0x100) as u8,
        (word % 0x100) as u8,
    ]
}

/// The word whose digits in base 256, most significant first, are the first
/// eight of `bytes`.
pub open spec fn be_word(bytes: Seq<u8>) -> u64 {
    (bytes[0] * 0x100_0000_0000_0000 + bytes[1] * 0x1_0000_0000_0000 + bytes[2] * 0x100_0000_0000
        + bytes[3] * 0x1_0000_0000 + bytes[4] * 0x100_0000 + bytes[5] * 0x1_0000 + bytes[6] * 0x100
        + bytes[7]) as u64
}

/// The word that starts at `begin` in `bytes`.
pub open spec fn be_word_at(bytes: Seq<u8>, begin: int) -> u64 {
    be_word(bytes.subrange(begin, begin + 8))
}

/// Reading back the bytes of a word gives the word.
pub proof fn word_round_trip(word: u64)
    ensures
        be_bytes(word).len() == 8,
        be_word(be_bytes(word)) == word,
{
    assert(((word / 0x100_0000_0000_0000) as u8) * 0x100_0000_0000_0000 + ((word
        / 0x1_0000_0000_0000 % 0x100) as u8) * 0x1_0000_0000_0000 + ((word / 0x100_0000_0000
        % 0x100) as u8) * 0x100_0000_0000 + ((word / 0x1_0000_0000 % 0x100) as u8) * 0x1_0000_0000
        + ((word / 0x100_0000 % 0x100) as u8) * 0x100_0000 + ((word / 0x1_0000 % 0x100) as u8)
        * 0x1_0000 + ((word / 0x100 % 0x100) as u8) * 0x100 + ((word % 0x100) as u8) == word)
        by (bit_vector);
}

proof fn digits_of_their_sum(b0: u8, b1: u8, b2: u8, b3: u8, b4: u8, b5: u8, b6: u8, b7: u8)
    by (bit_vector)
    ensures
        ({
            let word = (b0 * 0x100_0000_0000_0000 + b1 * 0x1_0000_0000_0000 + b2 * 0x100_0000_0000
                + b3 * 0x1_0000_0000 + b4 * 0x100_0000 + b5 * 0x1_0000 + b6 * 0x100 + b7) as u64;
            &&& (word / 0x100_0000_0000_0000) as u8 == b0
            &&& (word / 0x1_0000_0000_0000 % 0x100) as u8 == b1
            &&& (word / 0x100_0000_0000 % 0x100) as u8 == b2
            &&& (word / 0x1_0000_0000 % 0x100) as u8 == b3
            &&& (word / 0x100_0000 % 0x100) as u8 == b4
            &&& (word / 0x1_0000 % 0x100) as u8 == b5
            &&& (word / 0x100 % 0x100) as u8 == b6
            &&& (word % 0x100) as u8 == b7
        }),
{
}

/// Writing out the word read from eight bytes gives those bytes.
pub proof fn bytes_round_trip(bytes: Seq<u8>)
    requires
        bytes.len() == 8,
    ensures
        be_bytes(be_word(bytes)) == bytes,
{
    digits_of_their_sum(
        bytes[0],
        bytes[1],
        bytes[2],
        bytes[3],
        bytes[4],
        bytes[5],
        bytes[6],
        bytes[7],
    );
    assert(be_bytes(be_word(bytes)) =~= bytes);
}

/// A word written after `prefix` is read back at the place where it starts.
pub proof fn word_after_prefix(prefix: Seq<u8>, word: u64, suffix: Seq<u8>)
    ensures
        be_word_at(prefix + be_bytes(word) + suffix, prefix.len() as int) == word,
{
    let whole = prefix + be_bytes(word) + suffix;
    assert(whole.subrange(prefix.len() as int, prefix.len() as int + 8) =~= be_bytes(word));
    word_round_trip(word);
}

/// Appends the eight bytes of `word`, most significant first.
pub fn push_word(message: &mut Vec<u8>, word: u64)
    ensures
        final(message)@ == old(message)@ + be_bytes(word),
{
    message.push((word / 0x100_0000_0000_0000) as u8);
    message.push((word / 0x1_0000_0000_0000 % 0x100) as u8);
    message.push((word / 0x100_0000_0000 % 0x100) as u8);
    message.push((word / 0x1_0000_0000 % 0x100) as u8);
    message.push((word / 0x100_0000 % 0x100) as u8);
    message.push((word / 0x1_0000 % 0x100) as u8);
    message.push((word / 0x100 % 0x100) as u8);
    message.push((word % 0x100) as u8);
    assert(message@ =~= old(message)@ + be_bytes(word));
}

/// Reads the word whose eight bytes start at `begin`.
pub fn read_word(message: &[u8], begin: usize) -> (word: u64)
    requires
        begin + 8 <= message@.len(),
    ensures
        word == be_word_at(message@, begin as int),
{
    let b0 = message[begin] as u64;
    let b1 = message[begin + 1] as u64;
    let b2 = message[begin + 2] as u64;
    let b3 = message[begin + 3] as u64;
    let b4 = message[begin + 4] as u64;
    let b5 = message[begin + 5] as u64;
    let b6 = message[begin + 6] as u64;
    let b7 = message[begin + 7] as u64;
    b0 * 0x100_0000_0000_0000 + b1 * 0x1_0000_0000_0000 + b2 * 0x100_0000_0000 + b3 * 0x1_0000_0000
        + b4 * 0x100_0000 + b5 * 0x1_0000 + b6 * 0x100 + b7
}

} // verus!
