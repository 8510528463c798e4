use vstd::prelude::*;
use vstd::string::*;

verus! {

/// The numeral of one digit.
pub open spec fn digit_text(digit: int) -> Seq<char> {
    if digit == 0 {
        "0"@
    } else if digit == 1 {
        "1"@
    } else if digit == 2 {
        "2"@
    } else if digit == 3 {
        "3"@
    } else if digit == 4 {
        "4"@
    } else if digit == 5 {
        "5"@
    } else if digit == 6 {
        "6"@
    } else if digit == 7 {
        "7"@
    } else if digit == 8 {
        "8"@
    } else {
        "9"@
    }
}

/// A number written in base ten, without sign or leading zeros.
pub open spec fn decimal(number: nat) -> Seq<char>
    decreases number,
{
    if number < 10 {
        digit_text(number as int)
    } else {
        decimal(number / 10) + digit_text((number % 10) as int)
    }
}

fn digit_str(digit: u64) -> (text: &'static str)
    requires
        digit < 10,
    ensures
        text@ == digit_text(digit as int),
{
    if digit == 0 {
        "0"
    } else if digit == 1 {
        "1"
    } else if digit == 2 {
        "2"
    } else if digit == 3 {
        "3"
    } else if digit == 4 {
        "4"
    } else if digit == 5 {
        "5"
    } else if digit == 6 {
        "6"
    } else if digit == 7 {
        "7"
    } else if digit == 8 {
        "8"
    } else {
        "9"
    }
}

/// Writes a number in base ten.
pub fn decimal_string(number: u64) -> (text: String)
    ensures
        text@ == decimal(number as nat),
    decreases number,
{
    if number < 10 {
        String::from_str(digit_str(number))
    } else {
        let mut text = decimal_string(number / 10);
        text.append(digit_str(number % 10));
        text
    }
}

/// The host of an address: what stands before its first colon.
pub open spec fn spec_host_of(addr: Seq<char>) -> Seq<char> {
    addr.subrange(0, mark_from(addr, ':', 0))
}

/// The address of a port on a host.
pub open spec fn spec_address(host: Seq<char>, port: u64) -> Seq<char> {
    host + ":"@ + decimal(port as nat)
}

/// The address of a port on a host.
pub fn address(host: &str, port: u64) -> (addr: String)
    ensures
        addr@ == spec_address(host@, port),
{
    let mut addr = String::from_str(host);
    addr.append(":");
    let digits = decimal_string(port);
    addr.append(digits.as_str());
    addr
}

/// The first place at or after `from` where `text` holds `mark`, or the length
/// of `text` if there is none.
pub open spec fn mark_from(text: Seq<char>, mark: char, from: int) -> int
    decreases text.len() - from,
{
    if from >= text.len() || text[from] == mark {
        from
    } else {
        mark_from(text, mark, from + 1)
    }
}

/// `mark_from` finds the first mark: nothing before it is one, and it is either
/// the end of the text or a mark.
pub proof fn mark_from_is_first(text: Seq<char>, mark: char, from: int)
    requires
        0 <= from <= text.len(),
    ensures
        from <= mark_from(text, mark, from) <= text.len(),
        forall|i: int| from <= i < mark_from(text, mark, from) ==> text[i] != mark,
        mark_from(text, mark, from) < text.len() ==> text[mark_from(text, mark, from)] == mark,
    decreases text.len() - from,
{
    if from < text.len() && text[from] != mark {
        mark_from_is_first(text, mark, from + 1);
    }
}

/// The first place at or after `from` where `text` holds `mark`.
pub fn find_from(text: &str, mark: char, from: usize) -> (place: usize)
    requires
        from <= text@.len(),
    ensures
        place == mark_from(text@, mark, from as int),
        from <= place <= text@.len(),
{
    let len = text.unicode_len();
    let mut place: usize = from;
    while place < len && text.get_char(place) != mark
        invariant
            from <= place <= len,
            len == text@.len(),
            mark_from(text@, mark, from as int) == mark_from(text@, mark, place as int),
        decreases len - place,
    {
        place = place + 1;
    }
    place
}

/// The host of an address.
pub fn host_of(addr: &str) -> (host: String)
    ensures
        host@ == spec_host_of(addr@),
{
    let end = find_from(addr, ':', 0);
    String::from_str(addr.substring_char(0, end))
}

pub open spec fn is_digit(c: char) -> bool {
    '0' <= c && c <= '9'
}

pub open spec fn digit_value(c: char) -> nat {
    (c as u32 - '0' as u32) as nat
}

/// The number that a row of digits writes in base ten.
pub open spec fn digits_value(digits: Seq<char>) -> nat
    decreases digits.len(),
{
    if digits.len() == 0 {
        0
    } else {
        digits_value(digits.drop_last()) * 10 + digit_value(digits.last())
    }
}

pub open spec fn all_digits(digits: Seq<char>) -> bool {
    forall|i: int| 0 <= i < digits.len() ==> is_digit(#[trigger] digits[i])
}

/// The digits of a numeral: what follows its plus sign, if it has one.
pub open spec fn unsigned_part(text: Seq<char>) -> Seq<char> {
    if text.len() > 0 && text[0] == '+' {
        text.subrange(1, text.len() as int)
    } else {
        text
    }
}

/// The number that `text` writes, if it writes one that fits in 64 bits: a
/// row of one or more digits, with or without a plus sign before it.
pub open spec fn spec_parse_u64(text: Seq<char>) -> Option<u64> {
    let digits = unsigned_part(text);
    if digits.len() > 0 && all_digits(digits) && digits_value(digits) <= u64::MAX {
        Some(digits_value(digits) as u64)
    } else {
        None
    }
}

/// Digits written after a number do not make it smaller.
proof fn digits_value_grows(digits: Seq<char>, shorter: int)
    requires
        0 <= shorter <= digits.len(),
    ensures
        digits_value(digits.take(shorter)) <= digits_value(digits),
    decreases digits.len() - shorter,
{
    if shorter < digits.len() {
        let longer = digits.take(shorter + 1);
        assert(longer.drop_last() =~= digits.take(shorter));
        assert(digits_value(digits.take(shorter)) <= digits_value(longer)) by (nonlinear_arith)
            requires
                digits_value(longer) == digits_value(digits.take(shorter)) * 10 + digit_value(
                    longer.last(),
                ),
        ;
        digits_value_grows(digits, shorter + 1);
    } else {
        assert(digits.take(shorter) =~= digits);
    }
}

proof fn digit_text_is_its_digit(digit: int)
    requires
        0 <= digit < 10,
    ensures
        digit_text(digit).len() == 1,
        is_digit(digit_text(digit)[0]),
        digit_value(digit_text(digit)[0]) == digit,
{
    reveal_strlit("0");
    reveal_strlit("1");
    reveal_strlit("2");
    reveal_strlit("3");
    reveal_strlit("4");
    reveal_strlit("5");
    reveal_strlit("6");
    reveal_strlit("7");
    reveal_strlit("8");
    reveal_strlit("9");
}

/// What `decimal` writes is a row of one or more digits whose value is the
/// number written.
pub proof fn decimal_writes_digits(number: nat)
    ensures
        decimal(number).len() > 0,
        all_digits(decimal(number)),
        digits_value(decimal(number)) == number,
    decreases number,
{
    let text = decimal(number);
    if number < 10 {
        digit_text_is_its_digit(number as int);
        assert(text.drop_last() =~= Seq::<char>::empty());
        assert(digits_value(text.drop_last()) == 0);
    } else {
        decimal_writes_digits(number / 10);
        digit_text_is_its_digit((number % 10) as int);
        let front = decimal(number / 10);
        let last = digit_text((number % 10) as int);
        assert(text.drop_last() =~= front);
        assert(text.last() == last[0]);
        assert forall|i: int| 0 <= i < text.len() implies is_digit(#[trigger] text[i]) by {
            if i < front.len() {
                assert(text[i] == front[i]);
            }
        }
    }
}

/// A number that was written in base ten is read back as itself.
pub proof fn parse_inverts_decimal(number: u64)
    ensures
        spec_parse_u64(decimal(number as nat)) == Some(number),
{
    decimal_writes_digits(number as nat);
    assert(is_digit(decimal(number as nat)[0]));
}

/// Reads a number written in base ten.
pub fn parse_u64(text: &str) -> (number: Option<u64>)
    ensures
        number == spec_parse_u64(text@),
{
    let len = text.unicode_len();
    let start: usize = if len > 0 && text.get_char(0) == '+' {
        1
    } else {
        0
    };
    if start == len {
        return None;
    }
    let ghost digits = unsigned_part(text@);
    let mut value: u64 = 0;
    let mut index: usize = start;
    assert(digits.take(0) =~= Seq::<char>::empty());
    while index < len
        invariant
            start <= index <= len,
            len == text@.len(),
            digits == unsigned_part(text@),
            digits.len() == len - start,
            forall|i: int| 0 <= i < digits.len() ==> digits[i] == text@[i + start],
            all_digits(digits.take(index - start)),
            value == digits_value(digits.take(index - start)),
        decreases len - index,
    {
        let c = text.get_char(index);
        let ghost place = index - start;
        let ghost longer = digits.take(place + 1);
        proof {
            assert(longer.drop_last() =~= digits.take(place));
            assert(longer.last() == c);
        }
        if !(c >= '0' && c <= '9') {
            assert(!is_digit(digits[place]));
            return None;
        }
        let digit: u64 = (c as u32 - '0' as u32) as u64;
        if value > (u64::MAX - digit) / 10 {
            proof {
                assert(digits_value(longer) > u64::MAX);
                digits_value_grows(digits, place + 1);
            }
            return None;
        }
        value = value * 10 + digit;
        index = index + 1;
        assert(all_digits(digits.take(index - start))) by {
            assert forall|i: int| 0 <= i < longer.len() implies is_digit(#[trigger] longer[i]) by {
                if i < place {
                    assert(is_digit(digits.take(place)[i]));
                }
            }
        }
    }
    assert(digits.take(len - start) =~= digits);
    Some(value)
}

/// Filtering a sequence with one more element at its end keeps that element
/// or not, and what came before it as before.
pub proof fn filter_push<A>(s: Seq<A>, pred: spec_fn(A) -> bool, last: A)
    ensures
        s.push(last).filter(pred) == if pred(last) {
            s.filter(pred).push(last)
        } else {
            s.filter(pred)
        },
{
    reveal(Seq::filter);
    assert(s.push(last).drop_last() =~= s);
}

/// `text` with every line feed taken out.
pub open spec fn spec_without_newlines(text: Seq<char>) -> Seq<char> {
    text.filter(|c: char| c != '\n')
}

/// `text` with every line feed taken out.
pub fn without_newlines(text: &str) -> (stripped: String)
    ensures
        stripped@ == spec_without_newlines(text@),
{
    let len = text.unicode_len();
    let ghost kept = |c: char| c != '\n';
    let mut stripped = String::new();
    let mut index: usize = 0;
    assert(text@.take(0).filter(kept) =~= Seq::<char>::empty()) by {
        reveal(Seq::filter);
    }
    while index < len
        invariant
            index <= len,
            len == text@.len(),
            kept == |c: char| c != '\n',
            stripped@ == text@.take(index as int).filter(kept),
        decreases len - index,
    {
        proof {
            assert(text@.take(index + 1) =~= text@.take(index as int).push(text@[index as int]));
            filter_push(text@.take(index as int), kept, text@[index as int]);
        }
        if text.get_char(index) != '\n' {
            let piece = text.substring_char(index, index + 1);
            assert(piece@ =~= seq![text@[index as int]]);
            stripped.append(piece);
            assert(stripped@ =~= text@.take(index as int).filter(kept).push(text@[index as int]));
        }
        index = index + 1;
    }
    assert(text@.take(len as int) =~= text@);
    stripped
}

} // verus!
