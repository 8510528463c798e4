use crate::text::{
    find_from, mark_from, parse_u64, spec_parse_u64, spec_without_newlines, without_newlines,
};
use vstd::prelude::*;
use vstd::string::*;

verus! {

/// A booking as a line of the file holds it: the identifier, and the fee of
/// each service as it is written there.
#[derive(PartialEq, Eq, Clone, Debug)]
pub struct BookingLine {
    pub id: u64,
    pub airline_fee: String,
    pub hotel_fee: String,
    pub bank_fee: String,
}

impl View for BookingLine {
    type V = (u64, Seq<char>, Seq<char>, Seq<char>);

    open spec fn view(&self) -> Self::V {
        (self.id, self.airline_fee@, self.hotel_fee@, self.bank_fee@)
    }
}

/// Reads the bookings of a file, line by line: identifier, then the fees of
/// Airline, Hotel and Bank, with commas between them.
pub struct FileIterator {
    ended: bool,
}

impl View for FileIterator {
    type V = bool;

    closed spec fn view(&self) -> bool {
        self.ended
    }
}

impl FileIterator {
    pub open spec fn line_view(line: Option<BookingLine>) -> Option<
        (u64, Seq<char>, Seq<char>, Seq<char>),
    > {
        match line {
            Some(line) => Some(line@),
            None => None,
        }
    }

    /// The booking that a line holds, line feeds apart. A line with fewer than
    /// four fields holds none, nor does one whose first field is no identifier.
    /// Fields after the fourth are not looked at.
    pub open spec fn spec_parse_line(line: Seq<char>) -> Option<
        (u64, Seq<char>, Seq<char>, Seq<char>),
    > {
        let text = spec_without_newlines(line);
        let first = mark_from(text, ',', 0);
        let second = mark_from(text, ',', first + 1);
        let third = mark_from(text, ',', second + 1);
        let fourth = mark_from(text, ',', third + 1);
        if first >= text.len() || second >= text.len() || third >= text.len() {
            None
        } else {
            match spec_parse_u64(text.subrange(0, first)) {
                Some(id) => Some(
                    (
                        id,
                        text.subrange(first + 1, second),
                        text.subrange(second + 1, third),
                        text.subrange(third + 1, fourth),
                    ),
                ),
                None => None,
            }
        }
    }

    /// What reading a line gives. An empty line marks the end of the file.
    pub open spec fn spec_next(line: Seq<char>) -> Option<(u64, Seq<char>, Seq<char>, Seq<char>)> {
        if line.len() == 0 {
            None
        } else {
            Self::spec_parse_line(line)
        }
    }

    pub fn new() -> (reader: Self)
        ensures
            !reader@,
    {
        FileIterator { ended: false }
    }

    /// Whether the end of the file was reached.
    pub fn ended(&self) -> (ended: bool)
        ensures
            ended == self@,
    {
        self.ended
    }

    pub fn parse_line(line: &str) -> (booking: Option<BookingLine>)
        ensures
            Self::line_view(booking) == Self::spec_parse_line(line@),
    {
        let text = without_newlines(line);
        let text = text.as_str();
        let len = text.unicode_len();
        let first = find_from(text, ',', 0);
        if first >= len {
            return None;
        }
        let second = find_from(text, ',', first + 1);
        if second >= len {
            return None;
        }
        let third = find_from(text, ',', second + 1);
        if third >= len {
            return None;
        }
        let fourth = find_from(text, ',', third + 1);
        match parse_u64(text.substring_char(0, first)) {
            Some(id) => Some(
                BookingLine {
                    id,
                    airline_fee: String::from_str(text.substring_char(first + 1, second)),
                    hotel_fee: String::from_str(text.substring_char(second + 1, third)),
                    bank_fee: String::from_str(text.substring_char(third + 1, fourth)),
                },
            ),
            None => None,
        }
    }

    /// Takes the next line as it was read, line feed included; nothing was read
    /// at the end of the file.
    pub fn next(&mut self, line: &str) -> (booking: Option<BookingLine>)
        ensures
            final(self)@ == (old(self)@ || line@.len() == 0),
            Self::line_view(booking) == Self::spec_next(line@),
    {
        if line.unicode_len() == 0 {
            self.ended = true;
            return None;
        }
        Self::parse_line(line)
    }
}

} // verus!
