//! Calendar dates as plain values, rendered the way the service's
//! query parameters expect them.

use vstd::prelude::*;

use crate::text::{dec_rep, lemma_dec_rep_len, u64_to_padded_string, zero_pad};

verus! {

/// A calendar date, held as plain year, month and day numbers.
#[derive(Debug, Clone, Copy, PartialEq, Eq, Structural)]
pub struct Date {
    pub year: u16,
    pub month: u8,
    pub day: u8,
}

impl Date {
    /// A date the formatter can render: four-digit year, calendar
    /// month and day numbers.
    pub open spec fn wf(self) -> bool {
        &&& self.year <= 9999
        &&& 1 <= self.month <= 12
        &&& 1 <= self.day <= 31
    }

    /// The `year-month-day` rendering of a date, each part
    /// zero-padded to its fixed width.
    pub open spec fn spec_format(self) -> Seq<char> {
        zero_pad(dec_rep(self.year as nat), 4) + seq!['-'] + zero_pad(dec_rep(self.month as nat), 2)
            + seq!['-'] + zero_pad(dec_rep(self.day as nat), 2)
    }

    /// Renders the date as `YYYY-MM-DD`: ten characters for any
    /// well-formed date.
    pub fn format(&self) -> (s: String)
        ensures
            s@ == self.spec_format(),
            self.wf() ==> s@.len() == 10,
    {
        proof {
            lemma_dec_rep_len(self.year as nat);
            lemma_dec_rep_len(self.month as nat);
            lemma_dec_rep_len(self.day as nat);
        }
        let mut s = u64_to_padded_string(self.year as u64, 4);
        s.append("-");
        let month = u64_to_padded_string(self.month as u64, 2);
        s.append(month.as_str());
        s.append("-");
        let day = u64_to_padded_string(self.day as u64, 2);
        s.append(day.as_str());
        proof {
            reveal_strlit("-");
            assert(("-")@ =~= seq!['-']);
            assert(s@ =~= self.spec_format());
        }
        s
    }
}

} // verus!
