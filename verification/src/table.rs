//! Rate tables and their construction from a decoded rate listing.
//!
//! A listing is a sequence of `(code, rate payload)` pairs in whatever order
//! the data source produced them.  Building a table is the strict step: every
//! supported code must appear, keys outside the supported set are ignored,
//! and when a code occurs more than once its first occurrence wins.

use vstd::prelude::*;

use crate::codes::CODE_COUNT;
use crate::codes::code_at;
use crate::codes::spec_code;

verus! {

/// One stored rate per supported code, by the code's fixed position.
///
/// A rate is an opaque 64-bit payload: the caller stores the bit pattern of
/// a floating-point rate and interprets it again on the way out, so the
/// table never does numeric work on it.
#[derive(Debug)]
pub struct RateTable {
    pub rates: Vec<u64>,
}

/// A rejected rate listing: `missing` is the first supported code, in table
/// order, that the listing lacks.
#[derive(Debug)]
pub struct RateError {
    pub missing: String,
}

/// The payload of the first entry of `entries` whose key is `code`,
/// scanning from position `i` on.
pub open spec fn spec_find_from(entries: Seq<(String, u64)>, code: Seq<char>, i: int) -> Option<
    u64,
>
    decreases entries.len() - i,
{
    if i < 0 || i >= entries.len() {
        None
    } else if entries[i].0@ == code {
        Some(entries[i].1)
    } else {
        spec_find_from(entries, code, i + 1)
    }
}

/// The payload of the first entry of `entries` whose key is `code`.
pub open spec fn spec_find(entries: Seq<(String, u64)>, code: Seq<char>) -> Option<u64> {
    spec_find_from(entries, code, 0)
}

/// Whether `entries` carries every supported code.
pub open spec fn covers_all(entries: Seq<(String, u64)>) -> bool {
    forall|i: int| 0 <= i < CODE_COUNT as int ==> spec_find(entries, spec_code(i)) is Some
}

/// The first position of the supported list, from `i` on, whose code has no
/// entry in `entries`; `None` when every position from `i` on is covered.
pub open spec fn first_missing_from(entries: Seq<(String, u64)>, i: int) -> Option<int>
    decreases CODE_COUNT as int - i,
{
    if i < 0 || i >= CODE_COUNT as int {
        None
    } else if spec_find(entries, spec_code(i)) is None {
        Some(i)
    } else {
        first_missing_from(entries, i + 1)
    }
}

/// The payload of the first entry with key `code`, if any.
fn find_rate(entries: &Vec<(String, u64)>, code: &String) -> (r: Option<u64>)
    ensures
        r == spec_find(entries@, code@),
{
    let mut i: usize = 0;
    while i < entries.len()
        invariant
            i <= entries@.len(),
            spec_find(entries@, code@) == spec_find_from(entries@, code@, i as int),
        decreases entries@.len() - i,
    {
        if entries[i].0.eq(code) {
            return Some(entries[i].1);
        }
        i = i + 1;
    }
    None
}

impl RateTable {
    /// A table is well formed when it stores exactly one rate per supported
    /// code.
    pub open spec fn wf(self) -> bool {
        self.rates@.len() == CODE_COUNT as int
    }

    /// The stored rate payload at position `i` of the supported list.
    pub fn rate_bits(&self, i: usize) -> (r: u64)
        requires
            self.wf(),
            i < CODE_COUNT,
        ensures
            r == self.rates@[i as int],
    {
        self.rates[i]
    }

    /// Build a table from a decoded rate listing.
    ///
    /// The listing is accepted exactly when it carries every supported code;
    /// each stored rate is the payload of the first entry with that code, and
    /// keys outside the supported set are ignored.  A listing that misses a
    /// code is rejected whole, naming the first missing code in table order:
    /// no field is ever filled in silently.
    pub fn from_entries(entries: &Vec<(String, u64)>) -> (r: Result<RateTable, RateError>)
        ensures
            r is Ok <==> covers_all(entries@),
            match r {
                Ok(t) => t.wf() && forall|i: int|
                    0 <= i < CODE_COUNT as int ==> Some(t.rates@[i]) == spec_find(
                        entries@,
                        spec_code(i),
                    ),
                Err(e) => first_missing_from(entries@, 0) matches Some(k) && e.missing@
                    == spec_code(k),
            },
    {
        let mut rates: Vec<u64> = Vec::new();
        let mut i: usize = 0;
        while i < CODE_COUNT
            invariant
                i <= CODE_COUNT,
                rates@.len() == i,
                forall|j: int| 0 <= j < i ==> Some(rates@[j]) == spec_find(entries@, spec_code(j)),
                first_missing_from(entries@, 0) == first_missing_from(entries@, i as int),
            decreases CODE_COUNT - i,
        {
            let code = code_at(i);
            match find_rate(entries, &code) {
                Some(b) => {
                    rates.push(b);
                },
                None => {
                    return Err(RateError { missing: code });
                },
            }
            i = i + 1;
        }
        Ok(RateTable { rates })
    }
}

} // verus!
