//! Resolving currency names to rates, and assembling a conversion.
//!
//! The lookup policy: the base code resolves to a rate of one by
//! definition, a supported code resolves to the rate stored at its fixed
//! position, and any other name resolves to no rate at all.  A conversion
//! takes one amount and two lookups, for the source and target currency,
//! against the same table.

use vstd::prelude::*;

use crate::codes::CODE_COUNT;
use crate::codes::base_code;
use crate::codes::code_at;
use crate::codes::code_index;
use crate::codes::lemma_code_not_base;
use crate::codes::lemma_codes_distinct;
use crate::codes::lemma_first_code_index_from_found;
use crate::codes::lemma_first_code_index_from_none;
use crate::codes::spec_code;
use crate::table::RateTable;

verus! {

/// What a currency name resolves to against a rate table.
///
/// A caller turns `Base` into a rate of one, `Known` into the number whose
/// bit pattern the payload holds, and `Unknown` into a rate of zero — the
/// silent default the lookup policy prescribes for names outside the
/// supported set.
#[derive(Clone, Copy, Debug, PartialEq, Eq, Structural)]
pub enum RateLookup {
    /// The base currency itself; its rate is one by definition.
    Base,
    /// A supported code, with the rate payload stored for it.
    Known(u64),
    /// A name outside the supported set; its rate defaults to zero.
    Unknown,
}

/// The lookup policy: base code first, then the supported list, then the
/// silent default.
pub open spec fn spec_lookup(name: Seq<char>, t: RateTable) -> RateLookup {
    if name == base_code() {
        RateLookup::Base
    } else {
        match code_index(name) {
            Some(i) => RateLookup::Known(t.rates@[i]),
            None => RateLookup::Unknown,
        }
    }
}

/// Resolve `name` against `rates`: the base code resolves to `Base`, a
/// supported code to the rate stored at its position, and any other name —
/// matched case-sensitively and exactly — to `Unknown`.
pub fn parse_by_name(name: &String, rates: &RateTable) -> (r: RateLookup)
    requires
        rates.wf(),
    ensures
        r == spec_lookup(name@, *rates),
{
    let rub = String::from_str("RUB");
    if name.eq(&rub) {
        return RateLookup::Base;
    }
    let mut i: usize = 0;
    while i < CODE_COUNT
        invariant
            i <= CODE_COUNT,
            rates.wf(),
            name@ != base_code(),
            forall|j: int| 0 <= j < i ==> name@ != spec_code(j),
        decreases CODE_COUNT - i,
    {
        let c = code_at(i);
        if name.eq(&c) {
            proof {
                lemma_first_code_index_from_found(name@, 0, i as int);
            }
            return RateLookup::Known(rates.rate_bits(i));
        }
        i = i + 1;
    }
    proof {
        lemma_first_code_index_from_none(name@, 0);
    }
    RateLookup::Unknown
}

/// The lookup policy is sound for every name that a rate table answers
/// for: against any well-formed table, the base code resolves to `Base`,
/// and each supported code resolves to exactly the rate stored at that
/// code's own position — never to the base rate, never to another
/// position, and never to the silent default.
pub proof fn lemma_code_resolution(t: RateTable, i: int)
    requires
        t.wf(),
        0 <= i < CODE_COUNT as int,
    ensures
        spec_lookup(base_code(), t) == RateLookup::Base,
        spec_lookup(spec_code(i), t) == RateLookup::Known(t.rates@[i]),
{
    lemma_code_not_base(i);
    assert forall|j: int| 0 <= j < i implies spec_code(i) != spec_code(j) by {
        lemma_codes_distinct(i, j);
    }
    lemma_first_code_index_from_found(spec_code(i), 0, i);
}

/// The bit pattern of the default amount: one unit of the source currency.
pub const DEFAULT_AMOUNT_BITS: u64 = 0x3FF0_0000_0000_0000;

/// The amount payload a conversion uses: the caller's, or one unit of the
/// source currency when the caller gave none.
pub fn amount_bits_or_default(amount: Option<u64>) -> (r: u64)
    ensures
        r == (match amount {
            Some(b) => b,
            None => DEFAULT_AMOUNT_BITS,
        }),
{
    match amount {
        Some(b) => b,
        None => DEFAULT_AMOUNT_BITS,
    }
}

/// Everything a conversion needs, resolved: the amount payload and the two
/// rate lookups.  The result is the amount divided by the source rate and
/// then multiplied by the target rate, in that order; the numeric steps
/// stay with the caller.
pub struct ConversionPlan {
    /// The amount payload to convert.
    pub amount_bits: u64,
    /// What the source currency name resolved to.
    pub from_rate: RateLookup,
    /// What the target currency name resolved to.
    pub to_rate: RateLookup,
}

/// Resolve a whole conversion request against one table: the defaulted
/// amount, the source lookup and the target lookup.
pub fn plan_conversion(amount: Option<u64>, from: &String, to: &String, rates: &RateTable) -> (p:
    ConversionPlan)
    requires
        rates.wf(),
    ensures
        p.amount_bits == (match amount {
            Some(b) => b,
            None => DEFAULT_AMOUNT_BITS,
        }),
        p.from_rate == spec_lookup(from@, *rates),
        p.to_rate == spec_lookup(to@, *rates),
{
    ConversionPlan {
        amount_bits: amount_bits_or_default(amount),
        from_rate: parse_by_name(from, rates),
        to_rate: parse_by_name(to, rates),
    }
}

} // verus!
