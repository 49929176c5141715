//! The fixed, closed set of supported currency codes.
//!
//! Rates are always expressed against one base currency, which never
//! appears in a rate listing.  Every other supported code has a fixed
//! position, and a rate table stores one rate per position.

use vstd::prelude::*;

verus! {

/// How many currency codes the supported set holds, the base currency aside.
pub const CODE_COUNT: usize = 43;

/// The code of the base currency.  Its rate is one by definition, and it is
/// absent from every rate listing.
pub open spec fn base_code() -> Seq<char> {
    "RUB"@
}

/// The supported currency code at position `i` of the fixed list.
pub open spec fn spec_code(i: int) -> Seq<char> {
    if i == 0 { "AUD"@ }
    else if i == 1 { "AZN"@ }
    else if i == 2 { "GBP"@ }
    else if i == 3 { "AMD"@ }
    else if i == 4 { "BYN"@ }
    else if i == 5 { "BGN"@ }
    else if i == 6 { "BRL"@ }
    else if i == 7 { "HUF"@ }
    else if i == 8 { "VND"@ }
    else if i == 9 { "HKD"@ }
    else if i == 10 { "GEL"@ }
    else if i == 11 { "DKK"@ }
    else if i == 12 { "AED"@ }
    else if i == 13 { "USD"@ }
    else if i == 14 { "EUR"@ }
    else if i == 15 { "EGP"@ }
    else if i == 16 { "INR"@ }
    else if i == 17 { "IDR"@ }
    else if i == 18 { "KZT"@ }
    else if i == 19 { "CAD"@ }
    else if i == 20 { "QAR"@ }
    else if i == 21 { "KGS"@ }
    else if i == 22 { "CNY"@ }
    else if i == 23 { "MDL"@ }
    else if i == 24 { "NZD"@ }
    else if i == 25 { "NOK"@ }
    else if i == 26 { "PLN"@ }
    else if i == 27 { "RON"@ }
    else if i == 28 { "XDR"@ }
    else if i == 29 { "SGD"@ }
    else if i == 30 { "TJS"@ }
    else if i == 31 { "THB"@ }
    else if i == 32 { "TRY"@ }
    else if i == 33 { "TMT"@ }
    else if i == 34 { "UZS"@ }
    else if i == 35 { "UAH"@ }
    else if i == 36 { "CZK"@ }
    else if i == 37 { "SEK"@ }
    else if i == 38 { "CHF"@ }
    else if i == 39 { "RSD"@ }
    else if i == 40 { "ZAR"@ }
    else if i == 41 { "KRW"@ }
    else if i == 42 { "JPY"@ }
    else { Seq::empty() }
}

/// Position of the first supported code equal to `name`, scanning the fixed
/// list from position `i` on; `None` when no position from `i` on matches.
pub open spec fn first_code_index_from(name: Seq<char>, i: int) -> Option<int>
    decreases CODE_COUNT as int - i,
{
    if i < 0 || i >= CODE_COUNT as int {
        None
    } else if name == spec_code(i) {
        Some(i)
    } else {
        first_code_index_from(name, i + 1)
    }
}

/// Position of `name` in the fixed list of supported codes, if any.
pub open spec fn code_index(name: Seq<char>) -> Option<int> {
    first_code_index_from(name, 0)
}

/// A scan that has ruled out every position from `i` up to a match at `k`
/// lands exactly on `k`.
pub proof fn lemma_first_code_index_from_found(name: Seq<char>, i: int, k: int)
    requires
        0 <= i <= k < CODE_COUNT as int,
        forall|j: int| i <= j < k ==> name != spec_code(j),
        name == spec_code(k),
    ensures
        first_code_index_from(name, i) == Some(k),
    decreases k - i,
{
    if i < k {
        lemma_first_code_index_from_found(name, i + 1, k);
    }
}

/// A scan that has ruled out every position from `i` on finds nothing.
pub proof fn lemma_first_code_index_from_none(name: Seq<char>, i: int)
    requires
        0 <= i,
        forall|j: int| i <= j < CODE_COUNT as int ==> name != spec_code(j),
    ensures
        first_code_index_from(name, i) is None,
    decreases CODE_COUNT as int - i,
{
    if i < CODE_COUNT as int {
        lemma_first_code_index_from_none(name, i + 1);
    }
}

/// The first three character codes of a string, packed into one number.
/// Equal strings have equal keys, so showing two keys apart shows the
/// strings apart.
spec fn code_key(s: Seq<char>) -> int {
    s[0] as int * 0x10000 + s[1] as int * 0x100 + s[2] as int
}

/// No position of the supported list spells the base code.
pub proof fn lemma_code_not_base(i: int)
    requires
        0 <= i < CODE_COUNT as int,
    ensures
        spec_code(i) != base_code(),
{
    reveal_strlit("RUB");
    reveal_strlit("AUD");
    reveal_strlit("AZN");
    reveal_strlit("GBP");
    reveal_strlit("AMD");
    reveal_strlit("BYN");
    reveal_strlit("BGN");
    reveal_strlit("BRL");
    reveal_strlit("HUF");
    reveal_strlit("VND");
    reveal_strlit("HKD");
    reveal_strlit("GEL");
    reveal_strlit("DKK");
    reveal_strlit("AED");
    reveal_strlit("USD");
    reveal_strlit("EUR");
    reveal_strlit("EGP");
    reveal_strlit("INR");
    reveal_strlit("IDR");
    reveal_strlit("KZT");
    reveal_strlit("CAD");
    reveal_strlit("QAR");
    reveal_strlit("KGS");
    reveal_strlit("CNY");
    reveal_strlit("MDL");
    reveal_strlit("NZD");
    reveal_strlit("NOK");
    reveal_strlit("PLN");
    reveal_strlit("RON");
    reveal_strlit("XDR");
    reveal_strlit("SGD");
    reveal_strlit("TJS");
    reveal_strlit("THB");
    reveal_strlit("TRY");
    reveal_strlit("TMT");
    reveal_strlit("UZS");
    reveal_strlit("UAH");
    reveal_strlit("CZK");
    reveal_strlit("SEK");
    reveal_strlit("CHF");
    reveal_strlit("RSD");
    reveal_strlit("ZAR");
    reveal_strlit("KRW");
    reveal_strlit("JPY");
    assert(code_key(spec_code(i)) != code_key(base_code()));
}

/// No two positions of the supported list spell the same code.
#[verifier::rlimit(100)]
pub proof fn lemma_codes_distinct(i: int, j: int)
    requires
        0 <= i < CODE_COUNT as int,
        0 <= j < CODE_COUNT as int,
        i != j,
    ensures
        spec_code(i) != spec_code(j),
{
    reveal_strlit("AUD");
    reveal_strlit("AZN");
    reveal_strlit("GBP");
    reveal_strlit("AMD");
    reveal_strlit("BYN");
    reveal_strlit("BGN");
    reveal_strlit("BRL");
    reveal_strlit("HUF");
    reveal_strlit("VND");
    reveal_strlit("HKD");
    reveal_strlit("GEL");
    reveal_strlit("DKK");
    reveal_strlit("AED");
    reveal_strlit("USD");
    reveal_strlit("EUR");
    reveal_strlit("EGP");
    reveal_strlit("INR");
    reveal_strlit("IDR");
    reveal_strlit("KZT");
    reveal_strlit("CAD");
    reveal_strlit("QAR");
    reveal_strlit("KGS");
    reveal_strlit("CNY");
    reveal_strlit("MDL");
    reveal_strlit("NZD");
    reveal_strlit("NOK");
    reveal_strlit("PLN");
    reveal_strlit("RON");
    reveal_strlit("XDR");
    reveal_strlit("SGD");
    reveal_strlit("TJS");
    reveal_strlit("THB");
    reveal_strlit("TRY");
    reveal_strlit("TMT");
    reveal_strlit("UZS");
    reveal_strlit("UAH");
    reveal_strlit("CZK");
    reveal_strlit("SEK");
    reveal_strlit("CHF");
    reveal_strlit("RSD");
    reveal_strlit("ZAR");
    reveal_strlit("KRW");
    reveal_strlit("JPY");
    assert(code_key(spec_code(i)) != code_key(spec_code(j)));
}

/// The supported code at position `i`, as an owned string.
pub fn code_at(i: usize) -> (c: String)
    requires
        i < CODE_COUNT,
    ensures
        c@ == spec_code(i as int),
{
    if i == 0 { String::from_str("AUD") }
    else if i == 1 { String::from_str("AZN") }
    else if i == 2 { String::from_str("GBP") }
    else if i == 3 { String::from_str("AMD") }
    else if i == 4 { String::from_str("BYN") }
    else if i == 5 { String::from_str("BGN") }
    else if i == 6 { String::from_str("BRL") }
    else if i == 7 { String::from_str("HUF") }
    else if i == 8 { String::from_str("VND") }
    else if i == 9 { String::from_str("HKD") }
    else if i == 10 { String::from_str("GEL") }
    else if i == 11 { String::from_str("DKK") }
    else if i == 12 { String::from_str("AED") }
    else if i == 13 { String::from_str("USD") }
    else if i == 14 { String::from_str("EUR") }
    else if i == 15 { String::from_str("EGP") }
    else if i == 16 { String::from_str("INR") }
    else if i == 17 { String::from_str("IDR") }
    else if i == 18 { String::from_str("KZT") }
    else if i == 19 { String::from_str("CAD") }
    else if i == 20 { String::from_str("QAR") }
    else if i == 21 { String::from_str("KGS") }
    else if i == 22 { String::from_str("CNY") }
    else if i == 23 { String::from_str("MDL") }
    else if i == 24 { String::from_str("NZD") }
    else if i == 25 { String::from_str("NOK") }
    else if i == 26 { String::from_str("PLN") }
    else if i == 27 { String::from_str("RON") }
    else if i == 28 { String::from_str("XDR") }
    else if i == 29 { String::from_str("SGD") }
    else if i == 30 { String::from_str("TJS") }
    else if i == 31 { String::from_str("THB") }
    else if i == 32 { String::from_str("TRY") }
    else if i == 33 { String::from_str("TMT") }
    else if i == 34 { String::from_str("UZS") }
    else if i == 35 { String::from_str("UAH") }
    else if i == 36 { String::from_str("CZK") }
    else if i == 37 { String::from_str("SEK") }
    else if i == 38 { String::from_str("CHF") }
    else if i == 39 { String::from_str("RSD") }
    else if i == 40 { String::from_str("ZAR") }
    else if i == 41 { String::from_str("KRW") }
    else { String::from_str("JPY") }
}

/// The whole supported list, in table order.
pub fn supported_codes() -> (v: Vec<String>)
    ensures
        v@.len() == CODE_COUNT,
        forall|i: int| 0 <= i < CODE_COUNT as int ==> v@[i]@ == spec_code(i),
{
    let mut v: Vec<String> = Vec::new();
    let mut i: usize = 0;
    while i < CODE_COUNT
        invariant
            i <= CODE_COUNT,
            v@.len() == i,
            forall|j: int| 0 <= j < i ==> v@[j]@ == spec_code(j),
        decreases CODE_COUNT - i,
    {
        v.push(code_at(i));
        i = i + 1;
    }
    v
}

} // verus!
