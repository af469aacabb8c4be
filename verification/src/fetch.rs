//! Mining the rates page: one pattern per currency, all or nothing.

use vstd::prelude::*;
use vstd::string::*;
use regex::Regex;
use crate::info::Info;
use crate::store::FetchError;

verus! {

/// The capture groups of the first match of `pattern` in `text`, by group
/// index: `None` where the pattern does not compile or does not match, and
/// inside the list `None` for a group that took no part in the match.
pub uninterp spec fn regex_groups(pattern: Seq<char>, text: Seq<char>) -> Option<Seq<Option<Seq<char>>>>;

/// Captured groups as plain values.
pub open spec fn groups_view(groups: Option<Vec<Option<String>>>) -> Option<Seq<Option<Seq<char>>>> {
    match groups {
        Some(v) => Some(
            Seq::new(
                v@.len(),
                |i: int|
                    match v@[i] {
                        Some(s) => Some(s@),
                        None => None,
                    },
            ),
        ),
        None => None,
    }
}

/// Compiles `pattern` with `regex::Regex::new`, searches `text` with
/// `Regex::captures`, and copies out what `Captures::iter` yields.
///
/// Trusted: the result is the named value [`regex_groups`] of the two
/// arguments. Nothing is claimed about which text matches.
#[verifier::external_body]
fn search_groups(pattern: &str, text: &str) -> (r: Option<Vec<Option<String>>>)
    ensures
        groups_view(r) == regex_groups(pattern@, text@),
{
    match Regex::new(pattern) {
        Ok(re) => re.captures(text).map(
            |caps| caps.iter().map(|group| group.map(|m| m.as_str().to_owned())).collect(),
        ),
        Err(_) => None,
    }
}

/// What was read off the page for one currency: its label, and its rate as
/// the decimal text found there.
#[derive(Debug, PartialEq, Eq)]
pub struct Quote {
    pub current_name: String,
    pub rate_text: String,
}

impl View for Quote {
    type V = (Seq<char>, Seq<char>);

    open spec fn view(&self) -> (Seq<char>, Seq<char>) {
        (self.current_name@, self.rate_text@)
    }
}

impl Quote {
    /// The table entry for this quote, once its rate text has been turned
    /// into a number: `rate` is that number's bit pattern.
    pub fn into_info(self, rate: u64) -> (r: Info)
        ensures
            r@ == (self.current_name@, rate),
    {
        Info { current_name: self.current_name, rate }
    }
}

/// The currencies that are looked up, in display order.
pub open spec fn currency_code_list() -> Seq<Seq<char>> {
    seq![
        "USD"@,
        "HKD"@,
        "JPY"@,
        "ARS"@,
        "TRY"@,
        "RUB"@,
        "EUR"@,
        "GBP"@,
        "TWD"@,
        "KRW"@,
        "AUD"@,
    ]
}

/// A list of codes as plain values.
pub open spec fn codes_view(codes: Seq<String>) -> Seq<Seq<char>> {
    Seq::new(codes.len(), |i: int| codes[i]@)
}

/// The list of currencies to look up.
pub fn currency_codes() -> (r: Vec<String>)
    ensures
        codes_view(r@) == currency_code_list(),
{
    let mut codes: Vec<String> = Vec::new();
    codes.push(String::from_str("USD"));
    codes.push(String::from_str("HKD"));
    codes.push(String::from_str("JPY"));
    codes.push(String::from_str("ARS"));
    codes.push(String::from_str("TRY"));
    codes.push(String::from_str("RUB"));
    codes.push(String::from_str("EUR"));
    codes.push(String::from_str("GBP"));
    codes.push(String::from_str("TWD"));
    codes.push(String::from_str("KRW"));
    codes.push(String::from_str("AUD"));
    assert(codes_view(codes@) =~= currency_code_list());
    codes
}

/// `c` is one of the ten ASCII digits.
pub open spec fn is_digit(c: char) -> bool {
    '0' <= c && c <= '9'
}

/// `s` is ASCII digits, a dot, ASCII digits, with at least one digit on each
/// side. Every such text parses as a decimal number.
pub open spec fn is_decimal_text(s: Seq<char>) -> bool {
    exists|p: int|
        0 < p < s.len() - 1 && #[trigger] s[p] == '.' && forall|i: int|
            0 <= i < s.len() && i != p ==> is_digit(#[trigger] s[i])
}

/// The search pattern for the currency `code`: a decimal rate in the first
/// group, the currency's label in the second.
pub open spec fn pattern_for(code: Seq<char>) -> Seq<char> {
    "(\\d+\\.\\d+)</a> <a href=\"/"@ + code + "__huobiduihuan/\" title=\".*?\">(.*?)<"@
}

/// The quote that a search result holds: label from the second group, rate
/// from the first, provided both took part and the rate is a plain decimal.
pub open spec fn quote_of(groups: Option<Seq<Option<Seq<char>>>>) -> Option<(Seq<char>, Seq<char>)> {
    match groups {
        Some(g) => if g.len() >= 3 && g[1].is_some() && g[2].is_some() && is_decimal_text(
            g[1].unwrap(),
        ) {
            Some((g[2].unwrap(), g[1].unwrap()))
        } else {
            None
        },
        None => None,
    }
}

/// The quote for `code` on `page`, if the page has one.
pub open spec fn quote_at(page: Seq<char>, code: Seq<char>) -> Option<(Seq<char>, Seq<char>)> {
    quote_of(regex_groups(pattern_for(code), page))
}

/// Whether `text` is a plain decimal: digits, a dot, digits.
pub fn is_decimal(text: &str) -> (b: bool)
    ensures
        b == is_decimal_text(text@),
{
    let n: usize = text.unicode_len();
    let mut p: usize = 0;
    while p < n && digit(text.get_char(p))
        invariant
            p <= n,
            n == text@.len(),
            forall|i: int| 0 <= i < p ==> is_digit(#[trigger] text@[i]),
        decreases n - p,
    {
        p += 1;
    }
    if p == 0 || p >= n - 1 || text.get_char(p) != '.' {
        assert(!is_decimal_text(text@)) by {
            if is_decimal_text(text@) {
                let q = choose|q: int|
                    0 < q < text@.len() - 1 && #[trigger] text@[q] == '.' && forall|i: int|
                        0 <= i < text@.len() && i != q ==> is_digit(#[trigger] text@[i]);
                assert(!is_digit(text@[q]));
                if p < n {
                    assert(!is_digit(text@[p as int]));
                }
            }
        }
        return false;
    }
    let mut i: usize = p + 1;
    while i < n && digit(text.get_char(i))
        invariant
            p < i <= n,
            n == text@.len(),
            forall|j: int| p < j < i ==> is_digit(#[trigger] text@[j]),
        decreases n - i,
    {
        i += 1;
    }
    if i < n {
        assert(!is_decimal_text(text@)) by {
            if is_decimal_text(text@) {
                let q = choose|q: int|
                    0 < q < text@.len() - 1 && #[trigger] text@[q] == '.' && forall|i: int|
                        0 <= i < text@.len() && i != q ==> is_digit(#[trigger] text@[i]);
                assert(!is_digit(text@[q]));
                assert(!is_digit(text@[p as int]));
                assert(!is_digit(text@[i as int]));
            }
        }
        return false;
    }
    assert(is_decimal_text(text@)) by {
        assert(text@[p as int] == '.');
        assert forall|j: int| 0 <= j < text@.len() && j != p implies is_digit(#[trigger] text@[j]) by {}
    }
    true
}

/// Whether `c` is an ASCII digit.
fn digit(c: char) -> (b: bool)
    ensures
        b == is_digit(c),
{
    '0' <= c && c <= '9'
}

/// Builds the search pattern for `code`.
pub fn pattern(code: &str) -> (r: String)
    ensures
        r@ == pattern_for(code@),
{
    let head = String::from_str("(\\d+\\.\\d+)</a> <a href=\"/");
    head.concat(code).concat("__huobiduihuan/\" title=\".*?\">(.*?)<")
}

/// Reads the quote out of a search result.
pub fn quote_from_groups(groups: &Option<Vec<Option<String>>>) -> (r: Result<Quote, FetchError>)
    ensures
        match quote_of(groups_view(*groups)) {
            Some(q) => r.is_ok() && r.unwrap()@ == q,
            None => r == Err::<Quote, FetchError>(FetchError::Extraction),
        },
{
    match groups {
        Some(v) => {
            if v.len() < 3 {
                return Err(FetchError::Extraction);
            }
            match (&v[1], &v[2]) {
                (Some(rate_text), Some(label)) => {
                    if is_decimal(rate_text.as_str()) {
                        Ok(Quote { current_name: label.clone(), rate_text: rate_text.clone() })
                    } else {
                        Err(FetchError::Extraction)
                    }
                },
                _ => Err(FetchError::Extraction),
            }
        },
        None => Err(FetchError::Extraction),
    }
}

/// Looks up one currency on the page.
pub fn extract_quote(page: &str, code: &str) -> (r: Result<Quote, FetchError>)
    ensures
        match quote_at(page@, code@) {
            Some(q) => r.is_ok() && r.unwrap()@ == q,
            None => r == Err::<Quote, FetchError>(FetchError::Extraction),
        },
{
    let pat = pattern(code);
    let groups = search_groups(pat.as_str(), page);
    quote_from_groups(&groups)
}

/// Looks up every requested currency, in order. One currency without a quote
/// fails the whole extraction: there are no partial results.
pub fn extract_quotes(page: &str, codes: &Vec<String>) -> (r: Result<Vec<Quote>, FetchError>)
    ensures
        match r {
            Ok(quotes) => quotes.len() == codes.len() && forall|i: int|
                0 <= i < codes.len() ==> quote_at(page@, #[trigger] codes[i]@) == Some(quotes[i]@),
            Err(e) => e == FetchError::Extraction && exists|i: int|
                0 <= i < codes.len() && quote_at(page@, #[trigger] codes[i]@).is_none(),
        },
{
    let mut quotes: Vec<Quote> = Vec::new();
    let mut k: usize = 0;
    while k < codes.len()
        invariant
            k <= codes.len(),
            quotes.len() == k,
            forall|i: int| 0 <= i < k ==> quote_at(page@, #[trigger] codes[i]@) == Some(quotes[i]@),
        decreases codes.len() - k,
    {
        match extract_quote(page, codes[k].as_str()) {
            Ok(quote) => quotes.push(quote),
            Err(e) => {
                assert(quote_at(page@, codes[k as int]@).is_none());
                return Err(e);
            },
        }
        k += 1;
    }
    Ok(quotes)
}

} // verus!
