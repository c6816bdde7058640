//! Configuration values and calendar helpers.

use vstd::prelude::*;
use crate::text::str_equals;

verus! {

/// Settings read once at startup and never changed afterwards.
pub struct Config {
    pub teloxide_token: String,
    pub notion_token: String,
    pub notion_parent_page_id: String,
    pub log_path: String,
    pub restrict_access: bool,
    pub allowed_users: Vec<u64>,
    pub categories: Vec<String>,
    pub subcategories: Vec<String>,
    pub default_currency: String,
}

/// What `str::to_lowercase` returns for a string: Unicode lowercase mapping,
/// a function of the characters alone.
pub uninterp spec fn lower_of(s: Seq<char>) -> Seq<char>;

/// Relies on `str::to_lowercase`: the result is the lowercase mapping of the
/// characters of `s`, and depends on them alone.
#[verifier::external_body]
fn lowercase(s: &str) -> (r: String)
    ensures
        r@ == lower_of(s@),
{
    s.to_lowercase()
}

/// The number (1 to 12) of an English month name written in lowercase.
pub open spec fn month_of_lowercase(name: Seq<char>) -> Option<u32> {
    if name == "january"@ {
        Some(1)
    } else if name == "february"@ {
        Some(2)
    } else if name == "march"@ {
        Some(3)
    } else if name == "april"@ {
        Some(4)
    } else if name == "may"@ {
        Some(5)
    } else if name == "june"@ {
        Some(6)
    } else if name == "july"@ {
        Some(7)
    } else if name == "august"@ {
        Some(8)
    } else if name == "september"@ {
        Some(9)
    } else if name == "october"@ {
        Some(10)
    } else if name == "november"@ {
        Some(11)
    } else if name == "december"@ {
        Some(12)
    } else {
        None
    }
}

/// Looks up a month name that is already in lowercase.
pub fn month_number_from_lowercase(name: &str) -> (r: Option<u32>)
    ensures
        r == month_of_lowercase(name@),
        r matches Some(m) ==> 1 <= m <= 12,
{
    if str_equals(name, "january") {
        Some(1)
    } else if str_equals(name, "february") {
        Some(2)
    } else if str_equals(name, "march") {
        Some(3)
    } else if str_equals(name, "april") {
        Some(4)
    } else if str_equals(name, "may") {
        Some(5)
    } else if str_equals(name, "june") {
        Some(6)
    } else if str_equals(name, "july") {
        Some(7)
    } else if str_equals(name, "august") {
        Some(8)
    } else if str_equals(name, "september") {
        Some(9)
    } else if str_equals(name, "october") {
        Some(10)
    } else if str_equals(name, "november") {
        Some(11)
    } else if str_equals(name, "december") {
        Some(12)
    } else {
        None
    }
}

/// The number of a month from its English name, in any letter case.
pub fn get_month_number(month_name: &str) -> (r: Option<u32>)
    ensures
        r == month_of_lowercase(lower_of(month_name@)),
        r matches Some(m) ==> 1 <= m <= 12,
{
    let lower = lowercase(month_name);
    month_number_from_lowercase(lower.as_str())
}

} // verus!
