//! The catalog of locales and the selection made from it.

use vstd::prelude::*;
use vstd::string::*;

verus! {

/// The locales a table can be fetched in, in the order they are offered.
pub open spec fn spec_available_locales() -> Seq<Seq<char>> {
    seq![
        "enUS"@,
        "deDE"@,
        "esES"@,
        "esMX"@,
        "frFR"@,
        "itIT"@,
        "koKR"@,
        "ptBR"@,
        "ruRU"@,
        "zhCN"@,
        "zhTW"@,
    ]
}

/// Whether `locale` is one of the three that are selected unless the user
/// says otherwise.
pub open spec fn spec_is_default_locale(locale: Seq<char>) -> bool {
    locale == "frFR"@ || locale == "esES"@ || locale == "enUS"@
}

/// The texts of `names`.
pub open spec fn texts(names: Seq<String>) -> Seq<Seq<char>> {
    Seq::new(names.len(), |i: int| names[i]@)
}

/// The locales on offer.
pub fn available_locales() -> (locales: Vec<String>)
    ensures
        texts(locales@) == spec_available_locales(),
{
    let mut locales: Vec<String> = Vec::new();
    locales.push(String::from_str("enUS"));
    locales.push(String::from_str("deDE"));
    locales.push(String::from_str("esES"));
    locales.push(String::from_str("esMX"));
    locales.push(String::from_str("frFR"));
    locales.push(String::from_str("itIT"));
    locales.push(String::from_str("koKR"));
    locales.push(String::from_str("ptBR"));
    locales.push(String::from_str("ruRU"));
    locales.push(String::from_str("zhCN"));
    locales.push(String::from_str("zhTW"));
    assert(texts(locales@) =~= spec_available_locales());
    locales
}

/// Tells whether `locale` is selected by default.
pub fn is_default_locale(locale: &str) -> (preselected: bool)
    ensures
        preselected == spec_is_default_locale(locale@),
{
    let locale = String::from_str(locale);
    locale == String::from_str("frFR") || locale == String::from_str("esES") || locale
        == String::from_str("enUS")
}

/// Marks, for each locale on offer, whether it is selected by default.
pub fn default_locale_selection(available: &Vec<String>) -> (marks: Vec<bool>)
    ensures
        marks@.len() == available@.len(),
        forall|i: int|
            0 <= i < available@.len() ==> marks@[i] == spec_is_default_locale(
                #[trigger] available@[i]@,
            ),
{
    let mut marks: Vec<bool> = Vec::new();
    let mut i: usize = 0;
    while i < available.len()
        invariant
            i <= available@.len(),
            marks@.len() == i,
            forall|k: int|
                0 <= k < i ==> marks@[k] == spec_is_default_locale(#[trigger] available@[k]@),
        decreases available@.len() - i,
    {
        marks.push(is_default_locale(available[i].as_str()));
        i = i + 1;
    }
    marks
}

/// Turns the positions the user chose into the locales at those positions,
/// in the order chosen. Choosing nothing selects nothing.
pub fn handle_locale_selection(available: &Vec<String>, chosen: &Vec<usize>) -> (selected: Vec<
    String,
>)
    requires
        forall|i: int| 0 <= i < chosen@.len() ==> #[trigger] chosen@[i] < available@.len(),
    ensures
        selected@.len() == chosen@.len(),
        forall|i: int|
            0 <= i < chosen@.len() ==> #[trigger] selected@[i] == available@[chosen@[i] as int],
{
    let mut selected: Vec<String> = Vec::new();
    let mut i: usize = 0;
    while i < chosen.len()
        invariant
            i <= chosen@.len(),
            selected@.len() == i,
            forall|k: int| 0 <= k < chosen@.len() ==> #[trigger] chosen@[k] < available@.len(),
            forall|k: int| 0 <= k < i ==> #[trigger] selected@[k] == available@[chosen@[k] as int],
        decreases chosen@.len() - i,
    {
        selected.push(available[chosen[i]].clone());
        i = i + 1;
    }
    selected
}

} // verus!
