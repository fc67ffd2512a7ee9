//! The fitted values that a run leaves behind as JSON.
use vstd::prelude::*;

verus! {

#[verifier::external_type_specification]
#[verifier::external_body]
pub struct ExValue(serde_json::Value);

#[verifier::external_type_specification]
#[verifier::external_body]
pub struct ExError(serde_json::Error);

/// The JSON value that `serde_json::from_str` reads from a text, where it
/// reads one.
pub uninterp spec fn parsed_json(text: Seq<char>) -> Option<serde_json::Value>;

/// The member that `serde_json::Value::get` finds in a value under a key.
pub uninterp spec fn member_of(v: serde_json::Value, key: Seq<char>) -> Option<serde_json::Value>;

/// The number that `serde_json::Value::as_f64` reads from a value, as the
/// bit pattern of an IEEE 754 double.
pub uninterp spec fn number_bits_of(v: serde_json::Value) -> Option<u64>;

/// The number under `key` in `v`, as a bit pattern.
pub open spec fn number_at(v: serde_json::Value, key: Seq<char>) -> Option<u64> {
    match member_of(v, key) {
        Some(x) => number_bits_of(x),
        None => None,
    }
}

/// The three fitted values, each as the bit pattern of an IEEE 754 double,
/// and unset where the file did not give it as a number.
#[derive(Clone, Copy, Debug, PartialEq, Eq)]
pub struct FitValues {
    pub alpha: Option<u64>,
    pub k: Option<u64>,
    pub mc_solar: Option<u64>,
}

/// The fitted values that the JSON value `v` holds.
pub open spec fn fit_of(v: serde_json::Value) -> FitValues {
    FitValues {
        alpha: number_at(v, "alpha"@),
        k: number_at(v, "K"@),
        mc_solar: number_at(v, "Mc_solar"@),
    }
}

/// The fitted values that a result file with the contents `text` gives: none
/// where the text is not JSON.
pub open spec fn loaded_fit(text: Seq<char>) -> Option<FitValues> {
    match parsed_json(text) {
        Some(v) => Some(fit_of(v)),
        None => None,
    }
}

/// The name of the file, in the output directory, that holds the fitted
/// values.
pub fn result_file_name() -> (r: &'static str)
    ensures
        r@ == "fit_results.json"@,
{
    "fit_results.json"
}

/// The name of the file, in the output directory, that holds the plot.
pub fn plot_file_name() -> (r: &'static str)
    ensures
        r@ == "loglog_fit.png"@,
{
    "loglog_fit.png"
}

/// `serde_json::from_str`, for a `serde_json::Value`: the contract names the
/// value that was read, and says that an error comes exactly where none is.
#[verifier::external_body]
fn parse(text: &str) -> (r: Result<serde_json::Value, serde_json::Error>)
    ensures
        match r {
            Ok(v) => parsed_json(text@) == Some(v),
            Err(_) => parsed_json(text@) is None,
        },
{
    serde_json::from_str::<serde_json::Value>(text)
}

/// `serde_json::Value::get` with a string key: the contract names the member
/// that was found, and says that `None` comes exactly where none is.
#[verifier::external_body]
fn member<'a>(v: &'a serde_json::Value, key: &str) -> (r: Option<&'a serde_json::Value>)
    ensures
        match r {
            Some(x) => member_of(*v, key@) == Some(*x),
            None => member_of(*v, key@) is None,
        },
{
    v.get(key)
}

/// `serde_json::Value::as_f64`: the contract names the number that was read,
/// handed on as its bit pattern.
#[verifier::external_body]
fn number_bits(v: &serde_json::Value) -> (r: Option<u64>)
    ensures
        r == number_bits_of(*v),
{
    match v.as_f64() {
        Some(x) => Some(x.to_bits()),
        None => None,
    }
}

/// The number under `key` in `v`, as a bit pattern; `None` where `v` has no
/// such member or the member is no number.
pub fn number_field(v: &serde_json::Value, key: &str) -> (r: Option<u64>)
    ensures
        r == number_at(*v, key@),
{
    match member(v, key) {
        Some(x) => number_bits(x),
        None => None,
    }
}

/// The fitted values that `v` holds under `alpha`, `K` and `Mc_solar`.
pub fn fit_values(v: &serde_json::Value) -> (r: FitValues)
    ensures
        r == fit_of(*v),
{
    FitValues {
        alpha: number_field(v, "alpha"),
        k: number_field(v, "K"),
        mc_solar: number_field(v, "Mc_solar"),
    }
}

/// Reads the fitted values from the contents of a result file. Text that is
/// not JSON gives `None`; JSON of any shape gives the members that it has.
pub fn read_fit_values(text: &str) -> (r: Option<FitValues>)
    ensures
        r == loaded_fit(text@),
{
    match parse(text) {
        Ok(v) => Some(fit_values(&v)),
        Err(_) => None,
    }
}

} // verus!
