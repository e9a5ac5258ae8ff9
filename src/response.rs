//! Building the response that a handler returns, and the text of a number in it.
use cosmwasm_std::{Empty, Response};
use vstd::prelude::*;

verus! {

/// `cosmwasm_std::Response`, carried as an opaque value; what the handlers
/// put in it is told by `attributes_of`.
#[verifier::external_type_specification]
#[verifier::external_body]
#[verifier::reject_recursive_types(T)]
pub struct ExResponse<T>(Response<T>);

/// `cosmwasm_std::Empty`, the default message type of a response.
#[verifier::external_type_specification]
#[verifier::external_body]
pub struct ExEmpty(Empty);

/// The attributes of a response, in the order in which they were added,
/// each as a (key, value) pair.
pub uninterp spec fn attributes_of(r: Response) -> Seq<(Seq<char>, Seq<char>)>;

/// The response carries nothing but its attributes: no messages, no events
/// and no data.
pub uninterp spec fn only_attributes(r: Response) -> bool;

/// Relies on `cosmwasm_std::Response::new`, which is `Default`: a response
/// that holds no attributes, no messages, no events and no data.
#[verifier::external_body]
pub(crate) fn empty_response() -> (r: Response)
    ensures
        attributes_of(r) == Seq::<(Seq<char>, Seq<char>)>::empty(),
        only_attributes(r),
{
    Response::new()
}

/// Relies on `cosmwasm_std::Response::add_attribute`: appends the pair
/// (`key`, `value`) to the attributes and touches nothing else. A key that starts with an underscore
/// is reserved and makes it panic.
#[verifier::external_body]
pub(crate) fn add_attribute(r: Response, key: &str, value: String) -> (out: Response)
    requires
        key@.len() == 0 || key@[0] != '_',
    ensures
        attributes_of(out) == attributes_of(r).push((key@, value@)),
        only_attributes(out) == only_attributes(r),
{
    r.add_attribute(key, value)
}

/// The character of a decimal digit.
pub open spec fn digit_char(d: nat) -> char {
    if d == 0 {
        '0'
    } else if d == 1 {
        '1'
    } else if d == 2 {
        '2'
    } else if d == 3 {
        '3'
    } else if d == 4 {
        '4'
    } else if d == 5 {
        '5'
    } else if d == 6 {
        '6'
    } else if d == 7 {
        '7'
    } else if d == 8 {
        '8'
    } else {
        '9'
    }
}

/// The decimal digits of `n`, most significant first, without leading zeros
/// (zero is the single digit `0`).
pub open spec fn decimal(n: nat) -> Seq<char>
    decreases n,
{
    if n < 10 {
        seq![digit_char(n)]
    } else {
        decimal(n / 10).push(digit_char(n % 10))
    }
}

/// Relies on `u64`'s `Display`, through `ToString::to_string`: the number
/// in decimal.
#[verifier::external_body]
pub(crate) fn decimal_text(n: u64) -> (r: String)
    ensures
        r@ == decimal(n as nat),
{
    n.to_string()
}

} // verus!
