//! Validation helpers for shared budget operations.

use vstd::prelude::*;

verus! {

/// Accepts exactly the positive amounts.
pub fn validate_amount(amount: i128) -> (r: Result<(), &'static str>)
    ensures
        r is Ok <==> amount > 0,
        r is Err ==> r->Err_0@ == "invalid_amount"@,
{
    if amount <= 0 {
        return Err("invalid_amount");
    }
    Ok(())
}

/// Accepts exactly the percentage values 0 through 100.
pub fn validate_percentage(percentage: u32) -> (r: Result<(), &'static str>)
    ensures
        r is Ok <==> percentage <= 100,
        r is Err ==> r->Err_0@ == "invalid_percentage"@,
{
    if percentage > 100 {
        return Err("invalid_percentage");
    }
    Ok(())
}

} // verus!
