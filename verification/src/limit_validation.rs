//! Stateless validation of a single limit-update request.

use vstd::prelude::*;
use crate::limit_types::{req_error, req_valid, valid_label, valid_label_char, ErrorCode,
    SpendingLimitRequest};

verus! {

/// Decides whether a string is a well-formed category label.
pub fn is_valid_label(s: &str) -> (r: bool)
    ensures
        r == valid_label(s@),
{
    let n = s.unicode_len();
    if n < 1 || n > 32 {
        return false;
    }
    let mut i: usize = 0;
    while i < n
        invariant
            0 <= i <= n,
            n == s@.len(),
            1 <= n <= 32,
            forall|j: int| 0 <= j < i ==> valid_label_char(s@[j]),
        decreases n - i,
    {
        let c = s.get_char(i);
        let code = c as u32;
        let ok = (97 <= code && code <= 122) || (65 <= code && code <= 90) || (48 <= code && code
            <= 57) || c == '_';
        if !ok {
            return false;
        }
        i = i + 1;
    }
    true
}

/// Checks one request, first the amount, then the category label; the first
/// failing check names the error.  Stateless: it reads no stored record.
pub fn validate_limit_request(request: &SpendingLimitRequest) -> (r: Result<(), ErrorCode>)
    ensures
        r is Ok <==> req_valid(*request),
        r is Err ==> r->Err_0 == req_error(*request),
{
    if request.monthly_limit <= 0 {
        return Err(ErrorCode::InvalidAmount);
    }
    if !is_valid_label(request.category.as_str()) {
        return Err(ErrorCode::InvalidCategory);
    }
    Ok(())
}

} // verus!
