use vstd::prelude::*;
use crate::display::edid;

verus! {

/// What a status code of the C driver means: a code of zero or more is
/// success, a negative code is an error that carries the code.
pub open spec fn spec_status_result(code: i32) -> Result<(), i32> {
    if code >= 0 {
        Ok(())
    } else {
        Err(code)
    }
}

/// Turns a status code of the C driver into a `Result`, as the driver's
/// initialisation and link start-up report it.
pub fn status_result(code: i32) -> (r: Result<(), i32>)
    ensures
        r == spec_status_result(code),
        code >= 0 ==> r is Ok,
        code < 0 ==> r == Err::<(), i32>(code),
{
    if code >= 0 {
        Ok(())
    } else {
        Err(code)
    }
}

/// What reading the EDID gives: the record the driver filled in when its
/// status is zero or more, else the status together with the record as the
/// driver left it.
pub fn edid_result(code: i32, data: edid) -> (r: Result<edid, (i32, edid)>)
    ensures
        code >= 0 ==> r == Ok::<edid, (i32, edid)>(data),
        code < 0 ==> r == Err::<edid, (i32, edid)>((code, data)),
{
    if code >= 0 {
        Ok(data)
    } else {
        Err((code, data))
    }
}

/// A call of the driver fails exactly when its status code is negative, and
/// its error is that code: error codes are never zero or positive.
pub proof fn lemma_status_error_negative(code: i32)
    ensures
        spec_status_result(code) is Ok <==> code >= 0,
        spec_status_result(code) matches Err(e) ==> e == code && e < 0,
{
}

} // verus!
