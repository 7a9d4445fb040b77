use vstd::prelude::*;

use crate::dates::{date_shaped, verify_date};
use crate::errors::ChartError;
use crate::regions::{region_of, verify_code, Regions};

verus! {

/// Validates a (region code, date) pair before any snapshot lookup is
/// attempted: the code must be in the closed vocabulary and the date
/// string must have the exact `YYYY-MM-DD` shape. The code is reported
/// first when both fail; whether a snapshot actually backs the pair is
/// for the caller holding the store to find out.
pub fn validate_snapshot_key(code: &str, date: &str) -> (r: Result<(), ChartError>)
    ensures
        r is Ok <==> region_of(code@) != Regions::NOTVALID && date_shaped(date@),
        region_of(code@) == Regions::NOTVALID ==> r == Err::<(), ChartError>(
            ChartError::InvalidRegionCode,
        ),
        region_of(code@) != Regions::NOTVALID && !date_shaped(date@) ==> r == Err::<
            (),
            ChartError,
        >(ChartError::InvalidDateFormat),
{
    if !verify_code(code) {
        Err(ChartError::InvalidRegionCode)
    } else if !verify_date(date) {
        Err(ChartError::InvalidDateFormat)
    } else {
        Ok(())
    }
}

} // verus!
