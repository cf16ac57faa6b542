//! Time stamps for saved connections.

use crate::text::{decimal, push_decimal, string_of};
use vstd::prelude::*;

verus! {

/// The whole seconds since the Unix epoch on the system clock, by
/// `SystemTime::now`; zero where the clock stands before the epoch. Nothing
/// is claimed of the number: it depends on the moment of the call.
#[verifier::external_body]
fn unix_seconds() -> u64 {
    std::time::SystemTime::now().duration_since(std::time::UNIX_EPOCH).unwrap_or_default().as_secs()
}

/// The time stamp for the moment `secs` whole seconds after the Unix epoch:
/// the milliseconds since the epoch, in decimal digits.
pub open spec fn stamp_of(secs: u64) -> Seq<char> {
    decimal(secs as nat * 1000)
}

/// The time stamp for the moment `secs` whole seconds after the Unix epoch.
pub fn epoch_millis(secs: u64) -> (stamp: String)
    ensures
        stamp@ == stamp_of(secs),
{
    let millis: u128 = (secs as u128) * 1000;
    let mut digits: Vec<char> = Vec::new();
    push_decimal(millis, &mut digits);
    proof {
        assert(Seq::<char>::empty() + decimal(millis as nat) =~= decimal(millis as nat));
    }
    string_of(&digits)
}

/// The time stamp of the present moment: the milliseconds since the Unix
/// epoch, counted in whole seconds, in decimal digits.
pub fn chrono_now() -> (stamp: String)
    ensures
        exists|secs: u64| stamp@ == #[trigger] stamp_of(secs),
{
    let secs = unix_seconds();
    epoch_millis(secs)
}

} // verus!
