//! The host shell's port bookkeeping: the port its auxiliary HTTP server
//! listens on, and the scan that picks the first free port of a fixed
//! range.  Probing whether a port is actually bindable is the caller's
//! business; the scan decides from the probe results alone.

use vstd::prelude::*;

verus! {

/// The first port of the scanned range.
pub const SCAN_BASE_PORT: u16 = 8000;

/// How many consecutive ports the scan considers.
pub const SCAN_RANGE: usize = 1000;

/// What the host shell shares with its windows: the port its auxiliary
/// server listens on, if one was found.
pub struct AppState {
    pub port: Option<u16>,
}

/// Returns the auxiliary server's port.  Callers must have checked that a
/// port was found.
pub fn get_port(app: &AppState) -> (r: u16)
    requires
        app.port is Some,
    ensures
        app.port == Some(r),
{
    app.port.unwrap()
}

/// How many entries of the probe results the scan reads: one per port of
/// the range, and never more than were probed.
pub open spec fn spec_scan_len(available: Seq<bool>) -> int {
    if available.len() <= SCAN_RANGE {
        available.len() as int
    } else {
        SCAN_RANGE as int
    }
}

/// Picks the first free port of the range, reading `available[i]` as the
/// probe result for port `SCAN_BASE_PORT + i`: the first index that probed
/// free wins; with none, no port is returned.
pub fn get_available_port(available: &Vec<bool>) -> (r: Option<u16>)
    ensures
        (match r {
            Some(p) => {
                &&& SCAN_BASE_PORT as int <= p as int
                &&& (p as int) < SCAN_BASE_PORT as int + SCAN_RANGE as int
                &&& p - SCAN_BASE_PORT < available@.len()
                &&& available@[p - SCAN_BASE_PORT]
                &&& forall|j: int| 0 <= j < p - SCAN_BASE_PORT ==> !available@[j]
            },
            None => forall|i: int| 0 <= i < spec_scan_len(available@) ==> !available@[i],
        }),
{
    let n = if available.len() <= SCAN_RANGE {
        available.len()
    } else {
        SCAN_RANGE
    };
    let mut i: usize = 0;
    while i < n
        invariant
            n == spec_scan_len(available@),
            n <= available.len(),
            i <= n,
            forall|j: int| 0 <= j < i ==> !available@[j],
        decreases n - i,
    {
        if available[i] {
            return Some(SCAN_BASE_PORT + (i as u16));
        }
        i += 1;
    }
    None
}

} // verus!
