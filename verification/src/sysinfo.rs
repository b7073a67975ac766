//! Device status values rendered for the status page.  The memory and clock
//! reads themselves are platform calls the embedder makes; this module turns
//! the plain values into display strings.

use vstd::prelude::*;

use vstd::string::StringExecFns;

use crate::text::{spec_decimal, u64_to_string};

verus! {

/// Uptime rendered from whole seconds: hours, minutes and seconds, with
/// leading zero fields left out.
pub open spec fn spec_uptime(secs: int) -> Seq<char> {
    let h = secs / 3600;
    let m = (secs % 3600) / 60;
    let s = secs % 60;
    if h > 0 {
        spec_decimal(h) + "h "@ + spec_decimal(m) + "m "@ + spec_decimal(s) + "s"@
    } else if m > 0 {
        spec_decimal(m) + "m "@ + spec_decimal(s) + "s"@
    } else {
        spec_decimal(s) + "s"@
    }
}

/// Format uptime as "Xh Ym Zs" from the elapsed seconds since start.  The
/// monotonic clock itself belongs to the platform adapter; it never goes
/// backwards, so successive renderings never regress either.
pub fn uptime_string(elapsed_secs: u64) -> (s: String)
    ensures
        s@ == spec_uptime(elapsed_secs as int),
{
    let h: u64 = elapsed_secs / 3600;
    let m: u64 = (elapsed_secs % 3600) / 60;
    let sec: u64 = elapsed_secs % 60;
    let mut out = String::new();
    if h > 0 {
        out.append(u64_to_string(h).as_str());
        out.append("h ");
    }
    if h > 0 || m > 0 {
        out.append(u64_to_string(m).as_str());
        out.append("m ");
    }
    out.append(u64_to_string(sec).as_str());
    out.append("s");
    proof {
        assert(out@ =~= spec_uptime(elapsed_secs as int));
    }
    out
}

/// Clamp the raw station count the wireless stack reports into the
/// displayable range: never negative, and never above the stack's own
/// connection ceiling.
pub fn clamp_client_count(raw: i32) -> (n: u8)
    ensures
        n == (if raw < 0 {
            0u8
        } else if raw > 15 {
            15u8
        } else {
            raw as u8
        }),
{
    if raw < 0 {
        0
    } else if raw > 15 {
        15
    } else {
        raw as u8
    }
}

/// The firmware version, as published in the package manifest.
pub fn firmware_version() -> (v: &'static str)
    ensures
        v@ == "1.0.0"@,
{
    "1.0.0"
}

} // verus!
