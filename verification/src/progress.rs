//! Human-readable download progress: transfer speed and remaining time.

use vstd::prelude::*;

use crate::text::decimal_digits;
use crate::text::digit_char;
use crate::text::digit_str;
use crate::text::u64_to_string;

verus! {

use vstd::string::StringExecFns;

/// `bps / unit` scaled to one decimal place, rounded half up: the whole part
/// and the tenths digit.
pub open spec fn spec_speed_scaled(bps: nat, unit: nat) -> (nat, nat)
    recommends
        unit >= 2,
{
    let whole = bps / unit;
    let tenths = ((bps % unit) * 10 + unit / 2) / unit;
    if tenths == 10 {
        ((whole + 1) as nat, 0)
    } else {
        (whole, tenths)
    }
}

/// The rendering of a scaled value with its unit suffix.
pub open spec fn spec_scaled_text(bps: nat, unit: nat, suffix: Seq<char>) -> Seq<char> {
    let scaled = spec_speed_scaled(bps, unit);
    decimal_digits(scaled.0) + "."@ + seq![digit_char(scaled.1)] + suffix
}

/// The human-readable form of a transfer speed in bytes per second: scaled
/// to GB/s, MB/s or KB/s with one decimal place, or plain bytes below 1000.
pub open spec fn spec_format_speed(bps: nat) -> Seq<char> {
    if bps >= 1_000_000_000 {
        spec_scaled_text(bps, 1_000_000_000, " GB/s"@)
    } else if bps >= 1_000_000 {
        spec_scaled_text(bps, 1_000_000, " MB/s"@)
    } else if bps >= 1_000 {
        spec_scaled_text(bps, 1_000, " KB/s"@)
    } else {
        decimal_digits(bps) + " B/s"@
    }
}

/// Renders `bps / unit` to one decimal place and appends the unit suffix.
fn format_scaled(bps: u64, unit: u64, suffix: &str) -> (r: String)
    requires
        2 <= unit <= 1_000_000_000,
    ensures
        r@ == spec_scaled_text(bps as nat, unit as nat, suffix@),
{
    let whole = bps / unit;
    let tenths = ((bps % unit) * 10 + unit / 2) / unit;
    proof {
        let b = bps as int;
        let u = unit as int;
        assert((b % u * 10 + u / 2) / u <= 10) by (nonlinear_arith)
            requires
                2 <= u,
                0 <= b,
        ;
        assert(b / u <= b / 2) by (nonlinear_arith)
            requires
                2 <= u,
                0 <= b,
        ;
    }
    let (whole, tenths) = if tenths == 10 {
        (whole + 1, 0u64)
    } else {
        (whole, tenths)
    };
    let r = u64_to_string(whole).concat(".").concat(digit_str(tenths).as_str()).concat(suffix);
    proof {
        reveal_strlit(".");
        assert("."@ =~= seq!['.']);
        assert(r@ =~= spec_scaled_text(bps as nat, unit as nat, suffix@));
    }
    r
}

/// Formats bytes per second as a human-readable speed.
pub fn format_speed(bps: u64) -> (r: String)
    ensures
        r@ == spec_format_speed(bps as nat),
{
    if bps >= 1_000_000_000 {
        format_scaled(bps, 1_000_000_000, " GB/s")
    } else if bps >= 1_000_000 {
        format_scaled(bps, 1_000_000, " MB/s")
    } else if bps >= 1_000 {
        format_scaled(bps, 1_000, " KB/s")
    } else {
        let r = u64_to_string(bps).concat(" B/s");
        proof {
            assert(r@ =~= spec_format_speed(bps as nat));
        }
        r
    }
}

/// The human-readable remaining time of a transfer: unknown while stalled or
/// already complete, otherwise hours and minutes, minutes and seconds, or
/// seconds alone.
pub open spec fn spec_format_eta(downloaded: nat, total: nat, speed_bps: nat) -> Seq<char> {
    if speed_bps == 0 || downloaded >= total {
        "Unknown"@
    } else {
        let remaining_secs = ((total - downloaded) as nat) / speed_bps;
        if remaining_secs >= 3600 {
            decimal_digits(remaining_secs / 3600) + "h "@ + decimal_digits(
                (remaining_secs % 3600) / 60,
            ) + "m"@
        } else if remaining_secs >= 60 {
            decimal_digits(remaining_secs / 60) + "m "@ + decimal_digits(remaining_secs % 60)
                + "s"@
        } else {
            decimal_digits(remaining_secs) + "s"@
        }
    }
}

/// Formats the remaining time of a transfer.
pub fn format_eta(downloaded: u64, total: u64, speed_bps: u64) -> (r: String)
    ensures
        r@ == spec_format_eta(downloaded as nat, total as nat, speed_bps as nat),
{
    if speed_bps == 0 || downloaded >= total {
        return String::from_str("Unknown");
    }
    let remaining_bytes = total - downloaded;
    let remaining_secs = remaining_bytes / speed_bps;
    let r = if remaining_secs >= 3600 {
        let hours = remaining_secs / 3600;
        let mins = (remaining_secs % 3600) / 60;
        u64_to_string(hours).concat("h ").concat(u64_to_string(mins).as_str()).concat("m")
    } else if remaining_secs >= 60 {
        let mins = remaining_secs / 60;
        let secs = remaining_secs % 60;
        u64_to_string(mins).concat("m ").concat(u64_to_string(secs).as_str()).concat("s")
    } else {
        u64_to_string(remaining_secs).concat("s")
    };
    proof {
        assert(r@ =~= spec_format_eta(downloaded as nat, total as nat, speed_bps as nat));
    }
    r
}

} // verus!
