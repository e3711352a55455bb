//! Human-readable rendering of sizes and times, in pure integer
//! arithmetic: byte counts with one decimal and a binary unit, clock
//! times from seconds since the epoch, and rough "time ago" phrases.

use vstd::prelude::*;

use crate::text::{
    digit_char, spec_decimal, spec_padded_decimal, u64_to_decimal, u64_to_padded_decimal,
};

verus! {

/// The power of 1024 belonging to the unit `bytes` is shown in:
/// one tebibyte and above always renders in TB.
pub open spec fn size_pow(bytes: u64) -> int {
    if bytes >= 1099511627776 {
        1099511627776
    } else if bytes >= 1073741824 {
        1073741824
    } else if bytes >= 1048576 {
        1048576
    } else if bytes >= 1024 {
        1024
    } else {
        1
    }
}

/// The unit suffix belonging to `bytes`.
pub open spec fn size_suffix(bytes: u64) -> Seq<char> {
    if bytes >= 1099511627776 {
        " TB"@
    } else if bytes >= 1073741824 {
        " GB"@
    } else if bytes >= 1048576 {
        " MB"@
    } else if bytes >= 1024 {
        " KB"@
    } else {
        " B"@
    }
}

/// `bytes` scaled to its unit, in tenths, rounded half-up.
pub open spec fn size_tenths(bytes: u64) -> int {
    (20 * bytes + size_pow(bytes)) / (2 * size_pow(bytes))
}

/// A byte count with one decimal digit and its binary unit; zero is
/// `"0 B"`.
pub open spec fn spec_format_size(bytes: u64) -> Seq<char> {
    if bytes == 0 {
        "0 B"@
    } else {
        spec_decimal((size_tenths(bytes) / 10) as nat) + "."@ + seq![
            digit_char(size_tenths(bytes) % 10),
        ] + size_suffix(bytes)
    }
}

/// Renders a byte count for display: one decimal digit and a binary
/// unit, rounding half-up.
pub fn format_size(bytes: u64) -> (r: String)
    ensures
        r@ == spec_format_size(bytes),
{
    if bytes == 0 {
        return String::from_str("0 B");
    }
    let pow: u64 = if bytes >= 1099511627776 {
        1099511627776
    } else if bytes >= 1073741824 {
        1073741824
    } else if bytes >= 1048576 {
        1048576
    } else if bytes >= 1024 {
        1024
    } else {
        1
    };
    let suffix: &str = if bytes >= 1099511627776 {
        " TB"
    } else if bytes >= 1073741824 {
        " GB"
    } else if bytes >= 1048576 {
        " MB"
    } else if bytes >= 1024 {
        " KB"
    } else {
        " B"
    };
    let t: u128 = (20 * bytes as u128 + pow as u128) / (2 * pow as u128);
    proof {
        assert(t == size_tenths(bytes));
        assert(t < 200000000) by {
            let a = 20 * bytes as int + pow as int;
            let b = 2 * pow as int;
            assert(a < b * 200000000);
            vstd::arithmetic::div_mod::lemma_multiply_divide_lt(a, b, 200000000);
        }
    }
    let whole: u64 = (t / 10) as u64;
    let frac: u64 = (t % 10) as u64;
    let mut r = u64_to_decimal(whole);
    r.append(".");
    let frac_digits = u64_to_decimal(frac);
    r.append(frac_digits.as_str());
    r.append(suffix);
    proof {
        reveal_strlit(".");
        assert(spec_decimal(frac as nat) =~= seq![digit_char(size_tenths(bytes) % 10)]);
        assert(r@ =~= spec_format_size(bytes));
    }
    r
}

/// A calendar-like rendering of seconds since the epoch, in the
/// approximate arithmetic of 365-day years and 30-day months:
/// `yyyy.mm.dd hh:mm` with zero-padded fields.
pub open spec fn spec_format_time(secs: u64) -> Seq<char> {
    let minutes = secs as int / 60;
    let hours = minutes / 60;
    let days = hours / 24;
    let year = 1970 + days / 365;
    let month = (days % 365) / 30 + 1;
    let day = days % 30 + 1;
    let hour = hours % 24;
    let minute = minutes % 60;
    spec_padded_decimal(year as nat, 4) + "."@ + spec_padded_decimal(month as nat, 2) + "."@
        + spec_padded_decimal(day as nat, 2) + " "@ + spec_padded_decimal(hour as nat, 2) + ":"@
        + spec_padded_decimal(minute as nat, 2)
}

/// Renders seconds since the epoch as `yyyy.mm.dd hh:mm`, using
/// 365-day years and 30-day months.
pub fn format_time(secs: u64) -> (r: String)
    ensures
        r@ == spec_format_time(secs),
{
    let minutes: u64 = secs / 60;
    let hours: u64 = minutes / 60;
    let days: u64 = hours / 24;
    let year: u64 = 1970 + days / 365;
    let month: u64 = (days % 365) / 30 + 1;
    let day: u64 = days % 30 + 1;
    let hour: u64 = hours % 24;
    let minute: u64 = minutes % 60;
    let mut r = u64_to_padded_decimal(year, 4);
    let part_month = u64_to_padded_decimal(month, 2);
    let part_day = u64_to_padded_decimal(day, 2);
    let part_hour = u64_to_padded_decimal(hour, 2);
    let part_minute = u64_to_padded_decimal(minute, 2);
    r.append(".");
    r.append(part_month.as_str());
    r.append(".");
    r.append(part_day.as_str());
    r.append(" ");
    r.append(part_hour.as_str());
    r.append(":");
    r.append(part_minute.as_str());
    proof {
        assert(r@ =~= spec_format_time(secs));
    }
    r
}

/// A rough "how long ago" phrase for an elapsed number of seconds.
pub open spec fn spec_format_time_ago(secs: u64) -> Seq<char> {
    let years = secs as int / 31536000;
    let days = (secs as int % 31536000) / 86400;
    let hours = (secs as int % 86400) / 3600;
    let minutes = (secs as int % 3600) / 60;
    if years > 0 {
        spec_decimal(years as nat) + "y "@ + spec_decimal(days as nat) + "d ago"@
    } else if days > 0 {
        spec_decimal(days as nat) + "d "@ + spec_decimal(hours as nat) + "h ago"@
    } else if hours > 0 {
        spec_decimal(hours as nat) + "h "@ + spec_decimal(minutes as nat) + "m ago"@
    } else if minutes > 0 {
        spec_decimal(minutes as nat) + "m ago"@
    } else {
        "Just now"@
    }
}

/// Renders an elapsed number of seconds as a rough "time ago" phrase.
pub fn format_time_ago(secs: u64) -> (r: String)
    ensures
        r@ == spec_format_time_ago(secs),
{
    let years: u64 = secs / 31536000;
    let days: u64 = (secs % 31536000) / 86400;
    let hours: u64 = (secs % 86400) / 3600;
    let minutes: u64 = (secs % 3600) / 60;
    if years > 0 {
        let mut r = u64_to_decimal(years);
        let part_days = u64_to_decimal(days);
        r.append("y ");
        r.append(part_days.as_str());
        r.append("d ago");
        proof {
            assert(r@ =~= spec_format_time_ago(secs));
        }
        r
    } else if days > 0 {
        let mut r = u64_to_decimal(days);
        let part_hours = u64_to_decimal(hours);
        r.append("d ");
        r.append(part_hours.as_str());
        r.append("h ago");
        proof {
            assert(r@ =~= spec_format_time_ago(secs));
        }
        r
    } else if hours > 0 {
        let mut r = u64_to_decimal(hours);
        let part_minutes = u64_to_decimal(minutes);
        r.append("h ");
        r.append(part_minutes.as_str());
        r.append("m ago");
        proof {
            assert(r@ =~= spec_format_time_ago(secs));
        }
        r
    } else if minutes > 0 {
        let mut r = u64_to_decimal(minutes);
        r.append("m ago");
        proof {
            assert(r@ =~= spec_format_time_ago(secs));
        }
        r
    } else {
        String::from_str("Just now")
    }
}

} // verus!
