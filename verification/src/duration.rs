//! Formatting of an elapsed time as a list of its non-zero units, from days
//! down to seconds, by floor division.
use vstd::prelude::*;
use vstd::string::*;
use vstd::arithmetic::div_mod::{lemma_div_denominator, lemma_fundamental_div_mod};
use crate::text::{dec_of, u64_to_string};

verus! {

pub open spec fn duration_days(total: nat) -> nat {
    total / 86400
}

pub open spec fn duration_hours(total: nat) -> nat {
    (total / 3600) % 24
}

pub open spec fn duration_minutes(total: nat) -> nat {
    (total / 60) % 60
}

pub open spec fn duration_seconds(total: nat) -> nat {
    total % 60
}

/// The rendered form of a duration: each non-zero unit in descending order,
/// nothing at all when every unit is zero. The units above seconds carry a
/// trailing space, so a rendering that ends in one of them keeps it.
pub open spec fn duration_text(total: nat) -> Seq<char> {
    (if duration_days(total) > 0 {
        dec_of(duration_days(total)) + " days "@
    } else {
        Seq::<char>::empty()
    }) + (if duration_hours(total) > 0 {
        dec_of(duration_hours(total)) + " hours "@
    } else {
        Seq::<char>::empty()
    }) + (if duration_minutes(total) > 0 {
        dec_of(duration_minutes(total)) + " minutes "@
    } else {
        Seq::<char>::empty()
    }) + (if duration_seconds(total) > 0 {
        dec_of(duration_seconds(total)) + " seconds"@
    } else {
        Seq::<char>::empty()
    })
}

/// Renders `total` seconds of elapsed time, omitting zero-valued units; an
/// elapsed time of zero renders as the empty string.
pub fn format_duration(total: u64) -> (r: String)
    ensures
        r@ == duration_text(total as nat),
{
    let days = total / 86400;
    let hours = (total / 3600) % 24;
    let minutes = (total / 60) % 60;
    let seconds = total % 60;
    let mut out = String::new();
    if days > 0 {
        out.append(u64_to_string(days).as_str());
        out.append(" days ");
    }
    if hours > 0 {
        out.append(u64_to_string(hours).as_str());
        out.append(" hours ");
    }
    if minutes > 0 {
        out.append(u64_to_string(minutes).as_str());
        out.append(" minutes ");
    }
    if seconds > 0 {
        out.append(u64_to_string(seconds).as_str());
        out.append(" seconds");
    }
    proof {
        assert(out@ =~= duration_text(total as nat));
    }
    out
}

/// The floor decomposition recombines exactly: counting the days, hours,
/// minutes and seconds back in seconds gives the total itself, so the
/// decomposition loses nothing and never overshoots.
pub proof fn lemma_duration_decomposition(total: u64)
    ensures
        duration_days(total as nat) * 86400 + duration_hours(total as nat) * 3600
            + duration_minutes(total as nat) * 60 + duration_seconds(total as nat) == total,
{
    let t = total as int;
    lemma_fundamental_div_mod(t, 60);
    lemma_fundamental_div_mod(t / 60, 60);
    lemma_fundamental_div_mod(t / 3600, 24);
    lemma_div_denominator(t, 60, 60);
    lemma_div_denominator(t, 3600, 24);
    assert(3600 * 24 == 86400);
    assert(t == 60 * (t / 60) + t % 60);
    assert(t / 60 == 60 * (t / 3600) + (t / 60) % 60);
    assert(t / 3600 == 24 * (t / 86400) + (t / 3600) % 24);
}

} // verus!
