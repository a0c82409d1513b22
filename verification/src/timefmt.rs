use crate::strutil::{push_char, spec_dec, u64_to_string};
use vstd::prelude::*;

verus! {

/// The fractional part of a second, rendered as exactly three digits.
pub open spec fn spec_pad3(f: nat) -> Seq<char> {
    if f < 10 {
        seq!['0', '0'] + spec_dec(f)
    } else if f < 100 {
        seq!['0'] + spec_dec(f)
    } else {
        spec_dec(f)
    }
}

/// The seconds unit of a duration: the whole seconds, followed by the
/// millisecond remainder after a dot — or nothing after the seconds when the
/// sub-second component is exactly zero.
pub open spec fn spec_seconds_part(ms: nat) -> Seq<char> {
    let secs = (ms / 1000) % 60;
    let frac = ms % 1000;
    if frac == 0 {
        spec_dec(secs)
    } else {
        spec_dec(secs) + seq!['.'] + spec_pad3(frac)
    }
}

/// A duration of `ms` milliseconds rendered as `H`h `M`m `S.fff`s, dropping
/// leading zero-valued units: no hours shown if zero, no minutes if both
/// hours and minutes are zero.
pub open spec fn spec_format_time(ms: nat) -> Seq<char> {
    let hours = ms / 3600000;
    let minutes = (ms / 60000) % 60;
    if hours != 0 {
        spec_dec(hours) + seq!['h', ' '] + spec_dec(minutes) + seq!['m', ' ']
            + spec_seconds_part(ms) + seq!['s']
    } else if minutes != 0 {
        spec_dec(minutes) + seq!['m', ' '] + spec_seconds_part(ms) + seq!['s']
    } else {
        spec_seconds_part(ms) + seq!['s']
    }
}

fn pad3(f: u64) -> (r: String)
    requires
        f < 1000,
    ensures
        r@ == spec_pad3(f as nat),
{
    let mut s = String::new();
    if f < 10 {
        push_char(&mut s, '0');
        push_char(&mut s, '0');
    } else if f < 100 {
        push_char(&mut s, '0');
    }
    let digits = u64_to_string(f);
    s.append(digits.as_str());
    proof {
        assert(s@ =~= spec_pad3(f as nat));
    }
    s
}

fn seconds_part(ms: u64) -> (r: String)
    ensures
        r@ == spec_seconds_part(ms as nat),
{
    let secs: u64 = (ms / 1000) % 60;
    let frac: u64 = ms % 1000;
    let mut s = u64_to_string(secs);
    if frac != 0 {
        push_char(&mut s, '.');
        let padded = pad3(frac);
        s.append(padded.as_str());
    }
    proof {
        assert(s@ =~= spec_seconds_part(ms as nat));
    }
    s
}

/// Renders a run duration, given in whole milliseconds, for the notification
/// text.
pub fn format_time(ms: u64) -> (r: String)
    ensures
        r@ == spec_format_time(ms as nat),
{
    let hours: u64 = ms / 3600000;
    let minutes: u64 = (ms / 60000) % 60;
    let secs = seconds_part(ms);
    let mut s: String;
    if hours != 0 {
        s = u64_to_string(hours);
        push_char(&mut s, 'h');
        push_char(&mut s, ' ');
        let m = u64_to_string(minutes);
        s.append(m.as_str());
        push_char(&mut s, 'm');
        push_char(&mut s, ' ');
    } else if minutes != 0 {
        s = u64_to_string(minutes);
        push_char(&mut s, 'm');
        push_char(&mut s, ' ');
    } else {
        s = String::new();
    }
    s.append(secs.as_str());
    push_char(&mut s, 's');
    proof {
        assert(s@ =~= spec_format_time(ms as nat));
    }
    s
}

} // verus!
