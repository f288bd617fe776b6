//! Rendering of local times.
use vstd::prelude::*;
use crate::event::LocalTime;
use crate::text::{push_zero_padded, zero_padded};

verus! {

/// `hh:mm:ss`.
pub open spec fn clock_text(t: LocalTime) -> Seq<char> {
    zero_padded(t.hour as nat, 2) + ":"@ + zero_padded(t.minute as nat, 2) + ":"@ + zero_padded(
        t.second as nat,
        2,
    )
}

/// `hh:mm:ss.mmm`.
pub open spec fn clock_ms_text(t: LocalTime) -> Seq<char> {
    clock_text(t) + "."@ + zero_padded(t.millisecond as nat, 3)
}

/// `YYYY-MM-DD`.
pub open spec fn date_text(t: LocalTime) -> Seq<char> {
    zero_padded(t.year as nat, 4) + "-"@ + zero_padded(t.month as nat, 2) + "-"@ + zero_padded(
        t.day as nat,
        2,
    )
}

/// `YYYY-MM-DD hh:mm:ss`.
pub open spec fn date_clock_text(t: LocalTime) -> Seq<char> {
    date_text(t) + " "@ + clock_text(t)
}

/// `YYYY-MM-DD hh:mm:ss.mmm`.
pub open spec fn date_clock_ms_text(t: LocalTime) -> Seq<char> {
    date_text(t) + " "@ + clock_ms_text(t)
}

/// `YYYY-MM-DD_hh-mm-ss`, a form usable in file names.
pub open spec fn file_stamp_text(t: LocalTime) -> Seq<char> {
    date_text(t) + "_"@ + zero_padded(t.hour as nat, 2) + "-"@ + zero_padded(t.minute as nat, 2)
        + "-"@ + zero_padded(t.second as nat, 2)
}

pub fn push_clock(out: &mut String, t: &LocalTime)
    ensures
        final(out)@ == old(out)@ + clock_text(*t),
{
    push_zero_padded(out, t.hour as u64, 2);
    out.append(":");
    push_zero_padded(out, t.minute as u64, 2);
    out.append(":");
    push_zero_padded(out, t.second as u64, 2);
    proof {
        assert(final(out)@ =~= old(out)@ + clock_text(*t));
    }
}

pub fn push_clock_ms(out: &mut String, t: &LocalTime)
    ensures
        final(out)@ == old(out)@ + clock_ms_text(*t),
{
    push_clock(out, t);
    out.append(".");
    push_zero_padded(out, t.millisecond as u64, 3);
    proof {
        assert(final(out)@ =~= old(out)@ + clock_ms_text(*t));
    }
}

pub fn push_date(out: &mut String, t: &LocalTime)
    ensures
        final(out)@ == old(out)@ + date_text(*t),
{
    push_zero_padded(out, t.year as u64, 4);
    out.append("-");
    push_zero_padded(out, t.month as u64, 2);
    out.append("-");
    push_zero_padded(out, t.day as u64, 2);
    proof {
        assert(final(out)@ =~= old(out)@ + date_text(*t));
    }
}

pub fn push_date_clock(out: &mut String, t: &LocalTime)
    ensures
        final(out)@ == old(out)@ + date_clock_text(*t),
{
    push_date(out, t);
    out.append(" ");
    push_clock(out, t);
    proof {
        assert(final(out)@ =~= old(out)@ + date_clock_text(*t));
    }
}

pub fn push_date_clock_ms(out: &mut String, t: &LocalTime)
    ensures
        final(out)@ == old(out)@ + date_clock_ms_text(*t),
{
    push_date(out, t);
    out.append(" ");
    push_clock_ms(out, t);
    proof {
        assert(final(out)@ =~= old(out)@ + date_clock_ms_text(*t));
    }
}

pub fn push_file_stamp(out: &mut String, t: &LocalTime)
    ensures
        final(out)@ == old(out)@ + file_stamp_text(*t),
{
    push_date(out, t);
    out.append("_");
    push_zero_padded(out, t.hour as u64, 2);
    out.append("-");
    push_zero_padded(out, t.minute as u64, 2);
    out.append("-");
    push_zero_padded(out, t.second as u64, 2);
    proof {
        assert(final(out)@ =~= old(out)@ + file_stamp_text(*t));
    }
}

} // verus!
