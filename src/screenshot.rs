//! Names of the folders that hold the screenshots of an alert.
use vstd::prelude::*;
use vstd::string::*;
use crate::event::LocalTime;
use crate::stamp::{file_stamp_text, push_file_stamp};

verus! {

/// Longest sanitized name, in characters.
pub const MAX_NAME_CHARS: usize = 30;

/// Whether Unicode classes `c` as alphabetic or numeric.
pub uninterp spec fn alphanumeric(c: char) -> bool;

/// Relies on `char::is_alphanumeric`: the answer depends on the character
/// alone.
#[verifier::external_body]
fn is_alphanumeric(c: char) -> (r: bool)
    ensures
        r == alphanumeric(c),
{
    c.is_alphanumeric()
}

/// A character may stand in a folder name as it is: it is alphanumeric
/// (`alnum`), a dash or an underscore.
pub open spec fn kept_char(c: char, alnum: bool) -> bool {
    alnum || c == '-' || c == '_'
}

/// The first thirty characters of `s`, each one that may not stand in a
/// folder name replaced by an underscore; `alnum[i]` tells whether `s[i]` is
/// alphanumeric.
pub open spec fn sanitized_with(s: Seq<char>, alnum: Seq<bool>) -> Seq<char> {
    Seq::new(
        if s.len() < MAX_NAME_CHARS {
            s.len()
        } else {
            MAX_NAME_CHARS as nat
        },
        |i: int|
            if kept_char(s[i], alnum[i]) {
                s[i]
            } else {
                '_'
            },
    )
}

/// Whether Unicode classes each character of `s` as alphanumeric.
pub open spec fn alphanumeric_flags(s: Seq<char>) -> Seq<bool> {
    Seq::new(s.len(), |i: int| alphanumeric(s[i]))
}

/// `sanitized_with` on the Unicode classes of the characters.
pub open spec fn sanitized(s: Seq<char>) -> Seq<char> {
    sanitized_with(s, alphanumeric_flags(s))
}

/// The sanitized form of `name`, given for each of its characters whether it
/// is alphanumeric.
pub fn sanitize_flagged(name: &str, alnum: &Vec<bool>) -> (r: String)
    requires
        alnum@.len() == name@.len(),
    ensures
        r@ == sanitized_with(name@, alnum@),
{
    let n = name.unicode_len();
    let limit = if n < MAX_NAME_CHARS {
        n
    } else {
        MAX_NAME_CHARS
    };
    let mut out = String::new();
    let mut i: usize = 0;
    while i < limit
        invariant
            n == name@.len(),
            alnum@.len() == n,
            limit <= n,
            limit == (if n < MAX_NAME_CHARS {
                n
            } else {
                MAX_NAME_CHARS
            }),
            i <= limit,
            out@ == sanitized_with(name@, alnum@).subrange(0, i as int),
        decreases limit - i,
    {
        let c = name.get_char(i);
        let ghost prev = out@;
        let ghost want = sanitized_with(name@, alnum@);
        assert(want[i as int] == (if kept_char(c, alnum@[i as int]) {
            c
        } else {
            '_'
        }));
        if alnum[i] || c == '-' || c == '_' {
            let piece = name.substring_char(i, i + 1);
            assert(piece@ =~= seq![c]);
            out.append(piece);
        } else {
            out.append("_");
            proof {
                reveal_strlit("_");
            }
        }
        assert(out@ =~= prev.push(want[i as int]));
        i = i + 1;
        proof {
            assert(out@ =~= want.subrange(0, i as int));
        }
    }
    proof {
        assert(out@ =~= sanitized_with(name@, alnum@));
    }
    out
}

pub fn sanitize_filename(name: &str) -> (r: String)
    ensures
        r@ == sanitized(name@),
{
    let n = name.unicode_len();
    let mut alnum: Vec<bool> = Vec::new();
    let mut i: usize = 0;
    while i < n
        invariant
            n == name@.len(),
            i <= n,
            alnum@ == alphanumeric_flags(name@).subrange(0, i as int),
        decreases n - i,
    {
        alnum.push(is_alphanumeric(name.get_char(i)));
        i = i + 1;
        proof {
            assert(alnum@ =~= alphanumeric_flags(name@).subrange(0, i as int));
        }
    }
    proof {
        assert(alnum@ =~= alphanumeric_flags(name@));
    }
    sanitize_flagged(name, &alnum)
}

/// The folder of an alert's screenshots: its time, then the sanitized
/// process name.
pub open spec fn folder_text(t: LocalTime, process_name: Seq<char>) -> Seq<char> {
    file_stamp_text(t) + "_"@ + sanitized(process_name)
}

pub fn screenshot_folder_name(t: &LocalTime, process_name: &str) -> (r: String)
    ensures
        r@ == folder_text(*t, process_name@),
{
    let mut out = String::new();
    push_file_stamp(&mut out, t);
    out.append("_");
    let name = sanitize_filename(process_name);
    out.append(name.as_str());
    proof {
        assert(out@ =~= folder_text(*t, process_name@));
    }
    out
}

} // verus!
