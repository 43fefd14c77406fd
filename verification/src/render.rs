//! Rendering of one metadata record: the bare path, or the long-format
//! line with permissions, link count, owner, group, size, modification
//! time and path.

use vstd::prelude::*;
use vstd::string::{StrSliceExecFns, StringExecFns};
use crate::errors::LsError;
use crate::meta::FileData;
use crate::perm::{sym_seq, FilePermissions};

verus! {

/// The decimal digit character for a value below ten.
pub open spec fn spec_dec_digit(d: nat) -> char {
    if d == 0 {
        '0'
    } else if d == 1 {
        '1'
    } else if d == 2 {
        '2'
    } else if d == 3 {
        '3'
    } else if d == 4 {
        '4'
    } else if d == 5 {
        '5'
    } else if d == 6 {
        '6'
    } else if d == 7 {
        '7'
    } else if d == 8 {
        '8'
    } else {
        '9'
    }
}

/// The decimal representation of a natural number, most significant
/// digit first, with no leading zeros (a lone zero for zero itself).
pub open spec fn spec_dec(n: nat) -> Seq<char>
    decreases n,
{
    if n < 10 {
        seq![spec_dec_digit(n)]
    } else {
        spec_dec(n / 10).push(spec_dec_digit(n % 10))
    }
}

/// A run of `n` space characters.
pub open spec fn spec_spaces(n: nat) -> Seq<char>
    decreases n,
{
    if n == 0 {
        Seq::empty()
    } else {
        spec_spaces((n - 1) as nat).push(' ')
    }
}

/// `s` right-aligned to a minimum width `w`: spaces are put in front
/// until the width is reached; a string at least `w` long is unchanged.
pub open spec fn spec_pad_left(s: Seq<char>, w: nat) -> Seq<char> {
    if s.len() >= w {
        s
    } else {
        spec_spaces((w - s.len()) as nat) + s
    }
}

/// The nine-character permission block: owner, group and other symbols
/// with nothing between them.
pub open spec fn spec_perm_string(p: FilePermissions) -> Seq<char> {
    sym_seq(p.owner) + sym_seq(p.group) + sym_seq(p.other)
}

/// The long-format line for a record, given the already formatted
/// modification time: the permission block, the link count right-aligned
/// to width 4, the owner and group names, the size right-aligned to
/// width 9, the time and the path, separated by single spaces except for
/// the double spaces around the size block.
pub open spec fn spec_long_line(fd: FileData, time: Seq<char>) -> Seq<char> {
    spec_perm_string(fd.permissions) + seq![' '] + spec_pad_left(
        spec_dec(fd.hard_link_count as nat),
        4,
    ) + seq![' '] + fd.owner@ + seq![' '] + fd.group@ + seq![' ', ' '] + spec_pad_left(
        spec_dec(fd.size as nat),
        9,
    ) + seq![' ', ' '] + time + seq![' '] + fd.path@
}

/// A run of spaces has exactly the asked-for length and holds spaces
/// alone.
pub proof fn lemma_spaces_len(n: nat)
    ensures
        spec_spaces(n).len() == n,
        forall|i: int| 0 <= i < n ==> spec_spaces(n)[i] == ' ',
    decreases n,
{
    if n > 0 {
        lemma_spaces_len((n - 1) as nat);
    }
}

/// Right-alignment pads to exactly the asked-for minimum width and
/// keeps the string itself as the suffix.
pub proof fn lemma_pad_left_len(s: Seq<char>, w: nat)
    ensures
        spec_pad_left(s, w).len() == if s.len() >= w {
            s.len()
        } else {
            w
        },
        spec_pad_left(s, w).len() >= w,
        spec_pad_left(s, w).subrange(
            spec_pad_left(s, w).len() - s.len(),
            spec_pad_left(s, w).len() as int,
        ) =~= s,
{
    if s.len() < w {
        lemma_spaces_len((w - s.len()) as nat);
    }
}

/// The digit character for `d`, which must be below ten.
fn dec_digit(d: u64) -> (r: &'static str)
    requires
        d < 10,
    ensures
        r@ =~= seq![spec_dec_digit(d as nat)],
{
    proof {
        reveal_strlit("0");
        reveal_strlit("1");
        reveal_strlit("2");
        reveal_strlit("3");
        reveal_strlit("4");
        reveal_strlit("5");
        reveal_strlit("6");
        reveal_strlit("7");
        reveal_strlit("8");
        reveal_strlit("9");
    }
    if d == 0 {
        "0"
    } else if d == 1 {
        "1"
    } else if d == 2 {
        "2"
    } else if d == 3 {
        "3"
    } else if d == 4 {
        "4"
    } else if d == 5 {
        "5"
    } else if d == 6 {
        "6"
    } else if d == 7 {
        "7"
    } else if d == 8 {
        "8"
    } else {
        "9"
    }
}

/// Writes a number in decimal, most significant digit first.
pub fn u64_to_dec(n: u64) -> (r: String)
    ensures
        r@ == spec_dec(n as nat),
    decreases n,
{
    if n < 10 {
        String::from_str(dec_digit(n))
    } else {
        let mut s = u64_to_dec(n / 10);
        s.append(dec_digit(n % 10));
        proof {
            assert(s@ =~= spec_dec(n as nat));
        }
        s
    }
}

/// Right-aligns a string to a minimum width by putting spaces in front.
pub fn pad_left(s: String, width: usize) -> (r: String)
    ensures
        r@ == spec_pad_left(s@, width as nat),
{
    let n = s.as_str().unicode_len();
    if n >= width {
        s
    } else {
        let mut pad = String::new();
        let mut i: usize = n;
        while i < width
            invariant
                n <= i <= width,
                n == s@.len(),
                pad@ =~= spec_spaces((i - n) as nat),
            decreases width - i,
        {
            pad.append(" ");
            proof {
                reveal_strlit(" ");
                assert(pad@ =~= spec_spaces((i + 1 - n) as nat));
            }
            i += 1;
        }
        let r = pad.concat(s.as_str());
        proof {
            assert(r@ =~= spec_pad_left(s@, width as nat));
        }
        r
    }
}

/// The smallest Unix timestamp chrono's calendar can represent: the
/// first second of its minimum date's year.
pub const MIN_TIMESTAMP: i64 = -8334601228800;

/// The largest Unix timestamp chrono's calendar can represent: the last
/// second of its maximum date.
pub const MAX_TIMESTAMP: i64 = 8210266876799;

/// Relies on chrono: `TimeZone::timestamp_opt` on `Local` maps a Unix
/// timestamp to the local calendar — `Single` exactly when
/// `DateTime::from_timestamp` accepts the seconds, which is a pure range
/// check against the calendar's minimum and maximum instants
/// (`MIN_TIMESTAMP`..=`MAX_TIMESTAMP`), and `None` out of that range.
/// Formatting with "%b %d %H:%M" yields the abbreviated English month
/// name (documented as always 3 letters), a zero-padded day, and a
/// 24-hour hour:minute — 12 characters in all. The local time zone is
/// the machine's, so nothing more is promised of the contents.
#[verifier::external_body]
fn format_timestamp(secs: i64) -> (r: Option<String>)
    ensures
        r matches Some(s) ==> s@.len() == 12,
        r is Some <==> MIN_TIMESTAMP <= secs <= MAX_TIMESTAMP,
{
    match chrono::TimeZone::timestamp_opt(&chrono::Local, secs, 0) {
        chrono::LocalResult::Single(dt) => Some(dt.format("%b %d %H:%M").to_string()),
        _ => None,
    }
}

/// Renders one record with the modification time already formatted:
/// the bare path when `long` is off, the exact long-format line when it
/// is on.
pub fn render_line(fd: &FileData, long: bool, time: &str) -> (r: String)
    ensures
        long ==> r@ == spec_long_line(*fd, time@),
        !long ==> r@ == fd.path@,
{
    if !long {
        return fd.path.clone();
    }
    let mut line = FilePermissions::to_symbol_single(fd.permissions.owner);
    line.append(FilePermissions::to_symbol_single(fd.permissions.group).as_str());
    line.append(FilePermissions::to_symbol_single(fd.permissions.other).as_str());
    line.append(" ");
    line.append(pad_left(u64_to_dec(fd.hard_link_count), 4).as_str());
    line.append(" ");
    line.append(fd.owner.as_str());
    line.append(" ");
    line.append(fd.group.as_str());
    line.append("  ");
    line.append(pad_left(u64_to_dec(fd.size), 9).as_str());
    line.append("  ");
    line.append(time);
    line.append(" ");
    line.append(fd.path.as_str());
    proof {
        reveal_strlit(" ");
        reveal_strlit("  ");
        assert(line@ =~= spec_long_line(*fd, time@));
    }
    line
}

/// Renders one record as the listing emits it. Without the long flag
/// the result is always the path, exactly as stored. With it, the
/// result is the long-format line built around some 12-character
/// rendering of the record's modification time, and succeeds exactly
/// when that time lies in the representable calendar range; one outside
/// it is reported as `MetadataUnavailable`.
pub fn render(fd: &FileData, long: bool) -> (out: Result<String, LsError>)
    ensures
        !long ==> (out matches Ok(s) && s@ == fd.path@),
        long ==> (out is Ok <==> MIN_TIMESTAMP <= fd.date_modified <= MAX_TIMESTAMP),
        long ==> match out {
            Ok(s) => exists|t: Seq<char>| t.len() == 12 && s@ == spec_long_line(*fd, t),
            Err(e) => e == LsError::MetadataUnavailable,
        },
{
    if !long {
        return Ok(render_line(fd, false, ""));
    }
    match format_timestamp(fd.date_modified) {
        Some(time) => {
            let line = render_line(fd, true, time.as_str());
            proof {
                assert(time@.len() == 12 && line@ == spec_long_line(*fd, time@));
            }
            Ok(line)
        },
        None => Err(LsError::MetadataUnavailable),
    }
}

/// The long-format layout: the permission block is exactly the first
/// nine characters of the line, the link-count block is at least four
/// characters wide, the size block at least nine, and the line is long
/// enough to hold every field with its separators.
pub proof fn lemma_long_line_layout(fd: FileData, time: Seq<char>)
    ensures
        spec_perm_string(fd.permissions).len() == 9,
        spec_long_line(fd, time).subrange(0, 9) =~= spec_perm_string(fd.permissions),
        spec_pad_left(spec_dec(fd.hard_link_count as nat), 4).len() >= 4,
        spec_pad_left(spec_dec(fd.size as nat), 9).len() >= 9,
        spec_long_line(fd, time).len() >= 9 + 1 + 4 + 1 + fd.owner@.len() + 1 + fd.group@.len() + 2
            + 9 + 2 + time.len() + 1 + fd.path@.len(),
{
    lemma_pad_left_len(spec_dec(fd.hard_link_count as nat), 4);
    lemma_pad_left_len(spec_dec(fd.size as nat), 9);
}

} // verus!
