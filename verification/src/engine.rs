//! The listing engine: builds one metadata record per selected path,
//! in order, then renders every record, in the same order, as the final
//! output sequence. Any single failure aborts the whole run with no
//! partial result.

use vstd::prelude::*;
use crate::errors::LsError;
use crate::meta::{get_filedata, FileData, RawAttrs};
use crate::render::{render, spec_long_line};

verus! {

/// The read-only configuration of one listing invocation: the target
/// path, the long-format flag, the show-hidden flag, and the flag that
/// keeps a directory target unexpanded.
pub struct Ls {
    pub path: String,
    pub long: bool,
    pub all: bool,
    pub dir_not_recursive: bool,
}

/// One selected path together with the raw attributes a single
/// stat-style query reported for it.
pub struct RawEntry {
    pub path: String,
    pub attrs: RawAttrs,
}

/// Whether traversal expands a directory target into its children: it
/// does exactly when the target is a directory and the non-recursive
/// flag is not set.
pub fn should_expand(is_dir: bool, dir_not_recursive: bool) -> (r: bool)
    ensures
        r == (is_dir && !dir_not_recursive),
{
    is_dir && !dir_not_recursive
}

/// The record built for an entry carries the entry's path and raw
/// attributes through unchanged: only the owner and group names (the
/// identity database's answers) are not pinned by the attributes.
pub open spec fn record_matches(fd: FileData, e: RawEntry) -> bool {
    &&& fd.wf()
    &&& fd.path == e.path
    &&& fd.size == e.attrs.size
    &&& fd.permissions.owner == (e.attrs.mode >> 6) & 7
    &&& fd.permissions.group == (e.attrs.mode >> 3) & 7
    &&& fd.permissions.other == e.attrs.mode & 7
    &&& fd.date_modified == e.attrs.modified_secs
    &&& fd.hard_link_count == e.attrs.hard_link_count
}

/// What a successful listing without the long flag emits for the given
/// entries: one line per entry, the entry's path exactly as stored, in
/// order.
pub open spec fn bare_listing(entries: Seq<RawEntry>, lines: Seq<String>) -> bool {
    &&& lines.len() == entries.len()
    &&& forall|i: int| 0 <= i < lines.len() ==> (#[trigger] lines[i])@ == entries[i].path@
}

/// What a successful listing with the long flag emits for one entry:
/// the long-format line of some record that carries the entry's path
/// and attributes, around some 12-character rendering of its
/// modification time.
pub open spec fn long_listing_line(e: RawEntry, line: Seq<char>) -> bool {
    exists|fd: FileData, t: Seq<char>|
        record_matches(fd, e) && t.len() == 12 && line == spec_long_line(fd, t)
}

/// The engine's single pass over the selected entries: builds every
/// record first (resolving owner and group names), then renders every
/// record, both in the entries' order. The first failure aborts the
/// run: an identity-resolution failure surfaces as one of the two
/// identity errors, an unrenderable modification time as
/// `MetadataUnavailable`, and nothing is emitted. A run over no entries
/// makes no outside call and always succeeds with the empty output.
pub fn run(config: &Ls, entries: Vec<RawEntry>) -> (out: Result<Vec<String>, LsError>)
    ensures
        entries@.len() == 0 ==> out is Ok,
        out matches Ok(lines) ==> {
            &&& lines@.len() == entries@.len()
            &&& !config.long ==> bare_listing(entries@, lines@)
            &&& config.long ==> forall|i: int|
                0 <= i < lines@.len() ==> long_listing_line(entries@[i], (#[trigger] lines@[i])@)
        },
        out matches Err(e) ==> e == LsError::IdentityNotFound || e == LsError::IdentityBackendError
            || e == LsError::MetadataUnavailable,
{
    let mut files: Vec<FileData> = Vec::new();
    let mut i: usize = 0;
    while i < entries.len()
        invariant
            i <= entries.len(),
            files@.len() == i,
            forall|j: int| 0 <= j < i ==> record_matches(#[trigger] files@[j], entries@[j]),
        decreases entries.len() - i,
    {
        let e = &entries[i];
        match get_filedata(e.path.clone(), &e.attrs) {
            Ok(fd) => {
                files.push(fd);
            },
            Err(err) => {
                return Err(err);
            },
        }
        i += 1;
    }
    let mut lines: Vec<String> = Vec::new();
    let mut k: usize = 0;
    while k < files.len()
        invariant
            k <= files.len(),
            files@.len() == entries@.len(),
            forall|j: int| 0 <= j < files@.len() ==> record_matches(#[trigger] files@[j], entries@[j]),
            lines@.len() == k,
            !config.long ==> forall|j: int|
                0 <= j < k ==> (#[trigger] lines@[j])@ == entries@[j].path@,
            config.long ==> forall|j: int|
                0 <= j < k ==> long_listing_line(entries@[j], (#[trigger] lines@[j])@),
        decreases files.len() - k,
    {
        match render(&files[k], config.long) {
            Ok(line) => {
                proof {
                    if config.long {
                        let fd = files@[k as int];
                        let t = choose|t: Seq<char>|
                            t.len() == 12 && line@ == spec_long_line(fd, t);
                        assert(record_matches(fd, entries@[k as int]) && t.len() == 12 && line@
                            == spec_long_line(fd, t));
                    }
                }
                lines.push(line);
            },
            Err(err) => {
                return Err(err);
            },
        }
        k += 1;
    }
    Ok(lines)
}

/// Listing the same entries twice without the long flag yields the same
/// output: the bare listing is a function of the entries alone.
pub proof fn lemma_bare_listing_deterministic(
    entries: Seq<RawEntry>,
    lines1: Seq<String>,
    lines2: Seq<String>,
)
    requires
        bare_listing(entries, lines1),
        bare_listing(entries, lines2),
    ensures
        lines1.map_values(|s: String| s@) =~= lines2.map_values(|s: String| s@),
{
    assert forall|i: int| 0 <= i < lines1.len() implies (#[trigger] lines1[i])@ == lines2[i]@ by {
        assert(lines1[i]@ == entries[i].path@);
        assert(lines2[i]@ == entries[i].path@);
    }
    assert(lines1.map_values(|s: String| s@) =~= lines2.map_values(|s: String| s@));
}

/// Invoking the listing engine twice on the same entries without the
/// long flag yields identical output whenever both invocations succeed:
/// the bare listing depends on the entries alone, so a second run
/// repeats the first.
pub proof fn lemma_run_idempotent(
    config1: &Ls,
    config2: &Ls,
    entries1: Vec<RawEntry>,
    entries2: Vec<RawEntry>,
    out1: Result<Vec<String>, LsError>,
    out2: Result<Vec<String>, LsError>,
)
    requires
        !config1.long,
        !config2.long,
        entries1@ == entries2@,
        call_ensures(run, (config1, entries1), out1),
        call_ensures(run, (config2, entries2), out2),
        out1 is Ok,
        out2 is Ok,
    ensures
        out1.unwrap()@.map_values(|s: String| s@) =~= out2.unwrap()@.map_values(|s: String| s@),
{
    lemma_bare_listing_deterministic(entries1@, out1.unwrap()@, out2.unwrap()@);
}

} // verus!
