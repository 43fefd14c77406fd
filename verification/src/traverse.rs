//! Selection of the paths a listing run works on: either a directory's
//! immediate children with hidden entries filtered out, or the target
//! path itself as a singleton.

use vstd::prelude::*;

verus! {

/// One raw directory child: its full path as encountered, and its own
/// file name (the last component), which the hidden-entry test reads.
pub struct DirEntry {
    pub path: String,
    pub name: String,
}

impl DirEntry {
    /// An exact copy of the entry.
    pub fn duplicate(&self) -> (r: DirEntry)
        ensures
            r == *self,
    {
        DirEntry { path: self.path.clone(), name: self.name.clone() }
    }
}

/// An entry is hidden exactly when its own name begins with a dot.
pub open spec fn spec_is_hidden(name: Seq<char>) -> bool {
    name.len() > 0 && name[0] == '.'
}

/// Whether an entry survives the hidden-entry filter.
pub open spec fn spec_keep(e: DirEntry, include_hidden: bool) -> bool {
    include_hidden || !spec_is_hidden(e.name@)
}

/// The subsequence of entries that survive the hidden-entry filter, in
/// their original order.
pub open spec fn spec_retained(entries: Seq<DirEntry>, include_hidden: bool) -> Seq<DirEntry> {
    entries.filter(|e: DirEntry| spec_keep(e, include_hidden))
}

/// The path sequence a run works on: a directory target that is to be
/// expanded contributes its filtered children's paths; any other target
/// is the single-element sequence holding the target path itself.
pub open spec fn spec_selected(
    target: Seq<char>,
    is_dir: bool,
    dir_not_recursive: bool,
    children: Seq<DirEntry>,
    include_hidden: bool,
) -> Seq<Seq<char>> {
    if is_dir && !dir_not_recursive {
        spec_retained(children, include_hidden).map_values(|e: DirEntry| e.path@)
    } else {
        seq![target]
    }
}

/// Appending one entry extends the filtered sequence exactly when the
/// entry survives the filter.
proof fn lemma_retained_push(entries: Seq<DirEntry>, e: DirEntry, include_hidden: bool)
    ensures
        spec_retained(entries.push(e), include_hidden) == if spec_keep(e, include_hidden) {
            spec_retained(entries, include_hidden).push(e)
        } else {
            spec_retained(entries, include_hidden)
        },
{
    reveal(Seq::filter);
    assert(entries.push(e).drop_last() =~= entries);
    assert(entries.push(e).last() == e);
}

/// Tests whether a file name marks a hidden entry: true exactly when
/// the name's first character is a dot.
pub fn is_hidden(name: &str) -> (r: bool)
    ensures
        r == spec_is_hidden(name@),
{
    if name.unicode_len() == 0 {
        false
    } else {
        let c = name.get_char(0);
        c == '.'
    }
}

/// Filters a directory's children: with `include_hidden` every entry is
/// kept; without it exactly the entries whose own name does not begin
/// with a dot are kept, in their original order.
pub fn filter_entries(entries: &Vec<DirEntry>, include_hidden: bool) -> (out: Vec<DirEntry>)
    ensures
        out@ == spec_retained(entries@, include_hidden),
{
    let mut out: Vec<DirEntry> = Vec::new();
    let mut i: usize = 0;
    while i < entries.len()
        invariant
            i <= entries.len(),
            out@ == spec_retained(entries@.subrange(0, i as int), include_hidden),
        decreases entries.len() - i,
    {
        let e = &entries[i];
        proof {
            assert(entries@.subrange(0, i as int + 1) =~= entries@.subrange(0, i as int).push(
                entries@[i as int],
            ));
            lemma_retained_push(entries@.subrange(0, i as int), entries@[i as int], include_hidden);
        }
        if include_hidden || !is_hidden(e.name.as_str()) {
            out.push(e.duplicate());
        }
        i += 1;
    }
    proof {
        assert(entries@.subrange(0, entries@.len() as int) =~= entries@);
    }
    out
}

/// Chooses the paths a run will read metadata for. A directory target
/// is expanded into its filtered children exactly when the
/// non-recursive flag is not set; every other target (the flag set, or
/// a non-directory) yields the single-element sequence holding the
/// target itself.
pub fn select_paths(
    target: &String,
    is_dir: bool,
    dir_not_recursive: bool,
    include_hidden: bool,
    children: &Vec<DirEntry>,
) -> (out: Vec<String>)
    ensures
        out@.map_values(|s: String| s@) == spec_selected(
            target@,
            is_dir,
            dir_not_recursive,
            children@,
            include_hidden,
        ),
        dir_not_recursive ==> out@.len() == 1 && out@[0]@ == target@,
        !is_dir ==> out@.len() == 1 && out@[0]@ == target@,
{
    if is_dir && !dir_not_recursive {
        let kept = filter_entries(children, include_hidden);
        let ghost kept_seq = kept@;
        let mut out: Vec<String> = Vec::new();
        let mut i: usize = 0;
        while i < kept.len()
            invariant
                i <= kept.len(),
                kept@ == kept_seq,
                out@.len() == i,
                forall|j: int| 0 <= j < i ==> (#[trigger] out@[j])@ == kept_seq[j].path@,
            decreases kept.len() - i,
        {
            out.push(kept[i].path.clone());
            i += 1;
        }
        proof {
            assert(out@.map_values(|s: String| s@) =~= kept_seq.map_values(|e: DirEntry| e.path@));
        }
        out
    } else {
        let out = vec![target.clone()];
        proof {
            assert(out@.map_values(|s: String| s@) =~= seq![target@]);
        }
        out
    }
}

} // verus!
