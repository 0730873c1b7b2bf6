//! Parsing of the underlying tool's output: the remote list, the
//! remote-tracking branch list, and the upstream of the current branch.

use vstd::prelude::*;

use crate::text::split_spec;
use crate::text::split_str;
use crate::text::str_eq;
use crate::text::trim_spec;
use crate::text::trim_str;

verus! {

/// Whether a line of remote-list output is kept: it is not blank.
pub open spec fn keeps_line(l: Seq<char>) -> bool {
    trim_spec(l).len() != 0
}

/// The non-blank lines, in order, each trimmed of surrounding
/// whitespace.
pub open spec fn kept_lines(lines: Seq<Seq<char>>) -> Seq<Seq<char>>
    decreases lines.len(),
{
    if lines.len() == 0 {
        Seq::empty()
    } else {
        let rest = kept_lines(lines.drop_last());
        if keeps_line(lines.last()) {
            rest.push(trim_spec(lines.last()))
        } else {
            rest
        }
    }
}

/// The remote names read from remote-list output: one name per line,
/// each trimmed, blank lines discarded.
pub open spec fn remote_list_spec(out: Seq<char>) -> Seq<Seq<char>> {
    kept_lines(split_spec(out, '\n'))
}

/// Reads the remote names out of remote-list output, one per line,
/// trimming each entry, discarding blank lines and keeping the tool's
/// order.
pub fn parse_remote_list(out: &str) -> (r: Vec<String>)
    ensures
        r@.map_values(|p: String| p@) == remote_list_spec(out@),
{
    let lines = split_str(out, '\n');
    let ghost lv = lines@.map_values(|p: String| p@);
    let mut r: Vec<String> = Vec::new();
    proof {
        assert(lv.take(0) =~= Seq::<Seq<char>>::empty());
        assert(r@.map_values(|p: String| p@) =~= kept_lines(lv.take(0)));
    }
    let mut i: usize = 0;
    while i < lines.len()
        invariant
            0 <= i <= lines@.len(),
            lv == lines@.map_values(|p: String| p@),
            r@.map_values(|p: String| p@) == kept_lines(lv.take(i as int)),
        decreases lines@.len() - i,
    {
        let line = &lines[i];
        let t = trim_str(line.as_str());
        proof {
            assert(lv[i as int] == lines@[i as int]@);
            assert(lv.take(i + 1).last() == lv[i as int]);
            assert(lv.take(i + 1).drop_last() =~= lv.take(i as int));
        }
        if t.unicode_len() != 0 {
            let ghost r0 = r@;
            r.push(t.to_owned());
            proof {
                assert(r@.map_values(|p: String| p@) =~= r0.map_values(|p: String| p@).push(
                    trim_spec(lv[i as int]),
                ));
            }
        }
        i = i + 1;
    }
    proof {
        assert(lv.take(lines@.len() as int) =~= lv);
    }
    r
}

/// Whether a branch-list line belongs to the remote `name`: its first
/// `/`-delimited segment, trimmed, equals the name.
pub open spec fn branch_line_matches(l: Seq<char>, name: Seq<char>) -> bool {
    trim_spec(split_spec(l, '/')[0]) == name
}

/// The lines that belong to the remote `name`, in order.
pub open spec fn matching_lines(lines: Seq<Seq<char>>, name: Seq<char>) -> Seq<Seq<char>>
    decreases lines.len(),
{
    if lines.len() == 0 {
        Seq::empty()
    } else {
        let rest = matching_lines(lines.drop_last(), name);
        if branch_line_matches(lines.last(), name) {
            rest.push(lines.last())
        } else {
            rest
        }
    }
}

/// The branch-report lines for remote `name` in branch-list output.
pub open spec fn branch_report_spec(out: Seq<char>, name: Seq<char>) -> Seq<Seq<char>> {
    matching_lines(split_spec(out, '\n'), name)
}

/// Filters branch-list output down to the lines whose first
/// `/`-delimited segment, trimmed, equals the remote `name`; lines keep
/// their original spelling and order.
pub fn filter_remote_branches(out: &str, name: &str) -> (r: Vec<String>)
    ensures
        r@.map_values(|p: String| p@) == branch_report_spec(out@, name@),
{
    let lines = split_str(out, '\n');
    let ghost lv = lines@.map_values(|p: String| p@);
    let mut r: Vec<String> = Vec::new();
    proof {
        assert(lv.take(0) =~= Seq::<Seq<char>>::empty());
        assert(r@.map_values(|p: String| p@) =~= matching_lines(lv.take(0), name@));
    }
    let mut i: usize = 0;
    while i < lines.len()
        invariant
            0 <= i <= lines@.len(),
            lv == lines@.map_values(|p: String| p@),
            r@.map_values(|p: String| p@) == matching_lines(lv.take(i as int), name@),
        decreases lines@.len() - i,
    {
        let line = &lines[i];
        let parts = split_str(line.as_str(), '/');
        let head = trim_str(parts[0].as_str());
        proof {
            assert(lv[i as int] == lines@[i as int]@);
            assert(parts@.map_values(|p: String| p@)[0] == parts@[0]@);
            assert(lv.take(i + 1).last() == lv[i as int]);
            assert(lv.take(i + 1).drop_last() =~= lv.take(i as int));
        }
        if str_eq(head, name) {
            let ghost r0 = r@;
            r.push(line.clone());
            proof {
                assert(r@.map_values(|p: String| p@) =~= r0.map_values(|p: String| p@).push(
                    lv[i as int],
                ));
            }
        }
        i = i + 1;
    }
    proof {
        assert(lv.take(lines@.len() as int) =~= lv);
    }
    r
}

/// The remote the current branch tracks, read from the upstream short
/// name (`remote/branch`): the portion before the first `/` of the
/// trimmed text, or nothing when the trimmed text is empty (detached
/// head, or no upstream configured).
pub open spec fn upstream_remote_spec(out: Seq<char>) -> Option<Seq<char>> {
    if trim_spec(out).len() == 0 {
        None
    } else {
        Some(split_spec(trim_spec(out), '/')[0])
    }
}

/// Reads the tracked remote's name out of upstream-lookup output;
/// an empty (or all-whitespace) output means no remote is tracked.
pub fn parse_upstream_remote(out: &str) -> (r: Option<String>)
    ensures
        match r {
            Some(name) => upstream_remote_spec(out@) == Some(name@),
            None => upstream_remote_spec(out@) is None,
        },
{
    let t = trim_str(out);
    if t.unicode_len() == 0 {
        None
    } else {
        let parts = split_str(t, '/');
        proof {
            assert(parts@.map_values(|p: String| p@)[0] == parts@[0]@);
        }
        Some(parts[0].clone())
    }
}

/// The header line of the remote-listing report.
pub fn remotes_header() -> (r: String)
    ensures
        r@ == "\nRemotes:"@,
{
    String::from_str("\nRemotes:")
}

/// One line of the remote-listing report: tab, name, colon and space,
/// then the remote's URL.
pub fn remote_entry_line(name: &str, url: &str) -> (r: String)
    ensures
        r@ == "\t"@ + name@ + ": "@ + url@,
{
    let mut r = String::from_str("\t");
    r.append(name);
    r.append(": ");
    r.append(url);
    proof {
        assert(r@ =~= "\t"@ + name@ + ": "@ + url@);
    }
    r
}

/// The header line of the branch report for the given URI.
pub fn branches_header(uri: &str) -> (r: String)
    ensures
        r@ == "\nRemote branches for "@ + uri@,
{
    let mut r = String::from_str("\nRemote branches for ");
    r.append(uri);
    r
}

/// One line of the branch report: tab, then the branch-list entry.
pub fn branch_entry_line(branch: &str) -> (r: String)
    ensures
        r@ == "\t"@ + branch@,
{
    let mut r = String::from_str("\t");
    r.append(branch);
    r
}

} // verus!
