//! Local path logic: where a download lands, and what a file is called when
//! it is uploaded.
//!
//! Neither function touches the filesystem. The caller reports what the
//! destination currently is (directory, regular file, or absent) and these
//! functions compute the resulting paths and names as pure string work.

use vstd::prelude::*;

verus! {

use crate::text::str_concat;
use vstd::string::{StrSliceExecFns, StringExecFns};

/// What a download destination path currently names on the local filesystem.
#[derive(Clone, Copy, PartialEq, Eq, Structural, Debug)]
pub enum DestinationState {
    /// The path exists and is a directory.
    Directory,
    /// The path exists and is a regular file.
    RegularFile,
    /// Nothing exists at the path.
    Missing,
}

/// Where a download of `remote` lands, given the destination argument `dest`
/// and what `dest` currently names.
///
/// An existing directory receives the remote name as a new entry, with a
/// separator inserted only when `dest` does not already end in one; an
/// existing regular file is overwritten in place; a path that names nothing
/// is taken verbatim as the output file.
pub open spec fn spec_resolve_destination(
    remote: Seq<char>,
    dest: Seq<char>,
    state: DestinationState,
) -> Seq<char> {
    match state {
        DestinationState::Directory => if dest.len() > 0 && dest.last() == '/' {
            dest + remote
        } else {
            dest + "/"@ + remote
        },
        DestinationState::RegularFile => dest,
        DestinationState::Missing => dest,
    }
}

/// Resolve the local path a download is written to.
pub fn resolve_destination(remote: &str, dest: &str, state: DestinationState) -> (r: String)
    ensures
        r@ == spec_resolve_destination(remote@, dest@, state),
{
    match state {
        DestinationState::Directory => {
            let n = dest.unicode_len();
            if n > 0 && dest.get_char(n - 1) == '/' {
                str_concat(dest, remote)
            } else {
                let prefix = str_concat(dest, "/");
                str_concat(prefix.as_str(), remote)
            }
        },
        DestinationState::RegularFile => String::from_str(dest),
        DestinationState::Missing => String::from_str(dest),
    }
}

/// The characters after the last separator: the would-be final component of
/// the path, empty when the path is empty or ends in a separator.
pub open spec fn final_component(s: Seq<char>) -> Seq<char>
    decreases s.len(),
{
    if s.len() == 0 || s.last() == '/' {
        Seq::empty()
    } else {
        final_component(s.drop_last()).push(s.last())
    }
}

/// The file name a path denotes: its last real component.
///
/// Trailing separators are ignored, a bare `.` component is skipped, and a
/// path whose last component is `..`, or that has no component at all (empty,
/// or a bare root), denotes no file name.
pub open spec fn spec_file_name(s: Seq<char>) -> Option<Seq<char>>
    decreases s.len(),
{
    if s.len() == 0 {
        None
    } else if s.last() == '/' {
        spec_file_name(s.drop_last())
    } else {
        let comp = final_component(s);
        if comp == seq!['.'] {
            spec_file_name(s.drop_last())
        } else if comp == seq!['.', '.'] {
            None
        } else {
            Some(comp)
        }
    }
}

/// The name a local file is uploaded under: the path's file name, or the
/// placeholder `unknown` when the path denotes none.
pub open spec fn spec_upload_name(s: Seq<char>) -> Seq<char> {
    match spec_file_name(s) {
        Some(c) => c,
        None => "unknown"@,
    }
}

/// `final_component` is exactly the suffix that starts at the last separator.
proof fn lemma_final_component_subrange(s: Seq<char>, i: int)
    requires
        0 <= i <= s.len(),
        forall|j: int| i <= j < s.len() ==> s[j] != '/',
        i == 0 || s[i - 1] == '/',
    ensures
        final_component(s) == s.subrange(i, s.len() as int),
    decreases s.len(),
{
    if i == s.len() {
        assert(final_component(s) =~= s.subrange(i, s.len() as int));
    } else {
        assert(s.last() != '/');
        lemma_final_component_subrange(s.drop_last(), i);
        assert(s.drop_last().subrange(i, s.drop_last().len() as int).push(s.last()) =~= s.subrange(
            i,
            s.len() as int,
        ));
    }
}

/// Derive the remote name for an upload of the local path `path`.
pub fn upload_remote_name(path: &str) -> (r: String)
    ensures
        r@ == spec_upload_name(path@),
{
    let mut end: usize = path.unicode_len();
    proof {
        assert(path@.take(end as int) =~= path@);
    }
    loop
        invariant
            end <= path@.len(),
            spec_file_name(path@.take(end as int)) == spec_file_name(path@),
        decreases end,
    {
        let ghost end0: usize = end;
        while end > 0 && path.get_char(end - 1) == '/'
            invariant
                end <= end0,
                end <= path@.len(),
                spec_file_name(path@.take(end as int)) == spec_file_name(path@),
            decreases end,
        {
            proof {
                assert(path@.take(end as int).drop_last() =~= path@.take(end - 1 as int));
            }
            end = end - 1;
        }
        if end == 0 {
            return String::from_str("unknown");
        }
        let ghost pref: Seq<char> = path@.take(end as int);
        assert(pref.last() != '/');
        let mut start: usize = end;
        while start > 0 && path.get_char(start - 1) != '/'
            invariant
                start <= end,
                end <= path@.len(),
                forall|j: int| start <= j < end ==> path@[j] != '/',
            decreases start,
        {
            start = start - 1;
        }
        proof {
            assert(forall|j: int| start <= j < pref.len() ==> pref[j] != '/');
            lemma_final_component_subrange(pref, start as int);
            assert(final_component(pref) =~= path@.subrange(start as int, end as int));
        }
        if end - start == 1 && path.get_char(start) == '.' {
            proof {
                assert(final_component(pref) == seq!['.']) by {
                    assert(final_component(pref).len() == 1);
                    assert(final_component(pref)[0] == path@[start as int]);
                    assert(final_component(pref) =~= seq!['.']);
                }
                assert(pref.drop_last() =~= path@.take(start as int));
            }
            end = start;
        } else if end - start == 2 && path.get_char(start) == '.' && path.get_char(start + 1)
            == '.' {
            proof {
                assert(final_component(pref) == seq!['.', '.']) by {
                    assert(final_component(pref)[0] == path@[start as int]);
                    assert(final_component(pref)[1] == path@[start + 1 as int]);
                    assert(final_component(pref) =~= seq!['.', '.']);
                }
            }
            return String::from_str("unknown");
        } else {
            proof {
                let comp = final_component(pref);
                assert(comp.len() == end - start);
                if comp == seq!['.'] {
                    assert(comp[0] == '.');
                    assert(path@[start as int] == '.');
                    assert(false);
                }
                if comp == seq!['.', '.'] {
                    assert(comp[0] == '.' && comp[1] == '.');
                    assert(false);
                }
                assert(spec_file_name(path@) == Some(comp));
            }
            let name = path.substring_char(start, end);
            return String::from_str(name);
        }
    }
}

} // verus!
