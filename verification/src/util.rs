//! Small helpers around the pipeline: extracting the display name of the
//! reference identity from the reference image path.

use vstd::prelude::*;
use vstd::string::StrSliceExecFns;

verus! {

/// The path ends in a character that naming ignores: a trailing `'/'`
/// separator, or the `'.'` of a trailing current-directory component.
pub open spec fn has_trailing_separator(s: Seq<char>) -> bool {
    s.len() > 0 && (s.last() == '/' || (s.last() == '.' && (s.len() == 1 || s[s.len() - 2]
        == '/')))
}

/// The path with every trailing separator and current-directory component
/// removed: "a/b/", "a/b/." and "a/b/./" all trim to "a/b".
pub open spec fn trim_path(s: Seq<char>) -> Seq<char>
    decreases s.len(),
{
    if has_trailing_separator(s) {
        trim_path(s.drop_last())
    } else {
        s
    }
}

/// Index of the first character of the final component of a trimmed path:
/// the position right after the last `'/'`, or `0` when the path has
/// none.
pub open spec fn file_part_start(s: Seq<char>) -> int
    decreases s.len(),
{
    if s.len() == 0 {
        0
    } else if s[s.len() - 1] == '/' {
        s.len() as int
    } else {
        file_part_start(s.drop_last())
    }
}

/// The file name of `s`: its final path component, once trailing
/// separators and current-directory components are ignored. Empty when
/// the path has no component at all.
pub open spec fn spec_file_name(s: Seq<char>) -> Seq<char> {
    trim_path(s).subrange(file_part_start(trim_path(s)), trim_path(s).len() as int)
}

/// Returns the file name of an image path: the final path component,
/// ignoring trailing `'/'` separators and `.` components, used as the
/// reference identity's display name. A path with no such component
/// (empty, a bare root, or one ending in `..`) is excluded: on those the
/// run aborts before this point.
pub fn filename_from_image_path(image_path: &str) -> (result: &str)
    requires
        spec_file_name(image_path@).len() > 0,
        spec_file_name(image_path@) != ".."@,
    ensures
        result@ == spec_file_name(image_path@),
{
    let len: usize = image_path.unicode_len();
    proof {
        assert(image_path@.take(len as int) =~= image_path@);
    }
    let mut end: usize = len;
    let mut done: bool = false;
    while !done && end > 0
        invariant
            end <= len,
            len == image_path@.len(),
            trim_path(image_path@.take(end as int)) == trim_path(image_path@),
            done ==> !has_trailing_separator(image_path@.take(end as int)),
        decreases end, if done { 0int } else { 1int },
    {
        let c = image_path.get_char(end - 1);
        let trailing: bool = if c == '/' {
            true
        } else if c == '.' {
            end == 1 || image_path.get_char(end - 2) == '/'
        } else {
            false
        };
        proof {
            assert(image_path@.take(end as int).last() == image_path@[end - 1]);
            assert(trailing == has_trailing_separator(image_path@.take(end as int)));
            assert(image_path@.take(end as int).drop_last() =~= image_path@.take(end - 1));
        }
        if trailing {
            end = end - 1;
        } else {
            done = true;
        }
    }
    proof {
        if end == 0 {
            assert(image_path@.take(0int) =~= Seq::<char>::empty());
            assert(!has_trailing_separator(Seq::<char>::empty()));
            assert(trim_path(image_path@) == Seq::<char>::empty());
            assert(spec_file_name(image_path@).len() == 0);
        }
        assert(!has_trailing_separator(image_path@.take(end as int)));
        assert(trim_path(image_path@) == image_path@.take(end as int));
    }
    let mut start: usize = 0;
    let mut j: usize = 0;
    while j < end
        invariant
            j <= end,
            end <= len,
            len == image_path@.len(),
            start <= j,
            start == file_part_start(image_path@.take(j as int)),
        decreases end - j,
    {
        proof {
            assert(image_path@.take(j + 1).drop_last() =~= image_path@.take(j as int));
            assert(image_path@.take(j + 1).last() == image_path@[j as int]);
        }
        let c = image_path.get_char(j);
        if c == '/' {
            start = j + 1;
        }
        j = j + 1;
    }
    proof {
        let trimmed = trim_path(image_path@);
        assert(start == file_part_start(trimmed));
        assert(start < end);
        assert(image_path@.subrange(start as int, end as int) =~= trimmed.subrange(
            file_part_start(trimmed),
            trimmed.len() as int,
        ));
    }
    image_path.substring_char(start, end)
}

} // verus!
