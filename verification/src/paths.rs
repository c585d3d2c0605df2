//! Derivation of output paths and display names from an input path: the
//! codec extension is appended for compression and stripped for
//! decompression, and the file name (the part after the last separator) is
//! what status lines show.

use vstd::prelude::*;
use vstd::string::StrSliceExecFns;
use vstd::string::StringExecFns;

verus! {

/// Index where the file name begins: just past the last `'/'`, or 0 when the
/// path has none.
pub open spec fn spec_name_start(s: Seq<char>) -> int
    decreases s.len(),
{
    if s.len() == 0 {
        0
    } else if s.last() == '/' {
        s.len() as int
    } else {
        spec_name_start(s.drop_last())
    }
}

/// The file name: everything after the last `'/'`.
pub open spec fn spec_file_name(s: Seq<char>) -> Seq<char> {
    s.subrange(spec_name_start(s), s.len() as int)
}

/// The name always starts within the path.
pub proof fn lemma_name_start_bounds(s: Seq<char>)
    ensures
        0 <= spec_name_start(s) <= s.len(),
    decreases s.len(),
{
    if s.len() > 0 && s.last() != '/' {
        lemma_name_start_bounds(s.drop_last());
    }
}

/// The file name of a path: the part after the last `'/'`, or the whole
/// path when it has none.
pub fn file_name_of<'a>(path: &'a str) -> (r: &'a str)
    ensures
        r@ == spec_file_name(path@),
{
    let n = path.unicode_len();
    let mut i = n;
    proof {
        assert(path@.take(n as int) =~= path@);
    }
    while i > 0 && path.get_char(i - 1) != '/'
        invariant
            0 <= i <= n,
            n == path@.len(),
            spec_name_start(path@) == spec_name_start(path@.take(i as int)),
        decreases i,
    {
        proof {
            assert(path@.take(i as int).drop_last() =~= path@.take(i as int - 1));
        }
        i = i - 1;
    }
    proof {
        if i > 0 {
            assert(path@.take(i as int).last() == path@[i as int - 1]);
        }
        lemma_name_start_bounds(path@);
    }
    path.substring_char(i, n)
}

/// The default compression output path: the codec extension appended to the
/// input path.
pub fn compress_output_path(input: &str) -> (r: String)
    ensures
        r@ == input@ + ".zst"@,
{
    let mut s = input.to_owned();
    s.append(".zst");
    s
}

/// The file name suggested for saving a compressed copy: the input's file
/// name with the codec extension appended.
pub fn suggested_save_name(input: &str) -> (r: String)
    ensures
        r@ == spec_file_name(input@) + ".zst"@,
{
    let name = file_name_of(input);
    let mut s = name.to_owned();
    s.append(".zst");
    s
}

/// Index of the dot that begins the file name's extension, or -1 when the
/// name has no extension.  A dot that is the first character of the name (a
/// hidden file) does not begin an extension.
pub open spec fn spec_ext_cut(s: Seq<char>) -> int
    decreases s.len(),
{
    if s.len() == 0 {
        -1
    } else if s.last() == '/' {
        -1
    } else if s.last() == '.' {
        if s.len() >= 2 && s[s.len() - 2] != '/' {
            s.len() - 1
        } else {
            -1
        }
    } else {
        spec_ext_cut(s.drop_last())
    }
}

/// The path with the file name's extension stripped; unchanged when the name
/// has none.
pub open spec fn spec_strip_extension(s: Seq<char>) -> Seq<char> {
    if spec_ext_cut(s) >= 0 {
        s.take(spec_ext_cut(s))
    } else {
        s
    }
}

/// The extension's dot, where there is one, lies within the path.
pub proof fn lemma_ext_cut_bounds(s: Seq<char>)
    ensures
        -1 <= spec_ext_cut(s) < s.len(),
    decreases s.len(),
{
    if s.len() > 0 && s.last() != '/' && s.last() != '.' {
        lemma_ext_cut_bounds(s.drop_last());
    }
}

/// The default decompression output path: the input path with its extension
/// stripped.
pub fn decompress_output_path(input: &str) -> (r: String)
    ensures
        r@ == spec_strip_extension(input@),
{
    let n = input.unicode_len();
    let mut i = n;
    proof {
        assert(input@.take(n as int) =~= input@);
    }
    while i > 0 && input.get_char(i - 1) != '/' && input.get_char(i - 1) != '.'
        invariant
            0 <= i <= n,
            n == input@.len(),
            spec_ext_cut(input@) == spec_ext_cut(input@.take(i as int)),
        decreases i,
    {
        proof {
            assert(input@.take(i as int).drop_last() =~= input@.take(i as int - 1));
        }
        i = i - 1;
    }
    proof {
        lemma_ext_cut_bounds(input@);
        if i > 0 {
            assert(input@.take(i as int).last() == input@[i as int - 1]);
            if input@[i as int - 1] == '.' && i >= 2 {
                assert(input@.take(i as int)[i as int - 2] == input@[i as int - 2]);
            }
        }
    }
    if i >= 2 && input.get_char(i - 1) == '.' && input.get_char(i - 2) != '/' {
        let stem = input.substring_char(0, i - 1);
        proof {
            assert(input@.subrange(0, i as int - 1) =~= spec_strip_extension(input@));
        }
        stem.to_owned()
    } else {
        proof {
            assert(spec_ext_cut(input@) == -1);
        }
        input.to_owned()
    }
}

} // verus!
