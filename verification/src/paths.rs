//! Extracting a file extension from a path written as a string.
//!
//! The policy is fixed: the file name is everything after the last `/` of the
//! path; the extension is everything after the last `.` of the file name,
//! provided that dot stands strictly inside the name (so a leading dot, as in
//! a hidden file, starts no extension). A path with no usable dot has the
//! empty extension. Only the name is consulted, never the file's bytes.

use vstd::prelude::*;
use vstd::string::*;

verus! {

/// The index at which the file name of `s` begins: just after the last `/`,
/// or 0 when `s` holds none.
pub open spec fn file_name_start(s: Seq<char>) -> int
    decreases s.len(),
{
    if s.len() == 0 {
        0
    } else if s[s.len() - 1] == '/' {
        s.len() as int
    } else {
        file_name_start(s.drop_last())
    }
}

/// The index at which the extension of a file name `s` would begin: just
/// after the last `.`, or 0 when `s` holds none.
pub open spec fn dot_end(s: Seq<char>) -> int
    decreases s.len(),
{
    if s.len() == 0 {
        0
    } else if s[s.len() - 1] == '.' {
        s.len() as int
    } else {
        dot_end(s.drop_last())
    }
}

/// The extension of a path: the part of its file name after the last dot
/// that stands strictly inside the name, or the empty sequence when there is
/// no such dot.
pub open spec fn spec_extension_of(path: Seq<char>) -> Seq<char> {
    let name = path.subrange(file_name_start(path), path.len() as int);
    let d = dot_end(name);
    if d >= 2 {
        name.subrange(d, name.len() as int)
    } else {
        Seq::empty()
    }
}

proof fn lemma_file_name_start_push(s: Seq<char>, c: char)
    ensures
        file_name_start(s.push(c)) == if c == '/' {
            s.len() + 1 as int
        } else {
            file_name_start(s)
        },
{
    let t = s.push(c);
    assert(t.len() == s.len() + 1);
    assert(t[t.len() - 1] == c);
    if c != '/' {
        assert(t.drop_last() =~= s);
    }
}

proof fn lemma_dot_end_push(s: Seq<char>, c: char)
    ensures
        dot_end(s.push(c)) == if c == '.' {
            s.len() + 1 as int
        } else {
            dot_end(s)
        },
{
    let t = s.push(c);
    assert(t.len() == s.len() + 1);
    assert(t[t.len() - 1] == c);
    if c != '.' {
        assert(t.drop_last() =~= s);
    }
}

/// The extension of `path` under the fixed policy above. An absent extension
/// comes back as the empty string, never as an error.
pub fn extension_of(path: &str) -> (ext: String)
    ensures
        ext@ == spec_extension_of(path@),
{
    let len = path.unicode_len();
    let mut start: usize = 0;
    let mut i: usize = 0;
    while i < len
        invariant
            i <= len,
            len == path@.len(),
            start <= i,
            start == file_name_start(path@.subrange(0, i as int)),
        decreases len - i,
    {
        proof {
            assert(path@.subrange(0, i + 1 as int) =~= path@.subrange(0, i as int).push(
                path@[i as int],
            ));
            lemma_file_name_start_push(path@.subrange(0, i as int), path@[i as int]);
        }
        if path.get_char(i) == '/' {
            start = i + 1;
        }
        i += 1;
    }
    proof {
        assert(path@.subrange(0, len as int) =~= path@);
    }
    let name: &str = path.substring_char(start, len);
    let name_len = len - start;
    proof {
        assert(name@.len() == name_len);
    }
    let mut d: usize = 0;
    let mut j: usize = 0;
    while j < name_len
        invariant
            j <= name_len,
            name_len == name@.len(),
            d <= j,
            d == dot_end(name@.subrange(0, j as int)),
        decreases name_len - j,
    {
        proof {
            assert(name@.subrange(0, j + 1 as int) =~= name@.subrange(0, j as int).push(
                name@[j as int],
            ));
            lemma_dot_end_push(name@.subrange(0, j as int), name@[j as int]);
        }
        if name.get_char(j) == '.' {
            d = j + 1;
        }
        j += 1;
    }
    proof {
        assert(name@.subrange(0, name_len as int) =~= name@);
    }
    if d >= 2 {
        let ext = String::from_str(name.substring_char(d, name_len));
        ext
    } else {
        let ext = String::new();
        proof {
            assert(ext@ =~= spec_extension_of(path@));
        }
        ext
    }
}

} // verus!
