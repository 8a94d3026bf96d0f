//! Plain-text path handling.
//!
//! The library models file-system paths as `/`-separated strings, so that
//! every decision the orchestrator takes on a path is a decision on plain
//! characters.  The definitions follow what `std::path` does on ordinary
//! Unix-style paths: the file name is the part after the last `/`, the
//! extension the part after the last `.` of the file name (none when the
//! file name has no `.` past its first character), and the parent the part
//! before the last `/`.

use vstd::prelude::*;

verus! {

/// The index of the last occurrence of `c` in `s`, if any.
pub open spec fn spec_rfind(s: Seq<char>, c: char) -> Option<int>
    decreases s.len(),
{
    if s.len() == 0 {
        None
    } else if s.last() == c {
        Some(s.len() - 1)
    } else {
        spec_rfind(s.drop_last(), c)
    }
}

/// The file-name part of a path: everything after the last `/`.
pub open spec fn spec_file_name(p: Seq<char>) -> Seq<char> {
    match spec_rfind(p, '/') {
        None => p,
        Some(i) => p.subrange(i + 1, p.len() as int),
    }
}

/// The extension of a path: the part of its file name after the last `.`,
/// and none when the file name holds no `.` past its first character.
pub open spec fn spec_extension(p: Seq<char>) -> Option<Seq<char>> {
    let f = spec_file_name(p);
    match spec_rfind(f, '.') {
        None => None,
        Some(i) => if i == 0 {
            None
        } else {
            Some(f.subrange(i + 1, f.len() as int))
        },
    }
}

/// The parent of a path: the part before the last `/`; the root and the
/// empty path have none, and a bare file name has the empty parent.
pub open spec fn spec_parent(p: Seq<char>) -> Option<Seq<char>> {
    if p.len() == 0 || p == seq!['/'] {
        None
    } else {
        match spec_rfind(p, '/') {
            None => Some(Seq::empty()),
            Some(i) => if i == 0 {
                Some(seq!['/'])
            } else {
                Some(p.subrange(0, i))
            },
        }
    }
}

/// A directory and a file name, joined with a `/` separator unless the
/// directory already ends in one.  The result always extends the
/// directory, so the joined path stays inside it.
pub open spec fn spec_path_join(d: Seq<char>, f: Seq<char>) -> Seq<char> {
    if d.len() == 0 {
        f
    } else if d.last() == '/' {
        d + f
    } else {
        d + seq!['/'] + f
    }
}

/// Find the last occurrence of `c` in `s`.
pub fn rfind_char(s: &str, c: char) -> (r: Option<usize>)
    ensures
        match r {
            Some(i) => i < s@.len() && spec_rfind(s@, c) == Some(i as int),
            None => spec_rfind(s@, c) is None,
        },
{
    let n = s.unicode_len();
    let mut j = n;
    proof {
        assert(s@.subrange(0, n as int) =~= s@);
    }
    while j > 0
        invariant
            j <= n,
            n == s@.len(),
            spec_rfind(s@, c) == spec_rfind(s@.subrange(0, j as int), c),
        decreases j,
    {
        j = j - 1;
        let here = s.get_char(j);
        proof {
            let prefix = s@.subrange(0, j + 1);
            assert(prefix.last() == s@[j as int]);
            assert(prefix.drop_last() =~= s@.subrange(0, j as int));
        }
        if here == c {
            return Some(j);
        }
    }
    proof {
        assert(s@.subrange(0, 0) =~= Seq::<char>::empty());
    }
    None
}

/// The file-name part of a path.
pub fn file_name(p: &str) -> (r: String)
    ensures
        r@ == spec_file_name(p@),
{
    let n = p.unicode_len();
    match rfind_char(p, '/') {
        None => p.to_owned(),
        Some(i) => p.substring_char(i + 1, n).to_owned(),
    }
}

/// The extension of a path, following `std::path::Path::extension` on
/// ordinary Unix-style paths.
pub fn extension(p: &str) -> (r: Option<String>)
    ensures
        match r {
            Some(e) => spec_extension(p@) == Some(e@),
            None => spec_extension(p@) is None,
        },
{
    let f = file_name(p);
    let fs = f.as_str();
    let m = fs.unicode_len();
    match rfind_char(fs, '.') {
        None => None,
        Some(i) => {
            if i == 0 {
                None
            } else {
                Some(fs.substring_char(i + 1, m).to_owned())
            }
        },
    }
}

/// The parent directory of a path.
pub fn path_parent(p: &str) -> (r: Option<String>)
    ensures
        match r {
            Some(q) => spec_parent(p@) == Some(q@),
            None => spec_parent(p@) is None,
        },
{
    let n = p.unicode_len();
    if n == 0 {
        return None;
    }
    if n == 1 && p.get_char(0) == '/' {
        proof {
            assert(p@ =~= seq!['/']);
        }
        return None;
    }
    proof {
        assert(p@ != seq!['/']);
    }
    match rfind_char(p, '/') {
        None => Some(String::new()),
        Some(i) => {
            if i == 0 {
                let root = String::from_str("/");
                proof {
                    reveal_strlit("/");
                    assert(root@ =~= seq!['/']);
                }
                Some(root)
            } else {
                Some(p.substring_char(0, i).to_owned())
            }
        },
    }
}

/// Join a directory and a file name.
pub fn path_join(d: &str, f: &str) -> (r: String)
    ensures
        r@ == spec_path_join(d@, f@),
{
    let n = d.unicode_len();
    if n == 0 {
        return f.to_owned();
    }
    let last = d.get_char(n - 1);
    if last == '/' {
        d.to_owned().concat(f)
    } else {
        let r = d.to_owned().concat("/").concat(f);
        proof {
            reveal_strlit("/");
            assert("/"@ =~= seq!['/']);
        }
        r
    }
}

} // verus!
