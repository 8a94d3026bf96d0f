//! Filename extraction from a `Content-Disposition` header value.
//!
//! The output file is named by the first `filename=` occurrence that is
//! followed by at least one character other than a line break; everything
//! from there to the next line break (or to the end of the value) is the
//! filename, verbatim.  Quotes and any trailing parameters after the `=`
//! are deliberately kept: `filename="x.zip"; foo=bar` yields
//! `"x.zip"; foo=bar`.

use vstd::prelude::*;

verus! {

/// The characters of the `filename=` marker.
pub open spec fn filename_key() -> Seq<char> {
    seq!['f', 'i', 'l', 'e', 'n', 'a', 'm', 'e', '=']
}

/// True when the marker sits at `i` in `s` and at least one non-line-break
/// character follows it.
pub open spec fn key_match_at(s: Seq<char>, i: int) -> bool {
    &&& 0 <= i
    &&& i + 9 < s.len()
    &&& s.subrange(i, i + 9) == filename_key()
    &&& s[i + 9] != '\n'
}

/// The first position at or after `i` where the marker matches.
pub open spec fn first_key_match_from(s: Seq<char>, i: int) -> Option<int>
    decreases s.len() - i,
{
    if i + 9 >= s.len() {
        None
    } else if key_match_at(s, i) {
        Some(i)
    } else {
        first_key_match_from(s, i + 1)
    }
}

/// The position of the next line break at or after `from`, or the end.
pub open spec fn line_end(s: Seq<char>, from: int) -> int
    decreases s.len() - from,
{
    if from >= s.len() {
        s.len() as int
    } else if s[from] == '\n' {
        from
    } else {
        line_end(s, from + 1)
    }
}

/// The filename the header value yields: the characters between the first
/// matching `filename=` marker and the following line break or end.
pub open spec fn spec_extract_filename(s: Seq<char>) -> Option<Seq<char>> {
    match first_key_match_from(s, 0) {
        None => None,
        Some(i) => Some(s.subrange(i + 9, line_end(s, i + 9))),
    }
}

/// Does the marker's nine characters sit at `i`?
fn key_chars_at(s: &str, i: usize, n: usize) -> (r: bool)
    requires
        n == s@.len(),
        i + 9 <= n,
    ensures
        r == (s@.subrange(i as int, i as int + 9) == filename_key()),
{
    let r = s.get_char(i) == 'f' && s.get_char(i + 1) == 'i' && s.get_char(i + 2) == 'l'
        && s.get_char(i + 3) == 'e' && s.get_char(i + 4) == 'n' && s.get_char(i + 5) == 'a'
        && s.get_char(i + 6) == 'm' && s.get_char(i + 7) == 'e' && s.get_char(i + 8) == '=';
    proof {
        let sub = s@.subrange(i as int, i as int + 9);
        if r {
            assert(sub =~= filename_key());
        } else {
            assert(sub != filename_key()) by {
                if sub == filename_key() {
                    assert(s@[i as int] == sub[0]);
                    assert(s@[i as int + 1] == sub[1]);
                    assert(s@[i as int + 2] == sub[2]);
                    assert(s@[i as int + 3] == sub[3]);
                    assert(s@[i as int + 4] == sub[4]);
                    assert(s@[i as int + 5] == sub[5]);
                    assert(s@[i as int + 6] == sub[6]);
                    assert(s@[i as int + 7] == sub[7]);
                    assert(s@[i as int + 8] == sub[8]);
                }
            }
        }
    }
    r
}

/// Find the first matching `filename=` marker.
fn find_filename_key(s: &str) -> (r: Option<usize>)
    ensures
        match r {
            Some(i) => i + 9 < s@.len() && key_match_at(s@, i as int) && first_key_match_from(
                s@,
                0,
            ) == Some(i as int),
            None => first_key_match_from(s@, 0) is None,
        },
{
    let n = s.unicode_len();
    let mut i: usize = 0;
    while n - i >= 10
        invariant
            i <= n,
            n == s@.len(),
            first_key_match_from(s@, 0) == first_key_match_from(s@, i as int),
        decreases n - i,
    {
        let here = key_chars_at(s, i, n);
        if here {
            let after = s.get_char(i + 9);
            if after != '\n' {
                proof {
                    assert(key_match_at(s@, i as int));
                }
                return Some(i);
            }
        }
        proof {
            assert(!key_match_at(s@, i as int));
            assert(first_key_match_from(s@, i as int) == first_key_match_from(s@, i + 1));
        }
        i = i + 1;
    }
    proof {
        assert(first_key_match_from(s@, i as int) is None);
    }
    None
}

/// Extract the filename from a raw `Content-Disposition` header value.
pub fn extract_filename(s: &str) -> (r: Option<String>)
    ensures
        match r {
            Some(f) => spec_extract_filename(s@) == Some(f@) && f@.len() > 0,
            None => spec_extract_filename(s@) is None,
        },
{
    let n = s.unicode_len();
    match find_filename_key(s) {
        None => None,
        Some(i) => {
            let start = i + 9;
            let mut j = start;
            while j < n && s.get_char(j) != '\n'
                invariant
                    start <= j <= n,
                    n == s@.len(),
                    start == i + 9 < n,
                    line_end(s@, start as int) == line_end(s@, j as int),
                decreases n - j,
            {
                j = j + 1;
            }
            proof {
                assert(line_end(s@, start as int) == j);
                assert(key_match_at(s@, i as int));
                assert(s@[start as int] != '\n');
                assert(j > start);
            }
            Some(s.substring_char(start, j).to_owned())
        },
    }
}

} // verus!
