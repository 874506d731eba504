use vstd::prelude::*;
use vstd::string::StrSliceExecFns;

verus! {

/// The closed set of stream formats this library dispatches over.
#[derive(Debug, Clone, Copy, PartialEq, Eq, Structural)]
pub enum Codec {
    /// Pass-through: bytes are stored exactly as written.
    Identity,
    /// The gzip format, selected by the exact extension `gz`.
    Gzip,
    /// The LZ4 frame format, selected by the exact extension `lz4`.
    Lz4,
}

/// The index of the last occurrence of `c` in `s`, or `-1` when `c` does
/// not occur.
pub open spec fn last_pos(s: Seq<char>, c: char) -> int
    decreases s.len(),
{
    if s.len() == 0 {
        -1
    } else if s[s.len() - 1] == c {
        s.len() - 1
    } else {
        last_pos(s.drop_last(), c)
    }
}

/// `s` with every trailing `/` removed.
pub open spec fn strip_trailing_separators(s: Seq<char>) -> Seq<char>
    decreases s.len(),
{
    if s.len() > 0 && s[s.len() - 1] == '/' {
        strip_trailing_separators(s.drop_last())
    } else {
        s
    }
}

/// The final component of a `/`-separated path: what follows the last
/// separator, after trailing separators are dropped.
pub open spec fn file_name_of(path: Seq<char>) -> Seq<char> {
    let t = strip_trailing_separators(path);
    t.subrange(last_pos(t, '/') + 1, t.len() as int)
}

/// The extension of a path's file name: the part after the final `.`,
/// provided that dot is neither absent nor the leading character (a name
/// that starts with its only dot, such as a hidden file, has no extension).
pub open spec fn extension_of(path: Seq<char>) -> Option<Seq<char>> {
    let name = file_name_of(path);
    let d = last_pos(name, '.');
    if d >= 1 {
        Some(name.subrange(d + 1, name.len() as int))
    } else {
        None
    }
}

/// Exactly the two characters `gz`, case-sensitively.
pub open spec fn is_gz_ext(e: Seq<char>) -> bool {
    e.len() == 2 && e[0] == 'g' && e[1] == 'z'
}

/// Exactly the three characters `lz4`, case-sensitively.
pub open spec fn is_lz4_ext(e: Seq<char>) -> bool {
    e.len() == 3 && e[0] == 'l' && e[1] == 'z' && e[2] == '4'
}

/// Which codec a path selects: `gz` means gzip, `lz4` means LZ4, and any
/// other extension, or none, means pass-through.
pub open spec fn codec_of(path: Seq<char>) -> Codec {
    match extension_of(path) {
        Some(e) => if is_gz_ext(e) {
            Codec::Gzip
        } else if is_lz4_ext(e) {
            Codec::Lz4
        } else {
            Codec::Identity
        },
        None => Codec::Identity,
    }
}

/// Dispatch never selects a compressed codec for an extension other than
/// the two exact lower-case literals; in particular a differently cased
/// `GZ` or `LZ4`, an empty extension, or a missing one all fall through
/// to pass-through bytes.
pub proof fn lemma_unrecognized_extension_selects_identity(path: Seq<char>)
    requires
        match extension_of(path) {
            Some(e) => !is_gz_ext(e) && !is_lz4_ext(e),
            None => true,
        },
    ensures
        codec_of(path) == Codec::Identity,
{
}

proof fn lemma_last_pos_step(s: Seq<char>, start: int, i: int, c: char)
    requires
        0 <= start < i <= s.len(),
        s[i - 1] != c,
    ensures
        last_pos(s.subrange(start, i), c) == last_pos(s.subrange(start, i - 1), c),
{
    let t = s.subrange(start, i);
    assert(t[t.len() - 1] == s[i - 1]);
    assert(t.drop_last() =~= s.subrange(start, i - 1));
}

/// The last occurrence of `c` in `path` between character positions
/// `start` (inclusive) and `end` (exclusive), as an absolute position.
fn last_char_pos(path: &str, start: usize, end: usize, c: char) -> (r: Option<usize>)
    requires
        start <= end <= path@.len(),
    ensures
        ({
            let t = path@.subrange(start as int, end as int);
            match r {
                Some(k) => start <= k < end && last_pos(t, c) == k - start,
                None => last_pos(t, c) == -1,
            }
        }),
{
    let mut i: usize = end;
    loop
        invariant
            start <= i <= end <= path@.len(),
            last_pos(path@.subrange(start as int, end as int), c) == last_pos(
                path@.subrange(start as int, i as int),
                c,
            ),
        decreases i,
    {
        if i == start {
            proof {
                assert(path@.subrange(start as int, start as int).len() == 0);
            }
            return None;
        }
        let ch = path.get_char(i - 1);
        if ch == c {
            proof {
                let t = path@.subrange(start as int, i as int);
                assert(t[t.len() - 1] == path@[i - 1]);
            }
            return Some(i - 1);
        }
        proof {
            lemma_last_pos_step(path@, start as int, i as int, c);
        }
        i = i - 1;
    }
}

/// Format Dispatch: inspect a path and choose the codec its extension
/// selects. Pure and total; performs no I/O and never fails.
pub fn detect_codec(path: &str) -> (c: Codec)
    ensures
        c == codec_of(path@),
{
    let n: usize = path.unicode_len();
    let mut end: usize = n;
    proof {
        assert(path@.subrange(0, n as int) =~= path@);
    }
    loop
        invariant
            end <= n,
            n == path@.len(),
            strip_trailing_separators(path@) == strip_trailing_separators(
                path@.subrange(0, end as int),
            ),
        ensures
            end <= n,
            n == path@.len(),
            strip_trailing_separators(path@) == strip_trailing_separators(
                path@.subrange(0, end as int),
            ),
            end == 0 || path@[end - 1] != '/',
        decreases end,
    {
        if end == 0 {
            break;
        }
        let ch = path.get_char(end - 1);
        if ch != '/' {
            proof {
                let t = path@.subrange(0, end as int);
                assert(t[t.len() - 1] == path@[end - 1]);
            }
            break;
        }
        proof {
            let t = path@.subrange(0, end as int);
            assert(t[t.len() - 1] == path@[end - 1]);
            assert(t.drop_last() =~= path@.subrange(0, end as int - 1));
        }
        end = end - 1;
    }
    proof {
        let t = path@.subrange(0, end as int);
        if t.len() > 0 {
            assert(t[t.len() - 1] == path@[end - 1]);
        }
        assert(strip_trailing_separators(t) == t);
    }
    let name_start: usize = match last_char_pos(path, 0, end, '/') {
        Some(k) => k + 1,
        None => 0,
    };
    proof {
        assert(file_name_of(path@) =~= path@.subrange(name_start as int, end as int));
    }
    let dot = last_char_pos(path, name_start, end, '.');
    match dot {
        Some(k) => {
            if k > name_start {
                proof {
                    let name = file_name_of(path@);
                    assert(extension_of(path@) == Some(
                        name.subrange(k - name_start + 1, name.len() as int),
                    ));
                    assert(name.subrange(k - name_start + 1, name.len() as int)
                        =~= path@.subrange(k + 1, end as int));
                }
                let ext_len: usize = end - (k + 1);
                if ext_len == 2 && path.get_char(k + 1) == 'g' && path.get_char(k + 2) == 'z' {
                    Codec::Gzip
                } else if ext_len == 3 && path.get_char(k + 1) == 'l' && path.get_char(k + 2)
                    == 'z' && path.get_char(k + 3) == '4' {
                    Codec::Lz4
                } else {
                    Codec::Identity
                }
            } else {
                proof {
                    assert(extension_of(path@) is None);
                }
                Codec::Identity
            }
        },
        None => {
            proof {
                assert(extension_of(path@) is None);
            }
            Codec::Identity
        },
    }
}

} // verus!

