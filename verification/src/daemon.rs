//! Clipboard daemon client logic: interpreting the daemon's advertised
//! type list and its fetch results.
//!
//! The daemon is reached as two subprocess invocations owned by the
//! surrounding process; the client logic here works on the plain values
//! those invocations return.

use vstd::prelude::*;
use crate::mime::{is_text_type, str_eq, text_family};

verus! {

/// `m` occurs in the advertised list.
pub open spec fn list_contains_spec(types: Seq<Seq<char>>, m: Seq<char>) -> bool {
    exists|i: int| 0 <= i < types.len() && types[i] == m
}

/// Some advertised type is a `text/*` type.
pub open spec fn has_text_type_spec(types: Seq<Seq<char>>) -> bool {
    exists|i: int| 0 <= i < types.len() && text_family(types[i])
}

/// Whether the advertised list contains exactly `m`.
pub fn list_contains(types: &Vec<String>, m: &str) -> (r: bool)
    ensures
        r == list_contains_spec(types.deep_view(), m@),
{
    let mut i: usize = 0;
    while i < types.len()
        invariant
            0 <= i <= types.len(),
            forall|j: int| 0 <= j < i ==> types.deep_view()[j] != m@,
        decreases types.len() - i,
    {
        if str_eq(types[i].as_str(), m) {
            assert(types.deep_view()[i as int] == m@);
            return true;
        }
        i += 1;
    }
    false
}

/// Whether the advertised list contains any `text/*` type.
pub fn contains_text_type(types: &Vec<String>) -> (r: bool)
    ensures
        r == has_text_type_spec(types.deep_view()),
{
    let mut i: usize = 0;
    while i < types.len()
        invariant
            0 <= i <= types.len(),
            forall|j: int| 0 <= j < i ==> !text_family(types.deep_view()[j]),
        decreases types.len() - i,
    {
        if is_text_type(types[i].as_str()) {
            assert(text_family(types.deep_view()[i as int]));
            return true;
        }
        i += 1;
    }
    false
}

/// One emitted line: a single trailing carriage return is stripped when
/// the line was ended by a newline.
pub open spec fn line_of(cur: Seq<char>) -> Seq<char> {
    if cur.len() > 0 && cur[cur.len() - 1] == '\r' {
        cur.drop_last()
    } else {
        cur
    }
}

/// Splitting into lines, one character at a time: a newline emits the
/// accumulated line (with a trailing carriage return stripped); what is
/// left at the end is emitted as-is, except that nothing follows a final
/// newline.
pub open spec fn lines_go(s: Seq<char>, cur: Seq<char>) -> Seq<Seq<char>>
    decreases s.len(),
{
    if s.len() == 0 {
        if cur.len() == 0 {
            Seq::empty()
        } else {
            seq![cur]
        }
    } else if s[0] == '\n' {
        seq![line_of(cur)] + lines_go(s.drop_first(), Seq::empty())
    } else {
        lines_go(s.drop_first(), cur.push(s[0]))
    }
}

/// The lines of `s`, as the standard newline splitting emits them.
pub open spec fn lines_spec(s: Seq<char>) -> Seq<Seq<char>> {
    lines_go(s, Seq::empty())
}

/// Split text into lines: segments separated by newlines, each with a
/// single trailing carriage return stripped; a final segment without a
/// terminator is kept as it stands, and a terminating newline adds no
/// empty segment.
pub fn split_lines(s: &str) -> (r: Vec<String>)
    ensures
        r.deep_view() == lines_spec(s@),
{
    let n = s.unicode_len();
    let mut out: Vec<String> = Vec::new();
    let mut start: usize = 0;
    let mut i: usize = 0;
    proof {
        assert(s@.subrange(0, n as int) =~= s@);
        assert(s@.subrange(0, 0) =~= Seq::<char>::empty());
        assert(out.deep_view() =~= Seq::<Seq<char>>::empty());
        assert(out.deep_view() + lines_go(s@.subrange(0, n as int), s@.subrange(0, 0)) =~=
            lines_spec(s@));
    }
    while i < n
        invariant
            0 <= start <= i <= n,
            n == s@.len(),
            out.deep_view() + lines_go(
                s@.subrange(i as int, n as int),
                s@.subrange(start as int, i as int),
            ) =~= lines_spec(s@),
        decreases n - i,
    {
        let c = s.get_char(i);
        if c == '\n' {
            let end: usize = if i > start && s.get_char(i - 1) == '\r' {
                i - 1
            } else {
                i
            };
            let line = String::from_str(s.substring_char(start, end));
            let ghost before = out;
            out.push(line);
            proof {
                crate::targets::lemma_deep_view_push(before, out, line);
                assert(line_of(s@.subrange(start as int, i as int)) =~= s@.subrange(
                    start as int,
                    end as int,
                ));
                assert(s@.subrange(i as int, n as int).drop_first() =~= s@.subrange(
                    i as int + 1,
                    n as int,
                ));
                assert(s@.subrange(i as int + 1, i as int + 1) =~= Seq::<char>::empty());
                assert(out.deep_view() =~= before.deep_view() + seq![line@]);
            }
            start = i + 1;
        } else {
            proof {
                assert(s@.subrange(i as int, n as int).drop_first() =~= s@.subrange(
                    i as int + 1,
                    n as int,
                ));
                assert(s@.subrange(start as int, i as int).push(s@[i as int]) =~= s@.subrange(
                    start as int,
                    i as int + 1,
                ));
            }
        }
        i += 1;
    }
    if start < n {
        let line = String::from_str(s.substring_char(start, n));
        let ghost before = out;
        out.push(line);
        proof {
            crate::targets::lemma_deep_view_push(before, out, line);
            assert(s@.subrange(n as int, n as int).len() == 0);
            assert(out.deep_view() =~= before.deep_view() + seq![line@]);
            assert(out.deep_view() =~= lines_spec(s@));
        }
    } else {
        proof {
            assert(s@.subrange(n as int, n as int).len() == 0);
            assert(s@.subrange(start as int, n as int).len() == 0);
            assert(out.deep_view() + Seq::<Seq<char>>::empty() =~= out.deep_view());
        }
    }
    proof {
        assert(out.deep_view() =~= lines_spec(s@));
    }
    out
}

/// Interpret one type-listing invocation: on success the stdout text,
/// split into lines, is the advertised list; any non-zero exit or timeout
/// yields the empty list.
pub fn get_wl_clipboard_types(success: bool, stdout_text: &str) -> (r: Vec<String>)
    ensures
        success ==> r.deep_view() == lines_spec(stdout_text@),
        !success ==> r.deep_view() == Seq::<Seq<char>>::empty(),
{
    if success {
        split_lines(stdout_text)
    } else {
        let r: Vec<String> = Vec::new();
        proof {
            assert(r.deep_view() =~= Seq::<Seq<char>>::empty());
        }
        r
    }
}

/// Failure to fetch content from the daemon.
#[derive(Debug)]
pub enum FetchError {
    /// The fetch command exited non-zero or failed.
    Unavailable,
}

/// Interpret one fetch invocation: on success the raw stdout bytes are the
/// content; any non-zero exit is an error, never partial data.
pub fn fetch_from_wl_clipboard(success: bool, stdout: Vec<u8>) -> (r: Result<Vec<u8>, FetchError>)
    ensures
        success ==> (r matches Ok(v) && v@ == stdout@),
        !success ==> r is Err,
{
    if success {
        Ok(stdout)
    } else {
        Err(FetchError::Unavailable)
    }
}

} // verus!
