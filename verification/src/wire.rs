//! The session provider's wire format: one line per session as
//! `name:creationEpochSeconds`, and one line per window as
//! `windowIndex:windowName:activeFlag` with `"1"` marking the active
//! window. Malformed lines are skipped, never fatal.

use crate::session::TmuxWindow;
use crate::text::find_char_at;
use crate::text::find_char_from;
use crate::text::lines_of;
use crate::text::split_lines;
use vstd::prelude::*;
use vstd::string::StrSliceExecFns;

verus! {

/// The two fields of a session line: the text before the first colon, and
/// everything after it. A line without a colon is malformed.
pub open spec fn session_line_fields(l: Seq<char>) -> Option<(Seq<char>, Seq<char>)> {
    let i = find_char_at(l, ':');
    if 0 <= i < l.len() {
        Some((l.subrange(0, i), l.subrange(i + 1, l.len() as int)))
    } else {
        None
    }
}

/// The three fields of a window line: the text before the first colon, the
/// text between the first and second colons, and everything after the
/// second. A line with fewer than two colons is malformed.
pub open spec fn window_line_fields(l: Seq<char>) -> Option<(Seq<char>, Seq<char>, Seq<char>)> {
    let i = find_char_at(l, ':');
    if 0 <= i < l.len() {
        let rest = l.subrange(i + 1, l.len() as int);
        let j = find_char_at(rest, ':');
        if 0 <= j < rest.len() {
            Some(
                (
                    l.subrange(0, i),
                    rest.subrange(0, j),
                    rest.subrange(j + 1, rest.len() as int),
                ),
            )
        } else {
            None
        }
    } else {
        None
    }
}

/// Split a session line into its name and raw timestamp fields, or nothing
/// when the line is malformed.
pub fn parse_session_line(line: &str) -> (r: Option<(String, String)>)
    ensures
        match r {
            Some(p) => session_line_fields(line@) == Some((p.0@, p.1@)),
            None => session_line_fields(line@) is None,
        },
{
    let n = line.unicode_len();
    proof {
        assert(line@.subrange(0, n as int) =~= line@);
    }
    match find_char_from(line, ':', 0) {
        Some(i) => {
            let name = line.substring_char(0, i).to_owned();
            let created = line.substring_char(i + 1, n).to_owned();
            Some((name, created))
        },
        None => None,
    }
}

/// Split a window line into a window record: index and name fields, and an
/// active flag that holds exactly when the third field is `"1"`. A
/// malformed line yields nothing.
pub fn parse_window_line(line: &str) -> (r: Option<TmuxWindow>)
    ensures
        match r {
            Some(w) => window_line_fields(line@) matches Some(f) && w.index@ == f.0 && w.name@
                == f.1 && w.active == (f.2 == seq!['1']),
            None => window_line_fields(line@) is None,
        },
{
    let n = line.unicode_len();
    proof {
        assert(line@.subrange(0, n as int) =~= line@);
    }
    let i = match find_char_from(line, ':', 0) {
        Some(i) => i,
        None => {
            return None;
        },
    };
    let ghost rest = line@.subrange(i + 1, n as int);
    let j = match find_char_from(line, ':', i + 1) {
        Some(j) => j,
        None => {
            return None;
        },
    };
    let index = line.substring_char(0, i).to_owned();
    let name = line.substring_char(i + 1, j).to_owned();
    let flag_len = n - (j + 1);
    let active = flag_len == 1 && line.get_char(j + 1) == '1';
    let w = TmuxWindow { index, name, active };
    proof {
        let f = window_line_fields(line@).unwrap();
        assert(rest.subrange(0, j - (i + 1)) =~= line@.subrange(i + 1, j as int));
        assert(rest.subrange(j - (i + 1) + 1, rest.len() as int) =~= line@.subrange(
            j + 1,
            n as int,
        ));
        assert(f.2 == line@.subrange(j + 1, n as int));
        if active {
            assert(f.2 =~= seq!['1']);
        } else {
            assert(f.2 != seq!['1']) by {
                if f.2.len() == 1 {
                    assert(f.2[0] == line@[j + 1]);
                    assert(seq!['1'][0] == '1');
                }
            }
        }
    }
    Some(w)
}

/// The spec-level shadow of a window record.
pub open spec fn window_view(w: TmuxWindow) -> (Seq<char>, Seq<char>, bool) {
    (w.index@, w.name@, w.active)
}

/// The window records of a sequence of lines, in order, with malformed
/// lines skipped.
pub open spec fn windows_of_lines(ls: Seq<Seq<char>>) -> Seq<(Seq<char>, Seq<char>, bool)>
    decreases ls.len(),
{
    if ls.len() == 0 {
        Seq::empty()
    } else {
        let rest = windows_of_lines(ls.drop_first());
        match window_line_fields(ls[0]) {
            Some(f) => seq![(f.0, f.1, f.2 == seq!['1'])] + rest,
            None => rest,
        }
    }
}

/// The session records of a sequence of lines, in order, with malformed
/// lines skipped.
pub open spec fn sessions_of_lines(ls: Seq<Seq<char>>) -> Seq<(Seq<char>, Seq<char>)>
    decreases ls.len(),
{
    if ls.len() == 0 {
        Seq::empty()
    } else {
        let rest = sessions_of_lines(ls.drop_first());
        match session_line_fields(ls[0]) {
            Some(f) => seq![f] + rest,
            None => rest,
        }
    }
}

/// Parse one `list-windows` output: one window record per well-formed
/// line, in provider order, malformed lines skipped.
pub fn parse_windows(text: &str) -> (r: Vec<TmuxWindow>)
    ensures
        r@.map_values(|w: TmuxWindow| window_view(w)) == windows_of_lines(lines_of(text@)),
{
    let lines = split_lines(text);
    let ghost ldv = lines.deep_view();
    let mut out: Vec<TmuxWindow> = Vec::new();
    let mut k: usize = 0;
    proof {
        assert(ldv.skip(0) =~= ldv);
        assert(out@.map_values(|w: TmuxWindow| window_view(w)) + windows_of_lines(ldv)
            =~= windows_of_lines(ldv));
    }
    while k < lines.len()
        invariant
            k <= lines.len(),
            ldv == lines.deep_view(),
            ldv.len() == lines.len(),
            out@.map_values(|w: TmuxWindow| window_view(w)) + windows_of_lines(ldv.skip(k as int))
                == windows_of_lines(ldv),
        decreases lines.len() - k,
    {
        let ghost pre_map = out@.map_values(|w: TmuxWindow| window_view(w));
        proof {
            assert(ldv.skip(k as int).drop_first() =~= ldv.skip(k + 1));
            assert(ldv.skip(k as int)[0] == ldv[k as int]);
            assert(ldv[k as int] == lines@[k as int]@);
        }
        match parse_window_line(lines[k].as_str()) {
            Some(w) => {
                out.push(w);
                proof {
                    assert(out@.map_values(|w: TmuxWindow| window_view(w)) =~= pre_map.push(
                        window_view(w),
                    ));
                    assert(pre_map.push(window_view(w)) + windows_of_lines(ldv.skip(k + 1))
                        =~= pre_map + windows_of_lines(ldv.skip(k as int)));
                }
            },
            None => {},
        }
        k = k + 1;
    }
    proof {
        assert(ldv.skip(ldv.len() as int) =~= Seq::<Seq<char>>::empty());
        assert(windows_of_lines(ldv.skip(ldv.len() as int)) =~= Seq::<
            (Seq<char>, Seq<char>, bool),
        >::empty());
        assert(out@.map_values(|w: TmuxWindow| window_view(w)) + windows_of_lines(
            ldv.skip(ldv.len() as int),
        ) =~= out@.map_values(|w: TmuxWindow| window_view(w)));
    }
    out
}

/// Parse one `list-sessions` output: the name and raw timestamp fields of
/// each well-formed line, in provider order, malformed lines skipped.
pub fn parse_session_lines(text: &str) -> (r: Vec<(String, String)>)
    ensures
        r@.map_values(|p: (String, String)| (p.0@, p.1@)) == sessions_of_lines(lines_of(text@)),
{
    let lines = split_lines(text);
    let ghost ldv = lines.deep_view();
    let mut out: Vec<(String, String)> = Vec::new();
    let mut k: usize = 0;
    proof {
        assert(ldv.skip(0) =~= ldv);
        assert(out@.map_values(|p: (String, String)| (p.0@, p.1@)) + sessions_of_lines(ldv)
            =~= sessions_of_lines(ldv));
    }
    while k < lines.len()
        invariant
            k <= lines.len(),
            ldv == lines.deep_view(),
            ldv.len() == lines.len(),
            out@.map_values(|p: (String, String)| (p.0@, p.1@)) + sessions_of_lines(
                ldv.skip(k as int),
            ) == sessions_of_lines(ldv),
        decreases lines.len() - k,
    {
        let ghost pre_map = out@.map_values(|p: (String, String)| (p.0@, p.1@));
        proof {
            assert(ldv.skip(k as int).drop_first() =~= ldv.skip(k + 1));
            assert(ldv.skip(k as int)[0] == ldv[k as int]);
            assert(ldv[k as int] == lines@[k as int]@);
        }
        match parse_session_line(lines[k].as_str()) {
            Some(p) => {
                out.push(p);
                proof {
                    assert(out@.map_values(|p: (String, String)| (p.0@, p.1@)) =~= pre_map.push(
                        (p.0@, p.1@),
                    ));
                    assert(pre_map.push((p.0@, p.1@)) + sessions_of_lines(ldv.skip(k + 1))
                        =~= pre_map + sessions_of_lines(ldv.skip(k as int)));
                }
            },
            None => {},
        }
        k = k + 1;
    }
    proof {
        assert(ldv.skip(ldv.len() as int) =~= Seq::<Seq<char>>::empty());
        assert(sessions_of_lines(ldv.skip(ldv.len() as int)) =~= Seq::<
            (Seq<char>, Seq<char>),
        >::empty());
        assert(out@.map_values(|p: (String, String)| (p.0@, p.1@)) + sessions_of_lines(
            ldv.skip(ldv.len() as int),
        ) =~= out@.map_values(|p: (String, String)| (p.0@, p.1@)));
    }
    out
}

} // verus!
