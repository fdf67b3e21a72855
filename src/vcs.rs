//! Reading the version-control status listing into changed paths.

use vstd::prelude::*;

verus! {

/// The whitespace trimmed from status lines.
pub open spec fn is_blank(c: char) -> bool {
    c == ' ' || c == '\t' || c == '\r' || c == '\n'
}

/// Lines of `s` split on '\n': the finished lines and the line in progress.
pub open spec fn scan_lines(s: Seq<char>) -> (Seq<Seq<char>>, Seq<char>)
    decreases s.len(),
{
    if s.len() == 0 {
        (Seq::empty(), Seq::empty())
    } else {
        let (done, cur) = scan_lines(s.drop_last());
        if s.last() == '\n' {
            (done.push(cur), Seq::empty())
        } else {
            (done, cur.push(s.last()))
        }
    }
}

/// The lines of `s`; a final line without '\n' counts when it is not empty.
pub open spec fn lines_of(s: Seq<char>) -> Seq<Seq<char>> {
    let (done, cur) = scan_lines(s);
    if cur.len() > 0 {
        done.push(cur)
    } else {
        done
    }
}

/// One past the last character of `line` before `to` that is not blank, or
/// `lo` when there is none from `lo` on.
pub open spec fn last_kept(line: Seq<char>, lo: int, to: int) -> int
    decreases to - lo,
{
    if to <= lo {
        lo
    } else if is_blank(line[to - 1]) {
        last_kept(line, lo, to - 1)
    } else {
        to
    }
}

/// `line` without trailing blanks.
pub open spec fn trimmed(line: Seq<char>) -> Seq<char> {
    line.subrange(0, last_kept(line, 0, line.len() as int))
}

/// The path a status line names: what follows its two status characters and
/// the separating space, without trailing blanks, when anything does.
pub open spec fn path_of_line(line: Seq<char>) -> Option<Seq<char>> {
    let t = trimmed(line);
    if t.len() > 3 {
        Some(t.subrange(3, t.len() as int))
    } else {
        None
    }
}

/// The paths named by `lines`, in order.
pub open spec fn paths_of_lines(lines: Seq<Seq<char>>) -> Seq<Seq<char>>
    decreases lines.len(),
{
    if lines.len() == 0 {
        Seq::empty()
    } else {
        let rest = paths_of_lines(lines.drop_last());
        match path_of_line(lines.last()) {
            Some(p) => rest.push(p),
            None => rest,
        }
    }
}

/// The paths with pending changes in a porcelain status listing.
pub open spec fn changed_paths(s: Seq<char>) -> Seq<Seq<char>> {
    paths_of_lines(lines_of(s))
}

proof fn lemma_last_kept_bounds(line: Seq<char>, lo: int, to: int)
    requires
        0 <= lo <= to <= line.len(),
    ensures
        lo <= last_kept(line, lo, to) <= to,
    decreases to - lo,
{
    if to > lo && is_blank(line[to - 1]) {
        lemma_last_kept_bounds(line, lo, to - 1);
    }
}

fn blank(c: char) -> (r: bool)
    ensures
        r == is_blank(c),
{
    c == ' ' || c == '\t' || c == '\r' || c == '\n'
}

/// The path named by one status line, if any.
pub fn status_line_path(line: &str) -> (r: Option<String>)
    ensures
        match (r, path_of_line(line@)) {
            (Some(p), Some(q)) => p@ == q,
            (None, None) => true,
            _ => false,
        },
{
    let n = line.unicode_len();
    let mut end: usize = n;
    while end > 0 && blank(line.get_char(end - 1))
        invariant
            n == line@.len(),
            end <= n,
            last_kept(line@, 0, n as int) == last_kept(line@, 0, end as int),
        decreases end,
    {
        end -= 1;
    }
    proof {
        lemma_last_kept_bounds(line@, 0, n as int);
    }
    if end > 3 {
        let p = line.substring_char(3, end);
        proof {
            let t = trimmed(line@);
            assert(t =~= line@.subrange(0, end as int));
            assert(p@ =~= t.subrange(3, t.len() as int));
        }
        Some(String::from_str(p))
    } else {
        None
    }
}

/// The paths with pending changes in a porcelain status listing ("XY path"
/// lines), one per line; lines too short to name a path are skipped.
pub fn parse_status_output(output: &str) -> (r: Vec<String>)
    ensures
        r@.len() == changed_paths(output@).len(),
        forall|j: int| 0 <= j < r@.len() ==> (#[trigger] r@[j])@ == changed_paths(output@)[j],
{
    let n = output.unicode_len();
    let mut r: Vec<String> = Vec::new();
    let mut start: usize = 0;
    let mut k: usize = 0;
    while k < n
        invariant
            n == output@.len(),
            start <= k <= n,
            scan_lines(output@.subrange(0, k as int)).1 == output@.subrange(start as int, k as int),
            r@.len() == paths_of_lines(scan_lines(output@.subrange(0, k as int)).0).len(),
            forall|j: int|
                0 <= j < r@.len() ==> (#[trigger] r@[j])@ == paths_of_lines(
                    scan_lines(output@.subrange(0, k as int)).0,
                )[j],
        decreases n - k,
    {
        let c = output.get_char(k);
        proof {
            let s1 = output@.subrange(0, k as int + 1);
            assert(s1.drop_last() =~= output@.subrange(0, k as int));
            assert(s1.last() == c);
        }
        if c == '\n' {
            let line = output.substring_char(start, k);
            let ghost before = r@;
            match status_line_path(line) {
                Some(p) => {
                    r.push(p);
                },
                None => {},
            }
            proof {
                let done = scan_lines(output@.subrange(0, k as int)).0;
                let cur = scan_lines(output@.subrange(0, k as int)).1;
                assert(line@ =~= cur);
                let done2 = done.push(cur);
                assert(done2.drop_last() =~= done);
                assert forall|j: int| 0 <= j < r@.len() implies (#[trigger] r@[j])@
                    == paths_of_lines(done2)[j] by {
                    if j < before.len() {
                        assert(r@[j] == before[j]);
                    }
                }
            }
            start = k + 1;
        } else {
            proof {
                assert(output@.subrange(start as int, k as int + 1) =~= output@.subrange(
                    start as int,
                    k as int,
                ).push(c));
            }
        }
        k += 1;
    }
    proof {
        assert(output@.subrange(0, n as int) =~= output@);
    }
    if start < n {
        let line = output.substring_char(start, n);
        let ghost before = r@;
        match status_line_path(line) {
            Some(p) => {
                r.push(p);
            },
            None => {},
        }
        proof {
            let done = scan_lines(output@).0;
            let cur = scan_lines(output@).1;
            assert(line@ =~= cur);
            let done2 = done.push(cur);
            assert(done2.drop_last() =~= done);
            assert(lines_of(output@) == done2);
            assert forall|j: int| 0 <= j < r@.len() implies (#[trigger] r@[j])@ == paths_of_lines(
                done2,
            )[j] by {
                if j < before.len() {
                    assert(r@[j] == before[j]);
                }
            }
        }
    } else {
        proof {
            assert(scan_lines(output@).1.len() == 0);
        }
    }
    r
}

} // verus!
