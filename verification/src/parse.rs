//! Splitting header and query lines into key/value pairs, and joining the
//! body lines, for the request snapshot handed to the HTTP collaborator.
//!
//! A line is split on its first colon; a line without a colon is silently
//! dropped and contributes no pair — a deliberate best-effort policy.

use vstd::prelude::*;

verus! {

/// The index of the first colon at or after position `i`, if any.
pub open spec fn first_colon_from(s: Seq<char>, i: int) -> Option<int>
    decreases s.len() - i,
    when 0 <= i <= s.len()
{
    if i >= s.len() {
        None
    } else if s[i] == ':' {
        Some(i)
    } else {
        first_colon_from(s, i + 1)
    }
}

/// A line split on its first colon: everything before it, and everything
/// after it; nothing when the line has no colon.
pub open spec fn split_line(s: Seq<char>) -> Option<(Seq<char>, Seq<char>)> {
    match first_colon_from(s, 0) {
        Some(i) => Some((s.take(i), s.skip(i + 1))),
        None => None,
    }
}

/// The key/value pairs of the lines that contain a colon, in order; the
/// lines without one contribute nothing.
pub open spec fn parsed_pairs(lines: Seq<Seq<char>>) -> Seq<(Seq<char>, Seq<char>)>
    decreases lines.len(),
{
    if lines.len() == 0 {
        Seq::empty()
    } else {
        match split_line(lines.last()) {
            Some(p) => parsed_pairs(lines.drop_last()).push(p),
            None => parsed_pairs(lines.drop_last()),
        }
    }
}

/// All the lines joined in order, with nothing between them.
pub open spec fn joined_lines(lines: Seq<Seq<char>>) -> Seq<char>
    decreases lines.len(),
{
    if lines.len() == 0 {
        Seq::empty()
    } else {
        joined_lines(lines.drop_last()) + lines.last()
    }
}

/// The characters of each line.
pub open spec fn line_views(lines: Seq<Vec<char>>) -> Seq<Seq<char>> {
    lines.map_values(|l: Vec<char>| l@)
}

/// The characters of each side of each pair.
pub open spec fn pair_views(pairs: Seq<(Vec<char>, Vec<char>)>) -> Seq<(Seq<char>, Seq<char>)> {
    pairs.map_values(|p: (Vec<char>, Vec<char>)| (p.0@, p.1@))
}

/// A copy of `v[from..to]`.
fn subrange_to_vec(v: &Vec<char>, from: usize, to: usize) -> (r: Vec<char>)
    requires
        from <= to <= v@.len(),
    ensures
        r@ == v@.subrange(from as int, to as int),
{
    let mut r: Vec<char> = Vec::new();
    let mut i = from;
    while i < to
        invariant
            from <= i <= to <= v@.len(),
            r@ == v@.subrange(from as int, i as int),
        decreases to - i,
    {
        r.push(v[i]);
        proof {
            assert(v@.subrange(from as int, i + 1 as int) =~= v@.subrange(from as int, i as int)
                .push(v@[i as int]));
        }
        i = i + 1;
    }
    r
}

/// Split a line on its first colon into a key and a value; a line without a
/// colon yields nothing.
pub fn split_header_line(line: &Vec<char>) -> (r: Option<(Vec<char>, Vec<char>)>)
    ensures
        match split_line(line@) {
            Some(p) => r matches Some(q) && q.0@ == p.0 && q.1@ == p.1,
            None => r is None,
        },
{
    let n = line.len();
    let mut i: usize = 0;
    while i < n
        invariant
            i <= n,
            n == line@.len(),
            first_colon_from(line@, 0) == first_colon_from(line@, i as int),
        decreases n - i,
    {
        if line[i] == ':' {
            proof {
                assert(first_colon_from(line@, i as int) == Some(i as int));
                assert(line@.take(i as int) =~= line@.subrange(0, i as int));
                assert(line@.skip(i as int + 1) =~= line@.subrange(i as int + 1, n as int));
            }
            let key = subrange_to_vec(line, 0, i);
            let value = subrange_to_vec(line, i + 1, n);
            return Some((key, value));
        }
        proof {
            assert(first_colon_from(line@, i as int) == first_colon_from(line@, i as int + 1));
        }
        i = i + 1;
    }
    None
}

/// The key/value pairs of every line that contains a colon, in order.
pub fn parse_pairs(lines: &Vec<Vec<char>>) -> (r: Vec<(Vec<char>, Vec<char>)>)
    ensures
        pair_views(r@) == parsed_pairs(line_views(lines@)),
{
    let mut r: Vec<(Vec<char>, Vec<char>)> = Vec::new();
    let mut i: usize = 0;
    while i < lines.len()
        invariant
            i <= lines@.len(),
            pair_views(r@) == parsed_pairs(line_views(lines@).take(i as int)),
        decreases lines@.len() - i,
    {
        let ghost prev_pairs = pair_views(r@);
        match split_header_line(&lines[i]) {
            Some(pair) => {
                let ghost p = (pair.0@, pair.1@);
                r.push(pair);
                proof {
                    assert(pair_views(r@) =~= prev_pairs.push(p));
                }
            },
            None => {},
        }
        proof {
            let lv = line_views(lines@);
            assert(lv.take(i + 1 as int).drop_last() =~= lv.take(i as int));
            assert(lv.take(i + 1 as int).last() == lines@[i as int]@);
        }
        i = i + 1;
    }
    proof {
        assert(line_views(lines@).take(lines@.len() as int) =~= line_views(lines@));
    }
    r
}

/// All the lines joined in order, with nothing between them.
pub fn join_lines(lines: &Vec<Vec<char>>) -> (r: Vec<char>)
    ensures
        r@ == joined_lines(line_views(lines@)),
{
    let mut r: Vec<char> = Vec::new();
    let mut i: usize = 0;
    while i < lines.len()
        invariant
            i <= lines@.len(),
            r@ == joined_lines(line_views(lines@).take(i as int)),
        decreases lines@.len() - i,
    {
        let line = &lines[i];
        let mut j: usize = 0;
        while j < line.len()
            invariant
                j <= line@.len(),
                r@ == joined_lines(line_views(lines@).take(i as int)) + line@.take(j as int),
                i < lines@.len(),
                line@ == lines@[i as int]@,
            decreases line@.len() - j,
        {
            r.push(line[j]);
            proof {
                assert(line@.take(j + 1 as int) =~= line@.take(j as int).push(line@[j as int]));
                assert(joined_lines(line_views(lines@).take(i as int)) + line@.take(j + 1 as int)
                    =~= (joined_lines(line_views(lines@).take(i as int)) + line@.take(
                    j as int,
                )).push(line@[j as int]));
            }
            j = j + 1;
        }
        proof {
            let lv = line_views(lines@);
            assert(lv.take(i + 1 as int).drop_last() =~= lv.take(i as int));
            assert(lv.take(i + 1 as int).last() == lines@[i as int]@);
            assert(line@.take(line@.len() as int) =~= line@);
        }
        i = i + 1;
    }
    proof {
        assert(line_views(lines@).take(lines@.len() as int) =~= line_views(lines@));
    }
    r
}

} // verus!
