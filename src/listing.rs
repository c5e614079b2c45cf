use vstd::prelude::*;

use crate::filter::BranchInfo;
use crate::text::texts;

verus! {

/// The lines of a text, split at each `'\n'`; a text without one is a single line.
pub open spec fn lines(s: Seq<char>) -> Seq<Seq<char>>
    decreases s.len(),
{
    if s.len() == 0 {
        seq![Seq::empty()]
    } else {
        let prev = lines(s.drop_last());
        if s.last() == '\n' {
            prev.push(Seq::empty())
        } else {
            prev.update(prev.len() - 1, prev.last().push(s.last()))
        }
    }
}

/// The characters stripped from a line: the marker `*` in the first pass, blanks in the second.
pub open spec fn strips(c: char, stars: bool) -> bool {
    if stars {
        c == '*'
    } else {
        c == ' ' || c == '\t' || c == '\r'
    }
}

/// `s` without its leading stripped characters.
pub open spec fn trim_start(s: Seq<char>, stars: bool) -> Seq<char>
    decreases s.len(),
{
    if s.len() > 0 && strips(s[0], stars) {
        trim_start(s.drop_first(), stars)
    } else {
        s
    }
}

/// `s` without its trailing stripped characters.
pub open spec fn trim_end(s: Seq<char>, stars: bool) -> Seq<char>
    decreases s.len(),
{
    if s.len() > 0 && strips(s.last(), stars) {
        trim_end(s.drop_last(), stars)
    } else {
        s
    }
}

/// The branch name on a line of the listing: markers, then blanks, stripped at both ends.
pub open spec fn branch_name(line: Seq<char>) -> Seq<char> {
    trim_end(trim_start(trim_end(trim_start(line, true), true), false), false)
}

/// The name on a line, if the line holds one.
pub open spec fn name_on_line() -> spec_fn(Seq<char>) -> Option<Seq<char>> {
    |line: Seq<char>|
        if branch_name(line).len() > 0 {
            Some(branch_name(line))
        } else {
            None
        }
}

/// The branch names of a listing, one per non-blank line, in order.
pub open spec fn branch_names(output: Seq<char>) -> Seq<Seq<char>> {
    lines(output).filter_map(name_on_line())
}

fn skip_front(text: &str, lo: usize, hi: usize, stars: bool) -> (r: usize)
    requires
        lo <= hi <= text@.len(),
    ensures
        lo <= r <= hi,
        trim_start(text@.subrange(lo as int, hi as int), stars) == text@.subrange(
            r as int,
            hi as int,
        ),
{
    let mut k = lo;
    while k < hi && is_stripped(text.get_char(k), stars)
        invariant
            lo <= k <= hi <= text@.len(),
            trim_start(text@.subrange(lo as int, hi as int), stars) == trim_start(
                text@.subrange(k as int, hi as int),
                stars,
            ),
        decreases hi - k,
    {
        assert(text@.subrange(k as int, hi as int).drop_first() =~= text@.subrange(
            k + 1,
            hi as int,
        ));
        k = k + 1;
    }
    k
}

fn skip_back(text: &str, lo: usize, hi: usize, stars: bool) -> (r: usize)
    requires
        lo <= hi <= text@.len(),
    ensures
        lo <= r <= hi,
        trim_end(text@.subrange(lo as int, hi as int), stars) == text@.subrange(
            lo as int,
            r as int,
        ),
{
    let mut k = hi;
    while k > lo && is_stripped(text.get_char(k - 1), stars)
        invariant
            lo <= k <= hi <= text@.len(),
            trim_end(text@.subrange(lo as int, hi as int), stars) == trim_end(
                text@.subrange(lo as int, k as int),
                stars,
            ),
        decreases k - lo,
    {
        assert(text@.subrange(lo as int, k as int).drop_last() =~= text@.subrange(
            lo as int,
            k - 1,
        ));
        k = k - 1;
    }
    k
}

fn is_stripped(c: char, stars: bool) -> (r: bool)
    ensures
        r == strips(c, stars),
{
    if stars {
        c == '*'
    } else {
        c == ' ' || c == '\t' || c == '\r'
    }
}

/// Appends the name on the line `text[from..to]`, if it holds one.
fn push_name(names: &mut Vec<String>, text: &str, from: usize, to: usize)
    requires
        from <= to <= text@.len(),
    ensures
        texts(final(names)@) == texts(old(names)@) + (match name_on_line()(
            text@.subrange(from as int, to as int),
        ) {
            Some(n) => seq![n],
            None => Seq::empty(),
        }),
{
    let lo = skip_front(text, from, to, true);
    let hi = skip_back(text, lo, to, true);
    let lo = skip_front(text, lo, hi, false);
    let hi = skip_back(text, lo, hi, false);
    let ghost before = texts(names@);
    if lo < hi {
        names.push(String::from_str(text.substring_char(lo, hi)));
        assert(texts(names@) =~= before.push(text@.subrange(lo as int, hi as int)));
    } else {
        assert(texts(names@) =~= before);
    }
}

/// Reads the branch names out of a listing of local branches, one per line.
pub fn parse_branch_names(output: &str) -> (r: Vec<String>)
    ensures
        texts(r@) == branch_names(output@),
{
    let n = output.unicode_len();
    let ghost s = output@;
    let mut names: Vec<String> = Vec::new();
    let mut start: usize = 0;
    let mut i: usize = 0;
    let ghost mut done: Seq<Seq<char>> = Seq::empty();
    assert(s.take(0) =~= Seq::<char>::empty());
    assert(done.push(s.subrange(0, 0)) =~= seq![Seq::<char>::empty()]);
    while i < n
        invariant
            n == s.len(),
            s == output@,
            start <= i <= n,
            lines(s.take(i as int)) == done.push(s.subrange(start as int, i as int)),
            texts(names@) == done.filter_map(name_on_line()),
        decreases n - i,
    {
        let c = output.get_char(i);
        assert(s.take(i + 1).drop_last() =~= s.take(i as int));
        assert(s.take(i + 1).last() == c);
        if c == '\n' {
            push_name(&mut names, output, start, i);
            proof {
                let line = s.subrange(start as int, i as int);
                assert(done.push(line).drop_last() =~= done);
                done = done.push(line);
            }
            start = i + 1;
            assert(s.subrange(start as int, i + 1) =~= Seq::<char>::empty());
            assert(lines(s.take(i + 1)) =~= done.push(s.subrange(start as int, i + 1)));
        } else {
            let ghost line = s.subrange(start as int, i as int);
            let ghost prev = done.push(line);
            assert(line.push(c) =~= s.subrange(start as int, i + 1));
            assert(prev.update(prev.len() - 1, prev.last().push(c)) =~= done.push(line.push(c)));
            assert(lines(s.take(i + 1)) =~= done.push(s.subrange(start as int, i + 1)));
        }
        i = i + 1;
    }
    push_name(&mut names, output, start, n);
    proof {
        let line = s.subrange(start as int, n as int);
        assert(done.push(line).drop_last() =~= done);
        assert(s.take(n as int) =~= s);
    }
    names
}

/// Tags each branch with whether its name occurs among the merged ones.
pub fn tag_merged(all: &Vec<String>, merged: &Vec<String>) -> (r: Vec<BranchInfo>)
    ensures
        r.len() == all.len(),
        forall|i: int|
            0 <= i < r.len() ==> (#[trigger] r@[i]).name@ == all@[i]@ && r@[i].merged == texts(
                merged@,
            ).contains(all@[i]@),
{
    let mut r: Vec<BranchInfo> = Vec::new();
    let mut i: usize = 0;
    while i < all.len()
        invariant
            i <= all.len(),
            r.len() == i,
            forall|k: int|
                0 <= k < i ==> (#[trigger] r@[k]).name@ == all@[k]@ && r@[k].merged == texts(
                    merged@,
                ).contains(all@[k]@),
        decreases all.len() - i,
    {
        let mut found = false;
        let mut j: usize = 0;
        while j < merged.len()
            invariant
                i < all.len(),
                j <= merged.len(),
                found == exists|k: int| 0 <= k < j && merged@[k]@ == all@[i as int]@,
            decreases merged.len() - j,
        {
            if merged[j] == all[i] {
                found = true;
            }
            j = j + 1;
        }
        proof {
            let t = texts(merged@);
            if found {
                let k = choose|k: int| 0 <= k < merged.len() && merged@[k]@ == all@[i as int]@;
                assert(t[k] == all@[i as int]@);
            }
            if t.contains(all@[i as int]@) {
                let k = choose|k: int| 0 <= k < t.len() && t[k] == all@[i as int]@;
                assert(merged@[k]@ == all@[i as int]@);
            }
        }
        r.push(BranchInfo { name: all[i].clone(), merged: found });
        i = i + 1;
    }
    r
}

} // verus!
