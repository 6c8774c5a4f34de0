//! Multi-line label text: splitting on newline characters.
//!
//! Labels are drawn and measured line by line; a label always has at least
//! one line, so the empty label has one empty line.

use vstd::prelude::*;
use vstd::string::*;

verus! {

/// The lines of a label: the maximal runs of characters between newline
/// characters.  Every label has one more line than it has newlines; in
/// particular the empty label has a single empty line.
pub open spec fn lines_of(s: Seq<char>) -> Seq<Seq<char>>
    decreases s.len(),
{
    if s.len() == 0 {
        seq![Seq::<char>::empty()]
    } else if s[0] == '\n' {
        seq![Seq::<char>::empty()] + lines_of(s.subrange(1, s.len() as int))
    } else {
        let rest = lines_of(s.subrange(1, s.len() as int));
        seq![seq![s[0]] + rest[0]] + rest.subrange(1, rest.len() as int)
    }
}

/// The views of a vector of owned lines.
pub open spec fn str_views(lines: Seq<String>) -> Seq<Seq<char>> {
    lines.map_values(|l: String| l@)
}

pub proof fn lemma_lines_of_len(s: Seq<char>)
    ensures
        lines_of(s).len() >= 1,
    decreases s.len(),
{
    if s.len() != 0 {
        lemma_lines_of_len(s.subrange(1, s.len() as int));
    }
}

/// A text without newlines is its own single line.
proof fn lemma_lines_of_no_newline(s: Seq<char>)
    requires
        forall|j: int| 0 <= j < s.len() ==> s[j] != '\n',
    ensures
        lines_of(s) == seq![s],
    decreases s.len(),
{
    if s.len() == 0 {
        assert(lines_of(s) =~~= seq![s]);
    } else {
        let t = s.subrange(1, s.len() as int);
        lemma_lines_of_no_newline(t);
        let rest = lines_of(t);
        assert(rest == seq![t]);
        assert(seq![s[0]] + rest[0] =~= s);
        assert(rest.subrange(1, rest.len() as int) =~~= Seq::<Seq<char>>::empty());
        assert(lines_of(s) =~~= seq![s]);
    }
}

/// Splitting off the first line: if the first newline of `s` stands at `k`,
/// the lines of `s` are the prefix before `k` followed by the lines of the
/// suffix after `k`.
proof fn lemma_lines_of_split_first(s: Seq<char>, k: int)
    requires
        0 <= k < s.len(),
        s[k] == '\n',
        forall|j: int| 0 <= j < k ==> s[j] != '\n',
    ensures
        lines_of(s) == seq![s.subrange(0, k)] + lines_of(s.subrange(k + 1, s.len() as int)),
    decreases k,
{
    if k == 0 {
        assert(s.subrange(0, 0) =~= Seq::<char>::empty());
        assert(lines_of(s) =~~= seq![s.subrange(0, 0)] + lines_of(
            s.subrange(1, s.len() as int),
        ));
    } else {
        let t = s.subrange(1, s.len() as int);
        assert(t[k - 1] == '\n');
        assert(forall|j: int| 0 <= j < k - 1 ==> t[j] != '\n');
        lemma_lines_of_split_first(t, k - 1);
        let rest = lines_of(t);
        assert(rest == seq![t.subrange(0, k - 1)] + lines_of(t.subrange(k - 1 + 1, t.len() as int)));
        lemma_lines_of_len(t.subrange(k, t.len() as int));
        assert(rest[0] == t.subrange(0, k - 1));
        assert(seq![s[0]] + t.subrange(0, k - 1) =~= s.subrange(0, k));
        assert(t.subrange(k, t.len() as int) =~= s.subrange(k + 1, s.len() as int));
        assert(rest.subrange(1, rest.len() as int) =~~= lines_of(s.subrange(k + 1, s.len() as int)));
        assert(lines_of(s) =~~= seq![s.subrange(0, k)] + lines_of(s.subrange(k + 1, s.len() as int)));
    }
}

/// Splits a label into its lines, on the newline character.
///
/// The result always holds at least one line; the empty label yields one
/// empty line, and a trailing newline yields a trailing empty line.
pub fn split_lines(label: &str) -> (lines: Vec<String>)
    ensures
        str_views(lines@) == lines_of(label@),
        lines@.len() >= 1,
{
    let n = label.unicode_len();
    let ghost s = label@;
    let mut lines: Vec<String> = Vec::new();
    let mut start: usize = 0;
    let mut i: usize = 0;
    proof {
        assert(s.subrange(0, s.len() as int) =~= s);
        assert(str_views(lines@) + lines_of(s) =~~= lines_of(s));
    }
    while i < n
        invariant
            0 <= start as int <= i as int <= n as int,
            n as nat == s.len(),
            label@ == s,
            forall|j: int| start as int <= j < i as int ==> s[j] != '\n',
            str_views(lines@) + lines_of(s.subrange(start as int, s.len() as int)) == lines_of(s),
        decreases n - i,
    {
        if label.get_char(i) == '\n' {
            let ghost rem = s.subrange(start as int, s.len() as int);
            let line = label.substring_char(start, i).to_owned();
            proof {
                assert(rem[i - start as int] == '\n');
                assert(forall|j: int| 0 <= j < i - start as int ==> rem[j] != '\n');
                lemma_lines_of_split_first(rem, i - start as int);
                assert(rem.subrange(0, i - start as int) =~= s.subrange(start as int, i as int));
                assert(rem.subrange(i - start as int + 1, rem.len() as int) =~= s.subrange(
                    i as int + 1,
                    s.len() as int,
                ));
                assert(line@ == s.subrange(start as int, i as int));
            }
            let ghost old_lines = lines@;
            lines.push(line);
            proof {
                assert(str_views(lines@) =~~= str_views(old_lines).push(line@));
                assert(str_views(lines@) + lines_of(s.subrange(i as int + 1, s.len() as int))
                    =~~= str_views(old_lines) + lines_of(s.subrange(start as int, s.len() as int)));
            }
            start = i + 1;
        }
        i += 1;
    }
    let ghost rem = s.subrange(start as int, s.len() as int);
    let line = label.substring_char(start, n).to_owned();
    proof {
        assert(forall|j: int| 0 <= j < rem.len() ==> rem[j] != '\n');
        lemma_lines_of_no_newline(rem);
    }
    let ghost old_lines = lines@;
    lines.push(line);
    proof {
        assert(str_views(lines@) =~~= str_views(old_lines).push(line@));
        assert(str_views(lines@) =~~= lines_of(s));
    }
    lines
}

} // verus!
