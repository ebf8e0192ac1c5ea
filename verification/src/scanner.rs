//! Exclusion filtering for the contract scanner: which paths an ignore file
//! rules out. Walking the file tree and reading the ignore file are I/O and
//! stay outside; the scanner is handed the ignore file's lines and judges
//! plain path strings.

use vstd::prelude::*;
use vstd::string::StrSliceExecFns;
use crate::names::is_substr;

verus! {

broadcast use crate::names::group_names_axioms;

/// Whether `s` ends with `suffix`.
pub open spec fn ends_with_spec(s: Seq<char>, suffix: Seq<char>) -> bool {
    suffix.len() <= s.len() && s.skip(s.len() - suffix.len()) == suffix
}

/// Whether the characters of `suffix` end `s`.
pub fn str_ends_with(s: &str, suffix: &str) -> (b: bool)
    ensures
        b == ends_with_spec(s@, suffix@),
{
    let sl = s.unicode_len();
    let fl = suffix.unicode_len();
    if fl > sl {
        return false;
    }
    let mut k: usize = 0;
    while k < fl
        invariant
            fl <= sl,
            sl == s@.len(),
            fl == suffix@.len(),
            k <= fl,
            forall|j: int| 0 <= j < k ==> s@[sl - fl + j] == suffix@[j],
        decreases fl - k,
    {
        if s.get_char(sl - fl + k) != suffix.get_char(k) {
            assert(s@.skip(s@.len() - suffix@.len())[k as int] != suffix@[k as int]);
            return false;
        }
        k += 1;
    }
    assert(s@.skip(s@.len() - suffix@.len()) =~= suffix@);
    true
}

/// The index of the first `*` in a pattern, if any.
pub open spec fn star_at(p: Seq<char>, i: int) -> Option<int>
    decreases p.len() - i,
{
    if i < 0 || i >= p.len() {
        None
    } else if p[i] == '*' {
        Some(i)
    } else {
        star_at(p, i + 1)
    }
}

/// Whether a path matches one exclusion pattern. A pattern with a single
/// wildcard matches by its prefix and suffix around the `*`: an empty suffix
/// asks only that the prefix occur, an empty prefix only that the suffix end
/// the path, and otherwise both. A pattern without a wildcard (or with more
/// than one) matches when the path holds it or ends with it.
pub open spec fn matches_pattern_spec(path: Seq<char>, pattern: Seq<char>) -> bool {
    match star_at(pattern, 0) {
        Some(i) => if star_at(pattern, i + 1) is None {
            let prefix = pattern.take(i);
            let suffix = pattern.skip(i + 1);
            if suffix.len() == 0 {
                is_substr(path, prefix)
            } else if prefix.len() == 0 {
                ends_with_spec(path, suffix)
            } else {
                is_substr(path, prefix) && ends_with_spec(path, suffix)
            }
        } else {
            is_substr(path, pattern) || ends_with_spec(path, pattern)
        },
        None => is_substr(path, pattern) || ends_with_spec(path, pattern),
    }
}

/// Find the first `*` of a pattern.
fn find_star(p: &str) -> (r: Option<usize>)
    ensures
        match r {
            Some(i) => star_at(p@, 0) == Some(i as int) && i < p@.len(),
            None => star_at(p@, 0) is None,
        },
{
    let pl = p.unicode_len();
    let mut i: usize = 0;
    while i < pl
        invariant
            pl == p@.len(),
            i <= pl,
            star_at(p@, 0) == star_at(p@, i as int),
        decreases pl - i,
    {
        if p.get_char(i) == '*' {
            return Some(i);
        }
        i += 1;
    }
    None
}

/// Whether a path matches one exclusion pattern.
pub fn matches_pattern(path: &str, pattern: &str) -> (b: bool)
    ensures
        b == matches_pattern_spec(path@, pattern@),
{
    let pl = pattern.unicode_len();
    match find_star(pattern) {
        Some(i) => {
            let rest = pattern.substring_char(i + 1, pl);
            let second = find_star(rest);
            if second.is_none() {
                let prefix = pattern.substring_char(0, i);
                let suffix = rest;
                assert(prefix@ =~= pattern@.take(i as int));
                assert(suffix@ =~= pattern@.skip(i + 1));
                assert(star_at(pattern@, i + 1) is None) by {
                    lemma_star_shift(pattern@, i + 1);
                }
                if suffix.unicode_len() == 0 {
                    crate::names::contains_substr(path, prefix)
                } else if prefix.unicode_len() == 0 {
                    str_ends_with(path, suffix)
                } else {
                    let a = crate::names::contains_substr(path, prefix);
                    let b = str_ends_with(path, suffix);
                    a && b
                }
            } else {
                assert(star_at(pattern@, i + 1) is Some) by {
                    lemma_star_shift(pattern@, i + 1);
                }
                let a = crate::names::contains_substr(path, pattern);
                if a {
                    true
                } else {
                    str_ends_with(path, pattern)
                }
            }
        },
        None => {
            let a = crate::names::contains_substr(path, pattern);
            if a {
                true
            } else {
                str_ends_with(path, pattern)
            }
        },
    }
}

/// Searching the tail of a pattern for a star is searching the pattern from
/// that position.
proof fn lemma_star_shift(p: Seq<char>, from: int)
    requires
        0 <= from <= p.len(),
    ensures
        star_at(p, from) is Some <==> star_at(p.skip(from), 0) is Some,
    decreases p.len() - from,
{
    lemma_star_shift_idx(p, from, from);
}

proof fn lemma_star_shift_idx(p: Seq<char>, from: int, i: int)
    requires
        0 <= from <= i <= p.len(),
    ensures
        star_at(p, i) is Some <==> star_at(p.skip(from), i - from) is Some,
    decreases p.len() - i,
{
    if i < p.len() {
        assert(p.skip(from)[i - from] == p[i]);
        if p[i] != '*' {
            lemma_star_shift_idx(p, from, i + 1);
        }
    }
}

/// The contract scanner: a root path and the exclusion patterns read from an
/// ignore file. Directory walking happens outside and hands paths in;
/// [`Self::should_exclude`] judges each.
#[derive(Debug)]
pub struct FileScanner {
    pub root_path: String,
    pub exclusions: Vec<String>,
}

impl FileScanner {
    /// Whether an ignore-file line carries a pattern: not empty and not a
    /// comment line.
    pub open spec fn keeps_line(line: Seq<char>) -> bool {
        line.len() > 0 && line[0] != '#'
    }

    /// The patterns of the ignore file's lines, in order: each line trimmed
    /// upstream, with empty and comment lines dropped.
    pub open spec fn kept_lines(lines: Seq<String>, i: int) -> Seq<Seq<char>>
        decreases lines.len() - i,
    {
        if i < 0 || i >= lines.len() {
            Seq::empty()
        } else {
            let rest = Self::kept_lines(lines, i + 1);
            if Self::keeps_line(lines[i]@) {
                seq![lines[i]@] + rest
            } else {
                rest
            }
        }
    }

    /// Build a scanner over the given root from the ignore file's trimmed
    /// lines, dropping empty and comment lines.
    pub fn new(root_path: String, ignore_lines: Vec<String>) -> (r: FileScanner)
        ensures
            r.root_path == root_path,
            crate::names::names_of(r.exclusions@) == Self::kept_lines(ignore_lines@, 0),
    {
        let mut exclusions: Vec<String> = Vec::new();
        assert(crate::names::names_of(exclusions@) =~= Seq::<Seq<char>>::empty());
        let mut i: usize = 0;
        while i < ignore_lines.len()
            invariant
                i <= ignore_lines.len(),
                crate::names::names_of(exclusions@) + Self::kept_lines(ignore_lines@, i as int)
                    =~= Self::kept_lines(ignore_lines@, 0),
            decreases ignore_lines.len() - i,
        {
            let line = &ignore_lines[i];
            let keep = if line.as_str().unicode_len() == 0 {
                false
            } else {
                line.as_str().get_char(0) != '#'
            };
            if keep {
                let ghost pre = crate::names::names_of(exclusions@);
                exclusions.push(line.clone());
                assert(crate::names::names_of(exclusions@) =~= pre.push(
                    ignore_lines@[i as int]@,
                ));
            }
            i += 1;
        }
        FileScanner { root_path, exclusions }
    }

    /// Whether some exclusion pattern matches the path.
    pub open spec fn excluded_spec(path: Seq<char>, patterns: Seq<Seq<char>>) -> bool {
        exists|j: int|
            0 <= j < patterns.len() && matches_pattern_spec(path, #[trigger] patterns[j])
    }

    /// Whether the path matches one of the scanner's exclusion patterns.
    pub fn should_exclude(&self, path: &str) -> (b: bool)
        ensures
            b == Self::excluded_spec(path@, crate::names::names_of(self.exclusions@)),
    {
        let mut j: usize = 0;
        while j < self.exclusions.len()
            invariant
                j <= self.exclusions.len(),
                forall|k: int|
                    0 <= k < j ==> !matches_pattern_spec(
                        path@,
                        #[trigger] crate::names::names_of(self.exclusions@)[k],
                    ),
            decreases self.exclusions.len() - j,
        {
            if matches_pattern(path, self.exclusions[j].as_str()) {
                assert(matches_pattern_spec(
                    path@,
                    crate::names::names_of(self.exclusions@)[j as int],
                ));
                return true;
            }
            j += 1;
        }
        false
    }
}

} // verus!
