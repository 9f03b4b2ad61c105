//! Line parsing: ANSI escape stripping, the metric-line grammar of running
//! programs, and the compiler-output parser's index bookkeeping.

use vstd::prelude::*;

use crate::executor::{spec_visualization_keyword, MetricVisualization, RuntimeMetric};
use crate::text::matches_at;

verus! {

/// A parameter character of an ANSI color escape: a digit or a semicolon.
pub open spec fn is_param_char(c: char) -> bool {
    c == ';' || ('0' <= c && c <= '9')
}

/// The first position at or after `j` holding a non-parameter character
/// (`s.len()` when none does).
pub open spec fn param_end(s: Seq<char>, j: int) -> int
    decreases s.len() - j
        when 0 <= j <= s.len()
{
    if j >= s.len() {
        s.len() as int
    } else if is_param_char(s[j]) {
        param_end(s, j + 1)
    } else {
        j
    }
}

proof fn lemma_param_end_bounds(s: Seq<char>, j: int)
    requires
        0 <= j <= s.len(),
    ensures
        j <= param_end(s, j) <= s.len(),
    decreases s.len() - j,
{
    if j < s.len() && is_param_char(s[j]) {
        lemma_param_end_bounds(s, j + 1);
    }
}

proof fn lemma_param_end_exact(s: Seq<char>, j0: int, j: int)
    requires
        0 <= j0 <= j <= s.len(),
        forall|k: int| j0 <= k < j ==> is_param_char(s[k]),
        j == s.len() || !is_param_char(s[j]),
    ensures
        param_end(s, j0) == j,
    decreases j - j0,
{
    if j0 < j {
        lemma_param_end_exact(s, j0 + 1, j);
    }
}

/// Where the color escape starting at `i` ends (one past its final `m`),
/// when one starts there.
pub open spec fn ansi_match_end(s: Seq<char>, i: int) -> Option<int> {
    if 0 <= i && i + 1 < s.len() && s[i] == '\u{1b}' && s[i + 1] == '[' {
        let e = param_end(s, i + 2);
        if e < s.len() && s[e] == 'm' {
            Some(e + 1)
        } else {
            None
        }
    } else {
        None
    }
}

/// `s` from position `i` on, with every ANSI color escape removed. Scanning
/// is leftmost: at each position either a whole escape is skipped or the
/// character is kept.
pub open spec fn strip_from(s: Seq<char>, i: int) -> Seq<char>
    decreases s.len() - i
        when 0 <= i <= s.len()
        via strip_from_decreases
{
    if i >= s.len() {
        Seq::empty()
    } else {
        match ansi_match_end(s, i) {
            Some(e) => strip_from(s, e),
            None => seq![s[i]] + strip_from(s, i + 1),
        }
    }
}

#[via_fn]
proof fn strip_from_decreases(s: Seq<char>, i: int) {
    if 0 <= i < s.len() {
        match ansi_match_end(s, i) {
            Some(e) => {
                lemma_param_end_bounds(s, i + 2);
            },
            None => {},
        }
    }
}

/// `s` with every ANSI color escape removed.
pub open spec fn strip_ansi_spec(s: Seq<char>) -> Seq<char> {
    strip_from(s, 0)
}

/// Removes ANSI color escapes (`ESC [ <digits/semicolons> m`) from a line.
pub fn strip_ansi(s: &str) -> (r: String)
    ensures
        r@ == strip_ansi_spec(s@),
{
    let len = s.unicode_len();
    let mut out = String::new();
    let mut i: usize = 0;
    while i < len
        invariant
            0 <= i <= len,
            len == s@.len(),
            strip_ansi_spec(s@) == out@ + strip_from(s@, i as int),
        decreases len - i,
    {
        let ghost i0 = i as int;
        let mut matched = false;
        if i + 1 < len && s.get_char(i) == '\u{1b}' && s.get_char(i + 1) == '[' {
            let mut j: usize = i + 2;
            while j < len && is_param_char_exec(s.get_char(j))
                invariant
                    i + 2 <= j <= len,
                    len == s@.len(),
                    forall|k: int| i + 2 <= k < j ==> is_param_char(s@[k]),
                decreases len - j,
            {
                j = j + 1;
            }
            proof {
                lemma_param_end_exact(s@, i0 + 2, j as int);
            }
            if j < len && s.get_char(j) == 'm' {
                proof {
                    assert(ansi_match_end(s@, i0) == Some(j + 1));
                }
                matched = true;
                i = j + 1;
                proof {
                    assert(strip_from(s@, i0) == strip_from(s@, i as int));
                }
            } else {
                proof {
                    assert(ansi_match_end(s@, i0) is None);
                }
            }
        } else {
            proof {
                if i + 1 < len {
                    assert(ansi_match_end(s@, i0) is None);
                } else {
                    assert(ansi_match_end(s@, i0) is None);
                }
            }
        }
        if !matched {
            out.push(s.get_char(i));
            proof {
                assert(strip_from(s@, i0) == seq![s@[i0]] + strip_from(s@, i0 + 1));
                assert(out@ + strip_from(s@, i0 + 1) =~= strip_ansi_spec(s@));
            }
            i = i + 1;
        }
    }
    proof {
        assert(strip_from(s@, len as int) =~= Seq::<char>::empty());
        assert(out@ =~= strip_ansi_spec(s@));
    }
    out
}

/// A parameter character of an ANSI color escape.
fn is_param_char_exec(c: char) -> (r: bool)
    ensures
        r == is_param_char(c),
{
    c == ';' || ('0' <= c && c <= '9')
}

/// Assigns rising indices to parsed compiler-output lines. The diagnostic
/// classification itself lives with the surrounding tool; the index
/// bookkeeping is what callers rely on.
#[derive(Clone)]
pub struct CompilerOutputParser {
    log_index: usize,
}

impl CompilerOutputParser {
    /// The index the next line will get.
    pub closed spec fn spec_log_index(self) -> nat {
        self.log_index as nat
    }

    /// A parser whose next line gets index zero.
    pub fn new() -> (r: Self)
        ensures
            r.spec_log_index() == 0,
    {
        CompilerOutputParser { log_index: 0 }
    }

    /// Hands out the next line index and advances the counter, saturating at
    /// the machine limit.
    pub fn next_index(&mut self) -> (r: usize)
        ensures
            r == old(self).spec_log_index(),
            final(self).spec_log_index() == if old(self).spec_log_index() < usize::MAX {
                old(self).spec_log_index() + 1
            } else {
                old(self).spec_log_index()
            },
    {
        let r = self.log_index;
        if self.log_index < usize::MAX {
            self.log_index = self.log_index + 1;
        }
        r
    }

    /// Restarts the numbering at zero.
    pub fn reset(&mut self)
        ensures
            final(self).spec_log_index() == 0,
    {
        self.log_index = 0;
    }
}

/// The first position at or after `from` holding `c` (`s.len()` when none
/// does).
pub open spec fn find_char(s: Seq<char>, c: char, from: int) -> int
    decreases s.len() - from
        when 0 <= from <= s.len()
{
    if from >= s.len() {
        s.len() as int
    } else if s[from] == c {
        from
    } else {
        find_char(s, c, from + 1)
    }
}

proof fn lemma_find_char_exact(s: Seq<char>, c: char, from: int, j: int)
    requires
        0 <= from <= j <= s.len(),
        forall|k: int| from <= k < j ==> s[k] != c,
        j == s.len() || s[j] == c,
    ensures
        find_char(s, c, from) == j,
    decreases j - from,
{
    if from < j {
        lemma_find_char_exact(s, c, from + 1, j);
    }
}

/// The first position at or after `from` holding `c`, or the length.
fn find_char_exec(s: &str, c: char, from: usize) -> (r: usize)
    requires
        from <= s@.len(),
        s@.len() <= usize::MAX,
    ensures
        r == find_char(s@, c, from as int),
        from <= r <= s@.len(),
        r < s@.len() ==> s@[r as int] == c,
        forall|k: int| from <= k < r ==> s@[k] != c,
{
    let len = s.unicode_len();
    let mut j: usize = from;
    while j < len && s.get_char(j) != c
        invariant
            from <= j <= len,
            len == s@.len(),
            forall|k: int| from <= k < j ==> s@[k] != c,
        decreases len - j,
    {
        j = j + 1;
    }
    proof {
        lemma_find_char_exact(s@, c, from as int, j as int);
    }
    j
}

/// What a metric line holds: category, key, value, and the explicit
/// visualization keyword when one follows the value.
pub open spec fn spec_parse_metric(line: Seq<char>) -> Option<
    (Seq<char>, Seq<char>, Seq<char>, Option<MetricVisualization>),
> {
    let prefix = "[IGNIS_METRIC] "@;
    if line.len() < prefix.len() || !matches_at(line, prefix, 0) {
        None
    } else {
        let rest = line.subrange(prefix.len() as int, line.len() as int);
        let c1 = find_char(rest, ':', 0);
        if c1 == rest.len() {
            None
        } else {
            let c2 = find_char(rest, ':', c1 + 1);
            let eq1 = find_char(rest, '=', c1 + 1);
            if eq1 >= c2 || find_char(rest, '=', eq1 + 1) < c2 {
                None
            } else {
                let category = rest.subrange(0, c1);
                let key = rest.subrange(c1 + 1, eq1);
                let value = rest.subrange(eq1 + 1, c2);
                let viz = if c2 == rest.len() {
                    None
                } else {
                    let c3 = find_char(rest, ':', c2 + 1);
                    spec_visualization_keyword(rest.subrange(c2 + 1, c3))
                };
                Some((category, key, value, viz))
            }
        }
    }
}

/// Recognizes metric lines in a running program's stdout.
pub struct MetricParser;

impl MetricParser {
    /// Parses `[IGNIS_METRIC] <category>:<key>=<value>[:<visualization>]`.
    /// The timestamp is the caller's clock reading for the line.
    pub fn parse_metric_line(line: &str, timestamp: u64) -> (r: Option<RuntimeMetric>)
        ensures
            match r {
                Some(m) => spec_parse_metric(line@) == Some(
                    (m.category@, m.key@, m.value@, m.explicit_visualization),
                ) && m.timestamp == timestamp,
                None => spec_parse_metric(line@) is None,
            },
    {
        proof {
            reveal_strlit("[IGNIS_METRIC] ");
        }
        let len = line.unicode_len();
        if len < 15 {
            return None;
        }
        if !crate::text::str_starts_with(line, "[IGNIS_METRIC] ") {
            return None;
        }
        let rest = line.substring_char(15, len);
        let rest_len = rest.unicode_len();
        let c1 = find_char_exec(rest, ':', 0);
        if c1 == rest_len {
            return None;
        }
        let c2 = find_char_exec(rest, ':', c1 + 1);
        let eq1 = find_char_exec(rest, '=', c1 + 1);
        if eq1 >= c2 {
            return None;
        }
        if find_char_exec(rest, '=', eq1 + 1) < c2 {
            return None;
        }
        let category = rest.substring_char(0, c1).to_owned();
        let key = rest.substring_char(c1 + 1, eq1).to_owned();
        let value = rest.substring_char(eq1 + 1, c2).to_owned();
        let explicit_visualization = if c2 == rest_len {
            None
        } else {
            let c3 = find_char_exec(rest, ':', c2 + 1);
            MetricVisualization::from_str(rest.substring_char(c2 + 1, c3))
        };
        Some(RuntimeMetric { key, value, timestamp, category, explicit_visualization })
    }
}

} // verus!
