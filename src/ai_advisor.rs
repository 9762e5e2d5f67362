use vstd::prelude::*;

use crate::text::{
    chars_of, contains, find_char, find_first, first_from, has_str, index_of, same_str, slice_of,
    string_of, trim, trimmed,
};

verus! {

/// An assessment of whether a package can be removed.
#[derive(Debug)]
pub struct PackageAnalysis {
    pub package_name: String,
    pub summary: String,
    pub purpose: String,
    pub dependencies: Vec<String>,
    pub safe_to_remove: bool,
    pub risk_category: String,
    pub consequences: Vec<String>,
    pub user_reports: Vec<String>,
    pub technical_details: String,
    pub best_case: String,
    pub worst_case: String,
}

/// One of the four safety levels, by name.
pub open spec fn known_risk(c: Seq<char>) -> bool {
    c == "Safe"@ || c == "Caution"@ || c == "Expert"@ || c == "Dangerous"@
}

/// The analysis with its risk category kept when it names a safety level,
/// else set to `Caution`.
pub fn normalize_risk_category(analysis: PackageAnalysis) -> (r: PackageAnalysis)
    ensures
        known_risk(analysis.risk_category@) ==> r == analysis,
        !known_risk(analysis.risk_category@) ==> r == (PackageAnalysis {
            risk_category: r.risk_category,
            ..analysis
        }) && r.risk_category@ == "Caution"@,
{
    let c = chars_of(analysis.risk_category.as_str());
    if same_str(&c, "Safe") || same_str(&c, "Caution") || same_str(&c, "Expert") || same_str(
        &c,
        "Dangerous",
    ) {
        analysis
    } else {
        let mut fixed = analysis;
        fixed.risk_category = "Caution".to_owned();
        fixed
    }
}

/// `s` up to the first `p`, or all of `s` when `p` does not occur.
pub open spec fn before_first(s: Seq<char>, p: Seq<char>) -> Seq<char> {
    match first_from(s, p, 0) {
        Some(k) => s.subrange(0, k),
        None => s,
    }
}

/// The second piece of `s` split at `p`, as `s.split(p).nth(1)` gives it.
pub open spec fn second_piece(s: Seq<char>, p: Seq<char>) -> Option<Seq<char>> {
    match first_from(s, p, 0) {
        Some(k) => Some(before_first(s.subrange(k + p.len(), s.len() as int), p)),
        None => None,
    }
}

/// The index of the last `c` in `s`, if there is one.
pub open spec fn last_index_of(s: Seq<char>, c: char) -> Option<int>
    decreases s.len(),
{
    if s.len() == 0 {
        None
    } else if s.last() == c {
        Some(s.len() - 1)
    } else {
        last_index_of(s.drop_last(), c)
    }
}

/// The JSON an answer holds: the inside of its first ```` ```json ```` block,
/// else of its first ```` ``` ```` block, else the span from its first `{`
/// to its last `}`, else the whole answer; trimmed except for the span.
pub open spec fn json_block(content: Seq<char>) -> Seq<char> {
    if contains(content, "```json"@) {
        trim(
            match second_piece(content, "```json"@) {
                Some(x) => before_first(x, "```"@),
                None => content,
            },
        )
    } else if contains(content, "```"@) {
        trim(
            match second_piece(content, "```"@) {
                Some(x) => before_first(x, "```"@),
                None => content,
            },
        )
    } else {
        match (index_of(content, '{'), last_index_of(content, '}')) {
            (Some(a), Some(b)) => if a < b {
                content.subrange(a, b + 1)
            } else {
                trim(content)
            },
            _ => trim(content),
        }
    }
}

fn up_to_first(s: &Vec<char>, p: &Vec<char>) -> (r: Vec<char>)
    ensures
        r@ == before_first(s@, p@),
{
    match find_first(s, p) {
        Some(k) => slice_of(s, 0, k),
        None => slice_of(s, 0, s.len()),
    }
}

fn second(s: &Vec<char>, p: &Vec<char>) -> (r: Option<Vec<char>>)
    ensures
        match r {
            Some(x) => second_piece(s@, p@) == Some(x@),
            None => second_piece(s@, p@) is None,
        },
{
    match find_first(s, p) {
        Some(k) => {
            let slen = s.len();
            let plen = p.len();
            assert(k + plen <= slen);
            let rest = slice_of(s, k + plen, slen);
            Some(up_to_first(&rest, p))
        },
        None => None,
    }
}

fn find_last_char(v: &Vec<char>, c: char) -> (r: Option<usize>)
    ensures
        match r {
            Some(i) => last_index_of(v@, c) == Some(i as int),
            None => last_index_of(v@, c) is None,
        },
{
    let mut j: usize = v.len();
    assert(v@.subrange(0, j as int) =~= v@);
    while j > 0
        invariant
            j <= v.len(),
            last_index_of(v@, c) == last_index_of(v@.subrange(0, j as int), c),
        decreases j,
    {
        let ghost pre = v@.subrange(0, j as int);
        if v[j - 1] == c {
            assert(pre.last() == c);
            return Some(j - 1);
        }
        assert(pre.drop_last() =~= v@.subrange(0, j - 1));
        j -= 1;
    }
    None
}

/// The JSON that an answer of the assistant holds.
pub fn extract_json(content: &str) -> (r: String)
    ensures
        r@ == json_block(content@),
{
    let c = chars_of(content);
    if has_str(&c, "```json") {
        let fence = chars_of("```json");
        let close = chars_of("```");
        let inner = match second(&c, &fence) {
            Some(x) => up_to_first(&x, &close),
            None => slice_of(&c, 0, c.len()),
        };
        assert(c@.subrange(0, c@.len() as int) =~= c@);
        string_of(&trimmed(&inner))
    } else if has_str(&c, "```") {
        let fence = chars_of("```");
        let inner = match second(&c, &fence) {
            Some(x) => up_to_first(&x, &fence),
            None => slice_of(&c, 0, c.len()),
        };
        assert(c@.subrange(0, c@.len() as int) =~= c@);
        string_of(&trimmed(&inner))
    } else {
        match (find_char(&c, '{'), find_last_char(&c, '}')) {
            (Some(a), Some(b)) => {
                if a < b {
                    proof {
                        crate::text::lemma_index_of_bounds(c@, '{');
                    }
                    assert(b < c@.len()) by {
                        lemma_last_index_bounds(c@, '}');
                    }
                    string_of(&slice_of(&c, a, b + 1))
                } else {
                    string_of(&trimmed(&c))
                }
            },
            _ => string_of(&trimmed(&c)),
        }
    }
}

proof fn lemma_last_index_bounds(s: Seq<char>, c: char)
    ensures
        match last_index_of(s, c) {
            Some(i) => 0 <= i < s.len(),
            None => true,
        },
    decreases s.len(),
{
    if s.len() > 0 && s.last() != c {
        lemma_last_index_bounds(s.drop_last(), c);
    }
}

} // verus!
