//! Pulls the "Explanation" section out of the model's analysis, to quote it as
//! the agent's reasoning.
use vstd::prelude::*;
use crate::text::{
    chars_of, find_exec, find_from, lemma_find_from_first, lemma_find_from_match, matches_at, sub_chars,
    trim, trim_bounds,
};

verus! {

/// Length of the section marker `**Explanation:**`; the section text starts
/// right after it.
pub const MARKER_LEN: usize = 16;

pub open spec fn explanation_marker() -> Seq<char> {
    "**Explanation:**"@
}

pub open spec fn reasoning_prefix() -> Seq<char> {
    "The agent identified vulnerabilities through the following reasoning:\n\n"@
}

pub open spec fn reasoning_fallback() -> Seq<char> {
    "The agent analyzed the contract against known exploit patterns from DeFiHackLabs and DeFiVulnLabs. The similarity scores and vulnerability patterns informed the security assessment."@
}

/// The end of the explanation within the section: the earliest of `end` and of
/// each end marker's position in `rest` (the text after the section marker),
/// shifted by the marker's length.
pub open spec fn shorten_at(rest: Seq<char>, marker: Seq<char>, end: int) -> int {
    match find_from(rest, marker, 0) {
        Some(i) => if i + MARKER_LEN < end {
            i + MARKER_LEN
        } else {
            end
        },
        None => end,
    }
}

pub open spec fn explanation_end(rest: Seq<char>, end: int) -> int {
    shorten_at(
        rest,
        "---"@,
        shorten_at(rest, "\n**"@, shorten_at(rest, "**Recommendation:**"@, end)),
    )
}

/// The reasoning quoted from an analysis: the prefix followed by the trimmed
/// text of the first Explanation section (from just after its marker up to the
/// first `**Recommendation:**`, newline-`**` or `---`), or the fallback
/// sentence when there is no such section or its text is blank.
pub open spec fn reasoning_text(analysis: Seq<char>) -> Seq<char> {
    match find_from(analysis, explanation_marker(), 0) {
        Some(k) => {
            let after = analysis.subrange(k, analysis.len() as int);
            let rest = after.subrange(MARKER_LEN as int, after.len() as int);
            let end = explanation_end(rest, after.len() as int);
            let t = trim(after.subrange(MARKER_LEN as int, end));
            if t.len() > 0 {
                reasoning_prefix() + t
            } else {
                reasoning_fallback()
            }
        },
        None => reasoning_fallback(),
    }
}

/// Cutting at one end marker: the new end lies between the marker length and
/// the old end, the marker starts nowhere in `rest` before the new end (less
/// the marker length), and either the end is unchanged or the marker starts
/// right there.
proof fn lemma_shorten_at(rest: Seq<char>, marker: Seq<char>, end: int)
    requires
        MARKER_LEN <= end <= rest.len() + MARKER_LEN,
    ensures
        ({
            let y = shorten_at(rest, marker, end);
            &&& MARKER_LEN <= y <= end
            &&& forall|j: int| 0 <= j < y - MARKER_LEN ==> !matches_at(rest, marker, j)
            &&& y == end || matches_at(rest, marker, y - MARKER_LEN)
        }),
{
    lemma_find_from_first(rest, marker, 0);
}

/// Without a `**Explanation:**` marker in the analysis the fallback sentence
/// is quoted. With one, at its first occurrence `k`, let `rest` be the text
/// after the marker and `e` the earliest position of `rest` where
/// `**Recommendation:**`, newline-`**` or `---` begins (the end of `rest`
/// when none does): the quoted text is the prefix followed by the trimmed
/// section `rest[..e]`, which holds none of these end markers, or the
/// fallback sentence when that section is blank.
pub proof fn lemma_reasoning_ends_at_earliest_marker(analysis: Seq<char>)
    ensures
        find_from(analysis, "**Explanation:**"@, 0) is None ==> reasoning_text(analysis)
            == "The agent analyzed the contract against known exploit patterns from DeFiHackLabs and DeFiVulnLabs. The similarity scores and vulnerability patterns informed the security assessment."@,
        find_from(analysis, "**Explanation:**"@, 0) matches Some(k) ==> {
            let rest = analysis.subrange(k + 16, analysis.len() as int);
            exists|e: int|
                #![trigger rest.take(e)]
                {
                    &&& 0 <= e <= rest.len()
                    &&& forall|j: int|
                        0 <= j < e ==> !matches_at(rest, "**Recommendation:**"@, j) && !matches_at(
                            rest,
                            "\n**"@,
                            j,
                        ) && !matches_at(rest, "---"@, j)
                    &&& e == rest.len() || matches_at(rest, "**Recommendation:**"@, e)
                        || matches_at(rest, "\n**"@, e) || matches_at(rest, "---"@, e)
                    &&& forall|j: int|
                        !matches_at(rest.take(e), "**Recommendation:**"@, j) && !matches_at(
                            rest.take(e),
                            "\n**"@,
                            j,
                        ) && !matches_at(rest.take(e), "---"@, j)
                    &&& trim(rest.take(e)).len() > 0 ==> reasoning_text(analysis)
                        == "The agent identified vulnerabilities through the following reasoning:\n\n"@
                        + trim(rest.take(e))
                    &&& trim(rest.take(e)).len() == 0 ==> reasoning_text(analysis)
                        == "The agent analyzed the contract against known exploit patterns from DeFiHackLabs and DeFiVulnLabs. The similarity scores and vulnerability patterns informed the security assessment."@
                }
        },
{
    let marker = explanation_marker();
    match find_from(analysis, marker, 0) {
        Some(k) => {
            lemma_find_from_match(analysis, marker, 0);
            reveal_strlit("**Explanation:**");
            assert(marker.len() == 16);
            let after = analysis.subrange(k, analysis.len() as int);
            let rest = after.subrange(MARKER_LEN as int, after.len() as int);
            assert(rest =~= analysis.subrange(k + 16, analysis.len() as int));
            let r = "**Recommendation:**"@;
            let nl = "\n**"@;
            let d = "---"@;
            reveal_strlit("**Recommendation:**");
            reveal_strlit("\n**");
            reveal_strlit("---");
            let y1 = shorten_at(rest, r, after.len() as int);
            lemma_shorten_at(rest, r, after.len() as int);
            let y2 = shorten_at(rest, nl, y1);
            lemma_shorten_at(rest, nl, y1);
            let y3 = shorten_at(rest, d, y2);
            lemma_shorten_at(rest, d, y2);
            assert(y3 == explanation_end(rest, after.len() as int));
            let e = y3 - 16;
            let section = rest.take(e);
            assert(after.subrange(MARKER_LEN as int, y3) =~= section);
            assert forall|j: int|
                !matches_at(section, r, j) && !matches_at(section, nl, j) && !matches_at(
                    section,
                    d,
                    j,
                ) by {
                if matches_at(section, r, j) {
                    assert(section.subrange(j, j + r.len()) =~= rest.subrange(j, j + r.len()));
                    assert(matches_at(rest, r, j));
                }
                if matches_at(section, nl, j) {
                    assert(section.subrange(j, j + nl.len()) =~= rest.subrange(j, j + nl.len()));
                    assert(matches_at(rest, nl, j));
                }
                if matches_at(section, d, j) {
                    assert(section.subrange(j, j + d.len()) =~= rest.subrange(j, j + d.len()));
                    assert(matches_at(rest, d, j));
                }
            }
            assert(reasoning_fallback() == "The agent analyzed the contract against known exploit patterns from DeFiHackLabs and DeFiVulnLabs. The similarity scores and vulnerability patterns informed the security assessment."@);
            assert(0 <= e <= rest.len());
        },
        None => {},
    }
}

/// The earliest end of the explanation given one end marker.
fn shorten_at_exec(rest: &Vec<char>, marker: &str, end: usize) -> (r: usize)
    ensures
        r == shorten_at(rest@, marker@, end as int),
        r <= end,
        end >= MARKER_LEN ==> r >= MARKER_LEN,
{
    let m = chars_of(marker);
    match find_exec(rest, &m, 0) {
        Some(i) => {
            if i < end && end - i > MARKER_LEN {
                i + MARKER_LEN
            } else {
                end
            }
        },
        None => end,
    }
}

/// Quotes the explanation section of `analysis` as the agent's reasoning.
pub fn extract_reasoning(analysis: &str) -> (r: String)
    ensures
        r@ == reasoning_text(analysis@),
{
    let text = chars_of(analysis);
    let marker = chars_of("**Explanation:**");
    let k = match find_exec(&text, &marker, 0) {
        Some(k) => k,
        None => return String::from_str(
            "The agent analyzed the contract against known exploit patterns from DeFiHackLabs and DeFiVulnLabs. The similarity scores and vulnerability patterns informed the security assessment.",
        ),
    };
    proof {
        reveal_strlit("**Explanation:**");
        lemma_find_from_match(text@, marker@, 0);
        assert(marker@.len() == 16);
        assert(k + 16 <= text.len());
    }
    let ghost after = analysis@.subrange(k as int, analysis@.len() as int);
    let start = k + MARKER_LEN;
    let rest = sub_chars(&text, start, text.len());
    assert(rest@ =~= after.subrange(MARKER_LEN as int, after.len() as int));
    let full = text.len() - k;
    let e1 = shorten_at_exec(&rest, "**Recommendation:**", full);
    let e2 = shorten_at_exec(&rest, "\n**", e1);
    let end = shorten_at_exec(&rest, "---", e2);
    assert(end == explanation_end(rest@, after.len() as int));
    assert(MARKER_LEN <= end);
    let (a, b) = trim_bounds(&text, start, k + end);
    assert(text@.subrange(start as int, (k + end) as int) =~= after.subrange(
        MARKER_LEN as int,
        end as int,
    ));
    if a < b {
        let mut out = String::from_str(
            "The agent identified vulnerabilities through the following reasoning:\n\n",
        );
        out.append(analysis.substring_char(a, b));
        out
    } else {
        String::from_str(
            "The agent analyzed the contract against known exploit patterns from DeFiHackLabs and DeFiVulnLabs. The similarity scores and vulnerability patterns informed the security assessment.",
        )
    }
}

} // verus!
