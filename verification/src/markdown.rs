//! The texts sent to and produced from the language model: the analysis
//! prompt and the markdown report.
use vstd::prelude::*;
use vstd::string::StringSliceAdditionalSpecFns;
use vstd::utf8::{decode_utf8, encode_utf8, is_char_boundary};
use crate::text::{decimal, push_decimal, trim, trim_bounds, chars_of};

verus! {

/// Number of similar exploit cases retrieved for an analysis.
pub const TOP_K: usize = 5;

/// Opening of the analysis prompt, before the reference cases.
pub const PROMPT_HEAD: &'static str = "You are a smart contract security expert specializing in DeFi vulnerabilities.\n\nAnalyze the following Solidity contract for potential vulnerabilities.\nUse the reference cases below as context — retrieved from DeFiHackLabs (real protocol attacks) and DeFiVulnLabs (educational vulnerability patterns).\n\n## Similar Reference Cases (DeFiHackLabs real exploits + DeFiVulnLabs educational patterns):\n";

/// Between the reference cases and the contract under analysis.
pub const PROMPT_MIDDLE: &'static str = "\n\n## Contract to Analyze:\n";

/// Closing instructions of the analysis prompt, after the contract.
pub const PROMPT_TAIL: &'static str = "\n\n## Critical instructions before answering:\n1. The exploit cases show HOW past vulnerabilities worked. Your job is to determine if THIS contract has the same UNMITIGATED flaw — not just a similar structure.\n2. Actively check for these mitigations. If any are correctly implemented, they PREVENT exploitation:\n   - ReentrancyGuard modifier or Checks-Effects-Interactions (state update before external call)\n   - TWAP / time-weighted average price oracle (resistant to single-block manipulation)\n   - onlyOwner / role-based access control on sensitive functions\n   - Solidity 0.8+ built-in overflow protection or SafeMath\n3. Structural similarity to an exploit is NOT sufficient. The contract must have the same exploitable flaw WITH NO mitigation present.\n4. Include a CONFIDENCE score (0-100) reflecting how certain you are a real exploitable vulnerability exists with no mitigation.\n5. For EXPLOIT_TX in your report: only cite the exact Attack Tx URLs present in the reference cases above. If a reference shows \"N/A\" or no real tx, write N/A. Do NOT fabricate or invent transaction hashes.\n\n## Provide a structured security report with the following sections:\n\n**Vulnerability Found:** Yes / No\n**Risk Level:** Critical / High / Medium / Low / None\n**Vulnerability Type:** (e.g. Reentrancy, Flash Loan, Price Manipulation, Access Control, etc.)\n**Confidence:** (0-100 — certainty that a real exploitable vulnerability exists with no mitigation present)\n**Similar Exploit Reference:** (which exploit case above is most relevant and why)\n**Explanation:** (describe the exact vulnerability and how an attacker could exploit it step-by-step)\n**Recommendation:**\nIMPORTANT: Provide AT LEAST 3-4 detailed cases (A, B, C, D, ...). Each case must be a complete, standalone solution.\nSeparate each distinct issue or improvement into its own labeled case (A, B, C, D, ...). For each case:\n- State the problem in one sentence.\n- Show ONLY the one affected function rewritten in full — do NOT include contract declaration, constructor, imports, structs, or any other functions.\n- Every line of the function must be written out completely — the words \"existing code\", \"existing logic\", \"...\" and any placeholder comments are FORBIDDEN.\n- Add an inline comment on every line you changed explaining what was fixed and why.\n- If a vulnerability was found: each case must directly correspond to one finding named in the Explanation section (Case A: fix reentrancy, Case B: fix oracle manipulation, Case C: add access control, Case D: add input validation).\n- If no vulnerability was found: each case must apply a concrete proactive improvement (e.g. Case A: add ReentrancyGuard, Case B: implement TWAP oracle, Case C: add onlyOwner modifier, Case D: add SafeMath).\n- You MUST write ALL cases completely. Do NOT summarize, skip, or abbreviate any case. Do NOT end with a generic note like \"apply similar changes elsewhere\" — write each case in full.\nEXAMPLE: If you find a reentrancy bug, provide: Case A (Checks-Effects-Interactions), Case B (ReentrancyGuard modifier), Case C (Oracle TWAP improvement), Case D (Access control for sensitive functions).\n";

/// The analysis prompt for `contract` with the retrieved `context`.
pub open spec fn analysis_prompt_text(context: Seq<char>, contract: Seq<char>) -> Seq<char> {
    PROMPT_HEAD@ + context + PROMPT_MIDDLE@ + contract + PROMPT_TAIL@
}

/// Builds the analysis prompt for `contract` with the retrieved `context`.
pub fn analysis_prompt(context: &str, contract: &str) -> (r: String)
    ensures
        r@ == analysis_prompt_text(context@, contract@),
{
    let mut out = String::from_str(PROMPT_HEAD);
    out.append(context);
    out.append(PROMPT_MIDDLE);
    out.append(contract);
    out.append(PROMPT_TAIL);
    out
}

/// One retrieved case as listed in the report: its score rendered to four
/// decimals, its name and the storage root hash of its record.
pub struct MatchSummary {
    pub score_text: String,
    pub exploit_name: String,
    pub root_hash: String,
}

/// A root hash is shortened when its UTF-8 encoding is longer than 16 bytes;
/// the cut points (bytes 2, 10 and 6 before the end) must then fall on
/// character boundaries.
pub open spec fn root_display_defined(root: Seq<char>) -> bool {
    let b = encode_utf8(root);
    b.len() > 16 ==> is_char_boundary(b, 2) && is_char_boundary(b, 10) && is_char_boundary(
        b,
        b.len() - 6,
    )
}

/// `0x` + bytes 2..10 + `...` + the last 6 bytes of a long root hash; a short
/// one as it is.
pub open spec fn root_display(root: Seq<char>) -> Seq<char> {
    let b = encode_utf8(root);
    if b.len() > 16 {
        "0x"@ + decode_utf8(b.subrange(2, 10)) + "..."@ + decode_utf8(
            b.subrange(b.len() - 6, b.len() as int),
        )
    } else {
        root
    }
}

/// `n. **name** (similarity: score) — root`.
pub open spec fn match_line(n: nat, m: MatchSummary) -> Seq<char> {
    decimal(n) + ". **"@ + m.exploit_name@ + "** (similarity: "@ + m.score_text@ + ") — "@
        + root_display(m.root_hash@)
}

/// The match lines, numbered from one and joined by newlines.
pub open spec fn matches_table(ms: Seq<MatchSummary>) -> Seq<char>
    decreases ms.len(),
{
    if ms.len() == 0 {
        Seq::empty()
    } else if ms.len() == 1 {
        match_line(1, ms[0])
    } else {
        matches_table(ms.drop_last()) + "\n"@ + match_line(ms.len(), ms.last())
    }
}

/// The table of no matches is empty; otherwise it is the first match line
/// followed, for each further match `k + 1`, by one newline and that match's
/// line: the lines numbered from one, joined by single newlines.
pub proof fn lemma_matches_table_joins_lines(ms: Seq<MatchSummary>)
    ensures
        ms.len() == 0 ==> matches_table(ms) == Seq::<char>::empty(),
        ms.len() > 0 ==> matches_table(ms) == match_line(1, ms[0]) + Seq::new(
            (ms.len() - 1) as nat,
            |k: int| "\n"@ + match_line((k + 2) as nat, ms[k + 1]),
        ).flatten(),
    decreases ms.len(),
{
    if ms.len() == 1 {
        let rest = Seq::new(0, |k: int| "\n"@ + match_line((k + 2) as nat, ms[k + 1]));
        assert(rest.flatten() == Seq::<char>::empty());
        assert(match_line(1, ms[0]) + rest.flatten() =~= match_line(1, ms[0]));
    } else if ms.len() > 1 {
        let d = ms.drop_last();
        lemma_matches_table_joins_lines(d);
        let n = ms.len();
        let rd = Seq::new(
            (d.len() - 1) as nat,
            |k: int| "\n"@ + match_line((k + 2) as nat, d[k + 1]),
        );
        let rm = Seq::new((n - 1) as nat, |k: int| "\n"@ + match_line((k + 2) as nat, ms[k + 1]));
        let tail = "\n"@ + match_line(n as nat, ms.last());
        assert(rm =~= rd.push(tail));
        rd.lemma_flatten_push(tail);
        assert(d[0] == ms[0]);
        assert(matches_table(ms) == matches_table(d) + "\n"@ + match_line(n as nat, ms.last()));
        assert(matches_table(ms) =~= match_line(1, ms[0]) + rm.flatten());
    }
}

/// `RAXC_<contract name>_<timestamp>.md`.
pub open spec fn report_filename(contract_name: Seq<char>, stamp: Seq<char>) -> Seq<char> {
    "RAXC_"@ + contract_name + "_"@ + stamp + ".md"@
}

pub const REPORT_TITLE: &'static str = "# Smart Contract Security Report\n\n**Generated:** ";

pub const REPORT_MODEL: &'static str = "  \n**Model:** ";

pub const REPORT_TIME: &'static str = "  \n**Analysis Time:** ";

pub const REPORT_CONTRACT: &'static str = " ms\n\n---\n\n## Contract Analyzed\n\n```solidity\n";

pub const REPORT_TOP: &'static str = "\n```\n\n---\n\n## Top-";

pub const REPORT_MATCHES: &'static str = " Similar Exploits (from local cache)\n\n";

pub const REPORT_ANALYSIS: &'static str = "\n\n---\n\n## 🧠 Agent Analysis\n\n";

pub const REPORT_TOTAL: &'static str = "\n\n---\n\n## Metadata\n\n- **Total in Cache:** ";

pub const REPORT_SIMILARITY: &'static str = " exploits\n- **Similarity Computation:** ";

pub const REPORT_COMPUTE: &'static str =
    "ms\n- **Storage:** 0G Storage (cached locally)\n- **Compute:** 0G Compute — ";

pub const REPORT_FOOTER: &'static str =
    "\n- **Embedding:** OpenAI text-embedding-3-small (1536 dims)\n\n---\n\n*Report generated by RAXC — Cached RAG-powered smart contract auditing*\n";

/// The report up to the analysed code.
pub open spec fn report_head(generated: Seq<char>, model: Seq<char>, time_ms: nat) -> Seq<char> {
    REPORT_TITLE@ + generated + REPORT_MODEL@ + model + REPORT_TIME@ + decimal(time_ms)
        + REPORT_CONTRACT@
}

/// The report after the analysed code, up to the metadata.
pub open spec fn report_body(table: Seq<char>, analysis: Seq<char>) -> Seq<char> {
    REPORT_TOP@ + decimal(TOP_K as nat) + REPORT_MATCHES@ + table + REPORT_ANALYSIS@ + analysis
}

/// The metadata section.
pub open spec fn report_tail(total: nat, time_ms: nat, model: Seq<char>) -> Seq<char> {
    REPORT_TOTAL@ + decimal(total) + REPORT_SIMILARITY@ + decimal(time_ms) + REPORT_COMPUTE@ + model
        + REPORT_FOOTER@
}

/// The whole markdown report.
pub open spec fn report_content(
    generated: Seq<char>,
    model: Seq<char>,
    time_ms: nat,
    code: Seq<char>,
    table: Seq<char>,
    analysis: Seq<char>,
    total: nat,
) -> Seq<char> {
    report_head(generated, model, time_ms) + code + report_body(table, analysis) + report_tail(
        total,
        time_ms,
        model,
    )
}

proof fn lemma_prefix_boundary(b: Seq<u8>, cut: int, i: int)
    requires
        vstd::utf8::valid_utf8(b),
        is_char_boundary(b, cut),
        is_char_boundary(b, i),
        0 <= i < cut <= b.len(),
    ensures
        is_char_boundary(b.subrange(0, cut), i),
{
    vstd::utf8::valid_utf8_split(b, cut);
    let p = b.subrange(0, cut);
    if i == 0 {
    } else {
        vstd::utf8::is_char_boundary_iff_not_is_continuation_byte(b, i);
        vstd::utf8::is_char_boundary_iff_not_is_continuation_byte(p, i);
        assert(p[i] == b[i]);
    }
}

fn push_root_display(out: &mut String, root: &str)
    requires
        root_display_defined(root@),
    ensures
        final(out)@ == old(out)@ + root_display(root@),
{
    broadcast use vstd::utf8::encode_utf8_decode_utf8, vstd::utf8::encode_utf8_valid_utf8;

    let n = root.as_bytes().len();
    if n > 16 {
        proof {
            lemma_prefix_boundary(encode_utf8(root@), 10, 2);
        }
        let (head, _) = root.split_at(10);
        let (_, mid) = head.split_at(2);
        let (_, tail) = root.split_at(n - 6);
        out.append("0x");
        out.append(mid);
        out.append("...");
        out.append(tail);
        proof {
            let b = encode_utf8(root@);
            assert(mid.spec_bytes() == b.subrange(2, 10));
            assert(tail.spec_bytes() == b.subrange(b.len() - 6, b.len() as int));
            assert(mid@ == decode_utf8(mid.spec_bytes()));
            assert(tail@ == decode_utf8(tail.spec_bytes()));
        }
    } else {
        out.append(root);
    }
}

fn push_match_line(out: &mut String, n: usize, m: &MatchSummary)
    requires
        root_display_defined(m.root_hash@),
    ensures
        final(out)@ == old(out)@ + match_line(n as nat, *m),
{
    let ghost start = out@;
    push_decimal(out, n as u128);
    out.append(". **");
    out.append(m.exploit_name.as_str());
    out.append("** (similarity: ");
    out.append(m.score_text.as_str());
    out.append(") — ");
    push_root_display(out, m.root_hash.as_str());
    assert(out@ =~= start + match_line(n as nat, *m));
}

/// Builds the report file name and markdown content.
pub fn build_markdown(
    analysis: &str,
    contract_name: &str,
    contract_code: &str,
    top_matches: &[MatchSummary],
    analysis_time_ms: u128,
    total_loaded: usize,
    file_stamp: &str,
    generated_at: &str,
    model: &str,
) -> (r: (String, String))
    requires
        forall|i: int|
            0 <= i < top_matches@.len() ==> root_display_defined(#[trigger] top_matches@[i].root_hash@),
    ensures
        r.0@ == report_filename(contract_name@, file_stamp@),
        r.1@ == report_content(
            generated_at@,
            model@,
            analysis_time_ms as nat,
            trim(contract_code@),
            matches_table(top_matches@),
            analysis@,
            total_loaded as nat,
        ),
{
    let mut filename = String::from_str("RAXC_");
    filename.append(contract_name);
    filename.append("_");
    filename.append(file_stamp);
    filename.append(".md");

    let mut table = String::new();
    let mut i: usize = 0;
    while i < top_matches.len()
        invariant
            i <= top_matches@.len(),
            table@ == matches_table(top_matches@.take(i as int)),
            forall|j: int|
                0 <= j < top_matches@.len() ==> root_display_defined(
                    #[trigger] top_matches@[j].root_hash@,
                ),
        decreases top_matches@.len() - i,
    {
        if i > 0 {
            table.append("\n");
        }
        push_match_line(&mut table, i + 1, &top_matches[i]);
        assert(top_matches@.take(i + 1).drop_last() =~= top_matches@.take(i as int));
        i = i + 1;
    }
    assert(top_matches@.take(i as int) =~= top_matches@);

    let code_chars = chars_of(contract_code);
    let (a, b) = trim_bounds(&code_chars, 0, code_chars.len());
    assert(code_chars@.subrange(0, code_chars@.len() as int) =~= contract_code@);
    let code = contract_code.substring_char(a, b);

    let mut content = String::from_str(REPORT_TITLE);
    content.append(generated_at);
    content.append(REPORT_MODEL);
    content.append(model);
    content.append(REPORT_TIME);
    push_decimal(&mut content, analysis_time_ms);
    content.append(REPORT_CONTRACT);
    let ghost head = content@;
    assert(head =~= report_head(generated_at@, model@, analysis_time_ms as nat));
    content.append(code);
    let ghost with_code = content@;
    content.append(REPORT_TOP);
    push_decimal(&mut content, TOP_K as u128);
    content.append(REPORT_MATCHES);
    content.append(table.as_str());
    content.append(REPORT_ANALYSIS);
    content.append(analysis);
    let ghost with_body = content@;
    assert(with_body =~= with_code + report_body(table@, analysis@));
    content.append(REPORT_TOTAL);
    push_decimal(&mut content, total_loaded as u128);
    content.append(REPORT_SIMILARITY);
    push_decimal(&mut content, analysis_time_ms);
    content.append(REPORT_COMPUTE);
    content.append(model);
    content.append(REPORT_FOOTER);
    assert(content@ =~= with_body + report_tail(total_loaded as nat, analysis_time_ms as nat, model@));
    assert(content@ =~= report_content(
        generated_at@,
        model@,
        analysis_time_ms as nat,
        trim(contract_code@),
        matches_table(top_matches@),
        analysis@,
        total_loaded as nat,
    ));
    (filename, content)
}

} // verus!
