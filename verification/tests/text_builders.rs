use raxc::markdown::{analysis_prompt, build_markdown, MatchSummary, PROMPT_HEAD, PROMPT_MIDDLE, PROMPT_TAIL};
use raxc::rag::{
    build_rag_context, build_rag_context_qdrant, build_rag_context_remote, ExploitMetadata,
    QdrantExploitResult, RemoteExploitResult, ScoredExploit,
};
use raxc::reasoning::extract_reasoning;

fn remote(score: &str, name: &str, source: &str, attack_tx: &str, snippet: &str) -> RemoteExploitResult {
    RemoteExploitResult {
        score_text: score.to_string(),
        exploit_name: name.to_string(),
        date: "2023-01-01".to_string(),
        source: source.to_string(),
        chain: "ethereum".to_string(),
        total_lost: "$1M".to_string(),
        attack_tx: attack_tx.to_string(),
        vuln_type: "Reentrancy".to_string(),
        code_snippet: snippet.to_string(),
    }
}

#[test]
fn remote_context_for_real_and_educational_cases() {
    let top = vec![
        remote("0.873", "Euler", "DeFiHackLabs", "", "contract A {}"),
        remote("0.5", "Reentrancy demo", "DeFiVulnLabs", "0xabc", "code"),
    ];
    let ctx = build_rag_context_remote(&top);
    let expected = "\n--- Reference 1: Euler (2023-01-01) [similarity: 0.873] [source: DeFiHackLabs] ---\n\
Chain: ethereum\nTotal Lost: $1M\nAttack Tx: unknown\nCode Snippet:\ncontract A {}\n\
\n--- Reference 2: Reentrancy demo (2023-01-01) [similarity: 0.5] [source: DeFiVulnLabs] ---\n\
Chain: ethereum\nTotal Lost: N/A\nAttack Tx: N/A (educational pattern)\nVulnerability Type: Reentrancy\nCode Snippet:\ncode\n";
    assert_eq!(ctx, expected);
}

#[test]
fn remote_context_of_nothing_is_empty() {
    assert_eq!(build_rag_context_remote(&[]), "");
}

#[test]
fn snippets_are_cut_to_1500_characters() {
    let long: String = std::iter::repeat('é').take(1600).collect();
    let top = vec![remote("1", "X", "DeFiHackLabs", "0xtx", &long)];
    let ctx = build_rag_context_remote(&top);
    let kept: String = std::iter::repeat('é').take(1500).collect();
    assert!(ctx.ends_with(&format!("Code Snippet:\n{}\n", kept)));
    assert!(ctx.contains("Attack Tx: 0xtx\n"));
}

#[test]
fn reference_numbers_go_past_nine() {
    let top: Vec<RemoteExploitResult> =
        (0..12).map(|i| remote("0.1", &format!("case{}", i), "DeFiHackLabs", "t", "c")).collect();
    let ctx = build_rag_context_remote(&top);
    assert!(ctx.contains("--- Reference 10: case9 "));
    assert!(ctx.contains("--- Reference 12: case11 "));
}

#[test]
fn qdrant_context_names_the_collection() {
    let top = vec![QdrantExploitResult {
        score_text: "0.42".to_string(),
        exploit_name: "Cream".to_string(),
        date: "2021-10-27".to_string(),
        source: "DeFiHackLabs".to_string(),
        collection: "defi_cases".to_string(),
        chain: "ethereum".to_string(),
        total_lost: "$130M".to_string(),
        attack_tx: "https://etherscan.io/tx/0x1".to_string(),
        vuln_type: "Flash Loan".to_string(),
        code_snippet: "fn x()".to_string(),
    }];
    let ctx = build_rag_context_qdrant(&top);
    assert_eq!(
        ctx,
        "\n--- Reference 1: Cream (2021-10-27) [similarity: 0.42] [source: DeFiHackLabs] [collection: defi_cases] ---\n\
Chain: ethereum\nTotal Lost: $130M\nAttack Tx: https://etherscan.io/tx/0x1\nCode Snippet:\nfn x()\n"
    );
}

#[test]
fn cached_context_lists_the_vulnerable_contract() {
    let metadata = ExploitMetadata {
        exploit_name: "Demo".to_string(),
        date: "2022".to_string(),
        source: "DeFiVulnLabs".to_string(),
        chain: "bsc".to_string(),
        total_lost: "0".to_string(),
        attack_tx: "".to_string(),
        vuln_type: "Oracle".to_string(),
        vulnerable_contract: "".to_string(),
        code_snippet: "pragma".to_string(),
    };
    let ctx = build_rag_context(&[ScoredExploit { score_text: "0.25".to_string(), metadata }]);
    assert_eq!(
        ctx,
        "\n--- Reference 1: Demo (2022) [similarity: 0.25] [source: DeFiVulnLabs] ---\n\
Chain: bsc\nTotal Lost: N/A\nAttack Tx: N/A (educational pattern)\nVulnerability Type: Oracle\n\
Vulnerable Contract: unknown\nCode Snippet:\npragma\n"
    );
}

#[test]
fn reasoning_quotes_the_explanation() {
    let analysis = "**Risk Level:** High\n**Explanation:**  The withdraw call re-enters.  \n**Recommendation:** fix";
    assert_eq!(
        extract_reasoning(analysis),
        "The agent identified vulnerabilities through the following reasoning:\n\nThe withdraw call re-enters."
    );
}

#[test]
fn reasoning_stops_at_a_rule() {
    let analysis = "**Explanation:** short---rest";
    assert_eq!(
        extract_reasoning(analysis),
        "The agent identified vulnerabilities through the following reasoning:\n\nshort"
    );
}

#[test]
fn reasoning_falls_back_without_explanation() {
    let fallback = "The agent analyzed the contract against known exploit patterns from DeFiHackLabs and DeFiVulnLabs. The similarity scores and vulnerability patterns informed the security assessment.";
    assert_eq!(extract_reasoning("no sections here"), fallback);
    assert_eq!(extract_reasoning(""), fallback);
}

#[test]
fn reasoning_with_a_bare_marker_falls_back() {
    let fallback = "The agent analyzed the contract against known exploit patterns from DeFiHackLabs and DeFiVulnLabs. The similarity scores and vulnerability patterns informed the security assessment.";
    assert_eq!(extract_reasoning("**Explanation:**"), fallback);
    assert_eq!(extract_reasoning("**Explanation:**   \n**Recommendation:** x"), fallback);
}

#[test]
fn reasoning_quotes_the_section_text_only() {
    assert_eq!(
        extract_reasoning("**Explanation:** Reentrancy in withdraw.\n**Recommendation:** fix"),
        "The agent identified vulnerabilities through the following reasoning:\n\nReentrancy in withdraw."
    );
}

#[test]
fn prompt_wraps_context_and_contract() {
    let p = analysis_prompt("CTX", "contract C {}");
    assert_eq!(p, format!("{}CTX{}contract C {{}}{}", PROMPT_HEAD, PROMPT_MIDDLE, PROMPT_TAIL));
    assert!(p.starts_with("You are a smart contract security expert"));
    assert!(p.contains("## Contract to Analyze:\ncontract C {}\n\n## Critical instructions"));
}

#[test]
fn markdown_report_layout() {
    let matches = vec![
        MatchSummary {
            score_text: "0.8731".to_string(),
            exploit_name: "Euler".to_string(),
            root_hash: "0x1234567890abcdef1234567890abcdef".to_string(),
        },
        MatchSummary {
            score_text: "0.5000".to_string(),
            exploit_name: "Short".to_string(),
            root_hash: "0xabc".to_string(),
        },
    ];
    let (name, content) = build_markdown(
        "analysis text",
        "Vault",
        "  contract Vault {}\n\n",
        &matches,
        1234,
        722,
        "20260101_120000",
        "2026-01-01 12:00:00",
        "gpt-4o-mini",
    );
    assert_eq!(name, "RAXC_Vault_20260101_120000.md");
    let expected = "# Smart Contract Security Report\n\n**Generated:** 2026-01-01 12:00:00  \n**Model:** gpt-4o-mini  \n**Analysis Time:** 1234 ms\n\n---\n\n## Contract Analyzed\n\n```solidity\ncontract Vault {}\n```\n\n---\n\n## Top-5 Similar Exploits (from local cache)\n\n1. **Euler** (similarity: 0.8731) — 0x12345678...abcdef\n2. **Short** (similarity: 0.5000) — 0xabc\n\n---\n\n## 🧠 Agent Analysis\n\nanalysis text\n\n---\n\n## Metadata\n\n- **Total in Cache:** 722 exploits\n- **Similarity Computation:** 1234ms\n- **Storage:** 0G Storage (cached locally)\n- **Compute:** 0G Compute — gpt-4o-mini\n- **Embedding:** OpenAI text-embedding-3-small (1536 dims)\n\n---\n\n*Report generated by RAXC — Cached RAG-powered smart contract auditing*\n";
    assert_eq!(content, expected);
}
