//! The retrieval-augmented context that is handed to the language model: one
//! "Reference" block per retrieved exploit case, numbered from one.
use vstd::prelude::*;
use crate::text::{decimal, matches_at, push_decimal, same_text, take_chars, take_chars_of};

verus! {

/// Characters of a code snippet kept in a reference block.
pub const SNIPPET_CHARS: usize = 1500;

/// Descriptive fields of an exploit case of the local cache.
pub struct ExploitMetadata {
    pub exploit_name: String,
    pub date: String,
    pub source: String,
    pub chain: String,
    pub total_lost: String,
    pub attack_tx: String,
    pub vuln_type: String,
    pub vulnerable_contract: String,
    pub code_snippet: String,
}

/// A cached exploit case with its similarity score, rendered as text
/// (rounded to three decimals).
pub struct ScoredExploit {
    pub score_text: String,
    pub metadata: ExploitMetadata,
}

/// An exploit case returned by the remote storage service.
pub struct RemoteExploitResult {
    pub score_text: String,
    pub exploit_name: String,
    pub date: String,
    pub source: String,
    pub chain: String,
    pub total_lost: String,
    pub attack_tx: String,
    pub vuln_type: String,
    pub code_snippet: String,
}

/// An exploit case returned by the vector database, with the collection it came from.
pub struct QdrantExploitResult {
    pub score_text: String,
    pub exploit_name: String,
    pub date: String,
    pub source: String,
    pub collection: String,
    pub chain: String,
    pub total_lost: String,
    pub attack_tx: String,
    pub vuln_type: String,
    pub code_snippet: String,
}

/// Cases from this source are educational patterns, not real attacks.
pub open spec fn educational_source() -> Seq<char> {
    "DeFiVulnLabs"@
}

/// `--- Reference n: name (date) [similarity: score] [source: source] ---`,
/// with ` [collection: c]` before the closing dashes when a collection is given.
pub open spec fn reference_header(
    n: nat,
    name: Seq<char>,
    date: Seq<char>,
    score: Seq<char>,
    source: Seq<char>,
    collection: Option<Seq<char>>,
) -> Seq<char> {
    "--- Reference "@ + decimal(n) + ": "@ + name + " ("@ + date + ") [similarity: "@ + score
        + "] [source: "@ + source + match collection {
        Some(c) => "] [collection: "@ + c + "] ---"@,
        None => "] ---"@,
    }
}

/// The attack-transaction line.
pub open spec fn tx_line(is_real: bool, attack_tx: Seq<char>) -> Seq<char> {
    if is_real {
        "Attack Tx: "@ + if attack_tx.len() == 0 {
            "unknown"@
        } else {
            attack_tx
        }
    } else {
        "Attack Tx: N/A (educational pattern)"@
    }
}

/// The total-loss line.
pub open spec fn lost_line(is_real: bool, total_lost: Seq<char>) -> Seq<char> {
    if is_real {
        "Total Lost: "@ + total_lost
    } else {
        "Total Lost: N/A"@
    }
}

/// The vulnerability-type line, only for educational cases.
pub open spec fn type_line(is_real: bool, vuln_type: Seq<char>) -> Seq<char> {
    if is_real {
        Seq::empty()
    } else {
        "Vulnerability Type: "@ + vuln_type + "\n"@
    }
}

/// The vulnerable-contract line of the local cache's blocks.
pub open spec fn contract_line(vulnerable_contract: Seq<char>) -> Seq<char> {
    "Vulnerable Contract: "@ + if vulnerable_contract.len() == 0 {
        "unknown"@
    } else {
        vulnerable_contract
    } + "\n"@
}

/// One reference block: header, chain, loss and transaction lines, the type
/// line of educational cases, `extra` (empty or the vulnerable-contract
/// line), and the snippet cut to its first 1500 characters.
pub open spec fn reference_block(
    n: nat,
    name: Seq<char>,
    date: Seq<char>,
    score: Seq<char>,
    source: Seq<char>,
    collection: Option<Seq<char>>,
    chain: Seq<char>,
    total_lost: Seq<char>,
    attack_tx: Seq<char>,
    vuln_type: Seq<char>,
    extra: Seq<char>,
    code_snippet: Seq<char>,
) -> Seq<char> {
    let is_real = source != educational_source();
    "\n"@ + reference_header(n, name, date, score, source, collection) + "\nChain: "@ + chain
        + "\n"@ + lost_line(is_real, total_lost) + "\n"@ + tx_line(is_real, attack_tx) + "\n"@
        + type_line(is_real, vuln_type) + extra + "Code Snippet:\n"@ + take_chars(
        code_snippet,
        SNIPPET_CHARS as nat,
    ) + "\n"@
}

pub open spec fn remote_block(n: nat, e: RemoteExploitResult) -> Seq<char> {
    reference_block(
        n,
        e.exploit_name@,
        e.date@,
        e.score_text@,
        e.source@,
        None,
        e.chain@,
        e.total_lost@,
        e.attack_tx@,
        e.vuln_type@,
        Seq::empty(),
        e.code_snippet@,
    )
}

pub open spec fn qdrant_block(n: nat, e: QdrantExploitResult) -> Seq<char> {
    reference_block(
        n,
        e.exploit_name@,
        e.date@,
        e.score_text@,
        e.source@,
        Some(e.collection@),
        e.chain@,
        e.total_lost@,
        e.attack_tx@,
        e.vuln_type@,
        Seq::empty(),
        e.code_snippet@,
    )
}

pub open spec fn cached_block(n: nat, e: ScoredExploit) -> Seq<char> {
    reference_block(
        n,
        e.metadata.exploit_name@,
        e.metadata.date@,
        e.score_text@,
        e.metadata.source@,
        None,
        e.metadata.chain@,
        e.metadata.total_lost@,
        e.metadata.attack_tx@,
        e.metadata.vuln_type@,
        contract_line(e.metadata.vulnerable_contract@),
        e.metadata.code_snippet@,
    )
}

/// The context for remote results: their blocks in order, numbered from one.
pub open spec fn rag_context_remote(top: Seq<RemoteExploitResult>) -> Seq<char>
    decreases top.len(),
{
    if top.len() == 0 {
        Seq::empty()
    } else {
        rag_context_remote(top.drop_last()) + remote_block(top.len(), top.last())
    }
}

/// The context for vector-database results: their blocks in order, numbered from one.
pub open spec fn rag_context_qdrant(top: Seq<QdrantExploitResult>) -> Seq<char>
    decreases top.len(),
{
    if top.len() == 0 {
        Seq::empty()
    } else {
        rag_context_qdrant(top.drop_last()) + qdrant_block(top.len(), top.last())
    }
}

/// The context for cached cases: their blocks in order, numbered from one.
pub open spec fn rag_context_cached(top: Seq<ScoredExploit>) -> Seq<char>
    decreases top.len(),
{
    if top.len() == 0 {
        Seq::empty()
    } else {
        rag_context_cached(top.drop_last()) + cached_block(top.len(), top.last())
    }
}

/// The reference-block header up to the source, before its closing part.
pub open spec fn header_base(
    n: nat,
    name: Seq<char>,
    date: Seq<char>,
    score: Seq<char>,
    source: Seq<char>,
) -> Seq<char> {
    "--- Reference "@ + decimal(n) + ": "@ + name + " ("@ + date + ") [similarity: "@ + score
        + "] [source: "@ + source
}

/// The lines of a block between its header and its extra line.
pub open spec fn block_lines(
    source: Seq<char>,
    chain: Seq<char>,
    total_lost: Seq<char>,
    attack_tx: Seq<char>,
    vuln_type: Seq<char>,
) -> Seq<char> {
    let is_real = source != educational_source();
    "\nChain: "@ + chain + "\n"@ + lost_line(is_real, total_lost) + "\n"@ + tx_line(is_real, attack_tx)
        + "\n"@ + type_line(is_real, vuln_type)
}

/// The snippet part that ends every block.
pub open spec fn snippet_part(code_snippet: Seq<char>) -> Seq<char> {
    "Code Snippet:\n"@ + take_chars(code_snippet, SNIPPET_CHARS as nat) + "\n"@
}

/// A block is its header, its case lines, its extra line and its snippet part.
pub proof fn lemma_reference_block_parts(
    n: nat,
    name: Seq<char>,
    date: Seq<char>,
    score: Seq<char>,
    source: Seq<char>,
    collection: Option<Seq<char>>,
    chain: Seq<char>,
    total_lost: Seq<char>,
    attack_tx: Seq<char>,
    vuln_type: Seq<char>,
    extra: Seq<char>,
    code_snippet: Seq<char>,
)
    ensures
        reference_block(
            n,
            name,
            date,
            score,
            source,
            collection,
            chain,
            total_lost,
            attack_tx,
            vuln_type,
            extra,
            code_snippet,
        ) == "\n"@ + header_base(n, name, date, score, source) + match collection {
            Some(c) => "] [collection: "@ + c + "] ---"@,
            None => "] ---"@,
        } + block_lines(source, chain, total_lost, attack_tx, vuln_type) + extra + snippet_part(
            code_snippet,
        ),
{
    let closing = match collection {
        Some(c) => "] [collection: "@ + c + "] ---"@,
        None => "] ---"@,
    };
    assert(reference_header(n, name, date, score, source, collection) =~= header_base(
        n,
        name,
        date,
        score,
        source,
    ) + closing);
    assert(reference_block(
        n,
        name,
        date,
        score,
        source,
        collection,
        chain,
        total_lost,
        attack_tx,
        vuln_type,
        extra,
        code_snippet,
    ) =~= "\n"@ + header_base(n, name, date, score, source) + closing + block_lines(
        source,
        chain,
        total_lost,
        attack_tx,
        vuln_type,
    ) + extra + snippet_part(code_snippet));
}

/// A cached case gives the block of the remote case with the same fields,
/// with the vulnerable-contract line inserted just before its snippet part.
pub proof fn lemma_cached_block_is_remote_block_with_contract(
    n: nat,
    e: ScoredExploit,
    r: RemoteExploitResult,
)
    requires
        r.score_text@ == e.score_text@,
        r.exploit_name@ == e.metadata.exploit_name@,
        r.date@ == e.metadata.date@,
        r.source@ == e.metadata.source@,
        r.chain@ == e.metadata.chain@,
        r.total_lost@ == e.metadata.total_lost@,
        r.attack_tx@ == e.metadata.attack_tx@,
        r.vuln_type@ == e.metadata.vuln_type@,
        r.code_snippet@ == e.metadata.code_snippet@,
    ensures
        ({
            let head = "\n"@ + header_base(n, r.exploit_name@, r.date@, r.score_text@, r.source@)
                + "] ---"@ + block_lines(
                r.source@,
                r.chain@,
                r.total_lost@,
                r.attack_tx@,
                r.vuln_type@,
            );
            &&& remote_block(n, r) == head + snippet_part(r.code_snippet@)
            &&& cached_block(n, e) == head + contract_line(e.metadata.vulnerable_contract@)
                + snippet_part(r.code_snippet@)
        }),
{
    lemma_reference_block_parts(
        n,
        r.exploit_name@,
        r.date@,
        r.score_text@,
        r.source@,
        None,
        r.chain@,
        r.total_lost@,
        r.attack_tx@,
        r.vuln_type@,
        Seq::empty(),
        r.code_snippet@,
    );
    lemma_reference_block_parts(
        n,
        e.metadata.exploit_name@,
        e.metadata.date@,
        e.score_text@,
        e.metadata.source@,
        None,
        e.metadata.chain@,
        e.metadata.total_lost@,
        e.metadata.attack_tx@,
        e.metadata.vuln_type@,
        contract_line(e.metadata.vulnerable_contract@),
        e.metadata.code_snippet@,
    );
    let head = "\n"@ + header_base(n, r.exploit_name@, r.date@, r.score_text@, r.source@) + "] ---"@
        + block_lines(r.source@, r.chain@, r.total_lost@, r.attack_tx@, r.vuln_type@);
    assert(head + Seq::<char>::empty() + snippet_part(r.code_snippet@) =~= head + snippet_part(
        r.code_snippet@,
    ));
}

/// A vector-database case gives the block of the remote case with the same
/// fields, except that its header names the collection before the closing dashes.
pub proof fn lemma_qdrant_block_is_remote_block_with_collection(
    n: nat,
    q: QdrantExploitResult,
    r: RemoteExploitResult,
)
    requires
        r.score_text@ == q.score_text@,
        r.exploit_name@ == q.exploit_name@,
        r.date@ == q.date@,
        r.source@ == q.source@,
        r.chain@ == q.chain@,
        r.total_lost@ == q.total_lost@,
        r.attack_tx@ == q.attack_tx@,
        r.vuln_type@ == q.vuln_type@,
        r.code_snippet@ == q.code_snippet@,
    ensures
        ({
            let base = "\n"@ + header_base(n, r.exploit_name@, r.date@, r.score_text@, r.source@);
            let rest = block_lines(r.source@, r.chain@, r.total_lost@, r.attack_tx@, r.vuln_type@)
                + snippet_part(r.code_snippet@);
            &&& remote_block(n, r) == base + "] ---"@ + rest
            &&& qdrant_block(n, q) == base + ("] [collection: "@ + q.collection@ + "] ---"@) + rest
        }),
{
    lemma_reference_block_parts(
        n,
        r.exploit_name@,
        r.date@,
        r.score_text@,
        r.source@,
        None,
        r.chain@,
        r.total_lost@,
        r.attack_tx@,
        r.vuln_type@,
        Seq::empty(),
        r.code_snippet@,
    );
    lemma_reference_block_parts(
        n,
        q.exploit_name@,
        q.date@,
        q.score_text@,
        q.source@,
        Some(q.collection@),
        q.chain@,
        q.total_lost@,
        q.attack_tx@,
        q.vuln_type@,
        Seq::empty(),
        q.code_snippet@,
    );
    let base = "\n"@ + header_base(n, r.exploit_name@, r.date@, r.score_text@, r.source@);
    let lines = block_lines(r.source@, r.chain@, r.total_lost@, r.attack_tx@, r.vuln_type@);
    let snip = snippet_part(r.code_snippet@);
    assert(base + "] ---"@ + lines + Seq::<char>::empty() + snip =~= base + "] ---"@ + (lines + snip));
    let c = "] [collection: "@ + q.collection@ + "] ---"@;
    assert(base + c + lines + Seq::<char>::empty() + snip =~= base + c + (lines + snip));
}

/// The case lines of a block, spelled out: a real case gives its chain, its
/// total loss and its attack transaction (`unknown` only when that field is
/// empty); an educational case (source `DeFiVulnLabs`) gives its chain, `N/A`
/// for the loss and the transaction, and its vulnerability type.
pub proof fn lemma_block_lines_layout(
    source: Seq<char>,
    chain: Seq<char>,
    total_lost: Seq<char>,
    attack_tx: Seq<char>,
    vuln_type: Seq<char>,
)
    ensures
        source != "DeFiVulnLabs"@ ==> block_lines(source, chain, total_lost, attack_tx, vuln_type)
            == "\nChain: "@ + chain + "\nTotal Lost: "@ + total_lost + "\nAttack Tx: "@ + (
        if attack_tx.len() == 0 {
            "unknown"@
        } else {
            attack_tx
        }) + "\n"@,
        source == "DeFiVulnLabs"@ ==> block_lines(source, chain, total_lost, attack_tx, vuln_type)
            == "\nChain: "@ + chain + "\nTotal Lost: N/A\nAttack Tx: N/A (educational pattern)\nVulnerability Type: "@
            + vuln_type + "\n"@,
{
    reveal_strlit("\n");
    reveal_strlit("\nTotal Lost: ");
    reveal_strlit("Total Lost: ");
    reveal_strlit("\nAttack Tx: ");
    reveal_strlit("Attack Tx: ");
    reveal_strlit("Total Lost: N/A");
    reveal_strlit("Attack Tx: N/A (educational pattern)");
    reveal_strlit("Vulnerability Type: ");
    reveal_strlit("\nTotal Lost: N/A\nAttack Tx: N/A (educational pattern)\nVulnerability Type: ");
    if source != educational_source() {
        assert("\n"@ + "Total Lost: "@ =~= "\nTotal Lost: "@);
        assert("\n"@ + "Attack Tx: "@ =~= "\nAttack Tx: "@);
        let tx = if attack_tx.len() == 0 {
            "unknown"@
        } else {
            attack_tx
        };
        assert(block_lines(source, chain, total_lost, attack_tx, vuln_type) =~= "\nChain: "@ + chain
            + "\nTotal Lost: "@ + total_lost + "\nAttack Tx: "@ + tx + "\n"@);
    } else {
        assert("\n"@ + "Total Lost: N/A"@ + "\n"@ + "Attack Tx: N/A (educational pattern)"@ + "\n"@
            + "Vulnerability Type: "@
            =~= "\nTotal Lost: N/A\nAttack Tx: N/A (educational pattern)\nVulnerability Type: "@);
        assert(block_lines(source, chain, total_lost, attack_tx, vuln_type) =~= "\nChain: "@ + chain
            + "\nTotal Lost: N/A\nAttack Tx: N/A (educational pattern)\nVulnerability Type: "@
            + vuln_type + "\n"@);
    }
}

/// A cached case's block names the case's vulnerable contract: after the
/// header and the chain, loss, transaction and type lines comes
/// `Vulnerable Contract: ` followed by exactly the case's
/// `vulnerable_contract` (`unknown` only when that field is empty) and a
/// newline, and then the code snippet.
pub proof fn lemma_cached_block_names_vulnerable_contract(n: nat, e: ScoredExploit)
    ensures
        ({
            let m = e.metadata;
            let vc = m.vulnerable_contract@;
            cached_block(n, e) == "\n"@ + header_base(n, m.exploit_name@, m.date@, e.score_text@, m.source@)
                + "] ---"@ + block_lines(m.source@, m.chain@, m.total_lost@, m.attack_tx@, m.vuln_type@)
                + "Vulnerable Contract: "@ + (if vc.len() == 0 {
                "unknown"@
            } else {
                vc
            }) + "\n"@ + "Code Snippet:\n"@ + take_chars(m.code_snippet@, SNIPPET_CHARS as nat)
                + "\n"@
        }),
{
    let m = e.metadata;
    let vc = m.vulnerable_contract@;
    lemma_reference_block_parts(
        n,
        m.exploit_name@,
        m.date@,
        e.score_text@,
        m.source@,
        None,
        m.chain@,
        m.total_lost@,
        m.attack_tx@,
        m.vuln_type@,
        contract_line(vc),
        m.code_snippet@,
    );
    let head = "\n"@ + header_base(n, m.exploit_name@, m.date@, e.score_text@, m.source@) + "] ---"@
        + block_lines(m.source@, m.chain@, m.total_lost@, m.attack_tx@, m.vuln_type@);
    let shown = if vc.len() == 0 {
        "unknown"@
    } else {
        vc
    };
    assert(head + contract_line(vc) + snippet_part(m.code_snippet@) =~= head
        + "Vulnerable Contract: "@ + shown + "\n"@ + "Code Snippet:\n"@ + take_chars(
        m.code_snippet@,
        SNIPPET_CHARS as nat,
    ) + "\n"@);
}

/// In the context built from cached cases, the block of the case at index `k`
/// (which lies between the blocks of the cases before it and those after it)
/// holds `Vulnerable Contract: ` followed by that case's vulnerable contract,
/// or `unknown` when it is empty, then a newline and `Code Snippet:`.
#[verifier::spinoff_prover]
#[verifier::rlimit(30)]
pub proof fn lemma_cached_context_names_vulnerable_contracts(top: Seq<ScoredExploit>, k: int)
    requires
        0 <= k < top.len(),
    ensures
        ({
            let vc = top[k].metadata.vulnerable_contract@;
            let ctx = rag_context_cached(top);
            let lo = rag_context_cached(top.take(k)).len();
            let hi = rag_context_cached(top.take(k + 1)).len();
            let named = "Vulnerable Contract: "@ + vc + "\nCode Snippet:\n"@;
            let unknown = "Vulnerable Contract: unknown\nCode Snippet:\n"@;
            &&& vc.len() > 0 ==> exists|i: int|
                #![trigger matches_at(ctx, named, i)]
                lo <= i && i + named.len() <= hi && matches_at(ctx, named, i)
            &&& vc.len() == 0 ==> exists|i: int|
                #![trigger matches_at(ctx, unknown, i)]
                lo <= i && i + unknown.len() <= hi && matches_at(ctx, unknown, i)
        }),
{
    let e = top[k];
    let vc = e.metadata.vulnerable_contract@;
    let line = contract_shown_line(vc);
    let pre = rag_context_cached(top.take(k));
    let ctx = rag_context_cached(top);
    lemma_cached_context_splits_at(top, k);
    let (head, after) = lemma_cached_block_splits_at_contract((k + 1) as nat, e);
    let post = blocks_from(
        top.skip(k + 1),
        (k + 1) as nat,
        |n: nat, x: ScoredExploit| cached_block(n, x),
    );
    assert(ctx =~= (pre + head) + line + (after + post));
    lemma_matches_in_middle(pre + head, line, after + post);
    let i: int = (pre + head).len() as int;
    assert(rag_context_cached(top.take(k + 1)).len() == pre.len() + head.len() + line.len()
        + after.len());
    if vc.len() == 0 {
        assert(line == "Vulnerable Contract: unknown\nCode Snippet:\n"@) by {
            reveal_strlit("Vulnerable Contract: ");
            reveal_strlit("unknown");
            reveal_strlit("\nCode Snippet:\n");
            reveal_strlit("Vulnerable Contract: unknown\nCode Snippet:\n");
            assert(line =~= "Vulnerable Contract: unknown\nCode Snippet:\n"@);
        }
    }
    assert(pre.len() <= i && i + line.len() <= rag_context_cached(top.take(k + 1)).len()
        && matches_at(ctx, line, i));
}

/// The vulnerable-contract line of a cached block with the snippet heading after it.
spec fn contract_shown_line(vc: Seq<char>) -> Seq<char> {
    "Vulnerable Contract: "@ + (if vc.len() == 0 {
        "unknown"@
    } else {
        vc
    }) + "\nCode Snippet:\n"@
}

/// The cached context is the context of the cases before `k`, the block of
/// case `k`, and the blocks of the cases after it.
proof fn lemma_cached_context_splits_at(top: Seq<ScoredExploit>, k: int)
    requires
        0 <= k < top.len(),
    ensures
        rag_context_cached(top.take(k + 1)) == rag_context_cached(top.take(k)) + cached_block(
            (k + 1) as nat,
            top[k],
        ),
        rag_context_cached(top) == rag_context_cached(top.take(k + 1)) + blocks_from(
            top.skip(k + 1),
            (k + 1) as nat,
            |n: nat, x: ScoredExploit| cached_block(n, x),
        ),
{
    let a = top.take(k + 1);
    assert(a.drop_last() =~= top.take(k));
    assert(a.last() == top[k]);
    assert(a + top.skip(k + 1) =~= top);
    lemma_rag_context_cached_concat(a, top.skip(k + 1));
}

/// A cached block split around its vulnerable-contract line and the snippet heading.
proof fn lemma_cached_block_splits_at_contract(n: nat, e: ScoredExploit) -> (r: (
    Seq<char>,
    Seq<char>,
))
    ensures
        cached_block(n, e) == r.0 + contract_shown_line(e.metadata.vulnerable_contract@) + r.1,
{
    let m = e.metadata;
    lemma_cached_block_names_vulnerable_contract(n, e);
    let head = "\n"@ + header_base(n, m.exploit_name@, m.date@, e.score_text@, m.source@) + "] ---"@
        + block_lines(m.source@, m.chain@, m.total_lost@, m.attack_tx@, m.vuln_type@);
    let after = take_chars(m.code_snippet@, SNIPPET_CHARS as nat) + "\n"@;
    reveal_strlit("\n");
    reveal_strlit("Code Snippet:\n");
    reveal_strlit("\nCode Snippet:\n");
    assert("\n"@ + "Code Snippet:\n"@ =~= "\nCode Snippet:\n"@);
    assert(cached_block(n, e) =~= head + contract_shown_line(m.vulnerable_contract@) + after);
    (head, after)
}

/// `line` occurs in `p + line + q` right after `p`.
proof fn lemma_matches_in_middle(p: Seq<char>, line: Seq<char>, q: Seq<char>)
    ensures
        matches_at(p + line + q, line, p.len() as int),
{
    assert((p + line + q).subrange(p.len() as int, (p.len() + line.len()) as int) =~= line);
}

/// The blocks of `top`, numbered from `offset + 1`, in order.
pub open spec fn blocks_from<T>(top: Seq<T>, offset: nat, block: spec_fn(nat, T) -> Seq<char>) -> Seq<
    char,
>
    decreases top.len(),
{
    if top.len() == 0 {
        Seq::empty()
    } else {
        blocks_from(top.drop_last(), offset, block) + block(offset + top.len(), top.last())
    }
}

/// Blocks of a concatenation are the blocks of the first part followed by the
/// blocks of the second part, numbered on from where the first part stopped.
pub proof fn lemma_blocks_concat<T>(
    a: Seq<T>,
    b: Seq<T>,
    offset: nat,
    block: spec_fn(nat, T) -> Seq<char>,
)
    ensures
        blocks_from(a + b, offset, block) == blocks_from(a, offset, block) + blocks_from(
            b,
            offset + a.len(),
            block,
        ),
    decreases b.len(),
{
    if b.len() == 0 {
        assert(a + b =~= a);
        assert(blocks_from(a, offset, block) + Seq::<char>::empty() =~= blocks_from(a, offset, block));
    } else {
        lemma_blocks_concat(a, b.drop_last(), offset, block);
        assert((a + b).drop_last() =~= a + b.drop_last());
        assert((a + b).last() == b.last());
        assert(blocks_from(a + b, offset, block) =~= blocks_from(a, offset, block) + blocks_from(
            b,
            offset + a.len(),
            block,
        ));
    }
}

/// The cached-case context is its blocks numbered from one; the context of no
/// cases is empty, and the context of `a + b` is that of `a` followed by the
/// blocks of `b` numbered on from `a.len() + 1`.
pub proof fn lemma_rag_context_cached_concat(a: Seq<ScoredExploit>, b: Seq<ScoredExploit>)
    ensures
        rag_context_cached(Seq::empty()) == Seq::<char>::empty(),
        rag_context_cached(a) == blocks_from(a, 0, |n: nat, e: ScoredExploit| cached_block(n, e)),
        rag_context_cached(a + b) == rag_context_cached(a) + blocks_from(
            b,
            a.len(),
            |n: nat, e: ScoredExploit| cached_block(n, e),
        ),
{
    let f = |n: nat, e: ScoredExploit| cached_block(n, e);
    lemma_rag_context_cached_blocks(a);
    lemma_rag_context_cached_blocks(a + b);
    lemma_blocks_concat(a, b, 0, f);
}

proof fn lemma_rag_context_cached_blocks(top: Seq<ScoredExploit>)
    ensures
        rag_context_cached(top) == blocks_from(top, 0, |n: nat, e: ScoredExploit| cached_block(n, e)),
    decreases top.len(),
{
    if top.len() > 0 {
        lemma_rag_context_cached_blocks(top.drop_last());
    }
}

/// The remote context obeys the same concatenation law.
pub proof fn lemma_rag_context_remote_concat(a: Seq<RemoteExploitResult>, b: Seq<RemoteExploitResult>)
    ensures
        rag_context_remote(a + b) == rag_context_remote(a) + blocks_from(
            b,
            a.len(),
            |n: nat, e: RemoteExploitResult| remote_block(n, e),
        ),
{
    lemma_rag_context_remote_blocks(a);
    lemma_rag_context_remote_blocks(a + b);
    lemma_blocks_concat(a, b, 0, |n: nat, e: RemoteExploitResult| remote_block(n, e));
}

proof fn lemma_rag_context_remote_blocks(top: Seq<RemoteExploitResult>)
    ensures
        rag_context_remote(top) == blocks_from(
            top,
            0,
            |n: nat, e: RemoteExploitResult| remote_block(n, e),
        ),
    decreases top.len(),
{
    if top.len() > 0 {
        lemma_rag_context_remote_blocks(top.drop_last());
    }
}

/// The vector-database context obeys the same concatenation law.
pub proof fn lemma_rag_context_qdrant_concat(a: Seq<QdrantExploitResult>, b: Seq<QdrantExploitResult>)
    ensures
        rag_context_qdrant(a + b) == rag_context_qdrant(a) + blocks_from(
            b,
            a.len(),
            |n: nat, e: QdrantExploitResult| qdrant_block(n, e),
        ),
{
    lemma_rag_context_qdrant_blocks(a);
    lemma_rag_context_qdrant_blocks(a + b);
    lemma_blocks_concat(a, b, 0, |n: nat, e: QdrantExploitResult| qdrant_block(n, e));
}

proof fn lemma_rag_context_qdrant_blocks(top: Seq<QdrantExploitResult>)
    ensures
        rag_context_qdrant(top) == blocks_from(
            top,
            0,
            |n: nat, e: QdrantExploitResult| qdrant_block(n, e),
        ),
    decreases top.len(),
{
    if top.len() > 0 {
        lemma_rag_context_qdrant_blocks(top.drop_last());
    }
}

fn push_header(
    ctx: &mut String,
    n: usize,
    name: &String,
    date: &String,
    score: &String,
    source: &String,
    collection: Option<&String>,
)
    ensures
        final(ctx)@ == old(ctx)@ + header_base(n as nat, name@, date@, score@, source@) + match collection {
            Some(c) => "] [collection: "@ + c@ + "] ---"@,
            None => "] ---"@,
        },
{
    let ghost start = ctx@;
    ctx.append("--- Reference ");
    push_decimal(ctx, n as u128);
    ctx.append(": ");
    ctx.append(name.as_str());
    ctx.append(" (");
    ctx.append(date.as_str());
    ctx.append(") [similarity: ");
    ctx.append(score.as_str());
    ctx.append("] [source: ");
    ctx.append(source.as_str());
    let ghost mid = ctx@;
    assert(mid =~= start + header_base(n as nat, name@, date@, score@, source@));
    match collection {
        Some(c) => {
            ctx.append("] [collection: ");
            ctx.append(c.as_str());
            ctx.append("] ---");
            assert(ctx@ =~= mid + ("] [collection: "@ + c@ + "] ---"@));
        },
        None => {
            ctx.append("] ---");
        },
    }
}

fn push_block_lines(
    ctx: &mut String,
    is_real: bool,
    source: &String,
    chain: &String,
    total_lost: &String,
    attack_tx: &String,
    vuln_type: &String,
)
    requires
        is_real == (source@ != educational_source()),
    ensures
        final(ctx)@ == old(ctx)@ + block_lines(source@, chain@, total_lost@, attack_tx@, vuln_type@),
{
    let ghost start = ctx@;
    ctx.append("\nChain: ");
    ctx.append(chain.as_str());
    ctx.append("\n");
    if is_real {
        ctx.append("Total Lost: ");
        ctx.append(total_lost.as_str());
    } else {
        ctx.append("Total Lost: N/A");
    }
    let ghost a = ctx@;
    assert(a =~= start + "\nChain: "@ + chain@ + "\n"@ + lost_line(is_real, total_lost@));
    ctx.append("\n");
    if is_real {
        ctx.append("Attack Tx: ");
        if attack_tx.as_str().is_empty() {
            ctx.append("unknown");
        } else {
            ctx.append(attack_tx.as_str());
        }
    } else {
        ctx.append("Attack Tx: N/A (educational pattern)");
    }
    let ghost b = ctx@;
    assert(b =~= a + "\n"@ + tx_line(is_real, attack_tx@));
    ctx.append("\n");
    if !is_real {
        ctx.append("Vulnerability Type: ");
        ctx.append(vuln_type.as_str());
        ctx.append("\n");
    }
    assert(ctx@ =~= b + "\n"@ + type_line(is_real, vuln_type@));
    assert(ctx@ =~= start + block_lines(source@, chain@, total_lost@, attack_tx@, vuln_type@));
}

fn push_contract_line(ctx: &mut String, vulnerable_contract: &String)
    ensures
        final(ctx)@ == old(ctx)@ + contract_line(vulnerable_contract@),
{
    let ghost start = ctx@;
    ctx.append("Vulnerable Contract: ");
    if vulnerable_contract.as_str().is_empty() {
        ctx.append("unknown");
    } else {
        ctx.append(vulnerable_contract.as_str());
    }
    ctx.append("\n");
    assert(ctx@ =~= start + contract_line(vulnerable_contract@));
}

fn push_snippet(ctx: &mut String, code_snippet: &String)
    ensures
        final(ctx)@ == old(ctx)@ + snippet_part(code_snippet@),
{
    let ghost start = ctx@;
    ctx.append("Code Snippet:\n");
    ctx.append(take_chars_of(code_snippet.as_str(), SNIPPET_CHARS));
    ctx.append("\n");
    assert(ctx@ =~= start + snippet_part(code_snippet@));
}

/// Appends one reference block.
fn push_reference(
    ctx: &mut String,
    n: usize,
    name: &String,
    date: &String,
    score: &String,
    source: &String,
    collection: Option<&String>,
    chain: &String,
    total_lost: &String,
    attack_tx: &String,
    vuln_type: &String,
    vulnerable_contract: Option<&String>,
    code_snippet: &String,
)
    ensures
        final(ctx)@ == old(ctx)@ + reference_block(
            n as nat,
            name@,
            date@,
            score@,
            source@,
            match collection {
                Some(c) => Some(c@),
                None => None,
            },
            chain@,
            total_lost@,
            attack_tx@,
            vuln_type@,
            match vulnerable_contract {
                Some(v) => contract_line(v@),
                None => Seq::empty(),
            },
            code_snippet@,
        ),
{
    let ghost start = ctx@;
    let is_real = !same_text(source.as_str(), "DeFiVulnLabs");
    ctx.append("\n");
    push_header(ctx, n, name, date, score, source, collection);
    let ghost h = ctx@;
    push_block_lines(ctx, is_real, source, chain, total_lost, attack_tx, vuln_type);
    let ghost l = ctx@;
    match vulnerable_contract {
        Some(v) => {
            push_contract_line(ctx, v);
        },
        None => {},
    }
    let ghost x = ctx@;
    push_snippet(ctx, code_snippet);
    proof {
        let collection_view = match collection {
            Some(c) => Some(c@),
            None => None,
        };
        let extra = match vulnerable_contract {
            Some(v) => contract_line(v@),
            None => Seq::empty(),
        };
        let closing = match collection_view {
            Some(c) => "] [collection: "@ + c + "] ---"@,
            None => "] ---"@,
        };
        let base = header_base(n as nat, name@, date@, score@, source@);
        let lines = block_lines(source@, chain@, total_lost@, attack_tx@, vuln_type@);
        let snip = snippet_part(code_snippet@);
        assert(x =~= l + extra);
        assert(ctx@ =~= start + ("\n"@ + base + closing + lines + extra + snip));
        lemma_reference_block_parts(
            n as nat,
            name@,
            date@,
            score@,
            source@,
            collection_view,
            chain@,
            total_lost@,
            attack_tx@,
            vuln_type@,
            extra,
            code_snippet@,
        );
    }
}

/// Builds the context from remote storage results.
pub fn build_rag_context_remote(top: &[RemoteExploitResult]) -> (ctx: String)
    ensures
        ctx@ == rag_context_remote(top@),
{
    let mut ctx = String::new();
    let mut i: usize = 0;
    while i < top.len()
        invariant
            i <= top@.len(),
            ctx@ == rag_context_remote(top@.take(i as int)),
        decreases top@.len() - i,
    {
        let e = &top[i];
        push_reference(
            &mut ctx,
            i + 1,
            &e.exploit_name,
            &e.date,
            &e.score_text,
            &e.source,
            None,
            &e.chain,
            &e.total_lost,
            &e.attack_tx,
            &e.vuln_type,
            None,
            &e.code_snippet,
        );
        assert(top@.take(i + 1).drop_last() =~= top@.take(i as int));
        i = i + 1;
    }
    assert(top@.take(i as int) =~= top@);
    ctx
}

/// Builds the context from vector-database results.
pub fn build_rag_context_qdrant(top: &[QdrantExploitResult]) -> (ctx: String)
    ensures
        ctx@ == rag_context_qdrant(top@),
{
    let mut ctx = String::new();
    let mut i: usize = 0;
    while i < top.len()
        invariant
            i <= top@.len(),
            ctx@ == rag_context_qdrant(top@.take(i as int)),
        decreases top@.len() - i,
    {
        let e = &top[i];
        push_reference(
            &mut ctx,
            i + 1,
            &e.exploit_name,
            &e.date,
            &e.score_text,
            &e.source,
            Some(&e.collection),
            &e.chain,
            &e.total_lost,
            &e.attack_tx,
            &e.vuln_type,
            None,
            &e.code_snippet,
        );
        assert(top@.take(i + 1).drop_last() =~= top@.take(i as int));
        i = i + 1;
    }
    assert(top@.take(i as int) =~= top@);
    ctx
}

/// Builds the context from cached cases with their scores.
pub fn build_rag_context(top: &[ScoredExploit]) -> (ctx: String)
    ensures
        ctx@ == rag_context_cached(top@),
{
    let mut ctx = String::new();
    let mut i: usize = 0;
    while i < top.len()
        invariant
            i <= top@.len(),
            ctx@ == rag_context_cached(top@.take(i as int)),
        decreases top@.len() - i,
    {
        let e = &top[i];
        let m = &e.metadata;
        push_reference(
            &mut ctx,
            i + 1,
            &m.exploit_name,
            &m.date,
            &e.score_text,
            &m.source,
            None,
            &m.chain,
            &m.total_lost,
            &m.attack_tx,
            &m.vuln_type,
            Some(&m.vulnerable_contract),
            &m.code_snippet,
        );
        assert(top@.take(i + 1).drop_last() =~= top@.take(i as int));
        i = i + 1;
    }
    assert(top@.take(i as int) =~= top@);
    ctx
}

} // verus!
