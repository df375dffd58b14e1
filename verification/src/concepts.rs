//! The concept-extraction side of the hash embedding: the prompt that asks the
//! model for security concepts, and the reading of its reply into one text.
use vstd::prelude::*;
use crate::text::{chars_of, find_exec, find_from, lemma_find_from_match, sub_chars, take_chars, take_chars_of, trim, trim_bounds};

verus! {

/// Characters of the contract kept in the concept prompt.
pub const CONCEPT_SNIPPET_CHARS: usize = 3000;

/// The instructions that open the concept prompt.
pub const CONCEPT_PROMPT_HEAD: &'static str = "Extract exactly 32 semantic security concepts from this smart contract code.\nReturn ONLY a JSON array of 32 short strings (1-3 words each). No explanation.\nExample: [\"reentrancy\", \"access control\", \"flash loan\", ...]\n\nContract:\n";

/// The concept prompt: the instructions followed by the first 3000
/// characters of the contract.
pub open spec fn concept_prompt_spec(text: Seq<char>) -> Seq<char> {
    CONCEPT_PROMPT_HEAD@ + take_chars(text, CONCEPT_SNIPPET_CHARS as nat)
}

/// Builds the prompt that asks the model for 32 security concepts of `text`.
pub fn concept_prompt(text: &str) -> (r: String)
    ensures
        r@ == concept_prompt_spec(text@),
{
    let mut out = String::from_str(CONCEPT_PROMPT_HEAD);
    out.append(take_chars_of(text, CONCEPT_SNIPPET_CHARS));
    out
}

/// The strings of a JSON array of strings, as `serde_json::from_str::<Vec<String>>`
/// reads them; `None` when the text is not such an array.
pub uninterp spec fn json_string_array(s: Seq<char>) -> Option<Seq<Seq<char>>>;

/// Calls `serde_json::from_str::<Vec<String>>`; its result (or `None` on a
/// parse error) is the named `json_string_array` of the text.
#[verifier::external_body]
pub(crate) fn parse_string_array(s: &str) -> (r: Option<Vec<String>>)
    ensures
        match r {
            Some(v) => json_string_array(s@) == Some(v@.map_values(|x: String| x@)),
            None => json_string_array(s@) is None,
        },
{
    serde_json::from_str::<Vec<String>>(s).ok()
}

/// The last position of `c` in `s`.
pub open spec fn last_index_of(s: Seq<char>, c: char) -> Option<int>
    decreases s.len(),
{
    if s.len() == 0 {
        None
    } else if s.last() == c {
        Some(s.len() - 1)
    } else {
        last_index_of(s.drop_last(), c)
    }
}

/// The items joined by single spaces.
pub open spec fn join_with_space(items: Seq<Seq<char>>) -> Seq<char>
    decreases items.len(),
{
    if items.len() == 0 {
        Seq::empty()
    } else if items.len() == 1 {
        items[0]
    } else {
        join_with_space(items.drop_last()) + " "@ + items.last()
    }
}

/// `last_index_of` finds the last occurrence: the character there is `c` and
/// none after it is; when it finds none, `c` does not occur at all.
pub proof fn lemma_last_index_is_last(s: Seq<char>, c: char)
    ensures
        match last_index_of(s, c) {
            Some(i) => 0 <= i < s.len() && s[i] == c && forall|j: int| i < j < s.len() ==> s[j] != c,
            None => forall|j: int| 0 <= j < s.len() ==> s[j] != c,
        },
    decreases s.len(),
{
    if s.len() > 0 && s.last() != c {
        let d = s.drop_last();
        lemma_last_index_is_last(d, c);
        assert(forall|j: int| 0 <= j < d.len() ==> d[j] == s[j]);
    }
}

/// No items join to the empty text; otherwise the join is the first item
/// followed, for each further item, by one space and that item.
pub proof fn lemma_join_with_space_spaces_items(items: Seq<Seq<char>>)
    ensures
        items.len() == 0 ==> join_with_space(items) == Seq::<char>::empty(),
        items.len() > 0 ==> join_with_space(items) == items[0] + Seq::new(
            (items.len() - 1) as nat,
            |k: int| " "@ + items[k + 1],
        ).flatten(),
    decreases items.len(),
{
    if items.len() == 1 {
        let rest = Seq::new(0, |k: int| " "@ + items[k + 1]);
        assert(rest.flatten() == Seq::<char>::empty());
        assert(items[0] + rest.flatten() =~= items[0]);
    } else if items.len() > 1 {
        let d = items.drop_last();
        lemma_join_with_space_spaces_items(d);
        let n = items.len();
        let rd = Seq::new((d.len() - 1) as nat, |k: int| " "@ + d[k + 1]);
        let rm = Seq::new((n - 1) as nat, |k: int| " "@ + items[k + 1]);
        let tail = " "@ + items.last();
        assert(rm =~= rd.push(tail));
        rd.lemma_flatten_push(tail);
        assert(d[0] == items[0]);
        assert(join_with_space(items) =~= items[0] + rm.flatten());
    }
}

/// The text embedded for a model reply: in the trimmed reply, the span from
/// the first `[` (or the start) to the last `]` (or the end) is read as a JSON
/// array of strings, which are joined by spaces; when the span is inverted or
/// is not such an array, the trimmed reply itself.
pub open spec fn concept_text_spec(content: Seq<char>) -> Seq<char> {
    let t = trim(content);
    let start = match find_from(t, seq!['['], 0) {
        Some(i) => i,
        None => 0,
    };
    let end = match last_index_of(t, ']') {
        Some(i) => i + 1,
        None => t.len() as int,
    };
    if start > end {
        t
    } else {
        match json_string_array(t.subrange(start, end)) {
            Some(items) => join_with_space(items),
            None => t,
        }
    }
}

proof fn lemma_last_index_bound(s: Seq<char>, c: char)
    ensures
        last_index_of(s, c) matches Some(i) ==> 0 <= i < s.len(),
    decreases s.len(),
{
    if s.len() > 0 && s.last() != c {
        lemma_last_index_bound(s.drop_last(), c);
    }
}

fn last_index_exec(s: &Vec<char>, c: char) -> (r: Option<usize>)
    ensures
        match r {
            Some(i) => last_index_of(s@, c) == Some(i as int),
            None => last_index_of(s@, c) is None,
        },
{
    let mut k = s.len();
    assert(s@.take(k as int) =~= s@);
    while k > 0
        invariant
            k <= s@.len(),
            last_index_of(s@, c) == last_index_of(s@.take(k as int), c),
        decreases k,
    {
        if s[k - 1] == c {
            return Some(k - 1);
        }
        assert(s@.take(k as int).drop_last() =~= s@.take(k - 1));
        k = k - 1;
    }
    None
}

/// Reads a model reply into the text that the hash embedding digests.
pub fn concept_text(content: &str) -> (r: String)
    ensures
        r@ == concept_text_spec(content@),
{
    let chars = chars_of(content);
    let (a, b) = trim_bounds(&chars, 0, chars.len());
    assert(chars@.subrange(0, chars@.len() as int) =~= content@);
    let trimmed = content.substring_char(a, b);
    let t = sub_chars(&chars, a, b);
    let open = chars_of("[");
    proof {
        reveal_strlit("[");
        assert(open@ =~= seq!['[']);
    }
    let start = match find_exec(&t, &open, 0) {
        Some(i) => {
            proof {
                lemma_find_from_match(t@, open@, 0);
            }
            i
        },
        None => 0,
    };
    let end = match last_index_exec(&t, ']') {
        Some(i) => {
            proof {
                lemma_last_index_bound(t@, ']');
            }
            i + 1
        },
        None => t.len(),
    };
    if start > end {
        return String::from_str(trimmed);
    }
    let span = trimmed.substring_char(start, end);
    concepts_or_reply(parse_string_array(span), trimmed)
}

/// The parsed concepts joined by spaces, or the reply itself when nothing was parsed.
pub fn concepts_or_reply(parsed: Option<Vec<String>>, reply: &str) -> (r: String)
    ensures
        r@ == match parsed {
            Some(items) => join_with_space(items@.map_values(|x: String| x@)),
            None => reply@,
        },
{
    match parsed {
        Some(items) => {
            let ghost views = items@.map_values(|x: String| x@);
            let mut out = String::new();
            let mut i: usize = 0;
            while i < items.len()
                invariant
                    i <= items@.len(),
                    views == items@.map_values(|x: String| x@),
                    out@ == join_with_space(views.take(i as int)),
                decreases items@.len() - i,
            {
                if i > 0 {
                    out.append(" ");
                }
                out.append(items[i].as_str());
                assert(views.take(i + 1).drop_last() =~= views.take(i as int));
                i = i + 1;
            }
            assert(views.take(i as int) =~= views);
            out
        },
        None => String::from_str(reply),
    }
}

} // verus!
