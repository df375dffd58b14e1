use raxc::concepts::{concept_prompt, concept_text, concepts_or_reply, CONCEPT_PROMPT_HEAD};

#[test]
fn concept_prompt_keeps_3000_characters() {
    let long: String = std::iter::repeat('x').take(3100).collect();
    let p = concept_prompt(&long);
    assert!(p.starts_with("Extract exactly 32 semantic security concepts"));
    assert!(p.contains("\nContract:\n"));
    assert_eq!(p.len(), CONCEPT_PROMPT_HEAD.len() + 3000);
    assert_eq!(concept_prompt("c"), format!("{}c", CONCEPT_PROMPT_HEAD));
}

#[test]
fn concept_text_joins_the_array() {
    assert_eq!(
        concept_text("  Here: [\"reentrancy\", \"access control\", \"flash loan\"] done \n"),
        "reentrancy access control flash loan"
    );
    assert_eq!(concept_text("[]"), "");
}

#[test]
fn concept_text_falls_back_to_the_reply() {
    assert_eq!(concept_text("  no array here  "), "no array here");
    assert_eq!(concept_text("] inverted ["), "] inverted [");
    assert_eq!(concept_text("[1, 2]"), "[1, 2]");
}

#[test]
fn concepts_or_reply_uses_the_parse() {
    assert_eq!(
        concepts_or_reply(Some(vec!["a".to_string(), "b c".to_string()]), "reply"),
        "a b c"
    );
    assert_eq!(concepts_or_reply(None, "reply"), "reply");
}
