//! The instruction text sent to the interpreter, and the prompt built from it.
//!
//! A prompt is the instruction, a blank line, and the document. The document
//! is appended character for character: it is never escaped, reflowed or cut.

use crate::lang::{lang_to_prompt, Lang};
use vstd::prelude::*;

verus! {

/// Opens the instruction: tells the assistant that it acts as an interpreter.
pub const OPENING: &'static str = "あなたは通訳者です。";

/// Follows the source language's name: what is handed over, and in which form.
pub const AFTER_SOURCE: &'static str = "で与えられたマークダウンの内容を";

/// Follows the target language's name: asks for the rendering, and forbids
/// changes of meaning or phrasing.
pub const AFTER_TARGET: &'static str =
    "のマークダウンに翻訳してください。ただし、内容や言葉の言い回しは勝手に改変しないでください。";

/// Stands between the instruction and the document: the end of the
/// instruction's line, then an empty line.
pub const SEPARATOR: &'static str = "\n\n";

/// The instruction for rendering a document written in `source` into `target`.
pub open spec fn instruction(source: Lang, target: Lang) -> Seq<char> {
    OPENING@ + source.label() + AFTER_SOURCE@ + target.label() + AFTER_TARGET@
}

/// Everything that stands before the document: the instruction and the blank
/// line after it.
pub open spec fn preamble(source: Lang, target: Lang) -> Seq<char> {
    instruction(source, target) + SEPARATOR@
}

/// The whole prompt: the preamble, then the document as it is.
pub open spec fn prompt_text(content: Seq<char>, source: Lang, target: Lang) -> Seq<char> {
    preamble(source, target) + content
}

/// Builds the prompt that asks for `content`, written in language `i`, to be
/// rendered into language `o`.
///
/// The result is the instruction naming both languages, a blank line, and
/// `content` unchanged. Every document is accepted, the empty one too.
pub fn create_prompt(content: &str, i: Lang, o: Lang) -> (prompt: String)
    ensures
        prompt@ == prompt_text(content@, i, o),
        content@.is_suffix_of(prompt@),
        prompt@.len() == preamble(i, o).len() + content@.len(),
        prompt@.take(preamble(i, o).len() as int) == preamble(i, o),
        prompt@.skip(preamble(i, o).len() as int) == content@,
{
    proof {
        lemma_prompt_ends_with_document(content@, i, o);
        lemma_document_is_embedded_unchanged(content@, i, o);
    }
    let mut prompt = String::from_str(OPENING);
    let source = lang_to_prompt(i);
    prompt.append(source.as_str());
    prompt.append(AFTER_SOURCE);
    let target = lang_to_prompt(o);
    prompt.append(target.as_str());
    prompt.append(AFTER_TARGET);
    prompt.append(SEPARATOR);
    prompt.append(content);
    prompt
}

/// The prompt ends with the document: the document is its trailing part,
/// character for character, and nothing follows it.
pub proof fn lemma_prompt_ends_with_document(content: Seq<char>, source: Lang, target: Lang)
    ensures
        content.is_suffix_of(prompt_text(content, source, target)),
{
    let prompt = prompt_text(content, source, target);
    assert(prompt.subrange(prompt.len() - content.len(), prompt.len() as int) =~= content);
}

/// Building a prompt neither alters nor escapes nor cuts the document,
/// whatever characters it holds: the prompt splits, at a place that depends
/// on the two languages alone, into the preamble and the document itself.
pub proof fn lemma_document_is_embedded_unchanged(
    content: Seq<char>,
    source: Lang,
    target: Lang,
)
    ensures
        prompt_text(content, source, target).len() == preamble(source, target).len()
            + content.len(),
        prompt_text(content, source, target).take(preamble(source, target).len() as int)
            == preamble(source, target),
        prompt_text(content, source, target).skip(preamble(source, target).len() as int)
            == content,
{
    let prompt = prompt_text(content, source, target);
    let at = preamble(source, target).len() as int;
    assert(prompt.take(at) =~= preamble(source, target));
    assert(prompt.skip(at) =~= content);
}

/// For one pair of languages, two prompts are the same text only if their
/// documents are: no two documents are mapped to one prompt.
pub proof fn lemma_prompts_differ_with_documents(
    first: Seq<char>,
    second: Seq<char>,
    source: Lang,
    target: Lang,
)
    ensures
        prompt_text(first, source, target) == prompt_text(second, source, target) <==> first
            == second,
{
    lemma_document_is_embedded_unchanged(first, source, target);
    lemma_document_is_embedded_unchanged(second, source, target);
}

/// The instruction and the document are exactly one blank line apart: the
/// separator is two line feeds, and the instruction itself ends with its full
/// stop, not with a line feed.
pub proof fn lemma_separator_is_blank_line(source: Lang, target: Lang)
    ensures
        SEPARATOR@ == seq!['\n', '\n'],
        instruction(source, target).last() == '。',
{
    reveal_strlit("\n\n");
    reveal_strlit(
        "のマークダウンに翻訳してください。ただし、内容や言葉の言い回しは勝手に改変しないでください。",
    );
    assert(SEPARATOR@ =~= seq!['\n', '\n']);
    assert(instruction(source, target).last() == AFTER_TARGET@.last());
}

/// The instruction tells the language pair apart: two instructions are the
/// same text only if they name the same source and the same target.
pub proof fn lemma_instruction_names_the_pair(
    source: Lang,
    target: Lang,
    other_source: Lang,
    other_target: Lang,
)
    ensures
        instruction(source, target) == instruction(other_source, other_target) <==> source
            == other_source && target == other_target,
{
    reveal_strlit("日本語");
    reveal_strlit("英語");
    reveal_strlit("中国語");
    let one = instruction(source, target);
    let two = instruction(other_source, other_target);
    let at_source = OPENING@.len() as int;
    assert(one[at_source] == source.label()[0]);
    assert(two[at_source] == other_source.label()[0]);
    if source == other_source {
        let at_target = at_source + source.label().len() + AFTER_SOURCE@.len();
        assert(one[at_target] == target.label()[0]);
        assert(two[at_target] == other_target.label()[0]);
    }
}

} // verus!
