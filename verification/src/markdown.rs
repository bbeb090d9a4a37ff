//! Small markdown builders: headings and fenced code blocks.
use vstd::prelude::*;

verus! {

use vstd::string::StringExecFns;

/// A level-1 heading line.
pub open spec fn h1_text(text: Seq<char>) -> Seq<char> {
    "# "@ + text
}

/// A level-2 heading line.
pub open spec fn h2_text(text: Seq<char>) -> Seq<char> {
    "## "@ + text
}

/// A fenced code block with a language tag.
pub open spec fn fenced_block_text(tag: Seq<char>, code: Seq<char>) -> Seq<char> {
    "```"@ + tag + "\n"@ + code + "\n```"@
}

pub open spec fn sh_block_text(code: Seq<char>) -> Seq<char> {
    fenced_block_text("sh"@, code)
}

pub open spec fn js_block_text(code: Seq<char>) -> Seq<char> {
    fenced_block_text("js"@, code)
}

pub open spec fn rust_block_text(code: Seq<char>) -> Seq<char> {
    fenced_block_text("rust"@, code)
}

/// A level-1 markdown heading.
pub fn h1(text: &str) -> (r: String)
    ensures
        r@ == h1_text(text@),
{
    let mut r = String::from_str("# ");
    r.append(text);
    r
}

/// A level-2 markdown heading.
pub fn h2(text: &str) -> (r: String)
    ensures
        r@ == h2_text(text@),
{
    let mut r = String::from_str("## ");
    r.append(text);
    r
}

fn fenced_code_block(tag: &str, code: &str) -> (r: String)
    ensures
        r@ == fenced_block_text(tag@, code@),
{
    let mut r = String::from_str("```");
    r.append(tag);
    r.append("\n");
    r.append(code);
    r.append("\n```");
    proof {
        assert(r@ =~= fenced_block_text(tag@, code@));
    }
    r
}

/// A fenced code block tagged as shell input.
pub fn fenced_sh_code_block(code: &str) -> (r: String)
    ensures
        r@ == sh_block_text(code@),
{
    fenced_code_block("sh", code)
}

/// A fenced code block tagged as JavaScript source.
pub fn fenced_js_code_block(code: &str) -> (r: String)
    ensures
        r@ == js_block_text(code@),
{
    fenced_code_block("js", code)
}

/// A fenced code block tagged as Rust source.
pub fn fenced_rs_code_block(code: &str) -> (r: String)
    ensures
        r@ == rust_block_text(code@),
{
    fenced_code_block("rust", code)
}

} // verus!
