//! Shader source composer: the fixed texts of the viewer and the fragment
//! source built from them.

use vstd::prelude::*;
use vstd::string::*;

verus! {

/// The fragment source that the compiler is handed for a user shader `body`:
/// the preamble, the body and the postamble, joined with nothing in between.
pub open spec fn composed(preamble: Seq<char>, body: Seq<char>, postamble: Seq<char>) -> Seq<char> {
    preamble + body + postamble
}

/// Joins the preamble, the user shader and the postamble verbatim.
pub fn compose(preamble: &str, body: &str, postamble: &str) -> (source: String)
    ensures
        source@ == composed(preamble@, body@, postamble@),
{
    let mut source = String::from_str(preamble);
    source.append(body);
    source.append(postamble);
    source
}

/// Number of line breaks among the first `upto` characters of `text`: the
/// number of lines that lie wholly before position `upto`.
pub open spec fn line_breaks(text: Seq<char>, upto: int) -> nat
    recommends
        0 <= upto <= text.len(),
    decreases upto,
{
    if upto <= 0 {
        0
    } else {
        line_breaks(text, upto - 1) + if text[upto - 1] == '\n' {
            1nat
        } else {
            0nat
        }
    }
}

/// The user shader stands in the composed source as it is, right behind the
/// preamble, and its lines keep their order and distance: every position of
/// it lies exactly as many lines further down as the preamble has line
/// breaks. A preamble that ends by resetting the compiler's line counter
/// therefore makes the compiler count the user's lines as the file does.
pub proof fn law_user_lines_shift_by_preamble(
    preamble: Seq<char>,
    body: Seq<char>,
    postamble: Seq<char>,
    position: int,
)
    requires
        0 <= position <= body.len(),
    ensures
        composed(preamble, body, postamble).subrange(
            preamble.len() as int,
            (preamble.len() + body.len()) as int,
        ) == body,
        line_breaks(composed(preamble, body, postamble), preamble.len() + position) == line_breaks(
            preamble,
            preamble.len() as int,
        ) + line_breaks(body, position),
    decreases position,
{
    let source = composed(preamble, body, postamble);
    assert(source.subrange(preamble.len() as int, (preamble.len() + body.len()) as int) =~= body);
    if position == 0 {
        lemma_line_breaks_of_prefix(preamble, body + postamble, preamble.len() as int);
        assert(preamble + (body + postamble) =~= source);
    } else {
        law_user_lines_shift_by_preamble(preamble, body, postamble, position - 1);
        assert(source[preamble.len() + position - 1] == body[position - 1]);
    }
}

/// Line breaks before a position depend on the text before it only.
proof fn lemma_line_breaks_of_prefix(text: Seq<char>, more: Seq<char>, upto: int)
    requires
        0 <= upto <= text.len(),
    ensures
        line_breaks(text + more, upto) == line_breaks(text, upto),
    decreases upto,
{
    if upto > 0 {
        lemma_line_breaks_of_prefix(text, more, upto - 1);
    }
}

/// The texts that are fixed for the life of the process: the vertex shader
/// that every program is linked against, and the text put before and after
/// every user shader.
#[derive(Debug, PartialEq, Eq)]
pub struct ShaderAssets {
    /// Source of the vertex shader that draws the full-screen triangle.
    pub vertex: String,
    /// Text that precedes the user shader: declarations of the uniforms.
    pub preamble: String,
    /// Text that follows the user shader: the entry point that calls it.
    pub postamble: String,
}

impl ShaderAssets {
    /// The fragment source for a user shader `body` under these assets.
    pub open spec fn fragment(self, body: Seq<char>) -> Seq<char> {
        composed(self.preamble@, body, self.postamble@)
    }

    /// Wraps a user shader in the preamble and the postamble.
    pub fn wrap(&self, body: &str) -> (source: String)
        ensures
            source@ == self.fragment(body@),
    {
        compose(self.preamble.as_str(), body, self.postamble.as_str())
    }
}

} // verus!
