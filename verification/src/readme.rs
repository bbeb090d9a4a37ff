//! The document model: titled sections rendered into one markdown text.
use vstd::prelude::*;

verus! {

use vstd::string::StringExecFns;
use crate::text::join_all;
use crate::text::lemma_join_all_push;

/// One titled block of the generated document.
pub struct Section {
    pub title: String,
    pub body: String,
}

/// A section's markdown: the title line, a line break, and the body.
pub open spec fn section_text(s: (Seq<char>, Seq<char>)) -> Seq<char> {
    s.0 + seq!['\n'] + s.1
}

pub open spec fn texts_of(ss: Seq<(Seq<char>, Seq<char>)>) -> Seq<Seq<char>> {
    ss.map_values(|s: (Seq<char>, Seq<char>)| section_text(s))
}

/// The blank line that separates two sections.
pub open spec fn blank_line() -> Seq<char> {
    seq!['\n', '\n']
}

/// A document's markdown: the section texts joined by a blank line.
pub open spec fn sections_text(ss: Seq<(Seq<char>, Seq<char>)>) -> Seq<char> {
    join_all(texts_of(ss), blank_line())
}

impl Section {
    /// The title and body as sequences of characters.
    pub open spec fn pair(&self) -> (Seq<char>, Seq<char>) {
        (self.title@, self.body@)
    }

    pub fn render(&self) -> (r: String)
        ensures
            r@ == section_text(self.pair()),
    {
        let mut r = self.title.clone();
        r.append("\n");
        r.append(self.body.as_str());
        proof {
            reveal_strlit("\n");
            assert("\n"@ =~= seq!['\n']);
            assert(r@ =~= section_text(self.pair()));
        }
        r
    }
}

/// An ordered list of sections; insertion order is presentation order.
pub struct Readme {
    sections: Vec<Section>,
}

impl Readme {
    /// The sections this document holds, as pairs of title and body text.
    pub closed spec fn spec_sections(&self) -> Seq<(Seq<char>, Seq<char>)> {
        self.sections@.map_values(|s: Section| s.pair())
    }

    pub fn new(sections: Vec<Section>) -> (r: Readme)
        ensures
            r.spec_sections() == sections@.map_values(|s: Section| s.pair()),
    {
        Readme { sections }
    }

    pub fn render(&self) -> (r: String)
        ensures
            r@ == sections_text(self.spec_sections()),
    {
        let mut out = String::new();
        let n: usize = self.sections.len();
        let mut i: usize = 0;
        while i < n
            invariant
                0 <= i <= n,
                n == self.sections@.len(),
                out@ == join_all(texts_of(self.spec_sections().take(i as int)), blank_line()),
            decreases n - i,
        {
            let ghost prefix = texts_of(self.spec_sections().take(i as int));
            if i > 0 {
                out.append("\n\n");
            }
            let piece = self.sections[i].render();
            out.append(piece.as_str());
            proof {
                let s = self.spec_sections()[i as int];
                assert(texts_of(self.spec_sections().take(i + 1)) =~= prefix.push(
                    section_text(s),
                ));
                lemma_join_all_push(prefix, blank_line(), section_text(s));
                reveal_strlit("\n\n");
                assert("\n\n"@ =~= blank_line());
                if i == 0 {
                    assert(out@ =~= join_all(
                        texts_of(self.spec_sections().take(i + 1)),
                        blank_line(),
                    ));
                } else {
                    assert(prefix.len() > 0);
                    assert(out@ =~= join_all(
                        texts_of(self.spec_sections().take(i + 1)),
                        blank_line(),
                    ));
                }
            }
            i = i + 1;
        }
        proof {
            assert(self.spec_sections().take(n as int) =~= self.spec_sections());
        }
        out
    }
}

/// A document of exactly two sections renders as the first title, a line
/// break, the first body, a blank line, the second title, a line break, and
/// the second body.
pub proof fn lemma_two_sections_render(a: (Seq<char>, Seq<char>), b: (Seq<char>, Seq<char>))
    ensures
        sections_text(seq![a, b]) == a.0 + seq!['\n'] + a.1 + seq!['\n', '\n'] + b.0 + seq!['\n']
            + b.1,
{
    let items = texts_of(seq![a, b]);
    assert(items =~= seq![section_text(a), section_text(b)]);
    assert(items.drop_first() =~= seq![section_text(b)]);
    assert(join_all(items, blank_line()) == items[0] + blank_line() + join_all(
        items.drop_first(),
        blank_line(),
    ));
    assert(sections_text(seq![a, b]) =~= a.0 + seq!['\n'] + a.1 + seq!['\n', '\n'] + b.0 + seq![
        '\n',
    ] + b.1);
}

} // verus!
