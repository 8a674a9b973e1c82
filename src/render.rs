use vstd::prelude::*;

use crate::chain::{lemma_walk_from_failure, ErrorSourceIter};
use crate::error::Error;

verus! {

/// A character as it stands in HTML text: `&`, `<`, `>` and `"` become
/// entities, every other character stays as it is.
pub open spec fn escape_char(c: char) -> Seq<char> {
    if c == '&' {
        "&amp;"@
    } else if c == '<' {
        "&lt;"@
    } else if c == '>' {
        "&gt;"@
    } else if c == '"' {
        "&quot;"@
    } else {
        seq![c]
    }
}

/// Text made safe to stand in HTML, character by character.
pub open spec fn escaped(s: Seq<char>) -> Seq<char>
    decreases s.len(),
{
    if s.len() == 0 {
        Seq::empty()
    } else {
        escaped(s.drop_last()) + escape_char(s.last())
    }
}

/// Relies on maud's `Render` impl for `str`, which escapes `&`, `<`, `>` and
/// `"` as entities and passes every other character through.
#[verifier::external_body]
pub(crate) fn escape_html(s: &str) -> (r: String)
    ensures
        r@ == escaped(s@),
{
    let mut out = String::new();
    maud::Render::render_to(s, &mut out);
    out
}

/// `n` spaces.
pub open spec fn spaces(n: nat) -> Seq<char> {
    Seq::new(n, |i: int| ' ')
}

/// The line for the cause at `depth` below the failure (counting from 0): a
/// newline, two spaces per level, the corner marker, a space and the cause's
/// text.
pub open spec fn cause_line(depth: nat, text: Seq<char>) -> Seq<char> {
    "\n"@ + spaces(2 * depth) + "<span class=\"text-violet-500 font-bold\">\u{2514}</span> "@
        + escaped(text)
}

/// The lines for a sequence of causes, the first at depth 0.
pub open spec fn cause_lines(causes: Seq<Seq<char>>) -> Seq<char>
    decreases causes.len(),
{
    if causes.len() == 0 {
        Seq::empty()
    } else {
        cause_lines(causes.drop_last()) + cause_line((causes.len() - 1) as nat, causes.last())
    }
}

/// A code block showing a chain: its first text, then a line for each cause.
pub open spec fn chain_block(chain: Seq<Seq<char>>) -> Seq<char> {
    "<pre class=\"bg-stone-200 dark:bg-stone-800 overflow-x-auto p-4\"><code>"@ + escaped(chain[0])
        + cause_lines(chain.drop_first()) + "</code></pre>"@
}

/// The decimal digits.
pub open spec fn digits() -> Seq<char> {
    "0123456789"@
}

/// The three decimal digits of a status code.
pub open spec fn status_text(code: u16) -> Seq<char> {
    seq![digits()[(code / 100) as int], digits()[((code / 10) % 10) as int], digits()[(code % 10) as int]]
}

fn decimal_digit(d: u16) -> (r: &'static str)
    requires
        d < 10,
    ensures
        r@ == seq![digits()[d as int]],
{
    let all = "0123456789";
    proof {
        reveal_strlit("0123456789");
    }
    let r = all.substring_char(d as usize, d as usize + 1);
    assert(r@ =~= seq![digits()[d as int]]);
    r
}

impl Error {
    /// The markup that presents this failure and its causes.
    pub open spec fn rendered(self) -> Seq<char> {
        chain_block(self.chain())
    }

    /// The content of the error page: a heading with the status code and the
    /// word "error", and the failure's block beneath it.
    pub open spec fn page_content(self) -> Seq<char> {
        "<h1>"@ + status_text(self.status()) + " error</h1>"@ + self.rendered()
    }

    /// Renders this failure as a code block: its message, then one line for
    /// each cause, indented two spaces deeper than the one before.
    pub fn render(&self) -> (r: String)
        ensures
            r@ == self.rendered(),
    {
        let ghost chain = self.chain();
        let ghost causes = chain.drop_first();
        let mut out = String::from_str(
            "<pre class=\"bg-stone-200 dark:bg-stone-800 overflow-x-auto p-4\"><code>",
        );
        let mut walk = ErrorSourceIter::new(self);
        proof {
            lemma_walk_from_failure(self, walk);
        }
        let _ = walk.next();
        let message = self.message();
        out.append(escape_html(message.as_str()).as_str());
        let mut pad = String::new();
        let ghost mut depth: nat = 0;
        proof {
            assert(causes.take(0) =~= Seq::<Seq<char>>::empty());
            assert(pad@ =~= spaces(0));
            assert(walk.remaining() =~= causes.skip(0));
        }
        loop
            invariant
                depth <= causes.len(),
                walk.remaining() == causes.skip(depth as int),
                pad@ == spaces(2 * depth),
                out@ == "<pre class=\"bg-stone-200 dark:bg-stone-800 overflow-x-auto p-4\"><code>"@
                    + escaped(chain[0]) + cause_lines(causes.take(depth as int)),
            ensures
                out@ == "<pre class=\"bg-stone-200 dark:bg-stone-800 overflow-x-auto p-4\"><code>"@
                    + escaped(chain[0]) + cause_lines(causes),
            decreases walk.remaining().len(),
        {
            match walk.next() {
                Some(link) => {
                    let text = link.message();
                    out.append("\n");
                    out.append(pad.as_str());
                    out.append("<span class=\"text-violet-500 font-bold\">\u{2514}</span> ");
                    out.append(escape_html(text.as_str()).as_str());
                    pad.append("  ");
                    proof {
                        reveal_strlit("  ");
                        assert(pad@ =~= spaces(2 * (depth + 1)));
                        assert(causes.take(depth + 1 as int).drop_last() =~= causes.take(depth as int));
                        assert(causes.skip(depth + 1 as int) =~= causes.skip(depth as int).drop_first());
                        depth = depth + 1;
                    }
                },
                None => {
                    assert(causes.take(depth as int) =~= causes);
                    break ;
                },
            }
        }
        out.append("</code></pre>");
        out
    }

    /// The content of the error page for this failure.
    pub fn page(&self) -> (r: String)
        ensures
            r@ == self.page_content(),
    {
        let code = self.status_code();
        let mut out = String::from_str("<h1>");
        out.append(decimal_digit(code / 100));
        out.append(decimal_digit((code / 10) % 10));
        out.append(decimal_digit(code % 10));
        out.append(" error</h1>");
        out.append(self.render().as_str());
        assert(out@ =~= self.page_content());
        out
    }

    /// Turns the failure into what an HTTP response is made of: the status
    /// code and the page content.
    pub fn into_response(self) -> (r: (u16, String))
        ensures
            r.0 == self.status(),
            r.1@ == self.page_content(),
    {
        let body = self.page();
        (self.status_code(), body)
    }
}

} // verus!
