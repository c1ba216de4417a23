//! Neutralization of untrusted text before it reaches a display surface or a
//! shell. HTML escaping rewrites markup metacharacters into entities;
//! command scanning refuses text holding shell metacharacters outright — the
//! design rejects ambiguous input rather than guessing a safe form.

use vstd::prelude::*;
use vstd::string::{StrSliceExecFns, StringSliceAdditionalSpecFns};
use crate::text::push_char;

verus! {

/// Untrusted text held a disallowed injection pattern; the input is rejected
/// whole, never cleaned and passed through.
#[derive(Clone, Copy, Debug, PartialEq, Eq, Structural)]
pub struct SecurityError;

impl SecurityError {
    /// A short human-readable description of the rejection.
    pub fn message(&self) -> (r: &'static str)
        ensures
            r@.len() > 0,
    {
        proof {
            reveal_strlit("input holds a command-injection pattern");
        }
        "input holds a command-injection pattern"
    }
}

/// The characters a display surface could interpret as markup.
pub open spec fn html_special(c: char) -> bool {
    c == '&' || c == '<' || c == '>' || c == '"' || c == '\''
}

/// The entity spelling of one character: markup metacharacters become
/// entities, every other character stands unchanged.
pub open spec fn html_escape_char(c: char) -> Seq<char> {
    if c == '&' {
        seq!['&', 'a', 'm', 'p', ';']
    } else if c == '<' {
        seq!['&', 'l', 't', ';']
    } else if c == '>' {
        seq!['&', 'g', 't', ';']
    } else if c == '"' {
        seq!['&', 'q', 'u', 'o', 't', ';']
    } else if c == '\'' {
        seq!['&', '#', 'x', '2', '7', ';']
    } else {
        seq![c]
    }
}

/// The whole text with every markup metacharacter escaped.
pub open spec fn html_escaped(s: Seq<char>) -> Seq<char>
    decreases s.len(),
{
    if s.len() == 0 {
        Seq::<char>::empty()
    } else {
        html_escape_char(s[0]) + html_escaped(s.drop_first())
    }
}

proof fn lemma_html_escaped_snoc(s: Seq<char>, c: char)
    ensures
        html_escaped(s.push(c)) == html_escaped(s) + html_escape_char(c),
    decreases s.len(),
{
    if s.len() == 0 {
        assert(s.push(c).drop_first() =~= Seq::<char>::empty());
        assert(html_escaped(Seq::<char>::empty()) == Seq::<char>::empty());
        assert(s =~= Seq::<char>::empty());
        assert(html_escaped(s.push(c)) =~= html_escaped(s) + html_escape_char(c));
    } else {
        assert(s.push(c).drop_first() =~= s.drop_first().push(c));
        lemma_html_escaped_snoc(s.drop_first(), c);
        assert(html_escaped(s.push(c)) =~= html_escaped(s) + html_escape_char(c));
    }
}

/// Escaped text can no longer open or close a tag: no character of it is a
/// raw `<` or `>`, so a display surface cannot read it as executable markup.
pub proof fn lemma_escaped_no_markup(s: Seq<char>)
    ensures
        forall|i: int|
            0 <= i < html_escaped(s).len() ==> #[trigger] html_escaped(s)[i] != '<'
                && html_escaped(s)[i] != '>',
    decreases s.len(),
{
    if s.len() > 0 {
        lemma_escaped_no_markup(s.drop_first());
        assert forall|i: int|
            0 <= i < html_escaped(s).len() implies #[trigger] html_escaped(s)[i] != '<'
            && html_escaped(s)[i] != '>' by {
            let head = html_escape_char(s[0]);
            if i >= head.len() {
                assert(html_escaped(s)[i] == html_escaped(s.drop_first())[i - head.len()]);
            }
        }
    }
}

/// The shell metacharacters and control characters that mark a possible
/// command injection: separators, pipes, backticks, substitution,
/// redirection, and every control character.
pub open spec fn command_char_blocked(c: char) -> bool {
    c == ';' || c == '|' || c == '&' || c == '`' || c == '$' || c == '<' || c == '>' || c < ' '
        || c == '\u{7f}'
}

/// Neutralizes text received from external channels before the application
/// interprets it.
pub struct MessageSanitizer {}

impl MessageSanitizer {
    /// Escapes markup metacharacters (`&`, `<`, `>`, `"`, `'`) into HTML
    /// entities so the text cannot be interpreted as executable markup.
    /// Always succeeds; the result is exactly the input with each special
    /// character replaced by its entity.
    pub fn sanitize_html(text: &str) -> (r: String)
        ensures
            r@ == html_escaped(text@),
    {
        let n = text.unicode_len();
        let mut out = String::new();
        let mut i: usize = 0;
        while i < n
            invariant
                n == text@.len(),
                0 <= i <= n,
                out@ == html_escaped(text@.take(i as int)),
            decreases n - i,
        {
            let c = text.get_char(i);
            let ghost pre = out@;
            if c == '&' {
                push_str5(&mut out, '&', 'a', 'm', 'p', ';');
            } else if c == '<' {
                push_char(&mut out, '&');
                push_char(&mut out, 'l');
                push_char(&mut out, 't');
                push_char(&mut out, ';');
            } else if c == '>' {
                push_char(&mut out, '&');
                push_char(&mut out, 'g');
                push_char(&mut out, 't');
                push_char(&mut out, ';');
            } else if c == '"' {
                push_str5(&mut out, '&', 'q', 'u', 'o', 't');
                push_char(&mut out, ';');
            } else if c == '\'' {
                push_str5(&mut out, '&', '#', 'x', '2', '7');
                push_char(&mut out, ';');
            } else {
                push_char(&mut out, c);
            }
            proof {
                lemma_html_escaped_snoc(text@.take(i as int), text@[i as int]);
                assert(text@.take(i as int).push(text@[i as int]) =~= text@.take(i + 1 as int));
                assert(out@ =~= pre + html_escape_char(text@[i as int]));
                assert(out@ =~= html_escaped(text@.take(i + 1 as int)));
            }
            i = i + 1;
        }
        proof {
            assert(text@.take(n as int) =~= text@);
        }
        out
    }

    /// Scans for shell metacharacters and control characters; any hit is a
    /// hard failure. On success the text is returned unchanged — exactly the
    /// inputs free of every blocked character pass.
    pub fn sanitize_command(text: &str) -> (r: Result<String, SecurityError>)
        ensures
            r matches Ok(s) ==> (s@ == text@ && forall|i: int|
                0 <= i < text@.len() ==> !command_char_blocked(#[trigger] text@[i])),
            r is Err <==> exists|i: int|
                0 <= i < text@.len() && command_char_blocked(#[trigger] text@[i]),
    {
        let n = text.unicode_len();
        let mut i: usize = 0;
        while i < n
            invariant
                n == text@.len(),
                0 <= i <= n,
                forall|j: int| 0 <= j < i ==> !command_char_blocked(#[trigger] text@[j]),
            decreases n - i,
        {
            let c = text.get_char(i);
            if c == ';' || c == '|' || c == '&' || c == '`' || c == '$' || c == '<' || c == '>'
                || c < ' ' || c == '\u{7f}' {
                proof {
                    assert(command_char_blocked(text@[i as int]));
                }
                return Err(SecurityError);
            }
            i = i + 1;
        }
        Ok(text.to_owned())
    }

    /// The inbound-frame pipeline: escape markup first, then refuse any
    /// remaining shell metacharacters. What comes out is the escaped text,
    /// and only when that text is free of every blocked character.
    pub fn sanitize_message(message: &str) -> (r: Result<String, SecurityError>)
        ensures
            r matches Ok(s) ==> (s@ == html_escaped(message@) && forall|i: int|
                0 <= i < s@.len() ==> !command_char_blocked(#[trigger] s@[i])),
            r is Err <==> exists|i: int|
                0 <= i < html_escaped(message@).len() && command_char_blocked(
                    #[trigger] html_escaped(message@)[i],
                ),
    {
        let html_safe = Self::sanitize_html(message);
        Self::sanitize_command(html_safe.as_str())
    }
}

/// Appends five characters; a shorthand over the `String::push` boundary.
fn push_str5(s: &mut String, a: char, b: char, c: char, d: char, e: char)
    ensures
        final(s)@ == old(s)@ + seq![a, b, c, d, e],
{
    push_char(s, a);
    push_char(s, b);
    push_char(s, c);
    push_char(s, d);
    push_char(s, e);
    proof {
        assert(s@ =~= old(s)@ + seq![a, b, c, d, e]);
    }
}

} // verus!
