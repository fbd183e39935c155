use vstd::prelude::*;
use crate::errors::EngineError;
use crate::text::{first_non_ws, is_whitespace_char, push_str_chars};
use crate::capability::chars_to_string;

verus! {

/// One retrieved context record: the text of the chunk, and its metadata
/// already rendered as JSON text. Callers keep the list in relevance order;
/// that order is preserved verbatim into the prompt.
pub struct ContextSnippet {
    pub content: String,
    pub metadata: String,
}

/// The hexadecimal digit for `n`, lower case.
pub open spec fn hex_digit(n: int) -> char {
    if n == 0 {
        '0'
    } else if n == 1 {
        '1'
    } else if n == 2 {
        '2'
    } else if n == 3 {
        '3'
    } else if n == 4 {
        '4'
    } else if n == 5 {
        '5'
    } else if n == 6 {
        '6'
    } else if n == 7 {
        '7'
    } else if n == 8 {
        '8'
    } else if n == 9 {
        '9'
    } else if n == 10 {
        'a'
    } else if n == 11 {
        'b'
    } else if n == 12 {
        'c'
    } else if n == 13 {
        'd'
    } else if n == 14 {
        'e'
    } else {
        'f'
    }
}

/// How one character is written inside a JSON string literal: quote and
/// backslash get a backslash escape, control characters get their short
/// escapes or a `\u00..` form, everything else stands as itself.
pub open spec fn escaped_char(c: char) -> Seq<char> {
    if c == '"' {
        seq!['\\', '"']
    } else if c == '\\' {
        seq!['\\', '\\']
    } else if c == '\u{8}' {
        seq!['\\', 'b']
    } else if c == '\t' {
        seq!['\\', 't']
    } else if c == '\n' {
        seq!['\\', 'n']
    } else if c == '\u{c}' {
        seq!['\\', 'f']
    } else if c == '\r' {
        seq!['\\', 'r']
    } else if (c as u32) < 0x20 {
        seq!['\\', 'u', '0', '0', hex_digit(c as int / 16), hex_digit(c as int % 16)]
    } else {
        seq![c]
    }
}

/// `s` written as the body of a JSON string literal.
pub open spec fn json_escaped(s: Seq<char>) -> Seq<char>
    decreases s.len(),
{
    if s.len() == 0 {
        Seq::empty()
    } else {
        json_escaped(s.drop_last()) + escaped_char(s.last())
    }
}

/// One snippet as a JSON record with its `content` and `metadata` fields; the
/// metadata text is already JSON and is spliced in verbatim.
pub open spec fn snippet_json(s: ContextSnippet) -> Seq<char> {
    "{\"content\":\""@ + json_escaped(s.content@) + "\",\"metadata\":"@ + s.metadata@ + "}"@
}

/// The snippet records joined by commas.
pub open spec fn snippets_join(ss: Seq<ContextSnippet>) -> Seq<char>
    decreases ss.len(),
{
    if ss.len() == 0 {
        Seq::empty()
    } else if ss.len() == 1 {
        snippet_json(ss[0])
    } else {
        snippets_join(ss.drop_last()) + ","@ + snippet_json(ss.last())
    }
}

/// The whole snippet list as a JSON array, input order kept.
pub open spec fn snippets_json(ss: Seq<ContextSnippet>) -> Seq<char> {
    "["@ + snippets_join(ss) + "]"@
}

/// A query is blank when it holds nothing but whitespace.
pub open spec fn is_blank(s: Seq<char>) -> bool {
    first_non_ws(s, 0) == s.len()
}

/// The full instruction string handed to the model: persona statement, the
/// long-form date, the literal query, and the snippet list as JSON.
pub open spec fn prompt_text(query: Seq<char>, date_text: Seq<char>, context: Seq<char>) -> Seq<
    char,
> {
    "<|im_start|>system\nAs a friendly and helpful AI assistant named Tera. Your answer should be very concise and to the point. Do not repeat question or references. Today is "@
        + date_text + "<|im_end|>\n<|im_start|>user\nquestion: \""@ + query
        + "\"\nreferences: \""@ + context + "\"\n<|im_end|>\n<|im_start|>assistant\n"@
}

/// Whether `s` is empty or whitespace-only.
pub fn is_blank_text(s: &str) -> (r: bool)
    ensures
        r == is_blank(s@),
{
    let n: usize = s.unicode_len();
    let mut i: usize = 0;
    while i < n && is_whitespace_char(s.get_char(i))
        invariant
            0 <= i <= n,
            n == s@.len(),
            first_non_ws(s@, 0) == first_non_ws(s@, i as int),
        decreases n - i,
    {
        assert(first_non_ws(s@, i as int) == first_non_ws(s@, i + 1));
        i = i + 1;
    }
    proof {
        crate::text::lemma_first_non_ws(s@, i as int);
        if i < n {
            assert(first_non_ws(s@, i as int) == i);
        }
    }
    i == n
}

/// Append the digit pair of a control character's `\u00..` escape.
fn push_hex_byte(out: &mut Vec<char>, code: u32)
    requires
        code < 0x20,
    ensures
        final(out)@ == old(out)@ + seq![hex_digit(code as int / 16), hex_digit(code as int % 16)],
{
    let hi: u32 = code / 16;
    let lo: u32 = code % 16;
    out.push(hex_digit_char(hi));
    out.push(hex_digit_char(lo));
    proof {
        assert(out@ =~= old(out)@ + seq![
            hex_digit(code as int / 16),
            hex_digit(code as int % 16),
        ]);
    }
}

/// The hexadecimal digit for `n`, lower case.
fn hex_digit_char(n: u32) -> (r: char)
    requires
        n < 16,
    ensures
        r == hex_digit(n as int),
{
    if n == 0 {
        '0'
    } else if n == 1 {
        '1'
    } else if n == 2 {
        '2'
    } else if n == 3 {
        '3'
    } else if n == 4 {
        '4'
    } else if n == 5 {
        '5'
    } else if n == 6 {
        '6'
    } else if n == 7 {
        '7'
    } else if n == 8 {
        '8'
    } else if n == 9 {
        '9'
    } else if n == 10 {
        'a'
    } else if n == 11 {
        'b'
    } else if n == 12 {
        'c'
    } else if n == 13 {
        'd'
    } else if n == 14 {
        'e'
    } else {
        'f'
    }
}

/// Append the JSON escape of one character.
fn push_escaped_char(out: &mut Vec<char>, c: char)
    ensures
        final(out)@ == old(out)@ + escaped_char(c),
{
    if c == '"' {
        out.push('\\');
        out.push('"');
    } else if c == '\\' {
        out.push('\\');
        out.push('\\');
    } else if c == '\u{8}' {
        out.push('\\');
        out.push('b');
    } else if c == '\t' {
        out.push('\\');
        out.push('t');
    } else if c == '\n' {
        out.push('\\');
        out.push('n');
    } else if c == '\u{c}' {
        out.push('\\');
        out.push('f');
    } else if c == '\r' {
        out.push('\\');
        out.push('r');
    } else if (c as u32) < 0x20 {
        out.push('\\');
        out.push('u');
        out.push('0');
        out.push('0');
        push_hex_byte(out, c as u32);
    } else {
        out.push(c);
    }
    proof {
        assert(out@ =~= old(out)@ + escaped_char(c));
    }
}

/// Append `s` JSON-escaped.
fn push_escaped(out: &mut Vec<char>, s: &str)
    ensures
        final(out)@ == old(out)@ + json_escaped(s@),
{
    let n: usize = s.unicode_len();
    let mut i: usize = 0;
    while i < n
        invariant
            0 <= i <= n,
            n == s@.len(),
            out@ == old(out)@ + json_escaped(s@.subrange(0, i as int)),
        decreases n - i,
    {
        let c = s.get_char(i);
        push_escaped_char(out, c);
        proof {
            let pre = s@.subrange(0, i as int);
            let post = s@.subrange(0, i + 1);
            assert(post.drop_last() =~= pre);
            assert(post.last() == s@[i as int]);
            assert(json_escaped(post) == json_escaped(pre) + escaped_char(s@[i as int]));
            assert(out@ =~= old(out)@ + json_escaped(post));
        }
        i = i + 1;
    }
    proof {
        assert(s@.subrange(0, n as int) =~= s@);
    }
}

/// Append one snippet's JSON record.
fn push_snippet(out: &mut Vec<char>, s: &ContextSnippet)
    ensures
        final(out)@ == old(out)@ + snippet_json(*s),
{
    push_str_chars(out, "{\"content\":\"");
    push_escaped(out, s.content.as_str());
    push_str_chars(out, "\",\"metadata\":");
    push_str_chars(out, s.metadata.as_str());
    push_str_chars(out, "}");
    proof {
        assert(out@ =~= old(out)@ + snippet_json(*s));
    }
}

/// The snippet list rendered as a JSON array, input order kept.
pub fn render_context(snippets: &Vec<ContextSnippet>) -> (r: String)
    ensures
        r@ == snippets_json(snippets@),
{
    let mut out: Vec<char> = Vec::new();
    push_str_chars(&mut out, "[");
    let ghost bracket: Seq<char> = out@;
    let mut i: usize = 0;
    while i < snippets.len()
        invariant
            0 <= i <= snippets@.len(),
            bracket == "["@,
            out@ == bracket + snippets_join(snippets@.subrange(0, i as int)),
        decreases snippets@.len() - i,
    {
        if i > 0 {
            push_str_chars(&mut out, ",");
        }
        push_snippet(&mut out, &snippets[i]);
        proof {
            let pre = snippets@.subrange(0, i as int);
            let post = snippets@.subrange(0, i + 1);
            assert(post.drop_last() =~= pre);
            assert(post.last() == snippets@[i as int]);
            if i == 0 {
                assert(post.len() == 1);
                assert(post[0] == snippets@[0]);
                assert(snippets_join(post) == snippet_json(snippets@[0]));
            } else {
                assert(snippets_join(post) == snippets_join(pre) + ","@ + snippet_json(
                    snippets@[i as int],
                ));
            }
            assert(out@ =~= bracket + snippets_join(post));
        }
        i = i + 1;
    }
    push_str_chars(&mut out, "]");
    proof {
        assert(snippets@.subrange(0, snippets@.len() as int) =~= snippets@);
        assert(out@ =~= snippets_json(snippets@));
    }
    chars_to_string(&out)
}

/// Build the model-ready instruction string for `query` over `snippets`, with
/// `date_text` as the rendered current date. Rejects a blank query; otherwise
/// the result is exactly `prompt_text` over the inputs, deterministic and
/// order-preserving.
pub fn assemble_prompt(query: &str, snippets: &Vec<ContextSnippet>, date_text: &str) -> (r: Result<
    String,
    EngineError,
>)
    ensures
        r is Err <==> is_blank(query@),
        r is Err ==> r->Err_0 is EmptyQuery,
        r matches Ok(p) ==> p@ == prompt_text(query@, date_text@, snippets_json(snippets@)),
{
    if is_blank_text(query) {
        return Err(EngineError::EmptyQuery);
    }
    let context = render_context(snippets);
    let mut out: Vec<char> = Vec::new();
    push_str_chars(
        &mut out,
        "<|im_start|>system\nAs a friendly and helpful AI assistant named Tera. Your answer should be very concise and to the point. Do not repeat question or references. Today is ",
    );
    push_str_chars(&mut out, date_text);
    push_str_chars(&mut out, "<|im_end|>\n<|im_start|>user\nquestion: \"");
    push_str_chars(&mut out, query);
    push_str_chars(&mut out, "\"\nreferences: \"");
    push_str_chars(&mut out, context.as_str());
    push_str_chars(&mut out, "\"\n<|im_end|>\n<|im_start|>assistant\n");
    proof {
        assert(out@ =~= prompt_text(query@, date_text@, snippets_json(snippets@)));
    }
    Ok(chars_to_string(&out))
}

} // verus!
