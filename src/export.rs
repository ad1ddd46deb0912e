//! Text produced when exporting the term base: CSV cells and files, HTML
//! for flash-card backs, and text cleaned for PDF paragraphs.

use vstd::prelude::*;
use crate::document::{all_space, is_space, is_space_char};
use crate::text::{chars_of, string_from_chars};

verus! {

/// A term of the vocabulary base.
pub struct Term {
    pub id: i64,
    pub term: String,
    pub definition: String,
    pub definition_cn: Option<String>,
    pub review_stage: i64,
    pub last_reviewed_at: Option<String>,
}

/// Progress of a batch of uploads.
pub struct BatchProgress {
    pub total: usize,
    pub completed: usize,
    pub failed: usize,
    pub cancelled: bool,
    pub per_file: std::collections::HashMap<String, String>,
}

/// Replaces each character `c` of `s` by `f(c)`, in order.
pub open spec fn expand(s: Seq<char>, f: spec_fn(char) -> Seq<char>) -> Seq<char>
    decreases s.len(),
{
    if s.len() == 0 {
        Seq::empty()
    } else {
        expand(s.drop_last(), f) + f(s.last())
    }
}

proof fn lemma_expand_step(s: Seq<char>, i: int, f: spec_fn(char) -> Seq<char>)
    requires
        0 <= i < s.len(),
    ensures
        expand(s.take(i + 1), f) == expand(s.take(i), f) + f(s[i]),
{
    assert(s.take(i + 1).drop_last() =~= s.take(i));
}

/// Appends the characters of `s`.
fn push_str(out: &mut Vec<char>, s: &str)
    ensures
        final(out)@ == old(out)@ + s@,
{
    let mut cs = chars_of(s);
    out.append(&mut cs);
}

pub open spec fn csv_char(c: char) -> Seq<char> {
    if c == '"' {
        seq!['"', '"']
    } else {
        seq![c]
    }
}

/// `value` in double quotes, each double quote in it doubled.
pub open spec fn csv_cell(value: Seq<char>) -> Seq<char> {
    seq!['"'] + expand(value, |c: char| csv_char(c)) + seq!['"']
}

/// Quotes a value for a CSV cell.
pub fn escape_csv_cell(value: &str) -> (r: String)
    ensures
        r@ == csv_cell(value@),
{
    let cs = chars_of(value);
    let mut out: Vec<char> = Vec::new();
    out.push('"');
    let mut i: usize = 0;
    while i < cs.len()
        invariant
            cs@ == value@,
            i <= cs@.len(),
            out@ == seq!['"'] + expand(cs@.take(i as int), |c: char| csv_char(c)),
        decreases cs@.len() - i,
    {
        proof {
            lemma_expand_step(cs@, i as int, |c: char| csv_char(c));
        }
        let c = cs[i];
        if c == '"' {
            out.push('"');
            out.push('"');
        } else {
            out.push(c);
        }
        i = i + 1;
    }
    assert(cs@.take(cs@.len() as int) =~= cs@);
    out.push('"');
    string_from_chars(out.as_slice())
}

pub open spec fn html_char(c: char) -> Seq<char> {
    if c == '&' {
        "&amp;"@
    } else if c == '<' {
        "&lt;"@
    } else if c == '>' {
        "&gt;"@
    } else if c == '"' {
        "&quot;"@
    } else if c == '\'' {
        "&#39;"@
    } else {
        seq![c]
    }
}

/// Escapes the characters that HTML gives a meaning to.
pub fn encode_html(value: &str) -> (r: String)
    ensures
        r@ == expand(value@, |c: char| html_char(c)),
{
    let cs = chars_of(value);
    let mut out: Vec<char> = Vec::new();
    let mut i: usize = 0;
    while i < cs.len()
        invariant
            cs@ == value@,
            i <= cs@.len(),
            out@ == expand(cs@.take(i as int), |c: char| html_char(c)),
        decreases cs@.len() - i,
    {
        proof {
            lemma_expand_step(cs@, i as int, |c: char| html_char(c));
        }
        let c = cs[i];
        if c == '&' {
            push_str(&mut out, "&amp;");
        } else if c == '<' {
            push_str(&mut out, "&lt;");
        } else if c == '>' {
            push_str(&mut out, "&gt;");
        } else if c == '"' {
            push_str(&mut out, "&quot;");
        } else if c == '\'' {
            push_str(&mut out, "&#39;");
        } else {
            out.push(c);
        }
        i = i + 1;
    }
    assert(cs@.take(cs@.len() as int) =~= cs@);
    string_from_chars(out.as_slice())
}

pub open spec fn ascii_lower(c: char) -> char {
    if 'A' <= c <= 'Z' {
        ((c as u32) + 32) as char
    } else {
        c
    }
}

/// Lower-cases the ASCII letters and keeps every other character.
pub fn normalize_lower(s: &str) -> (r: String)
    ensures
        r@ == s@.map_values(|c: char| ascii_lower(c)),
{
    let cs = chars_of(s);
    let mut out: Vec<char> = Vec::new();
    let mut i: usize = 0;
    while i < cs.len()
        invariant
            cs@ == s@,
            i <= cs@.len(),
            out@ == cs@.take(i as int).map_values(|c: char| ascii_lower(c)),
        decreases cs@.len() - i,
    {
        let c = cs[i];
        let l = if 'A' <= c && c <= 'Z' {
            ((c as u8) + 32) as char
        } else {
            c
        };
        out.push(l);
        assert(cs@.take(i + 1).map_values(|c: char| ascii_lower(c)) =~= cs@.take(i as int).map_values(
            |c: char| ascii_lower(c),
        ).push(ascii_lower(c)));
        i = i + 1;
    }
    assert(cs@.take(cs@.len() as int) =~= cs@);
    string_from_chars(out.as_slice())
}

pub open spec fn csv_header() -> Seq<char> {
    "Term,Definition,Definition (zh-CN)\n"@
}

pub open spec fn or_empty(s: Option<String>) -> Seq<char> {
    match s {
        Some(d) => d@,
        None => Seq::empty(),
    }
}

/// One CSV line for a term: its term, definition and Chinese definition
/// (empty when it has none), each quoted.
pub open spec fn csv_line(t: Term) -> Seq<char> {
    csv_cell(t.term@) + seq![','] + csv_cell(t.definition@) + seq![','] + csv_cell(
        or_empty(t.definition_cn),
    ) + seq!['\n']
}

pub open spec fn csv_lines(terms: Seq<Term>) -> Seq<char>
    decreases terms.len(),
{
    if terms.len() == 0 {
        Seq::empty()
    } else {
        csv_lines(terms.drop_last()) + csv_line(terms.last())
    }
}

/// Writes the terms as CSV: a header line, then one line per term, in order.
pub fn build_csv(terms: &[Term]) -> (r: Result<String, String>)
    ensures
        r matches Ok(s) && s@ == csv_header() + csv_lines(terms@),
{
    let mut out: Vec<char> = Vec::new();
    push_str(&mut out, "Term,Definition,Definition (zh-CN)\n");
    let mut i: usize = 0;
    while i < terms.len()
        invariant
            i <= terms@.len(),
            out@ == csv_header() + csv_lines(terms@.take(i as int)),
        decreases terms@.len() - i,
    {
        let t = &terms[i];
        let ghost before = out@;
        let a = escape_csv_cell(t.term.as_str());
        push_str(&mut out, a.as_str());
        out.push(',');
        let b = escape_csv_cell(t.definition.as_str());
        push_str(&mut out, b.as_str());
        out.push(',');
        let c = match &t.definition_cn {
            Some(d) => escape_csv_cell(d.as_str()),
            None => escape_csv_cell(""),
        };
        proof {
            reveal_strlit("");
            assert(c@ == csv_cell(or_empty(t.definition_cn)));
        }
        push_str(&mut out, c.as_str());
        out.push('\n');
        assert(terms@.take(i + 1).drop_last() =~= terms@.take(i as int));
        assert(out@ =~= before + csv_line(*t));
        i = i + 1;
    }
    assert(terms@.take(terms@.len() as int) =~= terms@);
    Ok(string_from_chars(out.as_slice()))
}

pub open spec fn br_char(c: char) -> Seq<char> {
    if c == '\n' {
        "<br>"@
    } else {
        seq![c]
    }
}

/// Writes each line break as `<br>`.
fn newlines_to_br(value: &str) -> (r: String)
    ensures
        r@ == expand(value@, |c: char| br_char(c)),
{
    let cs = chars_of(value);
    let mut out: Vec<char> = Vec::new();
    let mut i: usize = 0;
    while i < cs.len()
        invariant
            cs@ == value@,
            i <= cs@.len(),
            out@ == expand(cs@.take(i as int), |c: char| br_char(c)),
        decreases cs@.len() - i,
    {
        proof {
            lemma_expand_step(cs@, i as int, |c: char| br_char(c));
        }
        let c = cs[i];
        if c == '\n' {
            push_str(&mut out, "<br>");
        } else {
            out.push(c);
        }
        i = i + 1;
    }
    assert(cs@.take(cs@.len() as int) =~= cs@);
    string_from_chars(out.as_slice())
}

/// Whether the text holds nothing but white space.
pub fn is_blank(value: &str) -> (r: bool)
    ensures
        r == all_space(value@),
{
    let cs = chars_of(value);
    let mut i: usize = 0;
    while i < cs.len()
        invariant
            cs@ == value@,
            i <= cs@.len(),
            forall|t: int| 0 <= t < i ==> is_space(#[trigger] cs@[t]),
        decreases cs@.len() - i,
    {
        if !is_space_char(cs[i]) {
            return false;
        }
        i = i + 1;
    }
    true
}

/// HTML for one definition: escaped, with line breaks as `<br>`.
pub open spec fn html_lines(s: Seq<char>) -> Seq<char> {
    expand(expand(s, |c: char| html_char(c)), |c: char| br_char(c))
}

/// The back of a flash card: the definition, then, when the Chinese
/// definition is given and not blank, a line break and that definition in a
/// `definition-cn` block.
pub fn build_anki_back_field(definition: &str, definition_cn: Option<&str>) -> (r: String)
    ensures
        r@ == html_lines(definition@) + match definition_cn {
            Some(cn) => if all_space(cn@) {
                Seq::empty()
            } else {
                "<br><div class=\"definition-cn\">"@ + html_lines(cn@) + "</div>"@
            },
            None => Seq::empty(),
        },
{
    let encoded = encode_html(definition);
    let content = newlines_to_br(encoded.as_str());
    match definition_cn {
        Some(cn) => {
            if is_blank(cn) {
                assert(content@ =~= content@ + Seq::<char>::empty());
                return content;
            }
            let encoded_cn = encode_html(cn);
            let lines_cn = newlines_to_br(encoded_cn.as_str());
            let mut out = content;
            out.append("<br><div class=\"definition-cn\">");
            out.append(lines_cn.as_str());
            out.append("</div>");
            assert(out@ =~= html_lines(definition@) + ("<br><div class=\"definition-cn\">"@
                + html_lines(cn@) + "</div>"@));
            out
        },
        None => {
            assert(content@ =~= content@ + Seq::<char>::empty());
            content
        },
    }
}

/// `s` with each `\r\n` written as `\n`.
pub open spec fn crlf_to_lf(s: Seq<char>) -> Seq<char>
    decreases s.len(),
{
    if s.len() >= 2 && s[s.len() - 2] == '\r' && s[s.len() - 1] == '\n' {
        crlf_to_lf(s.take(s.len() - 2)) + seq!['\n']
    } else if s.len() >= 1 {
        crlf_to_lf(s.drop_last()) + seq![s.last()]
    } else {
        Seq::empty()
    }
}

pub open spec fn cr_char(c: char) -> Seq<char> {
    if c == '\r' {
        seq!['\n']
    } else {
        seq![c]
    }
}

pub open spec fn tab_char(c: char) -> Seq<char> {
    if c == '\t' {
        "    "@
    } else {
        seq![c]
    }
}

/// Writes `\r\n` as `\n`.
fn crlf_lines(value: &str) -> (r: Vec<char>)
    ensures
        r@ == crlf_to_lf(value@),
{
    let cs = chars_of(value);
    let n = cs.len();
    let mut out: Vec<char> = Vec::new();
    let mut i: usize = 0;
    while i < n
        invariant
            cs@ == value@,
            n == cs@.len(),
            i <= n,
            out@ == crlf_to_lf(cs@.take(i as int)),
            i > 0 && i < n && cs@[i - 1] == '\r' ==> cs@[i as int] != '\n',
        decreases n - i,
    {
        if cs[i] == '\r' && i + 1 < n && cs[i + 1] == '\n' {
            out.push('\n');
            assert(cs@.take(i + 2).take(i as int) =~= cs@.take(i as int));
            i = i + 2;
        } else {
            out.push(cs[i]);
            assert(cs@.take(i + 1).drop_last() =~= cs@.take(i as int));
            i = i + 1;
        }
    }
    assert(cs@.take(n as int) =~= cs@);
    out
}

/// Cleans text for a PDF paragraph: `\r\n` and lone `\r` become `\n`, and
/// each tab becomes four spaces.
pub fn sanitize_pdf_text(value: &str) -> (r: String)
    ensures
        r@ == expand(expand(crlf_to_lf(value@), |c: char| cr_char(c)), |c: char| tab_char(c)),
{
    let first = crlf_lines(value);
    let mut second: Vec<char> = Vec::new();
    let mut i: usize = 0;
    while i < first.len()
        invariant
            i <= first@.len(),
            second@ == expand(first@.take(i as int), |c: char| cr_char(c)),
        decreases first@.len() - i,
    {
        proof {
            lemma_expand_step(first@, i as int, |c: char| cr_char(c));
        }
        if first[i] == '\r' {
            second.push('\n');
        } else {
            second.push(first[i]);
        }
        i = i + 1;
    }
    assert(first@.take(first@.len() as int) =~= first@);
    let mut third: Vec<char> = Vec::new();
    let mut j: usize = 0;
    while j < second.len()
        invariant
            j <= second@.len(),
            third@ == expand(second@.take(j as int), |c: char| tab_char(c)),
        decreases second@.len() - j,
    {
        proof {
            lemma_expand_step(second@, j as int, |c: char| tab_char(c));
        }
        if second[j] == '\t' {
            push_str(&mut third, "    ");
        } else {
            third.push(second[j]);
        }
        j = j + 1;
    }
    assert(second@.take(second@.len() as int) =~= second@);
    string_from_chars(third.as_slice())
}

} // verus!
