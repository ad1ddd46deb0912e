//! Turning the text extracted from an uploaded file into a processed document.

use vstd::prelude::*;
use crate::chunker::{is_chunking, split_into_chunks};
use crate::text::{chars_of, string_from_chars};

verus! {

/// Unicode `White_Space` characters, which `char::is_whitespace` recognises.
pub open spec fn is_space(c: char) -> bool {
    let u = c as u32;
    (0x09 <= u <= 0x0d) || u == 0x20 || u == 0x85 || u == 0xa0 || u == 0x1680 || (0x2000 <= u
        <= 0x200a) || u == 0x2028 || u == 0x2029 || u == 0x202f || u == 0x205f || u == 0x3000
}

pub fn is_space_char(c: char) -> (r: bool)
    ensures
        r == is_space(c),
{
    let u = c as u32;
    (0x09 <= u && u <= 0x0d) || u == 0x20 || u == 0x85 || u == 0xa0 || u == 0x1680 || (0x2000 <= u
        && u <= 0x200a) || u == 0x2028 || u == 0x2029 || u == 0x202f || u == 0x205f || u == 0x3000
}

pub open spec fn all_space(s: Seq<char>) -> bool {
    forall|t: int| 0 <= t < s.len() ==> is_space(#[trigger] s[t])
}

/// `r` is `s` without its leading and trailing white space.
pub open spec fn is_trim_of(s: Seq<char>, r: Seq<char>) -> bool {
    exists|i: int, j: int|
        {
            &&& 0 <= i <= j <= s.len()
            &&& r == s.subrange(i, j)
            &&& forall|t: int| 0 <= t < i ==> is_space(#[trigger] s[t])
            &&& forall|t: int| j <= t < s.len() ==> is_space(#[trigger] s[t])
            &&& i < j ==> !is_space(s[i]) && !is_space(s[j - 1])
        }
}

/// Removes leading and trailing white space.
pub fn trim_text(s: &str) -> (r: String)
    ensures
        is_trim_of(s@, r@),
        r@.len() == 0 <==> all_space(s@),
{
    let cs = chars_of(s);
    let n = cs.len();
    let mut i: usize = 0;
    while i < n && is_space_char(cs[i])
        invariant
            cs@ == s@,
            n == cs@.len(),
            i <= n,
            forall|t: int| 0 <= t < i ==> is_space(#[trigger] s@[t]),
        decreases n - i,
    {
        i = i + 1;
    }
    let mut j: usize = n;
    while j > i && is_space_char(cs[j - 1])
        invariant
            cs@ == s@,
            n == cs@.len(),
            i <= j <= n,
            forall|t: int| j <= t < n ==> is_space(#[trigger] s@[t]),
        decreases j - i,
    {
        j = j - 1;
    }
    let r = string_from_chars(&cs.as_slice()[i..j]);
    assert(r@ == s@.subrange(i as int, j as int));
    proof {
        if i < j {
            assert(!is_space(s@[i as int]));
            assert(!is_space(s@[j - 1]));
            assert(!all_space(s@));
        } else {
            assert(i == n ==> all_space(s@));
            if i < n {
                assert(!is_space(s@[i as int]));
                assert(j == i);
                assert(false);
            }
        }
    }
    r
}

/// Text of one uploaded document, and its windows.
pub struct ProcessedDocument {
    pub text: String,
    pub chunks: Vec<String>,
}

impl ProcessedDocument {
    pub open spec fn chunk_views(&self) -> Seq<Seq<char>> {
        self.chunks@.map_values(|c: String| c@)
    }
}

/// Why a document could not be processed.
pub enum DocumentError {
    /// No file at the given path.
    FileNotFound(String),
    /// The text could not be read out of the file.
    ExtractionFailed(String),
    /// The extracted text holds nothing but white space.
    EmptyText,
}

impl DocumentError {
    pub open spec fn spec_message(&self) -> Seq<char> {
        match self {
            DocumentError::FileNotFound(p) => "file not found: "@ + p@,
            DocumentError::ExtractionFailed(e) => "failed to extract pdf text: "@ + e@,
            DocumentError::EmptyText => "extracted text is empty"@,
        }
    }

    /// A readable description of the error.
    pub fn message(&self) -> (r: String)
        ensures
            r@ == self.spec_message(),
    {
        match self {
            DocumentError::FileNotFound(p) => {
                let mut m = "file not found: ".to_owned();
                m.append(p.as_str());
                m
            },
            DocumentError::ExtractionFailed(e) => {
                let mut m = "failed to extract pdf text: ".to_owned();
                m.append(e.as_str());
                m
            },
            DocumentError::EmptyText => "extracted text is empty".to_owned(),
        }
    }
}

/// Trims the extracted text and splits it into windows; text that is empty
/// once trimmed is refused.
pub fn process_text(raw: &str) -> (r: Result<ProcessedDocument, DocumentError>)
    ensures
        r is Err <==> all_space(raw@),
        r is Err ==> r->Err_0 is EmptyText,
        r matches Ok(d) ==> {
            &&& is_trim_of(raw@, d.text@)
            &&& d.text@.len() > 0
            &&& is_chunking(d.text@, d.chunk_views())
            &&& d.chunks@.len() > 0
        },
{
    let text = trim_text(raw);
    if text.as_str().is_empty() {
        return Err(DocumentError::EmptyText);
    }
    let chunks = split_into_chunks(text.as_str());
    Ok(ProcessedDocument { text, chunks })
}

} // verus!
