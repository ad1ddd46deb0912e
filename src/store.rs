//! What is stored with each vector in the index, and the index's settings.

use vstd::prelude::*;

verus! {

/// Name of the collection that holds the document windows.
pub const COLLECTION_NAME: &'static str = "lexai_documents";

/// Dimension of the stored vectors.
pub const VECTOR_DIM: u64 = 384;

/// Payload stored with each window's vector: `document_id` groups the
/// windows of one document and is the key that searches filter on.
pub struct QdrantDocumentPayload {
    pub document_id: String,
    pub chunk_text: String,
}

impl QdrantDocumentPayload {
    pub open spec fn view(&self) -> (Seq<char>, Seq<char>) {
        (self.document_id@, self.chunk_text@)
    }
}

/// Copies a list of strings.
pub fn copy_texts(texts: &Vec<String>) -> (r: Vec<String>)
    ensures
        r@.len() == texts@.len(),
        forall|i: int| 0 <= i < r@.len() ==> #[trigger] r@[i]@ == texts@[i]@,
{
    let mut r: Vec<String> = Vec::new();
    let mut i: usize = 0;
    while i < texts.len()
        invariant
            i <= texts@.len(),
            r@.len() == i,
            forall|j: int| 0 <= j < i ==> #[trigger] r@[j]@ == texts@[j]@,
        decreases texts@.len() - i,
    {
        r.push(texts[i].clone());
        i = i + 1;
    }
    r
}

/// One payload per window, in order, each tagged with `document_id`.
pub fn chunk_payloads(document_id: &String, chunks: &Vec<String>) -> (r: Vec<QdrantDocumentPayload>)
    ensures
        r@.len() == chunks@.len(),
        forall|i: int|
            0 <= i < r@.len() ==> #[trigger] r@[i].view() == (document_id@, chunks@[i]@),
{
    let mut r: Vec<QdrantDocumentPayload> = Vec::new();
    let mut i: usize = 0;
    while i < chunks.len()
        invariant
            i <= chunks@.len(),
            r@.len() == i,
            forall|j: int| 0 <= j < i ==> #[trigger] r@[j].view() == (document_id@, chunks@[j]@),
        decreases chunks@.len() - i,
    {
        r.push(
            QdrantDocumentPayload {
                document_id: document_id.clone(),
                chunk_text: chunks[i].clone(),
            },
        );
        i = i + 1;
    }
    r
}

} // verus!
