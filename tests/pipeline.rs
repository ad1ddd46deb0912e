use rpc_worker::pooling::{output_layout, pooling_plan, EmbeddingError, OutputLayout};
use rpc_worker::store::{chunk_payloads, copy_texts};
use rpc_worker::tokenizer::{assemble_batch, EncodedBatch, TokenRow, TokenizerConfig, TokenizerError};

fn row(ids: &[u32], mask: &[u32]) -> TokenRow {
    TokenRow { ids: ids.to_vec(), mask: mask.to_vec() }
}

#[test]
fn config_defaults() {
    assert_eq!(TokenizerConfig::default_pad_token(), "<pad>");
    let c = TokenizerConfig::new(None, None);
    assert_eq!(c.max_length(), 512);
    assert_eq!(c.pad_token, "<pad>");
    let c = TokenizerConfig::new(Some(128), Some("[PAD]".to_string()));
    assert_eq!(c.max_length(), 128);
    assert_eq!(c.pad_token, "[PAD]");
}

#[test]
fn batch_rows_are_laid_out_in_order() {
    let rows = vec![row(&[101, 7, 102, 0], &[1, 1, 1, 0]), row(&[101, 102, 0, 0], &[1, 1, 0, 0])];
    let batch = assemble_batch(&rows, 4).ok().unwrap();
    assert_eq!(batch.batch_len, 2);
    assert_eq!(batch.sequence_length, 4);
    assert_eq!(batch.input_ids, vec![101, 7, 102, 0, 101, 102, 0, 0]);
    assert_eq!(batch.attention_mask, vec![1, 1, 1, 0, 1, 1, 0, 0]);
}

#[test]
fn batch_refuses_rows_of_other_length() {
    let rows = vec![row(&[1, 2], &[1, 1]), row(&[1, 2, 3], &[1, 1, 1])];
    assert!(matches!(assemble_batch(&rows, 2), Err(TokenizerError::RowLength)));
    let empty: Vec<TokenRow> = Vec::new();
    let batch = assemble_batch(&empty, 8).ok().unwrap();
    assert_eq!(batch.batch_len, 0);
    assert!(batch.input_ids.is_empty());
}

#[test]
fn output_shapes() {
    let l = output_layout(&vec![2, 4, 384]).ok().unwrap();
    assert_eq!((l.batch_len, l.seq_len, l.hidden, l.pooled), (2, 4, 384, false));
    let l = output_layout(&vec![3, 384]).ok().unwrap();
    assert_eq!((l.batch_len, l.seq_len, l.hidden, l.pooled), (3, 1, 384, true));
    assert!(matches!(output_layout(&vec![384]), Err(EmbeddingError::UnexpectedShape)));
    assert!(matches!(output_layout(&vec![1, 2, 3, 4]), Err(EmbeddingError::UnexpectedShape)));
}

fn batch() -> EncodedBatch {
    EncodedBatch {
        input_ids: vec![101, 7, 102, 0, 101, 102, 0, 0],
        attention_mask: vec![1, 1, 1, 0, 1, 1, 0, 0],
        batch_len: 2,
        sequence_length: 4,
    }
}

#[test]
fn pooling_skips_masked_positions() {
    let layout = OutputLayout { batch_len: 2, seq_len: 4, hidden: 3, pooled: false };
    let plan = pooling_plan(&batch(), &layout, 24).ok().unwrap();
    assert_eq!(plan, vec![vec![0, 1, 2], vec![4, 5]]);
}

#[test]
fn padding_content_does_not_change_the_plan() {
    let layout = OutputLayout { batch_len: 2, seq_len: 4, hidden: 3, pooled: false };
    let mut other = batch();
    other.input_ids[3] = 999;
    other.input_ids[7] = 555;
    let a = pooling_plan(&batch(), &layout, 24).ok().unwrap();
    let b = pooling_plan(&other, &layout, 24).ok().unwrap();
    assert_eq!(a, b);
}

#[test]
fn row_without_tokens_pools_nothing() {
    let b = EncodedBatch {
        input_ids: vec![0, 0],
        attention_mask: vec![0, 0],
        batch_len: 1,
        sequence_length: 2,
    };
    let layout = OutputLayout { batch_len: 1, seq_len: 2, hidden: 1, pooled: false };
    let plan = pooling_plan(&b, &layout, 2).ok().unwrap();
    assert_eq!(plan, vec![Vec::<usize>::new()]);
}

#[test]
fn pooled_output_uses_its_own_row() {
    let layout = OutputLayout { batch_len: 2, seq_len: 1, hidden: 3, pooled: true };
    let plan = pooling_plan(&batch(), &layout, 6).ok().unwrap();
    assert_eq!(plan, vec![vec![0], vec![1]]);
}

#[test]
fn output_that_does_not_fit_is_refused() {
    let layout = OutputLayout { batch_len: 3, seq_len: 4, hidden: 3, pooled: false };
    assert!(matches!(pooling_plan(&batch(), &layout, 36), Err(EmbeddingError::ShapeMismatch)));
    let layout = OutputLayout { batch_len: 2, seq_len: 5, hidden: 3, pooled: false };
    assert!(matches!(pooling_plan(&batch(), &layout, 30), Err(EmbeddingError::ShapeMismatch)));
    let layout = OutputLayout { batch_len: 2, seq_len: 4, hidden: 3, pooled: false };
    assert!(matches!(pooling_plan(&batch(), &layout, 23), Err(EmbeddingError::ShapeMismatch)));
}

#[test]
fn payloads_carry_document_id() {
    let chunks = vec!["a".to_string(), "b".to_string()];
    let ps = chunk_payloads(&"doc-1".to_string(), &chunks);
    assert_eq!(ps.len(), 2);
    assert_eq!(ps[0].document_id, "doc-1");
    assert_eq!(ps[1].chunk_text, "b");
    assert_eq!(copy_texts(&chunks), chunks);
}
