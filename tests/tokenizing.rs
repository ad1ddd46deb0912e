use rpc_worker::tokenizer::{setup_outcome, TokenizerConfig, TokenizerError, TokenizerService};

const WORD_LEVEL: &str = r#"{
  "version": "1.0",
  "truncation": null,
  "padding": null,
  "added_tokens": [],
  "normalizer": null,
  "pre_tokenizer": {"type": "Whitespace"},
  "post_processor": null,
  "decoder": null,
  "model": {
    "type": "WordLevel",
    "vocab": {"<pad>": 0, "[UNK]": 1, "hello": 2, "lexai": 3},
    "unk_token": "[UNK]"
  }
}"#;

fn service(max_length: usize, pad: Option<&str>) -> Result<TokenizerService, TokenizerError> {
    let tokenizer = tokenizers::Tokenizer::from_bytes(WORD_LEVEL.as_bytes()).unwrap();
    TokenizerService::from_parts(tokenizer, TokenizerConfig::new(Some(max_length), pad.map(|p| p.to_string())))
}

#[test]
fn encode_pads_each_row_to_fixed_length() {
    let s = service(4, None).ok().unwrap();
    assert_eq!(s.sequence_length(), 4);
    let batch = s.encode(&vec!["hello lexai".to_string(), "lexai".to_string()]).ok().unwrap();
    assert_eq!(batch.batch_len, 2);
    assert_eq!(batch.sequence_length, 4);
    assert_eq!(batch.input_ids, vec![2, 3, 0, 0, 3, 0, 0, 0]);
    assert_eq!(batch.attention_mask, vec![1, 1, 0, 0, 1, 0, 0, 0]);
}

#[test]
fn encode_truncates_long_rows_keeping_first_tokens() {
    let s = service(3, None).ok().unwrap();
    let batch = s.encode(&vec!["lexai hello hello lexai".to_string()]).ok().unwrap();
    assert_eq!(batch.input_ids, vec![3, 2, 2]);
    assert_eq!(batch.attention_mask, vec![1, 1, 1]);
}

#[test]
fn encode_refuses_empty_batch() {
    let s = service(4, None).ok().unwrap();
    assert!(matches!(s.encode(&Vec::new()), Err(TokenizerError::EmptyBatch)));
}

#[test]
fn missing_pad_token_is_refused() {
    assert!(matches!(service(4, Some("[PAD]")), Err(TokenizerError::MissingPadToken)));
}

#[test]
fn setup_outcome_decides_in_order() {
    assert!(matches!(setup_outcome(512, 2, None), Err(TokenizerError::MissingPadToken)));
    assert!(matches!(setup_outcome(1, 2, None), Err(TokenizerError::MissingPadToken)));
    assert!(matches!(setup_outcome(1, 2, Some(0)), Err(TokenizerError::TooShort)));
    assert!(matches!(setup_outcome(2, 2, Some(7)), Ok(7)));
}

const WITH_SPECIALS: &str = r#"{
  "version": "1.0",
  "truncation": null,
  "padding": null,
  "added_tokens": [],
  "normalizer": null,
  "pre_tokenizer": {"type": "Whitespace"},
  "post_processor": {"type": "BertProcessing", "sep": ["[SEP]", 5], "cls": ["[CLS]", 4]},
  "decoder": null,
  "model": {
    "type": "WordLevel",
    "vocab": {"<pad>": 0, "[UNK]": 1, "hello": 2, "lexai": 3, "[CLS]": 4, "[SEP]": 5},
    "unk_token": "[UNK]"
  }
}"#;

fn bert_service(max_length: usize) -> Result<TokenizerService, TokenizerError> {
    let tokenizer = tokenizers::Tokenizer::from_bytes(WITH_SPECIALS.as_bytes()).unwrap();
    TokenizerService::from_parts(tokenizer, TokenizerConfig::new(Some(max_length), None))
}

#[test]
fn special_tokens_fit_inside_the_row() {
    let s = bert_service(4).ok().unwrap();
    let batch = s.encode(&vec!["hello lexai hello".to_string(), "lexai".to_string()]).ok().unwrap();
    assert_eq!(batch.input_ids, vec![4, 2, 3, 5, 4, 3, 5, 0]);
    assert_eq!(batch.attention_mask, vec![1, 1, 1, 1, 1, 1, 1, 0]);
}

#[test]
fn length_below_special_tokens_is_refused() {
    assert!(matches!(bert_service(1), Err(TokenizerError::TooShort)));
    assert!(bert_service(2).is_ok());
}
