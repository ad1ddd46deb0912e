//! Batch encoding of texts into fixed-length rows of token ids and masks.

use vstd::prelude::*;
use tokenizers::{
    PaddingDirection, PaddingParams, PaddingStrategy, PostProcessor, TruncationDirection,
    TruncationParams, TruncationStrategy,
};

verus! {

#[verifier::external_type_specification]
#[verifier::external_body]
pub struct ExTokenizer(tokenizers::Tokenizer);

#[verifier::external_type_specification]
#[verifier::external_body]
pub struct ExPostProcessor(tokenizers::PostProcessorWrapper);

/// Row length used when the configuration names none.
pub const DEFAULT_MAX_LENGTH: usize = 512;

/// Tokenizer settings read from the model's configuration file.
pub struct TokenizerConfig {
    pub model_max_length: Option<usize>,
    pub pad_token: String,
}

impl TokenizerConfig {
    /// The pad token used when the configuration names none.
    pub fn default_pad_token() -> (r: String)
        ensures
            r@ == "<pad>"@,
    {
        "<pad>".to_owned()
    }

    /// Builds a configuration, filling in the defaults for absent fields.
    pub fn new(model_max_length: Option<usize>, pad_token: Option<String>) -> (r: Self)
        ensures
            r.model_max_length == model_max_length,
            pad_token matches Some(p) ==> r.pad_token@ == p@,
            pad_token is None ==> r.pad_token@ == "<pad>"@,
    {
        let pad_token = match pad_token {
            Some(p) => p,
            None => Self::default_pad_token(),
        };
        TokenizerConfig { model_max_length, pad_token }
    }

    pub open spec fn spec_max_length(&self) -> usize {
        match self.model_max_length {
            Some(n) => n,
            None => DEFAULT_MAX_LENGTH,
        }
    }

    /// The length every encoded row is padded or truncated to.
    pub fn max_length(&self) -> (r: usize)
        ensures
            r == self.spec_max_length(),
    {
        match self.model_max_length {
            Some(n) => n,
            None => DEFAULT_MAX_LENGTH,
        }
    }
}

/// Token ids and attention mask of one encoded text.
pub struct TokenRow {
    pub ids: Vec<u32>,
    pub mask: Vec<u32>,
}

/// A batch of encoded texts, row after row, each row `sequence_length` long.
pub struct EncodedBatch {
    pub input_ids: Vec<i64>,
    pub attention_mask: Vec<i64>,
    pub batch_len: usize,
    pub sequence_length: usize,
}

impl EncodedBatch {
    pub open spec fn wf(&self) -> bool {
        &&& self.input_ids@.len() == self.batch_len * self.sequence_length
        &&& self.attention_mask@.len() == self.batch_len * self.sequence_length
    }

    /// Position `t` of row `b` in the flat arrays.
    pub open spec fn at(&self, b: int, t: int) -> int {
        b * self.sequence_length + t
    }
}

/// `batch` holds `rows`, each of length `seq`, one after another.
pub open spec fn holds_rows(batch: EncodedBatch, rows: Seq<TokenRow>, seq: usize) -> bool {
    &&& batch.wf()
    &&& batch.batch_len == rows.len()
    &&& batch.sequence_length == seq
    &&& forall|b: int, t: int|
        0 <= b < rows.len() && 0 <= t < seq ==> {
            &&& #[trigger] batch.input_ids@[batch.at(b, t)] == rows[b].ids@[t] as i64
            &&& batch.attention_mask@[batch.at(b, t)] == rows[b].mask@[t] as i64
        }
}

pub open spec fn row_fits(row: TokenRow, seq: usize) -> bool {
    row.ids@.len() == seq && row.mask@.len() == seq
}

/// Why texts could not be encoded.
pub enum TokenizerError {
    /// The batch held no text.
    EmptyBatch,
    /// The configured pad token is not in the vocabulary.
    MissingPadToken,
    /// The tokenizer refused the truncation settings.
    Truncation(String),
    /// The configured length cannot hold the special tokens.
    TooShort,
    /// The tokenizer failed on the input.
    Encoding(String),
    /// An encoded row did not have the configured length.
    RowLength,
}

proof fn lemma_row_positions(b: int, t: int, bb: int, seq: int)
    requires
        0 <= b < bb,
        0 <= t < seq,
    ensures
        0 <= b * seq + t < bb * seq,
        b * seq + t >= b * seq,
{
    assert(b * seq + t < bb * seq) by (nonlinear_arith)
        requires
            0 <= b < bb,
            0 <= t < seq,
    ;
    assert(b * seq >= 0) by (nonlinear_arith)
        requires
            0 <= b,
            0 <= t < seq,
    ;
}

/// Lays the rows out one after another, refusing any row whose ids or mask
/// do not have length `seq`.
pub fn assemble_batch(rows: &Vec<TokenRow>, seq: usize) -> (r: Result<EncodedBatch, TokenizerError>)
    ensures
        r is Ok <==> forall|b: int| 0 <= b < rows@.len() ==> row_fits(#[trigger] rows@[b], seq),
        r matches Ok(batch) ==> holds_rows(batch, rows@, seq),
        r matches Err(e) ==> e is RowLength,
{
    let mut input_ids: Vec<i64> = Vec::new();
    let mut attention_mask: Vec<i64> = Vec::new();
    let mut b: usize = 0;
    while b < rows.len()
        invariant
            b <= rows@.len(),
            forall|c: int| 0 <= c < b ==> row_fits(#[trigger] rows@[c], seq),
            input_ids@.len() == b * seq,
            attention_mask@.len() == b * seq,
            forall|c: int, t: int|
                0 <= c < b && 0 <= t < seq ==> {
                    &&& #[trigger] input_ids@[c * seq + t] == rows@[c].ids@[t] as i64
                    &&& attention_mask@[c * seq + t] == rows@[c].mask@[t] as i64
                },
        decreases rows@.len() - b,
    {
        let row = &rows[b];
        if row.ids.len() != seq || row.mask.len() != seq {
            return Err(TokenizerError::RowLength);
        }
        let ghost before_ids = input_ids@;
        let ghost before_mask = attention_mask@;
        let mut t: usize = 0;
        while t < seq
            invariant
                b < rows@.len(),
                row == &rows@[b as int],
                row_fits(*row, seq),
                t <= seq,
                input_ids@.len() == b * seq + t,
                attention_mask@.len() == b * seq + t,
                input_ids@.subrange(0, b * seq) == before_ids,
                attention_mask@.subrange(0, b * seq) == before_mask,
                before_ids.len() == b * seq,
                before_mask.len() == b * seq,
                forall|u: int|
                    0 <= u < t ==> {
                        &&& #[trigger] input_ids@[b * seq + u] == row.ids@[u] as i64
                        &&& attention_mask@[b * seq + u] == row.mask@[u] as i64
                    },
            decreases seq - t,
        {
            input_ids.push(row.ids[t] as i64);
            attention_mask.push(row.mask[t] as i64);
            t = t + 1;
            proof {
                assert(input_ids@.subrange(0, b * seq) =~= before_ids);
                assert(attention_mask@.subrange(0, b * seq) =~= before_mask);
            }
        }
        proof {
            assert forall|c: int, u: int| 0 <= c < b + 1 && 0 <= u < seq implies {
                &&& #[trigger] input_ids@[c * seq + u] == rows@[c].ids@[u] as i64
                &&& attention_mask@[c * seq + u] == rows@[c].mask@[u] as i64
            } by {
                lemma_row_positions(c, u, b as int + 1, seq as int);
                if c < b {
                    lemma_row_positions(c, u, b as int, seq as int);
                    assert(input_ids@[c * seq + u] == input_ids@.subrange(0, b * seq)[c * seq + u]);
                    assert(attention_mask@[c * seq + u] == attention_mask@.subrange(0, b * seq)[c
                        * seq + u]);
                }
            }
            assert(input_ids@.len() == (b + 1) * seq) by (nonlinear_arith)
                requires
                    input_ids@.len() == b * seq + seq,
            ;
            assert(attention_mask@.len() == (b + 1) * seq) by (nonlinear_arith)
                requires
                    attention_mask@.len() == b * seq + seq,
            ;
        }
        b = b + 1;
    }
    Ok(EncodedBatch { input_ids, attention_mask, batch_len: rows.len(), sequence_length: seq })
}

/// Where padding goes.
pub enum PadSide {
    Left,
    Right,
}

/// How long padded rows are.
pub enum PadLength {
    /// As long as the longest row of the batch.
    BatchLongest,
    /// Exactly this long.
    Fixed(usize),
}

/// How rows are padded.
pub struct PaddingPolicy {
    pub length: PadLength,
    pub side: PadSide,
    pub multiple_of: Option<usize>,
    pub pad_id: u32,
    pub pad_type_id: u32,
    pub pad_token: String,
}

/// Which of a pair of sequences loses tokens first.
pub enum TruncationRule {
    LongestFirst,
    OnlyFirst,
    OnlySecond,
}

/// Which end of a row loses tokens.
pub enum TruncationSide {
    Left,
    Right,
}

/// How rows are cut down to a maximum length.
pub struct TruncationPolicy {
    pub max_length: usize,
    pub rule: TruncationRule,
    pub side: TruncationSide,
    pub stride: usize,
}

/// A pretrained tokenizer, with the number of special tokens its
/// post-processor adds to a single sequence (read once, when it is taken
/// over), and the padding and truncation policies the library has set on it.
pub struct LoadedTokenizer {
    inner: tokenizers::Tokenizer,
    special: usize,
    padding: Ghost<Option<PaddingPolicy>>,
    truncation: Ghost<Option<TruncationPolicy>>,
}

impl LoadedTokenizer {
    pub closed spec fn special_tokens(&self) -> usize {
        self.special
    }

    pub closed spec fn padding(&self) -> Option<PaddingPolicy> {
        self.padding@
    }

    pub closed spec fn truncation(&self) -> Option<TruncationPolicy> {
        self.truncation@
    }

    /// Encoding is safe: the truncation the library set leaves room for the
    /// special tokens, and a stride below what is left.
    pub open spec fn can_encode(&self) -> bool {
        self.truncation() matches Some(t) && t.max_length >= self.special_tokens() && (t.max_length
            == self.special_tokens() || t.stride < t.max_length - self.special_tokens())
    }

    /// Takes a tokenizer over, counting the special tokens its post-processor adds.
    pub fn new(tokenizer: tokenizers::Tokenizer) -> (r: Self)
        ensures
            r.padding() is None,
            r.truncation() is None,
    {
        let special: usize = match post_processor_of(&tokenizer) {
            Some(p) => special_token_count(p),
            None => 0,
        };
        LoadedTokenizer {
            inner: tokenizer,
            special,
            padding: Ghost(None),
            truncation: Ghost(None),
        }
    }

    /// The number of special tokens added to a single sequence.
    pub fn special_token_count(&self) -> (r: usize)
        ensures
            r == self.special_tokens(),
    {
        self.special
    }
}

/// Relies on `TokenizerImpl::get_post_processor`: the step that adds special tokens, if any.
#[verifier::external_body]
fn post_processor_of(tokenizer: &tokenizers::Tokenizer) -> (r: Option<
    &tokenizers::PostProcessorWrapper,
>) {
    tokenizer.get_post_processor()
}

/// Relies on `PostProcessor::added_tokens` for a single sequence: how many
/// special tokens the step adds to each row, the count that truncation
/// subtracts from its maximum length.
#[verifier::external_body]
fn special_token_count(processor: &tokenizers::PostProcessorWrapper) -> (r: usize) {
    processor.added_tokens(false)
}

/// Relies on `Tokenizer::token_to_id`: the vocabulary id of `token`, if it has one.
#[verifier::external_body]
fn vocabulary_id(tokenizer: &LoadedTokenizer, token: &str) -> (r: Option<u32>) {
    tokenizer.inner.token_to_id(token)
}

/// Relies on `TokenizerImpl::with_padding`: it sets the padding parameters,
/// and nothing else.
#[verifier::external_body]
fn set_padding(tokenizer: &mut LoadedTokenizer, policy: &PaddingPolicy)
    ensures
        final(tokenizer).padding() == Some(*policy),
        final(tokenizer).truncation() == old(tokenizer).truncation(),
        final(tokenizer).special_tokens() == old(tokenizer).special_tokens(),
{
    let strategy = match policy.length {
        PadLength::BatchLongest => PaddingStrategy::BatchLongest,
        PadLength::Fixed(n) => PaddingStrategy::Fixed(n),
    };
    let direction = match policy.side {
        PadSide::Left => PaddingDirection::Left,
        PadSide::Right => PaddingDirection::Right,
    };
    let (pad_id, pad_type_id) = (policy.pad_id, policy.pad_type_id);
    let (pad_to_multiple_of, pad_token) = (policy.multiple_of, policy.pad_token.clone());
    let params = PaddingParams { strategy, direction, pad_to_multiple_of, pad_id, pad_type_id, pad_token };
    tokenizer.inner.with_padding(Some(params));
}

/// Relies on `TokenizerImpl::with_truncation`: it subtracts the special-token
/// count from the maximum length, refuses a stride above what is left, and
/// otherwise sets the truncation parameters and nothing else.
#[verifier::external_body]
fn set_truncation(tokenizer: &mut LoadedTokenizer, policy: &TruncationPolicy) -> (r: Result<
    (),
    String,
>)
    requires
        policy.max_length >= old(tokenizer).special_tokens(),
    ensures
        r is Ok <==> policy.stride <= policy.max_length - old(tokenizer).special_tokens(),
        r is Ok ==> final(tokenizer).truncation() == Some(*policy),
        r is Err ==> final(tokenizer).truncation() == old(tokenizer).truncation(),
        final(tokenizer).padding() == old(tokenizer).padding(),
        final(tokenizer).special_tokens() == old(tokenizer).special_tokens(),
{
    let strategy = match policy.rule {
        TruncationRule::LongestFirst => TruncationStrategy::LongestFirst,
        TruncationRule::OnlyFirst => TruncationStrategy::OnlyFirst,
        TruncationRule::OnlySecond => TruncationStrategy::OnlySecond,
    };
    let direction = match policy.side {
        TruncationSide::Left => TruncationDirection::Left,
        TruncationSide::Right => TruncationDirection::Right,
    };
    let (max_length, stride) = (policy.max_length, policy.stride);
    let params = TruncationParams { max_length, strategy, stride, direction };
    tokenizer.inner.with_truncation(Some(params)).map(|_| ()).map_err(|e| e.to_string())
}

/// Relies on `TokenizerImpl::encode_batch`: one encoding per text, in the order
/// of the texts, each taken as its ids and attention mask; a mask holds 1 for
/// each token and 0 for each pad.
#[verifier::external_body]
fn encode_rows(tokenizer: &LoadedTokenizer, texts: &Vec<String>, add_special_tokens: bool) -> (r: Result<
    Vec<TokenRow>,
    String,
>)
    requires
        tokenizer.can_encode(),
    ensures
        r matches Ok(rows) ==> rows@.len() == texts@.len() && forall|b: int, t: int|
            0 <= b < rows@.len() && 0 <= t < rows@[b].mask@.len() ==> #[trigger] rows@[b].mask@[t]
                <= 1,
{
    tokenizer.inner.encode_batch(texts.clone(), add_special_tokens).map(
        |encodings| encodings.iter().map(
            |e| TokenRow { ids: e.get_ids().to_vec(), mask: e.get_attention_mask().to_vec() },
        ).collect(),
    ).map_err(|e| e.to_string())
}

/// The truncation the service uses: keep the first `max_length` tokens.
pub open spec fn service_truncation(max_length: usize) -> TruncationPolicy {
    TruncationPolicy {
        max_length,
        rule: TruncationRule::LongestFirst,
        side: TruncationSide::Right,
        stride: 0,
    }
}

/// What setting a tokenizer up comes to, from what it reported: the pad id to
/// use, or why it cannot serve. A missing pad token is reported first.
pub fn setup_outcome(max_length: usize, special: usize, pad_id: Option<u32>) -> (r: Result<
    u32,
    TokenizerError,
>)
    ensures
        pad_id is None ==> r matches Err(TokenizerError::MissingPadToken),
        pad_id is Some && max_length < special ==> r matches Err(TokenizerError::TooShort),
        pad_id is Some && max_length >= special ==> r == Ok::<u32, TokenizerError>(pad_id->Some_0),
{
    match pad_id {
        None => Err(TokenizerError::MissingPadToken),
        Some(id) => if max_length < special {
            Err(TokenizerError::TooShort)
        } else {
            Ok(id)
        },
    }
}

/// A pretrained tokenizer set up for fixed-length batches.
pub struct TokenizerService {
    tokenizer: LoadedTokenizer,
    config: TokenizerConfig,
    max_length: usize,
}

impl TokenizerService {
    pub closed spec fn spec_config(&self) -> TokenizerConfig {
        self.config
    }

    pub closed spec fn spec_sequence_length(&self) -> usize {
        self.max_length
    }

    pub closed spec fn spec_tokenizer(&self) -> LoadedTokenizer {
        self.tokenizer
    }

    /// The service is ready to encode with its own policy.
    pub open spec fn wf(&self) -> bool {
        &&& self.spec_tokenizer().can_encode()
        &&& self.spec_tokenizer().truncation() == Some(service_truncation(self.spec_sequence_length()))
        &&& self.spec_tokenizer().padding() matches Some(p) && p.length == PadLength::Fixed(
            self.spec_sequence_length(),
        ) && p.side == PadSide::Right
    }

    /// Sets `tokenizer` up to pad on the right and truncate every row to the
    /// configured length. The outcome is `setup_outcome` of that length, the
    /// special-token count and the pad token's vocabulary id.
    pub fn from_parts(tokenizer: tokenizers::Tokenizer, config: TokenizerConfig) -> (r: Result<
        Self,
        TokenizerError,
    >)
        ensures
            r matches Ok(s) ==> {
                &&& s.wf()
                &&& s.spec_config() == config
                &&& s.spec_sequence_length() == config.spec_max_length()
                &&& s.spec_tokenizer().truncation() == Some(service_truncation(config.spec_max_length()))
                &&& s.spec_tokenizer().padding() matches Some(p) && p.pad_type_id == 0
                    && p.multiple_of is None && p.pad_token@ == config.pad_token@
            },
            r matches Err(e) ==> e is MissingPadToken || e is TooShort,
    {
        let mut tokenizer = LoadedTokenizer::new(tokenizer);
        let max_length = config.max_length();
        let special = tokenizer.special_token_count();
        let found = vocabulary_id(&tokenizer, config.pad_token.as_str());
        let pad_id = match setup_outcome(max_length, special, found) {
            Ok(id) => id,
            Err(e) => return Err(e),
        };
        let padding = PaddingPolicy {
            length: PadLength::Fixed(max_length),
            side: PadSide::Right,
            multiple_of: None,
            pad_id,
            pad_type_id: 0,
            pad_token: config.pad_token.clone(),
        };
        set_padding(&mut tokenizer, &padding);
        let truncation = TruncationPolicy {
            max_length,
            rule: TruncationRule::LongestFirst,
            side: TruncationSide::Right,
            stride: 0,
        };
        match set_truncation(&mut tokenizer, &truncation) {
            Ok(()) => {},
            Err(e) => return Err(TokenizerError::Truncation(e)),
        }
        Ok(TokenizerService { tokenizer, config, max_length })
    }

    /// The length of every encoded row.
    pub fn sequence_length(&self) -> (r: usize)
        ensures
            r == self.spec_sequence_length(),
    {
        self.max_length
    }

    /// Encodes a non-empty batch of texts into one row per text, special
    /// tokens added; every mask entry is 0 or 1.
    pub fn encode(&self, texts: &Vec<String>) -> (r: Result<EncodedBatch, TokenizerError>)
        requires
            self.wf(),
        ensures
            texts@.len() == 0 ==> r matches Err(TokenizerError::EmptyBatch),
            r matches Ok(b) ==> {
                &&& b.wf()
                &&& b.batch_len == texts@.len()
                &&& b.sequence_length == self.spec_sequence_length()
                &&& forall|k: int|
                    0 <= k < b.attention_mask@.len() ==> #[trigger] b.attention_mask@[k] == 0
                        || b.attention_mask@[k] == 1
            },
            r matches Err(e) ==> (e is EmptyBatch <==> texts@.len() == 0),
            r matches Err(e) ==> e is EmptyBatch || e is Encoding || e is RowLength,
    {
        if texts.len() == 0 {
            return Err(TokenizerError::EmptyBatch);
        }
        let rows = match encode_rows(&self.tokenizer, texts, true) {
            Ok(rows) => rows,
            Err(e) => return Err(TokenizerError::Encoding(e)),
        };
        let r = assemble_batch(&rows, self.max_length);
        proof {
            if r is Ok {
                let b = r->Ok_0;
                let seq = self.max_length as int;
                assert forall|k: int| 0 <= k < b.attention_mask@.len() implies #[trigger] b.attention_mask@[k] == 0
                    || b.attention_mask@[k] == 1 by {
                    lemma_flat_position(k, b.batch_len as int, seq);
                    let bb = k / seq;
                    let t = k % seq;
                    assert(b.at(bb, t) == k);
                    assert(row_fits(rows@[bb], self.max_length));
                    assert(b.input_ids@[b.at(bb, t)] == rows@[bb].ids@[t] as i64);
                    assert(rows@[bb].mask@[t] <= 1);
                }
            }
        }
        r
    }
}

proof fn lemma_flat_position(k: int, n: int, seq: int)
    requires
        0 <= k < n * seq,
        n >= 0,
    ensures
        seq > 0,
        0 <= k / seq < n,
        0 <= k % seq < seq,
        (k / seq) * seq + k % seq == k,
{
    assert(seq > 0) by (nonlinear_arith)
        requires
            0 <= k < n * seq,
            n >= 0,
    ;
    assert(0 <= k / seq < n && 0 <= k % seq < seq && (k / seq) * seq + k % seq == k) by (nonlinear_arith)
        requires
            0 <= k < n * seq,
            seq > 0,
    ;
}

} // verus!
