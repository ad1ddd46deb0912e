//! Which model outputs are accepted, and which token positions each text's
//! embedding averages over.

use vstd::prelude::*;
use crate::tokenizer::EncodedBatch;

verus! {

/// How the model's first output is laid out: `batch_len * seq_len` rows of
/// `hidden` values; `seq_len == 1` with `pooled` for an output that already
/// holds one vector per text.
pub struct OutputLayout {
    pub batch_len: usize,
    pub seq_len: usize,
    pub hidden: usize,
    pub pooled: bool,
}

/// Why the model's output could not be pooled.
pub enum EmbeddingError {
    /// The output has neither rank 3 nor rank 2.
    UnexpectedShape,
    /// The output's dimensions do not match its data or the input batch.
    ShapeMismatch,
}

/// Reads the layout from the output's shape: `(batch, seq, hidden)`, or
/// `(batch, hidden)`, taken as `seq == 1`.
pub fn output_layout(shape: &Vec<usize>) -> (r: Result<OutputLayout, EmbeddingError>)
    ensures
        shape@.len() == 3 <==> (r is Ok && !r->Ok_0.pooled),
        shape@.len() == 2 <==> (r is Ok && r->Ok_0.pooled),
        r is Err ==> r->Err_0 is UnexpectedShape,
        r matches Ok(l) ==> {
            &&& l.batch_len == shape@[0]
            &&& l.hidden == shape@[shape@.len() - 1]
            &&& l.seq_len == (if l.pooled { 1 } else { shape@[1] })
        },
{
    if shape.len() == 3 {
        Ok(OutputLayout { batch_len: shape[0], seq_len: shape[1], hidden: shape[2], pooled: false })
    } else if shape.len() == 2 {
        Ok(OutputLayout { batch_len: shape[0], seq_len: 1, hidden: shape[1], pooled: true })
    } else {
        Err(EmbeddingError::UnexpectedShape)
    }
}

pub open spec fn as_ints(s: Seq<usize>) -> Seq<int> {
    s.map_values(|i: usize| i as int)
}

/// The rows `b * seq + t`, for `t < n`, whose mask is not zero, in order.
pub open spec fn kept_rows(mask: Seq<i64>, b: int, seq: int, n: int) -> Seq<int>
    decreases n,
{
    if n <= 0 {
        Seq::empty()
    } else {
        let prev = kept_rows(mask, b, seq, n - 1);
        if mask[b * seq + n - 1] != 0 {
            prev.push(b * seq + n - 1)
        } else {
            prev
        }
    }
}

/// The output rows that text `b`'s embedding averages over.
pub open spec fn pooled_rows(batch: EncodedBatch, layout: OutputLayout, b: int) -> Seq<int> {
    if layout.pooled {
        seq![b]
    } else {
        kept_rows(batch.attention_mask@, b, batch.sequence_length as int, batch.sequence_length as int)
    }
}

/// The output fits the batch: one row group per text, and for token-level
/// output one row per token position.
pub open spec fn layout_fits(batch: EncodedBatch, layout: OutputLayout, data_len: int) -> bool {
    &&& layout.batch_len == batch.batch_len
    &&& (!layout.pooled ==> layout.seq_len == batch.sequence_length)
    &&& data_len == layout.batch_len * layout.seq_len * layout.hidden
}

proof fn lemma_kept_rows_in(mask: Seq<i64>, b: int, seq: int, n: int)
    requires
        0 <= n <= seq,
        0 <= b,
        (b + 1) * seq <= mask.len(),
    ensures
        forall|j: int|
            0 <= j < kept_rows(mask, b, seq, n).len() ==> {
                let i = #[trigger] kept_rows(mask, b, seq, n)[j];
                &&& b * seq <= i < b * seq + n
                &&& mask[i] != 0
            },
    decreases n,
{
    assert(b * seq + seq == (b + 1) * seq) by (nonlinear_arith);
    assert(b * seq >= 0) by (nonlinear_arith)
        requires
            b >= 0,
            seq >= n >= 0,
    ;
    if n > 0 {
        lemma_kept_rows_in(mask, b, seq, n - 1);
        let prev = kept_rows(mask, b, seq, n - 1);
        let cur = kept_rows(mask, b, seq, n);
        assert forall|j: int| 0 <= j < cur.len() implies {
            let i = #[trigger] cur[j];
            &&& b * seq <= i < b * seq + n
            &&& mask[i] != 0
        } by {
            if j < prev.len() {
                assert(cur[j] == prev[j]);
            }
        }
    }
}

/// For each text of the batch, the output rows its embedding averages over:
/// the positions whose attention mask is not zero, or for pooled output its
/// one row. Fails when the output does not fit the batch.
pub fn pooling_plan(batch: &EncodedBatch, layout: &OutputLayout, data_len: usize) -> (r: Result<
    Vec<Vec<usize>>,
    EmbeddingError,
>)
    requires
        batch.wf(),
    ensures
        r is Ok <==> layout_fits(*batch, *layout, data_len as int),
        r is Err ==> r->Err_0 is ShapeMismatch,
        r matches Ok(plan) ==> {
            &&& plan@.len() == batch.batch_len
            &&& forall|b: int|
                0 <= b < plan@.len() ==> as_ints(#[trigger] plan@[b]@)
                    == pooled_rows(*batch, *layout, b)
        },
{
    if layout.batch_len != batch.batch_len {
        return Err(EmbeddingError::ShapeMismatch);
    }
    if !layout.pooled && layout.seq_len != batch.sequence_length {
        return Err(EmbeddingError::ShapeMismatch);
    }
    let b_len = layout.batch_len;
    let s_len = layout.seq_len;
    let h_len = layout.hidden;
    match b_len.checked_mul(s_len) {
        Some(rows) => match rows.checked_mul(h_len) {
            Some(n) => {
                if n != data_len {
                    return Err(EmbeddingError::ShapeMismatch);
                }
            },
            None => {
                return Err(EmbeddingError::ShapeMismatch);
            },
        },
        None => {
            if h_len != 0 {
                assert(b_len * s_len * h_len > usize::MAX) by (nonlinear_arith)
                    requires
                        b_len * s_len > usize::MAX,
                        h_len >= 1,
                ;
                return Err(EmbeddingError::ShapeMismatch);
            }
            assert(b_len * s_len * h_len == 0) by (nonlinear_arith)
                requires
                    h_len == 0,
            ;
            if data_len != 0 {
                return Err(EmbeddingError::ShapeMismatch);
            }
        },
    }
    let seq = batch.sequence_length;
    let mlen = batch.attention_mask.len();
    let mut plan: Vec<Vec<usize>> = Vec::new();
    let mut b: usize = 0;
    while b < batch.batch_len
        invariant
            batch.wf(),
            layout.batch_len == batch.batch_len,
            seq == batch.sequence_length,
            b <= batch.batch_len,
            mlen == batch.attention_mask@.len(),
            plan@.len() == b,
            forall|c: int|
                0 <= c < b ==> as_ints(#[trigger] plan@[c]@) == pooled_rows(
                    *batch,
                    *layout,
                    c,
                ),
        decreases batch.batch_len - b,
    {
        let mut kept: Vec<usize> = Vec::new();
        if layout.pooled {
            kept.push(b);
            assert(kept@.map_values(|i: usize| i as int) =~= seq![b as int]);
        } else {
            let mut t: usize = 0;
            proof {
                assert((b + 1) * seq <= batch.batch_len * seq) by (nonlinear_arith)
                    requires
                        b + 1 <= batch.batch_len,
                ;
                assert(b * seq + seq == (b + 1) * seq) by (nonlinear_arith);
            }
            while t < seq
                invariant
                    batch.wf(),
                    seq == batch.sequence_length,
                    b < batch.batch_len,
                    mlen == batch.attention_mask@.len(),
                    (b + 1) * seq <= batch.attention_mask@.len(),
                    b * seq + seq == (b + 1) * seq,
                    t <= seq,
                    kept@.map_values(|i: usize| i as int) == kept_rows(
                        batch.attention_mask@,
                        b as int,
                        seq as int,
                        t as int,
                    ),
                decreases seq - t,
            {
                let i: usize = b * seq + t;
                let ghost before = kept@;
                if batch.attention_mask[i] != 0 {
                    kept.push(i);
                    assert(kept@.map_values(|i: usize| i as int) =~= before.map_values(
                        |i: usize| i as int,
                    ).push(i as int));
                }
                t = t + 1;
            }
        }
        plan.push(kept);
        b = b + 1;
    }
    Ok(plan)
}

/// The rows a text's embedding averages over have a non-zero mask, and lie in
/// that text's own row group.
pub proof fn lemma_pooled_rows_unmasked(batch: EncodedBatch, layout: OutputLayout, b: int)
    requires
        batch.wf(),
        !layout.pooled,
        0 <= b < batch.batch_len,
    ensures
        forall|j: int|
            0 <= j < pooled_rows(batch, layout, b).len() ==> {
                let i = #[trigger] pooled_rows(batch, layout, b)[j];
                &&& batch.at(b, 0) <= i < batch.at(b + 1, 0)
                &&& i < batch.attention_mask@.len()
                &&& batch.attention_mask@[i] != 0
            },
{
    let seq = batch.sequence_length as int;
    assert((b + 1) * seq <= batch.batch_len * seq) by (nonlinear_arith)
        requires
            b + 1 <= batch.batch_len,
            seq >= 0,
    ;
    assert(b * seq + seq == (b + 1) * seq) by (nonlinear_arith);
    lemma_kept_rows_in(batch.attention_mask@, b, seq, seq);
}

/// Padding is invisible to pooling: two batches with the same attention mask
/// (whatever their token ids) average over the same rows, for token-level and
/// for pooled output alike; and for token-level output, two model outputs that
/// agree on every row whose mask is not zero give each text the same values
/// to average.
pub proof fn lemma_padding_invisible<V>(
    x: EncodedBatch,
    y: EncodedBatch,
    layout: OutputLayout,
    hx: Seq<V>,
    hy: Seq<V>,
    b: int,
)
    requires
        x.wf(),
        y.wf(),
        x.attention_mask@ == y.attention_mask@,
        x.sequence_length == y.sequence_length,
        x.batch_len == y.batch_len,
        0 <= b < x.batch_len,
        hx.len() == hy.len(),
        hx.len() == x.attention_mask@.len(),
        forall|i: int| 0 <= i < hx.len() && x.attention_mask@[i] != 0 ==> hx[i] == hy[i],
    ensures
        pooled_rows(x, layout, b) == pooled_rows(y, layout, b),
        !layout.pooled ==> pooled_rows(x, layout, b).map_values(|i: int| hx[i]) == pooled_rows(
            y,
            layout,
            b,
        ).map_values(|i: int| hy[i]),
{
    if layout.pooled {
        return;
    }
    lemma_pooled_rows_unmasked(x, layout, b);
    let p = pooled_rows(x, layout, b);
    assert forall|j: int| 0 <= j < p.len() implies hx[p[j]] == hy[p[j]] by {
        assert(x.attention_mask@[p[j]] != 0);
    }
    assert(p.map_values(|i: int| hx[i]) =~= p.map_values(|i: int| hy[i]));
}

} // verus!
