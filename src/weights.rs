use vstd::prelude::*;

use crate::quant::QuantizedTensor;
use crate::storage::View;

verus! {

/// The parameters of one model. Without a classifier matrix of its own
/// (`wcls_exists` false) the model reuses its token embedding table there.
#[derive(Debug, Clone)]
pub struct TransformerWeights<T> {
    pub token_embedding_table: T,
    pub rms_att_weight: T,
    pub rms_ffn_weight: T,
    pub wq: T,
    pub wk: T,
    pub wv: T,
    pub wo: T,
    pub w1: T,
    pub w2: T,
    pub w3: T,
    pub rms_final_weight: T,
    pub freq_cis_real: T,
    pub freq_cis_imag: T,
    pub wcls_exists: bool,
    pub wcls: T,
}

/// The parameters of one model with quantized projection and feed-forward
/// matrices; `q_tokens` is the quantized token embedding table.
#[derive(Debug)]
pub struct QTransformerWeights<T> {
    pub q_tokens: QuantizedTensor,
    pub token_embedding_table: T,
    pub rms_att_weight: T,
    pub rms_ffn_weight: T,
    pub wq: QuantizedTensor,
    pub wk: QuantizedTensor,
    pub wv: QuantizedTensor,
    pub wo: QuantizedTensor,
    pub w1: QuantizedTensor,
    pub w2: QuantizedTensor,
    pub w3: QuantizedTensor,
    pub rms_final_weight: T,
    pub freq_cis_real: T,
    pub freq_cis_imag: T,
    pub wcls_exists: bool,
    pub wcls: QuantizedTensor,
}

/// Read-only borrows of every parameter of a `TransformerWeights`, with the
/// classifier already resolved.
pub struct TransformerWeightsView<'a, T> {
    pub token_embedding_table: View<'a, T>,
    pub rms_att_weight: View<'a, T>,
    pub rms_ffn_weight: View<'a, T>,
    pub wq: View<'a, T>,
    pub wk: View<'a, T>,
    pub wv: View<'a, T>,
    pub wo: View<'a, T>,
    pub w1: View<'a, T>,
    pub w2: View<'a, T>,
    pub w3: View<'a, T>,
    pub rms_final_weight: View<'a, T>,
    pub freq_cis_real: View<'a, T>,
    pub freq_cis_imag: View<'a, T>,
    pub wcls_exists: bool,
    pub wcls: View<'a, T>,
}

/// Borrows of the float parameters of a `QTransformerWeights` and copies of its
/// quantized ones, with the classifier already resolved.
pub struct QTransformerWeightsView<'a, T> {
    pub q_tokens: QuantizedTensor,
    pub token_embedding_table: View<'a, T>,
    pub rms_att_weight: View<'a, T>,
    pub rms_ffn_weight: View<'a, T>,
    pub wq: QuantizedTensor,
    pub wk: QuantizedTensor,
    pub wv: QuantizedTensor,
    pub wo: QuantizedTensor,
    pub w1: QuantizedTensor,
    pub w2: QuantizedTensor,
    pub w3: QuantizedTensor,
    pub rms_final_weight: View<'a, T>,
    pub freq_cis_real: View<'a, T>,
    pub freq_cis_imag: View<'a, T>,
    pub wcls_exists: bool,
    pub wcls: QuantizedTensor,
}

impl<T> TransformerWeights<T> {
    /// The classifier matrix: `wcls` when the model has one, else the token
    /// embedding table.
    pub open spec fn classifier(&self) -> T {
        if self.wcls_exists {
            self.wcls
        } else {
            self.token_embedding_table
        }
    }
}

impl<T> QTransformerWeights<T> {
    /// The quantized classifier matrix: `wcls` when the model has one, else the
    /// quantized token embedding table.
    pub open spec fn classifier(&self) -> QuantizedTensor {
        if self.wcls_exists {
            self.wcls
        } else {
            self.q_tokens
        }
    }
}

impl<'a, T> TransformerWeightsView<'a, T> {
    /// Borrows every parameter of `ws`; the classifier view borrows `wcls` when
    /// the model has one and the token embedding table otherwise.
    pub fn from_ws(ws: &'a TransformerWeights<T>) -> (r: TransformerWeightsView<'a, T>)
        ensures
            *r.token_embedding_table.data == ws.token_embedding_table,
            *r.rms_att_weight.data == ws.rms_att_weight,
            *r.rms_ffn_weight.data == ws.rms_ffn_weight,
            *r.wq.data == ws.wq,
            *r.wk.data == ws.wk,
            *r.wv.data == ws.wv,
            *r.wo.data == ws.wo,
            *r.w1.data == ws.w1,
            *r.w2.data == ws.w2,
            *r.w3.data == ws.w3,
            *r.rms_final_weight.data == ws.rms_final_weight,
            *r.freq_cis_real.data == ws.freq_cis_real,
            *r.freq_cis_imag.data == ws.freq_cis_imag,
            r.wcls_exists == ws.wcls_exists,
            *r.wcls.data == ws.classifier(),
    {
        TransformerWeightsView {
            token_embedding_table: View::new(&ws.token_embedding_table),
            rms_att_weight: View::new(&ws.rms_att_weight),
            rms_ffn_weight: View::new(&ws.rms_ffn_weight),
            wq: View::new(&ws.wq),
            wk: View::new(&ws.wk),
            wv: View::new(&ws.wv),
            wo: View::new(&ws.wo),
            w1: View::new(&ws.w1),
            w2: View::new(&ws.w2),
            w3: View::new(&ws.w3),
            rms_final_weight: View::new(&ws.rms_final_weight),
            freq_cis_real: View::new(&ws.freq_cis_real),
            freq_cis_imag: View::new(&ws.freq_cis_imag),
            wcls: if ws.wcls_exists {
                View::new(&ws.wcls)
            } else {
                View::new(&ws.token_embedding_table)
            },
            wcls_exists: ws.wcls_exists,
        }
    }
}

impl<'a, T> QTransformerWeightsView<'a, T> {
    /// Borrows the float parameters of `qws` and copies the quantized ones; the
    /// classifier is a copy of `wcls` when the model has one and of the
    /// quantized token embedding table otherwise.
    pub fn from_qws(qws: &'a QTransformerWeights<T>) -> (r: QTransformerWeightsView<'a, T>)
        ensures
            r.q_tokens.same_as(&qws.q_tokens),
            *r.token_embedding_table.data == qws.token_embedding_table,
            *r.rms_att_weight.data == qws.rms_att_weight,
            *r.rms_ffn_weight.data == qws.rms_ffn_weight,
            *r.rms_final_weight.data == qws.rms_final_weight,
            *r.freq_cis_real.data == qws.freq_cis_real,
            *r.freq_cis_imag.data == qws.freq_cis_imag,
            r.wq.same_as(&qws.wq),
            r.wk.same_as(&qws.wk),
            r.wv.same_as(&qws.wv),
            r.wo.same_as(&qws.wo),
            r.w1.same_as(&qws.w1),
            r.w2.same_as(&qws.w2),
            r.w3.same_as(&qws.w3),
            r.wcls_exists == qws.wcls_exists,
            r.wcls.same_as(&qws.classifier()),
    {
        QTransformerWeightsView {
            q_tokens: qws.q_tokens.duplicate(),
            token_embedding_table: View::new(&qws.token_embedding_table),
            rms_att_weight: View::new(&qws.rms_att_weight),
            rms_ffn_weight: View::new(&qws.rms_ffn_weight),
            rms_final_weight: View::new(&qws.rms_final_weight),
            freq_cis_real: View::new(&qws.freq_cis_real),
            freq_cis_imag: View::new(&qws.freq_cis_imag),
            wq: qws.wq.duplicate(),
            wk: qws.wk.duplicate(),
            wv: qws.wv.duplicate(),
            wo: qws.wo.duplicate(),
            w1: qws.w1.duplicate(),
            w2: qws.w2.duplicate(),
            w3: qws.w3.duplicate(),
            wcls: if qws.wcls_exists {
                qws.wcls.duplicate()
            } else {
                qws.q_tokens.duplicate()
            },
            wcls_exists: qws.wcls_exists,
        }
    }
}

} // verus!
