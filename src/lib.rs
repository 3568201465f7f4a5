//! Buffers, borrowed views, quantized tensors and matrix-product planning for
//! transformer inference.
pub mod cache;
pub mod device;
pub mod quant;
pub mod state;
pub mod storage;
pub mod weights;
