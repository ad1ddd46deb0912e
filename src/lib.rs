//! Document ingestion and semantic retrieval worker: text chunking, batch
//! token assembly, pooling plans, and the line-oriented JSON-RPC session logic.

pub mod text;
pub mod chunker;
pub mod document;
pub mod tokenizer;
pub mod pooling;
pub mod rpc;
pub mod store;
pub mod session;
pub mod export;
