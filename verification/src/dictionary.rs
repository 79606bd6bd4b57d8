pub mod yomichan;
pub mod decode;
pub mod ingest;
pub mod laws;
