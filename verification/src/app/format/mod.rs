/// writing request headers and object headers into a cursor
pub mod write;
/// a writer of request fragments
pub mod writer;
/// what is written reads back
pub mod roundtrip;
