//! Byte input: the streaming PCM sample decoder and the buffered reader.
pub mod decoder;
pub mod reader;
