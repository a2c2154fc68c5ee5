//! Codec for the infrared remote-control protocol of an air-conditioner
//! unit: a pulse classifier, a bit/byte packer, the mapping between logical
//! commands and the 3-byte wire record, frame assembly and validation with
//! an inversion/repetition checksum, and an edge-batching decoder that turns
//! raw edge timing events into delivered pulse bursts.

pub mod consts;
pub mod decoder;
pub mod signal;
