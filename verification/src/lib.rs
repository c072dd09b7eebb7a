//! WAV audio as plain values: format metadata, 16-bit sample buffers read
//! from a millisecond offset, and sample buffers written back as a RIFF/WAVE
//! image.
//!
//! The container itself is parsed and produced by `hound`, which the modules
//! [`decoder`] and [`encoder`] put behind contracts that Verus believes.
//! Everything the crate decides around it is verified: which headers make
//! metadata, where a read starts, which requests are refused and why, which
//! buffers can be written, and how metadata is shown. [`laws`] states what
//! follows for every image.
//!
//! Images are byte buffers; bringing them from and to files is left to the
//! caller.

pub mod error;
pub mod text;
pub mod meta;
pub mod decoder;
pub mod read;
pub mod encoder;
pub mod write;
pub mod laws;

pub use error::WavError;
pub use meta::{WavFileMeta, WavFormat, WavHeader};
pub use read::{read_wav_file, read_wav_file_metadata, read_wav_file_np};
pub use write::write_wav_file;
