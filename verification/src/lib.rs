//! NVDEC and NVENC hardware decode and encode.
//!
//! The library holds the decisions of a bridge to NVIDIA's video engines: which
//! driver entry point to call next and with what, what each reply means, and how
//! pictures are laid out for the hardware. It makes no driver call itself. An
//! operation is a [`driver::Machine`]: it asks for one [`driver::Call`] at a time
//! and is resumed with the [`driver::Reply`].

pub mod callback;
pub mod config;
pub mod decoder;
pub mod decoding_laws;
pub mod device;
pub mod drain;
pub mod driver;
pub mod encoder;
pub mod encoding_laws;
pub mod engine;
pub mod error;
pub mod frame;
pub mod loader;
pub mod memory;
pub mod nv12;
pub mod nvdec;
pub mod probe_laws;
pub mod queue;
pub mod registration;
pub mod report;
pub mod resource;
pub mod runs;
pub mod setup;
pub mod sys;
pub mod text;

pub use decoder::{Av1NvDecoder, H264NvDecoder, HevcNvDecoder, Mpeg2NvDecoder, Vp9NvDecoder};
pub use device::{Cuda, CudaContext, CudaDevice, CudaErrorKind, NvError};
pub use encoder::{H264NvEncoder, HevcNvEncoder};
pub use engine::engine_info;
pub use nvdec::{nvdec_caps, NvdecCaps};
pub use registration::register;
pub use sys::CudaVideoCodec;
