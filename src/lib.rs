//! A safe decoding session layer over an AV1 decoding engine: the decisions
//! of the send/drain protocol and the metadata of decoded pictures.

pub mod error;
pub mod picture;
pub mod session;

pub use error::DecodeErrorKind;
pub use error::Dav1dError;
pub use picture::BitsPerComponent;
pub use picture::FrameRecord;
pub use picture::Picture;
pub use picture::PixelLayout;
pub use session::PullStatus;
pub use session::SubmitStatus;
pub use session::Submission;
