//! What went wrong, independent of where the error stands in a chain.
use vstd::prelude::*;
use vstd::string::StringExecFns;

verus! {

/// The classifiable payload of an error.
#[derive(Debug, PartialEq, Eq)]
pub enum OurErrorKind {
    /// An operation was attempted against a context that is not initialized.
    ContextInitError,
    /// A method received an argument that it can not handle.
    InvalidArgument { description: String },
    /// A low-level device operation failed.
    IoctlError { device_info: String },
    /// A result exceeded the largest buffer that can be handed out.
    IoctlResultTooLarge,
    /// Metadata of a device could not be read; `path` is the device's path.
    MetadataIoError { path: String },
}

impl OurErrorKind {
    /// The one-line message that describes this kind, with nothing of any chain.
    pub open spec fn message_spec(self) -> Seq<char> {
        match self {
            OurErrorKind::ContextInitError => "DM context not initialized"@,
            OurErrorKind::InvalidArgument { description } => "invalid argument: "@ + description@,
            OurErrorKind::IoctlError { device_info } => "ioctl error, device info: "@
                + device_info@,
            OurErrorKind::IoctlResultTooLarge =>
                "ioctl result too large for maximum buffer size 4294967295 bytes"@,
            OurErrorKind::MetadataIoError { path } =>
                "failed to stat metadata for device at "@ + path@,
        }
    }

    /// Renders the message of this kind.
    pub fn message(&self) -> (r: String)
        ensures
            r@ == self.message_spec(),
    {
        match self {
            OurErrorKind::ContextInitError => "DM context not initialized".to_owned(),
            OurErrorKind::InvalidArgument { description } => {
                let mut s = "invalid argument: ".to_owned();
                s.append(description.as_str());
                s
            },
            OurErrorKind::IoctlError { device_info } => {
                let mut s = "ioctl error, device info: ".to_owned();
                s.append(device_info.as_str());
                s
            },
            OurErrorKind::IoctlResultTooLarge =>
                "ioctl result too large for maximum buffer size 4294967295 bytes".to_owned(),
            OurErrorKind::MetadataIoError { path } => {
                let mut s = "failed to stat metadata for device at ".to_owned();
                s.append(path.as_str());
                s
            },
        }
    }
}

} // verus!
