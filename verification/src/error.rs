//! The error type of this crate.

use vstd::prelude::*;

verus! {

/// Why a device could not be identified.
#[derive(Debug, PartialEq, Eq)]
pub enum Error {
    /// The device-control call failed; holds the platform's error code as
    /// the call reported it.
    Errno(i32),
    /// The vendor-specific field names neither a device nor a virtual name;
    /// holds the field's text up to its terminator.
    UnparseableDeviceName(String),
    /// A vendor ID other than Amazon's was found; holds that ID.
    UnrecognizedVendorId(u16),
    /// A model other than EBS or instance store was found; holds the model
    /// string without its padding.
    UnrecognizedModel(String),
}

/// What an [`Error`] stands for in contracts.
pub ghost enum ErrorView {
    Errno(i32),
    UnparseableDeviceName(Seq<char>),
    UnrecognizedVendorId(u16),
    UnrecognizedModel(Seq<char>),
}

impl View for Error {
    type V = ErrorView;

    open spec fn view(&self) -> ErrorView {
        match self {
            Error::Errno(code) => ErrorView::Errno(*code),
            Error::UnparseableDeviceName(text) => ErrorView::UnparseableDeviceName(text@),
            Error::UnrecognizedVendorId(id) => ErrorView::UnrecognizedVendorId(*id),
            Error::UnrecognizedModel(model) => ErrorView::UnrecognizedModel(model@),
        }
    }
}

} // verus!
