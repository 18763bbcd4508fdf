//! Identification of NVMe block devices attached to an EC2 instance.
//!
//! The device answers the identify-controller command with a fixed 4096-byte
//! record. This library decodes the fields of that record that matter here,
//! checks the vendor, recognises the model and parses the names that the
//! platform stored in the vendor-specific region.

pub mod error;
pub mod layout;
pub mod model;
pub mod names;
pub mod nvme;
pub mod text;

pub use error::Error;
pub use model::Model;
pub use names::Names;
pub use nvme::{Nvme, VendorId};
