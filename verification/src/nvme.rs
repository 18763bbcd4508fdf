//! The identification of a device from its identify-controller record.

use vstd::prelude::*;
use crate::error::{Error, ErrorView};
use crate::layout::{record_bdev, record_mn, record_vid, IdentifyController};
use crate::model::{model_of, Model};
use crate::names::{parse_names, Names, NamesView};

verus! {

/// The PCI vendor ID of Amazon.
pub const AMZ_VENDOR_ID: u16 = 0x1D0F;

/// The vendor ID of the NVMe device.
#[derive(Debug, Clone, Copy, PartialEq, Eq, Structural)]
pub struct VendorId(pub u16);

/// An NVMe device, containing a subset of all identifying information.
#[derive(Debug, PartialEq, Eq)]
pub struct Nvme {
    /// The [model](Model) of the device.
    pub model: Model,
    /// The [structure](Names) containing vendor-specific device names.
    pub names: Names,
    /// The [vendor ID](VendorId) of the device.
    pub vendor_id: VendorId,
}

/// What an [`Nvme`] stands for in contracts.
pub ghost struct NvmeView {
    pub model: Model,
    pub names: NamesView,
    pub vendor_id: u16,
}

impl View for Nvme {
    type V = NvmeView;

    open spec fn view(&self) -> NvmeView {
        NvmeView { model: self.model, names: self.names@, vendor_id: self.vendor_id.0 }
    }
}

/// What a record identifies whose vendor ID is `vid`, whose model number is
/// `mn` and whose name field is `bdev`. The vendor is checked first, and
/// nothing else is read where it is not Amazon; then the model; then the
/// names. The first check that fails gives the error.
pub open spec fn classify(vid: u16, mn: Seq<u8>, bdev: Seq<u8>) -> Result<NvmeView, ErrorView> {
    if vid != AMZ_VENDOR_ID {
        Err(ErrorView::UnrecognizedVendorId(vid))
    } else {
        match model_of(mn) {
            Err(e) => Err(e),
            Ok(model) => match parse_names(bdev) {
                Err(e) => Err(e),
                Ok(names) => Ok(NvmeView { model, names, vendor_id: vid }),
            },
        }
    }
}

/// What the identify record `buf` identifies.
pub open spec fn classify_record(buf: Seq<u8>) -> Result<NvmeView, ErrorView> {
    classify(record_vid(buf), record_mn(buf), record_bdev(buf))
}

/// The view of what [`Nvme::from_controller`] and [`Nvme::from_query`]
/// return.
pub open spec fn nvme_result_view(r: Result<Nvme, Error>) -> Result<NvmeView, ErrorView> {
    match r {
        Ok(nvme) => Ok(nvme@),
        Err(e) => Err(e@),
    }
}

/// A record of another vendor is refused for its vendor ID, whatever its
/// model number and its name field hold.
pub proof fn lemma_vendor_checked_first(vid: u16, mn: Seq<u8>, bdev: Seq<u8>)
    requires
        vid != AMZ_VENDOR_ID,
    ensures
        classify(vid, mn, bdev) == Err::<NvmeView, ErrorView>(
            ErrorView::UnrecognizedVendorId(vid),
        ),
{
}

/// Every device that is identified has a name.
pub proof fn lemma_classified_has_name(vid: u16, mn: Seq<u8>, bdev: Seq<u8>)
    ensures
        classify(vid, mn, bdev) is Ok ==> classify(vid, mn, bdev)->Ok_0.names.wf(),
{
}

/// Classification is a function of the record: two results for the same
/// fields, each as [`Nvme::from_controller`] promises it, stand for the same
/// value.
pub proof fn lemma_classify_deterministic(
    vid: u16,
    mn: Seq<u8>,
    bdev: Seq<u8>,
    first: Result<Nvme, Error>,
    second: Result<Nvme, Error>,
)
    requires
        nvme_result_view(first) == classify(vid, mn, bdev),
        nvme_result_view(second) == classify(vid, mn, bdev),
    ensures
        nvme_result_view(first) == nvme_result_view(second),
{
}

impl Nvme {
    /// The device has a name.
    pub open spec fn wf(&self) -> bool {
        self.names.wf()
    }

    /// Get the vendor specific device name or fall back to the virtual name
    /// if it is an instance store volume.
    pub fn name(&self) -> (name: &str)
        requires
            self.wf(),
        ensures
            name@ == self@.names.effective(),
            name@.len() > 0,
    {
        match &self.names.device_name {
            Some(name) => name.as_str(),
            None => match &self.names.virtual_name {
                Some(name) => name.as_str(),
                None => unreached(),
            },
        }
    }

    /// Identifies the device from the fields of its identify record.
    pub fn from_controller(ctrl: &IdentifyController) -> (r: Result<Nvme, Error>)
        ensures
            nvme_result_view(r) == classify(ctrl.vid, ctrl.mn@, ctrl.bdev@),
            r is Ok ==> r->Ok_0.wf(),
    {
        if ctrl.vid != AMZ_VENDOR_ID {
            return Err(Error::UnrecognizedVendorId(ctrl.vid));
        }
        let model = match Model::from_model_number(ctrl.mn.as_slice()) {
            Ok(model) => model,
            Err(e) => {
                return Err(e);
            },
        };
        let names = match Names::try_from(ctrl.bdev.as_slice()) {
            Ok(names) => names,
            Err(e) => {
                return Err(e);
            },
        };
        Ok(Nvme { model, names, vendor_id: VendorId(ctrl.vid) })
    }

    /// Identifies the device from the outcome of the identify-controller
    /// query: the record that the device wrote, or the error code with
    /// which the device-control call failed.
    pub fn from_query(outcome: Result<&[u8; 4096], i32>) -> (r: Result<Nvme, Error>)
        ensures
            nvme_result_view(r) == match outcome {
                Ok(buf) => classify_record(buf@),
                Err(code) => Err(ErrorView::Errno(code)),
            },
            r is Ok ==> r->Ok_0.wf(),
    {
        match outcome {
            Err(code) => Err(Error::Errno(code)),
            Ok(buf) => {
                let ctrl = IdentifyController::from_bytes(buf);
                Self::from_controller(&ctrl)
            },
        }
    }
}

} // verus!
