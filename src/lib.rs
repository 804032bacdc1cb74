use vstd::prelude::*;

pub mod ascii;
pub mod codec;
pub mod ddc;
pub mod error;
pub mod select;
pub mod text;

pub use ascii::AsAscii;
pub use codec::Input;
pub use ddc::{
    Backlight, Display, DisplayInfo, DisplayList, DisplayListIter, IOPath, InfoReply,
    NonTableValue, RawDisplayInfo, VcpWrite,
};
pub use error::{DDCError, DdcutilErrorKind, LibDDCUtilError, Result};

verus! {

/// The entry point for working with all connected monitors.
pub struct DDC {}

/// The means by which monitors are reached.
pub enum DDCDriver {
    Windows(WindowsDDC),
    Linux(LinuxDDC),
}

/// Reaches monitors through the native functions of Windows.
pub struct WindowsDDC {}

/// Reaches monitors through the ddcutil library.
pub struct LinuxDDC {}

/// Identifies one display to a driver.
pub struct DisplayIdent {}

/// A VCP feature value as a driver reports it.
pub struct VCPFeature {}

/// What a driver offers: finding displays and reading and writing VCP features.
pub trait DDCDriverTrait {
    fn probe(&self) -> Result<DisplayList>;

    fn get_vcp(&self, display: &DisplayIdent, vcp: u8) -> Result<VCPFeature>;

    fn set_vcp(&self, display: &DisplayIdent, vcp: u8) -> Result<()>;
}

} // verus!
