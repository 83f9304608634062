//! The two variants of the data-control protocol and the choice between them.

use vstd::prelude::*;
use vstd::string::*;

verus! {

/// A variant of the data-control protocol.
#[derive(Debug, Clone, Copy, PartialEq, Eq, Structural)]
pub enum DataControlProtocol {
    /// The standard `ext-data-control-v1`.
    Ext,
    /// The older `wlr-data-control-unstable-v1`.
    Wlr,
}

/// Why the clipboard of the compositor cannot be reached at all.
#[derive(Debug, Clone, Copy, PartialEq, Eq, Structural)]
pub enum BindError {
    /// The compositor announces no seat.
    NoSeat,
    /// The compositor announces neither variant of the protocol.
    NoDataControl,
}

/// The variant that is bound, given which globals the compositor announces:
/// none without a seat, else the standard one if it is there, else the older one.
pub open spec fn chosen_protocol(seat: bool, ext: bool, wlr: bool) -> Result<
    DataControlProtocol,
    BindError,
> {
    if !seat {
        Err(BindError::NoSeat)
    } else if ext {
        Ok(DataControlProtocol::Ext)
    } else if wlr {
        Ok(DataControlProtocol::Wlr)
    } else {
        Err(BindError::NoDataControl)
    }
}

impl DataControlProtocol {
    /// The name of the global that manages this variant, as a spec-level string.
    pub open spec fn manager_name(self) -> Seq<char> {
        match self {
            DataControlProtocol::Ext => "ext_data_control_manager_v1"@,
            DataControlProtocol::Wlr => "zwlr_data_control_manager_v1"@,
        }
    }

    /// The name of the global that manages this variant.
    pub fn manager_interface(&self) -> (r: &'static str)
        ensures
            r@ == self.manager_name(),
    {
        match self {
            DataControlProtocol::Ext => "ext_data_control_manager_v1",
            DataControlProtocol::Wlr => "zwlr_data_control_manager_v1",
        }
    }

    /// Chooses the variant to bind from what the compositor announces:
    /// `seat` for `wl_seat`, `ext` and `wlr` for the managers of the two variants.
    pub fn negotiate(seat: bool, ext: bool, wlr: bool) -> (r: Result<DataControlProtocol, BindError>)
        ensures
            r == chosen_protocol(seat, ext, wlr),
    {
        if !seat {
            Err(BindError::NoSeat)
        } else if ext {
            Ok(DataControlProtocol::Ext)
        } else if wlr {
            Ok(DataControlProtocol::Wlr)
        } else {
            Err(BindError::NoDataControl)
        }
    }
}

impl BindError {
    /// The diagnostic of this error, as a spec-level string. The one for the
    /// missing protocol names the managers of both variants.
    pub open spec fn text(self) -> Seq<char> {
        match self {
            BindError::NoSeat => "wl_seat not available"@,
            BindError::NoDataControl => "neither "@ + DataControlProtocol::Ext.manager_name()
                + " nor "@ + DataControlProtocol::Wlr.manager_name() + " is available"@,
        }
    }

    /// The diagnostic to end the process with.
    pub fn message(&self) -> (r: String)
        ensures
            r@ == self.text(),
    {
        match self {
            BindError::NoSeat => String::from_str("wl_seat not available"),
            BindError::NoDataControl => {
                let mut out = String::from_str("neither ");
                out.append(DataControlProtocol::Ext.manager_interface());
                out.append(" nor ");
                out.append(DataControlProtocol::Wlr.manager_interface());
                out.append(" is available");
                out
            },
        }
    }
}

} // verus!
