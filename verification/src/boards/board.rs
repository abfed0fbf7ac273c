//! What every board offers.

use vstd::prelude::*;

use crate::wifi::{WifiError, WifiStation};

verus! {

/// A board: the hardware that the device runs on.
pub trait Board {
    /// The wireless station of the board.
    type WifiDriver: WifiStation;

    /// Brings the wireless station up and joins the configured network.
    fn init_wifi(&mut self) -> Result<(), WifiError>;
}

} // verus!
