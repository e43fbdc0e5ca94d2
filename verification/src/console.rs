//! Device console model: the tabbed views and their selection rules.
//!
//! Rendering and terminal events are host concerns; the core keeps the tab
//! titles, the navigation rules, and the test that picks out the devices'
//! serial ports.

use vstd::prelude::*;

verus! {

/// USB vendor id the devices enumerate under.
pub const USB_VENDOR_ID: u16 = 0x1209;

/// USB product id of the controller.
pub const CONTROLLER_PRODUCT_ID: u16 = 0x0002;

/// USB product id of the cuff.
pub const CUFF_PRODUCT_ID: u16 = 0x0001;

/// The summary tab.
#[derive(Default)]
pub struct OverviewTab {}

/// One connected device's tab.
#[derive(Default)]
pub struct DeviceTab {
    pub name: String,
}

impl OverviewTab {
    /// The tab's title.
    pub fn title(&self) -> (t: String)
        ensures
            t@ == "Overview"@,
    {
        "Overview".to_owned()
    }
}

impl DeviceTab {
    /// The tab's title: the device's name.
    pub fn title(&self) -> (t: String)
        ensures
            t@ == self.name@,
    {
        self.name.clone()
    }
}

/// The selected tab after a move left: one back, stopped at the first.
pub fn tab_left(selected: usize) -> (t: usize)
    ensures
        selected > 0 ==> t == selected - 1,
        selected == 0 ==> t == 0,
{
    if selected > 0 {
        selected - 1
    } else {
        selected
    }
}

/// The selected tab after a move right: one forward, stopped at the last of
/// `count` tabs. The console always shows at least one tab.
pub fn tab_right(selected: usize, count: usize) -> (t: usize)
    requires
        count > 0,
    ensures
        selected < count - 1 ==> t == selected + 1,
        selected >= count - 1 ==> t == selected,
{
    if selected < count - 1 {
        selected + 1
    } else {
        selected
    }
}

/// Whether a USB id pair names one of our controllers: the console connects
/// to exactly these serial ports.
pub fn is_controller_port(vid: u16, pid: u16) -> (r: bool)
    ensures
        r <==> vid == USB_VENDOR_ID && pid == CONTROLLER_PRODUCT_ID,
{
    vid == USB_VENDOR_ID && pid == CONTROLLER_PRODUCT_ID
}

} // verus!
