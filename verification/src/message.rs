//! What travels between the user interface and the worker: commands one way,
//! messages the other.

use crate::device::{device_views, DeviceInfo, DeviceInfoView};
use vstd::prelude::*;

verus! {

/// What the user asks of the worker.
#[derive(Debug, Clone, PartialEq, Eq)]
pub enum Cmd {
    /// Look for devices.
    Scan,
    /// Connect to the device with this address.
    Connect { addr: String },
    /// Give up the connection, if there is one.
    Disconnect,
    /// Write this mask to the connected device.
    SetMask(u8),
}

/// What a [`Cmd`] holds, as plain values.
pub enum CmdView {
    Scan,
    Connect { addr: Seq<char> },
    Disconnect,
    SetMask(u8),
}

impl View for Cmd {
    type V = CmdView;

    open spec fn view(&self) -> CmdView {
        match self {
            Cmd::Scan => CmdView::Scan,
            Cmd::Connect { addr } => CmdView::Connect { addr: addr@ },
            Cmd::Disconnect => CmdView::Disconnect,
            Cmd::SetMask(m) => CmdView::SetMask(*m),
        }
    }
}

/// What the worker tells the user interface.
#[derive(Debug, Clone, PartialEq, Eq)]
pub enum UiMsg {
    /// A line for the log.
    Log(String),
    /// The devices of the scan that just ended, in listing order.
    ScanResults(Vec<DeviceInfo>),
    /// Whether a device is connected now.
    Connected(bool),
}

/// What a [`UiMsg`] holds, as plain values.
pub enum UiMsgView {
    Log(Seq<char>),
    ScanResults(Seq<DeviceInfoView>),
    Connected(bool),
}

impl View for UiMsg {
    type V = UiMsgView;

    open spec fn view(&self) -> UiMsgView {
        match self {
            UiMsg::Log(line) => UiMsgView::Log(line@),
            UiMsg::ScanResults(devices) => UiMsgView::ScanResults(device_views(devices@)),
            UiMsg::Connected(on) => UiMsgView::Connected(*on),
        }
    }
}

} // verus!
