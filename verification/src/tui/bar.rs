//! The status bar's state: one tri-state per subsystem and the last
//! instruction sent. The bar's rendering lives outside the library.

use vstd::prelude::*;
use vstd::string::StringExecFns;
use crate::server::ErrorKind;

verus! {

/// The status bar widget; its rendering lives outside the library.
pub struct Bar;

/// The tri-state of one subsystem as the operator surface shows it.
#[derive(Debug, Clone, PartialEq, Eq)]
pub enum Status {
    NotRunning,
    Stopped(String),
    Okay,
}

/// What the operator surface knows of the running services: the state of
/// each subsystem and the text of the last instruction sent.
#[derive(Debug)]
pub struct ServicesState {
    pub websocket_status: Status,
    pub usb_status: Status,
    pub latest_gcode: String,
}

impl ServicesState {
    /// A fresh surface: nothing running, nothing sent yet.
    pub fn new() -> (s: ServicesState)
        ensures
            s.websocket_status is NotRunning,
            s.usb_status is NotRunning,
            s.latest_gcode@ == Seq::<char>::empty(),
    {
        ServicesState {
            websocket_status: Status::NotRunning,
            usb_status: Status::NotRunning,
            latest_gcode: String::new(),
        }
    }

    /// Record a classified terminal error against exactly the subsystem it
    /// names, leaving the other subsystem and the last instruction alone.
    /// The surface only reflects the stopped state; it never fails itself.
    pub fn apply_error(&mut self, e: ErrorKind)
        ensures
            match e {
                ErrorKind::Websocket(msg) => final(self).websocket_status == Status::Stopped(msg)
                    && final(self).usb_status == old(self).usb_status,
                ErrorKind::GCode(msg) => final(self).usb_status == Status::Stopped(msg)
                    && final(self).websocket_status == old(self).websocket_status,
            },
            final(self).latest_gcode == old(self).latest_gcode,
    {
        match e {
            ErrorKind::Websocket(msg) => {
                self.websocket_status = Status::Stopped(msg);
            },
            ErrorKind::GCode(msg) => {
                self.usb_status = Status::Stopped(msg);
            },
        }
    }

    /// Record the text of the last instruction sent to the device.
    pub fn set_latest_gcode(&mut self, text: String)
        ensures
            final(self).latest_gcode == text,
            final(self).websocket_status == old(self).websocket_status,
            final(self).usb_status == old(self).usb_status,
    {
        self.latest_gcode = text;
    }

    /// Mark both subsystems as running or as not running, as happens when
    /// a run starts or is stopped by hand.
    pub fn set_running(&mut self, running: bool)
        ensures
            final(self).websocket_status == if running {
                Status::Okay
            } else {
                Status::NotRunning
            },
            final(self).usb_status == if running {
                Status::Okay
            } else {
                Status::NotRunning
            },
            final(self).latest_gcode == old(self).latest_gcode,
    {
        if running {
            self.websocket_status = Status::Okay;
            self.usb_status = Status::Okay;
        } else {
            self.websocket_status = Status::NotRunning;
            self.usb_status = Status::NotRunning;
        }
    }
}

} // verus!
