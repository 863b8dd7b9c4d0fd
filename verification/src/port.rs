//! Camera port information.
//!
//! Describes the port used to connect to a device: its name, its path and
//! the kind of transport behind it.

use vstd::prelude::*;

verus! {

/// Type of the port.
#[derive(Debug, Clone, Copy, PartialEq, Eq, Structural)]
pub enum PortType {
    /// Serial port
    Serial,
    /// USB port
    Usb,
    /// Disk
    Disk,
    /// PTP/IP
    PTPIp,
    /// IP
    Ip,
    /// USB disk direct
    UsbDiskDirect,
    /// USB SCSI
    UsbScsi,
}

/// The port type a raw code denotes; zero and unknown codes denote none.
pub open spec fn port_type_of_code(code: u32) -> Option<PortType> {
    if code == 1 {
        Some(PortType::Serial)
    } else if code == 4 {
        Some(PortType::Usb)
    } else if code == 8 {
        Some(PortType::Disk)
    } else if code == 16 {
        Some(PortType::PTPIp)
    } else if code == 32 {
        Some(PortType::Ip)
    } else if code == 64 {
        Some(PortType::UsbDiskDirect)
    } else if code == 128 {
        Some(PortType::UsbScsi)
    } else {
        None
    }
}

impl PortType {
    /// Reads a port type from its raw code.
    pub fn new(code: u32) -> (r: Option<PortType>)
        ensures
            r == port_type_of_code(code),
    {
        if code == 1 {
            Some(PortType::Serial)
        } else if code == 4 {
            Some(PortType::Usb)
        } else if code == 8 {
            Some(PortType::Disk)
        } else if code == 16 {
            Some(PortType::PTPIp)
        } else if code == 32 {
            Some(PortType::Ip)
        } else if code == 64 {
            Some(PortType::UsbDiskDirect)
        } else if code == 128 {
            Some(PortType::UsbScsi)
        } else {
            None
        }
    }
}

/// Information about the port.
#[derive(Debug, Clone)]
pub struct PortInfo {
    /// Name of the port.
    pub name: String,
    /// Path of the port.
    pub path: String,
    /// The raw code of the port's type.
    pub port_type_code: u32,
}

impl PortInfo {
    /// Name of the port.
    pub fn name(&self) -> (r: &String)
        ensures
            r@ == self.name@,
    {
        &self.name
    }

    /// Path of the port.
    pub fn path(&self) -> (r: &String)
        ensures
            r@ == self.path@,
    {
        &self.path
    }

    /// The port type, if the raw code denotes one.
    pub fn port_type(&self) -> (r: Option<PortType>)
        ensures
            r == port_type_of_code(self.port_type_code),
    {
        PortType::new(self.port_type_code)
    }
}

} // verus!
