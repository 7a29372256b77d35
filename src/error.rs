use vstd::prelude::*;

verus! {

/// Why the chosen network interface cannot be used.
#[derive(Clone, Copy, Debug, PartialEq, Eq, Structural)]
pub enum InterfaceErr {
    /// No default interface is found
    NotFound,
    /// No IPv4 mask is found for the corresponding interface
    InvalidMask,
    /// Interface has no mac address
    NoMac,
    /// Interface has no ip address
    NoIpv4,
}

/// Why the scanner cannot start.
#[derive(Debug)]
pub enum ArpScannerErr {
    /// The datalink channel could not be opened; holds the system's name for the cause.
    OpenChannelError(String),
    InterfaceError(InterfaceErr),
    UnsupportedMask,
}

pub open spec fn interface_err_text(e: InterfaceErr) -> Seq<char> {
    match e {
        InterfaceErr::InvalidMask => "chosen network interface is missing ipv4 subnet mask"@,
        InterfaceErr::NoIpv4 => "chosen network interface is missing ipv4 address"@,
        InterfaceErr::NoMac => "chosen network interface is missing mac address"@,
        InterfaceErr::NotFound => "unable to choose default network interface"@,
    }
}

/// The line logged for a fatal startup error.
pub open spec fn scanner_err_text(e: ArpScannerErr) -> Seq<char> {
    "[arp scanner error]: "@ + match e {
        ArpScannerErr::OpenChannelError(reason) => "unable to open channel for network interface: "@
            + reason@,
        ArpScannerErr::UnsupportedMask => "network has unsupported subnet mask"@,
        ArpScannerErr::InterfaceError(i) => interface_err_text(i),
    }
}

impl InterfaceErr {
    pub fn message(&self) -> (r: String)
        ensures
            r@ == interface_err_text(*self),
    {
        match self {
            InterfaceErr::InvalidMask => "chosen network interface is missing ipv4 subnet mask".to_owned(),
            InterfaceErr::NoIpv4 => "chosen network interface is missing ipv4 address".to_owned(),
            InterfaceErr::NoMac => "chosen network interface is missing mac address".to_owned(),
            InterfaceErr::NotFound => "unable to choose default network interface".to_owned(),
        }
    }
}

impl ArpScannerErr {
    /// The error as the scanner logs it.
    pub fn message(&self) -> (r: String)
        ensures
            r@ == scanner_err_text(*self),
    {
        let detail: String = match self {
            ArpScannerErr::OpenChannelError(reason) => {
                let head = "unable to open channel for network interface: ".to_owned();
                head.concat(reason.as_str())
            },
            ArpScannerErr::UnsupportedMask => "network has unsupported subnet mask".to_owned(),
            ArpScannerErr::InterfaceError(i) => i.message(),
        };
        let head = "[arp scanner error]: ".to_owned();
        head.concat(detail.as_str())
    }
}

} // verus!
