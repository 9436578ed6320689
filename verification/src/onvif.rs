use vstd::prelude::*;

verus! {

// The ONVIF SOAP client itself is an external collaborator; these are
// the plain settings values the control plane exchanges with it.

/// The connection details of one ONVIF device, handed to the SOAP
/// client.
#[derive(Clone, Debug, PartialEq)]
pub struct Camera {
    /// device hostname or ip
    pub host: String,
    /// device onvif port
    pub port: i32,
    /// device username
    pub username: String,
    /// device password
    pub password: String,
}

/// How a device keeps its clock.
#[derive(Clone, Copy, Debug, PartialEq, Eq, Structural)]
pub enum TimeType {
    /// the clock is set manually
    Manual,
    /// the clock follows an ntp server
    Ntp,
}

impl TimeType {
    /// The display name of the setting.
    pub fn name(&self) -> (r: String)
        ensures
            r@ == match self {
                TimeType::Manual => "Manual"@,
                TimeType::Ntp => "Ntp"@,
            },
    {
        match self {
            TimeType::Manual => String::from_str("Manual"),
            TimeType::Ntp => String::from_str("Ntp"),
        }
    }
}

/// How an ntp server is named.
#[derive(Clone, Copy, Debug, PartialEq, Eq, Structural)]
pub enum NtpType {
    /// by IPv4 address
    Ipv4,
    /// by IPv6 address
    Ipv6,
    /// by DNS name
    Dns,
}

impl NtpType {
    /// The display name of the address kind.
    pub fn name(&self) -> (r: String)
        ensures
            r@ == match self {
                NtpType::Ipv4 => "IPv4"@,
                NtpType::Ipv6 => "IPv6"@,
                NtpType::Dns => "DNS"@,
            },
    {
        match self {
            NtpType::Ipv4 => String::from_str("IPv4"),
            NtpType::Ipv6 => String::from_str("IPv6"),
            NtpType::Dns => String::from_str("DNS"),
        }
    }
}

/// A device's date and time settings.
#[derive(Clone, Debug, PartialEq)]
pub struct DeviceDateAndTime {
    /// whether the device clock is manual or ntp-driven
    pub time_type: TimeType,
    /// whether daylight saving time is enabled
    pub daylight_savings: bool,
    /// the device's timezone, POSIX format
    pub timezone: String,
    /// the device's clock reading, UTC microseconds, when known
    pub utc_datetime: Option<i64>,
}

impl DeviceDateAndTime {
    /// Default settings: a manual clock in UTC, reading unknown.
    pub fn new() -> (r: Self)
        ensures
            r.time_type == TimeType::Manual,
            !r.daylight_savings,
            r.timezone@ == "UTC"@,
            r.utc_datetime is None,
    {
        Self {
            time_type: TimeType::Manual,
            daylight_savings: false,
            timezone: String::from_str("UTC"),
            utc_datetime: None,
        }
    }
}

/// A device's ntp settings.
#[derive(Clone, Debug, PartialEq)]
pub struct DeviceNtpSettings {
    /// whether the device takes its ntp server from dhcp
    pub from_dhcp: bool,
    /// the manually named ntp server, when there is one
    pub ntp_specification: Option<(NtpType, String)>,
}

} // verus!
