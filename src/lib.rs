//! Discovery and identity fusion for devices on a local network.
//!
//! Evidence about hosts comes from the kernel's neighbour and route tables,
//! multicast service discovery, SSDP and reverse DNS. This crate holds the
//! logic that turns that evidence into one record per device: the table
//! parsers, the address arithmetic of the probe sweep, the tables that
//! discovery fills, the hostname precedence and the device classifier.

pub mod catalog;
pub mod device;
pub mod discovery;
pub mod fusion;
pub mod identity;
pub mod ip;
pub mod mac;
pub mod names;
pub mod sweep;
pub mod tables;
pub mod text;
pub mod types;

pub use catalog::AddressMap;
pub use device::{Gateway, NetworkDevice, NetworkInterface, NetworkSnapshot};
pub use discovery::{SsdpDiscovery, UpnpDeviceInfo};
pub use identity::DeviceSignals;
pub use ip::{IpAddress, Ipv4Address, Ipv6Address};
pub use mac::{MacAddress, MacAddressError};
pub use names::{
    DeviceTypeName, FriendlyName, InterfaceName, ManufacturerName, ModelName, ServiceInstanceName,
    ServiceType,
};
pub use types::{ActivityStatus, DeviceIdentity, DeviceType, Hostname, ServiceInfo, UpnpInfo};
