//! Newtypes over the strings that discovery reports.

use vstd::prelude::*;

verus! {

/// An mDNS service type, such as `_airplay._tcp.local.`.
#[derive(Debug, PartialEq, Eq, Hash)]
pub struct ServiceType(String);

impl View for ServiceType {
    type V = Seq<char>;

    closed spec fn view(&self) -> Seq<char> {
        self.0@
    }
}

impl Clone for ServiceType {
    fn clone(&self) -> (r: Self)
        ensures
            r@ == self@,
    {
        ServiceType(self.0.clone())
    }
}

impl ServiceType {
    pub fn new(value: String) -> (r: Self)
        ensures
            r@ == value@,
    {
        ServiceType(value)
    }

    pub fn as_str(&self) -> (r: &str)
        ensures
            r@ == self@,
    {
        self.0.as_str()
    }
}

/// The full name of an mDNS service instance.
#[derive(Debug, PartialEq, Eq, Hash)]
pub struct ServiceInstanceName(String);

impl View for ServiceInstanceName {
    type V = Seq<char>;

    closed spec fn view(&self) -> Seq<char> {
        self.0@
    }
}

impl Clone for ServiceInstanceName {
    fn clone(&self) -> (r: Self)
        ensures
            r@ == self@,
    {
        ServiceInstanceName(self.0.clone())
    }
}

impl ServiceInstanceName {
    pub fn new(value: String) -> (r: Self)
        ensures
            r@ == value@,
    {
        ServiceInstanceName(value)
    }

    pub fn as_str(&self) -> (r: &str)
        ensures
            r@ == self@,
    {
        self.0.as_str()
    }
}

/// A manufacturer's name, such as `Samsung`.
#[derive(Debug, PartialEq, Eq, Hash)]
pub struct ManufacturerName(String);

impl View for ManufacturerName {
    type V = Seq<char>;

    closed spec fn view(&self) -> Seq<char> {
        self.0@
    }
}

impl Clone for ManufacturerName {
    fn clone(&self) -> (r: Self)
        ensures
            r@ == self@,
    {
        ManufacturerName(self.0.clone())
    }
}

impl ManufacturerName {
    pub fn new(value: String) -> (r: Self)
        ensures
            r@ == value@,
    {
        ManufacturerName(value)
    }

    pub fn as_str(&self) -> (r: &str)
        ensures
            r@ == self@,
    {
        self.0.as_str()
    }
}

/// A model name, such as `HL-2270DW`.
#[derive(Debug, PartialEq, Eq, Hash)]
pub struct ModelName(String);

impl View for ModelName {
    type V = Seq<char>;

    closed spec fn view(&self) -> Seq<char> {
        self.0@
    }
}

impl Clone for ModelName {
    fn clone(&self) -> (r: Self)
        ensures
            r@ == self@,
    {
        ModelName(self.0.clone())
    }
}

impl ModelName {
    pub fn new(value: String) -> (r: Self)
        ensures
            r@ == value@,
    {
        ModelName(value)
    }

    pub fn as_str(&self) -> (r: &str)
        ensures
            r@ == self@,
    {
        self.0.as_str()
    }
}

/// A name for display.
#[derive(Debug, PartialEq, Eq, Hash)]
pub struct FriendlyName(String);

impl View for FriendlyName {
    type V = Seq<char>;

    closed spec fn view(&self) -> Seq<char> {
        self.0@
    }
}

impl Clone for FriendlyName {
    fn clone(&self) -> (r: Self)
        ensures
            r@ == self@,
    {
        FriendlyName(self.0.clone())
    }
}

impl FriendlyName {
    pub fn new(value: String) -> (r: Self)
        ensures
            r@ == value@,
    {
        FriendlyName(value)
    }

    pub fn as_str(&self) -> (r: &str)
        ensures
            r@ == self@,
    {
        self.0.as_str()
    }
}

/// A UPnP device type URN.
#[derive(Debug, PartialEq, Eq, Hash)]
pub struct DeviceTypeName(String);

impl View for DeviceTypeName {
    type V = Seq<char>;

    closed spec fn view(&self) -> Seq<char> {
        self.0@
    }
}

impl Clone for DeviceTypeName {
    fn clone(&self) -> (r: Self)
        ensures
            r@ == self@,
    {
        DeviceTypeName(self.0.clone())
    }
}

impl DeviceTypeName {
    pub fn new(value: String) -> (r: Self)
        ensures
            r@ == value@,
    {
        DeviceTypeName(value)
    }

    pub fn as_str(&self) -> (r: &str)
        ensures
            r@ == self@,
    {
        self.0.as_str()
    }
}

/// A local network interface's name, such as `eth0`.
#[derive(Debug, PartialEq, Eq, Hash)]
pub struct InterfaceName(String);

impl View for InterfaceName {
    type V = Seq<char>;

    closed spec fn view(&self) -> Seq<char> {
        self.0@
    }
}

impl Clone for InterfaceName {
    fn clone(&self) -> (r: Self)
        ensures
            r@ == self@,
    {
        InterfaceName(self.0.clone())
    }
}

impl InterfaceName {
    pub fn new(value: String) -> (r: Self)
        ensures
            r@ == value@,
    {
        InterfaceName(value)
    }

    pub fn as_str(&self) -> (r: &str)
        ensures
            r@ == self@,
    {
        self.0.as_str()
    }
}

} // verus!
