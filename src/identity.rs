//! The classification cascade and the extraction of manufacturer, model and
//! display name. Every rule reads the signals of one device; the first rule
//! that fires decides.

use vstd::prelude::*;
use crate::names::{FriendlyName, ManufacturerName, ModelName};
use crate::text::{ascii_case_eq, contains, eq_ignore_ascii_case, has_infix, owned, starts_with};
use crate::types::{DeviceIdentity, DeviceType, IdentityView};

verus! {

/// What the rules read of a device. Folded fields hold the text lower-cased.
pub struct DeviceSignals {
    /// The UPnP device type, folded.
    pub urn: Option<String>,
    /// The mDNS service types, folded.
    pub services: Vec<String>,
    /// The UPnP manufacturer as reported.
    pub maker: Option<String>,
    /// The UPnP manufacturer, folded.
    pub maker_folded: Option<String>,
    /// The UPnP model name as reported.
    pub model: Option<String>,
    /// The UPnP model name, folded.
    pub model_folded: Option<String>,
    /// The UPnP friendly name as reported.
    pub friendly: Option<String>,
    /// The first whitespace-delimited word of the friendly name.
    pub friendly_first_word: Option<String>,
    /// The resolved hostname as reported.
    pub host: Option<String>,
    /// The resolved hostname, folded.
    pub host_folded: Option<String>,
}

/// The signals as character sequences.
pub struct SignalsView {
    pub urn: Option<Seq<char>>,
    pub services: Seq<Seq<char>>,
    pub maker: Option<Seq<char>>,
    pub maker_folded: Option<Seq<char>>,
    pub model: Option<Seq<char>>,
    pub model_folded: Option<Seq<char>>,
    pub friendly: Option<Seq<char>>,
    pub friendly_first_word: Option<Seq<char>>,
    pub host: Option<Seq<char>>,
    pub host_folded: Option<Seq<char>>,
}

impl View for DeviceSignals {
    type V = SignalsView;

    open spec fn view(&self) -> SignalsView {
        SignalsView {
            urn: self.urn.deep_view(),
            services: self.services.deep_view(),
            maker: self.maker.deep_view(),
            maker_folded: self.maker_folded.deep_view(),
            model: self.model.deep_view(),
            model_folded: self.model_folded.deep_view(),
            friendly: self.friendly.deep_view(),
            friendly_first_word: self.friendly_first_word.deep_view(),
            host: self.host.deep_view(),
            host_folded: self.host_folded.deep_view(),
        }
    }
}

/// Some folded service type contains `p`.
pub open spec fn has_service(v: SignalsView, p: Seq<char>) -> bool {
    exists|i: int| 0 <= i < v.services.len() && has_infix(#[trigger] v.services[i], p)
}

/// An optional text that is present and contains `p`.
pub open spec fn some_has(o: Option<Seq<char>>, p: Seq<char>) -> bool {
    match o {
        Some(s) => has_infix(s, p),
        None => false,
    }
}

/// Rule one: the UPnP device type.
pub open spec fn class_by_upnp(v: SignalsView) -> Option<DeviceType> {
    if some_has(v.urn, "mediarenderer"@) {
        if has_service(v, "_airplay"@) || has_service(v, "_googlecast"@) {
            Some(DeviceType::Television)
        } else {
            Some(DeviceType::Speaker)
        }
    } else if some_has(v.urn, "internetgatewaydevice"@) {
        Some(DeviceType::Router)
    } else if some_has(v.urn, "mediaserver"@) {
        Some(DeviceType::NAS)
    } else {
        None
    }
}

/// Rule two: the mDNS service signature.
pub open spec fn class_by_services(v: SignalsView) -> Option<DeviceType> {
    if has_service(v, "_printer"@) || has_service(v, "_ipp"@) {
        Some(DeviceType::Printer)
    } else if has_service(v, "_googlecast"@) || (has_service(v, "_airplay"@) && has_service(
        v,
        "_spotify-connect"@,
    )) {
        Some(DeviceType::Television)
    } else if has_service(v, "_raop"@) && !has_service(v, "_airplay"@) {
        Some(DeviceType::Speaker)
    } else if has_service(v, "_ssh"@) && has_service(v, "_smb"@) {
        Some(DeviceType::NAS)
    } else if has_service(v, "_homekit"@) {
        Some(DeviceType::SmartHome)
    } else {
        None
    }
}

/// A text that names a television brand.
pub open spec fn is_tv_brand(o: Option<Seq<char>>) -> bool {
    some_has(o, "samsung"@) || some_has(o, "lg"@) || some_has(o, "sony"@) || some_has(o, "vizio"@)
        || some_has(o, "tcl"@) || some_has(o, "hisense"@)
}

/// A text that names a printer brand.
pub open spec fn is_printer_brand(o: Option<Seq<char>>) -> bool {
    some_has(o, "brother"@) || some_has(o, "hp"@) || some_has(o, "canon"@) || some_has(o, "epson"@)
        || some_has(o, "xerox"@)
}

/// Some service that streams media.
pub open spec fn has_streaming_service(v: SignalsView) -> bool {
    has_service(v, "_airplay"@) || has_service(v, "_googlecast"@) || has_service(
        v,
        "_spotify-connect"@,
    ) || has_service(v, "_raop"@)
}

/// Rule three: manufacturer and model keywords.
pub open spec fn class_by_vendor(v: SignalsView) -> Option<DeviceType> {
    if (is_tv_brand(v.maker_folded) || is_tv_brand(v.host_folded)) && has_streaming_service(v) {
        Some(DeviceType::Television)
    } else if is_printer_brand(v.maker_folded) || is_printer_brand(v.host_folded) {
        Some(DeviceType::Printer)
    } else if some_has(v.maker_folded, "synology"@) || some_has(v.maker_folded, "qnap"@) {
        Some(DeviceType::NAS)
    } else if some_has(v.model_folded, "ipad"@) {
        Some(DeviceType::Tablet)
    } else if some_has(v.model_folded, "iphone"@) {
        Some(DeviceType::MobileDevice)
    } else {
        None
    }
}

/// Rule four: hostname keywords; tablets are looked for before phones.
pub open spec fn class_by_hostname(v: SignalsView) -> Option<DeviceType> {
    match v.host_folded {
        None => None,
        Some(h) => if has_infix(h, "router"@) || has_infix(h, "gateway"@) {
            Some(DeviceType::Router)
        } else if has_infix(h, "nas"@) {
            Some(DeviceType::NAS)
        } else if has_infix(h, "printer"@) {
            Some(DeviceType::Printer)
        } else if has_infix(h, "ipad"@) || has_infix(h, "tablet"@) || has_infix(h, "-tab-"@)
            || has_infix(h, " tab "@) || "tab"@.is_prefix_of(h) {
            Some(DeviceType::Tablet)
        } else if has_infix(h, "iphone"@) || has_infix(h, "galaxy"@) || has_infix(h, "pixel"@) {
            Some(DeviceType::MobileDevice)
        } else {
            None
        },
    }
}

/// The class of a device: the first rule that fires, else `Unknown`.
pub open spec fn device_class(v: SignalsView) -> DeviceType {
    match class_by_upnp(v) {
        Some(t) => t,
        None => match class_by_services(v) {
            Some(t) => t,
            None => match class_by_vendor(v) {
                Some(t) => t,
                None => match class_by_hostname(v) {
                    Some(t) => t,
                    None => DeviceType::Unknown,
                },
            },
        },
    }
}

/// The known manufacturer that a word names, ignoring ASCII case, in the
/// order Samsung, LG, Sony, Brother, HP, Canon, Epson, Apple, Google, Amazon.
pub open spec fn maker_named_by(w: Seq<char>) -> Option<Seq<char>> {
    if ascii_case_eq(w, "Samsung"@) {
        Some("Samsung"@)
    } else if ascii_case_eq(w, "LG"@) {
        Some("LG"@)
    } else if ascii_case_eq(w, "Sony"@) {
        Some("Sony"@)
    } else if ascii_case_eq(w, "Brother"@) {
        Some("Brother"@)
    } else if ascii_case_eq(w, "HP"@) {
        Some("HP"@)
    } else if ascii_case_eq(w, "Canon"@) {
        Some("Canon"@)
    } else if ascii_case_eq(w, "Epson"@) {
        Some("Epson"@)
    } else if ascii_case_eq(w, "Apple"@) {
        Some("Apple"@)
    } else if ascii_case_eq(w, "Google"@) {
        Some("Google"@)
    } else if ascii_case_eq(w, "Amazon"@) {
        Some("Amazon"@)
    } else {
        None
    }
}

/// The first known manufacturer whose lower-case name a folded hostname
/// contains, with its first letter capitalized.
pub open spec fn maker_in_host(h: Seq<char>) -> Option<Seq<char>> {
    if has_infix(h, "samsung"@) {
        Some("Samsung"@)
    } else if has_infix(h, "lg"@) {
        Some("Lg"@)
    } else if has_infix(h, "sony"@) {
        Some("Sony"@)
    } else if has_infix(h, "brother"@) {
        Some("Brother"@)
    } else if has_infix(h, "hp"@) {
        Some("Hp"@)
    } else if has_infix(h, "canon"@) {
        Some("Canon"@)
    } else if has_infix(h, "epson"@) {
        Some("Epson"@)
    } else if has_infix(h, "apple"@) {
        Some("Apple"@)
    } else if has_infix(h, "google"@) {
        Some("Google"@)
    } else if has_infix(h, "amazon"@) {
        Some("Amazon"@)
    } else {
        None
    }
}

/// The manufacturer: the UPnP field if non-empty; else the friendly name's
/// first word if it names a known manufacturer (only when UPnP gave a friendly
/// name); else a known manufacturer found in the hostname.
pub open spec fn device_maker(v: SignalsView) -> Option<Seq<char>> {
    if v.maker is Some && v.maker->0.len() > 0 {
        v.maker
    } else {
        let by_word = match (v.friendly, v.friendly_first_word) {
            (Some(_), Some(w)) => maker_named_by(w),
            _ => None,
        };
        if by_word is Some {
            by_word
        } else {
            match v.host_folded {
                Some(h) => maker_in_host(h),
                None => None,
            }
        }
    }
}

/// The model: the UPnP model name if non-empty.
pub open spec fn device_model(v: SignalsView) -> Option<Seq<char>> {
    if v.model is Some && v.model->0.len() > 0 {
        v.model
    } else {
        None
    }
}

/// The display name: the UPnP friendly name if non-empty and free of "uuid";
/// else the resolved hostname if non-empty and not starting with `_`.
pub open spec fn device_display_name(v: SignalsView) -> Option<Seq<char>> {
    if v.friendly is Some && v.friendly->0.len() > 0 && !has_infix(v.friendly->0, "uuid"@) {
        v.friendly
    } else if v.host is Some && v.host->0.len() > 0 && !"_"@.is_prefix_of(v.host->0) {
        v.host
    } else {
        None
    }
}

/// The identity that the signals give.
pub open spec fn identity_from(v: SignalsView) -> IdentityView {
    IdentityView {
        device_type: device_class(v),
        manufacturer: device_maker(v),
        model: device_model(v),
        friendly_name: device_display_name(v),
    }
}

fn some_contains(o: &Option<String>, p: &str) -> (r: bool)
    ensures
        r == some_has(o.deep_view(), p@),
{
    match o {
        Some(s) => contains(s.as_str(), p),
        None => false,
    }
}

impl DeviceSignals {
    /// Some folded service type contains `p`.
    pub fn has_service(&self, p: &str) -> (r: bool)
        ensures
            r == has_service(self@, p@),
    {
        let mut i: usize = 0;
        while i < self.services.len()
            invariant
                i <= self.services.len(),
                forall|j: int| 0 <= j < i ==> !has_infix(#[trigger] self@.services[j], p@),
            decreases self.services.len() - i,
        {
            assert(self@.services[i as int] == self.services@[i as int]@);
            if contains(self.services[i].as_str(), p) {
                return true;
            }
            i += 1;
        }
        false
    }

    /// Rule one: the UPnP device type.
    pub fn class_by_upnp(&self) -> (r: Option<DeviceType>)
        ensures
            r == class_by_upnp(self@),
    {
        if some_contains(&self.urn, "mediarenderer") {
            if self.has_service("_airplay") || self.has_service("_googlecast") {
                Some(DeviceType::Television)
            } else {
                Some(DeviceType::Speaker)
            }
        } else if some_contains(&self.urn, "internetgatewaydevice") {
            Some(DeviceType::Router)
        } else if some_contains(&self.urn, "mediaserver") {
            Some(DeviceType::NAS)
        } else {
            None
        }
    }

    /// Rule two: the mDNS service signature.
    pub fn class_by_services(&self) -> (r: Option<DeviceType>)
        ensures
            r == class_by_services(self@),
    {
        if self.has_service("_printer") || self.has_service("_ipp") {
            Some(DeviceType::Printer)
        } else if self.has_service("_googlecast") || (self.has_service("_airplay")
            && self.has_service("_spotify-connect")) {
            Some(DeviceType::Television)
        } else if self.has_service("_raop") && !self.has_service("_airplay") {
            Some(DeviceType::Speaker)
        } else if self.has_service("_ssh") && self.has_service("_smb") {
            Some(DeviceType::NAS)
        } else if self.has_service("_homekit") {
            Some(DeviceType::SmartHome)
        } else {
            None
        }
    }

    /// Rule three: manufacturer and model keywords.
    pub fn class_by_vendor(&self) -> (r: Option<DeviceType>)
        ensures
            r == class_by_vendor(self@),
    {
        let tv_brand = is_tv_brand_text(&self.maker_folded) || is_tv_brand_text(&self.host_folded);
        if tv_brand && (self.has_service("_airplay") || self.has_service("_googlecast")
            || self.has_service("_spotify-connect") || self.has_service("_raop")) {
            Some(DeviceType::Television)
        } else if is_printer_brand_text(&self.maker_folded) || is_printer_brand_text(
            &self.host_folded,
        ) {
            Some(DeviceType::Printer)
        } else if some_contains(&self.maker_folded, "synology") || some_contains(
            &self.maker_folded,
            "qnap",
        ) {
            Some(DeviceType::NAS)
        } else if some_contains(&self.model_folded, "ipad") {
            Some(DeviceType::Tablet)
        } else if some_contains(&self.model_folded, "iphone") {
            Some(DeviceType::MobileDevice)
        } else {
            None
        }
    }

    /// Rule four: hostname keywords.
    pub fn class_by_hostname(&self) -> (r: Option<DeviceType>)
        ensures
            r == class_by_hostname(self@),
    {
        match &self.host_folded {
            None => None,
            Some(h) => {
                let h = h.as_str();
                if contains(h, "router") || contains(h, "gateway") {
                    Some(DeviceType::Router)
                } else if contains(h, "nas") {
                    Some(DeviceType::NAS)
                } else if contains(h, "printer") {
                    Some(DeviceType::Printer)
                } else if contains(h, "ipad") || contains(h, "tablet") || contains(h, "-tab-")
                    || contains(h, " tab ") || starts_with(h, "tab") {
                    Some(DeviceType::Tablet)
                } else if contains(h, "iphone") || contains(h, "galaxy") || contains(h, "pixel") {
                    Some(DeviceType::MobileDevice)
                } else {
                    None
                }
            },
        }
    }

    /// The class of the device: the first rule that fires, else `Unknown`.
    pub fn classify(&self) -> (r: DeviceType)
        ensures
            r == device_class(self@),
    {
        if let Some(t) = self.class_by_upnp() {
            t
        } else if let Some(t) = self.class_by_services() {
            t
        } else if let Some(t) = self.class_by_vendor() {
            t
        } else if let Some(t) = self.class_by_hostname() {
            t
        } else {
            DeviceType::Unknown
        }
    }

    /// The manufacturer, by the UPnP field, the friendly name, then the hostname.
    pub fn manufacturer(&self) -> (r: Option<ManufacturerName>)
        ensures
            crate::types::opt_view(r) == device_maker(self@),
    {
        if let Some(m) = &self.maker {
            if !m.as_str().is_empty() {
                return Some(ManufacturerName::new(m.clone()));
            }
        }
        if let (Some(_), Some(w)) = (&self.friendly, &self.friendly_first_word) {
            if let Some(name) = maker_named_by_word(w.as_str()) {
                return Some(ManufacturerName::new(owned(name)));
            }
        }
        match &self.host_folded {
            Some(h) => match maker_in_host_text(h.as_str()) {
                Some(name) => Some(ManufacturerName::new(owned(name))),
                None => None,
            },
            None => None,
        }
    }

    /// The model: the UPnP model name if non-empty.
    pub fn model(&self) -> (r: Option<ModelName>)
        ensures
            crate::types::opt_view(r) == device_model(self@),
    {
        match &self.model {
            Some(m) => if m.as_str().is_empty() {
                None
            } else {
                Some(ModelName::new(m.clone()))
            },
            None => None,
        }
    }

    /// The display name: the UPnP friendly name, else the hostname.
    pub fn display_name(&self) -> (r: Option<FriendlyName>)
        ensures
            crate::types::opt_view(r) == device_display_name(self@),
    {
        if let Some(f) = &self.friendly {
            if !f.as_str().is_empty() && !contains(f.as_str(), "uuid") {
                return Some(FriendlyName::new(f.clone()));
            }
        }
        if let Some(h) = &self.host {
            if !h.as_str().is_empty() && !starts_with(h.as_str(), "_") {
                return Some(FriendlyName::new(h.clone()));
            }
        }
        None
    }

    /// The identity that the signals give.
    pub fn identify(&self) -> (r: DeviceIdentity)
        ensures
            r@ == identity_from(self@),
    {
        DeviceIdentity {
            device_type: self.classify(),
            manufacturer: self.manufacturer(),
            model: self.model(),
            friendly_name: self.display_name(),
        }
    }
}

fn is_tv_brand_text(o: &Option<String>) -> (r: bool)
    ensures
        r == is_tv_brand(o.deep_view()),
{
    some_contains(o, "samsung") || some_contains(o, "lg") || some_contains(o, "sony")
        || some_contains(o, "vizio") || some_contains(o, "tcl") || some_contains(o, "hisense")
}

fn is_printer_brand_text(o: &Option<String>) -> (r: bool)
    ensures
        r == is_printer_brand(o.deep_view()),
{
    some_contains(o, "brother") || some_contains(o, "hp") || some_contains(o, "canon")
        || some_contains(o, "epson") || some_contains(o, "xerox")
}

fn maker_named_by_word(w: &str) -> (r: Option<&'static str>)
    ensures
        match r {
            Some(n) => maker_named_by(w@) == Some(n@),
            None => maker_named_by(w@) is None,
        },
{
    if eq_ignore_ascii_case(w, "Samsung") {
        Some("Samsung")
    } else if eq_ignore_ascii_case(w, "LG") {
        Some("LG")
    } else if eq_ignore_ascii_case(w, "Sony") {
        Some("Sony")
    } else if eq_ignore_ascii_case(w, "Brother") {
        Some("Brother")
    } else if eq_ignore_ascii_case(w, "HP") {
        Some("HP")
    } else if eq_ignore_ascii_case(w, "Canon") {
        Some("Canon")
    } else if eq_ignore_ascii_case(w, "Epson") {
        Some("Epson")
    } else if eq_ignore_ascii_case(w, "Apple") {
        Some("Apple")
    } else if eq_ignore_ascii_case(w, "Google") {
        Some("Google")
    } else if eq_ignore_ascii_case(w, "Amazon") {
        Some("Amazon")
    } else {
        None
    }
}

fn maker_in_host_text(h: &str) -> (r: Option<&'static str>)
    ensures
        match r {
            Some(n) => maker_in_host(h@) == Some(n@),
            None => maker_in_host(h@) is None,
        },
{
    if contains(h, "samsung") {
        Some("Samsung")
    } else if contains(h, "lg") {
        Some("Lg")
    } else if contains(h, "sony") {
        Some("Sony")
    } else if contains(h, "brother") {
        Some("Brother")
    } else if contains(h, "hp") {
        Some("Hp")
    } else if contains(h, "canon") {
        Some("Canon")
    } else if contains(h, "epson") {
        Some("Epson")
    } else if contains(h, "apple") {
        Some("Apple")
    } else if contains(h, "google") {
        Some("Google")
    } else if contains(h, "amazon") {
        Some("Amazon")
    } else {
        None
    }
}

} // verus!
