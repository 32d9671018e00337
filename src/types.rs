//! The values a discovery run produces: hostnames, services, UPnP
//! descriptors, device classes and identities.

use vstd::prelude::*;
use crate::names::{DeviceTypeName, FriendlyName, ManufacturerName, ModelName, ServiceInstanceName, ServiceType};
use crate::text::{before_first, first_piece, owned, same_text, trim_end_matches, trim_leading,
    trim_start_char, trim_suffixes};

verus! {

/// The view of an optional value that has one.
pub open spec fn opt_view<T: View>(o: Option<T>) -> Option<T::V> {
    match o {
        Some(t) => Some(t@),
        None => None,
    }
}

/// Where the lookup of a device's name stands.
#[derive(Debug, PartialEq, Eq)]
pub enum Hostname {
    /// No answer yet.
    Resolving,
    /// A non-empty name.
    Resolved(String),
    /// The lookup failed, timed out, or gave an empty name.
    Unknown,
}

/// What a hostname holds: `Some(name)` when resolved.
pub enum HostnameView {
    Resolving,
    Resolved(Seq<char>),
    Unknown,
}

impl View for Hostname {
    type V = HostnameView;

    open spec fn view(&self) -> HostnameView {
        match self {
            Hostname::Resolving => HostnameView::Resolving,
            Hostname::Resolved(s) => HostnameView::Resolved(s@),
            Hostname::Unknown => HostnameView::Unknown,
        }
    }
}

impl Clone for Hostname {
    fn clone(&self) -> (r: Self)
        ensures
            r@ == self@,
    {
        match self {
            Hostname::Resolving => Hostname::Resolving,
            Hostname::Resolved(s) => Hostname::Resolved(s.clone()),
            Hostname::Unknown => Hostname::Unknown,
        }
    }
}

/// The hostname that a looked-up name gives: an empty name counts as unknown.
pub open spec fn hostname_from(name: Seq<char>) -> HostnameView {
    if name.len() == 0 {
        HostnameView::Unknown
    } else {
        HostnameView::Resolved(name)
    }
}

impl Hostname {
    /// A resolved hostname, or `Unknown` when the name is empty.
    pub fn resolved(name: String) -> (r: Hostname)
        ensures
            r@ == hostname_from(name@),
    {
        if name.as_str().is_empty() {
            Hostname::Unknown
        } else {
            Hostname::Resolved(name)
        }
    }

    /// The resolved name, if there is one.
    pub open spec fn name_of(self) -> Option<Seq<char>> {
        match self {
            Hostname::Resolved(s) => Some(s@),
            _ => None,
        }
    }

    /// The text shown for the hostname.
    pub fn to_text(&self) -> (r: String)
        ensures
            r@ == match self@ {
                HostnameView::Resolving => "Resolving..."@,
                HostnameView::Resolved(s) => s,
                HostnameView::Unknown => "Unknown"@,
            },
    {
        match self {
            Hostname::Resolving => owned("Resolving..."),
            Hostname::Resolved(s) => s.clone(),
            Hostname::Unknown => owned("Unknown"),
        }
    }
}

/// A service that mDNS found on a device.
#[derive(Debug, PartialEq, Eq)]
pub struct ServiceInfo {
    /// The service type, such as `_airplay._tcp.local.`.
    pub service_type: ServiceType,
    /// The instance's full name.
    pub instance_name: ServiceInstanceName,
    pub port: u16,
}

/// What a service record holds.
pub struct ServiceView {
    pub service_type: Seq<char>,
    pub instance_name: Seq<char>,
    pub port: u16,
}

impl View for ServiceInfo {
    type V = ServiceView;

    open spec fn view(&self) -> ServiceView {
        ServiceView { service_type: self.service_type@, instance_name: self.instance_name@, port: self.port }
    }
}

/// The views of a sequence of service records.
pub open spec fn services_view(s: Seq<ServiceInfo>) -> Seq<ServiceView> {
    s.map_values(|x: ServiceInfo| x@)
}

/// A copy of a list of service records.
pub fn clone_services(v: &Vec<ServiceInfo>) -> (r: Vec<ServiceInfo>)
    ensures
        services_view(r@) == services_view(v@),
{
    let mut out: Vec<ServiceInfo> = Vec::new();
    let mut i: usize = 0;
    while i < v.len()
        invariant
            i <= v@.len(),
            out@.len() == i,
            forall|j: int| 0 <= j < i ==> #[trigger] out@[j]@ == v@[j]@,
        decreases v.len() - i,
    {
        out.push(v[i].clone());
        i += 1;
    }
    assert(services_view(out@) =~= services_view(v@));
    out
}

impl Clone for ServiceInfo {
    fn clone(&self) -> (r: Self)
        ensures
            r@ == self@,
    {
        ServiceInfo {
            service_type: self.service_type.clone(),
            instance_name: self.instance_name.clone(),
            port: self.port,
        }
    }
}

/// The label shown for a service type: a fixed name for the well-known
/// types; otherwise the type without `.local.` suffixes and leading
/// underscores, up to its first dot.
pub open spec fn service_label(t: Seq<char>) -> Seq<char> {
    if t == "_airplay._tcp.local."@ {
        "AirPlay"@
    } else if t == "_ssh._tcp.local."@ {
        "SSH"@
    } else if t == "_http._tcp.local."@ {
        "HTTP"@
    } else if t == "_https._tcp.local."@ {
        "HTTPS"@
    } else if t == "_smb._tcp.local."@ {
        "File Sharing"@
    } else if t == "_afpovertcp._tcp.local."@ {
        "AFP"@
    } else if t == "_printer._tcp.local."@ {
        "Printer"@
    } else if t == "_ipp._tcp.local."@ {
        "Printer"@
    } else if t == "_googlecast._tcp.local."@ {
        "Chromecast"@
    } else if t == "_homekit._tcp.local."@ {
        "HomeKit"@
    } else if t == "_spotify-connect._tcp.local."@ {
        "Spotify"@
    } else if t == "_raop._tcp.local."@ {
        "AirTunes"@
    } else {
        before_first(trim_leading(trim_suffixes(t, ".local."@), '_'), '.')
    }
}

impl ServiceInfo {
    pub fn new(service_type: ServiceType, instance_name: ServiceInstanceName, port: u16) -> (r: Self)
        ensures
            r.service_type@ == service_type@,
            r.instance_name@ == instance_name@,
            r.port == port,
    {
        ServiceInfo { service_type, instance_name, port }
    }

    /// A short label for the service type.
    pub fn friendly_type(&self) -> (r: &str)
        ensures
            r@ == service_label(self.service_type@),
    {
        let t = self.service_type.as_str();
        if same_text(t, "_airplay._tcp.local.") {
            "AirPlay"
        } else if same_text(t, "_ssh._tcp.local.") {
            "SSH"
        } else if same_text(t, "_http._tcp.local.") {
            "HTTP"
        } else if same_text(t, "_https._tcp.local.") {
            "HTTPS"
        } else if same_text(t, "_smb._tcp.local.") {
            "File Sharing"
        } else if same_text(t, "_afpovertcp._tcp.local.") {
            "AFP"
        } else if same_text(t, "_printer._tcp.local.") {
            "Printer"
        } else if same_text(t, "_ipp._tcp.local.") {
            "Printer"
        } else if same_text(t, "_googlecast._tcp.local.") {
            "Chromecast"
        } else if same_text(t, "_homekit._tcp.local.") {
            "HomeKit"
        } else if same_text(t, "_spotify-connect._tcp.local.") {
            "Spotify"
        } else if same_text(t, "_raop._tcp.local.") {
            "AirTunes"
        } else {
            proof {
                reveal_strlit(".local.");
            }
            let bare = trim_end_matches(t, ".local.");
            let bare = trim_start_char(bare, '_');
            first_piece(bare, '.')
        }
    }
}

/// How recently a device was seen.
#[derive(Debug, Clone, Copy, PartialEq, Eq, Structural)]
pub enum ActivityStatus {
    /// Under 30 seconds ago.
    Active,
    /// Under 5 minutes ago.
    Recent,
    /// Under 30 minutes ago.
    Idle,
    /// 30 minutes ago or more.
    Stale,
}

/// The activity bucket of a time since last seen, in milliseconds.
pub open spec fn activity_for(elapsed_ms: u64) -> ActivityStatus {
    if elapsed_ms < 30_000 {
        ActivityStatus::Active
    } else if elapsed_ms < 300_000 {
        ActivityStatus::Recent
    } else if elapsed_ms < 1_800_000 {
        ActivityStatus::Idle
    } else {
        ActivityStatus::Stale
    }
}

/// Milliseconds from `then` to `now`; zero when `then` lies in the future.
pub open spec fn elapsed_ms(then: u64, now: u64) -> u64 {
    if now >= then {
        (now - then) as u64
    } else {
        0
    }
}

/// Relies on `SystemTime::now`, read as milliseconds since the Unix epoch
/// (zero for a clock set before it). Nothing is known of the value.
#[verifier::external_body]
pub(crate) fn unix_millis_now() -> (r: u64) {
    std::time::SystemTime::now().duration_since(std::time::UNIX_EPOCH).map(|d| d.as_millis() as u64).unwrap_or(0)
}

impl ActivityStatus {
    /// The bucket for a time since last seen, in milliseconds.
    pub fn from_elapsed_ms(elapsed: u64) -> (r: Self)
        ensures
            r == activity_for(elapsed),
    {
        if elapsed < 30_000 {
            ActivityStatus::Active
        } else if elapsed < 300_000 {
            ActivityStatus::Recent
        } else if elapsed < 1_800_000 {
            ActivityStatus::Idle
        } else {
            ActivityStatus::Stale
        }
    }

    /// The bucket of a device last seen at `last_seen`, judged at `now`
    /// (both in milliseconds since the Unix epoch).
    pub fn at(last_seen: u64, now: u64) -> (r: Self)
        ensures
            r == activity_for(elapsed_ms(last_seen, now)),
    {
        let elapsed = if now >= last_seen { now - last_seen } else { 0 };
        ActivityStatus::from_elapsed_ms(elapsed)
    }

    /// The bucket of a device last seen at `last_seen` (milliseconds since the
    /// Unix epoch), judged by the clock now.
    pub fn from_last_seen(last_seen: u64) -> (r: Self)
        ensures
            exists|now: u64| r == activity_for(elapsed_ms(last_seen, now)),
    {
        let now = unix_millis_now();
        ActivityStatus::at(last_seen, now)
    }

    /// Pango markup that opens and closes the colour of this status.
    pub fn pango_color(&self) -> (r: (&'static str, &'static str))
        ensures
            r.0@ == pango_open(*self),
            r.1@ == pango_close(*self),
    {
        match self {
            ActivityStatus::Active => ("<span color='#00FF00'>", "</span>"),
            ActivityStatus::Recent => ("<span color='#FFFF00'>", "</span>"),
            ActivityStatus::Idle => ("", ""),
            ActivityStatus::Stale => ("<span color='#888888'>", "</span>"),
        }
    }

    /// The text wrapped in this status's colour markup.
    pub fn colorize(&self, text: &str) -> (r: String)
        ensures
            r@ == pango_open(*self) + text@ + pango_close(*self),
    {
        let (start, end) = self.pango_color();
        let mut out = owned(start);
        out.append(text);
        out.append(end);
        out
    }
}

/// The opening markup of a status: green, yellow, none or grey.
pub open spec fn pango_open(s: ActivityStatus) -> Seq<char> {
    match s {
        ActivityStatus::Active => "<span color='#00FF00'>"@,
        ActivityStatus::Recent => "<span color='#FFFF00'>"@,
        ActivityStatus::Idle => ""@,
        ActivityStatus::Stale => "<span color='#888888'>"@,
    }
}

/// The closing markup of a status.
pub open spec fn pango_close(s: ActivityStatus) -> Seq<char> {
    match s {
        ActivityStatus::Idle => ""@,
        _ => "</span>"@,
    }
}

/// The class of a device.
#[derive(Debug, Clone, Copy, PartialEq, Eq, Structural)]
pub enum DeviceType {
    Television,
    Printer,
    Router,
    Computer,
    NAS,
    MobileDevice,
    Tablet,
    Speaker,
    StreamingDevice,
    SmartHome,
    Unknown,
}

/// The name shown for a device class.
pub open spec fn device_type_label(t: DeviceType) -> Seq<char> {
    match t {
        DeviceType::Television => "Television"@,
        DeviceType::Printer => "Printer"@,
        DeviceType::Router => "Router"@,
        DeviceType::Computer => "Computer"@,
        DeviceType::NAS => "NAS"@,
        DeviceType::MobileDevice => "Mobile Device"@,
        DeviceType::Tablet => "Tablet"@,
        DeviceType::Speaker => "Speaker"@,
        DeviceType::StreamingDevice => "Streaming Device"@,
        DeviceType::SmartHome => "Smart Home"@,
        DeviceType::Unknown => "Device"@,
    }
}

/// The icon shown for a device class.
pub open spec fn device_type_icon(t: DeviceType) -> Seq<char> {
    match t {
        DeviceType::Television => "\u{1F4FA}"@,
        DeviceType::Printer => "\u{1F5A8} "@,
        DeviceType::Router => "\u{1F310}"@,
        DeviceType::Computer => "\u{1F4BB}"@,
        DeviceType::NAS => "\u{1F5C4}"@,
        DeviceType::MobileDevice => "\u{1F4DE}"@,
        DeviceType::Tablet => "\u{1F4CB}"@,
        DeviceType::Speaker => "\u{1F50A}"@,
        DeviceType::StreamingDevice => "\u{1F4FA}"@,
        DeviceType::SmartHome => "\u{1F3E0}"@,
        DeviceType::Unknown => "\u{1F5A5} "@,
    }
}

impl DeviceType {
    pub fn as_str(&self) -> (r: &'static str)
        ensures
            r@ == device_type_label(*self),
    {
        match self {
            DeviceType::Television => "Television",
            DeviceType::Printer => "Printer",
            DeviceType::Router => "Router",
            DeviceType::Computer => "Computer",
            DeviceType::NAS => "NAS",
            DeviceType::MobileDevice => "Mobile Device",
            DeviceType::Tablet => "Tablet",
            DeviceType::Speaker => "Speaker",
            DeviceType::StreamingDevice => "Streaming Device",
            DeviceType::SmartHome => "Smart Home",
            DeviceType::Unknown => "Device",
        }
    }

    /// An icon for the class; the printer and the generic device carry a
    /// trailing space so that narrow glyphs line up.
    pub fn as_emoji(&self) -> (r: &'static str)
        ensures
            r@ == device_type_icon(*self),
    {
        match self {
            DeviceType::Television => "\u{1F4FA}",
            DeviceType::Printer => "\u{1F5A8} ",
            DeviceType::Router => "\u{1F310}",
            DeviceType::Computer => "\u{1F4BB}",
            DeviceType::NAS => "\u{1F5C4}",
            DeviceType::MobileDevice => "\u{1F4DE}",
            DeviceType::Tablet => "\u{1F4CB}",
            DeviceType::Speaker => "\u{1F50A}",
            DeviceType::StreamingDevice => "\u{1F4FA}",
            DeviceType::SmartHome => "\u{1F3E0}",
            DeviceType::Unknown => "\u{1F5A5} ",
        }
    }
}

/// A device's class and names.
#[derive(Debug, PartialEq, Eq)]
pub struct DeviceIdentity {
    pub device_type: DeviceType,
    pub manufacturer: Option<ManufacturerName>,
    pub model: Option<ModelName>,
    pub friendly_name: Option<FriendlyName>,
}

/// What an identity holds, with its names as character sequences.
pub struct IdentityView {
    pub device_type: DeviceType,
    pub manufacturer: Option<Seq<char>>,
    pub model: Option<Seq<char>>,
    pub friendly_name: Option<Seq<char>>,
}

impl View for DeviceIdentity {
    type V = IdentityView;

    open spec fn view(&self) -> IdentityView {
        IdentityView {
            device_type: self.device_type,
            manufacturer: opt_view(self.manufacturer),
            model: opt_view(self.model),
            friendly_name: opt_view(self.friendly_name),
        }
    }
}

impl Clone for DeviceIdentity {
    fn clone(&self) -> (r: Self)
        ensures
            r@ == self@,
    {
        DeviceIdentity {
            device_type: self.device_type,
            manufacturer: match &self.manufacturer {
                Some(m) => Some(m.clone()),
                None => None,
            },
            model: match &self.model {
                Some(m) => Some(m.clone()),
                None => None,
            },
            friendly_name: match &self.friendly_name {
                Some(m) => Some(m.clone()),
                None => None,
            },
        }
    }
}

/// The identity of a device that nothing is known about.
pub open spec fn unknown_identity() -> IdentityView {
    IdentityView { device_type: DeviceType::Unknown, manufacturer: None, model: None, friendly_name: None }
}

/// The one-line text of an identity: the icon, then manufacturer and model
/// where known, else the friendly name, else the class's name.
pub open spec fn identity_text(v: IdentityView) -> Seq<char> {
    device_type_icon(v.device_type) + " "@ + match (v.manufacturer, v.model) {
        (Some(m), Some(n)) => m + " "@ + n,
        (Some(m), None) => m,
        (None, Some(n)) => n,
        (None, None) => match v.friendly_name {
            Some(f) => f,
            None => device_type_label(v.device_type),
        },
    }
}

impl DeviceIdentity {
    pub fn new() -> (r: Self)
        ensures
            r@ == unknown_identity(),
    {
        DeviceIdentity { device_type: DeviceType::Unknown, manufacturer: None, model: None, friendly_name: None }
    }

    /// The identity as one line of text.
    pub fn format(&self) -> (r: String)
        ensures
            r@ == identity_text(self@),
    {
        let mut out = owned(self.device_type.as_emoji());
        out.append(" ");
        match (&self.manufacturer, &self.model) {
            (Some(m), Some(n)) => {
                out.append(m.as_str());
                out.append(" ");
                out.append(n.as_str());
            },
            (Some(m), None) => out.append(m.as_str()),
            (None, Some(n)) => out.append(n.as_str()),
            (None, None) => match &self.friendly_name {
                Some(f) => out.append(f.as_str()),
                None => out.append(self.device_type.as_str()),
            },
        }
        proof {
            assert(out@ =~= identity_text(self@));
        }
        out
    }
}

/// What UPnP tells of a device; any part may be missing.
#[derive(Debug, PartialEq, Eq)]
pub struct UpnpInfo {
    pub friendly_name: Option<FriendlyName>,
    pub manufacturer: Option<ManufacturerName>,
    pub model_name: Option<ModelName>,
    pub device_type: Option<DeviceTypeName>,
}

/// What a UPnP descriptor holds.
pub struct UpnpView {
    pub friendly_name: Option<Seq<char>>,
    pub manufacturer: Option<Seq<char>>,
    pub model_name: Option<Seq<char>>,
    pub device_type: Option<Seq<char>>,
}

impl View for UpnpInfo {
    type V = UpnpView;

    open spec fn view(&self) -> UpnpView {
        UpnpView {
            friendly_name: opt_view(self.friendly_name),
            manufacturer: opt_view(self.manufacturer),
            model_name: opt_view(self.model_name),
            device_type: opt_view(self.device_type),
        }
    }
}

impl Clone for UpnpInfo {
    fn clone(&self) -> (r: Self)
        ensures
            r@ == self@,
    {
        UpnpInfo {
            friendly_name: match &self.friendly_name {
                Some(m) => Some(m.clone()),
                None => None,
            },
            manufacturer: match &self.manufacturer {
                Some(m) => Some(m.clone()),
                None => None,
            },
            model_name: match &self.model_name {
                Some(m) => Some(m.clone()),
                None => None,
            },
            device_type: match &self.device_type {
                Some(m) => Some(m.clone()),
                None => None,
            },
        }
    }
}

impl UpnpInfo {
    /// A descriptor with nothing in it.
    pub fn new() -> (r: Self)
        ensures
            r.friendly_name is None,
            r.manufacturer is None,
            r.model_name is None,
            r.device_type is None,
    {
        UpnpInfo { friendly_name: None, manufacturer: None, model_name: None, device_type: None }
    }
}

impl Default for UpnpInfo {
    fn default() -> (r: Self)
        ensures
            r.friendly_name is None,
            r.manufacturer is None,
            r.model_name is None,
            r.device_type is None,
    {
        UpnpInfo::new()
    }
}

impl Default for DeviceIdentity {
    fn default() -> (r: Self)
        ensures
            r@ == unknown_identity(),
    {
        DeviceIdentity::new()
    }
}

} // verus!
