//! Settings of the plain MQTT uplink, which publishes each collector's state
//! under the device's own topic.

use vstd::prelude::*;

verus! {

/// Percent-encoding of `s`, as `urlencoding::encode` gives it.
pub uninterp spec fn url_encoded(s: Seq<char>) -> Seq<char>;

/// Characters that percent-encoding keeps as they are.
pub open spec fn unreserved(c: char) -> bool {
    ('0' <= c <= '9') || ('a' <= c <= 'z') || ('A' <= c <= 'Z') || c == '-' || c == '_' || c == '.' || c == '~'
}

/// Relies on `urlencoding::encode`: percent-encodes every byte of the text
/// except ASCII alphanumerics and `-`, `_`, `.`, `~`, so text made of those
/// alone comes back unchanged.
#[verifier::external_body]
fn encode(s: &str) -> (r: String)
    ensures
        r@ == url_encoded(s@),
        (forall|i: int| 0 <= i < s@.len() ==> unreserved(#[trigger] s@[i])) ==> r@ == s@,
{
    urlencoding::encode(s).into_owned()
}

/// How the plain MQTT uplink is configured.
#[derive(Clone, Debug, PartialEq, Eq)]
pub struct Options {
    /// The client id; `resymo` where none is given.
    pub client_id: Option<String>,
    /// The device name; the host name where none is given.
    pub device: Option<String>,
    /// The broker's host name.
    pub host: String,
    /// The broker's port; 8883, or 1883 without TLS, where none is given.
    pub port: Option<u16>,
    /// Connect without TLS.
    pub disable_tls: bool,
    /// The keep-alive interval, in nanoseconds.
    pub keep_alive: u64,
    pub username: Option<String>,
    pub password: Option<String>,
}

/// The keep-alive interval where none is configured: five seconds, in
/// nanoseconds.
pub fn default_keep_alive() -> (r: u64)
    ensures
        r == 5_000_000_000u64,
{
    5_000_000_000u64
}

/// The settings the uplink connects and publishes with.
#[derive(Clone, Debug, PartialEq, Eq)]
pub struct Resolved {
    pub client_id: String,
    pub host: String,
    pub port: u16,
    pub tls: bool,
    /// The device name, percent-encoded: the first level of every topic.
    pub device: String,
}

/// Neither a device name nor a host name was given.
#[derive(Clone, Copy, Debug, PartialEq, Eq, Structural)]
pub enum Error {
    NoDeviceName,
}

impl Error {
    /// What went wrong, in words.
    pub fn message(&self) -> (r: &'static str)
        ensures
            r@ == "No device name provided, and failed to detect one"@,
    {
        "No device name provided, and failed to detect one"
    }
}

/// The port used where none is configured.
pub open spec fn default_port(disable_tls: bool) -> u16 {
    if disable_tls { 1883 } else { 8883 }
}

/// The settings of `options`, with `hostname` as the device name where none
/// is configured; an error where there is neither.
pub fn resolve(options: &Options, hostname: Option<String>) -> (r: Result<Resolved, Error>)
    ensures
        (options.device is None && hostname is None) <==> r is Err,
        r matches Ok(s) ==> {
            &&& s.client_id@ == match options.client_id {
                Some(c) => c@,
                None => "resymo"@,
            }
            &&& s.host@ == options.host@
            &&& s.port == match options.port {
                Some(p) => p,
                None => default_port(options.disable_tls),
            }
            &&& s.tls == !options.disable_tls
            &&& s.device@ == url_encoded(
                match options.device {
                    Some(d) => d@,
                    None => hostname->Some_0@,
                },
            )
        },
{
    let device = match &options.device {
        Some(d) => d.clone(),
        None => match hostname {
            Some(h) => h,
            None => return Err(Error::NoDeviceName),
        },
    };
    let client_id = match &options.client_id {
        Some(c) => c.clone(),
        None => String::from_str("resymo"),
    };
    let port = match options.port {
        Some(p) => p,
        None => if options.disable_tls { 1883 } else { 8883 },
    };
    Ok(Resolved {
        client_id,
        host: options.host.clone(),
        port,
        tls: !options.disable_tls,
        device: encode(device.as_str()),
    })
}

/// `device/state/name`
pub open spec fn device_state_topic(device: Seq<char>, name: Seq<char>) -> Seq<char> {
    device + "/state/"@ + name
}

/// `device/log/error`
pub open spec fn device_error_topic(device: Seq<char>) -> Seq<char> {
    device + "/log/error"@
}

impl Resolved {
    /// The topic the state of the collector `name` is published on.
    pub fn state_topic(&self, name: &str) -> (r: String)
        ensures
            r@ == device_state_topic(self.device@, name@),
    {
        let mut r = self.device.clone();
        r.append("/state/");
        r.append(name);
        r
    }

    /// The topic a failure to collect is reported on.
    pub fn error_topic(&self) -> (r: String)
        ensures
            r@ == device_error_topic(self.device@),
    {
        let mut r = self.device.clone();
        r.append("/log/error");
        r
    }
}

} // verus!
