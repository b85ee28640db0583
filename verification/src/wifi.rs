//! Plain-value models of the WiFi controller's data: what a radio scan
//! reports and what a client configuration holds.  The controller itself is
//! a collaborator outside this crate; these types carry exactly what the
//! provisioning logic reads and writes.

use vstd::prelude::*;

verus! {

/// Authentication modes the controller reports for an access point.
#[derive(Clone, Copy, PartialEq, Eq, Structural, Debug)]
pub enum WifiAuthMode {
    Open,
    Wep,
    Wpa,
    Wpa2Personal,
    WpaWpa2Personal,
    Wpa2Enterprise,
    Wpa3Personal,
    Wpa2Wpa3Personal,
}

/// One access point as a radio scan reports it.
pub struct WifiApInfo {
    /// Network name, a raw byte sequence.
    pub ssid: Vec<u8>,
    /// Hardware address, six bytes.
    pub bssid: Vec<u8>,
    /// Radio channel.
    pub channel: u8,
    /// Received signal strength.
    pub signal_strength: i8,
    /// Authentication mode.
    pub auth: WifiAuthMode,
}

/// The mathematical value of a [`WifiApInfo`].
pub struct WifiApInfoView {
    pub ssid: Seq<u8>,
    pub bssid: Seq<u8>,
    pub channel: u8,
    pub signal_strength: i8,
    pub auth: WifiAuthMode,
}

impl View for WifiApInfo {
    type V = WifiApInfoView;

    open spec fn view(&self) -> WifiApInfoView {
        WifiApInfoView {
            ssid: self.ssid@,
            bssid: self.bssid@,
            channel: self.channel,
            signal_strength: self.signal_strength,
            auth: self.auth,
        }
    }
}

/// A station (client) configuration staged on the controller.
pub struct WifiClientConfig {
    pub ssid: String,
    pub password: String,
    pub bssid: Vec<u8>,
    pub channel: u8,
}

/// The mathematical value of a [`WifiClientConfig`].
pub struct WifiClientConfigView {
    pub ssid: Seq<char>,
    pub password: Seq<char>,
    pub bssid: Seq<u8>,
    pub channel: u8,
}

impl View for WifiClientConfig {
    type V = WifiClientConfigView;

    open spec fn view(&self) -> WifiClientConfigView {
        WifiClientConfigView {
            ssid: self.ssid@,
            password: self.password@,
            bssid: self.bssid@,
            channel: self.channel,
        }
    }
}

impl Default for WifiClientConfig {
    /// The empty configuration: no network, no secret, any channel.
    fn default() -> (r: WifiClientConfig)
        ensures
            r@.ssid == Seq::<char>::empty(),
            r@.password == Seq::<char>::empty(),
            r@.bssid == Seq::<u8>::empty(),
            r@.channel == 0,
    {
        WifiClientConfig {
            ssid: String::new(),
            password: String::new(),
            bssid: Vec::new(),
            channel: 0,
        }
    }
}

} // verus!
