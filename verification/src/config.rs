//! The configuration document and how it is decoded.

pub mod bootstrap;
pub mod decode;
pub mod document;
pub mod listing;
pub mod store;

use vstd::prelude::*;
use vstd::string::StringSliceAdditionalSpecFns;
use vstd::slice::slice_to_vec;
use crate::net::ca_certs::LETS_ENCRYPT_ISRG_ROOT_X1;

verus! {

/// SSID of the access point that the compiled-in configuration joins.
pub const DEFAULT_SSID: &'static str = "Wokwi-GUEST";

/// Wi-Fi channel of the compiled-in configuration.
pub const DEFAULT_CHANNEL: u8 = 6;

/// The whole configuration document.
#[derive(Debug, Clone, PartialEq, Eq)]
pub struct Config {
    pub wifi: Wifi,
    pub net: Net,
}

/// Credentials of the access point to join.
#[derive(Debug, Clone, PartialEq, Eq)]
pub struct Wifi {
    pub ssid: String,
    pub password: String,
    pub channel: Option<u8>,
}

/// Settings of the network clients.
#[derive(Debug, Clone, PartialEq, Eq)]
pub struct Net {
    pub https: Https,
}

/// Settings of the HTTPS client.
#[derive(Debug, Clone, PartialEq, Eq)]
pub struct Https {
    pub ca_cert: CaCert,
}

/// A CA certificate as the bytes of its PEM text followed by one NUL.
#[derive(Debug, Clone, PartialEq, Eq)]
pub struct CaCert {
    pub pem: Vec<u8>,
}

/// Mathematical value of a [`Wifi`] section.
pub struct WifiView {
    pub ssid: Seq<char>,
    pub password: Seq<char>,
    pub channel: Option<u8>,
}

/// Mathematical value of a [`Config`]: the Wi-Fi section and the certificate bytes.
pub struct ConfigView {
    pub wifi: WifiView,
    pub ca_cert: Seq<u8>,
}

impl View for CaCert {
    type V = Seq<u8>;

    open spec fn view(&self) -> Seq<u8> {
        self.pem@
    }
}

impl View for Wifi {
    type V = WifiView;

    open spec fn view(&self) -> WifiView {
        WifiView { ssid: self.ssid@, password: self.password@, channel: self.channel }
    }
}

impl View for Config {
    type V = ConfigView;

    open spec fn view(&self) -> ConfigView {
        ConfigView { wifi: self.wifi@, ca_cert: self.net.https.ca_cert@ }
    }
}

/// The bytes that stand for PEM text `text`: its UTF-8 encoding, then one NUL.
pub open spec fn pem_bytes(text: Seq<char>) -> Seq<u8> {
    vstd::utf8::encode_utf8(text).push(0u8)
}

/// True when `bytes` ends in the NUL that the certificate parser looks for.
pub open spec fn nul_terminated(bytes: Seq<u8>) -> bool {
    bytes.len() > 0 && bytes.last() == 0u8
}

/// The compiled-in configuration.
pub open spec fn default_config() -> ConfigView {
    ConfigView {
        wifi: WifiView {
            ssid: DEFAULT_SSID@,
            password: Seq::<char>::empty(),
            channel: Some(DEFAULT_CHANNEL),
        },
        ca_cert: pem_bytes(LETS_ENCRYPT_ISRG_ROOT_X1@),
    }
}

impl CaCert {
    /// True when the certificate bytes end in a NUL.
    pub open spec fn wf(&self) -> bool {
        nul_terminated(self.pem@)
    }

    /// Decodes the PEM text of a certificate into its terminated bytes.
    pub fn from_pem_text(text: &str) -> (cert: CaCert)
        ensures
            cert@ == pem_bytes(text@),
            cert.wf(),
    {
        let mut data = slice_to_vec(text.as_bytes());
        data.push(0u8);
        CaCert { pem: data }
    }

    /// Tells whether the certificate bytes end in a NUL.
    pub fn is_terminated(&self) -> (terminated: bool)
        ensures
            terminated == self.wf(),
    {
        let len = self.pem.len();
        len > 0 && self.pem[len - 1] == 0u8
    }
}

impl Config {
    /// True when the certificate of the document is usable by the TLS layer.
    pub open spec fn wf(&self) -> bool {
        self.net.https.ca_cert.wf()
    }
}

impl Default for Config {
    fn default() -> (config: Config)
        ensures
            config@ == default_config(),
            config.wf(),
    {
        Config {
            wifi: Wifi {
                ssid: DEFAULT_SSID.to_owned(),
                password: String::new(),
                channel: Some(DEFAULT_CHANNEL),
            },
            net: Net { https: Https { ca_cert: CaCert::from_pem_text(LETS_ENCRYPT_ISRG_ROOT_X1) } },
        }
    }
}

} // verus!
