//! From a parsed TOML table to a configuration document.

use vstd::prelude::*;
use crate::config::{nul_terminated, pem_bytes, CaCert, Config, ConfigView, Https, Net, Wifi, WifiView};
use crate::config::document::{
    document_entries, parse_document, table_entries, table_get, value_as_integer, value_as_str,
    value_as_table, Node,
};

verus! {

/// A key of the configuration document.
#[derive(Debug, Clone, Copy, PartialEq, Eq, Structural)]
pub enum Field {
    Wifi,
    Ssid,
    Password,
    Channel,
    Net,
    Https,
    CaCert,
    Pem,
}

/// Why a byte string is not a configuration document.
#[derive(Debug, Clone, Copy, PartialEq, Eq, Structural)]
pub enum ConfigError {
    /// The bytes are not a TOML document.
    Syntax,
    /// A required key is absent.
    Missing(Field),
    /// A key holds a value of the wrong kind, or a number out of range.
    Invalid(Field),
}

/// The text stored under the required key `key`.
pub open spec fn text_field(table: Map<Seq<char>, Node>, key: Seq<char>, field: Field) -> Result<
    Seq<char>,
    ConfigError,
> {
    if !table.contains_key(key) {
        Err(ConfigError::Missing(field))
    } else {
        match table[key] {
            Node::Text(text) => Ok(text),
            _ => Err(ConfigError::Invalid(field)),
        }
    }
}

/// The table stored under the required key `key`.
pub open spec fn table_field(table: Map<Seq<char>, Node>, key: Seq<char>, field: Field) -> Result<
    Map<Seq<char>, Node>,
    ConfigError,
> {
    if !table.contains_key(key) {
        Err(ConfigError::Missing(field))
    } else {
        match table[key] {
            Node::Table(inner) => Ok(inner),
            _ => Err(ConfigError::Invalid(field)),
        }
    }
}

/// The optional Wi-Fi channel of a `wifi` table: absent, or an integer that fits a byte.
pub open spec fn channel_field(table: Map<Seq<char>, Node>) -> Result<Option<u8>, ConfigError> {
    if !table.contains_key("channel"@) {
        Ok(None)
    } else {
        match table["channel"@] {
            Node::Integer(n) => if 0 <= n <= u8::MAX {
                Ok(Some(n as u8))
            } else {
                Err(ConfigError::Invalid(Field::Channel))
            },
            _ => Err(ConfigError::Invalid(Field::Channel)),
        }
    }
}

/// The Wi-Fi section that a `wifi` table spells.
pub open spec fn wifi_of(table: Map<Seq<char>, Node>) -> Result<WifiView, ConfigError> {
    match text_field(table, "ssid"@, Field::Ssid) {
        Err(e) => Err(e),
        Ok(ssid) => match text_field(table, "password"@, Field::Password) {
            Err(e) => Err(e),
            Ok(password) => match channel_field(table) {
                Err(e) => Err(e),
                Ok(channel) => Ok(WifiView { ssid, password, channel }),
            },
        },
    }
}

/// The certificate bytes that a `ca_cert` table spells: its `pem` text, NUL-terminated.
pub open spec fn ca_cert_of(table: Map<Seq<char>, Node>) -> Result<Seq<u8>, ConfigError> {
    match text_field(table, "pem"@, Field::Pem) {
        Err(e) => Err(e),
        Ok(text) => Ok(pem_bytes(text)),
    }
}

/// The certificate bytes that a `net` table spells, found under `https.ca_cert`.
pub open spec fn net_of(table: Map<Seq<char>, Node>) -> Result<Seq<u8>, ConfigError> {
    match table_field(table, "https"@, Field::Https) {
        Err(e) => Err(e),
        Ok(https) => match table_field(https, "ca_cert"@, Field::CaCert) {
            Err(e) => Err(e),
            Ok(ca_cert) => ca_cert_of(ca_cert),
        },
    }
}

/// The configuration that a top-level table spells. The `wifi` section is
/// read first, so where both sections are at fault the error names `wifi`.
/// Keys that the document does not know are passed over.
pub open spec fn config_of(table: Map<Seq<char>, Node>) -> Result<ConfigView, ConfigError> {
    match table_field(table, "wifi"@, Field::Wifi) {
        Err(e) => Err(e),
        Ok(wifi_table) => match wifi_of(wifi_table) {
            Err(e) => Err(e),
            Ok(wifi) => match table_field(table, "net"@, Field::Net) {
                Err(e) => Err(e),
                Ok(net_table) => match net_of(net_table) {
                    Err(e) => Err(e),
                    Ok(ca_cert) => Ok(ConfigView { wifi, ca_cert }),
                },
            },
        },
    }
}

/// The configuration that `bytes` spell as a TOML document.
pub open spec fn decode(bytes: Seq<u8>) -> Result<ConfigView, ConfigError> {
    match document_entries(bytes) {
        None => Err(ConfigError::Syntax),
        Some(table) => config_of(table),
    }
}

/// True when `got` is the executable form of the decoding outcome `want`.
pub open spec fn decodes_to<T: View>(got: Result<T, ConfigError>, want: Result<T::V, ConfigError>) -> bool {
    match got {
        Ok(value) => want == Ok::<T::V, ConfigError>(value@),
        Err(e) => want == Err::<T::V, ConfigError>(e),
    }
}

/// Every document that decodes carries a certificate that ends in a NUL.
pub proof fn lemma_decoded_is_terminated(bytes: Seq<u8>)
    ensures
        decode(bytes) matches Ok(config) ==> nul_terminated(config.ca_cert),
{
}

/// A key that the document does not know changes nothing: with or without
/// it at the top level, the same configuration is decoded.
pub proof fn lemma_unknown_key_is_passed_over(table: Map<Seq<char>, Node>, key: Seq<char>, value: Node)
    requires
        key != "wifi"@,
        key != "net"@,
    ensures
        config_of(table.insert(key, value)) == config_of(table),
{
}

fn text_at(table: &toml::Table, key: &str, field: Field) -> (got: Result<String, ConfigError>)
    ensures
        decodes_to(got, text_field(table_entries(table), key@, field)),
{
    match table_get(table, key) {
        None => Err(ConfigError::Missing(field)),
        Some(value) => match value_as_str(value) {
            None => Err(ConfigError::Invalid(field)),
            Some(text) => Ok(text.to_owned()),
        },
    }
}

fn table_at<'a>(table: &'a toml::Table, key: &str, field: Field) -> (got: Result<
    &'a toml::Table,
    ConfigError,
>)
    ensures
        match got {
            Ok(inner) => table_field(table_entries(table), key@, field) == Ok::<
                Map<Seq<char>, Node>,
                ConfigError,
            >(table_entries(inner)),
            Err(e) => table_field(table_entries(table), key@, field) == Err::<
                Map<Seq<char>, Node>,
                ConfigError,
            >(e),
        },
{
    match table_get(table, key) {
        None => Err(ConfigError::Missing(field)),
        Some(value) => match value_as_table(value) {
            None => Err(ConfigError::Invalid(field)),
            Some(inner) => Ok(inner),
        },
    }
}

fn channel_at(table: &toml::Table) -> (got: Result<Option<u8>, ConfigError>)
    ensures
        got == channel_field(table_entries(table)),
{
    match table_get(table, "channel") {
        None => Ok(None),
        Some(value) => match value_as_integer(value) {
            None => Err(ConfigError::Invalid(Field::Channel)),
            Some(n) => if 0 <= n && n <= 255 {
                Ok(Some(n as u8))
            } else {
                Err(ConfigError::Invalid(Field::Channel))
            },
        },
    }
}

impl Wifi {
    /// Reads the Wi-Fi section out of a parsed `wifi` table.
    pub fn from_table(table: &toml::Table) -> (got: Result<Wifi, ConfigError>)
        ensures
            decodes_to(got, wifi_of(table_entries(table))),
    {
        let ssid = match text_at(table, "ssid", Field::Ssid) {
            Ok(ssid) => ssid,
            Err(e) => { return Err(e); },
        };
        let password = match text_at(table, "password", Field::Password) {
            Ok(password) => password,
            Err(e) => { return Err(e); },
        };
        match channel_at(table) {
            Ok(channel) => Ok(Wifi { ssid, password, channel }),
            Err(e) => Err(e),
        }
    }
}

impl CaCert {
    /// Reads a certificate out of a parsed `ca_cert` table: the text under
    /// `pem`, with the terminating NUL appended.
    pub fn from_table(table: &toml::Table) -> (got: Result<CaCert, ConfigError>)
        ensures
            decodes_to(got, ca_cert_of(table_entries(table))),
            got matches Ok(cert) ==> cert.wf(),
    {
        match table_get(table, "pem") {
            None => Err(ConfigError::Missing(Field::Pem)),
            Some(value) => match value_as_str(value) {
                None => Err(ConfigError::Invalid(Field::Pem)),
                Some(text) => Ok(CaCert::from_pem_text(text)),
            },
        }
    }
}

impl Net {
    /// Reads the network section out of a parsed `net` table.
    pub fn from_table(table: &toml::Table) -> (got: Result<Net, ConfigError>)
        ensures
            match got {
                Ok(net) => net_of(table_entries(table)) == Ok::<Seq<u8>, ConfigError>(
                    net.https.ca_cert@,
                ) && net.https.ca_cert.wf(),
                Err(e) => net_of(table_entries(table)) == Err::<Seq<u8>, ConfigError>(e),
            },
    {
        let https = match table_at(table, "https", Field::Https) {
            Ok(https) => https,
            Err(e) => { return Err(e); },
        };
        let ca_cert = match table_at(https, "ca_cert", Field::CaCert) {
            Ok(ca_cert) => ca_cert,
            Err(e) => { return Err(e); },
        };
        match CaCert::from_table(ca_cert) {
            Ok(ca_cert) => Ok(Net { https: Https { ca_cert } }),
            Err(e) => Err(e),
        }
    }
}

impl Config {
    /// Reads a configuration out of the top-level table of a parsed document.
    pub fn from_table(table: &toml::Table) -> (got: Result<Config, ConfigError>)
        ensures
            decodes_to(got, config_of(table_entries(table))),
            got matches Ok(config) ==> config.wf(),
    {
        let wifi_table = match table_at(table, "wifi", Field::Wifi) {
            Ok(wifi_table) => wifi_table,
            Err(e) => { return Err(e); },
        };
        let wifi = match Wifi::from_table(wifi_table) {
            Ok(wifi) => wifi,
            Err(e) => { return Err(e); },
        };
        let net_table = match table_at(table, "net", Field::Net) {
            Ok(net_table) => net_table,
            Err(e) => { return Err(e); },
        };
        match Net::from_table(net_table) {
            Ok(net) => Ok(Config { wifi, net }),
            Err(e) => Err(e),
        }
    }

    /// Decodes a configuration from the bytes of a TOML document.
    pub fn from_toml(bytes: &[u8]) -> (got: Result<Config, ConfigError>)
        ensures
            decodes_to(got, decode(bytes@)),
            got matches Ok(config) ==> config.wf(),
    {
        match parse_document(bytes) {
            None => Err(ConfigError::Syntax),
            Some(table) => Config::from_table(&table),
        }
    }
}

} // verus!
