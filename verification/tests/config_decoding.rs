use esp_test::config::bootstrap::CONFIG_TEMPLATE;
use esp_test::config::decode::{ConfigError, Field};
use esp_test::config::{CaCert, Config, Wifi, DEFAULT_CHANNEL, DEFAULT_SSID};
use esp_test::net::ca_certs::LETS_ENCRYPT_ISRG_ROOT_X1;

const MINIMAL: &str = "[wifi]\nssid = \"Example\"\npassword = \"secret\"\n\n[net.https.ca_cert]\npem = \"abc\"\n";

#[test]
fn ca_cert_from_abc_is_text_bytes_and_one_nul() {
    let cert = CaCert::from_pem_text("abc");
    assert_eq!(cert.pem, vec![0x61, 0x62, 0x63, 0x00]);
}

#[test]
fn ca_cert_from_empty_text_is_one_nul() {
    assert_eq!(CaCert::from_pem_text("").pem, vec![0x00]);
}

#[test]
fn ca_cert_keeps_multibyte_text_as_utf8() {
    assert_eq!(CaCert::from_pem_text("é").pem, vec![0xc3, 0xa9, 0x00]);
}

#[test]
fn default_config_has_compiled_in_values() {
    let config = Config::default();
    assert_eq!(config.wifi.ssid, "Wokwi-GUEST");
    assert_eq!(config.wifi.ssid, DEFAULT_SSID);
    assert_eq!(config.wifi.password, "");
    assert_eq!(config.wifi.channel, Some(6));
    assert_eq!(DEFAULT_CHANNEL, 6);
    let mut pem = LETS_ENCRYPT_ISRG_ROOT_X1.as_bytes().to_vec();
    pem.push(0);
    assert_eq!(config.net.https.ca_cert.pem, pem);
}

#[test]
fn root_certificate_is_pem_text() {
    assert!(LETS_ENCRYPT_ISRG_ROOT_X1.starts_with("-----BEGIN CERTIFICATE-----\nMIIFazCCA1OgAwIBAgIRAIIQz7DSQONZRGPgu2OCiwAwDQYJKoZIhvcNAQELBQAw\n"));
    assert!(LETS_ENCRYPT_ISRG_ROOT_X1.ends_with("emyPxgcYxn/eR44/KJ4EBs+lVDR3veyJm+kXQ99b21/+jh5Xos1AnX5iItreGCc=\n-----END CERTIFICATE-----\n"));
    assert_eq!(LETS_ENCRYPT_ISRG_ROOT_X1.len(), 1939);
    assert!(LETS_ENCRYPT_ISRG_ROOT_X1.is_ascii());
    assert!(!LETS_ENCRYPT_ISRG_ROOT_X1.contains('\0'));
}

#[test]
fn document_with_ssid_example_decodes() {
    let config = Config::from_toml(MINIMAL.as_bytes()).unwrap();
    assert_eq!(config.wifi.ssid, "Example");
    assert_eq!(config.wifi.password, "secret");
    assert_eq!(config.wifi.channel, None);
    assert_eq!(config.net.https.ca_cert.pem, vec![0x61, 0x62, 0x63, 0x00]);
}

#[test]
fn channel_is_read_when_present() {
    let text = "[wifi]\nssid = \"a\"\npassword = \"b\"\nchannel = 11\n[net.https.ca_cert]\npem = \"c\"\n";
    let config = Config::from_toml(text.as_bytes()).unwrap();
    assert_eq!(config.wifi.channel, Some(11));
}

#[test]
fn channel_bounds_are_those_of_a_byte() {
    let doc = |channel: &str| {
        format!("[wifi]\nssid = \"a\"\npassword = \"b\"\nchannel = {channel}\n[net.https.ca_cert]\npem = \"c\"\n")
    };
    assert_eq!(Config::from_toml(doc("0").as_bytes()).unwrap().wifi.channel, Some(0));
    assert_eq!(Config::from_toml(doc("255").as_bytes()).unwrap().wifi.channel, Some(255));
    assert_eq!(Config::from_toml(doc("256").as_bytes()), Err(ConfigError::Invalid(Field::Channel)));
    assert_eq!(Config::from_toml(doc("-1").as_bytes()), Err(ConfigError::Invalid(Field::Channel)));
    assert_eq!(Config::from_toml(doc("\"6\"").as_bytes()), Err(ConfigError::Invalid(Field::Channel)));
    assert_eq!(Config::from_toml(doc("6.0").as_bytes()), Err(ConfigError::Invalid(Field::Channel)));
}

#[test]
fn dotted_keys_and_unknown_keys_are_accepted() {
    let text = "title = \"x\"\nwifi.ssid = \"a\"\nwifi.password = \"b\"\nwifi.extra = 1\nnet.https.ca_cert.pem = \"c\"\nnet.https.port = 443\n";
    let config = Config::from_toml(text.as_bytes()).unwrap();
    assert_eq!(config.wifi, Wifi { ssid: "a".to_string(), password: "b".to_string(), channel: None });
    assert_eq!(config.net.https.ca_cert.pem, b"c\0".to_vec());
}

#[test]
fn bytes_that_are_no_toml_are_a_syntax_error() {
    assert_eq!(Config::from_toml(b"[wifi\nssid = "), Err(ConfigError::Syntax));
    assert_eq!(Config::from_toml(b"\xff\xfe"), Err(ConfigError::Syntax));
    assert_eq!(Config::from_toml(b"wifi = = 1"), Err(ConfigError::Syntax));
}

#[test]
fn each_missing_key_is_named() {
    let cases: Vec<(&str, Field)> = vec![
        ("", Field::Wifi),
        ("[wifi]\npassword = \"b\"\n", Field::Ssid),
        ("[wifi]\nssid = \"a\"\n", Field::Password),
        ("[wifi]\nssid = \"a\"\npassword = \"b\"\n", Field::Net),
        ("[wifi]\nssid = \"a\"\npassword = \"b\"\n[net]\n", Field::Https),
        ("[wifi]\nssid = \"a\"\npassword = \"b\"\n[net.https]\n", Field::CaCert),
        ("[wifi]\nssid = \"a\"\npassword = \"b\"\n[net.https.ca_cert]\n", Field::Pem),
    ];
    for (text, field) in cases {
        assert_eq!(Config::from_toml(text.as_bytes()), Err(ConfigError::Missing(field)), "{text:?}");
    }
}

#[test]
fn each_key_of_the_wrong_kind_is_named() {
    let cases: Vec<(&str, Field)> = vec![
        ("wifi = 1\n", Field::Wifi),
        ("[wifi]\nssid = 1\npassword = \"b\"\n", Field::Ssid),
        ("[wifi]\nssid = \"a\"\npassword = true\n", Field::Password),
        ("net = \"x\"\n[wifi]\nssid = \"a\"\npassword = \"b\"\n", Field::Net),
        ("[wifi]\nssid = \"a\"\npassword = \"b\"\n[net]\nhttps = []\n", Field::Https),
        ("[wifi]\nssid = \"a\"\npassword = \"b\"\n[net.https]\nca_cert = \"pem\"\n", Field::CaCert),
        ("[wifi]\nssid = \"a\"\npassword = \"b\"\n[net.https.ca_cert]\npem = 7\n", Field::Pem),
    ];
    for (text, field) in cases {
        assert_eq!(Config::from_toml(text.as_bytes()), Err(ConfigError::Invalid(field)), "{text:?}");
    }
}

#[test]
fn wifi_section_is_read_before_net_section() {
    let text = "[wifi]\nssid = 1\n[net]\nhttps = 2\n";
    assert_eq!(Config::from_toml(text.as_bytes()), Err(ConfigError::Invalid(Field::Ssid)));
}

#[test]
fn tables_are_read_one_by_one() {
    let table: toml::Table = "pem = \"abc\"\nother = 1\n".parse().unwrap();
    assert_eq!(CaCert::from_table(&table).unwrap().pem, vec![0x61, 0x62, 0x63, 0x00]);
    let table: toml::Table = "pem = 3\n".parse().unwrap();
    assert_eq!(CaCert::from_table(&table), Err(ConfigError::Invalid(Field::Pem)));
    assert_eq!(CaCert::from_table(&toml::Table::new()), Err(ConfigError::Missing(Field::Pem)));

    let mut wifi = toml::Table::new();
    wifi.insert("ssid".to_string(), toml::Value::String("Example".to_string()));
    wifi.insert("password".to_string(), toml::Value::String("pw".to_string()));
    wifi.insert("channel".to_string(), toml::Value::Integer(3));
    assert_eq!(
        Wifi::from_table(&wifi),
        Ok(Wifi { ssid: "Example".to_string(), password: "pw".to_string(), channel: Some(3) })
    );
    let mut top = toml::Table::new();
    top.insert("wifi".to_string(), toml::Value::Table(wifi));
    assert_eq!(Config::from_table(&top), Err(ConfigError::Missing(Field::Net)));
}

#[test]
fn template_decodes_to_the_default_configuration() {
    assert_eq!(Config::from_toml(CONFIG_TEMPLATE.as_bytes()), Ok(Config::default()));
    assert!(CONFIG_TEMPLATE.len() <= 4096);
    assert!(CONFIG_TEMPLATE.starts_with("[wifi]\nssid = \"Wokwi-GUEST\"\npassword = \"\"\nchannel = 6\n\n[net.https.ca_cert]\npem = \"\"\"\n-----BEGIN CERTIFICATE-----\n"));
}
