//! NetworkManager connection settings and the decisions of the D-Bus client.

pub mod dict;
pub mod numbers;
pub mod connection_settings;
pub mod wifi_settings;
pub mod modem;
pub mod client;
pub mod order;
