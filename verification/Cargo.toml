[package]
name = "osu_twitchbot"
version = "0.1.0"
edition = "2021"
publish = false

[dependencies]
chrono = "=0.4.45"
confy = "=2.0.0"
dark-light = "=1.1.1"
futures-util = "=0.3.34"
hex = "=0.4.3"
image = { version = "=0.25.10", default-features = false, features = ["png"] }
indicatif = "=0.18.6"
keyring = { version = "=3.6.3", default-features = false }
open = "=5.4.5"
owo-colors = "=4.4.0"
reqwest = { version = "=0.12.28", default-features = false, features = ["json", "stream", "rustls-tls"] }
rosu-pp = "=4.0.1"
semver = "=1.0.28"
serde = { version = "=1.0.229", features = ["derive"] }
serde_json = "=1.0.154"
sha2 = "=0.10.9"
sysinfo = "=0.39.6"
tempfile = "=3.27.0"
thiserror = "=2.0.21"
tokio = { version = "=1.54.1", features = ["full"] }
tokio-tungstenite = { version = "=0.30.0", features = ["rustls-tls-webpki-roots"] }
windows = { version = "=0.58.0", features = ["Win32_Foundation", "Win32_System_Threading", "Win32_System_Diagnostics_Debug", "Win32_System_Memory", "Win32_System_Console"] }
