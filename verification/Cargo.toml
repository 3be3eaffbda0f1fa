[package]
name = "er_extend_rs"
version = "0.1.0"
edition = "2021"
publish = false

[dependencies]
eldenring = "*"
fromsoftware-shared = "*"
pelite = "*"
retour = { version = "*", features = ["static-detour"] }
serde = { version = "1", features = ["derive"] }
toml = "*"
tracing = "*"
tracing-subscriber = "*"
windows-sys = { version = "*", features = ["Win32_Foundation", "Win32_System_LibraryLoader"] }
