[package]
name = "superhat"
version = "0.1.0"
edition = "2021"
publish = false

[dependencies]
crossterm = "=0.27.0"
gilrs = { version = "=0.10.10", default-features = false, features = ["xinput"] }
lazy_static = "=1.5.1"
rodio = { version = "=0.17.3", default-features = false, features = ["wav"] }
serde = { version = "=1.0.229", features = ["derive"] }
tokio = { version = "=1.54.1", default-features = false, features = ["macros", "rt", "time"] }
toml = "=0.8.23"
winapi = { version = "=0.3.9", features = ["wincon", "processenv", "winbase", "handleapi", "winuser"] }
windows = { version = "=0.54.0", features = ["Win32_Foundation", "Win32_Security", "Win32_System_Threading", "Win32_System_Console", "Win32_UI_WindowsAndMessaging", "Win32_UI_Controls"] }
