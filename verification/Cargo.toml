[package]
name = "openlogi"
version = "0.1.0"
edition = "2021"
publish = false

[dependencies]
core-foundation = { version = "0.10", default-features = false }
core-graphics = { version = "*", default-features = false, features = ["highsierra"] }
evdev = "0.13"
objc2 = "0.6"
objc2-app-kit = { version = "0.3", default-features = false, features = ["std", "NSEvent", "NSGraphicsContext", "objc2-core-foundation", "objc2-core-graphics"] }
objc2-core-graphics = { version = "0.3", default-features = false, features = ["std", "CGEvent", "CGEventTypes"] }
objc2-foundation = { version = "0.3", default-features = false, features = ["std", "NSGeometry", "objc2-core-foundation"] }
serde = { version = "1", features = ["derive"] }
thiserror = "2"
toml = "*"
tracing = "0.1"
windows-sys = { version = "0.59", features = ["Win32_Foundation", "Win32_UI_Input_KeyboardAndMouse"] }
zbus = "5"
