[package]
name = "glm_autopay"
version = "0.1.0"
edition = "2021"
publish = false

[dependencies]
aes = "=0.8.4"
base64 = "=0.22.1"
chrono = "=0.4.45"
cipher = "=0.4.4"
ecb = "=0.1.2"
image = { version = "=0.25.10", default-features = false, features = ["png"] }
md5 = "=0.7.0"
qrcode = { version = "=0.14.1", default-features = false, features = ["image"] }
rand = "=0.9.5"
serde = { version = "=1.0.229", features = ["derive"] }
serde_json = "=1.0.154"
thiserror = "=2.0.21"
tokio = { version = "=1.54.1", features = ["rt-multi-thread", "macros", "time"] }
urlencoding = "=2.1.3"
windows-sys = { version = "=0.61.2", features = ["Win32_System_Console"] }
wreq = { version = "=0.15.3", features = ["json"] }
wreq-util = "=0.1.0"
