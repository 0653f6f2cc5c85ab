[package]
name = "uniwifi"
version = "0.1.0"
edition = "2021"
publish = false

[dependencies]
async-trait = "=0.1.92"
block2 = "=0.6.2"
dispatch2 = "=0.3.1"
futures-util = "=0.3.34"
jni = "=0.22.4"
jni-min-helper = "=0.4.7"
log = "=0.4.35"
ndk-context = "0.1"
objc2 = "=0.6.5"
objc2-core-wlan = "=0.3.2"
objc2-foundation = "=0.3.2"
objc2-network-extension = "=0.3.2"
objc2-ui-kit = "=0.3.2"
secrecy = "=0.10.3"
thiserror = "=2.0.21"
tokio = { version = "=1.54.1", features = ["macros", "rt", "rt-multi-thread", "sync", "time"] }
windows = { version = "=0.62.2", features = ["Win32_Foundation", "Win32_NetworkManagement_WiFi", "Win32_Security"] }
windows-core = "=0.62.2"
zbus = { version = "=5.19.0", default-features = false, features = ["blocking-api", "tokio"] }
