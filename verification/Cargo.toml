[package]
name = "xbuild"
version = "0.1.0"
edition = "2021"
publish = false

[dependencies]
android-sdkmanager-rs = "=0.5.0"
anyhow = "=1.0.104"
indicatif = "0.17"
mvn = "=0.2.0"
reqwest = { version = "=0.11.27", default-features = false, features = ["blocking", "rustls-tls"] }
symlink = "=0.1.0"
tar = "=0.4.46"
which = "=4.4.2"
xcommon = "=0.3.0"
zstd = "=0.10.2"
