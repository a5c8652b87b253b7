[package]
name = "gmt_field_aberrations"
version = "0.1.0"
edition = "2021"
publish = false

[dependencies]
serde = { version = "=1.0.229", features = ["derive"] }
skyangle = { version = "=0.4.0", features = ["serde"] }
ron = "=0.12.3"
serde-pickle = "=1.2.0"
thiserror = "=2.0.21"
log = "=0.4.35"
rayon = "=1.12.0"
faer = "=0.24.4"
zernike = "=0.2.2"
crseo = "=2.5.3"
geotrans = "=1.2.0"
color-eyre = "=0.6.5"
env_logger = "=0.11.11"
