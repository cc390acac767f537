[package]
name = "pdf_viewer"
version = "0.1.0"
edition = "2021"
publish = false

[dependencies]
anyhow = "=1.0.104"
eframe = { version = "=0.29.1", default-features = false, features = ["glow", "default_fonts", "x11"] }
image = { version = "=0.25.10", default-features = false, features = ["png"] }
log = "=0.4.34"
pdfium-render = "=0.8.37"
serde = { version = "=1.0.229", features = ["derive"] }
serde_json = "=1.0.154"
windows = { version = "=0.52.0", features = ["Win32_Foundation", "Win32_Storage_FileSystem"] }
