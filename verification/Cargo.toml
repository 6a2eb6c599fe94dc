[package]
name = "menu_lens"
version = "0.1.0"
edition = "2021"
publish = false

[dependencies]
ocrs = "=0.13.1"
rten = "=0.26.0"
rten-imageproc = "=0.26.0"
rten-tensor = "=0.26.0"
image = { version = "=0.25.10", default-features = false, features = ["png", "jpeg"] }
serde_json = "=1.0.151"
teloxide = { version = "=0.16.0", default-features = false, features = ["rustls"] }
reqwest = { version = "=0.12.28", default-features = false }
lambda_http = "=1.3.1"
tracing = "=0.1.44"
takecell = "=0.1.1"
