[package]
name = "cloudflare_tunnels_operator"
version = "0.1.0"
edition = "2021"
publish = false

[dependencies]
regex = "1"
base64 = "0.22"
rand = "0.8"
sha256 = { version = "1", default-features = false }
serde = { version = "1", features = ["derive"] }
serde_json = "1"
serde_yaml = "0.9"
anyhow = "1"
thiserror = "1"
log = "0.4"
env_logger = "0.11"
futures-util = "0.3"
tokio = { version = "1", features = ["macros", "rt-multi-thread"] }
clap = { version = "4", features = ["derive"] }
actix-web = { version = "4", default-features = false, features = ["macros"] }
schemars = "0.8"
kube = { version = "0.95", features = ["runtime", "derive"] }
k8s-openapi = { version = "0.23", features = ["latest"] }
cloudflare = "0.12"
