[package]
name = "operator_mappings_api"
version = "0.1.0"
edition = "2021"
publish = false

[dependencies]
actix-cors = "=0.7.2"
actix-web = "=4.18.1"
csv = "=1.4.0"
dotenv = "=0.15.0"
env_logger = "=0.11.11"
log = "=0.4.34"
regex = "=1.13.1"
serde = { version = "=1.0.229", features = ["derive"] }
serde_json = "=1.0.154"
serde_yaml = "=0.9.34"
tokio = { version = "=1.54.1", features = ["fs", "macros", "rt-multi-thread", "signal", "time"] }
utoipa = "=6.0.0"
utoipa-swagger-ui = { version = "=10.0.2", features = ["actix-web", "vendored"] }
