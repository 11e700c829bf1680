[package]
name = "p2p_node"
version = "0.1.0"
edition = "2021"
publish = false

[dependencies]
libp2p = { version = "0.41", default-features = false, features = ["floodsub", "mdns", "mplex", "noise", "ping", "tcp-tokio", "websocket"] }
futures = "0.3"
serde_json = "1"
tokio = { version = "1", features = ["full"] }
async-std = "1"
jsonrpc-http-server = "18"
structopt = "0.3"
pretty_env_logger = "0.4"
