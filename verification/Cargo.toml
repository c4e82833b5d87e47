[package]
name = "tg_music_bot"
version = "0.1.0"
edition = "2021"
publish = false

[dependencies]
rspotify = { version = "=0.16.1", default-features = false, features = ["client-reqwest", "reqwest-rustls-tls"] }
teloxide = { version = "=0.17.0", default-features = false, features = ["rustls", "ctrlc_handler"] }
tokio = { version = "*", features = ["macros", "rt-multi-thread"] }
dptree = "*"
log = "*"
pretty_env_logger = "*"
reqwest = { version = "*", default-features = false, features = ["rustls-tls"] }
takecell = "=0.1.1"
