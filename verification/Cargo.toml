[package]
name = "whitesynth"
version = "0.1.0"
edition = "2021"
publish = false

[dependencies]
riff = "*"
anyhow = "1"
log = "0.4"
log4rs = { version = "1", default-features = false, features = ["console_appender", "file_appender", "pattern_encoder", "threshold_filter"] }
chrono = "0.4"
alsa = "*"
