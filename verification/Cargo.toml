[package]
name = "krowbar"
version = "0.1.0"
edition = "2021"
publish = false

[dependencies]
anyhow = "1"
async-broadcast = "*"
async-channel = "*"
battery = "*"
bspc-rs = "*"
chrono = "0.4"
clap = { version = "4", features = ["derive"] }
gdk4-x11 = "*"
grass = "*"
gtk4 = "*"
log = "0.4"
log4rs = "1"
serde = { version = "1", features = ["derive"] }
sysinfo = "*"
tinytemplate = "1"
tokio = { version = "1", features = ["rt-multi-thread", "macros", "time"] }
toml = "*"
x11rb = { version = "*", features = ["randr"] }
