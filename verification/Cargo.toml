[package]
name = "raspi_info_display"
version = "0.1.0"
edition = "2021"
publish = false

[dependencies]
anyhow = "=1.0.104"
daemonize = "=0.5.0"
embedded-graphics = "=0.8.2"
embedded-hal = "=1.0.0"
get_if_addrs = "=0.5.3"
hostname = "=0.4.2"
linux-embedded-hal = "=0.5.0"
ssd1306 = "=0.10.0"
sysinfo = "=0.39.6"
