[package]
name = "helvum"
version = "0.1.0"
edition = "2021"
publish = false

[dependencies]
pipewire = "=0.4.1"
libspa = "=0.4.1"
gtk4 = "=0.2.0"
gdk4 = "=0.2.0"
glib = { version = "=0.14.8", features = ["log"] }
log = "=0.4.34"
once_cell = "=1.21.4"
