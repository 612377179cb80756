[package]
name = "midi_to_wlambda"
version = "0.1.0"
edition = "2021"
publish = false

[dependencies]
wlambda = { version = "=0.8.1", default-features = false }
rtrb = "=0.4.0"
atomic_float = "=1.1.0"
