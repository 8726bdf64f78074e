[package]
name = "souler_power"
version = "0.1.0"
edition = "2021"
publish = false

[dependencies]
# The library uses bevy's Timer; the program under app/ uses the engine as a
# whole. For its music the program also needs the features bevy_audio and
# vorbis, which link the system's sound library: add them where it is installed.
bevy = { version = "=0.7.0", default-features = false, features = ["render", "bevy_winit", "x11", "png"] }
# Not called from this crate. bevy 0.7's derive crates use syn's `full` feature
# without asking for it; darling asks for it, and with it they build.
darling = "=0.13.4"
rand = "=0.8.8"
