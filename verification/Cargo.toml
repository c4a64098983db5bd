[package]
name = "ready_metronome"
version = "0.1.0"
edition = "2021"
publish = false

[dependencies]
atomic_float = "=1.1.0"
crossterm = "=0.27.0"
ratatui = "=0.26.3"
rodio = "=0.19.0"
spin_sleep = "=1.3.3"
