[package]
name = "dreambo_motor_controller"
version = "0.1.0"
edition = "2021"
publish = false

[dependencies]
log = "*"
servocom = "*"
motorcom = "*"
serialport = { version = "*", default-features = false }
tokio = { version = "*", features = ["rt", "rt-multi-thread", "sync", "time", "macros"] }
pyo3 = "*"
pyo3-log = "*"
pyo3-stub-gen = "*"
