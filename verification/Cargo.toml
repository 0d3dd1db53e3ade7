[package]
name = "papout_psm"
version = "0.1.0"
edition = "2021"
publish = false

[dependencies]
cortex-m-rtic = "1"
stm32g0xx-hal = { version = "0.2", features = ["stm32g030", "rt"] }
nb = "1"
rtt-target = { version = "0.3", features = ["cortex-m"] }
panic-rtt-target = { version = "0.1", features = ["cortex-m"] }
