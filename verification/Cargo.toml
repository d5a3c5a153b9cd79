[package]
name = "threadx-rs"
version = "0.1.0"
edition = "2021"
publish = false

[dependencies]
cortex-m = "0.7"
cortex-m-rt = "0.7"
defmt = "0.3"
stm32f1xx-hal = { version = "0.10", features = ["stm32f103", "rt", "medium"] }
thiserror-no-std = "2.0"
