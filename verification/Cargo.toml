[package]
name = "thermostat"
version = "0.1.0"
edition = "2021"
publish = false

[dependencies]
cortex-m-rtic = "=1.1.4"
defmt = "=1.2.0"
defmt-rtt = "=1.3.1"
klaptik = { version = "=0.2.1", features = ["st7567"] }
panic-halt = "=1.0.0"
panic-probe = "=1.0.0"
pid-loop = "=0.0.6"
stm32g0xx-hal = { version = "=0.2.0", features = ["rt", "stm32g030"] }
