[package]
name = "midi_bridge"
version = "0.1.0"
edition = "2021"
publish = false

[dependencies]
heapless = "=0.8.0"
hashbrown = "=0.14.5"
allocator-api2 = { version = "=0.2.21", default-features = false, features = ["alloc"] }
num = { version = "=0.4.3", default-features = false }
num_enum = { version = "=0.7.6", default-features = false }
micromath = "=2.1.0"
bitfield = "=0.14.0"
nb = "=1.1.0"
usb-device = "=0.3.2"
defmt = "=0.3.101"
defmt-rtt = "=0.4.2"
panic-probe = "=0.3.2"
cortex-m = "=0.7.10"
buddy-alloc = "=0.5.1"
embedded-io-async = "=0.6.1"
embassy-executor = { version = "=0.5.1", features = ["arch-std", "executor-thread", "integrated-timers"] }
embassy-time = { version = "=0.3.2", features = ["std"] }
embassy-sync = "=0.5.0"
embassy-usb = "=0.1.0"
embassy-stm32 = { version = "=0.1.0", features = ["stm32h743vi", "time-driver-any"] }
