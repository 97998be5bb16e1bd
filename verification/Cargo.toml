[package]
name = "thermometer"
version = "0.1.0"
edition = "2021"
publish = false

[dependencies]
onewire = "=0.3.13"
numtoa = "=0.2.4"
ag-lcd = "=0.2.0"
ufmt = "=0.2.0"
embedded-hal = "=0.2.7"
