[package]
name = "car_ctrl"
version = "0.1.0"
edition = "2021"
publish = false

[dependencies]
chrono = "*"
image = "*"
imageproc = "*"
log = "*"
log4rs = "*"
rppal = "*"
