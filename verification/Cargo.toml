[package]
name = "analog_comparator"
version = "0.1.0"
edition = "2021"
publish = false
