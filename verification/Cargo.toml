[package]
name = "dicom_reader"
version = "0.1.0"
edition = "2021"
publish = false

[dependencies]
dicom = { version = "=0.10.0", features = ["ndarray"] }
dicom-core = "=0.10.0"
chrono = "=0.4.45"
ndarray = "=0.17.2"
clap = { version = "=4.6.7", features = ["derive"] }
walkdir = "=2.5.0"
rayon = "=1.12.0"
num_cpus = "=1.17.0"
indicatif = "=0.18.6"
