[package]
name = "mesh2ww"
version = "0.1.0"
edition = "2021"
publish = false

[dependencies]
anyhow = "=1.0.104"
bincode = "=1.3.3"
clap = { version = "=4.6.7", features = ["wrap_help"] }
log = "=0.4.34"
serde = { version = "=1.0.229", features = ["derive"] }
stderrlog = "=0.6.0"
vtkio = "=0.6.3"
