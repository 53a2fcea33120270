[package]
name = "credibil_did"
version = "0.1.0"
edition = "2021"
publish = false

[dependencies]
anyhow = "=1.0.104"
base64ct = { version = "=1.8.3", features = ["alloc"] }
credibil-infosec = "=0.1.2"
# No code names `ecies`. It is held at the version that `credibil-infosec`
# compiles with: against a later one the build of that crate fails.
ecies = { version = "=0.2.7", default-features = false, features = ["pure", "std"] }
ed25519-dalek = { version = "=2.2.0", features = ["rand_core"] }
multibase = "=0.9.3"
rand = "=0.8.8"
serde = { version = "=1.0.229", features = ["derive"] }
serde_json = "=1.0.154"
sha2 = "=0.10.9"

[dev-dependencies]
regex = "=1.13.1"
