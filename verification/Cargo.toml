[package]
name = "zk_prover"
version = "0.1.0"
edition = "2021"
publish = false

[dependencies]
ark-bn254 = "=0.4.0"
ark-ff = "=0.4.2"
ark-groth16 = "=0.4.0"
ark-r1cs-std = "=0.4.0"
ark-relations = "=0.4.0"
ark-serialize = "=0.4.2"
ark-std = { version = "=0.4.0", features = ["getrandom"] }
hex = "=0.4.3"
sha2 = "=0.10.9"
serde = { version = "=1.0.229", features = ["derive"] }
