[package]
name = "nivc_steps"
version = "0.1.0"
edition = "2021"
publish = false

[dependencies]
ark-crypto-primitives = { version = "0.5.0", features = ["sponge", "r1cs"] }
ark-ec = "0.5.0"
ark-ff = "0.5.0"
ark-pallas = "0.5.0"
ark-r1cs-std = "0.5.0"
ark-relations = "0.5.1"
ark-vesta = "0.5.0"
bellpepper-core = "0.4.0"
criterion = "0.5.1"
ff = "0.13"
generic-array = "1.0"
neptune = "13.0.0"
nova-snark = "0.37.0"
pprof = { version = "0.13.0", features = ["criterion", "flamegraph"] }
rand = "0.8"
