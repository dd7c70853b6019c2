[package]
name = "orchard_note_encryption"
version = "0.1.0"
edition = "2021"
publish = false

[dependencies]
blake2b_simd = "=1.0.5"
chacha20poly1305 = { version = "=0.10.1", default-features = false }
group = "=0.13.0"
halo2_poseidon = "=0.1.0"
memuse = "=0.2.2"
pasta_curves = { version = "=0.5.2", features = ["glv"] }
rand = "=0.8.8"
reddsa = { version = "=0.5.2", default-features = false, features = ["std"] }
sinsemilla = "=0.1.0"
subtle = "=2.6.1"
zcash_note_encryption = { version = "=0.4.2", features = ["alloc", "pre-zip-212"] }
