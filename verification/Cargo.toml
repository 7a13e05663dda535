[package]
name = "bench_map"
version = "0.1.0"
edition = "2021"
publish = false

[dependencies]
rand = "*"
hashbrown = "*"
uuid = { version = "*", features = ["v4"] }
indexmap = "*"
intmap = "*"
rustc-hash = "*"
imbl = "*"
immutable-chunkmap = "*"
rpds = "*"
archery = "*"
libc = "*"
dashmap = "*"
scc = "*"
papaya = "*"
flurry = "*"
concread = "*"
crossbeam-skiplist = "*"
leapfrog = "*"
starshard = "*"
txmap = "*"
horde = "*"
concurrent-map = "*"
chrono = "*"

[dev-dependencies]
ahash = "*"
