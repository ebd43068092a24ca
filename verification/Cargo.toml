[package]
name = "stewardship_integrity"
version = "0.1.0"
edition = "2021"
publish = false

[dependencies]
hdi = "=0.3.8"
hdk = "=0.2.8"
serde = { version = "=1.0.166", features = ["derive"] }
# Not used directly. hdi and hdk decode through rmp-serde 0.15, which does
# not compile against rmp 0.8.15; this line only holds rmp back for their build.
rmp = "=0.8.14"
