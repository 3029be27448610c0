[package]
name = "bunode"
version = "0.1.0"
edition = "2021"
publish = false

[dependencies]
lexopt = "=0.3.2"
deno_dotenv = "=0.29.0"
semver = "=1.0.28"
textwrap = "=0.16.4"
serde = { version = "=1.0.229", features = ["derive"] }
serde_json = "=1.0.154"
flate2 = "=1.1.10"
tar = "=0.4.46"
cliclack = "=0.5.7"
