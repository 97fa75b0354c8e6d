[package]
name = "coap_dtls"
version = "0.1.0"
edition = "2021"
publish = false

[dependencies]
url = "2"
coap-lite = "*"
openssl = "0.10"
log = "0.4"
dotenv = "0.15"
