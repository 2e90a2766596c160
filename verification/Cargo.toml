[package]
name = "golarion_compendium"
version = "0.1.0"
edition = "2021"
publish = false

[dependencies]
bytebuffer = "=0.2.1"
byte-slice-cast = "1"
byteorder = "1"
widestring = "1"
futures = "0.3"
isahc = "1"
