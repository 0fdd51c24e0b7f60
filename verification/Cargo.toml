[package]
name = "iced_audio_player"
version = "0.1.0"
edition = "2021"
publish = false

[dependencies]
apodize = "1"
cpal = "0.15"
hound = "3.5"
rtrb = "0.3"
rustfft = "6"
