[package]
name = "tinyaudio"
version = "0.1.0"
edition = "2021"
publish = false

[dependencies]
alsa-sys = "0.3"
libpulse-sys = "1"
coreaudio-sys = "0.2"
ndk = { version = "*", features = ["audio"] }
winapi = { version = "0.3", features = ["guiddef", "minwindef", "mmreg", "ntdef", "winerror", "dsound", "synchapi", "unknwnbase", "winbase", "winuser"] }
wasm-bindgen = "0.2"
js-sys = "0.3"
web-sys = { version = "0.3", features = ["AudioContext", "AudioContextOptions", "AudioBuffer", "AudioBufferSourceNode", "AudioDestinationNode", "AudioNode", "AudioScheduledSourceNode", "BaseAudioContext", "Window"] }
