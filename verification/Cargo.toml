[package]
name = "btle_session"
version = "0.1.0"
edition = "2021"
publish = false

[dependencies]
js-sys = "*"
tokio = { version = "*", default-features = false, features = ["sync"] }
wasm-bindgen = "*"
wasm-bindgen-futures = "*"
web-sys = { version = "*", features = ["Bluetooth", "BluetoothDevice", "BluetoothLeScanFilterInit", "BluetoothRemoteGattCharacteristic", "BluetoothRemoteGattServer", "BluetoothRemoteGattService", "Event", "MessageEvent", "Navigator", "RequestDeviceOptions", "Window"] }
