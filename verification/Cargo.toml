[package]
name = "tao_ohos"
version = "0.1.0"
edition = "2021"
publish = false

[dependencies]
openharmony-ability = "=1.0.0-beta.5"
openharmony-ability-plugin-window = "=1.0.0-beta.5"
openharmony-ability-plugin-app-control = "=1.0.0-beta.5"
tokio = { version = "=1.54.1", features = ["rt"] }
url = "=2.5.8"
log = "=0.4.35"
raw-window-handle = "=0.6.2"
