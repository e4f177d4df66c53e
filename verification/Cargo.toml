[package]
name = "winapi_tlb_bindgen"
version = "0.1.0"
edition = "2021"
publish = false

[dependencies]
structopt = "0.3"
winapi = { version = "0.3", features = ["combaseapi", "minwindef", "oaidl", "objbase", "oleauto", "unknwnbase", "winerror", "winnt", "wtypes"] }
