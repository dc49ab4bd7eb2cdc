[package]
name = "bird_rescue"
version = "0.1.0"
edition = "2021"
publish = false

[dependencies]
bevy = { version = "=0.16.1", default-features = false, features = ["std", "bevy_asset", "bevy_color", "bevy_core_pipeline", "bevy_gizmos", "bevy_gltf", "bevy_log", "bevy_pbr", "bevy_render", "bevy_scene", "bevy_state", "bevy_text", "bevy_ui", "bevy_window", "default_font"] }
bevy_asset_loader = "=0.23.0"
bevy_common_assets = { version = "=0.13.0", features = ["ron"] }
serde = { version = "=1.0.229", features = ["derive"] }
