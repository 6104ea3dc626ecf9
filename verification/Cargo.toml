[package]
name = "galaxy_map"
version = "0.1.0"
edition = "2021"
publish = false

[dependencies]
bevy = { version = "=0.17.3", default-features = false, features = ["bevy_ui", "bevy_sprite", "bevy_sprite_render", "bevy_gizmos", "bevy_window", "bevy_text", "bevy_render", "bevy_core_pipeline", "default_font"] }
