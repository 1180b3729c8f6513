[package]
name = "ttd_core"
version = "0.1.0"
edition = "2021"
publish = false

[dependencies]
bevy = { version = "=0.8.1", default-features = false, features = ["render", "bevy_winit", "bevy_asset", "png", "x11"] }
bevy_asset_loader = { version = "=0.12.1", features = ["2d", "stageless"] }
bevy_ecs_ldtk = "=0.4.0"
bevy_mod_ui_texture_atlas_image = "=0.1.10"
bevy_prototype_lyon = "=0.6.0"
bevy_tweening = "=0.5.0"
derive_more = "=0.99.20"
iyes_loopless = "=0.7.1"
