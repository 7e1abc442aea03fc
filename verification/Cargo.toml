[package]
name = "tungus"
version = "0.1.0"
edition = "2021"
publish = false

[dependencies]
nalgebra-glm = "*"
bytemuck = "*"
rand = "*"
gl33 = "*"
beryllium = "*"
image = "*"
stb_image = "*"
russimp = "*"
