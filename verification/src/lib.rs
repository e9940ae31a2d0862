#![allow(non_snake_case)]

pub mod game;
pub mod il2cpp;
pub mod ios;
pub mod path;
pub mod str_map;
pub mod text;
pub mod windows;
