#![allow(non_camel_case_types)]
#![allow(non_snake_case)]

pub mod text;
pub mod parse_util;
pub mod pages;
pub mod size;
pub mod gs;
pub mod alignment;
pub mod resistance;
pub mod immunities;
pub mod hp;
pub mod skills;
pub mod vec_cache;
pub mod entries;
pub mod talents;
pub mod wiki;
pub mod skill_fields;
pub mod element_names;
