pub mod bash;
pub mod c;
pub mod cpp;
pub mod dockerfile;
pub mod elixir;
pub mod csharp;
pub mod css;
pub mod go;
pub mod graphql;
pub mod groovy;
pub mod haskell;
pub mod java;
pub mod javascript;
pub mod julia;
pub mod lua;
pub mod makefile;
pub mod markdown;
pub mod matlab;
pub mod kotlin;
pub mod prisma;
pub mod proto;
pub mod python;
pub mod r;
pub mod ruby;
pub mod rust;
pub mod sql;
pub mod svelte;
pub mod swift;
pub mod toml_lang;
pub mod typescript;
pub mod xml;
pub mod yaml;
pub mod zig;
