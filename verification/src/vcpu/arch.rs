pub mod aarch64;
