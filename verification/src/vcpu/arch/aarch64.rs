pub mod reg;
