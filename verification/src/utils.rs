pub mod address_space;
