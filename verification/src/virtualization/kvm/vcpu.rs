pub mod cpu_id;
