pub mod gb_cpu;
