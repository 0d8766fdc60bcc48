pub mod ram;
