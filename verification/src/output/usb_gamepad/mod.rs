pub mod driver;
