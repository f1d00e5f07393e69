pub mod mixer;
