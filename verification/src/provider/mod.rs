pub mod docker;
