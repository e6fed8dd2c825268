pub mod platform;
pub mod text;
pub mod databases;
pub mod common;
pub mod compression;
pub mod storage;
pub mod cli;
pub mod workspace;
pub mod archives;
pub mod s3;
pub mod dbkp;
pub mod tunnel;
