//! Verified core of the native layer behind the Zig binding of a storage
//! access library: status codes, argument conversion, result building, the
//! asynchronous task registry, a service's configuration builder, and the
//! entries of an HDFS listing.
#![allow(non_camel_case_types)]
#![allow(non_snake_case)]

pub mod codes;
pub mod error;
pub mod ffi;
pub mod text;
pub mod options;
pub mod task;
pub mod runtime;
pub mod convert;
pub mod calls;
pub mod requests;
pub mod surreal;
pub mod path;
pub mod hdfs;
pub mod laws;
pub mod conversion_laws;
