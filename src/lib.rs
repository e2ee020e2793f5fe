//! A client library for a compute backend: runtimes, device memory, shaped
//! arrays, images and textures, modules of precompiled compute graphs, and
//! the binding and launch of graph arguments.
//!
//! The decisions of the client layer are verified functions on plain
//! values: host-access and size checks (`memory`), array descriptors
//! (`ndarray`), argument bindings (`compute_graph::ArgumentList`), and the
//! conversion of a status code into a typed result (`error::check_status`).
//!
//! `Runtime` and the resource types run those decisions against
//! `device::Device`, a backend instance kept in host memory whose behaviour
//! is stated exactly: it runs no precompiled code. It stands in for the
//! native backend in tests and states what each call may do. Resources are
//! reference counted on the device: `share` adds a holder, `release` removes
//! one, and the last release frees the resource.
pub mod aot_module;
pub mod compute_graph;
pub mod device;
pub mod element;
pub mod error;
pub mod image;
pub mod memory;
pub mod ndarray;
pub mod runtime;
pub mod sys;
pub mod texture;
pub mod version;
