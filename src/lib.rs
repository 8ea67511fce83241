//! Routable identity of a serverless deployment: the hostnames under which a
//! deployment accepts traffic, and whether it may run its scheduled invocation.

pub mod deployment;
