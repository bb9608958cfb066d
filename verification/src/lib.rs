//! Helm charts on clusters that Rancher manages, installed on behalf of an MCP
//! client.
//!
//! The crate holds the rules of the server and talks to no one: beyond the
//! random UUIDs in the names of Jobs it takes nothing from outside. The tools
//! ([`server`]) and what they ask for ([`rancher`], [`k8s`], [`job_output`])
//! are machines that go from a state and a reply to the next request; whoever
//! drives them sends the requests and hands back the replies.
pub mod clusters;
pub mod config;
pub mod helm;
pub mod job_output;
pub mod k8s;
pub mod manifest;
pub mod names;
pub mod rancher;
pub mod server;
pub mod string_map;
pub mod text;
