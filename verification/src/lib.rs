//! A verified core for a cloud-infrastructure command-line client.
//!
//! Each resource kind (disk, image, rack, role) supports a common set of
//! lifecycle operations: list, view, create, delete, and relational actions
//! such as attach and detach.  This crate holds the decision logic of those
//! operations — argument validation, interactive prompt sequencing,
//! confirmation gating for deletion, pagination, and output rendering — as
//! verified functions.  Network calls and terminal I/O are performed by the
//! surrounding binary, which drives the step machines defined here.

pub mod actions;
pub mod api;
pub mod cmd_disk;
pub mod cmd_generate;
pub mod cmd_image;
pub mod cmd_rack;
pub mod cmd_role;
pub mod create;
pub mod delete;
pub mod error;
pub mod json;
pub mod list;
pub mod numfmt;
pub mod record;
pub mod render;
pub mod router;
pub mod scope;
pub mod text;
pub mod update;
pub mod view;
