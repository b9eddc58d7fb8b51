//! A small library for plain-text note keeping: it decides where generated
//! artifacts are written from ambiguous user-supplied path hints, assembles
//! self-contained HTML documents from markdown bodies, coordinates a PDF
//! export pipeline, and lays out timestamped note files.

pub mod args;
pub mod config;
pub mod export;
pub mod error;
pub mod note;
pub mod paths;
pub mod render;
pub mod resolve;
pub mod strutil;
