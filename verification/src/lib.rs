//! A procedural triangle-mesh editor with a binary glTF (GLB) writer.
//!
//! The mesh editor keeps a soup of triangles over a vertex array together
//! with an ordered selection of vertex indices, and offers transforms,
//! topology edits and primitive generators on it.  A packer copies a mesh's
//! vertex and index streams into a scene document's binary blob, and the
//! serializer writes the whole document out in the chunked GLB framing.
//!
//! Floating-point coordinates are carried as IEEE-754 bit patterns,
//! opaque to the library: the caller computes displaced or scaled
//! positions and hands them in as plain values, while everything the
//! library decides — index integrity, selection coherence, byte layout,
//! the document and its serialized form — is verified.

pub mod bytes;
pub mod clone_tree;
pub mod editing;
pub mod error;
pub mod geometry;
pub mod glb;
pub mod gltf;
pub mod extrude;
pub mod ffi;
pub mod json;
pub mod json_lits;
pub mod laws;
pub mod prims;
pub mod sorted;
pub mod transport;
pub mod v3;
