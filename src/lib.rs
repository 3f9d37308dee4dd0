//! Frame composition and camera pipeline of a small real-time 3D viewer.
//!
//! The modules model the viewer's decisions on plain values: which camera
//! step a key asks for (`input`), the camera's settings and when its matrices
//! are current (`camera`), what each scene object holds and records into a
//! pass (`scene`), the steps of one frame (`frame`), and how window events
//! keep the surface, the depth target, the camera and the objects' uniform
//! buffers in step (`viewer`). `texels` generates the mesh's lookup texture.
pub mod camera;
pub mod frame;
pub mod input;
pub mod scene;
pub mod texels;
pub mod viewer;
