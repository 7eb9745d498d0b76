//! A drawing surface on a fixed-point plane: pointer positions become
//! triangles through interchangeable tools, and a canvas keeps the committed
//! drawing with a bounded history of snapshots.
pub mod canvas;
pub mod history;
pub mod root;
pub mod theorems;
pub mod tools;
pub mod vertex;
