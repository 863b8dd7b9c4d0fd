//! Lists of detected cameras and their ports.

use vstd::prelude::*;

verus! {

/// Descriptor representing the model and port pair of a connected camera.
#[derive(Debug, Clone)]
pub struct CameraDescriptor {
    /// Camera model.
    pub model: String,
    /// Port the camera is connected to.
    pub port: String,
}

/// A list of name and value pairs as the device library reports detected
/// cameras: the name is the model, the value the port path.
#[derive(Debug)]
pub struct CameraList {
    /// The detected cameras, in detection order.
    pub entries: Vec<CameraDescriptor>,
}

impl CameraList {
    /// An empty list.
    pub fn new() -> (r: CameraList)
        ensures
            r.entries@.len() == 0,
    {
        CameraList { entries: Vec::new() }
    }

    /// How many cameras the list holds.
    pub fn count(&self) -> (n: usize)
        ensures
            n == self.entries@.len(),
    {
        self.entries.len()
    }

    /// The model name at a position of the list.
    pub fn get_name_at_unchecked(&self, i: usize) -> (r: &String)
        requires
            i < self.entries@.len(),
        ensures
            r@ == self.entries@[i as int].model@,
    {
        &self.entries[i].model
    }

    /// The port path at a position of the list.
    pub fn get_value_at_unchecked(&self, i: usize) -> (r: &String)
        requires
            i < self.entries@.len(),
        ensures
            r@ == self.entries@[i as int].port@,
    {
        &self.entries[i].port
    }

    /// The descriptor at a position of the list.
    pub fn get(&self, i: usize) -> (r: &CameraDescriptor)
        requires
            i < self.entries@.len(),
        ensures
            r == &self.entries@[i as int],
    {
        &self.entries[i]
    }
}

} // verus!
