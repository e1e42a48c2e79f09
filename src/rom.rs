//! The registry of firmware images kept by the tool.
use vstd::prelude::*;
use crate::definition::{Main, Model};
use std::rc::Rc;

verus! {

/// What is known about a stored firmware image.
#[derive(Debug, Clone)]
pub struct RomMeta {
    pub name: String,
    pub id: String,
    pub model: Rc<Model>,
    pub platform: Rc<Main>,
    /// Where the image's bytes are kept: the storage directory joined with the id.
    pub data_path: String,
}

/// Relies on std::path::Path::join: `id` appended to `base` as a path. The
/// separator depends on the platform, so nothing is promised of the text.
#[verifier::external_body]
fn join_path(base: &str, id: &str) -> String {
    std::path::Path::new(base).join(id).to_string_lossy().into_owned()
}

/// The stored form of `RomMeta`: the model and platform by id.
#[derive(Debug, Clone)]
pub struct SerializedRomMeta {
    pub name: String,
    pub id: String,
    pub model: String,
    pub platform: String,
}

impl RomMeta {
    /// The form in which the metadata is saved.
    pub fn to_serialized(&self) -> (r: SerializedRomMeta)
        ensures
            r.name@ == self.name@,
            r.id@ == self.id@,
            r.model@ == self.model.id@,
            r.platform@ == self.platform.id@,
    {
        SerializedRomMeta {
            name: self.name.clone(),
            id: self.id.clone(),
            model: self.model.id.clone(),
            platform: self.platform.id.clone(),
        }
    }
}

/// A firmware image and its metadata.
#[derive(Debug)]
pub struct Rom {
    pub meta: RomMeta,
    pub data: Vec<u8>,
}

/// The images known under one storage directory.
pub struct RomManager {
    pub base: String,
    pub roms: Vec<RomMeta>,
}

impl RomManager {
    pub fn new(base: String) -> (r: RomManager)
        ensures
            r.base == base,
            r.roms@.len() == 0,
    {
        RomManager { base, roms: Vec::new() }
    }

    /// The first image with id `id`.
    pub fn search(&self, id: &str) -> (r: Option<&RomMeta>)
        ensures
            r matches Some(m) ==> m.id@ == id@ && exists|i: int|
                0 <= i < self.roms@.len() && self.roms@[i] == *m && forall|j: int|
                    0 <= j < i ==> (#[trigger] self.roms@[j]).id@ != id@,
            r is None ==> forall|i: int| 0 <= i < self.roms@.len() ==> (#[trigger] self.roms@[i]).id@ != id@,
    {
        let wanted = id.to_owned();
        let mut i: usize = 0;
        while i < self.roms.len()
            invariant
                i <= self.roms@.len(),
                wanted@ == id@,
                forall|j: int| 0 <= j < i ==> (#[trigger] self.roms@[j]).id@ != id@,
            decreases self.roms@.len() - i,
        {
            if self.roms[i].id == wanted {
                assert(forall|j: int| 0 <= j < i ==> (#[trigger] self.roms@[j]).id@ != id@);
                return Some(&self.roms[i]);
            }
            i = i + 1;
        }
        None
    }

    /// Registers a new image, kept at `base` joined with `id`, and returns it;
    /// nothing is written.
    pub fn new_rom(&mut self, name: String, id: String, platform: Rc<Main>, model: Rc<Model>, data: Vec<u8>) -> (r: Rom)
        ensures
            final(self).roms@ == old(self).roms@.push(r.meta),
            final(self).base == old(self).base,
            r.meta.name == name,
            r.meta.id == id,
            r.meta.model == model,
            r.meta.platform == platform,
            r.data == data,
    {
        let data_path = join_path(self.base.as_str(), id.as_str());
        let meta = RomMeta { name, id, model, platform, data_path };
        let stored = RomMeta {
            name: meta.name.clone(),
            id: meta.id.clone(),
            model: meta.model.clone(),
            platform: meta.platform.clone(),
            data_path: meta.data_path.clone(),
        };
        self.roms.push(stored);
        Rom { meta, data }
    }
}

} // verus!
