//! The CurseForge registry, which is not supported yet.

use vstd::prelude::*;
use super::{Mod, ModRegistry, ModRegistryError, Reply, Request};

verus! {

/// The CurseForge registry. Every operation fails with `NotImplemented`.
#[derive(Default)]
pub struct CurseForgeRegistry;

impl ModRegistry for CurseForgeRegistry {
    fn get_mod_request(&self, id: &str) -> (result: Result<Request, ModRegistryError>)
        ensures
            result matches Err(error) && error == ModRegistryError::NotImplemented,
    {
        Err(ModRegistryError::NotImplemented)
    }

    fn get_mod_reply(&self, reply: &Reply) -> (result: Result<Mod, ModRegistryError>)
        ensures
            result matches Err(error) && error == ModRegistryError::NotImplemented,
    {
        Err(ModRegistryError::NotImplemented)
    }

    fn search_mods_request(&self, query: &str) -> (result: Result<Request, ModRegistryError>)
        ensures
            result matches Err(error) && error == ModRegistryError::NotImplemented,
    {
        Err(ModRegistryError::NotImplemented)
    }

    fn search_mods_reply(&self, reply: &Reply) -> (result: Result<Vec<Mod>, ModRegistryError>)
        ensures
            result matches Err(error) && error == ModRegistryError::NotImplemented,
    {
        Err(ModRegistryError::NotImplemented)
    }
}

} // verus!
