//! A module found in a process.

use crate::host::ModuleEntry;
use vstd::prelude::*;

verus! {

/// A module as it was when the listing that found it was taken.
#[derive(Debug)]
pub struct Module {
    name: String,
    address: u32,
    len: u32,
}

/// A module as a mathematical value.
pub struct ModuleView {
    /// The decoded file name of the module.
    pub name: Seq<char>,
    /// Where the image begins, in the address space of the owning process.
    pub address: u32,
    /// The size of the image in bytes.
    pub len: u32,
}

impl ModuleView {
    /// The module that the record `entry` describes, under the decoded name
    /// `name`. The base address is cut to the width of the addresses that
    /// memory transfers take.
    pub open spec fn of(name: Seq<char>, entry: ModuleEntry) -> ModuleView {
        ModuleView { name, address: entry.base_address as u32, len: entry.base_size }
    }
}

impl View for Module {
    type V = ModuleView;

    closed spec fn view(&self) -> ModuleView {
        ModuleView { name: self.name@, address: self.address, len: self.len }
    }
}

impl Module {
    pub(crate) fn of(name: String, entry: &ModuleEntry) -> (m: Module)
        ensures
            m@ == ModuleView::of(name@, *entry),
    {
        Module {
            name,
            address: #[verifier::truncate]
            (entry.base_address as u32),
            len: entry.base_size,
        }
    }

    /// The decoded file name of the module.
    pub fn name(&self) -> (r: &str)
        ensures
            r@ == self@.name,
    {
        self.name.as_str()
    }

    /// Memory address of the module, relative to the process.
    pub fn address(&self) -> (r: u32)
        ensures
            r == self@.address,
    {
        self.address
    }

    /// Length of the module in bytes.
    pub fn len(&self) -> (r: u32)
        ensures
            r == self@.len,
    {
        self.len
    }

    /// Whether the image is empty. An empty image is a valid module.
    pub fn is_empty(&self) -> (r: bool)
        ensures
            r == (self@.len == 0),
    {
        self.len == 0
    }
}

} // verus!
