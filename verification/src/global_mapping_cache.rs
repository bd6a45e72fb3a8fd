//! Lookup tables for both devices together.

use vstd::prelude::*;

verus! {

/// A generic structure that stores input mapping cache
/// for keyboard and mouse devices and the corresponding modifiers cache.
#[derive(Clone, Debug)]
pub struct GlobalMappingCache<Ke, Ms, Mo> {
    keyboard: Ke,
    mouse: Ms,
    modifiers: Mo,
}

impl<Ke, Ms, Mo> GlobalMappingCache<Ke, Ms, Mo> {
    /// Puts together the caches of both devices and the modifiers cache.
    pub fn new(keyboard: Ke, mouse: Ms, modifiers: Mo) -> (res: Self)
        ensures
            res.spec_keyboard() == keyboard,
            res.spec_mouse() == mouse,
            res.spec_modifiers() == modifiers,
    {
        Self { keyboard, mouse, modifiers }
    }

    pub closed spec fn spec_keyboard(&self) -> Ke {
        self.keyboard
    }

    pub closed spec fn spec_mouse(&self) -> Ms {
        self.mouse
    }

    pub closed spec fn spec_modifiers(&self) -> Mo {
        self.modifiers
    }

    /// Returns a mapping cache for keyboard device.
    pub fn keyboard(&self) -> (res: &Ke)
        ensures
            *res == self.spec_keyboard(),
    {
        &self.keyboard
    }

    /// Returns a mapping cache for mouse device.
    pub fn mouse(&self) -> (res: &Ms)
        ensures
            *res == self.spec_mouse(),
    {
        &self.mouse
    }

    /// Returns a modifiers cache.
    pub fn modifiers(&self) -> (res: &Mo)
        ensures
            *res == self.spec_modifiers(),
    {
        &self.modifiers
    }
}

} // verus!
