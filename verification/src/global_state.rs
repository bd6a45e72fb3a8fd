//! The state kept for the keyboard and the mouse together.

use vstd::prelude::*;

verus! {

/// The processing state of the keyboard and the mouse together, with the
/// modifiers that both devices share.
#[derive(Clone, Debug, Default)]
pub struct GlobalState<Mo, CsKe, CsMs, TsKe, TsMs, ShKeLo, ShKeCl, ShMsLo, ShMsCl, PoKe, PoMs> {
    pub modifiers: Mo,
    pub keyboard_coords_state: CsKe,
    pub mouse_coords_state: CsMs,
    pub keyboard_timed_state: TsKe,
    pub mouse_timed_state: TsMs,
    pub keyboard_long_press_scheduler: ShKeLo,
    pub keyboard_click_exact_scheduler: ShKeCl,
    pub mouse_long_press_scheduler: ShMsLo,
    pub mouse_click_exact_scheduler: ShMsCl,
    pub keyboard_pointer_state: PoKe,
    pub mouse_pointer_state: PoMs,
}

impl<Mo, CsKe, CsMs, TsKe, TsMs, ShKeLo, ShKeCl, ShMsLo, ShMsCl, PoKe, PoMs> GlobalState<Mo, CsKe, CsMs, TsKe, TsMs, ShKeLo, ShKeCl, ShMsLo, ShMsCl, PoKe, PoMs> {
    /// Builds the state from its parts.
    pub fn new(
        modifiers: Mo,
        keyboard_coords_state: CsKe,
        mouse_coords_state: CsMs,
        keyboard_timed_state: TsKe,
        mouse_timed_state: TsMs,
        keyboard_long_press_scheduler: ShKeLo,
        keyboard_click_exact_scheduler: ShKeCl,
        mouse_long_press_scheduler: ShMsLo,
        mouse_click_exact_scheduler: ShMsCl,
        keyboard_pointer_state: PoKe,
        mouse_pointer_state: PoMs,
    ) -> (res: Self)
        ensures
            res.modifiers == modifiers,
            res.keyboard_coords_state == keyboard_coords_state,
            res.mouse_coords_state == mouse_coords_state,
            res.keyboard_timed_state == keyboard_timed_state,
            res.mouse_timed_state == mouse_timed_state,
            res.keyboard_long_press_scheduler == keyboard_long_press_scheduler,
            res.keyboard_click_exact_scheduler == keyboard_click_exact_scheduler,
            res.mouse_long_press_scheduler == mouse_long_press_scheduler,
            res.mouse_click_exact_scheduler == mouse_click_exact_scheduler,
            res.keyboard_pointer_state == keyboard_pointer_state,
            res.mouse_pointer_state == mouse_pointer_state,
    {
        Self {
            modifiers,
            keyboard_coords_state,
            mouse_coords_state,
            keyboard_timed_state,
            mouse_timed_state,
            keyboard_long_press_scheduler,
            keyboard_click_exact_scheduler,
            mouse_long_press_scheduler,
            mouse_click_exact_scheduler,
            keyboard_pointer_state,
            mouse_pointer_state,
        }
    }
}
/// What handling one event gives: the time of the timeout that was scheduled,
/// if any, and the bindings that the event matched.
#[derive(Clone, Debug)]
pub struct GlobalStateWithEventResult<Ti, Bi> {
    pub scheduled: Ti,
    pub bindings: Bi,
}

} // verus!
