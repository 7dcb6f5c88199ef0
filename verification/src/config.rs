//! Manager configuration: input bindings and layout parameters, loaded once
//! at startup and read-only afterwards.

use vstd::prelude::*;
use crate::actions::ActionType;
use crate::input::{mask_of, spec_mask_of, Button, Key, ModMask};
use crate::layout::LayoutConfig;

verus! {

/// A keyboard binding: a key plus a set of modifiers.
#[derive(Debug, Clone, PartialEq, Eq)]
pub struct KeyBind {
    /// The key this binding triggers on.
    pub keysym: Key,
    /// The modifiers that must be held.
    pub modifiers: Vec<ModMask>,
}

impl KeyBind {
    /// Build a key binding.
    pub fn new(keysym: Key, modifiers: Vec<ModMask>) -> (r: Self)
        ensures
            r.keysym == keysym,
            r.modifiers == modifiers,
    {
        Self { keysym, modifiers }
    }

    /// The key this binding triggers on.
    pub fn get_keysym(&self) -> (r: Key)
        ensures
            r == self.keysym,
    {
        self.keysym
    }


    /// The combined modifier mask of this binding.
    pub fn get_mask(&self) -> (r: u32)
        ensures
            r == spec_mask_of(self.modifiers@),
    {
        mask_of(&self.modifiers)
    }
}

/// A mouse binding: a button plus a set of modifiers.
#[derive(Debug, Clone, PartialEq, Eq)]
pub struct MouseBind {
    /// The button this binding triggers on.
    pub button: Button,
    /// The modifiers that must be held.
    pub modifiers: Vec<ModMask>,
}

impl MouseBind {
    /// Build a mouse binding.
    pub fn new(button: Button, modifiers: Vec<ModMask>) -> (r: Self)
        ensures
            r.button == button,
            r.modifiers == modifiers,
    {
        Self { button, modifiers }
    }

    /// The button this binding triggers on.
    pub fn get_button(&self) -> (r: Button)
        ensures
            r == self.button,
    {
        self.button
    }



    /// The combined modifier mask of this binding.
    pub fn get_mask(&self) -> (r: u32)
        ensures
            r == spec_mask_of(self.modifiers@),
    {
        mask_of(&self.modifiers)
    }
}

/// One configured action: what to do, and the key or button that asks
/// for it.
#[derive(Debug, Clone, PartialEq, Eq)]
pub struct ActionConfig {
    /// What to do.
    pub action: ActionType,
    /// The key that asks for it, if any.
    pub keybind: Option<KeyBind>,
    /// The button that asks for it, if any.
    pub mousebind: Option<MouseBind>,
}

impl ActionConfig {
    /// Build an action binding.
    pub fn new(action: ActionType, keybind: Option<KeyBind>, mousebind: Option<MouseBind>) -> (r:
        Self)
        ensures
            r.action == action,
            r.keybind == keybind,
            r.mousebind == mousebind,
    {
        Self { action, keybind, mousebind }
    }

    /// The action this binding performs.
    pub fn get_type(&self) -> (r: ActionType)
        ensures
            r == self.action,
    {
        self.action
    }


    /// The key binding of this action, if it has one.
    pub fn get_keybind(&self) -> (r: &Option<KeyBind>)
        ensures
            r == self.keybind,
    {
        &self.keybind
    }


    /// The mouse binding of this action, if it has one.
    pub fn get_mousebind(&self) -> (r: &Option<MouseBind>)
        ensures
            r == self.mousebind,
    {
        &self.mousebind
    }

}

/// The whole configuration: the action bindings, in the order they were
/// written — earlier bindings win when several match — and the layout
/// parameters.
#[derive(Debug, Clone, PartialEq, Eq)]
pub struct Config {
    /// The action bindings, in configuration order.
    pub actions: Vec<ActionConfig>,
    /// The layout parameters.
    pub layout: LayoutConfig,
}

impl Config {
    /// Build a configuration.
    pub fn new(actions: Vec<ActionConfig>, layout: LayoutConfig) -> (r: Self)
        ensures
            r.actions == actions,
            r.layout == layout,
    {
        Self { actions, layout }
    }

    /// The configured action bindings, in configuration order.
    pub fn get_actions(&self) -> (r: &Vec<ActionConfig>)
        ensures
            r == self.actions,
    {
        &self.actions
    }


    /// The layout parameters.
    pub fn get_layout(&self) -> (r: &LayoutConfig)
        ensures
            r == self.layout,
    {
        &self.layout
    }

}

} // verus!
