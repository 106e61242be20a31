//! The interface shared by the playground's components.
use vstd::prelude::*;

use crate::error::PlaygroundError;
use crate::llm_interface::LLMInterface;
use crate::prompt_manager::PromptManager;

verus! {

/// A component with a fixed name and description.
pub trait NamedComponent {
    spec fn component_name(&self) -> Seq<char>;

    spec fn component_description(&self) -> Seq<char>;

    fn get_name(&self) -> (r: &str)
        ensures
            r@ == self.component_name(),
    ;

    fn get_description(&self) -> (r: &str)
        ensures
            r@ == self.component_description(),
    ;
}

/// A component that is set up once and can then do its work.
pub trait AIComponent: NamedComponent {
    /// What holds of every value of the component.
    spec fn inv(&self) -> bool;

    /// `self` is what `initialize` may leave of `before`, where `ok` says
    /// whether it succeeded.
    spec fn initialized_from(&self, before: &Self, ok: bool) -> bool;

    /// `process` succeeds.
    spec fn can_process(&self) -> bool;

    /// Sets up the component's resources.
    fn initialize(&mut self) -> (r: Result<(), PlaygroundError>)
        requires
            old(self).inv(),
        ensures
            final(self).inv(),
            final(self).initialized_from(old(self), r is Ok),
    ;

    /// Does the component's work; fails when it is not ready for it.
    fn process(&self) -> (r: Result<(), PlaygroundError>)
        ensures
            r is Ok <==> self.can_process(),
    ;

    fn name(&self) -> (r: &str)
        ensures
            r@ == self.component_name(),
    ;

    fn description(&self) -> (r: &str)
        ensures
            r@ == self.component_description(),
    ;
}

impl NamedComponent for PromptManager {
    open spec fn component_name(&self) -> Seq<char> {
        self.spec_name()
    }

    open spec fn component_description(&self) -> Seq<char> {
        self.spec_description()
    }

    fn get_name(&self) -> (r: &str) {
        self.name_str()
    }

    fn get_description(&self) -> (r: &str) {
        self.description_str()
    }
}

impl AIComponent for PromptManager {
    open spec fn inv(&self) -> bool {
        self.well_formed()
    }

    /// Setting up the store always succeeds and changes nothing.
    open spec fn initialized_from(&self, before: &Self, ok: bool) -> bool {
        &&& ok
        &&& self.templates() == before.templates()
        &&& self.variables() == before.variables()
        &&& self.current() == before.current()
        &&& self.spec_name() == before.spec_name()
        &&& self.spec_description() == before.spec_description()
    }

    /// The store has a current prompt to work on.
    open spec fn can_process(&self) -> bool {
        self.current() is Some
    }

    fn initialize(&mut self) -> (r: Result<(), PlaygroundError>) {
        Ok(())
    }

    fn process(&self) -> (r: Result<(), PlaygroundError>) {
        match self.current_prompt() {
            Some(_) => Ok(()),
            None => Err(PlaygroundError::NothingToProcess),
        }
    }

    fn name(&self) -> (r: &str) {
        self.get_name()
    }

    fn description(&self) -> (r: &str) {
        self.get_description()
    }
}

impl NamedComponent for LLMInterface {
    open spec fn component_name(&self) -> Seq<char> {
        self.spec_name()
    }

    open spec fn component_description(&self) -> Seq<char> {
        self.spec_description()
    }

    fn get_name(&self) -> (r: &str) {
        self.name_str()
    }

    fn get_description(&self) -> (r: &str) {
        self.description_str()
    }
}

impl AIComponent for LLMInterface {
    open spec fn inv(&self) -> bool {
        self.well_formed()
    }

    /// The settings are kept; on success the transport is set up, on failure
    /// the connection state is unchanged; a connected interface stays so.
    open spec fn initialized_from(&self, before: &Self, ok: bool) -> bool {
        &&& self.same_settings(before)
        &&& before.connected() ==> ok
        &&& ok ==> self.connected()
        &&& !ok ==> self.connected() == before.connected()
    }

    /// The transport is set up.
    open spec fn can_process(&self) -> bool {
        self.connected()
    }

    fn initialize(&mut self) -> (r: Result<(), PlaygroundError>) {
        self.connect()
    }

    fn process(&self) -> (r: Result<(), PlaygroundError>) {
        if self.is_connected() {
            Ok(())
        } else {
            Err(PlaygroundError::NotInitialized)
        }
    }

    fn name(&self) -> (r: &str) {
        self.get_name()
    }

    fn description(&self) -> (r: &str) {
        self.get_description()
    }
}

} // verus!
