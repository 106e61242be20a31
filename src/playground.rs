//! The playground: a prompt store and a completion client side by side.
use vstd::prelude::*;

use crate::component::AIComponent;
use crate::error::PlaygroundError;
use crate::llm_interface::{chat_request, default_endpoint, LLMInterface};
use crate::prompt_manager::{default_templates, PromptManager};
use crate::template::render_text;

verus! {

/// Owns one completion client and one prompt store.
pub struct AIPlayground {
    pub llm_interface: LLMInterface,
    pub prompt_manager: PromptManager,
}

impl AIPlayground {
    pub open spec fn well_formed(&self) -> bool {
        self.llm_interface.well_formed() && self.prompt_manager.well_formed()
    }

    /// A playground with a client for the default model, not yet connected,
    /// and a store holding the default templates.
    pub fn new() -> (r: AIPlayground)
        ensures
            r.well_formed(),
            !r.llm_interface.connected(),
            r.llm_interface.spec_model() == "gpt-3.5-turbo"@,
            r.llm_interface.spec_endpoint() == default_endpoint(),
            r.llm_interface.spec_temperature() == Some(700u32),
            r.llm_interface.spec_max_tokens() == Some(1000u32),
            r.llm_interface.spec_api_key() is None,
            r.llm_interface.spec_name() == "LLM Interface"@,
            r.llm_interface.spec_description() == "Interface for Large Language Models"@,
            r.prompt_manager.templates() == default_templates(),
            r.prompt_manager.variables() == Map::<Seq<char>, Seq<char>>::empty(),
            r.prompt_manager.current() is None,
            r.prompt_manager.spec_name() == "Prompt Manager"@,
            r.prompt_manager.spec_description() == "Manages and templates prompts"@,
    {
        AIPlayground { llm_interface: LLMInterface::new(None), prompt_manager: PromptManager::new() }
    }

    /// Initializes the client, then the store, stopping at the first failure:
    /// the client's `Transport` error, returned unchanged.
    pub fn initialize(&mut self) -> (r: Result<(), PlaygroundError>)
        requires
            old(self).well_formed(),
        ensures
            final(self).well_formed(),
            final(self).llm_interface.initialized_from(&old(self).llm_interface, r is Ok),
            r is Ok <==> final(self).llm_interface.connected(),
            r is Err ==> r == Err::<(), PlaygroundError>(PlaygroundError::Transport),
            final(self).prompt_manager.initialized_from(&old(self).prompt_manager, true),
    {
        match self.llm_interface.connect() {
            Ok(()) => {},
            Err(e) => return Err(e),
        }
        self.prompt_manager.initialize()
    }

    /// The chat request body that sends the template at `index`, filled from
    /// the store's variables: `TemplateNotFound` when no template stands
    /// there, else the client's `NotInitialized` before it is set up.
    pub fn prepare_request(&self, index: usize) -> (r: Result<String, PlaygroundError>)
        requires
            self.well_formed(),
        ensures
            index >= self.prompt_manager.templates().len() ==> r == Err::<String, PlaygroundError>(
                PlaygroundError::TemplateNotFound,
            ),
            index < self.prompt_manager.templates().len() && !self.llm_interface.connected() ==> r
                == Err::<String, PlaygroundError>(PlaygroundError::NotInitialized),
            index < self.prompt_manager.templates().len() && self.llm_interface.connected() ==> r is Ok
                && r->Ok_0@ == chat_request(
                self.llm_interface.spec_model(),
                render_text(
                    self.prompt_manager.variables(),
                    self.prompt_manager.templates()[index as int],
                ),
                self.llm_interface.spec_temperature(),
            ),
    {
        match self.prompt_manager.get_processed_template(index) {
            Some(prompt) => self.llm_interface.request_body(prompt.as_str()),
            None => Err(PlaygroundError::TemplateNotFound),
        }
    }
}

} // verus!
