//! A store of prompt templates and of the variables that fill them.
use vstd::prelude::*;

use crate::error::PlaygroundError;
use crate::template::{render_text, Variables};

verus! {

/// The characters that carry Unicode's White_Space property.
pub open spec fn unicode_white_space(c: char) -> bool {
    ('\u{9}' <= c && c <= '\u{d}') || c == ' ' || c == '\u{85}' || c == '\u{a0}' || c
        == '\u{1680}' || ('\u{2000}' <= c && c <= '\u{200a}') || c == '\u{2028}' || c == '\u{2029}'
        || c == '\u{202f}' || c == '\u{205f}' || c == '\u{3000}'
}

/// Every character of `s` is white space, so that trimming leaves nothing.
pub open spec fn blank(s: Seq<char>) -> bool {
    forall|i: int| 0 <= i < s.len() ==> unicode_white_space(#[trigger] s[i])
}

/// Whether `c` carries the White_Space property.
pub fn is_white_space(c: char) -> (r: bool)
    ensures
        r == unicode_white_space(c),
{
    ('\u{9}' <= c && c <= '\u{d}') || c == ' ' || c == '\u{85}' || c == '\u{a0}' || c
        == '\u{1680}' || ('\u{2000}' <= c && c <= '\u{200a}') || c == '\u{2028}' || c == '\u{2029}'
        || c == '\u{202f}' || c == '\u{205f}' || c == '\u{3000}'
}

/// Whether `s` is empty once white space is trimmed from both ends.
pub fn is_blank(s: &str) -> (r: bool)
    ensures
        r == blank(s@),
{
    let n = s.unicode_len();
    let mut i: usize = 0;
    while i < n
        invariant
            n == s@.len(),
            i <= n,
            forall|k: int| 0 <= k < i ==> unicode_white_space(#[trigger] s@[k]),
        decreases n - i,
    {
        if !is_white_space(s.get_char(i)) {
            return false;
        }
        i = i + 1;
    }
    true
}

/// The views of a sequence of strings.
pub open spec fn string_views(v: Seq<String>) -> Seq<Seq<char>> {
    v.map_values(|s: String| s@)
}

/// The templates a new store starts with.
pub open spec fn default_templates() -> Seq<Seq<char>> {
    seq![
        "Explain {topic} in simple terms"@,
        "Write a {style} story about {subject}"@,
        "Analyze the following: {content}"@,
        "Generate code for {language} to {task}"@,
        "Summarize the key points of {text}"@,
        "Translate {text} to {language}"@,
        "Create a {type} plan for {goal}"@,
        "Debug this {language} code: {code}"@,
    ]
}

/// Manages prompt templates and fills their placeholders.
pub struct PromptManager {
    name: String,
    description: String,
    prompt_templates: Vec<String>,
    current_prompt: Option<String>,
    template_variables: Variables,
}

impl PromptManager {
    pub closed spec fn well_formed(&self) -> bool {
        self.template_variables.well_formed()
    }

    /// The stored templates, in order.
    pub closed spec fn templates(&self) -> Seq<Seq<char>> {
        string_views(self.prompt_templates@)
    }

    /// The bound variables.
    pub closed spec fn variables(&self) -> Map<Seq<char>, Seq<char>> {
        self.template_variables@
    }

    /// The prompt last set, if any.
    pub closed spec fn current(&self) -> Option<Seq<char>> {
        match self.current_prompt {
            Some(p) => Some(p@),
            None => None,
        }
    }

    pub closed spec fn spec_name(&self) -> Seq<char> {
        self.name@
    }

    pub closed spec fn spec_description(&self) -> Seq<char> {
        self.description@
    }

    /// The component's name.
    pub(crate) fn name_str(&self) -> (r: &str)
        ensures
            r@ == self.spec_name(),
    {
        self.name.as_str()
    }

    /// The component's description.
    pub(crate) fn description_str(&self) -> (r: &str)
        ensures
            r@ == self.spec_description(),
    {
        self.description.as_str()
    }

    /// A store with the default templates, no variables and no current prompt.
    pub fn new() -> (r: PromptManager)
        ensures
            r.well_formed(),
            r.templates() == default_templates(),
            r.variables() == Map::<Seq<char>, Seq<char>>::empty(),
            r.current() is None,
            r.spec_name() == "Prompt Manager"@,
            r.spec_description() == "Manages and templates prompts"@,
    {
        let prompt_templates = vec![
            String::from_str("Explain {topic} in simple terms"),
            String::from_str("Write a {style} story about {subject}"),
            String::from_str("Analyze the following: {content}"),
            String::from_str("Generate code for {language} to {task}"),
            String::from_str("Summarize the key points of {text}"),
            String::from_str("Translate {text} to {language}"),
            String::from_str("Create a {type} plan for {goal}"),
            String::from_str("Debug this {language} code: {code}"),
        ];
        let r = PromptManager {
            name: String::from_str("Prompt Manager"),
            description: String::from_str("Manages and templates prompts"),
            prompt_templates,
            current_prompt: None,
            template_variables: Variables::new(),
        };
        proof {
            assert(r.templates() =~= default_templates());
        }
        r
    }

    /// Sets the current prompt.
    pub fn set_prompt(&mut self, prompt: String)
        ensures
            final(self).current() == Some(prompt@),
            final(self).templates() == old(self).templates(),
            final(self).variables() == old(self).variables(),
            final(self).well_formed() == old(self).well_formed(),
            final(self).spec_name() == old(self).spec_name(),
            final(self).spec_description() == old(self).spec_description(),
    {
        self.current_prompt = Some(prompt);
    }

    /// The template at `index`, or `None` when `index` is out of range.
    pub fn get_template(&self, index: usize) -> (r: Option<&str>)
        ensures
            index < self.templates().len() ==> r is Some && r->0@ == self.templates()[index as int],
            index >= self.templates().len() ==> r is None,
    {
        if index < self.prompt_templates.len() {
            Some(self.prompt_templates[index].as_str())
        } else {
            None
        }
    }

    /// Appends `template`, unless it is empty or only white space.
    pub fn add_template(&mut self, template: String) -> (r: Result<(), PlaygroundError>)
        ensures
            blank(template@) ==> r == Err::<(), PlaygroundError>(PlaygroundError::EmptyTemplate)
                && final(self).templates() == old(self).templates(),
            !blank(template@) ==> r is Ok && final(self).templates() == old(self).templates().push(
                template@,
            ),
            final(self).variables() == old(self).variables(),
            final(self).current() == old(self).current(),
            final(self).well_formed() == old(self).well_formed(),
            final(self).spec_name() == old(self).spec_name(),
            final(self).spec_description() == old(self).spec_description(),
    {
        if is_blank(template.as_str()) {
            return Err(PlaygroundError::EmptyTemplate);
        }
        self.prompt_templates.push(template);
        proof {
            assert(self.templates() =~= old(self).templates().push(template@));
        }
        Ok(())
    }

    /// The current prompt, if one was set.
    pub fn current_prompt(&self) -> (r: Option<&str>)
        ensures
            r is Some <==> self.current() is Some,
            r is Some ==> r->0@ == self.current()->0,
    {
        match &self.current_prompt {
            Some(p) => Some(p.as_str()),
            None => None,
        }
    }

    /// The number of stored templates.
    pub fn template_count(&self) -> (r: usize)
        ensures
            r == self.templates().len(),
    {
        self.prompt_templates.len()
    }

    /// All stored templates, in order.
    pub fn all_templates(&self) -> (r: &[String])
        ensures
            string_views(r@) == self.templates(),
    {
        self.prompt_templates.as_slice()
    }

    /// Binds `key` to `value`, replacing an earlier binding of `key`.
    pub fn set_variable(&mut self, key: String, value: String)
        requires
            old(self).well_formed(),
        ensures
            final(self).well_formed(),
            final(self).variables() == old(self).variables().insert(key@, value@),
            final(self).templates() == old(self).templates(),
            final(self).current() == old(self).current(),
            final(self).spec_name() == old(self).spec_name(),
            final(self).spec_description() == old(self).spec_description(),
    {
        self.template_variables.set(key, value);
    }

    /// `template` with its placeholders filled from the bound variables.
    pub fn process_template(&self, template: &str) -> (r: String)
        requires
            self.well_formed(),
        ensures
            r@ == render_text(self.variables(), template@),
    {
        self.template_variables.render(template)
    }

    /// The template at `index` with its placeholders filled, or `None` when
    /// `index` is out of range.
    pub fn get_processed_template(&self, index: usize) -> (r: Option<String>)
        requires
            self.well_formed(),
        ensures
            index < self.templates().len() ==> r is Some && r->0@ == render_text(
                self.variables(),
                self.templates()[index as int],
            ),
            index >= self.templates().len() ==> r is None,
    {
        match self.get_template(index) {
            Some(t) => Some(self.process_template(t)),
            None => None,
        }
    }
}

} // verus!
