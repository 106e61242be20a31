//! A client for a chat-completion endpoint: it frames the request body and
//! interprets the reply; the transfer itself is made by its caller.
use vstd::prelude::*;

use crate::error::PlaygroundError;

verus! {

#[verifier::external_type_specification]
#[verifier::external_body]
pub struct ExClient(reqwest::Client);

/// The JSON escape of one character inside a string: quote and backslash
/// are backslashed, the control characters with a short form get it, the
/// other control characters become `\u00` and two lowercase hex digits.
pub open spec fn json_escape_char(c: char) -> Seq<char> {
    if c == '"' {
        seq!['\\', '"']
    } else if c == '\\' {
        seq!['\\', '\\']
    } else if c == '\u{8}' {
        seq!['\\', 'b']
    } else if c == '\t' {
        seq!['\\', 't']
    } else if c == '\n' {
        seq!['\\', 'n']
    } else if c == '\u{c}' {
        seq!['\\', 'f']
    } else if c == '\r' {
        seq!['\\', 'r']
    } else if (c as u32) < 0x20 {
        seq!['\\', 'u', '0', '0', hex_digit_char((c as u32) / 16), hex_digit_char((c as u32) % 16)]
    } else {
        seq![c]
    }
}

/// The lowercase hex digit of `d` (below 16).
pub open spec fn hex_digit_char(d: u32) -> char {
    "0123456789abcdef"@[d as int]
}

/// The escaped characters of `s`.
pub open spec fn json_escape(s: Seq<char>) -> Seq<char>
    decreases s.len(),
{
    if s.len() == 0 {
        Seq::empty()
    } else {
        json_escape_char(s[0]) + json_escape(s.drop_first())
    }
}

/// `s` written as a JSON string.
pub open spec fn json_quoted(s: Seq<char>) -> Seq<char> {
    seq!['"'] + json_escape(s) + seq!['"']
}

/// Relies on serde_json's compact `Display` of `Value::String`: `s` quoted,
/// with the escapes of `format_escaped_str_contents`.
#[verifier::external_body]
fn json_quote(s: &str) -> (r: String)
    ensures
        r@ == json_quoted(s@),
{
    serde_json::Value::from(s).to_string()
}

/// The character of the decimal digit `d`.
pub open spec fn digit_char(d: nat) -> char {
    "0123456789"@[d as int]
}

/// `n` in decimal, without leading zeros.
pub open spec fn decimal(n: nat) -> Seq<char>
    decreases n,
{
    if n < 10 {
        seq![digit_char(n)]
    } else {
        decimal(n / 10) + seq![digit_char(n % 10)]
    }
}

/// The one-character text of the digit `d`.
fn digit_text(d: u32) -> (r: &'static str)
    requires
        d < 10,
    ensures
        r@ == seq![digit_char(d as nat)],
{
    proof {
        reveal_strlit("0123456789");
    }
    let r = "0123456789".substring_char(d as usize, d as usize + 1);
    proof {
        assert(r@ =~= seq![digit_char(d as nat)]);
    }
    r
}

/// Appends `n` in decimal to `out`.
fn push_decimal(out: &mut String, n: u32)
    ensures
        final(out)@ == old(out)@ + decimal(n as nat),
    decreases n,
{
    if n >= 10 {
        push_decimal(out, n / 10);
    }
    out.append(digit_text(n % 10));
    proof {
        assert(out@ =~= old(out)@ + decimal(n as nat));
    }
}

/// A number of thousandths written as a JSON number with three decimals.
pub open spec fn milli_text(t: nat) -> Seq<char> {
    decimal(t / 1000) + "."@ + seq![
        digit_char((t / 100) % 10),
        digit_char((t / 10) % 10),
        digit_char(t % 10),
    ]
}

/// The chat request body: one user message, no streaming, and the
/// temperature (in thousandths) among the options when one is set.
pub open spec fn chat_request(model: Seq<char>, prompt: Seq<char>, temperature: Option<u32>) -> Seq<
    char,
> {
    "{\"model\":"@ + json_quoted(model) + ",\"messages\":[{\"role\":\"user\",\"content\":"@
        + json_quoted(prompt) + "}],\"stream\":false"@ + match temperature {
        Some(t) => ",\"options\":{\"temperature\":"@ + milli_text(t as nat) + "}"@,
        None => Seq::<char>::empty(),
    } + "}"@
}

/// The view of an optional string.
pub open spec fn string_option_view(o: Option<String>) -> Option<Seq<char>> {
    match o {
        Some(s) => Some(s@),
        None => None,
    }
}

/// Whether `code` is a success status.
pub open spec fn is_success(code: u16) -> bool {
    200 <= code <= 299
}

/// The outcome of a reply with status `code` whose `message.content` string
/// is `content`, if it has one.
pub open spec fn reply_outcome(code: u16, content: Option<Seq<char>>) -> Result<
    Seq<char>,
    PlaygroundError,
> {
    if !is_success(code) {
        Err(PlaygroundError::HttpStatus { code })
    } else {
        match content {
            Some(c) => Ok(c),
            None => Err(PlaygroundError::MalformedResponse),
        }
    }
}

/// The endpoint a new interface talks to.
pub open spec fn default_endpoint() -> Seq<char> {
    "http://localhost:11434/api/chat"@
}

/// Settings of the requests an interface sends.
pub struct LLMConfig {
    pub model: String,
    pub max_tokens: Option<u32>,
    /// The sampling temperature in thousandths (700 stands for 0.7).
    pub temperature_milli: Option<u32>,
    pub api_key: Option<String>,
    pub endpoint: String,
}

/// Relies on `reqwest::ClientBuilder::build`, which fails when no TLS backend
/// or resolver configuration can be set up.
#[verifier::external_body]
fn build_http_client() -> (r: Option<reqwest::Client>) {
    reqwest::Client::builder().build().ok()
}

/// What serde_json finds in the JSON text `body` at member `outer`, then
/// member `inner`, when that is a string.
pub uninterp spec fn json_nested_string_of(
    body: Seq<char>,
    outer: Seq<char>,
    inner: Seq<char>,
) -> Option<Seq<char>>;

/// Relies on `serde_json::from_str` into a `Value`, then `Value::get` for
/// `outer` and `inner` and `Value::as_str`: `None` when `body` is not JSON or
/// that member is missing or not a string.
#[verifier::external_body]
fn json_nested_string(body: &str, outer: &str, inner: &str) -> (r: Option<String>)
    ensures
        string_option_view(r) == json_nested_string_of(body@, outer@, inner@),
{
    let v = serde_json::from_str::<serde_json::Value>(body).ok()?;
    v.get(outer)?.get(inner)?.as_str().map(|s| s.to_string())
}

/// The `message.content` string of the chat reply `body`, if it has one.
pub open spec fn reply_content_of(body: Seq<char>) -> Option<Seq<char>> {
    json_nested_string_of(body, "message"@, "content"@)
}

/// The `message.content` string of a chat reply body, if it has one.
pub fn reply_content(body: &str) -> (r: Option<String>)
    ensures
        string_option_view(r) == reply_content_of(body@),
{
    json_nested_string(body, "message", "content")
}

/// The result of a chat call whose reply came back with status `code` and
/// with `content` as its `message.content` string, if it had one.
pub fn interpret_reply(code: u16, content: Option<String>) -> (r: Result<String, PlaygroundError>)
    ensures
        match r {
            Ok(s) => reply_outcome(code, string_option_view(content)) == Ok::<
                Seq<char>,
                PlaygroundError,
            >(s@),
            Err(e) => reply_outcome(code, string_option_view(content)) == Err::<
                Seq<char>,
                PlaygroundError,
            >(e),
        },
{
    if code < 200 || code > 299 {
        return Err(PlaygroundError::HttpStatus { code });
    }
    match content {
        Some(c) => Ok(c),
        None => Err(PlaygroundError::MalformedResponse),
    }
}

/// The result of a chat call whose reply came back with status `code` and
/// body `body`: the status error, else the reply's `message.content`, else
/// `MalformedResponse`.
pub fn read_reply(code: u16, body: &str) -> (r: Result<String, PlaygroundError>)
    ensures
        match r {
            Ok(s) => reply_outcome(code, reply_content_of(body@)) == Ok::<
                Seq<char>,
                PlaygroundError,
            >(s@),
            Err(e) => reply_outcome(code, reply_content_of(body@)) == Err::<
                Seq<char>,
                PlaygroundError,
            >(e),
        },
{
    if code < 200 || code > 299 {
        return Err(PlaygroundError::HttpStatus { code });
    }
    interpret_reply(code, reply_content(body))
}

/// Interface to a chat-completion model.
pub struct LLMInterface {
    name: String,
    description: String,
    config: LLMConfig,
    client: Option<reqwest::Client>,
    is_connected: bool,
}

impl LLMInterface {
    pub closed spec fn well_formed(&self) -> bool {
        self.is_connected == self.client is Some
    }

    pub closed spec fn connected(&self) -> bool {
        self.is_connected
    }

    pub closed spec fn spec_model(&self) -> Seq<char> {
        self.config.model@
    }

    pub closed spec fn spec_temperature(&self) -> Option<u32> {
        self.config.temperature_milli
    }

    pub closed spec fn spec_max_tokens(&self) -> Option<u32> {
        self.config.max_tokens
    }

    pub closed spec fn spec_endpoint(&self) -> Seq<char> {
        self.config.endpoint@
    }

    pub closed spec fn spec_api_key(&self) -> Option<Seq<char>> {
        match self.config.api_key {
            Some(k) => Some(k@),
            None => None,
        }
    }

    pub closed spec fn spec_name(&self) -> Seq<char> {
        self.name@
    }

    pub closed spec fn spec_description(&self) -> Seq<char> {
        self.description@
    }

    /// The component's name.
    pub(crate) fn name_str(&self) -> (r: &str)
        ensures
            r@ == self.spec_name(),
    {
        self.name.as_str()
    }

    /// The component's description.
    pub(crate) fn description_str(&self) -> (r: &str)
        ensures
            r@ == self.spec_description(),
    {
        self.description.as_str()
    }

    /// The settings other than the connection agree.
    pub open spec fn same_settings(&self, other: &LLMInterface) -> bool {
        &&& self.spec_model() == other.spec_model()
        &&& self.spec_temperature() == other.spec_temperature()
        &&& self.spec_max_tokens() == other.spec_max_tokens()
        &&& self.spec_endpoint() == other.spec_endpoint()
        &&& self.spec_api_key() == other.spec_api_key()
        &&& self.spec_name() == other.spec_name()
        &&& self.spec_description() == other.spec_description()
    }

    /// An interface for `model` (by default `gpt-3.5-turbo`), not yet connected.
    pub fn new(model: Option<String>) -> (r: LLMInterface)
        ensures
            r.well_formed(),
            !r.connected(),
            r.spec_model() == match model {
                Some(m) => m@,
                None => "gpt-3.5-turbo"@,
            },
            r.spec_max_tokens() == Some(1000u32),
            r.spec_temperature() == Some(700u32),
            r.spec_api_key() is None,
            r.spec_endpoint() == default_endpoint(),
            r.spec_name() == "LLM Interface"@,
            r.spec_description() == "Interface for Large Language Models"@,
    {
        let model = match model {
            Some(m) => m,
            None => String::from_str("gpt-3.5-turbo"),
        };
        LLMInterface {
            name: String::from_str("LLM Interface"),
            description: String::from_str("Interface for Large Language Models"),
            config: LLMConfig {
                model,
                max_tokens: Some(1000),
                temperature_milli: Some(700),
                api_key: None,
                endpoint: String::from_str("http://localhost:11434/api/chat"),
            },
            client: None,
            is_connected: false,
        }
    }

    /// An interface with the given settings, not yet connected.
    pub fn from_config(config: LLMConfig) -> (r: LLMInterface)
        ensures
            r.well_formed(),
            !r.connected(),
            r.spec_model() == config.model@,
            r.spec_max_tokens() == config.max_tokens,
            r.spec_temperature() == config.temperature_milli,
            r.spec_api_key() == string_option_view(config.api_key),
            r.spec_endpoint() == config.endpoint@,
            r.spec_name() == "LLM Interface"@,
            r.spec_description() == "Interface for Large Language Models"@,
    {
        LLMInterface {
            name: String::from_str("LLM Interface"),
            description: String::from_str("Interface for Large Language Models"),
            config,
            client: None,
            is_connected: false,
        }
    }

    /// Stores the credential sent to endpoints that ask for one.
    pub fn set_api_key(&mut self, key: String)
        ensures
            final(self).spec_api_key() == Some(key@),
            final(self).connected() == old(self).connected(),
            final(self).well_formed() == old(self).well_formed(),
            final(self).spec_model() == old(self).spec_model(),
            final(self).spec_temperature() == old(self).spec_temperature(),
            final(self).spec_max_tokens() == old(self).spec_max_tokens(),
            final(self).spec_endpoint() == old(self).spec_endpoint(),
            final(self).spec_name() == old(self).spec_name(),
            final(self).spec_description() == old(self).spec_description(),
    {
        self.config.api_key = Some(key);
    }

    /// The model requests are made for.
    pub fn model_name(&self) -> (r: &str)
        ensures
            r@ == self.spec_model(),
    {
        self.config.model.as_str()
    }

    /// Whether `initialize` has set up the transport.
    pub fn is_connected(&self) -> (r: bool)
        ensures
            r == self.connected(),
    {
        self.is_connected
    }

    /// The endpoint requests are sent to.
    pub fn endpoint(&self) -> (r: &str)
        ensures
            r@ == self.spec_endpoint(),
    {
        self.config.endpoint.as_str()
    }

    /// The stored credential, if any.
    pub fn api_key(&self) -> (r: Option<&str>)
        ensures
            r is Some <==> self.spec_api_key() is Some,
            r is Some ==> r->0@ == self.spec_api_key()->0,
    {
        match &self.config.api_key {
            Some(k) => Some(k.as_str()),
            None => None,
        }
    }

    /// The HTTP transport, once `initialize` has set it up.
    pub fn http_client(&self) -> (r: Option<&reqwest::Client>)
        requires
            self.well_formed(),
        ensures
            r is Some <==> self.connected(),
    {
        self.client.as_ref()
    }

    /// Sets up the HTTP transport, keeping the one already set up; fails with
    /// `Transport` when it cannot be built, and leaves the interface as it
    /// was then.
    pub fn connect(&mut self) -> (r: Result<(), PlaygroundError>)
        requires
            old(self).well_formed(),
        ensures
            final(self).well_formed(),
            final(self).same_settings(old(self)),
            r is Ok ==> final(self).connected(),
            old(self).connected() ==> r is Ok,
            r is Err ==> r == Err::<(), PlaygroundError>(PlaygroundError::Transport)
                && final(self).connected() == old(self).connected(),
    {
        if self.is_connected {
            return Ok(());
        }
        match build_http_client() {
            Some(c) => {
                self.client = Some(c);
                self.is_connected = true;
                Ok(())
            },
            None => Err(PlaygroundError::Transport),
        }
    }

    /// The body of the chat request that sends `prompt`, or `NotInitialized`
    /// before the transport is set up.
    pub fn request_body(&self, prompt: &str) -> (r: Result<String, PlaygroundError>)
        ensures
            !self.connected() ==> r == Err::<String, PlaygroundError>(
                PlaygroundError::NotInitialized,
            ),
            self.connected() ==> r is Ok && r->Ok_0@ == chat_request(
                self.spec_model(),
                prompt@,
                self.spec_temperature(),
            ),
    {
        if !self.is_connected {
            return Err(PlaygroundError::NotInitialized);
        }
        let mut body = String::from_str("{\"model\":");
        let model = json_quote(self.config.model.as_str());
        body.append(model.as_str());
        body.append(",\"messages\":[{\"role\":\"user\",\"content\":");
        let content = json_quote(prompt);
        body.append(content.as_str());
        body.append("}],\"stream\":false");
        let ghost before_options = body@;
        match self.config.temperature_milli {
            Some(t) => {
                body.append(",\"options\":{\"temperature\":");
                push_decimal(&mut body, t / 1000);
                body.append(".");
                body.append(digit_text((t / 100) % 10));
                body.append(digit_text((t / 10) % 10));
                body.append(digit_text(t % 10));
                body.append("}");
            },
            None => {},
        }
        body.append("}");
        proof {
            let options = match self.config.temperature_milli {
                Some(t) => ",\"options\":{\"temperature\":"@ + milli_text(t as nat) + "}"@,
                None => Seq::<char>::empty(),
            };
            assert(body@ =~= before_options + options + "}"@);
            assert(body@ =~= chat_request(self.spec_model(), prompt@, self.spec_temperature()));
        }
        Ok(body)
    }
}

} // verus!
