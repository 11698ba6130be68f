//! The transport layer's verified core: client configuration and its
//! validation, the exact request body sent to the chat-completions
//! endpoint, the classification of failures, the reading of the reply
//! body, and the bounded retry policy.

use vstd::prelude::*;

use crate::errors::{DeepSeekError, DeepSeekErrorV};
use crate::json::{jv, jv_entries, jv_list, json_text, json_to_string, lemma_jv_entries_index,
    lemma_jv_list_index, Json, JsonV};
use crate::json_parse::{code_char, is_number_text, parse_json_text};
use crate::numtext::dec_rep;
use crate::schema_dec::{check_number_text, key_count, key_first, req_str};
use crate::strutil::{str_copy, str_eq};

verus! {

/// One role-tagged turn of a chat exchange.
#[derive(Debug, Clone, PartialEq)]
pub struct ChatMessage {
    pub role: String,
    pub content: String,
}

pub struct ChatMessageV {
    pub role: Seq<char>,
    pub content: Seq<char>,
}

impl View for ChatMessage {
    type V = ChatMessageV;

    open spec fn view(&self) -> ChatMessageV {
        ChatMessageV { role: self.role@, content: self.content@ }
    }
}

/// Client configuration: endpoint, credential, model and sampling knobs.
/// The temperature is carried as its JSON number text.
#[derive(Debug, Clone, PartialEq)]
pub struct Config {
    pub api_key: String,
    pub base_url: String,
    pub model: String,
    pub timeout: u64,
    pub max_tokens: u32,
    pub temperature: String,
}

pub struct ConfigV {
    pub api_key: Seq<char>,
    pub base_url: Seq<char>,
    pub model: Seq<char>,
    pub timeout: u64,
    pub max_tokens: u32,
    pub temperature: Seq<char>,
}

impl View for Config {
    type V = ConfigV;

    open spec fn view(&self) -> ConfigV {
        ConfigV {
            api_key: self.api_key@,
            base_url: self.base_url@,
            model: self.model@,
            timeout: self.timeout,
            max_tokens: self.max_tokens,
            temperature: self.temperature@,
        }
    }
}

/// Whether `s` starts with `p`.
pub open spec fn starts_with(s: Seq<char>, p: Seq<char>) -> bool {
    p.len() <= s.len() && s.subrange(0, p.len() as int) == p
}

/// Whether the string starts with the given prefix.
pub fn str_starts_with(s: &str, p: &str) -> (r: bool)
    ensures
        r == starts_with(s@, p@),
{
    let n = s.unicode_len();
    let m = p.unicode_len();
    if m > n {
        proof {
            assert(!starts_with(s@, p@));
        }
        return false;
    }
    let mut i: usize = 0;
    while i < m
        invariant
            n == s@.len() && m == p@.len() && m <= n,
            i <= m,
            forall|k: int| 0 <= k < i ==> s@[k] == p@[k],
        decreases m - i,
    {
        if s.get_char(i) != p.get_char(i) {
            proof {
                assert(s@.subrange(0, m as int)[i as int] == s@[i as int]);
            }
            return false;
        }
        i = i + 1;
    }
    proof {
        assert(s@.subrange(0, m as int) =~= p@);
    }
    true
}

/// A valid configuration: a credential is present, the endpoint is an
/// HTTP address, and the temperature is number text.
pub open spec fn config_ok(c: ConfigV) -> bool {
    &&& c.api_key.len() > 0
    &&& (starts_with(c.base_url, "http://"@) || starts_with(c.base_url, "https://"@))
    &&& is_number_text(c.temperature)
}

impl Config {
    /// Checks the configuration, exactly as construction demands it.
    pub fn validate(&self) -> (r: Result<(), DeepSeekError>)
        ensures
            r is Ok <==> config_ok(self@),
            (r matches Err(e) ==> e@ is ConfigError),
    {
        if self.api_key.as_str().is_empty() {
            return Err(
                DeepSeekError::ConfigError { message: str_copy("API key is missing") },
            );
        }
        if !(str_starts_with(self.base_url.as_str(), "http://") || str_starts_with(
            self.base_url.as_str(),
            "https://",
        )) {
            return Err(
                DeepSeekError::ConfigError { message: str_copy("base URL is not an HTTP address") },
            );
        }
        if !check_number_text(self.temperature.as_str()) {
            return Err(
                DeepSeekError::ConfigError { message: str_copy("temperature is not a number") },
            );
        }
        Ok(())
    }
}

/// The same configuration, pointed at the reasoning model.
pub fn reasoner_config(base: &Config) -> (r: Config)
    ensures
        r@.model == "deepseek-reasoner"@,
        r@.api_key == base@.api_key,
        r@.base_url == base@.base_url,
        r@.timeout == base@.timeout,
        r@.max_tokens == base@.max_tokens,
        r@.temperature == base@.temperature,
{
    Config {
        api_key: base.api_key.clone(),
        base_url: base.base_url.clone(),
        model: str_copy("deepseek-reasoner"),
        timeout: base.timeout,
        max_tokens: base.max_tokens,
        temperature: base.temperature.clone(),
    }
}

/// Whether the endpoint is the vendor's official host, where the backing
/// SDK may be used instead of the direct HTTP strategy.
pub fn is_official_deepseek_host(base_url: &str) -> (r: bool)
    ensures
        r == starts_with(base_url@, "https://api.deepseek.com"@),
{
    str_starts_with(base_url, "https://api.deepseek.com")
}

/// Which backing model a model name selects.
#[derive(Debug, Clone, Copy, PartialEq, Eq, Structural)]
pub enum ModelKind {
    DeepSeekChat,
    DeepSeekReasoner,
}

/// The backing model for a configured model name: the reasoner for its
/// exact name, the chat model for everything else.
pub fn map_model_string_to_ext(model: &str) -> (r: ModelKind)
    ensures
        r == (if model@ == "deepseek-reasoner"@ {
            ModelKind::DeepSeekReasoner
        } else {
            ModelKind::DeepSeekChat
        }),
{
    if str_eq(model, "deepseek-reasoner") {
        ModelKind::DeepSeekReasoner
    } else {
        ModelKind::DeepSeekChat
    }
}

/// The classification of a non-success HTTP status: busy for the four
/// transient statuses, otherwise an API error carrying the body text.
pub open spec fn spec_classify_status(status: u16, body: Seq<char>) -> DeepSeekErrorV {
    if status == 429 || status == 503 || status == 502 || status == 504 {
        DeepSeekErrorV::ServerBusy
    } else {
        DeepSeekErrorV::ApiError { status: status, message: body }
    }
}

/// Classifies a non-success HTTP response.
pub fn classify_http_status(status: u16, body: String) -> (r: DeepSeekError)
    ensures
        r@ == spec_classify_status(status, body@),
{
    if status == 429 || status == 503 || status == 502 || status == 504 {
        DeepSeekError::ServerBusy
    } else {
        DeepSeekError::ApiError { status, message: body }
    }
}

/// One character folded to lower case, for ASCII letters.
pub open spec fn lower_char(c: char) -> char {
    if 'A' <= c && c <= 'Z' {
        code_char(((c as u32) + 32) as u32)
    } else {
        c
    }
}

/// A text folded to lower case, character by character.
pub open spec fn to_lower(s: Seq<char>) -> Seq<char> {
    s.map_values(|c: char| lower_char(c))
}

/// Whether `needle` occurs anywhere in `hay`.
pub open spec fn contains_seq(hay: Seq<char>, needle: Seq<char>) -> bool {
    exists|i: int|
        0 <= i && i + needle.len() <= hay.len() && #[trigger] hay.subrange(
            i,
            i + needle.len() as int,
        ) == needle
}

fn lower_char_exec(c: char) -> (r: char)
    ensures
        r == lower_char(c),
{
    if 'A' <= c && c <= 'Z' {
        let v: u32 = c as u32 + 32;
        match crate::json_parse::char_from_code(v) {
            Some(d) => {
                proof {
                    crate::json_parse::lemma_code_char_eq(d, v);
                }
                d
            },
            None => {
                proof {
                    assert(false);
                }
                c
            },
        }
    } else {
        c
    }
}

fn to_lower_chars(s: &str) -> (r: Vec<char>)
    ensures
        r@ == to_lower(s@),
{
    let n = s.unicode_len();
    let mut r: Vec<char> = Vec::new();
    let mut i: usize = 0;
    while i < n
        invariant
            n == s@.len(),
            i <= n,
            r@.len() == i,
            forall|k: int| 0 <= k < i ==> #[trigger] r@[k] == lower_char(s@[k]),
        decreases n - i,
    {
        r.push(lower_char_exec(s.get_char(i)));
        i = i + 1;
    }
    proof {
        assert(r@ =~= to_lower(s@));
    }
    r
}

fn chars_contains(hay: &Vec<char>, needle: &str) -> (r: bool)
    ensures
        r == contains_seq(hay@, needle@),
{
    let m = needle.unicode_len();
    let n = hay.len();
    if m > n {
        proof {
            assert(!contains_seq(hay@, needle@));
        }
        return false;
    }
    if m == 0 {
        proof {
            assert(contains_seq(hay@, needle@)) by {
                assert(hay@.subrange(0, 0 + needle@.len() as int) =~= needle@);
            }
        }
        return true;
    }
    let mut i: usize = 0;
    while i <= n - m
        invariant
            1 <= m <= n,
            n == hay@.len(),
            m == needle@.len(),
            i <= n - m + 1,
            forall|j: int|
                0 <= j < i ==> #[trigger] hay@.subrange(j, j + needle@.len() as int) != needle@,
        decreases n - m - i + 1,
    {
        let mut k: usize = 0;
        let mut all = true;
        while k < m
            invariant
                m <= n,
                n == hay@.len(),
                m == needle@.len(),
                i + m <= n,
                k <= m,
                all ==> forall|x: int| 0 <= x < k ==> hay@[i + x] == needle@[x],
                !all ==> hay@.subrange(i as int, i + needle@.len() as int) != needle@,
            decreases m - k,
        {
            if hay[i + k] != needle.get_char(k) {
                proof {
                    assert(hay@.subrange(i as int, i + needle@.len() as int)[k as int] == hay@[i
                        + k]);
                }
                all = false;
                k = m;
            } else {
                k = k + 1;
            }
        }
        if all {
            proof {
                assert(hay@.subrange(i as int, i + needle@.len() as int) =~= needle@);
            }
            return true;
        }
        i = i + 1;
    }
    proof {
        assert forall|j: int| 0 <= j && j + needle@.len() <= hay@.len() implies #[trigger] hay@.subrange(
            j,
            j + needle@.len() as int,
        ) != needle@ by {
            assert(j < n - m + 1);
        }
    }
    false
}

/// The classification of a failed request from its transport-level
/// signals: timeout and connection flags first, then the failure text.
pub open spec fn spec_classify_transport(
    is_timeout: bool,
    is_connect: bool,
    is_request: bool,
    message: Seq<char>,
    timeout_secs: u64,
) -> DeepSeekErrorV {
    if is_timeout {
        DeepSeekErrorV::Timeout { seconds: timeout_secs }
    } else if is_connect {
        DeepSeekErrorV::NetworkError { message: "Failed to connect to server"@ }
    } else if is_request {
        DeepSeekErrorV::NetworkError { message: "Request failed"@ }
    } else {
        let lower = to_lower(message);
        if contains_seq(lower, "dns"@) {
            DeepSeekErrorV::NetworkError { message: "DNS resolution failed"@ }
        } else if contains_seq(lower, "connection refused"@) {
            DeepSeekErrorV::NetworkError { message: "Connection refused by server"@ }
        } else if contains_seq(lower, "network"@) || contains_seq(lower, "connection"@) {
            DeepSeekErrorV::NetworkError { message: message }
        } else {
            DeepSeekErrorV::NetworkError { message: "Request error: "@ + message }
        }
    }
}

/// Classifies a failed request from its transport-level signals.
pub fn classify_transport_error(
    is_timeout: bool,
    is_connect: bool,
    is_request: bool,
    message: &str,
    timeout_secs: u64,
) -> (r: DeepSeekError)
    ensures
        r@ == spec_classify_transport(is_timeout, is_connect, is_request, message@, timeout_secs),
{
    if is_timeout {
        DeepSeekError::Timeout { seconds: timeout_secs }
    } else if is_connect {
        DeepSeekError::NetworkError { message: str_copy("Failed to connect to server") }
    } else if is_request {
        DeepSeekError::NetworkError { message: str_copy("Request failed") }
    } else {
        let lower = to_lower_chars(message);
        if chars_contains(&lower, "dns") {
            DeepSeekError::NetworkError { message: str_copy("DNS resolution failed") }
        } else if chars_contains(&lower, "connection refused") {
            DeepSeekError::NetworkError { message: str_copy("Connection refused by server") }
        } else if chars_contains(&lower, "network") || chars_contains(&lower, "connection") {
            DeepSeekError::NetworkError { message: str_copy(message) }
        } else {
            let mut m = str_copy("Request error: ");
            m.append(message);
            DeepSeekError::NetworkError { message: m }
        }
    }
}

/// How many attempts the retrying entry point makes in all.
pub const MAX_SEND_ATTEMPTS: u64 = 3;

/// What the retrying entry point does after a failed attempt.
#[derive(Debug, Clone, Copy, PartialEq, Eq, Structural)]
pub enum RetryDecision {
    /// Sleep this many milliseconds, then try again.
    RetryAfterMs(u64),
    /// Surface the failure to the caller.
    GiveUp,
}

/// Two to the given power.
pub open spec fn pow2(n: nat) -> nat
    decreases n,
{
    if n == 0 {
        1
    } else {
        2 * pow2((n - 1) as nat)
    }
}

/// The retry policy: after `attempts_made` failed attempts, retry only a
/// busy-server or network failure, only while attempts remain, with a
/// backoff that starts at 500 ms and doubles each attempt.
pub open spec fn spec_next_send_action(e: DeepSeekErrorV, attempts_made: u64) -> RetryDecision {
    if (e is ServerBusy || e is NetworkError) && attempts_made + 1 < MAX_SEND_ATTEMPTS {
        RetryDecision::RetryAfterMs((500 * pow2(attempts_made as nat)) as u64)
    } else {
        RetryDecision::GiveUp
    }
}

/// Decides what the retrying entry point does after a failed attempt.
pub fn next_send_action(e: &DeepSeekError, attempts_made: u64) -> (r: RetryDecision)
    ensures
        r == spec_next_send_action(e@, attempts_made),
{
    if (e.is_server_busy() || e.is_network_error()) && attempts_made < MAX_SEND_ATTEMPTS - 1 {
        let mut backoff: u64 = 500;
        let mut k: u64 = 0;
        while k < attempts_made
            invariant
                k <= attempts_made,
                attempts_made + 1 < MAX_SEND_ATTEMPTS,
                backoff == 500 * pow2(k as nat),
        decreases attempts_made - k,
        {
            backoff = backoff * 2;
            k = k + 1;
        }
        RetryDecision::RetryAfterMs(backoff)
    } else {
        RetryDecision::GiveUp
    }
}

/// The request body for one chat-completions call: the configured model,
/// the turns, a demanded JSON-object response, and the sampling knobs.
pub open spec fn chat_request_jv(c: ConfigV, msgs: Seq<ChatMessageV>) -> JsonV {
    JsonV::Obj(
        seq![
            ("model"@, JsonV::Str(c.model)),
            (
                "messages"@,
                JsonV::Arr(
                    msgs.map_values(
                        |m: ChatMessageV| JsonV::Obj(
                            seq![("role"@, JsonV::Str(m.role)), ("content"@, JsonV::Str(m.content))],
                        ),
                    ),
                ),
            ),
            ("response_format"@, JsonV::Obj(seq![("type"@, JsonV::Str("json_object"@))])),
            ("max_tokens"@, JsonV::Num(dec_rep(c.max_tokens as nat))),
            ("temperature"@, JsonV::Num(c.temperature)),
        ],
    )
}

fn message_to_json(m: &ChatMessage) -> (r: Json)
    ensures
        r@ == JsonV::Obj(
            seq![("role"@, JsonV::Str(m@.role)), ("content"@, JsonV::Str(m@.content))],
        ),
{
    let mut entries: Vec<(String, Json)> = Vec::new();
    entries.push((str_copy("role"), Json::Str(m.role.clone())));
    entries.push((str_copy("content"), Json::Str(m.content.clone())));
    proof {
        lemma_jv_entries_index(entries@);
        assert(jv_entries(entries@) =~= seq![
            ("role"@, JsonV::Str(m@.role)),
            ("content"@, JsonV::Str(m@.content)),
        ]);
    }
    Json::Obj(entries)
}

/// The exact wire text of one chat-completions request body.
pub fn build_chat_request(c: &Config, messages: &Vec<ChatMessage>) -> (r: String)
    ensures
        r@ == json_text(chat_request_jv(c@, messages@.map_values(|m: ChatMessage| m@))),
{
    let mut msgs: Vec<Json> = Vec::new();
    let mut k: usize = 0;
    while k < messages.len()
        invariant
            k <= messages@.len(),
            msgs@.len() == k,
            forall|x: int|
                0 <= x < k ==> jv(#[trigger] msgs@[x]) == JsonV::Obj(
                    seq![
                        ("role"@, JsonV::Str(messages@[x]@.role)),
                        ("content"@, JsonV::Str(messages@[x]@.content)),
                    ],
                ),
        decreases messages@.len() - k,
    {
        let mj = message_to_json(&messages[k]);
        msgs.push(mj);
        k = k + 1;
    }
    proof {
        lemma_jv_list_index(msgs@);
        assert(jv_list(msgs@) =~= messages@.map_values(|m: ChatMessage| m@).map_values(
            |m: ChatMessageV| JsonV::Obj(
                seq![("role"@, JsonV::Str(m.role)), ("content"@, JsonV::Str(m.content))],
            ),
        ));
    }
    let mut rf: Vec<(String, Json)> = Vec::new();
    rf.push((str_copy("type"), Json::Str(str_copy("json_object"))));
    proof {
        lemma_jv_entries_index(rf@);
        assert(jv_entries(rf@) =~= seq![("type"@, JsonV::Str("json_object"@))]);
    }
    let mut digits: Vec<char> = Vec::new();
    crate::numtext::push_dec_u64(c.max_tokens as u64, &mut digits);
    let mut entries: Vec<(String, Json)> = Vec::new();
    entries.push((str_copy("model"), Json::Str(c.model.clone())));
    entries.push((str_copy("messages"), Json::Arr(msgs)));
    entries.push((str_copy("response_format"), Json::Obj(rf)));
    entries.push((str_copy("max_tokens"), Json::Num(crate::json::chars_to_string(&digits))));
    entries.push((str_copy("temperature"), Json::Num(c.temperature.clone())));
    proof {
        lemma_jv_entries_index(entries@);
        assert(jv_entries(entries@) =~= chat_request_jv(
            c@,
            messages@.map_values(|m: ChatMessage| m@),
        )->Obj_0);
    }
    let body = Json::Obj(entries);
    json_to_string(&body)
}

/// What the reply body must yield: the first choice's message content.
/// Every choice must carry a well-typed message; an empty list is its own
/// failure.
pub open spec fn spec_extract_reply(s: Seq<char>) -> Result<Seq<char>, DeepSeekErrorV> {
    match parse_json_text(s) {
        None => Err(
            DeepSeekErrorV::ParseError {
                message: "Failed to parse API response: invalid JSON"@,
            },
        ),
        Some(v) => match v {
            JsonV::Obj(e) => {
                if key_count(e, "choices"@) == 1 {
                    match key_first(e, "choices"@) {
                        JsonV::Arr(choices) => {
                            if !all_choices_ok(choices) {
                                Err(
                                    DeepSeekErrorV::ParseError {
                                        message:
                                            "Failed to parse API response: malformed choice"@,
                                    },
                                )
                            } else if choices.len() == 0 {
                                Err(
                                    DeepSeekErrorV::ParseError {
                                        message: "No choices in API response"@,
                                    },
                                )
                            } else {
                                Ok(choice_content(choices[0]))
                            }
                        },
                        _ => Err(
                            DeepSeekErrorV::ParseError {
                                message: "Failed to parse API response: no choices field"@,
                            },
                        ),
                    }
                } else {
                    Err(
                        DeepSeekErrorV::ParseError {
                            message: "Failed to parse API response: no choices field"@,
                        },
                    )
                }
            },
            _ => Err(
                DeepSeekErrorV::ParseError {
                    message: "Failed to parse API response: not an object"@,
                },
            ),
        },
    }
}

/// One well-typed choice: an object with one message holding string role
/// and content.
pub open spec fn choice_ok(v: JsonV) -> bool {
    match v {
        JsonV::Obj(e) => key_count(e, "message"@) == 1 && match key_first(e, "message"@) {
            JsonV::Obj(m) => req_str(m, "role"@) is Some && req_str(m, "content"@) is Some,
            _ => false,
        },
        _ => false,
    }
}

/// The content of a well-typed choice's message.
pub open spec fn choice_content(v: JsonV) -> Seq<char>
    recommends
        choice_ok(v),
{
    match v {
        JsonV::Obj(e) => match key_first(e, "message"@) {
            JsonV::Obj(m) => match req_str(m, "content"@) {
                Some(c) => c,
                None => Seq::<char>::empty(),
            },
            _ => Seq::<char>::empty(),
        },
        _ => Seq::<char>::empty(),
    }
}

/// Whether every choice in the list is well-typed.
pub open spec fn all_choices_ok(choices: Seq<JsonV>) -> bool {
    forall|k: int| 0 <= k < choices.len() ==> choice_ok(#[trigger] choices[k])
}

fn choice_ok_exec(j: &Json) -> (r: (bool, Option<String>))
    ensures
        r.0 == choice_ok(j@),
        r.0 ==> (r.1 matches Some(c) && c@ == choice_content(j@)),
        !r.0 ==> r.1 is None,
{
    match j {
        Json::Obj(entries) => {
            let (mc, mf) = crate::schema_dec::obj_lookup(entries, "message");
            if mc != 1 {
                return (false, None);
            }
            match mf {
                Some(Json::Obj(me)) => {
                    let (rc, rf) = crate::schema_dec::obj_lookup(me, "role");
                    let (cc, cf) = crate::schema_dec::obj_lookup(me, "content");
                    if rc != 1 || cc != 1 {
                        return (false, None);
                    }
                    let role_ok = match rf {
                        Some(Json::Str(_)) => true,
                        _ => false,
                    };
                    if !role_ok {
                        return (false, None);
                    }
                    match cf {
                        Some(Json::Str(c)) => (true, Some(c.clone())),
                        _ => (false, None),
                    }
                },
                _ => (false, None),
            }
        },
        _ => (false, None),
    }
}

/// Reads a reply body and takes the first choice's message content,
/// exactly as `spec_extract_reply` says.
#[verifier::rlimit(100)]
pub fn extract_reply(body: &str) -> (r: Result<String, DeepSeekError>)
    ensures
        (match r {
            Ok(c) => spec_extract_reply(body@) == Ok::<Seq<char>, DeepSeekErrorV>(c@),
            Err(e) => spec_extract_reply(body@) == Err::<Seq<char>, DeepSeekErrorV>(e@),
        }),
{
    let parsed = match crate::json_parse::parse_json(body) {
        Some(v) => v,
        None => {
            return Err(
                DeepSeekError::ParseError {
                    message: str_copy("Failed to parse API response: invalid JSON"),
                },
            );
        },
    };
    match &parsed {
        Json::Obj(entries) => {
            proof {
                assert(jv(parsed) == JsonV::Obj(jv_entries(entries@)));
            }
            let (cc, cf) = crate::schema_dec::obj_lookup(entries, "choices");
            if cc != 1 {
                return Err(
                    DeepSeekError::ParseError {
                        message: str_copy("Failed to parse API response: no choices field"),
                    },
                );
            }
            match cf {
                Some(Json::Arr(choices)) => {
                    let mut k: usize = 0;
                    let mut all = true;
                    let mut first: Option<String> = None;
                    proof {
                        lemma_jv_list_index(choices@);
                        assert(key_first(jv_entries(entries@), "choices"@) == JsonV::Arr(
                            jv_list(choices@),
                        ));
                    }
                    while k < choices.len()
                        invariant
                            k <= choices@.len(),
                            jv_list(choices@).len() == choices@.len(),
                            forall|x: int|
                                0 <= x < choices@.len() ==> #[trigger] jv_list(choices@)[x] == jv(
                                    choices@[x],
                                ),
                            all == (forall|x: int|
                                0 <= x < k ==> choice_ok(#[trigger] jv_list(choices@)[x])),
                            (match first {
                                Some(c) => k > 0 && choices@.len() > 0 && choice_ok(
                                    jv_list(choices@)[0],
                                ) && c@ == choice_content(jv_list(choices@)[0]),
                                None => k == 0 || choices@.len() == 0 || !choice_ok(
                                    jv_list(choices@)[0],
                                ),
                            }),
                        decreases choices@.len() - k,
                    {
                        let (ok, content) = choice_ok_exec(&choices[k]);
                        proof {
                            assert(jv_list(choices@)[k as int] == jv(choices@[k as int]));
                        }
                        if !ok {
                            all = false;
                        }
                        if k == 0 {
                            first = content;
                        }
                        k = k + 1;
                    }
                    if !all {
                        proof {
                            assert(!all_choices_ok(jv_list(choices@)));
                        }
                        Err(
                            DeepSeekError::ParseError {
                                message: str_copy("Failed to parse API response: malformed choice"),
                            },
                        )
                    } else {
                        proof {
                            assert(all_choices_ok(jv_list(choices@)));
                        }
                        match first {
                            Some(c) => Ok(c),
                            None => Err(
                                DeepSeekError::ParseError {
                                    message: str_copy("No choices in API response"),
                                },
                            ),
                        }
                    }
                },
                _ => Err(
                    DeepSeekError::ParseError {
                        message: str_copy("Failed to parse API response: no choices field"),
                    },
                ),
            }
        },
        _ => Err(
            DeepSeekError::ParseError {
                message: str_copy("Failed to parse API response: not an object"),
            },
        ),
    }
}

} // verus!
