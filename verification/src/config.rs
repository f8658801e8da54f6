//! Configuration values and the rules that layer them.
//!
//! Priority, highest first: command-line flags, environment variables, the
//! project config file, the global config file, defaults. Reading files and
//! the environment happens at the program's edge; this module decides what
//! the values found there change.

use vstd::prelude::*;
use crate::llm::RetryConfig;
use crate::text::{chars_of, eq_str, lowercase, to_lowercase, to_owned_string};

verus! {

/// Default model to use.
pub const DEFAULT_MODEL: &'static str = "llama3.2";

/// Default Ollama API URL.
pub const DEFAULT_OLLAMA_URL: &'static str = "http://localhost:11434";

/// Default URL for OpenAI-compatible API.
pub const DEFAULT_OPENAI_URL: &'static str = "https://api.openai.com/v1";

/// Default URL for Gemini API.
pub const DEFAULT_GEMINI_URL: &'static str = "https://generativelanguage.googleapis.com/v1beta";

/// Default timeout for LLM requests in seconds.
pub const DEFAULT_TIMEOUT_SECS: u64 = 60;

/// Tokenizer mode for token counting.
#[derive(Debug, Clone, Copy, PartialEq, Eq, Structural)]
pub enum TokenizerMode {
    /// Fast heuristic-based counting (~4 chars per token); the default
    Heuristic,
    /// Full `HuggingFace` tokenizer (GPT-2)
    Full,
}

impl Default for TokenizerMode {
    fn default() -> (r: Self)
        ensures
            r == TokenizerMode::Heuristic,
    {
        TokenizerMode::Heuristic
    }
}

impl TokenizerMode {
    /// The mode's name, as its `Display` writes it.
    pub fn name(&self) -> (s: &'static str)
        ensures
            s@ == match self {
                TokenizerMode::Heuristic => "heuristic"@,
                TokenizerMode::Full => "full"@,
            },
    {
        match self {
            TokenizerMode::Heuristic => "heuristic",
            TokenizerMode::Full => "full",
        }
    }

    /// Parses a mode name, ignoring case.
    pub fn from_str(s: &str) -> (r: Result<Self, String>)
        ensures
            match Self::from_str_spec(s@) {
                Some(m) => r == Ok::<Self, String>(m),
                None => r matches Err(e) && e@ == "unknown tokenizer mode: "@ + s@ + " (expected 'heuristic' or 'full')"@,
            },
    {
        let lower = to_lowercase(s);
        let lv = chars_of(lower.as_str());
        if eq_str(&lv, "heuristic") {
            Ok(TokenizerMode::Heuristic)
        } else if eq_str(&lv, "full") {
            Ok(TokenizerMode::Full)
        } else {
            let mut e = "unknown tokenizer mode: ".to_string();
            e.append(s);
            e.append(" (expected 'heuristic' or 'full')");
            Err(e)
        }
    }
}

/// LLM provider selection.
#[derive(Debug, Clone, Copy, PartialEq, Eq, Structural)]
pub enum Provider {
    /// Local Ollama server; the default
    Ollama,
    /// OpenAI or an OpenAI-compatible endpoint
    OpenAi,
    /// Google Gemini
    Gemini,
}

impl Default for Provider {
    fn default() -> (r: Self)
        ensures
            r == Provider::Ollama,
    {
        Provider::Ollama
    }
}

impl Provider {
    /// The provider's name.
    pub open spec fn name_spec(self) -> Seq<char> {
        match self {
            Provider::Ollama => "ollama"@,
            Provider::OpenAi => "openai"@,
            Provider::Gemini => "gemini"@,
        }
    }

    /// The provider's name, as its `Display` writes it.
    pub fn name(&self) -> (s: &'static str)
        ensures
            s@ == self.name_spec(),
    {
        match self {
            Provider::Ollama => "ollama",
            Provider::OpenAi => "openai",
            Provider::Gemini => "gemini",
        }
    }

    /// Parses a provider name, ignoring case.
    pub fn from_str(s: &str) -> (r: Result<Self, String>)
        ensures
            match Self::from_str_spec(s@) {
                Some(p) => r == Ok::<Self, String>(p),
                None => r matches Err(e) && e@ == "unknown provider: "@ + s@ + " (expected 'ollama', 'openai', or 'gemini')"@,
            },
    {
        let lower = to_lowercase(s);
        let lv = chars_of(lower.as_str());
        if eq_str(&lv, "ollama") {
            Ok(Provider::Ollama)
        } else if eq_str(&lv, "openai") {
            Ok(Provider::OpenAi)
        } else if eq_str(&lv, "gemini") {
            Ok(Provider::Gemini)
        } else {
            let mut e = "unknown provider: ".to_string();
            e.append(s);
            e.append(" (expected 'ollama', 'openai', or 'gemini')");
            Err(e)
        }
    }
}

/// Custom prompts configuration: overrides of the default system prompts.
#[derive(Debug, Clone)]
pub struct PromptsConfig {
    /// Custom prompt for the review command
    pub review: Option<String>,
    /// Custom prompt for commit-msg derive type
    pub commit_msg: Option<String>,
    /// Custom prompt for explanation derive type
    pub explanation: Option<String>,
    /// Custom prompt for summary derive type
    pub summary: Option<String>,
    /// Custom prompt for fix command
    pub fix: Option<String>,
}

impl Default for PromptsConfig {
    fn default() -> (r: Self)
        ensures
            r.review is None,
            r.commit_msg is None,
            r.explanation is None,
            r.summary is None,
            r.fix is None,
    {
        PromptsConfig { review: None, commit_msg: None, explanation: None, summary: None, fix: None }
    }
}

/// The view of an optional string.
pub open spec fn opt_view(o: Option<String>) -> Option<Seq<char>> {
    match o {
        Some(s) => Some(s@),
        None => None,
    }
}

/// `Some` in `other` wins over `mine`.
pub open spec fn override_opt(mine: Option<Seq<char>>, other: Option<Seq<char>>) -> Option<Seq<char>> {
    if other is Some { other } else { mine }
}

fn clone_opt(o: &Option<String>) -> (r: Option<String>)
    ensures
        opt_view(r) == opt_view(*o),
{
    match o {
        Some(s) => Some(s.clone()),
        None => None,
    }
}

impl PromptsConfig {
    /// Merge another prompts config into this one: each prompt set in `other`
    /// replaces the one here; the others stay.
    pub fn merge(&mut self, other: &Self)
        ensures
            opt_view(final(self).review) == override_opt(opt_view(old(self).review), opt_view(other.review)),
            opt_view(final(self).commit_msg) == override_opt(opt_view(old(self).commit_msg), opt_view(other.commit_msg)),
            opt_view(final(self).explanation) == override_opt(opt_view(old(self).explanation), opt_view(other.explanation)),
            opt_view(final(self).summary) == override_opt(opt_view(old(self).summary), opt_view(other.summary)),
            opt_view(final(self).fix) == override_opt(opt_view(old(self).fix), opt_view(other.fix)),
    {
        if other.review.is_some() {
            self.review = clone_opt(&other.review);
        }
        if other.commit_msg.is_some() {
            self.commit_msg = clone_opt(&other.commit_msg);
        }
        if other.explanation.is_some() {
            self.explanation = clone_opt(&other.explanation);
        }
        if other.summary.is_some() {
            self.summary = clone_opt(&other.summary);
        }
        if other.fix.is_some() {
            self.fix = clone_opt(&other.fix);
        }
    }
}

/// Configuration file contents (the file itself is TOML, read at the edge).
#[derive(Debug)]
pub struct ConfigFile {
    /// LLM provider
    pub provider: Option<Provider>,
    /// Model to use
    pub model: Option<String>,
    /// Provider API base URL
    pub provider_url: Option<String>,
    /// Tokenizer mode (heuristic or full)
    pub tokenizer_mode: Option<TokenizerMode>,
    /// Timeout for LLM requests in seconds
    pub timeout_secs: Option<u64>,
    /// Custom prompts configuration
    pub prompts: Option<PromptsConfig>,
}

impl Default for ConfigFile {
    fn default() -> (r: Self)
        ensures
            r.provider is None,
            r.model is None,
            r.provider_url is None,
            r.tokenizer_mode is None,
            r.timeout_secs is None,
            r.prompts is None,
    {
        ConfigFile { provider: None, model: None, provider_url: None, tokenizer_mode: None, timeout_secs: None, prompts: None }
    }
}

/// Environment variables that configuration reads; `None` where unset.
#[derive(Debug)]
pub struct ConfigEnv {
    /// `URSIX_PROVIDER`
    pub provider: Option<String>,
    /// `URSIX_MODEL`
    pub model: Option<String>,
    /// `URSIX_PROVIDER_URL`
    pub provider_url: Option<String>,
    /// `URSIX_API_KEY`
    pub api_key: Option<String>,
    /// `OPENAI_API_KEY`
    pub openai_api_key: Option<String>,
    /// `GOOGLE_API_KEY`
    pub google_api_key: Option<String>,
    /// `URSIX_TOKENIZER_MODE`
    pub tokenizer_mode: Option<String>,
    /// `URSIX_TIMEOUT`
    pub timeout: Option<String>,
}

/// The value a layer sets, else the one below it.
pub open spec fn or_else<T>(value: Option<T>, below: T) -> T {
    match value {
        Some(v) => v,
        None => below,
    }
}

/// A string a configuration file sets, if there is a file and it sets it.
pub open spec fn file_string(file: Option<&ConfigFile>, pick: spec_fn(ConfigFile) -> Option<String>) -> Option<Seq<char>> {
    match file {
        Some(f) => opt_view(pick(*f)),
        None => None,
    }
}

/// A prompt a configuration file sets, if there is a file and it sets it.
pub open spec fn file_prompt(file: Option<&ConfigFile>, pick: spec_fn(PromptsConfig) -> Option<String>) -> Option<Seq<char>> {
    match file {
        Some(f) => match f.prompts {
            Some(p) => opt_view(pick(p)),
            None => None,
        },
        None => None,
    }
}

/// The provider a configuration file sets.
pub open spec fn file_provider(file: Option<&ConfigFile>) -> Option<Provider> {
    match file {
        Some(f) => f.provider,
        None => None,
    }
}

/// The tokenizer mode a configuration file sets.
pub open spec fn file_tokenizer_mode(file: Option<&ConfigFile>) -> Option<TokenizerMode> {
    match file {
        Some(f) => f.tokenizer_mode,
        None => None,
    }
}

/// The timeout a configuration file sets.
pub open spec fn file_timeout(file: Option<&ConfigFile>) -> Option<u64> {
    match file {
        Some(f) => f.timeout_secs,
        None => None,
    }
}

/// The provider the environment sets: a name that parses.
pub open spec fn env_provider(env: &ConfigEnv) -> Option<Provider> {
    match env.provider {
        Some(p) => Provider::from_str_spec(p@),
        None => None,
    }
}

/// The tokenizer mode the environment sets: a name that parses.
pub open spec fn env_tokenizer_mode(env: &ConfigEnv) -> Option<TokenizerMode> {
    match env.tokenizer_mode {
        Some(m) => TokenizerMode::from_str_spec(m@),
        None => None,
    }
}

/// The timeout the environment sets: a number that parses.
pub open spec fn env_timeout(env: &ConfigEnv) -> Option<u64> {
    match env.timeout {
        Some(t) => parse_u64_spec(t@),
        None => None,
    }
}

/// Runtime configuration.
#[derive(Debug)]
pub struct Config {
    /// LLM provider to use
    pub provider: Provider,
    /// Model identifier
    pub model: String,
    /// Provider API base URL (overrides default for selected provider)
    pub provider_url: Option<String>,
    /// API key for authenticated providers
    pub api_key: Option<String>,
    /// Working directory for file operations
    pub working_dir: String,
    /// Tokenizer mode for token counting
    pub tokenizer_mode: TokenizerMode,
    /// Retry configuration for transient failures
    pub retry_config: RetryConfig,
    /// Timeout for LLM requests in seconds (default: 60)
    pub timeout_secs: u64,
    /// Custom prompts configuration
    pub prompts: PromptsConfig,
}

/// Value of a decimal digit character, if it is one.
pub open spec fn digit_value(c: char) -> Option<nat> {
    if '0' <= c && c <= '9' { Some((c as u32 - '0' as u32) as nat) } else { None }
}

/// Value of a run of decimal digits.
pub open spec fn digits_value(s: Seq<char>) -> nat
    decreases s.len(),
{
    if s.len() == 0 {
        0
    } else {
        digits_value(s.drop_last()) * 10 + match digit_value(s.last()) {
            Some(d) => d,
            None => 0,
        }
    }
}

/// All characters are decimal digits.
pub open spec fn all_digits(s: Seq<char>) -> bool {
    forall|i: int| 0 <= i < s.len() ==> digit_value(#[trigger] s[i]) is Some
}

/// What `str::parse::<u64>` yields: an optional `+`, then one or more digits,
/// and a value that fits.
pub open spec fn parse_u64_spec(s: Seq<char>) -> Option<u64> {
    let body = if s.len() > 0 && s[0] == '+' { s.drop_first() } else { s };
    if body.len() > 0 && all_digits(body) && digits_value(body) <= u64::MAX {
        Some(digits_value(body) as u64)
    } else {
        None
    }
}

/// Parses an unsigned 64-bit decimal number as `str::parse::<u64>` does.
pub fn parse_u64(s: &str) -> (r: Option<u64>)
    ensures
        r == parse_u64_spec(s@),
{
    let v = crate::text::chars_of(s);
    let start: usize = if v.len() > 0 && v[0] == '+' { 1 } else { 0 };
    let ghost body = if v@.len() > 0 && v@[0] == '+' { v@.drop_first() } else { v@ };
    assert(body =~= v@.skip(start as int));
    if start >= v.len() {
        return None;
    }
    let mut acc: u64 = 0;
    let mut i = start;
    while i < v.len()
        invariant
            start <= i <= v@.len(),
            v@ == s@,
            start == 0 || (start == 1 && v@[0] == '+'),
            start == 0 ==> !(v@.len() > 0 && v@[0] == '+'),
            body == v@.skip(start as int),
            body == (if v@.len() > 0 && v@[0] == '+' { v@.drop_first() } else { v@ }),
            all_digits(v@.subrange(start as int, i as int)),
            acc == digits_value(v@.subrange(start as int, i as int)),
        decreases v@.len() - i,
    {
        let c = v[i];
        if !('0' <= c && c <= '9') {
            proof {
                assert(body[i - start] == c);
                assert(digit_value(body[i - start]) is None);
            }
            return None;
        }
        let d = (c as u32 - '0' as u32) as u64;
        proof {
            assert(v@.subrange(start as int, i + 1).drop_last() =~= v@.subrange(start as int, i as int));
            assert(v@.subrange(start as int, i + 1).last() == c);
        }
        if acc > (u64::MAX - d) / 10 {
            proof {
                lemma_digits_value_prefix_bound(body, i - start + 1);
                assert(body.take(i - start + 1) =~= v@.subrange(start as int, i + 1));
                assert(digits_value(v@.subrange(start as int, i + 1)) == acc * 10 + d);
                assert(acc * 10 + d > u64::MAX) by (nonlinear_arith)
                    requires
                        acc > (u64::MAX - d) / 10,
                        d <= 9,
                ;
            }
            return None;
        }
        acc = acc * 10 + d;
        proof {
            assert forall|j: int| 0 <= j < v@.subrange(start as int, i + 1).len() implies digit_value(
                #[trigger] v@.subrange(start as int, i + 1)[j],
            ) is Some by {
                if j < i - start {
                    assert(v@.subrange(start as int, i + 1)[j] == v@.subrange(start as int, i as int)[j]);
                }
            }
        }
        i += 1;
    }
    assert(v@.subrange(start as int, v@.len() as int) =~= body);
    Some(acc)
}

/// Digit runs only grow when extended, so a prefix too big means the whole is.
proof fn lemma_digits_value_prefix_bound(s: Seq<char>, k: int)
    requires
        0 <= k <= s.len(),
    ensures
        digits_value(s.take(k)) <= digits_value(s) || !all_digits(s),
    decreases s.len() - k,
{
    if k < s.len() && all_digits(s) {
        lemma_digits_value_prefix_bound(s, k + 1);
        assert(s.take(k + 1).drop_last() =~= s.take(k));
        assert(digit_value(s[k]) is Some);
    } else if k == s.len() {
        assert(s.take(k) =~= s);
    }
}

impl Default for Config {
    /// The default configuration, with `.` as the working directory (the
    /// program sets the process's current directory in its place).
    fn default() -> (r: Self)
        ensures
            r.provider == Provider::Ollama,
            r.model@ == DEFAULT_MODEL@,
            r.provider_url is None,
            r.api_key is None,
            r.working_dir@ == "."@,
            r.tokenizer_mode == TokenizerMode::Heuristic,
            r.timeout_secs == DEFAULT_TIMEOUT_SECS,
            r.retry_config == RetryConfig::default_spec(),
    {
        Config::with_working_dir(to_owned_string("."))
    }
}

impl Config {
    /// The default configuration for a working directory.
    pub fn with_working_dir(working_dir: String) -> (r: Self)
        ensures
            r.provider == Provider::Ollama,
            r.model@ == DEFAULT_MODEL@,
            r.provider_url is None,
            r.api_key is None,
            r.working_dir@ == working_dir@,
            r.tokenizer_mode == TokenizerMode::Heuristic,
            r.timeout_secs == DEFAULT_TIMEOUT_SECS,
            r.retry_config == RetryConfig::default_spec(),
            r.prompts.review is None,
            r.prompts.commit_msg is None,
            r.prompts.explanation is None,
            r.prompts.summary is None,
            r.prompts.fix is None,
    {
        Config {
            provider: Provider::default(),
            model: DEFAULT_MODEL.to_string(),
            provider_url: None,
            api_key: None,
            working_dir,
            tokenizer_mode: TokenizerMode::default(),
            retry_config: RetryConfig::default(),
            timeout_secs: DEFAULT_TIMEOUT_SECS,
            prompts: PromptsConfig::default(),
        }
    }

    /// Merge values from a config file: each value the file sets replaces
    /// the current one, and its prompts are merged in.
    pub fn merge_file(&mut self, file: &ConfigFile)
        ensures
            final(self).provider == (match file.provider { Some(p) => p, None => old(self).provider }),
            final(self).model@ == (match file.model { Some(m) => m@, None => old(self).model@ }),
            opt_view(final(self).provider_url) == override_opt(opt_view(old(self).provider_url), opt_view(file.provider_url)),
            final(self).tokenizer_mode == (match file.tokenizer_mode { Some(m) => m, None => old(self).tokenizer_mode }),
            final(self).timeout_secs == (match file.timeout_secs { Some(t) => t, None => old(self).timeout_secs }),
            opt_view(final(self).api_key) == opt_view(old(self).api_key),
            final(self).working_dir@ == old(self).working_dir@,
            final(self).retry_config == old(self).retry_config,
            file.prompts is None ==> final(self).prompts == old(self).prompts,
            file.prompts matches Some(p) ==> {
                &&& opt_view(final(self).prompts.review) == override_opt(opt_view(old(self).prompts.review), opt_view(p.review))
                &&& opt_view(final(self).prompts.commit_msg) == override_opt(opt_view(old(self).prompts.commit_msg), opt_view(p.commit_msg))
                &&& opt_view(final(self).prompts.explanation) == override_opt(opt_view(old(self).prompts.explanation), opt_view(p.explanation))
                &&& opt_view(final(self).prompts.summary) == override_opt(opt_view(old(self).prompts.summary), opt_view(p.summary))
                &&& opt_view(final(self).prompts.fix) == override_opt(opt_view(old(self).prompts.fix), opt_view(p.fix))
            },
    {
        if let Some(provider) = file.provider {
            self.provider = provider;
        }
        if let Some(model) = &file.model {
            self.model = model.clone();
        }
        if let Some(url) = &file.provider_url {
            self.provider_url = Some(url.clone());
        }
        if let Some(mode) = file.tokenizer_mode {
            self.tokenizer_mode = mode;
        }
        if let Some(timeout) = file.timeout_secs {
            self.timeout_secs = timeout;
        }
        if let Some(prompts) = &file.prompts {
            self.prompts.merge(prompts);
        }
    }

    /// Apply environment variable overrides: a provider, tokenizer mode or
    /// timeout that parses replaces the current one; a model or URL replaces
    /// it; the API key comes from `URSIX_API_KEY`, else `OPENAI_API_KEY`, else
    /// `GOOGLE_API_KEY`.
    pub fn apply_env(&mut self, env: &ConfigEnv)
        ensures
            final(self).provider == (match env.provider {
                Some(p) => match Provider::from_str_spec(p@) { Some(v) => v, None => old(self).provider },
                None => old(self).provider,
            }),
            final(self).model@ == (match env.model { Some(m) => m@, None => old(self).model@ }),
            opt_view(final(self).provider_url) == override_opt(opt_view(old(self).provider_url), opt_view(env.provider_url)),
            opt_view(final(self).api_key) == override_opt(
                override_opt(override_opt(opt_view(old(self).api_key), opt_view(env.google_api_key)), opt_view(env.openai_api_key)),
                opt_view(env.api_key),
            ),
            final(self).tokenizer_mode == (match env.tokenizer_mode {
                Some(m) => match TokenizerMode::from_str_spec(m@) { Some(v) => v, None => old(self).tokenizer_mode },
                None => old(self).tokenizer_mode,
            }),
            final(self).timeout_secs == (match env.timeout {
                Some(t) => match parse_u64_spec(t@) { Some(v) => v, None => old(self).timeout_secs },
                None => old(self).timeout_secs,
            }),
            final(self).working_dir@ == old(self).working_dir@,
            final(self).retry_config == old(self).retry_config,
            final(self).prompts == old(self).prompts,
    {
        if let Some(provider) = &env.provider {
            if let Ok(p) = Provider::from_str(provider.as_str()) {
                self.provider = p;
            }
        }
        if let Some(model) = &env.model {
            self.model = model.clone();
        }
        if let Some(url) = &env.provider_url {
            self.provider_url = Some(url.clone());
        }
        if let Some(key) = &env.api_key {
            self.api_key = Some(key.clone());
        } else if let Some(key) = &env.openai_api_key {
            self.api_key = Some(key.clone());
        } else if let Some(key) = &env.google_api_key {
            self.api_key = Some(key.clone());
        }
        if let Some(mode) = &env.tokenizer_mode {
            if let Ok(m) = TokenizerMode::from_str(mode.as_str()) {
                self.tokenizer_mode = m;
            }
        }
        if let Some(timeout) = &env.timeout {
            if let Some(t) = parse_u64(timeout.as_str()) {
                self.timeout_secs = t;
            }
        }
    }

    /// The configuration of a run: the defaults for the working directory,
    /// then the global file, the project file and the environment, each
    /// layer overriding what it sets in the layers before it.
    pub fn from_layers(working_dir: String, global: Option<&ConfigFile>, project: Option<&ConfigFile>, env: &ConfigEnv) -> (r: Self)
        ensures
            r.provider == or_else(env_provider(env), or_else(file_provider(project), or_else(file_provider(global), Provider::Ollama))),
            r.model@ == or_else(opt_view(env.model), or_else(file_string(project, |f: ConfigFile| f.model),
                or_else(file_string(global, |f: ConfigFile| f.model), DEFAULT_MODEL@))),
            opt_view(r.provider_url) == override_opt(override_opt(file_string(global, |f: ConfigFile| f.provider_url),
                file_string(project, |f: ConfigFile| f.provider_url)), opt_view(env.provider_url)),
            opt_view(r.api_key) == override_opt(override_opt(opt_view(env.google_api_key), opt_view(env.openai_api_key)),
                opt_view(env.api_key)),
            r.tokenizer_mode == or_else(env_tokenizer_mode(env), or_else(file_tokenizer_mode(project),
                or_else(file_tokenizer_mode(global), TokenizerMode::Heuristic))),
            r.timeout_secs == or_else(env_timeout(env), or_else(file_timeout(project), or_else(file_timeout(global), DEFAULT_TIMEOUT_SECS))),
            r.working_dir@ == working_dir@,
            r.retry_config == RetryConfig::default_spec(),
            opt_view(r.prompts.review) == override_opt(file_prompt(global, |p: PromptsConfig| p.review),
                file_prompt(project, |p: PromptsConfig| p.review)),
            opt_view(r.prompts.commit_msg) == override_opt(file_prompt(global, |p: PromptsConfig| p.commit_msg),
                file_prompt(project, |p: PromptsConfig| p.commit_msg)),
            opt_view(r.prompts.explanation) == override_opt(file_prompt(global, |p: PromptsConfig| p.explanation),
                file_prompt(project, |p: PromptsConfig| p.explanation)),
            opt_view(r.prompts.summary) == override_opt(file_prompt(global, |p: PromptsConfig| p.summary),
                file_prompt(project, |p: PromptsConfig| p.summary)),
            opt_view(r.prompts.fix) == override_opt(file_prompt(global, |p: PromptsConfig| p.fix),
                file_prompt(project, |p: PromptsConfig| p.fix)),
    {
        let mut config = Config::with_working_dir(working_dir);
        match global {
            Some(g) => config.merge_file(g),
            None => {},
        }
        match project {
            Some(p) => config.merge_file(p),
            None => {},
        }
        config.apply_env(env);
        config
    }

    /// The URL of the provider in effect.
    pub open spec fn provider_url_spec(self) -> Seq<char> {
        match self.provider_url {
            Some(u) => u@,
            None => match self.provider {
                Provider::Ollama => DEFAULT_OLLAMA_URL@,
                Provider::OpenAi => DEFAULT_OPENAI_URL@,
                Provider::Gemini => DEFAULT_GEMINI_URL@,
            },
        }
    }

    /// The provider URL in effect: the override if set, else the default URL
    /// of the selected provider.
    pub fn effective_provider_url(&self) -> (r: &str)
        ensures
            r@ == self.provider_url_spec(),
    {
        match &self.provider_url {
            Some(u) => u.as_str(),
            None => match self.provider {
                Provider::Ollama => DEFAULT_OLLAMA_URL,
                Provider::OpenAi => DEFAULT_OPENAI_URL,
                Provider::Gemini => DEFAULT_GEMINI_URL,
            },
        }
    }
}

impl Provider {
    /// The provider a name parses to, ignoring case.
    pub open spec fn from_str_spec(s: Seq<char>) -> Option<Provider> {
        if lowercase(s) == "ollama"@ {
            Some(Provider::Ollama)
        } else if lowercase(s) == "openai"@ {
            Some(Provider::OpenAi)
        } else if lowercase(s) == "gemini"@ {
            Some(Provider::Gemini)
        } else {
            None
        }
    }
}

impl TokenizerMode {
    /// The mode a name parses to, ignoring case.
    pub open spec fn from_str_spec(s: Seq<char>) -> Option<TokenizerMode> {
        if lowercase(s) == "heuristic"@ {
            Some(TokenizerMode::Heuristic)
        } else if lowercase(s) == "full"@ {
            Some(TokenizerMode::Full)
        } else {
            None
        }
    }
}

} // verus!
