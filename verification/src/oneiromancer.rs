//! Configuration, analysis results and failures.

use vstd::prelude::*;
use vstd::string::*;

verus! {

/// Base URL used when none is configured: the loopback address on Ollama's port.
pub const OLLAMA_BASEURL: &'static str = "http://127.0.0.1:11434";

/// Model used when none is configured.
pub const OLLAMA_MODEL: &'static str = "aidapal";

/// `std::io::Error`, the reason why a file could not be read.
#[verifier::external_type_specification]
#[verifier::external_body]
pub struct ExIoError(std::io::Error);

/// `ureq::Error`, the reason why a request got no response.
#[verifier::external_type_specification]
#[verifier::external_body]
pub struct ExTransportError(ureq::Error);

/// Why an analysis failed. Each kind carries the error that caused it.
#[derive(Debug)]
pub enum OneiromancerError {
    /// The pseudocode could not be read.
    FileReadFailed(std::io::Error),
    /// No response was obtained from the endpoint.
    OllamaQueryFailed(ureq::Error),
    /// The response does not have the expected shape.
    ResponseParseFailed(serde_json::Error),
    /// A variable name could not be turned into a search pattern.
    PatternCompileFailed(regex::Error),
}

/// What a configuration holds, as plain text.
pub struct ConfigView {
    pub baseurl: Seq<char>,
    pub model: Seq<char>,
}

/// Where to send a query and which model to ask.
#[derive(Debug, Clone)]
pub struct OneiromancerConfig {
    baseurl: String,
    model: String,
}

impl View for OneiromancerConfig {
    type V = ConfigView;

    closed spec fn view(&self) -> ConfigView {
        ConfigView { baseurl: self.baseurl@, model: self.model@ }
    }
}

/// The text of an optional setting.
pub open spec fn setting_text(setting: Option<&str>) -> Option<Seq<char>> {
    match setting {
        Some(text) => Some(text@),
        None => None,
    }
}

/// The value that is in force for a setting: the one given explicitly; if
/// there is none, the one from the environment; if there is none either, the
/// built-in one.
pub open spec fn setting_in_force(
    explicit: Option<Seq<char>>,
    environment: Option<Seq<char>>,
    built_in: Seq<char>,
) -> Seq<char> {
    match explicit {
        Some(value) => value,
        None => match environment {
            Some(value) => value,
            None => built_in,
        },
    }
}

impl Default for OneiromancerConfig {
    /// The configuration with the built-in base URL and model.
    fn default() -> (config: Self)
        ensures
            config@.baseurl == OLLAMA_BASEURL@,
            config@.model == OLLAMA_MODEL@,
    {
        OneiromancerConfig::new()
    }
}

impl OneiromancerConfig {
    /// A configuration with the built-in base URL and model.
    #[must_use]
    pub fn new() -> (config: Self)
        ensures
            config@.baseurl == OLLAMA_BASEURL@,
            config@.model == OLLAMA_MODEL@,
    {
        OneiromancerConfig {
            baseurl: String::from_str(OLLAMA_BASEURL),
            model: String::from_str(OLLAMA_MODEL),
        }
    }

    /// The configured base URL.
    #[must_use]
    pub fn baseurl(&self) -> (baseurl: &str)
        ensures
            baseurl@ == self@.baseurl,
    {
        self.baseurl.as_str()
    }

    /// The configured model name.
    #[must_use]
    pub fn model(&self) -> (model: &str)
        ensures
            model@ == self@.model,
    {
        self.model.as_str()
    }

    /// The same configuration with `baseurl` in place of its base URL.
    #[must_use]
    pub fn with_baseurl(self, baseurl: &str) -> (config: Self)
        ensures
            config@.baseurl == baseurl@,
            config@.model == self@.model,
    {
        OneiromancerConfig { baseurl: String::from_str(baseurl), model: self.model }
    }

    /// The configuration that the environment asks for: `baseurl` and `model`
    /// are what the environment holds for the two settings, and each one that
    /// is absent falls back to its built-in value.
    #[must_use]
    pub fn from_environment(baseurl: Option<&str>, model: Option<&str>) -> (config: Self)
        ensures
            config@.baseurl == setting_in_force(None, setting_text(baseurl), OLLAMA_BASEURL@),
            config@.model == setting_in_force(None, setting_text(model), OLLAMA_MODEL@),
    {
        let config = OneiromancerConfig::new();
        let config = match baseurl {
            Some(baseurl) => config.with_baseurl(baseurl),
            None => config,
        };
        match model {
            Some(model) => config.with_model(model),
            None => config,
        }
    }

    /// The configuration in force, each setting on its own: an explicit value
    /// wins over the environment's, which wins over the built-in one.
    #[must_use]
    pub fn resolve(
        explicit_baseurl: Option<&str>,
        environment_baseurl: Option<&str>,
        explicit_model: Option<&str>,
        environment_model: Option<&str>,
    ) -> (config: Self)
        ensures
            config@.baseurl == setting_in_force(
                setting_text(explicit_baseurl),
                setting_text(environment_baseurl),
                OLLAMA_BASEURL@,
            ),
            config@.model == setting_in_force(
                setting_text(explicit_model),
                setting_text(environment_model),
                OLLAMA_MODEL@,
            ),
    {
        let config = OneiromancerConfig::from_environment(environment_baseurl, environment_model);
        let config = match explicit_baseurl {
            Some(baseurl) => config.with_baseurl(baseurl),
            None => config,
        };
        match explicit_model {
            Some(model) => config.with_model(model),
            None => config,
        }
    }

    /// The same configuration with `model` in place of its model name.
    #[must_use]
    pub fn with_model(self, model: &str) -> (config: Self)
        ensures
            config@.baseurl == self@.baseurl,
            config@.model == model@,
    {
        OneiromancerConfig { baseurl: self.baseurl, model: String::from_str(model) }
    }
}

/// A rename proposed for one variable, as plain text.
pub struct VariableView {
    pub original_name: Seq<char>,
    pub new_name: Seq<char>,
}

/// A rename proposed for one variable.
#[derive(Debug, Clone)]
pub struct Variable {
    original_name: String,
    new_name: String,
}

impl View for Variable {
    type V = VariableView;

    closed spec fn view(&self) -> VariableView {
        VariableView { original_name: self.original_name@, new_name: self.new_name@ }
    }
}

impl Variable {
    /// The proposal to rename `original_name` to `new_name`.
    #[must_use]
    pub fn new(original_name: &str, new_name: &str) -> (variable: Self)
        ensures
            variable@.original_name == original_name@,
            variable@.new_name == new_name@,
    {
        Variable {
            original_name: String::from_str(original_name),
            new_name: String::from_str(new_name),
        }
    }

    /// The name the variable has in the pseudocode.
    #[must_use]
    pub fn original_name(&self) -> (name: &str)
        ensures
            name@ == self@.original_name,
    {
        self.original_name.as_str()
    }

    /// The name proposed for the variable.
    #[must_use]
    pub fn new_name(&self) -> (name: &str)
        ensures
            name@ == self@.new_name,
    {
        self.new_name.as_str()
    }
}

/// The views of a sequence of variables, in the same order.
pub open spec fn variable_views(variables: Seq<Variable>) -> Seq<VariableView> {
    variables.map_values(|variable: Variable| variable@)
}

/// The outcome of an analysis, as plain text.
pub struct ResultsView {
    pub function_name: Seq<char>,
    pub comment: Seq<char>,
    pub variables: Seq<VariableView>,
}

/// The outcome of an analysis: a name and a description for the function, and
/// renames for its variables, in the order in which they are to be applied.
#[derive(Debug, Clone)]
pub struct OneiromancerResults {
    function_name: String,
    comment: String,
    variables: Vec<Variable>,
}

impl View for OneiromancerResults {
    type V = ResultsView;

    closed spec fn view(&self) -> ResultsView {
        ResultsView {
            function_name: self.function_name@,
            comment: self.comment@,
            variables: variable_views(self.variables@),
        }
    }
}

impl OneiromancerResults {
    /// The results made of the given name, description and renames.
    #[must_use]
    pub fn new(function_name: &str, comment: &str, variables: Vec<Variable>) -> (results: Self)
        ensures
            results@.function_name == function_name@,
            results@.comment == comment@,
            results@.variables == variable_views(variables@),
    {
        OneiromancerResults {
            function_name: String::from_str(function_name),
            comment: String::from_str(comment),
            variables,
        }
    }

    /// The name recommended for the function.
    #[must_use]
    pub fn function_name(&self) -> (name: &str)
        ensures
            name@ == self@.function_name,
    {
        self.function_name.as_str()
    }

    /// The description of the function.
    #[must_use]
    pub fn comment(&self) -> (comment: &str)
        ensures
            comment@ == self@.comment,
    {
        self.comment.as_str()
    }

    /// The proposed renames, in application order.
    #[must_use]
    pub fn variables(&self) -> (variables: &[Variable])
        ensures
            variable_views(variables@) == self@.variables,
    {
        self.variables.as_slice()
    }
}

} // verus!
