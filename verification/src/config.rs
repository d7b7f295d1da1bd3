//! The overrides that a caller may send with a prompt, and their clean-up:
//! values are trimmed, empty values count as absent, and an approval mode
//! outside the known set is dropped.

use vstd::prelude::*;
use crate::text::{
    is_white_space, lemma_trimmed_is_clean, opt_view, same_string, same_text, trim_str, trimmed,
};

verus! {

/// Credentials and model selection for an OpenAI-compatible endpoint.
#[derive(Debug, Default)]
pub struct OpenAiConfig {
    pub openai_api_key: Option<String>,
    pub openai_base_url: Option<String>,
    pub openai_model: Option<String>,
}

/// The overrides that decide whether two rounds belong to one conversation.
#[derive(Debug, Default, PartialEq, Eq)]
pub struct HeadlessConfig {
    pub working_directory: Option<String>,
    pub approval_mode: Option<String>,
}

/// The mathematical value of an [`OpenAiConfig`].
pub ghost struct OpenAiConfigView {
    pub openai_api_key: Option<Seq<char>>,
    pub openai_base_url: Option<Seq<char>>,
    pub openai_model: Option<Seq<char>>,
}

/// The mathematical value of a [`HeadlessConfig`].
pub ghost struct HeadlessConfigView {
    pub working_directory: Option<Seq<char>>,
    pub approval_mode: Option<Seq<char>>,
}

impl View for OpenAiConfig {
    type V = OpenAiConfigView;

    open spec fn view(&self) -> OpenAiConfigView {
        OpenAiConfigView {
            openai_api_key: opt_view(self.openai_api_key),
            openai_base_url: opt_view(self.openai_base_url),
            openai_model: opt_view(self.openai_model),
        }
    }
}

impl View for HeadlessConfig {
    type V = HeadlessConfigView;

    open spec fn view(&self) -> HeadlessConfigView {
        HeadlessConfigView {
            working_directory: opt_view(self.working_directory),
            approval_mode: opt_view(self.approval_mode),
        }
    }
}

impl OpenAiConfigView {
    /// No field is set.
    pub open spec fn is_empty(self) -> bool {
        self.openai_api_key is None && self.openai_base_url is None && self.openai_model is None
    }
}

impl HeadlessConfigView {
    /// No field is set.
    pub open spec fn is_empty(self) -> bool {
        self.working_directory is None && self.approval_mode is None
    }
}

/// The view of an optional [`OpenAiConfig`].
pub open spec fn opt_openai_view(o: Option<OpenAiConfig>) -> Option<OpenAiConfigView> {
    match o {
        Some(c) => Some(c@),
        None => None,
    }
}

/// The view of an optional [`HeadlessConfig`].
pub open spec fn opt_headless_view(o: Option<HeadlessConfig>) -> Option<HeadlessConfigView> {
    match o {
        Some(c) => Some(c@),
        None => None,
    }
}

/// A value after clean-up: trimmed, and absent where nothing is left.
pub open spec fn sanitized_value(value: Option<Seq<char>>) -> Option<Seq<char>> {
    match value {
        Some(raw) => if trimmed(raw).len() == 0 {
            None
        } else {
            Some(trimmed(raw))
        },
        None => None,
    }
}

/// Whether `mode` is one of the approval modes that the assistant knows.
pub open spec fn is_approval_mode(mode: Seq<char>) -> bool {
    mode == "default"@ || mode == "auto-edit"@ || mode == "yolo"@ || mode == "plan"@
}

/// An approval mode after clean-up: trimmed, and absent unless it is known.
pub open spec fn sanitized_approval_mode(mode: Option<Seq<char>>) -> Option<Seq<char>> {
    match sanitized_value(mode) {
        Some(clean) => if is_approval_mode(clean) {
            Some(clean)
        } else {
            None
        },
        None => None,
    }
}

/// The session overrides after clean-up; absent where no field is left.
pub open spec fn sanitized_headless(config: Option<HeadlessConfigView>) -> Option<
    HeadlessConfigView,
> {
    match config {
        Some(raw) => {
            let clean = HeadlessConfigView {
                working_directory: sanitized_value(raw.working_directory),
                approval_mode: sanitized_approval_mode(raw.approval_mode),
            };
            if clean.is_empty() {
                None
            } else {
                Some(clean)
            }
        },
        None => None,
    }
}

/// The endpoint overrides after clean-up; absent where no field is left.
pub open spec fn sanitized_openai(config: Option<OpenAiConfigView>) -> Option<OpenAiConfigView> {
    match config {
        Some(raw) => {
            let clean = OpenAiConfigView {
                openai_api_key: sanitized_value(raw.openai_api_key),
                openai_base_url: sanitized_value(raw.openai_base_url),
                openai_model: sanitized_value(raw.openai_model),
            };
            if clean.is_empty() {
                None
            } else {
                Some(clean)
            }
        },
        None => None,
    }
}

/// A value that clean-up leaves is not empty and neither begins nor ends with
/// white space, and cleaning it again changes nothing.
pub proof fn lemma_sanitized_value_is_clean(value: Option<Seq<char>>)
    ensures
        sanitized_value(value) matches Some(clean) ==> clean.len() > 0 && !is_white_space(
            clean[0],
        ) && !is_white_space(clean.last()),
        sanitized_value(sanitized_value(value)) == sanitized_value(value),
{
    if let Some(raw) = value {
        lemma_trimmed_is_clean(raw);
    }
}

/// An approval mode that clean-up leaves is one of the known modes, and
/// cleaning it again changes nothing.
pub proof fn lemma_sanitized_approval_mode_is_known(mode: Option<Seq<char>>)
    ensures
        sanitized_approval_mode(mode) matches Some(clean) ==> is_approval_mode(clean),
        sanitized_approval_mode(sanitized_approval_mode(mode)) == sanitized_approval_mode(mode),
{
    lemma_sanitized_value_is_clean(mode);
}

/// Session overrides that clean-up leaves have a field set, and cleaning
/// them again changes nothing: a round that is sent again asks for the same
/// overrides.
pub proof fn lemma_sanitized_headless_is_stable(config: Option<HeadlessConfigView>)
    ensures
        sanitized_headless(config) matches Some(clean) ==> !clean.is_empty(),
        sanitized_headless(sanitized_headless(config)) == sanitized_headless(config),
{
    if let Some(raw) = config {
        lemma_sanitized_value_is_clean(raw.working_directory);
        lemma_sanitized_approval_mode_is_known(raw.approval_mode);
    }
}

/// Endpoint overrides that clean-up leaves have a field set, and cleaning
/// them again changes nothing.
pub proof fn lemma_sanitized_openai_is_stable(config: Option<OpenAiConfigView>)
    ensures
        sanitized_openai(config) matches Some(clean) ==> !clean.is_empty(),
        sanitized_openai(sanitized_openai(config)) == sanitized_openai(config),
{
    if let Some(raw) = config {
        lemma_sanitized_value_is_clean(raw.openai_api_key);
        lemma_sanitized_value_is_clean(raw.openai_base_url);
        lemma_sanitized_value_is_clean(raw.openai_model);
    }
}

impl OpenAiConfig {
    /// Whether no field is set.
    pub fn is_empty(&self) -> (r: bool)
        ensures
            r == self@.is_empty(),
    {
        self.openai_api_key.is_none() && self.openai_base_url.is_none()
            && self.openai_model.is_none()
    }

    /// A copy with the same fields.
    pub fn duplicate(&self) -> (r: OpenAiConfig)
        ensures
            r@ == self@,
    {
        OpenAiConfig {
            openai_api_key: clone_opt_text(&self.openai_api_key),
            openai_base_url: clone_opt_text(&self.openai_base_url),
            openai_model: clone_opt_text(&self.openai_model),
        }
    }
}

impl HeadlessConfig {
    /// Whether no field is set.
    pub fn is_empty(&self) -> (r: bool)
        ensures
            r == self@.is_empty(),
    {
        self.working_directory.is_none() && self.approval_mode.is_none()
    }

    /// A copy with the same fields.
    pub fn duplicate(&self) -> (r: HeadlessConfig)
        ensures
            r@ == self@,
    {
        HeadlessConfig {
            working_directory: clone_opt_text(&self.working_directory),
            approval_mode: clone_opt_text(&self.approval_mode),
        }
    }

    /// Whether two sets of overrides agree in every field.
    pub fn same_as(&self, other: &HeadlessConfig) -> (r: bool)
        ensures
            r == (self@ == other@),
    {
        same_opt_text(&self.working_directory, &other.working_directory) && same_opt_text(
            &self.approval_mode,
            &other.approval_mode,
        )
    }
}

impl Clone for OpenAiConfig {
    fn clone(&self) -> (r: OpenAiConfig)
        ensures
            r@ == self@,
    {
        self.duplicate()
    }
}

impl Clone for HeadlessConfig {
    fn clone(&self) -> (r: HeadlessConfig)
        ensures
            r@ == self@,
    {
        self.duplicate()
    }
}

/// A copy of an optional string.
pub fn clone_opt_text(value: &Option<String>) -> (r: Option<String>)
    ensures
        opt_view(r) == opt_view(*value),
{
    match value {
        Some(s) => Some(s.clone()),
        None => None,
    }
}

/// Whether two optional strings are both absent or hold the same text.
pub fn same_opt_text(a: &Option<String>, b: &Option<String>) -> (r: bool)
    ensures
        r == (opt_view(*a) == opt_view(*b)),
{
    match (a, b) {
        (Some(x), Some(y)) => same_string(x, y),
        (None, None) => true,
        _ => false,
    }
}

/// A copy of optional overrides.
pub fn clone_opt_headless(config: &Option<HeadlessConfig>) -> (r: Option<HeadlessConfig>)
    ensures
        opt_headless_view(r) == opt_headless_view(*config),
{
    match config {
        Some(c) => Some(c.duplicate()),
        None => None,
    }
}

/// A copy of optional endpoint overrides.
pub fn clone_opt_openai(config: &Option<OpenAiConfig>) -> (r: Option<OpenAiConfig>)
    ensures
        opt_openai_view(r) == opt_openai_view(*config),
{
    match config {
        Some(c) => Some(c.duplicate()),
        None => None,
    }
}

/// Whether two optional sets of session overrides are both absent or agree in
/// every field.
pub fn same_opt_headless(a: &Option<HeadlessConfig>, b: &Option<HeadlessConfig>) -> (r: bool)
    ensures
        r == (opt_headless_view(*a) == opt_headless_view(*b)),
{
    match (a, b) {
        (Some(x), Some(y)) => x.same_as(y),
        (None, None) => true,
        _ => false,
    }
}

/// Trims `value`; an absent value, or one with nothing but white space, gives
/// `None`.
pub fn sanitize_optional_env_value(value: Option<String>) -> (r: Option<String>)
    ensures
        opt_view(r) == sanitized_value(opt_view(value)),
{
    match value {
        Some(raw) => {
            let clean = trim_str(raw.as_str());
            if clean.is_empty() {
                None
            } else {
                Some(clean.to_owned())
            }
        },
        None => None,
    }
}

/// Whether `mode` is one of `default`, `auto-edit`, `yolo` and `plan`.
pub fn is_known_approval_mode(mode: &str) -> (r: bool)
    ensures
        r == is_approval_mode(mode@),
{
    same_text(mode, "default") || same_text(mode, "auto-edit") || same_text(mode, "yolo")
        || same_text(mode, "plan")
}

/// Trims `mode` and keeps it only if it is a known approval mode.
pub fn sanitize_approval_mode(mode: Option<String>) -> (r: Option<String>)
    ensures
        opt_view(r) == sanitized_approval_mode(opt_view(mode)),
{
    match sanitize_optional_env_value(mode) {
        Some(clean) => {
            if is_known_approval_mode(clean.as_str()) {
                Some(clean)
            } else {
                None
            }
        },
        None => None,
    }
}

/// Cleans every field of the session overrides; gives `None` where none is
/// left.
pub fn sanitize_headless_config(config: Option<HeadlessConfig>) -> (r: Option<HeadlessConfig>)
    ensures
        opt_headless_view(r) == sanitized_headless(opt_headless_view(config)),
{
    match config {
        Some(raw) => {
            let clean = HeadlessConfig {
                working_directory: sanitize_optional_env_value(raw.working_directory),
                approval_mode: sanitize_approval_mode(raw.approval_mode),
            };
            if clean.is_empty() {
                None
            } else {
                Some(clean)
            }
        },
        None => None,
    }
}

/// Cleans every field of the endpoint overrides; gives `None` where none is
/// left.
pub fn sanitize_openai_config(config: Option<OpenAiConfig>) -> (r: Option<OpenAiConfig>)
    ensures
        opt_openai_view(r) == sanitized_openai(opt_openai_view(config)),
{
    match config {
        Some(raw) => {
            let clean = OpenAiConfig {
                openai_api_key: sanitize_optional_env_value(raw.openai_api_key),
                openai_base_url: sanitize_optional_env_value(raw.openai_base_url),
                openai_model: sanitize_optional_env_value(raw.openai_model),
            };
            if clean.is_empty() {
                None
            } else {
                Some(clean)
            }
        },
        None => None,
    }
}

} // verus!
