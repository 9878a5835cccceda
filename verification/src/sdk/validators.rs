//! Validation of the text that plugins put into actions and dropdown rows.

use vstd::prelude::*;

use crate::sdk::types::{PluginDropdownItem, PluginTypedRowAction};
use crate::text::{blank, has_prefix, is_blank, starts_with, trim, trimmed};

verus! {

/// Why a label, action or row was refused.
#[derive(Debug, Clone, Copy, PartialEq, Eq, Structural)]
pub enum ValidationError {
    EmptyLabel,
    EmptyCommand,
    EmptyText,
    EmptyPayload,
    InvalidUrlScheme,
}

impl ValidationError {
    /// The human-readable description (what `Display` prints).
    pub fn to_message(&self) -> (r: String)
        ensures
            r@ == validation_message(*self),
    {
        match self {
            ValidationError::EmptyLabel => String::from_str("label must not be empty"),
            ValidationError::EmptyCommand => String::from_str("command must not be empty"),
            ValidationError::EmptyText => String::from_str("text must not be empty"),
            ValidationError::EmptyPayload => String::from_str("custom payload must not be empty"),
            ValidationError::InvalidUrlScheme => String::from_str(
                "url must start with http:// or https://",
            ),
        }
    }
}

/// The description of each validation error.
pub open spec fn validation_message(e: ValidationError) -> Seq<char> {
    match e {
        ValidationError::EmptyLabel => "label must not be empty"@,
        ValidationError::EmptyCommand => "command must not be empty"@,
        ValidationError::EmptyText => "text must not be empty"@,
        ValidationError::EmptyPayload => "custom payload must not be empty"@,
        ValidationError::InvalidUrlScheme => "url must start with http:// or https://"@,
    }
}

/// Refuses text that is empty or only whitespace with `error`.
pub open spec fn non_blank(s: Seq<char>, error: ValidationError) -> Result<(), ValidationError> {
    if is_blank(s) {
        Err(error)
    } else {
        Ok(())
    }
}

/// A URL is accepted when, after trimming, it starts with `http://` or
/// `https://`.
pub open spec fn url_verdict(url: Seq<char>) -> Result<(), ValidationError> {
    let t = trimmed(url);
    if has_prefix(t, "http://"@) || has_prefix(t, "https://"@) {
        Ok(())
    } else {
        Err(ValidationError::InvalidUrlScheme)
    }
}

/// The verdict on a typed row action: each kind checks its own text.
pub open spec fn typed_action_verdict(action: PluginTypedRowAction) -> Result<(), ValidationError> {
    match action {
        PluginTypedRowAction::RunCommand { command } => non_blank(
            command@,
            ValidationError::EmptyCommand,
        ),
        PluginTypedRowAction::OpenUrl { url } => url_verdict(url@),
        PluginTypedRowAction::CopyText { text } => non_blank(text@, ValidationError::EmptyText),
        PluginTypedRowAction::Custom { payload } => non_blank(
            payload@,
            ValidationError::EmptyPayload,
        ),
        PluginTypedRowAction::RefreshNow => Ok(()),
    }
}

/// A row is a separator: blank label, no description, no action.
pub open spec fn is_separator_item(item: PluginDropdownItem) -> bool {
    is_blank(item.label@) && item.description is None && item.action is None
}

/// Rows need a label unless they are separators.
pub open spec fn item_verdict(item: PluginDropdownItem) -> Result<(), ValidationError> {
    if is_blank(item.label@) && !is_separator_item(item) {
        Err(ValidationError::EmptyLabel)
    } else {
        Ok(())
    }
}

/// Refuses a blank bar label.
pub fn validate_label(label: &str) -> (r: Result<(), ValidationError>)
    ensures
        r == non_blank(label@, ValidationError::EmptyLabel),
{
    if blank(label) {
        return Err(ValidationError::EmptyLabel);
    }
    Ok(())
}

/// Refuses a blank command.
pub fn validate_command(command: &str) -> (r: Result<(), ValidationError>)
    ensures
        r == non_blank(command@, ValidationError::EmptyCommand),
{
    if blank(command) {
        return Err(ValidationError::EmptyCommand);
    }
    Ok(())
}

/// Refuses blank clipboard text.
pub fn validate_copy_text(text: &str) -> (r: Result<(), ValidationError>)
    ensures
        r == non_blank(text@, ValidationError::EmptyText),
{
    if blank(text) {
        return Err(ValidationError::EmptyText);
    }
    Ok(())
}

/// Refuses a blank custom payload.
pub fn validate_custom_payload(payload: &str) -> (r: Result<(), ValidationError>)
    ensures
        r == non_blank(payload@, ValidationError::EmptyPayload),
{
    if blank(payload) {
        return Err(ValidationError::EmptyPayload);
    }
    Ok(())
}

/// Accepts only `http://` and `https://` URLs (after trimming).
pub fn validate_url(url: &str) -> (r: Result<(), ValidationError>)
    ensures
        r == url_verdict(url@),
{
    let trimmed_url = trim(url);
    if starts_with(trimmed_url, "http://") || starts_with(trimmed_url, "https://") {
        return Ok(());
    }
    Err(ValidationError::InvalidUrlScheme)
}

/// Checks the text that a typed action carries.
pub fn validate_typed_action(action: &PluginTypedRowAction) -> (r: Result<(), ValidationError>)
    ensures
        r == typed_action_verdict(*action),
{
    match action {
        PluginTypedRowAction::RunCommand { command } => validate_command(command.as_str()),
        PluginTypedRowAction::OpenUrl { url } => validate_url(url.as_str()),
        PluginTypedRowAction::CopyText { text } => validate_copy_text(text.as_str()),
        PluginTypedRowAction::Custom { payload } => validate_custom_payload(payload.as_str()),
        PluginTypedRowAction::RefreshNow => Ok(()),
    }
}

/// Checks a dropdown row: a blank label is only allowed on a separator.
pub fn validate_dropdown_item(item: &PluginDropdownItem) -> (r: Result<(), ValidationError>)
    ensures
        r == item_verdict(*item),
{
    let label_empty = blank(item.label.as_str());
    if label_empty && item.description.is_none() && item.action.is_none() {
        return Ok(());
    }
    if label_empty {
        return Err(ValidationError::EmptyLabel);
    }
    Ok(())
}

} // verus!
