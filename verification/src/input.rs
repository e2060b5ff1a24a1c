//! The input builder.
//!
//! An [`Input`] holds the configuration of one prompt.  Configuration is a
//! fluent chain: every setter consumes the builder and returns it with one
//! field set, performing no reading or writing.  All checking happens later,
//! at resolution.

use vstd::prelude::*;

use crate::validator::AcceptAny;

verus! {

/// The configuration of one prompt-resolution request.
///
/// `T` is the target value type; `P` is the type of the stored acceptance
/// test, [`AcceptAny`](crate::validator::AcceptAny) until one is stored.
#[derive(Debug)]
pub struct Input<T, P> {
    /// Display text shown before reading a line.
    pub prompt: Option<String>,
    /// Text placed before the display text when rendering.
    pub prefix: Option<String>,
    /// Text placed after the display text when rendering.
    pub suffix: Option<String>,
    /// Value returned verbatim when a read line is empty after trimming.
    pub default: Option<T>,
    /// Acceptance test applied to parsed values.
    pub validator: Option<P>,
    /// Message shown when a line fails to parse; a built-in fallback is
    /// shown when unset.
    pub type_message: Option<String>,
    /// Message shown when the acceptance test rejects a value; nothing is
    /// shown when unset.
    pub validator_message: Option<String>,
}

impl<T, P> Input<T, P> {
    /// Construct a new empty builder: nothing configured.
    pub fn new() -> (r: Self)
        ensures
            r.prompt is None,
            r.prefix is None,
            r.suffix is None,
            r.default is None,
            r.validator is None,
            r.type_message is None,
            r.validator_message is None,
    {
        Input {
            prompt: None,
            prefix: None,
            suffix: None,
            default: None,
            validator: None,
            type_message: None,
            validator_message: None,
        }
    }

    /// Set the display text shown before waiting for a line.
    pub fn prompt(self, text: String) -> (r: Self)
        ensures
            r.prompt == Some(text),
            r.prefix == self.prefix,
            r.suffix == self.suffix,
            r.default == self.default,
            r.validator == self.validator,
            r.type_message == self.type_message,
            r.validator_message == self.validator_message,
    {
        let mut r = self;
        r.prompt = Some(text);
        r
    }

    /// Set the prompt prefix.
    pub fn prefix(self, text: String) -> (r: Self)
        ensures
            r.prefix == Some(text),
            r.prompt == self.prompt,
            r.suffix == self.suffix,
            r.default == self.default,
            r.validator == self.validator,
            r.type_message == self.type_message,
            r.validator_message == self.validator_message,
    {
        let mut r = self;
        r.prefix = Some(text);
        r
    }

    /// Set the prompt suffix.
    pub fn suffix(self, text: String) -> (r: Self)
        ensures
            r.suffix == Some(text),
            r.prompt == self.prompt,
            r.prefix == self.prefix,
            r.default == self.default,
            r.validator == self.validator,
            r.type_message == self.type_message,
            r.validator_message == self.validator_message,
    {
        let mut r = self;
        r.suffix = Some(text);
        r
    }

    /// Set the message shown when a line fails to convert to the target type.
    pub fn type_error_message(self, message: String) -> (r: Self)
        ensures
            r.type_message == Some(message),
            r.prompt == self.prompt,
            r.prefix == self.prefix,
            r.suffix == self.suffix,
            r.default == self.default,
            r.validator == self.validator,
            r.validator_message == self.validator_message,
    {
        let mut r = self;
        r.type_message = Some(message);
        r
    }

    /// Set the message shown when the acceptance test rejects a value.
    pub fn validator_error_message(self, message: String) -> (r: Self)
        ensures
            r.validator_message == Some(message),
            r.prompt == self.prompt,
            r.prefix == self.prefix,
            r.suffix == self.suffix,
            r.default == self.default,
            r.validator == self.validator,
            r.type_message == self.type_message,
    {
        let mut r = self;
        r.validator_message = Some(message);
        r
    }

    /// Set the default value, returned verbatim on empty input: it passes
    /// through neither the parser nor the acceptance test.
    pub fn default(self, value: T) -> (r: Self)
        ensures
            r.default == Some(value),
            r.prompt == self.prompt,
            r.prefix == self.prefix,
            r.suffix == self.suffix,
            r.validator == self.validator,
            r.type_message == self.type_message,
            r.validator_message == self.validator_message,
    {
        let mut r = self;
        r.default = Some(value);
        r
    }

    /// Store an acceptance test: a parsed value is returned only if the
    /// test accepts it.
    pub fn matches<Q>(self, validator: Q) -> (r: Input<T, Q>)
        ensures
            r.validator == Some(validator),
            r.prompt == self.prompt,
            r.prefix == self.prefix,
            r.suffix == self.suffix,
            r.default == self.default,
            r.type_message == self.type_message,
            r.validator_message == self.validator_message,
    {
        let Input { prompt, prefix, suffix, default, validator: _, type_message, validator_message } = self;
        Input {
            prompt,
            prefix,
            suffix,
            default,
            validator: Some(validator),
            type_message,
            validator_message,
        }
    }
}

/// A new empty builder, ready for a fluent configuration chain.
pub fn input<T>() -> (r: Input<T, AcceptAny>)
    ensures
        r.prompt is None,
        r.prefix is None,
        r.suffix is None,
        r.default is None,
        r.validator is None,
        r.type_message is None,
        r.validator_message is None,
{
    Input::new()
}

/// A new builder with its display text already set.
pub fn prompt<T>(text: String) -> (r: Input<T, AcceptAny>)
    ensures
        r.prompt == Some(text),
        r.prefix is None,
        r.suffix is None,
        r.default is None,
        r.validator is None,
        r.type_message is None,
        r.validator_message is None,
{
    Input::new().prompt(text)
}

} // verus!
