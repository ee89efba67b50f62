//! The renderer: evaluates a session's template against its argument map.
//!
//! The substitution grammar (double-brace interpolation, filter expressions
//! such as `default(value=…)`) is evaluated by the tera template engine; what
//! it returns is named by [`render_of`].  The renderer is a pure function of
//! the template and the arguments: the engine is run with its one
//! environment-reading function disabled (see [`tera_render`]).  A failure
//! during rendering must never fail the request: the raw template is emitted
//! verbatim instead, so that every session always has a current frame.

use vstd::prelude::*;

use crate::args::ArgMap;
use crate::json::spec_args_object;

verus! {

/// What the engine below returns for a template and a JSON object text of
/// arguments: the rendered text, or `None` where parsing the arguments or
/// rendering fails.  The engine carries no environment access, so the
/// result is a function of the two texts alone.
pub uninterp spec fn render_of(template: Seq<char>, args_json: Seq<char>) -> Option<Seq<char>>;

/// The message of the disabled environment lookup.
fn no_env_note() -> (r: String)
    ensures
        r@ == "environment lookup is disabled"@,
{
    String::from_str("environment lookup is disabled")
}

/// Relies on `tera::Tera::render_str` over a fresh default engine — what
/// `Tera::one_off` builds, with auto-escaping off — except that the stock
/// engine's `get_env` function, which reads the process environment and
/// would make the output depend on more than the two texts, is replaced
/// by one that always fails.  A template invoking it falls back like any
/// other failing render, and the result depends on the template and
/// argument object texts alone (the remaining built-in functions and
/// filters of this engine build are deterministic).
#[verifier::external_body]
fn tera_render(template: &str, args_json: &str) -> (r: Option<String>)
    ensures
        match r {
            Some(s) => render_of(template@, args_json@) == Some(s@),
            None => render_of(template@, args_json@) is None,
        },
{
    let value: serde_json::Value = serde_json::from_str(args_json).ok()?;
    let context = tera::Context::from_value(value).ok()?;
    let no_env = |_: &std::collections::HashMap<String, tera::Value>| -> tera::Result<
        tera::Value,
    > { Err(tera::Error::msg(no_env_note())) };
    let mut engine = tera::Tera::default();
    engine.register_function("get_env", no_env);
    engine.render_str(template, &context).ok()
}

/// What rendering a template against an argument map produces: the engine's
/// output, or the raw template where the engine fails.
pub open spec fn spec_render(template: Seq<char>, args_json: Seq<char>) -> Seq<char> {
    match render_of(template, args_json) {
        Some(s) => s,
        None => template,
    }
}

/// The frame content for an engine result: the rendered text when rendering
/// succeeded, the raw template verbatim when it failed.
pub fn frame_content(rendered: Option<String>, template: &str) -> (r: String)
    ensures
        match rendered {
            Some(s) => r@ == s@,
            None => r@ == template@,
        },
{
    match rendered {
        Some(s) => s,
        None => template.to_owned(),
    }
}

/// Renders `template` against `args`.  Never fails: where the engine
/// rejects the template or a referenced argument is missing, the raw
/// template is returned unchanged.
pub fn render(template: &str, args: &ArgMap) -> (r: String)
    ensures
        r@ == spec_render(template@, spec_args_object(args.spec_entries())),
{
    let args_json = crate::json::args_object_text(args);
    let rendered = tera_render(template, args_json.as_str());
    frame_content(rendered, template)
}

/// Whenever the engine's output is non-empty (and in particular whenever it
/// fails, since the fallback is the template itself), rendering a non-empty
/// template yields a non-empty frame.  The one exception, excluded here, is
/// an engine run that succeeds with empty output, as for a template that is
/// a bare interpolation of an empty argument.
pub proof fn lemma_render_nonempty(template: Seq<char>, args_json: Seq<char>)
    requires
        template.len() > 0,
        render_of(template, args_json) matches Some(s) ==> s.len() > 0,
    ensures
        spec_render(template, args_json).len() > 0,
{
}

} // verus!
