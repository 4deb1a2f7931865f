//! The template renderer: a thin wrapper over the generic
//! template-substitution engine.
//!
//! The engine is a black box to the rest of the crate: a template body and
//! the context go in, final text or a classified rendering error comes out.
//! Nothing here inspects the rendered text, and no promise is made about it
//! either, since an arbitrary template body may draw on engine built-ins
//! (such as the clock) that no two runs share.

use vstd::prelude::*;

verus! {

use crate::context::{TemplateContext, TemplateValue};
use crate::error::Error;

/// Relies on tera's `Tera::one_off`: renders the template body once against
/// the given context, without autoescaping; on failure the engine reports
/// its error as text.
#[verifier::external_body]
fn tera_one_off(template: &str, ctx: &TemplateContext) -> Result<String, String> {
    let mut c = tera::Context::new();
    for (key, value) in ctx.entries.iter() {
        match value {
            TemplateValue::Str(s) => c.insert(key.clone(), s),
            TemplateValue::Bool(b) => c.insert(key.clone(), b),
        }
    }
    match tera::Tera::one_off(template, &c, false) {
        Ok(s) => Ok(s),
        Err(e) => Err(e.to_string()),
    }
}

/// Renders a template body against the context.
///
/// Substitution is owned entirely by the engine; whatever it reports as a
/// failure comes back as the classified rendering error carrying the
/// engine's message.
pub fn render(template: &str, ctx: &TemplateContext) -> (r: Result<String, Error>)
    ensures
        r matches Err(e) ==> e is Template,
{
    match tera_one_off(template, ctx) {
        Ok(s) => Ok(s),
        Err(message) => Err(Error::Template { message }),
    }
}

} // verus!
