use crate::intake::{form_page, internal_error_reply, Reply, STATUS_OK};
use handlebars::{Handlebars, RenderError};
use vstd::prelude::*;

verus! {

#[verifier::external_type_specification]
#[verifier::external_body]
pub struct ExHandlebars<'reg>(Handlebars<'reg>);

#[verifier::external_type_specification]
#[verifier::external_body]
pub struct ExRenderError(RenderError);

/// Relies on handlebars::Handlebars::render: renders the template registered
/// under `name` with an empty data context. The outcome depends on the
/// templates that the registry holds (and, in dev mode, on the files behind
/// them), so nothing is promised of it.
#[verifier::external_body]
fn render_empty<'reg>(templates: &Handlebars<'reg>, name: &str) -> (r: Result<String, RenderError>) {
    templates.render(name, &())
}

/// The reply to a request for the form: the "form" template rendered with
/// no data, or an internal error where rendering fails. The registry is only
/// read, so no request changes what later ones are sent.
pub fn show_form<'reg>(templates: &Handlebars<'reg>) -> (r: Reply)
    ensures
        r@.status == STATUS_OK || r@ == internal_error_reply(),
{
    let rendered = match render_empty(templates, "form") {
        Ok(page) => Some(page),
        Err(_) => None,
    };
    form_page(rendered)
}

} // verus!
