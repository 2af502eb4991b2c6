use crate::form::{decode_order, decode_pairs, decode_spec, form_pairs, Field, FormError, PairsView};
use crate::order::{Order, OrderView};
use vstd::prelude::*;

verus! {

pub const STATUS_OK: u16 = 200;

pub const STATUS_BAD_REQUEST: u16 = 400;

pub const STATUS_INTERNAL_ERROR: u16 = 500;

/// An HTTP reply: its status code and its HTML body.
#[derive(Debug)]
pub struct Reply {
    pub status: u16,
    pub body: String,
}

pub ghost struct ReplyView {
    pub status: u16,
    pub body: Seq<char>,
}

impl View for Reply {
    type V = ReplyView;

    open spec fn view(&self) -> ReplyView {
        ReplyView { status: self.status, body: self.body@ }
    }
}

/// The page sent once an order has been stored.
pub open spec fn confirmation_text() -> Seq<char> {
    "<h1>Order submitted successfully!</h1>"@
}

/// The page sent when the server could not do its part.
pub open spec fn internal_error_text() -> Seq<char> {
    "Internal Server Error"@
}

/// The page sent for a form body that is not an order.
pub open spec fn form_error_text(e: FormError) -> Seq<char> {
    match e {
        FormError::Missing(Field::Name) => "Failed to deserialize form body: missing field `name`"@,
        FormError::Missing(Field::Phone) => "Failed to deserialize form body: missing field `phone`"@,
        FormError::Missing(Field::Address) => "Failed to deserialize form body: missing field `address`"@,
        FormError::Missing(Field::DeliveryTime) => "Failed to deserialize form body: missing field `delivery_time`"@,
        FormError::Duplicate(Field::Name) => "Failed to deserialize form body: duplicate field `name`"@,
        FormError::Duplicate(Field::Phone) => "Failed to deserialize form body: duplicate field `phone`"@,
        FormError::Duplicate(Field::Address) => "Failed to deserialize form body: duplicate field `address`"@,
        FormError::Duplicate(Field::DeliveryTime) => "Failed to deserialize form body: duplicate field `delivery_time`"@,
    }
}

pub open spec fn confirmation_reply() -> ReplyView {
    ReplyView { status: STATUS_OK, body: confirmation_text() }
}

pub open spec fn internal_error_reply() -> ReplyView {
    ReplyView { status: STATUS_INTERNAL_ERROR, body: internal_error_text() }
}

pub open spec fn bad_request_reply(e: FormError) -> ReplyView {
    ReplyView { status: STATUS_BAD_REQUEST, body: form_error_text(e) }
}

/// What a submission asks of the server next: reply at once, or store an
/// order and then reply.
#[derive(Debug)]
pub enum Submit {
    Respond(Reply),
    Store(Order),
}

pub ghost enum SubmitView {
    Respond(ReplyView),
    Store(OrderView),
}

impl View for Submit {
    type V = SubmitView;

    open spec fn view(&self) -> SubmitView {
        match self {
            Submit::Respond(r) => SubmitView::Respond(r@),
            Submit::Store(o) => SubmitView::Store(o@),
        }
    }
}

/// The step that a submission with these pairs leads to.
pub open spec fn submit_spec(pairs: PairsView) -> SubmitView {
    match decode_spec(pairs) {
        Ok(o) => SubmitView::Store(o),
        Err(e) => SubmitView::Respond(bad_request_reply(e)),
    }
}

/// The order collection after a step: a stored order is appended, a reply
/// alone leaves it as it was.
pub open spec fn apply_step(step: SubmitView, store: Seq<OrderView>) -> Seq<OrderView> {
    match step {
        SubmitView::Store(o) => store.push(o),
        SubmitView::Respond(_) => store,
    }
}

/// The reply once the store has answered an insert.
pub open spec fn stored_reply(inserted: bool) -> ReplyView {
    if inserted {
        confirmation_reply()
    } else {
        internal_error_reply()
    }
}

/// The reply to a request for the form, given what rendering it gave.
pub open spec fn form_page_spec(rendered: Option<Seq<char>>) -> ReplyView {
    match rendered {
        Some(page) => ReplyView { status: STATUS_OK, body: page },
        None => internal_error_reply(),
    }
}

impl FormError {
    /// The text of the reply for this error.
    pub fn message(&self) -> (r: String)
        ensures
            r@ == form_error_text(*self),
    {
        match self {
            FormError::Missing(Field::Name) => String::from_str("Failed to deserialize form body: missing field `name`"),
            FormError::Missing(Field::Phone) => String::from_str("Failed to deserialize form body: missing field `phone`"),
            FormError::Missing(Field::Address) => String::from_str("Failed to deserialize form body: missing field `address`"),
            FormError::Missing(Field::DeliveryTime) => String::from_str("Failed to deserialize form body: missing field `delivery_time`"),
            FormError::Duplicate(Field::Name) => String::from_str("Failed to deserialize form body: duplicate field `name`"),
            FormError::Duplicate(Field::Phone) => String::from_str("Failed to deserialize form body: duplicate field `phone`"),
            FormError::Duplicate(Field::Address) => String::from_str("Failed to deserialize form body: duplicate field `address`"),
            FormError::Duplicate(Field::DeliveryTime) => String::from_str("Failed to deserialize form body: duplicate field `delivery_time`"),
        }
    }
}

/// The reply for a form body that is not an order.
pub fn bad_request(e: FormError) -> (r: Reply)
    ensures
        r@ == bad_request_reply(e),
{
    Reply { status: STATUS_BAD_REQUEST, body: e.message() }
}

/// The reply when the server could not do its part.
pub fn internal_error() -> (r: Reply)
    ensures
        r@ == internal_error_reply(),
{
    Reply { status: STATUS_INTERNAL_ERROR, body: String::from_str("Internal Server Error") }
}

/// The reply once an order has been stored.
pub fn confirmation() -> (r: Reply)
    ensures
        r@ == confirmation_reply(),
{
    Reply { status: STATUS_OK, body: String::from_str("<h1>Order submitted successfully!</h1>") }
}

/// Decides a submission from the decoded pairs of its body.
pub fn submit_pairs(pairs: &Vec<(String, String)>) -> (r: Submit)
    ensures
        r@ == submit_spec(pairs.deep_view()),
{
    match decode_pairs(pairs) {
        Ok(o) => Submit::Store(o),
        Err(e) => Submit::Respond(bad_request(e)),
    }
}

/// Decides a submission from its raw form body: an order to store, or the
/// reply for a body that is not one.
pub fn submit_form(body: &[u8]) -> (r: Submit)
    ensures
        r@ == submit_spec(form_pairs(body@)),
{
    match decode_order(body) {
        Ok(o) => Submit::Store(o),
        Err(e) => Submit::Respond(bad_request(e)),
    }
}

/// The reply once the store has answered the insert of a submitted order.
pub fn finish_submit(inserted: bool) -> (r: Reply)
    ensures
        r@ == stored_reply(inserted),
{
    if inserted {
        confirmation()
    } else {
        internal_error()
    }
}

/// The reply to a request for the form, given the rendered page, or `None`
/// where rendering failed.
pub fn form_page(rendered: Option<String>) -> (r: Reply)
    ensures
        r@ == form_page_spec(
            match rendered {
                Some(s) => Some(s@),
                None => None,
            },
        ),
{
    match rendered {
        Some(page) => Reply { status: STATUS_OK, body: page },
        None => internal_error(),
    }
}

} // verus!
