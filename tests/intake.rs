use handlebars::Handlebars;
use order_intake::form::{decode_order, decode_pairs, Field, FormError};
use order_intake::intake::{finish_submit, form_page, submit_form, submit_pairs, Reply, Submit};
use order_intake::order::Order;
use order_intake::page::show_form;

const CONFIRMATION: &str = "<h1>Order submitted successfully!</h1>";

fn stored(step: Submit) -> Order {
    match step {
        Submit::Store(o) => o,
        Submit::Respond(r) => panic!("expected an order to store, got reply {:?}", r),
    }
}

fn replied(step: Submit) -> Reply {
    match step {
        Submit::Respond(r) => r,
        Submit::Store(o) => panic!("expected a reply, got order {:?}", o),
    }
}

fn pair(k: &str, v: &str) -> (String, String) {
    (k.to_string(), v.to_string())
}

#[test]
fn alice_order_is_stored_and_confirmed() {
    let body = b"name=Alice&phone=555-1234&address=12+Elm+St&delivery_time=18:00";
    let order = stored(submit_form(body));
    assert_eq!(order.name, "Alice");
    assert_eq!(order.phone, "555-1234");
    assert_eq!(order.address, "12 Elm St");
    assert_eq!(order.delivery_time, "18:00");
    let reply = finish_submit(true);
    assert_eq!(reply.status, 200);
    assert_eq!(reply.body, CONFIRMATION);
}

#[test]
fn bob_without_delivery_time_is_rejected() {
    let reply = replied(submit_form(b"name=Bob&phone=555&address=Oak"));
    assert_eq!(reply.status, 400);
    assert_eq!(
        reply.body,
        "Failed to deserialize form body: missing field `delivery_time`"
    );
}

#[test]
fn each_missing_field_is_rejected() {
    let full = [
        ("name", "A"),
        ("phone", "1"),
        ("address", "B"),
        ("delivery_time", "noon"),
    ];
    let fields = [Field::Name, Field::Phone, Field::Address, Field::DeliveryTime];
    for skip in 0..4 {
        let pairs: Vec<(String, String)> = full
            .iter()
            .enumerate()
            .filter(|(i, _)| *i != skip)
            .map(|(_, (k, v))| pair(k, v))
            .collect();
        assert_eq!(decode_pairs(&pairs).unwrap_err(), FormError::Missing(fields[skip]));
        let reply = replied(submit_pairs(&pairs));
        assert_eq!(reply.status, 400);
    }
}

#[test]
fn empty_body_lacks_the_name() {
    assert_eq!(decode_order(b"").unwrap_err(), FormError::Missing(Field::Name));
}

#[test]
fn duplicate_field_is_rejected() {
    let body = b"name=A&phone=1&phone=2&address=B&delivery_time=noon";
    assert_eq!(decode_order(body).unwrap_err(), FormError::Duplicate(Field::Phone));
    let reply = replied(submit_form(body));
    assert_eq!(reply.status, 400);
    assert_eq!(reply.body, "Failed to deserialize form body: duplicate field `phone`");
}

#[test]
fn first_failing_field_is_reported() {
    let body = b"address=B&address=C&delivery_time=noon";
    assert_eq!(decode_order(body).unwrap_err(), FormError::Missing(Field::Name));
    let body = b"name=A&name=Z&delivery_time=noon";
    assert_eq!(decode_order(body).unwrap_err(), FormError::Duplicate(Field::Name));
}

#[test]
fn extra_keys_and_order_do_not_matter() {
    let body = b"delivery_time=9&coupon=X&address=Main&phone=0&name=Eve&";
    let order = decode_order(body).unwrap();
    assert_eq!(order.name, "Eve");
    assert_eq!(order.phone, "0");
    assert_eq!(order.address, "Main");
    assert_eq!(order.delivery_time, "9");
}

#[test]
fn values_are_percent_decoded() {
    let body = b"name=J%C3%BCrgen&phone=%2B49+30&address=A%26B&delivery_time=18%3A00";
    let order = decode_order(body).unwrap();
    assert_eq!(order.name, "J\u{fc}rgen");
    assert_eq!(order.phone, "+49 30");
    assert_eq!(order.address, "A&B");
    assert_eq!(order.delivery_time, "18:00");
}

#[test]
fn empty_values_are_accepted() {
    let order = decode_order(b"name=&phone&address=x&delivery_time=y").unwrap();
    assert_eq!(order.name, "");
    assert_eq!(order.phone, "");
}

#[test]
fn failed_insert_gives_internal_error() {
    let reply = finish_submit(false);
    assert_eq!(reply.status, 500);
    assert_eq!(reply.body, "Internal Server Error");
}

#[test]
fn two_submissions_give_two_records() {
    let mut collection: Vec<Order> = Vec::new();
    let bodies: [&[u8]; 2] = [
        b"name=A&phone=1&address=X&delivery_time=1",
        b"name=B&phone=2&address=Y&delivery_time=2",
    ];
    for body in bodies {
        collection.push(stored(submit_form(body)));
    }
    assert_eq!(collection.len(), 2);
    assert_eq!(collection[0].name, "A");
    assert_eq!(collection[1].name, "B");
}

#[test]
fn identical_submissions_are_not_merged() {
    let body = b"name=A&phone=1&address=X&delivery_time=1";
    let first = stored(submit_form(body));
    let second = stored(submit_form(body));
    assert_eq!(first.name, second.name);
    assert_eq!(first.delivery_time, second.delivery_time);
}

#[test]
fn form_page_replies() {
    let ok = form_page(Some("<form></form>".to_string()));
    assert_eq!(ok.status, 200);
    assert_eq!(ok.body, "<form></form>");
    let failed = form_page(None);
    assert_eq!(failed.status, 500);
    assert_eq!(failed.body, "Internal Server Error");
}

#[test]
fn show_form_renders_the_registered_template() {
    let mut templates = Handlebars::new();
    templates
        .register_template_string("form", "<form method=\"post\">{{missing}}</form>")
        .unwrap();
    let first = show_form(&templates);
    assert_eq!(first.status, 200);
    assert_eq!(first.body, "<form method=\"post\"></form>");
    let _ = submit_form(b"name=A&phone=1&address=X&delivery_time=1");
    let second = show_form(&templates);
    assert_eq!(second.status, 200);
    assert_eq!(second.body, first.body);
}

#[test]
fn show_form_without_template_is_internal_error() {
    let templates = Handlebars::new();
    let reply = show_form(&templates);
    assert_eq!(reply.status, 500);
    assert_eq!(reply.body, "Internal Server Error");
}
