use crate::order::{Order, OrderView};
use vstd::prelude::*;

verus! {

/// A decoded form body: its (name, value) pairs, in the order they came.
pub type PairsView = Seq<(Seq<char>, Seq<char>)>;

/// The four fields that an order form carries.
#[derive(Debug, Clone, Copy, PartialEq, Eq, Structural)]
pub enum Field {
    Name,
    Phone,
    Address,
    DeliveryTime,
}

/// Why a form body is not an order.
#[derive(Debug, Clone, Copy, PartialEq, Eq, Structural)]
pub enum FormError {
    /// The field does not occur in the body.
    Missing(Field),
    /// The field occurs more than once in the body.
    Duplicate(Field),
}

/// The key under which a field is submitted.
pub open spec fn field_key(f: Field) -> Seq<char> {
    match f {
        Field::Name => "name"@,
        Field::Phone => "phone"@,
        Field::Address => "address"@,
        Field::DeliveryTime => "delivery_time"@,
    }
}

/// How many pairs carry `key`.
pub open spec fn key_count(pairs: PairsView, key: Seq<char>) -> nat
    decreases pairs.len(),
{
    if pairs.len() == 0 {
        0
    } else {
        key_count(pairs.drop_last(), key) + if pairs.last().0 == key { 1nat } else { 0nat }
    }
}

/// The value of the last pair that carries `key` (empty when none does).
pub open spec fn value_for(pairs: PairsView, key: Seq<char>) -> Seq<char>
    decreases pairs.len(),
{
    if pairs.len() == 0 {
        Seq::empty()
    } else if pairs.last().0 == key {
        pairs.last().1
    } else {
        value_for(pairs.drop_last(), key)
    }
}

/// A field's value: present when its key occurs exactly once.
pub open spec fn field_value(pairs: PairsView, f: Field) -> Result<Seq<char>, FormError> {
    let n = key_count(pairs, field_key(f));
    if n == 0 {
        Err(FormError::Missing(f))
    } else if n > 1 {
        Err(FormError::Duplicate(f))
    } else {
        Ok(value_for(pairs, field_key(f)))
    }
}

/// The order that a body's pairs describe. Each of the four keys must occur
/// exactly once; other keys are ignored. The error names the first field, in
/// the order name, phone, address, delivery time, that breaks this.
pub open spec fn decode_spec(pairs: PairsView) -> Result<OrderView, FormError> {
    match field_value(pairs, Field::Name) {
        Err(e) => Err(e),
        Ok(name) => match field_value(pairs, Field::Phone) {
            Err(e) => Err(e),
            Ok(phone) => match field_value(pairs, Field::Address) {
                Err(e) => Err(e),
                Ok(address) => match field_value(pairs, Field::DeliveryTime) {
                    Err(e) => Err(e),
                    Ok(delivery_time) => Ok(
                        OrderView { name, phone, address, delivery_time },
                    ),
                },
            },
        },
    }
}

/// The order whose fields hold the values that the pairs give their keys.
pub open spec fn order_of(pairs: PairsView) -> OrderView {
    OrderView {
        name: value_for(pairs, field_key(Field::Name)),
        phone: value_for(pairs, field_key(Field::Phone)),
        address: value_for(pairs, field_key(Field::Address)),
        delivery_time: value_for(pairs, field_key(Field::DeliveryTime)),
    }
}

/// Each of the four keys occurs exactly once among the pairs.
pub open spec fn is_complete(pairs: PairsView) -> bool {
    forall|f: Field| key_count(pairs, #[trigger] field_key(f)) == 1
}

/// The key of a field, as a string.
pub fn field_key_string(f: Field) -> (r: String)
    ensures
        r@ == field_key(f),
{
    match f {
        Field::Name => String::from_str("name"),
        Field::Phone => String::from_str("phone"),
        Field::Address => String::from_str("address"),
        Field::DeliveryTime => String::from_str("delivery_time"),
    }
}

/// Looks a field up among the pairs of a decoded body.
pub fn lookup_field(pairs: &Vec<(String, String)>, f: Field) -> (r: Result<String, FormError>)
    ensures
        match (r, field_value(pairs.deep_view(), f)) {
            (Ok(v), Ok(w)) => v@ == w,
            (Err(e), Err(d)) => e == d,
            _ => false,
        },
{
    let key = field_key_string(f);
    let mut count: usize = 0;
    let mut value = String::new();
    let mut i: usize = 0;
    while i < pairs.len()
        invariant
            i <= pairs.len(),
            key@ == field_key(f),
            count as nat == key_count(pairs.deep_view().take(i as int), key@),
            value@ == value_for(pairs.deep_view().take(i as int), key@),
            count <= i,
        decreases pairs.len() - i,
    {
        proof {
            let dv = pairs.deep_view();
            assert(dv.take(i + 1).drop_last() =~= dv.take(i as int));
        }
        if pairs[i].0 == key {
            count = count + 1;
            value = pairs[i].1.clone();
        }
        i = i + 1;
    }
    proof {
        assert(pairs.deep_view().take(i as int) =~= pairs.deep_view());
    }
    if count == 0 {
        Err(FormError::Missing(f))
    } else if count > 1 {
        Err(FormError::Duplicate(f))
    } else {
        Ok(value)
    }
}

/// The (name, value) pairs of an `application/x-www-form-urlencoded` body,
/// percent-decoded, in the order they occur.
pub uninterp spec fn form_pairs(body: Seq<u8>) -> PairsView;

/// Relies on form_urlencoded::parse: it yields the body's decoded pairs in
/// order.
#[verifier::external_body]
fn parse_pairs(body: &[u8]) -> (r: Vec<(String, String)>)
    ensures
        r.deep_view() == form_pairs(body@),
{
    form_urlencoded::parse(body).into_owned().collect()
}

/// Decodes a form body into an order.
pub fn decode_order(body: &[u8]) -> (r: Result<Order, FormError>)
    ensures
        match (r, decode_spec(form_pairs(body@))) {
            (Ok(o), Ok(v)) => o@ == v,
            (Err(e), Err(d)) => e == d,
            _ => false,
        },
{
    let pairs = parse_pairs(body);
    decode_pairs(&pairs)
}

/// Builds the order that the pairs of a decoded body describe.
pub fn decode_pairs(pairs: &Vec<(String, String)>) -> (r: Result<Order, FormError>)
    ensures
        match (r, decode_spec(pairs.deep_view())) {
            (Ok(o), Ok(v)) => o@ == v,
            (Err(e), Err(d)) => e == d,
            _ => false,
        },
{
    let name = match lookup_field(pairs, Field::Name) {
        Ok(v) => v,
        Err(e) => return Err(e),
    };
    let phone = match lookup_field(pairs, Field::Phone) {
        Ok(v) => v,
        Err(e) => return Err(e),
    };
    let address = match lookup_field(pairs, Field::Address) {
        Ok(v) => v,
        Err(e) => return Err(e),
    };
    let delivery_time = match lookup_field(pairs, Field::DeliveryTime) {
        Ok(v) => v,
        Err(e) => return Err(e),
    };
    Ok(Order::new(name, phone, address, delivery_time))
}

} // verus!
