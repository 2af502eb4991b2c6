use vstd::prelude::*;

verus! {

/// One order as submitted through the intake form.
#[derive(Debug)]
pub struct Order {
    pub name: String,
    pub phone: String,
    pub address: String,
    pub delivery_time: String,
}

/// The mathematical content of an `Order`: its four texts.
pub ghost struct OrderView {
    pub name: Seq<char>,
    pub phone: Seq<char>,
    pub address: Seq<char>,
    pub delivery_time: Seq<char>,
}

impl View for Order {
    type V = OrderView;

    open spec fn view(&self) -> OrderView {
        OrderView {
            name: self.name@,
            phone: self.phone@,
            address: self.address@,
            delivery_time: self.delivery_time@,
        }
    }
}

impl Order {
    pub fn new(name: String, phone: String, address: String, delivery_time: String) -> (r: Order)
        ensures
            r@ == (OrderView {
                name: name@,
                phone: phone@,
                address: address@,
                delivery_time: delivery_time@,
            }),
    {
        Order { name, phone, address, delivery_time }
    }
}

} // verus!
