use crate::form::{field_key, is_complete, key_count, order_of, Field, PairsView};
use crate::intake::{
    apply_step, confirmation_reply, form_page_spec, stored_reply, submit_spec, ReplyView,
    SubmitView, STATUS_BAD_REQUEST, STATUS_OK,
};
use crate::order::OrderView;
use vstd::prelude::*;

verus! {

broadcast use vstd::seq_lib::to_multiset_build;

/// The collection after two submissions, the one with `first` before the one
/// with `second`.
pub open spec fn after_two(first: PairsView, second: PairsView, store: Seq<OrderView>) -> Seq<
    OrderView,
> {
    apply_step(submit_spec(second), apply_step(submit_spec(first), store))
}

/// A submission that carries each of the four fields once is stored as one
/// order with those values: the collection gains exactly that record, and
/// once the insert succeeds the reply is the confirmation page.
pub proof fn lemma_complete_form_stores_one(pairs: PairsView, store: Seq<OrderView>)
    requires
        is_complete(pairs),
    ensures
        submit_spec(pairs) == SubmitView::Store(order_of(pairs)),
        apply_step(submit_spec(pairs), store) == store.push(order_of(pairs)),
        apply_step(submit_spec(pairs), store).len() == store.len() + 1,
        stored_reply(true) == confirmation_reply(),
{
    assert(key_count(pairs, field_key(Field::Name)) == 1);
    assert(key_count(pairs, field_key(Field::Phone)) == 1);
    assert(key_count(pairs, field_key(Field::Address)) == 1);
    assert(key_count(pairs, field_key(Field::DeliveryTime)) == 1);
}

/// A submission that lacks one of the four fields gets a 400 reply and
/// leaves the collection as it was.
pub proof fn lemma_missing_field_rejected(pairs: PairsView, f: Field, store: Seq<OrderView>)
    requires
        key_count(pairs, field_key(f)) == 0,
    ensures
        match submit_spec(pairs) {
            SubmitView::Respond(r) => r.status == STATUS_BAD_REQUEST,
            SubmitView::Store(_) => false,
        },
        apply_step(submit_spec(pairs), store) == store,
{
}

/// A request for the form is answered from the rendered template alone: a
/// rendering gives a 200 reply with exactly that page, whatever was
/// submitted before.
pub proof fn lemma_form_page_stable(page: Seq<char>)
    ensures
        form_page_spec(Some(page)) == (ReplyView { status: STATUS_OK, body: page }),
{
}

/// Two stored submissions each add their own record, and the order in which
/// they are handled changes only the order of the records, not which records
/// the collection holds.
pub proof fn lemma_submissions_independent(
    first: PairsView,
    second: PairsView,
    store: Seq<OrderView>,
)
    requires
        is_complete(first),
        is_complete(second),
    ensures
        after_two(first, second, store) == store.push(order_of(first)).push(order_of(second)),
        after_two(second, first, store) == store.push(order_of(second)).push(order_of(first)),
        after_two(first, second, store).to_multiset() =~= after_two(
            second,
            first,
            store,
        ).to_multiset(),
{
    lemma_complete_form_stores_one(first, store);
    lemma_complete_form_stores_one(second, store);
    lemma_complete_form_stores_one(second, store.push(order_of(first)));
    lemma_complete_form_stores_one(first, store.push(order_of(second)));
}

/// Submitting the same body twice stores two records, one for each
/// submission: nothing is merged.
pub proof fn lemma_resubmission_stores_twice(pairs: PairsView, store: Seq<OrderView>)
    requires
        is_complete(pairs),
    ensures
        after_two(pairs, pairs, store) == store.push(order_of(pairs)).push(order_of(pairs)),
        after_two(pairs, pairs, store).len() == store.len() + 2,
{
    lemma_complete_form_stores_one(pairs, store);
    lemma_complete_form_stores_one(pairs, store.push(order_of(pairs)));
}

} // verus!
