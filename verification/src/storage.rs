//! The customer repository as the library sees it: how a customer is found,
//! and the partial updates that are written to a record.
//!
//! Every write sets only the fields its handler owns. What grows (the
//! subscription's history, the list of email addresses) is written as one
//! entry to append, never as the whole list read earlier, so that two writers
//! working from the same record cannot drop each other's entry.

use vstd::prelude::*;
use crate::text::same_text;
use crate::types::customer::{
    main_count,
    well_formed,
    Customer,
    CustomerView,
    Email,
    EmailView,
    MAX_EMAILS,
};
use crate::types::subscription::{
    Slug,
    Subscription,
    SubscriptionFrequencyClass,
    SubscriptionHistoryLog,
    SubscriptionHistoryLogView,
    SubscriptionView,
};

verus! {

/// The repository could not be reached or refused the operation.
#[derive(Clone, Copy, Debug, PartialEq, Eq, Structural)]
pub struct StorageError;

/// What reading a key of the session store gave.
#[derive(Clone, Debug, PartialEq, Eq)]
pub enum StoreRead {
    /// The key holds this value.
    Found(String),
    /// The key is not there, or has expired.
    Missing,
    /// The store was reached and the read failed.
    Failed,
    /// The store could not be reached.
    Unreachable,
}

/// What writing to the session store gave.
#[derive(Clone, Copy, Debug, PartialEq, Eq, Structural)]
pub enum StoreWrite {
    Done,
    /// The store was reached and the write failed.
    Failed,
    /// The store could not be reached.
    Unreachable,
}

/// A key to set in the session store, with the seconds it is to live.
#[derive(Clone, Debug, PartialEq, Eq)]
pub struct SessionWrite {
    pub token: String,
    pub value: String,
    pub ttl: u64,
}

/// Finds the customer with the given id or with the given email address.
#[derive(Clone, Debug, PartialEq, Eq)]
pub struct CustomerFilter {
    pub id: String,
    pub email: String,
}

/// Whether one of the addresses is the given one.
pub open spec fn has_address(emails: Seq<EmailView>, address: Seq<char>) -> bool {
    exists|i: int| 0 <= i < emails.len() && (#[trigger] emails[i]).address == address
}

/// Whether a customer is the one a filter asks for: the id is the customer's,
/// or the email address is one of the customer's.
pub open spec fn filter_matches(id: Seq<char>, email: Seq<char>, customer: CustomerView) -> bool {
    customer.id == id || has_address(customer.emails, email)
}

/// The filter for a customer by id or email address. Leave empty what is not
/// known; a filter with both empty finds nobody with an id and an address.
pub fn build_customer_filter(id: &str, email: &str) -> (filter: CustomerFilter)
    ensures
        filter.id@ == id@,
        filter.email@ == email@,
{
    CustomerFilter { id: id.to_string(), email: email.to_string() }
}

/// Whether one of the addresses is the given one.
pub fn holds_address(emails: &Vec<Email>, address: &str) -> (r: bool)
    ensures
        r == has_address(emails.deep_view(), address@),
{
    let mut i: usize = 0;
    while i < emails.len()
        invariant
            i <= emails.len(),
            forall|j: int| 0 <= j < i ==> emails@[j].address@ != address@,
        decreases emails.len() - i,
    {
        if same_text(emails[i].address.as_str(), address) {
            assert(emails.deep_view()[i as int].address == address@);
            return true;
        }
        i += 1;
    }
    assert forall|j: int| 0 <= j < emails.deep_view().len() implies (
    #[trigger] emails.deep_view()[j]).address != address@ by {
        assert(emails.deep_view()[j] == emails@[j]@);
    }
    false
}

/// Whether a customer is the one a filter asks for.
pub fn customer_matches(filter: &CustomerFilter, customer: &Customer) -> (r: bool)
    ensures
        r == filter_matches(filter.id@, filter.email@, customer@),
{
    if same_text(customer.id.as_str(), filter.id.as_str()) {
        return true;
    }
    holds_address(&customer.emails, filter.email.as_str())
}

/// What is set once, when a subscription is created at the billing provider.
#[derive(Clone, Debug, PartialEq, Eq)]
pub struct SubscriptionTerms {
    pub id: String,
    pub product_id: i64,
    pub slug: Slug,
    pub frequency: SubscriptionFrequencyClass,
    pub created_at: String,
    pub starts_at: String,
    pub ends_at: String,
    pub renews_at: String,
}

/// The mathematical value of [`SubscriptionTerms`].
pub struct SubscriptionTermsView {
    pub id: Seq<char>,
    pub product_id: i64,
    pub slug: Slug,
    pub frequency: SubscriptionFrequencyClass,
    pub created_at: Seq<char>,
    pub starts_at: Seq<char>,
    pub ends_at: Seq<char>,
    pub renews_at: Seq<char>,
}

impl View for SubscriptionTerms {
    type V = SubscriptionTermsView;

    open spec fn view(&self) -> SubscriptionTermsView {
        SubscriptionTermsView {
            id: self.id@,
            product_id: self.product_id,
            slug: self.slug,
            frequency: self.frequency,
            created_at: self.created_at@,
            starts_at: self.starts_at@,
            ends_at: self.ends_at@,
            renews_at: self.renews_at@,
        }
    }
}

impl DeepView for SubscriptionTerms {
    type V = SubscriptionTermsView;

    open spec fn deep_view(&self) -> SubscriptionTermsView {
        self@
    }
}

/// One write to a customer's subscription: the fields to set, where a field
/// that is `None` stays as it is, and the one history entry to append.
#[derive(Clone, Debug, PartialEq, Eq)]
pub struct SubscriptionUpdate {
    pub terms: Option<SubscriptionTerms>,
    pub variant_id: Option<i64>,
    pub status: Option<String>,
    pub updated_at: String,
    pub log: SubscriptionHistoryLog,
}

/// The mathematical value of a [`SubscriptionUpdate`].
pub struct SubscriptionUpdateView {
    pub terms: Option<SubscriptionTermsView>,
    pub variant_id: Option<i64>,
    pub status: Option<Seq<char>>,
    pub updated_at: Seq<char>,
    pub log: SubscriptionHistoryLogView,
}

impl View for SubscriptionUpdate {
    type V = SubscriptionUpdateView;

    open spec fn view(&self) -> SubscriptionUpdateView {
        SubscriptionUpdateView {
            terms: self.terms.deep_view(),
            variant_id: self.variant_id,
            status: self.status.deep_view(),
            updated_at: self.updated_at@,
            log: self.log@,
        }
    }
}

/// A subscription after a write.
pub open spec fn updated_subscription(
    before: SubscriptionView,
    update: SubscriptionUpdateView,
) -> SubscriptionView {
    SubscriptionView {
        id: if update.terms is Some {
            update.terms.unwrap().id
        } else {
            before.id
        },
        product_id: if update.terms is Some {
            update.terms.unwrap().product_id
        } else {
            before.product_id
        },
        variant_id: if update.variant_id is Some {
            update.variant_id.unwrap()
        } else {
            before.variant_id
        },
        slug: if update.terms is Some {
            update.terms.unwrap().slug
        } else {
            before.slug
        },
        frequency: if update.terms is Some {
            update.terms.unwrap().frequency
        } else {
            before.frequency
        },
        status: if update.status is Some {
            update.status.unwrap()
        } else {
            before.status
        },
        created_at: if update.terms is Some {
            update.terms.unwrap().created_at
        } else {
            before.created_at
        },
        updated_at: update.updated_at,
        starts_at: if update.terms is Some {
            update.terms.unwrap().starts_at
        } else {
            before.starts_at
        },
        ends_at: if update.terms is Some {
            update.terms.unwrap().ends_at
        } else {
            before.ends_at
        },
        renews_at: if update.terms is Some {
            update.terms.unwrap().renews_at
        } else {
            before.renews_at
        },
        history_logs: before.history_logs.push(update.log),
    }
}

/// One write to a customer record.
#[derive(Clone, Debug, PartialEq, Eq)]
pub enum CustomerUpdate {
    /// Sets the name.
    Name { name: String, updated_at: String },
    /// Sets the password's hash.
    Password { password: String, updated_at: String },
    /// Appends an email address.
    AddEmail { email: Email, updated_at: String },
    /// Marks the first of the customer's entries with this address as
    /// verified.
    VerifyEmail { address: String },
    /// Writes to the subscription.
    Subscription(SubscriptionUpdate),
}

/// The mathematical value of a [`CustomerUpdate`].
pub enum CustomerUpdateView {
    Name { name: Seq<char>, updated_at: Seq<char> },
    Password { password: Seq<char>, updated_at: Seq<char> },
    AddEmail { email: EmailView, updated_at: Seq<char> },
    VerifyEmail { address: Seq<char> },
    Subscription(SubscriptionUpdateView),
}

impl View for CustomerUpdate {
    type V = CustomerUpdateView;

    open spec fn view(&self) -> CustomerUpdateView {
        match self {
            CustomerUpdate::Name { name, updated_at } => CustomerUpdateView::Name {
                name: name@,
                updated_at: updated_at@,
            },
            CustomerUpdate::Password { password, updated_at } => CustomerUpdateView::Password {
                password: password@,
                updated_at: updated_at@,
            },
            CustomerUpdate::AddEmail { email, updated_at } => CustomerUpdateView::AddEmail {
                email: email@,
                updated_at: updated_at@,
            },
            CustomerUpdate::VerifyEmail { address } => CustomerUpdateView::VerifyEmail {
                address: address@,
            },
            CustomerUpdate::Subscription(update) => CustomerUpdateView::Subscription(update@),
        }
    }
}

/// Whether `i` is the place of the first entry with the given address.
pub open spec fn is_first_with_address(emails: Seq<EmailView>, address: Seq<char>, i: int) -> bool {
    &&& 0 <= i < emails.len()
    &&& emails[i].address == address
    &&& forall|j: int| 0 <= j < i ==> (#[trigger] emails[j]).address != address
}

/// The addresses after the first entry with the given address was marked as
/// verified; unchanged if there is none.
pub open spec fn verified_emails(emails: Seq<EmailView>, address: Seq<char>) -> Seq<EmailView> {
    if exists|i: int| is_first_with_address(emails, address, i) {
        let i = choose|i: int| is_first_with_address(emails, address, i);
        emails.update(i, EmailView { verified: true, ..emails[i] })
    } else {
        emails
    }
}

/// A customer record after a write.
pub open spec fn updated_customer(before: CustomerView, update: CustomerUpdateView) -> CustomerView {
    match update {
        CustomerUpdateView::Name { name, updated_at } => CustomerView {
            name,
            updated_at,
            ..before
        },
        CustomerUpdateView::Password { password, updated_at } => CustomerView {
            password,
            updated_at,
            ..before
        },
        CustomerUpdateView::AddEmail { email, updated_at } => CustomerView {
            emails: before.emails.push(email),
            updated_at,
            ..before
        },
        CustomerUpdateView::VerifyEmail { address } => CustomerView {
            emails: verified_emails(before.emails, address),
            ..before
        },
        CustomerUpdateView::Subscription(update) => CustomerView {
            subscription: updated_subscription(before.subscription, update),
            ..before
        },
    }
}

impl Subscription {
    /// Performs a write: sets the fields the update names and appends its
    /// history entry. The history never shrinks and grows by exactly one
    /// entry.
    pub fn apply(&mut self, update: SubscriptionUpdate)
        ensures
            final(self)@ == updated_subscription(old(self)@, update@),
            final(self)@.history_logs.len() == old(self)@.history_logs.len() + 1,
            final(self)@.history_logs.drop_last() == old(self)@.history_logs,
            final(self)@.history_logs.last() == update.log@,
    {
        let ghost before = self@;
        let SubscriptionUpdate { terms, variant_id, status, updated_at, log } = update;
        match terms {
            Some(terms) => {
                self.id = terms.id;
                self.product_id = terms.product_id;
                self.slug = terms.slug;
                self.frequency = terms.frequency;
                self.created_at = terms.created_at;
                self.starts_at = terms.starts_at;
                self.ends_at = terms.ends_at;
                self.renews_at = terms.renews_at;
            },
            None => {},
        }
        match variant_id {
            Some(variant_id) => {
                self.variant_id = variant_id;
            },
            None => {},
        }
        match status {
            Some(status) => {
                self.status = status;
            },
            None => {},
        }
        self.updated_at = updated_at;
        self.history_logs.push(log);
        proof {
            assert(self.history_logs.deep_view() =~= before.history_logs.push(log@));
            assert(before.history_logs.push(log@).drop_last() =~= before.history_logs);
        }
    }
}

/// Marks the first entry with the given address as verified.
pub fn mark_verified(emails: &mut Vec<Email>, address: &str)
    ensures
        final(emails).deep_view() == verified_emails(old(emails).deep_view(), address@),
        final(emails)@.len() == old(emails)@.len(),
{
    let ghost before = emails.deep_view();
    let mut i: usize = 0;
    while i < emails.len()
        invariant
            i <= emails.len(),
            emails.deep_view() == before,
            before == old(emails).deep_view(),
            emails@.len() == old(emails)@.len(),
            forall|j: int| 0 <= j < i ==> (#[trigger] before[j]).address != address@,
        decreases emails.len() - i,
    {
        assert(before[i as int] == emails@[i as int]@);
        if same_text(emails[i].address.as_str(), address) {
            let marked = Email {
                address: emails[i].address.clone(),
                verified: true,
                main: emails[i].main,
            };
            emails.set(i, marked);
            proof {
                assert(is_first_with_address(before, address@, i as int));
                let chosen = choose|c: int| is_first_with_address(before, address@, c);
                assert(chosen == i);
                assert(emails.deep_view() =~= before.update(
                    i as int,
                    EmailView { verified: true, ..before[i as int] },
                ));
            }
            return ;
        }
        i += 1;
    }
    assert(!exists|c: int| is_first_with_address(before, address@, c));
}

impl Customer {
    /// Performs a write on the record: only what the update names changes.
    pub fn apply(&mut self, update: CustomerUpdate)
        ensures
            final(self)@ == updated_customer(old(self)@, update@),
    {
        match update {
            CustomerUpdate::Name { name, updated_at } => {
                self.name = name;
                self.updated_at = updated_at;
            },
            CustomerUpdate::Password { password, updated_at } => {
                self.password = password;
                self.updated_at = updated_at;
            },
            CustomerUpdate::AddEmail { email, updated_at } => {
                let ghost before = self.emails.deep_view();
                self.emails.push(email);
                self.updated_at = updated_at;
                assert(self.emails.deep_view() =~= before.push(email@));
            },
            CustomerUpdate::VerifyEmail { address } => {
                mark_verified(&mut self.emails, address.as_str());
            },
            CustomerUpdate::Subscription(update) => {
                self.subscription.apply(update);
            },
        }
    }
}

/// Replacing an address by one that is as much the main one as it was
/// leaves the number of main addresses as it is.
pub proof fn lemma_main_count_update(emails: Seq<EmailView>, i: int, email: EmailView)
    requires
        0 <= i < emails.len(),
        email.main == emails[i].main,
    ensures
        main_count(emails.update(i, email)) == main_count(emails),
    decreases emails.len(),
{
    let after = emails.update(i, email);
    if i == emails.len() - 1 {
        assert(after.drop_last() =~= emails.drop_last());
    } else {
        assert(after.drop_last() =~= emails.drop_last().update(i, email));
        lemma_main_count_update(emails.drop_last(), i, email);
    }
}

/// One more address changes the number of main addresses by one if it is a
/// main address, and not at all if it is not.
pub proof fn lemma_main_count_push(emails: Seq<EmailView>, email: EmailView)
    ensures
        main_count(emails.push(email)) == main_count(emails) + if email.main {
            1nat
        } else {
            0nat
        },
{
    assert(emails.push(email).drop_last() =~= emails);
}

/// Whether a write keeps a record within its bounds: any write does, but
/// for one more email address, which must not be a main address and must find
/// fewer than five.
pub open spec fn keeps_bounds(before: CustomerView, update: CustomerUpdateView) -> bool {
    update matches CustomerUpdateView::AddEmail { email, .. } ==> !email.main
        && before.emails.len() < MAX_EMAILS
}

/// A well-formed record stays well formed under every write that keeps it
/// within its bounds: it still has one to five email addresses, exactly one
/// of them the main one. The history of its subscription only grows: what it
/// held is still there, in the same places.
pub proof fn lemma_write_keeps_well_formed(before: CustomerView, update: CustomerUpdateView)
    requires
        well_formed(before),
        keeps_bounds(before, update),
    ensures
        well_formed(updated_customer(before, update)),
        updated_customer(before, update).subscription.history_logs.len()
            >= before.subscription.history_logs.len(),
        updated_customer(before, update).subscription.history_logs.subrange(
            0,
            before.subscription.history_logs.len() as int,
        ) == before.subscription.history_logs,
        updated_customer(before, update).id == before.id,
{
    let after = updated_customer(before, update);
    assert(after.subscription.history_logs.subrange(
        0,
        before.subscription.history_logs.len() as int,
    ) =~= before.subscription.history_logs);
    match update {
        CustomerUpdateView::AddEmail { email, updated_at } => {
            lemma_main_count_push(before.emails, email);
        },
        CustomerUpdateView::VerifyEmail { address } => {
            if exists|i: int| is_first_with_address(before.emails, address, i) {
                let i = choose|i: int| is_first_with_address(before.emails, address, i);
                lemma_main_count_update(
                    before.emails,
                    i,
                    EmailView { verified: true, ..before.emails[i] },
                );
            }
        },
        _ => {},
    }
}

/// Whether `i` is the place of the first record that a filter asks for.
pub open spec fn is_first_match(
    customers: Seq<CustomerView>,
    id: Seq<char>,
    email: Seq<char>,
    i: int,
) -> bool {
    &&& 0 <= i < customers.len()
    &&& filter_matches(id, email, customers[i])
    &&& forall|j: int| 0 <= j < i ==> !filter_matches(id, email, #[trigger] customers[j])
}

/// Whether no record is the one a filter asks for.
pub open spec fn no_match(customers: Seq<CustomerView>, id: Seq<char>, email: Seq<char>) -> bool {
    forall|j: int| 0 <= j < customers.len() ==> !filter_matches(id, email, #[trigger] customers[j])
}

/// The place of the first record that a filter asks for, among records kept
/// in memory.
pub fn find_position(customers: &Vec<Customer>, filter: &CustomerFilter) -> (r: Option<usize>)
    ensures
        match r {
            Some(i) => is_first_match(customers.deep_view(), filter.id@, filter.email@, i as int),
            None => no_match(customers.deep_view(), filter.id@, filter.email@),
        },
{
    let mut i: usize = 0;
    while i < customers.len()
        invariant
            i <= customers.len(),
            forall|j: int|
                0 <= j < i ==> !filter_matches(
                    filter.id@,
                    filter.email@,
                    #[trigger] customers.deep_view()[j],
                ),
        decreases customers.len() - i,
    {
        assert(customers.deep_view()[i as int] == customers@[i as int]@);
        if customer_matches(filter, &customers[i]) {
            return Some(i);
        }
        i += 1;
    }
    None
}

/// Finds a customer by id or email address among records kept in memory:
/// whether there is one, and the first one if so.
pub fn find_customer<'a>(customers: &'a Vec<Customer>, filter: &CustomerFilter) -> (r: (
    bool,
    Option<&'a Customer>,
))
    ensures
        r.0 == r.1 is Some,
        match r.1 {
            Some(customer) => exists|i: int|
                is_first_match(customers.deep_view(), filter.id@, filter.email@, i)
                    && customers@[i] == *customer,
            None => no_match(customers.deep_view(), filter.id@, filter.email@),
        },
{
    match find_position(customers, filter) {
        Some(i) => {
            assert(is_first_match(customers.deep_view(), filter.id@, filter.email@, i as int));
            (true, Some(&customers[i]))
        },
        None => (false, None),
    }
}

/// Performs a write on the first record that a filter asks for, among
/// records kept in memory. Every other record stays as it is; without such a
/// record nothing changes.
pub fn update_customer(customers: &mut Vec<Customer>, filter: &CustomerFilter, update: CustomerUpdate)
    ensures
        final(customers)@.len() == old(customers)@.len(),
        ({
            let before = old(customers).deep_view();
            let after = final(customers).deep_view();
            &&& no_match(before, filter.id@, filter.email@) ==> after == before
            &&& forall|i: int|
                is_first_match(before, filter.id@, filter.email@, i) ==> after == before.update(
                    i,
                    updated_customer(before[i], update@),
                )
        }),
{
    let ghost before = customers.deep_view();
    match find_position(customers, filter) {
        Some(i) => {
            let mut customer = customers.remove(i);
            customer.apply(update);
            customers.insert(i, customer);
            proof {
                assert(customers.deep_view() =~= before.update(
                    i as int,
                    updated_customer(before[i as int], update@),
                ));
                assert forall|k: int|
                    is_first_match(before, filter.id@, filter.email@, k) implies k == i by {}
            }
        },
        None => {
            assert(customers.deep_view() =~= before);
            assert forall|k: int| is_first_match(before, filter.id@, filter.email@, k) implies false by {}
        },
    }
}

} // verus!
