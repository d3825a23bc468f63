//! The requests to the email provider: a contact for the marketing lists, and
//! a verification email.

use vstd::prelude::*;
use crate::types::email::{
    CreateContact,
    CreateContactView,
    CreateEmailRequest,
    CreateEmailRequestView,
    Params,
    ParamsView,
    SendEmailData,
    Sender,
    SenderView,
    To,
    ToView,
};

verus! {

/// The contact of a customer: the email address, the customer's id as the
/// external id, nothing blacklisted, and no update of a contact that is
/// already there.
pub fn create_contact_request(list_ids: Vec<u32>, ext_id: &String, email: &String) -> (r:
    CreateContact)
    ensures
        r@ == (CreateContactView {
            update_enabled: false,
            email: email@,
            ext_id: ext_id@,
            email_blacklisted: false,
            sms_blacklisted: false,
            list_ids: list_ids@,
        }),
{
    CreateContact {
        update_enabled: false,
        email: email.clone(),
        ext_id: ext_id.clone(),
        email_blacklisted: false,
        sms_blacklisted: false,
        list_ids,
    }
}

/// The verification email as the provider takes it.
pub open spec fn verification_email(data: SendEmailData) -> CreateEmailRequestView {
    CreateEmailRequestView {
        sender: SenderView { email: data.sender_email@, name: data.sender_name@ },
        subject: Some(data.subject@),
        template_id: data.template_id,
        params: ParamsView {
            verification_link: data.verification_link@,
            greetings_title: data.greetings_title@,
        },
        to: seq![ToView { email: data.customer_email@, name: data.customer_name@ }],
        reply_to: ToView { email: data.sender_email@, name: data.sender_name@ },
    }
}

/// The verification email for a customer: from the service's sender, who also
/// takes the replies, to the customer alone.
pub fn verification_email_request(data: SendEmailData) -> (r: CreateEmailRequest)
    ensures
        r@ == verification_email(data),
{
    let mut to: Vec<To> = Vec::new();
    to.push(To { email: data.customer_email, name: data.customer_name });
    let request = CreateEmailRequest {
        sender: Sender { email: data.sender_email.clone(), name: data.sender_name.clone() },
        subject: Some(data.subject),
        template_id: data.template_id,
        params: Params {
            verification_link: data.verification_link,
            greetings_title: data.greetings_title,
        },
        to,
        reply_to: To { email: data.sender_email, name: data.sender_name },
    };
    assert(request.to.deep_view() =~= verification_email(data).to);
    request
}

} // verus!
