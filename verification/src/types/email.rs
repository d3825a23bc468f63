//! What is sent to the email provider.

use vstd::prelude::*;

verus! {

/// A contact to add to the marketing lists.
#[derive(Clone, Debug, PartialEq, Eq)]
pub struct CreateContact {
    pub update_enabled: bool,
    pub email: String,
    /// The id of the customer record.
    pub ext_id: String,
    pub email_blacklisted: bool,
    pub sms_blacklisted: bool,
    pub list_ids: Vec<u32>,
}

/// The mathematical value of a [`CreateContact`].
pub struct CreateContactView {
    pub update_enabled: bool,
    pub email: Seq<char>,
    pub ext_id: Seq<char>,
    pub email_blacklisted: bool,
    pub sms_blacklisted: bool,
    pub list_ids: Seq<u32>,
}

impl View for CreateContact {
    type V = CreateContactView;

    open spec fn view(&self) -> CreateContactView {
        CreateContactView {
            update_enabled: self.update_enabled,
            email: self.email@,
            ext_id: self.ext_id@,
            email_blacklisted: self.email_blacklisted,
            sms_blacklisted: self.sms_blacklisted,
            list_ids: self.list_ids@,
        }
    }
}

impl DeepView for CreateContact {
    type V = CreateContactView;

    open spec fn deep_view(&self) -> CreateContactView {
        self@
    }
}

/// Who an email is from.
#[derive(Clone, Debug, PartialEq, Eq)]
pub struct Sender {
    pub email: String,
    pub name: String,
}

/// The mathematical value of a [`Sender`].
pub struct SenderView {
    pub email: Seq<char>,
    pub name: Seq<char>,
}

impl View for Sender {
    type V = SenderView;

    open spec fn view(&self) -> SenderView {
        SenderView {
            email: self.email@,
            name: self.name@,
        }
    }
}

impl DeepView for Sender {
    type V = SenderView;

    open spec fn deep_view(&self) -> SenderView {
        self@
    }
}

/// Who an email is for.
#[derive(Clone, Debug, PartialEq, Eq)]
pub struct To {
    pub email: String,
    pub name: String,
}

/// The mathematical value of a [`To`].
pub struct ToView {
    pub email: Seq<char>,
    pub name: Seq<char>,
}

impl View for To {
    type V = ToView;

    open spec fn view(&self) -> ToView {
        ToView {
            email: self.email@,
            name: self.name@,
        }
    }
}

impl DeepView for To {
    type V = ToView;

    open spec fn deep_view(&self) -> ToView {
        self@
    }
}

/// What the template of a verification email is filled with.
#[derive(Clone, Debug, PartialEq, Eq)]
pub struct Params {
    pub verification_link: String,
    pub greetings_title: String,
}

/// The mathematical value of a [`Params`].
pub struct ParamsView {
    pub verification_link: Seq<char>,
    pub greetings_title: Seq<char>,
}

impl View for Params {
    type V = ParamsView;

    open spec fn view(&self) -> ParamsView {
        ParamsView {
            verification_link: self.verification_link@,
            greetings_title: self.greetings_title@,
        }
    }
}

impl DeepView for Params {
    type V = ParamsView;

    open spec fn deep_view(&self) -> ParamsView {
        self@
    }
}

/// One version of a message, for one recipient.
#[derive(Clone, Debug, PartialEq, Eq)]
pub struct MessageVersion {
    pub to: To,
    pub params: Params,
    pub subject: String,
}

/// The mathematical value of a [`MessageVersion`].
pub struct MessageVersionView {
    pub to: ToView,
    pub params: ParamsView,
    pub subject: Seq<char>,
}

impl View for MessageVersion {
    type V = MessageVersionView;

    open spec fn view(&self) -> MessageVersionView {
        MessageVersionView {
            to: self.to@,
            params: self.params@,
            subject: self.subject@,
        }
    }
}

impl DeepView for MessageVersion {
    type V = MessageVersionView;

    open spec fn deep_view(&self) -> MessageVersionView {
        self@
    }
}

/// A templated email to send.
#[derive(Clone, Debug, PartialEq, Eq)]
pub struct CreateEmailRequest {
    pub sender: Sender,
    pub subject: Option<String>,
    pub template_id: u32,
    pub params: Params,
    pub to: Vec<To>,
    pub reply_to: To,
}

/// The mathematical value of a [`CreateEmailRequest`].
pub struct CreateEmailRequestView {
    pub sender: SenderView,
    pub subject: Option<Seq<char>>,
    pub template_id: u32,
    pub params: ParamsView,
    pub to: Seq<ToView>,
    pub reply_to: ToView,
}

impl View for CreateEmailRequest {
    type V = CreateEmailRequestView;

    open spec fn view(&self) -> CreateEmailRequestView {
        CreateEmailRequestView {
            sender: self.sender@,
            subject: self.subject.deep_view(),
            template_id: self.template_id,
            params: self.params@,
            to: self.to.deep_view(),
            reply_to: self.reply_to@,
        }
    }
}

impl DeepView for CreateEmailRequest {
    type V = CreateEmailRequestView;

    open spec fn deep_view(&self) -> CreateEmailRequestView {
        self@
    }
}

/// Everything a verification email is made of.
#[derive(Clone, Debug, PartialEq, Eq)]
pub struct SendEmailData {
    pub api_key: String,
    pub template_id: u32,
    pub subject: String,
    pub sender_email: String,
    pub sender_name: String,
    pub customer_email: String,
    pub customer_name: String,
    pub verification_link: String,
    pub greetings_title: String,
}

/// The mathematical value of a [`SendEmailData`].
pub struct SendEmailDataView {
    pub api_key: Seq<char>,
    pub template_id: u32,
    pub subject: Seq<char>,
    pub sender_email: Seq<char>,
    pub sender_name: Seq<char>,
    pub customer_email: Seq<char>,
    pub customer_name: Seq<char>,
    pub verification_link: Seq<char>,
    pub greetings_title: Seq<char>,
}

impl View for SendEmailData {
    type V = SendEmailDataView;

    open spec fn view(&self) -> SendEmailDataView {
        SendEmailDataView {
            api_key: self.api_key@,
            template_id: self.template_id,
            subject: self.subject@,
            sender_email: self.sender_email@,
            sender_name: self.sender_name@,
            customer_email: self.customer_email@,
            customer_name: self.customer_name@,
            verification_link: self.verification_link@,
            greetings_title: self.greetings_title@,
        }
    }
}

impl DeepView for SendEmailData {
    type V = SendEmailDataView;

    open spec fn deep_view(&self) -> SendEmailDataView {
        self@
    }
}

} // verus!
