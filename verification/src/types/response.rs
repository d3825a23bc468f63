//! The one envelope every handler answers with, and the requests' headers.

use vstd::prelude::*;
use crate::types::customer::{
    Customer, CustomerView, PrivateSensitiveCustomer, PrivateSensitiveCustomerView,
};

verus! {

/// The HTTP statuses the handlers answer with.
#[allow(non_camel_case_types)]
#[derive(Clone, Copy, Debug, PartialEq, Eq, Structural)]
pub enum HttpStatus {
    OK,
    CREATED,
    BAD_REQUEST,
    UNAUTHORIZED,
    NOT_FOUND,
    INTERNAL_SERVER_ERROR,
}

impl HttpStatus {
    /// The status as a number.
    pub open spec fn number(self) -> u16 {
        match self {
            HttpStatus::OK => 200,
            HttpStatus::CREATED => 201,
            HttpStatus::BAD_REQUEST => 400,
            HttpStatus::UNAUTHORIZED => 401,
            HttpStatus::NOT_FOUND => 404,
            HttpStatus::INTERNAL_SERVER_ERROR => 500,
        }
    }

    pub fn code(&self) -> (n: u16)
        ensures
            n == self.number(),
    {
        match self {
            HttpStatus::OK => 200,
            HttpStatus::CREATED => 201,
            HttpStatus::BAD_REQUEST => 400,
            HttpStatus::UNAUTHORIZED => 401,
            HttpStatus::NOT_FOUND => 404,
            HttpStatus::INTERNAL_SERVER_ERROR => 500,
        }
    }
}

/// A header of a request, as far as it can be read.
#[derive(Clone, Debug, PartialEq, Eq)]
pub enum HeaderValue {
    /// The request has no such header.
    Absent,
    /// The header is there and is not text.
    Unreadable,
    Text(String),
}

/// What Google told about a user who has no customer record yet.
#[derive(Clone, Debug, PartialEq, Eq)]
pub struct GoogleProfile {
    pub openid: Option<String>,
    pub email: String,
    pub verified_email: Option<bool>,
    pub name: Option<String>,
    pub given_name: Option<String>,
    pub family_name: Option<String>,
    pub picture: Option<String>,
    pub locale: Option<String>,
}

/// The mathematical value of a [`GoogleProfile`].
pub struct GoogleProfileView {
    pub openid: Option<Seq<char>>,
    pub email: Seq<char>,
    pub verified_email: Option<bool>,
    pub name: Option<Seq<char>>,
    pub given_name: Option<Seq<char>>,
    pub family_name: Option<Seq<char>>,
    pub picture: Option<Seq<char>>,
    pub locale: Option<Seq<char>>,
}

impl View for GoogleProfile {
    type V = GoogleProfileView;

    open spec fn view(&self) -> GoogleProfileView {
        GoogleProfileView {
            openid: self.openid.deep_view(),
            email: self.email@,
            verified_email: self.verified_email,
            name: self.name.deep_view(),
            given_name: self.given_name.deep_view(),
            family_name: self.family_name.deep_view(),
            picture: self.picture.deep_view(),
            locale: self.locale.deep_view(),
        }
    }
}

/// The payload of a response.
#[derive(Clone, Debug, PartialEq, Eq)]
pub enum ResponseData {
    /// An empty object.
    Empty,
    /// A fresh session token.
    Token(String),
    /// The customer a session belongs to.
    Session(String),
    /// A customer record that was just created.
    Customer(Customer),
    /// What a session may see of a customer.
    Profile(PrivateSensitiveCustomer),
    /// A Google user without a record: the caller is asked to create one.
    CreateCustomerRecord(GoogleProfile),
}

/// The mathematical value of a [`ResponseData`].
pub enum ResponseDataView {
    Empty,
    Token(Seq<char>),
    Session(Seq<char>),
    Customer(CustomerView),
    Profile(PrivateSensitiveCustomerView),
    CreateCustomerRecord(GoogleProfileView),
}

impl View for ResponseData {
    type V = ResponseDataView;

    open spec fn view(&self) -> ResponseDataView {
        match self {
            ResponseData::Empty => ResponseDataView::Empty,
            ResponseData::Token(token) => ResponseDataView::Token(token@),
            ResponseData::Session(id) => ResponseDataView::Session(id@),
            ResponseData::Customer(customer) => ResponseDataView::Customer(customer@),
            ResponseData::Profile(profile) => ResponseDataView::Profile(profile@),
            ResponseData::CreateCustomerRecord(profile) => ResponseDataView::CreateCustomerRecord(
                profile@,
            ),
        }
    }
}

/// The envelope of every response: a message, a payload, and 0 for success
/// or 1 for failure.
#[derive(Clone, Debug, PartialEq, Eq)]
pub struct GenericResponse {
    pub message: String,
    pub data: ResponseData,
    pub exit_code: u8,
}

/// The mathematical value of a [`GenericResponse`].
pub struct GenericResponseView {
    pub message: Seq<char>,
    pub data: ResponseDataView,
    pub exit_code: u8,
}

impl View for GenericResponse {
    type V = GenericResponseView;

    open spec fn view(&self) -> GenericResponseView {
        GenericResponseView { message: self.message@, data: self.data@, exit_code: self.exit_code }
    }
}

/// A status and the envelope sent with it.
pub type Reply = (HttpStatus, GenericResponse);

/// The mathematical value of a [`Reply`].
pub type ReplyView = (HttpStatus, GenericResponseView);

/// The view of a reply.
pub open spec fn reply_view(reply: Reply) -> ReplyView {
    (reply.0, reply.1@)
}

/// A status with the failure envelope of a message.
pub open spec fn refusal(status: HttpStatus, message: Seq<char>) -> ReplyView {
    (status, failure(message))
}

/// The failure envelope: the message, no payload, exit code 1.
pub open spec fn failure(message: Seq<char>) -> GenericResponseView {
    GenericResponseView { message, data: ResponseDataView::Empty, exit_code: 1 }
}

/// The success envelope without payload: the message, exit code 0.
pub open spec fn success(message: Seq<char>) -> GenericResponseView {
    GenericResponseView { message, data: ResponseDataView::Empty, exit_code: 0 }
}

impl GenericResponse {
    /// A failure with the given message.
    pub fn failure(message: String) -> (r: GenericResponse)
        ensures
            r@ == failure(message@),
    {
        GenericResponse { message, data: ResponseData::Empty, exit_code: 1 }
    }

    /// A success with the given message and no payload.
    pub fn success(message: String) -> (r: GenericResponse)
        ensures
            r@ == success(message@),
    {
        GenericResponse { message, data: ResponseData::Empty, exit_code: 0 }
    }
}

} // verus!
