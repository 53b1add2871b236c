//! The notification record and the hints that travel with it.

use vstd::prelude::*;
use vstd::pervasive::unreached;
use crate::schema::conforms_to;
use crate::schema::notify_kinds;
use crate::schema::views;
use crate::schema::Value;
use crate::schema::ValueView;

verus! {

/// A scalar inside a nested hint value.
#[derive(Clone, Debug, PartialEq, Eq)]
pub enum HintItem {
    Boolean(bool),
    Number(i64),
    Text(String),
    Bytes(Vec<u8>),
    /// A value of any other type, written out together with its type, so
    /// that it can be read back as it was.
    Encoded(String),
}

/// Value of one hint. The dispatcher never looks inside.
#[derive(Clone, Debug, PartialEq, Eq)]
pub enum HintValue {
    Boolean(bool),
    Number(i64),
    Text(String),
    Bytes(Vec<u8>),
    Nested(Vec<HintItem>),
    /// A value of any other type, written out together with its type, so
    /// that it can be read back as it was.
    Encoded(String),
}

/// One entry of the hints dictionary, in the order the client sent it.
#[derive(Clone, Debug, PartialEq, Eq)]
pub struct Hint {
    pub key: String,
    pub value: HintValue,
}

/// The canonical record of one `Notify` call.
#[derive(Clone, Debug, PartialEq, Eq)]
pub struct Notification {
    pub id: u32,
    pub app_name: String,
    pub replaces_id: u32,
    pub app_icon: String,
    pub summary: String,
    pub body: String,
    pub actions: Vec<String>,
    pub hints: Vec<Hint>,
    pub expire_timeout: i32,
}

/// Mathematical content of a [`Notification`].
pub struct NotificationView {
    pub id: u32,
    pub app_name: Seq<char>,
    pub replaces_id: u32,
    pub app_icon: Seq<char>,
    pub summary: Seq<char>,
    pub body: Seq<char>,
    pub actions: Seq<Seq<char>>,
    pub hints: Seq<Hint>,
    pub expire_timeout: i32,
}

impl View for Notification {
    type V = NotificationView;

    open spec fn view(&self) -> NotificationView {
        NotificationView {
            id: self.id,
            app_name: self.app_name@,
            replaces_id: self.replaces_id,
            app_icon: self.app_icon@,
            summary: self.summary@,
            body: self.body@,
            actions: self.actions.deep_view(),
            hints: self.hints@,
            expire_timeout: self.expire_timeout,
        }
    }
}

impl NotificationView {
    /// A record leaves the dispatcher only with a non-zero id: zero is the
    /// "allocate a new id" sentinel of the wire.
    pub open spec fn well_formed(self) -> bool {
        self.id != 0
    }
}

/// The `replaces_id` that a `Notify` call carries: its second argument.
pub open spec fn replaces_id_of(parameters: Seq<ValueView>) -> u32 {
    match parameters[1] {
        ValueView::Uint32(r) => r,
        _ => 0,
    }
}

/// The record of a `Notify` call with the given arguments, under `id`:
/// each field is the argument at its position, untouched.
pub open spec fn notification_of(parameters: Seq<ValueView>, id: u32) -> NotificationView {
    NotificationView {
        id,
        app_name: parameters[0]->Text_0,
        replaces_id: replaces_id_of(parameters),
        app_icon: parameters[2]->Text_0,
        summary: parameters[3]->Text_0,
        body: parameters[4]->Text_0,
        actions: parameters[5]->TextArray_0,
        hints: parameters[6]->Dictionary_0,
        expire_timeout: parameters[7]->Int32_0,
    }
}

/// Reads the `replaces_id` of a `Notify` call.
pub fn replaces_id(parameters: &Vec<Value>) -> (r: u32)
    requires
        conforms_to(views(parameters@), notify_kinds()),
    ensures
        r == replaces_id_of(views(parameters@)),
{
    assert(views(parameters@)[1].kind() == notify_kinds()[1]);
    match &parameters[1] {
        Value::Uint32(r) => *r,
        _ => unreached(),
    }
}

impl Notification {
    /// Builds the record of a `Notify` call from its arguments and the id
    /// resolved for it.
    pub fn from_parameters(parameters: Vec<Value>, id: u32) -> (notification: Notification)
        requires
            conforms_to(views(parameters@), notify_kinds()),
        ensures
            notification@ == notification_of(views(parameters@), id),
    {
        let ghost given = views(parameters@);
        let mut rest = parameters;
        assert(given[7].kind() == notify_kinds()[7]);
        assert(given[6].kind() == notify_kinds()[6]);
        assert(given[5].kind() == notify_kinds()[5]);
        assert(given[4].kind() == notify_kinds()[4]);
        assert(given[3].kind() == notify_kinds()[3]);
        assert(given[2].kind() == notify_kinds()[2]);
        assert(given[1].kind() == notify_kinds()[1]);
        assert(given[0].kind() == notify_kinds()[0]);
        let expire_timeout = match rest.pop() {
            Some(Value::Int32(t)) => t,
            _ => unreached(),
        };
        let hints = match rest.pop() {
            Some(Value::Dictionary(entries)) => entries,
            _ => unreached(),
        };
        let actions = match rest.pop() {
            Some(Value::TextArray(items)) => items,
            _ => unreached(),
        };
        let body = match rest.pop() {
            Some(Value::Text(s)) => s,
            _ => unreached(),
        };
        let summary = match rest.pop() {
            Some(Value::Text(s)) => s,
            _ => unreached(),
        };
        let app_icon = match rest.pop() {
            Some(Value::Text(s)) => s,
            _ => unreached(),
        };
        let replaces_id = match rest.pop() {
            Some(Value::Uint32(r)) => r,
            _ => unreached(),
        };
        let app_name = match rest.pop() {
            Some(Value::Text(s)) => s,
            _ => unreached(),
        };
        Notification {
            id,
            app_name,
            replaces_id,
            app_icon,
            summary,
            body,
            actions,
            hints,
            expire_timeout,
        }
    }
}

} // verus!
