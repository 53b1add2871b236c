//! Protocol schema: the names under which the daemon is reachable, the
//! methods it answers, and the shape of their arguments.

use vstd::prelude::*;
use crate::notification::Hint;

verus! {

/// Well-known bus name that the daemon owns.
pub const NOTIFICATION_DBUS_NAME: &'static str = "org.freedesktop.Notifications";

/// Path of the one object that the daemon registers.
pub const NOTIFICATION_DBUS_PATH: &'static str = "/org/freedesktop/Notifications";

/// Interface under which the methods are exposed.
pub const NOTIFICATION_DBUS_INTERFACE: &'static str = "org.freedesktop.Notifications";

/// Description of the interface, as the bus expects it at registration.
pub const NOTIFICATION_INTROSPECTION_XML: &'static str = "<node>
  <interface name=\"org.freedesktop.Notifications\">
    <method name=\"GetServerInformation\">
      <arg type=\"s\" name=\"name\" direction=\"out\"/>
      <arg type=\"s\" name=\"vendor\" direction=\"out\"/>
      <arg type=\"s\" name=\"version\" direction=\"out\"/>
      <arg type=\"s\" name=\"spec_version\" direction=\"out\"/>
    </method>
    <method name=\"Notify\">
      <arg type=\"s\" name=\"app_name\" direction=\"in\"/>
      <arg type=\"u\" name=\"replaces_id\" direction=\"in\"/>
      <arg type=\"s\" name=\"app_icon\" direction=\"in\"/>
      <arg type=\"s\" name=\"summary\" direction=\"in\"/>
      <arg type=\"s\" name=\"body\" direction=\"in\"/>
      <arg type=\"as\" name=\"actions\" direction=\"in\"/>
      <arg type=\"a{sv}\" name=\"hints\" direction=\"in\"/>
      <arg type=\"i\" name=\"expire_timeout\" direction=\"in\"/>
      <arg type=\"u\" name=\"id\" direction=\"out\"/>
    </method>
  </interface>
</node>
";

/// The operations that can be invoked remotely.
#[derive(Clone, Copy, Debug, PartialEq, Eq, Structural)]
pub enum Method {
    GetServerInformation,
    Notify,
}

/// The method that a name stands for, if any.
pub open spec fn method_of(name: Seq<char>) -> Option<Method> {
    if name == "GetServerInformation"@ {
        Some(Method::GetServerInformation)
    } else if name == "Notify"@ {
        Some(Method::Notify)
    } else {
        None
    }
}

/// Each method is found under its own name.
pub proof fn lemma_methods_have_their_names()
    ensures
        method_of("GetServerInformation"@) == Some(Method::GetServerInformation),
        method_of("Notify"@) == Some(Method::Notify),
{
    reveal_strlit("GetServerInformation");
    reveal_strlit("Notify");
    assert("GetServerInformation"@.len() == 20);
    assert("Notify"@.len() == 6);
}

/// Identifies a method by its name. Names outside the schema give `None`.
pub fn method_named(name: &str) -> (method: Option<Method>)
    ensures
        method == method_of(name@),
{
    let name = name.to_owned();
    if name == "GetServerInformation".to_owned() {
        Some(Method::GetServerInformation)
    } else if name == "Notify".to_owned() {
        Some(Method::Notify)
    } else {
        None
    }
}

/// Type of one positional argument.
#[derive(Clone, Copy, Debug, PartialEq, Eq, Structural)]
pub enum Kind {
    /// `s`
    Text,
    /// `u`
    Uint32,
    /// `i`
    Int32,
    /// `as`
    TextArray,
    /// `a{sv}`
    Dictionary,
    /// Any type that the schema does not use.
    Other,
}

/// The kind that a type code of the wire stands for. Codes that the schema
/// does not use stand for [`Kind::Other`].
pub open spec fn kind_of_code(code: Seq<char>) -> Kind {
    if code == "s"@ {
        Kind::Text
    } else if code == "u"@ {
        Kind::Uint32
    } else if code == "i"@ {
        Kind::Int32
    } else if code == "as"@ {
        Kind::TextArray
    } else if code == "a{sv}"@ {
        Kind::Dictionary
    } else {
        Kind::Other
    }
}

impl Kind {
    /// The type code of this kind on the wire. [`Kind::Other`] has none.
    pub open spec fn code_of(self) -> Option<Seq<char>> {
        match self {
            Kind::Text => Some("s"@),
            Kind::Uint32 => Some("u"@),
            Kind::Int32 => Some("i"@),
            Kind::TextArray => Some("as"@),
            Kind::Dictionary => Some("a{sv}"@),
            Kind::Other => None,
        }
    }

    /// The type code of this kind on the wire, if it has one.
    pub fn code(self) -> (code: Option<&'static str>)
        ensures
            code is Some <==> self != Kind::Other,
            match code {
                Some(text) => self.code_of() == Some(text@),
                None => self.code_of() is None,
            },
    {
        match self {
            Kind::Text => Some("s"),
            Kind::Uint32 => Some("u"),
            Kind::Int32 => Some("i"),
            Kind::TextArray => Some("as"),
            Kind::Dictionary => Some("a{sv}"),
            Kind::Other => None,
        }
    }

    /// Reads a type code of the wire.
    pub fn from_code(code: &str) -> (kind: Kind)
        ensures
            kind == kind_of_code(code@),
    {
        let code = code.to_owned();
        if code == "s".to_owned() {
            Kind::Text
        } else if code == "u".to_owned() {
            Kind::Uint32
        } else if code == "i".to_owned() {
            Kind::Int32
        } else if code == "as".to_owned() {
            Kind::TextArray
        } else if code == "a{sv}".to_owned() {
            Kind::Dictionary
        } else {
            Kind::Other
        }
    }
}

/// Each kind of the schema is read back from its own type code.
pub proof fn lemma_code_names_its_kind(kind: Kind)
    requires
        kind != Kind::Other,
    ensures
        kind.code_of() matches Some(code) && kind_of_code(code) == kind,
{
    reveal_strlit("s");
    reveal_strlit("u");
    reveal_strlit("i");
    reveal_strlit("as");
    reveal_strlit("a{sv}");
    assert("s"@.len() == 1 && "u"@.len() == 1 && "i"@.len() == 1);
    assert("as"@.len() == 2 && "a{sv}"@.len() == 5);
    assert("s"@[0] == 's' && "u"@[0] == 'u' && "i"@[0] == 'i');
}

/// One positional argument of a call or of a reply.
#[derive(Clone, Debug, PartialEq, Eq)]
pub enum Value {
    Text(String),
    Uint32(u32),
    Int32(i32),
    TextArray(Vec<String>),
    Dictionary(Vec<Hint>),
    /// A value of a type that the schema does not use.
    Other,
}

/// Mathematical content of a [`Value`].
pub enum ValueView {
    Text(Seq<char>),
    Uint32(u32),
    Int32(i32),
    TextArray(Seq<Seq<char>>),
    Dictionary(Seq<Hint>),
    Other,
}

impl View for Value {
    type V = ValueView;

    open spec fn view(&self) -> ValueView {
        match *self {
            Value::Text(s) => ValueView::Text(s@),
            Value::Uint32(n) => ValueView::Uint32(n),
            Value::Int32(n) => ValueView::Int32(n),
            Value::TextArray(items) => ValueView::TextArray(items.deep_view()),
            Value::Dictionary(entries) => ValueView::Dictionary(entries@),
            Value::Other => ValueView::Other,
        }
    }
}

impl ValueView {
    pub open spec fn kind(self) -> Kind {
        match self {
            ValueView::Text(_) => Kind::Text,
            ValueView::Uint32(_) => Kind::Uint32,
            ValueView::Int32(_) => Kind::Int32,
            ValueView::TextArray(_) => Kind::TextArray,
            ValueView::Dictionary(_) => Kind::Dictionary,
            ValueView::Other => Kind::Other,
        }
    }
}

impl Value {
    /// The type of this value.
    pub fn kind(&self) -> (kind: Kind)
        ensures
            kind == self@.kind(),
    {
        match self {
            Value::Text(_) => Kind::Text,
            Value::Uint32(_) => Kind::Uint32,
            Value::Int32(_) => Kind::Int32,
            Value::TextArray(_) => Kind::TextArray,
            Value::Dictionary(_) => Kind::Dictionary,
            Value::Other => Kind::Other,
        }
    }
}

/// The contents of a tuple of values.
pub open spec fn views(values: Seq<Value>) -> Seq<ValueView> {
    values.map_values(|v: Value| v@)
}

/// Argument types of `Notify`: `(susssasa{sv}i)`.
pub open spec fn notify_kinds() -> Seq<Kind> {
    seq![
        Kind::Text,
        Kind::Uint32,
        Kind::Text,
        Kind::Text,
        Kind::Text,
        Kind::TextArray,
        Kind::Dictionary,
        Kind::Int32,
    ]
}

/// Argument types of `Notify`, in order.
pub fn notify_signature() -> (signature: Vec<Kind>)
    ensures
        signature@ == notify_kinds(),
{
    let signature = vec![
        Kind::Text,
        Kind::Uint32,
        Kind::Text,
        Kind::Text,
        Kind::Text,
        Kind::TextArray,
        Kind::Dictionary,
        Kind::Int32,
    ];
    assert(signature@ =~= notify_kinds());
    signature
}

/// Types of the values that a method answers with: `(ssss)` for
/// `GetServerInformation`, `(u)` for `Notify`.
pub open spec fn reply_kinds(method: Method) -> Seq<Kind> {
    match method {
        Method::GetServerInformation => seq![Kind::Text, Kind::Text, Kind::Text, Kind::Text],
        Method::Notify => seq![Kind::Uint32],
    }
}

/// A tuple conforms to a signature when it has as many values as the
/// signature has types, and each value has the type at its position.
pub open spec fn conforms_to(parameters: Seq<ValueView>, signature: Seq<Kind>) -> bool {
    &&& parameters.len() == signature.len()
    &&& forall|i: int| 0 <= i < signature.len() ==> (#[trigger] parameters[i]).kind() == signature[i]
}

/// Tells whether `parameters` conforms to `signature`.
pub fn conforms(parameters: &Vec<Value>, signature: &Vec<Kind>) -> (ok: bool)
    ensures
        ok == conforms_to(views(parameters@), signature@),
{
    if parameters.len() != signature.len() {
        return false;
    }
    let mut i: usize = 0;
    while i < parameters.len()
        invariant
            i <= parameters.len(),
            parameters.len() == signature.len(),
            forall|j: int| 0 <= j < i ==> (#[trigger] views(parameters@)[j]).kind() == signature@[j],
        decreases parameters.len() - i,
    {
        if parameters[i].kind() != signature[i] {
            assert(views(parameters@)[i as int].kind() != signature@[i as int]);
            return false;
        }
        i = i + 1;
    }
    true
}

/// Tells whether a call of the method named `method_name` may carry
/// `parameters`: the arguments of `Notify` must conform to its signature,
/// those of every other name are not looked at.
pub open spec fn well_typed(method_name: Seq<char>, parameters: Seq<ValueView>) -> bool {
    method_of(method_name) == Some(Method::Notify) ==> conforms_to(parameters, notify_kinds())
}

/// Tells whether the call is well typed.
pub fn is_well_typed(method_name: &str, parameters: &Vec<Value>) -> (ok: bool)
    ensures
        ok == well_typed(method_name@, views(parameters@)),
{
    match method_named(method_name) {
        Some(Method::Notify) => {
            let signature = notify_signature();
            conforms(parameters, &signature)
        },
        _ => true,
    }
}

/// What `GetServerInformation` answers: name, vendor, version and the
/// version of the notification specification that the daemon follows.
pub open spec fn server_information() -> Seq<ValueView> {
    seq![
        ValueView::Text("My Rust Server"@),
        ValueView::Text("Rust GTK"@),
        ValueView::Text("1.0"@),
        ValueView::Text("1.2"@),
    ]
}

/// Builds the answer to `GetServerInformation`.
pub fn get_server_information() -> (reply: Vec<Value>)
    ensures
        views(reply@) == server_information(),
{
    let reply = vec![
        Value::Text("My Rust Server".to_owned()),
        Value::Text("Rust GTK".to_owned()),
        Value::Text("1.0".to_owned()),
        Value::Text("1.2".to_owned()),
    ];
    assert(views(reply@) =~= server_information());
    reply
}

} // verus!
