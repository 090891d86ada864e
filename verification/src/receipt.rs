//! What a command that succeeded hands back for the host to publish.

use vstd::prelude::*;

verus! {

/// A key and a value.
#[derive(Clone, Debug, PartialEq)]
pub struct Attribute {
    pub key: String,
    pub value: String,
}

impl DeepView for Attribute {
    type V = (Seq<char>, Seq<char>);

    open spec fn deep_view(&self) -> (Seq<char>, Seq<char>) {
        (self.key@, self.value@)
    }
}

/// A typed notice with its attributes.
#[derive(Clone, Debug, PartialEq)]
pub struct Notice {
    pub ty: String,
    pub attributes: Vec<Attribute>,
}

impl DeepView for Notice {
    type V = (Seq<char>, Seq<(Seq<char>, Seq<char>)>);

    open spec fn deep_view(&self) -> (Seq<char>, Seq<(Seq<char>, Seq<char>)>) {
        (self.ty@, self.attributes.deep_view())
    }
}

/// The attributes and the notices of one command. There is no other payload.
#[derive(Clone, Debug, PartialEq)]
pub struct Receipt {
    pub attributes: Vec<Attribute>,
    pub events: Vec<Notice>,
}

/// A receipt as contracts speak of it.
pub struct ReceiptView {
    pub attributes: Seq<(Seq<char>, Seq<char>)>,
    pub events: Seq<(Seq<char>, Seq<(Seq<char>, Seq<char>)>)>,
}

impl View for Receipt {
    type V = ReceiptView;

    open spec fn view(&self) -> ReceiptView {
        ReceiptView { attributes: self.attributes.deep_view(), events: self.events.deep_view() }
    }
}

/// The receipt of a registration: the attribute `register_event` with the
/// event's name.
pub open spec fn registration_receipt(name: Seq<char>) -> ReceiptView {
    ReceiptView { attributes: seq![("register_event"@, name)], events: seq![] }
}

/// The receipt of a minting: the notice `mint-badge` with the event's name and
/// the attendee.
pub open spec fn minting_receipt(event: Seq<char>, attendee: Seq<char>) -> ReceiptView {
    ReceiptView {
        attributes: seq![],
        events: seq![("mint-badge"@, seq![("event"@, event), ("attendee"@, attendee)])],
    }
}

impl Receipt {
    /// The receipt of the registration of `name`.
    pub fn registered(name: String) -> (receipt: Receipt)
        ensures
            receipt@ == registration_receipt(name@),
    {
        let mut attributes: Vec<Attribute> = Vec::new();
        attributes.push(Attribute { key: "register_event".to_owned(), value: name });
        let events: Vec<Notice> = Vec::new();
        let receipt = Receipt { attributes, events };
        assert(receipt@.attributes =~= registration_receipt(name@).attributes);
        assert(receipt@.events =~= registration_receipt(name@).events);
        receipt
    }

    /// The receipt of the minting of a badge of `event` for `attendee`.
    pub fn minted(event: String, attendee: String) -> (receipt: Receipt)
        ensures
            receipt@ == minting_receipt(event@, attendee@),
    {
        let mut inner: Vec<Attribute> = Vec::new();
        inner.push(Attribute { key: "event".to_owned(), value: event });
        inner.push(Attribute { key: "attendee".to_owned(), value: attendee });
        assert(inner.deep_view() =~= seq![("event"@, event@), ("attendee"@, attendee@)]);
        let mut events: Vec<Notice> = Vec::new();
        events.push(Notice { ty: "mint-badge".to_owned(), attributes: inner });
        let attributes: Vec<Attribute> = Vec::new();
        let receipt = Receipt { attributes, events };
        assert(receipt@.attributes =~= minting_receipt(event@, attendee@).attributes);
        assert(receipt@.events =~= minting_receipt(event@, attendee@).events);
        receipt
    }
}

} // verus!
