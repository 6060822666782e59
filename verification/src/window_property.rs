//! What is read out of window properties: lists of windows, names and classes.
use crate::text::{encoded_text_is_read_back, from_utf8_lossy, has_no_nul, text_of};
use crate::x11::{steady, AtomName, Property, PropertyType, Reply, Request};
use vstd::prelude::*;
use vstd::slice::slice_subrange;
use vstd::utf8::encode_utf8;

verus! {

/// The order in which the bytes of a 32-bit value stand in a property.
#[derive(Clone, Copy, Debug, PartialEq, Eq, Structural)]
pub enum ByteOrder {
    Little,
    Big,
}

/// The 32-bit value that four bytes stand for.
pub open spec fn word(order: ByteOrder, b0: u8, b1: u8, b2: u8, b3: u8) -> u32 {
    match order {
        ByteOrder::Little => (b0 + b1 * 0x100 + b2 * 0x1_0000 + b3 * 0x100_0000) as u32,
        ByteOrder::Big => (b3 + b2 * 0x100 + b1 * 0x1_0000 + b0 * 0x100_0000) as u32,
    }
}

/// Calls `u32::from_ne_bytes`.
///
/// Trusted: the value is read either least or most significant byte first. Which of the two
/// depends on the machine and is not said.
#[verifier::external_body]
fn from_ne_bytes(bytes: [u8; 4]) -> (value: u32)
    ensures
        value == word(ByteOrder::Little, bytes@[0], bytes@[1], bytes@[2], bytes@[3]) || value
            == word(ByteOrder::Big, bytes@[0], bytes@[1], bytes@[2], bytes@[3]),
{
    u32::from_ne_bytes(bytes)
}

/// Whether `order` is one in which [`from_ne_bytes`] reads: what the bytes 1, 0, 0, 0 stand for in
/// that order is an outcome of calling it on them. Only a call can show this of an order.
pub closed spec fn is_native(order: ByteOrder) -> bool {
    exists|bytes: [u8; 4]|
        bytes@ == seq![1u8, 0u8, 0u8, 0u8] && #[trigger] call_ensures(
            from_ne_bytes,
            (bytes,),
            word(order, 1, 0, 0, 0),
        )
}

/// The byte order of this machine.
pub(crate) fn native_order() -> (order: ByteOrder)
    ensures
        is_native(order),
{
    let bytes: [u8; 4] = [1, 0, 0, 0];
    let value: u32 = from_ne_bytes(bytes);
    assert(bytes@ =~= seq![1u8, 0u8, 0u8, 0u8]);
    if value == 1 {
        ByteOrder::Little
    } else {
        ByteOrder::Big
    }
}

/// The window ids that stand in the value of a property, four bytes each; a rest of fewer than
/// four bytes does not count.
pub open spec fn window_ids(order: ByteOrder, value: Seq<u8>) -> Seq<u32> {
    Seq::new(
        (value.len() / 4) as nat,
        |i: int| word(order, value[4 * i], value[4 * i + 1], value[4 * i + 2], value[4 * i + 3]),
    )
}

fn read_word(order: ByteOrder, b0: u8, b1: u8, b2: u8, b3: u8) -> (value: u32)
    ensures
        value == word(order, b0, b1, b2, b3),
{
    match order {
        ByteOrder::Little => b0 as u32 + b1 as u32 * 0x100 + b2 as u32 * 0x1_0000 + b3 as u32
            * 0x100_0000,
        ByteOrder::Big => b3 as u32 + b2 as u32 * 0x100 + b1 as u32 * 0x1_0000 + b0 as u32
            * 0x100_0000,
    }
}

/// See [`window_ids`].
pub fn parse_window_ids(order: ByteOrder, value: &[u8]) -> (ids: Vec<u32>)
    ensures
        ids@ == window_ids(order, value@),
{
    let len: usize = value.len();
    let count: usize = len / 4;
    let mut ids: Vec<u32> = Vec::new();
    let mut i: usize = 0;
    while i < count
        invariant
            len == value@.len(),
            i <= count == len / 4,
            ids@ == window_ids(order, value@).take(i as int),
        decreases count - i,
    {
        ids.push(
            read_word(order, value[4 * i], value[4 * i + 1], value[4 * i + 2], value[4 * i + 3]),
        );
        i = i + 1;
        assert(ids@ =~= window_ids(order, value@).take(i as int));
    }
    assert(ids@ =~= window_ids(order, value@));
    ids
}

/// The text of a property: what its value stands for, if the property is there and not empty.
pub open spec fn property_text(kind: u32, value: Seq<u8>) -> Option<Seq<char>> {
    if kind != 0 && value.len() != 0 {
        Some(text_of(value))
    } else {
        None
    }
}

/// An optional string by its view.
pub open spec fn opt_view(text: Option<String>) -> Option<Seq<char>> {
    match text {
        Some(text) => Some(text@),
        None => None,
    }
}

/// See [`property_text`]. Text that is found is not empty, and without NUL if the value is.
pub fn read_text(kind: u32, value: &[u8]) -> (text: Option<String>)
    ensures
        opt_view(text) == property_text(kind, value@),
        text matches Some(text) ==> text@.len() > 0 && (!value@.contains(0u8) ==> has_no_nul(
            text@,
        )),
{
    if kind != 0 && value.len() != 0 {
        Some(from_utf8_lossy(value))
    } else {
        None
    }
}

/// Where the first NUL at or after `from` stands; the length of `bytes` if there is none.
pub open spec fn next_nul(bytes: Seq<u8>, from: int) -> int
    decreases bytes.len() - from,
{
    if from >= bytes.len() || bytes[from] == 0 {
        from
    } else {
        next_nul(bytes, from + 1)
    }
}

/// The stretches between the NULs of `bytes`, from `from` on: always one more than there are NULs.
pub open spec fn nul_separated(bytes: Seq<u8>, from: int) -> Seq<Seq<u8>>
    decreases bytes.len() - from,
    when 0 <= from <= bytes.len()
    via nul_separated_decreases
{
    let nul = next_nul(bytes, from);
    if nul >= bytes.len() {
        seq![bytes.subrange(from, bytes.len() as int)]
    } else {
        seq![bytes.subrange(from, nul)] + nul_separated(bytes, nul + 1)
    }
}

#[via_fn]
proof fn nul_separated_decreases(bytes: Seq<u8>, from: int) {
    next_nul_is_first(bytes, from);
}

proof fn next_nul_is_first(bytes: Seq<u8>, from: int)
    requires
        0 <= from <= bytes.len(),
    ensures
        from <= next_nul(bytes, from) <= bytes.len(),
        next_nul(bytes, from) < bytes.len() ==> bytes[next_nul(bytes, from)] == 0,
        forall|i: int| from <= i < next_nul(bytes, from) ==> bytes[i] != 0,
    decreases bytes.len() - from,
{
    if from < bytes.len() && bytes[from] != 0 {
        next_nul_is_first(bytes, from + 1);
    }
}

/// The part of a `WM_CLASS` property that counts. Its value is two NUL-terminated strings, instance
/// and class: the class counts, or the instance where the class is missing or empty.
pub open spec fn class_part(value: Seq<u8>) -> Seq<u8> {
    let parts = nul_separated(value, 0);
    if parts.len() >= 2 && parts[1].len() != 0 {
        parts[1]
    } else {
        parts[0]
    }
}

/// The class that a `WM_CLASS` property names: what its [`class_part`] stands for, if the property
/// is there and that part is not empty.
pub open spec fn property_class(kind: u32, value: Seq<u8>) -> Option<Seq<char>> {
    if kind != 0 && value.len() != 0 && class_part(value).len() != 0 {
        Some(text_of(class_part(value)))
    } else {
        None
    }
}

fn find_nul(bytes: &[u8], from: usize) -> (nul: usize)
    requires
        from <= bytes@.len(),
    ensures
        nul == next_nul(bytes@, from as int),
        from <= nul <= bytes@.len(),
{
    let mut nul: usize = from;
    while nul < bytes.len() && bytes[nul] != 0
        invariant
            from <= nul <= bytes@.len(),
            next_nul(bytes@, from as int) == next_nul(bytes@, nul as int),
        decreases bytes@.len() - nul,
    {
        nul = nul + 1;
    }
    nul
}

/// See [`property_class`]. A class that is found is not empty and holds no NUL.
pub fn read_class(kind: u32, value: &[u8]) -> (class: Option<String>)
    ensures
        opt_view(class) == property_class(kind, value@),
        class matches Some(class) ==> class@.len() > 0 && has_no_nul(class@),
{
    if kind == 0 || value.len() == 0 {
        return None;
    }
    reveal_with_fuel(nul_separated, 3);
    let first: usize = find_nul(value, 0);
    proof {
        next_nul_is_first(value@, 0);
        assert(!value@.subrange(0, first as int).contains(0u8));
    }
    if first < value.len() {
        let second: usize = find_nul(value, first + 1);
        if second > first + 1 {
            proof {
                next_nul_is_first(value@, first + 1);
                assert(!value@.subrange(first + 1, second as int).contains(0u8));
            }
            return Some(from_utf8_lossy(slice_subrange(value, first + 1, second)));
        }
    }
    if first > 0 {
        return Some(from_utf8_lossy(slice_subrange(value, 0, first)));
    }
    None
}

/// Looking up a window's name: `_NET_WM_NAME`, or `WM_NAME` where that is missing or empty.
#[derive(Clone, Copy, Debug, PartialEq, Eq, Structural)]
pub enum NameQuery {
    NetWmNameAtom { window: u32 },
    Utf8Atom { window: u32, net_wm_name: u32 },
    NetWmName { window: u32, net_wm_name: u32, utf8_string: u32 },
    WmName { window: u32 },
}

/// Where a [`NameQuery`] stands after a reply.
#[derive(Debug)]
pub enum NameStep {
    Ask(NameQuery),
    /// The name, if the window has one.
    Found(Option<String>),
    Failed(String),
}

/// A [`NameStep`] by its view.
pub enum NameStepView {
    Ask(NameQuery),
    Found(Option<Seq<char>>),
    Failed(Seq<char>),
}

impl View for NameStep {
    type V = NameStepView;

    open spec fn view(&self) -> NameStepView {
        match *self {
            NameStep::Ask(query) => NameStepView::Ask(query),
            NameStep::Found(name) => NameStepView::Found(opt_view(name)),
            NameStep::Failed(message) => NameStepView::Failed(message@),
        }
    }
}

impl NameQuery {
    /// The window whose name is looked up.
    pub open spec fn window(self) -> u32 {
        match self {
            NameQuery::NetWmNameAtom { window } => window,
            NameQuery::Utf8Atom { window, .. } => window,
            NameQuery::NetWmName { window, .. } => window,
            NameQuery::WmName { window } => window,
        }
    }

    /// What is asked next.
    pub open spec fn asks(self) -> Request {
        match self {
            NameQuery::NetWmNameAtom { .. } => Request::InternAtom(AtomName::NetWmName),
            NameQuery::Utf8Atom { .. } => Request::InternAtom(AtomName::Utf8String),
            NameQuery::NetWmName { window, net_wm_name, utf8_string } => Request::GetProperty {
                window,
                property: Property::Atom(net_wm_name),
                kind: PropertyType::Atom(utf8_string),
            },
            NameQuery::WmName { window } => Request::GetProperty {
                window,
                property: Property::WmName,
                kind: PropertyType::String,
            },
        }
    }

    /// What follows from `reply`. Any failure ends the query.
    pub open spec fn after(self, reply: Reply) -> NameStepView
        recommends
            reply.answers(self.asks()),
    {
        match (self, reply) {
            (NameQuery::NetWmNameAtom { window }, Reply::Atom(atom)) => NameStepView::Ask(
                NameQuery::Utf8Atom { window, net_wm_name: atom },
            ),
            (NameQuery::Utf8Atom { window, net_wm_name }, Reply::Atom(atom)) => NameStepView::Ask(
                NameQuery::NetWmName { window, net_wm_name, utf8_string: atom },
            ),
            (NameQuery::NetWmName { window, .. }, Reply::Property { kind, value }) => {
                if property_text(kind, value@) is Some {
                    NameStepView::Found(property_text(kind, value@))
                } else {
                    NameStepView::Ask(NameQuery::WmName { window })
                }
            },
            (NameQuery::WmName { .. }, Reply::Property { kind, value }) => NameStepView::Found(
                property_text(kind, value@),
            ),
            _ => NameStepView::Failed(reply.failure()->0),
        }
    }

    /// Starts looking up the name of `window`.
    pub fn get_window_name(window: u32) -> (query: NameQuery)
        ensures
            query == (NameQuery::NetWmNameAtom { window }),
    {
        NameQuery::NetWmNameAtom { window }
    }

    /// See [`NameQuery::asks`].
    pub fn request(&self) -> (request: Request)
        ensures
            request == self.asks(),
    {
        match *self {
            NameQuery::NetWmNameAtom { .. } => Request::InternAtom(AtomName::NetWmName),
            NameQuery::Utf8Atom { .. } => Request::InternAtom(AtomName::Utf8String),
            NameQuery::NetWmName { window, net_wm_name, utf8_string } => Request::GetProperty {
                window,
                property: Property::Atom(net_wm_name),
                kind: PropertyType::Atom(utf8_string),
            },
            NameQuery::WmName { window } => Request::GetProperty {
                window,
                property: Property::WmName,
                kind: PropertyType::String,
            },
        }
    }

    /// Takes the reply to [`NameQuery::request`]. A name that is found is not empty, and without
    /// NUL if the property's value is.
    pub fn advance(self, reply: Reply) -> (step: NameStep)
        requires
            reply.answers(self.asks()),
        ensures
            step@ == self.after(reply),
            step matches NameStep::Found(Some(name)) ==> name@.len() > 0 && (
            reply matches Reply::Property { value, .. } ==> (!value@.contains(0u8) ==> has_no_nul(
                name@,
            ))),
    {
        match reply {
            Reply::SendFailed(message) => NameStep::Failed(message),
            Reply::ReplyFailed(message) => NameStep::Failed(message),
            Reply::Atom(atom) => match self {
                NameQuery::NetWmNameAtom { window } => NameStep::Ask(
                    NameQuery::Utf8Atom { window, net_wm_name: atom },
                ),
                NameQuery::Utf8Atom { window, net_wm_name } => NameStep::Ask(
                    NameQuery::NetWmName { window, net_wm_name, utf8_string: atom },
                ),
                _ => unreached(),
            },
            Reply::Property { kind, value } => {
                let text = read_text(kind, value.as_slice());
                match self {
                    NameQuery::NetWmName { window, .. } => {
                        if text.is_some() {
                            NameStep::Found(text)
                        } else {
                            NameStep::Ask(NameQuery::WmName { window })
                        }
                    },
                    _ => NameStep::Found(text),
                }
            },
            _ => unreached(),
        }
    }
}

/// What is asked for the class of `window`.
pub open spec fn class_request(window: u32) -> Request {
    Request::GetProperty { window, property: Property::WmClass, kind: PropertyType::String }
}

/// The class that the reply to [`class_request`] names.
pub open spec fn class_in(reply: Reply) -> Result<Option<Seq<char>>, Seq<char>> {
    match reply {
        Reply::Property { kind, value } => Ok(property_class(kind, value@)),
        _ => Err(reply.failure()->0),
    }
}

/// See [`class_request`].
pub fn ask_window_class(window: u32) -> (request: Request)
    ensures
        request == class_request(window),
{
    Request::GetProperty { window, property: Property::WmClass, kind: PropertyType::String }
}

/// See [`class_in`]. A class that is found is not empty and holds no NUL.
pub fn get_window_class(reply: Reply) -> (class: Result<Option<String>, String>)
    requires
        reply is Property || reply is SendFailed || reply is ReplyFailed,
    ensures
        match class {
            Ok(class) => class_in(reply) == Ok::<Option<Seq<char>>, Seq<char>>(opt_view(class)),
            Err(message) => class_in(reply) == Err::<Option<Seq<char>>, Seq<char>>(message@),
        },
        class matches Ok(Some(class)) ==> class@.len() > 0 && has_no_nul(class@),
{
    match reply {
        Reply::Property { kind, value } => Ok(read_class(kind, value.as_slice())),
        Reply::SendFailed(message) => Err(message),
        Reply::ReplyFailed(message) => Err(message),
        _ => unreached(),
    }
}

/// The name of `window` on a steady server: the text of `_NET_WM_NAME` read as `UTF8_STRING`,
/// else the text of `WM_NAME` read as `STRING`; or the message of the first lookup that fails.
pub open spec fn name_on(
    server: spec_fn(Request) -> Reply,
    window: u32,
) -> Result<Option<Seq<char>>, Seq<char>> {
    match (
        server(Request::InternAtom(AtomName::NetWmName)),
        server(Request::InternAtom(AtomName::Utf8String)),
    ) {
        (Reply::Atom(net_wm_name), Reply::Atom(utf8_string)) => {
            match server(
                Request::GetProperty {
                    window,
                    property: Property::Atom(net_wm_name),
                    kind: PropertyType::Atom(utf8_string),
                },
            ) {
                Reply::Property { kind, value } if property_text(kind, value@) is Some => Ok(
                    property_text(kind, value@),
                ),
                Reply::Property { .. } => match server(
                    Request::GetProperty {
                        window,
                        property: Property::WmName,
                        kind: PropertyType::String,
                    },
                ) {
                    Reply::Property { kind, value } => Ok(property_text(kind, value@)),
                    failed => Err(failed.failure()->0),
                },
                failed => Err(failed.failure()->0),
            }
        },
        (Reply::Atom(_), failed) => Err(failed.failure()->0),
        (failed, _) => Err(failed.failure()->0),
    }
}

/// Where `query` stands after at most `steps` replies of a steady server.
pub open spec fn name_run(
    query: NameQuery,
    server: spec_fn(Request) -> Reply,
    steps: nat,
) -> NameStepView
    decreases steps,
{
    if steps == 0 {
        NameStepView::Ask(query)
    } else {
        match query.after(server(query.asks())) {
            NameStepView::Ask(next) => name_run(next, server, (steps - 1) as nat),
            end => end,
        }
    }
}

/// The end of a name query that came to `name`.
pub open spec fn name_end(name: Result<Option<Seq<char>>, Seq<char>>) -> NameStepView {
    match name {
        Ok(name) => NameStepView::Found(name),
        Err(message) => NameStepView::Failed(message),
    }
}

/// A name query ends after at most four replies, with the window's name.
pub proof fn name_query_finds_the_name(server: spec_fn(Request) -> Reply, window: u32)
    requires
        steady(server),
    ensures
        name_run(NameQuery::NetWmNameAtom { window }, server, 4) == name_end(
            name_on(server, window),
        ),
{
    reveal_with_fuel(name_run, 5);
    assert(server(Request::InternAtom(AtomName::NetWmName)).answers(
        Request::InternAtom(AtomName::NetWmName),
    ));
    assert(server(Request::InternAtom(AtomName::Utf8String)).answers(
        Request::InternAtom(AtomName::Utf8String),
    ));
    let wm_name = Request::GetProperty {
        window,
        property: Property::WmName,
        kind: PropertyType::String,
    };
    assert(server(wm_name).answers(wm_name));
    if let Reply::Atom(net_wm_name) = server(Request::InternAtom(AtomName::NetWmName)) {
        if let Reply::Atom(utf8_string) = server(Request::InternAtom(AtomName::Utf8String)) {
            let net = Request::GetProperty {
                window,
                property: Property::Atom(net_wm_name),
                kind: PropertyType::Atom(utf8_string),
            };
            assert(server(net).answers(net));
        }
    }
}

/// A property that holds a text in UTF-8 is read as that text.
pub proof fn utf8_property_is_read_back(kind: u32, text: Seq<char>)
    requires
        kind != 0,
        text.len() > 0,
    ensures
        property_text(kind, encode_utf8(text)) == Some(text),
{
    encoded_text_is_read_back(text);
    if encode_utf8(text).len() == 0 {
        assert(encode_utf8(text) =~= encode_utf8(Seq::<char>::empty()));
        encoded_text_is_read_back(Seq::empty());
    }
}

proof fn next_nul_is_there(bytes: Seq<u8>, from: int, nul: int)
    requires
        0 <= from <= nul < bytes.len(),
        bytes[nul] == 0,
        forall|i: int| from <= i < nul ==> bytes[i] != 0,
    ensures
        next_nul(bytes, from) == nul,
{
    next_nul_is_first(bytes, from);
}

/// Of two NUL-terminated strings, the second is the class, unless it is empty: then it is the
/// first.
pub proof fn class_is_the_second_string(instance: Seq<u8>, class: Seq<u8>)
    requires
        !instance.contains(0u8),
        !class.contains(0u8),
    ensures
        class_part(instance + seq![0u8] + class + seq![0u8]) == if class.len() != 0 {
            class
        } else {
            instance
        },
{
    let value = instance + seq![0u8] + class + seq![0u8];
    let first = instance.len() as int;
    let second = first + 1 + class.len();
    assert forall|i: int| 0 <= i < first implies value[i] != 0 by {
        assert(instance.contains(instance[i]));
    }
    assert forall|i: int| first + 1 <= i < second implies value[i] != 0 by {
        assert(class.contains(class[i - first - 1]));
    }
    next_nul_is_there(value, 0, first);
    next_nul_is_there(value, first + 1, second);
    assert(value.subrange(0, first) =~= instance);
    assert(value.subrange(first + 1, second) =~= class);
    reveal_with_fuel(nul_separated, 3);
}

/// Each byte of a word is one of its four digits to the base 256, in either order, and one order
/// reads backwards what the other reads forwards.
pub proof fn word_has_the_bytes_as_digits(b0: u8, b1: u8, b2: u8, b3: u8)
    ensures
        ({
            let value = word(ByteOrder::Little, b0, b1, b2, b3) as int;
            &&& value % 0x100 == b0
            &&& value / 0x100 % 0x100 == b1
            &&& value / 0x1_0000 % 0x100 == b2
            &&& value / 0x100_0000 == b3
        }),
        word(ByteOrder::Big, b0, b1, b2, b3) == word(ByteOrder::Little, b3, b2, b1, b0),
{
}

/// Every full group of four bytes is one window id, in order, with those bytes as its digits; what
/// is left over is none.
pub proof fn ids_have_the_bytes_as_digits(
    order: ByteOrder,
    value: &[u8],
    ids: Vec<u32>,
    i: int,
)
    requires
        call_ensures(parse_window_ids, (order, value), ids),
    ensures
        4 * ids@.len() <= value@.len() < 4 * ids@.len() + 4,
        0 <= i < ids@.len() ==> ({
            let id = ids@[i] as int;
            let (b0, b1, b2, b3) = (
                value@[4 * i],
                value@[4 * i + 1],
                value@[4 * i + 2],
                value@[4 * i + 3],
            );
            match order {
                ByteOrder::Little => {
                    &&& id % 0x100 == b0
                    &&& id / 0x100 % 0x100 == b1
                    &&& id / 0x1_0000 % 0x100 == b2
                    &&& id / 0x100_0000 == b3
                },
                ByteOrder::Big => {
                    &&& id % 0x100 == b3
                    &&& id / 0x100 % 0x100 == b2
                    &&& id / 0x1_0000 % 0x100 == b1
                    &&& id / 0x100_0000 == b0
                },
            }
        }),
{
    if 0 <= i < ids@.len() {
        let (b0, b1, b2, b3) = (
            value@[4 * i],
            value@[4 * i + 1],
            value@[4 * i + 2],
            value@[4 * i + 3],
        );
        word_has_the_bytes_as_digits(b0, b1, b2, b3);
        word_has_the_bytes_as_digits(b3, b2, b1, b0);
    }
}

/// A list of windows that follows another one in a property follows it in what is read: ids do not
/// depend on what stands around them.
pub proof fn ids_are_read_one_by_one(order: ByteOrder, front: Seq<u8>, back: Seq<u8>)
    requires
        front.len() % 4 == 0,
    ensures
        window_ids(order, front + back) == window_ids(order, front) + window_ids(order, back),
{
    assert(window_ids(order, front + back) =~= window_ids(order, front) + window_ids(order, back));
}

/// Text is found just where the property is there and not empty, and it is the text that the
/// property holds in UTF-8.
pub proof fn text_is_what_the_property_holds(
    kind: u32,
    value: &[u8],
    held: Seq<char>,
    text: Option<String>,
)
    requires
        call_ensures(read_text, (kind, value), text),
    ensures
        text is Some <==> kind != 0 && value@.len() > 0,
        text matches Some(text) ==> (value@ == encode_utf8(held) ==> text@ == held),
{
    encoded_text_is_read_back(held);
}

/// The class is what stands after the first NUL, up to the second one or the end. Where nothing
/// stands there, it is what stands before the first NUL, or all there is.
pub proof fn class_stands_after_the_first_nul(instance: Seq<u8>, class: Seq<u8>, rest: Seq<u8>)
    requires
        !instance.contains(0u8),
        !class.contains(0u8),
        rest.len() > 0 ==> rest[0] == 0,
    ensures
        class_part(instance) == instance,
        class_part(instance + seq![0u8] + class + rest) == if class.len() != 0 {
            class
        } else {
            instance
        },
{
    reveal_with_fuel(nul_separated, 3);
    next_nul_is_first(instance, 0);
    if next_nul(instance, 0) < instance.len() {
        assert(instance.contains(instance[next_nul(instance, 0)]));
    }
    assert(instance.subrange(0, instance.len() as int) =~= instance);
    let value = instance + seq![0u8] + class + rest;
    let first = instance.len() as int;
    let second = first + 1 + class.len();
    assert forall|i: int| 0 <= i < first implies value[i] != 0 by {
        assert(instance.contains(instance[i]));
    }
    assert forall|i: int| first + 1 <= i < second implies value[i] != 0 by {
        assert(class.contains(class[i - first - 1]));
    }
    next_nul_is_there(value, 0, first);
    next_nul_is_first(value, first + 1);
    if rest.len() > 0 {
        assert(value[second] == 0);
        next_nul_is_there(value, first + 1, second);
    } else {
        assert(next_nul(value, first + 1) == second) by {
            if next_nul(value, first + 1) < second {
                assert(value[next_nul(value, first + 1)] == 0);
            }
        }
    }
    assert(value.subrange(0, first) =~= instance);
    assert(value.subrange(first + 1, second) =~= class);
}

/// The class that is read from a property holding an instance and a class in UTF-8 is that class,
/// or the instance where there is no class; where there is neither, or no property, it is nothing.
pub proof fn class_is_what_the_property_holds(
    kind: u32,
    value: &[u8],
    instance: Seq<char>,
    class: Seq<char>,
    rest: Seq<u8>,
    found: Option<String>,
)
    requires
        call_ensures(read_class, (kind, value), found),
        value@ == encode_utf8(instance) + seq![0u8] + encode_utf8(class) + rest,
        !encode_utf8(instance).contains(0u8),
        !encode_utf8(class).contains(0u8),
        rest.len() > 0 ==> rest[0] == 0,
    ensures
        found is Some <==> kind != 0 && (instance.len() > 0 || class.len() > 0),
        found matches Some(found) ==> found@ == if class.len() > 0 {
            class
        } else {
            instance
        },
{
    class_stands_after_the_first_nul(encode_utf8(instance), encode_utf8(class), rest);
    encoded_text_is_read_back(instance);
    encoded_text_is_read_back(class);
    encoded_text_is_read_back(Seq::empty());
    assert(encode_utf8(Seq::<char>::empty()) =~= Seq::empty());
    if encode_utf8(class).len() == 0 {
        assert(encode_utf8(class) =~= encode_utf8(Seq::<char>::empty()));
    }
    if encode_utf8(instance).len() == 0 {
        assert(encode_utf8(instance) =~= encode_utf8(Seq::<char>::empty()));
    }
    if class.len() == 0 {
        assert(class =~= Seq::empty());
    }
    if instance.len() == 0 {
        assert(instance =~= Seq::empty());
    }
}

/// A window is named by its `_NET_WM_NAME` in UTF-8; where that is missing or empty, by its
/// `WM_NAME`; where that is missing or empty too, not at all. The first lookup that fails ends the
/// query with its message.
pub proof fn name_is_looked_up_in_order(server: spec_fn(Request) -> Reply, window: u32)
    requires
        steady(server),
    ensures
        ({
            let end = name_run(NameQuery::NetWmNameAtom { window }, server, 4);
            let first = server(Request::InternAtom(AtomName::NetWmName));
            let second = server(Request::InternAtom(AtomName::Utf8String));
            let new = server(
                Request::GetProperty {
                    window,
                    property: Property::Atom(first->Atom_0),
                    kind: PropertyType::Atom(second->Atom_0),
                },
            );
            let old_style = server(
                Request::GetProperty {
                    window,
                    property: Property::WmName,
                    kind: PropertyType::String,
                },
            );
            match (first, second, new, old_style) {
                (
                    Reply::Atom(_),
                    Reply::Atom(_),
                    Reply::Property { kind, value },
                    _,
                ) if kind != 0 && value@.len() > 0 => end == NameStepView::Found(
                    Some(text_of(value@)),
                ),
                (
                    Reply::Atom(_),
                    Reply::Atom(_),
                    Reply::Property { .. },
                    Reply::Property { kind, value },
                ) => end == NameStepView::Found(
                    if kind != 0 && value@.len() > 0 {
                        Some(text_of(value@))
                    } else {
                        None
                    },
                ),
                (
                    Reply::Atom(_),
                    Reply::Atom(_),
                    Reply::Property { .. },
                    failed,
                ) => Some(end->Failed_0) == failed.failure() && end is Failed,
                (Reply::Atom(_), Reply::Atom(_), failed, _) => Some(end->Failed_0)
                    == failed.failure() && end is Failed,
                (Reply::Atom(_), failed, _, _) => Some(end->Failed_0) == failed.failure()
                    && end is Failed,
                (failed, _, _, _) => Some(end->Failed_0) == failed.failure() && end is Failed,
            }
        }),
{
    name_query_finds_the_name(server, window);
    let first = Request::InternAtom(AtomName::NetWmName);
    let second = Request::InternAtom(AtomName::Utf8String);
    let new = Request::GetProperty {
        window,
        property: Property::Atom(server(first)->Atom_0),
        kind: PropertyType::Atom(server(second)->Atom_0),
    };
    let old_style = Request::GetProperty {
        window,
        property: Property::WmName,
        kind: PropertyType::String,
    };
    assert(server(first).answers(first));
    assert(server(second).answers(second));
    assert(server(new).answers(new));
    assert(server(old_style).answers(old_style));
}

/// The class of a window is asked for as its `WM_CLASS`, a string; a failure is handed on, and
/// otherwise the class is read from the property that came.
pub proof fn class_is_asked_for_and_read(
    window: u32,
    request: Request,
    reply: Reply,
    class: Result<Option<String>, String>,
)
    requires
        call_ensures(ask_window_class, (window,), request),
        reply.answers(request),
        call_ensures(get_window_class, (reply,), class),
    ensures
        request == (Request::GetProperty {
            window,
            property: Property::WmClass,
            kind: PropertyType::String,
        }),
        class is Err <==> reply.failure() is Some,
        class matches Err(message) ==> reply.failure() == Some(message@),
        class matches Ok(class) ==> (reply matches Reply::Property { kind, value } ==> {
            &&& class is Some <==> kind != 0 && value@.len() > 0 && class_part(value@).len() > 0
            &&& class matches Some(class) ==> class@ == text_of(class_part(value@))
        }),
{
}

} // verus!
