//! Listing the windows that the window manager manages.
use crate::text::{byte_len, has_no_nul, text_of};
use crate::window_property::{
    ask_window_class, class_in, class_part, class_request, get_window_class, is_native, name_end,
    name_on, name_query_finds_the_name, name_run, native_order, opt_view, parse_window_ids,
    window_ids, ByteOrder, NameQuery, NameStep, NameStepView,
};
use crate::x11::{steady, AtomName, Property, PropertyType, Reply, Request};
use vstd::prelude::*;
use vstd::utf8::encode_utf8;

verus! {

/// A window that can be shown.
#[derive(Debug)]
pub struct WindowEntry {
    pub id: u32,
    pub name: String,
    pub class: String,
}

/// A [`WindowEntry`] by its view.
pub struct EntryView {
    pub id: u32,
    pub name: Seq<char>,
    pub class: Seq<char>,
}

impl View for WindowEntry {
    type V = EntryView;

    open spec fn view(&self) -> EntryView {
        EntryView { id: self.id, name: self.name@, class: self.class@ }
    }
}

impl Clone for WindowEntry {
    fn clone(&self) -> (entry: Self)
        ensures
            entry@ == self@,
    {
        WindowEntry { id: self.id, name: self.name.clone(), class: self.class.clone() }
    }
}

/// A list of windows by its view.
pub open spec fn entries_view(entries: Seq<WindowEntry>) -> Seq<EntryView> {
    entries.map_values(|entry: WindowEntry| entry@)
}

/// Whether a window is listed: one whose name and class are both shorter than two bytes is
/// likely none of the user's.
pub open spec fn is_listed(entry: EntryView) -> bool {
    encode_utf8(entry.name).len() > 1 || encode_utf8(entry.class).len() > 1
}

/// `entries` with `entry` at the end, if it is listed.
pub open spec fn with_listed(entries: Seq<EntryView>, entry: EntryView) -> Seq<EntryView> {
    if is_listed(entry) {
        entries.push(entry)
    } else {
        entries
    }
}

/// Whether an entry has a name and a class to show, the class without NUL.
pub open spec fn is_labelled(entry: EntryView) -> bool {
    entry.name.len() > 0 && entry.class.len() > 0 && has_no_nul(entry.class)
}

/// What the listing is waiting for.
#[derive(Clone, Copy, Debug, PartialEq, Eq, Structural)]
pub enum ListPhase {
    Connection,
    ClientListAtom,
    ClientList { atom: u32 },
    Name(NameQuery),
    Class,
}

/// A listing under way.
#[derive(Debug)]
pub struct WindowLister {
    order: ByteOrder,
    root: u32,
    phase: ListPhase,
    /// The windows to look at.
    ids: Vec<u32>,
    /// Which of them is being looked at.
    at: usize,
    /// Its name, once known.
    name: String,
    entries: Vec<WindowEntry>,
}

/// A [`WindowLister`] by its view.
pub struct ListState {
    pub order: ByteOrder,
    pub root: u32,
    pub phase: ListPhase,
    pub ids: Seq<u32>,
    pub at: int,
    pub name: Seq<char>,
    pub entries: Seq<EntryView>,
}

/// Where a [`WindowLister`] stands after a reply.
#[derive(Debug)]
pub enum ListStep {
    Ask(WindowLister),
    Listed(Vec<WindowEntry>),
    Failed(String),
}

/// A [`ListStep`] by its view.
pub enum ListStepView {
    Ask(ListState),
    Listed(Seq<EntryView>),
    Failed(Seq<char>),
}

impl View for WindowLister {
    type V = ListState;

    closed spec fn view(&self) -> ListState {
        ListState {
            order: self.order,
            root: self.root,
            phase: self.phase,
            ids: self.ids@,
            at: self.at as int,
            name: self.name@,
            entries: entries_view(self.entries@),
        }
    }
}

impl View for ListStep {
    type V = ListStepView;

    open spec fn view(&self) -> ListStepView {
        match *self {
            ListStep::Ask(lister) => ListStepView::Ask(lister@),
            ListStep::Listed(entries) => ListStepView::Listed(entries_view(entries@)),
            ListStep::Failed(message) => ListStepView::Failed(message@),
        }
    }
}

/// What the properties of a window that has none are given as.
pub open spec fn text_or(text: Option<Seq<char>>, default: Seq<char>) -> Seq<char> {
    match text {
        Some(text) => text,
        None => default,
    }
}

impl ListState {
    /// A listing that has not begun yet.
    pub open spec fn start(order: ByteOrder) -> ListState {
        ListState {
            order,
            root: 0,
            phase: ListPhase::Connection,
            ids: Seq::empty(),
            at: 0,
            name: Seq::empty(),
            entries: Seq::empty(),
        }
    }

    /// While windows are looked at, there is one to look at, and its own name is looked up. Names
    /// and classes that are known can be shown.
    pub open spec fn valid(self) -> bool {
        &&& 0 <= self.at <= self.ids.len()
        &&& forall|i: int| 0 <= i < self.entries.len() ==> is_labelled(#[trigger] self.entries[i])
        &&& match self.phase {
            ListPhase::Name(query) => self.at < self.ids.len() && query.window()
                == self.ids[self.at],
            ListPhase::Class => self.at < self.ids.len() && self.name.len() > 0,
            _ => true,
        }
    }

    /// What is asked next.
    pub open spec fn asks(self) -> Request {
        match self.phase {
            ListPhase::Connection => Request::Connect,
            ListPhase::ClientListAtom => Request::InternAtom(AtomName::NetClientList),
            ListPhase::ClientList { atom } => Request::GetProperty {
                window: self.root,
                property: Property::Atom(atom),
                kind: PropertyType::Window,
            },
            ListPhase::Name(query) => query.asks(),
            ListPhase::Class => class_request(self.ids[self.at]),
        }
    }

    /// Goes on to the window at `self.at`, or ends where there is none left.
    pub open spec fn look_at_next(self) -> ListStepView {
        if self.at < self.ids.len() {
            ListStepView::Ask(
                ListState {
                    phase: ListPhase::Name(NameQuery::NetWmNameAtom { window: self.ids[self.at] }),
                    ..self
                },
            )
        } else {
            ListStepView::Listed(self.entries)
        }
    }

    /// Goes on to the class of the window at `self.at`, whose name is `name`.
    pub open spec fn name_known(self, name: Option<Seq<char>>) -> ListState {
        ListState { phase: ListPhase::Class, name: text_or(name, "<unnamed>"@), ..self }
    }

    /// Lists the window at `self.at`, whose class is `class`, and goes on to the next.
    pub open spec fn class_known(self, class: Option<Seq<char>>) -> ListStepView {
        let entry = EntryView {
            id: self.ids[self.at],
            name: self.name,
            class: text_or(class, "<unknown>"@),
        };
        ListState {
            at: self.at + 1,
            entries: with_listed(self.entries, entry),
            ..self
        }.look_at_next()
    }

    /// What follows from `reply`. Failures end the listing until the list of windows is known;
    /// after that, they only leave a window unnamed or its class unknown.
    pub open spec fn after(self, reply: Reply) -> ListStepView
        recommends
            self.valid(),
            reply.answers(self.asks()),
    {
        match (self.phase, reply) {
            (ListPhase::Connection, Reply::Connected { root }) => ListStepView::Ask(
                ListState { root, phase: ListPhase::ClientListAtom, ..self },
            ),
            (ListPhase::ClientListAtom, Reply::Atom(atom)) => ListStepView::Ask(
                ListState { phase: ListPhase::ClientList { atom }, ..self },
            ),
            (ListPhase::ClientList { .. }, Reply::Property { kind, value }) => {
                if kind == 0 {
                    ListStepView::Listed(Seq::empty())
                } else {
                    ListState { ids: window_ids(self.order, value@), at: 0, ..self }.look_at_next()
                }
            },
            (ListPhase::Name(query), _) => match query.after(reply) {
                NameStepView::Ask(next) => ListStepView::Ask(
                    ListState { phase: ListPhase::Name(next), ..self },
                ),
                NameStepView::Found(name) => ListStepView::Ask(self.name_known(name)),
                NameStepView::Failed(_) => ListStepView::Ask(self.name_known(None)),
            },
            (ListPhase::Class, _) => match class_in(reply) {
                Ok(class) => self.class_known(class),
                Err(_) => self.class_known(None),
            },
            _ => ListStepView::Failed(reply.failure()->0),
        }
    }
}

/// `text`, or `default` where there is none.
fn unwrap_text(text: Option<String>, default: &str) -> (result: String)
    ensures
        result@ == text_or(opt_view(text), default@),
{
    match text {
        Some(text) => text,
        None => default.to_owned(),
    }
}

/// Starts listing the windows of a server on this machine, reading values in the machine's byte
/// order; the contract leaves open which of the two that is.
pub fn list_windows() -> (lister: WindowLister)
    ensures
        is_native(lister@.order),
        lister@ == ListState::start(lister@.order),
        lister@.valid(),
{
    WindowLister::start(native_order())
}

impl WindowLister {
    /// Starts listing the windows of a server that sends values in the given byte order.
    pub fn start(order: ByteOrder) -> (lister: WindowLister)
        ensures
            lister@ == ListState::start(order),
            lister@.valid(),
    {
        let lister = WindowLister {
            order,
            root: 0,
            phase: ListPhase::Connection,
            ids: Vec::new(),
            at: 0,
            name: String::new(),
            entries: Vec::new(),
        };
        assert(entries_view(lister.entries@) =~= Seq::empty());
        lister
    }

    /// See [`ListState::asks`].
    pub fn request(&self) -> (request: Request)
        requires
            self@.valid(),
        ensures
            request == self@.asks(),
    {
        match self.phase {
            ListPhase::Connection => Request::Connect,
            ListPhase::ClientListAtom => Request::InternAtom(AtomName::NetClientList),
            ListPhase::ClientList { atom } => Request::GetProperty {
                window: self.root,
                property: Property::Atom(atom),
                kind: PropertyType::Window,
            },
            ListPhase::Name(query) => query.request(),
            ListPhase::Class => ask_window_class(self.ids[self.at]),
        }
    }

    fn look_at_next(self) -> (step: ListStep)
        requires
            self@.at <= self@.ids.len(),
            forall|i: int|
                0 <= i < self@.entries.len() ==> is_labelled(#[trigger] self@.entries[i]),
        ensures
            step@ == self@.look_at_next(),
            step matches ListStep::Ask(next) ==> next@.valid(),
            step@ matches ListStepView::Listed(entries) ==> forall|i: int|
                0 <= i < entries.len() ==> is_labelled(#[trigger] entries[i]),
    {
        let mut lister = self;
        if lister.at < lister.ids.len() {
            lister.phase = ListPhase::Name(NameQuery::get_window_name(lister.ids[lister.at]));
            ListStep::Ask(lister)
        } else {
            ListStep::Listed(lister.entries)
        }
    }

    fn name_known(self, name: Option<String>) -> (lister: WindowLister)
        requires
            name matches Some(name) ==> name@.len() > 0,
        ensures
            lister@ == self@.name_known(opt_view(name)),
            lister@.name.len() > 0,
    {
        proof {
            reveal_strlit("<unnamed>");
        }
        let mut lister = self;
        lister.phase = ListPhase::Class;
        lister.name = unwrap_text(name, "<unnamed>");
        lister
    }

    fn class_known(self, class: Option<String>) -> (step: ListStep)
        requires
            self@.valid(),
            self@.phase is Class,
            class matches Some(class) ==> class@.len() > 0 && has_no_nul(class@),
        ensures
            step@ == self@.class_known(opt_view(class)),
            step matches ListStep::Ask(next) ==> next@.valid(),
            step@ matches ListStepView::Listed(entries) ==> forall|i: int|
                0 <= i < entries.len() ==> is_labelled(#[trigger] entries[i]),
    {
        proof {
            reveal_strlit("<unknown>");
        }
        let mut lister = self;
        assert(lister.at < lister.ids.len());
        let entry = WindowEntry {
            id: lister.ids[lister.at],
            name: lister.name.clone(),
            class: unwrap_text(class, "<unknown>"),
        };
        let ghost before = lister.entries@;
        if byte_len(entry.name.as_str()) > 1 || byte_len(entry.class.as_str()) > 1 {
            lister.entries.push(entry);
        }
        assert(entries_view(lister.entries@) =~= with_listed(entries_view(before), entry@));
        lister.at = lister.at + 1;
        lister.look_at_next()
    }

    /// Takes the reply to [`WindowLister::request`]. Each window that is listed has a name and a
    /// class to show.
    pub fn advance(self, reply: Reply) -> (step: ListStep)
        requires
            self@.valid(),
            reply.answers(self@.asks()),
        ensures
            step@ == self@.after(reply),
            step matches ListStep::Ask(next) ==> next@.valid(),
            step@ matches ListStepView::Listed(entries) ==> forall|i: int|
                0 <= i < entries.len() ==> is_labelled(#[trigger] entries[i]),
    {
        let mut lister = self;
        match lister.phase {
            ListPhase::Name(query) => match query.advance(reply) {
                NameStep::Ask(next) => {
                    lister.phase = ListPhase::Name(next);
                    ListStep::Ask(lister)
                },
                NameStep::Found(name) => ListStep::Ask(lister.name_known(name)),
                NameStep::Failed(_) => ListStep::Ask(lister.name_known(None)),
            },
            ListPhase::Class => match get_window_class(reply) {
                Ok(class) => lister.class_known(class),
                Err(_) => lister.class_known(None),
            },
            _ => match reply {
                Reply::SendFailed(message) => ListStep::Failed(message),
                Reply::ReplyFailed(message) => ListStep::Failed(message),
                Reply::Connected { root } => {
                    lister.root = root;
                    lister.phase = ListPhase::ClientListAtom;
                    ListStep::Ask(lister)
                },
                Reply::Atom(atom) => {
                    lister.phase = ListPhase::ClientList { atom };
                    ListStep::Ask(lister)
                },
                Reply::Property { kind, value } => {
                    if kind == 0 {
                        let none: Vec<WindowEntry> = Vec::new();
                        assert(entries_view(none@) =~= Seq::empty());
                        ListStep::Listed(none)
                    } else {
                        lister.ids = parse_window_ids(lister.order, value.as_slice());
                        lister.at = 0;
                        lister.look_at_next()
                    }
                },
                _ => unreached(),
            },
        }
    }
}

/// The text that a steady server gives for a window, if the lookup succeeds and finds any.
pub open spec fn found(text: Result<Option<Seq<char>>, Seq<char>>) -> Option<Seq<char>> {
    match text {
        Ok(text) => text,
        Err(_) => None,
    }
}

/// How `window` is listed on a steady server.
pub open spec fn entry_on(server: spec_fn(Request) -> Reply, window: u32) -> EntryView {
    EntryView {
        id: window,
        name: text_or(found(name_on(server, window)), "<unnamed>"@),
        class: text_or(found(class_in(server(class_request(window)))), "<unknown>"@),
    }
}

/// The list of `windows` on a steady server: those that are listed, in order.
pub open spec fn listed(server: spec_fn(Request) -> Reply, windows: Seq<u32>) -> Seq<EntryView> {
    windows.map_values(|window: u32| entry_on(server, window)).filter(
        |entry: EntryView| is_listed(entry),
    )
}

/// What listing comes to on a steady server: the windows in the root window's
/// `_NET_CLIENT_LIST`, none where there is no such property, or the message of what failed
/// before the list was known.
pub open spec fn listing(
    server: spec_fn(Request) -> Reply,
    order: ByteOrder,
) -> Result<Seq<EntryView>, Seq<char>> {
    match (server(Request::Connect), server(Request::InternAtom(AtomName::NetClientList))) {
        (Reply::Connected { root }, Reply::Atom(atom)) => match server(
            Request::GetProperty {
                window: root,
                property: Property::Atom(atom),
                kind: PropertyType::Window,
            },
        ) {
            Reply::Property { kind, value } => Ok(
                if kind == 0 {
                    Seq::empty()
                } else {
                    listed(server, window_ids(order, value@))
                },
            ),
            failed => Err(failed.failure()->0),
        },
        (Reply::Connected { .. }, failed) => Err(failed.failure()->0),
        (failed, _) => Err(failed.failure()->0),
    }
}

/// The end of a listing that came to `result`.
pub open spec fn list_end(result: Result<Seq<EntryView>, Seq<char>>) -> ListStepView {
    match result {
        Ok(entries) => ListStepView::Listed(entries),
        Err(message) => ListStepView::Failed(message),
    }
}

/// Where a listing stands after at most `steps` replies of a steady server.
pub open spec fn list_run(
    state: ListState,
    server: spec_fn(Request) -> Reply,
    steps: nat,
) -> ListStepView
    decreases steps,
{
    if steps == 0 {
        ListStepView::Ask(state)
    } else {
        match state.after(server(state.asks())) {
            ListStepView::Ask(next) => list_run(next, server, (steps - 1) as nat),
            end => end,
        }
    }
}

/// The run through the name lookup of one window.
proof fn run_name(
    state: ListState,
    query: NameQuery,
    server: spec_fn(Request) -> Reply,
    name: Result<Option<Seq<char>>, Seq<char>>,
    budget: nat,
    rest: nat,
) -> (steps: nat)
    requires
        state.phase == ListPhase::Name(query),
        name_run(query, server, budget) == name_end(name),
    ensures
        list_run(state, server, steps) == list_run(state.name_known(found(name)), server, rest),
    decreases budget,
{
    match query.after(server(query.asks())) {
        NameStepView::Ask(next) => {
            let after = ListState { phase: ListPhase::Name(next), ..state };
            assert(after.name_known(found(name)) == state.name_known(found(name)));
            let more = run_name(after, next, server, name, (budget - 1) as nat, rest);
            more + 1
        },
        _ => rest + 1,
    }
}

/// The run from a window on to the end of the list.
proof fn run_windows(state: ListState, server: spec_fn(Request) -> Reply) -> (steps: nat)
    requires
        steady(server),
        0 <= state.at <= state.ids.len(),
        state.entries == listed(server, state.ids.take(state.at)),
    ensures
        match state.look_at_next() {
            ListStepView::Ask(next) => list_run(next, server, steps) == ListStepView::Listed(
                listed(server, state.ids),
            ),
            end => end == ListStepView::Listed(listed(server, state.ids)),
        },
    decreases state.ids.len() - state.at,
{
    if state.at == state.ids.len() {
        assert(state.ids.take(state.at) =~= state.ids);
        0
    } else {
        let window = state.ids[state.at];
        let query = NameQuery::NetWmNameAtom { window };
        let looking = ListState { phase: ListPhase::Name(query), ..state };
        let named = looking.name_known(found(name_on(server, window)));
        let entry = entry_on(server, window);
        let done = ListState {
            at: named.at + 1,
            entries: with_listed(named.entries, entry),
            ..named
        };
        assert(done.entries == listed(server, done.ids.take(done.at))) by {
            reveal(Seq::filter);
            let f = |window: u32| entry_on(server, window);
            let before = state.ids.take(state.at).map_values(f);
            let now = state.ids.take(state.at + 1).map_values(f);
            assert(now.drop_last() =~= before);
            assert(now.last() == entry);
        }
        let more = run_windows(done, server);
        assert(server(class_request(window)).answers(class_request(window)));
        assert(named.after(server(named.asks())) == done.look_at_next());
        let rest: nat = if done.at < done.ids.len() {
            more + 1
        } else {
            1
        };
        assert(list_run(named, server, rest) == ListStepView::Listed(listed(server, state.ids)));
        name_query_finds_the_name(server, window);
        run_name(looking, query, server, name_on(server, window), 4, rest)
    }
}

/// On a steady server, a listing ends, with the list of the managed windows.
pub proof fn lister_lists_the_windows(server: spec_fn(Request) -> Reply, order: ByteOrder)
    requires
        steady(server),
    ensures
        exists|steps: nat| #[trigger]
            list_run(ListState::start(order), server, steps) == list_end(listing(server, order)),
{
    reveal_with_fuel(list_run, 4);
    let start = ListState::start(order);
    let atom_request = Request::InternAtom(AtomName::NetClientList);
    assert(server(Request::Connect).answers(Request::Connect));
    assert(server(atom_request).answers(atom_request));
    let mut steps: nat = 3;
    if let Reply::Connected { root } = server(Request::Connect) {
        if let Reply::Atom(atom) = server(atom_request) {
            let connected = ListState { root, phase: ListPhase::ClientListAtom, ..start };
            let asked = ListState { phase: ListPhase::ClientList { atom }, ..connected };
            let list_request = asked.asks();
            assert(server(list_request).answers(list_request));
            assert(start.after(server(start.asks())) == ListStepView::Ask(connected));
            assert(connected.after(server(connected.asks())) == ListStepView::Ask(asked));
            if let Reply::Property { kind, value } = server(list_request) {
                if kind != 0 {
                    let state = ListState { ids: window_ids(order, value@), at: 0, ..asked };
                    assert(state.entries =~= listed(server, state.ids.take(0))) by {
                        reveal(Seq::filter);
                    }
                    let more = run_windows(state, server);
                    assert(asked.after(server(asked.asks())) == state.look_at_next());
                    steps = more + 3;
                    assert(list_run(asked, server, (more + 1) as nat) == list_end(
                        listing(server, order),
                    ));
                    assert(list_run(connected, server, (more + 2) as nat) == list_run(
                        asked,
                        server,
                        (more + 1) as nat,
                    ));
                }
            }
        }
    }
    assert(list_run(start, server, steps) == list_end(listing(server, order)));
}

/// Further replies do not change what a listing has come to.
pub proof fn list_end_is_final(
    state: ListState,
    server: spec_fn(Request) -> Reply,
    steps: nat,
    more: nat,
)
    requires
        !(list_run(state, server, steps) is Ask),
        steps <= more,
    ensures
        list_run(state, server, more) == list_run(state, server, steps),
    decreases steps,
{
    if steps > 0 {
        if let ListStepView::Ask(next) = state.after(server(state.asks())) {
            list_end_is_final(next, server, (steps - 1) as nat, (more - 1) as nat);
        }
    }
}

/// Every window in a list has a name or a class of more than one byte, and is one of the windows
/// that were looked at.
pub proof fn listed_windows_are_worth_listing(
    server: spec_fn(Request) -> Reply,
    windows: Seq<u32>,
    i: int,
)
    requires
        0 <= i < listed(server, windows).len(),
    ensures
        is_listed(listed(server, windows)[i]),
        windows.contains(listed(server, windows)[i].id),
{
    let f = |window: u32| entry_on(server, window);
    let p = |entry: EntryView| is_listed(entry);
    let all = windows.map_values(f);
    all.lemma_filter_pred(p, i);
    all.lemma_filter_contains_rev(p, listed(server, windows)[i]);
}

/// A list can be cut anywhere: what comes of the windows on either side does not depend on the
/// other side.
pub proof fn lists_are_made_window_by_window(
    server: spec_fn(Request) -> Reply,
    front: Seq<u32>,
    back: Seq<u32>,
)
    ensures
        listed(server, front + back) == listed(server, front) + listed(server, back),
        listed(server, Seq::empty()) == Seq::<EntryView>::empty(),
{
    let f = |window: u32| entry_on(server, window);
    let p = |entry: EntryView| is_listed(entry);
    assert((front + back).map_values(f) =~= front.map_values(f) + back.map_values(f));
    Seq::filter_distributes_over_add(front.map_values(f), back.map_values(f), p);
    reveal(Seq::filter);
    assert(listed(server, Seq::empty()) =~= Seq::<EntryView>::empty());
}

/// What a name query of a steady server came to, or how a window without a name is listed.
pub open spec fn shown_name(end: NameStepView) -> Seq<char> {
    match end {
        NameStepView::Found(Some(name)) => name,
        _ => "<unnamed>"@,
    }
}

/// The class that the reply for a `WM_CLASS` property holds, or how a window without one is listed.
pub open spec fn shown_class(reply: Reply) -> Seq<char> {
    match reply {
        Reply::Property { kind, value } if kind != 0 && value@.len() > 0 && class_part(
            value@,
        ).len() > 0 => text_of(class_part(value@)),
        _ => "<unknown>"@,
    }
}

/// A window is listed exactly if its name or its class has more than one byte, however long they
/// are, and then under its id, with that name and that class.
pub proof fn window_is_listed_exactly_if_named(server: spec_fn(Request) -> Reply, window: u32)
    requires
        steady(server),
    ensures
        ({
            let name = shown_name(name_run(NameQuery::NetWmNameAtom { window }, server, 4));
            let class = shown_class(
                server(
                    Request::GetProperty {
                        window,
                        property: Property::WmClass,
                        kind: PropertyType::String,
                    },
                ),
            );
            listed(server, seq![window]) == if encode_utf8(name).len() >= 2 || encode_utf8(
                class,
            ).len() >= 2 {
                seq![EntryView { id: window, name, class }]
            } else {
                Seq::empty()
            }
        }),
{
    name_query_finds_the_name(server, window);
    let request = class_request(window);
    assert(server(request).answers(request));
    let f = |window: u32| entry_on(server, window);
    let entry = entry_on(server, window);
    reveal(Seq::filter);
    reveal_with_fuel(Seq::filter, 2);
    let all = seq![window].map_values(f);
    assert(all =~= seq![entry]);
    assert(all.drop_last() =~= Seq::empty());
    let p = |entry: EntryView| is_listed(entry);
    assert(Seq::<EntryView>::empty().filter(p) =~= Seq::empty());
    assert(listed(server, seq![window]) =~= if is_listed(entry) {
        seq![entry]
    } else {
        Seq::empty()
    });
}

/// Every window with a name or a class of more than one byte has an entry, and every entry is that
/// of such a window.
pub proof fn list_holds_just_the_named_windows(
    server: spec_fn(Request) -> Reply,
    windows: Seq<u32>,
    i: int,
)
    requires
        steady(server),
        0 <= i < windows.len(),
    ensures
        ({
            let window = windows[i];
            let name = shown_name(name_run(NameQuery::NetWmNameAtom { window }, server, 4));
            let class = shown_class(
                server(
                    Request::GetProperty {
                        window,
                        property: Property::WmClass,
                        kind: PropertyType::String,
                    },
                ),
            );
            listed(server, windows).contains(EntryView { id: window, name, class }) <==> (
            encode_utf8(name).len() >= 2 || encode_utf8(class).len() >= 2)
        }),
{
    let window = windows[i];
    name_query_finds_the_name(server, window);
    let request = class_request(window);
    assert(server(request).answers(request));
    let f = |window: u32| entry_on(server, window);
    let p = |entry: EntryView| is_listed(entry);
    let all = windows.map_values(f);
    let entry = entry_on(server, window);
    assert(all[i] == entry);
    if is_listed(entry) {
        all.lemma_filter_contains(p, i);
    } else if listed(server, windows).contains(entry) {
        let j = choose|j: int| 0 <= j < all.filter(p).len() && all.filter(p)[j] == entry;
        all.lemma_filter_pred(p, j);
    }
}

/// What is listed are the windows in the root window's `_NET_CLIENT_LIST`, and nothing where there
/// is no such property. A failure before that list is known ends the listing with its message.
pub proof fn client_list_is_what_is_listed(
    server: spec_fn(Request) -> Reply,
    order: ByteOrder,
) -> (steps: nat)
    requires
        steady(server),
    ensures
        ({
            let end = list_run(ListState::start(order), server, steps);
            let connection = server(Request::Connect);
            let atom = server(Request::InternAtom(AtomName::NetClientList));
            let list = server(
                Request::GetProperty {
                    window: connection->Connected_root,
                    property: Property::Atom(atom->Atom_0),
                    kind: PropertyType::Window,
                },
            );
            match (connection, atom, list) {
                (
                    Reply::Connected { .. },
                    Reply::Atom(_),
                    Reply::Property { kind, value },
                ) => end == ListStepView::Listed(
                    if kind != 0 {
                        listed(server, window_ids(order, value@))
                    } else {
                        Seq::empty()
                    },
                ),
                (Reply::Connected { .. }, Reply::Atom(_), failed) => end is Failed && Some(
                    end->Failed_0,
                ) == failed.failure(),
                (Reply::Connected { .. }, failed, _) => end is Failed && Some(end->Failed_0)
                    == failed.failure(),
                (failed, _, _) => end is Failed && Some(end->Failed_0) == failed.failure(),
            }
        }),
{
    lister_lists_the_windows(server, order);
    let atom = Request::InternAtom(AtomName::NetClientList);
    assert(server(Request::Connect).answers(Request::Connect));
    assert(server(atom).answers(atom));
    let list = Request::GetProperty {
        window: server(Request::Connect)->Connected_root,
        property: Property::Atom(server(atom)->Atom_0),
        kind: PropertyType::Window,
    };
    assert(server(list).answers(list));
    choose|steps: nat| #[trigger]
        list_run(ListState::start(order), server, steps) == list_end(listing(server, order))
}

} // verus!
