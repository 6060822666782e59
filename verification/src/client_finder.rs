//! Finding the top-level client window under the pointer.
use crate::window_property::{parse_window_ids, window_ids, ByteOrder};
use crate::x11::{steady, AtomName, Property, PropertyType, Reply, Request};
use vstd::prelude::*;

verus! {

/// Whether the point `(x, y)` lies in the window at `(win_x, win_y)` of the given size.
pub open spec fn contains_point(
    x: int,
    y: int,
    win_x: int,
    win_y: int,
    width: int,
    height: int,
) -> bool {
    win_x <= x < win_x + width && win_y <= y < win_y + height
}

/// See [`contains_point`].
pub fn window_contains_point(
    x: i32,
    y: i32,
    win_x: i16,
    win_y: i16,
    width: u16,
    height: u16,
) -> (contains: bool)
    ensures
        contains == contains_point(
            x as int,
            y as int,
            win_x as int,
            win_y as int,
            width as int,
            height as int,
        ),
{
    let left: i32 = win_x as i32;
    let top: i32 = win_y as i32;
    x >= left && x < left + width as i32 && y >= top && y < top + height as i32
}

/// What the search is waiting for.
#[derive(Clone, Copy, Debug, PartialEq, Eq, Structural)]
pub enum FindPhase {
    Pointer,
    StackingAtom,
    Stacking { atom: u32 },
    ClientListAtom,
    ClientList { atom: u32 },
    Geometry,
    Origin { width: u16, height: u16 },
}

/// A search under way.
#[derive(Debug)]
pub struct ClientFinder {
    order: ByteOrder,
    root: u32,
    phase: FindPhase,
    x: i32,
    y: i32,
    /// The windows, bottom to top.
    windows: Vec<u32>,
    /// How many of them, counted from the bottom, have not been looked at yet.
    left: usize,
}

/// A [`ClientFinder`] by its view.
pub struct FindState {
    pub order: ByteOrder,
    pub root: u32,
    pub phase: FindPhase,
    pub x: i32,
    pub y: i32,
    pub windows: Seq<u32>,
    pub left: int,
}

/// Where a [`ClientFinder`] stands after a reply.
#[derive(Debug)]
pub enum FindStep {
    Ask(ClientFinder),
    /// The topmost window under the pointer, or the root window where there is none.
    Found(u32),
    Failed(String),
}

/// A [`FindStep`] by its view.
pub enum FindStepView {
    Ask(FindState),
    Found(u32),
    Failed(Seq<char>),
}

impl View for ClientFinder {
    type V = FindState;

    closed spec fn view(&self) -> FindState {
        FindState {
            order: self.order,
            root: self.root,
            phase: self.phase,
            x: self.x,
            y: self.y,
            windows: self.windows@,
            left: self.left as int,
        }
    }
}

impl View for FindStep {
    type V = FindStepView;

    open spec fn view(&self) -> FindStepView {
        match *self {
            FindStep::Ask(finder) => FindStepView::Ask(finder@),
            FindStep::Found(window) => FindStepView::Found(window),
            FindStep::Failed(message) => FindStepView::Failed(message@),
        }
    }
}

impl FindState {
    /// A search below `root` that has not begun yet.
    pub open spec fn start(order: ByteOrder, root: u32) -> FindState {
        FindState {
            order,
            root,
            phase: FindPhase::Pointer,
            x: 0,
            y: 0,
            windows: Seq::empty(),
            left: 0,
        }
    }

    /// While windows are looked at, there is one to look at.
    pub open spec fn valid(self) -> bool {
        &&& 0 <= self.left <= self.windows.len()
        &&& (self.phase is Geometry || self.phase is Origin) ==> 0 < self.left
    }

    /// What is asked next.
    pub open spec fn asks(self) -> Request {
        match self.phase {
            FindPhase::Pointer => Request::QueryPointer { window: self.root },
            FindPhase::StackingAtom => Request::InternAtom(AtomName::NetClientListStacking),
            FindPhase::Stacking { atom } => Request::GetProperty {
                window: self.root,
                property: Property::Atom(atom),
                kind: PropertyType::Window,
            },
            FindPhase::ClientListAtom => Request::InternAtom(AtomName::NetClientList),
            FindPhase::ClientList { atom } => Request::GetProperty {
                window: self.root,
                property: Property::Atom(atom),
                kind: PropertyType::Window,
            },
            FindPhase::Geometry => Request::GetGeometry { window: self.windows[self.left - 1] },
            FindPhase::Origin { .. } => Request::TranslateOrigin {
                window: self.windows[self.left - 1],
                target: self.root,
            },
        }
    }

    /// Looks at the topmost window that is left, or ends with the root window.
    pub open spec fn look_at_next(self) -> FindStepView {
        if self.left > 0 {
            FindStepView::Ask(FindState { phase: FindPhase::Geometry, ..self })
        } else {
            FindStepView::Found(self.root)
        }
    }

    /// Begins to look at `windows`, from the last one down.
    pub open spec fn search(self, windows: Seq<u32>) -> FindStepView {
        FindState { windows, left: windows.len() as int, ..self }.look_at_next()
    }

    /// Goes on to the window below the one that is looked at.
    pub open spec fn skip(self) -> FindStepView {
        FindState { left: self.left - 1, ..self }.look_at_next()
    }

    /// What follows from `reply`. A window that cannot be asked about does not count as under the
    /// pointer; any other failure ends the search. The stacking list is searched; where it is
    /// missing, the plain client list is searched in its place, and where both are missing, the
    /// root window is the answer.
    pub open spec fn after(self, reply: Reply) -> FindStepView
        recommends
            self.valid(),
            reply.answers(self.asks()),
    {
        match (self.phase, reply) {
            (FindPhase::Pointer, Reply::Pointer { x, y }) => FindStepView::Ask(
                FindState { phase: FindPhase::StackingAtom, x: x as i32, y: y as i32, ..self },
            ),
            (FindPhase::StackingAtom, Reply::Atom(atom)) => FindStepView::Ask(
                FindState { phase: FindPhase::Stacking { atom }, ..self },
            ),
            (FindPhase::Stacking { .. }, Reply::Property { kind, value }) => {
                if kind == 0 {
                    FindStepView::Ask(FindState { phase: FindPhase::ClientListAtom, ..self })
                } else {
                    self.search(window_ids(self.order, value@))
                }
            },
            (FindPhase::ClientListAtom, Reply::Atom(atom)) => FindStepView::Ask(
                FindState { phase: FindPhase::ClientList { atom }, ..self },
            ),
            (FindPhase::ClientList { .. }, Reply::Property { kind, value }) => {
                if kind == 0 {
                    FindStepView::Found(self.root)
                } else {
                    self.search(window_ids(self.order, value@))
                }
            },
            (FindPhase::Geometry, Reply::Geometry { width, height, .. }) => FindStepView::Ask(
                FindState { phase: FindPhase::Origin { width, height }, ..self },
            ),
            (FindPhase::Origin { width, height }, Reply::Origin { x, y }) => {
                if contains_point(
                    self.x as int,
                    self.y as int,
                    x as int,
                    y as int,
                    width as int,
                    height as int,
                ) {
                    FindStepView::Found(self.windows[self.left - 1])
                } else {
                    self.skip()
                }
            },
            (FindPhase::Geometry, _) => self.skip(),
            (FindPhase::Origin { .. }, _) => self.skip(),
            _ => FindStepView::Failed(reply.failure()->0),
        }
    }
}

impl ClientFinder {
    /// Starts searching for the client window of `root` under the pointer.
    pub fn find_client_window(order: ByteOrder, root: u32) -> (finder: ClientFinder)
        ensures
            finder@ == FindState::start(order, root),
            finder@.valid(),
    {
        ClientFinder {
            order,
            root,
            phase: FindPhase::Pointer,
            x: 0,
            y: 0,
            windows: Vec::new(),
            left: 0,
        }
    }

    /// See [`FindState::asks`].
    pub fn request(&self) -> (request: Request)
        requires
            self@.valid(),
        ensures
            request == self@.asks(),
    {
        match self.phase {
            FindPhase::Pointer => Request::QueryPointer { window: self.root },
            FindPhase::StackingAtom => Request::InternAtom(AtomName::NetClientListStacking),
            FindPhase::Stacking { atom } => Request::GetProperty {
                window: self.root,
                property: Property::Atom(atom),
                kind: PropertyType::Window,
            },
            FindPhase::ClientListAtom => Request::InternAtom(AtomName::NetClientList),
            FindPhase::ClientList { atom } => Request::GetProperty {
                window: self.root,
                property: Property::Atom(atom),
                kind: PropertyType::Window,
            },
            FindPhase::Geometry => Request::GetGeometry { window: self.windows[self.left - 1] },
            FindPhase::Origin { .. } => Request::TranslateOrigin {
                window: self.windows[self.left - 1],
                target: self.root,
            },
        }
    }

    fn look_at_next(self) -> (step: FindStep)
        requires
            self@.left <= self@.windows.len(),
        ensures
            step@ == self@.look_at_next(),
            step matches FindStep::Ask(next) ==> next@.valid(),
    {
        let mut finder = self;
        if finder.left > 0 {
            finder.phase = FindPhase::Geometry;
            FindStep::Ask(finder)
        } else {
            FindStep::Found(finder.root)
        }
    }

    fn search(self, windows: Vec<u32>) -> (step: FindStep)
        ensures
            step@ == self@.search(windows@),
            step matches FindStep::Ask(next) ==> next@.valid(),
    {
        let mut finder = self;
        finder.left = windows.len();
        finder.windows = windows;
        finder.look_at_next()
    }

    fn skip(self) -> (step: FindStep)
        requires
            0 < self@.left <= self@.windows.len(),
        ensures
            step@ == self@.skip(),
            step matches FindStep::Ask(next) ==> next@.valid(),
    {
        let mut finder = self;
        finder.left = finder.left - 1;
        finder.look_at_next()
    }

    /// Takes the reply to [`ClientFinder::request`].
    pub fn advance(self, reply: Reply) -> (step: FindStep)
        requires
            self@.valid(),
            reply.answers(self@.asks()),
        ensures
            step@ == self@.after(reply),
            step matches FindStep::Ask(next) ==> next@.valid(),
    {
        let mut finder = self;
        match reply {
            Reply::SendFailed(message) | Reply::ReplyFailed(message) => match finder.phase {
                FindPhase::Geometry => finder.skip(),
                FindPhase::Origin { .. } => finder.skip(),
                _ => FindStep::Failed(message),
            },
            Reply::Pointer { x, y } => {
                finder.phase = FindPhase::StackingAtom;
                finder.x = x as i32;
                finder.y = y as i32;
                FindStep::Ask(finder)
            },
            Reply::Atom(atom) => {
                finder.phase = match finder.phase {
                    FindPhase::StackingAtom => FindPhase::Stacking { atom },
                    _ => FindPhase::ClientList { atom },
                };
                FindStep::Ask(finder)
            },
            Reply::Property { kind, value } => match finder.phase {
                FindPhase::Stacking { .. } => {
                    if kind == 0 {
                        finder.phase = FindPhase::ClientListAtom;
                        FindStep::Ask(finder)
                    } else {
                        let windows = parse_window_ids(finder.order, value.as_slice());
                        finder.search(windows)
                    }
                },
                _ => {
                    if kind == 0 {
                        FindStep::Found(finder.root)
                    } else {
                        let windows = parse_window_ids(finder.order, value.as_slice());
                        finder.search(windows)
                    }
                },
            },
            Reply::Geometry { width, height, .. } => {
                finder.phase = FindPhase::Origin { width, height };
                FindStep::Ask(finder)
            },
            Reply::Origin { x, y } => match finder.phase {
                FindPhase::Origin { width, height } => {
                    if window_contains_point(finder.x, finder.y, x, y, width, height) {
                        FindStep::Found(finder.windows[finder.left - 1])
                    } else {
                        finder.skip()
                    }
                },
                _ => unreached(),
            },
            _ => unreached(),
        }
    }
}

/// Whether a steady server shows `window` at the point `(x, y)` of `root`.
pub open spec fn covers(
    server: spec_fn(Request) -> Reply,
    window: u32,
    root: u32,
    x: int,
    y: int,
) -> bool {
    match (
        server(Request::GetGeometry { window }),
        server(Request::TranslateOrigin { window, target: root }),
    ) {
        (
            Reply::Geometry { width, height, .. },
            Reply::Origin { x: win_x, y: win_y },
        ) => contains_point(x, y, win_x as int, win_y as int, width as int, height as int),
        _ => false,
    }
}

/// The topmost of `windows`, which are ordered bottom to top, at the point `(x, y)` of `root`;
/// `root` itself where there is none.
pub open spec fn topmost(
    server: spec_fn(Request) -> Reply,
    windows: Seq<u32>,
    root: u32,
    x: int,
    y: int,
) -> u32
    decreases windows.len(),
{
    if windows.len() == 0 {
        root
    } else if covers(server, windows.last(), root, x, y) {
        windows.last()
    } else {
        topmost(server, windows.drop_last(), root, x, y)
    }
}

/// What the search comes to on a steady server: the topmost window under the pointer of those in
/// the root window's `_NET_CLIENT_LIST_STACKING` or, where there is no such property, in its
/// `_NET_CLIENT_LIST`; the root window where there is none, or neither property.
pub open spec fn client_on(
    server: spec_fn(Request) -> Reply,
    order: ByteOrder,
    root: u32,
) -> Result<u32, Seq<char>> {
    match (
        server(Request::QueryPointer { window: root }),
        server(Request::InternAtom(AtomName::NetClientListStacking)),
    ) {
        (Reply::Pointer { x, y }, Reply::Atom(stacking)) => match server(
            Request::GetProperty {
                window: root,
                property: Property::Atom(stacking),
                kind: PropertyType::Window,
            },
        ) {
            Reply::Property { kind, value } => {
                if kind != 0 {
                    Ok(topmost(server, window_ids(order, value@), root, x as int, y as int))
                } else {
                    match server(Request::InternAtom(AtomName::NetClientList)) {
                        Reply::Atom(list) => match server(
                            Request::GetProperty {
                                window: root,
                                property: Property::Atom(list),
                                kind: PropertyType::Window,
                            },
                        ) {
                            Reply::Property { kind, value } => Ok(
                                if kind != 0 {
                                    topmost(
                                        server,
                                        window_ids(order, value@),
                                        root,
                                        x as int,
                                        y as int,
                                    )
                                } else {
                                    root
                                },
                            ),
                            failed => Err(failed.failure()->0),
                        },
                        failed => Err(failed.failure()->0),
                    }
                }
            },
            failed => Err(failed.failure()->0),
        },
        (Reply::Pointer { .. }, failed) => Err(failed.failure()->0),
        (failed, _) => Err(failed.failure()->0),
    }
}

/// The end of a search that came to `result`.
pub open spec fn find_end(result: Result<u32, Seq<char>>) -> FindStepView {
    match result {
        Ok(window) => FindStepView::Found(window),
        Err(message) => FindStepView::Failed(message),
    }
}

/// Where a search stands after at most `steps` replies of a steady server.
pub open spec fn find_run(
    state: FindState,
    server: spec_fn(Request) -> Reply,
    steps: nat,
) -> FindStepView
    decreases steps,
{
    if steps == 0 {
        FindStepView::Ask(state)
    } else {
        match state.after(server(state.asks())) {
            FindStepView::Ask(next) => find_run(next, server, (steps - 1) as nat),
            end => end,
        }
    }
}

proof fn run_windows(state: FindState, server: spec_fn(Request) -> Reply) -> (steps: nat)
    requires
        steady(server),
        0 <= state.left <= state.windows.len(),
    ensures
        ({
            let end = FindStepView::Found(
                topmost(
                    server,
                    state.windows.take(state.left),
                    state.root,
                    state.x as int,
                    state.y as int,
                ),
            );
            match state.look_at_next() {
                FindStepView::Ask(next) => find_run(next, server, steps) == end,
                other => other == end,
            }
        }),
    decreases state.left,
{
    if state.left == 0 {
        0
    } else {
        let window = state.windows[state.left - 1];
        let looking = FindState { phase: FindPhase::Geometry, ..state };
        assert(state.windows.take(state.left).last() == window);
        assert(state.windows.take(state.left).drop_last() =~= state.windows.take(state.left - 1));
        assert(server(looking.asks()).answers(looking.asks()));
        let origin = Request::TranslateOrigin { window, target: state.root };
        assert(server(origin).answers(origin));
        match server(looking.asks()) {
            Reply::Geometry { width, height, .. } => {
                let placed = FindState { phase: FindPhase::Origin { width, height }, ..looking };
                assert(looking.after(server(looking.asks())) == FindStepView::Ask(placed));
                if covers(server, window, state.root, state.x as int, state.y as int) {
                    reveal_with_fuel(find_run, 3);
                    2
                } else {
                    let below = FindState { left: state.left - 1, ..placed };
                    let more = run_windows(below, server);
                    assert(placed.after(server(placed.asks())) == below.look_at_next());
                    assert(find_run(looking, server, (more + 2) as nat) == find_run(
                        placed,
                        server,
                        (more + 1) as nat,
                    ));
                    more + 2
                }
            },
            _ => {
                let below = FindState { left: state.left - 1, ..looking };
                let more = run_windows(below, server);
                assert(looking.after(server(looking.asks())) == below.look_at_next());
                more + 1
            },
        }
    }
}

/// On a steady server, a search ends, with the window that [`client_on`] names.
pub proof fn finder_finds_the_client(
    server: spec_fn(Request) -> Reply,
    order: ByteOrder,
    root: u32,
) -> (steps: nat)
    requires
        steady(server),
    ensures
        find_run(FindState::start(order, root), server, steps) == find_end(
            client_on(server, order, root),
        ),
{
    let start = FindState::start(order, root);
    let end = find_end(client_on(server, order, root));
    assert(server(start.asks()).answers(start.asks()));
    let mut steps: nat = 1;
    if let Reply::Pointer { x, y } = server(start.asks()) {
        let pointed = FindState {
            phase: FindPhase::StackingAtom,
            x: x as i32,
            y: y as i32,
            ..start
        };
        assert(server(pointed.asks()).answers(pointed.asks()));
        let mut after_pointer: nat = 1;
        if let Reply::Atom(atom) = server(pointed.asks()) {
            let asked = FindState { phase: FindPhase::Stacking { atom }, ..pointed };
            assert(server(asked.asks()).answers(asked.asks()));
            let mut after_atom: nat = 1;
            if let Reply::Property { kind, value } = server(asked.asks()) {
                if kind != 0 {
                    let windows = window_ids(order, value@);
                    let known = FindState { windows, left: windows.len() as int, ..asked };
                    assert(windows.take(windows.len() as int) =~= windows);
                    after_atom = run_windows(known, server) + 1;
                } else {
                    let second = FindState { phase: FindPhase::ClientListAtom, ..asked };
                    assert(server(second.asks()).answers(second.asks()));
                    let mut after_list: nat = 1;
                    if let Reply::Atom(atom) = server(second.asks()) {
                        let third = FindState { phase: FindPhase::ClientList { atom }, ..second };
                        assert(server(third.asks()).answers(third.asks()));
                        let mut last: nat = 1;
                        if let Reply::Property { kind, value } = server(third.asks()) {
                            if kind != 0 {
                                let windows = window_ids(order, value@);
                                let known = FindState {
                                    windows,
                                    left: windows.len() as int,
                                    ..third
                                };
                                assert(windows.take(windows.len() as int) =~= windows);
                                last = run_windows(known, server) + 1;
                            }
                        }
                        assert(find_run(third, server, last) == end);
                        after_list = last + 1;
                    }
                    assert(find_run(second, server, after_list) == end);
                    after_atom = after_list + 1;
                }
            }
            assert(find_run(asked, server, after_atom) == end);
            after_pointer = after_atom + 1;
        }
        assert(find_run(pointed, server, after_pointer) == end);
        steps = after_pointer + 1;
    }
    steps
}

/// The topmost window at a point covers the point, and no window above it does.
pub proof fn topmost_is_topmost(
    server: spec_fn(Request) -> Reply,
    windows: Seq<u32>,
    root: u32,
    x: int,
    y: int,
)
    ensures
        (topmost(server, windows, root, x, y) == root && forall|i: int|
            0 <= i < windows.len() ==> !covers(server, #[trigger] windows[i], root, x, y)) || (
        exists|top: int|
            0 <= top < windows.len() && #[trigger] windows[top] == topmost(
                server,
                windows,
                root,
                x,
                y,
            ) && covers(server, windows[top], root, x, y) && forall|i: int|
                top < i < windows.len() ==> !covers(server, #[trigger] windows[i], root, x, y)),
    decreases windows.len(),
{
    if windows.len() > 0 {
        let below = windows.drop_last();
        let found = topmost(server, windows, root, x, y);
        if covers(server, windows.last(), root, x, y) {
            assert(windows[windows.len() - 1] == found);
        } else {
            topmost_is_topmost(server, below, root, x, y);
            if exists|top: int|
                0 <= top < below.len() && #[trigger] below[top] == found && covers(
                    server,
                    below[top],
                    root,
                    x,
                    y,
                ) && forall|i: int|
                    top < i < below.len() ==> !covers(server, #[trigger] below[i], root, x, y) {
                let top = choose|top: int|
                    0 <= top < below.len() && #[trigger] below[top] == found && covers(
                        server,
                        below[top],
                        root,
                        x,
                        y,
                    ) && forall|i: int|
                        top < i < below.len() ==> !covers(server, #[trigger] below[i], root, x, y);
                assert(windows[top] == found);
                assert forall|i: int| top < i < windows.len() implies !covers(
                    server,
                    #[trigger] windows[i],
                    root,
                    x,
                    y,
                ) by {
                    if i < below.len() {
                        assert(below[i] == windows[i]);
                    }
                }
            } else {
                assert forall|i: int| 0 <= i < windows.len() implies !covers(
                    server,
                    #[trigger] windows[i],
                    root,
                    x,
                    y,
                ) by {
                    if i < below.len() {
                        assert(below[i] == windows[i]);
                    }
                }
            }
        }
    }
}

/// Further replies do not change what a search has come to.
pub proof fn find_end_is_final(
    state: FindState,
    server: spec_fn(Request) -> Reply,
    steps: nat,
    more: nat,
)
    requires
        !(find_run(state, server, steps) is Ask),
        steps <= more,
    ensures
        find_run(state, server, more) == find_run(state, server, steps),
    decreases steps,
{
    if steps > 0 {
        if let FindStepView::Ask(next) = state.after(server(state.asks())) {
            find_end_is_final(next, server, (steps - 1) as nat, (more - 1) as nat);
        }
    }
}

/// A point is in a window exactly if it is no less far from the window's left and upper edge than
/// they are, and less far than the window is wide and high.
pub proof fn point_is_inside_by_its_distances(
    x: i32,
    y: i32,
    win_x: i16,
    win_y: i16,
    width: u16,
    height: u16,
    inside: bool,
)
    requires
        call_ensures(window_contains_point, (x, y, win_x, win_y, width, height), inside),
    ensures
        inside <==> 0 <= x - win_x < width && 0 <= y - win_y < height,
{
}

/// Exchanging the two axes, or moving window and point alike, does not change whether the point is
/// in the window; a window without an extent holds no point.
pub proof fn containment_is_geometric(
    x: int,
    y: int,
    win_x: int,
    win_y: int,
    width: int,
    height: int,
    right: int,
    down: int,
)
    ensures
        contains_point(x, y, win_x, win_y, width, height) == contains_point(
            y,
            x,
            win_y,
            win_x,
            height,
            width,
        ),
        contains_point(x, y, win_x, win_y, width, height) == contains_point(
            x + right,
            y + down,
            win_x + right,
            win_y + down,
            width,
            height,
        ),
        width <= 0 || height <= 0 ==> !contains_point(x, y, win_x, win_y, width, height),
        0 < width && 0 < height ==> contains_point(
            win_x + width - 1,
            win_y + height - 1,
            win_x,
            win_y,
            width,
            height,
        ),
        !contains_point(x, win_y + height, win_x, win_y, width, height),
        !contains_point(win_x + width, y, win_x, win_y, width, height),
{
}

/// Whether the server gives `window` a size and a place on `root` such that `(x, y)` is in it.
pub open spec fn is_at(
    server: spec_fn(Request) -> Reply,
    window: u32,
    root: u32,
    x: int,
    y: int,
) -> bool {
    match (
        server(Request::GetGeometry { window }),
        server(Request::TranslateOrigin { window, target: root }),
    ) {
        (
            Reply::Geometry { width, height, .. },
            Reply::Origin { x: left, y: top },
        ) => 0 <= x - left < width && 0 <= y - top < height,
        _ => false,
    }
}

proof fn topmost_of_those_at(
    server: spec_fn(Request) -> Reply,
    windows: Seq<u32>,
    root: u32,
    x: int,
    y: int,
    top: int,
)
    requires
        -1 <= top < windows.len(),
        top >= 0 ==> is_at(server, windows[top], root, x, y),
        forall|i: int| top < i < windows.len() ==> !is_at(server, #[trigger] windows[i], root, x, y),
    ensures
        topmost(server, windows, root, x, y) == if top >= 0 {
            windows[top]
        } else {
            root
        },
    decreases windows.len(),
{
    if windows.len() > 0 {
        assert(windows.last() == windows[windows.len() - 1]);
        assert(covers(server, windows.last(), root, x, y) == is_at(
            server,
            windows.last(),
            root,
            x,
            y,
        ));
        if top < windows.len() - 1 {
            let below = windows.drop_last();
            assert forall|i: int| top < i < below.len() implies !is_at(
                server,
                #[trigger] below[i],
                root,
                x,
                y,
            ) by {
                assert(below[i] == windows[i]);
            }
            topmost_of_those_at(server, below, root, x, y, top);
        }
    }
}

/// The window that is found is the last one of the stacking list that the pointer is in. Where the
/// pointer is in none of them (`top` is -1), the root window is found.
pub proof fn last_stacked_window_under_the_pointer_is_found(
    server: spec_fn(Request) -> Reply,
    order: ByteOrder,
    root: u32,
    x: i16,
    y: i16,
    stacking: u32,
    kind: u32,
    value: Vec<u8>,
    top: int,
) -> (steps: nat)
    requires
        steady(server),
        server(Request::QueryPointer { window: root }) == (Reply::Pointer { x, y }),
        server(Request::InternAtom(AtomName::NetClientListStacking)) == Reply::Atom(stacking),
        server(
            Request::GetProperty {
                window: root,
                property: Property::Atom(stacking),
                kind: PropertyType::Window,
            },
        ) == (Reply::Property { kind, value }),
        kind != 0,
        -1 <= top < window_ids(order, value@).len(),
        top >= 0 ==> is_at(server, window_ids(order, value@)[top], root, x as int, y as int),
        forall|i: int|
            top < i < window_ids(order, value@).len() ==> !is_at(
                server,
                #[trigger] window_ids(order, value@)[i],
                root,
                x as int,
                y as int,
            ),
    ensures
        find_run(FindState::start(order, root), server, steps) == FindStepView::Found(
            if top >= 0 {
                window_ids(order, value@)[top]
            } else {
                root
            },
        ),
{
    topmost_of_those_at(server, window_ids(order, value@), root, x as int, y as int, top);
    finder_finds_the_client(server, order, root)
}

/// Where there is no stacking list, the same holds of the client list.
pub proof fn last_client_under_the_pointer_is_found(
    server: spec_fn(Request) -> Reply,
    order: ByteOrder,
    root: u32,
    x: i16,
    y: i16,
    stacking: u32,
    missing: Vec<u8>,
    list: u32,
    kind: u32,
    value: Vec<u8>,
    top: int,
) -> (steps: nat)
    requires
        steady(server),
        server(Request::QueryPointer { window: root }) == (Reply::Pointer { x, y }),
        server(Request::InternAtom(AtomName::NetClientListStacking)) == Reply::Atom(stacking),
        server(Request::InternAtom(AtomName::NetClientList)) == Reply::Atom(list),
        server(
            Request::GetProperty {
                window: root,
                property: Property::Atom(stacking),
                kind: PropertyType::Window,
            },
        ) == (Reply::Property { kind: 0, value: missing }),
        server(
            Request::GetProperty {
                window: root,
                property: Property::Atom(list),
                kind: PropertyType::Window,
            },
        ) == (Reply::Property { kind, value }),
        kind != 0,
        -1 <= top < window_ids(order, value@).len(),
        top >= 0 ==> is_at(server, window_ids(order, value@)[top], root, x as int, y as int),
        forall|i: int|
            top < i < window_ids(order, value@).len() ==> !is_at(
                server,
                #[trigger] window_ids(order, value@)[i],
                root,
                x as int,
                y as int,
            ),
    ensures
        find_run(FindState::start(order, root), server, steps) == FindStepView::Found(
            if top >= 0 {
                window_ids(order, value@)[top]
            } else {
                root
            },
        ),
{
    topmost_of_those_at(server, window_ids(order, value@), root, x as int, y as int, top);
    finder_finds_the_client(server, order, root)
}

/// A pointer or a list of windows that cannot be asked for ends the search with that message, and
/// where both lists are missing, the root window is found.
pub proof fn search_needs_pointer_and_list(
    server: spec_fn(Request) -> Reply,
    order: ByteOrder,
    root: u32,
) -> (steps: nat)
    requires
        steady(server),
    ensures
        ({
            let end = find_run(FindState::start(order, root), server, steps);
            let pointer = server(Request::QueryPointer { window: root });
            let stacking = server(Request::InternAtom(AtomName::NetClientListStacking));
            let list = server(Request::InternAtom(AtomName::NetClientList));
            let stacked = server(
                Request::GetProperty {
                    window: root,
                    property: Property::Atom(stacking->Atom_0),
                    kind: PropertyType::Window,
                },
            );
            let listed = server(
                Request::GetProperty {
                    window: root,
                    property: Property::Atom(list->Atom_0),
                    kind: PropertyType::Window,
                },
            );
            &&& pointer.failure() matches Some(message) ==> end == FindStepView::Failed(message)
            &&& pointer.failure() is None ==> {
                &&& stacking.failure() matches Some(message) ==> end == FindStepView::Failed(
                    message,
                )
                &&& stacking.failure() is None ==> {
                    &&& stacked.failure() matches Some(message) ==> end == FindStepView::Failed(
                        message,
                    )
                    &&& stacked matches Reply::Property { kind, .. } ==> (kind == 0 ==> {
                        &&& list.failure() matches Some(message) ==> end == FindStepView::Failed(
                            message,
                        )
                        &&& list.failure() is None ==> {
                            &&& listed.failure() matches Some(message) ==> end
                                == FindStepView::Failed(message)
                            &&& listed matches Reply::Property { kind, .. } ==> (kind == 0 ==> end
                                == FindStepView::Found(root))
                        }
                    })
                }
            }
        }),
{
    let pointer = Request::QueryPointer { window: root };
    let stacking = Request::InternAtom(AtomName::NetClientListStacking);
    let list = Request::InternAtom(AtomName::NetClientList);
    assert(server(pointer).answers(pointer));
    assert(server(stacking).answers(stacking));
    assert(server(list).answers(list));
    let stacked = Request::GetProperty {
        window: root,
        property: Property::Atom(server(stacking)->Atom_0),
        kind: PropertyType::Window,
    };
    let listed = Request::GetProperty {
        window: root,
        property: Property::Atom(server(list)->Atom_0),
        kind: PropertyType::Window,
    };
    assert(server(stacked).answers(stacked));
    assert(server(listed).answers(listed));
    finder_finds_the_client(server, order, root)
}

} // verus!
