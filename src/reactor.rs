use vstd::prelude::*;

use crate::geometry::Rectangle;
use crate::message::{Color, Message};
use crate::registry::{apply_keeps_consistent, RegistryOp, RegistryView, WindowRegistry};

verus! {

/// How newly mapped windows are placed.
#[derive(Debug, Clone, Copy, PartialEq, Eq, Structural)]
pub enum LayoutMode {
    /// Each new window fills the screen less a gap.
    Tiling,
    /// Not implemented: a new window keeps the geometry that it asked for.
    Stacking,
}

/// Where a reconfigured window goes in the stacking order.
#[derive(Debug, Clone, Copy, PartialEq, Eq, Structural)]
pub enum StackMode {
    Above,
    Below,
    TopIf,
    BottomIf,
    Opposite,
}

/// The fields of a reconfigure request; `None` leaves a field as it is.
#[derive(Debug, Clone, Copy, PartialEq, Eq)]
pub struct WindowChanges {
    pub x: Option<i32>,
    pub y: Option<i32>,
    pub width: Option<u32>,
    pub height: Option<u32>,
    pub border_width: Option<u32>,
    pub sibling: Option<u32>,
    pub stack_mode: Option<StackMode>,
}

/// A window's geometry as the display server reports it.
#[derive(Debug, Clone, Copy, PartialEq, Eq, Structural)]
pub struct Geometry {
    pub x: i16,
    pub y: i16,
    pub width: u16,
    pub height: u16,
    pub border_width: u16,
}

// The bits of `ConfigureRequest::value_mask` that say which fields a client
// asked to change.
pub const CONFIG_X: u16 = 1;
pub const CONFIG_Y: u16 = 2;
pub const CONFIG_WIDTH: u16 = 4;
pub const CONFIG_HEIGHT: u16 = 8;
pub const CONFIG_BORDER_WIDTH: u16 = 16;
pub const CONFIG_SIBLING: u16 = 32;
pub const CONFIG_STACK_MODE: u16 = 64;

/// A client's request to change its own window's geometry or stacking.
#[derive(Debug, Clone, Copy, PartialEq, Eq, Structural)]
pub struct ConfigureRequest {
    pub window: u32,
    pub x: i16,
    pub y: i16,
    pub width: u16,
    pub height: u16,
    pub border_width: u16,
    pub sibling: u32,
    pub stack_mode: StackMode,
    pub value_mask: u16,
}

/// An event from the display server, as far as the window manager reads it.
#[derive(Debug, Clone, Copy, PartialEq, Eq)]
pub enum Event {
    /// A client asks for its window to be shown.
    MapRequest { window: u32 },
    /// A client asks to change its window's geometry or stacking.
    ConfigureRequest(ConfigureRequest),
    /// The pointer moved.
    MotionNotify,
    /// A pointer button was pressed; `child` is the window under the pointer,
    /// or 0 for none.
    ButtonPress { detail: u8, child: u32 },
    /// Any other event.
    Other,
}

/// A request for the display server.
#[derive(Debug, Clone, Copy, PartialEq, Eq)]
pub enum Request {
    /// Reconfigure a window.
    Configure { window: u32, changes: WindowChanges },
    /// Set a window's border colour.
    SetBorderColor { window: u32, color: Color },
    /// Subscribe to a window's property and focus changes.
    WatchWindow { window: u32 },
    /// Show a window.
    MapWindow { window: u32 },
    /// Terminate the client that owns a window.
    Kill { window: u32 },
    /// Ask the client that owns a window to close it.
    Close { window: u32 },
    /// Destroy a window.
    Destroy { window: u32 },
    /// Query a window's geometry and reconfigure it with what
    /// [`reborder`] returns for that geometry and this border width.
    Reborder { window: u32, border_width: u32 },
}

/// The gap between a tiled window and the screen's edge, on each axis.
pub const WINDOW_GAP: u16 = 16;

/// Whether `bit` is set in `mask`.
pub open spec fn has_bit(mask: u16, bit: u16) -> bool {
    mask & bit != 0
}

/// The area of a tiled window on a screen of the given size, inside its
/// border: the screen less the gap on each side, less the border on each
/// side; none where that leaves no room.
pub open spec fn tiled(screen_width: u16, screen_height: u16, border_width: u32) -> Option<
    Rectangle,
> {
    if screen_width >= 2 * WINDOW_GAP + 2 * border_width && screen_height >= 2 * WINDOW_GAP + 2
        * border_width {
        Some(
            Rectangle {
                x: WINDOW_GAP as i16,
                y: WINDOW_GAP as i16,
                width: (screen_width - 2 * WINDOW_GAP - 2 * border_width) as u16,
                height: (screen_height - 2 * WINDOW_GAP - 2 * border_width) as u16,
            },
        )
    } else {
        None
    }
}

pub open spec fn no_changes() -> WindowChanges {
    WindowChanges {
        x: None,
        y: None,
        width: None,
        height: None,
        border_width: None,
        sibling: None,
        stack_mode: None,
    }
}

/// The changes that place a window at `r` with a border of `border_width`.
pub open spec fn placement(r: Rectangle, border_width: u32) -> WindowChanges {
    WindowChanges {
        x: Some(r.x as i32),
        y: Some(r.y as i32),
        width: Some(r.width as u32),
        height: Some(r.height as u32),
        border_width: Some(border_width),
        ..no_changes()
    }
}

/// The changes that move a window to `(x, y)`, nothing else; the
/// coordinates are taken as the display server's signed 32-bit values.
pub open spec fn move_to(x: u32, y: u32) -> WindowChanges {
    WindowChanges { x: Some(x as i32), y: Some(y as i32), ..no_changes() }
}

/// Each field that the client asked for, as it asked for it.
pub open spec fn requested_changes(c: ConfigureRequest) -> WindowChanges {
    WindowChanges {
        x: if has_bit(c.value_mask, CONFIG_X) {
            Some(c.x as i32)
        } else {
            None
        },
        y: if has_bit(c.value_mask, CONFIG_Y) {
            Some(c.y as i32)
        } else {
            None
        },
        width: if has_bit(c.value_mask, CONFIG_WIDTH) {
            Some(c.width as u32)
        } else {
            None
        },
        height: if has_bit(c.value_mask, CONFIG_HEIGHT) {
            Some(c.height as u32)
        } else {
            None
        },
        border_width: if has_bit(c.value_mask, CONFIG_BORDER_WIDTH) {
            Some(c.border_width as u32)
        } else {
            None
        },
        sibling: if has_bit(c.value_mask, CONFIG_SIBLING) {
            Some(c.sibling)
        } else {
            None
        },
        stack_mode: if has_bit(c.value_mask, CONFIG_STACK_MODE) {
            Some(c.stack_mode)
        } else {
            None
        },
    }
}

/// The changes that give a window of geometry `g` a border of `border_width`
/// while its outer box, border included, keeps its size: width and height
/// shrink by twice the growth of the border. None where the new width or
/// height would not fit in 16 bits or would be negative.
pub open spec fn reborder_changes(g: Geometry, border_width: u32) -> Option<WindowChanges> {
    let delta = border_width - g.border_width;
    let width = g.width - 2 * delta;
    let height = g.height - 2 * delta;
    if 0 <= width <= u16::MAX && 0 <= height <= u16::MAX {
        Some(
            WindowChanges {
                width: Some(width as u32),
                height: Some(height as u32),
                border_width: Some(border_width),
                ..no_changes()
            },
        )
    } else {
        None
    }
}

/// Where a window can be given a new border, its outer box keeps its size:
/// the new width and height plus twice the new border equal the old width
/// and height plus twice the old border.
pub proof fn reborder_keeps_outer_box(g: Geometry, border_width: u32)
    ensures
        reborder_changes(g, border_width) matches Some(c) ==> {
            &&& c.border_width == Some(border_width)
            &&& c.width matches Some(w) && w + 2 * border_width == g.width + 2 * g.border_width
            &&& c.height matches Some(h) && h + 2 * border_width == g.height + 2
                * g.border_width
        },
{
}

/// The whole state of the window manager.
pub struct WmView {
    pub registry: RegistryView,
    pub layout: LayoutMode,
    pub border_width: u32,
    pub border_color: Color,
    pub screen_width: u16,
    pub screen_height: u16,
    pub meta_window: u32,
    pub graceful_close: bool,
}

impl WmView {
    pub open spec fn with_registry(self, registry: RegistryView) -> WmView {
        WmView { registry, ..self }
    }

    /// One request of the given kind for each managed window, in order.
    pub open spec fn each_window(self, kind: PerWindow) -> Seq<Request> {
        self.registry.windows.map_values(|w: u32| kind.request(w))
    }

    /// The requests that show a newly mapped window: in the tiling layout,
    /// where the screen leaves room, the placement; then the border colour,
    /// then the map.
    pub open spec fn map_requests(self, window: u32) -> Seq<Request> {
        let place = if self.layout == LayoutMode::Tiling {
            match tiled(self.screen_width, self.screen_height, self.border_width) {
                Some(r) => seq![
                    Request::Configure {
                        window,
                        changes: placement(r, self.border_width),
                    },
                ],
                None => Seq::empty(),
            }
        } else {
            Seq::empty()
        };
        place + seq![
            Request::SetBorderColor { window, color: self.border_color },
            Request::MapWindow { window },
        ]
    }

    /// The requests issued for an event.
    pub open spec fn event_requests(self, e: Event) -> Seq<Request> {
        match e {
            Event::MapRequest { window } => self.map_requests(window),
            Event::ConfigureRequest(c) => seq![
                Request::Configure { window: c.window, changes: requested_changes(c) },
                Request::WatchWindow { window: c.window },
            ],
            _ => Seq::empty(),
        }
    }

    /// The state after an event: a mapped window is added and focused (only
    /// focused where it is already managed); a press of the first button over
    /// a window focuses that window.
    pub open spec fn after_event(self, e: Event) -> WmView {
        match e {
            Event::MapRequest { window } => self.with_registry(
                if self.registry.windows.contains(window) {
                    self.registry.focused_on(window)
                } else {
                    self.registry.added(window)
                },
            ),
            Event::ButtonPress { detail, child } => if detail == 1 && child != 0 {
                self.with_registry(self.registry.focused_on(child))
            } else {
                self
            },
            _ => self,
        }
    }

    /// The requests issued for a control message.
    pub open spec fn message_requests(self, m: Message) -> Seq<Request> {
        match m {
            Message::Quit => self.each_window(PerWindow::Destroy).push(
                Request::Destroy { window: self.meta_window },
            ),
            Message::CloseWindow => match self.registry.focused {
                Some(f) => seq![
                    if self.graceful_close {
                        Request::Close { window: f }
                    } else {
                        Request::Kill { window: f }
                    },
                ],
                None => Seq::empty(),
            },
            Message::MoveWindow { x, y } => match self.registry.focused {
                Some(f) => seq![Request::Configure { window: f, changes: move_to(x, y) }],
                None => Seq::empty(),
            },
            Message::SetBorderWidth { width } => self.each_window(PerWindow::Reborder(width)),
            Message::SetBorderColor { color } => self.each_window(PerWindow::Recolor(color)),
        }
    }

    /// The state after a control message: a closed window leaves the
    /// registry; the border style takes the new width or colour.
    pub open spec fn after_message(self, m: Message) -> WmView {
        match m {
            Message::CloseWindow => match self.registry.focused {
                Some(f) => self.with_registry(self.registry.removed(f)),
                None => self,
            },
            Message::SetBorderWidth { width } => WmView { border_width: width, ..self },
            Message::SetBorderColor { color } => WmView { border_color: color, ..self },
            _ => self,
        }
    }
}

/// A kind of request that goes to every managed window.
pub enum PerWindow {
    Destroy,
    Reborder(u32),
    Recolor(Color),
}

impl PerWindow {
    pub open spec fn request(self, window: u32) -> Request {
        match self {
            PerWindow::Destroy => Request::Destroy { window },
            PerWindow::Reborder(border_width) => Request::Reborder { window, border_width },
            PerWindow::Recolor(color) => Request::SetBorderColor { window, color },
        }
    }

    fn make(&self, window: u32) -> (r: Request)
        ensures
            r == self.request(window),
    {
        match self {
            PerWindow::Destroy => Request::Destroy { window },
            PerWindow::Reborder(border_width) => Request::Reborder {
                window,
                border_width: *border_width,
            },
            PerWindow::Recolor(color) => Request::SetBorderColor { window, color: *color },
        }
    }
}

fn each_window(windows: &Vec<u32>, kind: PerWindow) -> (r: Vec<Request>)
    ensures
        r@ == windows@.map_values(|w: u32| kind.request(w)),
{
    let mut out: Vec<Request> = Vec::new();
    let mut i: usize = 0;
    while i < windows.len()
        invariant
            i <= windows@.len(),
            out@ == windows@.subrange(0, i as int).map_values(|w: u32| kind.request(w)),
        decreases windows@.len() - i,
    {
        out.push(kind.make(windows[i]));
        i += 1;
        assert(windows@.subrange(0, i as int) =~= windows@.subrange(0, i - 1).push(
            windows@[i - 1],
        ));
        assert(out@ =~= windows@.subrange(0, i as int).map_values(|w: u32| kind.request(w)));
    }
    assert(windows@.subrange(0, i as int) =~= windows@);
    out
}

/// The area inside the border of a tiled window on a screen of the given
/// size: the screen deflated by the gap, less the border on each side.
pub fn tiled_rectangle(screen_width: u16, screen_height: u16, border_width: u32) -> (r: Option<
    Rectangle,
>)
    ensures
        r == tiled(screen_width, screen_height, border_width),
{
    let border: u64 = 2 * border_width as u64;
    if (screen_width as u64) < 2 * WINDOW_GAP as u64 + border || (screen_height as u64) < 2
        * WINDOW_GAP as u64 + border {
        return None;
    }
    let mut area = Rectangle::new(0, 0, screen_width, screen_height);
    area.deflate(WINDOW_GAP as i16, WINDOW_GAP as i16);
    area.width = area.width - border as u16;
    area.height = area.height - border as u16;
    Some(area)
}

/// The reconfiguration that gives a window of geometry `g` a border of
/// `border_width` while its outer box keeps its size.
pub fn reborder(g: Geometry, border_width: u32) -> (r: Option<WindowChanges>)
    ensures
        r == reborder_changes(g, border_width),
{
    let delta: i64 = border_width as i64 - g.border_width as i64;
    let width: i64 = g.width as i64 - 2 * delta;
    let height: i64 = g.height as i64 - 2 * delta;
    if 0 <= width && width <= u16::MAX as i64 && 0 <= height && height <= u16::MAX as i64 {
        Some(
            WindowChanges {
                x: None,
                y: None,
                width: Some(width as u32),
                height: Some(height as u32),
                border_width: Some(border_width),
                sibling: None,
                stack_mode: None,
            },
        )
    } else {
        None
    }
}

fn bit_if<T>(mask: u16, bit: u16, value: T) -> (r: Option<T>)
    ensures
        r == (if has_bit(mask, bit) {
            Some(value)
        } else {
            None
        }),
{
    if mask & bit != 0 {
        Some(value)
    } else {
        None
    }
}

/// Passes through each field that the client asked to change.
pub fn configure_changes(c: &ConfigureRequest) -> (r: WindowChanges)
    ensures
        r == requested_changes(*c),
{
    WindowChanges {
        x: bit_if(c.value_mask, CONFIG_X, c.x as i32),
        y: bit_if(c.value_mask, CONFIG_Y, c.y as i32),
        width: bit_if(c.value_mask, CONFIG_WIDTH, c.width as u32),
        height: bit_if(c.value_mask, CONFIG_HEIGHT, c.height as u32),
        border_width: bit_if(c.value_mask, CONFIG_BORDER_WIDTH, c.border_width as u32),
        sibling: bit_if(c.value_mask, CONFIG_SIBLING, c.sibling),
        stack_mode: bit_if(c.value_mask, CONFIG_STACK_MODE, c.stack_mode),
    }
}

/// The window manager's state: the managed windows and focus, the layout,
/// the border style, the screen's size, the meta window, and whether windows
/// are closed by asking their clients rather than terminating them.
pub struct WindowManager {
    registry: WindowRegistry,
    layout: LayoutMode,
    border_width: u32,
    border_color: Color,
    screen_width: u16,
    screen_height: u16,
    meta_window: u32,
    graceful_close: bool,
}

impl View for WindowManager {
    type V = WmView;

    closed spec fn view(&self) -> WmView {
        WmView {
            registry: self.registry@,
            layout: self.layout,
            border_width: self.border_width,
            border_color: self.border_color,
            screen_width: self.screen_width,
            screen_height: self.screen_height,
            meta_window: self.meta_window,
            graceful_close: self.graceful_close,
        }
    }
}

impl WindowManager {
    pub closed spec fn wf(&self) -> bool {
        self.registry.wf()
    }

    /// A window manager with no windows, in the tiling layout, with no border
    /// of colour midnight blue, that terminates the clients of closed windows.
    pub fn new(screen_width: u16, screen_height: u16, meta_window: u32) -> (r: WindowManager)
        ensures
            r.wf(),
            r@ == (WmView {
                registry: RegistryView::empty(),
                layout: LayoutMode::Tiling,
                border_width: 0,
                border_color: Color { r: 25, g: 25, b: 112 },
                screen_width,
                screen_height,
                meta_window,
                graceful_close: false,
            }),
    {
        WindowManager {
            registry: WindowRegistry::new(),
            layout: LayoutMode::Tiling,
            border_width: 0,
            border_color: Color::midnight_blue(),
            screen_width,
            screen_height,
            meta_window,
            graceful_close: false,
        }
    }

    /// Handles an event from the display server and returns the requests to
    /// issue, in order.
    pub fn handle_event(&mut self, e: &Event) -> (r: Vec<Request>)
        requires
            old(self).wf(),
        ensures
            final(self).wf(),
            r@ == old(self)@.event_requests(*e),
            final(self)@ == old(self)@.after_event(*e),
            !(e is ButtonPress) && old(self)@.registry.consistent()
                ==> final(self)@.registry.consistent(),
    {
        match e {
            Event::MapRequest { window } => {
                let window = *window;
                let mut out: Vec<Request> = Vec::new();
                if self.layout == LayoutMode::Tiling {
                    if let Some(area) = tiled_rectangle(
                        self.screen_width,
                        self.screen_height,
                        self.border_width,
                    ) {
                        out.push(
                            Request::Configure {
                                window,
                                changes: WindowChanges {
                                    x: Some(area.x as i32),
                                    y: Some(area.y as i32),
                                    width: Some(area.width as u32),
                                    height: Some(area.height as u32),
                                    border_width: Some(self.border_width),
                                    sibling: None,
                                    stack_mode: None,
                                },
                            },
                        );
                    }
                }
                out.push(Request::SetBorderColor { window, color: self.border_color });
                out.push(Request::MapWindow { window });
                if self.registry.contains(window) {
                    self.registry.focus(window);
                } else {
                    self.registry.add(window);
                    proof {
                        if old(self)@.registry.consistent() {
                            apply_keeps_consistent(old(self)@.registry, RegistryOp::Add(window));
                        }
                    }
                }
                assert(out@ =~= old(self)@.map_requests(window));
                out
            },
            Event::ConfigureRequest(c) => {
                let mut out: Vec<Request> = Vec::new();
                out.push(Request::Configure { window: c.window, changes: configure_changes(c) });
                out.push(Request::WatchWindow { window: c.window });
                assert(out@ =~= old(self)@.event_requests(*e));
                out
            },
            Event::ButtonPress { detail, child } => {
                if *detail == 1 && *child != 0 {
                    self.registry.focus(*child);
                }
                Vec::new()
            },
            _ => Vec::new(),
        }
    }

    /// Handles a control message and returns the requests to issue, in
    /// order. After [`Message::Quit`] these are the requests that shut the
    /// window manager down, and the caller stops.
    pub fn handle_message(&mut self, m: &Message) -> (r: Vec<Request>)
        requires
            old(self).wf(),
        ensures
            final(self).wf(),
            r@ == old(self)@.message_requests(*m),
            final(self)@ == old(self)@.after_message(*m),
            old(self)@.registry.consistent() ==> final(self)@.registry.consistent(),
    {
        match m {
            Message::Quit => {
                let mut out = each_window(self.registry.all(), PerWindow::Destroy);
                out.push(Request::Destroy { window: self.meta_window });
                out
            },
            Message::CloseWindow => {
                match self.registry.focused() {
                    Some(f) => {
                        let request = if self.graceful_close {
                            Request::Close { window: f }
                        } else {
                            Request::Kill { window: f }
                        };
                        self.registry.remove(f);
                        proof {
                            if old(self)@.registry.consistent() {
                                apply_keeps_consistent(old(self)@.registry, RegistryOp::Remove(f));
                            }
                        }
                        let mut out: Vec<Request> = Vec::new();
                        out.push(request);
                        assert(out@ =~= old(self)@.message_requests(*m));
                        out
                    },
                    None => Vec::new(),
                }
            },
            Message::MoveWindow { x, y } => {
                match self.registry.focused() {
                    Some(f) => {
                        let mut out: Vec<Request> = Vec::new();
                        out.push(
                            Request::Configure {
                                window: f,
                                changes: WindowChanges {
                                    x: Some(*x as i32),
                                    y: Some(*y as i32),
                                    width: None,
                                    height: None,
                                    border_width: None,
                                    sibling: None,
                                    stack_mode: None,
                                },
                            },
                        );
                        assert(out@ =~= old(self)@.message_requests(*m));
                        out
                    },
                    None => Vec::new(),
                }
            },
            Message::SetBorderWidth { width } => {
                self.border_width = *width;
                each_window(self.registry.all(), PerWindow::Reborder(*width))
            },
            Message::SetBorderColor { color } => {
                self.border_color = *color;
                each_window(self.registry.all(), PerWindow::Recolor(*color))
            },
        }
    }

    pub fn set_layout(&mut self, layout: LayoutMode)
        ensures
            final(self)@ == (WmView { layout, ..old(self)@ }),
            final(self).wf() == old(self).wf(),
    {
        self.layout = layout;
    }

    pub fn set_graceful_close(&mut self, graceful_close: bool)
        ensures
            final(self)@ == (WmView { graceful_close, ..old(self)@ }),
            final(self).wf() == old(self).wf(),
    {
        self.graceful_close = graceful_close;
    }

    pub fn focused(&self) -> (r: Option<u32>)
        ensures
            r == self@.registry.focused,
    {
        self.registry.focused()
    }

    pub fn windows(&self) -> (r: &Vec<u32>)
        ensures
            r@ == self@.registry.windows,
    {
        self.registry.all()
    }

    pub fn border_width(&self) -> (r: u32)
        ensures
            r == self@.border_width,
    {
        self.border_width
    }

    pub fn border_color(&self) -> (r: Color)
        ensures
            r == self@.border_color,
    {
        self.border_color
    }
}

} // verus!
