//! Which pointer tool the canvas is in, and the space bar that borrows it.
//!
//! The tool the operator *chose* is the only persistent value; whether the
//! space bar is held is read fresh every frame and composed with it by
//! [`resolve`]. "Returning to the previous tool" is therefore not an action
//! that can be missed: it is what the next frame computes once the key is up.

use vstd::prelude::*;

verus! {

/// The markup shape a drag authors while the markup tool is armed.
#[derive(Debug, Clone, Copy, PartialEq, Eq, Structural)]
pub enum MarkupKind {
    Rectangle,
    Ellipse,
    Arrow,
    Highlight,
}

impl MarkupKind {
    /// Every markup kind, once.
    pub const ALL: [MarkupKind; 4] = [
        MarkupKind::Rectangle,
        MarkupKind::Ellipse,
        MarkupKind::Arrow,
        MarkupKind::Highlight,
    ];
}

/// The dimension a click sequence authors while the measure tool is armed.
#[derive(Debug, Clone, Copy, PartialEq, Eq, Structural)]
pub enum MeasureKind {
    Linear,
    Radial,
    Angular,
}

/// What the current mode lets the operator author.
#[derive(Debug, Clone, Copy, PartialEq, Eq, Structural)]
pub struct Capabilities {
    pub edit_content: bool,
    pub author_markup: bool,
    pub author_measure: bool,
}

/// The pointer shapes the canvas asks for.
#[derive(Debug, Clone, Copy, PartialEq, Eq, Structural)]
pub enum CursorIcon {
    Grab,
    Grabbing,
    Crosshair,
    Text,
    ResizeNorth,
    ResizeNorthEast,
    ResizeEast,
    ResizeSouthEast,
    ResizeSouth,
    ResizeSouthWest,
    ResizeWest,
    ResizeNorthWest,
}

/// A resize handle on the selection's bounding box.
#[derive(Debug, Clone, Copy, PartialEq, Eq, Structural)]
pub enum Grip {
    North,
    NorthEast,
    East,
    SouthEast,
    South,
    SouthWest,
    West,
    NorthWest,
}

/// The resize cursor that belongs to each grip.
pub open spec fn grip_cursor(g: Grip) -> CursorIcon {
    match g {
        Grip::North => CursorIcon::ResizeNorth,
        Grip::NorthEast => CursorIcon::ResizeNorthEast,
        Grip::East => CursorIcon::ResizeEast,
        Grip::SouthEast => CursorIcon::ResizeSouthEast,
        Grip::South => CursorIcon::ResizeSouth,
        Grip::SouthWest => CursorIcon::ResizeSouthWest,
        Grip::West => CursorIcon::ResizeWest,
        Grip::NorthWest => CursorIcon::ResizeNorthWest,
    }
}

impl Grip {
    /// The cursor shown while this grip is hovered or dragged.
    pub fn cursor(self) -> (c: CursorIcon)
        ensures
            c == grip_cursor(self),
    {
        match self {
            Grip::North => CursorIcon::ResizeNorth,
            Grip::NorthEast => CursorIcon::ResizeNorthEast,
            Grip::East => CursorIcon::ResizeEast,
            Grip::SouthEast => CursorIcon::ResizeSouthEast,
            Grip::South => CursorIcon::ResizeSouth,
            Grip::SouthWest => CursorIcon::ResizeSouthWest,
            Grip::West => CursorIcon::ResizeWest,
            Grip::NorthWest => CursorIcon::ResizeNorthWest,
        }
    }
}

/// Why a marquee is being dragged.
#[derive(Debug, Clone, Copy, PartialEq, Eq, Structural)]
pub enum MarqueeIntent {
    Select,
}

/// The kind of a drag in flight.
#[derive(Debug, Clone, Copy, PartialEq, Eq, Structural)]
pub enum DragKind {
    Marquee(MarqueeIntent),
    Markup(MarkupKind),
    Move,
    Resize(Grip),
    TextSelect,
}

/// What the primary button does over the page: select, move the paper,
/// author a markup or a dimension, or sweep text.
#[derive(Debug, Clone, Copy, PartialEq, Eq, Structural)]
pub enum CanvasTool {
    /// Click selects, drag rubber-bands. The default.
    Select,
    /// Drag moves the paper under the viewport.
    Hand,
    /// Drag authors a markup annotation of the carried kind.
    Markup(MarkupKind),
    /// Clicks author a dimension of the carried kind.
    Measure(MeasureKind),
    /// A drag sweeps a range of text.
    Text,
}

/// The cursor a tool paints, given whether a button is down.
pub open spec fn tool_cursor(t: CanvasTool, dragging: bool) -> Option<CursorIcon> {
    match t {
        CanvasTool::Select => None,
        CanvasTool::Hand => if dragging {
            Some(CursorIcon::Grabbing)
        } else {
            Some(CursorIcon::Grab)
        },
        CanvasTool::Markup(_) => Some(CursorIcon::Crosshair),
        CanvasTool::Measure(_) => Some(CursorIcon::Crosshair),
        CanvasTool::Text => Some(CursorIcon::Text),
    }
}

/// The cursor a gesture in flight asks for.
pub open spec fn drag_cursor(kind: DragKind) -> CursorIcon {
    match kind {
        DragKind::Marquee(_) => CursorIcon::Crosshair,
        DragKind::Markup(_) => CursorIcon::Crosshair,
        DragKind::Move => CursorIcon::Grabbing,
        DragKind::Resize(g) => grip_cursor(g),
        DragKind::TextSelect => CursorIcon::Text,
    }
}

/// The cursor precedence: an armed tool (over the canvas or while a button
/// is down), then the gesture in flight, then a hovered grip, then nothing.
pub open spec fn spec_cursor_for(
    tool: CanvasTool,
    gesture: Option<DragKind>,
    hovered_grip: Option<Grip>,
    pointer_down: bool,
    over_canvas: bool,
) -> Option<CursorIcon> {
    if tool_cursor(tool, pointer_down) is Some && (over_canvas || pointer_down) {
        tool_cursor(tool, pointer_down)
    } else if gesture is Some {
        Some(drag_cursor(gesture->0))
    } else if hovered_grip is Some {
        Some(grip_cursor(hovered_grip->0))
    } else {
        None
    }
}

impl CanvasTool {
    /// The tool a fresh memory answers with.
    pub fn default_tool() -> (t: CanvasTool)
        ensures
            t == CanvasTool::Select,
    {
        CanvasTool::Select
    }

    /// Whether a primary drag moves the paper: true for the hand alone.
    pub fn pans_with_primary(self) -> (r: bool)
        ensures
            r == (self is Hand),
    {
        match self {
            CanvasTool::Hand => true,
            _ => false,
        }
    }

    /// The cursor this tool paints over the page.
    pub fn cursor(self, dragging: bool) -> (c: Option<CursorIcon>)
        ensures
            c == tool_cursor(self, dragging),
    {
        match self {
            CanvasTool::Select => None,
            CanvasTool::Hand => if dragging {
                Some(CursorIcon::Grabbing)
            } else {
                Some(CursorIcon::Grab)
            },
            CanvasTool::Markup(_) => Some(CursorIcon::Crosshair),
            CanvasTool::Measure(_) => Some(CursorIcon::Crosshair),
            CanvasTool::Text => Some(CursorIcon::Text),
        }
    }

    /// The armed markup kind, if this is the markup tool.
    pub fn markup_kind(self) -> (k: Option<MarkupKind>)
        ensures
            k == (match self {
                CanvasTool::Markup(kind) => Some(kind),
                _ => None,
            }),
    {
        match self {
            CanvasTool::Markup(kind) => Some(kind),
            _ => None,
        }
    }

    /// The armed measure kind, if this is the measure tool.
    pub fn measure_kind(self) -> (k: Option<MeasureKind>)
        ensures
            k == (match self {
                CanvasTool::Measure(kind) => Some(kind),
                _ => None,
            }),
    {
        match self {
            CanvasTool::Measure(kind) => Some(kind),
            _ => None,
        }
    }

    /// Whether this is the text-selection tool.
    pub fn is_text(self) -> (r: bool)
        ensures
            r == (self is Text),
    {
        match self {
            CanvasTool::Text => true,
            _ => false,
        }
    }
}

/// The one cursor the canvas paints this frame, by the precedence of
/// [`spec_cursor_for`].
pub fn cursor_for(
    tool: CanvasTool,
    gesture: Option<DragKind>,
    hovered_grip: Option<Grip>,
    pointer_down: bool,
    over_canvas: bool,
) -> (c: Option<CursorIcon>)
    ensures
        c == spec_cursor_for(tool, gesture, hovered_grip, pointer_down, over_canvas),
{
    let armed = tool.cursor(pointer_down);
    if let Some(icon) = armed {
        if over_canvas || pointer_down {
            return Some(icon);
        }
    }
    if let Some(kind) = gesture {
        let icon = match kind {
            DragKind::Marquee(_) => CursorIcon::Crosshair,
            DragKind::Markup(_) => CursorIcon::Crosshair,
            DragKind::Move => CursorIcon::Grabbing,
            DragKind::Resize(grip) => grip.cursor(),
            DragKind::TextSelect => CursorIcon::Text,
        };
        return Some(icon);
    }
    match hovered_grip {
        Some(g) => Some(g.cursor()),
        None => None,
    }
}

/// The tool in effect: the hand while space is held, the chosen tool otherwise.
pub open spec fn spec_resolve(selected: CanvasTool, space_held: bool) -> CanvasTool {
    if space_held {
        CanvasTool::Hand
    } else {
        selected
    }
}

/// Composes the chosen tool with the space bar.
pub fn resolve(selected: CanvasTool, space_held: bool) -> (t: CanvasTool)
    ensures
        t == spec_resolve(selected, space_held),
{
    if space_held {
        CanvasTool::Hand
    } else {
        selected
    }
}

/// The application-scoped slot that remembers the chosen tool. A slot that
/// was never written answers [`CanvasTool::Select`].
#[derive(Debug, Clone, Copy, PartialEq, Eq)]
pub struct ToolMemory {
    chosen: Option<CanvasTool>,
}

impl ToolMemory {
    /// The tool this memory answers with.
    pub closed spec fn spec_selected(self) -> CanvasTool {
        match self.chosen {
            Some(t) => t,
            None => CanvasTool::Select,
        }
    }

    /// A memory nothing has been written to.
    pub fn new() -> (m: ToolMemory)
        ensures
            m.spec_selected() == CanvasTool::Select,
    {
        ToolMemory { chosen: None }
    }
}

/// The tool the operator chose.
pub fn selected(memory: &ToolMemory) -> (t: CanvasTool)
    ensures
        t == memory.spec_selected(),
{
    match memory.chosen {
        Some(t) => t,
        None => CanvasTool::Select,
    }
}

/// Records the operator's choice.
pub fn select(memory: &mut ToolMemory, tool: CanvasTool)
    ensures
        final(memory).spec_selected() == tool,
{
    memory.chosen = Some(tool);
}

/// The hand toggle: from the hand back to Select, from anything else to the hand.
pub open spec fn spec_toggle_hand(t: CanvasTool) -> CanvasTool {
    if t is Hand {
        CanvasTool::Select
    } else {
        CanvasTool::Hand
    }
}

/// The text toggle: from Text back to Select, from anything else to Text.
pub open spec fn spec_toggle_text(t: CanvasTool) -> CanvasTool {
    if t is Text {
        CanvasTool::Select
    } else {
        CanvasTool::Text
    }
}

/// Arming a markup kind: the same kind again retires the tool, anything else arms it.
pub open spec fn spec_arm_markup(t: CanvasTool, kind: MarkupKind) -> CanvasTool {
    if t == CanvasTool::Markup(kind) {
        CanvasTool::Select
    } else {
        CanvasTool::Markup(kind)
    }
}

/// Arming a measure kind: the same kind again retires the tool, anything else arms it.
pub open spec fn spec_arm_measure(t: CanvasTool, kind: MeasureKind) -> CanvasTool {
    if t == CanvasTool::Measure(kind) {
        CanvasTool::Select
    } else {
        CanvasTool::Measure(kind)
    }
}

/// Whether the current mode permits a tool to stay armed.
pub open spec fn permitted(t: CanvasTool, caps: Capabilities) -> bool {
    match t {
        CanvasTool::Markup(_) => caps.author_markup,
        CanvasTool::Measure(_) => caps.author_measure,
        _ => true,
    }
}

/// Toggles the hand tool and returns the tool now chosen.
pub fn toggle_hand(memory: &mut ToolMemory) -> (next: CanvasTool)
    ensures
        next == spec_toggle_hand(old(memory).spec_selected()),
        final(memory).spec_selected() == next,
{
    let next = match selected(memory) {
        CanvasTool::Hand => CanvasTool::Select,
        _ => CanvasTool::Hand,
    };
    select(memory, next);
    next
}

/// Toggles the text tool and returns the tool now chosen.
pub fn toggle_text(memory: &mut ToolMemory) -> (next: CanvasTool)
    ensures
        next == spec_toggle_text(old(memory).spec_selected()),
        final(memory).spec_selected() == next,
{
    let next = match selected(memory) {
        CanvasTool::Text => CanvasTool::Select,
        _ => CanvasTool::Text,
    };
    select(memory, next);
    next
}

/// Arms (or, for the kind already armed, retires) a markup kind.
pub fn arm_markup(memory: &mut ToolMemory, kind: MarkupKind) -> (next: CanvasTool)
    ensures
        next == spec_arm_markup(old(memory).spec_selected(), kind),
        final(memory).spec_selected() == next,
{
    let next = if selected(memory) == CanvasTool::Markup(kind) {
        CanvasTool::Select
    } else {
        CanvasTool::Markup(kind)
    };
    select(memory, next);
    next
}

/// Arms (or, for the kind already armed, retires) a measure kind.
pub fn arm_measure(memory: &mut ToolMemory, kind: MeasureKind) -> (next: CanvasTool)
    ensures
        next == spec_arm_measure(old(memory).spec_selected(), kind),
        final(memory).spec_selected() == next,
{
    let next = if selected(memory) == CanvasTool::Measure(kind) {
        CanvasTool::Select
    } else {
        CanvasTool::Measure(kind)
    };
    select(memory, next);
    next
}

/// Escape's measure claimant: retires an armed measure tool and reports
/// whether there was one.
pub fn disarm_measure(memory: &mut ToolMemory) -> (claimed: bool)
    ensures
        claimed == (old(memory).spec_selected() is Measure),
        claimed ==> final(memory).spec_selected() == CanvasTool::Select,
        !claimed ==> final(memory).spec_selected() == old(memory).spec_selected(),
{
    if selected(memory).measure_kind().is_none() {
        return false;
    }
    select(memory, CanvasTool::Select);
    true
}

/// Escape's markup claimant: retires an armed markup tool and reports
/// whether there was one.
pub fn disarm_markup(memory: &mut ToolMemory) -> (claimed: bool)
    ensures
        claimed == (old(memory).spec_selected() is Markup),
        claimed ==> final(memory).spec_selected() == CanvasTool::Select,
        !claimed ==> final(memory).spec_selected() == old(memory).spec_selected(),
{
    if selected(memory).markup_kind().is_none() {
        return false;
    }
    select(memory, CanvasTool::Select);
    true
}

/// Retires a tool the current mode cannot author with, and reports whether
/// it did.
pub fn retire_forbidden(memory: &mut ToolMemory, caps: Capabilities) -> (retired: bool)
    ensures
        retired == !permitted(old(memory).spec_selected(), caps),
        retired ==> final(memory).spec_selected() == CanvasTool::Select,
        !retired ==> final(memory).spec_selected() == old(memory).spec_selected(),
{
    let armed = selected(memory);
    let allowed = match armed {
        CanvasTool::Markup(_) => caps.author_markup,
        CanvasTool::Measure(_) => caps.author_measure,
        _ => true,
    };
    if allowed {
        return false;
    }
    select(memory, CanvasTool::Select);
    true
}

/// The tool in effect this frame, given whether the space bar reaches the
/// canvas.
pub fn active(memory: &ToolMemory, space_held: bool) -> (t: CanvasTool)
    ensures
        t == spec_resolve(memory.spec_selected(), space_held),
{
    resolve(selected(memory), space_held)
}

/// The space bar reaches the canvas only while no text field holds focus.
pub fn space_held(text_edit_focused: bool, space_down: bool) -> (held: bool)
    ensures
        held == (!text_edit_focused && space_down),
{
    !text_edit_focused && space_down
}

/// Holding space borrows the hand from any tool, and releasing it gives
/// back exactly the tool that was chosen — kind included.
pub proof fn law_space_borrows_and_returns(t: CanvasTool)
    ensures
        spec_resolve(t, true) == CanvasTool::Hand,
        spec_resolve(t, false) == t,
{
}

/// Only the hand pans, and every armed authoring tool paints a crosshair
/// whether or not a button is down.
pub proof fn law_only_the_hand_pans(t: CanvasTool, dragging: bool)
    ensures
        (t is Markup || t is Measure) ==> tool_cursor(t, dragging) == Some(CursorIcon::Crosshair),
        t is Text ==> tool_cursor(t, dragging) == Some(CursorIcon::Text),
        t is Select ==> tool_cursor(t, dragging) is None,
{
}

/// Pressing an armed button again retires its tool; pressing a different
/// kind switches kinds rather than retiring.
pub proof fn law_arming_toggles(t: CanvasTool, kind: MarkupKind, other: MarkupKind)
    ensures
        t != CanvasTool::Markup(kind) ==> spec_arm_markup(spec_arm_markup(t, kind), kind)
            == CanvasTool::Select,
        other != kind ==> spec_arm_markup(CanvasTool::Markup(kind), other) == CanvasTool::Markup(
            other,
        ),
        spec_toggle_text(spec_toggle_text(CanvasTool::Select)) == CanvasTool::Select,
        spec_toggle_hand(spec_toggle_hand(CanvasTool::Select)) == CanvasTool::Select,
        !(t is Text) ==> spec_toggle_text(t) == CanvasTool::Text,
{
}

/// The text tool, the select tool and the hand author nothing, so no mode
/// retires them; an authoring tool is retired exactly when its mode forbids it.
pub proof fn law_no_mode_retires_a_reading_tool(t: CanvasTool, caps: Capabilities)
    ensures
        (t is Text || t is Select || t is Hand) ==> permitted(t, caps),
        t is Markup ==> (permitted(t, caps) <==> caps.author_markup),
        t is Measure ==> (permitted(t, caps) <==> caps.author_measure),
{
}

/// The armed tool outranks a gesture and a hovered grip; a gesture outranks
/// a grip; the tool claims the pointer only over the canvas or while a
/// button is down.
pub proof fn law_cursor_precedence(
    tool: CanvasTool,
    gesture: Option<DragKind>,
    grip: Option<Grip>,
    down: bool,
    over: bool,
)
    ensures
        !(tool is Select) && (over || down) ==> spec_cursor_for(tool, gesture, grip, down, over)
            == tool_cursor(tool, down),
        tool is Select && gesture is Some ==> spec_cursor_for(tool, gesture, grip, down, over)
            == Some(drag_cursor(gesture->0)),
        tool is Select && gesture is None ==> spec_cursor_for(tool, gesture, grip, down, over)
            == (match grip {
            Some(g) => Some(grip_cursor(g)),
            None => None,
        }),
        !over && !down && gesture is None && grip is None ==> spec_cursor_for(
            tool,
            gesture,
            grip,
            down,
            over,
        ) is None,
{
}

/// What each gesture in flight shows when no armed tool claims the pointer
/// (the select tool claims nothing): a marquee or a markup band the
/// crosshair, a move the closed hand, a resize the arrow of the grip being
/// dragged, a text sweep the I-beam. With no gesture, a hovered grip shows
/// its own resize arrow.
pub proof fn law_each_gesture_shows_its_own_cursor(
    gesture: DragKind,
    grip: Option<Grip>,
    down: bool,
    over: bool,
)
    ensures
        ({
            let c = spec_cursor_for(CanvasTool::Select, Some(gesture), grip, down, over);
            &&& gesture is Move ==> c == Some(CursorIcon::Grabbing)
            &&& gesture is Marquee ==> c == Some(CursorIcon::Crosshair)
            &&& gesture is Markup ==> c == Some(CursorIcon::Crosshair)
            &&& gesture is TextSelect ==> c == Some(CursorIcon::Text)
            &&& gesture == DragKind::Resize(Grip::North) ==> c == Some(CursorIcon::ResizeNorth)
            &&& gesture == DragKind::Resize(Grip::NorthEast) ==> c == Some(CursorIcon::ResizeNorthEast)
            &&& gesture == DragKind::Resize(Grip::East) ==> c == Some(CursorIcon::ResizeEast)
            &&& gesture == DragKind::Resize(Grip::SouthEast) ==> c == Some(CursorIcon::ResizeSouthEast)
            &&& gesture == DragKind::Resize(Grip::South) ==> c == Some(CursorIcon::ResizeSouth)
            &&& gesture == DragKind::Resize(Grip::SouthWest) ==> c == Some(CursorIcon::ResizeSouthWest)
            &&& gesture == DragKind::Resize(Grip::West) ==> c == Some(CursorIcon::ResizeWest)
            &&& gesture == DragKind::Resize(Grip::NorthWest) ==> c == Some(CursorIcon::ResizeNorthWest)
        }),
        ({
            let h = |g: Grip| spec_cursor_for(CanvasTool::Select, None, Some(g), down, over);
            &&& h(Grip::North) == Some(CursorIcon::ResizeNorth)
            &&& h(Grip::NorthEast) == Some(CursorIcon::ResizeNorthEast)
            &&& h(Grip::East) == Some(CursorIcon::ResizeEast)
            &&& h(Grip::SouthEast) == Some(CursorIcon::ResizeSouthEast)
            &&& h(Grip::South) == Some(CursorIcon::ResizeSouth)
            &&& h(Grip::SouthWest) == Some(CursorIcon::ResizeSouthWest)
            &&& h(Grip::West) == Some(CursorIcon::ResizeWest)
            &&& h(Grip::NorthWest) == Some(CursorIcon::ResizeNorthWest)
        }),
        spec_cursor_for(CanvasTool::Select, None, None, down, over) is None,
{
}

/// What each armed tool shows over the canvas: the hand open, or closed
/// while a button is down; an authoring tool the crosshair; the text tool
/// the I-beam; whatever gesture or grip is under it.
pub proof fn law_each_tool_shows_its_own_cursor(
    gesture: Option<DragKind>,
    grip: Option<Grip>,
    down: bool,
    mk: MarkupKind,
    me: MeasureKind,
)
    ensures
        spec_cursor_for(CanvasTool::Hand, gesture, grip, down, true) == Some(
            if down {
                CursorIcon::Grabbing
            } else {
                CursorIcon::Grab
            },
        ),
        spec_cursor_for(CanvasTool::Markup(mk), gesture, grip, down, true) == Some(
            CursorIcon::Crosshair,
        ),
        spec_cursor_for(CanvasTool::Measure(me), gesture, grip, down, true) == Some(
            CursorIcon::Crosshair,
        ),
        spec_cursor_for(CanvasTool::Text, gesture, grip, down, true) == Some(CursorIcon::Text),
        spec_cursor_for(CanvasTool::Hand, gesture, grip, true, false) == Some(CursorIcon::Grabbing),
        forall|t: CanvasTool|
            #![trigger spec_cursor_for(t, gesture, grip, false, false)]
            spec_cursor_for(t, gesture, grip, false, false) == spec_cursor_for(
                CanvasTool::Select,
                gesture,
                grip,
                false,
                false,
            ),
{
}

/// Arming a measure kind arms it from any other tool, switches from another
/// measure kind rather than retiring, and retires the tool only when that
/// same kind is armed; the same holds of markup kinds.
pub proof fn law_arming_a_kind_selects_it(
    t: CanvasTool,
    kind: MeasureKind,
    other: MeasureKind,
    mk: MarkupKind,
)
    ensures
        t != CanvasTool::Measure(kind) ==> spec_arm_measure(t, kind) == CanvasTool::Measure(kind),
        spec_arm_measure(CanvasTool::Measure(kind), kind) == CanvasTool::Select,
        other != kind ==> spec_arm_measure(CanvasTool::Measure(kind), other) == CanvasTool::Measure(
            other,
        ),
        t != CanvasTool::Measure(kind) ==> spec_arm_measure(spec_arm_measure(t, kind), kind)
            == CanvasTool::Select,
        t != CanvasTool::Markup(mk) ==> spec_arm_markup(t, mk) == CanvasTool::Markup(mk),
        spec_arm_markup(CanvasTool::Markup(mk), mk) == CanvasTool::Select,
{
}

/// The hand and the text buttons flip: pressed with their own tool armed
/// they give back the select tool, pressed with any other they arm their own.
pub proof fn law_toggles_flip(t: CanvasTool)
    ensures
        spec_toggle_hand(CanvasTool::Hand) == CanvasTool::Select,
        !(t is Hand) ==> spec_toggle_hand(t) == CanvasTool::Hand,
        spec_toggle_text(CanvasTool::Text) == CanvasTool::Select,
        !(t is Text) ==> spec_toggle_text(t) == CanvasTool::Text,
{
}

} // verus!
