use vstd::prelude::*;

verus! {

/// Width of the panel in landscape orientation, in pixels.
pub const PANEL_WIDTH: i32 = 320;

/// Height of the panel in landscape orientation, in pixels.
pub const PANEL_HEIGHT: i32 = 240;

/// Width of one button indicator, in pixels.
pub const INDICATOR_WIDTH: u32 = 64;

/// Height of one button indicator, in pixels.
pub const INDICATOR_HEIGHT: u32 = 24;

/// How far the label of an indicator sits below the indicator's centre.
pub const LABEL_DROP: i32 = 4;

/// Width of the border drawn inside the panel's edge, in pixels.
pub const BORDER_WIDTH: u32 = 8;

/// How far the greeting sits below the panel's centre.
pub const GREETING_DROP: i32 = 15;

/// A pixel position; `y` grows downwards.
#[derive(Clone, Copy, Debug, PartialEq, Eq, Structural)]
pub struct Point {
    pub x: i32,
    pub y: i32,
}

/// A width and a height in pixels.
#[derive(Clone, Copy, Debug, PartialEq, Eq, Structural)]
pub struct Size {
    pub width: u32,
    pub height: u32,
}

/// An axis-aligned rectangle given by its top-left corner and its size.
#[derive(Clone, Copy, Debug, PartialEq, Eq, Structural)]
pub struct Rect {
    pub top_left: Point,
    pub size: Size,
}

/// The colours the demo draws with.
#[derive(Clone, Copy, Debug, PartialEq, Eq, Structural)]
pub enum PanelColor {
    Black,
    Blue,
    Red,
    Yellow,
    Gray,
}

/// Offset from a rectangle's top-left pixel to its centre pixel along one
/// side of `len` pixels: the middle one, or the upper of the two middle ones.
pub open spec fn center_offset(len: u32) -> int {
    if len == 0 { 0 } else { (len - 1) / 2 }
}

impl Rect {
    /// The centre can be represented.
    pub open spec fn center_fits(&self) -> bool {
        &&& self.top_left.x + center_offset(self.size.width) <= i32::MAX
        &&& self.top_left.y + center_offset(self.size.height) <= i32::MAX
    }

    /// The pixel at the centre of the rectangle.
    pub fn center(&self) -> (c: Point)
        requires
            self.center_fits(),
        ensures
            c.x == self.top_left.x + center_offset(self.size.width),
            c.y == self.top_left.y + center_offset(self.size.height),
    {
        let dx: u32 = if self.size.width == 0 { 0 } else { (self.size.width - 1) / 2 };
        let dy: u32 = if self.size.height == 0 { 0 } else { (self.size.height - 1) / 2 };
        Point { x: self.top_left.x + dx as i32, y: self.top_left.y + dy as i32 }
    }
}

/// How one button indicator is drawn: a filled box with a centred label.
#[derive(Clone, Copy, Debug, PartialEq, Eq, Structural)]
pub struct Indicator {
    /// The box.
    pub area: Rect,
    /// Where the label is centred.
    pub label_anchor: Point,
    /// Fill of the box.
    pub background: PanelColor,
    /// Colour of the label.
    pub label_color: PanelColor,
}

/// The indicator of one button with its box at `top_left`: red with a
/// yellow label while pressed, black with a gray label while released.
pub fn button_indicator(top_left: Point, pressed: bool) -> (ind: Indicator)
    requires
        top_left.x + INDICATOR_WIDTH / 2 <= i32::MAX,
        top_left.y + INDICATOR_HEIGHT / 2 + LABEL_DROP <= i32::MAX,
    ensures
        ind.area.top_left == top_left,
        ind.area.size.width == INDICATOR_WIDTH,
        ind.area.size.height == INDICATOR_HEIGHT,
        ind.label_anchor.x == top_left.x + INDICATOR_WIDTH / 2,
        ind.label_anchor.y == top_left.y + INDICATOR_HEIGHT / 2 + LABEL_DROP,
        ind.background == (if pressed { PanelColor::Red } else { PanelColor::Black }),
        ind.label_color == (if pressed { PanelColor::Yellow } else { PanelColor::Gray }),
{
    let half_w = (INDICATOR_WIDTH / 2) as i32;
    let half_h = (INDICATOR_HEIGHT / 2) as i32;
    Indicator {
        area: Rect { top_left, size: Size { width: INDICATOR_WIDTH, height: INDICATOR_HEIGHT } },
        label_anchor: Point { x: top_left.x + half_w, y: top_left.y + half_h + LABEL_DROP },
        background: if pressed { PanelColor::Red } else { PanelColor::Black },
        label_color: if pressed { PanelColor::Yellow } else { PanelColor::Gray },
    }
}

/// The three button indicators, left to right.
#[derive(Clone, Copy, Debug, PartialEq, Eq, Structural)]
pub struct ButtonPanel {
    pub a: Indicator,
    pub b: Indicator,
    pub c: Indicator,
}

/// Top-left corner of the middle indicator: centred across the panel,
/// 32 pixels above its bottom edge.
pub open spec fn middle_slot() -> (int, int) {
    (PANEL_WIDTH / 2 - INDICATOR_WIDTH / 2, PANEL_HEIGHT - 32)
}

/// Horizontal distance between the corners of neighbouring indicators.
pub const SLOT_PITCH: i32 = 96;

/// The indicators of buttons A, B and C along the bottom of the panel,
/// the middle one centred and the others one pitch to either side.
pub fn button_panel(btn_a: bool, btn_b: bool, btn_c: bool) -> (p: ButtonPanel)
    ensures
        p.b.area.top_left.x == middle_slot().0,
        p.a.area.top_left.x == middle_slot().0 - SLOT_PITCH,
        p.c.area.top_left.x == middle_slot().0 + SLOT_PITCH,
        p.a.area.top_left.y == middle_slot().1,
        p.b.area.top_left.y == middle_slot().1,
        p.c.area.top_left.y == middle_slot().1,
        p.a == button_indicator_spec(p.a.area.top_left, btn_a),
        p.b == button_indicator_spec(p.b.area.top_left, btn_b),
        p.c == button_indicator_spec(p.c.area.top_left, btn_c),
{
    let mid = Point { x: PANEL_WIDTH / 2 - (INDICATOR_WIDTH / 2) as i32, y: PANEL_HEIGHT - 32 };
    let left = Point { x: mid.x - SLOT_PITCH, y: mid.y };
    let right = Point { x: mid.x + SLOT_PITCH, y: mid.y };
    ButtonPanel {
        a: button_indicator(left, btn_a),
        b: button_indicator(mid, btn_b),
        c: button_indicator(right, btn_c),
    }
}

/// The indicator that `button_indicator` returns, as a value.
pub open spec fn button_indicator_spec(top_left: Point, pressed: bool) -> Indicator {
    Indicator {
        area: Rect { top_left, size: Size { width: INDICATOR_WIDTH, height: INDICATOR_HEIGHT } },
        label_anchor: Point {
            x: (top_left.x + INDICATOR_WIDTH / 2) as i32,
            y: (top_left.y + INDICATOR_HEIGHT / 2 + LABEL_DROP) as i32,
        },
        background: if pressed { PanelColor::Red } else { PanelColor::Black },
        label_color: if pressed { PanelColor::Yellow } else { PanelColor::Gray },
    }
}

/// The welcome screen: a border inside the panel's edge and a centred
/// greeting slightly below the middle.
#[derive(Clone, Copy, Debug, PartialEq, Eq, Structural)]
pub struct WelcomeScreen {
    /// The rectangle whose inside edge carries the border.
    pub border: Rect,
    pub border_width: u32,
    pub border_color: PanelColor,
    /// Where the greeting is centred.
    pub greeting_anchor: Point,
    pub greeting_color: PanelColor,
}

/// The welcome screen for a panel whose drawable area is `bounds`.
pub fn welcome_screen(bounds: Rect) -> (w: WelcomeScreen)
    requires
        bounds.center_fits(),
        bounds.top_left.y + center_offset(bounds.size.height) + GREETING_DROP <= i32::MAX,
    ensures
        w.border == bounds,
        w.border_width == BORDER_WIDTH,
        w.border_color == PanelColor::Blue,
        w.greeting_anchor.x == bounds.top_left.x + center_offset(bounds.size.width),
        w.greeting_anchor.y == bounds.top_left.y + center_offset(bounds.size.height)
            + GREETING_DROP,
        w.greeting_color == PanelColor::Black,
{
    let c = bounds.center();
    WelcomeScreen {
        border: bounds,
        border_width: BORDER_WIDTH,
        border_color: PanelColor::Blue,
        greeting_anchor: Point { x: c.x, y: c.y + GREETING_DROP },
        greeting_color: PanelColor::Black,
    }
}

} // verus!
