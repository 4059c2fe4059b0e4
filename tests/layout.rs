use m5stack_demo::{
    button_indicator, button_panel, welcome_screen, PanelColor, Point, Rect, Size,
};

#[test]
fn indicator_released_and_pressed() {
    let r = button_indicator(Point { x: 10, y: 20 }, false);
    assert_eq!(r.area, Rect { top_left: Point { x: 10, y: 20 }, size: Size { width: 64, height: 24 } });
    assert_eq!(r.label_anchor, Point { x: 42, y: 36 });
    assert_eq!(r.background, PanelColor::Black);
    assert_eq!(r.label_color, PanelColor::Gray);
    let p = button_indicator(Point { x: 10, y: 20 }, true);
    assert_eq!(p.background, PanelColor::Red);
    assert_eq!(p.label_color, PanelColor::Yellow);
}

#[test]
fn panel_slots() {
    let p = button_panel(true, false, true);
    assert_eq!(p.a.area.top_left, Point { x: 32, y: 208 });
    assert_eq!(p.b.area.top_left, Point { x: 128, y: 208 });
    assert_eq!(p.c.area.top_left, Point { x: 224, y: 208 });
    assert_eq!(p.a.background, PanelColor::Red);
    assert_eq!(p.b.background, PanelColor::Black);
    assert_eq!(p.c.label_color, PanelColor::Yellow);
    assert_eq!(p.b.label_anchor, Point { x: 160, y: 224 });
}

#[test]
fn welcome_on_landscape_panel() {
    let bounds = Rect { top_left: Point { x: 0, y: 0 }, size: Size { width: 320, height: 240 } };
    let w = welcome_screen(bounds);
    assert_eq!(w.border, bounds);
    assert_eq!(w.border_width, 8);
    assert_eq!(w.border_color, PanelColor::Blue);
    assert_eq!(w.greeting_anchor, Point { x: 159, y: 134 });
    assert_eq!(w.greeting_color, PanelColor::Black);
}

#[test]
fn center_of_empty_rect_is_its_corner() {
    let r = Rect { top_left: Point { x: -5, y: 7 }, size: Size { width: 0, height: 1 } };
    assert_eq!(r.center(), Point { x: -5, y: 7 });
}
