use snapdrop::monitors::{MonitorInfo, Point, Rect};
use snapdrop::overlay::{
    cancel_if_running, clamp, clamp_initial, close, event_of, hit_edge, is_movable, loop_ends,
    make_selection, point_in_rect, run, run_last_area, Edges, Event, OverlayMode, OverlayState,
    Reply, Selection, TIMER_COUNTDOWN, VK_CONTROL, VK_ESCAPE, VK_RETURN, WM_KEYDOWN, WM_KEYUP,
    WM_LBUTTONDOWN, WM_LBUTTONUP, WM_MOUSEMOVE, WM_NCHITTEST, WM_TIMER,
};
use snapdrop::scene::{
    cursor_monitor, draw_pill_text, half_of, pill_size, readout_rect, redraw, PillText, BORDER_COLOR,
    BOX_TINT, DIM_COLOR, GUIDE_COLOR,
};
use snapdrop::canvas::{clip, stroke_rect, Canvas};

const VIRT: Rect = Rect { left: -100, top: 0, right: 1820, bottom: 1080 };

fn at(x: i32, y: i32) -> Point {
    Point { x, y }
}

fn rect(left: i32, top: i32, right: i32, bottom: i32) -> Rect {
    Rect { left, top, right, bottom }
}

fn down(st: &mut OverlayState, p: Point) {
    st.on_event(Event::ButtonDown { pos: p, ctrl: false, shift: false }, &VIRT);
}

fn drag(st: &mut OverlayState, p: Point) {
    st.on_event(Event::MouseMove { pos: p, ctrl: false, shift: false }, &VIRT);
}

fn up(st: &mut OverlayState, p: Point) {
    st.on_event(Event::ButtonUp { pos: p, ctrl: false, shift: false }, &VIRT);
}

fn fresh(delay: u32) -> OverlayState {
    run(true, delay, 1, &VIRT, at(0, 0)).unwrap()
}

fn with_area(area: Rect) -> OverlayState {
    run_last_area(false, 0, area, 1, &VIRT, at(0, 0)).unwrap()
}

#[test]
fn a_drag_selects_a_rectangle() {
    let mut st = fresh(0);
    down(&mut st, at(50, 60));
    drag(&mut st, at(10, 20));
    up(&mut st, at(10, 20));
    assert!(loop_ends(1, &st));
    let sel = close(&mut st).unwrap();
    assert_eq!(
        sel,
        Selection { rect: rect(10, 20, 50, 60), ctrl_held: false, shift_held: false }
    );
    assert!(!st.running);
}

#[test]
fn a_tiny_drag_cancels() {
    let mut st = fresh(0);
    down(&mut st, at(50, 60));
    drag(&mut st, at(53, 80));
    up(&mut st, at(53, 80));
    assert!(st.done);
    assert_eq!(close(&mut st), None);
}

#[test]
fn modifiers_count_although_let_go_early() {
    let mut st = fresh(0);
    down(&mut st, at(0, 0));
    st.on_event(Event::MouseMove { pos: at(30, 30), ctrl: true, shift: false }, &VIRT);
    up(&mut st, at(30, 30));
    assert!(close(&mut st).unwrap().ctrl_held);
}

#[test]
fn shift_counts_down() {
    let mut st = fresh(2);
    down(&mut st, at(0, 0));
    drag(&mut st, at(30, 30));
    let e = st.on_event(Event::ButtonUp { pos: at(30, 30), ctrl: true, shift: true }, &VIRT);
    assert!(e.start_timer && e.drop_focus && !e.wake);
    assert!(st.counting && !st.done && st.countdown == 2);
    assert_eq!(st.on_event(Event::HitTest, &VIRT).reply, Reply::Transparent);
    st.on_event(Event::Tick, &VIRT);
    assert!(!st.done);
    let e = st.on_event(Event::Tick, &VIRT);
    assert!(e.stop_timer && e.wake);
    let sel = close(&mut st).unwrap();
    assert!(sel.ctrl_held && sel.shift_held);
    assert_eq!(sel.rect, rect(0, 0, 30, 30));
}

#[test]
fn without_a_delay_shift_captures_at_once() {
    let mut st = fresh(0);
    down(&mut st, at(0, 0));
    drag(&mut st, at(30, 30));
    st.on_event(Event::ButtonUp { pos: at(30, 30), ctrl: false, shift: true }, &VIRT);
    assert!(close(&mut st).unwrap().shift_held);
}

#[test]
fn escape_cancels_a_countdown() {
    let mut st = fresh(5);
    down(&mut st, at(0, 0));
    drag(&mut st, at(30, 30));
    st.on_event(Event::ButtonUp { pos: at(30, 30), ctrl: false, shift: true }, &VIRT);
    let e = st.on_event(Event::Escape, &VIRT);
    assert!(e.stop_timer && e.wake && st.done && !st.counting);
    assert_eq!(close(&mut st), None);
}

#[test]
fn only_a_running_overlay_is_cancelled_from_outside() {
    let mut st = fresh(0);
    assert!(cancel_if_running(&mut st).wake);
    assert!(st.done);
    assert!(!cancel_if_running(&mut st).wake);
    let mut closed = fresh(0);
    close(&mut closed);
    assert!(!cancel_if_running(&mut closed).wake);
    assert!(!closed.done);
}

#[test]
fn a_click_recaptures_the_last_area() {
    let mut st = with_area(rect(100, 100, 300, 200));
    down(&mut st, at(150, 150));
    assert_eq!(st.mode, OverlayMode::Move);
    up(&mut st, at(152, 151));
    assert_eq!(close(&mut st).unwrap().rect, rect(100, 100, 300, 200));
}

#[test]
fn the_last_area_can_be_moved_up_to_the_edge() {
    let mut st = with_area(rect(100, 100, 300, 200));
    down(&mut st, at(150, 150));
    drag(&mut st, at(-1000, 160));
    up(&mut st, at(-1000, 160));
    assert!(!st.done);
    assert_eq!(st.initial, Some(rect(-100, 110, 100, 210)));
    let e = st.on_event(Event::Enter { ctrl: true, shift: false }, &VIRT);
    assert!(e.wake);
    let sel = close(&mut st).unwrap();
    assert_eq!(sel.rect, rect(-100, 110, 100, 210));
    assert!(sel.ctrl_held);
}

#[test]
fn the_last_area_can_be_resized_down_to_the_least_size() {
    let mut st = with_area(rect(100, 100, 300, 200));
    down(&mut st, at(295, 150));
    assert_eq!(st.mode, OverlayMode::Resize);
    assert_eq!(st.resize_edge, Edges { left: false, right: true, top: false, bottom: false });
    drag(&mut st, at(50, 150));
    up(&mut st, at(50, 150));
    assert_eq!(st.initial, Some(rect(100, 100, 104, 200)));
}

#[test]
fn a_narrow_area_is_held_by_both_edges() {
    let mut st = with_area(rect(100, 100, 110, 200));
    down(&mut st, at(105, 150));
    assert_eq!(st.resize_edge, Edges { left: true, right: true, top: false, bottom: false });
    // Both edges follow the cursor, each as far as its own limit.
    drag(&mut st, at(107, 150));
    assert_eq!(st.sel_rect, rect(106, 100, 107, 200));
}

#[test]
fn a_drag_elsewhere_selects_anew() {
    let mut st = with_area(rect(100, 100, 300, 200));
    down(&mut st, at(500, 500));
    assert_eq!(st.initial, None);
    drag(&mut st, at(600, 700));
    up(&mut st, at(600, 700));
    assert_eq!(close(&mut st).unwrap().rect, rect(500, 500, 600, 700));
}

#[test]
fn enter_confirms_only_a_remembered_area() {
    let mut st = fresh(0);
    st.on_event(Event::Enter { ctrl: false, shift: false }, &VIRT);
    assert!(!st.done);
    let mut st = with_area(rect(100, 100, 300, 200));
    st.on_event(Event::Enter { ctrl: false, shift: false }, &VIRT);
    assert_eq!(close(&mut st).unwrap().rect, rect(100, 100, 300, 200));
}

#[test]
fn the_remembered_area_is_cut_to_the_screen() {
    assert_eq!(clamp_initial(Some(rect(-200, -5, 50, 50)), &VIRT), Some(rect(-100, 0, 50, 50)));
    assert_eq!(clamp_initial(Some(rect(1817, 0, 2000, 50)), &VIRT), None);
    assert_eq!(clamp_initial(None, &VIRT), None);
    assert!(with_area(rect(5000, 0, 6000, 50)).initial.is_none());
    assert!(is_movable(&rect(0, 0, 10, 10), &VIRT));
    assert!(!is_movable(&rect(10, 0, 0, 10), &VIRT));
}

#[test]
fn without_a_screen_there_is_no_overlay() {
    assert!(run(true, 0, 0, &VIRT, at(0, 0)).is_none());
    assert!(run(true, 0, 1, &rect(0, 0, 0, 10), at(0, 0)).is_none());
}

#[test]
fn the_loop_ends_on_quit_and_failure() {
    let st = fresh(0);
    assert!(loop_ends(0, &st) && loop_ends(-1, &st) && !loop_ends(1, &st));
}

#[test]
fn messages_become_events() {
    let p = at(3, 4);
    let of = |msg: u32, w: u64| event_of(msg, w, p, true, false);
    assert_eq!(of(WM_LBUTTONDOWN, 0), Event::ButtonDown { pos: p, ctrl: true, shift: false });
    assert_eq!(of(WM_MOUSEMOVE, 0), Event::MouseMove { pos: p, ctrl: true, shift: false });
    assert_eq!(of(WM_LBUTTONUP, 0), Event::ButtonUp { pos: p, ctrl: true, shift: false });
    assert_eq!(of(WM_TIMER, TIMER_COUNTDOWN), Event::Tick);
    assert_eq!(of(WM_TIMER, 99), Event::Other);
    assert_eq!(of(WM_NCHITTEST, 0), Event::HitTest);
    assert_eq!(of(WM_KEYDOWN, VK_ESCAPE), Event::Escape);
    assert_eq!(of(WM_KEYDOWN, VK_RETURN), Event::Enter { ctrl: true, shift: false });
    assert_eq!(of(WM_KEYUP, VK_CONTROL), Event::ControlKey);
    assert_eq!(of(WM_KEYUP, VK_ESCAPE), Event::Other);
    assert_eq!(of(WM_KEYDOWN, (1 << 32) + VK_ESCAPE), Event::Escape);
    assert_eq!(of(WM_TIMER, (1 << 32) + TIMER_COUNTDOWN), Event::Other);
}

#[test]
fn geometry_helpers() {
    assert_eq!(make_selection(at(5, 1), at(2, 9)), rect(2, 1, 5, 9));
    assert!(point_in_rect(&rect(0, 0, 2, 2), at(1, 1)));
    assert!(!point_in_rect(&rect(0, 0, 2, 2), at(2, 1)));
    let e = hit_edge(&rect(0, 0, 100, 100), at(8, 92), 8);
    assert_eq!(e, Edges { left: true, right: false, top: false, bottom: true });
    assert_eq!((clamp(-1, 0, 5), clamp(9, 0, 5), clamp(3, 0, 5)), (0, 5, 3));
    assert_eq!((half_of(7), half_of(-7)), (3, -3));
}

fn pixel(c: &Canvas, x: i32, y: i32) -> u32 {
    c.get((x - VIRT.left) as usize, (y - VIRT.top) as usize)
}

#[test]
fn an_idle_overlay_is_dimmed_and_explains_itself() {
    let (c, pills) = redraw(&fresh(3), &VIRT, (0, 0), false).unwrap();
    assert_eq!((c.width, c.height), (1920, 1080));
    assert_eq!(pixel(&c, 0, 0), DIM_COLOR);
    assert_eq!(pills.len(), 1);
    assert_eq!(
        pills[0].text,
        "Drag to select   •   Esc to cancel   •   Ctrl: skip editor   •   Shift: 3s delay"
    );
    assert_eq!((pills[0].anchor_x, pills[0].y_pos), (860, 28));
}

#[test]
fn a_drag_cuts_a_hole_with_a_border() {
    let mut st = fresh(0);
    down(&mut st, at(-50, 100));
    drag(&mut st, at(100, 200));
    assert_eq!(readout_rect(&st), Some(rect(-50, 100, 100, 200)));
    let (c, pills) = redraw(&st, &VIRT, (150, 100), true).unwrap();
    assert_eq!(pixel(&c, 0, 150), 0);
    assert_eq!(pixel(&c, -51, 150), BORDER_COLOR);
    assert_eq!(pixel(&c, -53, 150), DIM_COLOR);
    assert_eq!(pixel(&c, 100, 5), GUIDE_COLOR);
    assert_eq!(pills[0].text, "150 × 100   •   Ctrl: skip editor");
    assert_eq!(pills[0].y_pos, 60);
}

#[test]
fn a_remembered_area_is_tinted_and_has_handles() {
    let st = with_area(rect(100, 30, 300, 200));
    let (c, pills) = redraw(&st, &VIRT, (200, 170), false).unwrap();
    assert_eq!(pixel(&c, 200, 100), BOX_TINT);
    assert_eq!(pixel(&c, 104, 34), BORDER_COLOR);
    assert_eq!(pills.len(), 2);
    assert_eq!((pills[0].anchor_x, pills[0].y_pos), (200, 210));
    assert_eq!(pills[0].text, "200 × 170");
    assert!(pills[1].text.starts_with("Click to capture"));
}

#[test]
fn a_countdown_shows_only_an_outline() {
    let mut st = fresh(7);
    down(&mut st, at(0, 0));
    drag(&mut st, at(100, 100));
    st.on_event(Event::ButtonUp { pos: at(100, 100), ctrl: false, shift: true }, &VIRT);
    assert_eq!(readout_rect(&st), None);
    let (c, pills) = redraw(&st, &VIRT, (0, 0), false).unwrap();
    assert_eq!(pixel(&c, 50, 50), 0);
    assert_eq!(pixel(&c, 500, 500), 0);
    assert_eq!(pixel(&c, -1, 50), BORDER_COLOR);
    assert_eq!(pills[0].text, "7  •  Esc to cancel");
    assert_eq!((pills[0].anchor_x, pills[0].y_pos, pills[0].font_h), (50, 26, 44));
    assert_eq!(pills[1].text, "Capturing selection…");
}

#[test]
fn labels_have_room_for_their_text() {
    assert_eq!(pill_size(100, 15), (128, 27));
    assert_eq!(pill_size(5, 5), (48, 24));
}

#[test]
fn labels_are_blended_and_kept_on_the_canvas() {
    let virt = rect(0, 0, 100, 60);
    let mut c = Canvas::filled(100, 60, 0x6000_0000);
    let pill = PillText { anchor_x: 2, y_pos: 500, text: "x".to_string(), font_h: 15 };
    let mut px = vec![0u32; 48 * 24];
    px[12 * 48 + 20] = 0x00FF_FFFF;
    draw_pill_text(&mut c, &virt, &pill, &px, 48, 24);
    // Pushed back onto the canvas: the left edge is 0, the top one 34.
    assert_eq!(c.get(20, 34 + 12), 0xFFFF_FFFF);
    // Elsewhere the dark label lets a fifth of the picture through.
    assert_eq!(c.get(21, 34 + 12), (200 + 0x60 * 55 / 255) << 24);
    // The corners stay as they were.
    assert_eq!(c.get(0, 34), 0x6000_0000);
    assert_eq!(c.get(20, 33), 0x6000_0000);
}

#[test]
fn canvases_are_painted_within_their_bounds() {
    let mut c = Canvas::filled(4, 3, 1);
    c.put(0, 0, 2);
    c.paint_row(1, 1, 3, 3);
    c.fill_rect(-5, 2, 2, 9, 4);
    assert_eq!(c.pixels, vec![2, 1, 1, 1, 1, 3, 3, 1, 4, 4, 1, 1]);
    let mut c = Canvas::filled(4, 4, 0);
    stroke_rect(&mut c, 1, 1, 3, 3, 9, 1);
    assert_eq!(c.pixels, vec![9, 9, 9, 9, 9, 0, 0, 9, 9, 0, 0, 9, 9, 9, 9, 9]);
    assert_eq!((clip(-3, 5), clip(3, 5), clip(7, 5)), (0, 3, 5));
}

#[test]
fn the_cursor_is_on_the_first_monitor_that_holds_it() {
    let m = |r: Rect| MonitorInfo {
        hmonitor: r.left as u64,
        rect: r,
        work: r,
        is_primary: false,
        device: [0; 32],
        dpi: 96,
    };
    let list = vec![m(rect(0, 0, 10, 10)), m(rect(10, 0, 20, 10))];
    assert_eq!(cursor_monitor(at(10, 5), &list).unwrap().rect.left, 10);
    assert!(cursor_monitor(at(20, 5), &list).is_none());
}
