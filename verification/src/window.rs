//! Where the card stands on the screens, and when it shrinks to a ball at the right edge of
//! one. Coordinates and sizes are in physical pixels.

use vstd::prelude::*;

use crate::json::{compact_text, parse, parsed_text, render, Json, JsonV, MAX_DEPTH};

verus! {

/// The width of the card at a scale of one.
pub const CARD_WIDTH: u32 = 328;

/// The least height of the card at a scale of one.
pub const CARD_HEIGHT: u32 = 224;

/// The card becomes a ball where its right edge is at most this far inside the screen.
pub const EDGE_ENTER_GAP: i64 = 12;

/// The ball becomes the card again where its right edge is further than this from the edge.
pub const EDGE_EXIT_GAP: i64 = 36;

/// How long after the card became a ball no card becomes one again, in milliseconds.
pub const ENTER_QUIET_MS: u128 = 800;

/// How long after the ball became the card that does not become one again, in milliseconds.
pub const EXIT_QUIET_MS: u128 = 1500;

/// A place on the screens.
#[derive(Clone, Copy, PartialEq, Eq, Structural, Debug)]
pub struct Position {
    pub x: i32,
    pub y: i32,
}

/// A place that was worked out: it need not fit in 32 bits.
#[derive(Clone, Copy, PartialEq, Eq, Structural, Debug)]
pub struct Target {
    pub x: i64,
    pub y: i64,
}

/// A rectangle: a screen, or the window.
#[derive(Clone, Copy, PartialEq, Eq, Structural, Debug)]
pub struct Area {
    pub x: i32,
    pub y: i32,
    pub width: u32,
    pub height: u32,
}

impl Area {
    /// Where the right edge is.
    pub open spec fn right_edge(self) -> int {
        self.x + self.width
    }

    /// Finds where the right edge is.
    pub fn monitor_right(&self) -> (r: i64)
        ensures
            r == self.right_edge(),
    {
        self.x as i64 + self.width as i64
    }
}

// ---- the place that is kept in a file ----

/// The number that is left of `n` in 32 bits with a sign.
pub open spec fn wrapped(n: int) -> int {
    let low = n % 0x1_0000_0000;
    if low < 0x8000_0000 {
        low
    } else {
        low - 0x1_0000_0000
    }
}

fn low_bits(n: i64) -> (r: i32)
    ensures
        r == wrapped(n as int),
{
    let low: i64 = if n >= 0 {
        n % 0x1_0000_0000
    } else {
        0xffff_ffff - (-(n + 1)) % 0x1_0000_0000
    };
    if low < 0x8000_0000 {
        low as i32
    } else {
        (low - 0x1_0000_0000) as i32
    }
}

/// The place that a document gives: both coordinates must be integers.
pub open spec fn position_in(doc: JsonV) -> Option<(int, int)> {
    match (doc.get("x"@).integer(), doc.get("y"@).integer()) {
        (Some(x), Some(y)) => Some((wrapped(x), wrapped(y))),
        _ => None,
    }
}

pub open spec fn coordinates(p: Option<Position>) -> Option<(int, int)> {
    match p {
        Some(p) => Some((p.x as int, p.y as int)),
        None => None,
    }
}

fn integer_at(doc: &Json, name: &str) -> (r: Option<i64>)
    ensures
        match r {
            Some(n) => doc@.get(name@).integer() == Some(n as int),
            None => doc@.get(name@).integer() is None,
        },
{
    match doc.member(name) {
        Some(j) => j.as_i64(),
        None => None,
    }
}

/// Reads the place that a document gives.
pub fn position_of(doc: &Json) -> (r: Option<Position>)
    ensures
        coordinates(r) == position_in(doc@),
{
    match (integer_at(doc, "x"), integer_at(doc, "y")) {
        (Some(x), Some(y)) => Some(Position { x: low_bits(x), y: low_bits(y) }),
        _ => None,
    }
}

/// The place in the text of its file.
pub open spec fn saved_position(raw: Seq<char>) -> Option<(int, int)> {
    match parsed_text(raw) {
        Ok(doc) => position_in(doc),
        Err(_) => None,
    }
}

/// Reads the place from the text of its file.
pub fn load_saved_position(raw: &str) -> (r: Option<Position>)
    ensures
        coordinates(r) == saved_position(raw@),
{
    match parse(raw) {
        Ok(doc) => position_of(&doc),
        Err(_) => None,
    }
}

/// The document that keeps a place.
pub open spec fn position_document(x: int, y: int) -> JsonV {
    JsonV::Null.with("x"@, JsonV::Int(x)).with("y"@, JsonV::Int(y))
}

/// Writes the text that keeps a place. The same place is read from it again.
pub fn save_position(p: Position) -> (r: String)
    ensures
        r@ == compact_text(position_document(p.x as int, p.y as int)),
        saved_position(r@) == Some((p.x as int, p.y as int)),
{
    proof {
        let doc = position_document(p.x as int, p.y as int);
        reveal_strlit("x");
        reveal_strlit("y");
        assert("x"@[0] == 'x' && "y"@[0] == 'y');
        let members = doc->Obj_0;
        assert forall|k: Seq<char>| #[trigger] members.contains_key(k) implies members[k].plain(
            (MAX_DEPTH - 1) as nat,
        ) by {
            assert(k == "x"@ || k == "y"@);
        }
    }
    render(Json::Null.set("x", Json::Int(p.x as i64)).set("y", Json::Int(p.y as i64)))
}

// ---- where the card starts ----

/// Whether the card, put there, lies on that screen, give or take fifty pixels; of its height
/// the upper hundred pixels count.
pub open spec fn on_screen(screen: Area, x: int, y: int) -> bool {
    &&& screen.x - 50 <= x
    &&& screen.y - 50 <= y
    &&& x + CARD_WIDTH <= screen.right_edge() + 50
    &&& y + 100 <= screen.y + screen.height + 50
}

fn is_on_screen(screen: &Area, p: Position) -> (r: bool)
    ensures
        r == on_screen(*screen, p.x as int, p.y as int),
{
    let x: i64 = p.x as i64;
    let y: i64 = p.y as i64;
    x >= screen.x as i64 - 50 && y >= screen.y as i64 - 50 && x + CARD_WIDTH as i64
        <= screen.x as i64 + screen.width as i64 + 50 && y + 100 <= screen.y as i64
        + screen.height as i64 + 50
}

/// Whether the card, put there, lies on one of the screens.
pub open spec fn on_any_screen(screens: Seq<Area>, x: int, y: int) -> bool {
    exists|i: int| 0 <= i < screens.len() && on_screen(#[trigger] screens[i], x, y)
}

/// The place for a card that has none: the upper right corner of the main screen.
pub open spec fn fallback(primary: Area) -> (int, int) {
    (primary.right_edge() - CARD_WIDTH - 16, primary.y + 32)
}

pub open spec fn target_of(t: Option<Target>) -> Option<(int, int)> {
    match t {
        Some(t) => Some((t.x as int, t.y as int)),
        None => None,
    }
}

/// Where the card starts: where it was, if that is on one of the screens or none is known,
/// else in the corner of the main screen.
pub fn start_position(
    saved: Option<Position>,
    screens: &Vec<Area>,
    primary: Option<&Area>,
) -> (r: Option<Target>)
    ensures
        target_of(r) == if saved is Some && (screens@.len() == 0 || on_any_screen(
            screens@,
            saved->0.x as int,
            saved->0.y as int,
        )) {
            Some((saved->0.x as int, saved->0.y as int))
        } else {
            match primary {
                Some(m) => Some(fallback(*m)),
                None => None,
            }
        },
{
    if let Some(p) = saved {
        if screens.len() == 0 {
            return Some(Target { x: p.x as i64, y: p.y as i64 });
        }
        for i in 0..screens.len()
            invariant
                saved == Some(p),
                screens@.len() > 0,
                forall|j: int|
                    0 <= j < i ==> !on_screen(#[trigger] screens@[j], p.x as int, p.y as int),
        {
            if is_on_screen(&screens[i], p) {
                assert(on_any_screen(screens@, p.x as int, p.y as int));
                return Some(Target { x: p.x as i64, y: p.y as i64 });
            }
        }
    }
    match primary {
        Some(m) => Some(
            Target {
                x: m.x as i64 + m.width as i64 - CARD_WIDTH as i64 - 16,
                y: m.y as i64 + 32,
            },
        ),
        None => None,
    }
}

/// The corner of the main screen lies on that screen, unless the screen is too small for the
/// card.
pub proof fn law_fallback_is_on_screen(primary: Area)
    requires
        primary.width >= CARD_WIDTH,
        primary.height >= 100,
    ensures
        on_screen(primary, fallback(primary).0, fallback(primary).1),
{
}

// ---- the ball ----

/// Whether the card is a ball, and until when no card becomes one, in milliseconds.
#[derive(Clone, Copy, PartialEq, Eq, Structural, Debug)]
pub struct Docking {
    pub ball: bool,
    pub quiet_until: Option<u128>,
}

impl Docking {
    /// Whether no card becomes a ball.
    pub open spec fn quiet(self, now: int) -> bool {
        match self.quiet_until {
            Some(end) => now < end,
            None => false,
        }
    }

    /// How the card starts.
    pub fn start() -> (r: Docking)
        ensures
            !r.ball,
            r.quiet_until is None,
    {
        Docking { ball: false, quiet_until: None }
    }

    pub fn in_ball_mode(&self) -> (r: bool)
        ensures
            r == self.ball,
    {
        self.ball
    }

    pub fn ball_suppressed(&self, now: u64) -> (r: bool)
        ensures
            r == self.quiet(now as int),
    {
        match self.quiet_until {
            Some(end) => (now as u128) < end,
            None => false,
        }
    }
}

/// How long after a move the window is looked at, in milliseconds: a drag is over by then.
pub const MOVE_SETTLE_MS: u64 = 400;

/// Whether a move is the latest one: only that is looked at.
pub fn move_is_latest(newest: u64, mine: u64) -> (r: bool)
    ensures
        r == (newest == mine),
{
    newest == mine
}

/// What a move leads to.
#[derive(Clone, Copy, PartialEq, Eq, Structural, Debug)]
pub enum Shape {
    /// The window stays what it is.
    Same,
    /// The card becomes a ball.
    Ball,
    /// The ball becomes the card.
    Card,
}

/// How far the right edge of the window is inside the screen.
pub open spec fn gap(screen: Area, window: Area) -> int {
    screen.right_edge() - window.right_edge()
}

/// What the window becomes after a move.
pub open spec fn shape_after(
    docking: Docking,
    window: Area,
    screen: Option<Area>,
    now: int,
) -> Shape {
    match screen {
        None => Shape::Same,
        Some(screen) => if docking.ball {
            if gap(screen, window) > EDGE_EXIT_GAP || gap(screen, window) < -EDGE_EXIT_GAP {
                Shape::Card
            } else {
                Shape::Same
            }
        } else if !docking.quiet(now) && 0 <= gap(screen, window) <= EDGE_ENTER_GAP {
            Shape::Ball
        } else {
            Shape::Same
        },
    }
}

/// What is to be done after a move.
#[derive(Clone, Copy, PartialEq, Eq, Structural, Debug)]
pub struct Moved {
    /// The place to be kept: that of the card, never that of the ball.
    pub keep: Option<Position>,
    pub shape: Shape,
}

/// Decides what is to be done after a move. `screen` is the one that holds the window, where
/// that is known.
pub fn after_move(docking: &Docking, window: &Area, screen: Option<&Area>, now: u64) -> (r: Moved)
    ensures
        r.keep == if docking.ball {
            None
        } else {
            Some(Position { x: window.x, y: window.y })
        },
        r.shape == shape_after(
            *docking,
            *window,
            match screen {
                Some(s) => Some(*s),
                None => None,
            },
            now as int,
        ),
{
    let keep: Option<Position> = if docking.in_ball_mode() {
        None
    } else {
        Some(Position { x: window.x, y: window.y })
    };
    let shape: Shape = match screen {
        None => Shape::Same,
        Some(s) => {
            let gap: i64 = s.monitor_right() - window.monitor_right();
            if docking.in_ball_mode() {
                if gap > EDGE_EXIT_GAP || gap < -EDGE_EXIT_GAP {
                    Shape::Card
                } else {
                    Shape::Same
                }
            } else if !docking.ball_suppressed(now) && 0 <= gap && gap <= EDGE_ENTER_GAP {
                Shape::Ball
            } else {
                Shape::Same
            }
        },
    };
    Moved { keep, shape }
}

/// A change of the window's shape.
#[derive(Clone, Copy, PartialEq, Eq, Structural, Debug)]
pub struct Change {
    pub docking: Docking,
    pub width: u32,
    pub height: u32,
    /// Where the window goes, where it moves at all.
    pub target: Option<Target>,
}

/// Where a ball of that size goes: to the right edge of the screen, as high as the card was.
pub open spec fn ball_place(screen: Area, card: Position, size: u32) -> (int, int) {
    (screen.right_edge() - size, card.y as int)
}

/// Makes the card a ball of that size at the edge of the screen, where that is known.
pub fn enter_ball(card: Position, size: u32, screen: Option<&Area>, now: u64) -> (r: Change)
    ensures
        r.docking.ball,
        r.docking.quiet_until == Some((now + ENTER_QUIET_MS) as u128),
        r.docking.quiet_until->0 == now + 800,
        r.width == size && r.height == size,
        target_of(r.target) == match screen {
            Some(s) => Some(ball_place(*s, card, size)),
            None => None,
        },
{
    Change {
        docking: Docking { ball: true, quiet_until: Some(now as u128 + ENTER_QUIET_MS) },
        width: size,
        height: size,
        target: match screen {
            Some(s) => Some(Target { x: s.monitor_right() - size as i64, y: card.y as i64 }),
            None => None,
        },
    }
}

/// Where a card of that width goes: to the left from the ball, whose right edge it keeps, but
/// not over the left edge of the screen.
pub open spec fn card_place(ball: Area, width: u32, screen: Option<Area>) -> (int, int) {
    let x = ball.right_edge() - width;
    (
        match screen {
            Some(s) => if x < s.x {
                s.x as int
            } else {
                x
            },
            None => x,
        },
        ball.y as int,
    )
}

/// Makes the ball a card of that size; where the place of the ball is not known, the window
/// does not move.
pub fn exit_ball(
    ball: Option<&Area>,
    width: u32,
    height: u32,
    screen: Option<&Area>,
    now: u64,
) -> (r: Change)
    ensures
        !r.docking.ball,
        r.docking.quiet_until == Some((now + EXIT_QUIET_MS) as u128),
        r.docking.quiet_until->0 == now + 1500,
        r.width == width && r.height == height,
        target_of(r.target) == match ball {
            Some(b) => Some(
                card_place(
                    *b,
                    width,
                    match screen {
                        Some(s) => Some(*s),
                        None => None,
                    },
                ),
            ),
            None => None,
        },
{
    Change {
        docking: Docking { ball: false, quiet_until: Some(now as u128 + EXIT_QUIET_MS) },
        width,
        height,
        target: match ball {
            Some(b) => {
                let x: i64 = b.monitor_right() - width as i64;
                let x: i64 = match screen {
                    Some(s) => if x < s.x as i64 {
                        s.x as i64
                    } else {
                        x
                    },
                    None => x,
                };
                Some(Target { x, y: b.y as i64 })
            },
            None => None,
        },
    }
}

/// The size of the card at a scale of one, for a panel of that height.
pub fn card_size(height: u32) -> (r: (u32, u32))
    ensures
        r.0 == CARD_WIDTH,
        r.1 == if height < CARD_HEIGHT {
            CARD_HEIGHT
        } else {
            height
        },
        r.0 == 328,
        r.1 >= 224 && r.1 >= height,
        r.1 == 224 || r.1 == height,
{
    if height < CARD_HEIGHT {
        (CARD_WIDTH, CARD_HEIGHT)
    } else {
        (CARD_WIDTH, height)
    }
}

/// The place to be kept when the window is hidden: that of the card, where it is known, never
/// that of the ball.
pub fn hide_card(docking: &Docking, place: Option<Position>) -> (r: Option<Position>)
    ensures
        r == if docking.ball {
            None
        } else {
            place
        },
{
    if docking.in_ball_mode() {
        None
    } else {
        place
    }
}

/// What a click on the menu-bar icon leads to.
#[derive(Clone, Copy, PartialEq, Eq, Structural, Debug)]
pub enum Toggled {
    /// The window is hidden, and this place is kept, where there is one to be kept.
    Hide(Option<Position>),
    Show,
}

/// Decides what a click on the menu-bar icon leads to. A window that is hidden while it is a
/// ball leaves the last place of the card in its file.
pub fn toggle_window(docking: &Docking, visible: bool, place: Option<Position>) -> (r: Toggled)
    ensures
        r == if visible {
            Toggled::Hide(
                if docking.ball {
                    None
                } else {
                    place
                },
            )
        } else {
            Toggled::Show
        },
{
    if visible {
        Toggled::Hide(hide_card(docking, place))
    } else {
        Toggled::Show
    }
}

/// Becoming a ball does not undo itself: once the ball lies where it was put, it stays a ball,
/// at whatever time it is looked at.
pub proof fn law_snapped_ball_stays(
    docking: Docking,
    screen: Area,
    card: Position,
    ball: Area,
    now: int,
)
    requires
        docking.ball,
        (ball.x as int, ball.y as int) == ball_place(screen, card, ball.width),
    ensures
        shape_after(docking, ball, Some(screen), now) == Shape::Same,
{
}

/// Where a card would become a ball, a ball stays one.
pub proof fn law_enter_gap_is_under_exit_gap(docking: Docking, screen: Area, ball: Area, now: int)
    requires
        docking.ball,
        0 <= gap(screen, ball) <= EDGE_ENTER_GAP,
    ensures
        shape_after(docking, ball, Some(screen), now) == Shape::Same,
{
}

/// In its quiet time a card does not become a ball, wherever it is moved.
pub proof fn law_quiet_card_stays(docking: Docking, card: Area, screen: Option<Area>, now: int)
    requires
        !docking.ball,
        docking.quiet(now),
    ensures
        shape_after(docking, card, screen, now) == Shape::Same,
{
}

/// A ball that is dragged away from the edge becomes the card, at whatever time.
pub proof fn law_dragged_ball_expands(docking: Docking, ball: Area, screen: Area, now: int)
    requires
        docking.ball,
        gap(screen, ball) > EDGE_EXIT_GAP || gap(screen, ball) < -EDGE_EXIT_GAP,
    ensures
        shape_after(docking, ball, Some(screen), now) == Shape::Card,
{
}

/// A card that a ball became does not become a ball again in its quiet time, though it
/// lies flush on the edge.
pub proof fn law_expanded_card_stays(
    docking: Docking,
    card: Area,
    screen: Option<Area>,
    start: int,
    now: int,
)
    requires
        !docking.ball,
        docking.quiet_until == Some((start + EXIT_QUIET_MS) as u128),
        0 <= start <= now < start + EXIT_QUIET_MS,
        start <= u64::MAX,
    ensures
        shape_after(docking, card, screen, now) == Shape::Same,
{
}

/// Expanding keeps the right edge of the ball where there is room for the card to its left;
/// else the card starts at the left edge of the screen.
pub proof fn law_expanding_keeps_the_right_edge(ball: Area, width: u32, screen: Area)
    ensures
        card_place(ball, width, Some(screen)).0 >= screen.x,
        ball.right_edge() - width >= screen.x ==> card_place(ball, width, Some(screen)).0 + width
            == ball.right_edge(),
        ball.right_edge() - width < screen.x ==> card_place(ball, width, Some(screen)).0
            == screen.x,
        card_place(ball, width, Some(screen)).1 == ball.y,
{
}

// ---- what the numbers mean ----

/// What is left of a number in 32 bits fits in them, differs from it by a multiple of what they
/// hold, and is the number itself where that fits.
pub proof fn law_what_is_left_in_32_bits(n: int)
    ensures
        -0x8000_0000 <= wrapped(n) < 0x8000_0000,
        (n - wrapped(n)) % 0x1_0000_0000 == 0,
        -0x8000_0000 <= n < 0x8000_0000 ==> wrapped(n) == n,
{
}

/// A document gives a place just where it has an integer of 64 bits under `x` and one under `y`,
/// and these are the coordinates, each its own; a text gives the place that its document gives.
pub proof fn law_a_place_has_both_coordinates(doc: JsonV, raw: Seq<char>)
    ensures
        position_in(doc) is Some <==> doc.get("x"@).integer() is Some && doc.get(
            "y"@,
        ).integer() is Some,
        position_in(doc) matches Some((x, y)) ==> x == wrapped(doc.get("x"@)->Int_0) && y
            == wrapped(doc.get("y"@)->Int_0),
        parsed_text(raw) is Ok ==> saved_position(raw) == position_in(parsed_text(raw)->Ok_0),
        parsed_text(raw) is Err ==> saved_position(raw) is None,
{
}

/// A place is kept under `x` and `y`, and is the place that is read from there again.
pub proof fn law_a_place_is_kept_by_its_coordinates(x: int, y: int)
    ensures
        position_document(x, y).get("x"@) == JsonV::Int(x),
        position_document(x, y).get("y"@) == JsonV::Int(y),
        -0x8000_0000 <= x < 0x8000_0000 && -0x8000_0000 <= y < 0x8000_0000 ==> position_in(
            position_document(x, y),
        ) == Some((x, y)),
{
    reveal_strlit("x");
    reveal_strlit("y");
    assert("x"@[0] == 'x' && "y"@[0] == 'y');
}

/// The card lies on a screen just where it sticks out by fifty pixels at most: to the left, to the
/// right, at the top, and at the bottom with its upper hundred pixels.
pub proof fn law_how_far_the_card_may_stick_out(screen: Area, x: int, y: int)
    ensures
        on_screen(screen, x, y) <==> {
            &&& screen.x - x <= 50
            &&& (x + 328) - (screen.x + screen.width) <= 50
            &&& screen.y - y <= 50
            &&& (y + 100) - (screen.y + screen.height) <= 50
        },
{
}

/// One screen on which the card lies suffices, whichever it is.
pub proof fn law_one_screen_suffices(screens: Seq<Area>, x: int, y: int, i: int)
    ensures
        0 <= i < screens.len() && on_screen(screens[i], x, y) ==> on_any_screen(screens, x, y),
        screens.len() == 0 ==> !on_any_screen(screens, x, y),
        (forall|j: int| 0 <= j < screens.len() ==> !on_screen(#[trigger] screens[j], x, y))
            ==> !on_any_screen(screens, x, y),
{
}

/// The corner of the main screen: sixteen pixels are left to the right of the card, and 32 above
/// it.
pub proof fn law_the_corner_of_the_main_screen(primary: Area)
    ensures
        fallback(primary).0 + 328 + 16 == primary.x + primary.width,
        fallback(primary).1 == primary.y + 32,
{
}

/// A quiet time lasts until its end, and no longer.
pub proof fn law_quiet_until_the_end(docking: Docking, now: int)
    ensures
        docking.quiet_until is None ==> !docking.quiet(now),
        docking.quiet_until is Some ==> (docking.quiet(now) <==> now < docking.quiet_until->0),
{
}

/// A card becomes a ball just where it is not quiet and its right edge lies at most twelve pixels
/// inside the screen's; a ball becomes the card just where its right edge lies more than 36 pixels
/// from the screen's, inside or outside. Where no screen is known, the window stays what it is.
pub proof fn law_what_a_move_leads_to(docking: Docking, window: Area, screen: Area, now: int)
    ensures
        ({
            let inside = (screen.x + screen.width) - (window.x + window.width);
            let shape = shape_after(docking, window, Some(screen), now);
            &&& shape == Shape::Ball <==> !docking.ball && !docking.quiet(now) && 0 <= inside <= 12
            &&& shape == Shape::Card <==> docking.ball && (inside > 36 || inside < -36)
        }),
        shape_after(docking, window, None, now) == Shape::Same,
{
}

/// A ball lies flush on the right edge of the screen, as high as the card was; the card that it
/// becomes ends where the ball ended and is as high, where no screen is known.
pub proof fn law_where_ball_and_card_go(
    screen: Area,
    card: Position,
    size: u32,
    ball: Area,
    width: u32,
)
    ensures
        ball_place(screen, card, size).0 + size == screen.x + screen.width,
        ball_place(screen, card, size).1 == card.y,
        card_place(ball, width, None).0 + width == ball.x + ball.width,
        card_place(ball, width, None).1 == ball.y,
{
}

// ---- what the calls give ----

/// The card starts where it was, if that is on one of the screens or none is known; else in the
/// corner of the main screen, and nowhere where that is not known.
pub proof fn law_where_the_card_starts(
    saved: Option<Position>,
    screens: &Vec<Area>,
    primary: Option<&Area>,
    r: Option<Target>,
)
    requires
        call_ensures(start_position, (saved, screens, primary), r),
    ensures
        ({
            let there = saved is Some && (screens@.len() == 0 || on_any_screen(
                screens@,
                saved->0.x as int,
                saved->0.y as int,
            ));
            &&& there ==> r is Some && r->0.x == saved->0.x && r->0.y == saved->0.y
            &&& !there && primary is Some ==> r is Some && r->0.x + 328 + 16 == primary->0.x
                + primary->0.width && r->0.y == primary->0.y + 32
            &&& !there && primary is None ==> r is None
        }),
{
}

/// The place of a card is kept, after a move and when it is hidden, and the place of a ball never
/// is; a window that is hidden is shown by a click, and one that is shown is hidden.
pub proof fn law_only_the_place_of_a_card_is_kept(
    docking: &Docking,
    window: &Area,
    screen: Option<&Area>,
    now: u64,
    place: Option<Position>,
    visible: bool,
    moved: Moved,
    hidden: Option<Position>,
    toggled: Toggled,
)
    requires
        call_ensures(after_move, (docking, window, screen, now), moved),
        call_ensures(hide_card, (docking, place), hidden),
        call_ensures(toggle_window, (docking, visible, place), toggled),
    ensures
        docking.ball ==> moved.keep is None && hidden is None,
        !docking.ball ==> moved.keep == Some(Position { x: window.x, y: window.y }) && hidden
            == place,
        visible ==> toggled == Toggled::Hide(hidden),
        !visible ==> toggled is Show,
{
}

/// Becoming a ball and becoming the card again: the window has the size that was asked for, and no
/// card becomes a ball for 800 and for 1500 milliseconds.
pub proof fn law_ball_and_back(
    card: Position,
    size: u32,
    screen: Option<&Area>,
    now: u64,
    entered: Change,
    ball: Option<&Area>,
    width: u32,
    height: u32,
    left: Change,
    then: int,
)
    requires
        call_ensures(enter_ball, (card, size, screen, now), entered),
        call_ensures(exit_ball, (ball, width, height, screen, now), left),
    ensures
        entered.docking.ball && !left.docking.ball,
        entered.docking.quiet(then) <==> then < now + 800,
        left.docking.quiet(then) <==> then < now + 1500,
        entered.width == size && entered.height == size,
        left.width == width && left.height == height,
        screen is Some ==> entered.target is Some && entered.target->0.x + size == screen->0.x
            + screen->0.width && entered.target->0.y == card.y,
        screen is None ==> entered.target is None,
        ball is None ==> left.target is None,
        ball is Some ==> left.target is Some && left.target->0.y == ball->0.y,
{
}

} // verus!
