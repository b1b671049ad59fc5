//! The event reporter: translates backend input events and hover geometry
//! tests into the outbound line-oriented JSON messages the controller
//! consumes, one message per event.

use vstd::prelude::*;
use vstd::string::StringExecFns;

use crate::scene::LiveSprite;

verus! {

/// The decimal digit character of a value below ten.
pub open spec fn spec_digit_char(d: nat) -> char
    recommends
        d < 10,
{
    if d == 0 {
        '0'
    } else if d == 1 {
        '1'
    } else if d == 2 {
        '2'
    } else if d == 3 {
        '3'
    } else if d == 4 {
        '4'
    } else if d == 5 {
        '5'
    } else if d == 6 {
        '6'
    } else if d == 7 {
        '7'
    } else if d == 8 {
        '8'
    } else {
        '9'
    }
}

/// The decimal digits of a natural number, most significant first, without
/// leading zeros (a single '0' for zero).
pub open spec fn spec_decimal_digits(n: nat) -> Seq<char>
    decreases n,
{
    if n < 10 {
        seq![spec_digit_char(n)]
    } else {
        spec_decimal_digits(n / 10) + seq![spec_digit_char(n % 10)]
    }
}

/// The decimal rendering of an integer: the digits of its magnitude,
/// preceded by a minus sign when negative.
pub open spec fn spec_decimal(x: int) -> Seq<char> {
    if x < 0 {
        seq!['-'] + spec_decimal_digits((-x) as nat)
    } else {
        spec_decimal_digits(x as nat)
    }
}

/// The one-character string of a decimal digit.
fn digit_str(d: u32) -> (r: String)
    requires
        d < 10,
    ensures
        r@ == seq![spec_digit_char(d as nat)],
{
    let s: &str = match d {
        0 => "0",
        1 => "1",
        2 => "2",
        3 => "3",
        4 => "4",
        5 => "5",
        6 => "6",
        7 => "7",
        8 => "8",
        _ => "9",
    };
    proof {
        reveal_strlit("0");
        reveal_strlit("1");
        reveal_strlit("2");
        reveal_strlit("3");
        reveal_strlit("4");
        reveal_strlit("5");
        reveal_strlit("6");
        reveal_strlit("7");
        reveal_strlit("8");
        reveal_strlit("9");
        assert(s@ =~= seq![spec_digit_char(d as nat)]);
    }
    String::from_str(s)
}

/// Renders an unsigned value in decimal.
pub fn u32_decimal(n: u32) -> (r: String)
    ensures
        r@ == spec_decimal_digits(n as nat),
{
    let mut m: u32 = n / 10;
    let mut s: String = digit_str(n % 10);
    while m > 0
        invariant
            if m > 0 {
                spec_decimal_digits(n as nat) == spec_decimal_digits(m as nat) + s@
            } else {
                spec_decimal_digits(n as nat) == s@
            },
        decreases m,
    {
        let d: u32 = m % 10;
        let next: u32 = m / 10;
        let ghost old_s = s@;
        s = digit_str(d).concat(s.as_str());
        proof {
            if next > 0 {
                assert((spec_decimal_digits(next as nat) + seq![spec_digit_char(d as nat)]) + old_s
                    =~= spec_decimal_digits(next as nat) + s@);
            } else {
                assert(seq![spec_digit_char(d as nat)] + old_s =~= s@);
            }
        }
        m = next;
    }
    s
}

/// Renders a signed coordinate in decimal.
pub fn i32_decimal(x: i32) -> (r: String)
    ensures
        r@ == spec_decimal(x as int),
{
    if x >= 0 {
        u32_decimal(x as u32)
    } else {
        let mag: u32 = (-(x as i64)) as u32;
        let digits = u32_decimal(mag);
        proof {
            reveal_strlit("-");
            assert("-"@ =~= seq!['-']);
        }
        String::from_str("-").concat(digits.as_str())
    }
}

/// One backend input event, as the render loop hands it to the reporter:
/// a window-close request, a key transition carrying the key's identifier,
/// or a pointer-button transition carrying the button's identifier and the
/// pointer position.
pub enum InputEvent {
    Quit,
    KeyDown { keycode: String },
    KeyUp { keycode: String },
    MouseButtonDown { button: String, x: i32, y: i32 },
    MouseButtonUp { button: String, x: i32, y: i32 },
}

/// The outbound JSON line of one input event.
pub open spec fn spec_event_message(e: InputEvent) -> Seq<char> {
    match e {
        InputEvent::Quit => "{\"action\": \"quit\"}"@,
        InputEvent::KeyDown { keycode } => "{\"action\": \"key_down\", \"keycode\": \""@ + keycode@
            + "\"}"@,
        InputEvent::KeyUp { keycode } => "{\"action\": \"key_up\", \"keycode\": \""@ + keycode@
            + "\"}"@,
        InputEvent::MouseButtonDown { button, x, y } => {
            "{\"action\": \"mouse_button_down\", \"button\": \""@ + button@ + "\", \"x\": "@
                + spec_decimal(x as int) + ", \"y\": "@ + spec_decimal(y as int) + "}"@
        },
        InputEvent::MouseButtonUp { button, x, y } => {
            "{\"action\": \"mouse_button_up\", \"button\": \""@ + button@ + "\", \"x\": "@
                + spec_decimal(x as int) + ", \"y\": "@ + spec_decimal(y as int) + "}"@
        },
    }
}

/// Builds the coordinate tail `", "x": X, "y": Y}` shared by the two
/// pointer-button messages.
fn coordinate_tail(head: String, x: i32, y: i32) -> (r: String)
    ensures
        r@ == head@ + "\", \"x\": "@ + spec_decimal(x as int) + ", \"y\": "@ + spec_decimal(
            y as int,
        ) + "}"@,
{
    head.concat("\", \"x\": ").concat(i32_decimal(x).as_str()).concat(", \"y\": ").concat(
        i32_decimal(y).as_str(),
    ).concat("}")
}

/// Translates one input event into its outbound message, exactly one
/// message per event.
pub fn event_message(e: &InputEvent) -> (r: String)
    ensures
        r@ == spec_event_message(*e),
{
    match e {
        InputEvent::Quit => String::from_str("{\"action\": \"quit\"}"),
        InputEvent::KeyDown { keycode } => String::from_str(
            "{\"action\": \"key_down\", \"keycode\": \"",
        ).concat(keycode.as_str()).concat("\"}"),
        InputEvent::KeyUp { keycode } => String::from_str(
            "{\"action\": \"key_up\", \"keycode\": \"",
        ).concat(keycode.as_str()).concat("\"}"),
        InputEvent::MouseButtonDown { button, x, y } => coordinate_tail(
            String::from_str("{\"action\": \"mouse_button_down\", \"button\": \"").concat(
                button.as_str(),
            ),
            *x,
            *y,
        ),
        InputEvent::MouseButtonUp { button, x, y } => coordinate_tail(
            String::from_str("{\"action\": \"mouse_button_up\", \"button\": \"").concat(
                button.as_str(),
            ),
            *x,
            *y,
        ),
    }
}

/// The outbound JSON line reporting that the pointer hovers a sprite.
pub open spec fn spec_hover_message(id: Seq<char>) -> Seq<char> {
    "{\"action\": \"hover\", \"sprite\": \""@ + id + "\"}"@
}

/// Builds the hover message for one sprite identity.
pub fn hover_message(id: &String) -> (r: String)
    ensures
        r@ == spec_hover_message(id@),
{
    String::from_str("{\"action\": \"hover\", \"sprite\": \"").concat(id.as_str()).concat("\"}")
}

/// Whether the pointer position lies inside a sprite's bounding box: at or
/// right of the left edge and strictly left of the right edge, and likewise
/// vertically.
pub open spec fn sprite_contains_point(s: LiveSprite, px: i32, py: i32) -> bool {
    &&& px >= s.location.x
    &&& (px as int) < s.location.x + s.size.width
    &&& py >= s.location.y
    &&& (py as int) < s.location.y + s.size.height
}

/// Tests the pointer position against one sprite's bounding box.
pub fn sprite_hovered(s: &LiveSprite, px: i32, py: i32) -> (r: bool)
    ensures
        r == sprite_contains_point(*s, px, py),
{
    (px as i64) >= (s.location.x as i64) && (px as i64) < (s.location.x as i64) + (
    s.size.width as i64) && (py as i64) >= (s.location.y as i64) && (py as i64) < (
    s.location.y as i64) + (s.size.height as i64)
}

/// The identities of the drawn sprites whose bounding boxes contain the
/// pointer, in draw order. Sprites without images are not drawn and are
/// never hovered.
pub open spec fn hover_ids(sprites: Seq<LiveSprite>, px: i32, py: i32) -> Seq<Seq<char>>
    decreases sprites.len(),
{
    if sprites.len() == 0 {
        Seq::empty()
    } else {
        let rest = hover_ids(sprites.drop_last(), px, py);
        let last = sprites.last();
        if last.images.len() > 0 && sprite_contains_point(last, px, py) {
            rest.push(last.id@)
        } else {
            rest
        }
    }
}

/// Collects the identities of the sprites the pointer hovers, in draw
/// order, for one tick's hover messages.
pub fn hovered_sprites(sprites: &Vec<LiveSprite>, px: i32, py: i32) -> (r: Vec<String>)
    ensures
        r@.map_values(|id: String| id@) == hover_ids(sprites@, px, py),
{
    let mut r: Vec<String> = Vec::new();
    let mut i: usize = 0;
    proof {
        assert(sprites@.take(0) =~= Seq::<LiveSprite>::empty());
    }
    while i < sprites.len()
        invariant
            i <= sprites@.len(),
            r@.map_values(|id: String| id@) == hover_ids(sprites@.take(i as int), px, py),
        decreases sprites@.len() - i,
    {
        let ghost prev = r@;
        proof {
            assert(sprites@.take(i as int + 1).drop_last() =~= sprites@.take(i as int));
            assert(sprites@.take(i as int + 1).last() == sprites@[i as int]);
        }
        if sprites[i].images.len() > 0 && sprite_hovered(&sprites[i], px, py) {
            r.push(sprites[i].id.clone());
            proof {
                assert(r@.map_values(|id: String| id@) =~= prev.map_values(|id: String| id@).push(
                    sprites@[i as int].id@,
                ));
            }
        }
        i = i + 1;
    }
    proof {
        assert(sprites@.take(sprites@.len() as int) =~= sprites@);
    }
    r
}

} // verus!
