use vstd::prelude::*;

use crate::utils;
use crate::utils::put_bit;

verus! {

//  What a front end decides: which key means what, when the emulation runs, and how a
//  picture becomes the bytes of a texture. To open a window, to read the keyboard and to
//  pass values between threads is the business of the program round the library.

/// Whether the emulation runs.
#[derive(Copy, Clone, Debug, PartialEq, Eq, Structural)]
pub enum State {
    Running,
    Paused,
    Exit,
}

/// What the window tells the emulation.
#[derive(Copy, Clone, Debug, PartialEq, Eq, Structural)]
pub enum Command {
    Stop,
    Start,
    Exit,
}

/// The keys that mean something to the front end.
#[derive(Copy, Clone, Debug, PartialEq, Eq, Structural)]
pub enum Key {
    Q,
    Space,
    Right,
    Left,
    Down,
    Up,
    Return,
    Backspace,
    Z,
    X,
    Other,
}

/// The weight of the bit that a key holds down in the controller's byte, or 0 for a
/// key that is no button. From the top bit down the buttons are A, B, Select, Start, Up,
/// Down, Left and Right.
pub open spec fn button_of(key: Key) -> int {
    match key {
        Key::X => 0x80,
        Key::Z => 0x40,
        Key::Backspace => 0x20,
        Key::Return => 0x10,
        Key::Up => 0x08,
        Key::Down => 0x04,
        Key::Left => 0x02,
        Key::Right => 0x01,
        _ => 0,
    }
}

/// The controller's byte with the button of `key` held down or let go.
pub open spec fn with_button(controller: u8, key: Key, down: bool) -> u8 {
    if button_of(key) == 0 {
        controller
    } else {
        put_bit(controller as int, button_of(key), down) as u8
    }
}

fn set_button(controller: u8, key: Key, down: bool) -> (changed: u8)
    ensures
        changed == with_button(controller, key, down),
{
    match key {
        Key::Right => utils::p0(controller, down),
        Key::Left => utils::p1(controller, down),
        Key::Down => utils::p2(controller, down),
        Key::Up => utils::p3(controller, down),
        Key::Return => utils::p4(controller, down),
        Key::Backspace => utils::p5(controller, down),
        Key::Z => utils::p6(controller, down),
        Key::X => utils::p7(controller, down),
        _ => controller,
    }
}

/// The emulation's state once it has taken a command.
pub fn handle_command(state: State, command: Command) -> (next: State)
    ensures
        next == (match command {
            Command::Stop => State::Paused,
            Command::Start => State::Running,
            Command::Exit => State::Exit,
        }),
{
    match command {
        Command::Stop => State::Paused,
        Command::Start => State::Running,
        Command::Exit => State::Exit,
    }
}

/// The window's state once the pause key is pressed, and what it tells the emulation.
pub fn toggle_pause(state: State) -> (next: (State, Option<Command>))
    ensures
        next == (match state {
            State::Paused => (State::Running, Some(Command::Start)),
            State::Running => (State::Paused, Some(Command::Stop)),
            State::Exit => (State::Exit, None::<Command>),
        }),
{
    match state {
        State::Paused => (State::Running, Some(Command::Start)),
        State::Running => (State::Paused, Some(Command::Stop)),
        State::Exit => (State::Exit, None),
    }
}

/// The window's state once it is to close, and what it tells the emulation.
pub fn handle_exit(state: State) -> (next: (State, Command))
    ensures
        next == (State::Exit, Command::Exit),
{
    (State::Exit, Command::Exit)
}

/// What a key that goes down does: Q ends the program, the space bar pauses and
/// resumes, a button is held down, and every other key is ignored.
pub fn handle_keydown(state: State, controller: u8, key: Key) -> (next: (
    State,
    u8,
    Option<Command>,
))
    ensures
        next == (match key {
            Key::Q => (State::Exit, controller, Some(Command::Exit)),
            Key::Space => match state {
                State::Paused => (State::Running, controller, Some(Command::Start)),
                State::Running => (State::Paused, controller, Some(Command::Stop)),
                State::Exit => (State::Exit, controller, None::<Command>),
            },
            _ => (state, with_button(controller, key, true), None::<Command>),
        }),
{
    match key {
        Key::Q => {
            let (next, command) = handle_exit(state);
            (next, controller, Some(command))
        },
        Key::Space => {
            let (next, command) = toggle_pause(state);
            (next, controller, command)
        },
        _ => (state, set_button(controller, key, true), None),
    }
}

/// What a key that comes up does: a button is let go.
pub fn handle_keyup(controller: u8, key: Key) -> (next: u8)
    ensures
        next == with_button(controller, key, false),
{
    set_button(controller, key, false)
}

/// The four bytes of the pixel of colour `color`: the colour is looked up in the
/// palette by its low six bits, and its parts are stored from the last to the first.
pub open spec fn texel(palette: [[u8; 4]; 64], color: u8) -> Seq<u8> {
    seq![
        palette[color as int % 64][3],
        palette[color as int % 64][2],
        palette[color as int % 64][1],
        palette[color as int % 64][0],
    ]
}

/// The bytes of a texture that shows the picture `screen`, four for each pixel.
pub fn update_texture(screen: &[u8; 61440], palette: &[[u8; 4]; 64]) -> (texture_data: Vec<u8>)
    ensures
        texture_data.len() == 4 * 61440,
        forall|x: int|
            0 <= x < 61440 ==> #[trigger] texture_data@.subrange(4 * x, 4 * x + 4) == texel(
                *palette,
                screen[x],
            ),
{
    let mut texture_data: Vec<u8> = Vec::new();
    let mut x: usize = 0;
    while x < 61440
        invariant
            x <= 61440,
            texture_data.len() == 4 * x,
            forall|k: int|
                0 <= k < x ==> #[trigger] texture_data@.subrange(4 * k, 4 * k + 4) == texel(
                    *palette,
                    screen[k],
                ),
        decreases 61440 - x,
    {
        let color = screen[x];
        let entry = palette[(color % 64) as usize];
        let ghost before = texture_data@;
        texture_data.push(entry[3]);
        texture_data.push(entry[2]);
        texture_data.push(entry[1]);
        texture_data.push(entry[0]);
        proof {
            assert(texture_data@.subrange(4 * x as int, 4 * x as int + 4) =~= texel(*palette, color));
            assert forall|k: int| 0 <= k < x implies #[trigger] texture_data@.subrange(
                4 * k,
                4 * k + 4,
            ) == texel(*palette, screen[k]) by {
                assert(texture_data@.subrange(4 * k, 4 * k + 4) =~= before.subrange(4 * k, 4 * k + 4));
            }
        }
        x = x + 1;
    }
    texture_data
}

} // verus!
