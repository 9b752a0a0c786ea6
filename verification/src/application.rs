//! What an application decides from what the windowing layer tells it: when
//! to exit, what to do when a frame cannot be presented, and which code to
//! exit with.

use crate::input::{ElementState, Modifiers, WindowEvent};
use vstd::prelude::*;

verus! {

/// The kind of system the application runs on.
#[derive(Debug, Clone, Copy, PartialEq, Eq, Structural)]
pub enum Platform {
    /// A system on which the logo key and `q` quit an application.
    MacOs,
    /// Any other system.
    Other,
}

/// Whether an event is the user's key combination to quit: the logo key
/// and `q` pressed, on a system that has this combination.
pub open spec fn is_quit_key(event: WindowEvent, modifiers: Modifiers, platform: Platform) -> bool {
    platform == Platform::MacOs && modifiers.logo && event == (WindowEvent::KeyboardInput {
        character: 'q',
        state: ElementState::Pressed,
    })
}

/// Returns true if the provided event should cause an application to exit:
/// a request to close the window, or the user's key combination to quit.
pub fn requests_exit(event: &WindowEvent, modifiers: Modifiers, platform: Platform) -> (exits: bool)
    ensures
        exits == (*event == WindowEvent::CloseRequested || is_quit_key(
            *event,
            modifiers,
            platform,
        )),
{
    match event {
        WindowEvent::CloseRequested => true,
        _ => user_force_quit(event, modifiers, platform),
    }
}

/// Returns true if the provided event is the user's key combination to
/// quit, which makes an application exit whatever it does with requests to
/// close.
pub fn user_force_quit(event: &WindowEvent, modifiers: Modifiers, platform: Platform) -> (quits:
    bool)
    ensures
        quits == is_quit_key(*event, modifiers, platform),
{
    match (platform, event) {
        (Platform::MacOs, WindowEvent::KeyboardInput { character, state }) => {
            *character == 'q' && modifiers.logo && match state {
                ElementState::Pressed => true,
                ElementState::Released => false,
            }
        },
        _ => false,
    }
}

/// Why a frame could not be presented.
#[derive(Debug, Clone, Copy, PartialEq, Eq, Structural)]
pub enum SurfaceError {
    /// A timeout was encountered while trying to acquire the next frame.
    Timeout,
    /// The underlying surface has changed, and therefore the surface must be
    /// updated.
    Outdated,
    /// The swap chain has been lost and needs to be recreated.
    Lost,
    /// There is no more memory left to allocate a new frame.
    OutOfMemory,
}

/// What is done after a frame was to be presented.
#[derive(Debug, Clone, Copy, PartialEq, Eq, Structural)]
pub enum AfterPresent {
    /// The frame is on the screen: nothing is left to do.
    Done,
    /// The frame is lost: every window asks to be drawn again.
    RedrawAll,
    /// The application cannot go on.
    Fatal,
}

/// Decides what is done after a frame was to be presented. To run out of
/// memory is fatal; any other failure passes, and the windows are drawn
/// again with the next frame.
pub fn after_present(result: Result<(), SurfaceError>) -> (then: AfterPresent)
    ensures
        then == match result {
            Ok(_) => AfterPresent::Done,
            Err(SurfaceError::OutOfMemory) => AfterPresent::Fatal,
            Err(_) => AfterPresent::RedrawAll,
        },
{
    match result {
        Ok(_) => AfterPresent::Done,
        Err(SurfaceError::OutOfMemory) => AfterPresent::Fatal,
        Err(_) => AfterPresent::RedrawAll,
    }
}

/// Why an application could not run.
#[derive(Debug, Clone, Copy, PartialEq, Eq, Structural)]
pub enum Error {
    /// The futures executor could not be created.
    ExecutorCreationFailed,
    /// The application window could not be created.
    WindowCreationFailed,
    /// The application graphics context could not be created.
    GraphicsCreationFailed,
}

/// The code a process exits with: zero after a clean shutdown, and a code
/// of its own for each way in which the application could not run.
pub fn exit_code(result: Result<(), Error>) -> (code: i32)
    ensures
        code == match result {
            Ok(_) => 0i32,
            Err(Error::ExecutorCreationFailed) => 1i32,
            Err(Error::WindowCreationFailed) => 2i32,
            Err(Error::GraphicsCreationFailed) => 3i32,
        },
{
    match result {
        Ok(_) => 0,
        Err(Error::ExecutorCreationFailed) => 1,
        Err(Error::WindowCreationFailed) => 2,
        Err(Error::GraphicsCreationFailed) => 3,
    }
}

} // verus!
