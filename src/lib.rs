//! Game logic of a two-player paddle-and-ball arena, in integer fixed point.
//!
//! Lengths, speeds and angles are `i64` counts of millionths ([`arena::UNIT`]):
//! display positions in millionths of a pixel, simulation positions in
//! millionths of a simulation unit, angles in micro-radians. The physics engine
//! itself lives outside the library; the functions here turn what is read from
//! it each frame into the commands that are written back.
pub mod arena;
pub mod contact;
pub mod goal;
pub mod paddle;
pub mod scoreboard;
