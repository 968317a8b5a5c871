//! The dragon: where it is, how fast it falls, and one step of its physics.

use vstd::prelude::*;
use crate::constants::{FLAP_STRENGTH, GRAVITY, TERMINAL_VELOCITY};
use crate::draw::{cell, glyph_of, Color, DrawCommand, DrawOp, GLYPH_AT};
use crate::fixed::{from_whole, truncate, whole_part, UNIT};

verus! {

/// The dragon's state.
#[derive(Clone, Copy, Debug, PartialEq, Eq)]
pub struct Player {
    /// Horizontal progress through the world, in character cells.
    pub x: i32,
    /// Vertical position in thousandths of a screen row; row 0 is the top.
    pub y: i64,
    /// Vertical speed in thousandths of a row per physics step; positive is
    /// downward.
    pub velocity: i64,
}

/// The speed after one physics step: gravity is added while the speed is
/// below the terminal speed, and only then. A speed just below the terminal
/// speed therefore ends above it, and stays there.
pub open spec fn speed_after_gravity(velocity: int) -> int {
    if velocity < TERMINAL_VELOCITY {
        velocity + GRAVITY
    } else {
        velocity
    }
}

/// The height after one physics step: the new speed is added to the height,
/// and the result is held at the top of the screen.
pub open spec fn height_after_step(y: int, velocity: int) -> int {
    let fallen = y + speed_after_gravity(velocity);
    if fallen < 0 {
        0
    } else {
        fallen
    }
}

impl Player {
    /// The screen row of the dragon: its height without the fraction.
    pub open spec fn spec_row(&self) -> int {
        whole_part(self.y as int)
    }

    /// Whether one physics step stays within what the fields can hold.
    pub open spec fn can_move(&self) -> bool {
        &&& self.x < i32::MAX
        &&& i64::MIN <= self.y + speed_after_gravity(self.velocity as int) <= i64::MAX
    }

    /// The dragon one physics step later.
    pub open spec fn moved(&self) -> Player {
        Player {
            x: (self.x + 1) as i32,
            y: height_after_step(self.y as int, self.velocity as int) as i64,
            velocity: speed_after_gravity(self.velocity as int) as i64,
        }
    }

    /// The dragon after a flap.
    pub open spec fn flapped(&self) -> Player {
        Player { x: self.x, y: self.y, velocity: (-FLAP_STRENGTH) as i64 }
    }

    /// The dragon as the display is to draw it: one yellow `@` on black in
    /// the leftmost screen column, in the dragon's row.
    pub open spec fn sprite(&self) -> DrawOp {
        DrawOp::Put {
            x: 0,
            y: self.spec_row(),
            fg: Color::Yellow,
            bg: Color::Black,
            glyph: GLYPH_AT as int,
        }
    }

    /// A dragon at rest in column `x` and row `y`.
    pub fn new(x: i32, y: i32) -> (player: Player)
        ensures
            player.x == x,
            player.y == y * UNIT,
            player.velocity == 0,
            player.spec_row() == y,
    {
        Player { x, y: from_whole(y), velocity: 0 }
    }

    /// The screen row of the dragon.
    pub fn row(&self) -> (row: i32)
        ensures
            row == self.spec_row(),
    {
        truncate(self.y)
    }

    /// The dragon as the display is to draw it.
    pub fn render(&self) -> (command: DrawCommand)
        ensures
            command@ == self.sprite(),
    {
        cell(0, self.row(), Color::Yellow, Color::Black, glyph_of('@'))
    }

    /// Whether one physics step stays within what the fields can hold.
    pub fn may_move(&self) -> (ok: bool)
        ensures
            ok == self.can_move(),
    {
        let speed: i64 = if self.velocity < TERMINAL_VELOCITY {
            self.velocity + GRAVITY
        } else {
            self.velocity
        };
        self.x < i32::MAX && self.y.checked_add(speed).is_some()
    }

    /// One physics step: gravity, then the fall, then one cell forward; the
    /// dragon never rises above the top of the screen.
    pub fn gravity_and_move(&mut self)
        requires
            old(self).can_move(),
        ensures
            *final(self) == old(self).moved(),
            final(self).x == old(self).x + 1,
            final(self).velocity == speed_after_gravity(old(self).velocity as int),
            old(self).velocity < TERMINAL_VELOCITY ==> final(self).velocity == old(self).velocity
                + GRAVITY,
            final(self).y == height_after_step(old(self).y as int, old(self).velocity as int),
            final(self).y >= 0,
    {
        if self.velocity < TERMINAL_VELOCITY {
            self.velocity = self.velocity + GRAVITY;
        }
        self.y = self.y + self.velocity;
        self.x = self.x + 1;
        if self.y < 0 {
            self.y = 0;
        }
    }

    /// A flap: the speed becomes one flap upward, whatever it was.
    pub fn flap(&mut self)
        ensures
            *final(self) == old(self).flapped(),
            final(self).velocity == -FLAP_STRENGTH,
            final(self).x == old(self).x,
            final(self).y == old(self).y,
    {
        self.velocity = -FLAP_STRENGTH;
    }
}

} // verus!
