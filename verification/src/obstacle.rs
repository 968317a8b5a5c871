//! A wall with a gap: where it stands, where it lets the dragon through, and
//! which cells it fills on the screen.

use vstd::prelude::*;
use bracket_lib::random::RandomNumberGenerator;
use crate::constants::{GAP_ROW_MAX, GAP_ROW_MIN, GAP_SIZE_MAX, GAP_SIZE_MIN, SCREEN_HEIGHT};
use crate::draw::{
    cell, glyph_of, lemma_ops_of_push, ops_of, Color, DrawCommand, DrawOp, GLYPH_BAR,
};
use crate::fixed::quotient_toward_zero;
use crate::player::Player;
use crate::random::draw_between;

verus! {

/// One wall. The gap is centred on row `gap_y` and reaches `size / 2` rows up
/// and down from there.
#[derive(Clone, Copy, Debug, PartialEq, Eq)]
pub struct Obstacle {
    /// Horizontal position in the world, in character cells.
    pub x: i32,
    /// Row of the centre of the gap.
    pub gap_y: i32,
    /// Height of the gap.
    pub size: i32,
}

/// The height of the gap at a given score: it starts at 20 and loses one row
/// per point, down to 2.
pub open spec fn gap_size(score: int) -> int {
    if GAP_SIZE_MAX - score > GAP_SIZE_MIN {
        GAP_SIZE_MAX - score
    } else {
        GAP_SIZE_MIN as int
    }
}

/// The gap never grows as the score grows, and it is never under 2 nor over
/// 20 from score 0 on.
pub proof fn lemma_gap_size_shrinks(lower: int, higher: int)
    requires
        lower <= higher,
    ensures
        gap_size(higher) <= gap_size(lower),
        gap_size(lower) >= GAP_SIZE_MIN,
        0 <= lower ==> gap_size(lower) <= GAP_SIZE_MAX,
{
}

/// `count` wall cells in screen column `x`, one below the other from row
/// `first` down.
pub open spec fn wall_segment(x: int, first: int, count: int) -> Seq<DrawOp> {
    Seq::new(
        if count > 0 { count as nat } else { 0 },
        |i: int| DrawOp::Put { x, y: first + i, fg: Color::Red, bg: Color::Black, glyph: GLYPH_BAR as int },
    )
}

/// On the screen a wall is drawn in exactly the rows that it fills: a cell of
/// the wall is among those drawn for a screen row if and only if the wall
/// blocks that row.
pub proof fn lemma_wall_drawn_where_it_blocks(obstacle: Obstacle, player_x: int, row: int)
    requires
        0 <= row < SCREEN_HEIGHT,
    ensures
        obstacle.wall_ops(player_x).contains(
            DrawOp::Put {
                x: obstacle.x - player_x,
                y: row,
                fg: Color::Red,
                bg: Color::Black,
                glyph: GLYPH_BAR as int,
            },
        ) <==> obstacle.blocks(row),
{
    let x = obstacle.x - player_x;
    let top = wall_segment(x, 0, obstacle.gap_top());
    let below = wall_segment(
        x,
        obstacle.gap_bottom() + 1,
        SCREEN_HEIGHT - (obstacle.gap_bottom() + 1),
    );
    let walls = obstacle.wall_ops(player_x);
    let wanted = DrawOp::Put {
        x,
        y: row,
        fg: Color::Red,
        bg: Color::Black,
        glyph: GLYPH_BAR as int,
    };
    if obstacle.blocks(row) {
        if row < obstacle.gap_top() {
            assert(walls[row] == wanted);
        } else {
            let i = row - (obstacle.gap_bottom() + 1);
            assert(walls[top.len() + i] == below[i]);
            assert(walls[top.len() + i] == wanted);
        }
    }
    if walls.contains(wanted) {
        let i = choose|i: int| 0 <= i < walls.len() && walls[i] == wanted;
        if i < top.len() {
            assert(walls[i] == top[i]);
        } else {
            assert(walls[i] == below[i - top.len()]);
        }
    }
}

impl Obstacle {
    /// Half the height of the gap, rounded toward zero.
    pub open spec fn half_size(&self) -> int {
        quotient_toward_zero(self.size as int, 2)
    }

    /// The topmost row of the gap.
    pub open spec fn gap_top(&self) -> int {
        self.gap_y - self.half_size()
    }

    /// The lowest row of the gap.
    pub open spec fn gap_bottom(&self) -> int {
        self.gap_y + self.half_size()
    }

    /// Whether the wall fills `row`: every row above the topmost row of the
    /// gap and every row below its lowest row. Both of those rows are free.
    pub open spec fn blocks(&self, row: int) -> bool {
        row < self.gap_top() || row > self.gap_bottom()
    }

    /// Whether the dragon is in the wall: it stands in the wall's column, in
    /// a row that the wall fills.
    pub open spec fn hits(&self, player: Player) -> bool {
        player.x == self.x && self.blocks(player.spec_row())
    }

    /// Whether the ends of the gap are rows that an `i32` can hold.
    pub open spec fn gap_fits(&self) -> bool {
        &&& i32::MIN <= self.gap_top() <= i32::MAX
        &&& i32::MIN <= self.gap_bottom() <= i32::MAX
    }

    /// Whether the wall can be drawn for a dragon at `player_x`: its screen
    /// column and the ends of its gap are within what an `i32` can hold.
    pub open spec fn can_render(&self, player_x: int) -> bool {
        &&& i32::MIN <= self.x - player_x <= i32::MAX
        &&& self.gap_fits()
    }

    /// The cells of the wall as the display is to draw them, for a dragon at
    /// `player_x`: in screen column `x - player_x`, first the rows from 0 down
    /// to the gap, then the rows from below the gap to the bottom of the
    /// screen.
    pub open spec fn wall_ops(&self, player_x: int) -> Seq<DrawOp> {
        wall_segment(self.x - player_x, 0, self.gap_top()) + wall_segment(
            self.x - player_x,
            self.gap_bottom() + 1,
            SCREEN_HEIGHT - (self.gap_bottom() + 1),
        )
    }

    /// A wall at `x` whose gap is centred on `gap_y` and sized for `score`.
    pub fn with_gap(x: i32, gap_y: i32, score: i32) -> (obstacle: Obstacle)
        requires
            GAP_SIZE_MAX - score <= i32::MAX,
        ensures
            obstacle.x == x,
            obstacle.gap_y == gap_y,
            obstacle.size == gap_size(score as int),
    {
        let shrunk: i32 = GAP_SIZE_MAX - score;
        let size: i32 = if shrunk > GAP_SIZE_MIN {
            shrunk
        } else {
            GAP_SIZE_MIN
        };
        Obstacle { x, gap_y, size }
    }

    /// A wall at `x`, sized for `score`, with its gap centred on a row drawn
    /// at random from 10 up to, but not including, 40.
    pub fn new(x: i32, score: i32) -> (obstacle: Obstacle)
        requires
            GAP_SIZE_MAX - score <= i32::MAX,
        ensures
            obstacle.x == x,
            GAP_ROW_MIN <= obstacle.gap_y < GAP_ROW_MAX,
            obstacle.size == gap_size(score as int),
    {
        let mut random = RandomNumberGenerator::new();
        let gap_y: i32 = draw_between(&mut random, GAP_ROW_MIN, GAP_ROW_MAX);
        Obstacle::with_gap(x, gap_y, score)
    }

    /// Whether the wall can be drawn for a dragon at `player_x`.
    pub fn may_render(&self, player_x: i32) -> (ok: bool)
        ensures
            ok == self.can_render(player_x as int),
    {
        let column: i64 = self.x as i64 - player_x as i64;
        let half_size: i64 = (self.size / 2) as i64;
        let top: i64 = self.gap_y as i64 - half_size;
        let bottom: i64 = self.gap_y as i64 + half_size;
        i32::MIN as i64 <= column && column <= i32::MAX as i64 && i32::MIN as i64 <= top && top
            <= i32::MAX as i64 && i32::MIN as i64 <= bottom && bottom <= i32::MAX as i64
    }

    /// Whether the dragon is in the wall. This can only be so while the
    /// dragon is in the wall's own column.
    pub fn hit_obstacle(&self, player: &Player) -> (hit: bool)
        ensures
            hit == self.hits(*player),
            hit == (player.x == self.x && (player.spec_row() < self.gap_y - self.half_size()
                || player.spec_row() > self.gap_y + self.half_size())),
    {
        let half_size: i64 = (self.size / 2) as i64;
        let row: i64 = player.row() as i64;
        let does_x_match = player.x == self.x;
        let player_above_gap = row < self.gap_y as i64 - half_size;
        let player_below_gap = row > self.gap_y as i64 + half_size;
        does_x_match && (player_above_gap || player_below_gap)
    }

    /// Adds to `commands` the cells of the wall, for a dragon at `player_x`.
    pub fn draw_into(&self, commands: &mut Vec<DrawCommand>, player_x: i32)
        requires
            self.can_render(player_x as int),
        ensures
            ops_of(final(commands)@) == ops_of(old(commands)@) + self.wall_ops(player_x as int),
    {
        let screen_x: i32 = self.x - player_x;
        let half_size: i32 = self.size / 2;
        let glyph: u16 = glyph_of('|');
        let top: i32 = self.gap_y - half_size;
        let bottom: i32 = self.gap_y + half_size;
        draw_segment(commands, screen_x, 0, top, glyph);
        if bottom < SCREEN_HEIGHT {
            draw_segment(commands, screen_x, bottom + 1, SCREEN_HEIGHT, glyph);
        }
        assert(ops_of(commands@) =~= ops_of(old(commands)@) + self.wall_ops(player_x as int));
    }

    /// The cells of the wall as the display is to draw them, for a dragon at
    /// `player_x`.
    pub fn render(&self, player_x: i32) -> (commands: Vec<DrawCommand>)
        requires
            self.can_render(player_x as int),
        ensures
            ops_of(commands@) == self.wall_ops(player_x as int),
    {
        let mut commands: Vec<DrawCommand> = Vec::new();
        self.draw_into(&mut commands, player_x);
        assert(ops_of(commands@) =~= self.wall_ops(player_x as int));
        commands
    }
}

/// Adds one wall cell for each row from `first` up to, but not including,
/// `end`.
fn draw_segment(commands: &mut Vec<DrawCommand>, x: i32, first: i32, end: i32, glyph: u16)
    requires
        glyph == GLYPH_BAR,
    ensures
        ops_of(final(commands)@) == ops_of(old(commands)@) + wall_segment(
            x as int,
            first as int,
            end - first,
        ),
{
    let mut y: i32 = first;
    assert(ops_of(commands@) =~= ops_of(old(commands)@) + wall_segment(x as int, first as int, 0));
    while y < end
        invariant
            first <= y,
            first < end ==> y <= end,
            first >= end ==> y == first,
            glyph == GLYPH_BAR,
            ops_of(commands@) == ops_of(old(commands)@) + wall_segment(
                x as int,
                first as int,
                y - first,
            ),
        decreases end - y,
    {
        let ghost before = commands@;
        let command = cell(x, y, Color::Red, Color::Black, glyph);
        commands.push(command);
        proof {
            lemma_ops_of_push(before, command);
            assert(wall_segment(x as int, first as int, y + 1 - first) =~= wall_segment(
                x as int,
                first as int,
                y - first,
            ).push(command@));
        }
        y = y + 1;
    }
    assert(wall_segment(x as int, first as int, y - first) =~= wall_segment(
        x as int,
        first as int,
        end - first,
    ));
}

} // verus!
