//! The game: the player's body on a terminal of a given size, and what one
//! frame of the game loop decides.

use vstd::prelude::*;

use crate::clock::Clock;
use crate::command::Commands;
use crate::snake::{moved_head, shifted_trail, Snake};
use crate::term::{
    clear_code, clear_seq, dec, decimal, goto_code, goto_seq, hide_code, hide_seq, two_places,
    two_places_text,
};
use crate::vec2::{div_trunc, div_trunc_wide, rot, scale_wide, Vec2, SCALE};

verus! {

/// What polling the command channel gave.
#[derive(Clone, Copy, Debug, PartialEq, Eq, Structural)]
pub enum Poll {
    Received(Commands),
    Empty,
    /// The sending side is gone.
    Disconnected,
}

/// Whether two bodies are the same.
pub open spec fn same_snake(a: Snake, b: Snake) -> bool {
    &&& a.len == b.len
    &&& a.head == b.head
    &&& a.body@ == b.body@
    &&& a.forward == b.forward
}

/// Whether the point `p` lies on the field, borders included.
pub open spec fn on_field(p: (int, int)) -> bool {
    0 <= p.0 <= SCALE && 0 <= p.1 <= SCALE
}

/// The terminal cell, counted from one, of coordinate `c` on an axis of
/// `size` cells; cells before the first and past the last are taken as those.
pub open spec fn term_cell(c: int, size: int) -> int {
    let t = div_trunc(c * size, SCALE as int);
    if t < 0 {
        1
    } else if t >= u16::MAX {
        u16::MAX as int
    } else {
        t + 1
    }
}

/// A block drawn at cell `c`: the cursor moved there, a full block, the
/// cursor hidden.
pub open spec fn glyph(c: (u16, u16)) -> Seq<char> {
    goto_seq(c.0, c.1) + seq!['\u{2588}'] + hide_seq()
}

/// The blocks drawn at each of `cells`, in order.
pub open spec fn glyph_run(cells: Seq<(u16, u16)>) -> Seq<char>
    decreases cells.len(),
{
    if cells.len() == 0 {
        Seq::<char>::empty()
    } else {
        glyph_run(cells.drop_last()) + glyph(cells.last())
    }
}

pub struct Game {
    pub height: u16,
    pub width: u16,
    pub player: Snake,
    pub clock: Clock,
}

impl Game {
    /// The terminal cell of the point `v`.
    pub open spec fn spec_term_coord(&self, v: Vec2) -> (u16, u16) {
        (term_cell(v.x as int, self.width as int) as u16, term_cell(v.y as int, self.height as int) as u16)
    }

    /// A new body on a terminal of `width` columns and `height` rows.
    pub fn new(width: u16, height: u16) -> (r: Game)
        ensures
            r.width == width,
            r.height == height,
            r.player.len == 1,
            r.player.head == (Vec2 { x: 30_000, y: 30_000 }),
            r.player.forward == (Vec2 { x: 110_000, y: 0 }),
            r.player.body@ == Seq::<Vec2>::empty(),
    {
        let player = Snake::new();
        let clock = Clock::new();
        Game { height, width, player, clock }
    }

    /// Moves the body for `dt` seconds (in fixed point) if the head stays on
    /// the field; otherwise the body stays where it is.
    pub fn update(&mut self, dt: i64)
        ensures
            final(self).width == old(self).width,
            final(self).height == old(self).height,
            ({
                let next = moved_head(old(self).player.head, old(self).player.forward, dt as int);
                if on_field(next) {
                    &&& final(self).player.head.pair() == next
                    &&& final(self).player.body@ == shifted_trail(
                        old(self).player.head,
                        old(self).player.body@,
                    )
                    &&& final(self).player.forward == old(self).player.forward
                    &&& final(self).player.len == old(self).player.len
                } else {
                    same_snake(final(self).player, old(self).player)
                }
            }),
    {
        let head = self.player.head;
        let forward = self.player.forward;
        let nx: i128 = head.x as i128 + scale_wide(forward.x, dt);
        let ny: i128 = head.y as i128 + scale_wide(forward.y, dt);
        if 0 <= nx && nx <= SCALE as i128 && 0 <= ny && ny <= SCALE as i128 {
            self.player.move_forward(dt);
        }
    }

    /// Applies what the poll of the command channel gave, and tells whether
    /// the loop goes on: not after a quit, nor once the channel is closed.
    /// A turn or a growth that would leave the range of `i64` is ignored.
    pub fn handle(&mut self, poll: Poll) -> (running: bool)
        ensures
            running == !(poll == Poll::Disconnected || poll == Poll::Received(Commands::Quit)),
            final(self).width == old(self).width,
            final(self).height == old(self).height,
            match poll {
                Poll::Received(Commands::RotatePlayer(q)) => if old(self).player.can_turn() {
                    &&& final(self).player.forward.pair() == rot(
                        old(self).player.forward.pair(),
                        q as int,
                    )
                    &&& final(self).player.head == old(self).player.head
                    &&& final(self).player.body@ == old(self).player.body@
                    &&& final(self).player.len == old(self).player.len
                } else {
                    same_snake(final(self).player, old(self).player)
                },
                Poll::Received(Commands::Extend) => if old(self).player.can_grow() {
                    &&& final(self).player.head.pair() == crate::snake::grown_head(
                        old(self).player.head,
                        old(self).player.forward,
                    )
                    &&& final(self).player.body@ == seq![old(self).player.head]
                        + old(self).player.body@
                    &&& final(self).player.forward == old(self).player.forward
                    &&& final(self).player.len == old(self).player.len
                } else {
                    same_snake(final(self).player, old(self).player)
                },
                Poll::Received(Commands::Shrink) => {
                    &&& final(self).player.body@ == if old(self).player.body@.len() > 0 {
                        old(self).player.body@.drop_last()
                    } else {
                        old(self).player.body@
                    }
                    &&& final(self).player.head == old(self).player.head
                    &&& final(self).player.forward == old(self).player.forward
                    &&& final(self).player.len == old(self).player.len
                },
                _ => same_snake(final(self).player, old(self).player),
            },
    {
        match poll {
            Poll::Received(cmd) => match cmd {
                Commands::RotatePlayer(q) => {
                    if self.player.forward.x > i64::MIN && self.player.forward.y > i64::MIN {
                        self.player.rotate(q);
                    }
                    true
                },
                Commands::Extend => {
                    if self.player.grows_in_range() {
                        self.player.extend();
                    }
                    true
                },
                Commands::Shrink => {
                    self.player.shrink();
                    true
                },
                Commands::Quit => false,
            },
            Poll::Empty => true,
            Poll::Disconnected => false,
        }
    }

    /// The cells of the body: the head's first, then the trail's, most
    /// recent first.
    pub open spec fn cells(&self) -> Seq<(u16, u16)> {
        seq![self.spec_term_coord(self.player.head)] + self.player.body@.map_values(
            |v: Vec2| self.spec_term_coord(v),
        )
    }

    /// The text of a whole frame.
    pub open spec fn frame(&self) -> Seq<char> {
        let head = self.player.head;
        let c = self.spec_term_coord(head);
        clear_seq() + goto_seq(1, 1) + "snake head gamecoord: ("@ + two_places(head.x as int)
            + ","@ + two_places(head.y as int) + ")\n"@ + "\rsnake head termcoord: ("@ + dec(
            c.0 as nat,
        ) + ","@ + dec(c.1 as nat) + ")\n"@ + glyph_run(self.cells())
    }

    /// The blocks that draw the body, head first.
    pub fn draw_snake(&self) -> (r: String)
        ensures
            r@ == glyph_run(self.cells()),
    {
        let ghost cells = self.cells();
        let mut out = String::new();
        let c = self.term_coord(self.player.head);
        push_glyph(&mut out, c);
        assert(cells.take(1).drop_last() =~= Seq::<(u16, u16)>::empty());
        assert(glyph_run(Seq::<(u16, u16)>::empty()) == Seq::<char>::empty());
        assert(out@ =~= glyph_run(cells.take(1)));
        let n = self.player.body.len();
        let mut i: usize = 0;
        while i < n
            invariant
                n == self.player.body@.len(),
                cells == self.cells(),
                i <= n,
                out@ == glyph_run(cells.take(i + 1)),
            decreases n - i,
        {
            let c = self.term_coord(self.player.body[i]);
            push_glyph(&mut out, c);
            assert(cells.take(i + 2).drop_last() =~= cells.take(i + 1));
            assert(cells.take(i + 2).last() == c);
            i = i + 1;
        }
        assert(cells.take(n + 1) =~= cells);
        out
    }

    /// A whole frame: the screen cleared, the head's position on the field
    /// and on the terminal, and the body.
    pub fn draw(&self) -> (r: String)
        ensures
            r@ == self.frame(),
    {
        let head = self.player.head;
        let mut out = clear_code();
        let home = goto_code(1, 1);
        out.append(home.as_str());
        out.append("snake head gamecoord: (");
        let hx = two_places_text(head.x);
        out.append(hx.as_str());
        out.append(",");
        let hy = two_places_text(head.y);
        out.append(hy.as_str());
        out.append(")\n");
        let c = self.term_coord(head);
        out.append("\rsnake head termcoord: (");
        let cx = decimal(c.0 as u64);
        out.append(cx.as_str());
        out.append(",");
        let cy = decimal(c.1 as u64);
        out.append(cy.as_str());
        out.append(")\n");
        let body = self.draw_snake();
        out.append(body.as_str());
        out
    }

    /// The terminal cell, counted from one, of the point `v`.
    pub fn term_coord(&self, v: Vec2) -> (r: (u16, u16))
        ensures
            r == self.spec_term_coord(v),
    {
        (axis_cell(v.x, self.width), axis_cell(v.y, self.height))
    }

    /// The point at column `x` and row `y`, each scaled by the ratio of the
    /// terminal's width to its height.
    pub fn game_coord(&self, x: u16, y: u16) -> (r: Vec2)
        requires
            self.height > 0,
        ensures
            r.x == (x as int * self.width as int * SCALE as int) / (self.height as int),
            r.y == (y as int * self.width as int * SCALE as int) / (self.height as int),
    {
        let x = scaled_ratio(x, self.width, self.height);
        let y = scaled_ratio(y, self.width, self.height);
        Vec2 { x, y }
    }
}

/// Appends the block drawn at cell `c`.
fn push_glyph(out: &mut String, c: (u16, u16))
    requires
        c.0 >= 1,
    ensures
        final(out)@ == old(out)@ + glyph(c),
{
    let to = goto_code(c.0, c.1);
    out.append(to.as_str());
    out.append("\u{2588}");
    proof {
        reveal_strlit("\u{2588}");
    }
    let hide = hide_code();
    out.append(hide.as_str());
}

/// `term_cell(c, size)`, computed without overflow.
fn axis_cell(c: i64, size: u16) -> (r: u16)
    ensures
        r == term_cell(c as int, size as int),
{
    assert(-0x8000_0000_0000_0000_0000_0000 <= c * size <= 0x8000_0000_0000_0000_0000_0000) by (nonlinear_arith)
        requires
            i64::MIN <= c <= i64::MAX,
            0 <= size <= u16::MAX,
    ;
    let t = div_trunc_wide(c as i128 * size as i128, SCALE as i128);
    if t < 0 {
        1
    } else if t >= u16::MAX as i128 {
        u16::MAX
    } else {
        (t + 1) as u16
    }
}

/// `v * num * SCALE / den`, computed without overflow.
fn scaled_ratio(v: u16, num: u16, den: u16) -> (r: i64)
    requires
        den > 0,
    ensures
        r == (v as int * num as int * SCALE as int) / (den as int),
{
    assert(v * num <= 0xffff_ffff) by (nonlinear_arith)
        requires
            v <= u16::MAX,
            num <= u16::MAX,
    ;
    let p: u64 = v as u64 * num as u64;
    let q: u64 = p * SCALE as u64;
    assert((q as int) / (den as int) <= q as int) by (nonlinear_arith)
        requires
            den > 0,
            q >= 0,
    ;
    (q / den as u64) as i64
}

} // verus!
