//! Sprite drawing: the XOR of an N-row sprite into the 2048-cell
//! framebuffer, with wraparound modulo 2048 and collision detection.
//!
//! The drawing of one sprite is modelled as the ordered list of framebuffer
//! positions whose sprite bit is set ([`sprite_hits`]), folded over the
//! framebuffer one toggle at a time ([`toggle_all`]); a collision is a
//! toggle that finds its cell already lit ([`any_lit`]).

use vstd::prelude::*;

verus! {

/// Whether bit `xoff` (0 = leftmost, most significant) of a sprite row is set.
pub open spec fn sprite_row_bit(line: u8, xoff: int) -> bool {
    line & (0x80u8 >> (xoff as u8)) != 0
}

/// The framebuffer position of column `xoff` of a sprite row drawn at
/// row coordinate `ry` and horizontal position `vx`: `row*64 + col`,
/// wrapped modulo 2048.
pub open spec fn row_pos(vx: int, ry: int, xoff: int) -> int {
    (ry * 64 + xoff + vx) % 2048
}

/// The positions of the set bits among the first `bits` bits of one sprite
/// row, leftmost first.
pub open spec fn row_hits(line: u8, vx: int, ry: int, bits: int) -> Seq<int>
    decreases bits,
{
    if bits <= 0 {
        Seq::empty()
    } else {
        row_hits(line, vx, ry, bits - 1)
            + if sprite_row_bit(line, bits - 1) {
                seq![row_pos(vx, ry, bits - 1)]
            } else {
                Seq::empty()
            }
    }
}

/// The positions of all set bits of the first `rows` rows of the sprite
/// read from `mem` at address `i`, drawn at (`vx`, `vy`): row by row from
/// the top, left to right within a row.
pub open spec fn sprite_hits(mem: Seq<u8>, i: int, vx: int, vy: int, rows: int) -> Seq<int>
    decreases rows,
{
    if rows <= 0 {
        Seq::empty()
    } else {
        sprite_hits(mem, i, vx, vy, rows - 1) + row_hits(mem[i + rows - 1], vx, vy + rows - 1, 8)
    }
}

/// XOR-toggle the cell at position `p`.
pub open spec fn flip(g: Seq<u8>, p: int) -> Seq<u8> {
    g.update(p, g[p] ^ 1)
}

/// Toggle the listed positions in order.
pub open spec fn toggle_all(g: Seq<u8>, ps: Seq<int>) -> Seq<u8>
    decreases ps.len(),
{
    if ps.len() == 0 {
        g
    } else {
        flip(toggle_all(g, ps.drop_last()), ps.last())
    }
}

/// Whether some toggle of the listed positions, applied in order, finds its
/// cell already holding 1 - the collision condition that raises VF.
pub open spec fn any_lit(g: Seq<u8>, ps: Seq<int>) -> bool
    decreases ps.len(),
{
    if ps.len() == 0 {
        false
    } else {
        any_lit(g, ps.drop_last()) || toggle_all(g, ps.drop_last())[ps.last()] == 1
    }
}

/// All entries of a position list fall in `[0, len)`.
pub open spec fn positions_in_range(ps: Seq<int>, len: int) -> bool {
    forall|k: int| 0 <= k < ps.len() ==> 0 <= #[trigger] ps[k] < len
}

/// Dropping the last entry keeps a position list in range.
proof fn lemma_drop_last_in_range(ps: Seq<int>, len: int)
    requires
        ps.len() > 0,
        positions_in_range(ps, len),
    ensures
        positions_in_range(ps.drop_last(), len),
{
    assert forall|k: int| 0 <= k < ps.drop_last().len() implies 0 <= #[trigger] ps.drop_last()[k]
        < len by {
        assert(ps.drop_last()[k] == ps[k]);
    }
}

/// All positions listed by `row_hits` lie inside the framebuffer.
pub proof fn lemma_row_hits_in_range(line: u8, vx: int, ry: int, bits: int)
    requires
        vx >= 0,
        ry >= 0,
    ensures
        positions_in_range(row_hits(line, vx, ry, bits), 2048),
    decreases bits,
{
    if bits > 0 {
        lemma_row_hits_in_range(line, vx, ry, bits - 1);
        let pre = row_hits(line, vx, ry, bits - 1);
        let whole = row_hits(line, vx, ry, bits);
        assert forall|k: int| 0 <= k < whole.len() implies 0 <= #[trigger] whole[k] < 2048 by {
            if k < pre.len() {
                assert(whole[k] == pre[k]);
            } else {
                assert(whole[k] == row_pos(vx, ry, bits - 1));
            }
        }
    }
}

/// All positions listed by `sprite_hits` lie inside the framebuffer.
pub proof fn lemma_sprite_hits_in_range(mem: Seq<u8>, i: int, vx: int, vy: int, rows: int)
    requires
        vx >= 0,
        vy >= 0,
    ensures
        positions_in_range(sprite_hits(mem, i, vx, vy, rows), 2048),
    decreases rows,
{
    if rows > 0 {
        lemma_sprite_hits_in_range(mem, i, vx, vy, rows - 1);
        lemma_row_hits_in_range(mem[i + rows - 1], vx, vy + rows - 1, 8);
        let pre = sprite_hits(mem, i, vx, vy, rows - 1);
        let row = row_hits(mem[i + rows - 1], vx, vy + rows - 1, 8);
        let whole = sprite_hits(mem, i, vx, vy, rows);
        assert forall|k: int| 0 <= k < whole.len() implies 0 <= #[trigger] whole[k] < 2048 by {
            if k < pre.len() {
                assert(whole[k] == pre[k]);
            } else {
                assert(whole[k] == row[k - pre.len()]);
            }
        }
    }
}

/// Toggling in-range positions never changes the framebuffer's length.
pub proof fn lemma_toggle_all_len(g: Seq<u8>, ps: Seq<int>)
    requires
        positions_in_range(ps, g.len() as int),
    ensures
        toggle_all(g, ps).len() == g.len(),
    decreases ps.len(),
{
    if ps.len() > 0 {
        lemma_drop_last_in_range(ps, g.len() as int);
        lemma_toggle_all_len(g, ps.drop_last());
        assert(0 <= ps.last() < g.len());
    }
}

/// Toggling the same cell twice restores the framebuffer.
proof fn lemma_flip_flip(h: Seq<u8>, q: int)
    requires
        0 <= q < h.len(),
    ensures
        flip(flip(h, q), q) == h,
{
    let c = h[q];
    assert((c ^ 1) ^ 1 == c) by (bit_vector);
    assert(flip(flip(h, q), q) =~= h);
}

/// Toggles of two different cells commute.
proof fn lemma_flip_comm(h: Seq<u8>, p: int, q: int)
    requires
        p != q,
        0 <= p < h.len(),
        0 <= q < h.len(),
    ensures
        flip(flip(h, p), q) == flip(flip(h, q), p),
{
    assert(flip(flip(h, p), q) =~= flip(flip(h, q), p));
}

/// A toggle of a cell not in the list commutes with toggling the list.
proof fn lemma_toggle_flip_comm(g: Seq<u8>, ps: Seq<int>, p: int)
    requires
        !ps.contains(p),
        0 <= p < g.len(),
        positions_in_range(ps, g.len() as int),
    ensures
        toggle_all(flip(g, p), ps) == flip(toggle_all(g, ps), p),
    decreases ps.len(),
{
    assert(flip(g, p).len() == g.len());
    if ps.len() > 0 {
        let q = ps.last();
        let rest = ps.drop_last();
        assert(0 <= q < g.len());
        assert(!rest.contains(p)) by {
            if rest.contains(p) {
                let kk = choose|kk: int| 0 <= kk < rest.len() && rest[kk] == p;
                assert(ps[kk] == p);
            }
        }
        lemma_drop_last_in_range(ps, g.len() as int);
        lemma_toggle_flip_comm(g, rest, p);
        lemma_toggle_all_len(g, rest);
        assert(p != q) by {
            assert(ps[ps.len() - 1] == q);
        }
        lemma_flip_comm(toggle_all(g, rest), p, q);
    }
}

/// Toggling a duplicate-free list of cells twice restores the
/// framebuffer: the XOR draw is its own inverse.
pub proof fn lemma_toggle_toggle(g: Seq<u8>, ps: Seq<int>)
    requires
        ps.no_duplicates(),
        positions_in_range(ps, g.len() as int),
    ensures
        toggle_all(toggle_all(g, ps), ps) == g,
    decreases ps.len(),
{
    if ps.len() > 0 {
        let q = ps.last();
        let rest = ps.drop_last();
        assert(rest.no_duplicates()) by {
            assert forall|a: int, b: int|
                0 <= a < rest.len() && 0 <= b < rest.len() && a != b implies rest[a]
                != rest[b] by {
                assert(rest[a] == ps[a]);
                assert(rest[b] == ps[b]);
            }
        }
        assert(!rest.contains(q)) by {
            if rest.contains(q) {
                let kk = choose|kk: int| 0 <= kk < rest.len() && rest[kk] == q;
                assert(ps[kk] == ps[ps.len() - 1]);
            }
        }
        lemma_drop_last_in_range(ps, g.len() as int);
        lemma_toggle_toggle(g, rest);
        let t = toggle_all(g, rest);
        lemma_toggle_all_len(g, rest);
        assert(0 <= q < g.len()) by {
            assert(ps[ps.len() - 1] == q);
        }
        assert(toggle_all(g, ps) == flip(t, q));
        lemma_toggle_flip_comm(t, rest, q);
        assert(toggle_all(flip(t, q), ps) == flip(toggle_all(flip(t, q), rest), q));
        assert(toggle_all(flip(t, q), rest) == flip(toggle_all(t, rest), q));
        assert(toggle_all(t, rest) == g);
        lemma_flip_flip(g, q);
    }
}

/// Distinct remainders: two different numerators less than 2048 apart have
/// different remainders modulo 2048.
proof fn lemma_mod2048_neq(a: u16, b: u16)
    requires
        a != b,
        a < b + 2048,
        b < a + 2048,
    ensures
        a % 2048 != b % 2048,
{
    assert(a != b && a < b + 2048 && b < a + 2048 ==> a % 2048 != b % 2048) by (bit_vector);
}

/// Two different sprite cells within 16 rows of each other land on
/// different framebuffer positions: the wraparound modulo 2048 cannot make
/// them collide.
proof fn lemma_row_pos_neq(vx: int, ry1: int, xo1: int, ry2: int, xo2: int)
    requires
        0 <= vx < 256,
        0 <= ry1 <= 271,
        0 <= ry2 <= 271,
        0 <= xo1 < 8,
        0 <= xo2 < 8,
        ry1 - ry2 < 16,
        ry2 - ry1 < 16,
        !(ry1 == ry2 && xo1 == xo2),
    ensures
        row_pos(vx, ry1, xo1) != row_pos(vx, ry2, xo2),
{
    let n1 = ry1 * 64 + xo1 + vx;
    let n2 = ry2 * 64 + xo2 + vx;
    assert(n1 != n2);
    assert(n1 - n2 < 2048 && n2 - n1 < 2048);
    assert(0 <= n1 < 65536 && 0 <= n2 < 65536);
    lemma_mod2048_neq(n1 as u16, n2 as u16);
}

/// Every position of one sprite row is the position of some column of
/// that row.
spec fn row_covered(line: u8, vx: int, ry: int, bits: int) -> bool {
    forall|p: int|
        #![trigger row_hits(line, vx, ry, bits).contains(p)]
        row_hits(line, vx, ry, bits).contains(p) ==> exists|xo: int|
            0 <= xo < bits && p == #[trigger] row_pos(vx, ry, xo)
}

/// Every position of a sprite is the position of some cell of some row.
spec fn sprite_covered(mem: Seq<u8>, i: int, vx: int, vy: int, rows: int) -> bool {
    forall|p: int|
        #![trigger sprite_hits(mem, i, vx, vy, rows).contains(p)]
        sprite_hits(mem, i, vx, vy, rows).contains(p) ==> exists|yo: int, xo: int|
            0 <= yo < rows && 0 <= xo < 8 && p == #[trigger] row_pos(vx, vy + yo, xo)
}

/// The positions of one sprite row are pairwise distinct, and each is the
/// position of some column of that row.
proof fn lemma_row_hits_no_dup(line: u8, vx: int, ry: int, bits: int)
    requires
        0 <= vx < 256,
        0 <= ry <= 271,
        bits <= 8,
    ensures
        row_hits(line, vx, ry, bits).no_duplicates(),
        row_covered(line, vx, ry, bits),
    decreases bits,
{
    if bits <= 0 {
        assert(row_covered(line, vx, ry, bits)) by {
            assert forall|p: int|
                row_hits(line, vx, ry, bits).contains(p) implies exists|xo: int|
                0 <= xo < bits && p == #[trigger] row_pos(vx, ry, xo) by {
                let kk = choose|kk: int|
                    0 <= kk < row_hits(line, vx, ry, bits).len() && row_hits(
                        line,
                        vx,
                        ry,
                        bits,
                    )[kk] == p;
            }
        }
    } else {
        lemma_row_hits_no_dup(line, vx, ry, bits - 1);
        let pre = row_hits(line, vx, ry, bits - 1);
        let whole = row_hits(line, vx, ry, bits);
        assert(row_covered(line, vx, ry, bits)) by {
            assert forall|p: int|
                row_hits(line, vx, ry, bits).contains(p) implies exists|xo: int|
                0 <= xo < bits && p == #[trigger] row_pos(vx, ry, xo) by {
                let kk = choose|kk: int| 0 <= kk < whole.len() && whole[kk] == p;
                if kk < pre.len() {
                    assert(whole[kk] == pre[kk]);
                    assert(row_hits(line, vx, ry, bits - 1).contains(p));
                    let xo = choose|xo: int| 0 <= xo < bits - 1 && p == #[trigger] row_pos(
                        vx,
                        ry,
                        xo,
                    );
                } else {
                    assert(sprite_row_bit(line, bits - 1));
                    assert(whole[kk] == row_pos(vx, ry, bits - 1));
                }
            }
        }
        if sprite_row_bit(line, bits - 1) {
            let q = row_pos(vx, ry, bits - 1);
            assert(whole =~= pre.push(q));
            assert(!pre.contains(q)) by {
                if pre.contains(q) {
                    let xo = choose|xo: int| 0 <= xo < bits - 1 && q == #[trigger] row_pos(
                        vx,
                        ry,
                        xo,
                    );
                    lemma_row_pos_neq(vx, ry, xo, ry, bits - 1);
                }
            }
            assert forall|a: int, b: int|
                0 <= a < whole.len() && 0 <= b < whole.len() && a != b implies whole[a]
                != whole[b] by {
                if a < pre.len() && b < pre.len() {
                    assert(whole[a] == pre[a] && whole[b] == pre[b]);
                } else if a < pre.len() {
                    assert(whole[a] == pre[a] && whole[b] == q);
                    assert(pre.contains(pre[a]));
                } else {
                    assert(whole[a] == q && whole[b] == pre[b]);
                    assert(pre.contains(pre[b]));
                }
            }
        } else {
            assert(whole =~= pre);
        }
    }
}

/// The positions of a whole sprite are pairwise distinct, and each is the
/// position of some cell of some row.
proof fn lemma_sprite_hits_no_dup(mem: Seq<u8>, i: int, vx: int, vy: int, rows: int)
    requires
        0 <= vx < 256,
        0 <= vy < 256,
        rows <= 16,
    ensures
        sprite_hits(mem, i, vx, vy, rows).no_duplicates(),
        sprite_covered(mem, i, vx, vy, rows),
    decreases rows,
{
    if rows <= 0 {
        assert(sprite_covered(mem, i, vx, vy, rows)) by {
            assert forall|p: int|
                sprite_hits(mem, i, vx, vy, rows).contains(p) implies exists|yo: int, xo: int|
                0 <= yo < rows && 0 <= xo < 8 && p == #[trigger] row_pos(vx, vy + yo, xo) by {
                let kk = choose|kk: int|
                    0 <= kk < sprite_hits(mem, i, vx, vy, rows).len() && sprite_hits(
                        mem,
                        i,
                        vx,
                        vy,
                        rows,
                    )[kk] == p;
            }
        }
    } else {
        lemma_sprite_hits_no_dup(mem, i, vx, vy, rows - 1);
        lemma_row_hits_no_dup(mem[i + rows - 1], vx, vy + rows - 1, 8);
        let pre = sprite_hits(mem, i, vx, vy, rows - 1);
        let row = row_hits(mem[i + rows - 1], vx, vy + rows - 1, 8);
        let whole = sprite_hits(mem, i, vx, vy, rows);
        assert(whole == pre + row);
        assert(sprite_covered(mem, i, vx, vy, rows)) by {
            assert forall|p: int|
                sprite_hits(mem, i, vx, vy, rows).contains(p) implies exists|yo: int, xo: int|
                0 <= yo < rows && 0 <= xo < 8 && p == #[trigger] row_pos(vx, vy + yo, xo) by {
                let kk = choose|kk: int| 0 <= kk < whole.len() && whole[kk] == p;
                if kk < pre.len() {
                    assert(whole[kk] == pre[kk]);
                    assert(sprite_hits(mem, i, vx, vy, rows - 1).contains(p));
                    let (yo, xo): (int, int) = choose|yo: int, xo: int|
                        0 <= yo < rows - 1 && 0 <= xo < 8 && p == #[trigger] row_pos(
                            vx,
                            vy + yo,
                            xo,
                        );
                } else {
                    assert(whole[kk] == row[kk - pre.len()]);
                    assert(row_hits(mem[i + rows - 1], vx, vy + rows - 1, 8).contains(p));
                    let xo = choose|xo: int|
                        0 <= xo < 8 && p == #[trigger] row_pos(vx, vy + rows - 1, xo);
                    assert(0 <= rows - 1 < rows && p == row_pos(vx, vy + (rows - 1), xo));
                }
            }
        }
        assert(pre.disjoint(row)) by {
            assert forall|a: int, b: int|
                0 <= a < pre.len() && 0 <= b < row.len() implies pre[a] != row[b] by {
                assert(sprite_hits(mem, i, vx, vy, rows - 1).contains(pre[a]));
                assert(row_hits(mem[i + rows - 1], vx, vy + rows - 1, 8).contains(row[b]));
                let (yo, xo): (int, int) = choose|yo: int, xo: int|
                    0 <= yo < rows - 1 && 0 <= xo < 8 && pre[a] == #[trigger] row_pos(
                        vx,
                        vy + yo,
                        xo,
                    );
                let xo2 = choose|xo2: int|
                    0 <= xo2 < 8 && row[b] == #[trigger] row_pos(vx, vy + rows - 1, xo2);
                lemma_row_pos_neq(vx, vy + yo, xo, vy + rows - 1, xo2);
            }
        }
        assert forall|a: int, b: int|
            0 <= a < whole.len() && 0 <= b < whole.len() && a != b implies whole[a]
            != whole[b] by {
            if a < pre.len() && b < pre.len() {
                assert(whole[a] == pre[a] && whole[b] == pre[b]);
            } else if a < pre.len() {
                assert(whole[a] == pre[a] && whole[b] == row[b - pre.len()]);
            } else if b < pre.len() {
                assert(whole[a] == row[a - pre.len()] && whole[b] == pre[b]);
            } else {
                assert(whole[a] == row[a - pre.len()] && whole[b] == row[b - pre.len()]);
            }
        }
    }
}


/// Drawing the same sprite at the same position twice restores every
/// framebuffer cell: the positions a sprite touches are pairwise distinct,
/// so the second XOR undoes the first.
pub proof fn lemma_draw_round_trip(g: Seq<u8>, mem: Seq<u8>, i: int, vx: u8, vy: u8, n: u8)
    requires
        g.len() == 2048,
        n < 16,
    ensures
        toggle_all(
            toggle_all(g, sprite_hits(mem, i, vx as int, vy as int, n as int)),
            sprite_hits(mem, i, vx as int, vy as int, n as int),
        ) == g,
{
    let ps = sprite_hits(mem, i, vx as int, vy as int, n as int);
    lemma_sprite_hits_no_dup(mem, i, vx as int, vy as int, n as int);
    lemma_sprite_hits_in_range(mem, i, vx as int, vy as int, n as int);
    lemma_toggle_toggle(g, ps);
}

/// Draw the first `n` rows of the sprite read from `mem` at address `i`
/// into the framebuffer at position (`vx`, `vy`), XOR-wise with wraparound;
/// report whether any toggled cell was already lit.
pub(crate) fn draw_sprite(gfx: &mut [u8; 2048], mem: &[u8; 4096], i: u16, vx: u8, vy: u8, n: u8) -> (collision: bool)
    requires
        n < 16,
        n > 0 ==> i + n <= 4096,
    ensures
        final(gfx)@ == toggle_all(old(gfx)@, sprite_hits(mem@, i as int, vx as int, vy as int, n as int)),
        collision == any_lit(old(gfx)@, sprite_hits(mem@, i as int, vx as int, vy as int, n as int)),
{
    let ghost g0 = gfx@;
    let mut collision = false;
    let mut y: u8 = 0;
    while y < n
        invariant
            y <= n,
            n < 16,
            n > 0 ==> i + n <= 4096,
            gfx@ == toggle_all(g0, sprite_hits(mem@, i as int, vx as int, vy as int, y as int)),
            collision == any_lit(g0, sprite_hits(mem@, i as int, vx as int, vy as int, y as int)),
        decreases n - y,
    {
        let line = mem[(i + y as u16) as usize];
        let ghost ry = vy as int + y as int;
        let ghost rows_done = sprite_hits(mem@, i as int, vx as int, vy as int, y as int);
        proof {
            assert(rows_done + row_hits(line, vx as int, ry, 0) =~= rows_done);
        }
        let mut x: u8 = 0;
        while x < 8
            invariant
                x <= 8,
                y < n,
                n < 16,
                i + n <= 4096,
                line == mem@[i + y],
                ry == vy as int + y as int,
                rows_done == sprite_hits(mem@, i as int, vx as int, vy as int, y as int),
                gfx@ == toggle_all(g0, rows_done + row_hits(line, vx as int, ry, x as int)),
                collision == any_lit(g0, rows_done + row_hits(line, vx as int, ry, x as int)),
            decreases 8 - x,
        {
            let ghost ps = rows_done + row_hits(line, vx as int, ry, x as int);
            let ghost t = toggle_all(g0, ps);
            if line & (0x80u8 >> x) != 0 {
                let pos = ((((y as u16 + vy as u16) * 64) + x as u16 + vx as u16) % 2048) as usize;
                proof {
                    assert(sprite_row_bit(line, x as int));
                    assert(pos == row_pos(vx as int, ry, x as int));
                    assert(rows_done + row_hits(line, vx as int, ry, x as int + 1) =~= ps.push(
                        pos as int,
                    ));
                    assert(toggle_all(g0, ps.push(pos as int)) == flip(t, pos as int)) by {
                        assert(ps.push(pos as int).drop_last() =~= ps);
                        assert(ps.push(pos as int).last() == pos as int);
                    }
                    assert(any_lit(g0, ps.push(pos as int)) == (any_lit(g0, ps) || t[pos as int]
                        == 1)) by {
                        assert(ps.push(pos as int).drop_last() =~= ps);
                        assert(ps.push(pos as int).last() == pos as int);
                    }
                }
                if gfx[pos] == 1 {
                    collision = true;
                }
                let cell = gfx[pos];
                gfx[pos] = cell ^ 1;
                proof {
                    assert(gfx@ =~= flip(t, pos as int));
                }
            } else {
                proof {
                    assert(!sprite_row_bit(line, x as int));
                    assert(rows_done + row_hits(line, vx as int, ry, x as int + 1) =~= ps);
                }
            }
            x = x + 1;
        }
        proof {
            assert(rows_done + row_hits(line, vx as int, ry, 8) =~= sprite_hits(
                mem@,
                i as int,
                vx as int,
                vy as int,
                y as int + 1,
            ));
        }
        y = y + 1;
    }
    collision
}

} // verus!
