//! Proved laws of the machine: where each sprite bit lands, that drawing a
//! sprite twice cancels out, and that a subroutine call followed by a return
//! restores the program counter and the stack pointer.

use crate::model::{
    draw_index, draw_row, draw_sprite, spec_step, sprite_bit, CrispAteView,
};
use crate::registers::CrispsAteDecodedOpcodes;
use crate::runtime::{CrispAteExecutionResult, CrispAteInputs};
use vstd::prelude::*;

verus! {

/// Whether bits 0 through `ncols - 1` of one sprite row land on cell `j`.
pub open spec fn row_touches(b: u8, bx: int, by: int, row: int, ncols: int, j: int) -> bool {
    exists|col: int|
        0 <= col < ncols && sprite_bit(b, col) && j == draw_index(bx, by, col, row)
}

/// Whether any bit of the sprite's first `nrows` rows lands on cell `j`.
pub open spec fn sprite_touches(
    memory: Seq<u8>,
    address: int,
    bx: int,
    by: int,
    nrows: int,
    j: int,
) -> bool {
    exists|row: int, col: int|
        0 <= row < nrows && 0 <= col < 8 && sprite_bit(memory[address + row], col) && j
            == draw_index(bx, by, col, row)
}

/// Whether any bit at all of the sprite's first `nrows` rows is set.
pub open spec fn sprite_nonempty(
    memory: Seq<u8>,
    address: int,
    bx: int,
    by: int,
    nrows: int,
) -> bool {
    exists|j: int| sprite_touches(memory, address, bx, by, nrows, j)
}

/// Distinct sprite bits land on distinct cells: with base coordinates in
/// range, a row below 16 and a column below 8 are recovered uniquely from
/// the cell they land on, because each axis wraps at most once.
pub proof fn lemma_draw_index_injective(
    bx: int,
    by: int,
    c1: int,
    r1: int,
    c2: int,
    r2: int,
)
    requires
        0 <= bx < 64,
        0 <= by < 32,
        0 <= c1 < 8,
        0 <= c2 < 8,
        0 <= r1 < 16,
        0 <= r2 < 16,
        draw_index(bx, by, c1, r1) == draw_index(bx, by, c2, r2),
    ensures
        c1 == c2,
        r1 == r2,
{
    assert((bx + c1) % 64 == if bx + c1 < 64 { bx + c1 } else { bx + c1 - 64 });
    assert((bx + c2) % 64 == if bx + c2 < 64 { bx + c2 } else { bx + c2 - 64 });
    assert((by + r1) % 32 == if by + r1 < 32 { by + r1 } else { by + r1 - 32 });
    assert((by + r2) % 32 == if by + r2 < 32 { by + r2 } else { by + r2 - 32 });
}

/// What one sprite row does to the framebuffer, cell by cell: each cell one
/// of its set bits lands on is toggled, every other cell is kept, and the
/// collision report says whether any toggled cell was lit beforehand.
pub proof fn lemma_draw_row_effect(
    fb: Seq<bool>,
    b: u8,
    bx: int,
    by: int,
    row: int,
    ncols: int,
)
    requires
        fb.len() == 64 * 32,
        0 <= bx < 64,
        0 <= by < 32,
        0 <= ncols <= 8,
    ensures
        draw_row(fb, b, bx, by, row, ncols).0.len() == fb.len(),
        forall|j: int|
            0 <= j < fb.len() ==> draw_row(fb, b, bx, by, row, ncols).0[j] == (if row_touches(
                b,
                bx,
                by,
                row,
                ncols,
                j,
            ) {
                !fb[j]
            } else {
                fb[j]
            }),
        draw_row(fb, b, bx, by, row, ncols).1 == exists|col: int|
            0 <= col < ncols && sprite_bit(b, col) && fb[draw_index(bx, by, col, row)],
    decreases ncols,
{
    if ncols > 0 {
        let col = ncols - 1;
        lemma_draw_row_effect(fb, b, bx, by, row, col);
        let (fb1, hit1) = draw_row(fb, b, bx, by, row, col);
        if sprite_bit(b, col) {
            let idx = draw_index(bx, by, col, row);
            assert(0 <= idx < fb.len());
            // No earlier column lands on this cell, so it still holds its
            // original value.
            assert(!row_touches(b, bx, by, row, col, idx)) by {
                assert forall|c: int|
                    0 <= c < col && sprite_bit(b, c) implies draw_index(bx, by, c, row)
                    != idx by {
                    if draw_index(bx, by, c, row) == idx {
                        lemma_draw_index_injective(bx, by, c, row % 16, col, row % 16);
                    }
                    assert((bx + c) % 64 == if bx + c < 64 {
                        bx + c
                    } else {
                        bx + c - 64
                    });
                    assert((bx + col) % 64 == if bx + col < 64 {
                        bx + col
                    } else {
                        bx + col - 64
                    });
                }
            }
            assert(fb1[idx] == fb[idx]);
            assert forall|j: int| 0 <= j < fb.len() implies draw_row(
                fb,
                b,
                bx,
                by,
                row,
                ncols,
            ).0[j] == (if row_touches(b, bx, by, row, ncols, j) {
                !fb[j]
            } else {
                fb[j]
            }) by {
                if j == idx {
                    assert(row_touches(b, bx, by, row, ncols, j));
                } else {
                    assert(row_touches(b, bx, by, row, ncols, j) <==> row_touches(
                        b,
                        bx,
                        by,
                        row,
                        col,
                        j,
                    ));
                }
            }
        } else {
            assert forall|j: int| 0 <= j < fb.len() implies draw_row(
                fb,
                b,
                bx,
                by,
                row,
                ncols,
            ).0[j] == (if row_touches(b, bx, by, row, ncols, j) {
                !fb[j]
            } else {
                fb[j]
            }) by {
                assert(row_touches(b, bx, by, row, ncols, j) <==> row_touches(
                    b,
                    bx,
                    by,
                    row,
                    col,
                    j,
                ));
            }
        }
    }
}

/// What a whole sprite does to the framebuffer, cell by cell: each cell a
/// set bit lands on is toggled exactly once, every other cell is kept, and
/// the sticky collision flag says whether any bit landed on a cell lit
/// before the draw began.
pub proof fn lemma_draw_sprite_effect(
    fb: Seq<bool>,
    memory: Seq<u8>,
    address: int,
    bx: int,
    by: int,
    nrows: int,
)
    requires
        fb.len() == 64 * 32,
        0 <= bx < 64,
        0 <= by < 32,
        0 <= nrows <= 16,
    ensures
        draw_sprite(fb, memory, address, bx, by, nrows).0.len() == fb.len(),
        forall|j: int|
            0 <= j < fb.len() ==> draw_sprite(fb, memory, address, bx, by, nrows).0[j] == (
            if sprite_touches(memory, address, bx, by, nrows, j) {
                !fb[j]
            } else {
                fb[j]
            }),
        draw_sprite(fb, memory, address, bx, by, nrows).1 == exists|row: int, col: int|
            0 <= row < nrows && 0 <= col < 8 && sprite_bit(memory[address + row], col)
                && fb[draw_index(bx, by, col, row)],
    decreases nrows,
{
    if nrows > 0 {
        let row = nrows - 1;
        lemma_draw_sprite_effect(fb, memory, address, bx, by, row);
        let (fb1, hit1) = draw_sprite(fb, memory, address, bx, by, row);
        let b = memory[address + row];
        lemma_draw_row_effect(fb1, b, bx, by, row, 8);
        let (fb2, hit2) = draw_row(fb1, b, bx, by, row, 8);
        // A cell this row lands on was not landed on by any earlier row.
        assert forall|c: int| 0 <= c < 8 implies !sprite_touches(
            memory,
            address,
            bx,
            by,
            row,
            draw_index(bx, by, c, row),
        ) by {
            let idx = draw_index(bx, by, c, row);
            if sprite_touches(memory, address, bx, by, row, idx) {
                let (r2, c2) = choose|r2: int, c2: int|
                    0 <= r2 < row && 0 <= c2 < 8 && sprite_bit(memory[address + r2], c2) && idx
                        == draw_index(bx, by, c2, r2);
                lemma_draw_index_injective(bx, by, c, row, c2, r2);
            }
        }
        // Pointwise effect of the whole sprite.
        assert forall|j: int| 0 <= j < fb.len() implies draw_sprite(
            fb,
            memory,
            address,
            bx,
            by,
            nrows,
        ).0[j] == (if sprite_touches(memory, address, bx, by, nrows, j) {
            !fb[j]
        } else {
            fb[j]
        }) by {
            if row_touches(b, bx, by, row, 8, j) {
                let c = choose|c: int|
                    0 <= c < 8 && sprite_bit(b, c) && j == draw_index(bx, by, c, row);
                assert(!sprite_touches(memory, address, bx, by, row, j));
                assert(fb1[j] == fb[j]);
                assert(fb2[j] == !fb[j]);
                assert(sprite_touches(memory, address, bx, by, nrows, j));
            } else {
                assert(fb2[j] == fb1[j]);
                assert(sprite_touches(memory, address, bx, by, nrows, j) <==> sprite_touches(
                    memory,
                    address,
                    bx,
                    by,
                    row,
                    j,
                )) by {
                    if sprite_touches(memory, address, bx, by, nrows, j) && !sprite_touches(
                        memory,
                        address,
                        bx,
                        by,
                        row,
                        j,
                    ) {
                        let (r2, c2) = choose|r2: int, c2: int|
                            0 <= r2 < nrows && 0 <= c2 < 8 && sprite_bit(memory[address + r2], c2)
                                && j == draw_index(bx, by, c2, r2);
                        assert(r2 == row);
                        assert(row_touches(b, bx, by, row, 8, j));
                    }
                }
            }
        }
        // The sticky collision flag, against the original framebuffer.
        assert(draw_sprite(fb, memory, address, bx, by, nrows).1 == (hit1 || hit2));
        assert(hit2 == exists|col: int|
            0 <= col < 8 && sprite_bit(b, col) && fb1[draw_index(bx, by, col, row)]);
        assert forall|col: int|
            0 <= col < 8 && sprite_bit(b, col) implies fb1[draw_index(bx, by, col, row)] == fb[
            draw_index(bx, by, col, row)] by {
            assert(!sprite_touches(memory, address, bx, by, row, draw_index(bx, by, col, row)));
        }
        if hit2 {
            let col = choose|col: int|
                0 <= col < 8 && sprite_bit(b, col) && fb1[draw_index(bx, by, col, row)];
            assert(fb[draw_index(bx, by, col, row)]);
        }
        if exists|col: int|
            0 <= col < 8 && sprite_bit(b, col) && fb[draw_index(bx, by, col, row)] {
            let col = choose|col: int|
                0 <= col < 8 && sprite_bit(b, col) && fb[draw_index(bx, by, col, row)];
            assert(fb1[draw_index(bx, by, col, row)]);
            assert(hit2);
        }
    }
}

/// Drawing the same sprite twice at the same coordinates toggles every
/// touched cell twice, so the framebuffer comes back to where it started.
/// When the sprite is not empty and every cell it touches was unlit at the
/// start, the first draw reports no collision and the second one does,
/// leaving the flag register at one. The flag register must not be a
/// coordinate register, or the first draw's flag write would move the
/// second sprite.
pub proof fn lemma_draw_twice(
    s: CrispAteView,
    x: u8,
    y: u8,
    n: u8,
    inputs1: CrispAteInputs,
    inputs2: CrispAteInputs,
)
    requires
        s.wf(),
        x < 15,
        y < 15,
        n < 16,
        s.program_counter + 4 <= u16::MAX,
        s.address + n <= 4096,
        forall|j: int|
            0 <= j < s.screen.len() && sprite_touches(
                s.memory,
                s.address as int,
                (s.vregs[x as int] % 64) as int,
                (s.vregs[y as int] % 32) as int,
                n as int,
                j,
            ) ==> !s.screen[j],
        sprite_nonempty(
            s.memory,
            s.address as int,
            (s.vregs[x as int] % 64) as int,
            (s.vregs[y as int] % 32) as int,
            n as int,
        ),
    ensures
        ({
            let op = CrispsAteDecodedOpcodes::DrawSpriteAt(x, y, n);
            let (s1, r1) = spec_step(s, op, inputs1);
            let (s2, r2) = spec_step(s1, op, inputs2);
            &&& r1 == CrispAteExecutionResult::Continue
            &&& r2 == CrispAteExecutionResult::Continue
            &&& s1.vregs[15] == 0u8
            &&& s2.screen == s.screen
            &&& s2.vregs == s.vregs.update(15, 1u8)
            &&& s2.memory == s.memory
            &&& s2.program_counter == s.program_counter + 4
        }),
{
    let op = CrispsAteDecodedOpcodes::DrawSpriteAt(x, y, n);
    let (s1, r1) = spec_step(s, op, inputs1);
    let (s2, r2) = spec_step(s1, op, inputs2);
    let bx = (s.vregs[x as int] % 64) as int;
    let by = (s.vregs[y as int] % 32) as int;
    let address = s.address as int;
    lemma_draw_sprite_effect(s.screen, s.memory, address, bx, by, n as int);
    let (fb1, hit1) = draw_sprite(s.screen, s.memory, address, bx, by, n as int);
    // No touched cell is lit at the start, so the first draw reports no
    // collision.
    assert(!hit1) by {
        if hit1 {
            let (row, col) = choose|row: int, col: int|
                0 <= row < n && 0 <= col < 8 && sprite_bit(s.memory[address + row], col)
                    && s.screen[draw_index(bx, by, col, row)];
            assert(sprite_touches(s.memory, address, bx, by, n as int, draw_index(bx, by, col, row)));
        }
    }
    // The second draw sees the same sprite at the same coordinates.
    assert(s1.vregs[x as int] == s.vregs[x as int]);
    assert(s1.vregs[y as int] == s.vregs[y as int]);
    assert(s1.memory == s.memory);
    assert(s1.address == s.address);
    assert(s1.screen == fb1);
    lemma_draw_sprite_effect(fb1, s.memory, address, bx, by, n as int);
    let (fb2, hit2) = draw_sprite(fb1, s.memory, address, bx, by, n as int);
    // The sprite has a set bit somewhere, and the first draw lit the cell
    // that bit lands on, so the second draw reports a collision.
    assert(hit2) by {
        let j = choose|j: int|
            sprite_touches(s.memory, address, bx, by, n as int, j);
        let (row, col) = choose|row: int, col: int|
            0 <= row < n as int && 0 <= col < 8 && sprite_bit(s.memory[address + row], col) && j
                == draw_index(bx, by, col, row);
        let idx = draw_index(bx, by, col, row);
        assert(sprite_touches(s.memory, address, bx, by, n as int, idx));
        assert(0 <= idx < s.screen.len());
        assert(fb1[idx] == !s.screen[idx]);
        assert(fb1[idx]);
    }
    // Toggling every touched cell twice restores the framebuffer.
    assert(fb2 =~= s.screen);
    assert(s2.vregs =~= s.vregs.update(15, 1u8));
}

/// A subroutine call followed by a return restores the program counter and
/// the stack pointer: the call stores the current program counter on the
/// stack and jumps, and the return pops it back. Registers, memory and the
/// framebuffer are untouched throughout.
pub proof fn lemma_call_then_return(
    s: CrispAteView,
    address: u16,
    inputs1: CrispAteInputs,
    inputs2: CrispAteInputs,
)
    requires
        s.wf(),
        s.stack_pointer < 16,
        address < 0x1000,
    ensures
        ({
            let (s1, r1) = spec_step(
                s,
                CrispsAteDecodedOpcodes::CallSubRoutine(address),
                inputs1,
            );
            let (s2, r2) = spec_step(s1, CrispsAteDecodedOpcodes::Return, inputs2);
            &&& r1 == CrispAteExecutionResult::Continue
            &&& r2 == CrispAteExecutionResult::Continue
            &&& s1.program_counter == address
            &&& s1.stack[s.stack_pointer] == s.program_counter
            &&& s1.stack_pointer == s.stack_pointer + 1
            &&& s2.program_counter == s.program_counter
            &&& s2.stack_pointer == s.stack_pointer
            &&& s2.vregs == s.vregs
            &&& s2.memory == s.memory
            &&& s2.screen == s.screen
        }),
{
}

} // verus!
